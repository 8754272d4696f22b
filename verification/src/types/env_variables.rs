//! The service's configuration: the token secrets and the SQLite journal mode.
use vstd::prelude::*;

verus! {

/// The configuration, read once at start-up.
#[derive(Debug, Clone)]
pub struct EnvVariables {
    jwt_secret: Vec<u8>,
    jwt_ref_secret: Vec<u8>,
    use_wal_mode: bool,
}

/// A required setting that is missing.
#[derive(Debug, Clone, Copy, PartialEq, Eq)]
pub enum ConfigError {
    MissingJwtSecret,
    MissingJwtRefSecret,
}

/// The text of a configuration error.
pub open spec fn config_error_message(e: ConfigError) -> Seq<char> {
    match e {
        ConfigError::MissingJwtSecret => "JWT_SECRET is required"@,
        ConfigError::MissingJwtRefSecret => "JWT_REF_SECRET is required"@,
    }
}

impl ConfigError {
    /// The text of this error.
    pub fn message(&self) -> (text: String)
        ensures
            text@ == config_error_message(*self),
    {
        match self {
            ConfigError::MissingJwtSecret => String::from_str("JWT_SECRET is required"),
            ConfigError::MissingJwtRefSecret => String::from_str("JWT_REF_SECRET is required"),
        }
    }
}

/// Whether a setting's text turns the write-ahead log on: only "true" does;
/// "false", any other text and an absent setting leave it off.
pub open spec fn wal_mode_of(value: Option<String>) -> bool {
    match value {
        Some(v) => v@ == "true"@,
        None => false,
    }
}

impl EnvVariables {
    /// The secret for access tokens.
    pub closed spec fn jwt_secret_bytes(&self) -> Seq<u8> {
        self.jwt_secret@
    }

    /// The secret for refresh tokens.
    pub closed spec fn jwt_ref_secret_bytes(&self) -> Seq<u8> {
        self.jwt_ref_secret@
    }

    /// Whether SQLite runs with the write-ahead log.
    pub closed spec fn wal_mode(&self) -> bool {
        self.use_wal_mode
    }

    /// The configuration from the values of JWT_SECRET, JWT_REF_SECRET and
    /// USE_WAL_MODE (each absent where unset). Both secrets are required; the
    /// secrets are kept as the bytes of their text.
    pub fn from_values(
        jwt_secret: Option<String>,
        jwt_ref_secret: Option<String>,
        use_wal_mode: Option<String>,
    ) -> (res: Result<Self, ConfigError>)
        ensures
            jwt_secret is None ==> res == Err::<Self, ConfigError>(ConfigError::MissingJwtSecret),
            jwt_secret is Some && jwt_ref_secret is None ==> res == Err::<Self, ConfigError>(
                ConfigError::MissingJwtRefSecret,
            ),
            jwt_secret is Some && jwt_ref_secret is Some ==> (res matches Ok(config) && config.jwt_secret_bytes()
                == vstd::utf8::encode_utf8(jwt_secret->0@) && config.jwt_ref_secret_bytes()
                == vstd::utf8::encode_utf8(jwt_ref_secret->0@) && config.wal_mode() == wal_mode_of(
                use_wal_mode,
            )),
    {
        let jwt_secret = match jwt_secret {
            Some(s) => s,
            None => {
                return Err(ConfigError::MissingJwtSecret);
            },
        };
        let jwt_ref_secret = match jwt_ref_secret {
            Some(s) => s,
            None => {
                return Err(ConfigError::MissingJwtRefSecret);
            },
        };
        let use_wal_mode = match use_wal_mode {
            Some(v) => v == String::from_str("true"),
            None => false,
        };
        Ok(EnvVariables {
            jwt_secret: jwt_secret.as_str().as_bytes_vec(),
            jwt_ref_secret: jwt_ref_secret.as_str().as_bytes_vec(),
            use_wal_mode,
        })
    }

    /// The secret for access tokens.
    pub fn get_jwt_secret(&self) -> (secret: &[u8])
        ensures
            secret@ == self.jwt_secret_bytes(),
    {
        self.jwt_secret.as_slice()
    }

    /// The secret for refresh tokens.
    pub fn get_jwt_ref_secret(&self) -> (secret: &[u8])
        ensures
            secret@ == self.jwt_ref_secret_bytes(),
    {
        self.jwt_ref_secret.as_slice()
    }

    /// Whether SQLite runs with the write-ahead log.
    pub fn get_sqlite_is_wal_mode(&self) -> (wal: bool)
        ensures
            wal == self.wal_mode(),
    {
        self.use_wal_mode
    }
}

} // verus!
