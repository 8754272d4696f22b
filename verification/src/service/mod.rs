pub mod auth_properties;
pub mod auth_service;
pub mod claims_json;
pub mod clock;
pub mod jwt;
pub mod password;
pub mod seed;
