pub mod app_state;
pub mod base_response;
pub mod env_variables;
pub mod jwt_payload;
