pub mod user_repo;
