//! Inventarium's authentication core: registration, login, token issue and
//! refresh, with the password and token checks that decide each request.
pub mod controller;
pub mod dto;
pub mod entity;
pub mod repo;
pub mod service;
pub mod types;
