//! An address book service with JWT-based accounts: user sign-up, login and
//! logout over an in-memory store, token handling, request authentication and
//! the person (address book) CRUD services.

pub mod constants;
pub mod error;
pub mod utils;
pub mod models;
pub mod config;
pub mod services;
pub mod middleware;
pub mod properties;
