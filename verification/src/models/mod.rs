pub mod login_history;
pub mod person;
pub mod response;
pub mod user;
pub mod user_token;
