pub mod account_book_service;
pub mod account_service;
