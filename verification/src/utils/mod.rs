pub mod search;
pub mod header;
pub mod text;
pub mod token_utils;
