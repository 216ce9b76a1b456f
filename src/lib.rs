pub mod auth;
pub mod cli;
pub mod codec;
pub mod csv_convert;
pub mod error;
pub mod genpass;
pub mod keys;
pub mod source;
pub mod text;
