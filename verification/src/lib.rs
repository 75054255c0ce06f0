pub mod auth;
pub mod client;
pub mod connection;
pub mod doc;
pub mod error;
pub mod fields;
pub mod helper;
pub mod json;
pub mod paging;
pub mod path;
pub mod query;
pub mod request;
pub mod size_calculator;
pub mod strutil;
pub mod txn;
pub mod value;
pub mod wire;
