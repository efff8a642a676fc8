pub mod cli;
pub mod error;
pub mod habit;
pub mod models;
pub mod services;
pub mod storage;
pub mod todo;

mod clock;
