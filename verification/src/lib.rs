pub mod api;
pub mod calendar;
pub mod cli;
pub mod error;
pub mod ids;
pub mod scheduler;
pub mod text;
pub mod utils;
pub mod yougile;
pub use error::AppError;
