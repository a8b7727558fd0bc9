pub mod auth;
pub mod slots;
pub mod yougile;
