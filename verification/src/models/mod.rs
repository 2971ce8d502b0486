pub mod password_reset;
pub mod user;
