pub mod guard;
pub mod jwt;
