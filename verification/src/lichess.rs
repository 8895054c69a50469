pub mod login;
pub mod model;
