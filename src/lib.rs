
pub mod application;
pub mod decimal;
pub mod domain;
pub mod file_type;
pub mod infrastructure;
