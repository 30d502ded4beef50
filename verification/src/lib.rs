pub mod chain;
pub mod config_file;
pub mod descriptor;
pub mod driver;
pub mod errors;
pub mod script;
pub mod store;
pub mod wallet;
