pub mod commands;

pub use driver::SSD1680;

pub mod config;
pub mod driver;
pub mod error;
pub mod interface;
pub mod protocol;
pub mod recording;
