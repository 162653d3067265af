pub mod condition;
pub mod config;
pub mod formatter;
pub mod icons;
pub mod location;
pub mod num;
pub mod quantities;
pub mod text;
pub mod units;
pub mod weather;
