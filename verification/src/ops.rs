pub mod basic_statistics;
pub mod brightness;
pub mod collect_statistics;
pub mod pointwise;
