pub mod chapter;
pub mod series;

pub use chapter::Chapter;
pub use series::{Series, SeriesEntry, Status};
