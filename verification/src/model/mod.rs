//! The records of a location history and the builders that validate them.

pub mod activity;
pub mod classification;
pub mod location;
pub mod moment;
mod percent;

pub use activity::{Activity, ActivityBuilder};
pub use classification::{Classification, ClassificationBuilder};
pub use location::{Coordinates, Location, LocationBuilder};
