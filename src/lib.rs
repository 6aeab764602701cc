//! Landmark ingestion, skeleton bookkeeping and tracking decisions for a
//! motion-capture avatar driver.

pub mod face;
pub mod hands;
pub mod landmarks;
pub mod pose;
pub mod skeleton;
pub mod text;
pub mod tracking;
pub mod rig;
