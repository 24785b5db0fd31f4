//! Conversion of celestial equatorial coordinates (right ascension and
//! declination, written in sexagesimal notation) into horizontal coordinates
//! (altitude and azimuth) for an observer at a given place and time.
//!
//! All angles are carried as exact integers in micro-degrees (1e-6 degree),
//! and trigonometric ratios as integers scaled by 1e6, so that every formula
//! in the pipeline is a pure, fully specified integer computation.

mod clock;
mod horizontal;
mod object;
mod sexagesimal;
mod sidereal;
mod trig;
mod types;

pub use clock::Instant;
pub use horizontal::to_alt_az;
pub use object::CelestialObject;
pub use sexagesimal::parse;
pub use sidereal::local_sidereal_time;
pub use types::Angle;
pub use types::AngleKind;
pub use types::DomainError;
pub use types::GeoCoordinate;
pub use types::HorizontalPosition;
pub use types::ParseError;
