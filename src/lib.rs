//! Chart quantities derived from raw ephemeris output: diurnality, the Part
//! of Fortune, house angles, body metadata, motion state and aspects.
//!
//! Every angle is an integer count of micro-degrees (millionths of a degree).

pub mod angle;
pub mod chart;
pub mod constants;
pub mod dates;
pub mod fortuna;
pub mod horizon;
pub mod sweconst;
