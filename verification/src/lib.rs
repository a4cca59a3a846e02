//! Verified core of an interactive map viewer.
//!
//! The crate keeps the pan/zoom state of a fixed map image, turns pointer
//! events into state changes and click queries, converts screen positions to
//! projected Mercator coordinates, keeps the ledger of prediction requests
//! that are in flight, and renders a delivered score for display.
//!
//! Every quantity is an integer. Screen coordinates are in thousandths of a
//! pixel, positions in the image are exact fractions of pixels, projected
//! coordinates are in millimetres, zoom factors in tenths, scores and
//! degrees in millionths.

pub mod dispatch;
pub mod fixed;
pub mod input;
pub mod present;
pub mod transform;
pub mod view;
