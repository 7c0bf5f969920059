//! Periodic market-data tracking: validation of fetched price series,
//! derived indicators, fetch-cycle planning and text rendering.
pub mod decimal;
pub mod model;
pub mod indicators;
pub mod transform;
pub mod render;
pub mod fetch;
