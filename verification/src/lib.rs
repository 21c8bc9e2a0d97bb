//! Verified core of the `weathr` terminal weather scene: screen layout,
//! lawn and pond geometry, seasonal colour styling, themes, HUD text and the
//! animal sprites that walk across the lawn.

pub mod ui;
pub mod color;
pub mod season;
pub mod weather;
pub mod theme;
pub mod scene;
pub mod text;
pub mod app;
pub mod animation;
