pub mod hud;
pub mod layout;
pub mod status;
