pub mod bunny;
pub mod cat;
pub mod chickens;
pub mod random;
pub mod sprite;
