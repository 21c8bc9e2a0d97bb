pub mod icon_global;
