pub mod text;
pub mod sorting;
pub mod util;
pub mod selection;
pub mod browser;
pub mod eq;
pub mod presets;
pub mod state;
pub mod keys;
pub mod display;
