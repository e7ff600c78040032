pub mod text;
pub mod types;
pub mod resolve;
pub mod order;
pub mod modes;
pub mod devices;
pub mod gamepad;
pub mod scan;
pub mod image;
pub mod toml_doc;
pub mod input;
pub mod kbm;
pub mod state;
pub mod slots;
