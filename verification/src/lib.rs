pub mod anim;
pub mod error;
pub mod header;
pub mod icon;
pub mod reader;
pub mod render;
pub mod strings;
