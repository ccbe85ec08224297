//! Verified core of the Tank Matrix rain renderer: the preset table, the
//! shader source rewriting, the sizes and layouts of the render passes, and
//! the decisions that the desktop viewer and the screen savers make.

pub mod config;
pub mod text;
pub mod shader;
pub mod rain;
pub mod bloom;
pub mod palette;
pub mod pipeline;
pub mod viewer;
pub mod settings;
pub mod command;
pub mod window;
pub mod dialog;
pub mod texture;
