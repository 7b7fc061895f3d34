//! Verified core of a bridge between an immediate-mode GUI library and a host
//! renderer.
//!
//! The host owns one [`UiEngine`]. It reports input to it, asks it what to
//! tell the GUI library at the start of a frame, hands it what the library
//! produced at the end of the frame, and reads back the vertices, the
//! triangle indices and the font atlas to upload.
//!
//! - [`binary32`]: single-precision numbers as bit patterns, and their order.
//! - [`vertex`]: vertices, and which of them are kept.
//! - [`geometry`]: how the triangles of a mesh are renumbered, and the buffer
//!   that holds the result.
//! - [`atlas`]: the font atlas and the texture it is made from.
//! - [`engine`]: the engine and its operations.

pub mod atlas;
pub mod binary32;
pub mod engine;
pub mod geometry;
pub mod vertex;

pub use crate::engine::{
    egui_cleanup, egui_get_font_texture_data, egui_get_render_data, egui_handle_event,
    egui_handle_key_event, egui_handle_mouse_event, egui_init, egui_is_initialized,
    egui_new_frame, egui_render, egui_set_screen_size, EngineState, FontTextureData, RenderData,
    UiEngine,
};
pub use crate::vertex::UIVertex;
