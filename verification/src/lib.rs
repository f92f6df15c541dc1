//! Layout, text and state logic of the local proxy's desktop panel.
pub mod about_text;
pub mod bitmap;
pub mod curve;
pub mod dialog_laws;
pub mod doc_laws;
pub mod doc_state;
pub mod doc_window;
pub mod fields;
pub mod form_laws;
pub mod frame_laws;
pub mod geometry;
pub mod main_messages;
pub mod main_window;
pub mod message_laws;
pub mod model;
pub mod number_laws;
pub mod panel_laws;
pub mod panel_paint;
pub mod probe;
pub mod session_laws;
pub mod settings_draw;
pub mod settings_form;
pub mod settings_laws;
pub mod settings_plan;
pub mod text;
pub mod text_laws;
pub mod theme;
pub mod tray;
pub mod tutorial_laws;
pub mod ui_state;
