//! An embeddable line-editing engine for terminal applications.
//!
//! The library keeps an editable text line — a [`styled_buffer::StyledBuffer`]
//! of characters, per-character styles and a cursor — and drives it through a
//! fixed per-keystroke pipeline: classify the key, apply the resulting event,
//! auto-close bracket pairs, re-derive highlighting, overlay the visual
//! selection, and offer a hint.  Terminal input and output are left to the
//! host application; everything that decides or computes lives here, with
//! machine-checked contracts.

pub mod autopair;
pub mod chars;
pub mod completion;
pub mod drop_down_list_view;
pub mod editor;
pub mod engine;
pub mod event;
pub mod highlighter;
pub mod hinter;
pub mod input_filter;
pub mod keybindings;
pub mod painter;
pub mod prompt;
pub mod style;
pub mod styled_buffer;
pub mod styled_editor_view;
mod text;
