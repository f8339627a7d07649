//! A single-line text input control whose text is vertically centred inside
//! its border, with the layout and paint decisions of the centring hook
//! stated and proved.

pub mod geometry;
pub mod hook;
pub mod text_input;

pub use text_input::{TextInput, TextInputBuilder, TextInputFlags};
