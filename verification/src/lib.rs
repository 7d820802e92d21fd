//! Keymap decoding and layer detection for a Vial keyboard overlay.
pub mod text;
pub mod keycodes;
pub mod vial;
pub mod protocol;
pub mod input_lang;
pub mod session;
pub mod keycode_laws;
