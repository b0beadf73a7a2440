//! Inline-image escape sequences for compatible terminal emulators.
//!
//! The library builds the vendor-specific escape sequence that asks a
//! terminal to render (or offer for download) an embedded image payload,
//! and classifies whether the host terminal is known to understand it.

pub mod capability;
pub mod encoding;
pub mod inline_image_builder;
