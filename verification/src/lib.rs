//! Core of a photo frame for a multi-colour electrophoretic display panel.
//!
//! The library identifies the panel from its identity-chip record, builds a
//! saturation-blended eight-colour palette, normalises a source image to the
//! panel geometry, maps pixels onto the palette, packs palette indices into
//! the panel's transmission format, and sequences the panel's update
//! protocol as data for a thin hardware layer to execute.

pub mod driver;
pub mod epd;
pub mod error;
pub mod framebuffer;
pub mod palette;
pub mod quantize;
pub mod resize;
