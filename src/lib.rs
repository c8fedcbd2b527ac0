//! Conversion between keyboard key identifiers: DOM key-code strings, the
//! `Keys` enumeration and HID usage-ids, per keyboard layout.
//!
//! The key table is the single source of every mapping. `KeyMaps` is built
//! from it once, checked for collisions, and then only read.

pub mod action;
pub mod buckets;
pub mod keys;
pub mod laws;
pub mod layout;
pub mod maps;
pub mod names;
pub mod table;
pub mod text;

pub use action::{
    HidReport, KeyboardAction, MODIFIER_CODE_ALT, MODIFIER_CODE_CTRL, MODIFIER_CODE_META,
    MODIFIER_CODE_SHIFT,
};
pub use keys::{KeyDefinition, Keys, MappedKey};
pub use layout::Keyboard;
pub use maps::{mapped_key, KeyMaps, TableError};
pub use table::key_definitions;
