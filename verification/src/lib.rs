//! Forced-drop patching of the `summon_lot.tbl` table of Granblue Fantasy: Relink.
//!
//! The library reads and re-weights the fixed-layout binary table in place, holds
//! the summon and bonus catalogue, and decides what the picker front-end shows and does.

pub mod data;
pub mod hexid;
pub mod json;
pub mod patch;
pub mod reloaded;
pub mod settings;
pub mod status;
pub mod table;
pub mod text;
