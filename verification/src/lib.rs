//! Summary-tile logic for a save editor's item list.
//!
//! Given an in-memory item record, this crate resolves the bold display
//! label, decides which tags the tag row shows (level, manufacturer,
//! weapon sub-type, rarity, favourite/trash badge), and fixes the colour
//! and border styling of each tag category. The host user interface
//! renders the resulting [`tile::ItemTile`] description; everything the
//! tile holds is computed and specified here.

pub mod model;
pub mod style;
pub mod text;
pub mod tile;
