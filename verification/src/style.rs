//! Styling of the tag boxes: one fixed style for the plain info tags,
//! one each for the favourite and trash badges, and a rarity-keyed table.

use vstd::prelude::*;
use crate::model::ItemRarity;

verus! {

/// An sRGB colour with alpha, eight bits per channel.
#[derive(Clone, Copy, Debug, PartialEq, Eq, Structural)]
pub struct Rgba {
    pub red: u8,
    pub green: u8,
    pub blue: u8,
    pub alpha: u8,
}

impl Rgba {
    /// An opaque colour from its three channels.
    pub open spec fn spec_rgb(red: u8, green: u8, blue: u8) -> Rgba {
        Rgba { red, green, blue, alpha: 255 }
    }

    /// Fully transparent black.
    pub open spec fn spec_transparent() -> Rgba {
        Rgba { red: 0, green: 0, blue: 0, alpha: 0 }
    }

    /// Builds an opaque colour from its three channels.
    pub fn from_rgb8(red: u8, green: u8, blue: u8) -> (c: Rgba)
        ensures
            c == Rgba::spec_rgb(red, green, blue),
    {
        Rgba { red, green, blue, alpha: 255 }
    }

    /// Builds fully transparent black.
    pub fn transparent() -> (c: Rgba)
        ensures
            c == Rgba::spec_transparent(),
    {
        Rgba { red: 0, green: 0, blue: 0, alpha: 0 }
    }
}

/// Resolved visual properties of one tag box. The border radius and
/// width are in whole display units.
#[derive(Clone, Copy, Debug, PartialEq, Eq, Structural)]
pub struct TagStyle {
    pub text_color: Option<Rgba>,
    pub background: Option<Rgba>,
    pub border_radius: u8,
    pub border_width: u8,
    pub border_color: Rgba,
}

/// Style of the plain info tags: level, manufacturer and weapon type.
#[derive(Clone, Copy, Debug, PartialEq, Eq, Structural)]
pub struct ItemInfoStyle;

impl ItemInfoStyle {
    /// The fixed grey info box: light text on a dark panel.
    pub open spec fn style_spec() -> TagStyle {
        TagStyle {
            text_color: Some(Rgba::spec_rgb(224, 224, 224)),
            background: Some(Rgba::spec_rgb(38, 38, 38)),
            border_radius: 3,
            border_width: 1,
            border_color: Rgba::spec_rgb(46, 46, 46),
        }
    }

    /// Resolves the info-tag style.
    pub fn style(&self) -> (s: TagStyle)
        ensures
            s == ItemInfoStyle::style_spec(),
    {
        TagStyle {
            text_color: Some(Rgba::from_rgb8(224, 224, 224)),
            background: Some(Rgba::from_rgb8(38, 38, 38)),
            border_radius: 3,
            border_width: 1,
            border_color: Rgba::from_rgb8(46, 46, 46),
        }
    }
}

/// Style of the favourite badge: cyan on teal.
#[derive(Clone, Copy, Debug, PartialEq, Eq, Structural)]
pub struct ItemFavouriteStyle;

impl ItemFavouriteStyle {
    /// The fixed favourite-badge box.
    pub open spec fn style_spec() -> TagStyle {
        TagStyle {
            text_color: Some(Rgba::spec_rgb(19, 232, 240)),
            background: Some(Rgba::spec_rgb(29, 53, 54)),
            border_radius: 3,
            border_width: 1,
            border_color: Rgba::spec_rgb(36, 60, 61),
        }
    }

    /// Resolves the favourite-badge style.
    pub fn style(&self) -> (s: TagStyle)
        ensures
            s == ItemFavouriteStyle::style_spec(),
    {
        TagStyle {
            text_color: Some(Rgba::from_rgb8(19, 232, 240)),
            background: Some(Rgba::from_rgb8(29, 53, 54)),
            border_radius: 3,
            border_width: 1,
            border_color: Rgba::from_rgb8(36, 60, 61),
        }
    }
}

/// Style of the trash badge: red on maroon.
#[derive(Clone, Copy, Debug, PartialEq, Eq, Structural)]
pub struct ItemTrashStyle;

impl ItemTrashStyle {
    /// The fixed trash-badge box.
    pub open spec fn style_spec() -> TagStyle {
        TagStyle {
            text_color: Some(Rgba::spec_rgb(240, 149, 149)),
            background: Some(Rgba::spec_rgb(54, 29, 29)),
            border_radius: 3,
            border_width: 1,
            border_color: Rgba::spec_rgb(61, 36, 36),
        }
    }

    /// Resolves the trash-badge style.
    pub fn style(&self) -> (s: TagStyle)
        ensures
            s == ItemTrashStyle::style_spec(),
    {
        TagStyle {
            text_color: Some(Rgba::from_rgb8(240, 149, 149)),
            background: Some(Rgba::from_rgb8(54, 29, 29)),
            border_radius: 3,
            border_width: 1,
            border_color: Rgba::from_rgb8(61, 36, 36),
        }
    }
}

/// Which status badge an item shows, carrying that badge's style.
#[derive(Clone, Copy, Debug, PartialEq, Eq, Structural)]
pub enum FavouriteTrashStyle {
    Favourite(ItemFavouriteStyle),
    Trash(ItemTrashStyle),
}

/// Style of the rarity tag, keyed by the item's rarity tier.
#[derive(Clone, Copy, Debug, PartialEq, Eq, Structural)]
pub struct ItemRarityStyle {
    pub rarity: ItemRarity,
}

impl ItemRarityStyle {
    /// The colour triple of each rarity tier, in a box with the common
    /// border. An unknown rarity falls back to transparent colours.
    pub open spec fn style_spec(rarity: ItemRarity) -> TagStyle {
        match rarity {
            ItemRarity::Common => TagStyle {
                text_color: Some(Rgba::spec_rgb(242, 233, 218)),
                background: Some(Rgba::spec_rgb(54, 51, 48)),
                border_radius: 3,
                border_width: 1,
                border_color: Rgba::spec_rgb(61, 59, 55),
            },
            ItemRarity::Uncommon => TagStyle {
                text_color: Some(Rgba::spec_rgb(172, 240, 149)),
                background: Some(Rgba::spec_rgb(35, 54, 29)),
                border_radius: 3,
                border_width: 1,
                border_color: Rgba::spec_rgb(42, 61, 36),
            },
            ItemRarity::Rare => TagStyle {
                text_color: Some(Rgba::spec_rgb(149, 202, 240)),
                background: Some(Rgba::spec_rgb(29, 44, 54)),
                border_radius: 3,
                border_width: 1,
                border_color: Rgba::spec_rgb(36, 51, 61),
            },
            ItemRarity::VeryRare => TagStyle {
                text_color: Some(Rgba::spec_rgb(208, 149, 240)),
                background: Some(Rgba::spec_rgb(45, 29, 54)),
                border_radius: 3,
                border_width: 1,
                border_color: Rgba::spec_rgb(52, 36, 61),
            },
            ItemRarity::Legendary => TagStyle {
                text_color: Some(Rgba::spec_rgb(240, 213, 149)),
                background: Some(Rgba::spec_rgb(54, 47, 29)),
                border_radius: 3,
                border_width: 1,
                border_color: Rgba::spec_rgb(61, 54, 36),
            },
            ItemRarity::NamedWeapon => TagStyle {
                text_color: Some(Rgba::spec_rgb(232, 240, 149)),
                background: Some(Rgba::spec_rgb(51, 54, 29)),
                border_radius: 3,
                border_width: 1,
                border_color: Rgba::spec_rgb(59, 61, 36),
            },
            ItemRarity::Unknown => TagStyle {
                text_color: Some(Rgba::spec_transparent()),
                background: Some(Rgba::spec_transparent()),
                border_radius: 3,
                border_width: 1,
                border_color: Rgba::spec_transparent(),
            },
        }
    }

    /// Resolves the rarity tag's style from its rarity tier.
    pub fn style(&self) -> (s: TagStyle)
        ensures
            s == ItemRarityStyle::style_spec(self.rarity),
    {
        let (text_color, background, border_color) = match self.rarity {
            ItemRarity::Common => (
                Rgba::from_rgb8(242, 233, 218),
                Rgba::from_rgb8(54, 51, 48),
                Rgba::from_rgb8(61, 59, 55),
            ),
            ItemRarity::Uncommon => (
                Rgba::from_rgb8(172, 240, 149),
                Rgba::from_rgb8(35, 54, 29),
                Rgba::from_rgb8(42, 61, 36),
            ),
            ItemRarity::Rare => (
                Rgba::from_rgb8(149, 202, 240),
                Rgba::from_rgb8(29, 44, 54),
                Rgba::from_rgb8(36, 51, 61),
            ),
            ItemRarity::VeryRare => (
                Rgba::from_rgb8(208, 149, 240),
                Rgba::from_rgb8(45, 29, 54),
                Rgba::from_rgb8(52, 36, 61),
            ),
            ItemRarity::Legendary => (
                Rgba::from_rgb8(240, 213, 149),
                Rgba::from_rgb8(54, 47, 29),
                Rgba::from_rgb8(61, 54, 36),
            ),
            ItemRarity::NamedWeapon => (
                Rgba::from_rgb8(232, 240, 149),
                Rgba::from_rgb8(51, 54, 29),
                Rgba::from_rgb8(59, 61, 36),
            ),
            ItemRarity::Unknown => (
                Rgba::transparent(),
                Rgba::transparent(),
                Rgba::transparent(),
            ),
        };
        TagStyle {
            text_color: Some(text_color),
            background: Some(background),
            border_radius: 3,
            border_width: 1,
            border_color,
        }
    }
}

} // verus!
