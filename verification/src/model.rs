//! The item record that a tile summarises: identifiers, category,
//! optional parts, user flags and level.

use vstd::prelude::*;
use vstd::string::StringExecFns;

verus! {

/// Quality tier of an item; it decides the rarity tag's text and colours.
#[derive(Clone, Copy, Debug, PartialEq, Eq, Structural)]
pub enum ItemRarity {
    Common,
    Uncommon,
    Rare,
    VeryRare,
    Legendary,
    NamedWeapon,
    Unknown,
}

impl ItemRarity {
    /// Display text of each rarity tier.
    pub open spec fn text_spec(self) -> Seq<char> {
        match self {
            ItemRarity::Common => "Common"@,
            ItemRarity::Uncommon => "Uncommon"@,
            ItemRarity::Rare => "Rare"@,
            ItemRarity::VeryRare => "Very Rare"@,
            ItemRarity::Legendary => "Legendary"@,
            ItemRarity::NamedWeapon => "Named Weapon"@,
            ItemRarity::Unknown => "Unknown"@,
        }
    }

    /// Text shown inside the rarity tag.
    pub fn text(&self) -> (r: String)
        ensures
            r@ == self.text_spec(),
    {
        match self {
            ItemRarity::Common => String::from_str("Common"),
            ItemRarity::Uncommon => String::from_str("Uncommon"),
            ItemRarity::Rare => String::from_str("Rare"),
            ItemRarity::VeryRare => String::from_str("Very Rare"),
            ItemRarity::Legendary => String::from_str("Legendary"),
            ItemRarity::NamedWeapon => String::from_str("Named Weapon"),
            ItemRarity::Unknown => String::from_str("Unknown"),
        }
    }
}

/// Broad category of an item; only a weapon carries a weapon sub-type tag.
#[derive(Clone, Copy, Debug, PartialEq, Eq, Structural)]
pub enum ItemType {
    Weapon,
    Shield,
    Grenade,
    ClassMod,
    Artifact,
    Other,
}

/// Sub-type of a weapon, shown as a tag of its own on weapons.
#[derive(Clone, Copy, Debug, PartialEq, Eq, Structural)]
pub enum WeaponType {
    Pistol,
    Shotgun,
    Smg,
    AssaultRifle,
    SniperRifle,
    Heavy,
}

impl WeaponType {
    /// Display text of each weapon sub-type.
    pub open spec fn text_spec(self) -> Seq<char> {
        match self {
            WeaponType::Pistol => "Pistol"@,
            WeaponType::Shotgun => "Shotgun"@,
            WeaponType::Smg => "SMG"@,
            WeaponType::AssaultRifle => "Assault Rifle"@,
            WeaponType::SniperRifle => "Sniper Rifle"@,
            WeaponType::Heavy => "Heavy"@,
        }
    }

    /// Text shown inside the weapon-type tag.
    pub fn text(&self) -> (r: String)
        ensures
            r@ == self.text_spec(),
    {
        match self {
            WeaponType::Pistol => String::from_str("Pistol"),
            WeaponType::Shotgun => String::from_str("Shotgun"),
            WeaponType::Smg => String::from_str("SMG"),
            WeaponType::AssaultRifle => String::from_str("Assault Rifle"),
            WeaponType::SniperRifle => String::from_str("Sniper Rifle"),
            WeaponType::Heavy => String::from_str("Heavy"),
        }
    }
}

/// Bit marking an item the user keeps as a favourite.
pub const FAVOURITE: u32 = 1;

/// Bit marking an item the user has thrown on the trash pile.
pub const TRASH: u32 = 2;

/// User-assigned state bits on an item, a favourite and a trash bit
/// among them.
#[derive(Clone, Copy, Debug, PartialEq, Eq, Structural)]
pub struct ItemFlags {
    pub bits: u32,
}

impl ItemFlags {
    /// Whether every bit of `mask` is set.
    pub open spec fn spec_contains(self, mask: u32) -> bool {
        self.bits & mask == mask
    }

    pub fn new(bits: u32) -> (r: ItemFlags)
        ensures
            r.bits == bits,
    {
        ItemFlags { bits }
    }

    /// Whether every bit of `mask` is set.
    pub fn contains(&self, mask: u32) -> (r: bool)
        ensures
            r == self.spec_contains(mask),
    {
        self.bits & mask == mask
    }
}

/// The base-template record of an item: an optional explicit name, an
/// optional short identifier, and the identifier every item has.
#[derive(Clone, Debug)]
pub struct BalancePart {
    pub name: Option<String>,
    pub short_ident: Option<String>,
    pub ident: String,
}

/// The brand record of an item; only the short identifier feeds the tile.
#[derive(Clone, Debug)]
pub struct ManufacturerPart {
    pub short_ident: Option<String>,
}

/// Nested descriptor of an item's parts: its weapon sub-type, if it is a
/// weapon, and its rarity tier.
#[derive(Clone, Copy, Debug)]
pub struct ItemParts {
    pub weapon_type: Option<WeaponType>,
    pub rarity: ItemRarity,
}

/// One item of the save file, as far as the summary tile reads it.
#[derive(Clone, Debug)]
pub struct Bl3Item {
    pub balance_part: BalancePart,
    pub manufacturer_part: ManufacturerPart,
    pub item_type: ItemType,
    pub item_parts: Option<ItemParts>,
    pub flags: Option<ItemFlags>,
    pub level: usize,
}

impl Bl3Item {
    /// The item's base-template record.
    pub fn balance_part(&self) -> (r: &BalancePart)
        ensures
            *r == self.balance_part,
    {
        &self.balance_part
    }

    /// The item's brand record.
    pub fn manufacturer_part(&self) -> (r: &ManufacturerPart)
        ensures
            *r == self.manufacturer_part,
    {
        &self.manufacturer_part
    }

    /// The item's level.
    pub fn level(&self) -> (r: usize)
        ensures
            r == self.level,
    {
        self.level
    }
}

} // verus!
