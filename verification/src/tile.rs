//! The tile itself: which tags an item's summary shows, with their text,
//! in the fixed order of the tag row.

use vstd::prelude::*;
use crate::model::{Bl3Item, ItemFlags, ItemRarity, ItemType, FAVOURITE, TRASH};
use crate::style::{FavouriteTrashStyle, ItemFavouriteStyle, ItemTrashStyle};
use crate::text::{label_spec, level_text_spec, manufacturer_text_spec, level_tag_text,
    manufacturer_tag_text, resolve_label};

verus! {

/// Which status badge a flag set earns: the favourite badge when the
/// favourite bit is set, else the trash badge when the trash bit is set,
/// else none.
pub open spec fn badge_spec(f: ItemFlags) -> Option<FavouriteTrashStyle> {
    if f.spec_contains(FAVOURITE) {
        Some(FavouriteTrashStyle::Favourite(ItemFavouriteStyle))
    } else if f.spec_contains(TRASH) {
        Some(FavouriteTrashStyle::Trash(ItemTrashStyle))
    } else {
        None
    }
}

/// Picks the status badge that a flag set earns.
pub fn badge_for(flags: ItemFlags) -> (r: Option<FavouriteTrashStyle>)
    ensures
        r == badge_spec(flags),
{
    if flags.contains(FAVOURITE) {
        Some(FavouriteTrashStyle::Favourite(ItemFavouriteStyle))
    } else if flags.contains(TRASH) {
        Some(FavouriteTrashStyle::Trash(ItemTrashStyle))
    } else {
        None
    }
}

/// When both the favourite and the trash bit are set, the favourite badge
/// is chosen, never the trash badge.
pub proof fn lemma_favourite_wins(f: ItemFlags)
    requires
        f.spec_contains(FAVOURITE),
        f.spec_contains(TRASH),
    ensures
        badge_spec(f) == Some(FavouriteTrashStyle::Favourite(ItemFavouriteStyle)),
{
}

/// Whether the tile shows a weapon-type tag: only a weapon whose parts
/// carry a weapon sub-type gets one.
pub open spec fn shows_weapon_tag(item: Bl3Item) -> bool {
    &&& item.item_parts is Some
    &&& item.item_type == ItemType::Weapon
    &&& item.item_parts->0.weapon_type is Some
}

/// Whether the tile shows a rarity tag: only parts with a known rarity
/// get one.
pub open spec fn shows_rarity_tag(item: Bl3Item) -> bool {
    &&& item.item_parts is Some
    &&& item.item_parts->0.rarity != ItemRarity::Unknown
}

/// A non-weapon item shows no weapon-type tag, even when its parts carry
/// a weapon sub-type.
pub proof fn lemma_weapon_tag_needs_weapon(item: Bl3Item)
    requires
        item.item_type != ItemType::Weapon,
    ensures
        !shows_weapon_tag(item),
{
}

/// An unknown rarity shows no rarity tag; with parts present, every other
/// rarity shows one.
pub proof fn lemma_rarity_tag_visibility(item: Bl3Item)
    requires
        item.item_parts is Some,
    ensures
        shows_rarity_tag(item) <==> item.item_parts->0.rarity != ItemRarity::Unknown,
{
}

/// Everything the summary tile of one item shows: the bold label line,
/// then the tag row in its fixed order — level, manufacturer, weapon
/// sub-type, rarity, status badge — each of the last four only when its
/// source data calls for it.
#[derive(Clone, Debug)]
pub struct ItemTile {
    pub label: String,
    pub level_text: String,
    pub manufacturer: Option<String>,
    pub weapon_type: Option<String>,
    pub rarity: Option<ItemRarity>,
    pub badge: Option<FavouriteTrashStyle>,
}

/// Builds the summary tile of one item: resolves the label, renders the
/// level and manufacturer texts, and decides which optional tags appear.
pub fn view(item: &Bl3Item) -> (t: ItemTile)
    ensures
        t.label@ == label_spec(item.balance_part),
        t.level_text@ == level_text_spec(item.level as nat),
        t.manufacturer is Some <==> item.manufacturer_part.short_ident is Some,
        item.manufacturer_part.short_ident is Some ==> t.manufacturer->0@
            == manufacturer_text_spec(item.manufacturer_part.short_ident->0@),
        t.weapon_type is Some <==> shows_weapon_tag(*item),
        shows_weapon_tag(*item) ==> t.weapon_type->0@
            == item.item_parts->0.weapon_type->0.text_spec(),
        t.rarity is Some <==> shows_rarity_tag(*item),
        shows_rarity_tag(*item) ==> t.rarity->0 == item.item_parts->0.rarity,
        t.badge == (match item.flags {
            Some(f) => badge_spec(f),
            None => None::<FavouriteTrashStyle>,
        }),
{
    let label = resolve_label(item.balance_part());
    let level_text = level_tag_text(item.level());

    let manufacturer = match &item.manufacturer_part().short_ident {
        Some(short) => Some(manufacturer_tag_text(short)),
        None => None,
    };

    let mut weapon_type: Option<String> = None;
    let mut rarity: Option<ItemRarity> = None;
    if let Some(item_parts) = &item.item_parts {
        if item.item_type == ItemType::Weapon {
            if let Some(wt) = &item_parts.weapon_type {
                weapon_type = Some(wt.text());
            }
        }
        if item_parts.rarity != ItemRarity::Unknown {
            rarity = Some(item_parts.rarity);
        }
    }

    let badge = match item.flags {
        Some(flags) => badge_for(flags),
        None => None,
    };

    ItemTile { label, level_text, manufacturer, weapon_type, rarity, badge }
}

} // verus!
