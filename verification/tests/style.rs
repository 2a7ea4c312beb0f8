use item_tile::model::ItemRarity;
use item_tile::style::{
    ItemFavouriteStyle, ItemInfoStyle, ItemRarityStyle, ItemTrashStyle, Rgba, TagStyle,
};

fn rgb(red: u8, green: u8, blue: u8) -> Rgba {
    Rgba {
        red,
        green,
        blue,
        alpha: 255,
    }
}

fn boxed(text: Rgba, background: Rgba, border: Rgba) -> TagStyle {
    TagStyle {
        text_color: Some(text),
        background: Some(background),
        border_radius: 3,
        border_width: 1,
        border_color: border,
    }
}

#[test]
fn info_style_is_grey_box() {
    assert_eq!(
        ItemInfoStyle.style(),
        boxed(rgb(224, 224, 224), rgb(38, 38, 38), rgb(46, 46, 46))
    );
}

#[test]
fn favourite_style_is_cyan_on_teal() {
    assert_eq!(
        ItemFavouriteStyle.style(),
        boxed(rgb(19, 232, 240), rgb(29, 53, 54), rgb(36, 60, 61))
    );
}

#[test]
fn trash_style_is_red_on_maroon() {
    assert_eq!(
        ItemTrashStyle.style(),
        boxed(rgb(240, 149, 149), rgb(54, 29, 29), rgb(61, 36, 36))
    );
}

#[test]
fn rarity_styles_match_their_triples() {
    let cases = [
        (
            ItemRarity::Common,
            rgb(242, 233, 218),
            rgb(54, 51, 48),
            rgb(61, 59, 55),
        ),
        (
            ItemRarity::Uncommon,
            rgb(172, 240, 149),
            rgb(35, 54, 29),
            rgb(42, 61, 36),
        ),
        (
            ItemRarity::Rare,
            rgb(149, 202, 240),
            rgb(29, 44, 54),
            rgb(36, 51, 61),
        ),
        (
            ItemRarity::VeryRare,
            rgb(208, 149, 240),
            rgb(45, 29, 54),
            rgb(52, 36, 61),
        ),
        (
            ItemRarity::Legendary,
            rgb(240, 213, 149),
            rgb(54, 47, 29),
            rgb(61, 54, 36),
        ),
        (
            ItemRarity::NamedWeapon,
            rgb(232, 240, 149),
            rgb(51, 54, 29),
            rgb(59, 61, 36),
        ),
    ];
    for (rarity, text, background, border) in cases {
        assert_eq!(
            ItemRarityStyle { rarity }.style(),
            boxed(text, background, border)
        );
    }
}

#[test]
fn unknown_rarity_style_is_transparent() {
    let clear = Rgba {
        red: 0,
        green: 0,
        blue: 0,
        alpha: 0,
    };
    assert_eq!(
        ItemRarityStyle {
            rarity: ItemRarity::Unknown
        }
        .style(),
        boxed(clear, clear, clear)
    );
}
