use item_tile::model::{ItemFlags, ItemRarity, WeaponType, FAVOURITE, TRASH};

#[test]
fn rarity_texts_are_exact() {
    assert_eq!(ItemRarity::Common.text(), "Common");
    assert_eq!(ItemRarity::Uncommon.text(), "Uncommon");
    assert_eq!(ItemRarity::Rare.text(), "Rare");
    assert_eq!(ItemRarity::VeryRare.text(), "Very Rare");
    assert_eq!(ItemRarity::Legendary.text(), "Legendary");
    assert_eq!(ItemRarity::NamedWeapon.text(), "Named Weapon");
    assert_eq!(ItemRarity::Unknown.text(), "Unknown");
}

#[test]
fn weapon_type_texts_are_exact() {
    assert_eq!(WeaponType::Pistol.text(), "Pistol");
    assert_eq!(WeaponType::Shotgun.text(), "Shotgun");
    assert_eq!(WeaponType::Smg.text(), "SMG");
    assert_eq!(WeaponType::AssaultRifle.text(), "Assault Rifle");
    assert_eq!(WeaponType::SniperRifle.text(), "Sniper Rifle");
    assert_eq!(WeaponType::Heavy.text(), "Heavy");
}

#[test]
fn flag_bits_are_distinct() {
    assert_ne!(FAVOURITE, TRASH);
    let favourite_only = ItemFlags::new(FAVOURITE);
    assert!(favourite_only.contains(FAVOURITE));
    assert!(!favourite_only.contains(TRASH));
    let both = ItemFlags::new(FAVOURITE | TRASH);
    assert!(both.contains(FAVOURITE));
    assert!(both.contains(TRASH));
}
