use auction_market::cards::create_default_card_templates;

#[test]
fn default_catalogue_tiers() {
    let tiers = create_default_card_templates();
    let summary: Vec<(&str, u32, usize)> = tiers
        .iter()
        .map(|t| (t.rarity.as_str(), t.weight, t.cards.len()))
        .collect();
    assert_eq!(
        summary,
        vec![("Common", 50, 2), ("Rare", 30, 1), ("Epic", 15, 1), ("Legendary", 5, 1)]
    );
    let total: u32 = tiers.iter().map(|t| t.weight).sum();
    assert_eq!(total, 100);
}

#[test]
fn default_catalogue_cards() {
    let tiers = create_default_card_templates();
    let warrior = &tiers[0].cards[0];
    assert_eq!(warrior.name, "Warrior");
    assert_eq!((warrior.attack, warrior.defense, warrior.speed), (100, 80, 60));
    assert_eq!(warrior.special_ability, "Strike");
    assert_eq!(warrior.image_url, "https://example.com/warrior.png");
    let archer = &tiers[0].cards[1];
    assert_eq!(archer.name, "Archer");
    assert_eq!((archer.attack, archer.defense, archer.speed), (80, 60, 100));
    let guardian = &tiers[3].cards[0];
    assert_eq!(guardian.name, "Ancient Guardian");
    assert_eq!((guardian.attack, guardian.defense, guardian.speed), (200, 180, 120));
    assert_eq!(guardian.special_ability, "Time Stop");
    assert_eq!(tiers[2].cards[0].name, "Dragon Knight");
    assert_eq!(tiers[1].cards[0].special_ability, "Fireball");
}
