//! The card catalogue that reward boxes draw from: tiers of rarity, each with
//! a draw weight and the cards it holds.
use vstd::prelude::*;

verus! {

/// A card that a reward box can yield.
#[derive(Clone, Debug)]
pub struct CardTemplate {
    pub name: String,
    pub attack: u32,
    pub defense: u32,
    pub speed: u32,
    pub special_ability: String,
    pub image_url: String,
}

/// A rarity tier: its name, its draw weight and its cards.
#[derive(Clone, Debug)]
pub struct RarityWeight {
    pub rarity: String,
    pub weight: u32,
    pub cards: Vec<CardTemplate>,
}

/// Whether `c` is the card with these attributes.
pub open spec fn card_is(
    c: CardTemplate,
    name: &str,
    attack: u32,
    defense: u32,
    speed: u32,
    special_ability: &str,
    image_url: &str,
) -> bool {
    &&& c.name@ == name@
    &&& c.attack == attack
    &&& c.defense == defense
    &&& c.speed == speed
    &&& c.special_ability@ == special_ability@
    &&& c.image_url@ == image_url@
}

/// Whether `t` is the tier with this name and weight and `n` cards.
pub open spec fn tier_is(t: RarityWeight, rarity: &str, weight: u32, n: nat) -> bool {
    &&& t.rarity@ == rarity@
    &&& t.weight == weight
    &&& t.cards@.len() == n
}

/// The default catalogue: Common (weight 50), Rare (30), Epic (15) and
/// Legendary (5).
pub fn create_default_card_templates() -> (r: Vec<RarityWeight>)
    ensures
        r@.len() == 4,
        tier_is(r@[0], "Common", 50, 2),
        card_is(r@[0].cards@[0], "Warrior", 100, 80, 60, "Strike", "https://example.com/warrior.png"),
        card_is(
            r@[0].cards@[1],
            "Archer",
            80,
            60,
            100,
            "Precise Shot",
            "https://example.com/archer.png",
        ),
        tier_is(r@[1], "Rare", 30, 1),
        card_is(r@[1].cards@[0], "Mage", 120, 70, 80, "Fireball", "https://example.com/mage.png"),
        tier_is(r@[2], "Epic", 15, 1),
        card_is(
            r@[2].cards@[0],
            "Dragon Knight",
            150,
            120,
            90,
            "Dragon Breath",
            "https://example.com/dragon_knight.png",
        ),
        tier_is(r@[3], "Legendary", 5, 1),
        card_is(
            r@[3].cards@[0],
            "Ancient Guardian",
            200,
            180,
            120,
            "Time Stop",
            "https://example.com/ancient_guardian.png",
        ),
{
    vec![
        RarityWeight {
            rarity: "Common".to_string(),
            weight: 50,
            cards: vec![
                CardTemplate {
                    name: "Warrior".to_string(),
                    attack: 100,
                    defense: 80,
                    speed: 60,
                    special_ability: "Strike".to_string(),
                    image_url: "https://example.com/warrior.png".to_string(),
                },
                CardTemplate {
                    name: "Archer".to_string(),
                    attack: 80,
                    defense: 60,
                    speed: 100,
                    special_ability: "Precise Shot".to_string(),
                    image_url: "https://example.com/archer.png".to_string(),
                },
            ],
        },
        RarityWeight {
            rarity: "Rare".to_string(),
            weight: 30,
            cards: vec![
                CardTemplate {
                    name: "Mage".to_string(),
                    attack: 120,
                    defense: 70,
                    speed: 80,
                    special_ability: "Fireball".to_string(),
                    image_url: "https://example.com/mage.png".to_string(),
                },
            ],
        },
        RarityWeight {
            rarity: "Epic".to_string(),
            weight: 15,
            cards: vec![
                CardTemplate {
                    name: "Dragon Knight".to_string(),
                    attack: 150,
                    defense: 120,
                    speed: 90,
                    special_ability: "Dragon Breath".to_string(),
                    image_url: "https://example.com/dragon_knight.png".to_string(),
                },
            ],
        },
        RarityWeight {
            rarity: "Legendary".to_string(),
            weight: 5,
            cards: vec![
                CardTemplate {
                    name: "Ancient Guardian".to_string(),
                    attack: 200,
                    defense: 180,
                    speed: 120,
                    special_ability: "Time Stop".to_string(),
                    image_url: "https://example.com/ancient_guardian.png".to_string(),
                },
            ],
        },
    ]
}

} // verus!
