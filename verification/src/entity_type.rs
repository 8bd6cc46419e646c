//! The closed set of entity kinds that can appear in a world snapshot.

use vstd::prelude::*;

verus! {

/// Each unique tangible body that exists in the game world, as reported to
/// clients in snapshots.
#[derive(Clone, Copy, Debug, PartialEq, Eq, Structural)]
pub enum EntityType {
    PlayerCharacter,
    /// Projectile of the basic attack spell.
    BasicAttack,
    /// Projectile of the kinetic pulse spell.
    KeneticPulse,
    /// Projectile of the lightning spell.
    Lightning,
    /// Shop character; reserved, not yet spawned by anything.
    ArmsDealer,
    /// Standard enemy.
    Ghoul,
    /// Slow, beefy, high-power enemy.
    Phantom,
    /// Faster enemy that heals itself by attacking.
    Drinker,
    /// Fast, high-damage, low-health enemy.
    Crawler,
    /// Dropped currency.
    Coin,
    /// Dropped loot container.
    LootBag,
}

/// The wire tag of each entity kind.
pub open spec fn spec_entity_type_tag(t: EntityType) -> u8 {
    match t {
        EntityType::PlayerCharacter => 0,
        EntityType::BasicAttack => 1,
        EntityType::KeneticPulse => 2,
        EntityType::Lightning => 3,
        EntityType::ArmsDealer => 4,
        EntityType::Ghoul => 5,
        EntityType::Phantom => 6,
        EntityType::Drinker => 7,
        EntityType::Crawler => 8,
        EntityType::Coin => 9,
        EntityType::LootBag => 10,
    }
}

/// The entity kind a wire tag stands for; `None` for the tags no kind uses.
pub open spec fn spec_entity_type_from_tag(tag: u8) -> Option<EntityType> {
    if tag == 0 {
        Some(EntityType::PlayerCharacter)
    } else if tag == 1 {
        Some(EntityType::BasicAttack)
    } else if tag == 2 {
        Some(EntityType::KeneticPulse)
    } else if tag == 3 {
        Some(EntityType::Lightning)
    } else if tag == 4 {
        Some(EntityType::ArmsDealer)
    } else if tag == 5 {
        Some(EntityType::Ghoul)
    } else if tag == 6 {
        Some(EntityType::Phantom)
    } else if tag == 7 {
        Some(EntityType::Drinker)
    } else if tag == 8 {
        Some(EntityType::Crawler)
    } else if tag == 9 {
        Some(EntityType::Coin)
    } else if tag == 10 {
        Some(EntityType::LootBag)
    } else {
        None
    }
}

/// Tags and kinds correspond one to one.
pub broadcast proof fn lemma_entity_type_tag_roundtrip(t: EntityType)
    ensures
        #[trigger] spec_entity_type_from_tag(spec_entity_type_tag(t)) == Some(t),
{
}

impl EntityType {
    /// The wire tag of this entity kind.
    pub fn tag(self) -> (r: u8)
        ensures
            r == spec_entity_type_tag(self),
    {
        match self {
            EntityType::PlayerCharacter => 0,
            EntityType::BasicAttack => 1,
            EntityType::KeneticPulse => 2,
            EntityType::Lightning => 3,
            EntityType::ArmsDealer => 4,
            EntityType::Ghoul => 5,
            EntityType::Phantom => 6,
            EntityType::Drinker => 7,
            EntityType::Crawler => 8,
            EntityType::Coin => 9,
            EntityType::LootBag => 10,
        }
    }

    /// The entity kind a wire tag stands for; `None` for a tag no kind uses.
    pub fn from_tag(tag: u8) -> (r: Option<EntityType>)
        ensures
            r == spec_entity_type_from_tag(tag),
    {
        match tag {
            0 => Some(EntityType::PlayerCharacter),
            1 => Some(EntityType::BasicAttack),
            2 => Some(EntityType::KeneticPulse),
            3 => Some(EntityType::Lightning),
            4 => Some(EntityType::ArmsDealer),
            5 => Some(EntityType::Ghoul),
            6 => Some(EntityType::Phantom),
            7 => Some(EntityType::Drinker),
            8 => Some(EntityType::Crawler),
            9 => Some(EntityType::Coin),
            10 => Some(EntityType::LootBag),
            _ => None,
        }
    }
}

} // verus!
