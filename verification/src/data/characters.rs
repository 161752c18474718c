//! The party members.

use crate::battle::action::{plain_action, ActionParameters, DamageType, SideEffect};
use crate::dice::Chance;
use crate::menu::item::{BattleAction, OnClickEvent};
use crate::party::character::Character;
use vstd::prelude::*;

verus! {

/// Whether an ability is the one that has a blank for a name and does
/// nothing.
pub open spec fn is_blank(ability: (String, OnClickEvent)) -> bool {
    ability.0@ == " "@ && ability.1 is Nothing
}

/// The member that fills an empty slot: it has no name, no hit points and
/// nothing it can do.
pub fn none_character(id: u8) -> (member: Character)
    ensures
        member.wf(),
        member.is_new(),
        !member.is_present(),
        member.name@ == Seq::<char>::empty(),
        member.avatar_spritefile@ == "/empty.png"@,
        member.has_stats(id, 0, 0, 0, 0, 1, 0, 1, 0, false),
        is_blank(member.attack_ability),
        is_blank(member.primary_ability),
        is_blank(member.secondary_ability),
{
    let attack = (" ".to_owned(), OnClickEvent::Nothing);
    let primary_ability = (" ".to_owned(), OnClickEvent::Nothing);
    let secondary_ability = (" ".to_owned(), OnClickEvent::Nothing);
    let name = String::new();
    Character::new(
        id,
        "/empty.png".to_owned(),
        name,
        0,
        0,
        0,
        0,
        1,
        0,
        1,
        0,
        false,
        attack,
        primary_ability,
        secondary_ability,
    )
}

/// The attack of Darrel Deen: a physical blow of power four that always
/// poisons and always puts to sleep.
pub open spec fn darrel_attack() -> ActionParameters {
    ActionParameters {
        damage_type: DamageType::Physical,
        power: 4,
        dead_change: Chance { threshold: 0 },
        revive: false,
        poison_change: Chance { threshold: crate::dice::ROLL_LIMIT },
        cure_poison: false,
        sleep_change: Chance { threshold: crate::dice::ROLL_LIMIT },
        cure_sleep: false,
    }
}

/// Darrel Deen, the thief: attacks, steals and flees.
pub fn darrel_deen(id: u8) -> (member: Character)
    ensures
        member.wf(),
        member.is_new(),
        member.name@ == "Darrel"@,
        member.avatar_spritefile@ == "/characters/Darrel_Deen_avatar.png"@,
        member.has_stats(id, 3, 9935, 910, 6, 5, 3, 4, 5, false),
        member.attack_ability.0@ == "Attack"@,
        member.attack_ability.1 == OnClickEvent::ToTargetSelection(darrel_attack(), (0usize, 0usize)),
        member.primary_ability.0@ == "Steal"@,
        member.primary_ability.1 == OnClickEvent::ToTargetSelection(
            plain_action(DamageType::Effect(SideEffect::Steal), 0),
            (0usize, 1usize),
        ),
        member.secondary_ability.0@ == "Flee"@,
        member.secondary_ability.1 == OnClickEvent::BattleAction(BattleAction::Flee),
{
    let attack = (
        "Attack".to_owned(),
        OnClickEvent::ToTargetSelection(
            ActionParameters::new(
                DamageType::Physical,
                4,
                Chance::never(),
                false,
                Chance::certain(),
                false,
                Chance::certain(),
                false,
            ),
            (0, 0),
        ),
    );
    let primary_ability = (
        "Steal".to_owned(),
        OnClickEvent::ToTargetSelection(
            ActionParameters::plain(DamageType::Effect(SideEffect::Steal), 0),
            (0, 1),
        ),
    );
    let secondary_ability = ("Flee".to_owned(), OnClickEvent::BattleAction(BattleAction::Flee));
    Character::new(
        id,
        "/characters/Darrel_Deen_avatar.png".to_owned(),
        "Darrel".to_owned(),
        3,
        9935,
        910,
        6,
        5,
        3,
        4,
        5,
        false,
        attack,
        primary_ability,
        secondary_ability,
    )
}

/// Nurse Seraphine, the healer: attacks and heals, from the back row.
pub fn nurse_seraphine(id: u8) -> (member: Character)
    ensures
        member.wf(),
        member.is_new(),
        member.name@ == "Seraphine"@,
        member.avatar_spritefile@ == "/characters/Nurse_Seraphine_avatar.png"@,
        member.has_stats(id, 3, 20, 15, 5, 3, 5, 3, 4, true),
        member.attack_ability.0@ == "Attack"@,
        member.attack_ability.1 == OnClickEvent::ToTargetSelection(
            plain_action(DamageType::Physical, 4),
            (0usize, 0usize),
        ),
        member.primary_ability.0@ == "Medicine"@,
        member.primary_ability.1 == OnClickEvent::ToTargetSelection(
            plain_action(DamageType::Healing, 4),
            (0usize, 1usize),
        ),
        member.secondary_ability.0@ == "asdf"@,
        member.secondary_ability.1 is Nothing,
{
    let attack = (
        "Attack".to_owned(),
        OnClickEvent::ToTargetSelection(ActionParameters::plain(DamageType::Physical, 4), (0, 0)),
    );
    let primary_ability = (
        "Medicine".to_owned(),
        OnClickEvent::ToTargetSelection(ActionParameters::plain(DamageType::Healing, 4), (0, 1)),
    );
    let secondary_ability = ("asdf".to_owned(), OnClickEvent::Nothing);
    Character::new(
        id,
        "/characters/Nurse_Seraphine_avatar.png".to_owned(),
        "Seraphine".to_owned(),
        3,
        20,
        15,
        5,
        3,
        5,
        3,
        4,
        true,
        attack,
        primary_ability,
        secondary_ability,
    )
}

} // verus!
