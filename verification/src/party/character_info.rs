//! The status badges shown beside a party member.

use vstd::prelude::*;

verus! {

/// A status a combatant can be afflicted with.
#[derive(Clone, Copy, Debug, PartialEq, Eq, Structural)]
pub enum StatusEffect {
    Poison,
    Sleep,
}

/// The row of status badges of one party member, in the order they were
/// pinned. A status has at most one badge, so the row holds at most two.
#[derive(Clone, Copy, Debug)]
pub struct CharacterInfo {
    pub first: Option<StatusEffect>,
    pub second: Option<StatusEffect>,
}

impl CharacterInfo {
    /// The row is packed to the left and shows no status twice.
    pub open spec fn wf(self) -> bool {
        &&& self.first is None ==> self.second is None
        &&& self.second is Some ==> self.first != self.second
    }

    /// The badges from left to right.
    pub open spec fn badges(self) -> Seq<StatusEffect> {
        match (self.first, self.second) {
            (Some(a), Some(b)) => seq![a, b],
            (Some(a), None) => seq![a],
            (None, Some(b)) => seq![b],
            (None, None) => Seq::empty(),
        }
    }

    /// Whether `effect` has a badge.
    pub open spec fn shows(self, effect: StatusEffect) -> bool {
        self.first == Some(effect) || self.second == Some(effect)
    }

    /// The row after pinning `effect`: unchanged if it is already shown,
    /// else with the badge added at the right end.
    pub open spec fn with_effect(self, effect: StatusEffect) -> CharacterInfo {
        if self.shows(effect) {
            self
        } else if self.first is None {
            CharacterInfo { first: Some(effect), second: self.second }
        } else if self.second is None {
            CharacterInfo { first: self.first, second: Some(effect) }
        } else {
            self
        }
    }

    /// The row after taking the badge of `effect` down: unchanged if it is
    /// not shown, else with the badges right of it moved one place left.
    pub open spec fn without_effect(self, effect: StatusEffect) -> CharacterInfo {
        if self.first == Some(effect) {
            CharacterInfo { first: self.second, second: None }
        } else if self.second == Some(effect) {
            CharacterInfo { first: self.first, second: None }
        } else {
            self
        }
    }

    /// An empty row.
    pub fn new() -> (info: CharacterInfo)
        ensures
            info.wf(),
            info.first is None,
            info.second is None,
            info.badges() == Seq::<StatusEffect>::empty(),
    {
        CharacterInfo { first: None, second: None }
    }

    /// Whether `effect` has a badge.
    pub fn has_effect(&self, effect: StatusEffect) -> (shown: bool)
        ensures
            shown == self.shows(effect),
    {
        let in_first = match self.first {
            Some(e) => e == effect,
            None => false,
        };
        let in_second = match self.second {
            Some(e) => e == effect,
            None => false,
        };
        in_first || in_second
    }

    /// Pins the badge of `effect`.
    pub fn set_effect(&mut self, effect: StatusEffect)
        requires
            old(self).wf(),
        ensures
            *final(self) == old(self).with_effect(effect),
            final(self).wf(),
            final(self).shows(effect),
    {
        if !self.has_effect(effect) {
            if self.first.is_none() {
                self.first = Some(effect);
            } else if self.second.is_none() {
                self.second = Some(effect);
            } else {
                proof {
                    lemma_full_row_shows_all(*self, effect);
                }
            }
        }
    }

    /// Takes the badge of `effect` down, if it is shown.
    pub fn remove_effect(&mut self, effect: StatusEffect)
        requires
            old(self).wf(),
        ensures
            *final(self) == old(self).without_effect(effect),
            final(self).wf(),
            !final(self).shows(effect),
    {
        let in_first = match self.first {
            Some(e) => e == effect,
            None => false,
        };
        let in_second = match self.second {
            Some(e) => e == effect,
            None => false,
        };
        if in_first {
            self.first = self.second;
            self.second = None;
        } else if in_second {
            self.second = None;
        }
    }
}

/// A full row shows every status, there being only two.
pub proof fn lemma_full_row_shows_all(info: CharacterInfo, effect: StatusEffect)
    requires
        info.wf(),
        info.first is Some,
        info.second is Some,
    ensures
        info.shows(effect),
{
    let a = info.first->0;
    let b = info.second->0;
    assert(a != b);
    match (a, b, effect) {
        (StatusEffect::Poison, StatusEffect::Sleep, _) => {},
        (StatusEffect::Sleep, StatusEffect::Poison, _) => {},
        _ => {},
    }
}

/// Pinning a badge that is not shown and taking it down again restores the row,
/// and neither operation touches the badge of the other status.
pub proof fn lemma_badge_round_trip(info: CharacterInfo, effect: StatusEffect, other: StatusEffect)
    requires
        info.wf(),
        other != effect,
    ensures
        !info.shows(effect) ==> info.with_effect(effect).without_effect(effect) == info,
        info.with_effect(effect).shows(other) == info.shows(other),
        info.without_effect(effect).shows(other) == info.shows(other),
        info.with_effect(effect).wf(),
        info.without_effect(effect).wf(),
{
}

} // verus!
