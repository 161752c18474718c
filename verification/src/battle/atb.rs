//! When a time bar runs over.
//!
//! While nobody holds the turn, the bar of a combatant that does not rest
//! steps by its agility once every `ATB_SUBTICKS` ticks and runs over on the
//! first step that would take it past the largest value a bar can show. The
//! tick on which that happens is a function of the bar, its sub-counter and
//! the agility alone; this module states that function and proves it right.

use crate::battle::state::{BattleState, ATB_SUBTICKS};
use vstd::arithmetic::div_mod::{lemma_fundamental_div_mod, lemma_mod_bound};
use vstd::arithmetic::mul::lemma_mul_inequality;
use vstd::prelude::*;

verus! {

impl BattleState {
    /// The state after `n` ticks on each of which nobody held the turn.
    pub open spec fn after_ticks(self, n: nat) -> BattleState
        decreases n,
    {
        if n == 0 {
            self
        } else {
            self.after_ticks((n - 1) as nat).after_update(0)
        }
    }

    /// How many steps the bar can still take without running over.
    pub open spec fn steps_left(self) -> int {
        (u8::MAX - self.atb) / (self.agility as int)
    }

    /// The number of the tick, counting from one, on which the bar runs over.
    pub open spec fn ticks_to_ready(self) -> int {
        (ATB_SUBTICKS - self.atb_subtick) + ATB_SUBTICKS * self.steps_left()
    }

    /// Whether the bar can fill at all: the combatant does not rest and has
    /// some agility.
    pub open spec fn can_fill(self) -> bool {
        !self.rests() && self.agility > 0
    }
}

/// Floor division brackets the dividend: `steps_left` steps fit under the
/// bar's limit and one more does not.
proof fn lemma_steps_left(s: BattleState)
    requires
        s.agility > 0,
    ensures
        0 <= s.steps_left(),
        s.atb + s.steps_left() * s.agility <= u8::MAX,
        s.atb + (s.steps_left() + 1) * s.agility > u8::MAX,
{
    let x = u8::MAX - s.atb;
    let d = s.agility as int;
    lemma_fundamental_div_mod(x, d);
    lemma_mod_bound(x, d);
    assert(d * (x / d) == (x / d) * d) by (nonlinear_arith);
    assert((x / d + 1) * d == (x / d) * d + d) by (nonlinear_arith);
    assert(0 <= x / d) by (nonlinear_arith)
        requires
            x >= 0,
            d > 0,
            x == d * (x / d) + (x % d),
            0 <= x % d < d,
    ;
}

/// Before the bar runs over, its value and sub-counter after `n` ticks are
/// given in closed form, and nothing else about the combatant has changed
/// that bears on the bar. The bar runs over on tick `ticks_to_ready` and on
/// no earlier tick.
pub proof fn lemma_overflow_tick(s: BattleState, n: nat)
    requires
        s.wf(),
        s.can_fill(),
        n < s.ticks_to_ready(),
    ensures
        s.after_ticks(n).wf(),
        s.after_ticks(n).can_fill(),
        s.after_ticks(n).id == s.id,
        s.after_ticks(n).agility == s.agility,
        s.after_ticks(n).atb == s.atb + s.agility * ((s.atb_subtick + n) / 5),
        s.after_ticks(n).atb_subtick == (s.atb_subtick + n) % 5,
        s.after_ticks(n).becomes_ready(0) <==> n + 1 == s.ticks_to_ready(),
    decreases n,
{
    lemma_steps_left(s);
    let k = s.steps_left();
    let g = s.agility as int;
    let a = s.atb as int;
    let q = (s.atb_subtick + n) / 5;
    assert(q * g <= k * g) by {
        lemma_mul_inequality(q, k, g);
    }
    assert(g * q == q * g) by (nonlinear_arith);
    let t = s.after_ticks(n);
    if n == 0 {
        assert(g * q == 0) by (nonlinear_arith)
            requires
                q == 0,
        ;
    } else {
        let m = (n - 1) as nat;
        lemma_overflow_tick(s, m);
        let p = s.after_ticks(m);
        let qm = (s.atb_subtick + m) / 5;
        assert(!p.becomes_ready(0));
        assert(t == p.after_update(0));
        if p.atb_subtick + 1 == ATB_SUBTICKS {
            assert(g * q == g * qm + g) by (nonlinear_arith)
                requires
                    q == qm + 1,
            ;
            assert(t.atb == p.atb + g);
        } else {
            assert(t.atb == p.atb);
        }
    }
    assert(t.atb == a + g * q);
    if t.atb_subtick + 1 == ATB_SUBTICKS {
        if n + 1 == s.ticks_to_ready() {
            assert((k + 1) * g == k * g + g) by (nonlinear_arith);
            assert(t.atb + t.agility > u8::MAX);
        } else {
            assert((q + 1) * g <= k * g) by {
                lemma_mul_inequality(q + 1, k, g);
            }
            assert((q + 1) * g == q * g + g) by (nonlinear_arith);
            assert(t.atb + t.agility <= u8::MAX);
        }
    }
}

/// A combatant that rests or is without agility never becomes ready:
/// its bar is emptied or stands where it is.
pub proof fn lemma_never_ready(s: BattleState, n: nat)
    requires
        s.wf(),
        !s.can_fill(),
    ensures
        !s.after_ticks(n).can_fill(),
        s.after_ticks(n).wf(),
        !s.after_ticks(n).becomes_ready(0),
    decreases n,
{
    if n > 0 {
        lemma_never_ready(s, (n - 1) as nat);
    }
}

} // verus!
