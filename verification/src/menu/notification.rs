//! The single-slot message banner.

use vstd::prelude::*;

verus! {

/// Ticks a message stays up.
pub const NOTIFICATION_TICKS: u16 = 90;

/// A message and the ticks it has left on screen.
pub struct Notification {
    pub text: String,
    pub show_time: u16,
}

/// What a banner is, as a value: its characters and the ticks it has left.
pub struct Banner {
    pub text: Seq<char>,
    pub show_time: u16,
}

impl View for Notification {
    type V = Banner;

    open spec fn view(&self) -> Banner {
        Banner { text: self.text@, show_time: self.show_time }
    }
}

/// What the banner slot holds, as a value.
pub open spec fn slot_view(slot: Option<Notification>) -> Option<Banner> {
    match slot {
        Some(n) => Some(n@),
        None => None,
    }
}

/// A banner that was just put up and reads `text`.
pub open spec fn fresh_banner(text: Seq<char>) -> Option<Banner> {
    Some(Banner { text, show_time: NOTIFICATION_TICKS })
}

/// Whether the slot holds a banner that was just put up and reads `text`.
pub open spec fn slot_says(slot: Option<Notification>, text: Seq<char>) -> bool {
    slot_view(slot) == fresh_banner(text)
}

/// The slot one tick later: a banner with time left loses one tick, one
/// without is taken down.
pub open spec fn slot_ticked(banner: Option<Banner>) -> Option<Banner> {
    match banner {
        Some(b) => if b.show_time > 0 {
            Some(Banner { text: b.text, show_time: (b.show_time - 1) as u16 })
        } else {
            None
        },
        None => None,
    }
}

impl Notification {
    /// A fresh banner reading `text`.
    pub fn new(text: String) -> (n: Notification)
        ensures
            n.text == text,
            n.show_time == NOTIFICATION_TICKS,
            Some(n@) == fresh_banner(text@),
    {
        Notification { text, show_time: NOTIFICATION_TICKS }
    }
}

/// Puts up a fresh banner reading `text`.
pub fn post(slot: &mut Option<Notification>, text: String)
    ensures
        slot_view(*final(slot)) == fresh_banner(text@),
{
    *slot = Some(Notification::new(text));
}

/// Lets one tick pass for the banner slot.
pub fn tick_slot(slot: &mut Option<Notification>)
    ensures
        slot_view(*final(slot)) == slot_ticked(slot_view(*old(slot))),
{
    let keep = match slot {
        Some(n) => {
            if n.show_time > 0 {
                n.show_time = n.show_time - 1;
                true
            } else {
                false
            }
        },
        None => true,
    };
    if !keep {
        *slot = None;
    }
}

} // verus!
