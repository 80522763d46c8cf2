//! Rate limits on following the tray around, and on countdown flashes.
use crate::text::same_text;
use vstd::prelude::*;

verus! {

/// The tray is followed at most this often, in milliseconds.
pub const FOLLOW_EVERY_MS: u128 = 500;

/// When tray movements are ignored. Times are nanoseconds of a clock that
/// never goes back.
#[derive(Clone, Copy, Debug, PartialEq, Eq, Structural)]
pub struct TrayGate {
    pub suppressed_until: Option<u128>,
    pub last_reposition: Option<u128>,
}

/// Milliseconds from `then` to `now`.
pub open spec fn millis_between(then: u128, now: u128) -> int {
    if now < then {
        0
    } else {
        (now - then) / 1_000_000
    }
}

/// Movements are ignored at `now`.
pub open spec fn suppressed(g: TrayGate, now: u128) -> bool {
    g.suppressed_until is Some && now < g.suppressed_until->0
}

/// Long enough since the tray was last followed.
pub open spec fn may_follow(g: TrayGate, now: u128) -> bool {
    g.last_reposition is None || millis_between(g.last_reposition->0, now) > FOLLOW_EVERY_MS
}

/// What is known after a window moved, and whether the widget has to follow it.
pub open spec fn moved(g: TrayGate, is_tray: bool, now: u128) -> (TrayGate, bool) {
    if !is_tray || suppressed(g, now) {
        (g, false)
    } else if may_follow(g, now) {
        (TrayGate { suppressed_until: None, last_reposition: Some(now) }, true)
    } else {
        (TrayGate { suppressed_until: None, ..g }, false)
    }
}

impl TrayGate {
    pub fn new() -> (g: TrayGate)
        ensures
            g == (TrayGate { suppressed_until: None, last_reposition: None }),
    {
        TrayGate { suppressed_until: None, last_reposition: None }
    }

    /// Ignore tray movements for a while.
    pub fn suppress_for(&mut self, now: u128, ms: u32)
        requires
            now + ms * 1_000_000 <= u128::MAX,
        ensures
            *final(self) == (TrayGate {
                suppressed_until: Some((now + ms * 1_000_000) as u128),
                ..*old(self)
            }),
    {
        self.suppressed_until = Some(now + ms as u128 * 1_000_000);
    }

    /// Whether movements are ignored; a deadline that has passed is forgotten.
    pub fn is_suppressed(&mut self, now: u128) -> (yes: bool)
        ensures
            yes == suppressed(*old(self), now),
            *final(self) == (if yes {
                *old(self)
            } else {
                TrayGate { suppressed_until: None, ..*old(self) }
            }),
    {
        match self.suppressed_until {
            Some(deadline) => {
                if now < deadline {
                    true
                } else {
                    self.suppressed_until = None;
                    false
                }
            },
            None => false,
        }
    }

    /// A window moved; tells whether the widget has to follow.
    pub fn on_location_changed(&mut self, is_tray: bool, now: u128) -> (follow: bool)
        ensures
            (*final(self), follow) == moved(*old(self), is_tray, now),
            follow == (is_tray && !suppressed(*old(self), now) && may_follow(*old(self), now)),
            !is_tray || suppressed(*old(self), now) ==> *final(self) == *old(self),
            is_tray && !suppressed(*old(self), now) ==> *final(self) == (TrayGate {
                suppressed_until: None,
                last_reposition: if follow {
                    Some(now)
                } else {
                    old(self).last_reposition
                },
            }),
    {
        if !is_tray {
            return false;
        }
        if self.is_suppressed(now) {
            return false;
        }
        let follow: bool = match self.last_reposition {
            Some(t) => now >= t && (now - t) / 1_000_000 > FOLLOW_EVERY_MS,
            None => true,
        };
        if follow {
            self.last_reposition = Some(now);
        }
        follow
    }
}

/// Some countdown that was already drawn has changed.
pub open spec fn rolled_over(last: Seq<String>, texts: Seq<String>) -> bool {
    exists|i: int|
        0 <= i < last.len() && #[trigger] last[i]@ != texts[i]@ && last[i]@.len() > 0
}

/// Remember the countdowns now drawn; tells whether one that was drawn before
/// has changed, which calls for a flash.
pub fn note_texts(last: &mut Vec<String>, texts: &Vec<String>) -> (flash: bool)
    requires
        old(last)@.len() == texts@.len(),
    ensures
        flash == rolled_over(old(last)@, texts@),
        final(last)@.len() == texts@.len(),
        forall|i: int| 0 <= i < texts@.len() ==> #[trigger] final(last)@[i]@ == texts@[i]@,
{
    let mut flash: bool = false;
    let mut next: Vec<String> = Vec::new();
    let mut i: usize = 0;
    while i < texts.len()
        invariant
            i <= texts@.len(),
            last@.len() == texts@.len(),
            last@ == old(last)@,
            next@.len() == i,
            forall|j: int| 0 <= j < i ==> #[trigger] next@[j]@ == texts@[j]@,
            flash == exists|j: int|
                0 <= j < i && #[trigger] last@[j]@ != texts@[j]@ && last@[j]@.len() > 0,
        decreases texts@.len() - i,
    {
        let known = last[i].as_str();
        if !same_text(known, texts[i].as_str()) && !known.is_empty() {
            flash = true;
            assert(last@[i as int]@ != texts@[i as int]@ && last@[i as int]@.len() > 0);
        }
        next.push(texts[i].clone());
        i = i + 1;
    }
    *last = next;
    flash
}

/// After the icons changed, tray movements are ignored exactly until the
/// deadline.
pub proof fn law_suppressed_movements_are_ignored(g: TrayGate, since: u128, ms: u32, now: u128)
    requires
        since + ms * 1_000_000 <= u128::MAX,
    ensures
        ({
            let held = TrayGate {
                suppressed_until: Some((since + ms * 1_000_000) as u128),
                ..g
            };
            suppressed(held, now) <==> now < since + ms * 1_000_000
        }),
{
}

/// The tray is not followed twice within half a second, and a tray that moves
/// later than that is followed unless movements are ignored.
pub proof fn law_the_tray_is_followed_now_and_then(g: TrayGate, first: u128, second: u128)
    requires
        moved(g, true, first).1,
    ensures
        ({
            let after = moved(g, true, first).0;
            &&& second < first + 501_000_000 ==> !moved(after, true, second).1
            &&& second >= first + 501_000_000 ==> moved(after, true, second).1
        }),
{
}

/// Only the tray is followed, the first movement at once; an ignored movement
/// changes nothing, and one that is seen ends the ignoring.
pub proof fn law_only_the_tray_is_followed(g: TrayGate, now: u128)
    ensures
        moved(g, false, now) == (g, false),
        g.suppressed_until is Some && now < g.suppressed_until->0 ==> moved(g, true, now) == (
            g,
            false,
        ),
        g.suppressed_until is None && g.last_reposition is None ==> moved(g, true, now) == (
            TrayGate { suppressed_until: None, last_reposition: Some(now) },
            true,
        ),
        g.suppressed_until is Some && now >= g.suppressed_until->0 ==> moved(g, true, now)
            == moved(TrayGate { suppressed_until: None, ..g }, true, now),
        moved(g, true, now).1 ==> moved(g, true, now).0.last_reposition == Some(now),
        !moved(g, true, now).1 ==> moved(g, true, now).0.last_reposition == g.last_reposition,
{
}

/// A countdown that was drawn and now reads otherwise calls for a flash;
/// countdowns that stay, and those that appear for the first time, do not.
pub proof fn law_changed_countdowns_flash(last: Seq<String>, texts: Seq<String>, i: int)
    requires
        last.len() == texts.len(),
        0 <= i < last.len(),
    ensures
        last[i]@.len() > 0 && last[i]@ != texts[i]@ ==> rolled_over(last, texts),
        rolled_over(last, last) == false,
        (forall|j: int| 0 <= j < last.len() ==> (#[trigger] last[j])@.len() == 0)
            ==> !rolled_over(last, texts),
        (forall|j: int| 0 <= j < last.len() ==> (#[trigger] last[j])@ == texts[j]@)
            ==> !rolled_over(last, texts),
{
}

} // verus!
