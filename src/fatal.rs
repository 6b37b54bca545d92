//! Fatal escalation: the one place that every unrecoverable failure goes to.
//! The first failure gets the diagnostic screen and the countdown to reset;
//! any failure after it is not shown again, so the device resets once.

use vstd::prelude::*;

verus! {

/// Heading of the diagnostic screen.
pub const FATAL_HEADING: &'static str = "FATAL ERROR";

/// First line of the explanation on the diagnostic screen.
pub const FATAL_LINE_ONE: &'static str = "A fatal error has occurred and is unable";

/// Second line of the explanation on the diagnostic screen.
pub const FATAL_LINE_TWO: &'static str = "to recover. Check support for the fix.";

/// Text before the error's own message.
pub const DETAIL_PREFIX: &'static str = "For nerds: ";

/// Seconds that the diagnostic stays visible before the reset.
pub const GRACE_SECONDS: u32 = 3;

/// What the diagnostic screen shows for one failure.
#[derive(Debug)]
pub struct FatalScreen {
    /// The line that carries the error's message.
    pub detail: String,
    /// The countdown shown before the reset, one number per second.
    pub countdown: Vec<u32>,
}

/// The countdown from `n` down to 1.
pub open spec fn countdown_from(n: nat) -> Seq<u32> {
    Seq::new(n, |i: int| (n - i) as u32)
}

/// The diagnostic screen for a failure with the given message.
pub fn fatal_screen(message: &str) -> (r: FatalScreen)
    ensures
        r.detail@ == DETAIL_PREFIX@ + message@,
        r.countdown@ == countdown_from(GRACE_SECONDS as nat),
{
    let mut detail = String::from_str(DETAIL_PREFIX);
    detail.append(message);
    let mut countdown: Vec<u32> = Vec::new();
    let mut left: u32 = GRACE_SECONDS;
    while left > 0
        invariant
            left <= GRACE_SECONDS,
            countdown@ == countdown_from(GRACE_SECONDS as nat).take(GRACE_SECONDS - left),
        decreases left,
    {
        countdown.push(left);
        left = left - 1;
        assert(countdown@ =~= countdown_from(GRACE_SECONDS as nat).take(GRACE_SECONDS - left));
    }
    assert(countdown@ =~= countdown_from(GRACE_SECONDS as nat));
    FatalScreen { detail, countdown }
}

/// The escalation gate: it lets the first failure through and no other.
pub struct FatalEscalation {
    engaged: bool,
}

impl FatalEscalation {
    /// Whether a failure has already been let through.
    pub closed spec fn engaged(&self) -> bool {
        self.engaged
    }

    /// A gate that no failure has passed yet.
    pub fn new() -> (r: FatalEscalation)
        ensures
            !r.engaged(),
    {
        FatalEscalation { engaged: false }
    }

    /// Reports a failure. The first one gets its diagnostic screen, to show
    /// before the reset; every later one gets `None`, as the reset is already
    /// under way.
    pub fn escalate(&mut self, message: &str) -> (r: Option<FatalScreen>)
        ensures
            final(self).engaged(),
            old(self).engaged() ==> r is None,
            !old(self).engaged() ==> r is Some,
            r is Some ==> r.unwrap().detail@ == DETAIL_PREFIX@ + message@
                && r.unwrap().countdown@ == countdown_from(GRACE_SECONDS as nat),
    {
        if self.engaged {
            None
        } else {
            self.engaged = true;
            Some(fatal_screen(message))
        }
    }
}

} // verus!
