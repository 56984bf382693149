use vstd::prelude::*;

verus! {

/// Process-wide tally of requests handled. It exists for observability only:
/// nothing routes or forwards based on it.
pub struct RequestsHandled(pub u64);

impl View for RequestsHandled {
    type V = nat;

    open spec fn view(&self) -> nat {
        self.0 as nat
    }
}

impl RequestsHandled {
    /// A fresh tally, starting at zero.
    pub fn new() -> (r: Self)
        ensures
            r@ == 0,
    {
        RequestsHandled(0)
    }

    /// Records exactly one more handled request.
    pub fn increment(&mut self)
        requires
            old(self)@ < u64::MAX,
        ensures
            final(self)@ == old(self)@ + 1,
    {
        self.0 = self.0 + 1;
    }

    /// The tally so far, for the caller to report; printing itself stays at
    /// the I/O edge.
    pub fn print(&self) -> (r: u64)
        ensures
            r as nat == self@,
    {
        self.0
    }
}

/// How many of a sequence of per-request outcomes were successfully routed.
pub open spec fn routed_count(routed: Seq<bool>) -> nat
    decreases routed.len(),
{
    if routed.len() == 0 {
        0
    } else {
        routed_count(routed.drop_last()) + if routed.last() {
            1nat
        } else {
            0nat
        }
    }
}

/// The tally after a sequence of per-request outcomes, starting from `start`:
/// each successfully routed request steps it by exactly one, as `increment`
/// does; an unrouted one leaves it alone.
pub open spec fn tally_after(start: nat, routed: Seq<bool>) -> nat
    decreases routed.len(),
{
    if routed.len() == 0 {
        start
    } else {
        tally_after(start, routed.drop_last()) + if routed.last() {
            1nat
        } else {
            0nat
        }
    }
}

/// Law: the tally grows by exactly one per successfully routed request — none
/// dropped, none counted twice. After any sequence of outcomes it stands at
/// the start value plus exactly the number of requests routed.
pub proof fn lemma_tally_exact(start: nat, routed: Seq<bool>)
    ensures
        tally_after(start, routed) == start + routed_count(routed),
    decreases routed.len(),
{
    if routed.len() > 0 {
        lemma_tally_exact(start, routed.drop_last());
    }
}

} // verus!
