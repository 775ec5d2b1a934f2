//! The call-resumption protocol's hook side.
//!
//! A hook is an explicit callback value handed into a call; it is
//! consulted once after each completed native invocation and decides
//! whether the trampoline re-enters the same call, finishes, or aborts
//! with a trap. The hook is consumed by being consulted: each
//! consultation moves it one step along its own plan, and the trampoline
//! stops consulting it the moment it answers anything but `InvokeAgain`.

use crate::types::OnCalledAction;
use vstd::prelude::*;

verus! {

/// A resumption hook. The embedder implements this for whatever driving
/// logic it wants; the two spec functions describe the answer the next
/// consultation gives and the state the hook moves to, so that callers
/// can reason about a whole call loop from the hook's own plan.
pub trait OnCalledHook: Sized {
    /// The answer the next consultation returns.
    spec fn spec_outcome(&self) -> OnCalledAction;

    /// The state this hook moves to when consulted once.
    spec fn spec_step(&self) -> Self;

    /// How many re-entries this hook can still ask for. Re-entry is
    /// bounded and host-driven: a hook that asks to invoke again must
    /// come back with less fuel, so no call loops forever.
    spec fn spec_fuel(&self) -> nat;

    /// Asking for another invocation consumes fuel.
    proof fn lemma_fuel_decreases(&self)
        requires
            self.spec_outcome() == OnCalledAction::InvokeAgain,
        ensures
            self.spec_step().spec_fuel() < self.spec_fuel(),
    ;

    /// Consult the hook once.
    fn on_called(&mut self) -> (r: OnCalledAction)
        ensures
            r == old(self).spec_outcome(),
            *final(self) == old(self).spec_step(),
    ;
}

/// The state a hook reaches after being consulted `n` times.
pub open spec fn hook_after<H: OnCalledHook>(h: H, n: nat) -> H
    decreases n,
{
    if n == 0 {
        h
    } else {
        hook_after(h, (n - 1) as nat).spec_step()
    }
}

/// A hook plan that finishes after exactly `n` re-entries: the first `n`
/// consultations answer `InvokeAgain` and the one after them `Finish`.
pub open spec fn hook_finishes_after<H: OnCalledHook>(h: H, n: nat) -> bool {
    &&& forall|k: nat| k < n ==> (#[trigger] hook_after(h, k)).spec_outcome()
        == OnCalledAction::InvokeAgain
    &&& hook_after(h, n).spec_outcome() == OnCalledAction::Finish
}

/// A hook that answers `InvokeAgain` a fixed number of times and then
/// `Finish`: the driver of bounded re-entry, as in snapshot-and-resume
/// patterns.
pub struct CountdownHook {
    pub remaining: usize,
}

impl OnCalledHook for CountdownHook {
    open spec fn spec_outcome(&self) -> OnCalledAction {
        if self.remaining > 0 {
            OnCalledAction::InvokeAgain
        } else {
            OnCalledAction::Finish
        }
    }

    open spec fn spec_step(&self) -> Self {
        if self.remaining > 0 {
            CountdownHook { remaining: (self.remaining - 1) as usize }
        } else {
            CountdownHook { remaining: self.remaining }
        }
    }

    open spec fn spec_fuel(&self) -> nat {
        self.remaining as nat
    }

    proof fn lemma_fuel_decreases(&self) {
    }

    fn on_called(&mut self) -> (r: OnCalledAction) {
        if self.remaining > 0 {
            self.remaining = self.remaining - 1;
            OnCalledAction::InvokeAgain
        } else {
            OnCalledAction::Finish
        }
    }
}

/// A hook that aborts the call at its first consultation, with the
/// payload it was created with.
pub struct TrapHook {
    pub message: String,
}

impl OnCalledHook for TrapHook {
    open spec fn spec_outcome(&self) -> OnCalledAction {
        OnCalledAction::Trap(self.message)
    }

    open spec fn spec_step(&self) -> Self {
        TrapHook { message: self.message }
    }

    open spec fn spec_fuel(&self) -> nat {
        0
    }

    proof fn lemma_fuel_decreases(&self) {
    }

    fn on_called(&mut self) -> (r: OnCalledAction) {
        OnCalledAction::Trap(self.message.clone())
    }
}

/// A countdown hook built for `n` re-entries follows exactly the plan of
/// `n` times `InvokeAgain` and then `Finish`.
pub proof fn lemma_countdown_plan(h: CountdownHook)
    ensures
        hook_finishes_after(h, h.remaining as nat),
{
    let n = h.remaining as nat;
    assert forall|k: nat| k < n implies (#[trigger] hook_after(h, k)).spec_outcome()
        == OnCalledAction::InvokeAgain by {
        lemma_countdown_state(h, k);
    }
    lemma_countdown_state(h, n);
}

/// After `k` consultations a countdown hook has counted down by `k`,
/// bottoming out at zero.
proof fn lemma_countdown_state(h: CountdownHook, k: nat)
    ensures
        hook_after(h, k).remaining == if k <= h.remaining {
            h.remaining - k
        } else {
            0
        },
    decreases k,
{
    if k > 0 {
        lemma_countdown_state(h, (k - 1) as nat);
    }
}

/// A hook follows at most one finishing plan: if it finishes after `n`
/// re-entries and also after `m`, the two counts are equal.
pub proof fn lemma_finishing_plan_unique<H: OnCalledHook>(h: H, n: nat, m: nat)
    requires
        hook_finishes_after(h, n),
        hook_finishes_after(h, m),
    ensures
        n == m,
{
    if n < m {
        assert(hook_after(h, n).spec_outcome() == OnCalledAction::InvokeAgain);
    }
    if m < n {
        assert(hook_after(h, m).spec_outcome() == OnCalledAction::InvokeAgain);
    }
}

} // verus!
