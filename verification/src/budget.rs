//! The per-run tool-call budget.
//!
//! A script may make at most `max` host tool calls. Every call first reserves
//! a slot; a reservation that would exceed the budget is refused and leaves
//! the count untouched, so the reported number of tool calls counts only the
//! calls that were let through and never exceeds the budget.

use vstd::prelude::*;

verus! {

/// The counting state of a tool-call budget.
#[derive(Debug)]
pub struct ToolBudget {
    used: usize,
    max: usize,
}

/// One reservation attempt on a budget with `used` of `max` slots taken:
/// the new count, and whether the call was let through.
pub open spec fn reserve_step(used: nat, max: nat) -> (nat, bool) {
    if used < max { (used + 1, true) } else { (used, false) }
}

/// The count after `n` reservation attempts starting from `used` of `max`.
pub open spec fn used_after(used: nat, max: nat, n: nat) -> nat
    decreases n,
{
    if n == 0 { used } else { used_after(reserve_step(used, max).0, max, (n - 1) as nat) }
}

/// How many of `n` reservation attempts starting from `used` of `max` are
/// let through.
pub open spec fn accepted_after(used: nat, max: nat, n: nat) -> nat
    decreases n,
{
    if n == 0 {
        0
    } else {
        let (next, ok) = reserve_step(used, max);
        (if ok { 1nat } else { 0nat }) + accepted_after(next, max, (n - 1) as nat)
    }
}

impl ToolBudget {
    /// The number of calls let through so far.
    pub closed spec fn spec_used(self) -> nat {
        self.used as nat
    }

    /// The most calls the budget lets through.
    pub closed spec fn spec_max(self) -> nat {
        self.max as nat
    }

    #[verifier::type_invariant]
    closed spec fn within_budget(self) -> bool {
        self.used <= self.max
    }

    /// A fresh budget of `max` calls, none used.
    pub fn new(max: usize) -> (r: ToolBudget)
        ensures
            r.spec_used() == 0,
            r.spec_max() == max,
    {
        ToolBudget { used: 0, max }
    }

    /// The number of calls let through so far.
    pub fn used(&self) -> (r: usize)
        ensures
            r == self.spec_used(),
            r <= self.spec_max(),
    {
        proof { use_type_invariant(self); }
        self.used
    }

    /// The most calls the budget lets through.
    pub fn max(&self) -> (r: usize)
        ensures
            r == self.spec_max(),
    {
        self.max
    }

    /// Reserve a slot for one tool call. Returns `false`, and counts nothing,
    /// when the budget is already spent.
    pub fn try_reserve(&mut self) -> (r: bool)
        ensures
            (final(self).spec_used(), r) == reserve_step(old(self).spec_used(), old(self).spec_max()),
            final(self).spec_max() == old(self).spec_max(),
            final(self).spec_used() <= final(self).spec_max(),
    {
        proof { use_type_invariant(&*self); }
        if self.used >= self.max {
            false
        } else {
            self.used = self.used + 1;
            true
        }
    }

    /// The message a refused call reports: `tool-call budget of N exceeded`.
    pub fn exceeded_message(&self) -> (r: String)
        ensures
            r@ == "tool-call budget of "@ + crate::text::decimal(self.spec_max()) + " exceeded"@,
    {
        let mut out = String::new();
        out.append("tool-call budget of ");
        crate::text::push_decimal(&mut out, self.max);
        out.append(" exceeded");
        out
    }

    /// The failure envelope a refused call answers the script with.
    pub fn refusal_envelope(&self) -> (r: String)
        ensures
            r@ == crate::envelope::spec_error_envelope(
                "tool-call budget of "@ + crate::text::decimal(self.spec_max()) + " exceeded"@),
    {
        let message = self.exceeded_message();
        crate::envelope::error_envelope(message.as_str())
    }
}

/// The count never exceeds the budget and never goes down, however many
/// reservations are attempted.
pub proof fn lemma_used_bounded(used: nat, max: nat, n: nat)
    requires
        used <= max,
    ensures
        used <= used_after(used, max, n) <= max,
    decreases n,
{
    if n > 0 {
        lemma_used_bounded(reserve_step(used, max).0, max, (n - 1) as nat);
    }
}

/// From a fresh budget of `max`, `n` attempts let exactly `min(n, max)` calls
/// through, and the count equals the calls let through: refused calls never
/// inflate it.
pub proof fn lemma_attempts_from_fresh(max: nat, n: nat)
    ensures
        used_after(0, max, n) == accepted_after(0, max, n),
        used_after(0, max, n) == (if n <= max { n } else { max }),
{
    lemma_attempts_general(0, max, n);
}

/// Starting from `used` of `max`, `n` attempts add exactly the calls let
/// through, which is `min(n, max - used)`.
pub proof fn lemma_attempts_general(used: nat, max: nat, n: nat)
    requires
        used <= max,
    ensures
        used_after(used, max, n) == used + accepted_after(used, max, n),
        accepted_after(used, max, n) == (if n <= max - used { n } else { (max - used) as nat }),
    decreases n,
{
    if n > 0 {
        lemma_attempts_general(reserve_step(used, max).0, max, (n - 1) as nat);
    }
}

} // verus!
