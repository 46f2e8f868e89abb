//! The authorization guard: whether the immediate caller is a member of the
//! authorized-operator set that the identity oracle reports. When the oracle
//! is unreachable, the guard falls back to a deliberate availability trade-off
//! rather than failing closed: it accepts the caller if the oracle's error
//! text embeds the caller's own textual identifier. That fallback trusts a
//! substring match and is security-relevant; tighten it before trusting the
//! oracle's error channel less than the oracle itself.

use vstd::prelude::*;
use crate::principal::{principal_text_of, PrincipalId};
use crate::text::{contains_seq, str_contains};

verus! {

/// What one query to the identity oracle produced: the authorized-operator
/// set, or the text of the oracle's error.
pub enum AuthEvent {
    Controllers(Vec<PrincipalId>),
    OracleError(String),
}

impl AuthEvent {
    /// Every reported operator fits a principal identifier.
    pub open spec fn wf(&self) -> bool {
        match self {
            AuthEvent::Controllers(cs) => forall|i: int|
                0 <= i < cs@.len() ==> (#[trigger] cs@[i]).wf(),
            AuthEvent::OracleError(_) => true,
        }
    }
}

/// The guard's decision: membership in the reported operator set, or, on an
/// oracle error, whether the error text embeds the caller's textual form.
pub open spec fn spec_is_controller(caller: Seq<u8>, ev: AuthEvent) -> bool {
    match ev {
        AuthEvent::Controllers(cs) => exists|i: int| 0 <= i < cs@.len() && (#[trigger] cs@[i])@ == caller,
        AuthEvent::OracleError(text) => contains_seq(text@, principal_text_of(caller)),
    }
}

/// Decides whether `caller` is an authorized operator, given what the one
/// oracle query produced.
pub fn is_controller(caller: &PrincipalId, ev: &AuthEvent) -> (r: bool)
    requires
        caller.wf(),
    ensures
        r == spec_is_controller(caller@, *ev),
{
    match ev {
        AuthEvent::Controllers(cs) => {
            let n = cs.len();
            let mut i: usize = 0;
            while i < n
                invariant
                    *ev is Controllers,
                    ev->Controllers_0 == *cs,
                    n == cs@.len(),
                    i <= n,
                    forall|k: int| 0 <= k < i ==> (#[trigger] cs@[k])@ != caller@,
                decreases n - i,
            {
                if cs[i].same_as(caller) {
                    proof {
                        assert(exists|k: int| 0 <= k < cs@.len() && (#[trigger] cs@[k])@ == caller@)
                            by {
                            assert((cs@[i as int])@ == caller@);
                        }
                    }
                    return true;
                }
                i += 1;
            }
            false
        },
        AuthEvent::OracleError(text) => {
            let caller_text = caller.text();
            str_contains(text.as_str(), caller_text.as_str())
        },
    }
}

} // verus!
