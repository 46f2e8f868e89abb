//! Account and ledger references: an opaque principal identifier held as its
//! raw bytes, with the anonymous sentinel and the textual rendering that the
//! summaries and the authorization fallback rely on.

use vstd::prelude::*;

verus! {

/// The longest byte form a principal identifier may take.
pub const MAX_PRINCIPAL_BYTES: usize = 29;

/// The single byte that tags the anonymous ("no identity") principal.
pub const ANONYMOUS_TAG: u8 = 4;

/// A byte sequence is the anonymous sentinel exactly when it is the single
/// anonymous tag byte.
pub open spec fn is_anonymous_seq(b: Seq<u8>) -> bool {
    b == seq![ANONYMOUS_TAG]
}

/// An opaque, globally unique reference to a ledger-held account, or to a
/// ledger service itself; immutable once constructed.
#[derive(PartialEq, Eq, Debug)]
pub struct PrincipalId {
    bytes: Vec<u8>,
}

impl View for PrincipalId {
    type V = Seq<u8>;

    closed spec fn view(&self) -> Seq<u8> {
        self.bytes@
    }
}

/// The textual form of a principal's bytes.
pub uninterp spec fn principal_text_of(bytes: Seq<u8>) -> Seq<char>;

/// Relies on `candid::Principal::{from_slice, to_text}`: the textual form of
/// a principal is computed from its bytes alone (a base32 encoding over the
/// checksum-prefixed bytes), so equal byte sequences yield equal text.
/// `from_slice` panics on more than 29 bytes, which the precondition excludes.
#[verifier::external_body]
fn principal_text_raw(bytes: &[u8]) -> (r: String)
    requires
        bytes@.len() <= 29,
    ensures
        r@ == principal_text_of(bytes@),
{
    candid::Principal::from_slice(bytes).to_text()
}

impl PrincipalId {
    /// A reference is well formed when its bytes fit a principal identifier.
    pub open spec fn wf(&self) -> bool {
        self@.len() <= MAX_PRINCIPAL_BYTES
    }

    /// Builds a reference from raw bytes; rejects byte strings too long to
    /// name a principal.
    pub fn try_new(bytes: Vec<u8>) -> (r: Option<PrincipalId>)
        ensures
            match r {
                Some(p) => p@ == bytes@ && p.wf(),
                None => bytes@.len() > MAX_PRINCIPAL_BYTES,
            },
    {
        if bytes.len() <= MAX_PRINCIPAL_BYTES {
            Some(PrincipalId { bytes })
        } else {
            None
        }
    }

    /// The anonymous sentinel: the reserved "no identity" reference.
    pub fn anonymous() -> (r: PrincipalId)
        ensures
            is_anonymous_seq(r@),
            r.wf(),
    {
        let mut bytes: Vec<u8> = Vec::new();
        bytes.push(ANONYMOUS_TAG);
        proof {
            assert(bytes@ =~= seq![ANONYMOUS_TAG]);
        }
        PrincipalId { bytes }
    }

    /// The raw bytes of the reference.
    pub fn bytes(&self) -> (r: &Vec<u8>)
        ensures
            r@ == self@,
    {
        &self.bytes
    }

    /// Whether this reference is the anonymous sentinel.
    pub fn is_anonymous(&self) -> (r: bool)
        ensures
            r == is_anonymous_seq(self@),
    {
        let r = self.bytes.len() == 1 && self.bytes[0] == ANONYMOUS_TAG;
        proof {
            if r {
                assert(self@ =~= seq![ANONYMOUS_TAG]);
            } else {
                if self@ == seq![ANONYMOUS_TAG] {
                    assert(self@.len() == 1);
                    assert(self@[0] == ANONYMOUS_TAG);
                }
            }
        }
        r
    }

    /// Whether two references name the same principal.
    pub fn same_as(&self, other: &PrincipalId) -> (r: bool)
        ensures
            r == (self@ == other@),
    {
        if self.bytes.len() != other.bytes.len() {
            return false;
        }
        let n = self.bytes.len();
        let mut i: usize = 0;
        while i < n
            invariant
                n == self@.len(),
                n == other@.len(),
                i <= n,
                forall|k: int| 0 <= k < i ==> self@[k] == other@[k],
            decreases n - i,
        {
            if self.bytes[i] != other.bytes[i] {
                return false;
            }
            i += 1;
        }
        proof {
            assert(self@ =~= other@);
        }
        true
    }

    /// An owned copy of this reference.
    pub fn duplicate(&self) -> (r: PrincipalId)
        ensures
            r@ == self@,
    {
        let n = self.bytes.len();
        let mut bytes: Vec<u8> = Vec::new();
        let mut i: usize = 0;
        while i < n
            invariant
                n == self@.len(),
                i <= n,
                bytes@ == self@.subrange(0, i as int),
            decreases n - i,
        {
            bytes.push(self.bytes[i]);
            i += 1;
            proof {
                assert(bytes@ =~= self@.subrange(0, i as int));
            }
        }
        proof {
            assert(bytes@ =~= self@);
        }
        PrincipalId { bytes }
    }

    /// The textual form of this reference.
    pub fn text(&self) -> (r: String)
        requires
            self.wf(),
        ensures
            r@ == principal_text_of(self@),
    {
        principal_text_raw(self.bytes.as_slice())
    }
}

} // verus!
