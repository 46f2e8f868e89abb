//! Transfer requests and history records: a single payment to one principal,
//! a batch of payments against one ledger, and the tagged record of either
//! that the history log stores verbatim.

use vstd::prelude::*;
use crate::principal::PrincipalId;

verus! {

/// Pay `amount` of the named ledger's token to `receiving_principal`.
#[derive(PartialEq, Eq, Debug)]
pub struct TransferToPrincipal {
    pub receiving_principal: PrincipalId,
    pub amount: u64,
    pub ledger_id: PrincipalId,
}

/// The mathematical shape of a single-transfer request.
#[verifier::ext_equal]
pub struct TransferToPrincipalV {
    pub receiving_principal: Seq<u8>,
    pub amount: u64,
    pub ledger_id: Seq<u8>,
}

impl View for TransferToPrincipal {
    type V = TransferToPrincipalV;

    open spec fn view(&self) -> TransferToPrincipalV {
        TransferToPrincipalV {
            receiving_principal: self.receiving_principal@,
            amount: self.amount,
            ledger_id: self.ledger_id@,
        }
    }
}

/// One recipient of a batch: a destination and its amount.
#[derive(PartialEq, Eq, Debug)]
pub struct PrincipalTransfer {
    pub receiving_principal: PrincipalId,
    pub amount: u64,
}

/// The mathematical shape of one batch recipient.
#[verifier::ext_equal]
pub struct PrincipalTransferV {
    pub receiving_principal: Seq<u8>,
    pub amount: u64,
}

impl View for PrincipalTransfer {
    type V = PrincipalTransferV;

    open spec fn view(&self) -> PrincipalTransferV {
        PrincipalTransferV {
            receiving_principal: self.receiving_principal@,
            amount: self.amount,
        }
    }
}

/// Pay each recipient its amount, all against the same ledger, as a sequence
/// of independent transfers.
#[derive(PartialEq, Eq, Debug)]
pub struct TransferToMultiple {
    pub principals: Vec<PrincipalTransfer>,
    pub ledger_id: PrincipalId,
}

/// The mathematical shape of a batch-transfer request.
#[verifier::ext_equal]
pub struct TransferToMultipleV {
    pub principals: Seq<PrincipalTransferV>,
    pub ledger_id: Seq<u8>,
}

/// The recipient list of a batch, element by element.
pub open spec fn transfers_view(ps: Seq<PrincipalTransfer>) -> Seq<PrincipalTransferV> {
    ps.map_values(|p: PrincipalTransfer| p@)
}

impl View for TransferToMultiple {
    type V = TransferToMultipleV;

    open spec fn view(&self) -> TransferToMultipleV {
        TransferToMultipleV {
            principals: transfers_view(self.principals@),
            ledger_id: self.ledger_id@,
        }
    }
}

/// One attempted transfer, stored verbatim so the audit trail is
/// self-describing: either a single request or a whole batch.
#[derive(PartialEq, Eq, Debug)]
pub enum TransferHistory {
    TransferToPrincipal(TransferToPrincipal),
    TransferToMultiple(TransferToMultiple),
}

/// The mathematical shape of a history record.
#[verifier::ext_equal]
pub enum TransferHistoryV {
    TransferToPrincipal(TransferToPrincipalV),
    TransferToMultiple(TransferToMultipleV),
}

impl View for TransferHistory {
    type V = TransferHistoryV;

    open spec fn view(&self) -> TransferHistoryV {
        match self {
            TransferHistory::TransferToPrincipal(t) => TransferHistoryV::TransferToPrincipal(t@),
            TransferHistory::TransferToMultiple(t) => TransferHistoryV::TransferToMultiple(t@),
        }
    }
}

impl TransferToPrincipal {
    /// Both references of the request fit a principal identifier.
    pub open spec fn wf(&self) -> bool {
        self.receiving_principal.wf() && self.ledger_id.wf()
    }

    /// An owned copy of the request.
    pub fn duplicate(&self) -> (r: TransferToPrincipal)
        ensures
            r@ == self@,
    {
        TransferToPrincipal {
            receiving_principal: self.receiving_principal.duplicate(),
            amount: self.amount,
            ledger_id: self.ledger_id.duplicate(),
        }
    }
}

impl PrincipalTransfer {
    /// The recipient reference fits a principal identifier.
    pub open spec fn wf(&self) -> bool {
        self.receiving_principal.wf()
    }

    /// An owned copy of the recipient entry.
    pub fn duplicate(&self) -> (r: PrincipalTransfer)
        ensures
            r@ == self@,
    {
        PrincipalTransfer {
            receiving_principal: self.receiving_principal.duplicate(),
            amount: self.amount,
        }
    }
}

impl TransferToMultiple {
    /// Every reference of the request fits a principal identifier.
    pub open spec fn wf(&self) -> bool {
        self.ledger_id.wf() && forall|i: int|
            0 <= i < self.principals@.len() ==> (#[trigger] self.principals@[i]).wf()
    }

    /// An owned copy of the request.
    pub fn duplicate(&self) -> (r: TransferToMultiple)
        ensures
            r@ == self@,
    {
        let n = self.principals.len();
        let mut principals: Vec<PrincipalTransfer> = Vec::new();
        let mut i: usize = 0;
        while i < n
            invariant
                n == self.principals@.len(),
                i <= n,
                principals@.len() == i,
                forall|k: int| 0 <= k < i ==> principals@[k]@ == self.principals@[k]@,
            decreases n - i,
        {
            principals.push(self.principals[i].duplicate());
            i += 1;
        }
        let r = TransferToMultiple {
            principals,
            ledger_id: self.ledger_id.duplicate(),
        };
        proof {
            assert(transfers_view(r.principals@) =~= transfers_view(self.principals@));
            assert(r@ =~= self@);
        }
        r
    }
}

impl TransferHistory {
    /// Every reference of the record fits a principal identifier.
    pub open spec fn wf(&self) -> bool {
        match self {
            TransferHistory::TransferToPrincipal(t) => t.wf(),
            TransferHistory::TransferToMultiple(t) => t.wf(),
        }
    }
}

} // verus!
