//! The status taxonomy: the gateway's payment and refund statuses and their
//! one-way mapping to the canonical statuses of the platform.

use crate::json::{json_as_str, json_get, json_model, json_text, JsonModel};
use crate::decode::required_member;
use crate::text::str_equal;
use vstd::prelude::*;

verus! {

/// Canonical status of a payment attempt.
#[derive(Debug, Clone, Copy, PartialEq, Eq, Structural)]
pub enum AttemptStatus {
    Pending,
    Charged,
    Failure,
    Voided,
}

/// Canonical status of a refund.
#[derive(Debug, Clone, Copy, PartialEq, Eq, Structural)]
pub enum RefundStatus {
    Pending,
    Success,
    Failure,
}

/// Status of a payment as the gateway reports it.
#[derive(Debug, Clone, Copy, PartialEq, Eq, Structural)]
pub enum WavePaymentStatus {
    Created,
    Pending,
    Completed,
    Failed,
    Cancelled,
}

/// Status of a refund as the gateway reports it.
#[derive(Debug, Clone, Copy, PartialEq, Eq, Structural)]
pub enum WaveRefundStatus {
    Processing,
    Completed,
    Failed,
    Cancelled,
}

/// The canonical status of a payment that the gateway reports as `status`:
/// created and pending payments are pending, a completed one is charged, a
/// failed one is a failure, a cancelled one is voided.
pub open spec fn attempt_status_of(status: WavePaymentStatus) -> AttemptStatus {
    match status {
        WavePaymentStatus::Created => AttemptStatus::Pending,
        WavePaymentStatus::Pending => AttemptStatus::Pending,
        WavePaymentStatus::Completed => AttemptStatus::Charged,
        WavePaymentStatus::Failed => AttemptStatus::Failure,
        WavePaymentStatus::Cancelled => AttemptStatus::Voided,
    }
}

/// The canonical status of a refund that the gateway reports as `status`:
/// a refund in process is pending, a completed one is a success, failed
/// and cancelled ones are failures.
pub open spec fn refund_status_of(status: WaveRefundStatus) -> RefundStatus {
    match status {
        WaveRefundStatus::Processing => RefundStatus::Pending,
        WaveRefundStatus::Completed => RefundStatus::Success,
        WaveRefundStatus::Failed => RefundStatus::Failure,
        WaveRefundStatus::Cancelled => RefundStatus::Failure,
    }
}

impl From<WavePaymentStatus> for AttemptStatus {
    fn from(status: WavePaymentStatus) -> (r: AttemptStatus) {
        match status {
            WavePaymentStatus::Created | WavePaymentStatus::Pending => AttemptStatus::Pending,
            WavePaymentStatus::Completed => AttemptStatus::Charged,
            WavePaymentStatus::Failed => AttemptStatus::Failure,
            WavePaymentStatus::Cancelled => AttemptStatus::Voided,
        }
    }
}

impl vstd::std_specs::convert::FromSpecImpl<WavePaymentStatus> for AttemptStatus {
    open spec fn obeys_from_spec() -> bool {
        true
    }

    open spec fn from_spec(status: WavePaymentStatus) -> AttemptStatus {
        attempt_status_of(status)
    }
}

impl From<WaveRefundStatus> for RefundStatus {
    fn from(status: WaveRefundStatus) -> (r: RefundStatus) {
        match status {
            WaveRefundStatus::Processing => RefundStatus::Pending,
            WaveRefundStatus::Completed => RefundStatus::Success,
            WaveRefundStatus::Failed => RefundStatus::Failure,
            WaveRefundStatus::Cancelled => RefundStatus::Failure,
        }
    }
}

impl vstd::std_specs::convert::FromSpecImpl<WaveRefundStatus> for RefundStatus {
    open spec fn obeys_from_spec() -> bool {
        true
    }

    open spec fn from_spec(status: WaveRefundStatus) -> RefundStatus {
        refund_status_of(status)
    }
}

impl WavePaymentStatus {
    /// The name of the status on the wire.
    pub open spec fn wire_name(self) -> Seq<char> {
        match self {
            WavePaymentStatus::Created => "created"@,
            WavePaymentStatus::Pending => "pending"@,
            WavePaymentStatus::Completed => "completed"@,
            WavePaymentStatus::Failed => "failed"@,
            WavePaymentStatus::Cancelled => "cancelled"@,
        }
    }

    /// The status that a wire name stands for; `None` for any other text.
    pub open spec fn from_wire_name(name: Seq<char>) -> Option<WavePaymentStatus> {
        if name == "created"@ {
            Some(WavePaymentStatus::Created)
        } else if name == "pending"@ {
            Some(WavePaymentStatus::Pending)
        } else if name == "completed"@ {
            Some(WavePaymentStatus::Completed)
        } else if name == "failed"@ {
            Some(WavePaymentStatus::Failed)
        } else if name == "cancelled"@ {
            Some(WavePaymentStatus::Cancelled)
        } else {
            None
        }
    }

    /// The status that a JSON value stands for: a string that holds a wire
    /// name.
    pub open spec fn decode(m: JsonModel) -> Option<WavePaymentStatus> {
        match json_text(m) {
            Some(name) => Self::from_wire_name(name),
            None => None,
        }
    }

    /// The name of the status on the wire.
    pub fn as_str(&self) -> (r: &'static str)
        ensures
            r@ == self.wire_name(),
    {
        match self {
            WavePaymentStatus::Created => "created",
            WavePaymentStatus::Pending => "pending",
            WavePaymentStatus::Completed => "completed",
            WavePaymentStatus::Failed => "failed",
            WavePaymentStatus::Cancelled => "cancelled",
        }
    }

    /// Reads a wire name.
    pub fn from_str(name: &str) -> (r: Option<WavePaymentStatus>)
        ensures
            r == Self::from_wire_name(name@),
    {
        if str_equal(name, "created") {
            Some(WavePaymentStatus::Created)
        } else if str_equal(name, "pending") {
            Some(WavePaymentStatus::Pending)
        } else if str_equal(name, "completed") {
            Some(WavePaymentStatus::Completed)
        } else if str_equal(name, "failed") {
            Some(WavePaymentStatus::Failed)
        } else if str_equal(name, "cancelled") {
            Some(WavePaymentStatus::Cancelled)
        } else {
            None
        }
    }

    /// Reads the required member `key` of an object, a payment status.
    pub fn read_member(v: &serde_json::Value, key: &str) -> (r: Option<WavePaymentStatus>)
        ensures
            r == required_member(json_model(*v), key@, |x: JsonModel| Self::decode(x)),
    {
        match json_get(v, key) {
            None => None,
            Some(member) => match json_as_str(member) {
                Some(name) => Self::from_str(name),
                None => None,
            },
        }
    }

    /// Every status is read back from its own wire name.
    pub proof fn lemma_wire_name_round_trip(self)
        ensures
            Self::from_wire_name(self.wire_name()) == Some(self),
    {
        reveal_strlit("created");
        reveal_strlit("pending");
        reveal_strlit("completed");
        reveal_strlit("failed");
        reveal_strlit("cancelled");
        assert("pending"@[1] == 'e');
        assert("completed"@.len() == 9);
        assert("failed"@.len() == 6);
        assert("cancelled"@[1] == 'a');
    }
}

impl WaveRefundStatus {
    /// The name of the status on the wire.
    pub open spec fn wire_name(self) -> Seq<char> {
        match self {
            WaveRefundStatus::Processing => "processing"@,
            WaveRefundStatus::Completed => "completed"@,
            WaveRefundStatus::Failed => "failed"@,
            WaveRefundStatus::Cancelled => "cancelled"@,
        }
    }

    /// The status that a wire name stands for; `None` for any other text.
    pub open spec fn from_wire_name(name: Seq<char>) -> Option<WaveRefundStatus> {
        if name == "processing"@ {
            Some(WaveRefundStatus::Processing)
        } else if name == "completed"@ {
            Some(WaveRefundStatus::Completed)
        } else if name == "failed"@ {
            Some(WaveRefundStatus::Failed)
        } else if name == "cancelled"@ {
            Some(WaveRefundStatus::Cancelled)
        } else {
            None
        }
    }

    /// The status that a JSON value stands for: a string that holds a wire
    /// name.
    pub open spec fn decode(m: JsonModel) -> Option<WaveRefundStatus> {
        match json_text(m) {
            Some(name) => Self::from_wire_name(name),
            None => None,
        }
    }

    /// The name of the status on the wire.
    pub fn as_str(&self) -> (r: &'static str)
        ensures
            r@ == self.wire_name(),
    {
        match self {
            WaveRefundStatus::Processing => "processing",
            WaveRefundStatus::Completed => "completed",
            WaveRefundStatus::Failed => "failed",
            WaveRefundStatus::Cancelled => "cancelled",
        }
    }

    /// Reads a wire name.
    pub fn from_str(name: &str) -> (r: Option<WaveRefundStatus>)
        ensures
            r == Self::from_wire_name(name@),
    {
        if str_equal(name, "processing") {
            Some(WaveRefundStatus::Processing)
        } else if str_equal(name, "completed") {
            Some(WaveRefundStatus::Completed)
        } else if str_equal(name, "failed") {
            Some(WaveRefundStatus::Failed)
        } else if str_equal(name, "cancelled") {
            Some(WaveRefundStatus::Cancelled)
        } else {
            None
        }
    }

    /// Reads the required member `key` of an object, a refund status.
    pub fn read_member(v: &serde_json::Value, key: &str) -> (r: Option<WaveRefundStatus>)
        ensures
            r == required_member(json_model(*v), key@, |x: JsonModel| Self::decode(x)),
    {
        match json_get(v, key) {
            None => None,
            Some(member) => match json_as_str(member) {
                Some(name) => Self::from_str(name),
                None => None,
            },
        }
    }

    /// Every status is read back from its own wire name.
    pub proof fn lemma_wire_name_round_trip(self)
        ensures
            Self::from_wire_name(self.wire_name()) == Some(self),
    {
        reveal_strlit("processing");
        reveal_strlit("completed");
        reveal_strlit("failed");
        reveal_strlit("cancelled");
        assert("completed"@[1] == 'o');
        assert("failed"@.len() == 6);
        assert("cancelled"@[1] == 'a');
    }
}

/// The mapping of payment statuses is defined on each of the five gateway
/// statuses, follows the table, and reaches each of the four canonical
/// statuses.
pub proof fn lemma_payment_status_mapping(s: WavePaymentStatus, a: AttemptStatus)
    ensures
        attempt_status_of(s) == AttemptStatus::Pending <==> (s == WavePaymentStatus::Created || s
            == WavePaymentStatus::Pending),
        attempt_status_of(s) == AttemptStatus::Charged <==> s == WavePaymentStatus::Completed,
        attempt_status_of(s) == AttemptStatus::Failure <==> s == WavePaymentStatus::Failed,
        attempt_status_of(s) == AttemptStatus::Voided <==> s == WavePaymentStatus::Cancelled,
        exists|t: WavePaymentStatus| #[trigger] attempt_status_of(t) == a,
{
    assert(attempt_status_of(WavePaymentStatus::Pending) == AttemptStatus::Pending);
    assert(attempt_status_of(WavePaymentStatus::Completed) == AttemptStatus::Charged);
    assert(attempt_status_of(WavePaymentStatus::Failed) == AttemptStatus::Failure);
    assert(attempt_status_of(WavePaymentStatus::Cancelled) == AttemptStatus::Voided);
}

/// The mapping of refund statuses is defined on each of the four gateway
/// statuses, follows the table, and reaches each of the three canonical
/// statuses.
pub proof fn lemma_refund_status_mapping(s: WaveRefundStatus, a: RefundStatus)
    ensures
        refund_status_of(s) == RefundStatus::Pending <==> s == WaveRefundStatus::Processing,
        refund_status_of(s) == RefundStatus::Success <==> s == WaveRefundStatus::Completed,
        refund_status_of(s) == RefundStatus::Failure <==> (s == WaveRefundStatus::Failed || s
            == WaveRefundStatus::Cancelled),
        exists|t: WaveRefundStatus| #[trigger] refund_status_of(t) == a,
{
    assert(refund_status_of(WaveRefundStatus::Processing) == RefundStatus::Pending);
    assert(refund_status_of(WaveRefundStatus::Completed) == RefundStatus::Success);
    assert(refund_status_of(WaveRefundStatus::Failed) == RefundStatus::Failure);
}

} // verus!
