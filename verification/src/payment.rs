//! The payment record and the request it is built from.

use vstd::prelude::*;
use vstd::string::*;

verus! {

/// Largest bit pattern of a positive binary64 value: positive infinity.
pub const POSITIVE_INFINITY_BITS: u64 = 0x7FF0_0000_0000_0000;

/// A monetary amount: an IEEE-754 binary64 number held by its bit pattern,
/// so that equal amounts are equal bit for bit.
#[derive(Clone, Copy, Debug, PartialEq, Eq, Structural)]
pub struct Amount {
    pub bits: u64,
}

impl Amount {
    /// The number is strictly greater than zero: the sign bit is clear, the
    /// pattern is not that of zero, and it is not a NaN (whose patterns lie
    /// above that of positive infinity).
    pub open spec fn is_positive(self) -> bool {
        0 < self.bits <= POSITIVE_INFINITY_BITS
    }

    pub fn from_bits(bits: u64) -> (amount: Amount)
        ensures
            amount.bits == bits,
    {
        Amount { bits }
    }

    pub fn to_bits(&self) -> (bits: u64)
        ensures
            bits == self.bits,
    {
        self.bits
    }

    pub fn positive(&self) -> (yes: bool)
        ensures
            yes == self.is_positive(),
    {
        0 < self.bits && self.bits <= POSITIVE_INFINITY_BITS
    }
}

/// The label a payment carries for its state.
#[derive(Clone, Copy, Debug, PartialEq, Eq, Structural)]
pub enum PaymentStatus {
    Pending,
    Completed,
    Failed,
    Refunded,
}

impl PaymentStatus {
    pub open spec fn label_spec(self) -> Seq<char> {
        match self {
            PaymentStatus::Pending => "pending"@,
            PaymentStatus::Completed => "completed"@,
            PaymentStatus::Failed => "failed"@,
            PaymentStatus::Refunded => "refunded"@,
        }
    }

    pub fn label(&self) -> (text: &'static str)
        ensures
            text@ == self.label_spec(),
    {
        match self {
            PaymentStatus::Pending => "pending",
            PaymentStatus::Completed => "completed",
            PaymentStatus::Failed => "failed",
            PaymentStatus::Refunded => "refunded",
        }
    }
}

/// The currency of a payment whose request names none.
pub open spec fn default_currency() -> Seq<char> {
    "USD"@
}

/// What a caller asks for: the order paid, the amount, and optionally the
/// currency.
#[derive(Debug)]
pub struct PaymentRequest {
    pub order_id: i64,
    pub amount: Amount,
    pub currency: Option<String>,
}

impl PaymentRequest {
    /// The currency of the payment that this request leads to.
    pub open spec fn currency_spec(&self) -> Seq<char> {
        match self.currency {
            Some(code) => code@,
            None => default_currency(),
        }
    }

    pub fn new(order_id: i64, amount: Amount, currency: Option<String>) -> (request: PaymentRequest)
        ensures
            request.order_id == order_id,
            request.amount == amount,
            request.currency == currency,
    {
        PaymentRequest { order_id, amount, currency }
    }

    pub fn currency_or_default(&self) -> (code: String)
        ensures
            code@ == self.currency_spec(),
    {
        match &self.currency {
            Some(code) => code.clone(),
            None => String::from_str("USD"),
        }
    }
}

/// A payment as contracts see it.
pub struct PaymentView {
    pub id: Seq<char>,
    pub order_id: i64,
    pub user_id: i64,
    pub amount: Amount,
    pub currency: Seq<char>,
    pub status: PaymentStatus,
    pub created_at: Seq<char>,
}

/// One recorded payment. Nothing changes a payment once it is built.
#[derive(Debug)]
pub struct Payment {
    pub id: String,
    pub order_id: i64,
    pub user_id: i64,
    pub amount: Amount,
    pub currency: String,
    pub status: PaymentStatus,
    pub created_at: String,
}

impl View for Payment {
    type V = PaymentView;

    open spec fn view(&self) -> PaymentView {
        PaymentView {
            id: self.id@,
            order_id: self.order_id,
            user_id: self.user_id,
            amount: self.amount,
            currency: self.currency@,
            status: self.status,
            created_at: self.created_at@,
        }
    }
}

/// The completed payment that `request` leads to for the caller `user_id`,
/// under the identifier `id` and stamped `created_at`.
pub open spec fn completed_payment(
    id: Seq<char>,
    user_id: i64,
    request: PaymentRequest,
    created_at: Seq<char>,
) -> PaymentView {
    PaymentView {
        id,
        order_id: request.order_id,
        user_id,
        amount: request.amount,
        currency: request.currency_spec(),
        status: PaymentStatus::Completed,
        created_at,
    }
}

impl Payment {
    /// Builds the payment for an accepted request.
    pub fn completed(id: String, user_id: i64, request: &PaymentRequest, created_at: String) -> (payment: Payment)
        ensures
            payment@ == completed_payment(id@, user_id, *request, created_at@),
    {
        Payment {
            id,
            order_id: request.order_id,
            user_id,
            amount: request.amount,
            currency: request.currency_or_default(),
            status: PaymentStatus::Completed,
            created_at,
        }
    }
}

impl Clone for Payment {
    fn clone(&self) -> (copy: Payment)
        ensures
            copy@ == self@,
    {
        Payment {
            id: self.id.clone(),
            order_id: self.order_id,
            user_id: self.user_id,
            amount: self.amount,
            currency: self.currency.clone(),
            status: self.status,
            created_at: self.created_at.clone(),
        }
    }
}

} // verus!
