//! The data carried by the store: payment records, their status values, the
//! error kinds, and the notifications emitted on creation and update.

use vstd::prelude::*;

verus! {

/// The status of a payment record. Exactly these three values are legal; the
/// set is flat, so any value is reachable from any other.
#[derive(Clone, Copy, Debug, PartialEq, Eq, Structural)]
pub enum Status {
    Active,
    Pending,
    Failed,
}

/// The error kinds a store operation can end with. Every error is total for
/// the invoking call: the store is left exactly as it was.
#[derive(Clone, Copy, Debug, PartialEq, Eq, Structural)]
pub enum PaymentError {
    /// An empty required string field, a non-positive monetary amount, or a
    /// status name outside the legal set.
    ValidationError,
    /// A creation under a checkout request id that already has a record.
    DuplicateError,
    /// A status update under a checkout request id that has no record.
    NotFoundError,
}

/// One payment record. Every field but `status` is write-once: it is fixed at
/// creation and never changes afterwards.
#[derive(Debug)]
pub struct PaymentRecord {
    /// Receipt identifier issued by the mobile-money network; non-empty.
    pub mpesa_receipt: String,
    /// Fixed-point KES amount (scaled integer); strictly positive.
    pub amount_kes: i128,
    /// Fixed-point USDC amount (scaled integer); strictly positive.
    pub amount_usdc: i128,
    /// Payer's phone number; non-empty.
    pub phone_number: String,
    /// Checkout completion time, unix seconds.
    pub timestamp: u64,
    /// Unique key of the record; non-empty.
    pub checkout_request_id: String,
    /// Current status; the only mutable field.
    pub status: Status,
}

/// The mathematical value of a [`PaymentRecord`]: the same fields over
/// character sequences and unbounded integers.
#[verifier::ext_equal]
pub struct RecordModel {
    pub mpesa_receipt: Seq<char>,
    pub amount_kes: int,
    pub amount_usdc: int,
    pub phone_number: Seq<char>,
    pub timestamp: int,
    pub checkout_request_id: Seq<char>,
    pub status: Status,
}

impl View for PaymentRecord {
    type V = RecordModel;

    open spec fn view(&self) -> RecordModel {
        RecordModel {
            mpesa_receipt: self.mpesa_receipt@,
            amount_kes: self.amount_kes as int,
            amount_usdc: self.amount_usdc as int,
            phone_number: self.phone_number@,
            timestamp: self.timestamp as int,
            checkout_request_id: self.checkout_request_id@,
            status: self.status,
        }
    }
}

impl Clone for PaymentRecord {
    fn clone(&self) -> (res: Self)
        ensures
            res@ == self@,
    {
        PaymentRecord {
            mpesa_receipt: self.mpesa_receipt.clone(),
            amount_kes: self.amount_kes,
            amount_usdc: self.amount_usdc,
            phone_number: self.phone_number.clone(),
            timestamp: self.timestamp,
            checkout_request_id: self.checkout_request_id.clone(),
            status: self.status,
        }
    }
}

/// A notification handed to the external event sink, kept by the store in an
/// append-only log.
#[derive(Debug)]
pub enum PaymentEvent {
    /// Emitted once per successful creation.
    Recorded {
        checkout_request_id: String,
        mpesa_receipt: String,
        amount_kes: i128,
        amount_usdc: i128,
    },
    /// Emitted once per successful status update.
    Updated { checkout_request_id: String, new_status: Status },
}

/// The mathematical value of a [`PaymentEvent`].
#[verifier::ext_equal]
pub enum EventModel {
    Recorded {
        checkout_request_id: Seq<char>,
        mpesa_receipt: Seq<char>,
        amount_kes: int,
        amount_usdc: int,
    },
    Updated { checkout_request_id: Seq<char>, new_status: Status },
}

impl View for PaymentEvent {
    type V = EventModel;

    open spec fn view(&self) -> EventModel {
        match self {
            PaymentEvent::Recorded { checkout_request_id, mpesa_receipt, amount_kes, amount_usdc } => EventModel::Recorded {
                checkout_request_id: checkout_request_id@,
                mpesa_receipt: mpesa_receipt@,
                amount_kes: *amount_kes as int,
                amount_usdc: *amount_usdc as int,
            },
            PaymentEvent::Updated { checkout_request_id, new_status } => EventModel::Updated {
                checkout_request_id: checkout_request_id@,
                new_status: *new_status,
            },
        }
    }
}

/// The namespaces of the persisted state: one record per checkout request id,
/// one counter slot, and one admin slot. An adapter binding the store to a
/// concrete key-value substrate keys its storage by these values.
#[derive(Debug)]
pub enum DataKey {
    /// The record stored under a checkout request id.
    PaymentRecord(String),
    /// The count of successful creations.
    PaymentCount,
    /// The administrator identity.
    AdminKey,
}

impl Clone for DataKey {
    fn clone(&self) -> (res: Self)
        ensures
            res == *self,
    {
        match self {
            DataKey::PaymentRecord(id) => DataKey::PaymentRecord(id.clone()),
            DataKey::PaymentCount => DataKey::PaymentCount,
            DataKey::AdminKey => DataKey::AdminKey,
        }
    }
}

} // verus!
