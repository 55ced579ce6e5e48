//! Laws the store obeys across calls, stated over the store's model and
//! proved once and for all: creation followed by lookup, non-idempotence of
//! creation, and the counter tracking exactly the successful creations over
//! any run of operations.

use vstd::prelude::*;
use crate::records::{PaymentError, RecordModel, Status};
use crate::store::{
    created_record, has_record, lemma_index_unique, record_at, unique_ids, valid_inputs,
    StoreModel,
};
use crate::text::{spec_status_name, spec_status_of_name};

verus! {

/// The three status names are distinct, so a name denotes at most one status
/// and parsing a status name inverts naming: a status survives the round
/// trip through its name.
pub proof fn lemma_status_name_round_trip()
    ensures
        forall|s: Status| spec_status_of_name(#[trigger] spec_status_name(s)) == Some(s),
{
    reveal_strlit("active");
    reveal_strlit("pending");
    reveal_strlit("failed");
    assert forall|s: Status| spec_status_of_name(#[trigger] spec_status_name(s)) == Some(s) by {
        assert("active"@.len() == 6);
        assert("pending"@.len() == 7);
        assert("failed"@.len() == 6);
        assert("active"@[0] == 'a');
        assert("failed"@[0] == 'f');
    }
}

/// One mutating store operation, as it arrives from a caller.
pub enum StoreOp {
    Create {
        mpesa_receipt: String,
        amount_kes: i128,
        amount_usdc: i128,
        phone_number: String,
        timestamp: u64,
        checkout_request_id: String,
    },
    UpdateStatus { checkout_request_id: String, new_status: String },
}

/// The store after one operation, successful or not.
pub open spec fn apply_op(m: StoreModel, op: StoreOp) -> StoreModel {
    match op {
        StoreOp::Create {
            mpesa_receipt,
            amount_kes,
            amount_usdc,
            phone_number,
            timestamp,
            checkout_request_id,
        } => m.create_step(
            mpesa_receipt@,
            amount_kes as int,
            amount_usdc as int,
            phone_number@,
            timestamp as int,
            checkout_request_id@,
        ).0,
        StoreOp::UpdateStatus { checkout_request_id, new_status } => m.update_step(
            checkout_request_id@,
            new_status@,
        ).0,
    }
}

/// Whether `op` is a creation that succeeds against the store `m`.
pub open spec fn is_successful_create(m: StoreModel, op: StoreOp) -> bool {
    match op {
        StoreOp::Create {
            mpesa_receipt,
            amount_kes,
            amount_usdc,
            phone_number,
            timestamp,
            checkout_request_id,
        } => m.create_step(
            mpesa_receipt@,
            amount_kes as int,
            amount_usdc as int,
            phone_number@,
            timestamp as int,
            checkout_request_id@,
        ).1 is Ok,
        StoreOp::UpdateStatus { .. } => false,
    }
}

/// The store after a run of operations, applied oldest first.
pub open spec fn apply_ops(m: StoreModel, ops: Seq<StoreOp>) -> StoreModel
    decreases ops.len(),
{
    if ops.len() == 0 {
        m
    } else {
        apply_ops(apply_op(m, ops[0]), ops.drop_first())
    }
}

/// How many creations succeed along a run of operations against `m`.
pub open spec fn successful_creates(m: StoreModel, ops: Seq<StoreOp>) -> int
    decreases ops.len(),
{
    if ops.len() == 0 {
        0
    } else {
        (if is_successful_create(m, ops[0]) {
            1int
        } else {
            0int
        }) + successful_creates(apply_op(m, ops[0]), ops.drop_first())
    }
}

/// Creation followed by lookup: after a successful creation, the record
/// stored under the checkout request id is exactly the inputs, with status
/// Active.
pub proof fn lemma_create_then_get(
    m: StoreModel,
    mpesa_receipt: Seq<char>,
    amount_kes: int,
    amount_usdc: int,
    phone_number: Seq<char>,
    timestamp: int,
    checkout_request_id: Seq<char>,
)
    requires
        unique_ids(m.ledger),
        valid_inputs(mpesa_receipt, amount_kes, amount_usdc, phone_number, checkout_request_id),
        !has_record(m.ledger, checkout_request_id),
    ensures
        m.create_step(
            mpesa_receipt,
            amount_kes,
            amount_usdc,
            phone_number,
            timestamp,
            checkout_request_id,
        ).1 is Ok,
        ({
            let after = m.create_step(
                mpesa_receipt,
                amount_kes,
                amount_usdc,
                phone_number,
                timestamp,
                checkout_request_id,
            ).0;
            &&& has_record(after.ledger, checkout_request_id)
            &&& record_at(after.ledger, checkout_request_id) == created_record(
                mpesa_receipt,
                amount_kes,
                amount_usdc,
                phone_number,
                timestamp,
                checkout_request_id,
            )
            &&& record_at(after.ledger, checkout_request_id).status == Status::Active
        }),
{
    let after = m.create_step(
        mpesa_receipt,
        amount_kes,
        amount_usdc,
        phone_number,
        timestamp,
        checkout_request_id,
    ).0;
    let len = m.ledger.len() as int;
    assert(!has_record(m.ledger, checkout_request_id));
    assert(after.ledger[len].checkout_request_id == checkout_request_id);
    assert forall|i: int, j: int| 0 <= i < j < after.ledger.len() implies after.ledger[
        i
    ].checkout_request_id != after.ledger[j].checkout_request_id by {
        if j == len {
            assert(m.ledger[i].checkout_request_id != checkout_request_id);
        }
    }
    lemma_index_unique(after.ledger, checkout_request_id, len);
}

/// Creation is not idempotent: after a successful creation, a second
/// creation under the same checkout request id — whatever its other inputs,
/// provided they pass validation — fails with `DuplicateError` and changes
/// nothing, so the original record stays and the counter is not incremented
/// again.
pub proof fn lemma_create_not_idempotent(
    m: StoreModel,
    mpesa_receipt: Seq<char>,
    amount_kes: int,
    amount_usdc: int,
    phone_number: Seq<char>,
    timestamp: int,
    checkout_request_id: Seq<char>,
    second_receipt: Seq<char>,
    second_kes: int,
    second_usdc: int,
    second_phone: Seq<char>,
    second_timestamp: int,
)
    requires
        m.create_step(
            mpesa_receipt,
            amount_kes,
            amount_usdc,
            phone_number,
            timestamp,
            checkout_request_id,
        ).1 is Ok,
        valid_inputs(second_receipt, second_kes, second_usdc, second_phone, checkout_request_id),
    ensures
        ({
            let after = m.create_step(
                mpesa_receipt,
                amount_kes,
                amount_usdc,
                phone_number,
                timestamp,
                checkout_request_id,
            ).0;
            let second = after.create_step(
                second_receipt,
                second_kes,
                second_usdc,
                second_phone,
                second_timestamp,
                checkout_request_id,
            );
            &&& second.1 == Err::<RecordModel, PaymentError>(PaymentError::DuplicateError)
            &&& second.0 == after
        }),
{
    let after = m.create_step(
        mpesa_receipt,
        amount_kes,
        amount_usdc,
        phone_number,
        timestamp,
        checkout_request_id,
    ).0;
    let len = m.ledger.len() as int;
    assert(after.ledger[len].checkout_request_id == checkout_request_id);
    assert(has_record(after.ledger, checkout_request_id));
}

/// The counter tracks exactly the successful creations: any run of creation
/// and status-update operations moves the counter by precisely the number of
/// creations that succeeded along it.
pub proof fn lemma_count_tracks_successful_creates(m: StoreModel, ops: Seq<StoreOp>)
    ensures
        apply_ops(m, ops).count == m.count + successful_creates(m, ops),
    decreases ops.len(),
{
    if ops.len() > 0 {
        let m1 = apply_op(m, ops[0]);
        assert(m1.count == m.count + (if is_successful_create(m, ops[0]) {
            1int
        } else {
            0int
        }));
        lemma_count_tracks_successful_creates(m1, ops.drop_first());
    }
}

/// After initialization, which zeroes the counter, a run holding N
/// successful creations — with any number of failed attempts and status
/// updates interleaved — leaves the counter at exactly N.
pub proof fn lemma_count_after_initialize(m: StoreModel, admin: Seq<char>, ops: Seq<StoreOp>)
    ensures
        apply_ops(m.init_step(admin), ops).count == successful_creates(m.init_step(admin), ops),
{
    lemma_count_tracks_successful_creates(m.init_step(admin), ops);
}

} // verus!
