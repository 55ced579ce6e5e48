//! The record store itself: an append-only ledger of payment records keyed
//! by checkout request id, a counter of successful creations, the
//! administrator slot, and the log of emitted notifications.

use vstd::prelude::*;
use crate::records::{EventModel, PaymentError, PaymentEvent, PaymentRecord, RecordModel, Status};
use crate::text::{
    decimal_string, spec_decimal, spec_status_name, spec_status_of_name, status_name,
    status_of_name, str_eq,
};

verus! {

/// The mathematical value of a [`PaymentContract`]: the ledger in creation
/// order, the counter, the admin slot, and the notification log.
#[verifier::ext_equal]
pub struct StoreModel {
    pub ledger: Seq<RecordModel>,
    pub count: int,
    pub admin: Option<Seq<char>>,
    pub events: Seq<EventModel>,
}

/// Whether some record in `ledger` carries the checkout request id `id`.
pub open spec fn has_record(ledger: Seq<RecordModel>, id: Seq<char>) -> bool {
    exists|i: int| 0 <= i < ledger.len() && ledger[i].checkout_request_id == id
}

/// The position of the record carrying `id`; meaningful when `has_record`
/// holds, and unique when the ledger's ids are distinct.
pub open spec fn index_of(ledger: Seq<RecordModel>, id: Seq<char>) -> int {
    choose|i: int| 0 <= i < ledger.len() && ledger[i].checkout_request_id == id
}

/// The record stored under `id`; meaningful when `has_record` holds.
pub open spec fn record_at(ledger: Seq<RecordModel>, id: Seq<char>) -> RecordModel {
    ledger[index_of(ledger, id)]
}

/// No two records share a checkout request id.
pub open spec fn unique_ids(ledger: Seq<RecordModel>) -> bool {
    forall|i: int, j: int|
        0 <= i < j < ledger.len() ==> ledger[i].checkout_request_id != ledger[
            j
        ].checkout_request_id
}

/// What creation demands of its inputs: non-empty strings and strictly
/// positive amounts.
pub open spec fn valid_inputs(
    mpesa_receipt: Seq<char>,
    amount_kes: int,
    amount_usdc: int,
    phone_number: Seq<char>,
    checkout_request_id: Seq<char>,
) -> bool {
    &&& mpesa_receipt.len() > 0
    &&& amount_kes > 0
    &&& amount_usdc > 0
    &&& phone_number.len() > 0
    &&& checkout_request_id.len() > 0
}

/// The record a successful creation stores: the inputs, with status Active.
pub open spec fn created_record(
    mpesa_receipt: Seq<char>,
    amount_kes: int,
    amount_usdc: int,
    phone_number: Seq<char>,
    timestamp: int,
    checkout_request_id: Seq<char>,
) -> RecordModel {
    RecordModel {
        mpesa_receipt,
        amount_kes,
        amount_usdc,
        phone_number,
        timestamp,
        checkout_request_id,
        status: Status::Active,
    }
}

/// The invariant every stored record satisfies: the string fields are
/// non-empty and the amounts strictly positive, as creation demanded of its
/// inputs; the timestamp came from an unsigned integer.
pub open spec fn valid_record(r: RecordModel) -> bool {
    &&& valid_inputs(r.mpesa_receipt, r.amount_kes, r.amount_usdc, r.phone_number, r.checkout_request_id)
    &&& r.timestamp >= 0
}

impl StoreModel {
    /// The store's invariant: ledger ids are distinct, every stored record
    /// satisfies the field invariant, and the counter never exceeds the
    /// ledger's length (it counts creations since the last initialization,
    /// and every successful creation appends a record).
    pub open spec fn wf(self) -> bool {
        &&& unique_ids(self.ledger)
        &&& forall|i: int| 0 <= i < self.ledger.len() ==> valid_record(#[trigger] self.ledger[i])
        &&& 0 <= self.count <= self.ledger.len()
    }

    /// The store as first delivered: nothing recorded, nothing counted, no
    /// admin, no notifications.
    pub open spec fn empty() -> StoreModel {
        StoreModel { ledger: Seq::empty(), count: 0, admin: None, events: Seq::empty() }
    }

    /// What initialization does: sets the admin identity and resets the
    /// counter to zero. The ledger and the notification log are untouched.
    pub open spec fn init_step(self, admin: Seq<char>) -> StoreModel {
        StoreModel { ledger: self.ledger, count: 0, admin: Some(admin), events: self.events }
    }

    /// What creation does: validates the inputs, refuses a duplicate id, and
    /// otherwise appends the new record, increments the counter by one, and
    /// appends a `Recorded` notification — all as one unit, or nothing on an
    /// error.
    pub open spec fn create_step(
        self,
        mpesa_receipt: Seq<char>,
        amount_kes: int,
        amount_usdc: int,
        phone_number: Seq<char>,
        timestamp: int,
        checkout_request_id: Seq<char>,
    ) -> (StoreModel, Result<RecordModel, PaymentError>) {
        if !valid_inputs(mpesa_receipt, amount_kes, amount_usdc, phone_number, checkout_request_id) {
            (self, Err(PaymentError::ValidationError))
        } else if has_record(self.ledger, checkout_request_id) {
            (self, Err(PaymentError::DuplicateError))
        } else {
            let record = created_record(
                mpesa_receipt,
                amount_kes,
                amount_usdc,
                phone_number,
                timestamp,
                checkout_request_id,
            );
            let event = EventModel::Recorded {
                checkout_request_id,
                mpesa_receipt,
                amount_kes,
                amount_usdc,
            };
            (
                StoreModel {
                    ledger: self.ledger.push(record),
                    count: self.count + 1,
                    admin: self.admin,
                    events: self.events.push(event),
                },
                Ok(record),
            )
        }
    }

    /// What a status update does: refuses an unknown id, then an illegal
    /// status name, and otherwise overwrites the one record's status and
    /// appends an `Updated` notification. The counter never moves.
    pub open spec fn update_step(self, checkout_request_id: Seq<char>, new_status: Seq<char>) -> (
        StoreModel,
        Result<RecordModel, PaymentError>,
    ) {
        if !has_record(self.ledger, checkout_request_id) {
            (self, Err(PaymentError::NotFoundError))
        } else {
            match spec_status_of_name(new_status) {
                None => (self, Err(PaymentError::ValidationError)),
                Some(status) => {
                    let i = index_of(self.ledger, checkout_request_id);
                    let updated = RecordModel { status, ..self.ledger[i] };
                    let event = EventModel::Updated { checkout_request_id, new_status: status };
                    (
                        StoreModel {
                            ledger: self.ledger.update(i, updated),
                            count: self.count,
                            admin: self.admin,
                            events: self.events.push(event),
                        },
                        Ok(updated),
                    )
                },
            }
        }
    }
}

/// The views of a sequence of string pairs, as display mappings are stated.
pub open spec fn pair_views(pairs: Seq<(String, String)>) -> Seq<(Seq<char>, Seq<char>)> {
    pairs.map_values(|p: (String, String)| (p.0@, p.1@))
}

/// The display mapping of one record: its fields under fixed keys, every
/// value rendered as a string.
pub open spec fn summary_model(r: RecordModel) -> Seq<(Seq<char>, Seq<char>)> {
    seq![
        ("receipt"@, r.mpesa_receipt),
        ("kes"@, spec_decimal(r.amount_kes as nat)),
        ("usdc"@, spec_decimal(r.amount_usdc as nat)),
        ("phone"@, r.phone_number),
        ("status"@, spec_status_name(r.status)),
        ("timestamp"@, spec_decimal(r.timestamp as nat)),
    ]
}

/// The creation decision alone, for an adapter that keeps the records in an
/// external key-value substrate: given whether a record already exists under
/// `checkout_request_id` and the current counter, returns the record to
/// persist together with the new counter, or the error the attempt ends
/// with. Validation is checked first, then the duplicate.
pub fn decide_create(
    exists: bool,
    count: i128,
    mpesa_receipt: &str,
    amount_kes: i128,
    amount_usdc: i128,
    phone_number: &str,
    timestamp: u64,
    checkout_request_id: &str,
) -> (result: Result<(PaymentRecord, i128), PaymentError>)
    requires
        count < i128::MAX,
    ensures
        match result {
            Ok(decided) => {
                &&& valid_inputs(
                    mpesa_receipt@,
                    amount_kes as int,
                    amount_usdc as int,
                    phone_number@,
                    checkout_request_id@,
                )
                &&& !exists
                &&& decided.0@ == created_record(
                    mpesa_receipt@,
                    amount_kes as int,
                    amount_usdc as int,
                    phone_number@,
                    timestamp as int,
                    checkout_request_id@,
                )
                &&& decided.1 == count + 1
            },
            Err(e) => {
                &&& (e == PaymentError::ValidationError <==> !valid_inputs(
                    mpesa_receipt@,
                    amount_kes as int,
                    amount_usdc as int,
                    phone_number@,
                    checkout_request_id@,
                ))
                &&& (e == PaymentError::DuplicateError <==> valid_inputs(
                    mpesa_receipt@,
                    amount_kes as int,
                    amount_usdc as int,
                    phone_number@,
                    checkout_request_id@,
                ) && exists)
                &&& e != PaymentError::NotFoundError
            },
        },
        result is Ok <==> (valid_inputs(
            mpesa_receipt@,
            amount_kes as int,
            amount_usdc as int,
            phone_number@,
            checkout_request_id@,
        ) && !exists),
{
    if mpesa_receipt.is_empty() || amount_kes <= 0 || amount_usdc <= 0 || phone_number.is_empty()
        || checkout_request_id.is_empty() {
        return Err(PaymentError::ValidationError);
    }
    if exists {
        return Err(PaymentError::DuplicateError);
    }
    let record = PaymentRecord {
        mpesa_receipt: mpesa_receipt.to_owned(),
        amount_kes,
        amount_usdc,
        phone_number: phone_number.to_owned(),
        timestamp,
        checkout_request_id: checkout_request_id.to_owned(),
        status: Status::Active,
    };
    Ok((record, count + 1))
}

/// The status-update decision alone, for the same kind of adapter: given
/// whether a record exists under the id, either the status the record is to
/// take, or the error the attempt ends with. The missing record is reported
/// before the illegal name.
pub fn decide_update(exists: bool, new_status: &str) -> (result: Result<Status, PaymentError>)
    ensures
        match result {
            Ok(status) => exists && spec_status_of_name(new_status@) == Some(status),
            Err(e) => {
                &&& (e == PaymentError::NotFoundError <==> !exists)
                &&& (e == PaymentError::ValidationError <==> exists && spec_status_of_name(
                    new_status@,
                ) is None)
                &&& e != PaymentError::DuplicateError
            },
        },
        result is Ok <==> (exists && spec_status_of_name(new_status@) is Some),
{
    if !exists {
        return Err(PaymentError::NotFoundError);
    }
    match status_of_name(new_status) {
        Some(status) => Ok(status),
        None => Err(PaymentError::ValidationError),
    }
}

/// A position holding `id` pins down `index_of` and `record_at`: with
/// distinct ids it is the only such position.
pub proof fn lemma_index_unique(ledger: Seq<RecordModel>, id: Seq<char>, i: int)
    requires
        unique_ids(ledger),
        0 <= i < ledger.len(),
        ledger[i].checkout_request_id == id,
    ensures
        has_record(ledger, id),
        index_of(ledger, id) == i,
        record_at(ledger, id) == ledger[i],
{
    assert(has_record(ledger, id));
    let j = index_of(ledger, id);
    assert(0 <= j < ledger.len() && ledger[j].checkout_request_id == id);
    if i < j {
        assert(ledger[i].checkout_request_id != ledger[j].checkout_request_id);
    } else if j < i {
        assert(ledger[j].checkout_request_id != ledger[i].checkout_request_id);
    }
}

/// The persistent record store. It exclusively owns the ledger, the counter,
/// the admin slot, and the notification log; each method is one atomic unit
/// that either applies all of its writes or none.
pub struct PaymentContract {
    records: Vec<PaymentRecord>,
    count: i128,
    admin: Option<String>,
    events: Vec<PaymentEvent>,
}

impl View for PaymentContract {
    type V = StoreModel;

    closed spec fn view(&self) -> StoreModel {
        StoreModel {
            ledger: self.records@.map_values(|r: PaymentRecord| r@),
            count: self.count as int,
            admin: match self.admin {
                Some(a) => Some(a@),
                None => None,
            },
            events: self.events@.map_values(|e: PaymentEvent| e@),
        }
    }
}

impl PaymentContract {
    /// Whether the store satisfies its invariant.
    pub open spec fn wf(&self) -> bool {
        self@.wf()
    }

    /// A fresh store: nothing recorded, nothing counted, no admin set.
    pub fn new() -> (store: PaymentContract)
        ensures
            store.wf(),
            store@ == StoreModel::empty(),
    {
        let store = PaymentContract { records: Vec::new(), count: 0, admin: None, events: Vec::new() };
        proof {
            assert(store@ =~= StoreModel::empty());
        }
        store
    }

    /// Sets the admin identity and resets the counter to zero. Calling this
    /// on a live store starts the count afresh without touching the ledger;
    /// nothing guards against repeated calls.
    pub fn initialize(&mut self, admin: &str)
        requires
            old(self).wf(),
        ensures
            final(self).wf(),
            final(self)@ == old(self)@.init_step(admin@),
    {
        self.admin = Some(admin.to_owned());
        self.count = 0;
        proof {
            assert(self@ =~= old(self)@.init_step(admin@));
        }
    }

    /// The counter: how many creations have succeeded since the store was
    /// last initialized (zero if it never was).
    pub fn get_payment_count(&self) -> (count: i128)
        ensures
            count == self@.count,
    {
        self.count
    }

    /// The position of the record stored under `checkout_request_id`, if any.
    fn find_index(&self, checkout_request_id: &str) -> (result: Option<usize>)
        ensures
            match result {
                Some(i) => 0 <= i < self@.ledger.len() && self@.ledger[i as int].checkout_request_id
                    == checkout_request_id@,
                None => !has_record(self@.ledger, checkout_request_id@),
            },
    {
        let n = self.records.len();
        let mut j: usize = 0;
        while j < n
            invariant
                n == self.records.len(),
                0 <= j <= n,
                forall|k: int|
                    0 <= k < j ==> self@.ledger[k].checkout_request_id != checkout_request_id@,
            decreases n - j,
        {
            if str_eq(self.records[j].checkout_request_id.as_str(), checkout_request_id) {
                return Some(j);
            }
            j += 1;
        }
        None
    }

    /// Records one completed checkout. On success the stored record is
    /// returned: the inputs with status Active. Fails with `ValidationError`
    /// on an empty string field or a non-positive amount, and with
    /// `DuplicateError` when the id already has a record; on any error the
    /// store is unchanged.
    pub fn record_payment(
        &mut self,
        mpesa_receipt: &str,
        amount_kes: i128,
        amount_usdc: i128,
        phone_number: &str,
        timestamp: u64,
        checkout_request_id: &str,
    ) -> (result: Result<PaymentRecord, PaymentError>)
        requires
            old(self).wf(),
        ensures
            final(self).wf(),
            ({
                let step = old(self)@.create_step(
                    mpesa_receipt@,
                    amount_kes as int,
                    amount_usdc as int,
                    phone_number@,
                    timestamp as int,
                    checkout_request_id@,
                );
                &&& final(self)@ == step.0
                &&& match result {
                    Ok(record) => step.1 == Ok::<RecordModel, PaymentError>(record@),
                    Err(e) => step.1 == Err::<RecordModel, PaymentError>(e),
                }
            }),
            result is Ok <==> (valid_inputs(
                mpesa_receipt@,
                amount_kes as int,
                amount_usdc as int,
                phone_number@,
                checkout_request_id@,
            ) && !has_record(old(self)@.ledger, checkout_request_id@)),
            result is Err ==> final(self)@ == old(self)@,
    {
        let exists = self.find_index(checkout_request_id).is_some();
        let len = self.records.len();
        proof {
            assert(self.count <= len as i128);
        }
        let (record, new_count) = match decide_create(
            exists,
            self.count,
            mpesa_receipt,
            amount_kes,
            amount_usdc,
            phone_number,
            timestamp,
            checkout_request_id,
        ) {
            Ok(decided) => decided,
            Err(e) => {
                return Err(e);
            },
        };
        let stored = record.clone();
        self.records.push(stored);
        self.count = new_count;
        self.events.push(
            PaymentEvent::Recorded {
                checkout_request_id: checkout_request_id.to_owned(),
                mpesa_receipt: mpesa_receipt.to_owned(),
                amount_kes,
                amount_usdc,
            },
        );
        proof {
            let step = old(self)@.create_step(
                mpesa_receipt@,
                amount_kes as int,
                amount_usdc as int,
                phone_number@,
                timestamp as int,
                checkout_request_id@,
            );
            assert(self@.ledger =~= step.0.ledger);
            assert(self@.events =~= step.0.events);
            assert(self@ =~= step.0);
            assert forall|i: int, j: int| 0 <= i < j < self@.ledger.len() implies self@.ledger[
                i
            ].checkout_request_id != self@.ledger[j].checkout_request_id by {
                if j == self@.ledger.len() - 1 {
                    assert(!has_record(old(self)@.ledger, checkout_request_id@));
                    assert(old(self)@.ledger[i].checkout_request_id != checkout_request_id@);
                }
            }
        }
        Ok(record)
    }

    /// Pure lookup of the record stored under `checkout_request_id`; returns
    /// `None` when there is none, and never fails.
    pub fn get_payment(&self, checkout_request_id: &str) -> (result: Option<PaymentRecord>)
        requires
            self.wf(),
        ensures
            match result {
                Some(record) => has_record(self@.ledger, checkout_request_id@) && record@
                    == record_at(self@.ledger, checkout_request_id@),
                None => !has_record(self@.ledger, checkout_request_id@),
            },
    {
        match self.find_index(checkout_request_id) {
            Some(i) => {
                proof {
                    lemma_index_unique(self@.ledger, checkout_request_id@, i as int);
                }
                Some(self.records[i].clone())
            },
            None => None,
        }
    }

    /// Pure lookup: whether a record is stored under `checkout_request_id`.
    pub fn verify_payment_exists(&self, checkout_request_id: &str) -> (result: bool)
        ensures
            result == has_record(self@.ledger, checkout_request_id@),
    {
        self.find_index(checkout_request_id).is_some()
    }

    /// Overwrites the status of the record stored under
    /// `checkout_request_id` and returns the updated record. Fails with
    /// `NotFoundError` when the id has no record, then with
    /// `ValidationError` when `new_status` names no legal status; on any
    /// error the store — the stored record included — is unchanged.
    pub fn update_payment_status(&mut self, checkout_request_id: &str, new_status: &str) -> (result:
        Result<PaymentRecord, PaymentError>)
        requires
            old(self).wf(),
        ensures
            final(self).wf(),
            ({
                let step = old(self)@.update_step(checkout_request_id@, new_status@);
                &&& final(self)@ == step.0
                &&& match result {
                    Ok(record) => step.1 == Ok::<RecordModel, PaymentError>(record@),
                    Err(e) => step.1 == Err::<RecordModel, PaymentError>(e),
                }
            }),
            result is Ok <==> (has_record(old(self)@.ledger, checkout_request_id@)
                && spec_status_of_name(new_status@) is Some),
            result is Err ==> final(self)@ == old(self)@,
    {
        let found = self.find_index(checkout_request_id);
        let status = match decide_update(found.is_some(), new_status) {
            Ok(status) => status,
            Err(e) => {
                return Err(e);
            },
        };
        let i = found.unwrap();
        proof {
            lemma_index_unique(old(self)@.ledger, checkout_request_id@, i as int);
        }
        self.records[i].status = status;
        self.events.push(
            PaymentEvent::Updated {
                checkout_request_id: checkout_request_id.to_owned(),
                new_status: status,
            },
        );
        let record = self.records[i].clone();
        proof {
            let step = old(self)@.update_step(checkout_request_id@, new_status@);
            assert(self@.ledger =~= step.0.ledger);
            assert(self@.events =~= step.0.events);
            assert(self@ =~= step.0);
            assert(record@ =~= (RecordModel {
                status,
                ..old(self)@.ledger[i as int]
            }));
            assert forall|a: int, b: int| 0 <= a < b < self@.ledger.len() implies self@.ledger[
                a
            ].checkout_request_id != self@.ledger[b].checkout_request_id by {
                assert(old(self)@.ledger[a].checkout_request_id != old(self)@.ledger[
                    b
                ].checkout_request_id);
            }
        }
        Ok(record)
    }

    /// Every stored record whose status is `status`, in creation order. No
    /// secondary index is maintained: this is a full scan of the ledger,
    /// creation order kept, no pagination.
    pub fn get_payments_by_status(&self, status: Status) -> (result: Vec<PaymentRecord>)
        ensures
            result@.map_values(|r: PaymentRecord| r@) == self@.ledger.filter(
                |r: RecordModel| r.status == status,
            ),
    {
        let ghost pred = |r: RecordModel| r.status == status;
        let mut result: Vec<PaymentRecord> = Vec::new();
        let n = self.records.len();
        let mut j: usize = 0;
        proof {
            reveal(Seq::filter);
            assert(self@.ledger.subrange(0, 0).filter(pred) =~= Seq::<RecordModel>::empty());
        }
        while j < n
            invariant
                n == self.records.len(),
                0 <= j <= n,
                result@.map_values(|r: PaymentRecord| r@) =~= self@.ledger.subrange(
                    0,
                    j as int,
                ).filter(pred),
                pred == (|r: RecordModel| r.status == status),
            decreases n - j,
        {
            let ghost prefix = self@.ledger.subrange(0, j as int);
            if self.records[j].status == status {
                result.push(self.records[j].clone());
            }
            j += 1;
            proof {
                reveal(Seq::filter);
                let extended = self@.ledger.subrange(0, j as int);
                assert(extended.drop_last() =~= prefix);
                assert(extended.last() == self@.ledger[j - 1]);
                assert(result@.map_values(|r: PaymentRecord| r@) =~= extended.filter(pred));
            }
        }
        proof {
            assert(self@.ledger.subrange(0, n as int) =~= self@.ledger);
        }
        result
    }

    /// The display mapping of the record stored under `checkout_request_id`:
    /// the pairs of [`summary_model`] when the record exists, else the empty
    /// mapping — never an error.
    pub fn get_payment_summary(&self, checkout_request_id: &str) -> (result: Vec<(String, String)>)
        requires
            self.wf(),
        ensures
            has_record(self@.ledger, checkout_request_id@) ==> pair_views(result@) == summary_model(
                record_at(self@.ledger, checkout_request_id@),
            ),
            !has_record(self@.ledger, checkout_request_id@) ==> result@.len() == 0,
    {
        let mut result: Vec<(String, String)> = Vec::new();
        let i = match self.find_index(checkout_request_id) {
            Some(i) => i,
            None => {
                return result;
            },
        };
        proof {
            lemma_index_unique(self@.ledger, checkout_request_id@, i as int);
        }
        let record = &self.records[i];
        result.push(("receipt".to_owned(), record.mpesa_receipt.clone()));
        result.push(("kes".to_owned(), decimal_string(record.amount_kes as u128)));
        result.push(("usdc".to_owned(), decimal_string(record.amount_usdc as u128)));
        result.push(("phone".to_owned(), record.phone_number.clone()));
        result.push(("status".to_owned(), status_name(record.status).to_owned()));
        result.push(("timestamp".to_owned(), decimal_string(record.timestamp as u128)));
        proof {
            assert(pair_views(result@) =~= summary_model(
                record_at(self@.ledger, checkout_request_id@),
            ));
        }
        result
    }

    /// The store's own display mapping: the admin identity when one was set,
    /// and the counter rendered as a string.
    pub fn get_contract_info(&self) -> (result: Vec<(String, String)>)
        requires
            self.wf(),
        ensures
            ({
                let pairs = pair_views(result@);
                match self@.admin {
                    Some(admin) => pairs == seq![
                        ("admin"@, admin),
                        ("count"@, spec_decimal(self@.count as nat)),
                    ],
                    None => pairs == seq![("count"@, spec_decimal(self@.count as nat))],
                }
            }),
    {
        let mut result: Vec<(String, String)> = Vec::new();
        match &self.admin {
            Some(admin) => {
                result.push(("admin".to_owned(), admin.clone()));
            },
            None => {},
        }
        result.push(("count".to_owned(), decimal_string(self.count as u128)));
        proof {
            match self@.admin {
                Some(admin) => {
                    assert(pair_views(result@) =~= seq![
                        ("admin"@, admin),
                        ("count"@, spec_decimal(self@.count as nat)),
                    ]);
                },
                None => {
                    assert(pair_views(result@) =~= seq![
                        ("count"@, spec_decimal(self@.count as nat)),
                    ]);
                },
            }
        }
        result
    }

    /// The append-only log of notifications the store has emitted, oldest
    /// first: one `Recorded` per successful creation, one `Updated` per
    /// successful status update.
    pub fn event_log(&self) -> (log: &Vec<PaymentEvent>)
        ensures
            log@.map_values(|e: PaymentEvent| e@) == self@.events,
    {
        &self.events
    }
}

} // verus!
