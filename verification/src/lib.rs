//! An append-mostly, idempotent ledger of invoice payments keyed by invoice
//! identifier.
//!
//! The ledger records "this invoice was paid" facts exactly once per
//! invoice, behind an admin-gated write path, over a leased (TTL) key/value
//! store, and appends one notification event per stored record. The host
//! environment that would run it on chain — the serializer of invocations,
//! the signature-verification gate, the clock and the event sink — is an
//! external collaborator, modeled explicitly: a [`CallContext`] carries the
//! clock reading and the identities whose authorization the host verified,
//! the leased store is the library's own [`storage::Store`], and the event
//! stream is an append-only log inside the contract state.
//!
//! Every operation is a transition of the specification-level state
//! [`LedgerV`]; the executable methods of [`InvoicePaymentContract`] are
//! proved to return exactly the outcome of [`spec_record_outcome`] and its
//! siblings and to move the state to [`spec_record_state`] and theirs.

use vstd::prelude::*;

pub mod context;
pub mod errors;
pub mod events;
pub mod laws;
pub mod storage;

pub use context::CallContext;
pub use errors::ContractError;
pub use events::PaymentEvent;
pub use storage::{Asset, DataKey, PaymentRecord};

use context::CallContextV;
use events::{events_view, payment_recorded_topic, PaymentEventV};
use storage::{
    spec_extend_ttl, AssetV, DataKeyV, PaymentEntryV, PaymentRecordV, Store, StoreV, BUMP_TTL,
    MIN_TTL,
};

verus! {

// The ledger's specification-level state

/// The complete observable state of one contract instance: its store and
/// its notification log.
#[verifier::ext_equal]
pub struct LedgerV {
    pub store: StoreV,
    pub events: Seq<PaymentEventV>,
}

impl LedgerV {
    /// The state of a freshly deployed, never-initialized instance.
    pub open spec fn deployed() -> LedgerV {
        LedgerV { store: StoreV::empty(), events: Seq::empty() }
    }
}

// Asset classification

/// An asset is native exactly when its code is the literal `XLM`.
pub open spec fn spec_is_native(code: Seq<char>) -> bool {
    code == "XLM"@
}

/// The construction rule: a non-empty code, an empty issuer exactly for
/// the native asset.
pub open spec fn spec_asset_accepted(code: Seq<char>, issuer: Seq<char>) -> bool {
    code.len() > 0 && (spec_is_native(code) <==> issuer.len() == 0)
}

/// The asset an accepted `(code, issuer)` pair constructs.
pub open spec fn spec_asset_of(code: Seq<char>, issuer: Seq<char>) -> AssetV {
    if spec_is_native(code) {
        AssetV::Native
    } else {
        AssetV::Token(code, issuer)
    }
}

/// The record a successful `record_payment` stores: the caller's values,
/// the constructed asset, and the host clock's reading.
pub open spec fn spec_new_record(
    invoice_id: Seq<char>,
    payer: Seq<char>,
    code: Seq<char>,
    issuer: Seq<char>,
    amount: int,
    timestamp: u64,
) -> PaymentRecordV {
    PaymentRecordV {
        invoice_id,
        payer,
        asset: spec_asset_of(code, issuer),
        amount,
        timestamp,
    }
}

// Transitions

/// What `initialize` returns on each state.
pub open spec fn spec_initialize_outcome(s: LedgerV, admin: Seq<char>) -> Result<
    (),
    ContractError,
> {
    if s.store.admin is Some {
        Err(ContractError::AlreadyInitialized)
    } else {
        Ok(())
    }
}

/// The state `initialize` leaves behind: on success the admin is
/// registered, the counter is written as zero so reads are always
/// well-defined, and the instance lease is extended.
pub open spec fn spec_initialize_state(s: LedgerV, admin: Seq<char>) -> LedgerV {
    if s.store.admin is Some {
        s
    } else {
        LedgerV {
            store: StoreV {
                admin: Some(admin),
                count: Some(0),
                instance_ttl: spec_extend_ttl(s.store.instance_ttl, MIN_TTL, BUMP_TTL),
                payments: s.store.payments,
            },
            events: s.events,
        }
    }
}

/// The ordered guard pipeline of `record_payment`: what it returns on each
/// state and input. Each `Err` arm short-circuits; mutation happens only
/// when every guard has passed.
pub open spec fn spec_record_outcome(
    s: LedgerV,
    ctx: CallContextV,
    invoice_id: Seq<char>,
    payer: Seq<char>,
    code: Seq<char>,
    issuer: Seq<char>,
    amount: int,
) -> Result<(), ContractError> {
    if s.store.admin is None {
        Err(ContractError::NotInitialized)
    } else if !ctx.approvals.contains(s.store.admin->0) {
        Err(ContractError::Unauthorized)
    } else if invoice_id.len() == 0 {
        Err(ContractError::InvalidInvoiceId)
    } else if code.len() == 0 {
        Err(ContractError::InvalidAsset)
    } else if spec_is_native(code) && issuer.len() > 0 {
        Err(ContractError::InvalidAsset)
    } else if !spec_is_native(code) && issuer.len() == 0 {
        Err(ContractError::InvalidAsset)
    } else if amount <= 0 {
        Err(ContractError::InvalidAmount)
    } else if s.store.payments.dom().contains(invoice_id) {
        Err(ContractError::PaymentAlreadyRecorded)
    } else {
        Ok(())
    }
}

/// The state `record_payment` leaves behind: unchanged on every rejection;
/// on success the record is stored under a fresh lease, the counter is one
/// higher, the instance lease is extended, and exactly one notification is
/// appended.
pub open spec fn spec_record_state(
    s: LedgerV,
    ctx: CallContextV,
    invoice_id: Seq<char>,
    payer: Seq<char>,
    code: Seq<char>,
    issuer: Seq<char>,
    amount: int,
) -> LedgerV {
    if spec_record_outcome(s, ctx, invoice_id, payer, code, issuer, amount) is Ok {
        let record = spec_new_record(invoice_id, payer, code, issuer, amount, ctx.timestamp);
        LedgerV {
            store: StoreV {
                admin: s.store.admin,
                count: Some((s.store.count_or_zero() + 1) as u32),
                instance_ttl: spec_extend_ttl(s.store.instance_ttl, MIN_TTL, BUMP_TTL),
                payments: s.store.payments.insert(
                    invoice_id,
                    PaymentEntryV { record, ttl: BUMP_TTL },
                ),
            },
            events: s.events.push(
                PaymentEventV { topic: payment_recorded_topic(), record },
            ),
        }
    } else {
        s
    }
}

/// What `get_payment` returns on each state.
pub open spec fn spec_get_payment_outcome(s: LedgerV, invoice_id: Seq<char>) -> Result<
    PaymentRecordV,
    ContractError,
> {
    if s.store.payments.dom().contains(invoice_id) {
        Ok(s.store.payments[invoice_id].record)
    } else {
        Err(ContractError::PaymentNotFound)
    }
}

/// The state `get_payment` leaves behind: a successful read extends the
/// lease of the entry it read; a miss changes nothing.
pub open spec fn spec_get_payment_state(s: LedgerV, invoice_id: Seq<char>) -> LedgerV {
    LedgerV {
        store: s.store.spec_extend_lease(DataKeyV::Payment(invoice_id), MIN_TTL, BUMP_TTL),
        events: s.events,
    }
}

/// What `set_admin` returns on each state: the transfer needs the consent
/// of both the outgoing and the incoming admin.
pub open spec fn spec_set_admin_outcome(
    s: LedgerV,
    ctx: CallContextV,
    new_admin: Seq<char>,
) -> Result<(), ContractError> {
    if s.store.admin is None {
        Err(ContractError::NotInitialized)
    } else if !ctx.approvals.contains(s.store.admin->0) {
        Err(ContractError::Unauthorized)
    } else if !ctx.approvals.contains(new_admin) {
        Err(ContractError::Unauthorized)
    } else {
        Ok(())
    }
}

/// The state `set_admin` leaves behind: on success only the admin slot and
/// the instance lease change.
pub open spec fn spec_set_admin_state(
    s: LedgerV,
    ctx: CallContextV,
    new_admin: Seq<char>,
) -> LedgerV {
    if spec_set_admin_outcome(s, ctx, new_admin) is Ok {
        LedgerV {
            store: StoreV {
                admin: Some(new_admin),
                instance_ttl: spec_extend_ttl(s.store.instance_ttl, MIN_TTL, BUMP_TTL),
                ..s.store
            },
            events: s.events,
        }
    } else {
        s
    }
}

// The contract

/// One contract instance: its durable store and its notification log.
pub struct InvoicePaymentContract {
    store: Store,
    events: Vec<PaymentEvent>,
}

impl View for InvoicePaymentContract {
    type V = LedgerV;

    closed spec fn view(&self) -> LedgerV {
        LedgerV { store: self.store@, events: events_view(self.events@) }
    }
}

impl InvoicePaymentContract {
    /// The store behind the persistent scope never repeats a key.
    pub closed spec fn wf(self) -> bool {
        self.store.wf()
    }

    /// Deploy a fresh instance: nothing stored, nothing emitted.
    pub fn new() -> (c: InvoicePaymentContract)
        ensures
            c.wf(),
            c@ == LedgerV::deployed(),
    {
        let c = InvoicePaymentContract { store: Store::new(), events: Vec::new() };
        proof {
            assert(c@ =~~= LedgerV::deployed());
        }
        c
    }

    /// Initialize the contract and register `admin`.
    ///
    /// Must run once, right after deployment; a second call fails with
    /// [`ContractError::AlreadyInitialized`] and changes nothing. The
    /// counter is written as zero explicitly so `payment_count` is always
    /// well-defined.
    pub fn initialize(&mut self, admin: String) -> (r: Result<(), ContractError>)
        requires
            old(self).wf(),
        ensures
            final(self).wf(),
            r == spec_initialize_outcome(old(self)@, admin@),
            final(self)@ == spec_initialize_state(old(self)@, admin@),
    {
        if storage::has_admin(&self.store) {
            return Err(ContractError::AlreadyInitialized);
        }
        storage::set_admin(&mut self.store, &admin);
        self.store.set_count(0);
        proof {
            assert(self@ =~~= spec_initialize_state(old(self)@, admin@));
        }
        Ok(())
    }

    /// Record a payment for `invoice_id` and append a notification event.
    ///
    /// The pipeline, in order: the current admin must exist and have
    /// authorized this call; `invoice_id` and `asset_code` must be
    /// non-empty; the issuer must be empty exactly for the native asset;
    /// the amount must be strictly positive; and the invoice must not have
    /// been recorded before. Only then is the record stored, the counter
    /// incremented, and the event emitted — a rejected call mutates
    /// nothing.
    pub fn record_payment(
        &mut self,
        ctx: &CallContext,
        invoice_id: String,
        payer: String,
        asset_code: String,
        asset_issuer: String,
        amount: i128,
    ) -> (r: Result<(), ContractError>)
        requires
            old(self).wf(),
            old(self)@.store.count_or_zero() < u32::MAX,
        ensures
            final(self).wf(),
            r == spec_record_outcome(
                old(self)@,
                ctx@,
                invoice_id@,
                payer@,
                asset_code@,
                asset_issuer@,
                amount as int,
            ),
            final(self)@ == spec_record_state(
                old(self)@,
                ctx@,
                invoice_id@,
                payer@,
                asset_code@,
                asset_issuer@,
                amount as int,
            ),
    {
        let admin = match storage::get_admin(&self.store) {
            Ok(a) => a,
            Err(e) => {
                return Err(e);
            },
        };
        if !ctx.approves(&admin) {
            return Err(ContractError::Unauthorized);
        }
        if invoice_id.as_str().is_empty() {
            return Err(ContractError::InvalidInvoiceId);
        }
        if asset_code.as_str().is_empty() {
            return Err(ContractError::InvalidAsset);
        }
        let xlm: String = "XLM".to_owned();
        let is_native = asset_code == xlm;
        let issuer_empty = asset_issuer.as_str().is_empty();
        if is_native && !issuer_empty {
            return Err(ContractError::InvalidAsset);
        }
        if !is_native && issuer_empty {
            return Err(ContractError::InvalidAsset);
        }
        if amount <= 0 {
            return Err(ContractError::InvalidAmount);
        }
        if storage::has_payment(&self.store, &invoice_id) {
            return Err(ContractError::PaymentAlreadyRecorded);
        }
        let asset = if is_native {
            Asset::Native
        } else {
            Asset::Token(asset_code, asset_issuer)
        };
        let record = PaymentRecord {
            invoice_id,
            payer,
            asset,
            amount,
            timestamp: ctx.timestamp(),
        };
        storage::set_payment(&mut self.store, &record);
        storage::bump_count(&mut self.store);
        events::emit_payment_recorded(&mut self.events, record);
        proof {
            assert(self@ =~~= spec_record_state(
                old(self)@,
                ctx@,
                invoice_id@,
                payer@,
                asset_code@,
                asset_issuer@,
                amount as int,
            ));
        }
        Ok(())
    }

    /// Return the record stored for `invoice_id`, extending its lease.
    ///
    /// Fails with [`ContractError::PaymentNotFound`] if nothing was
    /// recorded.
    pub fn get_payment(&mut self, invoice_id: &String) -> (r: Result<
        PaymentRecord,
        ContractError,
    >)
        requires
            old(self).wf(),
        ensures
            final(self).wf(),
            match r {
                Ok(record) => spec_get_payment_outcome(old(self)@, invoice_id@) == Ok::<
                    PaymentRecordV,
                    ContractError,
                >(record@),
                Err(e) => spec_get_payment_outcome(old(self)@, invoice_id@) == Err::<
                    PaymentRecordV,
                    ContractError,
                >(e),
            },
            final(self)@ == spec_get_payment_state(old(self)@, invoice_id@),
    {
        let r = storage::get_payment(&mut self.store, invoice_id);
        proof {
            assert(self@ =~~= spec_get_payment_state(old(self)@, invoice_id@));
        }
        r
    }

    /// Return `true` if a payment was recorded for `invoice_id`.
    ///
    /// An existence probe only: no lease is extended and nothing fails.
    pub fn has_payment(&self, invoice_id: &String) -> (r: bool)
        ensures
            r == self@.store.payments.dom().contains(invoice_id@),
    {
        storage::has_payment(&self.store, invoice_id)
    }

    /// Return the number of payments recorded in this instance, zero if
    /// the counter was never written.
    pub fn payment_count(&self) -> (r: u32)
        ensures
            r == self@.store.count_or_zero(),
    {
        storage::get_count(&self.store)
    }

    /// Return the current admin identity.
    ///
    /// Fails with [`ContractError::NotInitialized`] before `initialize`.
    pub fn admin(&self) -> (r: Result<String, ContractError>)
        ensures
            match r {
                Ok(a) => self@.store.admin == Some(a@),
                Err(e) => self@.store.admin is None && e == ContractError::NotInitialized,
            },
    {
        storage::get_admin(&self.store)
    }

    /// Transfer admin rights to `new_admin`.
    ///
    /// Both the outgoing and the incoming admin must have authorized the
    /// call: transferring to an identity that can never produce a valid
    /// authorization would permanently brick administrative control.
    pub fn set_admin(&mut self, ctx: &CallContext, new_admin: String) -> (r: Result<
        (),
        ContractError,
    >)
        requires
            old(self).wf(),
        ensures
            final(self).wf(),
            r == spec_set_admin_outcome(old(self)@, ctx@, new_admin@),
            final(self)@ == spec_set_admin_state(old(self)@, ctx@, new_admin@),
    {
        let current = match storage::get_admin(&self.store) {
            Ok(a) => a,
            Err(e) => {
                return Err(e);
            },
        };
        if !ctx.approves(&current) {
            return Err(ContractError::Unauthorized);
        }
        if !ctx.approves(&new_admin) {
            return Err(ContractError::Unauthorized);
        }
        storage::set_admin(&mut self.store, &new_admin);
        proof {
            assert(self@ =~~= spec_set_admin_state(old(self)@, ctx@, new_admin@));
        }
        Ok(())
    }

    /// The notification log, in emission order.
    pub fn events(&self) -> (r: &Vec<PaymentEvent>)
        ensures
            events_view(r@) == self@.events,
    {
        &self.events
    }
}

} // verus!
