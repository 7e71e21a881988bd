//! The durable keyed store and the domain entities it holds.
//!
//! The store is a leased key/value mapping over two storage classes:
//! short-lived `instance` state (the admin identity and the payment counter)
//! and long-lived `persistent` state (one entry per recorded invoice). Every
//! entry carries a remaining-lifetime counter (its TTL lease) that reads and
//! writes proactively extend; letting a cold entry's lease run out and
//! reclaiming it is the surrounding host's concern, not this module's.
//!
//! At the specification level a [`Store`] is a [`StoreV`]: the two instance
//! slots, the instance-scope lease, and a map from invoice identifier to
//! stored payment entry.

use vstd::prelude::*;

use crate::errors::ContractError;

verus! {

/// Extend a lease when fewer than this many lifetime units remain
/// (about one day of ledger closes at five-second close times).
pub const MIN_TTL: u32 = 17_280;

/// Remaining lifetime a lease is raised to when it is extended
/// (about thirty days of ledger closes).
pub const BUMP_TTL: u32 = 518_400;

// Storage keys

/// Every key under which this contract stores a value.
///
/// No two variants can collide: the variant tag is part of the key.
pub enum DataKey {
    /// The admin identity, in instance storage.
    Admin,
    /// The running count of recorded payments, in instance storage.
    PaymentCount,
    /// A payment record indexed by invoice identifier, in persistent storage.
    Payment(String),
}

/// The specification-level value of a [`DataKey`].
pub enum DataKeyV {
    Admin,
    PaymentCount,
    Payment(Seq<char>),
}

impl View for DataKey {
    type V = DataKeyV;

    open spec fn view(&self) -> DataKeyV {
        match self {
            DataKey::Admin => DataKeyV::Admin,
            DataKey::PaymentCount => DataKeyV::PaymentCount,
            DataKey::Payment(id) => DataKeyV::Payment(id@),
        }
    }
}

// Domain entities

/// The asset a payment was made in: the chain's base currency, or an
/// issued token named by a ticker code and the issuer's account identifier.
///
/// The construction rule (a token never has an empty code or issuer; the
/// native asset never carries an issuer) is enforced by the ledger service
/// at validation time, not by this type.
#[derive(Debug)]
pub enum Asset {
    /// The native base currency; no issuer.
    Native,
    /// An issued token: `Token(code, issuer)`, both non-empty by the
    /// ledger's construction rule.
    Token(String, String),
}

/// The specification-level value of an [`Asset`].
pub enum AssetV {
    Native,
    Token(Seq<char>, Seq<char>),
}

impl View for Asset {
    type V = AssetV;

    open spec fn view(&self) -> AssetV {
        match self {
            Asset::Native => AssetV::Native,
            Asset::Token(code, issuer) => AssetV::Token(code@, issuer@),
        }
    }
}

impl PartialEq for Asset {
    fn eq(&self, other: &Asset) -> (r: bool) {
        match (self, other) {
            (Asset::Native, Asset::Native) => true,
            (Asset::Token(code, issuer), Asset::Token(ocode, oissuer)) => {
                *code == *ocode && *issuer == *oissuer
            },
            _ => false,
        }
    }
}

impl vstd::std_specs::cmp::PartialEqSpecImpl for Asset {
    open spec fn obeys_eq_spec() -> bool {
        true
    }

    open spec fn eq_spec(&self, other: &Asset) -> bool {
        self@ == other@
    }
}

/// Return a copy of an asset whose specification value is the same.
pub fn clone_asset(asset: &Asset) -> (r: Asset)
    ensures
        r@ == asset@,
{
    match asset {
        Asset::Native => Asset::Native,
        Asset::Token(code, issuer) => Asset::Token(code.clone(), issuer.clone()),
    }
}

/// One durable "this invoice was paid" fact.
///
/// Created exactly once per invoice identifier, never updated or deleted.
#[derive(Debug)]
pub struct PaymentRecord {
    /// Unique invoice identifier; primary key of the record. Non-empty.
    pub invoice_id: String,
    /// Account identifier of the sender of the payment.
    pub payer: String,
    /// Asset the payment was made in.
    pub asset: Asset,
    /// Amount in the asset's smallest unit; strictly positive.
    pub amount: i128,
    /// Clock reading of the execution context at write time; never
    /// supplied by the caller.
    pub timestamp: u64,
}

/// The specification-level value of a [`PaymentRecord`].
pub struct PaymentRecordV {
    pub invoice_id: Seq<char>,
    pub payer: Seq<char>,
    pub asset: AssetV,
    pub amount: int,
    pub timestamp: u64,
}

impl View for PaymentRecord {
    type V = PaymentRecordV;

    open spec fn view(&self) -> PaymentRecordV {
        PaymentRecordV {
            invoice_id: self.invoice_id@,
            payer: self.payer@,
            asset: self.asset@,
            amount: self.amount as int,
            timestamp: self.timestamp,
        }
    }
}

impl PartialEq for PaymentRecord {
    fn eq(&self, other: &PaymentRecord) -> (r: bool) {
        self.invoice_id == other.invoice_id && self.payer == other.payer
            && self.asset == other.asset && self.amount == other.amount
            && self.timestamp == other.timestamp
    }
}

impl vstd::std_specs::cmp::PartialEqSpecImpl for PaymentRecord {
    open spec fn obeys_eq_spec() -> bool {
        true
    }

    open spec fn eq_spec(&self, other: &PaymentRecord) -> bool {
        self@ == other@
    }
}

/// Return a copy of a record whose specification value is the same.
pub fn clone_record(record: &PaymentRecord) -> (r: PaymentRecord)
    ensures
        r@ == record@,
{
    PaymentRecord {
        invoice_id: record.invoice_id.clone(),
        payer: record.payer.clone(),
        asset: clone_asset(&record.asset),
        amount: record.amount,
        timestamp: record.timestamp,
    }
}

// Persistent entries

/// A payment record together with the remaining lifetime of its lease.
pub struct PaymentEntry {
    pub record: PaymentRecord,
    pub ttl: u32,
}

/// The specification-level value of a [`PaymentEntry`].
pub struct PaymentEntryV {
    pub record: PaymentRecordV,
    pub ttl: u32,
}

impl View for PaymentEntry {
    type V = PaymentEntryV;

    open spec fn view(&self) -> PaymentEntryV {
        PaymentEntryV { record: self.record@, ttl: self.ttl }
    }
}

/// The lease-extension rule: an entry whose remaining lifetime has fallen
/// below `min` is raised to `target`; any other entry is left alone.
pub open spec fn spec_extend_ttl(ttl: u32, min: u32, target: u32) -> u32 {
    if ttl < min {
        target
    } else {
        ttl
    }
}

/// Executable counterpart of [`spec_extend_ttl`].
pub fn extend_ttl_value(ttl: u32, min: u32, target: u32) -> (r: u32)
    ensures
        r == spec_extend_ttl(ttl, min, target),
{
    if ttl < min {
        target
    } else {
        ttl
    }
}

// The association list behind the persistent scope, and its map view

/// No two entries share an invoice identifier.
pub open spec fn unique_keys(s: Seq<PaymentEntry>) -> bool {
    forall|i: int, j: int|
        0 <= i < j < s.len() ==> s[i].record.invoice_id@ != s[j].record.invoice_id@
}

/// The map an entry sequence denotes: later entries shadow earlier ones
/// (under [`unique_keys`] there is nothing to shadow).
pub open spec fn entries_map(s: Seq<PaymentEntry>) -> Map<Seq<char>, PaymentEntryV>
    decreases s.len(),
{
    if s.len() == 0 {
        Map::empty()
    } else {
        entries_map(s.drop_last()).insert(s.last().record.invoice_id@, s.last()@)
    }
}

/// A key is in the map exactly when some entry carries it.
pub proof fn lemma_entries_map_dom(s: Seq<PaymentEntry>)
    ensures
        forall|k: Seq<char>|
            entries_map(s).dom().contains(k) <==> (exists|i: int|
                0 <= i < s.len() && s[i].record.invoice_id@ == k),
    decreases s.len(),
{
    if s.len() > 0 {
        lemma_entries_map_dom(s.drop_last());
        assert forall|k: Seq<char>| entries_map(s).dom().contains(k) implies (exists|i: int|
            0 <= i < s.len() && s[i].record.invoice_id@ == k) by {
            if s.last().record.invoice_id@ == k {
                assert(s[s.len() - 1].record.invoice_id@ == k);
            } else {
                assert(entries_map(s.drop_last()).dom().contains(k));
                let i = choose|i: int|
                    0 <= i < s.drop_last().len() && s.drop_last()[i].record.invoice_id@ == k;
                assert(s.drop_last()[i] == s[i]);
                assert(s[i].record.invoice_id@ == k);
            }
        }
        assert forall|k: Seq<char>|
            (exists|i: int|
                0 <= i < s.len() && s[i].record.invoice_id@ == k) implies entries_map(
            s,
        ).dom().contains(k) by {
            let i = choose|i: int| 0 <= i < s.len() && s[i].record.invoice_id@ == k;
            if i < s.len() - 1 {
                assert(s.drop_last()[i] == s[i]);
                assert(s.drop_last()[i].record.invoice_id@ == k);
                assert(entries_map(s.drop_last()).dom().contains(k));
            } else {
                assert(s.last().record.invoice_id@ == k);
            }
        }
    }
}

/// Under unique keys, the entry at index `i` is exactly what the map holds
/// under that entry's invoice identifier.
pub proof fn lemma_entries_map_index(s: Seq<PaymentEntry>, i: int)
    requires
        unique_keys(s),
        0 <= i < s.len(),
    ensures
        entries_map(s).dom().contains(s[i].record.invoice_id@),
        entries_map(s)[s[i].record.invoice_id@] == s[i]@,
    decreases s.len(),
{
    if i == s.len() - 1 {
    } else {
        assert(unique_keys(s.drop_last()));
        assert(s.drop_last()[i] == s[i]);
        lemma_entries_map_index(s.drop_last(), i);
        assert(s[i].record.invoice_id@ != s.last().record.invoice_id@);
    }
}

/// Replacing the entry at index `i` by one with the same key updates the
/// map at that key and nothing else.
pub proof fn lemma_entries_map_update(s: Seq<PaymentEntry>, i: int, e: PaymentEntry)
    requires
        unique_keys(s),
        0 <= i < s.len(),
        e.record.invoice_id@ == s[i].record.invoice_id@,
    ensures
        entries_map(s.update(i, e)) =~= entries_map(s).insert(e.record.invoice_id@, e@),
    decreases s.len(),
{
    let k = e.record.invoice_id@;
    if i == s.len() - 1 {
        assert(s.update(i, e).drop_last() =~= s.drop_last());
        assert(s.update(i, e).last() == e);
    } else {
        assert(unique_keys(s.drop_last()));
        assert(s.drop_last()[i] == s[i]);
        lemma_entries_map_update(s.drop_last(), i, e);
        assert(s.update(i, e).drop_last() =~= s.drop_last().update(i, e));
        assert(s.update(i, e).last() == s.last());
        assert(s[i].record.invoice_id@ != s.last().record.invoice_id@);
    }
}

/// Appending an entry inserts its key into the map.
pub proof fn lemma_entries_map_push(s: Seq<PaymentEntry>, e: PaymentEntry)
    ensures
        entries_map(s.push(e)) =~= entries_map(s).insert(e.record.invoice_id@, e@),
{
    assert(s.push(e).drop_last() =~= s);
    assert(s.push(e).last() == e);
}

// The store

/// The durable keyed store: two instance slots and a leased map of
/// persistent payment entries.
pub struct Store {
    admin: Option<String>,
    count: Option<u32>,
    instance_ttl: u32,
    payments: Vec<PaymentEntry>,
}

/// The specification-level value of a [`Store`].
#[verifier::ext_equal]
pub struct StoreV {
    /// The admin identity, if `initialize` ever ran.
    pub admin: Option<Seq<char>>,
    /// The stored payment counter, if it was ever written.
    pub count: Option<u32>,
    /// Remaining lifetime of the whole instance scope.
    pub instance_ttl: u32,
    /// The persistent scope: invoice identifier to stored entry.
    pub payments: Map<Seq<char>, PaymentEntryV>,
}

impl StoreV {
    /// The store of a freshly deployed instance: nothing written yet.
    pub open spec fn empty() -> StoreV {
        StoreV { admin: None, count: None, instance_ttl: 0, payments: Map::empty() }
    }

    /// What [`get_count`] answers: the stored counter, or zero if the
    /// counter was never written.
    pub open spec fn count_or_zero(self) -> u32 {
        match self.count {
            Some(c) => c,
            None => 0,
        }
    }

    /// What [`Store::has`] answers for each key.
    pub open spec fn spec_has(self, key: DataKeyV) -> bool {
        match key {
            DataKeyV::Admin => self.admin is Some,
            DataKeyV::PaymentCount => self.count is Some,
            DataKeyV::Payment(id) => self.payments.dom().contains(id),
        }
    }

    /// The store after extending the lease addressed by `key`: the whole
    /// instance scope for an instance key, one persistent entry (if it
    /// exists) for a payment key.
    pub open spec fn spec_extend_lease(self, key: DataKeyV, min: u32, target: u32) -> StoreV {
        match key {
            DataKeyV::Admin => StoreV {
                instance_ttl: spec_extend_ttl(self.instance_ttl, min, target),
                ..self
            },
            DataKeyV::PaymentCount => StoreV {
                instance_ttl: spec_extend_ttl(self.instance_ttl, min, target),
                ..self
            },
            DataKeyV::Payment(id) => if self.payments.dom().contains(id) {
                StoreV {
                    payments: self.payments.insert(
                        id,
                        PaymentEntryV {
                            record: self.payments[id].record,
                            ttl: spec_extend_ttl(self.payments[id].ttl, min, target),
                        },
                    ),
                    ..self
                }
            } else {
                self
            },
        }
    }
}

impl View for Store {
    type V = StoreV;

    closed spec fn view(&self) -> StoreV {
        StoreV {
            admin: match self.admin {
                Some(a) => Some(a@),
                None => None,
            },
            count: self.count,
            instance_ttl: self.instance_ttl,
            payments: entries_map(self.payments@),
        }
    }
}

impl Store {
    /// The entries behind the persistent scope never repeat a key.
    pub closed spec fn wf(self) -> bool {
        unique_keys(self.payments@)
    }

    /// A store with nothing written, as a freshly deployed instance has.
    pub fn new() -> (s: Store)
        ensures
            s.wf(),
            s@ == StoreV::empty(),
    {
        let s = Store { admin: None, count: None, instance_ttl: 0, payments: Vec::new() };
        proof {
            assert(s@ =~~= StoreV::empty());
        }
        s
    }

    /// Existence check; reads nothing else and extends no lease.
    pub fn has(&self, key: &DataKey) -> (r: bool)
        ensures
            r == self@.spec_has(key@),
    {
        match key {
            DataKey::Admin => self.admin.is_some(),
            DataKey::PaymentCount => self.count.is_some(),
            DataKey::Payment(id) => {
                let r = find_payment(&self.payments, id).is_some();
                proof {
                    lemma_entries_map_dom(self.payments@);
                }
                r
            },
        }
    }

    /// Write the payment counter slot, creating or overwriting it.
    ///
    /// The plain typed write of the instance scope; the counter-specific
    /// read-increment-extend cycle is [`bump_count`].
    pub fn set_count(&mut self, count: u32)
        requires
            old(self).wf(),
        ensures
            final(self).wf(),
            final(self)@ == (StoreV { count: Some(count), ..old(self)@ }),
    {
        self.count = Some(count);
        proof {
            assert(self@ =~~= (StoreV { count: Some(count), ..old(self)@ }));
        }
    }

    /// Extend the lease addressed by `key`: if fewer than `min` lifetime
    /// units remain, raise the remaining lifetime to `target`. An instance
    /// key extends the whole instance scope; a payment key extends that
    /// entry alone, and is a no-op if the entry does not exist.
    pub fn extend_lease(&mut self, key: &DataKey, min: u32, target: u32)
        requires
            old(self).wf(),
        ensures
            final(self).wf(),
            final(self)@ == old(self)@.spec_extend_lease(key@, min, target),
    {
        match key {
            DataKey::Admin => {
                self.instance_ttl = extend_ttl_value(self.instance_ttl, min, target);
                proof {
                    assert(self@ =~~= old(self)@.spec_extend_lease(key@, min, target));
                }
            },
            DataKey::PaymentCount => {
                self.instance_ttl = extend_ttl_value(self.instance_ttl, min, target);
                proof {
                    assert(self@ =~~= old(self)@.spec_extend_lease(key@, min, target));
                }
            },
            DataKey::Payment(id) => {
                let found = find_payment(&self.payments, id);
                proof {
                    lemma_entries_map_dom(self.payments@);
                }
                match found {
                    Some(i) => {
                        let new_ttl = extend_ttl_value(self.payments[i].ttl, min, target);
                        let entry = PaymentEntry {
                            record: clone_record(&self.payments[i].record),
                            ttl: new_ttl,
                        };
                        proof {
                            lemma_entries_map_index(self.payments@, i as int);
                            lemma_entries_map_update(self.payments@, i as int, entry);
                        }
                        self.payments[i] = entry;
                        proof {
                            assert(self@ =~~= old(self)@.spec_extend_lease(key@, min, target));
                        }
                    },
                    None => {
                        proof {
                            assert(self@ =~~= old(self)@.spec_extend_lease(key@, min, target));
                        }
                    },
                }
            },
        }
    }
}

// Admin helpers (instance storage)

/// Return `true` if the contract has been initialized.
pub fn has_admin(store: &Store) -> (r: bool)
    ensures
        r == (store@.admin is Some),
{
    store.has(&DataKey::Admin)
}

/// Read the admin identity.
///
/// Fails with [`ContractError::NotInitialized`] if `initialize` never ran.
pub fn get_admin(store: &Store) -> (r: Result<String, ContractError>)
    ensures
        match r {
            Ok(a) => store@.admin == Some(a@),
            Err(e) => store@.admin is None && e == ContractError::NotInitialized,
        },
{
    match &store.admin {
        Some(a) => Ok(a.clone()),
        None => Err(ContractError::NotInitialized),
    }
}

/// Persist a new admin identity and extend the instance lease.
pub fn set_admin(store: &mut Store, admin: &String)
    requires
        old(store).wf(),
    ensures
        final(store).wf(),
        final(store)@ == (StoreV {
            admin: Some(admin@),
            instance_ttl: spec_extend_ttl(old(store)@.instance_ttl, MIN_TTL, BUMP_TTL),
            ..old(store)@
        }),
{
    store.admin = Some(admin.clone());
    store.extend_lease(&DataKey::Admin, MIN_TTL, BUMP_TTL);
    proof {
        assert(store@ =~~= (StoreV {
            admin: Some(admin@),
            instance_ttl: spec_extend_ttl(old(store)@.instance_ttl, MIN_TTL, BUMP_TTL),
            ..old(store)@
        }));
    }
}

// Payment helpers (persistent storage)

/// Return `true` if a payment record exists for `invoice_id`.
///
/// An existence probe only: it extends no lease and never fails.
pub fn has_payment(store: &Store, invoice_id: &String) -> (r: bool)
    ensures
        r == store@.payments.dom().contains(invoice_id@),
{
    store.has(&DataKey::Payment(invoice_id.clone()))
}

/// Read the stored payment record for `invoice_id`.
///
/// Fails with [`ContractError::PaymentNotFound`] if nothing was recorded.
/// A successful read extends the lease of that entry, which is how records
/// under read traffic are kept alive.
pub fn get_payment(store: &mut Store, invoice_id: &String) -> (r: Result<
    PaymentRecord,
    ContractError,
>)
    requires
        old(store).wf(),
    ensures
        final(store).wf(),
        match r {
            Ok(record) => old(store)@.payments.dom().contains(invoice_id@) && record@ == old(
                store,
            )@.payments[invoice_id@].record && final(store)@ == old(store)@.spec_extend_lease(
                DataKeyV::Payment(invoice_id@),
                MIN_TTL,
                BUMP_TTL,
            ),
            Err(e) => !old(store)@.payments.dom().contains(invoice_id@) && e
                == ContractError::PaymentNotFound && *final(store) == *old(store),
        },
{
    let found = find_payment(&store.payments, invoice_id);
    proof {
        lemma_entries_map_dom(store.payments@);
    }
    match found {
        Some(i) => {
            proof {
                lemma_entries_map_index(store.payments@, i as int);
            }
            let record = clone_record(&store.payments[i].record);
            store.extend_lease(&DataKey::Payment(invoice_id.clone()), MIN_TTL, BUMP_TTL);
            Ok(record)
        },
        None => Err(ContractError::PaymentNotFound),
    }
}

/// Persist a payment record under its invoice identifier and extend the
/// lease of that entry.
///
/// Creates or overwrites unconditionally; the "record exactly once" policy
/// is the ledger service's, enforced above this layer.
pub fn set_payment(store: &mut Store, record: &PaymentRecord)
    requires
        old(store).wf(),
    ensures
        final(store).wf(),
        final(store)@ == (StoreV {
            payments: old(store)@.payments.insert(
                record.invoice_id@,
                PaymentEntryV {
                    record: record@,
                    ttl: spec_extend_ttl(
                        if old(store)@.payments.dom().contains(record.invoice_id@) {
                            old(store)@.payments[record.invoice_id@].ttl
                        } else {
                            0
                        },
                        MIN_TTL,
                        BUMP_TTL,
                    ),
                },
            ),
            ..old(store)@
        }),
{
    let found = find_payment(&store.payments, &record.invoice_id);
    proof {
        lemma_entries_map_dom(store.payments@);
    }
    match found {
        Some(i) => {
            let new_ttl = extend_ttl_value(store.payments[i].ttl, MIN_TTL, BUMP_TTL);
            let entry = PaymentEntry { record: clone_record(record), ttl: new_ttl };
            proof {
                lemma_entries_map_index(store.payments@, i as int);
                lemma_entries_map_update(store.payments@, i as int, entry);
            }
            store.payments[i] = entry;
        },
        None => {
            let new_ttl = extend_ttl_value(0, MIN_TTL, BUMP_TTL);
            let entry = PaymentEntry { record: clone_record(record), ttl: new_ttl };
            proof {
                lemma_entries_map_push(store.payments@, entry);
            }
            store.payments.push(entry);
        },
    }
    proof {
        assert(store@ =~~= (StoreV {
            payments: old(store)@.payments.insert(
                record.invoice_id@,
                PaymentEntryV {
                    record: record@,
                    ttl: spec_extend_ttl(
                        if old(store)@.payments.dom().contains(record.invoice_id@) {
                            old(store)@.payments[record.invoice_id@].ttl
                        } else {
                            0
                        },
                        MIN_TTL,
                        BUMP_TTL,
                    ),
                },
            ),
            ..old(store)@
        }));
    }
}

// Payment counter helpers (instance storage)

/// Return the stored payment count, or zero if it was never written.
pub fn get_count(store: &Store) -> (r: u32)
    ensures
        r == store@.count_or_zero(),
{
    match store.count {
        Some(c) => c,
        None => 0,
    }
}

/// Increment the payment counter and extend the instance lease.
pub fn bump_count(store: &mut Store)
    requires
        old(store).wf(),
        old(store)@.count_or_zero() < u32::MAX,
    ensures
        final(store).wf(),
        final(store)@ == (StoreV {
            count: Some((old(store)@.count_or_zero() + 1) as u32),
            instance_ttl: spec_extend_ttl(old(store)@.instance_ttl, MIN_TTL, BUMP_TTL),
            ..old(store)@
        }),
{
    let count = get_count(store);
    store.count = Some(count + 1);
    store.extend_lease(&DataKey::PaymentCount, MIN_TTL, BUMP_TTL);
    proof {
        assert(store@ =~~= (StoreV {
            count: Some((old(store)@.count_or_zero() + 1) as u32),
            instance_ttl: spec_extend_ttl(old(store)@.instance_ttl, MIN_TTL, BUMP_TTL),
            ..old(store)@
        }));
    }
}

/// Find the index of the entry recorded for `invoice_id`, if any.
fn find_payment(payments: &Vec<PaymentEntry>, invoice_id: &String) -> (r: Option<usize>)
    ensures
        match r {
            Some(i) => i < payments@.len() && payments@[i as int].record.invoice_id@
                == invoice_id@,
            None => forall|j: int|
                0 <= j < payments@.len() ==> payments@[j].record.invoice_id@ != invoice_id@,
        },
{
    let mut i: usize = 0;
    while i < payments.len()
        invariant
            i <= payments@.len(),
            forall|j: int| 0 <= j < i ==> payments@[j].record.invoice_id@ != invoice_id@,
        decreases payments@.len() - i,
    {
        if payments[i].record.invoice_id == *invoice_id {
            return Some(i);
        }
        i = i + 1;
    }
    None
}

} // verus!
