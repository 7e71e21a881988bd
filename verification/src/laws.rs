//! The laws of the ledger, stated and proved over the specification-level
//! transitions that the executable methods are verified against.
//!
//! Each law is a public proof function: its `requires` holds only what the
//! law assumes, its `ensures` is the law itself, so it holds of every
//! state and input the types admit.

use vstd::prelude::*;

use crate::context::CallContextV;
use crate::errors::ContractError;
use crate::events::{payment_recorded_topic, PaymentEventV};
use crate::{
    spec_asset_accepted, spec_asset_of, spec_get_payment_outcome, spec_get_payment_state,
    spec_initialize_outcome, spec_initialize_state, spec_is_native, spec_new_record,
    spec_record_outcome, spec_record_state, spec_set_admin_outcome, spec_set_admin_state,
    LedgerV,
};
use crate::storage::AssetV;

verus! {

// Idempotency

/// An invoice identifier that already has a record can never be recorded
/// again: whatever the other arguments, whoever calls, the call fails and
/// the state — the stored record included — is untouched.
pub proof fn lemma_recorded_invoice_never_rerecorded(
    s: LedgerV,
    ctx: CallContextV,
    invoice_id: Seq<char>,
    payer: Seq<char>,
    code: Seq<char>,
    issuer: Seq<char>,
    amount: int,
)
    requires
        s.store.payments.dom().contains(invoice_id),
    ensures
        spec_record_outcome(s, ctx, invoice_id, payer, code, issuer, amount) is Err,
        spec_record_state(s, ctx, invoice_id, payer, code, issuer, amount) == s,
{
}

/// After one successful `record_payment` of invoice `i`, a second call for
/// `i` whose other guards all pass — authorized, well-formed asset,
/// positive amount — fails with exactly `PaymentAlreadyRecorded`, and
/// leaves the state of the first call, stored record and counter included,
/// unchanged.
pub proof fn lemma_record_payment_idempotent(
    s: LedgerV,
    ctx1: CallContextV,
    ctx2: CallContextV,
    invoice_id: Seq<char>,
    payer1: Seq<char>,
    code1: Seq<char>,
    issuer1: Seq<char>,
    amount1: int,
    payer2: Seq<char>,
    code2: Seq<char>,
    issuer2: Seq<char>,
    amount2: int,
)
    requires
        spec_record_outcome(s, ctx1, invoice_id, payer1, code1, issuer1, amount1) is Ok,
        ctx2.approvals.contains(
            spec_record_state(s, ctx1, invoice_id, payer1, code1, issuer1, amount1).store.admin->0,
        ),
        spec_asset_accepted(code2, issuer2),
        amount2 > 0,
    ensures
        ({
            let s1 = spec_record_state(s, ctx1, invoice_id, payer1, code1, issuer1, amount1);
            spec_record_outcome(s1, ctx2, invoice_id, payer2, code2, issuer2, amount2) == Err::<
                (),
                ContractError,
            >(ContractError::PaymentAlreadyRecorded) && spec_record_state(
                s1,
                ctx2,
                invoice_id,
                payer2,
                code2,
                issuer2,
                amount2,
            ) == s1
        }),
{
}

// Immutability of stored records

/// `record_payment` never touches an existing record, whatever its
/// arguments: a recorded entry stays exactly as it is.
pub proof fn lemma_record_payment_preserves_existing(
    s: LedgerV,
    ctx: CallContextV,
    invoice_id: Seq<char>,
    payer: Seq<char>,
    code: Seq<char>,
    issuer: Seq<char>,
    amount: int,
    k: Seq<char>,
)
    requires
        s.store.payments.dom().contains(k),
    ensures
        ({
            let s1 = spec_record_state(s, ctx, invoice_id, payer, code, issuer, amount);
            s1.store.payments.dom().contains(k) && s1.store.payments[k] == s.store.payments[k]
        }),
{
}

/// `get_payment` moves at most a lease: every stored record is unchanged.
pub proof fn lemma_get_payment_preserves_records(s: LedgerV, invoice_id: Seq<char>, k: Seq<char>)
    requires
        s.store.payments.dom().contains(k),
    ensures
        ({
            let s1 = spec_get_payment_state(s, invoice_id);
            s1.store.payments.dom().contains(k) && s1.store.payments[k].record
                == s.store.payments[k].record
        }),
{
}

/// `set_admin` touches no payment entry.
pub proof fn lemma_set_admin_preserves_payments(s: LedgerV, ctx: CallContextV, new_admin: Seq<char>)
    ensures
        spec_set_admin_state(s, ctx, new_admin).store.payments == s.store.payments,
{
}

/// `initialize` touches no payment entry.
pub proof fn lemma_initialize_preserves_payments(s: LedgerV, admin: Seq<char>)
    ensures
        spec_initialize_state(s, admin).store.payments == s.store.payments,
{
}

// Counter consistency

/// The counter invariant: the stored count equals the number of recorded
/// invoices — after `n` successful `record_payment` calls and any number
/// of failed ones, `payment_count` reads exactly `n`.
pub open spec fn spec_counter_consistent(s: LedgerV) -> bool {
    &&& s.store.payments.dom().finite()
    &&& s.store.count_or_zero() == s.store.payments.dom().len()
    &&& (s.store.admin is None ==> s.store.payments.dom() == Set::<Seq<char>>::empty())
}

/// A freshly deployed instance satisfies the counter invariant.
pub proof fn lemma_deployed_counter_consistent()
    ensures
        spec_counter_consistent(LedgerV::deployed()),
{
    assert(LedgerV::deployed().store.payments.dom() =~= Set::<Seq<char>>::empty());
}

/// `initialize` establishes the counter invariant and writes count zero.
pub proof fn lemma_initialize_counter_consistent(s: LedgerV, admin: Seq<char>)
    requires
        spec_counter_consistent(s),
    ensures
        spec_counter_consistent(spec_initialize_state(s, admin)),
        spec_initialize_outcome(s, admin) is Ok ==> spec_initialize_state(
            s,
            admin,
        ).store.count_or_zero() == 0,
{
}

/// One `record_payment` call keeps the counter invariant, increments the
/// count by exactly one on success, and changes nothing on failure.
pub proof fn lemma_record_payment_counter_consistent(
    s: LedgerV,
    ctx: CallContextV,
    invoice_id: Seq<char>,
    payer: Seq<char>,
    code: Seq<char>,
    issuer: Seq<char>,
    amount: int,
)
    requires
        spec_counter_consistent(s),
        s.store.count_or_zero() < u32::MAX,
    ensures
        spec_counter_consistent(
            spec_record_state(s, ctx, invoice_id, payer, code, issuer, amount),
        ),
        spec_record_outcome(s, ctx, invoice_id, payer, code, issuer, amount) is Ok
            ==> spec_record_state(
            s,
            ctx,
            invoice_id,
            payer,
            code,
            issuer,
            amount,
        ).store.count_or_zero() == s.store.count_or_zero() + 1,
        spec_record_outcome(s, ctx, invoice_id, payer, code, issuer, amount) is Err
            ==> spec_record_state(s, ctx, invoice_id, payer, code, issuer, amount) == s,
{
    broadcast use vstd::set::axiom_set_insert_len;

    if spec_record_outcome(s, ctx, invoice_id, payer, code, issuer, amount) is Ok {
        let s1 = spec_record_state(s, ctx, invoice_id, payer, code, issuer, amount);
        assert(s1.store.payments.dom() =~= s.store.payments.dom().insert(invoice_id));
    }
}

/// The arguments of one `record_payment` invocation, for stating laws
/// over whole runs of calls.
pub struct RecordCallV {
    pub ctx: CallContextV,
    pub invoice_id: Seq<char>,
    pub payer: Seq<char>,
    pub code: Seq<char>,
    pub issuer: Seq<char>,
    pub amount: int,
}

/// The state after a run of `record_payment` calls, first to last.
pub open spec fn spec_apply_records(s: LedgerV, calls: Seq<RecordCallV>) -> LedgerV
    decreases calls.len(),
{
    if calls.len() == 0 {
        s
    } else {
        let c = calls.first();
        spec_apply_records(
            spec_record_state(s, c.ctx, c.invoice_id, c.payer, c.code, c.issuer, c.amount),
            calls.drop_first(),
        )
    }
}

/// How many calls of a run succeed, each judged against the state its
/// predecessors left.
pub open spec fn spec_successful_records(s: LedgerV, calls: Seq<RecordCallV>) -> nat
    decreases calls.len(),
{
    if calls.len() == 0 {
        0
    } else {
        let c = calls.first();
        let rest = spec_successful_records(
            spec_record_state(s, c.ctx, c.invoice_id, c.payer, c.code, c.issuer, c.amount),
            calls.drop_first(),
        );
        if spec_record_outcome(s, c.ctx, c.invoice_id, c.payer, c.code, c.issuer, c.amount)
            is Ok {
            rest + 1
        } else {
            rest
        }
    }
}

/// Over any run of `record_payment` calls, successful and failed mixed in
/// any order, the counter advances by exactly the number of successes.
pub proof fn lemma_counter_counts_successes(s: LedgerV, calls: Seq<RecordCallV>)
    requires
        spec_counter_consistent(s),
        s.store.count_or_zero() + calls.len() <= u32::MAX,
    ensures
        spec_counter_consistent(spec_apply_records(s, calls)),
        spec_apply_records(s, calls).store.count_or_zero() == s.store.count_or_zero()
            + spec_successful_records(s, calls),
    decreases calls.len(),
{
    if calls.len() > 0 {
        let c = calls.first();
        lemma_record_payment_counter_consistent(
            s,
            c.ctx,
            c.invoice_id,
            c.payer,
            c.code,
            c.issuer,
            c.amount,
        );
        let s1 = spec_record_state(s, c.ctx, c.invoice_id, c.payer, c.code, c.issuer, c.amount);
        lemma_counter_counts_successes(s1, calls.drop_first());
    }
}

/// From a freshly initialized instance, after `n` successful
/// `record_payment` calls and any number of failed ones, `payment_count`
/// reads exactly `n`.
pub proof fn lemma_counter_consistency_from_initialization(
    admin: Seq<char>,
    calls: Seq<RecordCallV>,
)
    requires
        calls.len() <= u32::MAX,
    ensures
        ({
            let s0 = spec_initialize_state(LedgerV::deployed(), admin);
            spec_apply_records(s0, calls).store.count_or_zero() == spec_successful_records(
                s0,
                calls,
            )
        }),
{
    let s0 = spec_initialize_state(LedgerV::deployed(), admin);
    lemma_deployed_counter_consistent();
    lemma_initialize_counter_consistent(LedgerV::deployed(), admin);
    lemma_counter_counts_successes(s0, calls);
}

/// Reads keep the counter invariant: `get_payment` only moves a lease.
pub proof fn lemma_get_payment_counter_consistent(s: LedgerV, invoice_id: Seq<char>)
    requires
        spec_counter_consistent(s),
    ensures
        spec_counter_consistent(spec_get_payment_state(s, invoice_id)),
        spec_get_payment_state(s, invoice_id).store.count_or_zero() == s.store.count_or_zero(),
{
    let s1 = spec_get_payment_state(s, invoice_id);
    if s.store.payments.dom().contains(invoice_id) {
        assert(s1.store.payments.dom() =~= s.store.payments.dom());
    }
}

/// Admin transfer keeps the counter invariant: it touches no record.
pub proof fn lemma_set_admin_counter_consistent(
    s: LedgerV,
    ctx: CallContextV,
    new_admin: Seq<char>,
)
    requires
        spec_counter_consistent(s),
    ensures
        spec_counter_consistent(spec_set_admin_state(s, ctx, new_admin)),
        spec_set_admin_state(s, ctx, new_admin).store.count_or_zero()
            == s.store.count_or_zero(),
{
}

// Event emission

/// Exactly one notification, tagged with the fixed topic and carrying the
/// complete stored record, is appended per successful `record_payment`; a
/// rejected call appends none, and no other operation emits at all.
pub proof fn lemma_event_emission(
    s: LedgerV,
    ctx: CallContextV,
    invoice_id: Seq<char>,
    payer: Seq<char>,
    code: Seq<char>,
    issuer: Seq<char>,
    amount: int,
    admin: Seq<char>,
    read_id: Seq<char>,
    transfer_ctx: CallContextV,
    new_admin: Seq<char>,
)
    ensures
        spec_record_outcome(s, ctx, invoice_id, payer, code, issuer, amount) is Ok
            ==> spec_record_state(s, ctx, invoice_id, payer, code, issuer, amount).events
            == s.events.push(
            PaymentEventV {
                topic: payment_recorded_topic(),
                record: spec_new_record(invoice_id, payer, code, issuer, amount, ctx.timestamp),
            },
        ),
        spec_record_outcome(s, ctx, invoice_id, payer, code, issuer, amount) is Err
            ==> spec_record_state(s, ctx, invoice_id, payer, code, issuer, amount).events
            == s.events,
        spec_initialize_state(s, admin).events == s.events,
        spec_get_payment_state(s, read_id).events == s.events,
        spec_set_admin_state(s, transfer_ctx, new_admin).events == s.events,
{
}

// Asset classification totality

/// For every `(code, issuer)` pair exactly one of three things holds: it
/// is accepted as the native asset, accepted as an issued token, or
/// rejected. Native with a non-empty issuer and non-native with an empty
/// issuer are always rejected; native with an empty issuer and non-native
/// with a non-empty issuer are always accepted.
pub proof fn lemma_asset_classification_total(code: Seq<char>, issuer: Seq<char>)
    ensures
        ({
            let native_ok = spec_asset_accepted(code, issuer) && spec_is_native(code);
            let token_ok = spec_asset_accepted(code, issuer) && !spec_is_native(code);
            let rejected = !spec_asset_accepted(code, issuer);
            (native_ok || token_ok || rejected) && !(native_ok && token_ok) && !(native_ok
                && rejected) && !(token_ok && rejected) && (native_ok ==> spec_asset_of(
                code,
                issuer,
            ) == AssetV::Native) && (token_ok ==> spec_asset_of(code, issuer)
                == AssetV::Token(code, issuer))
        }),
        spec_is_native(code) && issuer.len() > 0 ==> !spec_asset_accepted(code, issuer),
        !spec_is_native(code) && issuer.len() == 0 ==> !spec_asset_accepted(code, issuer),
        spec_is_native(code) && issuer.len() == 0 ==> spec_asset_accepted(code, issuer),
        !spec_is_native(code) && code.len() > 0 && issuer.len() > 0 ==> spec_asset_accepted(
            code,
            issuer,
        ),
{
    reveal_strlit("XLM");
    assert(spec_is_native(code) ==> code.len() == 3);
}

// Read-after-write

/// Immediately after a successful `record_payment`, reading the same
/// invoice returns a record with exactly the recorded field values and the
/// invocation-time clock reading, and the existence probe answers true.
pub proof fn lemma_read_after_write(
    s: LedgerV,
    ctx: CallContextV,
    invoice_id: Seq<char>,
    payer: Seq<char>,
    code: Seq<char>,
    issuer: Seq<char>,
    amount: int,
)
    requires
        spec_record_outcome(s, ctx, invoice_id, payer, code, issuer, amount) is Ok,
    ensures
        ({
            let s1 = spec_record_state(s, ctx, invoice_id, payer, code, issuer, amount);
            spec_get_payment_outcome(s1, invoice_id) == Ok::<_, ContractError>(
                spec_new_record(invoice_id, payer, code, issuer, amount, ctx.timestamp),
            ) && s1.store.payments.dom().contains(invoice_id)
        }),
{
}

// Authorization gating

/// Without the current admin's authorization, `record_payment` is rejected
/// before any mutation.
pub proof fn lemma_record_payment_requires_admin_auth(
    s: LedgerV,
    ctx: CallContextV,
    invoice_id: Seq<char>,
    payer: Seq<char>,
    code: Seq<char>,
    issuer: Seq<char>,
    amount: int,
)
    requires
        s.store.admin is Some,
        !ctx.approvals.contains(s.store.admin->0),
    ensures
        spec_record_outcome(s, ctx, invoice_id, payer, code, issuer, amount) == Err::<
            (),
            ContractError,
        >(ContractError::Unauthorized),
        spec_record_state(s, ctx, invoice_id, payer, code, issuer, amount) == s,
{
}

/// Admin transfer needs the consent of both parties: if either the
/// outgoing or the incoming admin did not authorize the call, it is
/// rejected before any mutation.
pub proof fn lemma_set_admin_requires_both_auths(
    s: LedgerV,
    ctx: CallContextV,
    new_admin: Seq<char>,
)
    requires
        s.store.admin is Some,
        !ctx.approvals.contains(s.store.admin->0) || !ctx.approvals.contains(new_admin),
    ensures
        spec_set_admin_outcome(s, ctx, new_admin) == Err::<(), ContractError>(
            ContractError::Unauthorized,
        ),
        spec_set_admin_state(s, ctx, new_admin) == s,
{
}

} // verus!
