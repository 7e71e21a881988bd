//! The ledger's guarantees exercised on concrete values: idempotency,
//! counter consistency, asset classification, read-after-write,
//! authorization gating, and the store's lease rule.

use invoice_payment::storage::{
    bump_count, get_count, has_payment as store_has_payment, set_payment, extend_ttl_value,
    DataKey, Store, BUMP_TTL, MIN_TTL,
};
use invoice_payment::{Asset, CallContext, ContractError, InvoicePaymentContract, PaymentRecord};

fn setup() -> (InvoicePaymentContract, String) {
    let admin = String::from("GADMIN_AAAAAAAAAAAAAAAAAAAAAAAAA");
    let mut contract = InvoicePaymentContract::new();
    assert_eq!(contract.initialize(admin.clone()), Ok(()));
    (contract, admin)
}

fn ctx_approving(approvals: &[&str]) -> CallContext {
    let mut ctx = CallContext::new(0);
    for id in approvals {
        ctx.approve(String::from(*id));
    }
    ctx
}

// Idempotency

#[test]
fn idempotency_second_attempt_changes_nothing() {
    let (mut contract, admin) = setup();
    let ctx = ctx_approving(&[&admin]);
    let payer = String::from("GPAYER_AAAAAAAAAAAAAAAAAAAAAAAAA");

    let first = contract.record_payment(
        &ctx,
        String::from("inv-once"),
        payer.clone(),
        String::from("XLM"),
        String::from(""),
        10_000_000i128,
    );
    assert_eq!(first, Ok(()));

    // A second attempt with entirely different arguments must fail and
    // leave the stored record and the counter untouched.
    let second = contract.record_payment(
        &ctx,
        String::from("inv-once"),
        String::from("GPAYER_BBBBBBBBBBBBBBBBBBBBBBBBB"),
        String::from("USDC"),
        String::from("GBBD47IF6LWK7P7MDEVSCWR7DPUWV3NY3DTQEVFL4NAT4AQH3ZLLFLA5"),
        999i128,
    );
    assert_eq!(second, Err(ContractError::PaymentAlreadyRecorded));

    let record = contract.get_payment(&String::from("inv-once")).unwrap();
    assert_eq!(record.payer, payer);
    assert_eq!(record.asset, Asset::Native);
    assert_eq!(record.amount, 10_000_000i128);
    assert_eq!(contract.payment_count(), 1);
    assert_eq!(contract.events().len(), 1);
}

// Counter consistency

#[test]
fn counter_counts_only_successful_records() {
    let (mut contract, admin) = setup();
    let ctx = ctx_approving(&[&admin]);
    let payer = String::from("GPAYER_AAAAAAAAAAAAAAAAAAAAAAAAA");

    // Two successes interleaved with failures of every rejected kind.
    assert_eq!(
        contract.record_payment(
            &ctx,
            String::from("inv-a"),
            payer.clone(),
            String::from("XLM"),
            String::from(""),
            1i128,
        ),
        Ok(())
    );
    assert!(contract
        .record_payment(
            &ctx,
            String::from(""),
            payer.clone(),
            String::from("XLM"),
            String::from(""),
            1i128,
        )
        .is_err());
    assert!(contract
        .record_payment(
            &ctx,
            String::from("inv-b"),
            payer.clone(),
            String::from("XLM"),
            String::from(""),
            0i128,
        )
        .is_err());
    assert!(contract
        .record_payment(
            &ctx,
            String::from("inv-a"),
            payer.clone(),
            String::from("XLM"),
            String::from(""),
            1i128,
        )
        .is_err());
    assert_eq!(
        contract.record_payment(
            &ctx,
            String::from("inv-b"),
            payer.clone(),
            String::from("XLM"),
            String::from(""),
            2i128,
        ),
        Ok(())
    );

    assert_eq!(contract.payment_count(), 2);
    assert_eq!(contract.events().len(), 2);
}

// Asset classification

#[test]
fn asset_classification_on_each_class_of_pair() {
    let (mut contract, admin) = setup();
    let ctx = ctx_approving(&[&admin]);
    let payer = String::from("GPAYER_AAAAAAAAAAAAAAAAAAAAAAAAA");
    let issuer = String::from("GBBD47IF6LWK7P7MDEVSCWR7DPUWV3NY3DTQEVFL4NAT4AQH3ZLLFLA5");

    // Native with empty issuer: accepted as Native.
    assert_eq!(
        contract.record_payment(
            &ctx,
            String::from("inv-native"),
            payer.clone(),
            String::from("XLM"),
            String::from(""),
            1i128,
        ),
        Ok(())
    );
    assert_eq!(
        contract.get_payment(&String::from("inv-native")).unwrap().asset,
        Asset::Native
    );

    // Non-native with non-empty issuer: accepted as Token.
    assert_eq!(
        contract.record_payment(
            &ctx,
            String::from("inv-token"),
            payer.clone(),
            String::from("USDC"),
            issuer.clone(),
            1i128,
        ),
        Ok(())
    );
    assert_eq!(
        contract.get_payment(&String::from("inv-token")).unwrap().asset,
        Asset::Token(String::from("USDC"), issuer.clone())
    );

    // Native with issuer, non-native without, empty code: all rejected.
    assert_eq!(
        contract.record_payment(
            &ctx,
            String::from("inv-bad-1"),
            payer.clone(),
            String::from("XLM"),
            issuer.clone(),
            1i128,
        ),
        Err(ContractError::InvalidAsset)
    );
    assert_eq!(
        contract.record_payment(
            &ctx,
            String::from("inv-bad-2"),
            payer.clone(),
            String::from("USDC"),
            String::from(""),
            1i128,
        ),
        Err(ContractError::InvalidAsset)
    );
    assert_eq!(
        contract.record_payment(
            &ctx,
            String::from("inv-bad-3"),
            payer.clone(),
            String::from(""),
            String::from(""),
            1i128,
        ),
        Err(ContractError::InvalidAsset)
    );
}

// Read-after-write

#[test]
fn read_after_write_returns_exact_fields_and_clock() {
    let (mut contract, admin) = setup();
    let mut ctx = CallContext::new(1_700_000_000);
    ctx.approve(admin.clone());
    let payer = String::from("GPAYER_AAAAAAAAAAAAAAAAAAAAAAAAA");
    let issuer = String::from("GBBD47IF6LWK7P7MDEVSCWR7DPUWV3NY3DTQEVFL4NAT4AQH3ZLLFLA5");

    assert_eq!(
        contract.record_payment(
            &ctx,
            String::from("inv-raw"),
            payer.clone(),
            String::from("USDC"),
            issuer.clone(),
            42i128,
        ),
        Ok(())
    );

    assert!(contract.has_payment(&String::from("inv-raw")));
    let expected = PaymentRecord {
        invoice_id: String::from("inv-raw"),
        payer: payer.clone(),
        asset: Asset::Token(String::from("USDC"), issuer.clone()),
        amount: 42i128,
        timestamp: 1_700_000_000,
    };
    assert_eq!(contract.get_payment(&String::from("inv-raw")), Ok(expected));
}

// Authorization gating

#[test]
fn unauthorized_record_is_rejected_before_any_mutation() {
    let (mut contract, _admin) = setup();
    // Nobody authorized this call.
    let ctx = CallContext::new(0);

    let result = contract.record_payment(
        &ctx,
        String::from("inv-unauth"),
        String::from("GPAYER_AAAAAAAAAAAAAAAAAAAAAAAAA"),
        String::from("XLM"),
        String::from(""),
        1i128,
    );
    assert_eq!(result, Err(ContractError::Unauthorized));
    assert!(!contract.has_payment(&String::from("inv-unauth")));
    assert_eq!(contract.payment_count(), 0);
    assert_eq!(contract.events().len(), 0);
}

#[test]
fn set_admin_with_only_one_consent_fails() {
    let (mut contract, old_admin) = setup();
    let new_admin = String::from("GADMIN_BBBBBBBBBBBBBBBBBBBBBBBBB");

    // Only the incoming admin approved: rejected.
    let ctx = ctx_approving(&[&new_admin]);
    assert_eq!(
        contract.set_admin(&ctx, new_admin.clone()),
        Err(ContractError::Unauthorized)
    );
    // Only the outgoing admin approved: rejected.
    let ctx = ctx_approving(&[&old_admin]);
    assert_eq!(
        contract.set_admin(&ctx, new_admin.clone()),
        Err(ContractError::Unauthorized)
    );
    // The admin slot never moved.
    assert_eq!(contract.admin(), Ok(old_admin));
}

#[test]
fn old_admin_cannot_record_after_transfer() {
    let (mut contract, old_admin) = setup();
    let new_admin = String::from("GADMIN_BBBBBBBBBBBBBBBBBBBBBBBBB");
    let transfer_ctx = ctx_approving(&[&old_admin, &new_admin]);
    assert_eq!(contract.set_admin(&transfer_ctx, new_admin.clone()), Ok(()));
    assert_eq!(contract.admin(), Ok(new_admin));

    // A call authorized only by the outgoing admin is now rejected.
    let ctx = ctx_approving(&[&old_admin]);
    let result = contract.record_payment(
        &ctx,
        String::from("inv-old-admin"),
        String::from("GPAYER_AAAAAAAAAAAAAAAAAAAAAAAAA"),
        String::from("XLM"),
        String::from(""),
        1i128,
    );
    assert_eq!(result, Err(ContractError::Unauthorized));
    assert_eq!(contract.payment_count(), 0);
}

// Before initialization

#[test]
fn operations_before_initialize_report_not_initialized() {
    let mut contract = InvoicePaymentContract::new();
    let ctx = ctx_approving(&["GADMIN_AAAAAAAAAAAAAAAAAAAAAAAAA"]);

    assert_eq!(contract.admin(), Err(ContractError::NotInitialized));
    assert_eq!(
        contract.record_payment(
            &ctx,
            String::from("inv-early"),
            String::from("GPAYER_AAAAAAAAAAAAAAAAAAAAAAAAA"),
            String::from("XLM"),
            String::from(""),
            1i128,
        ),
        Err(ContractError::NotInitialized)
    );
    assert_eq!(
        contract.set_admin(&ctx, String::from("GADMIN_BBBBBBBBBBBBBBBBBBBBBBBBB")),
        Err(ContractError::NotInitialized)
    );
    assert_eq!(contract.payment_count(), 0);
}

// Event log ordering

#[test]
fn events_append_in_order_of_recording() {
    let (mut contract, admin) = setup();
    let ctx = ctx_approving(&[&admin]);
    let payer = String::from("GPAYER_AAAAAAAAAAAAAAAAAAAAAAAAA");

    for (i, invoice) in ["inv-first", "inv-second", "inv-third"].iter().enumerate() {
        assert_eq!(
            contract.record_payment(
                &ctx,
                String::from(*invoice),
                payer.clone(),
                String::from("XLM"),
                String::from(""),
                (i as i128) + 1,
            ),
            Ok(())
        );
    }

    let log = contract.events();
    assert_eq!(log.len(), 3);
    assert_eq!(log[0].record.invoice_id, String::from("inv-first"));
    assert_eq!(log[1].record.invoice_id, String::from("inv-second"));
    assert_eq!(log[2].record.invoice_id, String::from("inv-third"));
    for event in log {
        assert_eq!(event.topic, String::from("payment_recorded"));
    }
}

// The store and its lease rule

#[test]
fn lease_extension_rule_exact_values() {
    // Below the minimum: raised to the target.
    assert_eq!(extend_ttl_value(0, MIN_TTL, BUMP_TTL), BUMP_TTL);
    assert_eq!(extend_ttl_value(MIN_TTL - 1, MIN_TTL, BUMP_TTL), BUMP_TTL);
    // At or above the minimum: left alone.
    assert_eq!(extend_ttl_value(MIN_TTL, MIN_TTL, BUMP_TTL), MIN_TTL);
    assert_eq!(extend_ttl_value(BUMP_TTL, MIN_TTL, BUMP_TTL), BUMP_TTL);
    // The policy constants themselves.
    assert_eq!(MIN_TTL, 17_280);
    assert_eq!(BUMP_TTL, 518_400);
}

#[test]
fn store_counter_reads_zero_then_counts() {
    let mut store = Store::new();
    assert_eq!(get_count(&store), 0);
    bump_count(&mut store);
    bump_count(&mut store);
    assert_eq!(get_count(&store), 2);
}

#[test]
fn store_counter_reaches_largest_value() {
    let mut store = Store::new();
    store.set_count(u32::MAX - 1);
    bump_count(&mut store);
    assert_eq!(get_count(&store), u32::MAX);
}

#[test]
fn store_payment_round_trip_and_existence() {
    let mut store = Store::new();
    let record = PaymentRecord {
        invoice_id: String::from("inv-store"),
        payer: String::from("GPAYER_AAAAAAAAAAAAAAAAAAAAAAAAA"),
        asset: Asset::Native,
        amount: 5i128,
        timestamp: 9,
    };
    assert!(!store_has_payment(&store, &String::from("inv-store")));
    assert!(!store.has(&DataKey::Payment(String::from("inv-store"))));
    set_payment(&mut store, &record);
    assert!(store_has_payment(&store, &String::from("inv-store")));
    assert!(store.has(&DataKey::Payment(String::from("inv-store"))));
    let read = invoice_payment::storage::get_payment(&mut store, &String::from("inv-store"));
    assert_eq!(read, Ok(record));
    assert_eq!(
        invoice_payment::storage::get_payment(&mut store, &String::from("inv-absent")),
        Err(ContractError::PaymentNotFound)
    );
}

#[test]
fn store_admin_slot_round_trip() {
    let mut store = Store::new();
    assert!(!invoice_payment::storage::has_admin(&store));
    assert_eq!(
        invoice_payment::storage::get_admin(&store),
        Err(ContractError::NotInitialized)
    );
    invoice_payment::storage::set_admin(&mut store, &String::from("GADMIN_AAAAAAAAAAAAAAAAAAAAAAAAA"));
    assert!(invoice_payment::storage::has_admin(&store));
    assert!(store.has(&DataKey::Admin));
    assert_eq!(
        invoice_payment::storage::get_admin(&store),
        Ok(String::from("GADMIN_AAAAAAAAAAAAAAAAAAAAAAAAA"))
    );
}

// Scenarios

#[test]
fn basic_record_scenario() {
    let (mut contract, admin) = setup();
    let ctx = ctx_approving(&[&admin]);

    assert_eq!(
        contract.record_payment(
            &ctx,
            String::from("inv-1"),
            String::from("GPAYER_AAAAAAAAAAAAAAAAAAAAAAAAA"),
            String::from("XLM"),
            String::from(""),
            10_000_000i128,
        ),
        Ok(())
    );
    let record = contract.get_payment(&String::from("inv-1")).unwrap();
    assert_eq!(record.asset, Asset::Native);
    assert_eq!(record.amount, 10_000_000i128);
    assert_eq!(contract.payment_count(), 1);
}

#[test]
fn token_with_issuer_scenario() {
    let (mut contract, admin) = setup();
    let ctx = ctx_approving(&[&admin]);
    let issuer = String::from("GISSUER_AAAAAAAAAAAAAAAAAAAAAAAA");

    assert_eq!(
        contract.record_payment(
            &ctx,
            String::from("inv-2"),
            String::from("GPAYER_AAAAAAAAAAAAAAAAAAAAAAAAA"),
            String::from("USDC"),
            issuer.clone(),
            50_000_000i128,
        ),
        Ok(())
    );
    let record = contract.get_payment(&String::from("inv-2")).unwrap();
    assert_eq!(record.asset, Asset::Token(String::from("USDC"), issuer));
}

#[test]
fn rejected_mismatches_scenario() {
    let (mut contract, admin) = setup();
    let ctx = ctx_approving(&[&admin]);
    let payer = String::from("GPAYER_AAAAAAAAAAAAAAAAAAAAAAAAA");

    let native_with_issuer = contract.record_payment(
        &ctx,
        String::from("inv-3"),
        payer.clone(),
        String::from("XLM"),
        String::from("GSOMETHING"),
        1i128,
    );
    assert_eq!(native_with_issuer, Err(ContractError::InvalidAsset));

    let token_without_issuer = contract.record_payment(
        &ctx,
        String::from("inv-4"),
        payer.clone(),
        String::from("USDC"),
        String::from(""),
        1i128,
    );
    assert_eq!(token_without_issuer, Err(ContractError::InvalidAsset));

    for amount in [0i128, -1i128] {
        let bad_amount = contract.record_payment(
            &ctx,
            String::from("inv-5"),
            payer.clone(),
            String::from("XLM"),
            String::from(""),
            amount,
        );
        assert_eq!(bad_amount, Err(ContractError::InvalidAmount));
    }

    let empty_invoice = contract.record_payment(
        &ctx,
        String::from(""),
        payer.clone(),
        String::from("XLM"),
        String::from(""),
        1i128,
    );
    assert_eq!(empty_invoice, Err(ContractError::InvalidInvoiceId));

    // None of the rejected calls left a trace.
    assert_eq!(contract.payment_count(), 0);
    assert_eq!(contract.events().len(), 0);
}
