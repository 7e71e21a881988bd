//! The notification log.
//!
//! Every successful `record_payment` appends exactly one event, tagged with
//! a fixed topic and carrying the complete stored record, after all storage
//! mutation of that call. Observers read this log instead of polling state;
//! it is append-only and ordered.

use vstd::prelude::*;

use crate::storage::{PaymentRecord, PaymentRecordV};

verus! {

/// One "payment recorded" notification.
#[derive(Debug)]
pub struct PaymentEvent {
    /// The fixed topic tag every payment notification carries.
    pub topic: String,
    /// The complete record that was stored.
    pub record: PaymentRecord,
}

/// The specification-level value of a [`PaymentEvent`].
#[verifier::ext_equal]
pub struct PaymentEventV {
    pub topic: Seq<char>,
    pub record: PaymentRecordV,
}

impl View for PaymentEvent {
    type V = PaymentEventV;

    open spec fn view(&self) -> PaymentEventV {
        PaymentEventV { topic: self.topic@, record: self.record@ }
    }
}

/// The topic that tags every payment notification.
pub open spec fn payment_recorded_topic() -> Seq<char> {
    "payment_recorded"@
}

/// The specification-level value of an event log.
pub open spec fn events_view(s: Seq<PaymentEvent>) -> Seq<PaymentEventV> {
    s.map_values(|e: PaymentEvent| e@)
}

/// Append one "payment recorded" notification carrying `record`.
pub fn emit_payment_recorded(events: &mut Vec<PaymentEvent>, record: PaymentRecord)
    ensures
        events_view(final(events)@) == events_view(old(events)@).push(
            PaymentEventV { topic: payment_recorded_topic(), record: record@ },
        ),
{
    let ghost expected = PaymentEventV { topic: payment_recorded_topic(), record: record@ };
    let event = PaymentEvent { topic: "payment_recorded".to_owned(), record };
    events.push(event);
    proof {
        assert(events_view(events@) =~= events_view(old(events)@).push(expected));
    }
}

} // verus!
