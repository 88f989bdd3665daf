//! The event types that are notifications relayed to operators.

use vstd::prelude::*;
use crate::message_bus::base::EventType;

verus! {

/// The notification event types, in order.
pub open spec fn spec_notification_events() -> Seq<EventType> {
    seq![
        EventType::RelayInitiated,
        EventType::RelayCompleted,
        EventType::RelayOnboarded,
        EventType::RelayStuckDepositing,
        EventType::RelayStuckBridging,
        EventType::RelayStuckForwarding,
        EventType::RelayFailed,
        EventType::CircleApi5xxBurst,
        EventType::WebhookReprocessorBacklog,
    ]
}

/// The notification event types, in order.
pub fn notification_events() -> (r: Vec<EventType>)
    ensures
        r@ == spec_notification_events(),
{
    let r = vec![
        EventType::RelayInitiated,
        EventType::RelayCompleted,
        EventType::RelayOnboarded,
        EventType::RelayStuckDepositing,
        EventType::RelayStuckBridging,
        EventType::RelayStuckForwarding,
        EventType::RelayFailed,
        EventType::CircleApi5xxBurst,
        EventType::WebhookReprocessorBacklog,
    ];
    assert(r@ =~= spec_notification_events());
    r
}

} // verus!
