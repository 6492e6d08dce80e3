//! Control events between two devices.
use crate::client::state::RamfluxClient;
use crate::dm::{a2i_control_conversation_id, control_conversation_id};
use crate::error::{is_local_bus, local_bus, SdkError};
use crate::gateway::engine::GatewayDirectMessage;
use vstd::prelude::*;

verus! {

/// What the library reads of a control event.
#[derive(Clone, Debug, PartialEq, Eq)]
pub struct A2iControlEvent {
    pub event_id: String,
    pub source_device_id: String,
    pub target_device_id: String,
    pub created_at: i64,
}

/// Where a control event is delivered: where the caller says, or else where the target's prekeys
/// say.
pub open spec fn control_target(
    explicit: Option<String>,
    prekey_target: Option<String>,
) -> Option<String> {
    match explicit {
        Some(target) => Some(target),
        None => prekey_target,
    }
}

/// Whether `m` carries a control event, with its body yet to be encrypted.
pub open spec fn carries_control_event(
    m: GatewayDirectMessage,
    event: A2iControlEvent,
    principal_id: Seq<char>,
    target_delivery_id: Seq<char>,
) -> bool {
    &&& m.conversation_id@ == control_conversation_id(
        event.source_device_id@,
        event.target_device_id@,
    )
    &&& m.message_id@ == event.event_id@
    &&& m.envelope_id@ == "a2i:"@ + event.event_id@
    &&& m.source_principal_id@ == principal_id
    &&& m.sender_id@ == event.source_device_id@
    &&& m.recipient_device_id is Some
    &&& m.recipient_device_id->0@ == event.target_device_id@
    &&& m.target_delivery_id@ == target_delivery_id
    &&& m.encrypted_body@.len() == 0
    &&& m.created_at == event.created_at
    &&& m.ttl == 3600
}

impl RamfluxClient {
    /// The message that carries a control event.
    pub fn send_a2i_control_event_via_gateway(
        &self,
        event: &A2iControlEvent,
        principal_id: &str,
        target_delivery_id: Option<String>,
        prekey_target: Option<String>,
    ) -> (r: Result<GatewayDirectMessage, SdkError>)
        ensures
            match control_target(target_delivery_id, prekey_target) {
                Some(target) => r matches Ok(m) && carries_control_event(
                    m,
                    *event,
                    principal_id@,
                    target@,
                ),
                None => is_local_bus(
                    r,
                    "missing target delivery id for A2I target device "@ + event.target_device_id@,
                ),
            },
    {
        let chosen = match target_delivery_id {
            Some(target) => Some(target),
            None => prekey_target,
        };
        match chosen {
            Some(target) => Ok(
                GatewayDirectMessage {
                    conversation_id: a2i_control_conversation_id(
                        event.source_device_id.as_str(),
                        event.target_device_id.as_str(),
                    ),
                    message_id: event.event_id.clone(),
                    envelope_id: "a2i:".to_owned().concat(event.event_id.as_str()),
                    source_principal_id: principal_id.to_owned(),
                    sender_id: event.source_device_id.clone(),
                    recipient_device_id: Some(event.target_device_id.clone()),
                    target_delivery_id: target,
                    encrypted_body: Vec::new(),
                    created_at: event.created_at,
                    ttl: 3600,
                },
            ),
            None => {
                let text = "missing target delivery id for A2I target device ".to_owned().concat(
                    event.target_device_id.as_str(),
                );
                Err(local_bus(text.as_str()))
            },
        }
    }
}

/// The payload of a control event. `decoded` is what its base64url text stands for, or why it stands
/// for nothing.
pub fn control_payload(decoded: Result<Vec<u8>, String>) -> (r: Result<Vec<u8>, SdkError>)
    ensures
        match decoded {
            Ok(bytes) => r == Ok::<Vec<u8>, SdkError>(bytes),
            Err(words) => is_local_bus(r, "invalid A2I encrypted payload: "@ + words@),
        },
{
    match decoded {
        Ok(bytes) => Ok(bytes),
        Err(words) => {
            let text = "invalid A2I encrypted payload: ".to_owned().concat(words.as_str());
            Err(local_bus(text.as_str()))
        },
    }
}

} // verus!
