//! Messages to devices of other nodes: what is asked of this node's federation.
use crate::client::state::RamfluxClient;
use crate::contact::{is_plaintext_answer, ContactAction};
use crate::error::SdkError;
use crate::gateway::engine::GatewayDirectMessage;
use crate::gateway::protocol::{Envelope, SignatureAlg, SignedFields};
use crate::json::{
    empty_object, encode_object, field_of, json_document, with_member, JsonFieldView, JsonMember,
    JsonScalar,
};
use crate::text::copy_opt;
use vstd::prelude::*;

verus! {

/// Where the federation forwards envelopes.
pub const FEDERATION_FORWARD_PATH: &'static str = "/s8/federation/forward";

/// How another node is reached.
#[derive(Clone, Debug, PartialEq, Eq)]
pub struct LocalBusFederationRoute {
    pub federation_url: String,
    pub source_node_id: String,
    pub target_node_id: String,
    pub required_capability: String,
    pub admin_token: Option<String>,
    pub recipient_prekey_url: Option<String>,
}

/// The wish that an envelope be forwarded.
#[derive(Clone, Debug, PartialEq, Eq)]
pub struct SdkFederatedEnvelopeForwardRequest {
    pub signed: SignedFields,
    pub admin_token: Option<String>,
    pub source_node_id: String,
    pub target_node_id: String,
    pub delivery_class: String,
    pub required_capability: String,
    pub envelope: Envelope,
}

/// What forwarding an envelope came to.
#[derive(Clone, Debug, PartialEq, Eq)]
pub struct SdkFederatedEnvelopeForwardResponse {
    pub accepted: bool,
    pub source_node_id: String,
    pub target_node_id: String,
    pub delivery: SdkFederatedSubmitResponse,
}

/// What the delivery of a forwarded envelope came to. The cursor is JSON text.
#[derive(Clone, Debug, PartialEq, Eq)]
pub struct SdkFederatedSubmitResponse {
    pub outcome: String,
    pub target_delivery_id: String,
    pub inbox_seq: Option<u64>,
    pub cursor: Option<String>,
}

/// The wish that a contact's event be sent to another node.
#[derive(Clone, Debug, PartialEq, Eq)]
pub struct LocalBusContactFederatedRequest {
    pub link_id: String,
    pub requester_id: String,
    pub target_id: String,
    pub conversation_id: String,
    pub message_id: String,
    pub envelope_id: String,
    pub source_principal_id: String,
    pub sender_id: String,
    pub recipient_device_id: String,
    pub target_delivery_id: String,
    pub federation: LocalBusFederationRoute,
}

/// Where the prekeys of a recipient are fetched: where the route says, or else where this session
/// does.
pub fn federated_prekey_url(
    federation: &LocalBusFederationRoute,
    session_prekey_url: &Option<String>,
) -> (r: Option<String>)
    ensures
        r == (if federation.recipient_prekey_url is Some {
            federation.recipient_prekey_url
        } else {
            *session_prekey_url
        }),
{
    match &federation.recipient_prekey_url {
        Some(url) => Some(url.clone()),
        None => copy_opt(session_prekey_url),
    }
}

/// The event of a contact on its way to another node: the message that carries it, with its body yet
/// to be encrypted, and what is encrypted.
#[derive(Clone, Debug, PartialEq, Eq)]
pub struct FederatedContactEvent {
    pub message: GatewayDirectMessage,
    pub plaintext: Vec<u8>,
}

/// The members of a contact's event as it is sent.
pub open spec fn sent_event_members(
    event_type: Seq<char>,
    request: LocalBusContactFederatedRequest,
) -> Map<Seq<char>, JsonMember> {
    Map::<Seq<char>, JsonMember>::empty().insert("type"@, JsonMember::Text(event_type)).insert(
        "link_id"@,
        JsonMember::Text(request.link_id@),
    ).insert("requester"@, JsonMember::Text(request.requester_id@)).insert(
        "target"@,
        JsonMember::Text(request.target_id@),
    )
}

fn sent_event_body(event_type: &str, request: &LocalBusContactFederatedRequest) -> (r: Vec<u8>)
    ensures
        json_document(r@) == Some(sent_event_members(event_type@, *request)),
{
    let object = empty_object();
    let object = with_member(object, "type", JsonScalar::Text(event_type.to_owned()));
    let object = with_member(object, "link_id", JsonScalar::Text(request.link_id.clone()));
    let object = with_member(object, "requester", JsonScalar::Text(request.requester_id.clone()));
    let object = with_member(object, "target", JsonScalar::Text(request.target_id.clone()));
    encode_object(&object).unwrap()
}

impl RamfluxClient {
    /// The event of a contact as it is sent to another node. It lives for five minutes.
    pub fn send_plaintext_federated_contact_event(
        &self,
        event_type: &str,
        request: &LocalBusContactFederatedRequest,
        now: i64,
    ) -> (r: FederatedContactEvent)
        ensures
            json_document(r.plaintext@) == Some(sent_event_members(event_type@, *request)),
            r.message.conversation_id == request.conversation_id,
            r.message.message_id == request.message_id,
            r.message.envelope_id == request.envelope_id,
            r.message.source_principal_id == request.source_principal_id,
            r.message.sender_id == request.sender_id,
            r.message.recipient_device_id == Some(request.recipient_device_id),
            r.message.target_delivery_id == request.target_delivery_id,
            r.message.encrypted_body@.len() == 0,
            r.message.created_at == now,
            r.message.ttl == 300,
    {
        FederatedContactEvent {
            message: GatewayDirectMessage {
                conversation_id: request.conversation_id.clone(),
                message_id: request.message_id.clone(),
                envelope_id: request.envelope_id.clone(),
                source_principal_id: request.source_principal_id.clone(),
                sender_id: request.sender_id.clone(),
                recipient_device_id: Some(request.recipient_device_id.clone()),
                target_delivery_id: request.target_delivery_id.clone(),
                encrypted_body: Vec::new(),
                created_at: now,
                ttl: 300,
            },
            plaintext: sent_event_body(event_type, request),
        }
    }
}

/// A contact's event asks its recipient for what its sender meant: the plaintext that is sent is read
/// as the link, the two identities and the change that the sender named. A removal is meant for both
/// sides.
pub proof fn law_sent_contact_event_is_read(
    event_type: Seq<char>,
    request: LocalBusContactFederatedRequest,
    plaintext: Seq<u8>,
    r: Result<ContactAction, SdkError>,
)
    requires
        json_document(plaintext) == Some(sent_event_members(event_type, request)),
        is_plaintext_answer(r, json_document(plaintext)),
    ensures
        event_type == "friend.requested"@ ==> (r matches Ok(
            ContactAction::RecordPending { link_id, requester_id, target_id },
        ) && link_id@ == request.link_id@ && requester_id@ == request.requester_id@ && target_id@
            == request.target_id@),
        event_type == "friend.accepted"@ ==> (r matches Ok(
            ContactAction::Establish { link_id, requester_id, target_id },
        ) && link_id@ == request.link_id@ && requester_id@ == request.requester_id@ && target_id@
            == request.target_id@),
        event_type == "friend.removed"@ ==> (r matches Ok(ContactAction::Remove { link_id, scope })
            && link_id@ == request.link_id@ && scope@ == "both"@),
        event_type == "friend.blocked"@ ==> (r matches Ok(ContactAction::Block { link_id })
            && link_id@ == request.link_id@),
        event_type == "friend.unblocked"@ ==> (r matches Ok(ContactAction::Unblock { link_id })
            && link_id@ == request.link_id@),
{
    reveal_strlit("type");
    reveal_strlit("link_id");
    reveal_strlit("requester");
    reveal_strlit("target");
    reveal_strlit("scope");
    reveal_strlit("remove_scope");
    reveal_strlit("friend.requested");
    reveal_strlit("friend.accepted");
    reveal_strlit("friend.removed");
    reveal_strlit("friend.blocked");
    reveal_strlit("friend.unblocked");
    assert("type"@.len() == 4 && "link_id"@.len() == 7 && "requester"@.len() == 9);
    assert("target"@.len() == 6 && "scope"@.len() == 5 && "remove_scope"@.len() == 12);
    assert("friend.requested"@[7] == 'r' && "friend.accepted"@[7] == 'a');
    assert("friend.removed"@[7] == 'r' && "friend.blocked"@[7] == 'b');
    assert("friend.unblocked"@[7] == 'u');
    assert("friend.requested"@.len() == 16 && "friend.removed"@.len() == 14);
    let members = sent_event_members(event_type, request);
    assert(field_of(members, "type"@) == JsonFieldView::Text(event_type));
    assert(field_of(members, "link_id"@) == JsonFieldView::Text(request.link_id@));
    assert(field_of(members, "requester"@) == JsonFieldView::Text(request.requester_id@));
    assert(field_of(members, "target"@) == JsonFieldView::Text(request.target_id@));
    assert(field_of(members, "scope"@) is Absent);
    assert(field_of(members, "remove_scope"@) is Absent);
}

/// The wish that an envelope be forwarded to another node.
pub fn federated_forward_request(federation: &LocalBusFederationRoute, envelope: Envelope) -> (r:
    SdkFederatedEnvelopeForwardRequest)
    ensures
        r.signed.signing_key_id@ == federation.source_node_id@ + "#federation"@,
        r.signed.signature_alg is Ed25519,
        r.signed.signature@ == Seq::<char>::empty(),
        r.admin_token == federation.admin_token,
        r.source_node_id == federation.source_node_id,
        r.target_node_id == federation.target_node_id,
        r.delivery_class@ == "opaque_event"@,
        r.required_capability == federation.required_capability,
        r.envelope == envelope,
{
    SdkFederatedEnvelopeForwardRequest {
        signed: SignedFields {
            signing_key_id: federation.source_node_id.clone().concat("#federation"),
            signature_alg: SignatureAlg::Ed25519,
            signature: String::new(),
        },
        admin_token: copy_opt(&federation.admin_token),
        source_node_id: federation.source_node_id.clone(),
        target_node_id: federation.target_node_id.clone(),
        delivery_class: "opaque_event".to_owned(),
        required_capability: federation.required_capability.clone(),
        envelope,
    }
}

} // verus!
