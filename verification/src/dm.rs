//! Direct messages: their parts, and the names under which sessions and cursors are kept.
use crate::gateway::engine::GatewayDirectMessage;
use crate::gateway::helpers::sdk_signed_fields;
use crate::gateway::protocol::{
    Ack, DeliveryClass, Envelope, GatewayInboxEntry, GatewaySessionConfig, Priority,
};
use crate::object::{DmCiphertext, ObjectAccessGrant, SdkObjectKeySlot};
use crate::prekey::PrekeyBundle;
use vstd::prelude::*;

verus! {

/// How an initiator bootstrapped a session.
#[derive(Clone, Debug, PartialEq, Eq)]
pub struct SdkDmX3dhHeader {
    pub initiator_identity_public: [u8; 32],
    pub initiator_ephemeral_public: [u8; 32],
    pub initiator_device_id_hash: [u8; 32],
    pub recipient_device_id_hash: [u8; 32],
    pub recipient_device_id: String,
    pub recipient_signed_prekey_id: String,
    pub recipient_one_time_prekey_id: Option<String>,
    pub prekey_bundle_hash: [u8; 32],
    pub bootstrap_transcript_hash: [u8; 32],
    pub session_id: String,
}

/// What a sender states of a message for the case that it is reported.
#[derive(Clone, Debug, PartialEq, Eq)]
pub struct SdkDmFrankingMetadata {
    pub sender_device_id_hash: String,
    pub message_event_id: String,
    pub commitment: String,
    pub ciphertext_hash: String,
}

/// An object that a message refers to, with its key for one recipient.
#[derive(Clone, Debug, PartialEq, Eq)]
pub struct SdkDmAttachmentRef {
    pub schema: String,
    pub version: u32,
    pub object_id: String,
    pub manifest_hash: String,
    pub plaintext_hash: String,
    pub cipher_size: u64,
    pub chunk_size: usize,
    pub total_chunks: u32,
    pub relay_endpoint: String,
    pub owner_home_node_id: Option<String>,
    pub relay_audience_node_id: Option<String>,
    pub owner_principal_id: String,
    pub owner_device_epoch: u64,
    pub access_grant: Option<ObjectAccessGrant>,
    pub key_slot: SdkObjectKeySlot,
}

/// A message as it travels: encrypted, and with the bootstrap of its session if that is new.
#[derive(Clone, Debug, PartialEq, Eq)]
pub struct SdkDmEncryptedEnvelope {
    pub schema: String,
    pub version: u32,
    pub x3dh: Option<SdkDmX3dhHeader>,
    pub ciphertext: DmCiphertext,
}

/// What a node has stated of a message that it accepted.
#[derive(Clone, Debug, PartialEq, Eq)]
pub struct SdkReceivedFrankingMetadata {
    pub sender_device_id_hash: String,
    pub message_event_id: String,
    pub commitment: String,
    pub ciphertext_hash: String,
    pub franking_tag: String,
    pub node_id: String,
    pub accepted_at: u64,
}

/// Who answers for the evidence of a report.
#[derive(Clone, Copy, Debug, PartialEq, Eq, Structural)]
pub enum SdkFrankingEvidenceKind {
    ReceiverAttestedDm,
    SenderBoundGroup,
}

/// The evidence with which a message is reported.
#[derive(Clone, Debug, PartialEq, Eq)]
pub struct SdkSelectedFrankingEvidence {
    pub evidence_kind: SdkFrankingEvidenceKind,
    pub node_id: String,
    pub envelope_id: String,
    pub plaintext_excerpt: String,
    pub opening_key: String,
    pub commitment_key: String,
    pub sender_device_id_hash: String,
    pub msg_event_id: String,
    pub canonical_header_bytes: String,
    pub associated_data: String,
    pub ciphertext: String,
    pub header_hash: String,
    pub associated_data_hash: String,
    pub ciphertext_hash: String,
    pub franking_commitment: String,
    pub commitment: String,
    pub franking_tag: String,
    pub franking_timestamp: u64,
    pub group_header_signature: Option<String>,
}

/// A message body together with what it refers to.
#[derive(Clone, Debug, PartialEq, Eq)]
pub struct SdkDmAttachmentEnvelope {
    pub schema: String,
    pub version: u32,
    pub body_base64: String,
    pub attachments: Vec<SdkDmAttachmentRef>,
}

/// An attachment that has been fetched.
#[derive(Clone, Debug, PartialEq, Eq)]
pub struct SdkDmAttachmentImportResult {
    pub object_id: String,
    pub manifest_hash: String,
    pub plaintext_base64: String,
    pub plaintext_hash: String,
    pub imported: bool,
}

/// A message that has been decrypted.
#[derive(Clone, Debug, PartialEq, Eq)]
pub struct GatewayPlaintextDelivery {
    pub entry: GatewayInboxEntry,
    pub conversation_id: String,
    pub message_id: String,
    pub sender_id: String,
    pub plaintext_body_base64: String,
    pub attachments: Vec<SdkDmAttachmentImportResult>,
}

/// A receipt, and the device that claims to have sent it.
#[derive(Clone, Debug, PartialEq, Eq)]
pub struct SdkReceiptEventEnvelope {
    pub schema: String,
    pub version: u32,
    pub receipt_id: String,
    pub event_seq: u64,
    pub nonce: String,
    pub reader_device_id: String,
    pub event: SdkReceiptEventBody,
}

/// What a receipt says.
#[derive(Clone, Debug, PartialEq, Eq)]
pub enum SdkReceiptEventBody {
    Delivered {
        conversation_id: String,
        message_id: String,
        delivered_at: i64,
        receiver_device_id: String,
        scope: String,
        ttl_seconds: u32,
    },
    ReadPrivate {
        conversation_id: String,
        message_id: String,
        reader_identity: String,
        read_at: i64,
        own_device_scope: String,
    },
    ReadPublic {
        conversation_id: String,
        message_id: String,
        reader_identity: String,
        read_at: i64,
        visibility_scope: String,
        ttl_seconds: u32,
    },
}

/// The private prekeys of a device.
#[derive(Clone, Debug, PartialEq, Eq)]
pub struct SdkX3dhPrivateState {
    pub device_id: String,
    pub identity_seed: [u8; 32],
    pub signed_prekey_id: String,
    pub signed_prekey_seed: [u8; 32],
    pub bundle: PrekeyBundle,
}

impl SdkDmFrankingMetadata {
    /// Whether this states what a ciphertext holds, the sender's hash being spelt as given.
    pub open spec fn states(self, ciphertext: DmCiphertext, sender_hash_text: Seq<char>) -> bool {
        &&& self.sender_device_id_hash@ == sender_hash_text
        &&& self.message_event_id@ == ciphertext.message_event_id@
        &&& self.commitment@ == ciphertext.commitment@
        &&& self.ciphertext_hash@ == ciphertext.ciphertext_hash@
    }

    /// What a sender states of a ciphertext. The sender's hash comes as base64url text.
    pub fn from_ciphertext(ciphertext: &DmCiphertext, sender_hash_text: &str) -> (r: Self)
        ensures
            r.states(*ciphertext, sender_hash_text@),
    {
        SdkDmFrankingMetadata {
            sender_device_id_hash: sender_hash_text.to_owned(),
            message_event_id: ciphertext.message_event_id.clone(),
            commitment: ciphertext.commitment.clone(),
            ciphertext_hash: ciphertext.ciphertext_hash.clone(),
        }
    }
}

/// An encrypted message in its wrapping.
pub fn dm_encrypted_envelope(x3dh: Option<SdkDmX3dhHeader>, ciphertext: DmCiphertext) -> (r:
    SdkDmEncryptedEnvelope)
    ensures
        r.schema@ == "ramflux.sdk.dm_x3dh_envelope.v1"@,
        r.version == 1,
        r.x3dh == x3dh,
        r.ciphertext == ciphertext,
{
    SdkDmEncryptedEnvelope {
        schema: "ramflux.sdk.dm_x3dh_envelope.v1".to_owned(),
        version: 1,
        x3dh,
        ciphertext,
    }
}

/// A message body, as base64url text, with its attachments.
pub fn dm_attachment_envelope(body_base64: String, attachments: Vec<SdkDmAttachmentRef>) -> (r:
    SdkDmAttachmentEnvelope)
    ensures
        r.schema@ == "ramflux.sdk.dm_attachment_envelope.v1"@,
        r.version == 1,
        r.body_base64 == body_base64,
        r.attachments == attachments,
{
    SdkDmAttachmentEnvelope {
        schema: "ramflux.sdk.dm_attachment_envelope.v1".to_owned(),
        version: 1,
        body_base64,
        attachments,
    }
}

/// The acknowledgement of an envelope, yet to be signed.
pub fn gateway_ack(envelope_id: &str, receiver_device_id: &str, received_at: i64) -> (r: Ack)
    ensures
        r.schema@ == "ramflux.ack.v1"@,
        r.version == 1,
        r.domain@ == "ramflux.ack.v1"@,
        r.signed.signing_key_id@ == "fixture"@,
        r.signed.signature_alg is Ed25519,
        r.signed.signature@ == ""@,
        r.ack_id@ == "ack_"@ + envelope_id@ + "_"@ + receiver_device_id@,
        r.envelope_id@ == envelope_id@,
        r.receiver_device_id@ == receiver_device_id@,
        r.received_at == received_at,
        r.cursor_after is None,
{
    Ack {
        schema: "ramflux.ack.v1".to_owned(),
        version: 1,
        domain: "ramflux.ack.v1".to_owned(),
        signed: sdk_signed_fields(""),
        ack_id: "ack_".to_owned().concat(envelope_id).concat("_").concat(receiver_device_id),
        envelope_id: envelope_id.to_owned(),
        receiver_device_id: receiver_device_id.to_owned(),
        received_at,
        cursor_after: None,
    }
}

impl Ack {
    /// The acknowledgement with its signature.
    pub fn with_signature(self, signature: String) -> (r: Ack)
        ensures
            r == (Ack {
                signed: crate::gateway::protocol::SignedFields { signature, ..self.signed },
                ..self
            }),
    {
        let mut ack = self;
        ack.signed.signature = signature;
        ack
    }
}

/// Whether `e` carries a message, unsigned. The payload is the message's encrypted body as
/// base64url text, and its hash is given beside it.
pub open spec fn is_message_envelope(
    e: Envelope,
    config: GatewaySessionConfig,
    message: GatewayDirectMessage,
    encrypted_payload: Seq<char>,
    payload_hash: Seq<char>,
    franking: Option<SdkDmFrankingMetadata>,
) -> bool {
    &&& e.schema@ == "ramflux.envelope.v1"@
    &&& e.version == 1
    &&& e.domain@ == "ramflux.envelope.v1"@
    &&& e.franking == franking
    &&& e.signed.signing_key_id@ == "fixture"@
    &&& e.signed.signature_alg is Ed25519
    &&& e.signed.signature@ == ""@
    &&& e.envelope_id@ == message.envelope_id@
    &&& e.source_principal_id@ == message.source_principal_id@
    &&& e.source_device_id@ == config.device_id@
    &&& e.target_delivery_id@ == message.target_delivery_id@
    &&& e.routing_set_id is None
    &&& e.delivery_class is OpaqueEvent
    &&& e.priority is Normal
    &&& e.ttl == message.ttl
    &&& e.created_at == message.created_at
    &&& e.encrypted_payload@ == encrypted_payload
    &&& e.payload_hash@ == payload_hash
}

/// The envelope of a message, yet to be signed.
pub fn gateway_direct_message_envelope(
    config: &GatewaySessionConfig,
    message: &GatewayDirectMessage,
    encrypted_payload: String,
    payload_hash: String,
    franking: Option<SdkDmFrankingMetadata>,
) -> (r: Envelope)
    ensures
        is_message_envelope(
            r,
            *config,
            *message,
            encrypted_payload@,
            payload_hash@,
            franking,
        ),
{
    Envelope {
        schema: "ramflux.envelope.v1".to_owned(),
        version: 1,
        domain: "ramflux.envelope.v1".to_owned(),
        franking,
        signed: sdk_signed_fields(""),
        envelope_id: message.envelope_id.clone(),
        source_principal_id: message.source_principal_id.clone(),
        source_device_id: config.device_id.clone(),
        target_delivery_id: message.target_delivery_id.clone(),
        routing_set_id: None,
        delivery_class: DeliveryClass::OpaqueEvent,
        priority: Priority::Normal,
        ttl: message.ttl,
        created_at: message.created_at,
        encrypted_payload,
        payload_hash,
    }
}

impl Envelope {
    /// The envelope with its signature.
    pub fn with_signature(self, signature: String) -> (r: Envelope)
        ensures
            r == (Envelope {
                signed: crate::gateway::protocol::SignedFields { signature, ..self.signed },
                ..self
            }),
    {
        let mut envelope = self;
        envelope.signed.signature = signature;
        envelope
    }
}

// ---- names ----

/// The name of the checkpoint that holds how far an inbox has been acknowledged.
pub open spec fn cursor_checkpoint_name(target_delivery_id: Seq<char>) -> Seq<char> {
    "gateway_cursor:"@ + target_delivery_id
}

/// The name of the checkpoint that holds how far an inbox has been taken in.
pub open spec fn receive_cursor_checkpoint_name(target_delivery_id: Seq<char>) -> Seq<char> {
    "gateway_receive_cursor:"@ + target_delivery_id
}

/// The name of the checkpoint of one direction of a conversation's session.
pub open spec fn session_checkpoint_name(
    conversation_id: Seq<char>,
    direction: Seq<char>,
) -> Seq<char> {
    "dm_session:"@ + conversation_id + ":"@ + direction
}

/// The name of the event that holds a session as it stood after an envelope.
pub open spec fn session_event_id(
    conversation_id: Seq<char>,
    direction: Seq<char>,
    envelope_id: Seq<char>,
) -> Seq<char> {
    "dm.session:"@ + conversation_id + ":"@ + direction + ":"@ + envelope_id
}

/// The name of the conversation that carries the key of an attachment.
pub open spec fn attachment_slot_id(
    conversation_id: Seq<char>,
    object_id: Seq<char>,
    recipient_device_id: Seq<char>,
) -> Seq<char> {
    "dm.attachment.slot:"@ + conversation_id + ":"@ + object_id + ":"@ + recipient_device_id
}

/// The name of the checkpoint that holds how far an inbox has been acknowledged.
pub fn gateway_cursor_checkpoint_name(target_delivery_id: &str) -> (r: String)
    ensures
        r@ == cursor_checkpoint_name(target_delivery_id@),
{
    "gateway_cursor:".to_owned().concat(target_delivery_id)
}

/// The name of the checkpoint that holds how far an inbox has been taken in.
pub fn gateway_receive_cursor_checkpoint_name(target_delivery_id: &str) -> (r: String)
    ensures
        r@ == receive_cursor_checkpoint_name(target_delivery_id@),
{
    "gateway_receive_cursor:".to_owned().concat(target_delivery_id)
}

/// The name of the checkpoint of one direction of a conversation's session.
pub fn dm_session_checkpoint_name(conversation_id: &str, direction: &str) -> (r: String)
    ensures
        r@ == session_checkpoint_name(conversation_id@, direction@),
{
    "dm_session:".to_owned().concat(conversation_id).concat(":").concat(direction)
}

/// The name of the event that holds a session as it stood after an envelope.
pub fn dm_session_event_id(conversation_id: &str, direction: &str, envelope_id: &str) -> (r: String)
    ensures
        r@ == session_event_id(conversation_id@, direction@, envelope_id@),
{
    "dm.session:".to_owned().concat(conversation_id).concat(":").concat(direction).concat(
        ":",
    ).concat(envelope_id)
}

/// The name of the conversation that carries the key of an attachment.
pub fn dm_attachment_slot_conversation_id(
    conversation_id: &str,
    object_id: &str,
    recipient_device_id: &str,
) -> (r: String)
    ensures
        r@ == attachment_slot_id(conversation_id@, object_id@, recipient_device_id@),
{
    "dm.attachment.slot:".to_owned().concat(conversation_id).concat(":").concat(object_id).concat(
        ":",
    ).concat(recipient_device_id)
}

/// The name of the checkpoint of a device's private prekeys.
pub fn x3dh_private_checkpoint_name(device_id: &str) -> (r: String)
    ensures
        r@ == "x3dh_private:"@ + device_id@,
{
    "x3dh_private:".to_owned().concat(device_id)
}

/// The name of the conversation that carries control events between two devices.
pub open spec fn control_conversation_id(
    source_device_id: Seq<char>,
    target_device_id: Seq<char>,
) -> Seq<char> {
    "a2i.control:"@ + source_device_id + ":"@ + target_device_id
}

/// The name of the conversation that carries control events between two devices.
pub fn a2i_control_conversation_id(source_device_id: &str, target_device_id: &str) -> (r: String)
    ensures
        r@ == control_conversation_id(source_device_id@, target_device_id@),
{
    "a2i.control:".to_owned().concat(source_device_id).concat(":").concat(target_device_id)
}

/// The data that a message's encryption is bound to: the bytes of the conversation's name.
pub fn dm_associated_data(conversation_id: &str) -> (r: &[u8])
    ensures
        r@ == vstd::utf8::encode_utf8(conversation_id@),
{
    conversation_id.as_bytes()
}

/// The two cursors of an inbox are never kept under one name.
pub proof fn law_cursor_names_differ(a: Seq<char>, b: Seq<char>)
    ensures
        cursor_checkpoint_name(a) != receive_cursor_checkpoint_name(b),
{
    reveal_strlit("gateway_cursor:");
    reveal_strlit("gateway_receive_cursor:");
    assert(cursor_checkpoint_name(a)[8] == 'c');
    assert(receive_cursor_checkpoint_name(b)[8] == 'r');
}

/// Two inboxes never share a cursor.
pub proof fn law_cursor_names_are_injective(a: Seq<char>, b: Seq<char>)
    requires
        a != b,
    ensures
        cursor_checkpoint_name(a) != cursor_checkpoint_name(b),
        receive_cursor_checkpoint_name(a) != receive_cursor_checkpoint_name(b),
{
    let e = Seq::<char>::empty();
    assert(cursor_checkpoint_name(a) =~= "gateway_cursor:"@ + a + e);
    assert(cursor_checkpoint_name(b) =~= "gateway_cursor:"@ + b + e);
    assert(receive_cursor_checkpoint_name(a) =~= "gateway_receive_cursor:"@ + a + e);
    assert(receive_cursor_checkpoint_name(b) =~= "gateway_receive_cursor:"@ + b + e);
    if cursor_checkpoint_name(a) == cursor_checkpoint_name(b) {
        crate::text::law_part_is_bound("gateway_cursor:"@, a, b, e);
    }
    if receive_cursor_checkpoint_name(a) == receive_cursor_checkpoint_name(b) {
        crate::text::law_part_is_bound("gateway_receive_cursor:"@, a, b, e);
    }
}

/// Within one direction of one conversation, two envelopes never share a session event.
pub proof fn law_session_events_are_told_apart(
    conversation_id: Seq<char>,
    direction: Seq<char>,
    a: Seq<char>,
    b: Seq<char>,
)
    requires
        a != b,
    ensures
        session_event_id(conversation_id, direction, a) != session_event_id(
            conversation_id,
            direction,
            b,
        ),
{
    let e = Seq::<char>::empty();
    let before = "dm.session:"@ + conversation_id + ":"@ + direction + ":"@;
    assert(session_event_id(conversation_id, direction, a) =~= before + a + e);
    assert(session_event_id(conversation_id, direction, b) =~= before + b + e);
    if session_event_id(conversation_id, direction, a) == session_event_id(
        conversation_id,
        direction,
        b,
    ) {
        crate::text::law_part_is_bound(before, a, b, e);
    }
}

} // verus!
