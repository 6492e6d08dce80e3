//! Direct messages: what one side puts into an envelope, the other side reads out of it.
use crate::client::dm::{
    decode_dm_attachment_body, franking_report_metadata_for_delivery, ExcerptError,
    FrankingCommitment, FrankingOpening, ReceiptPlan,
};
use crate::client::state::RamfluxClient;
use crate::dm::{
    dm_attachment_envelope, dm_encrypted_envelope, gateway_ack, gateway_direct_message_envelope,
    SdkDmAttachmentEnvelope, SdkDmAttachmentRef, SdkDmEncryptedEnvelope, SdkDmFrankingMetadata,
    SdkDmX3dhHeader, SdkReceiptEventBody, SdkReceiptEventEnvelope, SdkReceivedFrankingMetadata,
    SdkSelectedFrankingEvidence,
};
use crate::error::SdkError;
use crate::gateway::engine::GatewayDirectMessage;
use crate::gateway::protocol::{Ack, Envelope, GatewayCursor, GatewayInboxEntry, GatewaySessionConfig};
use crate::object::DmCiphertext;
use crate::records::{AccountDbRequest, DirectMessageRecord, MessageMetadata};
use vstd::prelude::*;

verus! {

/// What was encrypted for the recipient is what the recipient decodes from the signed envelope,
/// whatever encoding turns bytes into text, as long as it can be undone.
pub proof fn law_payload_reaches_the_recipient(
    config: &GatewaySessionConfig,
    message: &GatewayDirectMessage,
    encrypted_payload: String,
    payload_hash: String,
    franking: Option<SdkDmFrankingMetadata>,
    unsigned: Envelope,
    signature: String,
    envelope: Envelope,
    encode: spec_fn(Seq<u8>) -> Seq<char>,
    decode: spec_fn(Seq<char>) -> Option<Seq<u8>>,
)
    requires
        forall|bytes: Seq<u8>| decode(#[trigger] encode(bytes)) == Some(bytes),
        encrypted_payload@ == encode(message.encrypted_body@),
        call_ensures(
            gateway_direct_message_envelope,
            (config, message, encrypted_payload, payload_hash, franking),
            unsigned,
        ),
        call_ensures(Envelope::with_signature, (unsigned, signature), envelope),
    ensures
        decode(envelope.encrypted_payload@) == Some(message.encrypted_body@),
        unsigned.encrypted_payload@ == encrypted_payload@,
        envelope.encrypted_payload@ == encrypted_payload@,
        envelope.payload_hash@ == payload_hash@,
        envelope.franking == franking,
{
}

/// An envelope is routed as its message asks, in the name of the device that sends it, and signing it
/// changes nothing but the signature.
pub proof fn law_envelope_is_routed_by_its_message(
    config: &GatewaySessionConfig,
    message: &GatewayDirectMessage,
    encrypted_payload: String,
    payload_hash: String,
    franking: Option<SdkDmFrankingMetadata>,
    unsigned: Envelope,
    signature: String,
    envelope: Envelope,
)
    requires
        call_ensures(
            gateway_direct_message_envelope,
            (config, message, encrypted_payload, payload_hash, franking),
            unsigned,
        ),
        call_ensures(Envelope::with_signature, (unsigned, signature), envelope),
    ensures
        envelope.envelope_id@ == message.envelope_id@,
        envelope.source_principal_id@ == message.source_principal_id@,
        envelope.source_device_id@ == config.device_id@,
        envelope.target_delivery_id@ == message.target_delivery_id@,
        envelope.routing_set_id is None,
        envelope.ttl == message.ttl,
        envelope.created_at == message.created_at,
        envelope.delivery_class is OpaqueEvent,
        envelope.priority is Normal,
        envelope.schema@ == "ramflux.envelope.v1"@,
        envelope.domain@ == "ramflux.envelope.v1"@,
        envelope.version == 1,
        envelope.signed.signature@ == signature@,
        envelope.signed.signing_key_id@ == unsigned.signed.signing_key_id@,
        envelope.signed.signature_alg == unsigned.signed.signature_alg,
        envelope.schema == unsigned.schema && envelope.domain == unsigned.domain,
        envelope.encrypted_payload == unsigned.encrypted_payload,
        envelope.payload_hash == unsigned.payload_hash,
{
}

/// An acknowledgement names the envelope that was received, the device that received it, and when.
pub proof fn law_acknowledgement_names_its_envelope(
    envelope_id: &str,
    receiver_device_id: &str,
    received_at: i64,
    unsigned: Ack,
    signature: String,
    ack: Ack,
)
    requires
        call_ensures(gateway_ack, (envelope_id, receiver_device_id, received_at), unsigned),
        call_ensures(Ack::with_signature, (unsigned, signature), ack),
    ensures
        ack.envelope_id@ == envelope_id@,
        ack.receiver_device_id@ == receiver_device_id@,
        ack.received_at == received_at,
        ack.cursor_after is None,
        ack.ack_id@ == "ack_"@ + envelope_id@ + "_"@ + receiver_device_id@,
        ack.signed.signature@ == signature@,
        ack.schema@ == "ramflux.ack.v1"@,
        ack.domain@ == "ramflux.ack.v1"@,
        ack.version == 1,
{
}

/// The ciphertext and the header that begins its session travel unchanged.
pub proof fn law_ciphertext_travels_unchanged(
    x3dh: Option<SdkDmX3dhHeader>,
    ciphertext: DmCiphertext,
    envelope: SdkDmEncryptedEnvelope,
)
    requires
        call_ensures(dm_encrypted_envelope, (x3dh, ciphertext), envelope),
    ensures
        envelope.ciphertext == ciphertext,
        envelope.x3dh == x3dh,
        envelope.schema@ == "ramflux.sdk.dm_x3dh_envelope.v1"@,
        envelope.version == 1,
{
}

/// A body with attachments is read back with the same body and the same attachments, in their order. A
/// body that is no such envelope is read back as it is, without attachments.
pub proof fn law_attachments_are_read_back(
    body: Seq<u8>,
    body_base64: String,
    attachments: Vec<SdkDmAttachmentRef>,
    sent: SdkDmAttachmentEnvelope,
    raw: Vec<u8>,
    decoded: Vec<u8>,
    read: Result<(Vec<u8>, Vec<SdkDmAttachmentRef>), SdkError>,
    plain: Result<(Vec<u8>, Vec<SdkDmAttachmentRef>), SdkError>,
    other: Option<SdkDmAttachmentEnvelope>,
    other_decoded: Result<Vec<u8>, String>,
    encode: spec_fn(Seq<u8>) -> Seq<char>,
    decode: spec_fn(Seq<char>) -> Option<Seq<u8>>,
)
    requires
        forall|bytes: Seq<u8>| decode(#[trigger] encode(bytes)) == Some(bytes),
        body_base64@ == encode(body),
        call_ensures(dm_attachment_envelope, (body_base64, attachments), sent),
        decode(sent.body_base64@) == Some(decoded@),
        call_ensures(decode_dm_attachment_body, (raw, Some(sent), Ok(decoded)), read),
        other matches Some(envelope) ==> envelope.schema@ != sent.schema@,
        call_ensures(decode_dm_attachment_body, (raw, other, other_decoded), plain),
    ensures
        read matches Ok((bytes, refs)) && bytes@ == body && refs@ == attachments@,
        plain matches Ok((bytes, refs)) && bytes@ == raw@ && refs@.len() == 0,
        sent.schema@ == "ramflux.sdk.dm_attachment_envelope.v1"@,
        sent.version == 1,
{
}

/// A text that stands for no bytes is told as such.
pub proof fn law_unreadable_body_is_refused(
    raw: Vec<u8>,
    body_base64: String,
    attachments: Vec<SdkDmAttachmentRef>,
    sent: SdkDmAttachmentEnvelope,
    words: String,
    read: Result<(Vec<u8>, Vec<SdkDmAttachmentRef>), SdkError>,
)
    requires
        call_ensures(dm_attachment_envelope, (body_base64, attachments), sent),
        call_ensures(decode_dm_attachment_body, (raw, Some(sent), Err(words)), read),
    ensures
        read matches Err(SdkError::LocalBus(text)) && text@ == "invalid DM attachment body: "@
            + words@,
{
}

/// What a node states of a message is kept for a report if it states what the message's own
/// ciphertext holds, and is refused if it differs from that in any of the four parts. Without a
/// statement nothing is kept.
pub proof fn law_report_rests_on_the_ciphertext(
    ciphertext: &DmCiphertext,
    sender_hash_text: &str,
    held: SdkDmFrankingMetadata,
    stated: SdkReceivedFrankingMetadata,
    franking: Option<&serde_json::Value>,
    envelope_id: String,
    opening: FrankingOpening,
    commitment: FrankingCommitment,
    kept: Result<Option<MessageMetadata>, SdkError>,
    absent: Result<Option<MessageMetadata>, SdkError>,
)
    requires
        call_ensures(SdkDmFrankingMetadata::from_ciphertext, (ciphertext, sender_hash_text), held),
        call_ensures(
            franking_report_metadata_for_delivery,
            (franking, Ok(stated), &held, envelope_id, opening, commitment),
            kept,
        ),
        call_ensures(
            franking_report_metadata_for_delivery,
            (None, Ok(stated), &held, envelope_id, opening, commitment),
            absent,
        ),
        kept != Ok::<Option<MessageMetadata>, SdkError>(None),
    ensures
        absent == Ok::<Option<MessageMetadata>, SdkError>(None),
        held.sender_device_id_hash@ == sender_hash_text@,
        held.message_event_id@ == ciphertext.message_event_id@,
        held.commitment@ == ciphertext.commitment@,
        held.ciphertext_hash@ == ciphertext.ciphertext_hash@,
        kept is Ok <==> {
            &&& stated.sender_device_id_hash@ == sender_hash_text@
            &&& stated.message_event_id@ == ciphertext.message_event_id@
            &&& stated.commitment@ == ciphertext.commitment@
            &&& stated.ciphertext_hash@ == ciphertext.ciphertext_hash@
        },
        kept matches Ok(Some(metadata)) ==> metadata.franking_report matches Some(report) && {
            &&& report.node_id@ == stated.node_id@
            &&& report.franking_tag@ == stated.franking_tag@
            &&& report.franking_timestamp == stated.accepted_at
            &&& report.envelope_id@ == envelope_id@
            &&& report.msg_event_id@ == ciphertext.message_event_id@
            &&& report.sender_device_id_hash@ == sender_hash_text@
            &&& report.plaintext_base64@ == opening.plaintext@
            &&& report.opening_key@ == opening.opening_key@
            &&& report.commitment_key@ == opening.commitment_key@
            &&& report.canonical_header_bytes@ == opening.canonical_header_bytes@
            &&& report.associated_data@ == opening.associated_data@
            &&& report.ciphertext@ == opening.ciphertext@
            &&& report.header_hash@ == commitment.header_hash@
            &&& report.associated_data_hash@ == commitment.associated_data_hash@
            &&& report.ciphertext_hash@ == commitment.ciphertext_hash@
            &&& report.franking_commitment@ == commitment.franking_commitment@
            &&& report.commitment@ == commitment.commitment@
        },
{
}

/// The evidence that a user selects is what was stored beside the message, part by part, with the
/// message's text; and it is given for every stored message of the conversation that has a report.
pub proof fn law_evidence_is_what_was_stored(
    client: &RamfluxClient,
    conversation_id: &str,
    message_id: &str,
    message: DirectMessageRecord,
    text: String,
    r: Result<SdkSelectedFrankingEvidence, SdkError>,
)
    requires
        call_ensures(
            RamfluxClient::selected_franking_evidence_for_direct_message,
            (client, conversation_id, message_id, Some(message), Ok(text)),
            r,
        ),
    ensures
        r is Ok <==> client.active_account_db is Some && message.conversation_id@ == conversation_id@
            && message.metadata.franking_report is Some,
        r matches Ok(e) ==> message.metadata.franking_report matches Some(f) && {
            &&& e.evidence_kind is ReceiverAttestedDm
            &&& e.node_id@ == f.node_id@
            &&& e.envelope_id@ == f.envelope_id@
            &&& e.plaintext_excerpt@ == text@
            &&& e.opening_key@ == f.opening_key@
            &&& e.commitment_key@ == f.commitment_key@
            &&& e.sender_device_id_hash@ == f.sender_device_id_hash@
            &&& e.msg_event_id@ == f.msg_event_id@
            &&& e.canonical_header_bytes@ == f.canonical_header_bytes@
            &&& e.associated_data@ == f.associated_data@
            &&& e.ciphertext@ == f.ciphertext@
            &&& e.header_hash@ == f.header_hash@
            &&& e.associated_data_hash@ == f.associated_data_hash@
            &&& e.ciphertext_hash@ == f.ciphertext_hash@
            &&& e.franking_commitment@ == f.franking_commitment@
            &&& e.commitment@ == f.commitment@
            &&& e.franking_tag@ == f.franking_tag@
            &&& e.franking_timestamp == f.franking_timestamp
            &&& e.group_header_signature is None
        },
{
}

/// The message that a receipt is about.
pub open spec fn receipt_subject(event: SdkReceiptEventBody) -> (Seq<char>, Seq<char>) {
    match event {
        SdkReceiptEventBody::Delivered { conversation_id, message_id, .. } => (
            conversation_id@,
            message_id@,
        ),
        SdkReceiptEventBody::ReadPrivate { conversation_id, message_id, .. } => (
            conversation_id@,
            message_id@,
        ),
        SdkReceiptEventBody::ReadPublic { conversation_id, message_id, .. } => (
            conversation_id@,
            message_id@,
        ),
    }
}

/// A receipt of a device about a message marks that message, for that device, with the time that the
/// receipt gives. One that is not from the device it names is refused, and so is a public one.
pub proof fn law_receipt_marks_its_message(
    client: &RamfluxClient,
    envelope: SdkReceiptEventEnvelope,
    source: &str,
    r: Result<Option<ReceiptPlan>, SdkError>,
    inserted: bool,
    mark: Option<AccountDbRequest>,
)
    requires
        client.active_account_db is Some,
        envelope.schema@ == "ramflux.sdk.receipt_event.v1"@,
        call_ensures(
            RamfluxClient::apply_receipt_event_plaintext,
            (client, &Some(envelope), source),
            r,
        ),
        r matches Ok(Some(plan)) ==> call_ensures(ReceiptPlan::marked, (plan, inserted), mark),
    ensures
        r is Ok <==> envelope.reader_device_id@ == source@ && match envelope.event {
            SdkReceiptEventBody::Delivered { receiver_device_id, .. } => receiver_device_id@
                == source@,
            SdkReceiptEventBody::ReadPrivate { reader_identity, .. } => reader_identity@ == source@,
            SdkReceiptEventBody::ReadPublic { .. } => false,
        },
        r matches Ok(done) ==> done is Some,
        r matches Ok(Some(plan)) ==> {
            let subject = receipt_subject(envelope.event);
            &&& plan.write.receipt_id@ == envelope.receipt_id@
            &&& plan.write.conversation_id@ == subject.0
            &&& plan.write.message_id@ == subject.1
            &&& plan.write.actor_device_id@ == source@
            &&& mark is Some <==> inserted
            &&& match envelope.event {
                SdkReceiptEventBody::Delivered { delivered_at, ttl_seconds, .. } => {
                    &&& plan.write.receipt_type@ == "delivered"@
                    &&& plan.write.created_at == delivered_at
                    &&& mark matches Some(q) ==> (q matches AccountDbRequest::MarkDelivered {
                        conversation_id,
                        receiver_device_id,
                        message_id,
                        delivered_at: at,
                        ttl_seconds: ttl,
                    } && conversation_id@ == subject.0 && message_id@ == subject.1
                        && receiver_device_id@ == source@ && at == delivered_at && ttl
                        == ttl_seconds)
                },
                SdkReceiptEventBody::ReadPrivate { read_at, .. } => {
                    &&& plan.write.receipt_type@ == "read"@
                    &&& plan.write.created_at == read_at
                    &&& mark matches Some(q) ==> (q matches AccountDbRequest::MarkRead {
                        conversation_id,
                        reader_id,
                        message_id,
                    } && conversation_id@ == subject.0 && message_id@ == subject.1 && reader_id@
                        == source@)
                },
                SdkReceiptEventBody::ReadPublic { .. } => false,
            }
        },
{
}

/// A message on its way to the gateway is recorded as it is sent.
pub proof fn law_submitted_message_is_recorded(
    client: &RamfluxClient,
    message: &GatewayDirectMessage,
    r: Result<AccountDbRequest, SdkError>,
)
    requires
        client.active_account_db is Some,
        call_ensures(RamfluxClient::send_direct_message_via_gateway, (client, message), r),
    ensures
        r matches Ok(AccountDbRequest::SendDirectMessage {
            conversation_id,
            message_id,
            sender_id,
            encrypted_body,
        }) && {
            &&& conversation_id@ == message.conversation_id@
            &&& message_id@ == message.message_id@
            &&& sender_id@ == message.sender_id@
            &&& encrypted_body@ == message.encrypted_body@
        },
{
}

/// A message that is listed by hand is listed as it is given.
pub proof fn law_given_message_is_listed(
    client: &RamfluxClient,
    conversation_id: &str,
    message_id: &str,
    sender_id: &str,
    encrypted_body: &[u8],
    metadata: MessageMetadata,
    plain: Result<AccountDbRequest, SdkError>,
    with: Result<AccountDbRequest, SdkError>,
)
    requires
        client.active_account_db is Some,
        call_ensures(
            RamfluxClient::send_direct_message,
            (client, conversation_id, message_id, sender_id, encrypted_body),
            plain,
        ),
        call_ensures(
            RamfluxClient::send_direct_message_with_metadata,
            (client, conversation_id, message_id, sender_id, encrypted_body, metadata),
            with,
        ),
    ensures
        plain matches Ok(AccountDbRequest::SendDirectMessage {
            conversation_id: c,
            message_id: m,
            sender_id: s,
            encrypted_body: b,
        }) && c@ == conversation_id@ && m@ == message_id@ && s@ == sender_id@ && b@
            == encrypted_body@,
        with matches Ok(AccountDbRequest::SendDirectMessageWithMetadata {
            conversation_id: c,
            message_id: m,
            sender_id: s,
            encrypted_body: b,
            metadata: k,
        }) && c@ == conversation_id@ && m@ == message_id@ && s@ == sender_id@ && b@
            == encrypted_body@ && k == metadata,
{
}

/// A decrypted message is listed under its envelope, in its conversation, in the name of its sender,
/// unless a message of that name is listed already.
pub proof fn law_received_message_is_listed_once(
    client: &RamfluxClient,
    conversation_id: &str,
    entry: &GatewayInboxEntry,
    messages: &Vec<DirectMessageRecord>,
    plaintext: &[u8],
    metadata: Option<MessageMetadata>,
    r: Result<Option<AccountDbRequest>, SdkError>,
)
    requires
        client.active_account_db is Some,
        call_ensures(
            RamfluxClient::append_plaintext_projection_once,
            (client, conversation_id, entry, messages, plaintext, metadata),
            r,
        ),
    ensures
        r matches Ok(Some(_)) <==> forall|i: int|
            0 <= i < messages@.len() ==> (#[trigger] messages@[i]).message_id@
                != entry.envelope.envelope_id@,
        r is Ok,
        r matches Ok(Some(AccountDbRequest::SendDirectMessage {
            conversation_id: c,
            message_id: m,
            sender_id: s,
            encrypted_body: b,
        })) ==> metadata is None && c@ == conversation_id@ && m@ == entry.envelope.envelope_id@
            && s@ == entry.envelope.source_principal_id@ && b@ == plaintext@,
        r matches Ok(Some(AccountDbRequest::SendDirectMessageWithMetadata {
            conversation_id: c,
            message_id: m,
            sender_id: s,
            encrypted_body: b,
            metadata: k,
        })) ==> metadata == Some(k) && c@ == conversation_id@ && m@ == entry.envelope.envelope_id@
            && s@ == entry.envelope.source_principal_id@ && b@ == plaintext@,
        r matches Ok(Some(q)) ==> q is SendDirectMessage || q is SendDirectMessageWithMetadata,
{
}

/// A delivery is recorded once, under its envelope, as it came.
pub proof fn law_delivery_is_recorded_as_it_came(
    client: &RamfluxClient,
    entry: &GatewayInboxEntry,
    recorded: bool,
    canonical: &[u8],
    r: Result<Option<AccountDbRequest>, SdkError>,
)
    requires
        client.active_account_db is Some,
        call_ensures(
            RamfluxClient::append_gateway_delivery,
            (client, entry, recorded, canonical),
            r,
        ),
    ensures
        r is Ok,
        r matches Ok(Some(_)) <==> !recorded,
        r matches Ok(Some(q)) ==> (q matches AccountDbRequest::AppendEvent {
            event_id,
            event_type,
            body,
        } && event_id@ == entry.envelope.envelope_id@ && event_type@ == "gateway.deliver.opaque"@
            && body@ == canonical@),
{
}

/// A message that is turned away is recorded with its sender, the reason and the time.
pub proof fn law_rejected_message_is_recorded(
    client: &RamfluxClient,
    conversation_id: &str,
    entry: &GatewayInboxEntry,
    reason: &str,
    now: i64,
    r: Result<AccountDbRequest, SdkError>,
)
    requires
        client.active_account_db is Some,
        call_ensures(
            RamfluxClient::reject_inbox_message,
            (client, conversation_id, entry, reason, now),
            r,
        ),
    ensures
        r matches Ok(AccountDbRequest::RejectInboxMessage {
            conversation_id: c,
            envelope_id,
            source_principal_id,
            reason: why,
            rejected_at,
        }) && c@ == conversation_id@ && envelope_id@ == entry.envelope.envelope_id@
            && source_principal_id@ == entry.envelope.source_principal_id@ && why@ == reason@
            && rejected_at == now,
{
}

/// A cursor that the gateway reports is kept under the inbox it is about, and read back as the same
/// number.
pub proof fn law_reported_cursor_is_read_back(
    client: &RamfluxClient,
    cursor: &GatewayCursor,
    target_delivery_id: &str,
    kept: Result<AccountDbRequest, SdkError>,
    asked: Result<AccountDbRequest, SdkError>,
    r: Result<u64, SdkError>,
)
    requires
        client.active_account_db is Some,
        target_delivery_id@ == cursor.target_delivery_id@,
        call_ensures(RamfluxClient::ack_gateway_delivery, (client, cursor), kept),
        call_ensures(RamfluxClient::gateway_cursor, (client, target_delivery_id), asked),
        call_ensures(
            crate::client::account::read_cursor_checkpoint,
            (Some(kept->Ok_0->SetProjectionCheckpoint_last_event_id),),
            r,
        ),
    ensures
        asked->Ok_0->ProjectionCheckpoint_projection_name@
            == kept->Ok_0->SetProjectionCheckpoint_projection_name@,
        asked matches Ok(AccountDbRequest::ProjectionCheckpoint { .. }),
        kept matches Ok(AccountDbRequest::SetProjectionCheckpoint { .. }),
        r == Ok::<u64, SdkError>(cursor.inbox_seq),
{
    crate::client::account::law_cursor_round_trip(
        cursor.inbox_seq,
        kept->Ok_0->SetProjectionCheckpoint_last_event_id,
    );
}

} // verus!
