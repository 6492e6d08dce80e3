//! Direct messages of the unlocked account: what is recorded of them, and their receipts.
use crate::client::state::RamfluxClient;
use crate::dm::{
    cursor_checkpoint_name, SdkDmAttachmentEnvelope, SdkDmAttachmentRef, SdkDmFrankingMetadata,
    SdkFrankingEvidenceKind, SdkReceiptEventBody, SdkReceiptEventEnvelope,
    SdkReceivedFrankingMetadata, SdkSelectedFrankingEvidence,
};
use crate::error::{is_local_bus, local_bus, SdkError};
use crate::gateway::engine::GatewayDirectMessage;
use crate::gateway::protocol::{GatewayCursor, GatewayInboxEntry};
use crate::json::{field_of, json_field, json_members, JsonField};
use crate::records::{
    sends_message, AccountDbRequest, DirectMessageRecord, FrankingReportMetadata, MessageMetadata,
    ReceiptEventWrite,
};
use crate::text::{decimal, str_eq};
use vstd::prelude::*;

verus! {

// ---- receipts ----

/// What a receipt has recorded, and what it marks if it had not been recorded before.
#[derive(Clone, Debug, PartialEq, Eq)]
pub struct ReceiptPlan {
    pub write: ReceiptEventWrite,
    pub mark: AccountDbRequest,
}

impl ReceiptPlan {
    /// What is marked, once it is known whether the receipt was recorded anew.
    pub fn marked(self, inserted: bool) -> (r: Option<AccountDbRequest>)
        ensures
            r == (if inserted {
                Some(self.mark)
            } else {
                None
            }),
    {
        if inserted {
            Some(self.mark)
        } else {
            None
        }
    }
}

/// Whether `plan` records a receipt and marks its message.
pub open spec fn is_receipt_plan(plan: ReceiptPlan, envelope: SdkReceiptEventEnvelope) -> bool {
    &&& plan.write.receipt_id@ == envelope.receipt_id@
    &&& match envelope.event {
        SdkReceiptEventBody::Delivered {
            conversation_id,
            message_id,
            delivered_at,
            receiver_device_id,
            scope,
            ttl_seconds,
        } => {
            &&& plan.write.conversation_id@ == conversation_id@
            &&& plan.write.message_id@ == message_id@
            &&& plan.write.receipt_type@ == "delivered"@
            &&& plan.write.actor_device_id@ == receiver_device_id@
            &&& plan.write.created_at == delivered_at
            &&& plan.mark matches AccountDbRequest::MarkDelivered {
                conversation_id: c,
                receiver_device_id: d,
                message_id: m,
                delivered_at: at,
                ttl_seconds: ttl,
            } && c@ == conversation_id@ && d@ == receiver_device_id@ && m@ == message_id@ && at
                == delivered_at && ttl == ttl_seconds
        },
        SdkReceiptEventBody::ReadPrivate {
            conversation_id,
            message_id,
            reader_identity,
            read_at,
            own_device_scope,
        } => {
            &&& plan.write.conversation_id@ == conversation_id@
            &&& plan.write.message_id@ == message_id@
            &&& plan.write.receipt_type@ == "read"@
            &&& plan.write.actor_device_id@ == reader_identity@
            &&& plan.write.created_at == read_at
            &&& plan.mark matches AccountDbRequest::MarkRead {
                conversation_id: c,
                reader_id: d,
                message_id: m,
            } && c@ == conversation_id@ && d@ == reader_identity@ && m@ == message_id@
        },
        SdkReceiptEventBody::ReadPublic { .. } => false,
    }
}

/// The complaint that a receipt names a device other than the one that sent it.
pub open spec fn mismatch_text(what: Seq<char>, claimed: Seq<char>, source: Seq<char>) -> Seq<char> {
    what + " mismatch: claimed "@ + claimed + ", authenticated "@ + source
}

fn mismatch(what: &str, claimed: &str, source: &str) -> (e: SdkError)
    ensures
        is_local_bus(Err::<(), SdkError>(e), mismatch_text(what@, claimed@, source@)),
{
    let text = what.to_owned().concat(" mismatch: claimed ").concat(claimed).concat(
        ", authenticated ",
    ).concat(source);
    local_bus(text.as_str())
}

/// Whether `r` is the answer to a plaintext that was read as the given receipt, if it was one, and
/// that the device `source` has sent.
pub open spec fn is_receipt_answer(
    r: Result<Option<ReceiptPlan>, SdkError>,
    unlocked: bool,
    parsed: Option<SdkReceiptEventEnvelope>,
    source: Seq<char>,
) -> bool {
    match parsed {
        None => r matches Ok(None),
        Some(envelope) => if envelope.schema@ != "ramflux.sdk.receipt_event.v1"@ {
            r matches Ok(None)
        } else if envelope.reader_device_id@ != source {
            is_local_bus(
                r,
                mismatch_text("receipt reader_device_id"@, envelope.reader_device_id@, source),
            )
        } else {
            match envelope.event {
                SdkReceiptEventBody::Delivered { receiver_device_id, .. } => if receiver_device_id@
                    != source {
                    is_local_bus(
                        r,
                        mismatch_text(
                            "receipt receiver_device_id"@,
                            receiver_device_id@,
                            source,
                        ),
                    )
                } else if !unlocked {
                    r matches Err(SdkError::AccountDbNotUnlocked)
                } else {
                    r matches Ok(Some(plan)) && is_receipt_plan(plan, envelope)
                },
                SdkReceiptEventBody::ReadPrivate { reader_identity, .. } => if reader_identity@
                    != source {
                    is_local_bus(
                        r,
                        mismatch_text("receipt reader identity"@, reader_identity@, source),
                    )
                } else if !unlocked {
                    r matches Err(SdkError::AccountDbNotUnlocked)
                } else {
                    r matches Ok(Some(plan)) && is_receipt_plan(plan, envelope)
                },
                SdkReceiptEventBody::ReadPublic { .. } => is_local_bus(
                    r,
                    "public read receipts are not accepted on the E2EE receipt path"@,
                ),
            }
        },
    }
}

/// A device can only give receipts in its own name: what a receipt records names the device that
/// sent it.
pub proof fn law_receipts_name_their_sender(
    r: Result<Option<ReceiptPlan>, SdkError>,
    unlocked: bool,
    parsed: Option<SdkReceiptEventEnvelope>,
    source: Seq<char>,
)
    requires
        is_receipt_answer(r, unlocked, parsed, source),
        r matches Ok(Some(_)),
    ensures
        r->Ok_0->Some_0.write.actor_device_id@ == source,
        parsed is Some && parsed->0.reader_device_id@ == source,
{
}

// ---- reports ----

/// What the crypto library computes for a report. All are base64url texts.
#[derive(Clone, Debug, PartialEq, Eq)]
pub struct FrankingCommitment {
    pub header_hash: String,
    pub associated_data_hash: String,
    pub ciphertext_hash: String,
    pub franking_commitment: String,
    pub commitment: String,
}

/// What a report opens of a message, as base64url texts.
#[derive(Clone, Debug, PartialEq, Eq)]
pub struct FrankingOpening {
    pub plaintext: String,
    pub opening_key: String,
    pub commitment_key: String,
    pub canonical_header_bytes: String,
    pub associated_data: String,
    pub ciphertext: String,
}

/// Whether a node has stated all that a report needs.
pub open spec fn node_has_stated(franking: Option<serde_json::Value>) -> bool {
    franking matches Some(value) && {
        &&& !(field_of(json_members(value), "franking_tag"@) is Absent)
        &&& !(field_of(json_members(value), "node_id"@) is Absent)
        &&& !(field_of(json_members(value), "accepted_at"@) is Absent)
    }
}

/// Whether what a node has stated agrees with what the ciphertext holds.
pub open spec fn franking_agrees(f: SdkReceivedFrankingMetadata, held: SdkDmFrankingMetadata) -> bool {
    &&& f.sender_device_id_hash@ == held.sender_device_id_hash@
    &&& f.message_event_id@ == held.message_event_id@
    &&& f.commitment@ == held.commitment@
    &&& f.ciphertext_hash@ == held.ciphertext_hash@
}

/// What is kept of a message for the case that it is reported.
pub open spec fn report_of(
    f: SdkReceivedFrankingMetadata,
    envelope_id: String,
    opening: FrankingOpening,
    commitment: FrankingCommitment,
) -> FrankingReportMetadata {
    FrankingReportMetadata {
        node_id: f.node_id,
        envelope_id,
        plaintext_base64: opening.plaintext,
        opening_key: opening.opening_key,
        commitment_key: opening.commitment_key,
        sender_device_id_hash: f.sender_device_id_hash,
        msg_event_id: f.message_event_id,
        canonical_header_bytes: opening.canonical_header_bytes,
        associated_data: opening.associated_data,
        ciphertext: opening.ciphertext,
        header_hash: commitment.header_hash,
        associated_data_hash: commitment.associated_data_hash,
        ciphertext_hash: commitment.ciphertext_hash,
        franking_commitment: commitment.franking_commitment,
        commitment: commitment.commitment,
        franking_tag: f.franking_tag,
        franking_timestamp: f.accepted_at,
    }
}

fn is_absent(field: &JsonField) -> (r: bool)
    ensures
        r == (field@ is Absent),
{
    match field {
        JsonField::Absent => true,
        _ => false,
    }
}

/// What is kept of a message for the case that it is reported. `franking` is the value that the
/// envelope carries, `parsed` is what it reads as, and `held` is what the ciphertext holds.
pub fn franking_report_metadata_for_delivery(
    franking: Option<&serde_json::Value>,
    parsed: Result<SdkReceivedFrankingMetadata, SdkError>,
    held: &SdkDmFrankingMetadata,
    envelope_id: String,
    opening: FrankingOpening,
    commitment: FrankingCommitment,
) -> (r: Result<Option<MessageMetadata>, SdkError>)
    ensures
        if !node_has_stated(
            match franking {
                Some(value) => Some(*value),
                None => None,
            },
        ) {
            r == Ok::<Option<MessageMetadata>, SdkError>(None)
        } else {
            match parsed {
                Err(error) => r == Err::<Option<MessageMetadata>, SdkError>(error),
                Ok(f) => if franking_agrees(f, *held) {
                    r == Ok::<Option<MessageMetadata>, SdkError>(
                        Some(
                            MessageMetadata {
                                franking_report: Some(
                                    report_of(f, envelope_id, opening, commitment),
                                ),
                            },
                        ),
                    )
                } else {
                    is_local_bus(r, "received franking metadata does not match DM ciphertext"@)
                },
            }
        },
{
    let value = match franking {
        Some(value) => value,
        None => {
            return Ok(None);
        },
    };
    let tag = json_field(value, "franking_tag");
    let node = json_field(value, "node_id");
    let accepted = json_field(value, "accepted_at");
    if is_absent(&tag) || is_absent(&node) || is_absent(&accepted) {
        return Ok(None);
    }
    let f = match parsed {
        Ok(f) => f,
        Err(error) => {
            return Err(error);
        },
    };
    if f.sender_device_id_hash != held.sender_device_id_hash || f.message_event_id
        != held.message_event_id || f.commitment != held.commitment || f.ciphertext_hash
        != held.ciphertext_hash {
        return Err(local_bus("received franking metadata does not match DM ciphertext"));
    }
    Ok(
        Some(
            MessageMetadata {
                franking_report: Some(
                    FrankingReportMetadata {
                        node_id: f.node_id,
                        envelope_id,
                        plaintext_base64: opening.plaintext,
                        opening_key: opening.opening_key,
                        commitment_key: opening.commitment_key,
                        sender_device_id_hash: f.sender_device_id_hash,
                        msg_event_id: f.message_event_id,
                        canonical_header_bytes: opening.canonical_header_bytes,
                        associated_data: opening.associated_data,
                        ciphertext: opening.ciphertext,
                        header_hash: commitment.header_hash,
                        associated_data_hash: commitment.associated_data_hash,
                        ciphertext_hash: commitment.ciphertext_hash,
                        franking_commitment: commitment.franking_commitment,
                        commitment: commitment.commitment,
                        franking_tag: f.franking_tag,
                        franking_timestamp: f.accepted_at,
                    },
                ),
            },
        ),
    )
}

/// Why a stored plaintext cannot be shown.
#[derive(Clone, Debug, PartialEq, Eq)]
pub enum ExcerptError {
    /// It is not base64url text, for the reason given.
    NotBase64(String),
    /// It is not UTF-8, for the reason given.
    NotUtf8(String),
}

/// The evidence that a stored report and its plaintext make.
pub open spec fn evidence_of(f: FrankingReportMetadata, plaintext: String) -> SdkSelectedFrankingEvidence {
    SdkSelectedFrankingEvidence {
        evidence_kind: SdkFrankingEvidenceKind::ReceiverAttestedDm,
        node_id: f.node_id,
        envelope_id: f.envelope_id,
        plaintext_excerpt: plaintext,
        opening_key: f.opening_key,
        commitment_key: f.commitment_key,
        sender_device_id_hash: f.sender_device_id_hash,
        msg_event_id: f.msg_event_id,
        canonical_header_bytes: f.canonical_header_bytes,
        associated_data: f.associated_data,
        ciphertext: f.ciphertext,
        header_hash: f.header_hash,
        associated_data_hash: f.associated_data_hash,
        ciphertext_hash: f.ciphertext_hash,
        franking_commitment: f.franking_commitment,
        commitment: f.commitment,
        franking_tag: f.franking_tag,
        franking_timestamp: f.franking_timestamp,
        group_header_signature: None,
    }
}

/// The evidence of a report is what the node stated and what the message opens: nothing is lost or
/// exchanged between taking a message in and reporting it.
pub proof fn law_evidence_is_what_was_received(
    f: SdkReceivedFrankingMetadata,
    envelope_id: String,
    opening: FrankingOpening,
    commitment: FrankingCommitment,
    plaintext: String,
)
    ensures
        ({
            let e = evidence_of(report_of(f, envelope_id, opening, commitment), plaintext);
            &&& e.node_id == f.node_id
            &&& e.franking_tag == f.franking_tag
            &&& e.franking_timestamp == f.accepted_at
            &&& e.msg_event_id == f.message_event_id
            &&& e.sender_device_id_hash == f.sender_device_id_hash
            &&& e.envelope_id == envelope_id
            &&& e.opening_key == opening.opening_key
            &&& e.commitment_key == opening.commitment_key
            &&& e.ciphertext == opening.ciphertext
            &&& e.commitment == commitment.commitment
            &&& e.plaintext_excerpt == plaintext
        }),
{
}

// ---- bodies ----

/// The bytes of an attachment that is sent. `decoded` is what its base64url text stands for, or why it
/// stands for nothing.
pub fn attachment_plaintext(decoded: Result<Vec<u8>, String>) -> (r: Result<Vec<u8>, SdkError>)
    ensures
        match decoded {
            Ok(bytes) => r == Ok::<Vec<u8>, SdkError>(bytes),
            Err(words) => is_local_bus(r, "invalid attachment body: "@ + words@),
        },
{
    match decoded {
        Ok(bytes) => Ok(bytes),
        Err(words) => {
            let text = "invalid attachment body: ".to_owned().concat(words.as_str());
            Err(local_bus(text.as_str()))
        },
    }
}

/// The body and the attachments of a plaintext. `parsed` is what it reads as, and `decoded` the
/// bytes that the body in it stands for, or why it stands for none.
pub fn decode_dm_attachment_body(
    body: Vec<u8>,
    parsed: Option<SdkDmAttachmentEnvelope>,
    decoded: Result<Vec<u8>, String>,
) -> (r: Result<(Vec<u8>, Vec<SdkDmAttachmentRef>), SdkError>)
    ensures
        match parsed {
            Some(envelope) if envelope.schema@ == "ramflux.sdk.dm_attachment_envelope.v1"@ =>
                match decoded {
                Ok(bytes) => r matches Ok((b, refs)) && b == bytes && refs == envelope.attachments,
                Err(words) => is_local_bus(r, "invalid DM attachment body: "@ + words@),
            },
            _ => r matches Ok((b, refs)) && b == body && refs@.len() == 0,
        },
{
    let envelope = match parsed {
        Some(envelope) => envelope,
        None => {
            return Ok((body, Vec::new()));
        },
    };
    if !str_eq(envelope.schema.as_str(), "ramflux.sdk.dm_attachment_envelope.v1") {
        return Ok((body, Vec::new()));
    }
    match decoded {
        Ok(bytes) => Ok((bytes, envelope.attachments)),
        Err(words) => {
            let text = "invalid DM attachment body: ".to_owned().concat(words.as_str());
            Err(local_bus(text.as_str()))
        },
    }
}

/// Whether a message is among those listed.
pub open spec fn is_listed(messages: Seq<DirectMessageRecord>, message_id: Seq<char>) -> bool {
    exists|i: int| 0 <= i < messages.len() && (#[trigger] messages[i]).message_id@ == message_id
}

/// Whether a message is among those listed.
pub fn message_is_listed(messages: &Vec<DirectMessageRecord>, message_id: &str) -> (r: bool)
    ensures
        r == is_listed(messages@, message_id@),
{
    let mut i: usize = 0;
    while i < messages.len()
        invariant
            i <= messages.len(),
            forall|j: int| 0 <= j < i ==> (#[trigger] messages@[j]).message_id@ != message_id@,
        decreases messages.len() - i,
    {
        if str_eq(messages[i].message_id.as_str(), message_id) {
            assert(messages@[i as int].message_id@ == message_id@);
            return true;
        }
        i = i + 1;
    }
    false
}

impl RamfluxClient {
    /// Records a message.
    pub fn send_direct_message(
        &self,
        conversation_id: &str,
        message_id: &str,
        sender_id: &str,
        encrypted_body: &[u8],
    ) -> (r: Result<AccountDbRequest, SdkError>)
        ensures
            if self.unlocked() {
                r matches Ok(request) && sends_message(
                    request,
                    conversation_id@,
                    message_id@,
                    sender_id@,
                    encrypted_body@,
                    None,
                )
            } else {
                r == Err::<AccountDbRequest, SdkError>(SdkError::AccountDbNotUnlocked)
            },
    {
        match self.account_db() {
            Ok(_) => Ok(
                AccountDbRequest::SendDirectMessage {
                    conversation_id: conversation_id.to_owned(),
                    message_id: message_id.to_owned(),
                    sender_id: sender_id.to_owned(),
                    encrypted_body: vstd::slice::slice_to_vec(encrypted_body),
                },
            ),
            Err(error) => Err(error),
        }
    }

    /// Records a message, and what is kept beside it.
    pub fn send_direct_message_with_metadata(
        &self,
        conversation_id: &str,
        message_id: &str,
        sender_id: &str,
        encrypted_body: &[u8],
        metadata: MessageMetadata,
    ) -> (r: Result<AccountDbRequest, SdkError>)
        ensures
            if self.unlocked() {
                r matches Ok(request) && sends_message(
                    request,
                    conversation_id@,
                    message_id@,
                    sender_id@,
                    encrypted_body@,
                    Some(metadata),
                )
            } else {
                r == Err::<AccountDbRequest, SdkError>(SdkError::AccountDbNotUnlocked)
            },
    {
        match self.account_db() {
            Ok(_) => Ok(
                AccountDbRequest::SendDirectMessageWithMetadata {
                    conversation_id: conversation_id.to_owned(),
                    message_id: message_id.to_owned(),
                    sender_id: sender_id.to_owned(),
                    encrypted_body: vstd::slice::slice_to_vec(encrypted_body),
                    metadata,
                },
            ),
            Err(error) => Err(error),
        }
    }

    /// Records a message on its way to the gateway, before its envelope is submitted.
    pub fn send_direct_message_via_gateway(&self, message: &GatewayDirectMessage) -> (r: Result<
        AccountDbRequest,
        SdkError,
    >)
        ensures
            if self.unlocked() {
                r matches Ok(
                    AccountDbRequest::SendDirectMessage {
                        conversation_id,
                        message_id,
                        sender_id,
                        encrypted_body,
                    },
                ) && {
                    &&& conversation_id@ == message.conversation_id@
                    &&& message_id@ == message.message_id@
                    &&& sender_id@ == message.sender_id@
                    &&& encrypted_body@ == message.encrypted_body@
                }
            } else {
                r == Err::<AccountDbRequest, SdkError>(SdkError::AccountDbNotUnlocked)
            },
    {
        self.send_direct_message(
            message.conversation_id.as_str(),
            message.message_id.as_str(),
            message.sender_id.as_str(),
            message.encrypted_body.as_slice(),
        )
    }

    /// Records an envelope as it came, unless it is recorded already. `canonical` is the envelope's
    /// canonical form.
    pub fn append_gateway_delivery(
        &self,
        entry: &GatewayInboxEntry,
        recorded: bool,
        canonical: &[u8],
    ) -> (r: Result<Option<AccountDbRequest>, SdkError>)
        ensures
            if !self.unlocked() {
                r matches Err(SdkError::AccountDbNotUnlocked)
            } else if recorded {
                r matches Ok(None)
            } else {
                r matches Ok(Some(AccountDbRequest::AppendEvent { event_id, event_type, body })) && {
                    &&& event_id@ == entry.envelope.envelope_id@
                    &&& event_type@ == "gateway.deliver.opaque"@
                    &&& body@ == canonical@
                }
            },
    {
        match self.account_db() {
            Ok(_) => {},
            Err(error) => {
                return Err(error);
            },
        }
        if recorded {
            return Ok(None);
        }
        match self.append_event(
            entry.envelope.envelope_id.as_str(),
            "gateway.deliver.opaque",
            canonical,
        ) {
            Ok(request) => Ok(Some(request)),
            Err(error) => Err(error),
        }
    }

    /// Lists a decrypted message under its envelope's name, unless it is listed already.
    pub fn append_plaintext_projection_once(
        &self,
        conversation_id: &str,
        entry: &GatewayInboxEntry,
        messages: &Vec<DirectMessageRecord>,
        plaintext: &[u8],
        metadata: Option<MessageMetadata>,
    ) -> (r: Result<Option<AccountDbRequest>, SdkError>)
        ensures
            if !self.unlocked() {
                r matches Err(SdkError::AccountDbNotUnlocked)
            } else if is_listed(messages@, entry.envelope.envelope_id@) {
                r matches Ok(None)
            } else {
                match metadata {
                    Some(kept) => r matches Ok(
                        Some(
                            AccountDbRequest::SendDirectMessageWithMetadata {
                                conversation_id: c,
                                message_id: m,
                                sender_id: s,
                                encrypted_body: b,
                                metadata: k,
                            },
                        ),
                    ) && c@ == conversation_id@ && m@ == entry.envelope.envelope_id@ && s@
                        == entry.envelope.source_principal_id@ && b@ == plaintext@ && k == kept,
                    None => r matches Ok(
                        Some(
                            AccountDbRequest::SendDirectMessage {
                                conversation_id: c,
                                message_id: m,
                                sender_id: s,
                                encrypted_body: b,
                            },
                        ),
                    ) && c@ == conversation_id@ && m@ == entry.envelope.envelope_id@ && s@
                        == entry.envelope.source_principal_id@ && b@ == plaintext@,
                }
            },
    {
        match self.account_db() {
            Ok(_) => {},
            Err(error) => {
                return Err(error);
            },
        }
        let message_id = entry.envelope.envelope_id.as_str();
        if message_is_listed(messages, message_id) {
            return Ok(None);
        }
        let sender_id = entry.envelope.source_principal_id.as_str();
        let request = match metadata {
            Some(kept) => self.send_direct_message_with_metadata(
                conversation_id,
                message_id,
                sender_id,
                plaintext,
                kept,
            ),
            None => self.send_direct_message(conversation_id, message_id, sender_id, plaintext),
        };
        match request {
            Ok(request) => Ok(Some(request)),
            Err(error) => Err(error),
        }
    }

    /// Keeps how far an inbox has been acknowledged, by what the gateway answered.
    pub fn ack_gateway_delivery(&self, cursor: &GatewayCursor) -> (r: Result<
        AccountDbRequest,
        SdkError,
    >)
        ensures
            if self.unlocked() {
                r matches Ok(
                    AccountDbRequest::SetProjectionCheckpoint { projection_name, last_event_id },
                ) && projection_name@ == cursor_checkpoint_name(cursor.target_delivery_id@)
                    && last_event_id@ == decimal(cursor.inbox_seq as nat)
            } else {
                r == Err::<AccountDbRequest, SdkError>(SdkError::AccountDbNotUnlocked)
            },
    {
        self.persist_gateway_cursor(cursor.target_delivery_id.as_str(), cursor.inbox_seq)
    }

    /// Records that a message was turned away.
    pub fn reject_inbox_message(
        &self,
        conversation_id: &str,
        entry: &GatewayInboxEntry,
        reason: &str,
        now: i64,
    ) -> (r: Result<AccountDbRequest, SdkError>)
        ensures
            if self.unlocked() {
                r matches Ok(
                    AccountDbRequest::RejectInboxMessage {
                        conversation_id: c,
                        envelope_id: e,
                        source_principal_id: s,
                        reason: why,
                        rejected_at: at,
                    },
                ) && c@ == conversation_id@ && e@ == entry.envelope.envelope_id@ && s@
                    == entry.envelope.source_principal_id@ && why@ == reason@ && at == now
            } else {
                r == Err::<AccountDbRequest, SdkError>(SdkError::AccountDbNotUnlocked)
            },
    {
        match self.account_db() {
            Ok(_) => Ok(
                AccountDbRequest::RejectInboxMessage {
                    conversation_id: conversation_id.to_owned(),
                    envelope_id: entry.envelope.envelope_id.clone(),
                    source_principal_id: entry.envelope.source_principal_id.clone(),
                    reason: reason.to_owned(),
                    rejected_at: now,
                },
            ),
            Err(error) => Err(error),
        }
    }

    /// What is recorded of a plaintext that reads as a receipt. A plaintext that is none is left
    /// alone, and a receipt in another's name is refused.
    pub fn apply_receipt_event_plaintext(
        &self,
        parsed: &Option<SdkReceiptEventEnvelope>,
        authenticated_source_device_id: &str,
    ) -> (r: Result<Option<ReceiptPlan>, SdkError>)
        ensures
            is_receipt_answer(r, self.unlocked(), *parsed, authenticated_source_device_id@),
    {
        let envelope = match parsed {
            Some(envelope) => envelope,
            None => {
                return Ok(None);
            },
        };
        if !str_eq(envelope.schema.as_str(), "ramflux.sdk.receipt_event.v1") {
            return Ok(None);
        }
        if !str_eq(envelope.reader_device_id.as_str(), authenticated_source_device_id) {
            return Err(
                mismatch(
                    "receipt reader_device_id",
                    envelope.reader_device_id.as_str(),
                    authenticated_source_device_id,
                ),
            );
        }
        match &envelope.event {
            SdkReceiptEventBody::Delivered {
                conversation_id,
                message_id,
                delivered_at,
                receiver_device_id,
                scope,
                ttl_seconds,
            } => {
                if !str_eq(receiver_device_id.as_str(), authenticated_source_device_id) {
                    return Err(
                        mismatch(
                            "receipt receiver_device_id",
                            receiver_device_id.as_str(),
                            authenticated_source_device_id,
                        ),
                    );
                }
                let mark = match self.mark_delivered(
                    conversation_id.as_str(),
                    receiver_device_id.as_str(),
                    message_id.as_str(),
                    *delivered_at,
                    *ttl_seconds as i64,
                ) {
                    Ok(mark) => mark,
                    Err(error) => {
                        return Err(error);
                    },
                };
                Ok(
                    Some(
                        ReceiptPlan {
                            write: ReceiptEventWrite {
                                receipt_id: envelope.receipt_id.clone(),
                                conversation_id: conversation_id.clone(),
                                message_id: message_id.clone(),
                                receipt_type: "delivered".to_owned(),
                                actor_device_id: receiver_device_id.clone(),
                                created_at: *delivered_at,
                            },
                            mark,
                        },
                    ),
                )
            },
            SdkReceiptEventBody::ReadPrivate {
                conversation_id,
                message_id,
                reader_identity,
                read_at,
                own_device_scope,
            } => {
                if !str_eq(reader_identity.as_str(), authenticated_source_device_id) {
                    return Err(
                        mismatch(
                            "receipt reader identity",
                            reader_identity.as_str(),
                            authenticated_source_device_id,
                        ),
                    );
                }
                let mark = match self.mark_read(
                    conversation_id.as_str(),
                    reader_identity.as_str(),
                    message_id.as_str(),
                ) {
                    Ok(mark) => mark,
                    Err(error) => {
                        return Err(error);
                    },
                };
                Ok(
                    Some(
                        ReceiptPlan {
                            write: ReceiptEventWrite {
                                receipt_id: envelope.receipt_id.clone(),
                                conversation_id: conversation_id.clone(),
                                message_id: message_id.clone(),
                                receipt_type: "read".to_owned(),
                                actor_device_id: reader_identity.clone(),
                                created_at: *read_at,
                            },
                            mark,
                        },
                    ),
                )
            },
            SdkReceiptEventBody::ReadPublic { .. } => Err(
                local_bus("public read receipts are not accepted on the E2EE receipt path"),
            ),
        }
    }

    /// The evidence with which a stored message is reported. `message` is the message with that
    /// name, and `plaintext` the text of what is stored for its report.
    pub fn selected_franking_evidence_for_direct_message(
        &self,
        conversation_id: &str,
        message_id: &str,
        message: Option<DirectMessageRecord>,
        plaintext: Result<String, ExcerptError>,
    ) -> (r: Result<SdkSelectedFrankingEvidence, SdkError>)
        ensures
            if !self.unlocked() {
                r matches Err(SdkError::AccountDbNotUnlocked)
            } else {
                match message {
                    None => is_local_bus(r, "message not found: "@ + message_id@),
                    Some(stored) => if stored.conversation_id@ != conversation_id@ {
                        is_local_bus(
                            r,
                            "message "@ + message_id@ + " is not in conversation "@
                                + conversation_id@,
                        )
                    } else {
                        match stored.metadata.franking_report {
                            None => is_local_bus(
                                r,
                                "message has no stored franking evidence: "@ + message_id@,
                            ),
                            Some(f) => match plaintext {
                                Ok(text) => r == Ok::<SdkSelectedFrankingEvidence, SdkError>(
                                    evidence_of(f, text),
                                ),
                                Err(ExcerptError::NotBase64(words)) => is_local_bus(
                                    r,
                                    "invalid stored plaintext: "@ + words@,
                                ),
                                Err(ExcerptError::NotUtf8(words)) => is_local_bus(
                                    r,
                                    "stored plaintext is not UTF-8 evidence: "@ + words@,
                                ),
                            },
                        }
                    },
                }
            },
    {
        match self.account_db() {
            Ok(_) => {},
            Err(error) => {
                return Err(error);
            },
        }
        let stored = match message {
            Some(stored) => stored,
            None => {
                let text = "message not found: ".to_owned().concat(message_id);
                return Err(local_bus(text.as_str()));
            },
        };
        if !str_eq(stored.conversation_id.as_str(), conversation_id) {
            let text = "message ".to_owned().concat(message_id).concat(
                " is not in conversation ",
            ).concat(conversation_id);
            return Err(local_bus(text.as_str()));
        }
        let f = match stored.metadata.franking_report {
            Some(f) => f,
            None => {
                let text = "message has no stored franking evidence: ".to_owned().concat(message_id);
                return Err(local_bus(text.as_str()));
            },
        };
        let plaintext_excerpt = match plaintext {
            Ok(text) => text,
            Err(ExcerptError::NotBase64(words)) => {
                let text = "invalid stored plaintext: ".to_owned().concat(words.as_str());
                return Err(local_bus(text.as_str()));
            },
            Err(ExcerptError::NotUtf8(words)) => {
                let text = "stored plaintext is not UTF-8 evidence: ".to_owned().concat(
                    words.as_str(),
                );
                return Err(local_bus(text.as_str()));
            },
        };
        Ok(
            SdkSelectedFrankingEvidence {
                evidence_kind: SdkFrankingEvidenceKind::ReceiverAttestedDm,
                node_id: f.node_id,
                envelope_id: f.envelope_id,
                plaintext_excerpt,
                opening_key: f.opening_key,
                commitment_key: f.commitment_key,
                sender_device_id_hash: f.sender_device_id_hash,
                msg_event_id: f.msg_event_id,
                canonical_header_bytes: f.canonical_header_bytes,
                associated_data: f.associated_data,
                ciphertext: f.ciphertext,
                header_hash: f.header_hash,
                associated_data_hash: f.associated_data_hash,
                ciphertext_hash: f.ciphertext_hash,
                franking_commitment: f.franking_commitment,
                commitment: f.commitment,
                franking_tag: f.franking_tag,
                franking_timestamp: f.franking_timestamp,
                group_header_signature: None,
            },
        )
    }
}

} // verus!
