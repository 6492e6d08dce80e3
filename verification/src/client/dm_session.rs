//! The sessions of direct messages: how they are kept, found again and begun.
use crate::client::account::{checkpoint_cursor, read_cursor_checkpoint};
use crate::client::state::RamfluxClient;
use crate::dm::{
    dm_attachment_slot_conversation_id, dm_session_checkpoint_name, dm_session_event_id,
    attachment_slot_id, session_checkpoint_name, session_event_id, x3dh_private_checkpoint_name,
    SdkDmX3dhHeader, SdkX3dhPrivateState,
};
use crate::error::{is_local_bus, local_bus, SdkError, StorageError};
use crate::prekey::PrekeyBundle;
use crate::records::{AccountDbRequest, EventLog, EventWrite};
use crate::text::str_eq;
use vstd::prelude::*;

verus! {

/// Whether `w` keeps the session of one direction of a conversation as it stood after an envelope.
pub open spec fn keeps_session(
    w: EventWrite,
    conversation_id: Seq<char>,
    envelope_id: Seq<char>,
    direction: Seq<char>,
    snapshot: Seq<u8>,
) -> bool {
    &&& w.event matches AccountDbRequest::AppendEvent { event_id, event_type, body } && event_id@
        == session_event_id(conversation_id, direction, envelope_id) && event_type@
        == "dm.ratchet_session"@ && body@ == snapshot
    &&& w.checkpoint matches AccountDbRequest::SetProjectionCheckpoint {
        projection_name,
        last_event_id,
    } && projection_name@ == session_checkpoint_name(conversation_id, direction) && last_event_id@
        == session_event_id(conversation_id, direction, envelope_id)
}

/// Whether a checkpoint is at an envelope.
pub open spec fn checkpoint_is_at(
    checkpoint: Option<Seq<char>>,
    conversation_id: Seq<char>,
    envelope_id: Seq<char>,
) -> bool {
    checkpoint == Some(session_event_id(conversation_id, "recv"@, envelope_id))
}

/// A receiving session that has been kept after an envelope is at that envelope, and at no other.
pub proof fn law_kept_session_is_at_its_envelope(
    w: EventWrite,
    conversation_id: Seq<char>,
    envelope_id: Seq<char>,
    snapshot: Seq<u8>,
    other: Seq<char>,
)
    requires
        keeps_session(w, conversation_id, envelope_id, "recv"@, snapshot),
        other != envelope_id,
    ensures
        checkpoint_is_at(
            Some(w.checkpoint->SetProjectionCheckpoint_last_event_id@),
            conversation_id,
            envelope_id,
        ),
        !checkpoint_is_at(
            Some(w.checkpoint->SetProjectionCheckpoint_last_event_id@),
            conversation_id,
            other,
        ),
{
    crate::dm::law_session_events_are_told_apart(conversation_id, "recv"@, envelope_id, other);
}

/// What a session is read from: the snapshot that the checkpoint points to. There is none without a
/// checkpoint, nor without the event that it names.
pub fn load_dm_session(
    conversation_id: &str,
    direction: &str,
    checkpoint: Option<String>,
    snapshot: Option<Vec<u8>>,
) -> (r: Result<Vec<u8>, SdkError>)
    ensures
        match (checkpoint, snapshot) {
            (Some(_), Some(bytes)) => r == Ok::<Vec<u8>, SdkError>(bytes),
            _ => is_local_bus(
                r,
                "missing DM session for "@ + conversation_id@ + " direction "@ + direction@,
            ),
        },
{
    match (checkpoint, snapshot) {
        (Some(_), Some(bytes)) => Ok(bytes),
        _ => {
            let text = "missing DM session for ".to_owned().concat(conversation_id).concat(
                " direction ",
            ).concat(direction);
            Err(local_bus(text.as_str()))
        },
    }
}

/// Where the sending session of a message comes from.
#[derive(Clone, Debug, PartialEq, Eq)]
pub enum SendSessionSource {
    /// The session is there.
    Kept,
    /// One is begun with the prekeys of this device.
    Bootstrap(String),
    /// One is begun with the prekeys of a device, which this server has.
    BootstrapFrom(String, String),
}

/// Decides where the sending session of a message comes from, over a session with a gateway.
pub fn send_session_source(kept: bool, recipient_device_id: &Option<String>) -> (r: Result<
    SendSessionSource,
    SdkError,
>)
    ensures
        if kept {
            r matches Ok(SendSessionSource::Kept)
        } else {
            match *recipient_device_id {
                Some(device) => r == Ok::<SendSessionSource, SdkError>(
                    SendSessionSource::Bootstrap(device),
                ),
                None => is_local_bus(
                    r,
                    "recipient_device_id is required to bootstrap a new X3DH DM session"@,
                ),
            }
        },
{
    if kept {
        return Ok(SendSessionSource::Kept);
    }
    match recipient_device_id {
        Some(device) => Ok(SendSessionSource::Bootstrap(device.clone())),
        None => Err(
            local_bus("recipient_device_id is required to bootstrap a new X3DH DM session"),
        ),
    }
}

/// Decides where the sending session of a message comes from, where prekeys are fetched over HTTP.
pub fn send_session_source_with_prekey_url(
    kept: bool,
    recipient_device_id: &Option<String>,
    prekey_url: &Option<String>,
) -> (r: Result<SendSessionSource, SdkError>)
    ensures
        if kept {
            r matches Ok(SendSessionSource::Kept)
        } else {
            match (*recipient_device_id, *prekey_url) {
                (Some(device), Some(url)) => r == Ok::<SendSessionSource, SdkError>(
                    SendSessionSource::BootstrapFrom(device, url),
                ),
                (None, _) => is_local_bus(
                    r,
                    "recipient_device_id is required to bootstrap a new X3DH DM session"@,
                ),
                (_, None) => is_local_bus(
                    r,
                    "prekey_http_url is required to fetch recipient prekeys"@,
                ),
            }
        },
{
    match send_session_source(kept, recipient_device_id) {
        Ok(SendSessionSource::Bootstrap(device)) => match prekey_url {
            Some(url) => Ok(SendSessionSource::BootstrapFrom(device, url.clone())),
            None => Err(local_bus("prekey_http_url is required to fetch recipient prekeys")),
        },
        other => other,
    }
}

/// What the crypto library has made for a new session.
#[derive(Clone, Debug, PartialEq, Eq)]
pub struct BootstrapMaterial {
    pub identity_public: [u8; 32],
    pub ephemeral_public: [u8; 32],
    pub own_device_id_hash: [u8; 32],
    pub recipient_device_id_hash: [u8; 32],
    pub prekey_bundle_hash: [u8; 32],
    pub bootstrap_transcript_hash: [u8; 32],
    pub session_id: String,
}

/// The header with which a new session is announced to its recipient.
pub fn send_session_header(
    material: BootstrapMaterial,
    recipient_device_id: &str,
    recipient_bundle: PrekeyBundle,
) -> (r: SdkDmX3dhHeader)
    ensures
        r.initiator_identity_public == material.identity_public,
        r.initiator_ephemeral_public == material.ephemeral_public,
        r.initiator_device_id_hash == material.own_device_id_hash,
        r.recipient_device_id_hash == material.recipient_device_id_hash,
        r.recipient_device_id@ == recipient_device_id@,
        r.recipient_signed_prekey_id == recipient_bundle.signed_prekey_id,
        r.recipient_one_time_prekey_id == recipient_bundle.one_time_prekey_id,
        r.prekey_bundle_hash == material.prekey_bundle_hash,
        r.bootstrap_transcript_hash == material.bootstrap_transcript_hash,
        r.session_id == material.session_id,
{
    SdkDmX3dhHeader {
        initiator_identity_public: material.identity_public,
        initiator_ephemeral_public: material.ephemeral_public,
        initiator_device_id_hash: material.own_device_id_hash,
        recipient_device_id_hash: material.recipient_device_id_hash,
        recipient_device_id: recipient_device_id.to_owned(),
        recipient_signed_prekey_id: recipient_bundle.signed_prekey_id,
        recipient_one_time_prekey_id: recipient_bundle.one_time_prekey_id,
        prekey_bundle_hash: material.prekey_bundle_hash,
        bootstrap_transcript_hash: material.bootstrap_transcript_hash,
        session_id: material.session_id,
    }
}

/// The header that begins an inbound session. Without a session there has to be one.
pub fn needed_header<'a>(conversation_id: &str, header: Option<&'a SdkDmX3dhHeader>) -> (r: Result<
    &'a SdkDmX3dhHeader,
    SdkError,
>)
    ensures
        match header {
            Some(h) => r == Ok::<&SdkDmX3dhHeader, SdkError>(h),
            None => is_local_bus(
                r,
                "missing X3DH header for new inbound DM session "@ + conversation_id@,
            ),
        },
{
    match header {
        Some(h) => Ok(h),
        None => {
            let text = "missing X3DH header for new inbound DM session ".to_owned().concat(
                conversation_id,
            );
            Err(local_bus(text.as_str()))
        },
    }
}

/// Checks that a header was made for the prekey that this device holds.
pub fn check_signed_prekey(own_state: &SdkX3dhPrivateState, header: &SdkDmX3dhHeader) -> (r: Result<
    (),
    SdkError,
>)
    ensures
        if own_state.signed_prekey_id@ == header.recipient_signed_prekey_id@ {
            r is Ok
        } else {
            is_local_bus(r, "signed prekey id mismatch for "@ + header.recipient_device_id@)
        },
{
    if own_state.signed_prekey_id != header.recipient_signed_prekey_id {
        let text = "signed prekey id mismatch for ".to_owned().concat(
            header.recipient_device_id.as_str(),
        );
        return Err(local_bus(text.as_str()));
    }
    Ok(())
}

fn same_hash(a: &[u8; 32], b: &[u8; 32]) -> (r: bool)
    ensures
        r == (a@ == b@),
{
    let mut i: usize = 0;
    while i < 32
        invariant
            i <= 32,
            forall|j: int| 0 <= j < i ==> a@[j] == b@[j],
        decreases 32 - i,
    {
        if a[i] != b[i] {
            return false;
        }
        i = i + 1;
    }
    assert(a@ =~= b@);
    true
}

/// Checks that both sides of a new session saw the same bootstrap.
pub fn check_bootstrap_transcript(transcript_hash: &[u8; 32], header: &SdkDmX3dhHeader) -> (r: Result<
    (),
    SdkError,
>)
    ensures
        if transcript_hash@ == header.bootstrap_transcript_hash@ {
            r is Ok
        } else {
            is_local_bus(r, "X3DH bootstrap transcript hash mismatch"@)
        },
{
    if !same_hash(transcript_hash, &header.bootstrap_transcript_hash) {
        return Err(local_bus("X3DH bootstrap transcript hash mismatch"));
    }
    Ok(())
}

/// What the private prekeys of a device are read from.
pub fn load_x3dh_private_state(
    device_id: &str,
    checkpoint: Option<String>,
    body: Option<Vec<u8>>,
) -> (r: Result<Vec<u8>, SdkError>)
    ensures
        match (checkpoint, body) {
            (None, _) => is_local_bus(r, "missing X3DH private state for "@ + device_id@),
            (Some(event_id), None) => is_local_bus(r, "missing X3DH private event "@ + event_id@),
            (Some(_), Some(bytes)) => r == Ok::<Vec<u8>, SdkError>(bytes),
        },
{
    match (checkpoint, body) {
        (None, _) => {
            let text = "missing X3DH private state for ".to_owned().concat(device_id);
            Err(local_bus(text.as_str()))
        },
        (Some(event_id), None) => {
            let text = "missing X3DH private event ".to_owned().concat(event_id.as_str());
            Err(local_bus(text.as_str()))
        },
        (Some(_), Some(bytes)) => Ok(bytes),
    }
}

/// The checkpoints that show how far a message with an attachment has been taken in.
#[derive(Clone, Debug, PartialEq, Eq)]
pub struct RecvCommitFingerprint {
    /// The event that the conversation's receiving session is at, if it is at one.
    pub main_recv_checkpoint: Option<String>,
    /// The event that the receiving session of the attachment's key is at, if it is at one.
    pub slot_recv_checkpoint: Option<String>,
    /// How far the inbox has been taken in.
    pub receive_cursor: u64,
}

/// The names of the two checkpoints of a fingerprint.
pub fn fingerprint_checkpoints(
    conversation_id: &str,
    object_id: &str,
    recipient_device_id: &str,
) -> (r: (String, String))
    ensures
        r.0@ == session_checkpoint_name(conversation_id@, "recv"@),
        r.1@ == session_checkpoint_name(
            attachment_slot_id(conversation_id@, object_id@, recipient_device_id@),
            "recv"@,
        ),
{
    let slot = dm_attachment_slot_conversation_id(conversation_id, object_id, recipient_device_id);
    (
        dm_session_checkpoint_name(conversation_id, "recv"),
        dm_session_checkpoint_name(slot.as_str(), "recv"),
    )
}

impl RamfluxClient {
    /// Asks for the checkpoint of one direction of a conversation's session.
    pub fn dm_session_checkpoint(&self, conversation_id: &str, direction: &str) -> (r: Result<
        AccountDbRequest,
        SdkError,
    >)
        ensures
            if self.unlocked() {
                r matches Ok(AccountDbRequest::ProjectionCheckpoint { projection_name })
                    && projection_name@ == session_checkpoint_name(conversation_id@, direction@)
            } else {
                r == Err::<AccountDbRequest, SdkError>(SdkError::AccountDbNotUnlocked)
            },
    {
        let name = dm_session_checkpoint_name(conversation_id, direction);
        self.projection_checkpoint(name.as_str())
    }

    /// Asks for the checkpoint of a device's private prekeys.
    pub fn x3dh_private_checkpoint(&self, device_id: &str) -> (r: Result<AccountDbRequest, SdkError>)
        ensures
            if self.unlocked() {
                r matches Ok(AccountDbRequest::ProjectionCheckpoint { projection_name })
                    && projection_name@ == "x3dh_private:"@ + device_id@
            } else {
                r == Err::<AccountDbRequest, SdkError>(SdkError::AccountDbNotUnlocked)
            },
    {
        let name = x3dh_private_checkpoint_name(device_id);
        self.projection_checkpoint(name.as_str())
    }

    /// Keeps a session as it stands after an envelope.
    pub fn persist_dm_session_snapshot(
        &self,
        conversation_id: &str,
        envelope_id: &str,
        direction: &str,
        snapshot: &[u8],
    ) -> (r: Result<EventWrite, SdkError>)
        ensures
            if self.unlocked() {
                r matches Ok(w) && keeps_session(
                    w,
                    conversation_id@,
                    envelope_id@,
                    direction@,
                    snapshot@,
                )
            } else {
                r matches Err(SdkError::AccountDbNotUnlocked)
            },
    {
        let event_id = dm_session_event_id(conversation_id, direction, envelope_id);
        let event = match self.append_event(event_id.as_str(), "dm.ratchet_session", snapshot) {
            Ok(request) => request,
            Err(error) => {
                return Err(error);
            },
        };
        let name = dm_session_checkpoint_name(conversation_id, direction);
        match self.set_projection_checkpoint(name.as_str(), event_id.as_str()) {
            Ok(checkpoint) => Ok(EventWrite { event, checkpoint }),
            Err(error) => Err(error),
        }
    }

    /// How far a message with an attachment has been taken in, by its checkpoints and the cursor's.
    pub fn recv_commit_fingerprint(
        &self,
        main_recv_checkpoint: Option<String>,
        slot_recv_checkpoint: Option<String>,
        cursor_checkpoint: Option<String>,
    ) -> (r: Result<RecvCommitFingerprint, SdkError>)
        ensures
            if !self.unlocked() {
                r matches Err(SdkError::AccountDbNotUnlocked)
            } else {
                match checkpoint_cursor(cursor_checkpoint) {
                    Some(receive_cursor) => r == Ok::<RecvCommitFingerprint, SdkError>(
                        RecvCommitFingerprint {
                            main_recv_checkpoint,
                            slot_recv_checkpoint,
                            receive_cursor,
                        },
                    ),
                    None => r == Err::<RecvCommitFingerprint, SdkError>(
                        SdkError::InvalidGatewayCursor(cursor_checkpoint->0),
                    ),
                }
            },
    {
        match self.account_db() {
            Ok(_) => {},
            Err(error) => {
                return Err(error);
            },
        }
        match read_cursor_checkpoint(cursor_checkpoint) {
            Ok(receive_cursor) => Ok(
                RecvCommitFingerprint { main_recv_checkpoint, slot_recv_checkpoint, receive_cursor },
            ),
            Err(error) => Err(error),
        }
    }

    /// Whether the receiving session of a conversation is at an envelope, by its checkpoint.
    pub fn recv_session_checkpoint_at(
        &self,
        conversation_id: &str,
        envelope_id: &str,
        checkpoint: &Option<String>,
    ) -> (r: Result<bool, SdkError>)
        ensures
            r == (if self.unlocked() {
                Ok::<bool, SdkError>(
                    checkpoint_is_at(
                        crate::text::opt_view(*checkpoint),
                        conversation_id@,
                        envelope_id@,
                    ),
                )
            } else {
                Err(SdkError::AccountDbNotUnlocked)
            }),
    {
        match self.account_db() {
            Ok(_) => {},
            Err(error) => {
                return Err(error);
            },
        }
        let expected = dm_session_event_id(conversation_id, "recv", envelope_id);
        match checkpoint {
            Some(found) => Ok(str_eq(found.as_str(), expected.as_str())),
            None => Ok(false),
        }
    }
}

/// A session that was kept after an envelope stays as it was kept: another state of it under the same
/// envelope is refused, and the checkpoint still points to the first.
pub proof fn law_session_is_kept_once(
    log: EventLog,
    first: EventWrite,
    second: EventWrite,
    conversation_id: Seq<char>,
    envelope_id: Seq<char>,
    direction: Seq<char>,
    snapshot: Seq<u8>,
    other: Seq<u8>,
)
    requires
        keeps_session(first, conversation_id, envelope_id, direction, snapshot),
        keeps_session(second, conversation_id, envelope_id, direction, other),
        log.refusal(first.event) is None,
        snapshot != other,
    ensures
        ({
            let id = session_event_id(conversation_id, direction, envelope_id);
            let after = log.after(first);
            &&& after.refusal(second.event) matches Some(
                SdkError::Storage(StorageError::EventIdConflict(refused)),
            ) && refused@ == id
            &&& after.after(second) == after
            &&& after.body(id) == Some(snapshot)
            &&& after.checkpoints[session_checkpoint_name(conversation_id, direction)] == id
        }),
{
}

} // verus!
