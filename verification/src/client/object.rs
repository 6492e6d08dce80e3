//! Objects of the client: how they are kept, shared and attached to messages.
use crate::chunks::{capped, with_chunk};
use crate::client::dm_session::keeps_session;
use crate::client::state::RamfluxClient;
use crate::dm::{
    attachment_slot_id, dm_attachment_slot_conversation_id, SdkDmAttachmentImportResult,
    SdkDmAttachmentRef, SdkDmX3dhHeader,
};
use crate::error::{denied, is_denied, is_local_bus, local_bus, SdkError, SyncError};
use crate::gateway::engine::GatewayDirectMessage;
use crate::object::{
    effective_attachment_lineage, key_slot_associated_text, object_key_slot_associated_data,
    DeviceBranch, DmCiphertext, EncryptedObject, ObjectAccessGrant,
    ObjectRelayCapability, RelayTokenProvider, RelayTransferOptions, RelayV3Protocol,
    SdkObjectKeySlot, SdkObjectSharePackage, SignatureOutcome, OBJECT_TRANSFER_DOWNLOAD,
};
use crate::object_grants::{
    attachment_denial, grant_accepted, has_capability, is_grant_refusal,
    object_access_grant_to_sign, verify_recipient_object_access_grant,
};
use crate::records::{AccountDbRequest, EventWrite, ObjectTransferWrite};
use crate::relay_requests::{find_object, first_with_id};
use crate::text::{copy_opt, is_blank, str_eq};
use crate::transfer::{
    check_chunk_hash, peer_name, persist_object_transfer, records_progress, TransferSubject,
};
use vstd::prelude::*;

verus! {

// ---- keeping objects ----

/// An object as it is written to the account database.
#[derive(Clone, Debug, PartialEq, Eq)]
pub struct ObjectWrite {
    pub object: EncryptedObject,
    pub content_key: Option<[u8; 32]>,
    pub updated_at: i64,
}

/// An object that has been put.
#[derive(Clone, Debug, PartialEq, Eq)]
pub enum PutObject {
    /// It is written to the account database.
    Kept(ObjectWrite),
    /// No account is unlocked, so it is held in memory alone.
    InMemory(EncryptedObject),
}

/// An object that was received, as it is put into the object store.
#[derive(PartialEq, Eq)]
pub struct ReceivedObject {
    pub object_id: String,
    pub manifest_hash: String,
    pub ciphertext: Vec<u8>,
    pub plaintext_hash: String,
    pub object_key: [u8; 32],
}

/// What the object store adds to an object that it takes in.
#[derive(Clone, Debug, PartialEq, Eq)]
pub struct StoredParts {
    pub nonce: String,
    pub tombstoned: bool,
    pub backup_excluded: bool,
}

impl ReceivedObject {
    /// The object as the object store holds it.
    pub open spec fn stored_with(self, parts: StoredParts) -> EncryptedObject {
        EncryptedObject {
            object_id: self.object_id,
            manifest_hash: self.manifest_hash,
            nonce: parts.nonce,
            ciphertext: self.ciphertext,
            plaintext_hash: self.plaintext_hash,
            tombstoned: parts.tombstoned,
            backup_excluded: parts.backup_excluded,
        }
    }
}

impl RamfluxClient {
    /// What is written of an object: nothing, as long as no account is unlocked.
    pub fn persist_object_if_unlocked(
        &self,
        object: EncryptedObject,
        content_key: Option<[u8; 32]>,
        now: i64,
    ) -> (r: Option<ObjectWrite>)
        ensures
            r == (if self.unlocked() {
                Some(ObjectWrite { object, content_key, updated_at: now })
            } else {
                None
            }),
    {
        match &self.active_account_db {
            Some(_) => Some(ObjectWrite { object, content_key, updated_at: now }),
            None => None,
        }
    }

    /// An object that the object store has made, and what is written of it.
    pub fn put_encrypted_object(
        &self,
        object: EncryptedObject,
        object_key: [u8; 32],
        now: i64,
    ) -> (r: PutObject)
        ensures
            r == (if self.unlocked() {
                PutObject::Kept(
                    ObjectWrite { object, content_key: Some(object_key), updated_at: now },
                )
            } else {
                PutObject::InMemory(object)
            }),
    {
        match &self.active_account_db {
            Some(_) => PutObject::Kept(
                ObjectWrite { object, content_key: Some(object_key), updated_at: now },
            ),
            None => PutObject::InMemory(object),
        }
    }

    /// An object that was received and that the object store has taken in, and what is written of it.
    pub fn put_received_object(&self, received: ReceivedObject, parts: StoredParts, now: i64) -> (r:
        PutObject)
        ensures
            r == (if self.unlocked() {
                PutObject::Kept(
                    ObjectWrite {
                        object: received.stored_with(parts),
                        content_key: Some(received.object_key),
                        updated_at: now,
                    },
                )
            } else {
                PutObject::InMemory(received.stored_with(parts))
            }),
    {
        let object_key = received.object_key;
        let object = EncryptedObject {
            object_id: received.object_id,
            manifest_hash: received.manifest_hash,
            nonce: parts.nonce,
            ciphertext: received.ciphertext,
            plaintext_hash: received.plaintext_hash,
            tombstoned: parts.tombstoned,
            backup_excluded: parts.backup_excluded,
        };
        self.put_encrypted_object(object, object_key, now)
    }

    /// Hands the record of a transfer over to the account database: there is none to hand it to as
    /// long as no account is unlocked.
    pub fn record_object_transfer(&self, write: ObjectTransferWrite) -> (r: Result<
        ObjectTransferWrite,
        SdkError,
    >)
        ensures
            r == (if self.unlocked() {
                Ok::<ObjectTransferWrite, SdkError>(write)
            } else {
                Err(SdkError::AccountDbNotUnlocked)
            }),
    {
        match self.account_db() {
            Ok(_) => Ok(write),
            Err(error) => Err(error),
        }
    }

    /// The device that brings objects to a relay and fetches them. A transfer needs a device, and an
    /// account database that holds how far it has come.
    pub fn transferring_device(&self) -> (r: Result<&DeviceBranch, SdkError>)
        ensures
            match self.device_branch {
                None => is_local_bus(r, "object relay requires a device branch"@),
                Some(branch) => if self.unlocked() {
                    r is Ok && *r->Ok_0 == branch
                } else {
                    r == Err::<&DeviceBranch, SdkError>(SdkError::AccountDbNotUnlocked)
                },
            },
    {
        let branch = match &self.device_branch {
            Some(branch) => branch,
            None => {
                return Err(local_bus("object relay requires a device branch"));
            },
        };
        match self.account_db() {
            Ok(_) => Ok(branch),
            Err(error) => Err(error),
        }
    }

    /// What is written once the object store has buried an object: nothing, as long as no account is
    /// unlocked.
    pub fn tombstone_object(&self, object_id: &str) -> (r: Option<AccountDbRequest>)
        ensures
            if self.unlocked() {
                r matches Some(AccountDbRequest::SetObjectTombstoned { object_id: o }) && o@
                    == object_id@
            } else {
                r is None
            },
    {
        match &self.active_account_db {
            Some(_) => Some(
                AccountDbRequest::SetObjectTombstoned { object_id: object_id.to_owned() },
            ),
            None => None,
        }
    }
}

// ---- sharing an object's key ----

/// What sharing an object asks for.
#[derive(Clone, Debug, PartialEq, Eq)]
pub struct LocalBusObjectShareRequest {
    pub object_id: String,
    pub conversation_id: String,
    pub recipient_device_id: Option<String>,
    pub sender_id: Option<String>,
    pub target_delivery_id: Option<String>,
}

/// Under what name the key of an object travels to a device.
pub open spec fn object_slot_name(object_id: Seq<char>, recipient_device_id: Seq<char>) -> Seq<char> {
    "object.slot:"@ + object_id + ":"@ + recipient_device_id
}

/// Under what name the session is kept that an object's key was sent or received with.
pub open spec fn slot_commit_label(object_id: Seq<char>) -> Seq<char> {
    "object-slot:"@ + object_id
}

/// An object that is shared with a device: its key, and the message that carries the key, with its
/// body yet to be encrypted. The key is encrypted under the associated data.
#[derive(PartialEq, Eq)]
pub struct ObjectShare {
    pub object: EncryptedObject,
    pub object_key: [u8; 32],
    pub recipient_device_id: String,
    pub message: GatewayDirectMessage,
    pub associated_data: Vec<u8>,
}

/// A shared object as it leaves, with what keeps the session that its key was encrypted with.
#[derive(Clone, Debug, PartialEq, Eq)]
pub struct PackedObject {
    pub session: EventWrite,
    pub package: SdkObjectSharePackage,
}

/// Whether `slot` holds an object's key for one device.
pub open spec fn is_key_slot(
    slot: SdkObjectKeySlot,
    object_id: Seq<char>,
    conversation_id: Seq<char>,
    recipient_device_id: Seq<char>,
    x3dh: Option<SdkDmX3dhHeader>,
    ciphertext: DmCiphertext,
) -> bool {
    &&& slot.schema@ == "ramflux.sdk.object_key_slot.dm.v1"@
    &&& slot.version == 1
    &&& slot.object_id@ == object_id
    &&& slot.conversation_id@ == conversation_id
    &&& slot.recipient_device_id@ == recipient_device_id
    &&& slot.x3dh == x3dh
    &&& slot.ciphertext == ciphertext
}

impl ObjectShare {
    /// Whether the key is encrypted for what is shared, in the conversation that carries it, and for
    /// its recipient.
    pub open spec fn well_formed(self) -> bool {
        self.associated_data@ == vstd::utf8::encode_utf8(
            key_slot_associated_text(
                self.object.object_id@,
                self.message.conversation_id@,
                self.recipient_device_id@,
            ),
        )
    }

    /// Whether `packed` is the object as it leaves.
    pub open spec fn packed_as(
        self,
        packed: PackedObject,
        x3dh: Option<SdkDmX3dhHeader>,
        ciphertext: DmCiphertext,
        snapshot: Seq<u8>,
        ciphertext_base64: String,
    ) -> bool {
        &&& keeps_session(
            packed.session,
            self.message.conversation_id@,
            slot_commit_label(self.object.object_id@),
            "send"@,
            snapshot,
        )
        &&& packed.package.schema@ == "ramflux.sdk.object_share_package.v1"@
        &&& packed.package.version == 1
        &&& packed.package.object == self.object
        &&& packed.package.ciphertext_base64 == ciphertext_base64
        &&& is_key_slot(
            packed.package.key_slot,
            self.object.object_id@,
            self.message.conversation_id@,
            self.recipient_device_id@,
            x3dh,
            ciphertext,
        )
    }
}

impl RamfluxClient {
    /// Who shares an object: whom the request names, or else the device that acts.
    pub open spec fn sharing_name(self, request: LocalBusObjectShareRequest) -> Seq<char> {
        match (request.sender_id, self.device_branch) {
            (Some(sender), _) => sender@,
            (None, Some(branch)) => branch.device_id@,
            (None, None) => "rf_object_sender"@,
        }
    }

    /// Whether `m` carries the key of a shared object, with its body yet to be encrypted.
    pub open spec fn carries_shared_key(
        self,
        m: GatewayDirectMessage,
        request: LocalBusObjectShareRequest,
        recipient: String,
        target: String,
        now: i64,
    ) -> bool {
        &&& m.conversation_id == request.conversation_id
        &&& m.message_id@ == object_slot_name(request.object_id@, recipient@)
        &&& m.envelope_id@ == object_slot_name(request.object_id@, recipient@)
        &&& m.source_principal_id@ == self.sharing_name(request)
        &&& m.sender_id@ == self.sharing_name(request)
        &&& m.recipient_device_id == Some(recipient)
        &&& m.target_delivery_id == target
        &&& m.encrypted_body@.len() == 0
        &&& m.created_at == now
        &&& m.ttl == 3600
    }

    /// Finds what sharing an object needs. `objects` is what the object store holds, and
    /// `object_key` what it says of the object's key.
    pub fn share_object_key_with_dm_recipient(
        &self,
        objects: Vec<EncryptedObject>,
        object_key: Result<[u8; 32], SdkError>,
        request: &LocalBusObjectShareRequest,
        now: i64,
    ) -> (r: Result<ObjectShare, SdkError>)
        ensures
            match (
                first_with_id(objects@, request.object_id@),
                object_key,
                request.recipient_device_id,
                request.target_delivery_id,
            ) {
                (None, _, _, _) => r == Err::<ObjectShare, SdkError>(
                    SdkError::Sync(SyncError::ObjectNotFound),
                ),
                (Some(_), Err(error), _, _) => r == Err::<ObjectShare, SdkError>(error),
                (Some(_), Ok(_), None, _) => is_local_bus(
                    r,
                    "object.share requires recipient_device_id"@,
                ),
                (Some(_), Ok(_), Some(_), None) => is_local_bus(
                    r,
                    "object.share requires target_delivery_id"@,
                ),
                (Some(i), Ok(key), Some(recipient), Some(target)) => r matches Ok(share) && {
                    &&& share.object == objects@[i]
                    &&& share.object_key == key
                    &&& share.recipient_device_id == recipient
                    &&& self.carries_shared_key(share.message, *request, recipient, target, now)
                    &&& share.well_formed()
                },
            },
    {
        let at = match find_object(&objects, request.object_id.as_str()) {
            Some(at) => at,
            None => {
                return Err(SdkError::Sync(SyncError::ObjectNotFound));
            },
        };
        let object_key = match object_key {
            Ok(object_key) => object_key,
            Err(error) => {
                return Err(error);
            },
        };
        let recipient = match &request.recipient_device_id {
            Some(recipient) => recipient,
            None => {
                return Err(local_bus("object.share requires recipient_device_id"));
            },
        };
        let sender_id = match &request.sender_id {
            Some(sender) => sender.clone(),
            None => match &self.device_branch {
                Some(branch) => branch.device_id.clone(),
                None => "rf_object_sender".to_owned(),
            },
        };
        let target = match &request.target_delivery_id {
            Some(target) => target,
            None => {
                return Err(local_bus("object.share requires target_delivery_id"));
            },
        };
        let name = "object.slot:".to_owned().concat(request.object_id.as_str()).concat(":").concat(
            recipient.as_str(),
        );
        let message = GatewayDirectMessage {
            conversation_id: request.conversation_id.clone(),
            message_id: name.clone(),
            envelope_id: name,
            source_principal_id: sender_id.clone(),
            sender_id,
            recipient_device_id: Some(recipient.clone()),
            target_delivery_id: target.clone(),
            encrypted_body: Vec::new(),
            created_at: now,
            ttl: 3600,
        };
        let associated_data = object_key_slot_associated_data(
            request.object_id.as_str(),
            request.conversation_id.as_str(),
            recipient.as_str(),
        );
        let mut objects = objects;
        let object = objects.remove(at);
        Ok(
            ObjectShare {
                object,
                object_key,
                recipient_device_id: recipient.clone(),
                message,
                associated_data,
            },
        )
    }

    /// Packs a shared object, once its key has been encrypted. `ciphertext` is what encrypting the
    /// key came to, `snapshot` the session as it then stood, and `ciphertext_base64` the object's
    /// bytes as text. The package leaves only when the session is kept.
    pub fn pack_shared_object(
        &self,
        share: ObjectShare,
        x3dh: Option<SdkDmX3dhHeader>,
        ciphertext: Result<DmCiphertext, SdkError>,
        snapshot: &[u8],
        ciphertext_base64: String,
    ) -> (r: Result<PackedObject, SdkError>)
        ensures
            match ciphertext {
                Err(error) => r == Err::<PackedObject, SdkError>(error),
                Ok(ciphertext) => if !self.unlocked() {
                    r == Err::<PackedObject, SdkError>(SdkError::AccountDbNotUnlocked)
                } else {
                    r matches Ok(packed) && share.packed_as(
                        packed,
                        x3dh,
                        ciphertext,
                        snapshot@,
                        ciphertext_base64,
                    )
                },
            },
    {
        let ciphertext = match ciphertext {
            Ok(ciphertext) => ciphertext,
            Err(error) => {
                return Err(error);
            },
        };
        let session = match self.persist_sent_slot_session(
            share.message.conversation_id.as_str(),
            share.object.object_id.as_str(),
            snapshot,
        ) {
            Ok(session) => session,
            Err(error) => {
                return Err(error);
            },
        };
        let key_slot = object_key_slot(
            share.object.object_id.clone(),
            share.message.conversation_id,
            share.recipient_device_id,
            x3dh,
            ciphertext,
        );
        Ok(
            PackedObject {
                session,
                package: object_share_package(share.object, ciphertext_base64, key_slot),
            },
        )
    }

    /// Keeps the session that an object's key was sent with.
    pub fn persist_sent_slot_session(
        &self,
        conversation_id: &str,
        object_id: &str,
        snapshot: &[u8],
    ) -> (r: Result<EventWrite, SdkError>)
        ensures
            if self.unlocked() {
                r matches Ok(w) && keeps_session(
                    w,
                    conversation_id@,
                    slot_commit_label(object_id@),
                    "send"@,
                    snapshot@,
                )
            } else {
                r matches Err(SdkError::AccountDbNotUnlocked)
            },
    {
        let label = "object-slot:".to_owned().concat(object_id);
        self.persist_dm_session_snapshot(conversation_id, label.as_str(), "send", snapshot)
    }
}

/// The slot that holds an object's key for one device.
pub fn object_key_slot(
    object_id: String,
    conversation_id: String,
    recipient_device_id: String,
    x3dh: Option<SdkDmX3dhHeader>,
    ciphertext: DmCiphertext,
) -> (r: SdkObjectKeySlot)
    ensures
        r.schema@ == "ramflux.sdk.object_key_slot.dm.v1"@,
        r.version == 1,
        r.object_id == object_id,
        r.conversation_id == conversation_id,
        r.recipient_device_id == recipient_device_id,
        r.x3dh == x3dh,
        r.ciphertext == ciphertext,
{
    SdkObjectKeySlot {
        schema: "ramflux.sdk.object_key_slot.dm.v1".to_owned(),
        version: 1,
        object_id,
        conversation_id,
        recipient_device_id,
        x3dh,
        ciphertext,
    }
}

/// An object together with its key slot. The ciphertext comes as base64url text too.
pub fn object_share_package(
    object: EncryptedObject,
    ciphertext_base64: String,
    key_slot: SdkObjectKeySlot,
) -> (r: SdkObjectSharePackage)
    ensures
        r.schema@ == "ramflux.sdk.object_share_package.v1"@,
        r.version == 1,
        r.object == object,
        r.ciphertext_base64 == ciphertext_base64,
        r.key_slot == key_slot,
{
    SdkObjectSharePackage {
        schema: "ramflux.sdk.object_share_package.v1".to_owned(),
        version: 1,
        object,
        ciphertext_base64,
        key_slot,
    }
}

/// Checks that a key slot comes in the known form.
pub fn check_key_slot(key_slot: &SdkObjectKeySlot) -> (r: Result<(), SdkError>)
    ensures
        if key_slot.schema@ == "ramflux.sdk.object_key_slot.dm.v1"@ {
            r is Ok
        } else {
            is_local_bus(r, "unsupported object key slot schema: "@ + key_slot.schema@)
        },
{
    if !str_eq(key_slot.schema.as_str(), "ramflux.sdk.object_key_slot.dm.v1") {
        let text = "unsupported object key slot schema: ".to_owned().concat(
            key_slot.schema.as_str(),
        );
        return Err(local_bus(text.as_str()));
    }
    Ok(())
}

/// The key that a slot held, by its bytes.
pub fn object_key_of(plaintext_key: &Vec<u8>) -> (r: Result<[u8; 32], SdkError>)
    ensures
        if plaintext_key@.len() == 32 {
            r matches Ok(key) && key@ == plaintext_key@
        } else {
            is_local_bus(r, "invalid object key length"@)
        },
{
    if plaintext_key.len() != 32 {
        return Err(local_bus("invalid object key length"));
    }
    let mut key: [u8; 32] = [0u8;32];
    let mut i: usize = 0;
    while i < 32
        invariant
            i <= 32,
            plaintext_key@.len() == 32,
            forall|j: int| 0 <= j < i ==> key@[j] == plaintext_key@[j],
        decreases 32 - i,
    {
        key.set(i, plaintext_key[i]);
        i = i + 1;
    }
    assert(key@ =~= plaintext_key@);
    Ok(key)
}

/// The key of an object, and under what name its session is kept once the object has been taken in.
#[derive(PartialEq, Eq)]
pub struct DeferredObjectKeySlot {
    pub object_key: [u8; 32],
    pub conversation_id: String,
    pub commit_label: String,
}

/// The key that a slot held. Nothing is kept of its session yet, so that the slot can be decrypted
/// again if the object cannot be taken in.
pub fn decrypt_object_key_slot(key_slot: &SdkObjectKeySlot, plaintext_key: &Vec<u8>) -> (r: Result<
    DeferredObjectKeySlot,
    SdkError,
>)
    ensures
        if key_slot.schema@ != "ramflux.sdk.object_key_slot.dm.v1"@ {
            is_local_bus(r, "unsupported object key slot schema: "@ + key_slot.schema@)
        } else if plaintext_key@.len() != 32 {
            is_local_bus(r, "invalid object key length"@)
        } else {
            r matches Ok(deferred) && {
                &&& deferred.object_key@ == plaintext_key@
                &&& deferred.conversation_id == key_slot.conversation_id
                &&& deferred.commit_label@ == slot_commit_label(key_slot.object_id@)
            }
        },
{
    match check_key_slot(key_slot) {
        Ok(_) => {},
        Err(error) => {
            return Err(error);
        },
    }
    match object_key_of(plaintext_key) {
        Ok(object_key) => Ok(
            DeferredObjectKeySlot {
                object_key,
                conversation_id: key_slot.conversation_id.clone(),
                commit_label: "object-slot:".to_owned().concat(key_slot.object_id.as_str()),
            },
        ),
        Err(error) => Err(error),
    }
}

/// What the session of a shared object's key is asked to decrypt.
pub struct SharedKeyRequest<'a> {
    pub conversation_id: &'a str,
    pub x3dh: Option<&'a SdkDmX3dhHeader>,
    pub ciphertext: &'a DmCiphertext,
    pub associated_data: Vec<u8>,
}

/// Why a shared object does not come in the known form, if it does not.
pub open spec fn package_complaint(package: SdkObjectSharePackage) -> Option<Seq<char>> {
    if package.schema@ != "ramflux.sdk.object_share_package.v1"@ {
        Some("unsupported object share package schema: "@ + package.schema@)
    } else if package.key_slot.schema@ != "ramflux.sdk.object_key_slot.dm.v1"@ {
        Some("unsupported object key slot schema: "@ + package.key_slot.schema@)
    } else {
        None
    }
}

fn check_package(package: &SdkObjectSharePackage) -> (r: Result<(), SdkError>)
    ensures
        match package_complaint(*package) {
            Some(words) => is_local_bus(r, words),
            None => r is Ok,
        },
{
    if !str_eq(package.schema.as_str(), "ramflux.sdk.object_share_package.v1") {
        let text = "unsupported object share package schema: ".to_owned().concat(
            package.schema.as_str(),
        );
        return Err(local_bus(text.as_str()));
    }
    check_key_slot(&package.key_slot)
}

/// What the session of a shared object's key is asked to decrypt. A package of another form is
/// refused, and nothing is decrypted.
pub fn shared_key_request(package: &SdkObjectSharePackage) -> (r: Result<
    SharedKeyRequest<'_>,
    SdkError,
>)
    ensures
        match package_complaint(*package) {
            Some(words) => is_local_bus(r, words),
            None => r matches Ok(q) && {
                &&& q.conversation_id@ == package.key_slot.conversation_id@
                &&& match package.key_slot.x3dh {
                    Some(header) => q.x3dh == Some(&header),
                    None => q.x3dh is None,
                }
                &&& *q.ciphertext == package.key_slot.ciphertext
                &&& q.associated_data@ == asked_under(*package)
            },
        },
{
    match check_package(package) {
        Ok(_) => {},
        Err(error) => {
            return Err(error);
        },
    }
    let slot = &package.key_slot;
    Ok(
        SharedKeyRequest {
            conversation_id: slot.conversation_id.as_str(),
            x3dh: match &slot.x3dh {
                Some(header) => Some(header),
                None => None,
            },
            ciphertext: &slot.ciphertext,
            associated_data: object_key_slot_associated_data(
                slot.object_id.as_str(),
                slot.conversation_id.as_str(),
                slot.recipient_device_id.as_str(),
            ),
        },
    )
}

/// What taking a shared object in comes to. The session of its key is kept, where it is, before
/// anything else: also if the object then cannot be taken in.
#[derive(PartialEq, Eq)]
pub struct SharedObjectImport {
    pub session: Option<EventWrite>,
    pub outcome: Result<ReceivedObject, SdkError>,
}

/// Whether `i` is what taking a shared object in comes to, once its package has the known form.
pub open spec fn is_shared_import(
    i: SharedObjectImport,
    package: SdkObjectSharePackage,
    unlocked: bool,
    plaintext_key: Result<Vec<u8>, SdkError>,
    snapshot: Seq<u8>,
    ciphertext: Result<Vec<u8>, String>,
) -> bool {
    match plaintext_key {
        Err(error) => i.session is None && i.outcome == Err::<ReceivedObject, SdkError>(error),
        Ok(key) => if key@.len() != 32 {
            i.session is None && is_local_bus(i.outcome, "invalid object key length"@)
        } else if !unlocked {
            i.session is None && i.outcome == Err::<ReceivedObject, SdkError>(
                SdkError::AccountDbNotUnlocked,
            )
        } else {
            &&& i.session is Some
            &&& keeps_session(
                i.session->0,
                package.key_slot.conversation_id@,
                slot_commit_label(package.object.object_id@),
                "recv"@,
                snapshot,
            )
            &&& match ciphertext {
                Err(words) => is_local_bus(i.outcome, "invalid object ciphertext: "@ + words@),
                Ok(bytes) => i.outcome matches Ok(received) && {
                    &&& received.object_id == package.object.object_id
                    &&& received.manifest_hash == package.object.manifest_hash
                    &&& received.ciphertext == bytes
                    &&& received.plaintext_hash == package.object.plaintext_hash
                    &&& received.object_key@ == key@
                },
            }
        },
    }
}

impl RamfluxClient {
    /// Takes a shared object in. `plaintext_key` is what decrypting its key came to, `snapshot` the
    /// session as it then stood, and `ciphertext` what decoding the object's bytes came to: the
    /// bytes, or the words of the complaint. What comes out is put into the object store.
    pub fn import_shared_object(
        &self,
        package: &SdkObjectSharePackage,
        plaintext_key: Result<Vec<u8>, SdkError>,
        snapshot: &[u8],
        ciphertext: Result<Vec<u8>, String>,
    ) -> (r: SharedObjectImport)
        ensures
            match package_complaint(*package) {
                Some(words) => r.session is None && is_local_bus(r.outcome, words),
                None => is_shared_import(
                    r,
                    *package,
                    self.unlocked(),
                    plaintext_key,
                    snapshot@,
                    ciphertext,
                ),
            },
    {
        match check_package(package) {
            Ok(_) => {},
            Err(error) => {
                return SharedObjectImport { session: None, outcome: Err(error) };
            },
        }
        let plaintext_key = match plaintext_key {
            Ok(plaintext_key) => plaintext_key,
            Err(error) => {
                return SharedObjectImport { session: None, outcome: Err(error) };
            },
        };
        let object_key = match object_key_of(&plaintext_key) {
            Ok(object_key) => object_key,
            Err(error) => {
                return SharedObjectImport { session: None, outcome: Err(error) };
            },
        };
        let label = "object-slot:".to_owned().concat(package.object.object_id.as_str());
        let session = match self.persist_dm_session_snapshot(
            package.key_slot.conversation_id.as_str(),
            label.as_str(),
            "recv",
            snapshot,
        ) {
            Ok(session) => session,
            Err(error) => {
                return SharedObjectImport { session: None, outcome: Err(error) };
            },
        };
        let outcome = match ciphertext {
            Ok(bytes) => Ok(
                ReceivedObject {
                    object_id: package.object.object_id.clone(),
                    manifest_hash: package.object.manifest_hash.clone(),
                    ciphertext: bytes,
                    plaintext_hash: package.object.plaintext_hash.clone(),
                    object_key,
                },
            ),
            Err(words) => {
                let text = "invalid object ciphertext: ".to_owned().concat(words.as_str());
                Err(local_bus(text.as_str()))
            },
        };
        SharedObjectImport { session: Some(session), outcome }
    }
}

/// What a recipient decrypts a shared object's key under.
pub open spec fn asked_under(package: SdkObjectSharePackage) -> Seq<u8> {
    vstd::utf8::encode_utf8(
        key_slot_associated_text(
            package.key_slot.object_id@,
            package.key_slot.conversation_id@,
            package.key_slot.recipient_device_id@,
        ),
    )
}

/// A shared object that was packed for a device is taken in by it. The package has the known form,
/// and its key is decrypted under the data that it was encrypted under. With the key and the bytes,
/// the object that was shared is put into the store, under its own name and hashes. The session of
/// the key is kept under the name that the sender kept its own under.
pub proof fn law_packed_object_is_taken_in(
    share: ObjectShare,
    packed: PackedObject,
    x3dh: Option<SdkDmX3dhHeader>,
    ciphertext: DmCiphertext,
    sent: Seq<u8>,
    ciphertext_base64: String,
    key: Vec<u8>,
    received: Seq<u8>,
    import: SharedObjectImport,
)
    requires
        share.well_formed(),
        share.packed_as(packed, x3dh, ciphertext, sent, ciphertext_base64),
        key@ == share.object_key@,
        is_shared_import(
            import,
            packed.package,
            true,
            Ok(key),
            received,
            Ok(share.object.ciphertext),
        ),
    ensures
        package_complaint(packed.package) is None,
        asked_under(packed.package) == share.associated_data@,
        import.outcome matches Ok(taken) && taken.object_key@ == share.object_key@
            && taken.stored_with(
            StoredParts {
                nonce: share.object.nonce,
                tombstoned: share.object.tombstoned,
                backup_excluded: share.object.backup_excluded,
            },
        ) == share.object,
        keeps_session(
            packed.session,
            share.message.conversation_id@,
            slot_commit_label(share.object.object_id@),
            "send"@,
            sent,
        ),
        keeps_session(
            import.session->0,
            share.message.conversation_id@,
            slot_commit_label(share.object.object_id@),
            "recv"@,
            received,
        ),
{
}

impl RamfluxClient {
    /// Keeps the session that an object's key was received with.
    pub fn commit_object_key_slot_session(
        &self,
        deferred: &DeferredObjectKeySlot,
        snapshot: &[u8],
    ) -> (r: Result<EventWrite, SdkError>)
        ensures
            if self.unlocked() {
                r matches Ok(w) && keeps_session(
                    w,
                    deferred.conversation_id@,
                    deferred.commit_label@,
                    "recv"@,
                    snapshot@,
                )
            } else {
                r matches Err(SdkError::AccountDbNotUnlocked)
            },
    {
        self.persist_dm_session_snapshot(
            deferred.conversation_id.as_str(),
            deferred.commit_label.as_str(),
            "recv",
            snapshot,
        )
    }
}

// ---- attaching an object to a message ----

/// What is to be attached to a message.
#[derive(Clone, Debug, PartialEq, Eq)]
pub struct LocalBusMessageAttachmentInput {
    pub object_id: String,
    pub plaintext_base64: String,
    pub relay_endpoint: String,
    pub relay_service_key_base64: Option<String>,
    pub chunk_size: usize,
    pub owner_home_node_id: Option<String>,
    pub relay_audience_node_id: Option<String>,
}

/// The options of a relay that an attachment needs.
pub fn needed_relay_options(options: Option<RelayTransferOptions>, words: &str) -> (r: Result<
    RelayTransferOptions,
    SdkError,
>)
    ensures
        match options {
            Some(found) => r == Ok::<RelayTransferOptions, SdkError>(found),
            None => is_local_bus(r, words@),
        },
{
    match options {
        Some(found) => Ok(found),
        None => Err(local_bus(words)),
    }
}

/// The message that carries an attachment's key, with its body yet to be encrypted.
pub fn attachment_slot_message(message: &GatewayDirectMessage, object_id: &str) -> (r: Result<
    GatewayDirectMessage,
    SdkError,
>)
    ensures
        match message.recipient_device_id {
            None => is_local_bus(r, "DM attachment requires recipient_device_id"@),
            Some(recipient) => r matches Ok(m) && {
                &&& m.conversation_id@ == attachment_slot_id(
                    message.conversation_id@,
                    object_id@,
                    recipient@,
                )
                &&& m.message_id@ == "attachment.slot:"@ + object_id@
                &&& m.envelope_id@ == "attachment.slot:"@ + object_id@
                &&& m.source_principal_id == message.source_principal_id
                &&& m.sender_id == message.sender_id
                &&& m.recipient_device_id == Some(recipient)
                &&& m.target_delivery_id == message.target_delivery_id
                &&& m.encrypted_body@.len() == 0
                &&& m.created_at == message.created_at
                &&& m.ttl == message.ttl
            },
        },
{
    let recipient = match &message.recipient_device_id {
        Some(recipient) => recipient,
        None => {
            return Err(local_bus("DM attachment requires recipient_device_id"));
        },
    };
    let name = "attachment.slot:".to_owned().concat(object_id);
    Ok(
        GatewayDirectMessage {
            conversation_id: dm_attachment_slot_conversation_id(
                message.conversation_id.as_str(),
                object_id,
                recipient.as_str(),
            ),
            message_id: name.clone(),
            envelope_id: name,
            source_principal_id: message.source_principal_id.clone(),
            sender_id: message.sender_id.clone(),
            recipient_device_id: Some(recipient.clone()),
            target_delivery_id: message.target_delivery_id.clone(),
            encrypted_body: Vec::new(),
            created_at: message.created_at,
            ttl: message.ttl,
        },
    )
}

/// Under what name the session is kept that an attachment's key was sent with.
pub open spec fn attachment_slot_label(object_id: Seq<char>) -> Seq<char> {
    "attachment-slot:"@ + object_id
}

/// The slot of an attachment's key, with what keeps the session that the key was encrypted with.
#[derive(Clone, Debug, PartialEq, Eq)]
pub struct SentKeySlot {
    pub session: EventWrite,
    pub key_slot: SdkObjectKeySlot,
}

impl RamfluxClient {
    /// The slot of an attachment's key, once the key has been encrypted. `message` is the message
    /// that the attachment belongs to, `ciphertext` what encrypting the key came to, and `snapshot`
    /// the session as it then stood. The slot leaves only when the session is kept.
    pub fn send_attachment_key(
        &self,
        message: &GatewayDirectMessage,
        object_id: &str,
        x3dh: Option<SdkDmX3dhHeader>,
        ciphertext: Result<DmCiphertext, SdkError>,
        snapshot: &[u8],
    ) -> (r: Result<SentKeySlot, SdkError>)
        ensures
            match (message.recipient_device_id, ciphertext) {
                (None, _) => is_local_bus(r, "DM attachment requires recipient_device_id"@),
                (Some(_), Err(error)) => r == Err::<SentKeySlot, SdkError>(error),
                (Some(recipient), Ok(ciphertext)) => if !self.unlocked() {
                    r == Err::<SentKeySlot, SdkError>(SdkError::AccountDbNotUnlocked)
                } else {
                    let slot_conversation_id = attachment_slot_id(
                        message.conversation_id@,
                        object_id@,
                        recipient@,
                    );
                    r matches Ok(sent) && {
                        &&& keeps_session(
                            sent.session,
                            slot_conversation_id,
                            attachment_slot_label(object_id@),
                            "send"@,
                            snapshot@,
                        )
                        &&& is_key_slot(
                            sent.key_slot,
                            object_id@,
                            slot_conversation_id,
                            recipient@,
                            x3dh,
                            ciphertext,
                        )
                    }
                },
            },
    {
        let recipient = match &message.recipient_device_id {
            Some(recipient) => recipient,
            None => {
                return Err(local_bus("DM attachment requires recipient_device_id"));
            },
        };
        let ciphertext = match ciphertext {
            Ok(ciphertext) => ciphertext,
            Err(error) => {
                return Err(error);
            },
        };
        let conversation_id = dm_attachment_slot_conversation_id(
            message.conversation_id.as_str(),
            object_id,
            recipient.as_str(),
        );
        let label = "attachment-slot:".to_owned().concat(object_id);
        match self.persist_dm_session_snapshot(
            conversation_id.as_str(),
            label.as_str(),
            "send",
            snapshot,
        ) {
            Ok(session) => Ok(
                SentKeySlot {
                    session,
                    key_slot: object_key_slot(
                        object_id.to_owned(),
                        conversation_id,
                        recipient.clone(),
                        x3dh,
                        ciphertext,
                    ),
                },
            ),
            Err(error) => Err(error),
        }
    }
}

/// How an object is cut into chunks.
#[derive(Clone, Copy, Debug, PartialEq, Eq, Structural)]
pub struct ChunkPlan {
    pub chunk_size: usize,
    pub total_chunks: u32,
}

/// Whether `grant` lets a recipient fetch and acknowledge an object, whatever its signature.
pub open spec fn is_attachment_grant(
    grant: ObjectAccessGrant,
    protocol: RelayV3Protocol,
    owner: DeviceBranch,
    object: EncryptedObject,
    recipient_device_hash: Seq<char>,
    issued_at: u64,
    expires_at: u64,
) -> bool {
    &&& grant.schema == protocol.object_access_grant_schema
    &&& grant.version == protocol.proof_version
    &&& grant.object_id == object.object_id
    &&& grant.manifest_hash == object.manifest_hash
    &&& grant.grantee_device_hash@ == recipient_device_hash
    &&& grant.capabilities@ == seq![ObjectRelayCapability::Get, ObjectRelayCapability::Ack]
    &&& grant.issued_at == issued_at
    &&& grant.expires_at == expires_at
    &&& grant.owner_signing_key_id == owner.device_id
    &&& grant.owner_public_key == owner.public_key
}

/// Whether `a` refers to an object for a recipient.
pub open spec fn refers_to(
    a: SdkDmAttachmentRef,
    object: EncryptedObject,
    plan: ChunkPlan,
    input: LocalBusMessageAttachmentInput,
    options: RelayTransferOptions,
    owner: DeviceBranch,
    grant: ObjectAccessGrant,
    key_slot: SdkObjectKeySlot,
) -> bool {
    &&& a.schema@ == "ramflux.sdk.dm_attachment_ref.v1"@
    &&& a.version == 1
    &&& a.object_id == object.object_id
    &&& a.manifest_hash == object.manifest_hash
    &&& a.plaintext_hash == object.plaintext_hash
    &&& a.cipher_size == object.ciphertext@.len()
    &&& a.chunk_size == plan.chunk_size
    &&& a.total_chunks == plan.total_chunks
    &&& a.relay_endpoint == input.relay_endpoint
    &&& a.owner_home_node_id == (if input.owner_home_node_id is Some {
        input.owner_home_node_id
    } else {
        options.relay_owner_home_node_id
    })
    &&& a.relay_audience_node_id == (if input.relay_audience_node_id is Some {
        input.relay_audience_node_id
    } else {
        options.relay_audience_node_id
    })
    &&& a.owner_principal_id == owner.principal_id
    &&& a.owner_device_epoch == owner.device_epoch
    &&& a.access_grant == Some(grant)
    &&& a.key_slot == key_slot
}

impl RamfluxClient {
    /// The grant that lets a recipient fetch and acknowledge an attachment, yet to be signed.
    pub fn attachment_grant_to_sign(
        &self,
        protocol: &RelayV3Protocol,
        object: &EncryptedObject,
        recipient_device_hash: String,
        issued_at: u64,
        expires_at: u64,
    ) -> (r: Result<ObjectAccessGrant, SdkError>)
        ensures
            match self.device_branch {
                None => is_local_bus(r, "object relay requires an owner device branch"@),
                Some(owner) => r matches Ok(grant) && is_attachment_grant(
                    grant,
                    *protocol,
                    owner,
                    *object,
                    recipient_device_hash@,
                    issued_at,
                    expires_at,
                ) && grant.owner_signature@ == Seq::<char>::empty(),
            },
    {
        let owner = match &self.device_branch {
            Some(owner) => owner,
            None => {
                return Err(local_bus("object relay requires an owner device branch"));
            },
        };
        let mut capabilities: Vec<ObjectRelayCapability> = Vec::new();
        capabilities.push(ObjectRelayCapability::Get);
        capabilities.push(ObjectRelayCapability::Ack);
        let grant = object_access_grant_to_sign(
            protocol,
            owner,
            object.object_id.clone(),
            object.manifest_hash.clone(),
            recipient_device_hash,
            capabilities,
            issued_at,
            expires_at,
        );
        assert(grant.capabilities@ =~= seq![ObjectRelayCapability::Get, ObjectRelayCapability::Ack]);
        Ok(grant)
    }

    /// What a message says of an attachment, once it is on the relay. Where the message does not say
    /// whose lineage the object has, the lineage is the one that the upload used; an empty lineage
    /// that the message does state is kept as it is.
    pub fn dm_attachment_ref_for_recipient(
        &self,
        object: &EncryptedObject,
        plan: ChunkPlan,
        input: &LocalBusMessageAttachmentInput,
        options: &RelayTransferOptions,
        grant: ObjectAccessGrant,
        key_slot: SdkObjectKeySlot,
    ) -> (r: Result<SdkDmAttachmentRef, SdkError>)
        ensures
            match self.device_branch {
                None => is_local_bus(r, "object relay requires an owner device branch"@),
                Some(owner) => r matches Ok(a) && refers_to(
                    a,
                    *object,
                    plan,
                    *input,
                    *options,
                    owner,
                    grant,
                    key_slot,
                ),
            },
    {
        let owner = match &self.device_branch {
            Some(owner) => owner,
            None => {
                return Err(local_bus("object relay requires an owner device branch"));
            },
        };
        Ok(
            SdkDmAttachmentRef {
                schema: "ramflux.sdk.dm_attachment_ref.v1".to_owned(),
                version: 1,
                object_id: object.object_id.clone(),
                manifest_hash: object.manifest_hash.clone(),
                plaintext_hash: object.plaintext_hash.clone(),
                cipher_size: object.ciphertext.len() as u64,
                chunk_size: plan.chunk_size,
                total_chunks: plan.total_chunks,
                relay_endpoint: input.relay_endpoint.clone(),
                owner_home_node_id: effective_attachment_lineage(
                    copy_opt(&input.owner_home_node_id),
                    copy_opt(&options.relay_owner_home_node_id),
                ),
                relay_audience_node_id: effective_attachment_lineage(
                    copy_opt(&input.relay_audience_node_id),
                    copy_opt(&options.relay_audience_node_id),
                ),
                owner_principal_id: owner.principal_id.clone(),
                owner_device_epoch: owner.device_epoch,
                access_grant: Some(grant),
                key_slot,
            },
        )
    }
}

/// What a message says of an attachment is enough for its recipient: under the owner's good
/// signature, and while the grant holds, the recipient's device gets its tokens, provided that the
/// lineage is there.
pub proof fn law_recipient_can_fetch_attachment(
    a: SdkDmAttachmentRef,
    object: EncryptedObject,
    plan: ChunkPlan,
    input: LocalBusMessageAttachmentInput,
    options: RelayTransferOptions,
    protocol: RelayV3Protocol,
    owner: DeviceBranch,
    grant: ObjectAccessGrant,
    key_slot: SdkObjectKeySlot,
    recipient_device_hash: Seq<char>,
    issued_at: u64,
    expires_at: u64,
    now: u64,
)
    requires
        refers_to(a, object, plan, input, options, owner, grant, key_slot),
        is_attachment_grant(
            grant,
            protocol,
            owner,
            object,
            recipient_device_hash,
            issued_at,
            expires_at,
        ),
        issued_at <= now < expires_at,
        a.owner_home_node_id matches Some(id) && !is_blank(id@),
        a.relay_audience_node_id matches Some(id) && !is_blank(id@),
        owner.principal_id@.len() > 0,
        owner.device_epoch > 0,
    ensures
        grant_accepted(
            Some(&grant),
            protocol,
            recipient_device_hash,
            a.object_id@,
            a.manifest_hash@,
            now,
            SignatureOutcome::Valid,
        ),
        attachment_denial(grant, a) is None,
        grants_ack(a.access_grant),
{
    assert(grant.capabilities@[0] == ObjectRelayCapability::Get);
    assert(grant.capabilities@[1] == ObjectRelayCapability::Ack);
}

/// A lineage that a message states as empty is kept, and refused: the lineage of the upload never
/// takes its place, and no grant leads to a token.
pub proof fn law_stated_empty_lineage_is_refused(
    a: SdkDmAttachmentRef,
    object: EncryptedObject,
    plan: ChunkPlan,
    input: LocalBusMessageAttachmentInput,
    options: RelayTransferOptions,
    owner: DeviceBranch,
    grant: ObjectAccessGrant,
    key_slot: SdkObjectKeySlot,
    any: ObjectAccessGrant,
)
    requires
        refers_to(a, object, plan, input, options, owner, grant, key_slot),
        (input.owner_home_node_id matches Some(id) && is_blank(id@)) || (
        input.relay_audience_node_id matches Some(id) && is_blank(id@)),
    ensures
        attachment_denial(any, a) is Some,
{
}

// ---- taking an attachment in ----

/// Checks that an attachment comes in the known form.
pub fn check_attachment_ref(attachment: &SdkDmAttachmentRef) -> (r: Result<(), SdkError>)
    ensures
        if attachment.schema@ == "ramflux.sdk.dm_attachment_ref.v1"@ {
            r is Ok
        } else {
            is_local_bus(r, "unsupported DM attachment ref schema: "@ + attachment.schema@)
        },
{
    if !str_eq(attachment.schema.as_str(), "ramflux.sdk.dm_attachment_ref.v1") {
        let text = "unsupported DM attachment ref schema: ".to_owned().concat(
            attachment.schema.as_str(),
        );
        return Err(local_bus(text.as_str()));
    }
    Ok(())
}

/// Checks that what was put together is the object that was announced.
pub fn check_assembled(attachment: &SdkDmAttachmentRef, assembled_hash: &str) -> (r: Result<
    (),
    SdkError,
>)
    ensures
        if assembled_hash@ == attachment.manifest_hash@ {
            r is Ok
        } else {
            is_local_bus(r, "DM attachment manifest hash mismatch"@)
        },
{
    if !str_eq(assembled_hash, attachment.manifest_hash.as_str()) {
        return Err(local_bus("DM attachment manifest hash mismatch"));
    }
    Ok(())
}

/// What taking an attachment in gives, if its plaintext is the one that was announced. The plaintext
/// comes as base64url text.
pub fn imported_attachment(
    attachment: &SdkDmAttachmentRef,
    plaintext_base64: String,
    plaintext_hash: String,
) -> (r: Result<SdkDmAttachmentImportResult, SdkError>)
    ensures
        if plaintext_hash@ == attachment.plaintext_hash@ {
            r matches Ok(result) && {
                &&& result.object_id == attachment.object_id
                &&& result.manifest_hash == attachment.manifest_hash
                &&& result.plaintext_base64 == plaintext_base64
                &&& result.plaintext_hash == plaintext_hash
                &&& result.imported
            }
        } else {
            is_local_bus(r, "DM attachment plaintext hash mismatch"@)
        },
{
    if plaintext_hash != attachment.plaintext_hash {
        return Err(local_bus("DM attachment plaintext hash mismatch"));
    }
    Ok(
        SdkDmAttachmentImportResult {
            object_id: attachment.object_id.clone(),
            manifest_hash: attachment.manifest_hash.clone(),
            plaintext_base64,
            plaintext_hash,
            imported: true,
        },
    )
}

/// Whether a grant lets its bearer acknowledge chunks.
pub open spec fn grants_ack(grant: Option<ObjectAccessGrant>) -> bool {
    grant matches Some(g) && g.capabilities@.contains(ObjectRelayCapability::Ack)
}

impl RamfluxClient {
    /// Whether the chunks of an attachment may be acknowledged at all: only where an account
    /// database holds the object, and only if the grant allows it.
    pub fn may_acknowledge(&self, attachment: &SdkDmAttachmentRef) -> (r: bool)
        ensures
            r == (self.unlocked() && grants_ack(attachment.access_grant)),
    {
        let granted = match &attachment.access_grant {
            Some(grant) => has_capability(&grant.capabilities, ObjectRelayCapability::Ack),
            None => false,
        };
        self.active_account_db.is_some() && granted
    }

    /// Whether the chunks of an attachment are acknowledged, by the options of its relay: only over
    /// tokens that the gateway issues.
    pub fn acknowledges(
        &self,
        attachment: &SdkDmAttachmentRef,
        options: &RelayTransferOptions,
    ) -> (r: bool)
        ensures
            r == (self.unlocked() && grants_ack(attachment.access_grant)
                && options.token_provider is GatewayIssued),
    {
        if !self.may_acknowledge(attachment) {
            return false;
        }
        match options.token_provider {
            RelayTokenProvider::GatewayIssued => true,
            _ => false,
        }
    }
}

impl RamfluxClient {
    /// The device that fetches an attachment, if the attachment's grant lets it. `signature` is what
    /// checking the owner's signature over the grant came to. Nothing is fetched without this.
    pub fn check_attachment_grant(
        &self,
        protocol: &RelayV3Protocol,
        attachment: &SdkDmAttachmentRef,
        now: u64,
        signature: &SignatureOutcome,
    ) -> (r: Result<DeviceBranch, SdkError>)
        ensures
            match self.device_branch {
                None => is_local_bus(r, "object relay requires a device branch"@),
                Some(branch) => {
                    let grant = match attachment.access_grant {
                        Some(grant) => Some(&grant),
                        None => None,
                    };
                    if grant_accepted(
                        grant,
                        *protocol,
                        branch.device_hash@,
                        attachment.object_id@,
                        attachment.manifest_hash@,
                        now,
                        *signature,
                    ) {
                        r == Ok::<DeviceBranch, SdkError>(branch)
                    } else {
                        is_grant_refusal(
                            r,
                            grant,
                            *protocol,
                            branch.device_hash@,
                            attachment.object_id@,
                            attachment.manifest_hash@,
                            now,
                            *signature,
                        )
                    }
                },
            },
    {
        let branch = match fetching_device(&self.device_branch) {
            Ok(branch) => branch,
            Err(error) => {
                return Err(error);
            },
        };
        let grant = match &attachment.access_grant {
            Some(grant) => Some(grant),
            None => None,
        };
        match verify_recipient_object_access_grant(
            protocol,
            grant,
            &branch,
            attachment.object_id.as_str(),
            attachment.manifest_hash.as_str(),
            now,
            signature,
        ) {
            Ok(_) => Ok(branch),
            Err(error) => Err(error),
        }
    }
}

/// The device that fetches from a relay.
pub fn fetching_device(branch: &Option<DeviceBranch>) -> (r: Result<DeviceBranch, SdkError>)
    ensures
        match *branch {
            Some(device) => r == Ok::<DeviceBranch, SdkError>(device),
            None => is_local_bus(r, "object relay requires a device branch"@),
        },
{
    match branch {
        Some(device) => Ok(device.copy()),
        None => Err(local_bus("object relay requires a device branch")),
    }
}

/// Checks that an attachment is fetched over tokens that the gateway issues.
pub fn check_attachment_provider(options: &RelayTransferOptions) -> (r: Result<(), SdkError>)
    ensures
        if options.token_provider is GatewayIssued {
            r is Ok
        } else {
            is_denied(r, "gateway DM attachment GET requires gateway-issued v3 QUIC transport"@)
        },
{
    match options.token_provider {
        RelayTokenProvider::GatewayIssued => Ok(()),
        _ => Err(
            denied("gateway DM attachment GET requires gateway-issued v3 QUIC transport"),
        ),
    }
}

/// What stands for an attachment's object until it has been fetched: as many zeros as it has bytes,
/// or none if there would be more than can be held.
pub fn stub_length(attachment: &SdkDmAttachmentRef) -> (r: usize)
    ensures
        r == (if attachment.cipher_size <= usize::MAX {
            attachment.cipher_size as int
        } else {
            0
        }),
{
    if attachment.cipher_size <= usize::MAX as u64 {
        attachment.cipher_size as usize
    } else {
        0
    }
}

/// The chunk numbers before the given one, in order.
pub open spec fn numbers_below(n: nat) -> Seq<u32> {
    Seq::new(n, |i: int| i as u32)
}

/// How the fetching of an attachment stands. It starts at the first chunk each time.
pub struct AttachmentDownload {
    pub next: u32,
    pub completed: Vec<u32>,
    pub done_bytes: u64,
    pub expires_at: u64,
}

impl AttachmentDownload {
    /// Whether the chunks that are done are all those before the next.
    pub open spec fn well_formed(self, attachment: SdkDmAttachmentRef) -> bool {
        &&& self.next <= attachment.total_chunks
        &&& self.completed@ == numbers_below(self.next as nat)
    }

    /// Starts with the first chunk.
    pub fn start(attachment: &SdkDmAttachmentRef, expires_at: u64) -> (r: AttachmentDownload)
        ensures
            r.well_formed(*attachment),
            r.next == 0,
            r.done_bytes == 0,
            r.expires_at == expires_at,
    {
        let completed: Vec<u32> = Vec::new();
        assert(completed@ =~= numbers_below(0));
        AttachmentDownload { next: 0, completed, done_bytes: 0, expires_at }
    }

    /// The chunk that is to be fetched next, if one is missing.
    pub fn wanted(&self, attachment: &SdkDmAttachmentRef) -> (r: Option<u32>)
        requires
            self.well_formed(*attachment),
        ensures
            r == (if self.next < attachment.total_chunks {
                Some(self.next)
            } else {
                None
            }),
            r is None ==> self.completed@ == numbers_below(attachment.total_chunks as nat),
    {
        if self.next < attachment.total_chunks {
            Some(self.next)
        } else {
            None
        }
    }

    /// Takes the relay's answer with the wanted chunk: the hash that came with it, the hash of what
    /// came, and what decrypting it came to, which is how many bytes of plaintext it has. Only if the
    /// two hashes agree and the chunk could be decrypted is it done; otherwise nothing changes.
    pub fn chunk_received(
        &mut self,
        branch: Option<&DeviceBranch>,
        attachment: &SdkDmAttachmentRef,
        relay_endpoint: &str,
        claimed: &str,
        recomputed: &str,
        decrypted: Result<u64, SdkError>,
        now: i64,
    ) -> (r: Result<ObjectTransferWrite, SdkError>)
        requires
            old(self).well_formed(*attachment),
            old(self).next < attachment.total_chunks,
        ensures
            final(self).well_formed(*attachment),
            if claimed@ != recomputed@ {
                is_local_bus(r, "object relay chunk hash mismatch"@) && *final(self) == *old(self)
            } else {
                match decrypted {
                    Err(error) => r == Err::<ObjectTransferWrite, SdkError>(error) && *final(self)
                        == *old(self),
                    Ok(len) => r matches Ok(write) && {
                        &&& final(self).next == old(self).next + 1
                        &&& final(self).done_bytes == capped((old(self).done_bytes + len) as nat)
                        &&& final(self).expires_at == old(self).expires_at
                        &&& records_attachment(
                            write,
                            peer_name(branch),
                            *attachment,
                            relay_endpoint@,
                            final(self).completed@,
                            final(self).done_bytes,
                            final(self).expires_at,
                            "running"@,
                            now,
                        )
                    },
                }
            },
    {
        match check_chunk_hash(claimed, recomputed) {
            Ok(_) => {},
            Err(error) => {
                return Err(error);
            },
        }
        let len: u64 = match decrypted {
            Ok(len) => len,
            Err(error) => {
                return Err(error);
            },
        };
        let ghost before = self.completed@;
        let completed = with_chunk(&self.completed, self.next);
        proof {
            lemma_next_number(before, completed@, self.next);
        }
        self.completed = completed;
        self.next = self.next + 1;
        self.done_bytes = self.done_bytes.saturating_add(len);
        Ok(
            persist_object_transfer(
                branch,
                &attachment_subject(attachment, relay_endpoint, self.expires_at),
                &self.completed,
                self.done_bytes,
                "running",
                now,
            ),
        )
    }

    /// What is recorded once the object has been put together and kept.
    pub fn finished(
        &self,
        branch: Option<&DeviceBranch>,
        attachment: &SdkDmAttachmentRef,
        object_len: usize,
        relay_endpoint: &str,
        now: i64,
    ) -> (r: ObjectTransferWrite)
        requires
            self.well_formed(*attachment),
        ensures
            records_progress(
                r,
                peer_name(branch),
                attachment.object_id@,
                attachment.manifest_hash@,
                object_len as nat,
                "download"@,
                relay_endpoint@,
                whole_chunk_size(*attachment),
                attachment.total_chunks,
                self.expires_at,
                self.completed@,
                object_len as u64,
                "complete"@,
                now,
            ),
    {
        let mut subject = attachment_subject(attachment, relay_endpoint, self.expires_at);
        subject.total_bytes = object_len;
        persist_object_transfer(
            branch,
            &subject,
            &self.completed,
            object_len as u64,
            "complete",
            now,
        )
    }
}

/// The size of an attachment's chunks: at least one byte.
pub open spec fn whole_chunk_size(attachment: SdkDmAttachmentRef) -> nat {
    if attachment.chunk_size == 0 {
        1
    } else {
        attachment.chunk_size as nat
    }
}

/// Whether `w` records how far the fetching of an attachment has come.
pub open spec fn records_attachment(
    w: ObjectTransferWrite,
    peer: Seq<char>,
    attachment: SdkDmAttachmentRef,
    relay_endpoint: Seq<char>,
    completed: Seq<u32>,
    done_bytes: u64,
    expires_at: u64,
    state: Seq<char>,
    now: i64,
) -> bool {
    records_progress(
        w,
        peer,
        attachment.object_id@,
        attachment.manifest_hash@,
        if attachment.cipher_size <= usize::MAX {
            attachment.cipher_size as nat
        } else {
            0
        },
        "download"@,
        relay_endpoint,
        whole_chunk_size(attachment),
        attachment.total_chunks,
        expires_at,
        completed,
        done_bytes,
        state,
        now,
    )
}

fn attachment_subject<'a>(
    attachment: &'a SdkDmAttachmentRef,
    relay_endpoint: &'a str,
    expires_at: u64,
) -> (r: TransferSubject<'a>)
    ensures
        r.object_id@ == attachment.object_id@,
        r.manifest_hash@ == attachment.manifest_hash@,
        r.total_bytes == (if attachment.cipher_size <= usize::MAX {
            attachment.cipher_size as int
        } else {
            0
        }),
        r.direction@ == "download"@,
        r.relay_endpoint@ == relay_endpoint@,
        r.chunk_size == whole_chunk_size(*attachment),
        r.total_chunks == attachment.total_chunks,
        r.expires_at == expires_at,
{
    TransferSubject {
        object_id: attachment.object_id.as_str(),
        manifest_hash: attachment.manifest_hash.as_str(),
        total_bytes: stub_length(attachment),
        direction: OBJECT_TRANSFER_DOWNLOAD,
        relay_endpoint,
        chunk_size: if attachment.chunk_size == 0 {
            1
        } else {
            attachment.chunk_size
        },
        total_chunks: attachment.total_chunks,
        expires_at,
    }
}

proof fn lemma_next_number(before: Seq<u32>, after: Seq<u32>, next: u32)
    requires
        before == numbers_below(next as nat),
        crate::chunks::is_sorted_with(after, before, next),
        next < u32::MAX,
    ensures
        after == numbers_below((next + 1) as nat),
{
    let wanted = numbers_below((next + 1) as nat);
    assert(crate::chunks::ascending(wanted));
    assert forall|x: u32| after.contains(x) == wanted.contains(x) by {
        if x <= next {
            assert(wanted[x as int] == x);
            if x < next {
                assert(before[x as int] == x);
            }
        }
        if wanted.contains(x) {
            let i = choose|i: int| 0 <= i < wanted.len() && wanted[i] == x;
            assert(x <= next);
        }
        if before.contains(x) {
            let i = choose|i: int| 0 <= i < before.len() && before[i] == x;
            assert(x < next);
        }
    }
    crate::chunks::law_ascending_is_determined(after, wanted);
}

} // verus!
