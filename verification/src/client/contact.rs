//! The links of the unlocked account, and what its contacts' events ask for.
use crate::client::state::RamfluxClient;
use crate::contact::{
    contact_event_of_plaintext, contact_safety_material_for,
    contact_safety_material_from_manifest, is_assumed_material, is_material_of,
    is_plaintext_answer, is_recipe_of, is_safety_number, linked_self_identity, own_side,
    safety_number_of, ContactAction, ContactVerificationRecord, DecodedManifest, FriendLinkRecord,
    SafetyMaterial, SdkContactSafetyMaterialPair, SdkContactSafetyNumber,
};
use crate::error::{is_local_bus, SdkError};
use crate::json::{
    empty_object, encode_object, json_document, with_member, JsonMember, JsonScalar,
};
use crate::manifest::CheckedDevice;
use crate::records::{AccountDbRequest, EventLog, EventWrite};
use vstd::prelude::*;

verus! {

/// What is kept when a contact's safety number has been compared.
#[derive(Clone, Debug, PartialEq, Eq)]
pub struct ContactVerificationUpdate {
    pub contact_identity_commitment: String,
    pub safety_number_hash: String,
    pub device_set_hash: String,
    pub lineage_head: String,
    pub verified_at: i64,
    pub verified_by_device_id: String,
}

/// Whether `update` says that the safety number of a contact was compared.
pub open spec fn marks_verified(
    update: ContactVerificationUpdate,
    contact: Seq<char>,
    material: SafetyMaterial,
    verified_by_device_id: Seq<char>,
    now: i64,
) -> bool {
    &&& update.contact_identity_commitment@ == contact
    &&& update.safety_number_hash == material.safety_number_hash
    &&& update.device_set_hash == material.contact_device_set_hash
    &&& update.lineage_head == material.contact_lineage_head
    &&& update.verified_at == now
    &&& update.verified_by_device_id@ == verified_by_device_id
}

/// Whether the key of every device of a manifest is decoded.
pub open spec fn decodes_whole(manifest: DecodedManifest) -> bool {
    forall|i: int|
        0 <= i < manifest.devices@.len() ==> (#[trigger] manifest.devices@[i]).branch_key is Ok
}

/// Which identity a device belongs to, as it is written to the account database.
#[derive(Clone, Debug, PartialEq, Eq)]
pub struct DeviceDirectoryWrite {
    pub device_id: String,
    pub principal_commitment: String,
    pub source: String,
    pub verified_at: i64,
}

/// Whether `q` carries out what a contact's event asks for.
pub open spec fn carries_out(q: AccountDbRequest, action: ContactAction, now: i64) -> bool {
    match action {
        ContactAction::Ignore => false,
        ContactAction::RecordPending { link_id, requester_id, target_id } => q
            == (AccountDbRequest::RecordPendingFriendLink { link_id, requester_id, target_id, now }),
        ContactAction::Establish { link_id, requester_id, target_id } => q
            == (AccountDbRequest::EstablishFriendLink { link_id, requester_id, target_id }),
        ContactAction::Remove { link_id, scope } => q == (AccountDbRequest::RemoveFriendLink {
            link_id,
            scope,
            now,
        }),
        ContactAction::Block { link_id } => q == (AccountDbRequest::BlockFriendLink { link_id, now }),
        ContactAction::Unblock { link_id } => q == (AccountDbRequest::UnblockFriendLink {
            link_id,
            now,
        }),
    }
}

/// A change of a link that is recorded as an event.
#[derive(Clone, Copy, Debug, PartialEq, Eq, Structural)]
pub enum FriendChange {
    Removed,
    Blocked,
    Unblocked,
    Rejected,
}

impl FriendChange {
    /// The type of the event.
    pub open spec fn word(self) -> Seq<char> {
        match self {
            FriendChange::Removed => "friend.removed"@,
            FriendChange::Blocked => "friend.blocked"@,
            FriendChange::Unblocked => "friend.unblocked"@,
            FriendChange::Rejected => "friend.rejected"@,
        }
    }

    /// The type of the event.
    pub fn event_type(self) -> (r: &'static str)
        ensures
            r@ == self.word(),
    {
        match self {
            FriendChange::Removed => "friend.removed",
            FriendChange::Blocked => "friend.blocked",
            FriendChange::Unblocked => "friend.unblocked",
            FriendChange::Rejected => "friend.rejected",
        }
    }
}

/// What the account database is told about a link, and how that is then recorded, if it is.
#[derive(Clone, Debug, PartialEq, Eq)]
pub struct FriendLinkUpdate {
    pub request: AccountDbRequest,
    pub change: Option<FriendChange>,
}

/// The identifier of the event that records a change of a link.
pub open spec fn change_event(change: FriendChange, link_id: Seq<char>) -> Seq<char> {
    change.word() + ":"@ + link_id
}

/// The members of the event that records a change of a link: its type, and the link as it is stored.
pub open spec fn change_members(change: FriendChange, link: FriendLinkRecord) -> Map<
    Seq<char>,
    JsonMember,
> {
    Map::<Seq<char>, JsonMember>::empty().insert("type"@, JsonMember::Text(change.word())).insert(
        "link_id"@,
        JsonMember::Text(link.link_id@),
    ).insert("requester"@, JsonMember::Text(link.requester_id@)).insert(
        "target"@,
        JsonMember::Text(link.target_id@),
    ).insert(
        "remove_scope"@,
        match link.remove_scope {
            Some(scope) => JsonMember::Text(scope@),
            None => JsonMember::Null,
        },
    ).insert("blocked"@, JsonMember::Truth(link.blocked)).insert(
        "capability_revoked_at"@,
        match link.capability_revoked_at {
            Some(at) => JsonMember::Whole(at as int),
            None => JsonMember::Null,
        },
    )
}

/// Whether `w` records a change of a link, and points the checkpoint of contacts to it.
pub open spec fn records_change(w: EventWrite, change: FriendChange, link: FriendLinkRecord) -> bool {
    &&& w.event matches AccountDbRequest::AppendEvent { event_id, event_type, body } && event_id@
        == change_event(change, link.link_id@) && event_type@ == change.word() && json_document(
        body@,
    ) == Some(change_members(change, link))
    &&& w.checkpoint matches AccountDbRequest::SetProjectionCheckpoint {
        projection_name,
        last_event_id,
    } && projection_name@ == "friend.control"@ && last_event_id@ == change_event(
        change,
        link.link_id@,
    )
}

/// Unblocking a link for the first time adds an event of its own, to which the checkpoint of contacts
/// then points, and the event of the blocking stays as it was.
pub proof fn law_unblocking_keeps_the_blocking(
    log: EventLog,
    blocked: EventWrite,
    unblocked: EventWrite,
    link_then: FriendLinkRecord,
    link_now: FriendLinkRecord,
)
    requires
        records_change(blocked, FriendChange::Blocked, link_then),
        records_change(unblocked, FriendChange::Unblocked, link_now),
        link_then.link_id@ == link_now.link_id@,
        log.body("friend.blocked:"@ + link_now.link_id@) is None,
        log.body("friend.unblocked:"@ + link_now.link_id@) is None,
    ensures
        ({
            let id = link_now.link_id@;
            let first = log.after(blocked);
            let second = first.after(unblocked);
            &&& first.checkpoints["friend.control"@] == "friend.blocked:"@ + id
            &&& second.checkpoints["friend.control"@] == "friend.unblocked:"@ + id
            &&& second.events.contains_key("friend.unblocked:"@ + id)
            &&& second.events.contains_key("friend.blocked:"@ + id)
            &&& second.events["friend.blocked:"@ + id] == first.events["friend.blocked:"@ + id]
            &&& json_document(second.events["friend.blocked:"@ + id]) == Some(
                change_members(FriendChange::Blocked, link_then),
            )
            &&& json_document(second.events["friend.unblocked:"@ + id]) == Some(
                change_members(FriendChange::Unblocked, link_now),
            )
        }),
{
    let id = link_now.link_id@;
    reveal_strlit("friend.blocked");
    reveal_strlit("friend.unblocked");
    reveal_strlit("friend.blocked:");
    reveal_strlit("friend.unblocked:");
    reveal_strlit(":");
    assert("friend.blocked:"@ + id =~= change_event(FriendChange::Blocked, id));
    assert("friend.unblocked:"@ + id =~= change_event(FriendChange::Unblocked, id));
    assert(("friend.blocked:"@ + id).len() != ("friend.unblocked:"@ + id).len());
}

/// The event that records a change of a link, as it is stored.
fn change_body(change: FriendChange, link: &FriendLinkRecord) -> (r: Vec<u8>)
    ensures
        json_document(r@) == Some(change_members(change, *link)),
{
    let object = empty_object();
    let object = with_member(object, "type", JsonScalar::Text(change.event_type().to_owned()));
    let object = with_member(object, "link_id", JsonScalar::Text(link.link_id.clone()));
    let object = with_member(object, "requester", JsonScalar::Text(link.requester_id.clone()));
    let object = with_member(object, "target", JsonScalar::Text(link.target_id.clone()));
    let object = with_member(
        object,
        "remove_scope",
        match &link.remove_scope {
            Some(scope) => JsonScalar::Text(scope.clone()),
            None => JsonScalar::Null,
        },
    );
    let object = with_member(object, "blocked", JsonScalar::Truth(link.blocked));
    let object = with_member(
        object,
        "capability_revoked_at",
        match link.capability_revoked_at {
            Some(at) => JsonScalar::Whole(at),
            None => JsonScalar::Null,
        },
    );
    encode_object(&object).unwrap()
}

/// How a change that a contact asked for is recorded, if it is.
pub open spec fn recorded_as(action: ContactAction) -> Option<FriendChange> {
    match action {
        ContactAction::Remove { link_id, scope } => Some(FriendChange::Removed),
        ContactAction::Block { link_id } => Some(FriendChange::Blocked),
        ContactAction::Unblock { link_id } => Some(FriendChange::Unblocked),
        _ => None,
    }
}

/// Whether a document is an event that asks for something.
pub open spec fn asks_something(
    document: Option<Map<Seq<char>, crate::json::JsonMember>>,
) -> bool {
    exists|action: ContactAction|
        !(action is Ignore) && #[trigger] is_plaintext_answer(
            Ok::<ContactAction, SdkError>(action),
            document,
        )
}

impl RamfluxClient {
    /// What the account database is told about what a contact's event asks for.
    pub fn apply_contact_action(&self, action: ContactAction, now: i64) -> (r: Result<
        Option<FriendLinkUpdate>,
        SdkError,
    >)
        ensures
            if action is Ignore {
                r == Ok::<Option<FriendLinkUpdate>, SdkError>(None)
            } else if !self.unlocked() {
                r == Err::<Option<FriendLinkUpdate>, SdkError>(SdkError::AccountDbNotUnlocked)
            } else {
                r matches Ok(Some(u)) && carries_out(u.request, action, now) && u.change
                    == recorded_as(action)
            },
    {
        match action {
            ContactAction::Ignore => {
                return Ok(None);
            },
            _ => {},
        }
        match self.account_db() {
            Ok(_) => {},
            Err(error) => {
                return Err(error);
            },
        }
        let change = match &action {
            ContactAction::Remove { link_id, scope } => Some(FriendChange::Removed),
            ContactAction::Block { link_id } => Some(FriendChange::Blocked),
            ContactAction::Unblock { link_id } => Some(FriendChange::Unblocked),
            _ => None,
        };
        let request = match action {
            ContactAction::Ignore => {
                return Ok(None);
            },
            ContactAction::RecordPending {
                link_id,
                requester_id,
                target_id,
            } => AccountDbRequest::RecordPendingFriendLink { link_id, requester_id, target_id, now },
            ContactAction::Establish {
                link_id,
                requester_id,
                target_id,
            } => AccountDbRequest::EstablishFriendLink { link_id, requester_id, target_id },
            ContactAction::Remove { link_id, scope } => AccountDbRequest::RemoveFriendLink {
                link_id,
                scope,
                now,
            },
            ContactAction::Block { link_id } => AccountDbRequest::BlockFriendLink { link_id, now },
            ContactAction::Unblock { link_id } => AccountDbRequest::UnblockFriendLink {
                link_id,
                now,
            },
        };
        Ok(Some(FriendLinkUpdate { request, change }))
    }

    /// What the account database is told about the plaintext of a message, as a contact's event, and
    /// how that is then recorded. A plaintext that is none leaves it as it is.
    pub fn apply_contact_event_plaintext(&self, plaintext: &[u8], now: i64) -> (r: Result<
        (ContactAction, Option<FriendLinkUpdate>),
        SdkError,
    >)
        ensures
            match r {
                Ok((action, update)) => {
                    &&& is_plaintext_answer(
                        Ok::<ContactAction, SdkError>(action),
                        json_document(plaintext@),
                    )
                    &&& if action is Ignore {
                        update is None
                    } else {
                        &&& self.unlocked()
                        &&& update is Some
                        &&& carries_out(update->0.request, action, now)
                        &&& update->0.change == recorded_as(action)
                    }
                },
                Err(error) => is_plaintext_answer(
                    Err::<ContactAction, SdkError>(error),
                    json_document(plaintext@),
                ) || (!self.unlocked() && error is AccountDbNotUnlocked && asks_something(
                    json_document(plaintext@),
                )),
            },
    {
        let action = match contact_event_of_plaintext(plaintext) {
            Ok(action) => action,
            Err(error) => {
                return Err(error);
            },
        };
        let kept = copy_action(&action);
        match self.apply_contact_action(action, now) {
            Ok(update) => Ok((kept, update)),
            Err(error) => Err(error),
        }
    }

    /// Records a change of a link, by the link as it is stored after the change.
    pub fn append_contact_control_event(&self, change: FriendChange, link: &FriendLinkRecord) -> (r:
        Result<EventWrite, SdkError>)
        ensures
            if self.unlocked() {
                r matches Ok(w) && records_change(w, change, *link)
            } else {
                r matches Err(SdkError::AccountDbNotUnlocked)
            },
    {
        let body = change_body(change, link);
        let event_id = change.event_type().to_owned().concat(":").concat(link.link_id.as_str());
        let event = match self.append_event(
            event_id.as_str(),
            change.event_type(),
            body.as_slice(),
        ) {
            Ok(request) => request,
            Err(error) => {
                return Err(error);
            },
        };
        match self.set_projection_checkpoint("friend.control", event_id.as_str()) {
            Ok(checkpoint) => Ok(EventWrite { event, checkpoint }),
            Err(error) => Err(error),
        }
    }

    /// What follows once the account database has been told about a link. `stored` is what came of
    /// that: the link as it is stored now, or why it is not. A change that is recorded is recorded
    /// with the link as it is stored, and the link is handed out.
    pub fn friend_link_updated(
        &self,
        update: &FriendLinkUpdate,
        stored: Result<FriendLinkRecord, SdkError>,
    ) -> (r: Result<(FriendLinkRecord, Option<EventWrite>), SdkError>)
        ensures
            match (stored, update.change) {
                (Err(error), _) => r == Err::<(FriendLinkRecord, Option<EventWrite>), SdkError>(
                    error,
                ),
                (Ok(link), None) => r == Ok::<(FriendLinkRecord, Option<EventWrite>), SdkError>(
                    (link, None),
                ),
                (Ok(link), Some(change)) => if self.unlocked() {
                    r matches Ok((got, Some(w))) && got == link && records_change(w, change, link)
                } else {
                    r matches Err(SdkError::AccountDbNotUnlocked)
                },
            },
    {
        let link = match stored {
            Ok(link) => link,
            Err(error) => {
                return Err(error);
            },
        };
        match update.change {
            None => Ok((link, None)),
            Some(change) => match self.append_contact_control_event(change, &link) {
                Ok(write) => Ok((link, Some(write))),
                Err(error) => Err(error),
            },
        }
    }

    /// Keeps which identity the devices of a believed manifest belong to, each in its order.
    pub fn cache_verified_device_manifest(
        &self,
        devices: &Vec<CheckedDevice>,
        principal_commitment: &str,
        source: &str,
        now: i64,
    ) -> (r: Result<Vec<DeviceDirectoryWrite>, SdkError>)
        ensures
            if devices@.len() > 0 && !self.unlocked() {
                r matches Err(SdkError::AccountDbNotUnlocked)
            } else {
                r matches Ok(writes) && writes@.len() == devices@.len() && forall|i: int|
                    0 <= i < devices@.len() ==> {
                        let w = #[trigger] writes@[i];
                        &&& w.device_id@ == devices@[i].device.device_id@
                        &&& w.principal_commitment@ == principal_commitment@
                        &&& w.source@ == source@
                        &&& w.verified_at == now
                    }
            },
    {
        let mut writes: Vec<DeviceDirectoryWrite> = Vec::new();
        if devices.len() > 0 {
            match self.account_db() {
                Ok(_) => {},
                Err(error) => {
                    return Err(error);
                },
            }
        }
        let mut i: usize = 0;
        while i < devices.len()
            invariant
                i <= devices.len(),
                writes@.len() == i,
                forall|j: int|
                    0 <= j < i ==> {
                        let w = #[trigger] writes@[j];
                        &&& w.device_id@ == devices@[j].device.device_id@
                        &&& w.principal_commitment@ == principal_commitment@
                        &&& w.source@ == source@
                        &&& w.verified_at == now
                    },
            decreases devices.len() - i,
        {
            writes.push(
                DeviceDirectoryWrite {
                    device_id: devices[i].device.device_id.clone(),
                    principal_commitment: principal_commitment.to_owned(),
                    source: source.to_owned(),
                    verified_at: now,
                },
            );
            i = i + 1;
        }
        Ok(writes)
    }

    /// What the two sides of a safety number add, by what is known here alone: what this identity adds
    /// stands on this side, and what the contact adds on the other. `links` are the stored links.
    pub fn contact_safety_material_pair(
        &self,
        links: &Vec<FriendLinkRecord>,
        contact_identity_commitment: &str,
    ) -> (r: Result<SdkContactSafetyMaterialPair, SdkError>)
        ensures
            if !self.unlocked() {
                r matches Err(SdkError::AccountDbNotUnlocked)
            } else {
                match own_side(links@, contact_identity_commitment@) {
                    None => is_local_bus(
                        r,
                        "contact is not linked: "@ + contact_identity_commitment@,
                    ),
                    Some(own) => r matches Ok(pair) && {
                        &&& pair.self_identity_commitment@ == own
                        &&& is_assumed_material(pair.self_material, own)
                        &&& is_assumed_material(pair.contact_material, contact_identity_commitment@)
                    },
                }
            },
    {
        match self.account_db() {
            Ok(_) => {},
            Err(error) => {
                return Err(error);
            },
        }
        match linked_self_identity(links, contact_identity_commitment) {
            Ok(own) => Ok(
                SdkContactSafetyMaterialPair {
                    self_material: contact_safety_material_for(own.as_str()),
                    contact_material: contact_safety_material_for(contact_identity_commitment),
                    self_identity_commitment: own,
                },
            ),
            Err(error) => Err(error),
        }
    }

    /// Whether `r` is what the two sides of a safety number add by their manifests. Both are fetched
    /// before the first is read.
    pub open spec fn is_fetched_pair(
        self,
        r: Result<SdkContactSafetyMaterialPair, SdkError>,
        links: Seq<FriendLinkRecord>,
        contact: Seq<char>,
        self_manifest: Result<DecodedManifest, SdkError>,
        contact_manifest: Result<DecodedManifest, SdkError>,
    ) -> bool {
        if !self.unlocked() {
            r matches Err(SdkError::AccountDbNotUnlocked)
        } else {
            match (own_side(links, contact), self_manifest, contact_manifest) {
                (None, _, _) => is_local_bus(r, "contact is not linked: "@ + contact),
                (Some(_), Err(error), _) => r == Err::<SdkContactSafetyMaterialPair, SdkError>(
                    error,
                ),
                (Some(_), Ok(_), Err(error)) => r == Err::<SdkContactSafetyMaterialPair, SdkError>(
                    error,
                ),
                (Some(own), Ok(ours), Ok(theirs)) => match r {
                    Ok(pair) => {
                        &&& pair.self_identity_commitment@ == own
                        &&& is_material_of(Ok(pair.self_material), ours)
                        &&& is_material_of(Ok(pair.contact_material), theirs)
                    },
                    Err(error) => is_material_of(Err(error), ours) || (decodes_whole(ours)
                        && is_material_of(Err(error), theirs)),
                },
            }
        }
    }

    /// What the two sides of a safety number add by their manifests, each verified for its identity,
    /// or why a manifest could not be had.
    pub fn contact_safety_material_pair_via_gateway(
        &self,
        links: &Vec<FriendLinkRecord>,
        contact_identity_commitment: &str,
        self_manifest: Result<DecodedManifest, SdkError>,
        contact_manifest: Result<DecodedManifest, SdkError>,
    ) -> (r: Result<SdkContactSafetyMaterialPair, SdkError>)
        ensures
            self.is_fetched_pair(
                r,
                links@,
                contact_identity_commitment@,
                self_manifest,
                contact_manifest,
            ),
    {
        match self.account_db() {
            Ok(_) => {},
            Err(error) => {
                return Err(error);
            },
        }
        let own = match linked_self_identity(links, contact_identity_commitment) {
            Ok(own) => own,
            Err(error) => {
                return Err(error);
            },
        };
        let ours = match self_manifest {
            Ok(manifest) => manifest,
            Err(error) => {
                return Err(error);
            },
        };
        let theirs = match contact_manifest {
            Ok(manifest) => manifest,
            Err(error) => {
                return Err(error);
            },
        };
        let self_material = match contact_safety_material_from_manifest(
            ours.principal_commitment.as_str(),
            ours.root_public_key.as_str(),
            &ours.devices,
        ) {
            Ok(material) => material,
            Err(error) => {
                return Err(error);
            },
        };
        assert(decodes_whole(ours)) by {
            assert forall|i: int| 0 <= i < ours.devices@.len() implies (
            #[trigger] ours.devices@[i]).branch_key is Ok by {
                assert(is_recipe_of(self_material.devices@[i], ours.devices@[i]));
            }
        }
        match contact_safety_material_from_manifest(
            theirs.principal_commitment.as_str(),
            theirs.root_public_key.as_str(),
            &theirs.devices,
        ) {
            Ok(contact_material) => Ok(
                SdkContactSafetyMaterialPair {
                    self_material,
                    contact_material,
                    self_identity_commitment: own,
                },
            ),
            Err(error) => Err(error),
        }
    }

    /// The safety number of a linked contact, by what is known here alone. `links` are the stored
    /// links, and `material` is computed from the two sides of `contact_safety_material_pair`.
    pub fn contact_safety_number(
        &self,
        links: &Vec<FriendLinkRecord>,
        contact_identity_commitment: &str,
        material: SafetyMaterial,
        record: &Option<ContactVerificationRecord>,
    ) -> (r: Result<SdkContactSafetyNumber, SdkError>)
        ensures
            if !self.unlocked() {
                r matches Err(SdkError::AccountDbNotUnlocked)
            } else {
                match own_side(links@, contact_identity_commitment@) {
                    None => is_local_bus(
                        r,
                        "contact is not linked: "@ + contact_identity_commitment@,
                    ),
                    Some(own) => r matches Ok(n) && is_safety_number(
                        n,
                        contact_identity_commitment@,
                        own,
                        1,
                        1,
                        material,
                        *record,
                        false,
                    ),
                }
            },
    {
        match self.contact_safety_material_pair(links, contact_identity_commitment) {
            Ok(pair) => Ok(
                safety_number_of(contact_identity_commitment, pair, material, record, false),
            ),
            Err(error) => Err(error),
        }
    }

    /// The safety number of a linked contact, by the devices that were fetched for both sides. `pair`
    /// is what `contact_safety_material_pair_via_gateway` came to, and `material` is computed from its
    /// two sides.
    pub fn contact_safety_number_via_gateway(
        &self,
        contact_identity_commitment: &str,
        pair: Result<SdkContactSafetyMaterialPair, SdkError>,
        material: SafetyMaterial,
        record: &Option<ContactVerificationRecord>,
    ) -> (r: Result<SdkContactSafetyNumber, SdkError>)
        ensures
            match pair {
                Err(error) => r == Err::<SdkContactSafetyNumber, SdkError>(error),
                Ok(pair) => if self.unlocked() {
                    r matches Ok(n) && is_safety_number(
                        n,
                        contact_identity_commitment@,
                        pair.self_identity_commitment@,
                        pair.self_material.devices@.len(),
                        pair.contact_material.devices@.len(),
                        material,
                        *record,
                        true,
                    )
                } else {
                    r matches Err(SdkError::AccountDbNotUnlocked)
                },
            },
    {
        let pair = match pair {
            Ok(pair) => pair,
            Err(error) => {
                return Err(error);
            },
        };
        match self.account_db() {
            Ok(_) => Ok(
                safety_number_of(contact_identity_commitment, pair, material, record, true),
            ),
            Err(error) => Err(error),
        }
    }

    /// What is kept when a contact's safety number has been compared. A contact without an accepted
    /// link is not marked. `material` is what the number is made of.
    pub fn mark_contact_safety_verified(
        &self,
        links: &Vec<FriendLinkRecord>,
        contact_identity_commitment: &str,
        material: SafetyMaterial,
        verified_by_device_id: &str,
        now: i64,
    ) -> (r: Result<ContactVerificationUpdate, SdkError>)
        ensures
            if !self.unlocked() {
                r matches Err(SdkError::AccountDbNotUnlocked)
            } else if own_side(links@, contact_identity_commitment@) is None {
                is_local_bus(r, "contact is not linked: "@ + contact_identity_commitment@)
            } else {
                r matches Ok(update) && marks_verified(
                    update,
                    contact_identity_commitment@,
                    material,
                    verified_by_device_id@,
                    now,
                )
            },
    {
        let safety = match self.contact_safety_number(
            links,
            contact_identity_commitment,
            material,
            &None,
        ) {
            Ok(safety) => safety,
            Err(error) => {
                return Err(error);
            },
        };
        Ok(
            ContactVerificationUpdate {
                contact_identity_commitment: contact_identity_commitment.to_owned(),
                safety_number_hash: safety.safety_number_hash,
                device_set_hash: safety.contact_device_set_hash,
                lineage_head: safety.contact_lineage_head,
                verified_at: now,
                verified_by_device_id: verified_by_device_id.to_owned(),
            },
        )
    }

    /// Establishes a link.
    pub fn establish_friend_link(
        &self,
        link_id: &str,
        requester_id: &str,
        target_id: &str,
    ) -> (r: Result<AccountDbRequest, SdkError>)
        ensures
            if self.unlocked() {
                r matches Ok(AccountDbRequest::EstablishFriendLink {
                    link_id: got_link_id,
                    requester_id: got_requester_id,
                    target_id: got_target_id,
                }) && {
                    &&& got_link_id@ == link_id@
                    &&& got_requester_id@ == requester_id@
                    &&& got_target_id@ == target_id@
                }
            } else {
                r == Err::<AccountDbRequest, SdkError>(SdkError::AccountDbNotUnlocked)
            },
    {
        match self.account_db() {
            Ok(_) => Ok(
                AccountDbRequest::EstablishFriendLink {
                    link_id: link_id.to_owned(),
                    requester_id: requester_id.to_owned(),
                    target_id: target_id.to_owned(),
                },
            ),
            Err(error) => Err(error),
        }
    }

    /// Asks for all links.
    pub fn friend_links(&self) -> (r: Result<AccountDbRequest, SdkError>)
        ensures
            if self.unlocked() {
                r matches Ok(AccountDbRequest::FriendLinks)
            } else {
                r == Err::<AccountDbRequest, SdkError>(SdkError::AccountDbNotUnlocked)
            },
    {
        match self.account_db() {
            Ok(_) => Ok(AccountDbRequest::FriendLinks),
            Err(error) => Err(error),
        }
    }

    /// Asks for the verification of a contact.
    pub fn contact_verification_status(
        &self,
        contact_identity_commitment: &str,
    ) -> (r: Result<AccountDbRequest, SdkError>)
        ensures
            if self.unlocked() {
                r matches Ok(AccountDbRequest::ContactVerification {
                    contact_identity_commitment: got_contact_identity_commitment,
                }) && {
                    &&& got_contact_identity_commitment@ == contact_identity_commitment@
                }
            } else {
                r == Err::<AccountDbRequest, SdkError>(SdkError::AccountDbNotUnlocked)
            },
    {
        match self.account_db() {
            Ok(_) => Ok(
                AccountDbRequest::ContactVerification {
                    contact_identity_commitment: contact_identity_commitment.to_owned(),
                },
            ),
            Err(error) => Err(error),
        }
    }

    /// Removes a link; the change is recorded once it is stored.
    pub fn remove_friend_link(
        &self,
        link_id: &str,
        scope: &str,
        now: i64,
    ) -> (r: Result<FriendLinkUpdate, SdkError>)
        ensures
            if self.unlocked() {
                r matches Ok(update) && update.change == Some(
                    FriendChange::Removed,
                ) && (update.request matches AccountDbRequest::RemoveFriendLink {
                    link_id: got_link_id,
                    scope: got_scope,
                    now: got_now,
                } && {
                    &&& got_link_id@ == link_id@
                    &&& got_scope@ == scope@
                    &&& got_now == now
                })
            } else {
                r == Err::<FriendLinkUpdate, SdkError>(SdkError::AccountDbNotUnlocked)
            },
    {
        match self.account_db() {
            Ok(_) => Ok(
                FriendLinkUpdate {
                    request: AccountDbRequest::RemoveFriendLink {
                        link_id: link_id.to_owned(),
                        scope: scope.to_owned(),
                        now,
                    },
                    change: Some(FriendChange::Removed),
                },
            ),
            Err(error) => Err(error),
        }
    }

    /// Blocks a link; the change is recorded once it is stored.
    pub fn block_friend_link(
        &self,
        link_id: &str,
        now: i64,
    ) -> (r: Result<FriendLinkUpdate, SdkError>)
        ensures
            if self.unlocked() {
                r matches Ok(update) && update.change == Some(
                    FriendChange::Blocked,
                ) && (update.request matches AccountDbRequest::BlockFriendLink {
                    link_id: got_link_id,
                    now: got_now,
                } && {
                    &&& got_link_id@ == link_id@
                    &&& got_now == now
                })
            } else {
                r == Err::<FriendLinkUpdate, SdkError>(SdkError::AccountDbNotUnlocked)
            },
    {
        match self.account_db() {
            Ok(_) => Ok(
                FriendLinkUpdate {
                    request: AccountDbRequest::BlockFriendLink {
                        link_id: link_id.to_owned(),
                        now,
                    },
                    change: Some(FriendChange::Blocked),
                },
            ),
            Err(error) => Err(error),
        }
    }

    /// Unblocks a link; the change is recorded once it is stored.
    pub fn unblock_friend_link(
        &self,
        link_id: &str,
        now: i64,
    ) -> (r: Result<FriendLinkUpdate, SdkError>)
        ensures
            if self.unlocked() {
                r matches Ok(update) && update.change == Some(
                    FriendChange::Unblocked,
                ) && (update.request matches AccountDbRequest::UnblockFriendLink {
                    link_id: got_link_id,
                    now: got_now,
                } && {
                    &&& got_link_id@ == link_id@
                    &&& got_now == now
                })
            } else {
                r == Err::<FriendLinkUpdate, SdkError>(SdkError::AccountDbNotUnlocked)
            },
    {
        match self.account_db() {
            Ok(_) => Ok(
                FriendLinkUpdate {
                    request: AccountDbRequest::UnblockFriendLink {
                        link_id: link_id.to_owned(),
                        now,
                    },
                    change: Some(FriendChange::Unblocked),
                },
            ),
            Err(error) => Err(error),
        }
    }

    /// Records that a link is asked for.
    pub fn record_pending_friend_link(
        &self,
        link_id: &str,
        requester_id: &str,
        target_id: &str,
        now: i64,
    ) -> (r: Result<AccountDbRequest, SdkError>)
        ensures
            if self.unlocked() {
                r matches Ok(AccountDbRequest::RecordPendingFriendLink {
                    link_id: got_link_id,
                    requester_id: got_requester_id,
                    target_id: got_target_id,
                    now: got_now,
                }) && {
                    &&& got_link_id@ == link_id@
                    &&& got_requester_id@ == requester_id@
                    &&& got_target_id@ == target_id@
                    &&& got_now == now
                }
            } else {
                r == Err::<AccountDbRequest, SdkError>(SdkError::AccountDbNotUnlocked)
            },
    {
        match self.account_db() {
            Ok(_) => Ok(
                AccountDbRequest::RecordPendingFriendLink {
                    link_id: link_id.to_owned(),
                    requester_id: requester_id.to_owned(),
                    target_id: target_id.to_owned(),
                    now,
                },
            ),
            Err(error) => Err(error),
        }
    }

    /// Rejects a link; the change is recorded once it is stored.
    pub fn reject_friend_link(
        &self,
        link_id: &str,
        now: i64,
    ) -> (r: Result<FriendLinkUpdate, SdkError>)
        ensures
            if self.unlocked() {
                r matches Ok(update) && update.change == Some(
                    FriendChange::Rejected,
                ) && (update.request matches AccountDbRequest::RejectFriendLink {
                    link_id: got_link_id,
                    now: got_now,
                } && {
                    &&& got_link_id@ == link_id@
                    &&& got_now == now
                })
            } else {
                r == Err::<FriendLinkUpdate, SdkError>(SdkError::AccountDbNotUnlocked)
            },
    {
        match self.account_db() {
            Ok(_) => Ok(
                FriendLinkUpdate {
                    request: AccountDbRequest::RejectFriendLink {
                        link_id: link_id.to_owned(),
                        now,
                    },
                    change: Some(FriendChange::Rejected),
                },
            ),
            Err(error) => Err(error),
        }
    }

    /// Asks for the messages that were turned away.
    pub fn rejected_inbox(
        &self,
        conversation_id: &str,
    ) -> (r: Result<AccountDbRequest, SdkError>)
        ensures
            if self.unlocked() {
                r matches Ok(AccountDbRequest::RejectedInbox {
                    conversation_id: got_conversation_id,
                }) && {
                    &&& got_conversation_id@ == conversation_id@
                }
            } else {
                r == Err::<AccountDbRequest, SdkError>(SdkError::AccountDbNotUnlocked)
            },
    {
        match self.account_db() {
            Ok(_) => Ok(
                AccountDbRequest::RejectedInbox {
                    conversation_id: conversation_id.to_owned(),
                },
            ),
            Err(error) => Err(error),
        }
    }

    /// Asks for the link with a peer.
    pub fn friend_link_for_peer(
        &self,
        peer_id: &str,
    ) -> (r: Result<AccountDbRequest, SdkError>)
        ensures
            if self.unlocked() {
                r matches Ok(AccountDbRequest::FriendLinkForPeer {
                    peer_id: got_peer_id,
                }) && {
                    &&& got_peer_id@ == peer_id@
                }
            } else {
                r == Err::<AccountDbRequest, SdkError>(SdkError::AccountDbNotUnlocked)
            },
    {
        match self.account_db() {
            Ok(_) => Ok(
                AccountDbRequest::FriendLinkForPeer {
                    peer_id: peer_id.to_owned(),
                },
            ),
            Err(error) => Err(error),
        }
    }
}

fn copy_action(action: &ContactAction) -> (r: ContactAction)
    ensures
        r == *action,
{
    match action {
        ContactAction::Ignore => ContactAction::Ignore,
        ContactAction::RecordPending {
            link_id,
            requester_id,
            target_id,
        } => ContactAction::RecordPending {
            link_id: link_id.clone(),
            requester_id: requester_id.clone(),
            target_id: target_id.clone(),
        },
        ContactAction::Establish { link_id, requester_id, target_id } => ContactAction::Establish {
            link_id: link_id.clone(),
            requester_id: requester_id.clone(),
            target_id: target_id.clone(),
        },
        ContactAction::Remove { link_id, scope } => ContactAction::Remove {
            link_id: link_id.clone(),
            scope: scope.clone(),
        },
        ContactAction::Block { link_id } => ContactAction::Block { link_id: link_id.clone() },
        ContactAction::Unblock { link_id } => ContactAction::Unblock { link_id: link_id.clone() },
    }
}

} // verus!
