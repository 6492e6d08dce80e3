//! Contacts: what their events ask for, who is let in, and whether a contact's devices can be trusted.
use crate::digest::{hash_input, hashes, HashInput};
use crate::error::{is_local_bus, local_bus, SdkError};
use crate::json::{field_of, json_document, json_field, parse_json, JsonField, JsonFieldView};
use crate::prekey::SdkMvp1DeviceManifestDevice;
use crate::text::str_eq;
use vstd::prelude::*;

verus! {

/// A link between two identities.
#[derive(Clone, Debug, PartialEq, Eq)]
pub struct FriendLinkRecord {
    pub link_id: String,
    pub requester_id: String,
    pub target_id: String,
    pub state: String,
    pub remove_scope: Option<String>,
    pub blocked: bool,
    pub capability_revoked_at: Option<i64>,
}

// ---- events from a contact ----

/// The members of a contact's event that are read.
#[derive(Clone, Debug, PartialEq, Eq)]
pub struct ContactEventFields {
    pub event_type: JsonField,
    pub link_id: JsonField,
    pub requester: JsonField,
    pub target: JsonField,
    pub scope: JsonField,
    pub remove_scope: JsonField,
}

/// What a contact's event asks for.
#[derive(Clone, Debug, PartialEq, Eq)]
pub enum ContactAction {
    /// Nothing: the text is not a contact's event.
    Ignore,
    RecordPending { link_id: String, requester_id: String, target_id: String },
    Establish { link_id: String, requester_id: String, target_id: String },
    Remove { link_id: String, scope: String },
    Block { link_id: String },
    Unblock { link_id: String },
}

/// The scope of a removal: that of `scope` where there is one, else that of `remove_scope`, and
/// `both` where that is not a text.
pub open spec fn removal_scope(scope: JsonFieldView, remove_scope: JsonFieldView) -> Seq<char> {
    match scope {
        JsonFieldView::Text(text) => text,
        JsonFieldView::Other => "both"@,
        JsonFieldView::Absent => match remove_scope {
            JsonFieldView::Text(text) => text,
            _ => "both"@,
        },
    }
}

/// Whether `r` asks for a link between two identities, or complains about the first member that is
/// missing.
pub open spec fn is_link_wish(
    r: Result<ContactAction, SdkError>,
    event_type: Seq<char>,
    link_id: JsonFieldView,
    requester: JsonFieldView,
    target: JsonFieldView,
    pending: bool,
) -> bool {
    match (link_id, requester, target) {
        (JsonFieldView::Text(l), JsonFieldView::Text(q), JsonFieldView::Text(t)) => match r {
            Ok(ContactAction::RecordPending { link_id, requester_id, target_id }) => pending
                && link_id@ == l && requester_id@ == q && target_id@ == t,
            Ok(ContactAction::Establish { link_id, requester_id, target_id }) => !pending && link_id@
                == l && requester_id@ == q && target_id@ == t,
            _ => false,
        },
        (JsonFieldView::Text(_), JsonFieldView::Text(_), _) => is_local_bus(
            r,
            event_type + " missing target"@,
        ),
        (JsonFieldView::Text(_), _, _) => is_local_bus(r, event_type + " missing requester"@),
        _ => is_local_bus(r, event_type + " missing link_id"@),
    }
}

/// Whether `r` is what the members of a contact's event ask for.
pub open spec fn is_contact_answer(
    r: Result<ContactAction, SdkError>,
    event_type: JsonFieldView,
    link_id: JsonFieldView,
    requester: JsonFieldView,
    target: JsonFieldView,
    scope: JsonFieldView,
    remove_scope: JsonFieldView,
) -> bool {
    match event_type {
        JsonFieldView::Text(t) => if t == "friend.requested"@ {
            is_link_wish(r, t, link_id, requester, target, true)
        } else if t == "friend.accepted"@ {
            is_link_wish(r, t, link_id, requester, target, false)
        } else if t == "friend.removed"@ {
            match link_id {
                JsonFieldView::Text(l) => r matches Ok(ContactAction::Remove { link_id, scope: s })
                    && link_id@ == l && s@ == removal_scope(scope, remove_scope),
                _ => is_local_bus(r, "friend.removed missing link_id"@),
            }
        } else if t == "friend.blocked"@ {
            match link_id {
                JsonFieldView::Text(l) => r matches Ok(ContactAction::Block { link_id }) && link_id@
                    == l,
                _ => is_local_bus(r, "friend.blocked missing link_id"@),
            }
        } else if t == "friend.unblocked"@ {
            match link_id {
                JsonFieldView::Text(l) => r matches Ok(ContactAction::Unblock { link_id })
                    && link_id@ == l,
                _ => is_local_bus(r, "friend.unblocked missing link_id"@),
            }
        } else {
            r matches Ok(ContactAction::Ignore)
        },
        _ => r matches Ok(ContactAction::Ignore),
    }
}

fn needed_text(field: &JsonField, event_type: &str, complaint: &str) -> (r: Result<String, SdkError>)
    ensures
        match field@ {
            JsonFieldView::Text(text) => r is Ok && r->Ok_0@ == text,
            _ => is_local_bus(r, event_type@ + complaint@),
        },
{
    match field {
        JsonField::Text(text) => Ok(text.clone()),
        _ => Err(SdkError::LocalBus(event_type.to_owned().concat(complaint))),
    }
}

/// What the members of a contact's event ask for. A text without a known type asks for nothing.
pub fn contact_event(fields: &ContactEventFields) -> (r: Result<ContactAction, SdkError>)
    ensures
        is_contact_answer(
            r,
            fields.event_type@,
            fields.link_id@,
            fields.requester@,
            fields.target@,
            fields.scope@,
            fields.remove_scope@,
        ),
{
    let event_type = match &fields.event_type {
        JsonField::Text(event_type) => event_type,
        _ => {
            return Ok(ContactAction::Ignore);
        },
    };
    proof {
        lemma_event_types_differ();
    }
    let is_requested = str_eq(event_type.as_str(), "friend.requested");
    let is_accepted = str_eq(event_type.as_str(), "friend.accepted");
    if is_requested || is_accepted {
        let link_id = match needed_text(&fields.link_id, event_type.as_str(), " missing link_id") {
            Ok(text) => text,
            Err(error) => {
                return Err(error);
            },
        };
        let requester_id = match needed_text(
            &fields.requester,
            event_type.as_str(),
            " missing requester",
        ) {
            Ok(text) => text,
            Err(error) => {
                return Err(error);
            },
        };
        let target_id = match needed_text(&fields.target, event_type.as_str(), " missing target") {
            Ok(text) => text,
            Err(error) => {
                return Err(error);
            },
        };
        if is_requested {
            return Ok(ContactAction::RecordPending { link_id, requester_id, target_id });
        }
        return Ok(ContactAction::Establish { link_id, requester_id, target_id });
    }
    if str_eq(event_type.as_str(), "friend.removed") {
        return match &fields.link_id {
            JsonField::Text(link_id) => {
                let scope = match (&fields.scope, &fields.remove_scope) {
                    (JsonField::Text(scope), _) => scope.clone(),
                    (JsonField::Absent, JsonField::Text(scope)) => scope.clone(),
                    _ => "both".to_owned(),
                };
                Ok(ContactAction::Remove { link_id: link_id.clone(), scope })
            },
            _ => Err(local_bus("friend.removed missing link_id")),
        };
    }
    if str_eq(event_type.as_str(), "friend.blocked") {
        return match &fields.link_id {
            JsonField::Text(link_id) => Ok(ContactAction::Block { link_id: link_id.clone() }),
            _ => Err(local_bus("friend.blocked missing link_id")),
        };
    }
    if str_eq(event_type.as_str(), "friend.unblocked") {
        return match &fields.link_id {
            JsonField::Text(link_id) => Ok(ContactAction::Unblock { link_id: link_id.clone() }),
            _ => Err(local_bus("friend.unblocked missing link_id")),
        };
    }
    Ok(ContactAction::Ignore)
}

proof fn lemma_event_types_differ()
    ensures
        "friend.requested"@ != "friend.accepted"@,
{
    reveal_strlit("friend.requested");
    reveal_strlit("friend.accepted");
    assert("friend.requested"@.len() == 16);
    assert("friend.accepted"@.len() == 15);
}

/// Whether `r` is what the plaintext of a message asks for as a contact's event.
pub open spec fn is_plaintext_answer(
    r: Result<ContactAction, SdkError>,
    document: Option<Map<Seq<char>, crate::json::JsonMember>>,
) -> bool {
    match document {
        None => r matches Ok(ContactAction::Ignore),
        Some(members) => is_contact_answer(
            r,
            field_of(members, "type"@),
            field_of(members, "link_id"@),
            field_of(members, "requester"@),
            field_of(members, "target"@),
            field_of(members, "scope"@),
            field_of(members, "remove_scope"@),
        ),
    }
}

/// What the plaintext of a message asks for as a contact's event; a plaintext that is no JSON asks
/// for nothing.
pub fn contact_event_of_plaintext(plaintext: &[u8]) -> (r: Result<ContactAction, SdkError>)
    ensures
        is_plaintext_answer(r, json_document(plaintext@)),
{
    let value = match parse_json(plaintext) {
        Ok(value) => value,
        Err(_) => {
            return Ok(ContactAction::Ignore);
        },
    };
    let fields = ContactEventFields {
        event_type: json_field(&value, "type"),
        link_id: json_field(&value, "link_id"),
        requester: json_field(&value, "requester"),
        target: json_field(&value, "target"),
        scope: json_field(&value, "scope"),
        remove_scope: json_field(&value, "remove_scope"),
    };
    contact_event(&fields)
}

// ---- who is let in ----

/// Why a message of a peer is turned away, if it is.
pub open spec fn rejection_reason(link: Option<FriendLinkRecord>) -> Option<Seq<char>> {
    match link {
        None => None,
        Some(link) => if link.blocked {
            Some("friend.blocked"@)
        } else if link.capability_revoked_at is Some {
            Some("friend.capability_revoked"@)
        } else {
            None
        },
    }
}

/// Why a message of a peer is turned away, if it is: the link to the peer is blocked, or its
/// capability has been revoked. A peer without a link is let in.
pub fn friend_rejection_reason(link: &Option<FriendLinkRecord>) -> (r: Option<&'static str>)
    ensures
        match rejection_reason(*link) {
            Some(reason) => r is Some && r->0@ == reason,
            None => r is None,
        },
{
    match link {
        None => None,
        Some(link) => {
            if link.blocked {
                return Some("friend.blocked");
            }
            if link.capability_revoked_at.is_some() {
                return Some("friend.capability_revoked");
            }
            None
        },
    }
}

// ---- safety numbers ----

/// Whether a link is an accepted one with the contact.
pub open spec fn links_contact(link: FriendLinkRecord, contact: Seq<char>) -> bool {
    link.state@ == "accepted"@ && (link.requester_id@ == contact || link.target_id@ == contact)
}

/// The other side of the first accepted link with the contact.
pub open spec fn own_side(links: Seq<FriendLinkRecord>, contact: Seq<char>) -> Option<Seq<char>>
    decreases links.len(),
{
    if links.len() == 0 {
        None
    } else if links_contact(links[0], contact) {
        if links[0].requester_id@ == contact {
            Some(links[0].target_id@)
        } else {
            Some(links[0].requester_id@)
        }
    } else {
        own_side(links.skip(1), contact)
    }
}

/// The identity that stands on this side of the first accepted link with the contact.
pub fn linked_self_identity(
    links: &Vec<FriendLinkRecord>,
    contact_identity_commitment: &str,
) -> (r: Result<String, SdkError>)
    ensures
        match own_side(links@, contact_identity_commitment@) {
            Some(own) => r is Ok && r->Ok_0@ == own,
            None => is_local_bus(r, "contact is not linked: "@ + contact_identity_commitment@),
        },
{
    let mut i: usize = 0;
    assert(links@.skip(0) =~= links@);
    while i < links.len()
        invariant
            i <= links.len(),
            own_side(links@, contact_identity_commitment@) == own_side(
                links@.skip(i as int),
                contact_identity_commitment@,
            ),
        decreases links.len() - i,
    {
        let link = &links[i];
        assert(links@.skip(i as int)[0] == links@[i as int]);
        assert(links@.skip(i as int).skip(1) =~= links@.skip(i + 1));
        if str_eq(link.state.as_str(), "accepted") {
            if str_eq(link.requester_id.as_str(), contact_identity_commitment) {
                return Ok(link.target_id.clone());
            }
            if str_eq(link.target_id.as_str(), contact_identity_commitment) {
                return Ok(link.requester_id.clone());
            }
        }
        i = i + 1;
    }
    Err(
        SdkError::LocalBus(
            "contact is not linked: ".to_owned().concat(contact_identity_commitment),
        ),
    )
}

/// What is stored of a contact's verification.
#[derive(Clone, Debug, PartialEq, Eq)]
pub struct ContactVerificationRecord {
    pub contact_identity_commitment: String,
    pub verification_state: String,
    pub safety_number_hash: String,
    pub verified_device_set_hash: String,
    pub lineage_head: String,
    pub verified_at: i64,
    pub verified_by_device_id: String,
}

/// The state of a verification: as stored, or `unverified` if nothing is. Where the present set of
/// devices is known and differs from the verified one, `verified` becomes `verification_stale`.
pub open spec fn verification_state(
    record: Option<ContactVerificationRecord>,
    device_set_hash: Option<Seq<char>>,
) -> Seq<char> {
    match record {
        None => "unverified"@,
        Some(record) => match device_set_hash {
            Some(hash) => if record.verified_device_set_hash@ != hash
                && record.verification_state@ == "verified"@ {
                "verification_stale"@
            } else {
                record.verification_state@
            },
            None => record.verification_state@,
        },
    }
}

/// The state of a contact's verification.
pub fn contact_verification_state(
    record: &Option<ContactVerificationRecord>,
    device_set_hash: Option<&str>,
) -> (r: String)
    ensures
        r@ == verification_state(
            *record,
            match device_set_hash {
                Some(hash) => Some(hash@),
                None => None,
            },
        ),
{
    match record {
        None => "unverified".to_owned(),
        Some(record) => match device_set_hash {
            Some(hash) => {
                if !str_eq(record.verified_device_set_hash.as_str(), hash) && str_eq(
                    record.verification_state.as_str(),
                    "verified",
                ) {
                    "verification_stale".to_owned()
                } else {
                    record.verification_state.clone()
                }
            },
            None => record.verification_state.clone(),
        },
    }
}

/// A verification never outlives a change of the contact's devices.
pub proof fn law_changed_devices_are_not_verified(
    record: ContactVerificationRecord,
    device_set_hash: Seq<char>,
)
    requires
        record.verified_device_set_hash@ != device_set_hash,
    ensures
        verification_state(Some(record), Some(device_set_hash)) != "verified"@,
{
    reveal_strlit("verified");
    reveal_strlit("verification_stale");
    assert("verified"@.len() == 8);
    assert("verification_stale"@.len() == 18);
}

/// The hexadecimal digit of a number below 16.
pub open spec fn hex_digit(n: nat) -> char {
    if n < 10 {
        (48 + n) as char
    } else {
        (87 + n) as char
    }
}

/// Bytes in hexadecimal digits, two for each.
pub open spec fn hex(bytes: Seq<u8>) -> Seq<char>
    decreases bytes.len(),
{
    if bytes.len() == 0 {
        Seq::empty()
    } else {
        hex(bytes.drop_last()) + seq![
            hex_digit((bytes.last() / 16) as nat),
            hex_digit((bytes.last() % 16) as nat),
        ]
    }
}

fn hex_str(n: u8) -> (r: &'static str)
    requires
        n < 16,
    ensures
        r@ == seq![hex_digit(n as nat)],
{
    proof {
        reveal_strlit("0");
        reveal_strlit("1");
        reveal_strlit("2");
        reveal_strlit("3");
        reveal_strlit("4");
        reveal_strlit("5");
        reveal_strlit("6");
        reveal_strlit("7");
        reveal_strlit("8");
        reveal_strlit("9");
        reveal_strlit("a");
        reveal_strlit("b");
        reveal_strlit("c");
        reveal_strlit("d");
        reveal_strlit("e");
        reveal_strlit("f");
    }
    let r: &'static str = match n {
        0 => "0",
        1 => "1",
        2 => "2",
        3 => "3",
        4 => "4",
        5 => "5",
        6 => "6",
        7 => "7",
        8 => "8",
        9 => "9",
        10 => "a",
        11 => "b",
        12 => "c",
        13 => "d",
        14 => "e",
        _ => "f",
    };
    assert(r@ =~= seq![hex_digit(n as nat)]);
    r
}

/// Bytes in hexadecimal digits, two for each.
pub fn bytes_to_hex(bytes: &[u8]) -> (r: String)
    ensures
        r@ == hex(bytes@),
{
    let mut r = String::new();
    let mut i: usize = 0;
    while i < bytes.len()
        invariant
            i <= bytes.len(),
            r@ == hex(bytes@.take(i as int)),
        decreases bytes.len() - i,
    {
        let byte: u8 = bytes[i];
        let ghost before = r@;
        r.append(hex_str(byte / 16));
        r.append(hex_str(byte % 16));
        i = i + 1;
        assert(bytes@.take(i as int).drop_last() =~= bytes@.take(i - 1));
        assert(r@ =~= before + seq![
            hex_digit((byte / 16) as nat),
            hex_digit((byte % 16) as nat),
        ]);
    }
    assert(bytes@.take(i as int) =~= bytes@);
    r
}

/// The digits of some bytes are twice as many as the bytes.
pub proof fn law_hex_length(bytes: Seq<u8>)
    ensures
        hex(bytes).len() == 2 * bytes.len(),
    decreases bytes.len(),
{
    if bytes.len() > 0 {
        law_hex_length(bytes.drop_last());
    }
}

/// What two contacts compare to know that nobody stands between them.
#[derive(Clone, Debug, PartialEq, Eq)]
pub struct SdkContactSafetyNumber {
    pub contact_identity_commitment: String,
    pub self_identity_commitment: String,
    pub safety_number: Vec<String>,
    pub fingerprint_hex: String,
    pub safety_number_hash: String,
    pub self_device_count: usize,
    pub contact_device_count: usize,
    pub contact_device_set_hash: String,
    pub contact_lineage_head: String,
    pub verification_state: String,
}

/// What cryptography computes from what the two sides of a safety number add: the number and its
/// fingerprint, the fingerprint as base64url text, and as such texts too the hash of the contact's
/// devices and that of the contact's lineage head.
#[derive(Clone, Debug, PartialEq, Eq)]
pub struct SafetyMaterial {
    pub safety_number: Vec<String>,
    pub fingerprint: Vec<u8>,
    pub safety_number_hash: String,
    pub contact_device_set_hash: String,
    pub contact_lineage_head: String,
}

/// What the two sides of a safety number add, and which identity stands on this side.
#[derive(Clone, Debug, PartialEq, Eq)]
pub struct SdkContactSafetyMaterialPair {
    pub self_material: ContactSafetyRecipe,
    pub contact_material: ContactSafetyRecipe,
    pub self_identity_commitment: String,
}

/// Whether `n` is the safety number of a contact, by the number of devices that each side adds. The
/// stored verification is held against the present set of devices only if that set was fetched.
pub open spec fn is_safety_number(
    n: SdkContactSafetyNumber,
    contact: Seq<char>,
    own: Seq<char>,
    self_devices: nat,
    contact_devices: nat,
    material: SafetyMaterial,
    record: Option<ContactVerificationRecord>,
    devices_fetched: bool,
) -> bool {
    &&& n.contact_identity_commitment@ == contact
    &&& n.self_identity_commitment@ == own
    &&& n.safety_number == material.safety_number
    &&& n.fingerprint_hex@ == hex(material.fingerprint@)
    &&& n.safety_number_hash == material.safety_number_hash
    &&& n.self_device_count == self_devices
    &&& n.contact_device_count == contact_devices
    &&& n.contact_device_set_hash == material.contact_device_set_hash
    &&& n.contact_lineage_head == material.contact_lineage_head
    &&& n.verification_state@ == verification_state(
        record,
        if devices_fetched {
            Some(material.contact_device_set_hash@)
        } else {
            None
        },
    )
}

/// The safety number of a contact, by what the two sides add. The stored verification is held against
/// the present set of devices only if that set was fetched.
pub fn safety_number_of(
    contact_identity_commitment: &str,
    pair: SdkContactSafetyMaterialPair,
    material: SafetyMaterial,
    record: &Option<ContactVerificationRecord>,
    devices_fetched: bool,
) -> (r: SdkContactSafetyNumber)
    ensures
        is_safety_number(
            r,
            contact_identity_commitment@,
            pair.self_identity_commitment@,
            pair.self_material.devices@.len(),
            pair.contact_material.devices@.len(),
            material,
            *record,
            devices_fetched,
        ),
{
    let state = if devices_fetched {
        contact_verification_state(record, Some(material.contact_device_set_hash.as_str()))
    } else {
        contact_verification_state(record, None)
    };
    SdkContactSafetyNumber {
        contact_identity_commitment: contact_identity_commitment.to_owned(),
        self_identity_commitment: pair.self_identity_commitment,
        safety_number: material.safety_number,
        fingerprint_hex: bytes_to_hex(material.fingerprint.as_slice()),
        safety_number_hash: material.safety_number_hash,
        self_device_count: pair.self_material.devices.len(),
        contact_device_count: pair.contact_material.devices.len(),
        contact_device_set_hash: material.contact_device_set_hash,
        contact_lineage_head: material.contact_lineage_head,
        verification_state: state,
    }
}

// ---- what a safety number is made of ----

/// What a device adds to a safety number.
#[derive(Clone, Debug, PartialEq, Eq)]
pub struct DeviceSafetyRecipe {
    pub device_id_hash: HashInput,
    pub device_identity_key_hash: HashInput,
    pub device_signing_key_hash: HashInput,
    pub device_x25519_identity_key_hash: HashInput,
    pub device_epoch: u64,
    pub branch_authorized_event_id: Vec<u8>,
}

/// What one side adds to a safety number.
#[derive(Clone, Debug, PartialEq, Eq)]
pub struct ContactSafetyRecipe {
    pub identity_commitment: Vec<u8>,
    pub identity_key_hash: HashInput,
    pub lineage_head: HashInput,
    pub devices: Vec<DeviceSafetyRecipe>,
}

/// Whether `d` is what a device adds, by its name, its keys and the event that authorized it.
pub open spec fn is_device_recipe(
    d: DeviceSafetyRecipe,
    device_id: Seq<u8>,
    branch_key: Seq<u8>,
    x25519_key: Seq<u8>,
    device_epoch: u64,
    event_id: Seq<char>,
) -> bool {
    &&& hashes(d.device_id_hash, "ramflux.sdk.contact.device_id_hash.v1"@, device_id)
    &&& hashes(
        d.device_identity_key_hash,
        "ramflux.sdk.contact.device_identity_key_hash.v1"@,
        branch_key,
    )
    &&& hashes(
        d.device_signing_key_hash,
        "ramflux.sdk.contact.device_signing_key_hash.v1"@,
        branch_key,
    )
    &&& hashes(
        d.device_x25519_identity_key_hash,
        "ramflux.sdk.contact.device_x25519_identity_key_hash.v1"@,
        x25519_key,
    )
    &&& d.device_epoch == device_epoch
    &&& d.branch_authorized_event_id@ == vstd::utf8::encode_utf8(event_id)
}

fn device_recipe(
    device_id: &[u8],
    branch_key: &[u8],
    x25519_key: &[u8],
    device_epoch: u64,
    event_id: &str,
) -> (r: DeviceSafetyRecipe)
    ensures
        is_device_recipe(r, device_id@, branch_key@, x25519_key@, device_epoch, event_id@),
{
    DeviceSafetyRecipe {
        device_id_hash: hash_input("ramflux.sdk.contact.device_id_hash.v1", device_id),
        device_identity_key_hash: hash_input(
            "ramflux.sdk.contact.device_identity_key_hash.v1",
            branch_key,
        ),
        device_signing_key_hash: hash_input(
            "ramflux.sdk.contact.device_signing_key_hash.v1",
            branch_key,
        ),
        device_x25519_identity_key_hash: hash_input(
            "ramflux.sdk.contact.device_x25519_identity_key_hash.v1",
            x25519_key,
        ),
        device_epoch,
        branch_authorized_event_id: event_id.as_bytes_vec(),
    }
}

/// The event that authorized the device of an identity whose devices are not known.
pub open spec fn assumed_event(identity_commitment: Seq<char>) -> Seq<char> {
    "device.branch_authorized:"@ + identity_commitment + ":1"@
}

/// Whether `r` is what a side adds as long as its devices are not known.
pub open spec fn is_assumed_material(r: ContactSafetyRecipe, identity_commitment: Seq<char>) -> bool {
    let identity = vstd::utf8::encode_utf8(identity_commitment);
    &&& r.identity_commitment@ == identity
    &&& hashes(r.identity_key_hash, "ramflux.sdk.contact.identity_key_hash.v1"@, identity)
    &&& hashes(r.lineage_head, "ramflux.sdk.contact.lineage_head.v1"@, identity)
    &&& r.devices@.len() == 1
    &&& is_device_recipe(
        r.devices@[0],
        identity,
        identity,
        identity,
        1,
        assumed_event(identity_commitment),
    )
}

/// What one side adds to a safety number, as long as its devices are not known: one device, of which
/// everything is taken from the identity's name.
pub fn contact_safety_material_for(identity_commitment: &str) -> (r: ContactSafetyRecipe)
    ensures
        is_assumed_material(r, identity_commitment@),
{
    let identity = identity_commitment.as_bytes();
    let event_id = "device.branch_authorized:".to_owned().concat(identity_commitment).concat(":1");
    let mut devices: Vec<DeviceSafetyRecipe> = Vec::new();
    devices.push(device_recipe(identity, identity, identity, 1, event_id.as_str()));
    ContactSafetyRecipe {
        identity_commitment: vstd::slice::slice_to_vec(identity),
        identity_key_hash: hash_input("ramflux.sdk.contact.identity_key_hash.v1", identity),
        lineage_head: hash_input("ramflux.sdk.contact.lineage_head.v1", identity),
        devices,
    }
}

/// A device of a manifest, with the bytes of its branch key, or why its text stands for none.
#[derive(Debug, PartialEq, Eq)]
pub struct DecodedDevice {
    pub device: SdkMvp1DeviceManifestDevice,
    pub branch_key: Result<Vec<u8>, String>,
}

/// A manifest that was verified, with the keys of its devices decoded.
#[derive(Debug, PartialEq, Eq)]
pub struct DecodedManifest {
    pub principal_commitment: String,
    pub root_public_key: String,
    pub devices: Vec<DecodedDevice>,
}

/// Whether `r` is what a side adds by its manifest.
pub open spec fn is_material_of(
    r: Result<ContactSafetyRecipe, SdkError>,
    manifest: DecodedManifest,
) -> bool {
    is_manifest_material(
        r,
        manifest.principal_commitment@,
        manifest.root_public_key@,
        manifest.devices@,
    )
}

/// Whether `d` is what a device of a manifest adds.
pub open spec fn is_recipe_of(d: DeviceSafetyRecipe, decoded: DecodedDevice) -> bool {
    decoded.branch_key matches Ok(branch_key) && is_device_recipe(
        d,
        vstd::utf8::encode_utf8(decoded.device.device_id@),
        branch_key@,
        decoded.device.prekey_bundle.identity_key@,
        decoded.device.device_epoch,
        decoded.device.branch_authorized_event_id@,
    )
}

/// Whether `r` is what a side adds by its manifest: each device in its order, or the complaint about
/// the first whose key cannot be decoded.
pub open spec fn is_manifest_material(
    r: Result<ContactSafetyRecipe, SdkError>,
    principal_commitment: Seq<char>,
    root_public_key: Seq<char>,
    devices: Seq<DecodedDevice>,
) -> bool {
    match r {
        Ok(m) => {
            let root = vstd::utf8::encode_utf8(root_public_key);
            &&& m.identity_commitment@ == vstd::utf8::encode_utf8(principal_commitment)
            &&& hashes(m.identity_key_hash, "ramflux.sdk.contact.identity_key_hash.v1"@, root)
            &&& hashes(m.lineage_head, "ramflux.sdk.contact.lineage_head.v1"@, root)
            &&& m.devices@.len() == devices.len()
            &&& forall|i: int|
                0 <= i < devices.len() ==> is_recipe_of(#[trigger] m.devices@[i], devices[i])
        },
        Err(_) => exists|i: int|
            #![trigger devices[i]]
            0 <= i < devices.len() && (devices[i].branch_key matches Err(words) && is_local_bus(
                r,
                "invalid branch public key: "@ + words@,
            )) && forall|j: int| 0 <= j < i ==> (#[trigger] devices[j]).branch_key is Ok,
    }
}

/// What one side adds to a safety number, by its manifest.
pub fn contact_safety_material_from_manifest(
    principal_commitment: &str,
    root_public_key: &str,
    devices: &Vec<DecodedDevice>,
) -> (r: Result<ContactSafetyRecipe, SdkError>)
    ensures
        is_manifest_material(r, principal_commitment@, root_public_key@, devices@),
{
    let mut recipes: Vec<DeviceSafetyRecipe> = Vec::new();
    let mut i: usize = 0;
    while i < devices.len()
        invariant
            i <= devices.len(),
            recipes@.len() == i,
            forall|j: int| 0 <= j < i ==> is_recipe_of(#[trigger] recipes@[j], devices@[j]),
            forall|j: int| 0 <= j < i ==> (#[trigger] devices@[j]).branch_key is Ok,
        decreases devices.len() - i,
    {
        let decoded = &devices[i];
        match &decoded.branch_key {
            Ok(branch_key) => {
                recipes.push(
                    device_recipe(
                        decoded.device.device_id.as_str().as_bytes(),
                        branch_key.as_slice(),
                        decoded.device.prekey_bundle.identity_key.as_slice(),
                        decoded.device.device_epoch,
                        decoded.device.branch_authorized_event_id.as_str(),
                    ),
                );
            },
            Err(words) => {
                let text = "invalid branch public key: ".to_owned().concat(words.as_str());
                assert(devices@[i as int].branch_key is Err);
                return Err(local_bus(text.as_str()));
            },
        }
        i = i + 1;
    }
    let root = root_public_key.as_bytes();
    Ok(
        ContactSafetyRecipe {
            identity_commitment: principal_commitment.as_bytes_vec(),
            identity_key_hash: hash_input("ramflux.sdk.contact.identity_key_hash.v1", root),
            lineage_head: hash_input("ramflux.sdk.contact.lineage_head.v1", root),
            devices: recipes,
        },
    )
}


/// Whether two hashes are made of the same.
pub open spec fn same_input(a: HashInput, b: HashInput) -> bool {
    hashes(a, b.domain@, b.bytes@)
}

/// Whether two devices add the same.
pub open spec fn same_device(a: DeviceSafetyRecipe, b: DeviceSafetyRecipe) -> bool {
    &&& same_input(a.device_id_hash, b.device_id_hash)
    &&& same_input(a.device_identity_key_hash, b.device_identity_key_hash)
    &&& same_input(a.device_signing_key_hash, b.device_signing_key_hash)
    &&& same_input(a.device_x25519_identity_key_hash, b.device_x25519_identity_key_hash)
    &&& a.device_epoch == b.device_epoch
    &&& a.branch_authorized_event_id@ == b.branch_authorized_event_id@
}

/// Whether two sides add the same, byte for byte.
pub open spec fn same_material(a: ContactSafetyRecipe, b: ContactSafetyRecipe) -> bool {
    &&& a.identity_commitment@ == b.identity_commitment@
    &&& same_input(a.identity_key_hash, b.identity_key_hash)
    &&& same_input(a.lineage_head, b.lineage_head)
    &&& a.devices@.len() == b.devices@.len()
    &&& forall|i: int|
        0 <= i < a.devices@.len() ==> same_device(#[trigger] a.devices@[i], b.devices@[i])
}

/// What a manifest adds is the same on whichever side it stands: the two ends of a link hold the same
/// two materials, the other way round.
pub proof fn law_both_ends_add_the_same(
    here: SdkContactSafetyMaterialPair,
    there: SdkContactSafetyMaterialPair,
    manifest_here: DecodedManifest,
    manifest_there: DecodedManifest,
)
    requires
        is_material_of(Ok(here.self_material), manifest_here),
        is_material_of(Ok(here.contact_material), manifest_there),
        is_material_of(Ok(there.self_material), manifest_there),
        is_material_of(Ok(there.contact_material), manifest_here),
    ensures
        same_material(here.self_material, there.contact_material),
        same_material(here.contact_material, there.self_material),
{
    lemma_material_is_stable(here.self_material, there.contact_material, manifest_here);
    lemma_material_is_stable(here.contact_material, there.self_material, manifest_there);
}

proof fn lemma_material_is_stable(
    a: ContactSafetyRecipe,
    b: ContactSafetyRecipe,
    manifest: DecodedManifest,
)
    requires
        is_material_of(Ok(a), manifest),
        is_material_of(Ok(b), manifest),
    ensures
        same_material(a, b),
{
    assert forall|i: int| 0 <= i < a.devices@.len() implies same_device(
        #[trigger] a.devices@[i],
        b.devices@[i],
    ) by {
        assert(is_recipe_of(a.devices@[i], manifest.devices@[i]));
        assert(is_recipe_of(b.devices@[i], manifest.devices@[i]));
    }
}

/// So are the materials of two identities whose devices are not known.
pub proof fn law_both_ends_assume_the_same(
    here: SdkContactSafetyMaterialPair,
    there: SdkContactSafetyMaterialPair,
    identity_here: Seq<char>,
    identity_there: Seq<char>,
)
    requires
        is_assumed_material(here.self_material, identity_here),
        is_assumed_material(here.contact_material, identity_there),
        is_assumed_material(there.self_material, identity_there),
        is_assumed_material(there.contact_material, identity_here),
    ensures
        same_material(here.self_material, there.contact_material),
        same_material(here.contact_material, there.self_material),
{
}

/// A safety number shows the devices and the lineage of the contact, and counts the devices of either
/// side on its own. `lineage_text` is the hash of a lineage head as text, and `devices_text` that of
/// what some devices add.
pub proof fn law_safety_number_shows_the_contact(
    number: SdkContactSafetyNumber,
    contact: Seq<char>,
    pair: SdkContactSafetyMaterialPair,
    manifest_here: DecodedManifest,
    manifest_there: DecodedManifest,
    material: SafetyMaterial,
    record: Option<ContactVerificationRecord>,
    lineage_text: spec_fn(Seq<char>, Seq<u8>) -> Seq<char>,
    devices_text: spec_fn(Seq<DeviceSafetyRecipe>) -> Seq<char>,
)
    requires
        is_material_of(Ok(pair.self_material), manifest_here),
        is_material_of(Ok(pair.contact_material), manifest_there),
        material.contact_lineage_head@ == lineage_text(
            pair.contact_material.lineage_head.domain@,
            pair.contact_material.lineage_head.bytes@,
        ),
        material.contact_device_set_hash@ == devices_text(pair.contact_material.devices@),
        is_safety_number(
            number,
            contact,
            pair.self_identity_commitment@,
            pair.self_material.devices@.len(),
            pair.contact_material.devices@.len(),
            material,
            record,
            true,
        ),
    ensures
        number.self_device_count == manifest_here.devices@.len(),
        number.contact_device_count == manifest_there.devices@.len(),
        number.contact_lineage_head@ == lineage_text(
            "ramflux.sdk.contact.lineage_head.v1"@,
            vstd::utf8::encode_utf8(manifest_there.root_public_key@),
        ),
        number.contact_device_set_hash@ == devices_text(pair.contact_material.devices@),
        record matches Some(stored) ==> stored.verification_state@ == "verified"@
            && stored.verified_device_set_hash@ != devices_text(pair.contact_material.devices@)
            ==> number.verification_state@ == "verification_stale"@,
{
}

} // verus!
