//! Links to contacts: what one side does to a link, the other side learns; and safety numbers, which
//! are made of both.
use crate::client::contact::{
    ContactVerificationUpdate, DeviceDirectoryWrite, FriendChange, FriendLinkUpdate,
};
use crate::client::federation::{
    federated_forward_request, federated_prekey_url, FederatedContactEvent,
    LocalBusContactFederatedRequest, LocalBusFederationRoute, SdkFederatedEnvelopeForwardRequest,
};
use crate::client::a2i::A2iControlEvent;
use crate::client::state::RamfluxClient;
use crate::contact::{
    bytes_to_hex, contact_event, contact_event_of_plaintext, contact_safety_material_for,
    contact_safety_material_from_manifest, contact_verification_state, friend_rejection_reason,
    hex, linked_self_identity, own_side, safety_number_of, ContactAction, ContactEventFields,
    ContactSafetyRecipe, ContactVerificationRecord, DecodedDevice, DecodedManifest,
    DeviceSafetyRecipe, FriendLinkRecord, SafetyMaterial, SdkContactSafetyMaterialPair,
    SdkContactSafetyNumber,
};
use crate::error::SdkError;
use crate::gateway::engine::GatewayDirectMessage;
use crate::gateway::protocol::Envelope;
use crate::json::JsonFieldView;
use crate::manifest::CheckedDevice;
use crate::records::{AccountDbRequest, EventWrite};
use vstd::prelude::*;

verus! {

// ---- what an event of a contact asks for ----

/// An event of a contact that names a link and its two ends asks for just that link, by the word that
/// it is named with, and asks for nothing if the word is another.
pub proof fn law_event_asks_for_its_link(
    fields: &ContactEventFields,
    word: Seq<char>,
    link: Seq<char>,
    requester: Seq<char>,
    target: Seq<char>,
    r: Result<ContactAction, SdkError>,
)
    requires
        fields.event_type@ == JsonFieldView::Text(word),
        fields.link_id@ == JsonFieldView::Text(link),
        fields.requester@ == JsonFieldView::Text(requester),
        fields.target@ == JsonFieldView::Text(target),
        call_ensures(contact_event, (fields,), r),
    ensures
        r is Ok,
        word == "friend.requested"@ ==> (r matches Ok(
            ContactAction::RecordPending { link_id, requester_id, target_id },
        ) && link_id@ == link && requester_id@ == requester && target_id@ == target),
        word == "friend.accepted"@ ==> (r matches Ok(
            ContactAction::Establish { link_id, requester_id, target_id },
        ) && link_id@ == link && requester_id@ == requester && target_id@ == target),
        word == "friend.removed"@ ==> (r matches Ok(ContactAction::Remove { link_id, scope })
            && link_id@ == link && match (fields.scope@, fields.remove_scope@) {
            (JsonFieldView::Text(text), _) => scope@ == text,
            (JsonFieldView::Absent, JsonFieldView::Text(text)) => scope@ == text,
            _ => scope@ == "both"@,
        }),
        word == "friend.blocked"@ ==> (r matches Ok(ContactAction::Block { link_id }) && link_id@
            == link),
        word == "friend.unblocked"@ ==> (r matches Ok(ContactAction::Unblock { link_id })
            && link_id@ == link),
        word != "friend.requested"@ && word != "friend.accepted"@ && word != "friend.removed"@
            && word != "friend.blocked"@ && word != "friend.unblocked"@ ==> r matches Ok(
            ContactAction::Ignore,
        ),
{
    reveal_strlit("friend.requested");
    reveal_strlit("friend.accepted");
    reveal_strlit("friend.removed");
    reveal_strlit("friend.blocked");
    reveal_strlit("friend.unblocked");
    assert("friend.requested"@.len() == 16 && "friend.accepted"@.len() == 15);
    assert("friend.removed"@.len() == 14 && "friend.blocked"@.len() == 14);
    assert("friend.removed"@[7] == 'r' && "friend.blocked"@[7] == 'b');
    assert("friend.unblocked"@.len() == 16);
    assert("friend.requested"@[7] == 'r' && "friend.unblocked"@[7] == 'u');
}

/// An event that asks for something is refused exactly if it does not say of which link, or, to make
/// one, between whom; an event without a word asks for nothing.
pub proof fn law_incomplete_event_is_refused(
    fields: &ContactEventFields,
    r: Result<ContactAction, SdkError>,
)
    requires
        call_ensures(contact_event, (fields,), r),
    ensures
        !(fields.event_type@ is Text) ==> r matches Ok(ContactAction::Ignore),
        r is Err <==> fields.event_type@ is Text && {
            let word = fields.event_type@->Text_0;
            let makes = word == "friend.requested"@ || word == "friend.accepted"@;
            let changes = word == "friend.removed"@ || word == "friend.blocked"@ || word
                == "friend.unblocked"@;
            ||| (makes || changes) && !(fields.link_id@ is Text)
            ||| makes && !(fields.requester@ is Text && fields.target@ is Text)
        },
        r matches Err(e) ==> e is LocalBus,
{
    reveal_strlit("friend.requested");
    reveal_strlit("friend.accepted");
    reveal_strlit("friend.removed");
    reveal_strlit("friend.blocked");
    reveal_strlit("friend.unblocked");
    assert("friend.requested"@.len() == 16 && "friend.accepted"@.len() == 15);
    assert("friend.removed"@.len() == 14 && "friend.blocked"@.len() == 14);
    assert("friend.removed"@[7] == 'r' && "friend.blocked"@[7] == 'b');
    assert("friend.unblocked"@.len() == 16);
    assert("friend.requested"@[7] == 'r' && "friend.unblocked"@[7] == 'u');
}

/// What an event asks for is what the database is told, for the same link and ends; and the changes
/// that are told to others again are the ones that the event made.
pub proof fn law_action_is_carried_out(
    client: &RamfluxClient,
    action: ContactAction,
    now: i64,
    r: Result<Option<FriendLinkUpdate>, SdkError>,
)
    requires
        client.active_account_db is Some,
        call_ensures(RamfluxClient::apply_contact_action, (client, action, now), r),
    ensures
        r is Ok,
        r matches Ok(update) ==> (update is None <==> action is Ignore),
        r matches Ok(Some(u)) ==> match action {
            ContactAction::Ignore => false,
            ContactAction::RecordPending { link_id, requester_id, target_id } => u.change is None
                && (u.request matches AccountDbRequest::RecordPendingFriendLink {
                link_id: l,
                requester_id: q,
                target_id: t,
                now: at,
            } && l@ == link_id@ && q@ == requester_id@ && t@ == target_id@ && at == now),
            ContactAction::Establish { link_id, requester_id, target_id } => u.change is None && (
            u.request matches AccountDbRequest::EstablishFriendLink {
                link_id: l,
                requester_id: q,
                target_id: t,
            } && l@ == link_id@ && q@ == requester_id@ && t@ == target_id@),
            ContactAction::Remove { link_id, scope } => u.change == Some(FriendChange::Removed) && (
            u.request matches AccountDbRequest::RemoveFriendLink { link_id: l, scope: s, now: at }
                && l@ == link_id@ && s@ == scope@ && at == now),
            ContactAction::Block { link_id } => u.change == Some(FriendChange::Blocked) && (
            u.request matches AccountDbRequest::BlockFriendLink { link_id: l, now: at } && l@
                == link_id@ && at == now),
            ContactAction::Unblock { link_id } => u.change == Some(FriendChange::Unblocked) && (
            u.request matches AccountDbRequest::UnblockFriendLink { link_id: l, now: at } && l@
                == link_id@ && at == now),
        },
{
}

/// The names of an event's parts are different names.
proof fn lemma_member_names()
    ensures
        "type"@ != "link_id"@ && "type"@ != "requester"@ && "type"@ != "target"@,
        "type"@ != "remove_scope"@ && "type"@ != "blocked"@ && "type"@ != "capability_revoked_at"@,
        "link_id"@ != "requester"@ && "link_id"@ != "target"@ && "link_id"@ != "remove_scope"@,
        "link_id"@ != "blocked"@ && "link_id"@ != "capability_revoked_at"@,
        "requester"@ != "target"@ && "requester"@ != "remove_scope"@ && "requester"@ != "blocked"@,
        "requester"@ != "capability_revoked_at"@ && "target"@ != "remove_scope"@,
        "target"@ != "blocked"@ && "target"@ != "capability_revoked_at"@,
        "remove_scope"@ != "blocked"@ && "remove_scope"@ != "capability_revoked_at"@,
        "blocked"@ != "capability_revoked_at"@,
        "scope"@ != "type"@ && "scope"@ != "link_id"@ && "scope"@ != "requester"@,
        "scope"@ != "target"@ && "scope"@ != "remove_scope"@ && "scope"@ != "blocked"@,
        "scope"@ != "capability_revoked_at"@,
{
    reveal_strlit("type");
    reveal_strlit("link_id");
    reveal_strlit("requester");
    reveal_strlit("target");
    reveal_strlit("remove_scope");
    reveal_strlit("blocked");
    reveal_strlit("capability_revoked_at");
    reveal_strlit("scope");
    assert("type"@.len() == 4 && "link_id"@.len() == 7 && "requester"@.len() == 9);
    assert("target"@.len() == 6 && "remove_scope"@.len() == 12 && "blocked"@.len() == 7);
    assert("capability_revoked_at"@.len() == 21 && "scope"@.len() == 5);
    assert("link_id"@[0] == 'l' && "blocked"@[0] == 'b');
}

/// A change of a link that this side records is, where it is read as an event, the same change of the
/// same link. That a link was rejected changes nothing elsewhere.
pub proof fn law_recorded_change_is_read_as_the_same(
    client: &RamfluxClient,
    change: FriendChange,
    link: &FriendLinkRecord,
    w: Result<EventWrite, SdkError>,
    plaintext: &[u8],
    r: Result<ContactAction, SdkError>,
)
    requires
        client.active_account_db is Some,
        call_ensures(RamfluxClient::append_contact_control_event, (client, change, link), w),
        w matches Ok(write) ==> plaintext@ == write.event->AppendEvent_body@,
        call_ensures(contact_event_of_plaintext, (plaintext,), r),
    ensures
        w is Ok,
        w->Ok_0.event is AppendEvent,
        w->Ok_0.checkpoint is SetProjectionCheckpoint,
        w->Ok_0.checkpoint->SetProjectionCheckpoint_projection_name@ == "friend.control"@,
        w->Ok_0.checkpoint->SetProjectionCheckpoint_last_event_id@
            == w->Ok_0.event->AppendEvent_event_id@,
        w->Ok_0.event->AppendEvent_event_id@ == w->Ok_0.event->AppendEvent_event_type@ + ":"@
            + link.link_id@,
        match change {
            FriendChange::Removed => r matches Ok(ContactAction::Remove { link_id, scope })
                && link_id@ == link.link_id@ && scope@ == match link.remove_scope {
                Some(stored) => stored@,
                None => "both"@,
            } && w->Ok_0.event->AppendEvent_event_type@ == "friend.removed"@,
            FriendChange::Blocked => r matches Ok(ContactAction::Block { link_id }) && link_id@
                == link.link_id@ && w->Ok_0.event->AppendEvent_event_type@ == "friend.blocked"@,
            FriendChange::Unblocked => r matches Ok(ContactAction::Unblock { link_id })
                && link_id@ == link.link_id@ && w->Ok_0.event->AppendEvent_event_type@
                == "friend.unblocked"@,
            FriendChange::Rejected => r matches Ok(ContactAction::Ignore)
                && w->Ok_0.event->AppendEvent_event_type@ == "friend.rejected"@,
        },
{
    lemma_member_names();
    reveal_strlit("friend.requested");
    reveal_strlit("friend.accepted");
    reveal_strlit("friend.removed");
    reveal_strlit("friend.blocked");
    reveal_strlit("friend.unblocked");
    reveal_strlit("friend.rejected");
    assert("friend.requested"@.len() == 16 && "friend.accepted"@.len() == 15);
    assert("friend.removed"@.len() == 14 && "friend.blocked"@.len() == 14);
    assert("friend.removed"@[7] == 'r' && "friend.blocked"@[7] == 'b');
    assert("friend.unblocked"@.len() == 16 && "friend.rejected"@.len() == 15);
    assert("friend.requested"@[7] == 'r' && "friend.unblocked"@[7] == 'u');
    assert("friend.accepted"@[7] == 'a' && "friend.rejected"@[7] == 'r');
}

/// A change of a link that one side records and tells is carried out at the other side, on the same link
/// and at the time it comes in, and is there told of as the same change; a rejection changes nothing.
pub proof fn law_told_change_is_carried_out(
    client: &RamfluxClient,
    other: &RamfluxClient,
    change: FriendChange,
    word: &str,
    link: &FriendLinkRecord,
    w: Result<EventWrite, SdkError>,
    plaintext: &[u8],
    now: i64,
    r: Result<(ContactAction, Option<FriendLinkUpdate>), SdkError>,
)
    requires
        client.active_account_db is Some,
        other.active_account_db is Some,
        call_ensures(FriendChange::event_type, (change,), word),
        call_ensures(RamfluxClient::append_contact_control_event, (client, change, link), w),
        w matches Ok(write) ==> plaintext@ == write.event->AppendEvent_body@,
        call_ensures(RamfluxClient::apply_contact_event_plaintext, (other, plaintext, now), r),
    ensures
        w is Ok && w->Ok_0.event->AppendEvent_event_type@ == word@,
        r is Ok,
        change is Rejected <==> (r->Ok_0.1) is None,
        (r->Ok_0.1) matches Some(update) ==> update.change == Some(change),
        change is Removed ==> ((r->Ok_0.1)->0.request matches AccountDbRequest::RemoveFriendLink {
            link_id,
            scope,
            now: at,
        } && link_id@ == link.link_id@ && at == now && scope@ == match link.remove_scope {
            Some(stored) => stored@,
            None => "both"@,
        }),
        change is Blocked ==> ((r->Ok_0.1)->0.request matches AccountDbRequest::BlockFriendLink {
            link_id,
            now: at,
        } && link_id@ == link.link_id@ && at == now),
        change is Unblocked ==> ((r->Ok_0.1)->0.request matches AccountDbRequest::UnblockFriendLink {
            link_id,
            now: at,
        } && link_id@ == link.link_id@ && at == now),
{
    lemma_member_names();
    reveal_strlit("friend.requested");
    reveal_strlit("friend.accepted");
    reveal_strlit("friend.removed");
    reveal_strlit("friend.blocked");
    reveal_strlit("friend.unblocked");
    reveal_strlit("friend.rejected");
    assert("friend.requested"@.len() == 16 && "friend.accepted"@.len() == 15);
    assert("friend.removed"@.len() == 14 && "friend.blocked"@.len() == 14);
    assert("friend.removed"@[7] == 'r' && "friend.blocked"@[7] == 'b');
    assert("friend.unblocked"@.len() == 16 && "friend.rejected"@.len() == 15);
    assert("friend.requested"@[7] == 'r' && "friend.unblocked"@[7] == 'u');
    assert("friend.accepted"@[7] == 'a' && "friend.rejected"@[7] == 'r');
}

/// Removing, blocking, unblocking and rejecting change the link that is named, and are told of as what
/// they are; making a link and asking for one are not.
pub proof fn law_link_is_changed_as_asked(
    client: &RamfluxClient,
    link_id: &str,
    scope: &str,
    requester_id: &str,
    target_id: &str,
    now: i64,
    removed: Result<FriendLinkUpdate, SdkError>,
    blocked: Result<FriendLinkUpdate, SdkError>,
    unblocked: Result<FriendLinkUpdate, SdkError>,
    rejected: Result<FriendLinkUpdate, SdkError>,
    made: Result<AccountDbRequest, SdkError>,
    pending: Result<AccountDbRequest, SdkError>,
)
    requires
        client.active_account_db is Some,
        call_ensures(RamfluxClient::remove_friend_link, (client, link_id, scope, now), removed),
        call_ensures(RamfluxClient::block_friend_link, (client, link_id, now), blocked),
        call_ensures(RamfluxClient::unblock_friend_link, (client, link_id, now), unblocked),
        call_ensures(RamfluxClient::reject_friend_link, (client, link_id, now), rejected),
        call_ensures(
            RamfluxClient::establish_friend_link,
            (client, link_id, requester_id, target_id),
            made,
        ),
        call_ensures(
            RamfluxClient::record_pending_friend_link,
            (client, link_id, requester_id, target_id, now),
            pending,
        ),
    ensures
        removed matches Ok(u) && u.change == Some(FriendChange::Removed) && (u.request matches
        AccountDbRequest::RemoveFriendLink { link_id: l, scope: s, now: at } && l@ == link_id@ && s@
            == scope@ && at == now),
        blocked matches Ok(u) && u.change == Some(FriendChange::Blocked) && (u.request matches
        AccountDbRequest::BlockFriendLink { link_id: l, now: at } && l@ == link_id@ && at == now),
        unblocked matches Ok(u) && u.change == Some(FriendChange::Unblocked) && (u.request matches
        AccountDbRequest::UnblockFriendLink { link_id: l, now: at } && l@ == link_id@ && at
            == now),
        rejected matches Ok(u) && u.change == Some(FriendChange::Rejected) && (u.request matches
        AccountDbRequest::RejectFriendLink { link_id: l, now: at } && l@ == link_id@ && at == now),
        made matches Ok(AccountDbRequest::EstablishFriendLink {
            link_id: l,
            requester_id: q,
            target_id: t,
        }) && l@ == link_id@ && q@ == requester_id@ && t@ == target_id@,
        pending matches Ok(AccountDbRequest::RecordPendingFriendLink {
            link_id: l,
            requester_id: q,
            target_id: t,
            now: at,
        }) && l@ == link_id@ && q@ == requester_id@ && t@ == target_id@ && at == now,
{
}

/// A change is told of with the link as it is stored then, if it is one that is told of.
pub proof fn law_change_is_told_with_the_stored_link(
    client: &RamfluxClient,
    update: &FriendLinkUpdate,
    link: FriendLinkRecord,
    r: Result<(FriendLinkRecord, Option<EventWrite>), SdkError>,
)
    requires
        client.active_account_db is Some,
        call_ensures(RamfluxClient::friend_link_updated, (client, update, Ok(link)), r),
    ensures
        r matches Ok((stored, told)) && stored == link && (told is Some <==> update.change is Some)
            && (told matches Some(w) ==> w.event is AppendEvent
            && w.checkpoint->SetProjectionCheckpoint_last_event_id@
            == w.event->AppendEvent_event_id@),
{
}

/// A message of a contact is turned away exactly if the link is blocked or its rights were withdrawn,
/// and the reason is that.
pub proof fn law_contact_is_turned_away_exactly_then(
    link: &Option<FriendLinkRecord>,
    r: Option<&'static str>,
)
    requires
        call_ensures(friend_rejection_reason, (link,), r),
    ensures
        r is Some <==> (*link matches Some(l) && (l.blocked || l.capability_revoked_at is Some)),
        *link matches Some(l) ==> (l.blocked ==> r->0@ == "friend.blocked"@),
        *link matches Some(l) ==> (!l.blocked && l.capability_revoked_at is Some ==> r->0@
            == "friend.capability_revoked"@),
{
}

// ---- who is linked ----

/// Whether a link is an accepted one between two identities.
pub open spec fn is_link_between(
    link: FriendLinkRecord,
    own: Seq<char>,
    contact: Seq<char>,
) -> bool {
    &&& link.state@ == "accepted"@
    &&& {
        ||| link.requester_id@ == contact && link.target_id@ == own
        ||| link.target_id@ == contact && link.requester_id@ == own
    }
}

proof fn lemma_own_side(links: Seq<FriendLinkRecord>, contact: Seq<char>)
    ensures
        match own_side(links, contact) {
            Some(own) => exists|i: int|
                0 <= i < links.len() && is_link_between(#[trigger] links[i], own, contact),
            None => forall|i: int|
                0 <= i < links.len() ==> !((#[trigger] links[i]).state@ == "accepted"@ && (
                links[i].requester_id@ == contact || links[i].target_id@ == contact)),
        },
    decreases links.len(),
{
    if links.len() > 0 {
        let rest = links.skip(1);
        lemma_own_side(rest, contact);
        match own_side(links, contact) {
            Some(own) => {
                if own_side(rest, contact) == Some(own) && !(links[0].state@ == "accepted"@ && (
                links[0].requester_id@ == contact || links[0].target_id@ == contact)) {
                    let i = choose|i: int|
                        0 <= i < rest.len() && is_link_between(#[trigger] rest[i], own, contact);
                    assert(links[i + 1] == rest[i]);
                } else {
                    assert(is_link_between(links[0], own, contact));
                }
            },
            None => {
                assert forall|i: int| 0 <= i < links.len() implies !((
                #[trigger] links[i]).state@ == "accepted"@ && (links[i].requester_id@ == contact
                    || links[i].target_id@ == contact)) by {
                    if i > 0 {
                        assert(rest[i - 1] == links[i]);
                    }
                }
            },
        }
    }
}

/// A contact is linked exactly if there is an accepted link with it, and this side is the other end of
/// such a link.
pub proof fn law_linked_identity_is_the_other_end(
    links: &Vec<FriendLinkRecord>,
    contact: &str,
    r: Result<String, SdkError>,
)
    requires
        call_ensures(linked_self_identity, (links, contact), r),
    ensures
        r is Ok <==> exists|i: int|
            0 <= i < links@.len() && (#[trigger] links@[i]).state@ == "accepted"@ && (
            links@[i].requester_id@ == contact@ || links@[i].target_id@ == contact@),
        r matches Ok(own) ==> exists|i: int|
            0 <= i < links@.len() && is_link_between(#[trigger] links@[i], own@, contact@),
        r is Err ==> r->Err_0->LocalBus_0@ == "contact is not linked: "@ + contact@,
{
    lemma_own_side(links@, contact@);
}

// ---- safety numbers ----

/// Whether a hash is made of some bytes under a domain.
pub open spec fn made_of(h: crate::digest::HashInput, domain: Seq<char>, bytes: Seq<u8>) -> bool {
    h.domain@ == domain && h.bytes@ == bytes
}

/// Whether a device adds its name, its signing key twice, its agreement key, its epoch and the event
/// that authorized it.
pub open spec fn adds_device(
    d: DeviceSafetyRecipe,
    device_id: Seq<u8>,
    signing_key: Seq<u8>,
    agreement_key: Seq<u8>,
    epoch: u64,
    event: Seq<char>,
) -> bool {
    &&& made_of(d.device_id_hash, "ramflux.sdk.contact.device_id_hash.v1"@, device_id)
    &&& made_of(
        d.device_identity_key_hash,
        "ramflux.sdk.contact.device_identity_key_hash.v1"@,
        signing_key,
    )
    &&& made_of(
        d.device_signing_key_hash,
        "ramflux.sdk.contact.device_signing_key_hash.v1"@,
        signing_key,
    )
    &&& made_of(
        d.device_x25519_identity_key_hash,
        "ramflux.sdk.contact.device_x25519_identity_key_hash.v1"@,
        agreement_key,
    )
    &&& d.device_epoch == epoch
    &&& d.branch_authorized_event_id@ == vstd::utf8::encode_utf8(event)
}

/// Whether a side adds its identity, the key of its root, and each of its devices in order.
pub open spec fn adds_manifest(m: ContactSafetyRecipe, manifest: DecodedManifest) -> bool {
    let root = vstd::utf8::encode_utf8(manifest.root_public_key@);
    &&& m.identity_commitment@ == vstd::utf8::encode_utf8(manifest.principal_commitment@)
    &&& made_of(m.identity_key_hash, "ramflux.sdk.contact.identity_key_hash.v1"@, root)
    &&& made_of(m.lineage_head, "ramflux.sdk.contact.lineage_head.v1"@, root)
    &&& m.devices@.len() == manifest.devices@.len()
    &&& forall|i: int|
        0 <= i < m.devices@.len() ==> {
            let device = manifest.devices@[i].device;
            &&& manifest.devices@[i].branch_key is Ok
            &&& adds_device(
                #[trigger] m.devices@[i],
                vstd::utf8::encode_utf8(device.device_id@),
                manifest.devices@[i].branch_key->Ok_0@,
                device.prekey_bundle.identity_key@,
                device.device_epoch,
                device.branch_authorized_event_id@,
            )
        }
}

/// Whether a side adds what its name alone gives.
pub open spec fn adds_name(m: ContactSafetyRecipe, identity: Seq<char>) -> bool {
    let name = vstd::utf8::encode_utf8(identity);
    &&& m.identity_commitment@ == name
    &&& made_of(m.identity_key_hash, "ramflux.sdk.contact.identity_key_hash.v1"@, name)
    &&& made_of(m.lineage_head, "ramflux.sdk.contact.lineage_head.v1"@, name)
    &&& m.devices@.len() == 1
    &&& adds_device(
        m.devices@[0],
        name,
        name,
        name,
        1,
        "device.branch_authorized:"@ + identity + ":1"@,
    )
}

/// Without manifests, this side adds this identity's name and the other side the contact's.
pub proof fn law_pair_is_made_of_both_names(
    client: &RamfluxClient,
    links: &Vec<FriendLinkRecord>,
    contact: &str,
    own: Result<String, SdkError>,
    r: Result<SdkContactSafetyMaterialPair, SdkError>,
    identity: &str,
    alone: ContactSafetyRecipe,
)
    requires
        client.active_account_db is Some,
        call_ensures(linked_self_identity, (links, contact), own),
        call_ensures(RamfluxClient::contact_safety_material_pair, (client, links, contact), r),
        call_ensures(contact_safety_material_for, (identity,), alone),
    ensures
        adds_name(alone, identity@),
        r is Ok <==> own is Ok,
        r matches Ok(pair) ==> {
            &&& pair.self_identity_commitment@ == own->Ok_0@
            &&& adds_name(pair.self_material, own->Ok_0@)
            &&& adds_name(pair.contact_material, contact@)
        },
{
}

/// With manifests, this side adds what its manifest holds and the other side what the contact's does;
/// a key that cannot be read makes no pair.
pub proof fn law_pair_is_made_of_both_manifests(
    client: &RamfluxClient,
    links: &Vec<FriendLinkRecord>,
    contact: &str,
    own: Result<String, SdkError>,
    ours: DecodedManifest,
    theirs: DecodedManifest,
    r: Result<SdkContactSafetyMaterialPair, SdkError>,
)
    requires
        client.active_account_db is Some,
        call_ensures(linked_self_identity, (links, contact), own),
        call_ensures(
            RamfluxClient::contact_safety_material_pair_via_gateway,
            (client, links, contact, Ok(ours), Ok(theirs)),
            r,
        ),
    ensures
        r is Ok <==> own is Ok && (forall|i: int|
            0 <= i < ours.devices@.len() ==> (#[trigger] ours.devices@[i]).branch_key is Ok) && (
        forall|i: int|
            0 <= i < theirs.devices@.len() ==> (#[trigger] theirs.devices@[i]).branch_key is Ok),
        r matches Ok(pair) ==> {
            &&& pair.self_identity_commitment@ == own->Ok_0@
            &&& adds_manifest(pair.self_material, ours)
            &&& adds_manifest(pair.contact_material, theirs)
        },
{
    if r is Ok {
        let pair = r->Ok_0;
        assert forall|i: int| 0 <= i < ours.devices@.len() implies (
        #[trigger] ours.devices@[i]).branch_key is Ok by {
            assert(crate::contact::is_recipe_of(pair.self_material.devices@[i], ours.devices@[i]));
        }
        assert forall|i: int| 0 <= i < theirs.devices@.len() implies (
        #[trigger] theirs.devices@[i]).branch_key is Ok by {
            assert(crate::contact::is_recipe_of(
                pair.contact_material.devices@[i],
                theirs.devices@[i],
            ));
        }
    }
}

/// What a manifest adds by itself.
pub proof fn law_manifest_adds_its_devices(
    principal_commitment: &str,
    root_public_key: &str,
    devices: &Vec<DecodedDevice>,
    manifest: DecodedManifest,
    r: Result<ContactSafetyRecipe, SdkError>,
)
    requires
        manifest.principal_commitment@ == principal_commitment@,
        manifest.root_public_key@ == root_public_key@,
        manifest.devices == *devices,
        call_ensures(
            contact_safety_material_from_manifest,
            (principal_commitment, root_public_key, devices),
            r,
        ),
    ensures
        r is Ok <==> forall|i: int|
            0 <= i < devices@.len() ==> (#[trigger] devices@[i]).branch_key is Ok,
        r matches Ok(m) ==> adds_manifest(m, manifest),
{
    if r is Ok {
        assert forall|i: int| 0 <= i < devices@.len() implies (
        #[trigger] devices@[i]).branch_key is Ok by {
            assert(crate::contact::is_recipe_of(r->Ok_0.devices@[i], devices@[i]));
        }
    }
}

/// The digits that bytes are written with.
pub open spec fn digit(n: u8) -> char {
    "0123456789abcdef"@[n as int]
}

proof fn lemma_hex(bytes: Seq<u8>, i: int)
    requires
        0 <= i < bytes.len(),
    ensures
        hex(bytes).len() == 2 * bytes.len(),
        hex(bytes)[2 * i] == digit(bytes[i] / 16),
        hex(bytes)[2 * i + 1] == digit(bytes[i] % 16),
    decreases bytes.len(),
{
    crate::contact::law_hex_length(bytes);
    crate::contact::law_hex_length(bytes.drop_last());
    reveal_strlit("0123456789abcdef");
    let rest = hex(bytes.drop_last());
    if i < bytes.len() - 1 {
        lemma_hex(bytes.drop_last(), i);
        assert(hex(bytes)[2 * i] == rest[2 * i]);
        assert(hex(bytes)[2 * i + 1] == rest[2 * i + 1]);
    } else {
        let b = bytes.last();
        assert(0 <= b / 16 < 16 && 0 <= b % 16 < 16);
        assert(hex(bytes)[2 * i] == crate::contact::hex_digit((b / 16) as nat));
        assert(hex(bytes)[2 * i + 1] == crate::contact::hex_digit((b % 16) as nat));
    }
}

/// Bytes are written as two digits each, the higher first.
pub proof fn law_bytes_are_written_in_hex(bytes: &[u8], r: String, i: int)
    requires
        call_ensures(bytes_to_hex, (bytes,), r),
        0 <= i < bytes@.len(),
    ensures
        r@.len() == 2 * bytes@.len(),
        r@[2 * i] == digit(bytes@[i] / 16),
        r@[2 * i + 1] == digit(bytes@[i] % 16),
{
    lemma_hex(bytes@, i);
}

/// Whether a safety number shows both identities, the number and its fingerprint, how many devices
/// either side adds, and the devices and the lineage of the contact.
pub open spec fn shows(
    n: SdkContactSafetyNumber,
    contact: Seq<char>,
    own: Seq<char>,
    own_devices: nat,
    contact_devices: nat,
    material: SafetyMaterial,
) -> bool {
    &&& n.contact_identity_commitment@ == contact
    &&& n.self_identity_commitment@ == own
    &&& n.safety_number@ == material.safety_number@
    &&& n.fingerprint_hex@.len() == 2 * material.fingerprint@.len()
    &&& forall|i: int|
        0 <= i < material.fingerprint@.len() ==> n.fingerprint_hex@[2 * i] == digit(
            #[trigger] material.fingerprint@[i] / 16,
        ) && n.fingerprint_hex@[2 * i + 1] == digit(material.fingerprint@[i] % 16)
    &&& n.safety_number_hash@ == material.safety_number_hash@
    &&& n.self_device_count == own_devices
    &&& n.contact_device_count == contact_devices
    &&& n.contact_device_set_hash@ == material.contact_device_set_hash@
    &&& n.contact_lineage_head@ == material.contact_lineage_head@
}

/// A safety number by names alone shows both sides with one device each, and the stored state as it
/// is; and a contact that was compared is marked with just that number, devices and lineage.
pub proof fn law_number_by_names(
    client: &RamfluxClient,
    links: &Vec<FriendLinkRecord>,
    contact: &str,
    material: SafetyMaterial,
    record: &Option<ContactVerificationRecord>,
    own: Result<String, SdkError>,
    r: Result<SdkContactSafetyNumber, SdkError>,
    device: &str,
    now: i64,
    marked: Result<ContactVerificationUpdate, SdkError>,
)
    requires
        client.active_account_db is Some,
        call_ensures(linked_self_identity, (links, contact), own),
        call_ensures(
            RamfluxClient::contact_safety_number,
            (client, links, contact, material, record),
            r,
        ),
        call_ensures(
            RamfluxClient::mark_contact_safety_verified,
            (client, links, contact, material, device, now),
            marked,
        ),
    ensures
        r is Ok <==> own is Ok,
        marked is Ok <==> own is Ok,
        r matches Ok(n) ==> {
            &&& shows(n, contact@, own->Ok_0@, 1, 1, material)
            &&& n.verification_state@ == match *record {
                Some(stored) => stored.verification_state@,
                None => "unverified"@,
            }
        },
        marked matches Ok(u) ==> {
            &&& u.contact_identity_commitment@ == contact@
            &&& u.safety_number_hash@ == material.safety_number_hash@
            &&& u.device_set_hash@ == material.contact_device_set_hash@
            &&& u.lineage_head@ == material.contact_lineage_head@
            &&& u.verified_at == now
            &&& u.verified_by_device_id@ == device@
        },
{
    assert forall|i: int| 0 <= i < material.fingerprint@.len() implies hex(
        material.fingerprint@,
    )[2 * i] == digit(#[trigger] material.fingerprint@[i] / 16) && hex(material.fingerprint@)[2 * i
        + 1] == digit(material.fingerprint@[i] % 16) by {
        lemma_hex(material.fingerprint@, i);
    }
    crate::contact::law_hex_length(material.fingerprint@);
}

/// A safety number by manifests counts the devices of both, and is no longer verified where the
/// contact's devices are not the verified ones.
pub proof fn law_number_by_manifests(
    client: &RamfluxClient,
    contact: &str,
    pair: SdkContactSafetyMaterialPair,
    material: SafetyMaterial,
    record: &Option<ContactVerificationRecord>,
    r: Result<SdkContactSafetyNumber, SdkError>,
    n: SdkContactSafetyNumber,
    fetched: bool,
)
    requires
        client.active_account_db is Some,
        call_ensures(
            RamfluxClient::contact_safety_number_via_gateway,
            (client, contact, Ok(pair), material, record),
            r,
        ),
        call_ensures(safety_number_of, (contact, pair, material, record, fetched), n),
    ensures
        r matches Ok(number) && shows(
            number,
            contact@,
            pair.self_identity_commitment@,
            pair.self_material.devices@.len(),
            pair.contact_material.devices@.len(),
            material,
        ) && number.verification_state@ == match *record {
            Some(stored) => if stored.verification_state@ == "verified"@
                && stored.verified_device_set_hash@ != material.contact_device_set_hash@ {
                "verification_stale"@
            } else {
                stored.verification_state@
            },
            None => "unverified"@,
        },
        shows(
            n,
            contact@,
            pair.self_identity_commitment@,
            pair.self_material.devices@.len(),
            pair.contact_material.devices@.len(),
            material,
        ),
{
    assert forall|i: int| 0 <= i < material.fingerprint@.len() implies hex(
        material.fingerprint@,
    )[2 * i] == digit(#[trigger] material.fingerprint@[i] / 16) && hex(material.fingerprint@)[2 * i
        + 1] == digit(material.fingerprint@[i] % 16) by {
        lemma_hex(material.fingerprint@, i);
    }
    crate::contact::law_hex_length(material.fingerprint@);
}

/// The state that is shown of a verification.
pub proof fn law_state_of_a_verification(
    record: &Option<ContactVerificationRecord>,
    hash: &str,
    known: String,
    unknown: String,
)
    requires
        call_ensures(contact_verification_state, (record, Some(hash)), known),
        call_ensures(contact_verification_state, (record, None), unknown),
    ensures
        *record is None ==> known@ == "unverified"@ && unknown@ == "unverified"@,
        *record matches Some(stored) ==> unknown@ == stored.verification_state@,
        *record matches Some(stored) ==> (stored.verified_device_set_hash@ == hash@ ==> known@
            == stored.verification_state@),
        *record matches Some(stored) ==> (stored.verified_device_set_hash@ != hash@ ==> known@
            == if stored.verification_state@ == "verified"@ {
            "verification_stale"@
        } else {
            stored.verification_state@
        }),
{
}

/// The devices of a believed manifest are kept under its identity, each of them.
pub proof fn law_believed_devices_are_kept(
    client: &RamfluxClient,
    devices: &Vec<CheckedDevice>,
    principal_commitment: &str,
    source: &str,
    now: i64,
    r: Result<Vec<DeviceDirectoryWrite>, SdkError>,
)
    requires
        client.active_account_db is Some,
        call_ensures(
            RamfluxClient::cache_verified_device_manifest,
            (client, devices, principal_commitment, source, now),
            r,
        ),
    ensures
        r matches Ok(writes) && writes@.len() == devices@.len() && forall|i: int|
            0 <= i < devices@.len() ==> (#[trigger] writes@[i]).device_id@
                == devices@[i].device.device_id@ && writes@[i].principal_commitment@
                == principal_commitment@ && writes@[i].source@ == source@ && writes@[i].verified_at
                == now,
{
}

// ---- across nodes ----

/// A contact event that is sent to another node goes where the request says, and is read there as what
/// it says of the request's link.
pub proof fn law_federated_event_arrives(
    client: &RamfluxClient,
    event_type: &str,
    request: &LocalBusContactFederatedRequest,
    now: i64,
    sent: FederatedContactEvent,
    plaintext: &[u8],
    r: Result<ContactAction, SdkError>,
)
    requires
        call_ensures(
            RamfluxClient::send_plaintext_federated_contact_event,
            (client, event_type, request, now),
            sent,
        ),
        plaintext@ == sent.plaintext@,
        call_ensures(contact_event_of_plaintext, (plaintext,), r),
    ensures
        sent.message.conversation_id@ == request.conversation_id@,
        sent.message.message_id@ == request.message_id@,
        sent.message.envelope_id@ == request.envelope_id@,
        sent.message.source_principal_id@ == request.source_principal_id@,
        sent.message.sender_id@ == request.sender_id@,
        sent.message.recipient_device_id matches Some(device) && device@
            == request.recipient_device_id@,
        sent.message.target_delivery_id@ == request.target_delivery_id@,
        sent.message.encrypted_body@.len() == 0,
        sent.message.created_at == now,
        sent.message.ttl == 300,
        event_type@ == "friend.requested"@ ==> (r matches Ok(
            ContactAction::RecordPending { link_id, requester_id, target_id },
        ) && link_id@ == request.link_id@ && requester_id@ == request.requester_id@ && target_id@
            == request.target_id@),
        event_type@ == "friend.accepted"@ ==> (r matches Ok(
            ContactAction::Establish { link_id, requester_id, target_id },
        ) && link_id@ == request.link_id@ && requester_id@ == request.requester_id@ && target_id@
            == request.target_id@),
{
    crate::client::federation::law_sent_contact_event_is_read(
        event_type@,
        *request,
        plaintext@,
        r,
    );
}

/// An envelope is forwarded unchanged between the nodes that the route names, in the name of the node
/// that it comes from; and the prekeys of its recipient are fetched where the route says, or else
/// where the session does.
pub proof fn law_forwarded_envelope_is_unchanged(
    federation: &LocalBusFederationRoute,
    envelope: Envelope,
    session_url: &Option<String>,
    r: SdkFederatedEnvelopeForwardRequest,
    url: Option<String>,
)
    requires
        call_ensures(federated_forward_request, (federation, envelope), r),
        call_ensures(federated_prekey_url, (federation, session_url), url),
    ensures
        r.envelope == envelope,
        r.source_node_id@ == federation.source_node_id@,
        r.target_node_id@ == federation.target_node_id@,
        r.required_capability@ == federation.required_capability@,
        r.admin_token == federation.admin_token,
        r.delivery_class@ == "opaque_event"@,
        r.signed.signing_key_id@ == federation.source_node_id@ + "#federation"@,
        federation.recipient_prekey_url is Some ==> url == federation.recipient_prekey_url,
        federation.recipient_prekey_url is None ==> url == *session_url,
{
}

/// A control event goes from its source device to its target device, in the conversation of the two,
/// to the given inbox, or else to the one that the target's prekeys name.
pub proof fn law_control_event_reaches_its_target(
    client: &RamfluxClient,
    event: &A2iControlEvent,
    principal_id: &str,
    explicit: Option<String>,
    found: Option<String>,
    r: Result<GatewayDirectMessage, SdkError>,
    conversation: String,
    source: &str,
    target: &str,
)
    requires
        source@ == event.source_device_id@,
        target@ == event.target_device_id@,
        call_ensures(
            RamfluxClient::send_a2i_control_event_via_gateway,
            (client, event, principal_id, explicit, found),
            r,
        ),
        call_ensures(crate::dm::a2i_control_conversation_id, (source, target), conversation),
    ensures
        r is Ok <==> explicit is Some || found is Some,
        r matches Ok(m) ==> {
            &&& m.conversation_id@ == conversation@
            &&& m.conversation_id@ == "a2i.control:"@ + source@ + ":"@ + target@
            &&& m.message_id@ == event.event_id@
            &&& m.envelope_id@ == "a2i:"@ + event.event_id@
            &&& m.source_principal_id@ == principal_id@
            &&& m.sender_id@ == event.source_device_id@
            &&& m.recipient_device_id matches Some(device) && device@ == event.target_device_id@
            &&& m.target_delivery_id@ == if explicit is Some {
                explicit->0@
            } else {
                found->0@
            }
            &&& m.encrypted_body@.len() == 0
            &&& m.created_at == event.created_at
            &&& m.ttl == 3600
        },
{
}

} // verus!
