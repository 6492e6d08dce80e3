//! The account database and the index of accounts, as far as the library relies on them.
//!
//! Neither is part of the library, which hands out what they are told and asked as values. A store is
//! described here by what it holds once it has carried a request out, and by what it then answers.
//! Where the library relies on nothing, nothing is said.
use crate::client::contact::{marks_verified, ContactVerificationUpdate};
use crate::contact::{
    is_safety_number, verification_state, ContactVerificationRecord, SafetyMaterial,
    SdkContactSafetyNumber,
};
use crate::group::GroupState;
use crate::records::{
    makes_group, sends_message, AccountDbRequest, AccountIndexRequest, DirectMessageRecord, EventLog,
    MessageMetadata,
};
use vstd::prelude::*;

verus! {

// ---- the index of accounts ----

/// The accounts with their identities, and the active one.
pub struct AccountIndex {
    pub accounts: Map<Seq<char>, Seq<char>>,
    pub active: Option<Seq<char>>,
}

impl AccountIndex {
    /// Whether the index is `after` once it has carried a request out.
    pub open spec fn carries_out(self, request: AccountIndexRequest, after: AccountIndex) -> bool {
        match request {
            AccountIndexRequest::CreateAccount { local_account_id, principal_commitment } => {
                after.accounts == self.accounts.insert(local_account_id@, principal_commitment@)
            },
            AccountIndexRequest::SetActiveAccount { local_account_id } => {
                &&& after.accounts == self.accounts
                &&& after.active == Some(local_account_id@)
            },
            AccountIndexRequest::ActiveAccount => after == self,
        }
    }
}

/// The account that was made active is the active one: it is what the index then answers, however
/// often it is asked, and it is one of the accounts.
pub proof fn law_active_account_is_read_back(
    index: AccountIndex,
    created: AccountIndex,
    set: AccountIndex,
    asked: AccountIndex,
    create: AccountIndexRequest,
    activate: AccountIndexRequest,
    ask: AccountIndexRequest,
    local_account_id: Seq<char>,
    principal_commitment: Seq<char>,
)
    requires
        create matches AccountIndexRequest::CreateAccount {
            local_account_id: id,
            principal_commitment: identity,
        } && id@ == local_account_id && identity@ == principal_commitment,
        activate matches AccountIndexRequest::SetActiveAccount { local_account_id: id } && id@
            == local_account_id,
        ask is ActiveAccount,
        index.carries_out(create, created),
        created.carries_out(activate, set),
        set.carries_out(ask, asked),
    ensures
        set.active == Some(local_account_id),
        asked.active == Some(local_account_id),
        set.accounts.contains_key(local_account_id),
        set.accounts[local_account_id] == principal_commitment,
{
}

// ---- the account database ----

/// The events, the messages, the verified contacts and the groups of an account.
pub struct AccountStore {
    pub log: EventLog,
    pub messages: Seq<DirectMessageRecord>,
    pub verifications: Map<Seq<char>, ContactVerificationRecord>,
    pub groups: Map<Seq<char>, GroupState>,
}

impl AccountStore {
    /// Whether a message has a name.
    pub open spec fn has_message(self, message_id: Seq<char>) -> bool {
        exists|i: int|
            0 <= i < self.messages.len() && (#[trigger] self.messages[i]).message_id@ == message_id
    }

    /// Whether the database is `after` once it holds one message more.
    pub open spec fn lists_message(
        self,
        after: AccountStore,
        conversation_id: Seq<char>,
        message_id: Seq<char>,
        sender_id: Seq<char>,
        encrypted_body: Seq<u8>,
    ) -> bool {
        let sent = after.messages.last();
        &&& after == (AccountStore { messages: self.messages.push(sent), ..self })
        &&& sent.conversation_id@ == conversation_id
        &&& sent.message_id@ == message_id
        &&& sent.sender_id@ == sender_id
        &&& sent.encrypted_body@ == encrypted_body
        &&& !sent.deleted
    }

    /// Whether the database is `after` once it has carried a request out. Of a message or a group whose
    /// name is taken already nothing is said.
    pub open spec fn carries_out(self, request: AccountDbRequest, after: AccountStore) -> bool {
        match request {
            AccountDbRequest::AppendEvent { event_id, event_type, body } => {
                &&& self.log.refusal(request) is None
                &&& after == (AccountStore { log: self.log.after_request(request), ..self })
            },
            AccountDbRequest::SetProjectionCheckpoint { projection_name, last_event_id } => {
                after == (AccountStore { log: self.log.after_request(request), ..self })
            },
            AccountDbRequest::SendDirectMessage {
                conversation_id,
                message_id,
                sender_id,
                encrypted_body,
            } => !self.has_message(message_id@) ==> self.lists_message(
                after,
                conversation_id@,
                message_id@,
                sender_id@,
                encrypted_body@,
            ),
            AccountDbRequest::SendDirectMessageWithMetadata {
                conversation_id,
                message_id,
                sender_id,
                encrypted_body,
                metadata,
            } => !self.has_message(message_id@) ==> {
                &&& self.lists_message(
                    after,
                    conversation_id@,
                    message_id@,
                    sender_id@,
                    encrypted_body@,
                )
                &&& after.messages.last().metadata == metadata
            },
            AccountDbRequest::CreateGroup { group_id, creator_id } => !self.groups.contains_key(
                group_id@,
            ) ==> {
                let made = after.groups[group_id@];
                &&& after.groups == self.groups.insert(group_id@, made)
                &&& made.group_id@ == group_id@
            },
            AccountDbRequest::PersistGroupMemberDeviceKey { group_id, member_id, public_key } => {
                after.groups == self.groups
            },
            _ => true,
        }
    }

    /// Whether the database is `after` once it has kept that a contact was verified.
    pub open spec fn keeps_verification(
        self,
        update: ContactVerificationUpdate,
        after: AccountStore,
    ) -> bool {
        let id = update.contact_identity_commitment@;
        let kept = after.verifications[id];
        &&& after == (AccountStore { verifications: self.verifications.insert(id, kept), ..self })
        &&& kept.contact_identity_commitment@ == id
        &&& kept.safety_number_hash == update.safety_number_hash
        &&& kept.verified_device_set_hash == update.device_set_hash
        &&& kept.lineage_head == update.lineage_head
        &&& kept.verified_at == update.verified_at
        &&& kept.verified_by_device_id == update.verified_by_device_id
    }

    /// Whether `answer` is what the database answers about the messages of a conversation: each that
    /// is not deleted, once, and none of another conversation.
    pub open spec fn answers_messages(
        self,
        conversation_id: Seq<char>,
        answer: Seq<DirectMessageRecord>,
    ) -> bool {
        &&& answer.no_duplicates()
        &&& forall|i: int|
            0 <= i < answer.len() ==> {
                &&& self.messages.contains(#[trigger] answer[i])
                &&& answer[i].conversation_id@ == conversation_id
            }
        &&& forall|i: int|
            0 <= i < self.messages.len() && self.messages[i].conversation_id@ == conversation_id
                && !self.messages[i].deleted ==> answer.contains(#[trigger] self.messages[i])
    }

    /// Whether `answer` is what the database answers about the message of a name.
    pub open spec fn answers_message(
        self,
        message_id: Seq<char>,
        answer: Option<DirectMessageRecord>,
    ) -> bool {
        match answer {
            Some(message) => self.messages.contains(message) && message.message_id@ == message_id,
            None => !self.has_message(message_id),
        }
    }

    /// What the database answers about a contact's verification.
    pub open spec fn verification(self, contact: Seq<char>) -> Option<ContactVerificationRecord> {
        if self.verifications.contains_key(contact) {
            Some(self.verifications[contact])
        } else {
            None
        }
    }

    /// Whether `answer` is what the database answers about its groups: each once.
    pub open spec fn answers_groups(self, answer: Seq<GroupState>) -> bool {
        &&& forall|i: int, j: int|
            0 <= i < j < answer.len() ==> (#[trigger] answer[i]).group_id@ != (
            #[trigger] answer[j]).group_id@
        &&& forall|i: int|
            0 <= i < answer.len() ==> {
                &&& self.groups.contains_key((#[trigger] answer[i]).group_id@)
                &&& self.groups[answer[i].group_id@] == answer[i]
            }
        &&& forall|id: Seq<char>| #[trigger]
            self.groups.contains_key(id) ==> lists_group(answer, id)
    }
}

/// Whether a group is listed.
pub open spec fn lists_group(answer: Seq<GroupState>, group_id: Seq<char>) -> bool {
    exists|i: int| 0 <= i < answer.len() && (#[trigger] answer[i]).group_id@ == group_id
}

/// A message that was sent under a new name is listed once in its conversation, as it was sent and
/// with what was to be kept beside it, and is what its name then stands for.
pub proof fn law_sent_message_is_read_back(
    store: AccountStore,
    after: AccountStore,
    request: AccountDbRequest,
    conversation_id: Seq<char>,
    message_id: Seq<char>,
    sender_id: Seq<char>,
    encrypted_body: Seq<u8>,
    metadata: Option<MessageMetadata>,
    listed: Seq<DirectMessageRecord>,
    found: Option<DirectMessageRecord>,
)
    requires
        sends_message(
            request,
            conversation_id,
            message_id,
            sender_id,
            encrypted_body,
            metadata,
        ),
        store.answers_message(message_id, None),
        store.carries_out(request, after),
        after.answers_messages(conversation_id, listed),
        after.answers_message(message_id, found),
    ensures
        found matches Some(message) && {
            &&& message.conversation_id@ == conversation_id
            &&& message.message_id@ == message_id
            &&& message.sender_id@ == sender_id
            &&& message.encrypted_body@ == encrypted_body
            &&& metadata matches Some(kept) ==> message.metadata == kept
            &&& listed.contains(message)
            &&& forall|i: int|
                0 <= i < listed.len() && (#[trigger] listed[i]).message_id@ == message_id
                    ==> listed[i] == message
            &&& forall|i: int, j: int|
                0 <= i < listed.len() && 0 <= j < listed.len() && (
                #[trigger] listed[i]).message_id@ == message_id && (
                #[trigger] listed[j]).message_id@ == message_id ==> i == j
        },
{
    let sent = after.messages.last();
    let n = after.messages.len() - 1;
    assert(after.messages[n] == sent);
    assert(after.has_message(message_id));
    assert forall|message: DirectMessageRecord|
        after.messages.contains(message) && message.message_id@ == message_id implies message
        == sent by {
        let i = after.messages.index_of(message);
        assert(after.messages[i] == message);
        if i < n {
            assert(store.messages[i] == message);
        }
    }
    assert(after.messages.contains(sent));
}

/// A contact that was marked as verified is read back as it was marked: with the number that was
/// compared, the devices and the lineage that it stood for, and the device that compared it. As long
/// as nothing was stored, its number is shown as unverified.
pub proof fn law_verification_is_read_back(
    store: AccountStore,
    after: AccountStore,
    update: ContactVerificationUpdate,
    number: SdkContactSafetyNumber,
    material: SafetyMaterial,
    contact: Seq<char>,
    own: Seq<char>,
    verified_by_device_id: Seq<char>,
    now: i64,
)
    requires
        is_safety_number(
            number,
            contact,
            own,
            1,
            1,
            material,
            store.verification(contact),
            false,
        ),
        marks_verified(update, contact, material, verified_by_device_id, now),
        store.keeps_verification(update, after),
    ensures
        after.verification(contact) matches Some(record) && {
            &&& record.contact_identity_commitment@ == contact
            &&& record.safety_number_hash@ == number.safety_number_hash@
            &&& record.verified_device_set_hash@ == number.contact_device_set_hash@
            &&& record.lineage_head@ == number.contact_lineage_head@
            &&& record.verified_at == now
            &&& record.verified_by_device_id@ == verified_by_device_id
            &&& verification_state(
                Some(record),
                Some(number.contact_device_set_hash@),
            ) == record.verification_state@
        },
        store.verification(contact) is None ==> number.verification_state@ == "unverified"@,
{
}

/// Whether a run of requests makes groups and records the keys of their makers, and nothing else. No
/// two of the groups have one name.
pub open spec fn makes_groups(requests: Seq<AccountDbRequest>) -> bool {
    &&& forall|i: int|
        0 <= i < requests.len() ==> {
            ||| #[trigger] requests[i] is CreateGroup
            ||| requests[i] is PersistGroupMemberDeviceKey
        }
    &&& forall|i: int, j: int, id: Seq<char>|
        0 <= i < j < requests.len() && #[trigger] makes_group(requests[i], id) ==> !(
        #[trigger] makes_group(requests[j], id))
}

/// Whether one of some requests makes a group.
pub open spec fn group_is_made(requests: Seq<AccountDbRequest>, group_id: Seq<char>) -> bool {
    exists|i: int| 0 <= i < requests.len() && #[trigger] makes_group(requests[i], group_id)
}

/// Whether the databases follow each other by the requests.
pub open spec fn follows(stores: Seq<AccountStore>, requests: Seq<AccountDbRequest>) -> bool {
    &&& stores.len() == requests.len() + 1
    &&& forall|i: int|
        0 <= i < requests.len() ==> #[trigger] stores[i].carries_out(requests[i], stores[i + 1])
}

proof fn lemma_made_groups_are_there(stores: Seq<AccountStore>, requests: Seq<AccountDbRequest>)
    requires
        follows(stores, requests),
        makes_groups(requests),
        stores[0].groups.is_empty(),
    ensures
        forall|id: Seq<char>| #[trigger]
            stores.last().groups.contains_key(id) <==> group_is_made(requests, id),
    decreases requests.len(),
{
    if requests.len() > 0 {
        let before = requests.drop_last();
        let n = requests.len() - 1;
        assert forall|i: int, j: int, id: Seq<char>|
            0 <= i < j < before.len() && #[trigger] makes_group(before[i], id) implies !(
        #[trigger] makes_group(before[j], id)) by {
            assert(makes_group(requests[i], id));
            assert(before[j] == requests[j]);
        }
        assert forall|i: int| 0 <= i < before.len() implies #[trigger] stores.drop_last()[i].carries_out(
            before[i],
            stores.drop_last()[i + 1],
        ) by {
            assert(stores[i].carries_out(requests[i], stores[i + 1]));
        }
        lemma_made_groups_are_there(stores.drop_last(), before);
        assert(stores.drop_last().last() == stores[n]);
        assert(stores[n].carries_out(requests[n], stores[n + 1]));
        assert(stores.last() == stores[n + 1]);
        assert forall|id: Seq<char>| #[trigger]
            stores.last().groups.contains_key(id) <==> group_is_made(requests, id) by {
            assert(stores[n].groups.contains_key(id) <==> group_is_made(before, id));
            if group_is_made(before, id) {
                let i = choose|i: int| 0 <= i < before.len() && makes_group(before[i], id);
                assert(makes_group(requests[i], id));
            }
            if group_is_made(requests, id) {
                let i = choose|i: int| 0 <= i < requests.len() && makes_group(requests[i], id);
                if i < n {
                    assert(makes_group(before[i], id));
                }
            }
            if makes_group(requests[n], id) {
                assert(!group_is_made(before, id)) by {
                    if group_is_made(before, id) {
                        let i = choose|i: int| 0 <= i < before.len() && makes_group(before[i], id);
                        assert(makes_group(requests[i], id));
                    }
                }
            }
            match requests[n] {
                AccountDbRequest::CreateGroup { group_id, creator_id } => {
                    assert(makes_group(requests[n], group_id@));
                    assert(!group_is_made(before, group_id@)) by {
                        if group_is_made(before, group_id@) {
                            let i = choose|i: int|
                                0 <= i < before.len() && makes_group(before[i], group_id@);
                            assert(makes_group(requests[i], group_id@));
                        }
                    }
                },
                _ => {},
            }
        }
    }
}

/// The groups that were made on a fresh database are the ones that it lists, each once, and what it
/// lists of a group is what it answers about that group alone.
pub proof fn law_made_groups_are_listed_once(
    stores: Seq<AccountStore>,
    requests: Seq<AccountDbRequest>,
    answer: Seq<GroupState>,
)
    requires
        follows(stores, requests),
        makes_groups(requests),
        stores[0].groups.is_empty(),
        stores.last().answers_groups(answer),
    ensures
        forall|id: Seq<char>| #[trigger]
            lists_group(answer, id) <==> group_is_made(requests, id),
        forall|i: int, j: int|
            0 <= i < j < answer.len() ==> (#[trigger] answer[i]).group_id@ != (
            #[trigger] answer[j]).group_id@,
        forall|i: int|
            0 <= i < answer.len() ==> stores.last().groups[(
            #[trigger] answer[i]).group_id@] == answer[i],
{
    lemma_made_groups_are_there(stores, requests);
    assert forall|id: Seq<char>| #[trigger] lists_group(answer, id) <==> group_is_made(
        requests,
        id,
    ) by {
        assert(stores.last().groups.contains_key(id) <==> group_is_made(requests, id));
        if lists_group(answer, id) {
            let i = choose|i: int| 0 <= i < answer.len() && answer[i].group_id@ == id;
            assert(stores.last().groups.contains_key(answer[i].group_id@));
        }
    }
}

} // verus!
