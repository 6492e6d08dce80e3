//! The courses that operations take: each step follows the one before it only when that one succeeded,
//! a failure ends the course, and what has been reached is never taken back.
use crate::attachment_flow::{AttachmentImport, ImportStep};
use crate::client::state::RamfluxClient;
use crate::dm_flow::{
    receive_terminal_recovery, ControlStep, DmReceive, DmSend, ReceiveEvent, ReceiveStep,
    ReceiveTerminalDecision, SendStep,
};
use crate::error::SdkError;
use crate::group_flow::{GroupReceive, GroupSend, GroupSendStep, GroupStep, GroupStepEvent};
use crate::records::AccountDbRequest;
use crate::relay_requests::{GatewayQuicResponse, RelayQuicRequestError, TombstoneRequest};
use crate::share_flow::{HandOverStep, KeyHandOver};
use crate::sync_flow::{ExportStep, HistoryExport, HistoryIntake, IntakeStep};
use crate::text::decimal;
use crate::tombstone_flow::{RemoteTombstone, TombstoneEvent, TombstoneStep};
use vstd::prelude::*;

verus! {

// ---- taking in an attachment ----

/// How far the import of an attachment has come.
pub open spec fn import_place(step: ImportStep) -> int {
    match step {
        ImportStep::DecryptKey => 0,
        ImportStep::ReadOptions => 1,
        ImportStep::VerifyGrant => 2,
        ImportStep::Download => 3,
        ImportStep::CheckManifest => 4,
        ImportStep::PersistObject => 5,
        ImportStep::PersistTransfer => 6,
        ImportStep::CheckPlaintext => 7,
        ImportStep::Acknowledge(i) => 8,
        ImportStep::CommitKeySession => 9,
        ImportStep::Imported => 10,
        ImportStep::Stop => -1,
    }
}

/// An attachment is taken in step by step: its key is opened, its grant verified, the object fetched,
/// checked and kept, each of its chunks acknowledged where that is asked for, and the state of the
/// conversation kept last.
pub proof fn law_attachment_is_taken_in_step_by_step(
    acknowledges: bool,
    total_chunks: u32,
    first: AttachmentImport,
    s: &mut AttachmentImport,
    succeeded: bool,
)
    requires
        call_ensures(AttachmentImport::start, (acknowledges, total_chunks), first),
        call_ensures(AttachmentImport::advance, (s, succeeded), ()),
    ensures
        first.step is DecryptKey,
        first.acknowledges == acknowledges && first.total_chunks == total_chunks,
        !first.grant_verified && !first.object_persisted && !first.plaintext_checked,
        first.acknowledged == 0 && !first.session_committed,
        final(s).acknowledges == old(s).acknowledges,
        final(s).total_chunks == old(s).total_chunks,
        old(s).step is Imported || old(s).step is Stop ==> *final(s) == *old(s),
        !succeeded && !(old(s).step is Imported) ==> final(s).step is Stop,
        !succeeded ==> {
            &&& final(s).grant_verified == old(s).grant_verified
            &&& final(s).object_persisted == old(s).object_persisted
            &&& final(s).plaintext_checked == old(s).plaintext_checked
            &&& final(s).acknowledged == old(s).acknowledged
            &&& final(s).session_committed == old(s).session_committed
        },
        succeeded && 0 <= import_place(old(s).step) < 7 ==> import_place(final(s).step)
            == import_place(old(s).step) + 1,
        succeeded && old(s).step is CheckPlaintext ==> if old(s).acknowledges && old(s).total_chunks > 0 {
            final(s).step == ImportStep::Acknowledge(0)
        } else {
            final(s).step is CommitKeySession
        },
        succeeded && old(s).step is Acknowledge ==> {
            let i = old(s).step->Acknowledge_0;
            &&& final(s).step is Acknowledge <==> old(s).acknowledges && i + 1 < old(s).total_chunks
            &&& final(s).step is Acknowledge ==> final(s).step->Acknowledge_0 == i + 1
            &&& final(s).step is Acknowledge || final(s).step is CommitKeySession
            &&& i < u32::MAX ==> final(s).acknowledged == i + 1
        },
        !(old(s).step is Acknowledge) ==> final(s).acknowledged == old(s).acknowledged,
        succeeded && old(s).step is CommitKeySession ==> final(s).step is Imported,
        succeeded ==> {
            &&& final(s).grant_verified <==> old(s).grant_verified || old(s).step is VerifyGrant
            &&& final(s).object_persisted <==> old(s).object_persisted || old(s).step is PersistObject
            &&& final(s).plaintext_checked <==> old(s).plaintext_checked || old(s).step is CheckPlaintext
            &&& final(s).session_committed <==> old(s).session_committed || old(s).step is CommitKeySession
        },
{
}

// ---- handing over a key ----

/// How far the handing over of a key has come.
pub open spec fn hand_over_place(step: HandOverStep) -> int {
    match step {
        HandOverStep::ReadOptions => 0,
        HandOverStep::PutObject => 1,
        HandOverStep::Upload => 2,
        HandOverStep::NameRecipient => 3,
        HandOverStep::OpenSession => 4,
        HandOverStep::EncryptKey => 5,
        HandOverStep::PersistSession => 6,
        HandOverStep::SignGrant => 7,
        HandOverStep::HandedOver => 8,
        HandOverStep::Stop => -1,
    }
}

/// A key is handed over step by step; for an attachment the object goes up first and a grant is signed
/// last, and the state of the conversation is kept before the key leaves.
pub proof fn law_key_is_handed_over_step_by_step(
    attachment: bool,
    first: KeyHandOver,
    s: &mut KeyHandOver,
    succeeded: bool,
)
    requires
        call_ensures(KeyHandOver::start, (attachment,), first),
        call_ensures(KeyHandOver::advance, (s, succeeded), ()),
    ensures
        first.attachment == attachment,
        attachment ==> first.step is ReadOptions,
        !attachment ==> first.step is NameRecipient,
        !first.uploaded && !first.session_persisted && !first.grant_signed,
        final(s).attachment == old(s).attachment,
        old(s).step is HandedOver || old(s).step is Stop ==> *final(s) == *old(s),
        !succeeded && !(old(s).step is HandedOver) ==> final(s).step is Stop,
        !succeeded ==> final(s).uploaded == old(s).uploaded && final(s).session_persisted == old(s).session_persisted && final(s).grant_signed == old(s).grant_signed,
        succeeded && 0 <= hand_over_place(old(s).step) < 8 && !(old(s).step is PersistSession && !old(s).attachment) ==> hand_over_place(final(s).step) == hand_over_place(old(s).step) + 1,
        succeeded && old(s).step is PersistSession && !old(s).attachment ==> final(s).step is HandedOver,
        succeeded ==> {
            &&& final(s).uploaded <==> old(s).uploaded || old(s).step is Upload
            &&& final(s).session_persisted <==> old(s).session_persisted || old(s).step is PersistSession
            &&& final(s).grant_signed <==> old(s).grant_signed || old(s).step is SignGrant
        },
{
}

// ---- handing on and taking in a history ----

/// How far the export of a history has come.
pub open spec fn export_place(step: ExportStep) -> int {
    match step {
        ExportStep::CheckSource => 0,
        ExportStep::CheckTarget => 1,
        ExportStep::ComparePrincipals => 2,
        ExportStep::ReadHistory => 3,
        ExportStep::PutObject => 4,
        ExportStep::Upload => 5,
        ExportStep::OpenSession => 6,
        ExportStep::EncryptKey => 7,
        ExportStep::PersistSession => 8,
        ExportStep::Announce => 9,
        ExportStep::Exported => 10,
        ExportStep::Stop => -1,
    }
}

/// A history is handed on step by step: both devices are checked and are of one identity before
/// anything is read, and it is announced last.
pub proof fn law_history_is_handed_on_step_by_step(
    first: HistoryExport,
    s: &mut HistoryExport,
    succeeded: bool,
)
    requires
        call_ensures(HistoryExport::start, (), first),
        call_ensures(HistoryExport::advance, (s, succeeded), ()),
    ensures
        first.step is CheckSource,
        !first.same_principal && !first.uploaded && !first.session_persisted && !first.announced,
        old(s).step is Exported || old(s).step is Stop ==> *final(s) == *old(s),
        !succeeded && !(old(s).step is Exported) ==> final(s).step is Stop,
        !succeeded ==> final(s).same_principal == old(s).same_principal && final(s).uploaded == old(s).uploaded && final(s).session_persisted == old(s).session_persisted && final(s).announced
            == old(s).announced,
        succeeded && 0 <= export_place(old(s).step) < 10 ==> export_place(final(s).step)
            == export_place(old(s).step) + 1,
        succeeded ==> {
            &&& final(s).same_principal <==> old(s).same_principal || old(s).step is ComparePrincipals
            &&& final(s).uploaded <==> old(s).uploaded || old(s).step is Upload
            &&& final(s).session_persisted <==> old(s).session_persisted || old(s).step is PersistSession
            &&& final(s).announced <==> old(s).announced || old(s).step is Announce
        },
{
}

/// How far the intake of a history has come.
pub open spec fn intake_place(step: IntakeStep) -> int {
    match step {
        IntakeStep::CheckAnnouncement => 0,
        IntakeStep::FetchManifest => 1,
        IntakeStep::FindSigner => 2,
        IntakeStep::VerifySignature => 3,
        IntakeStep::FetchObject => 4,
        IntakeStep::ReadHistory => 5,
        IntakeStep::TakeIn => 6,
        IntakeStep::TakenIn => 7,
        IntakeStep::Stop => -1,
    }
}

/// A history is taken in step by step: nothing is fetched before the announcement is checked and its
/// signature verified, and nothing is written before it is read.
pub proof fn law_history_is_taken_in_step_by_step(
    first: HistoryIntake,
    s: &mut HistoryIntake,
    succeeded: bool,
)
    requires
        call_ensures(HistoryIntake::start, (), first),
        call_ensures(HistoryIntake::advance, (s, succeeded), ()),
    ensures
        first.step is CheckAnnouncement,
        !first.verified && !first.fetched,
        old(s).step is TakenIn || old(s).step is Stop ==> *final(s) == *old(s),
        !succeeded && !(old(s).step is TakenIn) ==> final(s).step is Stop,
        !succeeded ==> final(s).verified == old(s).verified && final(s).fetched == old(s).fetched,
        succeeded && 0 <= intake_place(old(s).step) < 7 ==> intake_place(final(s).step)
            == intake_place(old(s).step) + 1,
        succeeded ==> {
            &&& final(s).verified <==> old(s).verified || old(s).step is VerifySignature
            &&& final(s).fetched <==> old(s).fetched || old(s).step is FetchObject
        },
{
}

// ---- sending and receiving messages ----

/// How far the sending of a message has come.
pub open spec fn send_place(step: SendStep) -> int {
    match step {
        SendStep::Encrypt => 0,
        SendStep::Project => 1,
        SendStep::PersistSession => 2,
        SendStep::Submit => 3,
        SendStep::Sent => 4,
        SendStep::Stop => -1,
    }
}

/// A message is sent step by step: it is encrypted, listed if it is one that is, and the state of the
/// conversation is kept before it is submitted.
pub proof fn law_message_is_sent_step_by_step(
    listed: bool,
    first: DmSend,
    s: &mut DmSend,
    succeeded: bool,
)
    requires
        call_ensures(DmSend::start, (listed,), first),
        call_ensures(DmSend::advance, (s, succeeded), ()),
    ensures
        first.step is Encrypt && first.listed == listed && !first.session_persisted,
        final(s).listed == old(s).listed,
        old(s).step is Sent || old(s).step is Stop ==> *final(s) == *old(s),
        !succeeded && !(old(s).step is Sent) ==> final(s).step is Stop,
        !succeeded ==> final(s).session_persisted == old(s).session_persisted,
        succeeded && old(s).step is Encrypt && !old(s).listed ==> final(s).step is PersistSession,
        succeeded && 0 <= send_place(old(s).step) < 4 && !(old(s).step is Encrypt && !old(s).listed) ==> send_place(final(s).step) == send_place(old(s).step) + 1,
        succeeded ==> (final(s).session_persisted <==> old(s).session_persisted || old(s).step is PersistSession),
{
}

/// How far the receiving of a control event has come.
pub open spec fn control_place(step: ControlStep) -> int {
    match step {
        ControlStep::AppendDelivery => 0,
        ControlStep::Decrypt => 1,
        ControlStep::ReadEvent => 2,
        ControlStep::CommitSession => 3,
        ControlStep::PersistCursor => 4,
        ControlStep::Deliver => 5,
        ControlStep::Stop => -1,
    }
}

/// A control event is received step by step, and a message whose state is already kept is not decrypted
/// again, whether or not it is listed.
pub proof fn law_control_event_is_received_step_by_step(
    step: ControlStep,
    succeeded: bool,
    next: ControlStep,
    listed: bool,
    current: bool,
    decision: ReceiveTerminalDecision,
)
    requires
        call_ensures(ControlStep::advanced, (step, succeeded), next),
        call_ensures(receive_terminal_recovery, (listed, current), decision),
    ensures
        step is Deliver ==> next is Deliver,
        step is Stop ==> next is Stop,
        !succeeded && !(step is Deliver) ==> next is Stop,
        succeeded && 0 <= control_place(step) < 5 ==> control_place(next) == control_place(step)
            + 1,
        decision is CursorCatchUp <==> current,
{
}

/// A message is received step by step: what was appended is looked up, and decrypted unless the state
/// after it is already kept; a receipt and a message that is turned away are not handed out; every
/// other is handed out once its attachments are there, it is listed, the state of the conversation is
/// kept and the cursor moved on.
pub proof fn law_message_is_received_step_by_step(
    auto: bool,
    first: DmReceive,
    s: &mut DmReceive,
    event: ReceiveEvent,
)
    requires
        call_ensures(DmReceive::start, (auto,), first),
        old(s).well_formed(),
        call_ensures(DmReceive::advance, (s, event), ()),
    ensures
        first.step is AppendDelivery && first.auto_fetch_attachments == auto,
        first.attachments == 0 && !first.deliver && !first.checkpoint_current,
        !first.session_committed && !first.cursor_persisted,
        final(s).auto_fetch_attachments == old(s).auto_fetch_attachments,
        old(s).step is Deliver || old(s).step is Skip || old(s).step is Stop ==> *final(s) == *old(s),
        event is Failed && !(old(s).step is Deliver || old(s).step is Skip) ==> final(s).step is Stop,
        old(s).step is AppendDelivery && event is Done ==> final(s).step is LookUp,
        (event matches ReceiveEvent::LookedUp { projection_present, session_checkpoint_current }
            && old(s).step is LookUp) ==> if event->session_checkpoint_current {
            final(s).step is PersistCursor && final(s).checkpoint_current
        } else {
            final(s).step is Decrypt && !final(s).checkpoint_current
        },
        old(s).step is Decrypt && event is Done ==> final(s).step is ApplyContactEvent,
        old(s).step is ApplyContactEvent && event is Done ==> final(s).step is ApplyReceipt,
        old(s).step is ApplyReceipt && event is Receipt ==> if event->applied {
            final(s).step is CommitSession
        } else {
            final(s).step is CheckSender
        },
        old(s).step is CheckSender && event is Sender ==> if event->turned_away {
            final(s).step is RejectMessage
        } else {
            final(s).step is DecodeBody
        },
        old(s).step is RejectMessage && event is Done ==> final(s).step is CommitSession,
        old(s).step is DecodeBody && event is Body ==> {
            &&& final(s).attachments == event->attachments
            &&& final(s).deliver
            &&& if old(s).auto_fetch_attachments && event->attachments > 0 {
                final(s).step == ReceiveStep::ImportAttachment(0)
            } else {
                final(s).step is AppendProjection
            }
        },
        old(s).step is ImportAttachment && event is Done ==> {
            let i = old(s).step->ImportAttachment_0;
            if i + 1 < old(s).attachments {
                final(s).step is ImportAttachment && final(s).step->ImportAttachment_0 == i + 1
            } else {
                final(s).step is AppendProjection
            }
        },
        old(s).step is AppendProjection && event is Done ==> final(s).step is CommitSession,
        old(s).step is CommitSession && event is Done ==> final(s).step is PersistCursor,
        old(s).step is PersistCursor && event is Done ==> if old(s).deliver {
            final(s).step is Deliver
        } else {
            final(s).step is Skip
        },
        final(s).session_committed <==> old(s).session_committed || (old(s).step is CommitSession
            && event is Done),
        final(s).cursor_persisted <==> old(s).cursor_persisted || (old(s).step is PersistCursor
            && event is Done),
        final(s).deliver <==> old(s).deliver || (old(s).step is DecodeBody && event is Body),
{
}

// ---- groups ----

/// A message of a group is sent step by step: the sender is checked, there is a key, and the key is
/// kept after it was used and before the message is handed out.
pub proof fn law_group_message_is_sent_step_by_step(
    first: GroupSend,
    s: &mut GroupSend,
    succeeded: bool,
)
    requires
        call_ensures(GroupSend::start, (), first),
        call_ensures(GroupSend::advance, (s, succeeded), ()),
    ensures
        first.step is CheckSender && !first.encrypted && !first.key_persisted,
        old(s).step is HandOut || old(s).step is Stop ==> *final(s) == *old(s),
        !succeeded && !(old(s).step is HandOut) ==> final(s).step is Stop,
        !succeeded ==> final(s).encrypted == old(s).encrypted && final(s).key_persisted == old(s).key_persisted,
        succeeded && old(s).step is CheckSender ==> final(s).step is EnsureKey,
        succeeded && old(s).step is EnsureKey ==> final(s).step is Encrypt,
        succeeded && old(s).step is Encrypt ==> final(s).step is PersistKey,
        succeeded && old(s).step is PersistKey ==> final(s).step is HandOut,
        succeeded ==> {
            &&& final(s).encrypted <==> old(s).encrypted || old(s).step is Encrypt
            &&& final(s).key_persisted <==> old(s).key_persisted || old(s).step is PersistKey
        },
{
}

/// A delivery of a group is received step by step: a message that is known is only settled; one whose
/// key is missing waits, or goes on waiting; every other is decrypted, its number recorded as new, its
/// key kept, listed, settled and handed out; a key that came is taken in once its wrapper is checked.
pub proof fn law_group_delivery_is_received_step_by_step(
    retrying: bool,
    first: GroupReceive,
    s: &mut GroupReceive,
    event: GroupStepEvent,
)
    requires
        call_ensures(GroupReceive::start, (retrying,), first),
        call_ensures(GroupReceive::advance, (s, event), ()),
    ensures
        retrying ==> first.step is LookUp,
        !retrying ==> first.step is AppendDelivery,
        first.retrying == retrying && !first.known && !first.counter_recorded,
        !first.key_persisted && !first.listed && !first.settled && !first.set_aside,
        final(s).retrying == old(s).retrying,
        old(s).step is Deliver || old(s).step is Skip || old(s).step is KeyTaken || old(s).step is Stop
            ==> *final(s) == *old(s),
        old(s).step is AppendDelivery && event is Done ==> final(s).step is Classify,
        old(s).step is Classify && event is Payload ==> if event->message {
            final(s).step is LookUp
        } else {
            final(s).step is DecryptDistribution
        },
        old(s).step is LookUp && event is LookedUp ==> final(s).known == event->known && if event->known {
            final(s).step is Settle
        } else {
            final(s).step is LoadKey
        },
        old(s).step is LoadKey && event is Done ==> final(s).step is Decrypt,
        old(s).step is Decrypt && event is Done ==> final(s).step is RecordCounter,
        old(s).step is RecordCounter && event is Recorded ==> final(s).counter_recorded
            == event->anew && if event->anew {
            final(s).step is PersistKey
        } else {
            final(s).step is Stop
        },
        old(s).step is PersistKey && event is Done ==> final(s).step is List && final(s).key_persisted,
        old(s).step is List && event is Done ==> final(s).step is Settle && final(s).listed,
        old(s).step is Settle && event is Done ==> final(s).settled && if old(s).known {
            final(s).step is Skip
        } else {
            final(s).step is Deliver
        },
        old(s).step is SetAside && event is Done ==> final(s).step is Skip && final(s).set_aside,
        old(s).step is DecryptDistribution && event is Done ==> final(s).step is PersistSession,
        old(s).step is PersistSession && event is Done ==> final(s).step is CheckWrapper,
        old(s).step is CheckWrapper && event is Done ==> final(s).step is ImportKey,
        old(s).step is ImportKey && event is Done ==> final(s).step is KeyTaken,
        (event is Failed && !(old(s).step is Deliver || old(s).step is Skip || old(s).step is KeyTaken || old(s).step is Stop)) ==> {
            let waits = event->key_missing && (old(s).step is LoadKey || old(s).step is Decrypt
                || old(s).step is RecordCounter || old(s).step is PersistKey);
            &&& waits && old(s).retrying ==> final(s).step is Skip
            &&& waits && !old(s).retrying ==> final(s).step is SetAside
            &&& !waits ==> final(s).step is Stop
        },
        event is Failed ==> {
            &&& final(s).known == old(s).known
            &&& final(s).counter_recorded == old(s).counter_recorded
            &&& final(s).key_persisted == old(s).key_persisted
            &&& final(s).listed == old(s).listed
            &&& final(s).settled == old(s).settled
            &&& final(s).set_aside == old(s).set_aside
        },
        final(s).key_persisted <==> old(s).key_persisted || (old(s).step is PersistKey
            && event is Done),
        final(s).listed <==> old(s).listed || (old(s).step is List && event is Done),
        final(s).settled <==> old(s).settled || (old(s).step is Settle && event is Done),
        final(s).set_aside <==> old(s).set_aside || (old(s).step is SetAside && event is Done),
{
}

// ---- burying an object on a relay ----

/// An object is buried here only after the relay said that it is buried there; what was lost or late is
/// asked once more, and every other answer leaves the object as it is.
pub proof fn law_object_is_buried_after_the_relay(
    request: &Result<TombstoneRequest, SdkError>,
    first: RemoteTombstone,
    s: &mut RemoteTombstone,
    event: &TombstoneEvent,
)
    requires
        call_ensures(RemoteTombstone::start, (request,), first),
        call_ensures(RemoteTombstone::advance, (s, event), ()),
    ensures
        first.step is IssueToken <==> *request is Ok,
        first.step is IssueToken || first.step is Stop,
        first.attempts == 1 && !first.granted,
        old(s).step is Buried || old(s).step is Stop ==> *final(s) == *old(s),
        old(s).step is IssueToken && *event is Token ==> final(s).step == if event->issued {
            TombstoneStep::SendRequest
        } else {
            TombstoneStep::Stop
        },
        old(s).step is SendRequest ==> (final(s).step is Bury <==> (*event matches TombstoneEvent::Answer(
            Ok(response),
        ) && response.status == 200)),
        old(s).step is SendRequest && *event is Answer && event->Answer_0 is Err ==> if old(s).attempts
            == 1 && (event->Answer_0->Err_0 is ConnectionLost || event->Answer_0->Err_0
            is RequestTimeout) {
            final(s).step is SendRequest && final(s).attempts == 2
        } else {
            final(s).step is Stop
        },
        old(s).step is SendRequest && *event is Answer && event->Answer_0 is Ok
            && event->Answer_0->Ok_0.status != 200 ==> final(s).step is Stop,
        old(s).step is Bury && *event is Burial ==> final(s).step == if event->succeeded {
            TombstoneStep::Buried
        } else {
            TombstoneStep::Stop
        },
        final(s).granted <==> old(s).granted || (old(s).step is SendRequest && final(s).step is Bury),
        final(s).step is Buried ==> old(s).step is Buried || old(s).step is Bury,
{
}

/// What a client makes of the relay's answer: the object is buried exactly if the relay said that it
/// is, and then just that object, where an account is open.
pub proof fn law_answer_of_the_relay_decides(
    client: &RamfluxClient,
    object_id: &str,
    answer: Result<GatewayQuicResponse, RelayQuicRequestError>,
    r: Result<Option<AccountDbRequest>, SdkError>,
)
    requires
        call_ensures(RamfluxClient::tombstone_answered, (client, object_id, answer), r),
    ensures
        r is Ok <==> answer is Ok && answer->Ok_0.status == 200,
        r matches Ok(q) ==> (q is Some <==> client.active_account_db is Some),
        r matches Ok(Some(q)) ==> (q matches AccountDbRequest::SetObjectTombstoned { object_id: id }
            && id@ == object_id@),
        r is Err && answer is Ok ==> (r matches Err(SdkError::CapabilityDenied(words)) && words@
            == "relay v3 request rejected with HTTP status "@ + decimal(
            answer->Ok_0.status as nat,
        ) + ": "@ + answer->Ok_0.body@),
        r is Err && answer is Err ==> r->Err_0 is Transport,
{
}

} // verus!
