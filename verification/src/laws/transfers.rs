//! Transfers of objects: which bytes a chunk has, what is missing, what is recorded, and that a whole
//! is put together only from all its chunks.
use crate::chunks::{
    ciphertext_slice, copy_chunks, has_chunk, join_chunks, missing_chunks, resumed_bytes,
    same_bytes, with_chunk,
};
use crate::error::SdkError;
use crate::object::{
    DeviceBranch, EncryptedObject, RelayTransferOptions, SdkObjectRelayPutResponse,
};
use crate::records::{ObjectTransferRecord, ObjectTransferWrite};
use crate::text::decimal;
use crate::transfer::{
    check_chunk_hash, download_chunk_size, persist_object_transfer, relay_expires_at, DownloadStep,
    ObjectDownload, ObjectUpload, TransferRoute, TransferSubject, UploadStep,
};
use vstd::prelude::*;

verus! {

// ---- chunks ----

/// The bytes of a chunk stand at its number times the size of a chunk; they are as many as fit there,
/// and there is no chunk behind the end.
pub proof fn law_chunk_holds_its_bytes(
    ciphertext: &[u8],
    chunk_size: usize,
    index: u32,
    r: Option<&[u8]>,
    i: int,
)
    requires
        call_ensures(ciphertext_slice, (ciphertext, chunk_size, index), r),
    ensures
        r is Some <==> index * chunk_size < ciphertext@.len(),
        r matches Some(bytes) ==> {
            &&& bytes@.len() <= chunk_size
            &&& index * chunk_size + bytes@.len() <= ciphertext@.len()
            &&& bytes@.len() == chunk_size || index * chunk_size + bytes@.len() == ciphertext@.len()
            &&& 0 <= i < bytes@.len() ==> bytes@[i] == ciphertext@[index * chunk_size + i]
        },
{
    let start = index as nat * chunk_size as nat;
    assert(start == index * chunk_size);
    assert(start >= 0) by (nonlinear_arith)
        requires
            start == index * chunk_size,
            index >= 0,
            chunk_size >= 0,
    ;
}

/// Whether a chunk is among those that are done is what is said of it, and one that is added is among
/// them, and every other is as before; they stand in order, each once.
pub proof fn law_done_chunk_is_among_the_done(
    completed: &Vec<u32>,
    index: u32,
    r: Vec<u32>,
    other: u32,
    was: bool,
    is: bool,
    copy: Vec<u32>,
)
    requires
        call_ensures(with_chunk, (completed, index), r),
        call_ensures(has_chunk, (completed, other), was),
        call_ensures(has_chunk, (&r, other), is),
        call_ensures(copy_chunks, (completed,), copy),
    ensures
        is <==> was || other == index,
        was <==> exists|i: int| 0 <= i < completed@.len() && #[trigger] completed@[i] == other,
        forall|i: int, j: int| 0 <= i < j < r@.len() ==> #[trigger] r@[i] < #[trigger] r@[j],
        copy@ == completed@,
{
    assert(completed@.contains(other) <==> exists|i: int|
        0 <= i < completed@.len() && #[trigger] completed@[i] == other);
}

/// What is missing is every chunk of the whole that is not done, in order.
pub proof fn law_missing_is_what_is_not_done(
    total: u32,
    completed: &Vec<u32>,
    r: Vec<u32>,
    index: u32,
    done: bool,
    missing: bool,
)
    requires
        call_ensures(missing_chunks, (total, completed), r),
        call_ensures(has_chunk, (completed, index), done),
        call_ensures(has_chunk, (&r, index), missing),
    ensures
        missing <==> index < total && !done,
        forall|i: int, j: int| 0 <= i < j < r@.len() ==> #[trigger] r@[i] < #[trigger] r@[j],
{
    crate::chunks::law_done_and_missing_partition(total, completed@, index);
}

/// The bytes that are done are counted chunk by chunk: with one more chunk they are as many more as that
/// chunk has.
pub proof fn law_bytes_are_counted_by_chunk(
    ciphertext: &Vec<u8>,
    slice: &[u8],
    chunk_size: usize,
    before: &Vec<u32>,
    after: &Vec<u32>,
    index: u32,
    n: u64,
    m: u64,
    none: &Vec<u32>,
    zero: u64,
    bytes: Option<&[u8]>,
)
    requires
        slice@ == ciphertext@,
        after@ == before@.push(index),
        none@.len() == 0,
        call_ensures(resumed_bytes, (ciphertext, chunk_size, none), zero),
        call_ensures(resumed_bytes, (ciphertext, chunk_size, before), n),
        call_ensures(resumed_bytes, (ciphertext, chunk_size, after), m),
        call_ensures(ciphertext_slice, (slice, chunk_size, index), bytes),
    ensures
        zero == 0,
        bytes is None ==> m == n,
        bytes is Some && m < u64::MAX ==> m == n + bytes->0@.len(),
        n <= m,
{
    assert(after@.drop_last() =~= before@);
    assert(after@.last() == index);
}

/// A whole is put together exactly if all its chunks are there; it is then the one before the other,
/// and cut up into chunks that begin where the last one ended.
pub proof fn law_whole_is_put_together_from_all(
    chunks: &Vec<Option<Vec<u8>>>,
    r: Option<Vec<u8>>,
    more: &Vec<Option<Vec<u8>>>,
    last: Vec<u8>,
    longer: Option<Vec<u8>>,
    a: &Vec<u8>,
    b: &Vec<u8>,
    same: bool,
)
    requires
        call_ensures(join_chunks, (chunks,), r),
        more@ == chunks@.push(Some(last)),
        call_ensures(join_chunks, (more,), longer),
        call_ensures(same_bytes, (a, b), same),
    ensures
        r is Some <==> forall|i: int| 0 <= i < chunks@.len() ==> #[trigger] chunks@[i] is Some,
        longer is Some <==> r is Some,
        longer matches Some(whole) ==> whole@ == r->0@ + last@,
        chunks@.len() == 0 ==> r is Some && r->0@.len() == 0,
        same <==> a@ == b@,
{
    assert(more@.drop_last() =~= chunks@);
    assert(more@.last() == Some(last));
    if r is Some {
        assert forall|i: int| 0 <= i < more@.len() implies #[trigger] more@[i] is Some by {
            if i < chunks@.len() {
                assert(more@[i] == chunks@[i]);
                assert(chunks@[i] is Some);
            }
        }
        assert(crate::chunks::all_there(more@));
    } else if longer is Some {
        assert forall|i: int| 0 <= i < chunks@.len() implies #[trigger] chunks@[i] is Some by {
            assert(more@[i] == chunks@[i]);
            assert(more@[i] is Some);
        }
        assert(crate::chunks::all_there(chunks@));
    }
}

/// What is cut into chunks is put together again as it was.
pub proof fn law_cut_whole_is_put_together(
    ciphertext: &[u8],
    chunk_size: usize,
    chunks: &Vec<Option<Vec<u8>>>,
    r: Option<Vec<u8>>,
)
    requires
        chunk_size > 0,
        chunks@.len() <= u32::MAX,
        chunks@.len() * chunk_size >= ciphertext@.len(),
        forall|i: u32|
            i < chunks@.len() ==> #[trigger] chunks@[i as int] is Some && exists|cut: &[u8]|
                call_ensures(ciphertext_slice, (ciphertext, chunk_size, i), Some(cut))
                    && chunks@[i as int]->0@ == cut@,
        call_ensures(join_chunks, (chunks,), r),
    ensures
        r matches Some(whole) && whole@ == ciphertext@,
{
    assert forall|i: int| 0 <= i < chunks@.len() implies match crate::chunks::slice_of(
        ciphertext@,
        chunk_size as nat,
        i as nat,
    ) {
        Some(bytes) => #[trigger] chunks@[i] is Some && chunks@[i]->0@ == bytes,
        None => false,
    } by {
        let n = i as u32;
        assert(chunks@[n as int] is Some);
        let cut = choose|cut: &[u8]|
            call_ensures(ciphertext_slice, (ciphertext, chunk_size, n), Some(cut))
                && chunks@[n as int]->0@ == cut@;
        assert(call_ensures(ciphertext_slice, (ciphertext, chunk_size, n), Some(cut)));
    }
    crate::chunks::law_slices_make_the_whole(ciphertext@, chunk_size as nat, chunks@);
}

// ---- what is recorded ----

/// Whether a write records how far a transfer has come: of which object, in which direction, with whom
/// and where, which chunks are done and which are missing, how many bytes, and when.
pub open spec fn records(
    w: ObjectTransferWrite,
    object_id: Seq<char>,
    manifest_hash: Seq<char>,
    direction: Seq<char>,
    peer: Seq<char>,
    relay: Seq<char>,
    total_bytes: int,
    done_bytes: u64,
    chunk_size: int,
    total_chunks: u32,
    completed: Seq<u32>,
    expires_at: u64,
    state: Seq<char>,
    now: i64,
) -> bool {
    &&& w.object_id@ == object_id
    &&& expires_at <= i64::MAX ==> w.expires_at == Some(expires_at as i64)
    &&& expires_at > i64::MAX ==> w.expires_at == Some(i64::MAX)
    &&& w.manifest_hash@ == manifest_hash
    &&& w.direction@ == direction
    &&& w.transfer_id@ == direction + ":"@ + object_id + ":"@ + manifest_hash
    &&& w.peer_device_id@ == peer
    &&& w.relay_endpoint is Some && w.relay_endpoint->0@ == relay
    &&& w.resume_token is None
    &&& w.last_error is None
    &&& w.total_bytes == total_bytes
    &&& w.done_bytes == done_bytes
    &&& w.chunk_size == chunk_size
    &&& w.total_chunks == total_chunks
    &&& w.completed_chunks@ == completed
    &&& w.state@ == state
    &&& w.updated_at == now
    &&& w.next_chunk_index is None <==> w.missing_chunks@.len() == 0
    &&& w.next_chunk_index matches Some(next) ==> next == w.missing_chunks@[0]
    &&& forall|i: u32| #[trigger]
        w.missing_chunks@.contains(i) <==> i < total_chunks && !completed.contains(i)
}

pub(crate) proof fn lemma_missing_in(total: u32, completed: Seq<u32>)
    ensures
        forall|i: u32| #[trigger]
            crate::chunks::missing_of(total as nat, completed).contains(i) <==> i < total
                && !completed.contains(i),
{
    assert forall|i: u32| #[trigger]
        crate::chunks::missing_of(total as nat, completed).contains(i) <==> i < total
            && !completed.contains(i) by {
        crate::chunks::law_done_and_missing_partition(total, completed, i);
    }
}

/// What is recorded of a transfer is what it was asked to record.
pub proof fn law_transfer_is_recorded_as_it_stands(
    branch: Option<&DeviceBranch>,
    subject: &TransferSubject<'_>,
    completed: &Vec<u32>,
    done_bytes: u64,
    state: &str,
    now: i64,
    w: ObjectTransferWrite,
)
    requires
        call_ensures(
            persist_object_transfer,
            (branch, subject, completed, done_bytes, state, now),
            w,
        ),
    ensures
        records(
            w,
            subject.object_id@,
            subject.manifest_hash@,
            subject.direction@,
            if branch is Some {
                branch->0.device_id@
            } else {
                "local-device"@
            },
            subject.relay_endpoint@,
            subject.total_bytes as int,
            done_bytes,
            subject.chunk_size as int,
            subject.total_chunks,
            completed@,
            subject.expires_at,
            state@,
            now,
        ),
{
    lemma_missing_in(subject.total_chunks, completed@);
}

/// A transfer may be gone on with for four minutes; a chunk counts only with the hash that it has; and
/// a transfer that was begun goes on with the size of chunk that it was begun with.
pub proof fn law_transfer_goes_on_as_begun(
    now: u64,
    until: u64,
    claimed: &str,
    expected: &str,
    counts: Result<(), SdkError>,
    record: &Option<ObjectTransferRecord>,
    size: usize,
)
    requires
        call_ensures(relay_expires_at, (now,), until),
        call_ensures(check_chunk_hash, (claimed, expected), counts),
        call_ensures(download_chunk_size, (record,), size),
    ensures
        now + 240 <= u64::MAX ==> until == now + 240,
        now + 240 > u64::MAX ==> until == u64::MAX,
        counts is Ok <==> claimed@ == expected@,
        *record is None ==> size == 65536,
        *record is Some && 0 < record->0.chunk_size <= usize::MAX ==> size == record->0.chunk_size,
        *record is Some && record->0.chunk_size == 0 ==> size == 1,
{
}

// ---- sending ----

/// A transfer to a relay begins where it was left: with the object, the chunks that were done and their
/// bytes, and the options that are given.
pub proof fn law_upload_begins_where_it_was_left(
    branch: Option<&DeviceBranch>,
    object: EncryptedObject,
    chunk_size: usize,
    total_chunks: u32,
    options: &RelayTransferOptions,
    route: TransferRoute,
    record: Option<ObjectTransferRecord>,
    now: u64,
    r: Result<ObjectUpload, SdkError>,
    done: &Vec<u32>,
    bytes: u64,
)
    requires
        call_ensures(
            ObjectUpload::start,
            (branch, object, chunk_size, total_chunks, options, route, record, now),
            r,
        ),
        chunk_size > 0,
        record matches Some(known) ==> done@ == known.completed_chunks@,
        record is None ==> done@.len() == 0,
        call_ensures(resumed_bytes, (&object.ciphertext, chunk_size, done), bytes),
    ensures
        r is Ok <==> branch is Some,
        r matches Ok(u) ==> {
            &&& u.branch == *branch->0
            &&& u.object == object
            &&& u.chunk_size == chunk_size
            &&& u.total_chunks == total_chunks
            &&& u.relay_endpoint == options.relay_endpoint
            &&& u.interrupt_after_chunks == options.interrupt_after_chunks
            &&& u.route == route
            &&& u.mints_locally <==> options.token_provider is LocalMint
            &&& u.completed@ == done@
            &&& u.done_bytes == bytes
            &&& u.transferred == 0 && u.next_index == 0 && !u.awaits_response
            &&& now + 240 <= u64::MAX ==> u.expires_at == now + 240
        },
{
    if record is None {
        assert(done@ =~= Seq::<u32>::empty());
    }
}

/// Whether a transfer is to stop after the chunks that it has moved.
pub open spec fn is_to_stop(limit: Option<u32>, moved: u32) -> bool {
    limit is Some && moved >= limit->0
}

proof fn lemma_next_upload(
    ciphertext: Seq<u8>,
    chunk_size: nat,
    total: nat,
    completed: Seq<u32>,
    from: nat,
    stops: bool,
)
    requires
        total <= u32::MAX,
    ensures
        crate::transfer::next_upload(
            ciphertext,
            chunk_size,
            total,
            completed,
            from,
            stops,
        ) matches Some(i) ==> {
            &&& from <= i < total
            &&& !completed.contains(i as u32)
            &&& forall|j: nat|
                from <= j < i ==> completed.contains(#[trigger] (j as u32))
                    || crate::chunks::slice_of(ciphertext, chunk_size, j) is None
            &&& stops || crate::chunks::slice_of(ciphertext, chunk_size, i) is Some
        },
        crate::transfer::next_upload(ciphertext, chunk_size, total, completed, from, stops) is None
            ==> forall|j: nat|
            from <= j < total ==> completed.contains(#[trigger] (j as u32))
                || crate::chunks::slice_of(ciphertext, chunk_size, j) is None,
    decreases total - from,
{
    if from < total {
        if completed.contains(from as u32) || (!stops && crate::chunks::slice_of(
            ciphertext,
            chunk_size,
            from,
        ) is None) {
            lemma_next_upload(ciphertext, chunk_size, total, completed, from + 1, stops);
        }
    }
}

/// What a transfer to a relay does next: it puts the first chunk that is not done, with the bytes of
/// that chunk; it is complete only when every chunk that has bytes is done; it stops where it is to
/// stop, and keeps to its route.
pub proof fn law_next_chunk_is_put(
    u: &mut ObjectUpload,
    now: i64,
    r: UploadStep,
    bytes: Option<&[u8]>,
    ciphertext: &[u8],
)
    requires
        old(u).well_formed(),
        !old(u).awaits_response,
        call_ensures(ObjectUpload::step, (u, now), r),
        ciphertext@ == old(u).object.ciphertext@,
        call_ensures(
            ciphertext_slice,
            (ciphertext, old(u).chunk_size, final(u).next_index),
            bytes,
        ),
    ensures
        final(u).object == old(u).object && final(u).completed == old(u).completed,
        final(u).done_bytes == old(u).done_bytes && final(u).transferred == old(u).transferred,
        final(u).awaits_response <==> r is Put,
        r matches UploadStep::Put { chunk_index, bytes: sent } ==> {
            &&& chunk_index == final(u).next_index
            &&& old(u).next_index <= chunk_index < old(u).total_chunks
            &&& !old(u).completed@.contains(chunk_index)
            &&& bytes is Some && sent@ == bytes->0@
            &&& !is_to_stop(old(u).interrupt_after_chunks, old(u).transferred)
            &&& old(u).route is GatewayQuic <==> !old(u).mints_locally
            &&& forall|j: u32|
                old(u).next_index <= j < chunk_index ==> #[trigger] old(u).completed@.contains(j)
                    || j * old(u).chunk_size >= old(u).object.ciphertext@.len()
        },
        r matches UploadStep::Complete { write } ==> {
            &&& records(
                write,
                old(u).object.object_id@,
                old(u).object.manifest_hash@,
                "upload"@,
                old(u).branch.device_id@,
                old(u).relay_endpoint@,
                old(u).object.ciphertext@.len() as int,
                old(u).object.ciphertext@.len() as u64,
                old(u).chunk_size as int,
                old(u).total_chunks,
                old(u).completed@,
                old(u).expires_at,
                "complete"@,
                now,
            )
            &&& forall|j: u32|
                old(u).next_index <= j < old(u).total_chunks ==> #[trigger] old(u).completed@.contains(j) || j * old(u).chunk_size >= old(u).object.ciphertext@.len()
        },
        r matches UploadStep::Paused { write, error } ==> {
            &&& is_to_stop(old(u).interrupt_after_chunks, old(u).transferred)
            &&& records(
                write,
                old(u).object.object_id@,
                old(u).object.manifest_hash@,
                "upload"@,
                old(u).branch.device_id@,
                old(u).relay_endpoint@,
                old(u).object.ciphertext@.len() as int,
                old(u).done_bytes,
                old(u).chunk_size as int,
                old(u).total_chunks,
                old(u).completed@,
                old(u).expires_at,
                "paused"@,
                now,
            )
        },
        r matches UploadStep::Paused { write, error } ==> (error matches SdkError::LocalBus(m) && m@
            == "object relay upload interrupted"@),
        r is Refused ==> (old(u).route is GatewayQuic <==> old(u).mints_locally),
        r is Refused ==> !is_to_stop(old(u).interrupt_after_chunks, old(u).transferred),
        r matches UploadStep::Refused { error } ==> if old(u).mints_locally {
            error matches SdkError::CapabilityDenied(m) && m@
                == "gateway object PUT requires gateway-issued v3 QUIC transport"@
        } else {
            error matches SdkError::LocalBus(m) && m@
                == "object relay requires gateway-issued token; local mint is disabled"@
        },
{
    lemma_missing_in(old(u).total_chunks, old(u).completed@);
    lemma_next_upload(
        old(u).object.ciphertext@,
        old(u).chunk_size as nat,
        old(u).total_chunks as nat,
        old(u).completed@,
        old(u).next_index as nat,
        is_to_stop(old(u).interrupt_after_chunks, old(u).transferred),
    );
    let stop: u32 = match old(u).pending() {
        Some(i) => i as u32,
        None => old(u).total_chunks,
    };
    if !is_to_stop(old(u).interrupt_after_chunks, old(u).transferred) {
        assert forall|j: u32| old(u).next_index <= j < stop implies #[trigger] old(u).completed@.contains(j) || j * old(u).chunk_size >= old(u).object.ciphertext@.len() by {
            let n = j as nat;
            assert(old(u).completed@.contains(n as u32) || crate::chunks::slice_of(
                old(u).object.ciphertext@,
                old(u).chunk_size as nat,
                n,
            ) is None);
        }
    } else {
        assert forall|j: u32| r is Complete && old(u).next_index <= j < stop implies #[trigger] old(u).completed@.contains(j) || j * old(u).chunk_size >= old(u).object.ciphertext@.len() by {
            let n = j as nat;
            assert(old(u).completed@.contains(n as u32) || crate::chunks::slice_of(
                old(u).object.ciphertext@,
                old(u).chunk_size as nat,
                n,
            ) is None);
        }
    }
}

/// A chunk counts as put exactly if the relay answers of that chunk of that object that it has it; it
/// is then done, its bytes are counted, and the next one is up.
pub proof fn law_put_chunk_is_done(
    u: &mut ObjectUpload,
    response: &SdkObjectRelayPutResponse,
    now: i64,
    r: Result<ObjectTransferWrite, SdkError>,
    ciphertext: &[u8],
    bytes: Option<&[u8]>,
)
    requires
        old(u).well_formed(),
        old(u).awaits_response,
        call_ensures(ObjectUpload::put_answered, (u, response, now), r),
        ciphertext@ == old(u).object.ciphertext@,
        call_ensures(
            ciphertext_slice,
            (ciphertext, old(u).chunk_size, old(u).next_index),
            bytes,
        ),
    ensures
        r is Ok <==> {
            &&& response.chunk_id@ == "object-relay:"@ + old(u).object.object_id@ + ":"@ + old(u).object.manifest_hash@ + ":"@ + decimal(old(u).next_index as nat)
            &&& response.object_id@ == old(u).object.object_id@
            &&& response.manifest_hash@ == old(u).object.manifest_hash@
            &&& response.status is Available
        },
        r is Err ==> *final(u) == *old(u),
        r matches Ok(w) ==> {
            &&& forall|i: u32| #[trigger]
                final(u).completed@.contains(i) <==> old(u).completed@.contains(i) || i == old(u).next_index
            &&& final(u).next_index == old(u).next_index + 1
            &&& !final(u).awaits_response
            &&& old(u).transferred < u32::MAX ==> final(u).transferred == old(u).transferred + 1
            &&& bytes is Some && old(u).done_bytes + bytes->0@.len() <= u64::MAX ==> final(u).done_bytes == old(u).done_bytes + bytes->0@.len()
            &&& final(u).object == old(u).object
            &&& final(u).route == old(u).route
            &&& final(u).expires_at == old(u).expires_at
            &&& records(
                w,
                old(u).object.object_id@,
                old(u).object.manifest_hash@,
                "upload"@,
                old(u).branch.device_id@,
                old(u).relay_endpoint@,
                old(u).object.ciphertext@.len() as int,
                final(u).done_bytes,
                old(u).chunk_size as int,
                old(u).total_chunks,
                final(u).completed@,
                old(u).expires_at,
                "running"@,
                now,
            )
        },
{
    lemma_missing_in(old(u).total_chunks, final(u).completed@);
}

// ---- fetching ----

/// A transfer from a relay begins where it was left, with no chunk in hand.
pub proof fn law_download_begins_where_it_was_left(
    branch: Option<&DeviceBranch>,
    object: EncryptedObject,
    chunk_size: usize,
    total_chunks: u32,
    options: &RelayTransferOptions,
    route: TransferRoute,
    acknowledges: bool,
    record: Option<ObjectTransferRecord>,
    now: u64,
    r: Result<ObjectDownload, SdkError>,
    done: &Vec<u32>,
    bytes: u64,
)
    requires
        call_ensures(
            ObjectDownload::start,
            (branch, object, chunk_size, total_chunks, options, route, acknowledges, record, now),
            r,
        ),
        chunk_size > 0,
        record matches Some(known) ==> done@ == known.completed_chunks@,
        record is None ==> done@.len() == 0,
        call_ensures(resumed_bytes, (&object.ciphertext, chunk_size, done), bytes),
    ensures
        r is Ok <==> branch is Some,
        r matches Ok(d) ==> {
            &&& d.branch == *branch->0
            &&& d.object == object
            &&& d.chunk_size == chunk_size
            &&& d.total_chunks == total_chunks
            &&& d.relay_endpoint == options.relay_endpoint
            &&& d.interrupt_after_chunks == options.interrupt_after_chunks
            &&& d.route == route
            &&& d.mints_locally <==> options.token_provider is LocalMint
            &&& d.acknowledges == acknowledges
            &&& d.completed@ == done@
            &&& d.done_bytes == bytes
            &&& d.transferred == 0 && d.next_index == 0 && !d.awaits_chunk
            &&& d.chunks@.len() == total_chunks
            &&& forall|i: int| 0 <= i < total_chunks ==> #[trigger] d.chunks@[i] is None
            &&& now + 240 <= u64::MAX ==> d.expires_at == now + 240
        },
{
    if record is None {
        assert(done@ =~= Seq::<u32>::empty());
    }
}

proof fn lemma_next_undone(total: nat, completed: Seq<u32>, from: nat)
    requires
        total <= u32::MAX,
    ensures
        crate::transfer::next_undone(total, completed, from) matches Some(i) ==> from <= i < total
            && !completed.contains(i as u32) && forall|j: nat|
            from <= j < i ==> completed.contains(#[trigger] (j as u32)),
        crate::transfer::next_undone(total, completed, from) is None ==> forall|j: nat|
            from <= j < total ==> completed.contains(#[trigger] (j as u32)),
    decreases total - from,
{
    if from < total && completed.contains(from as u32) {
        lemma_next_undone(total, completed, from + 1);
    }
}

/// What a transfer from a relay does next: it fetches the first chunk that is not done, puts together
/// the whole when all are done, stops where it is to stop, and keeps to its route.
pub proof fn law_next_chunk_is_fetched(d: &mut ObjectDownload, now: i64, r: DownloadStep)
    requires
        old(d).well_formed(),
        !old(d).awaits_chunk,
        call_ensures(ObjectDownload::step, (d, now), r),
    ensures
        final(d).object == old(d).object && final(d).completed == old(d).completed,
        final(d).done_bytes == old(d).done_bytes && final(d).transferred == old(d).transferred,
        final(d).awaits_chunk <==> r is Get,
        r matches DownloadStep::Get { chunk_index } ==> {
            &&& chunk_index == final(d).next_index
            &&& old(d).next_index <= chunk_index < old(d).total_chunks
            &&& !old(d).completed@.contains(chunk_index)
            &&& !is_to_stop(old(d).interrupt_after_chunks, old(d).transferred)
            &&& old(d).route is GatewayQuic <==> !old(d).mints_locally
            &&& forall|j: u32|
                old(d).next_index <= j < chunk_index ==> #[trigger] old(d).completed@.contains(j)
        },
        r is Assemble <==> forall|j: u32|
            old(d).next_index <= j < old(d).total_chunks ==> #[trigger] old(d).completed@.contains(j),
        r matches DownloadStep::Paused { write, error } ==> {
            &&& is_to_stop(old(d).interrupt_after_chunks, old(d).transferred)
            &&& records(
                write,
                old(d).object.object_id@,
                old(d).object.manifest_hash@,
                "download"@,
                old(d).branch.device_id@,
                old(d).relay_endpoint@,
                old(d).object.ciphertext@.len() as int,
                old(d).done_bytes,
                old(d).chunk_size as int,
                old(d).total_chunks,
                old(d).completed@,
                old(d).expires_at,
                "paused"@,
                now,
            )
        },
        r matches DownloadStep::Paused { write, error } ==> (error matches SdkError::LocalBus(m) && m@
            == "object relay download interrupted"@),
        r is Refused ==> (old(d).route is GatewayQuic <==> old(d).mints_locally),
        r is Refused ==> !is_to_stop(old(d).interrupt_after_chunks, old(d).transferred),
        r matches DownloadStep::Refused { error } ==> if old(d).mints_locally {
            error matches SdkError::CapabilityDenied(m) && m@
                == "gateway object GET requires gateway-issued v3 QUIC transport"@
        } else {
            error matches SdkError::LocalBus(m) && m@
                == "object relay requires gateway-issued token; local mint is disabled"@
        },
{
    lemma_missing_in(old(d).total_chunks, old(d).completed@);
    lemma_next_undone(
        old(d).total_chunks as nat,
        old(d).completed@,
        old(d).next_index as nat,
    );
    let pending = crate::transfer::next_undone(
        old(d).total_chunks as nat,
        old(d).completed@,
        old(d).next_index as nat,
    );
    let stop: u32 = match pending {
        Some(i) => i as u32,
        None => old(d).total_chunks,
    };
    assert forall|j: u32| old(d).next_index <= j < stop implies #[trigger] old(d).completed@.contains(j) by {
        let n = j as nat;
        assert(old(d).completed@.contains(n as u32));
    }
    if pending is Some {
        assert(!old(d).completed@.contains(stop));
    }
}

/// What was done before is not fetched again: the bytes of such a chunk are those of the object.
pub proof fn law_done_chunk_is_taken_from_the_object(
    d: &mut ObjectDownload,
    now: i64,
    r: DownloadStep,
    index: u32,
    ciphertext: &[u8],
    bytes: Option<&[u8]>,
)
    requires
        old(d).well_formed(),
        !old(d).awaits_chunk,
        call_ensures(ObjectDownload::step, (d, now), r),
        ciphertext@ == old(d).object.ciphertext@,
        index < old(d).total_chunks,
        call_ensures(ciphertext_slice, (ciphertext, old(d).chunk_size, index), bytes),
    ensures
        old(d).next_index <= index < final(d).next_index && bytes is Some ==> final(d).chunks@[index as int] is Some && final(d).chunks@[index as int]->0@ == bytes->0@,
        !(old(d).next_index <= index < final(d).next_index && bytes is Some) ==> final(d).chunks@[index as int] == old(d).chunks@[index as int],
{
    assert(final(d).chunks@[index as int] == final(d).chunks@[index as int]);
}

/// A chunk that came counts exactly if it has its hash and could be decrypted; it is then done, held as
/// it came, counted, recorded, and acknowledged where that is asked for.
pub proof fn law_fetched_chunk_is_done(
    d: &mut ObjectDownload,
    claimed: &str,
    recomputed: &str,
    plaintext: Result<Vec<u8>, SdkError>,
    now: i64,
    r: Result<(ObjectTransferWrite, Option<u32>), SdkError>,
)
    requires
        old(d).well_formed(),
        old(d).awaits_chunk,
        call_ensures(ObjectDownload::chunk_received, (d, claimed, recomputed, plaintext, now), r),
    ensures
        r is Ok <==> claimed@ == recomputed@ && plaintext is Ok,
        r is Err ==> *final(d) == *old(d),
        r matches Ok((w, acknowledged)) ==> {
            &&& acknowledged is Some <==> old(d).acknowledges
            &&& acknowledged matches Some(i) ==> i == old(d).next_index
            &&& forall|i: u32| #[trigger]
                final(d).completed@.contains(i) <==> old(d).completed@.contains(i) || i == old(d).next_index
            &&& final(d).chunks@ == old(d).chunks@.update(
                old(d).next_index as int,
                Some(plaintext->Ok_0),
            )
            &&& final(d).next_index == old(d).next_index + 1
            &&& !final(d).awaits_chunk
            &&& old(d).transferred < u32::MAX ==> final(d).transferred == old(d).transferred + 1
            &&& old(d).done_bytes + plaintext->Ok_0@.len() <= u64::MAX ==> final(d).done_bytes
                == old(d).done_bytes + plaintext->Ok_0@.len()
            &&& final(d).object == old(d).object
            &&& records(
                w,
                old(d).object.object_id@,
                old(d).object.manifest_hash@,
                "download"@,
                old(d).branch.device_id@,
                old(d).relay_endpoint@,
                old(d).object.ciphertext@.len() as int,
                final(d).done_bytes,
                old(d).chunk_size as int,
                old(d).total_chunks,
                final(d).completed@,
                old(d).expires_at,
                "running"@,
                now,
            )
        },
{
    lemma_missing_in(old(d).total_chunks, final(d).completed@);
}

/// A transfer from a relay is complete exactly if all chunks are there and, one behind the other, are
/// the object; nothing is then missing.
pub proof fn law_fetched_whole_is_the_object(
    d: &ObjectDownload,
    now: i64,
    r: Result<ObjectTransferWrite, SdkError>,
    whole: Option<Vec<u8>>,
)
    requires
        d.well_formed(),
        call_ensures(ObjectDownload::assemble, (d, now), r),
        call_ensures(join_chunks, (&d.chunks,), whole),
    ensures
        r is Ok <==> whole is Some && whole->0@ == d.object.ciphertext@,
        r matches Ok(w) ==> {
            &&& w.missing_chunks@.len() == 0
            &&& records(
                w,
                d.object.object_id@,
                d.object.manifest_hash@,
                "download"@,
                d.branch.device_id@,
                d.relay_endpoint@,
                d.object.ciphertext@.len() as int,
                d.object.ciphertext@.len() as u64,
                d.chunk_size as int,
                d.total_chunks,
                d.completed@,
                d.expires_at,
                "complete"@,
                now,
            )
        },
{
    lemma_missing_in(d.total_chunks, d.completed@);
}

} // verus!
