//! What holds of whole transfers.
use crate::chunks::{
    all_there, ascending, is_sorted_with, joined, law_slices_make_the_whole, missing_of, slice_of,
};
use crate::transfer::{
    filled_in, interrupted, next_undone, next_upload, ObjectDownload, ObjectUpload,
};
use vstd::prelude::*;

verus! {

/// An upload sends only chunks that are not done and that the object reaches, and it leaves none of
/// those out.
pub proof fn law_upload_sends_first_undone_chunk(
    ciphertext: Seq<u8>,
    chunk_size: nat,
    total: nat,
    completed: Seq<u32>,
    from: nat,
)
    ensures
        match next_upload(ciphertext, chunk_size, total, completed, from, false) {
            Some(i) => {
                &&& from <= i < total
                &&& !completed.contains(i as u32)
                &&& slice_of(ciphertext, chunk_size, i) is Some
                &&& forall|j: nat|
                    from <= j < i ==> completed.contains(j as u32) || #[trigger] slice_of(
                        ciphertext,
                        chunk_size,
                        j,
                    ) is None
            },
            None => forall|j: nat|
                from <= j < total ==> completed.contains(j as u32) || #[trigger] slice_of(
                    ciphertext,
                    chunk_size,
                    j,
                ) is None,
        },
    decreases total - from,
{
    if from < total {
        law_upload_sends_first_undone_chunk(ciphertext, chunk_size, total, completed, from + 1);
        assert(slice_of(ciphertext, chunk_size, from) is None || slice_of(
            ciphertext,
            chunk_size,
            from,
        ) is Some);
    }
}

/// An upload with a limit never stores more chunks in one run than the limit says: a chunk is sent
/// only while fewer have been stored, and each answer counts one.
pub proof fn law_upload_keeps_to_its_limit(limit: u32, before: ObjectUpload, after: ObjectUpload)
    requires
        before.interrupt_after_chunks == Some(limit),
        !interrupted(before.interrupt_after_chunks, before.transferred),
        after.transferred == before.transferred + 1,
    ensures
        after.transferred <= limit,
{
}

/// The chunk that a paused transfer names as the next one is the one at which it is taken up again.
pub proof fn law_resumes_at_the_recorded_chunk(
    ciphertext: Seq<u8>,
    chunk_size: nat,
    total: u32,
    completed: Seq<u32>,
)
    ensures
        match next_undone(total as nat, completed, 0) {
            Some(i) => missing_of(total as nat, completed).len() > 0 && missing_of(
                total as nat,
                completed,
            )[0] == i,
            None => missing_of(total as nat, completed).len() == 0,
        },
        next_upload(ciphertext, chunk_size, total as nat, completed, 0, true) == next_undone(
            total as nat,
            completed,
            0,
        ),
{
    lemma_first_missing(total as nat, completed, total as nat);
    lemma_interrupted_upload(ciphertext, chunk_size, total as nat, completed, 0);
}

proof fn lemma_interrupted_upload(
    ciphertext: Seq<u8>,
    chunk_size: nat,
    total: nat,
    completed: Seq<u32>,
    from: nat,
)
    ensures
        next_upload(ciphertext, chunk_size, total, completed, from, true) == next_undone(
            total,
            completed,
            from,
        ),
    decreases total - from,
{
    if from < total {
        lemma_interrupted_upload(ciphertext, chunk_size, total, completed, from + 1);
    }
}

/// The first `n` chunks: if any is not done, the first such is the first missing one.
proof fn lemma_first_missing(total: nat, completed: Seq<u32>, n: nat)
    requires
        n <= total <= u32::MAX,
    ensures
        match next_undone(n, completed, 0) {
            Some(i) => i < n && missing_of(n, completed).len() > 0 && missing_of(n, completed)[0] == i,
            None => missing_of(n, completed).len() == 0,
        },
    decreases n,
{
    if n > 0 {
        let m = (n - 1) as nat;
        lemma_first_missing(total, completed, m);
        lemma_undone_grows(m, completed, 0);
    }
}

proof fn lemma_undone_grows(n: nat, completed: Seq<u32>, from: nat)
    requires
        from <= n,
    ensures
        next_undone(n + 1, completed, from) == match next_undone(n, completed, from) {
            Some(i) => Some(i),
            None => if completed.contains(n as u32) {
                None
            } else {
                Some(n)
            },
        },
    decreases n - from,
{
    if from < n {
        lemma_undone_grows(n, completed, from + 1);
    } else {
        assert(next_undone(n, completed, from) is None);
        assert(next_undone(n + 1, completed, n + 1) is None);
    }
}

/// Whether every chunk that the download has passed is, byte for byte, that of the object.
pub open spec fn faithful(download: ObjectDownload) -> bool {
    forall|k: int|
        0 <= k < download.next_index ==> match slice_of(
            download.object.ciphertext@,
            download.chunk_size as nat,
            k as nat,
        ) {
            Some(bytes) => #[trigger] download.chunks@[k] is Some && download.chunks@[k]->0@ == bytes,
            None => false,
        }
}

/// Whether the chunks are as many as the object needs.
pub open spec fn covers(download: ObjectDownload) -> bool {
    &&& download.total_chunks * download.chunk_size >= download.object.ciphertext@.len()
    &&& forall|k: nat|
        k < download.total_chunks ==> #[trigger] slice_of(
            download.object.ciphertext@,
            download.chunk_size as nat,
            k,
        ) is Some
}

/// Going to the next chunk keeps a download faithful.
pub proof fn law_download_step_keeps_faith(before: ObjectDownload, after: ObjectDownload)
    requires
        before.well_formed(),
        covers(before),
        faithful(before),
        before.next_index <= after.next_index <= before.total_chunks,
        filled_in(
            after.chunks@,
            before.chunks@,
            before.object.ciphertext@,
            before.chunk_size as nat,
            before.next_index as int,
            after.next_index as int,
        ),
        after.object == before.object,
        after.chunk_size == before.chunk_size,
        after.total_chunks == before.total_chunks,
    ensures
        covers(after),
        faithful(after),
{
    assert forall|k: int| 0 <= k < after.next_index implies match slice_of(
        after.object.ciphertext@,
        after.chunk_size as nat,
        k as nat,
    ) {
        Some(bytes) => #[trigger] after.chunks@[k] is Some && after.chunks@[k]->0@ == bytes,
        None => false,
    } by {
        assert(slice_of(before.object.ciphertext@, before.chunk_size as nat, k as nat) is Some);
        if k < before.next_index {
            assert(before.chunks@[k] is Some);
        }
    }
}

/// Taking in a chunk that is the object's keeps a download faithful.
pub proof fn law_received_chunk_keeps_faith(
    before: ObjectDownload,
    after: ObjectDownload,
    plaintext: Vec<u8>,
)
    requires
        before.well_formed(),
        before.awaits_chunk,
        covers(before),
        faithful(before),
        Some(plaintext@) == slice_of(
            before.object.ciphertext@,
            before.chunk_size as nat,
            before.next_index as nat,
        ),
        after.chunks@ == before.chunks@.update(before.next_index as int, Some(plaintext)),
        after.next_index == before.next_index + 1,
        after.object == before.object,
        after.chunk_size == before.chunk_size,
        after.total_chunks == before.total_chunks,
    ensures
        covers(after),
        faithful(after),
{
    assert forall|k: int| 0 <= k < after.next_index implies match slice_of(
        after.object.ciphertext@,
        after.chunk_size as nat,
        k as nat,
    ) {
        Some(bytes) => #[trigger] after.chunks@[k] is Some && after.chunks@[k]->0@ == bytes,
        None => false,
    } by {
        if k < before.next_index {
            assert(before.chunks@[k] is Some);
        }
    }
}

/// A faithful download that has passed every chunk holds the object.
pub proof fn law_faithful_download_holds_the_object(download: ObjectDownload)
    requires
        download.well_formed(),
        covers(download),
        faithful(download),
        download.next_index == download.total_chunks,
    ensures
        all_there(download.chunks@),
        joined(download.chunks@) == download.object.ciphertext@,
{
    assert forall|i: int| 0 <= i < download.chunks@.len() implies match slice_of(
        download.object.ciphertext@,
        download.chunk_size as nat,
        i as nat,
    ) {
        Some(bytes) => #[trigger] download.chunks@[i] is Some && download.chunks@[i]->0@ == bytes,
        None => false,
    } by {
        assert(slice_of(download.object.ciphertext@, download.chunk_size as nat, i as nat) is Some);
    }
    law_slices_make_the_whole(
        download.object.ciphertext@,
        download.chunk_size as nat,
        download.chunks@,
    );
}

/// A chunk that is done stays done, and none is done by itself.
pub proof fn law_progress_grows_by_one_chunk(
    before: Seq<u32>,
    after: Seq<u32>,
    index: u32,
    other: u32,
)
    requires
        is_sorted_with(after, before, index),
        other != index,
    ensures
        after.contains(index),
        after.contains(other) <==> before.contains(other),
        ascending(after),
{
}

} // verus!
