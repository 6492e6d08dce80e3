//! Transfers of objects to and from a relay, chunk by chunk, that can be paused and taken up again.
use crate::chunks::{
    all_there, bytes_of, capped, ciphertext_slice, copy_chunks, has_chunk, is_sorted_with,
    join_chunks, joined, law_nothing_missing_when_all_done, missing_chunks, missing_of,
    resumed_bytes, same_bytes, slice_of, with_chunk,
};
use crate::error::{denied, is_denied, is_local_bus, local_bus, SdkError};
use crate::object::{
    object_relay_chunk_id, object_transfer_id, relay_chunk_id, transfer_id, DeviceBranch,
    EncryptedObject, RelayTokenProvider, RelayTransferOptions, SdkObjectRelayPutResponse,
    SdkRelayChunkStatus, OBJECT_TRANSFER_DOWNLOAD, OBJECT_TRANSFER_UPLOAD,
};
use crate::records::{ObjectTransferRecord, ObjectTransferWrite};
use crate::text::str_eq;
use vstd::prelude::*;

verus! {

/// The chunk size of a transfer that has none on record.
pub const DEFAULT_CHUNK_SIZE: usize = 65536;

/// How the chunks travel.
#[derive(Clone, Copy, Debug, PartialEq, Eq, Structural)]
pub enum TransferRoute {
    /// Over QUIC, with tokens that the gateway issues.
    GatewayQuic,
    /// Over HTTP, with tokens that are minted here.
    LocalMint,
}

/// A time in seconds as the database holds it.
pub open spec fn stored_time(t: u64) -> i64 {
    if t > i64::MAX {
        i64::MAX
    } else {
        t as i64
    }
}

fn to_stored_time(t: u64) -> (r: i64)
    ensures
        r == stored_time(t),
{
    if t > i64::MAX as u64 {
        i64::MAX
    } else {
        t as i64
    }
}

/// When a token that is asked for at `now` runs out: 240 seconds later.
pub fn relay_expires_at(now: u64) -> (r: u64)
    ensures
        r == capped((now + 240) as nat),
{
    now.saturating_add(240)
}

/// What a transfer is about, apart from how far it has come.
pub struct TransferSubject<'a> {
    pub object_id: &'a str,
    pub manifest_hash: &'a str,
    pub total_bytes: usize,
    pub direction: &'a str,
    pub relay_endpoint: &'a str,
    pub chunk_size: usize,
    pub total_chunks: u32,
    pub expires_at: u64,
}

/// Whether `w` records that the given chunks of a transfer are done.
pub open spec fn records_progress(
    w: ObjectTransferWrite,
    peer: Seq<char>,
    object_id: Seq<char>,
    manifest_hash: Seq<char>,
    total_bytes: nat,
    direction: Seq<char>,
    relay_endpoint: Seq<char>,
    chunk_size: nat,
    total_chunks: u32,
    expires_at: u64,
    completed: Seq<u32>,
    done_bytes: u64,
    state: Seq<char>,
    now: i64,
) -> bool {
    &&& w.transfer_id@ == transfer_id(object_id, manifest_hash, direction)
    &&& w.object_id@ == object_id
    &&& w.direction@ == direction
    &&& w.peer_device_id@ == peer
    &&& w.manifest_hash@ == manifest_hash
    &&& w.relay_endpoint is Some && w.relay_endpoint->0@ == relay_endpoint
    &&& w.resume_token is None
    &&& w.missing_chunks@ == missing_of(total_chunks as nat, completed)
    &&& w.completed_chunks@ == completed
    &&& w.state@ == state
    &&& w.last_error is None
    &&& w.chunk_size == chunk_size
    &&& w.total_bytes == total_bytes
    &&& w.done_bytes == done_bytes
    &&& w.total_chunks == total_chunks
    &&& w.next_chunk_index == (if w.missing_chunks@.len() == 0 {
        None::<u32>
    } else {
        Some(w.missing_chunks@[0])
    })
    &&& w.updated_at == now
    &&& w.expires_at == Some(stored_time(expires_at))
}

/// The name under which this device is recorded as the peer of a transfer.
pub open spec fn peer_name(branch: Option<&DeviceBranch>) -> Seq<char> {
    match branch {
        Some(branch) => branch.device_id@,
        None => "local-device"@,
    }
}

/// The record of how far a transfer has come.
pub fn persist_object_transfer(
    branch: Option<&DeviceBranch>,
    subject: &TransferSubject<'_>,
    completed: &Vec<u32>,
    done_bytes: u64,
    state: &str,
    now: i64,
) -> (r: ObjectTransferWrite)
    ensures
        records_progress(
            r,
            peer_name(branch),
            subject.object_id@,
            subject.manifest_hash@,
            subject.total_bytes as nat,
            subject.direction@,
            subject.relay_endpoint@,
            subject.chunk_size as nat,
            subject.total_chunks,
            subject.expires_at,
            completed@,
            done_bytes,
            state@,
            now,
        ),
{
    let missing = missing_chunks(subject.total_chunks, completed);
    let next_chunk_index: Option<u32> = if missing.len() == 0 {
        None
    } else {
        Some(missing[0])
    };
    let peer_device_id = match branch {
        Some(branch) => branch.device_id.clone(),
        None => "local-device".to_owned(),
    };
    ObjectTransferWrite {
        transfer_id: object_transfer_id(subject.object_id, subject.manifest_hash, subject.direction),
        object_id: subject.object_id.to_owned(),
        direction: subject.direction.to_owned(),
        peer_device_id,
        manifest_hash: subject.manifest_hash.to_owned(),
        relay_endpoint: Some(subject.relay_endpoint.to_owned()),
        resume_token: None,
        missing_chunks: missing,
        completed_chunks: copy_chunks(completed),
        state: state.to_owned(),
        last_error: None,
        chunk_size: subject.chunk_size as u64,
        total_bytes: subject.total_bytes as u64,
        done_bytes,
        total_chunks: subject.total_chunks,
        next_chunk_index,
        updated_at: now,
        expires_at: Some(to_stored_time(subject.expires_at)),
    }
}

/// Whether a run that has moved `transferred` chunks stops here.
pub open spec fn interrupted(limit: Option<u32>, transferred: u32) -> bool {
    limit matches Some(limit) && transferred >= limit
}

fn is_interrupted(limit: Option<u32>, transferred: u32) -> (r: bool)
    ensures
        r == interrupted(limit, transferred),
{
    match limit {
        Some(limit) => transferred >= limit,
        None => false,
    }
}

fn no_less_than_one(n: usize) -> (r: usize)
    ensures
        r == (if n == 0 {
            1
        } else {
            n as int
        }),
{
    if n == 0 {
        1
    } else {
        n
    }
}

/// The chunks that a stored transfer has done; none if nothing is stored.
pub open spec fn done_chunks(record: Option<ObjectTransferRecord>) -> Seq<u32> {
    match record {
        Some(record) => record.completed_chunks@,
        None => Seq::empty(),
    }
}

fn take_done_chunks(record: Option<ObjectTransferRecord>) -> (r: Vec<u32>)
    ensures
        r@ == done_chunks(record),
{
    match record {
        Some(record) => record.completed_chunks,
        None => Vec::new(),
    }
}

// ---- upload ----

/// An object on its way to a relay.
pub struct ObjectUpload {
    pub branch: DeviceBranch,
    pub object: EncryptedObject,
    pub chunk_size: usize,
    pub total_chunks: u32,
    pub relay_endpoint: String,
    pub interrupt_after_chunks: Option<u32>,
    pub route: TransferRoute,
    pub mints_locally: bool,
    pub completed: Vec<u32>,
    pub done_bytes: u64,
    pub transferred: u32,
    pub next_index: u32,
    pub awaits_response: bool,
    pub expires_at: u64,
}

/// What an upload does next.
pub enum UploadStep {
    /// Store this chunk on the relay.
    Put { chunk_index: u32, bytes: Vec<u8> },
    /// Record how far the upload has come, and stop with the error.
    Paused { write: ObjectTransferWrite, error: SdkError },
    /// Stop with the error.
    Refused { error: SdkError },
    /// Record that the upload is complete.
    Complete { write: ObjectTransferWrite },
}

/// The first chunk from `from` on that an upload stops at: the first that is not done, if the run
/// is interrupted; else the first that is not done and that the object reaches.
pub open spec fn next_upload(
    ciphertext: Seq<u8>,
    chunk_size: nat,
    total: nat,
    completed: Seq<u32>,
    from: nat,
    interrupted: bool,
) -> Option<nat>
    decreases total - from,
{
    if from >= total {
        None
    } else if completed.contains(from as u32) {
        next_upload(ciphertext, chunk_size, total, completed, from + 1, interrupted)
    } else if interrupted {
        Some(from)
    } else if slice_of(ciphertext, chunk_size, from) is None {
        next_upload(ciphertext, chunk_size, total, completed, from + 1, interrupted)
    } else {
        Some(from)
    }
}

impl ObjectUpload {
    /// Whether a chunk that waits for an answer is one that the upload stopped at.
    pub open spec fn well_formed(self) -> bool {
        &&& self.next_index <= self.total_chunks
        &&& self.awaits_response ==> self.next_index < self.total_chunks
        &&& self.chunk_size > 0
    }

    /// Where the upload stands.
    pub open spec fn pending(self) -> Option<nat> {
        next_upload(
            self.object.ciphertext@,
            self.chunk_size as nat,
            self.total_chunks as nat,
            self.completed@,
            self.next_index as nat,
            interrupted(self.interrupt_after_chunks, self.transferred),
        )
    }

    /// Whether `w` records the progress of this upload.
    pub open spec fn recorded_in(
        self,
        w: ObjectTransferWrite,
        completed: Seq<u32>,
        done_bytes: u64,
        state: Seq<char>,
        now: i64,
    ) -> bool {
        records_progress(
            w,
            self.branch.device_id@,
            self.object.object_id@,
            self.object.manifest_hash@,
            self.object.ciphertext@.len(),
            "upload"@,
            self.relay_endpoint@,
            self.chunk_size as nat,
            self.total_chunks,
            self.expires_at,
            completed,
            done_bytes,
            state,
            now,
        )
    }

    fn subject(&self) -> (r: TransferSubject<'_>)
        ensures
            r.object_id@ == self.object.object_id@,
            r.manifest_hash@ == self.object.manifest_hash@,
            r.total_bytes == self.object.ciphertext@.len(),
            r.direction@ == "upload"@,
            r.relay_endpoint@ == self.relay_endpoint@,
            r.chunk_size == self.chunk_size,
            r.total_chunks == self.total_chunks,
            r.expires_at == self.expires_at,
    {
        TransferSubject {
            object_id: self.object.object_id.as_str(),
            manifest_hash: self.object.manifest_hash.as_str(),
            total_bytes: self.object.ciphertext.len(),
            direction: OBJECT_TRANSFER_UPLOAD,
            relay_endpoint: self.relay_endpoint.as_str(),
            chunk_size: self.chunk_size,
            total_chunks: self.total_chunks,
            expires_at: self.expires_at,
        }
    }

    /// Starts an upload, or takes it up where the stored transfer left it. `total_chunks` is the
    /// number of chunks that the object's manifest names for the chunk size (at least one byte).
    pub fn start(
        branch: Option<&DeviceBranch>,
        object: EncryptedObject,
        chunk_size: usize,
        total_chunks: u32,
        options: &RelayTransferOptions,
        route: TransferRoute,
        record: Option<ObjectTransferRecord>,
        now: u64,
    ) -> (r: Result<ObjectUpload, SdkError>)
        ensures
            match branch {
                None => is_local_bus(r, "object relay requires a device branch"@),
                Some(branch) => r matches Ok(upload) && {
                    &&& upload.well_formed()
                    &&& upload.branch == branch
                    &&& upload.object == object
                    &&& upload.chunk_size == (if chunk_size == 0 {
                        1
                    } else {
                        chunk_size as int
                    })
                    &&& upload.total_chunks == total_chunks
                    &&& upload.relay_endpoint == options.relay_endpoint
                    &&& upload.interrupt_after_chunks == options.interrupt_after_chunks
                    &&& upload.route == route
                    &&& upload.mints_locally == (options.token_provider is LocalMint)
                    &&& upload.completed@ == done_chunks(record)
                    &&& upload.done_bytes == capped(
                        bytes_of(object.ciphertext@, upload.chunk_size as nat, done_chunks(record)),
                    )
                    &&& upload.transferred == 0
                    &&& upload.next_index == 0
                    &&& !upload.awaits_response
                    &&& upload.expires_at == capped((now + 240) as nat)
                },
            },
    {
        let branch = match branch {
            Some(branch) => branch.copy(),
            None => {
                return Err(local_bus("object relay requires a device branch"));
            },
        };
        let chunk_size = no_less_than_one(chunk_size);
        let completed = take_done_chunks(record);
        let done_bytes: u64 = resumed_bytes(&object.ciphertext, chunk_size, &completed);
        let mints_locally = match &options.token_provider {
            RelayTokenProvider::LocalMint { relay_service_key } => true,
            RelayTokenProvider::GatewayIssued => false,
        };
        Ok(
            ObjectUpload {
                branch,
                object,
                chunk_size,
                total_chunks,
                relay_endpoint: options.relay_endpoint.clone(),
                interrupt_after_chunks: options.interrupt_after_chunks,
                route,
                mints_locally,
                completed,
                done_bytes,
                transferred: 0,
                next_index: 0,
                awaits_response: false,
                expires_at: relay_expires_at(now),
            },
        )
    }

    /// Goes to the next chunk that has to be stored.
    pub fn step(&mut self, now: i64) -> (r: UploadStep)
        requires
            old(self).well_formed(),
            !old(self).awaits_response,
        ensures
            final(self).well_formed(),
            match old(self).pending() {
                None => {
                    &&& r matches UploadStep::Complete { write } && old(self).recorded_in(
                        write,
                        old(self).completed@,
                        old(self).object.ciphertext@.len() as u64,
                        "complete"@,
                        now,
                    )
                    &&& *final(self) == (ObjectUpload {
                        next_index: old(self).total_chunks,
                        ..*old(self)
                    })
                },
                Some(i) => {
                    &&& i < old(self).total_chunks
                    &&& if interrupted(
                        old(self).interrupt_after_chunks,
                        old(self).transferred,
                    ) {
                        &&& r matches UploadStep::Paused { write, error } && old(self).recorded_in(
                            write,
                            old(self).completed@,
                            old(self).done_bytes,
                            "paused"@,
                            now,
                        ) && is_local_bus(
                            Err::<(), SdkError>(error),
                            "object relay upload interrupted"@,
                        )
                        &&& *final(self) == (ObjectUpload { next_index: i as u32, ..*old(self) })
                    } else if old(self).route is GatewayQuic && old(self).mints_locally {
                        &&& r matches UploadStep::Refused { error } && is_denied(
                            Err::<(), SdkError>(error),
                            "gateway object PUT requires gateway-issued v3 QUIC transport"@,
                        )
                        &&& *final(self) == (ObjectUpload { next_index: i as u32, ..*old(self) })
                    } else if old(self).route is LocalMint && !old(self).mints_locally {
                        &&& r matches UploadStep::Refused { error } && is_local_bus(
                            Err::<(), SdkError>(error),
                            "object relay requires gateway-issued token; local mint is disabled"@,
                        )
                        &&& *final(self) == (ObjectUpload { next_index: i as u32, ..*old(self) })
                    } else {
                        &&& r matches UploadStep::Put { chunk_index, bytes } && chunk_index == i
                            && Some(bytes@) == slice_of(
                            old(self).object.ciphertext@,
                            old(self).chunk_size as nat,
                            i,
                        )
                        &&& *final(self) == (ObjectUpload {
                            next_index: i as u32,
                            awaits_response: true,
                            ..*old(self)
                        })
                    }
                },
            },
    {
        let stops = is_interrupted(self.interrupt_after_chunks, self.transferred);
        let mut i: u32 = self.next_index;
        while i < self.total_chunks
            invariant
                *self == *old(self),
                self.well_formed(),
                self.next_index <= i <= self.total_chunks,
                stops == interrupted(self.interrupt_after_chunks, self.transferred),
                old(self).pending() == next_upload(
                    self.object.ciphertext@,
                    self.chunk_size as nat,
                    self.total_chunks as nat,
                    self.completed@,
                    i as nat,
                    stops,
                ),
                !self.awaits_response,
            decreases self.total_chunks - i,
        {
            if !has_chunk(&self.completed, i) {
                if stops {
                    self.next_index = i;
                    let write = persist_object_transfer(
                        Some(&self.branch),
                        &self.subject(),
                        &self.completed,
                        self.done_bytes,
                        "paused",
                        now,
                    );
                    return UploadStep::Paused {
                        write,
                        error: local_bus("object relay upload interrupted"),
                    };
                }
                match ciphertext_slice(self.object.ciphertext.as_slice(), self.chunk_size, i) {
                    None => {},
                    Some(bytes) => {
                        let bytes = vstd::slice::slice_to_vec(bytes);
                        self.next_index = i;
                        match self.route {
                            TransferRoute::GatewayQuic => {
                                if self.mints_locally {
                                    return UploadStep::Refused {
                                        error: denied(
                                            "gateway object PUT requires gateway-issued v3 QUIC transport",
                                        ),
                                    };
                                }
                            },
                            TransferRoute::LocalMint => {
                                if !self.mints_locally {
                                    return UploadStep::Refused {
                                        error: local_bus(
                                            "object relay requires gateway-issued token; local mint is disabled",
                                        ),
                                    };
                                }
                            },
                        }
                        self.awaits_response = true;
                        return UploadStep::Put { chunk_index: i, bytes };
                    },
                }
            }
            i = i + 1;
        }
        self.next_index = self.total_chunks;
        let write = persist_object_transfer(
            Some(&self.branch),
            &self.subject(),
            &self.completed,
            self.object.ciphertext.len() as u64,
            "complete",
            now,
        );
        UploadStep::Complete { write }
    }

    /// Whether the relay's answer is about the chunk that was sent, and says that it is there.
    pub open spec fn confirmed_by(self, response: SdkObjectRelayPutResponse) -> bool {
        &&& response.chunk_id@ == relay_chunk_id(
            self.object.object_id@,
            self.object.manifest_hash@,
            self.next_index as nat,
        )
        &&& response.object_id@ == self.object.object_id@
        &&& response.manifest_hash@ == self.object.manifest_hash@
        &&& response.status is Available
    }

    /// Takes the relay's answer: on a confirmation the chunk is done, and the progress is to be
    /// recorded; on any other answer nothing changes.
    pub fn put_answered(&mut self, response: &SdkObjectRelayPutResponse, now: i64) -> (r: Result<
        ObjectTransferWrite,
        SdkError,
    >)
        requires
            old(self).well_formed(),
            old(self).awaits_response,
        ensures
            final(self).well_formed(),
            if old(self).confirmed_by(*response) {
                &&& r is Ok
                &&& is_sorted_with(
                    final(self).completed@,
                    old(self).completed@,
                    old(self).next_index,
                )
                &&& final(self).done_bytes == capped(
                    (old(self).done_bytes + match slice_of(
                        old(self).object.ciphertext@,
                        old(self).chunk_size as nat,
                        old(self).next_index as nat,
                    ) {
                        Some(bytes) => bytes.len(),
                        None => 0,
                    }) as nat,
                )
                &&& *final(self) == (ObjectUpload {
                    completed: final(self).completed,
                    done_bytes: final(self).done_bytes,
                    transferred: if old(self).transferred == u32::MAX {
                        u32::MAX
                    } else {
                        (old(self).transferred + 1) as u32
                    },
                    next_index: (old(self).next_index + 1) as u32,
                    awaits_response: false,
                    ..*old(self)
                })
                &&& old(self).recorded_in(
                    r->Ok_0,
                    final(self).completed@,
                    final(self).done_bytes,
                    "running"@,
                    now,
                )
            } else {
                is_local_bus(r, "object relay put response binding mismatch"@) && *final(self)
                    == *old(self)
            },
    {
        let expected_chunk_id = object_relay_chunk_id(
            self.object.object_id.as_str(),
            self.object.manifest_hash.as_str(),
            self.next_index,
        );
        if response.chunk_id != expected_chunk_id || response.object_id != self.object.object_id
            || response.manifest_hash != self.object.manifest_hash || response.status
            != SdkRelayChunkStatus::Available {
            return Err(local_bus("object relay put response binding mismatch"));
        }
        let completed = with_chunk(&self.completed, self.next_index);
        self.completed = completed;
        match ciphertext_slice(self.object.ciphertext.as_slice(), self.chunk_size, self.next_index) {
            Some(bytes) => {
                self.done_bytes = self.done_bytes.saturating_add(bytes.len() as u64);
            },
            None => {},
        }
        self.transferred = self.transferred.saturating_add(1);
        self.next_index = self.next_index + 1;
        self.awaits_response = false;
        Ok(
            persist_object_transfer(
                Some(&self.branch),
                &self.subject(),
                &self.completed,
                self.done_bytes,
                "running",
                now,
            ),
        )
    }
}

// ---- download ----

/// An object on its way from a relay.
pub struct ObjectDownload {
    pub branch: DeviceBranch,
    pub object: EncryptedObject,
    pub chunk_size: usize,
    pub total_chunks: u32,
    pub relay_endpoint: String,
    pub interrupt_after_chunks: Option<u32>,
    pub route: TransferRoute,
    pub mints_locally: bool,
    pub acknowledges: bool,
    pub completed: Vec<u32>,
    pub chunks: Vec<Option<Vec<u8>>>,
    pub done_bytes: u64,
    pub transferred: u32,
    pub next_index: u32,
    pub awaits_chunk: bool,
    pub expires_at: u64,
}

/// What a download does next.
pub enum DownloadStep {
    /// Get this chunk from the relay.
    Get { chunk_index: u32 },
    /// Record how far the download has come, and stop with the error.
    Paused { write: ObjectTransferWrite, error: SdkError },
    /// Stop with the error.
    Refused { error: SdkError },
    /// No chunk is left to get.
    Assemble,
}

/// The first chunk from `from` on that is not done.
pub open spec fn next_undone(total: nat, completed: Seq<u32>, from: nat) -> Option<nat>
    decreases total - from,
{
    if from >= total {
        None
    } else if completed.contains(from as u32) {
        next_undone(total, completed, from + 1)
    } else {
        Some(from)
    }
}

/// The chunks after the done ones from `from` up to `to` have been filled in from the object.
pub open spec fn filled_in(
    chunks: Seq<Option<Vec<u8>>>,
    before: Seq<Option<Vec<u8>>>,
    ciphertext: Seq<u8>,
    chunk_size: nat,
    from: int,
    to: int,
) -> bool {
    &&& chunks.len() == before.len()
    &&& forall|k: int|
        0 <= k < chunks.len() ==> if from <= k < to {
            match slice_of(ciphertext, chunk_size, k as nat) {
                Some(bytes) => #[trigger] chunks[k] is Some && chunks[k]->0@ == bytes,
                None => chunks[k] == before[k],
            }
        } else {
            chunks[k] == before[k]
        }
}

/// Whether two hashes of a chunk agree.
pub fn check_chunk_hash(claimed: &str, expected: &str) -> (r: Result<(), SdkError>)
    ensures
        if claimed@ == expected@ {
            r is Ok
        } else {
            is_local_bus(r, "object relay chunk hash mismatch"@)
        },
{
    if str_eq(claimed, expected) {
        Ok(())
    } else {
        Err(local_bus("object relay chunk hash mismatch"))
    }
}

/// The chunk size of a stored upload that fits this machine, else the default; at least one byte.
pub open spec fn stored_chunk_size(record: Option<ObjectTransferRecord>) -> usize {
    match record {
        Some(record) => if record.chunk_size > usize::MAX {
            DEFAULT_CHUNK_SIZE
        } else if record.chunk_size == 0 {
            1
        } else {
            record.chunk_size as usize
        },
        None => DEFAULT_CHUNK_SIZE,
    }
}

/// The chunk size of a stored upload that fits this machine, else the default; at least one byte.
pub fn download_chunk_size(record: &Option<ObjectTransferRecord>) -> (r: usize)
    ensures
        r == stored_chunk_size(*record),
        r > 0,
{
    match record {
        Some(record) => {
            if record.chunk_size > usize::MAX as u64 {
                DEFAULT_CHUNK_SIZE
            } else {
                no_less_than_one(record.chunk_size as usize)
            }
        },
        None => DEFAULT_CHUNK_SIZE,
    }
}

impl ObjectDownload {
    /// Whether there is a place for each chunk, one that is waited for is among them, and each that
    /// is held is done.
    pub open spec fn well_formed(self) -> bool {
        &&& self.next_index <= self.total_chunks
        &&& self.awaits_chunk ==> self.next_index < self.total_chunks
        &&& self.chunks@.len() == self.total_chunks
        &&& self.chunk_size > 0
        &&& forall|k: int|
            0 <= k < self.chunks@.len() && #[trigger] self.chunks@[k] is Some
                ==> self.completed@.contains(k as u32)
    }

    /// Whether `w` records the progress of this download.
    pub open spec fn recorded_in(
        self,
        w: ObjectTransferWrite,
        completed: Seq<u32>,
        done_bytes: u64,
        state: Seq<char>,
        now: i64,
    ) -> bool {
        records_progress(
            w,
            self.branch.device_id@,
            self.object.object_id@,
            self.object.manifest_hash@,
            self.object.ciphertext@.len(),
            "download"@,
            self.relay_endpoint@,
            self.chunk_size as nat,
            self.total_chunks,
            self.expires_at,
            completed,
            done_bytes,
            state,
            now,
        )
    }

    fn subject(&self) -> (r: TransferSubject<'_>)
        ensures
            r.object_id@ == self.object.object_id@,
            r.manifest_hash@ == self.object.manifest_hash@,
            r.total_bytes == self.object.ciphertext@.len(),
            r.direction@ == "download"@,
            r.relay_endpoint@ == self.relay_endpoint@,
            r.chunk_size == self.chunk_size,
            r.total_chunks == self.total_chunks,
            r.expires_at == self.expires_at,
    {
        TransferSubject {
            object_id: self.object.object_id.as_str(),
            manifest_hash: self.object.manifest_hash.as_str(),
            total_bytes: self.object.ciphertext.len(),
            direction: OBJECT_TRANSFER_DOWNLOAD,
            relay_endpoint: self.relay_endpoint.as_str(),
            chunk_size: self.chunk_size,
            total_chunks: self.total_chunks,
            expires_at: self.expires_at,
        }
    }

    /// Starts a download, or takes it up where the stored transfer left it.
    pub fn start(
        branch: Option<&DeviceBranch>,
        object: EncryptedObject,
        chunk_size: usize,
        total_chunks: u32,
        options: &RelayTransferOptions,
        route: TransferRoute,
        acknowledges: bool,
        record: Option<ObjectTransferRecord>,
        now: u64,
    ) -> (r: Result<ObjectDownload, SdkError>)
        ensures
            match branch {
                None => is_local_bus(r, "object relay requires a device branch"@),
                Some(branch) => r matches Ok(download) && {
                    &&& download.well_formed()
                    &&& download.branch == branch
                    &&& download.object == object
                    &&& download.chunk_size == (if chunk_size == 0 {
                        1
                    } else {
                        chunk_size as int
                    })
                    &&& download.total_chunks == total_chunks
                    &&& download.relay_endpoint == options.relay_endpoint
                    &&& download.interrupt_after_chunks == options.interrupt_after_chunks
                    &&& download.route == route
                    &&& download.mints_locally == (options.token_provider is LocalMint)
                    &&& download.acknowledges == acknowledges
                    &&& download.completed@ == done_chunks(record)
                    &&& forall|i: int|
                        0 <= i < total_chunks ==> #[trigger] download.chunks@[i] is None
                    &&& download.done_bytes == capped(
                        bytes_of(
                            object.ciphertext@,
                            download.chunk_size as nat,
                            done_chunks(record),
                        ),
                    )
                    &&& download.transferred == 0
                    &&& download.next_index == 0
                    &&& !download.awaits_chunk
                    &&& download.expires_at == capped((now + 240) as nat)
                },
            },
    {
        let branch = match branch {
            Some(branch) => branch.copy(),
            None => {
                return Err(local_bus("object relay requires a device branch"));
            },
        };
        let chunk_size = no_less_than_one(chunk_size);
        let completed = take_done_chunks(record);
        let done_bytes: u64 = resumed_bytes(&object.ciphertext, chunk_size, &completed);
        let mints_locally = match &options.token_provider {
            RelayTokenProvider::LocalMint { relay_service_key } => true,
            RelayTokenProvider::GatewayIssued => false,
        };
        let mut chunks: Vec<Option<Vec<u8>>> = Vec::new();
        let mut i: u32 = 0;
        while i < total_chunks
            invariant
                i <= total_chunks,
                chunks@.len() == i,
                forall|k: int| 0 <= k < i ==> #[trigger] chunks@[k] is None,
            decreases total_chunks - i,
        {
            chunks.push(None);
            i = i + 1;
        }
        Ok(
            ObjectDownload {
                branch,
                object,
                chunk_size,
                total_chunks,
                relay_endpoint: options.relay_endpoint.clone(),
                interrupt_after_chunks: options.interrupt_after_chunks,
                route,
                mints_locally,
                acknowledges,
                completed,
                chunks,
                done_bytes,
                transferred: 0,
                next_index: 0,
                awaits_chunk: false,
                expires_at: relay_expires_at(now),
            },
        )
    }

    /// Goes to the next chunk that has to be fetched. The chunks that are done already are filled
    /// in from the object.
    pub fn step(&mut self, now: i64) -> (r: DownloadStep)
        requires
            old(self).well_formed(),
            !old(self).awaits_chunk,
        ensures
            final(self).well_formed(),
            ({
                let pending = next_undone(
                    old(self).total_chunks as nat,
                    old(self).completed@,
                    old(self).next_index as nat,
                );
                let stop = match pending {
                    Some(i) => i as u32,
                    None => old(self).total_chunks,
                };
                let stops = interrupted(old(self).interrupt_after_chunks, old(self).transferred);
                let gets = pending is Some && !stops && ((old(self).route is GatewayQuic) == !old(
                    self,
                ).mints_locally);
                &&& old(self).next_index <= stop <= old(self).total_chunks
                &&& filled_in(
                    final(self).chunks@,
                    old(self).chunks@,
                    old(self).object.ciphertext@,
                    old(self).chunk_size as nat,
                    old(self).next_index as int,
                    stop as int,
                )
                &&& *final(self) == (ObjectDownload {
                    chunks: final(self).chunks,
                    next_index: stop,
                    awaits_chunk: gets,
                    ..*old(self)
                })
                &&& if pending is None {
                    r is Assemble
                } else if stops {
                    r matches DownloadStep::Paused { write, error } && old(self).recorded_in(
                        write,
                        old(self).completed@,
                        old(self).done_bytes,
                        "paused"@,
                        now,
                    ) && is_local_bus(
                        Err::<(), SdkError>(error),
                        "object relay download interrupted"@,
                    )
                } else if gets {
                    r matches DownloadStep::Get { chunk_index } && chunk_index == stop
                } else if old(self).route is GatewayQuic {
                    r matches DownloadStep::Refused { error } && is_denied(
                        Err::<(), SdkError>(error),
                        "gateway object GET requires gateway-issued v3 QUIC transport"@,
                    )
                } else {
                    r matches DownloadStep::Refused { error } && is_local_bus(
                        Err::<(), SdkError>(error),
                        "object relay requires gateway-issued token; local mint is disabled"@,
                    )
                }
            }),
    {
        let first: u32 = self.next_index;
        let ghost before = self.chunks@;
        while self.next_index < self.total_chunks && has_chunk(&self.completed, self.next_index)
            invariant
                first == old(self).next_index,
                before == old(self).chunks@,
                first <= self.next_index <= self.total_chunks,
                *self == (ObjectDownload {
                    chunks: self.chunks,
                    next_index: self.next_index,
                    ..*old(self)
                }),
                self.well_formed(),
                !self.awaits_chunk,
                filled_in(
                    self.chunks@,
                    before,
                    self.object.ciphertext@,
                    self.chunk_size as nat,
                    first as int,
                    self.next_index as int,
                ),
                next_undone(self.total_chunks as nat, self.completed@, first as nat)
                    == next_undone(
                    self.total_chunks as nat,
                    self.completed@,
                    self.next_index as nat,
                ),
            decreases self.total_chunks - self.next_index,
        {
            match ciphertext_slice(
                self.object.ciphertext.as_slice(),
                self.chunk_size,
                self.next_index,
            ) {
                Some(bytes) => {
                    let bytes = vstd::slice::slice_to_vec(bytes);
                    let at: usize = self.next_index as usize;
                    self.chunks.set(at, Some(bytes));
                },
                None => {},
            }
            self.next_index = self.next_index + 1;
        }
        if self.next_index == self.total_chunks {
            return DownloadStep::Assemble;
        }
        if is_interrupted(self.interrupt_after_chunks, self.transferred) {
            let write = persist_object_transfer(
                Some(&self.branch),
                &self.subject(),
                &self.completed,
                self.done_bytes,
                "paused",
                now,
            );
            return DownloadStep::Paused {
                write,
                error: local_bus("object relay download interrupted"),
            };
        }
        match self.route {
            TransferRoute::GatewayQuic => {
                if self.mints_locally {
                    return DownloadStep::Refused {
                        error: denied("gateway object GET requires gateway-issued v3 QUIC transport"),
                    };
                }
            },
            TransferRoute::LocalMint => {
                if !self.mints_locally {
                    return DownloadStep::Refused {
                        error: local_bus(
                            "object relay requires gateway-issued token; local mint is disabled",
                        ),
                    };
                }
            },
        }
        self.awaits_chunk = true;
        DownloadStep::Get { chunk_index: self.next_index }
    }

    /// Takes the relay's answer with the chunk that was waited for: the hash that came with it, the
    /// hash of what came, and what decrypting it came to. Only if the two hashes agree and the chunk
    /// could be decrypted is it done, and the progress is to be recorded; the chunk is then to be
    /// acknowledged if the download acknowledges. Otherwise nothing changes.
    pub fn chunk_received(
        &mut self,
        claimed: &str,
        recomputed: &str,
        plaintext: Result<Vec<u8>, SdkError>,
        now: i64,
    ) -> (r: Result<(ObjectTransferWrite, Option<u32>), SdkError>)
        requires
            old(self).well_formed(),
            old(self).awaits_chunk,
        ensures
            final(self).well_formed(),
            if claimed@ != recomputed@ {
                is_local_bus(r, "object relay chunk hash mismatch"@) && *final(self) == *old(self)
            } else {
                match plaintext {
                    Err(error) => r == Err::<(ObjectTransferWrite, Option<u32>), SdkError>(error)
                        && *final(self) == *old(self),
                    Ok(bytes) => r matches Ok((write, acknowledged)) && {
                        &&& is_sorted_with(
                            final(self).completed@,
                            old(self).completed@,
                            old(self).next_index,
                        )
                        &&& final(self).chunks@ == old(self).chunks@.update(
                            old(self).next_index as int,
                            Some(bytes),
                        )
                        &&& *final(self) == (ObjectDownload {
                            completed: final(self).completed,
                            chunks: final(self).chunks,
                            done_bytes: capped((old(self).done_bytes + bytes@.len()) as nat),
                            transferred: if old(self).transferred == u32::MAX {
                                u32::MAX
                            } else {
                                (old(self).transferred + 1) as u32
                            },
                            next_index: (old(self).next_index + 1) as u32,
                            awaits_chunk: false,
                            ..*old(self)
                        })
                        &&& old(self).recorded_in(
                            write,
                            final(self).completed@,
                            final(self).done_bytes,
                            "running"@,
                            now,
                        )
                        &&& acknowledged == (if old(self).acknowledges {
                            Some(old(self).next_index)
                        } else {
                            None
                        })
                    },
                }
            },
    {
        match check_chunk_hash(claimed, recomputed) {
            Ok(_) => {},
            Err(error) => {
                return Err(error);
            },
        }
        let bytes = match plaintext {
            Ok(bytes) => bytes,
            Err(error) => {
                return Err(error);
            },
        };
        let index: u32 = self.next_index;
        self.done_bytes = self.done_bytes.saturating_add(bytes.len() as u64);
        self.chunks.set(index as usize, Some(bytes));
        let completed = with_chunk(&self.completed, index);
        self.completed = completed;
        self.transferred = self.transferred.saturating_add(1);
        self.next_index = index + 1;
        self.awaits_chunk = false;
        let write = persist_object_transfer(
            Some(&self.branch),
            &self.subject(),
            &self.completed,
            self.done_bytes,
            "running",
            now,
        );
        let ack: Option<u32> = if self.acknowledges {
            Some(index)
        } else {
            None
        };
        Ok((write, ack))
    }

    /// Puts the chunks together. The download is complete only if they make the object.
    pub fn assemble(&self, now: i64) -> (r: Result<ObjectTransferWrite, SdkError>)
        requires
            self.well_formed(),
        ensures
            r is Ok ==> r->Ok_0.missing_chunks@.len() == 0,
            if !all_there(self.chunks@) {
                is_local_bus(r, "object relay download incomplete"@)
            } else if joined(self.chunks@) != self.object.ciphertext@ {
                is_local_bus(r, "object relay assembled ciphertext mismatch"@)
            } else {
                r is Ok && self.recorded_in(
                    r->Ok_0,
                    self.completed@,
                    self.object.ciphertext@.len() as u64,
                    "complete"@,
                    now,
                )
            },
    {
        let assembled = match join_chunks(&self.chunks) {
            Some(assembled) => assembled,
            None => {
                return Err(local_bus("object relay download incomplete"));
            },
        };
        if !same_bytes(&assembled, &self.object.ciphertext) {
            return Err(local_bus("object relay assembled ciphertext mismatch"));
        }
        proof {
            assert forall|k: u32| k < self.total_chunks implies #[trigger] self.completed@.contains(
                k,
            ) by {
                assert(self.chunks@[k as int] is Some);
            }
            law_nothing_missing_when_all_done(self.total_chunks, self.completed@);
        }
        Ok(
            persist_object_transfer(
                Some(&self.branch),
                &self.subject(),
                &self.completed,
                self.object.ciphertext.len() as u64,
                "complete",
                now,
            ),
        )
    }
}

} // verus!
