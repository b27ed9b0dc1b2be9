//! One pass over the watched roots, as a machine of phases.
//!
//! The pass waits on the filesystem walk, the store, the file reader, the
//! fingerprinter and the peer, none of which is part of this crate. Whoever
//! drives the pass does that work and reports each outcome as an [`Event`];
//! [`step`] answers with the phase that the pass is in next and the
//! [`Action`] to take.

use crate::model::{next_version, version_after, Change, FileId, Partial, Version};
use vstd::prelude::*;

verus! {

/// Size of the chunks that a changed file is read in: 4 MiB. The transport
/// to the peer does not take messages of twice that size.
pub const CHUNK_SIZE: usize = 4194304;

/// The part of a file's descriptor that the peer can check but not alter.
#[derive(Clone, Debug, PartialEq, Eq)]
pub struct VerifiedDescriptor {
    pub file_id: FileId,
    pub version: Version,
    /// Position of this descriptor among those of the file.
    pub index: u64,
    /// Number of descriptors of the file.
    pub total: u64,
    /// References to the file's chunks.
    pub chunks: Vec<Vec<u8>>,
}

/// The part of a file's descriptor that only the owner can read.
#[derive(Clone, Debug, PartialEq, Eq)]
pub struct ProtectedDescriptor {
    pub filename: String,
    pub size: u64,
}

/// The descriptor of a file that goes out in one piece: it is the first of
/// one, and lists no chunks.
pub fn unsplit_descriptor(file_id: FileId, version: Version, filename: String, size: u64) -> (pair: (
    VerifiedDescriptor,
    ProtectedDescriptor,
))
    ensures
        pair.0.file_id == file_id,
        pair.0.version == version,
        pair.0.index == 0,
        pair.0.total == 1,
        pair.0.chunks@.len() == 0,
        pair.1.filename == filename,
        pair.1.size == size,
{
    (
        VerifiedDescriptor {
            file_id,
            version,
            index: 0,
            total: 1,
            chunks: Vec::new(),
        },
        ProtectedDescriptor { filename, size },
    )
}

/// Why a pass was given up.
#[derive(Clone, Copy, Debug, PartialEq, Eq)]
pub enum Failure {
    /// The store could not check or record a file.
    Store,
    /// The descriptor of a file could not be encrypted.
    Descriptor,
    /// A file could not be read to its end.
    Read,
    /// The store could not be shut down.
    Shutdown,
}

/// Where a pass stands.
#[derive(Clone, Copy, Debug, PartialEq, Eq)]
pub enum Phase {
    /// Nothing has begun.
    Idle,
    /// Waiting for the walk to report a file, an error or its end.
    Walking,
    /// Waiting for the store's verdict on the file at hand.
    Checking,
    /// Waiting for the file's descriptor to be encrypted.
    Describing,
    /// Waiting for the reader to hand out a chunk or to finish.
    Chunking,
    /// Waiting for the fingerprint of the chunk at hand.
    Hashing,
    /// Waiting for the peer to take the chunk at hand.
    Sending,
    /// Waiting for the store to record the file that was read to its end.
    Committing,
    /// Waiting for the store to shut down; `Some` where the pass was given
    /// up.
    Draining(Option<Failure>),
    /// The pass is over and the store is shut down.
    ShutDown,
    /// The pass was given up.
    Aborted(Failure),
}

/// What happened while the pass was waiting.
#[derive(Debug)]
pub enum Event {
    /// The pass is asked to begin.
    Start,
    /// The walk reports a file.
    WalkFile,
    /// The walk reports a path that it could not look at.
    WalkError,
    /// The walk is over; `false` where it ended in an error.
    WalkFinished(bool),
    /// The store has compared the file with its latest recorded state. With
    /// the verdict come the file's identifier, and the name and size that
    /// its descriptor is to carry.
    Verdict { change: Change, file_id: FileId, filename: String, size: u64 },
    /// The store has recorded the file.
    Recorded,
    /// The store could not carry out what it was asked.
    StoreFailed,
    /// The descriptor was encrypted, or, with `false`, could not be.
    Encrypted(bool),
    /// The reader hands out a chunk.
    ChunkReady,
    /// The chunk has its fingerprint.
    ChunkHashed,
    /// The peer has taken the chunk, or, with `false`, has not.
    ChunkSent(bool),
    /// The reader is at the end of the file, or, with `false`, has failed.
    ReadFinished(bool),
    /// The store is shut down, or, with `false`, could not be.
    StoreClosed(bool),
}

/// What to do next.
#[derive(Debug)]
pub enum Action {
    /// Start walking the roots, then wait for what the walk reports.
    StartWalk,
    /// Wait for what the walk reports next.
    AwaitWalk,
    /// Ask the store whether the file at hand has changed.
    CheckFile,
    /// Ask the store to record the file at hand.
    RecordFile,
    /// Encrypt this descriptor.
    Encrypt(VerifiedDescriptor, ProtectedDescriptor),
    /// Open a reader on the file at hand, with chunks of this size, then
    /// wait for what it reports.
    OpenReader(usize),
    /// Wait for what the reader reports next.
    AwaitChunk,
    /// Take the fingerprint of the chunk at hand.
    HashChunk,
    /// Hand the chunk at hand to the peer.
    SendChunk,
    /// Shut the store down.
    ShutdownStore,
    /// Stop; the pass ended well with `None`, and was given up with `Some`.
    Finish(Option<Failure>),
    /// The event does not belong to this phase: do nothing.
    Ignore,
}

/// What an action asks for, without the descriptor's contents.
pub enum ActionKind {
    StartWalk,
    AwaitWalk,
    CheckFile,
    RecordFile,
    Encrypt,
    OpenReader,
    AwaitChunk,
    HashChunk,
    SendChunk,
    ShutdownStore,
    Finish(Option<Failure>),
    Ignore,
}

impl Phase {
    /// Whether the pass is over.
    pub open spec fn is_terminal(self) -> bool {
        self is ShutDown || self is Aborted
    }

    /// Whether a file is being worked on.
    pub open spec fn in_file(self) -> bool {
        self is Checking || self is Describing || self is Chunking
            || self is Hashing || self is Sending || self is Committing
    }
}

/// Giving the pass up for the reason `failure`: the store is shut down
/// first.
pub open spec fn give_up(failure: Failure) -> (Phase, ActionKind) {
    (Phase::Draining(Some(failure)), ActionKind::ShutdownStore)
}

/// The phase after `event` has come in `phase`, and the kind of action to
/// take.
pub open spec fn transition(phase: Phase, event: Event) -> (Phase, ActionKind) {
    match (phase, event) {
        (Phase::Idle, Event::Start) => (Phase::Walking, ActionKind::StartWalk),
        (Phase::Walking, Event::WalkFile) => (Phase::Checking, ActionKind::CheckFile),
        (Phase::Walking, Event::WalkError) => (Phase::Walking, ActionKind::AwaitWalk),
        (Phase::Walking, Event::WalkFinished(_)) => (
            Phase::Draining(None),
            ActionKind::ShutdownStore,
        ),
        (Phase::Checking, Event::Verdict { change: Change::Unchanged(_), .. }) => (
            Phase::Walking,
            ActionKind::AwaitWalk,
        ),
        (Phase::Checking, Event::Verdict { change: Change::Changed(previous), .. }) => if version_after(
            previous,
        ) <= u64::MAX {
            (Phase::Describing, ActionKind::Encrypt)
        } else {
            give_up(Failure::Store)
        },
        (Phase::Checking, Event::StoreFailed) => give_up(Failure::Store),
        (Phase::Describing, Event::Encrypted(true)) => (Phase::Chunking, ActionKind::OpenReader),
        (Phase::Describing, Event::Encrypted(false)) => give_up(Failure::Descriptor),
        (Phase::Chunking, Event::ChunkReady) => (Phase::Hashing, ActionKind::HashChunk),
        (Phase::Chunking, Event::ReadFinished(true)) => (
            Phase::Committing,
            ActionKind::RecordFile,
        ),
        (Phase::Chunking, Event::ReadFinished(false)) => give_up(Failure::Read),
        (Phase::Hashing, Event::ChunkHashed) => (Phase::Sending, ActionKind::SendChunk),
        (Phase::Sending, Event::ChunkSent(_)) => (Phase::Chunking, ActionKind::AwaitChunk),
        (Phase::Committing, Event::Recorded) => (Phase::Walking, ActionKind::AwaitWalk),
        (Phase::Committing, Event::StoreFailed) => give_up(Failure::Store),
        (Phase::Draining(None), Event::StoreClosed(true)) => (
            Phase::ShutDown,
            ActionKind::Finish(None),
        ),
        (Phase::Draining(None), Event::StoreClosed(false)) => (
            Phase::Aborted(Failure::Shutdown),
            ActionKind::Finish(Some(Failure::Shutdown)),
        ),
        (Phase::Draining(Some(failure)), Event::StoreClosed(_)) => (
            Phase::Aborted(failure),
            ActionKind::Finish(Some(failure)),
        ),
        _ => (phase, ActionKind::Ignore),
    }
}

impl Action {
    /// What the action asks for.
    pub open spec fn kind(self) -> ActionKind {
        match self {
            Action::StartWalk => ActionKind::StartWalk,
            Action::AwaitWalk => ActionKind::AwaitWalk,
            Action::CheckFile => ActionKind::CheckFile,
            Action::RecordFile => ActionKind::RecordFile,
            Action::Encrypt(_, _) => ActionKind::Encrypt,
            Action::OpenReader(_) => ActionKind::OpenReader,
            Action::AwaitChunk => ActionKind::AwaitChunk,
            Action::HashChunk => ActionKind::HashChunk,
            Action::SendChunk => ActionKind::SendChunk,
            Action::ShutdownStore => ActionKind::ShutdownStore,
            Action::Finish(failure) => ActionKind::Finish(failure),
            Action::Ignore => ActionKind::Ignore,
        }
    }
}

/// Whether `action` carries what `event` asks it to: the descriptor of the
/// changed file in one piece, which names the version that the file gets
/// when it is recorded, or the chunk size for the reader.
pub open spec fn carries(action: Action, event: Event) -> bool {
    match action {
        Action::Encrypt(verified, protected) => event matches Event::Verdict {
            change: Change::Changed(previous),
            file_id,
            filename,
            size,
        } && verified.file_id == file_id && verified.version == version_after(previous)
            && verified.index == 0 && verified.total == 1 && verified.chunks@.len() == 0
            && protected.filename == filename && protected.size == size,
        Action::OpenReader(chunk_size) => chunk_size == CHUNK_SIZE,
        _ => true,
    }
}

/// Takes the pass from `phase` over `event` to its next phase, and says
/// what to do there.
pub fn step(phase: Phase, event: Event) -> (next: (Phase, Action))
    ensures
        (next.0, next.1.kind()) == transition(phase, event),
        carries(next.1, event),
{
    match phase {
        Phase::Idle => match event {
            Event::Start => (Phase::Walking, Action::StartWalk),
            _ => (phase, Action::Ignore),
        },
        Phase::Walking => match event {
            Event::WalkFile => (Phase::Checking, Action::CheckFile),
            Event::WalkError => (Phase::Walking, Action::AwaitWalk),
            Event::WalkFinished(_) => (Phase::Draining(None), Action::ShutdownStore),
            _ => (phase, Action::Ignore),
        },
        Phase::Checking => match event {
            Event::Verdict { change: Change::Unchanged(_), .. } => (
                Phase::Walking,
                Action::AwaitWalk,
            ),
            Event::Verdict { change: Change::Changed(previous), file_id, filename, size } => {
                match next_version(previous) {
                    Some(version) => {
                        let (verified, protected) = unsplit_descriptor(
                            file_id,
                            version,
                            filename,
                            size,
                        );
                        (Phase::Describing, Action::Encrypt(verified, protected))
                    },
                    None => (Phase::Draining(Some(Failure::Store)), Action::ShutdownStore),
                }
            },
            Event::StoreFailed => (Phase::Draining(Some(Failure::Store)), Action::ShutdownStore),
            _ => (phase, Action::Ignore),
        },
        Phase::Describing => match event {
            Event::Encrypted(true) => (Phase::Chunking, Action::OpenReader(CHUNK_SIZE)),
            Event::Encrypted(false) => (
                Phase::Draining(Some(Failure::Descriptor)),
                Action::ShutdownStore,
            ),
            _ => (phase, Action::Ignore),
        },
        Phase::Chunking => match event {
            Event::ChunkReady => (Phase::Hashing, Action::HashChunk),
            Event::ReadFinished(true) => (Phase::Committing, Action::RecordFile),
            Event::ReadFinished(false) => (
                Phase::Draining(Some(Failure::Read)),
                Action::ShutdownStore,
            ),
            _ => (phase, Action::Ignore),
        },
        Phase::Hashing => match event {
            Event::ChunkHashed => (Phase::Sending, Action::SendChunk),
            _ => (phase, Action::Ignore),
        },
        Phase::Sending => match event {
            Event::ChunkSent(_) => (Phase::Chunking, Action::AwaitChunk),
            _ => (phase, Action::Ignore),
        },
        Phase::Committing => match event {
            Event::Recorded => (Phase::Walking, Action::AwaitWalk),
            Event::StoreFailed => (Phase::Draining(Some(Failure::Store)), Action::ShutdownStore),
            _ => (phase, Action::Ignore),
        },
        Phase::Draining(None) => match event {
            Event::StoreClosed(true) => (Phase::ShutDown, Action::Finish(None)),
            Event::StoreClosed(false) => (
                Phase::Aborted(Failure::Shutdown),
                Action::Finish(Some(Failure::Shutdown)),
            ),
            _ => (phase, Action::Ignore),
        },
        Phase::Draining(Some(failure)) => match event {
            Event::StoreClosed(_) => (Phase::Aborted(failure), Action::Finish(Some(failure))),
            _ => (phase, Action::Ignore),
        },
        Phase::ShutDown => (phase, Action::Ignore),
        Phase::Aborted(_) => (phase, Action::Ignore),
    }
}

/// Whether the event reports a failure that a pass goes on after: a path
/// that the walk could not look at, a walk that ended in an error, a chunk
/// that the peer did not take.
pub open spec fn is_recoverable(event: Event) -> bool {
    event is WalkError || event matches Event::WalkFinished(false) || event matches Event::ChunkSent(
        false,
    )
}

/// A pass that is over stays over, and asks for nothing more.
pub proof fn law_terminal_is_final(phase: Phase, event: Event)
    requires
        phase.is_terminal(),
    ensures
        transition(phase, event) == (phase, ActionKind::Ignore),
{
}

/// A pass ends only after the store was asked to shut down: the one phase
/// before an end is `Draining`, and whatever leads there asks for the
/// shutdown.
pub proof fn law_store_shut_down_before_end(phase: Phase, event: Event)
    ensures
        !phase.is_terminal() && transition(phase, event).0.is_terminal() ==> phase is Draining,
        !(phase is Draining) && transition(phase, event).0 is Draining ==> transition(
            phase,
            event,
        ).1 is ShutdownStore,
{
}

/// A failure that a pass goes on after never gives the pass up, and is
/// answered like the same report without the failure.
pub proof fn law_recoverable_goes_on(phase: Phase, event: Event)
    requires
        is_recoverable(event),
    ensures
        transition(phase, event).0 matches Phase::Draining(Some(_)) ==> transition(
            phase,
            event,
        ).0 == phase,
        transition(phase, event).0 is Aborted ==> transition(phase, event).0 == phase,
        transition(phase, Event::WalkFinished(false)) == transition(
            phase,
            Event::WalkFinished(true),
        ),
        transition(phase, Event::ChunkSent(false)) == transition(phase, Event::ChunkSent(true)),
{
}

/// A pass that was given up ends as given up, for the reason that came
/// first, whether or not the store shuts down well.
pub proof fn law_first_failure_is_kept(failure: Failure, closed: bool)
    ensures
        transition(Phase::Draining(Some(failure)), Event::StoreClosed(closed)) == (
            Phase::Aborted(failure),
            ActionKind::Finish(Some(failure)),
        ),
{
}

/// A pass that was given up stays given up: nothing that comes later takes
/// the failure away or puts another in its place.
pub proof fn law_failure_is_kept(phase: Phase, event: Event, failure: Failure)
    requires
        phase == Phase::Draining(Some(failure)) || phase == Phase::Aborted(failure),
    ensures
        transition(phase, event).0 == Phase::Draining(Some(failure)) || transition(
            phase,
            event,
        ).0 == Phase::Aborted(failure),
{
}

/// A file whose length is as recorded costs no further work: the pass goes
/// back to the walk, and nothing is recorded, described or read.
pub proof fn law_unchanged_is_skipped(partial: Partial, file_id: FileId, filename: String, size: u64)
    ensures
        transition(
            Phase::Checking,
            Event::Verdict { change: Change::Unchanged(partial), file_id, filename, size },
        ) == (Phase::Walking, ActionKind::AwaitWalk),
{
}

/// A file is recorded once, and only when it was read to its end: nothing
/// but the reader's good end asks the store to record. So a file whose
/// reading failed, or whose descriptor could not be encrypted, has no new
/// version, and the next pass finds it changed again.
pub proof fn law_recorded_only_after_read(phase: Phase, event: Event)
    ensures
        transition(phase, event).1 is RecordFile <==> phase is Chunking && event
            == Event::ReadFinished(true),
        transition(phase, event).1 is RecordFile ==> transition(phase, event).0 is Committing,
        transition(Phase::Committing, Event::Recorded) == (Phase::Walking, ActionKind::AwaitWalk),
        transition(Phase::Chunking, Event::ReadFinished(false)) == give_up(Failure::Read),
{
}

} // verus!
