//! What the recorder and the runtime that drives it hand to each other.
//!
//! The recorder decides; the runtime touches the disk and runs the tasks.
//! Work whose outcome the recorder needs travels as a [`StorageQuery`] and
//! comes back as a [`StorageEvent`]; work that nobody waits for travels as
//! [`RecordingOrder`]s.
use super::text::Timestamp;
use crate::device::devices::DeviceActorHandler;
use crate::device::manager::{
    DeviceInfo, DeviceInfoView, DeviceSelection, ManagerError, ManagerErrorView,
};
use vstd::prelude::*;

verus! {

/// The bytes after which the log starts a new chunk.
pub const CHUNK_SIZE: u64 = 786432;

/// One run of recording the telemetry of one device.
#[derive(Debug)]
pub struct RecordingSession {
    pub device_id: u128,
    pub file_path: String,
    pub is_active: bool,
    pub start_time: Timestamp,
    pub device_type: DeviceSelection,
}

pub struct RecordingSessionView {
    pub device_id: u128,
    pub file_path: Seq<char>,
    pub is_active: bool,
    pub start_time: Timestamp,
    pub device_type: DeviceSelection,
}

impl View for RecordingSession {
    type V = RecordingSessionView;

    open spec fn view(&self) -> RecordingSessionView {
        RecordingSessionView {
            device_id: self.device_id,
            file_path: self.file_path@,
            is_active: self.is_active,
            start_time: self.start_time,
            device_type: self.device_type,
        }
    }
}

impl Clone for RecordingSession {
    fn clone(&self) -> (r: Self)
        ensures
            r@ == self@,
    {
        RecordingSession {
            device_id: self.device_id,
            file_path: self.file_path.clone(),
            is_active: self.is_active,
            start_time: self.start_time,
            device_type: self.device_type,
        }
    }
}

/// A session that may be absent, seen through its view.
pub open spec fn status_view(session: Option<RecordingSession>) -> Option<RecordingSessionView> {
    match session {
        Some(s) => Some(s@),
        None => None,
    }
}

/// Work on the disk whose outcome the recorder needs.
#[derive(Debug)]
pub enum StorageQuery {
    /// Make the directory `directory`, with the directories above it, where
    /// it is not there, and create in it the file `file` as a log in
    /// chunks of `chunk_size` bytes, each compressed.
    Create { device_id: u128, directory: String, file: String, chunk_size: u64 },
    /// Flush and close the log of `device_id`.
    Close { device_id: u128 },
}

pub enum StorageQueryView {
    Create { device_id: u128, directory: Seq<char>, file: Seq<char>, chunk_size: u64 },
    Close { device_id: u128 },
}

impl View for StorageQuery {
    type V = StorageQueryView;

    open spec fn view(&self) -> StorageQueryView {
        match self {
            StorageQuery::Create { device_id, directory, file, chunk_size } => {
                StorageQueryView::Create {
                    device_id: *device_id,
                    directory: directory@,
                    file: file@,
                    chunk_size: *chunk_size,
                }
            },
            StorageQuery::Close { device_id } => StorageQueryView::Close { device_id: *device_id },
        }
    }
}

/// Why a log could not be created: the words of the failure to make its
/// directory, or of the failure to create its file.
#[derive(Debug)]
pub enum StorageFailure {
    Directory(String),
    File(String),
}

pub enum StorageFailureView {
    Directory(Seq<char>),
    File(Seq<char>),
}

impl View for StorageFailure {
    type V = StorageFailureView;

    open spec fn view(&self) -> StorageFailureView {
        match self {
            StorageFailure::Directory(words) => StorageFailureView::Directory(words@),
            StorageFailure::File(words) => StorageFailureView::File(words@),
        }
    }
}

/// The outcome of a storage query.
#[derive(Debug)]
pub enum StorageEvent {
    Created(Result<(), StorageFailure>),
    /// The log is closed, or the words of the failure to close it.
    Closed(Result<(), String>),
}

pub enum StorageEventView {
    Created(Result<(), StorageFailureView>),
    Closed(Result<(), Seq<char>>),
}

impl View for StorageEvent {
    type V = StorageEventView;

    open spec fn view(&self) -> StorageEventView {
        match self {
            StorageEvent::Created(Ok(_)) => StorageEventView::Created(Ok(())),
            StorageEvent::Created(Err(failure)) => StorageEventView::Created(Err(failure@)),
            StorageEvent::Closed(Ok(_)) => StorageEventView::Closed(Ok(())),
            StorageEvent::Closed(Err(words)) => StorageEventView::Closed(Err(words@)),
        }
    }
}

/// Where a recording request stands while the runtime works on the disk.
#[derive(Debug)]
pub enum RecordingPending {
    /// Starting: the log of `session` is being created. `device` is what
    /// the fleet held of the device when the recording was asked for.
    Creating { session: RecordingSession, device: DeviceInfo },
    /// Stopping: the log of `session` is being closed.
    Closing { session: RecordingSession },
}

pub enum RecordingPendingView {
    Creating { session: RecordingSessionView, device: DeviceInfoView },
    Closing { session: RecordingSessionView },
}

impl View for RecordingPending {
    type V = RecordingPendingView;

    open spec fn view(&self) -> RecordingPendingView {
        match self {
            RecordingPending::Creating { session, device } => RecordingPendingView::Creating {
                session: session@,
                device: device@,
            },
            RecordingPending::Closing { session } => RecordingPendingView::Closing {
                session: session@,
            },
        }
    }
}

/// Work that the runtime does for the recorder without reporting back.
#[derive(Debug)]
pub enum RecordingOrder {
    /// Tell the subscribers of the session status about `session`.
    Announce(RecordingSession),
    /// Start the task that records the telemetry of the actor behind
    /// `handler` into the log of `session`.
    Record { handler: DeviceActorHandler, session: RecordingSession, device: DeviceInfo },
    /// Drop the log of `device_id`.
    Discard { device_id: u128 },
    /// Wake the task that records `device_id` where it waits for
    /// telemetry: its session has changed.
    Wake { device_id: u128 },
}

pub enum RecordingOrderView {
    Announce(RecordingSessionView),
    Record { handler: DeviceActorHandler, session: RecordingSessionView, device: DeviceInfoView },
    Discard { device_id: u128 },
    Wake { device_id: u128 },
}

impl View for RecordingOrder {
    type V = RecordingOrderView;

    open spec fn view(&self) -> RecordingOrderView {
        match self {
            RecordingOrder::Announce(session) => RecordingOrderView::Announce(session@),
            RecordingOrder::Record { handler, session, device } => RecordingOrderView::Record {
                handler: *handler,
                session: session@,
                device: device@,
            },
            RecordingOrder::Discard { device_id } => RecordingOrderView::Discard {
                device_id: *device_id,
            },
            RecordingOrder::Wake { device_id } => RecordingOrderView::Wake {
                device_id: *device_id,
            },
        }
    }
}

/// The outcome of a recording request, seen through the views of its parts.
pub open spec fn session_outcome_view(outcome: Result<RecordingSession, ManagerError>) -> Result<
    RecordingSessionView,
    ManagerErrorView,
> {
    match outcome {
        Ok(session) => Ok(session@),
        Err(e) => Err(e@),
    }
}

/// How a recording request goes on.
#[derive(Debug)]
pub enum RecordingNext {
    Reply(Result<RecordingSession, ManagerError>),
    Wait { pending: RecordingPending, query: StorageQuery },
}

pub enum RecordingNextView {
    Reply(Result<RecordingSessionView, ManagerErrorView>),
    Wait { pending: RecordingPendingView, query: StorageQueryView },
}

impl View for RecordingNext {
    type V = RecordingNextView;

    open spec fn view(&self) -> RecordingNextView {
        match self {
            RecordingNext::Reply(outcome) => RecordingNextView::Reply(
                session_outcome_view(*outcome),
            ),
            RecordingNext::Wait { pending, query } => RecordingNextView::Wait {
                pending: pending@,
                query: query@,
            },
        }
    }
}

/// One step of the recorder on a request: the orders to carry out, in
/// order, and how the request goes on.
#[derive(Debug)]
pub struct RecordingTurn {
    pub orders: Vec<RecordingOrder>,
    pub next: RecordingNext,
}

pub struct RecordingTurnView {
    pub orders: Seq<RecordingOrderView>,
    pub next: RecordingNextView,
}

impl View for RecordingTurn {
    type V = RecordingTurnView;

    open spec fn view(&self) -> RecordingTurnView {
        RecordingTurnView {
            orders: self.orders@.map_values(|o: RecordingOrder| o@),
            next: self.next@,
        }
    }
}

/// The turn that answers with a failure and orders nothing.
pub open spec fn refusal(error: ManagerErrorView) -> RecordingTurnView {
    RecordingTurnView { orders: Seq::empty(), next: RecordingNextView::Reply(Err(error)) }
}

impl RecordingTurn {
    /// The turn that goes on with `next` and orders nothing.
    pub fn plain(next: RecordingNext) -> (turn: RecordingTurn)
        ensures
            turn@ == (RecordingTurnView { orders: Seq::empty(), next: next@ }),
    {
        let turn = RecordingTurn { orders: Vec::new(), next };
        assert(turn@.orders =~= Seq::empty());
        turn
    }

    /// The turn that answers with the failure `error` and orders nothing.
    pub fn refuse(error: ManagerError) -> (turn: RecordingTurn)
        ensures
            turn@ == refusal(error@),
    {
        Self::plain(RecordingNext::Reply(Err(error)))
    }

    /// This turn with `order` carried out after its own orders.
    pub fn with(self, order: RecordingOrder) -> (turn: RecordingTurn)
        ensures
            turn@ == (RecordingTurnView { orders: self@.orders.push(order@), next: self@.next }),
    {
        let RecordingTurn { orders, next } = self;
        let mut orders = orders;
        orders.push(order);
        let turn = RecordingTurn { orders, next };
        assert(turn@.orders =~= self@.orders.push(order@));
        turn
    }
}

} // verus!
