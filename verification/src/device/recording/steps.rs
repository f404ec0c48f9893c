//! The recorder as a mathematical object: the table of sessions, the set
//! of devices whose log is open, and the steps that the recorder takes on
//! them.
use super::session::{
    refusal, RecordingNextView, RecordingOrderView, RecordingPendingView, RecordingSessionView,
    RecordingTurnView, StorageEventView, StorageFailureView, StorageQueryView, CHUNK_SIZE,
};
use super::text::{file_name_text, joined, utc_compact, uuid_text, Timestamp};
use crate::device::fleet::{handler_outcome, status_among, Fleet};
use crate::device::turn::OrderView;
use crate::device::manager::{
    info_of, AnswerView, DeviceInfoView, DeviceStatus, ManagerErrorView,
};
use vstd::prelude::*;

verus! {

/// What the recorder holds: the session of every device that records or
/// has stopped and is not yet forgotten, the devices whose log is open,
/// the devices whose log has got its header, and the directory of the
/// logs.
pub struct Recorder {
    pub sessions: Map<u128, RecordingSessionView>,
    pub writers: Set<u128>,
    pub headed: Set<u128>,
    pub base_path: Seq<char>,
}

/// There are finitely many sessions, every session is filed under its
/// device, and a log is open, or has its header, only for a device that
/// has a session.
pub open spec fn recorder_wf(recorder: Recorder) -> bool {
    &&& recorder.sessions.dom().finite()
    &&& forall|id: u128| #[trigger]
        recorder.sessions.contains_key(id) ==> recorder.sessions[id].device_id == id
    &&& forall|id: u128| #[trigger] recorder.writers.contains(id) ==> recorder.sessions.contains_key(id)
    &&& forall|id: u128| #[trigger] recorder.headed.contains(id) ==> recorder.sessions.contains_key(id)
}

pub open spec fn already_recording(id: u128) -> Seq<char> {
    "Device "@ + uuid_text(id) + " is already recording"@
}

pub open spec fn no_session(id: u128) -> Seq<char> {
    "No recording session for device "@ + uuid_text(id)
}

pub open spec fn directory_failure(words: Seq<char>) -> Seq<char> {
    "Failed to create recording directory: "@ + words
}

pub open spec fn file_failure(words: Seq<char>) -> Seq<char> {
    "Failed to create MCAP file: "@ + words
}

pub open spec fn close_failure(words: Seq<char>) -> Seq<char> {
    "Failed to close MCAP writer: "@ + words
}

pub open spec fn time_out_of_range() -> Seq<char> {
    "Recording time is out of range"@
}

pub open spec fn invalid_handler() -> Seq<char> {
    "Invalid device handler"@
}

pub open spec fn unexpected_storage_event() -> Seq<char> {
    "Unexpected event for the pending recording request"@
}

/// The statuses in which a device can be recorded.
pub open spec fn recordable() -> Seq<DeviceStatus> {
    seq![DeviceStatus::Running, DeviceStatus::Broadcasting]
}

/// The path of the log of `id` that starts at the instant whose compact
/// text is `stamp`.
pub open spec fn log_path(base: Seq<char>, id: u128, stamp: Seq<char>) -> Seq<char> {
    joined(base, file_name_text(id, stamp))
}

/// The first step of starting a recording of `id` at `now`: refused for a
/// device that is unknown or stopped, for one that has a session, and for
/// an instant that has no text; else the log is to be created.
pub open spec fn start_turn(
    recorder: Recorder,
    fleet: Fleet,
    id: u128,
    now: Timestamp,
) -> RecordingTurnView {
    match status_among(fleet, id, recordable()) {
        Err(e) => refusal(e),
        Ok(_) => if recorder.sessions.contains_key(id) {
            refusal(ManagerErrorView::Other(already_recording(id)))
        } else {
            match utc_compact(now.secs, now.nanos) {
                None => refusal(ManagerErrorView::Other(time_out_of_range())),
                Some(stamp) => {
                    let file = log_path(recorder.base_path, id, stamp);
                    let session = RecordingSessionView {
                        device_id: id,
                        file_path: file,
                        is_active: true,
                        start_time: now,
                        device_type: fleet[id].device_type,
                    };
                    RecordingTurnView {
                        orders: Seq::empty(),
                        next: RecordingNextView::Wait {
                            pending: RecordingPendingView::Creating {
                                session,
                                device: info_of(fleet[id]),
                            },
                            query: StorageQueryView::Create {
                                device_id: id,
                                directory: recorder.base_path,
                                file,
                                chunk_size: CHUNK_SIZE,
                            },
                        },
                    }
                },
            }
        },
    }
}

/// A start goes on after its log was created, or not. With the log there,
/// the session is filed and announced, and the task that records is
/// started on the actor of the device. Where the fleet gives out no
/// handler the start fails and the session stays.
pub open spec fn after_create(
    recorder: Recorder,
    fleet: Fleet,
    session: RecordingSessionView,
    device: DeviceInfoView,
    created: Result<(), StorageFailureView>,
) -> (Recorder, RecordingTurnView) {
    let id = session.device_id;
    match created {
        Err(StorageFailureView::Directory(words)) => (
            recorder,
            refusal(ManagerErrorView::Other(directory_failure(words))),
        ),
        Err(StorageFailureView::File(words)) => (
            recorder,
            refusal(ManagerErrorView::Other(file_failure(words))),
        ),
        Ok(_) => if recorder.sessions.contains_key(id) {
            (
                recorder,
                RecordingTurnView {
                    orders: seq![RecordingOrderView::Discard { device_id: id }],
                    next: RecordingNextView::Reply(
                        Err(ManagerErrorView::Other(already_recording(id))),
                    ),
                },
            )
        } else {
            let filed = Recorder {
                sessions: recorder.sessions.insert(id, session),
                writers: recorder.writers.insert(id),
                ..recorder
            };
            match handler_outcome(fleet, id) {
                Ok(AnswerView::InnerDeviceHandler(handler)) => (
                    filed,
                    RecordingTurnView {
                        orders: seq![
                            RecordingOrderView::Announce(session),
                            RecordingOrderView::Record { handler, session, device },
                        ],
                        next: RecordingNextView::Reply(Ok(session)),
                    },
                ),
                Ok(_) => (
                    filed,
                    RecordingTurnView {
                        orders: seq![RecordingOrderView::Announce(session)],
                        next: RecordingNextView::Reply(
                            Err(ManagerErrorView::Other(invalid_handler())),
                        ),
                    },
                ),
                Err(e) => (
                    filed,
                    RecordingTurnView {
                        orders: seq![RecordingOrderView::Announce(session)],
                        next: RecordingNextView::Reply(Err(e)),
                    },
                ),
            }
        },
    }
}

/// The stop of the recording of `id`: the session is no longer active,
/// the task that records is woken so that it sees the stop at once, and
/// the log, where it is open, is to be closed.
pub open spec fn stopped(recorder: Recorder, id: u128) -> (Recorder, RecordingTurnView) {
    if !recorder.sessions.contains_key(id) {
        (recorder, refusal(ManagerErrorView::Other(no_session(id))))
    } else {
        let session = RecordingSessionView { is_active: false, ..recorder.sessions[id] };
        let after = Recorder {
            sessions: recorder.sessions.insert(id, session),
            writers: recorder.writers.remove(id),
            ..recorder
        };
        let wake = RecordingOrderView::Wake { device_id: id };
        if recorder.writers.contains(id) {
            (
                after,
                RecordingTurnView {
                    orders: seq![wake],
                    next: RecordingNextView::Wait {
                        pending: RecordingPendingView::Closing { session },
                        query: StorageQueryView::Close { device_id: id },
                    },
                },
            )
        } else {
            (
                after,
                RecordingTurnView {
                    orders: seq![wake, RecordingOrderView::Announce(session)],
                    next: RecordingNextView::Reply(Ok(session)),
                },
            )
        }
    }
}

/// The turn that announces `session` and answers with it.
pub open spec fn announced(session: RecordingSessionView) -> RecordingTurnView {
    RecordingTurnView {
        orders: seq![RecordingOrderView::Announce(session)],
        next: RecordingNextView::Reply(Ok(session)),
    }
}

/// A stop goes on after its log was closed, or not.
pub open spec fn after_close(
    session: RecordingSessionView,
    closed: Result<(), Seq<char>>,
) -> RecordingTurnView {
    match closed {
        Err(words) => refusal(ManagerErrorView::Other(close_failure(words))),
        Ok(_) => announced(session),
    }
}

/// The step that the recorder takes when the runtime reports `event` for
/// the request that stands at `pending`.
pub open spec fn resumed_recording(
    recorder: Recorder,
    fleet: Fleet,
    pending: RecordingPendingView,
    event: StorageEventView,
) -> (Recorder, RecordingTurnView) {
    match (pending, event) {
        (RecordingPendingView::Creating { session, device }, StorageEventView::Created(created)) => {
            after_create(recorder, fleet, session, device, created)
        },
        (RecordingPendingView::Closing { session }, StorageEventView::Closed(closed)) => (
            recorder,
            after_close(session, closed),
        ),
        _ => (recorder, refusal(ManagerErrorView::Other(unexpected_storage_event()))),
    }
}

/// Whether `list` tells about the sessions: one entry for each device
/// that has a session, each entry the session of its device, and no
/// session left out. The order is left open.
pub open spec fn is_session_listing(
    list: Seq<RecordingSessionView>,
    sessions: Map<u128, RecordingSessionView>,
) -> bool {
    &&& list.len() == sessions.dom().len()
    &&& forall|i: int|
        0 <= i < list.len() ==> sessions.contains_key(#[trigger] list[i].device_id) && list[i]
            == sessions[list[i].device_id]
    &&& forall|i: int, j: int|
        0 <= i < list.len() && 0 <= j < list.len() && i != j ==> #[trigger] list[i].device_id
            != #[trigger] list[j].device_id
    &&& forall|id: u128| #[trigger]
        sessions.contains_key(id) ==> exists|i: int|
            0 <= i < list.len() && #[trigger] list[i].device_id == id
}

/// The recorder after the device `id` was deleted from the fleet, and
/// the orders that go with it: the session of the device, where it has
/// one, is no longer active, and the task that records it is woken, so
/// that it ends at once and writes nothing more. The log is dropped when
/// the task ends.
pub open spec fn abandoned(recorder: Recorder, id: u128) -> (Recorder, Seq<RecordingOrderView>) {
    if recorder.sessions.contains_key(id) {
        let session = RecordingSessionView { is_active: false, ..recorder.sessions[id] };
        (
            Recorder { sessions: recorder.sessions.insert(id, session), ..recorder },
            seq![RecordingOrderView::Wake { device_id: id }],
        )
    } else {
        (recorder, Seq::empty())
    }
}

/// What the recorder does when the runtime carries out `order` of the
/// manager: where the order aborts the actor of a device, the recording of
/// that device is abandoned. No other order concerns the recorder.
pub open spec fn observed(recorder: Recorder, order: OrderView) -> (
    Recorder,
    Seq<RecordingOrderView>,
) {
    match order {
        OrderView::Abort { id, .. } => abandoned(recorder, id),
        _ => (recorder, Seq::empty()),
    }
}

/// Whether the task that records `id` goes on: its session is there and
/// active.
pub open spec fn records(recorder: Recorder, id: u128) -> bool {
    recorder.sessions.contains_key(id) && recorder.sessions[id].is_active
}

/// The recorder after the task that records `id` has ended: the session
/// and the log of `id` are forgotten.
pub open spec fn purged(recorder: Recorder, id: u128) -> Recorder {
    Recorder {
        sessions: recorder.sessions.remove(id),
        writers: recorder.writers.remove(id),
        headed: recorder.headed.remove(id),
        ..recorder
    }
}

/// Whether the task that records `id` may write the records of a
/// message: its session is active and its log has got its header.
pub open spec fn logs(recorder: Recorder, id: u128) -> bool {
    records(recorder, id) && recorder.headed.contains(id)
}

} // verus!
