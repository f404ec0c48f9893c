//! What holds of the recorder whatever the disk does.
use super::pointcloud::{cloud_time, Position};
use super::schemas::header_of;
use super::session::{
    refusal, RecordingNextView, RecordingOrderView, RecordingPendingView, StorageEventView,
    StorageQueryView,
};
use super::steps::{
    abandoned, after_create, already_recording, log_path, observed, purged, recorder_wf, records,
    resumed_recording, start_turn, stopped, Recorder,
};
use super::task::{
    channel_of, records_of, task_end, task_round, topics_of, Channel, RecordView, TaskEventView,
    TaskStepView,
};
use super::text::{file_name_text, joined, utc_compact, Timestamp};
use crate::device::devices::{PingAnswerView, ProtocolMessageView, ReceivedView, TelemetryView};
use crate::device::fleet::{deleted, status_among, Fleet};
use crate::device::manager::{DeviceInfoView, ManagerErrorView};
use vstd::prelude::*;

verus! {

/// Every step of the recorder keeps it well formed.
pub proof fn law_steps_keep_recorder_well_formed(
    recorder: Recorder,
    fleet: Fleet,
    pending: RecordingPendingView,
    event: StorageEventView,
    id: u128,
)
    requires
        recorder_wf(recorder),
    ensures
        recorder_wf(resumed_recording(recorder, fleet, pending, event).0),
        recorder_wf(stopped(recorder, id).0),
        recorder_wf(purged(recorder, id)),
        recorder_wf(abandoned(recorder, id).0),
{
    let d = abandoned(recorder, id).0;
    assert forall|k: u128| #[trigger] d.sessions.contains_key(k) implies d.sessions[k].device_id
        == k by {
        if recorder.sessions.contains_key(k) {
        }
    }
    assert forall|k: u128| #[trigger] d.writers.contains(k) implies d.sessions.contains_key(k) by {
        if recorder.writers.contains(k) {
        }
    }
    let a = resumed_recording(recorder, fleet, pending, event).0;
    assert forall|k: u128| #[trigger] a.sessions.contains_key(k) implies a.sessions[k].device_id
        == k by {
        if recorder.sessions.contains_key(k) {
        }
    }
    assert forall|k: u128| #[trigger] a.writers.contains(k) implies a.sessions.contains_key(k) by {
        if recorder.writers.contains(k) {
        }
    }
    let b = stopped(recorder, id).0;
    assert forall|k: u128| #[trigger] b.sessions.contains_key(k) implies b.sessions[k].device_id
        == k by {
        if recorder.sessions.contains_key(k) {
        }
    }
    assert forall|k: u128| #[trigger] b.writers.contains(k) implies b.sessions.contains_key(k) by {
        if recorder.writers.contains(k) {
        }
    }
    let c = purged(recorder, id);
    assert forall|k: u128| #[trigger] c.writers.contains(k) implies c.sessions.contains_key(k) by {
        if recorder.writers.contains(k) {
        }
    }
    assert forall|k: u128| #[trigger] c.headed.contains(k) implies c.sessions.contains_key(k) by {
        if recorder.headed.contains(k) {
        }
    }
    assert forall|k: u128| #[trigger] a.headed.contains(k) implies a.sessions.contains_key(k) by {
        if recorder.headed.contains(k) {
        }
    }
    assert forall|k: u128| #[trigger] b.headed.contains(k) implies b.sessions.contains_key(k) by {
        if recorder.headed.contains(k) {
        }
    }
    assert forall|k: u128| #[trigger] d.headed.contains(k) implies d.sessions.contains_key(k) by {
        if recorder.headed.contains(k) {
        }
    }
}

/// Two logs of one device in one directory have the same path only if
/// they start at instants with the same text.
pub proof fn law_paths_tell_the_starts_apart(
    base: Seq<char>,
    id: u128,
    first: Seq<char>,
    second: Seq<char>,
)
    requires
        first != second,
    ensures
        log_path(base, id, first) != log_path(base, id, second),
{
    let a = file_name_text(id, first);
    let b = file_name_text(id, second);
    let head = "device_"@ + super::text::uuid_text(id) + "_"@;
    let tail = ".mcap"@;
    assert(a =~= head + first + tail);
    assert(b =~= head + second + tail);
    if a == b {
        assert(first.len() == second.len());
        assert(first =~= a.subrange(head.len() as int, (head.len() + first.len()) as int));
        assert(second =~= b.subrange(head.len() as int, (head.len() + second.len()) as int));
        assert(false);
    }
    let pa = joined(base, a);
    let pb = joined(base, b);
    if pa == pb {
        let lead = (pa.len() - a.len()) as int;
        assert(a.len() == b.len());
        assert(a =~= pa.subrange(lead, pa.len() as int));
        assert(b =~= pb.subrange(lead, pb.len() as int));
        assert(false);
    }
}

/// While a device has a session, active or not, a start of another
/// recording of it is refused and its session stays as it is.
pub proof fn law_second_start_is_refused(recorder: Recorder, fleet: Fleet, id: u128, now: Timestamp)
    requires
        recorder.sessions.contains_key(id),
        status_among(fleet, id, super::steps::recordable()) is Ok,
    ensures
        start_turn(recorder, fleet, id, now) == refusal(
            ManagerErrorView::Other(already_recording(id)),
        ),
{
}

/// A recording that was started and stopped can be started again once
/// its task, woken by the stop, has ended, and the new log has another
/// path than the old one where the two starts differ in their text.
pub proof fn law_restart_takes_a_new_path(
    recorder: Recorder,
    fleet: Fleet,
    id: u128,
    first: Timestamp,
    second: Timestamp,
)
    requires
        !recorder.sessions.contains_key(id),
        status_among(fleet, id, super::steps::recordable()) is Ok,
        utc_compact(first.secs, first.nanos) is Some,
        utc_compact(second.secs, second.nanos) is Some,
        utc_compact(first.secs, first.nanos) != utc_compact(second.secs, second.nanos),
    ensures
        ({
            let begun = start_turn(recorder, fleet, id, first);
            &&& begun.next matches RecordingNextView::Wait {
                pending: RecordingPendingView::Creating { session, device },
                ..
            }
            &&& {
                let running = after_create(recorder, fleet, session, device, Ok(())).0;
                let halted = stopped(running, id).0;
                let ended = task_round(halted, id, TaskEventView::Woken, Seq::empty(), second).0;
                let again = start_turn(ended, fleet, id, second);
                &&& records(running, id)
                &&& running.sessions[id] == session
                &&& !records(halted, id)
                &&& halted.sessions.contains_key(id)
                &&& again.next matches RecordingNextView::Wait {
                    pending: RecordingPendingView::Creating { session: renewed, .. },
                    ..
                }
                &&& renewed.is_active
                &&& renewed.file_path != session.file_path
            }
        }),
{
    let a = utc_compact(first.secs, first.nanos)->Some_0;
    let b = utc_compact(second.secs, second.nanos)->Some_0;
    law_paths_tell_the_starts_apart(recorder.base_path, id, a, b);
}

/// A log is closed once: the stop that closes the log of a device takes
/// the log from the recorder, so that no later stop asks to close it and
/// the task that ends finds nothing to drop.
pub proof fn law_log_is_closed_once(recorder: Recorder, id: u128)
    requires
        recorder_wf(recorder),
        recorder.writers.contains(id),
    ensures
        ({
            let (halted, turn) = stopped(recorder, id);
            &&& turn.next matches RecordingNextView::Wait {
                query: StorageQueryView::Close { device_id },
                ..
            }
            &&& device_id == id
            &&& !halted.writers.contains(id)
            &&& stopped(halted, id).1.next is Reply
            &&& task_end(halted, id, None).1 == (TaskStepView::Finish { open: false, failure: None })
        }),
{
}

/// The round that opens the channels of a log writes the header and
/// nothing else, and takes note of it.
pub proof fn law_log_opens_with_its_header(
    recorder: Recorder,
    id: u128,
    device: DeviceInfoView,
    positions: Seq<Position>,
    now: Timestamp,
)
    requires
        records(recorder, id),
        !recorder.headed.contains(id),
        header_of(device, recorder.sessions[id].start_time) is Some,
    ensures
        task_round(
            recorder,
            id,
            TaskEventView::Subscribed { device, reply: Ok(PingAnswerView::Subscriber) },
            positions,
            now,
        ) == (
            Recorder { headed: recorder.headed.insert(id), ..recorder },
            TaskStepView::Open {
                topics: topics_of(id),
                records: seq![
                    RecordView::Header(
                        header_of(device, recorder.sessions[id].start_time)->Some_0,
                    ),
                ],
            },
        ),
{
}

/// The header is the first record of a log and the only one on its
/// channel. A log is new without its header; only the round that writes
/// the header takes note of one, and it writes nothing else; the records
/// of a message are written only to a log that has its header, and none
/// of them to the channel of the header; and no second header is written
/// to a log that has one.
pub proof fn law_header_comes_first(
    recorder: Recorder,
    fleet: Fleet,
    id: u128,
    other: u128,
    pending: RecordingPendingView,
    storage: StorageEventView,
    event: TaskEventView,
    positions: Seq<Position>,
    now: Timestamp,
)
    requires
        recorder_wf(recorder),
    ensures
        !recorder.sessions.contains_key(id) ==> !recorder.headed.contains(id),
        resumed_recording(recorder, fleet, pending, storage).0.headed == recorder.headed,
        stopped(recorder, other).0.headed == recorder.headed,
        abandoned(recorder, other).0.headed == recorder.headed,
        ({
            let (after, step) = task_round(recorder, other, event, positions, now);
            &&& after.headed.contains(id) && !recorder.headed.contains(id) ==> id == other && (
            step matches TaskStepView::Open { records, .. } && records.len() == 1
                && records[0] is Header)
            &&& step is Open ==> !recorder.headed.contains(other) && after.headed.contains(other)
            &&& step matches TaskStepView::Log(records) ==> recorder.headed.contains(other)
                && forall|i: int|
                0 <= i < records.len() ==> channel_of(#[trigger] records[i]) != Channel::Header
        }),
{
}

/// Every record of a message holds the instant at which the message was
/// received and the message itself, and the cloud of a sweep holds that
/// instant too.
pub proof fn law_records_hold_what_was_received(
    message: ProtocolMessageView,
    decoded: TelemetryView,
    positions: Seq<Position>,
    now: Timestamp,
)
    ensures
        !(decoded is Other) ==> records_of(message, decoded, positions, now).len() >= 1,
        forall|i: int|
            0 <= i < records_of(message, decoded, positions, now).len() ==> match (
            #[trigger] records_of(message, decoded, positions, now)[i]) {
                RecordView::Message { timestamp, message: held, .. } => timestamp == now && held
                    == message,
                RecordView::Cloud(cloud) => cloud.timestamp == cloud_time(now),
                RecordView::Header(_) => false,
            },
{
}

/// A stop is seen at once: it orders the task that records the device to
/// be woken, and from then on whatever happens to the task ends it, with
/// nothing written and the session forgotten.
pub proof fn law_stop_ends_the_task(
    recorder: Recorder,
    id: u128,
    event: TaskEventView,
    positions: Seq<Position>,
    now: Timestamp,
)
    requires
        recorder.sessions.contains_key(id),
    ensures
        ({
            let (halted, turn) = stopped(recorder, id);
            let (after, step) = task_round(halted, id, event, positions, now);
            &&& turn.orders.len() >= 1
            &&& turn.orders[0] == (RecordingOrderView::Wake { device_id: id })
            &&& step is Finish
            &&& step->Finish_open == false
            &&& !after.sessions.contains_key(id)
            &&& !after.writers.contains(id)
        }),
{
}

/// The deletion of a device ends its recording at once: when the actor
/// of the device is aborted the task that records it is woken, and from
/// then on whatever happens to the task ends it, with nothing written,
/// the log dropped where it was open, and the session forgotten.
pub proof fn law_deletion_ends_the_recording(
    fleet: Fleet,
    recorder: Recorder,
    id: u128,
    event: TaskEventView,
    positions: Seq<Position>,
    now: Timestamp,
)
    requires
        fleet.contains_key(id),
        recorder.sessions.contains_key(id),
    ensures
        ({
            let order = deleted(fleet, id).1.orders[0];
            let (left, orders) = observed(recorder, order);
            let (after, step) = task_round(left, id, event, positions, now);
            &&& deleted(fleet, id).1.orders.len() == 1
            &&& order is Abort
            &&& orders == seq![RecordingOrderView::Wake { device_id: id }]
            &&& !records(left, id)
            &&& step is Finish
            &&& step->Finish_open == recorder.writers.contains(id)
            &&& !after.sessions.contains_key(id)
            &&& !after.writers.contains(id)
        }),
{
}

/// The task that records a device ends when the subscription ends: the
/// task writes nothing more and the recorder forgets the session.
pub proof fn law_task_ends_with_the_subscription(
    recorder: Recorder,
    id: u128,
    words: Seq<char>,
    positions: Seq<Position>,
    now: Timestamp,
)
    ensures
        ({
            let (after, step) = task_round(
                recorder,
                id,
                TaskEventView::Received(ReceivedView::Closed(words)),
                positions,
                now,
            );
            &&& step is Finish
            &&& !after.sessions.contains_key(id)
            &&& !after.writers.contains(id)
        }),
{
}

} // verus!
