//! The task that records the telemetry of one device.
//!
//! The runtime runs one such task for each recording. The task asks the
//! device's actor for a subscription and tells the recorder what came of
//! it. From then on it tells the recorder of everything that happens to it
//! and does what the recorder answers: it opens its channels and writes the
//! header, it waits for telemetry or for a wake-up, it writes records, or
//! it ends.
use super::pointcloud::{
    auto_device_data, cloud_view, convert_to_point_cloud, point_cloud, PointCloud, PointCloudView,
    Position,
};
use super::recorder::RecordingManager;
use super::schemas::{header_of, recording_header, RecordingHeader, RecordingHeaderView};
use super::steps::{logs, no_session, purged, records, time_out_of_range, Recorder};
use super::text::{device_topic, format_uuid, topic_text, Timestamp};
use crate::device::devices::{
    reply_view, DeviceError, DeviceErrorView, PingAnswer, PingAnswerView, ProtocolMessage,
    ProtocolMessageView, Received, ReceivedView, Telemetry, TelemetryView,
};
use crate::device::manager::{DeviceInfo, DeviceInfoView, ManagerError, ManagerErrorView};
use vstd::prelude::*;
use vstd::string::StringExecFns;

verus! {

/// The channels of a log.
#[derive(Debug, Clone, Copy, PartialEq, Eq, Structural)]
pub enum Channel {
    Ping1D,
    Ping360,
    PointCloud,
    Header,
}

/// The topic of every channel of the log of one device.
#[derive(Debug)]
pub struct Topics {
    pub ping1d: String,
    pub ping360: String,
    pub pointcloud: String,
    pub header: String,
}

pub struct TopicsView {
    pub ping1d: Seq<char>,
    pub ping360: Seq<char>,
    pub pointcloud: Seq<char>,
    pub header: Seq<char>,
}

impl View for Topics {
    type V = TopicsView;

    open spec fn view(&self) -> TopicsView {
        TopicsView {
            ping1d: self.ping1d@,
            ping360: self.ping360@,
            pointcloud: self.pointcloud@,
            header: self.header@,
        }
    }
}

/// The topics of the log of the device `id`.
pub open spec fn topics_of(id: u128) -> TopicsView {
    TopicsView {
        ping1d: topic_text(id, "ping1d"@),
        ping360: topic_text(id, "ping360"@),
        pointcloud: topic_text(id, "pointcloud"@),
        header: topic_text(id, "header"@),
    }
}

/// What a task needs before it records: the topics of its channels, and
/// the header of its log.
#[derive(Debug)]
pub struct TaskSetup {
    pub topics: Topics,
    pub header: RecordingHeader,
}

pub struct TaskSetupView {
    pub topics: TopicsView,
    pub header: RecordingHeaderView,
}

impl View for TaskSetup {
    type V = TaskSetupView;

    open spec fn view(&self) -> TaskSetupView {
        TaskSetupView { topics: self.topics@, header: self.header@ }
    }
}

pub open spec fn setup_view(setup: Result<TaskSetup, ManagerError>) -> Result<
    TaskSetupView,
    ManagerErrorView,
> {
    match setup {
        Ok(s) => Ok(s@),
        Err(e) => Err(e@),
    }
}

/// The setup of the task that records `id`, after the actor answered
/// `reply` to the request for a subscription.
pub open spec fn setup_of(
    recorder: Recorder,
    id: u128,
    device: DeviceInfoView,
    reply: Result<PingAnswerView, DeviceErrorView>,
) -> Result<TaskSetupView, ManagerErrorView> {
    match reply {
        Err(e) => Err(ManagerErrorView::DeviceError(e)),
        Ok(PingAnswerView::Subscriber) => if !recorder.sessions.contains_key(id) {
            Err(ManagerErrorView::Other(no_session(id)))
        } else {
            match header_of(device, recorder.sessions[id].start_time) {
                Some(header) => Ok(TaskSetupView { topics: topics_of(id), header }),
                None => Err(ManagerErrorView::Other(time_out_of_range())),
            }
        },
        Ok(_) => Err(ManagerErrorView::NoDevices),
    }
}

/// One record of a log.
#[derive(Debug)]
pub enum Record {
    /// The header of the log. It is written once, before any other record.
    Header(RecordingHeader),
    /// A message of the device as it was received at `timestamp`: its
    /// kind in words, and the message itself.
    Message { channel: Channel, timestamp: Timestamp, message_type: String, message: ProtocolMessage },
    /// The point cloud of a sweep.
    Cloud(PointCloud),
}

pub enum RecordView {
    Header(RecordingHeaderView),
    Message {
        channel: Channel,
        timestamp: Timestamp,
        message_type: Seq<char>,
        message: ProtocolMessageView,
    },
    Cloud(PointCloudView),
}

impl View for Record {
    type V = RecordView;

    open spec fn view(&self) -> RecordView {
        match self {
            Record::Header(header) => RecordView::Header(header@),
            Record::Message { channel, timestamp, message_type, message } => RecordView::Message {
                channel: *channel,
                timestamp: *timestamp,
                message_type: message_type@,
                message: message@,
            },
            Record::Cloud(cloud) => RecordView::Cloud(cloud@),
        }
    }
}

/// The channel that a record is written to.
pub open spec fn channel_of(record: RecordView) -> Channel {
    match record {
        RecordView::Header(_) => Channel::Header,
        RecordView::Message { channel, .. } => channel,
        RecordView::Cloud(_) => Channel::PointCloud,
    }
}

impl Record {
    /// The channel that this record is written to.
    pub fn channel(&self) -> (channel: Channel)
        ensures
            channel == channel_of(self@),
    {
        match self {
            Record::Header(_) => Channel::Header,
            Record::Message { channel, .. } => *channel,
            Record::Cloud(_) => Channel::PointCloud,
        }
    }
}

pub open spec fn records_view(list: Seq<Record>) -> Seq<RecordView> {
    list.map_values(|r: Record| r@)
}

/// The records of a sweep received at `now`: the message under the type
/// `message_type`, and the point cloud of the beam where the places fit
/// the samples.
pub open spec fn sweep_records(
    message_type: Seq<char>,
    message: ProtocolMessageView,
    data: Seq<u8>,
    positions: Seq<Position>,
    now: Timestamp,
) -> Seq<RecordView> {
    let logged = RecordView::Message {
        channel: Channel::Ping360,
        timestamp: now,
        message_type,
        message,
    };
    match point_cloud(data, positions, now) {
        Some(cloud) => seq![logged, RecordView::Cloud(cloud)],
        None => seq![logged],
    }
}

/// The records that a message gives which was received at `now` and
/// decoded to `decoded`. A message of no known kind gives none.
pub open spec fn records_of(
    message: ProtocolMessageView,
    decoded: TelemetryView,
    positions: Seq<Position>,
    now: Timestamp,
) -> Seq<RecordView> {
    match decoded {
        TelemetryView::AutoDeviceData(d) => sweep_records(
            "ping360_auto_device_data"@,
            message,
            d.data,
            positions,
            now,
        ),
        TelemetryView::DeviceData(d) => sweep_records(
            "ping360_transducer"@,
            message,
            d.data,
            positions,
            now,
        ),
        TelemetryView::Profile => seq![
            RecordView::Message {
                channel: Channel::Ping1D,
                timestamp: now,
                message_type: "ping1d_profile"@,
                message,
            },
        ],
        TelemetryView::Other => Seq::empty(),
    }
}

/// What happened to the task.
#[derive(Debug)]
pub enum TaskEvent {
    /// The actor answered the request for a subscription. `device` is
    /// what the fleet held of the device when the recording started.
    Subscribed { device: DeviceInfo, reply: Result<PingAnswer, DeviceError> },
    /// The task has done what it was told and is at the top of its loop.
    Ready,
    /// The task was woken while it waited.
    Woken,
    /// The subscription yielded something.
    Received(Received),
}

pub enum TaskEventView {
    Subscribed { device: DeviceInfoView, reply: Result<PingAnswerView, DeviceErrorView> },
    Ready,
    Woken,
    Received(ReceivedView),
}

impl View for TaskEvent {
    type V = TaskEventView;

    open spec fn view(&self) -> TaskEventView {
        match self {
            TaskEvent::Subscribed { device, reply } => TaskEventView::Subscribed {
                device: device@,
                reply: reply_view(*reply),
            },
            TaskEvent::Ready => TaskEventView::Ready,
            TaskEvent::Woken => TaskEventView::Woken,
            TaskEvent::Received(r) => TaskEventView::Received(r@),
        }
    }
}

/// What the task does next.
#[derive(Debug)]
pub enum TaskStep {
    /// Open the channels under these topics, write these records, in
    /// order, and come back to the top of the loop.
    Open { topics: Topics, records: Vec<Record> },
    /// Await what the subscription yields or a wake-up, whichever comes
    /// first.
    Receive,
    /// Write these records, in order, and come back to the top of the loop.
    Log(Vec<Record>),
    /// End, and write nothing more. The log is to be dropped if `open`
    /// says that it is still open; `failure`, where there is one, is why
    /// the task could not record.
    Finish { open: bool, failure: Option<ManagerError> },
}

pub enum TaskStepView {
    Open { topics: TopicsView, records: Seq<RecordView> },
    Receive,
    Log(Seq<RecordView>),
    Finish { open: bool, failure: Option<ManagerErrorView> },
}

impl View for TaskStep {
    type V = TaskStepView;

    open spec fn view(&self) -> TaskStepView {
        match self {
            TaskStep::Open { topics, records } => TaskStepView::Open {
                topics: topics@,
                records: records_view(records@),
            },
            TaskStep::Receive => TaskStepView::Receive,
            TaskStep::Log(list) => TaskStepView::Log(records_view(list@)),
            TaskStep::Finish { open, failure } => TaskStepView::Finish {
                open: *open,
                failure: match failure {
                    Some(e) => Some(e@),
                    None => None,
                },
            },
        }
    }
}

/// The end of the task that records `id`: the recorder forgets the
/// session and the log of `id`. The log is to be dropped where it is
/// still open.
pub open spec fn task_end(
    recorder: Recorder,
    id: u128,
    failure: Option<ManagerErrorView>,
) -> (Recorder, TaskStepView) {
    (
        purged(recorder, id),
        TaskStepView::Finish { open: recorder.writers.contains(id), failure },
    )
}

/// One round of the task that records `id`.
///
/// The task writes only while its session is active, and ends as soon as
/// it finds that it is not. With its subscription it opens its channels
/// and writes the header, once; without one it ends. At the top of its
/// loop, and when it is woken, it goes on to wait. A message that it
/// receives is written to a log that has its header, and ends the task
/// where the log has none. The end of the subscription ends the task.
pub open spec fn task_round(
    recorder: Recorder,
    id: u128,
    event: TaskEventView,
    positions: Seq<Position>,
    now: Timestamp,
) -> (Recorder, TaskStepView) {
    match event {
        TaskEventView::Subscribed { device, reply } => match setup_of(recorder, id, device, reply) {
            Ok(setup) => if records(recorder, id) && !recorder.headed.contains(id) {
                (
                    Recorder { headed: recorder.headed.insert(id), ..recorder },
                    TaskStepView::Open {
                        topics: setup.topics,
                        records: seq![RecordView::Header(setup.header)],
                    },
                )
            } else {
                task_end(recorder, id, None)
            },
            Err(e) => task_end(recorder, id, Some(e)),
        },
        TaskEventView::Ready => if records(recorder, id) {
            (recorder, TaskStepView::Receive)
        } else {
            task_end(recorder, id, None)
        },
        TaskEventView::Woken => if records(recorder, id) {
            (recorder, TaskStepView::Receive)
        } else {
            task_end(recorder, id, None)
        },
        TaskEventView::Received(ReceivedView::Message { message, decoded }) => if logs(
            recorder,
            id,
        ) {
            (recorder, TaskStepView::Log(records_of(message, decoded, positions, now)))
        } else {
            task_end(recorder, id, None)
        },
        TaskEventView::Received(ReceivedView::Closed(_)) => task_end(recorder, id, None),
    }
}

fn logged(channel: Channel, message_type: &str, message: ProtocolMessage, now: Timestamp) -> (record:
    Record)
    ensures
        record@ == (RecordView::Message {
            channel,
            timestamp: now,
            message_type: message_type@,
            message: message@,
        }),
{
    Record::Message {
        channel,
        timestamp: now,
        message_type: String::from_str(message_type),
        message,
    }
}

fn sweep(
    message_type: &str,
    message: ProtocolMessage,
    cloud: Option<PointCloud>,
    now: Timestamp,
) -> (list: Vec<Record>)
    ensures
        records_view(list@) == ({
            let first = RecordView::Message {
                channel: Channel::Ping360,
                timestamp: now,
                message_type: message_type@,
                message: message@,
            };
            match cloud_view(cloud) {
                Some(c) => seq![first, RecordView::Cloud(c)],
                None => seq![first],
            }
        }),
{
    let mut list: Vec<Record> = Vec::new();
    list.push(logged(Channel::Ping360, message_type, message, now));
    let ghost first = list@[0]@;
    match cloud {
        Some(c) => {
            list.push(Record::Cloud(c));
            assert(records_view(list@) =~= seq![first, RecordView::Cloud(c@)]);
        },
        None => {
            assert(records_view(list@) =~= seq![first]);
        },
    }
    list
}

/// The records that the message `message` gives, which was received at
/// `now` and decoded to `decoded`, with the sample `i` of a sweep at
/// `positions[i]`.
pub fn records_for(
    message: ProtocolMessage,
    decoded: Telemetry,
    positions: &Vec<Position>,
    now: Timestamp,
) -> (list: Vec<Record>)
    ensures
        records_view(list@) == records_of(message@, decoded@, positions@, now),
{
    match decoded {
        Telemetry::AutoDeviceData(data) => {
            let cloud = convert_to_point_cloud(&data, positions, now);
            sweep("ping360_auto_device_data", message, cloud, now)
        },
        Telemetry::DeviceData(data) => {
            let auto = auto_device_data(data);
            let cloud = convert_to_point_cloud(&auto, positions, now);
            sweep("ping360_transducer", message, cloud, now)
        },
        Telemetry::Profile => {
            let mut list: Vec<Record> = Vec::new();
            list.push(logged(Channel::Ping1D, "ping1d_profile", message, now));
            assert(records_view(list@) =~= records_of(message@, decoded@, positions@, now));
            list
        },
        Telemetry::Other => {
            let list: Vec<Record> = Vec::new();
            assert(records_view(list@) =~= Seq::<RecordView>::empty());
            list
        },
    }
}

/// The topics of the log of the device `id`.
pub fn topics(id: u128) -> (topics: Topics)
    ensures
        topics@ == topics_of(id),
{
    Topics {
        ping1d: device_topic(id, "ping1d"),
        ping360: device_topic(id, "ping360"),
        pointcloud: device_topic(id, "pointcloud"),
        header: device_topic(id, "header"),
    }
}

impl RecordingManager {
    /// Prepares the task that records `device_id`, once the actor has
    /// answered `reply` to the request for a subscription.
    pub fn task_setup(
        &self,
        device_id: u128,
        device: DeviceInfo,
        reply: Result<PingAnswer, DeviceError>,
    ) -> (setup: Result<TaskSetup, ManagerError>)
        ensures
            setup_view(setup) == setup_of(self@, device_id, device@, reply_view(reply)),
    {
        match reply {
            Err(e) => Err(ManagerError::DeviceError(e)),
            Ok(PingAnswer::Subscriber) => {
                let start = match self.get_recording_status(device_id) {
                    Ok(Some(session)) => session.start_time,
                    _ => {
                        let name = format_uuid(device_id);
                        let mut text = String::from_str("No recording session for device ");
                        text.append(name.as_str());
                        return Err(ManagerError::Other(text));
                    },
                };
                match recording_header(device, start) {
                    Some(header) => Ok(TaskSetup { topics: topics(device_id), header }),
                    None => Err(
                        ManagerError::Other(String::from_str("Recording time is out of range")),
                    ),
                }
            },
            Ok(_) => Err(ManagerError::NoDevices),
        }
    }

    /// The task that records `device_id` ends.
    fn end_task(&mut self, device_id: u128, failure: Option<ManagerError>) -> (step: TaskStep)
        requires
            old(self).wf(),
        ensures
            (final(self)@, step@) == task_end(
                old(self)@,
                device_id,
                match failure {
                    Some(e) => Some(e@),
                    None => None,
                },
            ),
            final(self).wf(),
    {
        let open = self.finish_recording(device_id);
        TaskStep::Finish { open, failure }
    }

    /// One round of the task that records `device_id`: what the task
    /// does after `event`. `positions` are the places of the samples of a
    /// sweep that was received, and `now` is the instant of the round.
    pub fn recording_task(
        &mut self,
        device_id: u128,
        event: TaskEvent,
        positions: &Vec<Position>,
        now: Timestamp,
    ) -> (step: TaskStep)
        requires
            old(self).wf(),
        ensures
            (final(self)@, step@) == task_round(old(self)@, device_id, event@, positions@, now),
            final(self).wf(),
    {
        match event {
            TaskEvent::Subscribed { device, reply } => {
                match self.task_setup(device_id, device, reply) {
                    Ok(setup) => {
                        if self.is_recording(device_id) && !self.has_header(device_id) {
                            self.header_written(device_id);
                            let TaskSetup { topics, header } = setup;
                            let mut records: Vec<Record> = Vec::new();
                            records.push(Record::Header(header));
                            assert(records_view(records@) =~= seq![RecordView::Header(header@)]);
                            TaskStep::Open { topics, records }
                        } else {
                            self.end_task(device_id, None)
                        }
                    },
                    Err(e) => self.end_task(device_id, Some(e)),
                }
            },
            TaskEvent::Ready => {
                if self.is_recording(device_id) {
                    TaskStep::Receive
                } else {
                    self.end_task(device_id, None)
                }
            },
            TaskEvent::Woken => {
                if self.is_recording(device_id) {
                    TaskStep::Receive
                } else {
                    self.end_task(device_id, None)
                }
            },
            TaskEvent::Received(Received::Message { message, decoded }) => {
                if self.is_logging(device_id) {
                    TaskStep::Log(records_for(message, decoded, positions, now))
                } else {
                    self.end_task(device_id, None)
                }
            },
            TaskEvent::Received(Received::Closed(_)) => self.end_task(device_id, None),
        }
    }
}

} // verus!
