use ping_viewer_next::device::devices::{
    AutoDeviceDataStruct, DeviceDataStruct, DeviceError, PingAnswer, PingError, PingRequest,
    ProtocolMessage, Received, Telemetry, UpgradeResult,
};
use ping_viewer_next::device::manager::{
    DeviceInfo, DeviceManager, DeviceSelection, DeviceStatus, ManagerError, SourceSelection,
    SourceUdpStruct,
};
use ping_viewer_next::device::recording::pointcloud::{
    auto_device_data, convert_to_point_cloud, Position, FLOAT32, NOISE_FLOOR, POINT_STRIDE, UINT8,
};
use ping_viewer_next::device::recording::recorder::RecordingManager;
use ping_viewer_next::device::recording::schemas::recording_header;
use ping_viewer_next::device::recording::session::{
    RecordingNext, RecordingOrder, RecordingPending, RecordingSession, RecordingTurn,
    StorageEvent, StorageFailure, StorageQuery, CHUNK_SIZE,
};
use ping_viewer_next::device::recording::task::{
    records_for, topics, Channel, Record, TaskEvent, TaskStep,
};
use ping_viewer_next::device::recording::text::{
    device_topic, file_in, frame, recording_file_name, Timestamp,
};
use ping_viewer_next::device::turn::{Event, Next, Order, Query};

const ID_TEXT: &str = "00000000-0000-0000-001e-10da679f8cee";
const ID: u128 = 0x001e_10da_679f_8cee;

fn source() -> SourceSelection {
    SourceSelection::UdpStream(SourceUdpStruct { ip: [192, 168, 0, 1], port: 9092 })
}

fn fleet(status: DeviceStatus) -> (DeviceManager, u128) {
    let mut manager = DeviceManager::new();
    let id = source().id();
    let mut turn = manager.create(source(), DeviceSelection::Ping360);
    loop {
        match turn.next {
            Next::Reply(outcome) => {
                outcome.unwrap();
                break;
            }
            Next::Wait { pending, query } => {
                let event = match query {
                    Query::Open { .. } => Event::Opened(Ok(())),
                    Query::Ask { request: PingRequest::GetSubscriber, .. } => {
                        if status == DeviceStatus::Running {
                            Event::Answered(Err(DeviceError::PingError(PingError::TimeoutError)))
                        } else {
                            Event::Answered(Ok(PingAnswer::Subscriber))
                        }
                    }
                    Query::Ask { .. } => {
                        Event::Answered(Ok(PingAnswer::UpgradeResult(UpgradeResult::Ping360)))
                    }
                };
                turn = manager.resume(pending, event);
            }
        }
    }
    if status == DeviceStatus::Stopped {
        manager.update_devices_status(&vec![id]);
    }
    (manager, id)
}

fn at(secs: i64) -> Timestamp {
    Timestamp { secs, nanos: 0 }
}

fn drive(
    recorder: &mut RecordingManager,
    manager: &DeviceManager,
    mut turn: RecordingTurn,
    disk: &dyn Fn(&StorageQuery) -> StorageEvent,
) -> (Vec<RecordingOrder>, Result<RecordingSession, ManagerError>) {
    let mut orders = Vec::new();
    loop {
        orders.append(&mut turn.orders);
        match turn.next {
            RecordingNext::Reply(outcome) => return (orders, outcome),
            RecordingNext::Wait { pending, query } => {
                let event = disk(&query);
                turn = recorder.resume(manager, pending, event);
            }
        }
    }
}

fn disk_works(query: &StorageQuery) -> StorageEvent {
    match query {
        StorageQuery::Create { .. } => StorageEvent::Created(Ok(())),
        StorageQuery::Close { .. } => StorageEvent::Closed(Ok(())),
    }
}

fn start(
    recorder: &mut RecordingManager,
    manager: &DeviceManager,
    id: u128,
    now: Timestamp,
) -> (Vec<RecordingOrder>, Result<RecordingSession, ManagerError>) {
    let turn = recorder.start_recording(manager, id, now);
    drive(recorder, manager, turn, &disk_works)
}

fn id_text(id: u128) -> String {
    uuid::Uuid::from_u128(id).to_string()
}

#[test]
fn the_text_of_an_identity_is_hyphenated_lower_hex() {
    assert_eq!(device_topic(ID, "ping1d"), format!("/device_{}/ping1d", ID_TEXT));
    let v = 0xa1a2a3a4b1b2c1c2d1d2d3d4d5d6d7d8u128;
    assert_eq!(
        device_topic(v, "header"),
        "/device_a1a2a3a4-b1b2-c1c2-d1d2-d3d4d5d6d7d8/header"
    );
    assert_eq!(device_topic(0, ""), "/device_00000000-0000-0000-0000-000000000000/");
    assert_eq!(
        device_topic(u128::MAX, "x"),
        "/device_ffffffff-ffff-ffff-ffff-ffffffffffff/x"
    );
}

#[test]
fn the_text_of_an_identity_follows_its_digits() {
    for id in [1u128, 0x0123456789abcdef0123456789abcdef, 1 << 127, 9 << 60] {
        let mut expected = String::new();
        for k in 0..32u32 {
            if k == 8 || k == 12 || k == 16 || k == 20 {
                expected.push('-');
            }
            let digit = ((id >> (4 * (31 - k))) & 15) as u32;
            expected.push(std::char::from_digit(digit, 16).unwrap());
        }
        assert_eq!(recording_file_name(id, "s"), format!("device_{}_s.mcap", expected));
    }
}

#[test]
fn the_topics_of_a_log() {
    let t = topics(ID);
    assert_eq!(t.ping1d, format!("/device_{}/ping1d", ID_TEXT));
    assert_eq!(t.ping360, format!("/device_{}/ping360", ID_TEXT));
    assert_eq!(t.pointcloud, format!("/device_{}/pointcloud", ID_TEXT));
    assert_eq!(t.header, format!("/device_{}/header", ID_TEXT));
}

#[test]
fn the_path_of_a_log_lies_in_the_directory() {
    assert_eq!(file_in("recordings", "a.mcap"), "recordings/a.mcap");
    assert_eq!(file_in("recordings/", "a.mcap"), "recordings/a.mcap");
    assert_eq!(file_in("", "a.mcap"), "a.mcap");
    assert_eq!(file_in("/", "a.mcap"), "/a.mcap");
    assert_eq!(frame("a", "b", "c"), "abc");
    assert_eq!(recording_file_name(ID, "20150515_000000"), format!("device_{}_20150515_000000.mcap", ID_TEXT));
}

#[test]
fn a_recording_starts_with_a_log_named_by_device_and_instant() {
    let (manager, id) = fleet(DeviceStatus::Broadcasting);
    let mut recorder = RecordingManager::new("recordings".to_string());
    let turn = recorder.start_recording(&manager, id, at(1431648000));
    let expected = format!("recordings/device_{}_20150515_000000.mcap", id_text(id));
    assert!(turn.orders.is_empty());
    match &turn.next {
        RecordingNext::Wait {
            pending: RecordingPending::Creating { session, device },
            query: StorageQuery::Create { device_id, directory, file, chunk_size },
        } => {
            assert_eq!(*device_id, id);
            assert_eq!(directory, "recordings");
            assert_eq!(file, &expected);
            assert_eq!(*chunk_size, CHUNK_SIZE);
            assert_eq!(CHUNK_SIZE, 1024 * 768);
            assert_eq!(session.file_path, expected);
            assert!(session.is_active);
            assert_eq!(session.device_id, id);
            assert_eq!(session.start_time, at(1431648000));
            assert_eq!(session.device_type, DeviceSelection::Ping360);
            assert_eq!(device.id, id);
            assert_eq!(device.status, DeviceStatus::Broadcasting);
        }
        other => panic!("unexpected {:?}", other),
    }
    assert!(matches!(recorder.get_recording_status(id), Ok(None)));
    let (orders, outcome) = drive(&mut recorder, &manager, turn, &disk_works);
    let session = outcome.unwrap();
    assert_eq!(session.file_path, expected);
    assert!(matches!(&orders[0], RecordingOrder::Announce(s) if s.is_active && s.device_id == id));
    assert!(matches!(&orders[1], RecordingOrder::Record { handler, session, device }
        if handler.device_id == id && session.file_path == expected && device.id == id));
    assert_eq!(orders.len(), 2);
    assert!(recorder.is_recording(id));
    assert!(matches!(recorder.get_recording_status(id), Ok(Some(s)) if s.is_active));
    assert_eq!(recorder.get_all_recording_status().len(), 1);
}

#[test]
fn a_running_device_can_be_recorded_and_a_stopped_one_cannot() {
    let (manager, id) = fleet(DeviceStatus::Running);
    let mut recorder = RecordingManager::new("r".to_string());
    assert!(start(&mut recorder, &manager, id, at(0)).1.is_ok());
    let (manager, id) = fleet(DeviceStatus::Stopped);
    let mut recorder = RecordingManager::new("r".to_string());
    assert!(matches!(
        start(&mut recorder, &manager, id, at(0)).1,
        Err(ManagerError::DeviceStatus(DeviceStatus::Stopped, i)) if i == id
    ));
    assert!(matches!(
        start(&mut recorder, &manager, 5, at(0)).1,
        Err(ManagerError::DeviceNotExist(5))
    ));
    assert!(recorder.get_all_recording_status().is_empty());
}

#[test]
fn a_second_start_fails_while_the_first_stays_active() {
    let (manager, id) = fleet(DeviceStatus::Broadcasting);
    let mut recorder = RecordingManager::new("recordings".to_string());
    let first = start(&mut recorder, &manager, id, at(1431648000)).1.unwrap();
    let (orders, second) = start(&mut recorder, &manager, id, at(1431648100));
    assert!(orders.is_empty());
    assert!(matches!(second, Err(ManagerError::Other(w))
        if w == format!("Device {} is already recording", id_text(id))));
    assert!(matches!(recorder.get_recording_status(id), Ok(Some(s))
        if s.is_active && s.file_path == first.file_path));

    let turn = recorder.stop_recording(id);
    assert!(matches!(&turn.next, RecordingNext::Wait {
        pending: RecordingPending::Closing { session },
        query: StorageQuery::Close { device_id },
    } if !session.is_active && *device_id == id));
    let (orders, stopped) = drive(&mut recorder, &manager, turn, &disk_works);
    assert!(!stopped.unwrap().is_active);
    assert!(matches!(&orders[..], [RecordingOrder::Wake { device_id }, RecordingOrder::Announce(s)]
        if *device_id == id && !s.is_active));
    assert!(!recorder.is_recording(id));

    // The session is inactive and not yet forgotten: a start is still refused.
    assert!(start(&mut recorder, &manager, id, at(1431648100)).1.is_err());

    // The task sees the inactive session at the top of its loop and ends.
    let step = recorder.recording_task(id, TaskEvent::Ready, &vec![], at(0));
    assert!(matches!(step, TaskStep::Finish { open: false, failure: None }));
    assert!(matches!(recorder.get_recording_status(id), Ok(None)));

    let again = start(&mut recorder, &manager, id, at(1431648100)).1.unwrap();
    assert!(again.is_active);
    assert_ne!(again.file_path, first.file_path);
    assert_eq!(
        again.file_path,
        format!("recordings/device_{}_20150515_000140.mcap", id_text(id))
    );
}

#[test]
fn a_log_is_closed_once() {
    let (manager, id) = fleet(DeviceStatus::Broadcasting);
    let mut recorder = RecordingManager::new("r".to_string());
    start(&mut recorder, &manager, id, at(0)).1.unwrap();
    let turn = recorder.stop_recording(id);
    assert!(matches!(&turn.orders[..], [RecordingOrder::Wake { device_id }] if *device_id == id));
    assert!(matches!(turn.next, RecordingNext::Wait { query: StorageQuery::Close { .. }, .. }));
    let again = recorder.stop_recording(id);
    assert!(matches!(&again.orders[..], [RecordingOrder::Wake { .. }, RecordingOrder::Announce(s)]
        if !s.is_active));
    assert!(matches!(again.next, RecordingNext::Reply(Ok(s)) if !s.is_active));
    assert!(!recorder.finish_recording(id));
}

#[test]
fn a_stop_without_a_session_fails() {
    let mut recorder = RecordingManager::new("r".to_string());
    let turn = recorder.stop_recording(ID);
    assert!(matches!(turn.next, RecordingNext::Reply(Err(ManagerError::Other(w)))
        if w == format!("No recording session for device {}", ID_TEXT)));
}

#[test]
fn the_failures_of_the_disk_fail_the_request_in_their_words() {
    let (manager, id) = fleet(DeviceStatus::Broadcasting);
    let mut recorder = RecordingManager::new("r".to_string());
    let turn = recorder.start_recording(&manager, id, at(0));
    let (_, outcome) = drive(&mut recorder, &manager, turn, &|_| {
        StorageEvent::Created(Err(StorageFailure::Directory("denied".to_string())))
    });
    assert!(matches!(outcome, Err(ManagerError::Other(w))
        if w == "Failed to create recording directory: denied"));
    let turn = recorder.start_recording(&manager, id, at(0));
    let (_, outcome) = drive(&mut recorder, &manager, turn, &|_| {
        StorageEvent::Created(Err(StorageFailure::File("exists".to_string())))
    });
    assert!(matches!(outcome, Err(ManagerError::Other(w)) if w == "Failed to create MCAP file: exists"));
    assert!(recorder.get_all_recording_status().is_empty());

    start(&mut recorder, &manager, id, at(0)).1.unwrap();
    let turn = recorder.stop_recording(id);
    let (orders, outcome) = drive(&mut recorder, &manager, turn, &|_| {
        StorageEvent::Closed(Err("full".to_string()))
    });
    assert!(matches!(&orders[..], [RecordingOrder::Wake { device_id }] if *device_id == id));
    assert!(matches!(outcome, Err(ManagerError::Other(w)) if w == "Failed to close MCAP writer: full"));
    assert!(!recorder.is_recording(id));

    let turn = recorder.start_recording(&manager, 1, at(0));
    assert!(matches!(turn.next, RecordingNext::Reply(Err(ManagerError::DeviceNotExist(1)))));
    let pending = RecordingPending::Closing {
        session: RecordingSession {
            device_id: id,
            file_path: String::new(),
            is_active: false,
            start_time: at(0),
            device_type: DeviceSelection::Common,
        },
    };
    let turn = recorder.resume(&manager, pending, StorageEvent::Created(Ok(())));
    assert!(matches!(turn.next, RecordingNext::Reply(Err(ManagerError::Other(w)))
        if w == "Unexpected event for the pending recording request"));
}

#[test]
fn an_instant_without_a_text_is_refused() {
    let (manager, id) = fleet(DeviceStatus::Broadcasting);
    let recorder = RecordingManager::new("r".to_string());
    let turn = recorder.start_recording(&manager, id, at(i64::MAX));
    assert!(matches!(turn.next, RecordingNext::Reply(Err(ManagerError::Other(w)))
        if w == "Recording time is out of range"));
}

#[test]
fn a_log_that_arrives_for_a_taken_device_is_dropped() {
    let (manager, id) = fleet(DeviceStatus::Broadcasting);
    let mut recorder = RecordingManager::new("r".to_string());
    let late = recorder.start_recording(&manager, id, at(5));
    start(&mut recorder, &manager, id, at(0)).1.unwrap();
    let (orders, outcome) = drive(&mut recorder, &manager, late, &disk_works);
    assert!(matches!(&orders[..], [RecordingOrder::Discard { device_id }] if *device_id == id));
    assert!(outcome.is_err());
    assert_eq!(recorder.get_all_recording_status().len(), 1);
}

#[test]
fn a_start_for_a_device_that_stopped_meanwhile_fails_and_leaves_its_session() {
    let (mut manager, id) = fleet(DeviceStatus::Broadcasting);
    let mut recorder = RecordingManager::new("r".to_string());
    let turn = recorder.start_recording(&manager, id, at(0));
    manager.update_devices_status(&vec![id]);
    let (orders, outcome) = drive(&mut recorder, &manager, turn, &disk_works);
    assert!(matches!(outcome, Err(ManagerError::DeviceStatus(DeviceStatus::Stopped, _))));
    assert!(matches!(&orders[..], [RecordingOrder::Announce(_)]));
    assert!(recorder.is_recording(id));
}

#[test]
fn the_task_is_set_up_with_topics_and_header() {
    let (manager, id) = fleet(DeviceStatus::Broadcasting);
    let mut recorder = RecordingManager::new("r".to_string());
    let device = || match manager.get_device(id) {
        Ok(d) => d.info(),
        Err(e) => panic!("{:?}", e),
    };
    start(&mut recorder, &manager, id, at(1431648000)).1.unwrap();
    let setup = recorder.task_setup(id, device(), Ok(PingAnswer::Subscriber)).unwrap();
    assert_eq!(setup.topics.ping360, format!("/device_{}/ping360", id_text(id)));
    assert_eq!(setup.header.version, "1.0");
    assert_eq!(setup.header.file_format, "mcap");
    assert_eq!(setup.header.device_info.device_id, id_text(id));
    assert_eq!(setup.header.device_info.start_time, "2015-05-15T00:00:00+00:00");
    assert_eq!(setup.header.device_info.device_properties.id, id);
    assert!(matches!(
        recorder.task_setup(id, device(), Err(DeviceError::PingError(PingError::JoinError))),
        Err(ManagerError::DeviceError(_))
    ));
    assert!(matches!(
        recorder.task_setup(id, device(), Ok(PingAnswer::NotAssigned)),
        Err(ManagerError::NoDevices)
    ));
    assert!(matches!(
        recorder.task_setup(9, device(), Ok(PingAnswer::Subscriber)),
        Err(ManagerError::Other(_))
    ));
    assert!(recording_header(device(), at(i64::MAX)).is_none());
    let header = recording_header(device(), Timestamp { secs: 1, nanos: 500_000_000 }).unwrap();
    assert_eq!(header.device_info.start_time, "1970-01-01T00:00:01.500+00:00");
}

fn beam(data: Vec<u8>) -> AutoDeviceDataStruct {
    AutoDeviceDataStruct {
        mode: 1,
        gain_setting: 0,
        angle: 100,
        transmit_duration: 5,
        sample_period: 80,
        transmit_frequency: 740,
        start_angle: 0,
        stop_angle: 399,
        num_steps: 1,
        delay: 0,
        number_of_samples: data.len() as u16,
        data_length: data.len() as u16,
        data,
    }
}

/// The place of every sample of a beam, on a sonar that looks along the plane.
fn places(angle: u16, sample_period: u16, samples: usize) -> Vec<(f32, f32)> {
    let pi = std::f32::consts::PI;
    let angle_rad = (angle as f32 * pi / 200.0) - pi;
    let per_sample = (sample_period as f32 * 25e-9 * 1500.0) / 2.0;
    (0..samples)
        .map(|i| {
            let distance = (i as f32 + 0.5) * per_sample;
            (distance * angle_rad.cos(), distance * angle_rad.sin())
        })
        .collect()
}

fn positions(places: &[(f32, f32)]) -> Vec<Position> {
    places.iter().map(|(x, y)| Position { x: x.to_bits(), y: y.to_bits(), z: 0f32.to_bits() }).collect()
}

#[test]
fn the_point_cloud_holds_the_echoes_above_the_noise() {
    let data = beam(vec![0, 0, 10, 200, 3]);
    let at_places = places(data.angle, data.sample_period, 5);
    let cloud = convert_to_point_cloud(&data, &positions(&at_places), Timestamp { secs: 7, nanos: 9 }).unwrap();
    assert_eq!(NOISE_FLOOR, 5);
    assert_eq!(POINT_STRIDE, 16);
    assert_eq!(cloud.point_stride, 16);
    assert_eq!(cloud.frame_id, "device");
    assert_eq!(cloud.timestamp.sec, 7);
    assert_eq!(cloud.timestamp.nsec, 9);
    assert_eq!(cloud.data.len(), 32);
    assert_eq!(cloud.data.len() % cloud.point_stride as usize, 0);
    let mut expected = Vec::new();
    for (i, intensity) in [(2usize, 10u8), (3, 200)] {
        let (x, y) = at_places[i];
        expected.extend_from_slice(&x.to_le_bytes());
        expected.extend_from_slice(&y.to_le_bytes());
        expected.extend_from_slice(&0f32.to_le_bytes());
        expected.extend_from_slice(&[intensity, 0, 0, 0]);
    }
    assert_eq!(cloud.data, expected);
    let x = f32::from_le_bytes([cloud.data[0], cloud.data[1], cloud.data[2], cloud.data[3]]);
    assert_eq!(x, at_places[2].0);
    assert_eq!(cloud.data[12], 10);
    assert_eq!(cloud.data[28], 200);

    let fields: Vec<(String, u32, i32)> =
        cloud.fields.iter().map(|f| (f.name.clone(), f.offset, f.numeric_type)).collect();
    assert_eq!(
        fields,
        vec![
            ("x".to_string(), 0, FLOAT32),
            ("y".to_string(), 4, FLOAT32),
            ("z".to_string(), 8, FLOAT32),
            ("intensity".to_string(), 12, UINT8),
        ]
    );
    assert_eq!((FLOAT32, UINT8), (7, 1));
}

#[test]
fn the_noise_floor_is_kept_and_what_lies_below_is_dropped() {
    let data = beam(vec![4, 5, 6]);
    let p = vec![
        Position { x: 1, y: 2, z: 3 },
        Position { x: 0x01020304, y: 0xa0b0c0d0, z: 0xffffffff },
        Position { x: 256, y: 65536, z: 16777216 },
    ];
    let cloud = convert_to_point_cloud(&data, &p, Timestamp { secs: 0, nanos: 0 }).unwrap();
    assert_eq!(
        cloud.data,
        vec![
            4, 3, 2, 1, 0xd0, 0xc0, 0xb0, 0xa0, 255, 255, 255, 255, 5, 0, 0, 0, //
            0, 1, 0, 0, 0, 0, 1, 0, 0, 0, 0, 1, 6, 0, 0, 0,
        ]
    );
    let silent = convert_to_point_cloud(&beam(vec![0, 4]), &p[..2].to_vec(), Timestamp { secs: 0, nanos: 0 }).unwrap();
    assert!(silent.data.is_empty());
    let empty = convert_to_point_cloud(&beam(vec![]), &vec![], Timestamp { secs: 0, nanos: 0 }).unwrap();
    assert!(empty.data.is_empty());
}

#[test]
fn there_is_no_cloud_where_the_places_do_not_fit_the_samples() {
    let data = beam(vec![9, 9]);
    assert!(convert_to_point_cloud(&data, &vec![], Timestamp { secs: 0, nanos: 0 }).is_none());
    assert!(convert_to_point_cloud(&data, &vec![Position { x: 0, y: 0, z: 0 }; 3], Timestamp { secs: 0, nanos: 0 }).is_none());
}

#[test]
fn the_seconds_of_a_cloud_are_the_low_bits_of_the_instant() {
    let data = beam(vec![]);
    let cloud = convert_to_point_cloud(&data, &vec![], Timestamp { secs: (1i64 << 32) + 5, nanos: 1 }).unwrap();
    assert_eq!(cloud.timestamp.sec, 5);
    let cloud = convert_to_point_cloud(&data, &vec![], Timestamp { secs: -1, nanos: 1 }).unwrap();
    assert_eq!(cloud.timestamp.sec, u32::MAX);
}

fn requested() -> DeviceDataStruct {
    DeviceDataStruct {
        mode: 1,
        gain_setting: 2,
        angle: 300,
        transmit_duration: 4,
        sample_period: 5,
        transmit_frequency: 6,
        number_of_samples: 2,
        data_length: 9,
        data: vec![50, 1],
    }
}

#[test]
fn sweep_data_sent_on_request_counts_as_one_step_of_a_full_scan() {
    let auto = auto_device_data(requested());
    assert_eq!(
        (auto.mode, auto.gain_setting, auto.angle, auto.transmit_duration, auto.sample_period, auto.transmit_frequency),
        (1, 2, 300, 4, 5, 6)
    );
    assert_eq!((auto.start_angle, auto.stop_angle, auto.num_steps, auto.delay), (0, 399, 1, 0));
    assert_eq!((auto.number_of_samples, auto.data_length), (2, 2));
    assert_eq!(auto.data, vec![50, 1]);
}

fn sent(message_id: u16) -> ProtocolMessage {
    ProtocolMessage { message_id, payload: vec![7, 8, 9] }
}

fn holds(record: &Record, on: Channel, kind: &str, now: Timestamp, message_id: u16) -> bool {
    matches!(record, Record::Message { channel, timestamp, message_type, message }
        if *channel == on && *timestamp == now && message_type == kind
            && message.message_id == message_id && message.payload == vec![7, 8, 9])
        && record.channel() == on
}

#[test]
fn every_kind_of_message_gives_its_records() {
    let p = vec![Position { x: 1, y: 1, z: 0 }; 2];
    let now = Timestamp { secs: 12, nanos: 34 };
    let list = records_for(sent(2301), Telemetry::AutoDeviceData(beam(vec![9, 1])), &p, now);
    assert!(holds(&list[0], Channel::Ping360, "ping360_auto_device_data", now, 2301));
    assert!(matches!(&list[1], Record::Cloud(c)
        if c.data.len() == 16 && c.timestamp.sec == 12 && c.timestamp.nsec == 34));
    assert_eq!(list[1].channel(), Channel::PointCloud);
    assert_eq!(list.len(), 2);
    let list = records_for(sent(2300), Telemetry::DeviceData(requested()), &p, now);
    assert!(holds(&list[0], Channel::Ping360, "ping360_transducer", now, 2300));
    assert!(matches!(&list[1], Record::Cloud(c) if c.data[12] == 50 && c.data.len() == 16));
    let list = records_for(sent(2300), Telemetry::DeviceData(requested()), &vec![], now);
    assert_eq!(list.len(), 1);
    let list = records_for(sent(1300), Telemetry::Profile, &vec![], now);
    assert_eq!(list.len(), 1);
    assert!(holds(&list[0], Channel::Ping1D, "ping1d_profile", now, 1300));
    assert!(!holds(&list[0], Channel::Ping1D, "ping1d_profile", at(0), 1300));
    assert!(records_for(sent(5), Telemetry::Other, &p, now).is_empty());
}

fn device_of(manager: &DeviceManager, id: u128) -> DeviceInfo {
    match manager.get_device(id) {
        Ok(d) => d.info(),
        Err(e) => panic!("{:?}", e),
    }
}

fn subscribed(manager: &DeviceManager, id: u128) -> TaskEvent {
    TaskEvent::Subscribed { device: device_of(manager, id), reply: Ok(PingAnswer::Subscriber) }
}

fn profile() -> TaskEvent {
    TaskEvent::Received(Received::Message { message: sent(1300), decoded: Telemetry::Profile })
}

#[test]
fn the_task_writes_the_header_first() {
    let (manager, id) = fleet(DeviceStatus::Broadcasting);
    let mut recorder = RecordingManager::new("r".to_string());
    start(&mut recorder, &manager, id, at(1431648000)).1.unwrap();
    let step = recorder.recording_task(id, subscribed(&manager, id), &vec![], at(1431648001));
    match step {
        TaskStep::Open { topics, records } => {
            assert_eq!(topics.header, format!("/device_{}/header", id_text(id)));
            assert_eq!(topics.ping1d, format!("/device_{}/ping1d", id_text(id)));
            assert_eq!(records.len(), 1);
            assert_eq!(records[0].channel(), Channel::Header);
            match &records[0] {
                Record::Header(header) => {
                    assert_eq!(header.version, "1.0");
                    assert_eq!(header.file_format, "mcap");
                    assert_eq!(header.device_info.device_id, id_text(id));
                    assert_eq!(header.device_info.start_time, "2015-05-15T00:00:00+00:00");
                    assert_eq!(header.device_info.device_properties.id, id);
                }
                other => panic!("unexpected {:?}", other),
            }
        }
        other => panic!("unexpected {:?}", other),
    }
    assert!(recorder.is_recording(id));
    assert!(recorder.has_header(id));
    assert!(recorder.is_logging(id));
    assert!(matches!(recorder.recording_task(id, TaskEvent::Ready, &vec![], at(0)), TaskStep::Receive));
    let step = recorder.recording_task(id, profile(), &vec![], at(0));
    assert!(matches!(step, TaskStep::Log(list) if list.len() == 1));
}

#[test]
fn no_message_is_written_to_a_log_without_its_header() {
    let (manager, id) = fleet(DeviceStatus::Broadcasting);
    let mut recorder = RecordingManager::new("r".to_string());
    start(&mut recorder, &manager, id, at(0)).1.unwrap();
    assert!(!recorder.has_header(id));
    assert!(!recorder.is_logging(id));
    let step = recorder.recording_task(id, profile(), &vec![], at(0));
    assert!(matches!(step, TaskStep::Finish { open: true, failure: None }));
    assert!(matches!(recorder.get_recording_status(id), Ok(None)));
}

#[test]
fn the_header_is_written_once() {
    let (manager, id) = fleet(DeviceStatus::Broadcasting);
    let mut recorder = RecordingManager::new("r".to_string());
    start(&mut recorder, &manager, id, at(0)).1.unwrap();
    let step = recorder.recording_task(id, subscribed(&manager, id), &vec![], at(0));
    assert!(matches!(step, TaskStep::Open { records, .. } if records.len() == 1));
    let step = recorder.recording_task(id, subscribed(&manager, id), &vec![], at(0));
    assert!(matches!(step, TaskStep::Finish { open: true, failure: None }));
    assert!(!recorder.has_header(id));

    // The next log of the device gets its own header.
    start(&mut recorder, &manager, id, at(60)).1.unwrap();
    assert!(!recorder.has_header(id));
    let step = recorder.recording_task(id, subscribed(&manager, id), &vec![], at(60));
    assert!(matches!(step, TaskStep::Open { records, .. }
        if matches!(&records[..], [Record::Header(_)])));
}

#[test]
fn a_task_without_a_subscription_ends_with_the_failure() {
    let (manager, id) = fleet(DeviceStatus::Broadcasting);
    let mut recorder = RecordingManager::new("r".to_string());
    start(&mut recorder, &manager, id, at(0)).1.unwrap();
    let event = TaskEvent::Subscribed {
        device: device_of(&manager, id),
        reply: Err(DeviceError::PingError(PingError::JoinError)),
    };
    let step = recorder.recording_task(id, event, &vec![], at(0));
    assert!(matches!(
        step,
        TaskStep::Finish { open: true, failure: Some(ManagerError::DeviceError(_)) }
    ));
    assert!(matches!(recorder.get_recording_status(id), Ok(None)));

    start(&mut recorder, &manager, id, at(0)).1.unwrap();
    let event = TaskEvent::Subscribed {
        device: device_of(&manager, id),
        reply: Ok(PingAnswer::NotAssigned),
    };
    let step = recorder.recording_task(id, event, &vec![], at(0));
    assert!(matches!(step, TaskStep::Finish { open: true, failure: Some(ManagerError::NoDevices) }));

    let step = recorder.recording_task(9, subscribed(&manager, id), &vec![], at(0));
    assert!(matches!(step, TaskStep::Finish { open: false, failure: Some(ManagerError::Other(w)) }
        if w == format!("No recording session for device {}", id_text(9))));
}

#[test]
fn a_stop_wakes_the_task_and_the_task_ends_at_once() {
    let (manager, id) = fleet(DeviceStatus::Broadcasting);
    let mut recorder = RecordingManager::new("r".to_string());
    start(&mut recorder, &manager, id, at(0)).1.unwrap();
    assert!(matches!(recorder.recording_task(id, TaskEvent::Ready, &vec![], at(0)), TaskStep::Receive));
    assert!(matches!(recorder.recording_task(id, TaskEvent::Woken, &vec![], at(0)), TaskStep::Receive));
    let turn = recorder.stop_recording(id);
    assert!(matches!(&turn.orders[0], RecordingOrder::Wake { device_id } if *device_id == id));
    drive(&mut recorder, &manager, turn, &disk_works).1.unwrap();
    assert!(matches!(recorder.get_recording_status(id), Ok(Some(s)) if !s.is_active));
    let step = recorder.recording_task(id, TaskEvent::Woken, &vec![], at(0));
    assert!(matches!(step, TaskStep::Finish { open: false, failure: None }));
    assert!(matches!(recorder.get_recording_status(id), Ok(None)));
}

#[test]
fn nothing_is_written_after_a_stop() {
    let (manager, id) = fleet(DeviceStatus::Broadcasting);
    for late in [0, 1] {
        let mut recorder = RecordingManager::new("r".to_string());
        start(&mut recorder, &manager, id, at(0)).1.unwrap();
        let turn = recorder.stop_recording(id);
        drive(&mut recorder, &manager, turn, &disk_works).1.unwrap();
        let event = if late == 0 { profile() } else { subscribed(&manager, id) };
        let step = recorder.recording_task(id, event, &vec![], at(0));
        assert!(matches!(step, TaskStep::Finish { open: false, failure: None }));
        assert!(recorder.get_all_recording_status().is_empty());
    }
}

#[test]
fn the_deletion_of_a_device_ends_its_recording_at_once() {
    let (mut manager, id) = fleet(DeviceStatus::Broadcasting);
    let mut recorder = RecordingManager::new("r".to_string());
    start(&mut recorder, &manager, id, at(0)).1.unwrap();
    let step = recorder.recording_task(id, subscribed(&manager, id), &vec![], at(0));
    assert!(matches!(step, TaskStep::Open { .. }));
    let step = recorder.recording_task(id, profile(), &vec![], at(0));
    assert!(matches!(step, TaskStep::Log(list) if list.len() == 1));

    let turn = manager.delete(id);
    assert_eq!(turn.orders.len(), 1);
    let orders = recorder.observe(&turn.orders[0]);
    assert!(matches!(&orders[..], [RecordingOrder::Wake { device_id }] if *device_id == id));
    assert!(!recorder.is_recording(id));
    assert!(matches!(recorder.get_recording_status(id), Ok(Some(s)) if !s.is_active));

    // A message that the subscription still held is not written.
    let step = recorder.recording_task(id, profile(), &vec![], at(0));
    assert!(matches!(step, TaskStep::Finish { open: true, failure: None }));
    assert!(matches!(recorder.get_recording_status(id), Ok(None)));
    assert!(recorder.device_deleted(id).is_empty());
}

#[test]
fn the_recorder_follows_only_the_orders_that_end_a_device() {
    let (manager, id) = fleet(DeviceStatus::Broadcasting);
    let mut recorder = RecordingManager::new("r".to_string());
    start(&mut recorder, &manager, id, at(0)).1.unwrap();
    for order in [
        Order::Spawn { id },
        Order::Discard { id },
        Order::StopForwarding { id },
        Order::Forward { id, device_type: DeviceSelection::Ping360 },
        Order::Report(ManagerError::NoDevices),
        Order::Abort { id: id ^ 1, forwarding: true },
    ] {
        assert!(recorder.observe(&order).is_empty());
        assert!(recorder.is_recording(id));
    }
    let orders = recorder.observe(&Order::Abort { id, forwarding: false });
    assert_eq!(orders.len(), 1);
    assert!(!recorder.is_recording(id));
}

#[test]
fn every_session_is_listed() {
    let mut manager = DeviceManager::new();
    let mut recorder = RecordingManager::new("r".to_string());
    let mut ids = Vec::new();
    for last in 1..=4u8 {
        let source = SourceSelection::UdpStream(SourceUdpStruct { ip: [10, 0, 0, last], port: 1 });
        let id = source.id();
        let mut turn = manager.create(source, DeviceSelection::Common);
        loop {
            match turn.next {
                Next::Reply(outcome) => {
                    outcome.unwrap();
                    break;
                }
                Next::Wait { pending, query } => {
                    let event = match query {
                        Query::Open { .. } => Event::Opened(Ok(())),
                        Query::Ask { .. } => Event::Answered(Ok(PingAnswer::Subscriber)),
                    };
                    turn = manager.resume(pending, event);
                }
            }
        }
        start(&mut recorder, &manager, id, at(0)).1.unwrap();
        ids.push(id);
    }
    let listed = recorder.get_all_recording_status();
    assert_eq!(listed.len(), 4);
    for id in ids {
        assert_eq!(listed.iter().filter(|s| s.device_id == id).count(), 1);
    }
}

#[test]
fn the_task_ends_when_its_subscription_ends() {
    let (manager, id) = fleet(DeviceStatus::Broadcasting);
    let mut recorder = RecordingManager::new("r".to_string());
    start(&mut recorder, &manager, id, at(0)).1.unwrap();
    let step = recorder.recording_task(id, subscribed(&manager, id), &vec![], at(0));
    assert!(matches!(step, TaskStep::Open { .. }));
    assert!(matches!(recorder.recording_task(id, TaskEvent::Ready, &vec![], at(0)), TaskStep::Receive));
    let step = recorder.recording_task(id, profile(), &vec![], at(0));
    assert!(matches!(step, TaskStep::Log(list) if list.len() == 1));
    let step = recorder.recording_task(
        id,
        TaskEvent::Received(Received::Closed("closed".to_string())),
        &vec![],
        at(0),
    );
    assert!(matches!(step, TaskStep::Finish { open: true, failure: None }));
    assert!(matches!(recorder.get_recording_status(id), Ok(None)));
    assert!(matches!(
        recorder.recording_task(id, TaskEvent::Ready, &vec![], at(0)),
        TaskStep::Finish { open: false, failure: None }
    ));
}
