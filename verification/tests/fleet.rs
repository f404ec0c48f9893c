use ping_viewer_next::device::devices::{
    ContinuousStartStruct, ContinuousStopStruct, DeviceActorHandler, DeviceError, Ping1DRequest,
    PingAnswer, PingError, PingRequest, UpgradeResult,
};
use ping_viewer_next::device::manager::{
    Answer, CreateStruct, DeviceInfo, DeviceManager, DeviceSelection, DeviceStatus, ManagerError,
    Request, SourceSelection, SourceSerialStruct, SourceUdpStruct,
};
use ping_viewer_next::device::turn::{Event, Next, Order, Pending, Query, Turn};

fn udp(last: u8) -> SourceSelection {
    SourceSelection::UdpStream(SourceUdpStruct { ip: [192, 168, 0, last], port: 9092 })
}

fn serial() -> SourceSelection {
    SourceSelection::SerialStream(SourceSerialStruct {
        path: "/dev/ttyUSB0".to_string(),
        baudrate: 115200,
    })
}

fn timeout() -> DeviceError {
    DeviceError::PingError(PingError::TimeoutError)
}

/// Drives a turn to its reply, answering every query with `answer`.
fn drive(
    manager: &mut DeviceManager,
    mut turn: Turn,
    answer: &dyn Fn(&Query) -> Event,
) -> (Vec<Order>, Result<Answer, ManagerError>) {
    let mut orders = Vec::new();
    loop {
        orders.append(&mut turn.orders);
        match turn.next {
            Next::Reply(outcome) => return (orders, outcome),
            Next::Wait { pending, query } => {
                let event = answer(&query);
                turn = manager.resume(pending, event);
            }
        }
    }
}

fn all_well(query: &Query) -> Event {
    match query {
        Query::Open { .. } => Event::Opened(Ok(())),
        Query::Ask { request: PingRequest::GetSubscriber, .. } => {
            Event::Answered(Ok(PingAnswer::Subscriber))
        }
        Query::Ask { request: PingRequest::Upgrade, .. } => {
            Event::Answered(Ok(PingAnswer::UpgradeResult(UpgradeResult::Ping360)))
        }
        Query::Ask { .. } => Event::Answered(Ok(PingAnswer::NotAssigned)),
    }
}

fn no_subscription(query: &Query) -> Event {
    match query {
        Query::Ask { request: PingRequest::GetSubscriber, .. } => Event::Answered(Err(timeout())),
        other => all_well(other),
    }
}

fn create(
    manager: &mut DeviceManager,
    source: SourceSelection,
    class: DeviceSelection,
) -> (Vec<Order>, Result<Answer, ManagerError>) {
    let turn = manager.create(source, class);
    drive(manager, turn, &all_well)
}

fn one_info(outcome: Result<Answer, ManagerError>) -> DeviceInfo {
    match outcome {
        Ok(Answer::DeviceInfo(mut list)) => {
            assert_eq!(list.len(), 1);
            list.remove(0)
        }
        other => panic!("no info: {:?}", other),
    }
}

fn status_of(manager: &DeviceManager, id: u128) -> DeviceStatus {
    one_info(manager.info(id)).status
}

#[test]
fn list_of_an_empty_fleet_fails_with_no_devices() {
    let manager = DeviceManager::new();
    assert!(matches!(manager.list(), Err(ManagerError::NoDevices)));
}

#[test]
fn create_answers_with_the_new_device_and_lists_it() {
    let mut manager = DeviceManager::new();
    let id = udp(1).id();
    let (orders, outcome) = create(&mut manager, udp(1), DeviceSelection::Ping1D);
    let info = one_info(outcome);
    assert_eq!(info.id, id);
    assert_eq!(info.status, DeviceStatus::Broadcasting);
    assert_eq!(info.device_type, DeviceSelection::Ping1D);
    assert!(matches!(info.source, SourceSelection::UdpStream(u) if u.ip == [192, 168, 0, 1] && u.port == 9092));
    assert!(matches!(orders[0], Order::Spawn { id: i } if i == id));
    assert!(matches!(orders[1], Order::Forward { id: i, device_type: DeviceSelection::Ping1D } if i == id));
    assert_eq!(orders.len(), 2);

    let listed = one_info(manager.list());
    assert_eq!(listed.id, info.id);
    assert_eq!(listed.device_type, info.device_type);
    assert_eq!(listed.status, info.status);
}

#[test]
fn a_creation_answers_with_the_record_that_the_fleet_holds() {
    let start_fails = |query: &Query| match query {
        Query::Ask { request: PingRequest::Ping1D(_), .. } => Event::Answered(Err(timeout())),
        other => all_well(other),
    };
    let answers: [&dyn Fn(&Query) -> Event; 3] = [&all_well, &no_subscription, &start_fails];
    for class in [
        DeviceSelection::Common,
        DeviceSelection::Ping1D,
        DeviceSelection::Ping360,
        DeviceSelection::Auto,
    ] {
        for answer in answers {
            let mut manager = DeviceManager::new();
            let turn = manager.create(udp(1), class);
            let (_, outcome) = drive(&mut manager, turn, answer);
            let info = one_info(outcome);
            let listed = one_info(manager.list());
            assert_eq!(info.id, udp(1).id());
            assert_eq!(info.id, listed.id);
            assert_eq!(info.status, listed.status);
            assert_eq!(info.device_type, listed.device_type);
            assert_eq!(format!("{:?}", info.source), format!("{:?}", listed.source));
        }
    }
}

#[test]
fn a_failed_start_of_the_stream_is_reported_and_the_creation_answered() {
    let mut manager = DeviceManager::new();
    let id = udp(1).id();
    let turn = manager.create(udp(1), DeviceSelection::Ping1D);
    let (orders, outcome) = drive(&mut manager, turn, &|query| match query {
        Query::Ask { request: PingRequest::Ping1D(_), .. } => Event::Answered(Err(timeout())),
        other => all_well(other),
    });
    assert!(matches!(orders[0], Order::Spawn { id: i } if i == id));
    assert!(matches!(orders.last(), Some(Order::Report(ManagerError::DeviceError(_)))));
    assert_eq!(one_info(outcome).status, status_of(&manager, id));
}

#[test]
fn the_list_names_every_device_of_the_fleet() {
    let mut manager = DeviceManager::new();
    let mut ids = Vec::new();
    for last in 1..=5 {
        create(&mut manager, udp(last), DeviceSelection::Ping360).1.unwrap();
        ids.push(udp(last).id());
    }
    create(&mut manager, serial(), DeviceSelection::Common).1.unwrap();
    ids.push(serial().id());
    let listed = match manager.list() {
        Ok(Answer::DeviceInfo(list)) => list,
        other => panic!("no list: {:?}", other),
    };
    assert_eq!(listed.len(), ids.len());
    for id in ids {
        assert_eq!(listed.iter().filter(|info| info.id == id).count(), 1);
    }
}

#[test]
fn a_device_is_filed_under_the_identity_of_its_source() {
    let mut manager = DeviceManager::new();
    let turn = manager.create(serial(), DeviceSelection::Ping1D);
    let (orders, outcome) = drive(&mut manager, turn, &all_well);
    let info = one_info(outcome);
    assert_eq!(info.id, serial().id());
    assert_eq!(info.id, info.source.id());
    assert!(matches!(orders[0], Order::Spawn { id } if id == serial().id()));
    assert!(matches!(manager.get_device(serial().id()), Ok(d) if d.id == d.source.id()));
}

#[test]
fn create_twice_from_one_source_is_refused_whatever_the_class() {
    let mut manager = DeviceManager::new();
    let id = serial().id();
    let (_, first) = create(&mut manager, serial(), DeviceSelection::Common);
    assert!(first.is_ok());
    for class in [
        DeviceSelection::Common,
        DeviceSelection::Ping1D,
        DeviceSelection::Ping360,
        DeviceSelection::Auto,
    ] {
        let (orders, second) = create(&mut manager, serial(), class);
        assert!(orders.is_empty());
        assert!(matches!(second, Err(ManagerError::DeviceAlreadyExist(i)) if i == id));
    }
    assert!(matches!(manager.list(), Ok(Answer::DeviceInfo(list)) if list.len() == 1));
}

#[test]
fn create_opens_the_transport_with_the_class_asked_for() {
    let manager = DeviceManager::new();
    for (asked, built) in [
        (DeviceSelection::Common, DeviceSelection::Common),
        (DeviceSelection::Ping1D, DeviceSelection::Ping1D),
        (DeviceSelection::Ping360, DeviceSelection::Ping360),
        (DeviceSelection::Auto, DeviceSelection::Common),
    ] {
        let turn = manager.create(udp(3), asked);
        match turn.next {
            Next::Wait { pending: Pending::Opening { source, device_selection }, query: Query::Open { device_type, .. } } => {
                assert_eq!(source.id(), udp(3).id());
                assert_eq!(device_selection, asked);
                assert_eq!(device_type, built);
            }
            other => panic!("unexpected {:?}", other),
        }
    }
}

#[test]
fn create_fails_with_the_words_of_the_transport() {
    let mut manager = DeviceManager::new();
    let turn = manager.create(udp(1), DeviceSelection::Ping1D);
    let (orders, outcome) = drive(&mut manager, turn, &|_| {
        Event::Opened(Err("No such file or directory".to_string()))
    });
    assert!(orders.is_empty());
    assert!(matches!(outcome, Err(ManagerError::DeviceSourceError(w)) if w == "No such file or directory"));
    assert!(matches!(manager.list(), Err(ManagerError::NoDevices)));
}

#[test]
fn auto_is_resolved_before_the_device_is_stored() {
    for (found, class) in [
        (UpgradeResult::Unknown, DeviceSelection::Common),
        (UpgradeResult::Ping1D, DeviceSelection::Ping1D),
        (UpgradeResult::Ping360, DeviceSelection::Ping360),
    ] {
        let mut manager = DeviceManager::new();
        let turn = manager.create(udp(1), DeviceSelection::Auto);
        let (_, outcome) = drive(&mut manager, turn, &|query| match query {
            Query::Ask { request: PingRequest::Upgrade, .. } => {
                Event::Answered(Ok(PingAnswer::UpgradeResult(found)))
            }
            other => all_well(other),
        });
        assert_eq!(one_info(outcome).device_type, class);
        assert_eq!(one_info(manager.list()).device_type, class);
    }
}

#[test]
fn a_failed_handshake_fails_the_creation_and_drops_the_actor() {
    let mut manager = DeviceManager::new();
    let id = udp(1).id();
    let turn = manager.create(udp(1), DeviceSelection::Auto);
    let (orders, outcome) = drive(&mut manager, turn, &|query| match query {
        Query::Ask { request: PingRequest::Upgrade, .. } => Event::Answered(Err(timeout())),
        other => all_well(other),
    });
    assert!(matches!(orders[..], [Order::Discard { id: i }] if i == id));
    assert!(matches!(outcome, Err(ManagerError::DeviceError(DeviceError::PingError(PingError::TimeoutError)))));
    assert!(matches!(manager.list(), Err(ManagerError::NoDevices)));
}

#[test]
fn a_handshake_that_answers_something_else_fails_the_creation() {
    let mut manager = DeviceManager::new();
    let turn = manager.create(udp(1), DeviceSelection::Auto);
    let (_, outcome) = drive(&mut manager, turn, &|query| match query {
        Query::Ask { request: PingRequest::Upgrade, .. } => Event::Answered(Ok(PingAnswer::NotAssigned)),
        other => all_well(other),
    });
    assert!(matches!(outcome, Err(ManagerError::Other(w)) if w == "Unreachable: create helper"));
}

#[test]
fn a_failed_broadcast_does_not_fail_the_creation() {
    let mut manager = DeviceManager::new();
    let id = udp(1).id();
    let turn = manager.create(udp(1), DeviceSelection::Ping1D);
    let (orders, outcome) = drive(&mut manager, turn, &no_subscription);
    let info = one_info(outcome);
    assert_eq!(info.status, DeviceStatus::Running);
    assert!(matches!(orders[0], Order::Spawn { id: i } if i == id));
    assert!(matches!(&orders[1], Order::Report(ManagerError::DeviceError(_))));
    assert_eq!(orders.len(), 2);
    let listed = one_info(manager.list());
    assert_eq!(listed.status, DeviceStatus::Running);
    assert_eq!(listed.id, info.id);
}

#[test]
fn a_ping1d_is_told_to_stream_the_profile() {
    let mut manager = DeviceManager::new();
    let id = udp(1).id();
    let turn = manager.create(udp(1), DeviceSelection::Ping1D);
    let mut asked = Vec::new();
    let mut turn = turn;
    loop {
        match turn.next {
            Next::Reply(_) => break,
            Next::Wait { pending, query } => {
                let event = all_well(&query);
                if let Query::Ask { handler, request } = query {
                    asked.push((handler, request));
                }
                turn = manager.resume(pending, event);
            }
        }
    }
    assert_eq!(asked.len(), 2);
    assert_eq!(asked[0].0, DeviceActorHandler { device_id: id });
    assert!(matches!(asked[0].1, PingRequest::GetSubscriber));
    assert!(matches!(
        asked[1].1,
        PingRequest::Ping1D(Ping1DRequest::ContinuousStart(ContinuousStartStruct { id: 1300 }))
    ));
}

#[test]
fn enable_then_disable_leaves_the_device_running() {
    for class in [DeviceSelection::Common, DeviceSelection::Ping1D, DeviceSelection::Ping360] {
        let mut manager = DeviceManager::new();
        let id = udp(1).id();
        let turn = manager.create(udp(1), class);
        drive(&mut manager, turn, &no_subscription).1.unwrap();
        assert_eq!(status_of(&manager, id), DeviceStatus::Running);

        let turn = manager.broadcast(id);
        let (orders, outcome) = drive(&mut manager, turn, &all_well);
        assert_eq!(one_info(outcome).status, DeviceStatus::Broadcasting);
        let forwards = class != DeviceSelection::Common;
        assert_eq!(orders.len(), if forwards { 1 } else { 0 });
        assert_eq!(status_of(&manager, id), DeviceStatus::Broadcasting);

        let turn = manager.broadcast_off(id);
        let (orders, outcome) = drive(&mut manager, turn, &all_well);
        assert_eq!(one_info(outcome).status, DeviceStatus::Running);
        if forwards {
            assert!(matches!(orders[..], [Order::StopForwarding { id: i }] if i == id));
        } else {
            assert!(orders.is_empty());
        }
        assert_eq!(status_of(&manager, id), DeviceStatus::Running);
    }
}

#[test]
fn a_ping1d_is_told_to_stop_streaming_the_profile() {
    let mut manager = DeviceManager::new();
    let id = udp(1).id();
    create(&mut manager, udp(1), DeviceSelection::Ping1D).1.unwrap();
    let turn = manager.broadcast_off(id);
    match &turn.next {
        Next::Wait { pending: Pending::Stopping { id: i, info }, query: Query::Ask { handler, request } } => {
            assert_eq!(*i, id);
            assert_eq!(info.status, DeviceStatus::Running);
            assert_eq!(*handler, DeviceActorHandler { device_id: id });
            assert!(matches!(
                request,
                PingRequest::Ping1D(Ping1DRequest::ContinuousStop(ContinuousStopStruct { id: 1300 }))
            ));
        }
        other => panic!("unexpected {:?}", other),
    }
    let (_, outcome) = drive(&mut manager, turn, &|_| Event::Answered(Err(timeout())));
    assert!(matches!(outcome, Err(ManagerError::DeviceError(_))));
    assert_eq!(status_of(&manager, id), DeviceStatus::Running);
}

#[test]
fn disable_on_a_running_device_fails_and_changes_nothing() {
    let mut manager = DeviceManager::new();
    let id = udp(1).id();
    let turn = manager.create(udp(1), DeviceSelection::Ping360);
    drive(&mut manager, turn, &no_subscription).1.unwrap();
    let turn = manager.broadcast_off(id);
    assert!(turn.orders.is_empty());
    assert!(matches!(
        turn.next,
        Next::Reply(Err(ManagerError::DeviceStatus(DeviceStatus::Running, i))) if i == id
    ));
    assert_eq!(status_of(&manager, id), DeviceStatus::Running);
}

#[test]
fn enable_on_a_broadcasting_device_fails_with_its_status() {
    let mut manager = DeviceManager::new();
    let id = udp(1).id();
    create(&mut manager, udp(1), DeviceSelection::Ping360).1.unwrap();
    let turn = manager.broadcast(id);
    assert!(matches!(
        turn.next,
        Next::Reply(Err(ManagerError::DeviceStatus(DeviceStatus::Broadcasting, i))) if i == id
    ));
}

#[test]
fn requests_for_an_unknown_device_fail_with_device_not_exist() {
    let mut manager = DeviceManager::new();
    assert!(matches!(manager.info(7), Err(ManagerError::DeviceNotExist(7))));
    assert!(matches!(manager.get_device_handler(7), Err(ManagerError::DeviceNotExist(7))));
    assert!(matches!(manager.check_device_uuid(7), Err(ManagerError::DeviceNotExist(7))));
    assert!(matches!(manager.get_device_type(7), Err(ManagerError::DeviceNotExist(7))));
    assert!(matches!(manager.broadcast(7).next, Next::Reply(Err(ManagerError::DeviceNotExist(7)))));
    assert!(matches!(manager.broadcast_off(7).next, Next::Reply(Err(ManagerError::DeviceNotExist(7)))));
    let turn = manager.delete(7);
    assert!(turn.orders.is_empty());
    assert!(matches!(turn.next, Next::Reply(Err(ManagerError::DeviceNotExist(7)))));
}

#[test]
fn the_sweep_stops_the_devices_whose_actor_has_finished() {
    let mut manager = DeviceManager::new();
    let a = udp(1).id();
    let b = udp(2).id();
    create(&mut manager, udp(1), DeviceSelection::Ping1D).1.unwrap();
    create(&mut manager, udp(2), DeviceSelection::Common).1.unwrap();
    manager.update_devices_status(&vec![a, 99]);
    assert_eq!(status_of(&manager, a), DeviceStatus::Stopped);
    assert_eq!(status_of(&manager, b), DeviceStatus::Broadcasting);
    manager.update_devices_status(&vec![]);
    assert_eq!(status_of(&manager, a), DeviceStatus::Stopped);
}

#[test]
fn no_handler_is_given_out_for_a_stopped_device() {
    let mut manager = DeviceManager::new();
    let id = udp(1).id();
    create(&mut manager, udp(1), DeviceSelection::Ping1D).1.unwrap();
    assert!(matches!(
        manager.get_device_handler(id),
        Ok(Answer::InnerDeviceHandler(h)) if h.device_id == id
    ));
    manager.update_devices_status(&vec![id]);
    assert!(matches!(
        manager.get_device_handler(id),
        Err(ManagerError::DeviceStatus(DeviceStatus::Stopped, i)) if i == id
    ));
    assert!(matches!(
        manager.broadcast_off(id).next,
        Next::Reply(Err(ManagerError::DeviceStatus(DeviceStatus::Stopped, _)))
    ));
    assert!(matches!(
        manager.broadcast(id).next,
        Next::Reply(Err(ManagerError::DeviceStatus(DeviceStatus::Stopped, _)))
    ));
}

#[test]
fn delete_orders_the_tasks_of_the_device_aborted() {
    let mut manager = DeviceManager::new();
    let id = udp(1).id();
    create(&mut manager, udp(1), DeviceSelection::Ping360).1.unwrap();
    let turn = manager.delete(id);
    assert!(matches!(turn.orders[..], [Order::Abort { id: i, forwarding: true }] if i == id));
    match turn.next {
        Next::Reply(outcome) => assert_eq!(one_info(outcome).id, id),
        other => panic!("unexpected {:?}", other),
    }
    assert!(matches!(manager.list(), Err(ManagerError::NoDevices)));
    assert!(matches!(manager.broadcast(id).next, Next::Reply(Err(ManagerError::DeviceNotExist(_)))));
}

#[test]
fn delete_of_a_quiet_device_aborts_no_forwarding() {
    let mut manager = DeviceManager::new();
    let id = udp(1).id();
    let turn = manager.create(udp(1), DeviceSelection::Ping360);
    drive(&mut manager, turn, &no_subscription).1.unwrap();
    let turn = manager.delete(id);
    assert!(matches!(turn.orders[..], [Order::Abort { id: i, forwarding: false }] if i == id));
}

#[test]
fn the_status_check_names_the_status_that_does_not_fit() {
    let mut manager = DeviceManager::new();
    let id = udp(1).id();
    create(&mut manager, udp(1), DeviceSelection::Ping360).1.unwrap();
    assert!(manager
        .check_device_status(id, &[DeviceStatus::Running, DeviceStatus::Broadcasting])
        .is_ok());
    assert!(matches!(
        manager.check_device_status(id, &[DeviceStatus::Running]),
        Err(ManagerError::DeviceStatus(DeviceStatus::Broadcasting, i)) if i == id
    ));
    assert!(matches!(
        manager.check_device_status(id, &[]),
        Err(ManagerError::DeviceStatus(DeviceStatus::Broadcasting, _))
    ));
    assert!(matches!(manager.get_device_type(id), Ok(DeviceSelection::Ping360)));
    assert!(matches!(manager.get_device(id), Ok(d) if d.id == id && d.broadcast));
}

#[test]
fn the_manager_serves_the_requests_by_their_kind() {
    let mut manager = DeviceManager::new();
    let id = udp(1).id();
    let turn = manager.handle_message(Request::Create(CreateStruct {
        source: udp(1),
        device_selection: DeviceSelection::Common,
    }));
    drive(&mut manager, turn, &all_well).1.unwrap();
    assert!(matches!(
        manager.handle_message(Request::List).next,
        Next::Reply(Ok(Answer::DeviceInfo(l))) if l.len() == 1
    ));
    assert!(matches!(
        manager.handle_message(Request::Info(id)).next,
        Next::Reply(Ok(Answer::DeviceInfo(l))) if l[0].id == id
    ));
    assert!(matches!(
        manager.handle_message(Request::GetDeviceHandler(id)).next,
        Next::Reply(Ok(Answer::InnerDeviceHandler(_)))
    ));
    assert!(matches!(
        manager.handle_message(Request::Search).next,
        Next::Reply(Err(ManagerError::NotImplemented(Request::Search)))
    ));
    let turn = manager.handle_message(Request::DisableBroadcasting(id));
    drive(&mut manager, turn, &all_well).1.unwrap();
    assert_eq!(status_of(&manager, id), DeviceStatus::Running);
    let turn = manager.handle_message(Request::EnableBroadcasting(id));
    drive(&mut manager, turn, &all_well).1.unwrap();
    assert_eq!(status_of(&manager, id), DeviceStatus::Broadcasting);
    let turn = manager.run(&vec![id], Request::Info(id));
    assert!(matches!(
        turn.next,
        Next::Reply(Ok(Answer::DeviceInfo(l))) if l[0].status == DeviceStatus::Stopped
    ));
    assert!(matches!(
        manager.handle_message(Request::Delete(id)).next,
        Next::Reply(Ok(Answer::DeviceInfo(_)))
    ));
}

#[test]
fn an_event_that_does_not_fit_ends_the_request() {
    let mut manager = DeviceManager::new();
    let turn = manager.create(udp(1), DeviceSelection::Common);
    let (_, outcome) = drive(&mut manager, turn, &|_| Event::Answered(Ok(PingAnswer::Subscriber)));
    assert!(matches!(outcome, Err(ManagerError::Other(w)) if w == "Unexpected event for the pending request"));
}

#[test]
fn a_subscription_request_answered_otherwise_fails_the_enabling() {
    let mut manager = DeviceManager::new();
    let id = udp(1).id();
    let turn = manager.create(udp(1), DeviceSelection::Ping360);
    drive(&mut manager, turn, &no_subscription).1.unwrap();
    let turn = manager.broadcast(id);
    let (_, outcome) = drive(&mut manager, turn, &|_| Event::Answered(Ok(PingAnswer::NotImplemented)));
    assert!(matches!(outcome, Err(ManagerError::Other(w)) if w == "Unreachable: get_subscriber helper"));
    assert_eq!(status_of(&manager, id), DeviceStatus::Running);
}

#[test]
fn the_helpers_of_the_broadcast() {
    assert!(matches!(
        DeviceManager::extract_handler(Answer::InnerDeviceHandler(DeviceActorHandler { device_id: 3 })),
        Ok(DeviceActorHandler { device_id: 3 })
    ));
    assert!(matches!(
        DeviceManager::extract_handler(Answer::DeviceInfo(vec![])),
        Err(ManagerError::Other(w)) if w == "Unreachable: extract_handler helper"
    ));
    assert!(DeviceManager::get_subscriber(Ok(PingAnswer::Subscriber)).is_ok());
    assert!(matches!(
        DeviceManager::get_subscriber(Ok(PingAnswer::NotAssigned)),
        Err(ManagerError::Other(w)) if w == "Unreachable: get_subscriber helper"
    ));
    assert!(matches!(
        DeviceManager::get_subscriber(Err(timeout())),
        Err(ManagerError::DeviceError(DeviceError::PingError(PingError::TimeoutError)))
    ));
    assert!(matches!(
        DeviceManager::broadcast_startup_routine(DeviceSelection::Ping1D),
        Some(PingRequest::Ping1D(Ping1DRequest::ContinuousStart(ContinuousStartStruct { id: 1300 })))
    ));
    assert!(matches!(
        DeviceManager::broadcast_stop_routine(DeviceSelection::Ping1D),
        Some(PingRequest::Ping1D(Ping1DRequest::ContinuousStop(ContinuousStopStruct { id: 1300 })))
    ));
    for class in [DeviceSelection::Common, DeviceSelection::Ping360, DeviceSelection::Auto] {
        assert!(DeviceManager::broadcast_startup_routine(class).is_none());
        assert!(DeviceManager::broadcast_stop_routine(class).is_none());
    }
}
