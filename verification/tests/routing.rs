use ping_viewer_next::device::devices::{
    AutoDeviceDataStruct, DeviceActorHandler, DeviceDataStruct, DeviceError, PingAnswer,
    PingError, PingRequest, ProtocolMessage, Received, Telemetry,
};
use ping_viewer_next::device::forwarding::Forwarding;
use ping_viewer_next::device::manager::{
    Answer, DeviceAnswer, DeviceManager, DeviceRequestStruct, DeviceSelection, DeviceStatus,
    ManagerError, Request,
};
use ping_viewer_next::device::routing::{ManagerActorHandler, Route};
use ping_viewer_next::ModuleType;

fn message(id: u16) -> ProtocolMessage {
    ProtocolMessage { message_id: id, payload: vec![1, 2, 3] }
}

fn sweep() -> DeviceDataStruct {
    DeviceDataStruct {
        mode: 1,
        gain_setting: 2,
        angle: 100,
        transmit_duration: 500,
        sample_period: 80,
        transmit_frequency: 700,
        number_of_samples: 2,
        data_length: 2,
        data: vec![9, 9],
    }
}

fn auto_sweep() -> AutoDeviceDataStruct {
    AutoDeviceDataStruct {
        mode: 1,
        gain_setting: 2,
        angle: 100,
        transmit_duration: 500,
        sample_period: 80,
        transmit_frequency: 700,
        start_angle: 0,
        stop_angle: 399,
        num_steps: 1,
        delay: 0,
        number_of_samples: 2,
        data_length: 2,
        data: vec![9, 9],
    }
}

#[test]
fn a_request_for_the_fleet_goes_to_the_manager() {
    let handler = ManagerActorHandler {};
    let route = handler.send(Request::List);
    assert!(matches!(route, Route::Manager { request: Request::List }));
    let done = handler.manager_replied(route, Ok(Err(ManagerError::NoDevices)));
    assert!(matches!(done, Route::Done(Err(ManagerError::NoDevices))));
}

#[test]
fn a_request_for_a_device_goes_past_the_queue() {
    let handler = ManagerActorHandler {};
    let route = handler.send(Request::Ping(DeviceRequestStruct {
        target: 5,
        request: PingRequest::Ping360(message(2601)),
    }));
    assert!(matches!(
        &route,
        Route::Lookup { lookup: Request::GetDeviceHandler(5), target: 5, ask: PingRequest::Ping360(m) }
            if m.message_id == 2601
    ));
    let route = handler.manager_replied(
        route,
        Ok(Ok(Answer::InnerDeviceHandler(DeviceActorHandler { device_id: 5 }))),
    );
    assert!(matches!(
        &route,
        Route::Device { handler: DeviceActorHandler { device_id: 5 }, target: 5, ask: PingRequest::Ping360(_) }
    ));
    let done = handler.device_replied(route, Ok(PingAnswer::PingMessage(message(2300))));
    assert!(matches!(
        done,
        Route::Done(Ok(Answer::DeviceMessage(DeviceAnswer { device_id: 5, answer: PingAnswer::PingMessage(m) })))
            if m.message_id == 2300 && m.payload == vec![1, 2, 3]
    ));
}

#[test]
fn a_device_failure_travels_back_as_a_device_error() {
    let handler = ManagerActorHandler {};
    let route = Route::Device {
        handler: DeviceActorHandler { device_id: 5 },
        target: 5,
        ask: PingRequest::GetSubscriber,
    };
    let done = handler.device_replied(route, Err(DeviceError::PingError(PingError::JoinError)));
    assert!(matches!(
        done,
        Route::Done(Err(ManagerError::DeviceError(DeviceError::PingError(PingError::JoinError))))
    ));
}

#[test]
fn a_refused_lookup_ends_the_request() {
    let handler = ManagerActorHandler {};
    let route = handler.send(Request::Ping(DeviceRequestStruct {
        target: 5,
        request: PingRequest::GetSubscriber,
    }));
    let done = handler.manager_replied(
        route,
        Ok(Err(ManagerError::DeviceStatus(DeviceStatus::Stopped, 5))),
    );
    assert!(matches!(
        done,
        Route::Done(Err(ManagerError::DeviceStatus(DeviceStatus::Stopped, 5)))
    ));
}

#[test]
fn a_closed_queue_is_surfaced_and_not_retried() {
    let handler = ManagerActorHandler {};
    let route = handler.send(Request::Delete(1));
    let done = handler.manager_replied(route, Err("channel closed".to_string()));
    assert!(matches!(done, Route::Done(Err(ManagerError::TokioMpsc(w))) if w == "channel closed"));
    let route = handler.send(Request::Ping(DeviceRequestStruct {
        target: 5,
        request: PingRequest::Stop,
    }));
    let done = handler.manager_replied(route, Err("channel closed".to_string()));
    assert!(matches!(done, Route::Done(Err(ManagerError::TokioMpsc(_)))));
}

#[test]
fn a_reply_that_does_not_fit_ends_the_request() {
    let handler = ManagerActorHandler {};
    let done = handler.device_replied(handler.send(Request::List), Ok(PingAnswer::NotAssigned));
    assert!(matches!(done, Route::Done(Err(ManagerError::Other(_)))));
    let done = handler.manager_replied(Route::Done(Err(ManagerError::NoDevices)), Ok(Err(ManagerError::NoDevices)));
    assert!(matches!(done, Route::Done(Err(ManagerError::Other(w))) if w == "Unexpected reply for the request on its way"));
}

#[test]
fn requests_name_their_device() {
    assert_eq!(Request::Delete(3).device(), Some(3));
    assert_eq!(Request::Info(3).device(), Some(3));
    assert_eq!(Request::GetDeviceHandler(3).device(), Some(3));
    assert_eq!(Request::EnableBroadcasting(3).device(), Some(3));
    assert_eq!(Request::DisableBroadcasting(3).device(), Some(3));
    assert_eq!(Request::List.device(), None);
    assert_eq!(Request::Search.device(), None);
    let ping = Request::Ping(DeviceRequestStruct { target: 9, request: PingRequest::Upgrade });
    assert_eq!(ping.device(), Some(9));
    assert!(matches!(ModuleType::DeviceManager(Request::List), ModuleType::DeviceManager(Request::List)));
}

#[test]
fn a_ping1d_forwards_its_profile_alone() {
    let step = DeviceManager::forward(
        DeviceSelection::Ping1D,
        4,
        Received::Message { message: message(1300), decoded: Telemetry::Profile },
    );
    assert!(matches!(
        step,
        Forwarding::Publish(Answer::DeviceMessage(DeviceAnswer { device_id: 4, answer: PingAnswer::PingMessage(m) }))
            if m.message_id == 1300
    ));
    for (id, decoded) in [
        (1212, Telemetry::Profile),
        (1300, Telemetry::Other),
        (2300, Telemetry::DeviceData(sweep())),
    ] {
        let step = DeviceManager::forward(
            DeviceSelection::Ping1D,
            4,
            Received::Message { message: message(id), decoded },
        );
        assert!(matches!(step, Forwarding::Skip));
    }
}

#[test]
fn a_ping360_forwards_its_sweep_data_alone() {
    let step = DeviceManager::forward(
        DeviceSelection::Ping360,
        4,
        Received::Message { message: message(2300), decoded: Telemetry::DeviceData(sweep()) },
    );
    assert!(matches!(step, Forwarding::Publish(Answer::DeviceMessage(_))));
    for (id, decoded) in [
        (2301, Telemetry::AutoDeviceData(auto_sweep())),
        (2300, Telemetry::Other),
        (1300, Telemetry::Profile),
    ] {
        let step = DeviceManager::forward(
            DeviceSelection::Ping360,
            4,
            Received::Message { message: message(id), decoded },
        );
        assert!(matches!(step, Forwarding::Skip));
    }
}

#[test]
fn other_classes_forward_nothing() {
    for class in [DeviceSelection::Common, DeviceSelection::Auto] {
        assert!(!DeviceManager::start_broadcasting(class));
        let step = DeviceManager::forward(
            class,
            4,
            Received::Message { message: message(1300), decoded: Telemetry::Profile },
        );
        assert!(matches!(step, Forwarding::Skip));
    }
    assert!(DeviceManager::start_broadcasting(DeviceSelection::Ping1D));
    assert!(DeviceManager::start_broadcasting(DeviceSelection::Ping360));
}

#[test]
fn the_end_of_the_subscription_is_published_and_ends_the_task() {
    let step = DeviceManager::forward(DeviceSelection::Ping1D, 4, Received::Closed("channel closed".to_string()));
    assert!(matches!(
        step,
        Forwarding::Stop(ManagerError::DeviceError(DeviceError::PingError(PingError::TokioBroadcastError(w))))
            if w == "channel closed"
    ));
}

#[test]
fn the_helpers_select_by_id_and_kind() {
    assert!(DeviceManager::ping1d_broadcast_helper(message(1300), &Telemetry::Profile, 1).is_some());
    assert!(DeviceManager::ping1d_broadcast_helper(message(1301), &Telemetry::Profile, 1).is_none());
    assert!(DeviceManager::ping360_broadcast_helper(message(2300), &Telemetry::DeviceData(sweep()), 1).is_some());
    assert!(DeviceManager::ping360_broadcast_helper(message(2301), &Telemetry::DeviceData(sweep()), 1).is_none());
    assert!(DeviceManager::ping360_broadcast_helper(message(2300), &Telemetry::Profile, 1).is_none());
}
