//! The fleet as a mathematical object: a map from identities to devices,
//! and the steps that the manager takes on it.
//!
//! Every step is a function from the fleet before it to the fleet after it
//! and the turn that the manager returns. The manager's executable
//! functions are proved to compute exactly these.
use super::devices::{
    ContinuousStartStruct, ContinuousStopStruct, DeviceActorHandler, DeviceErrorView,
    Ping1DRequestView, PingAnswerView, PingRequestView, UpgradeResult, PROFILE_ID,
};
use super::manager::{
    device_id, info_of, AnswerView, DeviceInfoView, DeviceSelection, DeviceStatus, DeviceView,
    ManagerErrorView, RequestView, SourceView,
};
use super::turn::{
    reply_turn, wait_turn, EventView, NextView, OrderView, PendingView, QueryView, TurnView,
};
use vstd::prelude::*;

verus! {

pub type Fleet = Map<u128, DeviceView>;

/// Whether the telemetry of a device of this class is republished by a task.
pub open spec fn forwards(device_type: DeviceSelection) -> bool {
    device_type is Ping1D || device_type is Ping360
}

/// Whether a device of this class has to be told to stream.
pub open spec fn streams_on_command(device_type: DeviceSelection) -> bool {
    device_type is Ping1D
}

/// What holds of every record of a fleet: it is filed under its own
/// identity, which is the identity of its source, its class is a concrete
/// one, and a forwarding task is attached
/// exactly while a device of a forwarded class is, or was last seen,
/// broadcasting.
pub open spec fn device_wf(id: u128, d: DeviceView) -> bool {
    &&& d.id == id
    &&& d.id == device_id(d.source)
    &&& !(d.device_type is Auto)
    &&& d.broadcast ==> !(d.status is Running) && forwards(d.device_type)
    &&& d.status is Broadcasting ==> d.broadcast == forwards(d.device_type)
}

/// What holds of every fleet: it has finitely many records, and each is
/// well formed.
pub open spec fn fleet_wf(fleet: Fleet) -> bool {
    &&& fleet.dom().finite()
    &&& forall|id: u128| #[trigger] fleet.contains_key(id) ==> device_wf(id, fleet[id])
}

/// The class that the identification handshake stands for.
pub open spec fn resolved_class(result: UpgradeResult) -> DeviceSelection {
    match result {
        UpgradeResult::Unknown => DeviceSelection::Common,
        UpgradeResult::Ping1D => DeviceSelection::Ping1D,
        UpgradeResult::Ping360 => DeviceSelection::Ping360,
    }
}

/// The class whose protocol the actor of a new device speaks at first:
/// the class asked for, and the common one while the class is to be detected.
pub open spec fn codec_class(selection: DeviceSelection) -> DeviceSelection {
    match selection {
        DeviceSelection::Auto => DeviceSelection::Common,
        other => other,
    }
}

/// The address of the actor of the device `id`.
pub open spec fn handler_of(id: u128) -> DeviceActorHandler {
    DeviceActorHandler { device_id: id }
}

/// The answer that tells about one device.
pub open spec fn one_info(info: DeviceInfoView) -> Result<AnswerView, ManagerErrorView> {
    Ok(AnswerView::DeviceInfo(seq![info]))
}

/// The request to stream the distance profile.
pub open spec fn start_profile() -> PingRequestView {
    PingRequestView::Ping1D(
        Ping1DRequestView::ContinuousStart(ContinuousStartStruct { id: PROFILE_ID }),
    )
}

/// The request to stop streaming the distance profile.
pub open spec fn stop_profile() -> PingRequestView {
    PingRequestView::Ping1D(
        Ping1DRequestView::ContinuousStop(ContinuousStopStruct { id: PROFILE_ID }),
    )
}

pub open spec fn unreachable_handler() -> Seq<char> {
    "Unreachable: extract_handler helper"@
}

pub open spec fn unreachable_upgrade() -> Seq<char> {
    "Unreachable: create helper"@
}

pub open spec fn unreachable_subscriber() -> Seq<char> {
    "Unreachable: get_subscriber helper"@
}

pub open spec fn unexpected_event() -> Seq<char> {
    "Unexpected event for the pending request"@
}

/// Whether `list` tells about the fleet: one entry for each device, each
/// entry what the fleet holds of its device, and no device left out. The
/// order is left open.
pub open spec fn is_listing(list: Seq<DeviceInfoView>, fleet: Fleet) -> bool {
    &&& list.len() == fleet.dom().len()
    &&& forall|i: int|
        0 <= i < list.len() ==> fleet.contains_key(#[trigger] list[i].id) && list[i] == info_of(
            fleet[list[i].id],
        )
    &&& forall|i: int, j: int|
        0 <= i < list.len() && 0 <= j < list.len() && i != j ==> #[trigger] list[i].id
            != #[trigger] list[j].id
    &&& forall|id: u128| #[trigger]
        fleet.contains_key(id) ==> exists|i: int| 0 <= i < list.len() && #[trigger] list[i].id == id
}

/// Whether `outcome` answers a request to list the fleet.
pub open spec fn is_list_outcome(
    outcome: Result<AnswerView, ManagerErrorView>,
    fleet: Fleet,
) -> bool {
    if fleet.dom().len() == 0 {
        outcome == Err::<AnswerView, ManagerErrorView>(ManagerErrorView::NoDevices)
    } else {
        outcome matches Ok(AnswerView::DeviceInfo(list)) && is_listing(list, fleet)
    }
}

/// Whether the fleet knows `id`.
pub open spec fn known(fleet: Fleet, id: u128) -> Result<(), ManagerErrorView> {
    if fleet.contains_key(id) {
        Ok(())
    } else {
        Err(ManagerErrorView::DeviceNotExist(id))
    }
}

/// Whether the fleet knows `id` in one of the statuses `valid`.
pub open spec fn status_among(fleet: Fleet, id: u128, valid: Seq<DeviceStatus>) -> Result<
    (),
    ManagerErrorView,
> {
    if !fleet.contains_key(id) {
        Err(ManagerErrorView::DeviceNotExist(id))
    } else if valid.contains(fleet[id].status) {
        Ok(())
    } else {
        Err(ManagerErrorView::DeviceStatus(fleet[id].status, id))
    }
}

/// The class under which the fleet knows `id`.
pub open spec fn class_of(fleet: Fleet, id: u128) -> Result<DeviceSelection, ManagerErrorView> {
    if fleet.contains_key(id) {
        Ok(fleet[id].device_type)
    } else {
        Err(ManagerErrorView::DeviceNotExist(id))
    }
}

/// The answer to a request for one device's info.
pub open spec fn info_outcome(fleet: Fleet, id: u128) -> Result<AnswerView, ManagerErrorView> {
    if fleet.contains_key(id) {
        one_info(info_of(fleet[id]))
    } else {
        Err(ManagerErrorView::DeviceNotExist(id))
    }
}

/// The answer to a request for the address of a device's actor: refused
/// for a device that is unknown or stopped.
pub open spec fn handler_outcome(fleet: Fleet, id: u128) -> Result<AnswerView, ManagerErrorView> {
    if !fleet.contains_key(id) {
        Err(ManagerErrorView::DeviceNotExist(id))
    } else if fleet[id].status is Stopped {
        Err(ManagerErrorView::DeviceStatus(DeviceStatus::Stopped, id))
    } else {
        Ok(AnswerView::InnerDeviceHandler(handler_of(id)))
    }
}

/// The fleet after a sweep: every device whose actor is among the
/// `finished` ones is stopped, and nothing else changes.
pub open spec fn swept(fleet: Fleet, finished: Seq<u128>) -> Fleet {
    Map::new(
        |id: u128| fleet.contains_key(id),
        |id: u128|
            if finished.contains(id) {
                DeviceView { status: DeviceStatus::Stopped, ..fleet[id] }
            } else {
                fleet[id]
            },
    )
}

/// The handler that an answer holds. An answer of another kind holds none.
pub open spec fn handler_in(answer: AnswerView) -> Result<DeviceActorHandler, ManagerErrorView> {
    match answer {
        AnswerView::InnerDeviceHandler(handler) => Ok(handler),
        _ => Err(ManagerErrorView::Other(unreachable_handler())),
    }
}

/// Whether an actor, asked for a subscription, gave one.
pub open spec fn subscribed(reply: Result<PingAnswerView, DeviceErrorView>) -> Result<
    (),
    ManagerErrorView,
> {
    match reply {
        Err(e) => Err(ManagerErrorView::DeviceError(e)),
        Ok(PingAnswerView::Subscriber) => Ok(()),
        Ok(_) => Err(ManagerErrorView::Other(unreachable_subscriber())),
    }
}

/// What a device of this class is told when its broadcast is enabled.
pub open spec fn startup_request(device_type: DeviceSelection) -> Option<PingRequestView> {
    if streams_on_command(device_type) {
        Some(start_profile())
    } else {
        None
    }
}

/// What a device of this class is told when its broadcast is disabled.
pub open spec fn stop_request(device_type: DeviceSelection) -> Option<PingRequestView> {
    if streams_on_command(device_type) {
        Some(stop_profile())
    } else {
        None
    }
}

/// The first step of a creation: a source whose identity is taken is
/// refused; for another the transport is to be opened.
pub open spec fn create_turn(
    fleet: Fleet,
    source: SourceView,
    device_selection: DeviceSelection,
) -> TurnView {
    let id = device_id(source);
    if fleet.contains_key(id) {
        reply_turn(Err(ManagerErrorView::DeviceAlreadyExist(id)))
    } else {
        wait_turn(
            PendingView::Opening { source, device_selection },
            QueryView::Open { source, device_type: codec_class(device_selection) },
        )
    }
}

/// The turn of a step that failed in enabling the broadcast of `id`. The
/// failure ends an enabling that was asked for by itself. Within a
/// creation, which `created` tells, the failure is reported and the
/// creation answers all the same, with the device as the fleet holds it.
pub open spec fn failed_turn(
    fleet: Fleet,
    id: u128,
    created: bool,
    error: ManagerErrorView,
) -> TurnView {
    if created {
        TurnView {
            orders: seq![OrderView::Report(error)],
            next: NextView::Reply(info_outcome(fleet, id)),
        }
    } else {
        reply_turn(Err(error))
    }
}

/// The first step of enabling the broadcast of `id`: valid only for a
/// running device, whose actor is then asked for a subscription.
pub open spec fn enable_turn(fleet: Fleet, id: u128, created: bool) -> TurnView {
    if !fleet.contains_key(id) {
        failed_turn(fleet, id, created, ManagerErrorView::DeviceNotExist(id))
    } else if !(fleet[id].status is Running) {
        failed_turn(fleet, id, created, ManagerErrorView::DeviceStatus(fleet[id].status, id))
    } else {
        wait_turn(
            PendingView::Subscribing { id, created },
            QueryView::Ask { handler: handler_of(id), request: PingRequestView::GetSubscriber },
        )
    }
}

/// The record of a device that was just created: it is known by the
/// identity of its source.
pub open spec fn new_device(source: SourceView, device_type: DeviceSelection) -> DeviceView {
    DeviceView {
        id: device_id(source),
        source,
        broadcast: false,
        status: DeviceStatus::Running,
        device_type,
    }
}

/// A creation stores its device: the actor is started, the record filed
/// as running, and the broadcast of the new device is tried at once. An
/// identity that was taken meanwhile is refused and the actor dropped.
pub open spec fn inserted(
    fleet: Fleet,
    source: SourceView,
    device_type: DeviceSelection,
) -> (Fleet, TurnView) {
    let id = device_id(source);
    if fleet.contains_key(id) {
        (
            fleet,
            TurnView {
                orders: seq![OrderView::Discard { id }],
                next: NextView::Reply(Err(ManagerErrorView::DeviceAlreadyExist(id))),
            },
        )
    } else {
        let device = new_device(source, device_type);
        let fleet = fleet.insert(id, device);
        let enable = enable_turn(fleet, id, true);
        (fleet, TurnView { orders: seq![OrderView::Spawn { id }] + enable.orders, next: enable.next })
    }
}

/// A creation after its transport was opened, or not.
pub open spec fn after_open(
    fleet: Fleet,
    source: SourceView,
    device_selection: DeviceSelection,
    opened: Result<(), Seq<char>>,
) -> (Fleet, TurnView) {
    match opened {
        Err(words) => (fleet, reply_turn(Err(ManagerErrorView::DeviceSourceError(words)))),
        Ok(_) => if device_selection is Auto {
            (
                fleet,
                wait_turn(
                    PendingView::Upgrading { source },
                    QueryView::Ask {
                        handler: handler_of(device_id(source)),
                        request: PingRequestView::Upgrade,
                    },
                ),
            )
        } else {
            inserted(fleet, source, device_selection)
        },
    }
}

/// A creation after the identification handshake.
pub open spec fn after_upgrade(
    fleet: Fleet,
    source: SourceView,
    reply: Result<PingAnswerView, DeviceErrorView>,
) -> (Fleet, TurnView) {
    let id = device_id(source);
    match reply {
        Ok(PingAnswerView::UpgradeResult(result)) => inserted(
            fleet,
            source,
            resolved_class(result),
        ),
        Ok(_) => (
            fleet,
            TurnView {
                orders: seq![OrderView::Discard { id }],
                next: NextView::Reply(Err(ManagerErrorView::Other(unreachable_upgrade()))),
            },
        ),
        Err(e) => (
            fleet,
            TurnView {
                orders: seq![OrderView::Discard { id }],
                next: NextView::Reply(Err(ManagerErrorView::DeviceError(e))),
            },
        ),
    }
}

/// The record of a device whose broadcast was just enabled.
pub open spec fn broadcasting(d: DeviceView) -> DeviceView {
    DeviceView { broadcast: forwards(d.device_type), status: DeviceStatus::Broadcasting, ..d }
}

/// An enabling after the actor was asked for a subscription. An enabling
/// that goes through answers with the device as the fleet then holds it,
/// within a creation as by itself.
pub open spec fn after_subscribe(
    fleet: Fleet,
    id: u128,
    created: bool,
    reply: Result<PingAnswerView, DeviceErrorView>,
) -> (Fleet, TurnView) {
    match subscribed(reply) {
        Err(error) => (fleet, failed_turn(fleet, id, created, error)),
        Ok(_) => if !fleet.contains_key(id) {
            (fleet, failed_turn(fleet, id, created, ManagerErrorView::DeviceNotExist(id)))
        } else if !(fleet[id].status is Running) {
            (
                fleet,
                failed_turn(
                    fleet,
                    id,
                    created,
                    ManagerErrorView::DeviceStatus(fleet[id].status, id),
                ),
            )
        } else {
            let device = broadcasting(fleet[id]);
            let orders = if forwards(device.device_type) {
                seq![OrderView::Forward { id, device_type: device.device_type }]
            } else {
                Seq::empty()
            };
            let next = match startup_request(device.device_type) {
                Some(request) => NextView::Wait {
                    pending: PendingView::Starting { id, created },
                    query: QueryView::Ask { handler: handler_of(id), request },
                },
                None => NextView::Reply(one_info(info_of(device))),
            };
            (fleet.insert(id, device), TurnView { orders, next })
        },
    }
}

/// An enabling after the device was asked to stream.
pub open spec fn after_startup(
    fleet: Fleet,
    id: u128,
    created: bool,
    reply: Result<PingAnswerView, DeviceErrorView>,
) -> (Fleet, TurnView) {
    match reply {
        Err(e) => (fleet, failed_turn(fleet, id, created, ManagerErrorView::DeviceError(e))),
        Ok(_) => (fleet, reply_turn(info_outcome(fleet, id))),
    }
}

/// The record of a device whose broadcast was just disabled.
pub open spec fn quiet(d: DeviceView) -> DeviceView {
    DeviceView { broadcast: false, status: DeviceStatus::Running, ..d }
}

/// The disabling of the broadcast of `id`: valid only for a broadcasting
/// device. Its forwarding task is aborted, it is running again, and a
/// device that streams on command is told to stop.
pub open spec fn disabled(fleet: Fleet, id: u128) -> (Fleet, TurnView) {
    if !fleet.contains_key(id) {
        (fleet, reply_turn(Err(ManagerErrorView::DeviceNotExist(id))))
    } else if !(fleet[id].status is Broadcasting) {
        (fleet, reply_turn(Err(ManagerErrorView::DeviceStatus(fleet[id].status, id))))
    } else {
        let device = quiet(fleet[id]);
        let orders = if fleet[id].broadcast {
            seq![OrderView::StopForwarding { id }]
        } else {
            Seq::empty()
        };
        let next = match stop_request(device.device_type) {
            Some(request) => NextView::Wait {
                pending: PendingView::Stopping { id, info: info_of(device) },
                query: QueryView::Ask { handler: handler_of(id), request },
            },
            None => NextView::Reply(one_info(info_of(device))),
        };
        (fleet.insert(id, device), TurnView { orders, next })
    }
}

/// A disabling after the device was asked to stop streaming.
pub open spec fn after_stop(
    info: DeviceInfoView,
    reply: Result<PingAnswerView, DeviceErrorView>,
) -> TurnView {
    match reply {
        Err(e) => reply_turn(Err(ManagerErrorView::DeviceError(e))),
        Ok(_) => reply_turn(one_info(info)),
    }
}

/// The deletion of `id`: its record leaves the fleet, and its actor is
/// aborted together with the forwarding task that is attached to it.
pub open spec fn deleted(fleet: Fleet, id: u128) -> (Fleet, TurnView) {
    if fleet.contains_key(id) {
        (
            fleet.remove(id),
            TurnView {
                orders: seq![OrderView::Abort { id, forwarding: fleet[id].broadcast }],
                next: NextView::Reply(one_info(info_of(fleet[id]))),
            },
        )
    } else {
        (fleet, reply_turn(Err(ManagerErrorView::DeviceNotExist(id))))
    }
}

/// The step that the manager takes when the runtime reports `event` for
/// the request that stands at `pending`.
pub open spec fn resumed(fleet: Fleet, pending: PendingView, event: EventView) -> (Fleet, TurnView) {
    match (pending, event) {
        (PendingView::Opening { source, device_selection }, EventView::Opened(opened)) => {
            after_open(fleet, source, device_selection, opened)
        },
        (PendingView::Upgrading { source }, EventView::Answered(reply)) => after_upgrade(
            fleet,
            source,
            reply,
        ),
        (PendingView::Subscribing { id, created }, EventView::Answered(reply)) => after_subscribe(
            fleet,
            id,
            created,
            reply,
        ),
        (PendingView::Starting { id, created }, EventView::Answered(reply)) => after_startup(
            fleet,
            id,
            created,
            reply,
        ),
        (PendingView::Stopping { id, info }, EventView::Answered(reply)) => (
            fleet,
            after_stop(info, reply),
        ),
        (PendingView::Subscribing { id, created }, _) => (
            fleet,
            failed_turn(fleet, id, created, ManagerErrorView::Other(unexpected_event())),
        ),
        (PendingView::Starting { id, created }, _) => (
            fleet,
            failed_turn(fleet, id, created, ManagerErrorView::Other(unexpected_event())),
        ),
        (PendingView::Upgrading { source }, _) => (
            fleet,
            TurnView {
                orders: seq![OrderView::Discard { id: device_id(source) }],
                next: NextView::Reply(Err(ManagerErrorView::Other(unexpected_event()))),
            },
        ),
        _ => (fleet, reply_turn(Err(ManagerErrorView::Other(unexpected_event())))),
    }
}

/// Whether the manager, on `request` and the fleet `before`, may leave
/// the fleet `after` and return `turn`. All is fixed but the order of a
/// listing.
pub open spec fn handles(before: Fleet, request: RequestView, after: Fleet, turn: TurnView) -> bool {
    match request {
        RequestView::Create { source, device_selection } => after == before && turn == create_turn(
            before,
            source,
            device_selection,
        ),
        RequestView::Delete(id) => (after, turn) == deleted(before, id),
        RequestView::List => {
            &&& after == before
            &&& turn.orders == Seq::<OrderView>::empty()
            &&& turn.next matches NextView::Reply(outcome) && is_list_outcome(outcome, before)
        },
        RequestView::Info(id) => after == before && turn == reply_turn(info_outcome(before, id)),
        RequestView::GetDeviceHandler(id) => after == before && turn == reply_turn(
            handler_outcome(before, id),
        ),
        RequestView::EnableBroadcasting(id) => after == before && turn == enable_turn(
            before,
            id,
            false,
        ),
        RequestView::DisableBroadcasting(id) => (after, turn) == disabled(before, id),
        _ => after == before && turn == reply_turn(Err(ManagerErrorView::NotImplemented(request))),
    }
}

} // verus!
