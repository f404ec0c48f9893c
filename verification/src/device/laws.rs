//! What holds of the fleet whatever the runtime reports.
//!
//! The laws speak of whole requests. A request that waits is taken up again
//! with the outcome of its query until it is answered; [`creation`],
//! [`enabling`] and [`disabling`] compose these steps for the outcomes
//! that the runtime may report.
use super::devices::{DeviceErrorView, PingAnswerView};
use super::fleet::{
    after_subscribe, create_turn, deleted, device_wf, disabled, enable_turn, fleet_wf,
    handler_outcome, is_list_outcome, is_listing, new_device, one_info, resolved_class, resumed,
    swept, Fleet,
};
use super::manager::{
    device_id, info_of, AnswerView, DeviceInfoView, DeviceSelection, DeviceStatus, DeviceView,
    ManagerErrorView, SourceView,
};
use super::turn::{reply_turn, EventView, NextView, OrderView, PendingView, TurnView};
use vstd::prelude::*;

verus! {

/// A request that waits goes on with `event`; its orders so far stay in
/// front of the new ones. An answered request stays as it is.
pub open spec fn follow(step: (Fleet, TurnView), event: EventView) -> (Fleet, TurnView) {
    match step.1.next {
        NextView::Wait { pending, query } => {
            let (fleet, turn) = resumed(step.0, pending, event);
            (fleet, TurnView { orders: step.1.orders + turn.orders, next: turn.next })
        },
        NextView::Reply(_) => step,
    }
}

/// A whole creation: the transport is opened with the outcome `opened`,
/// the handshake, where one is run, answers `upgrade`, the actor answers
/// `subscribe` when asked for a subscription and the device `startup` when
/// asked to stream.
pub open spec fn creation(
    fleet: Fleet,
    source: SourceView,
    device_selection: DeviceSelection,
    opened: Result<(), Seq<char>>,
    upgrade: Result<PingAnswerView, DeviceErrorView>,
    subscribe: Result<PingAnswerView, DeviceErrorView>,
    startup: Result<PingAnswerView, DeviceErrorView>,
) -> (Fleet, TurnView) {
    let begun = (fleet, create_turn(fleet, source, device_selection));
    let open = follow(begun, EventView::Opened(opened));
    let built = if open.1.next matches NextView::Wait { pending: PendingView::Upgrading { .. }, .. } {
        follow(open, EventView::Answered(upgrade))
    } else {
        open
    };
    let subscribed = follow(built, EventView::Answered(subscribe));
    follow(subscribed, EventView::Answered(startup))
}

/// A whole enabling of the broadcast of `id`.
pub open spec fn enabling(
    fleet: Fleet,
    id: u128,
    subscribe: Result<PingAnswerView, DeviceErrorView>,
    startup: Result<PingAnswerView, DeviceErrorView>,
) -> (Fleet, TurnView) {
    let begun = (fleet, enable_turn(fleet, id, false));
    let subscribed = follow(begun, EventView::Answered(subscribe));
    follow(subscribed, EventView::Answered(startup))
}

/// A whole disabling of the broadcast of `id`.
pub open spec fn disabling(
    fleet: Fleet,
    id: u128,
    stop: Result<PingAnswerView, DeviceErrorView>,
) -> (Fleet, TurnView) {
    follow(disabled(fleet, id), EventView::Answered(stop))
}

/// Whether the creation of a device of class `device_selection` gets its
/// device built: the transport opens and the handshake, where one is run,
/// tells a class.
pub open spec fn builds(
    device_selection: DeviceSelection,
    opened: Result<(), Seq<char>>,
    upgrade: Result<PingAnswerView, DeviceErrorView>,
) -> bool {
    opened is Ok && (device_selection is Auto ==> upgrade matches Ok(
        PingAnswerView::UpgradeResult(_),
    ))
}

/// The class under which a creation that builds its device stores it.
pub open spec fn stored_class(
    device_selection: DeviceSelection,
    upgrade: Result<PingAnswerView, DeviceErrorView>,
) -> DeviceSelection {
    match (device_selection, upgrade) {
        (DeviceSelection::Auto, Ok(PingAnswerView::UpgradeResult(result))) => resolved_class(
            result,
        ),
        _ => device_selection,
    }
}

/// The sweep keeps the fleet well formed.
pub proof fn law_sweep_keeps_fleet_well_formed(fleet: Fleet, finished: Seq<u128>)
    requires
        fleet_wf(fleet),
    ensures
        fleet_wf(swept(fleet, finished)),
{
    let after = swept(fleet, finished);
    assert(after.dom() =~= fleet.dom());
    assert forall|id: u128| #[trigger] after.contains_key(id) implies device_wf(id, after[id]) by {
        assert(fleet.contains_key(id));
    }
}

/// The device that a pending request is about.
pub open spec fn subject(pending: PendingView) -> u128 {
    match pending {
        PendingView::Opening { source, .. } => device_id(source),
        PendingView::Upgrading { source } => device_id(source),
        PendingView::Subscribing { id, .. } => id,
        PendingView::Starting { id, .. } => id,
        PendingView::Stopping { id, .. } => id,
    }
}

/// Every step on a pending request keeps the fleet well formed. With it
/// no record ever holds the class `Auto`, and every record is known by the
/// identity of its source.
pub proof fn law_steps_keep_fleet_well_formed(fleet: Fleet, pending: PendingView, event: EventView)
    requires
        fleet_wf(fleet),
    ensures
        fleet_wf(resumed(fleet, pending, event).0),
{
    let after = resumed(fleet, pending, event).0;
    let id = subject(pending);
    assert(after.dom() =~= fleet.dom() || after.dom() =~= fleet.dom().insert(id));
    assert forall|id: u128| #[trigger] after.contains_key(id) implies device_wf(id, after[id]) by {
        if fleet.contains_key(id) {
            assert(device_wf(id, fleet[id]));
        }
    }
}

/// Disabling and deleting keep the fleet well formed.
pub proof fn law_requests_keep_fleet_well_formed(fleet: Fleet, id: u128)
    requires
        fleet_wf(fleet),
    ensures
        fleet_wf(disabled(fleet, id).0),
        fleet_wf(deleted(fleet, id).0),
{
    let quiet = disabled(fleet, id).0;
    assert(quiet.dom() =~= fleet.dom());
    assert forall|k: u128| #[trigger] quiet.contains_key(k) implies device_wf(k, quiet[k]) by {
        assert(fleet.contains_key(k));
    }
    let less = deleted(fleet, id).0;
    assert(less.dom() =~= fleet.dom() || less.dom() =~= fleet.dom().remove(id));
    assert forall|k: u128| #[trigger] less.contains_key(k) implies device_wf(k, less[k]) by {
        assert(fleet.contains_key(k));
    }
}

/// A stopped device stays stopped: no sweep, no step on a pending request
/// and no disabling takes a record out of `Stopped`.
pub proof fn law_stopped_is_terminal(
    fleet: Fleet,
    id: u128,
    finished: Seq<u128>,
    pending: PendingView,
    event: EventView,
    other: u128,
)
    requires
        fleet.contains_key(id),
        fleet[id].status is Stopped,
    ensures
        swept(fleet, finished)[id].status is Stopped,
        resumed(fleet, pending, event).0.contains_key(id),
        resumed(fleet, pending, event).0[id].status is Stopped,
        disabled(fleet, other).0.contains_key(id),
        disabled(fleet, other).0[id].status is Stopped,
{
}

/// A creation that gets its device built answers with the new device as
/// the fleet holds it when the creation replies, whatever becomes of the
/// broadcast that is tried for it, and a second creation from the same
/// source is then refused as a duplicate, whatever class it asks for.
pub proof fn law_second_creation_is_refused(
    fleet: Fleet,
    source: SourceView,
    first: DeviceSelection,
    second: DeviceSelection,
    opened: Result<(), Seq<char>>,
    upgrade: Result<PingAnswerView, DeviceErrorView>,
    subscribe: Result<PingAnswerView, DeviceErrorView>,
    startup: Result<PingAnswerView, DeviceErrorView>,
)
    requires
        !fleet.contains_key(device_id(source)),
        builds(first, opened, upgrade),
    ensures
        ({
            let id = device_id(source);
            let (after, turn) = creation(fleet, source, first, opened, upgrade, subscribe, startup);
            &&& after.contains_key(id)
            &&& turn.next == NextView::Reply(one_info(info_of(after[id])))
            &&& after[id].source == source
            &&& after[id].device_type == stored_class(first, upgrade)
            &&& create_turn(after, source, second) == reply_turn(
                Err(ManagerErrorView::DeviceAlreadyExist(id)),
            )
        }),
{
}

/// Enabling the broadcast of a running device and disabling it at once
/// leaves the device running, whatever the device answers on the way.
pub proof fn law_enable_then_disable_is_running(
    fleet: Fleet,
    id: u128,
    subscribe: Result<PingAnswerView, DeviceErrorView>,
    startup: Result<PingAnswerView, DeviceErrorView>,
    stop: Result<PingAnswerView, DeviceErrorView>,
)
    requires
        fleet.contains_key(id),
        fleet[id].status is Running,
    ensures
        ({
            let enabled = enabling(fleet, id, subscribe, startup).0;
            let after = disabling(enabled, id, stop).0;
            &&& after.contains_key(id)
            &&& after[id].status is Running
            &&& after[id].source == fleet[id].source
            &&& after[id].device_type == fleet[id].device_type
        }),
{
}

/// An enabling that obtains its subscription leaves the device
/// broadcasting; any other leaves the fleet as it was.
pub proof fn law_enabling_needs_a_subscription(
    fleet: Fleet,
    id: u128,
    subscribe: Result<PingAnswerView, DeviceErrorView>,
    startup: Result<PingAnswerView, DeviceErrorView>,
)
    requires
        fleet.contains_key(id),
        fleet[id].status is Running,
    ensures
        ({
            let after = enabling(fleet, id, subscribe, startup).0;
            if subscribe == Ok::<PingAnswerView, DeviceErrorView>(PingAnswerView::Subscriber) {
                after.contains_key(id) && after[id].status is Broadcasting
            } else {
                after == fleet
            }
        }),
{
}

/// Disabling the broadcast of a device that does not broadcast fails with
/// the status that the device is in and changes nothing.
pub proof fn law_disable_needs_broadcasting(fleet: Fleet, id: u128)
    requires
        fleet.contains_key(id),
        !(fleet[id].status is Broadcasting),
    ensures
        disabled(fleet, id) == (
            fleet,
            reply_turn(Err(ManagerErrorView::DeviceStatus(fleet[id].status, id))),
        ),
{
}

/// No handler is given out for a stopped device.
pub proof fn law_stopped_device_has_no_handler(fleet: Fleet, id: u128)
    requires
        fleet.contains_key(id),
        fleet[id].status is Stopped,
    ensures
        handler_outcome(fleet, id) == Err::<AnswerView, ManagerErrorView>(
            ManagerErrorView::DeviceStatus(DeviceStatus::Stopped, id),
        ),
{
}

/// Deleting a device takes its record out of the fleet and orders its
/// actor aborted, together with the forwarding task that is attached to
/// it. From then on the fleet refuses to enable its broadcast, and a
/// subscription that arrives late for it starts no forwarding.
pub proof fn law_delete_ends_the_tasks(
    fleet: Fleet,
    id: u128,
    created: bool,
    reply: Result<PingAnswerView, DeviceErrorView>,
)
    requires
        fleet.contains_key(id),
    ensures
        ({
            let (after, turn) = deleted(fleet, id);
            &&& !after.contains_key(id)
            &&& turn.orders == seq![OrderView::Abort { id, forwarding: fleet[id].broadcast }]
            &&& enable_turn(after, id, false) == reply_turn(
                Err(ManagerErrorView::DeviceNotExist(id)),
            )
            &&& forall|i: int|
                0 <= i < after_subscribe(after, id, created, reply).1.orders.len()
                    ==> !(#[trigger] after_subscribe(after, id, created, reply).1.orders[i]
                    is Forward)
        }),
{
}

/// An empty fleet has nothing to list.
pub proof fn law_empty_fleet_lists_nothing(outcome: Result<AnswerView, ManagerErrorView>)
    requires
        is_list_outcome(outcome, Map::<u128, DeviceView>::empty()),
    ensures
        outcome == Err::<AnswerView, ManagerErrorView>(ManagerErrorView::NoDevices),
{
}

/// After the first creation that gets its device built, a listing holds
/// exactly one entry, and it is what the creation answered with.
pub proof fn law_first_creation_is_listed(
    source: SourceView,
    device_selection: DeviceSelection,
    opened: Result<(), Seq<char>>,
    upgrade: Result<PingAnswerView, DeviceErrorView>,
    subscribe: Result<PingAnswerView, DeviceErrorView>,
    startup: Result<PingAnswerView, DeviceErrorView>,
    outcome: Result<AnswerView, ManagerErrorView>,
)
    requires
        builds(device_selection, opened, upgrade),
        is_list_outcome(
            outcome,
            creation(
                Map::<u128, DeviceView>::empty(),
                source,
                device_selection,
                opened,
                upgrade,
                subscribe,
                startup,
            ).0,
        ),
    ensures
        creation(
            Map::<u128, DeviceView>::empty(),
            source,
            device_selection,
            opened,
            upgrade,
            subscribe,
            startup,
        ).1.next == NextView::Reply(outcome),
{
    let id = device_id(source);
    let empty = Map::<u128, DeviceView>::empty();
    let after = creation(empty, source, device_selection, opened, upgrade, subscribe, startup).0;
    assert(after.dom() =~= set![id]);
    assert(after.dom().len() == 1);
    let list = outcome->Ok_0->DeviceInfo_0;
    assert(is_listing(list, after));
    assert(after.contains_key(list[0].id));
    assert(list =~= seq![list[0]]);
}

/// A listing of a fleet that knows a device holds the device: no record
/// is left out.
pub proof fn law_listing_names_every_device(
    fleet: Fleet,
    id: u128,
    outcome: Result<AnswerView, ManagerErrorView>,
)
    requires
        fleet_wf(fleet),
        fleet.contains_key(id),
        is_list_outcome(outcome, fleet),
    ensures
        outcome matches Ok(AnswerView::DeviceInfo(list)) && list.contains(info_of(fleet[id])),
{
    assert(fleet.dom().contains(id));
    assert(fleet.dom().len() > 0) by {
        if fleet.dom().len() == 0 {
            fleet.dom().lemma_len0_is_empty();
        }
    }
    let list = outcome->Ok_0->DeviceInfo_0;
    let i = choose|i: int| 0 <= i < list.len() && #[trigger] list[i].id == id;
    assert(list[i] == info_of(fleet[id]));
}

} // verus!
