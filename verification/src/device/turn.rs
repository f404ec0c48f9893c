//! What the manager and the runtime that drives it hand to each other.
//!
//! The manager never waits. Where a request needs work that only the
//! runtime can do (open a transport, ask a device actor), the manager
//! returns a [`Turn`] that names the work as a [`Query`] and remembers as a
//! [`Pending`] where the request stands. The runtime performs the query
//! and hands its outcome back as an [`Event`]. Work that nobody waits for
//! travels as [`Order`]s.
use super::devices::{
    reply_view, DeviceActorHandler, DeviceError, DeviceErrorView, PingAnswer, PingAnswerView,
    PingRequest, PingRequestView,
};
use super::manager::{
    outcome_view, Answer, AnswerView, DeviceInfo, DeviceInfoView, DeviceSelection, ManagerError,
    ManagerErrorView, SourceSelection, SourceView,
};
use vstd::prelude::*;

verus! {

/// Work on tasks that the runtime does for the manager without reporting back.
#[derive(Debug)]
pub enum Order {
    /// Start the run loop of the actor that was built for `id`.
    Spawn { id: u128 },
    /// Drop the actor that was built for `id`; it was never started.
    Discard { id: u128 },
    /// Start the task that republishes the telemetry of `id`, on the
    /// subscription just obtained, with the filter of `device_type`.
    Forward { id: u128, device_type: DeviceSelection },
    /// Abort the task that republishes the telemetry of `id`.
    StopForwarding { id: u128 },
    /// Abort the actor of `id`, and with it the task that republishes its
    /// telemetry if `forwarding` says that one is attached. The recorder
    /// is told of it, so that a recording of the device ends.
    Abort { id: u128, forwarding: bool },
    /// Log the failure of a step whose failure does not fail the request.
    Report(ManagerError),
}

pub enum OrderView {
    Spawn { id: u128 },
    Discard { id: u128 },
    Forward { id: u128, device_type: DeviceSelection },
    StopForwarding { id: u128 },
    Abort { id: u128, forwarding: bool },
    Report(ManagerErrorView),
}

impl View for Order {
    type V = OrderView;

    open spec fn view(&self) -> OrderView {
        match self {
            Order::Spawn { id } => OrderView::Spawn { id: *id },
            Order::Discard { id } => OrderView::Discard { id: *id },
            Order::Forward { id, device_type } => OrderView::Forward {
                id: *id,
                device_type: *device_type,
            },
            Order::StopForwarding { id } => OrderView::StopForwarding { id: *id },
            Order::Abort { id, forwarding } => OrderView::Abort {
                id: *id,
                forwarding: *forwarding,
            },
            Order::Report(e) => OrderView::Report(e@),
        }
    }
}

/// The views of a list of orders, in order.
pub open spec fn orders_view(orders: Seq<Order>) -> Seq<OrderView> {
    orders.map_values(|o: Order| o@)
}

/// Work whose outcome the manager needs before it can go on.
#[derive(Debug)]
pub enum Query {
    /// Open the transport of `source` and build on it an actor that speaks
    /// to a device of class `device_type`.
    Open { source: SourceSelection, device_type: DeviceSelection },
    /// Send `request` to the actor behind `handler` and await its answer.
    Ask { handler: DeviceActorHandler, request: PingRequest },
}

pub enum QueryView {
    Open { source: SourceView, device_type: DeviceSelection },
    Ask { handler: DeviceActorHandler, request: PingRequestView },
}

impl View for Query {
    type V = QueryView;

    open spec fn view(&self) -> QueryView {
        match self {
            Query::Open { source, device_type } => QueryView::Open {
                source: source@,
                device_type: *device_type,
            },
            Query::Ask { handler, request } => QueryView::Ask {
                handler: *handler,
                request: request@,
            },
        }
    }
}

/// Where a request stands while the runtime works on a query. `created`
/// tells that a broadcast is enabled as the last part of a creation.
#[derive(Debug)]
pub enum Pending {
    /// Creating: the transport is being opened.
    Opening { source: SourceSelection, device_selection: DeviceSelection },
    /// Creating with detection: the identification handshake is running.
    Upgrading { source: SourceSelection },
    /// Enabling: the actor was asked for a subscription.
    Subscribing { id: u128, created: bool },
    /// Enabling: the device was asked to stream.
    Starting { id: u128, created: bool },
    /// Disabling: the device was asked to stop streaming. `info` is the
    /// device as the disabling left it.
    Stopping { id: u128, info: DeviceInfo },
}

pub enum PendingView {
    Opening { source: SourceView, device_selection: DeviceSelection },
    Upgrading { source: SourceView },
    Subscribing { id: u128, created: bool },
    Starting { id: u128, created: bool },
    Stopping { id: u128, info: DeviceInfoView },
}

impl View for Pending {
    type V = PendingView;

    open spec fn view(&self) -> PendingView {
        match self {
            Pending::Opening { source, device_selection } => PendingView::Opening {
                source: source@,
                device_selection: *device_selection,
            },
            Pending::Upgrading { source } => PendingView::Upgrading { source: source@ },
            Pending::Subscribing { id, created } => PendingView::Subscribing {
                id: *id,
                created: *created,
            },
            Pending::Starting { id, created } => PendingView::Starting {
                id: *id,
                created: *created,
            },
            Pending::Stopping { id, info } => PendingView::Stopping { id: *id, info: info@ },
        }
    }
}

/// The outcome of a query.
#[derive(Debug)]
pub enum Event {
    /// The transport is open and the actor built, or the words of the
    /// failure to open it.
    Opened(Result<(), String>),
    /// What the device actor answered.
    Answered(Result<PingAnswer, DeviceError>),
}

pub enum EventView {
    Opened(Result<(), Seq<char>>),
    Answered(Result<PingAnswerView, DeviceErrorView>),
}

/// The outcome of opening a transport, its words seen as a sequence.
pub open spec fn opened_view(opened: Result<(), String>) -> Result<(), Seq<char>> {
    match opened {
        Ok(_) => Ok(()),
        Err(words) => Err(words@),
    }
}

impl View for Event {
    type V = EventView;

    open spec fn view(&self) -> EventView {
        match self {
            Event::Opened(opened) => EventView::Opened(opened_view(*opened)),
            Event::Answered(reply) => EventView::Answered(reply_view(*reply)),
        }
    }
}

/// How a request goes on: it is answered, or it waits for a query.
#[derive(Debug)]
pub enum Next {
    Reply(Result<Answer, ManagerError>),
    Wait { pending: Pending, query: Query },
}

pub enum NextView {
    Reply(Result<AnswerView, ManagerErrorView>),
    Wait { pending: PendingView, query: QueryView },
}

impl View for Next {
    type V = NextView;

    open spec fn view(&self) -> NextView {
        match self {
            Next::Reply(outcome) => NextView::Reply(outcome_view(*outcome)),
            Next::Wait { pending, query } => NextView::Wait { pending: pending@, query: query@ },
        }
    }
}

/// One step of the manager on a request: the orders to carry out, in order,
/// and how the request goes on.
#[derive(Debug)]
pub struct Turn {
    pub orders: Vec<Order>,
    pub next: Next,
}

pub struct TurnView {
    pub orders: Seq<OrderView>,
    pub next: NextView,
}

impl View for Turn {
    type V = TurnView;

    open spec fn view(&self) -> TurnView {
        TurnView { orders: orders_view(self.orders@), next: self.next@ }
    }
}

/// The turn that answers a request and orders nothing.
pub open spec fn reply_turn(outcome: Result<AnswerView, ManagerErrorView>) -> TurnView {
    TurnView { orders: Seq::empty(), next: NextView::Reply(outcome) }
}

/// The turn that waits for a query and orders nothing.
pub open spec fn wait_turn(pending: PendingView, query: QueryView) -> TurnView {
    TurnView { orders: Seq::empty(), next: NextView::Wait { pending, query } }
}

impl Turn {
    /// The turn that answers a request and orders nothing.
    pub fn reply(outcome: Result<Answer, ManagerError>) -> (turn: Turn)
        ensures
            turn@ == reply_turn(outcome_view(outcome)),
    {
        let turn = Turn { orders: Vec::new(), next: Next::Reply(outcome) };
        assert(orders_view(turn.orders@) =~= Seq::empty());
        turn
    }

    /// The turn that waits for a query and orders nothing.
    pub fn wait(pending: Pending, query: Query) -> (turn: Turn)
        ensures
            turn@ == wait_turn(pending@, query@),
    {
        let turn = Turn { orders: Vec::new(), next: Next::Wait { pending, query } };
        assert(orders_view(turn.orders@) =~= Seq::empty());
        turn
    }

    /// This turn with `order` carried out before its own orders.
    pub fn after(self, order: Order) -> (turn: Turn)
        ensures
            turn@ == (TurnView { orders: seq![order@] + self@.orders, next: self@.next }),
    {
        let Turn { orders, next } = self;
        let mut all: Vec<Order> = Vec::new();
        all.push(order);
        let mut orders = orders;
        all.append(&mut orders);
        let turn = Turn { orders: all, next };
        assert(orders_view(turn.orders@) =~= seq![order@] + self@.orders);
        turn
    }
}

} // verus!
