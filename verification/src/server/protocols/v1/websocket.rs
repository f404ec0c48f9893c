//! The hub of the subscribers.
//!
//! Every subscriber may restrict what it gets to one device and to the
//! messages that its filter, a regular expression, matches. The hub
//! decides who gets a published message; the runtime hands the copies
//! over, one by one, without waiting for anybody.
use crate::device::manager::{
    outcome_view, Answer, AnswerView, ManagerError, ManagerErrorView, Request,
};
use crate::device::recording::session::RecordingSession;
use vstd::prelude::*;
use vstd::string::StringExecFns;

verus! {

/// A text on its way to one subscriber.
#[derive(Debug)]
pub struct StringMessage(pub String);

/// A failure in the words that a client is told.
#[derive(Debug)]
pub struct WebsocketError {
    pub error: String,
}

/// Whether `pattern` is a regular expression that the crate `regex`
/// compiles.
pub uninterp spec fn regex_compiles(pattern: Seq<char>) -> bool;

/// Whether the regular expression `pattern` matches somewhere in
/// `haystack`, as the crate `regex` finds it. `None` where the crate does
/// not compile `pattern`.
pub uninterp spec fn regex_is_match(pattern: Seq<char>, haystack: Seq<char>) -> Option<bool>;

/// `Regex::new` of the crate `regex`: whether the pattern is accepted.
#[verifier::external_body]
pub(crate) fn compiles(pattern: &str) -> (accepted: bool)
    ensures
        accepted == regex_compiles(pattern@),
{
    regex::Regex::new(pattern).is_ok()
}

/// `Regex::is_match` of the crate `regex`, on the expression that
/// `Regex::new` makes of the pattern: whether there is a match anywhere in
/// the haystack. `None` where `Regex::new` refuses the pattern.
#[verifier::external_body]
pub(crate) fn is_match(pattern: &str, haystack: &str) -> (found: Option<bool>)
    ensures
        found == regex_is_match(pattern@, haystack@),
        found.is_some() == regex_compiles(pattern@),
{
    match regex::Regex::new(pattern) {
        Ok(expression) => Some(expression.is_match(haystack)),
        Err(_) => None,
    }
}

/// One subscriber: its address, the pattern of its filter if it has one
/// that compiles, and the device it is restricted to if it is.
#[derive(Debug)]
pub struct WebsocketActorContent {
    pub actor: u64,
    pub re: Option<String>,
    pub device_number: Option<u128>,
}

pub struct ContentView {
    pub actor: u64,
    pub re: Option<Seq<char>>,
    pub device_number: Option<u128>,
}

impl View for WebsocketActorContent {
    type V = ContentView;

    open spec fn view(&self) -> ContentView {
        ContentView {
            actor: self.actor,
            re: match self.re {
                Some(pattern) => Some(pattern@),
                None => None,
            },
            device_number: self.device_number,
        }
    }
}

/// The subscribers, in the order in which they came.
#[derive(Debug)]
pub struct WebsocketManager {
    pub clients: Vec<WebsocketActorContent>,
}

impl View for WebsocketManager {
    type V = Seq<ContentView>;

    open spec fn view(&self) -> Seq<ContentView> {
        self.clients@.map_values(|c: WebsocketActorContent| c@)
    }
}

/// A copy of a message for the subscriber at the address `actor`.
#[derive(Debug)]
pub struct Delivery {
    pub actor: u64,
    pub message: StringMessage,
}

pub struct DeliveryView {
    pub actor: u64,
    pub message: Seq<char>,
}

impl View for Delivery {
    type V = DeliveryView;

    open spec fn view(&self) -> DeliveryView {
        DeliveryView { actor: self.actor, message: self.message.0@ }
    }
}

/// Whether a message about `device` is in the scope of a subscriber: of
/// one that is restricted to no device, and of one restricted to `device`.
pub open spec fn in_scope(client: ContentView, device: Option<u128>) -> bool {
    client.device_number is None || client.device_number == device
}

/// Whether the filter of a subscriber lets a message with the text `name`
/// pass: no filter lets everything pass, a filter what it matches.
pub open spec fn passes(client: ContentView, name: Seq<char>) -> bool {
    match client.re {
        None => true,
        Some(pattern) => regex_is_match(pattern, name) == Some(true),
    }
}

/// Whether a subscriber gets a message with the text `name` about `device`.
pub open spec fn receives(client: ContentView, name: Seq<char>, device: Option<u128>) -> bool {
    in_scope(client, device) && passes(client, name)
}

/// The copies of the message `value` that are owed: one for each
/// subscriber that receives it, in the order of the subscribers.
pub open spec fn deliveries(
    clients: Seq<ContentView>,
    value: Seq<char>,
    name: Seq<char>,
    device: Option<u128>,
) -> Seq<DeliveryView>
    decreases clients.len(),
{
    if clients.len() == 0 {
        Seq::empty()
    } else {
        let before = deliveries(clients.drop_last(), value, name, device);
        if receives(clients.last(), name, device) {
            before.push(DeliveryView { actor: clients.last().actor, message: value })
        } else {
            before
        }
    }
}

/// The subscribers without the one at the address `actor`.
pub open spec fn without(clients: Seq<ContentView>, actor: u64) -> Seq<ContentView>
    decreases clients.len(),
{
    if clients.len() == 0 {
        Seq::empty()
    } else if clients.last().actor == actor {
        without(clients.drop_last(), actor)
    } else {
        without(clients.drop_last(), actor).push(clients.last())
    }
}

/// Every copy is a copy of the message, and a subscriber that is
/// restricted to another device than the one of the message gets none.
pub proof fn law_deliveries_stay_in_scope(
    clients: Seq<ContentView>,
    value: Seq<char>,
    name: Seq<char>,
    device: Option<u128>,
)
    ensures
        deliveries(clients, value, name, device).len() <= clients.len(),
        forall|i: int|
            0 <= i < deliveries(clients, value, name, device).len() ==> {
                let copy = #[trigger] deliveries(clients, value, name, device)[i];
                &&& copy.message == value
                &&& exists|j: int|
                    0 <= j < clients.len() && clients[j].actor == copy.actor && receives(
                        #[trigger] clients[j],
                        name,
                        device,
                    )
            },
    decreases clients.len(),
{
    if clients.len() > 0 {
        let rest = clients.drop_last();
        law_deliveries_stay_in_scope(rest, value, name, device);
        let all = deliveries(clients, value, name, device);
        let before = deliveries(rest, value, name, device);
        assert forall|i: int| 0 <= i < all.len() implies {
            let copy = #[trigger] all[i];
            &&& copy.message == value
            &&& exists|j: int|
                0 <= j < clients.len() && clients[j].actor == copy.actor && receives(
                    #[trigger] clients[j],
                    name,
                    device,
                )
        } by {
            if i < before.len() {
                assert(all[i] == before[i]);
                let j = choose|j: int|
                    0 <= j < rest.len() && rest[j].actor == before[i].actor && receives(
                        #[trigger] rest[j],
                        name,
                        device,
                    );
                assert(clients[j] == rest[j]);
            } else {
                assert(receives(clients[clients.len() - 1], name, device));
            }
        }
    }
}

impl WebsocketManager {
    /// A hub without subscribers.
    pub fn new() -> (hub: Self)
        ensures
            hub@ == Seq::<ContentView>::empty(),
    {
        let hub = WebsocketManager { clients: Vec::new() };
        assert(hub@ =~= Seq::<ContentView>::empty());
        hub
    }

    /// The copies of the message `value`, whose text for the filters is
    /// `name`, that are owed to the subscribers.
    pub fn send(&self, value: &str, name: &str, device_number: Option<u128>) -> (copies: Vec<
        Delivery,
    >)
        ensures
            copies@.map_values(|d: Delivery| d@) == deliveries(
                self@,
                value@,
                name@,
                device_number,
            ),
    {
        let mut copies: Vec<Delivery> = Vec::new();
        let mut i: usize = 0;
        assert(self@.take(0) =~= Seq::<ContentView>::empty());
        while i < self.clients.len()
            invariant
                i <= self.clients.len(),
                copies@.map_values(|d: Delivery| d@) == deliveries(
                    self@.take(i as int),
                    value@,
                    name@,
                    device_number,
                ),
            decreases self.clients.len() - i,
        {
            let client = &self.clients[i];
            let ghost before = copies@.map_values(|d: Delivery| d@);
            proof {
                assert(self@.take(i as int + 1).drop_last() =~= self@.take(i as int));
                assert(self@.take(i as int + 1).last() == client@);
            }
            let scoped = match client.device_number {
                None => true,
                Some(own) => match device_number {
                    Some(device) => own == device,
                    None => false,
                },
            };
            if scoped {
                let passes = match &client.re {
                    None => true,
                    Some(pattern) => match is_match(pattern.as_str(), name) {
                        Some(found) => found,
                        None => false,
                    },
                };
                if passes {
                    copies.push(
                        Delivery {
                            actor: client.actor,
                            message: StringMessage(String::from_str(value)),
                        },
                    );
                    assert(copies@.map_values(|d: Delivery| d@) =~= before.push(
                        DeliveryView { actor: client.actor, message: value@ },
                    ));
                }
            }
            i = i + 1;
        }
        assert(self@.take(self@.len() as int) =~= self@);
        copies
    }

    /// Takes the subscriber at the address `actor` in. A filter that does
    /// not compile counts as no filter.
    pub fn register(&mut self, actor: u64, filter: &str, device_number: Option<u128>)
        ensures
            final(self)@ == old(self)@.push(
                ContentView {
                    actor,
                    re: if regex_compiles(filter@) {
                        Some(filter@)
                    } else {
                        None
                    },
                    device_number,
                },
            ),
    {
        let re = if compiles(filter) {
            Some(String::from_str(filter))
        } else {
            None
        };
        self.clients.push(WebsocketActorContent { actor, re, device_number });
        assert(self@ =~= old(self)@.push(
            ContentView {
                actor,
                re: if regex_compiles(filter@) {
                    Some(filter@)
                } else {
                    None
                },
                device_number,
            },
        ));
    }

    /// Lets the subscriber at the address `actor` go.
    pub fn deregister(&mut self, actor: u64)
        ensures
            final(self)@ == without(old(self)@, actor),
    {
        let ghost all = self@;
        let ghost mut seen: int = 0;
        let mut i: usize = 0;
        assert(all.take(0) =~= Seq::<ContentView>::empty());
        assert(all.skip(0) =~= all);
        while i < self.clients.len()
            invariant
                0 <= seen <= all.len(),
                i == without(all.take(seen), actor).len(),
                self@ =~= without(all.take(seen), actor) + all.skip(seen),
            decreases self.clients.len() - i,
        {
            proof {
                assert(self@[i as int] == all.skip(seen)[0]);
                assert(seen < all.len());
                assert(all.take(seen + 1).drop_last() =~= all.take(seen));
                assert(all.take(seen + 1).last() == all[seen]);
                assert(all.skip(seen + 1) =~= all.skip(seen).drop_first());
            }
            let ghost held = self@;
            let ghost kept = without(all.take(seen), actor);
            if self.clients[i].actor == actor {
                self.clients.remove(i);
                proof {
                    assert(self@ =~= held.remove(i as int));
                    assert(held.remove(i as int) =~= kept + all.skip(seen + 1));
                    assert(without(all.take(seen + 1), actor) == kept);
                }
            } else {
                i = i + 1;
                proof {
                    assert(without(all.take(seen + 1), actor) == kept.push(all[seen]));
                    assert(held =~= kept.push(all[seen]) + all.skip(seen + 1));
                }
            }
            proof {
                seen = seen + 1;
            }
        }
        proof {
            assert(all.skip(seen).len() == 0);
            assert(seen == all.len());
            assert(all.take(seen) =~= all);
        }
    }
}

/// The copies of `message` that are owed when it is published about
/// `device`: the filters see the message itself.
pub fn send_to_websockets(hub: &WebsocketManager, message: &str, device: Option<u128>) -> (copies:
    Vec<Delivery>)
    ensures
        copies@.map_values(|d: Delivery| d@) == deliveries(hub@, message@, message@, device),
{
    hub.send(message, message, device)
}

/// Why a connection is closed: the status code of the close frame, and
/// the words that came with it.
#[derive(Debug)]
pub struct CloseReason {
    pub code: u16,
    pub description: Option<String>,
}

pub struct CloseReasonView {
    pub code: u16,
    pub description: Option<Seq<char>>,
}

impl View for CloseReason {
    type V = CloseReasonView;

    open spec fn view(&self) -> CloseReasonView {
        CloseReasonView {
            code: self.code,
            description: match self.description {
                Some(words) => Some(words@),
                None => None,
            },
        }
    }
}

/// The reason of a close frame, where it gave one.
pub open spec fn reason_view(reason: Option<CloseReason>) -> Option<CloseReasonView> {
    match reason {
        Some(r) => Some(r@),
        None => None,
    }
}

/// What a client sends on its connection.
#[derive(Debug)]
pub enum Incoming {
    Ping(Vec<u8>),
    Text(String),
    /// A close frame, with the reason that it gave.
    Close(Option<CloseReason>),
    Other,
}

/// What the actor of a connection does with what the client sent.
#[derive(Debug)]
pub enum Reaction {
    /// Answer the ping with these bytes.
    Pong(Vec<u8>),
    /// Read the text as one request or as a list of requests and send
    /// each to the manager.
    Dispatch(String),
    /// Close the connection, and give the client back the reason of its
    /// close frame.
    Close(Option<CloseReason>),
    Ignore,
}

pub enum ReactionView {
    Pong(Seq<u8>),
    Dispatch(Seq<char>),
    Close(Option<CloseReasonView>),
    Ignore,
}

impl View for Reaction {
    type V = ReactionView;

    open spec fn view(&self) -> ReactionView {
        match self {
            Reaction::Pong(bytes) => ReactionView::Pong(bytes@),
            Reaction::Dispatch(text) => ReactionView::Dispatch(text@),
            Reaction::Close(reason) => ReactionView::Close(reason_view(*reason)),
            Reaction::Ignore => ReactionView::Ignore,
        }
    }
}

/// What becomes of the outcome of a request that came over a connection.
#[derive(Debug)]
pub enum Settled {
    /// Publish the answer to the subscribers, about `device_number`.
    Publish { answer: Answer, device_number: Option<u128> },
    /// Tell the failure to the client that asked, and to nobody else.
    Tell(ManagerError),
}

pub enum SettledView {
    Publish { answer: AnswerView, device_number: Option<u128> },
    Tell(ManagerErrorView),
}

impl View for Settled {
    type V = SettledView;

    open spec fn view(&self) -> SettledView {
        match self {
            Settled::Publish { answer, device_number } => SettledView::Publish {
                answer: answer@,
                device_number: *device_number,
            },
            Settled::Tell(error) => SettledView::Tell(error@),
        }
    }
}

/// The device about which an answer is published: the one that the
/// request named, else the one that the connection is restricted to.
pub open spec fn answer_scope(named: Option<u128>, own: Option<u128>) -> Option<u128> {
    match named {
        Some(device) => Some(device),
        None => own,
    }
}

/// The actor of one connection of a subscriber.
#[derive(Debug)]
pub struct WebsocketActor {
    pub filter: String,
    pub device_number: Option<u128>,
}

impl WebsocketActor {
    pub fn new(message_filter: String, device_number: Option<u128>) -> (actor: Self)
        ensures
            actor.filter@ == message_filter@,
            actor.device_number == device_number,
    {
        WebsocketActor { filter: message_filter, device_number }
    }

    /// The connection is open: the actor joins the hub under `address`.
    pub fn started(&self, hub: &mut WebsocketManager, address: u64)
        ensures
            final(hub)@ == old(hub)@.push(
                ContentView {
                    actor: address,
                    re: if regex_compiles(self.filter@) {
                        Some(self.filter@)
                    } else {
                        None
                    },
                    device_number: self.device_number,
                },
            ),
    {
        hub.register(address, self.filter.as_str(), self.device_number);
    }

    /// The connection is closed: the actor leaves the hub.
    pub fn finished(&self, hub: &mut WebsocketManager, address: u64)
        ensures
            final(hub)@ == without(old(hub)@, address),
    {
        hub.deregister(address);
    }

    /// What the actor does with what the client sent.
    pub fn handle(&self, msg: Incoming) -> (reaction: Reaction)
        ensures
            reaction@ == match msg {
                Incoming::Ping(bytes) => ReactionView::Pong(bytes@),
                Incoming::Text(text) => ReactionView::Dispatch(text@),
                Incoming::Close(reason) => ReactionView::Close(reason_view(reason)),
                Incoming::Other => ReactionView::Ignore,
            },
    {
        match msg {
            Incoming::Ping(bytes) => Reaction::Pong(bytes),
            Incoming::Text(text) => Reaction::Dispatch(text),
            Incoming::Close(reason) => Reaction::Close(reason),
            Incoming::Other => Reaction::Ignore,
        }
    }

    /// What becomes of the outcome of a request that named the device
    /// `named`.
    pub fn settle(&self, named: Option<u128>, outcome: Result<Answer, ManagerError>) -> (settled:
        Settled)
        ensures
            settled@ == match outcome_view(outcome) {
                Ok(answer) => SettledView::Publish {
                    answer,
                    device_number: answer_scope(named, self.device_number),
                },
                Err(error) => SettledView::Tell(error),
            },
    {
        match outcome {
            Ok(answer) => {
                let device_number = match named {
                    Some(device) => Some(device),
                    None => self.device_number,
                };
                Settled::Publish { answer, device_number }
            },
            Err(error) => Settled::Tell(error),
        }
    }
}

/// The actor of one connection that follows the recording sessions.
#[derive(Debug)]
pub struct RecordingStatusActor {
    pub device_number: Option<u128>,
}

impl RecordingStatusActor {
    pub fn new(device_number: Option<u128>) -> (actor: Self)
        ensures
            actor.device_number == device_number,
    {
        RecordingStatusActor { device_number }
    }

    /// Whether the client is told about `session`: a client restricted
    /// to a device only about the sessions of that device.
    pub fn tells(&self, session: &RecordingSession) -> (told: bool)
        ensures
            told == (self.device_number is None || self.device_number == Some(
                session.device_id,
            )),
    {
        match self.device_number {
            None => true,
            Some(device) => device == session.device_id,
        }
    }

    /// What the actor does with what the client sent.
    pub fn handle(&self, msg: Incoming) -> (reaction: Reaction)
        ensures
            reaction@ == match msg {
                Incoming::Ping(bytes) => ReactionView::Pong(bytes@),
                Incoming::Close(reason) => ReactionView::Close(reason_view(reason)),
                _ => ReactionView::Ignore,
            },
    {
        match msg {
            Incoming::Ping(bytes) => Reaction::Pong(bytes),
            Incoming::Close(reason) => Reaction::Close(reason),
            _ => Reaction::Ignore,
        }
    }
}

/// What a client asks for when it connects.
#[derive(Debug)]
pub struct WebsocketQuery {
    /// The regular expression that selects the messages.
    pub filter: Option<String>,
    pub device_number: Option<u128>,
}

/// The filter of a connection that asks for none: it matches everything.
pub open spec fn any_message() -> Seq<char> {
    ".*"@
}

impl WebsocketQuery {
    /// The request by which the manager is asked whether the device of
    /// this connection exists, where the connection names one.
    pub fn admission(&self) -> (request: Option<Request>)
        ensures
            match self.device_number {
                Some(device) => request matches Some(r) && r@
                    == crate::device::manager::RequestView::Info(device),
                None => request is None,
            },
    {
        match self.device_number {
            Some(device) => Some(Request::Info(device)),
            None => None,
        }
    }
}

/// Why a connection is turned away.
pub open spec fn turned_away(
    device_number: Option<u128>,
    known: Option<Result<AnswerView, ManagerErrorView>>,
) -> Option<ManagerErrorView> {
    match (device_number, known) {
        (Some(device), Some(Err(error))) => Some(error),
        (Some(device), None) => Some(ManagerErrorView::DeviceNotExist(device)),
        _ => None,
    }
}

/// What the manager said of the device of a connection, seen through views.
pub open spec fn known_view(known: Option<Result<Answer, ManagerError>>) -> Option<
    Result<AnswerView, ManagerErrorView>,
> {
    match known {
        Some(outcome) => Some(outcome_view(outcome)),
        None => None,
    }
}

/// Admits a subscriber: a connection that names a device is admitted only
/// if the manager knows the device. `known` is what the manager answered
/// to the request of [`WebsocketQuery::admission`].
pub fn websocket(query: WebsocketQuery, known: Option<Result<Answer, ManagerError>>) -> (admitted:
    Result<WebsocketActor, ManagerError>)
    ensures
        match turned_away(query.device_number, known_view(known)) {
            Some(error) => admitted matches Err(e) && e@ == error,
            None => admitted matches Ok(actor) && actor.device_number == query.device_number
                && actor.filter@ == match query.filter {
                Some(filter) => filter@,
                None => any_message(),
            },
        },
{
    match (query.device_number, known) {
        (Some(device), Some(Err(error))) => {
            return Err(error);
        },
        (Some(device), None) => {
            return Err(ManagerError::DeviceNotExist(device));
        },
        _ => {},
    }
    let filter = match query.filter {
        Some(filter) => filter,
        None => String::from_str(".*"),
    };
    Ok(WebsocketActor::new(filter, query.device_number))
}

/// Admits a follower of the recording sessions, as [`websocket`] admits a
/// subscriber.
pub fn recording_websocket(
    query: WebsocketQuery,
    known: Option<Result<Answer, ManagerError>>,
) -> (admitted: Result<RecordingStatusActor, ManagerError>)
    ensures
        match turned_away(query.device_number, known_view(known)) {
            Some(error) => admitted matches Err(e) && e@ == error,
            None => admitted matches Ok(actor) && actor.device_number == query.device_number,
        },
{
    match (query.device_number, known) {
        (Some(device), Some(Err(error))) => Err(error),
        (Some(device), None) => Err(ManagerError::DeviceNotExist(device)),
        _ => Ok(RecordingStatusActor::new(query.device_number)),
    }
}

} // verus!
