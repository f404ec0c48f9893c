//! The supervisor of the device fleet.
//!
//! A device is known by the identity of its source. This file holds the
//! types that name sources, devices, requests, answers and failures, each
//! with its mathematical view, the rule that derives an identity from a
//! source, and the manager that keeps the fleet. What the manager does is
//! laid down, step by step, in the module `fleet`; the functions here are
//! proved to do exactly that.
use super::devices::{
    profile_message_id, reply_view, ContinuousStartStruct, ContinuousStopStruct,
    DeviceActorHandler, DeviceError, DeviceErrorView, Ping1DRequest, PingAnswer, PingAnswerView,
    PingRequest, PingRequestView,
};
use super::fleet::{
    after_open, after_startup, after_stop, after_subscribe, after_upgrade, class_of,
    create_turn, deleted, disabled, enable_turn, failed_turn, fleet_wf, handler_in,
    handler_outcome, handles, info_outcome, inserted, is_list_outcome, known, resumed,
    startup_request, status_among, stop_request, subscribed, swept, Fleet,
};
use super::turn::{opened_view, Event, Order, Pending, Query, Turn};
use std::collections::hash_map::DefaultHasher;
use std::collections::HashMap;
use std::hash::Hasher;
use vstd::prelude::*;
use vstd::std_specs::hash::spec_hash_map_iter;
use vstd::std_specs::iter::IteratorSpec;
use vstd::std_specs::hash::DefaultHasherAdditionalSpecFns;
use vstd::string::StringExecFns;
use vstd::utf8::encode_utf8;

verus! {

/// The class of a device. `Auto` asks for detection while the device is
/// created and is never stored.
#[derive(Debug, Clone, Copy, PartialEq, Eq, Structural)]
pub enum DeviceSelection {
    Common,
    Ping1D,
    Ping360,
    Auto,
}

/// Where a device record stands in its life.
#[derive(Debug, Clone, Copy, PartialEq, Eq, Structural)]
pub enum DeviceStatus {
    /// The actor is alive and its telemetry is not republished.
    Running,
    /// The actor's task has ended. Nothing leaves this state.
    Stopped,
    /// The actor is alive and its telemetry is republished to subscribers.
    Broadcasting,
}

/// A device reached over UDP: the four octets of its IPv4 address and its port.
#[derive(Debug, Clone, Copy)]
pub struct SourceUdpStruct {
    pub ip: [u8; 4],
    pub port: u16,
}

/// A device reached over a serial line.
#[derive(Debug)]
pub struct SourceSerialStruct {
    pub path: String,
    pub baudrate: u32,
}

impl Clone for SourceSerialStruct {
    fn clone(&self) -> (r: Self)
        ensures
            r.path@ == self.path@,
            r.baudrate == self.baudrate,
    {
        SourceSerialStruct { path: self.path.clone(), baudrate: self.baudrate }
    }
}

/// The transport of a device and its address on it.
#[derive(Debug)]
pub enum SourceSelection {
    UdpStream(SourceUdpStruct),
    SerialStream(SourceSerialStruct),
}

pub enum SourceView {
    UdpStream { ip: Seq<u8>, port: u16 },
    SerialStream { path: Seq<char>, baudrate: u32 },
}

impl View for SourceSelection {
    type V = SourceView;

    open spec fn view(&self) -> SourceView {
        match self {
            SourceSelection::UdpStream(udp) => SourceView::UdpStream {
                ip: udp.ip@,
                port: udp.port,
            },
            SourceSelection::SerialStream(serial) => SourceView::SerialStream {
                path: serial.path@,
                baudrate: serial.baudrate,
            },
        }
    }
}

impl Clone for SourceSelection {
    fn clone(&self) -> (r: Self)
        ensures
            r@ == self@,
    {
        match self {
            SourceSelection::UdpStream(udp) => SourceSelection::UdpStream(
                SourceUdpStruct { ip: udp.ip, port: udp.port },
            ),
            SourceSelection::SerialStream(serial) => SourceSelection::SerialStream(serial.clone()),
        }
    }
}

/// The canonical bytes of a source: a tag for the transport, then the
/// address, numbers with their high byte first, text in UTF-8.
pub open spec fn source_bytes(source: SourceView) -> Seq<u8> {
    match source {
        SourceView::UdpStream { ip, port } => seq![0u8] + ip + seq![
            (port / 256) as u8,
            (port % 256) as u8,
        ],
        SourceView::SerialStream { path, baudrate } => seq![
            1u8,
            (baudrate / 16777216) as u8,
            (baudrate / 65536 % 256) as u8,
            (baudrate / 256 % 256) as u8,
            (baudrate % 256) as u8,
        ] + encode_utf8(path),
    }
}

/// The identity of the device behind a source: the hash of the source's
/// canonical bytes. Equal sources have equal identities.
pub open spec fn device_id(source: SourceView) -> u128 {
    DefaultHasher::spec_finish(seq![source_bytes(source)]) as u128
}

impl SourceSelection {
    /// The canonical bytes of this source.
    pub fn canonical_bytes(&self) -> (bytes: Vec<u8>)
        ensures
            bytes@ == source_bytes(self@),
    {
        let mut bytes: Vec<u8> = Vec::new();
        match self {
            SourceSelection::UdpStream(udp) => {
                bytes.push(0u8);
                bytes.push(udp.ip[0]);
                bytes.push(udp.ip[1]);
                bytes.push(udp.ip[2]);
                bytes.push(udp.ip[3]);
                bytes.push((udp.port / 256) as u8);
                bytes.push((udp.port % 256) as u8);
                assert(bytes@ =~= source_bytes(self@));
            },
            SourceSelection::SerialStream(serial) => {
                bytes.push(1u8);
                bytes.push((serial.baudrate / 16777216) as u8);
                bytes.push((serial.baudrate / 65536 % 256) as u8);
                bytes.push((serial.baudrate / 256 % 256) as u8);
                bytes.push((serial.baudrate % 256) as u8);
                let text = serial.path.as_str().as_bytes();
                let mut i: usize = 0;
                while i < text.len()
                    invariant
                        i <= text.len(),
                        text@ == encode_utf8(serial.path@),
                        bytes@ == source_bytes(self@).subrange(0, 5 + i),
                        *self == SourceSelection::SerialStream(*serial),
                    decreases text.len() - i,
                {
                    bytes.push(text[i]);
                    i = i + 1;
                }
                assert(bytes@ =~= source_bytes(self@));
            },
        }
        bytes
    }

    /// The identity under which the fleet knows the device behind this source.
    pub fn id(&self) -> (id: u128)
        ensures
            id == device_id(self@),
    {
        let bytes = self.canonical_bytes();
        let mut hasher = DefaultHasher::new();
        hasher.write(bytes.as_slice());
        assert(hasher@ =~= seq![source_bytes(self@)]);
        hasher.finish() as u128
    }
}

/// What the fleet tells about one device.
#[derive(Debug)]
pub struct DeviceInfo {
    pub id: u128,
    pub source: SourceSelection,
    pub status: DeviceStatus,
    pub device_type: DeviceSelection,
}

pub struct DeviceInfoView {
    pub id: u128,
    pub source: SourceView,
    pub status: DeviceStatus,
    pub device_type: DeviceSelection,
}

impl View for DeviceInfo {
    type V = DeviceInfoView;

    open spec fn view(&self) -> DeviceInfoView {
        DeviceInfoView {
            id: self.id,
            source: self.source@,
            status: self.status,
            device_type: self.device_type,
        }
    }
}

impl Clone for DeviceInfo {
    fn clone(&self) -> (r: Self)
        ensures
            r@ == self@,
    {
        DeviceInfo {
            id: self.id,
            source: self.source.clone(),
            status: self.status,
            device_type: self.device_type,
        }
    }
}

/// The views of a list of device infos, in order.
pub open spec fn infos_view(infos: Seq<DeviceInfo>) -> Seq<DeviceInfoView> {
    infos.map_values(|d: DeviceInfo| d@)
}

/// One record of the fleet. `broadcast` says that a task is attached that
/// forwards the device's telemetry to subscribers.
#[derive(Debug)]
pub struct Device {
    pub id: u128,
    pub source: SourceSelection,
    pub broadcast: bool,
    pub status: DeviceStatus,
    pub device_type: DeviceSelection,
}

pub struct DeviceView {
    pub id: u128,
    pub source: SourceView,
    pub broadcast: bool,
    pub status: DeviceStatus,
    pub device_type: DeviceSelection,
}

impl View for Device {
    type V = DeviceView;

    open spec fn view(&self) -> DeviceView {
        DeviceView {
            id: self.id,
            source: self.source@,
            broadcast: self.broadcast,
            status: self.status,
            device_type: self.device_type,
        }
    }
}

/// What the fleet tells about the device `d`.
pub open spec fn info_of(d: DeviceView) -> DeviceInfoView {
    DeviceInfoView { id: d.id, source: d.source, status: d.status, device_type: d.device_type }
}

impl Device {
    pub fn info(&self) -> (info: DeviceInfo)
        ensures
            info@ == info_of(self@),
    {
        DeviceInfo {
            id: self.id,
            source: self.source.clone(),
            status: self.status,
            device_type: self.device_type,
        }
    }
}

#[derive(Debug)]
pub struct CreateStruct {
    pub source: SourceSelection,
    pub device_selection: DeviceSelection,
}

#[derive(Debug)]
pub struct DeviceRequestStruct {
    pub target: u128,
    pub request: PingRequest,
}

/// What a client may ask of the fleet.
#[derive(Debug)]
pub enum Request {
    Create(CreateStruct),
    Delete(u128),
    List,
    Info(u128),
    Search,
    Ping(DeviceRequestStruct),
    GetDeviceHandler(u128),
    EnableBroadcasting(u128),
    DisableBroadcasting(u128),
}

pub enum RequestView {
    Create { source: SourceView, device_selection: DeviceSelection },
    Delete(u128),
    List,
    Info(u128),
    Search,
    Ping { target: u128, request: PingRequestView },
    GetDeviceHandler(u128),
    EnableBroadcasting(u128),
    DisableBroadcasting(u128),
}

impl View for Request {
    type V = RequestView;

    open spec fn view(&self) -> RequestView {
        match self {
            Request::Create(c) => RequestView::Create {
                source: c.source@,
                device_selection: c.device_selection,
            },
            Request::Delete(id) => RequestView::Delete(*id),
            Request::List => RequestView::List,
            Request::Info(id) => RequestView::Info(*id),
            Request::Search => RequestView::Search,
            Request::Ping(p) => RequestView::Ping { target: p.target, request: p.request@ },
            Request::GetDeviceHandler(id) => RequestView::GetDeviceHandler(*id),
            Request::EnableBroadcasting(id) => RequestView::EnableBroadcasting(*id),
            Request::DisableBroadcasting(id) => RequestView::DisableBroadcasting(*id),
        }
    }
}

impl Request {
    /// The device that this request names, if it names one.
    pub open spec fn spec_device(request: RequestView) -> Option<u128> {
        match request {
            RequestView::Delete(id) => Some(id),
            RequestView::Info(id) => Some(id),
            RequestView::Ping { target, request } => Some(target),
            RequestView::GetDeviceHandler(id) => Some(id),
            RequestView::EnableBroadcasting(id) => Some(id),
            RequestView::DisableBroadcasting(id) => Some(id),
            _ => None,
        }
    }

    /// The device that this request names, if it names one.
    pub fn device(&self) -> (id: Option<u128>)
        ensures
            id == Self::spec_device(self@),
    {
        match self {
            Request::Delete(id) => Some(*id),
            Request::Info(id) => Some(*id),
            Request::Ping(p) => Some(p.target),
            Request::GetDeviceHandler(id) => Some(*id),
            Request::EnableBroadcasting(id) => Some(*id),
            Request::DisableBroadcasting(id) => Some(*id),
            _ => None,
        }
    }
}

/// The answer of a device to a forwarded request, with the device's identity.
#[derive(Debug)]
pub struct DeviceAnswer {
    pub answer: PingAnswer,
    pub device_id: u128,
}

/// What the fleet answers.
#[derive(Debug)]
pub enum Answer {
    DeviceMessage(DeviceAnswer),
    InnerDeviceHandler(DeviceActorHandler),
    DeviceInfo(Vec<DeviceInfo>),
}

pub enum AnswerView {
    DeviceMessage { answer: PingAnswerView, device_id: u128 },
    InnerDeviceHandler(DeviceActorHandler),
    DeviceInfo(Seq<DeviceInfoView>),
}

impl View for Answer {
    type V = AnswerView;

    open spec fn view(&self) -> AnswerView {
        match self {
            Answer::DeviceMessage(m) => AnswerView::DeviceMessage {
                answer: m.answer@,
                device_id: m.device_id,
            },
            Answer::InnerDeviceHandler(h) => AnswerView::InnerDeviceHandler(*h),
            Answer::DeviceInfo(infos) => AnswerView::DeviceInfo(infos_view(infos@)),
        }
    }
}

/// Why the fleet refuses or fails a request.
#[derive(Debug)]
pub enum ManagerError {
    DeviceNotExist(u128),
    DeviceAlreadyExist(u128),
    /// The device is in a status that forbids the request.
    DeviceStatus(DeviceStatus, u128),
    DeviceError(DeviceError),
    /// The transport of the source could not be opened.
    DeviceSourceError(String),
    NoDevices,
    /// The request queue or the reply channel is closed.
    TokioMpsc(String),
    NotImplemented(Request),
    Other(String),
}

pub enum ManagerErrorView {
    DeviceNotExist(u128),
    DeviceAlreadyExist(u128),
    DeviceStatus(DeviceStatus, u128),
    DeviceError(DeviceErrorView),
    DeviceSourceError(Seq<char>),
    NoDevices,
    TokioMpsc(Seq<char>),
    NotImplemented(RequestView),
    Other(Seq<char>),
}

impl View for ManagerError {
    type V = ManagerErrorView;

    open spec fn view(&self) -> ManagerErrorView {
        match self {
            ManagerError::DeviceNotExist(id) => ManagerErrorView::DeviceNotExist(*id),
            ManagerError::DeviceAlreadyExist(id) => ManagerErrorView::DeviceAlreadyExist(*id),
            ManagerError::DeviceStatus(status, id) => ManagerErrorView::DeviceStatus(*status, *id),
            ManagerError::DeviceError(e) => ManagerErrorView::DeviceError(e@),
            ManagerError::DeviceSourceError(s) => ManagerErrorView::DeviceSourceError(s@),
            ManagerError::NoDevices => ManagerErrorView::NoDevices,
            ManagerError::TokioMpsc(s) => ManagerErrorView::TokioMpsc(s@),
            ManagerError::NotImplemented(r) => ManagerErrorView::NotImplemented(r@),
            ManagerError::Other(s) => ManagerErrorView::Other(s@),
        }
    }
}

/// A request that may be absent, seen through its view.
pub open spec fn request_view(request: Option<PingRequest>) -> Option<PingRequestView> {
    match request {
        Some(r) => Some(r@),
        None => None,
    }
}

/// An outcome whose failure is seen through its view.
pub open spec fn failure_view<T>(outcome: Result<T, ManagerError>) -> Result<T, ManagerErrorView> {
    match outcome {
        Ok(value) => Ok(value),
        Err(e) => Err(e@),
    }
}

/// The outcome of a request, seen through the views of its parts.
pub open spec fn outcome_view(outcome: Result<Answer, ManagerError>) -> Result<
    AnswerView,
    ManagerErrorView,
> {
    match outcome {
        Ok(a) => Ok(a@),
        Err(e) => Err(e@),
    }
}


/// The fleet: every device the service knows, filed under its identity.
pub struct DeviceManager {
    device: HashMap<u128, Device>,
}

impl View for DeviceManager {
    type V = Fleet;

    closed spec fn view(&self) -> Fleet {
        Map::new(|id: u128| self.device@.contains_key(id), |id: u128| self.device@[id]@)
    }
}

impl DeviceManager {
    /// The fleet has finitely many records, and every record is filed
    /// under its own identity, the identity of its source, and is well
    /// formed.
    pub open spec fn wf(&self) -> bool {
        fleet_wf(self@)
    }

    proof fn lemma_view_dom(&self)
        ensures
            self@.dom() == self.device@.dom(),
            self@.dom().finite(),
    {
        assert(self@.dom() =~= self.device@.dom());
    }

    /// An empty fleet.
    pub fn new() -> (manager: Self)
        ensures
            manager@ == Map::<u128, DeviceView>::empty(),
            manager.wf(),
    {
        let manager = DeviceManager { device: HashMap::new() };
        assert(manager@ =~= Map::<u128, DeviceView>::empty());
        proof {
            manager.lemma_view_dom();
        }
        manager
    }

    /// Whether the fleet knows `device_id`.
    pub fn check_device_uuid(&self, device_id: u128) -> (outcome: Result<(), ManagerError>)
        ensures
            failure_view(outcome) == known(self@, device_id),
    {
        if self.device.contains_key(&device_id) {
            return Ok(());
        }
        Err(ManagerError::DeviceNotExist(device_id))
    }

    /// The record of `device_id`.
    pub fn get_device(&self, device_id: u128) -> (outcome: Result<&Device, ManagerError>)
        ensures
            self@.contains_key(device_id) ==> (outcome matches Ok(device) && device@
                == self@[device_id]),
            !self@.contains_key(device_id) ==> (outcome matches Err(e) && e@
                == ManagerErrorView::DeviceNotExist(device_id)),
    {
        match self.device.get(&device_id) {
            Some(device) => Ok(device),
            None => Err(ManagerError::DeviceNotExist(device_id)),
        }
    }

    /// Whether `device_id` is in one of the `valid_statuses`.
    pub fn check_device_status(&self, device_id: u128, valid_statuses: &[DeviceStatus]) -> (outcome:
        Result<(), ManagerError>)
        ensures
            failure_view(outcome) == status_among(self@, device_id, valid_statuses@),
    {
        let status = match self.device.get(&device_id) {
            Some(device) => device.status,
            None => {
                return Err(ManagerError::DeviceNotExist(device_id));
            },
        };
        let mut i: usize = 0;
        while i < valid_statuses.len()
            invariant
                i <= valid_statuses.len(),
                self@.contains_key(device_id),
                status == self@[device_id].status,
                forall|j: int| 0 <= j < i ==> valid_statuses@[j] != status,
            decreases valid_statuses.len() - i,
        {
            if valid_statuses[i] == status {
                assert(valid_statuses@[i as int] == status);
                return Ok(());
            }
            i = i + 1;
        }
        Err(ManagerError::DeviceStatus(status, device_id))
    }

    /// The class of `device_id`.
    pub fn get_device_type(&self, device_id: u128) -> (outcome: Result<
        DeviceSelection,
        ManagerError,
    >)
        ensures
            failure_view(outcome) == class_of(self@, device_id),
    {
        match self.device.get(&device_id) {
            Some(device) => Ok(device.device_type),
            None => Err(ManagerError::DeviceNotExist(device_id)),
        }
    }

    /// The info of every device of the fleet. An empty fleet has nothing to list.
    pub fn list(&self) -> (outcome: Result<Answer, ManagerError>)
        requires
            self.wf(),
        ensures
            is_list_outcome(outcome_view(outcome), self@),
    {
        proof {
            self.lemma_view_dom();
        }
        if self.device.is_empty() {
            return Err(ManagerError::NoDevices);
        }
        let ghost walk = spec_hash_map_iter(&self.device).remaining();
        let mut list: Vec<DeviceInfo> = Vec::new();
        for entry in it: self.device.iter()
            invariant
                it.seq() == walk,
                list@.len() == it.index(),
                forall|i: int|
                    0 <= i < list@.len() ==> (#[trigger] list@[i])@ == info_of((*walk[i].1)@),
        {
            list.push(entry.1.info());
        }
        proof {
            let infos = infos_view(list@);
            assert(list@.len() == walk.len());
            assert forall|i: int| 0 <= i < infos.len() implies self@.contains_key(
                #[trigger] infos[i].id,
            ) && infos[i] == info_of(self@[infos[i].id]) by {
                let key = *walk[i].0;
                assert(self.device@.contains_key(key));
                assert(self@.contains_key(key));
            }
            assert forall|i: int, j: int|
                0 <= i < infos.len() && 0 <= j < infos.len() && i != j implies #[trigger] infos[i].id
                != #[trigger] infos[j].id by {
                assert(self.device@.contains_key(*walk[i].0));
                assert(self.device@.contains_key(*walk[j].0));
                assert(self@.contains_key(*walk[i].0));
                assert(self@.contains_key(*walk[j].0));
                if infos[i].id == infos[j].id {
                    assert(walk[i] == walk[j]);
                }
            }
            assert forall|id: u128| #[trigger] self@.contains_key(id) implies exists|i: int|
                0 <= i < infos.len() && #[trigger] infos[i].id == id by {
                assert(self.device@.contains_key(id));
                let entry = (&id, &self.device@[id]);
                assert(walk.contains(entry));
                let i = choose|i: int| 0 <= i < walk.len() && walk[i] == entry;
                assert(infos[i] == info_of((*walk[i].1)@));
                assert(infos[i].id == id);
            }
        }
        Ok(Answer::DeviceInfo(list))
    }

    /// The info of `device_id`.
    pub fn info(&self, device_id: u128) -> (outcome: Result<Answer, ManagerError>)
        ensures
            outcome_view(outcome) == info_outcome(self@, device_id),
    {
        match self.device.get(&device_id) {
            Some(device) => {
                let mut list: Vec<DeviceInfo> = Vec::new();
                list.push(device.info());
                assert(infos_view(list@) =~= seq![info_of(self@[device_id])]);
                Ok(Answer::DeviceInfo(list))
            },
            None => Err(ManagerError::DeviceNotExist(device_id)),
        }
    }

    /// The address of the actor of `device_id`. A stopped device has none
    /// to give.
    pub fn get_device_handler(&self, device_id: u128) -> (outcome: Result<Answer, ManagerError>)
        ensures
            outcome_view(outcome) == handler_outcome(self@, device_id),
    {
        match self.device.get(&device_id) {
            Some(device) => {
                match device.status {
                    DeviceStatus::Stopped => Err(
                        ManagerError::DeviceStatus(DeviceStatus::Stopped, device_id),
                    ),
                    _ => Ok(Answer::InnerDeviceHandler(DeviceActorHandler { device_id })),
                }
            },
            None => Err(ManagerError::DeviceNotExist(device_id)),
        }
    }

    /// The handler that the answer holds.
    pub fn extract_handler(device_handler: Answer) -> (outcome: Result<
        DeviceActorHandler,
        ManagerError,
    >)
        ensures
            failure_view(outcome) == handler_in(device_handler@),
    {
        match device_handler {
            Answer::InnerDeviceHandler(handler) => Ok(handler),
            _ => Err(ManagerError::Other(String::from_str("Unreachable: extract_handler helper"))),
        }
    }

    /// Whether the actor, asked for a subscription, gave one.
    pub fn get_subscriber(reply: Result<PingAnswer, DeviceError>) -> (outcome: Result<
        (),
        ManagerError,
    >)
        ensures
            failure_view(outcome) == subscribed(reply_view(reply)),
    {
        match reply {
            Err(e) => Err(ManagerError::DeviceError(e)),
            Ok(PingAnswer::Subscriber) => Ok(()),
            Ok(_) => Err(ManagerError::Other(String::from_str("Unreachable: get_subscriber helper"))),
        }
    }

    /// What a device of class `device_type` is told when its broadcast is
    /// enabled: a Ping1D to stream its profile, any other nothing.
    pub fn broadcast_startup_routine(device_type: DeviceSelection) -> (request: Option<PingRequest>)
        ensures
            request_view(request) == startup_request(device_type),
    {
        match device_type {
            DeviceSelection::Ping1D => Some(
                PingRequest::Ping1D(
                    Ping1DRequest::ContinuousStart(
                        ContinuousStartStruct { id: profile_message_id() },
                    ),
                ),
            ),
            _ => None,
        }
    }

    /// What a device of class `device_type` is told when its broadcast is
    /// disabled: a Ping1D to stop streaming its profile, any other nothing.
    pub fn broadcast_stop_routine(device_type: DeviceSelection) -> (request: Option<PingRequest>)
        ensures
            request_view(request) == stop_request(device_type),
    {
        match device_type {
            DeviceSelection::Ping1D => Some(
                PingRequest::Ping1D(
                    Ping1DRequest::ContinuousStop(ContinuousStopStruct { id: profile_message_id() }),
                ),
            ),
            _ => None,
        }
    }

    /// Files `device` under its identity.
    fn file(&mut self, device: Device)
        ensures
            final(self)@ == old(self)@.insert(device.id, device@),
            final(self)@.dom().finite(),
    {
        let ghost record = device@;
        self.device.insert(device.id, device);
        assert(self@ =~= old(self)@.insert(record.id, record));
        proof {
            self.lemma_view_dom();
        }
    }

    /// Takes the record of `device_id` out of the fleet.
    fn take(&mut self, device_id: u128) -> (taken: Option<Device>)
        ensures
            old(self)@.contains_key(device_id) ==> (taken matches Some(device) && device@ == old(
                self,
            )@[device_id]),
            !old(self)@.contains_key(device_id) ==> taken is None,
            final(self)@ == old(self)@.remove(device_id),
            final(self)@.dom().finite(),
    {
        let taken = self.device.remove(&device_id);
        assert(self@ =~= old(self)@.remove(device_id));
        proof {
            self.lemma_view_dom();
        }
        taken
    }

    /// The lazy sweep: stops the record of every device whose actor task
    /// the runtime found finished.
    pub fn update_devices_status(&mut self, finished: &Vec<u128>)
        requires
            old(self).wf(),
        ensures
            final(self)@ == swept(old(self)@, finished@),
            final(self).wf(),
    {
        let mut i: usize = 0;
        while i < finished.len()
            invariant
                i <= finished.len(),
                self@ == swept(old(self)@, finished@.take(i as int)),
                self.wf(),
            decreases finished.len() - i,
        {
            let device_id = finished[i];
            let ghost before = self@;
            match self.take(device_id) {
                Some(device) => {
                    self.file(Device { status: DeviceStatus::Stopped, ..device });
                },
                None => {},
            }
            proof {
                let seen = finished@.take(i as int);
                let more = finished@.take(i as int + 1);
                assert(more == seen.push(device_id));
                assert forall|id: u128| more.contains(id) <==> (seen.contains(id) || id
                    == device_id) by {
                    if seen.contains(id) {
                        let j = choose|j: int| 0 <= j < seen.len() && seen[j] == id;
                        assert(more[j] == id);
                    }
                    if id == device_id {
                        assert(more[i as int] == id);
                    }
                }
                let goal = swept(old(self)@, more);
                assert(before.contains_key(device_id) ==> self@ == before.remove(device_id).insert(
                    device_id,
                    DeviceView { status: DeviceStatus::Stopped, ..before[device_id] },
                ));
                assert(!before.contains_key(device_id) ==> self@ == before.remove(device_id));
                assert forall|id: u128| self@.contains_key(id) == goal.contains_key(id) by {}
                assert forall|id: u128| self@.contains_key(id) implies self@[id] == goal[id] by {
                    if id == device_id {
                        assert(more.contains(id));
                    } else {
                        assert(self@[id] == before[id]);
                    }
                }
                assert(self@ =~= goal);
            }
            i = i + 1;
        }
        assert(finished@.take(finished@.len() as int) == finished@);
    }

    /// Begins the creation of the device behind `source`.
    pub fn create(&self, source: SourceSelection, device_selection: DeviceSelection) -> (turn: Turn)
        ensures
            turn@ == create_turn(self@, source@, device_selection),
    {
        let id = source.id();
        if self.device.contains_key(&id) {
            return Turn::reply(Err(ManagerError::DeviceAlreadyExist(id)));
        }
        let device_type = match device_selection {
            DeviceSelection::Auto => DeviceSelection::Common,
            other => other,
        };
        let query = Query::Open { source: source.clone(), device_type };
        Turn::wait(Pending::Opening { source, device_selection }, query)
    }

    /// The turn of a step that failed with `error` in enabling the
    /// broadcast of `device_id`.
    fn failed(&self, device_id: u128, created: bool, error: ManagerError) -> (turn: Turn)
        ensures
            turn@ == failed_turn(self@, device_id, created, error@),
    {
        if created {
            Turn::reply(self.info(device_id)).after(Order::Report(error))
        } else {
            Turn::reply(Err(error))
        }
    }

    /// The answer that tells about one device.
    fn one(info: DeviceInfo) -> (outcome: Result<Answer, ManagerError>)
        ensures
            outcome_view(outcome) == super::fleet::one_info(info@),
    {
        let mut list: Vec<DeviceInfo> = Vec::new();
        list.push(info);
        assert(infos_view(list@) =~= seq![info@]);
        Ok(Answer::DeviceInfo(list))
    }

    /// Begins to enable the broadcast of `device_id`, for its own sake or,
    /// with `created`, as the last part of a creation.
    fn enable(&self, device_id: u128, created: bool) -> (turn: Turn)
        ensures
            turn@ == enable_turn(self@, device_id, created),
    {
        let status = match self.device.get(&device_id) {
            Some(device) => device.status,
            None => {
                return self.failed(device_id, created, ManagerError::DeviceNotExist(device_id));
            },
        };
        match status {
            DeviceStatus::Running => {},
            _ => {
                return self.failed(
                    device_id,
                    created,
                    ManagerError::DeviceStatus(status, device_id),
                );
            },
        }
        let handler = match self.handler(device_id) {
            Ok(handler) => handler,
            Err(e) => {
                return self.failed(device_id, created, e);
            },
        };
        Turn::wait(
            Pending::Subscribing { id: device_id, created },
            Query::Ask { handler, request: PingRequest::GetSubscriber },
        )
    }

    /// The address of the actor of `device_id`, for the manager's own use.
    fn handler(&self, device_id: u128) -> (outcome: Result<DeviceActorHandler, ManagerError>)
        ensures
            failure_view(outcome) == match handler_outcome(self@, device_id) {
                Ok(answer) => handler_in(answer),
                Err(e) => Err(e),
            },
    {
        match self.get_device_handler(device_id) {
            Ok(answer) => Self::extract_handler(answer),
            Err(e) => Err(e),
        }
    }

    /// Begins to enable the broadcast of `device_id`.
    pub fn broadcast(&self, device_id: u128) -> (turn: Turn)
        ensures
            turn@ == enable_turn(self@, device_id, false),
    {
        self.enable(device_id, false)
    }

    /// Disables the broadcast of `device_id`.
    pub fn broadcast_off(&mut self, device_id: u128) -> (turn: Turn)
        requires
            old(self).wf(),
        ensures
            (final(self)@, turn@) == disabled(old(self)@, device_id),
            final(self).wf(),
    {
        let status = match self.device.get(&device_id) {
            Some(device) => device.status,
            None => {
                return Turn::reply(Err(ManagerError::DeviceNotExist(device_id)));
            },
        };
        match status {
            DeviceStatus::Broadcasting => {},
            _ => {
                return Turn::reply(Err(ManagerError::DeviceStatus(status, device_id)));
            },
        }
        let device = match self.take(device_id) {
            Some(device) => device,
            None => {
                return Turn::reply(Err(ManagerError::DeviceNotExist(device_id)));
            },
        };
        let forwarding = device.broadcast;
        let device = Device { broadcast: false, status: DeviceStatus::Running, ..device };
        let info = device.info();
        let device_type = device.device_type;
        self.file(device);
        assert(self@ =~= disabled(old(self)@, device_id).0);
        let handler = match self.handler(device_id) {
            Ok(handler) => handler,
            Err(e) => {
                return Turn::reply(Err(e));
            },
        };
        let turn = match Self::broadcast_stop_routine(device_type) {
            Some(request) => Turn::wait(
                Pending::Stopping { id: device_id, info },
                Query::Ask { handler, request },
            ),
            None => Turn::reply(Self::one(info)),
        };
        if forwarding {
            turn.after(Order::StopForwarding { id: device_id })
        } else {
            assert(Seq::<super::turn::OrderView>::empty() + turn@.orders =~= turn@.orders);
            turn
        }
    }

    /// Deletes `device_id` from the fleet.
    pub fn delete(&mut self, device_id: u128) -> (turn: Turn)
        requires
            old(self).wf(),
        ensures
            (final(self)@, turn@) == deleted(old(self)@, device_id),
            final(self).wf(),
    {
        match self.take(device_id) {
            Some(device) => {
                let info = device.info();
                Turn::reply(Self::one(info)).after(
                    Order::Abort { id: device_id, forwarding: device.broadcast },
                )
            },
            None => {
                assert(self@ =~= old(self)@);
                Turn::reply(Err(ManagerError::DeviceNotExist(device_id)))
            },
        }
    }

    /// Stores the device that a creation has built, under the identity of
    /// its source.
    fn insert(&mut self, source: SourceSelection, device_type: DeviceSelection) -> (turn: Turn)
        requires
            old(self).wf(),
            !(device_type is Auto),
        ensures
            (final(self)@, turn@) == inserted(old(self)@, source@, device_type),
            final(self).wf(),
    {
        let id = source.id();
        if self.device.contains_key(&id) {
            return Turn::reply(Err(ManagerError::DeviceAlreadyExist(id))).after(
                Order::Discard { id },
            );
        }
        let device = Device {
            id,
            source,
            broadcast: false,
            status: DeviceStatus::Running,
            device_type,
        };
        self.file(device);
        self.enable(id, true).after(Order::Spawn { id })
    }

    /// A creation goes on after its transport was opened, or not.
    fn resume_opening(
        &mut self,
        source: SourceSelection,
        device_selection: DeviceSelection,
        opened: Result<(), String>,
    ) -> (turn: Turn)
        requires
            old(self).wf(),
        ensures
            (final(self)@, turn@) == after_open(
                old(self)@,
                source@,
                device_selection,
                opened_view(opened),
            ),
            final(self).wf(),
    {
        match opened {
            Err(words) => Turn::reply(Err(ManagerError::DeviceSourceError(words))),
            Ok(_) => match device_selection {
                DeviceSelection::Auto => {
                    let handler = DeviceActorHandler { device_id: source.id() };
                    Turn::wait(
                        Pending::Upgrading { source },
                        Query::Ask { handler, request: PingRequest::Upgrade },
                    )
                },
                _ => self.insert(source, device_selection),
            },
        }
    }

    /// A creation goes on after the identification handshake.
    fn resume_upgrading(
        &mut self,
        source: SourceSelection,
        reply: Result<PingAnswer, DeviceError>,
    ) -> (turn: Turn)
        requires
            old(self).wf(),
        ensures
            (final(self)@, turn@) == after_upgrade(old(self)@, source@, reply_view(reply)),
            final(self).wf(),
    {
        let id = source.id();
        match reply {
            Ok(PingAnswer::UpgradeResult(result)) => {
                let device_type = match result {
                    super::devices::UpgradeResult::Unknown => DeviceSelection::Common,
                    super::devices::UpgradeResult::Ping1D => DeviceSelection::Ping1D,
                    super::devices::UpgradeResult::Ping360 => DeviceSelection::Ping360,
                };
                self.insert(source, device_type)
            },
            Ok(_) => Turn::reply(
                Err(ManagerError::Other(String::from_str("Unreachable: create helper"))),
            ).after(Order::Discard { id }),
            Err(e) => Turn::reply(Err(ManagerError::DeviceError(e))).after(Order::Discard { id }),
        }
    }

    /// An enabling goes on after the actor was asked for a subscription.
    fn resume_subscribing(
        &mut self,
        id: u128,
        created: bool,
        reply: Result<PingAnswer, DeviceError>,
    ) -> (turn: Turn)
        requires
            old(self).wf(),
        ensures
            (final(self)@, turn@) == after_subscribe(old(self)@, id, created, reply_view(reply)),
            final(self).wf(),
    {
        match Self::get_subscriber(reply) {
            Err(e) => self.failed(id, created, e),
            Ok(_) => {
                let status = match self.device.get(&id) {
                    Some(device) => device.status,
                    None => {
                        return self.failed(id, created, ManagerError::DeviceNotExist(id));
                    },
                };
                match status {
                    DeviceStatus::Running => {},
                    _ => {
                        return self.failed(id, created, ManagerError::DeviceStatus(status, id));
                    },
                }
                let device = match self.take(id) {
                    Some(device) => device,
                    None => {
                        return self.failed(id, created, ManagerError::DeviceNotExist(id));
                    },
                };
                let device_type = device.device_type;
                let forwarding = Self::start_broadcasting(device_type);
                let device = Device {
                    broadcast: forwarding,
                    status: DeviceStatus::Broadcasting,
                    ..device
                };
                let now = device.info();
                self.file(device);
                assert(self@ =~= after_subscribe(old(self)@, id, created, reply_view(reply)).0);
                let handler = match self.handler(id) {
                    Ok(handler) => handler,
                    Err(e) => {
                        return self.failed(id, created, e);
                    },
                };
                let turn = match Self::broadcast_startup_routine(device_type) {
                    Some(request) => Turn::wait(
                        Pending::Starting { id, created },
                        Query::Ask { handler, request },
                    ),
                    None => Turn::reply(Self::one(now)),
                };
                if forwarding {
                    turn.after(Order::Forward { id, device_type })
                } else {
                    assert(Seq::<super::turn::OrderView>::empty() + turn@.orders
                        =~= turn@.orders);
                    turn
                }
            },
        }
    }

    /// An enabling goes on after the device was asked to stream.
    fn resume_starting(
        &self,
        id: u128,
        created: bool,
        reply: Result<PingAnswer, DeviceError>,
    ) -> (turn: Turn)
        ensures
            (self@, turn@) == after_startup(self@, id, created, reply_view(reply)),
    {
        match reply {
            Err(e) => self.failed(id, created, ManagerError::DeviceError(e)),
            Ok(_) => Turn::reply(self.info(id)),
        }
    }

    /// A disabling goes on after the device was asked to stop streaming.
    fn resume_stopping(info: DeviceInfo, reply: Result<PingAnswer, DeviceError>) -> (turn: Turn)
        ensures
            turn@ == after_stop(info@, reply_view(reply)),
    {
        match reply {
            Err(e) => Turn::reply(Err(ManagerError::DeviceError(e))),
            Ok(_) => Turn::reply(Self::one(info)),
        }
    }

    /// Takes up the request that stands at `pending`, now that the runtime
    /// reports `event` for its query.
    pub fn resume(&mut self, pending: Pending, event: Event) -> (turn: Turn)
        requires
            old(self).wf(),
        ensures
            (final(self)@, turn@) == resumed(old(self)@, pending@, event@),
            final(self).wf(),
    {
        match (pending, event) {
            (Pending::Opening { source, device_selection }, Event::Opened(opened)) => {
                self.resume_opening(source, device_selection, opened)
            },
            (Pending::Upgrading { source }, Event::Answered(reply)) => self.resume_upgrading(
                source,
                reply,
            ),
            (Pending::Subscribing { id, created }, Event::Answered(reply)) => {
                self.resume_subscribing(id, created, reply)
            },
            (Pending::Starting { id, created }, Event::Answered(reply)) => self.resume_starting(
                id,
                created,
                reply,
            ),
            (Pending::Stopping { id, info }, Event::Answered(reply)) => Self::resume_stopping(
                info,
                reply,
            ),
            (Pending::Subscribing { id, created }, _) => self.failed(
                id,
                created,
                ManagerError::Other(String::from_str("Unexpected event for the pending request")),
            ),
            (Pending::Starting { id, created }, _) => self.failed(
                id,
                created,
                ManagerError::Other(String::from_str("Unexpected event for the pending request")),
            ),
            (Pending::Upgrading { source }, _) => Turn::reply(
                Err(
                    ManagerError::Other(
                        String::from_str("Unexpected event for the pending request"),
                    ),
                ),
            ).after(Order::Discard { id: source.id() }),
            _ => Turn::reply(
                Err(
                    ManagerError::Other(
                        String::from_str("Unexpected event for the pending request"),
                    ),
                ),
            ),
        }
    }

    /// Serves `request`, as far as it goes without the runtime.
    pub fn handle_message(&mut self, request: Request) -> (turn: Turn)
        requires
            old(self).wf(),
        ensures
            handles(old(self)@, request@, final(self)@, turn@),
            final(self).wf(),
    {
        match request {
            Request::Create(create) => self.create(create.source, create.device_selection),
            Request::Delete(id) => self.delete(id),
            Request::List => Turn::reply(self.list()),
            Request::Info(id) => Turn::reply(self.info(id)),
            Request::GetDeviceHandler(id) => Turn::reply(self.get_device_handler(id)),
            Request::EnableBroadcasting(id) => self.broadcast(id),
            Request::DisableBroadcasting(id) => self.broadcast_off(id),
            other => Turn::reply(Err(ManagerError::NotImplemented(other))),
        }
    }

    /// One round of the manager's loop: the sweep, then the request.
    pub fn run(&mut self, finished: &Vec<u128>, request: Request) -> (turn: Turn)
        requires
            old(self).wf(),
        ensures
            handles(swept(old(self)@, finished@), request@, final(self)@, turn@),
            final(self).wf(),
    {
        self.update_devices_status(finished);
        self.handle_message(request)
    }
}

} // verus!
