//! What the manager and a device actor say to each other.
//!
//! A device actor owns one transport and speaks the Ping protocol on it. The
//! types here are the plain-value form of its mailbox: the requests it takes,
//! the answers it gives, and the telemetry it publishes.
use bluerobotics_ping::message::MessageInfo;
use vstd::prelude::*;

verus! {

/// The address of one device actor: the identity of the device it serves.
#[derive(Debug, Clone, Copy, PartialEq, Eq, Structural)]
pub struct DeviceActorHandler {
    pub device_id: u128,
}

/// Outcome of the identification handshake with a freshly connected device.
#[derive(Debug, Clone, Copy, PartialEq, Eq, Structural)]
pub enum UpgradeResult {
    Unknown,
    Ping1D,
    Ping360,
}

/// Asks a Ping1D to emit the message `id` continuously.
#[derive(Debug, Clone, Copy, PartialEq, Eq, Structural)]
pub struct ContinuousStartStruct {
    pub id: u16,
}

/// Asks a Ping1D to stop emitting the message `id`.
#[derive(Debug, Clone, Copy, PartialEq, Eq, Structural)]
pub struct ContinuousStopStruct {
    pub id: u16,
}

/// One protocol message as the codec frames it: its type id and its payload.
#[derive(Debug)]
pub struct ProtocolMessage {
    pub message_id: u16,
    pub payload: Vec<u8>,
}

pub struct ProtocolMessageView {
    pub message_id: u16,
    pub payload: Seq<u8>,
}

impl View for ProtocolMessage {
    type V = ProtocolMessageView;

    open spec fn view(&self) -> ProtocolMessageView {
        ProtocolMessageView { message_id: self.message_id, payload: self.payload@ }
    }
}

impl Clone for ProtocolMessage {
    fn clone(&self) -> (r: Self)
        ensures
            r@ == self@,
    {
        let payload = self.payload.clone();
        assert(payload@ =~= self.payload@);
        ProtocolMessage { message_id: self.message_id, payload }
    }
}

#[derive(Debug)]
pub enum Ping1DRequest {
    ContinuousStart(ContinuousStartStruct),
    ContinuousStop(ContinuousStopStruct),
    /// Any other request of the Ping1D family, already encoded.
    Message(ProtocolMessage),
}

pub enum Ping1DRequestView {
    ContinuousStart(ContinuousStartStruct),
    ContinuousStop(ContinuousStopStruct),
    Message(ProtocolMessageView),
}

impl View for Ping1DRequest {
    type V = Ping1DRequestView;

    open spec fn view(&self) -> Ping1DRequestView {
        match self {
            Ping1DRequest::ContinuousStart(s) => Ping1DRequestView::ContinuousStart(*s),
            Ping1DRequest::ContinuousStop(s) => Ping1DRequestView::ContinuousStop(*s),
            Ping1DRequest::Message(m) => Ping1DRequestView::Message(m@),
        }
    }
}

impl Clone for Ping1DRequest {
    fn clone(&self) -> (r: Self)
        ensures
            r@ == self@,
    {
        match self {
            Ping1DRequest::ContinuousStart(s) => Ping1DRequest::ContinuousStart(*s),
            Ping1DRequest::ContinuousStop(s) => Ping1DRequest::ContinuousStop(*s),
            Ping1DRequest::Message(m) => Ping1DRequest::Message(m.clone()),
        }
    }
}

/// A request to a device actor.
#[derive(Debug)]
pub enum PingRequest {
    Ping1D(Ping1DRequest),
    /// A request of the Ping360 family, already encoded.
    Ping360(ProtocolMessage),
    /// A request every device of the family understands, already encoded.
    Common(ProtocolMessage),
    /// A new subscription to the telemetry the actor decodes.
    GetSubscriber,
    /// The identification handshake.
    Upgrade,
    Stop,
}

pub enum PingRequestView {
    Ping1D(Ping1DRequestView),
    Ping360(ProtocolMessageView),
    Common(ProtocolMessageView),
    GetSubscriber,
    Upgrade,
    Stop,
}

impl View for PingRequest {
    type V = PingRequestView;

    open spec fn view(&self) -> PingRequestView {
        match self {
            PingRequest::Ping1D(r) => PingRequestView::Ping1D(r@),
            PingRequest::Ping360(m) => PingRequestView::Ping360(m@),
            PingRequest::Common(m) => PingRequestView::Common(m@),
            PingRequest::GetSubscriber => PingRequestView::GetSubscriber,
            PingRequest::Upgrade => PingRequestView::Upgrade,
            PingRequest::Stop => PingRequestView::Stop,
        }
    }
}

impl Clone for PingRequest {
    fn clone(&self) -> (r: Self)
        ensures
            r@ == self@,
    {
        match self {
            PingRequest::Ping1D(request) => PingRequest::Ping1D(request.clone()),
            PingRequest::Ping360(m) => PingRequest::Ping360(m.clone()),
            PingRequest::Common(m) => PingRequest::Common(m.clone()),
            PingRequest::GetSubscriber => PingRequest::GetSubscriber,
            PingRequest::Upgrade => PingRequest::Upgrade,
            PingRequest::Stop => PingRequest::Stop,
        }
    }
}

/// What a device actor answers.
#[derive(Debug)]
pub enum PingAnswer {
    PingMessage(ProtocolMessage),
    NotAssigned,
    NotImplemented,
    /// The subscription asked for is open.
    Subscriber,
    UpgradeResult(UpgradeResult),
}

pub enum PingAnswerView {
    PingMessage(ProtocolMessageView),
    NotAssigned,
    NotImplemented,
    Subscriber,
    UpgradeResult(UpgradeResult),
}

impl View for PingAnswer {
    type V = PingAnswerView;

    open spec fn view(&self) -> PingAnswerView {
        match self {
            PingAnswer::PingMessage(m) => PingAnswerView::PingMessage(m@),
            PingAnswer::NotAssigned => PingAnswerView::NotAssigned,
            PingAnswer::NotImplemented => PingAnswerView::NotImplemented,
            PingAnswer::Subscriber => PingAnswerView::Subscriber,
            PingAnswer::UpgradeResult(r) => PingAnswerView::UpgradeResult(*r),
        }
    }
}

impl Clone for PingAnswer {
    fn clone(&self) -> (r: Self)
        ensures
            r@ == self@,
    {
        match self {
            PingAnswer::PingMessage(m) => PingAnswer::PingMessage(m.clone()),
            PingAnswer::NotAssigned => PingAnswer::NotAssigned,
            PingAnswer::NotImplemented => PingAnswer::NotImplemented,
            PingAnswer::Subscriber => PingAnswer::Subscriber,
            PingAnswer::UpgradeResult(result) => PingAnswer::UpgradeResult(*result),
        }
    }
}

/// One angle of a Ping360 sweep, sent on request: the settings of the
/// sonar and the echo strength of every sample along the beam.
#[derive(Debug)]
pub struct DeviceDataStruct {
    pub mode: u8,
    pub gain_setting: u8,
    /// The angle of the head, in gradians.
    pub angle: u16,
    pub transmit_duration: u16,
    /// The time between two samples, in units of 25 ns.
    pub sample_period: u16,
    pub transmit_frequency: u16,
    pub number_of_samples: u16,
    pub data_length: u16,
    pub data: Vec<u8>,
}

pub struct DeviceDataView {
    pub mode: u8,
    pub gain_setting: u8,
    pub angle: u16,
    pub transmit_duration: u16,
    pub sample_period: u16,
    pub transmit_frequency: u16,
    pub number_of_samples: u16,
    pub data_length: u16,
    pub data: Seq<u8>,
}

impl View for DeviceDataStruct {
    type V = DeviceDataView;

    open spec fn view(&self) -> DeviceDataView {
        DeviceDataView {
            mode: self.mode,
            gain_setting: self.gain_setting,
            angle: self.angle,
            transmit_duration: self.transmit_duration,
            sample_period: self.sample_period,
            transmit_frequency: self.transmit_frequency,
            number_of_samples: self.number_of_samples,
            data_length: self.data_length,
            data: self.data@,
        }
    }
}

/// One angle of a Ping360 sweep, sent while the sonar scans on its own.
#[derive(Debug)]
pub struct AutoDeviceDataStruct {
    pub mode: u8,
    pub gain_setting: u8,
    /// The angle of the head, in gradians.
    pub angle: u16,
    pub transmit_duration: u16,
    /// The time between two samples, in units of 25 ns.
    pub sample_period: u16,
    pub transmit_frequency: u16,
    pub start_angle: u16,
    pub stop_angle: u16,
    pub num_steps: u8,
    pub delay: u8,
    pub number_of_samples: u16,
    pub data_length: u16,
    pub data: Vec<u8>,
}

pub struct AutoDeviceDataView {
    pub mode: u8,
    pub gain_setting: u8,
    pub angle: u16,
    pub transmit_duration: u16,
    pub sample_period: u16,
    pub transmit_frequency: u16,
    pub start_angle: u16,
    pub stop_angle: u16,
    pub num_steps: u8,
    pub delay: u8,
    pub number_of_samples: u16,
    pub data_length: u16,
    pub data: Seq<u8>,
}

impl View for AutoDeviceDataStruct {
    type V = AutoDeviceDataView;

    open spec fn view(&self) -> AutoDeviceDataView {
        AutoDeviceDataView {
            mode: self.mode,
            gain_setting: self.gain_setting,
            angle: self.angle,
            transmit_duration: self.transmit_duration,
            sample_period: self.sample_period,
            transmit_frequency: self.transmit_frequency,
            start_angle: self.start_angle,
            stop_angle: self.stop_angle,
            num_steps: self.num_steps,
            delay: self.delay,
            number_of_samples: self.number_of_samples,
            data_length: self.data_length,
            data: self.data@,
        }
    }
}

/// What the protocol codec decoded a message to, as far as this service
/// looks into messages.
#[derive(Debug)]
pub enum Telemetry {
    /// A Ping1D distance profile.
    Profile,
    DeviceData(DeviceDataStruct),
    AutoDeviceData(AutoDeviceDataStruct),
    /// Any other message, or one that the codec could not decode.
    Other,
}

pub enum TelemetryView {
    Profile,
    DeviceData(DeviceDataView),
    AutoDeviceData(AutoDeviceDataView),
    Other,
}

impl View for Telemetry {
    type V = TelemetryView;

    open spec fn view(&self) -> TelemetryView {
        match self {
            Telemetry::Profile => TelemetryView::Profile,
            Telemetry::DeviceData(d) => TelemetryView::DeviceData(d@),
            Telemetry::AutoDeviceData(d) => TelemetryView::AutoDeviceData(d@),
            Telemetry::Other => TelemetryView::Other,
        }
    }
}

/// A failure of the protocol layer under a device actor.
#[derive(Debug)]
pub enum PingError {
    Io(String),
    ParseError,
    TokioBroadcastError(String),
    TokioMpscError(String),
    JoinError,
    TimeoutError,
    TryFromError,
    NackError(String),
}

pub enum PingErrorView {
    Io(Seq<char>),
    ParseError,
    TokioBroadcastError(Seq<char>),
    TokioMpscError(Seq<char>),
    JoinError,
    TimeoutError,
    TryFromError,
    NackError(Seq<char>),
}

impl View for PingError {
    type V = PingErrorView;

    open spec fn view(&self) -> PingErrorView {
        match self {
            PingError::Io(s) => PingErrorView::Io(s@),
            PingError::ParseError => PingErrorView::ParseError,
            PingError::TokioBroadcastError(s) => PingErrorView::TokioBroadcastError(s@),
            PingError::TokioMpscError(s) => PingErrorView::TokioMpscError(s@),
            PingError::JoinError => PingErrorView::JoinError,
            PingError::TimeoutError => PingErrorView::TimeoutError,
            PingError::TryFromError => PingErrorView::TryFromError,
            PingError::NackError(s) => PingErrorView::NackError(s@),
        }
    }
}

impl Clone for PingError {
    fn clone(&self) -> (r: Self)
        ensures
            r@ == self@,
    {
        match self {
            PingError::Io(words) => PingError::Io(words.clone()),
            PingError::ParseError => PingError::ParseError,
            PingError::TokioBroadcastError(words) => PingError::TokioBroadcastError(words.clone()),
            PingError::TokioMpscError(words) => PingError::TokioMpscError(words.clone()),
            PingError::JoinError => PingError::JoinError,
            PingError::TimeoutError => PingError::TimeoutError,
            PingError::TryFromError => PingError::TryFromError,
            PingError::NackError(words) => PingError::NackError(words.clone()),
        }
    }
}

/// A failure reported by a device actor.
#[derive(Debug)]
pub enum DeviceError {
    PingError(PingError),
}

pub enum DeviceErrorView {
    PingError(PingErrorView),
}

impl View for DeviceError {
    type V = DeviceErrorView;

    open spec fn view(&self) -> DeviceErrorView {
        match self {
            DeviceError::PingError(e) => DeviceErrorView::PingError(e@),
        }
    }
}

impl Clone for DeviceError {
    fn clone(&self) -> (r: Self)
        ensures
            r@ == self@,
    {
        match self {
            DeviceError::PingError(e) => DeviceError::PingError(e.clone()),
        }
    }
}

/// The reply of a device actor to one request.
pub open spec fn reply_view(reply: Result<PingAnswer, DeviceError>) -> Result<
    PingAnswerView,
    DeviceErrorView,
> {
    match reply {
        Ok(a) => Ok(a@),
        Err(e) => Err(e@),
    }
}

/// The message id of the Ping1D distance profile.
pub const PROFILE_ID: u16 = 1300;

/// The message id of the Ping360 sweep data.
pub const DEVICE_DATA_ID: u16 = 2300;

/// What a subscription to a device's telemetry yields: a message with what
/// the codec decoded it to, or the words of the failure that ended it.
#[derive(Debug)]
pub enum Received {
    Message { message: ProtocolMessage, decoded: Telemetry },
    Closed(String),
}

pub enum ReceivedView {
    Message { message: ProtocolMessageView, decoded: TelemetryView },
    Closed(Seq<char>),
}

impl View for Received {
    type V = ReceivedView;

    open spec fn view(&self) -> ReceivedView {
        match self {
            Received::Message { message, decoded } => ReceivedView::Message {
                message: message@,
                decoded: decoded@,
            },
            Received::Closed(words) => ReceivedView::Closed(words@),
        }
    }
}

/// `MessageInfo::id` of `bluerobotics_ping::ping1d::ProfileStruct`: the id
/// under which the protocol definition lists the Ping1D `profile` message.
#[verifier::external_body]
pub(crate) fn profile_message_id() -> (id: u16)
    ensures
        id == PROFILE_ID,
{
    bluerobotics_ping::ping1d::ProfileStruct::id()
}

/// `MessageInfo::id` of `bluerobotics_ping::ping360::DeviceDataStruct`: the
/// id under which the protocol definition lists the Ping360 `device_data`
/// message.
#[verifier::external_body]
pub(crate) fn device_data_message_id() -> (id: u16)
    ensures
        id == DEVICE_DATA_ID,
{
    bluerobotics_ping::ping360::DeviceDataStruct::id()
}

} // verus!
