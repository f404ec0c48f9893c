//! The task that republishes the telemetry of a broadcasting device.
//!
//! The runtime runs one such task for each device whose class is
//! forwarded. For everything the task's subscription yields, the functions
//! here say what the task does with it.
use super::devices::{
    device_data_message_id, profile_message_id, DeviceError, DeviceErrorView, PingAnswer,
    PingAnswerView, PingError, PingErrorView, ProtocolMessage, ProtocolMessageView, Received,
    ReceivedView, Telemetry, TelemetryView, DEVICE_DATA_ID, PROFILE_ID,
};
use super::fleet::forwards;
use super::manager::{
    Answer, AnswerView, DeviceAnswer, DeviceManager, DeviceSelection, ManagerError,
    ManagerErrorView,
};
use vstd::prelude::*;

verus! {

/// What the forwarding task does with what its subscription yielded.
#[derive(Debug)]
pub enum Forwarding {
    /// Publish the answer to the subscribers of the device, and go on.
    Publish(Answer),
    /// Publish nothing, and go on.
    Skip,
    /// Publish the failure to the subscribers of the device, and end.
    Stop(ManagerError),
}

pub enum ForwardingView {
    Publish(AnswerView),
    Skip,
    Stop(ManagerErrorView),
}

impl View for Forwarding {
    type V = ForwardingView;

    open spec fn view(&self) -> ForwardingView {
        match self {
            Forwarding::Publish(answer) => ForwardingView::Publish(answer@),
            Forwarding::Skip => ForwardingView::Skip,
            Forwarding::Stop(error) => ForwardingView::Stop(error@),
        }
    }
}

/// The message that a task for devices of class `device_type`
/// republishes: the distance profile of a Ping1D, the sweep data of a
/// Ping360.
pub open spec fn is_forwarded(
    device_type: DeviceSelection,
    message: ProtocolMessageView,
    decoded: TelemetryView,
) -> bool {
    match device_type {
        DeviceSelection::Ping1D => message.message_id == PROFILE_ID && decoded is Profile,
        DeviceSelection::Ping360 => message.message_id == DEVICE_DATA_ID && decoded is DeviceData,
        _ => false,
    }
}

/// The answer under which a message of the device `device_id` is published.
pub open spec fn published(message: ProtocolMessageView, device_id: u128) -> AnswerView {
    AnswerView::DeviceMessage { answer: PingAnswerView::PingMessage(message), device_id }
}

/// The failure under which the end of a subscription is published.
pub open spec fn subscription_failure(words: Seq<char>) -> ManagerErrorView {
    ManagerErrorView::DeviceError(
        DeviceErrorView::PingError(PingErrorView::TokioBroadcastError(words)),
    )
}

/// What the task for a device of class `device_type` does with `received`.
pub open spec fn forwarding(
    device_type: DeviceSelection,
    device_id: u128,
    received: ReceivedView,
) -> ForwardingView {
    match received {
        ReceivedView::Message { message, decoded } => if is_forwarded(
            device_type,
            message,
            decoded,
        ) {
            ForwardingView::Publish(published(message, device_id))
        } else {
            ForwardingView::Skip
        },
        ReceivedView::Closed(words) => ForwardingView::Stop(subscription_failure(words)),
    }
}

/// A message that may have been selected, seen through its view.
pub open spec fn selected_view(selected: Option<Answer>) -> Option<AnswerView> {
    match selected {
        Some(answer) => Some(answer@),
        None => None,
    }
}

impl DeviceManager {
    /// Whether enabling the broadcast of a device of class `device_type`
    /// starts a forwarding task.
    pub fn start_broadcasting(device_type: DeviceSelection) -> (starts: bool)
        ensures
            starts == forwards(device_type),
    {
        match device_type {
            DeviceSelection::Ping1D => true,
            DeviceSelection::Ping360 => true,
            _ => false,
        }
    }

    /// Selects the distance profile among the messages of a Ping1D.
    pub fn ping1d_broadcast_helper(
        message: ProtocolMessage,
        decoded: &Telemetry,
        device_id: u128,
    ) -> (selected: Option<Answer>)
        ensures
            selected_view(selected) == if is_forwarded(
                DeviceSelection::Ping1D,
                message@,
                decoded@,
            ) {
                Some(published(message@, device_id))
            } else {
                None
            },
    {
        if message.message_id == profile_message_id() {
            match decoded {
                Telemetry::Profile => {
                    return Some(
                        Answer::DeviceMessage(
                            DeviceAnswer { answer: PingAnswer::PingMessage(message), device_id },
                        ),
                    );
                },
                _ => {},
            }
        }
        None
    }

    /// Selects the sweep data among the messages of a Ping360.
    pub fn ping360_broadcast_helper(
        message: ProtocolMessage,
        decoded: &Telemetry,
        device_id: u128,
    ) -> (selected: Option<Answer>)
        ensures
            selected_view(selected) == if is_forwarded(
                DeviceSelection::Ping360,
                message@,
                decoded@,
            ) {
                Some(published(message@, device_id))
            } else {
                None
            },
    {
        if message.message_id == device_data_message_id() {
            match decoded {
                Telemetry::DeviceData(_) => {
                    return Some(
                        Answer::DeviceMessage(
                            DeviceAnswer { answer: PingAnswer::PingMessage(message), device_id },
                        ),
                    );
                },
                _ => {},
            }
        }
        None
    }

    /// The failure that tells the subscribers of a device that its
    /// telemetry has ended.
    pub fn handle_error_broadcast_message(words: String) -> (error: ManagerError)
        ensures
            error@ == subscription_failure(words@),
    {
        ManagerError::DeviceError(DeviceError::PingError(PingError::TokioBroadcastError(words)))
    }

    /// One round of the forwarding task of the device `device_id`.
    pub fn forward(device_type: DeviceSelection, device_id: u128, received: Received) -> (step:
        Forwarding)
        ensures
            step@ == forwarding(device_type, device_id, received@),
    {
        match received {
            Received::Message { message, decoded } => {
                let selected = match device_type {
                    DeviceSelection::Ping1D => Self::ping1d_broadcast_helper(
                        message,
                        &decoded,
                        device_id,
                    ),
                    DeviceSelection::Ping360 => Self::ping360_broadcast_helper(
                        message,
                        &decoded,
                        device_id,
                    ),
                    _ => None,
                };
                match selected {
                    Some(answer) => Forwarding::Publish(answer),
                    None => Forwarding::Skip,
                }
            },
            Received::Closed(words) => Forwarding::Stop(
                Self::handle_error_broadcast_message(words),
            ),
        }
    }
}

} // verus!
