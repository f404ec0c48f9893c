//! The way of a client's request: to the manager's queue, or, for a request
//! to one device, past the queue to the device's actor.
//!
//! A request to a device needs the manager only to find the actor. The
//! actor is then asked directly, so that the traffic of one device does not
//! wait behind the requests of the fleet.
use super::devices::{
    reply_view, DeviceActorHandler, DeviceError, DeviceErrorView, PingAnswer, PingAnswerView,
    PingRequest, PingRequestView,
};
use super::manager::{
    outcome_view, Answer, AnswerView, DeviceAnswer, ManagerError, ManagerErrorView, Request,
    RequestView,
};
use vstd::prelude::*;
use vstd::string::StringExecFns;

verus! {

/// Where a request stands on its way.
#[derive(Debug)]
pub enum Route {
    /// `request` goes to the manager's queue; its answer is the answer.
    Manager { request: Request },
    /// `lookup` goes to the manager's queue; its answer tells where the
    /// actor of `target` is, to which `ask` goes then.
    Lookup { lookup: Request, target: u128, ask: PingRequest },
    /// `ask` goes to the actor behind `handler`.
    Device { handler: DeviceActorHandler, target: u128, ask: PingRequest },
    /// The request is answered.
    Done(Result<Answer, ManagerError>),
}

pub enum RouteView {
    Manager { request: RequestView },
    Lookup { lookup: RequestView, target: u128, ask: PingRequestView },
    Device { handler: DeviceActorHandler, target: u128, ask: PingRequestView },
    Done(Result<AnswerView, ManagerErrorView>),
}

impl View for Route {
    type V = RouteView;

    open spec fn view(&self) -> RouteView {
        match self {
            Route::Manager { request } => RouteView::Manager { request: request@ },
            Route::Lookup { lookup, target, ask } => RouteView::Lookup {
                lookup: lookup@,
                target: *target,
                ask: ask@,
            },
            Route::Device { handler, target, ask } => RouteView::Device {
                handler: *handler,
                target: *target,
                ask: ask@,
            },
            Route::Done(outcome) => RouteView::Done(outcome_view(*outcome)),
        }
    }
}

/// What came back from the manager's queue: the manager's answer, or the
/// words of the failure to reach the manager or to hear from it.
pub open spec fn queue_view(reply: Result<Result<Answer, ManagerError>, String>) -> Result<
    Result<AnswerView, ManagerErrorView>,
    Seq<char>,
> {
    match reply {
        Ok(outcome) => Ok(outcome_view(outcome)),
        Err(words) => Err(words@),
    }
}

pub open spec fn unexpected_reply() -> Seq<char> {
    "Unexpected reply for the request on its way"@
}

/// The first leg of a request.
pub open spec fn first_leg(request: RequestView) -> RouteView {
    match request {
        RequestView::Ping { target, request } => RouteView::Lookup {
            lookup: RequestView::GetDeviceHandler(target),
            target,
            ask: request,
        },
        other => RouteView::Manager { request: other },
    }
}

/// The way goes on after the manager's queue was tried. A failure of the
/// queue ends the request and is never retried.
pub open spec fn after_manager(
    route: RouteView,
    reply: Result<Result<AnswerView, ManagerErrorView>, Seq<char>>,
) -> RouteView {
    match (route, reply) {
        (RouteView::Manager { .. }, Ok(outcome)) => RouteView::Done(outcome),
        (RouteView::Lookup { lookup, target, ask }, Ok(outcome)) => match outcome {
            Ok(AnswerView::InnerDeviceHandler(handler)) => RouteView::Device {
                handler,
                target,
                ask,
            },
            other => RouteView::Done(other),
        },
        (RouteView::Manager { .. }, Err(words)) => RouteView::Done(
            Err(ManagerErrorView::TokioMpsc(words)),
        ),
        (RouteView::Lookup { .. }, Err(words)) => RouteView::Done(
            Err(ManagerErrorView::TokioMpsc(words)),
        ),
        _ => RouteView::Done(Err(ManagerErrorView::Other(unexpected_reply()))),
    }
}

/// The way ends after the device's actor was asked: its answer travels
/// back under the identity of the device, its failure as a device error.
pub open spec fn after_device(
    route: RouteView,
    reply: Result<PingAnswerView, DeviceErrorView>,
) -> RouteView {
    match route {
        RouteView::Device { handler, target, ask } => match reply {
            Ok(answer) => RouteView::Done(
                Ok(AnswerView::DeviceMessage { answer, device_id: target }),
            ),
            Err(e) => RouteView::Done(Err(ManagerErrorView::DeviceError(e))),
        },
        _ => RouteView::Done(Err(ManagerErrorView::Other(unexpected_reply()))),
    }
}

/// The client's side of the manager.
#[derive(Debug, Clone, Copy)]
pub struct ManagerActorHandler {}

impl ManagerActorHandler {
    /// Sets `request` on its way.
    pub fn send(&self, request: Request) -> (route: Route)
        ensures
            route@ == first_leg(request@),
    {
        match request {
            Request::Ping(ping) => Route::Lookup {
                lookup: Request::GetDeviceHandler(ping.target),
                target: ping.target,
                ask: ping.request,
            },
            other => Route::Manager { request: other },
        }
    }

    /// Takes the request further with what came back from the manager's
    /// queue.
    pub fn manager_replied(
        &self,
        route: Route,
        reply: Result<Result<Answer, ManagerError>, String>,
    ) -> (next: Route)
        ensures
            next@ == after_manager(route@, queue_view(reply)),
    {
        match (route, reply) {
            (Route::Manager { .. }, Ok(outcome)) => Route::Done(outcome),
            (Route::Lookup { lookup, target, ask }, Ok(outcome)) => match outcome {
                Ok(Answer::InnerDeviceHandler(handler)) => Route::Device { handler, target, ask },
                other => Route::Done(other),
            },
            (Route::Manager { .. }, Err(words)) => Route::Done(Err(ManagerError::TokioMpsc(words))),
            (Route::Lookup { .. }, Err(words)) => Route::Done(Err(ManagerError::TokioMpsc(words))),
            _ => Route::Done(
                Err(
                    ManagerError::Other(
                        String::from_str("Unexpected reply for the request on its way"),
                    ),
                ),
            ),
        }
    }

    /// Ends the request with what the device's actor answered.
    pub fn device_replied(&self, route: Route, reply: Result<PingAnswer, DeviceError>) -> (next:
        Route)
        ensures
            next@ == after_device(route@, reply_view(reply)),
    {
        match route {
            Route::Device { handler, target, ask } => match reply {
                Ok(answer) => Route::Done(
                    Ok(Answer::DeviceMessage(DeviceAnswer { answer, device_id: target })),
                ),
                Err(e) => Route::Done(Err(ManagerError::DeviceError(e))),
            },
            _ => Route::Done(
                Err(
                    ManagerError::Other(
                        String::from_str("Unexpected reply for the request on its way"),
                    ),
                ),
            ),
        }
    }
}

} // verus!
