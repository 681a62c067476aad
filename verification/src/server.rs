//! The layers on the server's side. A layer wraps an inner service; what it
//! does between the transport and the inner service is decided here, step by
//! step, and carried out by whoever drives the services.

use crate::error::JsonRpcError;
use crate::json::{parsed_json, rendered_json, trees, Json};
use crate::message::{ErrorObject, Id, JsonRpcRequest, JsonRpcResponse};
use crate::router::{
    complete, dispatch, resolve, Dispatch, DispatchView, RouteTable, Routed,
};
use crate::wire::{
    decode_http_request, encode_http_response, refused_content_type, reports, request_of,
    response_tree, HttpReply,
};
use std::sync::Arc;
use vstd::prelude::*;

verus! {

/// A request of a transport, with the type of the response that answers
/// it on that transport.
pub trait IncomingRequest {
    type Response;
}

/// The layer that bridges a transport to a service of canonical requests.
#[derive(Clone, Copy, Debug)]
pub struct JsonRpcLayer;

/// The service that a [`JsonRpcLayer`] makes: it takes requests of a
/// transport, hands canonical requests to its inner service, and answers
/// with responses of the transport.
#[derive(Debug)]
pub struct JsonRpcServer<S> {
    pub inner: S,
}

/// Another name for the same service.
pub type JsonRpcService<S> = JsonRpcServer<S>;

/// What a bridging service does next with an exchange.
#[derive(Debug)]
pub enum ServerStep {
    /// Call the inner service with this request.
    Call(JsonRpcRequest),
    /// End the exchange with this error; the inner service is not called.
    Fail(JsonRpcError),
}

impl JsonRpcLayer {
    /// Wraps an inner service.
    pub fn layer<S>(&self, inner: S) -> (service: JsonRpcServer<S>)
        ensures
            service.inner == inner,
    {
        JsonRpcServer { inner }
    }
}

impl<S> JsonRpcServer<S> {
    /// The first step of an exchange over HTTP: the request is decoded,
    /// and the inner service is called with it; a request that cannot be
    /// decoded ends the exchange.
    pub fn accept_http(&self, content_type: Option<&str>, body: &[u8]) -> (step: ServerStep)
        ensures
            match refused_content_type(content_type) {
                Some(value) => (step matches ServerStep::Fail(
                    JsonRpcError::RequestDeserialization(text),
                ) && text@ == "unsupported content type: "@ + value),
                None => match parsed_json(body@) {
                    None => step matches ServerStep::Fail(JsonRpcError::SerdeJson(_)),
                    Some(tree) => match request_of(tree) {
                        Ok(request) => step matches ServerStep::Call(decoded) && decoded@
                            == request,
                        Err(fault) => step matches ServerStep::Fail(error) && reports(
                            error,
                            fault,
                            true,
                        ),
                    },
                },
            },
    {
        self.accept(decode_http_request(content_type, body))
    }

    /// The first step of an exchange, once the transport's request is
    /// decoded: the inner service is called with the request, or the
    /// exchange ends with the error of the decoding.
    pub fn accept(&self, decoded: Result<JsonRpcRequest, JsonRpcError>) -> (step: ServerStep)
        ensures
            match decoded {
                Ok(request) => step == ServerStep::Call(request),
                Err(error) => step == ServerStep::Fail(error),
            },
    {
        match decoded {
            Ok(request) => ServerStep::Call(request),
            Err(error) => ServerStep::Fail(error),
        }
    }

    /// The last step of an exchange over HTTP: the response of the inner
    /// service is encoded with status 200, whether it holds a result or
    /// an error; an error of the inner service itself ends the exchange.
    pub fn answer_http(&self, outcome: Result<JsonRpcResponse, JsonRpcError>) -> (result: Result<
        HttpReply,
        JsonRpcError,
    >)
        ensures
            match outcome {
                Ok(response) => match rendered_json(response_tree(response@)) {
                    Some(text) => result matches Ok(reply) && reply.status == 200
                        && reply.content_type@ == "application/json"@ && reply.body@ == text,
                    None => result matches Err(JsonRpcError::SerdeJson(_)),
                },
                Err(error) => result == Err::<HttpReply, JsonRpcError>(error),
            },
    {
        match outcome {
            Ok(response) => encode_http_response(response),
            Err(error) => Err(error),
        }
    }
}

/// Calls `Arc::clone`, which makes another pointer to the same value.
#[verifier::external_body]
fn share<T>(pointer: &Arc<T>) -> (shared: Arc<T>)
    ensures
        shared == *pointer,
{
    Arc::clone(pointer)
}

/// The layer that puts a router in front of an inner service: the router
/// answers the methods of its table, the inner service all others.
pub struct ServerLayer {
    pub table: Arc<RouteTable>,
}

/// The service that a [`ServerLayer`] makes.
pub struct ServerService<S> {
    pub inner: S,
    pub table: Arc<RouteTable>,
}

/// What a router service does next with an exchange.
#[derive(Debug)]
pub enum RouterStep {
    /// No route matched: call the inner service with this request, which
    /// is the request as it came, and pass its response on.
    CallInner(JsonRpcRequest),
    /// Call the handler bound to this route with these arguments, and
    /// answer under this id.
    CallHandler { route: usize, id: Id, args: Vec<Json> },
    /// Answer with this response.
    Reply(JsonRpcResponse),
    /// End the exchange with this error.
    Fail(JsonRpcError),
}

impl ServerLayer {
    /// A layer for a route table.
    pub fn new(table: RouteTable) -> (layer: ServerLayer)
        ensures
            *layer.table == table,
    {
        ServerLayer { table: Arc::new(table) }
    }

    /// Wraps an inner service; the service shares the layer's table.
    pub fn layer<S>(&self, inner: S) -> (service: ServerService<S>)
        ensures
            service.inner == inner,
            service.table == self.table,
    {
        ServerService { inner, table: share(&self.table) }
    }
}

impl<S> ServerService<S> {
    /// The first step of an exchange, once the transport's request is
    /// decoded. A request for a method of the table is the router's: it
    /// is answered at once or handed to its handler. Every other request
    /// goes to the inner service untouched.
    pub fn accept(&self, decoded: Result<JsonRpcRequest, JsonRpcError>) -> (step: RouterStep)
        ensures
            match decoded {
                Err(error) => step == RouterStep::Fail(error),
                Ok(request) => match resolve(self.table@, request@.method) {
                    None => step == RouterStep::CallInner(request),
                    Some(_) => match dispatch(self.table@, request@) {
                        DispatchView::Invoke { route, id, args } => step matches RouterStep::CallHandler {
                            route: r,
                            id: i,
                            args: a,
                        } && r == route && i@ == id && trees(a@) == args,
                        DispatchView::Respond(response) => step matches RouterStep::Reply(reply)
                            && reply@ == response,
                    },
                },
            },
    {
        match decoded {
            Err(error) => RouterStep::Fail(error),
            Ok(request) => match self.table.route_or_forward(request) {
                Routed::Forward(passed) => RouterStep::CallInner(passed),
                Routed::Local(Dispatch::Invoke { route, id, args }) => RouterStep::CallHandler {
                    route,
                    id,
                    args,
                },
                Routed::Local(Dispatch::Respond(response)) => RouterStep::Reply(response),
            },
        }
    }

    /// The step after a handler has returned: the answer to the call.
    pub fn handled(&self, id: Id, outcome: Result<Json, ErrorObject>) -> (step: RouterStep)
        ensures
            step matches RouterStep::Reply(response) && response@ == crate::router::completed(
                id@,
                match outcome {
                    Ok(result) => Ok(result@),
                    Err(error) => Err(error@),
                },
            ),
    {
        RouterStep::Reply(complete(id, outcome))
    }

    /// The step after the inner service has returned: its response is
    /// passed on unchanged, and so is its error.
    pub fn forwarded(&self, outcome: Result<JsonRpcResponse, JsonRpcError>) -> (step: RouterStep)
        ensures
            match outcome {
                Ok(response) => step == RouterStep::Reply(response),
                Err(error) => step == RouterStep::Fail(error),
            },
    {
        match outcome {
            Ok(response) => RouterStep::Reply(response),
            Err(error) => RouterStep::Fail(error),
        }
    }
}

/// The handlers of an interface: the code that a route's calls end in.
pub trait Handler {
    /// Handles a call to the route at a position of the table, with the
    /// arguments in declared order.
    fn invoke(&self, route: usize, args: Vec<Json>) -> Result<Json, ErrorObject>;
}

/// Serves one request: the router decides, the handler is called where
/// the decision says so, and the response carries the request's id. Where
/// no handler is called, the response is the router's; where one is, it
/// holds what the handler returned.
pub fn serve<H: Handler>(table: &RouteTable, handler: &H, request: JsonRpcRequest) -> (response:
    JsonRpcResponse)
    ensures
        response@.id == request@.id,
        match dispatch(table@, request@) {
            DispatchView::Respond(answer) => response@ == answer,
            DispatchView::Invoke { .. } => true,
        },
{
    match table.dispatch(request) {
        Dispatch::Respond(response) => response,
        Dispatch::Invoke { route, id, args } => {
            let outcome = handler.invoke(route, args);
            complete(id, outcome)
        },
    }
}

} // verus!
