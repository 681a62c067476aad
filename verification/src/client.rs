//! The client's side of a call: the request for a method and its arguments,
//! and what a response means for the caller.

use crate::describe::{ItemTrait, Output, RpcDescription, RpcFnArg, TypeDecl};
use crate::error::JsonRpcError;
use crate::json::{reversed, trees, Json, JsonTree};
use crate::message::{
    decimal, decimal_text, Id, IdView, JsonRpcRequest, JsonRpcResponse, Params, ParamsView,
    PayloadView, RequestView, ResponsePayload, ResponseView,
};
use crate::names::string_views;
use crate::render::{full_name, RenderError};
use crate::router::{check_type, has_type, ParamKind, ParamType, RouteTable};
use vstd::prelude::*;
use vstd::string::*;

verus! {

/// A method as the client calls it.
#[derive(Debug, PartialEq, Eq)]
pub struct ClientMethod {
    /// The identifier of the method in the trait.
    pub ident: String,
    /// The full name of the method on the wire.
    pub name: String,
    pub param_kind: ParamKind,
    /// The wire names of the parameters, in declared order.
    pub params: Vec<String>,
    /// The type of the result.
    pub result: TypeDecl,
}

/// A subscription as the client opens it.
#[derive(Debug, PartialEq, Eq)]
pub struct ClientSubscription {
    /// The identifier of the subscription in the trait.
    pub ident: String,
    /// The full name of the subscribe method.
    pub subscribe: String,
    /// The full name of the unsubscribe method.
    pub unsubscribe: String,
    pub param_kind: ParamKind,
    /// The wire names of the parameters, in declared order.
    pub params: Vec<String>,
    /// The type of the items that the subscription delivers.
    pub item: TypeDecl,
}

/// What the transport needs to open a subscription.
#[derive(Debug, PartialEq)]
pub struct SubscribeCall {
    pub subscribe: String,
    pub params: Params,
    pub unsubscribe: String,
}

/// The calls of a client: its methods and its subscriptions, in the order
/// of the description.
#[derive(Debug, PartialEq, Eq)]
pub struct ClientTable {
    pub methods: Vec<ClientMethod>,
    pub subscriptions: Vec<ClientSubscription>,
}

/// What a description is rendered to: the trait without its RPC
/// attributes, the server's route table where the server side is wanted,
/// and the client's calls where the client side is wanted.
#[derive(Debug, PartialEq, Eq)]
pub struct Rendered {
    pub trait_def: ItemTrait,
    pub server: Option<RouteTable>,
    pub client: Option<ClientTable>,
}

/// The type of the value that a method hands back on success: nothing, the
/// declared type, or the success type of a declared result.
pub open spec fn ok_type_of(output: Output) -> TypeDecl {
    match output {
        Output::Unit => TypeDecl { kind: ParamType::Null, optional: false },
        Output::Plain(ty) => ty,
        Output::Fallible(ty) => ty,
    }
}

/// The type of the value that a method hands back on success.
pub fn ok_type(output: &Output) -> (ty: TypeDecl)
    ensures
        ty == ok_type_of(*output),
{
    match output {
        Output::Unit => TypeDecl { kind: ParamType::Null, optional: false },
        Output::Plain(ty) => *ty,
        Output::Fallible(ty) => *ty,
    }
}

/// Whether a value is of a declared type: of its kind, or null where the
/// type is optional.
pub open spec fn fits(ty: TypeDecl, value: JsonTree) -> bool {
    has_type(ty.kind, value) || (ty.optional && value is Null)
}

/// Checks whether a value is of a declared type.
pub fn check_fits(ty: TypeDecl, value: &Json) -> (r: bool)
    ensures
        r == fits(ty, value@),
{
    if check_type(ty.kind, value) {
        true
    } else if ty.optional {
        match value {
            Json::Null => true,
            _ => false,
        }
    } else {
        false
    }
}

/// The parameters of a call: none where the method declares none; else the
/// arguments in declared order, each under its wire name where the method
/// takes them by name.
pub open spec fn call_params(kind: ParamKind, names: Seq<Seq<char>>, args: Seq<JsonTree>) -> ParamsView {
    if names.len() == 0 {
        ParamsView::Absent
    } else {
        match kind {
            ParamKind::Positional => ParamsView::Positional(args),
            ParamKind::Named => ParamsView::Named(Seq::new(names.len(), |i: int| (names[i], args[i]))),
        }
    }
}

/// The text that reports a call with the wrong number of arguments.
pub open spec fn arity_text(expected: nat, actual: nat) -> Seq<char> {
    "expected "@ + decimal_text(expected) + " arguments, got "@ + decimal_text(actual)
}

/// The text that reports a result that is not of the declared type.
pub open spec fn mismatch_text() -> Seq<char> {
    "Failed to deserialize response into any known variant"@
}

/// The wire names of the parameters of a call.
pub open spec fn wire_names(args: Seq<RpcFnArg>) -> Seq<Seq<char>> {
    Seq::new(args.len(), |i: int| args[i].wire_name())
}

/// Puts the arguments of a call into its parameters.
pub fn build_params(kind: ParamKind, names: &Vec<String>, args: Vec<Json>) -> (result: Result<
    Params,
    JsonRpcError,
>)
    ensures
        if args@.len() == names@.len() {
            result matches Ok(params) && params@ == call_params(
            kind,
            string_views(names@),
            trees(args@),
        )
        } else {
            result matches Err(JsonRpcError::IntoRpcRequest(text))
            && text@ == arity_text(names@.len(), args@.len())
        },
{
    if args.len() != names.len() {
        let mut text = String::from_str("expected ");
        text.append(decimal(names.len()).as_str());
        text.append(" arguments, got ");
        text.append(decimal(args.len()).as_str());
        return Err(JsonRpcError::IntoRpcRequest(text));
    }
    if names.len() == 0 {
        return Ok(Params::Absent);
    }
    match kind {
        ParamKind::Positional => Ok(Params::Positional(args)),
        ParamKind::Named => {
            let ghost wanted = Seq::new(
                names@.len(),
                |i: int| (string_views(names@)[i], trees(args@)[i]),
            );
            let mut rest = reversed(args);
            let mut members: Vec<(String, Json)> = Vec::new();
            let mut i: usize = 0;
            while i < names.len()
                invariant
                    i <= names@.len(),
                    args@.len() == names@.len(),
                    rest@ == args@.reverse().take(names@.len() - i),
                    members@.len() == i,
                    forall|k: int|
                        0 <= k < i ==> (#[trigger] members@[k]).0@ == names@[k]@ && members@[k].1@
                            == args@[k]@,
                decreases names@.len() - i,
            {
                let ghost n = names@.len() as int;
                let popped = rest.pop();
                assert(rest@ =~= args@.reverse().take(n - i - 1));
                match popped {
                    Some(arg) => {
                        assert(arg == args@.reverse()[n - i - 1]);
                        assert(arg == args@[i as int]);
                        members.push((names[i].clone(), arg));
                    },
                    None => {},
                }
                i += 1;
            }
            assert(crate::json::member_trees(members@) =~= wanted);
            Ok(Params::Named(members))
        },
    }
}

/// What a response means for the caller of a method: the result where it
/// is of the declared type, and else the text of the failure. An error
/// response fails with the message that the server gave.
pub open spec fn call_outcome(ty: TypeDecl, response: ResponseView) -> Result<JsonTree, Seq<char>> {
    match response.payload {
        PayloadView::Success(value) => if fits(ty, value) {
            Ok(value)
        } else {
            Err(mismatch_text())
        },
        PayloadView::Error(error) => Err(error.message),
    }
}

/// The first type from `start` on that a value is of.
pub open spec fn first_fit(types: Seq<TypeDecl>, value: JsonTree, start: int) -> Option<int>
    decreases types.len() - start,
{
    if start < 0 || start >= types.len() {
        None
    } else if fits(types[start], value) {
        Some(start)
    } else {
        first_fit(types, value, start + 1)
    }
}

/// The result types of the methods of a client.
pub open spec fn result_types(methods: Seq<ClientMethod>) -> Seq<TypeDecl> {
    Seq::new(methods.len(), |i: int| methods[i].result)
}

impl ClientMethod {
    /// The request that calls this method with the given arguments, under
    /// the given id. The arguments must be as many as the parameters.
    pub fn request_with_id(&self, id: Id, args: Vec<Json>) -> (result: Result<
        JsonRpcRequest,
        JsonRpcError,
    >)
        ensures
            if args@.len() == self.params@.len() {
                result matches Ok(request) && request@
                == (RequestView {
                id: id@,
                method: self.name@,
                params: call_params(self.param_kind, string_views(self.params@), trees(args@)),
            })
            } else {
                result matches Err(
                JsonRpcError::IntoRpcRequest(text),
            ) && text@ == arity_text(self.params@.len(), args@.len())
            },
    {
        match build_params(self.param_kind, &self.params, args) {
            Ok(params) => Ok(JsonRpcRequest { id, method: self.name.clone(), params }),
            Err(error) => Err(error),
        }
    }

    /// The request that calls this method with the given arguments, under
    /// the id 0: for a caller that has one call in flight at a time.
    pub fn request(&self, args: Vec<Json>) -> (result: Result<JsonRpcRequest, JsonRpcError>)
        ensures
            if args@.len() == self.params@.len() {
                result matches Ok(request) && request@
                == (RequestView {
                id: IdView::Number(0),
                method: self.name@,
                params: call_params(self.param_kind, string_views(self.params@), trees(args@)),
            })
            } else {
                result matches Err(
                JsonRpcError::IntoRpcRequest(text),
            ) && text@ == arity_text(self.params@.len(), args@.len())
            },
    {
        self.request_with_id(Id::Number(0), args)
    }

    /// The result of a call, read from its response.
    pub fn result(&self, response: JsonRpcResponse) -> (result: Result<Json, JsonRpcError>)
        ensures
            match call_outcome(self.result, response@) {
                Ok(value) => result matches Ok(json) && json@ == value,
                Err(reason) => result matches Err(JsonRpcError::RequestProcessing(text)) && text@
                    == reason,
            },
    {
        match response.payload {
            ResponsePayload::Success(value) => {
                if check_fits(self.result, &value) {
                    Ok(value)
                } else {
                    Err(
                        JsonRpcError::RequestProcessing(
                            String::from_str(
                                "Failed to deserialize response into any known variant",
                            ),
                        ),
                    )
                }
            },
            ResponsePayload::Error(error) => Err(JsonRpcError::RequestProcessing(error.message)),
        }
    }
}

impl ClientSubscription {
    /// What opens this subscription with the given arguments.
    pub fn call(&self, args: Vec<Json>) -> (result: Result<SubscribeCall, JsonRpcError>)
        ensures
            if args@.len() == self.params@.len() {
                result matches Ok(call) && call.subscribe@
                == self.subscribe@ && call.unsubscribe@ == self.unsubscribe@ && call.params@
                == call_params(self.param_kind, string_views(self.params@), trees(args@))
            } else {
                result matches Err(
                JsonRpcError::IntoRpcRequest(text),
            ) && text@ == arity_text(self.params@.len(), args@.len())
            },
    {
        match build_params(self.param_kind, &self.params, args) {
            Ok(params) => Ok(
                SubscribeCall {
                    subscribe: self.subscribe.clone(),
                    params,
                    unsubscribe: self.unsubscribe.clone(),
                },
            ),
            Err(error) => Err(error),
        }
    }
}

impl ClientTable {
    /// Finds the method that a response belongs to by the type of its
    /// result: the first method, in the order of the description, whose
    /// result type the value is of. Where two methods have results of one
    /// type, the earlier one is found, whichever was called.
    pub fn match_response(&self, response: JsonRpcResponse) -> (result: Result<
        (usize, Json),
        JsonRpcError,
    >)
        ensures
            match response@.payload {
                PayloadView::Success(value) => match first_fit(
                    result_types(self.methods@),
                    value,
                    0,
                ) {
                    Some(i) => result matches Ok(found) && found.0 == i && found.1@ == value,
                    None => result matches Err(JsonRpcError::RequestProcessing(text)) && text@
                        == mismatch_text(),
                },
                PayloadView::Error(error) => result matches Err(
                    JsonRpcError::RequestProcessing(text),
                ) && text@ == error.message,
            },
    {
        match response.payload {
            ResponsePayload::Success(value) => {
                let mut i: usize = 0;
                while i < self.methods.len()
                    invariant
                        i <= self.methods@.len(),
                        response@.payload == PayloadView::Success(value@),
                        first_fit(result_types(self.methods@), value@, 0) == first_fit(
                            result_types(self.methods@),
                            value@,
                            i as int,
                        ),
                    decreases self.methods@.len() - i,
                {
                    assert(result_types(self.methods@)[i as int] == self.methods@[i as int].result);
                    if check_fits(self.methods[i].result, &value) {
                        return Ok((i, value));
                    }
                    i += 1;
                }
                Err(
                    JsonRpcError::RequestProcessing(
                        String::from_str("Failed to deserialize response into any known variant"),
                    ),
                )
            },
            ResponsePayload::Error(error) => Err(JsonRpcError::RequestProcessing(error.message)),
        }
    }
}

/// The wire names of the parameters of a call.
fn param_names(args: &Vec<RpcFnArg>) -> (names: Vec<String>)
    ensures
        string_views(names@) == wire_names(args@),
{
    let mut names: Vec<String> = Vec::new();
    let mut i: usize = 0;
    while i < args.len()
        invariant
            i <= args.len(),
            names@.len() == i,
            forall|k: int| 0 <= k < i ==> (#[trigger] names@[k])@ == args@[k].wire_name(),
        decreases args.len() - i,
    {
        names.push(args[i].name());
        i += 1;
    }
    assert(string_views(names@) =~= wire_names(args@));
    names
}

/// Whether the client's calls are those of a description: one call for
/// each method and each subscription, in their order, under their full
/// names.
pub open spec fn client_of(table: ClientTable, d: &RpcDescription) -> bool {
    &&& table.methods@.len() == d.methods@.len()
    &&& table.subscriptions@.len() == d.subscriptions@.len()
    &&& forall|i: int|
        0 <= i < d.methods@.len() ==> {
            let call = #[trigger] table.methods@[i];
            let m = d.methods@[i];
            &&& call.ident == m.signature.sig.ident
            &&& call.name@ == full_name(d, m.name@)
            &&& call.param_kind == m.param_kind
            &&& string_views(call.params@) == wire_names(m.params@)
            &&& call.result == ok_type_of(m.signature.sig.output)
        }
    &&& forall|i: int|
        0 <= i < d.subscriptions@.len() ==> {
            let call = #[trigger] table.subscriptions@[i];
            let s = d.subscriptions@[i];
            &&& call.ident == s.signature.sig.ident
            &&& call.subscribe@ == full_name(d, s.name@)
            &&& call.unsubscribe@ == full_name(d, s.unsubscribe@)
            &&& call.param_kind == s.param_kind
            &&& string_views(call.params@) == wire_names(s.params@)
            &&& call.item == s.item
        }
}

impl RpcDescription {
    /// The calls of the client.
    pub fn render_client(&self) -> (table: ClientTable)
        ensures
            client_of(table, self),
    {
        let mut methods: Vec<ClientMethod> = Vec::new();
        let mut i: usize = 0;
        while i < self.methods.len()
            invariant
                i <= self.methods@.len(),
                methods@.len() == i,
                forall|k: int|
                    0 <= k < i ==> {
                        let call = #[trigger] methods@[k];
                        let m = self.methods@[k];
                        &&& call.ident == m.signature.sig.ident
                        &&& call.name@ == full_name(self, m.name@)
                        &&& call.param_kind == m.param_kind
                        &&& string_views(call.params@) == wire_names(m.params@)
                        &&& call.result == ok_type_of(m.signature.sig.output)
                    },
            decreases self.methods@.len() - i,
        {
            let m = &self.methods[i];
            methods.push(
                ClientMethod {
                    ident: m.signature.sig.ident.clone(),
                    name: self.rpc_identifier(m.name.as_str()),
                    param_kind: m.param_kind,
                    params: param_names(&m.params),
                    result: ok_type(&m.signature.sig.output),
                },
            );
            i += 1;
        }
        let mut subscriptions: Vec<ClientSubscription> = Vec::new();
        let mut j: usize = 0;
        while j < self.subscriptions.len()
            invariant
                j <= self.subscriptions@.len(),
                subscriptions@.len() == j,
                forall|k: int|
                    0 <= k < j ==> {
                        let call = #[trigger] subscriptions@[k];
                        let s = self.subscriptions@[k];
                        &&& call.ident == s.signature.sig.ident
                        &&& call.subscribe@ == full_name(self, s.name@)
                        &&& call.unsubscribe@ == full_name(self, s.unsubscribe@)
                        &&& call.param_kind == s.param_kind
                        &&& string_views(call.params@) == wire_names(s.params@)
                        &&& call.item == s.item
                    },
            decreases self.subscriptions@.len() - j,
        {
            let s = &self.subscriptions[j];
            subscriptions.push(
                ClientSubscription {
                    ident: s.signature.sig.ident.clone(),
                    subscribe: self.rpc_identifier(s.name.as_str()),
                    unsubscribe: self.rpc_identifier(s.unsubscribe.as_str()),
                    param_kind: s.param_kind,
                    params: param_names(&s.params),
                    item: s.item,
                },
            );
            j += 1;
        }
        ClientTable { methods, subscriptions }
    }

    /// Renders the description: the trait as it is kept, the server's
    /// route table where the server side is wanted, and the client's calls
    /// where the client side is wanted.
    pub fn render(self) -> (result: Result<Rendered, RenderError>)
        ensures
            match (
                if self.needs_server {
                    crate::render::first_clash(crate::render::routes_of(&self), 0)
                } else {
                    None
                }
            ) {
                Some((route, name)) => result == Err::<Rendered, RenderError>(
                    RenderError { route: route as usize, name: name as usize },
                ),
                None => {
                    &&& result matches Ok(rendered)
                    &&& rendered.trait_def == self.trait_def
                    &&& match rendered.server {
                        Some(table) => self.needs_server && table@ == crate::render::routes_of(
                            &self,
                        ) && crate::router::unique_names(table@),
                        None => !self.needs_server,
                    }
                    &&& match rendered.client {
                        Some(table) => self.needs_client && client_of(table, &self),
                        None => !self.needs_client,
                    }
                },
            },
    {
        let server = if self.needs_server {
            match self.render_server() {
                Ok(table) => Some(table),
                Err(error) => {
                    return Err(error);
                },
            }
        } else {
            None
        };
        let client = if self.needs_client {
            Some(self.render_client())
        } else {
            None
        };
        Ok(Rendered { trait_def: self.trait_def, server, client })
    }
}


/// A request of a transport that a client sends, with the type of the
/// response that the transport answers with.
pub trait OutgoingRequest {
    type Response;
}

/// The layer that bridges a service of canonical requests to a transport
/// that takes requests of type `Req`.
#[derive(Debug)]
pub struct JsonRpcClientLayer<Req> {
    pub _req: std::marker::PhantomData<Req>,
}

/// The service that a [`JsonRpcClientLayer`] makes: it takes canonical
/// requests, hands requests of the transport to its inner service, and
/// answers with canonical responses.
#[derive(Debug)]
pub struct JsonRpcClient<S, Req> {
    pub inner: S,
    pub _req: std::marker::PhantomData<Req>,
}

impl<Req> JsonRpcClientLayer<Req> {
    /// A layer for the transport's request type.
    pub fn new() -> Self {
        JsonRpcClientLayer { _req: std::marker::PhantomData }
    }

    /// Wraps an inner service.
    pub fn layer<S>(&self, inner: S) -> (service: JsonRpcClient<S, Req>)
        ensures
            service.inner == inner,
    {
        JsonRpcClient { inner, _req: std::marker::PhantomData }
    }
}

impl<S, Req> JsonRpcClient<S, Req> {
    /// The first step of a call over HTTP: the request as a `POST` with a
    /// JSON body, to be sent through the inner service.
    pub fn call_http(&self, request: JsonRpcRequest) -> (result: Result<
        crate::wire::HttpCall,
        JsonRpcError,
    >)
        ensures
            match crate::json::rendered_json(crate::wire::request_tree(request@)) {
                Some(text) => result matches Ok(call) && call.method@ == "POST"@
                    && call.content_type@ == "application/json"@ && call.body@ == text,
                None => result matches Err(JsonRpcError::SerdeJson(_)),
            },
    {
        crate::wire::encode_http_request(request)
    }

    /// The last step of a call over HTTP: the response that the body of
    /// the transport's response holds; an error of the inner service ends
    /// the call.
    pub fn answered_http(&self, outcome: Result<&[u8], JsonRpcError>) -> (result: Result<
        JsonRpcResponse,
        JsonRpcError,
    >)
        ensures
            match outcome {
                Err(error) => result == Err::<JsonRpcResponse, JsonRpcError>(error),
                Ok(body) => match crate::json::parsed_json(body@) {
                    None => result matches Err(JsonRpcError::SerdeJson(_)),
                    Some(tree) => match crate::wire::response_of(tree) {
                        Ok(response) => result matches Ok(decoded) && decoded@ == response,
                        Err(fault) => result matches Err(error) && crate::wire::reports(
                            error,
                            fault,
                            false,
                        ),
                    },
                },
            },
    {
        match outcome {
            Err(error) => Err(error),
            Ok(body) => crate::wire::decode_response(body),
        }
    }
}

/// Among members with different keys, each key finds its own value.
pub proof fn lemma_member_of_distinct(
    names: Seq<Seq<char>>,
    args: Seq<JsonTree>,
    k: int,
    m: int,
)
    requires
        names.len() == args.len(),
        0 <= k < m <= names.len(),
        forall|i: int, j: int| 0 <= i < j < names.len() ==> names[i] != names[j],
    ensures
        crate::json::member(
            Seq::new(names.len(), |i: int| (names[i], args[i])).take(m),
            names[k],
        ) == Some(args[k]),
    decreases m - k,
{
    let members = Seq::new(names.len(), |i: int| (names[i], args[i]));
    assert(members.take(m).last() == members[m - 1]);
    if m - 1 > k {
        assert(members.take(m).drop_last() =~= members.take(m - 1));
        lemma_member_of_distinct(names, args, k, m - 1);
    }
}

/// The request that a client builds for a method is the call that the
/// router of the same interface hands to the method's handler, with the
/// arguments in the order in which the client gave them. This holds where
/// each argument fits its declared parameter and, for a method that takes
/// its parameters by name, no two parameters have the same name.
pub proof fn lemma_client_call_is_invoked(
    table: Seq<crate::router::RouteView>,
    route: int,
    id: IdView,
    args: Seq<JsonTree>,
)
    requires
        crate::router::unique_names(table),
        0 <= route < table.len(),
        table[route].subscription is None,
        args.len() == table[route].params.len(),
        forall|i: int| 0 <= i < args.len() ==> crate::router::accepts(table[route].params[i], args[i]),
        table[route].param_kind == ParamKind::Named ==> forall|i: int, j: int|
            0 <= i < j < table[route].params.len() ==> table[route].params[i].name
                != table[route].params[j].name,
    ensures
        crate::router::dispatch(
            table,
            RequestView {
                id,
                method: table[route].names[0],
                params: call_params(
                    table[route].param_kind,
                    Seq::new(table[route].params.len(), |i: int| table[route].params[i].name),
                    args,
                ),
            },
        ) == (crate::router::DispatchView::Invoke { route, id, args }),
{
    let params = table[route].params;
    let names = Seq::new(params.len(), |i: int| params[i].name);
    let request = RequestView {
        id,
        method: table[route].names[0],
        params: call_params(table[route].param_kind, names, args),
    };
    assert(table[route].names.contains(table[route].names[0]));
    crate::router::lemma_name_resolves(table, route, table[route].names[0]);
    if params.len() == 0 {
        assert(args =~= Seq::<JsonTree>::empty());
    } else {
        match table[route].param_kind {
            ParamKind::Positional => {
                crate::router::lemma_all_accepted(params, args, 0);
            },
            ParamKind::Named => {
                let members = Seq::new(names.len(), |i: int| (names[i], args[i]));
                assert(members.take(members.len() as int) =~= members);
                assert forall|k: int| 0 <= k < params.len() implies crate::router::named_arg(
                    params[k],
                    members,
                ) == Ok::<JsonTree, crate::message::ErrorView>(args[k]) by {
                    lemma_member_of_distinct(names, args, k, names.len() as int);
                }
                lemma_named_args_in_order(params, members, args, params.len());
                assert(args.take(args.len() as int) =~= args);
            },
        }
    }
}

/// Where each declared parameter finds its argument, the arguments of a
/// named call are these arguments in declared order.
pub proof fn lemma_named_args_in_order(
    params: Seq<crate::router::ParamSpecView>,
    members: Seq<(Seq<char>, JsonTree)>,
    args: Seq<JsonTree>,
    n: nat,
)
    requires
        n <= params.len() == args.len(),
        forall|k: int|
            0 <= k < params.len() ==> crate::router::named_arg(params[k], members) == Ok::<
                JsonTree,
                crate::message::ErrorView,
            >(args[k]),
    ensures
        crate::router::named_args(params, members, n) == Ok::<
            Seq<JsonTree>,
            crate::message::ErrorView,
        >(args.take(n as int)),
    decreases n,
{
    if n > 0 {
        lemma_named_args_in_order(params, members, args, (n - 1) as nat);
        assert(args.take(n as int) =~= args.take(n - 1).push(args[n - 1]));
    } else {
        assert(args.take(0) =~= Seq::<JsonTree>::empty());
    }
}

} // verus!
