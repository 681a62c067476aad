//! The method router: a table of routes, name resolution with aliases,
//! parameter extraction under the positional and the named convention, and
//! the decision what to do with a request.

use crate::json::{find_member, member, member_trees, same_text, trees, Json, JsonTree, NumberTree};
use crate::json::JsonNumber;
use crate::message::{
    decimal, decimal_text, error_response, fault, method_not_found, success_response, ErrorObject,
    ErrorView, Id, IdView, JsonRpcRequest, JsonRpcResponse, Params, ParamsView, RequestView,
    ResponseView, INVALID_PARAMS_CODE, INVALID_REQUEST_CODE,
};
use crate::names::string_views;
use vstd::prelude::*;
use vstd::string::*;

verus! {

/// How a method takes its parameters: as an array, by position, or as an
/// object, by name.
#[derive(Clone, Copy, Debug, PartialEq, Eq)]
pub enum ParamKind {
    Positional,
    Named,
}

/// The declared type of a parameter, as far as a JSON value shows it.
#[derive(Clone, Copy, Debug, PartialEq, Eq)]
pub enum ParamType {
    /// Any value.
    Any,
    /// Nothing: the value `null`.
    Null,
    /// `true` or `false`.
    Bool,
    /// An integer from zero to `u64::MAX`.
    Unsigned,
    /// An integer from `i64::MIN` to `i64::MAX`.
    Integer,
    /// Any number.
    Number,
    /// A string.
    Str,
    /// An array.
    Array,
    /// An object.
    Object,
}

/// One declared parameter: the name it has on the wire, its type, and
/// whether a call must give it.
#[derive(Debug, PartialEq, Eq)]
pub struct ParamSpec {
    pub name: String,
    pub ty: ParamType,
    pub required: bool,
}

/// The mathematical value of a [`ParamSpec`].
pub struct ParamSpecView {
    pub name: Seq<char>,
    pub ty: ParamType,
    pub required: bool,
}

impl View for ParamSpec {
    type V = ParamSpecView;

    open spec fn view(&self) -> ParamSpecView {
        ParamSpecView { name: self.name@, ty: self.ty, required: self.required }
    }
}

/// What a subscription has beyond a method: the name of the method that
/// ends it, and the type of the items it delivers.
#[derive(Debug, PartialEq, Eq)]
pub struct SubscriptionInfo {
    pub unsubscribe: String,
    pub item: ParamType,
}

/// A registered method or subscription. `names` holds every name that
/// resolves to it: the primary name first, then the aliases.
#[derive(Debug, PartialEq, Eq)]
pub struct Route {
    pub names: Vec<String>,
    pub param_kind: ParamKind,
    pub params: Vec<ParamSpec>,
    pub is_async: bool,
    pub subscription: Option<SubscriptionInfo>,
}

/// The mathematical value of a [`Route`].
pub struct RouteView {
    pub names: Seq<Seq<char>>,
    pub param_kind: ParamKind,
    pub params: Seq<ParamSpecView>,
    pub is_async: bool,
    pub subscription: Option<(Seq<char>, ParamType)>,
}

/// The views of a list of parameter declarations.
pub open spec fn param_views(params: Seq<ParamSpec>) -> Seq<ParamSpecView> {
    Seq::new(params.len(), |i: int| params[i]@)
}

impl View for Route {
    type V = RouteView;

    open spec fn view(&self) -> RouteView {
        RouteView {
            names: string_views(self.names@),
            param_kind: self.param_kind,
            params: param_views(self.params@),
            is_async: self.is_async,
            subscription: match self.subscription {
                Some(info) => Some((info.unsubscribe@, info.item)),
                None => None,
            },
        }
    }
}

/// The views of a list of routes.
pub open spec fn route_views(routes: Seq<Route>) -> Seq<RouteView> {
    Seq::new(routes.len(), |i: int| routes[i]@)
}

/// Whether a value is of a declared type.
pub open spec fn has_type(ty: ParamType, value: JsonTree) -> bool {
    match ty {
        ParamType::Any => true,
        ParamType::Null => value is Null,
        ParamType::Bool => value is Bool,
        ParamType::Unsigned => value matches JsonTree::Number(NumberTree::PosInt(_)),
        ParamType::Integer => match value {
            JsonTree::Number(NumberTree::PosInt(n)) => n <= i64::MAX,
            JsonTree::Number(NumberTree::NegInt(_)) => true,
            _ => false,
        },
        ParamType::Number => value is Number,
        ParamType::Str => value is Str,
        ParamType::Array => value is Array,
        ParamType::Object => value is Object,
    }
}

/// Whether a value can stand for a declared parameter: it is of the
/// parameter's type, or it is null and the parameter is not required.
pub open spec fn accepts(param: ParamSpecView, value: JsonTree) -> bool {
    has_type(param.ty, value) || (!param.required && value is Null)
}

/// The first position from `start` on at which a value does not fit the
/// parameter declared there.
pub open spec fn first_rejected(
    params: Seq<ParamSpecView>,
    items: Seq<JsonTree>,
    start: int,
) -> Option<int>
    decreases params.len() - start,
{
    if start < 0 || start >= params.len() || start >= items.len() {
        None
    } else if !accepts(params[start], items[start]) {
        Some(start)
    } else {
        first_rejected(params, items, start + 1)
    }
}

/// The text that reports a wrong number of positional parameters.
pub open spec fn count_detail(expected: nat, actual: nat) -> Seq<char> {
    "Expected "@ + decimal_text(expected) + " parameters, got "@ + decimal_text(actual)
}

/// The text that reports the position of a value of the wrong type.
pub open spec fn index_detail(index: nat) -> Seq<char> {
    "Invalid parameter at index "@ + decimal_text(index)
}

/// The text that reports a named parameter that the call does not give.
pub open spec fn missing_detail(name: Seq<char>) -> Seq<char> {
    "Missing parameter: "@ + name
}

/// The text that reports a named parameter whose value is of the wrong type.
pub open spec fn invalid_detail(name: Seq<char>) -> Seq<char> {
    "Invalid parameter: "@ + name
}

/// The error for parameters that are an object where the method takes an
/// array, or an array where it takes an object.
pub open spec fn wrong_container(kind: ParamKind) -> ErrorView {
    match kind {
        ParamKind::Positional => fault(INVALID_REQUEST_CODE, "Expected positional parameters"@),
        ParamKind::Named => fault(INVALID_REQUEST_CODE, "Expected named parameters"@),
    }
}

/// The error with which a subscription answers a direct call.
pub open spec fn not_implemented() -> ErrorView {
    fault(INVALID_REQUEST_CODE, "Subscriptions not yet implemented"@)
}

/// The arguments of a positional call: the items as they are, where their
/// number is the declared one and each fits its declaration.
pub open spec fn positional_args(params: Seq<ParamSpecView>, items: Seq<JsonTree>) -> Result<
    Seq<JsonTree>,
    ErrorView,
> {
    if items.len() != params.len() {
        Err(fault(INVALID_PARAMS_CODE, count_detail(params.len(), items.len())))
    } else {
        match first_rejected(params, items, 0) {
            Some(i) => Err(fault(INVALID_PARAMS_CODE, index_detail(i as nat))),
            None => Ok(items),
        }
    }
}

/// The argument for one declared parameter of a named call: the value that
/// the object holds under the parameter's wire name; null where it holds
/// none and the parameter is not required.
pub open spec fn named_arg(param: ParamSpecView, members: Seq<(Seq<char>, JsonTree)>) -> Result<
    JsonTree,
    ErrorView,
> {
    match member(members, param.name) {
        None => if param.required {
            Err(fault(INVALID_PARAMS_CODE, missing_detail(param.name)))
        } else {
            Ok(JsonTree::Null)
        },
        Some(value) => if accepts(param, value) {
            Ok(value)
        } else {
            Err(fault(INVALID_PARAMS_CODE, invalid_detail(param.name)))
        },
    }
}

/// The arguments for the first `n` declared parameters of a named call, in
/// declared order, or the error of the first parameter that has one.
pub open spec fn named_args(
    params: Seq<ParamSpecView>,
    members: Seq<(Seq<char>, JsonTree)>,
    n: nat,
) -> Result<Seq<JsonTree>, ErrorView>
    decreases n,
{
    if n == 0 || n > params.len() {
        Ok(Seq::empty())
    } else {
        match named_args(params, members, (n - 1) as nat) {
            Err(error) => Err(error),
            Ok(args) => match named_arg(params[n - 1], members) {
                Err(error) => Err(error),
                Ok(value) => Ok(args.push(value)),
            },
        }
    }
}

/// The arguments that a route's handler is called with, in declared order,
/// or the error that the parameters are answered with.
///
/// A route without declared parameters takes whatever parameters come and
/// passes none on. Absent parameters count as an empty array or an empty
/// object. A container of the other kind is an invalid request.
pub open spec fn extract(route: RouteView, params: ParamsView) -> Result<Seq<JsonTree>, ErrorView> {
    if route.params.len() == 0 {
        Ok(Seq::empty())
    } else {
        match (route.param_kind, params) {
            (ParamKind::Positional, ParamsView::Positional(items)) => positional_args(
                route.params,
                items,
            ),
            (ParamKind::Positional, ParamsView::Absent) => positional_args(route.params, Seq::empty()),
            (ParamKind::Named, ParamsView::Named(members)) => named_args(
                route.params,
                members,
                route.params.len(),
            ),
            (ParamKind::Named, ParamsView::Absent) => named_args(
                route.params,
                Seq::empty(),
                route.params.len(),
            ),
            (kind, _) => Err(wrong_container(kind)),
        }
    }
}

/// The first route from `start` on that is registered under `name`.
pub open spec fn find_route(table: Seq<RouteView>, name: Seq<char>, start: int) -> Option<int>
    decreases table.len() - start,
{
    if start < 0 || start >= table.len() {
        None
    } else if table[start].names.contains(name) {
        Some(start)
    } else {
        find_route(table, name, start + 1)
    }
}

/// The route that a method name resolves to.
pub open spec fn resolve(table: Seq<RouteView>, name: Seq<char>) -> Option<int> {
    find_route(table, name, 0)
}

/// What the router decides for a request: to call a handler, or to answer
/// at once.
#[derive(Debug, PartialEq)]
pub enum Dispatch {
    /// Call the handler bound to the route at this position of the table
    /// with these arguments, and answer under this id.
    Invoke { route: usize, id: Id, args: Vec<Json> },
    /// Send this response; no handler is called.
    Respond(JsonRpcResponse),
}

/// The mathematical value of a [`Dispatch`].
pub enum DispatchView {
    Invoke { route: int, id: IdView, args: Seq<JsonTree> },
    Respond(ResponseView),
}

impl View for Dispatch {
    type V = DispatchView;

    open spec fn view(&self) -> DispatchView {
        match self {
            Dispatch::Invoke { route, id, args } => DispatchView::Invoke {
                route: *route as int,
                id: id@,
                args: trees(args@),
            },
            Dispatch::Respond(response) => DispatchView::Respond(response@),
        }
    }
}

/// The decision for a request whose method resolved to `route`.
pub open spec fn dispatch_to(table: Seq<RouteView>, route: int, request: RequestView) -> DispatchView {
    match extract(table[route], request.params) {
        Err(error) => DispatchView::Respond(error_response(request.id, error)),
        Ok(args) => if table[route].subscription is Some {
            DispatchView::Respond(error_response(request.id, not_implemented()))
        } else {
            DispatchView::Invoke { route, id: request.id, args }
        },
    }
}

/// The router's decision for a request. An unregistered method is answered
/// with method-not-found; parameters that do not fit, with their error; a
/// subscription, with not-implemented; every other request calls its
/// handler. Each response carries the request's id.
pub open spec fn dispatch(table: Seq<RouteView>, request: RequestView) -> DispatchView {
    match resolve(table, request.method) {
        None => DispatchView::Respond(error_response(request.id, method_not_found())),
        Some(route) => dispatch_to(table, route, request),
    }
}

/// The response to a call once its handler has returned: the handler's
/// value as the result, or the handler's error, under the call's id.
pub open spec fn completed(id: IdView, outcome: Result<JsonTree, ErrorView>) -> ResponseView {
    match outcome {
        Ok(result) => success_response(id, result),
        Err(error) => error_response(id, error),
    }
}

/// What a router layer does with a request: it passes the request on to the
/// service it wraps, or it handles the request itself.
#[derive(Debug, PartialEq)]
pub enum Routed {
    /// No route matched: the request goes to the inner service as it came.
    Forward(JsonRpcRequest),
    /// A route matched: the router's decision.
    Local(Dispatch),
}

/// The names of a table are unique: a name stands once in the whole table,
/// so it resolves to one route, whether it is a primary name or an alias.
/// Every route has at least its primary name.
pub open spec fn unique_names(table: Seq<RouteView>) -> bool {
    &&& forall|i: int| 0 <= i < table.len() ==> (#[trigger] table[i]).names.len() > 0
    &&& forall|i: int, a: int, j: int, b: int|
        0 <= i < table.len() && 0 <= a < table[i].names.len() && 0 <= j < table.len() && 0 <= b
            < table[j].names.len() && #[trigger] table[i].names[a] == #[trigger] table[j].names[b]
            ==> i == j && a == b
}

/// Why a route was not registered.
#[derive(Debug, PartialEq, Eq)]
pub enum RegisterError {
    /// The route has no name.
    Unnamed,
    /// The route's name at this position is taken: by a route of the table,
    /// or by an earlier name of the route itself.
    Duplicate(usize),
}

/// Whether the name at position `k` of `names` is free: no route of the
/// table has it, and no earlier name of `names` is the same.
pub open spec fn name_free(table: Seq<RouteView>, names: Seq<Seq<char>>, k: int) -> bool {
    &&& resolve(table, names[k]) is None
    &&& forall|e: int| 0 <= e < k ==> names[e] != names[k]
}

/// The first position from `start` on whose name is not free.
pub open spec fn first_taken(table: Seq<RouteView>, names: Seq<Seq<char>>, start: int) -> Option<int>
    decreases names.len() - start,
{
    if start < 0 || start >= names.len() {
        None
    } else if !name_free(table, names, start) {
        Some(start)
    } else {
        first_taken(table, names, start + 1)
    }
}

/// The table of routes that a router dispatches over. It is built once, by
/// registering routes, and read from then on.
#[derive(Debug, PartialEq, Eq)]
pub struct RouteTable {
    routes: Vec<Route>,
}

impl View for RouteTable {
    type V = Seq<RouteView>;

    closed spec fn view(&self) -> Seq<RouteView> {
        route_views(self.routes@)
    }
}

/// Checks whether a value is of a declared type.
pub fn check_type(ty: ParamType, value: &Json) -> (r: bool)
    ensures
        r == has_type(ty, value@),
{
    match ty {
        ParamType::Any => true,
        ParamType::Null => match value {
            Json::Null => true,
            _ => false,
        },
        ParamType::Bool => match value {
            Json::Bool(_) => true,
            _ => false,
        },
        ParamType::Unsigned => match value {
            Json::Number(JsonNumber::PosInt(_)) => true,
            _ => false,
        },
        ParamType::Integer => match value {
            Json::Number(JsonNumber::PosInt(n)) => *n <= 0x7fff_ffff_ffff_ffff,
            Json::Number(JsonNumber::NegInt(_)) => true,
            _ => false,
        },
        ParamType::Number => match value {
            Json::Number(_) => true,
            _ => false,
        },
        ParamType::Str => match value {
            Json::Str(_) => true,
            _ => false,
        },
        ParamType::Array => match value {
            Json::Array(_) => true,
            _ => false,
        },
        ParamType::Object => match value {
            Json::Object(_) => true,
            _ => false,
        },
    }
}

impl ParamSpec {
    /// Checks whether a value can stand for this parameter.
    pub fn accepts(&self, value: &Json) -> (r: bool)
        ensures
            r == accepts(self@, value@),
    {
        if check_type(self.ty, value) {
            true
        } else if self.required {
            false
        } else {
            match value {
                Json::Null => true,
                _ => false,
            }
        }
    }
}

/// A text made of a fixed beginning and a name.
fn labelled(label: &str, name: &String) -> (text: String)
    ensures
        text@ == label@ + name@,
{
    let mut text = String::from_str(label);
    text.append(name.as_str());
    text
}

/// The error for a wrong number of positional parameters.
fn count_error(expected: usize, actual: usize) -> (error: ErrorObject)
    ensures
        error@ == fault(INVALID_PARAMS_CODE, count_detail(expected as nat, actual as nat)),
{
    let mut text = String::from_str("Expected ");
    text.append(decimal(expected).as_str());
    text.append(" parameters, got ");
    text.append(decimal(actual).as_str());
    ErrorObject::with_detail(INVALID_PARAMS_CODE, text)
}

impl Route {
    /// Whether this route is registered under `name`.
    pub fn has_name(&self, name: &String) -> (r: bool)
        ensures
            r == self@.names.contains(name@),
    {
        let mut k: usize = 0;
        while k < self.names.len()
            invariant
                k <= self.names.len(),
                forall|e: int| 0 <= e < k ==> self@.names[e] != name@,
            decreases self.names.len() - k,
        {
            if same_text(&self.names[k], name) {
                assert(self@.names[k as int] == name@);
                return true;
            }
            k += 1;
        }
        false
    }

    /// Checks the items of a positional call against the declared
    /// parameters and hands them on as the arguments.
    fn positional(&self, items: Vec<Json>) -> (result: Result<Vec<Json>, ErrorObject>)
        ensures
            match result {
                Ok(args) => positional_args(self@.params, trees(items@)) == Ok::<
                    Seq<JsonTree>,
                    ErrorView,
                >(trees(args@)),
                Err(error) => positional_args(self@.params, trees(items@)) == Err::<
                    Seq<JsonTree>,
                    ErrorView,
                >(error@),
            },
    {
        if items.len() != self.params.len() {
            return Err(count_error(self.params.len(), items.len()));
        }
        let mut i: usize = 0;
        while i < items.len()
            invariant
                i <= items.len(),
                items.len() == self.params.len(),
                first_rejected(self@.params, trees(items@), 0) == first_rejected(
                    self@.params,
                    trees(items@),
                    i as int,
                ),
            decreases items.len() - i,
        {
            if !self.params[i].accepts(&items[i]) {
                let mut text = String::from_str("Invalid parameter at index ");
                text.append(decimal(i).as_str());
                return Err(ErrorObject::with_detail(INVALID_PARAMS_CODE, text));
            }
            i += 1;
        }
        Ok(items)
    }

    /// Looks each declared parameter up in the members of a named call and
    /// collects the arguments in declared order.
    fn named(&self, members: &Vec<(String, Json)>) -> (result: Result<Vec<Json>, ErrorObject>)
        ensures
            match result {
                Ok(args) => named_args(
                    self@.params,
                    member_trees(members@),
                    self@.params.len(),
                ) == Ok::<Seq<JsonTree>, ErrorView>(trees(args@)),
                Err(error) => named_args(
                    self@.params,
                    member_trees(members@),
                    self@.params.len(),
                ) == Err::<Seq<JsonTree>, ErrorView>(error@),
            },
    {
        let mut args: Vec<Json> = Vec::new();
        let mut i: usize = 0;
        assert(trees(args@) =~= Seq::empty());
        while i < self.params.len()
            invariant
                i <= self.params.len(),
                named_args(self@.params, member_trees(members@), i as nat) == Ok::<
                    Seq<JsonTree>,
                    ErrorView,
                >(trees(args@)),
            decreases self.params.len() - i,
        {
            let param = &self.params[i];
            let ghost before = trees(args@);
            let found = find_member(members, &param.name);
            let outcome: Result<Json, ErrorObject> = match found {
                None => if param.required {
                    Err(
                        ErrorObject::with_detail(
                            INVALID_PARAMS_CODE,
                            labelled("Missing parameter: ", &param.name),
                        ),
                    )
                } else {
                    Ok(Json::Null)
                },
                Some(at) => if param.accepts(&members[at].1) {
                    Ok(members[at].1.duplicate())
                } else {
                    Err(
                        ErrorObject::with_detail(
                            INVALID_PARAMS_CODE,
                            labelled("Invalid parameter: ", &param.name),
                        ),
                    )
                },
            };
            match outcome {
                Err(error) => {
                    proof {
                        lemma_named_args_error(
                            self@.params,
                            member_trees(members@),
                            (i + 1) as nat,
                            self@.params.len(),
                        );
                    }
                    return Err(error);
                },
                Ok(value) => {
                    args.push(value);
                    assert(trees(args@) =~= before.push(value@));
                },
            }
            i += 1;
        }
        Ok(args)
    }

    /// The arguments that this route's handler is called with, or the error
    /// that the parameters are answered with.
    pub fn extract(&self, params: Params) -> (result: Result<Vec<Json>, ErrorObject>)
        ensures
            match result {
                Ok(args) => extract(self@, params@) == Ok::<Seq<JsonTree>, ErrorView>(trees(args@)),
                Err(error) => extract(self@, params@) == Err::<Seq<JsonTree>, ErrorView>(error@),
            },
    {
        if self.params.len() == 0 {
            let args: Vec<Json> = Vec::new();
            assert(trees(args@) =~= Seq::empty());
            return Ok(args);
        }
        match self.param_kind {
            ParamKind::Positional => match params {
                Params::Positional(items) => self.positional(items),
                Params::Absent => {
                    let items: Vec<Json> = Vec::new();
                    assert(trees(items@) =~= Seq::empty());
                    self.positional(items)
                },
                Params::Named(_) => Err(
                    ErrorObject::with_detail(
                        INVALID_REQUEST_CODE,
                        String::from_str("Expected positional parameters"),
                    ),
                ),
            },
            ParamKind::Named => match params {
                Params::Named(members) => self.named(&members),
                Params::Absent => {
                    let members: Vec<(String, Json)> = Vec::new();
                    assert(member_trees(members@) =~= Seq::empty());
                    self.named(&members)
                },
                Params::Positional(_) => Err(
                    ErrorObject::with_detail(
                        INVALID_REQUEST_CODE,
                        String::from_str("Expected named parameters"),
                    ),
                ),
            },
        }
    }
}

/// Once a declared parameter has an error, the later parameters do not
/// change it.
pub proof fn lemma_named_args_error(
    params: Seq<ParamSpecView>,
    members: Seq<(Seq<char>, JsonTree)>,
    i: nat,
    n: nat,
)
    requires
        i <= n <= params.len(),
        named_args(params, members, i) is Err,
    ensures
        named_args(params, members, n) == named_args(params, members, i),
    decreases n - i,
{
    if i < n {
        lemma_named_args_error(params, members, i, (n - 1) as nat);
    }
}

/// Answers a call whose handler has returned.
pub fn complete(id: Id, outcome: Result<Json, ErrorObject>) -> (response: JsonRpcResponse)
    ensures
        response@ == completed(
            id@,
            match outcome {
                Ok(result) => Ok(result@),
                Err(error) => Err(error@),
            },
        ),
{
    match outcome {
        Ok(result) => JsonRpcResponse::success(id, result),
        Err(error) => JsonRpcResponse::error(id, error),
    }
}

impl RouteTable {
    /// A table without routes.
    pub fn new() -> (table: RouteTable)
        ensures
            table@ == Seq::<RouteView>::empty(),
            unique_names(table@),
    {
        let table = RouteTable { routes: Vec::new() };
        assert(table@ =~= Seq::<RouteView>::empty());
        table
    }

    /// The number of routes.
    pub fn len(&self) -> (n: usize)
        ensures
            n == self@.len(),
    {
        self.routes.len()
    }

    /// The route at a position.
    pub fn route(&self, index: usize) -> (route: &Route)
        requires
            index < self@.len(),
        ensures
            route@ == self@[index as int],
    {
        &self.routes[index]
    }

    /// The position of the route that `method` resolves to: the route that
    /// has it as its primary name or as an alias.
    pub fn resolve(&self, method: &String) -> (found: Option<usize>)
        ensures
            match found {
                Some(i) => resolve(self@, method@) == Some(i as int) && i < self@.len(),
                None => resolve(self@, method@) is None,
            },
    {
        let mut i: usize = 0;
        while i < self.routes.len()
            invariant
                i <= self.routes.len(),
                resolve(self@, method@) == find_route(self@, method@, i as int),
            decreases self.routes.len() - i,
        {
            if self.routes[i].has_name(method) {
                return Some(i);
            }
            i += 1;
        }
        None
    }

    /// Whether a route is registered under `method`.
    pub fn contains(&self, method: &String) -> (r: bool)
        ensures
            r == (resolve(self@, method@) is Some),
    {
        self.resolve(method).is_some()
    }

    /// Adds a route. Every name of the route must be new to the table and
    /// occur once among the route's names; else the table stays as it is
    /// and the error gives the first name that is taken.
    pub fn register(&mut self, route: Route) -> (result: Result<(), RegisterError>)
        ensures
            match result {
                Ok(()) => {
                    &&& route@.names.len() > 0
                    &&& first_taken(old(self)@, route@.names, 0) is None
                    &&& final(self)@ == old(self)@.push(route@)
                },
                Err(RegisterError::Unnamed) => route@.names.len() == 0 && final(self)@ == old(
                    self,
                )@,
                Err(RegisterError::Duplicate(k)) => {
                    &&& route@.names.len() > 0
                    &&& first_taken(old(self)@, route@.names, 0) == Some(k as int)
                    &&& final(self)@ == old(self)@
                },
            },
            unique_names(old(self)@) ==> unique_names(final(self)@),
    {
        if route.names.len() == 0 {
            return Err(RegisterError::Unnamed);
        }
        let mut k: usize = 0;
        while k < route.names.len()
            invariant
                k <= route.names.len(),
                *self == *old(self),
                first_taken(self@, route@.names, 0) == first_taken(self@, route@.names, k as int),
                forall|e: int| 0 <= e < k ==> name_free(self@, route@.names, e),
            decreases route.names.len() - k,
        {
            let mut free = self.resolve(&route.names[k]).is_none();
            let mut e: usize = 0;
            while free && e < k
                invariant
                    e <= k < route.names.len(),
                    free ==> resolve(self@, route@.names[k as int]) is None,
                    free ==> forall|d: int| 0 <= d < e ==> route@.names[d] != route@.names[k as int],
                    !free ==> !name_free(self@, route@.names, k as int),
                decreases k - e + (if free { 1nat } else { 0nat }),
            {
                if same_text(&route.names[e], &route.names[k]) {
                    assert(route@.names[e as int] == route@.names[k as int]);
                    free = false;
                } else {
                    e += 1;
                }
            }
            if !free {
                return Err(RegisterError::Duplicate(k));
            }
            k += 1;
        }
        proof {
            lemma_register_keeps_unique(self@, route@);
        }
        let ghost before = self.routes@;
        self.routes.push(route);
        assert(route_views(self.routes@) =~= route_views(before).push(route@));
        Ok(())
    }

    /// Decides what to do with a request.
    pub fn dispatch(&self, request: JsonRpcRequest) -> (decision: Dispatch)
        ensures
            decision@ == dispatch(self@, request@),
    {
        let JsonRpcRequest { id, method, params } = request;
        match self.resolve(&method) {
            None => Dispatch::Respond(JsonRpcResponse::error(id, ErrorObject::method_not_found())),
            Some(index) => {
                let route = &self.routes[index];
                match route.extract(params) {
                    Err(error) => Dispatch::Respond(JsonRpcResponse::error(id, error)),
                    Ok(args) => {
                        if route.subscription.is_some() {
                            Dispatch::Respond(
                                JsonRpcResponse::error(
                                    id,
                                    ErrorObject::with_detail(
                                        INVALID_REQUEST_CODE,
                                        String::from_str("Subscriptions not yet implemented"),
                                    ),
                                ),
                            )
                        } else {
                            Dispatch::Invoke { route: index, id, args }
                        }
                    },
                }
            },
        }
    }

    /// Decides, for a router that wraps another service, whether the
    /// request is this router's: a request whose method no route is
    /// registered under is handed back untouched, to be passed on.
    pub fn route_or_forward(&self, request: JsonRpcRequest) -> (routed: Routed)
        ensures
            match routed {
                Routed::Forward(passed) => resolve(self@, request@.method) is None && passed
                    == request,
                Routed::Local(decision) => resolve(self@, request@.method) is Some && decision@
                    == dispatch(self@, request@),
            },
    {
        if self.contains(&request.method) {
            Routed::Local(self.dispatch(request))
        } else {
            Routed::Forward(request)
        }
    }
}

/// A table with unique names keeps them when a route is added whose names
/// are all free.
pub proof fn lemma_register_keeps_unique(table: Seq<RouteView>, route: RouteView)
    requires
        route.names.len() > 0,
        forall|e: int| 0 <= e < route.names.len() ==> name_free(table, route.names, e),
    ensures
        unique_names(table) ==> unique_names(table.push(route)),
{
    if unique_names(table) {
        let next = table.push(route);
        assert forall|i: int| 0 <= i < next.len() implies (#[trigger] next[i]).names.len() > 0 by {
            if i < table.len() {
                assert(next[i] == table[i]);
            }
        }
        assert forall|i: int, a: int, j: int, b: int|
            0 <= i < next.len() && 0 <= a < next[i].names.len() && 0 <= j < next.len() && 0 <= b
                < next[j].names.len() && #[trigger] next[i].names[a] == #[trigger] next[j].names[b]
            implies i == j && a == b by {
            let last = table.len() as int;
            if i < last && j < last {
                assert(next[i] == table[i] && next[j] == table[j]);
            } else if i == last && j == last {
                assert(name_free(table, route.names, a));
                assert(name_free(table, route.names, b));
            } else if i < last {
                assert(name_free(table, route.names, b));
                lemma_unresolved(table, route.names[b], 0, i);
                assert(table[i].names[a] == route.names[b]);
            } else {
                assert(name_free(table, route.names, a));
                lemma_unresolved(table, route.names[a], 0, j);
                assert(table[j].names[b] == route.names[a]);
            }
        }
    }
}

/// A name that no route from `start` on is registered under is not among
/// the names of any of these routes.
pub proof fn lemma_unresolved(table: Seq<RouteView>, name: Seq<char>, start: int, i: int)
    requires
        0 <= start <= i < table.len(),
        find_route(table, name, start) is None,
    ensures
        !table[i].names.contains(name),
    decreases i - start,
{
    if start < i {
        lemma_unresolved(table, name, start + 1, i);
    }
}

/// The route that a name resolves to is registered under that name, and no
/// earlier route is.
pub proof fn lemma_resolved(table: Seq<RouteView>, name: Seq<char>, start: int)
    requires
        0 <= start,
    ensures
        match find_route(table, name, start) {
            Some(i) => start <= i < table.len() && table[i].names.contains(name),
            None => true,
        },
    decreases table.len() - start,
{
    if start < table.len() && !table[start].names.contains(name) {
        lemma_resolved(table, name, start + 1);
    }
}


/// Where every value fits its declared parameter, no position is rejected.
pub proof fn lemma_all_accepted(params: Seq<ParamSpecView>, items: Seq<JsonTree>, start: int)
    requires
        0 <= start,
        forall|i: int| start <= i < params.len() && i < items.len() ==> accepts(params[i], items[i]),
    ensures
        first_rejected(params, items, start) is None,
    decreases params.len() - start,
{
    if start < params.len() && start < items.len() {
        lemma_all_accepted(params, items, start + 1);
    }
}

/// In a table with unique names, each name of a route resolves to that
/// route.
pub proof fn lemma_name_resolves(table: Seq<RouteView>, route: int, name: Seq<char>)
    requires
        unique_names(table),
        0 <= route < table.len(),
        table[route].names.contains(name),
    ensures
        resolve(table, name) == Some(route),
{
    lemma_resolved(table, name, 0);
    match resolve(table, name) {
        None => {
            lemma_unresolved(table, name, 0, route);
        },
        Some(found) => {
            let a = choose|a: int| 0 <= a < table[found].names.len() && table[found].names[a] == name;
            let b = choose|b: int| 0 <= b < table[route].names.len() && table[route].names[b] == name;
            assert(table[found].names[a] == table[route].names[b]);
        },
    }
}

/// A positional call that fits its method is handed to the method's
/// handler: the arguments are the items of the call, in the order in which
/// they came, and the call is answered under the id of the request.
pub proof fn lemma_positional_call_is_invoked(
    table: Seq<RouteView>,
    request: RequestView,
    route: int,
    items: Seq<JsonTree>,
)
    requires
        resolve(table, request.method) == Some(route),
        0 <= route < table.len(),
        table[route].param_kind == ParamKind::Positional,
        table[route].subscription is None,
        request.params == ParamsView::Positional(items),
        items.len() == table[route].params.len(),
        forall|i: int| 0 <= i < items.len() ==> accepts(table[route].params[i], items[i]),
    ensures
        dispatch(table, request) == (DispatchView::Invoke { route, id: request.id, args: items }),
        forall|outcome: Result<JsonTree, ErrorView>|
            (#[trigger] completed(request.id, outcome)).id == request.id,
{
    lemma_all_accepted(table[route].params, items, 0);
    if items.len() == 0 {
        assert(items =~= Seq::<JsonTree>::empty());
    }
}

/// Whatever the request, the router's own answer carries the request's id,
/// and so does a call that it hands to a handler.
pub proof fn lemma_dispatch_keeps_id(table: Seq<RouteView>, request: RequestView)
    ensures
        match dispatch(table, request) {
            DispatchView::Respond(response) => response.id == request.id,
            DispatchView::Invoke { id, .. } => id == request.id,
        },
{
}

/// A request for a method that no route is registered under is answered
/// with the method-not-found error, under the id of the request.
pub proof fn lemma_unregistered_method(table: Seq<RouteView>, request: RequestView)
    requires
        resolve(table, request.method) is None,
    ensures
        dispatch(table, request) == DispatchView::Respond(
            error_response(request.id, method_not_found()),
        ),
        method_not_found().code == -32601,
{
}

/// A positional call with a number of items other than the number of
/// declared parameters is answered with the invalid-params error; no
/// handler is called. This holds for every method that declares
/// parameters: a method that declares none takes whatever comes.
pub proof fn lemma_wrong_count_is_rejected(
    table: Seq<RouteView>,
    request: RequestView,
    route: int,
    items: Seq<JsonTree>,
)
    requires
        resolve(table, request.method) == Some(route),
        0 <= route < table.len(),
        table[route].param_kind == ParamKind::Positional,
        table[route].params.len() > 0,
        request.params == ParamsView::Positional(items),
        items.len() != table[route].params.len(),
    ensures
        dispatch(table, request) == DispatchView::Respond(
            error_response(
                request.id,
                fault(INVALID_PARAMS_CODE, count_detail(table[route].params.len(), items.len())),
            ),
        ),
        INVALID_PARAMS_CODE == -32602,
{
}

/// A call is routed alike under the primary name of its route and under
/// each alias: the same route is found, and the decision is the same.
pub proof fn lemma_alias_routes_alike(
    table: Seq<RouteView>,
    route: int,
    name: Seq<char>,
    alias: Seq<char>,
    request: RequestView,
)
    requires
        unique_names(table),
        0 <= route < table.len(),
        table[route].names.contains(name),
        table[route].names.contains(alias),
    ensures
        resolve(table, name) == Some(route),
        resolve(table, alias) == Some(route),
        dispatch(table, RequestView { method: name, ..request }) == dispatch(
            table,
            RequestView { method: alias, ..request },
        ),
{
    lemma_name_resolves(table, route, name);
    lemma_name_resolves(table, route, alias);
}

/// A subscription that is called directly is never handed to a handler:
/// the answer is an error.
pub proof fn lemma_subscription_is_not_served(table: Seq<RouteView>, request: RequestView, route: int)
    requires
        resolve(table, request.method) == Some(route),
        0 <= route < table.len(),
        table[route].subscription is Some,
    ensures
        dispatch(table, request) matches DispatchView::Respond(response) && response.payload is Error,
        extract(table[route], request.params) is Ok ==> dispatch(table, request)
            == DispatchView::Respond(error_response(request.id, not_implemented())),
{
}

} // verus!
