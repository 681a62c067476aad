//! From the description of an interface to what serves and calls it: the
//! route table of the server, and the calls of the client.

use crate::describe::{RpcDescription, RpcFnArg, RpcMethod, RpcSubscription};
use crate::names::{names_with_aliases, qualified_name, string_views};
use crate::router::{
    first_taken, unique_names, ParamSpec, ParamSpecView, RegisterError, Route, RouteTable,
    RouteView, SubscriptionInfo,
};
use vstd::prelude::*;
use vstd::string::*;

verus! {

/// The namespace of a description, as characters.
pub open spec fn namespace_of(d: &RpcDescription) -> Option<Seq<char>> {
    match d.namespace {
        Some(ns) => Some(ns@),
        None => None,
    }
}

/// The separator of a description: the one given, or `_`.
pub open spec fn separator_of(d: &RpcDescription) -> Seq<char> {
    match d.namespace_separator {
        Some(sep) => sep@,
        None => "_"@,
    }
}

/// The full name of a method of the description.
pub open spec fn full_name(d: &RpcDescription, name: Seq<char>) -> Seq<char> {
    qualified_name(namespace_of(d), separator_of(d), name)
}

/// The declaration of a parameter on the wire.
pub open spec fn param_spec_of(arg: RpcFnArg) -> ParamSpecView {
    ParamSpecView { name: arg.wire_name(), ty: arg.ty.kind, required: !arg.ty.optional }
}

/// The declarations of the parameters of a call.
pub open spec fn param_specs_of(args: Seq<RpcFnArg>) -> Seq<ParamSpecView> {
    Seq::new(args.len(), |i: int| param_spec_of(args[i]))
}

/// The route of a method: its full name and its aliases, and its
/// parameters.
pub open spec fn method_route(d: &RpcDescription, m: RpcMethod) -> RouteView {
    RouteView {
        names: seq![full_name(d, m.name@)] + string_views(m.aliases@),
        param_kind: m.param_kind,
        params: param_specs_of(m.params@),
        is_async: m.signature.sig.is_async,
        subscription: None,
    }
}

/// The route of a subscription: as that of a method, with the full name of
/// the unsubscribe method and the type of the items.
pub open spec fn subscription_route(d: &RpcDescription, s: RpcSubscription) -> RouteView {
    RouteView {
        names: seq![full_name(d, s.name@)] + string_views(s.aliases@),
        param_kind: s.param_kind,
        params: param_specs_of(s.params@),
        is_async: s.signature.sig.is_async,
        subscription: Some((full_name(d, s.unsubscribe@), s.item.kind)),
    }
}

/// The routes of a description: those of its methods, then those of its
/// subscriptions.
pub open spec fn routes_of(d: &RpcDescription) -> Seq<RouteView> {
    Seq::new(d.methods@.len(), |i: int| method_route(d, d.methods@[i])) + Seq::new(
        d.subscriptions@.len(),
        |i: int| subscription_route(d, d.subscriptions@[i]),
    )
}

/// The route and the name at which registration stops: the first route
/// from `start` on that has a name which an earlier route, or an earlier
/// name of its own, has taken.
pub open spec fn first_clash(routes: Seq<RouteView>, start: int) -> Option<(int, int)>
    decreases routes.len() - start,
{
    if start < 0 || start >= routes.len() {
        None
    } else {
        match first_taken(routes.take(start), routes[start].names, 0) {
            Some(k) => Some((start, k)),
            None => first_clash(routes, start + 1),
        }
    }
}

/// Why no route table was made: the route at this position has a name, at
/// this position among its names, that is already taken.
#[derive(Clone, Copy, Debug, PartialEq, Eq)]
pub struct RenderError {
    pub route: usize,
    pub name: usize,
}

/// The declarations of the parameters of a call.
fn param_specs(args: &Vec<RpcFnArg>) -> (specs: Vec<ParamSpec>)
    ensures
        crate::router::param_views(specs@) == param_specs_of(args@),
{
    let mut specs: Vec<ParamSpec> = Vec::new();
    let mut i: usize = 0;
    while i < args.len()
        invariant
            i <= args.len(),
            specs@.len() == i,
            forall|k: int| 0 <= k < i ==> (#[trigger] specs@[k])@ == param_spec_of(args@[k]),
        decreases args.len() - i,
    {
        specs.push(
            ParamSpec { name: args[i].name(), ty: args[i].ty.kind, required: !args[i].ty.optional },
        );
        i += 1;
    }
    assert(crate::router::param_views(specs@) =~= param_specs_of(args@));
    specs
}

impl RpcDescription {
    /// The route of the method at a position.
    fn route_of_method(&self, index: usize) -> (route: Route)
        requires
            index < self.methods@.len(),
        ensures
            route@ == method_route(self, self.methods@[index as int]),
    {
        let m = &self.methods[index];
        let primary = self.rpc_identifier(m.name.as_str());
        Route {
            names: names_with_aliases(primary.as_str(), &m.aliases),
            param_kind: m.param_kind,
            params: param_specs(&m.params),
            is_async: m.signature.sig.is_async,
            subscription: None,
        }
    }

    /// The route of the subscription at a position.
    fn route_of_subscription(&self, index: usize) -> (route: Route)
        requires
            index < self.subscriptions@.len(),
        ensures
            route@ == subscription_route(self, self.subscriptions@[index as int]),
    {
        let s = &self.subscriptions[index];
        let primary = self.rpc_identifier(s.name.as_str());
        Route {
            names: names_with_aliases(primary.as_str(), &s.aliases),
            param_kind: s.param_kind,
            params: param_specs(&s.params),
            is_async: s.signature.sig.is_async,
            subscription: Some(
                SubscriptionInfo {
                    unsubscribe: self.rpc_identifier(s.unsubscribe.as_str()),
                    item: s.item.kind,
                },
            ),
        }
    }

    /// The route table of the server: one route for each method and each
    /// subscription, under its full name and its aliases. A name that
    /// stands twice in the description is an error.
    pub fn render_server(&self) -> (result: Result<RouteTable, RenderError>)
        ensures
            match first_clash(routes_of(self), 0) {
                Some((route, name)) => result == Err::<RouteTable, RenderError>(
                    RenderError { route: route as usize, name: name as usize },
                ),
                None => result matches Ok(table) && table@ == routes_of(self) && unique_names(
                    table@,
                ),
            },
    {
        let ghost routes = routes_of(self);
        let mut table = RouteTable::new();
        let mut i: usize = 0;
        assert(routes.take(0) =~= table@);
        while i < self.methods.len()
            invariant
                i <= self.methods@.len(),
                routes == routes_of(self),
                table@ == routes.take(i as int),
                unique_names(table@),
                first_clash(routes, 0) == first_clash(routes, i as int),
            decreases self.methods@.len() - i,
        {
            let route = self.route_of_method(i);
            assert(route@ == routes[i as int]);
            match table.register(route) {
                Ok(()) => {},
                Err(RegisterError::Duplicate(k)) => {
                    return Err(RenderError { route: i, name: k });
                },
                Err(RegisterError::Unnamed) => {
                    return Err(RenderError { route: i, name: 0 });
                },
            }
            assert(routes.take(i + 1) =~= routes.take(i as int).push(routes[i as int]));
            i += 1;
        }
        let mut j: usize = 0;
        while j < self.subscriptions.len()
            invariant
                j <= self.subscriptions@.len(),
                routes == routes_of(self),
                table@ == routes.take(self.methods@.len() + j),
                unique_names(table@),
                first_clash(routes, 0) == first_clash(routes, self.methods@.len() + j),
            decreases self.subscriptions@.len() - j,
        {
            let route = self.route_of_subscription(j);
            let ghost at = self.methods@.len() + j;
            assert(route@ == routes[at]);
            let position = table.len();
            match table.register(route) {
                Ok(()) => {},
                Err(RegisterError::Duplicate(k)) => {
                    return Err(RenderError { route: position, name: k });
                },
                Err(RegisterError::Unnamed) => {
                    return Err(RenderError { route: position, name: 0 });
                },
            }
            assert(routes.take(at + 1) =~= routes.take(at).push(routes[at]));
            j += 1;
        }
        assert(routes.take(routes.len() as int) =~= routes);
        Ok(table)
    }
}

} // verus!
