//! Layers that stand in front of a router: a guard that denies chosen
//! methods, and the choice among routers by the prefix of the method name.

use crate::json::{find_member, member_trees, trees, Json, JsonTree};
use crate::message::{
    error_response, fault, ErrorObject, JsonRpcRequest, JsonRpcResponse, Params, RequestView,
    INVALID_REQUEST_CODE,
};
use crate::names::{has_prefix, starts_with, string_views};
use crate::router::{
    extract, first_rejected, named_arg, named_args, resolve, ParamKind, ParamSpecView, Route,
    RouteTable, RouteView,
};
use vstd::prelude::*;
use vstd::string::*;

verus! {

/// Every declared parameter up to `n` has its argument among the members.
pub open spec fn all_named_fit(
    params: Seq<ParamSpecView>,
    members: Seq<(Seq<char>, JsonTree)>,
    n: nat,
) -> bool {
    forall|k: int| 0 <= k < n && k < params.len() ==> (#[trigger] named_arg(params[k], members)) is Ok
}

/// The arguments of a named call exist where each declared parameter has
/// its argument, and only there.
pub proof fn lemma_named_args_ok(
    params: Seq<ParamSpecView>,
    members: Seq<(Seq<char>, JsonTree)>,
    n: nat,
)
    requires
        n <= params.len(),
    ensures
        named_args(params, members, n) is Ok <==> all_named_fit(params, members, n),
    decreases n,
{
    if n > 0 {
        lemma_named_args_ok(params, members, (n - 1) as nat);
        if all_named_fit(params, members, n) {
            assert(named_arg(params[n - 1], members) is Ok);
        }
    }
}

impl Route {
    /// Whether the parameters of a call fit this route, so that the call
    /// has arguments. The parameters are looked at, not taken.
    pub fn takes(&self, params: &Params) -> (r: bool)
        ensures
            r == (extract(self@, params@) is Ok),
    {
        if self.params.len() == 0 {
            return true;
        }
        match self.param_kind {
            ParamKind::Positional => match params {
                Params::Positional(items) => self.takes_items(items),
                Params::Absent => {
                    assert(self@.params.len() != Seq::<JsonTree>::empty().len());
                    false
                },
                Params::Named(_) => false,
            },
            ParamKind::Named => match params {
                Params::Named(members) => self.takes_members(members),
                Params::Absent => {
                    let members: Vec<(String, Json)> = Vec::new();
                    assert(member_trees(members@) =~= Seq::empty());
                    self.takes_members(&members)
                },
                Params::Positional(_) => false,
            },
        }
    }

    /// Whether the items of a positional call fit the declared parameters.
    fn takes_items(&self, items: &Vec<Json>) -> (r: bool)
        ensures
            r == (crate::router::positional_args(self@.params, trees(items@)) is Ok),
    {
        if items.len() != self.params.len() {
            return false;
        }
        let mut i: usize = 0;
        while i < items.len()
            invariant
                i <= items.len(),
                items.len() == self.params.len(),
                first_rejected(self@.params, trees(items@), 0) == first_rejected(
                    self@.params,
                    trees(items@),
                    i as int,
                ),
            decreases items.len() - i,
        {
            if !self.params[i].accepts(&items[i]) {
                return false;
            }
            i += 1;
        }
        true
    }

    /// Whether the members of a named call hold an argument for each
    /// declared parameter.
    fn takes_members(&self, members: &Vec<(String, Json)>) -> (r: bool)
        ensures
            r == (named_args(self@.params, member_trees(members@), self@.params.len()) is Ok),
    {
        let mut i: usize = 0;
        while i < self.params.len()
            invariant
                i <= self.params.len(),
                all_named_fit(self@.params, member_trees(members@), i as nat),
            decreases self.params.len() - i,
        {
            let param = &self.params[i];
            let fits = match find_member(members, &param.name) {
                None => !param.required,
                Some(at) => param.accepts(&members[at].1),
            };
            assert(fits == (named_arg(self@.params[i as int], member_trees(members@)) is Ok));
            if !fits {
                proof {
                    lemma_named_args_ok(
                        self@.params,
                        member_trees(members@),
                        self@.params.len(),
                    );
                }
                return false;
            }
            i += 1;
        }
        proof {
            lemma_named_args_ok(self@.params, member_trees(members@), self@.params.len());
        }
        true
    }
}

/// A guard in front of a router: it denies the calls of one route and lets
/// every other request pass.
pub struct MethodGuard {
    /// The position, in the router's table, of the route that is denied.
    pub denied: usize,
}

/// What a guard does with a request.
#[derive(Debug, PartialEq)]
pub enum GuardStep {
    /// The request goes on to the inner service as it came.
    Pass(JsonRpcRequest),
    /// The request is answered at once; the inner service is not called.
    Deny(JsonRpcResponse),
}

/// Whether a request is a call of a route: its method resolves to the
/// route, and its parameters fit it.
pub open spec fn calls_route(table: Seq<RouteView>, route: int, request: RequestView) -> bool {
    resolve(table, request.method) == Some(route) && extract(table[route], request.params) is Ok
}

/// The text with which a guard denies a method.
pub open spec fn denied_text(method: Seq<char>) -> Seq<char> {
    method + " is disabled"@
}

impl MethodGuard {
    /// Decides whether a request passes. A call of the denied route is
    /// answered with an invalid-request error under the id of the request;
    /// every other request passes untouched.
    pub fn check(&self, table: &RouteTable, request: JsonRpcRequest) -> (step: GuardStep)
        ensures
            if calls_route(table@, self.denied as int, request@) {
                step matches GuardStep::Deny(response) && response@ == error_response(
                    request@.id,
                    fault(INVALID_REQUEST_CODE, denied_text(request@.method)),
                )
            } else {
                step == GuardStep::Pass(request)
            },
    {
        let denied = match table.resolve(&request.method) {
            Some(route) => route == self.denied && table.route(route).takes(&request.params),
            None => false,
        };
        if denied {
            let mut text = request.method.clone();
            text.append(" is disabled");
            GuardStep::Deny(
                JsonRpcResponse::error(request.id, ErrorObject::with_detail(INVALID_REQUEST_CODE, text)),
            )
        } else {
            GuardStep::Pass(request)
        }
    }
}

/// The first prefix from `start` on that a method name begins with.
pub open spec fn first_prefix(prefixes: Seq<Seq<char>>, method: Seq<char>, start: int) -> Option<int>
    decreases prefixes.len() - start,
{
    if start < 0 || start >= prefixes.len() {
        None
    } else if has_prefix(method, prefixes[start]) {
        Some(start)
    } else {
        first_prefix(prefixes, method, start + 1)
    }
}

/// Chooses among routers by the prefix of the method name: the position of
/// the first prefix that the name begins with, or nothing where it begins
/// with none.
pub fn choose_by_prefix(prefixes: &Vec<String>, method: &str) -> (chosen: Option<usize>)
    ensures
        match chosen {
            Some(i) => first_prefix(string_views(prefixes@), method@, 0) == Some(i as int) && i
                < prefixes@.len(),
            None => first_prefix(string_views(prefixes@), method@, 0) is None,
        },
{
    let mut i: usize = 0;
    while i < prefixes.len()
        invariant
            i <= prefixes@.len(),
            first_prefix(string_views(prefixes@), method@, 0) == first_prefix(
                string_views(prefixes@),
                method@,
                i as int,
            ),
        decreases prefixes@.len() - i,
    {
        if starts_with(method, prefixes[i].as_str()) {
            return Some(i);
        }
        i += 1;
    }
    None
}

} // verus!
