//! The description of an RPC interface: a handler trait with its methods and
//! subscriptions, read into the descriptors that the route table and the
//! client are built from.

use crate::json::same_text;
use crate::names::{
    build_unsubscribe_method, camel_case, qualified_name, snake_to_camel, unsubscribe_name,
};
use crate::router::{ParamKind, ParamType};
use vstd::prelude::*;
use vstd::string::*;

verus! {

/// A declared type, as far as the wire shows it: the kind of JSON value, and
/// whether the value may be left out.
#[derive(Clone, Copy, Debug, PartialEq, Eq)]
pub struct TypeDecl {
    pub kind: ParamType,
    pub optional: bool,
}

/// What a method returns: nothing, a value, or a value or an error.
#[derive(Clone, Copy, Debug, PartialEq, Eq)]
pub enum Output {
    Unit,
    Plain(TypeDecl),
    Fallible(TypeDecl),
}

/// An attribute on an argument of a method. The `argument` attribute may
/// rename the argument on the wire.
#[derive(Debug, PartialEq, Eq)]
pub struct ArgAttribute {
    pub path: String,
    pub rename: Option<String>,
}

/// How a method's signature names an argument.
#[derive(Debug, PartialEq, Eq)]
pub enum ArgPattern {
    Ident(String),
    Wild,
    Other,
}

/// An argument of a method with its type and attributes.
#[derive(Debug, PartialEq, Eq)]
pub struct TypedArg {
    pub pattern: ArgPattern,
    pub ty: TypeDecl,
    pub attrs: Vec<ArgAttribute>,
}

/// An input of a method: the receiver, or an argument.
#[derive(Debug, PartialEq, Eq)]
pub enum FnArg {
    Receiver,
    Typed(TypedArg),
}

/// The `method` attribute.
#[derive(Debug, PartialEq, Eq)]
pub struct MethodAttr {
    pub aliases: Vec<String>,
    pub blocking: bool,
    pub name: Option<String>,
    pub param_kind: ParamKind,
    pub with_extensions: bool,
}

/// The `subscription` attribute. `notif_name` is the name that the
/// notifications carry where it differs from the subscription's name.
#[derive(Debug, PartialEq, Eq)]
pub struct SubscriptionAttr {
    pub aliases: Vec<String>,
    pub item: TypeDecl,
    pub name: String,
    pub notif_name: Option<String>,
    pub param_kind: ParamKind,
    pub unsubscribe: Option<String>,
    pub unsubscribe_aliases: Vec<String>,
    pub with_extensions: bool,
}

/// An attribute on a method of the trait.
#[derive(Debug, PartialEq, Eq)]
pub enum Attribute {
    Method(MethodAttr),
    Subscription(SubscriptionAttr),
    Other(String),
}

/// The signature of a method. `returns_future` is set where an `async`
/// method was rewritten into one that returns a future.
#[derive(Debug, PartialEq, Eq)]
pub struct Signature {
    pub ident: String,
    pub is_async: bool,
    pub returns_future: bool,
    pub inputs: Vec<FnArg>,
    pub output: Output,
}

/// A method of the trait.
#[derive(Debug, PartialEq, Eq)]
pub struct TraitItemFn {
    pub attrs: Vec<Attribute>,
    pub sig: Signature,
}

/// An item of the trait: a method, or something else.
#[derive(Debug, PartialEq, Eq)]
pub enum TraitItem {
    Fn(TraitItemFn),
    Other,
}

/// The trait that declares the interface.
#[derive(Debug, PartialEq, Eq)]
pub struct ItemTrait {
    pub ident: String,
    pub items: Vec<TraitItem>,
}

/// The attribute on the trait itself.
#[derive(Debug, PartialEq, Eq)]
pub struct RpcAttr {
    pub client: bool,
    pub server: bool,
    pub namespace: Option<String>,
    pub namespace_separator: Option<String>,
    pub client_bounds: bool,
    pub server_bounds: bool,
}

/// Why a trait does not describe an RPC interface. Where a method or an
/// argument is at fault, the error gives its position.
#[derive(Clone, Copy, Debug, PartialEq, Eq)]
pub enum DescribeError {
    /// Neither `server` nor `client` was asked for.
    NoSide,
    /// `client_bounds` without `client`.
    ClientBoundsWithoutClient,
    /// `server_bounds` without `server`.
    ServerBoundsWithoutServer,
    /// The method at this position does not take `&self` first.
    MissingReceiver(usize),
    /// The method at this position is both a method and a subscription.
    MethodAndSubscription(usize),
    /// The item at this position is not a method.
    NotAMethod(usize),
    /// The trait has neither methods nor subscriptions.
    Empty,
    /// A blocking method is declared `async`.
    BlockingAsync,
    /// The argument at this position is named `_`.
    WildArgument(usize),
    /// The argument at this position is not named by an identifier.
    UnexpectedArgument(usize),
    /// The subscription gives no unsubscribe method, and none can be derived
    /// from its name.
    NoUnsubscribe,
}

/// Whether an argument attribute is the `argument` attribute.
pub open spec fn is_argument(attr: ArgAttribute) -> bool {
    attr.path@ == "argument"@
}

/// The first `argument` attribute from `start` on.
pub open spec fn first_argument(attrs: Seq<ArgAttribute>, start: int) -> Option<int>
    decreases attrs.len() - start,
{
    if start < 0 || start >= attrs.len() {
        None
    } else if is_argument(attrs[start]) {
        Some(start)
    } else {
        first_argument(attrs, start + 1)
    }
}

/// The name that the first `argument` attribute gives an argument, if any.
pub open spec fn renamed(attrs: Seq<ArgAttribute>) -> Option<String> {
    match first_argument(attrs, 0) {
        Some(i) => attrs[i].rename,
        None => None,
    }
}

/// The attributes without the `argument` attributes.
pub open spec fn other_attrs(attrs: Seq<ArgAttribute>) -> Seq<ArgAttribute> {
    attrs.filter(|attr: ArgAttribute| !is_argument(attr))
}

/// The position of the first `argument` attribute.
pub fn find_attr(attrs: &Vec<ArgAttribute>) -> (found: Option<usize>)
    ensures
        match found {
            Some(i) => first_argument(attrs@, 0) == Some(i as int) && i < attrs.len(),
            None => first_argument(attrs@, 0) is None,
        },
{
    let wanted = String::from_str("argument");
    let mut i: usize = 0;
    while i < attrs.len()
        invariant
            i <= attrs.len(),
            wanted@ == "argument"@,
            first_argument(attrs@, 0) == first_argument(attrs@, i as int),
        decreases attrs.len() - i,
    {
        if same_text(&attrs[i].path, &wanted) {
            return Some(i);
        }
        i += 1;
    }
    None
}

/// A copy of an optional string.
pub fn copy_text(text: &Option<String>) -> (r: Option<String>)
    ensures
        r == *text,
{
    match text {
        Some(s) => Some(s.clone()),
        None => None,
    }
}

/// A copy of a list of strings.
pub fn copy_names(names: &Vec<String>) -> (r: Vec<String>)
    ensures
        r@ == names@,
{
    let mut r: Vec<String> = Vec::new();
    let mut i: usize = 0;
    while i < names.len()
        invariant
            i <= names.len(),
            r@ == names@.take(i as int),
        decreases names.len() - i,
    {
        r.push(names[i].clone());
        assert(names@.take(i + 1) =~= names@.take(i as int).push(names@[i as int]));
        i += 1;
    }
    assert(names@.take(names.len() as int) =~= names@);
    r
}

/// The attributes of a list that are not `argument` attributes, in their
/// order.
pub fn without_argument_attrs(attrs: &Vec<ArgAttribute>) -> (kept: Vec<ArgAttribute>)
    ensures
        kept@ == other_attrs(attrs@),
{
    let wanted = String::from_str("argument");
    let ghost keep = |attr: ArgAttribute| !is_argument(attr);
    let mut kept: Vec<ArgAttribute> = Vec::new();
    let mut i: usize = 0;
    proof {
        reveal_with_fuel(Seq::filter, 2);
        assert(attrs@.take(0).filter(keep) =~= Seq::<ArgAttribute>::empty());
    }
    while i < attrs.len()
        invariant
            i <= attrs.len(),
            wanted@ == "argument"@,
            keep == (|attr: ArgAttribute| !is_argument(attr)),
            kept@ == attrs@.take(i as int).filter(keep),
        decreases attrs.len() - i,
    {
        proof {
            reveal_with_fuel(Seq::filter, 2);
            assert(attrs@.take(i + 1).drop_last() =~= attrs@.take(i as int));
        }
        if !same_text(&attrs[i].path, &wanted) {
            kept.push(ArgAttribute { path: attrs[i].path.clone(), rename: copy_text(&attrs[i].rename) });
        }
        i += 1;
    }
    assert(attrs@.take(attrs.len() as int) =~= attrs@);
    kept
}

/// A single argument of an RPC call, with what its attributes change.
#[derive(Debug, PartialEq, Eq)]
pub struct RpcFnArg {
    pub arg_pat: String,
    pub rename_to: Option<String>,
    pub ty: TypeDecl,
}

impl RpcFnArg {
    /// The name of the argument on the wire: the name it is renamed to, or
    /// else its identifier.
    pub open spec fn wire_name(&self) -> Seq<char> {
        match self.rename_to {
            Some(name) => name@,
            None => self.arg_pat@,
        }
    }

    /// Reads an argument: its name on the wire is the one that its first
    /// `argument` attribute gives, if any. The `argument` attributes are
    /// removed from the list.
    pub fn from_arg_attrs(arg_pat: String, ty: TypeDecl, attrs: &mut Vec<ArgAttribute>) -> (result:
        Result<Self, DescribeError>)
        ensures
            result matches Ok(arg) && arg.arg_pat == arg_pat && arg.ty == ty && arg.rename_to
                == renamed(old(attrs)@),
            final(attrs)@ == other_attrs(old(attrs)@),
    {
        let rename_to = match find_attr(attrs) {
            Some(i) => copy_text(&attrs[i].rename),
            None => None,
        };
        let kept = without_argument_attrs(attrs);
        *attrs = kept;
        Ok(Self { arg_pat, rename_to, ty })
    }

    /// The name of this argument on the wire.
    pub fn name(&self) -> (name: String)
        ensures
            name@ == self.wire_name(),
    {
        match &self.rename_to {
            Some(name) => name.clone(),
            None => self.arg_pat.clone(),
        }
    }
}


/// A method after its `async` was rewritten: it is no longer `async`, and
/// it returns a future where it was `async` or already returned one.
pub open spec fn fn_rewritten(after: TraitItemFn, before: TraitItemFn) -> bool {
    &&& after.attrs == before.attrs
    &&& after.sig.ident == before.sig.ident
    &&& after.sig.inputs == before.sig.inputs
    &&& after.sig.output == before.sig.output
    &&& !after.sig.is_async
    &&& after.sig.returns_future == (before.sig.is_async || before.sig.returns_future)
}

/// An item after the `async` methods were rewritten.
pub open spec fn item_rewritten(after: TraitItem, before: TraitItem) -> bool {
    match (after, before) {
        (TraitItem::Fn(n), TraitItem::Fn(o)) => fn_rewritten(n, o),
        (TraitItem::Other, TraitItem::Other) => true,
        _ => false,
    }
}

/// Rewrites each `async` method of the trait into a method that returns a
/// future of the same output.
pub fn rewrite_async_methods(item: &mut ItemTrait)
    ensures
        final(item).ident == old(item).ident,
        final(item).items@.len() == old(item).items@.len(),
        forall|k: int|
            0 <= k < old(item).items@.len() ==> item_rewritten(
                #[trigger] final(item).items@[k],
                old(item).items@[k],
            ),
{
    let mut i: usize = 0;
    while i < item.items.len()
        invariant
            i <= item.items@.len(),
            item.ident == old(item).ident,
            item.items@.len() == old(item).items@.len(),
            forall|k: int| 0 <= k < i ==> item_rewritten(#[trigger] item.items@[k], old(item).items@[k]),
            forall|k: int| i <= k < item.items@.len() ==> item.items@[k] == old(item).items@[k],
        decreases item.items@.len() - i,
    {
        match &mut item.items[i] {
            TraitItem::Fn(method) => {
                if method.sig.is_async {
                    method.sig.is_async = false;
                    method.sig.returns_future = true;
                }
            },
            TraitItem::Other => {},
        }
        i += 1;
    }
}


/// An input as a descriptor keeps it: the same input without its
/// `argument` attributes.
pub open spec fn input_read(after: FnArg, before: FnArg) -> bool {
    match (after, before) {
        (FnArg::Receiver, FnArg::Receiver) => true,
        (FnArg::Typed(n), FnArg::Typed(o)) => n.pattern == o.pattern && n.ty == o.ty && n.attrs@
            == other_attrs(o.attrs@),
        _ => false,
    }
}

/// The inputs of a signature as a descriptor keeps them.
pub open spec fn inputs_read(after: Seq<FnArg>, before: Seq<FnArg>) -> bool {
    &&& after.len() == before.len()
    &&& forall|i: int| 0 <= i < before.len() ==> input_read(#[trigger] after[i], before[i])
}

/// What is wrong with the input at a position, if anything: an argument
/// must be named by an identifier. A method tells `_` from other patterns.
pub open spec fn input_error(input: FnArg, at: usize, method: bool) -> Option<DescribeError> {
    match input {
        FnArg::Typed(arg) => match arg.pattern {
            ArgPattern::Ident(_) => None,
            ArgPattern::Wild => if method {
                Some(DescribeError::WildArgument(at))
            } else {
                Some(DescribeError::UnexpectedArgument(at))
            },
            ArgPattern::Other => Some(DescribeError::UnexpectedArgument(at)),
        },
        FnArg::Receiver => None,
    }
}

/// The error of the first input from `start` on that has one.
pub open spec fn first_input_error(inputs: Seq<FnArg>, start: int, method: bool) -> Option<
    DescribeError,
>
    decreases inputs.len() - start,
{
    if start < 0 || start >= inputs.len() {
        None
    } else if input_error(inputs[start], start as usize, method) is Some {
        input_error(inputs[start], start as usize, method)
    } else {
        first_input_error(inputs, start + 1, method)
    }
}

/// The arguments among the first `n` inputs, in their order: each input
/// that is named by an identifier, with the name that its attributes give
/// it on the wire.
pub open spec fn args_of(inputs: Seq<FnArg>, n: nat) -> Seq<RpcFnArg>
    decreases n,
{
    if n == 0 || n > inputs.len() {
        Seq::empty()
    } else {
        let head = args_of(inputs, (n - 1) as nat);
        match inputs[n - 1] {
            FnArg::Typed(TypedArg { pattern: ArgPattern::Ident(name), ty, attrs }) => head.push(
                RpcFnArg { arg_pat: name, rename_to: renamed(attrs@), ty },
            ),
            _ => head,
        }
    }
}

/// A copy of a list of argument attributes.
fn copy_arg_attrs(attrs: &Vec<ArgAttribute>) -> (r: Vec<ArgAttribute>)
    ensures
        r@ == attrs@,
{
    let mut r: Vec<ArgAttribute> = Vec::new();
    let mut i: usize = 0;
    while i < attrs.len()
        invariant
            i <= attrs.len(),
            r@ == attrs@.take(i as int),
        decreases attrs.len() - i,
    {
        r.push(ArgAttribute { path: attrs[i].path.clone(), rename: copy_text(&attrs[i].rename) });
        assert(attrs@.take(i + 1) =~= attrs@.take(i as int).push(attrs@[i as int]));
        i += 1;
    }
    assert(attrs@.take(attrs.len() as int) =~= attrs@);
    r
}

/// Reads the inputs of a signature: the arguments of the call, and the
/// inputs without their `argument` attributes.
pub fn read_inputs(inputs: &Vec<FnArg>, method: bool) -> (result: Result<
    (Vec<RpcFnArg>, Vec<FnArg>),
    DescribeError,
>)
    ensures
        match first_input_error(inputs@, 0, method) {
            Some(error) => result == Err::<(Vec<RpcFnArg>, Vec<FnArg>), DescribeError>(error),
            None => result matches Ok(read) && read.0@ == args_of(inputs@, inputs@.len())
                && inputs_read(read.1@, inputs@),
        },
{
    let mut params: Vec<RpcFnArg> = Vec::new();
    let mut kept: Vec<FnArg> = Vec::new();
    let mut i: usize = 0;
    while i < inputs.len()
        invariant
            i <= inputs.len(),
            first_input_error(inputs@, 0, method) == first_input_error(inputs@, i as int, method),
            params@ == args_of(inputs@, i as nat),
            kept@.len() == i,
            forall|k: int| 0 <= k < i ==> input_read(#[trigger] kept@[k], inputs@[k]),
        decreases inputs.len() - i,
    {
        match &inputs[i] {
            FnArg::Receiver => {
                kept.push(FnArg::Receiver);
            },
            FnArg::Typed(arg) => match &arg.pattern {
                ArgPattern::Ident(name) => {
                    let mut attrs = copy_arg_attrs(&arg.attrs);
                    match RpcFnArg::from_arg_attrs(name.clone(), arg.ty, &mut attrs) {
                        Ok(param) => {
                            params.push(param);
                        },
                        Err(error) => {
                            return Err(error);
                        },
                    }
                    kept.push(
                        FnArg::Typed(
                            TypedArg { pattern: ArgPattern::Ident(name.clone()), ty: arg.ty, attrs },
                        ),
                    );
                },
                ArgPattern::Wild => {
                    if method {
                        return Err(DescribeError::WildArgument(i));
                    } else {
                        return Err(DescribeError::UnexpectedArgument(i));
                    }
                },
                ArgPattern::Other => {
                    return Err(DescribeError::UnexpectedArgument(i));
                },
            },
        }
        i += 1;
    }
    Ok((params, kept))
}

/// A signature as a descriptor keeps it: without the attributes of the
/// method and without the `argument` attributes of its inputs.
pub open spec fn signature_read(after: TraitItemFn, before: TraitItemFn) -> bool {
    &&& after.attrs@.len() == 0
    &&& after.sig.ident == before.sig.ident
    &&& after.sig.is_async == before.sig.is_async
    &&& after.sig.returns_future == before.sig.returns_future
    &&& after.sig.output == before.sig.output
    &&& inputs_read(after.sig.inputs@, before.sig.inputs@)
}

/// The descriptor of a method.
#[derive(Debug, PartialEq, Eq)]
pub struct RpcMethod {
    pub name: String,
    pub params: Vec<RpcFnArg>,
    pub param_kind: ParamKind,
    pub signature: TraitItemFn,
    pub aliases: Vec<String>,
}

/// Why a method has no descriptor, if it has none: a blocking method must
/// not be `async`, and each argument must be named by an identifier.
pub open spec fn method_error(attr: Option<&MethodAttr>, method: &TraitItemFn) -> Option<
    DescribeError,
> {
    if attr matches Some(a) && a.blocking && method.sig.is_async {
        Some(DescribeError::BlockingAsync)
    } else {
        first_input_error(method.sig.inputs@, 0, true)
    }
}

/// Whether `m` is the descriptor of a method. The name is the one that the
/// attribute gives, or else the identifier in camel case; without an
/// attribute the method has no aliases and takes its parameters by
/// position.
pub open spec fn describes_method(m: RpcMethod, attr: Option<&MethodAttr>, method: &TraitItemFn) -> bool {
    &&& m.name@ == match attr {
        Some(a) => match a.name {
            Some(name) => name@,
            None => camel_case(method.sig.ident@),
        },
        None => camel_case(method.sig.ident@),
    }
    &&& m.aliases@ == match attr {
        Some(a) => a.aliases@,
        None => Seq::<String>::empty(),
    }
    &&& m.param_kind == match attr {
        Some(a) => a.param_kind,
        None => ParamKind::Positional,
    }
    &&& m.params@ == args_of(method.sig.inputs@, method.sig.inputs@.len())
    &&& signature_read(m.signature, *method)
}

impl RpcMethod {
    /// Reads the descriptor of a method from its attribute, if it has one,
    /// and its signature.
    pub fn from_item(attr: Option<&MethodAttr>, method: &TraitItemFn) -> (result: Result<
        Self,
        DescribeError,
    >)
        ensures
            match method_error(attr, method) {
                Some(error) => result == Err::<Self, DescribeError>(error),
                None => result matches Ok(m) && describes_method(m, attr, method),
            },
    {
        let (aliases, blocking, name, param_kind) = match attr {
            Some(a) => {
                let name = match &a.name {
                    Some(name) => name.clone(),
                    None => snake_to_camel(method.sig.ident.as_str()),
                };
                (copy_names(&a.aliases), a.blocking, name, a.param_kind)
            },
            None => (
                Vec::new(),
                false,
                snake_to_camel(method.sig.ident.as_str()),
                ParamKind::Positional,
            ),
        };
        if blocking && method.sig.is_async {
            return Err(DescribeError::BlockingAsync);
        }
        match read_inputs(&method.sig.inputs, true) {
            Err(error) => Err(error),
            Ok((params, inputs)) => {
                let signature = TraitItemFn {
                    attrs: Vec::new(),
                    sig: Signature {
                        ident: method.sig.ident.clone(),
                        is_async: method.sig.is_async,
                        returns_future: method.sig.returns_future,
                        inputs,
                        output: method.sig.output,
                    },
                };
                Ok(Self { aliases, name, params, param_kind, signature })
            },
        }
    }
}

/// The descriptor of a subscription.
#[derive(Debug, PartialEq, Eq)]
pub struct RpcSubscription {
    pub name: String,
    pub unsubscribe: String,
    pub notif_name: String,
    pub item: TypeDecl,
    pub params: Vec<RpcFnArg>,
    pub param_kind: ParamKind,
    pub aliases: Vec<String>,
    pub signature: TraitItemFn,
}

/// Why a subscription has no descriptor, if it has none: it needs an
/// unsubscribe method, given or derived from its name, and each argument
/// must be named by an identifier.
pub open spec fn subscription_error(attr: &SubscriptionAttr, sub: &TraitItemFn) -> Option<
    DescribeError,
> {
    if attr.unsubscribe is None && unsubscribe_name(attr.name@) is None {
        Some(DescribeError::NoUnsubscribe)
    } else {
        first_input_error(sub.sig.inputs@, 0, false)
    }
}

/// Whether `s` is the descriptor of a subscription. The unsubscribe method
/// is the one that the attribute gives, or else the one derived from the
/// name; the notifications carry the name that the attribute maps the
/// subscription to, or else the subscription's own.
pub open spec fn describes_subscription(s: RpcSubscription, attr: &SubscriptionAttr, sub: &TraitItemFn) -> bool {
    &&& s.name == attr.name
    &&& s.unsubscribe@ == match attr.unsubscribe {
        Some(name) => name@,
        None => unsubscribe_name(attr.name@).unwrap(),
    }
    &&& s.notif_name@ == match attr.notif_name {
        Some(name) => name@,
        None => attr.name@,
    }
    &&& s.item == attr.item
    &&& s.param_kind == attr.param_kind
    &&& s.aliases@ == attr.aliases@
    &&& s.params@ == args_of(sub.sig.inputs@, sub.sig.inputs@.len())
    &&& signature_read(s.signature, *sub)
}

impl RpcSubscription {
    /// Reads the descriptor of a subscription from its attribute and its
    /// signature.
    pub fn from_item(attr: &SubscriptionAttr, sub: &TraitItemFn) -> (result: Result<
        Self,
        DescribeError,
    >)
        ensures
            match subscription_error(attr, sub) {
                Some(error) => result == Err::<Self, DescribeError>(error),
                None => result matches Ok(s) && describes_subscription(s, attr, sub),
            },
    {
        let aliases = copy_names(&attr.aliases);
        let name = attr.name.clone();
        let notif_name = match &attr.notif_name {
            Some(mapped) => mapped.clone(),
            None => name.clone(),
        };
        let unsubscribe = match &attr.unsubscribe {
            Some(unsub) => unsub.clone(),
            None => match build_unsubscribe_method(name.as_str()) {
                Some(unsub) => unsub,
                None => {
                    return Err(DescribeError::NoUnsubscribe);
                },
            },
        };
        match read_inputs(&sub.sig.inputs, false) {
            Err(error) => Err(error),
            Ok((params, inputs)) => {
                let signature = TraitItemFn {
                    attrs: Vec::new(),
                    sig: Signature {
                        ident: sub.sig.ident.clone(),
                        is_async: sub.sig.is_async,
                        returns_future: sub.sig.returns_future,
                        inputs,
                        output: sub.sig.output,
                    },
                };
                Ok(
                    Self {
                        name,
                        unsubscribe,
                        notif_name,
                        item: attr.item,
                        params,
                        param_kind: attr.param_kind,
                        aliases,
                        signature,
                    },
                )
            },
        }
    }
}


/// Whether an attribute is one of the RPC attributes, `method` or
/// `subscription`.
pub open spec fn is_rpc_attr(attr: Attribute) -> bool {
    attr is Method || attr is Subscription
}

/// The attributes of a method without the RPC attributes.
pub open spec fn plain_attrs(attrs: Seq<Attribute>) -> Seq<Attribute> {
    attrs.filter(|attr: Attribute| !is_rpc_attr(attr))
}

/// The first `method` attribute from `start` on.
pub open spec fn first_method_attr(attrs: Seq<Attribute>, start: int) -> Option<int>
    decreases attrs.len() - start,
{
    if start < 0 || start >= attrs.len() {
        None
    } else if attrs[start] is Method {
        Some(start)
    } else {
        first_method_attr(attrs, start + 1)
    }
}

/// The first `subscription` attribute from `start` on.
pub open spec fn first_subscription_attr(attrs: Seq<Attribute>, start: int) -> Option<int>
    decreases attrs.len() - start,
{
    if start < 0 || start >= attrs.len() {
        None
    } else if attrs[start] is Subscription {
        Some(start)
    } else {
        first_subscription_attr(attrs, start + 1)
    }
}

/// The position of the first `method` attribute.
pub fn find_method_attr(attrs: &Vec<Attribute>) -> (found: Option<usize>)
    ensures
        match found {
            Some(i) => first_method_attr(attrs@, 0) == Some(i as int) && i < attrs.len()
                && attrs@[i as int] is Method,
            None => first_method_attr(attrs@, 0) is None,
        },
{
    let mut i: usize = 0;
    while i < attrs.len()
        invariant
            i <= attrs.len(),
            first_method_attr(attrs@, 0) == first_method_attr(attrs@, i as int),
        decreases attrs.len() - i,
    {
        match &attrs[i] {
            Attribute::Method(_) => {
                return Some(i);
            },
            _ => {},
        }
        i += 1;
    }
    None
}

/// The position of the first `subscription` attribute.
pub fn find_subscription_attr(attrs: &Vec<Attribute>) -> (found: Option<usize>)
    ensures
        match found {
            Some(i) => first_subscription_attr(attrs@, 0) == Some(i as int) && i < attrs.len()
                && attrs@[i as int] is Subscription,
            None => first_subscription_attr(attrs@, 0) is None,
        },
{
    let mut i: usize = 0;
    while i < attrs.len()
        invariant
            i <= attrs.len(),
            first_subscription_attr(attrs@, 0) == first_subscription_attr(attrs@, i as int),
        decreases attrs.len() - i,
    {
        match &attrs[i] {
            Attribute::Subscription(_) => {
                return Some(i);
            },
            _ => {},
        }
        i += 1;
    }
    None
}

/// A method after its RPC attributes were stripped: it keeps its other
/// attributes, and its inputs lose their `argument` attributes.
pub open spec fn fn_stripped(after: TraitItemFn, before: TraitItemFn) -> bool {
    &&& after.attrs@ == plain_attrs(before.attrs@)
    &&& after.sig.ident == before.sig.ident
    &&& after.sig.is_async == before.sig.is_async
    &&& after.sig.returns_future == before.sig.returns_future
    &&& after.sig.output == before.sig.output
    &&& inputs_read(after.sig.inputs@, before.sig.inputs@)
}

/// An item after the RPC attributes were stripped.
pub open spec fn item_stripped(after: TraitItem, before: TraitItem) -> bool {
    match (after, before) {
        (TraitItem::Fn(n), TraitItem::Fn(o)) => fn_stripped(n, o),
        (TraitItem::Other, TraitItem::Other) => true,
        _ => false,
    }
}

/// The attributes of a method that are not RPC attributes, in their order.
fn without_rpc_attrs(attrs: &Vec<Attribute>) -> (kept: Vec<Attribute>)
    ensures
        kept@ == plain_attrs(attrs@),
{
    let ghost keep = |attr: Attribute| !is_rpc_attr(attr);
    let mut kept: Vec<Attribute> = Vec::new();
    let mut i: usize = 0;
    proof {
        reveal_with_fuel(Seq::filter, 2);
        assert(attrs@.take(0).filter(keep) =~= Seq::<Attribute>::empty());
    }
    while i < attrs.len()
        invariant
            i <= attrs.len(),
            keep == (|attr: Attribute| !is_rpc_attr(attr)),
            kept@ == attrs@.take(i as int).filter(keep),
        decreases attrs.len() - i,
    {
        proof {
            reveal_with_fuel(Seq::filter, 2);
            assert(attrs@.take(i + 1).drop_last() =~= attrs@.take(i as int));
        }
        match &attrs[i] {
            Attribute::Other(path) => {
                kept.push(Attribute::Other(path.clone()));
            },
            _ => {},
        }
        i += 1;
    }
    assert(attrs@.take(attrs.len() as int) =~= attrs@);
    kept
}

/// Removes the `argument` attributes from the inputs of a signature.
fn strip_inputs(inputs: &mut Vec<FnArg>)
    ensures
        inputs_read(final(inputs)@, old(inputs)@),
{
    let mut j: usize = 0;
    while j < inputs.len()
        invariant
            j <= inputs@.len(),
            inputs@.len() == old(inputs)@.len(),
            forall|k: int| 0 <= k < j ==> input_read(#[trigger] inputs@[k], old(inputs)@[k]),
            forall|k: int| j <= k < inputs@.len() ==> inputs@[k] == old(inputs)@[k],
        decreases inputs@.len() - j,
    {
        match &mut inputs[j] {
            FnArg::Typed(arg) => {
                let kept = without_argument_attrs(&arg.attrs);
                arg.attrs = kept;
            },
            FnArg::Receiver => {},
        }
        j += 1;
    }
}

/// Removes the RPC attributes from the methods of the trait, and the
/// `argument` attributes from their inputs.
pub fn strip_rpc_attrs(item: &mut ItemTrait)
    ensures
        final(item).ident == old(item).ident,
        final(item).items@.len() == old(item).items@.len(),
        forall|k: int|
            0 <= k < old(item).items@.len() ==> item_stripped(
                #[trigger] final(item).items@[k],
                old(item).items@[k],
            ),
{
    let mut i: usize = 0;
    while i < item.items.len()
        invariant
            i <= item.items@.len(),
            item.ident == old(item).ident,
            item.items@.len() == old(item).items@.len(),
            forall|k: int| 0 <= k < i ==> item_stripped(#[trigger] item.items@[k], old(item).items@[k]),
            forall|k: int| i <= k < item.items@.len() ==> item.items@[k] == old(item).items@[k],
        decreases item.items@.len() - i,
    {
        match &mut item.items[i] {
            TraitItem::Fn(method) => {
                let kept = without_rpc_attrs(&method.attrs);
                method.attrs = kept;
                strip_inputs(&mut method.sig.inputs);
            },
            TraitItem::Other => {},
        }
        i += 1;
    }
}


/// The description of an RPC interface.
#[derive(Debug, PartialEq, Eq)]
pub struct RpcDescription {
    /// Whether the server side is wanted.
    pub needs_server: bool,
    /// Whether the client side is wanted.
    pub needs_client: bool,
    /// The prefix of every method name, if any.
    pub namespace: Option<String>,
    /// What stands between the namespace and a method name; `_` where none
    /// is given.
    pub namespace_separator: Option<String>,
    /// The trait without its RPC attributes.
    pub trait_def: ItemTrait,
    /// The methods of the trait, in their order.
    pub methods: Vec<RpcMethod>,
    /// The subscriptions of the trait, in their order.
    pub subscriptions: Vec<RpcSubscription>,
}

/// Whether an item is a subscription: a method with a `subscription`
/// attribute.
pub open spec fn is_subscription(item: TraitItem) -> bool {
    item matches TraitItem::Fn(method) && first_subscription_attr(method.attrs@, 0) is Some
}

/// The `method` attribute of a method, if it has one.
pub open spec fn method_attr_of(method: &TraitItemFn) -> Option<&MethodAttr> {
    match first_method_attr(method.attrs@, 0) {
        Some(j) => Some(&method.attrs@[j]->Method_0),
        None => None,
    }
}

/// What is wrong with the item at a position, if anything. An item must be
/// a method that takes `&self` first and is not both a method and a
/// subscription, and it must have a descriptor.
pub open spec fn item_error(item: TraitItem, at: usize) -> Option<DescribeError> {
    match item {
        TraitItem::Other => Some(DescribeError::NotAMethod(at)),
        TraitItem::Fn(method) => if !(method.sig.inputs@.len() > 0
            && method.sig.inputs@[0] is Receiver) {
            Some(DescribeError::MissingReceiver(at))
        } else if first_method_attr(method.attrs@, 0) is Some && first_subscription_attr(
            method.attrs@,
            0,
        ) is Some {
            Some(DescribeError::MethodAndSubscription(at))
        } else {
            match first_subscription_attr(method.attrs@, 0) {
                Some(j) => subscription_error(&method.attrs@[j]->Subscription_0, &method),
                None => method_error(method_attr_of(&method), &method),
            }
        },
    }
}

/// The error of the first item from `start` on that has one.
pub open spec fn first_item_error(items: Seq<TraitItem>, start: int) -> Option<DescribeError>
    decreases items.len() - start,
{
    if start < 0 || start >= items.len() {
        None
    } else if item_error(items[start], start as usize) is Some {
        item_error(items[start], start as usize)
    } else {
        first_item_error(items, start + 1)
    }
}

/// Why a trait has no description, if it has none. The attribute is looked
/// at first, then the items in their order; a trait without items is empty.
pub open spec fn description_error(attr: RpcAttr, item: ItemTrait) -> Option<DescribeError> {
    if !attr.server && !attr.client {
        Some(DescribeError::NoSide)
    } else if attr.client_bounds && !attr.client {
        Some(DescribeError::ClientBoundsWithoutClient)
    } else if attr.server_bounds && !attr.server {
        Some(DescribeError::ServerBoundsWithoutServer)
    } else if first_item_error(item.items@, 0) is Some {
        first_item_error(item.items@, 0)
    } else if item.items@.len() == 0 {
        Some(DescribeError::Empty)
    } else {
        None
    }
}

/// The positions, among the first `n` items, of the methods that are no
/// subscriptions.
pub open spec fn method_positions(items: Seq<TraitItem>, n: nat) -> Seq<int>
    decreases n,
{
    if n == 0 || n > items.len() {
        Seq::empty()
    } else if is_subscription(items[n - 1]) {
        method_positions(items, (n - 1) as nat)
    } else {
        method_positions(items, (n - 1) as nat).push(n - 1)
    }
}

/// The positions, among the first `n` items, of the subscriptions.
pub open spec fn subscription_positions(items: Seq<TraitItem>, n: nat) -> Seq<int>
    decreases n,
{
    if n == 0 || n > items.len() {
        Seq::empty()
    } else if is_subscription(items[n - 1]) {
        subscription_positions(items, (n - 1) as nat).push(n - 1)
    } else {
        subscription_positions(items, (n - 1) as nat)
    }
}

/// Whether `m` is the descriptor of the method that an item declares.
pub open spec fn describes_method_item(m: RpcMethod, item: TraitItem) -> bool {
    item matches TraitItem::Fn(method) && describes_method(m, method_attr_of(&method), &method)
}

/// Whether `s` is the descriptor of the subscription that an item declares.
pub open spec fn describes_subscription_item(s: RpcSubscription, item: TraitItem) -> bool {
    item matches TraitItem::Fn(method) && first_subscription_attr(method.attrs@, 0) matches Some(j)
        && describes_subscription(s, &method.attrs@[j]->Subscription_0, &method)
}

/// Whether the descriptors are those of the first `n` items: one for each
/// method and one for each subscription, in the order of the items.
pub open spec fn describes_items(
    methods: Seq<RpcMethod>,
    subscriptions: Seq<RpcSubscription>,
    items: Seq<TraitItem>,
    n: nat,
) -> bool {
    &&& methods.len() == method_positions(items, n).len()
    &&& subscriptions.len() == subscription_positions(items, n).len()
    &&& forall|j: int|
        0 <= j < methods.len() ==> describes_method_item(
            #[trigger] methods[j],
            items[method_positions(items, n)[j]],
        )
    &&& forall|j: int|
        0 <= j < subscriptions.len() ==> describes_subscription_item(
            #[trigger] subscriptions[j],
            items[subscription_positions(items, n)[j]],
        )
}

/// An item of the trait as the description keeps it: without RPC
/// attributes, and no longer `async`.
pub open spec fn item_kept(after: TraitItem, before: TraitItem) -> bool {
    match (after, before) {
        (TraitItem::Fn(n), TraitItem::Fn(o)) => {
            &&& n.attrs@ == plain_attrs(o.attrs@)
            &&& n.sig.ident == o.sig.ident
            &&& n.sig.output == o.sig.output
            &&& !n.sig.is_async
            &&& n.sig.returns_future == (o.sig.is_async || o.sig.returns_future)
            &&& inputs_read(n.sig.inputs@, o.sig.inputs@)
        },
        (TraitItem::Other, TraitItem::Other) => true,
        _ => false,
    }
}

/// Whether `d` is the description of a trait.
pub open spec fn describes(d: RpcDescription, attr: RpcAttr, item: ItemTrait) -> bool {
    &&& d.needs_server == attr.server
    &&& d.needs_client == attr.client
    &&& d.namespace == attr.namespace
    &&& d.namespace_separator == attr.namespace_separator
    &&& describes_items(d.methods@, d.subscriptions@, item.items@, item.items@.len())
    &&& d.trait_def.ident == item.ident
    &&& d.trait_def.items@.len() == item.items@.len()
    &&& forall|k: int|
        0 <= k < item.items@.len() ==> item_kept(#[trigger] d.trait_def.items@[k], item.items@[k])
}

impl RpcDescription {
    /// Reads the description of an RPC interface from the trait that
    /// declares it and the attribute on the trait.
    pub fn from_item(attr: RpcAttr, item: ItemTrait) -> (result: Result<Self, DescribeError>)
        ensures
            match description_error(attr, item) {
                Some(error) => result == Err::<Self, DescribeError>(error),
                None => result matches Ok(d) && describes(d, attr, item),
            },
    {
        if !attr.server && !attr.client {
            return Err(DescribeError::NoSide);
        }
        if attr.client_bounds && !attr.client {
            return Err(DescribeError::ClientBoundsWithoutClient);
        }
        if attr.server_bounds && !attr.server {
            return Err(DescribeError::ServerBoundsWithoutServer);
        }
        let mut methods: Vec<RpcMethod> = Vec::new();
        let mut subscriptions: Vec<RpcSubscription> = Vec::new();
        let mut i: usize = 0;
        while i < item.items.len()
            invariant
                i <= item.items@.len(),
                attr.server || attr.client,
                attr.client_bounds ==> attr.client,
                attr.server_bounds ==> attr.server,
                first_item_error(item.items@, 0) == first_item_error(item.items@, i as int),
                describes_items(methods@, subscriptions@, item.items@, i as nat),
            decreases item.items@.len() - i,
        {
            let ghost old_methods = methods@;
            let ghost old_subscriptions = subscriptions@;
            match &item.items[i] {
                TraitItem::Other => {
                    return Err(DescribeError::NotAMethod(i));
                },
                TraitItem::Fn(method) => {
                    let has_receiver = method.sig.inputs.len() > 0 && match &method.sig.inputs[0] {
                        FnArg::Receiver => true,
                        FnArg::Typed(_) => false,
                    };
                    if !has_receiver {
                        return Err(DescribeError::MissingReceiver(i));
                    }
                    let method_attr = find_method_attr(&method.attrs);
                    let sub_attr = find_subscription_attr(&method.attrs);
                    if method_attr.is_some() && sub_attr.is_some() {
                        return Err(DescribeError::MethodAndSubscription(i));
                    }
                    match sub_attr {
                        Some(j) => match &method.attrs[j] {
                            Attribute::Subscription(sub) => {
                                match RpcSubscription::from_item(sub, method) {
                                    Ok(sub_data) => {
                                        subscriptions.push(sub_data);
                                    },
                                    Err(error) => {
                                        return Err(error);
                                    },
                                }
                            },
                            _ => {},
                        },
                        None => {
                            let attr_ref: Option<&MethodAttr> = match method_attr {
                                Some(j) => match &method.attrs[j] {
                                    Attribute::Method(a) => Some(a),
                                    _ => None,
                                },
                                None => None,
                            };
                            match RpcMethod::from_item(attr_ref, method) {
                                Ok(method_data) => {
                                    methods.push(method_data);
                                },
                                Err(error) => {
                                    return Err(error);
                                },
                            }
                        },
                    }
                },
            }
            proof {
                let items = item.items@;
                let n = (i + 1) as nat;
                assert forall|j: int| 0 <= j < methods@.len() implies describes_method_item(
                    #[trigger] methods@[j],
                    items[method_positions(items, n)[j]],
                ) by {
                    if j < old_methods.len() {
                        assert(methods@[j] == old_methods[j]);
                    }
                }
                assert forall|j: int| 0 <= j < subscriptions@.len() implies describes_subscription_item(
                    #[trigger] subscriptions@[j],
                    items[subscription_positions(items, n)[j]],
                ) by {
                    if j < old_subscriptions.len() {
                        assert(subscriptions@[j] == old_subscriptions[j]);
                    }
                }
            }
            i += 1;
        }
        if methods.len() == 0 && subscriptions.len() == 0 {
            proof {
                if item.items@.len() > 0 {
                    let n = item.items@.len();
                    assert(method_positions(item.items@, n).len() + subscription_positions(
                        item.items@,
                        n,
                    ).len() > 0);
                }
            }
            return Err(DescribeError::Empty);
        }
        let ghost given = item;
        let mut trait_def = item;
        strip_rpc_attrs(&mut trait_def);
        let ghost stripped = trait_def;
        rewrite_async_methods(&mut trait_def);
        proof {
            assert forall|k: int| 0 <= k < given.items@.len() implies item_kept(
                #[trigger] trait_def.items@[k],
                given.items@[k],
            ) by {
                assert(item_stripped(stripped.items@[k], given.items@[k]));
                assert(item_rewritten(trait_def.items@[k], stripped.items@[k]));
            }
        }
        Ok(
            Self {
                needs_server: attr.server,
                needs_client: attr.client,
                namespace: attr.namespace,
                namespace_separator: attr.namespace_separator,
                trait_def,
                methods,
                subscriptions,
            },
        )
    }

    /// The full name of a method or subscription: the namespace, the
    /// separator and the name, or the name alone where there is no
    /// namespace. The separator is `_` where none is given.
    pub fn rpc_identifier(&self, method: &str) -> (name: String)
        ensures
            name@ == qualified_name(
                match self.namespace {
                    Some(ns) => Some(ns@),
                    None => None,
                },
                match self.namespace_separator {
                    Some(sep) => sep@,
                    None => "_"@,
                },
                method@,
            ),
    {
        match &self.namespace {
            Some(ns) => {
                let mut name = ns.clone();
                match &self.namespace_separator {
                    Some(sep) => name.append(sep.as_str()),
                    None => name.append("_"),
                }
                name.append(method);
                name
            },
            None => String::from_str(method),
        }
    }
}

} // verus!
