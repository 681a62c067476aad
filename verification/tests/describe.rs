use tower_json_rpc::client::{ok_type, ClientMethod, ClientSubscription, ClientTable, Rendered};
use tower_json_rpc::describe::{
    find_attr, find_method_attr, find_subscription_attr, read_inputs, rewrite_async_methods,
    strip_rpc_attrs, without_argument_attrs, ArgAttribute, ArgPattern, Attribute, DescribeError,
    FnArg, ItemTrait, MethodAttr, Output, RpcAttr, RpcDescription, RpcFnArg, RpcMethod,
    RpcSubscription, Signature, SubscriptionAttr, TraitItem, TraitItemFn, TypeDecl, TypedArg,
};
use tower_json_rpc::names::to_variant_name;
use tower_json_rpc::render::RenderError;
use tower_json_rpc::router::{ParamKind, ParamSpec, ParamType, Route, SubscriptionInfo};

fn ty(kind: ParamType) -> TypeDecl {
    TypeDecl { kind, optional: false }
}

fn arg(name: &str, kind: ParamType) -> FnArg {
    FnArg::Typed(TypedArg { pattern: ArgPattern::Ident(name.to_string()), ty: ty(kind), attrs: vec![] })
}

fn renamed_arg(name: &str, rename: &str) -> FnArg {
    FnArg::Typed(TypedArg {
        pattern: ArgPattern::Ident(name.to_string()),
        ty: ty(ParamType::Str),
        attrs: vec![
            ArgAttribute { path: "doc".to_string(), rename: None },
            ArgAttribute { path: "argument".to_string(), rename: Some(rename.to_string()) },
            ArgAttribute { path: "argument".to_string(), rename: Some("ignored".to_string()) },
        ],
    })
}

fn method_attr(name: Option<&str>, aliases: &[&str]) -> MethodAttr {
    MethodAttr {
        aliases: aliases.iter().map(|a| a.to_string()).collect(),
        blocking: false,
        name: name.map(|n| n.to_string()),
        param_kind: ParamKind::Positional,
        with_extensions: false,
    }
}

fn sub_attr(name: &str, unsubscribe: Option<&str>) -> SubscriptionAttr {
    SubscriptionAttr {
        aliases: vec![],
        item: ty(ParamType::Str),
        name: name.to_string(),
        notif_name: None,
        param_kind: ParamKind::Positional,
        unsubscribe: unsubscribe.map(|u| u.to_string()),
        unsubscribe_aliases: vec![],
        with_extensions: false,
    }
}

fn function(ident: &str, is_async: bool, attrs: Vec<Attribute>, args: Vec<FnArg>, output: Output) -> TraitItemFn {
    let mut inputs = vec![FnArg::Receiver];
    inputs.extend(args);
    TraitItemFn { attrs, sig: Signature { ident: ident.to_string(), is_async, returns_future: false, inputs, output } }
}

fn say_trait() -> ItemTrait {
    ItemTrait {
        ident: "Say".to_string(),
        items: vec![
            TraitItem::Fn(function(
                "say_hello",
                true,
                vec![Attribute::Method(method_attr(Some("hello"), &["say_hello_alias"]))],
                vec![arg("param_0", ParamType::Bool)],
                Output::Fallible(ty(ParamType::Str)),
            )),
            TraitItem::Fn(function(
                "say_goodbye",
                false,
                vec![Attribute::Method(method_attr(Some("goodbye"), &[]))],
                vec![arg("name", ParamType::Str)],
                Output::Fallible(ty(ParamType::Str)),
            )),
        ],
    }
}

fn server_attr(namespace: Option<&str>) -> RpcAttr {
    RpcAttr {
        client: false,
        server: true,
        namespace: namespace.map(|n| n.to_string()),
        namespace_separator: None,
        client_bounds: false,
        server_bounds: false,
    }
}

#[test]
fn test_macro_expansion() {
    let item = ItemTrait {
        ident: "TestRpc".to_string(),
        items: vec![TraitItem::Fn(function(
            "hello",
            true,
            vec![Attribute::Method(method_attr(Some("hello"), &[]))],
            vec![],
            Output::Fallible(ty(ParamType::Str)),
        ))],
    };
    let description = RpcDescription::from_item(server_attr(Some("test")), item).unwrap();
    assert_eq!(description.methods.len(), 1);
    assert_eq!(to_variant_name(&description.methods[0].name), "Hello");
    assert!(description.methods[0].params.is_empty());
    let rendered = description.render().unwrap();
    let table = rendered.server.unwrap();
    assert_eq!(table.resolve(&"test_hello".to_string()), Some(0));
    assert!(rendered.client.is_none());
}

#[test]
fn description_of_the_say_trait() {
    let description = RpcDescription::from_item(server_attr(Some("say")), say_trait()).unwrap();
    assert!(description.needs_server);
    assert!(!description.needs_client);
    assert_eq!(description.namespace, Some("say".to_string()));
    assert_eq!(description.methods.len(), 2);
    assert!(description.subscriptions.is_empty());
    let hello = &description.methods[0];
    assert_eq!(hello.name, "hello");
    assert_eq!(hello.aliases, vec!["say_hello_alias".to_string()]);
    assert_eq!(hello.param_kind, ParamKind::Positional);
    assert_eq!(hello.params.len(), 1);
    assert_eq!(hello.params[0].name(), "param_0");
    assert_eq!(hello.params[0].ty, ty(ParamType::Bool));
    assert!(hello.signature.attrs.is_empty());
    assert!(hello.signature.sig.is_async);
    assert_eq!(hello.signature.sig.ident, "say_hello");
    assert_eq!(description.rpc_identifier("hello"), "say_hello");
    // The kept trait has no RPC attributes and no `async` methods.
    for (item, was_async) in description.trait_def.items.iter().zip([true, false]) {
        match item {
            TraitItem::Fn(method) => {
                assert!(method.attrs.is_empty());
                assert!(!method.sig.is_async);
                assert_eq!(method.sig.returns_future, was_async);
            }
            TraitItem::Other => panic!("expected a method"),
        }
    }
}

#[test]
fn rendered_server_routes_have_full_names_and_aliases() {
    let description = RpcDescription::from_item(server_attr(Some("say")), say_trait()).unwrap();
    let table = description.render_server().unwrap();
    assert_eq!(table.len(), 2);
    assert_eq!(
        *table.route(0),
        Route {
            names: vec!["say_hello".to_string(), "say_hello_alias".to_string()],
            param_kind: ParamKind::Positional,
            params: vec![ParamSpec { name: "param_0".to_string(), ty: ParamType::Bool, required: true }],
            is_async: true,
            subscription: None,
        }
    );
    assert_eq!(table.route(1).names, vec!["say_goodbye".to_string()]);
    assert!(!table.route(1).is_async);
}

#[test]
fn namespace_and_separator_make_the_full_name() {
    let mut attr = server_attr(Some("foo"));
    attr.namespace_separator = Some(".".to_string());
    let description = RpcDescription::from_item(attr, say_trait()).unwrap();
    assert_eq!(description.rpc_identifier("makeSpam"), "foo.makeSpam");
    let description = RpcDescription::from_item(server_attr(Some("foo")), say_trait()).unwrap();
    assert_eq!(description.rpc_identifier("makeSpam"), "foo_makeSpam");
    let description = RpcDescription::from_item(server_attr(None), say_trait()).unwrap();
    assert_eq!(description.rpc_identifier("makeSpam"), "makeSpam");
    let mut attr = server_attr(None);
    attr.namespace_separator = Some("-".to_string());
    let description = RpcDescription::from_item(attr, say_trait()).unwrap();
    assert_eq!(description.rpc_identifier("makeSpam"), "makeSpam");
}

#[test]
fn method_name_defaults_to_camel_case_of_the_identifier() {
    let decl = function("get_block_by_hash", false, vec![], vec![arg("hash", ParamType::Str)], Output::Unit);
    let method = RpcMethod::from_item(None, &decl).unwrap();
    assert_eq!(method.name, "getBlockByHash");
    assert!(method.aliases.is_empty());
    assert_eq!(method.param_kind, ParamKind::Positional);
    let attr = method_attr(None, &["a", "b"]);
    let method = RpcMethod::from_item(Some(&attr), &decl).unwrap();
    assert_eq!(method.name, "getBlockByHash");
    assert_eq!(method.aliases, vec!["a".to_string(), "b".to_string()]);
    let mut attr = method_attr(Some("explicit_name"), &[]);
    attr.param_kind = ParamKind::Named;
    let method = RpcMethod::from_item(Some(&attr), &decl).unwrap();
    assert_eq!(method.name, "explicit_name");
    assert_eq!(method.param_kind, ParamKind::Named);
}

#[test]
fn method_errors() {
    let mut blocking = method_attr(None, &[]);
    blocking.blocking = true;
    let async_decl = function("f", true, vec![], vec![], Output::Unit);
    assert_eq!(RpcMethod::from_item(Some(&blocking), &async_decl), Err(DescribeError::BlockingAsync));
    let sync_decl = function("f", false, vec![], vec![], Output::Unit);
    assert!(RpcMethod::from_item(Some(&blocking), &sync_decl).is_ok());
    let wild = FnArg::Typed(TypedArg { pattern: ArgPattern::Wild, ty: ty(ParamType::Any), attrs: vec![] });
    let other = FnArg::Typed(TypedArg { pattern: ArgPattern::Other, ty: ty(ParamType::Any), attrs: vec![] });
    let decl = function("f", false, vec![], vec![arg("a", ParamType::Any), wild, other], Output::Unit);
    assert_eq!(RpcMethod::from_item(None, &decl), Err(DescribeError::WildArgument(2)));
    let other = FnArg::Typed(TypedArg { pattern: ArgPattern::Other, ty: ty(ParamType::Any), attrs: vec![] });
    let decl = function("f", true, vec![], vec![other], Output::Unit);
    assert_eq!(RpcMethod::from_item(None, &decl), Err(DescribeError::UnexpectedArgument(1)));
    assert_eq!(RpcMethod::from_item(Some(&blocking), &decl), Err(DescribeError::BlockingAsync));
}

#[test]
fn arguments_are_renamed_by_their_first_argument_attribute() {
    let decl = function("f", false, vec![], vec![renamed_arg("local_name", "wireName"), arg("plain", ParamType::Str)], Output::Unit);
    let method = RpcMethod::from_item(None, &decl).unwrap();
    assert_eq!(method.params[0].arg_pat, "local_name");
    assert_eq!(method.params[0].rename_to, Some("wireName".to_string()));
    assert_eq!(method.params[0].name(), "wireName");
    assert_eq!(method.params[1].name(), "plain");
    match &method.signature.sig.inputs[1] {
        FnArg::Typed(kept) => assert_eq!(kept.attrs, vec![ArgAttribute { path: "doc".to_string(), rename: None }]),
        FnArg::Receiver => panic!("expected an argument"),
    }
    assert_eq!(method.signature.sig.inputs[0], FnArg::Receiver);

    let mut attrs = vec![
        ArgAttribute { path: "a".to_string(), rename: None },
        ArgAttribute { path: "argument".to_string(), rename: None },
        ArgAttribute { path: "b".to_string(), rename: Some("x".to_string()) },
    ];
    assert_eq!(find_attr(&attrs), Some(1));
    assert_eq!(without_argument_attrs(&attrs).len(), 2);
    let read = RpcFnArg::from_arg_attrs("id".to_string(), ty(ParamType::Unsigned), &mut attrs).unwrap();
    assert_eq!(read.name(), "id");
    assert_eq!(read.rename_to, None);
    assert_eq!(attrs.len(), 2);
    assert_eq!(attrs[1].path, "b");
    assert_eq!(find_attr(&attrs), None);
    let (params, inputs) = read_inputs(&decl.sig.inputs, true).unwrap();
    assert_eq!(params.len(), 2);
    assert_eq!(inputs.len(), 3);
}

#[test]
fn subscription_descriptor_and_its_unsubscribe_name() {
    let decl = function("sub_news", true, vec![], vec![arg("topic", ParamType::Str)], Output::Unit);
    let sub = RpcSubscription::from_item(&sub_attr("subscribeNews", None), &decl).unwrap();
    assert_eq!(sub.name, "subscribeNews");
    assert_eq!(sub.unsubscribe, "unsubscribeNews");
    assert_eq!(sub.notif_name, "subscribeNews");
    assert_eq!(sub.item, ty(ParamType::Str));
    assert_eq!(sub.params.len(), 1);
    let sub = RpcSubscription::from_item(&sub_attr("news", Some("stopNews")), &decl).unwrap();
    assert_eq!(sub.unsubscribe, "stopNews");
    let mut mapped = sub_attr("subscribeNews", None);
    mapped.notif_name = Some("newsItem".to_string());
    assert_eq!(RpcSubscription::from_item(&mapped, &decl).unwrap().notif_name, "newsItem");
    assert_eq!(RpcSubscription::from_item(&sub_attr("news", None), &decl), Err(DescribeError::NoUnsubscribe));
    let wild = FnArg::Typed(TypedArg { pattern: ArgPattern::Wild, ty: ty(ParamType::Any), attrs: vec![] });
    let bad = function("s", false, vec![], vec![wild], Output::Unit);
    assert_eq!(RpcSubscription::from_item(&sub_attr("subscribeNews", None), &bad), Err(DescribeError::UnexpectedArgument(1)));
    assert_eq!(RpcSubscription::from_item(&sub_attr("news", None), &bad), Err(DescribeError::NoUnsubscribe));
}

#[test]
fn description_errors() {
    let mut attr = server_attr(None);
    attr.server = false;
    assert_eq!(RpcDescription::from_item(attr, say_trait()), Err(DescribeError::NoSide));
    let mut attr = server_attr(None);
    attr.client_bounds = true;
    assert_eq!(RpcDescription::from_item(attr, say_trait()), Err(DescribeError::ClientBoundsWithoutClient));
    let mut attr = server_attr(None);
    attr.server = false;
    attr.client = true;
    attr.server_bounds = true;
    assert_eq!(RpcDescription::from_item(attr, say_trait()), Err(DescribeError::ServerBoundsWithoutServer));
    let empty = ItemTrait { ident: "E".to_string(), items: vec![] };
    assert_eq!(RpcDescription::from_item(server_attr(None), empty), Err(DescribeError::Empty));
    let mut item = say_trait();
    item.items.push(TraitItem::Other);
    assert_eq!(RpcDescription::from_item(server_attr(None), item), Err(DescribeError::NotAMethod(2)));
    let mut no_receiver = function("f", false, vec![], vec![], Output::Unit);
    no_receiver.sig.inputs.clear();
    let item = ItemTrait { ident: "T".to_string(), items: vec![TraitItem::Fn(no_receiver)] };
    assert_eq!(RpcDescription::from_item(server_attr(None), item), Err(DescribeError::MissingReceiver(0)));
    let both = function(
        "f",
        false,
        vec![Attribute::Method(method_attr(None, &[])), Attribute::Subscription(sub_attr("subscribeF", None))],
        vec![],
        Output::Unit,
    );
    let mut item = say_trait();
    item.items.push(TraitItem::Fn(both));
    assert_eq!(RpcDescription::from_item(server_attr(None), item), Err(DescribeError::MethodAndSubscription(2)));
    let mut blocking = method_attr(None, &[]);
    blocking.blocking = true;
    let item = ItemTrait {
        ident: "T".to_string(),
        items: vec![TraitItem::Fn(function("f", true, vec![Attribute::Method(blocking)], vec![], Output::Unit))],
    };
    assert_eq!(RpcDescription::from_item(server_attr(None), item), Err(DescribeError::BlockingAsync));
}

#[test]
fn methods_and_subscriptions_keep_their_order() {
    let item = ItemTrait {
        ident: "Mixed".to_string(),
        items: vec![
            TraitItem::Fn(function("first", false, vec![Attribute::Other("doc".to_string())], vec![], Output::Unit)),
            TraitItem::Fn(function("watch", false, vec![Attribute::Subscription(sub_attr("subscribeA", None))], vec![], Output::Unit)),
            TraitItem::Fn(function("second", true, vec![Attribute::Method(method_attr(None, &[]))], vec![renamed_arg("x", "y")], Output::Plain(ty(ParamType::Bool)))),
            TraitItem::Fn(function("watch_b", false, vec![Attribute::Subscription(sub_attr("b", Some("stopB")))], vec![], Output::Unit)),
        ],
    };
    let mut attr = server_attr(Some("ns"));
    attr.client = true;
    let description = RpcDescription::from_item(attr, item).unwrap();
    let names: Vec<&str> = description.methods.iter().map(|m| m.name.as_str()).collect();
    assert_eq!(names, vec!["first", "second"]);
    let names: Vec<&str> = description.subscriptions.iter().map(|s| s.name.as_str()).collect();
    assert_eq!(names, vec!["subscribeA", "b"]);
    match &description.trait_def.items[0] {
        TraitItem::Fn(method) => assert_eq!(method.attrs, vec![Attribute::Other("doc".to_string())]),
        TraitItem::Other => panic!("expected a method"),
    }
    match &description.trait_def.items[2] {
        TraitItem::Fn(method) => match &method.sig.inputs[1] {
            FnArg::Typed(kept) => assert_eq!(kept.attrs.len(), 1),
            FnArg::Receiver => panic!("expected an argument"),
        },
        TraitItem::Other => panic!("expected a method"),
    }
    let Rendered { server, client, .. } = description.render().unwrap();
    let table = server.unwrap();
    assert_eq!(table.len(), 4);
    assert_eq!(table.route(0).names, vec!["ns_first".to_string()]);
    assert_eq!(table.route(1).names, vec!["ns_second".to_string()]);
    assert_eq!(table.route(1).params[0].name, "y");
    assert_eq!(
        table.route(2).subscription,
        Some(SubscriptionInfo { unsubscribe: "ns_unsubscribeA".to_string(), item: ParamType::Str })
    );
    assert_eq!(table.route(3).names, vec!["ns_b".to_string()]);
    assert_eq!(
        client.unwrap(),
        ClientTable {
            methods: vec![
                ClientMethod {
                    ident: "first".to_string(),
                    name: "ns_first".to_string(),
                    param_kind: ParamKind::Positional,
                    params: vec![],
                    result: ty(ParamType::Null),
                },
                ClientMethod {
                    ident: "second".to_string(),
                    name: "ns_second".to_string(),
                    param_kind: ParamKind::Positional,
                    params: vec!["y".to_string()],
                    result: ty(ParamType::Bool),
                },
            ],
            subscriptions: vec![
                ClientSubscription {
                    ident: "watch".to_string(),
                    subscribe: "ns_subscribeA".to_string(),
                    unsubscribe: "ns_unsubscribeA".to_string(),
                    param_kind: ParamKind::Positional,
                    params: vec![],
                    item: ty(ParamType::Str),
                },
                ClientSubscription {
                    ident: "watch_b".to_string(),
                    subscribe: "ns_b".to_string(),
                    unsubscribe: "ns_stopB".to_string(),
                    param_kind: ParamKind::Positional,
                    params: vec![],
                    item: ty(ParamType::Str),
                },
            ],
        }
    );
}

#[test]
fn a_name_that_stands_twice_is_a_render_error() {
    let item = ItemTrait {
        ident: "Twice".to_string(),
        items: vec![
            TraitItem::Fn(function("a", false, vec![Attribute::Method(method_attr(Some("same"), &[]))], vec![], Output::Unit)),
            TraitItem::Fn(function("b", false, vec![Attribute::Method(method_attr(Some("other"), &["x", "same"]))], vec![], Output::Unit)),
        ],
    };
    let description = RpcDescription::from_item(server_attr(None), item).unwrap();
    assert_eq!(description.render_server(), Err(RenderError { route: 1, name: 2 }));
    assert_eq!(description.render().unwrap_err(), RenderError { route: 1, name: 2 });
}

#[test]
fn attributes_are_found_and_stripped() {
    let attrs = vec![
        Attribute::Other("doc".to_string()),
        Attribute::Subscription(sub_attr("s", None)),
        Attribute::Method(method_attr(None, &[])),
    ];
    assert_eq!(find_method_attr(&attrs), Some(2));
    assert_eq!(find_subscription_attr(&attrs), Some(1));
    assert_eq!(find_method_attr(&vec![]), None);
    let mut item = ItemTrait {
        ident: "T".to_string(),
        items: vec![TraitItem::Fn(function("f", true, attrs, vec![renamed_arg("a", "b")], Output::Unit)), TraitItem::Other],
    };
    strip_rpc_attrs(&mut item);
    match &item.items[0] {
        TraitItem::Fn(method) => {
            assert_eq!(method.attrs, vec![Attribute::Other("doc".to_string())]);
            assert!(method.sig.is_async);
            assert!(!method.sig.returns_future);
        }
        TraitItem::Other => panic!("expected a method"),
    }
    rewrite_async_methods(&mut item);
    match &item.items[0] {
        TraitItem::Fn(method) => {
            assert!(!method.sig.is_async);
            assert!(method.sig.returns_future);
            assert_eq!(method.sig.output, Output::Unit);
        }
        TraitItem::Other => panic!("expected a method"),
    }
    assert_eq!(item.items[1], TraitItem::Other);
}

#[test]
fn ok_type_is_the_success_type() {
    assert_eq!(ok_type(&Output::Unit), ty(ParamType::Null));
    assert_eq!(ok_type(&Output::Plain(ty(ParamType::Str))), ty(ParamType::Str));
    assert_eq!(ok_type(&Output::Fallible(TypeDecl { kind: ParamType::Bool, optional: true })), TypeDecl { kind: ParamType::Bool, optional: true });
}
