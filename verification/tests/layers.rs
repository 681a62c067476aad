use tower_json_rpc::client::{
    build_params, check_fits, ClientMethod, ClientSubscription, ClientTable, JsonRpcClientLayer,
};
use tower_json_rpc::describe::{
    ArgPattern, Attribute, FnArg, ItemTrait, MethodAttr, Output, RpcAttr, RpcDescription,
    Signature, TraitItem, TraitItemFn, TypeDecl, TypedArg,
};
use tower_json_rpc::error::JsonRpcError;
use tower_json_rpc::json::{Json, JsonNumber};
use tower_json_rpc::message::{
    decimal, ErrorObject, Id, JsonRpcRequest, JsonRpcResponse, Params, ResponsePayload,
};
use tower_json_rpc::middleware::{choose_by_prefix, GuardStep, MethodGuard};
use tower_json_rpc::router::{ParamKind, ParamType, RouteTable};
use tower_json_rpc::server::{
    Handler, JsonRpcLayer, JsonRpcService, RouterStep, ServerLayer, ServerStep,
};
use tower_json_rpc::wire::{decode_request, request_to_json, HttpReply};

fn ty(kind: ParamType) -> TypeDecl {
    TypeDecl { kind, optional: false }
}

fn say_method(ident: &str, name: &str, aliases: &[&str], is_async: bool, param: &str, kind: ParamType) -> TraitItem {
    TraitItem::Fn(TraitItemFn {
        attrs: vec![Attribute::Method(MethodAttr {
            aliases: aliases.iter().map(|a| a.to_string()).collect(),
            blocking: false,
            name: Some(name.to_string()),
            param_kind: ParamKind::Positional,
            with_extensions: false,
        })],
        sig: Signature {
            ident: ident.to_string(),
            is_async,
            returns_future: false,
            inputs: vec![
                FnArg::Receiver,
                FnArg::Typed(TypedArg { pattern: ArgPattern::Ident(param.to_string()), ty: ty(kind), attrs: vec![] }),
            ],
            output: Output::Fallible(ty(ParamType::Str)),
        },
    })
}

/// The interface `Say` in the namespace `say`: `hello`, also known as
/// `say_hello_alias`, takes a boolean; `goodbye` takes a name.
fn say(server: bool, client: bool) -> RpcDescription {
    let item = ItemTrait {
        ident: "Say".to_string(),
        items: vec![
            say_method("say_hello", "hello", &["say_hello_alias"], true, "param_0", ParamType::Bool),
            say_method("say_goodbye", "goodbye", &[], false, "name", ParamType::Str),
        ],
    };
    let attr = RpcAttr {
        client,
        server,
        namespace: Some("say".to_string()),
        namespace_separator: None,
        client_bounds: false,
        server_bounds: false,
    };
    RpcDescription::from_item(attr, item).unwrap()
}

fn say_table() -> RouteTable {
    say(true, false).render_server().unwrap()
}

struct SayImpl;

impl Handler for SayImpl {
    fn invoke(&self, route: usize, args: Vec<Json>) -> Result<Json, ErrorObject> {
        match (route, &args[0]) {
            (0, Json::Bool(true)) => Ok(Json::Str("Hello!".to_string())),
            (0, Json::Bool(false)) => Ok(Json::Str("Hi!".to_string())),
            (1, Json::Str(name)) => Ok(Json::Str(format!("Goodbye, {}!", name))),
            _ => Err(ErrorObject { code: -32603, message: "Internal error".to_string(), data: None }),
        }
    }
}

fn request(id: u64, method: &str, params: Params) -> JsonRpcRequest {
    JsonRpcRequest { id: Id::Number(id), method: method.to_string(), params }
}

fn inner_service(_request: JsonRpcRequest) -> Result<JsonRpcResponse, JsonRpcError> {
    Ok(JsonRpcResponse { id: Id::Number(0), payload: ResponsePayload::Success(Json::Str("inner".to_string())) })
}

/// Drives one exchange through a router service, as a transport would.
fn drive(table: RouteTable, request: JsonRpcRequest) -> Result<JsonRpcResponse, JsonRpcError> {
    let layer = ServerLayer::new(table);
    let service = layer.layer(());
    let mut step = service.accept(Ok(request));
    loop {
        step = match step {
            RouterStep::CallInner(passed) => service.forwarded(inner_service(passed)),
            RouterStep::CallHandler { route, id, args } => service.handled(id, SayImpl.invoke(route, args)),
            RouterStep::Reply(response) => return Ok(response),
            RouterStep::Fail(error) => return Err(error),
        };
    }
}

#[test]
fn test_enum_generation() {
    let client = say(true, true).render_client();
    let hello = &client.methods[0];
    let json_request = hello.request(vec![Json::Bool(true)]).unwrap();
    assert_eq!(json_request, request(0, "say_hello", Params::Positional(vec![Json::Bool(true)])));
}

#[test]
fn test_try_from_request() {
    let table = say_table();
    let parsed = table.route(0).extract(Params::Positional(vec![Json::Bool(true)]));
    assert!(parsed.is_ok());
    assert_eq!(table.resolve(&"say_hello".to_string()), Some(0));
    match parsed.unwrap().as_slice() {
        [Json::Bool(param_0)] => {
            assert_eq!(*param_0, true);
        }
        _ => panic!("Wrong variant"),
    }

    let alias_request = request(2, "say_hello_alias", Params::Positional(vec![Json::Bool(true)]));
    assert_eq!(table.resolve(&alias_request.method), Some(0));
    let parsed_alias = table.route(0).extract(alias_request.params);
    assert!(parsed_alias.is_ok());
}

#[test]
fn test_service_layer() {
    let response = drive(say_table(), request(1, "say_hello", Params::Positional(vec![Json::Bool(true)]))).unwrap();
    assert!(matches!(response.payload, ResponsePayload::Success(_)));
    assert_eq!(response, JsonRpcResponse { id: Id::Number(1), payload: ResponsePayload::Success(Json::Str("Hello!".to_string())) });
}

#[test]
fn test_service_layer_fallback() {
    let response = drive(say_table(), request(2, "say_unknown", Params::Absent)).unwrap();
    let payload = tower_json_rpc::wire::response_to_json(response);
    match payload {
        Json::Object(members) => {
            let result = members.iter().find(|(key, _)| key == "result").map(|(_, value)| value);
            assert_eq!(result, Some(&Json::Str("inner".to_string())));
        }
        _ => panic!("expected an object"),
    }
}

#[test]
fn router_layer_fails_where_decoding_failed_or_the_inner_service_failed() {
    let layer = ServerLayer::new(say_table());
    let service = layer.layer(());
    match service.accept(Err(JsonRpcError::RequestProcessing("x".to_string()))) {
        RouterStep::Fail(JsonRpcError::RequestProcessing(text)) => assert_eq!(text, "x"),
        other => panic!("expected a failure, got {:?}", other),
    }
    match service.forwarded(Err(JsonRpcError::RequestProcessing("y".to_string()))) {
        RouterStep::Fail(JsonRpcError::RequestProcessing(text)) => assert_eq!(text, "y"),
        other => panic!("expected a failure, got {:?}", other),
    }
    match service.accept(Ok(request(1, "say_goodbye", Params::Positional(vec![])))) {
        RouterStep::Reply(response) => assert!(!response.is_success()),
        other => panic!("expected a reply, got {:?}", other),
    }
    let response = drive(say_table(), request(5, "say_goodbye", Params::Positional(vec![Json::Str("Ada".to_string())]))).unwrap();
    assert_eq!(response.payload, ResponsePayload::Success(Json::Str("Goodbye, Ada!".to_string())));
}

#[test]
fn http_to_jsonrpc_roundtrip() {
    let svc: JsonRpcService<()> = JsonRpcLayer.layer(());
    let params = serde_json::value::to_raw_value(&vec![serde_json::Value::Bool(true)]).unwrap();
    let json_request: jsonrpsee_types::Request<'static> =
        jsonrpsee_types::Request::owned("say_hello".to_string(), Some(params), jsonrpsee_types::Id::Number(1));
    let body = serde_json::to_vec(&json_request).unwrap();

    let outcome = match svc.accept_http(Some("application/json"), &body) {
        ServerStep::Call(req) => {
            let id = req.id.clone();
            let method = req.method.clone();
            Ok(JsonRpcResponse {
                id,
                payload: ResponsePayload::Success(Json::Object(vec![("method".to_string(), Json::Str(method))])),
            })
        }
        ServerStep::Fail(error) => Err(error),
    };
    let http_response: HttpReply = svc.answer_http(outcome).unwrap();
    assert_eq!(http_response.status, 200);
    assert_eq!(http_response.content_type, "application/json");

    let response: jsonrpsee_types::Response<'_, serde_json::Value> =
        serde_json::from_slice(&http_response.body).unwrap();
    assert!(matches!(response.payload, jsonrpsee_types::ResponsePayload::Success(_)));
    assert_eq!(response.id, jsonrpsee_types::Id::Number(1));
    assert_eq!(http_response.body, br#"{"id":1,"result":{"method":"say_hello"}}"#.to_vec());
}

#[test]
fn bridge_ends_the_exchange_on_errors() {
    let svc = JsonRpcLayer.layer(7u8);
    assert_eq!(svc.inner, 7);
    match svc.accept_http(Some("text/html"), b"{}") {
        ServerStep::Fail(JsonRpcError::RequestDeserialization(text)) => assert_eq!(text, "unsupported content type: text/html"),
        other => panic!("expected a failure, got {:?}", other),
    }
    match svc.accept_http(None, b"nonsense") {
        ServerStep::Fail(JsonRpcError::SerdeJson(_)) => {}
        other => panic!("expected a failure, got {:?}", other),
    }
    match svc.accept(Ok(request(1, "m", Params::Absent))) {
        ServerStep::Call(passed) => assert_eq!(passed, request(1, "m", Params::Absent)),
        other => panic!("expected a call, got {:?}", other),
    }
    match svc.answer_http(Err(JsonRpcError::RequestProcessing("inner failed".to_string()))) {
        Err(JsonRpcError::RequestProcessing(text)) => assert_eq!(text, "inner failed"),
        other => panic!("expected a failure, got {:?}", other),
    }
}

#[test]
fn client_layer_roundtrip() {
    let service = JsonRpcClientLayer::<Vec<u8>>::new().layer(());
    let request = request(7, "ping", Params::Absent);
    let call = service.call_http(request).unwrap();
    assert_eq!(call.method, "POST");

    // The service at the other end answers with the name of the method.
    let received = decode_request(&call.body).unwrap();
    let id = received.id.clone();
    let method = received.method.clone();
    let answer = tower_json_rpc::wire::encode_response(JsonRpcResponse {
        id,
        payload: ResponsePayload::Success(Json::Object(vec![("method".to_string(), Json::Str(method))])),
    })
    .unwrap();

    let response = service.answered_http(Ok(&answer)).unwrap();
    assert!(matches!(response.payload, ResponsePayload::Success(_)));
    assert_eq!(response.id, Id::Number(7));
    match service.answered_http(Err(JsonRpcError::RequestProcessing("down".to_string()))) {
        Err(JsonRpcError::RequestProcessing(text)) => assert_eq!(text, "down"),
        other => panic!("expected a failure, got {:?}", other),
    }
}

#[test]
fn client_requests_follow_the_parameter_kind() {
    let named = ClientMethod {
        ident: "mv".to_string(),
        name: "fs_move".to_string(),
        param_kind: ParamKind::Named,
        params: vec!["from".to_string(), "to".to_string()],
        result: ty(ParamType::Bool),
    };
    let built = named.request_with_id(Id::Str("q".to_string()), vec![Json::Str("a".to_string()), Json::Str("b".to_string())]).unwrap();
    assert_eq!(
        built,
        JsonRpcRequest {
            id: Id::Str("q".to_string()),
            method: "fs_move".to_string(),
            params: Params::Named(vec![
                ("from".to_string(), Json::Str("a".to_string())),
                ("to".to_string(), Json::Str("b".to_string())),
            ]),
        }
    );
    match named.request(vec![Json::Null]) {
        Err(JsonRpcError::IntoRpcRequest(text)) => assert_eq!(text, "expected 2 arguments, got 1"),
        other => panic!("expected an error, got {:?}", other),
    }
    assert_eq!(build_params(ParamKind::Named, &vec![], vec![]).unwrap(), Params::Absent);
    assert_eq!(build_params(ParamKind::Positional, &vec![], vec![]).unwrap(), Params::Absent);
    assert_eq!(
        build_params(ParamKind::Positional, &vec!["a".to_string()], vec![Json::Bool(false)]).unwrap(),
        Params::Positional(vec![Json::Bool(false)])
    );
    assert_eq!(request_to_json(named.request(vec![Json::Null, Json::Null]).unwrap()), Json::Object(vec![
        ("id".to_string(), Json::Number(JsonNumber::PosInt(0))),
        ("method".to_string(), Json::Str("fs_move".to_string())),
        ("params".to_string(), Json::Object(vec![("from".to_string(), Json::Null), ("to".to_string(), Json::Null)])),
    ]));
}

#[test]
fn a_call_built_by_the_client_is_invoked_by_the_router() {
    let description = say(true, true);
    let table = description.render_server().unwrap();
    let client = description.render_client();
    let built = client.methods[1].request_with_id(Id::Number(4), vec![Json::Str("Ada".to_string())]).unwrap();
    let response = drive(table, built).unwrap();
    assert_eq!(client.methods[1].result(response).unwrap(), Json::Str("Goodbye, Ada!".to_string()));
}

#[test]
fn client_reads_results_and_errors() {
    let method = ClientMethod {
        ident: "f".to_string(),
        name: "f".to_string(),
        param_kind: ParamKind::Positional,
        params: vec![],
        result: TypeDecl { kind: ParamType::Str, optional: true },
    };
    let success = |value: Json| JsonRpcResponse { id: Id::Number(0), payload: ResponsePayload::Success(value) };
    assert_eq!(method.result(success(Json::Str("ok".to_string()))).unwrap(), Json::Str("ok".to_string()));
    assert_eq!(method.result(success(Json::Null)).unwrap(), Json::Null);
    match method.result(success(Json::Bool(true))) {
        Err(JsonRpcError::RequestProcessing(text)) => assert_eq!(text, "Failed to deserialize response into any known variant"),
        other => panic!("expected an error, got {:?}", other),
    }
    let failure = JsonRpcResponse {
        id: Id::Number(0),
        payload: ResponsePayload::Error(ErrorObject { code: -32000, message: "server said no".to_string(), data: None }),
    };
    match method.result(failure) {
        Err(JsonRpcError::RequestProcessing(text)) => assert_eq!(text, "server said no"),
        other => panic!("expected an error, got {:?}", other),
    }
    assert!(check_fits(ty(ParamType::Any), &Json::Null));
    assert!(!check_fits(ty(ParamType::Bool), &Json::Null));
}

#[test]
fn first_fitting_result_type_wins() {
    let method = |name: &str, kind: ParamType| ClientMethod {
        ident: name.to_string(),
        name: name.to_string(),
        param_kind: ParamKind::Positional,
        params: vec![],
        result: ty(kind),
    };
    let table = ClientTable {
        methods: vec![method("count", ParamType::Unsigned), method("name", ParamType::Str), method("title", ParamType::Str)],
        subscriptions: vec![],
    };
    let success = |value: Json| JsonRpcResponse { id: Id::Number(0), payload: ResponsePayload::Success(value) };
    assert_eq!(table.match_response(success(Json::Number(JsonNumber::PosInt(3)))).unwrap(), (0, Json::Number(JsonNumber::PosInt(3))));
    // `name` and `title` share a result type: the earlier one is found.
    assert_eq!(table.match_response(success(Json::Str("x".to_string()))).unwrap(), (1, Json::Str("x".to_string())));
    match table.match_response(success(Json::Bool(true))) {
        Err(JsonRpcError::RequestProcessing(text)) => assert_eq!(text, "Failed to deserialize response into any known variant"),
        other => panic!("expected an error, got {:?}", other),
    }
    let failure = JsonRpcResponse {
        id: Id::Null,
        payload: ResponsePayload::Error(ErrorObject { code: 1, message: "boom".to_string(), data: None }),
    };
    match table.match_response(failure) {
        Err(JsonRpcError::RequestProcessing(text)) => assert_eq!(text, "boom"),
        other => panic!("expected an error, got {:?}", other),
    }
}

#[test]
fn subscription_call_carries_both_method_names() {
    let sub = ClientSubscription {
        ident: "watch".to_string(),
        subscribe: "ns_subscribeA".to_string(),
        unsubscribe: "ns_unsubscribeA".to_string(),
        param_kind: ParamKind::Positional,
        params: vec!["topic".to_string()],
        item: ty(ParamType::Str),
    };
    let call = sub.call(vec![Json::Str("t".to_string())]).unwrap();
    assert_eq!(call.subscribe, "ns_subscribeA");
    assert_eq!(call.unsubscribe, "ns_unsubscribeA");
    assert_eq!(call.params, Params::Positional(vec![Json::Str("t".to_string())]));
    assert!(sub.call(vec![]).is_err());
}

#[test]
fn decimal_numerals() {
    assert_eq!(decimal(0), "0");
    assert_eq!(decimal(9), "9");
    assert_eq!(decimal(10), "10");
    assert_eq!(decimal(1234567890), "1234567890");
    assert_eq!(decimal(usize::MAX), usize::MAX.to_string());
}

#[test]
fn guard_denies_only_calls_of_its_route() {
    let table = say_table();
    let guard = MethodGuard { denied: 0 };
    match guard.check(&table, request(1, "say_hello", Params::Positional(vec![Json::Bool(true)]))) {
        GuardStep::Deny(response) => {
            assert_eq!(
                response,
                JsonRpcResponse {
                    id: Id::Number(1),
                    payload: ResponsePayload::Error(ErrorObject {
                        code: -32600,
                        message: "Invalid request".to_string(),
                        data: Some(Json::Str("say_hello is disabled".to_string())),
                    }),
                }
            );
        }
        other => panic!("expected a denial, got {:?}", other),
    }
    match guard.check(&table, request(1, "say_hello_alias", Params::Positional(vec![Json::Bool(true)]))) {
        GuardStep::Deny(_) => {}
        other => panic!("expected a denial, got {:?}", other),
    }
    // A call that does not fit the route is no call of it: it passes, and the router answers it.
    let unfit = request(2, "say_hello", Params::Positional(vec![]));
    assert_eq!(guard.check(&table, unfit), GuardStep::Pass(request(2, "say_hello", Params::Positional(vec![]))));
    let other = request(3, "say_goodbye", Params::Positional(vec![Json::Str("x".to_string())]));
    assert_eq!(
        guard.check(&table, other),
        GuardStep::Pass(request(3, "say_goodbye", Params::Positional(vec![Json::Str("x".to_string())])))
    );
    assert_eq!(guard.check(&table, request(4, "nope", Params::Absent)), GuardStep::Pass(request(4, "nope", Params::Absent)));
}

#[test]
fn route_takes_what_extraction_accepts() {
    let table = say_table();
    let route = table.route(1);
    for params in [
        Params::Absent,
        Params::Positional(vec![]),
        Params::Positional(vec![Json::Str("a".to_string())]),
        Params::Positional(vec![Json::Bool(true)]),
        Params::Named(vec![("name".to_string(), Json::Str("a".to_string()))]),
    ] {
        let copy = match &params {
            Params::Absent => Params::Absent,
            Params::Positional(items) => Params::Positional(items.clone()),
            Params::Named(members) => Params::Named(members.clone()),
        };
        assert_eq!(route.takes(&params), route.extract(copy).is_ok());
    }
}

#[test]
fn routers_are_chosen_by_prefix() {
    let prefixes = vec!["say_".to_string(), "admin_".to_string(), "say_hello".to_string(), "".to_string()];
    assert_eq!(choose_by_prefix(&prefixes, "say_hello"), Some(0));
    assert_eq!(choose_by_prefix(&prefixes, "admin_ping"), Some(1));
    assert_eq!(choose_by_prefix(&prefixes, "other"), Some(3));
    assert_eq!(choose_by_prefix(&prefixes[..2].to_vec(), "other"), None);
    assert_eq!(choose_by_prefix(&prefixes[..2].to_vec(), "say"), None);
    assert_eq!(choose_by_prefix(&Vec::new(), ""), None);
}
