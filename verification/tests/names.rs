use tower_json_rpc::names::{build_unsubscribe_method, names_with_aliases, snake_to_camel, to_variant_name};

#[test]
fn snake_to_camel_joins_words() {
    assert_eq!(snake_to_camel("block_number"), "blockNumber");
    assert_eq!(snake_to_camel("get_block_by_hash"), "getBlockByHash");
    assert_eq!(snake_to_camel("hello"), "hello");
    assert_eq!(snake_to_camel(""), "");
    assert_eq!(snake_to_camel("_lead"), "Lead");
    assert_eq!(snake_to_camel("a__b"), "aB");
    assert_eq!(snake_to_camel("tail_"), "tail");
    assert_eq!(snake_to_camel("x_1y"), "x1y");
}

#[test]
fn variant_names_are_pascal_case() {
    assert_eq!(to_variant_name("hello"), "Hello");
    assert_eq!(to_variant_name("say_hello"), "SayHello");
    assert_eq!(to_variant_name("get-block_hash"), "GetBlockHash");
    assert_eq!(to_variant_name("blockNumber"), "BlockNumber");
}

#[test]
fn unsubscribe_name_is_derived_from_prefix() {
    assert_eq!(build_unsubscribe_method("subscribeNewHeads"), Some("unsubscribeNewHeads".to_string()));
    assert_eq!(build_unsubscribe_method("subscribe"), Some("unsubscribe".to_string()));
    assert_eq!(build_unsubscribe_method("newHeads"), None);
    assert_eq!(build_unsubscribe_method("subscrib"), None);
    assert_eq!(build_unsubscribe_method("Subscribe_x"), None);
}

#[test]
fn names_with_aliases_puts_primary_first() {
    let aliases = vec!["b".to_string(), "c".to_string()];
    assert_eq!(names_with_aliases("a", &aliases), vec!["a".to_string(), "b".to_string(), "c".to_string()]);
    assert_eq!(names_with_aliases("only", &Vec::new()), vec!["only".to_string()]);
}
