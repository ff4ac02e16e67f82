use nimbus::service::{
    returns_result,
    check_method, check_service, response_variants, streaming_mode_from_attrs, to_pascal_case,
    ParseError, ResponseVariant, ServiceArgs, StreamingMode,
};

#[test]
fn test_to_pascal_case() {
    assert_eq!(to_pascal_case("add"), "Add");
    assert_eq!(to_pascal_case("get_user"), "GetUser");
    assert_eq!(to_pascal_case("list_all_items"), "ListAllItems");
}

#[test]
fn pascal_case_edge_cases() {
    assert_eq!(to_pascal_case(""), "");
    assert_eq!(to_pascal_case("_"), "");
    assert_eq!(to_pascal_case("__a__b"), "AB");
    assert_eq!(to_pascal_case("already_Upper"), "AlreadyUpper");
    assert_eq!(to_pascal_case("v2_api"), "V2Api");
    assert_eq!(to_pascal_case("émile_x"), "ÉmileX");
    assert_eq!(to_pascal_case("straße"), "Straße");
}

fn names(v: &[&str]) -> Vec<String> {
    v.iter().map(|s| s.to_string()).collect()
}

#[test]
fn streaming_mode_from_attribute_names() {
    assert_eq!(streaming_mode_from_attrs(&names(&[])), StreamingMode::Unary);
    assert_eq!(streaming_mode_from_attrs(&names(&["doc", "server_stream"])), StreamingMode::ServerStream);
    assert_eq!(streaming_mode_from_attrs(&names(&["client_stream"])), StreamingMode::ClientStream);
    assert_eq!(streaming_mode_from_attrs(&names(&["bidirectional", "server_stream"])), StreamingMode::Bidirectional);
    assert_eq!(streaming_mode_from_attrs(&names(&["", "stream"])), StreamingMode::Unary);
    assert_eq!(StreamingMode::default(), StreamingMode::Unary);
}

#[test]
fn response_variants_per_mode() {
    assert_eq!(response_variants(StreamingMode::Unary), vec![ResponseVariant::Single]);
    assert_eq!(response_variants(StreamingMode::ClientStream), vec![ResponseVariant::Single]);
    let streamed = vec![ResponseVariant::Start, ResponseVariant::Item, ResponseVariant::End];
    assert_eq!(response_variants(StreamingMode::ServerStream), streamed);
    assert_eq!(response_variants(StreamingMode::Bidirectional), streamed);
}

#[test]
fn method_checks_in_order() {
    assert_eq!(check_method(true, Some(false), true, true), Ok(false));
    assert_eq!(check_method(true, Some(true), true, true), Ok(true));
    assert_eq!(check_method(false, None, false, false), Err(ParseError::NotAsync));
    assert_eq!(check_method(true, None, false, false), Err(ParseError::MissingReceiver));
    assert_eq!(check_method(true, Some(false), false, false), Err(ParseError::ArgumentNotIdent));
    assert_eq!(check_method(true, Some(false), true, false), Err(ParseError::NotResult));
}

#[test]
fn service_needs_a_method() {
    assert_eq!(check_service(0), Err(ParseError::NoMethods));
    assert_eq!(check_service(2), Ok(()));
    assert_eq!(ParseError::NoMethods.message(), "service trait must have at least one method");
    assert_eq!(ParseError::NotAsync.message(), "RPC methods must be async");
    assert_eq!(ParseError::MissingReceiver.message(), "RPC methods must take &self or &mut self");
    assert_eq!(ParseError::ArgumentNotIdent.message(), "expected identifier pattern for argument");
    assert_eq!(ParseError::NotResult.message(), "RPC methods must return Result<T, E>");
}

#[test]
fn service_args_default() {
    assert!(!ServiceArgs::default().client_clone);
}

#[test]
fn result_return_types() {
    assert!(returns_result("Result", 2));
    assert!(returns_result("Result", 3));
    assert!(!returns_result("Result", 1));
    assert!(!returns_result("Option", 2));
    assert!(!returns_result("result", 2));
}
