use a2a_rust::auth::{
    AuthInterceptor, ClientCallContext, CredentialService, HttpKwargs,
    InMemoryContextCredentialStore,
};
use a2a_rust::core_types::In;
use a2a_rust::errors::A2AError;
use a2a_rust::models::{
    APIKeySecurityScheme, AgentCapabilities, AgentCard, HTTPAuthSecurityScheme, RequirementEntry,
    SchemeEntry, SecurityRequirement, SecurityScheme,
};
use a2a_rust::rpc::{Method, parse_method};

fn plain_card() -> AgentCard {
    AgentCard::new(
        "Secure Agent".to_string(),
        "An agent requiring authentication".to_string(),
        "http://localhost:8080".to_string(),
        "1.0.0".to_string(),
        vec![],
        vec![],
        AgentCapabilities::new(),
        vec![],
    )
}

fn bearer_scheme() -> SecurityScheme {
    SecurityScheme::HTTPAuth(HTTPAuthSecurityScheme {
        scheme: "bearer".to_string(),
        bearer_format: Some("JWT".to_string()),
        description: Some("Main authentication".to_string()),
    })
}

fn api_key_scheme(name: &str) -> SecurityScheme {
    SecurityScheme::APIKey(APIKeySecurityScheme {
        name: name.to_string(),
        in_: In::Header,
        description: Some("Secondary authentication".to_string()),
    })
}

fn requirement(ids: &[&str]) -> SecurityRequirement {
    SecurityRequirement {
        entries: ids
            .iter()
            .map(|id| RequirementEntry { scheme_id: id.to_string(), scopes: vec![] })
            .collect(),
    }
}

#[test]
fn bearer_auth_injection() {
    let card = plain_card()
        .with_security_schemes(vec![SchemeEntry {
            id: "bearer_auth".to_string(),
            scheme: bearer_scheme(),
        }])
        .with_security(vec![requirement(&["bearer_auth"])]);

    let mut store = InMemoryContextCredentialStore::new();
    store.add_credential("bearer_auth", "my-secret-jwt-token");
    let interceptor = AuthInterceptor::new(store);

    let (_payload, kwargs) = interceptor
        .intercept(
            &"message/send".to_string(),
            "{}".to_string(),
            HttpKwargs::new(),
            &card,
            None,
        )
        .unwrap();
    let auth = kwargs.header_value(&"Authorization".to_string()).expect("header set");
    assert_eq!(auth, "Bearer my-secret-jwt-token");
}

#[test]
fn api_key_auth_injection() {
    let card = plain_card()
        .with_security_schemes(vec![SchemeEntry {
            id: "api_key_auth".to_string(),
            scheme: api_key_scheme("X-API-Key"),
        }])
        .with_security(vec![requirement(&["api_key_auth"])]);

    let mut store = InMemoryContextCredentialStore::new();
    store.add_credential("api_key_auth", "my-api-key-123");
    let interceptor = AuthInterceptor::new(store);

    let (_payload, kwargs) = interceptor
        .intercept(
            &"message/send".to_string(),
            "{}".to_string(),
            HttpKwargs::new(),
            &card,
            None,
        )
        .unwrap();
    let key = kwargs.header_value(&"X-API-Key".to_string()).expect("header set");
    assert_eq!(key, "my-api-key-123");
}

#[test]
fn test_auth_flow_with_multiple_schemes() {
    // Two schemes on the card; the advertised requirement names the
    // bearer scheme, so that one is applied.
    let card = plain_card()
        .with_security_schemes(vec![
            SchemeEntry { id: "bearerAuth".to_string(), scheme: bearer_scheme() },
            SchemeEntry { id: "apiKeyAuth".to_string(), scheme: api_key_scheme("X-Custom-Key") },
        ])
        .with_security(vec![requirement(&["bearerAuth"])]);

    let mut store = InMemoryContextCredentialStore::new();
    store.add_credential("bearerAuth", "my-secret-jwt-token");
    store.add_credential("apiKeyAuth", "my-api-key");
    let interceptor = AuthInterceptor::new(store);

    let (_payload, kwargs) = interceptor
        .intercept(
            &"message/send".to_string(),
            "{\"message\":\"hello\"}".to_string(),
            HttpKwargs::new(),
            &card,
            None,
        )
        .unwrap();
    let auth = kwargs.header_value(&"Authorization".to_string()).expect("header set");
    assert_eq!(auth, "Bearer my-secret-jwt-token");

    // Alternative requirement: only the API key scheme is asked for.
    let card_alt = plain_card()
        .with_security_schemes(vec![
            SchemeEntry { id: "bearerAuth".to_string(), scheme: bearer_scheme() },
            SchemeEntry { id: "apiKeyAuth".to_string(), scheme: api_key_scheme("X-Custom-Key") },
        ])
        .with_security(vec![requirement(&["apiKeyAuth"])]);
    let (_payload, kwargs_alt) = interceptor
        .intercept(
            &"message/send".to_string(),
            "{}".to_string(),
            HttpKwargs::new(),
            &card_alt,
            None,
        )
        .unwrap();
    let key = kwargs_alt.header_value(&"X-Custom-Key".to_string()).expect("header set");
    assert_eq!(key, "my-api-key");
}

#[test]
fn fallback_requirement_is_selected() {
    // Credentials exist only for the second requirement; the first is
    // skipped and the second applied.
    let card = plain_card()
        .with_security_schemes(vec![
            SchemeEntry { id: "schemeA".to_string(), scheme: bearer_scheme() },
            SchemeEntry { id: "schemeB".to_string(), scheme: api_key_scheme("X-B-Key") },
        ])
        .with_security(vec![requirement(&["schemeA"]), requirement(&["schemeB"])]);

    let mut store = InMemoryContextCredentialStore::new();
    store.add_credential("schemeB", "b-secret");
    let interceptor = AuthInterceptor::new(store);

    let (_payload, kwargs) = interceptor
        .intercept(&"message/send".to_string(), "{}".to_string(), HttpKwargs::new(), &card, None)
        .unwrap();
    assert!(kwargs.header_value(&"Authorization".to_string()).is_none());
    let key = kwargs.header_value(&"X-B-Key".to_string()).expect("header set");
    assert_eq!(key, "b-secret");
}

#[test]
fn no_satisfiable_requirement_leaves_request_unchanged() {
    let card = plain_card()
        .with_security_schemes(vec![SchemeEntry {
            id: "schemeA".to_string(),
            scheme: bearer_scheme(),
        }])
        .with_security(vec![requirement(&["schemeA"])]);
    let interceptor = AuthInterceptor::new(InMemoryContextCredentialStore::new());
    let (_payload, kwargs) = interceptor
        .intercept(&"tasks/get".to_string(), "{}".to_string(), HttpKwargs::new(), &card, None)
        .unwrap();
    assert!(kwargs.headers.is_empty());
    assert!(kwargs.cookies.is_empty());
}

#[test]
fn empty_security_is_a_pass_through() {
    let card = plain_card();
    let interceptor = AuthInterceptor::new(InMemoryContextCredentialStore::new());
    let (payload, kwargs) = interceptor
        .intercept(
            &"message/send".to_string(),
            "{\"x\":1}".to_string(),
            HttpKwargs::new(),
            &card,
            None,
        )
        .unwrap();
    assert_eq!(payload, "{\"x\":1}");
    assert!(kwargs.headers.is_empty());
}

#[test]
fn api_key_in_query_extends_the_url() {
    let card = plain_card()
        .with_security_schemes(vec![SchemeEntry {
            id: "qk".to_string(),
            scheme: SecurityScheme::APIKey(APIKeySecurityScheme {
                name: "key".to_string(),
                in_: In::Query,
                description: None,
            }),
        }])
        .with_security(vec![requirement(&["qk"])]);
    let mut store = InMemoryContextCredentialStore::new();
    store.add_credential("qk", "v1");
    let interceptor = AuthInterceptor::new(store);

    let bare = HttpKwargs::new().with_url("http://h.example/rpc".to_string());
    let (_p, kw) = interceptor
        .intercept(&"m".to_string(), "{}".to_string(), bare, &card, None)
        .unwrap();
    assert_eq!(kw.url.as_deref(), Some("http://h.example/rpc?key=v1"));

    let with_query = HttpKwargs::new().with_url("http://h.example/rpc?a=b".to_string());
    let (_p, kw2) = interceptor
        .intercept(&"m".to_string(), "{}".to_string(), with_query, &card, None)
        .unwrap();
    assert_eq!(kw2.url.as_deref(), Some("http://h.example/rpc?a=b&key=v1"));
}

#[test]
fn basic_auth_uses_basic_prefix() {
    let card = plain_card()
        .with_security_schemes(vec![SchemeEntry {
            id: "basicAuth".to_string(),
            scheme: SecurityScheme::HTTPAuth(HTTPAuthSecurityScheme {
                scheme: "basic".to_string(),
                bearer_format: None,
                description: None,
            }),
        }])
        .with_security(vec![requirement(&["basicAuth"])]);
    let mut store = InMemoryContextCredentialStore::new();
    store.add_credential("basicAuth", "dXNlcjpwdw==");
    let interceptor = AuthInterceptor::new(store);
    let (_p, kw) = interceptor
        .intercept(&"m".to_string(), "{}".to_string(), HttpKwargs::new(), &card, None)
        .unwrap();
    assert_eq!(
        kw.header_value(&"Authorization".to_string()).unwrap(),
        "Basic dXNlcjpwdw=="
    );
}

#[test]
fn credential_store_answers_by_scheme_id() {
    let mut store = InMemoryContextCredentialStore::new();
    store.add_credential("a", "1");
    store.add_credential("b", "2");
    store.add_credential("a", "3");
    let ctx: Option<&ClientCallContext> = None;
    assert_eq!(store.get_credentials(&"a".to_string(), ctx).unwrap().as_deref(), Some("3"));
    assert_eq!(store.get_credentials(&"b".to_string(), ctx).unwrap().as_deref(), Some("2"));
    assert_eq!(store.get_credentials(&"c".to_string(), ctx).unwrap(), None);
}

#[test]
fn known_methods_resolve() {
    assert_eq!(parse_method(&"message/send".to_string()), Some(Method::MessageSend));
    assert_eq!(parse_method(&"message/stream".to_string()), Some(Method::MessageStream));
    assert_eq!(parse_method(&"tasks/get".to_string()), Some(Method::TasksGet));
    assert_eq!(parse_method(&"tasks/cancel".to_string()), Some(Method::TasksCancel));
    assert_eq!(parse_method(&"tasks/resubscribe".to_string()), Some(Method::TasksResubscribe));
    assert_eq!(
        parse_method(&"tasks/pushNotificationConfig/set".to_string()),
        Some(Method::PushConfigSet)
    );
    assert_eq!(
        parse_method(&"tasks/pushNotificationConfig/get".to_string()),
        Some(Method::PushConfigGet)
    );
    assert_eq!(
        parse_method(&"agent/authenticatedExtendedCard".to_string()),
        Some(Method::AuthenticatedExtendedCard)
    );
}

#[test]
fn unknown_method_maps_to_method_not_found() {
    assert_eq!(parse_method(&"unknown/method".to_string()), None);
    assert_eq!(A2AError::MethodNotFound.code(), -32601);
}

#[test]
fn error_codes_are_fixed() {
    assert_eq!(A2AError::InvalidRequest.code(), -32600);
    assert_eq!(A2AError::InvalidParams.code(), -32602);
    assert_eq!(A2AError::internal("boom").code(), -32603);
    assert_eq!(A2AError::TaskNotFound.code(), 1001);
    assert_eq!(A2AError::TaskNotCancelable.code(), 1002);
    assert_eq!(A2AError::push_notification_not_supported().code(), 1003);
    assert_eq!(A2AError::unsupported_operation("no").code(), 1004);
    assert_eq!(A2AError::ContentTypeNotSupported.code(), 1005);
    assert_eq!(A2AError::InvalidAgentResponse.code(), 1006);
    assert_eq!(A2AError::AuthRequired.code(), 1007);
}
