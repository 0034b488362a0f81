use cloudflare::http::{method_token, to_method, Method};
use cloudflare::AdapterError;

const VERBS: [(Method, &str); 9] = [
    (Method::Get, "GET"),
    (Method::Post, "POST"),
    (Method::Put, "PUT"),
    (Method::Delete, "DELETE"),
    (Method::Head, "HEAD"),
    (Method::Options, "OPTIONS"),
    (Method::Patch, "PATCH"),
    (Method::Connect, "CONNECT"),
    (Method::Trace, "TRACE"),
];

#[test]
fn upper_case_tokens_map_to_their_verb() {
    for (m, token) in VERBS {
        assert_eq!(to_method(token), Ok(m));
    }
}

#[test]
fn canonical_tokens_round_trip() {
    for (m, _) in VERBS {
        assert_eq!(to_method(method_token(m)), Ok(m));
    }
}

#[test]
fn lower_and_mixed_case_tokens_fold_to_the_same_verb() {
    assert_eq!(to_method("get"), Ok(Method::Get));
    assert_eq!(to_method("post"), Ok(Method::Post));
    assert_eq!(to_method("pUt"), Ok(Method::Put));
    assert_eq!(to_method("Delete"), Ok(Method::Delete));
    assert_eq!(to_method("hEAd"), Ok(Method::Head));
    assert_eq!(to_method("options"), Ok(Method::Options));
    assert_eq!(to_method("pAtCh"), Ok(Method::Patch));
    assert_eq!(to_method("connect"), Ok(Method::Connect));
    assert_eq!(to_method("trace"), Ok(Method::Trace));
}

#[test]
fn unsupported_tokens_fail_and_carry_the_token() {
    for bad in ["", "FOO", "GETX", "GE", "get ", " GET", "G-ET", "PÖST"] {
        assert_eq!(
            to_method(bad),
            Err(AdapterError::UnsupportedMethod(bad.to_string()))
        );
    }
}

#[test]
fn method_tokens_are_canonical() {
    for (m, token) in VERBS {
        assert_eq!(method_token(m), token);
    }
}
