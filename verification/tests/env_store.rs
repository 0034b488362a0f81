use cloudflare::env::EnvCloudflare;

fn store(raw: &[(&str, &str)]) -> EnvCloudflare {
    EnvCloudflare::init(
        raw.iter()
            .map(|(k, v)| (k.to_string(), v.to_string()))
            .collect(),
    )
}

#[test]
fn missing_key_on_an_empty_store_is_none() {
    let env = store(&[]);
    assert_eq!(env.get("MISSING_KEY"), None);
}

#[test]
fn seeded_key_is_returned() {
    let env = store(&[("KEY", "value")]);
    assert_eq!(env.get("KEY"), Some("value".to_string()));
    assert_eq!(env.get("MISSING_KEY"), None);
}

#[test]
fn lookup_is_exact_on_the_key() {
    let env = store(&[("KEY", "value"), ("KEY2", "other")]);
    assert_eq!(env.get("key"), None);
    assert_eq!(env.get("KEY "), None);
    assert_eq!(env.get("KE"), None);
    assert_eq!(env.get("KEY2"), Some("other".to_string()));
}

#[test]
fn first_matching_pair_wins() {
    let env = store(&[("KEY", "first"), ("KEY", "second")]);
    assert_eq!(env.get("KEY"), Some("first".to_string()));
}
