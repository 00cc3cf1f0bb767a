use ginmi::auth::MAX_METADATA_KEYS;
use ginmi::ClientBuilder;
use tonic::metadata::AsciiMetadataKey;

fn value(r: &tonic::Request<()>, key: &str) -> Option<String> {
    r.metadata().get(key).map(|v| v.to_str().unwrap().to_string())
}

#[test]
fn credentials_are_put_on_each_call() {
    let auth = ClientBuilder::new("https://d:1")
        .credentials("admin", "NokiaSrl1!")
        .authenticator()
        .unwrap();
    for _ in 0..2 {
        let r = auth.call(tonic::Request::new(())).unwrap();
        assert_eq!(value(&r, "username").as_deref(), Some("admin"));
        assert_eq!(value(&r, "password").as_deref(), Some("NokiaSrl1!"));
    }
}

#[test]
fn credentials_replace_existing_entries() {
    let auth = ClientBuilder::new("https://d:1").credentials("u", "p").authenticator().unwrap();
    let mut req = tonic::Request::new(());
    req.metadata_mut().insert("username", "someone".parse().unwrap());
    req.metadata_mut().append("password", "one".parse().unwrap());
    req.metadata_mut().append("password", "two".parse().unwrap());
    req.metadata_mut().insert("x-other", "kept".parse().unwrap());
    let r = auth.call(req).unwrap();
    assert_eq!(value(&r, "username").as_deref(), Some("u"));
    assert_eq!(r.metadata().get_all("password").iter().count(), 1);
    assert_eq!(value(&r, "password").as_deref(), Some("p"));
    assert_eq!(value(&r, "x-other").as_deref(), Some("kept"));
}

#[test]
fn without_credentials_the_call_passes_unchanged() {
    let auth = ClientBuilder::new("https://d:1").authenticator().unwrap();
    let mut req = tonic::Request::new(());
    req.metadata_mut().insert("x-other", "kept".parse().unwrap());
    let r = auth.call(req).unwrap();
    assert!(r.metadata().get("username").is_none());
    assert!(r.metadata().get("password").is_none());
    assert_eq!(value(&r, "x-other").as_deref(), Some("kept"));
    assert_eq!(r.metadata().len(), 1);
}

#[test]
fn cloned_interceptor_carries_the_same_credentials() {
    let auth = ClientBuilder::new("https://d:1").credentials("admin", "pw").authenticator().unwrap();
    let copy = auth.clone();
    let r = copy.call(tonic::Request::new(())).unwrap();
    assert_eq!(value(&r, "username").as_deref(), Some("admin"));
    assert_eq!(value(&r, "password").as_deref(), Some("pw"));
}

fn with_keys(n: usize) -> tonic::Request<()> {
    let mut req = tonic::Request::new(());
    for i in 0..n {
        let key = AsciiMetadataKey::from_bytes(format!("k{}", i).as_bytes()).unwrap();
        req.metadata_mut().insert(key, "v".parse().unwrap());
    }
    req
}

#[test]
fn crowded_metadata_is_refused() {
    let auth = ClientBuilder::new("https://d:1").credentials("u", "p").authenticator().unwrap();
    assert_eq!(MAX_METADATA_KEYS, 4094);
    assert!(auth.call(with_keys(MAX_METADATA_KEYS + 1)).is_none());
    let r = auth.call(with_keys(MAX_METADATA_KEYS)).unwrap();
    assert_eq!(r.metadata().keys_len(), MAX_METADATA_KEYS + 2);
    assert_eq!(value(&r, "username").as_deref(), Some("u"));
}
