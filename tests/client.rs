use secrets::client::{Client, HttpClient, Secrets};
use secrets::config::{app_dir_in, app_file_in, ClientConfig};
use std::path::PathBuf;
use secrets::envelope::Request;
use secrets::error::ErrorCode;
use secrets::http::HttpResponse;
use secrets::service::{Error, Organization, Project, Secret, ServiceStatus, StatusSrvMethod, User};

#[test]
fn client_token_lifecycle() {
    let mut c = Client::new();
    assert_eq!(c.token(), None);
    c.authenticate("abc");
    assert_eq!(c.token(), Some("abc".to_string()));
    let req = c.request("user", b"\"1\"".to_vec());
    assert_eq!(req.method, "user");
    assert_eq!(req.token, Some("abc".to_string()));
    assert_eq!(req.data, b"\"1\"".to_vec());
    c.deauthenticate();
    assert_eq!(c.token(), None);
    assert_eq!(c.request("user", vec![]).token, None);
}

#[test]
fn failed_transmission_is_no_send() {
    let c = Client::new();
    let err = c.finish_call(Err("connection refused".to_string())).unwrap_err();
    assert_eq!(err.code, ErrorCode::NoSend);
    assert_eq!(err.message, "connection refused");
}

#[test]
fn ambiguous_status_is_rejected() {
    let c = Client::new();
    let res = HttpResponse { status: 301, headers: vec![], body: vec![] };
    assert_eq!(c.finish_call(Ok(res)).unwrap_err().code, ErrorCode::InvalidParam);
}

#[test]
fn encode_call_carries_token() {
    let mut c = Client::new();
    c.authenticate("t0k");
    let http = c.encode_call("secret", b"\"7\"".to_vec()).unwrap();
    assert!(http.headers.iter().any(|h| h.name == "Authorization" && h.value == "Bearer t0k"));
    assert!(http.headers.iter().any(|h| h.name == "X-RPC-METHOD" && h.value == "secret"));
}

#[test]
fn request_new_keeps_fields() {
    let r = Request::new("login", Some("t".to_string()), 5u8);
    assert_eq!(r.method, "login");
    assert_eq!(r.token, Some("t".to_string()));
    assert_eq!(r.data, 5u8);
}

#[test]
fn http_client_endpoint() {
    let c = HttpClient::new("http://localhost:6666");
    assert_eq!(c.uri(), "http://localhost:6666");
    let _marker = Secrets;
}

#[test]
fn service_values() {
    assert_eq!(ServiceStatus {}.to_json(), b"{}".to_vec());
    assert_eq!(StatusSrvMethod::id(), "status");
    StatusSrvMethod::to_params();
    let e = Error::from("nope".to_string());
    assert_eq!(e.message, "nope");
}

#[test]
fn records_compare_by_id() {
    let a = User { id: "1".into(), name: "a".into(), email: "a@x".into(), password: "p".into() };
    let b = User { id: "1".into(), name: "b".into(), email: "b@x".into(), password: "q".into() };
    let c = User { id: "2".into(), ..a.clone() };
    assert!(a == b);
    assert!(a != c);
    let o1 = Organization { id: "o".into(), name: "x".into() };
    let o2 = Organization { id: "o".into(), name: "y".into() };
    assert!(o1 == o2);
    let p1 = Project { id: "p".into(), name: "x".into(), organization: o1.clone() };
    let p2 = Project { id: "q".into(), name: "x".into(), organization: o1.clone() };
    assert!(p1 != p2);
    let s1 = Secret { id: "s".into(), oeganization: o1.clone(), project: None, key: "k".into(), value: "v".into() };
    let s2 = Secret { id: "s".into(), oeganization: o2, project: Some(p1), key: "k2".into(), value: "v2".into() };
    assert!(s1 == s2);
}

#[test]
fn client_config_default() {
    let c = ClientConfig::default();
    assert_eq!(c.url, "http://localhost:6666");
    assert_eq!(c.token, None);
}

#[test]
fn config_paths_end_in_app_directory() {
    let c = ClientConfig::default();
    match (c.config_dir(), c.config_file()) {
        (Ok(dir), Ok(file)) => {
            assert!(dir.ends_with("secrets"));
            assert!(file.ends_with("secrets/client.toml"));
            assert_eq!(file.parent(), Some(dir.as_path()));
        }
        (Err(e), Err(f)) => {
            assert_eq!(e.code, ErrorCode::Internal);
            assert_eq!(e.message, "Config directory not found");
            assert_eq!(f.message, "Config directory not found");
        }
        _ => panic!("directory and file disagree"),
    }
    if let Ok(db) = secrets::config::db_file() {
        assert!(db.ends_with("secrets/data.db"));
    }
}

#[test]
fn app_paths_under_a_given_directory() {
    let base = PathBuf::from("/home/alice/.config");
    assert_eq!(app_dir_in(Some(base.clone()), "none").unwrap(), PathBuf::from("/home/alice/.config/secrets"));
    assert_eq!(
        app_file_in(Some(base), "none", "server.toml").unwrap(),
        PathBuf::from("/home/alice/.config/secrets/server.toml")
    );
    let err = app_dir_in(None, "Config directory not found").unwrap_err();
    assert_eq!(err.code, ErrorCode::Internal);
    assert_eq!(err.message, "Config directory not found");
    assert_eq!(app_file_in(None, "Data directory not found", "data.db").unwrap_err().message, "Data directory not found");
}
