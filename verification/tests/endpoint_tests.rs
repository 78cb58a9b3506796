use ya_etcd_rs::endpoint::{check_endpoints, check_pool, ClientConfig, Endpoint, TimeSpan};
use ya_etcd_rs::error::Error;

#[test]
fn endpoint_new_has_no_tls() {
    let e = Endpoint::new("http://127.0.0.1:2379");
    assert_eq!(e.url(), "http://127.0.0.1:2379");
    assert!(e.tls_material().is_none());
}

#[test]
fn tls_raw_keeps_the_material() {
    let e = Endpoint::new("https://etcd.local:2379").tls_raw(
        "etcd.local",
        vec![1, 2, 3],
        vec![4, 5],
        vec![6],
    );
    assert_eq!(e.url(), "https://etcd.local:2379");
    let m = e.tls_material().expect("material");
    assert_eq!(m.domain_name, "etcd.local");
    assert_eq!(m.ca_cert, vec![1, 2, 3]);
    assert_eq!(m.client_cert, vec![4, 5]);
    assert_eq!(m.client_key, vec![6]);
}

#[test]
fn well_formed_endpoints_pass() {
    let eps = vec![
        Endpoint::new("http://127.0.0.1:12379"),
        Endpoint::new("http://127.0.0.1:22379"),
        Endpoint::new("http://127.0.0.1:32379"),
    ];
    assert!(check_endpoints(&eps).is_ok());
    assert!(check_endpoints(&Vec::new()).is_ok());
}

#[test]
fn malformed_endpoint_is_an_invalid_uri() {
    let eps = vec![Endpoint::new("http://127.0.0.1:12379"), Endpoint::new("http://bad host/")];
    assert!(matches!(check_endpoints(&eps), Err(Error::InvalidURI(_))));
    assert!(matches!(Endpoint::new("").check(), Err(Error::InvalidURI(_))));
    assert!(Endpoint::new("http://127.0.0.1:12379").check().is_ok());
}

#[test]
fn first_malformed_endpoint_is_reported() {
    let eps = vec![Endpoint::new("http://ok:1"), Endpoint::new(""), Endpoint::new("http://bad host/")];
    let first = match Endpoint::new("").check() {
        Err(Error::InvalidURI(text)) => text,
        other => panic!("unexpected {:?}", other),
    };
    let second = match Endpoint::new("http://bad host/").check() {
        Err(Error::InvalidURI(text)) => text,
        other => panic!("unexpected {:?}", other),
    };
    assert_ne!(first, second);
    match check_endpoints(&eps) {
        Err(Error::InvalidURI(text)) => assert_eq!(text, first),
        other => panic!("unexpected {:?}", other),
    }
}

#[test]
fn config_defaults() {
    let cfg = ClientConfig::new(vec![Endpoint::new("http://127.0.0.1:2379")]);
    assert_eq!(cfg.endpoints.len(), 1);
    assert!(cfg.auth.is_none());
    assert_eq!(cfg.connect_timeout, TimeSpan { secs: 30, nanos: 0 });
    assert_eq!(cfg.http2_keep_alive_interval, TimeSpan { secs: 5, nanos: 0 });
    assert!(!cfg.session().needs_bootstrap());
}

#[test]
fn config_builders_change_one_field_each() {
    let cfg = ClientConfig::new(vec![Endpoint::new("http://a:1"), Endpoint::new("http://b:2")])
        .auth("user", "pass")
        .connect_timeout(TimeSpan::from_secs(7))
        .http2_keep_alive_interval(TimeSpan { secs: 1, nanos: 500 });
    assert_eq!(cfg.endpoints.len(), 2);
    assert_eq!(cfg.auth, Some(("user".to_string(), "pass".to_string())));
    assert_eq!(cfg.connect_timeout, TimeSpan { secs: 7, nanos: 0 });
    assert_eq!(cfg.http2_keep_alive_interval, TimeSpan { secs: 1, nanos: 500 });
    let s = cfg.session();
    assert!(s.needs_bootstrap());
    assert!(s.token().is_none());
    let c = s.refresh_request().expect("credentials");
    assert_eq!(c.username, "user");
    assert_eq!(c.password, "pass");
}

#[test]
fn endpoint_converts_from_an_address() {
    let eps: Vec<Endpoint> = vec!["http://127.0.0.1:12379".into(), "http://127.0.0.1:22379".into()];
    assert_eq!(eps[0].url(), "http://127.0.0.1:12379");
    assert_eq!(eps[1].url(), "http://127.0.0.1:22379");
    assert!(eps[0].tls_material().is_none());
    let cfg = ClientConfig::new(eps).auth("", "");
    assert_eq!(cfg.auth, Some((String::new(), String::new())));
    assert!(check_endpoints(&cfg.endpoints).is_ok());
}

#[test]
fn pool_without_faults_can_be_built() {
    let eps = vec![Endpoint::new("http://a:1"), Endpoint::new("https://b:2")];
    assert!(check_pool(&eps, &vec![None, None]).is_ok());
    assert!(check_pool(&eps, &Vec::new()).is_ok());
    assert!(check_pool(&Vec::new(), &Vec::new()).is_ok());
}

#[test]
fn first_failing_endpoint_decides_the_error() {
    let eps = vec![Endpoint::new("https://a:1"), Endpoint::new("http://bad host/")];
    let faults = vec![Some("bad certificate".to_string()), None];
    match check_pool(&eps, &faults) {
        Err(Error::Transport(text)) => assert_eq!(text, "bad certificate"),
        other => panic!("unexpected {:?}", other),
    }
    let eps = vec![Endpoint::new("http://bad host/"), Endpoint::new("https://a:1")];
    let faults = vec![None, Some("bad certificate".to_string())];
    assert!(matches!(check_pool(&eps, &faults), Err(Error::InvalidURI(_))));
}

#[test]
fn malformed_address_comes_before_material_of_the_same_endpoint() {
    let eps = vec![Endpoint::new("")];
    let faults = vec![Some("bad key".to_string())];
    assert!(matches!(check_pool(&eps, &faults), Err(Error::InvalidURI(_))));
    let eps = vec![Endpoint::new("https://a:1")];
    match check_pool(&eps, &faults) {
        Err(Error::Transport(text)) => assert_eq!(text, "bad key"),
        other => panic!("unexpected {:?}", other),
    }
}
