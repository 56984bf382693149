use envoi::fallback::FALLBACK_PORT;
use envoi::fallback::NOT_FOUND_STATUS;
use envoi::fallback::fallback_response;
use envoi::request::route;
use envoi::routing::Config;
use envoi::routing::Host;
use envoi::routing::Tls;
use envoi::routing::fallback_destination;

fn one_host(host: &str, destination: &str) -> Host {
    Host { host: host.to_owned(), destination: destination.to_owned(), tls: None }
}

#[test]
fn configured_host_forwarded_with_path_and_query() {
    let config = Config::to_map(vec![one_host("a.example", "http://10.0.0.1:8000")]);
    let ctx = route(&config, Some("a.example".to_owned()), "/x?y=1".to_owned());
    assert_eq!(ctx.destination, "http://10.0.0.1:8000");
    assert_eq!(ctx.target, "http://10.0.0.1:8000/x?y=1");
    assert_eq!(ctx.host.as_deref(), Some("a.example"));
    assert_eq!(ctx.path_and_query, "/x?y=1");
}

#[test]
fn unknown_host_gets_fallback_and_not_found() {
    let config = Config::to_map(vec![one_host("a.example", "http://10.0.0.1:8000")]);
    let ctx = route(&config, Some("unknown.example".to_owned()), "/".to_owned());
    assert_eq!(ctx.destination, fallback_destination());
    let (status, body) = fallback_response();
    assert_eq!(status, NOT_FOUND_STATUS);
    assert_eq!(status, 404);
    assert_eq!(
        body,
        "<h1>You've hit 404, this host and/or address leads to nowhere...</h1>"
    );
}

#[test]
fn missing_host_header_gets_fallback() {
    let config = Config::to_map(vec![one_host("a.example", "http://10.0.0.1:8000")]);
    let ctx = route(&config, None, "/p".to_owned());
    assert_eq!(ctx.destination, "http://127.0.0.1:41050");
    assert_eq!(ctx.target, "http://127.0.0.1:41050/p");
}

#[test]
fn empty_path_leaves_target_at_the_destination() {
    let config = Config::to_map(vec![one_host("a.example", "http://10.0.0.1:8000")]);
    let ctx = route(&config, Some("a.example".to_owned()), "".to_owned());
    assert_eq!(ctx.target, "http://10.0.0.1:8000");
}

#[test]
fn duplicate_host_last_entry_wins() {
    let config = Config::to_map(vec![one_host("a", "X"), one_host("a", "Y")]);
    assert_eq!(config.lookup(&"a".to_owned()), "Y");
}

#[test]
fn lookup_is_repeatable_and_leaves_the_table_alone() {
    let config = Config::to_map(vec![one_host("a.example", "http://10.0.0.1:8000")]);
    let entries_before = config.dest_map.clone();
    let first = config.lookup(&"a.example".to_owned());
    let second = config.lookup(&"a.example".to_owned());
    let third = config.lookup(&"nobody.example".to_owned());
    let fourth = config.lookup(&"nobody.example".to_owned());
    assert_eq!(first, second);
    assert_eq!(third, fourth);
    assert_eq!(config.dest_map, entries_before);
}

#[test]
fn empty_table_sends_everything_to_fallback() {
    let config = Config::to_map(Vec::new());
    assert_eq!(config.lookup(&"any.example".to_owned()), fallback_destination());
}

#[test]
fn hostnames_are_compared_case_sensitively() {
    let config = Config::to_map(vec![one_host("A.example", "http://10.0.0.1:8000")]);
    assert_eq!(config.lookup(&"a.example".to_owned()), fallback_destination());
    assert_eq!(config.lookup(&"A.example".to_owned()), "http://10.0.0.1:8000");
}

#[test]
fn to_map_keeps_tls_material() {
    let with_tls = Host {
        host: "a.example".to_owned(),
        destination: "http://10.0.0.1:8000".to_owned(),
        tls: Some(Tls { public: "./pub.pem".to_owned(), private: "./priv.pem".to_owned() }),
    };
    let config = Config::to_map(vec![with_tls, one_host("b.example", "http://10.0.0.2:1")]);
    assert_eq!(config.tls_map.len(), 2);
    assert_eq!(config.tls_map[0].0, "a.example");
    let material = config.tls_map[0].1.as_ref().expect("tls material kept");
    assert_eq!(material.public, "./pub.pem");
    assert_eq!(material.private, "./priv.pem");
    assert!(config.tls_map[1].1.is_none());
}

#[test]
fn create_holds_only_the_example_route() {
    let config = Config::create();
    assert_eq!(config.lookup(&"emby.citrusfire.co.uk".to_owned()), "192.168.68.100:8096");
    assert_eq!(config.lookup(&"other.example".to_owned()), fallback_destination());
    assert_eq!(config.dest_map.len(), 1);
}

#[test]
fn default_host_carries_tls_paths() {
    let host = Config::default_host();
    assert_eq!(host.host, "emby.citrusfire.co.uk");
    assert_eq!(host.destination, "192.168.68.100:8096");
    let material = host.tls.expect("example route has tls material");
    assert_eq!(material.public, "./public.pem");
    assert_eq!(material.private, "./private.pem");
}

#[test]
fn fallback_destination_points_at_the_fallback_port() {
    assert_eq!(fallback_destination(), format!("http://127.0.0.1:{}", FALLBACK_PORT));
}
