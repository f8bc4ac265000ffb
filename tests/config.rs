use kube_audit::checks::{
    anonymous_auth_verdict, authorization_mode_verdict, client_ca_verdict, idle_timeout_verdict,
    read_only_port_verdict,
};
use kube_audit::config::parse_kubelet_config;
use kube_audit::results::CheckStatus;

const PARSE_FAILURE: &str = "unable to parse kubelet config";

#[test]
fn extracts_every_field() {
    let c = parse_kubelet_config(
        "kind: KubeletConfiguration\nauthentication:\n  anonymous:\n    enabled: false\n  x509:\n    clientCAFile: /etc/kubernetes/pki/ca.crt\nauthorization:\n  mode: Webhook\nreadOnlyPort: 0\nstreamingConnectionIdleTimeout: 300\n",
    );
    assert_eq!(c.anonymous_auth_enabled, Some(false));
    assert_eq!(c.authorization_mode.as_deref(), Some("Webhook"));
    assert_eq!(c.client_ca_file.as_deref(), Some("/etc/kubernetes/pki/ca.crt"));
    assert_eq!(c.read_only_port, Some(0));
    assert_eq!(c.streaming_connection_idle_timeout, Some(300));
}

#[test]
fn anonymous_enabled_fails() {
    let c = parse_kubelet_config("authentication:\n  anonymous:\n    enabled: true\n");
    let r = anonymous_auth_verdict(&c);
    assert_eq!(r.status, CheckStatus::FAIL);
    assert!(r.error.contains("anonymous authentication"));
}

#[test]
fn anonymous_disabled_passes() {
    let c = parse_kubelet_config("authentication:\n  anonymous:\n    enabled: false\n");
    let r = anonymous_auth_verdict(&c);
    assert_eq!(r.status, CheckStatus::PASS);
    assert!(r.error.is_empty());
}

#[test]
fn invalid_yaml_is_parse_failure_except_idle_timeout() {
    let c = parse_kubelet_config("authentication: [unclosed\n  : :\n");
    assert_eq!(c.anonymous_auth_enabled, None);
    for r in [
        anonymous_auth_verdict(&c),
        authorization_mode_verdict(&c),
        client_ca_verdict(&c, true),
        read_only_port_verdict(&c),
    ] {
        assert_eq!(r.status, CheckStatus::FAIL);
        assert_eq!(r.error, PARSE_FAILURE);
        assert!(!r.error.starts_with("unable to read"));
    }
    let r = idle_timeout_verdict(&c);
    assert_eq!(r.status, CheckStatus::PASS);
    assert!(r.error.is_empty());
}

#[test]
fn mistyped_field_is_parse_failure() {
    let c = parse_kubelet_config("authentication:\n  anonymous:\n    enabled: maybe\n");
    assert_eq!(anonymous_auth_verdict(&c).error, PARSE_FAILURE);
}

#[test]
fn always_allow_fails() {
    let c = parse_kubelet_config("authorization:\n  mode: AlwaysAllow\n");
    let r = authorization_mode_verdict(&c);
    assert_eq!(r.status, CheckStatus::FAIL);
    assert_eq!(r.error, "AlwaysAllow authorization is configured");
    let c = parse_kubelet_config("authorization:\n  mode: Webhook\n");
    assert_eq!(authorization_mode_verdict(&c).status, CheckStatus::PASS);
}

#[test]
fn client_ca_needs_existing_nonempty_path() {
    let c = parse_kubelet_config("authentication:\n  x509:\n    clientCAFile: /ca.crt\n");
    assert_eq!(client_ca_verdict(&c, true).status, CheckStatus::PASS);
    let r = client_ca_verdict(&c, false);
    assert_eq!(r.status, CheckStatus::FAIL);
    assert_eq!(r.error, "CA file not set to expected path");
    let c = parse_kubelet_config("authentication:\n  x509:\n    clientCAFile: \"\"\n");
    assert_eq!(client_ca_verdict(&c, true).status, CheckStatus::FAIL);
}

#[test]
fn read_only_port_must_be_zero() {
    let c = parse_kubelet_config("readOnlyPort: 10255\n");
    let r = read_only_port_verdict(&c);
    assert_eq!(r.status, CheckStatus::FAIL);
    assert_eq!(r.error, "Kubelet readOnlyPort not set to 0");
    let c = parse_kubelet_config("readOnlyPort: 0\n");
    assert_eq!(read_only_port_verdict(&c).status, CheckStatus::PASS);
}

#[test]
fn port_beyond_i32_is_parse_failure() {
    let c = parse_kubelet_config("readOnlyPort: 99999999999\n");
    assert_eq!(c.read_only_port, None);
    assert_eq!(read_only_port_verdict(&c).error, PARSE_FAILURE);
}

#[test]
fn idle_timeout_zero_fails() {
    let c = parse_kubelet_config("streamingConnectionIdleTimeout: 0\n");
    let r = idle_timeout_verdict(&c);
    assert_eq!(r.status, CheckStatus::FAIL);
    assert_eq!(r.error, "Kubelet streamingConnectionIdleTimeout is set to 0");
    let c = parse_kubelet_config("streamingConnectionIdleTimeout: 14400\n");
    assert_eq!(idle_timeout_verdict(&c).status, CheckStatus::PASS);
    let c = parse_kubelet_config("readOnlyPort: 0\n");
    assert_eq!(idle_timeout_verdict(&c).status, CheckStatus::PASS);
}

#[test]
fn tagged_values_are_read_through_their_tag() {
    let c = parse_kubelet_config("readOnlyPort: !custom 0\nauthorization: !wrap\n  mode: AlwaysAllow\n");
    assert_eq!(c.read_only_port, Some(0));
    assert_eq!(c.authorization_mode.as_deref(), Some("AlwaysAllow"));
}

#[test]
fn only_string_keys_match() {
    let c = parse_kubelet_config("1: 5\n? [readOnlyPort]\n: 7\n");
    assert_eq!(c.read_only_port, None);
    let c = parse_kubelet_config("- readOnlyPort: 0\n");
    assert_eq!(c.read_only_port, None);
}

#[test]
fn empty_text_yields_no_fields() {
    let c = parse_kubelet_config("");
    assert_eq!(c.anonymous_auth_enabled, None);
    assert_eq!(c.streaming_connection_idle_timeout, None);
}
