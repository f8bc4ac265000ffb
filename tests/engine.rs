use std::collections::HashSet;

use kube_audit::checks::{
    Checker, HostSnapshot, K8S04010100Checker, K8S04020100Checker, K8S04020500Checker,
    KUBELET_CONF_FILE,
};
use kube_audit::config::{parse_kubelet_config, KubeletConfig};
use kube_audit::engine::{registry, run, Selection};
use kube_audit::probes::FileStat;
use kube_audit::results::{CheckStatus, Mode};

fn compliant_host() -> HostSnapshot {
    let root_644 = Some(FileStat { mode: 0o100644, uid: 0, gid: 0 });
    let root_600 = Some(FileStat { mode: 0o100600, uid: 0, gid: 0 });
    HostSnapshot {
        service_file: root_644,
        kubeconfig_file: root_644,
        client_ca_file: root_600,
        kubelet_config_file: root_600,
        kubelet_config: Some(parse_kubelet_config(
            "authentication:\n  anonymous:\n    enabled: false\n  x509:\n    clientCAFile: /etc/kubernetes/pki/ca.crt\nauthorization:\n  mode: Webhook\nreadOnlyPort: 0\n",
        )),
        configured_client_ca_present: true,
    }
}

fn empty_host() -> HostSnapshot {
    HostSnapshot {
        service_file: None,
        kubeconfig_file: None,
        client_ca_file: None,
        kubelet_config_file: None,
        kubelet_config: None,
        configured_client_ca_present: false,
    }
}

#[test]
fn registry_ids_and_names_unique() {
    let controls = registry();
    assert_eq!(controls.len(), 13);
    let mut ids = HashSet::new();
    let mut names = HashSet::new();
    for c in &controls {
        let md = c.metadata();
        assert!(!md.id.is_empty());
        assert!(!md.name.is_empty());
        assert_ne!(md.id, md.name);
        assert!(ids.insert(md.id));
        assert!(names.insert(md.name));
    }
}

#[test]
fn metadata_of_first_control() {
    let md = K8S04010100Checker {}.metadata();
    assert_eq!(md.id, "4.1.1");
    assert_eq!(md.name, "k8s04010100");
    assert_eq!(md.level, 1);
    assert_eq!(md.mode, Mode::Automatic);
}

#[test]
fn compliant_host_passes_everything() {
    let report = run(&registry(), &Selection::all(), &compliant_host());
    assert_eq!(report.entries.len(), 13);
    for e in &report.entries {
        assert_eq!(e.result.status, CheckStatus::PASS, "{}", e.metadata.id);
    }
    assert_eq!(report.counts.pass, 13);
    assert_eq!(report.counts.fail, 0);
}

#[test]
fn two_runs_agree() {
    let controls = registry();
    let mut host = compliant_host();
    host.service_file = Some(FileStat { mode: 0o777, uid: 1000, gid: 1000 });
    let a = run(&controls, &Selection::all(), &host);
    let b = run(&controls, &Selection::all(), &host);
    let ka: Vec<_> = a.entries.iter().map(|e| (e.metadata.id.clone(), e.result.status)).collect();
    let kb: Vec<_> = b.entries.iter().map(|e| (e.metadata.id.clone(), e.result.status)).collect();
    assert_eq!(ka, kb);
    assert_eq!(a.counts, b.counts);
    assert_eq!(a.counts.fail, 2);
    assert_eq!(a.counts.pass, 11);
}

#[test]
fn order_is_registration_order() {
    let report = run(&registry(), &Selection::all(), &compliant_host());
    let ids: Vec<_> = report.entries.iter().map(|e| e.metadata.id.as_str()).collect();
    assert_eq!(
        ids,
        vec![
            "4.1.1", "4.1.2", "4.1.5", "4.1.6", "4.1.7", "4.1.8", "4.1.9", "4.1.10", "4.2.1",
            "4.2.2", "4.2.3", "4.2.4", "4.2.5"
        ]
    );
}

#[test]
fn level_filter_excludes_higher_levels() {
    let sel = Selection { max_level: Some(0), mode: None, ids: None };
    let report = run(&registry(), &sel, &compliant_host());
    assert!(report.entries.is_empty());
    let sel = Selection { max_level: Some(1), mode: None, ids: None };
    assert_eq!(run(&registry(), &sel, &compliant_host()).entries.len(), 13);
}

#[test]
fn mode_filter_excludes_manual() {
    let sel = Selection { max_level: None, mode: Some(Mode::Automatic), ids: None };
    let report = run(&registry(), &sel, &compliant_host());
    assert_eq!(report.entries.len(), 13);
    assert!(report.entries.iter().all(|e| e.metadata.mode == Mode::Automatic));
    let sel = Selection { max_level: None, mode: Some(Mode::Manual), ids: None };
    assert!(run(&registry(), &sel, &compliant_host()).entries.is_empty());
}

#[test]
fn id_and_name_filter() {
    let sel = Selection {
        max_level: None,
        mode: None,
        ids: Some(vec!["4.2.4".to_string(), "k8s04010200".to_string(), "nope".to_string()]),
    };
    let report = run(&registry(), &sel, &compliant_host());
    let ids: Vec<_> = report.entries.iter().map(|e| e.metadata.id.as_str()).collect();
    assert_eq!(ids, vec!["4.1.2", "4.2.4"]);
}

#[test]
fn failing_targets_do_not_stop_other_controls() {
    let report = run(&registry(), &Selection::all(), &empty_host());
    assert_eq!(report.entries.len(), 13);
    assert_eq!(report.counts.fail, 13);
    let expected = format!("unable to read '{}'", KUBELET_CONF_FILE);
    let last = &report.entries[12];
    assert_eq!(last.result.error, expected);
    let mut host = empty_host();
    host.kubelet_config = Some(KubeletConfig::unparsed());
    let report = run(&registry(), &Selection::all(), &host);
    assert_eq!(report.counts.fail, 12);
    assert_eq!(report.counts.pass, 1);
}

#[test]
fn config_controls_read_snapshot() {
    let mut host = compliant_host();
    host.kubelet_config = Some(parse_kubelet_config("authentication:\n  anonymous:\n    enabled: true\n"));
    let r = K8S04020100Checker {}.execute(&host);
    assert_eq!(r.status, CheckStatus::FAIL);
    assert_eq!(r.error, "anonymous authentication is configured");
    let r = K8S04020500Checker {}.execute(&host);
    assert_eq!(r.status, CheckStatus::PASS);
}
