use vstd::prelude::*;
use crate::config::{KubeletConfig, KubeletConfigView, unparsed_view};
use crate::probes::{
    FileStat, check_file_not_mode, ensure_file_owner_and_group_root, mask_at_most_600,
    mask_at_most_644, spec_file_not_mode, spec_mask_at_most_600, spec_mask_at_most_644,
    spec_owner_and_group_root, unreadable, unreadable_message,
};
use crate::results::{
    CheckerMetadata, CheckerResult, MetadataView, Mode, ResultView, fail_view, pass_view,
};

verus! {

/// Drop-in unit file that starts the kubelet.
pub const KUBELET_SERVICE_FILE: &'static str = "/etc/systemd/system/kubelet.service.d/exec-start.conf";

/// Credentials the kubelet uses to reach the API server.
pub const KUBELET_KUBECONFIG_FILE: &'static str = "/etc/kubernetes/kubelet/kubeconfig";

/// Certificate authority bundle the kubelet trusts for client certificates.
pub const KUBELET_CLIENT_CA_FILE: &'static str = "/etc/kubernetes/pki/ca.crt";

/// The kubelet's own configuration file.
pub const KUBELET_CONF_FILE: &'static str = "/etc/kubernetes/kubelet/config";

/// The state of the host that the controls read, observed once per run.
#[derive(Debug)]
pub struct HostSnapshot {
    /// `stat` of [`KUBELET_SERVICE_FILE`], `None` when it failed.
    pub service_file: Option<FileStat>,
    /// `stat` of [`KUBELET_KUBECONFIG_FILE`], `None` when it failed.
    pub kubeconfig_file: Option<FileStat>,
    /// `stat` of [`KUBELET_CLIENT_CA_FILE`], `None` when it failed.
    pub client_ca_file: Option<FileStat>,
    /// `stat` of [`KUBELET_CONF_FILE`], `None` when it failed.
    pub kubelet_config_file: Option<FileStat>,
    /// The fields read from [`KUBELET_CONF_FILE`], `None` when it could not
    /// be read.
    pub kubelet_config: Option<KubeletConfig>,
    /// Whether the path that the configuration names as client CA file exists.
    pub configured_client_ca_present: bool,
}

/// View of an optional configuration.
pub open spec fn opt_config_view(c: Option<KubeletConfig>) -> Option<KubeletConfigView> {
    match c {
        Some(x) => Some(x@),
        None => None,
    }
}

/// A control: a descriptor and the logic that evaluates it against the host.
pub trait Checker {
    spec fn spec_metadata(&self) -> MetadataView;

    spec fn spec_execute(&self, host: &HostSnapshot) -> ResultView;

    /// Evaluates the control; never aborts, every failure is a result.
    fn execute(&self, host: &HostSnapshot) -> (r: CheckerResult)
        ensures
            r@ == self.spec_execute(host),
            r@.wf(),
    ;

    /// The control's descriptor.
    fn metadata(&self) -> (r: CheckerMetadata)
        ensures
            r@ == self.spec_metadata(),
    ;
}

/// Descriptor of a level-1 automatic control.
pub open spec fn spec_metadata_of(title: &str, id: &str, name: &str) -> MetadataView {
    MetadataView { title: title@, id: id@, level: 1, name: name@, mode: Mode::Automatic }
}

/// Builds the descriptor of a level-1 automatic control.
fn automatic_level1(title: &str, id: &str, name: &str) -> (r: CheckerMetadata)
    ensures
        r@ == spec_metadata_of(title, id, name),
{
    CheckerMetadata {
        title: String::from_str(title),
        id: String::from_str(id),
        level: 1,
        name: String::from_str(name),
        mode: Mode::Automatic,
    }
}

/// Diagnostic for a configuration that lacks a field of the expected shape.
pub open spec fn parse_failure_message() -> Seq<char> {
    "unable to parse kubelet config"@
}

fn parse_failure() -> (r: CheckerResult)
    ensures
        r@ == fail_view(parse_failure_message()),
        r@.wf(),
{
    proof {
        reveal_strlit("unable to parse kubelet config");
    }
    CheckerResult::fail(String::from_str("unable to parse kubelet config"))
}

fn config_unreadable() -> (r: CheckerResult)
    ensures
        r@ == fail_view(unreadable_message(KUBELET_CONF_FILE@)),
        r@.wf(),
{
    proof {
        reveal_strlit("unable to read '");
    }
    CheckerResult::fail(unreadable(KUBELET_CONF_FILE))
}

fn fail_with(msg: &str) -> (r: CheckerResult)
    requires
        msg@.len() > 0,
    ensures
        r@ == fail_view(msg@),
        r@.wf(),
{
    CheckerResult::fail(String::from_str(msg))
}


/// Control 4.1.1: Permission bits of [`KUBELET_SERVICE_FILE`] are `644` or stricter.
pub struct K8S04010100Checker {}

impl Checker for K8S04010100Checker {
    open spec fn spec_metadata(&self) -> MetadataView {
        spec_metadata_of(
            "Ensure that the kubelet service file permissions are set to 644 or more restrictive",
            "4.1.1",
            "k8s04010100",
        )
    }

    open spec fn spec_execute(&self, host: &HostSnapshot) -> ResultView {
        spec_file_not_mode(KUBELET_SERVICE_FILE@, host.service_file, spec_mask_at_most_644())
    }

    fn execute(&self, host: &HostSnapshot) -> (r: CheckerResult) {
        check_file_not_mode(KUBELET_SERVICE_FILE, host.service_file, mask_at_most_644())
    }

    fn metadata(&self) -> (r: CheckerMetadata) {
        automatic_level1(
            "Ensure that the kubelet service file permissions are set to 644 or more restrictive",
            "4.1.1",
            "k8s04010100",
        )
    }
}

/// Control 4.1.2: [`KUBELET_SERVICE_FILE`] is owned by `root:root`.
pub struct K8S04010200Checker {}

impl Checker for K8S04010200Checker {
    open spec fn spec_metadata(&self) -> MetadataView {
        spec_metadata_of(
            "Ensure that the kubelet service file ownership is set to root:root",
            "4.1.2",
            "k8s04010200",
        )
    }

    open spec fn spec_execute(&self, host: &HostSnapshot) -> ResultView {
        spec_owner_and_group_root(KUBELET_SERVICE_FILE@, host.service_file)
    }

    fn execute(&self, host: &HostSnapshot) -> (r: CheckerResult) {
        ensure_file_owner_and_group_root(KUBELET_SERVICE_FILE, host.service_file)
    }

    fn metadata(&self) -> (r: CheckerMetadata) {
        automatic_level1(
            "Ensure that the kubelet service file ownership is set to root:root",
            "4.1.2",
            "k8s04010200",
        )
    }
}

/// Control 4.1.5: Permission bits of [`KUBELET_KUBECONFIG_FILE`] are `644` or stricter.
pub struct K8S04010500Checker {}

impl Checker for K8S04010500Checker {
    open spec fn spec_metadata(&self) -> MetadataView {
        spec_metadata_of(
            "Ensure that the --kubeconfig kubelet.conf file permissions are set to 644 or more restrictive",
            "4.1.5",
            "k8s04010500",
        )
    }

    open spec fn spec_execute(&self, host: &HostSnapshot) -> ResultView {
        spec_file_not_mode(KUBELET_KUBECONFIG_FILE@, host.kubeconfig_file, spec_mask_at_most_644())
    }

    fn execute(&self, host: &HostSnapshot) -> (r: CheckerResult) {
        check_file_not_mode(KUBELET_KUBECONFIG_FILE, host.kubeconfig_file, mask_at_most_644())
    }

    fn metadata(&self) -> (r: CheckerMetadata) {
        automatic_level1(
            "Ensure that the --kubeconfig kubelet.conf file permissions are set to 644 or more restrictive",
            "4.1.5",
            "k8s04010500",
        )
    }
}

/// Control 4.1.6: [`KUBELET_KUBECONFIG_FILE`] is owned by `root:root`.
pub struct K8S04010600Checker {}

impl Checker for K8S04010600Checker {
    open spec fn spec_metadata(&self) -> MetadataView {
        spec_metadata_of(
            "Ensure that the --kubeconfig kubelet.conf file ownership is set to root:root",
            "4.1.6",
            "k8s04010600",
        )
    }

    open spec fn spec_execute(&self, host: &HostSnapshot) -> ResultView {
        spec_owner_and_group_root(KUBELET_KUBECONFIG_FILE@, host.kubeconfig_file)
    }

    fn execute(&self, host: &HostSnapshot) -> (r: CheckerResult) {
        ensure_file_owner_and_group_root(KUBELET_KUBECONFIG_FILE, host.kubeconfig_file)
    }

    fn metadata(&self) -> (r: CheckerMetadata) {
        automatic_level1(
            "Ensure that the --kubeconfig kubelet.conf file ownership is set to root:root",
            "4.1.6",
            "k8s04010600",
        )
    }
}

/// Control 4.1.7: Permission bits of [`KUBELET_CLIENT_CA_FILE`] are `600` or stricter.
pub struct K8S04010700Checker {}

impl Checker for K8S04010700Checker {
    open spec fn spec_metadata(&self) -> MetadataView {
        spec_metadata_of(
            "Ensure that the certificate authorities file permissions are set to 600 or more restrictive",
            "4.1.7",
            "k8s04010700",
        )
    }

    open spec fn spec_execute(&self, host: &HostSnapshot) -> ResultView {
        spec_file_not_mode(KUBELET_CLIENT_CA_FILE@, host.client_ca_file, spec_mask_at_most_600())
    }

    fn execute(&self, host: &HostSnapshot) -> (r: CheckerResult) {
        check_file_not_mode(KUBELET_CLIENT_CA_FILE, host.client_ca_file, mask_at_most_600())
    }

    fn metadata(&self) -> (r: CheckerMetadata) {
        automatic_level1(
            "Ensure that the certificate authorities file permissions are set to 600 or more restrictive",
            "4.1.7",
            "k8s04010700",
        )
    }
}

/// Control 4.1.8: [`KUBELET_CLIENT_CA_FILE`] is owned by `root:root`.
pub struct K8S04010800Checker {}

impl Checker for K8S04010800Checker {
    open spec fn spec_metadata(&self) -> MetadataView {
        spec_metadata_of(
            "Ensure that the client certificate authorities file ownership is set to root:root",
            "4.1.8",
            "k8s04010800",
        )
    }

    open spec fn spec_execute(&self, host: &HostSnapshot) -> ResultView {
        spec_owner_and_group_root(KUBELET_CLIENT_CA_FILE@, host.client_ca_file)
    }

    fn execute(&self, host: &HostSnapshot) -> (r: CheckerResult) {
        ensure_file_owner_and_group_root(KUBELET_CLIENT_CA_FILE, host.client_ca_file)
    }

    fn metadata(&self) -> (r: CheckerMetadata) {
        automatic_level1(
            "Ensure that the client certificate authorities file ownership is set to root:root",
            "4.1.8",
            "k8s04010800",
        )
    }
}

/// Control 4.1.9: Permission bits of [`KUBELET_CONF_FILE`] are `600` or stricter.
pub struct K8S04010900Checker {}

impl Checker for K8S04010900Checker {
    open spec fn spec_metadata(&self) -> MetadataView {
        spec_metadata_of(
            "If the kubelet config.yaml configuration file is being used validate permissions set to 600 or more restrictive",
            "4.1.9",
            "k8s04010900",
        )
    }

    open spec fn spec_execute(&self, host: &HostSnapshot) -> ResultView {
        spec_file_not_mode(KUBELET_CONF_FILE@, host.kubelet_config_file, spec_mask_at_most_600())
    }

    fn execute(&self, host: &HostSnapshot) -> (r: CheckerResult) {
        check_file_not_mode(KUBELET_CONF_FILE, host.kubelet_config_file, mask_at_most_600())
    }

    fn metadata(&self) -> (r: CheckerMetadata) {
        automatic_level1(
            "If the kubelet config.yaml configuration file is being used validate permissions set to 600 or more restrictive",
            "4.1.9",
            "k8s04010900",
        )
    }
}

/// Control 4.1.10: [`KUBELET_CONF_FILE`] is owned by `root:root`.
pub struct K8S04011000Checker {}

impl Checker for K8S04011000Checker {
    open spec fn spec_metadata(&self) -> MetadataView {
        spec_metadata_of(
            "If the kubelet config.yaml configuration file is being used validate file ownership is set to root:root",
            "4.1.10",
            "k8s04011000",
        )
    }

    open spec fn spec_execute(&self, host: &HostSnapshot) -> ResultView {
        spec_owner_and_group_root(KUBELET_CONF_FILE@, host.kubelet_config_file)
    }

    fn execute(&self, host: &HostSnapshot) -> (r: CheckerResult) {
        ensure_file_owner_and_group_root(KUBELET_CONF_FILE, host.kubelet_config_file)
    }

    fn metadata(&self) -> (r: CheckerMetadata) {
        automatic_level1(
            "If the kubelet config.yaml configuration file is being used validate file ownership is set to root:root",
            "4.1.10",
            "k8s04011000",
        )
    }
}
/// Decision of the anonymous-authentication control on a parsed configuration.
pub open spec fn spec_anonymous_auth(c: KubeletConfigView) -> ResultView {
    match c.anonymous_auth_enabled {
        None => fail_view(parse_failure_message()),
        Some(true) => fail_view("anonymous authentication is configured"@),
        Some(false) => pass_view(),
    }
}

/// Decision of the authorization-mode control on a parsed configuration.
pub open spec fn spec_authorization_mode(c: KubeletConfigView) -> ResultView {
    match c.authorization_mode {
        None => fail_view(parse_failure_message()),
        Some(m) => if m == "AlwaysAllow"@ {
            fail_view("AlwaysAllow authorization is configured"@)
        } else {
            pass_view()
        },
    }
}

/// Decision of the client-CA control on a parsed configuration, given
/// whether the configured path exists.
pub open spec fn spec_client_ca(c: KubeletConfigView, present: bool) -> ResultView {
    match c.client_ca_file {
        None => fail_view(parse_failure_message()),
        Some(p) => if p.len() > 0 && present {
            pass_view()
        } else {
            fail_view("CA file not set to expected path"@)
        },
    }
}

/// Decision of the read-only-port control on a parsed configuration.
pub open spec fn spec_read_only_port(c: KubeletConfigView) -> ResultView {
    match c.read_only_port {
        None => fail_view(parse_failure_message()),
        Some(p) => if p != 0 {
            fail_view("Kubelet readOnlyPort not set to 0"@)
        } else {
            pass_view()
        },
    }
}

/// Decision of the idle-timeout control on a parsed configuration.
///
/// Policy exception: the secure default is to leave the field out of the
/// file, so a configuration without it (which does not yield the field)
/// passes. Every other configuration control fails in that case.
pub open spec fn spec_idle_timeout(c: KubeletConfigView) -> ResultView {
    match c.streaming_connection_idle_timeout {
        None => pass_view(),
        Some(t) => if t == 0 {
            fail_view("Kubelet streamingConnectionIdleTimeout is set to 0"@)
        } else {
            pass_view()
        },
    }
}

/// Decides the anonymous-authentication control on `config`.
pub fn anonymous_auth_verdict(config: &KubeletConfig) -> (r: CheckerResult)
    ensures
        r@ == spec_anonymous_auth(config@),
        r@.wf(),
{
    proof {
        reveal_strlit("anonymous authentication is configured");
    }
    match config.anonymous_auth_enabled {
        None => parse_failure(),
        Some(true) => fail_with("anonymous authentication is configured"),
        Some(false) => CheckerResult::pass(),
    }
}

/// Decides the authorization-mode control on `config`.
pub fn authorization_mode_verdict(config: &KubeletConfig) -> (r: CheckerResult)
    ensures
        r@ == spec_authorization_mode(config@),
        r@.wf(),
{
    proof {
        reveal_strlit("AlwaysAllow authorization is configured");
    }
    match &config.authorization_mode {
        None => parse_failure(),
        Some(m) => {
            let always = String::from_str("AlwaysAllow");
            if *m == always {
                fail_with("AlwaysAllow authorization is configured")
            } else {
                CheckerResult::pass()
            }
        },
    }
}

/// Decides the client-CA control on `config`; `present` tells whether the
/// configured path exists.
pub fn client_ca_verdict(config: &KubeletConfig, present: bool) -> (r: CheckerResult)
    ensures
        r@ == spec_client_ca(config@, present),
        r@.wf(),
{
    proof {
        reveal_strlit("CA file not set to expected path");
    }
    match &config.client_ca_file {
        None => parse_failure(),
        Some(p) => {
            if !p.as_str().is_empty() && present {
                CheckerResult::pass()
            } else {
                fail_with("CA file not set to expected path")
            }
        },
    }
}

/// Decides the read-only-port control on `config`.
pub fn read_only_port_verdict(config: &KubeletConfig) -> (r: CheckerResult)
    ensures
        r@ == spec_read_only_port(config@),
        r@.wf(),
{
    proof {
        reveal_strlit("Kubelet readOnlyPort not set to 0");
    }
    match config.read_only_port {
        None => parse_failure(),
        Some(p) => {
            if p != 0 {
                fail_with("Kubelet readOnlyPort not set to 0")
            } else {
                CheckerResult::pass()
            }
        },
    }
}

/// Decides the idle-timeout control on `config` (see [`spec_idle_timeout`]
/// for its policy exception).
pub fn idle_timeout_verdict(config: &KubeletConfig) -> (r: CheckerResult)
    ensures
        r@ == spec_idle_timeout(config@),
        r@.wf(),
{
    proof {
        reveal_strlit("Kubelet streamingConnectionIdleTimeout is set to 0");
    }
    match config.streaming_connection_idle_timeout {
        None => CheckerResult::pass(),
        Some(t) => {
            if t == 0 {
                fail_with("Kubelet streamingConnectionIdleTimeout is set to 0")
            } else {
                CheckerResult::pass()
            }
        },
    }
}

/// Control 4.2.1: in [`KUBELET_CONF_FILE`], anonymous authentication is disabled.
pub struct K8S04020100Checker {}

impl Checker for K8S04020100Checker {
    open spec fn spec_metadata(&self) -> MetadataView {
        spec_metadata_of(
            "Ensure that the --anonymous-auth argument is set to false",
            "4.2.1",
            "k8s04020100",
        )
    }

    open spec fn spec_execute(&self, host: &HostSnapshot) -> ResultView {
        match opt_config_view(host.kubelet_config) {
            None => fail_view(unreadable_message(KUBELET_CONF_FILE@)),
            Some(c) => spec_anonymous_auth(c),
        }
    }

    fn execute(&self, host: &HostSnapshot) -> (r: CheckerResult) {
        match &host.kubelet_config {
            None => config_unreadable(),
            Some(c) => anonymous_auth_verdict(c),
        }
    }

    fn metadata(&self) -> (r: CheckerMetadata) {
        automatic_level1(
            "Ensure that the --anonymous-auth argument is set to false",
            "4.2.1",
            "k8s04020100",
        )
    }
}

/// Control 4.2.2: in [`KUBELET_CONF_FILE`], authorization mode is not `AlwaysAllow`.
pub struct K8S04020200Checker {}

impl Checker for K8S04020200Checker {
    open spec fn spec_metadata(&self) -> MetadataView {
        spec_metadata_of(
            "Ensure that the --authorization-mode argument is not set to AlwaysAllow",
            "4.2.2",
            "k8s04020200",
        )
    }

    open spec fn spec_execute(&self, host: &HostSnapshot) -> ResultView {
        match opt_config_view(host.kubelet_config) {
            None => fail_view(unreadable_message(KUBELET_CONF_FILE@)),
            Some(c) => spec_authorization_mode(c),
        }
    }

    fn execute(&self, host: &HostSnapshot) -> (r: CheckerResult) {
        match &host.kubelet_config {
            None => config_unreadable(),
            Some(c) => authorization_mode_verdict(c),
        }
    }

    fn metadata(&self) -> (r: CheckerMetadata) {
        automatic_level1(
            "Ensure that the --authorization-mode argument is not set to AlwaysAllow",
            "4.2.2",
            "k8s04020200",
        )
    }
}

/// Control 4.2.3: in [`KUBELET_CONF_FILE`], a client CA file is configured and exists.
pub struct K8S04020300Checker {}

impl Checker for K8S04020300Checker {
    open spec fn spec_metadata(&self) -> MetadataView {
        spec_metadata_of(
            "Ensure that the --client-ca-file argument is set as appropriate",
            "4.2.3",
            "k8s04020300",
        )
    }

    open spec fn spec_execute(&self, host: &HostSnapshot) -> ResultView {
        match opt_config_view(host.kubelet_config) {
            None => fail_view(unreadable_message(KUBELET_CONF_FILE@)),
            Some(c) => spec_client_ca(c, host.configured_client_ca_present),
        }
    }

    fn execute(&self, host: &HostSnapshot) -> (r: CheckerResult) {
        match &host.kubelet_config {
            None => config_unreadable(),
            Some(c) => client_ca_verdict(c, host.configured_client_ca_present),
        }
    }

    fn metadata(&self) -> (r: CheckerMetadata) {
        automatic_level1(
            "Ensure that the --client-ca-file argument is set as appropriate",
            "4.2.3",
            "k8s04020300",
        )
    }
}

/// Control 4.2.4: in [`KUBELET_CONF_FILE`], the read-only port is disabled.
pub struct K8S04020400Checker {}

impl Checker for K8S04020400Checker {
    open spec fn spec_metadata(&self) -> MetadataView {
        spec_metadata_of(
            "Verify that the --read-only-port argument is set to 0",
            "4.2.4",
            "k8s04020400",
        )
    }

    open spec fn spec_execute(&self, host: &HostSnapshot) -> ResultView {
        match opt_config_view(host.kubelet_config) {
            None => fail_view(unreadable_message(KUBELET_CONF_FILE@)),
            Some(c) => spec_read_only_port(c),
        }
    }

    fn execute(&self, host: &HostSnapshot) -> (r: CheckerResult) {
        match &host.kubelet_config {
            None => config_unreadable(),
            Some(c) => read_only_port_verdict(c),
        }
    }

    fn metadata(&self) -> (r: CheckerMetadata) {
        automatic_level1(
            "Verify that the --read-only-port argument is set to 0",
            "4.2.4",
            "k8s04020400",
        )
    }
}

/// Control 4.2.5: in [`KUBELET_CONF_FILE`], streaming connections time out.
pub struct K8S04020500Checker {}

impl Checker for K8S04020500Checker {
    open spec fn spec_metadata(&self) -> MetadataView {
        spec_metadata_of(
            "Ensure that the --streaming-connection-idle-timeout argument is not set to 0",
            "4.2.5",
            "k8s04020500",
        )
    }

    open spec fn spec_execute(&self, host: &HostSnapshot) -> ResultView {
        match opt_config_view(host.kubelet_config) {
            None => fail_view(unreadable_message(KUBELET_CONF_FILE@)),
            Some(c) => spec_idle_timeout(c),
        }
    }

    fn execute(&self, host: &HostSnapshot) -> (r: CheckerResult) {
        match &host.kubelet_config {
            None => config_unreadable(),
            Some(c) => idle_timeout_verdict(c),
        }
    }

    fn metadata(&self) -> (r: CheckerMetadata) {
        automatic_level1(
            "Ensure that the --streaming-connection-idle-timeout argument is not set to 0",
            "4.2.5",
            "k8s04020500",
        )
    }
}
/// A configuration text that yields none of the fields (it is not YAML, or
/// lacks every field) makes each field control fail with the parse-failure
/// diagnostic, which differs from the unreadable-file diagnostic, while the
/// idle-timeout control passes.
pub proof fn lemma_unparsed_config_outcomes(c: KubeletConfigView, present: bool)
    requires
        c == unparsed_view(),
    ensures
        spec_anonymous_auth(c) == fail_view(parse_failure_message()),
        spec_authorization_mode(c) == fail_view(parse_failure_message()),
        spec_client_ca(c, present) == fail_view(parse_failure_message()),
        spec_read_only_port(c) == fail_view(parse_failure_message()),
        spec_idle_timeout(c) == pass_view(),
        parse_failure_message() != unreadable_message(KUBELET_CONF_FILE@),
{
    reveal_strlit("unable to parse kubelet config");
    reveal_strlit("unable to read '");
    let a = parse_failure_message();
    let b = unreadable_message(KUBELET_CONF_FILE@);
    assert(a[10] != b[10]);
}

} // verus!
