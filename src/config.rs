use vstd::prelude::*;

verus! {

#[verifier::external_type_specification]
#[verifier::external_body]
pub struct ExYamlValue(serde_yaml::Value);

/// A YAML document as serde_yaml reads it: the shape of `serde_yaml::Value`
/// held in library types.
#[derive(Debug)]
pub enum YamlNode {
    Null,
    Bool(bool),
    /// A number, with its value when it is an integer that fits in an `i64`.
    Number(Option<i64>),
    Str(String),
    Sequence(Vec<YamlNode>),
    /// Entries in document order; serde_yaml keeps keys unique.
    Mapping(Vec<(YamlNode, YamlNode)>),
    /// A value carrying an explicit `!tag`.
    Tagged(String, Box<YamlNode>),
}

/// Mathematical view of [`YamlNode`].
pub enum YamlView {
    Null,
    Bool(bool),
    Number(Option<i64>),
    Str(Seq<char>),
    Sequence(Seq<YamlView>),
    Mapping(Seq<(YamlView, YamlView)>),
    Tagged(Seq<char>, Box<YamlView>),
}

impl YamlNode {
    pub open spec fn node_view(&self) -> YamlView
        decreases self,
    {
        match self {
            YamlNode::Null => YamlView::Null,
            YamlNode::Bool(b) => YamlView::Bool(*b),
            YamlNode::Number(n) => YamlView::Number(*n),
            YamlNode::Str(s) => YamlView::Str(s@),
            YamlNode::Sequence(v) => YamlView::Sequence(
                Seq::new(
                    v@.len(),
                    |i: int|
                        if 0 <= i < v@.len() {
                            v@[i].node_view()
                        } else {
                            YamlView::Null
                        },
                ),
            ),
            YamlNode::Mapping(v) => YamlView::Mapping(
                Seq::new(
                    v@.len(),
                    |i: int|
                        if 0 <= i < v@.len() {
                            (v@[i].0.node_view(), v@[i].1.node_view())
                        } else {
                            (YamlView::Null, YamlView::Null)
                        },
                ),
            ),
            YamlNode::Tagged(t, b) => YamlView::Tagged(t@, Box::new(b.node_view())),
        }
    }
}

/// The document that serde_yaml reads from `text`, or `None` when `text` is
/// not one well-formed YAML document.
pub uninterp spec fn yaml_doc(text: Seq<char>) -> Option<YamlView>;

pub open spec fn opt_node_view(n: Option<YamlNode>) -> Option<YamlView> {
    match n {
        Some(x) => Some(x.node_view()),
        None => None,
    }
}

/// Relies on serde_yaml::from_str into a `serde_yaml::Value`, a function of
/// the text alone; the value is then carried over into [`YamlNode`] one
/// variant for one.
#[verifier::external_body]
fn parse_yaml(text: &str) -> (r: Option<YamlNode>)
    ensures
        opt_node_view(r) == yaml_doc(text@),
{
    serde_yaml::from_str::<serde_yaml::Value>(text).ok().map(|v| node_of(&v))
}

/// Carries a `serde_yaml::Value` over into [`YamlNode`], variant for variant;
/// part of [`parse_yaml`]. Relies on serde_yaml::Number::as_i64 for numbers.
#[verifier::external_body]
fn node_of(v: &serde_yaml::Value) -> YamlNode {
    match v {
        serde_yaml::Value::Null => YamlNode::Null,
        serde_yaml::Value::Bool(b) => YamlNode::Bool(*b),
        serde_yaml::Value::Number(n) => YamlNode::Number(n.as_i64()),
        serde_yaml::Value::String(s) => YamlNode::Str(s.clone()),
        serde_yaml::Value::Sequence(items) => YamlNode::Sequence(items.iter().map(node_of).collect()),
        serde_yaml::Value::Mapping(m) => YamlNode::Mapping(
            m.iter().map(|(k, x)| (node_of(k), node_of(x))).collect(),
        ),
        serde_yaml::Value::Tagged(t) => YamlNode::Tagged(t.tag.to_string(), Box::new(node_of(&t.value))),
    }
}

/// `v` with any explicit tags taken off.
pub open spec fn spec_untag(v: YamlView) -> YamlView
    decreases v,
{
    match v {
        YamlView::Tagged(_, b) => spec_untag(*b),
        _ => v,
    }
}

/// The value of the first entry of `entries` whose key is the untagged string `key`.
pub open spec fn spec_find(entries: Seq<(YamlView, YamlView)>, key: Seq<char>) -> Option<YamlView>
    decreases entries.len(),
{
    if entries.len() == 0 {
        None
    } else if entries[0].0 == YamlView::Str(key) {
        Some(entries[0].1)
    } else {
        spec_find(entries.drop_first(), key)
    }
}

/// The entry under `key` when `v` is a mapping that has one.
pub open spec fn spec_get(v: YamlView, key: Seq<char>) -> Option<YamlView> {
    match spec_untag(v) {
        YamlView::Mapping(entries) => spec_find(entries, key),
        _ => None,
    }
}

/// [`spec_get`] on a value that may be missing.
pub open spec fn spec_at(v: Option<YamlView>, key: Seq<char>) -> Option<YamlView> {
    match v {
        Some(x) => spec_get(x, key),
        None => None,
    }
}

/// The boolean that `v` holds, if any.
pub open spec fn spec_as_bool(v: Option<YamlView>) -> Option<bool> {
    match v {
        Some(x) => match spec_untag(x) {
            YamlView::Bool(b) => Some(b),
            _ => None,
        },
        None => None,
    }
}

/// The string that `v` holds, if any.
pub open spec fn spec_as_str(v: Option<YamlView>) -> Option<Seq<char>> {
    match v {
        Some(x) => match spec_untag(x) {
            YamlView::Str(s) => Some(s),
            _ => None,
        },
        None => None,
    }
}

/// The integer that `v` holds, if it is one that fits in an `i32`.
pub open spec fn spec_as_i32(v: Option<YamlView>) -> Option<i32> {
    match v {
        Some(x) => match spec_untag(x) {
            YamlView::Number(Some(n)) => if i32::MIN <= n <= i32::MAX {
                Some(n as i32)
            } else {
                None
            },
            _ => None,
        },
        None => None,
    }
}

/// The fields of the kubelet configuration that the controls read. Each is
/// `None` when the document does not parse, or when the field is absent or
/// not of the expected type.
#[derive(Debug)]
pub struct KubeletConfig {
    /// `authentication.anonymous.enabled`
    pub anonymous_auth_enabled: Option<bool>,
    /// `authorization.mode`
    pub authorization_mode: Option<String>,
    /// `authentication.x509.clientCAFile`
    pub client_ca_file: Option<String>,
    /// `readOnlyPort`
    pub read_only_port: Option<i32>,
    /// `streamingConnectionIdleTimeout`
    pub streaming_connection_idle_timeout: Option<i32>,
}

/// Mathematical view of [`KubeletConfig`].
pub struct KubeletConfigView {
    pub anonymous_auth_enabled: Option<bool>,
    pub authorization_mode: Option<Seq<char>>,
    pub client_ca_file: Option<Seq<char>>,
    pub read_only_port: Option<i32>,
    pub streaming_connection_idle_timeout: Option<i32>,
}

/// View of an optional string.
pub open spec fn opt_string_view(s: Option<String>) -> Option<Seq<char>> {
    match s {
        Some(x) => Some(x@),
        None => None,
    }
}

impl View for KubeletConfig {
    type V = KubeletConfigView;

    open spec fn view(&self) -> KubeletConfigView {
        KubeletConfigView {
            anonymous_auth_enabled: self.anonymous_auth_enabled,
            authorization_mode: opt_string_view(self.authorization_mode),
            client_ca_file: opt_string_view(self.client_ca_file),
            read_only_port: self.read_only_port,
            streaming_connection_idle_timeout: self.streaming_connection_idle_timeout,
        }
    }
}

/// The view of a configuration from which no field could be extracted.
pub open spec fn unparsed_view() -> KubeletConfigView {
    KubeletConfigView {
        anonymous_auth_enabled: None,
        authorization_mode: None,
        client_ca_file: None,
        read_only_port: None,
        streaming_connection_idle_timeout: None,
    }
}

impl KubeletConfig {
    /// A configuration from which no field could be extracted.
    pub fn unparsed() -> (r: KubeletConfig)
        ensures
            r@ == unparsed_view(),
    {
        KubeletConfig {
            anonymous_auth_enabled: None,
            authorization_mode: None,
            client_ca_file: None,
            read_only_port: None,
            streaming_connection_idle_timeout: None,
        }
    }
}

/// The fields the controls read from the document `doc`, each taken with
/// the shape its control expects.
pub open spec fn kubelet_fields(doc: YamlView) -> KubeletConfigView {
    let root = Some(doc);
    KubeletConfigView {
        anonymous_auth_enabled: spec_as_bool(
            spec_at(spec_at(spec_at(root, "authentication"@), "anonymous"@), "enabled"@),
        ),
        authorization_mode: spec_as_str(spec_at(spec_at(root, "authorization"@), "mode"@)),
        client_ca_file: spec_as_str(
            spec_at(spec_at(spec_at(root, "authentication"@), "x509"@), "clientCAFile"@),
        ),
        read_only_port: spec_as_i32(spec_at(root, "readOnlyPort"@)),
        streaming_connection_idle_timeout: spec_as_i32(
            spec_at(root, "streamingConnectionIdleTimeout"@),
        ),
    }
}

/// What [`parse_kubelet_config`] yields for `text`.
pub open spec fn spec_parse_kubelet_config(text: Seq<char>) -> KubeletConfigView {
    match yaml_doc(text) {
        None => unparsed_view(),
        Some(doc) => kubelet_fields(doc),
    }
}

pub open spec fn opt_ref_view(n: Option<&YamlNode>) -> Option<YamlView> {
    match n {
        Some(x) => Some(x.node_view()),
        None => None,
    }
}

/// `n` with any explicit tags taken off.
fn untag(n: &YamlNode) -> (r: &YamlNode)
    ensures
        r.node_view() == spec_untag(n.node_view()),
    decreases n,
{
    match n {
        YamlNode::Tagged(_, b) => untag(b),
        _ => n,
    }
}

/// The entry under `key` when `n` is a mapping that has one.
fn get<'a>(n: Option<&'a YamlNode>, key: &str) -> (r: Option<&'a YamlNode>)
    ensures
        opt_ref_view(r) == spec_at(opt_ref_view(n), key@),
{
    let node = match n {
        Some(x) => x,
        None => return None,
    };
    let key_string = String::from_str(key);
    let u = untag(node);
    match u {
        YamlNode::Mapping(entries) => {
            let ghost all = match u.node_view() {
                YamlView::Mapping(e) => e,
                _ => Seq::empty(),
            };
            assert(all.len() == entries@.len());
            assert(forall|j: int|
                0 <= j < entries@.len() ==> #[trigger] all[j] == (
                entries@[j].0.node_view(), entries@[j].1.node_view()));
            assert(all.subrange(0, all.len() as int) =~= all);
            let mut i: usize = 0;
            while i < entries.len()
                invariant
                    i <= entries@.len(),
                    key_string@ == key@,
                    all.len() == entries@.len(),
                    forall|j: int|
                        0 <= j < entries@.len() ==> #[trigger] all[j] == (
                        entries@[j].0.node_view(), entries@[j].1.node_view()),
                    opt_ref_view(n) == Some(node.node_view()),
                    spec_get(node.node_view(), key_string@) == spec_find(
                        all.subrange(i as int, all.len() as int),
                        key_string@,
                    ),
                decreases entries@.len() - i,
            {
                let ghost rest = all.subrange(i as int, all.len() as int);
                assert(rest.drop_first() =~= all.subrange(i + 1, all.len() as int));
                assert(rest[0] == all[i as int]);
                let matched = match &entries[i].0 {
                    YamlNode::Str(k) => *k == key_string,
                    _ => false,
                };
                if matched {
                    assert(rest[0].0 == YamlView::Str(key_string@));
                    assert(spec_find(rest, key_string@) == Some(all[i as int].1));
                    return Some(&entries[i].1);
                }
                i += 1;
            }
            None
        },
        _ => None,
    }
}

/// The boolean that `n` holds, if any.
fn as_bool(n: Option<&YamlNode>) -> (r: Option<bool>)
    ensures
        r == spec_as_bool(opt_ref_view(n)),
{
    match n {
        Some(x) => match untag(x) {
            YamlNode::Bool(b) => Some(*b),
            _ => None,
        },
        None => None,
    }
}

/// The string that `n` holds, if any.
fn as_str(n: Option<&YamlNode>) -> (r: Option<String>)
    ensures
        opt_string_view(r) == spec_as_str(opt_ref_view(n)),
{
    match n {
        Some(x) => match untag(x) {
            YamlNode::Str(s) => Some(s.clone()),
            _ => None,
        },
        None => None,
    }
}

/// The integer that `n` holds, if it is one that fits in an `i32`, as a
/// typed field of that width reads it.
fn as_i32(n: Option<&YamlNode>) -> (r: Option<i32>)
    ensures
        r == spec_as_i32(opt_ref_view(n)),
{
    match n {
        Some(x) => match untag(x) {
            YamlNode::Number(Some(v)) => {
                if i32::MIN as i64 <= *v && *v <= i32::MAX as i64 {
                    Some(*v as i32)
                } else {
                    None
                }
            },
            _ => None,
        },
        None => None,
    }
}

/// Reads the kubelet configuration `text` into the fields the controls need.
/// A text that is not a YAML document yields no field at all.
pub fn parse_kubelet_config(text: &str) -> (r: KubeletConfig)
    ensures
        r@ == spec_parse_kubelet_config(text@),
{
    match parse_yaml(text) {
        None => KubeletConfig::unparsed(),
        Some(doc) => {
            let root = Some(&doc);
            let authentication = get(root, "authentication");
            KubeletConfig {
                anonymous_auth_enabled: as_bool(get(get(authentication, "anonymous"), "enabled")),
                authorization_mode: as_str(get(get(root, "authorization"), "mode")),
                client_ca_file: as_str(get(get(authentication, "x509"), "clientCAFile")),
                read_only_port: as_i32(get(root, "readOnlyPort")),
                streaming_connection_idle_timeout: as_i32(
                    get(root, "streamingConnectionIdleTimeout"),
                ),
            }
        },
    }
}

/// A text that is not a YAML document yields none of the fields.
pub proof fn lemma_malformed_text_yields_no_fields(text: Seq<char>)
    requires
        yaml_doc(text).is_none(),
    ensures
        spec_parse_kubelet_config(text) == unparsed_view(),
{
}

} // verus!
