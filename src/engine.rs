use vstd::prelude::*;
use crate::checks::{
    Checker, HostSnapshot, K8S04010100Checker, K8S04010200Checker, K8S04010500Checker, K8S04010600Checker, K8S04010700Checker, K8S04010800Checker, K8S04010900Checker, K8S04011000Checker, K8S04020100Checker, K8S04020200Checker, K8S04020300Checker, K8S04020400Checker, K8S04020500Checker,
};
use crate::results::{CheckStatus, CheckerMetadata, CheckerResult, MetadataView, Mode, ResultView};

verus! {

/// One registered control, by kind. Adding a control adds a variant here and
/// an arm to each dispatch below; the engine itself is untouched.
pub enum Control {
    ServiceFileMode(K8S04010100Checker),
    ServiceFileOwner(K8S04010200Checker),
    KubeconfigMode(K8S04010500Checker),
    KubeconfigOwner(K8S04010600Checker),
    ClientCaMode(K8S04010700Checker),
    ClientCaOwner(K8S04010800Checker),
    ConfigFileMode(K8S04010900Checker),
    ConfigFileOwner(K8S04011000Checker),
    AnonymousAuth(K8S04020100Checker),
    AuthorizationMode(K8S04020200Checker),
    ClientCaFile(K8S04020300Checker),
    ReadOnlyPort(K8S04020400Checker),
    IdleTimeout(K8S04020500Checker),
}

impl Checker for Control {
    open spec fn spec_metadata(&self) -> MetadataView {
        match self {
            Control::ServiceFileMode(c) => c.spec_metadata(),
            Control::ServiceFileOwner(c) => c.spec_metadata(),
            Control::KubeconfigMode(c) => c.spec_metadata(),
            Control::KubeconfigOwner(c) => c.spec_metadata(),
            Control::ClientCaMode(c) => c.spec_metadata(),
            Control::ClientCaOwner(c) => c.spec_metadata(),
            Control::ConfigFileMode(c) => c.spec_metadata(),
            Control::ConfigFileOwner(c) => c.spec_metadata(),
            Control::AnonymousAuth(c) => c.spec_metadata(),
            Control::AuthorizationMode(c) => c.spec_metadata(),
            Control::ClientCaFile(c) => c.spec_metadata(),
            Control::ReadOnlyPort(c) => c.spec_metadata(),
            Control::IdleTimeout(c) => c.spec_metadata(),
        }
    }

    open spec fn spec_execute(&self, host: &HostSnapshot) -> ResultView {
        match self {
            Control::ServiceFileMode(c) => c.spec_execute(host),
            Control::ServiceFileOwner(c) => c.spec_execute(host),
            Control::KubeconfigMode(c) => c.spec_execute(host),
            Control::KubeconfigOwner(c) => c.spec_execute(host),
            Control::ClientCaMode(c) => c.spec_execute(host),
            Control::ClientCaOwner(c) => c.spec_execute(host),
            Control::ConfigFileMode(c) => c.spec_execute(host),
            Control::ConfigFileOwner(c) => c.spec_execute(host),
            Control::AnonymousAuth(c) => c.spec_execute(host),
            Control::AuthorizationMode(c) => c.spec_execute(host),
            Control::ClientCaFile(c) => c.spec_execute(host),
            Control::ReadOnlyPort(c) => c.spec_execute(host),
            Control::IdleTimeout(c) => c.spec_execute(host),
        }
    }

    fn execute(&self, host: &HostSnapshot) -> (r: CheckerResult) {
        match self {
            Control::ServiceFileMode(c) => c.execute(host),
            Control::ServiceFileOwner(c) => c.execute(host),
            Control::KubeconfigMode(c) => c.execute(host),
            Control::KubeconfigOwner(c) => c.execute(host),
            Control::ClientCaMode(c) => c.execute(host),
            Control::ClientCaOwner(c) => c.execute(host),
            Control::ConfigFileMode(c) => c.execute(host),
            Control::ConfigFileOwner(c) => c.execute(host),
            Control::AnonymousAuth(c) => c.execute(host),
            Control::AuthorizationMode(c) => c.execute(host),
            Control::ClientCaFile(c) => c.execute(host),
            Control::ReadOnlyPort(c) => c.execute(host),
            Control::IdleTimeout(c) => c.execute(host),
        }
    }

    fn metadata(&self) -> (r: CheckerMetadata) {
        match self {
            Control::ServiceFileMode(c) => c.metadata(),
            Control::ServiceFileOwner(c) => c.metadata(),
            Control::KubeconfigMode(c) => c.metadata(),
            Control::KubeconfigOwner(c) => c.metadata(),
            Control::ClientCaMode(c) => c.metadata(),
            Control::ClientCaOwner(c) => c.metadata(),
            Control::ConfigFileMode(c) => c.metadata(),
            Control::ConfigFileOwner(c) => c.metadata(),
            Control::AnonymousAuth(c) => c.metadata(),
            Control::AuthorizationMode(c) => c.metadata(),
            Control::ClientCaFile(c) => c.metadata(),
            Control::ReadOnlyPort(c) => c.metadata(),
            Control::IdleTimeout(c) => c.metadata(),
        }
    }
}

/// The catalog, in registration order.
pub open spec fn spec_registry() -> Seq<Control> {
    seq![
        Control::ServiceFileMode(K8S04010100Checker {}),
        Control::ServiceFileOwner(K8S04010200Checker {}),
        Control::KubeconfigMode(K8S04010500Checker {}),
        Control::KubeconfigOwner(K8S04010600Checker {}),
        Control::ClientCaMode(K8S04010700Checker {}),
        Control::ClientCaOwner(K8S04010800Checker {}),
        Control::ConfigFileMode(K8S04010900Checker {}),
        Control::ConfigFileOwner(K8S04011000Checker {}),
        Control::AnonymousAuth(K8S04020100Checker {}),
        Control::AuthorizationMode(K8S04020200Checker {}),
        Control::ClientCaFile(K8S04020300Checker {}),
        Control::ReadOnlyPort(K8S04020400Checker {}),
        Control::IdleTimeout(K8S04020500Checker {}),
    ]
}

/// Builds the catalog of every compiled-in control, in registration order.
pub fn registry() -> (r: Vec<Control>)
    ensures
        r@ == spec_registry(),
{
    let mut r: Vec<Control> = Vec::new();
    r.push(Control::ServiceFileMode(K8S04010100Checker {}));
    r.push(Control::ServiceFileOwner(K8S04010200Checker {}));
    r.push(Control::KubeconfigMode(K8S04010500Checker {}));
    r.push(Control::KubeconfigOwner(K8S04010600Checker {}));
    r.push(Control::ClientCaMode(K8S04010700Checker {}));
    r.push(Control::ClientCaOwner(K8S04010800Checker {}));
    r.push(Control::ConfigFileMode(K8S04010900Checker {}));
    r.push(Control::ConfigFileOwner(K8S04011000Checker {}));
    r.push(Control::AnonymousAuth(K8S04020100Checker {}));
    r.push(Control::AuthorizationMode(K8S04020200Checker {}));
    r.push(Control::ClientCaFile(K8S04020300Checker {}));
    r.push(Control::ReadOnlyPort(K8S04020400Checker {}));
    r.push(Control::IdleTimeout(K8S04020500Checker {}));
    assert(r@ =~= spec_registry());
    r
}

/// Which controls a run evaluates. Each present criterion must hold.
#[derive(Debug)]
pub struct Selection {
    /// Only controls whose level is at most this.
    pub max_level: Option<u8>,
    /// Only controls of this mode.
    pub mode: Option<Mode>,
    /// Only controls whose id or name is in this list.
    pub ids: Option<Vec<String>>,
}

impl Selection {
    /// A selection that admits every control.
    pub fn all() -> (r: Selection)
        ensures
            r.max_level.is_none(),
            r.mode.is_none(),
            r.ids.is_none(),
    {
        Selection { max_level: None, mode: None, ids: None }
    }

    /// Whether `md` is admitted by this selection.
    pub open spec fn spec_selects(&self, md: MetadataView) -> bool {
        &&& (match self.max_level {
            Some(n) => md.level <= n,
            None => true,
        })
        &&& (match self.mode {
            Some(m) => md.mode == m,
            None => true,
        })
        &&& (match self.ids {
            Some(v) => names_control(v@, md),
            None => true,
        })
    }

    /// Decides whether `md` is admitted by this selection.
    pub fn selects(&self, md: &CheckerMetadata) -> (r: bool)
        ensures
            r == self.spec_selects(md@),
    {
        if let Some(n) = self.max_level {
            if md.level > n {
                return false;
            }
        }
        if let Some(m) = self.mode {
            if md.mode != m {
                return false;
            }
        }
        match &self.ids {
            None => true,
            Some(v) => lists(v, md),
        }
    }
}

/// Whether `ids` names the control `md`, by id or by name.
pub open spec fn names_control(ids: Seq<String>, md: MetadataView) -> bool {
    exists|k: int| 0 <= k < ids.len() && (ids[k]@ == md.id || ids[k]@ == md.name)
}

/// Decides whether `ids` names the control `md`, by id or by name.
fn lists(ids: &Vec<String>, md: &CheckerMetadata) -> (r: bool)
    ensures
        r == names_control(ids@, md@),
{
    let mut k: usize = 0;
    while k < ids.len()
        invariant
            k <= ids@.len(),
            forall|j: int| 0 <= j < k ==> !(ids@[j]@ == md.id@ || ids@[j]@ == md.name@),
        decreases ids@.len() - k,
    {
        if ids[k] == md.id || ids[k] == md.name {
            assert(ids@[k as int]@ == md.id@ || ids@[k as int]@ == md.name@);
            return true;
        }
        k += 1;
    }
    false
}

/// One line of a report: a control's descriptor and what it produced.
#[derive(Debug)]
pub struct ReportEntry {
    pub metadata: CheckerMetadata,
    pub result: CheckerResult,
}

/// Mathematical view of [`ReportEntry`].
pub struct EntryView {
    pub metadata: MetadataView,
    pub result: ResultView,
}

impl View for ReportEntry {
    type V = EntryView;

    open spec fn view(&self) -> EntryView {
        EntryView { metadata: self.metadata@, result: self.result@ }
    }
}

/// The entries that a run over `controls` records, in registration order:
/// one for each control that `selection` admits.
pub open spec fn spec_run(controls: Seq<Control>, selection: Selection, host: HostSnapshot) -> Seq<
    EntryView,
>
    decreases controls.len(),
{
    if controls.len() == 0 {
        Seq::empty()
    } else {
        let before = spec_run(controls.drop_last(), selection, host);
        let c = controls.last();
        if selection.spec_selects(c.spec_metadata()) {
            before.push(EntryView { metadata: c.spec_metadata(), result: c.spec_execute(&host) })
        } else {
            before
        }
    }
}

/// How many of `entries` have status `status`.
pub open spec fn spec_count(entries: Seq<EntryView>, status: CheckStatus) -> nat
    decreases entries.len(),
{
    if entries.len() == 0 {
        0
    } else {
        spec_count(entries.drop_last(), status) + if entries.last().result.status == status {
            1nat
        } else {
            0nat
        }
    }
}

/// Number of results of each status in a report.
#[derive(Clone, Copy, Debug, PartialEq, Eq, Structural)]
pub struct StatusCounts {
    pub pass: usize,
    pub fail: usize,
    pub skip: usize,
    pub warn: usize,
}

/// The outcome of one run: the entries in order and their tally.
#[derive(Debug)]
pub struct Report {
    pub entries: Vec<ReportEntry>,
    pub counts: StatusCounts,
}

/// Mathematical view of [`Report`].
pub struct ReportView {
    pub entries: Seq<EntryView>,
    pub counts: StatusCounts,
}

impl View for Report {
    type V = ReportView;

    open spec fn view(&self) -> ReportView {
        ReportView { entries: self.entries@.map_values(|e: ReportEntry| e@), counts: self.counts }
    }
}

/// The report that a run over `controls` produces on `host`.
pub open spec fn spec_report(controls: Seq<Control>, selection: Selection, host: HostSnapshot) -> ReportView {
    let entries = spec_run(controls, selection, host);
    ReportView {
        entries,
        counts: StatusCounts {
            pass: spec_count(entries, CheckStatus::PASS) as usize,
            fail: spec_count(entries, CheckStatus::FAIL) as usize,
            skip: spec_count(entries, CheckStatus::SKIP) as usize,
            warn: spec_count(entries, CheckStatus::WARN) as usize,
        },
    }
}

proof fn lemma_count_bounded(entries: Seq<EntryView>, status: CheckStatus)
    ensures
        spec_count(entries, status) <= entries.len(),
    decreases entries.len(),
{
    if entries.len() > 0 {
        lemma_count_bounded(entries.drop_last(), status);
    }
}

/// Tallies `entries` by status.
pub fn tally(entries: &Vec<ReportEntry>) -> (r: StatusCounts)
    ensures
        r.pass == spec_count(entries@.map_values(|e: ReportEntry| e@), CheckStatus::PASS),
        r.fail == spec_count(entries@.map_values(|e: ReportEntry| e@), CheckStatus::FAIL),
        r.skip == spec_count(entries@.map_values(|e: ReportEntry| e@), CheckStatus::SKIP),
        r.warn == spec_count(entries@.map_values(|e: ReportEntry| e@), CheckStatus::WARN),
{
    let ghost all = entries@.map_values(|e: ReportEntry| e@);
    let mut r = StatusCounts { pass: 0, fail: 0, skip: 0, warn: 0 };
    let mut i: usize = 0;
    while i < entries.len()
        invariant
            i <= entries@.len(),
            all == entries@.map_values(|e: ReportEntry| e@),
            r.pass == spec_count(all.subrange(0, i as int), CheckStatus::PASS),
            r.fail == spec_count(all.subrange(0, i as int), CheckStatus::FAIL),
            r.skip == spec_count(all.subrange(0, i as int), CheckStatus::SKIP),
            r.warn == spec_count(all.subrange(0, i as int), CheckStatus::WARN),
        decreases entries@.len() - i,
    {
        let ghost next = all.subrange(0, i + 1);
        proof {
            assert(next.drop_last() =~= all.subrange(0, i as int));
            lemma_count_bounded(all.subrange(0, i as int), CheckStatus::PASS);
            lemma_count_bounded(all.subrange(0, i as int), CheckStatus::FAIL);
            lemma_count_bounded(all.subrange(0, i as int), CheckStatus::SKIP);
            lemma_count_bounded(all.subrange(0, i as int), CheckStatus::WARN);
        }
        match entries[i].result.status {
            CheckStatus::PASS => r.pass = r.pass + 1,
            CheckStatus::FAIL => r.fail = r.fail + 1,
            CheckStatus::SKIP => r.skip = r.skip + 1,
            CheckStatus::WARN => r.warn = r.warn + 1,
        }
        i += 1;
    }
    assert(all.subrange(0, entries@.len() as int) =~= all);
    r
}

/// Runs every control of `controls` that `selection` admits against `host`,
/// in registration order, and tallies the results.
///
/// No control can fault here: each `execute` is verified to return a result
/// on every snapshot, so there is no fault to catch and turn into a failure.
/// Host I/O, the only thing that could fail at run time, happens before the
/// run, while the snapshot is taken, and shows up as a failing result.
pub fn run(controls: &Vec<Control>, selection: &Selection, host: &HostSnapshot) -> (r: Report)
    ensures
        r@ == spec_report(controls@, *selection, *host),
        forall|k: int| 0 <= k < r@.entries.len() ==> (#[trigger] r@.entries[k]).result.wf(),
{
    let mut entries: Vec<ReportEntry> = Vec::new();
    let mut i: usize = 0;
    while i < controls.len()
        invariant
            i <= controls@.len(),
            entries@.map_values(|e: ReportEntry| e@) == spec_run(
                controls@.subrange(0, i as int),
                *selection,
                *host,
            ),
            forall|k: int| 0 <= k < entries@.len() ==> (#[trigger] entries@[k]).result@.wf(),
        decreases controls@.len() - i,
    {
        let c = &controls[i];
        let md = c.metadata();
        proof {
            assert(controls@.subrange(0, i + 1).drop_last() =~= controls@.subrange(0, i as int));
        }
        if selection.selects(&md) {
            let res = c.execute(host);
            let ghost before = entries@;
            entries.push(ReportEntry { metadata: md, result: res });
            proof {
                assert(entries@.map_values(|e: ReportEntry| e@) =~= before.map_values(
                    |e: ReportEntry| e@,
                ).push(EntryView { metadata: md@, result: res@ }));
            }
        }
        i += 1;
    }
    assert(controls@.subrange(0, controls@.len() as int) =~= controls@);
    let counts = tally(&entries);
    Report { entries, counts }
}

/// Every control of the catalog has a non-empty id and a non-empty name,
/// and no two controls share an id or a name.
pub proof fn lemma_registry_ids_unique()
    ensures
        forall|i: int|
            0 <= i < spec_registry().len() ==> {
                &&& (#[trigger] spec_registry()[i]).spec_metadata().id.len() > 0
                &&& spec_registry()[i].spec_metadata().name.len() > 0
            },
        forall|i: int, j: int|
            0 <= i < spec_registry().len() && 0 <= j < spec_registry().len() && i != j ==> {
                &&& (#[trigger] spec_registry()[i]).spec_metadata().id != (
                #[trigger] spec_registry()[j]).spec_metadata().id
                &&& spec_registry()[i].spec_metadata().name != spec_registry()[j].spec_metadata().name
            },
{
    reveal_strlit("4.1.1");
    reveal_strlit("4.1.2");
    reveal_strlit("4.1.5");
    reveal_strlit("4.1.6");
    reveal_strlit("4.1.7");
    reveal_strlit("4.1.8");
    reveal_strlit("4.1.9");
    reveal_strlit("4.1.10");
    reveal_strlit("4.2.1");
    reveal_strlit("4.2.2");
    reveal_strlit("4.2.3");
    reveal_strlit("4.2.4");
    reveal_strlit("4.2.5");
    reveal_strlit("k8s04010100");
    reveal_strlit("k8s04010200");
    reveal_strlit("k8s04010500");
    reveal_strlit("k8s04010600");
    reveal_strlit("k8s04010700");
    reveal_strlit("k8s04010800");
    reveal_strlit("k8s04010900");
    reveal_strlit("k8s04011000");
    reveal_strlit("k8s04020100");
    reveal_strlit("k8s04020200");
    reveal_strlit("k8s04020300");
    reveal_strlit("k8s04020400");
    reveal_strlit("k8s04020500");
    assert(spec_registry().len() == 13);
    assert forall|i: int, j: int|
        0 <= i < spec_registry().len() && 0 <= j < spec_registry().len() && i != j implies {
            &&& (#[trigger] spec_registry()[i]).spec_metadata().id != (
            #[trigger] spec_registry()[j]).spec_metadata().id
            &&& spec_registry()[i].spec_metadata().name != spec_registry()[j].spec_metadata().name
        } by {
        assert(i == 0 || i == 1 || i == 2 || i == 3 || i == 4 || i == 5 || i == 6
            || i == 7 || i == 8 || i == 9 || i == 10 || i == 11 || i == 12);
        assert(j == 0 || j == 1 || j == 2 || j == 3 || j == 4 || j == 5 || j == 6
            || j == 7 || j == 8 || j == 9 || j == 10 || j == 11 || j == 12);
        let a = spec_registry()[i].spec_metadata();
        let b = spec_registry()[j].spec_metadata();
        assert(a.id.len() != b.id.len() || a.id[2] != b.id[2] || a.id[4] != b.id[4]);
        assert(a.name[6] != b.name[6] || a.name[7] != b.name[7] || a.name[8] != b.name[8]);
    }
}

/// Two runs over the same controls, selection and host state record the same
/// controls with the same statuses, in the same order.
pub proof fn lemma_runs_agree(
    controls: Seq<Control>,
    selection: Selection,
    host: HostSnapshot,
    first: ReportView,
    second: ReportView,
)
    requires
        first == spec_report(controls, selection, host),
        second == spec_report(controls, selection, host),
    ensures
        first.entries.len() == second.entries.len(),
        forall|k: int|
            0 <= k < first.entries.len() ==> {
                &&& (#[trigger] first.entries[k]).metadata.id == second.entries[k].metadata.id
                &&& first.entries[k].result.status == second.entries[k].result.status
            },
        first.counts == second.counts,
{
}

/// Every control that a run records is admitted by the selection: with a
/// level bound, none above it; with a mode, none of another mode.
pub proof fn lemma_run_respects_selection(
    controls: Seq<Control>,
    selection: Selection,
    host: HostSnapshot,
)
    ensures
        forall|k: int|
            0 <= k < spec_run(controls, selection, host).len() ==> {
                let md = (#[trigger] spec_run(controls, selection, host)[k]).metadata;
                &&& selection.spec_selects(md)
                &&& (selection.max_level matches Some(n) ==> md.level <= n)
                &&& (selection.mode == Some(Mode::Automatic) ==> md.mode != Mode::Manual)
            },
    decreases controls.len(),
{
    if controls.len() > 0 {
        lemma_run_respects_selection(controls.drop_last(), selection, host);
    }
}

/// Controls do not influence one another: running two lists of controls
/// together records exactly what running each list alone records, one after
/// the other. In particular a control's result does not depend on which
/// other controls ran before or after it.
pub proof fn lemma_run_splits(
    before: Seq<Control>,
    after: Seq<Control>,
    selection: Selection,
    host: HostSnapshot,
)
    ensures
        spec_run(before + after, selection, host) == spec_run(before, selection, host) + spec_run(
            after,
            selection,
            host,
        ),
    decreases after.len(),
{
    if after.len() == 0 {
        assert(before + after =~= before);
        assert(spec_run(before, selection, host) + spec_run(after, selection, host) =~= spec_run(
            before,
            selection,
            host,
        ));
    } else {
        lemma_run_splits(before, after.drop_last(), selection, host);
        assert((before + after).drop_last() =~= before + after.drop_last());
        assert((before + after).last() == after.last());
        let c = after.last();
        if selection.spec_selects(c.spec_metadata()) {
            assert(spec_run(before, selection, host) + spec_run(after, selection, host)
                =~= (spec_run(before, selection, host) + spec_run(after.drop_last(), selection, host)).push(
                EntryView { metadata: c.spec_metadata(), result: c.spec_execute(&host) },
            ));
        }
    }
}

} // verus!
