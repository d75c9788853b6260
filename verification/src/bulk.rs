//! The deployment to many devices: its form, its start, and how far it is.
use vstd::hash_map::StringHashMap;
use vstd::prelude::*;
use vstd::string::*;
use crate::app::{no_action, Action, App};
use crate::deploy::{
    filled_in, is_filled_in, is_finished, sketch_dir_for, sketch_dir_of,
};
use crate::model::{nothing, ActionView, AppView};
use crate::number::{decimal, to_decimal};
use crate::text::{lemma_views_push, same, trim, trimmed, views};
use crate::types::{
    lemma_map_views_insert, map_views, BuildView, BulkDeployState, BulkView, DeployPhase, Device,
    DeviceBulkDeploy, DeviceBulkView, DeviceView, LogLevel, PhaseView, SketchBuildState,
};
use crate::version::{bump_patch, bumped, can_bump, can_bump_patch};

verus! {

/// A deployment in this phase is over, well or badly.
pub open spec fn is_over(phase: PhaseView) -> bool {
    phase is Done || phase is Failed
}

/// A deployment in this phase is neither over nor waiting for its device.
pub open spec fn is_in_progress(phase: PhaseView) -> bool {
    !is_over(phase) && !(phase is Waiting)
}

/// All devices are through.
pub open spec fn all_over(devices: Seq<DeviceBulkView>) -> bool {
    forall|i: int| 0 <= i < devices.len() ==> is_over((#[trigger] devices[i]).phase)
}

/// A bulk deployment was started and not all of its devices are through.
pub open spec fn bulk_is_active(m: AppView) -> bool {
    m.bulk_deploy matches Some(b) && !b.show_form && !all_over(b.devices)
}

/// How many devices are in a phase of a kind.
pub open spec fn count(devices: Seq<DeviceBulkView>, kind: spec_fn(PhaseView) -> bool) -> nat
    decreases devices.len(),
{
    if devices.len() == 0 {
        0
    } else {
        count(devices.drop_last(), kind) + if kind(devices.last().phase) {
            1nat
        } else {
            0nat
        }
    }
}

/// The devices that are selected, in the order of the fleet.
pub open spec fn chosen(m: AppView) -> Seq<DeviceView> {
    m.fleet.devices.filter(|d: DeviceView| m.selected.contains(d.id))
}

/// A device as it stands before a bulk deployment.
pub open spec fn queued(root: Seq<char>, d: DeviceView) -> DeviceBulkView {
    DeviceBulkView {
        device_id: d.id,
        device_name: d.name,
        sketch_dir: sketch_dir_of(root, d),
        phase: PhaseView::Form,
        log: Seq::empty(),
    }
}

/// The version that is suggested for a bulk deployment whose first device is `d`.
pub open spec fn suggested_version(d: DeviceView) -> Seq<char> {
    if d.desired_version.len() == 0 {
        "1.0.0"@
    } else {
        bumped(d.desired_version)
    }
}

/// The form of a bulk deployment can be opened: devices are selected, and no other is active.
pub open spec fn can_open_bulk(m: AppView) -> bool {
    chosen(m).len() > 0 && !bulk_is_active(m)
}

/// The state after the form of a bulk deployment was asked for.
pub open spec fn bulk_opened(m: AppView) -> AppView {
    if can_open_bulk(m) {
        AppView {
            bulk_deploy: Some(
                BulkView {
                    deployer_name: Seq::empty(),
                    new_version: suggested_version(chosen(m)[0]),
                    devices: chosen(m).map_values(
                        |d: DeviceView| queued(m.config.sketch_root, d),
                    ),
                    sketch_builds: Map::empty(),
                    form_deployer: Seq::empty(),
                    form_version: suggested_version(chosen(m)[0]),
                    show_form: true,
                },
            ),
            ..m
        }
    } else {
        m
    }
}

/// The folders of the sketches, each once, in the order in which they first occur.
pub open spec fn distinct_sketches(devices: Seq<DeviceBulkView>) -> Seq<Seq<char>>
    decreases devices.len(),
{
    if devices.len() == 0 {
        Seq::empty()
    } else {
        let before = distinct_sketches(devices.drop_last());
        if before.contains(devices.last().sketch_dir) {
            before
        } else {
            before.push(devices.last().sketch_dir)
        }
    }
}

/// The builds after those of `sketches` were started.
pub open spec fn builds_started(
    builds: Map<Seq<char>, BuildView>,
    sketches: Seq<Seq<char>>,
) -> Map<Seq<char>, BuildView> {
    Map::new(
        |k: Seq<char>| builds.contains_key(k) || sketches.contains(k),
        |k: Seq<char>|
            if sketches.contains(k) {
                BuildView::Compiling
            } else {
                builds[k]
            },
    )
}

/// The devices, all of them in the phase of being compiled for.
pub open spec fn all_compiling(devices: Seq<DeviceBulkView>) -> Seq<DeviceBulkView> {
    devices.map_values(|d: DeviceBulkView| DeviceBulkView { phase: PhaseView::Compiling, ..d })
}

/// The bulk deployment begins: each sketch is compiled once.
pub open spec fn bulk_started(m: AppView) -> (AppView, Seq<ActionView>) {
    match m.bulk_deploy {
        Some(b) => if is_filled_in(b.deployer_name, b.new_version) {
            let sketches = distinct_sketches(b.devices);
            (
                AppView {
                    bulk_deploy: Some(
                        BulkView {
                            show_form: false,
                            sketch_builds: builds_started(b.sketch_builds, sketches),
                            devices: all_compiling(b.devices),
                            ..b
                        },
                    ),
                    ..m
                },
                sketches.map_values(
                    |dir: Seq<char>|
                        ActionView::BulkCompile {
                            sketch_dir: dir,
                            version: b.new_version,
                            fqbn: m.config.fqbn,
                        },
                ),
            )
        } else {
            (m, nothing())
        },
        None => (m, nothing()),
    }
}

/// The form of a bulk deployment is open: nothing was started.
pub open spec fn in_bulk_form(m: AppView) -> bool {
    m.bulk_deploy matches Some(b) && b.show_form
}

/// The state after the form of the bulk deployment was edited.
pub open spec fn bulk_edited(m: AppView, deployer: Seq<char>, version: Seq<char>) -> AppView {
    if in_bulk_form(m) {
        AppView {
            bulk_deploy: Some(
                BulkView {
                    form_deployer: deployer,
                    form_version: version,
                    ..m.bulk_deploy->0
                },
            ),
            ..m
        }
    } else {
        m
    }
}

/// The state after what the form holds was taken over, without white space at its ends.
pub open spec fn form_taken(m: AppView) -> AppView {
    AppView {
        bulk_deploy: Some(
            BulkView {
                deployer_name: trimmed(m.bulk_deploy->0.form_deployer),
                new_version: trimmed(m.bulk_deploy->0.form_version),
                ..m.bulk_deploy->0
            },
        ),
        ..m
    }
}

/// The form of the bulk deployment was sent off: what it holds is taken over, and the deployment
/// begins.
pub open spec fn bulk_submitted(m: AppView) -> (AppView, Seq<ActionView>) {
    if in_bulk_form(m) {
        bulk_started(form_taken(m))
    } else {
        (m, nothing())
    }
}

/// How far a bulk deployment is.
#[derive(Debug, Clone, Copy, PartialEq, Eq, Structural)]
pub struct BulkSummary {
    /// The devices that confirmed their version.
    pub done: usize,
    /// The devices that are being compiled, uploaded or triggered for, or have yet to be.
    pub in_progress: usize,
    /// The devices that failed.
    pub failed: usize,
    /// The devices that were told of their firmware and have yet to confirm it.
    pub waiting: usize,
}

/// Sums up how far a bulk deployment is.
pub fn bulk_summary(devices: &Vec<DeviceBulkDeploy>) -> (r: BulkSummary)
    ensures
        r.done == count(views(devices@), |p: PhaseView| p is Done),
        r.failed == count(views(devices@), |p: PhaseView| p is Failed),
        r.waiting == count(views(devices@), |p: PhaseView| p is Waiting),
        r.in_progress == count(views(devices@), |p: PhaseView| is_in_progress(p)),
        r.done + r.in_progress + r.failed + r.waiting == devices@.len(),
{
    let ghost all = views(devices@);
    let mut done: usize = 0;
    let mut failed: usize = 0;
    let mut waiting: usize = 0;
    let mut i: usize = 0;
    let n: usize = devices.len();
    while i < n
        invariant
            i <= n,
            n == devices@.len(),
            all == views(devices@),
            done == count(all.take(i as int), |p: PhaseView| p is Done),
            failed == count(all.take(i as int), |p: PhaseView| p is Failed),
            waiting == count(all.take(i as int), |p: PhaseView| p is Waiting),
            i - done - failed - waiting == count(
                all.take(i as int),
                |p: PhaseView| is_in_progress(p),
            ),
            done + failed + waiting <= i,
        decreases n - i,
    {
        assert(all.take(i + 1).drop_last() =~= all.take(i as int));
        assert(all.take(i + 1).last() == devices@[i as int]@);
        match &devices[i].phase {
            DeployPhase::Done => {
                done = done + 1;
            },
            DeployPhase::Failed(_) => {
                failed = failed + 1;
            },
            DeployPhase::Waiting => {
                waiting = waiting + 1;
            },
            _ => {},
        }
        i = i + 1;
    }
    assert(all.take(n as int) =~= all);
    BulkSummary { done, in_progress: n - done - failed - waiting, failed, waiting }
}

/// Tells whether all devices of a bulk deployment are through.
pub fn all_finished(devices: &Vec<DeviceBulkDeploy>) -> (r: bool)
    ensures
        r == all_over(views(devices@)),
{
    let mut i: usize = 0;
    while i < devices.len()
        invariant
            i <= devices@.len(),
            forall|k: int| 0 <= k < i ==> is_over(views(devices@)[k].phase),
        decreases devices.len() - i,
    {
        assert(views(devices@)[i as int] == devices@[i as int]@);
        if !is_finished(&devices[i].phase) {
            return false;
        }
        i = i + 1;
    }
    true
}

/// The folders of the sketches, each once.
pub fn sketches(devices: &Vec<DeviceBulkDeploy>) -> (r: Vec<String>)
    ensures
        views(r@) == distinct_sketches(views(devices@)),
{
    broadcast use lemma_views_push;

    let ghost all = views(devices@);
    let mut r: Vec<String> = Vec::new();
    assert(views(r@) =~= Seq::<Seq<char>>::empty());
    let mut i: usize = 0;
    while i < devices.len()
        invariant
            i <= devices@.len(),
            all == views(devices@),
            views(r@) == distinct_sketches(all.take(i as int)),
        decreases devices.len() - i,
    {
        assert(all.take(i + 1).drop_last() =~= all.take(i as int));
        assert(all.take(i + 1).last() == devices@[i as int]@);
        if !holds(&r, &devices[i].sketch_dir) {
            r.push(devices[i].sketch_dir.clone());
        }
        i = i + 1;
    }
    assert(all.take(devices@.len() as int) =~= all);
    r
}

fn holds(v: &Vec<String>, s: &str) -> (r: bool)
    ensures
        r == views(v@).contains(s@),
{
    let mut i: usize = 0;
    while i < v.len()
        invariant
            i <= v@.len(),
            forall|k: int| 0 <= k < i ==> views(v@)[k] != s@,
        decreases v.len() - i,
    {
        assert(views(v@)[i as int] == v@[i as int]@);
        if same(&v[i], s) {
            return true;
        }
        i = i + 1;
    }
    false
}

/// What a phase is called in the list of a bulk deployment.
pub open spec fn phase_name(phase: PhaseView) -> Seq<char> {
    match phase {
        PhaseView::Form => "Queued"@,
        PhaseView::Compiling => "Compiling…"@,
        PhaseView::Uploading => "Uploading…"@,
        PhaseView::Publishing => "Sending OTA…"@,
        PhaseView::Waiting => "Waiting…"@,
        PhaseView::Done => "Done ✓"@,
        PhaseView::Failed(_) => "Failed ✗"@,
    }
}

/// How much of its way a device has behind it in a phase, in percent.
pub open spec fn phase_progress(phase: PhaseView) -> u8 {
    match phase {
        PhaseView::Form => 0,
        PhaseView::Compiling => 20,
        PhaseView::Uploading => 45,
        PhaseView::Publishing => 70,
        PhaseView::Waiting => 85,
        PhaseView::Done => 100,
        PhaseView::Failed(_) => 0,
    }
}

/// What a phase is called in the list of a bulk deployment.
pub fn phase_label(phase: &DeployPhase) -> (r: &'static str)
    ensures
        r@ == phase_name(phase@),
{
    match phase {
        DeployPhase::Form => "Queued",
        DeployPhase::Compiling => "Compiling…",
        DeployPhase::Uploading => "Uploading…",
        DeployPhase::Publishing => "Sending OTA…",
        DeployPhase::Waiting => "Waiting…",
        DeployPhase::Done => "Done ✓",
        DeployPhase::Failed(_) => "Failed ✗",
    }
}

/// How much of its way a device has behind it in a phase, in percent.
pub fn phase_percent(phase: &DeployPhase) -> (r: u8)
    ensures
        r == phase_progress(phase@),
{
    match phase {
        DeployPhase::Form => 0,
        DeployPhase::Compiling => 20,
        DeployPhase::Uploading => 45,
        DeployPhase::Publishing => 70,
        DeployPhase::Waiting => 85,
        DeployPhase::Done => 100,
        DeployPhase::Failed(_) => 0,
    }
}

impl App {
    /// Tells whether a bulk deployment is active.
    pub fn is_bulk_active(&self) -> (r: bool)
        ensures
            r == bulk_is_active(self@),
    {
        match &self.bulk_deploy {
            Some(b) => !b.show_form && !all_finished(&b.devices),
            None => false,
        }
    }

    fn shows_bulk_form(&self) -> (r: bool)
        ensures
            r == in_bulk_form(self@),
    {
        match &self.bulk_deploy {
            Some(b) => b.show_form,
            None => false,
        }
    }

    /// The devices that are selected.
    pub fn selected_devices(&self) -> (r: Vec<Device>)
        ensures
            views(r@) == chosen(self@),
    {
        broadcast use lemma_views_push;

        let ghost pred = |d: DeviceView| self@.selected.contains(d.id);
        let ghost all = views(self.fleet.devices@);
        let mut r: Vec<Device> = Vec::new();
        proof {
            reveal(Seq::filter);
            assert(views(r@) =~= all.take(0).filter(pred));
        }
        let mut i: usize = 0;
        while i < self.fleet.devices.len()
            invariant
                i <= self.fleet.devices@.len(),
                all == views(self.fleet.devices@),
                pred == (|d: DeviceView| self@.selected.contains(d.id)),
                views(r@) == all.take(i as int).filter(pred),
            decreases self.fleet.devices.len() - i,
        {
            proof {
                reveal(Seq::filter);
                assert(all.take(i + 1).drop_last() =~= all.take(i as int));
                assert(all.take(i + 1).last() == self.fleet.devices@[i as int]@);
            }
            if self.selected.contains(&self.fleet.devices[i].id) {
                r.push(self.fleet.devices[i].clone());
            }
            i = i + 1;
        }
        assert(all.take(all.len() as int) =~= all);
        r
    }

    /// Tells whether there is a version after the one that the first selected device has.
    pub fn has_next_bulk_version(&self) -> (r: bool)
        ensures
            r == (chosen(self@).len() > 0 ==> can_bump(chosen(self@)[0].desired_version)),
    {
        let devices: Vec<Device> = self.selected_devices();
        if devices.len() == 0 {
            return true;
        }
        assert(views(devices@)[0] == devices@[0]@);
        can_bump_patch(&devices[0].desired_version)
    }

    /// The button that asks for a bulk deployment, which is there once a device is selected.
    pub fn bulk_button(&self) -> (r: Option<String>)
        ensures
            match r {
                Some(label) => self@.selected.len() > 0 && label@ == "Deploy "@ + decimal(
                    self@.selected.len(),
                ) + " devices"@,
                None => self@.selected.len() == 0,
            },
    {
        let n: usize = self.selected.len();
        if n == 0 {
            None
        } else {
            Some("Deploy ".to_owned().concat(to_decimal(n as u64).as_str()).concat(" devices"))
        }
    }

    /// Opens the form of a bulk deployment to the selected devices.
    pub fn open_bulk_deploy_form(&mut self)
        requires
            can_open_bulk(old(self)@) && chosen(old(self)@)[0].desired_version.len() > 0
                ==> can_bump(chosen(old(self)@)[0].desired_version),
        ensures
            final(self)@ == bulk_opened(old(self)@),
    {
        broadcast use lemma_views_push;

        let devices: Vec<Device> = self.selected_devices();
        if devices.len() == 0 || self.is_bulk_active() {
            return;
        }
        assert(views(devices@)[0] == devices@[0]@);
        let suggested: String = if devices[0].desired_version.as_str().is_empty() {
            "1.0.0".to_owned()
        } else {
            bump_patch(&devices[0].desired_version)
        };
        let ghost root = self.config.sketch_root@;
        let ghost expected = views(devices@).map_values(|d: DeviceView| queued(root, d));
        let mut entries: Vec<DeviceBulkDeploy> = Vec::new();
        assert(views(entries@) =~= expected.take(0));
        let mut i: usize = 0;
        while i < devices.len()
            invariant
                i <= devices@.len(),
                root == self.config.sketch_root@,
                expected == views(devices@).map_values(|d: DeviceView| queued(root, d)),
                views(entries@) == expected.take(i as int),
            decreases devices.len() - i,
        {
            let log: Vec<(String, LogLevel)> = Vec::new();
            assert(views(log@) =~= Seq::<(Seq<char>, LogLevel)>::empty());
            entries.push(
                DeviceBulkDeploy {
                    device_id: devices[i].id.clone(),
                    device_name: devices[i].name.clone(),
                    sketch_dir: sketch_dir_for(&self.config.sketch_root, &devices[i]),
                    phase: DeployPhase::Form,
                    log,
                },
            );
            assert(expected[i as int] == queued(root, devices@[i as int]@));
            assert(expected.take(i + 1) =~= expected.take(i as int).push(expected[i as int]));
            i = i + 1;
        }
        assert(expected.take(devices@.len() as int) =~= expected);
        let builds: StringHashMap<SketchBuildState> = StringHashMap::new();
        assert(map_views(builds@) =~= Map::<Seq<char>, BuildView>::empty());
        self.bulk_deploy = Some(
            BulkDeployState {
                deployer_name: String::new(),
                new_version: suggested.clone(),
                devices: entries,
                sketch_builds: builds,
                form_deployer: String::new(),
                form_version: suggested,
                show_form: true,
            },
        );
        assert(self@ =~= bulk_opened(old(self)@));
    }

    /// Takes over what the form of the bulk deployment holds.
    pub fn edit_bulk_form(&mut self, deployer: String, version: String)
        ensures
            final(self)@ == bulk_edited(old(self)@, deployer@, version@),
    {
        if let Some(b) = &mut self.bulk_deploy {
            if b.show_form {
                b.form_deployer = deployer;
                b.form_version = version;
            }
        }
        assert(self@ =~= bulk_edited(old(self)@, deployer@, version@));
    }

    /// Starts the bulk deployment by what its form holds.
    pub fn submit_bulk_form(&mut self) -> (r: Vec<Action>)
        ensures
            (final(self)@, views(r@)) == bulk_submitted(old(self)@),
    {
        if !self.shows_bulk_form() {
            return no_action();
        }
        if let Some(b) = &mut self.bulk_deploy {
            b.deployer_name = trim(&b.form_deployer);
            b.new_version = trim(&b.form_version);
        }
        assert(self@ =~= form_taken(old(self)@));
        self.start_bulk_deploy()
    }

    /// Starts the bulk deployment.
    pub fn start_bulk_deploy(&mut self) -> (r: Vec<Action>)
        ensures
            (final(self)@, views(r@)) == bulk_started(old(self)@),
    {
        broadcast use {lemma_views_push, lemma_map_views_insert};

        let ghost m = old(self)@;
        if let Some(b) = &mut self.bulk_deploy {
            if filled_in(&b.deployer_name, &b.new_version) {
                let ghost view = b@;
                let dirs: Vec<String> = sketches(&b.devices);
                let ghost names = views(dirs@);
                let mut r: Vec<Action> = no_action();
                b.show_form = false;
                let ghost expected = bulk_started(m).1;
                assert(views(r@) =~= expected.take(0));
                assert(map_views(b.sketch_builds@) =~= builds_started(
                    view.sketch_builds,
                    names.take(0),
                ));
                let mut i: usize = 0;
                let fqbn: &String = &self.config.fqbn;
                while i < dirs.len()
                    invariant
                        i <= dirs@.len(),
                        names == views(dirs@),
                        m.bulk_deploy == Some(view),
                        fqbn@ == m.config.fqbn,
                        is_filled_in(view.deployer_name, view.new_version),
                        names == distinct_sketches(view.devices),
                        expected == bulk_started(m).1,
                        views(r@) == expected.take(i as int),
                        b@ == (BulkView {
                            show_form: false,
                            sketch_builds: builds_started(
                                view.sketch_builds,
                                names.take(i as int),
                            ),
                            ..view
                        }),
                    decreases dirs.len() - i,
                {
                    let ghost before = map_views(b.sketch_builds@);
                    b.sketch_builds.insert(dirs[i].clone(), SketchBuildState::Compiling);
                    proof {
                        assert(names[i as int] == dirs@[i as int]@);
                        lemma_builds_started_push(
                            view.sketch_builds,
                            names.take(i as int),
                            names[i as int],
                        );
                        assert(names.take(i + 1) =~= names.take(i as int).push(names[i as int]));
                    }
                    r.push(
                        Action::BulkCompile {
                            sketch_dir: dirs[i].clone(),
                            version: b.new_version.clone(),
                            fqbn: fqbn.clone(),
                        },
                    );
                    assert(expected.take(i + 1) =~= expected.take(i as int).push(
                        expected[i as int],
                    ));
                    i = i + 1;
                }
                mark_compiling(&mut b.devices);
                assert(names.take(dirs@.len() as int) =~= names);
                assert(expected.take(dirs@.len() as int) =~= expected);
                assert(self@ =~= bulk_started(m).0);
                return r;
            }
        }
        assert(self@ =~= bulk_started(m).0);
        no_action()
    }

    /// Gives up the bulk deployment, unless it was started.
    pub fn cancel_bulk_deploy(&mut self)
        ensures
            final(self)@ == if in_bulk_form(old(self)@) {
                AppView { bulk_deploy: None, ..old(self)@ }
            } else {
                old(self)@
            },
    {
        if self.shows_bulk_form() {
            self.bulk_deploy = None;
            assert(self@ =~= AppView { bulk_deploy: None, ..old(self)@ });
        }
    }

    /// Closes the bulk deployment, once all its devices are through, and clears the selection.
    pub fn close_bulk_deploy(&mut self)
        ensures
            final(self)@ == match old(self)@.bulk_deploy {
                Some(b) => if all_over(b.devices) {
                    AppView { bulk_deploy: None, selected: Set::empty(), ..old(self)@ }
                } else {
                    old(self)@
                },
                None => old(self)@,
            },
    {
        let over: bool = match &self.bulk_deploy {
            Some(b) => all_finished(&b.devices),
            None => false,
        };
        if over {
            self.bulk_deploy = None;
            self.selected.clear();
            assert(self@ =~= AppView { bulk_deploy: None, selected: Set::empty(), ..old(self)@ });
        }
    }
}

/// Puts all devices in the phase of being compiled for.
fn mark_compiling(devices: &mut Vec<DeviceBulkDeploy>)
    ensures
        views(final(devices)@) == all_compiling(views(old(devices)@)),
{
    let ghost expected = all_compiling(views(devices@));
    let mut i: usize = 0;
    while i < devices.len()
        invariant
            i <= devices@.len(),
            devices@.len() == old(devices)@.len(),
            expected == all_compiling(views(old(devices)@)),
            forall|k: int| 0 <= k < i ==> (#[trigger] devices@[k])@ == expected[k],
            forall|k: int| i <= k < devices@.len() ==> devices@[k] == old(devices)@[k],
        decreases devices.len() - i,
    {
        devices[i].phase = DeployPhase::Compiling;
        i = i + 1;
    }
    assert(views(devices@) =~= expected);
}

proof fn lemma_builds_started_push(
    builds: Map<Seq<char>, BuildView>,
    sketches: Seq<Seq<char>>,
    dir: Seq<char>,
)
    ensures
        builds_started(builds, sketches.push(dir)) == builds_started(builds, sketches).insert(
            dir,
            BuildView::Compiling,
        ),
{
    let more = sketches.push(dir);
    assert forall|k: Seq<char>| more.contains(k) <==> (sketches.contains(k) || k == dir) by {
        if sketches.contains(k) {
            let i = choose|i: int| 0 <= i < sketches.len() && sketches[i] == k;
            assert(more[i] == k);
        }
        if k == dir {
            assert(more[sketches.len() as int] == k);
        }
    }
    assert(builds_started(builds, more) =~= builds_started(builds, sketches).insert(
        dir,
        BuildView::Compiling,
    ));
}

} // verus!
