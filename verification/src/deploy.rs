//! The deployment to one device: its form, and how far it is.
use vstd::prelude::*;
use vstd::string::*;
use crate::app::{no_action, one_action, Action, App};
use crate::bulk::{bulk_is_active, is_over};
use crate::firmware::{read_firmware_version, version_defined};
use crate::model::{nothing, with_deploy, ActionView, AppView};
use crate::paths::{
    default_sketch_dir, default_sketch_path, file_name, file_name_of, join, joined,
    resolve_sketch_dir,
};
use crate::text::{trim, trimmed, views};
use crate::types::{DeployPhase, DeployState, DeployView, Device, DeviceView, LogLevel, PhaseView};
use crate::version::{bump_patch, bumped, can_bump, can_bump_patch};

verus! {

/// The folder that the sketch of a device is in.
pub open spec fn sketch_dir_of(root: Seq<char>, d: DeviceView) -> Seq<char> {
    if d.sketch_dir.len() == 0 {
        default_sketch_path(root, d.id)
    } else {
        joined(root, d.sketch_dir)
    }
}

/// The source file of a sketch folder, which is named like the folder.
pub open spec fn source_path_of(sketch_dir: Seq<char>) -> Seq<char> {
    joined(
        sketch_dir,
        match file_name_of(sketch_dir) {
            Some(n) => n + ".ino"@,
            None => ".ino"@,
        },
    )
}

/// The version that a device is taken to have: what its sketch states, if `source` could be read
/// and states one, else what was deployed last.
pub open spec fn current_version(d: DeviceView, source: Option<Seq<char>>) -> Seq<char> {
    match source {
        Some(content) => match version_defined(content) {
            Some(v) => v,
            None => d.desired_version,
        },
        None => d.desired_version,
    }
}

/// The state after a deployment to `d` was opened; none can be while many devices are being
/// deployed to.
pub open spec fn deploy_opened(m: AppView, d: DeviceView, source: Option<Seq<char>>) -> AppView {
    if bulk_is_active(m) {
        m
    } else {
        with_deploy(
            m,
            DeployView {
                device_id: d.id,
                device_name: d.name,
                deployer_name: Seq::empty(),
                new_version: bumped(current_version(d, source)),
                sketch_dir: sketch_dir_of(m.config.sketch_root, d),
                phase: PhaseView::Form,
                log_lines: Seq::empty(),
                bin_path: None,
                firmware_url: None,
            },
        )
    }
}

/// The form of a deployment is on screen in this phase.
pub open spec fn is_form_shown(phase: PhaseView) -> bool {
    phase is Form || phase is Failed
}

/// The state after the form of the deployment was edited; a deployment without its form on screen
/// stays as it is.
pub open spec fn deploy_edited(
    m: AppView,
    deployer_name: Seq<char>,
    new_version: Seq<char>,
    sketch_dir: Seq<char>,
) -> AppView {
    match m.deploy {
        Some(d) => if is_form_shown(d.phase) {
            with_deploy(m, DeployView { deployer_name, new_version, sketch_dir, ..d })
        } else {
            m
        },
        None => m,
    }
}

/// The form says who deploys and what.
pub open spec fn is_filled_in(deployer: Seq<char>, version: Seq<char>) -> bool {
    trimmed(deployer).len() > 0 && trimmed(version).len() > 0
}

/// The deployment begins: its sketch is compiled.
pub open spec fn deploy_started(m: AppView) -> (AppView, Seq<ActionView>) {
    match m.deploy {
        Some(d) => if d.phase is Form && is_filled_in(d.deployer_name, d.new_version) {
            (
                with_deploy(
                    m,
                    DeployView { phase: PhaseView::Compiling, log_lines: Seq::empty(), ..d },
                ),
                seq![
                    ActionView::Compile {
                        sketch_dir: d.sketch_dir,
                        version: d.new_version,
                        fqbn: m.config.fqbn,
                    },
                ],
            )
        } else {
            (m, nothing())
        },
        None => (m, nothing()),
    }
}

/// How a step of a deployment is marked.
#[derive(Debug, Clone, Copy, PartialEq, Eq, Structural)]
pub enum StepMark {
    Pending,
    Active,
    Done,
}

/// How many of the steps compile, upload, trigger and confirm are behind a phase; `None` before
/// the first step and after a failure.
pub open spec fn steps_behind(phase: PhaseView) -> Option<int> {
    match phase {
        PhaseView::Form => None,
        PhaseView::Compiling => Some(0),
        PhaseView::Uploading => Some(1),
        PhaseView::Publishing => Some(2),
        PhaseView::Waiting => Some(3),
        PhaseView::Done => Some(4),
        PhaseView::Failed(_) => None,
    }
}

/// The mark of the step `i` in a phase.
pub open spec fn step_mark(phase: PhaseView, i: int) -> StepMark {
    match steps_behind(phase) {
        Some(n) => if i < n {
            StepMark::Done
        } else if i == n {
            StepMark::Active
        } else {
            StepMark::Pending
        },
        None => StepMark::Pending,
    }
}

/// The marks of the steps compile, upload, trigger and confirm.
pub fn deploy_steps(phase: &DeployPhase) -> (r: [StepMark; 4])
    ensures
        forall|i: int| 0 <= i < 4 ==> #[trigger] r@[i] == step_mark(phase@, i),
{
    let done: StepMark = StepMark::Done;
    let active: StepMark = StepMark::Active;
    let pending: StepMark = StepMark::Pending;
    match phase {
        DeployPhase::Form => [pending, pending, pending, pending],
        DeployPhase::Compiling => [active, pending, pending, pending],
        DeployPhase::Uploading => [done, active, pending, pending],
        DeployPhase::Publishing => [done, done, active, pending],
        DeployPhase::Waiting => [done, done, done, active],
        DeployPhase::Done => [done, done, done, done],
        DeployPhase::Failed(_) => [pending, pending, pending, pending],
    }
}

/// Tells whether the form of a deployment is on screen in a phase.
pub fn shows_form(phase: &DeployPhase) -> (r: bool)
    ensures
        r == is_form_shown(phase@),
{
    match phase {
        DeployPhase::Form => true,
        DeployPhase::Failed(_) => true,
        _ => false,
    }
}

/// Tells whether a deployment is over in a phase.
pub fn is_finished(phase: &DeployPhase) -> (r: bool)
    ensures
        r == is_over(phase@),
{
    match phase {
        DeployPhase::Done => true,
        DeployPhase::Failed(_) => true,
        _ => false,
    }
}

/// Tells whether a form says who deploys and what.
pub fn filled_in(deployer: &str, version: &str) -> (r: bool)
    ensures
        r == is_filled_in(deployer@, version@),
{
    !trim(deployer).as_str().is_empty() && !trim(version).as_str().is_empty()
}

/// The folder that the sketch of a device is in.
pub fn sketch_dir_for(root: &str, device: &Device) -> (r: String)
    ensures
        r@ == sketch_dir_of(root@, device@),
{
    if device.sketch_dir.as_str().is_empty() {
        default_sketch_dir(root, &device.id)
    } else {
        resolve_sketch_dir(root, &device.sketch_dir)
    }
}

/// The source file of a sketch folder.
pub fn source_path(sketch_dir: &str) -> (r: String)
    ensures
        r@ == source_path_of(sketch_dir@),
{
    match file_name(sketch_dir) {
        Some(n) => join(sketch_dir, n.concat(".ino").as_str()),
        None => join(sketch_dir, ".ino"),
    }
}

fn version_found(device: &Device, source: Option<&str>) -> (r: String)
    ensures
        r@ == current_version(
            device@,
            match source {
                Some(c) => Some(c@),
                None => None,
            },
        ),
{
    match source {
        Some(content) => match read_firmware_version(content) {
            Some(v) => v,
            None => device.desired_version.clone(),
        },
        None => device.desired_version.clone(),
    }
}

/// Tells whether there is a version after the one that a device has.
pub fn has_next_version(device: &Device, source: Option<&str>) -> (r: bool)
    ensures
        r == can_bump(
            current_version(
                device@,
                match source {
                    Some(c) => Some(c@),
                    None => None,
                },
            ),
        ),
{
    can_bump_patch(version_found(device, source).as_str())
}

impl App {
    /// Opens a deployment to a device. `source` is the source file of its sketch, if it could be
    /// read.
    pub fn open_deploy(&mut self, device: &Device, source: Option<&str>)
        requires
            !bulk_is_active(old(self)@) ==> can_bump(
                current_version(
                    device@,
                    match source {
                        Some(c) => Some(c@),
                        None => None,
                    },
                ),
            ),
        ensures
            final(self)@ == deploy_opened(
                old(self)@,
                device@,
                match source {
                    Some(c) => Some(c@),
                    None => None,
                },
            ),
    {
        if self.is_bulk_active() {
            return;
        }
        let current: String = version_found(device, source);
        let log_lines: Vec<(String, LogLevel)> = Vec::new();
        assert(views(log_lines@) =~= Seq::<(Seq<char>, LogLevel)>::empty());
        self.deploy = Some(
            DeployState {
                device_id: device.id.clone(),
                device_name: device.name.clone(),
                deployer_name: String::new(),
                new_version: bump_patch(current.as_str()),
                sketch_dir: sketch_dir_for(&self.config.sketch_root, device),
                phase: DeployPhase::Form,
                log_lines,
                bin_path: None,
                firmware_url: None,
            },
        );
        assert(self@ =~= deploy_opened(
            old(self)@,
            device@,
            match source {
                Some(c) => Some(c@),
                None => None,
            },
        ));
    }

    /// Takes over what the form of the deployment holds, while that is on screen.
    pub fn edit_deploy(&mut self, deployer_name: String, new_version: String, sketch_dir: String)
        ensures
            final(self)@ == deploy_edited(
                old(self)@,
                deployer_name@,
                new_version@,
                sketch_dir@,
            ),
    {
        if let Some(d) = &mut self.deploy {
            if shows_form(&d.phase) {
                d.deployer_name = deployer_name;
                d.new_version = new_version;
                d.sketch_dir = sketch_dir;
            }
        }
        assert(self@ =~= deploy_edited(old(self)@, deployer_name@, new_version@, sketch_dir@));
    }

    /// Tells whether the deployment can be started.
    pub fn is_deploy_ready(&self) -> (r: bool)
        ensures
            r == (self@.deploy matches Some(d) && is_filled_in(d.deployer_name, d.new_version)),
    {
        match &self.deploy {
            Some(d) => filled_in(&d.deployer_name, &d.new_version),
            None => false,
        }
    }

    /// Starts the deployment.
    pub fn start_deploy(&mut self) -> (r: Vec<Action>)
        ensures
            (final(self)@, views(r@)) == deploy_started(old(self)@),
    {
        if let Some(d) = &mut self.deploy {
            let in_form: bool = match d.phase {
                DeployPhase::Form => true,
                _ => false,
            };
            if in_form && filled_in(&d.deployer_name, &d.new_version) {
                d.phase = DeployPhase::Compiling;
                d.log_lines.clear();
                assert(views(d.log_lines@) =~= Seq::<(Seq<char>, LogLevel)>::empty());
                let action: Action = Action::Compile {
                    sketch_dir: d.sketch_dir.clone(),
                    version: d.new_version.clone(),
                    fqbn: self.config.fqbn.clone(),
                };
                assert(self@ =~= deploy_started(old(self)@).0);
                return one_action(action);
            }
        }
        assert(self@ =~= deploy_started(old(self)@).0);
        no_action()
    }

    /// Closes the deployment to one device.
    pub fn close_deploy(&mut self)
        ensures
            final(self)@ == (AppView { deploy: None, ..old(self)@ }),
    {
        self.deploy = None;
        assert(self@ =~= AppView { deploy: None, ..old(self)@ });
    }
}

} // verus!
