//! What the views of values hold: each part of a value stands in its view, as it is.
use vstd::prelude::*;
use vstd::string::*;
use crate::app::{Action, App};
use crate::compile::{Compilation, CompilationView, Stage, StageView};
use crate::model::ActionView;
use crate::text::{opt_view, views};
use crate::types::{
    map_views, AddForm, AppConfig, BuildView, BulkDeployState, DeployPhase, DeployRecord,
    DeployState, Device, DeviceBulkDeploy, FleetState, FolderPickCtx, LogLevel, Notif, PhaseView,
    SketchBuildState, Topics,
};
use crate::worker::{result_view, NextView, UploadJob, UploadNext};

verus! {

/// The views of many values are those of each, in their order; that of an optional value is there
/// exactly if the value is; those in a map stand under the same keys.
pub proof fn law_views_of_many<T: View>(
    s: Seq<T>,
    i: int,
    o: Option<T>,
    m: Map<Seq<char>, T>,
    k: Seq<char>,
    t: T,
    e: String,
)
    ensures
        views(s).len() == s.len(),
        0 <= i < s.len() ==> views(s)[i] == s[i].view(),
        o is Some <==> opt_view(o) is Some,
        o is Some ==> opt_view(o)->0 == o->0.view(),
        map_views(m).contains_key(k) <==> m.contains_key(k),
        m.contains_key(k) ==> map_views(m)[k] == m[k].view(),
        result_view(Ok::<T, String>(t)) == Ok::<T::V, Seq<char>>(t.view()),
        result_view(Err::<T, String>(e)) == Err::<T::V, Seq<char>>(e@),
{
}

/// The view of a device holds its parts.
pub proof fn law_view_of_device(d: Device, t: Topics)
    ensures
        t@.cmd == t.cmd@,
        t@.status == t.status@,
        t@.ota == t.ota@,
        d@.id == d.id@,
        d@.name == d.name@,
        d@.company == d.company@,
        d@.sketch_dir == d.sketch_dir@,
        d@.topics == d.topics@,
        d@.desired_version == d.desired_version@,
        d@.last_deploy_by == d.last_deploy_by@,
        d@.added_by == d.added_by@,
        d@.added_at == d.added_at@,
        d@.tags.len() == d.tags@.len(),
        forall|i: int| 0 <= i < d.tags@.len() ==> #[trigger] d@.tags[i] == d.tags@[i]@,
{
}

/// The view of a fleet holds its devices and its records, and that of a record its parts.
pub proof fn law_view_of_fleet(f: FleetState, r: DeployRecord)
    ensures
        f@.devices.len() == f.devices@.len(),
        forall|i: int| 0 <= i < f.devices@.len() ==> #[trigger] f@.devices[i] == f.devices@[i]@,
        f@.deploy_history.len() == f.deploy_history@.len(),
        forall|i: int|
            0 <= i < f.deploy_history@.len() ==> #[trigger] f@.deploy_history[i]
                == f.deploy_history@[i]@,
        r@.device_id == r.device_id@,
        r@.device_name == r.device_name@,
        r@.version == r.version@,
        r@.deployed_by == r.deployed_by@,
        r@.deployed_at == r.deployed_at@,
        r@.firmware_url == r.firmware_url@,
{
}

/// The view of settings holds each of them.
pub proof fn law_view_of_settings(c: AppConfig)
    ensures
        c@.worker_url == c.worker_url@,
        c@.worker_token == c.worker_token@,
        c@.sketch_root == c.sketch_root@,
        c@.fqbn == c.fqbn@,
        c@.mqtt_host == c.mqtt_host@,
        c@.mqtt_port == c.mqtt_port,
        c@.mqtt_user == c.mqtt_user@,
        c@.mqtt_pass == c.mqtt_pass@,
        c@.vps_host == c.vps_host@,
        c@.vps_key == c.vps_key@,
        c@.vps_firmware_dir == c.vps_firmware_dir@,
        c@.vps_firmware_url == c.vps_firmware_url@,
{
}

/// The view of a form holds its fields, and that of a message its parts.
pub proof fn law_view_of_form(f: AddForm, n: Notif)
    ensures
        f@.by_name == f.by_name@,
        f@.company == f.company@,
        f@.device_name == f.device_name@,
        f@.device_id == f.device_id@,
        f@.sketch_dir == f.sketch_dir@,
        f@.version == f.version@,
        f@.tags_input == f.tags_input@,
        f@.error == f.error@,
        n@.msg == n.msg@,
        n@.is_err == n.is_err,
        n@.at_ms == n.at_ms,
{
}

/// The view of a phase or a build is of the same kind, with the same text in it.
pub proof fn law_view_of_phase(p: DeployPhase, b: SketchBuildState, l: LogLevel)
    ensures
        p is Form <==> p@ is Form,
        p is Compiling <==> p@ is Compiling,
        p is Uploading <==> p@ is Uploading,
        p is Publishing <==> p@ is Publishing,
        p is Waiting <==> p@ is Waiting,
        p is Done <==> p@ is Done,
        p is Failed <==> p@ is Failed,
        p is Failed ==> p@ == PhaseView::Failed(p->0@),
        b is Pending <==> b@ is Pending,
        b is Compiling <==> b@ is Compiling,
        b is Done <==> b@ is Done,
        b is Uploading <==> b@ is Uploading,
        b is Uploaded <==> b@ is Uploaded,
        b is Failed <==> b@ is Failed,
        b is Done ==> b@ == BuildView::Done(b->Done_0@),
        b is Uploaded ==> b@ == BuildView::Uploaded(b->Uploaded_0@),
        b is Failed ==> b@ == BuildView::Failed(b->Failed_0@),
        l@ == l,
{
}

/// The view of a deployment to one device holds its parts.
pub proof fn law_view_of_deployment(d: DeployState)
    ensures
        d@.device_id == d.device_id@,
        d@.device_name == d.device_name@,
        d@.deployer_name == d.deployer_name@,
        d@.new_version == d.new_version@,
        d@.sketch_dir == d.sketch_dir@,
        d@.phase == d.phase@,
        d@.log_lines.len() == d.log_lines@.len(),
        forall|i: int|
            0 <= i < d.log_lines@.len() ==> #[trigger] d@.log_lines[i] == (
                d.log_lines@[i].0@,
                d.log_lines@[i].1,
            ),
        d.bin_path is Some <==> d@.bin_path is Some,
        d.bin_path is Some ==> d@.bin_path->0 == d.bin_path->0@,
        d.firmware_url is Some <==> d@.firmware_url is Some,
        d.firmware_url is Some ==> d@.firmware_url->0 == d.firmware_url->0@,
{
}

/// The view of a bulk deployment holds its parts, and that of a device of it the parts of that.
pub proof fn law_view_of_bulk(b: BulkDeployState, d: DeviceBulkDeploy, dir: Seq<char>)
    ensures
        d@.device_id == d.device_id@,
        d@.device_name == d.device_name@,
        d@.sketch_dir == d.sketch_dir@,
        d@.phase == d.phase@,
        d@.log.len() == d.log@.len(),
        forall|i: int|
            0 <= i < d.log@.len() ==> #[trigger] d@.log[i] == (d.log@[i].0@, d.log@[i].1),
        b@.deployer_name == b.deployer_name@,
        b@.new_version == b.new_version@,
        b@.devices.len() == b.devices@.len(),
        forall|i: int| 0 <= i < b.devices@.len() ==> #[trigger] b@.devices[i] == b.devices@[i]@,
        b@.sketch_builds.contains_key(dir) <==> b.sketch_builds@.contains_key(dir),
        b.sketch_builds@.contains_key(dir) ==> b@.sketch_builds[dir] == b.sketch_builds@[dir]@,
        b@.form_deployer == b.form_deployer@,
        b@.form_version == b.form_version@,
        b@.show_form == b.show_form,
{
}

/// The view of the state holds its parts.
pub proof fn law_view_of_state(a: App, id: Seq<char>)
    ensures
        a@.config == a.config@,
        a@.fleet == a.fleet@,
        a@.fleet_loaded == a.fleet_loaded,
        a@.mqtt_connected == a.mqtt_connected,
        a@.mqtt_status.contains_key(id) <==> a.mqtt_status@.contains_key(id),
        a.mqtt_status@.contains_key(id) ==> a@.mqtt_status[id] == a.mqtt_status@[id]@,
        a@.tab == a.tab,
        a.deploy is Some <==> a@.deploy is Some,
        a.deploy is Some ==> a@.deploy->0 == a.deploy->0@,
        a@.show_add == a.show_add,
        a@.add_form == a.add_form@,
        a@.show_settings == a.show_settings,
        a@.settings_buf == a.settings_buf@,
        a.notif is Some <==> a@.notif is Some,
        a.notif is Some ==> a@.notif->0 == a.notif->0@,
        a@.picking_folder == a.picking_folder,
        a@.mqtt_gen == a.mqtt_gen,
        a@.first_run == a.first_run,
        a@.search_query == a.search_query@,
        a@.view_mode == a.view_mode,
        a@.selected == a.selected@,
        a.bulk_deploy is Some <==> a@.bulk_deploy is Some,
        a.bulk_deploy is Some ==> a@.bulk_deploy->0 == a.bulk_deploy->0@,
{
}

/// The view of an upload holds its parts, and that of what comes after it what is to be done.
pub proof fn law_view_of_upload(j: UploadJob, url: String, args: Vec<String>)
    ensures
        j@.bin_path == j.bin_path@,
        j@.device_id == j.device_id@,
        j@.version == j.version@,
        j@.worker_url == j.worker_url@,
        j@.token == j.token@,
        j@.vps_host == j.vps_host@,
        j@.vps_key == j.vps_key@,
        j@.vps_firmware_dir == j.vps_firmware_dir@,
        j@.vps_firmware_url == j.vps_firmware_url@,
        UploadNext::Done(url)@ == NextView::Done(url@),
        UploadNext::Copy(args)@ is Copy,
        UploadNext::Copy(args)@->Copy_0.len() == args@.len(),
        forall|i: int|
            0 <= i < args@.len() ==> #[trigger] UploadNext::Copy(args)@->Copy_0[i] == args@[i]@,
{
}

/// The view of an action is of the same kind, and holds its parts.
pub proof fn law_view_of_action(
    c: AppConfig,
    f: FleetState,
    j: UploadJob,
    s: String,
    t: String,
    u: String,
    retain: bool,
    generation: u64,
    context: FolderPickCtx,
)
    ensures
        (Action::Connect { config: c })@ == (ActionView::Connect { config: c@ }),
        (Action::ReconnectLater { generation, config: c })@ == (ActionView::ReconnectLater {
            generation,
            config: c@,
        }),
        Action::DropClient@ == ActionView::DropClient,
        (Action::Publish { topic: s, payload: t, retain })@ == (ActionView::Publish {
            topic: s@,
            payload: t@,
            retain,
        }),
        Action::ReportPublished@ == ActionView::ReportPublished,
        (Action::LoadFleet { worker_url: s, token: t })@ == (ActionView::LoadFleet {
            worker_url: s@,
            token: t@,
        }),
        (Action::SaveFleet { fleet: f, worker_url: s, token: t })@ == (ActionView::SaveFleet {
            fleet: f@,
            worker_url: s@,
            token: t@,
        }),
        (Action::SaveConfig { config: c })@ == (ActionView::SaveConfig { config: c@ }),
        (Action::Compile { sketch_dir: s, version: t, fqbn: u })@ == (ActionView::Compile {
            sketch_dir: s@,
            version: t@,
            fqbn: u@,
        }),
        (Action::BulkCompile { sketch_dir: s, version: t, fqbn: u })@ == (ActionView::BulkCompile {
            sketch_dir: s@,
            version: t@,
            fqbn: u@,
        }),
        (Action::Upload { job: j })@ == (ActionView::Upload { job: j@ }),
        (Action::BulkUpload { sketch_dir: s, job: j })@ == (ActionView::BulkUpload {
            sketch_dir: s@,
            job: j@,
        }),
        (Action::PickFolder { context })@ == (ActionView::PickFolder { context }),
        Action::Repaint@ == ActionView::Repaint,
{
}

/// The view of a compilation holds its parts, and that of a stage is of the same kind with the same
/// texts in it.
pub proof fn law_view_of_compilation(c: Compilation, s: String, t: String)
    ensures
        c@ == (CompilationView {
            sketch_dir: c.sketch_dir@,
            version: c.version@,
            fqbn: c.fqbn@,
            stage: c.stage@,
        }),
        Stage::Folder@ is Folder,
        Stage::Source@ is Source,
        Stage::Reading@ is Reading,
        (Stage::Writing { content: s })@ == (StageView::Writing { content: s@ }),
        Stage::Root@ is Root,
        (Stage::Output { dir: s })@ == (StageView::Output { dir: s@ }),
        (Stage::Compiler { dir: s })@ == (StageView::Compiler { dir: s@ }),
        (Stage::Running { dir: s, program: t })@ == (StageView::Running {
            dir: s@,
            program: t@,
        }),
        (Stage::Binary { path: s })@ == (StageView::Binary { path: s@ }),
        Stage::Finished@ is Finished,
{
}

} // verus!
