//! What the flasher's state holds, and how each event changes it.
use vstd::prelude::*;
use vstd::string::*;
use crate::paths::file_name_of;
use crate::text::opt_view;
use crate::topics::topic_of;
use crate::types::{
    AddFormView, AppEvent, BuildView, BulkView, ConfigView, DeployView, DeviceBulkView, DeviceView,
    FleetView, FolderPickCtx, LogLevel, NotifView, PhaseView, RecordView, Tab, ViewMode,
};
use crate::version::confirms;
use crate::worker::JobView;

verus! {

/// What an [`crate::app::App`] holds.
#[verifier::ext_equal]
pub struct AppView {
    pub config: ConfigView,
    pub fleet: FleetView,
    pub fleet_loaded: bool,
    pub mqtt_connected: bool,
    pub mqtt_status: Map<Seq<char>, Seq<char>>,
    pub tab: Tab,
    pub deploy: Option<DeployView>,
    pub show_add: bool,
    pub add_form: AddFormView,
    pub show_settings: bool,
    pub settings_buf: ConfigView,
    pub notif: Option<NotifView>,
    pub picking_folder: bool,
    pub mqtt_gen: u64,
    pub first_run: bool,
    pub search_query: Seq<char>,
    pub view_mode: ViewMode,
    pub selected: Set<Seq<char>>,
    pub bulk_deploy: Option<BulkView>,
}

/// What an [`crate::app::Action`] asks for.
#[verifier::ext_equal]
pub enum ActionView {
    Connect { config: ConfigView },
    ReconnectLater { generation: u64, config: ConfigView },
    DropClient,
    Publish { topic: Seq<char>, payload: Seq<char>, retain: bool },
    ReportPublished,
    LoadFleet { worker_url: Seq<char>, token: Seq<char> },
    SaveFleet { fleet: FleetView, worker_url: Seq<char>, token: Seq<char> },
    SaveConfig { config: ConfigView },
    Compile { sketch_dir: Seq<char>, version: Seq<char>, fqbn: Seq<char> },
    BulkCompile { sketch_dir: Seq<char>, version: Seq<char>, fqbn: Seq<char> },
    Upload { job: JobView },
    BulkUpload { sketch_dir: Seq<char>, job: JobView },
    PickFolder { context: FolderPickCtx },
    Repaint,
}

/// Nothing to be done.
pub open spec fn nothing() -> Seq<ActionView> {
    Seq::empty()
}

// ---- The broker ----

/// The connection is lost: a new one is tried later, unless yet another generation has begun.
pub open spec fn on_disconnected(m: AppView) -> (AppView, Seq<ActionView>) {
    let generation = (m.mqtt_gen + 1) as u64;
    (
        AppView { mqtt_connected: false, mqtt_gen: generation, ..m },
        seq![ActionView::ReconnectLater { generation, config: m.config }],
    )
}

/// The deployment waits for just this report.
pub open spec fn awaits(d: DeployView, device_id: Seq<char>, status: Seq<char>) -> bool {
    d.phase is Waiting && d.device_id == device_id && confirms(status, d.new_version)
}

/// The devices of a bulk deployment to `version` after a report: those that waited for it are
/// done.
pub open spec fn devices_confirmed(
    devices: Seq<DeviceBulkView>,
    version: Seq<char>,
    device_id: Seq<char>,
    status: Seq<char>,
) -> Seq<DeviceBulkView> {
    devices.map_values(
        |d: DeviceBulkView|
            if d.phase is Waiting && d.device_id == device_id && confirms(status, version) {
                DeviceBulkView { phase: PhaseView::Done, ..d }
            } else {
                d
            },
    )
}

/// The bulk deployment after a report.
pub open spec fn bulk_confirmed(
    bulk: Option<BulkView>,
    device_id: Seq<char>,
    status: Seq<char>,
) -> Option<BulkView> {
    match bulk {
        Some(b) => Some(
            BulkView {
                devices: devices_confirmed(b.devices, b.new_version, device_id, status),
                ..b
            },
        ),
        None => None,
    }
}

/// A device reported its status: it is noted, and may be what a deployment waits for. Then the
/// retained trigger of that deployment is cleared.
pub open spec fn on_status(m: AppView, device_id: Seq<char>, status: Seq<char>) -> (
    AppView,
    Seq<ActionView>,
) {
    let noted = AppView {
        mqtt_status: m.mqtt_status.insert(device_id, status),
        bulk_deploy: bulk_confirmed(m.bulk_deploy, device_id, status),
        ..m
    };
    match m.deploy {
        Some(d) => if awaits(d, device_id, status) {
            (
                AppView {
                    deploy: Some(
                        DeployView {
                            phase: PhaseView::Done,
                            log_lines: d.log_lines.push(
                                ("✓ Device confirmed: "@ + status, LogLevel::Success),
                            ),
                            ..d
                        },
                    ),
                    ..noted
                },
                seq![
                    ActionView::Publish {
                        topic: topic_of(device_id, "ota"@),
                        payload: Seq::empty(),
                        retain: true,
                    },
                ],
            )
        } else {
            (noted, nothing())
        },
        None => (noted, nothing()),
    }
}

// ---- The deployment to one device ----

/// A job that uploads `bin_path` with the settings `c`.
pub open spec fn job_of(
    c: ConfigView,
    bin_path: Seq<char>,
    device_id: Seq<char>,
    version: Seq<char>,
) -> JobView {
    JobView {
        bin_path,
        device_id,
        version,
        worker_url: c.worker_url,
        token: c.worker_token,
        vps_host: c.vps_host,
        vps_key: c.vps_key,
        vps_firmware_dir: c.vps_firmware_dir,
        vps_firmware_url: c.vps_firmware_url,
    }
}

/// The state with another deployment on screen.
pub open spec fn with_deploy(m: AppView, d: DeployView) -> AppView {
    AppView { deploy: Some(d), ..m }
}

/// The compiler printed a line.
pub open spec fn on_compile_output(m: AppView, line: Seq<char>, level: LogLevel) -> AppView {
    match m.deploy {
        Some(d) => with_deploy(m, DeployView { log_lines: d.log_lines.push((line, level)), ..d }),
        None => m,
    }
}

/// The compilation is over. The binary of a successful one is uploaded.
pub open spec fn on_compile_done(m: AppView, success: bool, bin_path: Option<Seq<char>>) -> (
    AppView,
    Seq<ActionView>,
) {
    match m.deploy {
        Some(d) => if success {
            (
                with_deploy(
                    m,
                    DeployView {
                        phase: PhaseView::Uploading,
                        bin_path,
                        log_lines: d.log_lines.push(
                            ("Uploading to Cloudflare R2 + VPS…"@, LogLevel::Info),
                        ),
                        ..d
                    },
                ),
                seq![
                    ActionView::Upload {
                        job: job_of(m.config, bin_path->0, d.device_id, d.new_version),
                    },
                ],
            )
        } else {
            (
                with_deploy(
                    m,
                    DeployView { phase: PhaseView::Failed("Compilation failed"@), ..d },
                ),
                nothing(),
            )
        },
        None => (m, nothing()),
    }
}

/// The firmware is uploaded: the device is told so, by a trigger that is retained for it.
pub open spec fn on_upload_done(m: AppView, url: Seq<char>) -> (AppView, Seq<ActionView>) {
    match m.deploy {
        Some(d) => (
            with_deploy(
                m,
                DeployView {
                    phase: PhaseView::Publishing,
                    firmware_url: Some(url),
                    log_lines: d.log_lines.push(("✓ Uploaded → "@ + url, LogLevel::Success)).push(
                        ("Publishing OTA trigger…"@, LogLevel::Info),
                    ),
                    ..d
                },
            ),
            seq![
                ActionView::Publish {
                    topic: topic_of(d.device_id, "ota"@),
                    payload: url,
                    retain: true,
                },
                ActionView::ReportPublished,
            ],
        ),
        None => (m, nothing()),
    }
}

/// The devices after `version` was deployed to `device_id`.
pub open spec fn devices_deployed(
    devices: Seq<DeviceView>,
    device_id: Seq<char>,
    version: Seq<char>,
    by: Seq<char>,
) -> Seq<DeviceView> {
    devices.map_values(
        |d: DeviceView|
            if d.id == device_id {
                DeviceView { desired_version: version, last_deploy_by: by, ..d }
            } else {
                d
            },
    )
}

/// The record of a deployment that went out at `stamp`.
pub open spec fn record_of(d: DeployView, stamp: Seq<char>) -> RecordView {
    RecordView {
        device_id: d.device_id,
        device_name: d.device_name,
        version: d.new_version,
        deployed_by: d.deployer_name,
        deployed_at: stamp,
        firmware_url: match d.firmware_url {
            Some(u) => u,
            None => Seq::empty(),
        },
    }
}

/// The fleet after the trigger of a deployment went out at `stamp`.
pub open spec fn fleet_deployed(f: FleetView, d: DeployView, stamp: Seq<char>) -> FleetView {
    FleetView {
        devices: devices_deployed(f.devices, d.device_id, d.new_version, d.deployer_name),
        deploy_history: f.deploy_history.push(record_of(d, stamp)),
    }
}

/// Storing the fleet `f` with the settings `c`.
pub open spec fn save_of(f: FleetView, c: ConfigView) -> ActionView {
    ActionView::SaveFleet { fleet: f, worker_url: c.worker_url, token: c.worker_token }
}

/// Fetching the fleet with the settings `c`.
pub open spec fn load_of(c: ConfigView) -> ActionView {
    ActionView::LoadFleet { worker_url: c.worker_url, token: c.worker_token }
}

/// The trigger went out: the deployment is on record, and the device is waited for.
pub open spec fn on_ota_published(m: AppView, stamp: Seq<char>) -> (AppView, Seq<ActionView>) {
    match m.deploy {
        Some(d) => {
            let fleet = fleet_deployed(m.fleet, d, stamp);
            (
                AppView {
                    fleet,
                    deploy: Some(
                        DeployView {
                            phase: PhaseView::Waiting,
                            log_lines: d.log_lines.push(
                                (
                                    "✓ OTA trigger sent (retained) — waiting for device…"@,
                                    LogLevel::Success,
                                ),
                            ),
                            ..d
                        },
                    ),
                    ..m
                },
                seq![save_of(fleet, m.config)],
            )
        },
        None => (m, nothing()),
    }
}

/// A folder was chosen for one of the fields.
pub open spec fn on_folder_picked(m: AppView, context: FolderPickCtx, path: Seq<char>) -> AppView {
    match context {
        FolderPickCtx::DeploySketch => match m.deploy {
            Some(d) => with_deploy(m, DeployView { sketch_dir: path, ..d }),
            None => m,
        },
        FolderPickCtx::AddDeviceSketch => AppView {
            add_form: AddFormView { sketch_dir: path, ..m.add_form },
            ..m
        },
        FolderPickCtx::SettingsSketchRoot => AppView {
            settings_buf: ConfigView { sketch_root: path, ..m.settings_buf },
            ..m
        },
    }
}

/// An error stops a deployment in this phase.
pub open spec fn is_under_way(phase: PhaseView) -> bool {
    !(phase is Form || phase is Done || phase is Failed)
}

/// The state with a message that came at `at_ms`.
pub open spec fn notified(m: AppView, msg: Seq<char>, is_err: bool, at_ms: u64) -> AppView {
    AppView { notif: Some(NotifView { msg, is_err, at_ms }), ..m }
}

/// Something went wrong: it is shown, and a deployment that is under way has failed.
pub open spec fn on_error(m: AppView, e: Seq<char>, at_ms: u64) -> AppView {
    let shown = AppView { picking_folder: false, ..notified(m, e, true, at_ms) };
    match m.deploy {
        Some(d) => if is_under_way(d.phase) {
            with_deploy(shown, DeployView { phase: PhaseView::Failed(e), ..d })
        } else {
            shown
        },
        None => shown,
    }
}

// ---- The deployment to many devices ----

/// The devices with those of one sketch in another phase.
pub open spec fn with_phase(
    devices: Seq<DeviceBulkView>,
    sketch_dir: Seq<char>,
    phase: PhaseView,
) -> Seq<DeviceBulkView> {
    devices.map_values(
        |d: DeviceBulkView|
            if d.sketch_dir == sketch_dir {
                DeviceBulkView { phase, ..d }
            } else {
                d
            },
    )
}

/// A bulk deployment with one of its sketches, and the devices of that sketch, further on.
pub open spec fn sketch_moved(
    b: BulkView,
    sketch_dir: Seq<char>,
    build: BuildView,
    phase: PhaseView,
) -> BulkView {
    BulkView {
        sketch_builds: b.sketch_builds.insert(sketch_dir, build),
        devices: with_phase(b.devices, sketch_dir, phase),
        ..b
    }
}

/// The devices with a line more in the output of those of one sketch.
pub open spec fn with_line(
    devices: Seq<DeviceBulkView>,
    sketch_dir: Seq<char>,
    line: Seq<char>,
    level: LogLevel,
) -> Seq<DeviceBulkView> {
    devices.map_values(
        |d: DeviceBulkView|
            if d.sketch_dir == sketch_dir {
                DeviceBulkView { log: d.log.push((line, level)), ..d }
            } else {
                d
            },
    )
}

/// A bulk deployment with a line more in the output of the devices of one sketch.
pub open spec fn sketch_told(
    b: BulkView,
    sketch_dir: Seq<char>,
    line: Seq<char>,
    level: LogLevel,
) -> BulkView {
    BulkView { devices: with_line(b.devices, sketch_dir, line, level), ..b }
}

/// The compiler printed a line about a sketch: it is output of all devices of that sketch.
pub open spec fn on_bulk_compile_output(
    m: AppView,
    sketch_dir: Seq<char>,
    line: Seq<char>,
    level: LogLevel,
) -> AppView {
    match m.bulk_deploy {
        Some(b) => AppView { bulk_deploy: Some(sketch_told(b, sketch_dir, line, level)), ..m },
        None => m,
    }
}

/// The name that stands for a sketch folder.
pub open spec fn sketch_name_of(sketch_dir: Seq<char>) -> Seq<char> {
    match file_name_of(sketch_dir) {
        Some(n) => n,
        None => "sketch"@,
    }
}

/// The compilation of a sketch is over. The build of a successful one is done, and its binary is
/// uploaded once.
pub open spec fn on_bulk_compile_done(
    m: AppView,
    sketch_dir: Seq<char>,
    success: bool,
    bin_path: Option<Seq<char>>,
) -> (AppView, Seq<ActionView>) {
    match m.bulk_deploy {
        Some(b) => match (success, bin_path) {
            (true, Some(path)) => (
                AppView {
                    bulk_deploy: Some(
                        sketch_told(
                            sketch_moved(
                                b,
                                sketch_dir,
                                BuildView::Done(path),
                                PhaseView::Uploading,
                            ),
                            sketch_dir,
                            "Uploading to Cloudflare R2 + VPS…"@,
                            LogLevel::Info,
                        ),
                    ),
                    ..m
                },
                seq![
                    ActionView::BulkUpload {
                        sketch_dir,
                        job: job_of(m.config, path, sketch_name_of(sketch_dir), b.new_version),
                    },
                    ActionView::Repaint,
                ],
            ),
            (true, None) => (m, seq![ActionView::Repaint]),
            (false, _) => (
                AppView {
                    bulk_deploy: Some(
                        sketch_moved(
                            b,
                            sketch_dir,
                            BuildView::Failed("Compile failed"@),
                            PhaseView::Failed("Compile failed"@),
                        ),
                    ),
                    ..m
                },
                seq![ActionView::Repaint],
            ),
        },
        None => (m, nothing()),
    }
}

/// The triggers for the devices of a sketch, in the order of the devices.
pub open spec fn triggers(
    devices: Seq<DeviceBulkView>,
    sketch_dir: Seq<char>,
    url: Seq<char>,
) -> Seq<ActionView>
    decreases devices.len(),
{
    if devices.len() == 0 {
        Seq::empty()
    } else {
        let before = triggers(devices.drop_last(), sketch_dir, url);
        if devices.last().sketch_dir == sketch_dir {
            before.push(
                ActionView::Publish {
                    topic: topic_of(devices.last().device_id, "ota"@),
                    payload: url,
                    retain: false,
                },
            )
        } else {
            before
        }
    }
}

/// The firmware of a sketch is uploaded: all its devices are told so, and waited for.
pub open spec fn on_bulk_upload_done(m: AppView, sketch_dir: Seq<char>, url: Seq<char>) -> (
    AppView,
    Seq<ActionView>,
) {
    match m.bulk_deploy {
        Some(b) => (
            AppView {
                bulk_deploy: Some(
                    sketch_told(
                        sketch_moved(b, sketch_dir, BuildView::Uploaded(url), PhaseView::Waiting),
                        sketch_dir,
                        "✓ Uploaded → "@ + url,
                        LogLevel::Success,
                    ),
                ),
                ..m
            },
            triggers(b.devices, sketch_dir, url).push(ActionView::Repaint),
        ),
        None => (m, nothing()),
    }
}

/// The devices of one id in the phase of being done.
pub open spec fn devices_done(devices: Seq<DeviceBulkView>, device_id: Seq<char>) -> Seq<
    DeviceBulkView,
> {
    devices.map_values(
        |d: DeviceBulkView|
            if d.device_id == device_id {
                DeviceBulkView { phase: PhaseView::Done, ..d }
            } else {
                d
            },
    )
}

/// A device of the bulk deployment is through.
pub open spec fn on_bulk_ota_published(m: AppView, device_id: Seq<char>) -> (
    AppView,
    Seq<ActionView>,
) {
    match m.bulk_deploy {
        Some(b) => (
            AppView {
                bulk_deploy: Some(
                    BulkView { devices: devices_done(b.devices, device_id), ..b },
                ),
                ..m
            },
            seq![ActionView::Repaint],
        ),
        None => (m, nothing()),
    }
}

// ---- Events ----

/// How an event that is handled at `stamp`, which is `at_ms` of the clock, changes the state, and
/// what it asks for.
pub open spec fn step(m: AppView, ev: AppEvent, stamp: Seq<char>, at_ms: u64) -> (
    AppView,
    Seq<ActionView>,
) {
    match ev {
        AppEvent::MqttConnected => (AppView { mqtt_connected: true, ..m }, nothing()),
        AppEvent::MqttDisconnected => on_disconnected(m),
        AppEvent::MqttStatus { device_id, status } => on_status(m, device_id@, status@),
        AppEvent::FleetLoaded(f) => (AppView { fleet: f@, fleet_loaded: true, ..m }, nothing()),
        AppEvent::FleetSaved => (m, nothing()),
        AppEvent::CompileOutput { line, level } => (
            on_compile_output(m, line@, level),
            nothing(),
        ),
        AppEvent::CompileDone { success, bin_path } => on_compile_done(
            m,
            success,
            opt_view(bin_path),
        ),
        AppEvent::UploadDone { url } => on_upload_done(m, url@),
        AppEvent::OtaPublished => on_ota_published(m, stamp),
        AppEvent::FolderPicked { context, path } => (
            on_folder_picked(m, context, path@),
            nothing(),
        ),
        AppEvent::Error(e) => (on_error(m, e@, at_ms), nothing()),
        AppEvent::BulkCompileOutput { sketch_dir, line, level } => (
            on_bulk_compile_output(m, sketch_dir@, line@, level),
            nothing(),
        ),
        AppEvent::BulkCompileDone { sketch_dir, success, bin_path } => on_bulk_compile_done(
            m,
            sketch_dir@,
            success,
            opt_view(bin_path),
        ),
        AppEvent::BulkUploadDone { sketch_dir, url } => on_bulk_upload_done(m, sketch_dir@, url@),
        AppEvent::BulkOtaPublished { device_id } => on_bulk_ota_published(m, device_id@),
    }
}

/// How a batch of events changes the state, each handled at its own time, and what it asks for.
pub open spec fn run(m: AppView, events: Seq<AppEvent>, stamps: Seq<Seq<char>>, at_ms: u64) -> (
    AppView,
    Seq<ActionView>,
)
    decreases events.len(),
{
    if events.len() == 0 {
        (m, nothing())
    } else {
        let before = run(m, events.drop_last(), stamps.drop_last(), at_ms);
        let last = step(before.0, events.last(), stamps.last(), at_ms);
        (last.0, before.1 + last.1)
    }
}

/// How many of the events tell of a lost connection.
pub open spec fn disconnects(events: Seq<AppEvent>) -> nat
    decreases events.len(),
{
    if events.len() == 0 {
        0
    } else {
        disconnects(events.drop_last()) + if events.last() is MqttDisconnected {
            1nat
        } else {
            0nat
        }
    }
}

/// A compilation that is said to have succeeded names its binary.
pub open spec fn names_binary(ev: AppEvent) -> bool {
    ev matches AppEvent::CompileDone { success, bin_path } ==> success ==> bin_path is Some
}

} // verus!
