//! The records that the flasher keeps, and what they hold.
use vstd::hash_map::StringHashMap;
use vstd::prelude::*;
use vstd::string::*;
use crate::text::{lemma_views_push, opt_view, views};

verus! {

/// The MQTT topics of a device.
#[derive(Debug, PartialEq)]
pub struct Topics {
    /// Where commands to the device go.
    pub cmd: String,
    /// Where the device reports its status.
    pub status: String,
    /// Where the address of new firmware goes.
    pub ota: String,
}

/// What a [`Topics`] holds.
#[verifier::ext_equal]
pub struct TopicsView {
    pub cmd: Seq<char>,
    pub status: Seq<char>,
    pub ota: Seq<char>,
}

impl View for Topics {
    type V = TopicsView;

    open spec fn view(&self) -> TopicsView {
        TopicsView {
            cmd: self.cmd@,
            status: self.status@,
            ota: self.ota@,
        }
    }
}

impl Clone for Topics {
    fn clone(&self) -> (r: Self)
        ensures
            r@ == self@,
    {
        Topics {
            cmd: self.cmd.clone(),
            status: self.status.clone(),
            ota: self.ota.clone(),
        }
    }
}

/// A registered device.
#[derive(Debug, PartialEq)]
pub struct Device {
    /// The name of the device in its topics.
    pub id: String,
    /// The name that people know it by.
    pub name: String,
    /// Whose it is; may be empty.
    pub company: String,
    /// The folder of its sketch; empty for the default one.
    pub sketch_dir: String,
    /// Its topics.
    pub topics: Topics,
    /// The version that was last deployed to it.
    pub desired_version: String,
    /// Who deployed that version.
    pub last_deploy_by: String,
    /// Who registered it.
    pub added_by: String,
    /// When it was registered.
    pub added_at: String,
    /// Labels for people to find it by.
    pub tags: Vec<String>,
}

/// What a [`Device`] holds.
#[verifier::ext_equal]
pub struct DeviceView {
    pub id: Seq<char>,
    pub name: Seq<char>,
    pub company: Seq<char>,
    pub sketch_dir: Seq<char>,
    pub topics: TopicsView,
    pub desired_version: Seq<char>,
    pub last_deploy_by: Seq<char>,
    pub added_by: Seq<char>,
    pub added_at: Seq<char>,
    pub tags: Seq<Seq<char>>,
}

impl View for Device {
    type V = DeviceView;

    open spec fn view(&self) -> DeviceView {
        DeviceView {
            id: self.id@,
            name: self.name@,
            company: self.company@,
            sketch_dir: self.sketch_dir@,
            topics: self.topics@,
            desired_version: self.desired_version@,
            last_deploy_by: self.last_deploy_by@,
            added_by: self.added_by@,
            added_at: self.added_at@,
            tags: views(self.tags@),
        }
    }
}

impl Clone for Device {
    fn clone(&self) -> (r: Self)
        ensures
            r@ == self@,
    {
        Device {
            id: self.id.clone(),
            name: self.name.clone(),
            company: self.company.clone(),
            sketch_dir: self.sketch_dir.clone(),
            topics: self.topics.clone(),
            desired_version: self.desired_version.clone(),
            last_deploy_by: self.last_deploy_by.clone(),
            added_by: self.added_by.clone(),
            added_at: self.added_at.clone(),
            tags: clone_strings(&self.tags),
        }
    }
}

/// One deployment that was sent out.
#[derive(Debug, PartialEq)]
pub struct DeployRecord {
    /// The device.
    pub device_id: String,
    /// Its name at the time.
    pub device_name: String,
    /// The version sent.
    pub version: String,
    /// Who sent it.
    pub deployed_by: String,
    /// When.
    pub deployed_at: String,
    /// Where the firmware was put.
    pub firmware_url: String,
}

/// What a [`DeployRecord`] holds.
#[verifier::ext_equal]
pub struct RecordView {
    pub device_id: Seq<char>,
    pub device_name: Seq<char>,
    pub version: Seq<char>,
    pub deployed_by: Seq<char>,
    pub deployed_at: Seq<char>,
    pub firmware_url: Seq<char>,
}

impl View for DeployRecord {
    type V = RecordView;

    open spec fn view(&self) -> RecordView {
        RecordView {
            device_id: self.device_id@,
            device_name: self.device_name@,
            version: self.version@,
            deployed_by: self.deployed_by@,
            deployed_at: self.deployed_at@,
            firmware_url: self.firmware_url@,
        }
    }
}

impl Clone for DeployRecord {
    fn clone(&self) -> (r: Self)
        ensures
            r@ == self@,
    {
        DeployRecord {
            device_id: self.device_id.clone(),
            device_name: self.device_name.clone(),
            version: self.version.clone(),
            deployed_by: self.deployed_by.clone(),
            deployed_at: self.deployed_at.clone(),
            firmware_url: self.firmware_url.clone(),
        }
    }
}

/// The devices, and what was deployed to them.
#[derive(Debug, PartialEq)]
pub struct FleetState {
    /// The devices, in the order in which they were added.
    pub devices: Vec<Device>,
    /// The deployments, the oldest first.
    pub deploy_history: Vec<DeployRecord>,
}

/// What a [`FleetState`] holds.
#[verifier::ext_equal]
pub struct FleetView {
    pub devices: Seq<DeviceView>,
    pub deploy_history: Seq<RecordView>,
}

impl View for FleetState {
    type V = FleetView;

    open spec fn view(&self) -> FleetView {
        FleetView {
            devices: views(self.devices@),
            deploy_history: views(self.deploy_history@),
        }
    }
}

impl Clone for FleetState {
    fn clone(&self) -> (r: Self)
        ensures
            r@ == self@,
    {
        FleetState {
            devices: clone_devices(&self.devices),
            deploy_history: clone_records(&self.deploy_history),
        }
    }
}

/// The settings.
#[derive(Debug, PartialEq)]
pub struct AppConfig {
    /// The service that keeps the fleet and takes firmware.
    pub worker_url: String,
    /// The key to that service.
    pub worker_token: String,
    /// The folder that holds the sketches.
    pub sketch_root: String,
    /// The board that sketches are compiled for.
    pub fqbn: String,
    /// The MQTT broker.
    pub mqtt_host: String,
    /// Its port.
    pub mqtt_port: u16,
    /// The user at the broker.
    pub mqtt_user: String,
    /// That user's password.
    pub mqtt_pass: String,
    /// The host that serves firmware over plain HTTP; empty for none.
    pub vps_host: String,
    /// The key file for copying to that host; empty for none.
    pub vps_key: String,
    /// The folder on that host.
    pub vps_firmware_dir: String,
    /// The address of that folder.
    pub vps_firmware_url: String,
}

/// What an [`AppConfig`] holds.
#[verifier::ext_equal]
pub struct ConfigView {
    pub worker_url: Seq<char>,
    pub worker_token: Seq<char>,
    pub sketch_root: Seq<char>,
    pub fqbn: Seq<char>,
    pub mqtt_host: Seq<char>,
    pub mqtt_port: u16,
    pub mqtt_user: Seq<char>,
    pub mqtt_pass: Seq<char>,
    pub vps_host: Seq<char>,
    pub vps_key: Seq<char>,
    pub vps_firmware_dir: Seq<char>,
    pub vps_firmware_url: Seq<char>,
}

impl View for AppConfig {
    type V = ConfigView;

    open spec fn view(&self) -> ConfigView {
        ConfigView {
            worker_url: self.worker_url@,
            worker_token: self.worker_token@,
            sketch_root: self.sketch_root@,
            fqbn: self.fqbn@,
            mqtt_host: self.mqtt_host@,
            mqtt_port: self.mqtt_port,
            mqtt_user: self.mqtt_user@,
            mqtt_pass: self.mqtt_pass@,
            vps_host: self.vps_host@,
            vps_key: self.vps_key@,
            vps_firmware_dir: self.vps_firmware_dir@,
            vps_firmware_url: self.vps_firmware_url@,
        }
    }
}

impl Clone for AppConfig {
    fn clone(&self) -> (r: Self)
        ensures
            r@ == self@,
    {
        AppConfig {
            worker_url: self.worker_url.clone(),
            worker_token: self.worker_token.clone(),
            sketch_root: self.sketch_root.clone(),
            fqbn: self.fqbn.clone(),
            mqtt_host: self.mqtt_host.clone(),
            mqtt_port: self.mqtt_port,
            mqtt_user: self.mqtt_user.clone(),
            mqtt_pass: self.mqtt_pass.clone(),
            vps_host: self.vps_host.clone(),
            vps_key: self.vps_key.clone(),
            vps_firmware_dir: self.vps_firmware_dir.clone(),
            vps_firmware_url: self.vps_firmware_url.clone(),
        }
    }
}

/// How a line of output is shown.
#[derive(Debug, Clone, Copy, PartialEq, Eq, Structural)]
pub enum LogLevel {
    Normal,
    Info,
    Success,
    Error,
}

impl View for LogLevel {
    type V = LogLevel;

    open spec fn view(&self) -> LogLevel {
        *self
    }
}

/// Which field a chosen folder is meant for.
#[derive(Debug, Clone, Copy, PartialEq, Eq, Structural)]
pub enum FolderPickCtx {
    DeploySketch,
    AddDeviceSketch,
    SettingsSketchRoot,
}

/// How the devices are laid out.
#[derive(Debug, Clone, Copy, PartialEq, Eq, Structural)]
pub enum ViewMode {
    Cards,
    List,
}

/// The two pages of the main window.
#[derive(Debug, Clone, Copy, PartialEq, Eq, Structural)]
pub enum Tab {
    Devices,
    History,
}

/// How far a deployment is.
#[derive(Debug, PartialEq)]
pub enum DeployPhase {
    Form,
    Compiling,
    Uploading,
    Publishing,
    Waiting,
    Done,
    Failed(String),
}

/// What a [`DeployPhase`] holds.
pub enum PhaseView {
    Form,
    Compiling,
    Uploading,
    Publishing,
    Waiting,
    Done,
    Failed(Seq<char>),
}

impl View for DeployPhase {
    type V = PhaseView;

    open spec fn view(&self) -> PhaseView {
        match self {
            DeployPhase::Form => PhaseView::Form,
            DeployPhase::Compiling => PhaseView::Compiling,
            DeployPhase::Uploading => PhaseView::Uploading,
            DeployPhase::Publishing => PhaseView::Publishing,
            DeployPhase::Waiting => PhaseView::Waiting,
            DeployPhase::Done => PhaseView::Done,
            DeployPhase::Failed(e) => PhaseView::Failed(e@),
        }
    }
}

impl Clone for DeployPhase {
    fn clone(&self) -> (r: Self)
        ensures
            r@ == self@,
    {
        match self {
            DeployPhase::Form => DeployPhase::Form,
            DeployPhase::Compiling => DeployPhase::Compiling,
            DeployPhase::Uploading => DeployPhase::Uploading,
            DeployPhase::Publishing => DeployPhase::Publishing,
            DeployPhase::Waiting => DeployPhase::Waiting,
            DeployPhase::Done => DeployPhase::Done,
            DeployPhase::Failed(e) => DeployPhase::Failed(e.clone()),
        }
    }
}

/// How far the one build that the devices of a sketch share is.
#[derive(Debug, PartialEq)]
pub enum SketchBuildState {
    Pending,
    Compiling,
    Done(String),
    Uploading,
    Uploaded(String),
    Failed(String),
}

/// What a [`SketchBuildState`] holds.
pub enum BuildView {
    Pending,
    Compiling,
    Done(Seq<char>),
    Uploading,
    Uploaded(Seq<char>),
    Failed(Seq<char>),
}

impl View for SketchBuildState {
    type V = BuildView;

    open spec fn view(&self) -> BuildView {
        match self {
            SketchBuildState::Pending => BuildView::Pending,
            SketchBuildState::Compiling => BuildView::Compiling,
            SketchBuildState::Done(p) => BuildView::Done(p@),
            SketchBuildState::Uploading => BuildView::Uploading,
            SketchBuildState::Uploaded(u) => BuildView::Uploaded(u@),
            SketchBuildState::Failed(e) => BuildView::Failed(e@),
        }
    }
}

/// What the flasher is told by its background work and by the broker.
#[derive(Debug, Clone, PartialEq)]
pub enum AppEvent {
    /// The broker accepted the connection.
    MqttConnected,
    /// The connection to the broker is gone.
    MqttDisconnected,
    /// A device reported its status.
    MqttStatus { device_id: String, status: String },
    /// The fleet was fetched.
    FleetLoaded(FleetState),
    /// The fleet was stored.
    FleetSaved,
    /// The compiler printed a line.
    CompileOutput { line: String, level: LogLevel },
    /// A compilation is over; a successful one names its binary.
    CompileDone { success: bool, bin_path: Option<String> },
    /// The firmware can be fetched from `url`.
    UploadDone { url: String },
    /// The device was told where its firmware is.
    OtaPublished,
    /// A folder was chosen.
    FolderPicked { context: FolderPickCtx, path: String },
    /// Something went wrong.
    Error(String),
    /// The compiler printed a line about a sketch of the bulk deployment.
    BulkCompileOutput { sketch_dir: String, line: String, level: LogLevel },
    /// The compilation of a sketch of the bulk deployment is over.
    BulkCompileDone { sketch_dir: String, success: bool, bin_path: Option<String> },
    /// The firmware of a sketch of the bulk deployment can be fetched.
    BulkUploadDone { sketch_dir: String, url: String },
    /// A device of the bulk deployment is through.
    BulkOtaPublished { device_id: String },
}

/// The deployment to one device that is on screen.
#[derive(Debug, PartialEq)]
pub struct DeployState {
    /// The device.
    pub device_id: String,
    /// Its name.
    pub device_name: String,
    /// Who deploys.
    pub deployer_name: String,
    /// The version to deploy.
    pub new_version: String,
    /// The folder of the sketch.
    pub sketch_dir: String,
    /// How far it is.
    pub phase: DeployPhase,
    /// The output so far.
    pub log_lines: Vec<(String, LogLevel)>,
    /// The binary, once it is built.
    pub bin_path: Option<String>,
    /// The address of the firmware, once it is uploaded.
    pub firmware_url: Option<String>,
}

/// What a [`DeployState`] holds.
#[verifier::ext_equal]
pub struct DeployView {
    pub device_id: Seq<char>,
    pub device_name: Seq<char>,
    pub deployer_name: Seq<char>,
    pub new_version: Seq<char>,
    pub sketch_dir: Seq<char>,
    pub phase: PhaseView,
    pub log_lines: Seq<(Seq<char>, LogLevel)>,
    pub bin_path: Option<Seq<char>>,
    pub firmware_url: Option<Seq<char>>,
}

impl View for DeployState {
    type V = DeployView;

    open spec fn view(&self) -> DeployView {
        DeployView {
            device_id: self.device_id@,
            device_name: self.device_name@,
            deployer_name: self.deployer_name@,
            new_version: self.new_version@,
            sketch_dir: self.sketch_dir@,
            phase: self.phase@,
            log_lines: views(self.log_lines@),
            bin_path: opt_view(self.bin_path),
            firmware_url: opt_view(self.firmware_url),
        }
    }
}

/// The form that registers a device.
#[derive(Debug, PartialEq)]
pub struct AddForm {
    /// Who registers it.
    pub by_name: String,
    /// Whose it is.
    pub company: String,
    /// Its name.
    pub device_name: String,
    /// Its name in its topics.
    pub device_id: String,
    /// The folder of its sketch.
    pub sketch_dir: String,
    /// The version that it runs.
    pub version: String,
    /// Its labels, separated by commas.
    pub tags_input: String,
    /// Why the form was refused; empty if it was not.
    pub error: String,
}

/// What an [`AddForm`] holds.
#[verifier::ext_equal]
pub struct AddFormView {
    pub by_name: Seq<char>,
    pub company: Seq<char>,
    pub device_name: Seq<char>,
    pub device_id: Seq<char>,
    pub sketch_dir: Seq<char>,
    pub version: Seq<char>,
    pub tags_input: Seq<char>,
    pub error: Seq<char>,
}

impl View for AddForm {
    type V = AddFormView;

    open spec fn view(&self) -> AddFormView {
        AddFormView {
            by_name: self.by_name@,
            company: self.company@,
            device_name: self.device_name@,
            device_id: self.device_id@,
            sketch_dir: self.sketch_dir@,
            version: self.version@,
            tags_input: self.tags_input@,
            error: self.error@,
        }
    }
}

/// A message that is shown for a while.
#[derive(Debug, PartialEq)]
pub struct Notif {
    /// The message.
    pub msg: String,
    /// It tells of an error.
    pub is_err: bool,
    /// When it came, in milliseconds of a clock that never goes back.
    pub at_ms: u64,
}

/// What a [`Notif`] holds.
#[verifier::ext_equal]
pub struct NotifView {
    pub msg: Seq<char>,
    pub is_err: bool,
    pub at_ms: u64,
}

impl View for Notif {
    type V = NotifView;

    open spec fn view(&self) -> NotifView {
        NotifView {
            msg: self.msg@,
            is_err: self.is_err,
            at_ms: self.at_ms,
        }
    }
}

/// One device of the bulk deployment.
#[derive(Debug, PartialEq)]
pub struct DeviceBulkDeploy {
    /// The device.
    pub device_id: String,
    /// Its name.
    pub device_name: String,
    /// The folder of its sketch.
    pub sketch_dir: String,
    /// How far it is.
    pub phase: DeployPhase,
    /// Its output.
    pub log: Vec<(String, LogLevel)>,
}

/// What a [`DeviceBulkDeploy`] holds.
#[verifier::ext_equal]
pub struct DeviceBulkView {
    pub device_id: Seq<char>,
    pub device_name: Seq<char>,
    pub sketch_dir: Seq<char>,
    pub phase: PhaseView,
    pub log: Seq<(Seq<char>, LogLevel)>,
}

impl View for DeviceBulkDeploy {
    type V = DeviceBulkView;

    open spec fn view(&self) -> DeviceBulkView {
        DeviceBulkView {
            device_id: self.device_id@,
            device_name: self.device_name@,
            sketch_dir: self.sketch_dir@,
            phase: self.phase@,
            log: views(self.log@),
        }
    }
}

/// The deployment to many devices at once.
pub struct BulkDeployState {
    /// Who deploys.
    pub deployer_name: String,
    /// The version to deploy.
    pub new_version: String,
    /// The devices.
    pub devices: Vec<DeviceBulkDeploy>,
    /// The build of each sketch, under the folder of the sketch.
    pub sketch_builds: StringHashMap<SketchBuildState>,
    /// The name in the form.
    pub form_deployer: String,
    /// The version in the form.
    pub form_version: String,
    /// The form is still open: nothing was started.
    pub show_form: bool,
}

/// What a [`BulkDeployState`] holds.
#[verifier::ext_equal]
pub struct BulkView {
    pub deployer_name: Seq<char>,
    pub new_version: Seq<char>,
    pub devices: Seq<DeviceBulkView>,
    pub sketch_builds: Map<Seq<char>, BuildView>,
    pub form_deployer: Seq<char>,
    pub form_version: Seq<char>,
    pub show_form: bool,
}

/// The views of the values of a map.
pub open spec fn map_views<T: View>(m: Map<Seq<char>, T>) -> Map<Seq<char>, T::V> {
    m.map_values(|t: T| t.view())
}

/// Views distribute over `insert`.
pub broadcast proof fn lemma_map_views_insert<T: View>(m: Map<Seq<char>, T>, k: Seq<char>, t: T)
    ensures
        #[trigger] map_views(m.insert(k, t)) == map_views(m).insert(k, t.view()),
{
    assert(map_views(m.insert(k, t)) =~= map_views(m).insert(k, t.view()));
}

impl View for BulkDeployState {
    type V = BulkView;

    open spec fn view(&self) -> BulkView {
        BulkView {
            deployer_name: self.deployer_name@,
            new_version: self.new_version@,
            devices: views(self.devices@),
            sketch_builds: map_views(self.sketch_builds@),
            form_deployer: self.form_deployer@,
            form_version: self.form_version@,
            show_form: self.show_form,
        }
    }
}

/// Copies a list of strings.
pub fn clone_strings(v: &Vec<String>) -> (r: Vec<String>)
    ensures
        views(r@) == views(v@),
{
    broadcast use lemma_views_push;

    let mut r: Vec<String> = Vec::new();
    let mut i: usize = 0;
    while i < v.len()
        invariant
            i <= v@.len(),
            views(r@) == views(v@).take(i as int),
        decreases v.len() - i,
    {
        r.push(v[i].clone());
        assert(views(v@).take(i + 1) =~= views(v@).take(i as int).push(v@[i as int]@));
        i = i + 1;
    }
    assert(views(v@).take(v@.len() as int) =~= views(v@));
    r
}

/// Copies a list of devices.
pub fn clone_devices(v: &Vec<Device>) -> (r: Vec<Device>)
    ensures
        views(r@) == views(v@),
{
    broadcast use lemma_views_push;

    let mut r: Vec<Device> = Vec::new();
    let mut i: usize = 0;
    while i < v.len()
        invariant
            i <= v@.len(),
            views(r@) == views(v@).take(i as int),
        decreases v.len() - i,
    {
        r.push(v[i].clone());
        assert(views(v@).take(i + 1) =~= views(v@).take(i as int).push(v@[i as int]@));
        i = i + 1;
    }
    assert(views(v@).take(v@.len() as int) =~= views(v@));
    r
}

/// Copies a list of deployments.
pub fn clone_records(v: &Vec<DeployRecord>) -> (r: Vec<DeployRecord>)
    ensures
        views(r@) == views(v@),
{
    broadcast use lemma_views_push;

    let mut r: Vec<DeployRecord> = Vec::new();
    let mut i: usize = 0;
    while i < v.len()
        invariant
            i <= v@.len(),
            views(r@) == views(v@).take(i as int),
        decreases v.len() - i,
    {
        r.push(v[i].clone());
        assert(views(v@).take(i + 1) =~= views(v@).take(i as int).push(v@[i as int]@));
        i = i + 1;
    }
    assert(views(v@).take(v@.len() as int) =~= views(v@));
    r
}

} // verus!
