//! The state of the flasher, and how events change it.
use vstd::hash_map::StringHashMap;
use vstd::hash_set::StringHashSet;
use vstd::prelude::*;
use vstd::string::*;
use crate::compile::sketch_name;
use crate::model::{
    devices_confirmed, devices_deployed, devices_done, disconnects, job_of, names_binary, notified,
    on_bulk_compile_done, on_bulk_compile_output, on_bulk_ota_published, on_bulk_upload_done, on_compile_done,
    on_compile_output, on_disconnected, on_error, on_folder_picked, on_ota_published, on_status,
    on_upload_done, save_of, run, step, triggers, with_line, with_phase, ActionView, AppView,
};
use crate::outside::utc_now;
use crate::text::{lemma_views_push, opt_view, same, views};
use crate::topics::topic;
use crate::types::{
    lemma_map_views_insert, map_views, AddForm, AppConfig, AppEvent, BulkDeployState, DeployPhase,
    DeployRecord, DeployState, Device, DeviceBulkDeploy, FleetState, FolderPickCtx, LogLevel, Notif,
    SketchBuildState, Tab, ViewMode,
};
use crate::version::is_confirmation;
use crate::worker::UploadJob;

verus! {

/// The state of the flasher.
pub struct App {
    /// The settings in force.
    pub config: AppConfig,
    /// The fleet.
    pub fleet: FleetState,
    /// The fleet was fetched at least once.
    pub fleet_loaded: bool,
    /// The broker accepted the connection.
    pub mqtt_connected: bool,
    /// The last status of each device that reported one.
    pub mqtt_status: StringHashMap<String>,
    /// The page on screen.
    pub tab: Tab,
    /// The deployment to one device.
    pub deploy: Option<DeployState>,
    /// The form that registers a device is open.
    pub show_add: bool,
    /// That form.
    pub add_form: AddForm,
    /// The settings are open.
    pub show_settings: bool,
    /// The settings as they are being edited.
    pub settings_buf: AppConfig,
    /// The message on screen.
    pub notif: Option<Notif>,
    /// A dialog for choosing a folder is open.
    pub picking_folder: bool,
    /// The generation of the connection: only the latest may reconnect.
    pub mqtt_gen: u64,
    /// The settings have yet to be made.
    pub first_run: bool,
    /// What the list of devices is searched for.
    pub search_query: String,
    /// How the devices are laid out.
    pub view_mode: ViewMode,
    /// The ids of the devices that are selected.
    pub selected: StringHashSet,
    /// The deployment to many devices.
    pub bulk_deploy: Option<BulkDeployState>,
}

impl View for App {
    type V = AppView;

    open spec fn view(&self) -> AppView {
        AppView {
            config: self.config@,
            fleet: self.fleet@,
            fleet_loaded: self.fleet_loaded,
            mqtt_connected: self.mqtt_connected,
            mqtt_status: map_views(self.mqtt_status@),
            tab: self.tab,
            deploy: opt_view(self.deploy),
            show_add: self.show_add,
            add_form: self.add_form@,
            show_settings: self.show_settings,
            settings_buf: self.settings_buf@,
            notif: opt_view(self.notif),
            picking_folder: self.picking_folder,
            mqtt_gen: self.mqtt_gen,
            first_run: self.first_run,
            search_query: self.search_query@,
            view_mode: self.view_mode,
            selected: self.selected@,
            bulk_deploy: opt_view(self.bulk_deploy),
        }
    }
}

/// What the state asks the program around it to do.
#[derive(Debug, PartialEq)]
pub enum Action {
    /// Connect to the broker.
    Connect { config: AppConfig },
    /// Connect after a while, if `generation` is still the latest by then.
    ReconnectLater { generation: u64, config: AppConfig },
    /// Forget the connection to the broker.
    DropClient,
    /// Publish a message, if there is a connection.
    Publish { topic: String, payload: String, retain: bool },
    /// Report [`AppEvent::OtaPublished`].
    ReportPublished,
    /// Fetch the fleet.
    LoadFleet { worker_url: String, token: String },
    /// Store the fleet.
    SaveFleet { fleet: FleetState, worker_url: String, token: String },
    /// Store the settings.
    SaveConfig { config: AppConfig },
    /// Compile the sketch of the deployment to one device.
    Compile { sketch_dir: String, version: String, fqbn: String },
    /// Compile a sketch of the bulk deployment.
    BulkCompile { sketch_dir: String, version: String, fqbn: String },
    /// Upload the binary for one device.
    Upload { job: UploadJob },
    /// Upload the binary of a sketch of the bulk deployment.
    BulkUpload { sketch_dir: String, job: UploadJob },
    /// Let a folder be chosen.
    PickFolder { context: FolderPickCtx },
    /// Draw the windows again.
    Repaint,
}

impl View for Action {
    type V = ActionView;

    open spec fn view(&self) -> ActionView {
        match self {
            Action::Connect { config } => ActionView::Connect { config: config@ },
            Action::ReconnectLater { generation, config } => ActionView::ReconnectLater {
                generation: *generation,
                config: config@,
            },
            Action::DropClient => ActionView::DropClient,
            Action::Publish { topic, payload, retain } => ActionView::Publish {
                topic: topic@,
                payload: payload@,
                retain: *retain,
            },
            Action::ReportPublished => ActionView::ReportPublished,
            Action::LoadFleet { worker_url, token } => ActionView::LoadFleet {
                worker_url: worker_url@,
                token: token@,
            },
            Action::SaveFleet { fleet, worker_url, token } => ActionView::SaveFleet {
                fleet: fleet@,
                worker_url: worker_url@,
                token: token@,
            },
            Action::SaveConfig { config } => ActionView::SaveConfig { config: config@ },
            Action::Compile { sketch_dir, version, fqbn } => ActionView::Compile {
                sketch_dir: sketch_dir@,
                version: version@,
                fqbn: fqbn@,
            },
            Action::BulkCompile { sketch_dir, version, fqbn } => ActionView::BulkCompile {
                sketch_dir: sketch_dir@,
                version: version@,
                fqbn: fqbn@,
            },
            Action::Upload { job } => ActionView::Upload { job: job@ },
            Action::BulkUpload { sketch_dir, job } => ActionView::BulkUpload {
                sketch_dir: sketch_dir@,
                job: job@,
            },
            Action::PickFolder { context } => ActionView::PickFolder { context: *context },
            Action::Repaint => ActionView::Repaint,
        }
    }
}

/// No action.
pub(crate) fn no_action() -> (r: Vec<Action>)
    ensures
        views(r@) == Seq::<ActionView>::empty(),
{
    let r: Vec<Action> = Vec::new();
    assert(views(r@) =~= Seq::<ActionView>::empty());
    r
}

/// A single action.
pub(crate) fn one_action(a: Action) -> (r: Vec<Action>)
    ensures
        views(r@) == seq![a@],
{
    let mut r: Vec<Action> = Vec::new();
    r.push(a);
    assert(views(r@) =~= seq![a@]);
    r
}

/// Two actions, one after the other.
pub(crate) fn two_actions(a: Action, b: Action) -> (r: Vec<Action>)
    ensures
        views(r@) == seq![a@, b@],
{
    let mut r: Vec<Action> = Vec::new();
    r.push(a);
    r.push(b);
    assert(views(r@) =~= seq![a@, b@]);
    r
}

/// A job that uploads a binary with the settings `c`.
fn upload_job(c: &AppConfig, bin_path: String, device_id: String, version: String) -> (r: UploadJob)
    ensures
        r@ == job_of(c@, bin_path@, device_id@, version@),
{
    UploadJob {
        bin_path,
        device_id,
        version,
        worker_url: c.worker_url.clone(),
        token: c.worker_token.clone(),
        vps_host: c.vps_host.clone(),
        vps_key: c.vps_key.clone(),
        vps_firmware_dir: c.vps_firmware_dir.clone(),
        vps_firmware_url: c.vps_firmware_url.clone(),
    }
}

impl App {
    /// Asks for the fleet to be stored as it is.
    pub fn save_fleet(&self) -> (r: Action)
        ensures
            r@ == save_of(self@.fleet, self@.config),
    {
        Action::SaveFleet {
            fleet: self.fleet.clone(),
            worker_url: self.config.worker_url.clone(),
            token: self.config.worker_token.clone(),
        }
    }

    /// Shows a message from now on.
    pub fn notify(&mut self, msg: String, is_err: bool, at_ms: u64)
        ensures
            final(self)@ == notified(old(self)@, msg@, is_err, at_ms),
    {
        self.notif = Some(Notif { msg, is_err, at_ms });
        assert(self@ =~= notified(old(self)@, msg@, is_err, at_ms));
    }

    fn handle_disconnected(&mut self) -> (r: Vec<Action>)
        requires
            old(self).mqtt_gen < u64::MAX,
        ensures
            (final(self)@, views(r@)) == on_disconnected(old(self)@),
    {
        self.mqtt_connected = false;
        self.mqtt_gen = self.mqtt_gen + 1;
        assert(self@ =~= on_disconnected(old(self)@).0);
        one_action(
            Action::ReconnectLater { generation: self.mqtt_gen, config: self.config.clone() },
        )
    }

    fn handle_compile_done(&mut self, success: bool, bin_path: Option<String>) -> (r: Vec<Action>)
        requires
            success ==> bin_path is Some,
        ensures
            (final(self)@, views(r@)) == on_compile_done(old(self)@, success, opt_view(bin_path)),
    {
        broadcast use lemma_views_push;

        if let Some(d) = &mut self.deploy {
            if success {
                let bin: String = match &bin_path {
                    Some(p) => p.clone(),
                    None => String::new(),
                };
                let job: UploadJob = upload_job(
                    &self.config,
                    bin,
                    d.device_id.clone(),
                    d.new_version.clone(),
                );
                d.phase = DeployPhase::Uploading;
                d.bin_path = bin_path;
                d.log_lines.push(("Uploading to Cloudflare R2 + VPS…".to_owned(), LogLevel::Info));
                assert(self@ =~= on_compile_done(old(self)@, success, opt_view(bin_path)).0);
                return one_action(Action::Upload { job });
            } else {
                d.phase = DeployPhase::Failed("Compilation failed".to_owned());
            }
        }
        assert(self@ =~= on_compile_done(old(self)@, success, opt_view(bin_path)).0);
        no_action()
    }

    fn handle_status(&mut self, device_id: String, status: String) -> (r: Vec<Action>)
        ensures
            (final(self)@, views(r@)) == on_status(old(self)@, device_id@, status@),
    {
        broadcast use {lemma_views_push, lemma_map_views_insert};

        self.mqtt_status.insert(device_id.clone(), status.clone());
        if let Some(b) = &mut self.bulk_deploy {
            confirm_devices(&mut b.devices, b.new_version.as_str(), &device_id, &status);
        }
        if let Some(d) = &mut self.deploy {
            let waiting: bool = match d.phase {
                DeployPhase::Waiting => true,
                _ => false,
            };
            if waiting && same(&d.device_id, &device_id) && is_confirmation(
                &status,
                &d.new_version,
            ) {
                d.phase = DeployPhase::Done;
                d.log_lines.push(
                    ("✓ Device confirmed: ".to_owned().concat(&status), LogLevel::Success),
                );
                assert(self@ =~= on_status(old(self)@, device_id@, status@).0);
                return one_action(
                    Action::Publish {
                        topic: topic(&device_id, "ota"),
                        payload: String::new(),
                        retain: true,
                    },
                );
            }
        }
        assert(self@ =~= on_status(old(self)@, device_id@, status@).0);
        no_action()
    }

    fn handle_compile_output(&mut self, line: String, level: LogLevel)
        ensures
            final(self)@ == on_compile_output(old(self)@, line@, level),
    {
        broadcast use lemma_views_push;

        if let Some(d) = &mut self.deploy {
            d.log_lines.push((line, level));
        }
        assert(self@ =~= on_compile_output(old(self)@, line@, level));
    }

    fn handle_upload_done(&mut self, url: String) -> (r: Vec<Action>)
        ensures
            (final(self)@, views(r@)) == on_upload_done(old(self)@, url@),
    {
        broadcast use lemma_views_push;

        if let Some(d) = &mut self.deploy {
            d.phase = DeployPhase::Publishing;
            d.firmware_url = Some(url.clone());
            d.log_lines.push(("✓ Uploaded → ".to_owned().concat(&url), LogLevel::Success));
            d.log_lines.push(("Publishing OTA trigger…".to_owned(), LogLevel::Info));
            let ota: String = topic(&d.device_id, "ota");
            assert(self@ =~= on_upload_done(old(self)@, url@).0);
            return two_actions(
                Action::Publish { topic: ota, payload: url, retain: true },
                Action::ReportPublished,
            );
        }
        assert(self@ =~= on_upload_done(old(self)@, url@).0);
        no_action()
    }

    fn handle_ota_published(&mut self, stamp: String) -> (r: Vec<Action>)
        ensures
            (final(self)@, views(r@)) == on_ota_published(old(self)@, stamp@),
    {
        broadcast use lemma_views_push;

        if let Some(d) = &mut self.deploy {
            d.phase = DeployPhase::Waiting;
            d.log_lines.push(
                (
                    "✓ OTA trigger sent (retained) — waiting for device…".to_owned(),
                    LogLevel::Success,
                ),
            );
            let url: String = match &d.firmware_url {
                Some(u) => u.clone(),
                None => String::new(),
            };
            note_deployed(&mut self.fleet.devices, &d.device_id, &d.new_version, &d.deployer_name);
            self.fleet.deploy_history.push(
                DeployRecord {
                    device_id: d.device_id.clone(),
                    device_name: d.device_name.clone(),
                    version: d.new_version.clone(),
                    deployed_by: d.deployer_name.clone(),
                    deployed_at: stamp,
                    firmware_url: url,
                },
            );
            assert(self@ =~= on_ota_published(old(self)@, stamp@).0);
            return one_action(self.save_fleet());
        }
        assert(self@ =~= on_ota_published(old(self)@, stamp@).0);
        no_action()
    }

    fn handle_folder_picked(&mut self, context: FolderPickCtx, path: String)
        ensures
            final(self)@ == on_folder_picked(old(self)@, context, path@),
    {
        match context {
            FolderPickCtx::DeploySketch => {
                if let Some(d) = &mut self.deploy {
                    d.sketch_dir = path;
                }
            },
            FolderPickCtx::AddDeviceSketch => {
                self.add_form.sketch_dir = path;
            },
            FolderPickCtx::SettingsSketchRoot => {
                self.settings_buf.sketch_root = path;
            },
        }
        assert(self@ =~= on_folder_picked(old(self)@, context, path@));
    }

    fn handle_error(&mut self, e: String, at_ms: u64)
        ensures
            final(self)@ == on_error(old(self)@, e@, at_ms),
    {
        self.notify(e.clone(), true, at_ms);
        if let Some(d) = &mut self.deploy {
            let under_way: bool = match d.phase {
                DeployPhase::Form => false,
                DeployPhase::Done => false,
                DeployPhase::Failed(_) => false,
                _ => true,
            };
            if under_way {
                d.phase = DeployPhase::Failed(e);
            }
        }
        self.picking_folder = false;
        assert(self@ =~= on_error(old(self)@, e@, at_ms));
    }

    fn handle_bulk_compile_output(&mut self, sketch_dir: String, line: String, level: LogLevel)
        ensures
            final(self)@ == on_bulk_compile_output(old(self)@, sketch_dir@, line@, level),
    {
        if let Some(b) = &mut self.bulk_deploy {
            add_line(&mut b.devices, &sketch_dir, &line, level);
        }
        assert(self@ =~= on_bulk_compile_output(old(self)@, sketch_dir@, line@, level));
    }

    fn handle_bulk_compile_done(
        &mut self,
        sketch_dir: String,
        success: bool,
        bin_path: Option<String>,
    ) -> (r: Vec<Action>)
        ensures
            (final(self)@, views(r@)) == on_bulk_compile_done(
                old(self)@,
                sketch_dir@,
                success,
                opt_view(bin_path),
            ),
    {
        broadcast use lemma_map_views_insert;

        let ghost expected = on_bulk_compile_done(
            old(self)@,
            sketch_dir@,
            success,
            opt_view(bin_path),
        ).0;
        if let Some(b) = &mut self.bulk_deploy {
            if success {
                if let Some(path) = bin_path {
                    b.sketch_builds.insert(sketch_dir.clone(), SketchBuildState::Done(path.clone()));
                    set_phase(&mut b.devices, &sketch_dir, &DeployPhase::Uploading);
                    add_line(
                        &mut b.devices,
                        &sketch_dir,
                        "Uploading to Cloudflare R2 + VPS…",
                        LogLevel::Info,
                    );
                    let job: UploadJob = upload_job(
                        &self.config,
                        path,
                        sketch_name(&sketch_dir),
                        b.new_version.clone(),
                    );
                    assert(self@ =~= expected);
                    return two_actions(Action::BulkUpload { sketch_dir, job }, Action::Repaint);
                }
            } else {
                b.sketch_builds.insert(
                    sketch_dir.clone(),
                    SketchBuildState::Failed("Compile failed".to_owned()),
                );
                set_phase(
                    &mut b.devices,
                    &sketch_dir,
                    &DeployPhase::Failed("Compile failed".to_owned()),
                );
            }
            assert(self@ =~= expected);
            return one_action(Action::Repaint);
        }
        assert(self@ =~= expected);
        no_action()
    }

    fn handle_bulk_upload_done(&mut self, sketch_dir: String, url: String) -> (r: Vec<Action>)
        ensures
            (final(self)@, views(r@)) == on_bulk_upload_done(old(self)@, sketch_dir@, url@),
    {
        broadcast use {lemma_views_push, lemma_map_views_insert};

        if let Some(b) = &mut self.bulk_deploy {
            b.sketch_builds.insert(sketch_dir.clone(), SketchBuildState::Uploaded(url.clone()));
            let mut r: Vec<Action> = trigger_actions(&b.devices, &sketch_dir, &url);
            set_phase(&mut b.devices, &sketch_dir, &DeployPhase::Waiting);
            let line: String = "✓ Uploaded → ".to_owned().concat(&url);
            add_line(&mut b.devices, &sketch_dir, &line, LogLevel::Success);
            r.push(Action::Repaint);
            assert(self@ =~= on_bulk_upload_done(old(self)@, sketch_dir@, url@).0);
            return r;
        }
        assert(self@ =~= on_bulk_upload_done(old(self)@, sketch_dir@, url@).0);
        no_action()
    }

    fn handle_bulk_ota_published(&mut self, device_id: String) -> (r: Vec<Action>)
        ensures
            (final(self)@, views(r@)) == on_bulk_ota_published(old(self)@, device_id@),
    {
        if let Some(b) = &mut self.bulk_deploy {
            finish_devices(&mut b.devices, &device_id);
            assert(self@ =~= on_bulk_ota_published(old(self)@, device_id@).0);
            return one_action(Action::Repaint);
        }
        assert(self@ =~= on_bulk_ota_published(old(self)@, device_id@).0);
        no_action()
    }

    /// Handles an event at a given time: `stamp` is what is put on record, `at_ms` what messages
    /// are timed by.
    pub fn handle_event_at(&mut self, ev: AppEvent, stamp: String, at_ms: u64) -> (r: Vec<Action>)
        requires
            ev is MqttDisconnected ==> old(self).mqtt_gen < u64::MAX,
            old(self).deploy is Some ==> names_binary(ev),
        ensures
            (final(self)@, views(r@)) == step(old(self)@, ev, stamp@, at_ms),
    {
        match ev {
            AppEvent::MqttConnected => {
                self.mqtt_connected = true;
                assert(self@ =~= step(old(self)@, ev, stamp@, at_ms).0);
            },
            AppEvent::MqttDisconnected => {
                return self.handle_disconnected();
            },
            AppEvent::MqttStatus { device_id, status } => {
                return self.handle_status(device_id, status);
            },
            AppEvent::FleetLoaded(f) => {
                self.fleet = f;
                self.fleet_loaded = true;
                assert(self@ =~= step(old(self)@, ev, stamp@, at_ms).0);
            },
            AppEvent::FleetSaved => {},
            AppEvent::CompileOutput { line, level } => {
                self.handle_compile_output(line, level);
            },
            AppEvent::CompileDone { success, bin_path } => {
                if self.deploy.is_some() {
                    return self.handle_compile_done(success, bin_path);
                }
            },
            AppEvent::UploadDone { url } => {
                return self.handle_upload_done(url);
            },
            AppEvent::OtaPublished => {
                return self.handle_ota_published(stamp);
            },
            AppEvent::FolderPicked { context, path } => {
                self.handle_folder_picked(context, path);
            },
            AppEvent::Error(e) => {
                self.handle_error(e, at_ms);
            },
            AppEvent::BulkCompileOutput { sketch_dir, line, level } => {
                self.handle_bulk_compile_output(sketch_dir, line, level);
            },
            AppEvent::BulkCompileDone { sketch_dir, success, bin_path } => {
                return self.handle_bulk_compile_done(sketch_dir, success, bin_path);
            },
            AppEvent::BulkUploadDone { sketch_dir, url } => {
                return self.handle_bulk_upload_done(sketch_dir, url);
            },
            AppEvent::BulkOtaPublished { device_id } => {
                return self.handle_bulk_ota_published(device_id);
            },
        }
        no_action()
    }

    /// Handles an event now.
    pub fn handle_event(&mut self, ev: AppEvent, at_ms: u64) -> (r: Vec<Action>)
        requires
            ev is MqttDisconnected ==> old(self).mqtt_gen < u64::MAX,
            old(self).deploy is Some ==> names_binary(ev),
        ensures
            exists|stamp: Seq<char>|
                "+00:00"@.is_suffix_of(stamp) && (final(self)@, views(r@)) == #[trigger] step(
                    old(self)@,
                    ev,
                    stamp,
                    at_ms,
                ),
    {
        let stamp: String = utc_now();
        self.handle_event_at(ev, stamp, at_ms)
    }

    /// Handles a batch of events, one after the other.
    pub fn handle_events(&mut self, events: Vec<AppEvent>, at_ms: u64) -> (r: Vec<Action>)
        requires
            old(self).mqtt_gen + disconnects(events@) <= u64::MAX,
            old(self).deploy is Some ==> forall|i: int|
                0 <= i < events@.len() ==> names_binary(#[trigger] events@[i]),
        ensures
            exists|stamps: Seq<Seq<char>>|
                stamps.len() == events@.len() && all_utc(stamps) && (final(self)@, views(r@))
                    == #[trigger] run(old(self)@, events@, stamps, at_ms),
    {
        let ghost all = events@;
        let ghost mut stamps: Seq<Seq<char>> = Seq::empty();
        let mut r: Vec<Action> = no_action();
        for ev in it: events
            invariant
                it.seq() == all,
                stamps.len() == it.index(),
                all_utc(stamps),
                (self@, views(r@)) == run(old(self)@, all.take(it.index() as int), stamps, at_ms),
                self.mqtt_gen == old(self).mqtt_gen + disconnects(all.take(it.index() as int)),
                old(self).mqtt_gen + disconnects(all) <= u64::MAX,
                self.deploy is Some <==> old(self).deploy is Some,
                old(self).deploy is Some ==> forall|i: int|
                    0 <= i < all.len() ==> names_binary(#[trigger] all[i]),
        {
            let ghost k = it.index() as int;
            let ghost before = self@;
            proof {
                lemma_disconnects_prefix(all, k + 1);
                assert(all.take(k + 1).drop_last() =~= all.take(k));
                assert(ev == all[k]);
            }
            let mut more: Vec<Action> = self.handle_event(ev, at_ms);
            proof {
                let stamp = choose|stamp: Seq<char>|
                    "+00:00"@.is_suffix_of(stamp) && (self@, views(more@)) == #[trigger] step(
                        before,
                        ev,
                        stamp,
                        at_ms,
                    );
                let earlier = stamps;
                stamps = stamps.push(stamp);
                assert(stamps.drop_last() =~= earlier);
                assert(stamps.last() == stamp);
                law_events_keep_what_is_open(before, ev, stamp, at_ms);
                assert(views(r@ + more@) =~= views(r@) + views(more@));
            }
            r.append(&mut more);
        }
        assert(all.take(all.len() as int) =~= all);
        r
    }
}

/// The times are all in UTC.
pub open spec fn all_utc(stamps: Seq<Seq<char>>) -> bool {
    forall|i: int| 0 <= i < stamps.len() ==> "+00:00"@.is_suffix_of(#[trigger] stamps[i])
}

/// A prefix of a batch tells of no more lost connections than the batch.
proof fn lemma_disconnects_prefix(events: Seq<AppEvent>, i: int)
    requires
        0 <= i <= events.len(),
    ensures
        disconnects(events.take(i)) <= disconnects(events),
    decreases events.len() - i,
{
    if i == events.len() {
        assert(events.take(i) =~= events);
    } else {
        lemma_disconnects_prefix(events, i + 1);
        assert(events.take(i + 1).drop_last() =~= events.take(i));
    }
}

/// No event opens or closes a deployment, and only a lost connection begins a new generation.
pub proof fn law_events_keep_what_is_open(m: AppView, ev: AppEvent, stamp: Seq<char>, at_ms: u64)
    ensures
        step(m, ev, stamp, at_ms).0.deploy is Some <==> m.deploy is Some,
        step(m, ev, stamp, at_ms).0.bulk_deploy is Some <==> m.bulk_deploy is Some,
        step(m, ev, stamp, at_ms).0.mqtt_gen == if ev is MqttDisconnected {
            (m.mqtt_gen + 1) as u64
        } else {
            m.mqtt_gen
        },
{
}

/// Marks the devices done that waited for this report.
fn confirm_devices(
    devices: &mut Vec<DeviceBulkDeploy>,
    version: &str,
    device_id: &str,
    status: &str,
)
    ensures
        views(final(devices)@) == devices_confirmed(
            views(old(devices)@),
            version@,
            device_id@,
            status@,
        ),
{
    let ghost expected = devices_confirmed(views(devices@), version@, device_id@, status@);
    let mut i: usize = 0;
    while i < devices.len()
        invariant
            i <= devices@.len(),
            devices@.len() == old(devices)@.len(),
            expected == devices_confirmed(views(old(devices)@), version@, device_id@, status@),
            forall|k: int| 0 <= k < i ==> (#[trigger] devices@[k])@ == expected[k],
            forall|k: int| i <= k < devices@.len() ==> devices@[k] == old(devices)@[k],
        decreases devices.len() - i,
    {
        let waiting: bool = match devices[i].phase {
            DeployPhase::Waiting => true,
            _ => false,
        };
        if waiting && same(&devices[i].device_id, device_id) && is_confirmation(status, version) {
            devices[i].phase = DeployPhase::Done;
        }
        i = i + 1;
    }
    assert(views(devices@) =~= expected);
}

/// Puts the devices of a sketch in another phase.
pub(crate) fn set_phase(
    devices: &mut Vec<DeviceBulkDeploy>,
    sketch_dir: &str,
    phase: &DeployPhase,
)
    ensures
        views(final(devices)@) == with_phase(views(old(devices)@), sketch_dir@, phase@),
{
    let ghost expected = with_phase(views(devices@), sketch_dir@, phase@);
    let mut i: usize = 0;
    while i < devices.len()
        invariant
            i <= devices@.len(),
            devices@.len() == old(devices)@.len(),
            expected == with_phase(views(old(devices)@), sketch_dir@, phase@),
            forall|k: int| 0 <= k < i ==> (#[trigger] devices@[k])@ == expected[k],
            forall|k: int| i <= k < devices@.len() ==> devices@[k] == old(devices)@[k],
        decreases devices.len() - i,
    {
        if same(&devices[i].sketch_dir, sketch_dir) {
            devices[i].phase = phase.clone();
        }
        i = i + 1;
    }
    assert(views(devices@) =~= expected);
}

/// Adds a line to the output of the devices of a sketch.
fn add_line(devices: &mut Vec<DeviceBulkDeploy>, sketch_dir: &str, line: &str, level: LogLevel)
    ensures
        views(final(devices)@) == with_line(views(old(devices)@), sketch_dir@, line@, level),
{
    broadcast use lemma_views_push;

    let ghost expected = with_line(views(devices@), sketch_dir@, line@, level);
    let mut i: usize = 0;
    while i < devices.len()
        invariant
            i <= devices@.len(),
            devices@.len() == old(devices)@.len(),
            expected == with_line(views(old(devices)@), sketch_dir@, line@, level),
            forall|k: int| 0 <= k < i ==> (#[trigger] devices@[k])@ == expected[k],
            forall|k: int| i <= k < devices@.len() ==> devices@[k] == old(devices)@[k],
        decreases devices.len() - i,
    {
        if same(&devices[i].sketch_dir, sketch_dir) {
            devices[i].log.push((line.to_owned(), level));
        }
        i = i + 1;
    }
    assert(views(devices@) =~= expected);
}

/// Marks the devices of one id done.
fn finish_devices(devices: &mut Vec<DeviceBulkDeploy>, device_id: &str)
    ensures
        views(final(devices)@) == devices_done(views(old(devices)@), device_id@),
{
    let ghost expected = devices_done(views(devices@), device_id@);
    let mut i: usize = 0;
    while i < devices.len()
        invariant
            i <= devices@.len(),
            devices@.len() == old(devices)@.len(),
            expected == devices_done(views(old(devices)@), device_id@),
            forall|k: int| 0 <= k < i ==> (#[trigger] devices@[k])@ == expected[k],
            forall|k: int| i <= k < devices@.len() ==> devices@[k] == old(devices)@[k],
        decreases devices.len() - i,
    {
        if same(&devices[i].device_id, device_id) {
            devices[i].phase = DeployPhase::Done;
        }
        i = i + 1;
    }
    assert(views(devices@) =~= expected);
}

/// Notes with a device what was deployed to it.
fn note_deployed(devices: &mut Vec<Device>, device_id: &str, version: &str, by: &str)
    ensures
        views(final(devices)@) == devices_deployed(
            views(old(devices)@),
            device_id@,
            version@,
            by@,
        ),
{
    let ghost expected = devices_deployed(views(devices@), device_id@, version@, by@);
    let mut i: usize = 0;
    while i < devices.len()
        invariant
            i <= devices@.len(),
            devices@.len() == old(devices)@.len(),
            expected == devices_deployed(views(old(devices)@), device_id@, version@, by@),
            forall|k: int| 0 <= k < i ==> (#[trigger] devices@[k])@ == expected[k],
            forall|k: int| i <= k < devices@.len() ==> devices@[k] == old(devices)@[k],
        decreases devices.len() - i,
    {
        if same(&devices[i].id, device_id) {
            devices[i].desired_version = version.to_owned();
            devices[i].last_deploy_by = by.to_owned();
        }
        i = i + 1;
    }
    assert(views(devices@) =~= expected);
}

/// The triggers for the devices of a sketch.
fn trigger_actions(devices: &Vec<DeviceBulkDeploy>, sketch_dir: &str, url: &str) -> (r: Vec<Action>)
    ensures
        views(r@) == triggers(views(devices@), sketch_dir@, url@),
{
    broadcast use lemma_views_push;

    let ghost all = views(devices@);
    let mut r: Vec<Action> = no_action();
    let mut i: usize = 0;
    while i < devices.len()
        invariant
            i <= devices@.len(),
            all == views(devices@),
            views(r@) == triggers(all.take(i as int), sketch_dir@, url@),
        decreases devices.len() - i,
    {
        assert(all.take(i + 1).drop_last() =~= all.take(i as int));
        assert(all.take(i + 1).last() == devices@[i as int]@);
        if same(&devices[i].sketch_dir, sketch_dir) {
            r.push(
                Action::Publish {
                    topic: topic(&devices[i].device_id, "ota"),
                    payload: url.to_owned(),
                    retain: false,
                },
            );
        }
        i = i + 1;
    }
    assert(all.take(devices@.len() as int) =~= all);
    r
}

} // verus!
