//! The settings, the start of the flasher, and the messages that it shows.
use vstd::hash_map::StringHashMap;
use vstd::hash_set::StringHashSet;
use vstd::prelude::*;
use vstd::string::*;
use crate::app::{no_action, one_action, Action, App};
use crate::model::{load_of, nothing, notified, ActionView, AppView};
use crate::number::{number_in, parse_number};
use crate::outside::home_dir;
use crate::paths::{join, joined};
use crate::register::empty_form;
use crate::text::{lemma_views_push, opt_view, trim, trimmed, views};
use crate::types::{
    AddForm, AppConfig, ConfigView, DeployRecord, Device, DeviceView, FleetState, FleetView,
    FolderPickCtx, RecordView, Tab, ViewMode,
};

verus! {

/// The settings of a first start, given the home directory if there is one.
pub open spec fn default_settings(home: Option<Seq<char>>) -> ConfigView {
    ConfigView {
        worker_url: Seq::empty(),
        worker_token: Seq::empty(),
        sketch_root: match home {
            Some(h) => joined(h, "Arduino"@),
            None => Seq::empty(),
        },
        fqbn: "esp32:esp32:esp32"@,
        mqtt_host: "mqtt.vitalitysoft.com"@,
        mqtt_port: 8883,
        mqtt_user: "solar"@,
        mqtt_pass: Seq::empty(),
        vps_host: Seq::empty(),
        vps_key: Seq::empty(),
        vps_firmware_dir: Seq::empty(),
        vps_firmware_url: Seq::empty(),
    }
}

/// Something is not set without which nothing works.
pub open spec fn is_incomplete(c: ConfigView) -> bool {
    c.worker_url.len() == 0 || c.worker_token.len() == 0 || c.mqtt_pass.len() == 0
}

/// The settings can be saved: what they must hold is more than white space.
pub open spec fn is_savable(c: ConfigView) -> bool {
    &&& trimmed(c.worker_url).len() > 0
    &&& trimmed(c.worker_token).len() > 0
    &&& trimmed(c.mqtt_pass).len() > 0
}

/// A fleet without devices.
pub open spec fn empty_fleet() -> FleetView {
    FleetView { devices: Seq::empty(), deploy_history: Seq::empty() }
}

/// The state that the flasher starts in.
pub open spec fn started(config: ConfigView) -> AppView {
    AppView {
        config,
        fleet: empty_fleet(),
        fleet_loaded: false,
        mqtt_connected: false,
        mqtt_status: Map::empty(),
        tab: Tab::Devices,
        deploy: None,
        show_add: false,
        add_form: empty_form(),
        show_settings: is_incomplete(config),
        settings_buf: config,
        notif: None,
        picking_folder: false,
        mqtt_gen: 0,
        first_run: is_incomplete(config),
        search_query: Seq::empty(),
        view_mode: ViewMode::Cards,
        selected: Set::empty(),
        bulk_deploy: None,
    }
}

/// Fetching the fleet with the settings `c`, if they name the service.
pub open spec fn load_if_named(c: ConfigView) -> Seq<ActionView> {
    if c.worker_url.len() > 0 {
        seq![load_of(c)]
    } else {
        nothing()
    }
}

/// The generation of the connection after `generation`.
pub open spec fn next_generation(generation: u64) -> u64 {
    if generation == u64::MAX {
        0
    } else {
        (generation + 1) as u64
    }
}

/// The edited settings are saved and put in force: the fleet is fetched and the broker connected
/// anew, and what waited to reconnect no longer may.
pub open spec fn settings_saved(m: AppView, at_ms: u64) -> (AppView, Seq<ActionView>) {
    let config = m.settings_buf;
    (
        AppView {
            config,
            show_settings: false,
            first_run: false,
            mqtt_connected: false,
            mqtt_gen: next_generation(m.mqtt_gen),
            ..notified(m, "Settings saved. Reconnecting MQTT…"@, false, at_ms)
        },
        seq![ActionView::SaveConfig { config }] + load_if_named(config) + seq![
            ActionView::DropClient,
            ActionView::Connect { config },
        ],
    )
}

/// How long a message is shown, in milliseconds.
pub const NOTICE_MS: u64 = 5000;

/// The message that came at `at_ms` is still shown at `now_ms`.
pub open spec fn is_shown(at_ms: u64, now_ms: u64) -> bool {
    now_ms - at_ms < NOTICE_MS
}

impl AppConfig {
    /// The settings of a first start, given the home directory if there is one.
    pub fn with_home(home: Option<String>) -> (r: AppConfig)
        ensures
            r@ == default_settings(opt_view(home)),
    {
        let sketch_root: String = match home {
            Some(h) => join(&h, "Arduino"),
            None => String::new(),
        };
        let r: AppConfig = AppConfig {
            worker_url: String::new(),
            worker_token: String::new(),
            sketch_root,
            fqbn: "esp32:esp32:esp32".to_owned(),
            mqtt_host: "mqtt.vitalitysoft.com".to_owned(),
            mqtt_port: 8883,
            mqtt_user: "solar".to_owned(),
            mqtt_pass: String::new(),
            vps_host: String::new(),
            vps_key: String::new(),
            vps_firmware_dir: String::new(),
            vps_firmware_url: String::new(),
        };
        assert(r@ =~= default_settings(opt_view(home)));
        r
    }

    /// Tells whether something is not set without which nothing works.
    pub fn needs_setup(&self) -> (r: bool)
        ensures
            r == is_incomplete(self@),
    {
        self.worker_url.as_str().is_empty() || self.worker_token.as_str().is_empty()
            || self.mqtt_pass.as_str().is_empty()
    }
}

impl Default for AppConfig {
    fn default() -> (r: Self)
        ensures
            exists|home: Option<Seq<char>>| r@ == #[trigger] default_settings(home),
    {
        let home: Option<String> = home_dir();
        AppConfig::with_home(home)
    }
}

impl Default for FleetState {
    fn default() -> (r: Self)
        ensures
            r@ == empty_fleet(),
    {
        let devices: Vec<Device> = Vec::new();
        let deploy_history: Vec<DeployRecord> = Vec::new();
        assert(views(devices@) =~= Seq::<DeviceView>::empty());
        assert(views(deploy_history@) =~= Seq::<RecordView>::empty());
        FleetState { devices, deploy_history }
    }
}

/// The required settings that are missing.
#[derive(Debug, Clone, Copy, PartialEq, Eq, Structural)]
pub struct Missing {
    pub url: bool,
    pub token: bool,
    pub pass: bool,
}

impl App {
    /// Starts the flasher with these settings.
    pub fn new(config: AppConfig) -> (r: (App, Vec<Action>))
        ensures
            r.0@ == started(config@),
            views(r.1@) == seq![ActionView::Connect { config: config@ }] + load_if_named(config@),
    {
        broadcast use lemma_views_push;

        let needs_setup: bool = config.needs_setup();
        let mut actions: Vec<Action> = one_action(Action::Connect { config: config.clone() });
        let app: App = App {
            settings_buf: config.clone(),
            config,
            fleet: FleetState::default(),
            fleet_loaded: false,
            mqtt_connected: false,
            mqtt_status: StringHashMap::new(),
            tab: Tab::Devices,
            deploy: None,
            show_add: false,
            add_form: AddForm::default(),
            show_settings: needs_setup,
            notif: None,
            picking_folder: false,
            mqtt_gen: 0,
            first_run: needs_setup,
            search_query: String::new(),
            view_mode: ViewMode::Cards,
            selected: StringHashSet::new(),
            bulk_deploy: None,
        };
        assert(app@ =~= started(config@));
        if !app.config.worker_url.as_str().is_empty() {
            actions.push(app.load_fleet());
        }
        assert(views(actions@) =~= seq![ActionView::Connect { config: config@ }] + load_if_named(
            config@,
        ));
        (app, actions)
    }

    /// Asks for the fleet to be fetched.
    pub fn load_fleet(&self) -> (r: Action)
        ensures
            r@ == load_of(self@.config),
    {
        Action::LoadFleet {
            worker_url: self.config.worker_url.clone(),
            token: self.config.worker_token.clone(),
        }
    }

    /// Opens the settings.
    pub fn open_settings(&mut self)
        ensures
            final(self)@ == (AppView {
                show_add: false,
                settings_buf: old(self)@.config,
                show_settings: true,
                ..old(self)@
            }),
    {
        self.show_add = false;
        self.settings_buf = self.config.clone();
        self.show_settings = true;
        assert(self@ =~= AppView {
            show_add: false,
            settings_buf: old(self)@.config,
            show_settings: true,
            ..old(self)@
        });
    }

    /// Takes over the settings as they were edited; the port goes through
    /// [`App::set_mqtt_port`].
    pub fn edit_settings(&mut self, edited: AppConfig)
        ensures
            final(self)@ == (AppView {
                settings_buf: ConfigView {
                    mqtt_port: old(self)@.settings_buf.mqtt_port,
                    ..edited@
                },
                ..old(self)@
            }),
    {
        let port: u16 = self.settings_buf.mqtt_port;
        self.settings_buf = edited;
        self.settings_buf.mqtt_port = port;
        assert(self@ =~= AppView {
            settings_buf: ConfigView { mqtt_port: old(self)@.settings_buf.mqtt_port, ..edited@ },
            ..old(self)@
        });
    }

    /// Takes over the port as it was typed; what is no port changes nothing.
    pub fn set_mqtt_port(&mut self, typed: &str)
        ensures
            final(self)@ == match number_in(typed@, u16::MAX as nat) {
                Some(p) => AppView {
                    settings_buf: ConfigView { mqtt_port: p as u16, ..old(self)@.settings_buf },
                    ..old(self)@
                },
                None => old(self)@,
            },
    {
        if let Some(p) = parse_number(typed, 65535) {
            self.settings_buf.mqtt_port = p as u16;
            assert(self@ =~= AppView {
                settings_buf: ConfigView { mqtt_port: p as u16, ..old(self)@.settings_buf },
                ..old(self)@
            });
        }
    }

    /// The required settings that are missing from what was edited.
    pub fn missing_settings(&self) -> (r: Missing)
        ensures
            r.url == (trimmed(self@.settings_buf.worker_url).len() == 0),
            r.token == (trimmed(self@.settings_buf.worker_token).len() == 0),
            r.pass == (trimmed(self@.settings_buf.mqtt_pass).len() == 0),
    {
        Missing {
            url: trim(&self.settings_buf.worker_url).as_str().is_empty(),
            token: trim(&self.settings_buf.worker_token).as_str().is_empty(),
            pass: trim(&self.settings_buf.mqtt_pass).as_str().is_empty(),
        }
    }

    /// Tells whether the edited settings can be saved.
    pub fn can_save_settings(&self) -> (r: bool)
        ensures
            r == is_savable(self@.settings_buf),
    {
        let missing: Missing = self.missing_settings();
        !missing.url && !missing.token && !missing.pass
    }

    /// Closes the settings without saving them, except on a first run.
    pub fn cancel_settings(&mut self)
        ensures
            final(self)@ == (AppView {
                show_settings: old(self)@.first_run && old(self)@.show_settings,
                ..old(self)@
            }),
    {
        if !self.first_run {
            self.show_settings = false;
        }
        assert(self@ =~= AppView {
            show_settings: old(self)@.first_run && old(self)@.show_settings,
            ..old(self)@
        });
    }

    /// Saves the edited settings and puts them in force.
    pub fn save_settings(&mut self, at_ms: u64) -> (r: Vec<Action>)
        ensures
            (final(self)@, views(r@)) == if is_savable(old(self)@.settings_buf) {
                settings_saved(old(self)@, at_ms)
            } else {
                (old(self)@, nothing())
            },
    {
        broadcast use lemma_views_push;

        if !self.can_save_settings() {
            return no_action();
        }
        self.config = self.settings_buf.clone();
        let mut r: Vec<Action> = one_action(Action::SaveConfig { config: self.config.clone() });
        self.show_settings = false;
        self.first_run = false;
        if !self.config.worker_url.as_str().is_empty() {
            r.push(self.load_fleet());
        }
        self.notify("Settings saved. Reconnecting MQTT…".to_owned(), false, at_ms);
        r.push(Action::DropClient);
        self.mqtt_connected = false;
        self.mqtt_gen = if self.mqtt_gen == u64::MAX {
            0
        } else {
            self.mqtt_gen + 1
        };
        r.push(Action::Connect { config: self.config.clone() });
        assert(self@ =~= settings_saved(old(self)@, at_ms).0);
        assert(views(r@) =~= settings_saved(old(self)@, at_ms).1);
        r
    }

    /// Tells whether what waited to reconnect since `generation` still may.
    pub fn may_reconnect(&self, generation: u64) -> (r: bool)
        ensures
            r == (self@.mqtt_gen == generation),
    {
        self.mqtt_gen == generation
    }

    /// Takes the message away once its time is over, and tells whether one is shown.
    pub fn expire_notice(&mut self, now_ms: u64) -> (r: bool)
        ensures
            r == (old(self)@.notif matches Some(n) && is_shown(n.at_ms, now_ms)),
            final(self)@ == (AppView {
                notif: if r {
                    old(self)@.notif
                } else {
                    None
                },
                ..old(self)@
            }),
    {
        let shown: bool = match &self.notif {
            Some(n) => now_ms < n.at_ms || now_ms - n.at_ms < NOTICE_MS,
            None => false,
        };
        if !shown {
            self.notif = None;
        }
        assert(self@ =~= AppView {
            notif: if shown {
                old(self)@.notif
            } else {
                None
            },
            ..old(self)@
        });
        shown
    }

    /// Asks for a folder to be chosen, unless that is going on already.
    pub fn pick_folder(&mut self, context: FolderPickCtx) -> (r: Vec<Action>)
        ensures
            final(self)@ == (AppView { picking_folder: true, ..old(self)@ }),
            views(r@) == if old(self)@.picking_folder {
                nothing()
            } else {
                seq![ActionView::PickFolder { context }]
            },
    {
        if self.picking_folder {
            assert(self@ =~= AppView { picking_folder: true, ..old(self)@ });
            return no_action();
        }
        self.picking_folder = true;
        assert(self@ =~= AppView { picking_folder: true, ..old(self)@ });
        one_action(Action::PickFolder { context })
    }

    /// The dialog for choosing a folder is closed, whether or not one was chosen.
    pub fn folder_dialog_closed(&mut self)
        ensures
            final(self)@ == (AppView { picking_folder: false, ..old(self)@ }),
    {
        self.picking_folder = false;
        assert(self@ =~= AppView { picking_folder: false, ..old(self)@ });
    }
}

/// Settings that can be saved are complete: after saving them there is no first run any more, and
/// a start with them would be none.
pub proof fn law_saving_ends_the_setup(m: AppView, at_ms: u64)
    requires
        is_savable(m.settings_buf),
    ensures
        !is_incomplete(settings_saved(m, at_ms).0.config),
        !settings_saved(m, at_ms).0.first_run,
        !started(settings_saved(m, at_ms).0.config).show_settings,
        settings_saved(m, at_ms).1 == seq![
            ActionView::SaveConfig { config: m.settings_buf },
            load_of(m.settings_buf),
            ActionView::DropClient,
            ActionView::Connect { config: m.settings_buf },
        ],
{
    assert(settings_saved(m, at_ms).1 =~= seq![
        ActionView::SaveConfig { config: m.settings_buf },
        load_of(m.settings_buf),
        ActionView::DropClient,
        ActionView::Connect { config: m.settings_buf },
    ]);
}

/// Saving settings and losing a connection both begin a generation that was not the latest before,
/// so what waits to reconnect since an earlier one does not.
pub proof fn law_generations_go_on(m: AppView, at_ms: u64)
    ensures
        settings_saved(m, at_ms).0.mqtt_gen != m.mqtt_gen,
        m.mqtt_gen < u64::MAX ==> crate::model::on_disconnected(m).0.mqtt_gen != m.mqtt_gen,
{
}

} // verus!
