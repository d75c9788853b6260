use ota_flasher::app::{Action, App};
use ota_flasher::deploy::{
    deploy_steps, filled_in, has_next_version, is_finished, shows_form, sketch_dir_for,
    source_path, StepMark,
};
use ota_flasher::topics::topics;
use ota_flasher::types::{
    AppConfig, AppEvent, DeployPhase, Device, FleetState, FolderPickCtx, LogLevel,
};
use ota_flasher::worker::UploadJob;

fn device(id: &str) -> Device {
    Device {
        id: id.to_string(),
        name: "Meter".to_string(),
        company: String::new(),
        sketch_dir: String::new(),
        topics: topics(id),
        desired_version: "1.0.0".to_string(),
        last_deploy_by: String::new(),
        added_by: String::new(),
        added_at: String::new(),
        tags: Vec::new(),
    }
}

fn app() -> App {
    let mut c = AppConfig::with_home(Some("/home/x".to_string()));
    c.worker_url = "https://ota".to_string();
    c.worker_token = "t".to_string();
    let mut app = App::new(c).0;
    app.fleet.devices = vec![device("vit009"), device("vit010")];
    app
}

fn started() -> App {
    let mut app = app();
    app.open_deploy(&device("vit010"), None);
    app.edit_deploy("Ann".to_string(), "1.0.2".to_string(), "/s/VIT".to_string());
    assert_eq!(
        app.start_deploy(),
        vec![Action::Compile {
            sketch_dir: "/s/VIT".to_string(),
            version: "1.0.2".to_string(),
            fqbn: "esp32:esp32:esp32".to_string(),
        }]
    );
    app
}

fn at(app: &mut App, ev: AppEvent) -> Vec<Action> {
    app.handle_event_at(ev, "stamp".to_string(), 9)
}

fn phase(app: &App) -> &DeployPhase {
    &app.deploy.as_ref().unwrap().phase
}

fn status(id: &str, status: &str) -> AppEvent {
    AppEvent::MqttStatus { device_id: id.to_string(), status: status.to_string() }
}

#[test]
fn a_deployment_suggests_the_next_version() {
    let mut app = app();
    app.open_deploy(&device("vit010"), None);
    let d = app.deploy.as_ref().unwrap();
    assert_eq!(d.device_id, "vit010");
    assert_eq!(d.device_name, "Meter");
    assert_eq!(d.new_version, "1.0.1");
    assert_eq!(d.sketch_dir, "/home/x/Arduino/ESP32_VIT010_MQTT_TLS");
    assert_eq!(d.phase, DeployPhase::Form);
    assert_eq!(d.deployer_name, "");
    app.open_deploy(&device("vit010"), Some("#define FIRMWARE_VERSION \"2.3.4\""));
    assert_eq!(app.deploy.as_ref().unwrap().new_version, "2.3.5");
    app.open_deploy(&device("vit010"), Some("no version"));
    assert_eq!(app.deploy.as_ref().unwrap().new_version, "1.0.1");
    app.close_deploy();
    assert!(app.deploy.is_none());
}

#[test]
fn a_version_without_successor_is_told() {
    assert!(has_next_version(&device("a"), None));
    assert!(!has_next_version(&device("a"), Some("#define FIRMWARE_VERSION \"1.0.4294967295\"")));
}

#[test]
fn sketches_are_found() {
    let mut d = device("vit010");
    assert_eq!(sketch_dir_for("/r", &d), "/r/ESP32_VIT010_MQTT_TLS");
    d.sketch_dir = "LED".to_string();
    assert_eq!(sketch_dir_for("/r", &d), "/r/LED");
    d.sketch_dir = "/x/LED".to_string();
    assert_eq!(sketch_dir_for("/r", &d), "/x/LED");
    assert_eq!(source_path("/x/LED"), "/x/LED/LED.ino");
    assert_eq!(source_path("/"), "/.ino");
}

#[test]
fn a_blank_form_does_not_start() {
    assert!(filled_in("a", "1"));
    assert!(!filled_in(" ", "1"));
    assert!(!filled_in("a", "\t"));
    let mut app = app();
    assert_eq!(app.start_deploy(), Vec::new());
    assert!(!app.is_deploy_ready());
    app.open_deploy(&device("vit010"), None);
    assert!(!app.is_deploy_ready());
    assert_eq!(app.start_deploy(), Vec::new());
    assert_eq!(phase(&app), &DeployPhase::Form);
    app.edit_deploy("Ann".to_string(), "1".to_string(), "/s".to_string());
    assert!(app.is_deploy_ready());
    assert_eq!(app.start_deploy().len(), 1);
    assert_eq!(app.start_deploy(), Vec::new());
}

#[test]
fn a_running_deployment_is_not_edited() {
    let mut app = started();
    app.edit_deploy("Bob".to_string(), "9".to_string(), "/other".to_string());
    let d = app.deploy.as_ref().unwrap();
    assert_eq!(d.deployer_name, "Ann");
    assert_eq!(d.new_version, "1.0.2");
    assert_eq!(d.sketch_dir, "/s/VIT");
    at(&mut app, AppEvent::CompileDone { success: false, bin_path: None });
    app.edit_deploy("Bob".to_string(), "9".to_string(), "/other".to_string());
    assert_eq!(app.deploy.as_ref().unwrap().deployer_name, "Bob");
}

#[test]
fn a_batch_adds_a_record_for_each_trigger() {
    let mut app = started();
    let events = vec![AppEvent::OtaPublished, AppEvent::FleetSaved, AppEvent::OtaPublished];
    app.handle_events(events.clone(), 0);
    assert_eq!(app.fleet.deploy_history.len(), 2);
    let ids: Vec<&str> = app.fleet.devices.iter().map(|d| d.id.as_str()).collect();
    assert_eq!(ids, vec!["vit009", "vit010"]);
    assert_eq!(app.fleet.devices[1].name, "Meter");
    app.close_deploy();
    app.handle_events(events, 0);
    assert_eq!(app.fleet.deploy_history.len(), 2);
}

#[test]
fn a_deployment_goes_through() {
    let mut app = started();
    assert_eq!(phase(&app), &DeployPhase::Compiling);
    at(&mut app, AppEvent::CompileOutput { line: "ok".to_string(), level: LogLevel::Normal });
    let actions = at(
        &mut app,
        AppEvent::CompileDone { success: true, bin_path: Some("/tmp/b.bin".to_string()) },
    );
    assert_eq!(phase(&app), &DeployPhase::Uploading);
    assert_eq!(
        actions,
        vec![Action::Upload {
            job: UploadJob {
                bin_path: "/tmp/b.bin".to_string(),
                device_id: "vit010".to_string(),
                version: "1.0.2".to_string(),
                worker_url: "https://ota".to_string(),
                token: "t".to_string(),
                vps_host: String::new(),
                vps_key: String::new(),
                vps_firmware_dir: String::new(),
                vps_firmware_url: String::new(),
            },
        }]
    );
    let actions = at(&mut app, AppEvent::UploadDone { url: "http://u".to_string() });
    assert_eq!(phase(&app), &DeployPhase::Publishing);
    assert_eq!(
        actions,
        vec![
            Action::Publish {
                topic: "solar/vit010/ota".to_string(),
                payload: "http://u".to_string(),
                retain: true,
            },
            Action::ReportPublished,
        ]
    );
    let actions = at(&mut app, AppEvent::OtaPublished);
    assert_eq!(phase(&app), &DeployPhase::Waiting);
    assert_eq!(app.fleet.devices[0].desired_version, "1.0.0");
    assert_eq!(app.fleet.devices[1].desired_version, "1.0.2");
    assert_eq!(app.fleet.devices[1].last_deploy_by, "Ann");
    let r = &app.fleet.deploy_history[0];
    assert_eq!(r.device_id, "vit010");
    assert_eq!(r.device_name, "Meter");
    assert_eq!(r.version, "1.0.2");
    assert_eq!(r.deployed_by, "Ann");
    assert_eq!(r.deployed_at, "stamp");
    assert_eq!(r.firmware_url, "http://u");
    assert_eq!(
        actions,
        vec![Action::SaveFleet {
            fleet: app.fleet.clone(),
            worker_url: "https://ota".to_string(),
            token: "t".to_string(),
        }]
    );
    assert_eq!(at(&mut app, status("vit009", "ONLINE v1.0.2")), Vec::new());
    assert_eq!(at(&mut app, status("vit010", "ONLINE v1.0.1")), Vec::new());
    assert_eq!(phase(&app), &DeployPhase::Waiting);
    let actions = at(&mut app, status("vit010", "ONLINE v1.0.2 rssi"));
    assert_eq!(phase(&app), &DeployPhase::Done);
    assert_eq!(
        actions,
        vec![Action::Publish {
            topic: "solar/vit010/ota".to_string(),
            payload: String::new(),
            retain: true,
        }]
    );
    let lines: Vec<(String, LogLevel)> = vec![
        ("ok".to_string(), LogLevel::Normal),
        ("Uploading to Cloudflare R2 + VPS…".to_string(), LogLevel::Info),
        ("✓ Uploaded → http://u".to_string(), LogLevel::Success),
        ("Publishing OTA trigger…".to_string(), LogLevel::Info),
        (
            "✓ OTA trigger sent (retained) — waiting for device…".to_string(),
            LogLevel::Success,
        ),
        ("✓ Device confirmed: ONLINE v1.0.2 rssi".to_string(), LogLevel::Success),
    ];
    assert_eq!(app.deploy.as_ref().unwrap().log_lines, lines);
}

#[test]
fn a_failed_compilation_stops_a_deployment() {
    let mut app = started();
    let ev = AppEvent::CompileDone { success: false, bin_path: None };
    assert_eq!(at(&mut app, ev), Vec::new());
    assert_eq!(phase(&app), &DeployPhase::Failed("Compilation failed".to_string()));
    assert_eq!(app.start_deploy(), Vec::new());
}

#[test]
fn an_error_stops_what_is_under_way() {
    let mut app = started();
    app.picking_folder = true;
    at(&mut app, AppEvent::Error("Upload: no".to_string()));
    assert_eq!(phase(&app), &DeployPhase::Failed("Upload: no".to_string()));
    let n = app.notif.as_ref().unwrap();
    assert_eq!((n.msg.as_str(), n.is_err, n.at_ms), ("Upload: no", true, 9));
    assert!(!app.picking_folder);
    at(&mut app, AppEvent::Error("later".to_string()));
    assert_eq!(phase(&app), &DeployPhase::Failed("Upload: no".to_string()));
    app.open_deploy(&device("vit010"), None);
    at(&mut app, AppEvent::Error("again".to_string()));
    assert_eq!(phase(&app), &DeployPhase::Form);
}

#[test]
fn events_without_a_deployment_change_nothing() {
    let mut app = app();
    for ev in [
        AppEvent::FleetSaved,
        AppEvent::CompileOutput { line: "x".to_string(), level: LogLevel::Error },
        AppEvent::CompileDone { success: true, bin_path: None },
        AppEvent::UploadDone { url: "u".to_string() },
        AppEvent::OtaPublished,
        AppEvent::BulkCompileOutput {
            sketch_dir: "d".to_string(),
            line: "x".to_string(),
            level: LogLevel::Error,
        },
        AppEvent::BulkCompileDone { sketch_dir: "d".to_string(), success: true, bin_path: None },
        AppEvent::BulkUploadDone { sketch_dir: "d".to_string(), url: "u".to_string() },
        AppEvent::BulkOtaPublished { device_id: "vit010".to_string() },
    ] {
        assert_eq!(at(&mut app, ev), Vec::new());
    }
    assert!(app.deploy.is_none() && app.bulk_deploy.is_none());
    assert!(app.fleet.deploy_history.is_empty());
}

#[test]
fn a_record_without_an_address_is_kept() {
    let mut app = started();
    at(&mut app, AppEvent::OtaPublished);
    assert_eq!(app.fleet.deploy_history[0].firmware_url, "");
}

#[test]
fn folders_go_where_they_were_asked_for() {
    let mut app = started();
    for (context, path) in [
        (FolderPickCtx::DeploySketch, "/a"),
        (FolderPickCtx::AddDeviceSketch, "/b"),
        (FolderPickCtx::SettingsSketchRoot, "/c"),
    ] {
        at(&mut app, AppEvent::FolderPicked { context, path: path.to_string() });
    }
    assert_eq!(app.deploy.as_ref().unwrap().sketch_dir, "/a");
    assert_eq!(app.add_form.sketch_dir, "/b");
    assert_eq!(app.settings_buf.sketch_root, "/c");
}

#[test]
fn a_lost_connection_is_tried_again() {
    let mut app = app();
    assert_eq!(at(&mut app, AppEvent::MqttConnected), Vec::new());
    assert!(app.mqtt_connected);
    let actions = at(&mut app, AppEvent::MqttDisconnected);
    assert!(!app.mqtt_connected);
    assert_eq!(
        actions,
        vec![Action::ReconnectLater { generation: 1, config: app.config.clone() }]
    );
    assert!(app.may_reconnect(1));
    at(&mut app, AppEvent::MqttDisconnected);
    assert!(!app.may_reconnect(1));
}

#[test]
fn a_batch_is_handled_in_order() {
    let mut app = started();
    let fleet = FleetState { devices: vec![device("new")], deploy_history: Vec::new() };
    let actions = app.handle_events(
        vec![
            AppEvent::FleetLoaded(fleet),
            AppEvent::MqttDisconnected,
            AppEvent::UploadDone { url: "u".to_string() },
            AppEvent::OtaPublished,
            status("vit010", "ONLINE v1.0.2"),
        ],
        0,
    );
    assert!(app.fleet_loaded);
    assert_eq!(app.fleet.devices[0].id, "new");
    assert_eq!(phase(&app), &DeployPhase::Done);
    assert_eq!(actions.len(), 5);
    assert!(matches!(actions[0], Action::ReconnectLater { generation: 1, .. }));
    assert!(matches!(actions[3], Action::SaveFleet { .. }));
    assert!(app.fleet.deploy_history[0].deployed_at.ends_with("+00:00"));
}

#[test]
fn steps_are_marked_by_the_phase() {
    let (p, a, d) = (StepMark::Pending, StepMark::Active, StepMark::Done);
    assert_eq!(deploy_steps(&DeployPhase::Form), [p, p, p, p]);
    assert_eq!(deploy_steps(&DeployPhase::Compiling), [a, p, p, p]);
    assert_eq!(deploy_steps(&DeployPhase::Uploading), [d, a, p, p]);
    assert_eq!(deploy_steps(&DeployPhase::Publishing), [d, d, a, p]);
    assert_eq!(deploy_steps(&DeployPhase::Waiting), [d, d, d, a]);
    assert_eq!(deploy_steps(&DeployPhase::Done), [d, d, d, d]);
    let failed = DeployPhase::Failed(String::new());
    assert_eq!(deploy_steps(&failed), [p, p, p, p]);
    assert!(shows_form(&DeployPhase::Form) && shows_form(&failed));
    assert!(!shows_form(&DeployPhase::Waiting));
    assert!(is_finished(&failed) && is_finished(&DeployPhase::Done));
    assert!(!is_finished(&DeployPhase::Form));
}
