use ota_flasher::app::{Action, App};
use ota_flasher::bulk::{all_finished, bulk_summary, phase_label, phase_percent, sketches};
use ota_flasher::topics::topics;
use ota_flasher::types::{AppConfig, AppEvent, DeployPhase, Device, LogLevel, SketchBuildState};

fn device(id: &str, sketch_dir: &str) -> Device {
    Device {
        id: id.to_string(),
        name: id.to_uppercase(),
        company: String::new(),
        sketch_dir: sketch_dir.to_string(),
        topics: topics(id),
        desired_version: "1.0.1".to_string(),
        last_deploy_by: String::new(),
        added_by: String::new(),
        added_at: String::new(),
        tags: Vec::new(),
    }
}

fn app() -> App {
    let mut app = App::new(AppConfig::with_home(Some("/home/x".to_string()))).0;
    app.fleet.devices = vec![
        device("vit008", "VIT"),
        device("led3", "LED"),
        device("vit009", "VIT"),
        device("other", ""),
    ];
    app
}

fn opened() -> App {
    let mut app = app();
    for id in ["vit009", "led3", "vit008"] {
        app.set_selected(id, true);
    }
    app.open_bulk_deploy_form();
    app
}

fn started() -> App {
    let mut app = opened();
    app.edit_bulk_form(" Ann ".to_string(), " 2.0.0 ".to_string());
    assert_eq!(app.submit_bulk_form().len(), 2);
    app
}

fn phases(app: &App) -> Vec<DeployPhase> {
    app.bulk_deploy.as_ref().unwrap().devices.iter().map(|d| d.phase.clone()).collect()
}

fn at(app: &mut App, ev: AppEvent) -> Vec<Action> {
    app.handle_event_at(ev, "stamp".to_string(), 9)
}

const VIT: &str = "/home/x/Arduino/VIT";
const LED: &str = "/home/x/Arduino/LED";

fn compiled(dir: &str, success: bool) -> AppEvent {
    AppEvent::BulkCompileDone {
        sketch_dir: dir.to_string(),
        success,
        bin_path: if success { Some("/tmp/b.bin".to_string()) } else { None },
    }
}

fn uploaded(dir: &str) -> AppEvent {
    AppEvent::BulkUploadDone { sketch_dir: dir.to_string(), url: "http://u".to_string() }
}

fn online(id: &str, version: &str) -> AppEvent {
    AppEvent::MqttStatus { device_id: id.to_string(), status: format!("ONLINE v{}", version) }
}

#[test]
fn the_form_is_for_the_selected_devices() {
    let app = opened();
    let b = app.bulk_deploy.as_ref().unwrap();
    assert!(b.show_form);
    assert_eq!(b.form_version, "1.0.2");
    assert_eq!(b.new_version, "1.0.2");
    assert_eq!(b.form_deployer, "");
    let ids: Vec<&str> = b.devices.iter().map(|d| d.device_id.as_str()).collect();
    assert_eq!(ids, vec!["vit008", "led3", "vit009"]);
    assert_eq!(b.devices[0].device_name, "VIT008");
    assert_eq!(b.devices[0].sketch_dir, VIT);
    assert_eq!(phases(&app), vec![DeployPhase::Form, DeployPhase::Form, DeployPhase::Form]);
    assert_eq!(sketches(&b.devices), vec![VIT.to_string(), LED.to_string()]);
}

#[test]
fn without_devices_there_is_no_form() {
    let mut app = app();
    app.open_bulk_deploy_form();
    assert!(app.bulk_deploy.is_none());
    app.set_selected("gone", true);
    assert!(app.has_next_bulk_version());
    app.open_bulk_deploy_form();
    assert!(app.bulk_deploy.is_none());
}

#[test]
fn a_device_without_a_version_gets_a_first_one() {
    let mut app = app();
    app.fleet.devices[3].desired_version = String::new();
    app.set_selected("other", true);
    app.open_bulk_deploy_form();
    let b = app.bulk_deploy.as_ref().unwrap();
    assert_eq!(b.form_version, "1.0.0");
    assert_eq!(b.devices[0].sketch_dir, "/home/x/Arduino/ESP32_OTHER_MQTT_TLS");
    app.fleet.devices[3].desired_version = "1.0.4294967295".to_string();
    assert!(!app.has_next_bulk_version());
}

#[test]
fn each_sketch_is_compiled_once() {
    let mut app = opened();
    app.edit_bulk_form(" Ann ".to_string(), " 2.0.0 ".to_string());
    let actions = app.submit_bulk_form();
    let compile = |dir: &str| Action::BulkCompile {
        sketch_dir: dir.to_string(),
        version: "2.0.0".to_string(),
        fqbn: "esp32:esp32:esp32".to_string(),
    };
    assert_eq!(actions, vec![compile(VIT), compile(LED)]);
    let b = app.bulk_deploy.as_ref().unwrap();
    assert!(!b.show_form);
    assert_eq!(b.deployer_name, "Ann");
    assert_eq!(b.sketch_builds.len(), 2);
    assert_eq!(b.sketch_builds.get(VIT), Some(&SketchBuildState::Compiling));
    assert!(phases(&app).iter().all(|p| *p == DeployPhase::Compiling));
}

#[test]
fn a_blank_form_starts_nothing() {
    let mut app = opened();
    assert_eq!(app.submit_bulk_form(), Vec::new());
    assert!(app.bulk_deploy.as_ref().unwrap().show_form);
    app.edit_bulk_form("Ann".to_string(), "  ".to_string());
    assert_eq!(app.submit_bulk_form(), Vec::new());
    app.cancel_bulk_deploy();
    assert!(app.bulk_deploy.is_none());
    assert_eq!(app.submit_bulk_form(), Vec::new());
    assert_eq!(app.selected.len(), 3);
}

#[test]
fn a_bulk_deployment_goes_through() {
    let mut app = started();
    let actions = at(&mut app, compiled(VIT, true));
    assert_eq!(actions.len(), 2);
    match &actions[0] {
        Action::BulkUpload { sketch_dir, job } => {
            assert_eq!(sketch_dir, VIT);
            assert_eq!(job.device_id, "VIT");
            assert_eq!(job.version, "2.0.0");
            assert_eq!(job.bin_path, "/tmp/b.bin");
        }
        other => panic!("{:?}", other),
    }
    assert_eq!(actions[1], Action::Repaint);
    assert_eq!(
        app.bulk_deploy.as_ref().unwrap().sketch_builds.get(VIT),
        Some(&SketchBuildState::Done("/tmp/b.bin".to_string()))
    );
    assert_eq!(
        phases(&app),
        vec![DeployPhase::Uploading, DeployPhase::Compiling, DeployPhase::Uploading]
    );
    let actions = at(&mut app, uploaded(VIT));
    let trigger = |topic: &str| Action::Publish {
        topic: topic.to_string(),
        payload: "http://u".to_string(),
        retain: false,
    };
    assert_eq!(
        actions,
        vec![trigger("solar/vit008/ota"), trigger("solar/vit009/ota"), Action::Repaint]
    );
    let b = app.bulk_deploy.as_ref().unwrap();
    assert_eq!(
        b.sketch_builds.get(VIT),
        Some(&SketchBuildState::Uploaded("http://u".to_string()))
    );
    assert_eq!(b.sketch_builds.get(LED), Some(&SketchBuildState::Compiling));
    at(&mut app, online("vit008", "1.0.1"));
    at(&mut app, online("led3", "2.0.0"));
    assert_eq!(
        phases(&app),
        vec![DeployPhase::Waiting, DeployPhase::Compiling, DeployPhase::Waiting]
    );
    at(&mut app, online("vit008", "2.0.0"));
    assert_eq!(
        phases(&app),
        vec![DeployPhase::Done, DeployPhase::Compiling, DeployPhase::Waiting]
    );
    let s = bulk_summary(&app.bulk_deploy.as_ref().unwrap().devices);
    assert_eq!((s.done, s.in_progress, s.failed, s.waiting), (1, 1, 0, 1));
}

#[test]
fn a_started_deployment_is_left_to_run() {
    let mut app = started();
    app.cancel_bulk_deploy();
    app.edit_bulk_form("Bob".to_string(), "3".to_string());
    assert_eq!(app.submit_bulk_form(), Vec::new());
    let b = app.bulk_deploy.as_ref().unwrap();
    assert_eq!(b.form_deployer, " Ann ");
    assert_eq!(b.deployer_name, "Ann");
    assert_eq!(b.new_version, "2.0.0");
}

#[test]
fn the_button_counts_the_selected_devices() {
    let mut app = app();
    assert_eq!(app.bulk_button(), None);
    app.set_selected("vit008", true);
    app.set_selected("led3", true);
    assert_eq!(app.bulk_button().as_deref(), Some("Deploy 2 devices"));
}

#[test]
fn a_summary_counts_each_device_once() {
    let mut app = started();
    at(&mut app, compiled(VIT, false));
    at(&mut app, compiled(LED, true));
    let s = bulk_summary(&app.bulk_deploy.as_ref().unwrap().devices);
    assert_eq!((s.done, s.in_progress, s.failed, s.waiting), (0, 1, 2, 0));
    at(&mut app, uploaded(LED));
    let s = bulk_summary(&app.bulk_deploy.as_ref().unwrap().devices);
    assert_eq!((s.done, s.in_progress, s.failed, s.waiting), (0, 0, 2, 1));
}

#[test]
fn output_goes_to_the_devices_of_its_sketch() {
    let mut app = started();
    let ev = AppEvent::BulkCompileOutput {
        sketch_dir: VIT.to_string(),
        line: "warning: x".to_string(),
        level: LogLevel::Normal,
    };
    assert_eq!(at(&mut app, ev), Vec::new());
    at(&mut app, compiled(VIT, true));
    at(&mut app, uploaded(VIT));
    let lines = vec![
        ("warning: x".to_string(), LogLevel::Normal),
        ("Uploading to Cloudflare R2 + VPS…".to_string(), LogLevel::Info),
        ("✓ Uploaded → http://u".to_string(), LogLevel::Success),
    ];
    let b = app.bulk_deploy.as_ref().unwrap();
    assert_eq!(b.devices[0].log, lines);
    assert_eq!(b.devices[1].log, Vec::new());
    assert_eq!(b.devices[2].log, lines);
}

#[test]
fn a_failed_compilation_fails_its_devices() {
    let mut app = started();
    assert_eq!(at(&mut app, compiled(VIT, false)), vec![Action::Repaint]);
    let failed = DeployPhase::Failed("Compile failed".to_string());
    assert_eq!(phases(&app), vec![failed.clone(), DeployPhase::Compiling, failed]);
    assert_eq!(
        app.bulk_deploy.as_ref().unwrap().sketch_builds.get(VIT),
        Some(&SketchBuildState::Failed("Compile failed".to_string()))
    );
}

#[test]
fn a_success_without_a_binary_changes_nothing() {
    let mut app = started();
    let ev = AppEvent::BulkCompileDone {
        sketch_dir: VIT.to_string(),
        success: true,
        bin_path: None,
    };
    assert_eq!(at(&mut app, ev), vec![Action::Repaint]);
    assert!(phases(&app).iter().all(|p| *p == DeployPhase::Compiling));
}

#[test]
fn an_error_leaves_the_bulk_deployment_alone() {
    let mut app = started();
    at(&mut app, AppEvent::Error("Bulk upload: no".to_string()));
    assert!(phases(&app).iter().all(|p| *p == DeployPhase::Compiling));
}

#[test]
fn it_closes_when_all_are_through() {
    let mut app = started();
    at(&mut app, compiled(VIT, false));
    assert!(!all_finished(&app.bulk_deploy.as_ref().unwrap().devices));
    app.close_bulk_deploy();
    assert!(app.bulk_deploy.is_some());
    let ev = AppEvent::BulkOtaPublished { device_id: "led3".to_string() };
    assert_eq!(at(&mut app, ev), vec![Action::Repaint]);
    assert!(all_finished(&app.bulk_deploy.as_ref().unwrap().devices));
    assert!(!app.is_bulk_active());
    app.close_bulk_deploy();
    assert!(app.bulk_deploy.is_none());
    assert!(app.selected.is_empty());
}

#[test]
fn nothing_else_is_deployed_meanwhile() {
    let mut app = started();
    assert!(app.is_bulk_active());
    let d = device("other", "");
    app.open_deploy(&d, None);
    assert!(app.deploy.is_none());
    app.open_bulk_deploy_form();
    assert!(!app.bulk_deploy.as_ref().unwrap().show_form);
    at(&mut app, compiled(VIT, false));
    at(&mut app, compiled(LED, false));
    app.open_deploy(&d, None);
    assert!(app.deploy.is_some());
}

#[test]
fn phases_have_names_and_shares() {
    let all = [
        (DeployPhase::Form, "Queued", 0),
        (DeployPhase::Compiling, "Compiling…", 20),
        (DeployPhase::Uploading, "Uploading…", 45),
        (DeployPhase::Publishing, "Sending OTA…", 70),
        (DeployPhase::Waiting, "Waiting…", 85),
        (DeployPhase::Done, "Done ✓", 100),
        (DeployPhase::Failed(String::new()), "Failed ✗", 0),
    ];
    for (phase, label, percent) in all.iter() {
        assert_eq!(phase_label(phase), *label);
        assert_eq!(phase_percent(phase), *percent);
    }
}
