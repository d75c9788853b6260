use ota_flasher::app::{Action, App};
use ota_flasher::types::{AppConfig, FolderPickCtx, Tab};

fn config() -> AppConfig {
    let mut c = AppConfig::with_home(Some("/home/x".to_string()));
    c.worker_url = "https://ota".to_string();
    c.worker_token = "t".to_string();
    c.mqtt_pass = "p".to_string();
    c
}

#[test]
fn the_first_settings_are_preset() {
    let c = AppConfig::with_home(Some("/home/x".to_string()));
    assert_eq!(c.sketch_root, "/home/x/Arduino");
    assert_eq!(c.fqbn, "esp32:esp32:esp32");
    assert_eq!(c.mqtt_host, "mqtt.vitalitysoft.com");
    assert_eq!(c.mqtt_port, 8883);
    assert_eq!(c.mqtt_user, "solar");
    assert_eq!(c.worker_url, "");
    assert_eq!(c.mqtt_pass, "");
    assert_eq!(c.vps_host, "");
    assert_eq!(AppConfig::with_home(None).sketch_root, "");
    assert!(c.needs_setup());
    assert!(!config().needs_setup());
}

#[test]
fn the_home_directory_is_that_of_the_user() {
    let home = dirs::home_dir().map(|h| h.to_string_lossy().to_string());
    assert_eq!(AppConfig::default(), AppConfig::with_home(home));
}

#[test]
fn a_first_start_asks_for_the_settings() {
    let (app, actions) = App::new(AppConfig::with_home(None));
    assert!(app.first_run && app.show_settings);
    assert!(!app.fleet_loaded && !app.mqtt_connected && !app.show_add);
    assert_eq!(app.tab, Tab::Devices);
    assert_eq!(app.mqtt_gen, 0);
    assert_eq!(actions, vec![Action::Connect { config: AppConfig::with_home(None) }]);
}

#[test]
fn a_later_start_fetches_the_fleet() {
    let (app, actions) = App::new(config());
    assert!(!app.first_run && !app.show_settings);
    assert_eq!(
        actions,
        vec![
            Action::Connect { config: config() },
            Action::LoadFleet { worker_url: "https://ota".to_string(), token: "t".to_string() },
        ]
    );
}

#[test]
fn a_blank_setting_is_missing() {
    let (mut app, _) = App::new(config());
    app.open_settings();
    let mut edited = config();
    edited.worker_token = "  ".to_string();
    edited.mqtt_port = 1;
    app.edit_settings(edited);
    let missing = app.missing_settings();
    assert!(!missing.url && missing.token && !missing.pass);
    assert!(!app.can_save_settings());
    assert_eq!(app.settings_buf.mqtt_port, 8883);
    assert_eq!(app.save_settings(0), Vec::new());
    assert!(app.show_settings);
    app.cancel_settings();
    assert!(!app.show_settings);
    assert_eq!(app.config, config());
}

#[test]
fn a_first_run_cannot_be_cancelled() {
    let (mut app, _) = App::new(AppConfig::with_home(None));
    app.cancel_settings();
    assert!(app.show_settings);
}

#[test]
fn saving_puts_the_settings_in_force() {
    let (mut app, _) = App::new(AppConfig::with_home(None));
    app.mqtt_connected = true;
    app.edit_settings(config());
    assert!(app.can_save_settings());
    let actions = app.save_settings(77);
    assert_eq!(
        actions,
        vec![
            Action::SaveConfig { config: config() },
            Action::LoadFleet { worker_url: "https://ota".to_string(), token: "t".to_string() },
            Action::DropClient,
            Action::Connect { config: config() },
        ]
    );
    assert!(!app.first_run && !app.show_settings && !app.mqtt_connected);
    assert!(!app.config.needs_setup());
    assert_eq!(app.mqtt_gen, 1);
    assert!(!app.may_reconnect(0) && app.may_reconnect(1));
    let n = app.notif.as_ref().unwrap();
    assert_eq!(n.msg, "Settings saved. Reconnecting MQTT…");
    assert!(!n.is_err);
    assert_eq!(n.at_ms, 77);
}

#[test]
fn generations_wrap_around() {
    let (mut app, _) = App::new(config());
    app.mqtt_gen = u64::MAX;
    app.save_settings(0);
    assert_eq!(app.mqtt_gen, 0);
}

#[test]
fn only_a_port_is_taken_as_one() {
    let (mut app, _) = App::new(config());
    app.set_mqtt_port("1883");
    assert_eq!(app.settings_buf.mqtt_port, 1883);
    for typed in ["", "65536", "-1", "x", "1 "] {
        app.set_mqtt_port(typed);
        assert_eq!(app.settings_buf.mqtt_port, 1883);
    }
    app.set_mqtt_port("65535");
    assert_eq!(app.settings_buf.mqtt_port, 65535);
}

#[test]
fn a_message_is_shown_for_five_seconds() {
    let (mut app, _) = App::new(config());
    assert!(!app.expire_notice(0));
    app.notify("hello".to_string(), true, 1000);
    assert!(app.expire_notice(1000));
    assert!(app.expire_notice(5999));
    assert!(app.expire_notice(500));
    assert!(app.notif.is_some());
    assert!(!app.expire_notice(6000));
    assert!(app.notif.is_none());
}

#[test]
fn one_folder_is_chosen_at_a_time() {
    let (mut app, _) = App::new(config());
    assert_eq!(
        app.pick_folder(FolderPickCtx::DeploySketch),
        vec![Action::PickFolder { context: FolderPickCtx::DeploySketch }]
    );
    assert_eq!(app.pick_folder(FolderPickCtx::AddDeviceSketch), Vec::new());
    app.folder_dialog_closed();
    assert_eq!(app.pick_folder(FolderPickCtx::SettingsSketchRoot).len(), 1);
}

#[test]
fn opening_the_settings_closes_the_form() {
    let (mut app, _) = App::new(config());
    app.show_add = true;
    app.settings_buf.fqbn = "other".to_string();
    app.open_settings();
    assert!(app.show_settings && !app.show_add);
    assert_eq!(app.settings_buf, config());
}
