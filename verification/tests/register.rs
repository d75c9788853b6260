use ota_flasher::app::{Action, App};
use ota_flasher::register::{parse_tags, topics_preview};
use ota_flasher::types::{AddForm, AppConfig};

fn app() -> App {
    let mut c = AppConfig::with_home(Some("/home/x".to_string()));
    c.worker_url = "https://ota".to_string();
    c.worker_token = "t".to_string();
    App::new(c).0
}

fn form(id: &str) -> AddForm {
    AddForm {
        by_name: " Ann ".to_string(),
        company: " Aditya".to_string(),
        device_name: "meter ".to_string(),
        device_id: id.to_string(),
        sketch_dir: " LED ".to_string(),
        version: " 1.0.0".to_string(),
        tags_input: "RS485, ,Floor 1 ".to_string(),
        error: String::new(),
    }
}

fn add(app: &mut App, id: &str) -> Vec<Action> {
    app.edit_add_form(form(id));
    app.do_add_device_at("2026-01-01T00:00:00+00:00".to_string(), 7)
}

#[test]
fn a_device_is_registered() {
    let mut app = app();
    app.show_add = true;
    let actions = add(&mut app, "vit010 ");
    assert_eq!(app.fleet.devices.len(), 1);
    let d = &app.fleet.devices[0];
    assert_eq!(d.id, "vit010");
    assert_eq!(d.name, "meter");
    assert_eq!(d.company, "Aditya");
    assert_eq!(d.sketch_dir, "LED");
    assert_eq!(d.desired_version, "1.0.0");
    assert_eq!(d.last_deploy_by, "");
    assert_eq!(d.added_by, "Ann");
    assert_eq!(d.added_at, "2026-01-01T00:00:00+00:00");
    assert_eq!(d.tags, vec!["RS485".to_string(), String::new(), "Floor 1".to_string()]);
    assert_eq!(d.topics.ota, "solar/vit010/ota");
    assert!(!app.show_add);
    assert_eq!(app.add_form, AddForm::default());
    assert_eq!(app.notif.as_ref().unwrap().msg, "Device 'vit010' added.");
    assert!(!app.notif.as_ref().unwrap().is_err);
    assert_eq!(
        actions,
        vec![Action::SaveFleet {
            fleet: app.fleet.clone(),
            worker_url: "https://ota".to_string(),
            token: "t".to_string(),
        }]
    );
}

#[test]
fn all_fields_but_the_company_are_required() {
    for field in 0..4 {
        let mut app = app();
        let mut f = form("vit010");
        match field {
            0 => f.by_name = " ".to_string(),
            1 => f.device_name = String::new(),
            2 => f.device_id = "\t".to_string(),
            _ => f.version = String::new(),
        }
        app.edit_add_form(f);
        assert_eq!(app.do_add_device(0), Vec::new());
        assert_eq!(app.add_form.error, "All fields (except company) are required.");
        assert!(app.fleet.devices.is_empty());
    }
    let mut app = app();
    let mut f = form("vit010");
    f.company = String::new();
    app.edit_add_form(f);
    assert_eq!(app.do_add_device(0).len(), 1);
}

#[test]
fn an_id_is_registered_once() {
    let mut app = app();
    assert_eq!(add(&mut app, "vit010").len(), 1);
    assert_eq!(add(&mut app, "vit010"), Vec::new());
    assert_eq!(app.add_form.error, "Device 'vit010' already exists.");
    assert_eq!(app.fleet.devices.len(), 1);
    assert_eq!(add(&mut app, "vit011").len(), 1);
    assert_eq!(app.fleet.devices.len(), 2);
}

#[test]
fn an_id_is_looked_for_as_it_was_typed() {
    let mut app = app();
    add(&mut app, "vit010");
    assert_eq!(add(&mut app, " vit010").len(), 1);
    assert_eq!(app.fleet.devices[1].id, "vit010");
}

#[test]
fn the_time_of_registering_is_now_in_utc() {
    let mut app = app();
    app.edit_add_form(form("vit010"));
    let before = chrono::Utc::now();
    app.do_add_device(0);
    let at = &app.fleet.devices[0].added_at;
    assert!(at.ends_with("+00:00"));
    let parsed: chrono::DateTime<chrono::Utc> = at.parse().unwrap();
    assert!(before <= parsed && parsed <= chrono::Utc::now());
}

#[test]
fn the_form_suggests_what_comes_next() {
    let mut app = app();
    app.show_settings = true;
    app.open_add_form();
    assert!(app.show_add && !app.show_settings);
    assert_eq!(app.add_form.version, "1.0.0");
    assert_eq!(app.add_form.device_id, "");
    assert_eq!(app.add_form.sketch_dir, "");
    add(&mut app, "vit009");
    assert!(app.try_open_add_form());
    assert_eq!(app.add_form.device_id, "vit010");
    assert_eq!(app.add_form.sketch_dir, "/home/x/Arduino/ESP32_VIT010_MQTT_TLS");
    app.close_add_form();
    assert!(!app.show_add);
}

#[test]
fn the_form_stays_shut_without_a_successor() {
    let mut app = app();
    add(&mut app, "vit4294967295");
    assert!(!app.try_open_add_form());
    assert!(!app.show_add);
}

#[test]
fn the_reason_of_a_refusal_stays_while_editing() {
    let mut app = app();
    app.do_add_device(0);
    let mut f = form("a1");
    f.error = "other".to_string();
    app.edit_add_form(f);
    assert_eq!(app.add_form.error, "All fields (except company) are required.");
    assert_eq!(app.add_form.device_id, "a1");
}

#[test]
fn tags_are_separated_by_commas() {
    assert_eq!(parse_tags(""), vec![String::new()]);
    assert_eq!(parse_tags(" , ,"), vec![String::new(), String::new(), String::new()]);
    assert_eq!(
        parse_tags("RS485,,Floor 1"),
        vec!["RS485".to_string(), String::new(), "Floor 1".to_string()]
    );
    assert_eq!(parse_tags("a"), vec!["a".to_string()]);
    assert_eq!(parse_tags(" a b ,c"), vec!["a b".to_string(), "c".to_string()]);
}

#[test]
fn the_topics_are_shown_before_they_are_made() {
    assert_eq!(topics_preview(""), Vec::<String>::new());
    assert_eq!(
        topics_preview("x"),
        vec![
            "solar/x/cmd".to_string(),
            "solar/x/status".to_string(),
            "solar/x/ota".to_string(),
        ]
    );
}
