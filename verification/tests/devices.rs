use ota_flasher::app::App;
use ota_flasher::devices::{
    has_query, running_label, search_devices, search_texts, DeviceList, Running,
};
use ota_flasher::topics::topics;
use ota_flasher::types::{AppConfig, AppEvent, DeployRecord, Device, Tab, ViewMode};

fn device(id: &str, name: &str, company: &str, tags: &[&str]) -> Device {
    Device {
        id: id.to_string(),
        name: name.to_string(),
        company: company.to_string(),
        sketch_dir: String::new(),
        topics: topics(id),
        desired_version: "1.0.0".to_string(),
        last_deploy_by: String::new(),
        added_by: String::new(),
        added_at: String::new(),
        tags: tags.iter().map(|t| t.to_string()).collect(),
    }
}

fn app() -> App {
    let mut app = App::new(AppConfig::with_home(None)).0;
    app.fleet.devices = vec![
        device("vit008", "Meter A", "Aditya", &["RS485"]),
        device("led3", "LED strip", "", &["Floor 1", "LED"]),
        device("vit009", "Meter B", "Zeta", &[]),
    ];
    app
}

fn shown(app: &App) -> Vec<String> {
    app.filtered_devices().into_iter().map(|d| d.id).collect()
}

#[test]
fn a_search_finds_names_and_ids() {
    let mut app = app();
    assert_eq!(shown(&app), vec!["vit008", "led3", "vit009"]);
    app.set_search("led".to_string());
    assert_eq!(shown(&app), vec!["led3"]);
    app.set_search("  METER ".to_string());
    assert_eq!(shown(&app), vec!["vit008", "vit009"]);
    app.set_search("meter b".to_string());
    assert_eq!(shown(&app), vec!["vit009"]);
    for elsewhere in ["zeta", "rs4", "floor"] {
        app.set_search(elsewhere.to_string());
        assert!(shown(&app).is_empty());
    }
    app.set_search("VIT00".to_string());
    assert_eq!(shown(&app), vec!["vit008", "vit009"]);
    app.set_search("   ".to_string());
    assert_eq!(shown(&app).len(), 3);
}

#[test]
fn searched_texts_are_in_lower_case() {
    let d = device("A1", "ÄB", "C", &["D"]);
    assert_eq!(search_texts(&d), vec!["äb", "a1"]);
    assert!(has_query(&vec!["abc".to_string()], "b"));
    assert!(!has_query(&vec!["abc".to_string()], "B"));
    assert!(!has_query(&Vec::new(), ""));
    assert_eq!(search_devices(&vec![d], "äb").len(), 1);
}

#[test]
fn the_layout_is_toggled() {
    let mut app = app();
    assert_eq!(app.view_mode, ViewMode::Cards);
    app.toggle_view();
    assert_eq!(app.view_mode, ViewMode::List);
    app.toggle_view();
    assert_eq!(app.view_mode, ViewMode::Cards);
}

#[test]
fn an_empty_list_says_why() {
    let mut app = app();
    assert_eq!(app.device_list(), DeviceList::Devices(app.fleet.devices.clone()));
    app.set_search("nothing".to_string());
    assert_eq!(app.device_list(), DeviceList::NoMatch);
    app.fleet.devices.clear();
    assert_eq!(app.device_list(), DeviceList::NoDevices);
}

#[test]
fn devices_are_selected_one_by_one() {
    let mut app = app();
    app.set_selected("vit008", true);
    app.set_selected("gone", true);
    assert!(app.selected.contains("vit008"));
    assert_eq!(app.selected.len(), 2);
    app.set_selected("vit008", false);
    assert!(!app.selected.contains("vit008"));
    app.clear_selection();
    assert!(app.selected.is_empty());
}

#[test]
fn only_what_is_in_the_list_is_selected_with_all() {
    let mut app = app();
    assert!(!app.all_visible_selected());
    app.set_selected("led3", true);
    app.set_search("meter".to_string());
    assert!(!app.all_visible_selected());
    app.set_all_visible_selected(true);
    assert!(app.all_visible_selected());
    assert_eq!(app.selected.len(), 3);
    app.set_all_visible_selected(false);
    assert_eq!(app.selected.len(), 1);
    assert!(app.selected.contains("led3"));
    app.set_search("nothing".to_string());
    assert!(!app.all_visible_selected());
}

#[test]
fn a_row_shows_what_a_device_runs() {
    let mut app = app();
    let d = device("vit008", "Meter A", "", &[]);
    let row = app.device_row(&d);
    assert!(!row.online && !row.checked);
    assert_eq!(row.deployed, "v1.0.0");
    assert_eq!(row.running, Running::Unknown);
    for (status, online, running) in [
        ("ONLINE v1.0.0", true, Running::Current("1.0.0".to_string())),
        ("ONLINE v1.0.1 x", true, Running::Other("1.0.1".to_string())),
        ("ONLINE", true, Running::Unknown),
        ("OFFLINE", false, Running::Unknown),
    ] {
        let ev = AppEvent::MqttStatus {
            device_id: "vit008".to_string(),
            status: status.to_string(),
        };
        app.handle_event(ev, 0);
        let row = app.device_row(&d);
        assert_eq!(row.online, online, "{}", status);
        assert_eq!(row.running, running, "{}", status);
    }
    app.set_selected("vit008", true);
    assert!(app.device_row(&d).checked);
    let mut d = d;
    d.desired_version = String::new();
    assert_eq!(app.device_row(&d).deployed, "—");
}

#[test]
fn running_versions_are_marked() {
    assert_eq!(running_label(&Running::Unknown), "—");
    assert_eq!(running_label(&Running::Current("1.0".to_string())), "v1.0 ✓");
    assert_eq!(running_label(&Running::Other("1.0".to_string())), "v1.0 ⚠");
}

#[test]
fn the_latest_deployment_comes_first() {
    let mut app = app();
    app.set_tab(Tab::History);
    assert_eq!(app.tab, Tab::History);
    assert!(app.history().is_empty());
    for version in ["1", "2", "3"] {
        app.fleet.deploy_history.push(DeployRecord {
            device_id: String::new(),
            device_name: String::new(),
            version: version.to_string(),
            deployed_by: String::new(),
            deployed_at: String::new(),
            firmware_url: String::new(),
        });
    }
    let versions: Vec<String> = app.history().into_iter().map(|r| r.version).collect();
    assert_eq!(versions, vec!["3", "2", "1"]);
}
