use ota_flasher::types::{AppEvent, FleetState};
use ota_flasher::worker::{
    bulk_upload_event, firmware_file_name, fleet_load_event, fleet_save_event, get_fleet,
    get_fleet_reply, is_success, save_fleet, save_fleet_reply, scp_args, scp_failure, scp_reply,
    upload_accepted, upload_event, upload_firmware, upload_form, upload_reply, HttpRequest, Method,
    ScpOutcome, UploadJob, UploadNext,
};

fn job(vps_host: &str, vps_key: &str) -> UploadJob {
    UploadJob {
        bin_path: "/tmp/x.bin".to_string(),
        device_id: "vit010".to_string(),
        version: "1.0.2".to_string(),
        worker_url: "https://ota".to_string(),
        token: "secret".to_string(),
        vps_host: vps_host.to_string(),
        vps_key: vps_key.to_string(),
        vps_firmware_dir: "/var/www/firmware".to_string(),
        vps_firmware_url: "http://vps/firmware/".to_string(),
    }
}

#[test]
fn requests_carry_the_key() {
    assert_eq!(
        get_fleet("https://ota", "t"),
        HttpRequest {
            method: Method::Get,
            url: "https://ota/fleet".to_string(),
            authorization: "Bearer t".to_string(),
        }
    );
    assert_eq!(save_fleet("https://ota", "t").method, Method::Put);
    assert_eq!(save_fleet("https://ota", "t").url, "https://ota/fleet");
    let r = upload_firmware(&job("", ""));
    assert_eq!(r.method, Method::Post);
    assert_eq!(r.url, "https://ota/upload");
    assert_eq!(r.authorization, "Bearer secret");
}

#[test]
fn the_form_names_the_firmware() {
    let f = upload_form(&job("", ""));
    assert_eq!(
        f.fields,
        vec![
            ("deviceId".to_string(), "vit010".to_string()),
            ("version".to_string(), "1.0.2".to_string()),
        ]
    );
    assert_eq!(f.file_field, "file");
    assert_eq!(f.file_name, "vit010_v1.0.2.bin");
    assert_eq!(f.mime, "application/octet-stream");
    assert_eq!(firmware_file_name(&job("", "")), "vit010_v1.0.2.bin");
}

#[test]
fn statuses_are_told_apart() {
    assert!(is_success(200) && is_success(204) && is_success(299));
    assert!(!is_success(199) && !is_success(300) && !is_success(404));
    assert_eq!(get_fleet_reply(200, "200 OK"), Ok(()));
    assert_eq!(get_fleet_reply(404, "404 Not Found"), Err("HTTP 404 Not Found".to_string()));
    assert_eq!(save_fleet_reply(201, "201 Created"), Ok(()));
    assert_eq!(
        save_fleet_reply(500, "500 Internal Server Error"),
        Err("HTTP 500 Internal Server Error saving fleet".to_string())
    );
}

#[test]
fn the_address_in_the_reply_is_used_without_a_host() {
    let body = b"{\"ok\": true, \"url\": \"https://r2/x.bin\"}";
    for j in [job("", ""), job("root@vps", ""), job("", "~/.ssh/id_rsa")] {
        assert_eq!(
            upload_reply(&j, 200, "200 OK", body),
            Ok(UploadNext::Done("https://r2/x.bin".to_string()))
        );
    }
}

#[test]
fn with_a_host_the_firmware_is_copied_there() {
    let j = job("root@vps", "/key");
    let args = vec![
        "-i".to_string(),
        "/key".to_string(),
        "-o".to_string(),
        "StrictHostKeyChecking=no".to_string(),
        "-o".to_string(),
        "BatchMode=yes".to_string(),
        "/tmp/x.bin".to_string(),
        "root@vps:/var/www/firmware/vit010_v1.0.2.bin".to_string(),
    ];
    assert_eq!(scp_args(&j), args);
    assert_eq!(
        upload_reply(&j, 200, "200 OK", b"{\"url\":\"u\"}"),
        Ok(UploadNext::Copy(args))
    );
    assert_eq!(
        scp_reply(&j, ScpOutcome::Ran { success: true, stderr: Vec::new() }),
        Ok("http://vps/firmware/vit010_v1.0.2.bin".to_string())
    );
}

#[test]
fn uploads_fail_in_words() {
    let j = job("", "");
    assert_eq!(
        upload_reply(&j, 401, "401 Unauthorized", b"{\"url\":\"u\"}"),
        Err("HTTP 401 Unauthorized uploading firmware".to_string())
    );
    assert_eq!(
        upload_reply(&j, 200, "200 OK", b"<html>"),
        Err("error decoding response body".to_string())
    );
    assert_eq!(
        upload_reply(&j, 200, "200 OK", b"{\"url\": 7}"),
        Err("No url in Cloudflare response: Object {\"url\": Number(7)}".to_string())
    );
    assert_eq!(
        upload_reply(&j, 200, "200 OK", b"[]"),
        Err("No url in Cloudflare response: Array []".to_string())
    );
    assert_eq!(
        upload_accepted(&j, Some((None, "x".to_string()))),
        Err("No url in Cloudflare response: x".to_string())
    );
}

#[test]
fn copying_fails_in_words() {
    let j = job("root@vps", "/key");
    assert_eq!(scp_reply(&j, ScpOutcome::Lost("gone".to_string())), Err("gone".to_string()));
    assert_eq!(
        scp_reply(&j, ScpOutcome::NotStarted("no such file".to_string())),
        Err("scp launch failed: no such file".to_string())
    );
    assert_eq!(
        scp_reply(&j, ScpOutcome::Ran { success: false, stderr: b" denied\xff \n".to_vec() }),
        Err("SCP to VPS failed: denied\u{fffd}".to_string())
    );
    assert_eq!(scp_failure(" x "), "SCP to VPS failed: x");
}

#[test]
fn outcomes_are_reported() {
    let fleet = FleetState::default();
    assert_eq!(
        fleet_load_event(Ok(fleet)),
        AppEvent::FleetLoaded(FleetState { devices: Vec::new(), deploy_history: Vec::new() })
    );
    assert_eq!(
        fleet_load_event(Err("HTTP 404".to_string())),
        AppEvent::Error("Fleet load: HTTP 404".to_string())
    );
    assert_eq!(fleet_save_event(Ok(())), AppEvent::FleetSaved);
    assert_eq!(
        fleet_save_event(Err("e".to_string())),
        AppEvent::Error("Fleet save: e".to_string())
    );
    assert_eq!(
        upload_event(Ok("u".to_string())),
        AppEvent::UploadDone { url: "u".to_string() }
    );
    assert_eq!(
        upload_event(Err("e".to_string())),
        AppEvent::Error("Upload: e".to_string())
    );
    assert_eq!(
        bulk_upload_event("d".to_string(), Ok("u".to_string())),
        AppEvent::BulkUploadDone { sketch_dir: "d".to_string(), url: "u".to_string() }
    );
    assert_eq!(
        bulk_upload_event("d".to_string(), Err("e".to_string())),
        AppEvent::Error("Bulk upload: e".to_string())
    );
}
