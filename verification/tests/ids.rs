use ota_flasher::ids::{next_id, suggest_next_id, try_suggest_next_id};
use ota_flasher::topics::topics;
use ota_flasher::types::Device;

fn device(id: &str) -> Device {
    Device {
        id: id.to_string(),
        name: String::new(),
        company: String::new(),
        sketch_dir: String::new(),
        topics: topics(id),
        desired_version: String::new(),
        last_deploy_by: String::new(),
        added_by: String::new(),
        added_at: String::new(),
        tags: Vec::new(),
    }
}

fn suggestion(ids: &[&str]) -> String {
    suggest_next_id(&ids.iter().map(|id| device(id)).collect())
}

#[test]
fn the_number_goes_on() {
    assert_eq!(suggestion(&["vit008", "vit009"]), "vit010");
    assert_eq!(suggestion(&["vit999"]), "vit1000");
    assert_eq!(suggestion(&["led3"]), "led4");
    assert_eq!(suggestion(&["VIT007"]), "VIT008");
}

#[test]
fn the_last_numbered_id_counts() {
    assert_eq!(suggestion(&["vit008", "led3", "rs485_generic"]), "led4");
    assert_eq!(suggestion(&["vit008", "007", "abc"]), "vit009");
}

#[test]
fn without_a_numbered_id_nothing_is_suggested() {
    assert_eq!(suggestion(&[]), "");
    assert_eq!(suggestion(&["abc", "1a", "a1b", "rs485_generic"]), "");
}

#[test]
fn a_number_that_is_too_large_counts_as_zero() {
    assert_eq!(suggestion(&["a4294967296"]), "a0000000001");
}

#[test]
fn digits_of_other_scripts_count_as_zero() {
    assert_eq!(suggestion(&["a٣"]), "a01");
}

#[test]
fn the_last_number_of_all_has_no_successor() {
    let devices = vec![device("a4294967295")];
    assert_eq!(try_suggest_next_id(&devices), None);
    let devices = vec![device("a4294967294")];
    assert_eq!(try_suggest_next_id(&devices).as_deref(), Some("a4294967295"));
    assert_eq!(try_suggest_next_id(&Vec::new()).as_deref(), Some(""));
}

#[test]
fn the_next_id_keeps_its_width() {
    assert_eq!(next_id("vit", "0009"), "vit0010");
    assert_eq!(next_id("vit", "9"), "vit10");
}
