use ota_flasher::topics::{device_id, topic, topics};

#[test]
fn a_device_has_three_topics() {
    let t = topics("vit010");
    assert_eq!(t.cmd, "solar/vit010/cmd");
    assert_eq!(t.status, "solar/vit010/status");
    assert_eq!(t.ota, "solar/vit010/ota");
}

#[test]
fn a_topic_names_its_device() {
    assert_eq!(device_id(&topic("vit010", "status")).as_deref(), Some("vit010"));
    assert_eq!(device_id("a/b/c/d").as_deref(), Some("b"));
    assert_eq!(device_id("//").as_deref(), Some(""));
    assert_eq!(device_id("solar/vit010"), None);
    assert_eq!(device_id(""), None);
}
