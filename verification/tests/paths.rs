use ota_flasher::paths::{
    default_sketch_dir, file_name, is_absolute, join, resolve_sketch_dir, sketch_dir_named,
};
use std::path::Path;

#[test]
fn paths_are_joined_as_std_joins_them() {
    for root in ["", "/", "/home/x/Arduino", "/home/x/", "rel", "rel/", "a//"] {
        for name in ["", "a", "/abs", "a/b", "../a", "./a", "~"] {
            let expected = Path::new(root).join(name).to_string_lossy().to_string();
            assert_eq!(join(root, name), expected, "{} and {}", root, name);
        }
    }
}

#[test]
fn file_names_are_those_of_std() {
    for p in [
        "", "/", "a", "/a", "a/", "a//", "/a/b", "a/.", "a/./", "..", "a/..", ".", "./", "a/b/.c",
        "//x//", "a/.../b..",
    ] {
        let expected = Path::new(p).file_name().map(|n| n.to_string_lossy().to_string());
        assert_eq!(file_name(p), expected, "{}", p);
        assert_eq!(is_absolute(p), Path::new(p).is_absolute(), "{}", p);
    }
}

#[test]
fn the_default_folder_is_named_after_the_device() {
    assert_eq!(
        default_sketch_dir("/home/x/Arduino", "vit010"),
        "/home/x/Arduino/ESP32_VIT010_MQTT_TLS"
    );
    assert_eq!(default_sketch_dir("", "straße1"), "ESP32_STRASSE1_MQTT_TLS");
    assert_eq!(sketch_dir_named("/r", "A"), "/r/ESP32_A_MQTT_TLS");
}

#[test]
fn relative_folders_are_below_the_root() {
    assert_eq!(resolve_sketch_dir("/root", "LED_Blink"), "/root/LED_Blink");
    assert_eq!(resolve_sketch_dir("/root", "/other/LED_Blink"), "/other/LED_Blink");
    let once = resolve_sketch_dir("/root", "x");
    assert_eq!(resolve_sketch_dir("/root", &once), once);
}
