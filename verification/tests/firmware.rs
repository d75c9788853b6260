use ota_flasher::firmware::{bump_firmware_version, read_firmware_version};

const SKETCH: &str = "#include <WiFi.h>\n#define FIRMWARE_VERSION \"1.0.1\"\nvoid setup() {}\n";

#[test]
fn a_version_is_read() {
    assert_eq!(read_firmware_version(SKETCH).as_deref(), Some("1.0.1"));
    assert_eq!(read_firmware_version("void setup() {}"), None);
    assert_eq!(read_firmware_version("#define FIRMWARE_VERSION \"\""), None);
    assert_eq!(read_firmware_version("#define FIRMWARE_VERSION \"1.0-beta\""), None);
    assert_eq!(read_firmware_version("#define  FIRMWARE_VERSION \"1.0\""), None);
}

#[test]
fn the_first_version_counts() {
    let text = "#define FIRMWARE_VERSION \"x\"\n//#define FIRMWARE_VERSION \"2.0\"\n#define FIRMWARE_VERSION \"3.0\"";
    assert_eq!(read_firmware_version(text).as_deref(), Some("2.0"));
}

#[test]
fn a_version_is_written() {
    let new = bump_firmware_version(SKETCH, "1.0.2");
    assert_eq!(
        new,
        "#include <WiFi.h>\n#define FIRMWARE_VERSION \"1.0.2\"\nvoid setup() {}\n"
    );
    assert_eq!(read_firmware_version(&new).as_deref(), Some("1.0.2"));
}

#[test]
fn only_the_first_definition_is_replaced() {
    let twice = format!("{}{}", SKETCH, SKETCH);
    let new = bump_firmware_version(&twice, "9");
    assert!(new.ends_with(SKETCH));
    assert_eq!(read_firmware_version(&new).as_deref(), Some("9"));
}

#[test]
fn a_sketch_without_a_version_stays() {
    assert_eq!(bump_firmware_version("void loop() {}", "1.0.2"), "void loop() {}");
}

#[test]
fn a_version_of_other_characters_is_written_too() {
    let new = bump_firmware_version(SKETCH, "1.0-β");
    assert!(new.contains("#define FIRMWARE_VERSION \"1.0-β\""));
    assert_eq!(read_firmware_version(&new), None);
}

#[test]
fn a_dollar_is_a_reference() {
    let new = bump_firmware_version(SKETCH, "$0");
    assert!(new.starts_with("#include <WiFi.h>\n"));
    assert!(new.ends_with("\nvoid setup() {}\n"));
    assert!(new.contains("\"#define FIRMWARE_VERSION \"1.0.1\"\""));
}
