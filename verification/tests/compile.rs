use ota_flasher::compile::{
    compile_sketch, compiler_candidates, compiler_candidates_in, find_arduino_cli, printed, relay,
    relay_lost, sketch_name, stderr_level, Answer, Compilation, Stage,
};
use ota_flasher::types::{AppEvent, LogLevel};

const DIR: &str = "/s/ESP32_VIT";

fn compilation() -> Compilation {
    compile_sketch(DIR.to_string(), "1.0.2".to_string(), "esp32:esp32:esp32".to_string())
}

fn line(text: &str, level: LogLevel) -> AppEvent {
    AppEvent::CompileOutput { line: text.to_string(), level }
}

fn failed() -> AppEvent {
    AppEvent::CompileDone { success: false, bin_path: None }
}

fn source() -> Answer {
    Answer::Read(Ok("#define FIRMWARE_VERSION \"1.0.1\"\n".to_string()))
}

/// A compilation whose compiler runs.
fn running() -> Compilation {
    let mut c = compilation();
    c.answer(Answer::Found(true));
    c.answer(Answer::Found(true));
    c.answer(source());
    c.answer(Answer::Tried(Ok(())));
    c.answer(Answer::Root { temp_dir: "/tmp".to_string(), ms: 1700 });
    c.answer(Answer::Tried(Ok(())));
    c.answer(Answer::Compiler("/usr/bin/arduino-cli".to_string()));
    c
}

#[test]
fn a_compilation_goes_through() {
    let mut c = compilation();
    assert_eq!(c.source(), "/s/ESP32_VIT/ESP32_VIT.ino");
    assert_eq!(c.answer(Answer::Found(true)), Vec::new());
    assert_eq!(
        c.answer(Answer::Found(true)),
        vec![line(
            "Bumping FIRMWARE_VERSION to 1.0.2 in /s/ESP32_VIT/ESP32_VIT.ino",
            LogLevel::Info
        )]
    );
    assert_eq!(c.answer(source()), Vec::new());
    assert_eq!(
        c.stage,
        Stage::Writing { content: "#define FIRMWARE_VERSION \"1.0.2\"\n".to_string() }
    );
    assert_eq!(
        c.answer(Answer::Tried(Ok(()))),
        vec![line("✓ Version set to 1.0.2", LogLevel::Success)]
    );
    assert_eq!(c.stage, Stage::Root);
    let root = Answer::Root { temp_dir: "/tmp".to_string(), ms: 1700 };
    assert_eq!(c.answer(root), Vec::new());
    assert_eq!(c.stage, Stage::Output { dir: "/tmp/ota-build-1700".to_string() });
    assert_eq!(c.answer(Answer::Tried(Ok(()))), Vec::new());
    assert_eq!(
        c.answer(Answer::Compiler("arduino-cli".to_string())),
        vec![line(
            "$ arduino-cli compile --fqbn esp32:esp32:esp32 --output-dir /tmp/ota-build-1700 /s/ESP32_VIT",
            LogLevel::Info
        )]
    );
    assert_eq!(
        c.compiler_args("/tmp/ota-build-1700"),
        vec![
            "compile",
            "--fqbn",
            "esp32:esp32:esp32",
            "--output-dir",
            "/tmp/ota-build-1700",
            "/s/ESP32_VIT",
        ]
    );
    assert_eq!(c.answer(Answer::Exited(true)), Vec::new());
    let bin = "/tmp/ota-build-1700/ESP32_VIT.ino.bin".to_string();
    assert_eq!(c.stage, Stage::Binary { path: bin.clone() });
    assert_eq!(
        c.answer(Answer::Found(true)),
        vec![
            line(&format!("✓ Binary ready: {}", bin), LogLevel::Success),
            AppEvent::CompileDone { success: true, bin_path: Some(bin) },
        ]
    );
    assert_eq!(c.stage, Stage::Finished);
    assert_eq!(c.answer(Answer::Found(true)), Vec::new());
}

#[test]
fn a_missing_folder_ends_it() {
    let mut c = compilation();
    assert_eq!(
        c.answer(Answer::Found(false)),
        vec![
            line("Error: sketch folder not found: /s/ESP32_VIT", LogLevel::Error),
            line(
                "→ Set Sketch folder to your Arduino sketch directory, e.g. ~/Arduino/ESP32_VIT010_MQTT_TLS",
                LogLevel::Info
            ),
            failed(),
        ]
    );
    assert_eq!(c.stage, Stage::Finished);
}

#[test]
fn a_missing_source_ends_it() {
    let mut c = compilation();
    c.answer(Answer::Found(true));
    assert_eq!(
        c.answer(Answer::Found(false)),
        vec![
            line("Error: .ino not found at /s/ESP32_VIT/ESP32_VIT.ino", LogLevel::Error),
            line(
                "→ The folder name 'ESP32_VIT' must match the .ino filename inside it",
                LogLevel::Info
            ),
            failed(),
        ]
    );
}

#[test]
fn a_source_that_cannot_be_changed_ends_it() {
    let expected = vec![line("Error updating .ino: denied", LogLevel::Error), failed()];
    let mut c = compilation();
    c.answer(Answer::Found(true));
    c.answer(Answer::Found(true));
    assert_eq!(c.answer(Answer::Read(Err("denied".to_string()))), expected);
    let mut c = compilation();
    c.answer(Answer::Found(true));
    c.answer(Answer::Found(true));
    c.answer(source());
    assert_eq!(c.answer(Answer::Tried(Err("denied".to_string()))), expected);
}

#[test]
fn an_output_folder_that_cannot_be_made_ends_it() {
    let mut c = compilation();
    c.answer(Answer::Found(true));
    c.answer(Answer::Found(true));
    c.answer(source());
    c.answer(Answer::Tried(Ok(())));
    c.answer(Answer::Root { temp_dir: "/tmp".to_string(), ms: 0 });
    assert_eq!(
        c.answer(Answer::Tried(Err("full".to_string()))),
        vec![line("Error creating build dir: full", LogLevel::Error), failed()]
    );
}

#[test]
fn a_compiler_that_does_not_start_ends_it() {
    assert_eq!(
        running().answer(Answer::NotStarted("not found".to_string())),
        vec![
            line(
                "Failed to launch arduino-cli (/usr/bin/arduino-cli): not found",
                LogLevel::Error
            ),
            line(
                "Install it: https://arduino.github.io/arduino-cli/latest/installation/",
                LogLevel::Info
            ),
            failed(),
        ]
    );
}

#[test]
fn a_compiler_that_fails_ends_it() {
    assert_eq!(
        running().answer(Answer::Exited(false)),
        vec![line("Compilation failed — see errors above", LogLevel::Error), failed()]
    );
    assert_eq!(
        running().answer(Answer::WaitFailed("no child".to_string())),
        vec![line("Process error: no child", LogLevel::Error), failed()]
    );
}

#[test]
fn a_binary_that_is_not_there_ends_it() {
    let mut c = running();
    c.answer(Answer::Exited(true));
    assert_eq!(
        c.answer(Answer::Found(false)),
        vec![
            line(
                "Build succeeded but .bin not found at: /tmp/ota-build-1700/ESP32_VIT.ino.bin",
                LogLevel::Error
            ),
            failed(),
        ]
    );
}

#[test]
fn what_was_not_asked_for_changes_nothing() {
    let mut c = compilation();
    assert_eq!(c.answer(Answer::Exited(true)), Vec::new());
    assert_eq!(c, compilation());
    let mut c = running();
    assert_eq!(c.answer(Answer::Found(true)), Vec::new());
    assert_eq!(c, running());
}

#[test]
fn every_way_comes_to_an_end() {
    let mut c = running();
    let mut told = 7;
    while c.stage != Stage::Finished {
        let answer = match c.stage {
            Stage::Running { .. } => Answer::Exited(true),
            _ => Answer::Found(true),
        };
        c.answer(answer);
        told += 1;
    }
    assert_eq!(told, 9);
}

#[test]
fn a_folder_without_a_name_is_a_sketch() {
    assert_eq!(sketch_name("/"), "sketch");
    assert_eq!(sketch_name("/s/LED/"), "LED");
    let c = compile_sketch("/".to_string(), "1".to_string(), "f".to_string());
    assert_eq!(c.source(), "/sketch.ino");
}

#[test]
fn the_compiler_is_looked_for() {
    let places = compiler_candidates_in(Some("/home/x".to_string()));
    assert_eq!(
        places,
        vec![
            "/home/x/.local/bin/arduino-cli",
            "/usr/local/bin/arduino-cli",
            "/usr/bin/arduino-cli",
            "arduino-cli",
        ]
    );
    assert_eq!(compiler_candidates_in(None).len(), 3);
    assert_eq!(find_arduino_cli(&places, &vec![true, true, true, false]), places[0]);
    assert_eq!(find_arduino_cli(&places, &vec![false, true, true, false]), places[1]);
    assert_eq!(find_arduino_cli(&places, &vec![false, false, false, false]), "arduino-cli");
    assert_eq!(find_arduino_cli(&places, &Vec::new()), "arduino-cli");
    assert_eq!(find_arduino_cli(&Vec::new(), &Vec::new()), "arduino-cli");
    let home = dirs::home_dir().map(|h| h.to_string_lossy().to_string());
    assert_eq!(compiler_candidates(), compiler_candidates_in(home));
}

#[test]
fn errors_of_the_compiler_stand_out() {
    assert_eq!(
        printed("x.ino:3: ERROR: no".to_string(), true),
        line("x.ino:3: ERROR: no", LogLevel::Error)
    );
    assert_eq!(printed("warning: x".to_string(), true), line("warning: x", LogLevel::Normal));
    assert_eq!(printed("error: x".to_string(), false), line("error: x", LogLevel::Normal));
    assert_eq!(stderr_level("error: x"), LogLevel::Error);
    assert_eq!(stderr_level("ERROR: x"), LogLevel::Normal);
}

#[test]
fn one_sketch_of_many_is_reported_under_its_folder() {
    let out = line("x", LogLevel::Normal);
    let of_sketch = AppEvent::BulkCompileOutput {
        sketch_dir: "/s".to_string(),
        line: "x".to_string(),
        level: LogLevel::Normal,
    };
    assert_eq!(relay("/s", out.clone()), (vec![out, of_sketch], false));
    let done = AppEvent::CompileDone { success: true, bin_path: Some("/b".to_string()) };
    assert_eq!(
        relay("/s", done),
        (
            vec![AppEvent::BulkCompileDone {
                sketch_dir: "/s".to_string(),
                success: true,
                bin_path: Some("/b".to_string()),
            }],
            true
        )
    );
    assert_eq!(relay("/s", AppEvent::FleetSaved), (Vec::new(), false));
    assert_eq!(
        relay_lost("/s".to_string()),
        AppEvent::BulkCompileDone {
            sketch_dir: "/s".to_string(),
            success: false,
            bin_path: None,
        }
    );
}
