//! What is asked of the compiler, the service and the broker, and what each answer leads to.
use vstd::prelude::*;
use vstd::string::*;
use crate::compile::{
    advanced, all_relayed, binary_path, compiler_arguments, compiler_found, compiler_places,
    ino_path, output_dir, printed_level, relayed, report_of, reports, told, Answer, CompilationView,
    ReportView, StageView,
};
use crate::model::sketch_name_of;
use crate::mqtt::{is_over, is_session, is_status, Notification, Session};
use crate::number::decimal;
use crate::outside::{lossy_text, regex_replaced};
use crate::paths::file_name_of;
use crate::text::{occurs_in, trimmed};
use crate::text_laws::{
    law_last_component_is_a_piece, law_topics_are_below_solar, law_trailing_characters_go,
};
use crate::types::{AppEvent, ConfigView, LogLevel};
use crate::worker::{
    after_reply, after_scp, after_upload, firmware_name, is_request, is_success_code, HttpRequest,
    JobView, Method, NextView, ScpOutcome,
};

verus! {

// ---- The service ----

/// A request goes to the path below the address, and carries the key after the word `Bearer`.
pub proof fn law_request_carries_the_key(
    r: HttpRequest,
    method: Method,
    base: Seq<char>,
    path: Seq<char>,
    token: Seq<char>,
)
    ensures
        is_request(r, method, base, path, token) ==> {
            &&& r.method == method
            &&& r.url@.len() == base.len() + path.len()
            &&& base.is_prefix_of(r.url@)
            &&& path.is_suffix_of(r.url@)
            &&& r.authorization@ == "Bearer "@ + token
        },
        r.method == method && r.url@ == base + path && r.authorization@ == "Bearer "@ + token
            ==> is_request(r, method, base, path, token),
{
    let url = base + path;
    assert(url.take(base.len() as int) =~= base);
    assert(url.subrange(url.len() - path.len(), url.len() as int) =~= path);
}

/// A status tells of success exactly if its first of three digits is 2.
pub proof fn law_success_is_two_hundred(code: u16)
    ensures
        is_success_code(code) <==> code / 100 == 2,
{
}

/// Firmware is stored under the device, `_v`, the version and `.bin`.
pub proof fn law_firmware_is_named_after_its_device(id: Seq<char>, version: Seq<char>)
    ensures
        firmware_name(id, version).len() == id.len() + version.len() + 6,
        (id + seq!['_', 'v']).is_prefix_of(firmware_name(id, version)),
        (version + seq!['.', 'b', 'i', 'n']).is_suffix_of(firmware_name(id, version)),
{
    reveal_strlit("_v");
    reveal_strlit(".bin");
    assert("_v"@ =~= seq!['_', 'v']);
    assert(".bin"@ =~= seq!['.', 'b', 'i', 'n']);
    let n = firmware_name(id, version);
    assert(n.take(id.len() as int + 2) =~= id + seq!['_', 'v']);
    assert(n.subrange(id.len() as int + 2, n.len() as int) =~= version + seq!['.', 'b', 'i', 'n']);
}

/// The address of the copy on the host for firmware is that of its folder, one slash, and the name
/// of the firmware, whether the folder was given without a slash at its end, with one or with more.
pub proof fn law_copy_is_fetched_below_the_folder(
    job: JobView,
    base: Seq<char>,
    stderr: Vec<u8>,
)
    requires
        base.len() == 0 || base.last() != '/',
    ensures
        ({
            let ran = ScpOutcome::Ran { success: true, stderr };
            let url = Ok::<Seq<char>, Seq<char>>(
                base + "/"@ + job.device_id + "_v"@ + job.version + ".bin"@,
            );
            &&& after_scp(JobView { vps_firmware_url: base, ..job }, ran) == url
            &&& after_scp(JobView { vps_firmware_url: base + "/"@, ..job }, ran) == url
            &&& after_scp(JobView { vps_firmware_url: base + "//"@, ..job }, ran) == url
        }),
{
    reveal_strlit("/");
    reveal_strlit("//");
    assert(base + "/"@ =~= base.push('/'));
    assert(base + "//"@ =~= base.push('/').push('/'));
    law_trailing_characters_go(base, '/');
    law_trailing_characters_go(base.push('/'), '/');
    assert(base + "/"@ + (job.device_id + "_v"@ + job.version + ".bin"@) =~= base + "/"@
        + job.device_id + "_v"@ + job.version + ".bin"@);
}

/// A run of `scp` that was lost, could not be started or failed is told with what is known of it.
pub proof fn law_failed_copy_is_told(job: JobView, e: String, stderr: Vec<u8>)
    ensures
        after_scp(job, ScpOutcome::Lost(e)) == Err::<Seq<char>, Seq<char>>(e@),
        after_scp(job, ScpOutcome::NotStarted(e)) == Err::<Seq<char>, Seq<char>>(
            "scp launch failed: "@ + e@,
        ),
        after_scp(job, ScpOutcome::Ran { success: false, stderr }) == Err::<
            Seq<char>,
            Seq<char>,
        >("SCP to VPS failed: "@ + trimmed(lossy_text(stderr@))),
{
}

/// A reply with an address leads to a copy if both the host for firmware and its key are given,
/// else to that address. The copy is made with the key, without a question to the user, from the
/// binary to the folder on the host, under the name of the firmware.
pub proof fn law_reply_leads_on(job: JobView, url: Seq<char>, shown: Seq<char>)
    ensures
        ({
            let next = after_reply(job, Some((Some(url), shown)));
            if job.vps_host.len() > 0 && job.vps_key.len() > 0 {
                next == Ok::<NextView, Seq<char>>(
                    NextView::Copy(
                        seq![
                            "-i"@,
                            job.vps_key,
                            "-o"@,
                            "StrictHostKeyChecking=no"@,
                            "-o"@,
                            "BatchMode=yes"@,
                            job.bin_path,
                            job.vps_host + ":"@ + job.vps_firmware_dir + "/"@ + job.device_id
                                + "_v"@ + job.version + ".bin"@,
                        ],
                    ),
                )
            } else {
                next == Ok::<NextView, Seq<char>>(NextView::Done(url))
            }
        }),
{
    assert(job.vps_host + ":"@ + job.vps_firmware_dir + "/"@ + (job.device_id + "_v"@ + job.version
        + ".bin"@) =~= job.vps_host + ":"@ + job.vps_firmware_dir + "/"@ + job.device_id + "_v"@
        + job.version + ".bin"@);
}

/// A reply without success, one that cannot be read and one without an address are errors, each
/// told with what is known of it; a reply of success leads to what its body leads to.
pub proof fn law_other_replies_are_errors(
    job: JobView,
    code: u16,
    shown: Seq<char>,
    body: Seq<char>,
    field: Option<(Option<Seq<char>>, Seq<char>)>,
)
    ensures
        code < 200 || code >= 300 ==> after_upload(job, code, shown, field) == Err::<
            NextView,
            Seq<char>,
        >("HTTP "@ + shown + " uploading firmware"@),
        200 <= code < 300 ==> after_upload(job, code, shown, field) == after_reply(job, field),
        after_reply(job, None) == Err::<NextView, Seq<char>>("error decoding response body"@),
        after_reply(job, Some((None, body))) == Err::<NextView, Seq<char>>(
            "No url in Cloudflare response: "@ + body,
        ),
{
}

// ---- The broker ----

/// A connection is made as the settings say, under a name with the time in it, with thirty seconds
/// of silence and twenty requests allowed, and asks for the status of all devices.
pub proof fn law_session_is_by_the_settings(s: Session, c: ConfigView, ms: u64)
    requires
        is_session(s, c, ms),
    ensures
        s.client_id@ == "ota-flasher-"@ + decimal(ms as nat),
        s.host@ == c.mqtt_host,
        s.port == c.mqtt_port,
        s.user@ == c.mqtt_user,
        s.pass@ == c.mqtt_pass,
        s.keep_alive_secs == 30,
        s.queue == 20,
        s.subscription@ == "solar/+/status"@,
        crate::mqtt::RECONNECT_SECS == 5,
{
    law_topics_are_below_solar("+"@, "status"@);
    reveal_strlit("solar/+/status");
    reveal_strlit("solar/");
    reveal_strlit("+");
    reveal_strlit("/");
    reveal_strlit("status");
    assert("solar/"@ + "+"@ + "/"@ + "status"@ =~= "solar/+/status"@);
}

/// A connection is over once it is lost, refused or could not be subscribed with, and only then.
pub proof fn law_connection_is_over(topic: String, payload: Vec<u8>)
    ensures
        is_over(Notification::NotSubscribed),
        is_over(Notification::Refused),
        is_over(Notification::Lost),
        !is_over(Notification::Accepted),
        !is_over(Notification::Message { topic, payload }),
        !is_over(Notification::Other),
{
}

/// A status that is reported is that of one device, with one text.
pub proof fn law_status_is_of_its_device(
    ev: AppEvent,
    device: String,
    text: String,
    id: Seq<char>,
    status: Seq<char>,
)
    ensures
        is_status(AppEvent::MqttStatus { device_id: device, status: text }, id, status) <==> device@
            == id && text@ == status,
        is_status(ev, id, status) ==> ev is MqttStatus,
{
}

// ---- Compiling ----

/// The name of a sketch is that of its folder, or `sketch` where that has none; its source and its
/// binary are named after it, in the folder of the sketch and in that of the output.
pub proof fn law_files_are_named_after_the_sketch(dir: Seq<char>, out: Seq<char>)
    requires
        dir.len() > 0,
        dir.last() != '/',
        out.len() > 0,
        out.last() != '/',
    ensures
        ({
            let name = match file_name_of(dir) {
                Some(n) => n,
                None => "sketch"@,
            };
            &&& sketch_name_of(dir) == name
            &&& ino_path(dir) == dir + "/"@ + name + ".ino"@
            &&& binary_path(dir, out) == out + "/"@ + name + ".ino.bin"@
        }),
{
    reveal_strlit("/");
    reveal_strlit("sketch");
    let name = match file_name_of(dir) {
        Some(n) => n,
        None => "sketch"@,
    };
    if file_name_of(dir) is Some {
        law_last_component_is_a_piece(dir);
        assert(name[0] != '/') by {
            if name[0] == '/' {
                assert(name.contains('/'));
            }
        }
    }
    assert((name + ".ino"@)[0] == name[0]);
    assert((name + ".ino.bin"@)[0] == name[0]);
    assert(dir + "/"@ + (name + ".ino"@) =~= dir + "/"@ + name + ".ino"@);
    assert(out + "/"@ + (name + ".ino.bin"@) =~= out + "/"@ + name + ".ino.bin"@);
}

/// The output of a compilation goes to a folder of its own below that for temporary files, named
/// after the time.
pub proof fn law_output_folder_is_named_after_the_time(temp: Seq<char>, ms: u64)
    requires
        temp.len() > 0,
        temp.last() != '/',
    ensures
        output_dir(temp, ms) == temp + "/ota-build-"@ + decimal(ms as nat),
{
    reveal_strlit("/");
    reveal_strlit("ota-build-");
    reveal_strlit("/ota-build-");
    let name = "ota-build-"@ + decimal(ms as nat);
    assert(name[0] == 'o');
    assert("/ota-build-"@ =~= "/"@ + "ota-build-"@);
    assert(temp + "/"@ + name =~= temp + "/ota-build-"@ + decimal(ms as nat));
}

/// The compiler is given the board, the folder for the output and that of the sketch.
pub proof fn law_compiler_is_given_all(dir: Seq<char>, fqbn: Seq<char>, out: Seq<char>)
    ensures
        compiler_arguments(dir, fqbn, out).len() == 6,
        compiler_arguments(dir, fqbn, out)[0] == "compile"@,
        compiler_arguments(dir, fqbn, out)[1] == "--fqbn"@,
        compiler_arguments(dir, fqbn, out)[2] == fqbn,
        compiler_arguments(dir, fqbn, out)[3] == "--output-dir"@,
        compiler_arguments(dir, fqbn, out)[4] == out,
        compiler_arguments(dir, fqbn, out)[5] == dir,
{
}

/// No answer changes what is compiled, with which version and for which board.
pub proof fn law_answers_keep_what_is_compiled(c: CompilationView, a: Answer)
    ensures
        advanced(c, a).0 == (CompilationView { stage: advanced(c, a).0.stage, ..c }),
{
}

/// With its folder there, a sketch is looked for; without it the compilation is over, and told is
/// which folder was not found and what to do.
pub proof fn law_folder_must_be_there(c: CompilationView)
    requires
        c.stage is Folder,
    ensures
        advanced(c, Answer::Found(true)).0.stage is Source,
        advanced(c, Answer::Found(true)).1.len() == 0,
        advanced(c, Answer::Found(false)).0.stage is Finished,
        advanced(c, Answer::Found(false)).1 == seq![
            ReportView::Line {
                line: "Error: sketch folder not found: "@ + c.sketch_dir,
                level: LogLevel::Error,
            },
            ReportView::Line {
                line:
                    "→ Set Sketch folder to your Arduino sketch directory, e.g. ~/Arduino/ESP32_VIT010_MQTT_TLS"@,
                level: LogLevel::Info,
            },
            ReportView::Done { success: false, bin_path: None },
        ],
{
}

/// With its source there, it is told which version goes into which file, and the source is read;
/// without it the compilation is over, and told is which file was not found and how it is named.
pub proof fn law_source_must_be_there(c: CompilationView)
    requires
        c.stage is Source,
    ensures
        advanced(c, Answer::Found(true)).0.stage is Reading,
        advanced(c, Answer::Found(true)).1 == seq![
            ReportView::Line {
                line: "Bumping FIRMWARE_VERSION to "@ + c.version + " in "@ + ino_path(
                    c.sketch_dir,
                ),
                level: LogLevel::Info,
            },
        ],
        advanced(c, Answer::Found(false)).0.stage is Finished,
        advanced(c, Answer::Found(false)).1 == seq![
            ReportView::Line {
                line: "Error: .ino not found at "@ + ino_path(c.sketch_dir),
                level: LogLevel::Error,
            },
            ReportView::Line {
                line: "→ The folder name '"@ + sketch_name_of(c.sketch_dir)
                    + "' must match the .ino filename inside it"@,
                level: LogLevel::Info,
            },
            ReportView::Done { success: false, bin_path: None },
        ],
{
}

/// A source that was read is written with the line of the new version in place of its own, and then
/// told to have it; one that cannot be read or written ends the compilation, and told is why.
pub proof fn law_source_gets_the_version(
    c: CompilationView,
    content: String,
    e: String,
)
    requires
        c.stage is Reading || c.stage is Writing,
    ensures
        c.stage is Reading ==> {
            let (after, out) = advanced(c, Answer::Read(Ok(content)));
            &&& after.stage is Writing
            &&& after.stage->content == regex_replaced(
                "#define FIRMWARE_VERSION \"[0-9.]+\""@,
                content@,
                "#define FIRMWARE_VERSION \""@ + c.version + "\""@,
            )
            &&& out.len() == 0
        },
        c.stage is Writing ==> {
            let (after, out) = advanced(c, Answer::Tried(Ok(())));
            &&& after.stage is Root
            &&& out == seq![
                ReportView::Line {
                    line: "✓ Version set to "@ + c.version,
                    level: LogLevel::Success,
                },
            ]
        },
        ({
            let (after, out) = advanced(
                c,
                if c.stage is Reading {
                    Answer::Read(Err(e))
                } else {
                    Answer::Tried(Err(e))
                },
            );
            &&& after.stage is Finished
            &&& out == seq![
                ReportView::Line { line: "Error updating .ino: "@ + e@, level: LogLevel::Error },
                ReportView::Done { success: false, bin_path: None },
            ]
        }),
{
}

/// The folder for the output is made where the answer says, and the compiler then looked for; a
/// folder that cannot be made ends the compilation, and told is why.
pub proof fn law_output_folder_is_made(c: CompilationView, temp_dir: String, ms: u64, e: String)
    requires
        c.stage is Root || c.stage is Output,
    ensures
        c.stage is Root ==> {
            let (after, out) = advanced(c, Answer::Root { temp_dir, ms });
            after.stage == (StageView::Output { dir: output_dir(temp_dir@, ms) }) && out.len() == 0
        },
        c.stage is Output ==> {
            let (after, out) = advanced(c, Answer::Tried(Ok(())));
            after.stage == (StageView::Compiler { dir: c.stage->Output_dir }) && out.len() == 0
        },
        c.stage is Output ==> {
            let (after, out) = advanced(c, Answer::Tried(Err(e)));
            &&& after.stage is Finished
            &&& out == seq![
                ReportView::Line {
                    line: "Error creating build dir: "@ + e@,
                    level: LogLevel::Error,
                },
                ReportView::Done { success: false, bin_path: None },
            ]
        },
{
}

/// The compiler that was found is run, and told is how.
pub proof fn law_compiler_is_run(c: CompilationView, program: String)
    requires
        c.stage is Compiler,
    ensures
        ({
            let (after, out) = advanced(c, Answer::Compiler(program));
            let dir = c.stage->Compiler_dir;
            &&& after.stage == (StageView::Running { dir, program: program@ })
            &&& out == seq![
                ReportView::Line {
                    line: "$ "@ + program@ + " compile --fqbn "@ + c.fqbn + " --output-dir "@ + dir
                        + " "@ + c.sketch_dir,
                    level: LogLevel::Info,
                },
            ]
        }),
{
}

/// A compiler that ended well has left a binary to be looked for; one that could not be started,
/// could not be waited for or failed ends the compilation, and told is what is known of it.
pub proof fn law_compiler_comes_to_an_end(c: CompilationView, e: String)
    requires
        c.stage is Running,
    ensures
        advanced(c, Answer::Exited(true)).0.stage == (StageView::Binary {
            path: binary_path(c.sketch_dir, c.stage->Running_dir),
        }),
        advanced(c, Answer::Exited(true)).1.len() == 0,
        advanced(c, Answer::Exited(false)).0.stage is Finished,
        advanced(c, Answer::Exited(false)).1 == seq![
            ReportView::Line {
                line: "Compilation failed — see errors above"@,
                level: LogLevel::Error,
            },
            ReportView::Done { success: false, bin_path: None },
        ],
        advanced(c, Answer::WaitFailed(e)).0.stage is Finished,
        advanced(c, Answer::WaitFailed(e)).1 == seq![
            ReportView::Line { line: "Process error: "@ + e@, level: LogLevel::Error },
            ReportView::Done { success: false, bin_path: None },
        ],
        advanced(c, Answer::NotStarted(e)).0.stage is Finished,
        advanced(c, Answer::NotStarted(e)).1 == seq![
            ReportView::Line {
                line: "Failed to launch arduino-cli ("@ + c.stage->program + "): "@ + e@,
                level: LogLevel::Error,
            },
            ReportView::Line {
                line: "Install it: https://arduino.github.io/arduino-cli/latest/installation/"@,
                level: LogLevel::Info,
            },
            ReportView::Done { success: false, bin_path: None },
        ],
{
}

/// A binary that is there is told and handed on with success; without it the compilation failed.
pub proof fn law_binary_must_be_there(c: CompilationView)
    requires
        c.stage is Binary,
    ensures
        ({
            let path = c.stage->path;
            &&& advanced(c, Answer::Found(true)).0.stage is Finished
            &&& advanced(c, Answer::Found(true)).1 == seq![
                ReportView::Line { line: "✓ Binary ready: "@ + path, level: LogLevel::Success },
                ReportView::Done { success: true, bin_path: Some(path) },
            ]
            &&& advanced(c, Answer::Found(false)).0.stage is Finished
            &&& advanced(c, Answer::Found(false)).1 == seq![
                ReportView::Line {
                    line: "Build succeeded but .bin not found at: "@ + path,
                    level: LogLevel::Error,
                },
                ReportView::Done { success: false, bin_path: None },
            ]
        }),
{
}

/// Answers are taken one after the other, and what each leads to is told in their order.
pub proof fn law_answers_come_one_after_the_other(
    c: CompilationView,
    answers: Seq<Answer>,
    a: Answer,
)
    ensures
        told(c, Seq::empty()).0 == c,
        told(c, Seq::empty()).1.len() == 0,
        ({
            let before = told(c, answers);
            let last = advanced(before.0, a);
            let all = told(c, answers.push(a));
            all.0 == last.0 && all.1 == before.1 + last.1
        }),
{
    assert(answers.push(a).drop_last() =~= answers);
}

/// An event tells of a compilation what it holds.
pub proof fn law_events_tell_what_they_hold(
    text: String,
    dir: String,
    bin: String,
    level: LogLevel,
    success: bool,
    events: Seq<AppEvent>,
    i: int,
)
    ensures
        report_of(AppEvent::CompileOutput { line: text, level }) == (ReportView::Line {
            line: text@,
            level,
        }),
        report_of(AppEvent::CompileDone { success, bin_path: Some(bin) }) == (ReportView::Done {
            success,
            bin_path: Some(bin@),
        }),
        report_of(AppEvent::CompileDone { success, bin_path: None }) == (ReportView::Done {
            success,
            bin_path: None,
        }),
        report_of(AppEvent::BulkCompileOutput { sketch_dir: dir, line: text, level })
            == (ReportView::BulkLine { sketch_dir: dir@, line: text@, level }),
        report_of(AppEvent::BulkCompileDone { sketch_dir: dir, success, bin_path: Some(bin) })
            == (ReportView::BulkDone { sketch_dir: dir@, success, bin_path: Some(bin@) }),
        report_of(AppEvent::BulkCompileDone { sketch_dir: dir, success, bin_path: None })
            == (ReportView::BulkDone { sketch_dir: dir@, success, bin_path: None }),
        reports(events).len() == events.len(),
        0 <= i < events.len() ==> reports(events)[i] == report_of(events[i]),
{
}

/// The compiler is looked for below the home directory, if there is one, then in the two usual
/// folders, and last on the search path.
pub proof fn law_compiler_is_looked_for(home: Seq<char>)
    requires
        home.len() > 0,
        home.last() != '/',
    ensures
        compiler_places(Some(home)) == seq![
            home + "/.local/bin/arduino-cli"@,
            "/usr/local/bin/arduino-cli"@,
            "/usr/bin/arduino-cli"@,
            "arduino-cli"@,
        ],
        compiler_places(None) == seq![
            "/usr/local/bin/arduino-cli"@,
            "/usr/bin/arduino-cli"@,
            "arduino-cli"@,
        ],
{
    reveal_strlit("/");
    reveal_strlit(".local/bin/arduino-cli");
    reveal_strlit("/.local/bin/arduino-cli");
    assert("/.local/bin/arduino-cli"@ =~= "/"@ + ".local/bin/arduino-cli"@);
    assert(home + "/"@ + ".local/bin/arduino-cli"@ =~= home + "/.local/bin/arduino-cli"@);
    assert(compiler_places(Some(home)) =~= seq![
        home + "/.local/bin/arduino-cli"@,
        "/usr/local/bin/arduino-cli"@,
        "/usr/bin/arduino-cli"@,
        "arduino-cli"@,
    ]);
}

/// The compiler was seen at the place `i`; the bare name is always taken to be there.
spec fn is_there(places: Seq<Seq<char>>, present: Seq<bool>, i: int) -> bool {
    (i < present.len() && present[i]) || places[i] == "arduino-cli"@
}

/// The compiler is the first of the places where it was seen; if it was seen nowhere, it is left to
/// the search path.
pub proof fn law_first_compiler_is_taken(places: Seq<Seq<char>>, present: Seq<bool>, k: int)
    requires
        0 <= k <= places.len(),
        forall|i: int| 0 <= i < k ==> (#[trigger] places[i]) != "arduino-cli"@,
        forall|i: int| 0 <= i < k && i < present.len() ==> !#[trigger] present[i],
        k < places.len() ==> (k < present.len() && present[k]) || places[k] == "arduino-cli"@,
    ensures
        compiler_found(places, present, 0) == if k < places.len() {
            places[k]
        } else {
            "arduino-cli"@
        },
{
    assert forall|i: int| 0 <= i < k implies !#[trigger] is_there(places, present, i) by {
        assert(places[i] != "arduino-cli"@);
    }
    lemma_compiler_found(places, present, 0, k);
}

proof fn lemma_compiler_found(places: Seq<Seq<char>>, present: Seq<bool>, i: int, k: int)
    requires
        0 <= i <= k <= places.len(),
        forall|j: int| 0 <= j < k ==> !#[trigger] is_there(places, present, j),
        k < places.len() ==> is_there(places, present, k),
    ensures
        compiler_found(places, present, i) == if k < places.len() {
            places[k]
        } else {
            "arduino-cli"@
        },
    decreases k - i,
{
    if i < k {
        assert(!is_there(places, present, i));
        lemma_compiler_found(places, present, i + 1, k);
    }
}

/// A line is shown as an error exactly if it is one of the error output with `error:` in it, in
/// upper or lower case.
pub proof fn law_errors_are_shown_as_such(lowered: Seq<char>)
    ensures
        printed_level(Some(lowered)) is Error <==> occurs_in("error:"@, lowered),
        printed_level(Some(lowered)) is Normal <==> !occurs_in("error:"@, lowered),
        printed_level(None) is Normal,
{
}

/// Of the compilation of one sketch of many a line is passed on twice, as it is and as one of its
/// sketch; the end is passed on as that of its sketch, and nothing after it; and one that is never
/// told is a failure.
pub proof fn law_reports_are_passed_on(
    dir: Seq<char>,
    line: Seq<char>,
    level: LogLevel,
    success: bool,
    bin_path: Option<Seq<char>>,
    rest: Seq<ReportView>,
)
    ensures
        ({
            let said = ReportView::Line { line, level };
            let of_sketch = ReportView::BulkLine { sketch_dir: dir, line, level };
            let end = ReportView::Done { success, bin_path };
            let end_of_sketch = ReportView::BulkDone { sketch_dir: dir, success, bin_path };
            &&& relayed(dir, said) == (seq![said, of_sketch], false)
            &&& relayed(dir, end) == (seq![end_of_sketch], true)
            &&& relayed(dir, of_sketch) == (Seq::<ReportView>::empty(), false)
            &&& relayed(dir, end_of_sketch) == (Seq::<ReportView>::empty(), false)
            &&& relayed(dir, ReportView::Nothing) == (Seq::<ReportView>::empty(), false)
            &&& all_relayed(dir, seq![said] + rest) == seq![said, of_sketch] + all_relayed(
                dir,
                rest,
            )
            &&& all_relayed(dir, seq![end] + rest) == seq![end_of_sketch]
            &&& all_relayed(dir, seq![ReportView::Nothing] + rest) == all_relayed(dir, rest)
            &&& all_relayed(dir, Seq::empty()) == seq![
                ReportView::BulkDone { sketch_dir: dir, success: false, bin_path: None },
            ]
        }),
{
    let said = ReportView::Line { line, level };
    let end = ReportView::Done { success, bin_path };
    assert((seq![said] + rest).drop_first() =~= rest);
    assert((seq![end] + rest).drop_first() =~= rest);
    assert((seq![ReportView::Nothing] + rest).drop_first() =~= rest);
    assert(Seq::<ReportView>::empty() + all_relayed(dir, rest) =~= all_relayed(dir, rest));
}

} // verus!
