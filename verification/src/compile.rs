//! Compiling a sketch: what is done step after step, and what is reported of it.
use vstd::prelude::*;
use vstd::string::*;
use crate::firmware::{
    bump_firmware_version, define_line, define_replaced, keeps_around_define, VERSION_LINE,
};
use crate::model::{names_binary, sketch_name_of};
use crate::number::{decimal, to_decimal};
use crate::outside::{home_dir, lowercase, regex_replaced};
use crate::paths::{file_name, join, joined};
use crate::text::{contains, occurs_in, opt_view, same, views};
use crate::types::{AppEvent, LogLevel};

verus! {

// ---- What is reported ----

/// What an event tells of a compilation.
#[verifier::ext_equal]
pub enum ReportView {
    /// A line of output.
    Line { line: Seq<char>, level: LogLevel },
    /// The end.
    Done { success: bool, bin_path: Option<Seq<char>> },
    /// A line of output about one sketch of many.
    BulkLine { sketch_dir: Seq<char>, line: Seq<char>, level: LogLevel },
    /// The end of the compilation of one sketch of many.
    BulkDone { sketch_dir: Seq<char>, success: bool, bin_path: Option<Seq<char>> },
    /// Nothing.
    Nothing,
}

/// What an event tells of a compilation.
pub open spec fn report_of(ev: AppEvent) -> ReportView {
    match ev {
        AppEvent::CompileOutput { line, level } => ReportView::Line { line: line@, level },
        AppEvent::CompileDone { success, bin_path } => ReportView::Done {
            success,
            bin_path: opt_view(bin_path),
        },
        AppEvent::BulkCompileOutput { sketch_dir, line, level } => ReportView::BulkLine {
            sketch_dir: sketch_dir@,
            line: line@,
            level,
        },
        AppEvent::BulkCompileDone { sketch_dir, success, bin_path } => ReportView::BulkDone {
            sketch_dir: sketch_dir@,
            success,
            bin_path: opt_view(bin_path),
        },
        _ => ReportView::Nothing,
    }
}

/// What events tell of a compilation.
pub open spec fn reports(events: Seq<AppEvent>) -> Seq<ReportView> {
    events.map_values(|ev: AppEvent| report_of(ev))
}

/// A line of output.
pub open spec fn said(line: Seq<char>, level: LogLevel) -> ReportView {
    ReportView::Line { line, level }
}

/// The end of a compilation that gave no binary.
pub open spec fn failure() -> ReportView {
    ReportView::Done { success: false, bin_path: None }
}

// ---- The steps ----

/// Where a compilation is: what it waits for.
#[derive(Debug, PartialEq)]
pub enum Stage {
    /// Whether the folder of the sketch is there.
    Folder,
    /// Whether the source file is there.
    Source,
    /// The source.
    Reading,
    /// Whether the source could be written with this content.
    Writing { content: String },
    /// The folder for temporary files, and the time.
    Root,
    /// Whether the folder for the output could be made.
    Output { dir: String },
    /// The compiler.
    Compiler { dir: String },
    /// How the compiler ended.
    Running { dir: String, program: String },
    /// Whether the binary is there.
    Binary { path: String },
    /// Nothing: it is over.
    Finished,
}

/// What a [`Stage`] holds.
#[verifier::ext_equal]
pub enum StageView {
    Folder,
    Source,
    Reading,
    Writing { content: Seq<char> },
    Root,
    Output { dir: Seq<char> },
    Compiler { dir: Seq<char> },
    Running { dir: Seq<char>, program: Seq<char> },
    Binary { path: Seq<char> },
    Finished,
}

impl View for Stage {
    type V = StageView;

    open spec fn view(&self) -> StageView {
        match self {
            Stage::Folder => StageView::Folder,
            Stage::Source => StageView::Source,
            Stage::Reading => StageView::Reading,
            Stage::Writing { content } => StageView::Writing { content: content@ },
            Stage::Root => StageView::Root,
            Stage::Output { dir } => StageView::Output { dir: dir@ },
            Stage::Compiler { dir } => StageView::Compiler { dir: dir@ },
            Stage::Running { dir, program } => StageView::Running {
                dir: dir@,
                program: program@,
            },
            Stage::Binary { path } => StageView::Binary { path: path@ },
            Stage::Finished => StageView::Finished,
        }
    }
}

/// What a compilation is told of the outside.
#[derive(Debug)]
pub enum Answer {
    /// Whether what was asked for is there.
    Found(bool),
    /// The source, or why it could not be read.
    Read(Result<String, String>),
    /// Why writing the source, or making the folder, failed, if it did.
    Tried(Result<(), String>),
    /// The folder for temporary files, and the time in milliseconds since 1970.
    Root { temp_dir: String, ms: u64 },
    /// The compiler.
    Compiler(String),
    /// The compiler could not be started, and why.
    NotStarted(String),
    /// The compiler ended, with success or without.
    Exited(bool),
    /// The end of the compiler could not be waited for, and why.
    WaitFailed(String),
}

/// A compilation.
#[derive(Debug, PartialEq)]
pub struct Compilation {
    /// The folder of the sketch.
    pub sketch_dir: String,
    /// The version that the firmware will state.
    pub version: String,
    /// The board.
    pub fqbn: String,
    /// Where it is.
    pub stage: Stage,
}

/// What a [`Compilation`] holds.
#[verifier::ext_equal]
pub struct CompilationView {
    pub sketch_dir: Seq<char>,
    pub version: Seq<char>,
    pub fqbn: Seq<char>,
    pub stage: StageView,
}

impl View for Compilation {
    type V = CompilationView;

    open spec fn view(&self) -> CompilationView {
        CompilationView {
            sketch_dir: self.sketch_dir@,
            version: self.version@,
            fqbn: self.fqbn@,
            stage: self.stage@,
        }
    }
}

/// The source file of a sketch.
pub open spec fn ino_path(sketch_dir: Seq<char>) -> Seq<char> {
    joined(sketch_dir, sketch_name_of(sketch_dir) + ".ino"@)
}

/// The binary of a sketch in the output folder `dir`.
pub open spec fn binary_path(sketch_dir: Seq<char>, dir: Seq<char>) -> Seq<char> {
    joined(dir, sketch_name_of(sketch_dir) + ".ino.bin"@)
}

/// The arguments of the compiler.
pub open spec fn compiler_arguments(
    sketch_dir: Seq<char>,
    fqbn: Seq<char>,
    dir: Seq<char>,
) -> Seq<Seq<char>> {
    seq!["compile"@, "--fqbn"@, fqbn, "--output-dir"@, dir, sketch_dir]
}

/// The compilation at another stage, with what is reported on the way.
pub open spec fn moved(c: CompilationView, stage: StageView, told: Seq<ReportView>) -> (
    CompilationView,
    Seq<ReportView>,
) {
    (CompilationView { stage, ..c }, told)
}

/// The compilation is over without a binary: first the reason is reported, then the end.
pub open spec fn given_up(c: CompilationView, told: Seq<ReportView>) -> (
    CompilationView,
    Seq<ReportView>,
) {
    moved(c, StageView::Finished, told.push(failure()))
}

/// The folder of the sketch is there or not.
pub open spec fn after_folder(c: CompilationView, found: bool) -> (
    CompilationView,
    Seq<ReportView>,
) {
    if found {
        moved(c, StageView::Source, seq![])
    } else {
        given_up(
            c,
            seq![
                said("Error: sketch folder not found: "@ + c.sketch_dir, LogLevel::Error),
                said(
                    "→ Set Sketch folder to your Arduino sketch directory, e.g. ~/Arduino/ESP32_VIT010_MQTT_TLS"@,
                    LogLevel::Info,
                ),
            ],
        )
    }
}

/// The source file is there or not.
pub open spec fn after_source(c: CompilationView, found: bool) -> (
    CompilationView,
    Seq<ReportView>,
) {
    let path = ino_path(c.sketch_dir);
    if found {
        moved(
            c,
            StageView::Reading,
            seq![
                said(
                    "Bumping FIRMWARE_VERSION to "@ + c.version + " in "@ + path,
                    LogLevel::Info,
                ),
            ],
        )
    } else {
        given_up(
            c,
            seq![
                said("Error: .ino not found at "@ + path, LogLevel::Error),
                said(
                    "→ The folder name '"@ + sketch_name_of(c.sketch_dir)
                        + "' must match the .ino filename inside it"@,
                    LogLevel::Info,
                ),
            ],
        )
    }
}

/// The source could not be read or written.
pub open spec fn source_failed(c: CompilationView, e: Seq<char>) -> (
    CompilationView,
    Seq<ReportView>,
) {
    given_up(c, seq![said("Error updating .ino: "@ + e, LogLevel::Error)])
}

/// The source that is written in place of `content`.
pub open spec fn rewritten(content: Seq<char>, version: Seq<char>) -> Seq<char> {
    regex_replaced(VERSION_LINE@, content, define_line(version))
}

/// The folder that a compilation which begins at `ms` puts its output in.
pub open spec fn output_dir(temp_dir: Seq<char>, ms: u64) -> Seq<char> {
    joined(temp_dir, "ota-build-"@ + decimal(ms as nat))
}

/// The command line of the compiler.
pub open spec fn command_line(c: CompilationView, program: Seq<char>, dir: Seq<char>) -> Seq<char> {
    "$ "@ + program + " compile --fqbn "@ + c.fqbn + " --output-dir "@ + dir + " "@ + c.sketch_dir
}

/// The compiler could not be started.
pub open spec fn launch_failed(c: CompilationView, program: Seq<char>, e: Seq<char>) -> (
    CompilationView,
    Seq<ReportView>,
) {
    given_up(
        c,
        seq![
            said("Failed to launch arduino-cli ("@ + program + "): "@ + e, LogLevel::Error),
            said(
                "Install it: https://arduino.github.io/arduino-cli/latest/installation/"@,
                LogLevel::Info,
            ),
        ],
    )
}

/// The binary is there or not.
pub open spec fn after_binary(c: CompilationView, path: Seq<char>, found: bool) -> (
    CompilationView,
    Seq<ReportView>,
) {
    if found {
        moved(
            c,
            StageView::Finished,
            seq![
                said("✓ Binary ready: "@ + path, LogLevel::Success),
                ReportView::Done { success: true, bin_path: Some(path) },
            ],
        )
    } else {
        given_up(
            c,
            seq![said("Build succeeded but .bin not found at: "@ + path, LogLevel::Error)],
        )
    }
}

/// How an answer takes a compilation on, and what is reported of that. What was not asked for
/// changes nothing.
pub open spec fn advanced(c: CompilationView, a: Answer) -> (CompilationView, Seq<ReportView>) {
    match (c.stage, a) {
        (StageView::Folder, Answer::Found(found)) => after_folder(c, found),
        (StageView::Source, Answer::Found(found)) => after_source(c, found),
        (StageView::Reading, Answer::Read(Ok(content))) => moved(
            c,
            StageView::Writing { content: rewritten(content@, c.version) },
            seq![],
        ),
        (StageView::Reading, Answer::Read(Err(e))) => source_failed(c, e@),
        (StageView::Writing { .. }, Answer::Tried(Ok(_))) => moved(
            c,
            StageView::Root,
            seq![said("✓ Version set to "@ + c.version, LogLevel::Success)],
        ),
        (StageView::Writing { .. }, Answer::Tried(Err(e))) => source_failed(c, e@),
        (StageView::Root, Answer::Root { temp_dir, ms }) => moved(
            c,
            StageView::Output { dir: output_dir(temp_dir@, ms) },
            seq![],
        ),
        (StageView::Output { dir }, Answer::Tried(Ok(_))) => moved(
            c,
            StageView::Compiler { dir },
            seq![],
        ),
        (StageView::Output { .. }, Answer::Tried(Err(e))) => given_up(
            c,
            seq![said("Error creating build dir: "@ + e@, LogLevel::Error)],
        ),
        (StageView::Compiler { dir }, Answer::Compiler(program)) => moved(
            c,
            StageView::Running { dir, program: program@ },
            seq![said(command_line(c, program@, dir), LogLevel::Info)],
        ),
        (StageView::Running { program, .. }, Answer::NotStarted(e)) => launch_failed(c, program, e@),
        (StageView::Running { dir, .. }, Answer::Exited(true)) => moved(
            c,
            StageView::Binary { path: binary_path(c.sketch_dir, dir) },
            seq![],
        ),
        (StageView::Running { .. }, Answer::Exited(false)) => given_up(
            c,
            seq![said("Compilation failed — see errors above"@, LogLevel::Error)],
        ),
        (StageView::Running { .. }, Answer::WaitFailed(e)) => given_up(
            c,
            seq![said("Process error: "@ + e@, LogLevel::Error)],
        ),
        (StageView::Binary { path }, Answer::Found(found)) => after_binary(c, path, found),
        _ => (c, seq![]),
    }
}

/// A compilation that is told `answers` one after the other, and what is reported of it.
pub open spec fn told(c: CompilationView, answers: Seq<Answer>) -> (
    CompilationView,
    Seq<ReportView>,
)
    decreases answers.len(),
{
    if answers.len() == 0 {
        (c, seq![])
    } else {
        let before = told(c, answers.drop_last());
        let last = advanced(before.0, answers.last());
        (last.0, before.1 + last.1)
    }
}

fn line(text: String, level: LogLevel) -> (r: AppEvent)
    ensures
        report_of(r) == said(text@, level),
{
    AppEvent::CompileOutput { line: text, level }
}

fn failed() -> (r: AppEvent)
    ensures
        report_of(r) == failure(),
{
    AppEvent::CompileDone { success: false, bin_path: None }
}

fn no_events() -> (r: Vec<AppEvent>)
    ensures
        reports(r@) == Seq::<ReportView>::empty(),
{
    let r: Vec<AppEvent> = Vec::new();
    assert(reports(r@) =~= Seq::<ReportView>::empty());
    r
}

fn one_event(a: AppEvent) -> (r: Vec<AppEvent>)
    ensures
        reports(r@) == seq![report_of(a)],
{
    let mut r: Vec<AppEvent> = Vec::new();
    r.push(a);
    assert(reports(r@) =~= seq![report_of(a)]);
    r
}

fn two_events(a: AppEvent, b: AppEvent) -> (r: Vec<AppEvent>)
    ensures
        reports(r@) == seq![report_of(a), report_of(b)],
{
    let mut r: Vec<AppEvent> = Vec::new();
    r.push(a);
    r.push(b);
    assert(reports(r@) =~= seq![report_of(a), report_of(b)]);
    r
}

/// The reason for giving up, and the end.
fn ended(reason: AppEvent) -> (r: Vec<AppEvent>)
    ensures
        reports(r@) == seq![report_of(reason)].push(failure()),
{
    let r: Vec<AppEvent> = two_events(reason, failed());
    assert(reports(r@) =~= seq![report_of(reason)].push(failure()));
    r
}

/// The reason for giving up, a hint, and the end.
fn ended_with_hint(reason: AppEvent, hint: AppEvent) -> (r: Vec<AppEvent>)
    ensures
        reports(r@) == seq![report_of(reason), report_of(hint)].push(failure()),
{
    let mut r: Vec<AppEvent> = two_events(reason, hint);
    r.push(failed());
    assert(reports(r@) =~= seq![report_of(reason), report_of(hint)].push(failure()));
    r
}

/// The name that stands for a sketch folder.
pub fn sketch_name(sketch_dir: &str) -> (r: String)
    ensures
        r@ == sketch_name_of(sketch_dir@),
{
    match file_name(sketch_dir) {
        Some(n) => n,
        None => "sketch".to_owned(),
    }
}

/// Begins to compile a sketch.
pub fn compile_sketch(sketch_dir: String, new_version: String, fqbn: String) -> (r: Compilation)
    ensures
        r@ == (CompilationView {
            sketch_dir: sketch_dir@,
            version: new_version@,
            fqbn: fqbn@,
            stage: StageView::Folder,
        }),
{
    Compilation { sketch_dir, version: new_version, fqbn, stage: Stage::Folder }
}

impl Compilation {
    /// The source file.
    pub fn source(&self) -> (r: String)
        ensures
            r@ == ino_path(self@.sketch_dir),
    {
        let name: String = sketch_name(&self.sketch_dir);
        join(&self.sketch_dir, name.concat(".ino").as_str())
    }

    /// The arguments of the compiler, for output in `dir`.
    pub fn compiler_args(&self, dir: &str) -> (r: Vec<String>)
        ensures
            views(r@) == compiler_arguments(self@.sketch_dir, self@.fqbn, dir@),
    {
        let mut r: Vec<String> = Vec::new();
        r.push("compile".to_owned());
        r.push("--fqbn".to_owned());
        r.push(self.fqbn.clone());
        r.push("--output-dir".to_owned());
        r.push(dir.to_owned());
        r.push(self.sketch_dir.clone());
        assert(views(r@) =~= compiler_arguments(self@.sketch_dir, self@.fqbn, dir@));
        r
    }

    fn with_folder(&mut self, found: bool) -> (r: Vec<AppEvent>)
        ensures
            (final(self)@, reports(r@)) == after_folder(old(self)@, found),
    {
        if found {
            self.stage = Stage::Source;
            return no_events();
        }
        self.stage = Stage::Finished;
        ended_with_hint(
            line(
                "Error: sketch folder not found: ".to_owned().concat(&self.sketch_dir),
                LogLevel::Error,
            ),
            line(
                "→ Set Sketch folder to your Arduino sketch directory, e.g. ~/Arduino/ESP32_VIT010_MQTT_TLS".to_owned(),
                LogLevel::Info,
            ),
        )
    }

    fn with_source(&mut self, found: bool) -> (r: Vec<AppEvent>)
        ensures
            (final(self)@, reports(r@)) == after_source(old(self)@, found),
    {
        let path: String = self.source();
        if found {
            self.stage = Stage::Reading;
            let text: String = "Bumping FIRMWARE_VERSION to ".to_owned().concat(
                &self.version,
            ).concat(" in ").concat(&path);
            return one_event(line(text, LogLevel::Info));
        }
        self.stage = Stage::Finished;
        let hint: String = "→ The folder name '".to_owned().concat(
            sketch_name(&self.sketch_dir).as_str(),
        ).concat("' must match the .ino filename inside it");
        ended_with_hint(
            line("Error: .ino not found at ".to_owned().concat(&path), LogLevel::Error),
            line(hint, LogLevel::Info),
        )
    }

    fn with_source_failure(&mut self, e: &str) -> (r: Vec<AppEvent>)
        ensures
            (final(self)@, reports(r@)) == source_failed(old(self)@, e@),
    {
        self.stage = Stage::Finished;
        ended(line("Error updating .ino: ".to_owned().concat(e), LogLevel::Error))
    }

    fn with_launch_failure(&mut self, program: &str, e: &str) -> (r: Vec<AppEvent>)
        ensures
            (final(self)@, reports(r@)) == launch_failed(old(self)@, program@, e@),
    {
        self.stage = Stage::Finished;
        let reason: String = "Failed to launch arduino-cli (".to_owned().concat(program).concat(
            "): ",
        ).concat(e);
        ended_with_hint(
            line(reason, LogLevel::Error),
            line(
                "Install it: https://arduino.github.io/arduino-cli/latest/installation/".to_owned(),
                LogLevel::Info,
            ),
        )
    }

    fn with_binary(&mut self, path: String, found: bool) -> (r: Vec<AppEvent>)
        ensures
            (final(self)@, reports(r@)) == after_binary(old(self)@, path@, found),
    {
        self.stage = Stage::Finished;
        if found {
            two_events(
                line("✓ Binary ready: ".to_owned().concat(&path), LogLevel::Success),
                AppEvent::CompileDone { success: true, bin_path: Some(path) },
            )
        } else {
            ended(
                line(
                    "Build succeeded but .bin not found at: ".to_owned().concat(&path),
                    LogLevel::Error,
                ),
            )
        }
    }

    fn with_compiler(&mut self, dir: String, program: String) -> (r: Vec<AppEvent>)
        ensures
            final(self)@ == (CompilationView {
                stage: StageView::Running { dir: dir@, program: program@ },
                ..old(self)@
            }),
            reports(r@) == seq![said(command_line(old(self)@, program@, dir@), LogLevel::Info)],
    {
        let text: String = "$ ".to_owned().concat(&program).concat(" compile --fqbn ").concat(
            &self.fqbn,
        ).concat(" --output-dir ").concat(&dir).concat(" ").concat(&self.sketch_dir);
        self.stage = Stage::Running { dir, program };
        one_event(line(text, LogLevel::Info))
    }

    /// Takes the compilation on by an answer.
    ///
    /// A version with a `$` in it is taken, in the source that is written, as the replacement of
    /// `regex` takes it.
    pub fn answer(&mut self, a: Answer) -> (r: Vec<AppEvent>)
        ensures
            (final(self)@, reports(r@)) == advanced(old(self)@, a),
            (old(self)@.stage is Reading && !old(self)@.version.contains('$')) ==> (a matches
                Answer::Read(Ok(content)) ==> final(self)@.stage == (StageView::Writing {
                content: define_replaced(content@, define_line(old(self)@.version)),
            })),
            old(self)@.stage is Reading ==> (a matches Answer::Read(Ok(content))
                ==> keeps_around_define(content@, final(self)@.stage->content)),
    {
        let mut stage: Stage = Stage::Finished;
        std::mem::swap(&mut stage, &mut self.stage);
        match (stage, a) {
            (Stage::Folder, Answer::Found(found)) => self.with_folder(found),
            (Stage::Source, Answer::Found(found)) => self.with_source(found),
            (Stage::Reading, Answer::Read(Ok(content))) => {
                let content: String = bump_firmware_version(&content, &self.version);
                self.stage = Stage::Writing { content };
                no_events()
            },
            (Stage::Reading, Answer::Read(Err(e))) => self.with_source_failure(&e),
            (Stage::Writing { .. }, Answer::Tried(Ok(_))) => {
                self.stage = Stage::Root;
                one_event(
                    line("✓ Version set to ".to_owned().concat(&self.version), LogLevel::Success),
                )
            },
            (Stage::Writing { .. }, Answer::Tried(Err(e))) => self.with_source_failure(&e),
            (Stage::Root, Answer::Root { temp_dir, ms }) => {
                let name: String = "ota-build-".to_owned().concat(to_decimal(ms).as_str());
                self.stage = Stage::Output { dir: join(&temp_dir, &name) };
                no_events()
            },
            (Stage::Output { dir }, Answer::Tried(Ok(_))) => {
                self.stage = Stage::Compiler { dir };
                no_events()
            },
            (Stage::Output { .. }, Answer::Tried(Err(e))) => {
                self.stage = Stage::Finished;
                ended(line("Error creating build dir: ".to_owned().concat(&e), LogLevel::Error))
            },
            (Stage::Compiler { dir }, Answer::Compiler(program)) => self.with_compiler(
                dir,
                program,
            ),
            (Stage::Running { program, .. }, Answer::NotStarted(e)) => self.with_launch_failure(
                &program,
                &e,
            ),
            (Stage::Running { dir, .. }, Answer::Exited(true)) => {
                let name: String = sketch_name(&self.sketch_dir);
                self.stage = Stage::Binary { path: join(&dir, name.concat(".ino.bin").as_str()) };
                no_events()
            },
            (Stage::Running { .. }, Answer::Exited(false)) => {
                self.stage = Stage::Finished;
                ended(line("Compilation failed — see errors above".to_owned(), LogLevel::Error))
            },
            (Stage::Running { .. }, Answer::WaitFailed(e)) => {
                self.stage = Stage::Finished;
                ended(line("Process error: ".to_owned().concat(&e), LogLevel::Error))
            },
            (Stage::Binary { path }, Answer::Found(found)) => self.with_binary(path, found),
            (other, _) => {
                self.stage = other;
                no_events()
            },
        }
    }
}

// ---- The compiler ----

/// Where the compiler is looked for; the last is for the search path of the system to find.
pub open spec fn compiler_places(home: Option<Seq<char>>) -> Seq<Seq<char>> {
    let rest = seq![
        "/usr/local/bin/arduino-cli"@,
        "/usr/bin/arduino-cli"@,
        "arduino-cli"@,
    ];
    match home {
        Some(h) => seq![joined(h, ".local/bin/arduino-cli"@)] + rest,
        None => rest,
    }
}

/// The first of the places where the compiler is, from the one of index `i` on.
pub open spec fn compiler_found(places: Seq<Seq<char>>, present: Seq<bool>, i: int) -> Seq<char>
    decreases places.len() - i,
{
    if i < 0 || i >= places.len() {
        "arduino-cli"@
    } else if (i < present.len() && present[i]) || places[i] == "arduino-cli"@ {
        places[i]
    } else {
        compiler_found(places, present, i + 1)
    }
}

/// Where the compiler is looked for, given the home directory if there is one.
pub fn compiler_candidates_in(home: Option<String>) -> (r: Vec<String>)
    ensures
        views(r@) == compiler_places(opt_view(home)),
{
    let mut r: Vec<String> = Vec::new();
    if let Some(h) = &home {
        r.push(join(h, ".local/bin/arduino-cli"));
    }
    r.push("/usr/local/bin/arduino-cli".to_owned());
    r.push("/usr/bin/arduino-cli".to_owned());
    r.push("arduino-cli".to_owned());
    assert(views(r@) =~= compiler_places(opt_view(home)));
    r
}

/// Where the compiler is looked for.
pub fn compiler_candidates() -> (r: Vec<String>)
    ensures
        exists|home: Option<Seq<char>>| views(r@) == #[trigger] compiler_places(home),
{
    let home: Option<String> = home_dir();
    compiler_candidates_in(home)
}

/// The compiler, given for each candidate whether there is such a file.
pub fn find_arduino_cli(candidates: &Vec<String>, present: &Vec<bool>) -> (r: String)
    ensures
        r@ == compiler_found(views(candidates@), present@, 0),
{
    let mut i: usize = 0;
    while i < candidates.len()
        invariant
            i <= candidates@.len(),
            compiler_found(views(candidates@), present@, 0) == compiler_found(
                views(candidates@),
                present@,
                i as int,
            ),
        decreases candidates.len() - i,
    {
        assert(views(candidates@)[i as int] == candidates@[i as int]@);
        if (i < present.len() && present[i]) || same(&candidates[i], "arduino-cli") {
            return candidates[i].clone();
        }
        i = i + 1;
    }
    "arduino-cli".to_owned()
}

/// How a line that the compiler printed is shown, given the line in lower case if it is one of
/// the error output.
pub open spec fn printed_level(lowered: Option<Seq<char>>) -> LogLevel {
    match lowered {
        Some(l) => if occurs_in("error:"@, l) {
            LogLevel::Error
        } else {
            LogLevel::Normal
        },
        None => LogLevel::Normal,
    }
}

/// How a line of the error output is shown, given the line in lower case.
pub fn stderr_level(lowered: &str) -> (r: LogLevel)
    ensures
        r == printed_level(Some(lowered@)),
{
    if contains(lowered, "error:") {
        LogLevel::Error
    } else {
        LogLevel::Normal
    }
}

/// What is reported of a line that the compiler printed.
pub fn printed(text: String, on_stderr: bool) -> (r: AppEvent)
    ensures
        report_of(r) == said(
            text@,
            printed_level(
                if on_stderr {
                    Some(lowercase(text@))
                } else {
                    None
                },
            ),
        ),
{
    let level: LogLevel = if on_stderr {
        stderr_level(text.as_str().to_lowercase().as_str())
    } else {
        LogLevel::Normal
    };
    line(text, level)
}

// ---- One sketch of many ----

/// What is reported of the compilation of one sketch of many in place of `told`, and whether that
/// was the end: a line is reported as it is and once more as one of its sketch.
pub open spec fn relayed(sketch_dir: Seq<char>, told: ReportView) -> (Seq<ReportView>, bool) {
    match told {
        ReportView::Line { line, level } => (
            seq![told, ReportView::BulkLine { sketch_dir, line, level }],
            false,
        ),
        ReportView::Done { success, bin_path } => (
            seq![ReportView::BulkDone { sketch_dir, success, bin_path }],
            true,
        ),
        _ => (seq![], false),
    }
}

/// What is reported of the whole compilation of one sketch of many, from what it reports itself:
/// if that ends without saying so, the compilation failed.
pub open spec fn all_relayed(sketch_dir: Seq<char>, told: Seq<ReportView>) -> Seq<ReportView>
    decreases told.len(),
{
    if told.len() == 0 {
        seq![ReportView::BulkDone { sketch_dir, success: false, bin_path: None }]
    } else {
        let (out, end) = relayed(sketch_dir, told.first());
        if end {
            out
        } else {
            out + all_relayed(sketch_dir, told.drop_first())
        }
    }
}

/// What is reported in place of an event of the compilation of one sketch of many, and whether
/// that was the end.
pub fn relay(sketch_dir: &str, ev: AppEvent) -> (r: (Vec<AppEvent>, bool))
    ensures
        (reports(r.0@), r.1) == relayed(sketch_dir@, report_of(ev)),
{
    match ev {
        AppEvent::CompileOutput { line, level } => (
            two_events(
                AppEvent::CompileOutput { line: line.clone(), level },
                AppEvent::BulkCompileOutput { sketch_dir: sketch_dir.to_owned(), line, level },
            ),
            false,
        ),
        AppEvent::CompileDone { success, bin_path } => (
            one_event(
                AppEvent::BulkCompileDone { sketch_dir: sketch_dir.to_owned(), success, bin_path },
            ),
            true,
        ),
        _ => (no_events(), false),
    }
}

/// What is reported when the compilation of one sketch of many ends without saying so.
pub fn relay_lost(sketch_dir: String) -> (r: AppEvent)
    ensures
        seq![report_of(r)] == all_relayed(sketch_dir@, seq![]),
{
    let r: AppEvent = AppEvent::BulkCompileDone { sketch_dir, success: false, bin_path: None };
    assert(seq![report_of(r)] =~= all_relayed(sketch_dir@, seq![]));
    r
}

// ---- Laws ----

/// The end is reported when, and only when, a compilation comes to its end, and after it nothing
/// more; with success exactly if there is a binary.
pub proof fn law_step_reports_its_end(c: CompilationView, a: Answer)
    ensures
        ({
            let (after, out) = advanced(c, a);
            &&& forall|i: int| 0 <= i < out.len() - 1 ==> (#[trigger] out[i]) is Line
            &&& out.len() > 0 ==> (out.last() is Line || out.last() is Done)
            &&& (out.len() > 0 && out.last() is Done) <==> (after.stage is Finished && !(
            c.stage is Finished))
            &&& c.stage is Finished ==> out.len() == 0 && after == c
            &&& out.len() > 0 ==> (out.last() matches ReportView::Done { success, bin_path }
                ==> (success <==> bin_path is Some))
        }),
{
}

/// A compilation that is told anything at all reports lines and nothing else until it comes to its
/// end, which it then reports once and last; with success exactly if there is a binary.
pub proof fn law_compilation_ends_once(c: CompilationView, answers: Seq<Answer>)
    requires
        !(c.stage is Finished),
    ensures
        ({
            let (after, out) = told(c, answers);
            &&& forall|i: int| 0 <= i < out.len() - 1 ==> (#[trigger] out[i]) is Line
            &&& out.len() > 0 ==> (out.last() is Line || out.last() is Done)
            &&& after.stage is Finished <==> (out.len() > 0 && out.last() is Done)
            &&& out.len() > 0 ==> (out.last() matches ReportView::Done { success, bin_path }
                ==> (success <==> bin_path is Some))
        }),
    decreases answers.len(),
{
    if answers.len() > 0 {
        law_compilation_ends_once(c, answers.drop_last());
        let before = told(c, answers.drop_last());
        law_step_reports_its_end(before.0, answers.last());
        let last = advanced(before.0, answers.last());
        let out = before.1 + last.1;
        assert forall|i: int| 0 <= i < out.len() - 1 implies (#[trigger] out[i]) is Line by {
            if i < before.1.len() {
                if last.1.len() > 0 {
                    assert(!(before.0.stage is Finished));
                }
                assert(out[i] == before.1[i]);
            } else {
                assert(out[i] == last.1[i - before.1.len()]);
            }
        }
        if last.1.len() > 0 {
            assert(out.last() == last.1.last());
        } else {
            assert(out =~= before.1);
        }
    }
}

/// Every event that a compilation reports names its binary if it tells of success.
pub proof fn law_reports_name_the_binary(c: CompilationView, a: Answer, events: Seq<AppEvent>, i: int)
    requires
        reports(events) == advanced(c, a).1,
        0 <= i < events.len(),
    ensures
        names_binary(events[i]),
{
    law_step_reports_its_end(c, a);
    assert(reports(events)[i] == report_of(events[i]));
    assert(reports(events).len() == events.len());
}

/// Lines, each followed by itself as one of its sketch.
pub open spec fn lines_relayed(sketch_dir: Seq<char>, lines: Seq<ReportView>) -> Seq<ReportView>
    decreases lines.len(),
{
    if lines.len() == 0 {
        seq![]
    } else {
        seq![
            lines.first(),
            ReportView::BulkLine {
                sketch_dir,
                line: lines.first()->Line_line,
                level: lines.first()->Line_level,
            },
        ] + lines_relayed(sketch_dir, lines.drop_first())
    }
}

/// Of a compilation that ends, each line is passed on as it is and as one of its sketch, and the
/// end as that of its sketch.
pub proof fn law_relay_passes_on(
    sketch_dir: Seq<char>,
    lines: Seq<ReportView>,
    success: bool,
    bin_path: Option<Seq<char>>,
)
    requires
        forall|i: int| 0 <= i < lines.len() ==> (#[trigger] lines[i]) is Line,
    ensures
        all_relayed(sketch_dir, lines.push(ReportView::Done { success, bin_path }))
            == lines_relayed(sketch_dir, lines).push(
            ReportView::BulkDone { sketch_dir, success, bin_path },
        ),
    decreases lines.len(),
{
    let all = lines.push(ReportView::Done { success, bin_path });
    let end = ReportView::BulkDone { sketch_dir, success, bin_path };
    if lines.len() == 0 {
        assert(all_relayed(sketch_dir, all) =~= lines_relayed(sketch_dir, lines).push(end));
    } else {
        let rest = lines.drop_first();
        assert forall|i: int| 0 <= i < rest.len() implies (#[trigger] rest[i]) is Line by {
            assert(rest[i] == lines[i + 1]);
        }
        law_relay_passes_on(sketch_dir, rest, success, bin_path);
        assert(all.first() == lines[0]);
        assert(all.drop_first() =~= rest.push(ReportView::Done { success, bin_path }));
        assert(all_relayed(sketch_dir, all) =~= lines_relayed(sketch_dir, lines).push(end));
    }
}

/// The answer is of the kind that the stage waits for.
pub open spec fn fits(stage: StageView, a: Answer) -> bool {
    match stage {
        StageView::Folder => a is Found,
        StageView::Source => a is Found,
        StageView::Reading => a is Read,
        StageView::Writing { .. } => a is Tried,
        StageView::Root => a is Root,
        StageView::Output { .. } => a is Tried,
        StageView::Compiler { .. } => a is Compiler,
        StageView::Running { .. } => a is NotStarted || a is Exited || a is WaitFailed,
        StageView::Binary { .. } => a is Found,
        StageView::Finished => false,
    }
}

/// How many stages are ahead at most.
pub open spec fn rank(stage: StageView) -> nat {
    match stage {
        StageView::Folder => 9,
        StageView::Source => 8,
        StageView::Reading => 7,
        StageView::Writing { .. } => 6,
        StageView::Root => 5,
        StageView::Output { .. } => 4,
        StageView::Compiler { .. } => 3,
        StageView::Running { .. } => 2,
        StageView::Binary { .. } => 1,
        StageView::Finished => 0,
    }
}

/// An answer of the kind that is waited for takes a compilation closer to its end; any other
/// changes nothing.
pub proof fn law_answers_lead_on(c: CompilationView, a: Answer)
    ensures
        !(c.stage is Finished) && fits(c.stage, a) ==> rank(advanced(c, a).0.stage) < rank(
            c.stage,
        ),
        !fits(c.stage, a) ==> advanced(c, a).0 == c && advanced(c, a).1.len() == 0,
        rank(c.stage) == 0 <==> c.stage is Finished,
{
}

/// Each of the answers is of the kind that is waited for when it comes, or comes after the end.
pub open spec fn all_fit(c: CompilationView, answers: Seq<Answer>) -> bool
    decreases answers.len(),
{
    answers.len() > 0 ==> {
        let before = told(c, answers.drop_last()).0;
        all_fit(c, answers.drop_last()) && (before.stage is Finished || fits(
            before.stage,
            answers.last(),
        ))
    }
}

/// A compilation that is told what it waits for comes to its end, by as many answers as there are
/// stages at most, and reports it.
pub proof fn law_compilation_gets_to_its_end(c: CompilationView, answers: Seq<Answer>)
    requires
        !(c.stage is Finished),
        all_fit(c, answers),
    ensures
        told(c, answers).0.stage is Finished || rank(told(c, answers).0.stage) + answers.len()
            <= rank(c.stage),
        answers.len() >= rank(c.stage) ==> {
            &&& told(c, answers).0.stage is Finished
            &&& told(c, answers).1.len() > 0
            &&& told(c, answers).1.last() is Done
        },
    decreases answers.len(),
{
    law_compilation_ends_once(c, answers);
    if answers.len() > 0 {
        law_compilation_gets_to_its_end(c, answers.drop_last());
        law_answers_lead_on(told(c, answers.drop_last()).0, answers.last());
    }
}

} // verus!
