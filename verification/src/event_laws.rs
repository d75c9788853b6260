//! What each event changes, what it asks for, and what it leaves alone.
use vstd::prelude::*;
use vstd::string::*;
use crate::app::all_utc;
use crate::model::{disconnects, names_binary, run, step, triggers, ActionView, AppView};
use crate::paths::file_name_of;
use crate::text_laws::law_topics_are_below_solar;
use crate::types::{
    AddFormView, AppEvent, BuildView, ConfigView, DeployView, DeviceBulkView, DeviceView, FleetState,
    FolderPickCtx, LogLevel, PhaseView,
};
use crate::worker::JobView;

verus! {

/// The places in a sequence of what a filter lets through, in order: what is filtered are the
/// elements at these places and no others.
pub proof fn lemma_filter_places<A>(s: Seq<A>, pred: spec_fn(A) -> bool) -> (places: Seq<int>)
    ensures
        s.filter(pred).len() == places.len(),
        forall|j: int|
            0 <= j < places.len() ==> 0 <= #[trigger] places[j] < s.len() && s.filter(pred)[j]
                == s[places[j]] && pred(s[places[j]]),
        forall|j: int, k: int| 0 <= j < k < places.len() ==> places[j] < places[k],
        forall|i: int| 0 <= i < s.len() && pred(#[trigger] s[i]) ==> places.contains(i),
    decreases s.len(),
{
    reveal(Seq::filter);
    if s.len() == 0 {
        Seq::empty()
    } else {
        let shorter = s.drop_last();
        let before = lemma_filter_places(shorter, pred);
        let last = s.len() - 1;
        if pred(s.last()) {
            let places = before.push(last);
            assert forall|i: int| 0 <= i < s.len() && pred(#[trigger] s[i]) implies places.contains(
                i,
            ) by {
                if i < last {
                    assert(shorter[i] == s[i]);
                    let k = choose|k: int| 0 <= k < before.len() && before[k] == i;
                    assert(places[k] == i);
                } else {
                    assert(places[before.len() as int] == i);
                }
            }
            places
        } else {
            assert forall|i: int| 0 <= i < s.len() && pred(#[trigger] s[i]) implies before.contains(
                i,
            ) by {
                assert(shorter[i] == s[i]);
            }
            before
        }
    }
}

// ---- What stays ----

/// No event changes the settings in force, the page, what is open, what is searched for or what is
/// selected.
pub proof fn law_events_leave_the_window_alone(
    m: AppView,
    ev: AppEvent,
    stamp: Seq<char>,
    at_ms: u64,
)
    ensures
        ({
            let after = step(m, ev, stamp, at_ms).0;
            &&& after.config == m.config
            &&& after.tab == m.tab
            &&& after.show_add == m.show_add
            &&& after.show_settings == m.show_settings
            &&& after.first_run == m.first_run
            &&& after.search_query == m.search_query
            &&& after.view_mode == m.view_mode
            &&& after.selected == m.selected
        }),
{
}

/// Each other part of the state is changed by the events that are about it, and by no others.
pub proof fn law_events_change_what_they_are_about(
    m: AppView,
    ev: AppEvent,
    stamp: Seq<char>,
    at_ms: u64,
)
    ensures
        ({
            let after = step(m, ev, stamp, at_ms).0;
            &&& !(ev is FleetLoaded || ev is OtaPublished) ==> after.fleet == m.fleet
            &&& after.fleet_loaded == (m.fleet_loaded || ev is FleetLoaded)
            &&& !(ev is MqttConnected || ev is MqttDisconnected) ==> after.mqtt_connected
                == m.mqtt_connected
            &&& !(ev is MqttDisconnected) ==> after.mqtt_gen == m.mqtt_gen
            &&& !(ev is MqttStatus) ==> after.mqtt_status == m.mqtt_status
            &&& !(ev is FolderPicked) ==> after.add_form == m.add_form && after.settings_buf
                == m.settings_buf
            &&& !(ev is Error) ==> after.notif == m.notif && after.picking_folder
                == m.picking_folder
            &&& !(ev is MqttStatus || ev is CompileOutput || ev is CompileDone || ev is UploadDone
                || ev is OtaPublished || ev is FolderPicked || ev is Error) ==> after.deploy
                == m.deploy
            &&& !(ev is MqttStatus || ev is BulkCompileOutput || ev is BulkCompileDone
                || ev is BulkUploadDone || ev is BulkOtaPublished) ==> after.bulk_deploy
                == m.bulk_deploy
        }),
{
}

/// Events that only tell something ask for nothing.
pub proof fn law_some_events_ask_for_nothing(
    m: AppView,
    ev: AppEvent,
    stamp: Seq<char>,
    at_ms: u64,
)
    requires
        ev is MqttConnected || ev is FleetLoaded || ev is FleetSaved || ev is CompileOutput
            || ev is FolderPicked || ev is Error || ev is BulkCompileOutput,
    ensures
        step(m, ev, stamp, at_ms).1.len() == 0,
        ev is FleetSaved ==> step(m, ev, stamp, at_ms).0 == m,
{
}

// ---- The broker ----

/// The connection is noted as the broker tells it; a lost one begins a new generation, which may
/// reconnect with the settings in force.
pub proof fn law_connection_is_noted(m: AppView, stamp: Seq<char>, at_ms: u64)
    requires
        m.mqtt_gen < u64::MAX,
    ensures
        step(m, AppEvent::MqttConnected, stamp, at_ms).0.mqtt_connected,
        !step(m, AppEvent::MqttDisconnected, stamp, at_ms).0.mqtt_connected,
        step(m, AppEvent::MqttDisconnected, stamp, at_ms).0.mqtt_gen == m.mqtt_gen + 1,
        step(m, AppEvent::MqttDisconnected, stamp, at_ms).1 == seq![
            ActionView::ReconnectLater { generation: (m.mqtt_gen + 1) as u64, config: m.config },
        ],
{
}

/// The last status of each device is kept: that of the one that reported is the new one, those of
/// the others stay.
pub proof fn law_status_is_noted(
    m: AppView,
    id: String,
    status: String,
    other: Seq<char>,
    stamp: Seq<char>,
    at_ms: u64,
)
    requires
        other != id@,
    ensures
        ({
            let after = step(
                m,
                AppEvent::MqttStatus { device_id: id, status },
                stamp,
                at_ms,
            ).0.mqtt_status;
            &&& after.contains_key(id@) && after[id@] == status@
            &&& after.contains_key(other) == m.mqtt_status.contains_key(other)
            &&& after.contains_key(other) ==> after[other] == m.mqtt_status[other]
        }),
{
}

/// A status ends the deployment exactly if the deployment waits, the status is of its device and
/// begins with `ONLINE v` and the version, with nothing or a space after it. Then the output says
/// so and the retained message for the device is taken back. Any other status leaves the
/// deployment as it is and asks for nothing.
pub proof fn law_status_ends_what_waits_for_it(
    m: AppView,
    id: String,
    status: String,
    stamp: Seq<char>,
    at_ms: u64,
)
    ensures
        ({
            let (after, actions) = step(
                m,
                AppEvent::MqttStatus { device_id: id, status },
                stamp,
                at_ms,
            );
            match m.deploy {
                Some(d) => {
                    let expected = "ONLINE v"@ + d.new_version;
                    if d.phase is Waiting && d.device_id == id@ && (status@ == expected || (expected
                        + " "@).is_prefix_of(status@)) {
                        let e = after.deploy->0;
                        &&& after.deploy is Some
                        &&& e.phase is Done
                        &&& e.log_lines == d.log_lines.push(
                            ("✓ Device confirmed: "@ + status@, LogLevel::Success),
                        )
                        &&& e == DeployView { phase: e.phase, log_lines: e.log_lines, ..d }
                        &&& actions == seq![
                            ActionView::Publish {
                                topic: "solar/"@ + d.device_id + "/ota"@,
                                payload: Seq::empty(),
                                retain: true,
                            },
                        ]
                    } else {
                        after.deploy == m.deploy && actions.len() == 0
                    }
                },
                None => after.deploy is None && actions.len() == 0,
            }
        }),
{
    law_topics_are_below_solar(id@, "ota"@);
    reveal_strlit("/ota");
    reveal_strlit("/");
    reveal_strlit("ota");
    assert("solar/"@ + id@ + "/"@ + "ota"@ =~= "solar/"@ + id@ + "/ota"@);
}

/// A status ends the deployment to a device among many in the same way, and changes nothing else
/// of the bulk deployment.
pub proof fn law_status_ends_bulk_devices_that_wait(
    m: AppView,
    id: String,
    status: String,
    stamp: Seq<char>,
    at_ms: u64,
    i: int,
)
    requires
        m.bulk_deploy is Some,
        0 <= i < m.bulk_deploy->0.devices.len(),
    ensures
        ({
            let b = m.bulk_deploy->0;
            let after = step(
                m,
                AppEvent::MqttStatus { device_id: id, status },
                stamp,
                at_ms,
            ).0.bulk_deploy->0;
            let d = b.devices[i];
            let expected = "ONLINE v"@ + b.new_version;
            &&& after.devices[i].phase == if d.phase is Waiting && d.device_id == id@ && (status@
                == expected || (expected + " "@).is_prefix_of(status@)) {
                PhaseView::Done
            } else {
                d.phase
            }
            &&& after.devices[i].log == d.log
            &&& after.sketch_builds == b.sketch_builds
            &&& after.form_deployer == b.form_deployer
            &&& after.form_version == b.form_version
        }),
{
}

// ---- The fleet ----

/// After a fleet is fetched the state holds that fleet, its devices and its history alike.
pub proof fn law_fetched_fleet_is_kept(m: AppView, f: FleetState, stamp: Seq<char>, at_ms: u64)
    ensures
        ({
            let after = step(m, AppEvent::FleetLoaded(f), stamp, at_ms).0;
            &&& after.fleet_loaded
            &&& after.fleet.devices.len() == f.devices@.len()
            &&& forall|i: int|
                0 <= i < f.devices@.len() ==> #[trigger] after.fleet.devices[i] == f.devices@[i]@
            &&& after.fleet.deploy_history.len() == f.deploy_history@.len()
            &&& forall|i: int|
                0 <= i < f.deploy_history@.len() ==> #[trigger] after.fleet.deploy_history[i]
                    == f.deploy_history@[i]@
        }),
{
}

// ---- The deployment to one device ----

/// A line of the compiler is added to the output of the deployment, and changes nothing else of it.
pub proof fn law_line_is_added(
    m: AppView,
    line: String,
    level: LogLevel,
    stamp: Seq<char>,
    at_ms: u64,
)
    ensures
        ({
            let after = step(m, AppEvent::CompileOutput { line, level }, stamp, at_ms).0.deploy;
            match m.deploy {
                Some(d) => after == Some(
                    DeployView { log_lines: d.log_lines.push((line@, level)), ..d },
                ),
                None => after is None,
            }
        }),
{
}

/// The end of a compilation: a binary is kept and uploaded, with all the settings for that; after
/// one without success the deployment has failed, whatever it left.
pub proof fn law_binary_is_uploaded(
    m: AppView,
    bin: String,
    left: Option<String>,
    stamp: Seq<char>,
    at_ms: u64,
)
    requires
        m.deploy is Some,
    ensures
        ({
            let d = m.deploy->0;
            let (good, upload) = step(
                m,
                AppEvent::CompileDone { success: true, bin_path: Some(bin) },
                stamp,
                at_ms,
            );
            let (bad, none) = step(
                m,
                AppEvent::CompileDone { success: false, bin_path: left },
                stamp,
                at_ms,
            );
            let e = good.deploy->0;
            &&& good.deploy is Some
            &&& e.phase is Uploading
            &&& e.bin_path == Some(bin@)
            &&& e.log_lines == d.log_lines.push(
                ("Uploading to Cloudflare R2 + VPS…"@, LogLevel::Info),
            )
            &&& e == DeployView {
                phase: e.phase,
                bin_path: e.bin_path,
                log_lines: e.log_lines,
                ..d
            }
            &&& upload == seq![
                ActionView::Upload {
                    job: JobView {
                        bin_path: bin@,
                        device_id: d.device_id,
                        version: d.new_version,
                        worker_url: m.config.worker_url,
                        token: m.config.worker_token,
                        vps_host: m.config.vps_host,
                        vps_key: m.config.vps_key,
                        vps_firmware_dir: m.config.vps_firmware_dir,
                        vps_firmware_url: m.config.vps_firmware_url,
                    },
                },
            ]
            &&& bad.deploy == Some(
                DeployView { phase: PhaseView::Failed("Compilation failed"@), ..d },
            )
            &&& none.len() == 0
        }),
{
}

/// Without a deployment the end of a compilation or of an upload, and a trigger that went out,
/// change nothing and ask for nothing.
pub proof fn law_nothing_without_a_deployment(
    m: AppView,
    ev: AppEvent,
    stamp: Seq<char>,
    at_ms: u64,
)
    requires
        ev is CompileOutput || ev is CompileDone || ev is UploadDone || ev is OtaPublished
            ==> m.deploy is None,
        ev is BulkCompileOutput || ev is BulkCompileDone || ev is BulkUploadDone
            || ev is BulkOtaPublished ==> m.bulk_deploy is None,
        ev is CompileOutput || ev is CompileDone || ev is UploadDone || ev is OtaPublished
            || ev is BulkCompileOutput || ev is BulkCompileDone || ev is BulkUploadDone
            || ev is BulkOtaPublished,
    ensures
        step(m, ev, stamp, at_ms).0 == m,
        step(m, ev, stamp, at_ms).1.len() == 0,
{
}

/// Once the firmware is uploaded, the device is told its address by a message that is retained.
pub proof fn law_device_is_told_the_address(m: AppView, url: String, stamp: Seq<char>, at_ms: u64)
    requires
        m.deploy is Some,
    ensures
        ({
            let d = m.deploy->0;
            let (after, actions) = step(m, AppEvent::UploadDone { url }, stamp, at_ms);
            let e = after.deploy->0;
            &&& after.deploy is Some
            &&& e.phase is Publishing
            &&& e.firmware_url == Some(url@)
            &&& e.log_lines == d.log_lines.push(
                ("✓ Uploaded → "@ + url@, LogLevel::Success),
            ).push(("Publishing OTA trigger…"@, LogLevel::Info))
            &&& e == DeployView {
                phase: e.phase,
                firmware_url: e.firmware_url,
                log_lines: e.log_lines,
                ..d
            }
            &&& actions == seq![
                ActionView::Publish {
                    topic: "solar/"@ + d.device_id + "/ota"@,
                    payload: url@,
                    retain: true,
                },
                ActionView::ReportPublished,
            ]
        }),
{
    let id = m.deploy->0.device_id;
    law_topics_are_below_solar(id, "ota"@);
    reveal_strlit("/ota");
    reveal_strlit("/");
    reveal_strlit("ota");
    assert("solar/"@ + id + "/"@ + "ota"@ =~= "solar/"@ + id + "/ota"@);
}

/// Once the trigger went out, the device is waited for; the deployment is on record with the time,
/// the address, the version and who deployed it; the device has that version and that name on it;
/// and the fleet that is stored is the new one.
pub proof fn law_deployment_is_put_on_record(m: AppView, stamp: Seq<char>, at_ms: u64, i: int)
    requires
        m.deploy is Some,
    ensures
        ({
            let d = m.deploy->0;
            let (after, actions) = step(m, AppEvent::OtaPublished, stamp, at_ms);
            let e = after.deploy->0;
            let r = after.fleet.deploy_history.last();
            &&& after.deploy is Some
            &&& e.phase is Waiting
            &&& e.log_lines == d.log_lines.push(
                ("✓ OTA trigger sent (retained) — waiting for device…"@, LogLevel::Success),
            )
            &&& e == DeployView { phase: e.phase, log_lines: e.log_lines, ..d }
            &&& after.fleet.deploy_history.len() == m.fleet.deploy_history.len() + 1
            &&& after.fleet.deploy_history.drop_last() == m.fleet.deploy_history
            &&& r.device_id == d.device_id
            &&& r.device_name == d.device_name
            &&& r.version == d.new_version
            &&& r.deployed_by == d.deployer_name
            &&& r.deployed_at == stamp
            &&& d.firmware_url is Some ==> r.firmware_url == d.firmware_url->0
            &&& d.firmware_url is None ==> r.firmware_url.len() == 0
            &&& after.fleet.devices.len() == m.fleet.devices.len()
            &&& 0 <= i < m.fleet.devices.len() ==> after.fleet.devices[i]
                == if m.fleet.devices[i].id == d.device_id {
                DeviceView {
                    desired_version: d.new_version,
                    last_deploy_by: d.deployer_name,
                    ..m.fleet.devices[i]
                }
            } else {
                m.fleet.devices[i]
            }
            &&& actions == seq![
                ActionView::SaveFleet {
                    fleet: after.fleet,
                    worker_url: m.config.worker_url,
                    token: m.config.worker_token,
                },
            ]
        }),
{
    let after = step(m, AppEvent::OtaPublished, stamp, at_ms).0;
    assert(after.fleet.deploy_history.drop_last() =~= m.fleet.deploy_history);
}

/// A folder that was chosen goes into the field that it was chosen for, and nowhere else.
pub proof fn law_folder_goes_to_its_field(m: AppView, path: String, stamp: Seq<char>, at_ms: u64)
    ensures
        ({
            let a = step(
                m,
                AppEvent::FolderPicked { context: FolderPickCtx::DeploySketch, path },
                stamp,
                at_ms,
            ).0;
            let b = step(
                m,
                AppEvent::FolderPicked { context: FolderPickCtx::AddDeviceSketch, path },
                stamp,
                at_ms,
            ).0;
            let c = step(
                m,
                AppEvent::FolderPicked { context: FolderPickCtx::SettingsSketchRoot, path },
                stamp,
                at_ms,
            ).0;
            &&& m.deploy is Some ==> a.deploy == Some(
                DeployView { sketch_dir: path@, ..m.deploy->0 },
            )
            &&& m.deploy is None ==> a.deploy is None
            &&& a.add_form == m.add_form && a.settings_buf == m.settings_buf
            &&& b.add_form.sketch_dir == path@
            &&& b.add_form == (AddFormView {
                sketch_dir: b.add_form.sketch_dir,
                ..m.add_form
            })
            &&& b.deploy == m.deploy && b.settings_buf == m.settings_buf
            &&& c.settings_buf.sketch_root == path@
            &&& c.settings_buf == (ConfigView {
                sketch_root: c.settings_buf.sketch_root,
                ..m.settings_buf
            })
            &&& c.deploy == m.deploy && c.add_form == m.add_form
        }),
{
}

/// An error is shown, as an error and from the time that it came, and no folder is being chosen any
/// more. A deployment that is being compiled, uploaded, triggered or waited for has failed with
/// it; one in its form, done or failed stays as it is.
pub proof fn law_error_fails_what_it_meets(m: AppView, e: String, stamp: Seq<char>, at_ms: u64)
    ensures
        ({
            let after = step(m, AppEvent::Error(e), stamp, at_ms).0;
            &&& after.notif is Some
            &&& after.notif->0.msg == e@
            &&& after.notif->0.is_err
            &&& after.notif->0.at_ms == at_ms
            &&& !after.picking_folder
            &&& match m.deploy {
                Some(d) => {
                    &&& d.phase is Compiling || d.phase is Uploading || d.phase is Publishing
                        || d.phase is Waiting ==> after.deploy == Some(
                        DeployView { phase: PhaseView::Failed(e@), ..d },
                    )
                    &&& d.phase is Form || d.phase is Done || d.phase is Failed ==> after.deploy
                        == Some(d)
                },
                None => after.deploy is None,
            }
        }),
{
}

// ---- The deployment to many devices ----

/// A line about a sketch is added to the output of each device of that sketch, and of no other, and
/// changes nothing else of the bulk deployment.
pub proof fn law_bulk_line_is_added(
    m: AppView,
    dir: String,
    line: String,
    level: LogLevel,
    stamp: Seq<char>,
    at_ms: u64,
    i: int,
)
    requires
        m.bulk_deploy is Some,
        0 <= i < m.bulk_deploy->0.devices.len(),
    ensures
        ({
            let b = m.bulk_deploy->0;
            let d = b.devices[i];
            let after = step(
                m,
                AppEvent::BulkCompileOutput { sketch_dir: dir, line, level },
                stamp,
                at_ms,
            ).0.bulk_deploy->0;
            &&& after.devices[i] == DeviceBulkView {
                log: if d.sketch_dir == dir@ {
                    d.log.push((line@, level))
                } else {
                    d.log
                },
                ..d
            }
            &&& after.sketch_builds == b.sketch_builds
            &&& after.form_deployer == b.form_deployer
            &&& after.form_version == b.form_version
        }),
{
}

/// The end of the compilation of a sketch: with a binary its build is done, its devices are being
/// uploaded for, and the binary goes up under the name of the sketch; without one its build and its
/// devices have failed. The devices and builds of other sketches stay as they are.
pub proof fn law_bulk_binary_is_uploaded(
    m: AppView,
    dir: String,
    bin: String,
    left: Option<String>,
    stamp: Seq<char>,
    at_ms: u64,
    i: int,
    other: Seq<char>,
)
    requires
        m.bulk_deploy is Some,
        0 <= i < m.bulk_deploy->0.devices.len(),
        other != dir@,
    ensures
        ({
            let b = m.bulk_deploy->0;
            let d = b.devices[i];
            let (good, actions) = step(
                m,
                AppEvent::BulkCompileDone { sketch_dir: dir, success: true, bin_path: Some(bin) },
                stamp,
                at_ms,
            );
            let g = good.bulk_deploy->0;
            &&& g.devices[i] == if d.sketch_dir == dir@ {
                DeviceBulkView {
                    phase: PhaseView::Uploading,
                    log: d.log.push(("Uploading to Cloudflare R2 + VPS…"@, LogLevel::Info)),
                    ..d
                }
            } else {
                d
            }
            &&& g.sketch_builds.contains_key(dir@)
            &&& g.sketch_builds[dir@] == BuildView::Done(bin@)
            &&& g.sketch_builds.contains_key(other) == b.sketch_builds.contains_key(other)
            &&& g.sketch_builds.contains_key(other) ==> g.sketch_builds[other]
                == b.sketch_builds[other]
            &&& g.form_deployer == b.form_deployer && g.form_version == b.form_version
            &&& actions == seq![
                ActionView::BulkUpload {
                    sketch_dir: dir@,
                    job: JobView {
                        bin_path: bin@,
                        device_id: match file_name_of(dir@) {
                            Some(n) => n,
                            None => "sketch"@,
                        },
                        version: b.new_version,
                        worker_url: m.config.worker_url,
                        token: m.config.worker_token,
                        vps_host: m.config.vps_host,
                        vps_key: m.config.vps_key,
                        vps_firmware_dir: m.config.vps_firmware_dir,
                        vps_firmware_url: m.config.vps_firmware_url,
                    },
                },
                ActionView::Repaint,
            ]
        }),
        ({
            let b = m.bulk_deploy->0;
            let d = b.devices[i];
            let (bad, actions) = step(
                m,
                AppEvent::BulkCompileDone { sketch_dir: dir, success: false, bin_path: left },
                stamp,
                at_ms,
            );
            let f = bad.bulk_deploy->0;
            &&& f.devices[i] == if d.sketch_dir == dir@ {
                DeviceBulkView { phase: PhaseView::Failed("Compile failed"@), ..d }
            } else {
                d
            }
            &&& f.sketch_builds.contains_key(dir@)
            &&& f.sketch_builds[dir@] == BuildView::Failed("Compile failed"@)
            &&& f.sketch_builds.contains_key(other) == b.sketch_builds.contains_key(other)
            &&& f.sketch_builds.contains_key(other) ==> f.sketch_builds[other]
                == b.sketch_builds[other]
            &&& f.form_deployer == b.form_deployer && f.form_version == b.form_version
            &&& actions == seq![ActionView::Repaint]
        }),
        ({
            let (odd, actions) = step(
                m,
                AppEvent::BulkCompileDone { sketch_dir: dir, success: true, bin_path: None },
                stamp,
                at_ms,
            );
            odd.bulk_deploy == m.bulk_deploy && actions == seq![ActionView::Repaint]
        }),
{
}

/// Once the firmware of a sketch is uploaded its build says where, its devices are waited for and
/// their output says so; those of other sketches stay as they are.
pub proof fn law_bulk_devices_are_waited_for(
    m: AppView,
    dir: String,
    url: String,
    stamp: Seq<char>,
    at_ms: u64,
    i: int,
    other: Seq<char>,
)
    requires
        m.bulk_deploy is Some,
        0 <= i < m.bulk_deploy->0.devices.len(),
        other != dir@,
    ensures
        ({
            let b = m.bulk_deploy->0;
            let d = b.devices[i];
            let after = step(
                m,
                AppEvent::BulkUploadDone { sketch_dir: dir, url },
                stamp,
                at_ms,
            ).0.bulk_deploy->0;
            &&& after.devices[i] == if d.sketch_dir == dir@ {
                DeviceBulkView {
                    phase: PhaseView::Waiting,
                    log: d.log.push(("✓ Uploaded → "@ + url@, LogLevel::Success)),
                    ..d
                }
            } else {
                d
            }
            &&& after.sketch_builds.contains_key(dir@)
            &&& after.sketch_builds[dir@] == BuildView::Uploaded(url@)
            &&& after.sketch_builds.contains_key(other) == b.sketch_builds.contains_key(other)
            &&& after.sketch_builds.contains_key(other) ==> after.sketch_builds[other]
                == b.sketch_builds[other]
            &&& after.form_deployer == b.form_deployer
            &&& after.form_version == b.form_version
        }),
{
}

/// Once the firmware of a sketch is uploaded each of its devices is told the address, once and in
/// their order, and nothing else is published. The messages are not retained.
pub proof fn law_bulk_devices_are_told_the_address(
    m: AppView,
    dir: String,
    url: String,
    stamp: Seq<char>,
    at_ms: u64,
) -> (places: Seq<int>)
    requires
        m.bulk_deploy is Some,
    ensures
        ({
            let devices = m.bulk_deploy->0.devices;
            let actions = step(
                m,
                AppEvent::BulkUploadDone { sketch_dir: dir, url },
                stamp,
                at_ms,
            ).1;
            &&& actions.len() == places.len() + 1
            &&& actions.last() is Repaint
            &&& forall|j: int|
                0 <= j < places.len() ==> {
                    &&& 0 <= #[trigger] places[j] < devices.len()
                    &&& devices[places[j]].sketch_dir == dir@
                    &&& actions[j] == ActionView::Publish {
                        topic: "solar/"@ + devices[places[j]].device_id + "/ota"@,
                        payload: url@,
                        retain: false,
                    }
                }
            &&& forall|j: int, k: int| 0 <= j < k < places.len() ==> places[j] < places[k]
            &&& forall|i: int|
                0 <= i < devices.len() && (#[trigger] devices[i]).sketch_dir == dir@
                    ==> places.contains(i)
        }),
{
    let devices = m.bulk_deploy->0.devices;
    let pred = |d: DeviceBulkView| d.sketch_dir == dir@;
    let places = lemma_filter_places(devices, pred);
    lemma_triggers_of_filtered(devices, dir@, url@);
    let t = triggers(devices, dir@, url@);
    let actions = step(m, AppEvent::BulkUploadDone { sketch_dir: dir, url }, stamp, at_ms).1;
    assert(actions == t.push(ActionView::Repaint));
    reveal_strlit("/ota");
    reveal_strlit("/");
    reveal_strlit("ota");
    assert forall|j: int| 0 <= j < places.len() implies {
        &&& 0 <= #[trigger] places[j] < devices.len()
        &&& devices[places[j]].sketch_dir == dir@
        &&& actions[j] == ActionView::Publish {
            topic: "solar/"@ + devices[places[j]].device_id + "/ota"@,
            payload: url@,
            retain: false,
        }
    } by {
        let id = devices[places[j]].device_id;
        law_topics_are_below_solar(id, "ota"@);
        assert("solar/"@ + id + "/"@ + "ota"@ =~= "solar/"@ + id + "/ota"@);
        assert(devices.filter(pred)[j] == devices[places[j]]);
        assert(actions[j] == t[j]);
    }
    assert forall|i: int|
        0 <= i < devices.len() && (#[trigger] devices[i]).sketch_dir
            == dir@ implies places.contains(i) by {
        assert(pred(devices[i]));
    }
    places
}

proof fn lemma_triggers_of_filtered(
    devices: Seq<DeviceBulkView>,
    dir: Seq<char>,
    url: Seq<char>,
)
    ensures
        ({
            let kept = devices.filter(|d: DeviceBulkView| d.sketch_dir == dir);
            let t = triggers(devices, dir, url);
            &&& t.len() == kept.len()
            &&& forall|j: int|
                0 <= j < kept.len() ==> #[trigger] t[j] == ActionView::Publish {
                    topic: crate::topics::topic_of(kept[j].device_id, "ota"@),
                    payload: url,
                    retain: false,
                }
        }),
    decreases devices.len(),
{
    reveal(Seq::filter);
    if devices.len() > 0 {
        lemma_triggers_of_filtered(devices.drop_last(), dir, url);
    }
}

/// A device that is reported to be through is done, and no other.
pub proof fn law_bulk_device_is_through(
    m: AppView,
    id: String,
    stamp: Seq<char>,
    at_ms: u64,
    i: int,
)
    requires
        m.bulk_deploy is Some,
        0 <= i < m.bulk_deploy->0.devices.len(),
    ensures
        ({
            let b = m.bulk_deploy->0;
            let d = b.devices[i];
            let (after, actions) = step(
                m,
                AppEvent::BulkOtaPublished { device_id: id },
                stamp,
                at_ms,
            );
            &&& after.bulk_deploy->0.devices[i] == if d.device_id == id@ {
                DeviceBulkView { phase: PhaseView::Done, ..d }
            } else {
                d
            }
            &&& after.bulk_deploy->0.sketch_builds == b.sketch_builds
            &&& after.bulk_deploy->0.form_deployer == b.form_deployer
            &&& after.bulk_deploy->0.form_version == b.form_version
            &&& actions == seq![ActionView::Repaint]
        }),
{
}

// ---- Batches ----

/// A batch of one event is that event; the events of a longer one are handled one after the other,
/// and what they ask for is asked for in their order.
pub proof fn law_batch_is_one_after_the_other(
    m: AppView,
    events: Seq<AppEvent>,
    stamps: Seq<Seq<char>>,
    ev: AppEvent,
    stamp: Seq<char>,
    at_ms: u64,
)
    requires
        events.len() == stamps.len(),
    ensures
        run(m, Seq::empty(), Seq::empty(), at_ms).0 == m,
        run(m, Seq::empty(), Seq::empty(), at_ms).1.len() == 0,
        ({
            let before = run(m, events, stamps, at_ms);
            let last = step(before.0, ev, stamp, at_ms);
            let all = run(m, events.push(ev), stamps.push(stamp), at_ms);
            all.0 == last.0 && all.1 == before.1 + last.1
        }),
{
    assert(events.push(ev).drop_last() =~= events);
    assert(stamps.push(stamp).drop_last() =~= stamps);
}

/// Times are all in UTC exactly if each ends in the offset zero.
pub proof fn law_times_are_in_utc(stamps: Seq<Seq<char>>)
    ensures
        all_utc(stamps) <==> forall|i: int|
            0 <= i < stamps.len() ==> "+00:00"@.is_suffix_of(#[trigger] stamps[i]),
{
}

/// Each lost connection counts, and nothing else does; a compilation names its binary unless it
/// tells of success without one.
pub proof fn law_lost_connections_are_counted(events: Seq<AppEvent>, ev: AppEvent)
    ensures
        disconnects(Seq::empty()) == 0,
        disconnects(events.push(ev)) == disconnects(events) + if ev is MqttDisconnected {
            1nat
        } else {
            0nat
        },
        !names_binary(ev) <==> (ev matches AppEvent::CompileDone {
            success,
            bin_path,
        } && success && bin_path is None),
{
    assert(events.push(ev).drop_last() =~= events);
}

} // verus!
