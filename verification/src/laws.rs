//! What holds of deployments as a whole.
use vstd::prelude::*;
use vstd::string::*;
use crate::app::law_events_keep_what_is_open;
use crate::bulk::{
    all_over, bulk_is_active, bulk_opened, bulk_started, count, distinct_sketches, is_in_progress,
    is_over,
};
use crate::deploy::{deploy_opened, deploy_started, is_filled_in};
use crate::model::{
    devices_deployed, is_under_way, job_of, on_bulk_compile_done, on_bulk_compile_output,
    on_bulk_upload_done, record_of, run, save_of, sketch_name_of, step, triggers, ActionView,
    AppView,
};
use crate::topics::topic_of;
use crate::types::{
    AppEvent, BuildView, BulkView, DeviceBulkView, DeviceView, LogLevel, PhaseView, RecordView,
};
use crate::version::confirms;

verus! {

// ---- The deployment to one device ----

/// A deployment is done only by the word of its own device that it runs the new version, and only
/// while that is waited for.
pub proof fn law_done_by_confirmation_alone(m: AppView, ev: AppEvent, stamp: Seq<char>, at_ms: u64)
    requires
        m.deploy is Some,
        !(m.deploy->0.phase is Done),
        step(m, ev, stamp, at_ms).0.deploy->0.phase is Done,
    ensures
        m.deploy->0.phase is Waiting,
        ev matches AppEvent::MqttStatus { device_id, status } && device_id@
            == m.deploy->0.device_id && confirms(status@, m.deploy->0.new_version),
{
}

/// Once a deployment is started, no event changes what is deployed, where to and by whom.
pub proof fn law_events_keep_the_target(m: AppView, ev: AppEvent, stamp: Seq<char>, at_ms: u64)
    requires
        m.deploy is Some,
    ensures
        ({
            let d = m.deploy->0;
            let e = step(m, ev, stamp, at_ms).0.deploy->0;
            &&& e.device_id == d.device_id
            &&& e.device_name == d.device_name
            &&& e.deployer_name == d.deployer_name
            &&& e.new_version == d.new_version
            &&& !(ev is FolderPicked) ==> e.sketch_dir == d.sketch_dir
        }),
{
}

/// Output is only ever added to, by any event.
pub proof fn law_output_grows(m: AppView, ev: AppEvent, stamp: Seq<char>, at_ms: u64)
    requires
        m.deploy is Some,
    ensures
        m.deploy->0.log_lines.is_prefix_of(step(m, ev, stamp, at_ms).0.deploy->0.log_lines),
{
}

/// An event other than a fetched fleet leaves the history as it is, or adds one record to its end:
/// that of the deployment whose trigger went out.
pub proof fn law_history_grows(m: AppView, ev: AppEvent, stamp: Seq<char>, at_ms: u64)
    requires
        !(ev is FleetLoaded),
    ensures
        step(m, ev, stamp, at_ms).0.fleet.deploy_history == if ev is OtaPublished
            && m.deploy is Some {
            m.fleet.deploy_history.push(record_of(m.deploy->0, stamp))
        } else {
            m.fleet.deploy_history
        },
{
}

/// How many of the events tell that a trigger went out.
pub open spec fn published(events: Seq<AppEvent>) -> nat
    decreases events.len(),
{
    if events.len() == 0 {
        0
    } else {
        published(events.drop_last()) + if events.last() is OtaPublished {
            1nat
        } else {
            0nat
        }
    }
}

/// The same device, but for what was deployed to it last and by whom.
pub open spec fn same_but_deployed(a: DeviceView, b: DeviceView) -> bool {
    b == DeviceView {
        desired_version: b.desired_version,
        last_deploy_by: b.last_deploy_by,
        ..a
    }
}

/// The same devices in the same order, but for what was deployed to each last and by whom.
pub open spec fn all_same_but_deployed(a: Seq<DeviceView>, b: Seq<DeviceView>) -> bool {
    a.len() == b.len() && forall|i: int|
        0 <= i < a.len() ==> same_but_deployed(#[trigger] a[i], b[i])
}

/// A batch of events without a fetched fleet keeps the devices, in their order and with all but
/// what was deployed to them last and by whom. It takes nothing out of the history, and adds one
/// record for each trigger that went out if a deployment is open, else none. It opens and closes
/// no deployment.
pub proof fn law_batch_keeps_fleet(
    m: AppView,
    events: Seq<AppEvent>,
    stamps: Seq<Seq<char>>,
    at_ms: u64,
)
    requires
        forall|i: int| 0 <= i < events.len() ==> !((#[trigger] events[i]) is FleetLoaded),
    ensures
        ({
            let after = run(m, events, stamps, at_ms).0;
            &&& all_same_but_deployed(m.fleet.devices, after.fleet.devices)
            &&& m.fleet.deploy_history.is_prefix_of(after.fleet.deploy_history)
            &&& after.fleet.deploy_history.len() == m.fleet.deploy_history.len() + if m.deploy
                is Some {
                published(events)
            } else {
                0
            }
            &&& after.deploy is Some <==> m.deploy is Some
            &&& after.bulk_deploy is Some <==> m.bulk_deploy is Some
        }),
    decreases events.len(),
{
    let old_history = m.fleet.deploy_history;
    if events.len() > 0 {
        let shorter = events.drop_last();
        assert forall|i: int| 0 <= i < shorter.len() implies !((#[trigger] shorter[i])
            is FleetLoaded) by {
            assert(shorter[i] == events[i]);
        }
        law_batch_keeps_fleet(m, shorter, stamps.drop_last(), at_ms);
        let before = run(m, shorter, stamps.drop_last(), at_ms).0;
        let after = run(m, events, stamps, at_ms).0;
        assert(!(events[events.len() - 1] is FleetLoaded));
        law_history_grows(before, events.last(), stamps.last(), at_ms);
        law_events_keep_what_is_open(before, events.last(), stamps.last(), at_ms);
        assert(after.fleet.deploy_history.take(old_history.len() as int)
            =~= before.fleet.deploy_history.take(old_history.len() as int));
        assert forall|i: int| 0 <= i < m.fleet.devices.len() implies same_but_deployed(
            #[trigger] m.fleet.devices[i],
            after.fleet.devices[i],
        ) by {
            assert(same_but_deployed(m.fleet.devices[i], before.fleet.devices[i]));
        }
    } else {
        assert(old_history.take(old_history.len() as int) =~= old_history);
    }
}

/// An error stops a deployment that is under way, and leaves alone one that has not begun or is
/// over.
pub proof fn law_errors_stop_what_is_under_way(
    m: AppView,
    ev: AppEvent,
    stamp: Seq<char>,
    at_ms: u64,
)
    requires
        ev is Error,
        m.deploy is Some,
    ensures
        is_under_way(m.deploy->0.phase) ==> step(m, ev, stamp, at_ms).0.deploy->0.phase
            == PhaseView::Failed(ev->Error_0@),
        !is_under_way(m.deploy->0.phase) ==> step(m, ev, stamp, at_ms).0.deploy == m.deploy,
        step(m, ev, stamp, at_ms).0.bulk_deploy == m.bulk_deploy,
        step(m, ev, stamp, at_ms).0.fleet == m.fleet,
{
}

/// A deployment whose steps all go well: the sketch is compiled with the version of the form, its
/// binary is uploaded, the device is told where it is by a retained message, the deployment is on
/// record and the fleet stored, and the word of the device ends it and takes the message back.
pub proof fn law_deployment_goes_through(
    m: AppView,
    bin: String,
    url: String,
    id: String,
    status: String,
    stamps: Seq<Seq<char>>,
    at_ms: u64,
)
    requires
        m.deploy is Some,
        m.deploy->0.phase is Form,
        is_filled_in(m.deploy->0.deployer_name, m.deploy->0.new_version),
        id@ == m.deploy->0.device_id,
        confirms(status@, m.deploy->0.new_version),
    ensures
        ({
            let d = m.deploy->0;
            let ota = topic_of(d.device_id, "ota"@);
            let (m1, a1) = deploy_started(m);
            let (m2, a2) = step(
                m1,
                AppEvent::CompileDone { success: true, bin_path: Some(bin) },
                stamps[0],
                at_ms,
            );
            let (m3, a3) = step(m2, AppEvent::UploadDone { url }, stamps[1], at_ms);
            let (m4, a4) = step(m3, AppEvent::OtaPublished, stamps[2], at_ms);
            let (m5, a5) = step(
                m4,
                AppEvent::MqttStatus { device_id: id, status },
                stamps[3],
                at_ms,
            );
            let record = RecordView {
                device_id: d.device_id,
                device_name: d.device_name,
                version: d.new_version,
                deployed_by: d.deployer_name,
                deployed_at: stamps[2],
                firmware_url: url@,
            };
            &&& m1.deploy->0.phase is Compiling
            &&& a1 == seq![
                ActionView::Compile {
                    sketch_dir: d.sketch_dir,
                    version: d.new_version,
                    fqbn: m.config.fqbn,
                },
            ]
            &&& m2.deploy->0.phase is Uploading
            &&& a2 == seq![
                ActionView::Upload { job: job_of(m.config, bin@, d.device_id, d.new_version) },
            ]
            &&& m3.deploy->0.phase is Publishing
            &&& a3 == seq![
                ActionView::Publish { topic: ota, payload: url@, retain: true },
                ActionView::ReportPublished,
            ]
            &&& m4.deploy->0.phase is Waiting
            &&& m4.fleet.deploy_history == m.fleet.deploy_history.push(record)
            &&& m4.fleet.devices == devices_deployed(
                m.fleet.devices,
                d.device_id,
                d.new_version,
                d.deployer_name,
            )
            &&& a4 == seq![save_of(m4.fleet, m.config)]
            &&& m5.deploy->0.phase is Done
            &&& m5.fleet == m4.fleet
            &&& a5 == seq![
                ActionView::Publish { topic: ota, payload: Seq::empty(), retain: true },
            ]
        }),
{
}

/// A deployment changes at most the deployed version and who deployed it, and only of the devices
/// with its id.
pub proof fn law_deployment_is_to_its_device(
    devices: Seq<DeviceView>,
    id: Seq<char>,
    version: Seq<char>,
    by: Seq<char>,
    i: int,
)
    requires
        0 <= i < devices.len(),
    ensures
        devices_deployed(devices, id, version, by).len() == devices.len(),
        devices[i].id != id ==> devices_deployed(devices, id, version, by)[i] == devices[i],
        devices[i].id == id ==> devices_deployed(devices, id, version, by)[i] == (DeviceView {
            desired_version: version,
            last_deploy_by: by,
            ..devices[i]
        }),
{
}

// ---- The deployment to many devices ----

/// While a bulk deployment is active no other deployment can be opened.
pub proof fn law_bulk_shuts_out_others(m: AppView, d: DeviceView, source: Option<Seq<char>>)
    requires
        bulk_is_active(m),
    ensures
        deploy_opened(m, d, source) == m,
        bulk_opened(m) == m,
{
}

/// Each sketch is compiled once, whichever devices share it: the folders differ from one another
/// and are those of the devices.
pub proof fn law_each_sketch_once(devices: Seq<DeviceBulkView>)
    ensures
        distinct_sketches(devices).no_duplicates(),
        distinct_sketches(devices).len() <= devices.len(),
        forall|i: int|
            0 <= i < devices.len() ==> distinct_sketches(devices).contains(
                (#[trigger] devices[i]).sketch_dir,
            ),
        forall|dir: Seq<char>| #[trigger]
            distinct_sketches(devices).contains(dir) ==> exists|i: int|
                0 <= i < devices.len() && (#[trigger] devices[i]).sketch_dir == dir,
    decreases devices.len(),
{
    if devices.len() > 0 {
        let shorter = devices.drop_last();
        law_each_sketch_once(shorter);
        let before = distinct_sketches(shorter);
        let after = distinct_sketches(devices);
        let last = devices.last().sketch_dir;
        assert forall|dir: Seq<char>| #[trigger] after.contains(dir) <==> (before.contains(dir)
            || dir == last) by {
            if before.contains(dir) {
                let k = choose|k: int| 0 <= k < before.len() && before[k] == dir;
                assert(after[k] == dir);
            }
            if dir == last && !before.contains(last) {
                assert(after[before.len() as int] == dir);
            }
        }
        assert forall|i: int| 0 <= i < devices.len() implies after.contains(
            (#[trigger] devices[i]).sketch_dir,
        ) by {
            if i < shorter.len() {
                assert(shorter[i] == devices[i]);
            }
        }
        assert forall|dir: Seq<char>| #[trigger] after.contains(dir) implies exists|i: int|
            0 <= i < devices.len() && (#[trigger] devices[i]).sketch_dir == dir by {
            if before.contains(dir) {
                let i = choose|i: int|
                    0 <= i < shorter.len() && (#[trigger] shorter[i]).sketch_dir == dir;
                assert(devices[i].sketch_dir == dir);
            } else {
                assert(devices[devices.len() - 1].sketch_dir == dir);
            }
        }
        if before.contains(last) {
            assert(after == before);
        } else {
            assert forall|i: int, j: int| 0 <= i < after.len() && 0 <= j < after.len() && i
                != j implies after[i] != after[j] by {
                if i < before.len() && j < before.len() {
                    assert(after[i] == before[i]);
                    assert(after[j] == before[j]);
                } else if i < before.len() {
                    assert(before.contains(before[i]));
                } else {
                    assert(before.contains(before[j]));
                }
            }
        }
    }
}

/// A bulk deployment that starts has a build for every device, each just begun, and asks for as
/// many compilations as there are sketches, each of the version to deploy.
pub proof fn law_start_builds_for_all(m: AppView, i: int)
    requires
        m.bulk_deploy is Some,
        is_filled_in(m.bulk_deploy->0.deployer_name, m.bulk_deploy->0.new_version),
        0 <= i < m.bulk_deploy->0.devices.len(),
    ensures
        ({
            let b = m.bulk_deploy->0;
            let (after, actions) = bulk_started(m);
            let compile = ActionView::BulkCompile {
                sketch_dir: b.devices[i].sketch_dir,
                version: b.new_version,
                fqbn: m.config.fqbn,
            };
            &&& after.bulk_deploy->0.devices[i] == (DeviceBulkView {
                phase: PhaseView::Compiling,
                ..b.devices[i]
            })
            &&& after.bulk_deploy->0.sketch_builds.contains_key(b.devices[i].sketch_dir)
            &&& after.bulk_deploy->0.sketch_builds[b.devices[i].sketch_dir] is Compiling
            &&& actions.len() == distinct_sketches(b.devices).len()
            &&& actions.contains(compile)
            &&& actions.no_duplicates()
        }),
{
    let b = m.bulk_deploy->0;
    let (after, actions) = bulk_started(m);
    let dirs = distinct_sketches(b.devices);
    law_each_sketch_once(b.devices);
    let k = choose|k: int| 0 <= k < dirs.len() && dirs[k] == b.devices[i].sketch_dir;
    assert(actions[k] == ActionView::BulkCompile {
        sketch_dir: b.devices[i].sketch_dir,
        version: b.new_version,
        fqbn: m.config.fqbn,
    });
    assert forall|x: int, y: int| 0 <= x < actions.len() && 0 <= y < actions.len() && x
        != y implies actions[x] != actions[y] by {
        assert(dirs[x] != dirs[y]);
        assert(actions[x]->BulkCompile_sketch_dir == dirs[x]);
        assert(actions[y]->BulkCompile_sketch_dir == dirs[y]);
    }
}

/// What is reported of one sketch moves all devices of that sketch, and no other device and no
/// other build.
pub proof fn law_sketches_do_not_mix(
    m: AppView,
    sketch_dir: Seq<char>,
    success: bool,
    bin_path: Option<Seq<char>>,
    url: Seq<char>,
    i: int,
    other: Seq<char>,
)
    requires
        m.bulk_deploy is Some,
        0 <= i < m.bulk_deploy->0.devices.len(),
        success ==> bin_path is Some,
        other != sketch_dir,
    ensures
        ({
            let b = m.bulk_deploy->0;
            let compiled = on_bulk_compile_done(m, sketch_dir, success, bin_path).0.bulk_deploy->0;
            let uploaded = on_bulk_upload_done(m, sketch_dir, url).0.bulk_deploy->0;
            if b.devices[i].sketch_dir == sketch_dir {
                &&& compiled.devices[i].phase == if success {
                    PhaseView::Uploading
                } else {
                    PhaseView::Failed("Compile failed"@)
                }
                &&& uploaded.devices[i].phase is Waiting
            } else {
                &&& compiled.devices[i] == b.devices[i]
                &&& uploaded.devices[i] == b.devices[i]
            }
        }),
        ({
            let b = m.bulk_deploy->0;
            let compiled = on_bulk_compile_done(m, sketch_dir, success, bin_path).0.bulk_deploy->0;
            let uploaded = on_bulk_upload_done(m, sketch_dir, url).0.bulk_deploy->0;
            &&& compiled.sketch_builds.contains_key(other) == b.sketch_builds.contains_key(other)
            &&& compiled.sketch_builds[other] == b.sketch_builds[other]
            &&& uploaded.sketch_builds.contains_key(other) == b.sketch_builds.contains_key(other)
            &&& uploaded.sketch_builds[other] == b.sketch_builds[other]
        }),
{
}

/// The build of a sketch that was compiled is done and its binary uploaded once, whichever devices
/// share it; one that was not compiled has failed and is not uploaded.
pub proof fn law_each_sketch_uploads_once(
    m: AppView,
    sketch_dir: Seq<char>,
    success: bool,
    bin_path: Option<Seq<char>>,
)
    requires
        m.bulk_deploy is Some,
        success ==> bin_path is Some,
    ensures
        on_bulk_compile_done(
            m,
            sketch_dir,
            success,
            bin_path,
        ).0.bulk_deploy->0.sketch_builds[sketch_dir] == if success {
            BuildView::Done(bin_path->0)
        } else {
            BuildView::Failed("Compile failed"@)
        },
        on_bulk_compile_done(m, sketch_dir, success, bin_path).1.filter(
            |a: ActionView| a is BulkUpload,
        ) == if success {
            seq![
                ActionView::BulkUpload {
                    sketch_dir,
                    job: job_of(
                        m.config,
                        bin_path->0,
                        sketch_name_of(sketch_dir),
                        m.bulk_deploy->0.new_version,
                    ),
                },
            ]
        } else {
            seq![]
        },
{
    reveal_with_fuel(Seq::<_>::filter, 3);
    let actions = on_bulk_compile_done(m, sketch_dir, success, bin_path).1;
    if success {
        assert(actions.drop_last() =~= seq![actions[0]]);
        assert(seq![actions[0]].drop_last() =~= Seq::<ActionView>::empty());
        assert(Seq::<ActionView>::empty().push(actions[0]) =~= seq![actions[0]]);
    } else {
        assert(actions.drop_last() =~= Seq::<ActionView>::empty());
    }
}

/// The trigger for a device.
pub open spec fn trigger_of(d: DeviceBulkView, url: Seq<char>) -> ActionView {
    ActionView::Publish { topic: topic_of(d.device_id, "ota"@), payload: url, retain: false }
}

/// When the firmware of a sketch is uploaded, every device of the sketch is told so, and no device
/// of another.
pub proof fn law_triggers_reach_the_sketch(
    devices: Seq<DeviceBulkView>,
    sketch_dir: Seq<char>,
    url: Seq<char>,
)
    ensures
        forall|i: int|
            0 <= i < devices.len() && (#[trigger] devices[i]).sketch_dir == sketch_dir
                ==> triggers(devices, sketch_dir, url).contains(trigger_of(devices[i], url)),
        forall|a: ActionView| #[trigger]
            triggers(devices, sketch_dir, url).contains(a) ==> exists|i: int|
                0 <= i < devices.len() && (#[trigger] devices[i]).sketch_dir == sketch_dir && a
                    == trigger_of(devices[i], url),
        triggers(devices, sketch_dir, url).len() == devices.filter(
            |d: DeviceBulkView| d.sketch_dir == sketch_dir,
        ).len(),
    decreases devices.len(),
{
    reveal(Seq::filter);
    if devices.len() > 0 {
        let shorter = devices.drop_last();
        law_triggers_reach_the_sketch(shorter, sketch_dir, url);
        let before = triggers(shorter, sketch_dir, url);
        let after = triggers(devices, sketch_dir, url);
        let n = devices.len() - 1;
        assert forall|i: int|
            0 <= i < devices.len() && (#[trigger] devices[i]).sketch_dir
                == sketch_dir implies after.contains(trigger_of(devices[i], url)) by {
            if i < n {
                assert(shorter[i] == devices[i]);
                let t = trigger_of(devices[i], url);
                let k = choose|k: int| 0 <= k < before.len() && before[k] == t;
                assert(after[k] == t);
            } else {
                assert(after[before.len() as int] == trigger_of(devices[i], url));
            }
        }
        assert forall|a: ActionView| #[trigger] after.contains(a) implies exists|i: int|
            0 <= i < devices.len() && (#[trigger] devices[i]).sketch_dir == sketch_dir && a
                == trigger_of(devices[i], url) by {
            let k = choose|k: int| 0 <= k < after.len() && after[k] == a;
            if k < before.len() {
                assert(before[k] == a);
                assert(before.contains(a));
                let i = choose|i: int|
                    0 <= i < shorter.len() && (#[trigger] shorter[i]).sketch_dir == sketch_dir && a
                        == trigger_of(shorter[i], url);
                assert(devices[i] == shorter[i]);
            } else {
                assert(devices[n].sketch_dir == sketch_dir && a == trigger_of(devices[n], url));
            }
        }
    }
}

/// A device of a bulk deployment whose sketch goes through all steps: it is compiled for, uploaded
/// for, told where its firmware is and waited for, and its own word that it runs the version ends
/// it.
pub proof fn law_bulk_device_goes_through(
    m: AppView,
    i: int,
    dir: String,
    bin: String,
    url: String,
    id: String,
    status: String,
    stamps: Seq<Seq<char>>,
    at_ms: u64,
)
    requires
        m.bulk_deploy is Some,
        is_filled_in(m.bulk_deploy->0.deployer_name, m.bulk_deploy->0.new_version),
        0 <= i < m.bulk_deploy->0.devices.len(),
        dir@ == m.bulk_deploy->0.devices[i].sketch_dir,
        id@ == m.bulk_deploy->0.devices[i].device_id,
        confirms(status@, m.bulk_deploy->0.new_version),
    ensures
        ({
            let b = m.bulk_deploy->0;
            let (m1, _a1) = bulk_started(m);
            let (m2, a2) = step(
                m1,
                AppEvent::BulkCompileDone { sketch_dir: dir, success: true, bin_path: Some(bin) },
                stamps[0],
                at_ms,
            );
            let (m3, a3) = step(
                m2,
                AppEvent::BulkUploadDone { sketch_dir: dir, url },
                stamps[1],
                at_ms,
            );
            let (m4, _a4) = step(
                m3,
                AppEvent::MqttStatus { device_id: id, status },
                stamps[2],
                at_ms,
            );
            &&& m1.bulk_deploy->0.devices[i].phase is Compiling
            &&& m2.bulk_deploy->0.devices[i].phase is Uploading
            &&& a2[0] == (ActionView::BulkUpload {
                sketch_dir: dir@,
                job: job_of(m.config, bin@, sketch_name_of(dir@), b.new_version),
            })
            &&& m3.bulk_deploy->0.devices[i].phase is Waiting
            &&& a3.contains(trigger_of(b.devices[i], url@))
            &&& m4.bulk_deploy->0.devices[i].phase is Done
        }),
{
    let b = m.bulk_deploy->0;
    let m1 = bulk_started(m).0;
    let m2 = step(
        m1,
        AppEvent::BulkCompileDone { sketch_dir: dir, success: true, bin_path: Some(bin) },
        stamps[0],
        at_ms,
    ).0;
    let d1 = m1.bulk_deploy->0.devices;
    let d2 = m2.bulk_deploy->0.devices;
    assert(d1[i].sketch_dir == dir@);
    assert(d2[i].sketch_dir == dir@);
    law_triggers_reach_the_sketch(d2, dir@, url@);
    let t = triggers(d2, dir@, url@);
    assert(trigger_of(d2[i], url@) == trigger_of(b.devices[i], url@));
    let k = choose|k: int| 0 <= k < t.len() && t[k] == trigger_of(b.devices[i], url@);
    assert(t.push(ActionView::Repaint)[k] == trigger_of(b.devices[i], url@));
}

/// A device of a bulk deployment is done only by its own word that it runs the version, while that
/// is waited for, or where it is reported to be through.
pub proof fn law_bulk_done_by_its_own_word(
    m: AppView,
    ev: AppEvent,
    stamp: Seq<char>,
    at_ms: u64,
    i: int,
)
    requires
        m.bulk_deploy is Some,
        0 <= i < m.bulk_deploy->0.devices.len(),
        !(m.bulk_deploy->0.devices[i].phase is Done),
        step(m, ev, stamp, at_ms).0.bulk_deploy->0.devices[i].phase is Done,
    ensures
        ({
            let d = m.bulk_deploy->0.devices[i];
            ||| (ev matches AppEvent::MqttStatus { device_id, status } && device_id@ == d.device_id
                && d.phase is Waiting && confirms(status@, m.bulk_deploy->0.new_version))
            ||| (ev matches AppEvent::BulkOtaPublished { device_id } && device_id@ == d.device_id)
        }),
{
}

/// No event adds a device to a bulk deployment, takes one out, or changes which it is; and the
/// output of a device is only ever added to.
pub proof fn law_bulk_devices_stay(m: AppView, ev: AppEvent, stamp: Seq<char>, at_ms: u64, i: int)
    requires
        m.bulk_deploy is Some,
        0 <= i < m.bulk_deploy->0.devices.len(),
    ensures
        ({
            let before = m.bulk_deploy->0;
            let after = step(m, ev, stamp, at_ms).0.bulk_deploy->0;
            &&& after.devices.len() == before.devices.len()
            &&& after.devices[i] == (DeviceBulkView {
                phase: after.devices[i].phase,
                log: after.devices[i].log,
                ..before.devices[i]
            })
            &&& before.devices[i].log.is_prefix_of(after.devices[i].log)
            &&& after.new_version == before.new_version
            &&& after.deployer_name == before.deployer_name
            &&& after.show_form == before.show_form
        }),
{
}

/// A line that the compiler printed about a sketch becomes the last line of the output of every
/// device of that sketch, and changes nothing else.
pub proof fn law_lines_reach_the_sketch(
    m: AppView,
    sketch_dir: Seq<char>,
    line: Seq<char>,
    level: LogLevel,
    i: int,
)
    requires
        m.bulk_deploy is Some,
        0 <= i < m.bulk_deploy->0.devices.len(),
    ensures
        ({
            let b = m.bulk_deploy->0;
            let after = on_bulk_compile_output(m, sketch_dir, line, level);
            let d = after.bulk_deploy->0.devices[i];
            &&& d == if b.devices[i].sketch_dir == sketch_dir {
                DeviceBulkView { log: b.devices[i].log.push((line, level)), ..b.devices[i] }
            } else {
                b.devices[i]
            }
            &&& after == AppView { bulk_deploy: after.bulk_deploy, ..m }
            &&& after.bulk_deploy->0 == BulkView {
                devices: after.bulk_deploy->0.devices,
                ..b
            }
        }),
{
}

/// The devices that are done, that failed, that are in progress and that are waited for are all
/// devices, each counted once; and all are through exactly if none is in progress or waited for.
pub proof fn law_summary_counts_all(devices: Seq<DeviceBulkView>)
    ensures
        count(devices, |p: PhaseView| p is Done) + count(devices, |p: PhaseView| p is Failed)
            + count(devices, |p: PhaseView| is_in_progress(p)) + count(
            devices,
            |p: PhaseView| p is Waiting,
        ) == devices.len(),
        all_over(devices) <==> count(devices, |p: PhaseView| is_in_progress(p)) == 0 && count(
            devices,
            |p: PhaseView| p is Waiting,
        ) == 0,
    decreases devices.len(),
{
    if devices.len() > 0 {
        let shorter = devices.drop_last();
        law_summary_counts_all(shorter);
        if all_over(devices) {
            assert forall|i: int| 0 <= i < shorter.len() implies is_over(
                (#[trigger] shorter[i]).phase,
            ) by {
                assert(shorter[i] == devices[i]);
            }
            assert(is_over(devices[devices.len() - 1].phase));
        }
        if count(devices, |p: PhaseView| is_in_progress(p)) == 0 && count(
            devices,
            |p: PhaseView| p is Waiting,
        ) == 0 {
            assert forall|i: int| 0 <= i < devices.len() implies is_over(
                (#[trigger] devices[i]).phase,
            ) by {
                if i < shorter.len() {
                    assert(shorter[i] == devices[i]);
                }
            }
        }
    }
}

} // verus!
