//! What each thing that a user can do changes, what it asks for, and what is shown.
use vstd::prelude::*;
use vstd::string::*;
use crate::bulk::{
    all_over, bulk_edited, bulk_is_active, bulk_opened, bulk_started, bulk_submitted, can_open_bulk,
    chosen, count, distinct_sketches, in_bulk_form, is_in_progress, is_over, phase_name,
    phase_progress,
};
use crate::deploy::{
    current_version, deploy_edited, deploy_opened, deploy_started, is_filled_in, is_form_shown,
    sketch_dir_of, source_path_of, step_mark, StepMark,
};
use crate::devices::{
    deployed_label, ids_of, is_running, query_of, search_texts_of, status_of, visible, Running,
};
use crate::event_laws::lemma_filter_places;
use crate::firmware::version_defined;
use crate::laws::law_each_sketch_once;
use crate::model::{ActionView, AppView};
use crate::outside::lowercase;
use crate::paths::{default_sketch_path, file_name_of, joined};
use crate::register::{add_opened, device_added, is_taken, tags_of};
use crate::settings::{
    default_settings, is_incomplete, is_savable, is_shown, load_if_named, settings_saved, started,
};
use crate::text::{law_split_first, law_split_whole, occurs_in, split_on, trimmed};
use crate::text_laws::{is_blank, law_topics_are_below_solar, law_trimming_blank_text};
use crate::types::{
    AddFormView, BuildView, BulkView, ConfigView, DeployView, DeviceBulkView, DeviceView, PhaseView,
    Tab, ViewMode,
};
use crate::version::{bumped, reported_version};

verus! {

// ---- Settings ----

/// The settings of a first start name the broker, its port and user, and the board; the sketches
/// are in `Arduino` below the home directory. Nothing else is set.
pub proof fn law_first_settings(home: Seq<char>)
    ensures
        ({
            let c = default_settings(Some(home));
            let bare = default_settings(None);
            &&& c.mqtt_host == "mqtt.vitalitysoft.com"@
            &&& c.mqtt_port == 8883
            &&& c.mqtt_user == "solar"@
            &&& c.fqbn == "esp32:esp32:esp32"@
            &&& home.len() > 0 && home.last() != '/' ==> c.sketch_root == home + "/Arduino"@
            &&& home.len() == 0 ==> c.sketch_root == "Arduino"@
            &&& home.len() > 0 && home.last() == '/' ==> c.sketch_root == home + "Arduino"@
            &&& c.worker_url.len() == 0
            &&& c.worker_token.len() == 0
            &&& c.mqtt_pass.len() == 0
            &&& c.vps_host.len() == 0
            &&& c.vps_key.len() == 0
            &&& c.vps_firmware_dir.len() == 0
            &&& c.vps_firmware_url.len() == 0
            &&& bare.sketch_root.len() == 0
            &&& bare == ConfigView { sketch_root: bare.sketch_root, ..c }
        }),
{
    reveal_strlit("Arduino");
    reveal_strlit("/Arduino");
    reveal_strlit("/");
    assert("/Arduino"@ =~= "/"@ + "Arduino"@);
    assert(home + "/Arduino"@ =~= home + "/"@ + "Arduino"@);
}

/// Settings are complete exactly if the address of the service, its key and the password of the
/// broker are set; they can be saved exactly if none of the three is blank.
pub proof fn law_three_settings_are_needed(c: ConfigView)
    ensures
        !is_incomplete(c) <==> c.worker_url.len() > 0 && c.worker_token.len() > 0
            && c.mqtt_pass.len() > 0,
        is_savable(c) <==> !is_blank(c.worker_url) && !is_blank(c.worker_token) && !is_blank(
            c.mqtt_pass,
        ),
{
    law_trimming_blank_text(c.worker_url);
    law_trimming_blank_text(c.worker_token);
    law_trimming_blank_text(c.mqtt_pass);
}

/// The flasher starts on the page of devices, as cards, with no device known and nothing open,
/// typed, selected or shown but the settings, which are open if they are not complete. Both the
/// settings in force and those to be edited are the ones given.
pub proof fn law_start_is_empty(c: ConfigView)
    ensures
        ({
            let m = started(c);
            let needs_setup = c.worker_url.len() == 0 || c.worker_token.len() == 0
                || c.mqtt_pass.len() == 0;
            &&& m.config == c
            &&& m.settings_buf == c
            &&& m.show_settings == needs_setup
            &&& m.first_run == needs_setup
            &&& m.fleet.devices.len() == 0
            &&& m.fleet.deploy_history.len() == 0
            &&& !m.fleet_loaded
            &&& !m.mqtt_connected
            &&& m.mqtt_status == Map::<Seq<char>, Seq<char>>::empty()
            &&& m.tab is Devices
            &&& m.view_mode is Cards
            &&& m.deploy is None
            &&& m.bulk_deploy is None
            &&& !m.show_add
            &&& m.add_form.by_name.len() == 0
            &&& m.add_form.company.len() == 0
            &&& m.add_form.device_name.len() == 0
            &&& m.add_form.device_id.len() == 0
            &&& m.add_form.sketch_dir.len() == 0
            &&& m.add_form.version.len() == 0
            &&& m.add_form.tags_input.len() == 0
            &&& m.add_form.error.len() == 0
            &&& m.notif is None
            &&& !m.picking_folder
            &&& m.mqtt_gen == 0
            &&& m.search_query.len() == 0
            &&& m.selected == Set::<Seq<char>>::empty()
        }),
{
}

/// The fleet is fetched with the address and the key of the settings, if they have an address.
pub proof fn law_fleet_is_fetched_by_the_settings(c: ConfigView)
    ensures
        c.worker_url.len() > 0 ==> load_if_named(c) == seq![
            ActionView::LoadFleet { worker_url: c.worker_url, token: c.worker_token },
        ],
        c.worker_url.len() == 0 ==> load_if_named(c).len() == 0,
{
}

/// Saving puts the edited settings in force, closes them, ends the first run, tells so, drops the
/// connection and begins the next generation of it. They are stored, the fleet is fetched and the
/// broker connected with them. Nothing else changes.
pub proof fn law_saved_settings_are_in_force(m: AppView, at_ms: u64)
    requires
        m.settings_buf.worker_url.len() > 0,
    ensures
        ({
            let (after, actions) = settings_saved(m, at_ms);
            let c = m.settings_buf;
            &&& after.config == c
            &&& !after.show_settings
            &&& !after.first_run
            &&& !after.mqtt_connected
            &&& m.mqtt_gen < u64::MAX ==> after.mqtt_gen == m.mqtt_gen + 1
            &&& m.mqtt_gen == u64::MAX ==> after.mqtt_gen == 0
            &&& after.notif is Some
            &&& after.notif->0.msg == "Settings saved. Reconnecting MQTT…"@
            &&& !after.notif->0.is_err
            &&& after.notif->0.at_ms == at_ms
            &&& after == AppView {
                config: after.config,
                show_settings: after.show_settings,
                first_run: after.first_run,
                mqtt_connected: after.mqtt_connected,
                mqtt_gen: after.mqtt_gen,
                notif: after.notif,
                ..m
            }
            &&& actions == seq![
                ActionView::SaveConfig { config: c },
                ActionView::LoadFleet { worker_url: c.worker_url, token: c.worker_token },
                ActionView::DropClient,
                ActionView::Connect { config: c },
            ]
        }),
{
    let c = m.settings_buf;
    assert(settings_saved(m, at_ms).1 =~= seq![
        ActionView::SaveConfig { config: c },
        ActionView::LoadFleet { worker_url: c.worker_url, token: c.worker_token },
        ActionView::DropClient,
        ActionView::Connect { config: c },
    ]);
}

/// A message is shown for five seconds from when it came.
pub proof fn law_message_stays_five_seconds(at_ms: u64, now_ms: u64)
    ensures
        now_ms >= at_ms + 5000 ==> !is_shown(at_ms, now_ms),
        now_ms < at_ms + 5000 ==> is_shown(at_ms, now_ms),
{
}

// ---- The list of devices ----

/// The list holds the devices of the fleet whose name or id has in it what was typed, but for white
/// space at its ends and for upper and lower case; in the order of the fleet, each once.
pub proof fn law_list_holds_what_is_searched_for(m: AppView) -> (places: Seq<int>)
    ensures
        ({
            let typed = lowercase(trimmed(m.search_query));
            let all = m.fleet.devices;
            &&& visible(m).len() == places.len()
            &&& forall|j: int|
                0 <= j < places.len() ==> 0 <= #[trigger] places[j] < all.len() && visible(m)[j]
                    == all[places[j]]
            &&& forall|j: int, k: int| 0 <= j < k < places.len() ==> places[j] < places[k]
            &&& forall|i: int|
                0 <= i < all.len() ==> (places.contains(i) <==> occurs_in(
                    typed,
                    lowercase((#[trigger] all[i]).name),
                ) || occurs_in(typed, lowercase(all[i].id)))
        }),
{
    let typed = lowercase(trimmed(m.search_query));
    let all = m.fleet.devices;
    let pred = |d: DeviceView| crate::devices::found_in(typed, search_texts_of(d));
    assert forall|d: DeviceView| #[trigger] pred(d) <==> occurs_in(typed, lowercase(d.name))
        || occurs_in(typed, lowercase(d.id)) by {
        let texts = search_texts_of(d);
        assert(texts[0] == lowercase(d.name));
        assert(texts[1] == lowercase(d.id));
    }
    assert(query_of(m.search_query) == typed);
    if typed.len() == 0 {
        let places = Seq::new(all.len(), |i: int| i);
        assert forall|i: int| 0 <= i < all.len() implies (places.contains(i) <==> occurs_in(
            typed,
            lowercase((#[trigger] all[i]).name),
        ) || occurs_in(typed, lowercase(all[i].id))) by {
            assert(places[i] == i);
            let name = lowercase(all[i].name);
            assert(name.subrange(0, 0) =~= typed);
            assert(crate::text::occurs_at(typed, name, 0));
        }
        places
    } else {
        let places = lemma_filter_places(all, pred);
        assert forall|i: int| 0 <= i < all.len() implies (places.contains(i) <==> occurs_in(
            typed,
            lowercase((#[trigger] all[i]).name),
        ) || occurs_in(typed, lowercase(all[i].id))) by {
            if places.contains(i) {
                let j = choose|j: int| 0 <= j < places.len() && places[j] == i;
                assert(pred(all[places[j]]));
            }
            assert(pred(all[i]) ==> places.contains(i));
        }
        places
    }
}

/// An id is among those of devices exactly if one of them has it.
pub proof fn law_ids_are_of_devices(devices: Seq<DeviceView>, id: Seq<char>)
    ensures
        ids_of(devices).contains(id) <==> exists|i: int|
            0 <= i < devices.len() && (#[trigger] devices[i]).id == id,
{
    let ids = devices.map_values(|d: DeviceView| d.id);
    if ids_of(devices).contains(id) {
        let i = choose|i: int| 0 <= i < ids.len() && ids[i] == id;
        assert(devices[i].id == id);
    }
    if exists|i: int| 0 <= i < devices.len() && (#[trigger] devices[i]).id == id {
        let i = choose|i: int| 0 <= i < devices.len() && (#[trigger] devices[i]).id == id;
        assert(ids[i] == id);
        assert(ids.contains(id));
    }
}

/// A device runs what its status states: it is current if that is the version deployed to it, and
/// another one if it is not; without a stated version what it runs is unknown.
pub proof fn law_running_version_is_what_is_stated(
    status: Seq<char>,
    desired: Seq<char>,
    v: String,
)
    ensures
        is_running(Running::Unknown, status, desired) <==> reported_version(status) is None,
        is_running(Running::Current(v), status, desired) <==> reported_version(status) == Some(v@)
            && v@ == desired,
        is_running(Running::Other(v), status, desired) <==> reported_version(status) == Some(v@)
            && v@ != desired,
{
}

/// A row goes by the last status of its device, if there is one, and shows the version deployed to
/// it, or a dash.
pub proof fn law_row_shows_what_is_known(m: AppView, id: Seq<char>, desired: Seq<char>)
    ensures
        m.mqtt_status.contains_key(id) ==> status_of(m, id) == m.mqtt_status[id],
        !m.mqtt_status.contains_key(id) ==> status_of(m, id).len() == 0,
        desired.len() > 0 ==> deployed_label(desired) == seq!['v'] + desired,
        desired.len() == 0 ==> deployed_label(desired) == seq!['—'],
{
    reveal_strlit("v");
    reveal_strlit("—");
    assert("v"@ =~= seq!['v']);
    assert("—"@ =~= seq!['—']);
}

// ---- Registering a device ----

/// The form opens in place of the settings, with version 1.0.0, the suggested id and the folder
/// that goes with it, and with nothing else in it.
pub proof fn law_form_opens_with_suggestions(m: AppView, id: Seq<char>)
    ensures
        ({
            let after = add_opened(m, id);
            let f = after.add_form;
            &&& after.show_add
            &&& !after.show_settings
            &&& f.version == "1.0.0"@
            &&& f.device_id == id
            &&& id.len() > 0 ==> f.sketch_dir == default_sketch_path(m.config.sketch_root, id)
            &&& id.len() == 0 ==> f.sketch_dir.len() == 0
            &&& f.by_name.len() == 0
            &&& f.company.len() == 0
            &&& f.device_name.len() == 0
            &&& f.tags_input.len() == 0
            &&& f.error.len() == 0
            &&& after == AppView {
                show_add: after.show_add,
                show_settings: after.show_settings,
                add_form: after.add_form,
                ..m
            }
        }),
{
}

/// A form whose name, device name, id and version are not blank, and whose id no device has,
/// registers a device with what the form holds, each without white space at its ends: its id, its
/// name, its company, its folder, its version and who added it. It has the topics of its id and the
/// labels of the form; it was added at the time given, and nobody has deployed to it. The device
/// stands at the end of the fleet, which is stored; the form is emptied and closed.
pub proof fn law_registered_device_is_as_typed(m: AppView, stamp: Seq<char>, at_ms: u64)
    requires
        !is_blank(m.add_form.by_name),
        !is_blank(m.add_form.device_name),
        !is_blank(m.add_form.device_id),
        !is_blank(m.add_form.version),
        forall|i: int|
            0 <= i < m.fleet.devices.len() ==> (#[trigger] m.fleet.devices[i]).id
                != m.add_form.device_id,
    ensures
        ({
            let f = m.add_form;
            let (after, actions) = device_added(m, stamp, at_ms);
            let d = after.fleet.devices.last();
            let id = trimmed(f.device_id);
            &&& after.fleet.devices.len() == m.fleet.devices.len() + 1
            &&& after.fleet.devices.drop_last() == m.fleet.devices
            &&& after.fleet.deploy_history == m.fleet.deploy_history
            &&& d.id == id
            &&& d.name == trimmed(f.device_name)
            &&& d.company == trimmed(f.company)
            &&& d.sketch_dir == trimmed(f.sketch_dir)
            &&& d.desired_version == trimmed(f.version)
            &&& d.added_by == trimmed(f.by_name)
            &&& d.added_at == stamp
            &&& d.last_deploy_by.len() == 0
            &&& d.topics.cmd == "solar/"@ + id + "/cmd"@
            &&& d.topics.status == "solar/"@ + id + "/status"@
            &&& d.topics.ota == "solar/"@ + id + "/ota"@
            &&& d.tags.len() == split_on(f.tags_input, ',').len()
            &&& forall|i: int|
                0 <= i < d.tags.len() ==> #[trigger] d.tags[i] == trimmed(
                    split_on(f.tags_input, ',')[i],
                )
            &&& !after.show_add
            &&& after.add_form.by_name.len() == 0
            &&& after.add_form.company.len() == 0
            &&& after.add_form.device_name.len() == 0
            &&& after.add_form.device_id.len() == 0
            &&& after.add_form.sketch_dir.len() == 0
            &&& after.add_form.version.len() == 0
            &&& after.add_form.tags_input.len() == 0
            &&& after.add_form.error.len() == 0
            &&& after.notif is Some
            &&& after.notif->0.msg == "Device '"@ + id + "' added."@
            &&& !after.notif->0.is_err
            &&& after.notif->0.at_ms == at_ms
            &&& after == AppView {
                fleet: after.fleet,
                show_add: after.show_add,
                add_form: after.add_form,
                notif: after.notif,
                ..m
            }
            &&& actions == seq![
                ActionView::SaveFleet {
                    fleet: after.fleet,
                    worker_url: m.config.worker_url,
                    token: m.config.worker_token,
                },
            ]
        }),
{
    let f = m.add_form;
    law_trimming_blank_text(f.by_name);
    law_trimming_blank_text(f.device_name);
    law_trimming_blank_text(f.device_id);
    law_trimming_blank_text(f.version);
    law_topics_are_below_solar(trimmed(f.device_id), "ota"@);
    let after = device_added(m, stamp, at_ms).0;
    assert(!is_taken(m.fleet.devices, f.device_id));
    assert(after.fleet.devices.drop_last() =~= m.fleet.devices);
}

/// A form with a blank name, device name, id or version is refused, and so is one whose id a device
/// has; each with its reason, and with no other change.
pub proof fn law_other_forms_are_refused(m: AppView, stamp: Seq<char>, at_ms: u64, i: int)
    ensures
        ({
            let f = m.add_form;
            let (after, actions) = device_added(m, stamp, at_ms);
            let blank = is_blank(f.by_name) || is_blank(f.device_name) || is_blank(f.device_id)
                || is_blank(f.version);
            let taken = 0 <= i < m.fleet.devices.len() && m.fleet.devices[i].id == f.device_id;
            &&& blank || taken ==> {
                &&& after == AppView {
                    add_form: AddFormView { error: after.add_form.error, ..f },
                    ..m
                }
                &&& actions.len() == 0
            }
            &&& blank ==> after.add_form.error == "All fields (except company) are required."@
            &&& !blank && taken ==> after.add_form.error == "Device '"@ + f.device_id
                + "' already exists."@
        }),
{
    let f = m.add_form;
    law_trimming_blank_text(f.by_name);
    law_trimming_blank_text(f.device_name);
    law_trimming_blank_text(f.device_id);
    law_trimming_blank_text(f.version);
}

/// Labels are what stands between commas, without white space at its ends.
pub proof fn law_labels_are_between_commas(first: Seq<char>, rest: Seq<char>)
    requires
        !first.contains(','),
    ensures
        tags_of(first) == seq![trimmed(first)],
        tags_of(first + seq![','] + rest) == seq![trimmed(first)] + tags_of(rest),
{
    law_split_whole(first, ',');
    law_split_first(first, rest, ',');
    assert(tags_of(first) =~= seq![trimmed(first)]);
    assert(tags_of(first + seq![','] + rest) =~= seq![trimmed(first)] + tags_of(rest));
}

// ---- The deployment to one device ----

/// The sketch of a device is in its folder, a relative one below the root; a device without a
/// folder has the default one. The source file is named after the folder.
pub proof fn law_sketch_is_in_its_folder(root: Seq<char>, d: DeviceView)
    requires
        root.len() > 0,
        root.last() != '/',
    ensures
        d.sketch_dir.len() == 0 ==> sketch_dir_of(root, d) == default_sketch_path(root, d.id),
        d.sketch_dir.len() > 0 && d.sketch_dir[0] == '/' ==> sketch_dir_of(root, d) == d.sketch_dir,
        d.sketch_dir.len() > 0 && d.sketch_dir[0] != '/' ==> sketch_dir_of(root, d) == root + seq![
            '/',
        ] + d.sketch_dir,
        file_name_of(root) is Some ==> source_path_of(root) == root + seq!['/'] + file_name_of(
            root,
        )->0 + ".ino"@,
        file_name_of(root) is None ==> source_path_of(root) == root + "/.ino"@,
{
    reveal_strlit("/");
    reveal_strlit(".ino");
    reveal_strlit("/.ino");
    assert("/"@ =~= seq!['/']);
    assert("/.ino"@ =~= seq!['/'] + ".ino"@);
    assert(root + seq!['/'] + ".ino"@ =~= root + "/.ino"@);
    if file_name_of(root) is Some {
        let n = file_name_of(root)->0;
        crate::text_laws::law_last_component_is_a_piece(root);
        assert(n[0] != '/') by {
            if n[0] == '/' {
                assert(n.contains('/'));
            }
        }
        assert((n + ".ino"@)[0] == n[0]);
        assert(root + seq!['/'] + (n + ".ino"@) =~= root + seq!['/'] + n + ".ino"@);
    }
}

/// A deployment to a device opens with its id, its name and its folder, and with the version after
/// the one that its sketch states, or else after the one deployed last; nobody is named yet and
/// nothing has happened. It takes the place of another one, and nothing else changes. While many
/// devices are being deployed to, none opens.
pub proof fn law_deployment_opens_for_its_device(
    m: AppView,
    d: DeviceView,
    source: Option<Seq<char>>,
)
    ensures
        ({
            let after = deploy_opened(m, d, source);
            let e = after.deploy->0;
            let current = if source is Some && version_defined(source->0) is Some {
                version_defined(source->0)->0
            } else {
                d.desired_version
            };
            &&& bulk_is_active(m) ==> after == m
            &&& !bulk_is_active(m) ==> {
                &&& after.deploy is Some
                &&& e.device_id == d.id
                &&& e.device_name == d.name
                &&& e.deployer_name.len() == 0
                &&& e.new_version == bumped(current)
                &&& d.sketch_dir.len() == 0 ==> e.sketch_dir == default_sketch_path(
                    m.config.sketch_root,
                    d.id,
                )
                &&& d.sketch_dir.len() > 0 ==> e.sketch_dir == joined(
                    m.config.sketch_root,
                    d.sketch_dir,
                )
                &&& e.phase is Form
                &&& e.log_lines.len() == 0
                &&& e.bin_path is None
                &&& e.firmware_url is None
                &&& after == AppView { deploy: after.deploy, ..m }
            }
            &&& current_version(d, source) == current
        }),
{
}

/// The form of a deployment is on screen before it begins and after it failed, and only then can
/// be edited; what is typed is what it holds.
pub proof fn law_deployment_is_edited_in_its_form(
    m: AppView,
    deployer: Seq<char>,
    version: Seq<char>,
    dir: Seq<char>,
)
    ensures
        ({
            let after = deploy_edited(m, deployer, version, dir);
            match m.deploy {
                Some(d) => {
                    let shown = d.phase is Form || d.phase is Failed;
                    let hidden = d.phase is Compiling || d.phase is Uploading
                        || d.phase is Publishing || d.phase is Waiting || d.phase is Done;
                    &&& shown != hidden
                    &&& is_form_shown(d.phase) == shown
                    &&& shown ==> after == AppView {
                        deploy: Some(
                            DeployView {
                                deployer_name: deployer,
                                new_version: version,
                                sketch_dir: dir,
                                ..d
                            },
                        ),
                        ..m
                    }
                    &&& hidden ==> after == m
                },
                None => after == m,
            }
        }),
{
}

/// A form is filled in exactly if neither who deploys nor the version is blank. Then, and only from
/// its form, a deployment begins: with no output yet, its sketch is compiled in its folder with its
/// version for the board of the settings.
pub proof fn law_deployment_begins_by_compiling(m: AppView)
    requires
        m.deploy is Some,
    ensures
        ({
            let d = m.deploy->0;
            let (after, actions) = deploy_started(m);
            let filled = !is_blank(d.deployer_name) && !is_blank(d.new_version);
            &&& is_filled_in(d.deployer_name, d.new_version) == filled
            &&& filled && d.phase is Form ==> {
                &&& after.deploy->0.phase is Compiling
                &&& after.deploy->0.log_lines.len() == 0
                &&& after == AppView {
                    deploy: Some(
                        DeployView {
                            phase: after.deploy->0.phase,
                            log_lines: after.deploy->0.log_lines,
                            ..d
                        },
                    ),
                    ..m
                }
                &&& actions == seq![
                    ActionView::Compile {
                        sketch_dir: d.sketch_dir,
                        version: d.new_version,
                        fqbn: m.config.fqbn,
                    },
                ]
            }
            &&& !filled || !(d.phase is Form) ==> after == m && actions.len() == 0
            &&& deploy_started(AppView { deploy: None, ..m }).0 == AppView { deploy: None, ..m }
            &&& deploy_started(AppView { deploy: None, ..m }).1.len() == 0
        }),
{
    law_trimming_blank_text(m.deploy->0.deployer_name);
    law_trimming_blank_text(m.deploy->0.new_version);
}

/// The steps compile, upload, trigger and confirm are marked done up to the one that is under way,
/// which is marked active; in the form and after a failure none is marked.
pub proof fn law_steps_are_marked_in_order(e: Seq<char>, i: int)
    requires
        0 <= i < 4,
    ensures
        step_mark(PhaseView::Form, i) == StepMark::Pending,
        step_mark(PhaseView::Failed(e), i) == StepMark::Pending,
        step_mark(PhaseView::Done, i) == StepMark::Done,
        step_mark(PhaseView::Compiling, i) == if i == 0 {
            StepMark::Active
        } else {
            StepMark::Pending
        },
        step_mark(PhaseView::Uploading, i) == if i == 0 {
            StepMark::Done
        } else if i == 1 {
            StepMark::Active
        } else {
            StepMark::Pending
        },
        step_mark(PhaseView::Publishing, i) == if i <= 1 {
            StepMark::Done
        } else if i == 2 {
            StepMark::Active
        } else {
            StepMark::Pending
        },
        step_mark(PhaseView::Waiting, i) == if i <= 2 {
            StepMark::Done
        } else {
            StepMark::Active
        },
{
}

// ---- The deployment to many devices ----

/// A bulk deployment is active from its start until each of its devices is done or has failed.
pub proof fn law_bulk_is_active_until_all_are_through(m: AppView)
    ensures
        bulk_is_active(m) <==> m.bulk_deploy is Some && !m.bulk_deploy->0.show_form && exists|i: int|
            {
                &&& 0 <= i < m.bulk_deploy->0.devices.len()
                &&& !((#[trigger] m.bulk_deploy->0.devices[i]).phase is Done)
                &&& !(m.bulk_deploy->0.devices[i].phase is Failed)
            },
        in_bulk_form(m) <==> m.bulk_deploy is Some && m.bulk_deploy->0.show_form,
{
}

/// Devices are all through exactly if each is done or has failed.
pub proof fn law_all_are_through(devices: Seq<DeviceBulkView>)
    ensures
        all_over(devices) <==> forall|i: int|
            0 <= i < devices.len() ==> ((#[trigger] devices[i]).phase is Done || devices[i].phase
                is Failed),
{
    if all_over(devices) {
        assert forall|i: int| 0 <= i < devices.len() implies ((#[trigger] devices[i]).phase is Done
            || devices[i].phase is Failed) by {
            assert(is_over(devices[i].phase));
        }
    }
}

/// The form of a bulk deployment holds the devices of the fleet whose ids are selected, in the
/// order of the fleet, each once, whether or not the list shows them: with id, name and folder,
/// queued and without output. The version suggested is the one after that of the first of them, or
/// 1.0.0; nobody is named and no build has begun. Nothing else changes.
pub proof fn law_bulk_form_is_of_the_selected(m: AppView) -> (places: Seq<int>)
    requires
        !bulk_is_active(m),
        exists|i: int|
            0 <= i < m.fleet.devices.len() && m.selected.contains(
                (#[trigger] m.fleet.devices[i]).id,
            ),
    ensures
        ({
            let all = m.fleet.devices;
            let after = bulk_opened(m);
            let b = after.bulk_deploy->0;
            let first = all[places[0]].desired_version;
            &&& after.bulk_deploy is Some
            &&& 0 < places.len() == b.devices.len()
            &&& forall|j: int|
                0 <= j < places.len() ==> {
                    let d = all[places[j]];
                    &&& 0 <= #[trigger] places[j] < all.len()
                    &&& b.devices[j].device_id == d.id
                    &&& b.devices[j].device_name == d.name
                    &&& d.sketch_dir.len() == 0 ==> b.devices[j].sketch_dir == default_sketch_path(
                        m.config.sketch_root,
                        d.id,
                    )
                    &&& d.sketch_dir.len() > 0 ==> b.devices[j].sketch_dir == joined(
                        m.config.sketch_root,
                        d.sketch_dir,
                    )
                    &&& b.devices[j].phase is Form
                    &&& b.devices[j].log.len() == 0
                }
            &&& forall|j: int, k: int| 0 <= j < k < places.len() ==> places[j] < places[k]
            &&& forall|i: int|
                0 <= i < all.len() ==> (places.contains(i) <==> m.selected.contains(
                    (#[trigger] all[i]).id,
                ))
            &&& first.len() == 0 ==> b.form_version == "1.0.0"@
            &&& first.len() > 0 ==> b.form_version == bumped(first)
            &&& b.new_version == b.form_version
            &&& b.deployer_name.len() == 0
            &&& b.form_deployer.len() == 0
            &&& b.sketch_builds == Map::<Seq<char>, BuildView>::empty()
            &&& b.show_form
            &&& after == AppView { bulk_deploy: after.bulk_deploy, ..m }
        }),
{
    let all = m.fleet.devices;
    let pred = |d: DeviceView| m.selected.contains(d.id);
    let places = lemma_filter_places(all, pred);
    assert(chosen(m) == all.filter(pred));
    let i = choose|i: int|
        0 <= i < all.len() && m.selected.contains((#[trigger] all[i]).id);
    assert(pred(all[i]));
    assert(places.contains(i));
    assert(can_open_bulk(m));
    assert(all[places[0]] == chosen(m)[0]);
    assert forall|i: int| 0 <= i < all.len() implies (places.contains(i) <==> m.selected.contains(
        (#[trigger] all[i]).id,
    )) by {
        if places.contains(i) {
            let j = choose|j: int| 0 <= j < places.len() && places[j] == i;
            assert(pred(all[places[j]]));
        }
        assert(pred(all[i]) ==> places.contains(i));
    }
    places
}

/// A device is in the form of a bulk deployment exactly if it is in the fleet and selected: every
/// selected device has an entry, and every entry is that of a selected device. What is searched for
/// makes no difference, and neither does how the list is laid out.
pub proof fn law_bulk_form_does_not_go_by_the_list(
    m: AppView,
    i: int,
    j: int,
    query: Seq<char>,
    mode: ViewMode,
    tab: Tab,
)
    requires
        !bulk_is_active(m),
        0 <= i < m.fleet.devices.len(),
        m.selected.contains(m.fleet.devices[i].id),
    ensures
        ({
            let b = bulk_opened(m).bulk_deploy->0;
            &&& exists|k: int|
                0 <= k < b.devices.len() && (#[trigger] b.devices[k]).device_id
                    == m.fleet.devices[i].id
            &&& 0 <= j < b.devices.len() ==> {
                &&& m.selected.contains(b.devices[j].device_id)
                &&& exists|k: int|
                    0 <= k < m.fleet.devices.len() && (#[trigger] m.fleet.devices[k]).id
                        == b.devices[j].device_id
            }
            &&& bulk_opened(
                AppView { search_query: query, view_mode: mode, tab, ..m },
            ).bulk_deploy == bulk_opened(m).bulk_deploy
        }),
{
    let places = law_bulk_form_is_of_the_selected(m);
    let b = bulk_opened(m).bulk_deploy->0;
    let n = choose|n: int| 0 <= n < places.len() && places[n] == i;
    assert(places.contains(i));
    assert(b.devices[n].device_id == m.fleet.devices[i].id);
    if 0 <= j < b.devices.len() {
        let p = places[j];
        assert(places.contains(p));
        assert(m.fleet.devices[p].id == b.devices[j].device_id);
    }
    let other = AppView { search_query: query, view_mode: mode, tab, ..m };
    let more = law_bulk_form_is_of_the_selected(other);
    let p1 = |d: DeviceView| m.selected.contains(d.id);
    let p2 = |d: DeviceView| other.selected.contains(d.id);
    assert(p1 =~= p2);
    assert(chosen(m) == chosen(other));
    assert(bulk_opened(other).bulk_deploy->0.devices =~= b.devices);
}

/// Without a selected device in the fleet no form of a bulk deployment opens, and none opens while
/// one is active.
pub proof fn law_bulk_form_needs_a_selection(m: AppView)
    ensures
        bulk_is_active(m) ==> bulk_opened(m) == m,
        (forall|i: int|
            0 <= i < m.fleet.devices.len() ==> !m.selected.contains(
                (#[trigger] m.fleet.devices[i]).id,
            )) ==> bulk_opened(m) == m,
{
    let pred = |d: DeviceView| m.selected.contains(d.id);
    let places = lemma_filter_places(m.fleet.devices, pred);
    if forall|i: int|
        0 <= i < m.fleet.devices.len() ==> !m.selected.contains(
            (#[trigger] m.fleet.devices[i]).id,
        ) {
        if places.len() > 0 {
            assert(pred(m.fleet.devices[places[0]]));
        }
        assert(chosen(m).len() == 0);
    }
}

/// What is typed into the form of a bulk deployment is what it holds; once it is started, nothing
/// is taken over any more.
pub proof fn law_bulk_form_is_edited_before_the_start(
    m: AppView,
    deployer: Seq<char>,
    version: Seq<char>,
)
    ensures
        ({
            let after = bulk_edited(m, deployer, version);
            match m.bulk_deploy {
                Some(b) => if b.show_form {
                    after == AppView {
                        bulk_deploy: Some(
                            BulkView { form_deployer: deployer, form_version: version, ..b },
                        ),
                        ..m
                    }
                } else {
                    after == m
                },
                None => after == m,
            }
        }),
{
}

/// A device more among others adds its folder to those to be compiled, at the end, unless one of
/// the others has it.
pub proof fn law_folders_come_in_order(devices: Seq<DeviceBulkView>, d: DeviceBulkView)
    ensures
        distinct_sketches(Seq::empty()).len() == 0,
        (exists|i: int|
            0 <= i < devices.len() && (#[trigger] devices[i]).sketch_dir == d.sketch_dir)
            ==> distinct_sketches(devices.push(d)) == distinct_sketches(devices),
        !(exists|i: int|
            0 <= i < devices.len() && (#[trigger] devices[i]).sketch_dir == d.sketch_dir)
            ==> distinct_sketches(devices.push(d)) == distinct_sketches(devices).push(
            d.sketch_dir,
        ),
{
    law_each_sketch_once(devices);
    assert(devices.push(d).drop_last() =~= devices);
    assert(devices.push(d).last() == d);
}

/// A bulk deployment with a name and a version that are not blank starts: its form is closed, all
/// its devices are being compiled for, as are the builds of their folders; the other builds stay,
/// and so does all else. One compilation is asked for per folder, with the version of the
/// deployment and the board of the settings.
pub proof fn law_bulk_starts_by_compiling(m: AppView, i: int, dir: Seq<char>)
    requires
        m.bulk_deploy is Some,
    ensures
        ({
            let b = m.bulk_deploy->0;
            let (after, actions) = bulk_started(m);
            let c = after.bulk_deploy->0;
            let dirs = distinct_sketches(b.devices);
            if is_blank(b.deployer_name) || is_blank(b.new_version) {
                after == m && actions.len() == 0
            } else {
                &&& after.bulk_deploy is Some
                &&& !c.show_form
                &&& c.devices.len() == b.devices.len()
                &&& 0 <= i < b.devices.len() ==> c.devices[i] == DeviceBulkView {
                    phase: PhaseView::Compiling,
                    ..b.devices[i]
                }
                &&& dirs.contains(dir) ==> c.sketch_builds.contains_key(dir)
                    && c.sketch_builds[dir] is Compiling
                &&& !dirs.contains(dir) ==> c.sketch_builds.contains_key(dir)
                    == b.sketch_builds.contains_key(dir)
                &&& !dirs.contains(dir) && b.sketch_builds.contains_key(dir) ==> c.sketch_builds[dir]
                    == b.sketch_builds[dir]
                &&& c == BulkView {
                    show_form: c.show_form,
                    devices: c.devices,
                    sketch_builds: c.sketch_builds,
                    ..b
                }
                &&& after == AppView { bulk_deploy: after.bulk_deploy, ..m }
                &&& actions.len() == dirs.len()
                &&& 0 <= i < dirs.len() ==> actions[i] == ActionView::BulkCompile {
                    sketch_dir: dirs[i],
                    version: b.new_version,
                    fqbn: m.config.fqbn,
                }
            }
        }),
{
    law_trimming_blank_text(m.bulk_deploy->0.deployer_name);
    law_trimming_blank_text(m.bulk_deploy->0.new_version);
}

/// Sending off the form of a bulk deployment takes over the name and the version in it, without
/// white space at their ends, and starts with these; a deployment that was started, or none, stays
/// as it is.
pub proof fn law_bulk_form_is_taken_over(m: AppView)
    ensures
        ({
            let (after, actions) = bulk_submitted(m);
            match m.bulk_deploy {
                Some(b) => {
                    let taken = AppView {
                        bulk_deploy: Some(
                            BulkView {
                                deployer_name: trimmed(b.form_deployer),
                                new_version: trimmed(b.form_version),
                                ..b
                            },
                        ),
                        ..m
                    };
                    let c = after.bulk_deploy->0;
                    &&& !b.show_form ==> after == m && actions.len() == 0
                    &&& b.show_form ==> {
                        &&& c.deployer_name == trimmed(b.form_deployer)
                        &&& c.new_version == trimmed(b.form_version)
                        &&& (after, actions) == bulk_started(taken)
                        &&& is_blank(b.form_deployer) || is_blank(b.form_version) ==> after == taken
                            && actions.len() == 0
                        &&& !is_blank(b.form_deployer) && !is_blank(b.form_version)
                            ==> !c.show_form
                    }
                },
                None => after == m && actions.len() == 0,
            }
        }),
{
    if m.bulk_deploy is Some {
        let b = m.bulk_deploy->0;
        law_trimming_blank_text(b.form_deployer);
        law_trimming_blank_text(b.form_version);
        crate::text::law_trimming_once(b.form_deployer);
        crate::text::law_trimming_once(b.form_version);
    }
}

/// Each device counts once if its phase is of the kind, and not at all if it is not.
pub proof fn law_each_device_counts_once(
    devices: Seq<DeviceBulkView>,
    d: DeviceBulkView,
    kind: spec_fn(PhaseView) -> bool,
)
    ensures
        count(Seq::empty(), kind) == 0,
        kind(d.phase) ==> count(devices.push(d), kind) == count(devices, kind) + 1,
        !kind(d.phase) ==> count(devices.push(d), kind) == count(devices, kind),
{
    assert(devices.push(d).drop_last() =~= devices);
    assert(devices.push(d).last() == d);
}

/// What each phase is called, how far it is and whether it counts as in progress or as over.
pub proof fn law_phases_are_shown(e: Seq<char>)
    ensures
        phase_name(PhaseView::Form) == "Queued"@,
        phase_name(PhaseView::Compiling) == "Compiling…"@,
        phase_name(PhaseView::Uploading) == "Uploading…"@,
        phase_name(PhaseView::Publishing) == "Sending OTA…"@,
        phase_name(PhaseView::Waiting) == "Waiting…"@,
        phase_name(PhaseView::Done) == "Done ✓"@,
        phase_name(PhaseView::Failed(e)) == "Failed ✗"@,
        phase_progress(PhaseView::Form) == 0,
        phase_progress(PhaseView::Compiling) == 20,
        phase_progress(PhaseView::Uploading) == 45,
        phase_progress(PhaseView::Publishing) == 70,
        phase_progress(PhaseView::Waiting) == 85,
        phase_progress(PhaseView::Done) == 100,
        phase_progress(PhaseView::Failed(e)) == 0,
        is_in_progress(PhaseView::Form),
        is_in_progress(PhaseView::Compiling),
        is_in_progress(PhaseView::Uploading),
        is_in_progress(PhaseView::Publishing),
        !is_in_progress(PhaseView::Waiting),
        !is_in_progress(PhaseView::Done),
        !is_in_progress(PhaseView::Failed(e)),
        is_over(PhaseView::Done),
        is_over(PhaseView::Failed(e)),
        !is_over(PhaseView::Form),
        !is_over(PhaseView::Compiling),
        !is_over(PhaseView::Uploading),
        !is_over(PhaseView::Publishing),
        !is_over(PhaseView::Waiting),
{
}

} // verus!
