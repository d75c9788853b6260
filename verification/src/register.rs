//! Registering a device.
use vstd::prelude::*;
use vstd::string::*;
use crate::app::{no_action, one_action, Action, App};
use crate::ids::{
    ascii_suggestion, ascii_suggestion_fits, ids_are_ascii, suggest_next_id, suggested_id,
    suggestion_fits, try_suggest_next_id,
};
use crate::model::{nothing, notified, save_of, ActionView, AppView};
use crate::outside::utc_now;
use crate::paths::{default_sketch_dir, default_sketch_path};
use crate::text::{
    law_split_counts, law_split_pieces, law_trimming_once, lemma_views_push, same, split, split_on,
    trim, trimmed, views,
};
use crate::topics::{topic, topic_of, topics, topics_of};
use crate::types::{AddForm, AddFormView, Device, DeviceView, FleetView};

verus! {

/// The form with nothing in it.
pub open spec fn empty_form() -> AddFormView {
    AddFormView {
        by_name: Seq::empty(),
        company: Seq::empty(),
        device_name: Seq::empty(),
        device_id: Seq::empty(),
        sketch_dir: Seq::empty(),
        version: Seq::empty(),
        tags_input: Seq::empty(),
        error: Seq::empty(),
    }
}

impl Default for AddForm {
    fn default() -> (r: Self)
        ensures
            r@ == empty_form(),
    {
        let r: AddForm = AddForm {
            by_name: String::new(),
            company: String::new(),
            device_name: String::new(),
            device_id: String::new(),
            sketch_dir: String::new(),
            version: String::new(),
            tags_input: String::new(),
            error: String::new(),
        };
        assert(r@ =~= empty_form());
        r
    }
}

/// The form as it is opened: a version, and the id and the folder that come next, if an id can be
/// suggested.
pub open spec fn fresh_form(root: Seq<char>, id: Seq<char>) -> AddFormView {
    AddFormView {
        version: "1.0.0"@,
        device_id: id,
        sketch_dir: if id.len() == 0 {
            Seq::empty()
        } else {
            default_sketch_path(root, id)
        },
        ..empty_form()
    }
}

/// The state with the form open that suggests `id`.
pub open spec fn add_opened(m: AppView, id: Seq<char>) -> AppView {
    AppView {
        show_settings: false,
        show_add: true,
        add_form: fresh_form(m.config.sketch_root, id),
        ..m
    }
}

/// All that a device must have is filled in.
pub open spec fn is_complete(f: AddFormView) -> bool {
    &&& trimmed(f.by_name).len() > 0
    &&& trimmed(f.device_name).len() > 0
    &&& trimmed(f.device_id).len() > 0
    &&& trimmed(f.version).len() > 0
}

/// A device has this id.
pub open spec fn is_taken(devices: Seq<DeviceView>, id: Seq<char>) -> bool {
    exists|i: int| 0 <= i < devices.len() && (#[trigger] devices[i]).id == id
}

/// The labels in a list with commas: the pieces between the commas, without white space at their
/// ends.
pub open spec fn tags_of(input: Seq<char>) -> Seq<Seq<char>> {
    split_on(input, ',').map_values(|s: Seq<char>| trimmed(s))
}

/// The device that a form describes, registered at `stamp`.
pub open spec fn device_of(f: AddFormView, stamp: Seq<char>) -> DeviceView {
    DeviceView {
        id: trimmed(f.device_id),
        name: trimmed(f.device_name),
        company: trimmed(f.company),
        sketch_dir: trimmed(f.sketch_dir),
        topics: topics_of(trimmed(f.device_id)),
        desired_version: trimmed(f.version),
        last_deploy_by: Seq::empty(),
        added_by: trimmed(f.by_name),
        added_at: stamp,
        tags: tags_of(f.tags_input),
    }
}

/// The state with the form refused.
pub open spec fn refused(m: AppView, error: Seq<char>) -> AppView {
    AppView { add_form: AddFormView { error, ..m.add_form }, ..m }
}

/// The form was sent off at `stamp`: the device is registered and the fleet stored, unless the
/// form is not complete or the id is taken.
pub open spec fn device_added(m: AppView, stamp: Seq<char>, at_ms: u64) -> (
    AppView,
    Seq<ActionView>,
) {
    let f = m.add_form;
    if !is_complete(f) {
        (refused(m, "All fields (except company) are required."@), nothing())
    } else if is_taken(m.fleet.devices, f.device_id) {
        (refused(m, "Device '"@ + f.device_id + "' already exists."@), nothing())
    } else {
        let fleet = FleetView { devices: m.fleet.devices.push(device_of(f, stamp)), ..m.fleet };
        (
            AppView {
                fleet,
                show_add: false,
                add_form: empty_form(),
                ..notified(m, "Device '"@ + trimmed(f.device_id) + "' added."@, false, at_ms)
            },
            seq![save_of(fleet, m.config)],
        )
    }
}

/// The labels in a list with commas.
pub fn parse_tags(input: &str) -> (r: Vec<String>)
    ensures
        views(r@) == tags_of(input@),
{
    broadcast use lemma_views_push;

    let parts: Vec<String> = split(input, ',');
    let ghost all = tags_of(input@);
    let mut r: Vec<String> = Vec::new();
    assert(views(r@) =~= all.take(0));
    let mut i: usize = 0;
    while i < parts.len()
        invariant
            i <= parts@.len(),
            all == views(parts@).map_values(|s: Seq<char>| trimmed(s)),
            views(r@) == all.take(i as int),
        decreases parts.len() - i,
    {
        r.push(trim(&parts[i]));
        assert(all[i as int] == trimmed(parts@[i as int]@));
        assert(all.take(i + 1) =~= all.take(i as int).push(all[i as int]));
        i = i + 1;
    }
    assert(all.take(all.len() as int) =~= all);
    r
}

/// The topics that a device of this id will have, as they are shown in the form.
pub fn topics_preview(id: &str) -> (r: Vec<String>)
    ensures
        views(r@) == if id@.len() == 0 {
            Seq::empty()
        } else {
            seq![topic_of(id@, "cmd"@), topic_of(id@, "status"@), topic_of(id@, "ota"@)]
        },
{
    let mut r: Vec<String> = Vec::new();
    if !id.is_empty() {
        r.push(topic(id, "cmd"));
        r.push(topic(id, "status"));
        r.push(topic(id, "ota"));
        assert(views(r@) =~= seq![
            topic_of(id@, "cmd"@),
            topic_of(id@, "status"@),
            topic_of(id@, "ota"@),
        ]);
    } else {
        assert(views(r@) =~= Seq::<Seq<char>>::empty());
    }
    r
}

fn has_id(devices: &Vec<Device>, id: &str) -> (r: bool)
    ensures
        r == is_taken(views(devices@), id@),
{
    let mut i: usize = 0;
    while i < devices.len()
        invariant
            i <= devices@.len(),
            forall|k: int| 0 <= k < i ==> (#[trigger] views(devices@)[k]).id != id@,
        decreases devices.len() - i,
    {
        assert(views(devices@)[i as int] == devices@[i as int]@);
        if same(&devices[i].id, id) {
            return true;
        }
        i = i + 1;
    }
    false
}

fn complete(f: &AddForm) -> (r: bool)
    ensures
        r == is_complete(f@),
{
    !trim(&f.by_name).as_str().is_empty() && !trim(&f.device_name).as_str().is_empty() && !trim(
        &f.device_id,
    ).as_str().is_empty() && !trim(&f.version).as_str().is_empty()
}

fn make_device(f: &AddForm, stamp: String) -> (r: Device)
    ensures
        r@ == device_of(f@, stamp@),
{
    let id: String = trim(&f.device_id);
    let r: Device = Device {
        topics: topics(&id),
        id,
        name: trim(&f.device_name),
        company: trim(&f.company),
        sketch_dir: trim(&f.sketch_dir),
        desired_version: trim(&f.version),
        last_deploy_by: String::new(),
        added_by: trim(&f.by_name),
        added_at: stamp,
        tags: parse_tags(&f.tags_input),
    };
    assert(r@ =~= device_of(f@, stamp@));
    r
}

impl App {
    /// Opens the form with `id` as the suggestion.
    pub fn open_add_form_with(&mut self, id: String)
        ensures
            final(self)@ == add_opened(old(self)@, id@),
    {
        let sketch_dir: String = if id.as_str().is_empty() {
            String::new()
        } else {
            default_sketch_dir(&self.config.sketch_root, &id)
        };
        let mut form: AddForm = AddForm::default();
        form.version = "1.0.0".to_owned();
        form.device_id = id;
        form.sketch_dir = sketch_dir;
        assert(form@ =~= fresh_form(self@.config.sketch_root, id@));
        self.show_settings = false;
        self.add_form = form;
        self.show_add = true;
        assert(self@ =~= add_opened(old(self)@, id@));
    }

    /// Opens the form that registers a device.
    pub fn open_add_form(&mut self)
        requires
            suggestion_fits(old(self)@.fleet.devices),
        ensures
            final(self)@ == add_opened(old(self)@, suggested_id(old(self)@.fleet.devices)),
            ids_are_ascii(old(self)@.fleet.devices) ==> final(self)@ == add_opened(
                old(self)@,
                ascii_suggestion(old(self)@.fleet.devices),
            ),
    {
        let id: String = suggest_next_id(&self.fleet.devices);
        self.open_add_form_with(id);
    }

    /// Opens the form that registers a device, unless the last number has no successor.
    pub fn try_open_add_form(&mut self) -> (r: bool)
        ensures
            r == suggestion_fits(old(self)@.fleet.devices),
            final(self)@ == if r {
                add_opened(old(self)@, suggested_id(old(self)@.fleet.devices))
            } else {
                old(self)@
            },
            ids_are_ascii(old(self)@.fleet.devices) ==> r == ascii_suggestion_fits(
                old(self)@.fleet.devices,
            ),
            r && ids_are_ascii(old(self)@.fleet.devices) ==> final(self)@ == add_opened(
                old(self)@,
                ascii_suggestion(old(self)@.fleet.devices),
            ),
    {
        if try_suggest_next_id(&self.fleet.devices).is_none() {
            return false;
        }
        self.open_add_form();
        true
    }

    /// Takes over what the form holds; why it was refused stays.
    pub fn edit_add_form(&mut self, form: AddForm)
        ensures
            final(self)@ == (AppView {
                add_form: AddFormView { error: old(self)@.add_form.error, ..form@ },
                ..old(self)@
            }),
    {
        self.add_form.by_name = form.by_name;
        self.add_form.company = form.company;
        self.add_form.device_name = form.device_name;
        self.add_form.device_id = form.device_id;
        self.add_form.version = form.version;
        self.add_form.sketch_dir = form.sketch_dir;
        self.add_form.tags_input = form.tags_input;
        assert(self@ =~= AppView {
            add_form: AddFormView { error: old(self)@.add_form.error, ..form@ },
            ..old(self)@
        });
    }

    /// Closes the form.
    pub fn close_add_form(&mut self)
        ensures
            final(self)@ == (AppView { show_add: false, ..old(self)@ }),
    {
        self.show_add = false;
        assert(self@ =~= AppView { show_add: false, ..old(self)@ });
    }

    /// Registers the device that the form describes at a given time.
    pub fn do_add_device_at(&mut self, stamp: String, at_ms: u64) -> (r: Vec<Action>)
        ensures
            (final(self)@, views(r@)) == device_added(old(self)@, stamp@, at_ms),
    {
        broadcast use lemma_views_push;

        if !complete(&self.add_form) {
            self.add_form.error = "All fields (except company) are required.".to_owned();
            assert(self@ =~= device_added(old(self)@, stamp@, at_ms).0);
            return no_action();
        }
        if has_id(&self.fleet.devices, &self.add_form.device_id) {
            self.add_form.error = "Device '".to_owned().concat(&self.add_form.device_id).concat(
                "' already exists.",
            );
            assert(self@ =~= device_added(old(self)@, stamp@, at_ms).0);
            return no_action();
        }
        let device: Device = make_device(&self.add_form, stamp);
        let msg: String = "Device '".to_owned().concat(&device.id).concat("' added.");
        self.fleet.devices.push(device);
        let save: Action = self.save_fleet();
        self.notify(msg, false, at_ms);
        self.show_add = false;
        self.add_form = AddForm::default();
        assert(self@ =~= device_added(old(self)@, stamp@, at_ms).0);
        one_action(save)
    }

    /// Registers the device that the form describes now.
    pub fn do_add_device(&mut self, at_ms: u64) -> (r: Vec<Action>)
        ensures
            exists|stamp: Seq<char>|
                "+00:00"@.is_suffix_of(stamp) && (final(self)@, views(r@))
                    == #[trigger] device_added(old(self)@, stamp, at_ms),
    {
        let stamp: String = utc_now();
        self.do_add_device_at(stamp, at_ms)
    }
}

/// No two devices have the same id.
pub open spec fn ids_differ(devices: Seq<DeviceView>) -> bool {
    forall|i: int, j: int|
        0 <= i < j < devices.len() ==> (#[trigger] devices[i]).id != (#[trigger] devices[j]).id
}

/// Registering a device keeps the ids apart, as long as the id was typed without white space at
/// its ends.
pub proof fn law_registering_keeps_ids_apart(m: AppView, stamp: Seq<char>, at_ms: u64)
    requires
        ids_differ(m.fleet.devices),
        trimmed(m.add_form.device_id) == m.add_form.device_id,
    ensures
        ids_differ(device_added(m, stamp, at_ms).0.fleet.devices),
{
}

/// A form is either refused, with no change but the reason, or it adds exactly one device at the
/// end of the fleet, whose topics are those of its id, and the fleet that is stored is the new one.
pub proof fn law_registering_adds_one_or_none(m: AppView, stamp: Seq<char>, at_ms: u64)
    ensures
        ({
            let (after, actions) = device_added(m, stamp, at_ms);
            if is_complete(m.add_form) && !is_taken(m.fleet.devices, m.add_form.device_id) {
                &&& after.fleet.devices.len() == m.fleet.devices.len() + 1
                &&& after.fleet.devices.drop_last() == m.fleet.devices
                &&& after.fleet.devices.last().id == trimmed(m.add_form.device_id)
                &&& after.fleet.devices.last().topics == topics_of(after.fleet.devices.last().id)
                &&& after.fleet.deploy_history == m.fleet.deploy_history
                &&& actions == seq![save_of(after.fleet, m.config)]
            } else {
                &&& after.fleet == m.fleet
                &&& after.add_form.error.len() > 0
                &&& after == refused(m, after.add_form.error)
                &&& actions.len() == 0
            }
        }),
{
    reveal_strlit("All fields (except company) are required.");
    reveal_strlit("' already exists.");
    let (after, actions) = device_added(m, stamp, at_ms);
    if is_complete(m.add_form) && !is_taken(m.fleet.devices, m.add_form.device_id) {
        assert(after.fleet.devices.drop_last() =~= m.fleet.devices);
    }
}

/// There is one label more than there are commas, and labels hold no comma and have no white space
/// at their ends.
pub proof fn law_tags_are_clean(input: Seq<char>, i: int)
    requires
        0 <= i < tags_of(input).len(),
    ensures
        tags_of(input).len() == input.filter(|c: char| c == ',').len() + 1,
        trimmed(tags_of(input)[i]) == tags_of(input)[i],
        !tags_of(input)[i].contains(','),
{
    let piece = split_on(input, ',')[i];
    law_split_pieces(input, ',');
    law_split_counts(input, ',');
    law_trimming_once(piece);
    if trimmed(piece).contains(',') {
        assert(piece.contains(','));
    }
}

} // verus!
