//! The list of devices: searching it, selecting from it, and what a row of it shows.
use vstd::prelude::*;
use vstd::string::*;
use crate::app::App;
use crate::model::AppView;
use crate::outside::lowercase;
use crate::text::{contains, lemma_views_push, occurs_in, same, starts_with, trim, trimmed, views};
use crate::types::{clone_devices, DeployRecord, Device, DeviceView, Tab, ViewMode};
use crate::version::{parse_version_from_status, reported_version};

verus! {

/// What is searched for, given what was typed.
pub open spec fn query_of(typed: Seq<char>) -> Seq<char> {
    lowercase(trimmed(typed))
}

/// The texts of a device that a search looks at, its name and its id, in lower case.
pub open spec fn search_texts_of(d: DeviceView) -> Seq<Seq<char>> {
    seq![lowercase(d.name), lowercase(d.id)]
}

/// The query occurs in one of the texts.
pub open spec fn found_in(query: Seq<char>, texts: Seq<Seq<char>>) -> bool {
    exists|i: int| 0 <= i < texts.len() && occurs_in(query, #[trigger] texts[i])
}

/// The devices that a search leaves in the list, in their order; an empty query leaves all.
pub open spec fn searched(devices: Seq<DeviceView>, query: Seq<char>) -> Seq<DeviceView> {
    if query.len() == 0 {
        devices
    } else {
        devices.filter(|d: DeviceView| found_in(query, search_texts_of(d)))
    }
}

/// The devices in the list.
pub open spec fn visible(m: AppView) -> Seq<DeviceView> {
    searched(m.fleet.devices, query_of(m.search_query))
}

/// The ids of devices.
pub open spec fn ids_of(devices: Seq<DeviceView>) -> Set<Seq<char>> {
    devices.map_values(|d: DeviceView| d.id).to_set()
}

/// Tells whether a query occurs in one of the texts.
pub fn has_query(texts: &Vec<String>, query: &str) -> (r: bool)
    ensures
        r == found_in(query@, views(texts@)),
{
    let mut i: usize = 0;
    while i < texts.len()
        invariant
            i <= texts@.len(),
            forall|k: int| 0 <= k < i ==> !occurs_in(query@, #[trigger] views(texts@)[k]),
        decreases texts.len() - i,
    {
        assert(views(texts@)[i as int] == texts@[i as int]@);
        if contains(&texts[i], query) {
            return true;
        }
        i = i + 1;
    }
    false
}

/// The texts of a device that a search looks at.
pub fn search_texts(device: &Device) -> (r: Vec<String>)
    ensures
        views(r@) == search_texts_of(device@),
{
    let mut r: Vec<String> = Vec::new();
    r.push(device.name.as_str().to_lowercase());
    r.push(device.id.as_str().to_lowercase());
    assert(views(r@) =~= search_texts_of(device@));
    r
}

/// The devices that a search for `query` leaves.
pub fn search_devices(devices: &Vec<Device>, query: &str) -> (r: Vec<Device>)
    ensures
        views(r@) == searched(views(devices@), query@),
{
    broadcast use lemma_views_push;

    if query.is_empty() {
        return clone_devices(devices);
    }
    let ghost pred = |d: DeviceView| found_in(query@, search_texts_of(d));
    let ghost all = views(devices@);
    let mut r: Vec<Device> = Vec::new();
    proof {
        reveal(Seq::filter);
        assert(views(r@) =~= all.take(0).filter(pred));
    }
    let mut i: usize = 0;
    while i < devices.len()
        invariant
            i <= devices@.len(),
            all == views(devices@),
            pred == (|d: DeviceView| found_in(query@, search_texts_of(d))),
            views(r@) == all.take(i as int).filter(pred),
        decreases devices.len() - i,
    {
        proof {
            reveal(Seq::filter);
            assert(all.take(i + 1).drop_last() =~= all.take(i as int));
            assert(all.take(i + 1).last() == devices@[i as int]@);
        }
        if has_query(&search_texts(&devices[i]), query) {
            r.push(devices[i].clone());
        }
        i = i + 1;
    }
    assert(all.take(all.len() as int) =~= all);
    r
}

/// What is in place of the list, or the list.
#[derive(Debug, PartialEq)]
pub enum DeviceList {
    /// No device is registered.
    NoDevices,
    /// No device is what was searched for.
    NoMatch,
    /// These devices.
    Devices(Vec<Device>),
}

/// How the version that a device runs compares with the one that was deployed to it.
#[derive(Debug, PartialEq)]
pub enum Running {
    /// The device has not said what it runs.
    Unknown,
    /// It runs this version, which was deployed to it last.
    Current(String),
    /// It runs this version, which is another one.
    Other(String),
}

/// The running version of a device that reported `status`.
pub open spec fn is_running(r: Running, status: Seq<char>, desired: Seq<char>) -> bool {
    match reported_version(status) {
        None => r is Unknown,
        Some(v) => if v == desired {
            r matches Running::Current(s) && s@ == v
        } else {
            r matches Running::Other(s) && s@ == v
        },
    }
}

/// The last status of a device; empty if it reported none.
pub open spec fn status_of(m: AppView, id: Seq<char>) -> Seq<char> {
    if m.mqtt_status.contains_key(id) {
        m.mqtt_status[id]
    } else {
        Seq::empty()
    }
}

/// How the version deployed to a device is shown.
pub open spec fn deployed_label(desired: Seq<char>) -> Seq<char> {
    if desired.len() == 0 {
        "—"@
    } else {
        "v"@ + desired
    }
}

/// What a row of the list shows.
#[derive(Debug, PartialEq)]
pub struct DeviceRow {
    /// The device is selected.
    pub checked: bool,
    /// The device is connected.
    pub online: bool,
    /// The version that was deployed to it.
    pub deployed: String,
    /// The version that it runs.
    pub running: Running,
}

/// How the version that a device runs is shown.
pub fn running_label(running: &Running) -> (r: String)
    ensures
        r@ == match *running {
            Running::Unknown => "—"@,
            Running::Current(v) => "v"@ + v@ + " ✓"@,
            Running::Other(v) => "v"@ + v@ + " ⚠"@,
        },
{
    match running {
        Running::Unknown => "—".to_owned(),
        Running::Current(v) => "v".to_owned().concat(v).concat(" ✓"),
        Running::Other(v) => "v".to_owned().concat(v).concat(" ⚠"),
    }
}

impl App {
    /// The devices in the list.
    pub fn filtered_devices(&self) -> (r: Vec<Device>)
        ensures
            views(r@) == visible(self@),
    {
        let query: String = trim(&self.search_query).as_str().to_lowercase();
        search_devices(&self.fleet.devices, &query)
    }

    /// What the page of devices shows.
    pub fn device_list(&self) -> (r: DeviceList)
        ensures
            match r {
                DeviceList::NoDevices => self@.fleet.devices.len() == 0 && visible(self@).len() == 0,
                DeviceList::NoMatch => self@.fleet.devices.len() > 0 && visible(self@).len() == 0,
                DeviceList::Devices(v) => visible(self@).len() > 0 && views(v@) == visible(self@),
            },
    {
        let devices: Vec<Device> = self.filtered_devices();
        if devices.len() > 0 {
            DeviceList::Devices(devices)
        } else if self.fleet.devices.len() == 0 {
            DeviceList::NoDevices
        } else {
            DeviceList::NoMatch
        }
    }

    /// What the row of a device shows.
    pub fn device_row(&self, device: &Device) -> (r: DeviceRow)
        ensures
            r.checked == self@.selected.contains(device.id@),
            r.online == "ONLINE"@.is_prefix_of(status_of(self@, device.id@)),
            r.deployed@ == deployed_label(device.desired_version@),
            is_running(r.running, status_of(self@, device.id@), device.desired_version@),
    {
        let status: String = match self.mqtt_status.get(&device.id) {
            Some(s) => s.clone(),
            None => String::new(),
        };
        assert(status@ =~= status_of(self@, device.id@));
        let deployed: String = if device.desired_version.as_str().is_empty() {
            "—".to_owned()
        } else {
            "v".to_owned().concat(&device.desired_version)
        };
        let running: Running = match parse_version_from_status(&status) {
            None => Running::Unknown,
            Some(v) => if same(&v, &device.desired_version) {
                Running::Current(v)
            } else {
                Running::Other(v)
            },
        };
        DeviceRow {
            checked: self.selected.contains(&device.id),
            online: starts_with(&status, "ONLINE"),
            deployed,
            running,
        }
    }

    /// Selects a device, or takes it out of the selection.
    pub fn set_selected(&mut self, id: &str, selected: bool)
        ensures
            final(self)@ == (AppView {
                selected: if selected {
                    old(self)@.selected.insert(id@)
                } else {
                    old(self)@.selected.remove(id@)
                },
                ..old(self)@
            }),
    {
        if selected {
            self.selected.insert(id.to_owned());
        } else {
            self.selected.remove(id);
        }
        assert(self@ =~= AppView { selected: self@.selected, ..old(self)@ });
    }

    /// Tells whether there are devices in the list and all of them are selected.
    pub fn all_visible_selected(&self) -> (r: bool)
        ensures
            r == (visible(self@).len() > 0 && ids_of(visible(self@)).subset_of(self@.selected)),
    {
        let devices: Vec<Device> = self.filtered_devices();
        let ghost ids = views(devices@).map_values(|d: DeviceView| d.id);
        if devices.len() == 0 {
            return false;
        }
        let mut i: usize = 0;
        while i < devices.len()
            invariant
                i <= devices@.len(),
                ids == views(devices@).map_values(|d: DeviceView| d.id),
                ids_of(visible(self@)) == ids.to_set(),
                forall|k: int| 0 <= k < i ==> self@.selected.contains(#[trigger] ids[k]),
            decreases devices.len() - i,
        {
            assert(ids[i as int] == devices@[i as int].id@);
            if !self.selected.contains(&devices[i].id) {
                assert(ids.to_set().contains(ids[i as int]));
                return false;
            }
            i = i + 1;
        }
        assert forall|id: Seq<char>| #[trigger] ids.to_set().contains(
            id,
        ) implies self@.selected.contains(id) by {
            let k = choose|k: int| 0 <= k < ids.len() && ids[k] == id;
            assert(self@.selected.contains(ids[k]));
        }
        true
    }

    /// Selects all devices in the list, or takes them all out of the selection.
    pub fn set_all_visible_selected(&mut self, selected: bool)
        ensures
            final(self)@ == (AppView {
                selected: if selected {
                    old(self)@.selected.union(ids_of(visible(old(self)@)))
                } else {
                    old(self)@.selected.difference(ids_of(visible(old(self)@)))
                },
                ..old(self)@
            }),
    {
        let devices: Vec<Device> = self.filtered_devices();
        let ghost ids = views(devices@).map_values(|d: DeviceView| d.id);
        let ghost before = old(self)@.selected;
        let mut i: usize = 0;
        while i < devices.len()
            invariant
                i <= devices@.len(),
                ids == views(devices@).map_values(|d: DeviceView| d.id),
                before == old(self)@.selected,
                self@ == (AppView { selected: self@.selected, ..old(self)@ }),
                forall|id: Seq<char>| #[trigger]
                    self@.selected.contains(id) <==> if selected {
                        before.contains(id) || ids.take(i as int).contains(id)
                    } else {
                        before.contains(id) && !ids.take(i as int).contains(id)
                    },
            decreases devices.len() - i,
        {
            self.set_selected(&devices[i].id, selected);
            proof {
                let new = ids[i as int];
                assert(new == devices@[i as int].id@);
                assert(ids.take(i + 1) =~= ids.take(i as int).push(new));
                assert forall|id: Seq<char>| #[trigger]
                    self@.selected.contains(id) <==> if selected {
                        before.contains(id) || ids.take(i + 1).contains(id)
                    } else {
                        before.contains(id) && !ids.take(i + 1).contains(id)
                    } by {
                    lemma_push_contains(ids.take(i as int), new, id);
                }
            }
            i = i + 1;
        }
        assert(ids.take(devices@.len() as int) =~= ids);
        assert(self@.selected =~= if selected {
            before.union(ids.to_set())
        } else {
            before.difference(ids.to_set())
        });
    }

    /// Selects nothing.
    pub fn clear_selection(&mut self)
        ensures
            final(self)@ == (AppView { selected: Set::empty(), ..old(self)@ }),
    {
        self.selected.clear();
        assert(self@ =~= AppView { selected: Set::empty(), ..old(self)@ });
    }

    /// Searches the list for `query`.
    pub fn set_search(&mut self, query: String)
        ensures
            final(self)@ == (AppView { search_query: query@, ..old(self)@ }),
    {
        self.search_query = query;
        assert(self@ =~= AppView { search_query: query@, ..old(self)@ });
    }

    /// Turns from cards to the list, or back.
    pub fn toggle_view(&mut self)
        ensures
            final(self)@ == (AppView {
                view_mode: match old(self)@.view_mode {
                    ViewMode::Cards => ViewMode::List,
                    ViewMode::List => ViewMode::Cards,
                },
                ..old(self)@
            }),
    {
        self.view_mode = match self.view_mode {
            ViewMode::Cards => ViewMode::List,
            ViewMode::List => ViewMode::Cards,
        };
        assert(self@ =~= AppView { view_mode: self.view_mode, ..old(self)@ });
    }

    /// Turns to a page.
    pub fn set_tab(&mut self, tab: Tab)
        ensures
            final(self)@ == (AppView { tab, ..old(self)@ }),
    {
        self.tab = tab;
        assert(self@ =~= AppView { tab, ..old(self)@ });
    }

    /// The deployments, the latest first.
    pub fn history(&self) -> (r: Vec<DeployRecord>)
        ensures
            views(r@) == self@.fleet.deploy_history.reverse(),
    {
        broadcast use lemma_views_push;

        let records: &Vec<DeployRecord> = &self.fleet.deploy_history;
        let ghost all = views(records@).reverse();
        let mut r: Vec<DeployRecord> = Vec::new();
        assert(views(r@) =~= all.take(0));
        let n: usize = records.len();
        let mut i: usize = 0;
        while i < n
            invariant
                i <= n,
                n == records@.len(),
                all == views(records@).reverse(),
                views(r@) == all.take(i as int),
            decreases n - i,
        {
            r.push(records[n - 1 - i].clone());
            assert(all[i as int] == records@[n - 1 - i]@);
            assert(all.take(i + 1) =~= all.take(i as int).push(all[i as int]));
            i = i + 1;
        }
        assert(all.take(n as int) =~= all);
        r
    }
}

/// A search never shows a device that is not registered, nor changes one; it shows exactly the
/// devices that the query occurs in.
pub proof fn law_search_shows_matches(devices: Seq<DeviceView>, query: Seq<char>, d: DeviceView)
    requires
        query.len() > 0,
    ensures
        searched(devices, query).contains(d) <==> devices.contains(d) && found_in(
            query,
            search_texts_of(d),
        ),
        searched(devices, query).len() <= devices.len(),
{
    let pred = |d: DeviceView| found_in(query, search_texts_of(d));
    lemma_filter_contains(devices, pred, d);
}

/// A filtered sequence holds what the sequence holds and the filter lets through.
proof fn lemma_filter_contains<A>(s: Seq<A>, pred: spec_fn(A) -> bool, a: A)
    ensures
        s.filter(pred).contains(a) <==> s.contains(a) && pred(a),
        s.filter(pred).len() <= s.len(),
    decreases s.len(),
{
    reveal(Seq::filter);
    if s.len() > 0 {
        let shorter = s.drop_last();
        lemma_filter_contains(shorter, pred, a);
        assert(s =~= shorter.push(s.last()));
        lemma_push_contains(shorter, s.last(), a);
        lemma_push_contains(shorter.filter(pred), s.last(), a);
    }
}

proof fn lemma_push_contains<A>(s: Seq<A>, last: A, a: A)
    ensures
        s.push(last).contains(a) <==> s.contains(a) || a == last,
{
    if s.contains(a) {
        let k = choose|k: int| 0 <= k < s.len() && s[k] == a;
        assert(s.push(last)[k] == a);
    }
    if a == last {
        assert(s.push(last)[s.len() as int] == a);
    }
}

/// Selecting all devices in the list leaves what was selected before selected, selects no device
/// outside the list, and has all in the list selected; taking them out again leaves the selection
/// without them.
pub proof fn law_select_all_is_of_the_list(m: AppView, id: Seq<char>)
    ensures
        m.selected.subset_of(m.selected.union(ids_of(visible(m)))),
        ids_of(visible(m)).subset_of(m.selected.union(ids_of(visible(m)))),
        !ids_of(visible(m)).contains(id) ==> m.selected.union(ids_of(visible(m))).contains(id)
            == m.selected.contains(id),
        m.selected.union(ids_of(visible(m))).difference(ids_of(visible(m)))
            == m.selected.difference(ids_of(visible(m))),
{
    assert(m.selected.union(ids_of(visible(m))).difference(ids_of(visible(m)))
        =~= m.selected.difference(ids_of(visible(m))));
}

} // verus!
