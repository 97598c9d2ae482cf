//! The topology store: for each key, a fingerprint or a label, the topology
//! that was last saved under it.

use crate::command::{command_views, HyprdockCommand};
use crate::monitors::hypr_monitors::{
    converted_all, copy_topology, fingerprint, get_current_monitor_hash, replay_commands,
    set_hypr_monitors_from_hyprvec, topology, HyprMonitor, HyprMonitorView,
};
use crate::text::chars_of;
use vstd::prelude::*;

verus! {

/// What can go wrong around the store and the event loop.
#[derive(Clone, Copy, Debug, PartialEq, Eq, Structural)]
pub enum DockError {
    /// The displays could not be listed, or the listing could not be read.
    Query,
    /// Nothing is stored under the key.
    NotFound,
    /// A topology could not be written.
    Persist,
    /// The event source could not be reached, or stopped answering.
    Connection,
    /// A command could not be started.
    Spawn,
}

impl DockError {
    /// Whether the event loop ends on this error: only on a lost event
    /// source. Every other error is logged, and the next event is read.
    pub fn ends_daemon(&self) -> (b: bool)
        ensures
            b == (*self == DockError::Connection),
    {
        match self {
            DockError::Connection => true,
            _ => false,
        }
    }
}

/// A topology with the key that it is stored under.
#[derive(Clone, Debug, PartialEq, Eq)]
pub struct StoredTopology {
    pub key: String,
    pub monitors: Vec<HyprMonitor>,
}

/// The stored topologies, and the directory that holds their files.
/// Of two entries with one key the first counts.
#[derive(Clone, Debug, PartialEq, Eq)]
pub struct TopologyStore {
    pub path: String,
    pub entries: Vec<StoredTopology>,
}

/// Whether the entry `i` of `entries` is the first one stored under `key`.
pub open spec fn holds_at(entries: Seq<StoredTopology>, key: Seq<char>, i: int) -> bool {
    &&& 0 <= i < entries.len()
    &&& entries[i].key@ == key
    &&& forall|j: int| 0 <= j < i ==> entries[j].key@ != key
}

/// Whether `entries` holds a topology under `key`.
pub open spec fn holds(entries: Seq<StoredTopology>, key: Seq<char>) -> bool {
    exists|i: int| holds_at(entries, key, i)
}

/// The topology that `entries` holds under `key`.
pub open spec fn held(entries: Seq<StoredTopology>, key: Seq<char>) -> Seq<HyprMonitorView> {
    topology(entries[choose|i: int| holds_at(entries, key, i)].monitors@)
}

/// What `entries` hold: for each key, the topology of the first entry
/// stored under it.
pub open spec fn stored(entries: Seq<StoredTopology>) -> Map<Seq<char>, Seq<HyprMonitorView>> {
    Map::new(|key: Seq<char>| holds(entries, key), |key: Seq<char>| held(entries, key))
}

impl View for TopologyStore {
    type V = Map<Seq<char>, Seq<HyprMonitorView>>;

    open spec fn view(&self) -> Map<Seq<char>, Seq<HyprMonitorView>> {
        stored(self.entries@)
    }
}

/// The file that holds the topology stored under `key` below `path`.
pub open spec fn config_file(path: Seq<char>, key: Seq<char>) -> Seq<char> {
    path + "monitor_configs/"@ + key + ".json"@
}

/// The key whose file is called `file_name`: the name without its `.json`
/// ending; none where the name does not end so.
pub open spec fn key_of(file_name: Seq<char>) -> Option<Seq<char>> {
    let stem = file_name.len() - ".json"@.len();
    if stem >= 0 && file_name.subrange(stem, file_name.len() as int) == ".json"@ {
        Some(file_name.subrange(0, stem))
    } else {
        None
    }
}

/// The file of a key, without its directory, names that key.
pub proof fn lemma_key_of_file_name(key: Seq<char>)
    ensures
        key_of(key + ".json"@) == Some(key),
{
    let name = key + ".json"@;
    let stem = name.len() - ".json"@.len();
    assert(name.subrange(stem, name.len() as int) =~= ".json"@);
    assert(name.subrange(0, stem) =~= key);
}

/// The key for a topology: the label where one is given, else the computed
/// fingerprint, else the fingerprint handed in.
pub open spec fn chosen_key(
    label: Option<Seq<char>>,
    computed: Option<Seq<char>>,
    handed_in: Option<Seq<char>>,
) -> Option<Seq<char>> {
    if label is Some {
        label
    } else if computed is Some {
        computed
    } else {
        handed_in
    }
}

/// The text that an optional string holds.
pub open spec fn optional_text(s: Option<&String>) -> Option<Seq<char>> {
    match s {
        None => None,
        Some(t) => Some(t@),
    }
}

/// The text that an optional owned string holds.
pub open spec fn owned_text(s: Option<String>) -> Option<Seq<char>> {
    match s {
        None => None,
        Some(t) => Some(t@),
    }
}

/// The fingerprint, under no label, of the topology that an optional
/// snapshot holds.
pub open spec fn optional_fingerprint(current: Option<&Vec<HyprMonitor>>) -> Option<Seq<char>> {
    match current {
        None => None,
        Some(t) => Some(fingerprint(topology(t@), None)),
    }
}

/// Saving `t` under `key` and then loading `key` gives `t` back, and leaves
/// what is stored under every other key as it was.
pub proof fn lemma_load_after_save(
    store: Map<Seq<char>, Seq<HyprMonitorView>>,
    key: Seq<char>,
    t: Seq<HyprMonitorView>,
    other: Seq<char>,
)
    ensures
        store.insert(key, t).dom().contains(key),
        store.insert(key, t)[key] == t,
        other != key ==> store.insert(key, t).dom().contains(other) == store.dom().contains(other),
        other != key && store.dom().contains(other) ==> store.insert(key, t)[other] == store[other],
{
}

/// A topology saved under a key comes back whole. Loading the key gives the
/// records that were saved, in their order, with every field as it was; and
/// rendering them for replay keeps each record's identity, refresh rate,
/// scale and flags as they are.
pub proof fn lemma_saved_topology_comes_back(
    store: Map<Seq<char>, Seq<HyprMonitorView>>,
    key: Seq<char>,
    t: Seq<HyprMonitorView>,
    i: int,
)
    requires
        0 <= i < t.len(),
    ensures
        store.insert(key, t)[key] == t,
        converted_all(store.insert(key, t)[key]).len() == t.len(),
        ({
            let record = converted_all(store.insert(key, t)[key])[i];
            &&& record.name == t[i].name
            &&& record.description == t[i].description
            &&& record.make == t[i].make
            &&& record.model == t[i].model
            &&& record.serial == t[i].serial
            &&& record.refreshrate == t[i].refresh_rate
            &&& record.scale == t[i].scale
            &&& record.vrr == t[i].vrr
            &&& record.disabled == t[i].disabled
        }),
{
}

/// Saving the same topology under the same key twice is saving it once.
pub proof fn lemma_save_twice(
    store: Map<Seq<char>, Seq<HyprMonitorView>>,
    key: Seq<char>,
    t: Seq<HyprMonitorView>,
)
    ensures
        store.insert(key, t).insert(key, t) == store.insert(key, t),
{
    assert(store.insert(key, t).insert(key, t) =~= store.insert(key, t));
}

proof fn lemma_first_is_unique(entries: Seq<StoredTopology>, key: Seq<char>, i: int, j: int)
    requires
        holds_at(entries, key, i),
        holds_at(entries, key, j),
    ensures
        i == j,
{
    if i < j {
        assert(entries[i].key@ != key);
    } else if j < i {
        assert(entries[j].key@ != key);
    }
}

proof fn lemma_held_at(entries: Seq<StoredTopology>, key: Seq<char>, i: int)
    requires
        holds_at(entries, key, i),
    ensures
        holds(entries, key),
        held(entries, key) == topology(entries[i].monitors@),
{
    let j = choose|j: int| holds_at(entries, key, j);
    lemma_first_is_unique(entries, key, i, j);
}

/// Where `after` is `before` with the entry `i` put in place, holding `saved`
/// under `key`, and `i` is the first entry of `before` under `key` or, where
/// there is none, its end, `after` holds what `before` held with `saved`
/// under `key`.
proof fn lemma_saved(
    before: Seq<StoredTopology>,
    after: Seq<StoredTopology>,
    key: Seq<char>,
    saved: Seq<HyprMonitorView>,
    i: int,
)
    requires
        0 <= i <= before.len(),
        forall|j: int| 0 <= j < i ==> before[j].key@ != key,
        i < before.len() ==> before[i].key@ == key && after.len() == before.len(),
        i == before.len() ==> after.len() == before.len() + 1,
        after[i].key@ == key,
        topology(after[i].monitors@) == saved,
        forall|j: int| 0 <= j < before.len() && j != i ==> after[j] == before[j],
    ensures
        stored(after) == stored(before).insert(key, saved),
{
    assert forall|j: int| 0 <= j < before.len() implies after[j].key@ == before[j].key@ by {}
    assert(holds_at(after, key, i));
    lemma_held_at(after, key, i);
    assert forall|other: Seq<char>, j: int| other != key implies holds_at(after, other, j)
        == holds_at(before, other, j) by {
        if 0 <= j < before.len() {
            assert(after[j].key@ == before[j].key@);
            assert forall|l: int| 0 <= l < j implies after[l].key@ == before[l].key@ by {}
        }
    }
    assert forall|other: Seq<char>| other != key implies holds(after, other) == holds(
        before,
        other,
    ) by {
        if holds(after, other) {
            let j = choose|j: int| holds_at(after, other, j);
            assert(holds_at(before, other, j));
        }
        if holds(before, other) {
            let j = choose|j: int| holds_at(before, other, j);
            assert(holds_at(after, other, j));
        }
    }
    assert forall|other: Seq<char>| other != key && holds(before, other) implies held(
        after,
        other,
    ) == held(before, other) by {
        let j = choose|j: int| holds_at(before, other, j);
        assert(holds_at(after, other, j));
        lemma_held_at(after, other, j);
        lemma_held_at(before, other, j);
    }
    assert(stored(after) =~= stored(before).insert(key, saved));
}

/// The key for a topology: the label where one is given, else the computed
/// fingerprint, else the fingerprint handed in; none where all three are
/// missing.
pub fn store_key(name: Option<&String>, computed: Option<&String>, hash: Option<&String>) -> (key:
    Option<String>)
    ensures
        owned_text(key) == chosen_key(
            optional_text(name),
            optional_text(computed),
            optional_text(hash),
        ),
{
    match name {
        Some(label) => Some(label.clone()),
        None => match computed {
            Some(fingerprint) => Some(fingerprint.clone()),
            None => match hash {
                Some(handed_in) => Some(handed_in.clone()),
                None => None,
            },
        },
    }
}

/// The file that holds the topology stored under `key` below `path`.
pub fn monitor_config_file(path: &String, key: &String) -> (file: String)
    ensures
        file@ == config_file(path@, key@),
{
    let mut file = path.clone();
    file.append("monitor_configs/");
    file.append(key.as_str());
    file.append(".json");
    assert(file@ =~= config_file(path@, key@));
    file
}

/// The key whose file is called `file_name`, where the name ends in `.json`.
pub fn key_of_file(file_name: &str) -> (key: Option<String>)
    ensures
        owned_text(key) == key_of(file_name@),
{
    let name = chars_of(file_name);
    let ending = chars_of(".json");
    if name.len() < ending.len() {
        return None;
    }
    let stem = name.len() - ending.len();
    let mut j: usize = 0;
    while j < ending.len()
        invariant
            j <= ending.len(),
            stem + ending.len() == name.len(),
            name@ == file_name@,
            ending@ == ".json"@,
            forall|k: int| 0 <= k < j ==> name@[stem + k] == ending@[k],
        decreases ending.len() - j,
    {
        if name[stem + j] != ending[j] {
            assert(name@.subrange(stem as int, name.len() as int)[j as int] == name@[stem + j]);
            return None;
        }
        j = j + 1;
    }
    assert(name@.subrange(stem as int, name.len() as int) =~= ending@);
    Some(file_name.substring_char(0, stem).to_owned())
}

impl TopologyStore {
    /// A store below `path` that holds nothing.
    pub fn new(path: String) -> (store: Self)
        ensures
            store@ == Map::<Seq<char>, Seq<HyprMonitorView>>::empty(),
            store.path@ == path@,
    {
        let store = TopologyStore { path, entries: Vec::new() };
        assert(store@ =~= Map::<Seq<char>, Seq<HyprMonitorView>>::empty());
        store
    }

    fn find(&self, key: &String) -> (found: Option<usize>)
        ensures
            match found {
                Some(i) => holds_at(self.entries@, key@, i as int),
                None => forall|j: int|
                    0 <= j < self.entries.len() ==> self.entries@[j].key@ != key@,
            },
    {
        let mut i: usize = 0;
        while i < self.entries.len()
            invariant
                i <= self.entries.len(),
                forall|j: int| 0 <= j < i ==> self.entries@[j].key@ != key@,
            decreases self.entries.len() - i,
        {
            if self.entries[i].key == *key {
                return Some(i);
            }
            i = i + 1;
        }
        None
    }

    /// Whether a topology is stored under `key`.
    pub fn contains(&self, key: &String) -> (b: bool)
        ensures
            b == self@.dom().contains(key@),
    {
        let found = self.find(key);
        proof {
            if let Some(i) = found {
                lemma_held_at(self.entries@, key@, i as int);
            }
        }
        found.is_some()
    }

    /// The topology stored under `key`; `NotFound` where there is none.
    pub fn load(&self, key: &String) -> (r: Result<&Vec<HyprMonitor>, DockError>)
        ensures
            match r {
                Ok(t) => self@.dom().contains(key@) && topology(t@) == self@[key@],
                Err(e) => e == DockError::NotFound && !self@.dom().contains(key@),
            },
    {
        match self.find(key) {
            Some(i) => {
                proof {
                    lemma_held_at(self.entries@, key@, i as int);
                }
                Ok(&self.entries[i].monitors)
            },
            None => Err(DockError::NotFound),
        }
    }

    /// Stores `monitors` under `key`, in place of what was stored under it.
    pub fn save(&mut self, key: String, monitors: Vec<HyprMonitor>)
        ensures
            final(self)@ == old(self)@.insert(key@, topology(monitors@)),
            final(self).path@ == old(self).path@,
    {
        let ghost before = self.entries@;
        let ghost saved = topology(monitors@);
        let ghost k = key@;
        match self.find(&key) {
            Some(i) => {
                self.entries.set(i, StoredTopology { key, monitors });
                proof {
                    lemma_saved(before, self.entries@, k, saved, i as int);
                }
            },
            None => {
                self.entries.push(StoredTopology { key, monitors });
                proof {
                    lemma_saved(before, self.entries@, k, saved, before.len() as int);
                }
            },
        }
    }

    /// The file that holds the topology stored under `key`.
    pub fn file_of(&self, key: &String) -> (file: String)
        ensures
            file@ == config_file(self.path@, key@),
    {
        monitor_config_file(&self.path, key)
    }

    /// The file of the topology stored under the fingerprint `hash`, where
    /// there is one.
    pub fn try_get_monitor_hash_path(&self, hash: &String) -> (file: Option<String>)
        ensures
            match file {
                Some(f) => self@.dom().contains(hash@) && f@ == config_file(self.path@, hash@),
                None => !self@.dom().contains(hash@),
            },
    {
        if self.contains(hash) {
            Some(self.file_of(hash))
        } else {
            None
        }
    }
}

/// Stores the topology `monitors` and returns the key that it went under:
/// the label `name` where one is given, else the topology's fingerprint.
/// What was stored under that key before is replaced.
pub fn save_hypr_monitor_data(
    store: &mut TopologyStore,
    monitors: &Vec<HyprMonitor>,
    name: Option<&String>,
    hash: Option<&String>,
) -> (key: String)
    ensures
        Some(key@) == chosen_key(
            optional_text(name),
            Some(fingerprint(topology(monitors@), None)),
            optional_text(hash),
        ),
        final(store)@ == old(store)@.insert(key@, topology(monitors@)),
        final(store).path@ == old(store).path@,
{
    let computed = get_current_monitor_hash(monitors, None);
    let key = match store_key(name, Some(&computed), hash) {
        Some(key) => key,
        None => computed,
    };
    store.save(key.clone(), copy_topology(monitors));
    key
}

/// The commands that replay a stored topology. Its key is the label `name`
/// where one is given, else the fingerprint of the displays as they now are,
/// `current`, else the fingerprint `hash`. `Query` where none of the three
/// is there, `NotFound` where nothing is stored under the key.
pub fn set_hypr_monitors_from_file(
    store: &TopologyStore,
    current: Option<&Vec<HyprMonitor>>,
    name: Option<&String>,
    hash: Option<&String>,
) -> (r: Result<Vec<HyprdockCommand>, DockError>)
    ensures
        match chosen_key(optional_text(name), optional_fingerprint(current), optional_text(hash)) {
            None => r == Err::<Vec<HyprdockCommand>, DockError>(DockError::Query),
            Some(key) => if store@.dom().contains(key) {
                r is Ok && command_views(r->Ok_0@) == replay_commands(store@[key])
            } else {
                r == Err::<Vec<HyprdockCommand>, DockError>(DockError::NotFound)
            },
        },
{
    let computed = match current {
        Some(monitors) => Some(get_current_monitor_hash(monitors, None)),
        None => None,
    };
    let key = match store_key(name, computed.as_ref(), hash) {
        Some(key) => key,
        None => {
            return Err(DockError::Query);
        },
    };
    match store.load(&key) {
        Ok(monitors) => Ok(set_hypr_monitors_from_hyprvec(monitors)),
        Err(e) => Err(e),
    }
}

} // verus!
