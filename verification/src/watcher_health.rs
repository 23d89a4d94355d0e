//! What is known of each watcher, by name.
use crate::text::text_eq;
use crate::time;
use vstd::prelude::*;

verus! {

/// What is known of one watcher.
#[derive(Debug, Clone)]
pub struct WatcherState {
    /// When the watcher was last seen running.
    pub last_seen_running: Option<String>,
    /// Cycles in a row in which it was missing.
    pub consecutive_missing: u32,
    /// Whether it is expected to run at all.
    pub enabled: bool,
    /// When its absence was announced as an event.
    pub event_emitted_at: Option<String>,
    /// Since when it has been down.
    pub down_since: Option<String>,
}

/// What a [`WatcherState`] holds, with each text as its characters.
#[verifier::ext_equal]
pub struct WatcherStateView {
    pub last_seen_running: Option<Seq<char>>,
    pub consecutive_missing: u32,
    pub enabled: bool,
    pub event_emitted_at: Option<Seq<char>>,
    pub down_since: Option<Seq<char>>,
}

impl View for WatcherState {
    type V = WatcherStateView;

    open spec fn view(&self) -> WatcherStateView {
        WatcherStateView {
            last_seen_running: time::opt_string_view(self.last_seen_running),
            consecutive_missing: self.consecutive_missing,
            enabled: self.enabled,
            event_emitted_at: time::opt_string_view(self.event_emitted_at),
            down_since: time::opt_string_view(self.down_since),
        }
    }
}

/// A watcher that has not been looked at yet.
pub open spec fn unknown_watcher() -> WatcherStateView {
    WatcherStateView {
        last_seen_running: None,
        consecutive_missing: 0,
        enabled: false,
        event_emitted_at: None,
        down_since: None,
    }
}

impl Default for WatcherState {
    fn default() -> (r: Self)
        ensures
            r@ == unknown_watcher(),
    {
        WatcherState {
            last_seen_running: None,
            consecutive_missing: 0,
            enabled: false,
            event_emitted_at: None,
            down_since: None,
        }
    }
}

/// A copy of an optional text.
pub fn copy_opt(s: &Option<String>) -> (r: Option<String>)
    ensures
        r == *s,
{
    match s {
        Some(t) => Some(t.clone()),
        None => None,
    }
}

impl WatcherState {
    /// A copy with the same contents.
    pub fn duplicate(&self) -> (r: WatcherState)
        ensures
            r == *self,
    {
        WatcherState {
            last_seen_running: copy_opt(&self.last_seen_running),
            consecutive_missing: self.consecutive_missing,
            enabled: self.enabled,
            event_emitted_at: copy_opt(&self.event_emitted_at),
            down_since: copy_opt(&self.down_since),
        }
    }
}

/// One named watcher.
#[derive(Debug)]
struct WatcherEntry {
    name: String,
    state: WatcherState,
}

impl WatcherEntry {
    fn duplicate(&self) -> (r: WatcherEntry)
        ensures
            r == *self,
    {
        WatcherEntry { name: self.name.clone(), state: self.state.duplicate() }
    }
}

/// What is known of the watchers: a finite map from names to states.
#[derive(Debug)]
pub struct WatcherHealth {
    entries: Vec<WatcherEntry>,
}

spec fn names_distinct(entries: Seq<WatcherEntry>) -> bool {
    forall|i: int, j: int|
        #![trigger entries[i], entries[j]]
        0 <= i < j < entries.len() ==> entries[i].name@ != entries[j].name@
}

spec fn holds(entries: Seq<WatcherEntry>, name: Seq<char>, i: int) -> bool {
    0 <= i < entries.len() && entries[i].name@ == name
}

spec fn entries_map(entries: Seq<WatcherEntry>) -> Map<Seq<char>, WatcherStateView> {
    Map::new(
        |name: Seq<char>| exists|i: int| holds(entries, name, i),
        |name: Seq<char>| entries[choose|i: int| holds(entries, name, i)].state@,
    )
}

proof fn lemma_entry(entries: Seq<WatcherEntry>, name: Seq<char>, i: int)
    requires
        names_distinct(entries),
        holds(entries, name, i),
    ensures
        entries_map(entries).dom().contains(name),
        entries_map(entries)[name] == entries[i].state@,
{
    let j = choose|j: int| holds(entries, name, j);
    assert(holds(entries, name, j));
    assert(i == j);
}

impl View for WatcherHealth {
    type V = Map<Seq<char>, WatcherStateView>;

    closed spec fn view(&self) -> Map<Seq<char>, WatcherStateView> {
        entries_map(self.entries@)
    }
}

impl Clone for WatcherHealth {
    fn clone(&self) -> (r: Self)
        ensures
            r@ == self@,
    {
        proof {
            use_type_invariant(&*self);
        }
        let mut entries: Vec<WatcherEntry> = Vec::new();
        let mut i: usize = 0;
        while i < self.entries.len()
            invariant
                i <= self.entries@.len(),
                entries@ == self.entries@.take(i as int),
            decreases self.entries@.len() - i,
        {
            let entry = self.entries[i].duplicate();
            entries.push(entry);
            i = i + 1;
        }
        assert(entries@ == self.entries@);
        WatcherHealth { entries }
    }
}

impl WatcherHealth {
    #[verifier::type_invariant]
    spec fn well_formed(self) -> bool {
        names_distinct(self.entries@)
    }

    /// No watcher known.
    pub fn new() -> (r: Self)
        ensures
            r@ == Map::<Seq<char>, WatcherStateView>::empty(),
    {
        let r = WatcherHealth { entries: Vec::new() };
        proof {
            assert forall|name: Seq<char>| !r@.dom().contains(name) by {}
            assert(r@ =~= Map::<Seq<char>, WatcherStateView>::empty());
        }
        r
    }

    fn find(&self, name: &str) -> (r: Option<usize>)
        ensures
            r matches Some(i) ==> holds(self.entries@, name@, i as int),
            r is None ==> forall|i: int| !holds(self.entries@, name@, i),
    {
        let mut i: usize = 0;
        while i < self.entries.len()
            invariant
                i <= self.entries@.len(),
                forall|j: int| 0 <= j < i ==> !holds(self.entries@, name@, j),
            decreases self.entries@.len() - i,
        {
            if text_eq(self.entries[i].name.as_str(), name) {
                return Some(i);
            }
            i = i + 1;
        }
        None
    }

    /// What is known of the named watcher.
    pub fn get(&self, name: &str) -> (r: Option<&WatcherState>)
        ensures
            r is Some <==> self@.dom().contains(name@),
            r matches Some(s) ==> s@ == self@[name@],
    {
        proof {
            use_type_invariant(&*self);
        }
        match self.find(name) {
            Some(i) => {
                proof {
                    lemma_entry(self.entries@, name@, i as int);
                }
                Some(&self.entries[i].state)
            },
            None => None,
        }
    }

    /// Records what is known of the named watcher.
    pub fn insert(&mut self, name: String, state: WatcherState)
        ensures
            final(self)@ == old(self)@.insert(name@, state@),
    {
        proof {
            use_type_invariant(&*self);
        }
        let mut entries: Vec<WatcherEntry> = Vec::new();
        std::mem::swap(&mut entries, &mut self.entries);
        let ghost before = entries@;
        let ghost key = name@;
        let ghost value = state@;
        let mut i: usize = 0;
        while i < entries.len()
            invariant
                i <= entries@.len(),
                entries@ == before,
                names_distinct(before),
                forall|j: int| 0 <= j < i ==> !holds(before, name@, j),
            ensures
                i <= before.len(),
                entries@ == before,
                i < before.len() ==> holds(before, name@, i as int),
                i == before.len() ==> forall|j: int| !holds(before, name@, j),
            decreases before.len() - i,
        {
            if text_eq(entries[i].name.as_str(), name.as_str()) {
                break;
            }
            i = i + 1;
        }
        if i < entries.len() {
            entries.set(i, WatcherEntry { name, state });
            proof {
                lemma_replaced(before, entries@, i as int, key, value);
            }
        } else {
            entries.push(WatcherEntry { name, state });
            proof {
                lemma_pushed(before, entries@, key, value);
            }
        }
        self.entries = entries;
    }

    /// Whether every watcher has been missing for at most `bound` cycles in a row.
    pub fn all_below(&self, bound: u32) -> (r: bool)
        ensures
            r <==> forall|name: Seq<char>|
                self@.dom().contains(name) ==> (#[trigger] self@[name]).consecutive_missing <= bound,
    {
        proof {
            use_type_invariant(&*self);
        }
        let mut i: usize = 0;
        while i < self.entries.len()
            invariant
                i <= self.entries@.len(),
                names_distinct(self.entries@),
                forall|j: int|
                    0 <= j < i ==> (#[trigger] self.entries@[j]).state.consecutive_missing <= bound,
            decreases self.entries@.len() - i,
        {
            if self.entries[i].state.consecutive_missing > bound {
                proof {
                    lemma_entry(self.entries@, self.entries@[i as int].name@, i as int);
                }
                return false;
            }
            i = i + 1;
        }
        proof {
            assert forall|name: Seq<char>| self@.dom().contains(name) implies (
            #[trigger] self@[name]).consecutive_missing <= bound by {
                let j = choose|j: int| holds(self.entries@, name, j);
                lemma_entry(self.entries@, name, j);
            }
        }
        true
    }

    /// Whether some enabled watcher has been missing for at least `threshold`
    /// cycles in a row.
    pub fn any_critical(&self, threshold: u32) -> (r: bool)
        ensures
            r <==> some_watcher_critical(self@, threshold),
    {
        proof {
            use_type_invariant(&*self);
        }
        let mut i: usize = 0;
        while i < self.entries.len()
            invariant
                i <= self.entries@.len(),
                names_distinct(self.entries@),
                forall|j: int|
                    0 <= j < i ==> !watcher_critical((#[trigger] self.entries@[j]).state@, threshold),
            decreases self.entries@.len() - i,
        {
            let s = &self.entries[i].state;
            if s.enabled && s.consecutive_missing >= threshold {
                proof {
                    let name = self.entries@[i as int].name@;
                    assert(holds(self.entries@, name, i as int));
                    lemma_entry(self.entries@, name, i as int);
                    assert(self@.dom().contains(name) && watcher_critical(self@[name], threshold));
                }
                return true;
            }
            i = i + 1;
        }
        proof {
            assert forall|name: Seq<char>| self@.dom().contains(name) implies !watcher_critical(
                #[trigger] self@[name],
                threshold,
            ) by {
                let j = choose|j: int| holds(self.entries@, name, j);
                lemma_entry(self.entries@, name, j);
            }
        }
        false
    }
}

/// The watcher is expected to run and has been missing for at least `threshold`
/// cycles in a row.
pub open spec fn watcher_critical(w: WatcherStateView, threshold: u32) -> bool {
    w.enabled && w.consecutive_missing >= threshold
}

/// Some known watcher is [`watcher_critical`].
pub open spec fn some_watcher_critical(
    m: Map<Seq<char>, WatcherStateView>,
    threshold: u32,
) -> bool {
    exists|name: Seq<char>|
        m.dom().contains(name) && watcher_critical(#[trigger] m[name], threshold)
}

/// The name occurs in the list.
pub open spec fn name_listed(names: Seq<String>, name: Seq<char>) -> bool {
    exists|i: int| 0 <= i < names.len() && (#[trigger] names[i])@ == name
}

/// [`name_listed`], executable.
pub fn list_has(names: &[String], name: &str) -> (r: bool)
    ensures
        r == name_listed(names@, name@),
{
    let mut i: usize = 0;
    while i < names.len()
        invariant
            i <= names@.len(),
            forall|j: int| 0 <= j < i ==> (#[trigger] names@[j])@ != name@,
        decreases names@.len() - i,
    {
        if text_eq(names[i].as_str(), name) {
            return true;
        }
        i = i + 1;
    }
    false
}

proof fn lemma_replaced(
    before: Seq<WatcherEntry>,
    after: Seq<WatcherEntry>,
    i: int,
    key: Seq<char>,
    value: WatcherStateView,
)
    requires
        names_distinct(before),
        holds(before, key, i),
        after.len() == before.len(),
        after[i].name@ == key,
        after[i].state@ == value,
        forall|j: int| 0 <= j < before.len() && j != i ==> after[j] == before[j],
    ensures
        names_distinct(after),
        entries_map(after) == entries_map(before).insert(key, value),
{
    assert forall|a: int, b: int| 0 <= a < b < after.len() implies after[a].name@
        != after[b].name@ by {
        assert(before[a].name@ != before[b].name@);
    }
    let m = entries_map(before).insert(key, value);
    assert forall|k: Seq<char>| entries_map(after).dom().contains(k) == m.dom().contains(k) by {
        if entries_map(after).dom().contains(k) {
            let j = choose|j: int| holds(after, k, j);
            if j != i {
                assert(holds(before, k, j));
            }
        }
        if m.dom().contains(k) {
            if k == key {
                assert(holds(after, k, i));
            } else {
                let j = choose|j: int| holds(before, k, j);
                assert(holds(after, k, j));
            }
        }
    }
    assert forall|k: Seq<char>| m.dom().contains(k) implies entries_map(after)[k] == m[k] by {
        if k == key {
            lemma_entry(after, k, i);
        } else {
            let j = choose|j: int| holds(before, k, j);
            assert(holds(before, k, j));
            assert(holds(after, k, j));
            lemma_entry(after, k, j);
            lemma_entry(before, k, j);
        }
    }
    assert(entries_map(after) =~= m);
}

proof fn lemma_pushed(
    before: Seq<WatcherEntry>,
    after: Seq<WatcherEntry>,
    key: Seq<char>,
    value: WatcherStateView,
)
    requires
        names_distinct(before),
        forall|j: int| !holds(before, key, j),
        after.len() == before.len() + 1,
        after[before.len() as int].name@ == key,
        after[before.len() as int].state@ == value,
        forall|j: int| 0 <= j < before.len() ==> after[j] == before[j],
    ensures
        names_distinct(after),
        entries_map(after) == entries_map(before).insert(key, value),
{
    let n = before.len() as int;
    assert forall|a: int, b: int| 0 <= a < b < after.len() implies after[a].name@
        != after[b].name@ by {
        if b == n {
            assert(!holds(before, key, a));
        } else {
            assert(before[a].name@ != before[b].name@);
        }
    }
    let m = entries_map(before).insert(key, value);
    assert forall|k: Seq<char>| entries_map(after).dom().contains(k) == m.dom().contains(k) by {
        if entries_map(after).dom().contains(k) {
            let j = choose|j: int| holds(after, k, j);
            if j != n {
                assert(holds(before, k, j));
            }
        }
        if m.dom().contains(k) {
            if k == key {
                assert(holds(after, k, n));
            } else {
                let j = choose|j: int| holds(before, k, j);
                assert(holds(after, k, j));
            }
        }
    }
    assert forall|k: Seq<char>| m.dom().contains(k) implies entries_map(after)[k] == m[k] by {
        if k == key {
            assert(holds(after, k, n));
            lemma_entry(after, k, n);
        } else {
            let j = choose|j: int| holds(before, k, j);
            assert(holds(before, k, j));
            assert(holds(after, k, j));
            lemma_entry(after, k, j);
            lemma_entry(before, k, j);
        }
    }
    assert(entries_map(after) =~= m);
}

/// A watcher is critical exactly where it is expected to run and has been missing for the
/// threshold; one critical watcher among the known ones is enough, and none makes up for it.
pub proof fn one_critical_watcher_is_enough(
    m: Map<Seq<char>, WatcherStateView>,
    name: Seq<char>,
    w: WatcherStateView,
    threshold: u32,
)
    ensures
        w.enabled && w.consecutive_missing >= threshold ==> some_watcher_critical(
            m.insert(name, w),
            threshold,
        ),
        (!w.enabled || w.consecutive_missing < threshold) && some_watcher_critical(
            m.insert(name, w),
            threshold,
        ) ==> some_watcher_critical(m, threshold),
        !some_watcher_critical(Map::empty(), threshold),
{
    let n = m.insert(name, w);
    assert(n[name] == w);
    if some_watcher_critical(n, threshold) && !watcher_critical(w, threshold) {
        let k = choose|k: Seq<char>|
            n.dom().contains(k) && watcher_critical(#[trigger] n[k], threshold);
        assert(m.dom().contains(k) && m[k] == n[k]);
    }
}

/// A name is listed once it was added, and stays listed; an empty list names nothing.
pub proof fn added_name_is_listed(names: Seq<String>, added: String, name: Seq<char>)
    ensures
        !name_listed(Seq::empty(), name),
        name_listed(names.push(added), name) <==> name_listed(names, name) || added@ == name,
{
    let longer = names.push(added);
    if name_listed(names, name) {
        let i = choose|i: int| 0 <= i < names.len() && (#[trigger] names[i])@ == name;
        assert(longer[i]@ == name);
    }
    assert(longer[names.len() as int] == added);
    if name_listed(longer, name) {
        let i = choose|i: int| 0 <= i < longer.len() && (#[trigger] longer[i])@ == name;
        if i < names.len() {
            assert(names[i]@ == name);
        }
    }
}

/// A watcher of which nothing is known is not expected to run, was never seen, is not missing,
/// and was not announced: it is critical for no threshold.
pub proof fn unknown_watcher_is_not_critical(threshold: u32)
    ensures
        ({
            let w = unknown_watcher();
            &&& !w.enabled && w.consecutive_missing == 0
            &&& w.last_seen_running is None && w.event_emitted_at is None && w.down_since is None
            &&& !watcher_critical(w, threshold)
        }),
{
}

} // verus!
