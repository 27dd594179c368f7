//! Webhook configuration persistence: the pluggable store capability,
//! its model (a map from task id to the ordered configs set for it),
//! and the in-memory implementation.

use vstd::prelude::*;
use crate::core_types::clone_opt_string;
use crate::errors::A2AError;
use crate::models::PushNotificationConfig;
use crate::seq_facts::{lemma_filter_all_pass, lemma_filter_drops_one};
use crate::views::PushConfigView;

verus! {

/// At most one configuration per id within one task's set; anonymous
/// configurations carry no id and are unconstrained.
pub open spec fn unique_config_ids(s: Seq<PushConfigView>) -> bool {
    forall|i: int, j: int|
        0 <= i < s.len() && 0 <= j < s.len() && i != j && s[i].id is Some ==> s[i].id != s[j].id
}

pub open spec fn has_config(s: Seq<PushConfigView>, id: Seq<char>) -> bool {
    exists|i: int| 0 <= i < s.len() && s[i].id == Some(id)
}

/// Set semantics: a config whose id is already present replaces it in
/// place; otherwise the config is appended.
pub open spec fn upsert_config(s: Seq<PushConfigView>, c: PushConfigView) -> Seq<PushConfigView> {
    match c.id {
        Some(id) => if has_config(s, id) {
            s.map(|i: int, x: PushConfigView| if x.id == c.id { c } else { x })
        } else {
            s.push(c)
        },
        None => s.push(c),
    }
}

/// Deleting one id keeps the rest, in order.
pub open spec fn drop_config(s: Seq<PushConfigView>, id: Seq<char>) -> Seq<PushConfigView> {
    s.filter(|x: PushConfigView| x.id != Some(id))
}

/// The configs a store holds for one task: its map entry, or nothing.
pub open spec fn configs_of(m: Map<Seq<char>, Seq<PushConfigView>>, task_id: Seq<char>) -> Seq<
    PushConfigView,
> {
    if m.contains_key(task_id) {
        m[task_id]
    } else {
        Seq::empty()
    }
}

/// Upsert keeps ids unique within the set.
pub proof fn lemma_upsert_config_preserves_unique(s: Seq<PushConfigView>, c: PushConfigView)
    requires
        unique_config_ids(s),
    ensures
        unique_config_ids(upsert_config(s, c)),
{
    let u = upsert_config(s, c);
    match c.id {
        Some(id) => {
            if has_config(s, id) {
                assert forall|i: int, j: int|
                    0 <= i < u.len() && 0 <= j < u.len() && i != j && u[i].id is Some implies u[i].id
                    != u[j].id by {
                    assert(u[i].id == s[i].id);
                    assert(u[j].id == s[j].id);
                }
            } else {
                assert forall|i: int, j: int|
                    0 <= i < u.len() && 0 <= j < u.len() && i != j && u[i].id is Some implies u[i].id
                    != u[j].id by {
                    if i < s.len() && j < s.len() {
                    } else if i == s.len() {
                        assert(u[j] == s[j] && u[i] == c);
                    } else {
                        assert(u[i] == s[i] && u[j] == c);
                    }
                }
            }
        },
        None => {
            assert forall|i: int, j: int|
                0 <= i < u.len() && 0 <= j < u.len() && i != j && u[i].id is Some implies u[i].id
                != u[j].id by {
                if i < s.len() && j < s.len() {
                } else if i == s.len() {
                    assert(u[i] == c);
                } else {
                    assert(u[i] == s[i] && u[j] == c);
                }
            }
        },
    }
}

/// Law: setting a config under one id twice keeps exactly one config
/// with that id, and it is the one set last.
pub proof fn lemma_set_by_id_replaces(
    s: Seq<PushConfigView>,
    c1: PushConfigView,
    c2: PushConfigView,
)
    requires
        unique_config_ids(s),
        c1.id is Some,
        c2.id == c1.id,
    ensures
        ({
            let twice = upsert_config(upsert_config(s, c1), c2);
            exists|i: int|
                0 <= i < twice.len() && #[trigger] twice[i] == c2 && (forall|j: int|
                    0 <= j < twice.len() && j != i ==> twice[j].id != c2.id)
        }),
{
    let id = c1.id->0;
    let once = upsert_config(s, c1);
    lemma_upsert_config_preserves_unique(s, c1);
    let twice = upsert_config(once, c2);
    if has_config(s, id) {
        let w = choose|i: int| 0 <= i < s.len() && s[i].id == Some(id);
        assert(once[w] == c1);
        assert(has_config(once, id));
        assert forall|j: int| 0 <= j < once.len() && j != w implies once[j].id != c2.id by {
            assert(once[j].id == s[j].id);
            assert(s[w].id == Some(id));
        }
        assert(twice[w] == c2);
        assert forall|j: int| 0 <= j < twice.len() && j != w implies twice[j].id != c2.id by {
            assert(twice[j].id == once[j].id);
        }
        assert(0 <= w < twice.len() && twice[w] == c2);
    } else {
        let w = s.len() as int;
        assert(once[w] == c1);
        assert(has_config(once, id));
        assert forall|j: int| 0 <= j < once.len() && j != w implies once[j].id != c2.id by {
            assert(once[j] == s[j]);
        }
        assert(twice[w] == c2);
        assert forall|j: int| 0 <= j < twice.len() && j != w implies twice[j].id != c2.id by {
            assert(twice[j].id == once[j].id);
        }
        assert(0 <= w < twice.len() && twice[w] == c2);
    }
}

/// Deleting by id keeps ids unique within the set.
pub proof fn lemma_drop_config_preserves_unique(s: Seq<PushConfigView>, id: Seq<char>)
    requires
        unique_config_ids(s),
    ensures
        unique_config_ids(drop_config(s, id)),
{
    let pred = |x: PushConfigView| x.id != Some(id);
    if has_config(s, id) {
        let w = choose|i: int| 0 <= i < s.len() && s[i].id == Some(id);
        assert(!pred(s[w]));
        assert forall|j: int| 0 <= j < s.len() && j != w implies pred(#[trigger] s[j]) by {
            assert(s[w].id is Some);
        }
        lemma_filter_drops_one(s, pred, w);
        let s1 = s.remove(w);
        assert forall|a: int, b: int|
            0 <= a < s1.len() && 0 <= b < s1.len() && a != b && s1[a].id is Some implies s1[a].id
            != s1[b].id by {
            let a0: int = if a < w { a } else { a + 1 };
            let b0: int = if b < w { b } else { b + 1 };
            assert(s1[a] == s[a0] && s1[b] == s[b0]);
        }
    } else {
        lemma_filter_all_pass(s, pred);
    }
}

/// Law: after deleting all of a task's configs, a lookup finds none.
pub proof fn lemma_delete_all_then_get(m: Map<Seq<char>, Seq<PushConfigView>>, task_id: Seq<char>)
    ensures
        configs_of(m.remove(task_id), task_id) == Seq::<PushConfigView>::empty(),
{
}

/// The store capability the request handler consumes: webhook configs
/// per task. `set_info` replaces by id or appends; `delete_info` with
/// no config id removes the task's whole set.
pub trait PushNotificationConfigStore: Sized {
    spec fn infos(&self) -> Map<Seq<char>, Seq<PushConfigView>>;

    spec fn wf(&self) -> bool;

    spec fn fallible(&self) -> bool;

    fn set_info(&mut self, task_id: &String, config: PushNotificationConfig) -> (r: Result<
        (),
        A2AError,
    >)
        requires
            old(self).wf(),
        ensures
            final(self).wf(),
            final(self).fallible() == old(self).fallible(),
            !old(self).fallible() ==> r is Ok,
            match r {
                Ok(()) => final(self).infos() == old(self).infos().insert(
                    task_id@,
                    upsert_config(configs_of(old(self).infos(), task_id@), config@),
                ),
                Err(e) => final(self).infos() == old(self).infos() && e is Internal,
            },
    ;

    fn get_info(&self, task_id: &String) -> (r: Result<Vec<PushNotificationConfig>, A2AError>)
        requires
            self.wf(),
        ensures
            !self.fallible() ==> r is Ok,
            match r {
                Ok(v) => v.deep_view() == configs_of(self.infos(), task_id@),
                Err(e) => e is Internal,
            },
    ;

    fn delete_info(&mut self, task_id: &String, config_id: Option<&String>) -> (r: Result<
        (),
        A2AError,
    >)
        requires
            old(self).wf(),
        ensures
            final(self).wf(),
            final(self).fallible() == old(self).fallible(),
            !old(self).fallible() ==> r is Ok,
            match r {
                Ok(()) => match config_id {
                    None => final(self).infos() == old(self).infos().remove(task_id@),
                    Some(cid) => final(self).infos() == if old(self).infos().contains_key(task_id@) {
                        old(self).infos().insert(
                            task_id@,
                            drop_config(old(self).infos()[task_id@], cid@),
                        )
                    } else {
                        old(self).infos()
                    },
                },
                Err(e) => final(self).infos() == old(self).infos() && e is Internal,
            },
    ;
}

/// One task's configs, under its id.
#[verifier::ext_equal]
pub struct ConfigEntryView {
    pub task_id: Seq<char>,
    pub configs: Seq<PushConfigView>,
}

pub struct ConfigEntry {
    pub task_id: String,
    pub configs: Vec<PushNotificationConfig>,
}

impl DeepView for ConfigEntry {
    type V = ConfigEntryView;

    open spec fn deep_view(&self) -> ConfigEntryView {
        ConfigEntryView { task_id: self.task_id@, configs: self.configs.deep_view() }
    }
}

pub open spec fn unique_entry_ids(s: Seq<ConfigEntryView>) -> bool {
    forall|i: int, j: int|
        0 <= i < s.len() && 0 <= j < s.len() && i != j ==> s[i].task_id != s[j].task_id
}

pub open spec fn has_entry(s: Seq<ConfigEntryView>, id: Seq<char>) -> bool {
    exists|i: int| 0 <= i < s.len() && s[i].task_id == id
}

/// The map the entry sequence denotes.
pub open spec fn entry_map(s: Seq<ConfigEntryView>) -> Map<Seq<char>, Seq<PushConfigView>> {
    Map::new(
        |id: Seq<char>| has_entry(s, id),
        |id: Seq<char>| s[choose|i: int| 0 <= i < s.len() && s[i].task_id == id].configs,
    )
}

proof fn lemma_entry_map_get(s: Seq<ConfigEntryView>, i: int)
    requires
        unique_entry_ids(s),
        0 <= i < s.len(),
    ensures
        entry_map(s).contains_key(s[i].task_id),
        entry_map(s)[s[i].task_id] == s[i].configs,
{
    assert(has_entry(s, s[i].task_id));
    let k = choose|k: int| 0 <= k < s.len() && s[k].task_id == s[i].task_id;
    assert(k == i);
}

proof fn lemma_entry_map_update(s: Seq<ConfigEntryView>, i: int, cfgs: Seq<PushConfigView>)
    requires
        unique_entry_ids(s),
        0 <= i < s.len(),
    ensures
        entry_map(s.update(i, ConfigEntryView { task_id: s[i].task_id, configs: cfgs }))
            == entry_map(s).insert(s[i].task_id, cfgs),
        unique_entry_ids(s.update(i, ConfigEntryView { task_id: s[i].task_id, configs: cfgs })),
{
    let s1 = s.update(i, ConfigEntryView { task_id: s[i].task_id, configs: cfgs });
    assert forall|j: int| 0 <= j < s1.len() implies #[trigger] s1[j].task_id == s[j].task_id by {}
    assert forall|id: Seq<char>| has_entry(s1, id) implies has_entry(s, id) by {
        let w = choose|w: int| 0 <= w < s1.len() && s1[w].task_id == id;
        assert(s[w].task_id == id);
    }
    assert forall|id: Seq<char>| has_entry(s, id) implies has_entry(s1, id) by {
        let w = choose|w: int| 0 <= w < s.len() && s[w].task_id == id;
        assert(s1[w].task_id == id);
    }
    let m1 = entry_map(s1);
    let m2 = entry_map(s).insert(s[i].task_id, cfgs);
    assert forall|id: Seq<char>| m1.contains_key(id) implies m1[id] == m2[id] by {
        let k1 = choose|k: int| 0 <= k < s1.len() && s1[k].task_id == id;
        assert(s1[k1].task_id == id);
        if id == s[i].task_id {
            assert(k1 == i);
            assert(m1[id] == cfgs);
        } else {
            assert(k1 != i);
            assert(s1[k1] == s[k1]);
            let k2 = choose|k: int| 0 <= k < s.len() && s[k].task_id == id;
            assert(s[k2].task_id == id);
            assert(k2 == k1);
            assert(m2[id] == s[k2].configs);
        }
    }
    assert(m1 =~= m2);
}

proof fn lemma_entry_map_push(s: Seq<ConfigEntryView>, e: ConfigEntryView)
    requires
        unique_entry_ids(s),
        !has_entry(s, e.task_id),
    ensures
        entry_map(s.push(e)) == entry_map(s).insert(e.task_id, e.configs),
        unique_entry_ids(s.push(e)),
{
    let s1 = s.push(e);
    let m1 = entry_map(s1);
    let m2 = entry_map(s).insert(e.task_id, e.configs);
    assert forall|i: int, j: int|
        0 <= i < s1.len() && 0 <= j < s1.len() && i != j implies s1[i].task_id
        != s1[j].task_id by {
        if i < s.len() && j < s.len() {
        } else if i == s.len() {
            assert(s1[j] == s[j]);
        } else {
            assert(s1[i] == s[i]);
        }
    }
    assert forall|id: Seq<char>| #[trigger] m1.contains_key(id) == m2.contains_key(id) by {
        if has_entry(s1, id) {
            let w = choose|w: int| 0 <= w < s1.len() && s1[w].task_id == id;
            if w < s.len() {
                assert(s[w].task_id == id);
                assert(has_entry(s, id));
            } else {
                assert(id == e.task_id);
            }
        }
        if has_entry(s, id) {
            let w = choose|w: int| 0 <= w < s.len() && s[w].task_id == id;
            assert(s1[w].task_id == id);
            assert(has_entry(s1, id));
        }
        if id == e.task_id {
            assert(s1[s.len() as int].task_id == id);
            assert(has_entry(s1, id));
        }
    }
    assert forall|id: Seq<char>| m1.contains_key(id) implies m1[id] == m2[id] by {
        let k1 = choose|k: int| 0 <= k < s1.len() && s1[k].task_id == id;
        assert(s1[k1].task_id == id);
        if id == e.task_id {
            assert(k1 == s.len() as int || s[k1].task_id == id);
            assert(k1 == s.len() as int);
            assert(m1[id] == e.configs);
        } else {
            assert(k1 != s.len() as int);
            assert(s1[k1] == s[k1]);
            let k2 = choose|k: int| 0 <= k < s.len() && s[k].task_id == id;
            assert(s[k2].task_id == id);
            assert(k2 == k1);
            assert(m2[id] == s[k2].configs);
        }
    }
    assert(m1 =~= m2);
}

proof fn lemma_entry_map_remove(s: Seq<ConfigEntryView>, i: int)
    requires
        unique_entry_ids(s),
        0 <= i < s.len(),
    ensures
        entry_map(s.remove(i)) == entry_map(s).remove(s[i].task_id),
        unique_entry_ids(s.remove(i)),
{
    let s1 = s.remove(i);
    let m1 = entry_map(s1);
    let m2 = entry_map(s).remove(s[i].task_id);
    assert forall|a: int| 0 <= a < s1.len() implies #[trigger] s1[a] == s[if a < i {
        a
    } else {
        a + 1
    }] by {}
    assert forall|a: int, b: int|
        0 <= a < s1.len() && 0 <= b < s1.len() && a != b implies s1[a].task_id
        != s1[b].task_id by {
        let a0: int = if a < i { a } else { a + 1 };
        let b0: int = if b < i { b } else { b + 1 };
        assert(s1[a] == s[a0] && s1[b] == s[b0]);
    }
    assert forall|id: Seq<char>| #[trigger] m1.contains_key(id) == m2.contains_key(id) by {
        if has_entry(s1, id) {
            let w = choose|w: int| 0 <= w < s1.len() && s1[w].task_id == id;
            let w0: int = if w < i { w } else { w + 1 };
            assert(s[w0].task_id == id);
            assert(has_entry(s, id));
            assert(w0 != i);
            assert(id != s[i].task_id);
        }
        if has_entry(s, id) && id != s[i].task_id {
            let w = choose|w: int| 0 <= w < s.len() && s[w].task_id == id;
            assert(w != i);
            let w1: int = if w < i { w } else { w - 1 };
            assert(s1[w1] == s[w]);
            assert(has_entry(s1, id));
        }
    }
    assert forall|id: Seq<char>| m1.contains_key(id) implies m1[id] == m2[id] by {
        let k1 = choose|k: int| 0 <= k < s1.len() && s1[k].task_id == id;
        let k0: int = if k1 < i { k1 } else { k1 + 1 };
        assert(s1[k1] == s[k0]);
        let k2 = choose|k: int| 0 <= k < s.len() && s[k].task_id == id;
        assert(s[k2].task_id == id);
        assert(k2 == k0);
        assert(m2[id] == s[k2].configs);
    }
    assert(m1 =~= m2);
}

/// Webhook configs held in process memory: one entry per task id, each
/// an ordered set of configs with at most one per config id.
pub struct InMemoryPushNotificationConfigStore {
    entries: Vec<ConfigEntry>,
}

impl InMemoryPushNotificationConfigStore {
    pub fn new() -> (r: InMemoryPushNotificationConfigStore)
        ensures
            r.wf(),
            !r.fallible(),
            r.infos() == Map::<Seq<char>, Seq<PushConfigView>>::empty(),
    {
        let r = InMemoryPushNotificationConfigStore { entries: Vec::new() };
        proof {
            assert(r.entries.deep_view() =~= Seq::<ConfigEntryView>::empty());
            assert(r.infos() =~= Map::<Seq<char>, Seq<PushConfigView>>::empty());
        }
        r
    }
}

impl Default for InMemoryPushNotificationConfigStore {
    fn default() -> (r: Self)
        ensures
            r.wf(),
            !r.fallible(),
            r.infos() == Map::<Seq<char>, Seq<PushConfigView>>::empty(),
    {
        InMemoryPushNotificationConfigStore::new()
    }
}

/// Every stored set keeps at most one config per id.
pub open spec fn all_entries_unique(s: Seq<ConfigEntryView>) -> bool {
    forall|i: int| 0 <= i < s.len() ==> unique_config_ids(#[trigger] s[i].configs)
}

impl PushNotificationConfigStore for InMemoryPushNotificationConfigStore {
    closed spec fn infos(&self) -> Map<Seq<char>, Seq<PushConfigView>> {
        entry_map(self.entries.deep_view())
    }

    closed spec fn wf(&self) -> bool {
        unique_entry_ids(self.entries.deep_view()) && all_entries_unique(self.entries.deep_view())
    }

    closed spec fn fallible(&self) -> bool {
        false
    }

    #[verifier::loop_isolation(false)]
    fn set_info(&mut self, task_id: &String, config: PushNotificationConfig) -> (r: Result<
        (),
        A2AError,
    >) {
        let ghost s0 = self.entries.deep_view();
        let mut i: usize = 0;
        while i < self.entries.len()
            invariant
                i <= self.entries.len(),
                self.entries.deep_view() == s0,
                forall|j: int| 0 <= j < i ==> s0[j].task_id != task_id@,
            decreases self.entries.len() - i,
        {
            if self.entries[i].task_id == *task_id {
                proof {
                    assert(s0[i as int].task_id == task_id@);
                    lemma_entry_map_get(s0, i as int);
                }
                let new_id = self.entries[i].task_id.clone();
                let cfgs = clone_configs(&self.entries[i].configs);
                let cfgs = upsert_config_vec(cfgs, config);
                let slot = &mut self.entries[i];
                *slot = ConfigEntry { task_id: new_id, configs: cfgs };
                proof {
                    let s1 = self.entries.deep_view();
                    let e1 = ConfigEntryView {
                        task_id: s0[i as int].task_id,
                        configs: upsert_config(s0[i as int].configs, config@),
                    };
                    assert forall|j: int| 0 <= j < s1.len() implies s1[j] == s0.update(
                        i as int,
                        e1,
                    )[j] by {}
                    assert(s1 =~= s0.update(i as int, e1));
                    lemma_entry_map_update(s0, i as int, e1.configs);
                    lemma_upsert_config_preserves_unique(s0[i as int].configs, config@);
                    assert forall|j: int|
                        0 <= j < s1.len() implies unique_config_ids(#[trigger] s1[j].configs) by {
                        if j != i {
                            assert(s1[j] == s0[j]);
                        }
                    }
                }
                return Ok(());
            }
            i += 1;
        }
        proof {
            assert(!has_entry(s0, task_id@));
            assert(!entry_map(s0).contains_key(task_id@));
        }
        let mut cfgs: Vec<PushNotificationConfig> = Vec::new();
        cfgs.push(config);
        self.entries.push(ConfigEntry { task_id: task_id.clone(), configs: cfgs });
        proof {
            let s1 = self.entries.deep_view();
            let ghost e1 = ConfigEntryView {
                task_id: task_id@,
                configs: Seq::<PushConfigView>::empty().push(config@),
            };
            assert forall|j: int| 0 <= j < s1.len() implies s1[j] == s0.push(e1)[j] by {
                if j == s0.len() {
                    assert(s1[j].configs =~= e1.configs);
                    assert(s1[j] =~= e1);
                }
            }
            assert(s1 =~= s0.push(e1));
            lemma_entry_map_push(s0, e1);
            assert(upsert_config(configs_of(entry_map(s0), task_id@), config@)
                =~= e1.configs);
            assert forall|j: int|
                0 <= j < s1.len() implies unique_config_ids(#[trigger] s1[j].configs) by {
                if j < s0.len() {
                    assert(s1[j] == s0[j]);
                }
            }
        }
        Ok(())
    }

    #[verifier::loop_isolation(false)]
    fn get_info(&self, task_id: &String) -> (r: Result<Vec<PushNotificationConfig>, A2AError>) {
        let ghost s = self.entries.deep_view();
        let mut i: usize = 0;
        while i < self.entries.len()
            invariant
                i <= self.entries.len(),
                s == self.entries.deep_view(),
                forall|j: int| 0 <= j < i ==> s[j].task_id != task_id@,
            decreases self.entries.len() - i,
        {
            if self.entries[i].task_id == *task_id {
                let v = clone_configs(&self.entries[i].configs);
                proof {
                    assert(s[i as int].task_id == task_id@);
                    lemma_entry_map_get(s, i as int);
                }
                return Ok(v);
            }
            i += 1;
        }
        proof {
            assert(!has_entry(s, task_id@));
            assert(!entry_map(s).contains_key(task_id@));
        }
        let empty: Vec<PushNotificationConfig> = Vec::new();
        proof {
            assert(empty.deep_view() =~= Seq::<PushConfigView>::empty());
        }
        Ok(empty)
    }

    #[verifier::loop_isolation(false)]
    fn delete_info(&mut self, task_id: &String, config_id: Option<&String>) -> (r: Result<
        (),
        A2AError,
    >) {
        let ghost s0 = self.entries.deep_view();
        let mut i: usize = 0;
        while i < self.entries.len()
            invariant
                i <= self.entries.len(),
                self.entries.deep_view() == s0,
                forall|j: int| 0 <= j < i ==> s0[j].task_id != task_id@,
            decreases self.entries.len() - i,
        {
            if self.entries[i].task_id == *task_id {
                proof {
                    assert(s0[i as int].task_id == task_id@);
                    lemma_entry_map_get(s0, i as int);
                }
                match config_id {
                    None => {
                        self.entries.remove(i);
                        proof {
                            let s1 = self.entries.deep_view();
                            assert forall|j: int| 0 <= j < s1.len() implies s1[j] == s0.remove(
                                i as int,
                            )[j] by {}
                            assert(s1 =~= s0.remove(i as int));
                            lemma_entry_map_remove(s0, i as int);
                            assert forall|j: int|
                                0 <= j < s1.len() implies unique_config_ids(
                                #[trigger] s1[j].configs,
                            ) by {
                                let j0: int = if j < i { j } else { j + 1 };
                                assert(s1[j] == s0[j0]);
                            }
                        }
                        return Ok(());
                    },
                    Some(cid) => {
                        let new_id = self.entries[i].task_id.clone();
                        let cfgs = clone_configs(&self.entries[i].configs);
                        let cfgs = drop_config_vec(cfgs, cid);
                        let slot = &mut self.entries[i];
                        *slot = ConfigEntry { task_id: new_id, configs: cfgs };
                        proof {
                            let s1 = self.entries.deep_view();
                            let e1 = ConfigEntryView {
                                task_id: s0[i as int].task_id,
                                configs: drop_config(s0[i as int].configs, cid@),
                            };
                            assert forall|j: int| 0 <= j < s1.len() implies s1[j] == s0.update(
                                i as int,
                                e1,
                            )[j] by {}
                            assert(s1 =~= s0.update(i as int, e1));
                            lemma_entry_map_update(s0, i as int, e1.configs);
                            assert forall|j: int|
                                0 <= j < s1.len() implies unique_config_ids(
                                #[trigger] s1[j].configs,
                            ) by {
                                if j != i {
                                    assert(s1[j] == s0[j]);
                                } else {
                                    lemma_drop_config_preserves_unique(
                                        s0[i as int].configs,
                                        cid@,
                                    );
                                }
                            }
                        }
                        return Ok(());
                    },
                }
            }
            i += 1;
        }
        proof {
            assert(!has_entry(s0, task_id@));
            assert(!entry_map(s0).contains_key(task_id@));
            assert(entry_map(s0).remove(task_id@) =~= entry_map(s0));
        }
        Ok(())
    }
}

/// Replace-by-id or append, on the owned vector.
#[verifier::loop_isolation(false)]
fn upsert_config_vec(cfgs: Vec<PushNotificationConfig>, config: PushNotificationConfig) -> (r: Vec<
    PushNotificationConfig,
>)
    requires
        unique_config_ids(cfgs.deep_view()),
    ensures
        r.deep_view() == upsert_config(cfgs.deep_view(), config@),
{
    let ghost s0 = cfgs.deep_view();
    let mut cfgs = cfgs;
    let cid_opt = clone_opt_string(&config.id);
    match cid_opt {
        Some(cid) => {
            let mut i: usize = 0;
            while i < cfgs.len()
                invariant
                    i <= cfgs.len(),
                    cfgs.deep_view() == s0,
                    config@.id == Some(cid@),
                    forall|j: int| 0 <= j < i ==> s0[j].id != Some(cid@),
                decreases cfgs.len() - i,
            {
                let found = match &cfgs[i].id {
                    Some(x) => *x == cid,
                    None => false,
                };
                if found {
                    proof {
                        assert(s0[i as int].id == Some(cid@));
                        assert(has_config(s0, cid@));
                    }
                    let slot = &mut cfgs[i];
                    *slot = config;
                    proof {
                        let s1 = cfgs.deep_view();
                        assert forall|j: int| 0 <= j < s1.len() implies s1[j] == upsert_config(
                            s0,
                            config@,
                        )[j] by {
                            if j != i {
                                assert(s0[j].id != s0[i as int].id);
                            }
                        }
                        assert(s1 =~= upsert_config(s0, config@));
                    }
                    return cfgs;
                }
                i += 1;
            }
            proof {
                assert(!has_config(s0, cid@));
            }
            cfgs.push(config);
            proof {
                assert(cfgs.deep_view() =~= upsert_config(s0, config@));
            }
            cfgs
        },
        None => {
            cfgs.push(config);
            proof {
                assert(cfgs.deep_view() =~= upsert_config(s0, config@));
            }
            cfgs
        },
    }
}

/// Remove the config carrying this id, if any, on the owned vector.
#[verifier::loop_isolation(false)]
fn drop_config_vec(cfgs: Vec<PushNotificationConfig>, config_id: &String) -> (r: Vec<
    PushNotificationConfig,
>)
    requires
        unique_config_ids(cfgs.deep_view()),
    ensures
        r.deep_view() == drop_config(cfgs.deep_view(), config_id@),
{
    let ghost s0 = cfgs.deep_view();
    let ghost pred = |x: PushConfigView| x.id != Some(config_id@);
    let mut cfgs = cfgs;
    let mut i: usize = 0;
    while i < cfgs.len()
        invariant
            i <= cfgs.len(),
            cfgs.deep_view() == s0,
            forall|j: int| 0 <= j < i ==> s0[j].id != Some(config_id@),
        decreases cfgs.len() - i,
    {
        let found = match &cfgs[i].id {
            Some(x) => *x == *config_id,
            None => false,
        };
        if found {
            proof {
                assert(s0[i as int].id == Some(config_id@));
            }
            cfgs.remove(i);
            proof {
                let s1 = cfgs.deep_view();
                assert forall|j: int| 0 <= j < s1.len() implies s1[j] == s0.remove(i as int)[j] by {}
                assert(s1 =~= s0.remove(i as int));
                assert(!pred(s0[i as int]));
                assert forall|j: int| 0 <= j < s0.len() && j != i implies pred(
                    #[trigger] s0[j],
                ) by {
                    assert(s0[i as int].id is Some);
                }
                lemma_filter_drops_one(s0, pred, i as int);
            }
            return cfgs;
        }
        i += 1;
    }
    proof {
        lemma_filter_all_pass(s0, pred);
    }
    cfgs
}

/// Duplicate a config list; the copy denotes the same sequence.
pub(crate) fn clone_configs(v: &Vec<PushNotificationConfig>) -> (r: Vec<PushNotificationConfig>)
    ensures
        r.deep_view() == v.deep_view(),
{
    let r = v.clone();
    proof {
        assert forall|i: int| 0 <= i < r@.len() implies #[trigger] r@[i]@ == v@[i]@ by {
            assert(cloned::<PushNotificationConfig>(v@[i], r@[i]));
        }
        assert(r.deep_view() =~= v.deep_view());
    }
    r
}

} // verus!
