//! The simulation's world state as the host sees it.
//!
//! The state is owned jointly by the host thread and the inspector thread
//! through the guarded container in `bus`; the loaded module mutates it
//! through the entry points, the host only publishes telemetry into it.
//! The z-index mapping is kept as a vector of (sort key, entity index)
//! pairs ordered by strictly increasing key, which is this module's
//! invariant; its contracts speak of the mathematical map the pairs stand
//! for.

use vstd::prelude::*;
use crate::timing::TimingInfo;

verus! {

/// A world position. The simulation's own units are integral.
#[derive(Clone, Copy, Debug, PartialEq, Eq, Structural)]
pub struct Position {
    pub x: i64,
    pub y: i64,
    pub z: i64,
}

/// One simulated entity, as much of it as the host ever reads: its position,
/// whose `z` component feeds the diagnostic line.
#[derive(Clone, Copy, Debug, PartialEq, Eq, Structural)]
pub struct Entity {
    pub position: Position,
}

/// Host window geometry in pixels.
#[derive(Clone, Copy, Debug, PartialEq, Eq, Structural)]
pub struct Window {
    pub width: u64,
    pub height: u64,
}

/// The z-index pairs are ordered by strictly increasing key; keys are unique.
pub open spec fn zmap_sorted(m: Seq<(i64, usize)>) -> bool {
    forall|i: int, j: int| 0 <= i < j < m.len() ==> (#[trigger] m[i]).0 < (#[trigger] m[j]).0
}

/// The mathematical map a sequence of (key, entity index) pairs stands for.
pub open spec fn zmap_as_map(m: Seq<(i64, usize)>) -> Map<i64, usize>
    decreases m.len(),
{
    if m.len() == 0 {
        Map::empty()
    } else {
        zmap_as_map(m.drop_last()).insert(m.last().0, m.last().1)
    }
}

/// Mutable world state: diagnostic text slots, the entity list, the ordered
/// z-index mapping, the published timing snapshot, window geometry, and the
/// recording-active flag.
#[derive(Debug, PartialEq, Eq)]
pub struct SimulationState {
    /// User-visible diagnostic text slots; the host writes the timing line.
    pub texts: Vec<Option<String>>,
    /// The entity list; owned by the loaded module's logic.
    pub entities: Vec<Entity>,
    /// Ordered z-index mapping from sort key to entity index.
    pub zmap: Vec<(i64, usize)>,
    /// The timing snapshot published once per frame for display.
    pub timing_info: TimingInfo,
    /// Host window geometry.
    pub window: Window,
    /// Whether input recording is active, mirrored for display.
    pub recording: bool,
}

impl SimulationState {
    /// The z-index mapping obeys its ordering invariant.
    pub open spec fn wf(self) -> bool {
        zmap_sorted(self.zmap@)
    }

    /// The mathematical content of the z-index mapping.
    pub open spec fn zmap_view(self) -> Map<i64, usize> {
        zmap_as_map(self.zmap@)
    }

    /// The startup state: two empty text slots, no entities, an empty
    /// z-index mapping, recording off.
    pub fn new(window: Window, timing_info: TimingInfo) -> (r: SimulationState)
        ensures
            r.wf(),
            r.texts@.len() == 2,
            r.texts@[0] is None,
            r.texts@[1] is None,
            r.entities@ == Seq::<Entity>::empty(),
            r.zmap@ == Seq::<(i64, usize)>::empty(),
            r.zmap_view() == Map::<i64, usize>::empty(),
            r.timing_info == timing_info,
            r.window == window,
            !r.recording,
    {
        let mut texts: Vec<Option<String>> = Vec::new();
        texts.push(None);
        texts.push(None);
        SimulationState {
            texts,
            entities: Vec::new(),
            zmap: Vec::new(),
            timing_info,
            window,
            recording: false,
        }
    }

    /// Publish a fresh timing snapshot; nothing else changes.
    pub fn set_timing_info(&mut self, timing_info: TimingInfo)
        ensures
            *final(self) == (SimulationState { timing_info, ..*old(self) }),
    {
        self.timing_info = timing_info;
    }

    /// Record the window geometry; nothing else changes.
    pub fn set_window(&mut self, window: Window)
        ensures
            *final(self) == (SimulationState { window, ..*old(self) }),
    {
        self.window = window;
    }

    /// Mirror the recording-active flag; nothing else changes.
    pub fn set_recording(&mut self, recording: bool)
        ensures
            *final(self) == (SimulationState { recording, ..*old(self) }),
    {
        self.recording = recording;
    }

    /// Write one diagnostic text slot; the other slots are untouched.
    pub fn set_text(&mut self, slot: usize, text: Option<String>)
        requires
            slot < old(self).texts@.len(),
        ensures
            final(self).texts@ == old(self).texts@.update(slot as int, text),
            final(self).entities == old(self).entities,
            final(self).zmap == old(self).zmap,
            final(self).timing_info == old(self).timing_info,
            final(self).window == old(self).window,
            final(self).recording == old(self).recording,
    {
        self.texts.set(slot, text);
    }

    /// The z component of the first entity's position, used as the sample
    /// value on the diagnostic line; `None` when there are no entities yet.
    pub fn first_entity_z(&self) -> (r: Option<i64>)
        ensures
            self.entities@.len() == 0 ==> r is None,
            self.entities@.len() > 0 ==> r == Some(self.entities@[0].position.z),
    {
        if self.entities.len() == 0 {
            None
        } else {
            Some(self.entities[0].position.z)
        }
    }

    /// Look a sort key up in the z-index mapping.
    pub fn zmap_get(&self, key: i64) -> (r: Option<usize>)
        requires
            self.wf(),
        ensures
            self.zmap_view().contains_key(key) ==> r == Some(self.zmap_view()[key]),
            !self.zmap_view().contains_key(key) ==> r is None,
    {
        proof {
            lemma_zmap_as_map_of_sorted(self.zmap@);
        }
        let n = self.zmap.len();
        let mut i: usize = 0;
        while i < n
            invariant
                n == self.zmap@.len(),
                i <= n,
                zmap_sorted(self.zmap@),
                zmap_characterises(self.zmap@, self.zmap_view()),
                forall|j: int| 0 <= j < i ==> (#[trigger] self.zmap@[j]).0 != key,
            decreases n - i,
        {
            let (k, v) = self.zmap[i];
            if k == key {
                return Some(v);
            }
            i = i + 1;
        }
        None
    }

    /// Insert a (sort key, entity index) pair into the z-index mapping,
    /// replacing the index stored under an existing key; the ordering
    /// invariant is preserved and the mathematical content gains exactly
    /// this binding.
    pub fn zmap_insert(&mut self, key: i64, index: usize)
        requires
            old(self).wf(),
        ensures
            final(self).wf(),
            final(self).zmap_view() == old(self).zmap_view().insert(key, index),
            final(self).texts == old(self).texts,
            final(self).entities == old(self).entities,
            final(self).timing_info == old(self).timing_info,
            final(self).window == old(self).window,
            final(self).recording == old(self).recording,
    {
        let ghost m0 = self.zmap@;
        let n = self.zmap.len();
        let mut i: usize = 0;
        while i < n && self.zmap[i].0 < key
            invariant
                n == self.zmap@.len(),
                i <= n,
                self.zmap@ == m0,
                forall|j: int| 0 <= j < i ==> (#[trigger] m0[j]).0 < key,
            decreases n - i,
        {
            i = i + 1;
        }
        proof {
            assert(forall|j: int| i < j < m0.len() ==> (#[trigger] m0[j]).0 > m0[i as int].0);
        }
        if i < self.zmap.len() && self.zmap[i].0 == key {
            self.zmap.set(i, (key, index));
            proof {
                lemma_zmap_replace(m0, self.zmap@, i as int, key, index);
            }
        } else {
            self.zmap.insert(i, (key, index));
            proof {
                lemma_zmap_fresh_insert(m0, self.zmap@, i as int, key, index);
            }
        }
    }
}

impl Clone for SimulationState {
    /// A clone carries the exact contents: every list element for element
    /// (the text slots cloned string by string), every scalar field as it is.
    fn clone(&self) -> (res: Self)
        ensures
            res.texts@ == self.texts@,
            res.entities@ == self.entities@,
            res.zmap@ == self.zmap@,
            res.timing_info == self.timing_info,
            res.window == self.window,
            res.recording == self.recording,
            res.wf() == self.wf(),
            res.zmap_view() == self.zmap_view(),
    {
        let n = self.texts.len();
        let mut texts: Vec<Option<String>> = Vec::new();
        let mut i: usize = 0;
        while i < n
            invariant
                n == self.texts@.len(),
                i <= n,
                texts@ == self.texts@.subrange(0, i as int),
            decreases n - i,
        {
            let slot: Option<String> = match &self.texts[i] {
                Some(text) => Some(text.clone()),
                None => None,
            };
            texts.push(slot);
            proof {
                assert(texts@ =~= self.texts@.subrange(0, i + 1));
            }
            i = i + 1;
        }
        proof {
            assert(texts@ =~= self.texts@);
        }
        let entities = self.entities.clone();
        proof {
            assert(entities@ =~= self.entities@);
        }
        let m = self.zmap.len();
        let mut zmap: Vec<(i64, usize)> = Vec::new();
        let mut j: usize = 0;
        while j < m
            invariant
                m == self.zmap@.len(),
                j <= m,
                zmap@ == self.zmap@.subrange(0, j as int),
            decreases m - j,
        {
            zmap.push(self.zmap[j]);
            proof {
                assert(zmap@ =~= self.zmap@.subrange(0, j + 1));
            }
            j = j + 1;
        }
        proof {
            assert(zmap@ =~= self.zmap@);
        }
        SimulationState {
            texts,
            entities,
            zmap,
            timing_info: self.timing_info,
            window: self.window,
            recording: self.recording,
        }
    }
}

/// A sorted pair sequence and the map it stands for agree pointwise: the map
/// holds exactly the keys of the pairs, each bound to its paired index.
pub open spec fn zmap_characterises(m: Seq<(i64, usize)>, view: Map<i64, usize>) -> bool {
    &&& forall|k: i64| view.contains_key(k) <==> exists|j: int|
        0 <= j < m.len() && (#[trigger] m[j]).0 == k
    &&& forall|j: int| 0 <= j < m.len() ==> view.contains_key((#[trigger] m[j]).0)
        && view[m[j].0] == m[j].1
}

/// For a sequence with unique keys, the map built by folding the pairs binds
/// exactly each key to its paired value.
pub proof fn lemma_zmap_as_map_of_sorted(m: Seq<(i64, usize)>)
    requires
        zmap_sorted(m),
    ensures
        zmap_characterises(m, zmap_as_map(m)),
    decreases m.len(),
{
    if m.len() > 0 {
        assert(zmap_sorted(m.drop_last())) by {
            assert(forall|i: int, j: int| 0 <= i < j < m.len() - 1 ==> (#[trigger] m
                .drop_last()[i]).0 < (#[trigger] m.drop_last()[j]).0);
        }
        lemma_zmap_as_map_of_sorted(m.drop_last());
        assert(forall|j: int| 0 <= j < m.len() - 1 ==> (#[trigger] m[j]).0 < m.last().0);
        assert(forall|j: int| 0 <= j < m.len() - 1 ==> m.drop_last()[j] == m[j]);
    }
}

proof fn lemma_zmap_replace(m0: Seq<(i64, usize)>, m1: Seq<(i64, usize)>, i: int, key: i64, index: usize)
    requires
        zmap_sorted(m0),
        0 <= i < m0.len(),
        m0[i].0 == key,
        m1 == m0.update(i, (key, index)),
    ensures
        zmap_sorted(m1),
        zmap_as_map(m1) == zmap_as_map(m0).insert(key, index),
{
    lemma_zmap_as_map_of_sorted(m0);
    assert(forall|j: int| 0 <= j < m0.len() && j != i ==> #[trigger] m1[j] == m0[j]);
    assert(zmap_sorted(m1));
    lemma_zmap_as_map_of_sorted(m1);
    let map0 = zmap_as_map(m0);
    let map1 = zmap_as_map(m1);
    assert forall|k: i64| map1.contains_key(k) implies map0.insert(key, index).contains_key(
        k,
    ) && map1[k] == map0.insert(key, index)[k] by {
        let j = choose|j: int| 0 <= j < m1.len() && (#[trigger] m1[j]).0 == k;
        if k == key {
            assert(m1[i] == (key, index));
            assert(map1[key] == index);
        } else {
            assert(j != i);
            assert(m0[j] == m1[j]);
        }
    }
    assert forall|k: i64| map0.insert(key, index).contains_key(k) implies map1.contains_key(
        k,
    ) by {
        if k == key {
            assert(m1[i].0 == key);
        } else {
            let j = choose|j: int| 0 <= j < m0.len() && (#[trigger] m0[j]).0 == k;
            assert(j != i);
            assert(m1[j].0 == k);
        }
    }
    assert(map1 =~= map0.insert(key, index));
}

proof fn lemma_zmap_fresh_insert(m0: Seq<(i64, usize)>, m1: Seq<(i64, usize)>, i: int, key: i64, index: usize)
    requires
        zmap_sorted(m0),
        0 <= i <= m0.len(),
        forall|j: int| 0 <= j < i ==> (#[trigger] m0[j]).0 < key,
        forall|j: int| i <= j < m0.len() ==> (#[trigger] m0[j]).0 > key,
        m1 == m0.insert(i, (key, index)),
    ensures
        zmap_sorted(m1),
        zmap_as_map(m1) == zmap_as_map(m0).insert(key, index),
{
    lemma_zmap_as_map_of_sorted(m0);
    assert(forall|j: int| 0 <= j < i ==> #[trigger] m1[j] == m0[j]);
    assert(m1[i] == (key, index));
    assert(forall|j: int| i < j < m1.len() ==> #[trigger] m1[j] == m0[j - 1]);
    assert(zmap_sorted(m1));
    lemma_zmap_as_map_of_sorted(m1);
    let map0 = zmap_as_map(m0);
    let map1 = zmap_as_map(m1);
    assert forall|k: i64| map1.contains_key(k) implies map0.insert(key, index).contains_key(
        k,
    ) && map1[k] == map0.insert(key, index)[k] by {
        let j = choose|j: int| 0 <= j < m1.len() && (#[trigger] m1[j]).0 == k;
        if k == key {
            assert(map1[key] == index);
        } else if j < i {
            assert(m1[j] == m0[j]);
            assert(m0[j].0 == k);
        } else {
            assert(j != i);
            assert(m1[j] == m0[j - 1]);
            assert(m0[j - 1].0 == k);
        }
    }
    assert forall|k: i64| map0.insert(key, index).contains_key(k) implies map1.contains_key(
        k,
    ) by {
        if k == key {
            assert(m1[i].0 == key);
        } else {
            let j = choose|j: int| 0 <= j < m0.len() && (#[trigger] m0[j]).0 == k;
            if j < i {
                assert(m1[j].0 == k);
            } else {
                assert(m1[j + 1].0 == k);
            }
        }
    }
    assert(map1 =~= map0.insert(key, index));
}

} // verus!
