//! The installer workflow: an ordered run of steps, their availability, and
//! the navigation state machine over them.
//!
//! Each step id of a run is either known or unknown; a known step is either
//! available for navigation or not; at most one step is active. The first
//! configured step is made available when the run is built; every other step
//! becomes available only through an explicit [`Installer::make_step_available`]
//! call. Navigation moves to the nearest available step strictly after or
//! before the active one, in configuration order.

use vstd::prelude::*;
use crate::step::{created_step, Step, StepRegistry};

verus! {

/// A recoverable navigation failure, surfaced to the frontend.
#[derive(Debug)]
pub enum NavigationError {
    /// No available step follows the active one.
    NoNextStep,
    /// No available step precedes the active one.
    NoPreviousStep,
    /// The id is not one of the run's configured steps.
    StepNotFound(String),
    /// The step is configured but not available for navigation.
    StepUnavailable(String),
}

/// A failure while building or driving the installer.
#[derive(Debug)]
pub enum Error {
    /// The privileged service connection could not be established.
    ConnectionError(String),
    /// No backend executable path was configured.
    MissingBackendPath,
    /// A configured step id did not resolve against the registry.
    StepLoadError(String),
    /// A navigation failure.
    NavigationError(NavigationError),
}

/// One configured step of a run: its id, its instance, and whether it is
/// currently available for navigation.
pub struct StepEntry {
    /// The step's unique id within the run.
    pub id: String,
    /// The resolved step instance.
    pub step: Step,
    /// Whether navigation may move to this step.
    pub available: bool,
}

/// The ids of the entries, in configuration order.
pub open spec fn entry_ids(entries: Seq<StepEntry>) -> Seq<Seq<char>> {
    entries.map_values(|e: StepEntry| e.id@)
}

/// The views of a sequence of strings.
pub open spec fn string_views(s: Seq<String>) -> Seq<Seq<char>> {
    s.map_values(|x: String| x@)
}

/// The ids of the available entries, in configuration order.
pub open spec fn available_entry_ids(entries: Seq<StepEntry>) -> Seq<Seq<char>>
    decreases entries.len(),
{
    if entries.len() == 0 {
        Seq::empty()
    } else {
        let rest = available_entry_ids(entries.drop_last());
        if entries.last().available {
            rest.push(entries.last().id@)
        } else {
            rest
        }
    }
}

/// The position of the first available entry at or after `i`, if any.
pub open spec fn next_available_index(entries: Seq<StepEntry>, i: int) -> Option<int>
    decreases entries.len() - i,
{
    if i < 0 || i >= entries.len() {
        None
    } else if entries[i].available {
        Some(i)
    } else {
        next_available_index(entries, i + 1)
    }
}

/// The position of the last available entry at or before `i`, if any.
pub open spec fn prev_available_index(entries: Seq<StepEntry>, i: int) -> Option<int>
    decreases i + 1,
{
    if i < 0 || i >= entries.len() {
        None
    } else if entries[i].available {
        Some(i)
    } else {
        prev_available_index(entries, i - 1)
    }
}

/// `next_available_index` names the nearest available entry at or after `i`:
/// the answer is available, in range, and nothing available lies between.
pub proof fn lemma_next_available_index(entries: Seq<StepEntry>, i: int)
    ensures
        next_available_index(entries, i) matches Some(j) ==> i <= j < entries.len()
            && entries[j].available && (forall|k: int|
            i <= k < j ==> !(#[trigger] entries[k].available)),
        next_available_index(entries, i) is None && 0 <= i ==> forall|k: int|
            i <= k < entries.len() ==> !(#[trigger] entries[k].available),
    decreases entries.len() - i,
{
    if i < 0 || i >= entries.len() {
    } else if entries[i].available {
    } else {
        lemma_next_available_index(entries, i + 1);
    }
}

/// `prev_available_index` names the nearest available entry at or before `i`:
/// the answer is available, in range, and nothing available lies between.
pub proof fn lemma_prev_available_index(entries: Seq<StepEntry>, i: int)
    requires
        i < entries.len(),
    ensures
        prev_available_index(entries, i) matches Some(j) ==> 0 <= j <= i && entries[j].available
            && (forall|k: int| j < k <= i ==> !(#[trigger] entries[k].available)),
        prev_available_index(entries, i) is None ==> forall|k: int|
            0 <= k <= i ==> !(#[trigger] entries[k].available),
    decreases i + 1,
{
    if i < 0 || i >= entries.len() {
    } else if entries[i].available {
    } else {
        lemma_prev_available_index(entries, i - 1);
    }
}

/// The installer workflow / mechanism: the run's configured steps, the
/// navigation state over them, and the path of the privileged backend the
/// run talks to.
pub struct Installer {
    steps: Vec<StepEntry>,
    active_step: Option<String>,
    backend_path: String,
}

impl Installer {
    /// The run's step entries, in configuration order.
    pub closed spec fn spec_entries(&self) -> Seq<StepEntry> {
        self.steps@
    }

    /// The run's step ids, in configuration order.
    pub open spec fn spec_ids(&self) -> Seq<Seq<char>> {
        entry_ids(self.spec_entries())
    }

    /// The active step id, if one is set.
    pub closed spec fn spec_active(&self) -> Option<Seq<char>> {
        match self.active_step {
            Some(s) => Some(s@),
            None => None,
        }
    }

    /// The configured backend executable path.
    pub closed spec fn spec_backend_path(&self) -> Seq<char> {
        self.backend_path@
    }

    /// Whether `id` is one of the run's configured steps.
    pub open spec fn is_known(&self, id: Seq<char>) -> bool {
        self.spec_ids().contains(id)
    }

    /// The position of `id` among the configured steps.
    pub open spec fn spec_index_of(&self, id: Seq<char>) -> Option<int> {
        self.spec_ids().index_of_first(id)
    }

    /// Whether the step `id` is available for navigation.
    pub open spec fn spec_is_available(&self, id: Seq<char>) -> bool {
        exists|i: int|
            0 <= i < self.spec_entries().len() && (#[trigger] self.spec_entries()[i]).id@ == id
                && self.spec_entries()[i].available
    }

    /// No two configured steps share an id.
    pub open spec fn wf(&self) -> bool {
        forall|i: int, j: int|
            0 <= i < j < self.spec_ids().len() ==> self.spec_ids()[i] != self.spec_ids()[j]
    }

    /// The navigation invariant: the active step, when set, is a member of
    /// the available steps.
    pub open spec fn nav_invariant(&self) -> bool {
        match self.spec_active() {
            Some(a) => self.spec_is_available(a),
            None => true,
        }
    }

    /// The position the navigation moves to on a next-step request: the
    /// first available entry strictly after the active one.
    pub open spec fn spec_next_index(&self) -> Option<int> {
        match self.spec_active() {
            None => None,
            Some(a) => match self.spec_index_of(a) {
                None => None,
                Some(ci) => next_available_index(self.spec_entries(), ci + 1),
            },
        }
    }

    /// The position the navigation moves to on a previous-step request: the
    /// last available entry strictly before the active one.
    pub open spec fn spec_prev_index(&self) -> Option<int> {
        match self.spec_active() {
            None => None,
            Some(a) => match self.spec_index_of(a) {
                None => None,
                Some(ci) => prev_available_index(self.spec_entries(), ci - 1),
            },
        }
    }
}

/// Every available step is a configured step: availability never leaves the
/// run's step order.
pub proof fn lemma_available_steps_known(inst: &Installer, id: Seq<char>)
    ensures
        inst.spec_is_available(id) ==> inst.is_known(id),
{
    if inst.spec_is_available(id) {
        let i = choose|i: int|
            0 <= i < inst.spec_entries().len() && (#[trigger] inst.spec_entries()[i]).id@ == id
                && inst.spec_entries()[i].available;
        assert(inst.spec_ids()[i] == id);
    }
}

impl Installer {
    /// Creates a new installer builder.
    pub fn builder() -> (r: InstallerBuilder)
        ensures
            r.spec_step_ids() =~= Seq::<Seq<char>>::empty(),
            r.spec_active() is None,
            r.spec_backend_path() is None,
    {
        InstallerBuilder::new()
    }

    /// The active step id, if one is set.
    pub fn active_step_id(&self) -> (r: Option<&str>)
        ensures
            r matches Some(s) ==> self.spec_active() == Some(s@),
            r is None <==> self.spec_active() is None,
    {
        match &self.active_step {
            Some(s) => Some(s.as_str()),
            None => None,
        }
    }

    /// The position of `key` among the configured steps.
    fn position_of(&self, key: &String) -> (r: Option<usize>)
        ensures
            r matches Some(u) ==> self.spec_index_of(key@) == Some(u as int) && u
                < self.spec_entries().len() && self.spec_entries()[u as int].id@ == key@,
            r is None <==> self.spec_index_of(key@) is None,
    {
        let mut i: usize = 0;
        while i < self.steps.len()
            invariant
                i <= self.steps.len(),
                forall|k: int| 0 <= k < i ==> self.spec_ids()[k] != key@,
            decreases self.steps.len() - i,
        {
            if self.steps[i].id == *key {
                proof {
                    assert(self.spec_ids()[i as int] == key@);
                    assert(self.spec_ids().contains(key@));
                    self.spec_ids().index_of_first_ensures(key@);
                    let fi = self.spec_ids().index_of_first(key@)->0;
                    if fi < i as int {
                        assert(self.spec_ids()[fi] == key@);
                    }
                    assert(fi == i as int);
                }
                return Some(i);
            }
            i = i + 1;
        }
        proof {
            if self.spec_ids().contains(key@) {
                let w = choose|w: int|
                    0 <= w < self.spec_ids().len() && self.spec_ids()[w] == key@;
                assert(self.spec_ids()[w] != key@);
            }
            self.spec_ids().index_of_first_ensures(key@);
        }
        None
    }

    /// The active step instance: set exactly when an active id is set and
    /// that id is one of the configured steps.
    pub fn active_step(&self) -> (r: Option<&Step>)
        ensures
            r is Some <==> (self.spec_active() matches Some(a) && self.is_known(a)),
            r matches Some(st) ==> (self.spec_active() matches Some(a) && self.spec_index_of(a)
                matches Some(i) && st == self.spec_entries()[i].step),
    {
        let id = match &self.active_step {
            Some(s) => s,
            None => {
                return None;
            }
        };
        match self.position_of(id) {
            Some(i) => {
                proof {
                    self.spec_ids().index_of_first_ensures(id@);
                }
                Some(&self.steps[i].step)
            }
            None => {
                proof {
                    self.spec_ids().index_of_first_ensures(id@);
                }
                None
            }
        }
    }

    /// A configured step instance by id.
    pub fn step(&self, step_id: &str) -> (r: Option<&Step>)
        ensures
            r is Some <==> self.is_known(step_id@),
            r matches Some(st) ==> (self.spec_index_of(step_id@) matches Some(i) && st
                == self.spec_entries()[i].step),
    {
        let key: String = step_id.to_owned();
        match self.position_of(&key) {
            Some(i) => {
                proof {
                    self.spec_ids().index_of_first_ensures(key@);
                }
                Some(&self.steps[i].step)
            }
            None => {
                proof {
                    self.spec_ids().index_of_first_ensures(key@);
                }
                None
            }
        }
    }

    /// Sets the active step unconditionally. Navigation entry points check
    /// availability before calling this.
    pub fn set_active_step(&mut self, step_id: &str)
        ensures
            final(self).spec_active() == Some(step_id@),
            final(self).spec_entries() == old(self).spec_entries(),
            final(self).spec_backend_path() == old(self).spec_backend_path(),
    {
        self.active_step = Some(step_id.to_owned());
    }

    /// All step ids in configuration order.
    pub fn step_ids(&self) -> (r: Vec<String>)
        ensures
            string_views(r@) == self.spec_ids(),
    {
        let mut out: Vec<String> = Vec::new();
        let mut i: usize = 0;
        while i < self.steps.len()
            invariant
                i <= self.steps.len(),
                out@.len() == i as int,
                string_views(out@) == self.spec_ids().subrange(0, i as int),
            decreases self.steps.len() - i,
        {
            out.push(self.steps[i].id.clone());
            proof {
                assert(string_views(out@) =~= self.spec_ids().subrange(0, i + 1 as int));
            }
            i = i + 1;
        }
        proof {
            assert(self.spec_ids().subrange(0, self.spec_ids().len() as int) =~= self.spec_ids());
        }
        out
    }

    /// Makes a step available for navigation. Fails with `StepNotFound`
    /// exactly when `step_id` is not one of the run's configured steps, and
    /// then changes nothing; on success only the availability of `step_id`
    /// changes (to available), so the navigation invariant is preserved.
    pub fn make_step_available(&mut self, step_id: &str) -> (r: Result<(), NavigationError>)
        ensures
            !old(self).is_known(step_id@) ==> (r matches Err(NavigationError::StepNotFound(s))
                && s@ == step_id@ && *final(self) == *old(self)),
            old(self).is_known(step_id@) ==> (r is Ok && final(self).spec_is_available(step_id@)
                && final(self).spec_ids() == old(self).spec_ids() && (forall|x: Seq<char>|
                x != step_id@ ==> final(self).spec_is_available(x) == old(self).spec_is_available(
                    x,
                )) && final(self).spec_active() == old(self).spec_active()
                && final(self).spec_backend_path() == old(self).spec_backend_path()),
            old(self).nav_invariant() ==> final(self).nav_invariant(),
    {
        let key: String = step_id.to_owned();
        let pos = match self.position_of(&key) {
            Some(i) => i,
            None => {
                proof {
                    self.spec_ids().index_of_first_ensures(key@);
                }
                return Err(NavigationError::StepNotFound(key));
            }
        };
        proof {
            self.spec_ids().index_of_first_ensures(key@);
        }
        let ghost pre = self.steps@;
        self.steps[pos].available = true;
        proof {
            assert(self.steps@[pos as int].id@ == key@);
            assert(self.steps@[pos as int].available);
            assert(self.spec_is_available(key@));
            assert(self.spec_ids() =~= entry_ids(pre));
            assert forall|x: Seq<char>| x != key@ implies self.spec_is_available(x) == (
            exists|i: int|
                0 <= i < pre.len() && (#[trigger] pre[i]).id@ == x && pre[i].available) by {
                if self.spec_is_available(x) {
                    let i = choose|i: int|
                        0 <= i < self.steps@.len() && (#[trigger] self.steps@[i]).id@ == x
                            && self.steps@[i].available;
                    assert(pre[i].id@ == x && pre[i].available);
                }
                if exists|i: int| 0 <= i < pre.len() && (#[trigger] pre[i]).id@ == x
                    && pre[i].available {
                    let i = choose|i: int|
                        0 <= i < pre.len() && (#[trigger] pre[i]).id@ == x && pre[i].available;
                    assert(self.steps@[i].id@ == x && self.steps@[i].available);
                }
            }
            if old(self).nav_invariant() {
                match old(self).spec_active() {
                    Some(a) => {
                        if a != key@ {
                            assert(old(self).spec_is_available(a));
                        }
                    }
                    None => {}
                }
            }
        }
        Ok(())
    }

    /// Makes a step unavailable for future navigation. This never touches
    /// the active step: an active step may become unavailable without being
    /// forcibly deactivated.
    pub fn make_step_unavailable(&mut self, step_id: &str)
        ensures
            !final(self).spec_is_available(step_id@),
            final(self).spec_ids() == old(self).spec_ids(),
            forall|x: Seq<char>|
                x != step_id@ ==> final(self).spec_is_available(x) == old(self).spec_is_available(
                    x,
                ),
            final(self).spec_active() == old(self).spec_active(),
            final(self).spec_backend_path() == old(self).spec_backend_path(),
    {
        let key: String = step_id.to_owned();
        let ghost pre = self.steps@;
        let mut i: usize = 0;
        while i < self.steps.len()
            invariant
                i <= self.steps.len(),
                self.steps@.len() == pre.len(),
                forall|k: int|
                    0 <= k < pre.len() ==> (#[trigger] self.steps@[k]).id@ == pre[k].id@
                        && self.steps@[k].step == pre[k].step,
                forall|k: int|
                    0 <= k < i ==> ((#[trigger] self.steps@[k]).available <==> (pre[k].available
                        && pre[k].id@ != key@)),
                forall|k: int|
                    i <= k < pre.len() ==> (#[trigger] self.steps@[k]).available
                        == pre[k].available,
                self.active_step == old(self).active_step,
                self.backend_path == old(self).backend_path,
                key@ == step_id@,
            decreases self.steps.len() - i,
        {
            if self.steps[i].id == key {
                self.steps[i].available = false;
            }
            i = i + 1;
        }
        proof {
            assert(self.spec_ids() =~= entry_ids(pre));
            assert forall|x: Seq<char>| x != step_id@ implies self.spec_is_available(x) == (
            exists|k: int|
                0 <= k < pre.len() && (#[trigger] pre[k]).id@ == x && pre[k].available) by {
                if self.spec_is_available(x) {
                    let k = choose|k: int|
                        0 <= k < self.steps@.len() && (#[trigger] self.steps@[k]).id@ == x
                            && self.steps@[k].available;
                    assert(pre[k].id@ == x && pre[k].available);
                }
                if exists|k: int| 0 <= k < pre.len() && (#[trigger] pre[k]).id@ == x
                    && pre[k].available {
                    let k = choose|k: int|
                        0 <= k < pre.len() && (#[trigger] pre[k]).id@ == x && pre[k].available;
                    assert(self.steps@[k].id@ == x && self.steps@[k].available);
                }
            }
        }
    }

    /// Whether a step is available for navigation.
    pub fn is_step_available(&self, step_id: &str) -> (r: bool)
        ensures
            r == self.spec_is_available(step_id@),
    {
        let key: String = step_id.to_owned();
        let mut i: usize = 0;
        while i < self.steps.len()
            invariant
                i <= self.steps.len(),
                key@ == step_id@,
                forall|k: int|
                    0 <= k < i ==> !((#[trigger] self.spec_entries()[k]).id@ == step_id@
                        && self.spec_entries()[k].available),
            decreases self.steps.len() - i,
        {
            if self.steps[i].available && self.steps[i].id == key {
                return true;
            }
            i = i + 1;
        }
        false
    }

    /// The ids of all available steps, in configuration order.
    pub fn available_steps(&self) -> (r: Vec<String>)
        ensures
            string_views(r@) == available_entry_ids(self.spec_entries()),
    {
        let mut out: Vec<String> = Vec::new();
        let mut i: usize = 0;
        while i < self.steps.len()
            invariant
                i <= self.steps.len(),
                string_views(out@) == available_entry_ids(
                    self.spec_entries().subrange(0, i as int),
                ),
            decreases self.steps.len() - i,
        {
            proof {
                assert(self.spec_entries().subrange(0, i + 1 as int).drop_last()
                    =~= self.spec_entries().subrange(0, i as int));
                assert(self.spec_entries().subrange(0, i + 1 as int).last()
                    == self.spec_entries()[i as int]);
            }
            if self.steps[i].available {
                out.push(self.steps[i].id.clone());
                proof {
                    assert(string_views(out@) =~= available_entry_ids(
                        self.spec_entries().subrange(0, i as int),
                    ).push(self.spec_entries()[i as int].id@));
                }
            } else {
                proof {
                    assert(string_views(out@) =~= available_entry_ids(
                        self.spec_entries().subrange(0, i + 1 as int),
                    ));
                }
            }
            i = i + 1;
        }
        proof {
            assert(self.spec_entries().subrange(0, self.spec_entries().len() as int)
                =~= self.spec_entries());
        }
        out
    }

    /// Navigates to a specific step. Fails with `StepNotFound` exactly when
    /// the id is unknown and with `StepUnavailable` exactly when the step is
    /// known but unavailable; in both failure cases nothing changes, in
    /// particular not the active step. On success only the active step
    /// changes, to the requested id, which re-establishes the navigation
    /// invariant.
    pub fn goto_step(&mut self, step_id: &str) -> (r: Result<(), NavigationError>)
        ensures
            !old(self).is_known(step_id@) ==> (r matches Err(NavigationError::StepNotFound(s))
                && s@ == step_id@ && *final(self) == *old(self)),
            old(self).is_known(step_id@) && !old(self).spec_is_available(step_id@) ==> (r matches
            Err(NavigationError::StepUnavailable(s)) && s@ == step_id@ && *final(self) == *old(self)),
            old(self).is_known(step_id@) && old(self).spec_is_available(step_id@) ==> (r is Ok
                && final(self).spec_active() == Some(step_id@) && final(self).spec_entries()
                == old(self).spec_entries() && final(self).spec_backend_path() == old(self).spec_backend_path() && final(self).nav_invariant()),
    {
        let key: String = step_id.to_owned();
        match self.position_of(&key) {
            Some(_) => {
                proof {
                    self.spec_ids().index_of_first_ensures(key@);
                }
            }
            None => {
                proof {
                    self.spec_ids().index_of_first_ensures(key@);
                }
                return Err(NavigationError::StepNotFound(key));
            }
        }
        if !self.is_step_available(step_id) {
            return Err(NavigationError::StepUnavailable(key));
        }
        self.set_active_step(step_id);
        Ok(())
    }

    /// The position of the first available step strictly after the active
    /// one, scanning the configuration order.
    fn next_available_pos(&self) -> (r: Option<usize>)
        ensures
            r matches Some(u) ==> self.spec_next_index() == Some(u as int) && u
                < self.spec_entries().len() && self.spec_entries()[u as int].available,
            r is None <==> self.spec_next_index() is None,
    {
        let current = match &self.active_step {
            Some(s) => s,
            None => {
                return None;
            }
        };
        let ci = match self.position_of(current) {
            Some(i) => i,
            None => {
                return None;
            }
        };
        let n = self.steps.len();
        proof {
            self.spec_ids().index_of_first_ensures(current@);
            assert(self.spec_entries().len() == self.steps@.len());
            assert(ci < n);
        }
        let mut j: usize = ci + 1;
        while j < self.steps.len()
            invariant
                ci < self.steps.len(),
                ci + 1 <= j <= self.steps.len(),
                next_available_index(self.spec_entries(), ci + 1 as int) == next_available_index(
                    self.spec_entries(),
                    j as int,
                ),
                self.spec_next_index() == next_available_index(self.spec_entries(), ci + 1 as int),
            decreases self.steps.len() - j,
        {
            if self.steps[j].available {
                proof {
                    assert(next_available_index(self.spec_entries(), j as int) == Some(j as int));
                }
                return Some(j);
            }
            proof {
                assert(next_available_index(self.spec_entries(), j as int)
                    == next_available_index(self.spec_entries(), j + 1 as int));
            }
            j = j + 1;
        }
        proof {
            assert(next_available_index(self.spec_entries(), j as int) is None);
        }
        None
    }

    /// The position of the last available step strictly before the active
    /// one, scanning the configuration order backwards.
    fn previous_available_pos(&self) -> (r: Option<usize>)
        ensures
            r matches Some(u) ==> self.spec_prev_index() == Some(u as int) && u
                < self.spec_entries().len() && self.spec_entries()[u as int].available,
            r is None <==> self.spec_prev_index() is None,
    {
        let current = match &self.active_step {
            Some(s) => s,
            None => {
                return None;
            }
        };
        let ci = match self.position_of(current) {
            Some(i) => i,
            None => {
                return None;
            }
        };
        proof {
            self.spec_ids().index_of_first_ensures(current@);
            assert(self.spec_entries().len() == self.steps@.len());
        }
        let mut j: usize = ci;
        while j > 0
            invariant
                ci < self.steps.len(),
                j <= ci,
                prev_available_index(self.spec_entries(), ci - 1 as int) == prev_available_index(
                    self.spec_entries(),
                    j - 1 as int,
                ),
                self.spec_prev_index() == prev_available_index(self.spec_entries(), ci - 1 as int),
            decreases j,
        {
            let k = j - 1;
            if self.steps[k].available {
                proof {
                    assert(prev_available_index(self.spec_entries(), k as int) == Some(k as int));
                }
                return Some(k);
            }
            proof {
                assert(prev_available_index(self.spec_entries(), k as int)
                    == prev_available_index(self.spec_entries(), k - 1 as int));
            }
            j = k;
        }
        proof {
            assert(prev_available_index(self.spec_entries(), j - 1 as int) is None);
        }
        None
    }

    /// Navigates to the nearest available step strictly after the active one
    /// in configuration order. Fails with `NoNextStep` exactly when no such
    /// step exists (including when no step is active), and then changes
    /// nothing. On success only the active step changes, and the navigation
    /// invariant holds afterwards.
    pub fn next_step(&mut self) -> (r: Result<(), NavigationError>)
        ensures
            old(self).spec_next_index() matches Some(j) ==> (r is Ok && final(self).spec_active()
                == Some(old(self).spec_entries()[j].id@) && final(self).spec_entries() == old(self).spec_entries() && final(self).spec_backend_path() == old(self).spec_backend_path()
                && final(self).nav_invariant()),
            old(self).spec_next_index() is None ==> (r matches Err(e) && e is NoNextStep && *final(self) == *old(self)),
    {
        let pos = match self.next_available_pos() {
            Some(j) => j,
            None => {
                return Err(NavigationError::NoNextStep);
            }
        };
        let id = self.steps[pos].id.clone();
        self.active_step = Some(id);
        proof {
            assert(self.spec_entries()[pos as int].available);
            assert(self.spec_is_available(self.spec_entries()[pos as int].id@));
        }
        Ok(())
    }

    /// Navigates to the nearest available step strictly before the active
    /// one in configuration order. Fails with `NoPreviousStep` exactly when
    /// no such step exists (including when no step is active), and then
    /// changes nothing. On success only the active step changes, and the
    /// navigation invariant holds afterwards.
    pub fn previous_step(&mut self) -> (r: Result<(), NavigationError>)
        ensures
            old(self).spec_prev_index() matches Some(j) ==> (r is Ok && final(self).spec_active()
                == Some(old(self).spec_entries()[j].id@) && final(self).spec_entries() == old(self).spec_entries() && final(self).spec_backend_path() == old(self).spec_backend_path()
                && final(self).nav_invariant()),
            old(self).spec_prev_index() is None ==> (r matches Err(e) && e is NoPreviousStep
                && *final(self) == *old(self)),
    {
        let pos = match self.previous_available_pos() {
            Some(j) => j,
            None => {
                return Err(NavigationError::NoPreviousStep);
            }
        };
        let id = self.steps[pos].id.clone();
        self.active_step = Some(id);
        proof {
            assert(self.spec_entries()[pos as int].available);
            assert(self.spec_is_available(self.spec_entries()[pos as int].id@));
        }
        Ok(())
    }

    /// Whether an available step follows the active one: the pure mirror of
    /// [`Installer::next_step`], with no mutation.
    pub fn has_next(&self) -> (r: bool)
        ensures
            r == (self.spec_next_index() is Some),
    {
        match self.next_available_pos() {
            Some(_) => true,
            None => false,
        }
    }

    /// Whether an available step precedes the active one: the pure mirror of
    /// [`Installer::previous_step`], with no mutation.
    pub fn has_previous(&self) -> (r: bool)
        ensures
            r == (self.spec_prev_index() is Some),
    {
        match self.previous_available_pos() {
            Some(_) => true,
            None => false,
        }
    }

    /// The configured backend executable path.
    pub fn backend_path(&self) -> (r: &str)
        ensures
            r@ == self.spec_backend_path(),
    {
        self.backend_path.as_str()
    }
}

/// Builder for [`Installer`].
pub struct InstallerBuilder {
    backend_path: Option<String>,
    step_ids: Vec<String>,
    active_step: Option<String>,
}

/// The position of the first id in `ids` missing from `registry_ids`,
/// scanning from `i`.
pub open spec fn first_unresolved_from(
    ids: Seq<Seq<char>>,
    registry_ids: Seq<Seq<char>>,
    i: int,
) -> Option<int>
    decreases ids.len() - i,
{
    if i < 0 || i >= ids.len() {
        None
    } else if !registry_ids.contains(ids[i]) {
        Some(i)
    } else {
        first_unresolved_from(ids, registry_ids, i + 1)
    }
}

/// The configured ids with every repetition after the first removed, in
/// first-occurrence order.
pub open spec fn dedup_first(ids: Seq<Seq<char>>) -> Seq<Seq<char>>
    decreases ids.len(),
{
    if ids.len() == 0 {
        Seq::empty()
    } else {
        let rest = dedup_first(ids.drop_last());
        if rest.contains(ids.last()) {
            rest
        } else {
            rest.push(ids.last())
        }
    }
}

impl InstallerBuilder {
    /// The step ids added so far, in order.
    pub closed spec fn spec_step_ids(&self) -> Seq<Seq<char>> {
        string_views(self.step_ids@)
    }

    /// The requested initial active step, if any.
    pub closed spec fn spec_active(&self) -> Option<Seq<char>> {
        match self.active_step {
            Some(s) => Some(s@),
            None => None,
        }
    }

    /// The configured backend executable path, if any.
    pub closed spec fn spec_backend_path(&self) -> Option<Seq<char>> {
        match self.backend_path {
            Some(s) => Some(s@),
            None => None,
        }
    }

    /// Creates a new installer builder.
    fn new() -> (r: Self)
        ensures
            r.spec_step_ids() =~= Seq::<Seq<char>>::empty(),
            r.spec_active() is None,
            r.spec_backend_path() is None,
    {
        let r = Self { backend_path: None, step_ids: Vec::new(), active_step: None };
        proof {
            assert(r.spec_step_ids() =~= Seq::<Seq<char>>::empty());
        }
        r
    }

    /// Sets the path of the backend executable to spawn.
    pub fn backend_path(self, path: &str) -> (r: Self)
        ensures
            r.spec_backend_path() == Some(path@),
            r.spec_step_ids() == self.spec_step_ids(),
            r.spec_active() == self.spec_active(),
    {
        Self { backend_path: Some(path.to_owned()), ..self }
    }

    /// Adds a step by id.
    pub fn add_step(self, step_id: &str) -> (r: Self)
        ensures
            r.spec_step_ids() =~= self.spec_step_ids().push(step_id@),
            r.spec_active() == self.spec_active(),
            r.spec_backend_path() == self.spec_backend_path(),
    {
        let mut step_ids = self.step_ids;
        step_ids.push(step_id.to_owned());
        Self { step_ids, ..self }
    }

    /// Sets the initially active step.
    pub fn active_step(self, step_id: &str) -> (r: Self)
        ensures
            r.spec_active() == Some(step_id@),
            r.spec_step_ids() == self.spec_step_ids(),
            r.spec_backend_path() == self.spec_backend_path(),
    {
        Self { active_step: Some(step_id.to_owned()), ..self }
    }

    /// Builds the installer: resolves every configured id against the
    /// registry (the first id that does not resolve is fatal), keeps the
    /// first occurrence of each id, and makes exactly the first step
    /// available. Fails with `MissingBackendPath` when no backend path was
    /// configured. Spawning the backend and the liveness check against it
    /// are the transport's part and happen around this call.
    pub fn build(self, registry: &StepRegistry) -> (r: Result<Installer, Error>)
        ensures
            self.spec_backend_path() is None ==> (r matches Err(e) && e is MissingBackendPath),
            self.spec_backend_path() is Some ==> (first_unresolved_from(
                self.spec_step_ids(),
                registry.spec_ids(),
                0,
            ) matches Some(u) ==> (r matches Err(Error::StepLoadError(s)) && s@
                == self.spec_step_ids()[u])),
            self.spec_backend_path() is Some && first_unresolved_from(
                self.spec_step_ids(),
                registry.spec_ids(),
                0,
            ) is None ==> (r matches Ok(inst) && inst.spec_ids() == dedup_first(
                self.spec_step_ids(),
            ) && inst.spec_active() == self.spec_active() && Some(inst.spec_backend_path())
                == self.spec_backend_path() && inst.wf() && (forall|i: int|
                0 <= i < inst.spec_entries().len() ==> ((#[trigger] inst.spec_entries()[i].available)
                    <==> i == 0)) && (forall|i: int|
                0 <= i < inst.spec_entries().len() ==> created_step(
                    registry.spec_kind_of(#[trigger] inst.spec_entries()[i].id@),
                    inst.spec_entries()[i].step,
                ))),
    {
        let backend_path = match self.backend_path {
            Some(p) => p,
            None => {
                return Err(Error::MissingBackendPath);
            }
        };
        proof {
            assert(self.spec_backend_path() == Some(backend_path@));
        }
        let ghost all_ids = string_views(self.step_ids@);
        let mut entries: Vec<StepEntry> = Vec::new();
        let mut i: usize = 0;
        while i < self.step_ids.len()
            invariant
                i <= self.step_ids.len(),
                self.spec_backend_path() == Some(backend_path@),
                all_ids == string_views(self.step_ids@),
                all_ids.len() == self.step_ids@.len(),
                entry_ids(entries@) == dedup_first(all_ids.subrange(0, i as int)),
                first_unresolved_from(all_ids, registry.spec_ids(), 0)
                    == first_unresolved_from(all_ids, registry.spec_ids(), i as int),
                forall|k: int|
                    0 <= k < entries@.len() ==> !(#[trigger] entries@[k].available),
                forall|k: int|
                    0 <= k < entries@.len() ==> created_step(
                        registry.spec_kind_of(#[trigger] entries@[k].id@),
                        entries@[k].step,
                    ),
                forall|k: int|
                    0 <= k < entries@.len() ==> registry.spec_ids().contains(
                        #[trigger] entries@[k].id@,
                    ),
            decreases self.step_ids.len() - i,
        {
            proof {
                assert(all_ids.subrange(0, i + 1 as int).drop_last() =~= all_ids.subrange(
                    0,
                    i as int,
                ));
                assert(all_ids.subrange(0, i + 1 as int).last() == all_ids[i as int]);
                assert(all_ids[i as int] == self.step_ids@[i as int]@);
            }
            let id = &self.step_ids[i];
            let mut known: bool = false;
            let mut k: usize = 0;
            while k < entries.len()
                invariant
                    k <= entries.len(),
                    known ==> entry_ids(entries@).contains(id@),
                    !known ==> forall|m: int| 0 <= m < k ==> entry_ids(entries@)[m] != id@,
                decreases entries.len() - k,
            {
                if entries[k].id == *id {
                    proof {
                        assert(entry_ids(entries@)[k as int] == id@);
                    }
                    known = true;
                }
                k = k + 1;
            }
            proof {
                if !known && entry_ids(entries@).contains(id@) {
                    let w = choose|w: int|
                        0 <= w < entry_ids(entries@).len() && entry_ids(entries@)[w] == id@;
                    assert(entry_ids(entries@)[w] != id@);
                }
            }
            if known {
                proof {
                    assert(registry.spec_ids().contains(all_ids[i as int])) by {
                        let w = choose|w: int|
                            0 <= w < entry_ids(entries@).len() && entry_ids(entries@)[w] == id@;
                        assert(entries@[w].id@ == id@);
                    }
                    assert(first_unresolved_from(all_ids, registry.spec_ids(), i as int)
                        == first_unresolved_from(all_ids, registry.spec_ids(), i + 1 as int));
                    assert(entry_ids(entries@) =~= dedup_first(all_ids.subrange(0, i + 1 as int)));
                }
            } else {
                match registry.get_step(id.as_str()) {
                    Some(step) => {
                        entries.push(StepEntry { id: id.clone(), step, available: false });
                        proof {
                            assert(entry_ids(entries@) =~= dedup_first(
                                all_ids.subrange(0, i + 1 as int),
                            ));
                            assert(first_unresolved_from(all_ids, registry.spec_ids(), i as int)
                                == first_unresolved_from(
                                all_ids,
                                registry.spec_ids(),
                                i + 1 as int,
                            ));
                        }
                    }
                    None => {
                        proof {
                            assert(!registry.spec_ids().contains(all_ids[i as int]));
                            assert(first_unresolved_from(all_ids, registry.spec_ids(), i as int)
                                == Some(i as int));
                        }
                        return Err(Error::StepLoadError(id.clone()));
                    }
                }
            }
            i = i + 1;
        }
        proof {
            assert(all_ids.subrange(0, all_ids.len() as int) =~= all_ids);
            assert(first_unresolved_from(all_ids, registry.spec_ids(), i as int) is None);
        }
        let ghost pre_entries = entries@;
        if entries.len() > 0 {
            entries[0].available = true;
        }
        proof {
            if pre_entries.len() > 0 {
                assert(entries@[0].id == pre_entries[0].id);
                assert(entries@[0].step == pre_entries[0].step);
                assert(entries@[0].available);
                assert(entry_ids(entries@) =~= entry_ids(pre_entries));
                assert(forall|k: int|
                    1 <= k < entries@.len() ==> entries@[k] == pre_entries[k]);
            }
        }
        let inst = Installer { steps: entries, active_step: self.active_step, backend_path };
        proof {
            assert(inst.spec_ids() =~= dedup_first(all_ids));
            lemma_dedup_first_unique(all_ids);
            assert(inst.wf());
            assert(forall|i: int|
                0 <= i < inst.spec_entries().len() ==> ((#[trigger] inst.spec_entries()[i].available)
                    <==> i == 0));
        }
        Ok(inst)
    }
}

/// `dedup_first` keeps no id twice.
pub proof fn lemma_dedup_first_unique(ids: Seq<Seq<char>>)
    ensures
        forall|i: int, j: int|
            0 <= i < j < dedup_first(ids).len() ==> dedup_first(ids)[i] != dedup_first(ids)[j],
    decreases ids.len(),
{
    if ids.len() == 0 {
    } else {
        lemma_dedup_first_unique(ids.drop_last());
        let rest = dedup_first(ids.drop_last());
        if !rest.contains(ids.last()) {
            assert forall|i: int, j: int|
                0 <= i < j < dedup_first(ids).len() implies dedup_first(ids)[i] != dedup_first(
                ids,
            )[j] by {
                if j < dedup_first(ids).len() - 1 {
                } else {
                    assert(dedup_first(ids)[i] == rest[i]);
                    if rest[i] == ids.last() {
                        assert(rest.contains(ids.last()));
                    }
                }
            }
        }
    }
}

} // verus!

