//! The watch table: which directory each watch handle stands for, and how an
//! event's handle and name resolve to a path.

use std::collections::HashMap;
use vstd::prelude::*;
use vstd::std_specs::iter::IteratorSpec;
use crate::path::{join, join_path};
use crate::text::option_text;

verus! {

/// What happened to the subject of an event.
#[derive(Clone, Copy, Debug, PartialEq, Eq)]
pub enum SubEvent {
    /// A file that was open for writing was closed.
    CloseWrite,
    /// The subject was created in the watched directory.
    Create,
    /// The subject was moved into the watched directory.
    MovedTo,
    /// The subject was moved out of the watched directory.
    MovedFrom,
    /// Anything else.
    Other,
}

/// An event as the watch primitive reports it: the handle of the watched
/// directory, the subject's name in it, and what happened.
#[derive(Debug, PartialEq, Eq)]
pub struct RawEvent {
    pub handle: u64,
    pub name: Option<String>,
    pub is_dir: bool,
    pub sub: SubEvent,
}

/// A `RawEvent` as plain values.
pub struct RawEventView {
    pub handle: u64,
    pub name: Option<Seq<char>>,
    pub is_dir: bool,
    pub sub: SubEvent,
}

impl View for RawEvent {
    type V = RawEventView;

    open spec fn view(&self) -> RawEventView {
        RawEventView {
            handle: self.handle,
            name: option_text(self.name),
            is_dir: self.is_dir,
            sub: self.sub,
        }
    }
}

/// The outcome of asking for a watch on one directory: the handle that was
/// issued, or none where the watch could not be registered.
#[derive(Debug, PartialEq, Eq)]
pub struct Registration {
    pub dir: String,
    pub handle: Option<u64>,
}

/// A `Registration` as plain values.
pub struct RegistrationView {
    pub dir: Seq<char>,
    pub handle: Option<u64>,
}

impl View for Registration {
    type V = RegistrationView;

    open spec fn view(&self) -> RegistrationView {
        RegistrationView { dir: self.dir@, handle: self.handle }
    }
}

impl DeepView for Registration {
    type V = RegistrationView;

    open spec fn deep_view(&self) -> RegistrationView {
        self@
    }
}

/// The path that an event with this handle and name is about: the handle's
/// directory joined with the name, none where the handle is unknown.
pub open spec fn resolved(table: Map<u64, Seq<char>>, handle: u64, name: Seq<char>) -> Option<
    Seq<char>,
> {
    if table.dom().contains(handle) {
        Some(join(table[handle], name))
    } else {
        None
    }
}

/// The path that an event is about: none where it carries no name or its
/// handle is unknown.
pub open spec fn event_path(table: Map<u64, Seq<char>>, event: RawEventView) -> Option<
    Seq<char>,
> {
    match event.name {
        Some(name) => resolved(table, event.handle, name),
        None => None,
    }
}

/// Whether some handle of the table stands for the directory `dir`.
pub open spec fn is_watched(table: Map<u64, Seq<char>>, dir: Seq<char>) -> bool {
    exists|handle: u64| table.dom().contains(handle) && #[trigger] table[handle] == dir
}

/// What the walk does with a directory it came upon.
#[derive(Clone, Copy, Debug, PartialEq, Eq)]
pub enum WalkStep {
    /// Leave it and all below it alone.
    Skip,
    /// It is watched already: go through its entries only.
    Enter,
    /// Register a watch on it, and go through its entries.
    Watch,
}

/// What the walk does with the directory `dir`, where `ignored` says whether
/// the ignore rules exclude it: an excluded directory is skipped, one that is
/// watched already is not registered again, every other one is watched.
pub open spec fn walk_step(table: Map<u64, Seq<char>>, dir: Seq<char>, ignored: bool) -> WalkStep {
    if ignored {
        WalkStep::Skip
    } else if is_watched(table, dir) {
        WalkStep::Enter
    } else {
        WalkStep::Watch
    }
}

/// The table after these registrations, in order: each one that was issued a
/// handle maps that handle to its directory, a later one replacing an earlier
/// one with the same handle; the others leave the table as it is.
pub open spec fn merged(table: Map<u64, Seq<char>>, registrations: Seq<RegistrationView>) -> Map<
    u64,
    Seq<char>,
>
    decreases registrations.len(),
{
    if registrations.len() == 0 {
        table
    } else {
        let before = merged(table, registrations.drop_last());
        match registrations.last().handle {
            Some(handle) => before.insert(handle, registrations.last().dir),
            None => before,
        }
    }
}

/// The directories among these registrations that got no watch, in order.
pub open spec fn unwatched(registrations: Seq<RegistrationView>) -> Seq<Seq<char>>
    decreases registrations.len(),
{
    if registrations.len() == 0 {
        Seq::empty()
    } else {
        let before = unwatched(registrations.drop_last());
        match registrations.last().handle {
            Some(_) => before,
            None => before.push(registrations.last().dir),
        }
    }
}

/// The mapping from watch handles to the directories they stand for.
pub struct WatchTable {
    dirs: HashMap<u64, String>,
}

impl View for WatchTable {
    type V = Map<u64, Seq<char>>;

    closed spec fn view(&self) -> Map<u64, Seq<char>> {
        self.dirs@.map_values(|dir: String| dir@)
    }
}

impl WatchTable {
    /// The table without entries.
    pub fn new() -> (table: WatchTable)
        ensures
            table@ == Map::<u64, Seq<char>>::empty(),
    {
        let table = WatchTable { dirs: HashMap::new() };
        assert(table@ =~= Map::<u64, Seq<char>>::empty());
        table
    }

    /// The table that holds the watches of a first walk, and the directories
    /// that could not be watched.
    pub fn initialize(registrations: &Vec<Registration>) -> (r: (WatchTable, Vec<String>))
        ensures
            r.0@ == merged(Map::<u64, Seq<char>>::empty(), registrations.deep_view()),
            r.1.deep_view() == unwatched(registrations.deep_view()),
    {
        let mut table = WatchTable::new();
        let failed = table.extend(registrations);
        (table, failed)
    }

    /// Records that `handle` stands for the directory `dir`.
    pub fn record(&mut self, handle: u64, dir: String)
        ensures
            final(self)@ == old(self)@.insert(handle, dir@),
    {
        broadcast use vstd::std_specs::hash::group_hash_axioms;

        self.dirs.insert(handle, dir);
        assert(self@ =~= old(self)@.insert(handle, dir@));
    }

    /// Takes over the outcome of registering watches: each directory that got
    /// a handle is recorded under it. Returns the directories that got none,
    /// which stay unwatched while the others are watched all the same.
    pub fn extend(&mut self, registrations: &Vec<Registration>) -> (failed: Vec<String>)
        ensures
            final(self)@ == merged(old(self)@, registrations.deep_view()),
            failed.deep_view() == unwatched(registrations.deep_view()),
    {
        let ghost all = registrations.deep_view();
        let mut failed: Vec<String> = Vec::new();
        let mut i: usize = 0;
        assert(all.take(0) =~= Seq::<RegistrationView>::empty());
        assert(failed.deep_view() =~= Seq::<Seq<char>>::empty());
        while i < registrations.len()
            invariant
                i <= registrations.len(),
                all == registrations.deep_view(),
                self@ == merged(old(self)@, all.take(i as int)),
                failed.deep_view() == unwatched(all.take(i as int)),
            decreases registrations.len() - i,
        {
            let registration = &registrations[i];
            let ghost done = failed.deep_view();
            assert(all.take(i + 1).drop_last() =~= all.take(i as int));
            assert(all.take(i + 1).last() == registration@);
            match registration.handle {
                Some(handle) => self.record(handle, registration.dir.clone()),
                None => {
                    failed.push(registration.dir.clone());
                    assert(failed.deep_view() =~= done.push(registration.dir@));
                },
            }
            i += 1;
        }
        assert(all.take(i as int) =~= all);
        failed
    }

    /// The number of handles recorded.
    pub fn len(&self) -> (n: usize)
        ensures
            n == self@.len(),
    {
        broadcast use vstd::std_specs::hash::group_hash_axioms;

        assert(self@.dom() =~= self.dirs@.dom());
        self.dirs.len()
    }

    /// A handle that stands for the directory `dir`, if there is one: a
    /// directory that has one needs no second watch.
    pub fn handle_of(&self, dir: &str) -> (handle: Option<u64>)
        ensures
            match handle {
                Some(h) => self@.dom().contains(h) && self@[h] == dir@,
                None => forall|h: u64| self@.dom().contains(h) ==> self@[h] != dir@,
            },
    {
        broadcast use vstd::std_specs::hash::group_hash_axioms;

        let wanted = dir.to_owned();
        let ghost entries = self.dirs.iter().remaining();
        for entry in it: self.dirs.iter()
            invariant
                wanted@ == dir@,
                it.seq() == entries,
                entries == self.dirs.iter().remaining(),
                forall|j: int| 0 <= j < it.index() ==> (*entries[j].1)@ != dir@,
        {
            if *entry.1 == wanted {
                assert(self.dirs@.contains_key(*entries[it.index() as int].0));
                return Some(*entry.0);
            }
        }
        assert forall|h: u64| self@.dom().contains(h) implies self@[h] != dir@ by {
            assert(self.dirs@.contains_key(h));
            assert(entries.contains((&h, &self.dirs@[h])));
            let j = choose|j: int| 0 <= j < entries.len() && entries[j] == (&h, &self.dirs@[h]);
            assert((*entries[j].1)@ != dir@);
        }
        None
    }

    /// What the walk does with the directory `dir`, where `ignored` says
    /// whether the ignore rules exclude it.
    pub fn visit(&self, dir: &str, ignored: bool) -> (step: WalkStep)
        ensures
            step == walk_step(self@, dir@, ignored),
    {
        if ignored {
            WalkStep::Skip
        } else {
            match self.handle_of(dir) {
                Some(handle) => {
                    assert(self@.dom().contains(handle) && self@[handle] == dir@);
                    WalkStep::Enter
                },
                None => WalkStep::Watch,
            }
        }
    }

    /// The path of `name` in the directory that `handle` stands for; none
    /// where the handle is unknown, which means: drop the event.
    pub fn resolve(&self, handle: u64, name: &str) -> (path: Option<String>)
        ensures
            option_text(path) == resolved(self@, handle, name@),
    {
        broadcast use vstd::std_specs::hash::group_hash_axioms;

        match self.dirs.get(&handle) {
            Some(dir) => Some(join_path(dir.as_str(), name)),
            None => None,
        }
    }

    /// The path that `event` is about, if it has one.
    pub fn event_path(&self, event: &RawEvent) -> (path: Option<String>)
        ensures
            option_text(path) == event_path(self@, event@),
    {
        match &event.name {
            Some(name) => self.resolve(event.handle, name.as_str()),
            None => None,
        }
    }
}

} // verus!
