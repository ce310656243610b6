//! The watcher's runtime: the filter that turns events into triggers, the
//! command template, and the slot of the running process.

use regex::Regex;
use vstd::prelude::*;
use vstd::string::*;
use crate::command::{build, substituted_all, CommandLine, CommandLineView};
use crate::path::{extension, has_extension};
use crate::supervisor::{superseded, Supervisor};
use crate::text::option_text;
use crate::watch::{
    event_path, merged, unwatched, RawEvent, RawEventView, Registration, SubEvent, WatchTable,
};

verus! {

/// `regex::Regex`, a compiled regular expression. Nothing is known of what
/// is inside a value of it.
#[verifier::external_type_specification]
#[verifier::external_body]
pub struct ExRegex(regex::Regex);

/// `regex::Regex::is_match` tells whether the expression matches anywhere in
/// the text. Nothing is claimed of its answer: it depends on the expression,
/// of which nothing is known here.
pub assume_specification[ regex::Regex::is_match ](regex: &regex::Regex, haystack: &str) -> (matched:
    bool)
;

/// What an event means to the watcher.
#[derive(Debug, PartialEq, Eq)]
pub enum Classification {
    /// Nothing to do.
    Ignore,
    /// A directory appeared at this path: watch it too.
    WatchDir(String),
    /// The file at this path was written and closed: run the command on it.
    Trigger(String),
}

/// A `Classification` as plain values.
pub enum ClassificationView {
    Ignore,
    WatchDir(Seq<char>),
    Trigger(Seq<char>),
}

impl View for Classification {
    type V = ClassificationView;

    open spec fn view(&self) -> ClassificationView {
        match self {
            Classification::Ignore => ClassificationView::Ignore,
            Classification::WatchDir(path) => ClassificationView::WatchDir(path@),
            Classification::Trigger(path) => ClassificationView::Trigger(path@),
        }
    }
}

/// What the caller is to do about an event.
#[derive(Debug, PartialEq, Eq)]
pub enum Reaction {
    /// Nothing.
    Nothing,
    /// Register a watch on the directory at this path.
    Watch(String),
    /// Start the command; before that, reset the pager if one is in use.
    Launch { reset_pager: bool, command: CommandLine },
}

/// A `Reaction` as plain values.
pub enum ReactionView {
    Nothing,
    Watch(Seq<char>),
    Launch { reset_pager: bool, command: CommandLineView },
}

impl View for Reaction {
    type V = ReactionView;

    open spec fn view(&self) -> ReactionView {
        match self {
            Reaction::Nothing => ReactionView::Nothing,
            Reaction::Watch(path) => ReactionView::Watch(path@),
            Reaction::Launch { reset_pager, command } => ReactionView::Launch {
                reset_pager: *reset_pager,
                command: command@,
            },
        }
    }
}

/// FWatch runtime info
pub struct Runtime {
    extension: Option<String>,
    pager: bool,
    regex: Option<Regex>,
    running: Supervisor,
    command: String,
    args: Vec<String>,
    watches: WatchTable,
}

/// A `Runtime` as plain values. Of the regex filter only its presence shows.
pub struct RuntimeView {
    pub extension: Option<Seq<char>>,
    pub paging: bool,
    pub has_regex: bool,
    pub running: Option<u32>,
    pub command: Seq<char>,
    pub args: Seq<Seq<char>>,
    pub watches: Map<u64, Seq<char>>,
}

impl RuntimeView {
    /// The runtime for a template: its first token is the program, the rest
    /// are the arguments; no filter, no pager, nothing running, nothing watched.
    pub open spec fn fresh(template: Seq<Seq<char>>) -> RuntimeView {
        RuntimeView {
            extension: None,
            paging: false,
            has_regex: false,
            running: None,
            command: template[0],
            args: template.skip(1),
            watches: Map::empty(),
        }
    }

    /// The command line for `path`.
    pub open spec fn command_for(self, path: Seq<char>) -> CommandLineView {
        CommandLineView { program: self.command, args: substituted_all(self.args, path) }
    }

    /// This runtime after the process `pid` was started: it is the current
    /// one, and nothing else has changed.
    pub open spec fn started(self, pid: u32) -> RuntimeView {
        RuntimeView { running: superseded(self.running, pid), ..self }
    }
}

impl View for Runtime {
    type V = RuntimeView;

    closed spec fn view(&self) -> RuntimeView {
        RuntimeView {
            extension: option_text(self.extension),
            paging: self.pager,
            has_regex: self.regex is Some,
            running: self.running@,
            command: self.command@,
            args: self.args.deep_view(),
            watches: self.watches@,
        }
    }
}

/// Whether a written file at `path` passes the filter. An extension filter,
/// where one is set, decides alone: the path's extension must be exactly it.
/// Else a regex filter, where one is set, decides: `regex_matched` is its
/// answer for the path. With neither, every path passes.
pub open spec fn passes(rt: RuntimeView, path: Seq<char>, regex_matched: bool) -> bool {
    match rt.extension {
        Some(ext) => extension(path) == Some(ext),
        None => !rt.has_regex || regex_matched,
    }
}

/// Whether the regex filter is the one that decides on `event`: it is a
/// write-close of a file with a path, and no extension filter is set.
pub open spec fn regex_decides(rt: RuntimeView, event: RawEventView) -> bool {
    &&& event_path(rt.watches, event) is Some
    &&& !event.is_dir
    &&& event.sub is CloseWrite
    &&& rt.extension is None
    &&& rt.has_regex
}

/// What `event` means, where `regex_matched` is what the regex filter says of
/// the event's path. An event without a path is ignored. A directory that was
/// created or moved in is to be watched. A file that was written and closed
/// is a trigger if its path passes the filter. All else is ignored.
pub open spec fn classified(rt: RuntimeView, event: RawEventView, regex_matched: bool)
    -> ClassificationView {
    match event_path(rt.watches, event) {
        None => ClassificationView::Ignore,
        Some(path) => if event.is_dir {
            if event.sub is Create || event.sub is MovedTo {
                ClassificationView::WatchDir(path)
            } else {
                ClassificationView::Ignore
            }
        } else if event.sub is CloseWrite && passes(rt, path, regex_matched) {
            ClassificationView::Trigger(path)
        } else {
            ClassificationView::Ignore
        },
    }
}

/// The path to run the command on, where the event is a trigger.
pub open spec fn trigger_path(classification: ClassificationView) -> Option<Seq<char>> {
    match classification {
        ClassificationView::Trigger(path) => Some(path),
        _ => None,
    }
}

/// The path of the directory to watch, where the event tells of one.
pub open spec fn watch_dir_path(classification: ClassificationView) -> Option<Seq<char>> {
    match classification {
        ClassificationView::WatchDir(path) => Some(path),
        _ => None,
    }
}

/// What is to be done about an event that was classified.
pub open spec fn reaction(rt: RuntimeView, classification: ClassificationView) -> ReactionView {
    match classification {
        ClassificationView::Ignore => ReactionView::Nothing,
        ClassificationView::WatchDir(path) => ReactionView::Watch(path),
        ClassificationView::Trigger(path) => ReactionView::Launch {
            reset_pager: rt.paging,
            command: rt.command_for(path),
        },
    }
}

/// With an extension filter set, a write-close of the file at `path` is a
/// trigger if and only if the path's extension is exactly the filter's,
/// whatever a regex filter says.
pub proof fn extension_filter_is_exact(
    rt: RuntimeView,
    event: RawEventView,
    path: Seq<char>,
    ext: Seq<char>,
    regex_matched: bool,
)
    requires
        rt.extension == Some(ext),
        event_path(rt.watches, event) == Some(path),
        !event.is_dir,
        event.sub is CloseWrite,
    ensures
        classified(rt, event, regex_matched) is Trigger <==> extension(path) == Some(ext),
        extension(path) == Some(ext) ==> classified(rt, event, regex_matched)
            == ClassificationView::Trigger(path),
{
}

/// With both filters set, a written file whose extension matches is a
/// trigger whether the regex matches or not.
pub proof fn extension_match_wins(
    rt: RuntimeView,
    event: RawEventView,
    path: Seq<char>,
    regex_matched: bool,
)
    requires
        rt.extension is Some,
        rt.has_regex,
        event_path(rt.watches, event) == Some(path),
        !event.is_dir,
        event.sub is CloseWrite,
        extension(path) == rt.extension,
    ensures
        classified(rt, event, regex_matched) == ClassificationView::Trigger(path),
        !regex_decides(rt, event),
{
}

/// With neither filter set, every write-close of a file is a trigger.
pub proof fn no_filter_triggers_all(
    rt: RuntimeView,
    event: RawEventView,
    path: Seq<char>,
    regex_matched: bool,
)
    requires
        rt.extension is None,
        !rt.has_regex,
        event_path(rt.watches, event) == Some(path),
        !event.is_dir,
        event.sub is CloseWrite,
    ensures
        classified(rt, event, regex_matched) == ClassificationView::Trigger(path),
{
}

/// An event whose subject is a directory is never a trigger.
pub proof fn directories_never_trigger(rt: RuntimeView, event: RawEventView, regex_matched: bool)
    requires
        event.is_dir,
    ensures
        !(classified(rt, event, regex_matched) is Trigger),
{
}

impl Runtime {
    /// Setup the runtime.
    pub fn new(template: Vec<String>) -> (r: Result<Runtime, String>)
        ensures
            r is Err <==> template.len() == 0,
            r matches Err(e) ==> e@ == "Empty template string!"@,
            r matches Ok(rt) ==> rt@ == RuntimeView::fresh(template.deep_view()),
    {
        if template.is_empty() {
            return Err("Empty template string!".to_owned());
        }
        let mut args = template;
        let command = args.remove(0);
        assert(args.deep_view() =~= template.deep_view().skip(1));
        let rt = Runtime {
            extension: None,
            regex: None,
            pager: false,
            running: Supervisor::new(),
            command,
            args,
            watches: WatchTable::new(),
        };
        assert(rt@.watches =~= Map::<u64, Seq<char>>::empty());
        Ok(rt)
    }

    /// Says whether the output of the command goes through the pager.
    pub fn use_pager(&mut self, should_page: bool) -> (rt: &mut Runtime)
        ensures
            rt@ == (RuntimeView { paging: should_page, ..old(self)@ }),
            *final(self) == *final(rt),
    {
        self.pager = should_page;
        self
    }

    /// Sets the extension filter.
    pub fn set_extension(&mut self, ext: String) -> (rt: &mut Runtime)
        ensures
            rt@ == (RuntimeView { extension: Some(ext@), ..old(self)@ }),
            *final(self) == *final(rt),
    {
        self.extension = Some(ext);
        self
    }

    /// Sets the regex filter.
    pub fn set_regex(&mut self, regex: Regex) -> (rt: &mut Runtime)
        ensures
            rt@ == (RuntimeView { has_regex: true, ..old(self)@ }),
            *final(self) == *final(rt),
    {
        self.regex = Some(regex);
        self
    }

    /// The extension filter, if one is set.
    pub fn extension(&self) -> (ext: &Option<String>)
        ensures
            option_text(*ext) == self@.extension,
    {
        &self.extension
    }

    /// Whether the output goes through the pager.
    pub fn paging(&self) -> (paging: bool)
        ensures
            paging == self@.paging,
    {
        self.pager
    }

    /// The process that is current, if there is one.
    pub fn running(&self) -> (pid: Option<u32>)
        ensures
            pid == self@.running,
    {
        self.running.current()
    }

    /// The watch table.
    pub fn watches(&self) -> (table: &WatchTable)
        ensures
            table@ == self@.watches,
    {
        &self.watches
    }

    /// Takes over the outcome of registering watches on directories, and
    /// returns the directories that could not be watched.
    pub fn watch_directories(&mut self, registrations: &Vec<Registration>) -> (failed: Vec<String>)
        ensures
            final(self)@ == (RuntimeView {
                watches: merged(old(self)@.watches, registrations.deep_view()),
                ..old(self)@
            }),
            failed.deep_view() == unwatched(registrations.deep_view()),
    {
        self.watches.extend(registrations)
    }

    /// Get the path for an event if one exists.
    pub fn get_event_path(&self, event: &RawEvent) -> (path: Option<String>)
        ensures
            option_text(path) == event_path(self@.watches, event@),
    {
        self.watches.event_path(event)
    }

    /// What an event with this path means, given the regex filter's answer.
    fn verdict(&self, path: Option<String>, event: &RawEvent, regex_matched: bool) -> (c:
        Classification)
        requires
            option_text(path) == event_path(self@.watches, event@),
        ensures
            c@ == classified(self@, event@, regex_matched),
    {
        match path {
            None => Classification::Ignore,
            Some(path) => {
                if event.is_dir {
                    match event.sub {
                        SubEvent::Create => Classification::WatchDir(path),
                        SubEvent::MovedTo => Classification::WatchDir(path),
                        _ => Classification::Ignore,
                    }
                } else {
                    match event.sub {
                        SubEvent::CloseWrite => {
                            if self.admits(path.as_str(), regex_matched) {
                                Classification::Trigger(path)
                            } else {
                                Classification::Ignore
                            }
                        },
                        _ => Classification::Ignore,
                    }
                }
            },
        }
    }

    /// Whether a written file at `path` passes the filter, where
    /// `regex_matched` is what the regex filter says of the path.
    pub fn admits(&self, path: &str, regex_matched: bool) -> (b: bool)
        ensures
            b == passes(self@, path@, regex_matched),
    {
        match &self.extension {
            Some(ext) => has_extension(path, ext),
            None => self.regex.is_none() || regex_matched,
        }
    }

    /// What `event` means, where `regex_matched` is what the regex filter
    /// says of the event's path.
    pub fn decide(&self, event: &RawEvent, regex_matched: bool) -> (c: Classification)
        ensures
            c@ == classified(self@, event@, regex_matched),
    {
        self.verdict(self.watches.event_path(event), event, regex_matched)
    }

    /// What `event` means. The regex filter is asked only where it decides;
    /// the result is then one of the two that its answer allows.
    pub fn classify(&self, event: &RawEvent) -> (c: Classification)
        ensures
            c@ == classified(self@, event@, true) || c@ == classified(self@, event@, false),
            !regex_decides(self@, event@) ==> c@ == classified(self@, event@, false),
    {
        let path = self.watches.event_path(event);
        let candidate: bool = !event.is_dir && matches!(event.sub, SubEvent::CloseWrite)
            && self.extension.is_none();
        let matched: bool = match (&path, &self.regex) {
            (Some(p), Some(regex)) => candidate && regex.is_match(p.as_str()),
            _ => false,
        };
        self.verdict(path, event, matched)
    }

    /// Prune down to the events that are something we should invoke the command
    pub fn is_executable_event(&self, event: &RawEvent) -> (path: Option<String>)
        ensures
            option_text(path) == trigger_path(classified(self@, event@, true)) || option_text(path)
                == trigger_path(classified(self@, event@, false)),
            !regex_decides(self@, event@) ==> option_text(path) == trigger_path(
                classified(self@, event@, false),
            ),
    {
        match self.classify(event) {
            Classification::Trigger(path) => Some(path),
            _ => None,
        }
    }

    /// The path of a directory that appeared and is to be watched, if the
    /// event tells of one. The filter has no say in this.
    pub fn is_watchable_dir(&self, event: &RawEvent) -> (path: Option<String>)
        ensures
            option_text(path) == watch_dir_path(classified(self@, event@, false)),
            option_text(path) == watch_dir_path(classified(self@, event@, true)),
    {
        match self.decide(event, false) {
            Classification::WatchDir(path) => Some(path),
            _ => None,
        }
    }

    /// What is to be done about an event that was classified.
    pub fn react(&self, classification: Classification) -> (r: Reaction)
        ensures
            r@ == reaction(self@, classification@),
    {
        match classification {
            Classification::Ignore => Reaction::Nothing,
            Classification::WatchDir(path) => Reaction::Watch(path),
            Classification::Trigger(path) => Reaction::Launch {
                reset_pager: self.pager,
                command: self.get_command(path.as_str()),
            },
        }
    }

    /// What is to be done about `event`: watch a directory that appeared, or
    /// start the command on a file that was written, after a reset of the
    /// pager where one is in use.
    pub fn process_event(&self, event: &RawEvent) -> (r: Reaction)
        ensures
            r@ == reaction(self@, classified(self@, event@, true)) || r@ == reaction(
                self@,
                classified(self@, event@, false),
            ),
            !regex_decides(self@, event@) ==> r@ == reaction(
                self@,
                classified(self@, event@, false),
            ),
    {
        self.react(self.classify(event))
    }

    /// Construct the command line for the given input.
    pub fn get_command(&self, next: &str) -> (command: CommandLine)
        ensures
            command@ == self@.command_for(next@),
    {
        build(&self.command, &self.args, next)
    }

    /// Takes over the outcome of starting the command. A process that was
    /// started becomes the current one; what is returned is the process that
    /// was current until now, which is to be killed and waited for. A start
    /// that failed leaves the current process as it is and is reported.
    pub fn start(&mut self, spawned: Result<u32, String>) -> (r: Result<Option<u32>, String>)
        ensures
            spawned matches Ok(pid) ==> r matches Ok(stale) && stale == old(self)@.running
                && final(self)@ == old(self)@.started(pid),
            spawned matches Err(reason) ==> r matches Err(report) && report@ == "Spawn error: "@
                + reason@ && final(self)@ == old(self)@,
    {
        match spawned {
            Ok(pid) => Ok(self.running.started(pid)),
            Err(reason) => {
                let mut report = "Spawn error: ".to_owned();
                report.append(reason.as_str());
                Err(report)
            },
        }
    }
}

} // verus!
