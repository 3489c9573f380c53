//! A run of the pipeline, one step at a time.
//!
//! A [`Run`] names the action that is to be performed next. Whoever drives the
//! run performs it and hands back what happened as an [`Event`]; [`Run::step`]
//! then decides what follows.
//!
//! A run first settles what may be overwritten: it asks about an existing
//! table, then about an existing report, and touches nothing before both are
//! settled. Then it creates the table and walks the history. One commit is
//! taken through all of its steps before the next is asked for: cache lookup,
//! and on a miss a fresh workspace, the checkout, the build and the store;
//! then the page count and the record. When the history is at its end, the
//! table is read back and the report is written.

use crate::args::{Args, ArgsView};
use crate::cache::{entry_path, entry_path_spec};
use crate::commit::{short_spec, Commit, CommitView};
use crate::extract::ExtractError;
use crate::invoke::{
    artifact_path, artifact_path_spec, build_command, build_command_spec, checkout_command,
    checkout_command_spec, Command, CommandView,
};
use crate::record::{header, header_spec, record_spec, row_spec, Record, RecordView};
use crate::report::{render, render_spec};
use vstd::prelude::*;

verus! {

/// Why a run was given up.
#[derive(Debug, PartialEq, Eq)]
pub enum Failure {
    /// The table exists and overwriting it was not confirmed.
    OutputKept,
    /// The report at this path exists and overwriting it was not confirmed.
    ReportKept(String),
    /// An action could not be carried out; the text says why.
    Io(String),
    /// The checkout ended with another status than zero; the text is what it
    /// wrote to its error stream.
    Checkout(String),
    /// The build ended with another status than zero; the text is what it
    /// wrote to its error stream.
    Build(String),
    /// The artifact is no document that can be read.
    Extract,
    /// The time of the commit cannot be written as a timestamp.
    Timestamp,
    /// The history has more entries than can be counted.
    Overflow,
    /// The event is no answer to the pending action.
    Unexpected,
}

/// A failure as plain values.
pub enum FailureView {
    OutputKept,
    ReportKept(Seq<char>),
    Io(Seq<char>),
    Checkout(Seq<char>),
    Build(Seq<char>),
    Extract,
    Timestamp,
    Overflow,
    Unexpected,
}

impl View for Failure {
    type V = FailureView;

    open spec fn view(&self) -> FailureView {
        match self {
            Failure::OutputKept => FailureView::OutputKept,
            Failure::ReportKept(path) => FailureView::ReportKept(path@),
            Failure::Io(why) => FailureView::Io(why@),
            Failure::Checkout(diagnostics) => FailureView::Checkout(diagnostics@),
            Failure::Build(diagnostics) => FailureView::Build(diagnostics@),
            Failure::Extract => FailureView::Extract,
            Failure::Timestamp => FailureView::Timestamp,
            Failure::Overflow => FailureView::Overflow,
            Failure::Unexpected => FailureView::Unexpected,
        }
    }
}

/// What the user is told about a failure.
pub open spec fn message_spec(failure: FailureView) -> Seq<char> {
    match failure {
        FailureView::OutputKept => "Cannot produce output without overwriting. Aborting."@,
        FailureView::ReportKept(path) => "Cannot create report, output file "@ + path + " exists"@,
        FailureView::Io(why) => why,
        FailureView::Checkout(_) => "Git checkout failed"@,
        FailureView::Build(_) => "LaTeX compilation failed"@,
        FailureView::Extract => "Cannot count the pages of the artifact"@,
        FailureView::Timestamp => "Cannot write the commit time as a timestamp"@,
        FailureView::Overflow => "Too many entries in the history"@,
        FailureView::Unexpected => "Unexpected event"@,
    }
}

impl Failure {
    /// What the user is told about this failure.
    pub fn message(&self) -> (r: String)
        ensures
            r@ == message_spec(self@),
    {
        match self {
            Failure::OutputKept => String::from_str(
                "Cannot produce output without overwriting. Aborting.",
            ),
            Failure::ReportKept(path) => {
                let mut text = String::from_str("Cannot create report, output file ");
                text.append(path.as_str());
                text.append(" exists");
                text
            },
            Failure::Io(why) => why.clone(),
            Failure::Checkout(_) => String::from_str("Git checkout failed"),
            Failure::Build(_) => String::from_str("LaTeX compilation failed"),
            Failure::Extract => String::from_str("Cannot count the pages of the artifact"),
            Failure::Timestamp => String::from_str("Cannot write the commit time as a timestamp"),
            Failure::Overflow => String::from_str("Too many entries in the history"),
            Failure::Unexpected => String::from_str("Unexpected event"),
        }
    }
}

/// What the driver of a run is to do next.
#[derive(Debug, PartialEq, Eq)]
pub enum Action {
    /// Find out whether the table at this path exists.
    ProbeOutput(String),
    /// Ask this question about overwriting the table; the default is no.
    ConfirmOutput(String),
    /// Find out whether the report at this path exists.
    ProbeReport(String),
    /// Ask this question about overwriting the report; the default is no.
    ConfirmReport(String),
    /// Create the table at `path`, emptying it if it exists, and write `text`.
    CreateOutput { path: String, text: String },
    /// Take the next entry of the history, oldest first.
    NextCommit,
    /// Find out whether the cache holds an entry at this path.
    Lookup(String),
    /// Remove the workspace at this path with all it holds, if it exists.
    ClearWorkspace(String),
    /// Copy the tree at `from` to `to`, leaving out volatile files.
    CopyTree { from: String, to: String },
    /// Run this command to check the commit out in the workspace.
    Checkout(Command),
    /// Run this command to build the document.
    Build(Command),
    /// Copy the artifact at `from` to the cache entry `to`, then remove `from`.
    Store { from: String, to: String },
    /// Read the cache entry at this path and count the pages of the document.
    Extract(String),
    /// Append `text` to the table at `path` and flush it.
    Append { path: String, text: String },
    /// Read the table at this path as text.
    ReadOutput(String),
    /// Write `text` to the report at `path`, replacing what it held.
    WriteReport { path: String, text: String },
    /// Nothing: the run is complete.
    Finish,
    /// Nothing: the run was given up.
    Abort(Failure),
}

/// An action as plain values.
pub enum ActionView {
    ProbeOutput(Seq<char>),
    ConfirmOutput(Seq<char>),
    ProbeReport(Seq<char>),
    ConfirmReport(Seq<char>),
    CreateOutput { path: Seq<char>, text: Seq<char> },
    NextCommit,
    Lookup(Seq<char>),
    ClearWorkspace(Seq<char>),
    CopyTree { from: Seq<char>, to: Seq<char> },
    Checkout(CommandView),
    Build(CommandView),
    Store { from: Seq<char>, to: Seq<char> },
    Extract(Seq<char>),
    Append { path: Seq<char>, text: Seq<char> },
    ReadOutput(Seq<char>),
    WriteReport { path: Seq<char>, text: Seq<char> },
    Finish,
    Abort(FailureView),
}

impl View for Action {
    type V = ActionView;

    open spec fn view(&self) -> ActionView {
        match self {
            Action::ProbeOutput(path) => ActionView::ProbeOutput(path@),
            Action::ConfirmOutput(question) => ActionView::ConfirmOutput(question@),
            Action::ProbeReport(path) => ActionView::ProbeReport(path@),
            Action::ConfirmReport(question) => ActionView::ConfirmReport(question@),
            Action::CreateOutput { path, text } => ActionView::CreateOutput {
                path: path@,
                text: text@,
            },
            Action::NextCommit => ActionView::NextCommit,
            Action::Lookup(path) => ActionView::Lookup(path@),
            Action::ClearWorkspace(path) => ActionView::ClearWorkspace(path@),
            Action::CopyTree { from, to } => ActionView::CopyTree { from: from@, to: to@ },
            Action::Checkout(command) => ActionView::Checkout(command@),
            Action::Build(command) => ActionView::Build(command@),
            Action::Store { from, to } => ActionView::Store { from: from@, to: to@ },
            Action::Extract(path) => ActionView::Extract(path@),
            Action::Append { path, text } => ActionView::Append { path: path@, text: text@ },
            Action::ReadOutput(path) => ActionView::ReadOutput(path@),
            Action::WriteReport { path, text } => ActionView::WriteReport {
                path: path@,
                text: text@,
            },
            Action::Finish => ActionView::Finish,
            Action::Abort(failure) => ActionView::Abort(failure@),
        }
    }
}

/// What happened when the pending action was performed.
#[derive(Debug, PartialEq, Eq)]
pub enum Event {
    /// The action was carried out.
    Done,
    /// The action could not be carried out; the text says why.
    Failed(String),
    /// Whether the file exists.
    Exists(bool),
    /// The answer to the question.
    Answer(bool),
    /// The next entry of the history is this commit.
    Commit(Commit),
    /// The next entry of the history cannot be resolved to a commit.
    Unresolved,
    /// The history has no further entry.
    End,
    /// The program ended: whether with status zero, and what it wrote to its
    /// error stream.
    Exited { success: bool, diagnostics: String },
    /// The page count of the document, or why there is none.
    Pages(Result<u32, ExtractError>),
    /// What the file holds, as text.
    Text(String),
}

/// An event as plain values.
pub enum EventView {
    Done,
    Failed(Seq<char>),
    Exists(bool),
    Answer(bool),
    Commit(CommitView),
    Unresolved,
    End,
    Exited { success: bool, diagnostics: Seq<char> },
    Pages(Result<u32, ExtractError>),
    Text(Seq<char>),
}

impl View for Event {
    type V = EventView;

    open spec fn view(&self) -> EventView {
        match self {
            Event::Done => EventView::Done,
            Event::Failed(why) => EventView::Failed(why@),
            Event::Exists(found) => EventView::Exists(*found),
            Event::Answer(yes) => EventView::Answer(*yes),
            Event::Commit(commit) => EventView::Commit(commit@),
            Event::Unresolved => EventView::Unresolved,
            Event::End => EventView::End,
            Event::Exited { success, diagnostics } => EventView::Exited {
                success: *success,
                diagnostics: diagnostics@,
            },
            Event::Pages(counted) => EventView::Pages(*counted),
            Event::Text(text) => EventView::Text(text@),
        }
    }
}

impl Clone for Event {
    fn clone(&self) -> (r: Event)
        ensures
            r@ == self@,
    {
        match self {
            Event::Done => Event::Done,
            Event::Failed(why) => Event::Failed(why.clone()),
            Event::Exists(found) => Event::Exists(*found),
            Event::Answer(yes) => Event::Answer(*yes),
            Event::Commit(commit) => Event::Commit(commit.clone()),
            Event::Unresolved => Event::Unresolved,
            Event::End => Event::End,
            Event::Exited { success, diagnostics } => Event::Exited {
                success: *success,
                diagnostics: diagnostics.clone(),
            },
            Event::Pages(counted) => Event::Pages(*counted),
            Event::Text(text) => Event::Text(text.clone()),
        }
    }
}

/// The question asked before an existing table is overwritten.
pub open spec fn output_question_spec(path: Seq<char>) -> Seq<char> {
    "Output data file "@ + path + " exists. Overwrite?"@
}

/// The question asked before an existing report is overwritten.
pub open spec fn report_question_spec(path: Seq<char>) -> Seq<char> {
    "Report file "@ + path + " already exists. Overwrite?"@
}

/// The failure that an event stands for where it is no answer to the pending
/// action: the reported one, or that it came unexpected.
pub open spec fn stray_spec(event: EventView) -> FailureView {
    match event {
        EventView::Failed(why) => FailureView::Io(why),
        _ => FailureView::Unexpected,
    }
}

/// The views of `events`, in order.
pub open spec fn event_views(events: Seq<Event>) -> Seq<EventView> {
    events.map_values(|event: Event| event@)
}

/// The views of `records`, in order.
pub open spec fn record_views(records: Seq<Record>) -> Seq<RecordView> {
    records.map_values(|record: Record| record@)
}

/// A run as plain values.
pub struct RunView {
    /// The settings, which never change.
    pub args: ArgsView,
    /// The path of the workspace.
    pub workspace: Seq<char>,
    /// The template of the report.
    pub template: Seq<char>,
    /// The action to perform next.
    pub pending: ActionView,
    /// The position in the history of the entry that is being processed, or
    /// that will be asked for next.
    pub index: usize,
    /// The commit that was handed in last.
    pub current: Option<CommitView>,
    /// The records made so far, in the order in which they were made.
    pub records: Seq<RecordView>,
}

impl RunView {
    /// A run that has done nothing yet: it first wants to know whether the
    /// table exists.
    pub open spec fn start(args: ArgsView, workspace: Seq<char>, template: Seq<char>) -> RunView {
        RunView {
            args,
            workspace,
            template,
            pending: ActionView::ProbeOutput(args.output_file()),
            index: 0,
            current: None,
            records: Seq::empty(),
        }
    }

    /// This run with `action` pending.
    pub open spec fn proceed(self, action: ActionView) -> RunView {
        RunView { pending: action, ..self }
    }

    /// This run, given up.
    pub open spec fn abort(self, failure: FailureView) -> RunView {
        self.proceed(ActionView::Abort(failure))
    }

    /// Whether the run has come to its end.
    pub open spec fn finished(self) -> bool {
        self.pending is Finish || self.pending is Abort
    }

    /// The cache entry of `commit` at the present position in the history.
    pub open spec fn cache_entry(self, commit: CommitView) -> Seq<char> {
        entry_path_spec(self.args.cache_dir(), self.index as nat, short_spec(commit.id))
    }

    /// This run, moved on to the next entry of the history.
    pub open spec fn advance(self) -> RunView {
        if self.index < usize::MAX {
            RunView { index: (self.index + 1) as usize, pending: ActionView::NextCommit, ..self }
        } else {
            self.abort(FailureView::Overflow)
        }
    }

    /// This run after the pages of the cache entry of the current commit were
    /// counted: a record is made and is to be appended to the table, unless
    /// there is no count or the commit time cannot be written.
    pub open spec fn measure(self, counted: Result<u32, ExtractError>) -> RunView {
        match self.current {
            Some(commit) => match counted {
                Ok(pages) => match record_spec(commit, pages) {
                    Some(record) => RunView {
                        records: self.records.push(record),
                        pending: ActionView::Append {
                            path: self.args.output_file(),
                            text: row_spec(record),
                        },
                        ..self
                    },
                    None => self.abort(FailureView::Timestamp),
                },
                Err(_) => self.abort(FailureView::Extract),
            },
            None => self.abort(FailureView::Unexpected),
        }
    }

    /// The run that follows this one when the pending action has led to `event`.
    pub open spec fn step(self, event: EventView) -> RunView {
        match self.pending {
            ActionView::ProbeOutput(path) => match event {
                EventView::Exists(found) => if found {
                    self.proceed(ActionView::ConfirmOutput(output_question_spec(path)))
                } else {
                    self.proceed(ActionView::ProbeReport(self.args.report_file()))
                },
                _ => self.abort(stray_spec(event)),
            },
            ActionView::ConfirmOutput(_) => match event {
                EventView::Answer(yes) => if yes {
                    self.proceed(ActionView::ProbeReport(self.args.report_file()))
                } else {
                    self.abort(FailureView::OutputKept)
                },
                EventView::Failed(_) => self.abort(FailureView::OutputKept),
                _ => self.abort(FailureView::Unexpected),
            },
            ActionView::ProbeReport(path) => match event {
                EventView::Exists(found) => if found {
                    self.proceed(ActionView::ConfirmReport(report_question_spec(path)))
                } else {
                    self.proceed(
                        ActionView::CreateOutput {
                            path: self.args.output_file(),
                            text: header_spec(),
                        },
                    )
                },
                _ => self.abort(stray_spec(event)),
            },
            ActionView::ConfirmReport(_) => match event {
                EventView::Answer(yes) => if yes {
                    self.proceed(
                        ActionView::CreateOutput {
                            path: self.args.output_file(),
                            text: header_spec(),
                        },
                    )
                } else {
                    self.abort(FailureView::ReportKept(self.args.report_file()))
                },
                EventView::Failed(_) => self.abort(
                    FailureView::ReportKept(self.args.report_file()),
                ),
                _ => self.abort(FailureView::Unexpected),
            },
            ActionView::CreateOutput { .. } => match event {
                EventView::Done => self.proceed(ActionView::NextCommit),
                _ => self.abort(stray_spec(event)),
            },
            ActionView::NextCommit => match event {
                EventView::Commit(commit) => RunView {
                    current: Some(commit),
                    pending: ActionView::Lookup(self.cache_entry(commit)),
                    ..self
                },
                EventView::Unresolved => self.advance(),
                EventView::End => self.proceed(ActionView::ReadOutput(self.args.output_file())),
                _ => self.abort(stray_spec(event)),
            },
            ActionView::Lookup(path) => match event {
                EventView::Exists(found) => if found {
                    self.proceed(ActionView::Extract(path))
                } else {
                    self.proceed(ActionView::ClearWorkspace(self.workspace))
                },
                _ => self.abort(stray_spec(event)),
            },
            ActionView::ClearWorkspace(_) => match event {
                EventView::Done => self.proceed(
                    ActionView::CopyTree { from: self.args.repo_path, to: self.workspace },
                ),
                _ => self.abort(stray_spec(event)),
            },
            ActionView::CopyTree { .. } => match event {
                EventView::Done => match self.current {
                    Some(commit) => self.proceed(
                        ActionView::Checkout(checkout_command_spec(self.workspace, commit.id)),
                    ),
                    None => self.abort(FailureView::Unexpected),
                },
                _ => self.abort(stray_spec(event)),
            },
            ActionView::Checkout(_) => match event {
                EventView::Exited { success, diagnostics } => if success {
                    self.proceed(
                        ActionView::Build(
                            build_command_spec(
                                self.workspace,
                                self.args.main_tex_file,
                                self.args.latexmk_args,
                            ),
                        ),
                    )
                } else {
                    self.abort(FailureView::Checkout(diagnostics))
                },
                _ => self.abort(stray_spec(event)),
            },
            ActionView::Build(_) => match event {
                EventView::Exited { success, diagnostics } => if success {
                    match self.current {
                        Some(commit) => self.proceed(
                            ActionView::Store {
                                from: artifact_path_spec(self.workspace, self.args.main_tex_file),
                                to: self.cache_entry(commit),
                            },
                        ),
                        None => self.abort(FailureView::Unexpected),
                    }
                } else {
                    self.abort(FailureView::Build(diagnostics))
                },
                _ => self.abort(stray_spec(event)),
            },
            ActionView::Store { from, to } => match event {
                EventView::Done => self.proceed(ActionView::Extract(to)),
                _ => self.abort(stray_spec(event)),
            },
            ActionView::Extract(_) => match event {
                EventView::Pages(counted) => self.measure(counted),
                _ => self.abort(stray_spec(event)),
            },
            ActionView::Append { .. } => match event {
                EventView::Done => self.advance(),
                _ => self.abort(stray_spec(event)),
            },
            ActionView::ReadOutput(_) => match event {
                EventView::Text(data) => self.proceed(
                    ActionView::WriteReport {
                        path: self.args.report_file(),
                        text: render_spec(self.template, data),
                    },
                ),
                _ => self.abort(stray_spec(event)),
            },
            ActionView::WriteReport { .. } => match event {
                EventView::Done => self.proceed(ActionView::Finish),
                _ => self.abort(stray_spec(event)),
            },
            ActionView::Finish => self,
            ActionView::Abort(_) => self,
        }
    }

    /// The run that follows this one when the events of `events` come in, one
    /// after the other.
    pub open spec fn after(self, events: Seq<EventView>) -> RunView
        decreases events.len(),
    {
        if events.len() == 0 {
            self
        } else {
            self.after(events.drop_last()).step(events.last())
        }
    }
}

/// A run of the pipeline.
#[derive(Debug)]
pub struct Run {
    args: Args,
    workspace: String,
    template: String,
    pending: Action,
    index: usize,
    current: Option<Commit>,
    records: Vec<Record>,
}

impl View for Run {
    type V = RunView;

    closed spec fn view(&self) -> RunView {
        RunView {
            args: self.args@,
            workspace: self.workspace@,
            template: self.template@,
            pending: self.pending@,
            index: self.index,
            current: match self.current {
                Some(commit) => Some(commit@),
                None => None,
            },
            records: record_views(self.records@),
        }
    }
}

fn output_question(path: &str) -> (r: String)
    ensures
        r@ == output_question_spec(path@),
{
    let mut question = String::from_str("Output data file ");
    question.append(path);
    question.append(" exists. Overwrite?");
    question
}

fn report_question(path: &str) -> (r: String)
    ensures
        r@ == report_question_spec(path@),
{
    let mut question = String::from_str("Report file ");
    question.append(path);
    question.append(" already exists. Overwrite?");
    question
}

fn stray(event: Event) -> (r: Action)
    ensures
        r@ == ActionView::Abort(stray_spec(event@)),
{
    match event {
        Event::Failed(why) => Action::Abort(Failure::Io(why)),
        _ => Action::Abort(Failure::Unexpected),
    }
}

impl Run {
    /// A run with these settings that builds in `workspace` and renders its
    /// report from `template`.
    pub fn new(args: Args, workspace: String, template: String) -> (r: Run)
        ensures
            r@ == RunView::start(args@, workspace@, template@),
    {
        let path = args.output_file();
        let run = Run {
            args,
            workspace,
            template,
            pending: Action::ProbeOutput(path),
            index: 0,
            current: None,
            records: Vec::new(),
        };
        assert(record_views(run.records@) =~= Seq::<RecordView>::empty());
        run
    }

    /// The action to perform next.
    pub fn pending(&self) -> (r: &Action)
        ensures
            r@ == self@.pending,
    {
        &self.pending
    }

    /// The records made so far, oldest first.
    pub fn records(&self) -> (r: &Vec<Record>)
        ensures
            record_views(r@) == self@.records,
    {
        &self.records
    }

    /// The position in the history of the entry that is being processed.
    pub fn index(&self) -> (r: usize)
        ensures
            r == self@.index,
    {
        self.index
    }

    /// Whether the run has come to its end, complete or given up.
    pub fn finished(&self) -> (r: bool)
        ensures
            r == self@.finished(),
    {
        match &self.pending {
            Action::Finish => true,
            Action::Abort(_) => true,
            _ => false,
        }
    }

    /// Takes in a whole sequence of events, one after the other, as a driver
    /// that had recorded them would hand them in.
    pub fn replay(self, events: &Vec<Event>) -> (r: Run)
        ensures
            r@ == self@.after(event_views(events@)),
    {
        let ghost begin = self@;
        let ghost all = event_views(events@);
        let mut run = self;
        let mut i: usize = 0;
        while i < events.len()
            invariant
                i <= events@.len(),
                all == event_views(events@),
                run@ == begin.after(all.take(i as int)),
            decreases events@.len() - i,
        {
            proof {
                let part = all.take(i + 1);
                assert(part.drop_last() =~= all.take(i as int));
                assert(part.last() == events@[i as int]@);
            }
            run = run.step(events[i].clone());
            i += 1;
        }
        proof {
            assert(all.take(events@.len() as int) =~= all);
        }
        run
    }

    /// Takes in what the pending action has led to and decides what follows.
    pub fn step(self, event: Event) -> (r: Run)
        ensures
            r@ == self@.step(event@),
    {
        let Run { args, workspace, template, pending, index, current, records } = self;
        let mut index: usize = index;
        let mut current: Option<Commit> = current;
        let mut records: Vec<Record> = records;
        let next: Action = match pending {
            Action::ProbeOutput(path) => match event {
                Event::Exists(found) => if found {
                    Action::ConfirmOutput(output_question(path.as_str()))
                } else {
                    Action::ProbeReport(args.report_file())
                },
                other => stray(other),
            },
            Action::ConfirmOutput(_) => match event {
                Event::Answer(yes) => if yes {
                    Action::ProbeReport(args.report_file())
                } else {
                    Action::Abort(Failure::OutputKept)
                },
                Event::Failed(_) => Action::Abort(Failure::OutputKept),
                _ => Action::Abort(Failure::Unexpected),
            },
            Action::ProbeReport(path) => match event {
                Event::Exists(found) => if found {
                    Action::ConfirmReport(report_question(path.as_str()))
                } else {
                    Action::CreateOutput { path: args.output_file(), text: header() }
                },
                other => stray(other),
            },
            Action::ConfirmReport(_) => match event {
                Event::Answer(yes) => if yes {
                    Action::CreateOutput { path: args.output_file(), text: header() }
                } else {
                    Action::Abort(Failure::ReportKept(args.report_file()))
                },
                Event::Failed(_) => Action::Abort(Failure::ReportKept(args.report_file())),
                _ => Action::Abort(Failure::Unexpected),
            },
            Action::CreateOutput { .. } => match event {
                Event::Done => Action::NextCommit,
                other => stray(other),
            },
            Action::NextCommit => match event {
                Event::Commit(commit) => {
                    let dir = args.cache_dir();
                    let short = commit.short_id();
                    let entry = entry_path(dir.as_str(), index, short.as_str());
                    current = Some(commit);
                    Action::Lookup(entry)
                },
                Event::Unresolved => if index < usize::MAX {
                    index = index + 1;
                    Action::NextCommit
                } else {
                    Action::Abort(Failure::Overflow)
                },
                Event::End => Action::ReadOutput(args.output_file()),
                other => stray(other),
            },
            Action::Lookup(path) => match event {
                Event::Exists(found) => if found {
                    Action::Extract(path)
                } else {
                    Action::ClearWorkspace(workspace.clone())
                },
                other => stray(other),
            },
            Action::ClearWorkspace(_) => match event {
                Event::Done => Action::CopyTree {
                    from: args.repo_path.clone(),
                    to: workspace.clone(),
                },
                other => stray(other),
            },
            Action::CopyTree { .. } => match event {
                Event::Done => match &current {
                    Some(commit) => Action::Checkout(
                        checkout_command(workspace.as_str(), commit.id()),
                    ),
                    None => Action::Abort(Failure::Unexpected),
                },
                other => stray(other),
            },
            Action::Checkout(_) => match event {
                Event::Exited { success, diagnostics } => if success {
                    Action::Build(
                        build_command(
                            workspace.as_str(),
                            args.main_tex_file.as_str(),
                            &args.latexmk_args,
                        ),
                    )
                } else {
                    Action::Abort(Failure::Checkout(diagnostics))
                },
                other => stray(other),
            },
            Action::Build(_) => match event {
                Event::Exited { success, diagnostics } => if success {
                    match &current {
                        Some(commit) => {
                            let dir = args.cache_dir();
                            let short = commit.short_id();
                            Action::Store {
                                from: artifact_path(
                                    workspace.as_str(),
                                    args.main_tex_file.as_str(),
                                ),
                                to: entry_path(dir.as_str(), index, short.as_str()),
                            }
                        },
                        None => Action::Abort(Failure::Unexpected),
                    }
                } else {
                    Action::Abort(Failure::Build(diagnostics))
                },
                other => stray(other),
            },
            Action::Store { from: _, to } => match event {
                Event::Done => Action::Extract(to),
                other => stray(other),
            },
            Action::Extract(_) => match event {
                Event::Pages(counted) => match &current {
                    Some(commit) => match counted {
                        Ok(pages) => match Record::of(commit, pages) {
                            Some(record) => {
                                let text = record.row();
                                let ghost made = record@;
                                let ghost earlier = records@;
                                records.push(record);
                                assert(record_views(records@) =~= record_views(earlier).push(made));
                                Action::Append { path: args.output_file(), text }
                            },
                            None => Action::Abort(Failure::Timestamp),
                        },
                        Err(_) => Action::Abort(Failure::Extract),
                    },
                    None => Action::Abort(Failure::Unexpected),
                },
                other => stray(other),
            },
            Action::Append { .. } => match event {
                Event::Done => if index < usize::MAX {
                    index = index + 1;
                    Action::NextCommit
                } else {
                    Action::Abort(Failure::Overflow)
                },
                other => stray(other),
            },
            Action::ReadOutput(_) => match event {
                Event::Text(data) => Action::WriteReport {
                    path: args.report_file(),
                    text: render(template.as_str(), data.as_str()),
                },
                other => stray(other),
            },
            Action::WriteReport { .. } => match event {
                Event::Done => Action::Finish,
                other => stray(other),
            },
            Action::Finish => Action::Finish,
            Action::Abort(failure) => Action::Abort(failure),
        };
        Run { args, workspace, template, pending: next, index, current, records }
    }
}

} // verus!
