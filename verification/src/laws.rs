//! What holds of every run, whatever the events that come in.

use crate::args::ArgsView;
use crate::commit::CommitView;
use crate::extract::ExtractError;
use crate::invoke::{artifact_path_spec, build_command_spec, checkout_command_spec};
use crate::pipeline::{
    output_question_spec, report_question_spec, ActionView, EventView, FailureView, RunView,
};
use crate::record::{header_spec, record_spec, row_spec, RecordView};
use crate::report::render_spec;
use vstd::prelude::*;

verus! {

/// The record of `current` for what the count of its pages gave, where there
/// is a commit, there is a count and the commit time can be written.
pub open spec fn measured(
    current: Option<CommitView>,
    counted: Result<u32, ExtractError>,
) -> Option<RecordView> {
    match current {
        Some(commit) => match counted {
            Ok(pages) => record_spec(commit, pages),
            Err(_) => None,
        },
        None => None,
    }
}

/// The record that `run` makes when `event` comes in: one for the current
/// commit when the page count of its cache entry arrives, and none otherwise.
pub open spec fn made(run: RunView, event: EventView) -> Option<RecordView> {
    match run.pending {
        ActionView::Extract(_) => match event {
            EventView::Pages(counted) => measured(run.current, counted),
            _ => None,
        },
        _ => None,
    }
}

/// A step never touches the settings. It changes the current commit only by
/// taking in the next one, and the records only by appending the one it makes,
/// whose row it then wants appended to the table. A run that has ended stays
/// as it is.
pub proof fn lemma_step_frame(run: RunView, event: EventView)
    ensures
        run.step(event).args == run.args,
        run.step(event).workspace == run.workspace,
        run.step(event).template == run.template,
        run.step(event).records == (match made(run, event) {
            Some(record) => run.records.push(record),
            None => run.records,
        }),
        run.step(event).current == (if run.pending is NextCommit && event is Commit {
            Some(event->Commit_0)
        } else {
            run.current
        }),
        made(run, event) matches Some(record) ==> run.step(event).pending == (ActionView::Append {
            path: run.args.output_file(),
            text: row_spec(record),
        }),
        run.finished() ==> run.step(event) == run,
{
}

/// Once a run has ended, complete or given up, no event changes it.
pub proof fn lemma_finished_stays(run: RunView, events: Seq<EventView>)
    requires
        run.finished(),
    ensures
        run.after(events) == run,
    decreases events.len(),
{
    if events.len() > 0 {
        lemma_finished_stays(run, events.drop_last());
    }
}

/// The records only grow: whatever comes in, the records made before stay
/// where they are, and new ones follow them.
pub proof fn lemma_records_only_grow(run: RunView, events: Seq<EventView>)
    ensures
        run.records.is_prefix_of(run.after(events).records),
    decreases events.len(),
{
    if events.len() > 0 {
        let earlier = run.after(events.drop_last());
        lemma_records_only_grow(run, events.drop_last());
        lemma_step_frame(earlier, events.last());
    }
}

/// The commits among `events`, in the order in which they came in.
pub open spec fn commits_of(events: Seq<EventView>) -> Seq<CommitView>
    decreases events.len(),
{
    if events.len() == 0 {
        Seq::empty()
    } else {
        let earlier = commits_of(events.drop_last());
        match events.last() {
            EventView::Commit(commit) => earlier.push(commit),
            _ => earlier,
        }
    }
}

/// Whether no commit of `commits` is older than one before it.
pub open spec fn oldest_first(commits: Seq<CommitView>) -> bool {
    forall|i: int, j: int|
        0 <= i <= j < commits.len() ==> (#[trigger] commits[i]).seconds <= (
        #[trigger] commits[j]).seconds
}

/// Whether no record of `records` is older than one before it.
pub open spec fn in_time_order(records: Seq<RecordView>) -> bool {
    forall|i: int, j: int|
        0 <= i <= j < records.len() ==> (#[trigger] records[i]).seconds <= (
        #[trigger] records[j]).seconds
}

spec fn kept_in_order(run: RunView, commits: Seq<CommitView>) -> bool {
    &&& in_time_order(run.records)
    &&& match run.current {
        Some(commit) => {
            &&& commits.contains(commit)
            &&& forall|i: int|
                0 <= i < run.records.len() ==> (#[trigger] run.records[i]).seconds
                    <= commit.seconds
        },
        None => run.records.len() == 0,
    }
}

proof fn lemma_order_kept(start: RunView, events: Seq<EventView>)
    requires
        start.current is None,
        start.records.len() == 0,
        oldest_first(commits_of(events)),
    ensures
        kept_in_order(start.after(events), commits_of(events)),
    decreases events.len(),
{
    if events.len() > 0 {
        let earlier = events.drop_last();
        let event = events.last();
        let run = start.after(earlier);
        let next = run.step(event);
        let commits = commits_of(earlier);
        let all = commits_of(events);
        assert(forall|i: int| 0 <= i < commits.len() ==> all[i] == commits[i]);
        assert(oldest_first(commits)) by {
            assert forall|i: int, j: int| 0 <= i <= j < commits.len() implies (
            #[trigger] commits[i]).seconds <= (#[trigger] commits[j]).seconds by {
                assert(all[i] == commits[i]);
                assert(all[j] == commits[j]);
            }
        }
        lemma_order_kept(start, earlier);
        lemma_step_frame(run, event);
        if run.pending is NextCommit && event is Commit {
            let fresh = event->Commit_0;
            assert(all == commits.push(fresh));
            assert(all[commits.len() as int] == fresh);
            match run.current {
                Some(commit) => {
                    let k = choose|k: int| 0 <= k < commits.len() && commits[k] == commit;
                    assert(all[k].seconds <= all[commits.len() as int].seconds);
                },
                None => {},
            }
            assert(kept_in_order(next, all));
        } else {
            match run.current {
                Some(commit) => {
                    let k = choose|k: int| 0 <= k < commits.len() && commits[k] == commit;
                    assert(all[k] == commit);
                    match made(run, event) {
                        Some(record) => {
                            assert(record.seconds == commit.seconds);
                            assert(in_time_order(next.records)) by {
                                assert forall|i: int, j: int|
                                    0 <= i <= j < next.records.len() implies (
                                #[trigger] next.records[i]).seconds <= (
                                #[trigger] next.records[j]).seconds by {
                                    if j < run.records.len() {
                                        assert(next.records[i] == run.records[i]);
                                        assert(next.records[j] == run.records[j]);
                                    } else if i < run.records.len() {
                                        assert(next.records[i] == run.records[i]);
                                    }
                                }
                            }
                            assert forall|i: int| 0 <= i < next.records.len() implies (
                            #[trigger] next.records[i]).seconds <= commit.seconds by {
                                if i < run.records.len() {
                                    assert(next.records[i] == run.records[i]);
                                }
                            }
                        },
                        None => {},
                    }
                    assert(kept_in_order(next, all));
                },
                None => {
                    assert(made(run, event) is None);
                    assert(kept_in_order(next, all));
                },
            }
        }
    }
}

/// Chronological order: where the history hands its commits in oldest first,
/// the records of a run stand oldest first too, at every point of the run and
/// however it goes on or ends.
pub proof fn lemma_records_in_time_order(
    args: ArgsView,
    workspace: Seq<char>,
    template: Seq<char>,
    events: Seq<EventView>,
)
    requires
        oldest_first(commits_of(events)),
    ensures
        in_time_order(RunView::start(args, workspace, template).after(events).records),
{
    lemma_order_kept(RunView::start(args, workspace, template), events);
}

/// The record of the older commit comes first: of two records with different
/// times, the one with the earlier time stands before the other, where the
/// history hands its commits in oldest first.
pub proof fn lemma_older_record_stands_first(
    args: ArgsView,
    workspace: Seq<char>,
    template: Seq<char>,
    events: Seq<EventView>,
    older: int,
    younger: int,
)
    requires
        oldest_first(commits_of(events)),
        0 <= older < RunView::start(args, workspace, template).after(events).records.len(),
        0 <= younger < RunView::start(args, workspace, template).after(events).records.len(),
        RunView::start(args, workspace, template).after(events).records[older].seconds
            < RunView::start(args, workspace, template).after(events).records[younger].seconds,
    ensures
        older < younger,
{
    lemma_records_in_time_order(args, workspace, template, events);
}

/// What the commits and the page counts among `events` amount to: the commit
/// that came in last, and one record for each count that came in, made for
/// the commit before it.
pub open spec fn tally(events: Seq<EventView>) -> (Option<CommitView>, Seq<RecordView>)
    decreases events.len(),
{
    if events.len() == 0 {
        (None, Seq::empty())
    } else {
        let (current, records) = tally(events.drop_last());
        match events.last() {
            EventView::Commit(commit) => (Some(commit), records),
            EventView::Pages(counted) => match measured(current, counted) {
                Some(record) => (current, records.push(record)),
                None => (current, records),
            },
            _ => (current, records),
        }
    }
}

/// The commits and page counts among `events`, in the order in which they
/// came in: what a run is given to work on, without what it was told about
/// the cache, the workspace, the build and the files.
pub open spec fn content_of(events: Seq<EventView>) -> Seq<EventView>
    decreases events.len(),
{
    if events.len() == 0 {
        Seq::empty()
    } else {
        let earlier = content_of(events.drop_last());
        if events.last() is Commit || events.last() is Pages {
            earlier.push(events.last())
        } else {
            earlier
        }
    }
}

/// Whether every event of `events` was heeded by the run that began as
/// `start`: none made it fail, and none came after its end.
pub open spec fn heeded(start: RunView, events: Seq<EventView>) -> bool {
    &&& !(start.after(events).pending is Abort)
    &&& events.len() > 0 ==> !start.after(events.drop_last()).finished()
}

/// The tally depends on the content alone.
pub proof fn lemma_tally_of_content(events: Seq<EventView>)
    ensures
        tally(content_of(events)) == tally(events),
    decreases events.len(),
{
    if events.len() > 0 {
        let earlier = events.drop_last();
        let event = events.last();
        lemma_tally_of_content(earlier);
        if event is Commit || event is Pages {
            let content = content_of(earlier).push(event);
            assert(content.drop_last() =~= content_of(earlier));
            assert(content.last() == event);
        }
    }
}

/// A run whose events were all heeded has taken in exactly what the tally
/// says: its current commit is the one that came in last, and it holds one
/// record for each page count that came in.
pub proof fn lemma_run_matches_tally(start: RunView, events: Seq<EventView>)
    requires
        start.current is None,
        start.records.len() == 0,
        heeded(start, events),
    ensures
        start.after(events).current == tally(events).0,
        start.after(events).records == tally(events).1,
    decreases events.len(),
{
    if events.len() == 0 {
        assert(start.records =~= Seq::<RecordView>::empty());
    } else {
        let earlier = events.drop_last();
        let event = events.last();
        let run = start.after(earlier);
        if earlier.len() > 0 {
            let before = start.after(earlier.drop_last());
            if before.finished() {
                lemma_step_frame(before, earlier.last());
            }
        }
        lemma_run_matches_tally(start, earlier);
        lemma_step_frame(run, event);
    }
}

/// The records do not depend on how the artifacts were come by. Two runs with
/// the same settings whose events were all heeded, and that were given the
/// same commits and the same page counts in the same order, hold the same
/// records: the same commits, timestamps and page counts in the same order.
/// So a run that finds every artifact in the cache, and counts in each the
/// pages that were counted when it was built, gives the table that the run
/// which built them gave; and an entry of the history that cannot be resolved
/// leaves no trace in it.
pub proof fn lemma_same_content_same_records(
    args: ArgsView,
    workspace: Seq<char>,
    template: Seq<char>,
    first: Seq<EventView>,
    second: Seq<EventView>,
)
    requires
        content_of(first) == content_of(second),
        heeded(RunView::start(args, workspace, template), first),
        heeded(RunView::start(args, workspace, template), second),
    ensures
        RunView::start(args, workspace, template).after(first).records == RunView::start(
            args,
            workspace,
            template,
        ).after(second).records,
{
    let start = RunView::start(args, workspace, template);
    lemma_run_matches_tally(start, first);
    lemma_run_matches_tally(start, second);
    lemma_tally_of_content(first);
    lemma_tally_of_content(second);
}

/// Whether `action` belongs to the building of an artifact: the workspace,
/// the checkout, the build and the store.
pub open spec fn rebuilds(action: ActionView) -> bool {
    action is ClearWorkspace || action is CopyTree || action is Checkout || action is Build
        || action is Store
}

/// Whether `event` tells `run` that the cache lacks the entry it looked up.
pub open spec fn misses(run: RunView, event: EventView) -> bool {
    run.pending is Lookup && event == EventView::Exists(false)
}

/// Whether every lookup of the run that began as `start` found its entry.
pub open spec fn all_hits(start: RunView, events: Seq<EventView>) -> bool {
    forall|i: int|
        0 <= i < events.len() ==> !misses(#[trigger] start.after(events.take(i)), events[i])
}

proof fn lemma_hits_build_nothing(start: RunView, events: Seq<EventView>)
    requires
        !rebuilds(start.pending),
        all_hits(start, events),
    ensures
        !rebuilds(start.after(events).pending),
    decreases events.len(),
{
    if events.len() > 0 {
        let earlier = events.drop_last();
        assert(earlier =~= events.take(events.len() - 1));
        assert(all_hits(start, earlier)) by {
            assert forall|i: int| 0 <= i < earlier.len() implies !misses(
                #[trigger] start.after(earlier.take(i)),
                earlier[i],
            ) by {
                assert(earlier.take(i) =~= events.take(i));
                assert(!misses(start.after(events.take(i)), events[i]));
            }
        }
        lemma_hits_build_nothing(start, earlier);
        assert(!misses(start.after(events.take(events.len() - 1)), events[events.len() - 1]));
    }
}

/// A filled cache: a run in which every lookup finds its entry never clears
/// or fills a workspace, checks out, builds or stores. At no point of it is
/// such an action pending.
pub proof fn lemma_warm_cache_never_rebuilds(
    args: ArgsView,
    workspace: Seq<char>,
    template: Seq<char>,
    events: Seq<EventView>,
    upto: int,
)
    requires
        all_hits(RunView::start(args, workspace, template), events),
        0 <= upto <= events.len(),
    ensures
        !rebuilds(RunView::start(args, workspace, template).after(events.take(upto)).pending),
{
    let start = RunView::start(args, workspace, template);
    let part = events.take(upto);
    assert(all_hits(start, part)) by {
        assert forall|i: int| 0 <= i < part.len() implies !misses(
            #[trigger] start.after(part.take(i)),
            part[i],
        ) by {
            assert(part.take(i) =~= events.take(i));
            assert(!misses(start.after(events.take(i)), events[i]));
        }
    }
    lemma_hits_build_nothing(start, part);
}

/// An entry of the history that cannot be resolved is passed over: the run
/// asks for the next entry, counts one position on, makes no record and does
/// not fail.
pub proof fn lemma_unresolved_is_skipped(run: RunView)
    requires
        run.pending is NextCommit,
        run.index < usize::MAX,
    ensures
        run.step(EventView::Unresolved).pending is NextCommit,
        run.step(EventView::Unresolved).index == run.index + 1,
        run.step(EventView::Unresolved).records == run.records,
        run.step(EventView::Unresolved).current == run.current,
{
}

/// Whether the pending action of `run` fits its settings, its position in the
/// history, its current commit and its records: every path, command and text
/// that the action carries is the one that the settings and the commit give,
/// and a row that is to be appended is the row of the record made last, which
/// is that of the current commit.
pub open spec fn consistent(run: RunView) -> bool {
    match run.pending {
        ActionView::ProbeOutput(path) => path == run.args.output_file(),
        ActionView::ConfirmOutput(question) => question == output_question_spec(
            run.args.output_file(),
        ),
        ActionView::CreateOutput { path, text } => path == run.args.output_file() && text
            == header_spec(),
        ActionView::NextCommit => true,
        ActionView::Lookup(path) => run.current matches Some(commit) && path == run.cache_entry(
            commit,
        ),
        ActionView::ClearWorkspace(path) => run.current is Some && path == run.workspace,
        ActionView::CopyTree { from, to } => run.current is Some && from == run.args.repo_path
            && to == run.workspace,
        ActionView::Checkout(command) => run.current matches Some(commit) && command
            == checkout_command_spec(run.workspace, commit.id),
        ActionView::Build(command) => run.current is Some && command == build_command_spec(
            run.workspace,
            run.args.main_tex_file,
            run.args.latexmk_args,
        ),
        ActionView::Store { from, to } => run.current matches Some(commit) && from
            == artifact_path_spec(run.workspace, run.args.main_tex_file) && to == run.cache_entry(
            commit,
        ),
        ActionView::Extract(path) => run.current matches Some(commit) && path == run.cache_entry(
            commit,
        ),
        ActionView::Append { path, text } => run.current matches Some(commit) && run.records.len()
            > 0 && run.records.last().commit == commit.id && run.records.last().seconds
            == commit.seconds && path == run.args.output_file() && text == row_spec(
            run.records.last(),
        ),
        ActionView::ReadOutput(path) => path == run.args.output_file(),
        ActionView::ProbeReport(path) => path == run.args.report_file(),
        ActionView::ConfirmReport(question) => question == report_question_spec(
            run.args.report_file(),
        ),
        ActionView::WriteReport { path, .. } => path == run.args.report_file(),
        ActionView::Finish => true,
        ActionView::Abort(_) => true,
    }
}

/// A step keeps a run consistent.
pub proof fn lemma_step_keeps_consistent(run: RunView, event: EventView)
    requires
        consistent(run),
    ensures
        consistent(run.step(event)),
{
}

/// Every run is consistent at every point: whatever events come in, the
/// action that is pending fits the settings and the commit in hand. In
/// particular, a commit is in hand whenever an action needs one.
pub proof fn lemma_runs_stay_consistent(
    args: ArgsView,
    workspace: Seq<char>,
    template: Seq<char>,
    events: Seq<EventView>,
)
    ensures
        consistent(RunView::start(args, workspace, template).after(events)),
    decreases events.len(),
{
    if events.len() > 0 {
        lemma_runs_stay_consistent(args, workspace, template, events.drop_last());
        lemma_step_keeps_consistent(
            RunView::start(args, workspace, template).after(events.drop_last()),
            events.last(),
        );
    }
}

/// The lines of `records`, one after the other.
pub open spec fn rows_spec(records: Seq<RecordView>) -> Seq<char>
    decreases records.len(),
{
    if records.len() == 0 {
        Seq::empty()
    } else {
        rows_spec(records.drop_last()) + row_spec(records.last())
    }
}

/// The table of `records`: the header, then their lines.
pub open spec fn table_spec(records: Seq<RecordView>) -> Seq<char> {
    header_spec() + rows_spec(records)
}

/// What the table holds once `events` have come in, going by the actions
/// that were reported as carried out: creating the table leaves the text that
/// was to be written, and appending adds the text that was to be appended.
pub open spec fn written(start: RunView, events: Seq<EventView>) -> Seq<char>
    decreases events.len(),
{
    if events.len() == 0 {
        Seq::empty()
    } else {
        let earlier = written(start, events.drop_last());
        match (start.after(events.drop_last()).pending, events.last()) {
            (ActionView::CreateOutput { text, .. }, EventView::Done) => text,
            (ActionView::Append { text, .. }, EventView::Done) => earlier + text,
            _ => earlier,
        }
    }
}

spec fn table_fits(run: RunView, text: Seq<char>) -> bool {
    match run.pending {
        ActionView::ProbeOutput(_) => text.len() == 0 && run.records.len() == 0,
        ActionView::ConfirmOutput(_) => text.len() == 0 && run.records.len() == 0,
        ActionView::ProbeReport(_) => text.len() == 0 && run.records.len() == 0,
        ActionView::ConfirmReport(_) => text.len() == 0 && run.records.len() == 0,
        ActionView::CreateOutput { .. } => text.len() == 0 && run.records.len() == 0,
        ActionView::Append { .. } => run.records.len() > 0 && text == table_spec(
            run.records.drop_last(),
        ),
        ActionView::Abort(_) => {
            ||| text.len() == 0 && run.records.len() == 0
            ||| text == table_spec(run.records)
            ||| run.records.len() > 0 && text == table_spec(run.records.drop_last())
        },
        _ => text == table_spec(run.records),
    }
}

proof fn lemma_table_fits(
    args: ArgsView,
    workspace: Seq<char>,
    template: Seq<char>,
    events: Seq<EventView>,
)
    ensures
        table_fits(
            RunView::start(args, workspace, template).after(events),
            written(RunView::start(args, workspace, template), events),
        ),
    decreases events.len(),
{
    let start = RunView::start(args, workspace, template);
    if events.len() > 0 {
        let earlier = events.drop_last();
        let event = events.last();
        let run = start.after(earlier);
        let next = run.step(event);
        let text = written(start, earlier);
        lemma_table_fits(args, workspace, template, earlier);
        lemma_runs_stay_consistent(args, workspace, template, earlier);
        lemma_step_frame(run, event);
        match made(run, event) {
            Some(record) => {
                assert(next.records.drop_last() =~= run.records);
            },
            None => {},
        }
        if run.pending is CreateOutput && event is Done {
            assert(run.records =~= Seq::<RecordView>::empty());
            assert(header_spec() + rows_spec(run.records) =~= header_spec());
        }
        if run.pending is Append && event is Done {
            assert(header_spec() + rows_spec(run.records.drop_last()) + row_spec(
                run.records.last(),
            ) =~= header_spec() + (rows_spec(run.records.drop_last()) + row_spec(
                run.records.last(),
            )));
        }
    }
}

/// The table holds the records. At every point of a run the table, as the
/// completed actions have left it, is the table of the records made so far,
/// or of all but the last of them while its line is still to be appended; it
/// is empty only as long as there is no record. When the run is complete, the
/// table is the header followed by the line of each record, in order.
pub proof fn lemma_table_holds_the_records(
    args: ArgsView,
    workspace: Seq<char>,
    template: Seq<char>,
    events: Seq<EventView>,
)
    ensures
        ({
            let run = RunView::start(args, workspace, template).after(events);
            let text = written(RunView::start(args, workspace, template), events);
            &&& run.pending is Finish ==> text == table_spec(run.records)
            &&& run.pending is NextCommit ==> text == table_spec(run.records)
            &&& {
                ||| text.len() == 0 && run.records.len() == 0
                ||| text == table_spec(run.records)
                ||| run.records.len() > 0 && text == table_spec(run.records.drop_last())
            }
        }),
{
    lemma_table_fits(args, workspace, template, events);
}

/// Hit or miss, what is measured for a commit is its entry in the cache. The
/// entry that is looked up when the commit comes in is the one that is read
/// on a hit; on a miss it is the one that the built artifact is stored to,
/// from where the build leaves it, and that is read after the store.
pub proof fn lemma_measures_the_cache_entry(
    run: RunView,
    commit: CommitView,
    checkout_diagnostics: Seq<char>,
    build_diagnostics: Seq<char>,
)
    requires
        run.pending is NextCommit,
    ensures
        ({
            let entry = run.cache_entry(commit);
            let looked = run.step(EventView::Commit(commit));
            let built = looked.step(EventView::Exists(false)).step(EventView::Done).step(
                EventView::Done,
            ).step(EventView::Exited { success: true, diagnostics: checkout_diagnostics }).step(
                EventView::Exited { success: true, diagnostics: build_diagnostics },
            );
            &&& looked.pending == ActionView::Lookup(entry)
            &&& looked.step(EventView::Exists(true)).pending == ActionView::Extract(entry)
            &&& built.pending == (ActionView::Store {
                from: artifact_path_spec(run.workspace, run.args.main_tex_file),
                to: entry,
            })
            &&& built.step(EventView::Done).pending == ActionView::Extract(entry)
        }),
{
}

/// A workspace is filled only right after it was cleared: the copy of the
/// tree is never asked for but in answer to a completed removal, and it goes
/// into the workspace of the run. The removal in turn is asked for only on a
/// cache miss, and is that of the same workspace.
pub proof fn lemma_copy_follows_clear(run: RunView, event: EventView)
    ensures
        run.step(event).pending is CopyTree ==> run.pending is ClearWorkspace && event is Done
            && run.step(event).pending == (ActionView::CopyTree {
            from: run.args.repo_path,
            to: run.workspace,
        }),
        run.step(event).pending is ClearWorkspace ==> misses(run, event) && run.step(event).pending
            == ActionView::ClearWorkspace(run.workspace),
{
}

/// Nothing is overwritten unasked. The table is created, and with that
/// emptied, only once the question of the report is settled: the report was
/// found missing, or overwriting it was confirmed. That question is raised
/// only once the one of the table is settled in the same way. A refusal of
/// either gives the run up.
pub proof fn lemma_output_is_guarded(run: RunView, event: EventView)
    ensures
        run.step(event).pending is CreateOutput ==> (run.pending is ProbeReport && event
            == EventView::Exists(false)) || (run.pending is ConfirmReport && event
            == EventView::Answer(true)),
        run.step(event).pending is ProbeReport ==> (run.pending is ProbeOutput && event
            == EventView::Exists(false)) || (run.pending is ConfirmOutput && event
            == EventView::Answer(true)),
        run.pending is ConfirmOutput && event == EventView::Answer(false) ==> run.step(
            event,
        ).pending == ActionView::Abort(FailureView::OutputKept),
        run.pending is ConfirmReport && event == EventView::Answer(false) ==> run.step(
            event,
        ).pending == ActionView::Abort(FailureView::ReportKept(run.args.report_file())),
{
}

/// Whether `action` changes a file or a directory, or starts a program.
pub open spec fn changes_something(action: ActionView) -> bool {
    action is CreateOutput || action is Append || action is WriteReport || rebuilds(action)
}

/// Whether the run still has to settle what may be overwritten.
pub open spec fn settling(run: RunView) -> bool {
    run.pending is ProbeOutput || run.pending is ConfirmOutput || run.pending is ProbeReport
        || run.pending is ConfirmReport
}

/// Conflicts are decided before any work begins. A run that is given up
/// while it settles what may be overwritten has changed nothing: from its
/// start to its end no action was pending that writes, copies, removes or
/// starts a program.
pub proof fn lemma_refusal_comes_before_work(
    args: ArgsView,
    workspace: Seq<char>,
    template: Seq<char>,
    events: Seq<EventView>,
    upto: int,
)
    requires
        events.len() > 0,
        settling(RunView::start(args, workspace, template).after(events.drop_last())),
        RunView::start(args, workspace, template).after(events).pending is Abort,
        0 <= upto <= events.len(),
    ensures
        !changes_something(
            RunView::start(args, workspace, template).after(events.take(upto)).pending,
        ),
{
    let start = RunView::start(args, workspace, template);
    if upto < events.len() {
        lemma_settling_so_far(start, events.drop_last(), upto);
        assert(events.drop_last().take(upto) =~= events.take(upto));
    } else {
        assert(events.take(upto) =~= events);
    }
}

proof fn lemma_settling_so_far(start: RunView, events: Seq<EventView>, upto: int)
    requires
        settling(start.after(events)),
        0 <= upto <= events.len(),
    ensures
        settling(start.after(events.take(upto))),
    decreases events.len(),
{
    if upto == events.len() {
        assert(events.take(upto) =~= events);
    } else {
        let earlier = events.drop_last();
        lemma_step_frame(start.after(earlier), events.last());
        lemma_settling_so_far(start, earlier, upto);
        assert(earlier.take(upto) =~= events.take(upto));
    }
}

/// The report is written only from the table that was read back: it is the
/// template filled with that text.
pub proof fn lemma_report_is_rendered(run: RunView, event: EventView)
    ensures
        run.step(event).pending is WriteReport ==> run.pending is ReadOutput && event is Text
            && run.step(event).pending == (ActionView::WriteReport {
            path: run.args.report_file(),
            text: render_spec(run.template, event->Text_0),
        }),
{
}

} // verus!
