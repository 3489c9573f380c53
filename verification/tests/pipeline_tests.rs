use lopdf::{Dictionary, Document, Object};
use std::collections::BTreeMap;
use textory::args::Args;
use textory::commit::Commit;
use textory::extract::{extract_page_count, ExtractError};
use textory::invoke::{artifact_path, build_command, checkout_command};
use textory::pipeline::{Action, Event, Failure, Run};
use textory::record::Record;

const FIRST: &str = "1111111111111111111111111111111111111111";
const SECOND: &str = "2222222222222222222222222222222222222222";
const THIRD: &str = "3333333333333333333333333333333333333333";
const WORKSPACE: &str = "/tmp/w/repo";
const TEMPLATE: &str = "<pre>%%DATA%%</pre>";
const HEADER: &str = "Timestamp,Commit Hash,Page Count\n";

fn document(pages: usize) -> Vec<u8> {
    let mut doc = Document::with_version("1.5");
    let pages_id = doc.new_object_id();
    let mut kids = Vec::new();
    for _ in 0..pages {
        let mut page = Dictionary::new();
        page.set("Type", Object::Name(b"Page".to_vec()));
        page.set("Parent", Object::Reference(pages_id));
        kids.push(Object::Reference(doc.add_object(Object::Dictionary(page))));
    }
    let mut tree = Dictionary::new();
    tree.set("Type", Object::Name(b"Pages".to_vec()));
    tree.set("Count", Object::Integer(pages as i64));
    tree.set("Kids", Object::Array(kids));
    doc.objects.insert(pages_id, Object::Dictionary(tree));
    let mut catalog = Dictionary::new();
    catalog.set("Type", Object::Name(b"Catalog".to_vec()));
    catalog.set("Pages", Object::Reference(pages_id));
    let catalog_id = doc.add_object(Object::Dictionary(catalog));
    doc.trailer.set("Root", Object::Reference(catalog_id));
    let mut bytes = Vec::new();
    doc.save_to(&mut bytes).unwrap();
    bytes
}

fn args() -> Args {
    Args {
        main_tex_file: "thesis.tex".to_string(),
        repo_path: "/home/me/thesis".to_string(),
        output_dir: "out".to_string(),
        latexmk_args: vec!["-quiet".to_string()],
    }
}

fn commit(id: &str, seconds: i64) -> Event {
    Event::Commit(Commit::new(id.to_string(), seconds).unwrap())
}

fn fresh() -> Run {
    Run::new(args(), WORKSPACE.to_string(), TEMPLATE.to_string())
}

fn settled() -> Run {
    fresh().step(Event::Exists(false)).step(Event::Exists(false))
}

fn walking() -> Run {
    settled().step(Event::Done)
}

/// A run that waits for the page count of the cache entry of `FIRST`, found in the cache.
fn extracting(seconds: i64) -> Run {
    walking().step(commit(FIRST, seconds)).step(Event::Exists(true))
}

fn exited(success: bool, diagnostics: &str) -> Event {
    Event::Exited { success, diagnostics: diagnostics.to_string() }
}

/// Files, a history and a build tool that exist in memory only.
struct World {
    files: BTreeMap<String, Vec<u8>>,
    history: Vec<Event>,
    position: usize,
    pages: BTreeMap<String, usize>,
    workspace_holds: Option<String>,
    checked_out: Option<String>,
    answer: bool,
    report_answer: bool,
    performed: Vec<String>,
}

impl World {
    fn new(history: Vec<Event>, pages: &[(&str, usize)]) -> World {
        World {
            files: BTreeMap::new(),
            history,
            position: 0,
            pages: pages.iter().map(|(id, count)| (id.to_string(), *count)).collect(),
            workspace_holds: None,
            checked_out: None,
            answer: true,
            report_answer: true,
            performed: Vec::new(),
        }
    }

    fn rewind(&mut self) {
        self.position = 0;
        self.performed.clear();
    }

    fn text(&self, path: &str) -> String {
        String::from_utf8(self.files[path].clone()).unwrap()
    }

    fn count(&self, name: &str) -> usize {
        self.performed.iter().filter(|done| done.as_str() == name).count()
    }

    fn perform(&mut self, action: &Action) -> Event {
        let (name, event) = match action {
            Action::ProbeOutput(path) => ("ProbeOutput", Event::Exists(self.files.contains_key(path))),
            Action::ConfirmOutput(_) => ("ConfirmOutput", Event::Answer(self.answer)),
            Action::CreateOutput { path, text } => {
                self.files.insert(path.clone(), text.clone().into_bytes());
                ("CreateOutput", Event::Done)
            }
            Action::NextCommit => {
                let event = match self.history.get(self.position) {
                    Some(entry) => entry.clone(),
                    None => Event::End,
                };
                self.position += 1;
                ("NextCommit", event)
            }
            Action::Lookup(path) => ("Lookup", Event::Exists(self.files.contains_key(path))),
            Action::ClearWorkspace(path) => {
                assert_eq!(path, WORKSPACE);
                self.workspace_holds = None;
                self.checked_out = None;
                ("ClearWorkspace", Event::Done)
            }
            Action::CopyTree { from, to } => {
                assert_eq!(from, "/home/me/thesis");
                assert_eq!(to, WORKSPACE);
                assert_eq!(self.workspace_holds, None, "the workspace was not cleared");
                self.workspace_holds = Some("head".to_string());
                ("CopyTree", Event::Done)
            }
            Action::Checkout(command) => {
                assert_eq!(command.program, "git");
                assert_eq!(command.dir, WORKSPACE);
                assert_eq!(command.args[0], "checkout");
                self.checked_out = Some(command.args[1].clone());
                ("Checkout", exited(true, ""))
            }
            Action::Build(command) => {
                assert_eq!(command, &build_command(WORKSPACE, "thesis.tex", &vec!["-quiet".to_string()]));
                let id = self.checked_out.clone().unwrap();
                match self.pages.get(&id) {
                    Some(pages) => {
                        self.files.insert(artifact_path(WORKSPACE, "thesis.tex"), document(*pages));
                        ("Build", exited(true, "warning: overfull hbox"))
                    }
                    None => ("Build", exited(false, "! Undefined control sequence.")),
                }
            }
            Action::Store { from, to } => {
                let artifact = self.files.remove(from).unwrap();
                self.files.insert(to.clone(), artifact);
                ("Store", Event::Done)
            }
            Action::Extract(path) => match self.files.get(path) {
                Some(bytes) => ("Extract", Event::Pages(extract_page_count(bytes))),
                None => ("Extract", Event::Failed("no such file".to_string())),
            },
            Action::Append { path, text } => {
                self.files.get_mut(path).unwrap().extend_from_slice(text.as_bytes());
                ("Append", Event::Done)
            }
            Action::ReadOutput(path) => ("ReadOutput", Event::Text(self.text(path))),
            Action::ProbeReport(path) => ("ProbeReport", Event::Exists(self.files.contains_key(path))),
            Action::ConfirmReport(_) => ("ConfirmReport", Event::Answer(self.report_answer)),
            Action::WriteReport { path, text } => {
                self.files.insert(path.clone(), text.clone().into_bytes());
                ("WriteReport", Event::Done)
            }
            Action::Finish | Action::Abort(_) => unreachable!(),
        };
        self.performed.push(name.to_string());
        event
    }

    fn drive(&mut self, run: Run) -> Run {
        let mut run = run;
        while !run.finished() {
            let event = self.perform(run.pending());
            run = run.step(event);
        }
        run
    }
}

fn three_commits() -> World {
    World::new(
        vec![commit(FIRST, 1_000), commit(SECOND, 2_000), commit(THIRD, 3_000)],
        &[(FIRST, 2), (SECOND, 3), (THIRD, 4)],
    )
}

const TABLE: &str = "Timestamp,Commit Hash,Page Count\n\
1970-01-01T00:16:40+00:00,1111111111111111111111111111111111111111,2\n\
1970-01-01T00:33:20+00:00,2222222222222222222222222222222222222222,3\n\
1970-01-01T00:50:00+00:00,3333333333333333333333333333333333333333,4\n";

#[test]
fn a_fresh_run_probes_the_table() {
    let run = fresh();
    assert_eq!(run.pending(), &Action::ProbeOutput("out/textory_data.csv".to_string()));
    assert_eq!(run.index(), 0);
    assert!(run.records().is_empty());
    assert!(!run.finished());
}

#[test]
fn a_missing_table_is_created_with_the_header() {
    let run = fresh().step(Event::Exists(false));
    assert_eq!(run.pending(), &Action::ProbeReport("out/textory_report.html".to_string()));
    let run = run.step(Event::Exists(false));
    assert_eq!(
        run.pending(),
        &Action::CreateOutput { path: "out/textory_data.csv".to_string(), text: HEADER.to_string() }
    );
    assert_eq!(run.step(Event::Done).pending(), &Action::NextCommit);
}

#[test]
fn an_existing_table_is_asked_about() {
    let run = fresh().step(Event::Exists(true));
    assert_eq!(
        run.pending(),
        &Action::ConfirmOutput("Output data file out/textory_data.csv exists. Overwrite?".to_string())
    );
    let run = run.step(Event::Answer(true));
    assert_eq!(run.pending(), &Action::ProbeReport("out/textory_report.html".to_string()));
    let run = run.step(Event::Exists(false));
    assert_eq!(
        run.pending(),
        &Action::CreateOutput { path: "out/textory_data.csv".to_string(), text: HEADER.to_string() }
    );
}

#[test]
fn a_declined_overwrite_gives_the_run_up() {
    let run = fresh().step(Event::Exists(true)).step(Event::Answer(false));
    assert_eq!(run.pending(), &Action::Abort(Failure::OutputKept));
    assert!(run.finished());
}

#[test]
fn a_failed_question_counts_as_declined() {
    let run = fresh().step(Event::Exists(true)).step(Event::Failed("not a terminal".to_string()));
    assert_eq!(run.pending(), &Action::Abort(Failure::OutputKept));
}

#[test]
fn a_commit_is_looked_up_in_the_cache() {
    let run = walking().step(commit(FIRST, 1_000));
    assert_eq!(run.pending(), &Action::Lookup("out/cache/thesis_0-1111111.pdf".to_string()));
}

#[test]
fn a_cache_hit_goes_straight_to_the_page_count() {
    let run = walking().step(commit(FIRST, 1_000)).step(Event::Exists(true));
    assert_eq!(run.pending(), &Action::Extract("out/cache/thesis_0-1111111.pdf".to_string()));
}

#[test]
fn a_cache_miss_builds_in_a_fresh_workspace() {
    let run = walking().step(commit(FIRST, 1_000)).step(Event::Exists(false));
    assert_eq!(run.pending(), &Action::ClearWorkspace(WORKSPACE.to_string()));
    let run = run.step(Event::Done);
    assert_eq!(
        run.pending(),
        &Action::CopyTree { from: "/home/me/thesis".to_string(), to: WORKSPACE.to_string() }
    );
    let run = run.step(Event::Done);
    assert_eq!(run.pending(), &Action::Checkout(checkout_command(WORKSPACE, FIRST)));
    let run = run.step(exited(true, ""));
    assert_eq!(
        run.pending(),
        &Action::Build(build_command(WORKSPACE, "thesis.tex", &vec!["-quiet".to_string()]))
    );
    let run = run.step(exited(true, "warnings"));
    assert_eq!(
        run.pending(),
        &Action::Store {
            from: "/tmp/w/repo/thesis.pdf".to_string(),
            to: "out/cache/thesis_0-1111111.pdf".to_string(),
        }
    );
    let run = run.step(Event::Done);
    assert_eq!(run.pending(), &Action::Extract("out/cache/thesis_0-1111111.pdf".to_string()));
}

#[test]
fn the_page_count_makes_a_record_and_a_row() {
    let run = extracting(1_000).step(Event::Pages(extract_page_count(&document(2))));
    assert_eq!(
        run.pending(),
        &Action::Append {
            path: "out/textory_data.csv".to_string(),
            text: "1970-01-01T00:16:40+00:00,1111111111111111111111111111111111111111,2\n".to_string(),
        }
    );
    assert_eq!(
        run.records(),
        &vec![Record {
            seconds: 1_000,
            timestamp: "1970-01-01T00:16:40+00:00".to_string(),
            commit: FIRST.to_string(),
            pages: 2,
        }]
    );
    let run = run.step(Event::Done);
    assert_eq!(run.pending(), &Action::NextCommit);
    assert_eq!(run.index(), 1);
}

#[test]
fn the_second_commit_has_the_second_cache_entry() {
    let run = extracting(1_000).step(Event::Pages(extract_page_count(&document(2)))).step(Event::Done);
    let run = run.step(commit(SECOND, 2_000));
    assert_eq!(run.pending(), &Action::Lookup("out/cache/thesis_1-2222222.pdf".to_string()));
}

#[test]
fn three_commits_give_three_rows_and_three_cache_entries() {
    let mut world = three_commits();
    let run = world.drive(fresh());
    assert_eq!(run.pending(), &Action::Finish);
    let pages: Vec<u32> = run.records().iter().map(|record| record.pages).collect();
    assert_eq!(pages, vec![2, 3, 4]);
    let commits: Vec<&str> = run.records().iter().map(|record| record.commit.as_str()).collect();
    assert_eq!(commits, vec![FIRST, SECOND, THIRD]);
    let times: Vec<i64> = run.records().iter().map(|record| record.seconds).collect();
    assert_eq!(times, vec![1_000, 2_000, 3_000]);
    assert_eq!(world.text("out/textory_data.csv"), TABLE);
    let cached: Vec<&String> = world.files.keys().filter(|path| path.starts_with("out/cache/")).collect();
    assert_eq!(
        cached,
        vec![
            "out/cache/thesis_0-1111111.pdf",
            "out/cache/thesis_1-2222222.pdf",
            "out/cache/thesis_2-3333333.pdf",
        ]
    );
    assert_eq!(world.count("Build"), 3);
    assert!(!world.files.contains_key("/tmp/w/repo/thesis.pdf"));
    assert_eq!(world.text("out/textory_report.html"), format!("<pre>{}</pre>", TABLE));
}

#[test]
fn a_base_of_one_page_gives_counts_from_one() {
    let mut world = World::new(
        vec![commit(FIRST, 10), commit(SECOND, 20), commit(THIRD, 30)],
        &[(FIRST, 1), (SECOND, 2), (THIRD, 3)],
    );
    let run = world.drive(fresh());
    let pages: Vec<u32> = run.records().iter().map(|record| record.pages).collect();
    assert_eq!(pages, vec![1, 2, 3]);
}

#[test]
fn records_stand_in_the_order_of_the_history() {
    let mut world = three_commits();
    let run = world.drive(fresh());
    let records = run.records();
    for i in 1..records.len() {
        assert!(records[i - 1].seconds <= records[i].seconds);
        assert!(records[i - 1].timestamp <= records[i].timestamp);
    }
}

#[test]
fn a_second_run_on_a_filled_cache_builds_nothing() {
    let mut world = three_commits();
    let first = world.drive(fresh());
    let table = world.files["out/textory_data.csv"].clone();
    world.rewind();
    let second = world.drive(fresh());
    assert_eq!(second.pending(), &Action::Finish);
    for name in ["ClearWorkspace", "CopyTree", "Checkout", "Build", "Store"] {
        assert_eq!(world.count(name), 0, "{name}");
    }
    assert_eq!(world.count("Lookup"), 3);
    assert_eq!(world.count("Extract"), 3);
    assert_eq!(second.records(), first.records());
    assert_eq!(world.files["out/textory_data.csv"], table);
}

#[test]
fn a_declined_overwrite_leaves_the_table_as_it_was() {
    let mut world = three_commits();
    world.drive(fresh());
    let table = world.files["out/textory_data.csv"].clone();
    let report = world.files["out/textory_report.html"].clone();
    world.rewind();
    world.answer = false;
    let run = world.drive(fresh());
    assert_eq!(run.pending(), &Action::Abort(Failure::OutputKept));
    assert_eq!(world.performed, vec!["ProbeOutput", "ConfirmOutput"]);
    assert_eq!(world.files["out/textory_data.csv"], table);
    assert_eq!(world.files["out/textory_report.html"], report);
    assert!(run.records().is_empty());
}

#[test]
fn an_unresolved_entry_is_passed_over() {
    let mut world = World::new(
        vec![commit(FIRST, 1_000), Event::Unresolved, commit(THIRD, 3_000)],
        &[(FIRST, 2), (THIRD, 4)],
    );
    let run = world.drive(fresh());
    assert_eq!(run.pending(), &Action::Finish);
    let commits: Vec<&str> = run.records().iter().map(|record| record.commit.as_str()).collect();
    assert_eq!(commits, vec![FIRST, THIRD]);
    assert!(world.files.contains_key("out/cache/thesis_0-1111111.pdf"));
    assert!(world.files.contains_key("out/cache/thesis_2-3333333.pdf"));
    assert_eq!(
        world.text("out/textory_data.csv"),
        "Timestamp,Commit Hash,Page Count\n\
1970-01-01T00:16:40+00:00,1111111111111111111111111111111111111111,2\n\
1970-01-01T00:50:00+00:00,3333333333333333333333333333333333333333,4\n"
    );
}

#[test]
fn an_unresolved_entry_counts_one_position() {
    let run = walking().step(Event::Unresolved);
    assert_eq!(run.pending(), &Action::NextCommit);
    assert_eq!(run.index(), 1);
    assert!(run.records().is_empty());
}

#[test]
fn every_copy_follows_a_removal() {
    let mut world = three_commits();
    world.drive(fresh());
    let done = &world.performed;
    assert_eq!(world.count("CopyTree"), 3);
    for i in 0..done.len() {
        if done[i] == "CopyTree" {
            assert_eq!(done[i - 1], "ClearWorkspace");
        }
    }
}

#[test]
fn an_empty_history_gives_a_table_with_the_header_only() {
    let mut world = World::new(vec![], &[]);
    let run = world.drive(fresh());
    assert_eq!(run.pending(), &Action::Finish);
    assert_eq!(world.text("out/textory_data.csv"), HEADER);
    assert_eq!(world.text("out/textory_report.html"), format!("<pre>{}</pre>", HEADER));
}

#[test]
fn the_end_of_the_history_starts_the_report() {
    let run = walking().step(Event::End);
    assert_eq!(run.pending(), &Action::ReadOutput("out/textory_data.csv".to_string()));
    let run = run.step(Event::Text("a,b,c\n".to_string()));
    assert_eq!(
        run.pending(),
        &Action::WriteReport {
            path: "out/textory_report.html".to_string(),
            text: "<pre>a,b,c\n</pre>".to_string(),
        }
    );
    let run = run.step(Event::Done);
    assert_eq!(run.pending(), &Action::Finish);
    assert!(run.finished());
}

#[test]
fn an_existing_report_is_asked_about_before_the_table_is_created() {
    let run = fresh().step(Event::Exists(false)).step(Event::Exists(true));
    assert_eq!(
        run.pending(),
        &Action::ConfirmReport("Report file out/textory_report.html already exists. Overwrite?".to_string())
    );
    let run = run.step(Event::Answer(true));
    assert_eq!(
        run.pending(),
        &Action::CreateOutput { path: "out/textory_data.csv".to_string(), text: HEADER.to_string() }
    );
}

#[test]
fn a_declined_report_gives_the_run_up() {
    let asked = || fresh().step(Event::Exists(false)).step(Event::Exists(true));
    let kept = Action::Abort(Failure::ReportKept("out/textory_report.html".to_string()));
    assert_eq!(asked().step(Event::Answer(false)).pending(), &kept);
    assert_eq!(asked().step(Event::Failed("not a terminal".to_string())).pending(), &kept);
}

#[test]
fn a_declined_report_comes_before_any_work() {
    let mut world = three_commits();
    world.drive(fresh());
    let table = world.files["out/textory_data.csv"].clone();
    let report = world.files["out/textory_report.html"].clone();
    world.rewind();
    world.report_answer = false;
    let run = world.drive(fresh());
    assert_eq!(
        run.pending(),
        &Action::Abort(Failure::ReportKept("out/textory_report.html".to_string()))
    );
    assert_eq!(world.performed, vec!["ProbeOutput", "ConfirmOutput", "ProbeReport", "ConfirmReport"]);
    assert_eq!(world.files["out/textory_data.csv"], table);
    assert_eq!(world.files["out/textory_report.html"], report);
}

#[test]
fn a_report_without_table_is_asked_about_too() {
    let mut world = three_commits();
    world.files.insert("out/textory_report.html".to_string(), b"old report".to_vec());
    world.report_answer = false;
    let run = world.drive(fresh());
    assert_eq!(
        run.pending(),
        &Action::Abort(Failure::ReportKept("out/textory_report.html".to_string()))
    );
    assert_eq!(world.performed, vec!["ProbeOutput", "ProbeReport", "ConfirmReport"]);
    assert!(!world.files.contains_key("out/textory_data.csv"));
    assert_eq!(world.files["out/textory_report.html"], b"old report".to_vec());
}

#[test]
fn a_failed_action_gives_the_run_up() {
    let run = settled().step(Event::Failed("disk full".to_string()));
    assert_eq!(run.pending(), &Action::Abort(Failure::Io("disk full".to_string())));
    let run = walking().step(Event::Failed("object not found".to_string()));
    assert_eq!(run.pending(), &Action::Abort(Failure::Io("object not found".to_string())));
}

#[test]
fn a_failed_checkout_gives_the_run_up() {
    let run = walking()
        .step(commit(FIRST, 1))
        .step(Event::Exists(false))
        .step(Event::Done)
        .step(Event::Done)
        .step(exited(false, "error: pathspec did not match"));
    assert_eq!(
        run.pending(),
        &Action::Abort(Failure::Checkout("error: pathspec did not match".to_string()))
    );
    assert!(run.records().is_empty());
}

#[test]
fn a_failed_build_gives_the_run_up_without_artifact() {
    let mut world = World::new(vec![commit(FIRST, 1_000), commit(SECOND, 2_000)], &[(FIRST, 2)]);
    let run = world.drive(fresh());
    assert_eq!(
        run.pending(),
        &Action::Abort(Failure::Build("! Undefined control sequence.".to_string()))
    );
    assert_eq!(run.records().len(), 1);
    assert!(!world.files.contains_key("out/cache/thesis_1-2222222.pdf"));
    assert_eq!(
        world.text("out/textory_data.csv"),
        "Timestamp,Commit Hash,Page Count\n\
1970-01-01T00:16:40+00:00,1111111111111111111111111111111111111111,2\n"
    );
    assert_eq!(world.count("Store"), 1);
}

#[test]
fn a_build_that_warns_but_ends_with_zero_succeeds() {
    let run = walking()
        .step(commit(FIRST, 1))
        .step(Event::Exists(false))
        .step(Event::Done)
        .step(Event::Done)
        .step(exited(true, ""))
        .step(exited(true, "LaTeX Warning: There were undefined references."));
    assert!(matches!(run.pending(), Action::Store { .. }));
}

#[test]
fn an_artifact_that_is_no_document_gives_the_run_up() {
    let run = extracting(1_000).step(Event::Pages(extract_page_count(b"no document")));
    assert_eq!(run.pending(), &Action::Abort(Failure::Extract));
    assert!(run.records().is_empty());
}

#[test]
fn an_artifact_that_cannot_be_read_gives_the_run_up() {
    let run = extracting(1_000).step(Event::Failed("permission denied".to_string()));
    assert_eq!(run.pending(), &Action::Abort(Failure::Io("permission denied".to_string())));
}

#[test]
fn a_commit_before_the_epoch_gives_the_run_up() {
    let run = extracting(-1).step(Event::Pages(extract_page_count(&document(1))));
    assert_eq!(run.pending(), &Action::Abort(Failure::Timestamp));
    assert!(run.records().is_empty());
}

#[test]
fn an_event_that_is_no_answer_gives_the_run_up() {
    assert_eq!(fresh().step(Event::Done).pending(), &Action::Abort(Failure::Unexpected));
    assert_eq!(walking().step(Event::Exists(true)).pending(), &Action::Abort(Failure::Unexpected));
    assert_eq!(
        walking().step(Event::Pages(extract_page_count(&document(1)))).pending(),
        &Action::Abort(Failure::Unexpected)
    );
    assert_eq!(
        extracting(5).step(commit(SECOND, 6)).pending(),
        &Action::Abort(Failure::Unexpected)
    );
    assert_eq!(
        fresh().step(Event::Exists(true)).step(Event::Done).pending(),
        &Action::Abort(Failure::Unexpected)
    );
}

#[test]
fn a_run_that_has_ended_stays_as_it_is() {
    let done = walking().step(Event::End).step(Event::Text(String::new())).step(Event::Done);
    assert_eq!(done.pending(), &Action::Finish);
    let done = done.step(commit(FIRST, 1)).step(Event::Failed("late".to_string()));
    assert_eq!(done.pending(), &Action::Finish);
    let given_up = fresh().step(Event::Done);
    let given_up = given_up.step(Event::Exists(false)).step(Event::Done);
    assert_eq!(given_up.pending(), &Action::Abort(Failure::Unexpected));
}

#[test]
fn failures_tell_the_user_what_happened() {
    assert_eq!(Failure::OutputKept.message(), "Cannot produce output without overwriting. Aborting.");
    assert_eq!(
        Failure::ReportKept("out/textory_report.html".to_string()).message(),
        "Cannot create report, output file out/textory_report.html exists"
    );
    assert_eq!(Failure::Io("disk full".to_string()).message(), "disk full");
    assert_eq!(Failure::Checkout("stderr".to_string()).message(), "Git checkout failed");
    assert_eq!(Failure::Build("stderr".to_string()).message(), "LaTeX compilation failed");
    assert_eq!(Failure::Extract.message(), "Cannot count the pages of the artifact");
    assert_eq!(Failure::Timestamp.message(), "Cannot write the commit time as a timestamp");
    assert_eq!(Failure::Overflow.message(), "Too many entries in the history");
    assert_eq!(Failure::Unexpected.message(), "Unexpected event");
}

#[test]
fn replay_takes_the_events_one_after_the_other() {
    let events = vec![
        Event::Exists(false),
        Event::Exists(false),
        Event::Done,
        commit(FIRST, 1_000),
        Event::Exists(true),
        Event::Pages(extract_page_count(&document(2))),
        Event::Done,
        Event::Unresolved,
        commit(THIRD, 3_000),
    ];
    let run = fresh().replay(&events);
    assert_eq!(run.pending(), &Action::Lookup("out/cache/thesis_2-3333333.pdf".to_string()));
    assert_eq!(run.index(), 2);
    assert_eq!(run.records().len(), 1);
    let mut stepped = fresh();
    for event in &events {
        stepped = stepped.step(event.clone());
    }
    assert_eq!(stepped.pending(), run.pending());
    assert_eq!(stepped.records(), run.records());
}

#[test]
fn replay_of_nothing_changes_nothing() {
    let run = fresh().replay(&vec![]);
    assert_eq!(run.pending(), &Action::ProbeOutput("out/textory_data.csv".to_string()));
}

#[test]
fn the_same_content_gives_the_same_records_hit_or_miss() {
    let built = fresh().replay(&vec![
        Event::Exists(false),
        Event::Exists(false),
        Event::Done,
        commit(FIRST, 1_000),
        Event::Exists(false),
        Event::Done,
        Event::Done,
        exited(true, ""),
        exited(true, ""),
        Event::Done,
        Event::Pages(extract_page_count(&document(2))),
        Event::Done,
        Event::Unresolved,
        commit(SECOND, 2_000),
        Event::Exists(true),
        Event::Pages(extract_page_count(&document(3))),
    ]);
    let cached = fresh().replay(&vec![
        Event::Exists(true),
        Event::Answer(true),
        Event::Exists(true),
        Event::Answer(true),
        Event::Done,
        commit(FIRST, 1_000),
        Event::Exists(true),
        Event::Pages(extract_page_count(&document(2))),
        Event::Done,
        commit(SECOND, 2_000),
        Event::Exists(true),
        Event::Pages(extract_page_count(&document(3))),
    ]);
    assert_eq!(built.records().len(), 2);
    assert_eq!(built.records(), cached.records());
}

#[test]
fn a_count_that_is_handed_in_makes_the_record() {
    let run = extracting(1_000).step(Event::Pages(Ok(7)));
    assert_eq!(run.records().len(), 1);
    assert_eq!(run.records()[0].pages, 7);
    let run = extracting(1_000).step(Event::Pages(Err(ExtractError::Malformed)));
    assert_eq!(run.pending(), &Action::Abort(Failure::Extract));
}
