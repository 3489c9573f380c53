//! The two outside programs of a run: the version control tool that checks a
//! commit out, and the build tool that compiles the entry file.

use crate::args::texts;
use crate::path::{join, join_spec, with_extension, with_extension_spec};
use vstd::prelude::*;

verus! {

/// A program to start: which one, in which directory, with which arguments.
#[derive(Debug, PartialEq, Eq)]
pub struct Command {
    pub program: String,
    pub dir: String,
    pub args: Vec<String>,
}

/// A command as plain values.
pub struct CommandView {
    pub program: Seq<char>,
    pub dir: Seq<char>,
    pub args: Seq<Seq<char>>,
}

impl View for Command {
    type V = CommandView;

    open spec fn view(&self) -> CommandView {
        CommandView { program: self.program@, dir: self.dir@, args: texts(self.args@) }
    }
}

/// `git checkout <commit>`, run inside the workspace.
pub open spec fn checkout_command_spec(workspace: Seq<char>, commit: Seq<char>) -> CommandView {
    CommandView { program: "git"@, dir: workspace, args: seq!["checkout"@, commit] }
}

/// `latexmk -pdf <entry> <extra...>`, run inside the workspace. The extra
/// arguments follow in the order given, each unchanged.
pub open spec fn build_command_spec(
    workspace: Seq<char>,
    entry: Seq<char>,
    extra: Seq<Seq<char>>,
) -> CommandView {
    CommandView { program: "latexmk"@, dir: workspace, args: seq!["-pdf"@, entry] + extra }
}

/// Where a successful build leaves its artifact: the entry file with the
/// extension `pdf`, seen from the workspace.
pub open spec fn artifact_path_spec(workspace: Seq<char>, entry: Seq<char>) -> Seq<char> {
    join_spec(workspace, with_extension_spec(entry, "pdf"@))
}

/// The command that rewrites the workspace to the content of `commit`.
pub fn checkout_command(workspace: &str, commit: &str) -> (r: Command)
    ensures
        r@ == checkout_command_spec(workspace@, commit@),
{
    let mut args: Vec<String> = Vec::new();
    args.push(String::from_str("checkout"));
    args.push(String::from_str(commit));
    assert(texts(args@) =~= seq!["checkout"@, commit@]);
    Command { program: String::from_str("git"), dir: String::from_str(workspace), args }
}

/// The command that compiles `entry` inside the workspace.
pub fn build_command(workspace: &str, entry: &str, extra: &Vec<String>) -> (r: Command)
    ensures
        r@ == build_command_spec(workspace@, entry@, texts(extra@)),
{
    let mut args: Vec<String> = Vec::new();
    args.push(String::from_str("-pdf"));
    args.push(String::from_str(entry));
    let mut i: usize = 0;
    while i < extra.len()
        invariant
            i <= extra@.len(),
            args@.len() == 2 + i,
            args@[0]@ == "-pdf"@,
            args@[1]@ == entry@,
            forall|k: int| 0 <= k < i ==> (#[trigger] args@[2 + k])@ == extra@[k]@,
        decreases extra@.len() - i,
    {
        args.push(extra[i].clone());
        i += 1;
    }
    assert(texts(args@) =~= seq!["-pdf"@, entry@] + texts(extra@)) by {
        assert forall|j: int| 0 <= j < args@.len() implies texts(args@)[j] == (seq![
            "-pdf"@,
            entry@,
        ] + texts(extra@))[j] by {
            if j >= 2 {
                assert(args@[2 + (j - 2)]@ == extra@[j - 2]@);
            }
        }
    }
    Command { program: String::from_str("latexmk"), dir: String::from_str(workspace), args }
}

/// The path at which the build of `entry` is expected to leave its artifact.
pub fn artifact_path(workspace: &str, entry: &str) -> (r: String)
    ensures
        r@ == artifact_path_spec(workspace@, entry@),
{
    let artifact = with_extension(entry, "pdf");
    join(workspace, artifact.as_str())
}

} // verus!
