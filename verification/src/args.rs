//! What a run is told: where the sources are, what to build, where results go.

use crate::path::{join, join_spec};
use vstd::prelude::*;

verus! {

/// The settings of a run.
#[derive(Debug, PartialEq, Eq)]
pub struct Args {
    /// The entry file handed to the build tool, relative to the repository root.
    pub main_tex_file: String,
    /// The repository whose history is walked.
    pub repo_path: String,
    /// The directory that receives the cache, the table and the report.
    pub output_dir: String,
    /// Further arguments for the build tool, handed on unchanged.
    pub latexmk_args: Vec<String>,
}

/// The settings of a run as plain values.
pub struct ArgsView {
    pub main_tex_file: Seq<char>,
    pub repo_path: Seq<char>,
    pub output_dir: Seq<char>,
    pub latexmk_args: Seq<Seq<char>>,
}

/// The text of each string of `strings`.
pub open spec fn texts(strings: Seq<String>) -> Seq<Seq<char>> {
    strings.map_values(|s: String| s@)
}

impl View for Args {
    type V = ArgsView;

    open spec fn view(&self) -> ArgsView {
        ArgsView {
            main_tex_file: self.main_tex_file@,
            repo_path: self.repo_path@,
            output_dir: self.output_dir@,
            latexmk_args: texts(self.latexmk_args@),
        }
    }
}

impl ArgsView {
    /// The directory of cached artifacts: `cache` under the output directory.
    pub open spec fn cache_dir(self) -> Seq<char> {
        join_spec(self.output_dir, "cache"@)
    }

    /// The table of records: `textory_data.csv` under the output directory.
    pub open spec fn output_file(self) -> Seq<char> {
        join_spec(self.output_dir, "textory_data.csv"@)
    }

    /// The report: `textory_report.html` under the output directory.
    pub open spec fn report_file(self) -> Seq<char> {
        join_spec(self.output_dir, "textory_report.html"@)
    }
}

impl Args {
    /// The directory that holds one artifact per processed commit.
    pub fn cache_dir(&self) -> (r: String)
        ensures
            r@ == self@.cache_dir(),
    {
        join(self.output_dir.as_str(), "cache")
    }

    /// The file that receives the table of records.
    pub fn output_file(&self) -> (r: String)
        ensures
            r@ == self@.output_file(),
    {
        join(self.output_dir.as_str(), "textory_data.csv")
    }

    /// The file that receives the rendered report.
    pub fn report_file(&self) -> (r: String)
        ensures
            r@ == self@.report_file(),
    {
        join(self.output_dir.as_str(), "textory_report.html")
    }
}

} // verus!
