//! The local build sandbox's decision logic: the disposable workspace is
//! described as a plan of files to write after a full purge, and the run's
//! outcome is judged from the captured output.  The filesystem and
//! subprocess work itself is the caller's, driven by these plans.

use crate::outside::{decoded_utf8, utf8_decode};
use vstd::prelude::*;
use vstd::string::StringExecFns;

verus! {

/// What can go wrong in a local sandbox run.
#[derive(Debug)]
pub enum Error {
    /// A filesystem step failed; the string carries the reported cause.
    Io(String),
    /// The build tool cannot be invoked at all.
    NotInstalledCargo,
    /// The build or the program exited nonzero; the string is its stderr.
    FailedRun(String),
    /// Captured output was not valid UTF-8.
    StrConvert,
    /// The workspace path exists but is not a directory.
    PathIsNotDir,
}

impl Error {
    /// The user-facing description of the error.
    pub fn message(&self) -> (r: String)
        ensures
            self matches Error::Io(e) ==> r@ == "Io Error: "@ + e@,
            self is NotInstalledCargo ==> r@ == "not installed Rust run env"@,
            self matches Error::FailedRun(e) ==> r@ == "failed run "@ + e@,
            self is StrConvert ==> r@ == "failed convert to String"@,
            self is PathIsNotDir ==> r@ == "server error: Path isn't Dir"@,
    {
        match self {
            Error::Io(e) => {
                let mut s: String = String::from_str("Io Error: ");
                s.append(e.as_str());
                s
            },
            Error::NotInstalledCargo => String::from_str("not installed Rust run env"),
            Error::FailedRun(e) => {
                let mut s: String = String::from_str("failed run ");
                s.append(e.as_str());
                s
            },
            Error::StrConvert => String::from_str("failed convert to String"),
            Error::PathIsNotDir => String::from_str("server error: Path isn't Dir"),
        }
    }
}

/// The build descriptor for the disposable single-package project.
pub open spec fn cargo_toml_text(edition: Seq<char>) -> Seq<char> {
    "[package]\nname = \"tmp\"\nversion = \"0.1.0\"\nedition = \""@ + edition
        + "\"\n[dependencies]"@
}

/// Writes the build descriptor declaring a minimal package at `ed`.
pub fn gen_cargo_toml(ed: &str) -> (r: String)
    ensures
        r@ == cargo_toml_text(ed@),
{
    let mut s: String = String::from_str(
        "[package]\nname = \"tmp\"\nversion = \"0.1.0\"\nedition = \"",
    );
    s.append(ed);
    s.append("\"\n[dependencies]");
    proof {
        assert(s@ =~= cargo_toml_text(ed@));
    }
    s
}

/// The snippet wrapped in the sandbox's entry point.
pub open spec fn entry_point_text(src: Seq<char>) -> Seq<char> {
    "fn main(){"@ + src + "}"@
}

/// Wraps the snippet in a synthetic `main`, changing nothing else.
pub fn ready_code(src: &str) -> (r: String)
    ensures
        r@ == entry_point_text(src@),
{
    let mut s: String = String::from_str("fn main(){");
    s.append(src);
    s.append("}");
    proof {
        assert(s@ =~= entry_point_text(src@));
    }
    s
}

/// A snippet staged for the local sandbox.
pub struct SrcCode {
    code: String,
    location: String,
    edition: String,
}

impl SrcCode {
    /// The snippet's text.
    pub closed spec fn code_view(&self) -> Seq<char> {
        self.code@
    }

    /// The workspace root path.
    pub closed spec fn location_view(&self) -> Seq<char> {
        self.location@
    }

    /// The language edition the build descriptor declares.
    pub closed spec fn edition_view(&self) -> Seq<char> {
        self.edition@
    }

    /// Stages `code` for a run under `location` at `edition`.
    pub fn new(code: &str, location: &str, edition: &str) -> (r: Self)
        ensures
            r.code_view() == code@,
            r.location_view() == location@,
            r.edition_view() == edition@,
    {
        SrcCode {
            code: String::from_str(code),
            location: String::from_str(location),
            edition: String::from_str(edition),
        }
    }

    /// The workspace root path, for the driver that executes the plan.
    pub fn location(&self) -> (r: &str)
        ensures
            r@ == self.location_view(),
    {
        self.location.as_str()
    }

    /// The file plan of this run: the workspace is purged and recreated to
    /// hold exactly the build descriptor and the generated entry point.
    pub fn plan(&self) -> (r: WorkspacePlan)
        ensures
            r.root@ == self.location_view(),
            r.files@.len() == 2,
            r.files@[0].path@ == "Cargo.toml"@,
            r.files@[0].contents@ == cargo_toml_text(self.edition_view()),
            r.files@[1].path@ == "src/main.rs"@,
            r.files@[1].contents@ == entry_point_text(self.code_view()),
    {
        let mut files: Vec<PlannedFile> = Vec::new();
        files.push(
            PlannedFile {
                path: String::from_str("Cargo.toml"),
                contents: gen_cargo_toml(self.edition.as_str()),
            },
        );
        files.push(
            PlannedFile {
                path: String::from_str("src/main.rs"),
                contents: ready_code(self.code.as_str()),
            },
        );
        WorkspacePlan { root: self.location.clone(), files }
    }
}

/// Runs a staged snippet; the driver that owns the toolchain, filesystem
/// and subprocess implements this.
pub trait CodeRunner {
    /// Runs the snippet and hands back its standard output, or the error.
    fn run(&self) -> Result<String, Error>;
}

/// One file a run writes, relative to the workspace root.
pub struct PlannedFile {
    pub path: String,
    pub contents: String,
}

/// The files of one run.  Executing a plan means deleting the workspace
/// root recursively, recreating it, and writing exactly these files; no
/// artifact of an earlier run survives.
pub struct WorkspacePlan {
    pub root: String,
    pub files: Vec<PlannedFile>,
}

/// The file map a plan's file list describes.
pub open spec fn plan_map(files: Seq<(Seq<char>, Seq<char>)>) -> Map<Seq<char>, Seq<char>>
    decreases files.len(),
{
    if files.len() == 0 {
        Map::empty()
    } else {
        plan_map(files.drop_last()).insert(files.last().0, files.last().1)
    }
}

impl WorkspacePlan {
    /// The planned files as path-to-contents pairs.
    pub open spec fn files_view(&self) -> Seq<(Seq<char>, Seq<char>)> {
        self.files@.map_values(|f: PlannedFile| (f.path@, f.contents@))
    }
}

/// The workspace contents after a plan runs over any prior contents: the
/// prior contents are purged, so only the planned files remain.
pub open spec fn apply_plan(
    prior: Map<Seq<char>, Seq<char>>,
    files: Seq<(Seq<char>, Seq<char>)>,
) -> Map<Seq<char>, Seq<char>> {
    plan_map(files)
}

/// Workspace idempotence: running a plan after any earlier plan leaves the
/// same contents as running it on any other prior state — nothing of the
/// earlier run survives into the later one.
pub proof fn lemma_workspace_idempotent(
    prior: Map<Seq<char>, Seq<char>>,
    first: Seq<(Seq<char>, Seq<char>)>,
    second: Seq<(Seq<char>, Seq<char>)>,
)
    ensures
        apply_plan(apply_plan(prior, first), second) == apply_plan(prior, second),
        apply_plan(apply_plan(prior, first), second) == plan_map(second),
{
}

/// What the sandbox driver reports back to the pipeline.
pub enum RunEvent {
    /// The toolchain probe failed before anything else ran.
    ToolchainMissing,
    /// A filesystem step failed; the string carries the reported cause.
    IoFailed(String),
    /// The build-and-run subprocess finished with this captured output.
    Finished { stdout: Vec<u8>, stderr: Vec<u8>, success: bool },
}

/// Judges a run from the driver's event: a missing toolchain and an I/O
/// fault map to their errors; captured output must decode as UTF-8, the
/// standard output being decoded first; a successful exit yields the
/// standard output and a failing one the standard error.
pub fn conclude_run(ev: RunEvent) -> (r: Result<String, Error>)
    ensures
        ev is ToolchainMissing ==> (r matches Err(e) && e is NotInstalledCargo),
        ev matches RunEvent::IoFailed(m) ==> (r matches Err(e) && e matches Error::Io(m2) && m2@
            == m@),
        ev matches RunEvent::Finished { stdout, stderr, success } ==> {
            if decoded_utf8(stdout@) is None || decoded_utf8(stderr@) is None {
                r matches Err(e) && e is StrConvert
            } else if success {
                r matches Ok(s) && decoded_utf8(stdout@) == Some(s@)
            } else {
                r matches Err(e) && e matches Error::FailedRun(m) && decoded_utf8(stderr@)
                    == Some(m@)
            }
        },
{
    match ev {
        RunEvent::ToolchainMissing => Err(Error::NotInstalledCargo),
        RunEvent::IoFailed(m) => Err(Error::Io(m)),
        RunEvent::Finished { stdout, stderr, success } => {
            let out: Option<String> = utf8_decode(stdout.as_slice());
            let err: Option<String> = utf8_decode(stderr.as_slice());
            match (out, err) {
                (Some(o), Some(e)) => {
                    if success {
                        Ok(o)
                    } else {
                        Err(Error::FailedRun(e))
                    }
                },
                _ => Err(Error::StrConvert),
            }
        },
    }
}

} // verus!
