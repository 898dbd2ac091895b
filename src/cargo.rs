//! Projects built with Cargo: detected by their `Cargo.toml`, with `target`
//! as their only ephemeral directory.
use vstd::prelude::*;
use crate::manager::{BuildToolManager, Probe};
use crate::manifest::{package_name, read_project_name_from_cargo_toml, same_answer, ProjectNameError};
use crate::plan::{is_effectful, CleanStep};
use crate::status::{counted, lemma_clean_iff_empty, status_from_sizes, status_of_sizes, BuildStatus, DirObservation, StatusError};
use crate::text::{join_path, joined, lower_of, lowercase, same_text};

verus! {

/// Adds the Cargo probe at the end of the registry.
pub fn register(manager: &mut BuildToolManager)
    ensures
        final(manager)@ == old(manager)@.push(Probe::Cargo(CargoProbe)),
{
    manager.register(Probe::Cargo(CargoProbe));
}

/// The names under which a user may ask for Cargo, in lowercase.
pub open spec fn cargo_alias(s: Seq<char>) -> bool {
    s == "cargo"@ || s == "rust"@ || s == "rs"@
}

/// Whether an already lowercased name is one of Cargo's aliases.
pub fn is_cargo_alias(lowered: &str) -> (r: bool)
    ensures
        r == cargo_alias(lowered@),
{
    same_text(lowered, "cargo") || same_text(lowered, "rust") || same_text(lowered, "rs")
}

/// Detects Cargo projects.
#[derive(Debug, Clone, Copy, PartialEq, Eq, Structural)]
pub struct CargoProbe;

impl CargoProbe {
    /// The file whose presence in a directory marks a Cargo project.
    pub fn marker_file(&self) -> (r: &'static str)
        ensures
            r@ == "Cargo.toml"@,
    {
        "Cargo.toml"
    }

    /// A Cargo instance for `path` when its marker file is a regular file
    /// there, and nothing otherwise.
    pub fn probe(&self, path: &str, marker_is_file: bool) -> (r: Option<Cargo>)
        ensures
            r is Some <==> marker_is_file,
            r matches Some(c) ==> c@ == path@,
    {
        if marker_is_file {
            Some(Cargo::new(path))
        } else {
            None
        }
    }

    /// Whether `name`, in any letter case, names Cargo.
    pub fn applies_to(&self, name: &str) -> (r: bool)
        ensures
            r == cargo_alias(lower_of(name@)),
    {
        let lowered = lowercase(name);
        is_cargo_alias(lowered.as_str())
    }
}

/// A Cargo project at a fixed path.
#[derive(Debug, Clone)]
pub struct Cargo {
    path: String,
}

impl View for Cargo {
    type V = Seq<char>;

    /// The project's path.
    closed spec fn view(&self) -> Seq<char> {
        self.path@
    }
}

impl Cargo {
    pub fn new(path: &str) -> (r: Self)
        ensures
            r@ == path@,
    {
        Cargo { path: String::from_str(path) }
    }

    pub fn path(&self) -> (r: &str)
        ensures
            r@ == self@,
    {
        self.path.as_str()
    }

    /// Name shown to users.
    pub fn name(&self) -> (r: &'static str)
        ensures
            r@ == "Cargo"@,
    {
        "Cargo"
    }

    /// The path of the build output directory.
    pub fn target_dir(&self) -> (r: String)
        ensures
            r@ == joined(self@, "target"@),
    {
        join_path(self.path.as_str(), "target")
    }

    /// The path of the manifest that `project_name` reads.
    pub fn manifest_path(&self) -> (r: String)
        ensures
            r@ == joined(self@, "Cargo.toml"@),
    {
        join_path(self.path.as_str(), "Cargo.toml")
    }

    /// Status from what was observed at `target_dir()`.
    pub fn status(&self, target: DirObservation) -> (r: Result<BuildStatus, StatusError>)
        ensures
            r == status_of_sizes(counted(target, false)),
    {
        let mut sizes: Vec<u64> = Vec::new();
        if target.is_dir {
            sizes.push(target.size);
        }
        assert(sizes@ =~= counted(target, false));
        status_from_sizes(&sizes)
    }

    /// The steps that clean the project: the build output directory, where it
    /// exists, is removed directly (which is what `cargo clean` does, and
    /// needs no Cargo installed); a dry run only prints that removal.
    pub fn clean_project(&self, dry_run: bool, target_is_dir: bool) -> (r: Vec<CleanStep>)
        ensures
            !target_is_dir ==> r@.len() == 0,
            target_is_dir ==> r@.len() == 1,
            dry_run ==> forall|i: int| 0 <= i < r@.len() ==> !is_effectful(#[trigger] r@[i]),
            target_is_dir && dry_run ==> (r@[0] matches CleanStep::Print(line) && line@ == self@
                + ": rm -r "@ + joined(self@, "target"@)),
            target_is_dir && !dry_run ==> (r@[0] matches CleanStep::RemoveDir(dir) && dir@
                == joined(self@, "target"@)),
    {
        let mut steps: Vec<CleanStep> = Vec::new();
        if target_is_dir {
            let dir = self.target_dir();
            if dry_run {
                let mut line = String::from_str(self.path.as_str());
                line.append(": rm -r ");
                line.append(dir.as_str());
                steps.push(CleanStep::Print(line));
            } else {
                steps.push(CleanStep::RemoveDir(dir));
            }
        }
        steps
    }

    /// The package name from the text of the manifest at `manifest_path()`,
    /// or `Unreadable` where the caller could not read it. Cargo always
    /// answers.
    pub fn project_name(&self, manifest_text: Option<&str>) -> (r: Option<
        Result<String, ProjectNameError>,
    >)
        ensures
            r is Some,
            manifest_text is None ==> r == Some(
                Err::<String, ProjectNameError>(ProjectNameError::Unreadable),
            ),
            manifest_text matches Some(t) ==> same_answer(r->Some_0, package_name(t@)),
    {
        match manifest_text {
            Some(t) => Some(read_project_name_from_cargo_toml(t)),
            None => Some(Err(ProjectNameError::Unreadable)),
        }
    }
}

} // verus!

verus! {

/// A Cargo project is reported `Clean` exactly when its build output
/// directory is absent or empty.
pub proof fn lemma_cargo_clean_iff_empty(target: DirObservation)
    ensures
        status_of_sizes(counted(target, false)) == Ok::<BuildStatus, StatusError>(BuildStatus::Clean)
            <==> (!target.is_dir || target.size == 0),
{
    lemma_clean_iff_empty(counted(target, false));
}

} // verus!
