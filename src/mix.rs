//! Projects built with Mix: detected by their `mix.exs`, cleaned by running
//! `mix clean --deps`; the ElixirLS cache counts only where it is ignored by
//! the project's ignore rules.
use vstd::prelude::*;
use crate::manager::{BuildToolManager, Probe};
use crate::manifest::ProjectNameError;
use crate::plan::{is_effectful, rendered, CleanStep, CommandLine};
use crate::status::{counted, lemma_clean_iff_empty, status_from_sizes, status_of_sizes, BuildStatus, DirObservation, StatusError};
use crate::text::{join_path, joined, lower_of, lowercase, same_text};

verus! {

/// Registration was refused.
#[derive(Debug, Clone, Copy, PartialEq, Eq, Structural)]
pub enum RegisterError {
    /// The `mix` executable could not be run.
    MixNotAvailable,
}

/// Adds the Mix probe at the end of the registry. Unless `probe_only` is set,
/// the caller must have checked whether `mix --version` runs; where it did not
/// (`mix_available` false), registration fails and the registry is unchanged.
pub fn register(manager: &mut BuildToolManager, probe_only: bool, mix_available: bool) -> (r: Result<
    (),
    RegisterError,
>)
    ensures
        r is Err <==> !probe_only && !mix_available,
        r matches Err(e) ==> e == RegisterError::MixNotAvailable && final(manager)@ == old(
            manager,
        )@,
        r is Ok ==> final(manager)@ == old(manager)@.push(Probe::Mix(MixProbe)),
{
    if !probe_only && !mix_available {
        return Err(RegisterError::MixNotAvailable);
    }
    manager.register(Probe::Mix(MixProbe));
    Ok(())
}

/// The names under which a user may ask for Mix, in lowercase.
pub open spec fn mix_alias(s: Seq<char>) -> bool {
    s == "mix"@ || s == "elixir"@ || s == "ex"@ || s == "exs"@
}

/// Whether an already lowercased name is one of Mix's aliases.
pub fn is_mix_alias(lowered: &str) -> (r: bool)
    ensures
        r == mix_alias(lowered@),
{
    same_text(lowered, "mix") || same_text(lowered, "elixir") || same_text(lowered, "ex")
        || same_text(lowered, "exs")
}

/// Detects Mix projects.
#[derive(Debug, Clone, Copy, PartialEq, Eq, Structural)]
pub struct MixProbe;

impl MixProbe {
    /// The file whose presence in a directory marks a Mix project.
    pub fn marker_file(&self) -> (r: &'static str)
        ensures
            r@ == "mix.exs"@,
    {
        "mix.exs"
    }

    /// A Mix instance for `path` when its marker file is a regular file
    /// there, and nothing otherwise.
    pub fn probe(&self, path: &str, marker_is_file: bool) -> (r: Option<Mix>)
        ensures
            r is Some <==> marker_is_file,
            r matches Some(m) ==> m@ == path@,
    {
        if marker_is_file {
            Some(Mix::new(path))
        } else {
            None
        }
    }

    /// Whether `name`, in any letter case, names Mix.
    pub fn applies_to(&self, name: &str) -> (r: bool)
        ensures
            r == mix_alias(lower_of(name@)),
    {
        let lowered = lowercase(name);
        is_mix_alias(lowered.as_str())
    }
}

/// The text of the clean command.
pub open spec fn mix_clean_text() -> Seq<char> {
    "mix clean --deps"@
}

/// `c` runs `mix clean --deps` in the directory `path`.
pub open spec fn is_mix_clean(c: CommandLine, path: Seq<char>) -> bool {
    &&& c.program@ == "mix"@
    &&& c.args@.len() == 2
    &&& c.args@[0]@ == "clean"@
    &&& c.args@[1]@ == "--deps"@
    &&& c.cwd@ == path
}

/// A Mix project at a fixed path.
#[derive(Debug, Clone)]
pub struct Mix {
    path: String,
}

impl View for Mix {
    type V = Seq<char>;

    /// The project's path.
    closed spec fn view(&self) -> Seq<char> {
        self.path@
    }
}

impl Mix {
    pub fn new(path: &str) -> (r: Self)
        ensures
            r@ == path@,
    {
        Mix { path: String::from_str(path) }
    }

    pub fn path(&self) -> (r: &str)
        ensures
            r@ == self@,
    {
        self.path.as_str()
    }

    /// Name shown to users.
    pub fn name(&self) -> (r: &'static str)
        ensures
            r@ == "Mix"@,
    {
        "Mix"
    }

    /// The path of the build output directory.
    pub fn build_dir(&self) -> (r: String)
        ensures
            r@ == joined(self@, "_build"@),
    {
        join_path(self.path.as_str(), "_build")
    }

    /// The path of the dependency directory.
    pub fn deps_dir(&self) -> (r: String)
        ensures
            r@ == joined(self@, "deps"@),
    {
        join_path(self.path.as_str(), "deps")
    }

    /// The path of the ElixirLS cache.
    pub fn elixir_ls_dir(&self) -> (r: String)
        ensures
            r@ == joined(self@, ".elixir_ls"@),
    {
        join_path(self.path.as_str(), ".elixir_ls")
    }

    /// The entry `name` of the project, when it is a directory that the
    /// project's ignore rules match; anything else may be user data and is
    /// left alone.
    pub fn dir(&self, name: &str, observed: DirObservation) -> (r: Option<String>)
        ensures
            r is Some <==> observed.is_dir && observed.gitignored,
            r matches Some(d) ==> d@ == joined(self@, name@),
    {
        if observed.is_dir && observed.gitignored {
            Some(join_path(self.path.as_str(), name))
        } else {
            None
        }
    }

    /// Status from what was observed at `build_dir()`, `deps_dir()` and
    /// `elixir_ls_dir()`; the cache counts only where it is ignored.
    pub fn status(&self, build: DirObservation, deps: DirObservation, elixir_ls: DirObservation) -> (r:
        Result<BuildStatus, StatusError>)
        ensures
            r == status_of_sizes(mix_sizes(build, deps, elixir_ls)),
    {
        let mut sizes: Vec<u64> = Vec::new();
        if build.is_dir {
            sizes.push(build.size);
        }
        if deps.is_dir {
            sizes.push(deps.size);
        }
        if elixir_ls.is_dir && elixir_ls.gitignored {
            sizes.push(elixir_ls.size);
        }
        assert(sizes@ =~= mix_sizes(build, deps, elixir_ls));
        status_from_sizes(&sizes)
    }

    /// The command that cleans the project, dependencies included.
    pub fn clean_command(&self) -> (r: CommandLine)
        ensures
            is_mix_clean(r, self@),
    {
        let mut args: Vec<String> = Vec::new();
        args.push(String::from_str("clean"));
        args.push(String::from_str("--deps"));
        CommandLine { program: String::from_str("mix"), args, cwd: String::from_str(self.path.as_str()) }
    }

    /// The steps that clean the project: `mix clean --deps` in the project
    /// directory, then removal of the ElixirLS cache where it is an ignored
    /// directory. A dry run prints each step, prefixed by the project path,
    /// instead.
    pub fn clean_project(&self, dry_run: bool, elixir_ls: DirObservation) -> (r: Vec<CleanStep>)
        ensures
            r@.len() == if elixir_ls.is_dir && elixir_ls.gitignored { 2int } else { 1int },
            dry_run ==> forall|i: int| 0 <= i < r@.len() ==> !is_effectful(#[trigger] r@[i]),
            dry_run ==> (r@[0] matches CleanStep::Print(line) && line@ == self@ + ": "@
                + mix_clean_text()),
            !dry_run ==> (r@[0] matches CleanStep::Run(c) && is_mix_clean(c, self@)),
            r@.len() == 2 && dry_run ==> (r@[1] matches CleanStep::Print(line) && line@ == self@
                + ": rm -r "@ + joined(self@, ".elixir_ls"@)),
            r@.len() == 2 && !dry_run ==> (r@[1] matches CleanStep::RemoveDir(d) && d@ == joined(
                self@,
                ".elixir_ls"@,
            )),
    {
        let mut steps: Vec<CleanStep> = Vec::new();
        let cmd = self.clean_command();
        if dry_run {
            let text = cmd.render();
            proof {
                reveal_strlit("mix");
                reveal_strlit("clean");
                reveal_strlit("--deps");
                reveal_strlit("mix clean --deps");
                let a = cmd.args@;
                assert(rendered(cmd.program@, a.drop_last().drop_last()) == cmd.program@);
                assert(a.drop_last().last() == a[0]);
                assert(rendered(cmd.program@, a.drop_last()) == cmd.program@ + seq![' '] + a[0]@);
                assert(rendered(cmd.program@, a) == cmd.program@ + seq![' '] + a[0]@ + seq![' ']
                    + a[1]@);
                assert(rendered(cmd.program@, cmd.args@) =~= mix_clean_text());
            }
            let mut line = String::from_str(self.path.as_str());
            line.append(": ");
            line.append(text.as_str());
            steps.push(CleanStep::Print(line));
        } else {
            steps.push(CleanStep::Run(cmd));
        }
        match self.dir(".elixir_ls", elixir_ls) {
            Some(cache) => {
                if dry_run {
                    let mut line = String::from_str(self.path.as_str());
                    line.append(": rm -r ");
                    line.append(cache.as_str());
                    steps.push(CleanStep::Print(line));
                } else {
                    steps.push(CleanStep::RemoveDir(cache));
                }
            },
            None => {},
        }
        steps
    }

    /// Mix declines to name the project: reading the name from `mix.exs`
    /// reliably would mean running (and compiling) the project.
    pub fn project_name(&self) -> (r: Option<Result<String, ProjectNameError>>)
        ensures
            r is None,
    {
        None
    }
}

} // verus!

verus! {

/// The sizes that a Mix project's status is computed from.
pub open spec fn mix_sizes(build: DirObservation, deps: DirObservation, elixir_ls: DirObservation) -> Seq<
    u64,
> {
    counted(build, false) + counted(deps, false) + counted(elixir_ls, true)
}

/// A Mix project is reported `Clean` exactly when its build and dependency
/// directories are absent or empty, and its ElixirLS cache is absent, empty
/// or not ignored.
pub proof fn lemma_mix_clean_iff_empty(
    build: DirObservation,
    deps: DirObservation,
    elixir_ls: DirObservation,
)
    ensures
        status_of_sizes(mix_sizes(build, deps, elixir_ls)) == Ok::<BuildStatus, StatusError>(
            BuildStatus::Clean,
        ) <==> (!build.is_dir || build.size == 0) && (!deps.is_dir || deps.size == 0) && (
        !elixir_ls.is_dir || !elixir_ls.gitignored || elixir_ls.size == 0),
{
    let s = mix_sizes(build, deps, elixir_ls);
    lemma_clean_iff_empty(s);
    let a = counted(build, false);
    let b = counted(deps, false);
    let c = counted(elixir_ls, true);
    assert forall|i: int| 0 <= i < a.len() implies s[i] == a[i] by {}
    assert forall|i: int| 0 <= i < b.len() implies s[a.len() + i] == b[i] by {}
    assert forall|i: int| 0 <= i < c.len() implies s[a.len() + b.len() + i] == c[i] by {}
    if (!build.is_dir || build.size == 0) && (!deps.is_dir || deps.size == 0) && (!elixir_ls.is_dir
        || !elixir_ls.gitignored || elixir_ls.size == 0) {
        assert forall|i: int| 0 <= i < s.len() implies s[i] == 0 by {
            if i < a.len() {
            } else if i < a.len() + b.len() {
                assert(s[i] == b[i - a.len()]);
            } else {
                assert(s[i] == c[i - a.len() - b.len()]);
            }
        }
    } else if build.is_dir && build.size != 0 {
        assert(s[0] == a[0]);
    } else if deps.is_dir && deps.size != 0 {
        assert(s[a.len() as int] == b[0]);
    } else {
        assert(s[(a.len() + b.len()) as int] == c[0]);
    }
}

/// An ElixirLS cache that the ignore rules do not match never counts: the
/// status is the one of the same project without the cache.
pub proof fn lemma_unignored_cache_not_counted(
    build: DirObservation,
    deps: DirObservation,
    elixir_ls: DirObservation,
)
    requires
        !elixir_ls.gitignored,
    ensures
        status_of_sizes(mix_sizes(build, deps, elixir_ls)) == status_of_sizes(
            mix_sizes(build, deps, DirObservation { is_dir: false, ..elixir_ls }),
        ),
{
    assert(mix_sizes(build, deps, elixir_ls) =~= mix_sizes(
        build,
        deps,
        DirObservation { is_dir: false, ..elixir_ls },
    ));
}

} // verus!
