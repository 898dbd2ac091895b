use build_cleaner::manager::{BuildToolManager, Probe};
use build_cleaner::mix::{is_mix_alias, register, Mix, MixProbe, RegisterError};
use build_cleaner::plan::CleanStep;
use build_cleaner::status::{BuildStatus, DirObservation};

fn absent() -> DirObservation {
    DirObservation { is_dir: false, gitignored: false, size: 0 }
}

fn cache(gitignored: bool) -> DirObservation {
    // a `.elixir_ls` directory holding one file `dummy` with the text "dummy"
    DirObservation { is_dir: true, gitignored, size: "dummy".len() as u64 }
}

#[test]
fn elixir_ls_cache_is_only_removed_if_gitignored() {
    // "normal": `.gitignore` holds ".elixir_ls/", which matches the cache
    let normal = Mix::new("root/normal");
    let normal_status = normal.status(absent(), absent(), cache(true)).unwrap();
    assert!(matches!(normal_status, BuildStatus::Built { freeable_bytes } if freeable_bytes > 0));

    // "not-ignored": no ignore rule matches the cache
    let not_ignored = Mix::new("root/not-ignored");
    let not_ignored_status = not_ignored.status(absent(), absent(), cache(false)).unwrap();
    assert!(matches!(not_ignored_status, BuildStatus::Clean));
}

#[test]
fn unignored_cache_is_never_removed() {
    let m = Mix::new("/p");
    let steps = m.clean_project(false, cache(false));
    assert_eq!(steps.len(), 1);
    assert!(matches!(&steps[0], CleanStep::Run(_)));
    let steps = m.clean_project(false, cache(true));
    assert_eq!(steps.len(), 2);
    assert!(matches!(&steps[1], CleanStep::RemoveDir(d) if d == "/p/.elixir_ls"));
}

#[test]
fn mix_status_sums_build_and_deps() {
    let m = Mix::new("/p");
    let build = DirObservation { is_dir: true, gitignored: false, size: 100 };
    let deps = DirObservation { is_dir: true, gitignored: false, size: 23 };
    assert_eq!(m.status(build, deps, cache(true)).unwrap(), BuildStatus::Built { freeable_bytes: 128 });
    assert_eq!(m.status(build, deps, cache(false)).unwrap(), BuildStatus::Built { freeable_bytes: 123 });
    assert_eq!(m.status(absent(), absent(), absent()).unwrap(), BuildStatus::Clean);
    let empty = DirObservation { is_dir: true, gitignored: true, size: 0 };
    assert_eq!(m.status(empty, empty, empty).unwrap(), BuildStatus::Clean);
}

#[test]
fn mix_dry_run_only_prints() {
    let m = Mix::new("/p");
    let steps = m.clean_project(true, cache(true));
    assert_eq!(steps.len(), 2);
    assert!(matches!(&steps[0], CleanStep::Print(l) if l == "/p: mix clean --deps"));
    assert!(matches!(&steps[1], CleanStep::Print(l) if l == "/p: rm -r /p/.elixir_ls"));
    let before = m.status(absent(), absent(), cache(true)).unwrap();
    let after = m.status(absent(), absent(), cache(true)).unwrap();
    assert_eq!(before, after);
}

#[test]
fn mix_real_clean_runs_mix() {
    let m = Mix::new("/p");
    let steps = m.clean_project(false, absent());
    assert_eq!(steps.len(), 1);
    match &steps[0] {
        CleanStep::Run(c) => {
            assert_eq!(c.program, "mix");
            assert_eq!(c.args, vec!["clean".to_string(), "--deps".to_string()]);
            assert_eq!(c.cwd, "/p");
        }
        other => panic!("unexpected step {:?}", other),
    }
}

#[test]
fn mix_dir_requires_ignored_directory() {
    let m = Mix::new("/p");
    assert_eq!(m.dir(".elixir_ls", cache(true)), Some("/p/.elixir_ls".to_string()));
    assert_eq!(m.dir(".elixir_ls", cache(false)), None);
    assert_eq!(m.dir(".elixir_ls", absent()), None);
}

#[test]
fn mix_dir_paths() {
    let m = Mix::new("/p/");
    assert_eq!(m.build_dir(), "/p/_build");
    assert_eq!(m.deps_dir(), "/p/deps");
    assert_eq!(m.elixir_ls_dir(), "/p/.elixir_ls");
    assert_eq!(m.path(), "/p/");
    assert_eq!(m.name(), "Mix");
}

#[test]
fn mix_never_names_the_project() {
    assert!(Mix::new("/p").project_name().is_none());
    assert!(Mix::new("").project_name().is_none());
}

#[test]
fn mix_aliases() {
    let p = MixProbe;
    for name in ["mix", "MIX", "Elixir", "ex", "EXS"] {
        assert!(p.applies_to(name), "{}", name);
    }
    for name in ["mi", "mixx", "elixirs", "e", "exss", "", "cargo", " mix"] {
        assert!(!p.applies_to(name), "{}", name);
    }
    assert!(is_mix_alias("exs"));
    assert!(!is_mix_alias("EXS"));
}

#[test]
fn mix_probe_needs_marker() {
    let p = MixProbe;
    assert_eq!(p.marker_file(), "mix.exs");
    assert_eq!(p.probe("/p", true).unwrap().path(), "/p");
    assert!(p.probe("/p", false).is_none());
}

#[test]
fn mix_registration_gated_on_tool() {
    let mut m = BuildToolManager::new();
    assert_eq!(register(&mut m, false, false), Err(RegisterError::MixNotAvailable));
    assert!(m.probes().is_empty());
    assert_eq!(register(&mut m, true, false), Ok(()));
    assert_eq!(register(&mut m, false, true), Ok(()));
    assert_eq!(m.probes(), &vec![Probe::Mix(MixProbe), Probe::Mix(MixProbe)]);
}
