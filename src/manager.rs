//! The registry of detection probes.
use vstd::prelude::*;
use crate::cargo::CargoProbe;
use crate::mix::MixProbe;

verus! {

/// A detection probe of one ecosystem.
#[derive(Debug, Clone, Copy, PartialEq, Eq, Structural)]
pub enum Probe {
    Cargo(CargoProbe),
    Mix(MixProbe),
}

/// The probes registered at startup, in registration order; duplicates are
/// kept.
#[derive(Debug, Clone)]
pub struct BuildToolManager {
    probes: Vec<Probe>,
}

impl View for BuildToolManager {
    type V = Seq<Probe>;

    closed spec fn view(&self) -> Seq<Probe> {
        self.probes@
    }
}

impl BuildToolManager {
    /// An empty registry.
    pub fn new() -> (r: Self)
        ensures
            r@ == Seq::<Probe>::empty(),
    {
        BuildToolManager { probes: Vec::new() }
    }

    /// Appends `probe`; never fails and never rejects a duplicate.
    pub fn register(&mut self, probe: Probe)
        ensures
            final(self)@ == old(self)@.push(probe),
    {
        self.probes.push(probe);
    }

    /// The registered probes, in registration order.
    pub fn probes(&self) -> (r: &Vec<Probe>)
        ensures
            r@ == self@,
    {
        &self.probes
    }
}

} // verus!

verus! {

/// A project recognised by one of the probes.
#[derive(Debug, Clone)]
pub enum BuildTool {
    Cargo(crate::cargo::Cargo),
    Mix(crate::mix::Mix),
}

impl BuildTool {
    /// The project's path.
    pub open spec fn path_view(&self) -> Seq<char> {
        match self {
            BuildTool::Cargo(c) => c@,
            BuildTool::Mix(m) => m@,
        }
    }

    /// Name shown to users.
    pub fn name(&self) -> (r: &'static str)
        ensures
            self is Cargo ==> r@ == "Cargo"@,
            self is Mix ==> r@ == "Mix"@,
    {
        match self {
            BuildTool::Cargo(c) => c.name(),
            BuildTool::Mix(m) => m.name(),
        }
    }
}

impl Probe {
    /// The file whose presence marks a project of this probe's ecosystem.
    pub fn marker_file(&self) -> (r: &'static str)
        ensures
            self is Cargo ==> r@ == "Cargo.toml"@,
            self is Mix ==> r@ == "mix.exs"@,
    {
        match self {
            Probe::Cargo(p) => p.marker_file(),
            Probe::Mix(p) => p.marker_file(),
        }
    }

    /// A build tool of this probe's ecosystem for `path` when the marker file
    /// is a regular file there.
    pub fn probe(&self, path: &str, marker_is_file: bool) -> (r: Option<BuildTool>)
        ensures
            r is Some <==> marker_is_file,
            r matches Some(t) ==> t.path_view() == path@ && (self is Cargo <==> t is Cargo),
    {
        match self {
            Probe::Cargo(p) => match p.probe(path, marker_is_file) {
                Some(c) => Some(BuildTool::Cargo(c)),
                None => None,
            },
            Probe::Mix(p) => match p.probe(path, marker_is_file) {
                Some(m) => Some(BuildTool::Mix(m)),
                None => None,
            },
        }
    }

    /// Whether `name`, in any letter case, is one of this ecosystem's aliases.
    pub fn applies_to(&self, name: &str) -> (r: bool)
        ensures
            self is Cargo ==> r == crate::cargo::cargo_alias(crate::text::lower_of(name@)),
            self is Mix ==> r == crate::mix::mix_alias(crate::text::lower_of(name@)),
    {
        match self {
            Probe::Cargo(p) => p.applies_to(name),
            Probe::Mix(p) => p.applies_to(name),
        }
    }
}

} // verus!

verus! {

/// The probe that yields build tools of the same ecosystem as `t`.
pub open spec fn probe_of(t: BuildTool) -> Probe {
    match t {
        BuildTool::Cargo(_) => Probe::Cargo(CargoProbe),
        BuildTool::Mix(_) => Probe::Mix(MixProbe),
    }
}

/// The probes whose marker file is present, in registration order.
pub open spec fn detected(probes: Seq<Probe>, marker_is_file: Seq<bool>) -> Seq<Probe>
    decreases probes.len(),
{
    if probes.len() == 0 {
        Seq::empty()
    } else {
        let rest = detected(probes.drop_last(), marker_is_file.take(probes.len() - 1));
        if marker_is_file[probes.len() - 1] {
            rest.push(probes.last())
        } else {
            rest
        }
    }
}

impl BuildToolManager {
    /// Every build tool that the registered probes recognise at `path`, given
    /// for each probe (in registration order) whether its marker file is a
    /// regular file there. Matches are reported independently, in
    /// registration order, duplicates included.
    pub fn probe_all(&self, path: &str, marker_is_file: &Vec<bool>) -> (r: Vec<BuildTool>)
        requires
            marker_is_file@.len() == self@.len(),
        ensures
            r@.map_values(|t: BuildTool| probe_of(t)) == detected(self@, marker_is_file@),
            forall|i: int| 0 <= i < r@.len() ==> (#[trigger] r@[i]).path_view() == path@,
    {
        let mut tools: Vec<BuildTool> = Vec::new();
        let mut i: usize = 0;
        while i < self.probes.len()
            invariant
                0 <= i <= self.probes@.len(),
                marker_is_file@.len() == self.probes@.len(),
                tools@.map_values(|t: BuildTool| probe_of(t)) == detected(
                    self.probes@.take(i as int),
                    marker_is_file@.take(i as int),
                ),
                forall|j: int| 0 <= j < tools@.len() ==> (#[trigger] tools@[j]).path_view() == path@,
            decreases self.probes.len() - i,
        {
            let ghost probes_next = self.probes@.take(i as int + 1);
            let ghost flags_next = marker_is_file@.take(i as int + 1);
            assert(probes_next.drop_last() == self.probes@.take(i as int));
            assert(flags_next.take(i as int) == marker_is_file@.take(i as int));
            let ghost before = tools@;
            match self.probes[i].probe(path, marker_is_file[i]) {
                Some(t) => {
                    tools.push(t);
                    assert(tools@.map_values(|t: BuildTool| probe_of(t)) =~= before.map_values(
                        |t: BuildTool| probe_of(t),
                    ).push(probe_of(t)));
                },
                None => {},
            }
            i = i + 1;
        }
        assert(self.probes@.take(i as int) == self.probes@);
        assert(marker_is_file@.take(i as int) == marker_is_file@);
        tools
    }
}

} // verus!
