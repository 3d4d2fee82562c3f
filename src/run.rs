//! A whole build run: the enabled targets, in order, each built in turn
//! until one fails.
use vstd::prelude::*;
use crate::error::{CritError, Failure};
use crate::manifest::{get_applications, manifest_applications};
use crate::paths::{join_path, path_join};
use crate::pattern::Pattern;
use crate::target_build::{
    answers, build_transition, driver_args, BuildAction, BuildEvent, Phase, Step,
    TargetBuild, TargetConfig,
};
use crate::targets::Target;
use crate::toml_doc::toml_document;

verus! {

/// The triples of the enabled targets, in order.
pub open spec fn enabled_of(ts: Seq<Target>) -> Seq<Seq<char>>
    decreases ts.len(),
{
    if ts.len() == 0 {
        seq![]
    } else if ts.last().enabled {
        enabled_of(ts.drop_last()).push(ts.last().triple@)
    } else {
        enabled_of(ts.drop_last())
    }
}

/// The root of the artifact tree: `bin` under the artifact root, then the
/// banner if there is one.
pub open spec fn bin_root_of(artifact_root: Seq<char>, banner: Seq<char>) -> Seq<char> {
    if banner.len() == 0 {
        path_join(artifact_root, "bin"@)
    } else {
        path_join(path_join(artifact_root, "bin"@), banner)
    }
}

/// What a run is configured with.
#[derive(Debug)]
pub struct RunSettings {
    /// Declarations gated behind a feature that this matches are not built.
    pub feature_exclusion: Pattern,
    /// The root of the scratch and artifact trees.
    pub artifact_root: String,
    /// A label for the artifact tree, or empty.
    pub banner: String,
    /// Arguments passed on to the driver.
    pub extra_args: Vec<String>,
}

/// `cfg` builds `triple` for `apps` as `settings` say.
pub open spec fn configured(
    cfg: TargetConfig,
    settings: RunSettings,
    triple: Seq<char>,
    apps: Seq<Seq<char>>,
) -> bool {
    &&& cfg.target@ == triple
    &&& cfg.cross_dir@ == path_join(settings.artifact_root@, "cross"@)
    &&& cfg.bin_dir@ == bin_root_of(settings.artifact_root@, settings.banner@)
    &&& cfg.cross_args@.map_values(|a: String| a@) == settings.extra_args@.map_values(|a: String| a@)
    &&& cfg.applications@.map_values(|a: String| a@) == apps
}

/// The first action of a run over `ts`.
pub open spec fn run_start(ts: Seq<Target>) -> Step {
    if enabled_of(ts).len() == 0 {
        Step::Finish(Err(Failure::NoTargetsEnabled))
    } else {
        Step::ReadManifest
    }
}

/// Where a run stands.
#[derive(Debug, Clone, Copy, PartialEq, Eq, Structural)]
pub enum Stage {
    Manifest,
    Building,
    Finished,
}

/// A build run in progress.
#[derive(Debug)]
pub struct Run {
    pub settings: RunSettings,
    /// The enabled triples, in order.
    pub targets: Vec<String>,
    pub stage: Stage,
    /// The index of the target being built.
    pub current: usize,
    /// The applications of the manifest.
    pub applications: Vec<String>,
    /// The build of the current target.
    pub build: Option<TargetBuild>,
}

impl Run {
    /// The run's parts agree with each other.
    pub open spec fn wf(&self) -> bool {
        &&& self.targets@.len() > 0 || self.stage == Stage::Finished
        &&& self.stage == Stage::Building ==> {
            &&& self.current < self.targets@.len()
            &&& self.build matches Some(b) && b.wf() && b.phase != Phase::Finished && configured(
                b.config,
                self.settings,
                self.targets@[self.current as int]@,
                self.applications@.map_values(|a: String| a@),
            )
        }
    }

    /// Whether `event` answers the pending action.
    pub open spec fn expects(&self, event: BuildEvent) -> bool {
        match self.stage {
            Stage::Manifest => event is ManifestRead,
            Stage::Building => self.build matches Some(b) && answers(b.phase, event),
            Stage::Finished => false,
        }
    }

    /// Whether `event` answers the pending action.
    pub fn accepts(&self, event: &BuildEvent) -> (r: bool)
        ensures
            r == self.expects(*event),
    {
        match self.stage {
            Stage::Manifest => matches!(event, BuildEvent::ManifestRead(_)),
            Stage::Building => match &self.build {
                Some(b) => b.accepts(event),
                None => false,
            },
            Stage::Finished => false,
        }
    }

    /// The build configuration of the `i`th enabled target.
    fn config_for(&self, i: usize) -> (r: TargetConfig)
        requires
            i < self.targets@.len(),
        ensures
            configured(r, self.settings, self.targets@[i as int]@, self.applications@.map_values(|a: String| a@)),
    {
        let root = self.settings.artifact_root.as_str();
        let bin = join_path(root, "bin");
        let bin_dir = if self.settings.banner.as_str().is_empty() {
            bin
        } else {
            join_path(bin.as_str(), self.settings.banner.as_str())
        };
        TargetConfig {
            target: self.targets[i].clone(),
            cross_dir: join_path(root, "cross"),
            bin_dir,
            cross_args: self.settings.extra_args.clone(),
            applications: self.applications.clone(),
        }
    }

    /// Starts the build of the `i`th enabled target.
    fn start_target(&mut self, i: usize) -> (r: BuildAction)
        requires
            i < old(self).targets@.len(),
        ensures
            final(self).settings == old(self).settings,
            final(self).targets == old(self).targets,
            final(self).applications == old(self).applications,
            final(self).stage == Stage::Building,
            final(self).current == i,
            final(self).wf(),
            final(self).build matches Some(b) && r@ == Step::RunDriver(driver_args(b.config)),
    {
        let cfg = self.config_for(i);
        let (b, a) = cfg.build();
        self.build = Some(b);
        self.current = i;
        self.stage = Stage::Building;
        a
    }

    /// Ends the run with `outcome`.
    fn finish(&mut self, outcome: Result<(), CritError>) -> (r: BuildAction)
        ensures
            final(self).settings == old(self).settings,
            final(self).targets == old(self).targets,
            final(self).stage == Stage::Finished,
            r == BuildAction::Finish(outcome),
    {
        self.stage = Stage::Finished;
        self.build = None;
        BuildAction::Finish(outcome)
    }

    /// Decides the next action from what the pending one came to: the
    /// manifest's applications, then each enabled target's build in order,
    /// stopping at the first failure.
    pub fn step(&mut self, event: BuildEvent) -> (r: BuildAction)
        requires
            old(self).wf(),
            old(self).expects(event),
        ensures
            final(self).wf(),
            final(self).settings == old(self).settings,
            final(self).targets == old(self).targets,
            old(self).stage == Stage::Manifest ==> match event {
                BuildEvent::ManifestRead(None) => final(self).stage == Stage::Finished && r@
                    == Step::Finish(Err(Failure::ManifestRead)),
                BuildEvent::ManifestRead(Some(text)) => match toml_document(text@) {
                    None => final(self).stage == Stage::Finished && r@ == Step::Finish(
                        Err(Failure::ManifestParse),
                    ),
                    Some(doc) => match manifest_applications(old(self).settings.feature_exclusion@, doc@) {
                        Err(e) => final(self).stage == Stage::Finished && r@ == Step::Finish(Err(e@)),
                        Ok(ns) => {
                            &&& final(self).stage == Stage::Building
                            &&& final(self).current == 0
                            &&& final(self).applications@.map_values(|a: String| a@) == ns
                            &&& final(self).build matches Some(b) && r@ == Step::RunDriver(
                                driver_args(b.config),
                            )
                        },
                    },
                },
                _ => false,
            },
            old(self).stage == Stage::Building ==> {
                let b = old(self).build->0;
                let (s, st) = build_transition(b.config, b.state(), event);
                let i = old(self).current;
                match st {
                    Step::Finish(Ok(())) => if i + 1 < old(self).targets@.len() {
                        &&& final(self).stage == Stage::Building
                        &&& final(self).current == i + 1
                        &&& final(self).applications == old(self).applications
                        &&& final(self).build matches Some(nb) && r@ == Step::RunDriver(
                            driver_args(nb.config),
                        )
                    } else {
                        final(self).stage == Stage::Finished && r@ == st
                    },
                    Step::Finish(Err(_)) => final(self).stage == Stage::Finished && r@ == st,
                    _ => {
                        &&& final(self).stage == Stage::Building
                        &&& final(self).current == i
                        &&& final(self).applications == old(self).applications
                        &&& final(self).build matches Some(nb) && nb.config == b.config && nb.state() == s
                        &&& r@ == st
                    },
                }
            },
    {
        match self.stage {
            Stage::Manifest => match event {
                BuildEvent::ManifestRead(None) => self.finish(Err(CritError::ManifestRead)),
                BuildEvent::ManifestRead(Some(text)) => {
                    match get_applications(&self.settings.feature_exclusion, text.as_str()) {
                        Err(e) => self.finish(Err(e)),
                        Ok(apps) => {
                            self.applications = apps;
                            self.start_target(0)
                        },
                    }
                },
                _ => BuildAction::ReadManifest,
            },
            Stage::Building => {
                let mut b = self.build.take().unwrap();
                let a = b.step(event);
                match a {
                    BuildAction::Finish(Ok(())) => {
                        if self.current < self.targets.len() - 1 {
                            let next = self.current + 1;
                            self.start_target(next)
                        } else {
                            self.finish(Ok(()))
                        }
                    },
                    BuildAction::Finish(Err(e)) => self.finish(Err(e)),
                    other => {
                        self.build = Some(b);
                        other
                    },
                }
            },
            Stage::Finished => BuildAction::ReadManifest,
        }
    }
}

/// The triples of the enabled targets, in order.
pub fn enabled_triples(targets: &Vec<Target>) -> (r: Vec<String>)
    ensures
        r@.map_values(|t: String| t@) == enabled_of(targets@),
{
    let mut r: Vec<String> = Vec::new();
    let mut i: usize = 0;
    while i < targets.len()
        invariant
            i <= targets@.len(),
            r@.map_values(|t: String| t@) == enabled_of(targets@.take(i as int)),
        decreases targets@.len() - i,
    {
        assert(targets@.take(i + 1).drop_last() == targets@.take(i as int));
        if targets[i].enabled {
            let ghost before = r@;
            r.push(targets[i].triple.clone());
            assert(r@.map_values(|t: String| t@) == before.map_values(|t: String| t@).push(targets@[i as int].triple@));
        }
        i += 1;
    }
    assert(targets@.take(i as int) == targets@);
    r
}

/// Starts a run over the discovered targets: fails with `NoTargetsEnabled`
/// when none is enabled, before anything is read or built; otherwise asks
/// for the manifest first.
pub fn run(targets: &Vec<Target>, settings: RunSettings) -> (r: (Run, BuildAction))
    ensures
        r.0.wf(),
        r.1@ == run_start(targets@),
        r.0.targets@.map_values(|t: String| t@) == enabled_of(targets@),
        r.0.settings == settings,
        enabled_of(targets@).len() == 0 ==> r.0.stage == Stage::Finished,
        enabled_of(targets@).len() > 0 ==> r.0.stage == Stage::Manifest,
{
    let enabled = enabled_triples(targets);
    let empty = enabled.len() == 0;
    let mut state = Run {
        settings,
        targets: enabled,
        stage: Stage::Manifest,
        current: 0,
        applications: Vec::new(),
        build: None,
    };
    if empty {
        let a = state.finish(Err(CritError::NoTargetsEnabled));
        (state, a)
    } else {
        (state, BuildAction::ReadManifest)
    }
}

} // verus!
