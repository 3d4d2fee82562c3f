//! Building one target: run the cross-compilation driver, then copy every
//! binary variant it produced into the artifact tree.
//!
//! The work is outside (processes, files), the decisions are here: a
//! `TargetBuild` names the next action, its caller performs it and reports
//! what happened, and the build decides the action after that.
use vstd::prelude::*;
use vstd::utf8::{decode_utf8, valid_utf8};
use crate::command::{decode_stream, CommandOutput};
use crate::error::{outcome_view, CritError, Failure};
use crate::paths::{file_name, join_path, path_join, with_extension};

verus! {

/// Number of build variants: four extensions times two modes.
pub const VARIANTS: usize = 8;

/// The build modes, in probing order.
pub open spec fn mode_at(m: nat) -> Seq<char> {
    if m == 0 {
        "debug"@
    } else {
        "release"@
    }
}

/// The binary file extensions, in probing order.
pub open spec fn extension_at(e: nat) -> Seq<char> {
    if e == 0 {
        ""@
    } else if e == 1 {
        "exe"@
    } else if e == 2 {
        "js"@
    } else {
        "wasm"@
    }
}

/// Variant `v` pairs extension `v / 2` with mode `v % 2`: each extension is
/// probed in both modes before the next.
pub open spec fn variant_mode(v: nat) -> Seq<char> {
    mode_at(v % 2)
}

/// The extension of variant `v`.
pub open spec fn variant_extension(v: nat) -> Seq<char> {
    extension_at(v / 2)
}

/// The name of build mode `m`.
fn mode_name(m: usize) -> (r: &'static str)
    ensures
        r@ == mode_at(m as nat),
{
    if m == 0 {
        "debug"
    } else {
        "release"
    }
}

/// The extension with index `e`.
fn extension_name(e: usize) -> (r: &'static str)
    ensures
        r@ == extension_at(e as nat),
{
    if e == 0 {
        ""
    } else if e == 1 {
        "exe"
    } else if e == 2 {
        "js"
    } else {
        "wasm"
    }
}

/// One target's build: which triple, where the driver writes, where the
/// binaries go, what to pass on to the driver, and which binaries to collect.
#[derive(Debug, Clone)]
pub struct TargetConfig {
    /// The target triple.
    pub target: String,
    /// The driver's scratch root; the target's scratch directory is under it.
    pub cross_dir: String,
    /// The root of the normalized artifact tree.
    pub bin_dir: String,
    /// Arguments passed on to the driver verbatim, after its own.
    pub cross_args: Vec<String>,
    /// The applications whose binaries are collected.
    pub applications: Vec<String>,
}

/// What the caller is asked to do next.
#[derive(Debug)]
pub enum BuildAction {
    /// Read the project manifest and report its text.
    ReadManifest,
    /// Run the cross-compilation driver with these arguments, capturing its
    /// output streams.
    RunDriver(Vec<String>),
    /// Create this directory and its parents.
    CreateDir(String),
    /// Report whether this file exists.
    Probe(String),
    /// Copy the first file to the second path.
    Copy(String, String),
    /// Stop: the work is done, or failed.
    Finish(Result<(), CritError>),
}

/// What the caller reports back.
#[derive(Debug)]
pub enum BuildEvent {
    /// The manifest's text, or `None` if it could not be read.
    ManifestRead(Option<String>),
    /// The driver's output, or `None` if it could not be started.
    DriverExited(Option<CommandOutput>),
    /// The outcome of creating a directory, with the diagnostic on failure.
    DirCreated(Result<(), String>),
    /// Whether the probed file exists.
    Probed(bool),
    /// The outcome of a copy, with the diagnostic on failure.
    Copied(Result<(), String>),
}

/// A `BuildAction` with its texts as character sequences.
pub enum Step {
    ReadManifest,
    RunDriver(Seq<Seq<char>>),
    CreateDir(Seq<char>),
    Probe(Seq<char>),
    Copy(Seq<char>, Seq<char>),
    Finish(Result<(), Failure>),
}

impl View for BuildAction {
    type V = Step;

    open spec fn view(&self) -> Step {
        match self {
            BuildAction::ReadManifest => Step::ReadManifest,
            BuildAction::RunDriver(args) => Step::RunDriver(args@.map_values(|a: String| a@)),
            BuildAction::CreateDir(d) => Step::CreateDir(d@),
            BuildAction::Probe(p) => Step::Probe(p@),
            BuildAction::Copy(s, d) => Step::Copy(s@, d@),
            BuildAction::Finish(r) => Step::Finish(outcome_view(*r)),
        }
    }
}

/// Where a target build stands.
#[derive(Debug, Clone, Copy, PartialEq, Eq, Structural)]
pub enum Phase {
    /// Waiting for the driver.
    Driver,
    /// Waiting for the destination directory.
    Dir,
    /// Waiting for a probe.
    Probe,
    /// Waiting for a copy.
    Copy,
    /// Done.
    Finished,
}

/// The position of a target build: its phase, the application and the
/// variant at hand.
pub struct BuildState {
    pub phase: Phase,
    pub app: nat,
    pub variant: nat,
}

/// The target's scratch directory, the driver's `--target-dir`.
pub open spec fn scratch_dir(cfg: TargetConfig) -> Seq<char> {
    path_join(cfg.cross_dir@, cfg.target@)
}

/// The arguments the driver runs with: the build subcommand, the scratch
/// directory, the triple, release mode, then the passthrough arguments.
pub open spec fn driver_args(cfg: TargetConfig) -> Seq<Seq<char>> {
    seq!["build"@, "--target-dir"@, scratch_dir(cfg), "--target"@, cfg.target@, "-r"@]
        + cfg.cross_args@.map_values(|a: String| a@)
}

/// Where the driver leaves variant `v` of application `a`.
pub open spec fn source_path(cfg: TargetConfig, a: int, v: nat) -> Seq<char> {
    path_join(
        path_join(path_join(scratch_dir(cfg), cfg.target@), variant_mode(v)),
        file_name(cfg.applications@[a]@, variant_extension(v)),
    )
}

/// The target's directory in the artifact tree.
pub open spec fn dest_dir(cfg: TargetConfig) -> Seq<char> {
    path_join(cfg.bin_dir@, cfg.target@)
}

/// Where variant `v` of application `a` is copied to.
pub open spec fn dest_path(cfg: TargetConfig, a: int, v: nat) -> Seq<char> {
    path_join(dest_dir(cfg), file_name(cfg.applications@[a]@, variant_extension(v)))
}

/// The position of a build that is over.
pub open spec fn finished() -> BuildState {
    BuildState { phase: Phase::Finished, app: 0, variant: 0 }
}

/// How a driver run ended, when it failed: not started, a failure status
/// with its diagnostic stream, or a diagnostic that is not UTF-8.
pub open spec fn driver_failure(out: Option<CommandOutput>) -> Option<Failure> {
    match out {
        None => Some(Failure::ToolInvocation),
        Some(o) => if o.success {
            None
        } else if valid_utf8(o.stderr@) {
            Some(Failure::Build(decode_utf8(o.stderr@)))
        } else {
            Some(Failure::Decode)
        },
    }
}

/// After the driver succeeded: the first application's directory, or done
/// if there is no application.
pub open spec fn start_collecting(cfg: TargetConfig) -> (BuildState, Step) {
    if cfg.applications@.len() == 0 {
        (finished(), Step::Finish(Ok(())))
    } else {
        (BuildState { phase: Phase::Dir, app: 0, variant: 0 }, Step::CreateDir(dest_dir(cfg)))
    }
}

/// After variant `v` of application `a` is settled: the next variant, the
/// next application's directory, or done.
pub open spec fn after_variant(cfg: TargetConfig, a: nat, v: nat) -> (BuildState, Step) {
    if v + 1 < VARIANTS {
        (
            BuildState { phase: Phase::Probe, app: a, variant: v + 1 },
            Step::Probe(source_path(cfg, a as int, v + 1)),
        )
    } else if a + 1 < cfg.applications@.len() {
        (BuildState { phase: Phase::Dir, app: a + 1, variant: 0 }, Step::CreateDir(dest_dir(cfg)))
    } else {
        (finished(), Step::Finish(Ok(())))
    }
}

/// Whether `e` answers the action pending in phase `p`.
pub open spec fn answers(p: Phase, e: BuildEvent) -> bool {
    match e {
        BuildEvent::DriverExited(_) => p == Phase::Driver,
        BuildEvent::DirCreated(_) => p == Phase::Dir,
        BuildEvent::Probed(_) => p == Phase::Probe,
        BuildEvent::Copied(_) => p == Phase::Copy,
        BuildEvent::ManifestRead(_) => false,
    }
}

/// The next position and action of a target build, given what happened.
pub open spec fn build_transition(cfg: TargetConfig, s: BuildState, e: BuildEvent) -> (
    BuildState,
    Step,
) {
    match e {
        BuildEvent::DriverExited(out) => match driver_failure(out) {
            Some(f) => (finished(), Step::Finish(Err(f))),
            None => start_collecting(cfg),
        },
        BuildEvent::DirCreated(res) => match res {
            Ok(_) => (
                BuildState { phase: Phase::Probe, app: s.app, variant: 0 },
                Step::Probe(source_path(cfg, s.app as int, 0)),
            ),
            Err(m) => (finished(), Step::Finish(Err(Failure::Copy(m@)))),
        },
        BuildEvent::Probed(found) => if found {
            (
                BuildState { phase: Phase::Copy, app: s.app, variant: s.variant },
                Step::Copy(source_path(cfg, s.app as int, s.variant), dest_path(cfg, s.app as int, s.variant)),
            )
        } else {
            after_variant(cfg, s.app, s.variant)
        },
        BuildEvent::Copied(res) => match res {
            Ok(_) => after_variant(cfg, s.app, s.variant),
            Err(m) => (finished(), Step::Finish(Err(Failure::Copy(m@)))),
        },
        BuildEvent::ManifestRead(_) => (s, Step::ReadManifest),
    }
}

/// A target build in progress.
#[derive(Debug)]
pub struct TargetBuild {
    pub config: TargetConfig,
    pub phase: Phase,
    pub app: usize,
    pub variant: usize,
}

impl TargetBuild {
    /// The build's position.
    pub open spec fn state(&self) -> BuildState {
        BuildState { phase: self.phase, app: self.app as nat, variant: self.variant as nat }
    }

    /// The position is one that the build can reach.
    pub open spec fn wf(&self) -> bool {
        &&& self.variant < VARIANTS
        &&& (self.phase == Phase::Dir || self.phase == Phase::Probe || self.phase == Phase::Copy)
            ==> self.app < self.config.applications@.len()
        &&& self.phase == Phase::Dir ==> self.variant == 0
        &&& self.phase == Phase::Finished ==> self.app == 0 && self.variant == 0
        &&& self.phase == Phase::Driver ==> self.app == 0 && self.variant == 0
    }

    /// Whether `event` answers the pending action.
    pub fn accepts(&self, event: &BuildEvent) -> (r: bool)
        ensures
            r == answers(self.phase, *event),
    {
        match event {
            BuildEvent::DriverExited(_) => self.phase == Phase::Driver,
            BuildEvent::DirCreated(_) => self.phase == Phase::Dir,
            BuildEvent::Probed(_) => self.phase == Phase::Probe,
            BuildEvent::Copied(_) => self.phase == Phase::Copy,
            BuildEvent::ManifestRead(_) => false,
        }
    }

    /// Where the driver leaves the variant at hand.
    fn source(&self) -> (r: String)
        requires
            self.wf(),
            self.app < self.config.applications@.len(),
        ensures
            r@ == source_path(self.config, self.app as int, self.variant as nat),
    {
        let scratch = join_path(self.config.cross_dir.as_str(), self.config.target.as_str());
        let nested = join_path(scratch.as_str(), self.config.target.as_str());
        let mode_dir = join_path(nested.as_str(), mode_name(self.variant % 2));
        let name = with_extension(
            self.config.applications[self.app].as_str(),
            extension_name(self.variant / 2),
        );
        join_path(mode_dir.as_str(), name.as_str())
    }

    /// The target's directory in the artifact tree.
    fn dest_dir(&self) -> (r: String)
        ensures
            r@ == dest_dir(self.config),
    {
        join_path(self.config.bin_dir.as_str(), self.config.target.as_str())
    }

    /// Where the variant at hand is copied to.
    fn dest(&self) -> (r: String)
        requires
            self.wf(),
            self.app < self.config.applications@.len(),
        ensures
            r@ == dest_path(self.config, self.app as int, self.variant as nat),
    {
        let dir = self.dest_dir();
        let name = with_extension(
            self.config.applications[self.app].as_str(),
            extension_name(self.variant / 2),
        );
        join_path(dir.as_str(), name.as_str())
    }

    /// Ends the build with `outcome`.
    fn finish(&mut self, outcome: Result<(), CritError>) -> (r: BuildAction)
        ensures
            final(self).config == old(self).config,
            final(self).state() == finished(),
            r == BuildAction::Finish(outcome),
    {
        self.phase = Phase::Finished;
        self.app = 0;
        self.variant = 0;
        BuildAction::Finish(outcome)
    }

    /// Moves past the variant at hand.
    fn next_variant(&mut self) -> (r: BuildAction)
        requires
            old(self).wf(),
            old(self).phase == Phase::Probe || old(self).phase == Phase::Copy,
        ensures
            final(self).wf(),
            final(self).config == old(self).config,
            (final(self).state(), r@) == after_variant(
                old(self).config,
                old(self).app as nat,
                old(self).variant as nat,
            ),
    {
        if self.variant + 1 < VARIANTS {
            self.variant = self.variant + 1;
            self.phase = Phase::Probe;
            BuildAction::Probe(self.source())
        } else if self.app < self.config.applications.len() - 1 {
            self.app = self.app + 1;
            self.variant = 0;
            self.phase = Phase::Dir;
            BuildAction::CreateDir(self.dest_dir())
        } else {
            self.finish(Ok(()))
        }
    }

    /// Decides the next action from what the pending one came to.
    pub fn step(&mut self, event: BuildEvent) -> (r: BuildAction)
        requires
            old(self).wf(),
            answers(old(self).phase, event),
        ensures
            final(self).wf(),
            final(self).config == old(self).config,
            (final(self).state(), r@) == build_transition(old(self).config, old(self).state(), event),
    {
        match event {
            BuildEvent::DriverExited(out) => match out {
                None => self.finish(Err(CritError::ToolInvocation)),
                Some(o) => {
                    if !o.success {
                        match decode_stream(&o.stderr) {
                            Some(text) => self.finish(Err(CritError::Build(text))),
                            None => self.finish(Err(CritError::Decode)),
                        }
                    } else if self.config.applications.len() == 0 {
                        self.finish(Ok(()))
                    } else {
                        self.phase = Phase::Dir;
                        BuildAction::CreateDir(self.dest_dir())
                    }
                },
            },
            BuildEvent::DirCreated(res) => match res {
                Ok(()) => {
                    self.phase = Phase::Probe;
                    BuildAction::Probe(self.source())
                },
                Err(m) => self.finish(Err(CritError::Copy(m))),
            },
            BuildEvent::Probed(found) => {
                if found {
                    self.phase = Phase::Copy;
                    BuildAction::Copy(self.source(), self.dest())
                } else {
                    self.next_variant()
                }
            },
            BuildEvent::Copied(res) => match res {
                Ok(()) => self.next_variant(),
                Err(m) => self.finish(Err(CritError::Copy(m))),
            },
            BuildEvent::ManifestRead(_) => BuildAction::ReadManifest,
        }
    }
}

impl TargetConfig {
    /// Starts the build of this target: its first action runs the driver.
    pub fn build(self) -> (r: (TargetBuild, BuildAction))
        ensures
            r.0.config == self,
            r.0.state() == (BuildState { phase: Phase::Driver, app: 0, variant: 0 }),
            r.0.wf(),
            r.1@ == Step::RunDriver(driver_args(self)),
    {
        let scratch = join_path(self.cross_dir.as_str(), self.target.as_str());
        let mut args: Vec<String> = Vec::new();
        args.push(String::from_str("build"));
        args.push(String::from_str("--target-dir"));
        args.push(scratch);
        args.push(String::from_str("--target"));
        args.push(self.target.clone());
        args.push(String::from_str("-r"));
        let ghost head = args@.map_values(|a: String| a@);
        let mut i: usize = 0;
        while i < self.cross_args.len()
            invariant
                i <= self.cross_args@.len(),
                args@.map_values(|a: String| a@) == head + self.cross_args@.take(i as int).map_values(
                    |a: String| a@,
                ),
            decreases self.cross_args@.len() - i,
        {
            let ghost before = args@;
            args.push(self.cross_args[i].clone());
            assert(args@.map_values(|a: String| a@) == before.map_values(|a: String| a@).push(self.cross_args@[i as int]@));
            assert(self.cross_args@.take(i + 1).map_values(|a: String| a@) == self.cross_args@.take(i as int).map_values(|a: String| a@).push(self.cross_args@[i as int]@));
            i += 1;
        }
        assert(self.cross_args@.take(i as int) == self.cross_args@);
        assert(head == seq!["build"@, "--target-dir"@, scratch_dir(self), "--target"@, self.target@, "-r"@]);
        (TargetBuild { config: self, phase: Phase::Driver, app: 0, variant: 0 }, BuildAction::RunDriver(args))
    }
}

} // verus!
