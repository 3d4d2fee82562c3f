//! Cleanup: remove leftover containers whose image the override
//! configuration or the driver's default names, then the artifact root.
use vstd::prelude::*;
use vstd::utf8::{decode_utf8, valid_utf8};
use crate::command::{decode_stream, CommandOutput};
use crate::error::{outcome_view, CritError, Failure};
use crate::pattern::{escape_literal, escaped, group_one, join, joined, regex_compiles, regex_group_one, Pattern};
use crate::text::{lines_of, split_lines};
use crate::toml_doc::{lookup, lookup_key, parse_toml, toml_document, TomlValue};

verus! {

/// The image name prefix of the driver's own container images.
pub open spec fn default_image() -> Seq<char> {
    "ghcr.io/cross-rs"@
}

/// The image override of one target's table: its `image` string, or empty
/// when unset; `None` when the entry is malformed.
pub open spec fn image_of(entry: TomlValue) -> Option<Seq<char>> {
    match entry {
        TomlValue::Table(t) => match lookup(t@, "image"@) {
            None => Some(Seq::empty()),
            Some(TomlValue::Str(s)) => Some(s@),
            Some(_) => None,
        },
        _ => None,
    }
}

/// The image overrides of all target tables, in order; `None` when one is
/// malformed.
pub open spec fn images_of(entries: Seq<(String, TomlValue)>) -> Option<Seq<Seq<char>>>
    decreases entries.len(),
{
    if entries.len() == 0 {
        Some(seq![])
    } else {
        match (images_of(entries.drop_last()), image_of(entries.last().1)) {
            (Some(is), Some(i)) => Some(is.push(i)),
            _ => None,
        }
    }
}

/// The candidate image names of a parsed configuration: `None` when it has
/// no `target` section, else its overrides and the default prefix.
pub open spec fn candidate_images(doc: Seq<(String, TomlValue)>) -> Result<
    Option<Seq<Seq<char>>>,
    Failure,
> {
    match lookup(doc, "target"@) {
        None => Ok(None),
        Some(TomlValue::Table(ts)) => match images_of(ts@) {
            Some(is) => Ok(Some(is.push(default_image()))),
            None => Err(Failure::MalformedConfig),
        },
        Some(_) => Err(Failure::MalformedConfig),
    }
}

/// A pattern for a listing line: a 12-hex-digit container id, captured,
/// whitespace, then one of the image names taken literally.
pub open spec fn container_pattern_of(images: Seq<Seq<char>>) -> Seq<char> {
    "([[:xdigit:]]{12})\\s+("@ + joined(images.map_values(|i: Seq<char>| escaped(i)), "|"@) + ")"@
}

/// The container ids that the pattern captures, line by line.
pub open spec fn container_ids_of(pattern: Seq<char>, lines: Seq<Seq<char>>) -> Seq<Seq<char>>
    decreases lines.len(),
{
    if lines.len() == 0 {
        seq![]
    } else {
        let init = container_ids_of(pattern, lines.drop_last());
        match regex_group_one(pattern, lines.last()) {
            Some(id) => init.push(id),
            None => init,
        }
    }
}

/// Reads the candidate image names of a configuration text.
pub fn container_images(config: &str) -> (r: Result<Option<Vec<String>>, CritError>)
    ensures
        toml_document(config@) is None ==> r matches Err(CritError::ConfigParse(_)),
        toml_document(config@) matches Some(doc) ==> match candidate_images(doc@) {
            Ok(None) => r matches Ok(None),
            Ok(Some(is)) => r matches Ok(Some(v)) && v@.map_values(|s: String| s@) == is,
            Err(f) => r matches Err(e) && e@ == f,
        },
{
    let doc = match parse_toml(config) {
        Ok(d) => d,
        Err(m) => return Err(CritError::ConfigParse(m)),
    };
    let targets = match lookup_key(&doc, "target") {
        None => return Ok(None),
        Some(TomlValue::Table(t)) => t,
        Some(_) => return Err(CritError::MalformedConfig),
    };
    let mut images: Vec<String> = Vec::new();
    let mut i: usize = 0;
    while i < targets.len()
        invariant
            i <= targets@.len(),
            toml_document(config@) == Some(doc),
            lookup(doc@, "target"@) == Some(TomlValue::Table(*targets)),
            images_of(targets@.take(i as int)) == Some(images@.map_values(|s: String| s@)),
        decreases targets@.len() - i,
    {
        assert(targets@.take(i + 1).drop_last() == targets@.take(i as int));
        assert(targets@.take(i + 1).last() == targets@[i as int]);
        let image = match &targets[i].1 {
            TomlValue::Table(t) => match lookup_key(t, "image") {
                None => String::new(),
                Some(TomlValue::Str(s)) => s.clone(),
                Some(_) => {
                    proof {
                        lemma_images_stay_none(targets@, i + 1, targets@.len() as int);
                        assert(targets@.take(targets@.len() as int) == targets@);
                    }
                    return Err(CritError::MalformedConfig);
                },
            },
            _ => {
                proof {
                    lemma_images_stay_none(targets@, i + 1, targets@.len() as int);
                    assert(targets@.take(targets@.len() as int) == targets@);
                }
                return Err(CritError::MalformedConfig);
            },
        };
        let ghost before = images@;
        images.push(image);
        assert(images@.map_values(|s: String| s@) == before.map_values(|s: String| s@).push(image@));
        i += 1;
    }
    assert(targets@.take(i as int) == targets@);
    let ghost before = images@;
    images.push(String::from_str("ghcr.io/cross-rs"));
    assert(images@.map_values(|s: String| s@) == before.map_values(|s: String| s@).push(default_image()));
    Ok(Some(images))
}

proof fn lemma_images_stay_none(entries: Seq<(String, TomlValue)>, i: int, j: int)
    requires
        0 <= i <= j <= entries.len(),
        images_of(entries.take(i)) is None,
    ensures
        images_of(entries.take(j)) is None,
    decreases j - i,
{
    if j > i {
        lemma_images_stay_none(entries, i, j - 1);
        assert(entries.take(j).drop_last() == entries.take(j - 1));
    }
}

/// The pattern that picks the ids of containers running one of `images`.
pub fn container_pattern(images: &Vec<String>) -> (r: String)
    ensures
        r@ == container_pattern_of(images@.map_values(|s: String| s@)),
{
    let mut quoted: Vec<String> = Vec::new();
    let mut i: usize = 0;
    while i < images.len()
        invariant
            i <= images@.len(),
            quoted@.map_values(|s: String| s@) == images@.take(i as int).map_values(|s: String| s@).map_values(
                |x: Seq<char>| escaped(x),
            ),
        decreases images@.len() - i,
    {
        let ghost before = quoted@;
        let q = escape_literal(images[i].as_str());
        quoted.push(q);
        assert(quoted@.map_values(|s: String| s@) == before.map_values(|s: String| s@).push(q@));
        assert(images@.take(i + 1).map_values(|s: String| s@).map_values(|x: Seq<char>| escaped(x))
            == images@.take(i as int).map_values(|s: String| s@).map_values(|x: Seq<char>| escaped(x)).push(
            escaped(images@[i as int]@),
        ));
        i += 1;
    }
    assert(images@.take(i as int) == images@);
    let alternatives = join(&quoted, "|");
    let mut r = String::from_str("([[:xdigit:]]{12})\\s+(");
    r.append(alternatives.as_str());
    r.append(")");
    r
}

/// The ids of the containers that `pattern` captures in a process listing,
/// one per matching line, in order.
pub fn container_ids(pattern: &Pattern, listing: &str) -> (r: Vec<String>)
    ensures
        r@.map_values(|s: String| s@) == container_ids_of(pattern@, lines_of(listing@)),
{
    let lines = split_lines(listing);
    let ghost views = lines@.map_values(|l: String| l@);
    let mut ids: Vec<String> = Vec::new();
    let mut i: usize = 0;
    while i < lines.len()
        invariant
            i <= lines@.len(),
            views == lines@.map_values(|l: String| l@),
            views == lines_of(listing@),
            ids@.map_values(|s: String| s@) == container_ids_of(pattern@, views.take(i as int)),
        decreases lines@.len() - i,
    {
        assert(views.take(i + 1).drop_last() == views.take(i as int));
        assert(views.take(i + 1).last() == lines@[i as int]@);
        match group_one(pattern, lines[i].as_str()) {
            Some(id) => {
                let ghost before = ids@;
                ids.push(id);
                assert(ids@.map_values(|s: String| s@) == before.map_values(|s: String| s@).push(id@));
            },
            None => {},
        }
        i += 1;
    }
    assert(views.take(i as int) == views);
    ids
}

/// What the caller is asked to do next.
#[derive(Debug)]
pub enum CleanAction {
    /// Read the container override configuration, if the file exists.
    ReadConfig,
    /// List the container runtime's containers, stopped ones included.
    ListContainers,
    /// Force the removal of this container.
    RemoveContainer(String),
    /// Delete this directory tree if it exists.
    RemoveDir(String),
    /// Stop: the cleanup is done, or failed.
    Finish(Result<(), CritError>),
}

/// What the caller reports back.
#[derive(Debug)]
pub enum CleanEvent {
    /// No configuration file, its text, or why it could not be read.
    ConfigRead(Option<Result<String, String>>),
    /// The listing command's output, or `None` if it could not be started.
    ContainersListed(Option<CommandOutput>),
    /// The removal command's output, or `None` if it could not be started.
    ContainerRemoved(Option<CommandOutput>),
    /// The outcome of deleting the directory tree (success if it was absent).
    DirRemoved(Result<(), String>),
}

/// A `CleanAction` with its texts as character sequences.
pub enum CleanStep {
    ReadConfig,
    ListContainers,
    RemoveContainer(Seq<char>),
    RemoveDir(Seq<char>),
    Finish(Result<(), Failure>),
}

impl View for CleanAction {
    type V = CleanStep;

    open spec fn view(&self) -> CleanStep {
        match self {
            CleanAction::ReadConfig => CleanStep::ReadConfig,
            CleanAction::ListContainers => CleanStep::ListContainers,
            CleanAction::RemoveContainer(id) => CleanStep::RemoveContainer(id@),
            CleanAction::RemoveDir(d) => CleanStep::RemoveDir(d@),
            CleanAction::Finish(r) => CleanStep::Finish(outcome_view(*r)),
        }
    }
}

/// Where a cleanup stands.
#[derive(Debug, Clone, Copy, PartialEq, Eq, Structural)]
pub enum CleanStage {
    Config,
    Listing,
    Removing,
    Root,
    Finished,
}

/// The position of a cleanup: its stage, the container pattern, the ids to
/// remove and the index of the one at hand.
pub struct CleanState {
    pub stage: CleanStage,
    pub pattern: Seq<char>,
    pub ids: Seq<Seq<char>>,
    pub next: nat,
}

/// The position of a cleanup that is over.
pub open spec fn clean_done() -> CleanState {
    CleanState { stage: CleanStage::Finished, pattern: Seq::empty(), ids: seq![], next: 0 }
}

/// The position of a cleanup waiting for the artifact root's removal.
pub open spec fn clean_root() -> CleanState {
    CleanState { stage: CleanStage::Root, pattern: Seq::empty(), ids: seq![], next: 0 }
}

/// How a finished command failed: not started, a failure status with its
/// diagnostic stream (as `wrap` files it), or a diagnostic that is not UTF-8.
pub open spec fn command_failure(out: Option<CommandOutput>, listing: bool) -> Option<Failure> {
    match out {
        None => Some(Failure::ToolInvocation),
        Some(o) => if o.success {
            None
        } else if !valid_utf8(o.stderr@) {
            Some(Failure::Decode)
        } else if listing {
            Some(Failure::RuntimeQuery(decode_utf8(o.stderr@)))
        } else {
            Some(Failure::Clean(decode_utf8(o.stderr@)))
        },
    }
}

/// After the containers: delete the artifact root.
pub open spec fn to_root(root: Seq<char>) -> (CleanState, CleanStep) {
    (clean_root(), CleanStep::RemoveDir(root))
}

/// The next position and action of a cleanup of `root`, given what happened.
pub open spec fn clean_transition(root: Seq<char>, s: CleanState, e: CleanEvent) -> (CleanState, CleanStep) {
    match e {
        CleanEvent::ConfigRead(None) => to_root(root),
        CleanEvent::ConfigRead(Some(Err(m))) => (clean_done(), CleanStep::Finish(Err(Failure::Clean(m@)))),
        CleanEvent::ConfigRead(Some(Ok(text))) => match toml_document(text@) {
            None => (clean_done(), CleanStep::Finish(Err(Failure::ConfigParse))),
            Some(doc) => match candidate_images(doc@) {
                Err(f) => (clean_done(), CleanStep::Finish(Err(f))),
                Ok(None) => to_root(root),
                Ok(Some(images)) => {
                    let p = container_pattern_of(images);
                    if regex_compiles(p) {
                        (
                            CleanState { stage: CleanStage::Listing, pattern: p, ids: seq![], next: 0 },
                            CleanStep::ListContainers,
                        )
                    } else {
                        (clean_done(), CleanStep::Finish(Err(Failure::Pattern)))
                    }
                },
            },
        },
        CleanEvent::ContainersListed(out) => match command_failure(out, true) {
            Some(f) => (clean_done(), CleanStep::Finish(Err(f))),
            None => {
                let stdout = out->0.stdout@;
                if !valid_utf8(stdout) {
                    (clean_done(), CleanStep::Finish(Err(Failure::Decode)))
                } else {
                    let ids = container_ids_of(s.pattern, lines_of(decode_utf8(stdout)));
                    if ids.len() == 0 {
                        to_root(root)
                    } else {
                        (
                            CleanState { stage: CleanStage::Removing, pattern: s.pattern, ids, next: 0 },
                            CleanStep::RemoveContainer(ids[0]),
                        )
                    }
                }
            },
        },
        CleanEvent::ContainerRemoved(out) => match command_failure(out, false) {
            Some(f) => (clean_done(), CleanStep::Finish(Err(f))),
            None => if s.next + 1 < s.ids.len() {
                (
                    CleanState { stage: CleanStage::Removing, pattern: s.pattern, ids: s.ids, next: s.next + 1 },
                    CleanStep::RemoveContainer(s.ids[s.next + 1int]),
                )
            } else {
                to_root(root)
            },
        },
        CleanEvent::DirRemoved(res) => match res {
            Ok(_) => (clean_done(), CleanStep::Finish(Ok(()))),
            Err(m) => (clean_done(), CleanStep::Finish(Err(Failure::Clean(m@)))),
        },
    }
}

/// Whether `e` answers the action pending in stage `st`.
pub open spec fn clean_answers(st: CleanStage, e: CleanEvent) -> bool {
    match e {
        CleanEvent::ConfigRead(_) => st == CleanStage::Config,
        CleanEvent::ContainersListed(_) => st == CleanStage::Listing,
        CleanEvent::ContainerRemoved(_) => st == CleanStage::Removing,
        CleanEvent::DirRemoved(_) => st == CleanStage::Root,
    }
}

/// A cleanup in progress.
#[derive(Debug)]
pub struct Cleanup {
    pub artifact_root: String,
    pub stage: CleanStage,
    pub pattern: Option<Pattern>,
    pub ids: Vec<String>,
    pub next: usize,
}

impl Cleanup {
    /// The cleanup's position.
    pub open spec fn state(&self) -> CleanState {
        CleanState {
            stage: self.stage,
            pattern: match self.pattern {
                Some(p) => p@,
                None => Seq::empty(),
            },
            ids: self.ids@.map_values(|s: String| s@),
            next: self.next as nat,
        }
    }

    /// The position is one that the cleanup can reach.
    pub open spec fn wf(&self) -> bool {
        &&& self.stage == CleanStage::Listing ==> self.pattern is Some
        &&& self.stage == CleanStage::Removing ==> self.next < self.ids@.len()
    }

    /// Whether `event` answers the pending action.
    pub fn accepts(&self, event: &CleanEvent) -> (r: bool)
        ensures
            r == clean_answers(self.stage, *event),
    {
        match event {
            CleanEvent::ConfigRead(_) => self.stage == CleanStage::Config,
            CleanEvent::ContainersListed(_) => self.stage == CleanStage::Listing,
            CleanEvent::ContainerRemoved(_) => self.stage == CleanStage::Removing,
            CleanEvent::DirRemoved(_) => self.stage == CleanStage::Root,
        }
    }

    /// Ends the cleanup with `outcome`.
    fn finish(&mut self, outcome: Result<(), CritError>) -> (r: CleanAction)
        ensures
            final(self).artifact_root == old(self).artifact_root,
            final(self).state() == clean_done(),
            final(self).wf(),
            r == CleanAction::Finish(outcome),
    {
        self.stage = CleanStage::Finished;
        self.pattern = None;
        self.ids = Vec::new();
        self.next = 0;
        assert(self.ids@.map_values(|s: String| s@) == Seq::<Seq<char>>::empty());
        CleanAction::Finish(outcome)
    }

    /// Asks for the artifact root's removal.
    fn remove_root(&mut self) -> (r: CleanAction)
        ensures
            final(self).artifact_root == old(self).artifact_root,
            (final(self).state(), r@) == to_root(old(self).artifact_root@),
            final(self).wf(),
    {
        self.stage = CleanStage::Root;
        self.pattern = None;
        self.ids = Vec::new();
        self.next = 0;
        assert(self.ids@.map_values(|s: String| s@) == Seq::<Seq<char>>::empty());
        CleanAction::RemoveDir(self.artifact_root.clone())
    }

    /// A failed command's error, as `command_failure` files it.
    fn failure_of(o: &CommandOutput, listing: bool) -> (r: CritError)
        requires
            !o.success,
        ensures
            command_failure(Some(*o), listing) == Some(r@),
    {
        match decode_stream(&o.stderr) {
            None => CritError::Decode,
            Some(text) => if listing {
                CritError::RuntimeQuery(text)
            } else {
                CritError::Clean(text)
            },
        }
    }

    /// Decides the next action from what the pending one came to.
    pub fn step(&mut self, event: CleanEvent) -> (r: CleanAction)
        requires
            old(self).wf(),
            clean_answers(old(self).stage, event),
        ensures
            final(self).wf(),
            final(self).artifact_root == old(self).artifact_root,
            (final(self).state(), r@) == clean_transition(old(self).artifact_root@, old(self).state(), event),
    {
        match event {
            CleanEvent::ConfigRead(None) => self.remove_root(),
            CleanEvent::ConfigRead(Some(Err(m))) => self.finish(Err(CritError::Clean(m))),
            CleanEvent::ConfigRead(Some(Ok(text))) => match container_images(text.as_str()) {
                Err(e) => self.finish(Err(e)),
                Ok(None) => self.remove_root(),
                Ok(Some(images)) => {
                    let src = container_pattern(&images);
                    match Pattern::new(src.as_str()) {
                        Err(e) => self.finish(Err(e)),
                        Ok(p) => {
                            self.pattern = Some(p);
                            self.stage = CleanStage::Listing;
                            self.ids = Vec::new();
                            self.next = 0;
                            assert(self.ids@.map_values(|s: String| s@) == Seq::<Seq<char>>::empty());
                            CleanAction::ListContainers
                        },
                    }
                },
            },
            CleanEvent::ContainersListed(None) => self.finish(Err(CritError::ToolInvocation)),
            CleanEvent::ContainersListed(Some(o)) => {
                if !o.success {
                    let e = Self::failure_of(&o, true);
                    self.finish(Err(e))
                } else {
                    match decode_stream(&o.stdout) {
                        None => self.finish(Err(CritError::Decode)),
                        Some(text) => {
                            let ids = match &self.pattern {
                                Some(p) => container_ids(p, text.as_str()),
                                None => Vec::new(),
                            };
                            if ids.len() == 0 {
                                self.remove_root()
                            } else {
                                let first = ids[0].clone();
                                self.ids = ids;
                                self.next = 0;
                                self.stage = CleanStage::Removing;
                                CleanAction::RemoveContainer(first)
                            }
                        },
                    }
                }
            },
            CleanEvent::ContainerRemoved(None) => self.finish(Err(CritError::ToolInvocation)),
            CleanEvent::ContainerRemoved(Some(o)) => {
                if !o.success {
                    let e = Self::failure_of(&o, false);
                    self.finish(Err(e))
                } else if self.next < self.ids.len() - 1 {
                    self.next = self.next + 1;
                    CleanAction::RemoveContainer(self.ids[self.next].clone())
                } else {
                    self.remove_root()
                }
            },
            CleanEvent::DirRemoved(res) => match res {
                Ok(()) => self.finish(Ok(())),
                Err(m) => self.finish(Err(CritError::Clean(m))),
            },
        }
    }
}

/// Starts a cleanup of the containers and of `artifact_root`: its first
/// action reads the container override configuration.
pub fn clean(artifact_root: &str) -> (r: (Cleanup, CleanAction))
    ensures
        r.0.artifact_root@ == artifact_root@,
        r.0.state() == (CleanState { stage: CleanStage::Config, pattern: Seq::empty(), ids: seq![], next: 0 }),
        r.0.wf(),
        r.1@ == CleanStep::ReadConfig,
{
    let c = Cleanup {
        artifact_root: String::from_str(artifact_root),
        stage: CleanStage::Config,
        pattern: None,
        ids: Vec::new(),
        next: 0,
    };
    assert(c.ids@.map_values(|s: String| s@) == Seq::<Seq<char>>::empty());
    (c, CleanAction::ReadConfig)
}

} // verus!
