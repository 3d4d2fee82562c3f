//! Properties that relate the library's functions, proved over their specs.
use vstd::prelude::*;
use vstd::utf8::{decode_utf8, valid_utf8};
use crate::command::CommandOutput;
use crate::error::Failure;
use crate::manifest::{entry_name, excluded_entry, feature_excluded, kept_names};
use crate::order::{lemma_lt_irreflexive, seq_lt};
use crate::pattern::{regex_compiles, regex_finds};
use crate::reaper::{
    candidate_images, clean_transition, container_ids_of, container_pattern_of, CleanEvent,
    CleanStage, CleanState, CleanStep,
};
use crate::run::{enabled_of, run_start};
use crate::paths::{file_name, path_join};
use crate::target_build::{
    build_transition, dest_dir, finished, scratch_dir, source_path, variant_extension, variant_mode,
    BuildEvent, BuildState, Phase, Step, TargetConfig, VARIANTS,
};
use crate::targets::{among_tokens, is_catalog, Target};
use crate::text::lines_of;
use crate::toml_doc::{field, toml_document, TomlValue};

verus! {

/// A target catalog lists every reported triple exactly once and nothing
/// else, each enabled exactly when the exclusion pattern does not match it.
pub proof fn law_catalog_lists_each_triple_once(
    ts: Seq<Target>,
    exclusion: Seq<char>,
    lines: Seq<Seq<char>>,
)
    requires
        is_catalog(ts, exclusion, lines),
    ensures
        forall|t: Seq<char>|
            #[trigger] among_tokens(lines, t) <==> exists|i: int|
                0 <= i < ts.len() && #[trigger] ts[i].triple@ == t,
        forall|i: int, j: int|
            0 <= i < j < ts.len() ==> #[trigger] ts[i].triple@ != #[trigger] ts[j].triple@,
        forall|i: int|
            0 <= i < ts.len() ==> #[trigger] ts[i].enabled == !regex_finds(exclusion, ts[i].triple@),
{
    assert forall|i: int, j: int| 0 <= i < j < ts.len() implies #[trigger] ts[i].triple@
        != #[trigger] ts[j].triple@ by {
        assert(seq_lt(ts.map_values(|t: Target| t.triple@)[i], ts.map_values(|t: Target| t.triple@)[j]));
        lemma_lt_irreflexive(ts[i].triple@);
    }
    assert forall|t: Seq<char>| (exists|i: int| 0 <= i < ts.len() && #[trigger] ts[i].triple@ == t)
        implies #[trigger] among_tokens(lines, t) by {
        let i = choose|i: int| 0 <= i < ts.len() && #[trigger] ts[i].triple@ == t;
        assert(among_tokens(lines, ts[i].triple@));
    }
}

proof fn lemma_none_enabled(ts: Seq<Target>)
    requires
        forall|i: int| 0 <= i < ts.len() ==> !(#[trigger] ts[i]).enabled,
    ensures
        enabled_of(ts).len() == 0,
    decreases ts.len(),
{
    if ts.len() > 0 {
        lemma_none_enabled(ts.drop_last());
    }
}

/// With no enabled target a run fails with `NoTargetsEnabled` at once: it
/// never asks for the driver.
pub proof fn law_no_enabled_target_runs_no_driver(ts: Seq<Target>)
    requires
        forall|i: int| 0 <= i < ts.len() ==> !(#[trigger] ts[i]).enabled,
    ensures
        run_start(ts) == Step::Finish(Err(Failure::NoTargetsEnabled)),
{
    lemma_none_enabled(ts);
}

/// A declaration that requires a feature the exclusion pattern matches is
/// left out of the application list.
pub proof fn law_excluded_feature_drops_entry(
    exclusion: Seq<char>,
    bins: Seq<TomlValue>,
    entry: TomlValue,
    features: Vec<TomlValue>,
    k: int,
)
    requires
        field(entry, "required-features"@) == Some(TomlValue::Array(features)),
        0 <= k < features@.len(),
        features@[k] matches TomlValue::Str(f) && regex_finds(exclusion, f@),
    ensures
        kept_names(exclusion, bins.push(entry)) == kept_names(exclusion, bins),
{
    assert(feature_excluded(exclusion, features@[k]));
    assert(excluded_entry(exclusion, entry));
    assert(bins.push(entry).drop_last() == bins);
}

/// A declaration with no `required-features` is always listed.
pub proof fn law_unrestricted_entry_kept(
    exclusion: Seq<char>,
    bins: Seq<TomlValue>,
    entry: TomlValue,
    names: Seq<Seq<char>>,
    name: Seq<char>,
)
    requires
        field(entry, "required-features"@) is None,
        kept_names(exclusion, bins) == Some(names),
        entry_name(entry) == Some(name),
    ensures
        kept_names(exclusion, bins.push(entry)) == Some(names.push(name)),
{
    assert(!excluded_entry(exclusion, entry));
    assert(bins.push(entry).drop_last() == bins);
}

/// When the driver fails, the build ends with its diagnostic text and
/// copies nothing.
pub proof fn law_driver_failure_copies_nothing(cfg: TargetConfig, s: BuildState, out: CommandOutput)
    requires
        !out.success,
        valid_utf8(out.stderr@),
    ensures
        build_transition(cfg, s, BuildEvent::DriverExited(Some(out))) == (
            finished(),
            Step::Finish(Err(Failure::Build(decode_utf8(out.stderr@)))),
        ),
{
}

/// Every variant is probed, also after one was found and copied: a found
/// binary is copied under its own extension, and the next variant of the
/// same application is probed after it.
pub proof fn law_found_variant_copied_and_probing_goes_on(cfg: TargetConfig, a: nat, v: nat)
    requires
        a < cfg.applications@.len(),
        v + 1 < VARIANTS,
    ensures
        build_transition(cfg, BuildState { phase: Phase::Probe, app: a, variant: v }, BuildEvent::Probed(true)).1
            == Step::Copy(
            path_join(
                path_join(path_join(scratch_dir(cfg), cfg.target@), variant_mode(v)),
                file_name(cfg.applications@[a as int]@, variant_extension(v)),
            ),
            path_join(dest_dir(cfg), file_name(cfg.applications@[a as int]@, variant_extension(v))),
        ),
        build_transition(
            cfg,
            BuildState { phase: Phase::Copy, app: a, variant: v },
            BuildEvent::Copied(Ok(())),
        ).1 == Step::Probe(source_path(cfg, a as int, v + 1)),
{
}

/// A cleanup with nothing left to remove succeeds: without a configuration
/// it goes straight to the artifact root, and removing an absent root is
/// success.
pub proof fn law_cleanup_without_config_succeeds(root: Seq<char>, s: CleanState)
    ensures
        ({
            let (s1, a1) = clean_transition(root, s, CleanEvent::ConfigRead(None));
            &&& a1 == CleanStep::RemoveDir(root)
            &&& s1.stage == CleanStage::Root
            &&& clean_transition(root, s1, CleanEvent::DirRemoved(Ok(()))).1 == CleanStep::Finish(
                Ok(()),
            )
        }),
{
}

/// A cleanup with a configuration succeeds when the listing shows no
/// matching container and the root's removal succeeds: what an earlier
/// cleanup leaves behind.
pub proof fn law_cleanup_with_nothing_listed_succeeds(
    root: Seq<char>,
    s: CleanState,
    config: String,
    listing: CommandOutput,
    images: Seq<Seq<char>>,
)
    requires
        toml_document(config@) matches Some(doc) && candidate_images(doc@) == Ok::<
            Option<Seq<Seq<char>>>,
            Failure,
        >(Some(images)),
        regex_compiles(container_pattern_of(images)),
        listing.success,
        valid_utf8(listing.stdout@),
        container_ids_of(container_pattern_of(images), lines_of(decode_utf8(listing.stdout@))).len()
            == 0,
    ensures
        ({
            let (s1, a1) = clean_transition(root, s, CleanEvent::ConfigRead(Some(Ok(config))));
            let (s2, a2) = clean_transition(root, s1, CleanEvent::ContainersListed(Some(listing)));
            &&& a1 == CleanStep::ListContainers
            &&& a2 == CleanStep::RemoveDir(root)
            &&& clean_transition(root, s2, CleanEvent::DirRemoved(Ok(()))).1 == CleanStep::Finish(
                Ok(()),
            )
        }),
{
}

} // verus!
