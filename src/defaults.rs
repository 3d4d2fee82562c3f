//! The defaults of a run: where artifacts go and which targets and
//! features are left out unless the caller says otherwise.
use vstd::prelude::*;
use crate::error::CritError;
use crate::pattern::{build_exclusion_pattern, joined, regex_compiles, Pattern};

verus! {

/// The directory that holds the scratch and artifact trees.
pub fn artifact_root() -> (r: String)
    ensures
        r@ == ".crit"@,
{
    String::from_str(".crit")
}

/// Platform families that are likely not to build out of the box:
/// bare-metal and embedded targets, WebAssembly, GPUs, some operating
/// systems and C runtimes.
pub open spec fn fringe_target_names() -> Seq<Seq<char>> {
    seq![
        "android"@,
        "cuda"@,
        "emscripten"@,
        "fortanix"@,
        "fuchsia"@,
        "gnullvm"@,
        "gnux32"@,
        "ios"@,
        "loongarch"@,
        "msvc"@,
        "none-eabi"@,
        "ohos"@,
        "pc-solaris"@,
        "powerpc64le-unknown-linux-musl"@,
        "redox"@,
        "riscv64gc-unknown-linux-musl"@,
        "sparcv9-sun-solaris"@,
        "uefi"@,
        "unknown-none"@,
        "wasm"@,
    ]
}

/// Features of development programs not meant for release.
pub open spec fn excluded_feature_names() -> Seq<Seq<char>> {
    seq!["letmeout"@]
}

/// The default target exclusion tokens.
pub fn fringe_targets() -> (r: Vec<String>)
    ensures
        r@.map_values(|s: String| s@) == fringe_target_names(),
{
    let mut v: Vec<String> = Vec::new();
    v.push(String::from_str("android"));
    v.push(String::from_str("cuda"));
    v.push(String::from_str("emscripten"));
    v.push(String::from_str("fortanix"));
    v.push(String::from_str("fuchsia"));
    v.push(String::from_str("gnullvm"));
    v.push(String::from_str("gnux32"));
    v.push(String::from_str("ios"));
    v.push(String::from_str("loongarch"));
    v.push(String::from_str("msvc"));
    v.push(String::from_str("none-eabi"));
    v.push(String::from_str("ohos"));
    v.push(String::from_str("pc-solaris"));
    v.push(String::from_str("powerpc64le-unknown-linux-musl"));
    v.push(String::from_str("redox"));
    v.push(String::from_str("riscv64gc-unknown-linux-musl"));
    v.push(String::from_str("sparcv9-sun-solaris"));
    v.push(String::from_str("uefi"));
    v.push(String::from_str("unknown-none"));
    v.push(String::from_str("wasm"));
    assert(v@.map_values(|s: String| s@) =~= fringe_target_names());
    v
}

/// The default feature exclusion tokens.
pub fn crate_feature_exclusions() -> (r: Vec<String>)
    ensures
        r@.map_values(|s: String| s@) == excluded_feature_names(),
{
    let mut v: Vec<String> = Vec::new();
    v.push(String::from_str("letmeout"));
    assert(v@.map_values(|s: String| s@) =~= excluded_feature_names());
    v
}

/// The default target exclusion pattern: any fringe family.
pub fn default_target_exclusion_pattern() -> (r: Result<Pattern, CritError>)
    ensures
        r is Ok <==> regex_compiles(joined(fringe_target_names(), "|"@)),
        r matches Ok(p) ==> p@ == joined(fringe_target_names(), "|"@),
{
    build_exclusion_pattern(&fringe_targets())
}

/// The default feature exclusion pattern.
pub fn default_feature_exclusion_pattern() -> (r: Result<Pattern, CritError>)
    ensures
        r is Ok <==> regex_compiles(joined(excluded_feature_names(), "|"@)),
        r matches Ok(p) ==> p@ == joined(excluded_feature_names(), "|"@),
{
    build_exclusion_pattern(&crate_feature_exclusions())
}

} // verus!
