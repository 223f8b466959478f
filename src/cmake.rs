//! The command line handed to the build-file generator.

use vstd::prelude::*;
use vstd::string::*;

verus! {

/// A flag as the generator spells it.
pub open spec fn cmake_bool_text(b: bool) -> Seq<char> {
    if b {
        "ON"@
    } else {
        "OFF"@
    }
}

/// `ON` for true, `OFF` for false.
pub fn bool_to_cmake_bool(b: bool) -> (r: String)
    ensures
        r@ == cmake_bool_text(b),
{
    if b {
        String::from_str("ON")
    } else {
        String::from_str("OFF")
    }
}

/// The arguments of the shell command that enters `build_dir` and runs the
/// generator there on the parent directory.
pub open spec fn generator_args(
    build_dir: Seq<char>,
    generator: Seq<char>,
    arch: Seq<char>,
    unit_tests: bool,
    shared: bool,
) -> Seq<Seq<char>> {
    seq![
        "/C"@,
        "cd"@,
        build_dir,
        "&"@,
        "cmake"@,
        "-G"@ + generator,
        "-A"@ + arch,
        "-DENABLE_UNIT_TEST="@ + cmake_bool_text(unit_tests),
        "-DWISP_BUILD_SHARED="@ + cmake_bool_text(shared),
        ".."@,
    ]
}

fn prefixed(prefix: &str, rest: &str) -> (r: String)
    ensures
        r@ == prefix@ + rest@,
{
    let mut s = String::from_str(prefix);
    s.append(rest);
    s
}

/// Builds the generator's command line.
pub fn generator_arguments(
    build_dir: &str,
    generator: &str,
    arch: &str,
    unit_tests: bool,
    shared: bool,
) -> (r: Vec<String>)
    ensures
        r@.len() == 10,
        forall|i: int| 0 <= i < 10 ==> #[trigger] r@[i]@ == generator_args(
            build_dir@,
            generator@,
            arch@,
            unit_tests,
            shared,
        )[i],
{
    let mut v: Vec<String> = Vec::new();
    v.push(String::from_str("/C"));
    v.push(String::from_str("cd"));
    v.push(String::from_str(build_dir));
    v.push(String::from_str("&"));
    v.push(String::from_str("cmake"));
    v.push(prefixed("-G", generator));
    v.push(prefixed("-A", arch));
    let t = bool_to_cmake_bool(unit_tests);
    v.push(prefixed("-DENABLE_UNIT_TEST=", t.as_str()));
    let s = bool_to_cmake_bool(shared);
    v.push(prefixed("-DWISP_BUILD_SHARED=", s.as_str()));
    v.push(String::from_str(".."));
    v
}

/// Where the generator keeps its cache inside `build_dir`.
pub fn cache_file(build_dir: &str) -> (r: String)
    ensures
        r@ == build_dir@ + "/CMakeCache.txt"@,
{
    prefixed(build_dir, "/CMakeCache.txt")
}

} // verus!
