use wisp_installer::clone::clone_report;
use wisp_installer::cmake::{bool_to_cmake_bool, cache_file, generator_arguments};
use wisp_installer::input::trim_line_ending;

#[test]
fn clone_success_report() {
    assert_eq!(
        clone_report("https://example.com/a.git", "deps/a", None),
        Ok("Finished cloning https://example.com/a.git into deps/a".to_string())
    );
}

#[test]
fn clone_failure_is_reported_with_url() {
    let r = clone_report("https://example.com/a.git", "deps/a", Some("401")).unwrap_err();
    assert!(r.contains("https://example.com/a.git"));
    assert_eq!(
        r,
        "Failed to clone https://example.com/a.git. Is Your Git Account Part Of The NVIDIAGameWorks UELA Group?. Error: 401"
    );
}

#[test]
fn cmake_flags() {
    assert_eq!(bool_to_cmake_bool(true), "ON");
    assert_eq!(bool_to_cmake_bool(false), "OFF");
}

#[test]
fn generator_command_line() {
    let args = generator_arguments("build", "Visual Studio 16 2019", "x64", true, false);
    assert_eq!(
        args,
        vec![
            "/C", "cd", "build", "&", "cmake", "-GVisual Studio 16 2019", "-Ax64",
            "-DENABLE_UNIT_TEST=ON", "-DWISP_BUILD_SHARED=OFF", "..",
        ]
    );
    assert_eq!(cache_file("build"), "build/CMakeCache.txt");
}

#[test]
fn line_endings_are_trimmed() {
    assert_eq!(trim_line_ending("alice\n"), "alice");
    assert_eq!(trim_line_ending("alice\r\n"), "alice");
    assert_eq!(trim_line_ending("alice"), "alice");
    assert_eq!(trim_line_ending(""), "");
    assert_eq!(trim_line_ending("\n"), "");
    assert_eq!(trim_line_ending("a\n\n"), "a\n");
    assert_eq!(trim_line_ending("\u{e9}t\u{e9}\n"), "\u{e9}t\u{e9}");
}
