use cuda_loader::locator::Platform;
use cuda_loader::locator::candidate_paths;
use cuda_loader::locator::default_install_dirs;
use cuda_loader::locator::default_versions;
use cuda_loader::locator::fallback_file_name;
use cuda_loader::locator::joined_candidate;
use cuda_loader::locator::locate_in;
use cuda_loader::locator::search_dirs;
use cuda_loader::locator::split_search_path;
use cuda_loader::locator::versioned_file_name;

fn strings(xs: &[&str]) -> Vec<String> {
    xs.iter().map(|x| x.to_string()).collect()
}

#[test]
fn split_two_segments() {
    assert_eq!(split_search_path("a:b", ':'), strings(&["a", "b"]));
}

#[test]
fn split_empty_string_is_one_empty_segment() {
    assert_eq!(split_search_path("", ':'), strings(&[""]));
}

#[test]
fn split_keeps_empty_segments() {
    assert_eq!(split_search_path("a::b", ':'), strings(&["a", "", "b"]));
    assert_eq!(split_search_path("a:", ':'), strings(&["a", ""]));
    assert_eq!(split_search_path(":a", ':'), strings(&["", "a"]));
}

#[test]
fn split_windows_separator() {
    assert_eq!(split_search_path("C:\\x;D:\\y", ';'), strings(&["C:\\x", "D:\\y"]));
}

#[test]
fn versioned_name_unix() {
    let p = Platform::unix_64();
    assert_eq!(versioned_file_name(&p, "cuda", "100").as_str(), "libcuda64_100.so");
    assert_eq!(versioned_file_name(&p, "cublas", "90").as_str(), "libcublas64_90.so");
}

#[test]
fn versioned_name_windows() {
    let p = Platform::windows_64();
    assert_eq!(versioned_file_name(&p, "cudart", "100").as_str(), "cudart64_100.dll");
}

#[test]
fn fallback_name_is_bare_decorated() {
    assert_eq!(fallback_file_name(&Platform::unix_64(), "cuda").as_str(), "libcuda.so");
    assert_eq!(fallback_file_name(&Platform::windows_64(), "cuda").as_str(), "cuda.dll");
}

#[test]
fn joined_path_inserts_library_subdirectory() {
    let p = Platform::unix_64();
    assert_eq!(
        joined_candidate(&p, "/opt/cuda", "libcuda64_100.so").as_str(),
        "/opt/cuda/lib64/libcuda64_100.so"
    );
    assert_eq!(joined_candidate(&p, "", "libcuda64_100.so").as_str(), "lib64/libcuda64_100.so");
}

#[test]
fn default_versions_preference_order() {
    assert_eq!(default_versions(), strings(&["100", "90", "80", "70"]));
}

#[test]
fn default_install_dirs_are_the_standard_prefixes() {
    assert_eq!(default_install_dirs(), strings(&["/usr/local/cuda", "/opt/cuda"]));
}

#[test]
fn search_dirs_priority_env_then_standard() {
    let primary = "/x:/y".to_string();
    let dirs = search_dirs(Some(&primary), None, ':');
    assert_eq!(dirs, strings(&["/x", "/y", "/usr/local/cuda", "/opt/cuda"]));

    let secondary = "/z".to_string();
    let dirs = search_dirs(Some(&primary), Some(&secondary), ':');
    assert_eq!(dirs, strings(&["/x", "/y", "/z", "/usr/local/cuda", "/opt/cuda"]));

    let dirs = search_dirs(None, None, ':');
    assert_eq!(dirs, strings(&["/usr/local/cuda", "/opt/cuda"]));
}

#[test]
fn candidate_paths_are_version_major_directory_minor() {
    let p = Platform::unix_64();
    let cands = candidate_paths(&p, "cuda", &strings(&["100", "90"]), &strings(&["/a", "/b"]));
    assert_eq!(
        cands,
        strings(&[
            "/a/lib64/libcuda64_100.so",
            "/b/lib64/libcuda64_100.so",
            "/a/lib64/libcuda64_90.so",
            "/b/lib64/libcuda64_90.so",
        ])
    );
}

#[test]
fn locator_priority_env_dir_beats_standard_prefix() {
    let p = Platform::unix_64();
    let primary = "/env/dir".to_string();
    let dirs = search_dirs(Some(&primary), None, ':');
    let fs = strings(&[
        "/env/dir/lib64/libcuda64_100.so",
        "/usr/local/cuda/lib64/libcuda64_100.so",
    ]);
    let found = locate_in(&p, "cuda", &default_versions(), &dirs, &fs);
    assert_eq!(found.as_str(), "/env/dir/lib64/libcuda64_100.so");
}

#[test]
fn locator_prefers_newer_version_over_earlier_directory() {
    let p = Platform::unix_64();
    let primary = "/env/dir".to_string();
    let dirs = search_dirs(Some(&primary), None, ':');
    let fs = strings(&[
        "/env/dir/lib64/libcuda64_90.so",
        "/usr/local/cuda/lib64/libcuda64_100.so",
    ]);
    let found = locate_in(&p, "cuda", &default_versions(), &dirs, &fs);
    assert_eq!(found.as_str(), "/usr/local/cuda/lib64/libcuda64_100.so");
}

#[test]
fn empty_env_segment_yields_relative_candidate() {
    let p = Platform::unix_64();
    let empty = "".to_string();
    let dirs = search_dirs(Some(&empty), None, ':');
    assert_eq!(dirs, strings(&["", "/usr/local/cuda", "/opt/cuda"]));
    let cands = candidate_paths(&p, "cuda", &strings(&["100"]), &dirs);
    assert_eq!(cands[0].as_str(), "lib64/libcuda64_100.so");
}

#[test]
fn windows_candidates_use_bin_and_semicolons() {
    let p = Platform::windows_64();
    let primary = "C:\\v1;C:\\v2".to_string();
    let dirs = search_dirs(Some(&primary), None, ';');
    let cands = candidate_paths(&p, "cudart", &strings(&["100"]), &dirs);
    assert_eq!(cands[0].as_str(), "C:\\v1\\bin\\cudart64_100.dll");
    assert_eq!(cands[1].as_str(), "C:\\v2\\bin\\cudart64_100.dll");
}

#[test]
fn locator_no_match_yields_bare_name() {
    let p = Platform::unix_64();
    let dirs = search_dirs(None, None, ':');
    let fs: Vec<String> = Vec::new();
    let found = locate_in(&p, "cuda", &default_versions(), &dirs, &fs);
    assert_eq!(found.as_str(), "libcuda.so");
}
