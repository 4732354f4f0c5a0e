use anime_repository::naming::{
    episode_stem, extension_of, file_name_of, join_path, make_valid_pathname, pad2,
    season_folder_name, str_eq, u64_to_string,
};

#[test]
fn sanitization_is_deterministic_and_idempotent() {
    let once = make_valid_pathname("Example: Show!");
    let again = make_valid_pathname("Example: Show!");
    assert_eq!(once, again);
    assert_eq!(once, "Example_ Show!");
    let twice = make_valid_pathname(&once);
    assert_eq!(twice, once);
}

#[test]
fn sanitization_replaces_every_illegal_character() {
    assert_eq!(make_valid_pathname(r#"a/b\c:d*e?f"g<h>i|j"#), "a_b_c_d_e_f_g_h_i_j");
    assert_eq!(make_valid_pathname("untouched name 07"), "untouched name 07");
    assert_eq!(make_valid_pathname(""), "");
}

#[test]
fn canonical_file_name_template() {
    let folder = make_valid_pathname("Example: Show!");
    let stem = episode_stem(&folder, 1, 7, &make_valid_pathname("Pilot"));
    assert_eq!(stem, "Example_ Show! - S01E07 - Pilot");
    let media = format!("{}.{}", stem, "mp4");
    assert_eq!(media, "Example_ Show! - S01E07 - Pilot.mp4");
}

#[test]
fn season_folders() {
    assert_eq!(season_folder_name(0), "Specials");
    assert_eq!(season_folder_name(1), "Season 01");
    assert_eq!(season_folder_name(42), "Season 42");
    assert_eq!(season_folder_name(100), "Season 100");
}

#[test]
fn decimal_rendering() {
    assert_eq!(u64_to_string(0), "0");
    assert_eq!(u64_to_string(7), "7");
    assert_eq!(u64_to_string(1080), "1080");
    assert_eq!(u64_to_string(u64::MAX), "18446744073709551615");
    assert_eq!(pad2(0), "00");
    assert_eq!(pad2(9), "09");
    assert_eq!(pad2(10), "10");
    assert_eq!(pad2(123), "123");
}

#[test]
fn file_names_of_paths() {
    assert_eq!(file_name_of("/a/b/c.mp4"), "c.mp4");
    assert_eq!(file_name_of(r"C:\Users\chika\video.mkv"), "video.mkv");
    assert_eq!(file_name_of("bare.mp4"), "bare.mp4");
    assert_eq!(file_name_of("/ends/with/slash/"), "");
}

#[test]
fn extensions_of_file_names() {
    assert_eq!(extension_of("c.mp4"), Some("mp4"));
    assert_eq!(extension_of("archive.tar.gz"), Some("gz"));
    assert_eq!(extension_of(".bashrc"), None);
    assert_eq!(extension_of("noext"), None);
    assert_eq!(extension_of("trailing."), Some(""));
}

#[test]
fn joining_paths() {
    assert_eq!(join_path("/library", "Show"), "/library/Show");
}

#[test]
fn string_equality() {
    assert!(str_eq("zh_CN", "zh_CN"));
    assert!(!str_eq("zh_CN", "ja_JP"));
    assert!(!str_eq("abc", "ab"));
    assert!(str_eq("", ""));
}
