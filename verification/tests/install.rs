use rust_analyzer_downloader::install::{
    archive_path, default_install_path, install_path_below, install_path_in, EXECUTABLE_MODE,
    INSTALL_SUBPATH,
};

#[test]
fn install_path_is_below_home() {
    assert_eq!(install_path_in("/home/user"), "/home/user/bin/rust-analyzer");
    assert_eq!(install_path_in("/Users/Alice"), "/Users/Alice/bin/rust-analyzer");
    assert_eq!(install_path_in("relative"), "relative/bin/rust-analyzer");
}

#[test]
fn no_second_separator_is_added() {
    assert_eq!(install_path_in("/home/user/"), "/home/user/bin/rust-analyzer");
    assert_eq!(install_path_in("/"), "/bin/rust-analyzer");
    assert_eq!(install_path_in("/home//"), "/home//bin/rust-analyzer");
}

#[test]
fn empty_home_gives_the_relative_path() {
    assert_eq!(install_path_in(""), "bin/rust-analyzer");
    assert_eq!(INSTALL_SUBPATH, "bin/rust-analyzer");
}

#[test]
fn archive_path_carries_the_version() {
    assert_eq!(
        archive_path("/home/user/bin/rust-analyzer", "2024.01.15"),
        "/home/user/bin/rust-analyzer-2024.01.15"
    );
    assert_eq!(archive_path("ra", ""), "ra-");
    assert_eq!(archive_path("", "1"), "-1");
    assert_eq!(archive_path("a-b", "c-d"), "a-b-c-d");
}

#[test]
fn executable_mode_is_rwxr_xr_x() {
    assert_eq!(EXECUTABLE_MODE, 0o755);
    assert_eq!(EXECUTABLE_MODE, 493);
}

#[test]
fn default_install_path_is_below_the_home_directory() {
    let expected = match dirs::home_dir() {
        Some(home) => home.to_str().map(install_path_in),
        None => None,
    };
    assert_eq!(default_install_path(), expected);
    if let Some(path) = default_install_path() {
        assert!(path.ends_with("bin/rust-analyzer"));
    }
}

#[test]
fn known_home_gives_the_path_below_it() {
    assert_eq!(
        install_path_below(Some("/home/user".to_string())),
        Some("/home/user/bin/rust-analyzer".to_string())
    );
    assert_eq!(
        install_path_below(Some("/home/user/".to_string())),
        Some("/home/user/bin/rust-analyzer".to_string())
    );
    assert_eq!(install_path_below(Some(String::new())), Some("bin/rust-analyzer".to_string()));
}

#[test]
fn unknown_home_gives_no_path() {
    assert_eq!(install_path_below(None), None);
}

#[test]
fn default_install_path_follows_the_home_directory() {
    let home = match dirs::home_dir() {
        Some(home) => home.to_str().map(str::to_string),
        None => None,
    };
    assert_eq!(default_install_path(), install_path_below(home));
}
