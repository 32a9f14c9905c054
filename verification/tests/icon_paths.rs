use system_tray::{split_icon_path, TrayError};

#[test]
fn splits_simple_absolute_path() {
    let (name, theme) = split_icon_path("/icons/app.png").unwrap();
    assert_eq!(name, "app");
    assert_eq!(theme, "/icons");
}

#[test]
fn splits_nested_path() {
    let (name, theme) = split_icon_path("/usr/share/icons/tray.svg").unwrap();
    assert_eq!(name, "tray");
    assert_eq!(theme, "/usr/share/icons");
}

#[test]
fn splits_path_in_root_directory() {
    let (name, theme) = split_icon_path("/app.png").unwrap();
    assert_eq!(name, "app");
    assert_eq!(theme, "/");
}

#[test]
fn splits_relative_path_with_parent() {
    let (name, theme) = split_icon_path("assets/app.png").unwrap();
    assert_eq!(name, "app");
    assert_eq!(theme, "assets");
}

#[test]
fn keeps_all_but_final_extension() {
    let (name, _) = split_icon_path("/icons/app.tar.gz").unwrap();
    assert_eq!(name, "app.tar");
}

#[test]
fn leading_dot_is_not_an_extension() {
    let (name, theme) = split_icon_path("/icons/.hidden").unwrap();
    assert_eq!(name, ".hidden");
    assert_eq!(theme, "/icons");
}

#[test]
fn file_without_extension_is_its_own_stem() {
    let (name, theme) = split_icon_path("/icons/app").unwrap();
    assert_eq!(name, "app");
    assert_eq!(theme, "/icons");
}

#[test]
fn trailing_separator_is_ignored() {
    let (name, theme) = split_icon_path("/icons/app.png/").unwrap();
    assert_eq!(name, "app");
    assert_eq!(theme, "/icons");
}

#[test]
fn directory_with_trailing_separator_splits_against_root() {
    let (name, theme) = split_icon_path("/icons/").unwrap();
    assert_eq!(name, "icons");
    assert_eq!(theme, "/");
}

#[test]
fn trailing_cur_dir_component_is_skipped() {
    let (name, theme) = split_icon_path("/usr/bin/.").unwrap();
    assert_eq!(name, "bin");
    assert_eq!(theme, "/usr");
}

#[test]
fn repeated_trailing_cur_dir_components_are_skipped() {
    let (name, theme) = split_icon_path("/usr/bin/././").unwrap();
    assert_eq!(name, "bin");
    assert_eq!(theme, "/usr");
}

#[test]
fn doubled_separator_is_trimmed_from_the_parent() {
    let (name, theme) = split_icon_path("a//b").unwrap();
    assert_eq!(name, "b");
    assert_eq!(theme, "a");
}

#[test]
fn cur_dir_parent_is_kept() {
    let (name, theme) = split_icon_path("./a").unwrap();
    assert_eq!(name, "a");
    assert_eq!(theme, ".");
}

#[test]
fn dots_only_name_keeps_all_but_final_dot() {
    let (name, theme) = split_icon_path("/x/...").unwrap();
    assert_eq!(name, "..");
    assert_eq!(theme, "/x");
}

#[test]
fn trailing_parent_dir_component_is_rejected() {
    assert_eq!(split_icon_path("/icons/.."), Err(TrayError::ConfigurationError));
    assert_eq!(split_icon_path("a/.."), Err(TrayError::ConfigurationError));
    assert_eq!(split_icon_path("/.."), Err(TrayError::ConfigurationError));
    assert_eq!(split_icon_path(".."), Err(TrayError::ConfigurationError));
    assert_eq!(split_icon_path("a/../"), Err(TrayError::ConfigurationError));
}

#[test]
fn bare_name_behind_cur_dir_tail_is_rejected() {
    assert_eq!(split_icon_path("foo.txt/."), Err(TrayError::ConfigurationError));
}

#[test]
fn cur_dir_alone_is_rejected() {
    assert_eq!(split_icon_path("."), Err(TrayError::ConfigurationError));
    assert_eq!(split_icon_path("./"), Err(TrayError::ConfigurationError));
}

#[test]
fn bare_file_name_is_rejected() {
    assert_eq!(split_icon_path("app.png"), Err(TrayError::ConfigurationError));
}

#[test]
fn root_path_is_rejected() {
    assert_eq!(split_icon_path("/"), Err(TrayError::ConfigurationError));
}

#[test]
fn empty_path_is_rejected() {
    assert_eq!(split_icon_path(""), Err(TrayError::ConfigurationError));
}

#[test]
fn separators_only_path_is_rejected() {
    assert_eq!(split_icon_path("///"), Err(TrayError::ConfigurationError));
}
