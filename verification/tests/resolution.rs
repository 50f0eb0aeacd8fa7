use tilepaths::config::default_config;
use tilepaths::errors::FileError;
use tilepaths::ops::read_tile_path;
use tilepaths::resolve::{file_stem, join, resolve_addon, resolve_tile};

#[test]
fn join_inserts_separator() {
    assert_eq!(join("root", "a.txt"), "root/a.txt");
}

#[test]
fn join_keeps_trailing_slash() {
    assert_eq!(join("root/", "a.txt"), "root/a.txt");
}

#[test]
fn join_keeps_trailing_backslash() {
    assert_eq!(join("C:\\base\\", "a.txt"), "C:\\base\\a.txt");
}

#[test]
fn join_of_empty_root_is_the_name() {
    assert_eq!(join("", "a.txt"), "a.txt");
}

#[test]
fn join_does_not_sanitize_traversal() {
    assert_eq!(join("root", "../up.txt"), "root/../up.txt");
}

#[test]
fn resolve_tile_is_the_platform_join() {
    assert_eq!(resolve_tile("root", "a.txt"), join("root", "a.txt"));
    assert_eq!(
        resolve_tile("C:\\base", "data/a.xml"),
        "C:\\base/data/a.xml"
    );
}

#[test]
fn stem_strips_the_final_extension() {
    assert_eq!(file_stem("MyAddon.xml"), "MyAddon");
    assert_eq!(file_stem("archive.tar.gz"), "archive.tar");
}

#[test]
fn stem_of_extensionless_name_is_the_name() {
    assert_eq!(file_stem("MyAddon"), "MyAddon");
}

#[test]
fn stem_of_all_extension_is_empty() {
    assert_eq!(file_stem(".xml"), "");
    assert_eq!(file_stem(""), "");
}

#[test]
fn addon_resolves_to_playlist_under_stem() {
    assert_eq!(
        resolve_addon("base", "MyAddon.xml"),
        Ok(String::from("base/MyAddon/playlist.xml"))
    );
}

#[test]
fn addon_resolution_ignores_the_suffix() {
    assert_eq!(
        resolve_addon("base", "MyAddon"),
        resolve_addon("base", "MyAddon.xml")
    );
}

#[test]
fn addon_with_no_stem_is_refused() {
    assert_eq!(resolve_addon("base", ".xml"), Err(FileError::NoStem));
    assert_eq!(resolve_addon("base", ""), Err(FileError::NoStem));
}

#[test]
fn default_tile_root_is_the_steam_install() {
    assert_eq!(
        default_config().tile_root,
        "C:\\Program Files (x86)\\Steam\\steamapps\\common\\Stormworks\\rom"
    );
}

#[test]
fn tile_read_before_any_save_uses_the_default_root() {
    let r = read_tile_path(Ok(None), "data/zones/tile_00_00.xml");
    assert_eq!(
        r,
        Ok(String::from(
            "C:\\Program Files (x86)\\Steam\\steamapps\\common\\Stormworks\\rom/data/zones/tile_00_00.xml"
        ))
    );
}
