use dosbox_launcher::error::AppError;
use dosbox_launcher::path::{
    base_config_file, database_file, dosbox_exe_file, dosbox_exe_path, exe_dir, games_dir,
    make_relative_path, resolve_relative_path, settings_file, theme_file, themes_dir, Platform,
};

#[test]
fn files_lie_in_the_launcher_directory() {
    let dir = "/opt/launcher";
    assert_eq!(settings_file(dir), "/opt/launcher/settings.json");
    assert_eq!(base_config_file(dir), "/opt/launcher/base.conf");
    assert_eq!(themes_dir(dir), "/opt/launcher/themes");
    assert_eq!(games_dir(dir), "/opt/launcher/games");
    assert_eq!(database_file(dir), "/opt/launcher/db.sqlite");
    assert_eq!(theme_file(dir, "dark.css"), "/opt/launcher/themes/dark.css");
}

#[test]
fn relative_paths_are_joined_and_absolute_ones_kept() {
    assert_eq!(
        resolve_relative_path("/opt/launcher", "games/doom/doom.conf"),
        "/opt/launcher/games/doom/doom.conf"
    );
    assert_eq!(resolve_relative_path("/opt/launcher/", "db.sqlite"), "/opt/launcher/db.sqlite");
    assert_eq!(resolve_relative_path("/opt/launcher", "/srv/doom.conf"), "/srv/doom.conf");
}

#[test]
fn dosbox_executable_depends_on_platform() {
    assert_eq!(dosbox_exe_path("/opt/launcher", Platform::Linux), "/opt/launcher/dosbox/dosbox");
    assert_eq!(
        dosbox_exe_path("/opt/launcher", Platform::Other),
        "/opt/launcher/dosbox\\dosbox.exe"
    );
}

#[test]
fn missing_dosbox_executable_is_an_error() {
    let path = "/opt/launcher/dosbox/dosbox".to_string();
    assert_eq!(dosbox_exe_file(path.clone(), true), Ok(path.clone()));
    assert_eq!(dosbox_exe_file(path, false), Err(AppError::DOSBoxExeNotFound));
}

#[test]
fn launcher_directory_is_the_parent_of_its_executable() {
    assert_eq!(exe_dir("/opt/launcher/dosbox-express"), Some("/opt/launcher".to_string()));
    assert_eq!(exe_dir("/"), None);
}

#[test]
fn paths_are_made_relative_to_the_launcher() {
    assert_eq!(
        make_relative_path("/opt/launcher/games/doom/doom.conf", "/opt/launcher"),
        Some("games/doom/doom.conf".to_string())
    );
    assert_eq!(
        make_relative_path("/srv/doom.conf", "/opt/launcher"),
        Some("../../srv/doom.conf".to_string())
    );
    assert_eq!(make_relative_path("games/doom.conf", "/opt/launcher"), None);
}
