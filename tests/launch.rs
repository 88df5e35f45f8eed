use dosbox_launcher::config::{game_config, search_pattern, theme_filenames, DirEntry, GameConfig};
use dosbox_launcher::error::AppError;
use dosbox_launcher::launch::{
    dosbox_command_line, dosbox_output, game_command_line, mount_path, write_config_args,
};
use dosbox_launcher::notify::ProcessExit;

#[test]
fn game_runs_in_the_directory_of_its_configuration() {
    assert_eq!(mount_path("/srv/games/doom/doom.conf"), Ok("/srv/games/doom".to_string()));
    assert_eq!(mount_path("/"), Err(AppError::FailedResolvingMountPath));
}

#[test]
fn game_command_quotes_every_path() {
    assert_eq!(
        game_command_line(
            "/opt/launcher/dosbox/dosbox",
            "/srv/games/doom",
            "/opt/launcher/base.conf",
            "/srv/games/doom/doom.conf"
        ),
        "\"/opt/launcher/dosbox/dosbox\" \"/srv/games/doom\" -conf \"/opt/launcher/base.conf\" -conf \"/srv/games/doom/doom.conf\""
    );
}

#[test]
fn dosbox_command_passes_parameters_as_given() {
    assert_eq!(
        dosbox_command_line("/opt/launcher/dosbox/dosbox", "-version -exit"),
        "\"/opt/launcher/dosbox/dosbox\" -version -exit"
    );
}

#[test]
fn base_configuration_is_written_by_dosbox() {
    assert_eq!(
        write_config_args("/opt/launcher/base.conf"),
        vec![
            "-c".to_string(),
            "CONFIG -writeconf \"/opt/launcher/base.conf\"".to_string(),
            "-exit".to_string()
        ]
    );
}

#[test]
fn dosbox_output_is_returned_on_success() {
    let ok = ProcessExit { success: true, status: "exit status: 0".to_string(), stderr: None };
    assert_eq!(
        dosbox_output(ok.clone(), Some("DOSBox version 0.74".to_string())),
        Ok("DOSBox version 0.74".to_string())
    );
    assert_eq!(dosbox_output(ok, None), Ok(String::new()));
}

#[test]
fn dosbox_failure_carries_status_and_stderr() {
    let failed = ProcessExit {
        success: false,
        status: "exit status: 1".to_string(),
        stderr: Some("unknown option".to_string()),
    };
    assert_eq!(
        dosbox_output(failed, Some("ignored".to_string())),
        Err(AppError::DOSBoxRunFailed {
            exit_status: "exit status: 1".to_string(),
            stderr: Some("unknown option".to_string()),
        })
    );
}

#[test]
fn new_game_gets_configuration_beside_its_program() {
    assert_eq!(
        game_config("/srv/games/doom/DOOM.EXE"),
        Ok(GameConfig {
            path: "/srv/games/doom/DOOM.conf".to_string(),
            contents: "[autoexec]\n@ECHO OFF\nMOUNT C .\nC:\nCLS\nDOOM.EXE\nEXIT".to_string(),
        })
    );
    assert_eq!(
        game_config("/srv/games/keen/keen"),
        Ok(GameConfig {
            path: "/srv/games/keen/keen.conf".to_string(),
            contents: "[autoexec]\n@ECHO OFF\nMOUNT C .\nC:\nCLS\nkeen\nEXIT".to_string(),
        })
    );
}

#[test]
fn program_path_without_file_name_is_refused() {
    assert_eq!(game_config("/"), Err(AppError::InvalidConfigPath));
    assert_eq!(game_config("/srv/games/.."), Err(AppError::InvalidConfigPath));
}

#[test]
fn only_named_style_sheets_are_listed() {
    let entries = vec![
        DirEntry { path: "/t/dark.css".to_string(), name: Some("dark.css".to_string()) },
        DirEntry { path: "/t/readme.txt".to_string(), name: Some("readme.txt".to_string()) },
        DirEntry { path: "/t/light.css".to_string(), name: None },
        DirEntry { path: "/t/css".to_string(), name: Some("css".to_string()) },
        DirEntry { path: "/t/.css".to_string(), name: Some(".css".to_string()) },
        DirEntry { path: "/t/old.css.bak".to_string(), name: Some("old.css.bak".to_string()) },
        DirEntry { path: "/t/blue.css".to_string(), name: Some("blue.css".to_string()) },
    ];
    assert_eq!(theme_filenames(&entries), vec!["dark.css".to_string(), "blue.css".to_string()]);
    assert!(theme_filenames(&Vec::new()).is_empty());
}

#[test]
fn search_matches_titles_containing_the_text() {
    assert_eq!(search_pattern("doom"), "%doom%");
    assert_eq!(search_pattern(""), "%%");
}
