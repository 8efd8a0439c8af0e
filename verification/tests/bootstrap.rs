use parknotes::bootstrap::{detect_root_folder, root_folder_found, ConfigError};
use parknotes::structs::Config;

#[test]
fn test_detect_root_folder_exists() {
    let config = Config {
        root_dir: String::from("/home"),
        ignore_dirs: vec![],
        menu_scroll_buffer: 10,
    };
    let result: bool = detect_root_folder(&config).unwrap();
    assert!(result)
}

#[test]
fn test_detect_root_folder_not_exists() {
    let config = Config {
        root_dir: String::from("~/nonsense_folder_ntuyfwntw/"),
        ignore_dirs: vec![],
        menu_scroll_buffer: 10,
    };
    let result: bool = detect_root_folder(&config).unwrap();
    assert!(!result)
}

#[test]
fn probe_answers_are_passed_on() {
    assert_eq!(root_folder_found(Some(true)), Ok(true));
    assert_eq!(root_folder_found(Some(false)), Ok(false));
}

#[test]
fn failed_probe_is_an_unreadable_root() {
    assert_eq!(root_folder_found(None), Err(ConfigError::UnreadableRoot));
}

#[test]
fn settings_come_from_the_root_dir_variable() {
    let config = Config::from_root_dir(Some(String::from("/tmp/notes"))).unwrap();
    assert_eq!(config.root_dir, "/tmp/notes");
    assert_eq!(config.ignore_dirs, vec![".git", "bin"]);
    assert_eq!(config.menu_scroll_buffer, 10);
}

#[test]
fn missing_root_dir_variable_is_an_error() {
    assert_eq!(
        Config::from_root_dir(None).err(),
        Some(ConfigError::MissingRootDir)
    );
}
