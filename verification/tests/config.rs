use std::path::PathBuf;
use todo_rs::config::{config_file_in, Config, StorageBackend};
use todo_rs::storage::{choose_storage, FileStorage, SqliteStorage, StorageChoice};

#[test]
fn test_default_config_backend_is_json() {
    let config = Config::default();
    assert_eq!(config.storage_backend, StorageBackend::Json);
}

#[test]
fn test_default_config_paths_contain_todo_rs() {
    let config = Config::default();
    assert!(config.storage_path.to_str().unwrap().contains("todo_rs"));
    assert!(config.database_path.to_str().unwrap().contains("todo_rs"));
}

#[test]
fn test_default_storage_path_is_json_file() {
    let config = Config::default();
    assert!(config.storage_path.to_str().unwrap().ends_with(".json"));
}

#[test]
fn test_default_database_path_is_db_file() {
    let config = Config::default();
    assert!(config.database_path.to_str().unwrap().ends_with(".db"));
}

#[test]
fn test_default_backend_is_json() {
    assert_eq!(StorageBackend::default(), StorageBackend::Json);
}

#[test]
fn test_config_in_given_dir() {
    let config = Config::in_config_dir(Some(PathBuf::from("/home/user/.config")));
    assert_eq!(config.storage_path, PathBuf::from("/home/user/.config/todo_rs/todos.json"));
    assert_eq!(config.database_path, PathBuf::from("/home/user/.config/todo_rs/todos.db"));
}

#[test]
fn test_config_without_dir_uses_current_dir() {
    let config = Config::in_config_dir(None);
    assert_eq!(config.storage_path, PathBuf::from("./todo_rs/todos.json"));
}

#[test]
fn test_config_file_path() {
    assert_eq!(
        config_file_in(Some(PathBuf::from("/etc"))),
        Some(PathBuf::from("/etc/todo_rs/config.toml"))
    );
    assert_eq!(config_file_in(None), None);
}

#[test]
fn test_storages_take_their_paths_from_config() {
    let config = Config::in_config_dir(Some(PathBuf::from("/cfg")));
    assert_eq!(FileStorage::new(&config).path(), &config.storage_path);
    assert_eq!(SqliteStorage::new(&config).path(), &config.database_path);
}

#[test]
fn test_choose_storage_follows_backend() {
    let mut config = Config::in_config_dir(Some(PathBuf::from("/cfg")));
    match choose_storage(&config) {
        StorageChoice::Json(f) => assert_eq!(f.path(), &config.storage_path),
        StorageChoice::Sqlite(_) => panic!("expected the JSON file"),
    }
    config.storage_backend = StorageBackend::Sqlite;
    match choose_storage(&config) {
        StorageChoice::Sqlite(d) => assert_eq!(d.path(), &config.database_path),
        StorageChoice::Json(_) => panic!("expected the database"),
    }
}
