use xi_config::manager::ConfigManager;
use xi_config::reload::{has_config_extension, is_syntax_file, load_syntax_configs, ConfigFile, FsEvent, Reload};
use xi_config::syntax::SyntaxDefinition;
use xi_config::value::Value;

fn file(path: &str, contents: Option<&str>) -> ConfigFile {
    ConfigFile { path: String::from(path), contents: contents.map(String::from) }
}

#[test]
fn only_configuration_files_are_loaded() {
    assert_eq!(FsEvent::Created(String::from("/conf/rust.xiconfig")).config_file(), Some("/conf/rust.xiconfig"));
    assert_eq!(FsEvent::Modified(String::from("preferences.xiconfig")).config_file(), Some("preferences.xiconfig"));
    assert_eq!(FsEvent::Modified(String::from("/conf/rust.toml")).config_file(), None);
    assert_eq!(FsEvent::Created(String::from("/conf/xiconfig")).config_file(), None);
    assert_eq!(FsEvent::Other.config_file(), None);
    assert!(has_config_extension("a.xiconfig"));
    assert!(!has_config_extension("a.xiconfig.bak"));
}

#[test]
fn a_preferences_event_replaces_the_global_user_layer_only() {
    let mut manager = ConfigManager::new(false, None).unwrap();
    manager.set_user_syntax(SyntaxDefinition::Rust, xi_config::parse::load_config("tab_size = 31").unwrap());
    manager.set_override("tab_size", Value::from(67), xi_config::tabs::BufferIdentifier::new(1), true);
    let outcome = manager.handle_fs_event(
        FsEvent::Modified(String::from("/conf/preferences.xiconfig")),
        Some("tab_size = 42"),
    );
    assert_eq!(outcome, Reload::Defaults);
    assert_eq!(manager.get_config(None, None).unwrap().tab_size, 42);
    assert!(matches!(manager.defaults().user().as_ref().unwrap().get("tab_size"), Some(Value::Integer(42))));
    assert!(matches!(manager.defaults().base().as_ref().unwrap().get("tab_size"), Some(Value::Integer(4))));
    assert_eq!(manager.get_config(Some(SyntaxDefinition::Rust), None).unwrap().tab_size, 31);
    assert_eq!(manager.get_config(Some(SyntaxDefinition::Yaml), None).unwrap().tab_size, 2);
    assert!(manager.syntax_pair(SyntaxDefinition::Yaml).unwrap().user().is_none());
    assert_eq!(manager.syntax_pair(SyntaxDefinition::Rust).unwrap().cache().len(), 1);
    assert_eq!(
        manager.get_config(None, Some(xi_config::tabs::BufferIdentifier::new(1))).unwrap().tab_size,
        67
    );
}

#[test]
fn a_syntax_event_makes_or_replaces_the_syntax_user_layer() {
    let mut manager = ConfigManager::new(false, None).unwrap();
    let outcome = manager.handle_fs_event(FsEvent::Created(String::from("go.xiconfig")), Some("tab_size = 8"));
    assert_eq!(outcome, Reload::Syntax(SyntaxDefinition::Go));
    assert_eq!(manager.get_config(Some(SyntaxDefinition::Go), None).unwrap().tab_size, 8);
    let outcome = manager.handle_fs_event(
        FsEvent::Modified(String::from("/conf/yaml.xiconfig")),
        Some("translate_tabs_to_spaces = false"),
    );
    assert_eq!(outcome, Reload::Syntax(SyntaxDefinition::Yaml));
    let config = manager.get_config(Some(SyntaxDefinition::Yaml), None).unwrap();
    assert_eq!(config.tab_size, 2);
    assert!(!config.translate_tabs_to_spaces);
    assert_eq!(manager.get_config(None, None).unwrap().tab_size, 4);
}

#[test]
fn an_unknown_name_changes_nothing() {
    let mut manager = ConfigManager::new(false, None).unwrap();
    let outcome =
        manager.handle_fs_event(FsEvent::Modified(String::from("/conf/klingon.xiconfig")), Some("tab_size = 9"));
    assert_eq!(outcome, Reload::UnknownName);
    assert_eq!(manager.get_config(None, None).unwrap().tab_size, 4);
    assert!(manager.defaults().user().is_none());
    for syntax in [SyntaxDefinition::Plaintext, SyntaxDefinition::Rust, SyntaxDefinition::Go] {
        assert!(manager.syntax_pair(syntax).is_none());
    }
    assert!(manager.syntax_pair(SyntaxDefinition::Yaml).unwrap().user().is_none());
}

#[test]
fn a_file_that_does_not_parse_keeps_the_old_settings() {
    let mut manager = ConfigManager::new(false, None).unwrap();
    let path = String::from("/conf/preferences.xiconfig");
    assert_eq!(manager.handle_fs_event(FsEvent::Created(path.clone()), Some("tab_size = 42")), Reload::Defaults);
    assert_eq!(manager.handle_fs_event(FsEvent::Modified(path.clone()), Some("tab_size = = 1")), Reload::Failed);
    assert_eq!(manager.get_config(None, None).unwrap().tab_size, 42);
    assert_eq!(manager.handle_fs_event(FsEvent::Modified(path.clone()), None), Reload::Failed);
    assert_eq!(manager.get_config(None, None).unwrap().tab_size, 42);
    // a failure is reported before the name is looked at
    assert_eq!(
        manager.handle_fs_event(FsEvent::Modified(String::from("klingon.xiconfig")), Some("= =")),
        Reload::Failed
    );
}

#[test]
fn other_events_are_ignored() {
    let mut manager = ConfigManager::new(false, None).unwrap();
    assert_eq!(manager.handle_fs_event(FsEvent::Other, Some("tab_size = 42")), Reload::Ignored);
    assert_eq!(
        manager.handle_fs_event(FsEvent::Modified(String::from("/conf/preferences.toml")), Some("tab_size = 42")),
        Reload::Ignored
    );
    assert_eq!(manager.get_config(None, None).unwrap().tab_size, 4);
}

#[test]
fn the_files_of_a_directory_are_sorted_out() {
    assert!(is_syntax_file("/conf/rust.xiconfig"));
    assert!(!is_syntax_file("/conf/preferences.xiconfig"));
    assert!(!is_syntax_file("/conf/rust.toml"));
    let files = vec![
        file("/conf/preferences.xiconfig", Some("tab_size = 42")),
        file("/conf/rust.xiconfig", Some("tab_size = 31")),
        file("/conf/notes.txt", Some("hello")),
        file("/conf/klingon.xiconfig", Some("tab_size = 1")),
        file("/conf/go.xiconfig", Some("tab_size = = 1")),
        file("/conf/c.xiconfig", None),
        file("/conf/yaml.xiconfig", Some("tab_size = 3")),
        file("/conf/klingon2.xiconfig", Some("= =")),
    ];
    let (configs, outcomes) = load_syntax_configs(&files);
    assert_eq!(
        outcomes,
        vec![
            Reload::Ignored,
            Reload::Syntax(SyntaxDefinition::Rust),
            Reload::Ignored,
            Reload::UnknownName,
            Reload::Failed,
            Reload::Failed,
            Reload::Syntax(SyntaxDefinition::Yaml),
            Reload::UnknownName,
        ]
    );
    assert_eq!(configs.len(), 2);
    assert_eq!(configs[0].0, SyntaxDefinition::Rust);
    assert!(matches!(configs[0].1.get("tab_size"), Some(Value::Integer(31))));
    assert_eq!(configs[1].0, SyntaxDefinition::Yaml);
}

#[test]
fn set_config_dir_loads_what_it_can() {
    let mut manager = ConfigManager::new(false, None).unwrap();
    manager.set_user_defaults(xi_config::parse::load_config("tab_size = 9").unwrap());
    let files = vec![
        file("/conf/rust.xiconfig", Some("tab_size = 31")),
        file("/conf/klingon.xiconfig", Some("tab_size = 1")),
        file("/conf/yaml.xiconfig", Some("newline = \"\\r\\n\"")),
    ];
    let outcomes = manager.set_config_dir("/conf", Some("tab_size = = 42"), &files);
    assert_eq!(
        outcomes,
        vec![Reload::Syntax(SyntaxDefinition::Rust), Reload::UnknownName, Reload::Syntax(SyntaxDefinition::Yaml)]
    );
    assert_eq!(manager.config_dir().as_deref(), Some("/conf"));
    // the preferences did not parse, so the user has no settings for every buffer
    assert!(manager.defaults().user().as_ref().unwrap().is_empty());
    let config = manager.get_config(None, None).unwrap();
    assert_eq!(config.tab_size, 4);
    assert_eq!(config.plugin_search_path, vec![String::from("/conf/plugins")]);
    assert_eq!(manager.get_config(Some(SyntaxDefinition::Rust), None).unwrap().tab_size, 31);
    let yaml = manager.get_config(Some(SyntaxDefinition::Yaml), None).unwrap();
    assert_eq!(yaml.tab_size, 2);
    assert_eq!(yaml.newline, "\r\n");
}

#[test]
fn set_config_dir_reads_the_preferences() {
    let mut manager = ConfigManager::new(false, None).unwrap();
    let outcomes = manager.set_config_dir("conf", Some("tab_size = 42"), &Vec::new());
    assert!(outcomes.is_empty());
    assert_eq!(manager.get_config(None, None).unwrap().tab_size, 42);
    assert_eq!(manager.get_config(Some(SyntaxDefinition::Yaml), None).unwrap().tab_size, 2);
}
