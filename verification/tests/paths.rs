use xi_config::paths::{config_dir_impl, extension, file_stem, get_config_dir, join, MissingHome};

#[test]
fn join_puts_one_separator_between() {
    assert_eq!(join("BASE_PATH", "plugins"), "BASE_PATH/plugins");
    assert_eq!(join("/me/config/", "xi"), "/me/config/xi");
    assert_eq!(join("", "xi"), "xi");
    assert_eq!(join("a", ""), "a/");
    assert_eq!(join("/", "xi"), "/xi");
}

#[test]
fn join_lets_an_absolute_path_stand() {
    assert_eq!(join("/conf", "/abs/plugins"), "/abs/plugins");
    assert_eq!(join("", "/abs"), "/abs");
}

#[test]
fn join_agrees_with_the_standard_library() {
    for (base, path) in [("BASE_PATH", "plugins"), ("/a/", "b"), ("", "b"), ("a", ""), ("a", "/b"), ("/", "b")] {
        let expected = std::path::Path::new(base).join(path);
        assert_eq!(std::path::PathBuf::from(join(base, path)).as_os_str(), expected.as_os_str());
    }
}

#[test]
fn extension_is_what_follows_the_last_dot_of_the_file_name() {
    assert_eq!(extension("/conf/rust.xiconfig"), Some(String::from("xiconfig")));
    assert_eq!(extension("a.b.xiconfig"), Some(String::from("xiconfig")));
    assert_eq!(extension("a."), Some(String::new()));
    assert_eq!(extension("/conf.d/rust"), None);
    assert_eq!(extension(".xiconfig"), None);
    assert_eq!(extension("/conf/.."), None);
    assert_eq!(extension(""), None);
    assert_eq!(extension("conf/"), None);
}

#[test]
fn file_stem_is_the_file_name_without_its_extension() {
    assert_eq!(file_stem("/conf/rust.xiconfig"), "rust");
    assert_eq!(file_stem("a.b.xiconfig"), "a.b");
    assert_eq!(file_stem("/conf.d/rust"), "rust");
    assert_eq!(file_stem(".xiconfig"), ".xiconfig");
    assert_eq!(file_stem("/conf/.."), "..");
    assert_eq!(file_stem("a."), "a");
    assert_eq!(file_stem(""), "");
}

#[test]
fn file_parts_agree_with_the_standard_library() {
    for path in ["/conf/rust.xiconfig", "a.b.xiconfig", "/conf.d/rust", ".xiconfig", "a.", "x/.y.z", "preferences.xiconfig"] {
        let std_path = std::path::Path::new(path);
        assert_eq!(extension(path), std_path.extension().map(|e| e.to_str().unwrap().to_string()));
        assert_eq!(file_stem(path), std_path.file_stem().unwrap().to_str().unwrap());
    }
}

#[test]
fn a_named_directory_wins() {
    assert_eq!(
        config_dir_impl(Some("custom/app/conf"), Some("/base"), Some("/home/me")),
        Ok(String::from("custom/app/conf"))
    );
    assert_eq!(config_dir_impl(Some("custom/app/conf"), None, None), Ok(String::from("custom/app/conf")));
}

#[test]
fn the_base_directory_comes_before_home() {
    assert_eq!(config_dir_impl(None, Some("/base"), Some("/home/me")), Ok(String::from("/base/xi")));
}

#[test]
fn home_is_the_last_resort() {
    assert_eq!(config_dir_impl(None, None, Some("/home/me")), Ok(String::from("/home/me/.config/xi")));
    assert_eq!(config_dir_impl(None, None, Some("/home/me/")), Ok(String::from("/home/me/.config/xi")));
}

#[test]
fn without_home_there_is_no_directory() {
    assert_eq!(config_dir_impl(None, None, None), Err(MissingHome));
}

#[test]
fn get_config_dir_takes_owned_values() {
    let xi = Some(String::from("custom/xi/conf"));
    let xdg = Some(String::from("/me/config"));
    let home = Some(String::from("/home/me"));
    assert_eq!(get_config_dir(&xi, &xdg, &home), Ok(String::from("custom/xi/conf")));
    assert_eq!(get_config_dir(&None, &xdg, &home), Ok(String::from("/me/config/xi")));
    assert_eq!(get_config_dir(&None, &None, &home), Ok(String::from("/home/me/.config/xi")));
    assert_eq!(get_config_dir(&None, &None, &None), Err(MissingHome));
}
