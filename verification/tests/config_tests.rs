use std::path::PathBuf;

use fee_backcalc::{config_base_dir, config_dir, config_path};

#[test]
fn config_dir_uses_fee_backcalc_directory() {
    let path = config_dir(&config_base_dir(None, None));

    assert!(path.to_string_lossy().contains("fee-backcalc"));
}

#[test]
fn config_path_uses_fee_backcalc_directory() {
    let path = config_path(&config_base_dir(None, None));

    assert!(path.to_string_lossy().contains("fee-backcalc"));
}

#[test]
fn config_dir_extends_the_base_directory() {
    let base = PathBuf::from("data");
    let dir = config_dir(&base);
    let text = dir.to_string_lossy();
    assert!(text.starts_with("data"));
    assert!(text.ends_with("fee-backcalc"));
    assert!(text.len() <= "data".len() + 1 + "fee-backcalc".len());
}

#[test]
fn config_path_ends_with_the_settings_file() {
    let base = PathBuf::from("data");
    let path = config_path(&base);
    let text = path.to_string_lossy();
    assert!(text.starts_with("data"));
    assert!(text.ends_with("config.json"));
    assert!(text.contains("fee-backcalc"));
    assert_eq!(path.parent(), Some(config_dir(&base).as_path()));
}

#[test]
fn base_dir_falls_back_to_app_data_then_current_dir_then_dot() {
    let app_data = PathBuf::from("appdata");
    let current = PathBuf::from("current");
    assert_eq!(config_base_dir(Some(app_data.clone()), Some(current.clone())), app_data);
    assert_eq!(config_base_dir(None, Some(current.clone())), current);
    assert_eq!(config_base_dir(None, None).to_string_lossy(), ".");
}

#[test]
fn config_path_puts_one_separator_between_each_part() {
    let text = config_path(&config_base_dir(None, None)).to_string_lossy().into_owned();
    let chars: Vec<char> = text.chars().collect();
    assert_eq!(chars.len(), 1 + 1 + "fee-backcalc".len() + 1 + "config.json".len());
    assert_eq!(chars[0], '.');
    assert!(chars[1] == '/' || chars[1] == '\\');
    assert_eq!(&text[2..14], "fee-backcalc");
    assert!(chars[14] == '/' || chars[14] == '\\');
    assert_eq!(&text[15..], "config.json");
}
