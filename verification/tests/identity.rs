use peekaboo::identity::{config_dir, config_path, UserData, CONFIG_DIR_NAME, CONFIG_FILE_NAME};

#[test]
fn record_lives_under_the_home_directory() {
    assert_eq!(config_dir("/home/ada"), "/home/ada/Peekaboo");
    assert_eq!(config_path("/home/ada"), "/home/ada/Peekaboo/config.json");
}

#[test]
fn record_path_lies_in_the_record_directory() {
    let home = "/Users/grace hopper";
    assert_eq!(config_path(home), format!("{}/{}", config_dir(home), CONFIG_FILE_NAME));
    assert_eq!(config_dir(home), format!("{}/{}", home, CONFIG_DIR_NAME));
}

#[test]
fn record_path_of_an_empty_home() {
    assert_eq!(config_path(""), "/Peekaboo/config.json");
}

#[test]
fn user_data_keeps_the_name() {
    assert_eq!(UserData::new("Ada".to_string()).name, "Ada");
    assert_eq!(UserData::new(String::new()).name, "");
}
