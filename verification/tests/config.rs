use matrix_bot::config::MatrixBotConfig;

#[test]
fn path_that_was_asked_for_wins() {
    let path = MatrixBotConfig::config_path(
        Some("/etc/bot.toml".to_string()),
        Some("/home/bot/.config/testbot/config.toml".to_string()),
    );
    assert_eq!(path, "/etc/bot.toml");
    assert_eq!(MatrixBotConfig::config_path(Some("bot.toml".to_string()), None), "bot.toml");
}

#[test]
fn project_file_is_the_second_choice() {
    let path = MatrixBotConfig::config_path(
        None,
        Some("/home/bot/.config/testbot/config.toml".to_string()),
    );
    assert_eq!(path, "/home/bot/.config/testbot/config.toml");
}

#[test]
fn config_toml_is_the_last_resort() {
    assert_eq!(MatrixBotConfig::config_path(None, None), "config.toml");
}

#[test]
fn default_config_is_empty() {
    let config = MatrixBotConfig::default();
    assert_eq!(config.homeserver, "");
    assert_eq!(config.username, "");
    assert_eq!(config.password, "");
    assert_eq!(config.statedir, None);
}

fn config(statedir: Option<&str>) -> MatrixBotConfig {
    MatrixBotConfig {
        homeserver: "https://localhost".to_string(),
        username: "example".to_string(),
        password: "wordpass".to_string(),
        statedir: statedir.map(String::from),
    }
}

#[test]
fn configured_state_dir_wins() {
    let dir = config(Some("/var/lib/bot")).state_dir(
        Some("/home/bot/.local/share/matrix-bot".to_string()),
        Some("/home/bot/.matrix-bot-state".to_string()),
    );
    assert_eq!(dir, Some("/var/lib/bot".to_string()));
    assert_eq!(config(Some("state")).state_dir(None, None), Some("state".to_string()));
}

#[test]
fn project_data_dir_is_the_second_choice() {
    let dir = config(None).state_dir(
        Some("/home/bot/.local/share/matrix-bot".to_string()),
        Some("/home/bot/.matrix-bot-state".to_string()),
    );
    assert_eq!(dir, Some("/home/bot/.local/share/matrix-bot".to_string()));
}

#[test]
fn home_state_dir_is_the_last_resort() {
    let dir = config(None).state_dir(None, Some("/home/bot/.matrix-bot-state".to_string()));
    assert_eq!(dir, Some("/home/bot/.matrix-bot-state".to_string()));
}

#[test]
fn no_state_dir_without_a_home() {
    assert_eq!(config(None).state_dir(None, None), None);
}
