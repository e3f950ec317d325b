//! The bot's configuration.

use vstd::prelude::*;

verus! {

/// What the bot needs to know to log in.
#[derive(Debug)]
pub struct MatrixBotConfig {
    pub homeserver: String,
    pub username: String,
    pub password: String,
    pub statedir: Option<String>,
}

/// The name of the configuration file where nothing else is known.
pub open spec fn fallback_file() -> Seq<char> {
    "config.toml"@
}

/// The configuration file to read: the one that was asked for; failing that,
/// the one in the project's configuration directory; failing that,
/// `config.toml` in the working directory.
pub open spec fn chosen_file(asked: Option<String>, project_file: Option<String>) -> Seq<char> {
    match asked {
        Some(path) => path@,
        None => match project_file {
            Some(path) => path@,
            None => fallback_file(),
        },
    }
}

/// The directory for the bot's state: the configured one; failing that, the
/// project's data directory; failing that, the one under the home directory;
/// and none where there is no home directory either.
pub open spec fn chosen_state_dir(
    configured: Option<String>,
    project_dir: Option<String>,
    home_dir: Option<String>,
) -> Option<Seq<char>> {
    match configured {
        Some(dir) => Some(dir@),
        None => match project_dir {
            Some(dir) => Some(dir@),
            None => match home_dir {
                Some(dir) => Some(dir@),
                None => None,
            },
        },
    }
}

impl MatrixBotConfig {
    /// Chooses the configuration file to read: see [`chosen_file`].
    pub fn config_path(asked: Option<String>, project_file: Option<String>) -> (path: String)
        ensures
            path@ == chosen_file(asked, project_file),
    {
        match asked {
            Some(path) => path,
            None => match project_file {
                Some(path) => path,
                None => "config.toml".to_owned(),
            },
        }
    }

    /// Chooses the directory for the bot's state: see [`chosen_state_dir`].
    pub fn state_dir(&self, project_dir: Option<String>, home_dir: Option<String>) -> (dir: Option<
        String,
    >)
        ensures
            match dir {
                Some(path) => chosen_state_dir(self.statedir, project_dir, home_dir) == Some(
                    path@,
                ),
                None => chosen_state_dir(self.statedir, project_dir, home_dir) is None,
            },
    {
        match &self.statedir {
            Some(dir) => Some(dir.clone()),
            None => match project_dir {
                Some(dir) => Some(dir),
                None => home_dir,
            },
        }
    }
}

impl Default for MatrixBotConfig {
    /// The empty configuration.
    fn default() -> (config: MatrixBotConfig)
        ensures
            config.homeserver@.len() == 0,
            config.username@.len() == 0,
            config.password@.len() == 0,
            config.statedir is None,
    {
        MatrixBotConfig {
            homeserver: String::new(),
            username: String::new(),
            password: String::new(),
            statedir: None,
        }
    }
}

} // verus!
