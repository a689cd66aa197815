//! What the user may set, and the place the program runs in.

use vstd::prelude::*;

verus! {

/// The settings of the window, each one optional.
#[derive(Debug, Clone, Copy, PartialEq, Eq)]
pub struct Window {
    pub size: Option<(u32, u32)>,
    pub min_size: Option<(u32, u32)>,
    pub max_size: Option<(u32, u32)>,
    pub resizable: Option<bool>,
}

/// The settings of the text pane, each one optional.
#[derive(Debug, Clone, Copy, PartialEq, Eq)]
pub struct TextUi {
    pub rows: Option<usize>,
    pub cursor: Option<usize>,
}

/// All settings.
#[derive(Debug, Clone, Copy, PartialEq, Eq)]
pub struct Settings {
    pub window: Window,
    pub textui: TextUi,
}

/// The user, the machine and the paths that the program works with.
#[derive(Debug)]
pub struct Environment {
    pub user: String,
    pub hostname: String,
    pub home_path: String,
    pub config_path: String,
    pub hosts_path: Option<String>,
    pub settings: Option<Settings>,
}

impl Settings {
    /// The settings in which nothing is set.
    pub open spec fn unset() -> Settings {
        Settings {
            window: Window { size: None, min_size: None, max_size: None, resizable: None },
            textui: TextUi { rows: None, cursor: None },
        }
    }

    /// The settings for this environment: those in which nothing is set
    /// where the directory of the configuration exists, none where it does
    /// not.
    pub fn from_env(_env: &Environment, dot_path_exists: bool) -> (settings: Option<Settings>)
        ensures
            settings == if dot_path_exists {
                Some(Settings::unset())
            } else {
                None
            },
    {
        if dot_path_exists {
            Some(Settings::default())
        } else {
            None
        }
    }
}

impl Default for Settings {
    fn default() -> (settings: Settings)
        ensures
            settings == Settings::unset(),
    {
        Settings {
            window: Window { size: None, min_size: None, max_size: None, resizable: None },
            textui: TextUi { rows: None, cursor: None },
        }
    }
}

impl Environment {
    /// The directory of the configuration, below the home directory.
    pub const CONFIG_PATH: &'static str = ".config/rsnitch-rs";

    /// The name of the file of the settings.
    pub const SETTINGS_FILE: &'static str = "settings.json";

    /// The name of the file of the hosts.
    pub const HOSTS_FILE: &'static str = "hosts.json";

    /// The path of the file of the hosts as it is written: the path that was
    /// given, else `hosts.json` in the directory of the configuration.
    pub open spec fn hosts_file_text(self) -> Seq<char> {
        match self.hosts_path {
            Some(path) => path@,
            None => self.config_path@ + "/"@ + "hosts.json"@,
        }
    }

    /// The same environment with its settings, given whether the directory
    /// of the configuration exists.
    pub fn dotfiles(self, dot_path_exists: bool) -> (env: Environment)
        ensures
            env.user == self.user,
            env.hostname == self.hostname,
            env.home_path == self.home_path,
            env.config_path == self.config_path,
            env.hosts_path == self.hosts_path,
            env.settings == if dot_path_exists {
                Some(Settings::unset())
            } else {
                None
            },
    {
        let settings = Settings::from_env(&self, dot_path_exists);
        Environment {
            user: self.user,
            hostname: self.hostname,
            home_path: self.home_path,
            config_path: self.config_path,
            hosts_path: self.hosts_path,
            settings,
        }
    }

    /// The path of the file from which the hosts are read: the path that was
    /// given, else `hosts.json` in the directory of the configuration.
    pub fn hosts_file(&self) -> (path: String)
        ensures
            path@ == self.hosts_file_text(),
    {
        match &self.hosts_path {
            Some(path) => path.clone(),
            None => {
                let mut path = self.config_path.clone();
                path.append("/");
                path.append(Self::HOSTS_FILE);
                path
            },
        }
    }
}

} // verus!
