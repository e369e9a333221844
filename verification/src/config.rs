//! The daemon's configuration (`~/.config/ddcd/config.toml`).

use vstd::prelude::*;
use vstd::string::*;
use crate::text::{path_join, path_join_spec};

verus! {

/// The whole configuration; each section falls back to its default.
#[derive(Debug)]
pub struct Config {
    pub daemon: DaemonConfig,
    pub fade: FadeConfig,
    pub backlight: BacklightConfig,
}

/// The `[daemon]` section.
#[derive(Debug)]
pub struct DaemonConfig {
    /// Override the Unix socket path. Empty = use the default socket path.
    pub socket_path: String,
}

/// The `[fade]` section.
#[derive(Debug, Clone, Copy)]
pub struct FadeConfig {
    /// Enable fade by default (a request can also ask for it).
    pub enabled: bool,
    pub duration_ms: u64,
    pub steps: u8,
}

/// The `[backlight]` section.
#[derive(Debug)]
pub struct BacklightConfig {
    /// Override backlight sysfs path. Empty = auto-detect.
    pub path: String,
}

/// The mathematical content of a [`Config`].
pub struct ConfigView {
    pub socket_path: Seq<char>,
    pub fade_enabled: bool,
    pub fade_duration_ms: u64,
    pub fade_steps: u8,
    pub backlight_path: Seq<char>,
}

impl View for Config {
    type V = ConfigView;

    open spec fn view(&self) -> ConfigView {
        ConfigView {
            socket_path: self.daemon.socket_path@,
            fade_enabled: self.fade.enabled,
            fade_duration_ms: self.fade.duration_ms,
            fade_steps: self.fade.steps,
            backlight_path: self.backlight.path@,
        }
    }
}

impl Clone for Config {
    fn clone(&self) -> (r: Self)
        ensures
            r@ == self@,
    {
        Config {
            daemon: DaemonConfig { socket_path: self.daemon.socket_path.clone() },
            fade: self.fade,
            backlight: BacklightConfig { path: self.backlight.path.clone() },
        }
    }
}

impl Default for Config {
    fn default() -> (r: Self)
        ensures
            r@ == (ConfigView {
                socket_path: Seq::empty(),
                fade_enabled: false,
                fade_duration_ms: 400,
                fade_steps: 20,
                backlight_path: Seq::empty(),
            }),
    {
        Config {
            daemon: DaemonConfig::default(),
            fade: FadeConfig::default(),
            backlight: BacklightConfig::default(),
        }
    }
}

impl Default for DaemonConfig {
    fn default() -> (r: Self)
        ensures
            r.socket_path@ == Seq::<char>::empty(),
    {
        DaemonConfig { socket_path: String::new() }
    }
}

impl Default for FadeConfig {
    fn default() -> (r: Self)
        ensures
            r.enabled == false,
            r.duration_ms == 400,
            r.steps == 20,
    {
        FadeConfig { enabled: false, duration_ms: 400, steps: 20 }
    }
}

impl Default for BacklightConfig {
    fn default() -> (r: Self)
        ensures
            r.path@ == Seq::<char>::empty(),
    {
        BacklightConfig { path: String::new() }
    }
}

/// Where the configuration file is: `ddcd/config.toml` under the user's
/// configuration directory, or `/etc/ddcd/config.toml` where there is none.
pub open spec fn config_path_spec(config_dir: Option<Seq<char>>) -> Seq<char> {
    match config_dir {
        Some(d) => path_join_spec(path_join_spec(d, "ddcd"@), "config.toml"@),
        None => "/etc/ddcd/config.toml"@,
    }
}

/// The path of the configuration file, given the user's configuration
/// directory, if any.
pub fn config_path(config_dir: Option<&str>) -> (r: String)
    ensures
        r@ == config_path_spec(match config_dir { Some(d) => Some(d@), None => None }),
{
    match config_dir {
        Some(d) => {
            proof {
                reveal_strlit("ddcd");
                reveal_strlit("config.toml");
            }
            let dir = path_join(d, "ddcd");
            path_join(dir.as_str(), "config.toml")
        },
        None => String::from_str("/etc/ddcd/config.toml"),
    }
}

} // verus!
