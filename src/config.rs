//! Configuration records, their defaults, and the known-device list.
//!
//! Reading and writing the TOML file is done at the edge; the records and
//! what is decided about them are here.
use vstd::prelude::*;

use crate::text::{append_chars, push_decimal, string_of, decimal};
use crate::{DEFAULT_FILEBROWSER_PORT, DEFAULT_WS_PORT};

verus! {

/// A filesystem path.
#[verifier::external_type_specification]
#[verifier::external_body]
pub struct ExPathBuf(std::path::PathBuf);

/// An I/O error.
#[verifier::external_type_specification]
#[verifier::external_body]
pub struct ExIoError(std::io::Error);

/// An error reading TOML.
#[verifier::external_type_specification]
#[verifier::external_body]
pub struct ExTomlDeError(toml::de::Error);

/// An error writing TOML.
#[verifier::external_type_specification]
#[verifier::external_body]
pub struct ExTomlSerError(toml::ser::Error);

/// Relies on `dirs::config_dir`: the platform's configuration directory, if
/// it has one.
pub assume_specification[ dirs::config_dir ]() -> Option<std::path::PathBuf>;

/// Relies on `PathBuf::join`: `base` with `name` appended as a component.
#[verifier::external_body]
fn join_path(base: &std::path::PathBuf, name: &str) -> std::path::PathBuf {
    base.join(name)
}

/// Why configuration could not be had.
#[derive(Debug)]
pub enum ConfigError {
    /// The file could not be read or written.
    ReadError(std::io::Error),
    /// The file is not a valid configuration.
    ParseError(toml::de::Error),
    /// The configuration could not be written as TOML.
    SerializeError(toml::ser::Error),
    /// The platform has no configuration directory.
    NoDirFound,
}

/// The whole configuration.
#[derive(Debug, Clone)]
pub struct Config {
    pub server: ServerConfig,
    pub client: ClientConfig,
    /// Known devices.
    pub devices: Vec<DeviceConfig>,
}

/// Configuration of the daemon.
#[derive(Debug, Clone)]
pub struct ServerConfig {
    /// Listen address.
    pub listen_addr: String,
    /// WebSocket port.
    pub ws_port: u16,
    /// Base URL of the file-management backend.
    pub filebrowser_url: String,
    /// Token secret, base64; a random one is made when absent.
    pub jwt_secret: Option<String>,
    /// Access token lifetime, seconds.
    pub access_token_ttl: u64,
    /// Refresh token lifetime, seconds.
    pub refresh_token_ttl: u64,
    /// Most file transfers at once.
    pub max_concurrent_transfers: u32,
    /// Seconds between load reports.
    pub load_report_interval: u64,
}

/// Configuration of the clients.
#[derive(Debug, Clone)]
pub struct ClientConfig {
    /// Device to connect to by default.
    pub default_device: Option<String>,
    pub theme: Theme,
    pub show_hidden: bool,
    pub confirm_delete: bool,
    /// Vim-style key bindings.
    pub vim_mode: bool,
    pub tui: TuiConfig,
    pub gui: GuiConfig,
}

/// A known device.
#[derive(Debug, Clone)]
pub struct DeviceConfig {
    /// Display name.
    pub name: String,
    /// WebSocket URL.
    pub url: String,
    pub username: Option<String>,
    pub device_type: DeviceType,
}

/// The kind of a device, for display.
#[derive(Debug, Clone, Copy, PartialEq, Eq, Structural)]
pub enum DeviceType {
    Generic,
    Nas,
    Camera,
    Sensor,
}

/// Colour theme.
#[derive(Debug, Clone, Copy, PartialEq, Eq, Structural)]
pub enum Theme {
    System,
    Light,
    Dark,
}

/// Terminal client settings.
#[derive(Debug, Clone, Copy, PartialEq, Eq, Structural)]
pub struct TuiConfig {
    /// 24-bit colour.
    pub true_color: bool,
    pub mouse: bool,
    /// Image preview (sixel / kitty).
    pub image_preview: bool,
}

/// Graphical client settings.
#[derive(Debug, Clone, Copy, PartialEq, Eq, Structural)]
pub struct GuiConfig {
    pub window_width: u32,
    pub window_height: u32,
    pub thumbnails: bool,
    /// Thumbnail cache size, MB.
    pub thumbnail_cache_mb: u32,
}

impl Default for DeviceType {
    fn default() -> (r: Self)
        ensures
            r == DeviceType::Generic,
    {
        DeviceType::Generic
    }
}

impl Default for Theme {
    fn default() -> (r: Self)
        ensures
            r == Theme::System,
    {
        Theme::System
    }
}

/// Default listen address: every interface.
pub fn default_listen_addr() -> (r: String)
    ensures
        r@ == "0.0.0.0"@,
{
    "0.0.0.0".to_string()
}

/// Default WebSocket port.
pub fn default_ws_port() -> (r: u16)
    ensures
        r == DEFAULT_WS_PORT,
{
    DEFAULT_WS_PORT
}

/// Default backend URL: the backend port on the loopback address.
pub fn default_filebrowser_url() -> (r: String)
    ensures
        r@ == "http://127.0.0.1:"@ + decimal(DEFAULT_FILEBROWSER_PORT as nat),
{
    let mut v: Vec<char> = Vec::new();
    append_chars(&mut v, "http://127.0.0.1:");
    push_decimal(&mut v, DEFAULT_FILEBROWSER_PORT as u64);
    string_of(&v)
}

/// Default access token lifetime: 15 minutes.
pub fn default_access_ttl() -> (r: u64)
    ensures
        r == 900,
{
    900
}

/// Default refresh token lifetime: 7 days.
pub fn default_refresh_ttl() -> (r: u64)
    ensures
        r == 604800,
{
    604800
}

/// Default bound on concurrent transfers.
pub fn default_max_transfers() -> (r: u32)
    ensures
        r == 3,
{
    3
}

/// Default seconds between load reports.
pub fn default_load_interval() -> (r: u64)
    ensures
        r == 5,
{
    5
}

/// `true`, the default of several switches.
pub fn default_true() -> (r: bool)
    ensures
        r,
{
    true
}

/// Default window width.
pub fn default_window_width() -> (r: u32)
    ensures
        r == 1200,
{
    1200
}

/// Default window height.
pub fn default_window_height() -> (r: u32)
    ensures
        r == 800,
{
    800
}

/// Default thumbnail cache size, MB.
pub fn default_thumb_cache() -> (r: u32)
    ensures
        r == 100,
{
    100
}

impl Default for ServerConfig {
    fn default() -> (r: Self)
        ensures
            r.listen_addr@ == "0.0.0.0"@,
            r.ws_port == DEFAULT_WS_PORT,
            r.filebrowser_url@ == "http://127.0.0.1:"@ + decimal(DEFAULT_FILEBROWSER_PORT as nat),
            r.jwt_secret is None,
            r.access_token_ttl == 900,
            r.refresh_token_ttl == 604800,
            r.max_concurrent_transfers == 3,
            r.load_report_interval == 5,
    {
        ServerConfig {
            listen_addr: default_listen_addr(),
            ws_port: default_ws_port(),
            filebrowser_url: default_filebrowser_url(),
            jwt_secret: None,
            access_token_ttl: default_access_ttl(),
            refresh_token_ttl: default_refresh_ttl(),
            max_concurrent_transfers: default_max_transfers(),
            load_report_interval: default_load_interval(),
        }
    }
}

impl Default for TuiConfig {
    fn default() -> (r: Self)
        ensures
            r == (TuiConfig { true_color: true, mouse: true, image_preview: false }),
    {
        TuiConfig { true_color: true, mouse: true, image_preview: false }
    }
}

impl Default for GuiConfig {
    fn default() -> (r: Self)
        ensures
            r == (GuiConfig {
                window_width: 1200,
                window_height: 800,
                thumbnails: true,
                thumbnail_cache_mb: 100,
            }),
    {
        GuiConfig {
            window_width: default_window_width(),
            window_height: default_window_height(),
            thumbnails: true,
            thumbnail_cache_mb: default_thumb_cache(),
        }
    }
}

impl Default for ClientConfig {
    fn default() -> (r: Self)
        ensures
            r.default_device is None,
            r.theme == Theme::System,
            !r.show_hidden,
            r.confirm_delete,
            r.vim_mode,
            r.tui == (TuiConfig { true_color: true, mouse: true, image_preview: false }),
            r.gui == (GuiConfig {
                window_width: 1200,
                window_height: 800,
                thumbnails: true,
                thumbnail_cache_mb: 100,
            }),
    {
        ClientConfig {
            default_device: None,
            theme: Theme::System,
            show_hidden: false,
            confirm_delete: true,
            vim_mode: true,
            tui: TuiConfig::default(),
            gui: GuiConfig::default(),
        }
    }
}

impl Default for Config {
    fn default() -> (r: Self)
        ensures
            r.server.ws_port == DEFAULT_WS_PORT,
            r.server.max_concurrent_transfers == 3,
            r.client.vim_mode,
            r.devices@.len() == 0,
    {
        Config { server: ServerConfig::default(), client: ClientConfig::default(), devices: Vec::new() }
    }
}

/// The index of the first device named `name`, if any.
pub open spec fn first_named(devices: Seq<DeviceConfig>, name: Seq<char>) -> Option<int> {
    if exists|i: int| 0 <= i < devices.len() && devices[i].name@ == name {
        Some(
            choose|i: int|
                0 <= i < devices.len() && devices[i].name@ == name && forall|j: int|
                    0 <= j < i ==> devices[j].name@ != name,
        )
    } else {
        None
    }
}

proof fn lemma_first_named(devices: Seq<DeviceConfig>, name: Seq<char>, i: int)
    requires
        0 <= i < devices.len(),
        devices[i].name@ == name,
        forall|j: int| 0 <= j < i ==> devices[j].name@ != name,
    ensures
        first_named(devices, name) == Some(i),
{
    let k = choose|k: int|
        0 <= k < devices.len() && devices[k].name@ == name && forall|j: int|
            0 <= j < k ==> devices[j].name@ != name;
    assert(0 <= k < devices.len() && devices[k].name@ == name && forall|j: int|
        0 <= j < k ==> devices[j].name@ != name);
    if k < i {
    } else if k > i {
    }
}

impl Config {
    /// The platform's configuration directory for this application.
    pub fn config_dir() -> (r: Result<std::path::PathBuf, ConfigError>)
        ensures
            r is Ok || r matches Err(ConfigError::NoDirFound),
    {
        match dirs::config_dir() {
            Some(base) => Ok(join_path(&base, "pibox")),
            None => Err(ConfigError::NoDirFound),
        }
    }

    /// The configuration file: `config.toml` in the configuration directory.
    pub fn config_path() -> (r: Result<std::path::PathBuf, ConfigError>)
        ensures
            r is Ok || r matches Err(ConfigError::NoDirFound),
    {
        match Self::config_dir() {
            Ok(dir) => Ok(join_path(&dir, "config.toml")),
            Err(e) => Err(e),
        }
    }

    /// The first device named `name`, if any.
    pub fn get_device(&self, name: &str) -> (r: Option<&DeviceConfig>)
        ensures
            match first_named(self.devices@, name@) {
                Some(i) => r == Some(&self.devices@[i]),
                None => r is None,
            },
    {
        for i in 0..self.devices.len()
            invariant
                forall|j: int| 0 <= j < i ==> self.devices@[j].name@ != name@,
        {
            if crate::text::str_eq(self.devices[i].name.as_str(), name) {
                proof {
                    lemma_first_named(self.devices@, name@, i as int);
                }
                return Some(&self.devices[i]);
            }
        }
        None
    }

    /// Replace the first device with the same name, or add the device at the
    /// end where none has it.
    pub fn upsert_device(&mut self, device: DeviceConfig)
        ensures
            match first_named(old(self).devices@, device.name@) {
                Some(i) => final(self).devices@ == old(self).devices@.update(i, device),
                None => final(self).devices@ == old(self).devices@.push(device),
            },
            final(self).server == old(self).server,
            final(self).client == old(self).client,
    {
        let n = self.devices.len();
        for i in 0..n
            invariant
                n == self.devices.len(),
                self.devices == old(self).devices,
                self.server == old(self).server,
                self.client == old(self).client,
                forall|j: int| 0 <= j < i ==> self.devices@[j].name@ != device.name@,
        {
            if crate::text::str_eq(self.devices[i].name.as_str(), device.name.as_str()) {
                proof {
                    lemma_first_named(self.devices@, device.name@, i as int);
                }
                self.devices.set(i, device);
                return;
            }
        }
        self.devices.push(device);
    }
}

} // verus!
