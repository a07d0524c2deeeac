//! Runtime configuration: directories, logging, modules, secrets and task
//! settings, with lookup and update of a few keys by dotted name.
use vstd::prelude::*;
use vstd::string::{StrSliceExecFns, StringExecFns};
use crate::error::SigilError;
use crate::text::{join2, join3, same_text};

verus! {

#[derive(Debug)]
pub struct GeneralConfig {
    pub data_dir: String,
    pub config_dir: String,
    pub log_dir: String,
    pub default_shell: String,
    pub timeout_seconds: u64,
}

#[derive(Debug)]
pub struct LoggingConfig {
    pub level: String,
    pub format: String,
    pub file_enabled: bool,
    pub console_enabled: bool,
}

#[derive(Debug)]
pub struct SystemModuleConfig {
    pub enabled: bool,
    pub monitor_interval_seconds: u64,
    pub default_cpu_threshold: u8,
    pub default_memory_threshold: u8,
}

#[derive(Debug)]
pub struct AwsConfig {
    pub region: String,
    pub profile: Option<String>,
    pub access_key_id: Option<String>,
    pub secret_access_key: Option<String>,
}

#[derive(Debug)]
pub struct AzureConfig {
    pub subscription_id: Option<String>,
    pub tenant_id: Option<String>,
    pub client_id: Option<String>,
    pub client_secret: Option<String>,
}

#[derive(Debug)]
pub struct ProxmoxConfig {
    pub endpoint: String,
    pub username: String,
    pub password: Option<String>,
    pub token_id: Option<String>,
    pub token_secret: Option<String>,
    pub verify_ssl: bool,
}

#[derive(Debug)]
pub struct ModulesConfig {
    pub system: SystemModuleConfig,
    pub aws: Option<AwsConfig>,
    pub azure: Option<AzureConfig>,
    pub proxmox: Option<ProxmoxConfig>,
}

#[derive(Debug)]
pub struct SecretsConfig {
    pub backend: String,
    pub vault_endpoint: Option<String>,
    pub vault_token: Option<String>,
}

#[derive(Debug)]
pub struct TasksConfig {
    pub definitions_dir: String,
    pub state_dir: String,
    pub max_concurrent_tasks: usize,
    pub default_retry_count: u32,
    pub default_timeout_seconds: u64,
}

#[derive(Debug)]
pub struct Config {
    pub general: GeneralConfig,
    pub logging: LoggingConfig,
    pub modules: ModulesConfig,
    pub secrets: SecretsConfig,
    pub tasks: TasksConfig,
}

/// `rel` under directory `base`, with one `/` between them.
pub open spec fn path_join(base: Seq<char>, rel: Seq<char>) -> Seq<char> {
    if base.len() == 0 || base.last() == '/' {
        base + rel
    } else {
        base + "/"@ + rel
    }
}

/// Joins a relative path onto a directory.
pub fn join_path(base: &str, rel: &str) -> (r: String)
    ensures
        r@ == path_join(base@, rel@),
{
    let n = base.unicode_len();
    if n == 0 || base.get_char(n - 1) == '/' {
        join2(base, rel)
    } else {
        join3(base, "/", rel)
    }
}

/// The value shown for a dotted configuration key, if the key is known.
pub open spec fn config_value(c: Config, key: Seq<char>) -> Option<Seq<char>> {
    if key == "general.data_dir"@ {
        Some(c.general.data_dir@)
    } else if key == "general.default_shell"@ {
        Some(c.general.default_shell@)
    } else if key == "logging.level"@ {
        Some(c.logging.level@)
    } else {
        None
    }
}

/// Relies on dirs::home_dir: the current user's home directory, if one is
/// known, as text. It depends on the environment; nothing is promised of it.
#[verifier::external_body]
fn home_dir() -> (r: Option<String>) {
    dirs::home_dir().map(|p| p.display().to_string())
}

/// The home directory, or `/tmp` when none is known.
fn home_or_tmp() -> (r: String) {
    match home_dir() {
        Some(h) => h,
        None => String::from_str("/tmp"),
    }
}

/// The settings of a default configuration that do not depend on the home
/// directory.
pub open spec fn default_settings(r: Config) -> bool {
    &&& r.general.default_shell@ == "/bin/bash"@
    &&& r.general.timeout_seconds == 300
    &&& r.logging.level@ == "info"@
    &&& r.logging.format@ == "json"@
    &&& r.logging.file_enabled
    &&& r.logging.console_enabled
    &&& r.modules.system.enabled
    &&& r.modules.system.monitor_interval_seconds == 30
    &&& r.modules.system.default_cpu_threshold == 80
    &&& r.modules.system.default_memory_threshold == 85
    &&& r.modules.aws is None
    &&& r.modules.azure is None
    &&& r.modules.proxmox is None
    &&& r.secrets.backend@ == "env"@
    &&& r.secrets.vault_endpoint is None
    &&& r.secrets.vault_token is None
    &&& r.general.log_dir@ == path_join(r.general.data_dir@, "logs"@)
    &&& r.tasks.definitions_dir@ == path_join(r.general.config_dir@, "tasks"@)
    &&& r.tasks.state_dir@ == path_join(r.general.data_dir@, "state"@)
    &&& r.tasks.max_concurrent_tasks == 5
    &&& r.tasks.default_retry_count == 3
    &&& r.tasks.default_timeout_seconds == 600
}

impl Default for Config {
    /// The default configuration under the current user's home directory,
    /// or under `/tmp` when none is known.
    fn default() -> (r: Config)
        ensures
            default_settings(r),
    {
        let home = home_or_tmp();
        Config::with_home(home.as_str())
    }
}

impl Config {
    /// Where the configuration file lives under home directory `home`.
    pub fn config_path_in(home: &str) -> (r: String)
        ensures
            r@ == path_join(home@, ".config/sigil/config.toml"@),
    {
        join_path(home, ".config/sigil/config.toml")
    }

    /// Where the configuration file lives for the current user: under the
    /// home directory, or under `/tmp` when none is known.
    pub fn get_config_path() -> (r: String)
        ensures
            exists|home: Seq<char>| r@ == path_join(home, ".config/sigil/config.toml"@),
    {
        let home = home_or_tmp();
        Config::config_path_in(home.as_str())
    }

    /// The default configuration for a user whose home directory is `home`:
    /// configuration under `.config/sigil`, data under `.local/share/sigil`.
    pub fn with_home(home: &str) -> (r: Config)
        ensures
            r.general.config_dir@ == path_join(home@, ".config/sigil"@),
            r.general.data_dir@ == path_join(home@, ".local/share/sigil"@),
            default_settings(r),
    {
        let config_dir = join_path(home, ".config/sigil");
        let data_dir = join_path(home, ".local/share/sigil");
        let log_dir = join_path(data_dir.as_str(), "logs");
        let definitions_dir = join_path(config_dir.as_str(), "tasks");
        let state_dir = join_path(data_dir.as_str(), "state");
        Config {
            general: GeneralConfig {
                data_dir,
                config_dir,
                log_dir,
                default_shell: String::from_str("/bin/bash"),
                timeout_seconds: 300,
            },
            logging: LoggingConfig {
                level: String::from_str("info"),
                format: String::from_str("json"),
                file_enabled: true,
                console_enabled: true,
            },
            modules: ModulesConfig {
                system: SystemModuleConfig {
                    enabled: true,
                    monitor_interval_seconds: 30,
                    default_cpu_threshold: 80,
                    default_memory_threshold: 85,
                },
                aws: None,
                azure: None,
                proxmox: None,
            },
            secrets: SecretsConfig {
                backend: String::from_str("env"),
                vault_endpoint: None,
                vault_token: None,
            },
            tasks: TasksConfig {
                definitions_dir,
                state_dir,
                max_concurrent_tasks: 5,
                default_retry_count: 3,
                default_timeout_seconds: 600,
            },
        }
    }

    /// The value of a dotted key: `general.data_dir`,
    /// `general.default_shell` or `logging.level`; `None` for other keys.
    pub fn get_value(&self, key: &str) -> (r: Option<String>)
        ensures
            match config_value(*self, key@) {
                Some(v) => r matches Some(s) && s@ == v,
                None => r is None,
            },
    {
        if same_text(key, "general.data_dir") {
            Some(self.general.data_dir.clone())
        } else if same_text(key, "general.default_shell") {
            Some(self.general.default_shell.clone())
        } else if same_text(key, "logging.level") {
            Some(self.logging.level.clone())
        } else {
            None
        }
    }

    /// Sets `general.default_shell` or `logging.level`; any other key fails
    /// with `InvalidConfig` and leaves the configuration as it was.
    pub fn set_value(&mut self, key: &str, value: &str) -> (r: Result<(), SigilError>)
        ensures
            key@ == "general.default_shell"@ ==> {
                &&& r is Ok
                &&& final(self).general.default_shell@ == value@
                &&& final(self).general.data_dir == old(self).general.data_dir
                &&& final(self).general.config_dir == old(self).general.config_dir
                &&& final(self).general.log_dir == old(self).general.log_dir
                &&& final(self).general.timeout_seconds == old(self).general.timeout_seconds
                &&& final(self).logging == old(self).logging
            },
            key@ == "logging.level"@ ==> {
                &&& r is Ok
                &&& final(self).logging.level@ == value@
                &&& final(self).logging.format == old(self).logging.format
                &&& final(self).logging.file_enabled == old(self).logging.file_enabled
                &&& final(self).logging.console_enabled == old(self).logging.console_enabled
                &&& final(self).general == old(self).general
            },
            key@ != "general.default_shell"@ && key@ != "logging.level"@ ==> {
                &&& *final(self) == *old(self)
                &&& r matches Err(SigilError::InvalidConfig { field, reason }) && field@ == key@
                    && reason@ == "Unknown configuration key"@
            },
            final(self).modules == old(self).modules,
            final(self).secrets == old(self).secrets,
            final(self).tasks == old(self).tasks,
    {
        proof {
            reveal_strlit("general.default_shell");
            reveal_strlit("logging.level");
            assert("logging.level"@.len() != "general.default_shell"@.len());
        }
        if same_text(key, "general.default_shell") {
            self.general.default_shell = String::from_str(value);
            Ok(())
        } else if same_text(key, "logging.level") {
            self.logging.level = String::from_str(value);
            Ok(())
        } else {
            Err(
                SigilError::InvalidConfig {
                    field: String::from_str(key),
                    reason: String::from_str("Unknown configuration key"),
                },
            )
        }
    }
}

} // verus!
