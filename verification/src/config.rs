//! Cluster settings: queue, cores, parallel environment and VASP module used
//! for job scripts, with their defaults and how a settings file is resolved.

use vstd::prelude::*;

verus! {

/// Scheduler settings.
#[derive(Debug, Clone)]
pub struct ClusterConfig {
    pub scheduler: String,
    pub default_queue: String,
    pub default_cores: u32,
    pub parallel_env: String,
    pub vasp_module: String,
}

/// VASP settings.
#[derive(Debug, Clone)]
pub struct VaspConfig {
    pub default_executable: String,
}

/// All settings.
#[derive(Debug, Clone)]
pub struct Config {
    pub cluster: ClusterConfig,
    pub vasp: VaspConfig,
}

/// The settings used when no settings file can be read.
pub open spec fn is_default_config(c: Config) -> bool {
    &&& c.cluster.scheduler@ == "sge"@
    &&& c.cluster.default_queue@ == "long"@
    &&& c.cluster.default_cores == 64
    &&& c.cluster.parallel_env@ == "mpi-*"@
    &&& c.cluster.vasp_module@ == "vasp/6.4.0/"@
    &&& c.vasp.default_executable@ == "vasp_std"@
}

impl Default for Config {
    fn default() -> (r: Self)
        ensures
            is_default_config(r),
    {
        Config {
            cluster: ClusterConfig {
                scheduler: String::from_str("sge"),
                default_queue: String::from_str("long"),
                default_cores: 64,
                parallel_env: String::from_str("mpi-*"),
                vasp_module: String::from_str("vasp/6.4.0/"),
            },
            vasp: VaspConfig { default_executable: String::from_str("vasp_std") },
        }
    }
}

/// What reading the settings file produced.
pub enum ConfigSource {
    /// No file at the settings path.
    Missing,
    /// The file held valid settings.
    Parsed(Config),
    /// The file could be read but is not valid settings; the parser's message.
    InvalidJson(String),
    /// The file exists but could not be read; the reader's message.
    Unreadable(String),
}

/// `"Warning: " + path + middle + "(" + reason + "). Using defaults."`
pub open spec fn warning_text(path: Seq<char>, middle: Seq<char>, reason: Seq<char>) -> Seq<char> {
    "Warning: "@ + path + middle + " ("@ + reason + "). Using defaults."@
}

fn push_str(s: &mut String, t: &str)
    ensures
        final(s)@ == old(s)@ + t@,
{
    s.append(t);
}

fn warning(path: &str, middle: &str, reason: &str) -> (r: String)
    ensures
        r@ == warning_text(path@, middle@, reason@),
{
    let mut r = String::from_str("Warning: ");
    push_str(&mut r, path);
    push_str(&mut r, middle);
    push_str(&mut r, " (");
    push_str(&mut r, reason);
    push_str(&mut r, "). Using defaults.");
    assert(r@ =~= warning_text(path@, middle@, reason@));
    r
}

impl Config {
    /// Settings to use given what the settings file at `path` produced, with
    /// the warning to show and whether default settings should be written to
    /// that path. A file with invalid contents is never overwritten.
    pub fn load(path: &str, source: ConfigSource) -> (r: (Config, Option<String>, bool))
        ensures
            match source {
                ConfigSource::Parsed(c) => r.0 == c && r.1 is None && !r.2,
                ConfigSource::Missing => is_default_config(r.0) && r.1 is None && r.2,
                ConfigSource::InvalidJson(e) => is_default_config(r.0) && !r.2 && r.1 == Some(
                    r.1->0,
                ) && r.1->0@ == warning_text(path@, " has invalid JSON"@, e@),
                ConfigSource::Unreadable(e) => is_default_config(r.0) && !r.2 && r.1 == Some(
                    r.1->0,
                ) && r.1->0@ == warning_text("Could not read "@ + path@, ""@, e@),
            },
    {
        match source {
            ConfigSource::Parsed(c) => (c, None, false),
            ConfigSource::Missing => (Config::default(), None, true),
            ConfigSource::InvalidJson(e) => {
                let w = warning(path, " has invalid JSON", e.as_str());
                (Config::default(), Some(w), false)
            },
            ConfigSource::Unreadable(e) => {
                let mut p = String::from_str("Could not read ");
                push_str(&mut p, path);
                let w = warning(p.as_str(), "", e.as_str());
                (Config::default(), Some(w), false)
            },
        }
    }
}

} // verus!
