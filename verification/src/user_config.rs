//! The user's configuration and the rules for finding and loading it.

use std::path::Path;
use vstd::prelude::*;
use vstd::string::*;

verus! {

/// What the configuration file holds.
#[derive(Debug, PartialEq, Eq)]
pub struct ConfigData {
    pub redmine_key: String,
    pub redmine_url: String,
    pub default_close_status: Option<String>,
}

impl Clone for ConfigData {
    fn clone(&self) -> (copy: ConfigData)
        ensures
            copy == *self,
    {
        let default_close_status = match &self.default_close_status {
            Some(name) => Some(name.clone()),
            None => None,
        };
        ConfigData {
            redmine_key: self.redmine_key.clone(),
            redmine_url: self.redmine_url.clone(),
            default_close_status,
        }
    }
}

/// A loaded configuration together with the location it was read from.
#[derive(Debug, PartialEq, Eq)]
pub struct Config {
    pub data: ConfigData,
    pub path: String,
}

impl Clone for Config {
    fn clone(&self) -> (copy: Config)
        ensures
            copy == *self,
    {
        Config { data: self.data.clone(), path: self.path.clone() }
    }
}

impl Config {
    pub fn new(data: ConfigData, path: String) -> (config: Config)
        ensures
            config.data == data,
            config.path == path,
    {
        Config { data, path }
    }

    pub fn path(&self) -> (path: &str)
        ensures
            path@ == self.path@,
    {
        self.path.as_str()
    }

    pub fn redmine_key(&self) -> (key: &str)
        ensures
            key@ == self.data.redmine_key@,
    {
        self.data.redmine_key.as_str()
    }

    pub fn redmine_url(&self) -> (url: &str)
        ensures
            url@ == self.data.redmine_url@,
    {
        self.data.redmine_url.as_str()
    }

    pub fn default_close_status(&self) -> (name: Option<&str>)
        ensures
            match name {
                Some(n) => self.data.default_close_status matches Some(d) && n@ == d@,
                None => self.data.default_close_status is None,
            },
    {
        match &self.data.default_close_status {
            Some(d) => Some(d.as_str()),
            None => None,
        }
    }
}

/// Why no configuration could be had.
#[derive(Debug, PartialEq, Eq)]
pub enum ConfigError {
    /// The file was found but could not be read; carries the reader's words.
    Loading(String),
    /// The file was read but is not a valid configuration; carries the
    /// decoder's words.
    Parsing(String),
    /// No candidate location holds a file; carries every location tried, in
    /// the order tried.
    NoConfigFile { searched_paths: Vec<String> },
}

/// How a list of paths reads in a message: what the standard `{:?}`
/// formatting gives for it.
pub uninterp spec fn debug_list(paths: Seq<Seq<char>>) -> Seq<char>;

/// The character sequences of a list of strings.
pub open spec fn texts(paths: Seq<String>) -> Seq<Seq<char>> {
    Seq::new(paths.len(), |i: int| paths[i]@)
}

/// Formats the list with the standard library's `Debug` rendering of a
/// vector of strings. The contract only names the text.
#[verifier::external_body]
fn format_debug_list(paths: &Vec<String>) -> (text: String)
    ensures
        text@ == debug_list(texts(paths@)),
{
    format!("{:?}", paths)
}

impl ConfigError {
    /// The message as a function of the error's contents.
    pub open spec fn message_text(&self) -> Seq<char> {
        "Configuration error: "@ + match self {
            ConfigError::Loading(cause) => cause@,
            ConfigError::Parsing(cause) => cause@,
            ConfigError::NoConfigFile { searched_paths } => {
                "Unable to find a config file. Searched paths: "@ + debug_list(
                    texts(searched_paths@),
                )
            },
        }
    }

    /// The message for a search that found no file, given the rendering of
    /// the list of paths tried.
    pub fn not_found_message(list: &str) -> (text: String)
        ensures
            text@ == "Configuration error: "@ + (
            "Unable to find a config file. Searched paths: "@ + list@),
    {
        let mut tail = String::from_str("Unable to find a config file. Searched paths: ");
        tail.append(list);
        let mut text = String::from_str("Configuration error: ");
        text.append(tail.as_str());
        text
    }

    /// The text shown to the user.
    pub fn message(&self) -> (text: String)
        ensures
            text@ == self.message_text(),
    {
        match self {
            ConfigError::Loading(cause) => {
                let mut text = String::from_str("Configuration error: ");
                text.append(cause.as_str());
                text
            },
            ConfigError::Parsing(cause) => {
                let mut text = String::from_str("Configuration error: ");
                text.append(cause.as_str());
                text
            },
            ConfigError::NoConfigFile { searched_paths } => {
                let list = format_debug_list(searched_paths);
                Self::not_found_message(list.as_str())
            },
        }
    }

    /// A fixed one-line description of the kind of failure.
    pub fn description(&self) -> (text: &'static str)
        ensures
            text@ == match self {
                ConfigError::Loading(_) => "configuration error: error loading config file"@,
                ConfigError::Parsing(_) => "configuration error: syntax error on config file"@,
                ConfigError::NoConfigFile { .. } => "Unable to find a config file"@,
            },
    {
        match self {
            ConfigError::Loading(_) => "configuration error: error loading config file",
            ConfigError::Parsing(_) => "configuration error: syntax error on config file",
            ConfigError::NoConfigFile { .. } => "Unable to find a config file",
        }
    }
}

/// What became of an attempt to read and decode the file at a found location.
#[derive(Debug, PartialEq, Eq)]
pub enum LoadOutcome {
    /// Opening or reading failed.
    Unreadable(String),
    /// The contents could not be decoded.
    Malformed(String),
    /// The contents decoded to this data.
    Decoded(ConfigData),
}

/// The paths of the probes, in probe order.
pub open spec fn probed_paths(probes: Seq<(String, bool)>) -> Seq<String> {
    Seq::new(probes.len(), |i: int| probes[i].0)
}

/// Index of the first probe that found a file, if any did.
pub open spec fn first_existing(probes: Seq<(String, bool)>) -> Option<int>
    decreases probes.len(),
{
    if probes.len() == 0 {
        None
    } else if probes[0].1 {
        Some(0)
    } else {
        match first_existing(probes.drop_first()) {
            Some(i) => Some(i + 1),
            None => None,
        }
    }
}

/// `first_existing` names an existing probe with none before it, and is
/// `None` only when no probe found a file.
pub proof fn lemma_first_existing(probes: Seq<(String, bool)>)
    ensures
        match first_existing(probes) {
            Some(i) => 0 <= i < probes.len() && probes[i].1 && forall|j: int|
                0 <= j < i ==> !probes[j].1,
            None => forall|j: int| 0 <= j < probes.len() ==> !probes[j].1,
        },
    decreases probes.len(),
{
    if probes.len() > 0 && !probes[0].1 {
        let rest = probes.drop_first();
        lemma_first_existing(rest);
        match first_existing(rest) {
            Some(i) => {
                assert(rest[i] == probes[i + 1]);
                assert forall|j: int| 0 <= j < i + 1 implies !probes[j].1 by {
                    if j > 0 {
                        assert(rest[j - 1] == probes[j]);
                    }
                }
            },
            None => {
                assert forall|j: int| 0 <= j < probes.len() implies !probes[j].1 by {
                    if j > 0 {
                        assert(rest[j - 1] == probes[j]);
                    }
                }
            },
        }
    }
}

/// Picks the configuration file among the probed locations. `probes` lists
/// the candidate paths from the working directory upward, each with whether a
/// file exists there. The first existing one is chosen; if none exists, every
/// path tried comes back, in order, for the error report.
pub fn first_user_config(probes: Vec<(String, bool)>) -> (found: Result<String, Vec<String>>)
    ensures
        match found {
            Ok(path) => first_existing(probes@) matches Some(i) && path == probes@[i].0,
            Err(tried) => first_existing(probes@) is None && tried@ == probed_paths(probes@),
        },
{
    let mut tried: Vec<String> = Vec::new();
    let mut i: usize = 0;
    proof {
        lemma_first_existing(probes@);
    }
    while i < probes.len()
        invariant
            i <= probes.len(),
            tried@ == probed_paths(probes@).take(i as int),
            forall|j: int| 0 <= j < i ==> !probes@[j].1,
            match first_existing(probes@) {
                Some(k) => 0 <= k < probes.len() && probes@[k].1 && forall|j: int|
                    0 <= j < k ==> !probes@[j].1,
                None => forall|j: int| 0 <= j < probes.len() ==> !probes@[j].1,
            },
        decreases probes.len() - i,
    {
        if probes[i].1 {
            return Ok(probes[i].0.clone());
        }
        tried.push(probes[i].0.clone());
        assert(tried@ =~= probed_paths(probes@).take(i + 1));
        i += 1;
    }
    assert(probed_paths(probes@).take(i as int) =~= probed_paths(probes@));
    Err(tried)
}

/// Name of the configuration file looked for in each directory.
pub fn config_file_name() -> (name: &'static str)
    ensures
        name@ == ".rdm.json"@,
{
    ".rdm.json"
}

/// A path and the directories above it, nearest first: what
/// `std::path::Path::ancestors` yields for it.
pub uninterp spec fn path_ancestors(path: Seq<char>) -> Seq<Seq<char>>;

/// Walks `Path::ancestors` of the path that `path` spells and hands each
/// ancestor back as text, in the order yielded. The contract only names the
/// list.
#[verifier::external_body]
fn ancestors(path: &str) -> (above: Vec<String>)
    ensures
        texts(above@) == path_ancestors(path@),
{
    let mut above = Vec::new();
    for dir in Path::new(path).ancestors() {
        above.push(dir.to_string_lossy().into_owned());
    }
    above
}

/// The path of the entry `name` in the directory `dir`: what
/// `std::path::Path::join` gives.
pub uninterp spec fn path_joined(dir: Seq<char>, name: Seq<char>) -> Seq<char>;

/// Calls `Path::join` and hands the result back as text. The contract only
/// names it.
#[verifier::external_body]
fn join_path(dir: &str, name: &str) -> (joined: String)
    ensures
        joined@ == path_joined(dir@, name@),
{
    Path::new(dir).join(name).to_string_lossy().into_owned()
}

/// The locations searched for a configuration when working in `dir`: the
/// file of the fixed name in `dir` itself, then in each directory above it,
/// up to the root.
pub open spec fn candidates_of(dir: Seq<char>) -> Seq<Seq<char>> {
    Seq::new(
        path_ancestors(dir).len(),
        |i: int| path_joined(path_ancestors(dir)[i], ".rdm.json"@),
    )
}

/// Lists the locations to probe, nearest first.
pub fn candidate_paths(dir: &str) -> (candidates: Vec<String>)
    ensures
        texts(candidates@) == candidates_of(dir@),
{
    let above = ancestors(dir);
    let mut candidates: Vec<String> = Vec::new();
    let mut i: usize = 0;
    assert(texts(above@).len() == above@.len());
    while i < above.len()
        invariant
            i <= above.len(),
            candidates@.len() == i,
            texts(above@) == path_ancestors(dir@),
            texts(above@).len() == above@.len(),
            forall|j: int| 0 <= j < i ==> candidates@[j]@ == candidates_of(dir@)[j],
        decreases above.len() - i,
    {
        let candidate = join_path(above[i].as_str(), config_file_name());
        assert(texts(above@)[i as int] == above@[i as int]@);
        candidates.push(candidate);
        i += 1;
    }
    assert(texts(candidates@) =~= candidates_of(dir@));
    candidates
}

/// Locates the configuration file among the probed locations, or reports
/// the search as failed with every path that was tried.
pub fn locate(probes: Vec<(String, bool)>) -> (found: Result<String, ConfigError>)
    ensures
        match found {
            Ok(path) => first_existing(probes@) matches Some(i) && path == probes@[i].0,
            Err(error) => {
                &&& first_existing(probes@) is None
                &&& error matches ConfigError::NoConfigFile { searched_paths }
                &&& searched_paths@ == probed_paths(probes@)
            },
        },
{
    match first_user_config(probes) {
        Ok(path) => Ok(path),
        Err(tried) => Err(ConfigError::NoConfigFile { searched_paths: tried }),
    }
}

/// Turns the outcome of loading the file found at `path` into the
/// configuration or the error that reports it.
pub fn load(path: String, outcome: LoadOutcome) -> (loaded: Result<Config, ConfigError>)
    ensures
        loaded == match outcome {
            LoadOutcome::Unreadable(cause) => Err::<Config, ConfigError>(
                ConfigError::Loading(cause),
            ),
            LoadOutcome::Malformed(cause) => Err(ConfigError::Parsing(cause)),
            LoadOutcome::Decoded(data) => Ok(Config { data, path }),
        },
{
    match outcome {
        LoadOutcome::Unreadable(cause) => Err(ConfigError::Loading(cause)),
        LoadOutcome::Malformed(cause) => Err(ConfigError::Parsing(cause)),
        LoadOutcome::Decoded(data) => Ok(Config { data, path }),
    }
}

} // verus!
