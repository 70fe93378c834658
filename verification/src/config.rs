//! The configuration that the server keeps between runs, and the text of
//! the file that holds it.

use vstd::prelude::*;
use crate::json::{items_view, optional_text_member, text_view, Json, JsonValue};
use crate::paths::{join_path, joined_path};
use crate::text::{concat2, texts_view};
use crate::wire::{json_text, parsed_json};

verus! {

/// What the server remembers between runs: the directories it has been
/// shown, and the one that is active.
#[derive(Debug, PartialEq)]
pub struct Config {
    /// The known directories, in the order in which they were added.
    pub directories: Vec<String>,
    /// The directory whose documents are offered, where one is chosen.
    pub active_directory: Option<String>,
}

/// What a [`Config`] holds, as mathematical values.
pub struct ConfigView {
    pub directories: Seq<Seq<char>>,
    pub active_directory: Option<Seq<char>>,
}

impl View for Config {
    type V = ConfigView;

    open spec fn view(&self) -> ConfigView {
        ConfigView {
            directories: texts_view(self.directories@),
            active_directory: text_view(self.active_directory),
        }
    }
}

impl ConfigView {
    /// No directory is listed twice.
    pub open spec fn well_formed(self) -> bool {
        self.directories.no_duplicates()
    }
}

impl Default for Config {
    fn default() -> (config: Config)
        ensures
            config@.directories.len() == 0,
            config@.active_directory.is_none(),
            config@.well_formed(),
    {
        Config { directories: Vec::new(), active_directory: None }
    }
}

impl Clone for Config {
    fn clone(&self) -> (copy: Config)
        ensures
            copy@ == self@,
    {
        let mut directories: Vec<String> = Vec::new();
        let mut i: usize = 0;
        while i < self.directories.len()
            invariant
                i <= self.directories.len(),
                directories@.len() == i,
                forall|j: int| 0 <= j < i ==> directories@[j]@ == self.directories@[j]@,
            decreases self.directories.len() - i,
        {
            directories.push(self.directories[i].clone());
            i = i + 1;
        }
        let active_directory = match &self.active_directory {
            Some(active) => Some(active.clone()),
            None => None,
        };
        proof {
            assert(texts_view(directories@) =~= texts_view(self.directories@));
        }
        Config { directories, active_directory }
    }
}

/// Why the configuration could not be loaded or saved.
#[derive(Debug, PartialEq)]
pub enum ConfigError {
    /// The platform names no directory for configuration files.
    NoConfigDirectory,
    /// The file at this path is there and could not be read.
    ReadFailed(String),
    /// The file at this path does not hold a configuration.
    ParseFailed(String),
    /// The directory at this path could not be made.
    CreateDirectoryFailed(String),
    /// The configuration could not be written as text.
    SerializeFailed,
    /// The file at this path could not be written.
    WriteFailed(String),
}

impl ConfigError {
    /// The error in words.
    pub open spec fn message_text(self) -> Seq<char> {
        match self {
            ConfigError::NoConfigDirectory => "Failed to get config directory"@,
            ConfigError::ReadFailed(path) => "Failed to read config file: "@ + path@,
            ConfigError::ParseFailed(path) => "Failed to parse config file: "@ + path@,
            ConfigError::CreateDirectoryFailed(path) => "Failed to create config directory: "@
                + path@,
            ConfigError::SerializeFailed => "Failed to serialize config"@,
            ConfigError::WriteFailed(path) => "Failed to write config file: "@ + path@,
        }
    }

    /// The error in words.
    pub fn message(&self) -> (message: String)
        ensures
            message@ == self.message_text(),
    {
        match self {
            ConfigError::NoConfigDirectory => "Failed to get config directory".to_owned(),
            ConfigError::ReadFailed(path) => concat2("Failed to read config file: ", path.as_str()),
            ConfigError::ParseFailed(path) => concat2(
                "Failed to parse config file: ",
                path.as_str(),
            ),
            ConfigError::CreateDirectoryFailed(path) => concat2(
                "Failed to create config directory: ",
                path.as_str(),
            ),
            ConfigError::SerializeFailed => "Failed to serialize config".to_owned(),
            ConfigError::WriteFailed(path) => concat2(
                "Failed to write config file: ",
                path.as_str(),
            ),
        }
    }
}

/// The view of what loading the configuration gave: the configuration, or
/// the error in words.
pub open spec fn loaded_view(loaded: Result<Config, ConfigError>) -> Result<ConfigView, Seq<char>> {
    match loaded {
        Ok(config) => Ok(config@),
        Err(error) => Err(error.message_text()),
    }
}

/// The texts of a list of strings; nothing where an item is no string.
pub open spec fn texts_of(items: Seq<JsonValue>) -> Option<Seq<Seq<char>>> {
    if forall|i: int| 0 <= i < items.len() ==> (#[trigger] items[i]) is Text {
        Some(Seq::new(items.len(), |i: int| items[i]->Text_0))
    } else {
        None
    }
}

/// The configuration that a document spells: an object with an array of
/// strings under `directories` and a string, `null` or nothing under
/// `active_directory`.
pub open spec fn config_of(document: JsonValue) -> Option<ConfigView> {
    match document {
        JsonValue::Object(map) => if map.contains_key("directories"@) {
            match map["directories"@] {
                JsonValue::Array(items) => match (
                    texts_of(items),
                    optional_text_member(document, "active_directory"@),
                ) {
                    (Some(directories), Some(active_directory)) => Some(
                        ConfigView { directories, active_directory },
                    ),
                    _ => None,
                },
                _ => None,
            }
        } else {
            None
        },
        _ => None,
    }
}

impl Config {
    /// Reads a configuration out of a document.
    pub fn from_json(document: &Json) -> (config: Option<Config>)
        ensures
            match config {
                Some(config) => config_of(document@) == Some(config@),
                None => config_of(document@).is_none(),
            },
    {
        let items = match document.member("directories") {
            None => {
                return None;
            },
            Some(found) => match found.as_array() {
                None => {
                    return None;
                },
                Some(items) => items,
            },
        };
        let ghost listed = items_view(*items);
        let mut directories: Vec<String> = Vec::new();
        let mut i: usize = 0;
        while i < items.len()
            invariant
                i <= items.len(),
                listed == items_view(*items),
                document@ is Object,
                document@->Object_0.contains_key("directories"@),
                document@->Object_0["directories"@] == JsonValue::Array(listed),
                directories@.len() == i,
                forall|j: int| 0 <= j < i ==> (#[trigger] listed[j]) is Text,
                forall|j: int| 0 <= j < i ==> directories@[j]@ == (#[trigger] listed[j])->Text_0,
            decreases items.len() - i,
        {
            match items[i].as_text() {
                None => {
                    assert(!(listed[i as int] is Text));
                    return None;
                },
                Some(text) => {
                    directories.push(text.to_owned());
                },
            }
            i = i + 1;
        }
        proof {
            assert(texts_view(directories@) =~= texts_of(listed).unwrap());
        }
        match document.optional_text_member("active_directory") {
            None => None,
            Some(active_directory) => Some(Config { directories, active_directory }),
        }
    }
}

/// The directory, below the platform's directory for configuration files,
/// in which the configuration is kept.
pub const CONFIG_DIRECTORY: &'static str = "docu-mcp";

/// The name of the file in which the configuration is kept.
pub const CONFIG_FILE: &'static str = "config.json";

/// The path of the configuration file, given the platform's directory for
/// configuration files.
pub fn config_path_in(config_directory: &str) -> (path: String)
    ensures
        path@ == joined_path(joined_path(config_directory@, "docu-mcp"@), "config.json"@),
{
    let directory = join_path(config_directory, CONFIG_DIRECTORY);
    join_path(directory.as_str(), CONFIG_FILE)
}

/// The configuration that the text of a configuration file spells, given
/// what reading the text as JSON gave; a text that spells none fails with
/// the file's path.
pub open spec fn parsed_config(parsed: Result<JsonValue, Seq<char>>, path: Seq<char>) -> Result<
    ConfigView,
    Seq<char>,
> {
    match parsed {
        Err(_) => Err("Failed to parse config file: "@ + path),
        Ok(document) => match config_of(document) {
            None => Err("Failed to parse config file: "@ + path),
            Some(config) => Ok(config),
        },
    }
}

/// Reads the configuration out of the text of the configuration file at
/// `path`.
pub fn parse_config(content: &str, path: &str) -> (loaded: Result<Config, ConfigError>)
    ensures
        loaded_view(loaded) == parsed_config(parsed_json(content@), path@),
        loaded matches Err(error) ==> error is ParseFailed,
{
    match Json::parse(content) {
        Err(_) => Err(ConfigError::ParseFailed(path.to_owned())),
        Ok(document) => match Config::from_json(&document) {
            None => Err(ConfigError::ParseFailed(path.to_owned())),
            Some(config) => Ok(config),
        },
    }
}

/// The configuration without directories.
pub open spec fn empty_config() -> ConfigView {
    ConfigView { directories: Seq::empty(), active_directory: None }
}

/// What loading makes of the configuration file at `path`, given the file's
/// text: where there is no file, the configuration is the empty one; where
/// there is one, it must spell a configuration.
pub fn config_from_file(content: Option<&str>, path: &str) -> (loaded: Result<Config, ConfigError>)
    ensures
        loaded_view(loaded) == match content {
            None => Ok::<ConfigView, Seq<char>>(empty_config()),
            Some(content) => parsed_config(parsed_json(content@), path@),
        },
{
    match content {
        None => {
            let config = Config::default();
            assert(config@.directories =~= Seq::empty());
            Ok(config)
        },
        Some(content) => parse_config(content, path),
    }
}

/// The given texts as JSON strings; the first one that cannot be written
/// fails them all.
pub open spec fn quoted_texts(texts: Seq<Seq<char>>) -> Result<Seq<Seq<char>>, Seq<char>>
    decreases texts.len(),
{
    if texts.len() == 0 {
        Ok(Seq::empty())
    } else {
        match quoted_texts(texts.drop_last()) {
            Err(reason) => Err(reason),
            Ok(front) => match json_text(JsonValue::Text(texts.last())) {
                Err(reason) => Err(reason),
                Ok(quoted) => Ok(front.push(quoted)),
            },
        }
    }
}

/// Texts that fail on some of their first ones fail in the same way as a
/// whole.
pub proof fn lemma_quoted_texts_fail(texts: Seq<Seq<char>>, n: int)
    requires
        0 <= n <= texts.len(),
        quoted_texts(texts.take(n)) is Err,
    ensures
        quoted_texts(texts) == quoted_texts(texts.take(n)),
    decreases texts.len() - n,
{
    if n < texts.len() {
        assert(texts.take(n + 1).drop_last() =~= texts.take(n));
        lemma_quoted_texts_fail(texts, n + 1);
    } else {
        assert(texts.take(n) =~= texts);
    }
}

/// The items of an indented array, each on a line of its own, with a comma
/// between one and the next.
pub open spec fn pretty_lines(quoted: Seq<Seq<char>>) -> Seq<char>
    decreases quoted.len(),
{
    if quoted.len() == 0 {
        Seq::empty()
    } else if quoted.len() == 1 {
        "\n    "@ + quoted[0]
    } else {
        pretty_lines(quoted.drop_last()) + ",\n    "@ + quoted.last()
    }
}

/// An indented array of the given items, one level deep in a document.
pub open spec fn pretty_array(quoted: Seq<Seq<char>>) -> Seq<char> {
    if quoted.len() == 0 {
        "[]"@
    } else {
        "["@ + pretty_lines(quoted) + "\n  ]"@
    }
}

/// The text of the configuration file: the configuration as indented JSON,
/// the known directories first and the active one behind them.
pub open spec fn config_text(config: ConfigView) -> Result<Seq<char>, Seq<char>> {
    match quoted_texts(config.directories) {
        Err(reason) => Err(reason),
        Ok(quoted) => match config.active_directory {
            None => Ok(
                "{\n  \"directories\": "@ + pretty_array(quoted) + ",\n  \"active_directory\": "@
                    + "null"@ + "\n}"@,
            ),
            Some(active) => match json_text(JsonValue::Text(active)) {
                Err(reason) => Err(reason),
                Ok(active) => Ok(
                    "{\n  \"directories\": "@ + pretty_array(quoted)
                        + ",\n  \"active_directory\": "@ + active + "\n}"@,
                ),
            },
        },
    }
}

impl Config {
    /// Writes the configuration as the text of the configuration file.
    pub fn render(&self) -> (rendered: Result<String, ConfigError>)
        ensures
            match rendered {
                Ok(text) => config_text(self@) == Ok::<Seq<char>, Seq<char>>(text@),
                Err(error) => config_text(self@) is Err && error == ConfigError::SerializeFailed,
            },
    {
        let ghost texts = texts_view(self.directories@);
        let ghost mut quoted: Seq<Seq<char>> = Seq::empty();
        let mut lines = String::new();
        let mut i: usize = 0;
        proof {
            assert(texts.take(0) =~= Seq::empty());
        }
        while i < self.directories.len()
            invariant
                i <= self.directories.len(),
                texts == texts_view(self.directories@),
                quoted_texts(texts.take(i as int)) == Ok::<Seq<Seq<char>>, Seq<char>>(quoted),
                quoted.len() == i,
                lines@ == pretty_lines(quoted),
            decreases self.directories.len() - i,
        {
            proof {
                assert(texts.take(i as int + 1).drop_last() =~= texts.take(i as int));
                assert(texts.take(i as int + 1).last() == self.directories@[i as int]@);
            }
            let item = match Json::text(self.directories[i].as_str()).render() {
                Err(_) => {
                    proof {
                        lemma_quoted_texts_fail(texts, i as int + 1);
                    }
                    return Err(ConfigError::SerializeFailed);
                },
                Ok(item) => item,
            };
            if i == 0 {
                lines.append("\n    ");
            } else {
                lines.append(",\n    ");
            }
            lines.append(item.as_str());
            proof {
                let longer = quoted.push(item@);
                assert(longer.drop_last() =~= quoted);
                if i == 0 {
                    assert(lines@ =~= "\n    "@ + longer[0]);
                } else {
                    assert(lines@ =~= pretty_lines(quoted) + ",\n    "@ + longer.last());
                }
                quoted = longer;
            }
            i = i + 1;
        }
        proof {
            assert(texts.take(i as int) =~= texts);
        }
        let mut text = "{\n  \"directories\": ".to_owned();
        if self.directories.len() == 0 {
            text.append("[]");
        } else {
            text.append("[");
            text.append(lines.as_str());
            text.append("\n  ]");
        }
        proof {
            assert(text@ =~= "{\n  \"directories\": "@ + pretty_array(quoted));
        }
        text.append(",\n  \"active_directory\": ");
        match &self.active_directory {
            None => {
                text.append("null");
            },
            Some(active) => {
                let active = match Json::text(active.as_str()).render() {
                    Err(_) => {
                        return Err(ConfigError::SerializeFailed);
                    },
                    Ok(active) => active,
                };
                text.append(active.as_str());
            },
        }
        text.append("\n}");
        Ok(text)
    }
}

} // verus!
