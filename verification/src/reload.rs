//! What a change in the configuration directory means for the manager, and
//! what the files of the directory hold.

use crate::defaults::configs_view;
use crate::manager::{preferences_name, ManagerView};
use crate::pair::Settings;
use crate::parse::{load_config, toml_document};
use crate::paths::{extension, extension_of, file_name, file_stem, file_stem_of};
use crate::syntax::SyntaxDefinition;
use crate::text::str_eq;
use crate::value::Table;
use vstd::prelude::*;

verus! {

/// A change in the file system.
#[derive(Clone, Debug)]
pub enum FsEvent {
    /// A file came into being at the path.
    Created(String),
    /// The file at the path was written to.
    Modified(String),
    /// Anything else.
    Other,
}

/// A file of the configuration directory, with what could be read of it.
#[derive(Clone, Debug)]
pub struct ConfigFile {
    /// Where the file is.
    pub path: String,
    /// The text of the file; `None` where it could not be read.
    pub contents: Option<String>,
}

/// What became of a file that was offered as configuration.
#[derive(Clone, Copy, Debug, PartialEq, Eq)]
pub enum Reload {
    /// Nothing was to be done with it.
    Ignored,
    /// It could not be read, or does not read as TOML; nothing was changed.
    Failed,
    /// Its name is that of no configuration; nothing was changed.
    UnknownName,
    /// It became the user's settings for every buffer.
    Defaults,
    /// It became the user's settings for the syntax.
    Syntax(SyntaxDefinition),
}

/// The extension of configuration files.
pub open spec fn config_extension() -> Seq<char> {
    "xiconfig"@
}

/// The name of the file that holds the user's settings for every buffer.
pub open spec fn preferences_file() -> Seq<char> {
    "preferences.xiconfig"@
}

/// Whether `path` names a configuration file: one with the extension of
/// configuration files.
pub open spec fn is_config_path(path: Seq<char>) -> bool {
    extension_of(path) == Some(config_extension())
}

/// The table that a file's text holds; `None` for a file that could not be
/// read or does not read as TOML.
pub open spec fn document_of(contents: Option<Seq<char>>) -> Option<Settings> {
    match contents {
        Some(text) => toml_document(text),
        None => None,
    }
}

/// The path of the configuration file that an event is about, if it is about
/// one: the path of a file that was created or modified and has the
/// extension of configuration files.
pub open spec fn config_file_of(event: FsEvent) -> Option<Seq<char>> {
    match event {
        FsEvent::Created(path) | FsEvent::Modified(path) => if is_config_path(path@) {
            Some(path@)
        } else {
            None
        },
        FsEvent::Other => None,
    }
}

/// What becomes of the configuration file at `path` with the given text when
/// it is loaded by its name.
pub open spec fn reload_of(path: Seq<char>, contents: Option<Seq<char>>) -> Reload {
    if document_of(contents) is None {
        Reload::Failed
    } else if file_stem_of(path) == preferences_name() {
        Reload::Defaults
    } else {
        match SyntaxDefinition::named(file_stem_of(path)) {
            Some(syntax) => Reload::Syntax(syntax),
            None => Reload::UnknownName,
        }
    }
}

/// What becomes of an event, given the text of the file it is about.
pub open spec fn event_outcome(event: FsEvent, contents: Option<Seq<char>>) -> Reload {
    match config_file_of(event) {
        Some(path) => reload_of(path, contents),
        None => Reload::Ignored,
    }
}

/// Whether `path` names the configuration file of a syntax: a configuration
/// file other than the one for every buffer.
pub open spec fn is_syntax_path(path: Seq<char>) -> bool {
    is_config_path(path) && file_name(path) != preferences_file()
}

/// What becomes of a file of the configuration directory when the settings
/// of the syntaxes are loaded: a file that is not the configuration of a
/// syntax is passed over, one with the name of no syntax is refused, and so
/// is one that holds no table.
pub open spec fn file_outcome(file: ConfigFile) -> Reload {
    if !is_syntax_path(file.path@) {
        Reload::Ignored
    } else {
        match SyntaxDefinition::named(file_stem_of(file.path@)) {
            None => Reload::UnknownName,
            Some(syntax) => if document_of(crate::settings::option_view(file.contents)) is None {
                Reload::Failed
            } else {
                Reload::Syntax(syntax)
            },
        }
    }
}

/// What became of each file.
pub open spec fn file_outcomes(files: Seq<ConfigFile>) -> Seq<Reload> {
    files.map_values(|file: ConfigFile| file_outcome(file))
}

/// The settings of the syntaxes that the files hold, in the order of the
/// files.
pub open spec fn syntax_configs_in(files: Seq<ConfigFile>) -> Seq<(SyntaxDefinition, Settings)>
    decreases files.len(),
{
    if files.len() == 0 {
        Seq::empty()
    } else {
        let front = syntax_configs_in(files.drop_last());
        match file_outcome(files.last()) {
            Reload::Syntax(syntax) => front.push(
                (syntax, document_of(crate::settings::option_view(files.last().contents))->0),
            ),
            _ => front,
        }
    }
}

impl ManagerView {
    /// The manager after the configuration file at `path` was loaded with the
    /// given text: a text that holds a table becomes the user's settings of
    /// the configuration that the file is named after, and any other
    /// changes nothing.
    pub open spec fn with_file(self, path: Seq<char>, contents: Option<Seq<char>>) -> ManagerView {
        match document_of(contents) {
            Some(config) => self.with_update(file_stem_of(path), config),
            None => self,
        }
    }

    /// The manager after an event, given the text of the file that the event
    /// is about.
    pub open spec fn after_event(self, event: FsEvent, contents: Option<Seq<char>>) -> ManagerView {
        match config_file_of(event) {
            Some(path) => self.with_file(path, contents),
            None => self,
        }
    }

    /// The manager after the configuration directory was set to `path`,
    /// given the text of the directory's preferences file and its other
    /// files: the user's settings for every buffer are those of the
    /// preferences file, or empty where it holds no table, and the user's
    /// settings of the syntaxes are those that the files hold.
    pub open spec fn with_config_dir(
        self,
        path: Seq<char>,
        preferences: Option<Seq<char>>,
        files: Seq<ConfigFile>,
    ) -> ManagerView {
        let user = match document_of(preferences) {
            Some(config) => config,
            None => Map::empty(),
        };
        (ManagerView { config_dir: Some(path), ..self }).with_user_configs(
            Some(user),
            Some(syntax_configs_in(files)),
        )
    }
}

/// Whether `path` names a configuration file.
pub fn has_config_extension(path: &str) -> (b: bool)
    ensures
        b == is_config_path(path@),
{
    match extension(path) {
        Some(ext) => str_eq(ext.as_str(), "xiconfig"),
        None => false,
    }
}

impl FsEvent {
    /// The path of the configuration file that the event is about, if it is
    /// about one.
    pub fn config_file(&self) -> (r: Option<&str>)
        ensures
            crate::text::text_view(r) == config_file_of(*self),
    {
        match self {
            FsEvent::Created(path) | FsEvent::Modified(path) => {
                if has_config_extension(path.as_str()) {
                    Some(path.as_str())
                } else {
                    None
                }
            },
            FsEvent::Other => None,
        }
    }
}

/// Reads the text of a file as TOML, where there is a text.
pub fn load_contents(contents: Option<&str>) -> (r: Option<Table>)
    ensures
        match r {
            Some(table) => document_of(crate::text::text_view(contents)) == Some(table@),
            None => document_of(crate::text::text_view(contents)) is None,
        },
{
    match contents {
        Some(text) => match load_config(text) {
            Ok(table) => Some(table),
            Err(_) => None,
        },
        None => None,
    }
}

/// Whether `path` names the configuration file of a syntax.
pub fn is_syntax_file(path: &str) -> (b: bool)
    ensures
        b == is_syntax_path(path@),
{
    if !has_config_extension(path) {
        return false;
    }
    let (start, _, len) = crate::paths::scan_file_name(path);
    !str_eq(path.substring_char(start, len), "preferences.xiconfig")
}

/// Loads the settings of the syntaxes from the files of the configuration
/// directory, and says what became of each file.
pub fn load_syntax_configs(files: &Vec<ConfigFile>) -> (r: (Vec<(SyntaxDefinition, Table)>, Vec<Reload>))
    ensures
        configs_view(r.0@) == syntax_configs_in(files@),
        r.1@ == file_outcomes(files@),
{
    let mut result: Vec<(SyntaxDefinition, Table)> = Vec::new();
    let mut outcomes: Vec<Reload> = Vec::new();
    let mut i: usize = 0;
    assert(files@.take(0) =~= Seq::empty());
    assert(configs_view(result@) =~= Seq::empty());
    while i < files.len()
        invariant
            i <= files.len(),
            configs_view(result@) == syntax_configs_in(files@.take(i as int)),
            outcomes@.len() == i,
            forall|j: int| 0 <= j < i ==> outcomes@[j] == file_outcome(files@[j]),
        decreases files.len() - i,
    {
        let file = &files[i];
        let ghost before = configs_view(result@);
        proof {
            assert(files@.take(i + 1).drop_last() =~= files@.take(i as int));
            assert(files@.take(i + 1).last() == files@[i as int]);
        }
        let outcome = if !is_syntax_file(file.path.as_str()) {
            Reload::Ignored
        } else {
            let stem = file_stem(file.path.as_str());
            let contents = match &file.contents {
                Some(text) => Some(text.as_str()),
                None => None,
            };
            match SyntaxDefinition::try_from_name(stem.as_str()) {
                None => Reload::UnknownName,
                Some(syntax) => match load_contents(contents) {
                    None => Reload::Failed,
                    Some(table) => {
                        result.push((syntax, table));
                        assert(configs_view(result@) =~= before.push((syntax, table@)));
                        Reload::Syntax(syntax)
                    },
                },
            }
        };
        outcomes.push(outcome);
        i += 1;
    }
    assert(files@.take(i as int) =~= files@);
    assert(outcomes@ =~= file_outcomes(files@));
    (result, outcomes)
}

} // verus!
