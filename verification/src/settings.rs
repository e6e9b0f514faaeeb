//! The typed snapshot of the settings, and how a table is read into it.

use crate::pair::Settings;
use crate::paths::{join, joined};
use crate::value::{Table, Value, ValueView};
use vstd::prelude::*;

verus! {

/// The kinds of value.
#[derive(Clone, Copy, Debug, PartialEq, Eq)]
pub enum Kind {
    Nil,
    Boolean,
    Integer,
    Float,
    String,
    Array,
    Table,
}

/// The fields of the snapshot.
#[derive(Clone, Copy, Debug, PartialEq, Eq)]
pub enum Field {
    Newline,
    TabSize,
    TranslateTabsToSpaces,
    PluginSearchPath,
}

/// Why a table could not be read into a snapshot.
#[derive(Clone, Copy, Debug, PartialEq, Eq)]
pub enum ResolveError {
    /// The table has no entry for the field.
    MissingField { field: Field },
    /// The entry for the field, or an item of it, is of another kind than the
    /// field takes.
    TypeMismatch { field: Field, expected: Kind, found: Kind },
    /// The entry for the field is a number that the field cannot hold.
    OutOfRange { field: Field },
}

/// All the settings that a user can change.
#[derive(Clone, Debug)]
pub struct Config {
    pub newline: String,
    pub tab_size: usize,
    pub translate_tabs_to_spaces: bool,
    pub plugin_search_path: Vec<String>,
}

/// The mathematical content of a [`Config`].
pub struct ConfigView {
    pub newline: Seq<char>,
    pub tab_size: nat,
    pub translate_tabs_to_spaces: bool,
    pub plugin_search_path: Seq<Seq<char>>,
}

/// The contents of a list of strings.
pub open spec fn strings_view(strings: Seq<String>) -> Seq<Seq<char>> {
    strings.map_values(|s: String| s@)
}

impl View for Config {
    type V = ConfigView;

    open spec fn view(&self) -> ConfigView {
        ConfigView {
            newline: self.newline@,
            tab_size: self.tab_size as nat,
            translate_tabs_to_spaces: self.translate_tabs_to_spaces,
            plugin_search_path: strings_view(self.plugin_search_path@),
        }
    }
}

/// The kind of a value.
pub open spec fn kind_of(value: ValueView) -> Kind {
    match value {
        ValueView::Nil => Kind::Nil,
        ValueView::Boolean(_) => Kind::Boolean,
        ValueView::Integer(_) => Kind::Integer,
        ValueView::Float(_) => Kind::Float,
        ValueView::String(_) => Kind::String,
        ValueView::Array(_) => Kind::Array,
        ValueView::Table(_) => Kind::Table,
    }
}

impl Field {
    /// The key under which a table holds the field.
    pub open spec fn key(self) -> Seq<char> {
        match self {
            Field::Newline => "newline"@,
            Field::TabSize => "tab_size"@,
            Field::TranslateTabsToSpaces => "translate_tabs_to_spaces"@,
            Field::PluginSearchPath => "plugin_search_path"@,
        }
    }

    /// The key under which a table holds the field.
    pub fn name(self) -> (name: &'static str)
        ensures
            name@ == self.key(),
    {
        match self {
            Field::Newline => "newline",
            Field::TabSize => "tab_size",
            Field::TranslateTabsToSpaces => "translate_tabs_to_spaces",
            Field::PluginSearchPath => "plugin_search_path",
        }
    }
}

/// The strings that a list of values holds, or the kind of its first item
/// that is no string.
pub open spec fn strings_in(items: Seq<ValueView>) -> Result<Seq<Seq<char>>, Kind>
    decreases items.len(),
{
    if items.len() == 0 {
        Ok(Seq::empty())
    } else {
        match strings_in(items.drop_last()) {
            Err(kind) => Err(kind),
            Ok(front) => match items.last() {
                ValueView::String(s) => Ok(front.push(s)),
                other => Err(kind_of(other)),
            },
        }
    }
}

/// The line ending that `table` sets: its entry `newline`, a string.
pub open spec fn newline_in(table: Settings) -> Result<Seq<char>, ResolveError> {
    let field = Field::Newline;
    if !table.contains_key(field.key()) {
        Err(ResolveError::MissingField { field })
    } else {
        match table[field.key()] {
            ValueView::String(s) => Ok(s),
            other => Err(
                ResolveError::TypeMismatch { field, expected: Kind::String, found: kind_of(other) },
            ),
        }
    }
}

/// The tab size that `table` sets: its entry `tab_size`, an integer that is
/// not negative and fits the machine's word.
pub open spec fn tab_size_in(table: Settings) -> Result<nat, ResolveError> {
    let field = Field::TabSize;
    if !table.contains_key(field.key()) {
        Err(ResolveError::MissingField { field })
    } else {
        match table[field.key()] {
            ValueView::Integer(i) => if 0 <= i <= usize::MAX {
                Ok(i as nat)
            } else {
                Err(ResolveError::OutOfRange { field })
            },
            other => Err(
                ResolveError::TypeMismatch { field, expected: Kind::Integer, found: kind_of(other) },
            ),
        }
    }
}

/// Whether `table` asks for spaces in place of tabs: its entry
/// `translate_tabs_to_spaces`, a boolean.
pub open spec fn translate_tabs_in(table: Settings) -> Result<bool, ResolveError> {
    let field = Field::TranslateTabsToSpaces;
    if !table.contains_key(field.key()) {
        Err(ResolveError::MissingField { field })
    } else {
        match table[field.key()] {
            ValueView::Boolean(b) => Ok(b),
            other => Err(
                ResolveError::TypeMismatch { field, expected: Kind::Boolean, found: kind_of(other) },
            ),
        }
    }
}

/// The plugin search path that `table` sets: its entry `plugin_search_path`,
/// an array of strings.
pub open spec fn search_path_in(table: Settings) -> Result<Seq<Seq<char>>, ResolveError> {
    let field = Field::PluginSearchPath;
    if !table.contains_key(field.key()) {
        Err(ResolveError::MissingField { field })
    } else {
        match table[field.key()] {
            ValueView::Array(items) => match strings_in(items) {
                Ok(paths) => Ok(paths),
                Err(found) => Err(
                    ResolveError::TypeMismatch { field, expected: Kind::String, found },
                ),
            },
            other => Err(
                ResolveError::TypeMismatch { field, expected: Kind::Array, found: kind_of(other) },
            ),
        }
    }
}

/// The snapshot that `table` holds: each field read from the entry of its
/// name, or the error of the first field, in the order of their declaration,
/// that cannot be read. Entries of other names are passed over.
pub open spec fn decoded(table: Settings) -> Result<ConfigView, ResolveError> {
    match newline_in(table) {
        Err(e) => Err(e),
        Ok(newline) => match tab_size_in(table) {
            Err(e) => Err(e),
            Ok(tab_size) => match translate_tabs_in(table) {
                Err(e) => Err(e),
                Ok(translate_tabs_to_spaces) => match search_path_in(table) {
                    Err(e) => Err(e),
                    Ok(plugin_search_path) => Ok(
                        ConfigView {
                            newline,
                            tab_size,
                            translate_tabs_to_spaces,
                            plugin_search_path,
                        },
                    ),
                },
            },
        },
    }
}

/// The search path as it is handed out: each entry joined to the
/// configuration directory, where there is one, and the extras directory
/// put last, where there is one.
pub open spec fn located(
    paths: Seq<Seq<char>>,
    config_dir: Option<Seq<char>>,
    extras_dir: Option<Seq<char>>,
) -> Seq<Seq<char>> {
    let placed = match config_dir {
        Some(dir) => paths.map_values(|p: Seq<char>| joined(dir, p)),
        None => paths,
    };
    match extras_dir {
        Some(extras) => placed.push(extras),
        None => placed,
    }
}

impl ConfigView {
    /// The snapshot with its search path located.
    pub open spec fn located(self, config_dir: Option<Seq<char>>, extras_dir: Option<Seq<char>>) -> ConfigView {
        ConfigView {
            plugin_search_path: located(self.plugin_search_path, config_dir, extras_dir),
            ..self
        }
    }
}

impl Value {
    /// The kind of the value.
    pub fn kind(&self) -> (kind: Kind)
        ensures
            kind == kind_of(self@),
    {
        match self {
            Value::Nil => Kind::Nil,
            Value::Boolean(_) => Kind::Boolean,
            Value::Integer(_) => Kind::Integer,
            Value::Unsigned(_) => Kind::Integer,
            Value::Float(_) => Kind::Float,
            Value::String(_) => Kind::String,
            Value::Array(_) => Kind::Array,
            Value::Table(_) => Kind::Table,
        }
    }
}

fn read_newline(table: &Table) -> (r: Result<String, ResolveError>)
    ensures
        match r {
            Ok(s) => newline_in(table@) == Ok::<Seq<char>, ResolveError>(s@),
            Err(e) => newline_in(table@) == Err::<Seq<char>, ResolveError>(e),
        },
{
    let field = Field::Newline;
    match table.get(field.name()) {
        None => Err(ResolveError::MissingField { field }),
        Some(Value::String(s)) => Ok(s.clone()),
        Some(other) => Err(
            ResolveError::TypeMismatch { field, expected: Kind::String, found: other.kind() },
        ),
    }
}

fn read_tab_size(table: &Table) -> (r: Result<usize, ResolveError>)
    ensures
        match r {
            Ok(n) => tab_size_in(table@) == Ok::<nat, ResolveError>(n as nat),
            Err(e) => tab_size_in(table@) == Err::<nat, ResolveError>(e),
        },
{
    let field = Field::TabSize;
    match table.get(field.name()) {
        None => Err(ResolveError::MissingField { field }),
        Some(Value::Integer(i)) => {
            if 0 <= *i && *i <= usize::MAX as i128 {
                Ok(*i as usize)
            } else {
                Err(ResolveError::OutOfRange { field })
            }
        },
        Some(Value::Unsigned(u)) => {
            if *u <= usize::MAX as u128 {
                Ok(*u as usize)
            } else {
                Err(ResolveError::OutOfRange { field })
            }
        },
        Some(other) => Err(
            ResolveError::TypeMismatch { field, expected: Kind::Integer, found: other.kind() },
        ),
    }
}

fn read_translate_tabs(table: &Table) -> (r: Result<bool, ResolveError>)
    ensures
        r == translate_tabs_in(table@),
{
    let field = Field::TranslateTabsToSpaces;
    match table.get(field.name()) {
        None => Err(ResolveError::MissingField { field }),
        Some(Value::Boolean(b)) => Ok(*b),
        Some(other) => Err(
            ResolveError::TypeMismatch { field, expected: Kind::Boolean, found: other.kind() },
        ),
    }
}

fn read_strings(items: &Vec<Value>) -> (r: Result<Vec<String>, Kind>)
    ensures
        match r {
            Ok(strings) => strings_in(crate::value::array_view(items@)) == Ok::<Seq<Seq<char>>, Kind>(
                strings_view(strings@),
            ),
            Err(kind) => strings_in(crate::value::array_view(items@)) == Err::<Seq<Seq<char>>, Kind>(
                kind,
            ),
        },
{
    let ghost views = crate::value::array_view(items@);
    proof {
        crate::value::lemma_array_view(items@);
    }
    let mut out: Vec<String> = Vec::new();
    let mut i: usize = 0;
    assert(views.take(0) =~= Seq::empty());
    assert(strings_view(out@) =~= Seq::empty());
    while i < items.len()
        invariant
            i <= items.len(),
            views == crate::value::array_view(items@),
            views.len() == items.len(),
            forall|j: int| 0 <= j < items.len() ==> #[trigger] views[j] == items@[j]@,
            strings_in(views.take(i as int)) == Ok::<Seq<Seq<char>>, Kind>(strings_view(out@)),
        decreases items.len() - i,
    {
        let ghost before = strings_view(out@);
        proof {
            assert(views.take(i + 1).drop_last() =~= views.take(i as int));
            assert(views.take(i + 1).last() == views[i as int]);
        }
        match &items[i] {
            Value::String(s) => {
                out.push(s.clone());
                assert(strings_view(out@) =~= before.push(s@));
            },
            other => {
                proof {
                    lemma_strings_in_prefix_error(views, i + 1);
                }
                return Err(other.kind());
            },
        }
        i += 1;
    }
    assert(views.take(i as int) =~= views);
    Ok(out)
}

/// An item that is no string in front stays the first such item of the
/// whole list.
proof fn lemma_strings_in_prefix_error(items: Seq<ValueView>, n: int)
    requires
        0 <= n <= items.len(),
        strings_in(items.take(n)) is Err,
    ensures
        strings_in(items) == strings_in(items.take(n)),
    decreases items.len() - n,
{
    if n < items.len() {
        assert(items.take(n + 1).drop_last() =~= items.take(n));
        lemma_strings_in_prefix_error(items, n + 1);
    } else {
        assert(items.take(n) =~= items);
    }
}

fn read_search_path(table: &Table) -> (r: Result<Vec<String>, ResolveError>)
    ensures
        match r {
            Ok(paths) => search_path_in(table@) == Ok::<Seq<Seq<char>>, ResolveError>(
                strings_view(paths@),
            ),
            Err(e) => search_path_in(table@) == Err::<Seq<Seq<char>>, ResolveError>(e),
        },
{
    let field = Field::PluginSearchPath;
    match table.get(field.name()) {
        None => Err(ResolveError::MissingField { field }),
        Some(Value::Array(items)) => match read_strings(items) {
            Ok(paths) => Ok(paths),
            Err(found) => Err(ResolveError::TypeMismatch { field, expected: Kind::String, found }),
        },
        Some(other) => Err(
            ResolveError::TypeMismatch { field, expected: Kind::Array, found: other.kind() },
        ),
    }
}

impl Config {
    /// Reads a snapshot from a table.
    pub fn from_table(table: &Table) -> (r: Result<Config, ResolveError>)
        ensures
            match r {
                Ok(config) => decoded(table@) == Ok::<ConfigView, ResolveError>(config@),
                Err(e) => decoded(table@) == Err::<ConfigView, ResolveError>(e),
            },
    {
        let newline = match read_newline(table) {
            Ok(v) => v,
            Err(e) => {
                return Err(e);
            },
        };
        let tab_size = match read_tab_size(table) {
            Ok(v) => v,
            Err(e) => {
                return Err(e);
            },
        };
        let translate_tabs_to_spaces = match read_translate_tabs(table) {
            Ok(v) => v,
            Err(e) => {
                return Err(e);
            },
        };
        let plugin_search_path = match read_search_path(table) {
            Ok(v) => v,
            Err(e) => {
                return Err(e);
            },
        };
        Ok(Config { newline, tab_size, translate_tabs_to_spaces, plugin_search_path })
    }

    /// Locates the search path: joins each entry to `config_dir`, where
    /// there is one, and puts `extras_dir` last, where there is one.
    pub fn locate(&mut self, config_dir: &Option<String>, extras_dir: &Option<String>)
        ensures
            final(self)@ == old(self)@.located(option_view(*config_dir), option_view(*extras_dir)),
    {
        let ghost paths = strings_view(self.plugin_search_path@);
        let mut placed: Vec<String> = Vec::new();
        match config_dir {
            Some(dir) => {
                let mut i: usize = 0;
                while i < self.plugin_search_path.len()
                    invariant
                        i <= self.plugin_search_path.len(),
                        placed.len() == i,
                        *self == *old(self),
                        forall|j: int|
                            0 <= j < i ==> (#[trigger] placed@[j])@ == joined(
                                dir@,
                                self.plugin_search_path@[j]@,
                            ),
                    decreases self.plugin_search_path.len() - i,
                {
                    placed.push(join(dir.as_str(), self.plugin_search_path[i].as_str()));
                    i += 1;
                }
                assert(strings_view(placed@) =~= paths.map_values(|p: Seq<char>| joined(dir@, p)));
            },
            None => {
                let mut i: usize = 0;
                while i < self.plugin_search_path.len()
                    invariant
                        i <= self.plugin_search_path.len(),
                        placed.len() == i,
                        *self == *old(self),
                        forall|j: int|
                            0 <= j < i ==> (#[trigger] placed@[j])@ == self.plugin_search_path@[j]@,
                    decreases self.plugin_search_path.len() - i,
                {
                    placed.push(self.plugin_search_path[i].clone());
                    i += 1;
                }
                assert(strings_view(placed@) =~= paths);
            },
        }
        match extras_dir {
            Some(extras) => {
                let ghost before = strings_view(placed@);
                placed.push(extras.clone());
                assert(strings_view(placed@) =~= before.push(extras@));
            },
            None => {},
        }
        self.plugin_search_path = placed;
    }
}

/// The content of an optional string.
pub open spec fn option_view(s: Option<String>) -> Option<Seq<char>> {
    match s {
        Some(s) => Some(s@),
        None => None,
    }
}

} // verus!
