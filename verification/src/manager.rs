//! The configuration manager: the global layer pair, one pair for each
//! syntax that has settings of its own and one for each buffer with
//! overrides, and the settings that result for a buffer.

use crate::defaults::{configs_view, platform_defaults, platform_settings, syntax_defaults, syntax_settings};
use crate::pair::{ConfigPair, PairView, Settings};
use crate::parse::ParseError;
use crate::paths::file_stem;
use crate::reload::{
    event_outcome, file_outcomes, load_contents, load_syntax_configs, ConfigFile, FsEvent, Reload,
};
use crate::settings::{decoded, option_view, Config, ConfigView, ResolveError};
use crate::syntax::{lemma_code_identifies, SyntaxDefinition};
use crate::tabs::BufferIdentifier;
use crate::text::{str_eq, text_view};
use crate::value::{Table, Value, ValueView};
use std::collections::HashMap;
use vstd::prelude::*;

verus! {

/// The mathematical content of a [`ConfigManager`].
pub struct ManagerView {
    /// The settings of every buffer.
    pub defaults: PairView,
    /// The settings of single syntaxes.
    pub syntax_specific: Map<SyntaxDefinition, PairView>,
    /// The overrides of single buffers.
    pub overrides: Map<BufferIdentifier, PairView>,
    /// The directory that configuration files are read from.
    pub config_dir: Option<Seq<char>>,
    /// A directory of bundled resources.
    pub extras_dir: Option<Seq<char>>,
}

/// The name of the configuration that holds the settings of every buffer.
pub open spec fn preferences_name() -> Seq<char> {
    "preferences"@
}

impl ManagerView {
    /// The manager that starts from the given defaults, with no user
    /// settings, no overrides and no configuration directory.
    pub open spec fn initial(
        defaults: Settings,
        syntax: Seq<(SyntaxDefinition, Settings)>,
        extras_dir: Option<Seq<char>>,
    ) -> ManagerView
        decreases syntax.len(),
    {
        if syntax.len() == 0 {
            ManagerView {
                defaults: PairView::new(Some(defaults), None),
                syntax_specific: Map::empty(),
                overrides: Map::empty(),
                config_dir: None,
                extras_dir,
            }
        } else {
            let front = ManagerView::initial(defaults, syntax.drop_last(), extras_dir);
            ManagerView {
                syntax_specific: front.syntax_specific.insert(
                    syntax.last().0,
                    PairView::new(Some(syntax.last().1), None),
                ),
                ..front
            }
        }
    }

    /// The settings in force for a buffer of the given syntax: the global
    /// cache, with the cache of the syntax laid over it where a syntax is
    /// given and has a pair, and the cache of the buffer's overrides laid
    /// over that where a buffer is given and has a pair.
    pub open spec fn settings_for(
        self,
        syntax: Option<SyntaxDefinition>,
        buf_id: Option<BufferIdentifier>,
    ) -> Settings {
        let general = self.defaults.cache;
        let specific = if syntax is Some && self.syntax_specific.contains_key(syntax->0) {
            general.union_prefer_right(self.syntax_specific[syntax->0].cache)
        } else {
            general
        };
        if buf_id is Some && self.overrides.contains_key(buf_id->0) {
            specific.union_prefer_right(self.overrides[buf_id->0].cache)
        } else {
            specific
        }
    }

    /// The snapshot for a buffer of the given syntax: the settings in force
    /// read into a snapshot, its search path located by the configuration
    /// directory and the extras directory.
    pub open spec fn config_for(
        self,
        syntax: Option<SyntaxDefinition>,
        buf_id: Option<BufferIdentifier>,
    ) -> Result<ConfigView, ResolveError> {
        match decoded(self.settings_for(syntax, buf_id)) {
            Ok(config) => Ok(config.located(self.config_dir, self.extras_dir)),
            Err(e) => Err(e),
        }
    }

    /// The manager with `config` as the user's settings for every buffer.
    pub open spec fn with_user_defaults(self, config: Settings) -> ManagerView {
        ManagerView { defaults: self.defaults.with_user(config), ..self }
    }

    /// The manager with `config` as the user's settings for `syntax`; a
    /// syntax without a pair gets one with no base layer.
    pub open spec fn with_user_syntax(self, syntax: SyntaxDefinition, config: Settings) -> ManagerView {
        let pair = if self.syntax_specific.contains_key(syntax) {
            self.syntax_specific[syntax].with_user(config)
        } else {
            PairView::new(None, Some(config))
        };
        ManagerView { syntax_specific: self.syntax_specific.insert(syntax, pair), ..self }
    }

    /// The manager with the user's settings of the syntaxes applied in
    /// order.
    pub open spec fn with_user_syntaxes(self, syntax: Seq<(SyntaxDefinition, Settings)>) -> ManagerView
        decreases syntax.len(),
    {
        if syntax.len() == 0 {
            self
        } else {
            self.with_user_syntaxes(syntax.drop_last()).with_user_syntax(
                syntax.last().0,
                syntax.last().1,
            )
        }
    }

    /// The manager with the user's settings applied: those of the syntaxes
    /// first, then those of every buffer; an absent part changes nothing.
    pub open spec fn with_user_configs(
        self,
        defaults: Option<Settings>,
        syntax: Option<Seq<(SyntaxDefinition, Settings)>>,
    ) -> ManagerView {
        let applied = match syntax {
            Some(configs) => self.with_user_syntaxes(configs),
            None => self,
        };
        match defaults {
            Some(config) => applied.with_user_defaults(config),
            None => applied,
        }
    }

    /// The manager with `config` as the user's settings of the configuration
    /// called `name`: the settings of every buffer for the name
    /// `preferences`, those of a syntax for the name of a syntax, and
    /// nothing for any other name.
    pub open spec fn with_update(self, name: Seq<char>, config: Settings) -> ManagerView {
        if name == preferences_name() {
            self.with_user_defaults(config)
        } else {
            match SyntaxDefinition::named(name) {
                Some(syntax) => self.with_user_syntax(syntax, config),
                None => self,
            }
        }
    }

    /// The manager with `value` stored under `key` among the overrides of
    /// the buffer, in the user layer or, where `from_user` is false, in the
    /// base layer; a buffer without a pair gets an empty one first.
    pub open spec fn with_override(
        self,
        key: Seq<char>,
        value: ValueView,
        buf_id: BufferIdentifier,
        from_user: bool,
    ) -> ManagerView {
        let pair = if self.overrides.contains_key(buf_id) {
            self.overrides[buf_id]
        } else {
            PairView::new(None, None)
        };
        ManagerView {
            overrides: self.overrides.insert(buf_id, pair.with_override(key, value, from_user)),
            ..self
        }
    }
}

/// The items of a list, last first.
fn reversed<T>(items: Vec<T>) -> (r: Vec<T>)
    ensures
        r@.len() == items@.len(),
        forall|i: int| 0 <= i < r@.len() ==> r@[i] == items@[items@.len() - 1 - i],
{
    let ghost all = items@;
    let mut items = items;
    let mut out: Vec<T> = Vec::new();
    while items.len() > 0
        invariant
            items@.len() + out@.len() == all.len(),
            forall|i: int| 0 <= i < items@.len() ==> items@[i] == all[i],
            forall|i: int| 0 <= i < out@.len() ==> out@[i] == all[all.len() - 1 - i],
        decreases items.len(),
    {
        let last = items.pop().unwrap();
        out.push(last);
    }
    out
}

/// Holds the settings of the editor and says which are in force for a
/// buffer.
#[derive(Debug)]
pub struct ConfigManager {
    /// The defaults, and the user's settings for every buffer.
    defaults: ConfigPair,
    /// The settings of single syntaxes, by the number of the syntax.
    syntax_specific: HashMap<u8, ConfigPair>,
    /// The overrides of single buffers, by the number of the buffer.
    overrides: HashMap<usize, ConfigPair>,
    /// The directory that configuration files are read from.
    config_dir: Option<String>,
    /// A directory of bundled resources, such as plugins and themes.
    extras_dir: Option<String>,
}

impl View for ConfigManager {
    type V = ManagerView;

    closed spec fn view(&self) -> ManagerView {
        ManagerView {
            defaults: self.defaults@,
            syntax_specific: Map::new(
                |s: SyntaxDefinition| self.syntax_specific@.contains_key(s.code()),
                |s: SyntaxDefinition| self.syntax_specific@[s.code()]@,
            ),
            overrides: Map::new(
                |b: BufferIdentifier| self.overrides@.contains_key(b.0),
                |b: BufferIdentifier| self.overrides@[b.0]@,
            ),
            config_dir: option_view(self.config_dir),
            extras_dir: option_view(self.extras_dir),
        }
    }
}

impl ConfigManager {
    /// The manager that starts from the given defaults.
    pub fn with_defaults(
        defaults: Table,
        syntax: Vec<(SyntaxDefinition, Table)>,
        extras_dir: Option<String>,
    ) -> (manager: ConfigManager)
        ensures
            manager@ == ManagerView::initial(defaults@, configs_view(syntax@), option_view(extras_dir)),
    {
        let mut manager = ConfigManager {
            defaults: ConfigPair::new(Some(defaults), None),
            syntax_specific: HashMap::new(),
            overrides: HashMap::new(),
            config_dir: None,
            extras_dir,
        };
        let ghost all = syntax@;
        let mut rest = reversed(syntax);
        assert(manager@.syntax_specific =~= Map::empty());
        assert(manager@.overrides =~= Map::empty());
        assert(configs_view(all.take(0)) =~= Seq::empty());
        while rest.len() > 0
            invariant
                rest@.len() <= all.len(),
                forall|i: int| 0 <= i < rest@.len() ==> rest@[i] == all[all.len() - 1 - i],
                manager@ == ManagerView::initial(
                    defaults@,
                    configs_view(all.take(all.len() - rest@.len())),
                    option_view(extras_dir),
                ),
            decreases rest.len(),
        {
            let ghost n = all.len() - rest@.len();
            let ghost before = manager@;
            let (s, table) = rest.pop().unwrap();
            let pair = ConfigPair::new(Some(table), None);
            let code = s.to_code();
            manager.syntax_specific.insert(code, pair);
            proof {
                assert(configs_view(all.take(n + 1)).drop_last() =~= configs_view(all.take(n)));
                assert(configs_view(all.take(n + 1)).last() == (s, table@));
                assert forall|x: SyntaxDefinition| x.code() == code implies x == s by {
                    lemma_code_identifies(x);
                }
                assert(manager@.syntax_specific =~= before.syntax_specific.insert(s, pair@));
                assert(manager@.overrides =~= before.overrides);
            }
        }
        assert(all.take(all.len() as int) =~= all);
        manager
    }

    /// The manager that starts from the settings that ship with the editor:
    /// those of the platform, with those of Windows where `windows` is set,
    /// and those of single syntaxes.
    ///
    /// Fails where one of the texts that are needed does not read as TOML.
    pub fn new(windows: bool, extras_dir: Option<String>) -> (r: Result<ConfigManager, ParseError>)
        ensures
            match r {
                Ok(manager) => platform_settings(windows) is Some && syntax_settings() is Some
                    && manager@ == ManagerView::initial(
                    platform_settings(windows)->0,
                    syntax_settings()->0,
                    option_view(extras_dir),
                ),
                Err(_) => platform_settings(windows) is None || syntax_settings() is None,
            },
    {
        let defaults = match platform_defaults(windows) {
            Ok(table) => table,
            Err(e) => {
                return Err(e);
            },
        };
        let syntax = match syntax_defaults() {
            Ok(configs) => configs,
            Err(e) => {
                return Err(e);
            },
        };
        Ok(ConfigManager::with_defaults(defaults, syntax, extras_dir))
    }

    /// The pair of the settings for every buffer.
    pub fn defaults(&self) -> (pair: &ConfigPair)
        ensures
            pair@ == self@.defaults,
    {
        &self.defaults
    }

    /// The pair of the settings for `syntax`, if the syntax has one.
    pub fn syntax_pair(&self, syntax: SyntaxDefinition) -> (r: Option<&ConfigPair>)
        ensures
            match r {
                Some(pair) => self@.syntax_specific.contains_key(syntax)
                    && self@.syntax_specific[syntax] == pair@,
                None => !self@.syntax_specific.contains_key(syntax),
            },
    {
        let code = syntax.to_code();
        self.syntax_specific.get(&code)
    }

    /// The pair of the overrides for the buffer, if the buffer has one.
    pub fn override_pair(&self, buf_id: BufferIdentifier) -> (r: Option<&ConfigPair>)
        ensures
            match r {
                Some(pair) => self@.overrides.contains_key(buf_id) && self@.overrides[buf_id]
                    == pair@,
                None => !self@.overrides.contains_key(buf_id),
            },
    {
        self.overrides.get(&buf_id.0)
    }

    /// The directory that configuration files are read from.
    pub fn config_dir(&self) -> (dir: &Option<String>)
        ensures
            option_view(*dir) == self@.config_dir,
    {
        &self.config_dir
    }

    /// The directory of bundled resources.
    pub fn extras_dir(&self) -> (dir: &Option<String>)
        ensures
            option_view(*dir) == self@.extras_dir,
    {
        &self.extras_dir
    }

    /// Sets the directory of bundled resources, which every snapshot gets as
    /// the last entry of its search path.
    pub fn set_extras_dir(&mut self, path: &str)
        ensures
            final(self)@ == (ManagerView { extras_dir: Some(path@), ..old(self)@ }),
    {
        self.extras_dir = Some(path.to_owned());
    }

    /// Replaces the user's settings for `syntax`.
    pub fn set_user_syntax(&mut self, syntax: SyntaxDefinition, config: Table)
        ensures
            final(self)@ == old(self)@.with_user_syntax(syntax, config@),
    {
        let code = syntax.to_code();
        let ghost before = self@;
        let pair = match self.syntax_specific.remove(&code) {
            Some(mut pair) => {
                pair.set_user(config);
                pair
            },
            None => ConfigPair::new(None, Some(config)),
        };
        self.syntax_specific.insert(code, pair);
        proof {
            assert forall|x: SyntaxDefinition| x.code() == code implies x == syntax by {
                lemma_code_identifies(x);
            }
            assert(self@.syntax_specific =~= before.with_user_syntax(syntax, config@).syntax_specific);
            assert(self@.overrides =~= before.overrides);
        }
    }

    /// Replaces the user's settings for every buffer.
    pub fn set_user_defaults(&mut self, config: Table)
        ensures
            final(self)@ == old(self)@.with_user_defaults(config@),
    {
        self.defaults.set_user(config);
    }

    /// Applies user settings in bulk: those of the syntaxes in order, then
    /// those of every buffer.
    pub fn set_user_configs(
        &mut self,
        defaults: Option<Table>,
        syntax: Option<Vec<(SyntaxDefinition, Table)>>,
    )
        ensures
            final(self)@ == old(self)@.with_user_configs(
                crate::pair::layer_view(defaults),
                match syntax {
                    Some(configs) => Some(configs_view(configs@)),
                    None => None,
                },
            ),
    {
        match syntax {
            Some(configs) => {
                let ghost all = configs@;
                let mut rest = reversed(configs);
                assert(configs_view(all.take(0)) =~= Seq::empty());
                while rest.len() > 0
                    invariant
                        rest@.len() <= all.len(),
                        forall|i: int| 0 <= i < rest@.len() ==> rest@[i] == all[all.len() - 1 - i],
                        self@ == old(self)@.with_user_syntaxes(
                            configs_view(all.take(all.len() - rest@.len())),
                        ),
                    decreases rest.len(),
                {
                    let ghost n = all.len() - rest@.len();
                    let (s, table) = rest.pop().unwrap();
                    proof {
                        assert(configs_view(all.take(n + 1)).drop_last() =~= configs_view(all.take(n)));
                        assert(configs_view(all.take(n + 1)).last() == (s, table@));
                    }
                    self.set_user_syntax(s, table);
                }
                assert(all.take(all.len() as int) =~= all);
            },
            None => {},
        }
        match defaults {
            Some(config) => {
                self.set_user_defaults(config);
            },
            None => {},
        }
    }

    /// Replaces the user's settings of the configuration called
    /// `config_name`, and says whether there is a configuration of that name.
    pub fn update_config(&mut self, config_name: &str, new_config: Table) -> (known: bool)
        ensures
            final(self)@ == old(self)@.with_update(config_name@, new_config@),
            known == (config_name@ == preferences_name() || SyntaxDefinition::named(
                config_name@,
            ) is Some),
    {
        if str_eq(config_name, "preferences") {
            self.set_user_defaults(new_config);
            true
        } else {
            match SyntaxDefinition::try_from_name(config_name) {
                Some(syntax) => {
                    self.set_user_syntax(syntax, new_config);
                    true
                },
                None => false,
            }
        }
    }

    /// The settings in force for a buffer of the given syntax.
    pub fn settings_for(&self, syntax: Option<SyntaxDefinition>, buf_id: Option<BufferIdentifier>) -> (table:
        Table)
        ensures
            table@ == self@.settings_for(syntax, buf_id),
    {
        let mut settings = match syntax {
            Some(s) => {
                let code = s.to_code();
                match self.syntax_specific.get(&code) {
                    Some(pair) => self.defaults.merged_with(pair),
                    None => self.defaults.cache().clone(),
                }
            },
            None => self.defaults.cache().clone(),
        };
        match buf_id {
            Some(b) => {
                match self.overrides.get(&b.0) {
                    Some(pair) => {
                        settings.merge_from(pair.cache());
                    },
                    None => {},
                }
            },
            None => {},
        }
        settings
    }

    /// A snapshot of the settings in force for a buffer of the given syntax.
    ///
    /// Fails where a setting that the snapshot needs is missing or is of
    /// the wrong kind.
    pub fn get_config(&self, syntax: Option<SyntaxDefinition>, buf_id: Option<BufferIdentifier>) -> (r:
        Result<Config, ResolveError>)
        ensures
            match r {
                Ok(config) => self@.config_for(syntax, buf_id) == Ok::<ConfigView, ResolveError>(
                    config@,
                ),
                Err(e) => self@.config_for(syntax, buf_id) == Err::<ConfigView, ResolveError>(e),
            },
    {
        let settings = self.settings_for(syntax, buf_id);
        match Config::from_table(&settings) {
            Ok(mut config) => {
                config.locate(&self.config_dir, &self.extras_dir);
                Ok(config)
            },
            Err(e) => Err(e),
        }
    }

    /// Sets an override for one buffer. `from_user` says whether the
    /// override was asked for by the user or made by the editor itself; the
    /// user's overrides take precedence over the editor's.
    pub fn set_override(&mut self, key: &str, value: Value, buf_id: BufferIdentifier, from_user: bool)
        ensures
            final(self)@ == old(self)@.with_override(key@, value@, buf_id, from_user),
    {
        let ghost before = self@;
        let mut pair = match self.overrides.remove(&buf_id.0) {
            Some(pair) => pair,
            None => ConfigPair::new(None, None),
        };
        pair.set_override(key, value, from_user);
        self.overrides.insert(buf_id.0, pair);
        proof {
            assert(self@.overrides =~= before.with_override(key@, value@, buf_id, from_user).overrides);
            assert(self@.syntax_specific =~= before.syntax_specific);
        }
    }

    /// Sets the configuration directory and loads the user's settings from
    /// it, given the text of its preferences file, where that could be
    /// read, and its other files. Says what became of each of the files.
    ///
    /// A preferences file that is missing or holds no table leaves the user
    /// without settings for every buffer; a file that cannot be used for a
    /// syntax is passed over, and the others are loaded all the same.
    pub fn set_config_dir(&mut self, path: &str, preferences: Option<&str>, files: &Vec<ConfigFile>) -> (outcomes:
        Vec<Reload>)
        ensures
            final(self)@ == old(self)@.with_config_dir(path@, text_view(preferences), files@),
            outcomes@ == file_outcomes(files@),
    {
        let user_config = match load_contents(preferences) {
            Some(table) => table,
            None => Table::new(),
        };
        let (syntax_specific, outcomes) = load_syntax_configs(files);
        self.config_dir = Some(path.to_owned());
        self.set_user_configs(Some(user_config), Some(syntax_specific));
        outcomes
    }

    /// Takes note of a change in the configuration directory, given the text
    /// of the file that changed, where that could be read: a configuration
    /// file that was created or modified is loaded anew, under the name it
    /// has without its extension. Says what became of it.
    ///
    /// An event that is about no configuration file, a file that holds no
    /// table and a file named after no configuration change nothing.
    pub fn handle_fs_event(&mut self, event: FsEvent, contents: Option<&str>) -> (outcome: Reload)
        ensures
            final(self)@ == old(self)@.after_event(event, text_view(contents)),
            outcome == event_outcome(event, text_view(contents)),
    {
        match event.config_file() {
            Some(path) => match load_contents(contents) {
                Some(config) => {
                    let file_stem = file_stem(path);
                    let known = self.update_config(file_stem.as_str(), config);
                    if !known {
                        Reload::UnknownName
                    } else if str_eq(file_stem.as_str(), "preferences") {
                        Reload::Defaults
                    } else {
                        match SyntaxDefinition::try_from_name(file_stem.as_str()) {
                            Some(syntax) => Reload::Syntax(syntax),
                            None => Reload::UnknownName,
                        }
                    }
                },
                None => Reload::Failed,
            },
            None => Reload::Ignored,
        }
    }
}

} // verus!
