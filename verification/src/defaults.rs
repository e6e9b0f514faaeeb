//! The settings that ship with the editor.

use crate::pair::Settings;
use crate::parse::{load_config, toml_document, ParseError};
use crate::syntax::SyntaxDefinition;
use crate::value::Table;
use vstd::prelude::*;

verus! {

/// The settings of every platform.
pub const BASE: &'static str =
    "newline = \"\\n\"\ntab_size = 4\ntranslate_tabs_to_spaces = true\nplugin_search_path = [\"plugins\"]\n";

/// What Windows sets otherwise.
pub const WINDOWS: &'static str = "newline = \"\\r\\n\"\n";

/// What YAML buffers set otherwise.
pub const YAML: &'static str = "tab_size = 2\ntranslate_tabs_to_spaces = true\n";

/// What makefiles set otherwise.
pub const MAKEFILE: &'static str = "translate_tabs_to_spaces = false\n";

/// The settings that the platform starts from: those of every platform,
/// with those of Windows laid over them where `windows` is set. `None`
/// where a text that is needed does not read as TOML.
pub open spec fn platform_settings(windows: bool) -> Option<Settings> {
    match toml_document(BASE@) {
        None => None,
        Some(base) => if windows {
            match toml_document(WINDOWS@) {
                None => None,
                Some(overrides) => Some(base.union_prefer_right(overrides)),
            }
        } else {
            Some(base)
        },
    }
}

/// What the platform sets otherwise than the others: something on Windows
/// alone.
pub fn platform_overrides(windows: bool) -> (r: Result<Option<Table>, ParseError>)
    ensures
        match r {
            Ok(Some(table)) => windows && toml_document(WINDOWS@) == Some(table@),
            Ok(None) => !windows,
            Err(_) => windows && toml_document(WINDOWS@) is None,
        },
{
    if windows {
        match load_config(WINDOWS) {
            Ok(table) => Ok(Some(table)),
            Err(e) => Err(e),
        }
    } else {
        Ok(None)
    }
}

/// The settings that the platform starts from.
pub fn platform_defaults(windows: bool) -> (r: Result<Table, ParseError>)
    ensures
        match r {
            Ok(table) => platform_settings(windows) == Some(table@),
            Err(_) => platform_settings(windows) is None,
        },
{
    let mut base = match load_config(BASE) {
        Ok(table) => table,
        Err(e) => {
            return Err(e);
        },
    };
    match platform_overrides(windows) {
        Ok(Some(overrides)) => {
            base.merge_from(&overrides);
        },
        Ok(None) => {},
        Err(e) => {
            return Err(e);
        },
    }
    Ok(base)
}

/// The settings that single syntaxes start from, syntax by syntax. `None`
/// where a text does not read as TOML.
pub open spec fn syntax_settings() -> Option<Seq<(SyntaxDefinition, Settings)>> {
    match (toml_document(YAML@), toml_document(MAKEFILE@)) {
        (Some(yaml), Some(makefile)) => Some(
            seq![(SyntaxDefinition::Yaml, yaml), (SyntaxDefinition::Makefile, makefile)],
        ),
        _ => None,
    }
}

/// The contents of a list of tables by syntax.
pub open spec fn configs_view(configs: Seq<(SyntaxDefinition, Table)>) -> Seq<
    (SyntaxDefinition, Settings),
> {
    configs.map_values(|c: (SyntaxDefinition, Table)| (c.0, c.1@))
}

/// The settings that single syntaxes start from.
pub fn syntax_defaults() -> (r: Result<Vec<(SyntaxDefinition, Table)>, ParseError>)
    ensures
        match r {
            Ok(configs) => syntax_settings() == Some(configs_view(configs@)),
            Err(_) => syntax_settings() is None,
        },
{
    let yaml = match load_config(YAML) {
        Ok(table) => table,
        Err(e) => {
            return Err(e);
        },
    };
    let makefile = match load_config(MAKEFILE) {
        Ok(table) => table,
        Err(e) => {
            return Err(e);
        },
    };
    let mut configs: Vec<(SyntaxDefinition, Table)> = Vec::new();
    configs.push((SyntaxDefinition::Yaml, yaml));
    configs.push((SyntaxDefinition::Makefile, makefile));
    assert(configs_view(configs@) =~= seq![
        (SyntaxDefinition::Yaml, yaml@),
        (SyntaxDefinition::Makefile, makefile@),
    ]);
    Ok(configs)
}

} // verus!
