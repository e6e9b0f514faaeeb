//! What holds of the layers whatever they contain.

use crate::manager::{preferences_name, ManagerView};
use crate::pair::{layer, overlay, PairView, Settings};
use crate::paths::{app_dir, config_dir_of, file_stem_of, home_config_dir, joined};
use crate::reload::{config_file_of, document_of, event_outcome, FsEvent, Reload};
use crate::settings::{tab_size_in, Field};
use crate::syntax::SyntaxDefinition;
use crate::tabs::BufferIdentifier;
use crate::value::ValueView;
use vstd::prelude::*;

verus! {

/// A directory that is named outright is the configuration directory,
/// whatever the base directory and the home directory are.
pub proof fn lemma_explicit_dir_wins(
    explicit: Seq<char>,
    base: Option<Seq<char>>,
    home: Option<Seq<char>>,
)
    ensures
        config_dir_of(Some(explicit), base, home) == Some(explicit),
{
}

/// Where no directory is named outright, the configuration directory is the
/// application's directory below the base directory, whatever the home
/// directory is.
pub proof fn lemma_base_dir_comes_next(base: Seq<char>, home: Option<Seq<char>>)
    ensures
        config_dir_of(None, Some(base), home) == Some(joined(base, app_dir())),
{
}

/// Where neither a directory nor a base directory is named, the
/// configuration directory is the application's directory below `.config`
/// in the home directory, and there is none without a home directory.
pub proof fn lemma_home_dir_comes_last(home: Option<Seq<char>>)
    ensures
        home matches Some(dir) ==> config_dir_of(None, None, home) == Some(
            joined(joined(dir, home_config_dir()), app_dir()),
        ),
        home is None ==> config_dir_of(None, None, home) is None,
{
}

/// In the merge of two layers the user's value stands under every key that
/// the user layer holds, and the base layer's value under every other key
/// that the base layer holds; the merge has no further keys.
pub proof fn lemma_overlay_precedence(base: Option<Settings>, user: Option<Settings>, key: Seq<char>)
    ensures
        layer(user).contains_key(key) ==> overlay(base, user).contains_key(key) && overlay(
            base,
            user,
        )[key] == layer(user)[key],
        !layer(user).contains_key(key) && layer(base).contains_key(key) ==> overlay(
            base,
            user,
        ).contains_key(key) && overlay(base, user)[key] == layer(base)[key],
        !layer(user).contains_key(key) && !layer(base).contains_key(key) ==> !overlay(
            base,
            user,
        ).contains_key(key),
{
}

/// Computing the cache of a pair anew gives a pair whose cache is the merge
/// of its layers; doing so twice gives what doing so once gives, and a pair
/// whose cache is the merge of its layers already is left as it is.
pub proof fn lemma_rebuild_is_idempotent(pair: PairView)
    ensures
        pair.rebuilt().consistent(),
        pair.rebuilt().rebuilt() == pair.rebuilt(),
        pair.consistent() ==> pair.rebuilt() == pair,
{
}

/// The operations on a pair leave its cache the merge of its layers.
pub proof fn lemma_pair_stays_consistent(
    pair: PairView,
    user: Settings,
    key: Seq<char>,
    value: ValueView,
    from_user: bool,
)
    ensures
        PairView::new(pair.base, pair.user).consistent(),
        pair.with_user(user).consistent(),
        pair.with_override(key, value, from_user).consistent(),
{
}

/// Whether an override of `key` for the buffer, made in the given layer,
/// can be seen: one made in the user layer always, one made in the base
/// layer unless the user layer of the buffer's pair holds the key.
pub open spec fn override_shows(
    manager: ManagerView,
    key: Seq<char>,
    buf_id: BufferIdentifier,
    from_user: bool,
) -> bool {
    from_user || !(manager.overrides.contains_key(buf_id) && layer(
        manager.overrides[buf_id].user,
    ).contains_key(key))
}

/// Once an override is set for a buffer, the settings in force for that
/// buffer hold its value under its key, whatever the syntax: nothing has to
/// be done in between. This is said of the overrides that can be seen.
pub proof fn lemma_override_is_in_force(
    manager: ManagerView,
    key: Seq<char>,
    value: ValueView,
    buf_id: BufferIdentifier,
    from_user: bool,
    syntax: Option<SyntaxDefinition>,
)
    requires
        override_shows(manager, key, buf_id, from_user),
    ensures
        manager.with_override(key, value, buf_id, from_user).settings_for(
            syntax,
            Some(buf_id),
        ).contains_key(key),
        manager.with_override(key, value, buf_id, from_user).settings_for(syntax, Some(buf_id))[key]
            == value,
{
}

/// Once the tab size is overridden for a buffer, every snapshot for that
/// buffer has the new tab size. This is said of the overrides that can be
/// seen.
pub proof fn lemma_tab_size_override_is_in_force(
    manager: ManagerView,
    size: nat,
    buf_id: BufferIdentifier,
    from_user: bool,
    syntax: Option<SyntaxDefinition>,
)
    requires
        override_shows(manager, Field::TabSize.key(), buf_id, from_user),
        size <= usize::MAX,
    ensures
        manager.with_override(
            Field::TabSize.key(),
            ValueView::Integer(size as int),
            buf_id,
            from_user,
        ).config_for(syntax, Some(buf_id)) matches Ok(config) ==> config.tab_size == size,
{
    let after = manager.with_override(
        Field::TabSize.key(),
        ValueView::Integer(size as int),
        buf_id,
        from_user,
    );
    lemma_override_is_in_force(
        manager,
        Field::TabSize.key(),
        ValueView::Integer(size as int),
        buf_id,
        from_user,
        syntax,
    );
    let settings = after.settings_for(syntax, Some(buf_id));
    assert(tab_size_in(settings) == Ok::<nat, crate::settings::ResolveError>(size));
}

/// An override for one buffer changes nothing for any other buffer, nor for
/// a request that names no buffer.
pub proof fn lemma_override_is_local(
    manager: ManagerView,
    key: Seq<char>,
    value: ValueView,
    buf_id: BufferIdentifier,
    from_user: bool,
    syntax: Option<SyntaxDefinition>,
    other: Option<BufferIdentifier>,
)
    requires
        other != Some(buf_id),
    ensures
        manager.with_override(key, value, buf_id, from_user).settings_for(syntax, other)
            == manager.settings_for(syntax, other),
{
}

/// An event about a file with the name of the preferences replaces the
/// user's settings for every buffer by the table that the file holds, and
/// nothing else: the defaults, the settings of every syntax, the overrides
/// and the directories stay as they are.
pub proof fn lemma_preferences_event(
    manager: ManagerView,
    event: FsEvent,
    contents: Option<Seq<char>>,
)
    requires
        config_file_of(event) matches Some(path) && file_stem_of(path) == preferences_name(),
        document_of(contents) is Some,
    ensures
        manager.after_event(event, contents).defaults.user == document_of(contents),
        manager.after_event(event, contents).defaults.base == manager.defaults.base,
        manager.after_event(event, contents).defaults.consistent(),
        manager.after_event(event, contents) == (ManagerView {
            defaults: manager.after_event(event, contents).defaults,
            ..manager
        }),
        event_outcome(event, contents) == Reload::Defaults,
{
}

/// An event about a configuration file that is named after no configuration
/// changes nothing, and is answered with a refusal.
pub proof fn lemma_unknown_name_event(
    manager: ManagerView,
    event: FsEvent,
    contents: Option<Seq<char>>,
)
    requires
        config_file_of(event) matches Some(path) && file_stem_of(path) != preferences_name()
            && SyntaxDefinition::named(file_stem_of(path)) is None,
    ensures
        manager.after_event(event, contents) == manager,
        event_outcome(event, contents) == Reload::UnknownName || event_outcome(event, contents)
            == Reload::Failed,
        document_of(contents) is Some ==> event_outcome(event, contents) == Reload::UnknownName,
{
}

/// An event about a file that holds no table changes nothing, and neither
/// does an event about anything but a configuration file.
pub proof fn lemma_useless_event(manager: ManagerView, event: FsEvent, contents: Option<Seq<char>>)
    requires
        config_file_of(event) is None || document_of(contents) is None,
    ensures
        manager.after_event(event, contents) == manager,
        config_file_of(event) is None ==> event_outcome(event, contents) == Reload::Ignored,
        config_file_of(event) is Some ==> event_outcome(event, contents) == Reload::Failed,
{
}

/// The settings of a syntax stand before the user's settings for every
/// buffer: where the pair of the syntax holds a key, in either of its
/// layers, the settings in force for the syntax have the pair's value.
pub proof fn lemma_syntax_outranks_defaults(
    manager: ManagerView,
    syntax: SyntaxDefinition,
    key: Seq<char>,
)
    requires
        manager.syntax_specific.contains_key(syntax),
        manager.syntax_specific[syntax].cache.contains_key(key),
    ensures
        manager.settings_for(Some(syntax), None)[key] == manager.syntax_specific[syntax].cache[key],
{
}

} // verus!
