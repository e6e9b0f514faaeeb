//! A pair of layers, default settings masked by user settings, with the
//! merge of the two kept at hand.

use crate::value::{Table, Value, ValueView};
use vstd::prelude::*;

verus! {

/// The content of a table.
pub type Settings = Map<Seq<char>, ValueView>;

/// What a layer contributes: its entries, or nothing where it is absent.
pub open spec fn layer(table: Option<Settings>) -> Settings {
    match table {
        Some(entries) => entries,
        None => Map::empty(),
    }
}

/// The merge of two layers: every key of either, with the value of `user`
/// where `user` has the key and the value of `base` elsewhere. A value is
/// taken whole, a table among them too.
pub open spec fn overlay(base: Option<Settings>, user: Option<Settings>) -> Settings {
    layer(base).union_prefer_right(layer(user))
}

/// The content of an optional table.
pub open spec fn layer_view(table: Option<Table>) -> Option<Settings> {
    match table {
        Some(t) => Some(t@),
        None => None,
    }
}

/// The mathematical content of a [`ConfigPair`].
pub struct PairView {
    pub base: Option<Settings>,
    pub user: Option<Settings>,
    pub cache: Settings,
}

impl PairView {
    /// The cache is the merge of the two layers.
    pub open spec fn consistent(self) -> bool {
        self.cache == overlay(self.base, self.user)
    }

    /// The pair of the two layers.
    pub open spec fn new(base: Option<Settings>, user: Option<Settings>) -> PairView {
        PairView { base, user, cache: overlay(base, user) }
    }

    /// The pair with its cache computed anew from its layers.
    pub open spec fn rebuilt(self) -> PairView {
        PairView::new(self.base, self.user)
    }

    /// The pair with `user` in place of its user layer.
    pub open spec fn with_user(self, user: Settings) -> PairView {
        PairView::new(self.base, Some(user))
    }

    /// The pair with `value` stored under `key` in its user layer, or in its
    /// base layer where `from_user` is false; an absent layer starts empty.
    pub open spec fn with_override(self, key: Seq<char>, value: ValueView, from_user: bool) -> PairView {
        if from_user {
            PairView::new(self.base, Some(layer(self.user).insert(key, value)))
        } else {
            PairView::new(Some(layer(self.base).insert(key, value)), self.user)
        }
    }
}

/// Default settings masked by user settings.
#[derive(Debug)]
pub struct ConfigPair {
    /// The default settings, which bulk loading never changes.
    base: Option<Table>,
    /// The user's settings, which take precedence over those in `base`.
    user: Option<Table>,
    /// The merge of `base` and `user`.
    cache: Table,
}

impl View for ConfigPair {
    type V = PairView;

    closed spec fn view(&self) -> PairView {
        PairView { base: layer_view(self.base), user: layer_view(self.user), cache: self.cache@ }
    }
}

impl Clone for ConfigPair {
    fn clone(&self) -> (pair: ConfigPair)
        ensures
            pair@ == self@,
    {
        proof {
            use_type_invariant(self);
        }
        let base = match &self.base {
            Some(table) => Some(table.clone()),
            None => None,
        };
        let user = match &self.user {
            Some(table) => Some(table.clone()),
            None => None,
        };
        ConfigPair::new(base, user)
    }
}

impl Default for ConfigPair {
    fn default() -> (pair: ConfigPair)
        ensures
            pair@ == PairView::new(None, None),
    {
        ConfigPair::new(None, None)
    }
}

fn merged(base: &Option<Table>, user: &Option<Table>) -> (cache: Table)
    ensures
        cache@ == overlay(layer_view(*base), layer_view(*user)),
{
    let mut cache = match base {
        Some(table) => table.clone(),
        None => Table::new(),
    };
    match user {
        Some(table) => {
            cache.merge_from(table);
        },
        None => {
            assert(cache@ =~= cache@.union_prefer_right(Map::empty()));
        },
    }
    cache
}

impl ConfigPair {
    #[verifier::type_invariant]
    spec fn well_formed(self) -> bool {
        self@.consistent()
    }

    /// The pair of the two layers, with its cache.
    pub fn new(base: Option<Table>, user: Option<Table>) -> (pair: ConfigPair)
        ensures
            pair@ == PairView::new(layer_view(base), layer_view(user)),
    {
        let cache = merged(&base, &user);
        ConfigPair { base, user, cache }
    }

    /// The default settings.
    pub fn base(&self) -> (layer: &Option<Table>)
        ensures
            layer_view(*layer) == self@.base,
    {
        &self.base
    }

    /// The user's settings.
    pub fn user(&self) -> (layer: &Option<Table>)
        ensures
            layer_view(*layer) == self@.user,
    {
        &self.user
    }

    /// The merge of the two layers.
    pub fn cache(&self) -> (table: &Table)
        ensures
            table@ == self@.cache,
            table@ == overlay(self@.base, self@.user),
    {
        proof {
            use_type_invariant(self);
        }
        &self.cache
    }

    fn take_layers(&mut self) -> (layers: (Option<Table>, Option<Table>))
        ensures
            layer_view(layers.0) == old(self)@.base,
            layer_view(layers.1) == old(self)@.user,
    {
        let cache = Table::new();
        assert(overlay(None, None) =~= cache@);
        let mut taken = ConfigPair { base: None, user: None, cache };
        core::mem::swap(self, &mut taken);
        (taken.base, taken.user)
    }

    /// Replaces the whole user layer, and computes the cache anew.
    pub fn set_user(&mut self, user: Table)
        ensures
            final(self)@ == old(self)@.with_user(user@),
    {
        let (base, _) = self.take_layers();
        *self = ConfigPair::new(base, Some(user));
    }

    /// Computes the cache anew from the two layers.
    pub fn rebuild(&mut self)
        ensures
            final(self)@ == old(self)@.rebuilt(),
            final(self)@ == old(self)@,
    {
        proof {
            use_type_invariant(&*self);
        }
        let (base, user) = self.take_layers();
        *self = ConfigPair::new(base, user);
    }

    /// Stores `value` under `key` in the user layer, or in the base layer
    /// where `from_user` is false, and computes the cache anew.
    pub fn set_override(&mut self, key: &str, value: Value, from_user: bool)
        ensures
            final(self)@ == old(self)@.with_override(key@, value@, from_user),
    {
        let (base, user) = self.take_layers();
        if from_user {
            let mut table = match user {
                Some(table) => table,
                None => Table::new(),
            };
            table.insert(key.to_owned(), value);
            *self = ConfigPair::new(base, Some(table));
        } else {
            let mut table = match base {
                Some(table) => table,
                None => Table::new(),
            };
            table.insert(key.to_owned(), value);
            *self = ConfigPair::new(Some(table), user);
        }
    }

    /// A new table: the cache of `self` with the cache of `other` laid over
    /// it.
    pub fn merged_with(&self, other: &ConfigPair) -> (table: Table)
        ensures
            table@ == self@.cache.union_prefer_right(other@.cache),
    {
        let mut result = self.cache.clone();
        result.merge_from(&other.cache);
        result
    }
}

} // verus!
