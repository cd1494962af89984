//! Saved profiles: each a provider, a model and launch settings, kept under a
//! unique name and sorted by name, with one of them the default.
use vstd::prelude::*;

use crate::text::{
    lemma_text_lt_irreflexive, lemma_text_lt_total, lemma_text_lt_transitive, str_eq, text_less,
    text_lt,
};

verus! {

/// The settings saved under a profile name.
#[derive(Debug, Clone)]
pub struct ProfileConfig {
    pub provider: String,
    pub model: Option<String>,
    pub upstream: Option<String>,
    pub api_key_env: Option<String>,
    pub port: Option<u16>,
    pub relay_url: Option<String>,
    pub codex_bin: Option<String>,
    pub relay_bin: Option<String>,
    pub approval: Option<String>,
    pub sandbox: Option<String>,
    pub context_window: Option<u32>,
    pub codex_args: Vec<String>,
}

/// A saved profile as plain values.
pub struct ProfileView {
    pub provider: Seq<char>,
    pub model: Option<Seq<char>>,
    pub upstream: Option<Seq<char>>,
    pub api_key_env: Option<Seq<char>>,
    pub port: Option<u16>,
    pub relay_url: Option<Seq<char>>,
    pub codex_bin: Option<Seq<char>>,
    pub relay_bin: Option<Seq<char>>,
    pub approval: Option<Seq<char>>,
    pub sandbox: Option<Seq<char>>,
    pub context_window: Option<u32>,
    pub codex_args: Seq<Seq<char>>,
}

/// The characters of an optional string.
pub open spec fn opt_text(o: Option<String>) -> Option<Seq<char>> {
    match o {
        Some(s) => Some(s@),
        None => None,
    }
}

pub open spec fn arg_texts(v: Seq<String>) -> Seq<Seq<char>> {
    v.map_values(|s: String| s@)
}

impl View for ProfileConfig {
    type V = ProfileView;

    open spec fn view(&self) -> ProfileView {
        ProfileView {
            provider: self.provider@,
            model: opt_text(self.model),
            upstream: opt_text(self.upstream),
            api_key_env: opt_text(self.api_key_env),
            port: self.port,
            relay_url: opt_text(self.relay_url),
            codex_bin: opt_text(self.codex_bin),
            relay_bin: opt_text(self.relay_bin),
            approval: opt_text(self.approval),
            sandbox: opt_text(self.sandbox),
            context_window: self.context_window,
            codex_args: arg_texts(self.codex_args@),
        }
    }
}

/// The profile with nothing set.
pub open spec fn empty_profile() -> ProfileView {
    ProfileView {
        provider: Seq::empty(),
        model: None,
        upstream: None,
        api_key_env: None,
        port: None,
        relay_url: None,
        codex_bin: None,
        relay_bin: None,
        approval: None,
        sandbox: None,
        context_window: None,
        codex_args: Seq::empty(),
    }
}

/// A copy of an optional string.
pub fn clone_opt(o: &Option<String>) -> (r: Option<String>)
    ensures
        opt_text(r) == opt_text(*o),
{
    match o {
        Some(s) => Some(s.clone()),
        None => None,
    }
}

/// A copy of a list of strings.
pub fn clone_args(v: &Vec<String>) -> (r: Vec<String>)
    ensures
        arg_texts(r@) == arg_texts(v@),
{
    let mut r: Vec<String> = Vec::new();
    let mut i: usize = 0;
    while i < v.len()
        invariant
            i <= v@.len(),
            arg_texts(r@) == arg_texts(v@.subrange(0, i as int)),
        decreases v.len() - i,
    {
        let ghost before = r@;
        let c = v[i].clone();
        assert(c@ == v@[i as int]@);
        r.push(c);
        assert(r@ == before.push(c));
        assert(arg_texts(before.push(c)) =~= arg_texts(before).push(c@));
        assert(v@.subrange(0, i + 1) =~= v@.subrange(0, i as int).push(v@[i as int]));
        assert(arg_texts(v@.subrange(0, i as int).push(v@[i as int])) =~= arg_texts(
            v@.subrange(0, i as int),
        ).push(v@[i as int]@));
        assert(arg_texts(r@) =~= arg_texts(v@.subrange(0, i + 1)));
        i = i + 1;
    }
    assert(v@.subrange(0, i as int) == v@);
    r
}

impl ProfileConfig {
    /// The profile with nothing set.
    pub fn empty() -> (r: ProfileConfig)
        ensures
            r@ == empty_profile(),
    {
        let r = ProfileConfig {
            provider: String::new(),
            model: None,
            upstream: None,
            api_key_env: None,
            port: None,
            relay_url: None,
            codex_bin: None,
            relay_bin: None,
            approval: None,
            sandbox: None,
            context_window: None,
            codex_args: Vec::new(),
        };
        assert(arg_texts(r.codex_args@) =~= Seq::<Seq<char>>::empty());
        r
    }

    /// A copy of the profile.
    pub fn duplicate(&self) -> (r: ProfileConfig)
        ensures
            r@ == self@,
    {
        ProfileConfig {
            provider: self.provider.clone(),
            model: clone_opt(&self.model),
            upstream: clone_opt(&self.upstream),
            api_key_env: clone_opt(&self.api_key_env),
            port: self.port,
            relay_url: clone_opt(&self.relay_url),
            codex_bin: clone_opt(&self.codex_bin),
            relay_bin: clone_opt(&self.relay_bin),
            approval: clone_opt(&self.approval),
            sandbox: clone_opt(&self.sandbox),
            context_window: self.context_window,
            codex_args: clone_args(&self.codex_args),
        }
    }
}

impl Default for ProfileConfig {
    fn default() -> (r: ProfileConfig)
        ensures
            r@ == empty_profile(),
    {
        ProfileConfig::empty()
    }
}

/// Saved profiles as (name, profile) pairs, in the order they are kept.
pub open spec fn entry_views(v: Seq<(String, ProfileConfig)>) -> Seq<(Seq<char>, ProfileView)> {
    v.map_values(|e: (String, ProfileConfig)| (e.0@, e.1@))
}

/// No name occurs twice.
pub open spec fn distinct_names(s: Seq<(Seq<char>, ProfileView)>) -> bool {
    forall|i: int, j: int| 0 <= i < s.len() && 0 <= j < s.len() && i != j ==> #[trigger] s[i].0
        != #[trigger] s[j].0
}

/// The names come in the order of `str`, each before the next.
pub open spec fn sorted_names(s: Seq<(Seq<char>, ProfileView)>) -> bool {
    forall|i: int, j: int| 0 <= i < j < s.len() ==> text_lt(#[trigger] s[i].0, #[trigger] s[j].0)
}

/// The profiles by name.
pub open spec fn entries_map(s: Seq<(Seq<char>, ProfileView)>) -> Map<Seq<char>, ProfileView>
    decreases s.len(),
{
    if s.len() == 0 {
        Map::empty()
    } else {
        entries_map(s.drop_last()).insert(s.last().0, s.last().1)
    }
}

/// The saved configuration: the default profile's name and the profiles.
#[derive(Debug)]
pub struct ConfigFile {
    default_profile: Option<String>,
    profiles: Vec<(String, ProfileConfig)>,
}

impl ConfigFile {
    #[verifier::type_invariant]
    spec fn names_are_sorted(self) -> bool {
        distinct_names(entry_views(self.profiles@)) && sorted_names(entry_views(self.profiles@))
    }

    /// The saved profiles, sorted by name.
    pub closed spec fn entries(self) -> Seq<(Seq<char>, ProfileView)> {
        entry_views(self.profiles@)
    }

    /// The saved profiles by name.
    pub open spec fn profiles_map(self) -> Map<Seq<char>, ProfileView> {
        entries_map(self.entries())
    }

    /// The name of the default profile.
    pub closed spec fn default_name(self) -> Option<Seq<char>> {
        opt_text(self.default_profile)
    }

    /// A configuration with no profiles.
    pub fn new(default_profile: Option<String>) -> (r: ConfigFile)
        ensures
            r.entries() == Seq::<(Seq<char>, ProfileView)>::empty(),
            r.default_name() == opt_text(default_profile),
    {
        let r = ConfigFile { default_profile, profiles: Vec::new() };
        assert(entry_views(r.profiles@) =~= Seq::<(Seq<char>, ProfileView)>::empty());
        r
    }

    /// The saved profiles, sorted by name.
    pub fn profiles(&self) -> (r: &Vec<(String, ProfileConfig)>)
        ensures
            entry_views(r@) == self.entries(),
            sorted_names(self.entries()),
    {
        proof {
            use_type_invariant(self);
        }
        &self.profiles
    }

    /// The name of the default profile.
    pub fn default_profile(&self) -> (r: &Option<String>)
        ensures
            opt_text(*r) == self.default_name(),
    {
        &self.default_profile
    }

    /// Makes `name` the default profile, or clears the default.
    pub fn set_default_profile(&mut self, name: Option<String>)
        ensures
            final(self).default_name() == opt_text(name),
            final(self).entries() == old(self).entries(),
    {
        proof {
            use_type_invariant(&*self);
        }
        self.default_profile = name;
    }

    /// The position of the profile named `name`, if any.
    fn position(&self, name: &str) -> (r: Option<usize>)
        ensures
            match r {
                Some(i) => i < self.entries().len() && self.entries()[i as int].0 == name@,
                None => forall|i: int| 0 <= i < self.entries().len() ==> #[trigger] self.entries()[i].0 != name@,
            },
    {
        let mut i: usize = 0;
        while i < self.profiles.len()
            invariant
                i <= self.profiles@.len(),
                forall|k: int| 0 <= k < i ==> #[trigger] entry_views(self.profiles@)[k].0 != name@,
            decreases self.profiles.len() - i,
        {
            assert(entry_views(self.profiles@)[i as int].0 == self.profiles@[i as int].0@);
            if str_eq(self.profiles[i].0.as_str(), name) {
                return Some(i);
            }
            i = i + 1;
        }
        None
    }

    /// The profile saved under `name`.
    pub fn get(&self, name: &str) -> (r: Option<&ProfileConfig>)
        ensures
            match r {
                Some(p) => self.profiles_map().contains_key(name@) && self.profiles_map()[name@]
                    == p@,
                None => !self.profiles_map().contains_key(name@),
            },
    {
        proof {
            use_type_invariant(self);
        }
        match self.position(name) {
            Some(i) => {
                proof {
                    lemma_map_at(self.entries(), i as int);
                    assert(self.entries()[i as int].1 == self.profiles@[i as int].1@);
                }
                Some(&self.profiles[i].1)
            },
            None => {
                proof {
                    lemma_map_keys(self.entries(), name@);
                }
                None
            },
        }
    }

    /// Saves `profile` under `name`, replacing a profile of that name in place or
    /// adding it where its name belongs in the order.
    pub fn set_profile(&mut self, name: String, profile: ProfileConfig)
        ensures
            final(self).profiles_map() == old(self).profiles_map().insert(name@, profile@),
            final(self).default_name() == old(self).default_name(),
    {
        proof {
            use_type_invariant(&*self);
        }
        let ghost old_entries = self.entries();
        let ghost key = name@;
        let ghost value = profile@;
        match self.position(name.as_str()) {
            Some(i) => {
                proof {
                    lemma_map_update(old_entries, i as int, value);
                }
                let mut profiles: Vec<(String, ProfileConfig)> = Vec::new();
                std::mem::swap(&mut profiles, &mut self.profiles);
                profiles.set(i, (name, profile));
                assert(entry_views(profiles@) =~= old_entries.update(i as int, (key, value)));
                assert(sorted_names(entry_views(profiles@))) by {
                    let t = entry_views(profiles@);
                    assert forall|a: int, b: int| 0 <= a < b < t.len() implies text_lt(
                        #[trigger] t[a].0,
                        #[trigger] t[b].0,
                    ) by {
                        assert(t[a].0 == old_entries[a].0);
                        assert(t[b].0 == old_entries[b].0);
                    }
                }
                self.profiles = profiles;
            },
            None => {
                let mut p: usize = 0;
                while p < self.profiles.len() && text_less(self.profiles[p].0.as_str(), name.as_str())
                    invariant
                        p <= self.profiles@.len(),
                        old_entries == entry_views(self.profiles@),
                        key == name@,
                        forall|k: int| 0 <= k < p ==> text_lt(#[trigger] old_entries[k].0, key),
                    decreases self.profiles.len() - p,
                {
                    assert(old_entries[p as int].0 == self.profiles@[p as int].0@);
                    p = p + 1;
                }
                proof {
                    if p < old_entries.len() {
                        assert(old_entries[p as int].0 == self.profiles@[p as int].0@);
                        lemma_text_lt_total(old_entries[p as int].0, key);
                    }
                    assert forall|k: int| p <= k < old_entries.len() implies text_lt(
                        key,
                        #[trigger] old_entries[k].0,
                    ) by {
                        if k > p {
                            lemma_text_lt_transitive(key, old_entries[p as int].0, old_entries[k].0);
                        }
                    }
                    lemma_map_insert(old_entries, p as int, key, value);
                }
                let mut profiles: Vec<(String, ProfileConfig)> = Vec::new();
                std::mem::swap(&mut profiles, &mut self.profiles);
                profiles.insert(p, (name, profile));
                assert(entry_views(profiles@) =~= old_entries.insert(p as int, (key, value)));
                self.profiles = profiles;
            },
        }
    }

    /// Removes the profile named `name`, if there is one; the others keep their order.
    pub fn remove_profile(&mut self, name: &str)
        ensures
            final(self).profiles_map() == old(self).profiles_map().remove(name@),
            final(self).default_name() == old(self).default_name(),
    {
        proof {
            use_type_invariant(&*self);
        }
        let ghost old_entries = self.entries();
        match self.position(name) {
            Some(i) => {
                proof {
                    lemma_map_remove(old_entries, i as int);
                }
                let mut profiles: Vec<(String, ProfileConfig)> = Vec::new();
                std::mem::swap(&mut profiles, &mut self.profiles);
                let _removed = profiles.remove(i);
                assert(entry_views(profiles@) =~= old_entries.remove(i as int));
                assert(sorted_names(entry_views(profiles@))) by {
                    let t = entry_views(profiles@);
                    assert forall|a: int, b: int| 0 <= a < b < t.len() implies text_lt(
                        #[trigger] t[a].0,
                        #[trigger] t[b].0,
                    ) by {
                        let a2 = if a < i { a } else { a + 1 };
                        let b2 = if b < i { b } else { b + 1 };
                        assert(t[a] == old_entries[a2]);
                        assert(t[b] == old_entries[b2]);
                        assert(text_lt(old_entries[a2].0, old_entries[b2].0));
                    }
                }
                self.profiles = profiles;
            },
            None => {
                proof {
                    lemma_map_keys(old_entries, name@);
                    assert(entries_map(old_entries).remove(name@) =~= entries_map(old_entries));
                }
            },
        }
    }

    /// Saves `profile` under `name`, and makes `name` the default profile when no
    /// default is set.
    pub fn insert_profile(&mut self, name: String, profile: ProfileConfig)
        ensures
            final(self).profiles_map() == old(self).profiles_map().insert(name@, profile@),
            final(self).default_name() == match old(self).default_name() {
                Some(d) => Some(d),
                None => Some(name@),
            },
    {
        let default_missing = self.default_profile.is_none();
        let key = name.clone();
        self.set_profile(name, profile);
        if default_missing {
            self.set_default_profile(Some(key));
        }
    }
}

/// A name is a key of the map exactly when some entry carries it.
pub proof fn lemma_map_keys(s: Seq<(Seq<char>, ProfileView)>, k: Seq<char>)
    ensures
        entries_map(s).contains_key(k) <==> exists|i: int| 0 <= i < s.len() && #[trigger] s[i].0
            == k,
    decreases s.len(),
{
    if s.len() > 0 {
        let p = s.drop_last();
        lemma_map_keys(p, k);
        if exists|i: int| 0 <= i < p.len() && #[trigger] p[i].0 == k {
            let i = choose|i: int| 0 <= i < p.len() && #[trigger] p[i].0 == k;
            assert(s[i].0 == k);
        }
        if exists|i: int| 0 <= i < s.len() && #[trigger] s[i].0 == k {
            let i = choose|i: int| 0 <= i < s.len() && #[trigger] s[i].0 == k;
            if i < p.len() {
                assert(p[i].0 == k);
            }
        }
    }
}

proof fn lemma_prefix_distinct(s: Seq<(Seq<char>, ProfileView)>)
    requires
        distinct_names(s),
        s.len() > 0,
    ensures
        distinct_names(s.drop_last()),
        forall|i: int| 0 <= i < s.len() - 1 ==> #[trigger] s.drop_last()[i].0 != s.last().0,
{
    let p = s.drop_last();
    assert forall|i: int, j: int| 0 <= i < p.len() && 0 <= j < p.len() && i != j implies #[trigger] p[i].0
        != #[trigger] p[j].0 by {
        assert(s[i].0 != s[j].0);
    }
    assert forall|i: int| 0 <= i < s.len() - 1 implies #[trigger] s.drop_last()[i].0 != s.last().0 by {
        assert(s[i].0 != s[s.len() - 1].0);
    }
}

/// With distinct names, the map holds each entry's profile under its name.
pub proof fn lemma_map_at(s: Seq<(Seq<char>, ProfileView)>, i: int)
    requires
        distinct_names(s),
        0 <= i < s.len(),
    ensures
        entries_map(s).contains_key(s[i].0),
        entries_map(s)[s[i].0] == s[i].1,
    decreases s.len(),
{
    if i < s.len() - 1 {
        lemma_prefix_distinct(s);
        lemma_map_at(s.drop_last(), i);
        assert(s.drop_last()[i] == s[i]);
    }
}

/// Placing an entry under a new name, between names before and after it in the
/// order, keeps the names sorted and adds that name to the map.
proof fn lemma_map_insert(s: Seq<(Seq<char>, ProfileView)>, p: int, k: Seq<char>, v: ProfileView)
    requires
        distinct_names(s),
        sorted_names(s),
        0 <= p <= s.len(),
        forall|i: int| 0 <= i < p ==> text_lt(#[trigger] s[i].0, k),
        forall|i: int| p <= i < s.len() ==> text_lt(k, #[trigger] s[i].0),
    ensures
        distinct_names(s.insert(p, (k, v))),
        sorted_names(s.insert(p, (k, v))),
        entries_map(s.insert(p, (k, v))) == entries_map(s).insert(k, v),
{
    let t = s.insert(p, (k, v));
    assert forall|i: int| 0 <= i < s.len() implies #[trigger] s[i].0 != k by {
        lemma_text_lt_irreflexive(k);
        if i < p {
            assert(text_lt(s[i].0, k));
        } else {
            assert(text_lt(k, s[i].0));
        }
    }
    assert forall|a: int, b: int| 0 <= a < b < t.len() implies text_lt(#[trigger] t[a].0, #[trigger] t[b].0) by {
        if a < p && b < p {
            assert(t[a] == s[a] && t[b] == s[b]);
        } else if a < p && b == p {
            assert(t[a] == s[a]);
        } else if a < p {
            assert(t[a] == s[a] && t[b] == s[b - 1]);
            lemma_text_lt_transitive(s[a].0, k, s[b - 1].0);
        } else if a == p {
            assert(t[b] == s[b - 1]);
        } else {
            assert(t[a] == s[a - 1] && t[b] == s[b - 1]);
        }
    }
    assert forall|a: int, b: int| 0 <= a < t.len() && 0 <= b < t.len() && a != b implies #[trigger] t[a].0
        != #[trigger] t[b].0 by {
        if a < b {
            lemma_text_lt_total(t[a].0, t[b].0);
            lemma_text_lt_irreflexive(t[a].0);
        } else {
            lemma_text_lt_irreflexive(t[b].0);
        }
    }
    assert forall|x: Seq<char>| #[trigger] entries_map(t).contains_key(x) <==> entries_map(s).insert(k, v).contains_key(x) by {
        lemma_map_keys(t, x);
        lemma_map_keys(s, x);
        if exists|i: int| 0 <= i < s.len() && #[trigger] s[i].0 == x {
            let i = choose|i: int| 0 <= i < s.len() && #[trigger] s[i].0 == x;
            if i < p {
                assert(t[i] == s[i]);
            } else {
                assert(t[i + 1] == s[i]);
            }
        }
        if exists|i: int| 0 <= i < t.len() && #[trigger] t[i].0 == x {
            let i = choose|i: int| 0 <= i < t.len() && #[trigger] t[i].0 == x;
            if i < p {
                assert(t[i] == s[i]);
            } else if i > p {
                assert(t[i] == s[i - 1]);
            }
        }
        assert(t[p].0 == k);
    }
    assert forall|x: Seq<char>| #[trigger] entries_map(t).contains_key(x) implies entries_map(t)[x] == entries_map(s).insert(k, v)[x] by {
        if x == k {
            lemma_map_at(t, p);
        } else {
            lemma_map_keys(s, x);
            let i = choose|i: int| 0 <= i < s.len() && #[trigger] s[i].0 == x;
            lemma_map_at(s, i);
            if i < p {
                assert(t[i] == s[i]);
                lemma_map_at(t, i);
            } else {
                assert(t[i + 1] == s[i]);
                lemma_map_at(t, i + 1);
            }
        }
    }
    assert(entries_map(t) =~= entries_map(s).insert(k, v));
}

/// Replacing the profile of an existing entry updates the map at its name.
pub proof fn lemma_map_update(s: Seq<(Seq<char>, ProfileView)>, i: int, v: ProfileView)
    requires
        distinct_names(s),
        0 <= i < s.len(),
    ensures
        entries_map(s.update(i, (s[i].0, v))) == entries_map(s).insert(s[i].0, v),
        distinct_names(s.update(i, (s[i].0, v))),
    decreases s.len(),
{
    let t = s.update(i, (s[i].0, v));
    assert forall|a: int, b: int| 0 <= a < t.len() && 0 <= b < t.len() && a != b implies #[trigger] t[a].0
        != #[trigger] t[b].0 by {
        assert(s[a].0 != s[b].0);
    }
    lemma_prefix_distinct(s);
    if i == s.len() - 1 {
        assert(t.drop_last() =~= s.drop_last());
        assert(entries_map(t) =~= entries_map(s).insert(s[i].0, v));
    } else {
        lemma_map_update(s.drop_last(), i, v);
        assert(t.drop_last() =~= s.drop_last().update(i, (s[i].0, v)));
        assert(s.drop_last()[i] == s[i]);
        assert(s[i].0 != s.last().0);
        assert(entries_map(t) =~= entries_map(s).insert(s[i].0, v));
    }
}

/// Removing an entry removes its name from the map.
pub proof fn lemma_map_remove(s: Seq<(Seq<char>, ProfileView)>, i: int)
    requires
        distinct_names(s),
        0 <= i < s.len(),
    ensures
        entries_map(s.remove(i)) == entries_map(s).remove(s[i].0),
        distinct_names(s.remove(i)),
    decreases s.len(),
{
    let t = s.remove(i);
    assert forall|a: int, b: int| 0 <= a < t.len() && 0 <= b < t.len() && a != b implies #[trigger] t[a].0
        != #[trigger] t[b].0 by {
        let a2 = if a < i { a } else { a + 1 };
        let b2 = if b < i { b } else { b + 1 };
        assert(t[a] == s[a2]);
        assert(t[b] == s[b2]);
        assert(s[a2].0 != s[b2].0);
    }
    lemma_prefix_distinct(s);
    let p = s.drop_last();
    if i == s.len() - 1 {
        assert(t =~= p);
        lemma_map_keys(p, s[i].0);
        assert(!entries_map(p).contains_key(s[i].0));
        assert(entries_map(t) =~= entries_map(s).remove(s[i].0));
    } else {
        lemma_map_remove(p, i);
        assert(t.drop_last() =~= p.remove(i));
        assert(t.last() == s.last());
        assert(p[i] == s[i]);
        assert(s[i].0 != s.last().0);
        assert(entries_map(t) =~= entries_map(s).remove(s[i].0));
    }
}

} // verus!
