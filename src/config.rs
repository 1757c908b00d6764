//! Profiles, the profile store, and resolution of the four search settings
//! through the precedence chain: command line, chosen profile, the profile
//! named `default`, built-in value.
use vstd::prelude::*;
use crate::tilde::{expand_tilde_with_home, expanded, opt_chars, platform_home_dir};

verus! {

/// Built-in root path.
pub const FALLBACK_PATH: &'static str = "~";

/// Built-in maximum depth.
pub const FALLBACK_DEPTH: &'static str = "4";

/// Built-in entry type (directories).
pub const FALLBACK_FD_TYPE: &'static str = "d";

/// Built-in choice for hidden entries.
pub const FALLBACK_HIDDEN: bool = false;

/// Name of the profile that every run consults.
pub const DEFAULT_PROFILE: &'static str = "default";

/// Where the config file lives when none is named, before expansion.
pub const DEFAULT_CONFIG_PATH: &'static str = "~/.config/fdfzf/config.toml";

/// The file written at the default location when it is missing: a single
/// `default` profile that holds the built-in values.
pub const SEED_CONFIG: &'static str =
    "[profiles.default]\npath = \"~\"\ndepth = \"4\"\nfd_type = \"d\"\nhidden = false\n";

/// A named bundle of optional settings; an absent field defers to the next
/// source in the chain.
pub struct Profile {
    pub path: Option<String>,
    pub depth: Option<String>,
    pub fd_type: Option<String>,
    pub hidden: Option<bool>,
}

/// Values given on the command line; `None` where the flag was not given.
pub struct CliOverrides {
    pub path: Option<String>,
    pub depth: Option<String>,
    pub fd_type: Option<String>,
    pub hidden: Option<bool>,
}

/// The four settings after resolution, with the root path not yet expanded.
pub struct Choices {
    pub path: String,
    pub depth: String,
    pub fd_type: String,
    pub hidden: bool,
}

/// The settings that build the search command, root path expanded.
pub struct Settings {
    pub root: String,
    pub depth: String,
    pub fd_type: String,
    pub hidden: bool,
}

/// Profiles by name; names are unique.
pub struct ProfileStore {
    entries: Vec<(String, Profile)>,
}

/// The first present value of the chain, else the fallback.
pub open spec fn first_of<T>(cli: Option<T>, custom: Option<T>, default: Option<T>, fallback: T) -> T {
    match cli {
        Some(v) => v,
        None => match custom {
            Some(v) => v,
            None => match default {
                Some(v) => v,
                None => fallback,
            },
        },
    }
}

/// The root path of an optional profile, as chars.
pub open spec fn path_of(p: Option<Profile>) -> Option<Seq<char>> {
    match p {
        Some(p) => opt_chars(p.path),
        None => None,
    }
}

/// The maximum depth of an optional profile, as chars.
pub open spec fn depth_of(p: Option<Profile>) -> Option<Seq<char>> {
    match p {
        Some(p) => opt_chars(p.depth),
        None => None,
    }
}

/// The entry type of an optional profile, as chars.
pub open spec fn fd_type_of(p: Option<Profile>) -> Option<Seq<char>> {
    match p {
        Some(p) => opt_chars(p.fd_type),
        None => None,
    }
}

/// The hidden-entries choice of an optional profile.
pub open spec fn hidden_of(p: Option<Profile>) -> Option<bool> {
    match p {
        Some(p) => p.hidden,
        None => None,
    }
}

/// The profile behind an optional reference.
pub open spec fn deref_profile(p: Option<&Profile>) -> Option<Profile> {
    match p {
        Some(p) => Some(*p),
        None => None,
    }
}

/// The profile bound to `name`; a later binding hides an earlier one.
pub open spec fn find_profile(entries: Seq<(String, Profile)>, name: Seq<char>) -> Option<Profile>
    decreases entries.len(),
{
    if entries.len() == 0 {
        None
    } else if entries.last().0@ == name {
        Some(entries.last().1)
    } else {
        find_profile(entries.drop_last(), name)
    }
}

pub open spec fn names_unique(entries: Seq<(String, Profile)>) -> bool {
    forall|i: int, j: int|
        0 <= i < j < entries.len() ==> #[trigger] entries[i].0@ != #[trigger] entries[j].0@
}

proof fn lemma_find_update(entries: Seq<(String, Profile)>, i: int, e: (String, Profile), k: Seq<char>)
    requires
        names_unique(entries),
        0 <= i < entries.len(),
        entries[i].0@ == e.0@,
    ensures
        find_profile(entries.update(i, e), k) == if k == e.0@ {
            Some(e.1)
        } else {
            find_profile(entries, k)
        },
    decreases entries.len(),
{
    let u = entries.update(i, e);
    if i == entries.len() - 1 {
        assert(u.drop_last() =~= entries.drop_last());
    } else {
        assert(u.drop_last() =~= entries.drop_last().update(i, e));
        assert(entries.last() == entries[entries.len() - 1]);
        lemma_find_update(entries.drop_last(), i, e, k);
    }
}

proof fn lemma_find_present(entries: Seq<(String, Profile)>, i: int, k: Seq<char>)
    requires
        0 <= i < entries.len(),
        entries[i].0@ == k,
    ensures
        find_profile(entries, k) is Some,
    decreases entries.len(),
{
    if entries.last().0@ != k {
        lemma_find_present(entries.drop_last(), i, k);
    }
}

proof fn lemma_find_absent(entries: Seq<(String, Profile)>, k: Seq<char>)
    requires
        forall|j: int| 0 <= j < entries.len() ==> #[trigger] entries[j].0@ != k,
    ensures
        find_profile(entries, k) is None,
    decreases entries.len(),
{
    if entries.len() > 0 {
        assert(entries.last() == entries[entries.len() - 1]);
        lemma_find_absent(entries.drop_last(), k);
    }
}

impl ProfileStore {
    /// Names are unique.
    pub closed spec fn wf(&self) -> bool {
        names_unique(self.entries@)
    }

    /// The profile stored under `name`, if any.
    pub closed spec fn lookup(&self, name: Seq<char>) -> Option<Profile> {
        find_profile(self.entries@, name)
    }

    /// Number of profiles.
    pub closed spec fn size(&self) -> nat {
        self.entries@.len()
    }

    /// An empty store: no profile is defined.
    pub fn new() -> (r: ProfileStore)
        ensures
            r.wf(),
            r.size() == 0,
            forall|k: Seq<char>| (#[trigger] r.lookup(k)) is None,
    {
        ProfileStore { entries: Vec::new() }
    }

    /// Stores `profile` under `name`, replacing a profile of that name.
    pub fn insert(&mut self, name: String, profile: Profile)
        requires
            old(self).wf(),
        ensures
            final(self).wf(),
            final(self).lookup(name@) == Some(profile),
            forall|k: Seq<char>| k != name@ ==> #[trigger] final(self).lookup(k) == old(self).lookup(k),
            final(self).size() == if old(self).lookup(name@) is Some {
                old(self).size()
            } else {
                old(self).size() + 1
            },
    {
        let n = self.entries.len();
        let mut i: usize = 0;
        while i < n
            invariant
                n == self.entries.len(),
                self.entries@ == old(self).entries@,
                names_unique(self.entries@),
                0 <= i <= n,
                forall|j: int| 0 <= j < i ==> #[trigger] self.entries@[j].0@ != name@,
            decreases n - i,
        {
            if self.entries[i].0 == name {
                let ghost before = self.entries@;
                proof {
                    assert forall|k: Seq<char>| true implies find_profile(
                        before.update(i as int, (name, profile)),
                        k,
                    ) == (if k == name@ {
                        Some(profile)
                    } else {
                        find_profile(before, k)
                    }) by {
                        lemma_find_update(before, i as int, (name, profile), k);
                    }
                    lemma_find_present(before, i as int, name@);
                }
                self.entries.set(i, (name, profile));
                assert(self.entries@ == before.update(i as int, (name, profile)));
                return ;
            }
            i = i + 1;
        }
        proof {
            lemma_find_absent(self.entries@, name@);
        }
        let ghost before = self.entries@;
        self.entries.push((name, profile));
        assert(self.entries@.drop_last() =~= before);
    }

    /// The profile stored under `name`, if any.
    pub fn get(&self, name: &str) -> (r: Option<&Profile>)
        ensures
            deref_profile(r) == self.lookup(name@),
    {
        let key = String::from_str(name);
        let n = self.entries.len();
        let mut i: usize = n;
        assert(self.entries@.subrange(0, n as int) =~= self.entries@);
        while i > 0
            invariant
                n == self.entries.len(),
                i <= n,
                key@ == name@,
                find_profile(self.entries@, name@) == find_profile(self.entries@.subrange(0, i as int), name@),
            decreases i,
        {
            let ghost pre = self.entries@.subrange(0, i as int);
            assert(pre.drop_last() =~= self.entries@.subrange(0, i - 1));
            assert(pre.last() == self.entries@[i - 1]);
            if self.entries[i - 1].0 == key {
                return Some(&self.entries[i - 1].1);
            }
            i = i - 1;
        }
        assert(self.entries@.subrange(0, 0) =~= Seq::<(String, Profile)>::empty());
        None
    }

    /// Number of profiles.
    pub fn len(&self) -> (r: usize)
        ensures
            r == self.size(),
    {
        self.entries.len()
    }
}

/// The root path that the chain selects, before expansion.
pub open spec fn chain_path(cli: CliOverrides, custom: Option<Profile>, default: Option<Profile>) -> Seq<char> {
    first_of(opt_chars(cli.path), path_of(custom), path_of(default), FALLBACK_PATH@)
}

/// The maximum depth that the chain selects.
pub open spec fn chain_depth(cli: CliOverrides, custom: Option<Profile>, default: Option<Profile>) -> Seq<char> {
    first_of(opt_chars(cli.depth), depth_of(custom), depth_of(default), FALLBACK_DEPTH@)
}

/// The entry type that the chain selects.
pub open spec fn chain_fd_type(cli: CliOverrides, custom: Option<Profile>, default: Option<Profile>) -> Seq<
    char,
> {
    first_of(opt_chars(cli.fd_type), fd_type_of(custom), fd_type_of(default), FALLBACK_FD_TYPE@)
}

/// Whether the chain selects hidden entries.
pub open spec fn chain_hidden(cli: CliOverrides, custom: Option<Profile>, default: Option<Profile>) -> bool {
    first_of(cli.hidden, hidden_of(custom), hidden_of(default), FALLBACK_HIDDEN)
}

/// With no flag and no chosen profile, every setting that the `default`
/// profile gives is resolved to that value.
pub proof fn lemma_default_profile_applies(cli: CliOverrides, default: Profile)
    requires
        cli.path is None,
        cli.depth is None,
        cli.fd_type is None,
        cli.hidden is None,
    ensures
        default.path matches Some(v) ==> chain_path(cli, None, Some(default)) == v@,
        default.depth matches Some(v) ==> chain_depth(cli, None, Some(default)) == v@,
        default.fd_type matches Some(v) ==> chain_fd_type(cli, None, Some(default)) == v@,
        default.hidden matches Some(v) ==> chain_hidden(cli, None, Some(default)) == v,
{
}

/// A flag on the command line wins over every profile.
pub proof fn lemma_cli_wins(cli: CliOverrides, custom: Option<Profile>, default: Option<Profile>)
    ensures
        cli.path matches Some(v) ==> chain_path(cli, custom, default) == v@,
        cli.depth matches Some(v) ==> chain_depth(cli, custom, default) == v@,
        cli.fd_type matches Some(v) ==> chain_fd_type(cli, custom, default) == v@,
        cli.hidden matches Some(v) ==> chain_hidden(cli, custom, default) == v,
{
}

/// Without a flag, a setting of the chosen profile wins over the same
/// setting of the `default` profile.
pub proof fn lemma_custom_wins_over_default(cli: CliOverrides, custom: Profile, default: Profile)
    ensures
        cli.path is None && custom.path is Some && default.path is Some ==> chain_path(
            cli,
            Some(custom),
            Some(default),
        ) == custom.path.unwrap()@,
        cli.depth is None && custom.depth is Some && default.depth is Some ==> chain_depth(
            cli,
            Some(custom),
            Some(default),
        ) == custom.depth.unwrap()@,
        cli.fd_type is None && custom.fd_type is Some && default.fd_type is Some ==> chain_fd_type(
            cli,
            Some(custom),
            Some(default),
        ) == custom.fd_type.unwrap()@,
        cli.hidden is None && custom.hidden is Some && default.hidden is Some ==> chain_hidden(
            cli,
            Some(custom),
            Some(default),
        ) == custom.hidden.unwrap(),
{
}

/// What the resolution of each setting gives.
pub open spec fn choices_match(
    c: Choices,
    cli: CliOverrides,
    custom: Option<Profile>,
    default: Option<Profile>,
) -> bool {
    &&& c.path@ == chain_path(cli, custom, default)
    &&& c.depth@ == chain_depth(cli, custom, default)
    &&& c.fd_type@ == chain_fd_type(cli, custom, default)
    &&& c.hidden == chain_hidden(cli, custom, default)
}

/// The chosen profile: the one stored under `name`, when a name is given.
pub open spec fn chosen_profile(store: ProfileStore, name: Option<Seq<char>>) -> Option<Profile> {
    match name {
        Some(n) => store.lookup(n),
        None => None,
    }
}

/// An optional string slice, as chars.
pub open spec fn opt_str_chars(o: Option<&str>) -> Option<Seq<char>> {
    match o {
        Some(s) => Some(s@),
        None => None,
    }
}

/// The settings of a run: `None` exactly when the root path needs a home
/// directory and `home` is `None`.
pub open spec fn settings_match(
    r: Option<Settings>,
    cli: CliOverrides,
    store: ProfileStore,
    name: Option<Seq<char>>,
    home: Option<Seq<char>>,
) -> bool {
    let custom = chosen_profile(store, name);
    let default = store.lookup(DEFAULT_PROFILE@);
    match r {
        Some(s) => {
            &&& expanded(chain_path(cli, custom, default), home) == Some(s.root@)
            &&& s.depth@ == chain_depth(cli, custom, default)
            &&& s.fd_type@ == chain_fd_type(cli, custom, default)
            &&& s.hidden == chain_hidden(cli, custom, default)
        },
        None => expanded(chain_path(cli, custom, default), home) is None,
    }
}

fn clone_opt(o: &Option<String>) -> (r: Option<String>)
    ensures
        opt_chars(r) == opt_chars(*o),
{
    match o {
        Some(s) => Some(s.clone()),
        None => None,
    }
}

/// The first present string of the chain, else `fallback`.
pub fn first_present(
    cli: &Option<String>,
    custom: &Option<String>,
    default: &Option<String>,
    fallback: &str,
) -> (r: String)
    ensures
        r@ == first_of(opt_chars(*cli), opt_chars(*custom), opt_chars(*default), fallback@),
{
    match cli {
        Some(v) => v.clone(),
        None => match custom {
            Some(v) => v.clone(),
            None => match default {
                Some(v) => v.clone(),
                None => String::from_str(fallback),
            },
        },
    }
}

/// The first present flag of the chain, else `fallback`.
pub fn first_present_flag(
    cli: Option<bool>,
    custom: Option<bool>,
    default: Option<bool>,
    fallback: bool,
) -> (r: bool)
    ensures
        r == first_of(cli, custom, default, fallback),
{
    match cli {
        Some(v) => v,
        None => match custom {
            Some(v) => v,
            None => match default {
                Some(v) => v,
                None => fallback,
            },
        },
    }
}

fn field_path(p: Option<&Profile>) -> (r: Option<String>)
    ensures
        opt_chars(r) == path_of(deref_profile(p)),
{
    match p {
        Some(p) => clone_opt(&p.path),
        None => None,
    }
}

fn field_depth(p: Option<&Profile>) -> (r: Option<String>)
    ensures
        opt_chars(r) == depth_of(deref_profile(p)),
{
    match p {
        Some(p) => clone_opt(&p.depth),
        None => None,
    }
}

fn field_fd_type(p: Option<&Profile>) -> (r: Option<String>)
    ensures
        opt_chars(r) == fd_type_of(deref_profile(p)),
{
    match p {
        Some(p) => clone_opt(&p.fd_type),
        None => None,
    }
}

fn field_hidden(p: Option<&Profile>) -> (r: Option<bool>)
    ensures
        r == hidden_of(deref_profile(p)),
{
    match p {
        Some(p) => p.hidden,
        None => None,
    }
}

/// Resolves each setting on its own through the chain.
pub fn resolve_choices(cli: &CliOverrides, custom: Option<&Profile>, default: Option<&Profile>) -> (r:
    Choices)
    ensures
        choices_match(r, *cli, deref_profile(custom), deref_profile(default)),
{
    let path = first_present(&cli.path, &field_path(custom), &field_path(default), FALLBACK_PATH);
    let depth = first_present(&cli.depth, &field_depth(custom), &field_depth(default), FALLBACK_DEPTH);
    let fd_type = first_present(
        &cli.fd_type,
        &field_fd_type(custom),
        &field_fd_type(default),
        FALLBACK_FD_TYPE,
    );
    let hidden = first_present_flag(
        cli.hidden,
        field_hidden(custom),
        field_hidden(default),
        FALLBACK_HIDDEN,
    );
    Choices { path, depth, fd_type, hidden }
}

/// Resolves the settings from the command line and the store.
pub fn resolve_choices_in(cli: &CliOverrides, store: &ProfileStore, profile_name: Option<&str>) -> (r:
    Choices)
    ensures
        choices_match(
            r,
            *cli,
            chosen_profile(*store, opt_str_chars(profile_name)),
            store.lookup(DEFAULT_PROFILE@),
        ),
{
    let default = store.get(DEFAULT_PROFILE);
    let custom = match profile_name {
        Some(n) => store.get(n),
        None => None,
    };
    resolve_choices(cli, custom, default)
}

/// Resolves the settings and expands the root path against `home`.
pub fn resolve_settings_with_home(
    cli: &CliOverrides,
    store: &ProfileStore,
    profile_name: Option<&str>,
    home: Option<&str>,
) -> (r: Option<Settings>)
    ensures
        settings_match(r, *cli, *store, opt_str_chars(profile_name), opt_str_chars(home)),
{
    let c = resolve_choices_in(cli, store, profile_name);
    match expand_tilde_with_home(c.path.as_str(), home) {
        Some(root) => Some(Settings { root, depth: c.depth, fd_type: c.fd_type, hidden: c.hidden }),
        None => None,
    }
}

/// Resolves the settings and expands the root path against the current
/// user's home directory, whatever the platform reports.
pub fn resolve_settings(cli: &CliOverrides, store: &ProfileStore, profile_name: Option<&str>) -> (r:
    Option<Settings>)
    ensures
        exists|home: Option<Seq<char>>|
            #[trigger] settings_match(r, *cli, *store, opt_str_chars(profile_name), home),
{
    let home = platform_home_dir();
    match &home {
        Some(h) => resolve_settings_with_home(cli, store, profile_name, Some(h.as_str())),
        None => resolve_settings_with_home(cli, store, profile_name, None),
    }
}

/// What to do about the default config file at the start of a run.
pub enum SeedStep {
    /// The file is there: leave it as it is.
    Keep,
    /// The file is missing: create it with `SEED_CONFIG`.
    Write,
}

pub open spec fn seed_step_for(exists: bool) -> SeedStep {
    if exists {
        SeedStep::Keep
    } else {
        SeedStep::Write
    }
}

/// Whether the default config file exists after `step` was carried out.
pub open spec fn exists_after(exists: bool, step: SeedStep) -> bool {
    match step {
        SeedStep::Keep => exists,
        SeedStep::Write => true,
    }
}

/// Decides whether the default config file must be written.
pub fn seed_step(exists: bool) -> (r: SeedStep)
    ensures
        r == seed_step_for(exists),
{
    if exists {
        SeedStep::Keep
    } else {
        SeedStep::Write
    }
}

/// Seeding is idempotent: after one run the file exists, and a second run,
/// and every later one, leaves it as it is. A file that is there is never
/// written.
pub proof fn lemma_seed_idempotent(exists: bool)
    ensures
        exists_after(exists, seed_step_for(exists)),
        seed_step_for(exists_after(exists, seed_step_for(exists))) is Keep,
        exists ==> seed_step_for(exists) is Keep,
{
}

/// The profile that `SEED_CONFIG` defines: the built-in values.
pub fn seed_profile() -> (r: Profile)
    ensures
        opt_chars(r.path) == Some(FALLBACK_PATH@),
        opt_chars(r.depth) == Some(FALLBACK_DEPTH@),
        opt_chars(r.fd_type) == Some(FALLBACK_FD_TYPE@),
        r.hidden == Some(FALLBACK_HIDDEN),
{
    Profile {
        path: Some(String::from_str(FALLBACK_PATH)),
        depth: Some(String::from_str(FALLBACK_DEPTH)),
        fd_type: Some(String::from_str(FALLBACK_FD_TYPE)),
        hidden: Some(FALLBACK_HIDDEN),
    }
}

/// The default config location, expanded against `home`.
pub fn default_config_location_with_home(home: Option<&str>) -> (r: Option<String>)
    ensures
        opt_chars(r) == expanded(DEFAULT_CONFIG_PATH@, opt_str_chars(home)),
{
    expand_tilde_with_home(DEFAULT_CONFIG_PATH, home)
}

/// The default config location, expanded against the current user's home
/// directory.
pub fn default_config_location() -> (r: Option<String>)
    ensures
        exists|home: Option<Seq<char>>| opt_chars(r) == #[trigger] expanded(DEFAULT_CONFIG_PATH@, home),
{
    let home = platform_home_dir();
    match &home {
        Some(h) => default_config_location_with_home(Some(h.as_str())),
        None => default_config_location_with_home(None),
    }
}

} // verus!
