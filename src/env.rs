//! Environment variables of an instance's containers: role defaults merged
//! with what the user asked for.
use vstd::prelude::*;
use crate::kv::{entries_view, entry_map, insert_entry, keys_unique, lemma_with_entries, with_entries, Entry};
use crate::text::{concat, join3};

verus! {

/// Environment overrides a user may give when creating an instance.
pub struct ContainerEnvVars {
    pub wordpress: Option<Vec<(String, String)>>,
}

impl Default for ContainerEnvVars {
    fn default() -> (r: ContainerEnvVars)
        ensures
            r.wordpress is None,
    {
        ContainerEnvVars { wordpress: None }
    }
}

/// The `KEY=VALUE` lists handed to the containers that take an environment.
pub struct EnvVars {
    pub adminer: Vec<String>,
    pub mysql: Vec<String>,
    pub wordpress: Vec<String>,
}

pub open spec fn env_line(e: Entry) -> Seq<char> {
    e.0 + "="@ + e.1
}

pub open spec fn env_lines(s: Seq<Entry>) -> Seq<Seq<char>> {
    s.map_values(|e: Entry| env_line(e))
}

pub open spec fn lines_view(v: Seq<String>) -> Seq<Seq<char>> {
    v.map_values(|s: String| s@)
}

pub open spec fn overrides_view(o: Option<Vec<(String, String)>>) -> Seq<Entry> {
    match o {
        Some(v) => entries_view(v@),
        None => Seq::empty(),
    }
}

/// The defaults, then each override in turn: an override replaces the value of
/// a key already there, and a new key goes at the end.
pub open spec fn merged_env(defaults: Seq<Entry>, overrides: Seq<Entry>) -> Seq<Entry> {
    with_entries(with_entries(Seq::empty(), defaults), overrides)
}

/// Merging keeps every default that is not overridden, takes every override's
/// value, and adds the keys that only the overrides have: as maps, the
/// overrides win over the defaults.
pub proof fn lemma_merge_precedence(defaults: Seq<Entry>, overrides: Seq<Entry>)
    requires
        keys_unique(defaults),
        keys_unique(overrides),
    ensures
        keys_unique(merged_env(defaults, overrides)),
        entry_map(merged_env(defaults, overrides)) == entry_map(defaults).union_prefer_right(
            entry_map(overrides),
        ),
{
    let empty = Seq::<Entry>::empty();
    lemma_with_entries(empty, defaults);
    assert(entry_map(empty) =~= Map::empty());
    assert(Map::<Seq<char>, Seq<char>>::empty().union_prefer_right(entry_map(defaults))
        =~= entry_map(defaults));
    lemma_with_entries(with_entries(empty, defaults), overrides);
}

fn add_all(m: &mut Vec<(String, String)>, src: &Vec<(String, String)>)
    requires
        keys_unique(entries_view(old(m)@)),
    ensures
        keys_unique(entries_view(final(m)@)),
        entries_view(final(m)@) == with_entries(entries_view(old(m)@), entries_view(src@)),
{
    let ghost start = entries_view(m@);
    let ghost o = entries_view(src@);
    let mut i: usize = 0;
    while i < src.len()
        invariant
            i <= src.len(),
            o == entries_view(src@),
            keys_unique(entries_view(m@)),
            entries_view(m@) == with_entries(start, o.take(i as int)),
        decreases src.len() - i,
    {
        let k = src[i].0.clone();
        let v = src[i].1.clone();
        assert(o.take(i + 1).drop_last() =~= o.take(i as int));
        assert(o[i as int] == (k@, v@));
        insert_entry(m, k, v);
        i = i + 1;
    }
    assert(o.take(i as int) =~= o);
}

fn lines_of(m: &Vec<(String, String)>) -> (r: Vec<String>)
    ensures
        lines_view(r@) == env_lines(entries_view(m@)),
{
    let ghost e = entries_view(m@);
    let mut r: Vec<String> = Vec::new();
    let mut i: usize = 0;
    while i < m.len()
        invariant
            i <= m.len(),
            e == entries_view(m@),
            r@.len() == i,
            forall|j: int| 0 <= j < i ==> #[trigger] r@[j]@ == env_line(e[j]),
        decreases m.len() - i,
    {
        let line = join3(m[i].0.as_str(), "=", m[i].1.as_str());
        assert(e[i as int] == (m@[i as int].0@, m@[i as int].1@));
        r.push(line);
        i = i + 1;
    }
    assert(lines_view(r@) =~= env_lines(e));
    r
}

/// Merges the user's overrides into a role's defaults, as `KEY=VALUE` lines.
pub fn merge_env_vars(defaults: Vec<(String, String)>, overrides: &Option<Vec<(String, String)>>) -> (r: Vec<String>)
    ensures
        lines_view(r@) == env_lines(merged_env(entries_view(defaults@), overrides_view(*overrides))),
{
    let mut m: Vec<(String, String)> = Vec::new();
    assert(entries_view(m@) =~= Seq::<Entry>::empty());
    add_all(&mut m, &defaults);
    match overrides {
        Some(o) => {
            add_all(&mut m, o);
        },
        None => {
            assert(with_entries(entries_view(m@), Seq::empty()) == entries_view(m@));
        },
    }
    lines_of(&m)
}

/// The database server's host name within an instance: its MySQL container.
pub open spec fn db_host(label: Seq<char>) -> Seq<char> {
    label + "-mysql"@
}

pub open spec fn adminer_defaults(label: Seq<char>) -> Seq<Entry> {
    seq![
        ("ADMINER_DESIGN"@, "nette"@),
        ("ADMINER_PLUGINS"@, "tables-filter tinymce"@),
        ("MYSQL_PORT"@, "3306"@),
        ("ADMINER_DEFAULT_SERVER"@, db_host(label)),
        ("ADMINER_DEFAULT_USERNAME"@, "wordpress"@),
        ("ADMINER_DEFAULT_PASSWORD"@, "password"@),
        ("ADMINER_DEFAULT_DATABASE"@, "wordpress"@),
    ]
}

pub open spec fn mysql_defaults() -> Seq<Entry> {
    seq![
        ("MYSQL_ROOT_PASSWORD"@, "password"@),
        ("MYSQL_DATABASE"@, "wordpress"@),
        ("MYSQL_USER"@, "wordpress"@),
        ("MYSQL_PASSWORD"@, "password"@),
    ]
}

pub open spec fn wordpress_defaults(label: Seq<char>) -> Seq<Entry> {
    seq![
        ("WORDPRESS_DB_HOST"@, db_host(label)),
        ("WORDPRESS_DB_USER"@, "wordpress"@),
        ("WORDPRESS_DB_PASSWORD"@, "password"@),
        ("WORDPRESS_DB_NAME"@, "wordpress"@),
        ("WORDPRESS_TABLE_PREFIX"@, "wp_"@),
        ("WORDPRESS_DEBUG"@, "1"@),
        ("WORDPRESS_CONFIG_EXTRA"@, ""@),
    ]
}

fn entry(k: &str, v: &str) -> (r: (String, String))
    ensures
        r.0@ == k@,
        r.1@ == v@,
{
    (k.to_owned(), v.to_owned())
}

fn adminer_default_entries(label: &str) -> (r: Vec<(String, String)>)
    ensures
        entries_view(r@) == adminer_defaults(label@),
{
    let mut r: Vec<(String, String)> = Vec::new();
    r.push(entry("ADMINER_DESIGN", "nette"));
    r.push(entry("ADMINER_PLUGINS", "tables-filter tinymce"));
    r.push(entry("MYSQL_PORT", "3306"));
    let host = concat(label, "-mysql");
    r.push(("ADMINER_DEFAULT_SERVER".to_owned(), host));
    r.push(entry("ADMINER_DEFAULT_USERNAME", "wordpress"));
    r.push(entry("ADMINER_DEFAULT_PASSWORD", "password"));
    r.push(entry("ADMINER_DEFAULT_DATABASE", "wordpress"));
    assert(entries_view(r@) =~= adminer_defaults(label@));
    r
}

fn mysql_default_entries() -> (r: Vec<(String, String)>)
    ensures
        entries_view(r@) == mysql_defaults(),
{
    let mut r: Vec<(String, String)> = Vec::new();
    r.push(entry("MYSQL_ROOT_PASSWORD", "password"));
    r.push(entry("MYSQL_DATABASE", "wordpress"));
    r.push(entry("MYSQL_USER", "wordpress"));
    r.push(entry("MYSQL_PASSWORD", "password"));
    assert(entries_view(r@) =~= mysql_defaults());
    r
}

fn wordpress_default_entries(label: &str) -> (r: Vec<(String, String)>)
    ensures
        entries_view(r@) == wordpress_defaults(label@),
{
    let mut r: Vec<(String, String)> = Vec::new();
    let host = concat(label, "-mysql");
    r.push(("WORDPRESS_DB_HOST".to_owned(), host));
    r.push(entry("WORDPRESS_DB_USER", "wordpress"));
    r.push(entry("WORDPRESS_DB_PASSWORD", "password"));
    r.push(entry("WORDPRESS_DB_NAME", "wordpress"));
    r.push(entry("WORDPRESS_TABLE_PREFIX", "wp_"));
    r.push(entry("WORDPRESS_DEBUG", "1"));
    r.push(entry("WORDPRESS_CONFIG_EXTRA", ""));
    assert(entries_view(r@) =~= wordpress_defaults(label@));
    r
}

/// The environment of each role of the instance `instance_label`: the role's
/// defaults, and for WordPress the user's overrides merged in.
pub fn initialize_env_vars(instance_label: &str, user_env_vars: &ContainerEnvVars) -> (r: EnvVars)
    ensures
        lines_view(r.adminer@) == env_lines(merged_env(adminer_defaults(instance_label@), Seq::empty())),
        lines_view(r.mysql@) == env_lines(merged_env(mysql_defaults(), Seq::empty())),
        lines_view(r.wordpress@) == env_lines(
            merged_env(wordpress_defaults(instance_label@), overrides_view(user_env_vars.wordpress)),
        ),
{
    let adminer = merge_env_vars(adminer_default_entries(instance_label), &None);
    let mysql = merge_env_vars(mysql_default_entries(), &None);
    let wordpress = merge_env_vars(wordpress_default_entries(instance_label), &user_env_vars.wordpress);
    EnvVars { adminer, mysql, wordpress }
}

} // verus!
