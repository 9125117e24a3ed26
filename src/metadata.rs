//! The record kept for each instance: credentials, addresses and ports,
//! derived once at creation.
use vstd::prelude::*;
use crate::env::{lines_view, EnvVars};
use crate::layout::{network_name, network_name_of};
use crate::text::{decimal, decimal_string, join3, text_eq};

verus! {

pub struct InstanceData {
    pub admin_user: String,
    pub admin_password: String,
    pub admin_email: String,
    pub site_title: String,
    pub site_url: String,
    pub adminer_url: String,
    pub adminer_user: String,
    pub adminer_password: String,
    pub network_name: String,
    pub nginx_port: u32,
    pub adminer_port: u32,
}

/// Whether the `KEY=VALUE` line `line` sets `key`.
pub open spec fn line_has_key(line: Seq<char>, key: Seq<char>) -> bool {
    &&& !key.contains('=')
    &&& line.len() > key.len()
    &&& line.take(key.len() as int) == key
    &&& line[key.len() as int] == '='
}

/// The value that the first line setting `key` gives it, or `defaultValue`.
pub open spec fn value_in_lines(lines: Seq<Seq<char>>, key: Seq<char>) -> Seq<char>
    decreases lines.len(),
{
    if lines.len() == 0 {
        "defaultValue"@
    } else if line_has_key(lines[0], key) {
        lines[0].skip(key.len() as int + 1)
    } else {
        value_in_lines(lines.skip(1), key)
    }
}

/// An address of the instance: a base URL and a port.
pub open spec fn url_with_port(base: Seq<char>, port: u32) -> Seq<char> {
    base + ":"@ + decimal(port as nat)
}

fn has_char(s: &str, c: char) -> (r: bool)
    ensures
        r == s@.contains(c),
{
    let n = s.unicode_len();
    let mut i: usize = 0;
    while i < n
        invariant
            i <= n,
            n == s@.len(),
            forall|j: int| 0 <= j < i ==> s@[j] != c,
        decreases n - i,
    {
        if s.get_char(i) == c {
            return true;
        }
        i = i + 1;
    }
    false
}

/// The value of `key` in a list of `KEY=VALUE` lines.
fn extract_value(vars: &Vec<String>, key: &str) -> (r: String)
    ensures
        r@ == value_in_lines(lines_view(vars@), key@),
{
    let ghost lines = lines_view(vars@);
    let key_len = key.unicode_len();
    let no_eq = !has_char(key, '=');
    assert(lines.skip(0) =~= lines);
    let mut i: usize = 0;
    while i < vars.len()
        invariant
            i <= vars.len(),
            lines == lines_view(vars@),
            key_len == key@.len(),
            no_eq == !key@.contains('='),
            value_in_lines(lines, key@) == value_in_lines(lines.skip(i as int), key@),
        decreases vars.len() - i,
    {
        let line = vars[i].as_str();
        assert(lines.skip(i as int)[0] == line@);
        assert(lines.skip(i as int).skip(1) =~= lines.skip(i + 1));
        let n = line.unicode_len();
        if no_eq && n > key_len {
            let head = line.substring_char(0, key_len);
            if text_eq(head, key) && line.get_char(key_len) == '=' {
                assert(line_has_key(line@, key@));
                return line.substring_char(key_len + 1, n).to_owned();
            }
        }
        i = i + 1;
    }
    "defaultValue".to_owned()
}

fn url(base: &str, port: u32) -> (r: String)
    ensures
        r@ == url_with_port(base@, port),
{
    let p = decimal_string(port);
    join3(base, ":", p.as_str())
}

impl InstanceData {
    /// The record of the instance `instance_label`: the WordPress and Adminer
    /// credentials as their environments set them, the fixed administrator
    /// address and site title, and the addresses of both allocated ports.
    pub fn new(
        env_vars: &EnvVars,
        nginx_port: u32,
        adminer_port: u32,
        site_url: &str,
        adminer_url: &str,
        instance_label: &str,
    ) -> (r: InstanceData)
        ensures
            r.admin_user@ == value_in_lines(lines_view(env_vars.wordpress@), "WORDPRESS_DB_USER"@),
            r.admin_password@ == value_in_lines(
                lines_view(env_vars.wordpress@),
                "WORDPRESS_DB_PASSWORD"@,
            ),
            r.admin_email@ == "admin@example.com"@,
            r.site_title@ == "My Wordpress Site"@,
            r.site_url@ == url_with_port(site_url@, nginx_port),
            r.adminer_url@ == url_with_port(adminer_url@, adminer_port),
            r.adminer_user@ == value_in_lines(
                lines_view(env_vars.adminer@),
                "ADMINER_DEFAULT_USERNAME"@,
            ),
            r.adminer_password@ == value_in_lines(
                lines_view(env_vars.adminer@),
                "ADMINER_DEFAULT_PASSWORD"@,
            ),
            r.network_name@ == network_name_of(instance_label@),
            r.nginx_port == nginx_port,
            r.adminer_port == adminer_port,
    {
        InstanceData {
            admin_user: extract_value(&env_vars.wordpress, "WORDPRESS_DB_USER"),
            admin_password: extract_value(&env_vars.wordpress, "WORDPRESS_DB_PASSWORD"),
            admin_email: "admin@example.com".to_owned(),
            site_title: "My Wordpress Site".to_owned(),
            site_url: url(site_url, nginx_port),
            adminer_url: url(adminer_url, adminer_port),
            adminer_user: extract_value(&env_vars.adminer, "ADMINER_DEFAULT_USERNAME"),
            adminer_password: extract_value(&env_vars.adminer, "ADMINER_DEFAULT_PASSWORD"),
            network_name: network_name(instance_label),
            nginx_port,
            adminer_port,
        }
    }
}

} // verus!
