//! The configuration files written for an instance: the reverse proxy's site
//! configuration and the WP-CLI pointer files.
use vstd::prelude::*;
use vstd::string::StringExecFns;
use crate::text::{concat, decimal, decimal_string};

verus! {

pub const PROXY_HEADERS: &'static str = "        proxy_set_header Host $host:$server_port;\n        proxy_set_header X-Real-IP $remote_addr;\n        proxy_set_header X-Forwarded-For $proxy_add_x_forwarded_for;\n        proxy_set_header X-Forwarded-Proto $scheme;\n    }\n}\n";

pub const SITE_OPEN: &'static str = "\nserver {\n    listen ";

pub const SITE_PASS: &'static str = ";\n    server_name localhost;\n\n    location / {\n        proxy_pass http://";

pub const SITE_PORT: &'static str = ":80/;\n";

pub const ADMIN_OPEN: &'static str = "\nserver {\n    listen 8080;\n    server_name localhost;\n\n    location / {\n        proxy_pass http://";

pub const ADMIN_PORT: &'static str = ":8080/;\n";

pub const WPCLI_YML: &'static str = "path: wordpress\nrequire:\n  - wp-cli.local.php\n";

pub const WPCLI_PHP_OPEN: &'static str = "<?php\n\ndefine('DB_HOST', 'localhost:";

pub const WPCLI_PHP_CLOSE: &'static str = "/mysql/mysqld.sock');\ndefine('DB_NAME', 'wordpress');\ndefine('DB_USER', 'wordpress');\ndefine('DB_PASSWORD', 'password');\n\n// disables errors when using wp-cli\nerror_reporting(E_ERROR);\ndefine('WP_DEBUG', false);\n";

/// The reverse proxy's configuration: the allocated port is served by the
/// WordPress container, and the fixed port 8080 by the Adminer container.
pub open spec fn nginx_config_text(port: u32, wordpress: Seq<char>, adminer: Seq<char>) -> Seq<char> {
    SITE_OPEN@ + decimal(port as nat) + SITE_PASS@ + wordpress + SITE_PORT@ + PROXY_HEADERS@
        + ADMIN_OPEN@ + adminer + ADMIN_PORT@ + PROXY_HEADERS@
}

pub open spec fn nginx_config_path_of(dir: Seq<char>, label: Seq<char>) -> Seq<char> {
    dir + "/nginx/"@ + label + "-nginx.conf"@
}

pub open spec fn wpcli_yml_text() -> Seq<char> {
    WPCLI_YML@
}

/// The WP-CLI constants file: the database is reached through the socket
/// that the MySQL container shares in the instance directory.
pub open spec fn wpcli_php_text(dir: Seq<char>) -> Seq<char> {
    WPCLI_PHP_OPEN@ + dir + WPCLI_PHP_CLOSE@
}

/// The reverse proxy configuration for an instance whose proxy listens on
/// `nginx_port`.
pub fn generate_nginx_config(nginx_port: u32, wordpress_name: &str, adminer_name: &str) -> (r: String)
    ensures
        r@ == nginx_config_text(nginx_port, wordpress_name@, adminer_name@),
{
    let port = decimal_string(nginx_port);
    let mut s = SITE_OPEN.to_owned();
    s.append(port.as_str());
    s.append(SITE_PASS);
    s.append(wordpress_name);
    s.append(SITE_PORT);
    s.append(PROXY_HEADERS);
    s.append(ADMIN_OPEN);
    s.append(adminer_name);
    s.append(ADMIN_PORT);
    s.append(PROXY_HEADERS);
    s
}

/// Where the proxy configuration of instance `label` is written, within the
/// instance directory `dir`.
pub fn nginx_config_path(dir: &str, label: &str) -> (r: String)
    ensures
        r@ == nginx_config_path_of(dir@, label@),
{
    let mut s = concat(dir, "/nginx/");
    s.append(label);
    s.append("-nginx.conf");
    s
}

pub fn generate_wpcli_yml() -> (r: String)
    ensures
        r@ == wpcli_yml_text(),
{
    WPCLI_YML.to_owned()
}

/// The WP-CLI constants file for the instance directory `dir`.
pub fn generate_wpcli_php(dir: &str) -> (r: String)
    ensures
        r@ == wpcli_php_text(dir@),
{
    let mut s = concat(WPCLI_PHP_OPEN, dir);
    s.append(WPCLI_PHP_CLOSE);
    s
}

} // verus!
