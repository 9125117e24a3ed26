//! What creating an instance asks for: the configuration of each of its four
//! containers, its files, and its record.
use vstd::prelude::*;
use crate::artifacts::{
    generate_nginx_config, generate_wpcli_php, generate_wpcli_yml, nginx_config_path,
    nginx_config_path_of, nginx_config_text, wpcli_php_text, wpcli_yml_text,
};
use crate::env::{
    adminer_defaults, env_lines, initialize_env_vars, lines_view, merged_env, mysql_defaults,
    overrides_view, wordpress_defaults, ContainerEnvVars, EnvVars,
};
use crate::image::{image_name, ContainerImage};
use crate::kv::{entries_view, keys_unique, with_entry, Entry};
use crate::labels::{create_labels, instance_label_set, instance_labels};
use crate::layout::{
    container_name, container_name_of, instance_dir, instance_dir_of, metadata_path,
    metadata_path_of, network_name, network_name_of,
};
use crate::metadata::{url_with_port, value_in_lines, InstanceData};
use crate::text::concat;

verus! {

/// How one container is to be created.
pub struct ContainerSpec {
    pub name: String,
    pub image: ContainerImage,
    pub env: Vec<String>,
    pub labels: Vec<(String, String)>,
    pub user: Option<String>,
    /// A host path and the path in the container where it is mounted.
    pub bind: Option<(String, String)>,
    /// A host port and the container port it maps to.
    pub port: Option<(u32, u32)>,
    pub network: String,
}

pub ghost struct ContainerSpecView {
    pub name: Seq<char>,
    pub image: ContainerImage,
    pub env: Seq<Seq<char>>,
    pub labels: Seq<Entry>,
    pub user: Option<Seq<char>>,
    pub bind: Option<(Seq<char>, Seq<char>)>,
    pub port: Option<(u32, u32)>,
    pub network: Seq<char>,
}

impl View for ContainerSpec {
    type V = ContainerSpecView;

    open spec fn view(&self) -> ContainerSpecView {
        ContainerSpecView {
            name: self.name@,
            image: self.image,
            env: lines_view(self.env@),
            labels: entries_view(self.labels@),
            user: match self.user {
                Some(u) => Some(u@),
                None => None,
            },
            bind: match self.bind {
                Some(b) => Some((b.0@, b.1@)),
                None => None,
            },
            port: self.port,
            network: self.network@,
        }
    }
}

pub open spec fn spec_view(
    label: Seq<char>,
    image: ContainerImage,
    labels: Seq<Entry>,
    env: Seq<Seq<char>>,
    user: Option<Seq<char>>,
    bind: Option<(Seq<char>, Seq<char>)>,
    port: Option<(u32, u32)>,
) -> ContainerSpecView {
    ContainerSpecView {
        name: container_name_of(label, image),
        image,
        env,
        labels: with_entry(labels, "image"@, image_name(image)),
        user,
        bind,
        port,
        network: network_name_of(label),
    }
}

pub open spec fn mysql_view(label: Seq<char>, dir: Seq<char>, labels: Seq<Entry>, env: Seq<Seq<char>>) -> ContainerSpecView {
    spec_view(label, ContainerImage::MySQL, labels, env, Some("1000:1000"@),
        Some((dir + "/mysql"@, "/var/run/mysqld"@)), None)
}

pub open spec fn wordpress_view(label: Seq<char>, dir: Seq<char>, labels: Seq<Entry>, env: Seq<Seq<char>>) -> ContainerSpecView {
    spec_view(label, ContainerImage::Wordpress, labels, env, Some("1000:1000"@),
        Some((dir + "/wordpress"@, "/var/www/html/"@)), None)
}

pub open spec fn nginx_view(label: Seq<char>, dir: Seq<char>, labels: Seq<Entry>, nginx_port: u32) -> ContainerSpecView {
    spec_view(label, ContainerImage::Nginx, labels, Seq::empty(), None,
        Some((nginx_config_path_of(dir, label), "/etc/nginx/conf.d/default.conf"@)),
        Some((nginx_port, nginx_port)))
}

pub open spec fn adminer_view(label: Seq<char>, labels: Seq<Entry>, env: Seq<Seq<char>>, adminer_port: u32) -> ContainerSpecView {
    spec_view(label, ContainerImage::Adminer, labels, env, None, None, Some((adminer_port, 8080)))
}

fn copy_lines(v: &Vec<String>) -> (r: Vec<String>)
    ensures
        lines_view(r@) == lines_view(v@),
{
    let mut r: Vec<String> = Vec::new();
    let mut i: usize = 0;
    while i < v.len()
        invariant
            i <= v.len(),
            r@.len() == i,
            forall|j: int| 0 <= j < i ==> #[trigger] r@[j]@ == v@[j]@,
        decreases v.len() - i,
    {
        r.push(v[i].clone());
        i = i + 1;
    }
    assert(lines_view(r@) =~= lines_view(v@));
    r
}

fn copy_entries(v: &Vec<(String, String)>) -> (r: Vec<(String, String)>)
    ensures
        entries_view(r@) == entries_view(v@),
{
    let mut r: Vec<(String, String)> = Vec::new();
    let mut i: usize = 0;
    while i < v.len()
        invariant
            i <= v.len(),
            r@.len() == i,
            forall|j: int| 0 <= j < i ==> #[trigger] r@[j].0@ == v@[j].0@ && r@[j].1@ == v@[j].1@,
        decreases v.len() - i,
    {
        r.push((v[i].0.clone(), v[i].1.clone()));
        i = i + 1;
    }
    assert(entries_view(r@) =~= entries_view(v@));
    r
}

fn container_spec(
    label: &str,
    image: ContainerImage,
    labels: &Vec<(String, String)>,
    env: Vec<String>,
    user: Option<String>,
    bind: Option<(String, String)>,
    port: Option<(u32, u32)>,
) -> (r: ContainerSpec)
    requires
        keys_unique(entries_view(labels@)),
    ensures
        r@ == spec_view(label@, image, entries_view(labels@), lines_view(env@),
            match user { Some(u) => Some(u@), None => None },
            match bind { Some(b) => Some((b.0@, b.1@)), None => None },
            port),
{
    ContainerSpec {
        name: container_name(label, image),
        image,
        env,
        labels: create_labels(image, copy_entries(labels)),
        user,
        bind,
        port,
        network: network_name(label),
    }
}

pub fn configure_mysql_container(
    instance_label: &str,
    instance_path: &str,
    labels: &Vec<(String, String)>,
    env_vars: &EnvVars,
) -> (r: ContainerSpec)
    requires
        keys_unique(entries_view(labels@)),
    ensures
        r@ == mysql_view(instance_label@, instance_path@, entries_view(labels@), lines_view(env_vars.mysql@)),
{
    let host = concat(instance_path, "/mysql");
    container_spec(instance_label, ContainerImage::MySQL, labels, copy_lines(&env_vars.mysql),
        Some("1000:1000".to_owned()), Some((host, "/var/run/mysqld".to_owned())), None)
}

pub fn configure_wordpress_container(
    instance_label: &str,
    instance_path: &str,
    labels: &Vec<(String, String)>,
    env_vars: &EnvVars,
) -> (r: ContainerSpec)
    requires
        keys_unique(entries_view(labels@)),
    ensures
        r@ == wordpress_view(instance_label@, instance_path@, entries_view(labels@), lines_view(env_vars.wordpress@)),
{
    let host = concat(instance_path, "/wordpress");
    container_spec(instance_label, ContainerImage::Wordpress, labels, copy_lines(&env_vars.wordpress),
        Some("1000:1000".to_owned()), Some((host, "/var/www/html/".to_owned())), None)
}

pub fn configure_nginx_container(
    instance_path: &str,
    instance_label: &str,
    labels: &Vec<(String, String)>,
    nginx_port: u32,
) -> (r: ContainerSpec)
    requires
        keys_unique(entries_view(labels@)),
    ensures
        r@ == nginx_view(instance_label@, instance_path@, entries_view(labels@), nginx_port),
{
    let conf = nginx_config_path(instance_path, instance_label);
    let env: Vec<String> = Vec::new();
    assert(lines_view(env@) =~= Seq::<Seq<char>>::empty());
    container_spec(instance_label, ContainerImage::Nginx, labels, env, None,
        Some((conf, "/etc/nginx/conf.d/default.conf".to_owned())), Some((nginx_port, nginx_port)))
}

pub fn configure_adminer_container(
    instance_label: &str,
    instance_path: &str,
    labels: &Vec<(String, String)>,
    env_vars: &EnvVars,
    adminer_port: u32,
) -> (r: ContainerSpec)
    requires
        keys_unique(entries_view(labels@)),
    ensures
        r@ == adminer_view(instance_label@, entries_view(labels@), lines_view(env_vars.adminer@), adminer_port),
{
    container_spec(instance_label, ContainerImage::Adminer, labels, copy_lines(&env_vars.adminer),
        None, None, Some((adminer_port, 8080)))
}

/// Everything that creating one instance needs, worked out before any call is
/// made: its files, its record, and its four containers in the order they are
/// created (MySQL, WordPress, Nginx, Adminer).
pub struct InstancePlan {
    pub uuid: String,
    pub instance_dir: String,
    pub labels: Vec<(String, String)>,
    pub env_vars: EnvVars,
    pub nginx_config_path: String,
    pub nginx_config: String,
    pub wpcli_yml: String,
    pub wpcli_php: String,
    pub metadata_path: String,
    pub data: InstanceData,
    pub containers: Vec<ContainerSpec>,
}

/// The plan for the instance `label`, stored under `root`, whose proxy and
/// Adminer were given the ports `nginx_port` and `adminer_port`.
pub fn plan_instance(
    root: &str,
    site_url: &str,
    adminer_url: &str,
    label: &str,
    user_env_vars: &ContainerEnvVars,
    nginx_port: u32,
    adminer_port: u32,
) -> (r: InstancePlan)
    ensures
        r.uuid@ == network_name_of(label@),
        r.instance_dir@ == instance_dir_of(root@, label@),
        entries_view(r.labels@) == instance_label_set(label@, nginx_port, adminer_port),
        lines_view(r.env_vars.adminer@) == env_lines(merged_env(adminer_defaults(label@), Seq::empty())),
        lines_view(r.env_vars.mysql@) == env_lines(merged_env(mysql_defaults(), Seq::empty())),
        lines_view(r.env_vars.wordpress@) == env_lines(
            merged_env(wordpress_defaults(label@), overrides_view(user_env_vars.wordpress)),
        ),
        r.nginx_config_path@ == nginx_config_path_of(r.instance_dir@, label@),
        r.nginx_config@ == nginx_config_text(
            nginx_port,
            container_name_of(label@, ContainerImage::Wordpress),
            container_name_of(label@, ContainerImage::Adminer),
        ),
        r.wpcli_yml@ == wpcli_yml_text(),
        r.wpcli_php@ == wpcli_php_text(r.instance_dir@),
        r.metadata_path@ == metadata_path_of(r.instance_dir@),
        r.data.admin_user@ == value_in_lines(lines_view(r.env_vars.wordpress@), "WORDPRESS_DB_USER"@),
        r.data.admin_password@ == value_in_lines(
            lines_view(r.env_vars.wordpress@),
            "WORDPRESS_DB_PASSWORD"@,
        ),
        r.data.admin_email@ == "admin@example.com"@,
        r.data.site_title@ == "My Wordpress Site"@,
        r.data.adminer_user@ == value_in_lines(
            lines_view(r.env_vars.adminer@),
            "ADMINER_DEFAULT_USERNAME"@,
        ),
        r.data.adminer_password@ == value_in_lines(
            lines_view(r.env_vars.adminer@),
            "ADMINER_DEFAULT_PASSWORD"@,
        ),
        r.data.site_url@ == url_with_port(site_url@, nginx_port),
        r.data.adminer_url@ == url_with_port(adminer_url@, adminer_port),
        r.data.network_name@ == network_name_of(label@),
        r.data.nginx_port == nginx_port,
        r.data.adminer_port == adminer_port,
        r.containers@.len() == 4,
        r.containers@[0]@ == mysql_view(label@, r.instance_dir@, entries_view(r.labels@), lines_view(r.env_vars.mysql@)),
        r.containers@[1]@ == wordpress_view(label@, r.instance_dir@, entries_view(r.labels@), lines_view(r.env_vars.wordpress@)),
        r.containers@[2]@ == nginx_view(label@, r.instance_dir@, entries_view(r.labels@), nginx_port),
        r.containers@[3]@ == adminer_view(label@, entries_view(r.labels@), lines_view(r.env_vars.adminer@), adminer_port),
{
    let env_vars = initialize_env_vars(label, user_env_vars);
    let labels = instance_labels(label, nginx_port, adminer_port);
    let dir = instance_dir(root, label);
    let wordpress_name = container_name(label, ContainerImage::Wordpress);
    let adminer_name = container_name(label, ContainerImage::Adminer);
    let mut containers: Vec<ContainerSpec> = Vec::new();
    containers.push(configure_mysql_container(label, dir.as_str(), &labels, &env_vars));
    containers.push(configure_wordpress_container(label, dir.as_str(), &labels, &env_vars));
    containers.push(configure_nginx_container(dir.as_str(), label, &labels, nginx_port));
    containers.push(configure_adminer_container(label, dir.as_str(), &labels, &env_vars, adminer_port));
    let data = InstanceData::new(&env_vars, nginx_port, adminer_port, site_url, adminer_url, label);
    InstancePlan {
        uuid: network_name(label),
        nginx_config_path: nginx_config_path(dir.as_str(), label),
        nginx_config: generate_nginx_config(nginx_port, wordpress_name.as_str(), adminer_name.as_str()),
        wpcli_yml: generate_wpcli_yml(),
        wpcli_php: generate_wpcli_php(dir.as_str()),
        metadata_path: metadata_path(dir.as_str()),
        instance_dir: dir,
        labels,
        env_vars,
        data,
        containers,
    }
}

} // verus!
