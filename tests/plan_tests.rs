use wpdev_core::artifacts::{generate_nginx_config, generate_wpcli_php, nginx_config_path};
use wpdev_core::env::{initialize_env_vars, ContainerEnvVars};
use wpdev_core::image::ContainerImage;
use wpdev_core::layout::{container_name, instance_dir, is_instance_network, metadata_path, network_name};
use wpdev_core::metadata::InstanceData;
use wpdev_core::plan::plan_instance;

#[test]
fn names_and_paths() {
    assert_eq!(network_name("demo"), "wp-network-demo");
    assert_eq!(container_name("demo", ContainerImage::Adminer), "demo-adminer");
    assert_eq!(instance_dir("/root/i", "demo"), "/root/i/wp-network-demo");
    assert_eq!(metadata_path("/root/i/wp-network-demo"), "/root/i/wp-network-demo/instance.toml");
    assert_eq!(nginx_config_path("/d", "demo"), "/d/nginx/demo-nginx.conf");
    assert!(is_instance_network("wp-network-demo", "wp-network"));
    assert!(!is_instance_network("bridge", "wp-network"));
    assert!(!is_instance_network("wp-net", "wp-network"));
}

#[test]
fn proxy_configuration() {
    let text = generate_nginx_config(40001, "demo-wordpress", "demo-adminer");
    assert!(text.contains("listen 40001;"));
    assert!(text.contains("proxy_pass http://demo-wordpress:80/;"));
    assert!(text.contains("listen 8080;"));
    assert!(text.contains("proxy_pass http://demo-adminer:8080/;"));
    assert_eq!(text.matches("proxy_set_header Host $host:$server_port;").count(), 2);
}

#[test]
fn wpcli_configuration() {
    let php = generate_wpcli_php("/d/wp-network-demo");
    assert!(php.starts_with("<?php"));
    assert!(php.contains("define('DB_HOST', 'localhost:/d/wp-network-demo/mysql/mysqld.sock');"));
}

#[test]
fn instance_record() {
    let env = initialize_env_vars("demo", &ContainerEnvVars::default());
    let d = InstanceData::new(&env, 40001, 40002, "http://localhost", "http://127.0.0.1", "demo");
    assert_eq!(d.admin_user, "wordpress");
    assert_eq!(d.admin_password, "password");
    assert_eq!(d.admin_email, "admin@example.com");
    assert_eq!(d.site_title, "My Wordpress Site");
    assert_eq!(d.site_url, "http://localhost:40001");
    assert_eq!(d.adminer_url, "http://127.0.0.1:40002");
    assert_eq!(d.adminer_user, "wordpress");
    assert_eq!(d.adminer_password, "password");
    assert_eq!(d.network_name, "wp-network-demo");
    assert_eq!(d.nginx_port, 40001);
    assert_eq!(d.adminer_port, 40002);
}

#[test]
fn instance_record_with_overridden_password() {
    let user = ContainerEnvVars {
        wordpress: Some(vec![("WORDPRESS_DB_PASSWORD".to_string(), "s=cret".to_string())]),
    };
    let env = initialize_env_vars("demo", &user);
    let d = InstanceData::new(&env, 1, 2, "http://h", "http://h", "demo");
    assert_eq!(d.admin_password, "s=cret");
    let empty = wpdev_core::env::EnvVars { adminer: vec![], mysql: vec![], wordpress: vec![] };
    let d = InstanceData::new(&empty, 1, 2, "http://h", "http://h", "demo");
    assert_eq!(d.admin_user, "defaultValue");
}

#[test]
fn creation_plan() {
    let plan = plan_instance("/r", "http://localhost", "http://localhost", "demo", &ContainerEnvVars::default(), 40001, 40002);
    assert_eq!(plan.instance_dir, "/r/wp-network-demo");
    assert_eq!(plan.metadata_path, "/r/wp-network-demo/instance.toml");
    assert_eq!(plan.nginx_config_path, "/r/wp-network-demo/nginx/demo-nginx.conf");
    assert_eq!(plan.containers.len(), 4);
    let m = &plan.containers[0];
    assert_eq!(m.name, "demo-mysql");
    assert_eq!(m.user.as_deref(), Some("1000:1000"));
    assert_eq!(m.bind, Some(("/r/wp-network-demo/mysql".to_string(), "/var/run/mysqld".to_string())));
    assert_eq!(m.port, None);
    assert_eq!(m.network, "wp-network-demo");
    assert!(m.labels.contains(&("image".to_string(), "mysql".to_string())));
    assert!(m.labels.contains(&("instance".to_string(), "demo".to_string())));
    assert!(m.labels.contains(&("nginx_port".to_string(), "40001".to_string())));
    let w = &plan.containers[1];
    assert_eq!(w.bind, Some(("/r/wp-network-demo/wordpress".to_string(), "/var/www/html/".to_string())));
    let n = &plan.containers[2];
    assert_eq!(n.port, Some((40001, 40001)));
    assert!(n.env.is_empty());
    assert_eq!(
        n.bind,
        Some(("/r/wp-network-demo/nginx/demo-nginx.conf".to_string(), "/etc/nginx/conf.d/default.conf".to_string()))
    );
    let a = &plan.containers[3];
    assert_eq!(a.port, Some((40002, 8080)));
    assert_eq!(a.bind, None);
    assert_eq!(a.user, None);
    assert_eq!(plan.data.site_url, "http://localhost:40001");
    assert!(plan.nginx_config.contains("demo-wordpress:80"));
}
