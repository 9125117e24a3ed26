use wpdev_core::env::{initialize_env_vars, merge_env_vars, ContainerEnvVars};

fn pairs(v: &[(&str, &str)]) -> Vec<(String, String)> {
    v.iter().map(|(k, x)| (k.to_string(), x.to_string())).collect()
}

#[test]
fn overrides_win_defaults_stay_new_keys_added() {
    let defaults = pairs(&[("A", "1"), ("B", "2")]);
    let overrides = Some(pairs(&[("B", "9"), ("C", "3")]));
    let merged = merge_env_vars(defaults, &overrides);
    assert_eq!(merged, vec!["A=1", "B=9", "C=3"]);
}

#[test]
fn no_overrides_keeps_defaults() {
    let defaults = pairs(&[("A", "1"), ("B", "2")]);
    assert_eq!(merge_env_vars(defaults, &None), vec!["A=1", "B=2"]);
    assert_eq!(merge_env_vars(Vec::new(), &None), Vec::<String>::new());
}

#[test]
fn later_duplicate_wins() {
    let defaults = pairs(&[("A", "1"), ("A", "5")]);
    let overrides = Some(pairs(&[("C", "3"), ("C", "4")]));
    assert_eq!(merge_env_vars(defaults, &overrides), vec!["A=5", "C=4"]);
}

#[test]
fn role_environments() {
    let user = ContainerEnvVars { wordpress: Some(pairs(&[("WORDPRESS_DEBUG", "0"), ("EXTRA", "x")])) };
    let env = initialize_env_vars("demo", &user);
    assert_eq!(env.mysql.len(), 4);
    assert!(env.mysql.contains(&"MYSQL_DATABASE=wordpress".to_string()));
    assert_eq!(env.adminer.len(), 7);
    assert!(env.adminer.contains(&"ADMINER_DEFAULT_SERVER=demo-mysql".to_string()));
    assert_eq!(env.wordpress[0], "WORDPRESS_DB_HOST=demo-mysql");
    assert!(env.wordpress.contains(&"WORDPRESS_DEBUG=0".to_string()));
    assert!(!env.wordpress.contains(&"WORDPRESS_DEBUG=1".to_string()));
    assert_eq!(env.wordpress.last().unwrap(), "EXTRA=x");
    assert_eq!(env.wordpress.len(), 8);
    let plain = initialize_env_vars("demo", &ContainerEnvVars::default());
    assert!(plain.wordpress.contains(&"WORDPRESS_DEBUG=1".to_string()));
}
