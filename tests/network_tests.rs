use wpdev_core::images::{image_exists, images_to_pull};
use wpdev_core::hosts::{update_hosts_lines, HostsFileAction};
use wpdev_core::instance::InstanceSelection;
use wpdev_core::network::{network_needs_create, purge_plan};

#[test]
fn network_created_once() {
    let mut existing = vec!["bridge".to_string(), "host".to_string()];
    let mut creates = 0;
    for _ in 0..2 {
        if network_needs_create(&existing, "wp-network-demo") {
            creates += 1;
            existing.push("wp-network-demo".to_string());
        }
    }
    assert_eq!(creates, 1);
    assert!(!network_needs_create(&existing, "wp-network-demo"));
    assert!(network_needs_create(&vec![], "wp-network-demo"));
}

#[test]
fn purge_all_and_one() {
    let networks = vec![
        "bridge".to_string(),
        "wp-network-a".to_string(),
        "wp-network-b".to_string(),
        "host".to_string(),
    ];
    let all = purge_plan(&InstanceSelection::All, &networks, "/r");
    assert_eq!(all.networks, vec!["wp-network-a".to_string(), "wp-network-b".to_string()]);
    assert_eq!(all.directory, "/r");
    let one = purge_plan(&InstanceSelection::One("wp-network-a".to_string()), &networks, "/r");
    assert_eq!(one.networks, vec!["wp-network-a".to_string()]);
    assert_eq!(one.directory, "/r/wp-network-a");
}

fn lines(v: &[&str]) -> Vec<String> {
    v.iter().map(|s| s.to_string()).collect()
}

#[test]
fn hosts_add_new_block() {
    let before = lines(&["127.0.0.1 localhost"]);
    let after = update_hosts_lines(&before, "demo", HostsFileAction::Add);
    assert_eq!(after, lines(&["127.0.0.1 localhost", "", "# START WP_DEV", "127.0.0.1 demo.local", "# END WP_DEV"]));
}

#[test]
fn hosts_add_into_block() {
    let before = lines(&["a", "  # START WP_DEV ", "127.0.0.1 old.local", "# END WP_DEV", "b"]);
    let after = update_hosts_lines(&before, "demo", HostsFileAction::Add);
    assert_eq!(after, lines(&["a", "  # START WP_DEV ", "127.0.0.1 demo.local", "# END WP_DEV", "b"]));
}

#[test]
fn hosts_remove_entry() {
    let before = lines(&["a", "# START WP_DEV", "127.0.0.1 demo.local", "127.0.0.1 other.local", "# END WP_DEV"]);
    let after = update_hosts_lines(&before, "demo", HostsFileAction::Remove);
    assert_eq!(after, lines(&["a", "# START WP_DEV", "127.0.0.1 other.local", "# END WP_DEV"]));
}

#[test]
fn hosts_purge_block() {
    let before = lines(&["a", "# START WP_DEV", "127.0.0.1 demo.local", "# END WP_DEV", "b"]);
    let after = update_hosts_lines(&before, "demo", HostsFileAction::Purge);
    assert_eq!(after, lines(&["a", "b"]));
}

#[test]
fn images_still_to_pull() {
    let tags = lines(&["wordpress:latest", "mysql:8", "library/nginx:latest"]);
    assert!(image_exists(&tags, "nginx:latest"));
    assert!(image_exists(&tags, "mysql"));
    assert!(!image_exists(&tags, "adminer:latest"));
    assert!(!image_exists(&vec![], "mysql"));
    let wanted = lines(&["wordpress:latest", "adminer:latest", "mysql:latest", "wordpress:cli"]);
    assert_eq!(images_to_pull(&wanted, &tags), lines(&["adminer:latest", "mysql:latest", "wordpress:cli"]));
}
