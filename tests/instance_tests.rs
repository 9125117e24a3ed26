use wpdev_core::container::{ContainerError, EngineCall, InstanceContainer};
use wpdev_core::env::ContainerEnvVars;
use wpdev_core::image::ContainerImage;
use wpdev_core::instance::{Instance, InstanceError, InstanceSelection, ListedContainer, NetworkListing};
use wpdev_core::metadata::InstanceData;
use wpdev_core::plan::{plan_instance, InstancePlan};
use wpdev_core::status::{ContainerStatus, InstanceStatus};

fn demo_plan() -> InstancePlan {
    plan_instance(
        "/home/u/.config/wpdev/instances",
        "http://localhost",
        "http://localhost",
        "demo",
        &ContainerEnvVars::default(),
        40001,
        40002,
    )
}

fn data(label: &str, nginx_port: u32, adminer_port: u32) -> InstanceData {
    InstanceData {
        admin_user: "wordpress".to_string(),
        admin_password: "password".to_string(),
        admin_email: "admin@example.com".to_string(),
        site_title: "My Wordpress Site".to_string(),
        site_url: format!("http://localhost:{}", nginx_port),
        adminer_url: format!("http://localhost:{}", adminer_port),
        adminer_user: "wordpress".to_string(),
        adminer_password: "password".to_string(),
        network_name: format!("wp-network-{}", label),
        nginx_port,
        adminer_port,
    }
}

fn listed(id: &str, state: &str, network: &str, label: &str, image: &str) -> ListedContainer {
    ListedContainer {
        id: id.to_string(),
        state: state.to_string(),
        networks: vec![network.to_string()],
        labels: vec![
            ("instance".to_string(), label.to_string()),
            ("image".to_string(), image.to_string()),
        ],
    }
}

#[test]
fn create_then_inspect() {
    let plan = demo_plan();
    assert_eq!(plan.uuid, "wp-network-demo");
    let images: Vec<ContainerImage> = plan.containers.iter().map(|c| c.image).collect();
    assert_eq!(
        images,
        vec![ContainerImage::MySQL, ContainerImage::Wordpress, ContainerImage::Nginx, ContainerImage::Adminer]
    );
    let created: Vec<(String, ContainerStatus)> = ["id-m", "id-w", "id-n", "id-a"]
        .iter()
        .map(|id| (id.to_string(), ContainerStatus::Running))
        .collect();
    let specs: Vec<(String, String)> = plan
        .containers
        .iter()
        .map(|c| (c.labels.iter().find(|l| l.0 == "image").unwrap().1.clone(), c.network.clone()))
        .collect();
    let instance = Instance::from_created(plan, created);
    assert_eq!(instance.containers.len(), 4);
    assert_eq!(instance.status, InstanceStatus::Running);
    assert_eq!(instance.nginx_port, 40001);
    assert_eq!(instance.adminer_port, 40002);

    let ids = ["id-m", "id-w", "id-n", "id-a"];
    let engine_list: Vec<ListedContainer> = ids
        .iter()
        .zip(specs.iter())
        .map(|(id, (image, network))| listed(id, "running", network, "demo", image))
        .collect();
    let again = Instance::list_from(
        "wp-network-demo".to_string(),
        instance.wordpress_data,
        &engine_list,
    );
    let again = match again {
        Ok(i) => i,
        Err(_) => panic!("listing failed"),
    };
    let listed_ids: Vec<String> = again.containers.iter().map(|c| c.container_id.clone()).collect();
    assert_eq!(listed_ids, ids.iter().map(|s| s.to_string()).collect::<Vec<_>>());
    let roles: Vec<ContainerImage> = again.containers.iter().map(|c| c.container_image).collect();
    assert_eq!(
        roles,
        vec![ContainerImage::MySQL, ContainerImage::Wordpress, ContainerImage::Nginx, ContainerImage::Adminer]
    );
    assert_eq!(again.nginx_port, 40001);
    assert_eq!(again.adminer_port, 40002);
    assert_eq!(again.status, InstanceStatus::Running);
}

#[test]
fn partially_running_after_creation() {
    let plan = demo_plan();
    let created = vec![
        ("a".to_string(), ContainerStatus::Running),
        ("b".to_string(), ContainerStatus::Stopped),
        ("c".to_string(), ContainerStatus::Running),
        ("d".to_string(), ContainerStatus::Unknown),
    ];
    let instance = Instance::from_created(plan, created);
    assert_eq!(instance.status, InstanceStatus::PartiallyRunning);
    assert_eq!(instance.containers[3].container_image, ContainerImage::Adminer);
}

#[test]
fn listing_keeps_members_only() {
    let net = "wp-network-one";
    let mut stranger = listed("x", "running", net, "two", "mysql");
    stranger.labels[0].1 = "two".to_string();
    let elsewhere = listed("y", "running", "bridge", "one", "mysql");
    let unlabelled = ListedContainer {
        id: "z".to_string(),
        state: "running".to_string(),
        networks: vec![net.to_string()],
        labels: vec![],
    };
    let member = listed("m", "exited", net, "one", "nginx");
    let all = vec![stranger, elsewhere, unlabelled, member];
    let inst = match Instance::list_from(net.to_string(), Some(data("one", 1, 2)), &all) {
        Ok(i) => i,
        Err(_) => panic!("listing failed"),
    };
    assert_eq!(inst.containers.len(), 1);
    assert_eq!(inst.containers[0].container_id, "m");
    assert_eq!(inst.containers[0].container_image, ContainerImage::Nginx);
    assert_eq!(inst.containers[0].container_status, ContainerStatus::Exited);
    assert_eq!(inst.status, InstanceStatus::Stopped);
}

#[test]
fn listing_without_record_fails() {
    let r = Instance::list_from("wp-network-one".to_string(), None, &vec![]);
    assert!(matches!(r, Err(InstanceError::MetadataMissing { network }) if network == "wp-network-one"));
}

#[test]
fn list_all_skips_broken_network() {
    let mk = |label: &str, with_data: bool| NetworkListing {
        name: format!("wp-network-{}", label),
        data: if with_data { Some(data(label, 10, 20)) } else { None },
        containers: vec![listed(
            &format!("{}-c", label),
            "running",
            &format!("wp-network-{}", label),
            label,
            "wordpress",
        )],
    };
    let networks = vec![
        mk("a", true),
        mk("b", false),
        mk("c", true),
        NetworkListing { name: "bridge".to_string(), data: Some(data("x", 1, 1)), containers: vec![] },
    ];
    let found = Instance::list_all_from("wp-network", networks);
    let names: Vec<String> = found.iter().map(|i| i.uuid.clone()).collect();
    assert_eq!(names, vec!["wp-network-a", "wp-network-c"]);
    assert_eq!(found[0].containers[0].container_id, "a-c");
    assert_eq!(found[1].status, InstanceStatus::Running);
}

fn observed(id: &str, status: ContainerStatus) -> Result<InstanceContainer, ContainerError> {
    Ok(InstanceContainer {
        container_id: id.to_string(),
        container_image: ContainerImage::Unknown,
        container_status: status,
    })
}

#[test]
fn stop_all_with_one_failing_instance() {
    let a = vec![
        observed("a1", ContainerStatus::Stopped),
        observed("a2", ContainerStatus::Stopped),
        observed("a3", ContainerStatus::Stopped),
        observed("a4", ContainerStatus::Stopped),
    ];
    let b = vec![
        observed("b1", ContainerStatus::Stopped),
        Err(ContainerError::Engine {
            container_id: "b2".to_string(),
            call: EngineCall::Stop,
            message: "timeout".to_string(),
        }),
        observed("b3", ContainerStatus::Stopped),
        observed("b4", ContainerStatus::Stopped),
    ];
    let results = vec![
        Instance::operation_info("wp-network-a".to_string(), a),
        Instance::operation_info("wp-network-b".to_string(), b),
    ];
    assert_eq!(results[0].uuid, "wp-network-a");
    assert_eq!(results[0].status, InstanceStatus::Stopped);
    assert!(results[0].failures.is_empty());
    assert_eq!(results[0].containers.len(), 4);
    assert_eq!(results[1].uuid, "wp-network-b");
    assert_eq!(results[1].failures.len(), 1);
    assert!(matches!(&results[1].failures[0], ContainerError::Engine { container_id, .. } if container_id == "b2"));
    assert_eq!(results[1].containers.len(), 3);
}

#[test]
fn operation_info_mixed_states() {
    let info = Instance::operation_info(
        "i".to_string(),
        vec![observed("1", ContainerStatus::Running), observed("2", ContainerStatus::Exited)],
    );
    assert_eq!(info.status, InstanceStatus::PartiallyRunning);
    let none = Instance::operation_info("i".to_string(), vec![]);
    assert_eq!(none.status, InstanceStatus::Unknown);
}

#[test]
fn deletion_outcomes() {
    let ok = Instance::deletion_info("i".to_string(), vec![observed("1", ContainerStatus::NotFound)]);
    assert_eq!(ok.status, InstanceStatus::Deleted);
    let bad = Instance::deletion_info(
        "i".to_string(),
        vec![
            observed("1", ContainerStatus::NotFound),
            Err(ContainerError::NotFound { container_id: "2".to_string() }),
        ],
    );
    assert_eq!(bad.status, InstanceStatus::Stopped);
    assert_eq!(bad.failures.len(), 1);
}

#[test]
fn selecting_targets() {
    let known = vec!["wp-network-a".to_string(), "wp-network-b".to_string()];
    match Instance::select_targets(InstanceSelection::All, &known) {
        Ok(v) => assert_eq!(v, known),
        Err(_) => panic!("all must be selectable"),
    }
    match Instance::select_targets(InstanceSelection::One("wp-network-b".to_string()), &known) {
        Ok(v) => assert_eq!(v, vec!["wp-network-b".to_string()]),
        Err(_) => panic!("a known instance must be selectable"),
    }
    let r = Instance::select_targets(InstanceSelection::One("wp-network-z".to_string()), &known);
    assert!(matches!(r, Err(InstanceError::NotFound { uuid }) if uuid == "wp-network-z"));
}

#[test]
fn instance_from_labels() {
    let labels = vec![
        ("instance".to_string(), "demo".to_string()),
        ("nginx_port".to_string(), "41000".to_string()),
        ("adminer_port".to_string(), "oops".to_string()),
    ];
    let i = Instance::create_new_instance("demo", &labels);
    assert_eq!(i.uuid, "demo");
    assert_eq!(i.status, InstanceStatus::Unknown);
    assert_eq!(i.nginx_port, 41000);
    assert_eq!(i.adminer_port, 0);
    assert!(i.containers.is_empty());
    assert!(i.wordpress_data.is_none());
    let twice = vec![
        ("nginx_port".to_string(), "1".to_string()),
        ("nginx_port".to_string(), "2".to_string()),
    ];
    assert_eq!(Instance::create_new_instance("x", &twice).nginx_port, 1);
}
