use wpdev_core::image::ContainerImage;
use wpdev_core::status::{determine_instance_status, ContainerStatus, InstanceStatus};

#[test]
fn aggregate_of_nothing_is_unknown() {
    assert_eq!(determine_instance_status(&vec![]), InstanceStatus::Unknown);
}

#[test]
fn aggregate_all_running() {
    for n in 1..5 {
        let s = vec![ContainerStatus::Running; n];
        assert_eq!(determine_instance_status(&s), InstanceStatus::Running);
    }
}

#[test]
fn aggregate_one_running_rest_stopped() {
    for k in 1..5 {
        let mut s = vec![ContainerStatus::Running];
        s.extend(vec![ContainerStatus::Stopped; k]);
        assert_eq!(determine_instance_status(&s), InstanceStatus::PartiallyRunning);
    }
}

#[test]
fn aggregate_none_running() {
    let s = vec![
        ContainerStatus::Stopped,
        ContainerStatus::Paused,
        ContainerStatus::Restarting,
        ContainerStatus::Dead,
        ContainerStatus::Exited,
        ContainerStatus::NotFound,
    ];
    assert_eq!(determine_instance_status(&s), InstanceStatus::Stopped);
    assert_eq!(determine_instance_status(&vec![ContainerStatus::Unknown]), InstanceStatus::Stopped);
}

#[test]
fn aggregate_ignores_order() {
    let a = vec![ContainerStatus::Stopped, ContainerStatus::Running, ContainerStatus::Paused];
    let b = vec![ContainerStatus::Running, ContainerStatus::Paused, ContainerStatus::Stopped];
    assert_eq!(determine_instance_status(&a), determine_instance_status(&b));
}

#[test]
fn container_status_names() {
    assert_eq!(ContainerStatus::Running.to_string(), "running");
    assert_eq!(ContainerStatus::NotFound.to_string(), "not found");
    assert_eq!(ContainerStatus::Deleted.to_string(), "deleted");
    assert_eq!(ContainerStatus::from_str("running"), ContainerStatus::Running);
    assert_eq!(ContainerStatus::from_str("exited"), ContainerStatus::Exited);
    assert_eq!(ContainerStatus::from_str("paused"), ContainerStatus::Paused);
    assert_eq!(ContainerStatus::from_str("created"), ContainerStatus::Unknown);
    assert_eq!(ContainerStatus::from_str("Running"), ContainerStatus::Unknown);
}

#[test]
fn container_status_from_inspection() {
    assert_eq!(ContainerStatus::from_inspection(false, "running"), ContainerStatus::NotFound);
    assert_eq!(ContainerStatus::from_inspection(true, "running"), ContainerStatus::Running);
    assert_eq!(ContainerStatus::from_inspection(true, "exited"), ContainerStatus::Stopped);
    assert_eq!(ContainerStatus::from_inspection(true, "paused"), ContainerStatus::Unknown);
}

#[test]
fn container_image_names() {
    assert_eq!(ContainerImage::MySQL.to_string(), "mysql");
    assert_eq!(ContainerImage::Wordpress.to_string(), "wordpress");
    assert_eq!(ContainerImage::Unknown.to_string(), "unknown");
    for i in [
        ContainerImage::Adminer,
        ContainerImage::MySQL,
        ContainerImage::Nginx,
        ContainerImage::Wordpress,
        ContainerImage::Unknown,
    ] {
        assert_eq!(ContainerImage::from_str(&i.to_string()), i);
    }
    assert_eq!(ContainerImage::from_str("Unknown"), ContainerImage::Unknown);
    assert_eq!(ContainerImage::from_str("postgres"), ContainerImage::Unknown);
}
