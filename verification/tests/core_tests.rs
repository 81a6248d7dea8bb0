use std::str::FromStr;
use colcon_deb::dependency::Dependency;
use colcon_deb::package::{BuildType, Dependencies};

#[test]
fn test_dependency_to_debian_name() {
    let dep = Dependency::new("std_msgs");
    assert_eq!(dep.to_debian_name("loong"), "agiros-loong-std-msgs");

    let dep = Dependency::new("python3-numpy");
    assert_eq!(dep.to_debian_name("loong"), "python3-numpy");
}

#[test]
fn test_dependency_to_debian_string() {
    let dep = Dependency::new("rclcpp");
    assert_eq!(dep.to_debian_dependency("loong"), "agiros-loong-rclcpp");

    let dep = Dependency::with_min_version("rclcpp", "1.0.0");
    assert_eq!(dep.to_debian_dependency("loong"), "agiros-loong-rclcpp (>= 1.0.0)");
}

#[test]
fn test_dependencies_all_unique() {
    let deps = Dependencies {
        build: vec!["foo".to_string(), "bar".to_string()],
        execution: vec!["bar".to_string(), "baz".to_string()],
        ..Default::default()
    };

    let all = deps.all_unique();
    assert_eq!(all, vec!["bar".to_string(), "baz".to_string(), "foo".to_string()]);
}

#[test]
fn test_build_type_from_str() {
    assert_eq!(BuildType::from_str("ament_cmake").unwrap(), BuildType::AmentCmake);
    assert_eq!(BuildType::from_str("AMENT_PYTHON").unwrap(), BuildType::AmentPython);
    assert_eq!(BuildType::from_str("unknown").unwrap(), BuildType::Unknown);
}

#[test]
fn integration_tests_test_dependency_mapping() {
    let ros_dep = Dependency::new("simple_publisher");
    assert_eq!(ros_dep.to_debian_name("loong"), "agiros-loong-simple-publisher");

    let system_dep = Dependency::new("libboost-system-dev");
    assert_eq!(system_dep.to_debian_name("loong"), "libboost-system-dev");

    let python_dep = Dependency::new("python3-numpy");
    assert_eq!(python_dep.to_debian_name("loong"), "python3-numpy");

    let underscore_dep = Dependency::new("sensor_msgs");
    assert_eq!(underscore_dep.to_debian_name("loong"), "agiros-loong-sensor-msgs");
}

#[test]
fn runtime_dependencies_are_exec_and_export_sorted() {
    let deps = Dependencies {
        build: vec!["zeta".to_string()],
        build_export: vec!["beta".to_string(), "alpha".to_string()],
        execution: vec!["beta".to_string(), "gamma".to_string()],
        ..Default::default()
    };
    assert_eq!(
        deps.runtime(),
        vec!["alpha".to_string(), "beta".to_string(), "gamma".to_string()]
    );
    for name in deps.runtime() {
        assert!(deps.all_unique().contains(&name));
    }
}

#[test]
fn build_type_names_ignore_case() {
    assert_eq!(BuildType::from_name("CMake"), BuildType::Cmake);
    assert_eq!(BuildType::from_name("ament_Cmake"), BuildType::AmentCmake);
    assert_eq!(BuildType::from_name(""), BuildType::Unknown);
}
