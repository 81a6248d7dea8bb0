use colcon_deb::mapping::{ControlDependencies, DependencyMapper};

#[test]
fn test_ros_package_mapping() {
    let mapper = DependencyMapper::for_loong();
    assert_eq!(mapper.map_package("std_msgs").unwrap(), "agiros-loong-std-msgs");
    assert_eq!(mapper.map_package("geometry_msgs").unwrap(), "agiros-loong-geometry-msgs");
    assert_eq!(mapper.map_package("sensor_msgs").unwrap(), "agiros-loong-sensor-msgs");
}

#[test]
fn test_system_package_mapping() {
    let mapper = DependencyMapper::for_loong();
    assert_eq!(mapper.map_package("cmake").unwrap(), "cmake");
    assert_eq!(mapper.map_package("python3").unwrap(), "python3");
    assert_eq!(mapper.map_package("build-essential").unwrap(), "build-essential");
}

#[test]
fn test_custom_mappings() {
    let mut mapper = DependencyMapper::for_loong();
    mapper.add_custom_mapping("custom_pkg".to_string(), "my-custom-package".to_string());
    assert_eq!(mapper.map_package("custom_pkg").unwrap(), "my-custom-package");
}

#[test]
fn test_invalid_package_names() {
    let mapper = DependencyMapper::for_loong();
    assert!(mapper.map_package("123invalid").is_err());
    assert!(mapper.map_package("invalid-name").is_err());
    assert!(mapper.map_package("").is_err());
}

#[test]
fn test_control_dependencies() {
    let mapper = DependencyMapper::for_loong();
    let build_deps = vec!["cmake".to_string(), "std_msgs".to_string()];
    let exec_deps = vec!["geometry_msgs".to_string()];
    let deps = mapper.generate_control_dependencies(&build_deps, &exec_deps).unwrap();
    assert!(deps.build_depends.contains(&"cmake".to_string()));
    assert!(deps.build_depends.contains(&"agiros-loong-std-msgs".to_string()));
    assert!(deps.depends.contains(&"agiros-loong-geometry-msgs".to_string()));
}

#[test]
fn test_different_distros() {
    let loong_mapper = DependencyMapper::for_loong();
    let iron_mapper = DependencyMapper::for_iron();
    assert_eq!(loong_mapper.map_package("std_msgs").unwrap(), "agiros-loong-std-msgs");
    assert_eq!(iron_mapper.map_package("std_msgs").unwrap(), "agiros-iron-std-msgs");
}

#[test]
fn test_control_dependencies_formatting() {
    let mut deps = ControlDependencies::new();
    deps.add_build_depend("cmake".to_string());
    deps.add_build_depend("agiros-loong-std-msgs".to_string());
    deps.add_depend("agiros-loong-geometry-msgs".to_string());
    let formatted = deps.format_for_control();
    assert!(formatted.contains("Build-Depends: cmake, agiros-loong-std-msgs"));
    assert!(formatted.contains("Depends: agiros-loong-geometry-msgs"));
}

#[test]
fn custom_mapping_overrides_system_and_leaves_others() {
    let mut mapper = DependencyMapper::for_pixiu();
    mapper.add_custom_mapping("cmake".to_string(), "cmake-latest".to_string());
    assert_eq!(mapper.map_package("cmake").unwrap(), "cmake-latest");
    assert_eq!(mapper.map_package("git").unwrap(), "git");
    assert_eq!(mapper.map_package("nav_msgs").unwrap(), "agiros-pixiu-nav-msgs");
}

#[test]
fn adding_a_dependency_twice_keeps_one() {
    let mut deps = ControlDependencies::new();
    deps.add_depend("a".to_string());
    deps.add_depend("a".to_string());
    deps.add_build_depend("b".to_string());
    deps.add_build_depend("b".to_string());
    assert_eq!(deps.depends, vec!["a".to_string()]);
    assert_eq!(deps.build_depends, vec!["b".to_string()]);
    assert_eq!(deps.format_for_control(), "Build-Depends: b\nDepends: a");
}

#[test]
fn mapping_error_names_the_dependency() {
    let mapper = DependencyMapper::for_loong();
    let deps = vec!["std_msgs".to_string(), "Bad-Name".to_string(), "9x".to_string()];
    let err = mapper.map_system_dependencies(&deps).unwrap_err();
    assert_eq!(
        err.to_text(),
        "Failed to map dependency Bad-Name: Invalid ROS package name"
    );
}

#[test]
fn control_dependencies_report_first_unmapped() {
    let mapper = DependencyMapper::for_loong();
    let build_deps = vec!["std_msgs".to_string(), "Bad-Name".to_string(), "9bad".to_string()];
    let exec_deps = vec!["also-bad".to_string()];
    match mapper.generate_control_dependencies(&build_deps, &exec_deps) {
        Err(colcon_deb::debian_error::DebianError::DependencyMappingFailed { dependency, .. }) => {
            assert_eq!(dependency, "Bad-Name");
        }
        _ => panic!("expected a mapping failure"),
    }
    let ok_build = vec!["std_msgs".to_string()];
    match mapper.generate_control_dependencies(&ok_build, &exec_deps) {
        Err(colcon_deb::debian_error::DebianError::DependencyMappingFailed { dependency, .. }) => {
            assert_eq!(dependency, "also-bad");
        }
        _ => panic!("expected a mapping failure"),
    }
}
