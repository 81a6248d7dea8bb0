use colcon_deb::version::VersionHandler;

#[test]
fn test_ros_to_debian_basic() {
    let handler = VersionHandler::new();
    assert_eq!(handler.ros_to_debian("1.2.3", 1).unwrap(), "1.2.3-1");
    assert_eq!(handler.ros_to_debian("1.2.3.4", 1).unwrap(), "1.2.3.4-1");
}

#[test]
fn test_ros_to_debian_prerelease() {
    let handler = VersionHandler::new();
    assert_eq!(handler.ros_to_debian("1.2.3-alpha1", 1).unwrap(), "1.2.3~alpha1-1");
    assert_eq!(handler.ros_to_debian("1.2.3-beta2", 1).unwrap(), "1.2.3~beta2-1");
    assert_eq!(handler.ros_to_debian("1.2.3-rc1", 1).unwrap(), "1.2.3~rc1-1");
    assert_eq!(handler.ros_to_debian("1.2.3.dev4", 1).unwrap(), "1.2.3~dev4-1");
}

#[test]
fn test_debian_revision() {
    let handler = VersionHandler::new();
    assert_eq!(handler.ros_to_debian("1.2.3", 1).unwrap(), "1.2.3-1");
    assert_eq!(handler.ros_to_debian("1.2.3", 5).unwrap(), "1.2.3-5");
}

#[test]
fn test_invalid_versions() {
    let handler = VersionHandler::new();
    assert!(handler.ros_to_debian("", 1).is_err());
    assert!(handler.ros_to_debian("not.a.version", 1).is_err());
    assert!(handler.ros_to_debian("1.2.3-gamma", 1).is_err());
}

#[test]
fn test_debian_to_ros() {
    let handler = VersionHandler::new();
    assert_eq!(handler.debian_to_ros("1.2.3-1").unwrap(), "1.2.3");
    assert_eq!(handler.debian_to_ros("1.2.3~alpha1-1").unwrap(), "1.2.3-alpha1");
    assert_eq!(handler.debian_to_ros("1.2.3~dev4-1").unwrap(), "1.2.3.dev4");
}

#[test]
fn test_version_validation() {
    let handler = VersionHandler::new();
    assert!(handler.validate_ros_version("1.2.3").is_ok());
    assert!(handler.validate_ros_version("1.2.3.4").is_ok());
    assert!(handler.validate_ros_version("1.2.3-alpha1").is_ok());
    assert!(handler.validate_ros_version("").is_err());
    assert!(handler.validate_ros_version("1.2").is_err());
    assert!(handler.validate_ros_version("1.2.3.4.5").is_err());
}

#[test]
fn test_major_minor_extraction() {
    let handler = VersionHandler::new();
    assert_eq!(handler.get_major_minor("1.2.3").unwrap(), (1, 2));
    assert_eq!(handler.get_major_minor("10.25.3").unwrap(), (10, 25));
    assert_eq!(handler.get_major_minor("1.2.3-alpha1").unwrap(), (1, 2));
}

#[test]
fn test_prerelease_detection() {
    let handler = VersionHandler::new();
    assert!(handler.is_prerelease("1.2.3-alpha1"));
    assert!(handler.is_prerelease("1.2.3-beta2"));
    assert!(handler.is_prerelease("1.2.3.dev4"));
    assert!(!handler.is_prerelease("1.2.3"));
}

#[test]
fn round_trip_gives_canonical_spelling() {
    let handler = VersionHandler::new();
    for (ros, canonical) in [
        ("2.0.1", "2.0.1"),
        ("2.0.1.7", "2.0.1.7"),
        ("2.0.1rc3", "2.0.1-rc3"),
        ("2.0.1.beta", "2.0.1-beta"),
        ("2.0.1-dev12", "2.0.1.dev12"),
    ] {
        let deb = handler.ros_to_debian(ros, 3).unwrap();
        assert_eq!(handler.debian_to_ros(&deb).unwrap(), canonical);
    }
}

#[test]
fn version_errors_name_the_version() {
    let handler = VersionHandler::new();
    let err = handler.ros_to_debian("", 1).unwrap_err();
    assert_eq!(err.to_text(), "Invalid version format:  - Version cannot be empty");
    let err = handler.get_major_minor("1").unwrap_err();
    assert!(err.to_text().starts_with("Invalid version format: 1 - "));
}

#[test]
fn debian_to_ros_drops_only_the_revision() {
    let handler = VersionHandler::new();
    assert_eq!(handler.debian_to_ros("1.0-2-3").unwrap(), "1.0-2");
    assert_eq!(handler.debian_to_ros("1.0").unwrap(), "1.0");
    assert_eq!(handler.debian_to_ros("-1").unwrap(), "");
    assert_eq!(handler.debian_to_ros("2.0~rc1-3").unwrap(), "2.0-rc1");
}
