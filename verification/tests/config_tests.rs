use colcon_deb::config::{expand_path, Config, ConfigChecks, DockerConfig};

#[test]
fn test_expand_path() {
    let env = vec![("TEST_VAR".to_string(), Some("/test/path".to_string()))];

    let expanded = expand_path("${TEST_VAR}/sub", &env).unwrap();
    assert_eq!(expanded, "/test/path/sub");

    let expanded = expand_path("$TEST_VAR/sub", &env).unwrap();
    assert_eq!(expanded, "/test/path/sub");
}

#[test]
fn test_config_validation() {
    let config = Config {
        colcon_repo: "/tmp/t/workspace".to_string(),
        debian_dirs: "/tmp/t/debian_dirs".to_string(),
        docker: DockerConfig::Dockerfile { dockerfile: "/tmp/t/Dockerfile".to_string() },
        ros_distro: Some("humble".to_string()),
        output_dir: "/tmp/t/output".to_string(),
        parallel_jobs: 4,
    };
    let checks = ConfigChecks {
        repo_exists: true,
        src_exists: true,
        debian_dirs_ready: Ok(()),
        output_dir_ready: Ok(()),
        dockerfile_exists: true,
    };
    assert!(config.validate(&checks).is_ok());
}

#[test]
fn expansion_errors_and_plain_paths() {
    let env = vec![("HOME".to_string(), Some("/home/u".to_string())), ("UNSET".to_string(), None)];
    assert_eq!(expand_path("/plain/path", &env).unwrap(), "/plain/path");
    assert_eq!(expand_path("${HOME}/ws/${HOME}", &env).unwrap(), "/home/u/ws//home/u");
    let err = expand_path("$UNSET/x", &env).unwrap_err();
    assert_eq!(err.to_text(), "Configuration error: Environment variable not found: UNSET");
    let err = expand_path("${MISSING}", &env).unwrap_err();
    assert_eq!(err.to_text(), "Configuration error: Environment variable not found: MISSING");
}

#[test]
fn validation_failures_in_order() {
    let config = Config {
        colcon_repo: "/ws".to_string(),
        debian_dirs: "/d".to_string(),
        docker: DockerConfig::Image { image: String::new() },
        ros_distro: None,
        output_dir: "/o".to_string(),
        parallel_jobs: 0,
    };
    let mut checks = ConfigChecks {
        repo_exists: false,
        src_exists: false,
        debian_dirs_ready: Err("denied".to_string()),
        output_dir_ready: Ok(()),
        dockerfile_exists: false,
    };
    assert_eq!(
        config.validate(&checks).unwrap_err().to_text(),
        "Configuration error: Colcon repository does not exist: \"/ws\""
    );
    checks.repo_exists = true;
    assert_eq!(
        config.validate(&checks).unwrap_err().to_text(),
        "Configuration error: Colcon repository missing src directory: \"/ws/src\""
    );
    checks.src_exists = true;
    assert_eq!(
        config.validate(&checks).unwrap_err().to_text(),
        "Configuration error: Failed to create debian_dirs: denied"
    );
    checks.debian_dirs_ready = Ok(());
    assert_eq!(
        config.validate(&checks).unwrap_err().to_text(),
        "Configuration error: Docker image name cannot be empty"
    );
}
