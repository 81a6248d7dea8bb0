use colcon_deb::commands::{BuildCommand, CleanCommand, InitCommand, ValidateCommand};
use colcon_deb::config::{Config, DockerConfig};

#[test]
fn clean_patterns_match() {
    assert!(CleanCommand::matches_pattern("foo.deb", "*.deb"));
    assert!(!CleanCommand::matches_pattern("foo.deb.bak", "*.deb"));
    assert!(CleanCommand::matches_pattern("debian_pkg", "debian_*"));
    assert!(!CleanCommand::matches_pattern("xdebian_pkg", "debian_*"));
    assert!(CleanCommand::matches_pattern("anything", "*"));
    assert!(CleanCommand::matches_pattern("exact", "exact"));
    assert!(!CleanCommand::matches_pattern("exact2", "exact"));
    assert!(!CleanCommand::matches_pattern("a", "a*a"));
    assert!(CleanCommand::matches_pattern("aa", "a*a"));
    assert!(CleanCommand::matches_pattern("aba", "a*a"));
    assert!(!CleanCommand::matches_pattern("ab", "ab*b"));
    assert!(!CleanCommand::matches_pattern("a*b*c", "a*b*c*"));
    assert!(CleanCommand::matches_pattern("a*b*c", "a*b*c"));
}

#[test]
fn clean_decisions() {
    let cmd = CleanCommand::new(None, true);
    assert!(cmd.clean_all());
    assert!(cmd.config_path().is_none());
    assert_eq!(CleanCommand::output_dir_to_clean(None, true), Some("./build".to_string()));
    assert_eq!(CleanCommand::output_dir_to_clean(None, false), None);
    assert_eq!(CleanCommand::output_dir_to_clean(Some("/o"), false), Some("/o".to_string()));
    let plan = CleanCommand::cleanup_plan("/o");
    assert_eq!(plan.file_patterns, vec!["*.deb".to_string(), "*.log".to_string()]);
    assert_eq!(plan.directory_patterns, vec!["debian_*".to_string()]);
    assert_eq!(plan.repository_dir, "/o/repository");
    assert!(CleanCommand::is_cache_entry("colcon-deb-abc123"));
    assert!(CleanCommand::is_cache_entry("my-scanner"));
    assert!(!CleanCommand::is_cache_entry("other"));
    assert_eq!(CleanCommand::cache_directory(Some("/home/u")), "/home/u/.cargo/script-cache");
    assert_eq!(CleanCommand::cache_directory(None), "./.cargo/script-cache");
}

#[test]
fn init_decisions() {
    let cmd = InitCommand::new("colcon-deb.yaml".to_string(), false);
    assert_eq!(cmd.output_path(), "colcon-deb.yaml");
    assert!(cmd.check_overwrite(false).is_ok());
    assert_eq!(
        cmd.check_overwrite(true).unwrap_err(),
        "Configuration file already exists: colcon-deb.yaml. Use --force to overwrite."
    );
    assert!(InitCommand::new("c.yaml".to_string(), true).check_overwrite(true).is_ok());
    let config = InitCommand::create_default_config("/ws");
    assert_eq!(config.colcon_repo, "/ws");
    assert_eq!(config.debian_dirs, "/ws/debian_dirs");
    assert_eq!(config.output_dir, "/ws/output");
    assert_eq!(config.docker, DockerConfig::Image { image: "ros:loong-ros-base".to_string() });
    assert_eq!(config.ros_distro, Some("loong".to_string()));
    assert_eq!(config.parallel_jobs, 4);
}

#[test]
fn validate_and_build_commands() {
    let v = ValidateCommand::new("c.yaml".to_string());
    assert_eq!(v.config_path(), "c.yaml");
    let b = BuildCommand::new("c.yaml".to_string(), Some("/out".to_string()), Some(8), None);
    assert_eq!(b.config_path(), "c.yaml");
    let base = Config {
        colcon_repo: "/ws".to_string(),
        debian_dirs: "/d".to_string(),
        docker: DockerConfig::Image { image: "img".to_string() },
        ros_distro: Some("loong".to_string()),
        output_dir: "/o".to_string(),
        parallel_jobs: 2,
    };
    let c = b.apply_overrides(base.clone());
    assert_eq!(c.output_dir, "/out");
    assert_eq!(c.parallel_jobs, 8);
    assert_eq!(c.ros_distro, Some("loong".to_string()));
    let b2 = BuildCommand::new("c.yaml".to_string(), None, None, Some("iron".to_string()));
    let c2 = b2.apply_overrides(base);
    assert_eq!(c2.output_dir, "/o");
    assert_eq!(c2.ros_distro, Some("iron".to_string()));
}
