use sha2::Digest;
use colcon_deb::debian_error::DebianError;
use colcon_deb::manager::{DebianManager, PreparationSource};
use colcon_deb::package::{BuildType, Dependencies, Maintainer, Package};
use colcon_deb::repository::RepositoryGenerator;
use colcon_deb::validation::{DebianDirectory, DebianValidator};

const REQUIRED_FILES: &[&str] = &["control", "changelog", "copyright", "rules"];

fn unread() -> Result<String, String> {
    Err("not read".to_string())
}

fn empty_dir() -> DebianDirectory {
    DebianDirectory {
        exists: true,
        is_dir: true,
        present: vec![],
        control: unread(),
        changelog: unread(),
        copyright: unread(),
        rules: unread(),
        rules_mode: Err("not read".to_string()),
        source_format_present: false,
        source_format: unread(),
    }
}

fn missing_dir() -> DebianDirectory {
    DebianDirectory { exists: false, is_dir: false, ..empty_dir() }
}

fn complete_dir() -> DebianDirectory {
    DebianDirectory {
        present: REQUIRED_FILES.iter().map(|s| s.to_string()).collect(),
        control: Ok("Package: test\nArchitecture: any\nMaintainer: Test <test@example.com>\nDescription: Test package".to_string()),
        changelog: Ok("test (1.0.0-1) unstable; urgency=medium\n\n  * Initial release\n\n -- Test <test@example.com>  Mon, 01 Jan 2024 00:00:00 +0000".to_string()),
        copyright: Ok("Copyright 2024 Test\nLicense: MIT".to_string()),
        rules: Ok("#!/usr/bin/make -f\n\nbuild:\n\nbinary:\n\nclean:\n".to_string()),
        rules_mode: Ok(0o100755),
        ..empty_dir()
    }
}

#[test]
fn test_missing_debian_directory() {
    let validator = DebianValidator::new(false);
    let result = validator.validate_debian_directory(&missing_dir(), "test_package");
    assert!(result.is_err());
}

#[test]
fn test_empty_debian_directory() {
    let validator = DebianValidator::new(false);
    let result = validator.validate_debian_directory(&empty_dir(), "test_package").unwrap();
    assert!(!result.is_valid);
    assert_eq!(result.missing_files.len(), REQUIRED_FILES.len());
}

#[test]
fn test_complete_debian_directory() {
    let validator = DebianValidator::new(false);
    let result = validator.validate_debian_directory(&complete_dir(), "test_package").unwrap();
    assert!(result.is_valid);
    assert_eq!(result.found_files.len(), REQUIRED_FILES.len());
    assert!(result.missing_files.is_empty());
}

#[test]
fn test_strict_mode() {
    let validator = DebianValidator::new(true);
    let result = validator.validate_debian_directory(&empty_dir(), "test_package");
    assert!(result.is_err());
}

#[test]
fn test_is_complete_debian_directory() {
    let validator = DebianValidator::new(false);
    assert!(!validator.is_complete_debian_directory(&empty_dir()));
    let mut dir = empty_dir();
    dir.present = REQUIRED_FILES.iter().map(|s| s.to_string()).collect();
    assert!(validator.is_complete_debian_directory(&dir));
}

#[test]
fn strict_missing_file_error_names_the_file() {
    let validator = DebianValidator::new(true);
    let err = validator.validate_debian_directory(&empty_dir(), "pkg").unwrap_err();
    assert_eq!(
        err.to_text(),
        "Missing required file: control in debian directory for package pkg"
    );
}

#[test]
fn test_sources_list_entry() {
    let generator = RepositoryGenerator::for_ros("/tmp/repo".to_string(), "loong", "amd64".to_string());
    let entry = generator.get_sources_list_entry("https://example.com/repo");
    assert_eq!(entry, "deb https://example.com/repo loong");
}

#[test]
fn test_file_info_calculation() {
    let generator = RepositoryGenerator::for_ros("/tmp/repo".to_string(), "loong", "amd64".to_string());
    let content = b"test content";
    let info = generator.calculate_file_info(content);
    assert!(!info.md5.is_empty());
    assert!(!info.sha1.is_empty());
    assert!(!info.sha256.is_empty());
    assert_eq!(info.size, 12);
    assert_eq!(info.md5, format!("{:x}", md5::compute(content)));
    assert_eq!(info.sha1, sha1_smol::Sha1::from(&content[..]).digest().to_string());
    assert_eq!(info.sha256, hex::encode(sha2::Sha256::digest(content)));
    assert_eq!(info.md5.len(), 32);
    assert_eq!(info.sha1.len(), 40);
    assert_eq!(info.sha256.len(), 64);
}

#[test]
fn repository_layout_paths() {
    let generator = RepositoryGenerator::for_ros("/srv/repo".to_string(), "loong", "amd64".to_string());
    assert_eq!(generator.binary_directory(), "/srv/repo/dists/loong/main/binary-amd64");
    assert_eq!(generator.get_pool_directory(), "/srv/repo/pool/main");
    assert_eq!(generator.packages_file_path(), "/srv/repo/dists/loong/main/binary-amd64/Packages");
    assert_eq!(generator.packages_gz_path(), "/srv/repo/dists/loong/main/binary-amd64/Packages.gz");
    assert_eq!(generator.release_file_path(), "/srv/repo/dists/loong/Release");
}

#[test]
fn parse_deb_info_reads_fields() {
    let generator = RepositoryGenerator::new("/r".to_string(), "stable".to_string(), "main".to_string(), "amd64".to_string());
    let text = " new Debian package, version 2.0.\n size 1234 bytes: control archive=512 bytes.\n Package: agiros-loong-foo\n Version: 1.2.3-1\n Architecture: amd64\n Description: a: b\n Version: 1.2.4-1\n";
    let info = generator.parse_deb_info(text).unwrap();
    assert_eq!(info.package, "agiros-loong-foo");
    assert_eq!(info.version, "1.2.4-1");
    assert_eq!(info.architecture, "amd64");
    let desc = info.fields.iter().find(|(k, _)| k == "Description").unwrap();
    assert_eq!(desc.1, "a: b");
    let sizes = info.fields.iter().find(|(k, _)| k == "size 1234 bytes").unwrap();
    assert_eq!(sizes.1, "control archive=512 bytes.");
    assert_eq!(info.fields.iter().filter(|(k, _)| k == "Version").count(), 1);
}

#[test]
fn parse_deb_info_missing_fields() {
    let generator = RepositoryGenerator::new("/r".to_string(), "stable".to_string(), "main".to_string(), "amd64".to_string());
    let err = generator.parse_deb_info("Version: 1\nArchitecture: all\n").err().unwrap();
    assert_eq!(err.to_text(), "Repository generation failed: Missing Package field in .deb");
    let err = generator.parse_deb_info("Package: p\nArchitecture: all\n").err().unwrap();
    assert_eq!(err.to_text(), "Repository generation failed: Missing Version field in .deb");
    let err = generator.parse_deb_info("Package: p\nVersion: 1\n").err().unwrap();
    assert!(matches!(err, DebianError::RepositoryGenerationFailed { .. }));
    assert_eq!(err.to_text(), "Repository generation failed: Missing Architecture field in .deb");
}

#[test]
fn release_content_lists_checksums() {
    let generator = RepositoryGenerator::for_ros("/r".to_string(), "loong", "arm64".to_string());
    let p = generator.calculate_file_info(b"abc");
    let gz = generator.calculate_file_info(b"");
    let text = generator.release_content_dated("Mon, 01 Jan 2024 00:00:00 UTC", &p, &gz);
    let expected = format!(
        "Origin: Agiros loong\nLabel: Agiros loong\nSuite: loong\nCodename: loong\nArchitectures: arm64\nComponents: main\nDescription: Agiros loong packages\nDate: Mon, 01 Jan 2024 00:00:00 UTC\nMD5Sum:\n{} 3 main/binary-arm64/Packages\n{} 0 main/binary-arm64/Packages.gz\nSHA1:\n{} 3 main/binary-arm64/Packages\n{} 0 main/binary-arm64/Packages.gz\nSHA256:\n{} 3 main/binary-arm64/Packages\n{} 0 main/binary-arm64/Packages.gz\n",
        p.md5, gz.md5, p.sha1, gz.sha1, p.sha256, gz.sha256
    );
    assert_eq!(text, expected);
    assert_eq!(p.md5, "900150983cd24fb0d6963f7d28e17f72");
    let dated = generator.generate_release_content(&p, &gz).unwrap();
    assert!(dated.starts_with("Origin: Agiros loong\n"));
    assert!(dated.contains(" UTC\nMD5Sum:\n"));
}

fn test_package() -> Package {
    Package {
        name: "test_package".to_string(),
        path: "/test/path".to_string(),
        version: "1.0.0".to_string(),
        description: "Test package".to_string(),
        license: "MIT".to_string(),
        build_type: BuildType::Cmake,
        dependencies: Dependencies::default(),
        maintainers: vec![Maintainer {
            name: "Test Maintainer".to_string(),
            email: "test@example.com".to_string(),
        }],
    }
}

#[test]
fn test_version_conversion() {
    let manager = DebianManager::new("/tmp".to_string());
    assert_eq!(manager.convert_version("1.2.3", 1).unwrap(), "1.2.3-1");
    assert_eq!(manager.convert_version("1.2.3-alpha1", 1).unwrap(), "1.2.3~alpha1-1");
}

#[test]
fn manager_test_dependency_mapping() {
    let manager = DebianManager::new("/tmp".to_string());
    let ros_deps = vec!["std_msgs".to_string(), "cmake".to_string()];
    let debian_deps = manager.map_dependencies(&ros_deps).unwrap();
    assert!(debian_deps.contains(&"agiros-loong-std-msgs".to_string()));
    assert!(debian_deps.contains(&"cmake".to_string()));
}

#[test]
fn test_package_summary() {
    let manager = DebianManager::new("/tmp/debian_dirs".to_string());
    let valid = DebianDirectory {
        present: REQUIRED_FILES.iter().map(|s| s.to_string()).collect(),
        control: Ok("Package: valid\nArchitecture: any\nMaintainer: Test <test@example.com>\nDescription: Test".to_string()),
        changelog: Ok("test changelog".to_string()),
        copyright: Ok("test copyright".to_string()),
        rules: Ok("#!/usr/bin/make -f\nbuild:\nbinary:\nclean:".to_string()),
        rules_mode: Ok(0o100644),
        ..empty_dir()
    };
    let entries = vec![("invalid_pkg".to_string(), empty_dir()), ("valid_pkg".to_string(), valid)];
    let summary = manager.get_package_summary(&entries);
    assert_eq!(summary.total_packages, 2);
    assert_eq!(summary.valid_packages, vec!["valid_pkg".to_string()]);
    assert_eq!(summary.invalid_packages, vec!["invalid_pkg".to_string()]);
}

#[test]
fn custom_debian_path_and_listing() {
    let manager = DebianManager::new("/dirs".to_string());
    assert_eq!(manager.get_custom_debian_path("pkg"), "/dirs/pkg/debian");
    let walked = vec![
        ("/dirs/pkg3/debian".to_string(), true),
        ("/dirs/pkg1".to_string(), true),
        ("/dirs/pkg1/debian".to_string(), true),
        ("/dirs/notes/debian".to_string(), false),
        ("/dirs/pkg2/debian".to_string(), true),
    ];
    assert_eq!(
        colcon_deb::manager::list_custom_packages_from(&walked),
        vec!["pkg1".to_string(), "pkg2".to_string(), "pkg3".to_string()]
    );
}

#[test]
fn validate_all_skips_or_stops() {
    let lenient = DebianManager::new("/d".to_string());
    let entries = vec![
        ("gone".to_string(), missing_dir()),
        ("ok".to_string(), complete_dir()),
    ];
    let results = lenient.validate_all_debian_directories(&entries).unwrap();
    assert_eq!(results.len(), 1);
    assert_eq!(results[0].0, "ok");
    let strict = DebianManager::new("/d".to_string()).with_strict_validation(true);
    assert!(strict.validate_all_debian_directories(&entries).is_err());
}

#[test]
fn bloom_arguments_and_preparation() {
    let manager = DebianManager::new("/d".to_string());
    let args = manager.bloom_arguments(&test_package(), "/build/pkg").unwrap();
    assert_eq!(
        args,
        vec![
            "debian", "--package-name", "test_package", "--package-version", "1.0.0-1",
            "--ros-distro", "loong", "--output-dir", "/build/pkg", "--maintainer",
            "Test Maintainer <test@example.com>",
        ]
    );
    let mut bad = test_package();
    bad.version = "one".to_string();
    assert!(manager.bloom_arguments(&bad, "/x").is_err());
    assert_eq!(manager.preparation_source("p", true, false).unwrap(), PreparationSource::Custom);
    assert_eq!(manager.preparation_source("p", false, true).unwrap(), PreparationSource::Bloom);
    let err = manager.preparation_source("p", false, false).err().unwrap();
    assert_eq!(
        err.to_text(),
        "Missing required file: debian directory (no custom directory and bloom disabled) in debian directory for package p"
    );
}

#[test]
fn control_file_renamed_to_agiros() {
    let manager = DebianManager::new("/d".to_string());
    let control = "Source: ros-loong-foo\nPackage: ros-loong-foo\nDepends: ros-loong-bar\n".to_string();
    assert_eq!(
        manager.post_process_control(&control),
        "Source: agiros-loong-foo\nPackage: agiros-loong-foo\nDepends: ros-loong-bar\n"
    );
}
