use std::io::Read;
use colcon_deb::arch::{get_qemu_arch, qemu_binary_path, ArchitectureCompatibility, ArchitectureInfo};
use colcon_deb::progress::{DefaultProgressParser, LogLevel, Progress, ProgressEvent, ProgressParser};

#[test]
fn test_architecture_detection() {
    let amd64 = ArchitectureInfo::from_arch("x86_64");
    assert_eq!(amd64.arch, "amd64");
    assert!(amd64.aliases.contains(&"x86_64".to_string()));
    assert!(amd64.is_64bit);

    let arm64 = ArchitectureInfo::from_arch("aarch64");
    assert_eq!(arm64.arch, "arm64");
    assert!(arm64.aliases.contains(&"aarch64".to_string()));
    assert!(arm64.is_64bit);
}

#[test]
fn test_compatibility() {
    let amd64 = ArchitectureInfo::from_arch("amd64");
    let i386 = ArchitectureInfo::from_arch("i386");
    let arm64 = ArchitectureInfo::from_arch("arm64");

    assert!(amd64.is_compatible_with(&i386));
    assert!(!amd64.needs_emulation(&i386));

    assert!(!amd64.is_compatible_with(&arm64));
    assert!(amd64.needs_emulation(&arm64));

    assert!(amd64.is_compatible_with(&amd64));
}

#[test]
fn compatibility_assessment_and_qemu() {
    let host = ArchitectureInfo::from_arch("x86_64");
    let image = ArchitectureInfo::from_arch("armhf");
    let c = ArchitectureCompatibility::assess(host, image, false);
    assert!(c.needs_emulation);
    assert!(!c.can_run());
    assert_eq!(
        c.summary(),
        "Cannot run: amd64 host cannot run armv7 containers (emulation not available)"
    );
    assert_eq!(get_qemu_arch("arm64"), "aarch64");
    assert_eq!(qemu_binary_path("armv7"), "/usr/bin/qemu-arm-static");
    let native = ArchitectureCompatibility::assess(
        ArchitectureInfo::from_arch("arm64"),
        ArchitectureInfo::from_arch("armv7l"),
        false,
    );
    assert!(native.can_run());
    assert!(native.warnings.is_empty());
}

#[test]
fn test_parse_progress_events() {
    let parser = DefaultProgressParser;

    let event = parser.parse_line("::progress::package_start::my_package").unwrap();
    match event {
        ProgressEvent::PackageStart { name, .. } => assert_eq!(name, "my_package"),
        _ => panic!("Wrong event type"),
    }

    let event = parser.parse_line("::progress::package_start::my_package [2/10]").unwrap();
    match event {
        ProgressEvent::PackageStart { name, current, total } => {
            assert_eq!(name, "my_package");
            assert_eq!(current, Some(2));
            assert_eq!(total, Some(10));
        }
        _ => panic!("Wrong event type"),
    }

    let event = parser.parse_line("::progress::package_complete::my_package::success").unwrap();
    match event {
        ProgressEvent::PackageComplete { name, success, .. } => {
            assert_eq!(name, "my_package");
            assert!(success);
        }
        _ => panic!("Wrong event type"),
    }

    let event = parser.parse_line("::progress::stage::building").unwrap();
    match event {
        ProgressEvent::Stage { name, .. } => assert_eq!(name, "building"),
        _ => panic!("Wrong event type"),
    }

    let event = parser.parse_line("::log::info::Starting build").unwrap();
    match event {
        ProgressEvent::Log { level, message } => {
            assert_eq!(level, LogLevel::Info);
            assert_eq!(message, "Starting build");
        }
        _ => panic!("Wrong event type"),
    }
}

#[test]
fn test_progress_tracking() {
    let mut progress = Progress::default();

    progress.update(&ProgressEvent::PackageStart {
        name: "pkg1".to_string(),
        current: Some(1),
        total: Some(3),
    });
    assert_eq!(progress.packages_in_progress.len(), 1);
    assert_eq!(progress.total_packages, Some(3));

    progress.update(&ProgressEvent::PackageComplete {
        name: "pkg1".to_string(),
        success: true,
        error: None,
    });
    assert_eq!(progress.packages_in_progress.len(), 0);
    assert_eq!(progress.completed_packages.len(), 1);
    assert_eq!(progress.successful_packages(), 1);

    progress.update(&ProgressEvent::Progress { current: 2, total: 3, message: None });
    let (done, total) = progress.completion_fraction().unwrap();
    let percentage = done as f64 / total as f64 * 100.0;
    assert!((percentage - 66.66666666666667).abs() < 0.0001);
}

#[test]
fn failed_package_and_log_levels() {
    let parser = DefaultProgressParser;
    let event = parser
        .parse_line("::progress::package_complete::pkg::failed::compile error")
        .unwrap();
    assert_eq!(
        event,
        ProgressEvent::PackageComplete {
            name: "pkg".to_string(),
            success: false,
            error: Some("compile error".to_string()),
        }
    );
    let event = parser.parse_line("::log::WARN::careful").unwrap();
    assert_eq!(event, ProgressEvent::Log { level: LogLevel::Warn, message: "careful".to_string() });
    assert!(parser.parse_line("plain output").is_none());
    assert!(parser.parse_line("::progress::overall::x/3").is_none());
    let mut progress = Progress::default();
    progress.update(&event);
    progress.update(&ProgressEvent::PackageComplete { name: "a".to_string(), success: false, error: None });
    assert_eq!(progress.failed_packages(), 1);
    assert!(progress.completion_fraction().is_none());
}

#[test]
fn dockerfile_context_holds_the_dockerfile() {
    let bytes = colcon_deb::image_context::dockerfile_context("FROM ros:loong\nRUN true\n").unwrap();
    let mut archive = tar::Archive::new(std::io::Cursor::new(bytes));
    let mut entries = archive.entries().unwrap();
    let mut entry = entries.next().unwrap().unwrap();
    assert_eq!(entry.path().unwrap().to_string_lossy(), "Dockerfile");
    assert_eq!(entry.header().mode().unwrap(), 0o644);
    let mut text = String::new();
    entry.read_to_string(&mut text).unwrap();
    assert_eq!(text, "FROM ros:loong\nRUN true\n");
    drop(entry);
    assert!(entries.next().is_none());
}

#[test]
fn completed_packages_split_into_successes_and_failures() {
    let mut progress = Progress::default();
    for (name, ok) in [("a", true), ("b", false), ("c", true), ("a", false)] {
        progress.update(&ProgressEvent::PackageStart { name: name.to_string(), current: None, total: Some(4) });
        progress.update(&ProgressEvent::PackageComplete { name: name.to_string(), success: ok, error: None });
    }
    assert_eq!(progress.successful_packages() + progress.failed_packages(), progress.completed_packages.len());
    assert_eq!(progress.successful_packages(), 2);
    assert!(progress.packages_in_progress.is_empty());
    assert_eq!(progress.completion_fraction(), Some((4, 4)));
}

#[test]
fn from_arch_canonical_names_are_stable() {
    for name in ["x86_64", "AMD64", "AARCH64", "arm64", "armhf", "ARMV7L", "i686", "ppc64le", "S390X", "riscv64", "MyArch"] {
        let first = ArchitectureInfo::from_arch(name);
        let again = ArchitectureInfo::from_arch(&first.arch);
        assert_eq!(again, first);
    }
    assert_eq!(ArchitectureInfo::from_arch("MyArch").arch, "MyArch");
}

#[test]
fn dockerfile_context_always_builds() {
    for text in ["", "FROM scratch\n", "FROM ros:loong\nRUN echo ok\n"] {
        assert!(colcon_deb::image_context::dockerfile_context(text).is_ok());
    }
}
