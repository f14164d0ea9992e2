use cargo_samply::error::Error;

#[test]
fn fixed_messages_match_their_wording() {
    assert_eq!(
        Error::MultipleTargetsFlagsSpecified.message(),
        "Target selection flags (--bin, --example, --bench, --test) are mutually exclusive"
            .to_string()
    );
    assert_eq!(Error::CargoBuildFailed.message(), "Build failed".to_string());
    assert_eq!(Error::NoBinaryFound.message(), "No binary found in 'Cargo.toml'".to_string());
    assert_eq!(
        Error::CargoLocateProjectFailed.message(),
        "Failed to locate project".to_string()
    );
    assert_eq!(
        Error::SamplyNotFound.message(),
        "samply is not installed or not in PATH".to_string()
    );
}

#[test]
fn parameterized_messages_carry_their_context() {
    let e = Error::BinaryNotFound { path: "/ws/target/samply/app".to_string() };
    assert_eq!(e.message(), "Binary not found: /ws/target/samply/app".to_string());
    let p = Error::PackageNotFound { name: "ghost".to_string() };
    assert_eq!(p.message(), "Package 'ghost' not found in workspace".to_string());
    let io = Error::PathIo { path: "/x".to_string(), message: "denied".to_string() };
    assert_eq!(io.message(), "/x: denied".to_string());
    let amb = Error::BinaryToRunNotDetermined { suggestions: "\n\nAvailable binaries:".to_string() };
    assert!(amb.message().starts_with("The binary to run can't be determined."));
    assert!(amb.message().ends_with("\n\nAvailable binaries:"));
}
