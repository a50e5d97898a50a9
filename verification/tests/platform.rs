use cat_launcher::platform::{
    get_arch_enum, get_github_repo_for_variant, get_os_enum, Arch, GameVariant, HostSystem,
    HostSystemError, OS,
};

#[test]
fn test_current_parses_supported_platform() {
    assert_eq!(
        HostSystem::current("linux", "x86_64").ok(),
        Some(HostSystem {
            os: OS::Linux,
            arch: Arch::X64,
        })
    );

    assert_eq!(
        HostSystem::current("macos", "aarch64").ok(),
        Some(HostSystem {
            os: OS::Mac,
            arch: Arch::ARM64,
        })
    );

    assert_eq!(
        HostSystem::current("windows", "x86_64").ok(),
        Some(HostSystem {
            os: OS::Windows,
            arch: Arch::X64,
        })
    );
}

#[test]
fn test_current_rejects_unsupported_os() {
    assert!(matches!(
        HostSystem::current("freebsd", "x86_64"),
        Err(HostSystemError::Os(_))
    ));
}

#[test]
fn test_current_rejects_unsupported_arch() {
    assert!(matches!(
        HostSystem::current("linux", "wasm32"),
        Err(HostSystemError::Arch(_))
    ));
}

#[test]
fn os_error_takes_precedence_over_arch_error() {
    match HostSystem::current("plan9", "wasm32") {
        Err(HostSystemError::Os(e)) => assert_eq!(e.os, "plan9"),
        other => panic!("unexpected result: {:?}", other),
    }
}

#[test]
fn os_and_arch_names_are_case_sensitive() {
    assert!(get_os_enum("Linux").is_err());
    assert!(get_arch_enum("X86_64").is_err());
    assert_eq!(get_os_enum("windows").unwrap(), OS::Windows);
    assert_eq!(get_arch_enum("aarch64").unwrap(), Arch::ARM64);
}

#[test]
fn error_messages_name_the_platform() {
    let os_err = get_os_enum("freebsd").unwrap_err();
    assert_eq!(os_err.message(), "OS not supported: freebsd");
    let arch_err = get_arch_enum("wasm32").unwrap_err();
    assert_eq!(arch_err.message(), "Architecture not supported: wasm32");
    match HostSystem::current("linux", "riscv64") {
        Err(e) => assert_eq!(
            e.message(),
            "Architecture not supported: Architecture not supported: riscv64"
        ),
        Ok(_) => panic!("riscv64 should not be supported"),
    }
}

#[test]
fn each_variant_has_its_repository() {
    assert_eq!(
        get_github_repo_for_variant(&GameVariant::DarkDaysAhead),
        "CleverRaven/Cataclysm-DDA"
    );
    assert_eq!(
        get_github_repo_for_variant(&GameVariant::BrightNights),
        "cataclysmbnteam/Cataclysm-BN"
    );
    assert_eq!(
        get_github_repo_for_variant(&GameVariant::TheLastGeneration),
        "Cataclysm-TLG/Cataclysm-TLG"
    );
}
