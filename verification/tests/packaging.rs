use tin::packaging::{
    archive_format, archive_name, check_version, executable_name, host_in_report, host_triple, label, missing_executable,
    target_dir, ArchiveFormat,
};

#[test]
fn label_names_the_known_targets() {
    assert_eq!(label("x86_64-pc-windows-msvc"), "windows-x64");
    assert_eq!(label("aarch64-pc-windows-msvc"), "windows-arm64");
    assert_eq!(label("aarch64-apple-darwin"), "macos-arm64");
    assert_eq!(label("x86_64-apple-darwin"), "macos-x64");
    assert_eq!(label("x86_64-unknown-linux-gnu"), "x86_64-unknown-linux-gnu");
}

#[test]
fn host_triple_reads_rustc_output() {
    let report = "rustc 1.80.0 (051478957 2024-07-21)\nbinary: rustc\nhost: aarch64-apple-darwin\nrelease: 1.80.0\n";
    assert_eq!(host_in_report(report), Ok("aarch64-apple-darwin".to_string()));
    assert_eq!(host_in_report("host: x86_64-pc-windows-msvc\r\n"), Ok("x86_64-pc-windows-msvc".to_string()));
    assert_eq!(host_in_report("binary: rustc\n"), Err("rustc -vV reported no host triple".to_string()));
    assert_eq!(host_triple(true, report.as_bytes()), Ok("aarch64-apple-darwin".to_string()));
    assert_eq!(host_triple(false, report.as_bytes()), Err("rustc -vV failed".to_string()));
    let broken = host_triple(true, &[0x68, 0xff, 0x0a]);
    assert!(broken.unwrap_err().contains("invalid utf-8"));
}

#[test]
fn host_lines_split_as_std_does() {
    for text in ["", "\n", "a\n\nb", "host: a\r", "x\r\nhost: b\r\n", "host: \rc\n", "\r\n\r\nhost: z", "a\rhost: q\nhost: r"] {
        let expected = text.lines().find_map(|line| line.strip_prefix("host: ").map(str::to_owned));
        assert_eq!(host_in_report(text).ok(), expected, "{text:?}");
    }
}

#[test]
fn release_names_its_executable() {
    assert_eq!(executable_name("x86_64-pc-windows-msvc"), "tin.exe");
    assert_eq!(executable_name("aarch64-apple-darwin"), "tin");
    assert_eq!(missing_executable("/t/release/tin"), "Built executable is missing: /t/release/tin");
}

#[test]
fn archive_is_zip_only_with_bsdtar() {
    let bsd = archive_format("bsdtar 3.5.3 - libarchive 3.5.3 zlib/1.2.12");
    assert!(matches!(bsd, ArchiveFormat::Zip));
    assert_eq!(archive_name(&bsd, "tin-macos-arm64"), "tin-macos-arm64.zip");
    let gnu = archive_format("tar (GNU tar) 1.34");
    assert!(matches!(gnu, ArchiveFormat::TarGz));
    assert_eq!(archive_name(&gnu, "tin-x86_64-unknown-linux-gnu"), "tin-x86_64-unknown-linux-gnu.tar.gz");
}

#[test]
fn check_version_requires_the_same_version() {
    let manifest = "[package]\nname = \"tin\"\nversion = \"0.2.0\"\n";
    assert_eq!(check_version(manifest, &Ok(r#"{"name":"tin","version":"0.2.0"}"#.to_string())), Ok(()));
    assert_eq!(
        check_version(manifest, &Ok(r#"{"version":"0.1.0"}"#.to_string())),
        Err("Version mismatch: Cargo.toml 0.2.0, plugin.json 0.1.0".to_string())
    );
    assert_eq!(check_version(manifest, &Ok("{}".to_string())), Err("plugin.json has no version".to_string()));
    assert_eq!(
        check_version("[package]\nname = \"tin\"\n", &Err("unreadable".to_string())),
        Err("Cargo.toml has no package version".to_string())
    );
    assert_eq!(check_version(manifest, &Err("unreadable".to_string())), Err("unreadable".to_string()));
    assert!(check_version("[package", &Ok("{}".to_string())).is_err());
}

#[test]
fn target_dir_reads_cargo_metadata() {
    assert_eq!(target_dir(true, br#"{"target_directory":"/w/target"}"#), Ok("/w/target".to_string()));
    assert_eq!(
        target_dir(true, br#"{"packages":[]}"#),
        Err("cargo metadata reported no target directory".to_string())
    );
    assert_eq!(target_dir(false, br#"{"target_directory":"/w/target"}"#), Err("cargo metadata failed".to_string()));
    assert!(target_dir(true, b"not json").is_err());
}
