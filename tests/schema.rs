use toolprobe::config::{InstallDirectory, InstallTarget};

fn base_of(t: InstallTarget) -> (InstallDirectory, String) {
    match t {
        InstallTarget::Base { base, path } => (base, path),
        InstallTarget::Absolute(_) => panic!("expected a directory-relative target"),
    }
}

#[test]
fn install_target_under_standard_directory() {
    let (base, path) = base_of(InstallTarget::parse("$bindir/tools/probe"));
    assert_eq!(base, InstallDirectory::BinDir);
    assert_eq!(path, "tools/probe");
    let (base, path) = base_of(InstallTarget::parse("$exec-prefix"));
    assert_eq!(base, InstallDirectory::ExecPrefix);
    assert_eq!(path, "");
}

#[test]
fn install_target_under_custom_directory() {
    let (base, path) = base_of(InstallTarget::parse("$plugins/a"));
    assert_eq!(base, InstallDirectory::Custom("plugins".to_string()));
    assert_eq!(path, "a");
}

#[test]
fn install_target_absolute() {
    match InstallTarget::parse("/usr/share/x") {
        InstallTarget::Absolute(p) => assert_eq!(p, "/usr/share/x"),
        _ => panic!("expected an absolute path"),
    }
}

#[test]
fn directory_names() {
    assert_eq!(InstallDirectory::from_name("sysconfdir"), InstallDirectory::SysconfDir);
    assert_eq!(InstallDirectory::from_name("datarootdir"), InstallDirectory::DatarootDir);
    assert_eq!(InstallDirectory::from_name("libexecdir"), InstallDirectory::LibexecDir);
    assert_eq!(InstallDirectory::from_name("Prefix"), InstallDirectory::Custom("Prefix".to_string()));
}

#[test]
fn install_target_path_stays_relative() {
    let (base, path) = base_of(InstallTarget::parse("$bindir//x"));
    assert_eq!(base, InstallDirectory::BinDir);
    assert_eq!(path, "x");
    let (_, path) = base_of(InstallTarget::parse("$libdir///a/b/"));
    assert_eq!(path, "a/b/");
}
