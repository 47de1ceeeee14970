use toolprobe::naming::{derive_naming, name_prefix, name_suffix};
use toolprobe::text::{find_text, parse_i32, same_text, split_text, starts_with, text_lines};
use toolprobe::version::{parse_version, RustcChannel};

fn owned(items: &[&str]) -> Vec<String> {
    items.iter().map(|s| s.to_string()).collect()
}

#[test]
fn version_nightly_with_trailing_space() {
    let v = parse_version("rustc 1.75.0-nightly (abcdef) ").unwrap();
    assert_eq!(v.prgname, "rustc");
    assert_eq!((v.major, v.minor, v.patch), (1, 75, 0));
    assert_eq!(v.channel, RustcChannel::Nightly);
}

#[test]
fn version_lccc_family_is_unstable() {
    let v = parse_version("lcrustc 1.0.0 (lccc)").unwrap();
    assert_eq!(v.prgname, "lcrustc");
    assert_eq!((v.major, v.minor, v.patch), (1, 0, 0));
    assert_eq!(v.channel, RustcChannel::Unstable);
}

#[test]
fn version_plain_is_stable() {
    let v = parse_version("rustc 1.70.0").unwrap();
    assert_eq!(v.prgname, "rustc");
    assert_eq!((v.major, v.minor, v.patch), (1, 70, 0));
    assert_eq!(v.channel, RustcChannel::Stable);
}

#[test]
fn version_beta_and_dev_tags() {
    assert_eq!(parse_version("rustc 1.76.0-beta.2 (x)").unwrap().channel, RustcChannel::Beta);
    let v = parse_version("rustc 1.76.0-dev").unwrap();
    assert_eq!(v.channel, RustcChannel::Dev);
    assert_eq!(v.patch, 0);
}

#[test]
fn version_markers_rename_the_program() {
    let v = parse_version("rustc 1.54.0 (mrustc)").unwrap();
    assert_eq!(v.prgname, "mrust");
    assert_eq!(v.channel, RustcChannel::Stable);
    let v = parse_version("rustc 1.54.0-nightly (lccc)").unwrap();
    assert_eq!(v.prgname, "lcrustc");
    assert_eq!(v.channel, RustcChannel::Unstable);
    let v = parse_version("gccrs 1.49.0 (other)").unwrap();
    assert_eq!(v.prgname, "gccrs");
}

#[test]
fn version_rejects_malformed_lines() {
    assert!(parse_version("").is_none());
    assert!(parse_version("rustc").is_none());
    assert!(parse_version("rustc 1.70").is_none());
    assert!(parse_version("rustc 1.x.0").is_none());
    assert!(parse_version("rustc  1.70.0").is_none());
    assert!(parse_version("rustc 1.70.-nightly").is_none());
    assert!(parse_version("rustc 99999999999.0.0").is_none());
}

#[test]
fn integers_parse_like_i32() {
    assert_eq!(parse_i32("0"), Some(0));
    assert_eq!(parse_i32("+5"), Some(5));
    assert_eq!(parse_i32("-17"), Some(-17));
    assert_eq!(parse_i32("2147483647"), Some(i32::MAX));
    assert_eq!(parse_i32("-2147483648"), Some(i32::MIN));
    assert_eq!(parse_i32("2147483648"), None);
    assert_eq!(parse_i32("-2147483649"), None);
    assert_eq!(parse_i32("123456789012345"), None);
    assert_eq!(parse_i32("-"), None);
    assert_eq!(parse_i32(""), None);
    assert_eq!(parse_i32("1a"), None);
    for s in ["7", "-3", "+12", "00", "x", " 1"] {
        assert_eq!(parse_i32(s), s.parse::<i32>().ok());
    }
}

#[test]
fn text_helpers() {
    assert!(same_text("abc", "abc"));
    assert!(!same_text("abc", "abd"));
    assert!(starts_with("x86_64-linux-gnu-gccrs", "x86_64-linux-gnu"));
    assert!(!starts_with("rustc", "x86_64"));
    assert_eq!(find_text("libcomptest.so", "comptest"), Some(3));
    assert_eq!(find_text("a.b.c", "."), Some(1));
    assert_eq!(find_text("abc", "."), None);
    assert_eq!(split_text("-O -g", ' '), owned(&["-O", "-g"]));
    assert_eq!(split_text("", ' '), owned(&[""]));
    assert_eq!(split_text("a  b ", ' '), owned(&["a", "", "b", ""]));
}

#[test]
fn lines_follow_buffered_reading() {
    assert_eq!(text_lines("a\r\nb\n"), owned(&["a", "b"]));
    assert_eq!(text_lines("a\nb"), owned(&["a", "b"]));
    assert_eq!(text_lines(""), owned(&[]));
    assert_eq!(text_lines("\n"), owned(&[""]));
    assert_eq!(text_lines("a\r"), owned(&["a\r"]));
}

#[test]
fn name_parts() {
    assert_eq!(name_suffix("comptest.exe"), ".exe");
    assert_eq!(name_suffix("comptest"), "");
    assert_eq!(name_suffix("libcomptest.so.1"), ".so.1");
    assert_eq!(name_prefix("libcomptest.rlib"), "lib");
    assert_eq!(name_prefix("comptest.dll"), "");
    assert_eq!(name_prefix("other.dll"), "");
}

fn linux_names() -> Vec<String> {
    owned(&[
        "comptest",
        "libcomptest.rlib",
        "libcomptest.so",
        "libcomptest.a",
        "libcomptest.so",
        "libcomptest.so",
    ])
}

#[test]
fn naming_on_linux() {
    let info = derive_naming(&linux_names(), "x86_64-unknown-linux-gnu").unwrap();
    assert_eq!(info.target, "x86_64-unknown-linux-gnu");
    assert_eq!(info.exe_suffix, "");
    assert_eq!((info.rlib_prefix.as_str(), info.rlib_suffix.as_str()), ("lib", ".rlib"));
    assert_eq!((info.dylib_prefix.as_str(), info.dylib_suffix.as_str()), ("lib", ".so"));
    assert_eq!((info.staticlib_prefix.as_str(), info.staticlib_suffix.as_str()), ("lib", ".a"));
    assert_eq!((info.cdylib_prefix.as_str(), info.cdylib_suffix.as_str()), ("lib", ".so"));
    assert_eq!((info.procmacro_prefix.as_str(), info.procmacro_suffix.as_str()), ("lib", ".so"));
}

#[test]
fn naming_on_windows() {
    let names = owned(&[
        "comptest.exe",
        "libcomptest.rlib",
        "comptest.dll",
        "comptest.lib",
        "comptest.dll",
        "comptest.dll",
    ]);
    let info = derive_naming(&names, "x86_64-pc-windows-msvc").unwrap();
    assert_eq!(info.exe_suffix, ".exe");
    assert_eq!(info.rlib_prefix, "lib");
    assert_eq!((info.dylib_prefix.as_str(), info.dylib_suffix.as_str()), ("", ".dll"));
    assert_eq!((info.staticlib_prefix.as_str(), info.staticlib_suffix.as_str()), ("", ".lib"));
}

#[test]
fn naming_needs_six_names() {
    let mut names = linux_names();
    names.pop();
    assert!(derive_naming(&names, "t").is_none());
    assert!(derive_naming(&Vec::new(), "t").is_none());
}

#[test]
fn naming_is_a_function_of_the_six_names() {
    let a = derive_naming(&linux_names(), "t").unwrap();
    let mut longer = linux_names();
    longer.push("extra.txt".to_string());
    let b = derive_naming(&longer, "t").unwrap();
    let c = derive_naming(&linux_names(), "t").unwrap();
    for other in [&b, &c] {
        assert_eq!(a.exe_suffix, other.exe_suffix);
        assert_eq!(a.rlib_prefix, other.rlib_prefix);
        assert_eq!(a.rlib_suffix, other.rlib_suffix);
        assert_eq!(a.dylib_suffix, other.dylib_suffix);
        assert_eq!(a.staticlib_suffix, other.staticlib_suffix);
        assert_eq!(a.cdylib_suffix, other.cdylib_suffix);
        assert_eq!(a.procmacro_prefix, other.procmacro_prefix);
        assert_eq!(a.procmacro_suffix, other.procmacro_suffix);
    }
}

#[test]
fn unclosed_marker_is_ignored() {
    let v = parse_version("rustc 1.0.0 (mrustc").unwrap();
    assert_eq!(v.prgname, "rustc");
    let v = parse_version("rustc 1.0.0 (lccc").unwrap();
    assert_eq!(v.prgname, "rustc");
    assert_eq!(v.channel, RustcChannel::Stable);
    assert_eq!(parse_version("rustc 1.0.0 ()").unwrap().prgname, "rustc");
}
