use qemubox::path::{join, path_is_absolute};
use qemubox::text::{decimal_text, followed_by, one_line, same_text};
use std::path::Path;

#[test]
fn decimal_text_writes_single_digits() {
    assert_eq!(decimal_text(0), "0");
    assert_eq!(decimal_text(7), "7");
    assert_eq!(decimal_text(9), "9");
}

#[test]
fn decimal_text_writes_several_digits() {
    assert_eq!(decimal_text(10), "10");
    assert_eq!(decimal_text(2048), "2048");
    assert_eq!(decimal_text(100_000), "100000");
    assert_eq!(decimal_text(u32::MAX), "4294967295");
}

#[test]
fn decimal_text_agrees_with_the_standard_library() {
    let mut n: u32 = 1;
    for _ in 0..31 {
        assert_eq!(decimal_text(n), n.to_string());
        assert_eq!(decimal_text(n - 1), (n - 1).to_string());
        n *= 2;
    }
}

#[test]
fn same_text_compares_characters() {
    assert!(same_text("machine", "machine"));
    assert!(!same_text("machine", "machines"));
    assert!(!same_text("disk", "cpus"));
    assert!(same_text("", ""));
    assert!(!same_text("", "a"));
}

#[test]
fn followed_by_appends() {
    assert_eq!(followed_by("2048", "M"), "2048M");
    assert_eq!(followed_by("", "x"), "x");
    assert_eq!(followed_by("x", ""), "x");
}

#[test]
fn absolute_paths_start_at_the_root() {
    assert!(path_is_absolute("/"));
    assert!(path_is_absolute("/var/lib/disk.qcow2"));
    assert!(!path_is_absolute(""));
    assert!(!path_is_absolute("disk.qcow2"));
    assert!(!path_is_absolute("./disk.qcow2"));
    assert!(!path_is_absolute("../disk.qcow2"));
}

#[test]
fn join_puts_one_separator_between() {
    assert_eq!(join("/machines", "vm1"), "/machines/vm1");
    assert_eq!(join("/machines/", "vm1"), "/machines/vm1");
    assert_eq!(join("machines", "vm1/disk"), "machines/vm1/disk");
}

#[test]
fn join_keeps_dots_as_they_are() {
    assert_eq!(join("/machines/vm1", "./disk.qcow2"), "/machines/vm1/./disk.qcow2");
    assert_eq!(join("/machines/vm1", "../disk.qcow2"), "/machines/vm1/../disk.qcow2");
}

#[test]
fn join_lets_an_absolute_path_replace_the_base() {
    assert_eq!(join("/machines/vm1", "/srv/disk.qcow2"), "/srv/disk.qcow2");
    assert_eq!(join("", "/srv/disk.qcow2"), "/srv/disk.qcow2");
}

#[test]
fn join_handles_empty_parts() {
    assert_eq!(join("", "vm1"), "vm1");
    assert_eq!(join("/machines", ""), "/machines/");
    assert_eq!(join("/machines/", ""), "/machines/");
    assert_eq!(join("", ""), "");
}

#[test]
fn join_handles_text_beyond_ascii() {
    assert_eq!(join("/maschinen/größe", "süd"), "/maschinen/größe/süd");
    assert!(!path_is_absolute("ü/disk"));
}

#[test]
fn paths_agree_with_the_standard_library() {
    let bases = ["", "/", "/machines", "/machines/", "machines", "a/b/", "/a//"];
    let rests = ["", "vm1", "./disk.qcow2", "/srv/disk", "../x", "a/b", "/"];
    for base in bases {
        for rest in rests {
            let expected = Path::new(base).join(rest);
            assert_eq!(join(base, rest), expected.to_string_lossy());
        }
    }
    for rest in rests {
        assert_eq!(path_is_absolute(rest), Path::new(rest).is_absolute());
    }
}

#[test]
fn one_line_writes_line_breaks_out() {
    assert_eq!(one_line("invalid string\nexpected `\"`"), "invalid string\\nexpected `\"`");
    assert_eq!(one_line("a\r\nb"), "a\\r\\nb");
    assert_eq!(one_line("\n"), "\\n");
    assert!(!one_line("x\ny\rz\n").contains('\n'));
    assert!(!one_line("x\ny\rz\n").contains('\r'));
}

#[test]
fn one_line_keeps_other_text() {
    assert_eq!(one_line(""), "");
    assert_eq!(one_line("no machine found by that name"), "no machine found by that name");
    assert_eq!(one_line("tab\tand \\ backslash"), "tab\tand \\ backslash");
    assert_eq!(one_line("größe/süd ✓"), "größe/süd ✓");
}
