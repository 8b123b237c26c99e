use rustcontainer::mount_table::{line_names_proc, mount_table_has_proc};

fn has_proc(text: &str) -> bool {
    let content: Vec<u8> = text.as_bytes().to_vec();
    mount_table_has_proc(&content)
}

fn line_matches(text: &str) -> bool {
    let content: Vec<u8> = text.as_bytes().to_vec();
    let end = content.len();
    line_names_proc(&content, 0, end)
}

#[test]
fn detects_plain_proc_line() {
    assert!(line_matches("proc /proc proc rw,nosuid,nodev,noexec,relatime 0 0"));
}

#[test]
fn detects_proc_line_regardless_of_other_fields() {
    assert!(line_matches("anything /proc sometype someopts 0 0"));
    assert!(line_matches("x /proc y z 1 2"));
    assert!(line_matches("/dev/sda1 /proc weird ro 0 0"));
}

#[test]
fn detects_proc_as_trailing_second_field() {
    assert!(line_matches("proc /proc"));
    assert!(has_proc("sysfs /sys\nproc /proc"));
}

#[test]
fn detects_proc_line_with_extra_blanks() {
    assert!(line_matches("  proc\t/proc\tproc rw 0 0"));
    assert!(line_matches("proc   /proc   proc rw 0 0"));
}

#[test]
fn rejects_other_mount_points() {
    assert!(!line_matches("sysfs /sys sysfs rw 0 0"));
    assert!(!line_matches("proc /procx proc rw 0 0"));
    assert!(!line_matches("proc /pro proc rw 0 0"));
    assert!(!line_matches("tmpfs /tmp tmpfs rw 0 0"));
}

#[test]
fn first_field_proc_is_not_a_match() {
    assert!(!line_matches("/proc /mnt ext4 rw 0 0"));
}

#[test]
fn third_field_proc_is_not_a_match() {
    assert!(!line_matches("a b /proc"));
}

#[test]
fn short_lines_are_not_matched() {
    assert!(!line_matches(""));
    assert!(!line_matches("proc"));
    assert!(!line_matches("   "));
    assert!(!line_matches("/proc"));
}

#[test]
fn finds_proc_in_full_table() {
    let table = "sysfs /sys sysfs rw,nosuid 0 0\n\
                 proc /proc proc rw,nosuid,nodev,noexec 0 0\n\
                 udev /dev devtmpfs rw 0 0\n";
    assert!(has_proc(table));
}

#[test]
fn finds_proc_on_last_line_without_newline() {
    let table = "sysfs /sys sysfs rw 0 0\nproc /proc proc rw 0 0";
    assert!(has_proc(table));
}

#[test]
fn finds_proc_on_first_line() {
    let table = "proc /proc proc rw 0 0\nsysfs /sys sysfs rw 0 0\n";
    assert!(has_proc(table));
}

#[test]
fn misses_proc_in_table_without_entry() {
    let table = "sysfs /sys sysfs rw 0 0\nudev /dev devtmpfs rw 0 0\n";
    assert!(!has_proc(table));
}

#[test]
fn empty_table_has_no_proc() {
    assert!(!has_proc(""));
    assert!(!has_proc("\n"));
    assert!(!has_proc("\n\n\n"));
}

#[test]
fn proc_split_across_lines_is_not_a_match() {
    let table = "a\n/proc\nb c d\n";
    assert!(!has_proc(table));
}
