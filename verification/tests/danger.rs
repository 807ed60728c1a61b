use remote_cockpit::danger::DangerChecker;

#[test]
fn detects_rm_rf() {
    let c = DangerChecker::new();
    assert!(c.check(b"rm -rf /tmp/x").is_some());
    assert!(c.check(b"ls -la").is_none());
}

#[test]
fn detects_shutdown_reboot() {
    let c = DangerChecker::new();
    assert!(c.check(b"sudo shutdown now").is_some());
    assert!(c.check(b"reboot").is_some());
}

#[test]
fn hit_names_first_matching_pattern_and_command() {
    let c = DangerChecker::new();
    let hit = c.check(b"rm -rf / && reboot\r").unwrap();
    assert_eq!(hit.pattern, r"rm\s+(-[a-zA-Z]*r[a-zA-Z]*f|--recursive\b.*--force\b)");
    assert_eq!(hit.command, "rm -rf / && reboot\r");
}

#[test]
fn detects_the_other_patterns() {
    let c = DangerChecker::default();
    assert_eq!(c.check(b"mkfs.ext4 /dev/sda1").unwrap().pattern, r"\bmkfs\b");
    assert_eq!(c.check(b"dd if=/dev/zero of=/dev/sda").unwrap().pattern, r"dd\s+.*of=/dev/");
    assert_eq!(c.check(b"rm --recursive x --force").unwrap().pattern,
        r"rm\s+(-[a-zA-Z]*r[a-zA-Z]*f|--recursive\b.*--force\b)");
}

#[test]
fn harmless_commands_pass() {
    let c = DangerChecker::new();
    assert!(c.check(b"rm file.txt").is_none());
    assert!(c.check(b"rebooted").is_none());
    assert!(c.check(b"").is_none());
    assert!(c.check(b"cargo build --release").is_none());
}

#[test]
fn command_text_is_lossy() {
    let c = DangerChecker::new();
    let hit = c.check(b"reboot \xff").unwrap();
    assert_eq!(hit.command, "reboot \u{FFFD}");
}
