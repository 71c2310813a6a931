use std::io::{BufRead, Cursor};

use resourced::hiberutil::{
    activate_physical_vg, command_output, find_mount_source, get_total_memory_pages,
    get_vg_name, is_lvm_system, lock_process_memory, path_to_mounted_stateful_part,
    path_to_stateful_block, path_to_stateful_part, stateful_block_partition_one, trim,
    unencrypted_volume_path, Finding, HibernateError, HibernateOptions, LookupError, Probe,
    ResumeOptions, BUFFER_PAGES,
};

const MOUNTS: &[u8] = b"/dev/root / ext2 ro,seclabel,relatime 0 0\n\
devtmpfs /dev devtmpfs rw,seclabel,nosuid,noexec,relatime,size=4011788k 0 0\n\
/dev/mmcblk0p1 /mnt/stateful_partition ext4 rw,seclabel,nosuid,nodev,noexec,noatime 0 0\n\
/dev/mmcblk0p1 /home ext4 rw,seclabel,nosuid,nodev,noexec,noatime 0 0\n";

fn run(program: &str, args: &[&str]) -> Probe {
    Probe::Run {
        program: program.to_string(),
        args: args.iter().map(|a| a.to_string()).collect(),
    }
}

#[test]
fn buffer_pages() {
    assert_eq!(BUFFER_PAGES, 32);
}

#[test]
fn options_default_to_off() {
    assert_eq!(
        HibernateOptions::default(),
        HibernateOptions {
            dry_run: false,
            unencrypted: false,
            test_keys: false,
            force_platform_mode: false,
        }
    );
    assert_eq!(
        ResumeOptions::default(),
        ResumeOptions { dry_run: false, unencrypted: false, test_keys: false, no_preloader: false }
    );
}

#[test]
fn total_memory_pages_falls_back_to_four_gigabytes() {
    assert_eq!(get_total_memory_pages(0, 4096), 1048576);
    assert_eq!(get_total_memory_pages(0, 16384), 262144);
    assert_eq!(get_total_memory_pages(0, 3000), 349 * 1024 * 4);
    assert_eq!(get_total_memory_pages(2097152, 4096), 2097152);
    assert_eq!(get_total_memory_pages(1, 0), 1);
}

#[test]
fn lvm_label_at_offset_512() {
    let mut header = vec![0u8; 4096];
    assert!(!is_lvm_system(&header));
    header[512..520].copy_from_slice(b"LABELONE");
    assert!(is_lvm_system(&header));
    header[519] = b'X';
    assert!(!is_lvm_system(&header));
    let mut shifted = vec![0u8; 4096];
    shifted[0..8].copy_from_slice(b"LABELONE");
    assert!(!is_lvm_system(&shifted));
    let mut short = vec![0u8; 519];
    short[512..519].copy_from_slice(b"LABELON");
    assert!(!is_lvm_system(&short));
    let mut exact = vec![0u8; 520];
    exact[512..520].copy_from_slice(b"LABELONE");
    assert!(is_lvm_system(&exact));
}

#[test]
fn mounted_stateful_part_is_the_first_field_of_its_line() {
    assert_eq!(path_to_mounted_stateful_part(MOUNTS), Ok("/dev/mmcblk0p1".to_string()));
}

#[test]
fn mounted_stateful_part_missing() {
    let not_found = Err(HibernateError::StatefulPartitionNotFoundError());
    assert_eq!(path_to_mounted_stateful_part(b"/dev/root / ext2 ro 0 0\n"), not_found);
    assert_eq!(path_to_mounted_stateful_part(b""), not_found);
    assert_eq!(path_to_mounted_stateful_part(b"/mnt/stateful_partition\n"), not_found);
    assert_eq!(
        path_to_mounted_stateful_part(b"/dev/sda1 /mnt/stateful_partition2 ext4\n"),
        not_found
    );
    assert_eq!(
        path_to_mounted_stateful_part(b"/dev/sda1\n/mnt/stateful_partition ext4\n"),
        not_found
    );
}

#[test]
fn mount_source_splits_on_any_whitespace() {
    let a = Some("a".to_string());
    assert_eq!(find_mount_source(b"  a \t b  c\n", "b"), a);
    assert_eq!(find_mount_source(b"a b", "b"), a);
    assert_eq!(find_mount_source(b"a b\r\n", "b"), a);
    assert_eq!(find_mount_source(b"a\x0bb\x0cc\n", "b"), a);
    assert_eq!(find_mount_source(b"x y\n\na b\n", "b"), a);
    assert_eq!(find_mount_source(b"first b\nsecond b\n", "b"), Some("first".to_string()));
    assert_eq!(find_mount_source(b"a c b\n", "b"), None);
    assert_eq!(find_mount_source(b"a b\n", ""), None);
    assert_eq!(find_mount_source(b"a\x1cb c\n", "c"), Some("a\u{1c}b".to_string()));
}

#[test]
fn mount_source_splits_at_whitespace_beyond_ascii() {
    let target = "/mnt/stateful_partition";
    assert_eq!(find_mount_source("\u{a0} /mnt/stateful_partition".as_bytes(), target), None);
    assert_eq!(
        path_to_mounted_stateful_part("\u{a0} /mnt/stateful_partition".as_bytes()),
        Err(HibernateError::StatefulPartitionNotFoundError())
    );
    assert_eq!(
        find_mount_source("x\u{a0}/mnt/stateful_partition".as_bytes(), target),
        Some("x".to_string())
    );
    assert_eq!(
        path_to_mounted_stateful_part("x\u{a0}/mnt/stateful_partition".as_bytes()),
        Ok("x".to_string())
    );
    assert_eq!(
        find_mount_source("dev\u{2003}\u{3000}/mnt/stateful_partition\u{2028}ext4".as_bytes(), target),
        Some("dev".to_string())
    );
    assert_eq!(
        find_mount_source("d\u{e9}v\u{200b} /mnt/stateful_partition".as_bytes(), target),
        Some("d\u{e9}v\u{200b}".to_string())
    );
}

#[test]
fn mount_source_passes_over_lines_that_do_not_decode() {
    let target = "/mnt/stateful_partition";
    assert_eq!(find_mount_source(b"/dev/sda1 /mnt/stateful_partition ext4 \xff", target), None);
    assert_eq!(
        path_to_mounted_stateful_part(b"/dev/sda1 /mnt/stateful_partition ext4 \xff"),
        Err(HibernateError::StatefulPartitionNotFoundError())
    );
    assert_eq!(
        find_mount_source(
            b"/dev/bad /mnt/stateful_partition \xc3\n/dev/good /mnt/stateful_partition ext4\n",
            target
        ),
        Some("/dev/good".to_string())
    );
    assert_eq!(
        find_mount_source(b"\xff\xfe\n/dev/good /mnt/stateful_partition\n", target),
        Some("/dev/good".to_string())
    );
}

/// The device as a reader of lines finds it: lines read as text, lines that
/// do not decode dropped, fields split at whitespace.
fn source_by_lines(mounts: &[u8], target: &str) -> Option<String> {
    for line in Cursor::new(mounts).lines().flatten() {
        let mut split = line.split_whitespace();
        let blk = split.next();
        let path = split.next();
        if let Some(path) = path {
            if path == target {
                if let Some(blk) = blk {
                    return Some(blk.to_string());
                }
            }
        }
    }
    None
}

#[test]
fn mount_source_agrees_with_a_reader_of_lines() {
    let tables: Vec<Vec<u8>> = vec![
        MOUNTS.to_vec(),
        b"".to_vec(),
        b"\n".to_vec(),
        b"\n\n\n".to_vec(),
        b"a b".to_vec(),
        b"a b\r\n".to_vec(),
        b"a\rb\n".to_vec(),
        b"a b\nc b\n".to_vec(),
        b"b\n a  b \n".to_vec(),
        "\u{a0} b".as_bytes().to_vec(),
        "x\u{a0}b".as_bytes().to_vec(),
        "x\u{85}b\u{1680}c\n".as_bytes().to_vec(),
        "\u{feff}x b\n".as_bytes().to_vec(),
        b"a b \xff".to_vec(),
        b"a b \xff\nc b\n".to_vec(),
        b"\xc3\x28 b\nd b".to_vec(),
        b"a b\xe2\x80\nc b".to_vec(),
        b"a\x1fb b\n".to_vec(),
        b"a \x0b b\n".to_vec(),
    ];
    for table in tables.iter() {
        for target in ["b", "c", "", "/mnt/stateful_partition"] {
            assert_eq!(
                find_mount_source(table, target),
                source_by_lines(table, target),
                "{:?} {:?}",
                table,
                target
            );
        }
    }
}

#[test]
fn partition_one_of_a_block_device() {
    assert_eq!(stateful_block_partition_one("/dev/sda"), "/dev/sda1");
    assert_eq!(stateful_block_partition_one("/dev/mmcblk0"), "/dev/mmcblk0p1");
    assert_eq!(stateful_block_partition_one("/dev/nvme0n1"), "/dev/nvme0n1p1");
    assert_eq!(stateful_block_partition_one(""), "1");
    assert_eq!(stateful_block_partition_one("/dev/x\u{663}"), "/dev/x\u{663}p1");
}

#[test]
fn command_output_is_decoded_and_trimmed() {
    assert_eq!(command_output(b"/dev/sda\n"), "/dev/sda");
    assert_eq!(command_output(b"  vg0  \n"), "vg0");
    assert_eq!(command_output(b""), "");
    assert_eq!(command_output(&[0x20, 0x61, 0xff, 0x62, 0x0a]), "a\u{fffd}b");
    assert_eq!(path_to_stateful_block(b"/dev/nvme0n1\n"), "/dev/nvme0n1");
    assert_eq!(get_vg_name(b"  STATEFULSTATEFUL\n"), "STATEFULSTATEFUL");
}

#[test]
fn trim_removes_whitespace_at_both_ends_only() {
    assert_eq!(trim("  a b \n"), "a b");
    assert_eq!(trim("a"), "a");
    assert_eq!(trim(""), "");
    assert_eq!(trim(" \t\r\n"), "");
    assert_eq!(trim("\u{2003}x\u{a0}y\u{3000}"), "x\u{a0}y");
    assert_eq!(trim("\u{1c}x"), "\u{1c}x");
    for text in ["", " ", "  x", "x  ", " x y ", "\n\nx\n", "\u{85}z\u{2028}", "\u{200b}z"] {
        assert_eq!(trim(text), text.trim(), "{:?}", text);
    }
}

#[test]
fn unencrypted_volume_of_a_group() {
    assert_eq!(unencrypted_volume_path("vg0"), "/dev/vg0/unencrypted");
    assert_eq!(unencrypted_volume_path(""), "/dev//unencrypted");
}

#[test]
fn error_messages() {
    let s = |t: &str| t.to_string();
    assert_eq!(HibernateError::CookieError(s("bad")).message(), "Cookie error: bad");
    assert_eq!(HibernateError::DbusError(s("down")).message(), "Dbus error: down");
    assert_eq!(
        HibernateError::FallocateError(28).message(),
        "Failed to fallocate the file: Error: 28"
    );
    assert_eq!(HibernateError::FiemapError(5).message(), "Error getting the fiemap: Error: 5");
    assert_eq!(HibernateError::FirstDataByteMismatch().message(), "First data byte mismatch");
    assert_eq!(
        HibernateError::HeaderContentHashMismatch().message(),
        "Header content hash mismatch"
    );
    assert_eq!(
        HibernateError::HeaderContentLengthMismatch().message(),
        "Header content length mismatch"
    );
    assert_eq!(HibernateError::HeaderIncomplete().message(), "Header incomplete");
    assert_eq!(HibernateError::InvalidFiemapError(s("gap")).message(), "Invalid fiemap: gap");
    assert_eq!(HibernateError::ImageUnencryptedError().message(), "Image unencrypted");
    assert_eq!(HibernateError::KeyManagerError(s("k")).message(), "Key manager error: k");
    assert_eq!(HibernateError::MetadataError(s("m")).message(), "Metadata error: m");
    assert_eq!(HibernateError::MlockallError(12).message(), "Failed to mlockall: Error: 12");
    assert_eq!(HibernateError::MmapError(0).message(), "mmap error: Error: 0");
    assert_eq!(HibernateError::IoSizeError(s("7")).message(), "I/O size error: 7");
    assert_eq!(HibernateError::SnapshotError(s("x")).message(), "Snapshot device error: x");
    assert_eq!(
        HibernateError::SnapshotIoctlError(s("freeze"), 16).message(),
        "Snapshot ioctl error: freeze: Error: 16"
    );
    assert_eq!(
        HibernateError::StatefulPartitionNotFoundError().message(),
        "Stateful partition not found"
    );
}

#[test]
fn error_number_text_handles_sign_and_size() {
    assert_eq!(HibernateError::MmapError(-1).message(), "mmap error: Error: -1");
    assert_eq!(HibernateError::MmapError(i32::MAX).message(), "mmap error: Error: 2147483647");
    assert_eq!(HibernateError::MmapError(i32::MIN).message(), "mmap error: Error: -2147483648");
    assert_eq!(HibernateError::MmapError(100).message(), "mmap error: Error: 100");
}

#[test]
fn lock_process_memory_by_return_code() {
    assert_eq!(lock_process_memory(-1, 12), Err(HibernateError::MlockallError(12)));
    assert!(lock_process_memory(0, 12).is_ok());
    assert!(lock_process_memory(3, 0).is_ok());
}

#[test]
fn stateful_part_without_snapshot_is_the_mounted_device() {
    let search = path_to_stateful_part();
    assert_eq!(search.request(), Some(Probe::ReadFile { path: "/proc/mounts".to_string() }));
    assert_eq!(search.result(), None);
    let search = search.advance(Finding::Content(MOUNTS.to_vec()));
    assert_eq!(
        search.request(),
        Some(Probe::Exists { path: "/dev/mapper/stateful-rw".to_string() })
    );
    let search = search.advance(Finding::Exists(false));
    assert_eq!(search.request(), None);
    assert_eq!(search.result(), Some(Ok("/dev/mmcblk0p1".to_string())));
}

#[test]
fn stateful_part_with_snapshot_is_the_unencrypted_volume() {
    let search = path_to_stateful_part()
        .advance(Finding::Content(MOUNTS.to_vec()))
        .advance(Finding::Exists(true));
    assert_eq!(search.request(), Some(run("/usr/bin/rootdev", &["-d"])));
    let search = search.advance(Finding::Output(b"/dev/mmcblk0\n".to_vec()));
    assert_eq!(
        search.request(),
        Some(run("/sbin/pvdisplay", &["-C", "--noheadings", "-o", "vg_name", "/dev/mmcblk0p1"]))
    );
    let search = search.advance(Finding::Output(b"  vg0\n".to_vec()));
    assert_eq!(search.result(), Some(Ok("/dev/vg0/unencrypted".to_string())));
}

#[test]
fn stateful_part_without_lvm_is_partition_one() {
    let search = path_to_stateful_part()
        .advance(Finding::Content(MOUNTS.to_vec()))
        .advance(Finding::Exists(true))
        .advance(Finding::Output(b"/dev/sda\n".to_vec()))
        .advance(Finding::Failed);
    assert_eq!(search.result(), Some(Ok("/dev/sda1".to_string())));
    let again = search.advance(Finding::Exists(true));
    assert_eq!(again.request(), None);
    assert_eq!(again.result(), Some(Ok("/dev/sda1".to_string())));
}

#[test]
fn stateful_part_failures() {
    let unreadable = path_to_stateful_part().advance(Finding::Failed);
    assert_eq!(unreadable.result(), Some(Err(LookupError::MountsUnreadable)));
    let missing = path_to_stateful_part().advance(Finding::Content(b"a /b c\n".to_vec()));
    assert_eq!(missing.result(), Some(Err(LookupError::StatefulPartitionNotFound)));
    let no_rootdev = path_to_stateful_part()
        .advance(Finding::Content(MOUNTS.to_vec()))
        .advance(Finding::Exists(true))
        .advance(Finding::Failed);
    assert_eq!(no_rootdev.result(), Some(Err(LookupError::RootdevFailed)));
    let stat_failed = path_to_stateful_part()
        .advance(Finding::Content(MOUNTS.to_vec()))
        .advance(Finding::Failed);
    assert_eq!(stat_failed.result(), Some(Ok("/dev/mmcblk0p1".to_string())));
}

#[test]
fn no_group_without_snapshot() {
    let activation = activate_physical_vg();
    assert_eq!(
        activation.request(),
        Some(Probe::Exists { path: "/dev/mapper/stateful-rw".to_string() })
    );
    assert!(!activation.is_done());
    let activation = activation.advance(Finding::Exists(false));
    assert!(activation.is_done());
    assert_eq!(activation.request(), None);
    assert_eq!(activation.into_result().ok(), Some(Ok(None)));
}

#[test]
fn group_is_activated_and_let_go_of() {
    let activation = activate_physical_vg()
        .advance(Finding::Exists(true))
        .advance(Finding::Output(b"/dev/nvme0n1\n".to_vec()));
    assert_eq!(
        activation.request(),
        Some(run("/sbin/pvdisplay", &["-C", "--noheadings", "-o", "vg_name", "/dev/nvme0n1p1"]))
    );
    let activation = activation.advance(Finding::Output(b" vg7 \n".to_vec()));
    assert_eq!(
        activation.request(),
        Some(Probe::Exists { path: "/dev/vg7/unencrypted".to_string() })
    );
    let activation = activation.advance(Finding::Exists(false));
    assert_eq!(activation.request(), Some(run("/sbin/vgchange", &["-ay", "vg7"])));
    let activation = activation.advance(Finding::Output(Vec::new()));
    let group = activation
        .into_result()
        .ok()
        .expect("the activation is over")
        .expect("the group was switched on")
        .expect("there is a group");
    assert_eq!(group.deactivation(), Some(run("/sbin/vgchange", &["-an", "vg7"])));
}

#[test]
fn group_that_is_active_already_is_left_alone() {
    let activation = activate_physical_vg()
        .advance(Finding::Exists(true))
        .advance(Finding::Output(b"/dev/sda\n".to_vec()))
        .advance(Finding::Output(b"vg0\n".to_vec()))
        .advance(Finding::Exists(true));
    let group = activation
        .into_result()
        .ok()
        .expect("the activation is over")
        .expect("nothing failed")
        .expect("there is a group");
    assert_eq!(group.deactivation(), None);
}

#[test]
fn activation_failures() {
    let no_rootdev = activate_physical_vg().advance(Finding::Exists(true)).advance(Finding::Failed);
    assert_eq!(no_rootdev.into_result().ok(), Some(Err(LookupError::RootdevFailed)));
    let no_lvm = activate_physical_vg()
        .advance(Finding::Exists(true))
        .advance(Finding::Output(b"/dev/sda\n".to_vec()))
        .advance(Finding::Failed);
    assert_eq!(no_lvm.into_result().ok(), Some(Ok(None)));
    let no_vgchange = activate_physical_vg()
        .advance(Finding::Exists(true))
        .advance(Finding::Output(b"/dev/sda\n".to_vec()))
        .advance(Finding::Output(b"vg0\n".to_vec()))
        .advance(Finding::Failed)
        .advance(Finding::Failed);
    assert_eq!(no_vgchange.into_result().ok(), Some(Err(LookupError::ActivationFailed)));
    let pending = activate_physical_vg().into_result();
    assert!(pending.is_err());
}
