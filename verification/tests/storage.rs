//! Where a path physically lives.

use vortex_rows::bench::mounts::{parse_mountinfo, unescape_octal, MountEntry};
use vortex_rows::bench::storage::{
    classify, describe_path, describe_with_mounts, existing_ancestor, leaf_devices, log_data_dir_storage,
    BlockDevice, DiskEntry, StorageInfo, StorageKind, MAX_OVERLAY_DEPTH,
};

const MODEL_INSTANCE_STORE: &str = "Amazon EC2 NVMe Instance Storage";
const MODEL_EBS: &str = "Amazon Elastic Block Store";

/// A trimmed mount table of a benchmark runner: a network root, an array of instance stores at
/// `/mnt/ephemeral`, and the work directory overlaid onto it.
fn runner_mountinfo() -> String {
    let mut out = String::new();
    out.push_str("24 30 259:1 / / rw,relatime shared:1 - ext4 /dev/nvme4n1p1 rw,discard,commit=30\n");
    out.push_str("31 24 0:23 / /dev/shm rw,nosuid,nodev shared:2 - tmpfs tmpfs rw\n");
    out.push_str("40 24 9:0 / /mnt/ephemeral rw,noatime shared:3 - ext4 /dev/md0 rw,stripe=256\n");
    out.push_str("41 24 0:57 / /home/runner rw,relatime shared:4 - overlay overlay ");
    out.push_str("rw,lowerdir=/home/runner,upperdir=/mnt/ephemeral/overlay/home-runner/upper,");
    out.push_str("workdir=/mnt/ephemeral/overlay/home-runner/work\n");
    out.push_str("42 24 0:58 / /mnt/with\\040space rw,relatime shared:5 - ext4 /dev/nvme5n1 rw\n");
    out
}

fn describe(path: &str, mounts: &Vec<MountEntry>) -> StorageInfo {
    describe_with_mounts(path, mounts, &Vec::new(), 0)
}

fn device(model: &str) -> BlockDevice {
    BlockDevice {
        name: "nvme0n1".to_string(),
        model: Some(model.to_string()),
        rotational: Some(false),
        size_bytes: Some(1_600_000_000_000),
    }
}

fn disk(name: &str, model: &str) -> DiskEntry {
    DiskEntry {
        name: name.to_string(),
        whole: true,
        link: None,
        members: Vec::new(),
        model: Some(format!("{model}   \n")),
        rotational: Some("0\n".to_string()),
        size: Some("2048\n".to_string()),
    }
}

fn resolves(path: &str, mount_point: &str, fs_type: &str, source: &str) {
    let mounts = parse_mountinfo(&runner_mountinfo());
    let info = describe(path, &mounts);
    assert_eq!(info.mount_point, mount_point);
    assert_eq!(info.fs_type, fs_type);
    assert_eq!(info.source, source);
    assert!(info.resolved_via.is_empty());
}

#[test]
fn resolves_plain_mounts() {
    resolves("/etc/hostname", "/", "ext4", "/dev/nvme4n1p1");
    resolves("/mnt/ephemeral/data", "/mnt/ephemeral", "ext4", "/dev/md0");
    resolves("/mnt/with space/x", "/mnt/with space", "ext4", "/dev/nvme5n1");
}

#[test]
fn resolves_overlay_to_its_upper_dir() {
    let mounts = parse_mountinfo(&runner_mountinfo());
    let path = "/home/runner/_work/vortex/vortex/vortex-bench/data";
    let info = describe(path, &mounts);

    // The workspace looks like it lives on the overlay, but its bytes land on the RAID.
    assert_eq!(info.path, path);
    assert_eq!(info.source, "/dev/md0");
    assert_eq!(info.mount_point, "/mnt/ephemeral");
    assert_eq!(info.resolved_via, vec!["/home/runner".to_string()]);
}

#[test]
fn longest_mount_point_wins_over_shorter_prefix() {
    let mounts = parse_mountinfo(&runner_mountinfo());
    let info = describe("/mnt/ephemeral", &mounts);
    assert_eq!(info.source, "/dev/md0");
}

#[test]
fn stacked_overlays_terminate() {
    let stacked = (0..=MAX_OVERLAY_DEPTH)
        .map(|i| {
            format!(
                "{} 24 0:{i} / /o{i} rw - overlay overlay rw,upperdir=/o{},workdir=/w\n",
                100 + i,
                i + 1
            )
        })
        .collect::<String>();
    let mounts = parse_mountinfo(&stacked);
    let info = describe("/o0/x", &mounts);
    assert_eq!(info.resolved_via.len(), MAX_OVERLAY_DEPTH);
    assert_eq!(info.kind, StorageKind::Unknown);
}

#[test]
fn classifies_by_device_model() {
    assert_eq!(classify("ext4", &vec![device(MODEL_INSTANCE_STORE)]), StorageKind::LocalNvme);
    assert_eq!(classify("ext4", &vec![device(MODEL_EBS)]), StorageKind::NetworkBlockStore);
    assert_eq!(classify("ext4", &vec![device("Samsung SSD 990 PRO")]), StorageKind::Unknown);
}

#[test]
fn classifies_uniform_raid_members_as_one_kind() {
    let devices = vec![device(MODEL_INSTANCE_STORE); 4];
    assert_eq!(classify("ext4", &devices), StorageKind::LocalNvme);
}

#[test]
fn mixed_raid_members_are_not_classified() {
    let devices = vec![device(MODEL_INSTANCE_STORE), device(MODEL_EBS)];
    assert_eq!(classify("ext4", &devices), StorageKind::Unknown);
}

#[test]
fn classifies_deviceless_mounts() {
    assert_eq!(classify("tmpfs", &Vec::new()), StorageKind::Memory);
    assert_eq!(classify("ext4", &Vec::new()), StorageKind::Unknown);
}

#[test]
fn later_mounts_hide_earlier_ones() {
    let mounts = parse_mountinfo(
        "1 0 0:1 / /data rw - ext4 /dev/sda rw\n2 0 0:2 / /data/. rw - xfs /dev/sdb rw\nnonsense\n",
    );
    assert_eq!(mounts.len(), 2);
    assert_eq!(describe("/data/x", &mounts).source, "/dev/sdb");
    // A mount point is compared component by component.
    let info = describe("/database", &mounts);
    assert_eq!(info.mount_point, "/");
    assert_eq!(info.fs_type, "unknown");
    assert_eq!(info.kind, StorageKind::Unknown);
}

#[test]
fn octal_escapes_are_decoded() {
    assert_eq!(unescape_octal("plain"), "plain");
    assert_eq!(unescape_octal("a\\040b\\011c\\134d"), "a b\tc\\d");
    // Too short, no octal digits, or more than a byte.
    assert_eq!(unescape_octal("\\04"), "\\04");
    assert_eq!(unescape_octal("\\089"), "\\089");
    assert_eq!(unescape_octal("\\777x"), "\\777x");
    assert_eq!(unescape_octal("\\+12"), "\\+12");
    // An escape at the very end is decoded, and other characters are kept as they are.
    assert_eq!(unescape_octal("/mnt/a\\040"), "/mnt/a ");
    assert_eq!(unescape_octal("/mnt/\u{e9}\\040x"), "/mnt/\u{e9} x");
    assert_eq!(unescape_octal("\\12\u{e9}"), "\\12\u{e9}");
    // What the kernel escapes comes back.
    assert_eq!(unescape_octal("\\134\\040\\011\\012\u{e9}"), "\\ \t\n\u{e9}");
}

#[test]
fn mounts_with_accents_and_spaces_cover_their_paths() {
    let mounts = parse_mountinfo("1 0 0:1 / /mnt/\u{e9}\\040x rw - ext4 /dev/sda rw\n");
    assert_eq!(mounts[0].mount_point, "/mnt/\u{e9} x");
    assert_eq!(describe("/mnt/\u{e9} x/data", &mounts).source, "/dev/sda");
}

#[test]
fn arrays_expand_into_their_members() {
    let mut array = disk("md0", "");
    array.members = vec!["nvme2n1".to_string(), "nvme1n1".to_string()];
    let mut partition = disk("md0p1", "");
    partition.whole = false;
    partition.link = Some("../../devices/virtual/block/md0/md0p1".to_string());
    let disks = vec![
        disk("nvme1n1", MODEL_INSTANCE_STORE),
        disk("nvme2n1", MODEL_INSTANCE_STORE),
        array,
        partition,
        disk("mapper!root", MODEL_EBS),
    ];
    for source in ["/dev/md0", "/dev/md0p1"] {
        let leaves = leaf_devices(&disks, source);
        let names: Vec<&str> = leaves.iter().map(|d| d.name.as_str()).collect();
        assert_eq!(names, vec!["nvme1n1", "nvme2n1"]);
        assert_eq!(leaves[0].model.as_deref(), Some(MODEL_INSTANCE_STORE));
        assert_eq!(leaves[0].rotational, Some(false));
        assert_eq!(leaves[0].size_bytes, Some(1_048_576));
        assert_eq!(classify("ext4", &leaves), StorageKind::LocalNvme);
    }
    assert_eq!(leaf_devices(&disks, "/dev/mapper/root")[0].name, "mapper/root");
    assert!(leaf_devices(&disks, "/dev/missing").is_empty());
    assert!(leaf_devices(&disks, "tmpfs").is_empty());
}

#[test]
fn paths_are_described_by_their_nearest_ancestor() {
    let disks = vec![disk("md0", MODEL_INSTANCE_STORE)];
    let ancestors = vec![None, Some("/mnt/ephemeral".to_string()), Some("/mnt".to_string())];
    assert_eq!(existing_ancestor("/data/new", &ancestors), "/mnt/ephemeral");
    assert_eq!(existing_ancestor("/data/new", &vec![None]), "/data/new");

    let raw = runner_mountinfo();
    let info = describe_path("/data/new", &ancestors, Some(raw.as_str()), &disks).unwrap();
    assert_eq!(info.path, "/data/new");
    assert_eq!(info.kind, StorageKind::LocalNvme);
    assert_eq!(
        info.to_text(),
        "/data/new -> /dev/md0 on /mnt/ephemeral (ext4) backed by md0 \
         [Amazon EC2 NVMe Instance Storage], storage=local-nvme"
    );
    assert!(describe_path("/data/new", &ancestors, None, &disks).is_none());

    let log = log_data_dir_storage(&info, true);
    assert_eq!(log.message, format!("benchmark data storage: {}", info.to_text()));
    assert_eq!(log.devices, "md0");
    assert!(!log.warns);
}

#[test]
fn overlays_are_shown_with_what_they_lead_through() {
    let mounts = parse_mountinfo(&runner_mountinfo());
    let info = describe("/home/runner/x", &mounts);
    assert_eq!(
        info.to_text(),
        "/home/runner/x -> /dev/md0 on /mnt/ephemeral (ext4) via /home/runner, storage=unknown"
    );
    assert!(log_data_dir_storage(&info, true).warns);
    assert!(!log_data_dir_storage(&info, false).warns);
    assert_eq!(StorageKind::NetworkBlockStore.to_text(), "network-block-store");
    assert_eq!(StorageKind::Memory.to_text(), "memory");
}

/// A path that no mount covers lives nowhere that is known, and depth does not change that.
#[test]
fn uncovered_paths_live_nowhere_known() {
    for depth in [0, MAX_OVERLAY_DEPTH, MAX_OVERLAY_DEPTH + 1] {
        let info = describe_with_mounts("/data/file", &Vec::new(), &Vec::new(), depth);
        assert_eq!(info.path, "/data/file");
        assert_eq!(info.kind.to_text(), StorageKind::Unknown.to_text());
        assert_eq!(info.devices.len(), 0);
    }
}
