//! Which physical block device backs a benchmark path.
//!
//! Nothing pins the data directory to a device: where it lies depends on where it happens to be
//! mounted. What the machine says of its mounts and its block devices comes in as plain values.

use vstd::prelude::*;

use super::mounts::{self, longest_prefix_mount, parse_mountinfo, MountEntry, MountV};
use super::path;
use super::pipeline::{maybe_text, texts};
use crate::chars::{self, begins_at, chars_of, copy_range, parse_u64, same, string_of, trim};
use crate::sort;
use crate::text::{join2, same_text};

verus! {

/// Coarse classification of the storage backing a path.
#[derive(Copy, Clone, Debug, PartialEq, Eq, Structural)]
pub enum StorageKind {
    /// Machine-local NVMe, e.g. an EC2 instance store on a `*d` instance family.
    LocalNvme,
    /// Network-attached block storage (EBS).
    NetworkBlockStore,
    /// In-memory filesystem (`tmpfs`, `ramfs`).
    Memory,
    /// A real device that is neither of the above, or one we could not classify.
    Unknown,
}

impl StorageKind {
    /// The name of the kind.
    pub open spec fn shown(self) -> Seq<char> {
        match self {
            StorageKind::LocalNvme => "local-nvme"@,
            StorageKind::NetworkBlockStore => "network-block-store"@,
            StorageKind::Memory => "memory"@,
            StorageKind::Unknown => "unknown"@,
        }
    }

    /// The name of the kind.
    pub fn to_text(&self) -> (out: &'static str)
        ensures
            out@ == self.shown(),
    {
        match self {
            StorageKind::LocalNvme => "local-nvme",
            StorageKind::NetworkBlockStore => "network-block-store",
            StorageKind::Memory => "memory",
            StorageKind::Unknown => "unknown",
        }
    }
}

/// A leaf block device backing a path, with the attributes used to classify it.
#[derive(Clone, Debug)]
pub struct BlockDevice {
    /// Kernel name, e.g. `nvme0n1`.
    pub name: String,
    /// The device's model, when readable.
    pub model: Option<String>,
    /// Whether the device rotates, when readable.
    pub rotational: Option<bool>,
    /// Device size in bytes.
    pub size_bytes: Option<u64>,
}

/// What a device is.
pub struct DeviceV {
    pub name: Seq<char>,
    pub model: Option<Seq<char>>,
    pub rotational: Option<bool>,
    pub size_bytes: Option<u64>,
}

impl View for BlockDevice {
    type V = DeviceV;

    open spec fn view(&self) -> DeviceV {
        DeviceV {
            name: self.name@,
            model: maybe_text(self.model),
            rotational: self.rotational,
            size_bytes: self.size_bytes,
        }
    }
}

/// What devices are.
pub open spec fn devices_model(devices: Seq<BlockDevice>) -> Seq<DeviceV> {
    Seq::new(devices.len(), |i: int| devices[i]@)
}

/// Where a path physically lives.
#[derive(Clone, Debug)]
pub struct StorageInfo {
    /// The path that was inspected.
    pub path: String,
    /// Mount point covering `path`.
    pub mount_point: String,
    /// Filesystem type of that mount, e.g. `ext4` or `overlay`.
    pub fs_type: String,
    /// Mount source, e.g. `/dev/md0` or `overlay`.
    pub source: String,
    /// For stacked filesystems, the chain of mount points walked to reach a real device.
    pub resolved_via: Vec<String>,
    /// Leaf block devices backing the mount, expanded through MD/RAID members.
    pub devices: Vec<BlockDevice>,
    /// Classification derived from `devices`.
    pub kind: StorageKind,
}

/// What is known of where a path lives.
pub struct StorageV {
    pub path: Seq<char>,
    pub mount_point: Seq<char>,
    pub fs_type: Seq<char>,
    pub source: Seq<char>,
    pub resolved_via: Seq<Seq<char>>,
    pub devices: Seq<DeviceV>,
    pub kind: StorageKind,
}

impl View for StorageInfo {
    type V = StorageV;

    open spec fn view(&self) -> StorageV {
        StorageV {
            path: self.path@,
            mount_point: self.mount_point@,
            fs_type: self.fs_type@,
            source: self.source@,
            resolved_via: texts(self.resolved_via@),
            devices: devices_model(self.devices@),
            kind: self.kind,
        }
    }
}

/// A device as it is shown: its name, and its model where it is known.
pub open spec fn device_shown(device: DeviceV) -> Seq<char> {
    match device.model {
        Some(model) => device.name + " ["@ + model + "]"@,
        None => device.name,
    }
}

/// The first `n` devices, as they are shown.
pub open spec fn devices_shown(devices: Seq<DeviceV>, n: nat) -> Seq<char>
    decreases n,
{
    if n == 0 {
        Seq::empty()
    } else if n == 1 {
        device_shown(devices[0])
    } else {
        devices_shown(devices, (n - 1) as nat) + ", "@ + device_shown(devices[n - 1])
    }
}

/// The first `n` mount points that were walked, as they are shown.
pub open spec fn walk_shown(walk: Seq<Seq<char>>, n: nat) -> Seq<char>
    decreases n,
{
    if n == 0 {
        Seq::empty()
    } else {
        walk_shown(walk, (n - 1) as nat) + " via "@ + walk[n - 1]
    }
}

/// Where a path lives, in words.
pub open spec fn info_shown(info: StorageV) -> Seq<char> {
    info.path + " -> "@ + info.source + " on "@ + info.mount_point + " ("@ + info.fs_type + ")"@
        + walk_shown(info.resolved_via, info.resolved_via.len()) + (if info.devices.len() > 0 {
        " backed by "@ + devices_shown(info.devices, info.devices.len())
    } else {
        Seq::empty()
    }) + ", storage="@ + info.kind.shown()
}

impl BlockDevice {
    /// The device as it is shown.
    pub fn to_text(&self) -> (out: String)
        ensures
            out@ == device_shown(self@),
    {
        match &self.model {
            Some(model) => {
                let mut out = self.name.clone();
                out.append(" [");
                out.append(model.as_str());
                out.append("]");
                out
            },
            None => self.name.clone(),
        }
    }
}

/// The devices as they are shown.
fn devices_text(devices: &Vec<BlockDevice>) -> (out: String)
    ensures
        out@ == devices_shown(devices_model(devices@), devices@.len()),
{
    let ghost model = devices_model(devices@);
    let mut out = String::new();
    let mut index: usize = 0;
    assert(out@ =~= Seq::empty());
    while index < devices.len()
        invariant
            index <= devices@.len(),
            model == devices_model(devices@),
            out@ == devices_shown(model, index as nat),
        decreases devices@.len() - index,
    {
        let ghost before = out@;
        let shown = devices[index].to_text();
        assert(model[index as int] == devices@[index as int]@);
        if index > 0 {
            out.append(", ");
        }
        out.append(shown.as_str());
        assert(index == 0 ==> out@ =~= shown@);
        index = index + 1;
    }
    out
}

impl StorageInfo {
    /// Where the path lives, in words.
    pub fn to_text(&self) -> (out: String)
        ensures
            out@ == info_shown(self@),
    {
        let mut out = self.path.clone();
        out.append(" -> ");
        out.append(self.source.as_str());
        out.append(" on ");
        out.append(self.mount_point.as_str());
        out.append(" (");
        out.append(self.fs_type.as_str());
        out.append(")");
        let ghost opening = out@;
        let ghost walk = texts(self.resolved_via@);
        let mut index: usize = 0;
        assert(out@ =~= opening + walk_shown(walk, 0));
        while index < self.resolved_via.len()
            invariant
                index <= self.resolved_via@.len(),
                walk == texts(self.resolved_via@),
                out@ == opening + walk_shown(walk, index as nat),
            decreases self.resolved_via@.len() - index,
        {
            let ghost before = walk_shown(walk, index as nat);
            out.append(" via ");
            out.append(self.resolved_via[index].as_str());
            proof {
                assert(walk[index as int] == self.resolved_via@[index as int]@);
                assert(out@ =~= opening + (before + " via "@ + walk[index as int]));
            }
            index = index + 1;
        }
        let ghost walked = out@;
        if self.devices.len() > 0 {
            out.append(" backed by ");
            out.append(devices_text(&self.devices).as_str());
            assert(out@ =~= walked + (" backed by "@ + devices_shown(
                devices_model(self.devices@),
                self.devices@.len(),
            )));
        } else {
            assert(out@ =~= walked + Seq::<char>::empty());
        }
        out.append(", storage=");
        out.append(self.kind.to_text());
        out
    }
}

/// How an instance store reports itself.
pub open spec fn instance_store() -> Seq<char> {
    "Amazon EC2 NVMe Instance Storage"@
}

/// How a network-attached volume reports itself.
pub open spec fn block_store() -> Seq<char> {
    "Amazon Elastic Block Store"@
}

/// The kind of storage that a device is, by its model.
pub open spec fn device_kind(device: DeviceV) -> StorageKind {
    match device.model {
        Some(model) => if model == instance_store() {
            StorageKind::LocalNvme
        } else if model == block_store() {
            StorageKind::NetworkBlockStore
        } else {
            StorageKind::Unknown
        },
        None => StorageKind::Unknown,
    }
}

/// The kind of storage behind a mount. Storage that spans devices of different kinds is not one
/// kind.
pub open spec fn kind_of(fs_type: Seq<char>, devices: Seq<DeviceV>) -> StorageKind {
    if fs_type == "tmpfs"@ || fs_type == "ramfs"@ {
        StorageKind::Memory
    } else if devices.len() > 0 && forall|i: int|
        0 <= i < devices.len() ==> device_kind(#[trigger] devices[i]) == device_kind(devices[0]) {
        device_kind(devices[0])
    } else {
        StorageKind::Unknown
    }
}

/// The kind of storage that a device is.
fn kind_of_device(device: &BlockDevice) -> (out: StorageKind)
    ensures
        out == device_kind(device@),
{
    match &device.model {
        Some(model) => if same_text(model.as_str(), "Amazon EC2 NVMe Instance Storage") {
            StorageKind::LocalNvme
        } else if same_text(model.as_str(), "Amazon Elastic Block Store") {
            StorageKind::NetworkBlockStore
        } else {
            StorageKind::Unknown
        },
        None => StorageKind::Unknown,
    }
}

/// Classify the storage behind a mount.
pub fn classify(fs_type: &str, devices: &Vec<BlockDevice>) -> (out: StorageKind)
    ensures
        out == kind_of(fs_type@, devices_model(devices@)),
{
    let ghost model = devices_model(devices@);
    if same_text(fs_type, "tmpfs") || same_text(fs_type, "ramfs") {
        return StorageKind::Memory;
    }
    if devices.len() == 0 {
        return StorageKind::Unknown;
    }
    assert(model[0] == devices@[0]@);
    let kind = kind_of_device(&devices[0]);
    let mut index: usize = 0;
    while index < devices.len()
        invariant
            index <= devices@.len(),
            devices@.len() > 0,
            model == devices_model(devices@),
            fs_type@ != "tmpfs"@ && fs_type@ != "ramfs"@,
            kind == device_kind(model[0]),
            forall|i: int| 0 <= i < index ==> device_kind(#[trigger] model[i]) == kind,
        decreases devices@.len() - index,
    {
        assert(model[index as int] == devices@[index as int]@);
        if kind_of_device(&devices[index]) != kind {
            return StorageKind::Unknown;
        }
        index = index + 1;
    }
    kind
}

/// What the machine says of one block device. The name is that of its directory, in which a slash
/// is written as an exclamation mark.
pub struct DiskEntry {
    pub name: String,
    /// Whether the device is a whole disk, and no partition of one.
    pub whole: bool,
    /// Where the device's directory lies, for a partition below that of its disk.
    pub link: Option<String>,
    /// The devices that the device is built from.
    pub members: Vec<String>,
    /// The text of the device's model.
    pub model: Option<String>,
    /// The text that says whether the device rotates.
    pub rotational: Option<String>,
    /// The text of the device's size, in sectors.
    pub size: Option<String>,
}

/// A text without white space around it, where something is left of it.
pub open spec fn attribute(text: Option<Seq<char>>) -> Option<Seq<char>> {
    match text {
        None => None,
        Some(text) => if chars::trimmed(text).len() == 0 {
            None
        } else {
            Some(chars::trimmed(text))
        },
    }
}

/// The bytes of as many sectors as a text says.
pub open spec fn bytes_of(sectors: Option<Seq<char>>) -> Option<u64> {
    match sectors {
        None => None,
        Some(text) => match chars::number_of(text, u64::MAX as nat) {
            None => None,
            Some(n) => if n * 512 <= u64::MAX {
                Some((n * 512) as u64)
            } else {
                None
            },
        },
    }
}

/// The device that an entry describes.
pub open spec fn device_of(disk: DiskEntry) -> DeviceV {
    DeviceV {
        name: chars::replaced(disk.name@, seq!['!'], seq!['/']),
        model: attribute(maybe_text(disk.model)),
        rotational: match attribute(maybe_text(disk.rotational)) {
            None => None,
            Some(text) => Some(text == "1"@),
        },
        size_bytes: bytes_of(attribute(maybe_text(disk.size))),
    }
}

/// Read an attribute.
fn read_trimmed(text: &Option<String>) -> (out: Option<String>)
    ensures
        maybe_text(out) == attribute(maybe_text(*text)),
{
    match text {
        None => None,
        Some(text) => {
            let trimmed = trim(&chars_of(text.as_str()));
            if trimmed.len() == 0 {
                None
            } else {
                Some(string_of(&trimmed))
            }
        },
    }
}

/// Read the device that an entry describes.
pub fn read_device(disk: &DiskEntry) -> (out: BlockDevice)
    ensures
        out@ == device_of(*disk),
{
    let mut mark: Vec<char> = Vec::new();
    mark.push('!');
    let mut slash: Vec<char> = Vec::new();
    slash.push('/');
    assert(mark@ =~= seq!['!']);
    assert(slash@ =~= seq!['/']);
    let name = chars::replace(&chars_of(disk.name.as_str()), &mark, &slash);
    let rotational = match read_trimmed(&disk.rotational) {
        None => None,
        Some(text) => Some(same_text(text.as_str(), "1")),
    };
    let size_bytes = match read_trimmed(&disk.size) {
        None => None,
        Some(text) => match parse_u64(&chars_of(text.as_str())) {
            None => None,
            Some(sectors) => if sectors <= u64::MAX / 512 {
                Some(sectors * 512)
            } else {
                None
            },
        },
    };
    BlockDevice {
        name: string_of(&name),
        model: read_trimmed(&disk.model),
        rotational,
        size_bytes,
    }
}

/// The first entry of a name, from the `n`-th on.
pub open spec fn entry_of(disks: Seq<DiskEntry>, name: Seq<char>, n: nat) -> Option<int>
    decreases disks.len() - n,
{
    if n >= disks.len() {
        None
    } else if disks[n as int].name@ == name {
        Some(n as int)
    } else {
        entry_of(disks, name, n + 1)
    }
}

/// The disk that a partition belongs to: the directory above its own, unless that is the one of
/// all block devices or the partition's own.
pub open spec fn parent_of(disk: DiskEntry) -> Option<Seq<char>> {
    match disk.link {
        None => None,
        Some(link) => {
            let parts = path::components(link@, true);
            if parts.len() < 2 {
                None
            } else {
                let parent = parts[parts.len() - 2];
                if path::plain_name(parent) && parent != "block"@ && parent != disk.name@ {
                    Some(parent)
                } else {
                    None
                }
            }
        },
    }
}

/// The disk that a partition belongs to.
pub fn partition_parent(disk: &DiskEntry) -> (out: Option<String>)
    ensures
        maybe_text(out) == parent_of(*disk),
{
    match &disk.link {
        None => None,
        Some(link) => {
            let parts = path::components_of(&chars_of(link.as_str()));
            let ghost model = path::components(link@, true);
            if parts.len() < 2 {
                return None;
            }
            let place: usize = parts.len() - 2;
            assert(model[place as int] == parts@[place as int]@);
            let parent = &parts[place];
            if path::is_plain_name(parent) && !same(parent, &chars_of("block")) && !same(
                parent,
                &chars_of(disk.name.as_str()),
            ) {
                Some(string_of(parent))
            } else {
                None
            }
        },
    }
}

/// A device's name as that of its directory.
pub open spec fn directory_name(name: Seq<char>) -> Seq<char> {
    chars::replaced(name, seq!['/'], seq!['!'])
}

/// A device's name as that of its directory.
fn directory_of_device(name: &[char]) -> (out: String)
    ensures
        out@ == directory_name(name@),
{
    let mut mark: Vec<char> = Vec::new();
    mark.push('!');
    let mut slash: Vec<char> = Vec::new();
    slash.push('/');
    assert(mark@ =~= seq!['!']);
    assert(slash@ =~= seq!['/']);
    string_of(&chars::replace(name, &slash, &mark))
}

/// The leaf devices that a device is built from: those of its disk for a partition, those of its
/// members, in the order of their names, for an array, and otherwise itself. The walk goes at
/// most `fuel` devices deep.
pub open spec fn leaves(disks: Seq<DiskEntry>, name: Seq<char>, fuel: nat) -> Seq<DeviceV>
    decreases fuel, 0nat,
{
    if fuel == 0 {
        Seq::empty()
    } else {
        match entry_of(disks, name, 0) {
            None => Seq::empty(),
            Some(place) => {
                let disk = disks[place];
                if !disk.whole {
                    match parent_of(disk) {
                        None => Seq::empty(),
                        Some(parent) => leaves(disks, directory_name(parent), (fuel - 1) as nat),
                    }
                } else if disk.members@.len() == 0 {
                    seq![device_of(disk)]
                } else {
                    let members = sort::in_order::<String>(texts(disk.members@));
                    leaves_of_all(disks, members, disk.members@.len(), (fuel - 1) as nat)
                }
            },
        }
    }
}

/// The leaf devices of the first `n` devices.
pub open spec fn leaves_of_all(
    disks: Seq<DiskEntry>,
    names: Seq<Seq<char>>,
    n: nat,
    fuel: nat,
) -> Seq<DeviceV>
    decreases fuel, n,
{
    if n == 0 {
        Seq::empty()
    } else {
        leaves_of_all(disks, names, (n - 1) as nat, fuel) + leaves(
            disks,
            directory_name(names[n - 1]),
            fuel,
        )
    }
}

/// The leaf devices of a mount source such as `/dev/md0`. A source that names no device has none.
/// No chain of different devices is longer than there are devices.
pub open spec fn source_leaves(disks: Seq<DiskEntry>, source: Seq<char>) -> Seq<DeviceV> {
    if chars::begins(source, "/dev/"@) {
        leaves(disks, directory_name(source.skip("/dev/"@.len() as int)), disks.len() + 1)
    } else {
        Seq::empty()
    }
}

/// Find the entry of a name.
fn find_entry(disks: &Vec<DiskEntry>, name: &str) -> (out: Option<usize>)
    ensures
        match out {
            None => entry_of(disks@, name@, 0) is None,
            Some(place) => entry_of(disks@, name@, 0) == Some(place as int) && place < disks@.len(),
        },
{
    let mut index: usize = 0;
    while index < disks.len()
        invariant
            index <= disks@.len(),
            entry_of(disks@, name@, 0) == entry_of(disks@, name@, index as nat),
        decreases disks@.len() - index,
    {
        if same_text(disks[index].name.as_str(), name) {
            return Some(index);
        }
        index = index + 1;
    }
    None
}

/// Copy texts.
fn copied(names: &Vec<String>) -> (out: Vec<String>)
    ensures
        texts(out@) == texts(names@),
{
    let mut out: Vec<String> = Vec::new();
    let mut index: usize = 0;
    while index < names.len()
        invariant
            index <= names@.len(),
            out@.len() == index,
            forall|i: int| 0 <= i < index ==> (#[trigger] out@[i])@ == names@[i]@,
        decreases names@.len() - index,
    {
        out.push(names[index].clone());
        index = index + 1;
    }
    assert(texts(out@) =~= texts(names@));
    out
}

/// The leaf devices that a device is built from, going `more` devices deeper than it at most.
fn device_leaves(disks: &Vec<DiskEntry>, name: &str, more: usize) -> (out: Vec<BlockDevice>)
    ensures
        devices_model(out@) == leaves(disks@, name@, more as nat + 1),
    decreases more, 1nat,
{
    let mut out: Vec<BlockDevice> = Vec::new();
    assert(devices_model(out@) =~= Seq::empty());
    match find_entry(disks, name) {
        None => out,
        Some(place) => {
            let disk = &disks[place];
            if !disk.whole {
                return match partition_parent(disk) {
                    None => out,
                    Some(parent) => deeper_leaves(disks, parent.as_str(), more),
                };
            }
            if disk.members.len() == 0 {
                out.push(read_device(disk));
                assert(devices_model(out@) =~= seq![device_of(*disk)]);
                return out;
            }
            let members = sort::sort(copied(&disk.members));
            let ghost names = sort::in_order::<String>(texts(disk.members@));
            proof {
                assert(sort::held_by(members@) =~= texts(members@));
                assert(forall|given: Seq<String>| sort::held_by(given) =~= #[trigger] texts(given));
                assert(texts(members@) == names);
            }
            let mut index: usize = 0;
            while index < members.len()
                invariant
                    index <= members@.len(),
                    names == texts(members@),
                    devices_model(out@) == leaves_of_all(
                        disks@,
                        names,
                        index as nat,
                        more as nat,
                    ),
                decreases members@.len() - index,
            {
                assert(names[index as int] == members@[index as int]@);
                let mut found = deeper_leaves(disks, members[index].as_str(), more);
                let ghost before = devices_model(out@);
                let ghost added = devices_model(found@);
                out.append(&mut found);
                assert(devices_model(out@) =~= before + added);
                index = index + 1;
            }
            out
        },
    }
}

/// The leaf devices of a device that another is built from, going at most `fuel` devices deep.
fn deeper_leaves(disks: &Vec<DiskEntry>, name: &str, fuel: usize) -> (out: Vec<BlockDevice>)
    ensures
        devices_model(out@) == leaves(disks@, directory_name(name@), fuel as nat),
    decreases fuel, 0nat,
{
    if fuel == 0 {
        let out: Vec<BlockDevice> = Vec::new();
        assert(devices_model(out@) =~= Seq::empty());
        return out;
    }
    let directory = directory_of_device(&chars_of(name));
    device_leaves(disks, directory.as_str(), fuel - 1)
}

/// Expand a mount source such as `/dev/md0` into the leaf devices it is built from.
pub fn leaf_devices(disks: &Vec<DiskEntry>, source: &str) -> (out: Vec<BlockDevice>)
    ensures
        devices_model(out@) == source_leaves(disks@, source@),
{
    let given = chars_of(source);
    let prefix = chars_of("/dev/");
    assert(given@.skip(0) =~= given@);
    if !begins_at(&given, 0, &prefix) {
        let out: Vec<BlockDevice> = Vec::new();
        assert(devices_model(out@) =~= Seq::empty());
        return out;
    }
    let name = copy_range(&given, prefix.len(), given.len());
    assert(name@ =~= given@.skip(prefix@.len() as int));
    device_leaves(disks, directory_of_device(&name).as_str(), disks.len())
}

/// Number of stacked filesystems (`overlay` on `overlay` on ...) to walk before giving up.
pub const MAX_OVERLAY_DEPTH: usize = 4;

/// Where a path lives, going by the mounts and the devices. The data of an overlay lies in its
/// upper directory, which is itself on some other mount.
pub open spec fn described(
    path: Seq<char>,
    mounts: Seq<MountV>,
    disks: Seq<DiskEntry>,
    depth: nat,
) -> StorageV
    decreases MAX_OVERLAY_DEPTH - depth,
{
    match mounts::covering(path, mounts, mounts.len()) {
        None => StorageV {
            path,
            mount_point: "/"@,
            fs_type: "unknown"@,
            source: "unknown"@,
            resolved_via: Seq::empty(),
            devices: Seq::empty(),
            kind: StorageKind::Unknown,
        },
        Some(place) => {
            let mount = mounts[place];
            if depth < MAX_OVERLAY_DEPTH && mount.upper_dir is Some {
                let inner = described(mount.upper_dir->Some_0, mounts, disks, depth + 1);
                StorageV {
                    path,
                    resolved_via: seq![mount.mount_point] + inner.resolved_via,
                    ..inner
                }
            } else {
                let devices = source_leaves(disks, mount.source);
                StorageV {
                    path,
                    mount_point: mount.mount_point,
                    fs_type: mount.fs_type,
                    source: mount.source,
                    resolved_via: Seq::empty(),
                    devices,
                    kind: kind_of(mount.fs_type, devices),
                }
            }
        },
    }
}

/// No more overlays are walked than the limit allows, however they are stacked.
pub proof fn overlays_are_walked_to_a_limit(
    path: Seq<char>,
    mounts: Seq<MountV>,
    disks: Seq<DiskEntry>,
    depth: nat,
)
    ensures
        described(path, mounts, disks, depth).resolved_via.len() <= (if depth < MAX_OVERLAY_DEPTH {
            MAX_OVERLAY_DEPTH - depth
        } else {
            0
        }),
        described(path, mounts, disks, depth).path == path,
    decreases MAX_OVERLAY_DEPTH - depth,
{
    match mounts::covering(path, mounts, mounts.len()) {
        None => {},
        Some(place) => {
            let mount = mounts[place];
            if depth < MAX_OVERLAY_DEPTH && mount.upper_dir is Some {
                overlays_are_walked_to_a_limit(
                    mount.upper_dir->Some_0,
                    mounts,
                    disks,
                    depth + 1,
                );
            }
        },
    }
}

/// A path that lies on no mount is told to lie on an unknown one, without devices.
pub proof fn uncovered_paths_are_unknown(
    path: Seq<char>,
    mounts: Seq<MountV>,
    disks: Seq<DiskEntry>,
    depth: nat,
)
    requires
        forall|i: int| 0 <= i < mounts.len() ==> !mounts::covers(#[trigger] mounts[i], path),
    ensures
        described(path, mounts, disks, depth) == (StorageV {
            path,
            mount_point: "/"@,
            fs_type: "unknown"@,
            source: "unknown"@,
            resolved_via: Seq::empty(),
            devices: Seq::empty(),
            kind: StorageKind::Unknown,
        }),
{
    nothing_covers(path, mounts, mounts.len());
}

proof fn nothing_covers(path: Seq<char>, mounts: Seq<MountV>, n: nat)
    requires
        n <= mounts.len(),
        forall|i: int| 0 <= i < mounts.len() ==> !mounts::covers(#[trigger] mounts[i], path),
    ensures
        mounts::covering(path, mounts, n) is None,
    decreases n,
{
    if n > 0 {
        nothing_covers(path, mounts, (n - 1) as nat);
        assert(!mounts::covers(mounts[n - 1], path));
    }
}

/// The kind of storage that is reported is that of the devices that are reported.
pub proof fn kinds_come_from_devices(
    path: Seq<char>,
    mounts: Seq<MountV>,
    disks: Seq<DiskEntry>,
    depth: nat,
)
    ensures
        ({
            let info = described(path, mounts, disks, depth);
            info.kind == kind_of(info.fs_type, info.devices)
        }),
    decreases MAX_OVERLAY_DEPTH - depth,
{
    reveal_strlit("unknown");
    reveal_strlit("tmpfs");
    reveal_strlit("ramfs");
    assert("unknown"@.len() != "tmpfs"@.len());
    assert("unknown"@.len() != "ramfs"@.len());
    match mounts::covering(path, mounts, mounts.len()) {
        None => {},
        Some(place) => {
            let mount = mounts[place];
            if depth < MAX_OVERLAY_DEPTH && mount.upper_dir is Some {
                kinds_come_from_devices(mount.upper_dir->Some_0, mounts, disks, depth + 1);
            }
        },
    }
}

/// Resolve where a path lives.
pub fn describe_with_mounts(
    path: &str,
    mounts: &Vec<MountEntry>,
    disks: &Vec<DiskEntry>,
    depth: usize,
) -> (out: StorageInfo)
    ensures
        out@ == described(path@, mounts::mounts_model(mounts@), disks@, depth as nat),
    decreases MAX_OVERLAY_DEPTH - depth,
{
    let ghost model = mounts::mounts_model(mounts@);
    let none: Vec<String> = Vec::new();
    assert(texts(none@) =~= Seq::empty());
    match longest_prefix_mount(path, mounts) {
        None => {
            let devices: Vec<BlockDevice> = Vec::new();
            assert(devices_model(devices@) =~= Seq::empty());
            StorageInfo {
                path: String::from_str(path),
                mount_point: String::from_str("/"),
                fs_type: String::from_str("unknown"),
                source: String::from_str("unknown"),
                resolved_via: none,
                devices,
                kind: StorageKind::Unknown,
            }
        },
        Some(place) => {
            let mount = &mounts[place];
            assert(model[place as int] == mount@);
            if depth < MAX_OVERLAY_DEPTH {
                if let Some(upper) = &mount.upper_dir {
                    let mut inner = describe_with_mounts(upper.as_str(), mounts, disks, depth + 1);
                    let ghost before = inner@;
                    inner.path = String::from_str(path);
                    inner.resolved_via.insert(0, mount.mount_point.clone());
                    assert(inner@.resolved_via =~= seq![mount.mount_point@]
                        + before.resolved_via);
                    return inner;
                }
            }
            let devices = leaf_devices(disks, mount.source.as_str());
            let kind = classify(mount.fs_type.as_str(), &devices);
            StorageInfo {
                path: String::from_str(path),
                mount_point: mount.mount_point.clone(),
                fs_type: mount.fs_type.clone(),
                source: mount.source.clone(),
                resolved_via: none,
                devices,
                kind,
            }
        },
    }
}

/// The first of a path's ancestors, from the path itself up, that exists; the path where none
/// does.
pub open spec fn first_existing(path: Seq<char>, ancestors: Seq<Option<String>>, n: nat) -> Seq<
    char,
>
    decreases ancestors.len() - n,
{
    if n >= ancestors.len() {
        path
    } else {
        match ancestors[n as int] {
            Some(canonical) => canonical@,
            None => first_existing(path, ancestors, n + 1),
        }
    }
}

/// Walk up until a component exists, so a not-yet-created data directory still resolves. The
/// ancestors are given by their canonical paths, where they have one.
pub fn existing_ancestor(path: &str, ancestors: &Vec<Option<String>>) -> (out: String)
    ensures
        out@ == first_existing(path@, ancestors@, 0),
{
    let mut index: usize = 0;
    while index < ancestors.len()
        invariant
            index <= ancestors@.len(),
            first_existing(path@, ancestors@, 0) == first_existing(
                path@,
                ancestors@,
                index as nat,
            ),
        decreases ancestors@.len() - index,
    {
        if let Some(canonical) = &ancestors[index] {
            return canonical.clone();
        }
        index = index + 1;
    }
    String::from_str(path)
}

/// Where a path lives, going by the nearest of its ancestors that exists.
pub open spec fn path_described(
    path: Seq<char>,
    ancestors: Seq<Option<String>>,
    mountinfo: Seq<char>,
    disks: Seq<DiskEntry>,
) -> StorageV {
    let lines = chars::lines_of(mountinfo);
    let mounts = mounts::mounts_of(lines, lines.len());
    StorageV { path, ..described(first_existing(path, ancestors, 0), mounts, disks, 0) }
}

/// Resolve the storage backing `path`, walking up to the nearest existing ancestor when the
/// path itself has not been created yet.
///
/// Returns `None` when the platform does not expose its mounts. Failure to classify is reported
/// as [`StorageKind::Unknown`] rather than an error: this is diagnostic output and must never
/// fail a benchmark.
pub fn describe_path(
    path: &str,
    ancestors: &Vec<Option<String>>,
    mountinfo: Option<&str>,
    disks: &Vec<DiskEntry>,
) -> (out: Option<StorageInfo>)
    ensures
        out is Some <==> mountinfo is Some,
        out matches Some(info) ==> info@ == path_described(
            path@,
            ancestors@,
            mountinfo->Some_0@,
            disks@,
        ),
{
    match mountinfo {
        None => None,
        Some(raw) => {
            let mounts = parse_mountinfo(raw);
            let nearest = existing_ancestor(path, ancestors);
            let mut info = describe_with_mounts(nearest.as_str(), &mounts, disks, 0);
            info.path = String::from_str(path);
            Some(info)
        },
    }
}

/// What is logged of the storage behind the benchmark data.
pub struct StorageLog {
    /// What is said of it.
    pub message: String,
    /// The names of the devices.
    pub devices: String,
    /// Whether to warn that timings are not comparable to those on local NVMe.
    pub warns: bool,
}

/// The names of the first `n` devices.
pub open spec fn device_names(devices: Seq<DeviceV>, n: nat) -> Seq<char>
    decreases n,
{
    if n == 0 {
        Seq::empty()
    } else if n == 1 {
        devices[0].name
    } else {
        device_names(devices, (n - 1) as nat) + ","@ + devices[n - 1].name
    }
}

/// Say what storage was actually used, and warn in CI when it is not local NVMe.
pub fn log_data_dir_storage(info: &StorageInfo, ci: bool) -> (out: StorageLog)
    ensures
        out.message@ == "benchmark data storage: "@ + info_shown(info@),
        out.devices@ == device_names(info@.devices, info@.devices.len()),
        out.warns == (ci && info.kind != StorageKind::LocalNvme),
{
    let ghost model = devices_model(info.devices@);
    let mut devices = String::new();
    let mut index: usize = 0;
    assert(devices@ =~= Seq::empty());
    while index < info.devices.len()
        invariant
            index <= info.devices@.len(),
            model == devices_model(info.devices@),
            devices@ == device_names(model, index as nat),
        decreases info.devices@.len() - index,
    {
        assert(model[index as int] == info.devices@[index as int]@);
        if index > 0 {
            devices.append(",");
        }
        devices.append(info.devices[index].name.as_str());
        assert(index == 0 ==> devices@ =~= model[0].name);
        index = index + 1;
    }
    StorageLog {
        message: join2("benchmark data storage: ", info.to_text().as_str()),
        devices,
        warns: ci && info.kind != StorageKind::LocalNvme,
    }
}

} // verus!
