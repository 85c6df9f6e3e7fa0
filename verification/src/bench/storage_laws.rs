//! What is told of where data lies, said of the mounts and the devices.

use vstd::prelude::*;

use crate::bench::mounts::{self, mount_of, unescaped, upper_option};
use crate::bench::path::{below_goes_by_components, components};
use crate::bench::storage::{self, bytes_of, device_of, directory_name, entry_of, kind_of, leaves, leaves_of_all, DeviceV, DiskEntry, StorageKind};
use crate::chars;
use crate::chars_laws;
use crate::sort;
use crate::text;

verus! {

/// Every device reports this model, and there is one.
pub open spec fn all_report(devices: Seq<DeviceV>, model: Seq<char>) -> bool {
    devices.len() > 0 && forall|i: int|
        0 <= i < devices.len() ==> (#[trigger] devices[i]).model == Some(model)
}

/// Storage is memory where the filesystem lies in memory; otherwise it is local, or behind the
/// network, exactly where every device reports the model that says so.
pub proof fn kinds_are_told_by_models(fs_type: Seq<char>, devices: Seq<DeviceV>)
    ensures
        ({
            let memory = fs_type == "tmpfs"@ || fs_type == "ramfs"@;
            let kind = kind_of(fs_type, devices);
            &&& kind is Memory <==> memory
            &&& kind is LocalNvme <==> !memory && all_report(
                devices,
                "Amazon EC2 NVMe Instance Storage"@,
            )
            &&& kind is NetworkBlockStore <==> !memory && all_report(
                devices,
                "Amazon Elastic Block Store"@,
            )
        }),
{
    reveal_strlit("Amazon EC2 NVMe Instance Storage");
    reveal_strlit("Amazon Elastic Block Store");
    assert("Amazon EC2 NVMe Instance Storage"@.len() != "Amazon Elastic Block Store"@.len());
    if devices.len() > 0 {
        let first = devices[0];
        if kind_of(fs_type, devices) is LocalNvme {
            assert forall|i: int| 0 <= i < devices.len() implies (#[trigger] devices[i]).model == Some(
                "Amazon EC2 NVMe Instance Storage"@,
            ) by {
                assert(storage::device_kind(devices[i]) == storage::device_kind(devices[0]));
            }
        }
        if kind_of(fs_type, devices) is NetworkBlockStore {
            assert forall|i: int| 0 <= i < devices.len() implies (#[trigger] devices[i]).model == Some(
                "Amazon Elastic Block Store"@,
            ) by {
                assert(storage::device_kind(devices[i]) == storage::device_kind(devices[0]));
            }
        }
        if all_report(devices, "Amazon EC2 NVMe Instance Storage"@) || all_report(
            devices,
            "Amazon Elastic Block Store"@,
        ) {
            assert(devices[0].model is Some);
            assert forall|i: int| 0 <= i < devices.len() implies storage::device_kind(
                #[trigger] devices[i],
            ) == storage::device_kind(devices[0]) by {}
        }
    }
}

/// A disk of so many sectors has 512 bytes for each, where that is a 64-bit number.
pub proof fn sectors_have_512_bytes(n: nat)
    ensures
        n * 512 <= u64::MAX ==> bytes_of(Some(text::decimal_text(n))) == Some((n * 512) as u64),
        n * 512 > u64::MAX ==> bytes_of(Some(text::decimal_text(n))) is None,
{
    chars_laws::reading_undoes_writing(n, u64::MAX as nat);
}

/// The directory of a device has its name with exclamation marks for slashes, and the name of a
/// device is that of its directory with slashes for exclamation marks.
pub proof fn slashes_are_exclamation_marks(name: Seq<char>, disk: DiskEntry, i: int)
    ensures
        0 <= i < name.len() ==> directory_name(name).len() == name.len() && directory_name(name)[i]
            == (if name[i] == '/' {
            '!'
        } else {
            name[i]
        }),
        0 <= i < disk.name@.len() ==> device_of(disk).name.len() == disk.name@.len() && device_of(
            disk,
        ).name[i] == (if disk.name@[i] == '!' {
            '/'
        } else {
            disk.name@[i]
        }),
{
    if 0 <= i < name.len() {
        chars_laws::replacing_a_character(name, '/', '!', i);
    }
    if 0 <= i < disk.name@.len() {
        chars_laws::replacing_a_character(disk.name@, '!', '/', i);
    }
}

/// The entry of a name is the first that has it.
pub proof fn entries_are_found_by_name(disks: Seq<DiskEntry>, name: Seq<char>, from: nat)
    ensures
        match entry_of(disks, name, from) {
            Some(place) => from <= place < disks.len() && disks[place].name@ == name && forall|
                i: int,
            |
                from <= i < place ==> (#[trigger] disks[i]).name@ != name,
            None => forall|i: int| from <= i < disks.len() ==> (#[trigger] disks[i]).name@ != name,
        },
    decreases disks.len() - from,
{
    if from < disks.len() && disks[from as int].name@ != name {
        entries_are_found_by_name(disks, name, from + 1);
    }
}

/// The device is a whole disk of the list that is built from no others.
pub open spec fn is_leaf(disks: Seq<DiskEntry>, device: DeviceV) -> bool {
    exists|d: int|
        0 <= d < disks.len() && (#[trigger] disks[d]).whole && disks[d].members@.len() == 0
            && device == device_of(disks[d])
}

/// What a device is built from in the end are whole disks that are built from no others.
pub proof fn leaves_are_whole_disks(disks: Seq<DiskEntry>, name: Seq<char>, fuel: nat, i: int)
    requires
        0 <= i < leaves(disks, name, fuel).len(),
    ensures
        is_leaf(disks, leaves(disks, name, fuel)[i]),
    decreases fuel, 0nat,
{
    entries_are_found_by_name(disks, name, 0);
    let place = entry_of(disks, name, 0)->Some_0;
    let disk = disks[place];
    if !disk.whole {
        leaves_are_whole_disks(
            disks,
            directory_name(storage::parent_of(disk)->Some_0),
            (fuel - 1) as nat,
            i,
        );
    } else if disk.members@.len() == 0 {
        assert(leaves(disks, name, fuel)[i] == device_of(disks[place]));
    } else {
        let members = sort::in_order::<String>(crate::bench::pipeline::texts(disk.members@));
        all_leaves_are_whole_disks(disks, members, disk.members@.len(), (fuel - 1) as nat, i);
    }
}

proof fn all_leaves_are_whole_disks(
    disks: Seq<DiskEntry>,
    names: Seq<Seq<char>>,
    n: nat,
    fuel: nat,
    i: int,
)
    requires
        0 <= i < leaves_of_all(disks, names, n, fuel).len(),
    ensures
        is_leaf(disks, leaves_of_all(disks, names, n, fuel)[i]),
    decreases fuel, n + 1,
{
    if n > 0 {
        let before = leaves_of_all(disks, names, (n - 1) as nat, fuel);
        if i < before.len() {
            all_leaves_are_whole_disks(disks, names, (n - 1) as nat, fuel, i);
        } else {
            leaves_are_whole_disks(disks, directory_name(names[n - 1]), fuel, i - before.len());
        }
    }
}

/// A backslash and three octal digits of a code up to 255.
pub open spec fn octal_escape(s: Seq<char>) -> bool {
    &&& s.len() >= 4
    &&& s[0] == '\\'
    &&& '0' <= s[1] <= '3'
    &&& '0' <= s[2] <= '7'
    &&& '0' <= s[3] <= '7'
}

/// Decoding goes from the left: an escape gives the character of its code, and any other character
/// itself.
pub proof fn escapes_are_octal(s: Seq<char>)
    requires
        s.len() > 0,
    ensures
        octal_escape(s) ==> unescaped(s) == seq![
            ((s[1] as int - '0' as int) * 64 + (s[2] as int - '0' as int) * 8 + (s[3] as int
                - '0' as int)) as char,
        ] + unescaped(s.skip(4)),
        !octal_escape(s) ==> unescaped(s) == seq![s[0]] + unescaped(s.skip(1)),
{
}

/// An option says which directory holds the data of an overlay.
pub proof fn the_first_upper_directory_counts(options: Seq<Seq<char>>, k: int, dir: Seq<char>)
    requires
        0 <= k < options.len(),
        forall|i: int| 0 <= i < k ==> !chars::begins(#[trigger] options[i], "upperdir="@),
        options[k] == "upperdir="@ + dir,
    ensures
        upper_option(options, 0) == Some(dir),
{
    upper_from(options, 0, k as nat);
    chars_laws::beginnings_have_rests(options[k], "upperdir="@, dir);
    assert(options[k].skip("upperdir="@.len() as int) =~= dir);
}

proof fn upper_from(options: Seq<Seq<char>>, from: nat, k: nat)
    requires
        from <= k <= options.len(),
        forall|i: int| from <= i < k ==> !chars::begins(#[trigger] options[i], "upperdir="@),
    ensures
        upper_option(options, from) == upper_option(options, k),
    decreases k - from,
{
    if from < k {
        assert(!chars::begins(options[from as int], "upperdir="@));
        upper_from(options, from + 1, k);
    }
}

/// The texts hold no such character.
pub open spec fn all_lack(parts: Seq<Seq<char>>, c: char) -> bool {
    forall|i: int| 0 <= i < parts.len() ==> !(#[trigger] parts[i]).contains(c)
}

/// A hyphen between blanks.
pub open spec fn dash() -> Seq<char> {
    seq![' ', '-', ' ']
}

/// The line of a mount: fields between blanks, a hyphen between blanks, and fields again. The
/// hyphen is the first that stands so.
pub open spec fn line_of(line: Seq<char>, before: Seq<Seq<char>>, after: Seq<Seq<char>>) -> bool {
    let left = chars::joined(before, seq![' '], before.len());
    &&& before.len() > 0
    &&& after.len() > 0
    &&& all_lack(before, ' ')
    &&& all_lack(after, ' ')
    &&& line == left + dash() + chars::joined(after, seq![' '], after.len())
    &&& forall|i: int|
        0 <= i < left.len() ==> !#[trigger] chars_laws::stands_at(line, dash(), i)
}

proof fn mark_is_found(line: Seq<char>, left: Seq<char>, mark: Seq<char>, right: Seq<char>)
    requires
        line == left + mark + right,
        forall|i: int| 0 <= i < left.len() ==> !#[trigger] chars_laws::stands_at(line, mark, i),
    ensures
        chars::first_at(line, mark) == Some(left.len()),
        line.take(left.len() as int) == left,
        line.skip((left.len() + mark.len()) as int) == right,
{
    let n = left.len() as int;
    assert(line.take(n) =~= left);
    assert(line.skip(n + mark.len()) =~= right);
    assert(line.subrange(n, n + mark.len()) =~= mark);
    assert(chars_laws::stands_at(line, mark, n));
    chars_laws::the_first_place_is_found(line, mark);
}

proof fn fields_are_found(line: Seq<char>, before: Seq<Seq<char>>, after: Seq<Seq<char>>)
    requires
        line_of(line, before, after),
    ensures
        " - "@.len() == 3,
        ({
            let n = chars::joined(before, seq![' '], before.len()).len();
            &&& chars::first_at(line, " - "@) == Some(n)
            &&& chars::split_on(line.take(n as int), ' ') == before
            &&& chars::split_on(line.skip((n + 3) as int), ' ') == after
        }),
{
    let left = chars::joined(before, seq![' '], before.len());
    let right = chars::joined(after, seq![' '], after.len());
    reveal_strlit(" - ");
    assert(" - "@ =~= dash());
    mark_is_found(line, left, dash(), right);
    chars_laws::splitting_undoes_joining(before, ' ', before.len());
    chars_laws::splitting_undoes_joining(after, ' ', after.len());
    assert(before.take(before.len() as int) =~= before);
    assert(after.take(after.len() as int) =~= after);
}

/// A line's mount point is its fifth field; the filesystem type and the source are the first two
/// after the hyphen. A line that lacks one of them names no mount.
pub proof fn mounts_are_read_off_their_fields(
    line: Seq<char>,
    before: Seq<Seq<char>>,
    after: Seq<Seq<char>>,
)
    requires
        line_of(line, before, after),
    ensures
        mount_of(line) is Some <==> before.len() >= 5 && after.len() >= 2,
        mount_of(line) matches Some(mount) ==> mount.mount_point == unescaped(before[4])
            && mount.fs_type == after[0] && mount.source == unescaped(after[1]),
{
    fields_are_found(line, before, after);
}

/// The third field after the hyphen holds a mount's options, with commas between. The first of them
/// that names an upper directory counts.
pub proof fn upper_directories_are_read_off_the_options(
    line: Seq<char>,
    before: Seq<Seq<char>>,
    after: Seq<Seq<char>>,
    options: Seq<Seq<char>>,
    k: int,
    dir: Seq<char>,
)
    requires
        line_of(line, before, after),
        before.len() >= 5,
        after.len() >= 3,
        after[2] == chars::joined(options, seq![','], options.len()),
        all_lack(options, ','),
        0 <= k < options.len(),
        forall|i: int| 0 <= i < k ==> !chars::begins(#[trigger] options[i], "upperdir="@),
        options[k] == "upperdir="@ + dir,
    ensures
        mount_of(line) matches Some(mount) && mount.upper_dir == Some(unescaped(dir)),
{
    fields_are_found(line, before, after);
    chars_laws::splitting_undoes_joining(options, ',', options.len());
    assert(options.take(options.len() as int) =~= options);
    the_first_upper_directory_counts(options, k, dir);
}

/// The data of an overlay lies where its upper directory lies, and its mount point is told first
/// among those that were walked.
pub proof fn overlays_lie_where_their_upper_directories_lie(
    path: Seq<char>,
    mounts: Seq<mounts::MountV>,
    disks: Seq<DiskEntry>,
    depth: nat,
    dir: Seq<char>,
)
    requires
        mounts::covering(path, mounts, mounts.len()) matches Some(place)
            && mounts[place].upper_dir == Some(dir),
        depth < storage::MAX_OVERLAY_DEPTH,
    ensures
        ({
            let outer = storage::described(path, mounts, disks, depth);
            let inner = storage::described(dir, mounts, disks, depth + 1);
            let place = mounts::covering(path, mounts, mounts.len())->Some_0;
            &&& outer.path == path
            &&& outer.mount_point == inner.mount_point
            &&& outer.fs_type == inner.fs_type
            &&& outer.source == inner.source
            &&& outer.devices == inner.devices
            &&& outer.kind == inner.kind
            &&& outer.resolved_via == seq![mounts[place].mount_point] + inner.resolved_via
        }),
{
}

proof fn names_without_slashes_stay(name: Seq<char>)
    requires
        !name.contains('/'),
    ensures
        directory_name(name) == name,
{
    let out = directory_name(name);
    if name.len() > 0 {
        chars_laws::replacing_a_character(name, '/', '!', 0);
    }
    assert forall|i: int| 0 <= i < name.len() implies #[trigger] out[i] == name[i] by {
        chars_laws::replacing_a_character(name, '/', '!', i);
        assert(name.contains(name[i]));
    }
    assert(out =~= name);
}

/// A mount of a whole disk that is built from no others lies on that disk; a mount of a partition of
/// such a disk lies on the disk.
pub proof fn mounts_lie_on_their_disks(
    disks: Seq<DiskEntry>,
    name: Seq<char>,
    place: int,
    parent: Seq<char>,
    above: int,
)
    requires
        !name.contains('/'),
        entry_of(disks, name, 0) == Some(place),
    ensures
        disks[place].whole && disks[place].members@.len() == 0 ==> storage::source_leaves(
            disks,
            "/dev/"@ + name,
        ) == seq![device_of(disks[place])],
        !disks[place].whole && storage::parent_of(disks[place]) == Some(parent) && !parent.contains(
            '/',
        ) && entry_of(disks, parent, 0) == Some(above) && disks[above].whole
            && disks[above].members@.len() == 0 ==> storage::source_leaves(disks, "/dev/"@ + name)
            == seq![device_of(disks[above])],
{
    let source = "/dev/"@ + name;
    chars_laws::beginnings_have_rests(source, "/dev/"@, name);
    assert(source.skip("/dev/"@.len() as int) =~= name);
    names_without_slashes_stay(name);
    if !parent.contains('/') {
        names_without_slashes_stay(parent);
    }
    entries_are_found_by_name(disks, name, 0);
    let n = disks.len();
    assert(n > 0);
    assert(storage::source_leaves(disks, source) == leaves(disks, name, n + 1));
    reveal_with_fuel(leaves, 2);
}

/// What is known of a device is what its entry says: the model and whether it rotates, where they
/// are given, and its size.
pub proof fn devices_are_what_their_entries_say(disk: DiskEntry, text: Seq<char>)
    ensures
        crate::bench::pipeline::maybe_text(disk.rotational) == Some(text) && chars::trimmed(
            text,
        ).len() > 0 ==> device_of(disk).rotational == Some(chars::trimmed(text) == "1"@),
        crate::bench::pipeline::maybe_text(disk.model) == Some(text) && chars::trimmed(text).len()
            > 0 ==> device_of(disk).model == Some(chars::trimmed(text)),
        crate::bench::pipeline::maybe_text(disk.size) == Some(text) && chars::trimmed(text).len()
            > 0 ==> device_of(disk).size_bytes == bytes_of(Some(chars::trimmed(text))),
        disk.rotational is None ==> device_of(disk).rotational is None,
        disk.model is None ==> device_of(disk).model is None,
        disk.size is None ==> device_of(disk).size_bytes is None,
{
}

/// A path lies on a mount where the components of the mount point come first in its own; of the
/// mounts that it lies on that one counts whose mount point has the most components, and of several
/// such the last.
pub proof fn the_deepest_mount_counts(path: Seq<char>, mounts: Seq<mounts::MountV>, i: int)
    requires
        0 <= i < mounts.len(),
    ensures
        ({
            let all = components(path, true);
            let first = components(mounts[i].mount_point, true);
            let on_it = first.len() <= all.len() && all.take(first.len() as int) == first;
            match mounts::covering(path, mounts, mounts.len()) {
                Some(best) => {
                    let found = components(mounts[best].mount_point, true);
                    &&& 0 <= best < mounts.len()
                    &&& found.len() <= all.len() && all.take(found.len() as int) == found
                    &&& on_it ==> first.len() <= found.len() && (i > best ==> first.len()
                        < found.len())
                },
                None => !on_it,
            }
        }),
{
    mounts::covering_mount_is_longest(path, mounts, mounts.len());
    below_goes_by_components(path, mounts[i].mount_point, true);
    match mounts::covering(path, mounts, mounts.len()) {
        Some(best) => {
            below_goes_by_components(path, mounts[best].mount_point, true);
            assert(mounts::covers(mounts[i], path) ==> mounts::depth_of(mounts[i])
                <= mounts::depth_of(mounts[best]));
        },
        None => {
            assert(!mounts::covers(mounts[i], path));
        },
    }
}

/// The disk of a name is a whole one that is built from no others.
pub open spec fn plain_disk(disks: Seq<DiskEntry>, name: Seq<char>, device: DeviceV) -> bool {
    entry_of(disks, name, 0) matches Some(d) && disks[d].whole && disks[d].members@.len() == 0
        && device == device_of(disks[d])
}

proof fn members_in_turn(
    disks: Seq<DiskEntry>,
    names: Seq<Seq<char>>,
    devices: Seq<DeviceV>,
    n: nat,
    fuel: nat,
)
    requires
        n <= names.len(),
        names.len() == devices.len(),
        fuel > 0,
        forall|i: int|
            0 <= i < names.len() ==> plain_disk(
                disks,
                directory_name(#[trigger] names[i]),
                devices[i],
            ),
    ensures
        leaves_of_all(disks, names, n, fuel) == devices.take(n as int),
    decreases n,
{
    if n > 0 {
        let m = (n - 1) as nat;
        members_in_turn(disks, names, devices, m, fuel);
        assert(plain_disk(disks, directory_name(names[m as int]), devices[m as int]));
        assert(leaves(disks, directory_name(names[m as int]), fuel) == seq![devices[m as int]]);
        assert(devices.take(n as int) =~= devices.take(m as int) + seq![devices[m as int]]);
    } else {
        assert(devices.take(0) =~= Seq::empty());
    }
}

/// An array of plain disks is built from all of them, in the order of their names.
pub proof fn arrays_are_built_from_their_members(
    disks: Seq<DiskEntry>,
    name: Seq<char>,
    place: int,
    devices: Seq<DeviceV>,
    fuel: nat,
)
    requires
        fuel > 1,
        entry_of(disks, name, 0) == Some(place),
        disks[place].whole,
        disks[place].members@.len() > 0,
        ({
            let names = sort::in_order::<String>(
                crate::bench::pipeline::texts(disks[place].members@),
            );
            names.len() == devices.len() && forall|i: int|
                0 <= i < names.len() ==> plain_disk(
                    disks,
                    directory_name(#[trigger] names[i]),
                    devices[i],
                )
        }),
    ensures
        leaves(disks, name, fuel) == devices,
        devices.len() == disks[place].members@.len(),
{
    let texts = crate::bench::pipeline::texts(disks[place].members@);
    let names = sort::in_order::<String>(texts);
    sort::order_is_kept::<String>(texts);
    members_in_turn(disks, names, devices, names.len(), (fuel - 1) as nat);
    assert(devices.take(devices.len() as int) =~= devices);
}

} // verus!
