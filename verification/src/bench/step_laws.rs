//! What the generators' steps do, said of the programs, files and directories in them.

use vstd::prelude::*;
use vstd::relations::sorted_by;

use crate::bench::command::CommandV;
use crate::bench::format::Format;
use crate::bench::path::{self, joined_path};
use crate::bench::path_laws;
use crate::bench::public_bi::{all_entries, by_name, dataset_of, named_places, queries_of, query_number, table_of_url, tables_model, tables_of_urls, tables_read, BenchmarkV, NamedPlace, Table};
use crate::bench::public_bi_dataset::PBIDataset;
use crate::bench::random_access::{directory_url, remote_url};
use crate::bench::setup::spelled_list;
use crate::bench::ssb::{build_steps, columns_text, copy_text, csv_columns, expectations, ssb_schema, table_steps, tbl_file, write_steps, SsbStepV, TableV};
use crate::bench::storage::{attribute, device_names, device_shown, devices_shown, first_existing, source_leaves, DeviceV, DiskEntry, StorageKind};
use crate::bench::tpch::{output_path, scratch_path, table_command};
use crate::chars;
use crate::location;
use crate::sort;

verus! {

/// An argument follows a flag.
pub open spec fn flagged(command: CommandV, flag: Seq<char>, arg: Seq<char>) -> bool {
    exists|i: int|
        0 <= i < command.args.len() - 1 && #[trigger] command.args[i] == flag && command.args[i + 1]
            == arg
}

/// The step runs a program with this first argument.
pub open spec fn runs(step: SsbStepV, program: Seq<char>, first: Seq<char>) -> bool {
    step matches SsbStepV::Run(command) && command.program == program && command.args.len() > 0
        && command.args[0] == first
}

/// A generator that is built is not built again. Otherwise its source is fetched first, unless it is
/// checked out; what is checked out is configured and built, and the program is expected in the end.
pub proof fn generators_are_built_once(data_dir: Seq<char>, built: bool, cloned: bool)
    ensures
        built ==> build_steps(data_dir, built, cloned).len() == 0,
        !built ==> {
            let steps = build_steps(data_dir, built, cloned);
            let n = steps.len() as int;
            let dir = joined_path(data_dir, "ssb-dbgen"@);
            let build = joined_path(dir, "build"@);
            &&& n == if cloned {
                4int
            } else {
                6int
            }
            &&& !cloned ==> runs(steps[1], "git"@, "clone"@) && steps[1]->Run_0.args.last() == dir
            &&& steps[n - 4] matches SsbStepV::Run(checkout) && flagged(checkout, "-C"@, dir)
            &&& steps[n - 3] matches SsbStepV::Run(configure) && flagged(configure, "-S"@, dir)
                && flagged(configure, "-B"@, build)
            &&& steps[n - 2] matches SsbStepV::Run(make) && flagged(make, "--build"@, build)
            &&& steps[n - 1] matches SsbStepV::Expect { file, complaint } && file == joined_path(
                build,
                "dbgen"@,
            )
        },
{
    if !built {
        let steps = build_steps(data_dir, built, cloned);
        let n = steps.len() as int;
        assert(steps[n - 4]->Run_0.args[0] == "-C"@);
        assert(steps[n - 3]->Run_0.args[0] == "-S"@);
        assert(steps[n - 3]->Run_0.args[2] == "-B"@);
        assert(steps[n - 2]->Run_0.args[0] == "--build"@);
    }
}

proof fn expected_files(tables: Seq<TableV>, dir: Seq<char>, n: nat, i: int)
    requires
        0 <= i < n <= tables.len(),
    ensures
        expectations(tables, dir, n).len() == n,
        expectations(tables, dir, n)[i] matches SsbStepV::Expect { file, complaint } && file
            == tbl_file(dir, tables[i]),
    decreases n,
{
    if i < n - 1 {
        expected_files(tables, dir, (n - 1) as nat, i);
    } else if n > 1 {
        expected_files(tables, dir, (n - 1) as nat, 0);
    } else {
        assert(expectations(tables, dir, 0).len() == 0);
    }
}

/// Where every table is there, only its directory is made. Otherwise the generator writes the
/// tables into a directory of its own, at the scale asked for; each table's file is expected there
/// before they are converted, and the directory is removed in the end.
pub proof fn tables_are_generated_where_one_is_missing(
    scale_factor: Seq<char>,
    base_dir: Seq<char>,
    data_dir: Seq<char>,
    present: Seq<bool>,
    built: bool,
    cloned: bool,
    i: int,
)
    requires
        0 <= i < ssb_schema().len(),
    ensures
        ({
            let steps = table_steps(scale_factor, base_dir, data_dir, present, built, cloned);
            let n = steps.len() as int;
            let k = ssb_schema().len() as int;
            let tbl_dir = joined_path(base_dir, "tbl"@);
            &&& steps[0] == SsbStepV::CreateDir(joined_path(base_dir, "parquet"@))
            &&& !present.contains(false) ==> n == 1
            &&& present.contains(false) ==> {
                &&& n > k + 4
                &&& steps[n - 1] == SsbStepV::RemoveDir(tbl_dir)
                &&& runs(steps[n - 2], "duckdb"@, "-c"@)
                &&& steps[n - 2 - k + i] matches SsbStepV::Expect { file, complaint } && file
                    == tbl_file(tbl_dir, ssb_schema()[i])
                &&& steps[n - 3 - k] matches SsbStepV::Run(generator) && flagged(
                    generator,
                    "-s"@,
                    scale_factor,
                ) && generator.env.contains(("DSS_PATH"@, tbl_dir))
                &&& steps[n - 4 - k] == SsbStepV::CreateDir(tbl_dir)
            }
        }),
{
    let steps = table_steps(scale_factor, base_dir, data_dir, present, built, cloned);
    let n = steps.len() as int;
    let k = ssb_schema().len() as int;
    let tbl_dir = joined_path(base_dir, "tbl"@);
    expected_files(ssb_schema(), tbl_dir, ssb_schema().len(), i);
    if present.contains(false) {
        let build = build_steps(data_dir, built, cloned);
        let written = write_steps(data_dir, tbl_dir, scale_factor, built, cloned);
        assert(written.len() == build.len() + 2 + k);
        assert(steps.len() == 1 + written.len() + 2);
        assert(steps[n - 2 - k + i] == written[build.len() + 2 + i]);
        assert(steps[n - 3 - k] == written[build.len() as int + 1]);
        assert(steps[n - 4 - k] == written[build.len() as int]);
        let generator = steps[n - 3 - k]->Run_0;
        assert(generator.args[0] == "-s"@);
        assert(generator.env[1] == ("DSS_PATH"@, tbl_dir));
    }
}

/// The generator is told which table to make, at which scale, and where to; it is the program that
/// is named, where one is.
pub proof fn tables_are_generated_one_by_one(
    cli: Option<Seq<char>>,
    table: Seq<char>,
    scale_factor: Seq<char>,
    output_dir: Seq<char>,
)
    ensures
        ({
            let command = table_command(cli, table, scale_factor, output_dir);
            &&& flagged(command, "--tables"@, table)
            &&& flagged(command, "-s"@, scale_factor)
            &&& flagged(command, "--output-dir"@, output_dir)
            &&& cli matches Some(program) ==> command.program == program
            &&& cli is None ==> command.program == "uvx"@
        }),
{
    let command = table_command(cli, table, scale_factor, output_dir);
    let n = command.args.len() as int;
    assert(command.args[n - 8] == "-s"@);
    assert(command.args[n - 6] == "--tables"@);
    assert(command.args[n - 4] == "--output-dir"@);
}

/// Different tables have different files.
pub proof fn tables_have_their_own_files(dir: Seq<char>, a: Seq<char>, b: Seq<char>)
    requires
        a.len() > 0,
        b.len() > 0,
        a[0] != '/',
        b[0] != '/',
    ensures
        output_path(dir, a) == output_path(dir, b) <==> a == b,
{
    reveal_strlit("_0.parquet");
    let x = a + "_0.parquet"@;
    let y = b + "_0.parquet"@;
    assert(x[0] == a[0] && y[0] == b[0]);
    path_laws::joined_paths_hold_both(dir, x);
    path_laws::joined_paths_hold_both(dir, y);
    if output_path(dir, a) == output_path(dir, b) {
        assert(x == y);
        assert(x.take(a.len() as int) =~= a);
        assert(y.take(b.len() as int) =~= b);
    }
}

/// An attribute is what is left of its text without the white space around it; where nothing is left
/// there is none.
pub proof fn attributes_are_trimmed(text: Seq<char>)
    ensures
        attribute(None) is None,
        attribute(Some(text)) is None <==> chars::trimmed(text).len() == 0,
        attribute(Some(text)) matches Some(found) ==> found == chars::trimmed(text),
{
}

/// The first of the ancestors that exists stands for the path; where none does, the path itself.
pub proof fn the_nearest_ancestor_counts(path: Seq<char>, ancestors: Seq<Option<String>>, k: int)
    requires
        0 <= k <= ancestors.len(),
        forall|i: int| 0 <= i < k ==> (#[trigger] ancestors[i]) is None,
    ensures
        k == ancestors.len() ==> first_existing(path, ancestors, 0) == path,
        k < ancestors.len() && ancestors[k] is Some ==> first_existing(path, ancestors, 0)
            == ancestors[k]->Some_0@,
{
    ancestor_from(path, ancestors, 0, k as nat);
}

proof fn ancestor_from(path: Seq<char>, ancestors: Seq<Option<String>>, from: nat, k: nat)
    requires
        from <= k <= ancestors.len(),
        forall|i: int| from <= i < k ==> (#[trigger] ancestors[i]) is None,
    ensures
        first_existing(path, ancestors, from) == first_existing(path, ancestors, k),
    decreases k - from,
{
    if from < k {
        assert(ancestors[from as int] is None);
        ancestor_from(path, ancestors, from + 1, k);
    }
}

/// A source that is not below the directory of devices has no devices.
pub proof fn only_devices_have_leaves(disks: Seq<DiskEntry>, source: Seq<char>)
    requires
        !chars::begins(source, "/dev/"@),
    ensures
        source_leaves(disks, source).len() == 0,
{
}

/// No two kinds of storage are shown alike.
pub proof fn kinds_are_shown_apart(a: StorageKind, b: StorageKind)
    ensures
        a.shown() == b.shown() <==> a == b,
{
    reveal_strlit("local-nvme");
    reveal_strlit("network-block-store");
    reveal_strlit("memory");
    reveal_strlit("unknown");
    assert(a.shown().len() == b.shown().len() ==> a == b);
}

/// Devices are shown one after the other, with a comma and a blank between them, and named with a
/// comma between them.
pub proof fn devices_are_listed(devices: Seq<DeviceV>, n: nat)
    requires
        n <= devices.len(),
    ensures
        devices_shown(devices, n) == chars::joined(
            Seq::new(devices.len(), |i: int| device_shown(devices[i])),
            ", "@,
            n,
        ),
        device_names(devices, n) == chars::joined(
            Seq::new(devices.len(), |i: int| devices[i].name),
            ","@,
            n,
        ),
    decreases n,
{
    if n > 0 {
        devices_are_listed(devices, (n - 1) as nat);
    }
}

/// Formats are spelled one after the other, with a comma and a blank between them.
pub proof fn formats_are_listed(formats: Seq<Format>, n: nat)
    requires
        n <= formats.len(),
    ensures
        spelled_list(formats, n) == chars::joined(
            Seq::new(formats.len(), |i: int| formats[i].spelled()),
            ", "@,
            n,
        ),
    decreases n,
{
    reveal_strlit("");
    assert(""@ =~= Seq::empty());
    if n > 0 {
        formats_are_listed(formats, (n - 1) as nat);
    }
}

/// Data sets by name are the same data sets, in the order of their names.
pub proof fn data_sets_are_listed_by_name(listed: Seq<(PBIDataset, BenchmarkV)>, i: int, j: int)
    requires
        0 <= i < j < listed.len(),
    ensures
        by_name(listed).len() == listed.len(),
        sort::text_le(by_name(listed)[i].name, by_name(listed)[j].name, 0),
        exists|k: int| 0 <= k < listed.len() && by_name(listed)[i] == (#[trigger] listed[k]).1,
{
    let held = named_places(listed);
    sort::order_is_kept::<NamedPlace>(held);
    let places = sort::in_order::<NamedPlace>(held);
    let leq = sort::order_of::<NamedPlace>();
    assert(sorted_by(places, leq));
    assert(leq(places[i], places[j]));
    assert(held.contains(places[i])) by {
        assert(places.contains(places[i]));
    }
    assert(held.contains(places[j])) by {
        assert(places.contains(places[j]));
    }
    let p = choose|p: int| 0 <= p < held.len() && held[p] == places[i];
    let q = choose|q: int| 0 <= q < held.len() && held[q] == places[j];
    assert(by_name(listed)[i] == listed[p].1);
    assert(by_name(listed)[j] == listed[q].1);
    if places[i].0 == places[j].0 {
        sort::texts_are_total(places[i].0, places[i].0, 0);
    }
}

/// Queries are read file by file: where every file has a number, each query has its file's number
/// and text, and otherwise there are none.
pub proof fn queries_are_read_file_by_file(files: Seq<(String, String)>, n: nat)
    requires
        n <= files.len(),
    ensures
        queries_of(files, n) is Ok <==> forall|i: int|
            0 <= i < n ==> query_number((#[trigger] files[i]).0@) is Ok,
        queries_of(files, n) matches Ok(queries) ==> queries.len() == n && forall|i: int|
            0 <= i < n ==> (#[trigger] queries[i]).1 == files[i].1@ && query_number(files[i].0@)
                == Ok::<nat, Seq<char>>(queries[i].0),
    decreases n,
{
    if n > 0 {
        queries_are_read_file_by_file(files, (n - 1) as nat);
        assert(queries_of(files, n) is Ok ==> query_number(files[n - 1].0@) is Ok);
    }
}

/// Tables are read line by line: where every line names one, each table is its line's, and otherwise
/// there are none.
pub proof fn tables_are_read_line_by_line(urls: Seq<Seq<char>>, n: nat)
    requires
        n <= urls.len(),
    ensures
        tables_of_urls(urls, n) is Some <==> forall|i: int|
            0 <= i < n ==> table_of_url(#[trigger] urls[i]) is Some,
        tables_of_urls(urls, n) matches Some(tables) ==> tables.len() == n && forall|i: int|
            0 <= i < n ==> table_of_url(urls[i]) == Some(#[trigger] tables[i]),
    decreases n,
{
    if n > 0 {
        tables_are_read_line_by_line(urls, (n - 1) as nat);
        assert(tables_of_urls(urls, n) is Some ==> table_of_url(urls[n - 1]) is Some);
    }
}

/// A remote directory's path ends in a slash: one is added where there is none.
pub proof fn remote_directories_end_in_a_slash(
    url: Seq<char>,
    text: Seq<char>,
    path: Seq<char>,
    opaque: bool,
)
    requires
        location::url_read(url) == Ok::<(Seq<char>, Seq<char>, bool), Seq<char>>(
            (text, path, opaque),
        ),
        location::stays_small(text.len(), path.len(), path.push('/')),
    ensures
        path.len() > 0 && path.last() == '/' ==> directory_url(url) == Ok::<
            (Seq<char>, Seq<char>, bool),
            Seq<char>,
        >((text, path, opaque)),
        !(path.len() > 0 && path.last() == '/') ==> directory_url(url) == location::url_with_path(
            url,
            path.push('/'),
        ),
{
    reveal_strlit("/");
    assert(path + "/"@ =~= path.push('/'));
}

/// A local path has a remote URL exactly where it lies below the data directory and the rest of it
/// can be joined to the remote directory.
pub proof fn only_paths_below_the_directory_are_remote(
    directory: Seq<char>,
    local_path: Seq<char>,
    data_dir: Seq<char>,
)
    ensures
        remote_url(directory, local_path, data_dir) is Ok <==> (path::below(
            local_path,
            data_dir,
            true,
        ) matches Some(rest) && location::url_joined(directory, rest) is Ok),
        remote_url(directory, local_path, data_dir) matches Ok(found) ==> location::url_joined(
            directory,
            path::below(local_path, data_dir, true)->Some_0,
        ) == Ok::<(Seq<char>, Seq<char>, bool), Seq<char>>(found),
{
}

/// The statement that converts a table reads what the generator wrote of it, leaves out the column
/// that only ends its lines, and writes the table's Parquet.
pub proof fn conversions_read_what_was_written(table: TableV, tbl_dir: Seq<char>, parquet_dir: Seq<char>)
    ensures
        chars::begins(
            copy_text(table, tbl_dir, parquet_dir),
            "COPY (SELECT * EXCLUDE (dummy) FROM read_csv('"@ + joined_path(
                tbl_dir,
                table.tbl_stem + ".tbl"@,
            ) + "'"@,
        ),
        chars::ends(
            copy_text(table, tbl_dir, parquet_dir),
            " TO '"@ + joined_path(parquet_dir, table.name + ".parquet"@)
                + "' (FORMAT PARQUET);\n"@,
        ),
{
    reveal_strlit("', delim='|', header=false, columns={");
    reveal_strlit("'");
    reveal_strlit("})) TO '");
    reveal_strlit(" TO '");
    let text = copy_text(table, tbl_dir, parquet_dir);
    let start = "COPY (SELECT * EXCLUDE (dummy) FROM read_csv('"@ + joined_path(
        tbl_dir,
        table.tbl_stem + ".tbl"@,
    ) + "'"@;
    assert(text.take(start.len() as int) =~= start);
    let end = " TO '"@ + joined_path(parquet_dir, table.name + ".parquet"@)
        + "' (FORMAT PARQUET);\n"@;
    assert(text.skip(text.len() - end.len()) =~= end);
}

/// A column as it is specified: its name and its type.
pub open spec fn column_text(column: (Seq<char>, Seq<char>)) -> Seq<char> {
    "'"@ + column.0 + "':'"@ + column.1 + "'"@
}

/// The columns of a table are specified one after the other, with commas between them, and after
/// them the one that only ends its lines.
pub proof fn columns_are_specified_in_turn(table: TableV)
    ensures
        csv_columns(table) == chars::joined(
            Seq::new(table.columns.len(), |i: int| column_text(table.columns[i])).push(
                column_text(("dummy"@, "VARCHAR"@)),
            ),
            ","@,
            table.columns.len() + 1,
        ),
{
    reveal_strlit("'");
    reveal_strlit("':'");
    reveal_strlit("',");
    reveal_strlit(",");
    reveal_strlit("dummy");
    reveal_strlit("VARCHAR");
    reveal_strlit("'dummy':'VARCHAR'");
    let columns = table.columns;
    let last = column_text(("dummy"@, "VARCHAR"@));
    let all = Seq::new(columns.len(), |i: int| column_text(columns[i])).push(last);
    assert(last =~= "'dummy':'VARCHAR'"@);
    columns_so_far(columns, all, columns.len());
    if columns.len() == 0 {
        assert(csv_columns(table) =~= chars::joined(all, ","@, 1));
    } else {
        assert(csv_columns(table) =~= chars::joined(all, ","@, columns.len() + 1));
    }
}

proof fn columns_so_far(columns: Seq<(Seq<char>, Seq<char>)>, all: Seq<Seq<char>>, n: nat)
    requires
        n <= columns.len() < all.len(),
        forall|i: int| 0 <= i < columns.len() ==> #[trigger] all[i] == column_text(columns[i]),
    ensures
        n > 0 ==> columns_text(columns, n) == chars::joined(all, ","@, n) + ","@,
        n == 0 ==> columns_text(columns, n).len() == 0,
    decreases n,
{
    reveal_strlit("'");
    reveal_strlit("':'");
    reveal_strlit("',");
    reveal_strlit(",");
    if n > 0 {
        let m = (n - 1) as nat;
        columns_so_far(columns, all, m);
        assert(all[m as int] == column_text(columns[m as int]));
        assert("',"@ =~= "'"@ + ","@);
        assert(columns_text(columns, n) =~= columns_text(columns, m) + column_text(
            columns[m as int],
        ) + ","@);
        assert(columns_text(columns, n) =~= chars::joined(all, ","@, n) + ","@);
    }
}

/// Jobs of different ids write into different directories.
pub proof fn jobs_write_apart(dir: Seq<char>, table: Seq<char>, a: Seq<char>, b: Seq<char>)
    ensures
        scratch_path(dir, table, a) == scratch_path(dir, table, b) <==> a == b,
{
    reveal_strlit(".");
    reveal_strlit("-tpchgen-");
    let front = "."@ + table + "-tpchgen-"@;
    path_laws::joined_paths_hold_both(dir, front + a);
    path_laws::joined_paths_hold_both(dir, front + b);
    if scratch_path(dir, table, a) == scratch_path(dir, table, b) {
        assert(front + a == front + b);
        assert((front + a).skip(front.len() as int) =~= a);
        assert((front + b).skip(front.len() as int) =~= b);
    }
}

/// Tables are read where the statement of each is there; each has its own name, URL and statement.
pub proof fn tables_have_their_own_statements(
    urls: Seq<(Seq<char>, Seq<char>)>,
    statements: Seq<Option<String>>,
    n: nat,
)
    requires
        n <= urls.len(),
        n <= statements.len(),
    ensures
        tables_read(urls, statements, n) is Some <==> forall|i: int|
            0 <= i < n ==> (#[trigger] statements[i]) is Some,
        tables_read(urls, statements, n) matches Some(tables) ==> tables.len() == n && forall|i: int|
            0 <= i < n ==> (#[trigger] tables[i]).name == urls[i].0 && tables[i].data_url
                == urls[i].1 && statements[i] is Some && tables[i].create_table_sql
                == statements[i]->Some_0@,
    decreases n,
{
    if n > 0 {
        tables_have_their_own_statements(urls, statements, (n - 1) as nat);
        assert(tables_read(urls, statements, n) is Some ==> statements[n - 1] is Some);
    }
}

/// The tables of all data sets are listed where each directory is a data set's; each is one of the
/// tables of one of them.
pub proof fn entries_come_from_their_data_sets(
    benchmarks: Seq<BenchmarkV>,
    tables: Seq<Vec<Table>>,
    n: nat,
    k: int,
)
    requires
        n <= benchmarks.len(),
        n <= tables.len(),
    ensures
        all_entries(benchmarks, tables, n) is Ok <==> forall|i: int|
            0 <= i < n ==> dataset_of((#[trigger] benchmarks[i]).name) is Some,
        all_entries(benchmarks, tables, n) matches Ok(entries) ==> (0 <= k < entries.len()
            ==> exists|i: int, j: int|
            0 <= i < n && 0 <= j < tables[i]@.len() && entries[k].table_name
                == (#[trigger] tables_model(tables[i]@)[j]).name && dataset_of(benchmarks[i].name)
                == Some(entries[k].dataset)),
    decreases n,
{
    if n > 0 {
        let m = (n - 1) as nat;
        entries_come_from_their_data_sets(benchmarks, tables, m, k);
        assert(all_entries(benchmarks, tables, n) is Ok ==> dataset_of(benchmarks[n - 1].name)
            is Some);
        if let Ok(entries) = all_entries(benchmarks, tables, n) {
            let before = all_entries(benchmarks, tables, m)->Ok_0;
            if before.len() <= k < entries.len() {
                let j = k - before.len();
                let own = tables_model(tables[n - 1]@);
                assert(entries[k].table_name == own[j].name);
            }
        }
    }
}

/// A path takes a byte for each character that a URL holds as it is, and at most twelve for each
/// other one: letters, digits and slashes are of the first kind, blanks and what lies outside of
/// ASCII of the second.
pub proof fn paths_cost_by_their_characters(a: Seq<char>, b: Seq<char>, c: char)
    ensures
        location::path_cost(a + b) == location::path_cost(a) + location::path_cost(b),
        'a' <= c <= 'z' || 'A' <= c <= 'Z' || '0' <= c <= '9' || c == '/' || c == '.' || c == '-' || c
            == '_' ==> location::path_cost(seq![c]) == 1,
        c <= ' ' || c > '~' ==> location::path_cost(seq![c]) == 12,
    decreases b.len(),
{
    if b.len() > 0 {
        paths_cost_by_their_characters(a, b.drop_last(), c);
        assert((a + b).drop_last() =~= a + b.drop_last());
    } else {
        assert(a + b =~= a);
    }
    assert(seq![c].drop_last() =~= Seq::empty());
    assert(location::path_cost(Seq::empty()) == 0);
}

/// Tables are generated under the names that they are registered by, except for the dates, whose
/// registered name says that they belong to the warehouse.
pub proof fn stems_are_names(i: int)
    requires
        0 <= i < ssb_schema().len(),
    ensures
        ssb_schema()[i].tbl_stem == ssb_schema()[i].name || ssb_schema()[i].name == "dw"@
            + ssb_schema()[i].tbl_stem,
{
    reveal_strlit("dw");
    reveal_strlit("date");
    reveal_strlit("dwdate");
    assert("dw"@ + "date"@ =~= "dwdate"@);
}

} // verus!
