//! What is made of Public BI's files, said of their names and of the steps.

use vstd::prelude::*;
use vstd::relations::sorted_by;

use crate::bench::format::Format;
use crate::bench::format_laws;
use crate::bench::path_laws;
use crate::bench::public_bi::{file_name, file_of, own_entries, parquet_steps, query_number, stage_step, table_in_path, table_parquet_steps, FileType, PbiStepV, Query, Stage, TableV};
use crate::bench::public_bi_dataset::PBIDataset;
use crate::bench::random_access::{data_path_text, row_group_rows, MAX_BATCHES_PER_ROW_GROUP, PARQUET_READ_BATCH_SIZE, TARGET_ROW_GROUP_BYTES};
use crate::bench::statement_laws;
use crate::chars;
use crate::chars_laws;
use crate::sort;
use crate::text;

verus! {

/// A query's file is named by its number, with the extension of SQL; a file with another extension
/// is none.
pub proof fn queries_are_named_by_number(n: nat, name: Seq<char>)
    ensures
        n <= usize::MAX ==> query_number(text::decimal_text(n) + ".sql"@) == Ok::<nat, Seq<char>>(
            n,
        ),
        query_number(name) is Ok ==> name.len() > 4 && name.skip(name.len() - 4) == ".sql"@,
{
    reveal_strlit(".sql");
    let digits = text::decimal_text(n);
    let file = digits + ".sql"@;
    assert(file.skip(file.len() - 4) =~= ".sql"@);
    assert(file.take(file.len() - 4) =~= digits);
    chars_laws::reading_undoes_writing(n, usize::MAX as nat);
    if query_number(name) is Ok {
        let stem = name.take(name.len() - 4);
        chars_laws::numbers_are_digits(stem, usize::MAX as nat);
    }
}

/// Queries in order ascend by their numbers.
pub proof fn queries_ascend_by_number(queries: Seq<(nat, Seq<char>)>, i: int, j: int)
    requires
        0 <= i <= j < queries.len(),
    ensures
        sort::in_order::<Query>(queries).len() == queries.len(),
        sort::in_order::<Query>(queries).to_multiset() == queries.to_multiset(),
        sort::in_order::<Query>(queries)[i].0 <= sort::in_order::<Query>(queries)[j].0,
{
    sort::order_is_kept::<Query>(queries);
    let s = sort::in_order::<Query>(queries);
    let leq = sort::order_of::<Query>();
    assert(sorted_by(s, leq));
    if i < j {
        assert(leq(s[i], s[j]));
    }
}

/// A table is named by the last segment of its URL's path, which ends as compressed text does, with
/// that ending left out.
pub proof fn tables_are_named_by_the_last_segment(dir: Seq<char>, name: Seq<char>)
    requires
        dir.len() == 0 || dir[0] == '/',
        !name.contains('/'),
    ensures
        table_in_path(dir + seq!['/'] + name + ".csv.bz2"@) == Some(name),
        table_in_path(dir + seq!['/'] + name) is Some ==> name.len() >= 8 && name.skip(
            name.len() - 8,
        ) == ".csv.bz2"@,
{
    reveal_strlit(".csv.bz2");
    let file = name + ".csv.bz2"@;
    assert forall|i: int| 0 <= i < name.len() implies #[trigger] name[i] != '/' by {
        if name[i] == '/' {
            assert(name.contains('/'));
        }
    }
    assert forall|i: int| 0 <= i < file.len() implies #[trigger] file[i] != '/' by {
        if i < name.len() {
            assert(file[i] == name[i]);
        } else {
            assert(file[i] == ".csv.bz2"@[i - name.len()]);
        }
    }
    last_segment(dir, file);
    last_segment(dir, name);
    assert(dir + seq!['/'] + name + ".csv.bz2"@ =~= dir + seq!['/'] + file);
    assert(file.skip(file.len() - 8) =~= ".csv.bz2"@);
    assert(file.take(file.len() - 8) =~= name);
}

proof fn last_segment(dir: Seq<char>, file: Seq<char>)
    requires
        dir.len() == 0 || dir[0] == '/',
        forall|i: int| 0 <= i < file.len() ==> #[trigger] file[i] != '/',
    ensures
        ({
            let path = dir + seq!['/'] + file;
            path.len() > 0 && path[0] == '/' && chars::split_on(path.skip(1), '/').last() == file
        }),
{
    let path = dir + seq!['/'] + file;
    if dir.len() == 0 {
        assert(path.skip(1) =~= file);
        statement_laws::unsplit(file, '/');
    } else {
        let rest = dir.skip(1);
        assert(path.skip(1) =~= rest.push('/') + file);
        statement_laws::split_at_last(rest, file, '/');
    }
}

/// The only table of a data set goes by the data set's name. Where there are several, each goes by
/// that name, a slash and its own, so that tables of different names are told apart.
pub proof fn entries_are_told_apart(
    name: Seq<char>,
    dataset: PBIDataset,
    tables: Seq<TableV>,
    i: int,
    j: int,
)
    requires
        0 <= i < tables.len(),
        0 <= j < tables.len(),
    ensures
        own_entries(name, dataset, tables).len() == tables.len(),
        own_entries(name, dataset, tables)[i].dataset == dataset,
        own_entries(name, dataset, tables)[i].table_name == tables[i].name,
        tables.len() == 1 ==> own_entries(name, dataset, tables)[i].name == name,
        tables.len() > 1 ==> {
            let entry = own_entries(name, dataset, tables)[i].name;
            &&& entry.len() == name.len() + 1 + tables[i].name.len()
            &&& entry.take(name.len() as int) == name
            &&& entry[name.len() as int] == '/'
            &&& entry.skip(name.len() as int + 1) == tables[i].name
        },
        own_entries(name, dataset, tables)[i].name == own_entries(name, dataset, tables)[j].name
            <==> tables[i].name == tables[j].name || tables.len() == 1,
{
    reveal_strlit("/");
    let entries = own_entries(name, dataset, tables);
    if tables.len() > 1 {
        let n = name.len() as int;
        assert(entries[i].name.take(n) =~= name);
        assert(entries[i].name.skip(n + 1) =~= tables[i].name);
        assert(entries[j].name.skip(n + 1) =~= tables[j].name);
    }
}

/// Where a step leaves its file; nothing for a step that is none of these.
pub open spec fn leaves_file(step: PbiStepV) -> Seq<char> {
    match step {
        PbiStepV::Download { url, path } => path,
        PbiStepV::Decompress { from, to } => to,
        PbiStepV::ToParquet { table, from, to } => to,
        PbiStepV::ToVortex { table, from, to } => to,
    }
}

/// Each step to a table reads what the step before it left: what was downloaded is decompressed,
/// what was decompressed becomes Parquet, and the Parquet becomes Vortex. What is downloaded is the
/// table's data, and a conversion is told which table it is for.
pub proof fn steps_read_what_was_left(base: Seq<char>, table: TableV, place: int)
    ensures
        stage_step(base, table, place, Stage::Download) matches PbiStepV::Download { url, path }
            && url == table.data_url,
        stage_step(base, table, place, Stage::Decompress) matches PbiStepV::Decompress { from, to }
            && from == leaves_file(stage_step(base, table, place, Stage::Download)),
        stage_step(base, table, place, Stage::ToParquet) matches PbiStepV::ToParquet {
            table: t,
            from,
            to,
        } && t == place && from == leaves_file(stage_step(base, table, place, Stage::Decompress)),
        stage_step(base, table, place, Stage::ToVortex) matches PbiStepV::ToVortex {
            table: t,
            from,
            to,
        } && t == place && from == leaves_file(stage_step(base, table, place, Stage::ToParquet)),
{
}

/// The extension that files of a type have.
pub open spec fn type_extension(file_type: FileType) -> Seq<char> {
    match file_type {
        FileType::CsvBzip2 => "csv.bz2"@,
        FileType::Csv => Format::Csv.ext_text(),
        FileType::Parquet => Format::Parquet.ext_text(),
        FileType::Vortex => Format::OnDiskVortex.ext_text(),
    }
}

/// A table's file lies in its type's directory below the data set's, under the table's name with
/// the type's extension.
pub proof fn files_lie_in_their_directories(base: Seq<char>, table: Seq<char>, file_type: FileType)
    requires
        base.len() > 0,
        base.last() != '/',
        table.len() > 0,
        !table.contains('.'),
        !table.contains('/'),
    ensures
        file_of(base, table, file_type) == base + seq!['/'] + (if file_type is CsvBzip2 {
            "csv_bzip2"@
        } else {
            type_extension(file_type)
        }) + seq!['/'] + table + seq!['.'] + type_extension(file_type),
{
    reveal_strlit("csv_bzip2");
    reveal_strlit("csv");
    reveal_strlit("parquet");
    reveal_strlit("vortex");
    reveal_strlit("/");
    let label = file_type.label();
    let dir = crate::bench::path::joined_path(base, label);
    assert("/"@ =~= seq!['/']);
    assert(dir == base + "/"@ + label);
    assert(dir.last() == label.last());
    path_laws::files_are_placed_by_name(dir, table, file_type.suffix());
}

/// Every table is downloaded, decompressed and converted; no table is decompressed before all are
/// downloaded, nor converted before all are decompressed.
pub proof fn tables_go_stage_by_stage(base: Seq<char>, tables: Seq<TableV>, i: int)
    requires
        0 <= i < tables.len(),
    ensures
        ({
            let n = tables.len() as int;
            let steps = parquet_steps(base, tables);
            &&& steps.len() == 3 * n
            &&& steps[i] matches PbiStepV::Download { url, path } && url == tables[i].data_url
            &&& steps[n + i] matches PbiStepV::Decompress { from, to } && from == leaves_file(
                steps[i],
            )
            &&& steps[2 * n + i] matches PbiStepV::ToParquet { table, from, to } && table == i
                && from == leaves_file(steps[n + i])
        }),
{
}

/// One table is downloaded and decompressed unless its Parquet is there, and then converted from
/// what was left.
pub proof fn one_table_is_made(base: Seq<char>, table: TableV, place: int, present: bool)
    ensures
        ({
            let steps = table_parquet_steps(base, table, place, present);
            &&& steps.len() == if present {
                1nat
            } else {
                3nat
            }
            &&& steps.last() is ToParquet
            &&& !present ==> steps[0] is Download && (steps[1] matches PbiStepV::Decompress {
                from,
                to,
            } && from == leaves_file(steps[0])) && (steps[2] matches PbiStepV::ToParquet {
                table: t,
                from,
                to,
            } && t == place && from == leaves_file(steps[1]))
        }),
{
}

/// Data sets in different formats lie in different files, unless both formats are Vortex files that
/// are not compacted.
pub proof fn data_files_are_told_apart(dataset: Seq<char>, a: Format, b: Format)
    ensures
        data_path_text(dataset, a) == data_path_text(dataset, b) <==> a == b || (a
            is OnDiskVortex || a is VortexNative) && (b is OnDiskVortex || b is VortexNative),
{
    reveal_strlit("random_access/");
    reveal_strlit("/");
    reveal_strlit("-compact.");
    reveal_strlit(".");
    reveal_strlit("csv");
    reveal_strlit("arrow");
    reveal_strlit("parquet");
    reveal_strlit("vortex");
    reveal_strlit("duckdb");
    reveal_strlit("lance");
    format_laws::names_begin_with_extensions(a, b);
    let front = "random_access/"@ + dataset + "/"@ + dataset;
    let x = data_path_text(dataset, a).skip(front.len() as int);
    let y = data_path_text(dataset, b).skip(front.len() as int);
    let p = if a is VortexCompact {
        "-compact."@
    } else {
        "."@
    };
    let q = if b is VortexCompact {
        "-compact."@
    } else {
        "."@
    };
    assert(x =~= p + a.ext_text());
    assert(y =~= q + b.ext_text());
    if data_path_text(dataset, a) == data_path_text(dataset, b) {
        assert(x[0] == p[0] && y[0] == q[0]);
        assert(p == q);
        assert(x.skip(p.len() as int) =~= a.ext_text());
        assert(y.skip(q.len() as int) =~= b.ext_text());
    }
}

/// A row group holds as many whole batches as the byte budget allows: one batch more would not fit,
/// unless the row group has the most batches already.
pub proof fn row_groups_fill_the_budget(row_bytes: int)
    requires
        row_bytes > 0,
    ensures
        row_group_rows(row_bytes) < MAX_BATCHES_PER_ROW_GROUP * PARQUET_READ_BATCH_SIZE ==> (
        row_group_rows(row_bytes) + PARQUET_READ_BATCH_SIZE) * row_bytes > TARGET_ROW_GROUP_BYTES,
{
    let target = TARGET_ROW_GROUP_BYTES as int;
    let rows = target / row_bytes;
    let batch = PARQUET_READ_BATCH_SIZE as int;
    let group = row_group_rows(row_bytes);
    if group < MAX_BATCHES_PER_ROW_GROUP * PARQUET_READ_BATCH_SIZE {
        assert(group + batch > rows);
        assert((group + batch) * row_bytes > target) by (nonlinear_arith)
            requires
                group + batch > rows,
                rows == target / row_bytes,
                row_bytes > 0,
        ;
    }
}

/// A table's file of a format, as engines look for it, is the one that was written of that type.
pub proof fn engines_look_for_what_was_written(base: Seq<char>, table: Seq<char>)
    requires
        base.len() > 0,
        base.last() != '/',
        table.len() > 0,
        !table.contains('.'),
        !table.contains('/'),
    ensures
        chars::ends(
            file_of(base, table, FileType::Parquet),
            seq!['/'] + file_name(table, Format::Parquet),
        ),
        chars::ends(
            file_of(base, table, FileType::Vortex),
            seq!['/'] + file_name(table, Format::OnDiskVortex),
        ),
{
    reveal_strlit(".");
    assert("."@ =~= seq!['.']);
    files_lie_in_their_directories(base, table, FileType::Parquet);
    files_lie_in_their_directories(base, table, FileType::Vortex);
    let p = seq!['/'] + file_name(table, Format::Parquet);
    let v = seq!['/'] + file_name(table, Format::OnDiskVortex);
    let x = file_of(base, table, FileType::Parquet);
    let y = file_of(base, table, FileType::Vortex);
    assert(x.skip(x.len() - p.len()) =~= p);
    assert(y.skip(y.len() - v.len()) =~= v);
}

} // verus!
