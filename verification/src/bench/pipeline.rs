//! The stages that every SQL benchmark runs through: generating its data, and registering its
//! tables into an engine's catalog.

use vstd::prelude::*;

use crate::bench::format::{contains, CompactionStrategy, Format};
use crate::bench::path;
use crate::bench::pipeline_laws;
use crate::chars::{self, begins_at, chars_of, copy_range, string_of, trim_end_of};
use crate::text::{join2, same_text};

verus! {

/// How an engine materializes a table in its catalog.
#[derive(Clone, Copy, PartialEq, Eq, Structural, Debug)]
pub enum TableObject {
    /// Data is loaded into the engine's own storage.
    Table,
    /// A view over the data files, read at query time.
    View,
}

impl TableObject {
    /// The SQL keyword of this kind of object.
    pub open spec fn keyword(self) -> Seq<char> {
        match self {
            TableObject::Table => "TABLE"@,
            TableObject::View => "VIEW"@,
        }
    }

    /// The SQL keyword of this kind of object.
    pub fn sql_keyword(&self) -> (out: &'static str)
        ensures
            out@ == self.keyword(),
    {
        match self {
            TableObject::Table => "TABLE",
            TableObject::View => "VIEW",
        }
    }
}

/// What an engine reads when registering a benchmark's tables for one requested format.
#[derive(Clone, Copy, PartialEq, Eq, Structural, Debug)]
pub struct Registration {
    /// Whether tables are registered as tables or as views.
    pub object: TableObject,
    /// The format that the files are read from. It differs from the requested one where an engine
    /// loads from another.
    pub load_format: Format,
}

impl Registration {
    /// Read the files of `format` itself, registered as views.
    pub fn views_of(format: Format) -> (out: Self)
        ensures
            out.object == TableObject::View,
            out.load_format == format,
    {
        Registration { object: TableObject::View, load_format: format }
    }
}

/// A table resolved to the files that back it, for one format.
pub struct TableSource<S> {
    /// The name of the table in the catalog.
    pub name: String,
    /// The schema, where the benchmark pins one.
    pub schema: Option<S>,
    /// The URL of the directory that holds the table's files.
    pub base_url: String,
    /// The glob that matches the table's files there, where the benchmark narrows it.
    pub pattern: Option<String>,
    /// The format that the files are stored in.
    pub load_format: Format,
    /// Whether to register a table or a view.
    pub object: TableObject,
}

/// A table of a benchmark.
pub struct TableSpec<S> {
    pub name: String,
    pub schema: Option<S>,
}

/// A URL as a directory: without the scheme if it is a local file, and without slashes at the end.
pub open spec fn directory(url: Seq<char>) -> Seq<char> {
    chars::trimmed_of(
        if chars::begins(url, "file://"@) {
            url.skip("file://"@.len() as int)
        } else {
            url
        },
        '/',
    )
}

/// A URL as a directory.
pub fn directory_of(url: &str) -> (out: String)
    ensures
        out@ == directory(url@),
{
    let all = chars_of(url);
    let scheme = chars_of("file://");
    assert(all@.skip(0) =~= all@);
    let path = if begins_at(&all, 0, &scheme) {
        let rest = copy_range(&all, scheme.len(), all.len());
        assert(rest@ =~= url@.skip("file://"@.len() as int));
        rest
    } else {
        all
    };
    string_of(&trim_end_of(&path, '/'))
}

/// The glob of a table's files: its own, or every file of the format.
pub open spec fn glob_text(pattern: Option<Seq<char>>, format: Format) -> Seq<char> {
    match pattern {
        Some(pattern) => pattern,
        None => "*."@ + format.ext_text(),
    }
}

/// An optional text as what it holds.
pub open spec fn maybe_text(text: Option<String>) -> Option<Seq<char>> {
    match text {
        Some(text) => Some(text@),
        None => None,
    }
}

/// The DuckDB statement that registers a table.
pub open spec fn duckdb_sql(
    object: TableObject,
    name: Seq<char>,
    format: Format,
    dir: Seq<char>,
    glob: Seq<char>,
) -> Seq<char> {
    "CREATE "@ + object.keyword() + " IF NOT EXISTS "@ + name + " AS SELECT * FROM read_"@
        + format.ext_text() + "('"@ + dir + "/"@ + glob + "');\n"@
}

impl<S> TableSource<S> {
    /// Resolve a table against the layout of a benchmark's data.
    pub fn resolve(
        spec: TableSpec<S>,
        base_url: String,
        pattern: Option<String>,
        load_format: Format,
        object: TableObject,
    ) -> (out: Self)
        ensures
            out.name == spec.name,
            out.schema == spec.schema,
            out.base_url == base_url,
            out.pattern == pattern,
            out.load_format == load_format,
            out.object == object,
    {
        TableSource {
            name: spec.name,
            schema: spec.schema,
            base_url,
            pattern,
            load_format,
            object,
        }
    }

    /// The glob of this table's files.
    pub open spec fn files(&self) -> Seq<char> {
        glob_text(maybe_text(self.pattern), self.load_format)
    }

    /// The glob of this table's files, falling back to every file of the format's extension.
    pub fn glob(&self) -> (out: String)
        ensures
            out@ == self.files(),
    {
        match &self.pattern {
            Some(pattern) => pattern.clone(),
            None => join2("*.", self.load_format.ext()),
        }
    }

    /// The directory of the table's files, for engines that take a path rather than a URL.
    pub fn base_dir(&self) -> (out: String)
        ensures
            out@ == directory(self.base_url@),
    {
        directory_of(self.base_url.as_str())
    }

    /// The DuckDB statement that registers this table.
    pub open spec fn registration(&self) -> Seq<char> {
        duckdb_sql(
            self.object,
            self.name@,
            self.load_format,
            directory(self.base_url@),
            self.files(),
        )
    }

    /// The DuckDB statement that registers this table.
    pub fn duckdb_registration_sql(&self) -> (out: String)
        ensures
            out@ == self.registration(),
    {
        let mut out = String::from_str("CREATE ");
        out.append(self.object.sql_keyword());
        out.append(" IF NOT EXISTS ");
        out.append(self.name.as_str());
        out.append(" AS SELECT * FROM read_");
        out.append(self.load_format.ext());
        out.append("('");
        out.append(self.base_dir().as_str());
        out.append("/");
        out.append(self.glob().as_str());
        out.append("');\n");
        out
    }
}

/// Texts as what they hold.
pub open spec fn texts(strings: Seq<String>) -> Seq<Seq<char>> {
    Seq::new(strings.len(), |i: int| strings[i]@)
}

/// One step of generating a benchmark's data.
#[derive(Clone, Copy, PartialEq, Eq, Structural, Debug)]
pub enum GenerateStep {
    /// Generate the Parquet base data.
    BaseData,
    /// Convert the Parquet base data.
    Convert(CompactionStrategy),
    /// Let the benchmark finish a format.
    Prepare(Format),
}

/// The steps of one format. Formats without a common conversion are only finished.
pub open spec fn format_steps(format: Format) -> Seq<GenerateStep> {
    match format {
        Format::OnDiskVortex => seq![
            GenerateStep::Convert(CompactionStrategy::Default),
            GenerateStep::Prepare(format),
        ],
        Format::VortexCompact => seq![
            GenerateStep::Convert(CompactionStrategy::Compact),
            GenerateStep::Prepare(format),
        ],
        _ => seq![GenerateStep::Prepare(format)],
    }
}

/// The base data, and then the steps of the first `n` formats, each taken once.
pub open spec fn generate_steps(formats: Seq<Format>, n: nat) -> Seq<GenerateStep>
    decreases n,
{
    if n == 0 {
        seq![GenerateStep::BaseData]
    } else {
        let before = generate_steps(formats, (n - 1) as nat);
        if formats.take(n - 1).contains(formats[n - 1]) {
            before
        } else {
            before + format_steps(formats[n - 1])
        }
    }
}

/// The steps that generate a benchmark's data for every requested format. Behind any other scheme
/// than `file` what is derived from the base data is taken to exist already.
pub fn generate_data(scheme: &str, formats: &Vec<Format>) -> (out: Vec<GenerateStep>)
    ensures
        out@ == (if scheme@ == "file"@ {
            generate_steps(formats@, formats@.len())
        } else {
            seq![GenerateStep::BaseData]
        }),
        scheme@ == "file"@ ==> pipeline_laws::generates(out@, formats@),
{
    let mut out: Vec<GenerateStep> = Vec::new();
    out.push(GenerateStep::BaseData);
    assert(out@ =~= seq![GenerateStep::BaseData]);
    if !same_text(scheme, "file") {
        return out;
    }
    let mut seen: Vec<Format> = Vec::new();
    let mut index: usize = 0;
    assert(out@ =~= generate_steps(formats@, 0));
    while index < formats.len()
        invariant
            index <= formats@.len(),
            out@ == generate_steps(formats@, index as nat),
            forall|f: Format| #[trigger] seen@.contains(f) == formats@.take(index as int).contains(f),
        decreases formats@.len() - index,
    {
        let format = formats[index];
        let ghost had = seen@;
        let ghost before = out@;
        assert(formats@.take(index + 1) =~= formats@.take(index as int).push(format));
        if !contains(&seen, format) {
            seen.push(format);
            match format {
                Format::OnDiskVortex => {
                    out.push(GenerateStep::Convert(CompactionStrategy::Default));
                },
                Format::VortexCompact => {
                    out.push(GenerateStep::Convert(CompactionStrategy::Compact));
                },
                _ => {},
            }
            out.push(GenerateStep::Prepare(format));
            assert(out@ =~= before + format_steps(format));
        }
        proof {
            assert forall|f: Format| #[trigger] seen@.contains(f) == formats@.take(
                index + 1,
            ).contains(f) by {
                assert(had.contains(f) == formats@.take(index as int).contains(f));
                pushed_contains(formats@.take(index as int), format, f);
                pushed_contains(had, format, f);
            }
        }
        index = index + 1;
    }
    proof {
        assert(formats@.take(formats@.len() as int) =~= formats@);
        pipeline_laws::steps_generate_the_formats(formats@, formats@.len());
    }
    out
}

/// Pushing an element adds it and keeps the others.
proof fn pushed_contains(formats: Seq<Format>, more: Format, f: Format)
    ensures
        formats.push(more).contains(f) == (formats.contains(f) || f == more),
{
    if formats.contains(f) {
        let i = choose|i: int| 0 <= i < formats.len() && formats[i] == f;
        assert(formats.push(more)[i] == f);
    }
    if f == more {
        assert(formats.push(more)[formats.len() as int] == f);
    }
    if formats.push(more).contains(f) {
        let i = choose|i: int| 0 <= i < formats.push(more).len() && formats.push(more)[i] == f;
        if i < formats.len() {
            assert(formats[i] == f);
        }
    }
}

/// Generating twice what was requested once gives the same steps: a repeated format adds nothing.
pub proof fn repeated_formats_add_no_steps(formats: Seq<Format>, again: Format)
    requires
        formats.contains(again),
    ensures
        generate_steps(formats.push(again), formats.len() + 1) == generate_steps(
            formats,
            formats.len(),
        ),
{
    let more = formats.push(again);
    assert(more.take(formats.len() as int) =~= formats);
    assert(formats.take(formats.len() as int) =~= formats);
    same_steps(more, formats, formats.len());
}

proof fn same_steps(a: Seq<Format>, b: Seq<Format>, n: nat)
    requires
        n <= a.len(),
        n <= b.len(),
        a.take(n as int) == b.take(n as int),
    ensures
        generate_steps(a, n) == generate_steps(b, n),
    decreases n,
{
    if n > 0 {
        assert(a.take(n - 1) =~= a.take(n as int).take(n - 1));
        assert(b.take(n - 1) =~= b.take(n as int).take(n - 1));
        assert(a[n - 1] == a.take(n as int)[n - 1]);
        assert(b[n - 1] == b.take(n as int)[n - 1]);
        same_steps(a, b, (n - 1) as nat);
    }
}

/// Where DuckDB's database lies below the base directory.
pub fn duckdb_database_path(base_path: &str) -> (out: String)
    ensures
        out@ == path::joined_path(
            path::joined_path(base_path@, Format::OnDiskDuckDB.name_text()),
            "duckdb.db"@,
        ),
{
    path::join(path::join(base_path, Format::OnDiskDuckDB.name()).as_str(), "duckdb.db")
}

/// Whether DuckDB's database is loaded ahead of time. Its catalog is the only one that persists,
/// so this is done where its format is asked for and the data lies in local files.
pub fn loads_duckdb(scheme: &str, formats: &Vec<Format>) -> (out: bool)
    ensures
        out == (formats@.contains(Format::OnDiskDuckDB) && scheme@ == "file"@),
{
    contains(formats, Format::OnDiskDuckDB) && same_text(scheme, "file")
}

/// Where a benchmark keeps the files of one table.
pub struct TableFiles<S> {
    pub spec: TableSpec<S>,
    pub base_url: String,
    pub pattern: Option<String>,
}

/// The sources to register, one per table, in the order of the benchmark's tables.
pub fn register_tables<S>(registration: Registration, mut tables: Vec<TableFiles<S>>) -> (out: Vec<
    TableSource<S>,
>)
    ensures
        out@.len() == tables@.len(),
        forall|i: int|
            0 <= i < out@.len() ==> {
                &&& (#[trigger] out@[i]).name == tables@[i].spec.name
                &&& out@[i].schema == tables@[i].spec.schema
                &&& out@[i].base_url == tables@[i].base_url
                &&& out@[i].pattern == tables@[i].pattern
                &&& out@[i].load_format == registration.load_format
                &&& out@[i].object == registration.object
            },
{
    let ghost given = tables@;
    let mut out: Vec<TableSource<S>> = Vec::new();
    while tables.len() > 0
        invariant
            out@.len() + tables@.len() == given.len(),
            forall|i: int| 0 <= i < tables@.len() ==> #[trigger] tables@[i] == given[out@.len() + i],
            forall|i: int|
                0 <= i < out@.len() ==> {
                    &&& (#[trigger] out@[i]).name == given[i].spec.name
                    &&& out@[i].schema == given[i].spec.schema
                    &&& out@[i].base_url == given[i].base_url
                    &&& out@[i].pattern == given[i].pattern
                    &&& out@[i].load_format == registration.load_format
                    &&& out@[i].object == registration.object
                },
        decreases tables@.len(),
    {
        let ghost before = tables@;
        let table = tables.remove(0);
        assert(table == before[0]);
        out.push(
            TableSource::resolve(
                table.spec,
                table.base_url,
                table.pattern,
                registration.load_format,
                registration.object,
            ),
        );
        assert forall|i: int| 0 <= i < tables@.len() implies #[trigger] tables@[i] == given[out@.len()
            + i] by {
            assert(tables@[i] == before[i + 1]);
        }
    }
    out
}

/// The statement that loads a table into DuckDB's database, from its Parquet files.
pub open spec fn load_statement<S>(table: TableFiles<S>) -> Seq<char> {
    duckdb_sql(
        TableObject::Table,
        table.spec.name@,
        Format::Parquet,
        directory(table.base_url@),
        glob_text(maybe_text(table.pattern), Format::Parquet),
    )
}

/// The statements that load a benchmark's tables into DuckDB's database, one per table; none if the
/// database exists already.
pub fn generate_duckdb_database<S>(exists: bool, tables: Vec<TableFiles<S>>) -> (out: Vec<String>)
    ensures
        texts(out@) == (if exists {
            Seq::empty()
        } else {
            Seq::new(tables@.len(), |i: int| load_statement(tables@[i]))
        }),
{
    let mut out: Vec<String> = Vec::new();
    if exists {
        assert(texts(out@) =~= Seq::empty());
        return out;
    }
    let ghost expected = Seq::new(tables@.len(), |i: int| load_statement(tables@[i]));
    let registration = Registration { object: TableObject::Table, load_format: Format::Parquet };
    let sources = register_tables(registration, tables);
    proof {
        assert forall|i: int| 0 <= i < sources@.len() implies (#[trigger] sources@[i]).registration()
            == expected[i] by {}
    }
    let mut index: usize = 0;
    while index < sources.len()
        invariant
            index <= sources@.len(),
            expected.len() == sources@.len(),
            forall|i: int|
                0 <= i < sources@.len() ==> (#[trigger] sources@[i]).registration() == expected[i],
            texts(out@) == expected.take(index as int),
        decreases sources@.len() - index,
    {
        let ghost before = texts(out@);
        let statement = sources[index].duckdb_registration_sql();
        let ghost shown = statement@;
        out.push(statement);
        proof {
            assert(texts(out@) =~= before.push(shown));
            assert(expected.take(index + 1) =~= expected.take(index as int).push(
                expected[index as int],
            ));
        }
        index = index + 1;
    }
    assert(expected.take(expected.len() as int) =~= expected);
    out
}

} // verus!
