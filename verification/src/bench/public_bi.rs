//! The Public BI benchmark: its data sets, their queries and tables, and how a table's data is
//! fetched and converted.
//!
//! Schemas and queries come from a checkout with a directory per data set; what is read from it
//! comes in as plain values.

use vstd::prelude::*;

use super::command::{CommandLine, CommandV};
use super::format::Format;
use super::path;
use super::pipeline::{maybe_text, texts, TableSpec};
use super::public_bi_dataset::{self, PBIDataset};
use crate::chars::{self, chars_of, copy_range, lines, parse_u64, split, string_of, trim};
use crate::error::{VortexError, VortexResult};
use crate::location::{self, Location};
use crate::sort::{self, Ordered};
use crate::text::{join2, join3, same_text};

verus! {

/// How the files of a table are stored.
#[derive(Clone, Copy, Debug, PartialEq, Eq, Structural)]
pub enum FileType {
    CsvBzip2,
    Csv,
    Parquet,
    Vortex,
}

impl FileType {
    /// The name of the type, which is also that of its directory.
    pub open spec fn label(self) -> Seq<char> {
        match self {
            FileType::CsvBzip2 => "csv_bzip2"@,
            FileType::Csv => "csv"@,
            FileType::Parquet => "parquet"@,
            FileType::Vortex => "vortex"@,
        }
    }

    /// The extension of the type's files.
    pub open spec fn suffix(self) -> Seq<char> {
        match self {
            FileType::CsvBzip2 => "csv.bz2"@,
            FileType::Csv => "csv"@,
            FileType::Parquet => "parquet"@,
            FileType::Vortex => "vortex"@,
        }
    }

    /// The name of the type.
    pub fn name(&self) -> (out: &'static str)
        ensures
            out@ == self.label(),
    {
        match self {
            FileType::CsvBzip2 => "csv_bzip2",
            FileType::Csv => "csv",
            FileType::Parquet => "parquet",
            FileType::Vortex => "vortex",
        }
    }

    /// The extension of the type's files.
    pub fn extension(&self) -> (out: &'static str)
        ensures
            out@ == self.suffix(),
    {
        match self {
            FileType::CsvBzip2 => "csv.bz2",
            FileType::Csv => "csv",
            FileType::Parquet => "parquet",
            FileType::Vortex => "vortex",
        }
    }
}

/// One data set of the checkout: its name and its directory.
#[derive(Debug)]
pub struct PBIBenchmark {
    pub name: String,
    pub base_path: String,
}

/// What a data set of the checkout is.
pub struct BenchmarkV {
    pub name: Seq<char>,
    pub base_path: Seq<char>,
}

impl View for PBIBenchmark {
    type V = BenchmarkV;

    open spec fn view(&self) -> BenchmarkV {
        BenchmarkV { name: self.name@, base_path: self.base_path@ }
    }
}

/// The data set that a directory belongs to.
pub open spec fn dataset_of(name: Seq<char>) -> Option<PBIDataset> {
    public_bi_dataset::named(chars::trimmed(name), 0)
}

/// The data set that a directory belongs to.
fn dataset_named(name: &str) -> (out: Option<PBIDataset>)
    ensures
        out == dataset_of(name@),
{
    PBIDataset::lookup(string_of(&trim(&chars_of(name))).as_str())
}

/// What is said of the name of a directory, without the white space around it.
fn invalid_variant(name: &str) -> (out: String)
    ensures
        out@ == public_bi_dataset::invalid_variant(chars::trimmed(name@)),
{
    join2("invalid variant: ", string_of(&trim(&chars_of(name))).as_str())
}

// Queries.

/// A query with its number.
pub struct Query {
    pub index: usize,
    pub sql: String,
}

impl Ordered for Query {
    type M = (nat, Seq<char>);

    open spec fn held(&self) -> (nat, Seq<char>) {
        (self.index as nat, self.sql@)
    }

    open spec fn precedes(a: (nat, Seq<char>), b: (nat, Seq<char>)) -> bool {
        a.0 < b.0 || (a.0 == b.0 && sort::text_le(a.1, b.1, 0))
    }

    proof fn is_total(a: (nat, Seq<char>), b: (nat, Seq<char>)) {
        String::is_total(a.1, b.1);
    }

    proof fn chains(a: (nat, Seq<char>), b: (nat, Seq<char>), c: (nat, Seq<char>)) {
        String::chains(a.1, b.1, c.1);
    }

    fn at_most(&self, other: &Self) -> (out: bool) {
        self.index < other.index || (self.index == other.index && sort::text_at_most(
            self.sql.as_str(),
            other.sql.as_str(),
        ))
    }
}

/// The number of a query file.
pub open spec fn query_number(file_name: Seq<char>) -> Result<nat, Seq<char>> {
    if !chars::ends(file_name, ".sql"@) {
        Err("found non-sql file under queries folder "@ + file_name)
    } else {
        match chars::number_of(
            file_name.take(file_name.len() - ".sql"@.len()),
            usize::MAX as nat,
        ) {
            None => Err("non numeric filename "@ + file_name),
            Some(n) => Ok(n),
        }
    }
}

/// The queries of the first `n` files, or the first complaint about one.
pub open spec fn queries_of(files: Seq<(String, String)>, n: nat) -> Result<
    Seq<(nat, Seq<char>)>,
    Seq<char>,
>
    decreases n,
{
    if n == 0 {
        Ok(Seq::empty())
    } else {
        match queries_of(files, (n - 1) as nat) {
            Err(error) => Err(error),
            Ok(before) => match query_number(files[n - 1].0@) {
                Err(error) => Err(error),
                Ok(number) => Ok(before.push((number, files[n - 1].1@))),
            },
        }
    }
}

/// Whether a text ends with another.
fn ends_with(s: &[char], suffix: &[char]) -> (out: bool)
    ensures
        out == chars::ends(s@, suffix@),
{
    if suffix.len() > s.len() {
        return false;
    }
    let from: usize = s.len() - suffix.len();
    let tail = copy_range(s, from, s.len());
    assert(tail@ =~= s@.skip(from as int));
    chars::same(&tail, suffix)
}

/// The number of a query file.
fn number_of_query(file_name: &str) -> (out: VortexResult<usize>)
    ensures
        match out {
            Ok(n) => query_number(file_name@) == Ok::<nat, Seq<char>>(n as nat),
            Err(error) => query_number(file_name@) == Err::<nat, Seq<char>>(error@),
        },
{
    let name = chars_of(file_name);
    let suffix = chars_of(".sql");
    if !ends_with(&name, &suffix) {
        return Err(
            VortexError::new(join2("found non-sql file under queries folder ", file_name)),
        );
    }
    let stem = copy_range(&name, 0, name.len() - suffix.len());
    assert(stem@ =~= name@.take(name@.len() - suffix@.len()));
    match parse_u64(&stem) {
        Some(n) => if n <= usize::MAX as u64 {
            Ok(n as usize)
        } else {
            Err(VortexError::new(join2("non numeric filename ", file_name)))
        },
        None => Err(VortexError::new(join2("non numeric filename ", file_name))),
    }
}

// Tables.

/// A table: its name, the statement that creates it, and where its data is downloaded from.
pub struct Table {
    create_table_sql: String,
    name: String,
    data_url: String,
}

/// What a table is.
pub struct TableV {
    pub create_table_sql: Seq<char>,
    pub name: Seq<char>,
    pub data_url: Seq<char>,
}

impl View for Table {
    type V = TableV;

    closed spec fn view(&self) -> TableV {
        TableV {
            create_table_sql: self.create_table_sql@,
            name: self.name@,
            data_url: self.data_url@,
        }
    }
}

/// What tables are.
pub open spec fn tables_model(tables: Seq<Table>) -> Seq<TableV> {
    Seq::new(tables.len(), |i: int| tables[i]@)
}

impl Table {
    #[verifier::type_invariant]
    spec fn valid(self) -> bool {
        !self.name@.contains('/')
    }

    /// The name of the table.
    pub fn name(&self) -> (out: &str)
        ensures
            out@ == self@.name,
            !self@.name.contains('/'),
    {
        proof {
            use_type_invariant(self);
        }
        self.name.as_str()
    }

    /// Where the table's data is downloaded from.
    pub fn data_url(&self) -> (out: &str)
        ensures
            out@ == self@.data_url,
    {
        self.data_url.as_str()
    }

    /// The statement that creates the table.
    pub fn create_table_sql(&self) -> (out: &str)
        ensures
            out@ == self@.create_table_sql,
    {
        self.create_table_sql.as_str()
    }
}

/// What is said of a list of URLs that holds an invalid one.
pub open spec fn invalid_urls() -> Seq<char> {
    "invalid urls in data-urls.txt"@
}

/// The table that a URL's path ends in: the last segment, without the extension of a compressed
/// file.
pub open spec fn table_in_path(path: Seq<char>) -> Option<Seq<char>> {
    if path.len() == 0 || path[0] != '/' {
        None
    } else {
        let segments = chars::split_on(path.skip(1), '/');
        let file = segments.last();
        if chars::ends(file, ".csv.bz2"@) {
            Some(file.take(file.len() - ".csv.bz2"@.len()))
        } else {
            None
        }
    }
}

/// The table of a URL: its name, and the URL as it is written out.
pub open spec fn table_of_url(url: Seq<char>) -> Option<(Seq<char>, Seq<char>)> {
    match location::url_read(url) {
        Err(_) => None,
        Ok((text, path, _)) => match table_in_path(path) {
            None => None,
            Some(name) => Some((name, text)),
        },
    }
}

/// The tables of the first `n` URLs; nothing where one is invalid.
pub open spec fn tables_of_urls(urls: Seq<Seq<char>>, n: nat) -> Option<
    Seq<(Seq<char>, Seq<char>)>,
>
    decreases n,
{
    if n == 0 {
        Some(Seq::empty())
    } else {
        match tables_of_urls(urls, (n - 1) as nat) {
            None => None,
            Some(before) => match table_of_url(urls[n - 1]) {
                None => None,
                Some(table) => Some(before.push(table)),
            },
        }
    }
}

/// The table that a path ends in.
pub fn table_name_of(path: &str) -> (out: Option<String>)
    ensures
        maybe_text(out) == table_in_path(path@),
        out matches Some(name) ==> !name@.contains('/'),
{
    let all = chars_of(path);
    if all.len() == 0 || all[0] != '/' {
        return None;
    }
    let rest = copy_range(&all, 1, all.len());
    assert(rest@ =~= path@.skip(1));
    let segments = split(&rest, '/');
    let ghost model = chars::split_on(rest@, '/');
    assert(model.last() == segments@[segments@.len() - 1]@);
    let file = &segments[segments.len() - 1];
    let suffix = chars_of(".csv.bz2");
    if !ends_with(file, &suffix) {
        return None;
    }
    let name = copy_range(file, 0, file.len() - suffix.len());
    assert(name@ =~= file@.take(file@.len() - suffix@.len()));
    proof {
        chars::pieces_lack_the_separator(rest@, '/', model.len() - 1);
        if name@.contains('/') {
            let k = choose|k: int| 0 <= k < name@.len() && name@[k] == '/';
            assert(file@[k] == '/');
        }
    }
    Some(string_of(&name))
}

/// A table that is to be read: its name and its URL.
pub struct TableUrl {
    name: String,
    url: String,
}

impl View for TableUrl {
    type V = (Seq<char>, Seq<char>);

    closed spec fn view(&self) -> (Seq<char>, Seq<char>) {
        (self.name@, self.url@)
    }
}

impl TableUrl {
    #[verifier::type_invariant]
    spec fn valid(self) -> bool {
        !self.name@.contains('/')
    }

    /// The name of the table.
    pub fn name(&self) -> (out: &str)
        ensures
            out@ == self@.0,
            !self@.0.contains('/'),
    {
        proof {
            use_type_invariant(self);
        }
        self.name.as_str()
    }
}

/// What tables that are to be read are.
pub open spec fn urls_model(urls: Seq<TableUrl>) -> Seq<(Seq<char>, Seq<char>)> {
    Seq::new(urls.len(), |i: int| urls[i]@)
}

/// The tables of a list of URLs, a line each.
pub fn table_urls(text: &str) -> (out: VortexResult<Vec<TableUrl>>)
    ensures
        match out {
            Ok(urls) => tables_of_urls(
                chars::lines_of(text@),
                chars::lines_of(text@).len(),
            ) == Some(urls_model(urls@)),
            Err(error) => tables_of_urls(
                chars::lines_of(text@),
                chars::lines_of(text@).len(),
            ) is None && error@ == invalid_urls(),
        },
{
    let all = lines(&chars_of(text));
    let ghost model = chars::lines_of(text@);
    let mut out: Vec<TableUrl> = Vec::new();
    let mut index: usize = 0;
    assert(urls_model(out@) =~= Seq::empty());
    while index < all.len()
        invariant
            index <= all@.len(),
            model == chars::lines_of(text@),
            model == chars::pieces(all@),
            tables_of_urls(model, index as nat) == Some(urls_model(out@)),
        decreases all@.len() - index,
    {
        let ghost before = urls_model(out@);
        assert(model[index as int] == all@[index as int]@);
        let ghost next = tables_of_urls(model, index as nat + 1);
        let found = match Location::parse(string_of(&all[index]).as_str()) {
            Err(_) => None,
            Ok(location) => match table_name_of(location.path.as_str()) {
                None => None,
                Some(name) => Some(TableUrl { name, url: location.text }),
            },
        };
        match found {
            None => {
                assert(next is None);
                proof {
                    invalid_stays(model, index as nat + 1, model.len());
                }
                return Err(VortexError::new(String::from_str("invalid urls in data-urls.txt")));
            },
            Some(table) => {
                let ghost shown = table@;
                out.push(table);
                assert(urls_model(out@) =~= before.push(shown));
            },
        }
        index = index + 1;
    }
    Ok(out)
}

/// A list with an invalid URL stays invalid.
proof fn invalid_stays(urls: Seq<Seq<char>>, m: nat, n: nat)
    requires
        m <= n,
        tables_of_urls(urls, m) is None,
    ensures
        tables_of_urls(urls, n) is None,
    decreases n,
{
    if m < n {
        invalid_stays(urls, m, (n - 1) as nat);
    }
}

/// The tables that were read, given what their statements are; nothing where one is missing.
pub open spec fn tables_read(
    urls: Seq<(Seq<char>, Seq<char>)>,
    statements: Seq<Option<String>>,
    n: nat,
) -> Option<Seq<TableV>>
    decreases n,
{
    if n == 0 {
        Some(Seq::empty())
    } else {
        match tables_read(urls, statements, (n - 1) as nat) {
            None => None,
            Some(before) => match statements[n - 1] {
                None => None,
                Some(sql) => Some(
                    before.push(
                        TableV {
                            create_table_sql: sql@,
                            name: urls[n - 1].0,
                            data_url: urls[n - 1].1,
                        },
                    ),
                ),
            },
        }
    }
}

/// A missing statement stays missing.
proof fn missing_stays(
    urls: Seq<(Seq<char>, Seq<char>)>,
    statements: Seq<Option<String>>,
    m: nat,
    n: nat,
)
    requires
        m <= n,
        tables_read(urls, statements, m) is None,
    ensures
        tables_read(urls, statements, n) is None,
    decreases n,
{
    if m < n {
        missing_stays(urls, statements, m, (n - 1) as nat);
    }
}

/// One entry of a data set's tables, benchmarked on its own.
#[derive(Clone, Debug)]
pub struct PBITable {
    dataset: PBIDataset,
    /// The table's own name, as it appears in the list of URLs (e.g. `CMSprovider_2`).
    table_name: String,
    /// The benchmark name reported for this entry.
    ///
    /// Single-table datasets keep the bare dataset name so their recorded history carries
    /// over; multi-table datasets are qualified as `<Dataset>/<table>`.
    name: String,
}

/// What an entry is.
pub struct EntryV {
    pub dataset: PBIDataset,
    pub table_name: Seq<char>,
    pub name: Seq<char>,
}

impl View for PBITable {
    type V = EntryV;

    closed spec fn view(&self) -> EntryV {
        EntryV { dataset: self.dataset, table_name: self.table_name@, name: self.name@ }
    }
}

/// What entries are.
pub open spec fn entries_model(entries: Seq<PBITable>) -> Seq<EntryV> {
    Seq::new(entries.len(), |i: int| entries[i]@)
}

/// The entries of the tables of a data set. Only several tables need their names to tell them
/// apart.
pub open spec fn own_entries(name: Seq<char>, dataset: PBIDataset, tables: Seq<TableV>) -> Seq<
    EntryV,
> {
    Seq::new(
        tables.len(),
        |i: int|
            EntryV {
                dataset,
                table_name: tables[i].name,
                name: if tables.len() > 1 {
                    name + "/"@ + tables[i].name
                } else {
                    name
                },
            },
    )
}

/// What is said of a directory whose name is no data set's.
pub open spec fn unsupported(name: Seq<char>) -> Seq<char> {
    "unsupported dataset "@ + name + ": "@ + public_bi_dataset::invalid_variant(
        chars::trimmed(name),
    )
}

impl PBIBenchmark {
    /// The name of the data set.
    pub fn name(&self) -> (out: &str)
        ensures
            out@ == self@.name,
    {
        self.name.as_str()
    }

    /// How measurements of the data set are filed: under its name, with no variant.
    pub fn v3_dataset_dims(&self) -> (out: (&str, Option<&str>))
        ensures
            out.0@ == self@.name,
            out.1 is None,
    {
        (self.name.as_str(), None)
    }

    /// Number the SQL files of the queries folder, given by their names and contents, and return
    /// their contents in the order of the numbers.
    pub fn queries(&self, files: &Vec<(String, String)>) -> (out: VortexResult<Vec<Query>>)
        ensures
            match out {
                Ok(queries) => queries_of(files@, files@.len()) is Ok && sort::held_by(queries@)
                    == sort::in_order::<Query>(queries_of(files@, files@.len())->Ok_0),
                Err(error) => queries_of(files@, files@.len()) == Err::<
                    Seq<(nat, Seq<char>)>,
                    Seq<char>,
                >(error@),
            },
    {
        let mut queries: Vec<Query> = Vec::new();
        let mut index: usize = 0;
        assert(sort::held_by(queries@) =~= Seq::empty());
        while index < files.len()
            invariant
                index <= files@.len(),
                queries_of(files@, index as nat) == Ok::<Seq<(nat, Seq<char>)>, Seq<char>>(
                    sort::held_by(queries@),
                ),
            decreases files@.len() - index,
        {
            let ghost before = sort::held_by(queries@);
            match number_of_query(files[index].0.as_str()) {
                Err(error) => {
                    proof {
                        complaint_stays(files@, index as nat + 1, files@.len());
                    }
                    return Err(error);
                },
                Ok(number) => {
                    let query = Query { index: number, sql: files[index].1.clone() };
                    let ghost held = query.held();
                    queries.push(query);
                    assert(sort::held_by(queries@) =~= before.push(held));
                },
            }
            index = index + 1;
        }
        Ok(sort::sort(queries))
    }

    /// Where the statement that creates a table lies.
    pub fn table_sql_path(&self, table_name: &str) -> (out: String)
        requires
            !table_name@.contains('/'),
        ensures
            out@ == path::placed(
                path::joined_path(self@.base_path, "tables"@),
                table_name@,
                "table.sql"@,
            ),
    {
        let dir = path::join(self.base_path.as_str(), "tables");
        path::place(dir.as_str(), table_name, "table.sql")
    }

    /// The tables of the data set, given the statements that create them, where they could be
    /// read.
    pub fn tables(&self, urls: Vec<TableUrl>, statements: Vec<Option<String>>) -> (out: VortexResult<
        Vec<Table>,
    >)
        requires
            urls@.len() == statements@.len(),
        ensures
            match out {
                Ok(tables) => tables_read(urls_model(urls@), statements@, urls@.len()) == Some(
                    tables_model(tables@),
                ),
                Err(error) => tables_read(urls_model(urls@), statements@, urls@.len()) is None
                    && error@ == invalid_urls(),
            },
    {
        let ghost model = urls_model(urls@);
        let ghost given = statements@;
        let ghost total = urls@.len();
        let mut out: Vec<Table> = Vec::new();
        let mut index: usize = 0;
        assert(tables_model(out@) =~= Seq::empty());
        while index < urls.len()
            invariant
                index <= urls@.len(),
                urls@.len() == statements@.len() == total,
                model == urls_model(urls@),
                given == statements@,
                tables_read(model, given, index as nat) == Some(tables_model(out@)),
            decreases urls@.len() - index,
        {
            let ghost before = tables_model(out@);
            match &statements[index] {
                None => {
                    proof {
                        missing_stays(model, given, index as nat + 1, total);
                    }
                    return Err(
                        VortexError::new(String::from_str("invalid urls in data-urls.txt")),
                    );
                },
                Some(sql) => {
                    let url = &urls[index];
                    proof {
                        use_type_invariant(url);
                        assert(model[index as int] == url@);
                    }
                    let table = Table {
                        create_table_sql: sql.clone(),
                        name: url.name.clone(),
                        data_url: url.url.clone(),
                    };
                    let ghost shown = table@;
                    out.push(table);
                    assert(tables_model(out@) =~= before.push(shown));
                },
            }
            index = index + 1;
        }
        Ok(out)
    }

    /// The tables of the data set, below the directory of the benchmark's data.
    pub fn dataset(&self, tables: Vec<Table>, data_dir: &str) -> (out: PBIData)
        ensures
            out.base_path@ == path::joined_path(path::joined_path(data_dir@, "PBI"@), self@.name),
            out.tables@ == tables@,
    {
        let base = path::join(data_dir, "PBI");
        PBIData { base_path: path::join(base.as_str(), self.name.as_str()), tables }
    }

    /// This dataset's tables, as individual benchmark entries.
    pub fn own_tables(&self, tables: &Vec<Table>) -> (out: VortexResult<Vec<PBITable>>)
        ensures
            match out {
                Ok(entries) => dataset_of(self@.name) matches Some(dataset) && entries_model(
                    entries@,
                ) == own_entries(self@.name, dataset, tables_model(tables@)),
                Err(error) => dataset_of(self@.name) is None && error@ == unsupported(self@.name),
            },
    {
        let dataset = match dataset_named(self.name.as_str()) {
            Some(dataset) => dataset,
            None => {
                let mut message = join3("unsupported dataset ", self.name.as_str(), ": ");
                message.append(invalid_variant(self.name.as_str()).as_str());
                return Err(VortexError::new(message));
            },
        };
        let ghost model = tables_model(tables@);
        let ghost wanted = own_entries(self@.name, dataset, model);
        let qualify = tables.len() > 1;
        let mut out: Vec<PBITable> = Vec::new();
        let mut index: usize = 0;
        assert(entries_model(out@) =~= wanted.take(0));
        while index < tables.len()
            invariant
                index <= tables@.len(),
                model == tables_model(tables@),
                qualify == (tables@.len() > 1),
                wanted == own_entries(self@.name, dataset, model),
                entries_model(out@) == wanted.take(index as int),
            decreases tables@.len() - index,
        {
            let table = &tables[index];
            assert(model[index as int] == table@);
            let name = if qualify {
                join3(self.name.as_str(), "/", table.name.as_str())
            } else {
                self.name.clone()
            };
            let entry = PBITable { dataset, table_name: table.name.clone(), name };
            let ghost shown = entry@;
            let ghost before = entries_model(out@);
            out.push(entry);
            proof {
                assert(entries_model(out@) =~= before.push(shown));
                assert(wanted.take(index + 1) =~= wanted.take(index as int).push(
                    wanted[index as int],
                ));
            }
            index = index + 1;
        }
        assert(wanted.take(wanted.len() as int) =~= wanted);
        Ok(out)
    }

    /// The file that stands for the data set as Vortex. Each table has its own schema, so only
    /// the first is read.
    pub fn vortex_file(&self, data: &PBIData) -> (out: VortexResult<String>)
        ensures
            first_outcome(
                out,
                data.file_list(FileType::Vortex),
                "must have at least one table"@,
            ),
    {
        first_of(data.list_files(FileType::Vortex), "must have at least one table")
    }

    /// The file that stands for the data set as Parquet.
    pub fn parquet_file(&self, data: &PBIData) -> (out: VortexResult<String>)
        ensures
            first_outcome(
                out,
                data.file_list(FileType::Parquet),
                "must have at least one parquet file"@,
            ),
    {
        first_of(data.list_files(FileType::Parquet), "must have at least one parquet file")
    }
}

/// The first of some files, or a complaint where there is none.
pub open spec fn first_outcome(
    out: VortexResult<String>,
    files: Seq<Seq<char>>,
    complaint: Seq<char>,
) -> bool {
    match out {
        Ok(file) => files.len() > 0 && file@ == files[0],
        Err(error) => files.len() == 0 && error@ == complaint,
    }
}

/// The first of some files.
fn first_of(files: Vec<String>, complaint: &str) -> (out: VortexResult<String>)
    ensures
        first_outcome(out, texts(files@), complaint@),
{
    if files.len() == 0 {
        return Err(VortexError::of(complaint));
    }
    assert(texts(files@)[0] == files@[0]@);
    Ok(files[0].clone())
}

/// A complaint stays.
proof fn complaint_stays(files: Seq<(String, String)>, m: nat, n: nat)
    requires
        m <= n,
        queries_of(files, m) is Err,
    ensures
        queries_of(files, n) == queries_of(files, m),
    decreases n,
{
    if m < n {
        complaint_stays(files, m, (n - 1) as nat);
    }
}

impl PBITable {
    /// The data set that the table belongs to.
    pub fn dataset(&self) -> (out: PBIDataset)
        ensures
            out == self@.dataset,
    {
        self.dataset
    }

    /// The table's own name.
    pub fn table_name(&self) -> (out: &str)
        ensures
            out@ == self@.table_name,
    {
        self.table_name.as_str()
    }

    /// The name that is reported for the entry.
    pub fn name(&self) -> (out: &str)
        ensures
            out@ == self@.name,
    {
        self.name.as_str()
    }

    /// How measurements of the entry are filed: under its name, with no variant.
    pub fn v3_dataset_dims(&self) -> (out: (&str, Option<&str>))
        ensures
            out.0@ == self@.name,
            out.1 is None,
    {
        (self.name.as_str(), None)
    }

    /// Resolve this entry back to its table among those of its data set.
    pub fn table(&self, data: &PBIData) -> (out: VortexResult<usize>)
        ensures
            match out {
                Ok(place) => {
                    &&& place < data.tables@.len()
                    &&& data.tables@[place as int]@.name == self@.table_name
                    &&& forall|i: int|
                        0 <= i < place ==> (#[trigger] data.tables@[i])@.name != self@.table_name
                },
                Err(error) => {
                    &&& forall|i: int|
                        0 <= i < data.tables@.len() ==> (#[trigger] data.tables@[i])@.name
                            != self@.table_name
                    &&& error@ == "table "@ + self@.table_name + " vanished from "@
                        + self@.dataset.label()
                },
            },
    {
        let mut index: usize = 0;
        while index < data.tables.len()
            invariant
                index <= data.tables@.len(),
                forall|i: int|
                    0 <= i < index ==> (#[trigger] data.tables@[i])@.name != self@.table_name,
            decreases data.tables@.len() - index,
        {
            if same_text(data.tables[index].name(), self.table_name.as_str()) {
                return Ok(index);
            }
            index = index + 1;
        }
        let mut message = join3("table ", self.table_name.as_str(), " vanished from ");
        message.append(self.dataset.name());
        Err(VortexError::new(message))
    }
}

// The data sets of a checkout.

/// The data sets of a checkout, each once.
#[derive(Debug)]
pub struct PBIDatasets {
    benchmarks: Vec<(PBIDataset, PBIBenchmark)>,
}

/// The data sets with one more, in place of one that was there under the same name.
pub open spec fn listed_with(
    listed: Seq<(PBIDataset, BenchmarkV)>,
    dataset: PBIDataset,
    benchmark: BenchmarkV,
    n: nat,
) -> Seq<(PBIDataset, BenchmarkV)>
    decreases listed.len() - n,
{
    if n >= listed.len() {
        listed.push((dataset, benchmark))
    } else if listed[n as int].0 == dataset {
        listed.update(n as int, (dataset, benchmark))
    } else {
        listed_with(listed, dataset, benchmark, n + 1)
    }
}

/// The data sets of the first `n` directories, given by name and path, or the first complaint.
pub open spec fn listed_of(dirs: Seq<(String, String)>, n: nat) -> Result<
    Seq<(PBIDataset, BenchmarkV)>,
    Seq<char>,
>
    decreases n,
{
    if n == 0 {
        Ok(Seq::empty())
    } else {
        match listed_of(dirs, (n - 1) as nat) {
            Err(error) => Err(error),
            Ok(before) => match dataset_of(dirs[n - 1].0@) {
                None => Err(
                    "unsupported dataset: "@ + dirs[n - 1].0@ + " "@
                        + public_bi_dataset::invalid_variant(chars::trimmed(dirs[n - 1].0@)),
                ),
                Some(dataset) => Ok(
                    listed_with(
                        before,
                        dataset,
                        BenchmarkV { name: dirs[n - 1].0@, base_path: dirs[n - 1].1@ },
                        0,
                    ),
                ),
            },
        }
    }
}

/// A complaint about a directory stays.
proof fn refusal_stays(dirs: Seq<(String, String)>, m: nat, n: nat)
    requires
        m <= n,
        listed_of(dirs, m) is Err,
    ensures
        listed_of(dirs, n) == listed_of(dirs, m),
    decreases n,
{
    if m < n {
        refusal_stays(dirs, m, (n - 1) as nat);
    }
}

/// No data set is listed twice.
pub open spec fn each_once(listed: Seq<(PBIDataset, BenchmarkV)>) -> bool {
    forall|i: int, j: int|
        #![trigger listed[i], listed[j]]
        0 <= i < j < listed.len() ==> listed[i].0 != listed[j].0
}

/// Adding a data set lists none twice, and the one that was added last is the one that is listed.
pub proof fn listing_keeps_each_once(
    listed: Seq<(PBIDataset, BenchmarkV)>,
    dataset: PBIDataset,
    benchmark: BenchmarkV,
    n: nat,
)
    requires
        each_once(listed),
        n <= listed.len(),
        forall|i: int| 0 <= i < n ==> (#[trigger] listed[i]).0 != dataset,
    ensures
        each_once(listed_with(listed, dataset, benchmark, n)),
        listed_with(listed, dataset, benchmark, n).contains((dataset, benchmark)),
        forall|i: int|
            0 <= i < listed.len() && (#[trigger] listed[i]).0 != dataset ==> listed_with(
                listed,
                dataset,
                benchmark,
                n,
            )[i] == listed[i],
    decreases listed.len() - n,
{
    let out = listed_with(listed, dataset, benchmark, n);
    if n >= listed.len() {
        assert(out[listed.len() as int] == (dataset, benchmark));
    } else if listed[n as int].0 == dataset {
        assert(out[n as int] == (dataset, benchmark));
        assert forall|i: int, j: int|
            #![trigger out[i], out[j]]
            0 <= i < j < out.len() implies out[i].0 != out[j].0 by {
            assert(listed[i].0 != listed[j].0);
        }
    } else {
        listing_keeps_each_once(listed, dataset, benchmark, n + 1);
    }
}

/// A name with the place that it was listed at.
pub struct NamedPlace {
    pub name: String,
    pub place: usize,
}

/// Names with places, by name and then by place.
pub open spec fn place_precedes(a: (Seq<char>, nat), b: (Seq<char>, nat)) -> bool {
    if a.0 == b.0 {
        a.1 <= b.1
    } else {
        sort::text_le(a.0, b.0, 0)
    }
}

impl Ordered for NamedPlace {
    type M = (Seq<char>, nat);

    open spec fn held(&self) -> (Seq<char>, nat) {
        (self.name@, self.place as nat)
    }

    open spec fn precedes(a: (Seq<char>, nat), b: (Seq<char>, nat)) -> bool {
        place_precedes(a, b)
    }

    proof fn is_total(a: (Seq<char>, nat), b: (Seq<char>, nat)) {
        String::is_total(a.0, b.0);
    }

    proof fn chains(a: (Seq<char>, nat), b: (Seq<char>, nat), c: (Seq<char>, nat)) {
        String::chains(a.0, b.0, c.0);
        String::is_total(a.0, b.0);
        String::is_total(b.0, c.0);
        String::is_total(a.0, c.0);
    }

    fn at_most(&self, other: &Self) -> (out: bool) {
        if same_text(self.name.as_str(), other.name.as_str()) {
            self.place <= other.place
        } else {
            sort::text_at_most(self.name.as_str(), other.name.as_str())
        }
    }
}

/// The names of data sets, with their places.
pub open spec fn named_places(listed: Seq<(PBIDataset, BenchmarkV)>) -> Seq<(Seq<char>, nat)> {
    Seq::new(listed.len(), |i: int| (listed[i].1.name, i as nat))
}

/// The data sets in the order of their names.
pub open spec fn by_name(listed: Seq<(PBIDataset, BenchmarkV)>) -> Seq<BenchmarkV> {
    let places = sort::in_order::<NamedPlace>(named_places(listed));
    Seq::new(places.len(), |i: int| listed[places[i].1 as int].1)
}

/// The entries of the first `n` data sets, one data set after the other, or the first complaint.
pub open spec fn all_entries(
    benchmarks: Seq<BenchmarkV>,
    tables: Seq<Vec<Table>>,
    n: nat,
) -> Result<Seq<EntryV>, Seq<char>>
    decreases n,
{
    if n == 0 {
        Ok(Seq::empty())
    } else {
        match all_entries(benchmarks, tables, (n - 1) as nat) {
            Err(error) => Err(error),
            Ok(before) => match dataset_of(benchmarks[n - 1].name) {
                None => Err(unsupported(benchmarks[n - 1].name)),
                Some(dataset) => Ok(
                    before + own_entries(
                        benchmarks[n - 1].name,
                        dataset,
                        tables_model(tables[n - 1]@),
                    ),
                ),
            },
        }
    }
}

/// A complaint about a data set stays.
proof fn objection_stays(benchmarks: Seq<BenchmarkV>, tables: Seq<Vec<Table>>, m: nat, n: nat)
    requires
        m <= n,
        all_entries(benchmarks, tables, m) is Err,
    ensures
        all_entries(benchmarks, tables, n) == all_entries(benchmarks, tables, m),
    decreases n,
{
    if m < n {
        objection_stays(benchmarks, tables, m, (n - 1) as nat);
    }
}

/// Every place in the order of names is one that was listed.
proof fn places_are_listed(listed: Seq<(PBIDataset, BenchmarkV)>)
    ensures
        ({
            let places = sort::in_order::<NamedPlace>(named_places(listed));
            &&& places.len() == listed.len()
            &&& forall|i: int| 0 <= i < places.len() ==> 0 <= (#[trigger] places[i]).1
                < listed.len()
        }),
{
    let names = named_places(listed);
    let places = sort::in_order::<NamedPlace>(names);
    sort::order_is_kept::<NamedPlace>(names);
    names.to_multiset_ensures();
    places.to_multiset_ensures();
    assert forall|i: int| 0 <= i < places.len() implies 0 <= (#[trigger] places[i]).1
        < listed.len() by {
        assert(places.contains(places[i]));
        assert(names.contains(places[i]));
        let j = choose|j: int| 0 <= j < names.len() && names[j] == places[i];
        assert(names[j].1 == j);
    }
}

impl PBIDatasets {
    /// The data sets.
    pub closed spec fn listed(self) -> Seq<(PBIDataset, BenchmarkV)> {
        Seq::new(self.benchmarks@.len(), |i: int| (self.benchmarks@[i].0, self.benchmarks@[i].1@))
    }

    #[verifier::type_invariant]
    spec fn valid(self) -> bool {
        each_once(self.listed())
    }

    /// The data sets of a checkout, given the names and paths of its directories. Each must be
    /// named after a data set; of two for the same one the later counts.
    pub fn try_new(dirs: &Vec<(String, String)>) -> (out: VortexResult<PBIDatasets>)
        ensures
            match out {
                Ok(datasets) => listed_of(dirs@, dirs@.len()) == Ok::<
                    Seq<(PBIDataset, BenchmarkV)>,
                    Seq<char>,
                >(datasets.listed()) && each_once(datasets.listed()),
                Err(error) => listed_of(dirs@, dirs@.len()) == Err::<
                    Seq<(PBIDataset, BenchmarkV)>,
                    Seq<char>,
                >(error@),
            },
    {
        let mut out = PBIDatasets { benchmarks: Vec::new() };
        let mut index: usize = 0;
        assert(out.listed() =~= Seq::empty());
        while index < dirs.len()
            invariant
                index <= dirs@.len(),
                listed_of(dirs@, index as nat) == Ok::<
                    Seq<(PBIDataset, BenchmarkV)>,
                    Seq<char>,
                >(out.listed()),
            decreases dirs@.len() - index,
        {
            let name = &dirs[index].0;
            match dataset_named(name.as_str()) {
                None => {
                    let mut message = join3("unsupported dataset: ", name.as_str(), " ");
                    message.append(invalid_variant(name.as_str()).as_str());
                    proof {
                        refusal_stays(dirs@, index as nat + 1, dirs@.len());
                    }
                    return Err(VortexError::new(message));
                },
                Some(dataset) => {
                    let benchmark = PBIBenchmark {
                        name: name.clone(),
                        base_path: dirs[index].1.clone(),
                    };
                    out = out.with(dataset, benchmark);
                },
            }
            index = index + 1;
        }
        proof {
            use_type_invariant(&out);
        }
        Ok(out)
    }

    /// The data sets with one more.
    fn with(self, dataset: PBIDataset, benchmark: PBIBenchmark) -> (out: PBIDatasets)
        ensures
            out.listed() == listed_with(self.listed(), dataset, benchmark@, 0),
    {
        let ghost before = self.listed();
        let ghost added = benchmark@;
        proof {
            use_type_invariant(&self);
            listing_keeps_each_once(before, dataset, added, 0);
        }
        let mut benchmarks = self.benchmarks;
        let mut index: usize = 0;
        while index < benchmarks.len() && benchmarks[index].0 != dataset
            invariant
                index <= benchmarks@.len(),
                before.len() == benchmarks@.len(),
                forall|i: int|
                    0 <= i < before.len() ==> #[trigger] before[i] == (
                        benchmarks@[i].0,
                        benchmarks@[i].1@,
                    ),
                listed_with(before, dataset, added, 0) == listed_with(
                    before,
                    dataset,
                    added,
                    index as nat,
                ),
            decreases benchmarks@.len() - index,
        {
            assert(before[index as int].0 == benchmarks@[index as int].0);
            index = index + 1;
        }
        if index < benchmarks.len() {
            assert(before[index as int].0 == benchmarks@[index as int].0);
            benchmarks.set(index, (dataset, benchmark));
        } else {
            benchmarks.push((dataset, benchmark));
        }
        let ghost after = Seq::new(
            benchmarks@.len(),
            |i: int| (benchmarks@[i].0, benchmarks@[i].1@),
        );
        assert(after =~= listed_with(before, dataset, added, 0));
        PBIDatasets { benchmarks }
    }

    /// Whether a data set is listed.
    pub open spec fn has(self, dataset: PBIDataset) -> bool {
        exists|i: int| 0 <= i < self.listed().len() && (#[trigger] self.listed()[i]).0 == dataset
    }

    /// Find a data set.
    pub fn find(&self, dataset: PBIDataset) -> (out: Option<&PBIBenchmark>)
        ensures
            out is Some <==> self.has(dataset),
            out matches Some(benchmark) ==> self.listed().contains((dataset, benchmark@)),
    {
        let mut index: usize = 0;
        while index < self.benchmarks.len()
            invariant
                index <= self.benchmarks@.len(),
                forall|i: int| 0 <= i < index ==> (#[trigger] self.listed()[i]).0 != dataset,
            decreases self.benchmarks@.len() - index,
        {
            assert(self.listed()[index as int] == (
                self.benchmarks@[index as int].0,
                self.benchmarks@[index as int].1@,
            ));
            if self.benchmarks[index].0 == dataset {
                return Some(&self.benchmarks[index].1);
            }
            index = index + 1;
        }
        None
    }

    /// The data set.
    pub fn get(&self, dataset: PBIDataset) -> (out: &PBIBenchmark)
        requires
            self.has(dataset),
        ensures
            self.listed().contains((dataset, out@)),
    {
        self.find(dataset).unwrap()
    }

    /// The data sets in the order of their names.
    pub fn ordered(&self) -> (out: Vec<&PBIBenchmark>)
        ensures
            out@.len() == self.listed().len(),
            by_name(self.listed()).len() == self.listed().len(),
            forall|i: int|
                0 <= i < out@.len() ==> (#[trigger] out@[i])@ == by_name(self.listed())[i],
    {
        let ghost listed = self.listed();
        let ghost names = named_places(listed);
        let mut places: Vec<NamedPlace> = Vec::new();
        let mut index: usize = 0;
        while index < self.benchmarks.len()
            invariant
                index <= self.benchmarks@.len(),
                listed == self.listed(),
                names == named_places(listed),
                places@.len() == index,
                forall|i: int|
                    0 <= i < index ==> (#[trigger] places@[i]).held() == names[i],
            decreases self.benchmarks@.len() - index,
        {
            assert(listed[index as int] == (
                self.benchmarks@[index as int].0,
                self.benchmarks@[index as int].1@,
            ));
            places.push(NamedPlace { name: self.benchmarks[index].1.name.clone(), place: index });
            index = index + 1;
        }
        assert(sort::held_by(places@) =~= names);
        let sorted = sort::sort(places);
        let ghost order = sort::in_order::<NamedPlace>(names);
        proof {
            places_are_listed(listed);
        }
        let mut out: Vec<&PBIBenchmark> = Vec::new();
        let mut next: usize = 0;
        while next < sorted.len()
            invariant
                next <= sorted@.len(),
                listed == self.listed(),
                listed.len() == self.benchmarks@.len(),
                order == sort::held_by(sorted@),
                order == sort::in_order::<NamedPlace>(named_places(listed)),
                order.len() == listed.len(),
                forall|i: int| 0 <= i < order.len() ==> 0 <= (#[trigger] order[i]).1
                    < listed.len(),
                out@.len() == next,
                forall|i: int| 0 <= i < next ==> (#[trigger] out@[i])@ == by_name(listed)[i],
            decreases sorted@.len() - next,
        {
            assert(order[next as int] == sorted@[next as int].held());
            let place: usize = sorted[next].place;
            assert(listed[place as int] == (
                self.benchmarks@[place as int].0,
                self.benchmarks@[place as int].1@,
            ));
            out.push(&self.benchmarks[place].1);
            assert(by_name(listed)[next as int] == listed[order[next as int].1 as int].1);
            next = next + 1;
        }
        out
    }

    /// Every table of every data set, as its own benchmark entry. `tables` are those of the data
    /// sets in the order of their names.
    ///
    /// Ordered by dataset then by the order in which the tables are listed, so a run is
    /// reproducible and resumable.
    pub fn all_tables(&self, tables: &Vec<Vec<Table>>) -> (out: VortexResult<Vec<PBITable>>)
        requires
            tables@.len() == self.listed().len(),
        ensures
            match out {
                Ok(entries) => all_entries(by_name(self.listed()), tables@, tables@.len()) == Ok::<
                    Seq<EntryV>,
                    Seq<char>,
                >(entries_model(entries@)),
                Err(error) => all_entries(by_name(self.listed()), tables@, tables@.len()) == Err::<
                    Seq<EntryV>,
                    Seq<char>,
                >(error@),
            },
    {
        let benchmarks = self.ordered();
        let ghost model = by_name(self.listed());
        let mut out: Vec<PBITable> = Vec::new();
        let mut index: usize = 0;
        assert(entries_model(out@) =~= Seq::empty());
        while index < benchmarks.len()
            invariant
                index <= benchmarks@.len() == tables@.len(),
                model == by_name(self.listed()),
                forall|i: int|
                    0 <= i < benchmarks@.len() ==> (#[trigger] benchmarks@[i])@ == model[i],
                all_entries(model, tables@, index as nat) == Ok::<Seq<EntryV>, Seq<char>>(
                    entries_model(out@),
                ),
            decreases benchmarks@.len() - index,
        {
            let ghost before = entries_model(out@);
            assert(benchmarks@[index as int]@ == model[index as int]);
            match benchmarks[index].own_tables(&tables[index]) {
                Err(error) => {
                    proof {
                        objection_stays(model, tables@, index as nat + 1, tables@.len());
                    }
                    return Err(error);
                },
                Ok(mut entries) => {
                    let ghost added = entries_model(entries@);
                    out.append(&mut entries);
                    assert(entries_model(out@) =~= before + added);
                },
            }
            index = index + 1;
        }
        Ok(out)
    }
}

/// The data that a checkout lists is that of the last directory of each name.
pub proof fn later_directories_replace_earlier(dirs: Seq<(String, String)>, n: nat)
    requires
        0 < n <= dirs.len(),
        listed_of(dirs, n) is Ok,
    ensures
        each_once(listed_of(dirs, n)->Ok_0),
        dataset_of(dirs[n - 1].0@) matches Some(dataset) && listed_of(dirs, n)->Ok_0.contains(
            (dataset, BenchmarkV { name: dirs[n - 1].0@, base_path: dirs[n - 1].1@ }),
        ),
    decreases n,
{
    if n > 1 {
        later_directories_replace_earlier(dirs, (n - 1) as nat);
    }
    listing_keeps_each_once(
        listed_of(dirs, (n - 1) as nat)->Ok_0,
        dataset_of(dirs[n - 1].0@)->Some_0,
        BenchmarkV { name: dirs[n - 1].0@, base_path: dirs[n - 1].1@ },
        0,
    );
}

// The data of one data set.

/// The tables of one data set, and where their files lie.
pub struct PBIData {
    pub base_path: String,
    pub tables: Vec<Table>,
}

/// One step of making a table's files.
#[derive(Debug)]
pub enum PbiStep {
    /// Download a file, unless it is there.
    Download { url: String, path: String },
    /// Decompress a file, unless the result is there.
    Decompress { from: String, to: String },
    /// Convert a table's text to Parquet, unless the result is there.
    ToParquet { table: usize, from: String, to: String },
    /// Convert a table's Parquet to Vortex, unless the result is there.
    ToVortex { table: usize, from: String, to: String },
}

/// What a step does.
pub enum PbiStepV {
    Download { url: Seq<char>, path: Seq<char> },
    Decompress { from: Seq<char>, to: Seq<char> },
    ToParquet { table: int, from: Seq<char>, to: Seq<char> },
    ToVortex { table: int, from: Seq<char>, to: Seq<char> },
}

impl View for PbiStep {
    type V = PbiStepV;

    open spec fn view(&self) -> PbiStepV {
        match self {
            PbiStep::Download { url, path } => PbiStepV::Download { url: url@, path: path@ },
            PbiStep::Decompress { from, to } => PbiStepV::Decompress { from: from@, to: to@ },
            PbiStep::ToParquet { table, from, to } => PbiStepV::ToParquet {
                table: *table as int,
                from: from@,
                to: to@,
            },
            PbiStep::ToVortex { table, from, to } => PbiStepV::ToVortex {
                table: *table as int,
                from: from@,
                to: to@,
            },
        }
    }
}

/// What steps do.
pub open spec fn steps_model(steps: Seq<PbiStep>) -> Seq<PbiStepV> {
    Seq::new(steps.len(), |i: int| steps[i]@)
}

/// Where a file of a table lies.
pub open spec fn file_of(base: Seq<char>, table: Seq<char>, file_type: FileType) -> Seq<char> {
    path::placed(path::joined_path(base, file_type.label()), table, file_type.suffix())
}

/// What is done to a table.
#[derive(Clone, Copy, PartialEq, Eq, Structural)]
pub enum Stage {
    Download,
    Decompress,
    ToParquet,
    ToVortex,
}

/// The step that does something to a table.
pub open spec fn stage_step(base: Seq<char>, table: TableV, place: int, stage: Stage) -> PbiStepV {
    match stage {
        Stage::Download => PbiStepV::Download {
            url: table.data_url,
            path: file_of(base, table.name, FileType::CsvBzip2),
        },
        Stage::Decompress => PbiStepV::Decompress {
            from: file_of(base, table.name, FileType::CsvBzip2),
            to: file_of(base, table.name, FileType::Csv),
        },
        Stage::ToParquet => PbiStepV::ToParquet {
            table: place,
            from: file_of(base, table.name, FileType::Csv),
            to: file_of(base, table.name, FileType::Parquet),
        },
        Stage::ToVortex => PbiStepV::ToVortex {
            table: place,
            from: file_of(base, table.name, FileType::Parquet),
            to: file_of(base, table.name, FileType::Vortex),
        },
    }
}

/// The steps that do something to every table.
pub open spec fn stage_steps(base: Seq<char>, tables: Seq<TableV>, stage: Stage) -> Seq<PbiStepV> {
    Seq::new(tables.len(), |i: int| stage_step(base, tables[i], i, stage))
}

/// How every table is made as Parquet: all are downloaded, then all decompressed, then all
/// converted.
pub open spec fn parquet_steps(base: Seq<char>, tables: Seq<TableV>) -> Seq<PbiStepV> {
    stage_steps(base, tables, Stage::Download) + stage_steps(base, tables, Stage::Decompress)
        + stage_steps(base, tables, Stage::ToParquet)
}

/// How one table is made as Parquet: it is fetched unless its Parquet is there.
pub open spec fn table_parquet_steps(
    base: Seq<char>,
    table: TableV,
    place: int,
    present: bool,
) -> Seq<PbiStepV> {
    (if present {
        Seq::empty()
    } else {
        seq![
            stage_step(base, table, place, Stage::Download),
            stage_step(base, table, place, Stage::Decompress),
        ]
    }) + seq![stage_step(base, table, place, Stage::ToParquet)]
}

impl PBIData {
    /// The files of the tables, as they are stored in a type.
    pub open spec fn file_list(self, file_type: FileType) -> Seq<Seq<char>> {
        Seq::new(
            self.tables@.len(),
            |i: int| file_of(self.base_path@, self.tables@[i]@.name, file_type),
        )
    }

    /// Where a file of a table lies.
    pub fn get_file_path(&self, table_name: &str, file_type: FileType) -> (out: String)
        requires
            !table_name@.contains('/'),
        ensures
            out@ == file_of(self.base_path@, table_name@, file_type),
    {
        let dir = path::join(self.base_path.as_str(), file_type.name());
        path::place(dir.as_str(), table_name, file_type.extension())
    }

    /// The files of the tables.
    pub fn list_files(&self, file_type: FileType) -> (out: Vec<String>)
        ensures
            texts(out@) == self.file_list(file_type),
    {
        let mut out: Vec<String> = Vec::new();
        let mut index: usize = 0;
        while index < self.tables.len()
            invariant
                index <= self.tables@.len(),
                out@.len() == index,
                forall|i: int|
                    0 <= i < index ==> (#[trigger] out@[i])@ == file_of(
                        self.base_path@,
                        self.tables@[i]@.name,
                        file_type,
                    ),
            decreases self.tables@.len() - index,
        {
            let name = self.tables[index].name();
            out.push(self.get_file_path(name, file_type));
            index = index + 1;
        }
        assert(texts(out@) =~= self.file_list(file_type));
        out
    }

    /// The step that does something to a table.
    fn staged(&self, place: usize, stage: Stage) -> (out: PbiStep)
        requires
            place < self.tables@.len(),
        ensures
            out@ == stage_step(
                self.base_path@,
                self.tables@[place as int]@,
                place as int,
                stage,
            ),
    {
        let table = &self.tables[place];
        let name = table.name();
        match stage {
            Stage::Download => PbiStep::Download {
                url: String::from_str(table.data_url()),
                path: self.get_file_path(name, FileType::CsvBzip2),
            },
            Stage::Decompress => PbiStep::Decompress {
                from: self.get_file_path(name, FileType::CsvBzip2),
                to: self.get_file_path(name, FileType::Csv),
            },
            Stage::ToParquet => PbiStep::ToParquet {
                table: place,
                from: self.get_file_path(name, FileType::Csv),
                to: self.get_file_path(name, FileType::Parquet),
            },
            Stage::ToVortex => PbiStep::ToVortex {
                table: place,
                from: self.get_file_path(name, FileType::Parquet),
                to: self.get_file_path(name, FileType::Vortex),
            },
        }
    }

    /// Add the steps that do something to every table.
    fn stage_all(&self, steps: &mut Vec<PbiStep>, stage: Stage)
        ensures
            steps_model(final(steps)@) == steps_model(old(steps)@) + stage_steps(
                self.base_path@,
                tables_model(self.tables@),
                stage,
            ),
    {
        let ghost opening = steps_model(steps@);
        let ghost wanted = stage_steps(self.base_path@, tables_model(self.tables@), stage);
        let mut index: usize = 0;
        assert(opening + wanted.take(0) =~= opening);
        while index < self.tables.len()
            invariant
                index <= self.tables@.len(),
                wanted == stage_steps(self.base_path@, tables_model(self.tables@), stage),
                steps_model(steps@) == opening + wanted.take(index as int),
            decreases self.tables@.len() - index,
        {
            let next = self.staged(index, stage);
            let ghost shown = next@;
            let ghost before = steps_model(steps@);
            steps.push(next);
            proof {
                assert(tables_model(self.tables@)[index as int] == self.tables@[index as int]@);
                assert(wanted[index as int] == shown);
                assert(steps_model(steps@) =~= before.push(shown));
                assert(wanted.take(index + 1) =~= wanted.take(index as int).push(shown));
                assert(opening + wanted.take(index + 1) =~= (opening + wanted.take(
                    index as int,
                )).push(shown));
            }
            index = index + 1;
        }
        assert(wanted.take(wanted.len() as int) =~= wanted);
    }

    /// Download every table.
    pub fn download_bzips(&self) -> (out: Vec<PbiStep>)
        ensures
            steps_model(out@) == stage_steps(
                self.base_path@,
                tables_model(self.tables@),
                Stage::Download,
            ),
    {
        let mut out: Vec<PbiStep> = Vec::new();
        let ghost none = steps_model(out@);
        self.stage_all(&mut out, Stage::Download);
        assert(steps_model(out@) =~= stage_steps(
            self.base_path@,
            tables_model(self.tables@),
            Stage::Download,
        ));
        out
    }

    /// Materialise a single table as Parquet, fetching only that table's data. `present` says
    /// whether its Parquet is there.
    pub fn write_table_as_parquet(&self, table: usize, present: bool) -> (out: Vec<PbiStep>)
        requires
            table < self.tables@.len(),
        ensures
            steps_model(out@) == table_parquet_steps(
                self.base_path@,
                self.tables@[table as int]@,
                table as int,
                present,
            ),
    {
        let mut out: Vec<PbiStep> = Vec::new();
        if !present {
            out.push(self.staged(table, Stage::Download));
            out.push(self.staged(table, Stage::Decompress));
        }
        out.push(self.staged(table, Stage::ToParquet));
        assert(steps_model(out@) =~= table_parquet_steps(
            self.base_path@,
            self.tables@[table as int]@,
            table as int,
            present,
        ));
        out
    }

    /// Materialise a single table as Vortex.
    pub fn write_table_as_vortex(&self, table: usize, present: bool) -> (out: Vec<PbiStep>)
        requires
            table < self.tables@.len(),
        ensures
            steps_model(out@) == table_parquet_steps(
                self.base_path@,
                self.tables@[table as int]@,
                table as int,
                present,
            ).push(
                stage_step(
                    self.base_path@,
                    self.tables@[table as int]@,
                    table as int,
                    Stage::ToVortex,
                ),
            ),
    {
        let mut out = self.write_table_as_parquet(table, present);
        let ghost before = steps_model(out@);
        let next = self.staged(table, Stage::ToVortex);
        let ghost shown = next@;
        out.push(next);
        assert(steps_model(out@) =~= before.push(shown));
        out
    }

    /// Materialise every table as Parquet.
    pub fn write_as_parquet(&self) -> (out: Vec<PbiStep>)
        ensures
            steps_model(out@) == parquet_steps(self.base_path@, tables_model(self.tables@)),
    {
        let mut out = self.download_bzips();
        self.stage_all(&mut out, Stage::Decompress);
        self.stage_all(&mut out, Stage::ToParquet);
        out
    }

    /// Materialise every table as Vortex.
    pub fn write_as_vortex(&self) -> (out: Vec<PbiStep>)
        ensures
            steps_model(out@) == parquet_steps(self.base_path@, tables_model(self.tables@))
                + stage_steps(self.base_path@, tables_model(self.tables@), Stage::ToVortex),
    {
        let mut out = self.write_as_parquet();
        self.stage_all(&mut out, Stage::ToVortex);
        out
    }
}

// Converting a table's text.

/// What `regex::Regex::replace_all` makes of a text, or why the pattern is none.
pub uninterp spec fn regex_replaced(
    pattern: Seq<char>,
    text: Seq<char>,
    replacement: Seq<char>,
) -> Result<Seq<char>, Seq<char>>;

/// A text, or why it cannot be had.
pub open spec fn text_outcome(out: Result<String, String>) -> Result<Seq<char>, Seq<char>> {
    match out {
        Ok(text) => Ok(text@),
        Err(error) => Err(error@),
    }
}

/// `regex::Regex::new` and then `regex::Regex::replace_all`: the text with every match replaced,
/// or the complaint about the pattern. The result is named; nothing is said of which texts match.
#[verifier::external_body]
fn replace_all(pattern: &str, text: &str, replacement: &str) -> (out: Result<String, String>)
    ensures
        text_outcome(out) == regex_replaced(pattern@, text@, replacement@),
{
    match regex::Regex::new(pattern) {
        Ok(regex) => Ok(regex.replace_all(text, replacement).into_owned()),
        Err(error) => Err(error.to_string()),
    }
}

/// Decimal types, with or without a precision and a scale.
pub const DECIMAL_PATTERN: &'static str =
    "(?i)DECIMAL\\(\\s*\\d+\\s*(?:,\\s*\\d+\\s*)?\\)|\\bDECIMAL\\b";

/// Replace unsupported decimal types with doubles.
pub fn replace_decimals(create_table_sql: &str) -> (out: VortexResult<String>)
    ensures
        match out {
            Ok(text) => regex_replaced(DECIMAL_PATTERN@, create_table_sql@, "DOUBLE"@) == Ok::<
                Seq<char>,
                Seq<char>,
            >(text@),
            Err(error) => regex_replaced(DECIMAL_PATTERN@, create_table_sql@, "DOUBLE"@) == Err::<
                Seq<char>,
                Seq<char>,
            >(error@),
        },
{
    match replace_all(DECIMAL_PATTERN, create_table_sql, "DOUBLE") {
        Ok(text) => Ok(text),
        Err(error) => Err(VortexError::new(error)),
    }
}

/// The script that converts a table's text to Parquet, given the statement that creates the table.
pub open spec fn script_text(
    create_table: Seq<char>,
    table: Seq<char>,
    csv: Seq<char>,
    parquet: Seq<char>,
) -> Seq<char> {
    "\n             "@ + create_table + ";\n\n             COPY "@ + table + " FROM '"@ + csv
        + "' (\n              DELIMITER '|',\n              HEADER false,\n              NULL 'null'\n             );\n\n             COPY "@
        + table + " TO '"@ + parquet
        + "' (FORMAT parquet, COMPRESSION zstd);\n             "@
}

/// The script that converts a table's text to Parquet.
pub fn conversion_script(create_table: &str, table: &str, csv: &str, parquet: &str) -> (out: String)
    ensures
        out@ == script_text(create_table@, table@, csv@, parquet@),
{
    let mut out = String::from_str("\n             ");
    out.append(create_table);
    out.append(";\n\n             COPY ");
    out.append(table);
    out.append(" FROM '");
    out.append(csv);
    out.append(
        "' (\n              DELIMITER '|',\n              HEADER false,\n              NULL 'null'\n             );\n\n             COPY ",
    );
    out.append(table);
    out.append(" TO '");
    out.append(parquet);
    out.append("' (FORMAT parquet, COMPRESSION zstd);\n             ");
    out
}

/// Convert a table's text to Parquet. Decimals are read as doubles.
pub fn public_bi_csv_to_parquet_file(table: &Table, csv_path: &str, parquet_path: &str) -> (out:
    VortexResult<CommandLine>)
    ensures
        match regex_replaced(DECIMAL_PATTERN@, table@.create_table_sql, "DOUBLE"@) {
            Ok(create_table) => out matches Ok(command) && command@ == CommandV::of(
                "duckdb"@,
            ).with("-c"@).with(
                script_text(create_table, table@.name, csv_path@, parquet_path@),
            ),
            Err(error) => out matches Err(found) && found@ == error,
        },
{
    match replace_decimals(table.create_table_sql()) {
        Ok(create_table) => {
            let script = conversion_script(
                create_table.as_str(),
                table.name(),
                csv_path,
                parquet_path,
            );
            Ok(CommandLine::new("duckdb").arg("-c").arg(script.as_str()))
        },
        Err(error) => Err(error),
    }
}

// The benchmark.

/// The benchmark over one data set.
pub struct PublicBiBenchmark {
    pub dataset: PBIDataset,
    pub data_url: Location,
    pub table_names: Vec<String>,
}

/// A text holds neither a star nor an opening bracket, the characters that can make a text no
/// pattern.
pub open spec fn plain_pattern(text: Seq<char>) -> bool {
    !text.contains('*') && !text.contains('[')
}

/// Whether `glob::Pattern::new` accepts a text without a backslash.
pub uninterp spec fn glob_is_valid(text: Seq<char>) -> bool;

/// `glob::Pattern::new`: whether a text is a pattern. One that holds neither a star nor an opening
/// bracket always is. The result is named for texts without a backslash; nothing more is said of
/// which of them are patterns. Whether a backslash separates the components of a path goes by the
/// platform, so nothing more is said of a text that holds one.
#[verifier::external_body]
fn valid_glob(text: &str) -> (out: bool)
    ensures
        plain_pattern(text@) ==> out,
        !text@.contains('\\') ==> out == glob_is_valid(text@),
{
    glob::Pattern::new(text).is_ok()
}

impl PublicBiBenchmark {
    /// The names of the tables.
    pub open spec fn names(self) -> Seq<Seq<char>> {
        texts(self.table_names@)
    }

    /// The benchmark over the data of a data set.
    pub fn new(dataset: PBIDataset, data: &PBIData) -> (out: VortexResult<PublicBiBenchmark>)
        ensures
            match location::url_read("file:"@ + data.base_path@ + "/"@) {
                Ok(parts) => out matches Ok(benchmark) && {
                    &&& benchmark.dataset == dataset
                    &&& benchmark.data_url.parts() == parts
                    &&& benchmark.names() == Seq::new(
                        data.tables@.len(),
                        |i: int| data.tables@[i]@.name,
                    )
                },
                Err(error) => out matches Err(found) && found@ == error,
            },
    {
        let mut table_names: Vec<String> = Vec::new();
        let mut index: usize = 0;
        while index < data.tables.len()
            invariant
                index <= data.tables@.len(),
                table_names@.len() == index,
                forall|i: int|
                    0 <= i < index ==> (#[trigger] table_names@[i])@ == data.tables@[i]@.name,
            decreases data.tables@.len() - index,
        {
            table_names.push(String::from_str(data.tables[index].name()));
            index = index + 1;
        }
        match Location::parse(join3("file:", data.base_path.as_str(), "/").as_str()) {
            Err(error) => Err(VortexError::new(error)),
            Ok(data_url) => {
                assert(texts(table_names@) =~= Seq::new(
                    data.tables@.len(),
                    |i: int| data.tables@[i]@.name,
                ));
                Ok(PublicBiBenchmark { dataset, data_url, table_names })
            },
        }
    }

    /// Where the benchmark is described.
    pub fn doc_path(&self) -> (out: &'static str)
        ensures
            out@ == "vortex-bench/sql/public-bi.md"@,
    {
        "vortex-bench/sql/public-bi.md"
    }

    /// The name of the benchmark.
    pub fn dataset_name(&self) -> (out: &'static str)
        ensures
            out@ == "public-bi"@,
    {
        "public-bi"
    }

    /// The benchmark as it is shown, with the name of its data set in the checkout.
    pub fn dataset_display(&self, benchmark: &PBIBenchmark) -> (out: String)
        ensures
            out@ == "public-bi("@ + benchmark@.name + ")"@,
    {
        join3("public-bi(", benchmark.name.as_str(), ")")
    }

    /// The tables of the benchmark. Their schemas are inferred from the data files.
    pub fn table_specs<S>(&self) -> (out: Vec<TableSpec<S>>)
        ensures
            out@.len() == self.names().len(),
            forall|i: int|
                0 <= i < out@.len() ==> (#[trigger] out@[i]).name@ == self.names()[i]
                    && out@[i].schema is None,
    {
        let mut out: Vec<TableSpec<S>> = Vec::new();
        let mut index: usize = 0;
        while index < self.table_names.len()
            invariant
                index <= self.table_names@.len(),
                out@.len() == index,
                forall|i: int|
                    0 <= i < index ==> (#[trigger] out@[i]).name@ == self.names()[i]
                        && out@[i].schema is None,
            decreases self.table_names@.len() - index,
        {
            assert(self.names()[index as int] == self.table_names@[index as int]@);
            out.push(TableSpec { name: self.table_names[index].clone(), schema: None });
            index = index + 1;
        }
        out
    }

    /// The pattern of a table's files: each table is a single file named after it. There is none
    /// where the name makes no pattern.
    pub fn pattern(&self, table_name: &str, format: Format) -> (out: Option<String>)
        ensures
            ({
                let text = file_name(table_name@, format);
                &&& maybe_text(out) == Some(text) || out is None
                &&& plain_pattern(text) ==> out is Some
                &&& !text.contains('\\') ==> maybe_text(out) == pattern_text(
                    table_name@,
                    format,
                    glob_is_valid(text),
                )
            }),
    {
        let text = join3(table_name, ".", format.ext());
        let accepted = valid_glob(text.as_str());
        pattern_of(table_name, format, accepted)
    }
}

/// The name of the single file of a table.
pub open spec fn file_name(table_name: Seq<char>, format: Format) -> Seq<char> {
    table_name + "."@ + format.ext_text()
}

/// The pattern of a table's files, where its text is accepted as one.
pub open spec fn pattern_text(table_name: Seq<char>, format: Format, accepted: bool) -> Option<
    Seq<char>,
> {
    if accepted {
        Some(file_name(table_name, format))
    } else {
        None
    }
}

/// The pattern of a table's files, given whether its text is accepted as one.
pub fn pattern_of(table_name: &str, format: Format, accepted: bool) -> (out: Option<String>)
    ensures
        maybe_text(out) == pattern_text(table_name@, format, accepted),
{
    if accepted {
        Some(join3(table_name, ".", format.ext()))
    } else {
        None
    }
}

} // verus!
