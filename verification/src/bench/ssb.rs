//! Star Schema Benchmark data generation.
//!
//! The data comes from the reference generator, which is built from source and writes delimited
//! text; that text is converted to Parquet. What is decided here are the programs to run and the
//! files to expect.

use vstd::prelude::*;

use super::command::{CommandLine, CommandV};
use super::format::Format;
use super::path;
use crate::text::{join2, join3};

verus! {

/// Where the generator's source lies.
pub const DBGEN_REPO: &'static str = "https://github.com/eyalroz/ssb-dbgen.git";

/// Pinned so the generated data is reproducible across runs and machines.
pub const DBGEN_REV: &'static str = "ae1e254aa4d603d8ef1f44078e5abed011634b23";

/// One table: the registered name, the file the generator writes it to, and its columns with
/// their types, in file order.
pub struct Table {
    /// Name registered with the query engines, and the Parquet file stem.
    pub name: &'static str,
    /// Stem of the file that the generator emits.
    pub tbl_stem: &'static str,
    pub columns: Vec<(&'static str, &'static str)>,
}

/// What a table is.
pub struct TableV {
    pub name: Seq<char>,
    pub tbl_stem: Seq<char>,
    pub columns: Seq<(Seq<char>, Seq<char>)>,
}

/// Columns, by name and type.
pub open spec fn columns_model(columns: Seq<(&'static str, &'static str)>) -> Seq<
    (Seq<char>, Seq<char>),
> {
    Seq::new(columns.len(), |i: int| (columns[i].0@, columns[i].1@))
}

impl View for Table {
    type V = TableV;

    open spec fn view(&self) -> TableV {
        TableV {
            name: self.name@,
            tbl_stem: self.tbl_stem@,
            columns: columns_model(self.columns@),
        }
    }
}

/// What tables are.
pub open spec fn tables_model(tables: Seq<Table>) -> Seq<TableV> {
    Seq::new(tables.len(), |i: int| tables[i]@)
}

/// The columns of `customer`.
pub open spec fn customer_columns() -> Seq<(Seq<char>, Seq<char>)> {
    seq![
        ("c_custkey"@, "INTEGER"@),
        ("c_name"@, "VARCHAR"@),
        ("c_address"@, "VARCHAR"@),
        ("c_city"@, "VARCHAR"@),
        ("c_nation"@, "VARCHAR"@),
        ("c_region"@, "VARCHAR"@),
        ("c_phone"@, "VARCHAR"@),
        ("c_mktsegment"@, "VARCHAR"@),
    ]
}

/// The columns of `supplier`.
pub open spec fn supplier_columns() -> Seq<(Seq<char>, Seq<char>)> {
    seq![
        ("s_suppkey"@, "INTEGER"@),
        ("s_name"@, "VARCHAR"@),
        ("s_address"@, "VARCHAR"@),
        ("s_city"@, "VARCHAR"@),
        ("s_nation"@, "VARCHAR"@),
        ("s_region"@, "VARCHAR"@),
        ("s_phone"@, "VARCHAR"@),
    ]
}

/// The columns of `part`.
pub open spec fn part_columns() -> Seq<(Seq<char>, Seq<char>)> {
    seq![
        ("p_partkey"@, "INTEGER"@),
        ("p_name"@, "VARCHAR"@),
        ("p_mfgr"@, "VARCHAR"@),
        ("p_category"@, "VARCHAR"@),
        ("p_brand1"@, "VARCHAR"@),
        ("p_color"@, "VARCHAR"@),
        ("p_type"@, "VARCHAR"@),
        ("p_size"@, "INTEGER"@),
        ("p_container"@, "VARCHAR"@),
    ]
}

/// The columns of `dwdate`.
pub open spec fn dwdate_columns() -> Seq<(Seq<char>, Seq<char>)> {
    seq![
        ("d_datekey"@, "INTEGER"@),
        ("d_date"@, "VARCHAR"@),
        ("d_dayofweek"@, "VARCHAR"@),
        ("d_month"@, "VARCHAR"@),
        ("d_year"@, "INTEGER"@),
        ("d_yearmonthnum"@, "INTEGER"@),
        ("d_yearmonth"@, "VARCHAR"@),
        ("d_daynuminweek"@, "INTEGER"@),
        ("d_daynuminmonth"@, "INTEGER"@),
        ("d_daynuminyear"@, "INTEGER"@),
        ("d_monthnuminyear"@, "INTEGER"@),
        ("d_weeknuminyear"@, "INTEGER"@),
        ("d_sellingseason"@, "VARCHAR"@),
        ("d_lastdayinweekfl"@, "INTEGER"@),
        ("d_lastdayinmonthfl"@, "INTEGER"@),
        ("d_holidayfl"@, "INTEGER"@),
        ("d_weekdayfl"@, "INTEGER"@),
    ]
}

/// The columns of `lineorder`.
pub open spec fn lineorder_columns() -> Seq<(Seq<char>, Seq<char>)> {
    seq![
        ("lo_orderkey"@, "INTEGER"@),
        ("lo_linenumber"@, "INTEGER"@),
        ("lo_custkey"@, "INTEGER"@),
        ("lo_partkey"@, "INTEGER"@),
        ("lo_suppkey"@, "INTEGER"@),
        ("lo_orderdate"@, "INTEGER"@),
        ("lo_orderpriority"@, "VARCHAR"@),
        ("lo_shippriority"@, "VARCHAR"@),
        ("lo_quantity"@, "INTEGER"@),
        ("lo_extendedprice"@, "INTEGER"@),
        ("lo_ordtotalprice"@, "INTEGER"@),
        ("lo_discount"@, "INTEGER"@),
        ("lo_revenue"@, "INTEGER"@),
        ("lo_supplycost"@, "INTEGER"@),
        ("lo_tax"@, "INTEGER"@),
        ("lo_commitdate"@, "INTEGER"@),
        ("lo_shipmode"@, "VARCHAR"@),
    ]
}

/// The five tables.
pub open spec fn ssb_schema() -> Seq<TableV> {
    seq![
        TableV { name: "customer"@, tbl_stem: "customer"@, columns: customer_columns() },
        TableV { name: "supplier"@, tbl_stem: "supplier"@, columns: supplier_columns() },
        TableV { name: "part"@, tbl_stem: "part"@, columns: part_columns() },
        TableV { name: "dwdate"@, tbl_stem: "date"@, columns: dwdate_columns() },
        TableV { name: "lineorder"@, tbl_stem: "lineorder"@, columns: lineorder_columns() },
    ]
}

/// The table `customer`.
fn customer() -> (out: Table)
    ensures
        out@ == (TableV { name: "customer"@, tbl_stem: "customer"@, columns: customer_columns() }),
{
    let columns: Vec<(&'static str, &'static str)> = vec![
        ("c_custkey", "INTEGER"),
        ("c_name", "VARCHAR"),
        ("c_address", "VARCHAR"),
        ("c_city", "VARCHAR"),
        ("c_nation", "VARCHAR"),
        ("c_region", "VARCHAR"),
        ("c_phone", "VARCHAR"),
        ("c_mktsegment", "VARCHAR"),
    ];
    assert(columns_model(columns@) =~= customer_columns());
    Table { name: "customer", tbl_stem: "customer", columns }
}

/// The table `supplier`.
fn supplier() -> (out: Table)
    ensures
        out@ == (TableV { name: "supplier"@, tbl_stem: "supplier"@, columns: supplier_columns() }),
{
    let columns: Vec<(&'static str, &'static str)> = vec![
        ("s_suppkey", "INTEGER"),
        ("s_name", "VARCHAR"),
        ("s_address", "VARCHAR"),
        ("s_city", "VARCHAR"),
        ("s_nation", "VARCHAR"),
        ("s_region", "VARCHAR"),
        ("s_phone", "VARCHAR"),
    ];
    assert(columns_model(columns@) =~= supplier_columns());
    Table { name: "supplier", tbl_stem: "supplier", columns }
}

/// The table `part`.
fn part() -> (out: Table)
    ensures
        out@ == (TableV { name: "part"@, tbl_stem: "part"@, columns: part_columns() }),
{
    let columns: Vec<(&'static str, &'static str)> = vec![
        ("p_partkey", "INTEGER"),
        ("p_name", "VARCHAR"),
        ("p_mfgr", "VARCHAR"),
        ("p_category", "VARCHAR"),
        ("p_brand1", "VARCHAR"),
        ("p_color", "VARCHAR"),
        ("p_type", "VARCHAR"),
        ("p_size", "INTEGER"),
        ("p_container", "VARCHAR"),
    ];
    assert(columns_model(columns@) =~= part_columns());
    Table { name: "part", tbl_stem: "part", columns }
}

/// The table `dwdate`.
fn dwdate() -> (out: Table)
    ensures
        out@ == (TableV { name: "dwdate"@, tbl_stem: "date"@, columns: dwdate_columns() }),
{
    let columns: Vec<(&'static str, &'static str)> = vec![
        ("d_datekey", "INTEGER"),
        ("d_date", "VARCHAR"),
        ("d_dayofweek", "VARCHAR"),
        ("d_month", "VARCHAR"),
        ("d_year", "INTEGER"),
        ("d_yearmonthnum", "INTEGER"),
        ("d_yearmonth", "VARCHAR"),
        ("d_daynuminweek", "INTEGER"),
        ("d_daynuminmonth", "INTEGER"),
        ("d_daynuminyear", "INTEGER"),
        ("d_monthnuminyear", "INTEGER"),
        ("d_weeknuminyear", "INTEGER"),
        ("d_sellingseason", "VARCHAR"),
        ("d_lastdayinweekfl", "INTEGER"),
        ("d_lastdayinmonthfl", "INTEGER"),
        ("d_holidayfl", "INTEGER"),
        ("d_weekdayfl", "INTEGER"),
    ];
    assert(columns_model(columns@) =~= dwdate_columns());
    Table { name: "dwdate", tbl_stem: "date", columns }
}

/// The table `lineorder`.
fn lineorder() -> (out: Table)
    ensures
        out@ == (TableV { name: "lineorder"@, tbl_stem: "lineorder"@, columns: lineorder_columns() }),
{
    let columns: Vec<(&'static str, &'static str)> = vec![
        ("lo_orderkey", "INTEGER"),
        ("lo_linenumber", "INTEGER"),
        ("lo_custkey", "INTEGER"),
        ("lo_partkey", "INTEGER"),
        ("lo_suppkey", "INTEGER"),
        ("lo_orderdate", "INTEGER"),
        ("lo_orderpriority", "VARCHAR"),
        ("lo_shippriority", "VARCHAR"),
        ("lo_quantity", "INTEGER"),
        ("lo_extendedprice", "INTEGER"),
        ("lo_ordtotalprice", "INTEGER"),
        ("lo_discount", "INTEGER"),
        ("lo_revenue", "INTEGER"),
        ("lo_supplycost", "INTEGER"),
        ("lo_tax", "INTEGER"),
        ("lo_commitdate", "INTEGER"),
        ("lo_shipmode", "VARCHAR"),
    ];
    assert(columns_model(columns@) =~= lineorder_columns());
    Table { name: "lineorder", tbl_stem: "lineorder", columns }
}

/// The five tables, typed as in the reference schema. `date` is a reserved word, so the calendar
/// is registered as `dwdate`.
pub fn tables() -> (out: Vec<Table>)
    ensures
        tables_model(out@) == ssb_schema(),
{
    let mut out: Vec<Table> = Vec::new();
    out.push(customer());
    out.push(supplier());
    out.push(part());
    out.push(dwdate());
    out.push(lineorder());
    assert(tables_model(out@) =~= ssb_schema());
    out
}

/// The names of the tables that engines register.
pub open spec fn registered_names() -> Seq<Seq<char>> {
    seq!["customer"@, "supplier"@, "part"@, "dwdate"@, "lineorder"@]
}

/// The tables that engines register.
pub fn ssb_tables() -> (out: Vec<&'static str>)
    ensures
        out@.len() == registered_names().len(),
        forall|i: int| 0 <= i < out@.len() ==> (#[trigger] out@[i])@ == registered_names()[i],
{
    vec!["customer", "supplier", "part", "dwdate", "lineorder"]
}

/// The tables that are registered are those that are generated, in the same order.
pub proof fn registered_tables_are_generated()
    ensures
        registered_names() == Seq::new(ssb_schema().len(), |i: int| ssb_schema()[i].name),
{
    assert(registered_names() =~= Seq::new(ssb_schema().len(), |i: int| ssb_schema()[i].name));
}

/// The first `n` columns, as the reader of the generator's files takes them.
pub open spec fn columns_text(columns: Seq<(Seq<char>, Seq<char>)>, n: nat) -> Seq<char>
    decreases n,
{
    if n == 0 {
        Seq::empty()
    } else {
        columns_text(columns, (n - 1) as nat) + "'"@ + columns[n - 1].0 + "':'"@ + columns[n
            - 1].1 + "',"@
    }
}

/// The column specification of a table.
pub open spec fn csv_columns(table: TableV) -> Seq<char> {
    columns_text(table.columns, table.columns.len()) + "'dummy':'VARCHAR'"@
}

/// Where the generator writes a table.
pub open spec fn tbl_file(tbl_dir: Seq<char>, table: TableV) -> Seq<char> {
    path::joined_path(tbl_dir, table.tbl_stem + ".tbl"@)
}

/// Where the Parquet of a table lies.
pub open spec fn parquet_file(parquet_dir: Seq<char>, table: TableV) -> Seq<char> {
    path::joined_path(parquet_dir, table.name + ".parquet"@)
}

/// The statement that converts a table.
pub open spec fn copy_text(table: TableV, tbl_dir: Seq<char>, parquet_dir: Seq<char>) -> Seq<char> {
    "COPY (SELECT * EXCLUDE (dummy) FROM read_csv('"@ + tbl_file(tbl_dir, table)
        + "', delim='|', header=false, columns={"@ + csv_columns(table) + "})) TO '"@
        + parquet_file(parquet_dir, table) + "' (FORMAT PARQUET);\n"@
}

impl Table {
    /// `read_csv` column spec, plus a trailing `dummy` for the line-terminating `|` that every
    /// row carries. The `dummy` is dropped again by [`Table::copy_stmt`].
    pub fn read_csv_columns(&self) -> (out: String)
        ensures
            out@ == csv_columns(self@),
    {
        let ghost model = columns_model(self.columns@);
        let mut out = String::new();
        let mut index: usize = 0;
        assert(out@ =~= Seq::empty());
        while index < self.columns.len()
            invariant
                index <= self.columns@.len(),
                model == columns_model(self.columns@),
                out@ == columns_text(model, index as nat),
            decreases self.columns@.len() - index,
        {
            assert(model[index as int] == (
                self.columns@[index as int].0@,
                self.columns@[index as int].1@,
            ));
            out.append("'");
            out.append(self.columns[index].0);
            out.append("':'");
            out.append(self.columns[index].1);
            out.append("',");
            index = index + 1;
        }
        out.append("'dummy':'VARCHAR'");
        out
    }

    /// Where the generator writes the table.
    pub fn tbl_path(&self, tbl_dir: &str) -> (out: String)
        ensures
            out@ == tbl_file(tbl_dir@, self@),
    {
        path::join(tbl_dir, join2(self.tbl_stem, ".tbl").as_str())
    }

    /// Where the table's Parquet lies.
    pub fn parquet_path(&self, parquet_dir: &str) -> (out: String)
        ensures
            out@ == parquet_file(parquet_dir@, self@),
    {
        path::join(parquet_dir, join2(self.name, ".parquet").as_str())
    }

    /// The statement that converts the table.
    pub fn copy_stmt(&self, tbl_dir: &str, parquet_dir: &str) -> (out: String)
        ensures
            out@ == copy_text(self@, tbl_dir@, parquet_dir@),
    {
        let mut out = String::from_str("COPY (SELECT * EXCLUDE (dummy) FROM read_csv('");
        out.append(self.tbl_path(tbl_dir).as_str());
        out.append("', delim='|', header=false, columns={");
        out.append(self.read_csv_columns().as_str());
        out.append("})) TO '");
        out.append(self.parquet_path(parquet_dir).as_str());
        out.append("' (FORMAT PARQUET);\n");
        out
    }
}

/// The statements that convert the first `n` tables.
pub open spec fn convert_text(
    tables: Seq<TableV>,
    tbl_dir: Seq<char>,
    parquet_dir: Seq<char>,
    n: nat,
) -> Seq<char>
    decreases n,
{
    if n == 0 {
        Seq::empty()
    } else {
        convert_text(tables, tbl_dir, parquet_dir, (n - 1) as nat) + copy_text(
            tables[n - 1],
            tbl_dir,
            parquet_dir,
        )
    }
}

/// One step of making the data.
#[derive(Debug)]
pub enum SsbStep {
    /// Create a directory and those above it.
    CreateDir(String),
    /// Run a program.
    Run(CommandLine),
    /// Fail unless a file exists.
    Expect { file: String, complaint: String },
    /// Remove a directory and what is in it.
    RemoveDir(String),
}

/// What a step does.
pub enum SsbStepV {
    CreateDir(Seq<char>),
    Run(CommandV),
    Expect { file: Seq<char>, complaint: Seq<char> },
    RemoveDir(Seq<char>),
}

impl View for SsbStep {
    type V = SsbStepV;

    open spec fn view(&self) -> SsbStepV {
        match self {
            SsbStep::CreateDir(dir) => SsbStepV::CreateDir(dir@),
            SsbStep::Run(command) => SsbStepV::Run(command@),
            SsbStep::Expect { file, complaint } => SsbStepV::Expect {
                file: file@,
                complaint: complaint@,
            },
            SsbStep::RemoveDir(dir) => SsbStepV::RemoveDir(dir@),
        }
    }
}

/// What steps do.
pub open spec fn steps_model(steps: Seq<SsbStep>) -> Seq<SsbStepV> {
    Seq::new(steps.len(), |i: int| steps[i]@)
}

/// Add a step.
fn step(steps: &mut Vec<SsbStep>, next: SsbStep)
    ensures
        steps_model(final(steps)@) == steps_model(old(steps)@).push(next@),
{
    let ghost before = steps_model(steps@);
    steps.push(next);
    assert(steps_model(steps@) =~= before.push(next@));
}

/// Where the generator is checked out, shared by every scale factor.
pub open spec fn checkout_dir(data_dir: Seq<char>) -> Seq<char> {
    path::joined_path(data_dir, "ssb-dbgen"@)
}

/// Where the generator is built.
pub open spec fn build_dir(data_dir: Seq<char>) -> Seq<char> {
    path::joined_path(checkout_dir(data_dir), "build"@)
}

/// The generator.
pub open spec fn dbgen_binary(data_dir: Seq<char>) -> Seq<char> {
    path::joined_path(build_dir(data_dir), "dbgen"@)
}

/// Where the generator is checked out, shared by every scale factor.
pub fn dbgen_dir(data_dir: &str) -> (out: String)
    ensures
        out@ == checkout_dir(data_dir@),
{
    path::join(data_dir, "ssb-dbgen")
}

/// The generator.
pub fn dbgen_path(data_dir: &str) -> (out: String)
    ensures
        out@ == dbgen_binary(data_dir@),
{
    path::join(path::join(dbgen_dir(data_dir).as_str(), "build").as_str(), "dbgen")
}

/// Fetching the generator's source.
pub open spec fn clone_command(dir: Seq<char>) -> CommandV {
    CommandV::of("git"@).with("clone"@).with(DBGEN_REPO@).with(dir)
}

/// Taking the pinned revision.
pub open spec fn checkout_command(dir: Seq<char>) -> CommandV {
    CommandV::of("git"@).with("-C"@).with(dir).with("checkout"@).with("--quiet"@).with(DBGEN_REV@)
}

/// Configuring the build.
pub open spec fn configure_command(dir: Seq<char>, build: Seq<char>) -> CommandV {
    CommandV::of("cmake"@).with("-S"@).with(dir).with("-B"@).with(build).with(
        "-DCMAKE_BUILD_TYPE=Release"@,
    )
}

/// Building the generator.
pub open spec fn build_command(build: Seq<char>) -> CommandV {
    CommandV::of("cmake"@).with("--build"@).with(build).with("--target"@).with("dbgen"@)
}

/// What is said of a generator that the build did not make.
pub open spec fn not_built(binary: Seq<char>) -> Seq<char> {
    "ssb: cmake succeeded but "@ + binary + " is missing"@
}

/// How the generator is built: nothing is done where it exists, and its source is fetched where it
/// is not checked out.
pub open spec fn build_steps(data_dir: Seq<char>, built: bool, cloned: bool) -> Seq<SsbStepV> {
    let dir = checkout_dir(data_dir);
    let build = build_dir(data_dir);
    let binary = dbgen_binary(data_dir);
    if built {
        Seq::empty()
    } else {
        (if cloned {
            Seq::empty()
        } else {
            seq![SsbStepV::CreateDir(data_dir), SsbStepV::Run(clone_command(dir))]
        }) + seq![
            SsbStepV::Run(checkout_command(dir)),
            SsbStepV::Run(configure_command(dir, build)),
            SsbStepV::Run(build_command(build)),
            SsbStepV::Expect { file: binary, complaint: not_built(binary) },
        ]
    }
}

/// Clone (once) and build the pinned generator. `built` and `cloned` say whether the binary and
/// the checkout are there.
pub fn build_dbgen(data_dir: &str, built: bool, cloned: bool) -> (out: Vec<SsbStep>)
    ensures
        steps_model(out@) == build_steps(data_dir@, built, cloned),
{
    let mut out: Vec<SsbStep> = Vec::new();
    assert(steps_model(out@) =~= Seq::empty());
    if built {
        return out;
    }
    let dir = dbgen_dir(data_dir);
    let build = path::join(dir.as_str(), "build");
    let binary = dbgen_path(data_dir);
    if !cloned {
        step(&mut out, SsbStep::CreateDir(String::from_str(data_dir)));
        step(
            &mut out,
            SsbStep::Run(
                CommandLine::new("git").arg("clone").arg(DBGEN_REPO).arg(dir.as_str()),
            ),
        );
    }
    step(
        &mut out,
        SsbStep::Run(
            CommandLine::new("git").arg("-C").arg(dir.as_str()).arg("checkout").arg("--quiet").arg(
                DBGEN_REV,
            ),
        ),
    );
    step(
        &mut out,
        SsbStep::Run(
            CommandLine::new("cmake").arg("-S").arg(dir.as_str()).arg("-B").arg(build.as_str()).arg(
                "-DCMAKE_BUILD_TYPE=Release",
            ),
        ),
    );
    step(
        &mut out,
        SsbStep::Run(
            CommandLine::new("cmake").arg("--build").arg(build.as_str()).arg("--target").arg(
                "dbgen",
            ),
        ),
    );
    let complaint = join3("ssb: cmake succeeded but ", binary.as_str(), " is missing");
    step(&mut out, SsbStep::Expect { file: binary, complaint });
    assert(steps_model(out@) =~= build_steps(data_dir@, built, cloned));
    out
}

/// Running the generator. It reads its distributions from one directory and writes into another,
/// so that neither needs to be the working directory.
pub open spec fn generator_command(
    data_dir: Seq<char>,
    tbl_dir: Seq<char>,
    scale_factor: Seq<char>,
) -> CommandV {
    CommandV::of(dbgen_binary(data_dir)).within("DSS_CONFIG"@, checkout_dir(data_dir)).within(
        "DSS_PATH"@,
        tbl_dir,
    ).with("-s"@).with(scale_factor).with("-f"@)
}

/// What is said of a table that the generator did not write.
pub open spec fn not_produced(file: Seq<char>) -> Seq<char> {
    "ssb: dbgen did not produce "@ + file
}

/// The files of the first `n` tables are expected.
pub open spec fn expectations(tables: Seq<TableV>, tbl_dir: Seq<char>, n: nat) -> Seq<SsbStepV>
    decreases n,
{
    if n == 0 {
        Seq::empty()
    } else {
        let file = tbl_file(tbl_dir, tables[n - 1]);
        expectations(tables, tbl_dir, (n - 1) as nat).push(
            SsbStepV::Expect { file, complaint: not_produced(file) },
        )
    }
}

/// How the generator's files are written, and verified. The generator succeeds even when it
/// rejects its arguments, so its output is checked rather than its status.
pub open spec fn write_steps(
    data_dir: Seq<char>,
    tbl_dir: Seq<char>,
    scale_factor: Seq<char>,
    built: bool,
    cloned: bool,
) -> Seq<SsbStepV> {
    build_steps(data_dir, built, cloned) + seq![
        SsbStepV::CreateDir(tbl_dir),
        SsbStepV::Run(generator_command(data_dir, tbl_dir, scale_factor)),
    ] + expectations(ssb_schema(), tbl_dir, ssb_schema().len())
}

/// Run the generator into `tbl_dir`, then verify it actually produced every table.
pub fn write_tbl_files(
    scale_factor: &str,
    tbl_dir: &str,
    data_dir: &str,
    built: bool,
    cloned: bool,
) -> (out: Vec<SsbStep>)
    ensures
        steps_model(out@) == write_steps(data_dir@, tbl_dir@, scale_factor@, built, cloned),
{
    let mut out = build_dbgen(data_dir, built, cloned);
    step(&mut out, SsbStep::CreateDir(String::from_str(tbl_dir)));
    let command = CommandLine::new(dbgen_path(data_dir).as_str()).env(
        "DSS_CONFIG",
        dbgen_dir(data_dir).as_str(),
    ).env("DSS_PATH", tbl_dir).arg("-s").arg(scale_factor).arg("-f");
    step(&mut out, SsbStep::Run(command));
    let ghost opening = steps_model(out@);
    let all = tables();
    let ghost model = ssb_schema();
    let mut index: usize = 0;
    assert(opening + expectations(model, tbl_dir@, 0) =~= opening);
    while index < all.len()
        invariant
            index <= all@.len(),
            model == tables_model(all@),
            steps_model(out@) == opening + expectations(model, tbl_dir@, index as nat),
        decreases all@.len() - index,
    {
        let ghost before = expectations(model, tbl_dir@, index as nat);
        assert(model[index as int] == all@[index as int]@);
        let file = all[index].tbl_path(tbl_dir);
        let complaint = join2("ssb: dbgen did not produce ", file.as_str());
        let ghost next = SsbStepV::Expect { file: file@, complaint: complaint@ };
        step(&mut out, SsbStep::Expect { file, complaint });
        assert(opening + before.push(next) =~= (opening + before).push(next));
        index = index + 1;
    }
    assert(steps_model(out@) =~= write_steps(
        data_dir@,
        tbl_dir@,
        scale_factor@,
        built,
        cloned,
    ));
    out
}

/// Convert every text file into its Parquet counterpart in one invocation.
pub fn convert_tbl_to_parquet(tbl_dir: &str, parquet_dir: &str) -> (out: CommandLine)
    ensures
        out@ == CommandV::of("duckdb"@).with("-c"@).with(
            convert_text(ssb_schema(), tbl_dir@, parquet_dir@, ssb_schema().len()),
        ),
{
    let all = tables();
    let ghost model = ssb_schema();
    let mut script = String::new();
    let mut index: usize = 0;
    assert(script@ =~= Seq::empty());
    while index < all.len()
        invariant
            index <= all@.len(),
            model == tables_model(all@),
            script@ == convert_text(model, tbl_dir@, parquet_dir@, index as nat),
        decreases all@.len() - index,
    {
        assert(model[index as int] == all@[index as int]@);
        script.append(all[index].copy_stmt(tbl_dir, parquet_dir).as_str());
        index = index + 1;
    }
    CommandLine::new("duckdb").arg("-c").arg(script.as_str())
}

/// The files that the data consists of, in the order of the tables.
pub fn parquet_paths(base_dir: &str) -> (out: Vec<String>)
    ensures
        out@.len() == ssb_schema().len(),
        forall|i: int|
            0 <= i < out@.len() ==> (#[trigger] out@[i])@ == parquet_file(
                path::joined_path(base_dir@, Format::Parquet.name_text()),
                ssb_schema()[i],
            ),
{
    let parquet_dir = path::join(base_dir, Format::Parquet.name());
    let all = tables();
    let ghost model = ssb_schema();
    let mut out: Vec<String> = Vec::new();
    let mut index: usize = 0;
    while index < all.len()
        invariant
            index <= all@.len(),
            model == ssb_schema(),
            model == tables_model(all@),
            out@.len() == index,
            parquet_dir@ == path::joined_path(base_dir@, Format::Parquet.name_text()),
            forall|i: int|
                0 <= i < index ==> (#[trigger] out@[i])@ == parquet_file(parquet_dir@, model[i]),
        decreases all@.len() - index,
    {
        assert(model[index as int] == all@[index as int]@);
        out.push(all[index].parquet_path(parquet_dir.as_str()));
        index = index + 1;
    }
    out
}

/// How the data is made below a base directory, where `present` says which of its files are there:
/// nothing more is done once all are, and the generator's files are removed after conversion.
pub open spec fn table_steps(
    scale_factor: Seq<char>,
    base_dir: Seq<char>,
    data_dir: Seq<char>,
    present: Seq<bool>,
    built: bool,
    cloned: bool,
) -> Seq<SsbStepV> {
    let parquet_dir = path::joined_path(base_dir, Format::Parquet.name_text());
    let tbl_dir = path::joined_path(base_dir, "tbl"@);
    if !present.contains(false) {
        seq![SsbStepV::CreateDir(parquet_dir)]
    } else {
        seq![SsbStepV::CreateDir(parquet_dir)] + write_steps(
            data_dir,
            tbl_dir,
            scale_factor,
            built,
            cloned,
        ) + seq![
            SsbStepV::Run(
                CommandV::of("duckdb"@).with("-c"@).with(
                    convert_text(ssb_schema(), tbl_dir, parquet_dir, ssb_schema().len()),
                ),
            ),
            SsbStepV::RemoveDir(tbl_dir),
        ]
    }
}

/// Generate the Parquet base data for `scale_factor` under `base_dir/parquet/`.
///
/// Idempotent: nothing is run once every table's Parquet is in place. The intermediate text is
/// deleted after conversion.
pub fn generate_tables(
    scale_factor: &str,
    base_dir: &str,
    data_dir: &str,
    present: &Vec<bool>,
    built: bool,
    cloned: bool,
) -> (out: Vec<SsbStep>)
    ensures
        steps_model(out@) == table_steps(
            scale_factor@,
            base_dir@,
            data_dir@,
            present@,
            built,
            cloned,
        ),
{
    let parquet_dir = path::join(base_dir, Format::Parquet.name());
    let mut out: Vec<SsbStep> = Vec::new();
    assert(steps_model(out@) =~= Seq::empty());
    step(&mut out, SsbStep::CreateDir(parquet_dir.clone()));
    let ghost opening = steps_model(out@);
    assert(opening =~= seq![SsbStepV::CreateDir(parquet_dir@)]);
    let mut complete = true;
    let mut index: usize = 0;
    while index < present.len()
        invariant
            index <= present@.len(),
            complete <==> forall|i: int| 0 <= i < index ==> #[trigger] present@[i],
        decreases present@.len() - index,
    {
        if !present[index] {
            complete = false;
        }
        index = index + 1;
    }
    if complete {
        assert(!present@.contains(false));
        return out;
    }
    assert(present@.contains(false)) by {
        let i = choose|i: int| 0 <= i < present@.len() && !(#[trigger] present@[i]);
        assert(present@[i] == false);
    }
    let tbl_dir = path::join(base_dir, "tbl");
    let mut written = write_tbl_files(scale_factor, tbl_dir.as_str(), data_dir, built, cloned);
    let ghost middle = steps_model(written@);
    out.append(&mut written);
    assert(steps_model(out@) =~= opening + middle);
    step(
        &mut out,
        SsbStep::Run(convert_tbl_to_parquet(tbl_dir.as_str(), parquet_dir.as_str())),
    );
    step(&mut out, SsbStep::RemoveDir(tbl_dir));
    assert(steps_model(out@) =~= table_steps(
        scale_factor@,
        base_dir@,
        data_dir@,
        present@,
        built,
        cloned,
    ));
    out
}

} // verus!
