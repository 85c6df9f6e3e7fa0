//! TPC-H data generation with an outside program, one table at a time.

use vstd::prelude::*;

use super::command::{CommandLine, CommandV};
use super::format::Format;
use super::path;
use super::pipeline::maybe_text;
use crate::error::{VortexError, VortexResult};
use crate::text::{join2, join3};

verus! {

/// Package used to run the generator.
pub const TPCHGEN_CLI_PACKAGE: &'static str = "tpchgen-cli==3.0.0";

/// The generator.
pub const TPCHGEN_CLI_BIN: &'static str = "tpchgen-cli";

/// Configuration for TPC-H data generation.
#[derive(Debug, Clone)]
pub struct TpchGenOptions {
    /// Scale factor (0.01, 0.1, 1, 10, 100, 1000).
    pub scale_factor: String,
    /// Output directory.
    pub output_dir: String,
    /// Output format.
    pub format: Format,
}

impl TpchGenOptions {
    /// The defaults: one gigabyte of Parquet, below the data directory.
    pub fn default_in(data_dir: &str) -> (out: Self)
        ensures
            out.scale_factor@ == "1.0"@,
            out.output_dir@ == path::joined_path(data_dir@, "tpch"@),
            out.format == Format::Parquet,
    {
        TpchGenOptions {
            scale_factor: String::from_str("1.0"),
            output_dir: path::join(data_dir, "tpch"),
            format: Format::Parquet,
        }
    }

    /// Parquet of a scale factor, in a directory.
    pub fn new(scale_factor: String, output_dir: &str) -> (out: Self)
        ensures
            out.scale_factor@ == scale_factor@,
            out.output_dir@ == output_dir@,
            out.format == Format::Parquet,
    {
        TpchGenOptions {
            scale_factor,
            output_dir: String::from_str(output_dir),
            format: Format::Parquet,
        }
    }

    /// The options with another format.
    pub fn with_format(self, format: Format) -> (out: Self)
        ensures
            out.scale_factor@ == self.scale_factor@,
            out.output_dir@ == self.output_dir@,
            out.format == format,
    {
        TpchGenOptions { scale_factor: self.scale_factor, output_dir: self.output_dir, format }
    }
}

/// The tables, in the order in which they are made.
pub open spec fn table_names() -> Seq<Seq<char>> {
    seq![
        "nation"@,
        "region"@,
        "part"@,
        "supplier"@,
        "customer"@,
        "partsupp"@,
        "orders"@,
        "lineitem"@,
    ]
}

/// What is to be made: the directories, and then each table in turn.
pub struct Generation {
    pub output_dir: String,
    pub parquet_dir: String,
    pub tables: Vec<&'static str>,
}

/// Whether a format can be asked of the generation: Parquet, or what is loaded from it.
pub open spec fn generated(format: Format) -> bool {
    format == Format::Parquet || format == Format::OnDiskDuckDB
}

/// Generate all TPC-H tables for a single scale factor.
///
/// This always generates Parquet files. Other formats are converted from them.
pub fn generate_tpch_tables(options: &TpchGenOptions) -> (out: VortexResult<Generation>)
    ensures
        out is Ok <==> generated(options.format),
        out matches Ok(generation) ==> {
            &&& generation.output_dir@ == options.output_dir@
            &&& generation.parquet_dir@ == path::joined_path(
                options.output_dir@,
                Format::Parquet.name_text(),
            )
            &&& generation.tables@.len() == table_names().len()
            &&& forall|i: int|
                0 <= i < table_names().len() ==> (#[trigger] generation.tables@[i])@
                    == table_names()[i]
        },
        out matches Err(error) ==> error@
            == "TPC-H generation only creates Parquet base data; use data-gen conversion for "@
            + options.format.name_text(),
{
    match options.format {
        Format::Parquet | Format::OnDiskDuckDB => Ok(
            Generation {
                output_dir: options.output_dir.clone(),
                parquet_dir: path::join(options.output_dir.as_str(), Format::Parquet.name()),
                tables: vec![
                    "nation",
                    "region",
                    "part",
                    "supplier",
                    "customer",
                    "partsupp",
                    "orders",
                    "lineitem",
                ],
            },
        ),
        _ => Err(
            VortexError::new(
                join2(
                    "TPC-H generation only creates Parquet base data; use data-gen conversion for ",
                    options.format.name(),
                ),
            ),
        ),
    }
}

/// The generator to run: the one that the environment names, or the packaged one.
pub open spec fn generator(cli: Option<Seq<char>>) -> CommandV {
    match cli {
        Some(cli) => CommandV::of(cli),
        None => CommandV::of("uvx"@).with("--from"@).with(TPCHGEN_CLI_PACKAGE@).with(
            TPCHGEN_CLI_BIN@,
        ),
    }
}

/// Running the generator for one table.
pub open spec fn table_command(
    cli: Option<Seq<char>>,
    table: Seq<char>,
    scale_factor: Seq<char>,
    output_dir: Seq<char>,
) -> CommandV {
    generator(cli).with("parquet"@).with("-s"@).with(scale_factor).with("--tables"@).with(
        table,
    ).with("--output-dir"@).with(output_dir).with("--no-progress"@).with("--quiet"@)
}

/// The generator to run.
pub fn tpchgen_command(cli: &Option<String>) -> (out: CommandLine)
    ensures
        out@ == generator(maybe_text(*cli)),
{
    match cli {
        Some(cli) => CommandLine::new(cli.as_str()),
        None => CommandLine::new("uvx").arg("--from").arg(TPCHGEN_CLI_PACKAGE).arg(
            TPCHGEN_CLI_BIN,
        ),
    }
}

/// Run the generator for one table.
pub fn generate_table_with_cli(
    cli: &Option<String>,
    table_name: &str,
    scale_factor: &str,
    output_dir: &str,
) -> (out: CommandLine)
    ensures
        out@ == table_command(maybe_text(*cli), table_name@, scale_factor@, output_dir@),
{
    tpchgen_command(cli).arg("parquet").arg("-s").arg(scale_factor).arg("--tables").arg(
        table_name,
    ).arg("--output-dir").arg(output_dir).arg("--no-progress").arg("--quiet")
}

/// A random name: `uuid::Uuid::new_v4`, in its hyphenated form of 36 characters. Which one comes is
/// left to chance. The call does not return where the system has no random numbers to give.
#[verifier::external_body]
fn fresh_id() -> (out: String)
    ensures
        out@.len() == 36,
{
    uuid::Uuid::new_v4().to_string()
}

/// How the file of one table is made: the generator writes into a scratch directory of its own,
/// from where the file is moved to its place.
pub struct TableJob {
    pub output_file: String,
    pub scratch_dir: String,
    pub command: CommandLine,
    pub generated_file: String,
}

/// Where the file of a table belongs.
pub open spec fn output_path(parquet_dir: Seq<char>, table: Seq<char>) -> Seq<char> {
    path::joined_path(parquet_dir, table + "_0.parquet"@)
}

/// Where the generator writes a table.
pub open spec fn scratch_path(parquet_dir: Seq<char>, table: Seq<char>, id: Seq<char>) -> Seq<
    char,
> {
    path::joined_path(parquet_dir, "."@ + table + "-tpchgen-"@ + id)
}

/// A job makes the file of a table, under a scratch name.
pub open spec fn job_of(
    job: TableJob,
    cli: Option<Seq<char>>,
    table: Seq<char>,
    scale_factor: Seq<char>,
    parquet_dir: Seq<char>,
    id: Seq<char>,
) -> bool {
    &&& job.output_file@ == output_path(parquet_dir, table)
    &&& job.scratch_dir@ == scratch_path(parquet_dir, table, id)
    &&& job.command@ == table_command(cli, table, scale_factor, job.scratch_dir@)
    &&& job.generated_file@ == path::joined_path(job.scratch_dir@, table + ".parquet"@)
}

/// Where the file of a table belongs.
pub fn table_path(parquet_dir: &str, table_name: &str) -> (out: String)
    ensures
        out@ == output_path(parquet_dir@, table_name@),
{
    path::join(parquet_dir, join2(table_name, "_0.parquet").as_str())
}

/// Generate one Parquet file for a specific table, under a scratch name. Nothing is done where the
/// file `exists`.
pub fn table_job(
    table_name: &str,
    options: &TpchGenOptions,
    cli: &Option<String>,
    parquet_dir: &str,
    exists: bool,
    id: &str,
) -> (out: Option<TableJob>)
    ensures
        out is None <==> exists,
        out matches Some(job) ==> job_of(
            job,
            maybe_text(*cli),
            table_name@,
            options.scale_factor@,
            parquet_dir@,
            id@,
        ),
{
    if exists {
        return None;
    }
    let mut name = join3(".", table_name, "-tpchgen-");
    name.append(id);
    let scratch_dir = path::join(parquet_dir, name.as_str());
    let command = generate_table_with_cli(
        cli,
        table_name,
        options.scale_factor.as_str(),
        scratch_dir.as_str(),
    );
    let generated_file = path::join(
        scratch_dir.as_str(),
        join2(table_name, ".parquet").as_str(),
    );
    Some(
        TableJob {
            output_file: table_path(parquet_dir, table_name),
            scratch_dir,
            command,
            generated_file,
        },
    )
}

/// Generate one Parquet file for a specific table, under a scratch name of its own.
pub fn generate_table_file(
    table_name: &str,
    options: &TpchGenOptions,
    cli: &Option<String>,
    parquet_dir: &str,
    exists: bool,
) -> (out: Option<TableJob>)
    ensures
        out is None <==> exists,
        out matches Some(job) ==> exists|id: Seq<char>|
            id.len() == 36 && #[trigger] job_of(
                job,
                maybe_text(*cli),
                table_name@,
                options.scale_factor@,
                parquet_dir@,
                id,
            ),
{
    let id = fresh_id();
    table_job(table_name, options, cli, parquet_dir, exists, id.as_str())
}

/// The file that the generator wrote for a table, where it `exists`.
pub fn generated_file_path(table_name: &str, scratch_dir: &str, exists: bool) -> (out: VortexResult<
    String,
>)
    ensures
        ({
            let file = path::joined_path(scratch_dir@, table_name@ + ".parquet"@);
            match out {
                Ok(found) => exists && found@ == file,
                Err(error) => !exists && error@ == "expected "@ + TPCHGEN_CLI_BIN@ + " to write "@
                    + file,
            }
        }),
{
    let file = path::join(scratch_dir, join2(table_name, ".parquet").as_str());
    if exists {
        return Ok(file);
    }
    let mut message = join3("expected ", TPCHGEN_CLI_BIN, " to write ");
    message.append(file.as_str());
    Err(VortexError::new(message))
}

} // verus!
