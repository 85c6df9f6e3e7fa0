//! Benchmark suites: their data, how it is made, and how engines register it.

use vortex_rows::bench::create_sql::{
    generated_statements, registration_statements, split_statements, CreateScript, SqlDialect,
};
use vortex_rows::bench::format::{CompactionStrategy, Format};
use vortex_rows::bench::pipeline::{
    duckdb_database_path, generate_data, generate_duckdb_database, loads_duckdb, register_tables,
    GenerateStep, Registration, TableFiles, TableObject, TableSource, TableSpec,
};
use vortex_rows::bench::setup::{plan, prepare_data, staging_path, Plan, PrepareStep, SetupCtx};

const TPCH_TABLES: [&str; 8] = [
    "nation", "region", "part", "supplier", "customer", "partsupp", "orders", "lineitem",
];

fn source(name: &str, url: &str, pattern: Option<&str>, format: Format) -> TableSource<()> {
    TableSource {
        name: name.to_string(),
        schema: None,
        base_url: url.to_string(),
        pattern: pattern.map(|p| p.to_string()),
        load_format: format,
        object: TableObject::View,
    }
}

fn tpch_sources(format: Format) -> Vec<TableSource<()>> {
    TPCH_TABLES
        .iter()
        .map(|name| {
            source(
                name,
                &format!("file:///data/tpch/1.0/{}/", format.name()),
                Some(&format!("{name}_*.{}", format.ext())),
                format,
            )
        })
        .collect()
}

/// A script with a section per dialect, as the suite checks one in.
fn tpch_script() -> CreateScript {
    let mut text = String::from("-- Registers the tables.\n\n-- @engine duckdb\n");
    for name in TPCH_TABLES {
        text.push_str(&format!(
            "-- {name}\nCREATE {{object}} IF NOT EXISTS {name} AS\n  SELECT * FROM {{read}}('{{dir}}/{name}_*.{{ext}}');\n"
        ));
    }
    text.push_str("\n-- @engine datafusion\n");
    for name in TPCH_TABLES {
        text.push_str(&format!(
            "CREATE EXTERNAL TABLE IF NOT EXISTS {name} STORED AS {{format}}\n  LOCATION '{{dir}}/{name}_*.{{ext}}';\n"
        ));
    }
    CreateScript::parse("create.sql".to_string(), &text)
}

#[test]
fn streaming_only_suite_derives_vortex_from_its_parquet() {
    let native = vec![Format::Parquet];
    assert_eq!(plan(&native, Format::Parquet).unwrap(), Plan::Native(Format::Parquet));
    assert_eq!(
        plan(&native, Format::OnDiskVortex).unwrap(),
        Plan::DeriveFromParquet(Format::OnDiskVortex, CompactionStrategy::Default),
    );
}

#[test]
fn generator_that_writes_vortex_natively_skips_the_parquet_round_trip() {
    let native = vec![Format::Parquet, Format::OnDiskVortex];
    assert_eq!(plan(&native, Format::OnDiskVortex).unwrap(), Plan::Native(Format::OnDiskVortex));
}

#[test]
fn vortex_only_suite_cannot_produce_parquet() {
    let native = vec![Format::OnDiskVortex];
    assert!(plan(&native, Format::Parquet).is_err());
    assert!(plan(&native, Format::Lance).is_err());
}

#[test]
fn compact_vortex_is_derived_compactly() {
    let native = vec![Format::Parquet];
    assert_eq!(
        plan(&native, Format::VortexCompact).unwrap(),
        Plan::DeriveFromParquet(Format::VortexCompact, CompactionStrategy::Compact),
    );
}

#[test]
fn emit_records_table_and_path_in_order() {
    let mut ctx = SetupCtx::new("/staging".to_string());
    ctx.emit("hits".to_string(), "/staging/hits_0.parquet".to_string());
    ctx.emit("hits".to_string(), "/staging/hits_1.parquet".to_string());

    let emitted = ctx.emitted();
    assert_eq!(emitted.len(), 2);
    assert!(emitted.iter().all(|e| e.table == "hits"));
    assert_eq!(emitted[0].path, "/staging/hits_0.parquet");
    assert_eq!(emitted[1].path, "/staging/hits_1.parquet");
    assert_eq!(ctx.staging(), "/staging");
}

#[test]
fn preparation_sets_parquet_up_before_what_is_derived_from_it() {
    let out = prepare_data(
        "suite",
        "file",
        &vec![Format::Parquet],
        &vec![Format::OnDiskVortex, Format::Parquet],
    );
    assert!(out.failure.is_none());
    assert_eq!(out.steps[0], PrepareStep::Setup(Format::Parquet));
    assert_eq!(out.steps.len(), 2);

    let remote = prepare_data("suite", "s3", &vec![Format::Parquet], &vec![Format::Parquet]);
    assert!(remote.steps.is_empty());
    assert!(remote.failure.is_none());

    let failed = prepare_data(
        "suite",
        "file",
        &vec![Format::OnDiskVortex],
        &vec![Format::Lance, Format::OnDiskVortex, Format::Parquet],
    );
    assert_eq!(failed.steps, vec![PrepareStep::Setup(Format::OnDiskVortex)]);
    assert_eq!(
        failed.failure.unwrap().message(),
        "benchmark suite: cannot produce parquet: not native ([OnDiskVortex]) and Parquet is unavailable"
    );
    assert_eq!(staging_path("/data/suite", Format::Parquet), "/data/suite/parquet");
}

#[test]
fn repeated_formats_are_generated_once() {
    let once = generate_data("file", &vec![Format::Parquet, Format::OnDiskVortex]);
    let twice = generate_data(
        "file",
        &vec![Format::Parquet, Format::OnDiskVortex, Format::OnDiskVortex],
    );
    assert_eq!(once, twice);
    assert_eq!(once[0], GenerateStep::BaseData);
    assert_eq!(
        once[1..],
        [
            GenerateStep::Prepare(Format::Parquet),
            GenerateStep::Convert(CompactionStrategy::Default),
            GenerateStep::Prepare(Format::OnDiskVortex),
        ]
    );
    assert_eq!(generate_data("s3", &vec![Format::OnDiskVortex]), vec![GenerateStep::BaseData]);
}

#[test]
fn pipeline_resolves_pattern_from_benchmark() {
    let spec: TableSpec<()> = TableSpec { name: "lineitem".to_string(), schema: None };
    let resolved = TableSource::resolve(
        spec,
        "file:///data/tpch/1.0/vortex-file-compressed/".to_string(),
        Some("lineitem_*.vortex".to_string()),
        Format::OnDiskVortex,
        TableObject::View,
    );
    assert_eq!(resolved.glob(), "lineitem_*.vortex");
    assert!(resolved.base_dir().ends_with("/vortex-file-compressed"));
}

#[test]
fn tests_resolves_pattern_from_benchmark() {
    let files = TableFiles {
        spec: TableSpec::<()> { name: "lineitem".to_string(), schema: None },
        base_url: "file:///data/tpch/1.0/vortex-file-compressed/".to_string(),
        pattern: Some("lineitem_*.vortex".to_string()),
    };
    let sources = register_tables(Registration::views_of(Format::OnDiskVortex), vec![files]);
    assert_eq!(sources[0].glob(), "lineitem_*.vortex");
    assert!(sources[0].base_dir().ends_with("/vortex-file-compressed"));
}

#[test]
fn pipeline_falls_back_to_extension_glob() {
    let plain = source("test", "file:///data/parquet/", None, Format::Parquet);
    assert_eq!(plain.glob(), "*.parquet");
    assert_eq!(plain.base_dir(), "/data/parquet");
}

#[test]
fn tests_falls_back_to_extension_glob() {
    let plain = source("test", "file:///data/parquet/", None, Format::Parquet);
    assert_eq!(plain.glob(), "*.parquet");
    assert_eq!(plain.base_dir(), "/data/parquet");
}

fn registration_follows_the_object() {
    let mut nation = source(
        "nation",
        "file:///data/tpch/1.0/parquet/",
        Some("nation_*.parquet"),
        Format::Parquet,
    );
    let view = nation.duckdb_registration_sql();
    assert!(
        view.starts_with("CREATE VIEW IF NOT EXISTS nation AS SELECT * FROM read_parquet('/")
    );
    assert!(view.ends_with("/parquet/nation_*.parquet');\n"));
    nation.object = TableObject::Table;
    assert!(
        nation.duckdb_registration_sql().starts_with("CREATE TABLE IF NOT EXISTS nation")
    );
}

#[test]
fn pipeline_registration_sql_matches_object_kind() {
    registration_follows_the_object();
}

#[test]
fn tests_registration_sql_matches_object_kind() {
    registration_follows_the_object();
    assert_eq!(TableObject::Table.sql_keyword(), "TABLE");
    assert_eq!(TableObject::View.sql_keyword(), "VIEW");
}

#[test]
fn pipeline_remote_base_dir_keeps_scheme() {
    let remote = source("test", "s3://bucket/tpch/parquet/", None, Format::Parquet);
    assert_eq!(remote.base_dir(), "s3://bucket/tpch/parquet");
}

#[test]
fn tests_remote_base_dir_keeps_scheme() {
    let remote = source("test", "s3://bucket/tpch/parquet/", None, Format::Parquet);
    assert_eq!(remote.base_dir(), "s3://bucket/tpch/parquet");
}

#[test]
fn rendered_statements_have_no_placeholders() {
    let script = tpch_script();
    for (dialect, registration) in [
        (SqlDialect::DuckDb, Registration::views_of(Format::Parquet)),
        (
            SqlDialect::DuckDb,
            Registration { object: TableObject::Table, load_format: Format::Parquet },
        ),
        (SqlDialect::DataFusion, Registration::views_of(Format::OnDiskVortex)),
    ] {
        let statements =
            script.render(dialect, "file:///data/tpch/1.0/parquet/", registration).unwrap().unwrap();
        assert_eq!(statements.len(), 8);
        for statement in &statements {
            assert!(!statement.contains('{'), "unsubstituted: {statement}");
            assert!(!statement.contains("--"), "comment leaked: {statement}");
        }
    }
}

#[test]
fn create_sql_matches_generated_statements() {
    let registration = Registration::views_of(Format::Parquet);
    let sources = tpch_sources(Format::Parquet);
    for dialect in [SqlDialect::DuckDb, SqlDialect::DataFusion] {
        let script = tpch_script()
            .render(dialect, "file:///data/tpch/1.0/parquet/", registration)
            .unwrap()
            .unwrap();
        let generated = generated_statements(dialect, &sources).unwrap();
        let normalize = |s: &String| s.trim().trim_end_matches(';').to_string();
        assert_eq!(
            script.iter().map(normalize).collect::<Vec<_>>(),
            generated.iter().map(normalize).collect::<Vec<_>>(),
            "{}",
            dialect.tag()
        );
    }
}

#[test]
fn missing_create_sql_falls_back_to_generated() {
    let sources = tpch_sources(Format::Parquet);
    let registration = Registration::views_of(Format::Parquet);
    let statements = registration_statements(
        &None,
        SqlDialect::DuckDb,
        "file:///data/tpch/1.0/parquet/",
        registration,
        &sources,
    )
    .unwrap();
    assert_eq!(statements.len(), sources.len());

    // A script that has no section for the dialect falls back as well.
    let only_duckdb = Some(CreateScript::parse(
        "create.sql".to_string(),
        "-- @engine duckdb\nCREATE VIEW IF NOT EXISTS a AS SELECT 1;\n",
    ));
    let url = "file:///data/tpch/1.0/parquet/";
    let duckdb =
        registration_statements(&only_duckdb, SqlDialect::DuckDb, url, registration, &sources);
    assert_eq!(duckdb.unwrap(), vec!["CREATE VIEW IF NOT EXISTS a AS SELECT 1".to_string()]);
    let datafusion =
        registration_statements(&only_duckdb, SqlDialect::DataFusion, url, registration, &sources);
    assert_eq!(datafusion.unwrap().len(), 8);
}

#[test]
fn create_sql_names_its_tables() {
    let script = tpch_script();
    let expected: Vec<String> = TPCH_TABLES.iter().map(|n| n.to_string()).collect();
    assert_eq!(script.table_names(SqlDialect::DuckDb), expected);
    assert_eq!(script.table_names(SqlDialect::DataFusion), expected);
}

#[test]
fn parse_splits_sections_and_drops_preamble() {
    let script = CreateScript::parse(
        "preamble.sql".into(),
        "-- docs\n-- @engine duckdb\nCREATE VIEW a AS SELECT 1;\n-- @engine datafusion\nCREATE \
         EXTERNAL TABLE a STORED AS PARQUET LOCATION 'x';\n",
    );

    assert_eq!(script.table_names(SqlDialect::DuckDb).len(), 0);
    assert_eq!(
        script.sections.iter().map(|(t, _)| t.as_str()).collect::<Vec<_>>(),
        vec!["duckdb", "datafusion"]
    );
}

#[test]
fn sections_without_statements_are_an_error() {
    let script = CreateScript::parse(
        "create.sql".to_string(),
        "-- @engine duckdb\n-- nothing yet\n",
    );
    let error = script
        .render(SqlDialect::DuckDb, "file:///x/", Registration::views_of(Format::Parquet))
        .unwrap_err();
    assert_eq!(error.message(), "create.sql has an empty `-- @engine duckdb` section");
    let stored = generated_statements(SqlDialect::DataFusion, &tpch_sources(Format::Lance));
    assert_eq!(stored.unwrap_err().message(), "lance has no DataFusion `STORED AS` name");
}

#[test]
fn duckdb_is_loaded_once_from_local_files() {
    let tables = || -> Vec<TableFiles<()>> {
        TPCH_TABLES
            .iter()
            .map(|name| TableFiles {
                spec: TableSpec { name: name.to_string(), schema: None },
                base_url: "file:///data/tpch/1.0/parquet/".to_string(),
                pattern: Some(format!("{name}_*.parquet")),
            })
            .collect()
    };
    let statements = generate_duckdb_database(false, tables());
    assert_eq!(statements.len(), 8);
    assert_eq!(
        statements[0],
        "CREATE TABLE IF NOT EXISTS nation AS SELECT * FROM \
         read_parquet('/data/tpch/1.0/parquet/nation_*.parquet');\n"
    );
    assert!(generate_duckdb_database(true, tables()).is_empty());
    assert_eq!(duckdb_database_path("/data/tpch"), "/data/tpch/duckdb/duckdb.db");
    assert_eq!(duckdb_database_path("/data/tpch/"), "/data/tpch/duckdb/duckdb.db");
    assert!(loads_duckdb("file", &vec![Format::Parquet, Format::OnDiskDuckDB]));
    assert!(!loads_duckdb("s3", &vec![Format::OnDiskDuckDB]));
    assert!(!loads_duckdb("file", &vec![Format::Parquet]));
}

/// The lines of a statement are trimmed and joined by spaces, and empty lines, comments and empty
/// statements are dropped.
#[test]
fn rendered_statements_are_trimmed() {
    let script = CreateScript::parse(
        "create.sql".to_string(),
        "-- @engine duckdb\n  CREATE VIEW a AS SELECT 1 ;\n;\n ;\n\tCREATE VIEW b AS\n-- two\n  SELECT 2\n",
    );
    let statements = script
        .render(SqlDialect::DuckDb, "file:///x/", Registration::views_of(Format::Parquet))
        .unwrap()
        .unwrap();
    assert_eq!(
        statements,
        vec!["CREATE VIEW a AS SELECT 1".to_string(), "CREATE VIEW b AS SELECT 2".to_string()]
    );
}

/// Rendering leaves no placeholder and keeps the statements apart, whatever lines they stand on.
#[test]
fn rendering_fills_in_every_placeholder() {
    let script = tpch_script();
    for dialect in [SqlDialect::DuckDb, SqlDialect::DataFusion] {
        for format in [Format::Parquet, Format::OnDiskVortex] {
            let statements = script
                .render(dialect, "s3://bucket/tpch/", Registration::views_of(format))
                .unwrap()
                .unwrap();
            assert_eq!(statements.len(), TPCH_TABLES.len());
            for statement in statements {
                for hole in ["{object}", "{dir}", "{ext}", "{read}", "{format}"] {
                    assert!(!statement.contains(hole), "{statement}");
                }
                assert!(statement.contains("s3://bucket/tpch/"));
            }
        }
    }
    // A directory can complete a placeholder whose turn is over.
    let nested = CreateScript::parse(
        "create.sql".to_string(),
        "-- @engine duckdb\nSELECT '{ob{dir}ct}';\n",
    );
    let statements = nested
        .render(SqlDialect::DuckDb, "je", Registration::views_of(Format::Parquet))
        .unwrap()
        .unwrap();
    assert_eq!(statements, vec!["SELECT '{object}'".to_string()]);
}

/// Splitting statements that were split and put together again changes nothing.
#[test]
fn split_statements_stay_split() {
    let split = |text: &str| split_statements(&text.chars().collect::<Vec<char>>());
    let found = split(" a\r\n b -- c\n-- d\n;;\n e ;-f");
    assert_eq!(found, vec!["a b -- c".to_string(), "e".to_string(), "-f".to_string()]);
    assert_eq!(split(&found.join(";")), found);
    assert!(split(" ;\n-- only a comment").is_empty());
}
