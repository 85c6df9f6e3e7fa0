//! Benchmark data sets: where their files lie, and how they are made.

use vstd::seq::Seq;

use vortex_rows::bench::command::CommandLine;
use vortex_rows::bench::format::Format;
use vortex_rows::bench::heap_profile::{
    heap_profile, profile_paths, server_address, unbuilt_reply, Body, Profile,
};
use vortex_rows::bench::phases::{cluster_limit, correlated, median, rchar, syscr};
use vortex_rows::bench::public_bi::{
    conversion_script, pattern_of, public_bi_csv_to_parquet_file, replace_decimals, table_name_of,
    table_urls, FileType, PBIBenchmark, PBIData, PBIDatasets, PbiStep, PublicBiBenchmark, Table,
};
use vortex_rows::bench::public_bi_dataset::PBIDataset;
use vortex_rows::bench::random_access::{
    data_path, directory_location, random_access_writer_properties, BenchDataset, RemoteDataDir,
    PARQUET_READ_BATCH_SIZE, TARGET_ROW_GROUP_BYTES,
};
use vortex_rows::bench::ssb::{self, ssb_tables, SsbStep};
use vortex_rows::bench::take::RowGroupOffsets;
use vortex_rows::bench::tpch::{
    generate_table_file, generate_tpch_tables, generated_file_path, table_job, TpchGenOptions,
};
use vortex_rows::location::is_small_with;

const DATA_DIR: &str = "/work/data";

/// Row widths of the synthetic random-access data sets: vectors of floats, nested lists and
/// nested structs.
const FEATURE_VECTORS_ROW_BYTES: usize = 4096;
const NESTED_LISTS_ROW_BYTES: usize = 1024;
const NESTED_STRUCTS_ROW_BYTES: usize = 100;

struct Taxi;

impl BenchDataset for Taxi {
    fn named(&self) -> Seq<char> {
        unreachable!()
    }

    fn rows(&self) -> u64 {
        unreachable!()
    }

    fn name(&self) -> &str {
        "taxi"
    }

    fn row_count(&self) -> u64 {
        3_339_715
    }
}

#[test]
fn data_files_are_named_after_their_dataset() {
    assert_eq!(data_path("taxi", Format::Parquet), "random_access/taxi/taxi.parquet");
    assert_eq!(data_path("taxi", Format::OnDiskVortex), "random_access/taxi/taxi.vortex");
    assert_eq!(
        data_path("taxi", Format::VortexCompact),
        "random_access/taxi/taxi-compact.vortex"
    );
    assert_eq!(Taxi.path(Format::VortexCompact), "random_access/taxi/taxi-compact.vortex");
    assert_eq!(Taxi.row_count(), 3_339_715);
}

#[test]
fn keys_mirror_the_local_data_dir_layout() {
    let local = format!("{DATA_DIR}/random_access/taxi/taxi.vortex");
    for url in ["s3://bucket/prefix/", "s3://bucket/prefix"] {
        let remote = RemoteDataDir::try_new(url, Ok(())).unwrap();
        let location = remote.url_of(&local, DATA_DIR).unwrap();
        assert_eq!(location.path, "/prefix/random_access/taxi/taxi.vortex");
        assert_eq!(
            remote.uri(&local, DATA_DIR).unwrap(),
            "s3://bucket/prefix/random_access/taxi/taxi.vortex"
        );
    }
}

#[test]
fn a_bucket_root_needs_no_prefix() {
    let local = format!("{DATA_DIR}/random_access/taxi/taxi.vortex");
    for url in ["s3://bucket/", "s3://bucket"] {
        let remote = RemoteDataDir::try_new(url, Ok(())).unwrap();
        let location = remote.url_of(&local, DATA_DIR).unwrap();
        assert_eq!(location.path, "/random_access/taxi/taxi.vortex");
    }
}

#[test]
fn keys_reject_paths_outside_the_data_dir() {
    let remote = RemoteDataDir::try_new("s3://bucket/prefix/", Ok(())).unwrap();
    assert_eq!(
        remote.uri("/tmp/taxi.vortex", DATA_DIR).unwrap_err().message(),
        "/tmp/taxi.vortex is not inside the benchmark data directory"
    );
    // A directory is left component by component.
    assert!(remote.uri("/work/database/x", DATA_DIR).is_err());
    assert!(remote.uri("/work//data/./x", DATA_DIR).is_ok());
}

#[test]
fn other_registry_schemes_are_accepted() {
    assert!(RemoteDataDir::try_new("gs://bucket/prefix/", Ok(())).is_ok());
}

#[test]
fn unknown_schemes_are_rejected() {
    let url = "nosuchscheme://bucket/prefix/";
    let location = directory_location(url).unwrap();
    assert_eq!(location.text, url);
    let resolved = object_store::parse_url(&url::Url::parse(&location.text).unwrap());
    assert!(resolved.is_err());
    let resolved = resolved.map(|_| ()).map_err(|error| error.to_string());
    let message = resolved.clone().unwrap_err();
    assert_eq!(RemoteDataDir::try_new(url, resolved).err().unwrap().message(), message);
}

#[test]
fn what_is_no_url_is_no_remote_directory() {
    assert_eq!(
        RemoteDataDir::try_new("bucket/prefix", Ok(())).err().unwrap().message(),
        "relative URL without a base"
    );
}

#[test]
fn row_groups_split_a_million_row_dataset() {
    for approx_row_bytes in
        [FEATURE_VECTORS_ROW_BYTES, NESTED_LISTS_ROW_BYTES, NESTED_STRUCTS_ROW_BYTES]
    {
        let rows_per_group = random_access_writer_properties(approx_row_bytes).row_group_rows;
        assert!(rows_per_group < 1_000_000);
        assert_eq!(rows_per_group % PARQUET_READ_BATCH_SIZE, 0);
        assert!(rows_per_group * approx_row_bytes <= TARGET_ROW_GROUP_BYTES);
    }
}

#[test]
fn wide_rows_get_smaller_row_groups_than_narrow_rows() {
    let wide = random_access_writer_properties(FEATURE_VECTORS_ROW_BYTES);
    let narrow = random_access_writer_properties(NESTED_STRUCTS_ROW_BYTES);
    assert!(wide.row_group_rows < narrow.row_group_rows);
    assert_eq!(narrow.row_group_rows, 64 * 1024);
    assert_eq!(random_access_writer_properties(1 << 20).row_group_rows, 8 * 1024);
    assert_eq!(narrow.data_page_rows, 1024);
}

#[test]
fn rows_are_taken_group_by_group() {
    let offsets = RowGroupOffsets::new(&vec![10, 0, 5, 20]);
    let groups = offsets.group_rows(&vec![0, 9, 10, 14, 15, 34]);
    let shown: Vec<(usize, Vec<i64>)> =
        groups.into_iter().map(|g| (g.group, g.rows)).collect();
    assert_eq!(shown, vec![(0, vec![0, 9]), (2, vec![0, 4]), (3, vec![0, 19])]);

    // Groups come in order, and rows within a group as they are asked for.
    let shuffled = offsets.group_rows(&vec![20, 3, 16, 3]);
    let shown: Vec<(usize, Vec<i64>)> =
        shuffled.into_iter().map(|g| (g.group, g.rows)).collect();
    assert_eq!(shown, vec![(0, vec![3, 3]), (3, vec![5, 1])]);

    // A row past the end falls behind the last group.
    let past = offsets.group_rows(&vec![40]);
    assert_eq!((past[0].group, past[0].rows.clone()), (4, vec![5]));
    assert!(offsets.group_rows(&Vec::new()).is_empty());
}

#[test]
fn clusters_are_asked_for_in_order() {
    let rows = correlated(&vec![100, 10]);
    let expected: Vec<u64> = (10..30).chain(100..120).collect();
    assert_eq!(rows, expected);
    assert_eq!(cluster_limit(5), 0);
    assert_eq!(cluster_limit(120), 100);
    assert_eq!(median(vec![3, 1, 2]), 2);
    assert_eq!(median(vec![4, 1, 2, 3]), 3);
    let io = "rchar: 4292\nwchar: 0\nsyscr: 13\nsyscw: 0\n";
    assert_eq!(rchar(io), 4292);
    assert_eq!(syscr(io), 13);
    assert_eq!(syscr("syscr: many\n"), 0);
    assert_eq!(syscr(""), 0);
}

#[test]
fn heap_profiles_are_served_or_explained() {
    let text = |profile: Profile| {
        let reply = heap_profile(profile);
        match reply.body {
            Body::Text(text) => (reply.status, text),
            Body::Bytes(_) => panic!("expected words"),
        }
    };
    assert_eq!(
        text(Profile::Unavailable),
        (503, "jemalloc profiling is unavailable".to_string())
    );
    assert_eq!(text(Profile::Inactive), (503, "jemalloc profiling is inactive".to_string()));
    assert_eq!(
        text(Profile::Failed("no space".to_string())),
        (500, "failed to dump jemalloc heap profile: no space".to_string())
    );
    let reply = heap_profile(Profile::Dumped(vec![1, 2]));
    assert_eq!((reply.status, reply.content_type), (200, "application/octet-stream"));
    assert!(matches!(reply.body, Body::Bytes(bytes) if bytes == [1, 2]));
    assert_eq!(unbuilt_reply("x").status, 500);
    assert_eq!(profile_paths(), vec!["/debug/pprof/allocs", "/debug/pprof/heap"]);
    assert_eq!(server_address(None), "127.0.0.1:6060");
    assert_eq!(server_address(Some("[::1]:80".to_string())), "[::1]:80");
}

#[test]
fn table_lists_agree() {
    let generated = ssb::tables().iter().map(|t| t.name).collect::<Vec<_>>();
    assert_eq!(generated, ssb_tables());
}

#[test]
fn ssb_tables_are_converted_without_their_last_column() {
    let all = ssb::tables();
    assert_eq!(all.iter().map(|t| t.columns.len()).collect::<Vec<_>>(), vec![8, 7, 9, 17, 17]);
    let calendar = &all[3];
    assert_eq!((calendar.name, calendar.tbl_stem), ("dwdate", "date"));
    let supplier = &all[1];
    assert_eq!(
        supplier.read_csv_columns(),
        "'s_suppkey':'INTEGER','s_name':'VARCHAR','s_address':'VARCHAR','s_city':'VARCHAR',\
         's_nation':'VARCHAR','s_region':'VARCHAR','s_phone':'VARCHAR','dummy':'VARCHAR'"
    );
    assert_eq!(
        supplier.copy_stmt("/ssb/tbl", "/ssb/parquet"),
        format!(
            "COPY (SELECT * EXCLUDE (dummy) FROM read_csv('/ssb/tbl/supplier.tbl', delim='|', \
             header=false, columns={{{}}})) TO '/ssb/parquet/supplier.parquet' (FORMAT PARQUET);\n",
            supplier.read_csv_columns()
        )
    );
}

fn words(command: &CommandLine) -> String {
    let mut out = command.program.clone();
    for arg in &command.args {
        out.push(' ');
        out.push_str(arg);
    }
    out
}

#[test]
fn ssb_data_is_generated_once() {
    let done = ssb::generate_tables("1", "/ssb/1", "/data", &vec![true; 5], false, false);
    assert_eq!(done.len(), 1);
    assert!(matches!(&done[0], SsbStep::CreateDir(dir) if dir == "/ssb/1/parquet"));

    let mut present = vec![true; 5];
    present[4] = false;
    let steps = ssb::generate_tables("1", "/ssb/1", "/data", &present, false, false);
    let shown: Vec<String> = steps
        .iter()
        .map(|step| match step {
            SsbStep::CreateDir(dir) => format!("mkdir {dir}"),
            SsbStep::Run(command) => words(command).chars().take(72).collect(),
            SsbStep::Expect { file, .. } => format!("expect {file}"),
            SsbStep::RemoveDir(dir) => format!("rm {dir}"),
        })
        .collect();
    assert_eq!(
        shown,
        vec![
            "mkdir /ssb/1/parquet",
            "mkdir /data",
            "git clone https://github.com/eyalroz/ssb-dbgen.git /data/ssb-dbgen",
            "git -C /data/ssb-dbgen checkout --quiet ae1e254aa4d603d8ef1f44078e5abed0",
            "cmake -S /data/ssb-dbgen -B /data/ssb-dbgen/build -DCMAKE_BUILD_TYPE=Rel",
            "cmake --build /data/ssb-dbgen/build --target dbgen",
            "expect /data/ssb-dbgen/build/dbgen",
            "mkdir /ssb/1/tbl",
            "/data/ssb-dbgen/build/dbgen -s 1 -f",
            "expect /ssb/1/tbl/customer.tbl",
            "expect /ssb/1/tbl/supplier.tbl",
            "expect /ssb/1/tbl/part.tbl",
            "expect /ssb/1/tbl/date.tbl",
            "expect /ssb/1/tbl/lineorder.tbl",
            "duckdb -c COPY (SELECT * EXCLUDE (dummy) FROM read_csv('/ssb/1/tbl/custo",
            "rm /ssb/1/tbl",
        ]
    );
    let built = ssb::build_dbgen("/data", true, false);
    assert!(built.is_empty());
    let cloned = ssb::build_dbgen("/data", false, true);
    assert_eq!(cloned.len(), 4);
    assert!(matches!(
        &cloned[3],
        SsbStep::Expect { complaint, .. }
            if complaint == "ssb: cmake succeeded but /data/ssb-dbgen/build/dbgen is missing"
    ));
    assert!(matches!(
        &steps[9],
        SsbStep::Expect { complaint, .. }
            if complaint == "ssb: dbgen did not produce /ssb/1/tbl/customer.tbl"
    ));
    assert!(matches!(
        &steps[8],
        SsbStep::Run(command) if command.env[1] == ("DSS_PATH".to_string(), "/ssb/1/tbl".to_string())
    ));
}

#[test]
fn generated_file_path_matches_cli_layout() {
    assert_eq!(
        generated_file_path("nation", "/scratch", true).unwrap(),
        "/scratch/nation.parquet"
    );
    assert_eq!(
        generated_file_path("nation", "/scratch", false).unwrap_err().message(),
        "expected tpchgen-cli to write /scratch/nation.parquet"
    );
}

#[test]
fn tpch_tables_are_made_one_at_a_time() {
    let options = TpchGenOptions::new("0.1".to_string(), "/tpch/0.1");
    let generation = generate_tpch_tables(&options).unwrap();
    assert_eq!(generation.parquet_dir, "/tpch/0.1/parquet");
    assert_eq!(generation.tables.len(), 8);
    assert_eq!(generation.tables[7], "lineitem");

    let job = table_job("part", &options, &None, &generation.parquet_dir, false, "id").unwrap();
    assert_eq!(job.output_file, "/tpch/0.1/parquet/part_0.parquet");
    assert_eq!(job.scratch_dir, "/tpch/0.1/parquet/.part-tpchgen-id");
    assert_eq!(
        words(&job.command),
        "uvx --from tpchgen-cli==3.0.0 tpchgen-cli parquet -s 0.1 --tables part --output-dir \
         /tpch/0.1/parquet/.part-tpchgen-id --no-progress --quiet"
    );
    let own = Some("/bin/gen".to_string());
    let job = table_job("part", &options, &own, &generation.parquet_dir, false, "id").unwrap();
    assert!(words(&job.command).starts_with("/bin/gen parquet -s 0.1"));
    assert!(table_job("part", &options, &None, "/p", true, "id").is_none());

    // Two runs never share a scratch directory.
    let one = generate_table_file("part", &options, &None, "/p", false).unwrap();
    let two = generate_table_file("part", &options, &None, "/p", false).unwrap();
    assert_ne!(one.scratch_dir, two.scratch_dir);
    assert_eq!(one.scratch_dir.len(), "/p/.part-tpchgen-".len() + 36);
    assert_eq!(one.generated_file, format!("{}/part.parquet", one.scratch_dir));

    let lance = options.with_format(Format::Lance);
    assert_eq!(
        generate_tpch_tables(&lance).err().unwrap().message(),
        "TPC-H generation only creates Parquet base data; use data-gen conversion for lance"
    );
    let default = TpchGenOptions::default_in("/data");
    assert_eq!((default.scale_factor.as_str(), default.output_dir.as_str()), ("1.0", "/data/tpch"));
    assert!(generate_tpch_tables(&default.with_format(Format::OnDiskDuckDB)).is_ok());
}

fn benchmark(name: &str) -> PBIBenchmark {
    PBIBenchmark { name: name.to_string(), base_path: format!("/pbi/benchmark/{name}") }
}

fn tables(benchmark: &PBIBenchmark, names: &[&str]) -> Vec<Table> {
    let mut list = String::new();
    for name in names {
        list.push_str(&format!("https://example.org/data/{name}.csv.bz2\n"));
    }
    let urls = table_urls(&list).unwrap();
    let statements = names.iter().map(|n| Some(format!("CREATE TABLE {n} (a DECIMAL(3, 1))"))).collect();
    benchmark.tables(urls, statements).unwrap()
}

#[test]
fn pbi_v3_dataset_dims_uses_pbi_name_as_dataset_with_no_variant() {
    let bench = PBIBenchmark { name: "Arade".to_string(), base_path: String::new() };
    assert_eq!(bench.v3_dataset_dims(), ("Arade", None));

    let bench = PBIBenchmark { name: "CMSprovider".to_string(), base_path: String::new() };
    assert_eq!(bench.v3_dataset_dims(), ("CMSprovider", None));
}

#[test]
fn pbi_datasets_are_found_by_name() {
    assert_eq!(PBIDataset::from_str("cmsPROVIDER").unwrap(), PBIDataset::CMSprovider);
    assert_eq!(PBIDataset::from_str("yalelanguages").unwrap(), PBIDataset::YaleLanguages);
    assert_eq!(
        PBIDataset::from_str("none").unwrap_err().message(),
        "invalid PBI dataset 'none': invalid variant: none"
    );
    assert_eq!(PBIDataset::value_variants().len(), 46);
}

#[test]
fn pbi_queries_come_in_the_order_of_their_numbers() {
    let bench = benchmark("Arade");
    let file = |name: &str, sql: &str| (name.to_string(), sql.to_string());
    let queries = bench
        .queries(&vec![file("10.sql", "c"), file("2.sql", "b"), file("+1.sql", "a")])
        .unwrap();
    let shown: Vec<(usize, &str)> = queries.iter().map(|q| (q.index, q.sql.as_str())).collect();
    assert_eq!(shown, vec![(1, "a"), (2, "b"), (10, "c")]);
    assert_eq!(
        bench.queries(&vec![file("1.txt", "")]).err().unwrap().message(),
        "found non-sql file under queries folder 1.txt"
    );
    assert_eq!(
        bench.queries(&vec![file("1.sql", ""), file("one.sql", "")]).err().unwrap().message(),
        "non numeric filename one.sql"
    );
}

#[test]
fn pbi_tables_are_named_after_their_files() {
    assert_eq!(table_name_of("/data/Arade_1.csv.bz2").as_deref(), Some("Arade_1"));
    assert_eq!(table_name_of("/data/Arade_1.csv"), None);
    assert_eq!(table_name_of("data.csv.bz2"), None);
    assert_eq!(table_name_of("/data/.csv.bz2").as_deref(), Some(""));
    assert_eq!(table_name_of("/data/...csv.bz2").as_deref(), Some(".."));
    let urls = table_urls("https://example.org/a/X_1.csv.bz2\r\nhttps://example.org/X_2.csv.bz2").unwrap();
    assert_eq!(urls.iter().map(|u| u.name()).collect::<Vec<_>>(), vec!["X_1", "X_2"]);
    for bad in ["not a url\n", "https://example.org/X_1.csv\n", "mailto:x.csv.bz2\n"] {
        assert_eq!(
            table_urls(bad).err().unwrap().message(),
            "invalid urls in data-urls.txt"
        );
    }
    let bench = benchmark("Arade");
    assert_eq!(bench.table_sql_path("Arade_1"), "/pbi/benchmark/Arade/tables/Arade_1.table.sql");
    assert_eq!(bench.table_sql_path("a.b"), "/pbi/benchmark/Arade/tables/a.table.sql");
    // Names that stand for a directory leave the extension to it, or have none.
    assert_eq!(bench.table_sql_path(""), "/pbi/benchmark/Arade/tables.table.sql");
    assert_eq!(bench.table_sql_path("."), "/pbi/benchmark/Arade/tables.table.sql");
    assert_eq!(bench.table_sql_path(".."), "/pbi/benchmark/Arade/tables/..");
    let urls = table_urls("https://example.org/Arade_1.csv.bz2\n").unwrap();
    assert_eq!(
        bench.tables(urls, vec![None]).err().unwrap().message(),
        "invalid urls in data-urls.txt"
    );
}

#[test]
fn pbi_entries_are_qualified_where_there_are_several_tables() {
    let single = benchmark("Arade");
    let entries = single.own_tables(&tables(&single, &["Arade_1"])).unwrap();
    assert_eq!((entries[0].name(), entries[0].table_name()), ("Arade", "Arade_1"));
    assert_eq!(entries[0].dataset(), PBIDataset::Arade);

    let double = benchmark("CMSprovider");
    let both = tables(&double, &["CMSprovider_1", "CMSprovider_2"]);
    let entries = double.own_tables(&both).unwrap();
    assert_eq!(entries[1].name(), "CMSprovider/CMSprovider_2");
    assert_eq!(entries[1].v3_dataset_dims(), ("CMSprovider/CMSprovider_2", None));
    let data = double.dataset(both, "/data");
    assert_eq!(entries[1].table(&data).unwrap(), 1);
    let other = single.dataset(tables(&single, &["Arade_1"]), "/data");
    assert_eq!(
        entries[1].table(&other).unwrap_err().message(),
        "table CMSprovider_2 vanished from CMSprovider"
    );
    assert_eq!(
        benchmark("Other").own_tables(&Vec::new()).err().unwrap().message(),
        "unsupported dataset Other: invalid variant: Other"
    );
}

#[test]
fn pbi_checkouts_are_listed_by_name() {
    let dir = |name: &str, path: &str| (name.to_string(), path.to_string());
    let datasets = PBIDatasets::try_new(&vec![
        dir("Telco", "/a/Telco"),
        dir("Arade", "/a/Arade"),
        dir("telco", "/b/telco"),
    ])
    .unwrap();
    assert_eq!(datasets.get(PBIDataset::Telco).base_path, "/b/telco");
    assert!(datasets.find(PBIDataset::Wins).is_none());
    let ordered = datasets.ordered();
    let names: Vec<&str> = ordered.iter().map(|b| b.name()).collect();
    assert_eq!(names, vec!["Arade", "telco"]);
    let listed = vec![
        tables(ordered[0], &["Arade_1"]),
        tables(ordered[1], &["Telco_2", "Telco_1"]),
    ];
    let entries = datasets.all_tables(&listed).unwrap();
    let names: Vec<&str> = entries.iter().map(|e| e.name()).collect();
    assert_eq!(names, vec!["Arade", "telco/Telco_2", "telco/Telco_1"]);
    assert_eq!(
        PBIDatasets::try_new(&vec![dir("README.md", "/a")]).err().unwrap().message(),
        "unsupported dataset: README.md invalid variant: README.md"
    );
}

fn shown(step: &PbiStep) -> String {
    match step {
        PbiStep::Download { url, path } => format!("download {url} {path}"),
        PbiStep::Decompress { from, to } => format!("unzip {from} {to}"),
        PbiStep::ToParquet { table, from, to } => format!("parquet {table} {from} {to}"),
        PbiStep::ToVortex { table, from, to } => format!("vortex {table} {from} {to}"),
    }
}

#[test]
fn pbi_tables_are_fetched_and_converted() {
    let bench = benchmark("Arade");
    let data: PBIData = bench.dataset(tables(&bench, &["A_1", "A_2"]), "/data");
    assert_eq!(data.base_path, "/data/PBI/Arade");
    assert_eq!(
        data.get_file_path("A_1", FileType::CsvBzip2),
        "/data/PBI/Arade/csv_bzip2/A_1.csv.bz2"
    );
    assert_eq!(
        data.write_table_as_parquet(1, false).iter().map(shown).collect::<Vec<_>>(),
        vec![
            "download https://example.org/data/A_2.csv.bz2 /data/PBI/Arade/csv_bzip2/A_2.csv.bz2",
            "unzip /data/PBI/Arade/csv_bzip2/A_2.csv.bz2 /data/PBI/Arade/csv/A_2.csv",
            "parquet 1 /data/PBI/Arade/csv/A_2.csv /data/PBI/Arade/parquet/A_2.parquet",
        ]
    );
    assert_eq!(data.write_table_as_parquet(1, true).len(), 1);
    assert_eq!(data.write_table_as_vortex(0, true).len(), 2);
    let all: Vec<String> = data.write_as_vortex().iter().map(shown).collect();
    let verbs: Vec<&str> = all.iter().map(|s| s.split(' ').next().unwrap()).collect();
    assert_eq!(
        verbs,
        vec!["download", "download", "unzip", "unzip", "parquet", "parquet", "vortex", "vortex"]
    );
    assert_eq!(data.write_as_parquet().len(), 6);
    assert_eq!(data.download_bzips().len(), 2);
    assert_eq!(bench.vortex_file(&data).unwrap(), "/data/PBI/Arade/vortex/A_1.vortex");
    assert_eq!(bench.parquet_file(&data).unwrap(), "/data/PBI/Arade/parquet/A_1.parquet");
    let empty = bench.dataset(Vec::new(), "/data");
    assert_eq!(
        bench.vortex_file(&empty).unwrap_err().message(),
        "must have at least one table"
    );
    assert_eq!(
        bench.parquet_file(&empty).unwrap_err().message(),
        "must have at least one parquet file"
    );
}

#[test]
fn pbi_decimals_are_read_as_doubles() {
    assert_eq!(
        replace_decimals("a DECIMAL(10, 2), b decimal ( x, c Decimal(4), decimals int").unwrap(),
        "a DOUBLE, b DOUBLE ( x, c DOUBLE, decimals int"
    );
    let bench = benchmark("Arade");
    let command =
        public_bi_csv_to_parquet_file(&tables(&bench, &["A_1"])[0], "/in.csv", "/out.parquet")
            .unwrap();
    assert_eq!(command.program, "duckdb");
    assert_eq!(command.args[0], "-c");
    assert_eq!(
        command.args[1],
        conversion_script("CREATE TABLE A_1 (a DOUBLE)", "A_1", "/in.csv", "/out.parquet")
    );
    assert_eq!(
        command.args[1],
        "
             CREATE TABLE A_1 (a DOUBLE);

             COPY A_1 FROM '/in.csv' (
              DELIMITER '|',
              HEADER false,
              NULL 'null'
             );

             COPY A_1 TO '/out.parquet' (FORMAT parquet, COMPRESSION zstd);
             "
    );
}

#[test]
fn pbi_benchmarks_read_one_file_per_table() {
    let bench = benchmark("Arade");
    let data = bench.dataset(tables(&bench, &["A_1", "A_2"]), "/data");
    let suite = PublicBiBenchmark::new(PBIDataset::Arade, &data).unwrap();
    assert_eq!(suite.data_url.text, "file:///data/PBI/Arade/");
    assert_eq!(suite.dataset_name(), "public-bi");
    assert_eq!(suite.dataset_display(&bench), "public-bi(Arade)");
    assert_eq!(suite.doc_path(), "vortex-bench/sql/public-bi.md");
    let specs = suite.table_specs::<()>();
    assert_eq!(specs.iter().map(|s| s.name.as_str()).collect::<Vec<_>>(), vec!["A_1", "A_2"]);
    assert!(specs.iter().all(|s| s.schema.is_none()));
    assert_eq!(suite.pattern("A_1", Format::Parquet).as_deref(), Some("A_1.parquet"));
    assert_eq!(suite.pattern("a***b", Format::Parquet), None);
    assert_eq!(suite.pattern("a\\b", Format::Parquet).as_deref(), Some("a\\b.parquet"));
    assert_eq!(pattern_of("A_1", Format::Parquet, true).as_deref(), Some("A_1.parquet"));
    assert_eq!(pattern_of("A_1", Format::Parquet, false), None);
    assert_eq!(FileType::CsvBzip2.name(), "csv_bzip2");
    assert_eq!(FileType::CsvBzip2.extension(), "csv.bz2");
}

/// A URL takes a path as long as it stays below four gigabytes, with room for what an escape takes.
#[test]
fn urls_stay_below_four_gigabytes() {
    let path = |text: &str| text.chars().collect::<Vec<char>>();
    let limit = u32::MAX as usize;
    assert!(is_small_with(20, 5, &path("/data/")));
    assert!(!is_small_with(5, 20, &path("/")));
    assert!(!is_small_with(limit + 1, limit + 1, &path("")));
    // Of what the old path leaves, sixteen characters are kept free for slashes.
    assert!(is_small_with(limit, 20, &path("/abc")));
    assert!(!is_small_with(limit, 20, &path("/abcd")));
    assert!(is_small_with(limit, 28, &path("\u{20ac}")));
    assert!(!is_small_with(limit, 27, &path("\u{20ac}")));
    assert!(!is_small_with(limit, 20, &path("?")));
}
