//! How the names of the formats relate.

use vstd::prelude::*;

use crate::bench::create_sql::{generated, read_function_of, stored_name, SqlDialect};
use crate::bench::format::Format;
use crate::bench::pipeline::{self, TableSource};
use crate::chars;

verus! {

/// A small letter.
pub open spec fn small(c: char) -> bool {
    'a' as int <= c as int <= 'z' as int
}

/// A text in capitals: each small letter is replaced by its capital, and the rest stays.
pub open spec fn capitals_of(text: Seq<char>, capitals: Seq<char>) -> bool {
    &&& capitals.len() == text.len()
    &&& forall|i: int|
        0 <= i < text.len() ==> if small(#[trigger] text[i]) {
            capitals[i] as int - 'A' as int == text[i] as int - 'a' as int
        } else {
            capitals[i] == text[i]
        }
}

/// A Vortex format.
pub open spec fn vortex(format: Format) -> bool {
    format is OnDiskVortex || format is VortexCompact || format is VortexNative
}

proof fn literals()
    ensures
        "csv"@ =~= seq!['c', 's', 'v'],
        "arrow"@ =~= seq!['a', 'r', 'r', 'o', 'w'],
        "parquet"@ =~= seq!['p', 'a', 'r', 'q', 'u', 'e', 't'],
        "vortex"@ =~= seq!['v', 'o', 'r', 't', 'e', 'x'],
        "duckdb"@ =~= seq!['d', 'u', 'c', 'k', 'd', 'b'],
        "lance"@ =~= seq!['l', 'a', 'n', 'c', 'e'],
        "CSV"@ =~= seq!['C', 'S', 'V'],
        "PARQUET"@ =~= seq!['P', 'A', 'R', 'Q', 'U', 'E', 'T'],
        "VORTEX"@ =~= seq!['V', 'O', 'R', 'T', 'E', 'X'],
{
    reveal_strlit("csv");
    reveal_strlit("arrow");
    reveal_strlit("parquet");
    reveal_strlit("vortex");
    reveal_strlit("duckdb");
    reveal_strlit("lance");
    reveal_strlit("CSV");
    reveal_strlit("PARQUET");
    reveal_strlit("VORTEX");
}

/// Where a format has a `STORED AS` name, that is the extension of its files in capitals. Parquet,
/// CSV and the Vortex formats have one, and no other format has.
pub proof fn stored_names_are_extensions_in_capitals(format: Format)
    ensures
        stored_name(format) is Ok <==> format is Parquet || format is Csv || vortex(format),
        stored_name(format) matches Ok(name) ==> capitals_of(format.ext_text(), name),
{
    literals();
}

/// Formats have the same `STORED AS` name exactly where their files have the same extension.
pub proof fn stored_names_tell_extensions_apart(a: Format, b: Format)
    requires
        stored_name(a) is Ok,
        stored_name(b) is Ok,
    ensures
        stored_name(a) == stored_name(b) <==> a.ext_text() == b.ext_text(),
{
    literals();
    assert("csv"@[0] == 'c' && "parquet"@[0] == 'p' && "vortex"@[0] == 'v');
    assert("CSV"@[0] == 'C' && "PARQUET"@[0] == 'P' && "VORTEX"@[0] == 'V');
}

/// What reads a format's files is named after their extension, where they are Vortex or Parquet
/// files; any other format is read as Parquet.
pub proof fn read_functions_are_named_after_extensions(format: Format)
    ensures
        vortex(format) || format is Parquet ==> read_function_of(format) == "read_"@
            + format.ext_text(),
        !vortex(format) ==> read_function_of(format) == read_function_of(Format::Parquet),
{
    literals();
    reveal_strlit("read_");
    reveal_strlit("read_vortex");
    reveal_strlit("read_parquet");
    assert("read_vortex"@ =~= "read_"@ + "vortex"@);
    assert("read_parquet"@ =~= "read_"@ + "parquet"@);
}

/// A format's name and the extension of its files are the same, except that the names of the Vortex
/// formats say more: they begin with the extension and a hyphen. So formats share an extension only
/// if they are the same or both are Vortex formats, and no two share a name.
pub proof fn names_begin_with_extensions(a: Format, b: Format)
    ensures
        !vortex(a) ==> a.name_text() == a.ext_text(),
        vortex(a) ==> a.ext_text().len() < a.name_text().len() && a.name_text().take(
            a.ext_text().len() as int,
        ) == a.ext_text() && a.name_text()[a.ext_text().len() as int] == '-',
        a.ext_text() == b.ext_text() <==> a == b || vortex(a) && vortex(b),
        a.name_text() == b.name_text() <==> a == b,
{
    literals();
    reveal_strlit("vortex-file-compressed");
    reveal_strlit("vortex-compact");
    reveal_strlit("vortex-native");
    assert("vortex-file-compressed"@.take(6) =~= "vortex"@);
    assert("vortex-compact"@.take(6) =~= "vortex"@);
    assert("vortex-native"@.take(6) =~= "vortex"@);
    assert("vortex-file-compressed"@.len() == 22 && "vortex-compact"@.len() == 14
        && "vortex-native"@.len() == 13);
    assert("csv"@[0] == 'c' && "arrow"@[0] == 'a' && "parquet"@[0] == 'p' && "vortex"@[0] == 'v'
        && "duckdb"@[0] == 'd' && "lance"@[0] == 'l');
    assert("vortex-file-compressed"@[0] == 'v' && "vortex-compact"@[0] == 'v'
        && "vortex-native"@[0] == 'v');
    if a.name_text() == b.name_text() {
        assert(a.name_text()[0] == b.name_text()[0]);
        assert(a.name_text().len() == b.name_text().len());
    }
    if a.ext_text() == b.ext_text() {
        assert(a.ext_text()[0] == b.ext_text()[0]);
    }
}

/// DataFusion's statement creates an external table of the name, stored as the format is named, at
/// the files in the directory.
pub proof fn datafusion_statements_locate_the_files<S>(source: TableSource<S>)
    ensures
        match generated(SqlDialect::DataFusion, source) {
            Ok(text) => stored_name(source.load_format) matches Ok(name) && chars::begins(
                text,
                "CREATE EXTERNAL TABLE IF NOT EXISTS "@ + source.name@ + " STORED AS "@ + name
                    + " "@,
            ) && chars::ends(
                text,
                " LOCATION '"@ + pipeline::directory(source.base_url@) + "/"@
                    + pipeline::glob_text(
                    pipeline::maybe_text(source.pattern),
                    source.load_format,
                ) + "'"@,
            ),
            Err(_) => stored_name(source.load_format) is Err,
        },
{
    if let Ok(text) = generated(SqlDialect::DataFusion, source) {
        let name = stored_name(source.load_format)->Ok_0;
        reveal_strlit(" LOCATION '");
        reveal_strlit(" ");
        let start = "CREATE EXTERNAL TABLE IF NOT EXISTS "@ + source.name@ + " STORED AS "@ + name
            + " "@;
        assert(text.take(start.len() as int) =~= start);
        let end = " LOCATION '"@ + pipeline::directory(source.base_url@) + "/"@ + source.files()
            + "'"@;
        assert(text.skip(text.len() - end.len()) =~= end);
    }
}

/// A format is spelled as it is named, but for the case of letters and hyphens; one that lies in
/// files of its own kind is spelled as such, with the extension of the files.
pub proof fn spellings_follow_names(format: Format)
    ensures
        format is Csv || format is Arrow || format is Parquet || format is Lance
            ==> chars::same_ignoring_case(format.spelled(), format.name_text()),
        format is VortexCompact || format is VortexNative ==> chars::same_ignoring_case(
            format.spelled(),
            format.ext_text() + format.name_text().skip(format.ext_text().len() as int + 1),
        ),
        format is OnDiskVortex || format is OnDiskDuckDB ==> chars::same_ignoring_case(
            format.spelled(),
            seq!['o', 'n', 'd', 'i', 's', 'k'] + format.ext_text(),
        ),
{
    literals();
    reveal_strlit("Csv");
    reveal_strlit("Arrow");
    reveal_strlit("Parquet");
    reveal_strlit("Lance");
    reveal_strlit("VortexCompact");
    reveal_strlit("VortexNative");
    reveal_strlit("OnDiskVortex");
    reveal_strlit("OnDiskDuckDB");
    reveal_strlit("vortex-compact");
    reveal_strlit("vortex-native");
    assert("vortex"@ + "vortex-compact"@.skip(7) =~= seq![
        'v',
        'o',
        'r',
        't',
        'e',
        'x',
        'c',
        'o',
        'm',
        'p',
        'a',
        'c',
        't',
    ]);
    assert("vortex"@ + "vortex-native"@.skip(7) =~= seq![
        'v',
        'o',
        'r',
        't',
        'e',
        'x',
        'n',
        'a',
        't',
        'i',
        'v',
        'e',
    ]);
}

} // verus!
