//! A benchmark's checked-in table-registration SQL.
//!
//! The file is a template, since the data directory depends on the scale factor and the requested
//! format, and it is split into sections, since engines do not share a DDL dialect.

use vstd::prelude::*;

use crate::bench::format::Format;
use crate::bench::pipeline::{self, directory_of, Registration, TableSource};
use crate::chars::{self, begins_at, chars_of, copy_range, eq_ignore_ascii_case, extend, join, lines, replace, same, split, split_whitespace, string_of, trim};
use crate::error::{VortexError, VortexResult};
use crate::text::{join2, join3};

verus! {

/// The DDL dialect that a section is written in.
#[derive(Clone, Copy, PartialEq, Eq, Structural, Debug)]
pub enum SqlDialect {
    /// `CREATE VIEW ... AS SELECT * FROM read_parquet(...)`.
    DuckDb,
    /// `CREATE EXTERNAL TABLE ... STORED AS PARQUET LOCATION ...`.
    DataFusion,
}

impl SqlDialect {
    /// The tag that names this dialect in a section header.
    pub open spec fn tag_text(self) -> Seq<char> {
        match self {
            SqlDialect::DuckDb => "duckdb"@,
            SqlDialect::DataFusion => "datafusion"@,
        }
    }

    /// The tag that names this dialect in a section header.
    pub fn tag(&self) -> (out: &'static str)
        ensures
            out@ == self.tag_text(),
    {
        match self {
            SqlDialect::DuckDb => "duckdb",
            SqlDialect::DataFusion => "datafusion",
        }
    }
}

/// What marks the start of a section.
pub open spec fn section_header() -> Seq<char> {
    "-- @engine "@
}

/// The tag of a section header; `None` for any other line.
pub open spec fn header_tag(line: Seq<char>) -> Option<Seq<char>> {
    let text = chars::trimmed(line);
    if chars::begins(text, section_header()) {
        Some(chars::trimmed(text.skip(section_header().len() as int)))
    } else {
        None
    }
}

/// The sections of the first `n` lines: a header starts one, and any other line belongs to the
/// last; lines before the first header belong to none.
pub open spec fn sections_of(lines: Seq<Seq<char>>, n: nat) -> Seq<(Seq<char>, Seq<char>)>
    decreases n,
{
    if n == 0 {
        Seq::empty()
    } else {
        let before = sections_of(lines, (n - 1) as nat);
        match header_tag(lines[n - 1]) {
            Some(tag) => before.push((tag, Seq::empty())),
            None => if before.len() == 0 {
                before
            } else {
                before.update(
                    before.len() - 1,
                    (before.last().0, (before.last().1 + lines[n - 1]).push('\n')),
                )
            },
        }
    }
}

/// A parsed script. Statements still hold their placeholders.
#[derive(Debug)]
pub struct CreateScript {
    /// Where the script lies.
    pub path: String,
    /// The tag and the text of each section.
    pub sections: Vec<(String, String)>,
}

/// Sections as what they hold.
pub open spec fn sections_model(sections: Seq<(String, String)>) -> Seq<(Seq<char>, Seq<char>)> {
    Seq::new(sections.len(), |i: int| (sections[i].0@, sections[i].1@))
}

/// The text of the first section with this tag, from section `from` on.
pub open spec fn section(
    sections: Seq<(Seq<char>, Seq<char>)>,
    tag: Seq<char>,
    from: int,
) -> Option<Seq<char>>
    decreases sections.len() - from,
{
    if from < 0 || from >= sections.len() {
        None
    } else if sections[from].0 == tag {
        Some(sections[from].1)
    } else {
        section(sections, tag, from + 1)
    }
}

/// The first `n` lines that are neither blank nor comments, trimmed.
pub open spec fn statement_lines(lines: Seq<Seq<char>>, n: nat) -> Seq<Seq<char>>
    decreases n,
{
    if n == 0 {
        Seq::empty()
    } else {
        let before = statement_lines(lines, (n - 1) as nat);
        let line = chars::trimmed(lines[n - 1]);
        if line.len() == 0 || chars::begins(line, "--"@) {
            before
        } else {
            before.push(line)
        }
    }
}

/// A statement on one line, without comments and blank lines.
pub open spec fn statement(text: Seq<char>) -> Seq<char> {
    let lines = chars::lines_of(text);
    let kept = statement_lines(lines, lines.len());
    chars::joined(kept, " "@, kept.len())
}

/// The statements of the first `n` pieces, without empty ones.
pub open spec fn statements_of(parts: Seq<Seq<char>>, n: nat) -> Seq<Seq<char>>
    decreases n,
{
    if n == 0 {
        Seq::empty()
    } else {
        let before = statements_of(parts, (n - 1) as nat);
        let text = statement(parts[n - 1]);
        if text.len() == 0 {
            before
        } else {
            before.push(text)
        }
    }
}

/// The statements of a section, which semicolons separate.
pub open spec fn statements(body: Seq<char>) -> Seq<Seq<char>> {
    let parts = chars::split_on(body, ';');
    statements_of(parts, parts.len())
}

fn one_statement(text: &[char]) -> (out: Vec<char>)
    ensures
        out@ == statement(text@),
{
    let all = lines(text);
    let comment = chars_of("--");
    let mut kept: Vec<Vec<char>> = Vec::new();
    let ghost model = chars::pieces(all@);
    let mut index: usize = 0;
    assert(chars::pieces(kept@) =~= Seq::empty());
    while index < all.len()
        invariant
            index <= all@.len(),
            model == chars::pieces(all@),
            comment@ == "--"@,
            chars::pieces(kept@) == statement_lines(model, index as nat),
        decreases all@.len() - index,
    {
        let line = trim(&all[index]);
        assert(line@ == chars::trimmed(model[index as int]));
        assert(line@.skip(0) =~= line@);
        if line.len() > 0 && !begins_at(&line, 0, &comment) {
            let ghost before = chars::pieces(kept@);
            let ghost shown = line@;
            kept.push(line);
            assert(chars::pieces(kept@) =~= before.push(shown));
        }
        index = index + 1;
    }
    join(&kept, &chars_of(" "))
}

/// Split a section into executable statements, dropping comments and blank lines.
pub fn split_statements(body: &[char]) -> (out: Vec<String>)
    ensures
        pipeline::texts(out@) == statements(body@),
{
    let parts = split(body, ';');
    let ghost model = chars::pieces(parts@);
    let mut out: Vec<String> = Vec::new();
    let mut index: usize = 0;
    assert(pipeline::texts(out@) =~= Seq::empty());
    while index < parts.len()
        invariant
            index <= parts@.len(),
            model == chars::pieces(parts@),
            pipeline::texts(out@) == statements_of(model, index as nat),
        decreases parts@.len() - index,
    {
        assert(model[index as int] == parts@[index as int]@);
        let text = one_statement(&parts[index]);
        if text.len() > 0 {
            let ghost before = pipeline::texts(out@);
            let shown = string_of(&text);
            out.push(shown);
            assert(pipeline::texts(out@) =~= before.push(text@));
        }
        index = index + 1;
    }
    out
}

/// The word after `EXISTS`, from word `from` on.
pub open spec fn name_after_exists(words: Seq<Seq<char>>, from: int) -> Option<Seq<char>>
    decreases words.len() - from,
{
    if from < 0 || from >= words.len() {
        None
    } else if chars::same_ignoring_case(words[from], "EXISTS"@) {
        if from + 1 < words.len() {
            Some(words[from + 1])
        } else {
            None
        }
    } else {
        name_after_exists(words, from + 1)
    }
}

/// The tables that the first `n` statements register.
pub open spec fn names_of(statements: Seq<Seq<char>>, n: nat) -> Seq<Seq<char>>
    decreases n,
{
    if n == 0 {
        Seq::empty()
    } else {
        let before = names_of(statements, (n - 1) as nat);
        match name_after_exists(chars::words_of(statements[n - 1]), 0) {
            Some(name) => before.push(name),
            None => before,
        }
    }
}

fn table_name(statement: &str) -> (out: Option<String>)
    ensures
        pipeline::maybe_text(out) == name_after_exists(chars::words_of(statement@), 0),
{
    let words = split_whitespace(&chars_of(statement));
    let exists = chars_of("EXISTS");
    let ghost model = chars::pieces(words@);
    let mut index: usize = 0;
    while index < words.len()
        invariant
            index <= words@.len(),
            model == chars::pieces(words@),
            model == chars::words_of(statement@),
            exists@ == "EXISTS"@,
            name_after_exists(model, 0) == name_after_exists(model, index as int),
        decreases words@.len() - index,
    {
        assert(model[index as int] == words@[index as int]@);
        if eq_ignore_ascii_case(&words[index], &exists) {
            if index + 1 < words.len() {
                assert(model[index + 1] == words@[index + 1]@);
                return Some(string_of(&words[index + 1]));
            }
            return None;
        }
        index = index + 1;
    }
    None
}

/// DuckDB's table function for reading a format's files.
pub open spec fn read_function_of(format: Format) -> Seq<char> {
    match format {
        Format::OnDiskVortex => "read_vortex"@,
        Format::VortexCompact => "read_vortex"@,
        Format::VortexNative => "read_vortex"@,
        _ => "read_parquet"@,
    }
}

fn read_function(format: Format) -> (out: &'static str)
    ensures
        out@ == read_function_of(format),
{
    match format {
        Format::OnDiskVortex => "read_vortex",
        Format::VortexCompact => "read_vortex",
        Format::VortexNative => "read_vortex",
        _ => "read_parquet",
    }
}

/// DataFusion's name for a format, or what is said of one that has none.
pub open spec fn stored_name(format: Format) -> Result<Seq<char>, Seq<char>> {
    match format {
        Format::Parquet => Ok("PARQUET"@),
        Format::Csv => Ok("CSV"@),
        Format::OnDiskVortex => Ok("VORTEX"@),
        Format::VortexCompact => Ok("VORTEX"@),
        Format::VortexNative => Ok("VORTEX"@),
        _ => Err(format.name_text() + " has no DataFusion `STORED AS` name"@),
    }
}

fn stored_as(format: Format) -> (out: VortexResult<&'static str>)
    ensures
        match out {
            Ok(name) => stored_name(format) == Ok::<Seq<char>, Seq<char>>(name@),
            Err(error) => stored_name(format) == Err::<Seq<char>, Seq<char>>(error@),
        },
{
    match format {
        Format::Parquet => Ok("PARQUET"),
        Format::Csv => Ok("CSV"),
        Format::OnDiskVortex => Ok("VORTEX"),
        Format::VortexCompact => Ok("VORTEX"),
        Format::VortexNative => Ok("VORTEX"),
        _ => Err(
            VortexError::new(join2(format.name(), " has no DataFusion `STORED AS` name")),
        ),
    }
}

/// A section with its placeholders substituted, in this order.
pub open spec fn substituted(
    body: Seq<char>,
    object: Seq<char>,
    dir: Seq<char>,
    ext: Seq<char>,
    read: Seq<char>,
    format: Seq<char>,
) -> Seq<char> {
    let with_object = chars::replaced(body, "{object}"@, object);
    let with_dir = chars::replaced(with_object, "{dir}"@, dir);
    let with_ext = chars::replaced(with_dir, "{ext}"@, ext);
    let with_read = chars::replaced(with_ext, "{read}"@, read);
    chars::replaced(with_read, "{format}"@, format)
}

/// What is said of a section without statements.
pub open spec fn empty_section(path: Seq<char>, dialect: SqlDialect) -> Seq<char> {
    path + " has an empty `-- @engine "@ + dialect.tag_text() + "` section"@
}

/// The statements of a script for a dialect; `None` where it has no section for it.
pub open spec fn rendered(
    path: Seq<char>,
    sections: Seq<(Seq<char>, Seq<char>)>,
    dialect: SqlDialect,
    base_url: Seq<char>,
    registration: Registration,
) -> Result<Option<Seq<Seq<char>>>, Seq<char>> {
    match section(sections, dialect.tag_text(), 0) {
        None => Ok(None),
        Some(body) => match stored_name(registration.load_format) {
            Err(error) => Err(error),
            Ok(format) => {
                let text = substituted(
                    body,
                    registration.object.keyword(),
                    pipeline::directory(base_url),
                    registration.load_format.ext_text(),
                    read_function_of(registration.load_format),
                    format,
                );
                if statements(text).len() == 0 {
                    Err(empty_section(path, dialect))
                } else {
                    Ok(Some(statements(text)))
                }
            },
        },
    }
}

/// Rendered statements as what they hold.
pub open spec fn rendered_outcome(result: VortexResult<Option<Vec<String>>>) -> Result<
    Option<Seq<Seq<char>>>,
    Seq<char>,
> {
    match result {
        Ok(Some(statements)) => Ok(Some(pipeline::texts(statements@))),
        Ok(None) => Ok(None),
        Err(error) => Err(error@),
    }
}

fn fill(body: &[char], placeholder: &str, text: &str) -> (out: Vec<char>)
    requires
        placeholder@.len() > 0,
    ensures
        out@ == chars::replaced(body@, placeholder@, text@),
{
    replace(body, &chars_of(placeholder), &chars_of(text))
}

impl CreateScript {
    /// Split a script into sections. Text before the first header is preamble.
    pub fn parse(path: String, text: &str) -> (out: Self)
        ensures
            out.path == path,
            sections_model(out.sections@) == ({
                let lines = chars::lines_of(text@);
                sections_of(lines, lines.len())
            }),
    {
        let all = lines(&chars_of(text));
        let header = chars_of("-- @engine ");
        let ghost model = chars::pieces(all@);
        let mut sections: Vec<(String, String)> = Vec::new();
        let mut tag: Vec<char> = Vec::new();
        let mut body: Vec<char> = Vec::new();
        let mut open = false;
        let mut index: usize = 0;
        assert(sections_model(sections@) =~= Seq::empty());
        while index < all.len()
            invariant
                index <= all@.len(),
                model == chars::pieces(all@),
                header@ == section_header(),
                sections_of(model, index as nat) == (if open {
                    sections_model(sections@).push((tag@, body@))
                } else {
                    sections_model(sections@)
                }),
                !open ==> sections@.len() == 0,
            decreases all@.len() - index,
        {
            let line = trim(&all[index]);
            let ghost before = sections_model(sections@);
            let ghost current = (tag@, body@);
            assert(model[index as int] == all@[index as int]@);
            assert(line@.skip(0) =~= line@);
            if begins_at(&line, 0, &header) {
                if open {
                    sections.push((string_of(&tag), string_of(&body)));
                    assert(sections_model(sections@) =~= before.push(current));
                }
                let rest = copy_range(&line, header.len(), line.len());
                assert(rest@ =~= line@.skip(header@.len() as int));
                tag = trim(&rest);
                body = Vec::new();
                open = true;
                assert(body@ =~= Seq::empty());
            } else if open {
                extend(&mut body, &all[index]);
                body.push('\n');
                assert(before.push(current).update(before.len() as int, (tag@, body@))
                    =~= before.push((tag@, body@)));
            }
            index = index + 1;
        }
        if open {
            let ghost before = sections_model(sections@);
            let ghost current = (tag@, body@);
            sections.push((string_of(&tag), string_of(&body)));
            assert(sections_model(sections@) =~= before.push(current));
        }
        CreateScript { path, sections }
    }

    fn find(&self, dialect: SqlDialect) -> (out: Option<Vec<char>>)
        ensures
            match out {
                Some(body) => section(sections_model(self.sections@), dialect.tag_text(), 0)
                    == Some(body@),
                None => section(sections_model(self.sections@), dialect.tag_text(), 0) is None,
            },
    {
        let tag = chars_of(dialect.tag());
        let ghost model = sections_model(self.sections@);
        let mut index: usize = 0;
        while index < self.sections.len()
            invariant
                index <= self.sections@.len(),
                model == sections_model(self.sections@),
                tag@ == dialect.tag_text(),
                section(model, dialect.tag_text(), 0) == section(
                    model,
                    dialect.tag_text(),
                    index as int,
                ),
            decreases self.sections@.len() - index,
        {
            assert(model[index as int] == (
                self.sections@[index as int].0@,
                self.sections@[index as int].1@,
            ));
            if same(&chars_of(self.sections[index].0.as_str()), &tag) {
                return Some(chars_of(self.sections[index].1.as_str()));
            }
            index = index + 1;
        }
        None
    }

    /// The statements that register a benchmark's tables in a dialect, ready to execute. `None` if
    /// the script has no section for it. `base_url` is where the files of the format lie.
    pub fn render(&self, dialect: SqlDialect, base_url: &str, registration: Registration) -> (out:
        VortexResult<Option<Vec<String>>>)
        ensures
            rendered_outcome(out) == rendered(
                self.path@,
                sections_model(self.sections@),
                dialect,
                base_url@,
                registration,
            ),
    {
        let body = match self.find(dialect) {
            Some(body) => body,
            None => return Ok(None),
        };
        let load_format = registration.load_format;
        let dir = directory_of(base_url);
        let format = match stored_as(load_format) {
            Ok(format) => format,
            Err(error) => return Err(error),
        };
        proof {
            reveal_strlit("{object}");
            reveal_strlit("{dir}");
            reveal_strlit("{ext}");
            reveal_strlit("{read}");
            reveal_strlit("{format}");
        }
        let with_object = fill(&body, "{object}", registration.object.sql_keyword());
        let with_dir = fill(&with_object, "{dir}", dir.as_str());
        let with_ext = fill(&with_dir, "{ext}", load_format.ext());
        let with_read = fill(&with_ext, "{read}", read_function(load_format));
        let text = fill(&with_read, "{format}", format);
        let statements = split_statements(&text);
        if statements.len() == 0 {
            let mut message = join3(
                self.path.as_str(),
                " has an empty `-- @engine ",
                dialect.tag(),
            );
            message.append("` section");
            return Err(VortexError::new(message));
        }
        Ok(Some(statements))
    }

    /// The tables that this script registers in a dialect.
    pub fn table_names(&self, dialect: SqlDialect) -> (out: Vec<String>)
        ensures
            pipeline::texts(out@) == (match section(
                sections_model(self.sections@),
                dialect.tag_text(),
                0,
            ) {
                None => Seq::empty(),
                Some(body) => names_of(statements(body), statements(body).len()),
            }),
    {
        let mut out: Vec<String> = Vec::new();
        assert(pipeline::texts(out@) =~= Seq::empty());
        let body = match self.find(dialect) {
            Some(body) => body,
            None => return out,
        };
        let all = split_statements(&body);
        let ghost model = pipeline::texts(all@);
        let mut index: usize = 0;
        while index < all.len()
            invariant
                index <= all@.len(),
                model == pipeline::texts(all@),
                pipeline::texts(out@) == names_of(model, index as nat),
            decreases all@.len() - index,
        {
            assert(model[index as int] == all@[index as int]@);
            if let Some(name) = table_name(all[index].as_str()) {
                let ghost before = pipeline::texts(out@);
                let ghost shown = name@;
                out.push(name);
                assert(pipeline::texts(out@) =~= before.push(shown));
            }
            index = index + 1;
        }
        out
    }
}

/// The statement that registers a table in a dialect.
pub open spec fn generated<S>(dialect: SqlDialect, source: TableSource<S>) -> Result<
    Seq<char>,
    Seq<char>,
> {
    match dialect {
        SqlDialect::DuckDb => Ok(source.registration()),
        SqlDialect::DataFusion => match stored_name(source.load_format) {
            Err(error) => Err(error),
            Ok(format) => Ok(
                "CREATE EXTERNAL TABLE IF NOT EXISTS "@ + source.name@ + " STORED AS "@ + format
                    + " LOCATION '"@ + pipeline::directory(source.base_url@) + "/"@
                    + source.files() + "'"@,
            ),
        },
    }
}

/// The statements that register the first `n` tables, or why the first that has none does not.
pub open spec fn generated_all<S>(
    dialect: SqlDialect,
    sources: Seq<TableSource<S>>,
    n: nat,
) -> Result<Seq<Seq<char>>, Seq<char>>
    decreases n,
{
    if n == 0 {
        Ok(Seq::empty())
    } else {
        match generated_all(dialect, sources, (n - 1) as nat) {
            Err(error) => Err(error),
            Ok(before) => match generated(dialect, sources[n - 1]) {
                Err(error) => Err(error),
                Ok(text) => Ok(before.push(text)),
            },
        }
    }
}

/// Statements as what they hold.
pub open spec fn statements_outcome(result: VortexResult<Vec<String>>) -> Result<
    Seq<Seq<char>>,
    Seq<char>,
> {
    match result {
        Ok(statements) => Ok(pipeline::texts(statements@)),
        Err(error) => Err(error@),
    }
}

proof fn generated_stops<S>(
    dialect: SqlDialect,
    sources: Seq<TableSource<S>>,
    m: nat,
    n: nat,
)
    requires
        m <= n,
        generated_all(dialect, sources, m) is Err,
    ensures
        generated_all(dialect, sources, n) == generated_all(dialect, sources, m),
    decreases n - m,
{
    if m < n {
        generated_stops(dialect, sources, m, (n - 1) as nat);
    }
}

fn generate_one<S>(dialect: SqlDialect, source: &TableSource<S>) -> (out: VortexResult<String>)
    ensures
        match out {
            Ok(text) => generated(dialect, *source) == Ok::<Seq<char>, Seq<char>>(text@),
            Err(error) => generated(dialect, *source) == Err::<Seq<char>, Seq<char>>(error@),
        },
{
    match dialect {
        SqlDialect::DuckDb => Ok(source.duckdb_registration_sql()),
        SqlDialect::DataFusion => {
            let format = match stored_as(source.load_format) {
                Ok(format) => format,
                Err(error) => return Err(error),
            };
            let mut out = join3(
                "CREATE EXTERNAL TABLE IF NOT EXISTS ",
                source.name.as_str(),
                " STORED AS ",
            );
            out.append(format);
            out.append(" LOCATION '");
            out.append(source.base_dir().as_str());
            out.append("/");
            out.append(source.glob().as_str());
            out.append("'");
            Ok(out)
        },
    }
}

/// The statements that register tables without a checked-in script.
pub fn generated_statements<S>(dialect: SqlDialect, sources: &Vec<TableSource<S>>) -> (out:
    VortexResult<Vec<String>>)
    ensures
        statements_outcome(out) == generated_all(dialect, sources@, sources@.len()),
{
    let mut out: Vec<String> = Vec::new();
    let mut index: usize = 0;
    assert(pipeline::texts(out@) =~= Seq::empty());
    while index < sources.len()
        invariant
            index <= sources@.len(),
            generated_all(dialect, sources@, index as nat) == Ok::<Seq<Seq<char>>, Seq<char>>(
                pipeline::texts(out@),
            ),
        decreases sources@.len() - index,
    {
        let ghost before = pipeline::texts(out@);
        match generate_one(dialect, &sources[index]) {
            Ok(text) => {
                let ghost shown = text@;
                out.push(text);
                assert(pipeline::texts(out@) =~= before.push(shown));
            },
            Err(error) => {
                proof {
                    generated_stops(dialect, sources@, (index + 1) as nat, sources@.len());
                }
                return Err(error);
            },
        }
        index = index + 1;
    }
    Ok(out)
}

/// What a script makes of its section, where there is a script.
pub open spec fn scripted(
    script: Option<CreateScript>,
    dialect: SqlDialect,
    base_url: Seq<char>,
    registration: Registration,
) -> Result<Option<Seq<Seq<char>>>, Seq<char>> {
    match script {
        None => Ok(None),
        Some(script) => rendered(
            script.path@,
            sections_model(script.sections@),
            dialect,
            base_url,
            registration,
        ),
    }
}

/// The statements that register tables: those of the checked-in script, and where there is none, or
/// none for the dialect, generated ones.
pub fn registration_statements<S>(
    script: &Option<CreateScript>,
    dialect: SqlDialect,
    base_url: &str,
    registration: Registration,
    sources: &Vec<TableSource<S>>,
) -> (out: VortexResult<Vec<String>>)
    ensures
        statements_outcome(out) == (match scripted(*script, dialect, base_url@, registration) {
            Err(error) => Err(error),
            Ok(Some(statements)) => Ok(statements),
            Ok(None) => generated_all(dialect, sources@, sources@.len()),
        }),
{
    if let Some(script) = script {
        match script.render(dialect, base_url, registration) {
            Err(error) => return Err(error),
            Ok(Some(statements)) => return Ok(statements),
            Ok(None) => {},
        }
    }
    generated_statements(dialect, sources)
}

/// Lines before the first header belong to no section: dropping them changes nothing.
pub proof fn preamble_belongs_to_no_section(lines: Seq<Seq<char>>, preamble: nat, n: nat)
    requires
        preamble <= n <= lines.len(),
        forall|i: int| 0 <= i < preamble ==> header_tag(#[trigger] lines[i]) is None,
    ensures
        sections_of(lines, n) == sections_of(
            lines.skip(preamble as int),
            (n - preamble) as nat,
        ),
    decreases n,
{
    if n > preamble {
        preamble_belongs_to_no_section(lines, preamble, (n - 1) as nat);
        assert(lines.skip(preamble as int)[n - 1 - preamble] == lines[n - 1]);
    } else {
        no_header_no_section(lines, n);
    }
}

proof fn no_header_no_section(lines: Seq<Seq<char>>, n: nat)
    requires
        n <= lines.len(),
        forall|i: int| 0 <= i < n ==> header_tag(#[trigger] lines[i]) is None,
    ensures
        sections_of(lines, n).len() == 0,
    decreases n,
{
    if n > 0 {
        no_header_no_section(lines, (n - 1) as nat);
        assert(header_tag(lines[n - 1]) is None);
    }
}

} // verus!
