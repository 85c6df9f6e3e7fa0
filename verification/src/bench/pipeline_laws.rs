//! What the stages of a benchmark do, said of the formats and texts that they are given.

use vstd::prelude::*;

use crate::bench::format::{CompactionStrategy, Format};
use crate::bench::pipeline::{self, generate_steps, GenerateStep, TableObject};
use crate::chars;
use crate::chars_laws;

verus! {

/// A conversion writes a format: the usual one, or the compact one.
pub open spec fn writes(strategy: CompactionStrategy, format: Format) -> bool {
    ||| strategy is Default && format is OnDiskVortex
    ||| strategy is Compact && format is VortexCompact
}

/// No step is taken twice.
pub open spec fn taken_once(steps: Seq<GenerateStep>) -> bool {
    forall|i: int, j: int|
        #![trigger steps[i], steps[j]]
        0 <= i < j < steps.len() ==> steps[i] != steps[j]
}

/// Every format is finished, and no other.
pub open spec fn finishes(steps: Seq<GenerateStep>, formats: Seq<Format>) -> bool {
    forall|f: Format|
        #![trigger formats.contains(f)]
        steps.contains(GenerateStep::Prepare(f)) <==> formats.contains(f)
}

/// A conversion is made exactly where the format that it writes is asked for.
pub open spec fn converts(steps: Seq<GenerateStep>, formats: Seq<Format>) -> bool {
    forall|s: CompactionStrategy, f: Format|
        #![trigger writes(s, f)]
        writes(s, f) ==> (steps.contains(GenerateStep::Convert(s)) <==> formats.contains(f))
}

/// The step after `i` finishes the format.
pub open spec fn finished_after(steps: Seq<GenerateStep>, i: int, f: Format) -> bool {
    i + 1 < steps.len() && steps[i + 1] == GenerateStep::Prepare(f)
}

/// The format that a conversion writes is finished right after it.
pub open spec fn finishes_conversions(steps: Seq<GenerateStep>) -> bool {
    forall|i: int, s: CompactionStrategy, f: Format|
        #![trigger finished_after(steps, i, f), writes(s, f)]
        0 <= i < steps.len() && writes(s, f) && steps[i] == GenerateStep::Convert(s)
            ==> finished_after(steps, i, f)
}

/// The format `f` is asked for before `g` is.
pub open spec fn asked_before(formats: Seq<Format>, f: Format, g: Format) -> bool {
    exists|k: int|
        0 <= k < formats.len() && #[trigger] formats[k] == f && !formats.take(k + 1).contains(g)
}

/// Formats are finished in the order in which they are first asked for.
pub open spec fn keeps_order(steps: Seq<GenerateStep>, formats: Seq<Format>) -> bool {
    forall|i: int, j: int|
        #![trigger steps[i], steps[j]]
        0 <= i < j < steps.len() && steps[i] is Prepare && steps[j] is Prepare ==> asked_before(
            formats,
            steps[i]->Prepare_0,
            steps[j]->Prepare_0,
        )
}

/// The steps generate the formats: the base data comes first, no step is taken twice, every format
/// is finished, and no other; a conversion is made exactly where the format that it writes is asked
/// for, and that format is finished right after it; formats are finished in the order in which they
/// are first asked for.
pub open spec fn generates(steps: Seq<GenerateStep>, formats: Seq<Format>) -> bool {
    &&& steps.len() > 0 && steps[0] == GenerateStep::BaseData
    &&& taken_once(steps)
    &&& finishes(steps, formats)
    &&& converts(steps, formats)
    &&& finishes_conversions(steps)
    &&& keeps_order(steps, formats)
}

proof fn pushed(formats: Seq<Format>, more: Format, f: Format)
    ensures
        formats.push(more).contains(f) == (formats.contains(f) || f == more),
{
    let all = formats.push(more);
    if formats.contains(f) {
        let i = choose|i: int| 0 <= i < formats.len() && formats[i] == f;
        assert(all[i] == f);
    }
    assert(all[formats.len() as int] == more);
    if all.contains(f) {
        let i = choose|i: int| 0 <= i < all.len() && all[i] == f;
        if i < formats.len() {
            assert(formats[i] == f);
        }
    }
}

proof fn appended(steps: Seq<GenerateStep>, tail: Seq<GenerateStep>, step: GenerateStep)
    ensures
        (steps + tail).contains(step) == (steps.contains(step) || tail.contains(step)),
{
    let out = steps + tail;
    if steps.contains(step) {
        let i = choose|i: int| 0 <= i < steps.len() && steps[i] == step;
        assert(out[i] == step);
    }
    if tail.contains(step) {
        let i = choose|i: int| 0 <= i < tail.len() && tail[i] == step;
        assert(out[steps.len() + i] == step);
    }
    if out.contains(step) {
        let i = choose|i: int| 0 <= i < out.len() && out[i] == step;
        if i < steps.len() {
            assert(steps[i] == step);
        } else {
            assert(tail[i - steps.len()] == step);
        }
    }
}

proof fn asked_before_still(formats: Seq<Format>, more: Format, f: Format, g: Format)
    requires
        asked_before(formats, f, g),
    ensures
        asked_before(formats.push(more), f, g),
{
    let k = choose|k: int|
        0 <= k < formats.len() && #[trigger] formats[k] == f && !formats.take(k + 1).contains(g);
    assert(formats.push(more)[k] == f);
    assert(formats.push(more).take(k + 1) =~= formats.take(k + 1));
}

/// What is taken for one format: it is finished, after the conversion that writes it.
proof fn one_format(more: Format)
    ensures
        ({
            let tail = pipeline::format_steps(more);
            &&& tail.len() > 0 && tail.last() == GenerateStep::Prepare(more)
            &&& forall|f: Format| #[trigger] tail.contains(GenerateStep::Prepare(f)) == (f == more)
            &&& forall|s: CompactionStrategy| #[trigger]
                tail.contains(GenerateStep::Convert(s)) == writes(s, more)
            &&& !tail.contains(GenerateStep::BaseData)
            &&& taken_once(tail)
            &&& tail.len() <= 2
            &&& tail.len() == 2 ==> tail[0] is Convert
        }),
{
    let tail = pipeline::format_steps(more);
    assert(tail[tail.len() - 1] == GenerateStep::Prepare(more));
    assert(tail.contains(tail[0]));
}

proof fn repeats_are_generated(steps: Seq<GenerateStep>, formats: Seq<Format>, more: Format)
    requires
        generates(steps, formats),
        formats.contains(more),
    ensures
        generates(steps, formats.push(more)),
{
    let all = formats.push(more);
    assert forall|f: Format| #[trigger] all.contains(f) == formats.contains(f) by {
        pushed(formats, more, f);
    }
    assert forall|i: int, j: int|
        #![trigger steps[i], steps[j]]
        0 <= i < j < steps.len() && steps[i] is Prepare && steps[j] is Prepare implies asked_before(
        all,
        steps[i]->Prepare_0,
        steps[j]->Prepare_0,
    ) by {
        asked_before_still(formats, more, steps[i]->Prepare_0, steps[j]->Prepare_0);
    }
}

proof fn more_are_finished(steps: Seq<GenerateStep>, formats: Seq<Format>, more: Format)
    requires
        generates(steps, formats),
        !formats.contains(more),
    ensures
        finishes(steps + pipeline::format_steps(more), formats.push(more)),
        converts(steps + pipeline::format_steps(more), formats.push(more)),
{
    let all = formats.push(more);
    let tail = pipeline::format_steps(more);
    one_format(more);
    assert forall|f: Format| (steps + tail).contains(GenerateStep::Prepare(f))
        <==> #[trigger] all.contains(f) by {
        pushed(formats, more, f);
        appended(steps, tail, GenerateStep::Prepare(f));
        assert(tail.contains(GenerateStep::Prepare(f)) == (f == more));
    }
    assert forall|s: CompactionStrategy, f: Format| #[trigger] writes(s, f) implies ((steps
        + tail).contains(GenerateStep::Convert(s)) <==> all.contains(f)) by {
        pushed(formats, more, f);
        appended(steps, tail, GenerateStep::Convert(s));
        assert(tail.contains(GenerateStep::Convert(s)) == writes(s, more));
    }
}

proof fn more_are_taken_once(steps: Seq<GenerateStep>, formats: Seq<Format>, more: Format)
    requires
        generates(steps, formats),
        !formats.contains(more),
    ensures
        taken_once(steps + pipeline::format_steps(more)),
{
    let tail = pipeline::format_steps(more);
    let out = steps + tail;
    one_format(more);
    assert forall|i: int, j: int|
        #![trigger out[i], out[j]]
        0 <= i < j < out.len() implies out[i] != out[j] by {
        if j >= steps.len() {
            let step = tail[j - steps.len()];
            assert(tail.contains(step));
            if i < steps.len() {
                assert(out[i] == steps[i]);
                assert(steps.contains(steps[i]));
                match step {
                    GenerateStep::BaseData => {},
                    GenerateStep::Convert(s) => {
                        assert(writes(s, more));
                    },
                    GenerateStep::Prepare(f) => {
                        assert(formats.contains(f) == steps.contains(step));
                    },
                }
            } else {
                assert(out[i] == tail[i - steps.len()]);
            }
        }
    }
}

proof fn more_conversions_are_finished(steps: Seq<GenerateStep>, formats: Seq<Format>, more: Format)
    requires
        generates(steps, formats),
    ensures
        finishes_conversions(steps + pipeline::format_steps(more)),
{
    let tail = pipeline::format_steps(more);
    let out = steps + tail;
    one_format(more);
    assert forall|i: int, s: CompactionStrategy, f: Format|
        #![trigger finished_after(out, i, f), writes(s, f)]
        0 <= i < out.len() && writes(s, f) && out[i] == GenerateStep::Convert(
            s,
        ) implies finished_after(out, i, f) by {
        if i < steps.len() {
            assert(steps[i] == out[i]);
            assert(finished_after(steps, i, f));
            assert(out[i + 1] == steps[i + 1]);
        } else {
            let k = i - steps.len();
            assert(tail[k] == out[i]);
            assert(tail.contains(GenerateStep::Convert(s)));
            assert(writes(s, more));
            assert(k == 0 && tail.len() == 2);
            assert(out[i + 1] == tail[1]);
        }
    }
}

proof fn more_keep_order(steps: Seq<GenerateStep>, formats: Seq<Format>, more: Format)
    requires
        generates(steps, formats),
        !formats.contains(more),
    ensures
        keeps_order(steps + pipeline::format_steps(more), formats.push(more)),
{
    let tail = pipeline::format_steps(more);
    let out = steps + tail;
    let all = formats.push(more);
    one_format(more);
    assert forall|i: int, j: int|
        #![trigger out[i], out[j]]
        0 <= i < j < out.len() && out[i] is Prepare && out[j] is Prepare implies asked_before(
        all,
        out[i]->Prepare_0,
        out[j]->Prepare_0,
    ) by {
        let f = out[i]->Prepare_0;
        let g = out[j]->Prepare_0;
        if j < steps.len() {
            assert(out[i] == steps[i] && out[j] == steps[j]);
            asked_before_still(formats, more, f, g);
        } else {
            let k = j - steps.len();
            assert(out[j] == tail[k]);
            assert(tail.contains(GenerateStep::Prepare(g)));
            assert(g == more);
            if i < steps.len() {
                assert(out[i] == steps[i]);
                assert(steps.contains(GenerateStep::Prepare(f)));
                assert(formats.contains(f));
                let m = choose|m: int| 0 <= m < formats.len() && formats[m] == f;
                assert(all[m] == f);
                let head = all.take(m + 1);
                if head.contains(g) {
                    let w = choose|w: int| 0 <= w < head.len() && head[w] == g;
                    assert(formats[w] == g);
                }
            } else {
                assert(out[i] == tail[i - steps.len()]);
            }
        }
    }
}

/// The steps for a local directory generate what is asked for.
pub proof fn steps_generate_the_formats(formats: Seq<Format>, n: nat)
    requires
        n <= formats.len(),
    ensures
        generates(generate_steps(formats, n), formats.take(n as int)),
    decreases n,
{
    if n > 0 {
        let m = (n - 1) as nat;
        steps_generate_the_formats(formats, m);
        assert(formats.take(n as int) =~= formats.take(m as int).push(formats[m as int]));
        let before = generate_steps(formats, m);
        let asked = formats.take(m as int);
        let more = formats[m as int];
        if asked.contains(more) {
            repeats_are_generated(before, asked, more);
        } else {
            more_are_finished(before, asked, more);
            more_are_taken_once(before, asked, more);
            more_conversions_are_finished(before, asked, more);
            more_keep_order(before, asked, more);
        }
    } else {
        let steps = generate_steps(formats, 0);
        assert(steps == seq![GenerateStep::BaseData]);
        assert forall|step: GenerateStep| step != GenerateStep::BaseData implies !#[trigger]
            steps.contains(step) by {}
    }
}

/// Compacting is a step exactly where the compact format is asked for, and converting without it
/// exactly where the usual one is; each comes right before its own format is finished.
pub proof fn conversions_follow_the_formats(formats: Seq<Format>)
    ensures
        ({
            let steps = generate_steps(formats, formats.len());
            &&& steps.contains(GenerateStep::Convert(CompactionStrategy::Compact))
                <==> formats.contains(Format::VortexCompact)
            &&& steps.contains(GenerateStep::Convert(CompactionStrategy::Default))
                <==> formats.contains(Format::OnDiskVortex)
            &&& forall|i: int|
                0 <= i < steps.len() && steps[i] == GenerateStep::Convert(
                    CompactionStrategy::Compact,
                ) ==> #[trigger] finished_after(steps, i, Format::VortexCompact)
            &&& forall|i: int|
                0 <= i < steps.len() && steps[i] == GenerateStep::Convert(
                    CompactionStrategy::Default,
                ) ==> #[trigger] finished_after(steps, i, Format::OnDiskVortex)
        }),
{
    assert(formats.take(formats.len() as int) =~= formats);
    steps_generate_the_formats(formats, formats.len());
    assert(writes(CompactionStrategy::Compact, Format::VortexCompact));
    assert(writes(CompactionStrategy::Default, Format::OnDiskVortex));
}

/// The directory of a local URL is its path, and that of any other URL the whole of it, each without
/// the slashes at its end.
pub proof fn directories_are_paths_or_urls(path: Seq<char>, url: Seq<char>)
    requires
        !chars::begins(url, "file://"@),
    ensures
        pipeline::directory("file://"@ + path) == chars::trimmed_of(path, '/'),
        pipeline::directory(url) == chars::trimmed_of(url, '/'),
        pipeline::directory(url).len() > 0 ==> pipeline::directory(url).last() != '/',
        pipeline::directory("file://"@ + path).len() > 0 ==> pipeline::directory(
            "file://"@ + path,
        ).last() != '/',
{
    chars_laws::beginnings_have_rests(url, "file://"@, path);
    assert(("file://"@ + path).skip("file://"@.len() as int) =~= path);
    chars_laws::trimming_cuts_the_character(path, '/');
    chars_laws::trimming_cuts_the_character(url, '/');
}

/// A table's files are those that its pattern matches; without one, all that have the extension of
/// the format.
pub proof fn files_go_by_pattern_or_extension(pattern: Seq<char>, format: Format)
    ensures
        pipeline::glob_text(Some(pattern), format) == pattern,
        pipeline::glob_text(None, format) == seq!['*', '.'] + format.ext_text(),
{
    reveal_strlit("*.");
    assert("*."@ =~= seq!['*', '.']);
}

/// DuckDB's statement creates a table or a view of the name, and reads the files in the directory
/// with the function that is named after the format's extension.
pub proof fn duckdb_statements_read_the_files(
    object: TableObject,
    name: Seq<char>,
    format: Format,
    dir: Seq<char>,
    glob: Seq<char>,
)
    ensures
        ({
            let text = pipeline::duckdb_sql(object, name, format, dir, glob);
            &&& object is Table ==> chars::begins(
                text,
                "CREATE TABLE IF NOT EXISTS "@ + name + " AS SELECT * FROM "@,
            )
            &&& object is View ==> chars::begins(
                text,
                "CREATE VIEW IF NOT EXISTS "@ + name + " AS SELECT * FROM "@,
            )
            &&& chars::ends(
                text,
                " FROM read_"@ + format.ext_text() + "('"@ + dir + "/"@ + glob + "');\n"@,
            )
        }),
{
    reveal_strlit("CREATE ");
    reveal_strlit("TABLE");
    reveal_strlit("VIEW");
    reveal_strlit(" IF NOT EXISTS ");
    reveal_strlit("CREATE TABLE IF NOT EXISTS ");
    reveal_strlit("CREATE VIEW IF NOT EXISTS ");
    reveal_strlit(" AS SELECT * FROM ");
    reveal_strlit(" AS SELECT * FROM read_");
    reveal_strlit(" FROM read_");
    let text = pipeline::duckdb_sql(object, name, format, dir, glob);
    assert("CREATE "@ + "TABLE"@ + " IF NOT EXISTS "@ =~= "CREATE TABLE IF NOT EXISTS "@);
    assert("CREATE "@ + "VIEW"@ + " IF NOT EXISTS "@ =~= "CREATE VIEW IF NOT EXISTS "@);
    let create = "CREATE "@ + object.keyword() + " IF NOT EXISTS "@;
    let start = create + name + " AS SELECT * FROM "@;
    assert(text.take(start.len() as int) =~= start);
    let end = " FROM read_"@ + format.ext_text() + "('"@ + dir + "/"@ + glob + "');\n"@;
    assert(text.skip(text.len() - end.len()) =~= end);
}

} // verus!
