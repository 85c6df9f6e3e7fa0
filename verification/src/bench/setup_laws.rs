//! What preparing a benchmark's data does, said of the formats that are native and asked for.

use vstd::prelude::*;

use crate::bench::format::Format;
use crate::bench::pipeline_laws::writes;
use crate::bench::setup::{planned, prepared, Plan, PrepareStep};

verus! {

/// The format can be had: the benchmark produces it, or produces Parquet and a conversion writes it.
pub open spec fn obtainable(native: Seq<Format>, format: Format) -> bool {
    native.contains(format) || native.contains(Format::Parquet) && (format is OnDiskVortex
        || format is VortexCompact)
}

/// The format is left to others.
pub open spec fn left_to_others(format: Format) -> bool {
    format is Lance || format is OnDiskDuckDB || format is Csv
}

/// A format is planned exactly where it can be had: as it is where the benchmark produces it, and
/// otherwise by the conversion that writes it.
pub proof fn plans_say_how_formats_come_about(native: Seq<Format>, requested: Format)
    ensures
        planned(native, requested) is Ok <==> obtainable(native, requested),
        planned(native, requested) matches Ok(plan) ==> match plan {
            Plan::Native(format) => format == requested && native.contains(format),
            Plan::DeriveFromParquet(format, strategy) => format == requested && !native.contains(
                format,
            ) && native.contains(Format::Parquet) && writes(strategy, format),
        },
{
}

/// A step is one that the formats ask for: Parquet is set up first, another native format where it
/// is asked for, and a format that is not native is derived by the conversion that writes it.
pub open spec fn called_for(
    step: PrepareStep,
    first: bool,
    native: Seq<Format>,
    formats: Seq<Format>,
) -> bool {
    match step {
        PrepareStep::Setup(f) => native.contains(f) && if f is Parquet {
            first
        } else {
            formats.contains(f) && !left_to_others(f)
        },
        PrepareStep::Derive(f, s) => formats.contains(f) && !native.contains(f) && native.contains(
            Format::Parquet,
        ) && writes(s, f),
    }
}

/// The format has been taken care of.
pub open spec fn had(steps: Seq<PrepareStep>, native: Seq<Format>, format: Format) -> bool {
    if native.contains(format) {
        steps.contains(PrepareStep::Setup(format))
    } else {
        exists|i: int| 0 <= i < steps.len() && (#[trigger] steps[i]) is Derive && steps[i]->Derive_0
            == format
    }
}

/// The steps for some of the formats are called for, and take care of each of them that is not left
/// to others, up to the first that cannot be had.
pub open spec fn takes_care(
    steps: Seq<PrepareStep>,
    failed: bool,
    native: Seq<Format>,
    formats: Seq<Format>,
    n: nat,
) -> bool {
    &&& forall|i: int|
        0 <= i < steps.len() ==> called_for(#[trigger] steps[i], i == 0, native, formats)
    &&& !failed ==> forall|k: int|
        0 <= k < n && !left_to_others(#[trigger] formats[k]) ==> had(steps, native, formats[k])
    &&& failed <==> exists|k: int|
        0 <= k < n && !left_to_others(#[trigger] formats[k]) && !obtainable(native, formats[k])
}

proof fn had_still(steps: Seq<PrepareStep>, more: Seq<PrepareStep>, native: Seq<Format>, format: Format)
    requires
        had(steps, native, format),
    ensures
        had(steps + more, native, format),
{
    let out = steps + more;
    if native.contains(format) {
        let i = choose|i: int|
            0 <= i < steps.len() && steps[i] == PrepareStep::Setup(format);
        assert(out[i] == PrepareStep::Setup(format));
    } else {
        let i = choose|i: int|
            0 <= i < steps.len() && (#[trigger] steps[i]) is Derive && steps[i]->Derive_0 == format;
        assert(out[i] == steps[i]);
    }
}

proof fn parquet_is_first(name: Seq<char>, native: Seq<Format>, formats: Seq<Format>, n: nat)
    requires
        n <= formats.len(),
    ensures
        ({
            let steps = prepared(name, native, formats, n).0;
            native.contains(Format::Parquet) && (exists|k: int|
                0 <= k < formats.len() && (!native.contains(#[trigger] formats[k]) || formats[k]
                    is Parquet)) <==> steps.len() > 0 && steps[0] == PrepareStep::Setup(
                Format::Parquet,
            )
        }),
        prepared(name, native, formats, n).0.contains(PrepareStep::Setup(Format::Parquet)) ==> ({
            let steps = prepared(name, native, formats, n).0;
            steps.len() > 0 && steps[0] == PrepareStep::Setup(Format::Parquet)
        }),
    decreases n,
{
    if n > 0 {
        parquet_is_first(name, native, formats, (n - 1) as nat);
        let (before, failure) = prepared(name, native, formats, (n - 1) as nat);
        let after = prepared(name, native, formats, n).0;
        plans_say_how_formats_come_about(native, formats[n - 1]);
        if after.contains(PrepareStep::Setup(Format::Parquet)) {
            let i = choose|i: int|
                0 <= i < after.len() && after[i] == PrepareStep::Setup(Format::Parquet);
            if i < before.len() {
                assert(before[i] == after[i]);
                assert(before.contains(PrepareStep::Setup(Format::Parquet)));
            }
        }
        if before.len() > 0 {
            assert(after[0] == before[0]);
        }
    }
}

/// Every step is called for; every format that is asked for and not left to others is taken care
/// of, or there is a failure, exactly where one of them cannot be had.
pub proof fn preparing_takes_care_of_the_formats(
    name: Seq<char>,
    native: Seq<Format>,
    formats: Seq<Format>,
    n: nat,
)
    requires
        n <= formats.len(),
    ensures
        takes_care(
            prepared(name, native, formats, n).0,
            prepared(name, native, formats, n).1 is Some,
            native,
            formats,
            n,
        ),
    decreases n,
{
    let (steps, failure) = prepared(name, native, formats, n);
    if n > 0 {
        let m = (n - 1) as nat;
        let format = formats[m as int];
        preparing_takes_care_of_the_formats(name, native, formats, m);
        plans_say_how_formats_come_about(native, format);
        let (before, earlier) = prepared(name, native, formats, m);
        assert(formats.contains(format));
        if earlier is Some {
            let k = choose|k: int|
                0 <= k < m && !left_to_others(#[trigger] formats[k]) && !obtainable(
                    native,
                    formats[k],
                );
            assert(0 <= k < n && !left_to_others(formats[k]) && !obtainable(native, formats[k]));
        } else if left_to_others(format) {
            assert(steps == before);
        } else {
            match planned(native, format) {
                Err(_) => {
                    assert(0 <= m < n && !left_to_others(formats[m as int]) && !obtainable(
                        native,
                        formats[m as int],
                    ));
                },
                Ok(plan) => {
                    let more = crate::bench::setup::format_steps(plan);
                    assert(steps == before + more);
                    assert forall|k: int|
                        0 <= k < n && !left_to_others(#[trigger] formats[k]) implies had(
                        steps,
                        native,
                        formats[k],
                    ) by {
                        if k < m {
                            had_still(before, more, native, formats[k]);
                        } else if format is Parquet {
                            parquet_is_first(name, native, formats, n);
                            assert(formats[k] is Parquet);
                            assert(steps[0] == PrepareStep::Setup(Format::Parquet));
                        } else {
                            assert(steps[before.len() as int] == more[0]);
                        }
                    }
                    assert forall|i: int| 0 <= i < steps.len() implies called_for(
                        #[trigger] steps[i],
                        i == 0,
                        native,
                        formats,
                    ) by {
                        if i < before.len() {
                            assert(steps[i] == before[i]);
                        } else {
                            assert(steps[i] == more[i - before.len()]);
                        }
                    }
                },
            }
        }
    }
}

/// Parquet is set up, before anything else, exactly where the benchmark produces it and it is asked
/// for, or something is that the benchmark does not produce.
pub proof fn parquet_comes_first(name: Seq<char>, native: Seq<Format>, formats: Seq<Format>)
    ensures
        ({
            let steps = prepared(name, native, formats, formats.len()).0;
            native.contains(Format::Parquet) && (exists|k: int|
                0 <= k < formats.len() && (!native.contains(#[trigger] formats[k]) || formats[k]
                    is Parquet)) <==> steps.contains(PrepareStep::Setup(Format::Parquet))
        }),
        ({
            let steps = prepared(name, native, formats, formats.len()).0;
            forall|i: int|
                0 <= i < steps.len() && (#[trigger] steps[i]) == PrepareStep::Setup(Format::Parquet)
                    ==> i == 0
        }),
{
    let steps = prepared(name, native, formats, formats.len()).0;
    parquet_is_first(name, native, formats, formats.len());
    preparing_takes_care_of_the_formats(name, native, formats, formats.len());
    if steps.len() > 0 && steps[0] == PrepareStep::Setup(Format::Parquet) {
        assert(steps.contains(steps[0]));
    }
    assert forall|i: int|
        0 <= i < steps.len() && (#[trigger] steps[i]) == PrepareStep::Setup(Format::Parquet) implies i
        == 0 by {
        assert(called_for(steps[i], i == 0, native, formats));
    }
}

} // verus!
