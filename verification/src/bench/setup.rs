//! Materializing a benchmark's data: which formats it produces itself, and which are derived.
//!
//! Parquet is the pivot, since it is the only format that others are derived from: nothing converts
//! Vortex back. A benchmark that produces only Vortex cannot serve a Parquet run.

use vstd::prelude::*;

use crate::bench::format::{contains, CompactionStrategy, Format};
use crate::bench::path;
use crate::error::{VortexError, VortexResult};
use crate::text::{join3, same_text};

verus! {

/// A file that a benchmark's setup produced, with the table it belongs to. A table may have many
/// files.
#[derive(Debug, Clone)]
pub struct Emitted {
    pub table: String,
    pub path: String,
}

/// An emitted file as its table and path.
pub open spec fn emitted_model(files: Seq<Emitted>) -> Seq<(Seq<char>, Seq<char>)> {
    Seq::new(files.len(), |i: int| (files[i].table@, files[i].path@))
}

/// What a benchmark's setup is handed: the directory it writes into, and the files it has produced.
pub struct SetupCtx {
    staging: String,
    emitted: Vec<Emitted>,
}

impl SetupCtx {
    /// The directory to write into.
    pub closed spec fn staging_dir(&self) -> Seq<char> {
        self.staging@
    }

    /// The files produced so far, in order.
    pub closed spec fn files(&self) -> Seq<(Seq<char>, Seq<char>)> {
        emitted_model(self.emitted@)
    }

    /// A setup that writes into `staging`.
    pub fn new(staging: String) -> (out: Self)
        ensures
            out.staging_dir() == staging@,
            out.files() == Seq::<(Seq<char>, Seq<char>)>::empty(),
    {
        let out = SetupCtx { staging, emitted: Vec::new() };
        assert(out.files() =~= Seq::empty());
        out
    }

    /// The directory to write into.
    pub fn staging(&self) -> (out: &str)
        ensures
            out@ == self.staging_dir(),
    {
        self.staging.as_str()
    }

    /// Register a file as part of a table.
    pub fn emit(&mut self, table: String, path: String)
        ensures
            final(self).files() == old(self).files().push((table@, path@)),
            final(self).staging_dir() == old(self).staging_dir(),
    {
        let ghost before = self.emitted@;
        self.emitted.push(Emitted { table, path });
        assert(emitted_model(self.emitted@) =~= emitted_model(before).push((table@, path@)));
    }

    /// Every registered file, in the order of registration.
    pub fn emitted(&self) -> (out: &Vec<Emitted>)
        ensures
            emitted_model(out@) == self.files(),
    {
        &self.emitted
    }
}

/// How a requested format comes about.
#[derive(Clone, Copy, PartialEq, Eq, Structural, Debug)]
pub enum Plan {
    /// The benchmark produces it.
    Native(Format),
    /// Parquet is produced and converted.
    DeriveFromParquet(Format, CompactionStrategy),
}

/// The first `n` formats as they are spelled, with commas between.
pub open spec fn spelled_list(formats: Seq<Format>, n: nat) -> Seq<char>
    decreases n,
{
    if n == 0 {
        ""@
    } else if n == 1 {
        formats[0].spelled()
    } else {
        spelled_list(formats, (n - 1) as nat) + ", "@ + formats[n - 1].spelled()
    }
}

/// What is said of a format that the benchmark neither produces nor can derive without Parquet.
pub open spec fn no_parquet(native: Seq<Format>, requested: Format) -> Seq<char> {
    "cannot produce "@ + requested.name_text() + ": not native (["@ + spelled_list(
        native,
        native.len(),
    ) + "]) and Parquet is unavailable"@
}

/// What is said of a format that cannot be derived.
pub open spec fn not_derivable(requested: Format) -> Seq<char> {
    "cannot derive "@ + requested.name_text() + " from Parquet"@
}

/// How a requested format comes about, or why it cannot.
pub open spec fn planned(native: Seq<Format>, requested: Format) -> Result<Plan, Seq<char>> {
    if native.contains(requested) {
        Ok(Plan::Native(requested))
    } else if !native.contains(Format::Parquet) {
        Err(no_parquet(native, requested))
    } else {
        match requested {
            Format::OnDiskVortex => Ok(
                Plan::DeriveFromParquet(requested, CompactionStrategy::Default),
            ),
            Format::VortexCompact => Ok(
                Plan::DeriveFromParquet(requested, CompactionStrategy::Compact),
            ),
            _ => Err(not_derivable(requested)),
        }
    }
}

fn spell(formats: &Vec<Format>) -> (out: String)
    ensures
        out@ == spelled_list(formats@, formats@.len()),
{
    let mut out = String::from_str("");
    let mut index: usize = 0;
    while index < formats.len()
        invariant
            index <= formats@.len(),
            out@ == spelled_list(formats@, index as nat),
        decreases formats@.len() - index,
    {
        if index == 0 {
            out = String::from_str(formats[0].spelling());
        } else {
            out.append(", ");
            out.append(formats[index].spelling());
        }
        index = index + 1;
    }
    out
}

/// Decide how a requested format comes about.
pub fn plan(native: &Vec<Format>, requested: Format) -> (out: VortexResult<Plan>)
    ensures
        match out {
            Ok(plan) => planned(native@, requested) == Ok::<Plan, Seq<char>>(plan),
            Err(error) => planned(native@, requested) == Err::<Plan, Seq<char>>(error@),
        },
{
    if contains(native, requested) {
        return Ok(Plan::Native(requested));
    }
    if !contains(native, Format::Parquet) {
        let mut message = join3("cannot produce ", requested.name(), ": not native ([");
        message.append(spell(native).as_str());
        message.append("]) and Parquet is unavailable");
        return Err(VortexError::new(message));
    }
    match requested {
        Format::OnDiskVortex => Ok(
            Plan::DeriveFromParquet(requested, CompactionStrategy::Default),
        ),
        Format::VortexCompact => Ok(
            Plan::DeriveFromParquet(requested, CompactionStrategy::Compact),
        ),
        _ => Err(
            VortexError::new(join3("cannot derive ", requested.name(), " from Parquet")),
        ),
    }
}

/// One step of materializing a benchmark's data.
#[derive(Clone, Copy, PartialEq, Eq, Structural, Debug)]
pub enum PrepareStep {
    /// Let the benchmark produce a format, and finish it.
    Setup(Format),
    /// Convert the Parquet data, and finish the format.
    Derive(Format, CompactionStrategy),
}

/// The steps to run, in order, and what is said after them, if anything fails.
pub struct Preparation {
    pub steps: Vec<PrepareStep>,
    pub failure: Option<VortexError>,
}

/// The format is built elsewhere from the Parquet data.
pub open spec fn built_elsewhere(format: Format) -> bool {
    format == Format::Lance || format == Format::OnDiskDuckDB || format == Format::Csv
}

/// Parquet is requested, or needed to derive what is.
pub open spec fn needs_parquet(native: Seq<Format>, formats: Seq<Format>) -> bool {
    exists|i: int|
        0 <= i < formats.len() && (!native.contains(#[trigger] formats[i]) || formats[i]
            == Format::Parquet)
}

/// The steps of one format, once Parquet exists if anything needs it.
pub open spec fn format_steps(plan: Plan) -> Seq<PrepareStep> {
    match plan {
        Plan::Native(format) => if format == Format::Parquet {
            Seq::empty()
        } else {
            seq![PrepareStep::Setup(format)]
        },
        Plan::DeriveFromParquet(format, compaction) => seq![
            PrepareStep::Derive(format, compaction),
        ],
    }
}

/// What is said of a benchmark whose data cannot be materialized.
pub open spec fn in_benchmark(name: Seq<char>, cause: Seq<char>) -> Seq<char> {
    "benchmark "@ + name + ": "@ + cause
}

/// The steps of the first `n` formats, and what is said at the first that cannot be had.
pub open spec fn prepared(
    name: Seq<char>,
    native: Seq<Format>,
    formats: Seq<Format>,
    n: nat,
) -> (Seq<PrepareStep>, Option<Seq<char>>)
    decreases n,
{
    if n == 0 {
        (
            if needs_parquet(native, formats) && native.contains(Format::Parquet) {
                seq![PrepareStep::Setup(Format::Parquet)]
            } else {
                Seq::empty()
            },
            None,
        )
    } else {
        let (steps, failure) = prepared(name, native, formats, (n - 1) as nat);
        if failure is Some || built_elsewhere(formats[n - 1]) {
            (steps, failure)
        } else {
            match planned(native, formats[n - 1]) {
                Err(cause) => (steps, Some(in_benchmark(name, cause))),
                Ok(plan) => (steps + format_steps(plan), None),
            }
        }
    }
}

/// A preparation as its steps and what it says.
pub open spec fn preparation(out: Preparation) -> (Seq<PrepareStep>, Option<Seq<char>>) {
    (
        out.steps@,
        match out.failure {
            Some(error) => Some(error@),
            None => None,
        },
    )
}

proof fn failure_stays(name: Seq<char>, native: Seq<Format>, formats: Seq<Format>, m: nat, n: nat)
    requires
        m <= n,
        prepared(name, native, formats, m).1 is Some,
    ensures
        prepared(name, native, formats, n) == prepared(name, native, formats, m),
    decreases n - m,
{
    if m < n {
        failure_stays(name, native, formats, m, (n - 1) as nat);
    }
}

/// The steps that materialize the requested formats. A benchmark whose data lies behind any other
/// scheme than `file` needs none.
pub fn prepare_data(name: &str, scheme: &str, native: &Vec<Format>, formats: &Vec<Format>) -> (out:
    Preparation)
    ensures
        preparation(out) == (if scheme@ == "file"@ {
            prepared(name@, native@, formats@, formats@.len())
        } else {
            (Seq::empty(), None)
        }),
{
    let mut steps: Vec<PrepareStep> = Vec::new();
    if !same_text(scheme, "file") {
        assert(steps@ =~= Seq::<PrepareStep>::empty());
        return Preparation { steps, failure: None };
    }
    let mut needed = false;
    let mut index: usize = 0;
    while index < formats.len()
        invariant
            index <= formats@.len(),
            needed == (exists|i: int|
                0 <= i < index && (!native@.contains(#[trigger] formats@[i]) || formats@[i]
                    == Format::Parquet)),
        decreases formats@.len() - index,
    {
        if !contains(native, formats[index]) || formats[index] == Format::Parquet {
            needed = true;
        }
        index = index + 1;
    }
    assert(needed == needs_parquet(native@, formats@));
    if needed && contains(native, Format::Parquet) {
        steps.push(PrepareStep::Setup(Format::Parquet));
    }
    assert(steps@ =~= prepared(name@, native@, formats@, 0).0);
    index = 0;
    while index < formats.len()
        invariant
            index <= formats@.len(),
            scheme@ == "file"@,
            prepared(name@, native@, formats@, index as nat) == (steps@, None::<Seq<char>>),
        decreases formats@.len() - index,
    {
        let format = formats[index];
        let ghost before = steps@;
        if format != Format::Lance && format != Format::OnDiskDuckDB && format != Format::Csv {
            match plan(native, format) {
                Err(error) => {
                    let mut message = join3("benchmark ", name, ": ");
                    message.append(error.message.as_str());
                    proof {
                        failure_stays(
                            name@,
                            native@,
                            formats@,
                            (index + 1) as nat,
                            formats@.len(),
                        );
                    }
                    return Preparation { steps, failure: Some(VortexError::new(message)) };
                },
                Ok(Plan::Native(native_format)) => {
                    if native_format != Format::Parquet {
                        steps.push(PrepareStep::Setup(native_format));
                    }
                    assert(steps@ =~= before + format_steps(Plan::Native(native_format)));
                },
                Ok(Plan::DeriveFromParquet(derived, compaction)) => {
                    steps.push(PrepareStep::Derive(derived, compaction));
                    assert(steps@ =~= before + format_steps(
                        Plan::DeriveFromParquet(derived, compaction),
                    ));
                },
            }
        }
        index = index + 1;
    }
    Preparation { steps, failure: None }
}

/// Parquet is the only pivot: whatever is derived is derived by a benchmark that produces Parquet,
/// and only the two Vortex formats are.
pub proof fn only_parquet_is_a_pivot(native: Seq<Format>, requested: Format)
    ensures
        planned(native, requested) matches Ok(Plan::DeriveFromParquet(format, _)) ==> format
            == requested && native.contains(Format::Parquet) && !native.contains(requested) && (
        requested == Format::OnDiskVortex || requested == Format::VortexCompact),
        !native.contains(Format::Parquet) && !native.contains(requested) ==> planned(
            native,
            requested,
        ) is Err,
{
}

/// A format is derived only after Parquet was set up: every derivation is preceded by that step.
pub proof fn derived_formats_follow_parquet(
    name: Seq<char>,
    native: Seq<Format>,
    formats: Seq<Format>,
    n: nat,
    i: int,
)
    requires
        n <= formats.len(),
        0 <= i < prepared(name, native, formats, n).0.len(),
        prepared(name, native, formats, n).0[i] is Derive,
    ensures
        prepared(name, native, formats, n).0[0] == PrepareStep::Setup(Format::Parquet),
        i > 0,
    decreases n,
{
    if n > 0 {
        let (before, failure) = prepared(name, native, formats, (n - 1) as nat);
        if i < before.len() {
            derived_formats_follow_parquet(name, native, formats, (n - 1) as nat, i);
        } else {
            only_parquet_is_a_pivot(native, formats[n - 1]);
            assert(needs_parquet(native, formats)) by {
                assert(!native.contains(formats[n - 1]));
            }
            first_step_stays(name, native, formats, (n - 1) as nat);
        }
    }
}

proof fn first_step_stays(name: Seq<char>, native: Seq<Format>, formats: Seq<Format>, n: nat)
    requires
        needs_parquet(native, formats),
        native.contains(Format::Parquet),
    ensures
        prepared(name, native, formats, n).0.len() > 0,
        prepared(name, native, formats, n).0[0] == PrepareStep::Setup(Format::Parquet),
    decreases n,
{
    if n > 0 {
        first_step_stays(name, native, formats, (n - 1) as nat);
    }
}

/// Where a format is staged below the base directory.
pub fn staging_path(base_path: &str, format: Format) -> (out: String)
    ensures
        out@ == path::joined_path(base_path@, format.name_text()),
{
    path::join(base_path, format.name())
}

} // verus!
