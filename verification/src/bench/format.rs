//! The formats that benchmark data is stored in.

use vstd::prelude::*;

verus! {

/// A storage format.
#[derive(Clone, Copy, PartialEq, Eq, Structural, Debug, Hash)]
pub enum Format {
    Csv,
    Arrow,
    Parquet,
    OnDiskVortex,
    VortexCompact,
    VortexNative,
    OnDiskDuckDB,
    Lance,
}

/// How much a conversion compacts what it writes.
#[derive(Clone, Copy, PartialEq, Eq, Structural, Debug, Hash)]
pub enum CompactionStrategy {
    Default,
    Compact,
}

impl Format {
    /// The name of the format, which is also that of its directory.
    pub open spec fn name_text(self) -> Seq<char> {
        match self {
            Format::Csv => "csv"@,
            Format::Arrow => "arrow"@,
            Format::Parquet => "parquet"@,
            Format::OnDiskVortex => "vortex-file-compressed"@,
            Format::VortexCompact => "vortex-compact"@,
            Format::VortexNative => "vortex-native"@,
            Format::OnDiskDuckDB => "duckdb"@,
            Format::Lance => "lance"@,
        }
    }

    /// The extension of the format's files.
    pub open spec fn ext_text(self) -> Seq<char> {
        match self {
            Format::Csv => "csv"@,
            Format::Arrow => "arrow"@,
            Format::Parquet => "parquet"@,
            Format::OnDiskVortex => "vortex"@,
            Format::VortexCompact => "vortex"@,
            Format::VortexNative => "vortex"@,
            Format::OnDiskDuckDB => "duckdb"@,
            Format::Lance => "lance"@,
        }
    }

    /// How the format is spelled as a value.
    pub open spec fn spelled(self) -> Seq<char> {
        match self {
            Format::Csv => "Csv"@,
            Format::Arrow => "Arrow"@,
            Format::Parquet => "Parquet"@,
            Format::OnDiskVortex => "OnDiskVortex"@,
            Format::VortexCompact => "VortexCompact"@,
            Format::VortexNative => "VortexNative"@,
            Format::OnDiskDuckDB => "OnDiskDuckDB"@,
            Format::Lance => "Lance"@,
        }
    }

    /// The name of the format.
    pub fn name(self) -> (out: &'static str)
        ensures
            out@ == self.name_text(),
    {
        match self {
            Format::Csv => "csv",
            Format::Arrow => "arrow",
            Format::Parquet => "parquet",
            Format::OnDiskVortex => "vortex-file-compressed",
            Format::VortexCompact => "vortex-compact",
            Format::VortexNative => "vortex-native",
            Format::OnDiskDuckDB => "duckdb",
            Format::Lance => "lance",
        }
    }

    /// The extension of the format's files.
    pub fn ext(self) -> (out: &'static str)
        ensures
            out@ == self.ext_text(),
    {
        match self {
            Format::Csv => "csv",
            Format::Arrow => "arrow",
            Format::Parquet => "parquet",
            Format::OnDiskVortex => "vortex",
            Format::VortexCompact => "vortex",
            Format::VortexNative => "vortex",
            Format::OnDiskDuckDB => "duckdb",
            Format::Lance => "lance",
        }
    }

    /// How the format is spelled as a value.
    pub fn spelling(self) -> (out: &'static str)
        ensures
            out@ == self.spelled(),
    {
        match self {
            Format::Csv => "Csv",
            Format::Arrow => "Arrow",
            Format::Parquet => "Parquet",
            Format::OnDiskVortex => "OnDiskVortex",
            Format::VortexCompact => "VortexCompact",
            Format::VortexNative => "VortexNative",
            Format::OnDiskDuckDB => "OnDiskDuckDB",
            Format::Lance => "Lance",
        }
    }
}

/// Whether a list holds a format.
pub fn contains(formats: &Vec<Format>, format: Format) -> (out: bool)
    ensures
        out == formats@.contains(format),
{
    let mut index: usize = 0;
    while index < formats.len()
        invariant
            index <= formats@.len(),
            forall|i: int| 0 <= i < index ==> #[trigger] formats@[i] != format,
        decreases formats@.len() - index,
    {
        if formats[index] == format {
            return true;
        }
        index = index + 1;
    }
    false
}

} // verus!
