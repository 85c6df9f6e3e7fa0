//! Random access to benchmark data: where the files lie, how large their row groups are, and
//! which row groups hold the rows that are asked for.

use vstd::prelude::*;

use super::format::Format;
use super::path;
use crate::chars;
use crate::error::{VortexError, VortexResult};
use crate::location::{self, Location};
use crate::text;

verus! {

/// Where the file of a data set lies, below the data directory.
pub open spec fn data_path_text(dataset: Seq<char>, format: Format) -> Seq<char> {
    "random_access/"@ + dataset + "/"@ + dataset + (match format {
        Format::VortexCompact => "-compact."@,
        _ => "."@,
    }) + format.ext_text()
}

/// Generate the data path for a random-access benchmark dataset file.
///
/// Returns a path like `random_access/{dataset}/{dataset}.{ext}`
/// (or `{dataset}-compact.{ext}` for [`Format::VortexCompact`]).
pub fn data_path(dataset: &str, format: Format) -> (out: String)
    ensures
        out@ == data_path_text(dataset@, format),
{
    let mut out = String::from_str("random_access/");
    out.append(dataset);
    out.append("/");
    out.append(dataset);
    match format {
        Format::VortexCompact => {
            out.append("-compact.");
        },
        _ => {
            out.append(".");
        },
    }
    out.append(format.ext());
    out
}

/// A benchmark dataset that knows where its data files lie.
pub trait BenchDataset {
    /// The name, as text.
    spec fn named(&self) -> Seq<char>;

    /// The number of rows.
    spec fn rows(&self) -> u64;

    /// A descriptive name for this dataset.
    fn name(&self) -> (out: &str)
        ensures
            out@ == self.named(),
    ;

    /// The total number of rows in this dataset.
    fn row_count(&self) -> (out: u64)
        ensures
            out == self.rows(),
    ;

    /// Where the data file for a format lies, below the data directory.
    fn path(&self, format: Format) -> (out: String)
        ensures
            out@ == data_path_text(self.named(), format),
    {
        data_path(self.name(), format)
    }
}

/// Approximate byte budget for one row group.
pub const TARGET_ROW_GROUP_BYTES: usize = 134_217_728;

/// Row groups are sized in whole multiples of this many rows, the number that is read at once.
pub const PARQUET_READ_BATCH_SIZE: usize = 1024;

/// The fewest batches in a row group.
pub const MIN_BATCHES_PER_ROW_GROUP: usize = 8;

/// The most batches in a row group.
pub const MAX_BATCHES_PER_ROW_GROUP: usize = 64;

/// Rows per data page.
pub const DATA_PAGE_ROWS: usize = 1024;

/// How a file of a data set is laid out.
#[derive(Clone, Copy, PartialEq, Eq, Structural, Debug)]
pub struct WriterLimits {
    /// The most rows in a row group.
    pub row_group_rows: usize,
    /// The most rows in a data page.
    pub data_page_rows: usize,
}

/// The rows of a row group, for rows of a width: as many whole batches as the byte budget holds,
/// within the bounds.
pub open spec fn row_group_rows(row_bytes: int) -> int {
    let budget = TARGET_ROW_GROUP_BYTES as int / row_bytes / PARQUET_READ_BATCH_SIZE as int;
    let batches = if budget < MIN_BATCHES_PER_ROW_GROUP {
        MIN_BATCHES_PER_ROW_GROUP as int
    } else if budget > MAX_BATCHES_PER_ROW_GROUP {
        MAX_BATCHES_PER_ROW_GROUP as int
    } else {
        budget
    };
    batches * PARQUET_READ_BATCH_SIZE
}

/// The limits for a dataset of `approx_row_bytes` per row.
pub fn random_access_writer_properties(approx_row_bytes: usize) -> (out: WriterLimits)
    requires
        approx_row_bytes > 0,
    ensures
        out.row_group_rows == row_group_rows(approx_row_bytes as int),
        out.data_page_rows == DATA_PAGE_ROWS,
{
    let budget: usize = TARGET_ROW_GROUP_BYTES / approx_row_bytes / PARQUET_READ_BATCH_SIZE;
    let batches: usize = if budget < MIN_BATCHES_PER_ROW_GROUP {
        MIN_BATCHES_PER_ROW_GROUP
    } else if budget > MAX_BATCHES_PER_ROW_GROUP {
        MAX_BATCHES_PER_ROW_GROUP
    } else {
        budget
    };
    WriterLimits {
        row_group_rows: batches * PARQUET_READ_BATCH_SIZE,
        data_page_rows: DATA_PAGE_ROWS,
    }
}

/// Row groups hold a whole number of batches, fewer than a million rows, and no more bytes than
/// the budget, unless a row is so wide that the fewest batches already exceed it.
pub proof fn row_groups_are_aligned_and_bounded(row_bytes: int)
    requires
        row_bytes > 0,
    ensures
        row_group_rows(row_bytes) % PARQUET_READ_BATCH_SIZE as int == 0,
        0 < row_group_rows(row_bytes) < 1_000_000,
        MIN_BATCHES_PER_ROW_GROUP * PARQUET_READ_BATCH_SIZE * row_bytes <= TARGET_ROW_GROUP_BYTES
            ==> row_group_rows(row_bytes) * row_bytes <= TARGET_ROW_GROUP_BYTES,
{
    let target = TARGET_ROW_GROUP_BYTES as int;
    let rows = target / row_bytes;
    let budget = rows / 1024;
    assert(rows * row_bytes <= target) by (nonlinear_arith)
        requires
            rows == target / row_bytes,
            row_bytes > 0,
            target >= 0,
    ;
    assert(budget * 1024 <= rows);
    assert(rows >= 0) by (nonlinear_arith)
        requires
            rows == target / row_bytes,
            row_bytes > 0,
            target >= 0,
    ;
    if budget >= 8 {
        let chosen = row_group_rows(row_bytes);
        assert(chosen <= rows);
        assert(chosen * row_bytes <= rows * row_bytes) by (nonlinear_arith)
            requires
                chosen <= rows,
                row_bytes > 0,
        ;
    }
}

/// Wider rows never get larger row groups.
pub proof fn wider_rows_get_no_larger_row_groups(narrow: int, wide: int)
    requires
        0 < narrow <= wide,
    ensures
        row_group_rows(wide) <= row_group_rows(narrow),
{
    let target = TARGET_ROW_GROUP_BYTES as int;
    assert(target / wide <= target / narrow) by (nonlinear_arith)
        requires
            0 < narrow <= wide,
            target >= 0,
    ;
}

/// A remote directory holding the same layout as the local benchmark data directory.
pub struct RemoteDataDir {
    location: Location,
}

/// The URL of a remote directory: a slash is added to a path that does not end in one, so that
/// what is resolved against the directory is appended to it.
pub open spec fn directory_url(url: Seq<char>) -> Result<
    (Seq<char>, Seq<char>, bool),
    Seq<char>,
> {
    match location::url_read(url) {
        Err(error) => Err(error),
        Ok((text, path, opaque)) => if path.len() > 0 && path.last() == '/' {
            Ok((text, path, opaque))
        } else if !location::stays_small(text.len(), path.len(), path + "/"@) {
            Err("URLs more than 4 GB are not supported"@)
        } else {
            location::url_with_path(url, path + "/"@)
        },
    }
}

/// A remote directory, given whether its URL resolves to a store.
pub open spec fn remote_directory(url: Seq<char>, resolved: Result<(), String>) -> Result<
    (Seq<char>, Seq<char>, bool),
    Seq<char>,
> {
    match directory_url(url) {
        Err(error) => Err(error),
        Ok(parts) => match resolved {
            Ok(()) => Ok(parts),
            Err(error) => Err(error@),
        },
    }
}

/// The URL of a remote directory.
pub fn directory_location(url: &str) -> (out: VortexResult<Location>)
    ensures
        match out {
            Ok(location) => directory_url(url@) == Ok::<(Seq<char>, Seq<char>, bool), Seq<char>>(
                location.parts(),
            ),
            Err(error) => directory_url(url@) == Err::<(Seq<char>, Seq<char>, bool), Seq<char>>(
                error@,
            ),
        },
        out matches Ok(location) ==> {
            let read = location::url_read(url@)->Ok_0;
            !read.2 && (read.1.len() > 0 ==> read.1[0] == '/') ==> location.path@.len() > 0
                && location.path@.last() == '/'
        },
{
    match Location::parse(url) {
        Err(error) => Err(VortexError::new(error)),
        Ok(location) => {
            let path = chars::chars_of(location.path.as_str());
            let length: usize = path.len();
            if length > 0 && path[length - 1] == '/' {
                return Ok(location);
            }
            let with_slash = text::join2(location.path.as_str(), "/");
            let whole: usize = chars::chars_of(location.text.as_str()).len();
            if !location::is_small_with(whole, length, &chars::chars_of(with_slash.as_str())) {
                return Err(
                    VortexError::new(String::from_str("URLs more than 4 GB are not supported")),
                );
            }
            proof {
                reveal_strlit("/");
            }
            match Location::parse_with_path(url, with_slash.as_str()) {
                Err(error) => Err(VortexError::new(error)),
                Ok(location) => Ok(location),
            }
        },
    }
}

/// The URL of a local path in a remote directory.
pub open spec fn remote_url(directory: Seq<char>, local_path: Seq<char>, data_dir: Seq<char>) -> Result<
    (Seq<char>, Seq<char>, bool),
    Seq<char>,
> {
    match path::below(local_path, data_dir, true) {
        None => Err(local_path + " is not inside the benchmark data directory"@),
        Some(relative) => location::url_joined(directory, relative),
    }
}

impl RemoteDataDir {
    /// What the directory's URL holds.
    pub closed spec fn parts(self) -> (Seq<char>, Seq<char>, bool) {
        self.location.parts()
    }

    /// The directory's URL, as text.
    pub open spec fn text(self) -> Seq<char> {
        self.parts().0
    }

    /// A remote data directory at `url` (e.g. `s3://bucket/prefix/`), whose
    /// [`directory_location`] was resolved to a store up front, or why it could not be: a scheme
    /// that no store serves, or an unusable configuration, is reported before any data is
    /// generated. The directory's path ends in a slash, unless nothing can be resolved against the
    /// URL.
    pub fn try_new(url: &str, resolved: Result<(), String>) -> (out: VortexResult<RemoteDataDir>)
        ensures
            match out {
                Ok(dir) => remote_directory(url@, resolved) == Ok::<
                    (Seq<char>, Seq<char>, bool),
                    Seq<char>,
                >(dir.parts()),
                Err(error) => remote_directory(url@, resolved) == Err::<
                    (Seq<char>, Seq<char>, bool),
                    Seq<char>,
                >(error@),
            },
            out matches Ok(dir) ==> {
                let read = location::url_read(url@)->Ok_0;
                !read.2 && (read.1.len() > 0 ==> read.1[0] == '/') ==> dir.parts().1.len() > 0
                    && dir.parts().1.last() == '/'
            },
    {
        match directory_location(url) {
            Err(error) => Err(error),
            Ok(location) => match resolved {
                Err(error) => Err(VortexError::new(error)),
                Ok(()) => Ok(RemoteDataDir { location }),
            },
        }
    }

    /// The URL of `local_path` within this directory, mirroring its location below the local
    /// `data_dir`.
    pub fn url_of(&self, local_path: &str, data_dir: &str) -> (out: VortexResult<Location>)
        ensures
            match out {
                Ok(location) => remote_url(self.text(), local_path@, data_dir@) == Ok::<
                    (Seq<char>, Seq<char>, bool),
                    Seq<char>,
                >(location.parts()),
                Err(error) => remote_url(self.text(), local_path@, data_dir@) == Err::<
                    (Seq<char>, Seq<char>, bool),
                    Seq<char>,
                >(error@),
            },
    {
        match path::strip_prefix(&chars::chars_of(local_path), &chars::chars_of(data_dir)) {
            None => Err(
                VortexError::new(
                    text::join2(local_path, " is not inside the benchmark data directory"),
                ),
            ),
            Some(relative) => match self.location.resolve(chars::string_of(&relative).as_str()) {
                Err(error) => Err(VortexError::new(error)),
                Ok(location) => Ok(location),
            },
        }
    }

    /// The fully qualified URL of `local_path` in this remote directory.
    pub fn uri(&self, local_path: &str, data_dir: &str) -> (out: VortexResult<String>)
        ensures
            match out {
                Ok(uri) => remote_url(self.text(), local_path@, data_dir@) is Ok && remote_url(
                    self.text(),
                    local_path@,
                    data_dir@,
                )->Ok_0.0 == uri@,
                Err(error) => remote_url(self.text(), local_path@, data_dir@) == Err::<
                    (Seq<char>, Seq<char>, bool),
                    Seq<char>,
                >(error@),
            },
    {
        match self.url_of(local_path, data_dir) {
            Ok(location) => Ok(location.text),
            Err(error) => Err(error),
        }
    }
}

} // verus!
