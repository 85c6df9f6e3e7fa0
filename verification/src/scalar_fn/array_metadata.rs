//! The persisted metadata of scalar-function columns whose children's types cannot be recovered
//! from the parent's.
//!
//! A column persists its children untyped, so whatever the parent's type loses (an extension type
//! behind a primitive output, or nullability collapsed into a union) is written next to them: the
//! encoded type of every child, and the options.

use vstd::prelude::*;

use crate::array::Array;
use crate::error::{VortexError, VortexResult};
use crate::proto::{self, read_bytes, read_key, skip_field, write_bytes_field};
use crate::scalar_fn::strict::StrictScalarFnVTable;
use crate::scalar_fn::vtable::{self, ExecutionArgs};
use crate::text::{self, decimal, join2, join3};

verus! {

/// The field of a child's encoded type.
pub const CHILD_TAG: u32 = 1;

/// The field of the options.
pub const OPTIONS_TAG: u32 = 2;

/// Byte strings as what they hold.
pub open spec fn blobs(children: Seq<Vec<u8>>) -> Seq<Seq<u8>> {
    Seq::new(children.len(), |i: int| children[i]@)
}

/// The fields of the children from `from` on, followed by that of the options.
pub open spec fn encoded(children: Seq<Seq<u8>>, options: Option<Seq<u8>>, from: int) -> Seq<u8>
    decreases children.len() - from,
{
    if 0 <= from < children.len() {
        proto::bytes_field(CHILD_TAG, children[from]) + encoded(children, options, from + 1)
    } else {
        match options {
            Some(bytes) => proto::bytes_field(OPTIONS_TAG, bytes) + Seq::empty(),
            None => Seq::empty(),
        }
    }
}

/// Every field of some metadata takes up room.
pub open spec fn fields_written(children: Seq<Seq<u8>>, options: Option<Seq<u8>>) -> bool {
    &&& forall|i: int|
        0 <= i < children.len() ==> proto::bytes_field(CHILD_TAG, #[trigger] children[i]).len() > 0
    &&& options matches Some(bytes) ==> proto::bytes_field(OPTIONS_TAG, bytes).len() > 0
}

/// Optional bytes as what they hold.
pub open spec fn maybe_bytes(bytes: Option<Vec<u8>>) -> Option<Seq<u8>> {
    match bytes {
        Some(bytes) => Some(bytes@),
        None => None,
    }
}

/// Encode the types of the children, and the options.
pub fn encode_children_and_options(children: &Vec<Vec<u8>>, options: &Option<Vec<u8>>) -> (out: Vec<
    u8,
>)
    ensures
        out@ == encoded(blobs(children@), maybe_bytes(*options), 0),
        fields_written(blobs(children@), maybe_bytes(*options)),
{
    let mut out: Vec<u8> = Vec::new();
    let ghost all = blobs(children@);
    let ghost opts = maybe_bytes(*options);
    let mut index: usize = 0;
    assert(out@ + encoded(all, opts, 0) =~= encoded(all, opts, 0));
    while index < children.len()
        invariant
            index <= children@.len(),
            all == blobs(children@),
            opts == maybe_bytes(*options),
            out@ + encoded(all, opts, index as int) == encoded(all, opts, 0),
            forall|i: int|
                0 <= i < index ==> proto::bytes_field(CHILD_TAG, #[trigger] all[i]).len() > 0,
        decreases children@.len() - index,
    {
        let ghost before = out@;
        write_bytes_field(CHILD_TAG, &children[index], &mut out);
        proof {
            let field = proto::bytes_field(CHILD_TAG, all[index as int]);
            assert(before + (field + encoded(all, opts, index + 1)) =~= (before + field) + encoded(
                all,
                opts,
                index + 1,
            ));
        }
        index = index + 1;
    }
    let ghost before = out@;
    match options {
        Some(bytes) => {
            write_bytes_field(OPTIONS_TAG, bytes, &mut out);
            assert(out@ =~= before + encoded(all, opts, index as int));
        },
        None => {
            assert(out@ =~= before + encoded(all, opts, index as int));
        },
    }
    out
}

/// What a field of the metadata leaves: the children and options read so far, and the bytes after.
pub open spec fn field_step(
    bytes: Seq<u8>,
    children: Seq<Seq<u8>>,
    options: Option<Seq<u8>>,
) -> Result<(Seq<Seq<u8>>, Option<Seq<u8>>, Seq<u8>), Seq<char>> {
    match proto::field_key(bytes) {
        Err(text) => Err(text),
        Ok((tag, wire, rest)) => if tag == CHILD_TAG {
            match proto::field_bytes(wire, rest) {
                Err(text) => Err(text),
                Ok((value, after)) => Ok((children.push(value), options, after)),
            }
        } else if tag == OPTIONS_TAG {
            match proto::field_bytes(wire, rest) {
                Err(text) => Err(text),
                Ok((value, after)) => Ok((children, Some(value), after)),
            }
        } else {
            match proto::field_skipped(wire, tag, rest) {
                Err(text) => Err(text),
                Ok(after) => Ok((children, options, after)),
            }
        },
    }
}

/// The children and options of the metadata from some field on. Later options replace earlier ones,
/// and unknown fields are skipped.
pub open spec fn parsed(
    bytes: Seq<u8>,
    children: Seq<Seq<u8>>,
    options: Option<Seq<u8>>,
) -> Result<(Seq<Seq<u8>>, Option<Seq<u8>>), Seq<char>>
    decreases bytes.len(),
{
    if bytes.len() == 0 {
        Ok((children, options))
    } else {
        match field_step(bytes, children, options) {
            Err(text) => Err(text),
            Ok((more, latest, after)) => if after.len() < bytes.len() {
                parsed(after, more, latest)
            } else {
                Err(Seq::empty())
            },
        }
    }
}

/// What is said of metadata that cannot be read.
pub open spec fn unreadable(text: Seq<char>) -> Seq<char> {
    "Failed to decode scalar function array metadata: "@ + text
}

/// What is said of metadata with another number of children.
pub open spec fn wrong_children(arity: nat) -> Seq<char> {
    "expected "@ + text::decimal_text(arity) + " serialized child dtypes"@
}

/// The children and options of some metadata, of which there must be exactly `arity` children.
pub open spec fn decoded(metadata: Seq<u8>, arity: nat) -> Result<
    (Seq<Seq<u8>>, Seq<u8>),
    Seq<char>,
> {
    match parsed(metadata, Seq::empty(), None) {
        Err(text) => Err(unreadable(text)),
        Ok((children, options)) => if children.len() != arity {
            Err(wrong_children(arity))
        } else {
            Ok(
                (
                    children,
                    match options {
                        Some(bytes) => bytes,
                        None => Seq::empty(),
                    },
                ),
            )
        },
    }
}

/// The decoded parts, or what is said where there are none.
pub open spec fn parts_outcome(result: VortexResult<(Vec<Vec<u8>>, Vec<u8>)>) -> Result<
    (Seq<Seq<u8>>, Seq<u8>),
    Seq<char>,
> {
    match result {
        Ok((children, options)) => Ok((blobs(children@), options@)),
        Err(error) => Err(error@),
    }
}

/// What remains of some encoded metadata once these children and options are read.
pub open spec fn reads_on(
    metadata: Seq<u8>,
    rest: Seq<u8>,
    children: Seq<Seq<u8>>,
    options: Option<Seq<u8>>,
) -> bool {
    forall|all: Seq<Seq<u8>>, opts: Option<Seq<u8>>|
        fields_written(all, opts) && metadata == #[trigger] encoded(all, opts, 0) ==> {
            &&& children.len() <= all.len()
            &&& children == all.take(children.len() as int)
            &&& match options {
                None => rest == encoded(all, opts, children.len() as int),
                Some(_) => children == all && opts == options && rest.len() == 0,
            }
        }
}

/// The tag of the field at `from`.
spec fn written_tag(children: Seq<Seq<u8>>, from: int) -> u32 {
    if from < children.len() {
        CHILD_TAG
    } else {
        OPTIONS_TAG
    }
}

/// The value of the field at `from`.
spec fn written_value(children: Seq<Seq<u8>>, options: Option<Seq<u8>>, from: int) -> Seq<u8> {
    if from < children.len() {
        children[from]
    } else {
        options->Some_0
    }
}

/// Metadata that is not at its end starts with a field.
proof fn next_field(
    children: Seq<Seq<u8>>,
    options: Option<Seq<u8>>,
    from: int,
    bytes: Seq<u8>,
)
    requires
        0 <= from <= children.len(),
        bytes == encoded(children, options, from),
        bytes.len() > 0,
    ensures
        from < children.len() || options is Some,
        bytes == proto::bytes_field(
            written_tag(children, from),
            written_value(children, options, from),
        ) + (if from < children.len() {
            encoded(children, options, from + 1)
        } else {
            Seq::empty()
        }),
{
}

/// Nothing is left only once every field was read.
proof fn empty_means_done(children: Seq<Seq<u8>>, options: Option<Seq<u8>>, from: int)
    requires
        0 <= from <= children.len(),
        fields_written(children, options),
    ensures
        encoded(children, options, from).len() == 0 ==> from == children.len() && options is None,
{
    if from < children.len() {
        assert(proto::bytes_field(CHILD_TAG, children[from]).len() > 0);
    }
}

/// Decode the encoded types of exactly `arity` children, and the options.
///
/// What was encoded is decoded: metadata that was written from `arity` children gives those children, and the
/// options that were written, or none as empty bytes.
pub fn decode_children_and_options(metadata: &[u8], arity: usize) -> (out: VortexResult<
    (Vec<Vec<u8>>, Vec<u8>),
>)
    ensures
        parts_outcome(out) == decoded(metadata@, arity as nat),
        forall|children: Seq<Seq<u8>>, options: Option<Seq<u8>>|
            children.len() == arity && fields_written(children, options) && metadata@
                == #[trigger] encoded(children, options, 0) ==> (out matches Ok(parts) && blobs(parts.0@) == children && parts.1@ == (match options {
                Some(bytes) => bytes,
                None => Seq::empty(),
            })),
{
    let mut rest: &[u8] = metadata;
    let mut children: Vec<Vec<u8>> = Vec::new();
    let mut options: Option<Vec<u8>> = None;
    assert(blobs(children@) =~= Seq::empty());
    proof {
        assert forall|all: Seq<Seq<u8>>, opts: Option<Seq<u8>>|
            fields_written(all, opts) && metadata@ == #[trigger] encoded(
                all,
                opts,
                0,
            ) implies blobs(children@) == all.take(
            0,
        ) by {
            assert(all.take(0) =~= Seq::empty());
        }
    }
    while rest.len() > 0
        invariant
            parsed(metadata@, Seq::empty(), None) == parsed(
                rest@,
                blobs(children@),
                maybe_bytes(options),
            ),
            reads_on(metadata@, rest@, blobs(children@), maybe_bytes(options)),
        decreases rest@.len(),
    {
        let ghost before = rest@;
        let ghost had = blobs(children@);
        let ghost opted = maybe_bytes(options);
        let (tag, wire, after_key) = match read_key(rest) {
            Ok(key) => key,
            Err(message) => {
                assert forall|all: Seq<Seq<u8>>, opts: Option<Seq<u8>>|
                    fields_written(all, opts) implies metadata@ != #[trigger] encoded(
                    all,
                    opts,
                    0,
                ) by {
                    if metadata@ == encoded(all, opts, 0) {
                        next_field(all, opts, had.len() as int, before);
                    }
                }
                return Err(
                    VortexError::new(
                        join2(
                            "Failed to decode scalar function array metadata: ",
                            message.as_str(),
                        ),
                    ),
                );
            },
        };
        assert forall|all: Seq<Seq<u8>>, opts: Option<Seq<u8>>|
            fields_written(all, opts) && metadata@ == #[trigger] encoded(
                all,
                opts,
                0,
            ) implies opted is None && tag == written_tag(all, had.len() as int) && wire
            == proto::LENGTH_DELIMITED && proto::field_bytes(wire, after_key@) == Ok::<
            (Seq<u8>, Seq<u8>),
            Seq<char>,
        >(
            (
                written_value(all, opts, had.len() as int),
                if had.len() < all.len() {
                    encoded(all, opts, had.len() as int + 1)
                } else {
                    Seq::empty()
                },
            ),
        ) by {
            next_field(all, opts, had.len() as int, before);
        }
        if tag == CHILD_TAG || tag == OPTIONS_TAG {
            match read_bytes(wire, after_key) {
                Ok((value, after)) => {
                    let ghost bytes = value@;
                    if tag == CHILD_TAG {
                        children.push(value);
                        assert(blobs(children@) =~= had.push(bytes));
                    } else {
                        options = Some(value);
                    }
                    rest = after;
                },
                Err(message) => {
                    return Err(
                        VortexError::new(
                            join2(
                                "Failed to decode scalar function array metadata: ",
                                message.as_str(),
                            ),
                        ),
                    );
                },
            }
        } else {
            match skip_field(wire, tag, after_key) {
                Ok(after) => {
                    rest = after;
                },
                Err(message) => {
                    return Err(
                        VortexError::new(
                            join2(
                                "Failed to decode scalar function array metadata: ",
                                message.as_str(),
                            ),
                        ),
                    );
                },
            }
        }
        proof {
            assert forall|all: Seq<Seq<u8>>, opts: Option<Seq<u8>>|
                fields_written(all, opts) && metadata@ == #[trigger] encoded(
                    all,
                    opts,
                    0,
                ) implies {
                &&& blobs(children@).len() <= all.len()
                &&& blobs(children@) == all.take(blobs(children@).len() as int)
                &&& match maybe_bytes(options) {
                    None => rest@ == encoded(all, opts, blobs(children@).len() as int),
                    Some(_) => blobs(children@) == all && opts == maybe_bytes(options)
                        && rest@.len() == 0,
                }
            } by {
                assert(opted is None);
                if had.len() < all.len() {
                    assert(all.take(had.len() as int + 1) =~= had.push(all[had.len() as int]));
                } else {
                    assert(all.take(all.len() as int) =~= all);
                }
            }
        }
    }
    proof {
        assert forall|all: Seq<Seq<u8>>, opts: Option<Seq<u8>>|
            fields_written(all, opts) && metadata@ == #[trigger] encoded(
                all,
                opts,
                0,
            ) implies blobs(children@) == all && maybe_bytes(options) == opts by {
            empty_means_done(all, opts, blobs(children@).len() as int);
            assert(all.take(all.len() as int) =~= all);
        }
    }
    if children.len() != arity {
        return Err(
            VortexError::new(
                join3(
                    "expected ",
                    decimal(arity as u64).as_str(),
                    " serialized child dtypes",
                ),
            ),
        );
    }
    let bytes = match options {
        Some(bytes) => bytes,
        None => Vec::new(),
    };
    assert(options is None ==> bytes@ =~= Seq::empty());
    Ok((children, bytes))
}

/// The parts that a restored column is built from.
pub struct ScalarFnArrayParts<V: StrictScalarFnVTable> {
    pub options: V::Options,
    pub children: Vec<Array>,
}

/// Rebuild a column from its restored options and children, checking the children against the
/// function's own rules on types.
pub fn decode_scalar_fn_array<V: StrictScalarFnVTable>(
    function: &V,
    options: V::Options,
    children: Vec<Array>,
) -> (out: VortexResult<ScalarFnArrayParts<V>>)
    ensures
        match function.element_dtype(
            &options,
            vtable::dtypes_of(vtable::arrays_model(children@)),
        ) {
            Ok(_) => out matches Ok(parts) && parts.options == options && parts.children
                == children,
            Err(text) => out matches Err(error) && error@ == text,
        },
{
    let args = ExecutionArgs { inputs: children, row_count: 0 };
    let dtypes = args.dtypes();
    match function.return_element_dtype(&options, &dtypes) {
        Ok(_) => Ok(ScalarFnArrayParts { options, children: args.inputs }),
        Err(error) => Err(error),
    }
}

} // verus!
