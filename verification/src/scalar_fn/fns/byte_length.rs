//! The byte length of strings.

use vstd::prelude::*;

use crate::array::{Array, ArrayV};
use crate::dtype::PType;
use crate::error::{VortexError, VortexResult};
use crate::scalar_fn::options::EmptyOptions;
use crate::scalar_fn::row::bytes::{self, BytesLen};
use crate::scalar_fn::row::element::{self, ApplyResult, InputElement, OutputElement};
use crate::scalar_fn::row::row_fn::RowFn;
use crate::scalar_fn::row::row_laws;
use crate::scalar_fn::row::tuple::ElementTuple;
use crate::scalar_fn::strict;
use crate::scalar_fn::strict_laws;
use crate::scalar_fn::vtable::{self, ExecutionArgs};
use crate::value::ValueV;

verus! {

/// Byte length of each element of a `Utf8` or `Binary` column.
///
/// The length is read rather than the bytes, so rows behind nulls are computed too and masked
/// afterwards.
#[derive(Clone, Copy, Default)]
pub struct ByteLength;

impl ByteLength {
    /// The name of the operand.
    pub fn child_name(&self, index: usize) -> (out: &'static str)
        requires
            index == 0,
        ensures
            out@ == "input"@,
    {
        "input"
    }
}

impl RowFn for ByteLength {
    type Options = EmptyOptions;

    type Args = (BytesLen,);

    type Ret = u64;

    type State = ();

    open spec fn row_id(&self) -> Seq<char> {
        "vortex.byte_length"@
    }

    open spec fn eval(&self, options: &EmptyOptions, row: (nat,)) -> Result<ValueV, Seq<char>> {
        Ok(ValueV::Primitive(PType::U64, row.0 as int))
    }

    open spec fn prepared(
        &self,
        options: &EmptyOptions,
        constants: (Option<nat>,),
        state: (),
    ) -> bool {
        true
    }

    open spec fn reduced(&self, options: &EmptyOptions, args: Seq<ArrayV>) -> Result<
        Option<ArrayV>,
        Seq<char>,
    > {
        Ok(None)
    }

    proof fn eval_is_total(&self, options: &EmptyOptions, row: (nat,)) {
    }

    fn id(&self) -> (out: String) {
        String::from_str("vortex.byte_length")
    }

    fn prepare<'a>(&self, options: &EmptyOptions, constants: (Option<usize>,)) -> (state: ()) {
    }

    fn apply<'a>(&self, options: &EmptyOptions, state: &(), row: (usize,)) -> (out: u64) {
        assert(<BytesLen as InputElement>::meaning(row.0) == row.0 as nat);
        assert(<(BytesLen,) as ElementTuple>::meaning(row) == (row.0 as nat,));
        let out: u64 = row.0 as u64;
        assert(out.payload() == ValueV::Primitive(PType::U64, row.0 as int));
        assert(out.applied() == Ok::<ValueV, Seq<char>>(out.payload()));
        out
    }

    fn reduce_encoded(&self, options: &EmptyOptions, args: &ExecutionArgs) -> (out: VortexResult<
        Option<Array>,
    >) {
        Ok(None)
    }
}

/// The byte lengths of a column.
pub open spec fn byte_length_result(input: ArrayV) -> Result<ArrayV, Seq<char>> {
    strict::lifted(&ByteLength, &EmptyOptions, seq![input], input.len())
}

/// Wherever byte lengths are computed, a valid row shows its length, whether or not its bytes
/// resolve, and a null row is null.
pub proof fn byte_length_shows_lengths(input: ArrayV, r: int)
    requires
        input.uniform(),
        0 <= r < input.len(),
        byte_length_result(input) is Ok,
    ensures
        byte_length_result(input)->Ok_0.len() == input.len(),
        byte_length_result(input)->Ok_0.row(r) == (if input.cells[r].valid {
            Some(ValueV::Primitive(PType::U64, bytes::length_of(input.cells[r].value) as int))
        } else {
            None
        }),
{
    let args = seq![input];
    let function = &ByteLength;
    let options = &EmptyOptions;
    assert(vtable::aligned(args, input.len()));
    assert forall|payloads: Seq<ValueV>| #[trigger] <u64 as OutputElement>::built(payloads)
        == element::valid_column(<u64 as OutputElement>::element_type(), payloads) by {
    }
    assert(row_laws::plain_output::<u64>());
    assert(row_laws::never_reduces(function, options));
    row_laws::row_functions_compute_each_valid_row(function, options, args, input.len(), r);
    assert(<(BytesLen,)>::row_at(args, r) == (bytes::length_of(input.cells[r].value),));
    assert(strict_laws::null_at(args, r) == !input.cells[r].valid) by {
        if !input.cells[r].valid {
            assert(!args[0].cells[r].valid);
        }
        if strict_laws::null_at(args, r) {
            let i = choose|i: int| 0 <= i < args.len() && !(#[trigger] args[i]).cells[r].valid;
            assert(i == 0);
        }
    }
}

/// Where byte lengths are computed, their column has as many rows as its input.
pub proof fn byte_length_keeps_rows(input: ArrayV)
    requires
        input.uniform(),
    ensures
        byte_length_result(input) matches Ok(out) ==> out.len() == input.len() && out.uniform(),
{
    if byte_length_result(input) is Ok {
        let args = seq![input];
        row_laws::kernel_keeps_rows::<ByteLength>(&ByteLength, &EmptyOptions, args, input.len());
        row_laws::kernel_keeps_rows::<ByteLength>(
            &ByteLength,
            &EmptyOptions,
            strict::first_rows(args),
            1,
        );
    }
}

/// A column encoding that knows the byte lengths of its rows.
pub trait ByteLengthKernel {
    /// The lengths that the encoding holds; `None` where it has no shorter way to them.
    spec fn known_lengths(array: ArrayV) -> Result<Option<ArrayV>, Seq<char>>;

    fn byte_length(array: &Array) -> (out: VortexResult<Option<Array>>)
        ensures
            vtable::maybe_outcome(out) == Self::known_lengths(array@),
    ;
}

/// Lets an encoding answer for its parent [`ByteLength`].
#[derive(Default, Debug)]
pub struct ByteLengthExecuteAdaptor<V>(pub V);

/// What is said of a child that is not the operand.
pub open spec fn not_the_operand() -> Seq<char> {
    "child_idx == 0"@
}

impl<V: ByteLengthKernel> ByteLengthExecuteAdaptor<V> {
    /// The lengths of the operand, from its encoding.
    pub fn execute_parent(&self, array: &Array, child_idx: usize) -> (out: VortexResult<
        Option<Array>,
    >)
        ensures
            vtable::maybe_outcome(out) == (if child_idx != 0 {
                Err(not_the_operand())
            } else {
                V::known_lengths(array@)
            }),
    {
        if child_idx != 0 {
            return Err(VortexError::of("child_idx == 0"));
        }
        V::byte_length(array)
    }
}

} // verus!
