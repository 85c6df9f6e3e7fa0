//! A fixed-signature shorthand for row functions.

use vstd::prelude::*;

use crate::array::{Array, ArrayV};
use crate::error::VortexResult;
use crate::scalar_fn::row::element::OutputElement;
use crate::scalar_fn::row::row_fn::RowFn;
use crate::scalar_fn::row::tuple::ElementTuple;
use crate::scalar_fn::vtable::ExecutionArgs;
use crate::value::ValueV;

verus! {

/// A scalar function computed one row at a time, at one fixed row signature, from the row alone.
///
/// Implementing this implements [`RowFn`]. A type cannot implement both.
pub trait TypedRowFn {
    type Options;

    /// The input elements of a row.
    type Args: ElementTuple;

    /// The owned value that one row produces.
    type Out: OutputElement;

    spec fn typed_id(&self) -> Seq<char>;

    /// The row computation.
    spec fn payload_of(options: &Self::Options, row: <Self::Args as ElementTuple>::V) -> ValueV;

    /// The name of the function.
    fn id(&self) -> (out: String)
        ensures
            out@ == self.typed_id(),
    ;

    /// Compute one row. It is total: rows behind nulls may be computed too.
    fn apply<'a>(options: &Self::Options, row: <Self::Args as ElementTuple>::Elems<'a>) -> (out:
        Self::Out)
        ensures
            out.payload() == Self::payload_of(options, Self::Args::meaning(row)),
    ;
}

impl<F: TypedRowFn> RowFn for F {
    type Options = F::Options;

    type Args = F::Args;

    type Ret = F::Out;

    type State = ();

    open spec fn row_id(&self) -> Seq<char> {
        self.typed_id()
    }

    open spec fn eval(
        &self,
        options: &F::Options,
        row: <F::Args as ElementTuple>::V,
    ) -> Result<ValueV, Seq<char>> {
        Ok(F::payload_of(options, row))
    }

    open spec fn prepared(
        &self,
        options: &F::Options,
        constants: <F::Args as ElementTuple>::ConstV,
        state: (),
    ) -> bool {
        true
    }

    open spec fn reduced(&self, options: &F::Options, args: Seq<ArrayV>) -> Result<
        Option<ArrayV>,
        Seq<char>,
    > {
        Ok(None)
    }

    proof fn eval_is_total(&self, options: &F::Options, row: <F::Args as ElementTuple>::V) {
    }

    fn id(&self) -> (out: String) {
        TypedRowFn::id(self)
    }

    fn prepare<'a>(
        &self,
        options: &F::Options,
        constants: <F::Args as ElementTuple>::ConstElems<'a>,
    ) -> (state: ()) {
    }

    fn apply<'a>(
        &self,
        options: &F::Options,
        state: &(),
        row: <F::Args as ElementTuple>::Elems<'a>,
    ) -> (out: F::Out) {
        <F as TypedRowFn>::apply(options, row)
    }

    fn reduce_encoded(&self, options: &F::Options, args: &ExecutionArgs) -> (out: VortexResult<
        Option<Array>,
    >) {
        Ok(None)
    }
}

} // verus!
