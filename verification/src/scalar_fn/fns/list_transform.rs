//! A function of every element of each list.

use vstd::prelude::*;

use crate::array::{Array, ArrayV};
use crate::dtype::{DType, DTypeV};
use crate::error::{VortexError, VortexResult};
use crate::expr::eval::transform_list;
use crate::expr::tree::{self, conjoin, list_element, with_element, ExprV, Expression};
use crate::scalar_fn::fns::simd::CpuFeatures;
use crate::scalar_fn::vtable::{Arity, ExecutionArgs, ReduceNode, ReduceNodeV, ScalarFnVTable};
use crate::text::join2;

verus! {

/// Options of [`ListTransform`], holding the lambda body.
#[derive(Clone, Debug)]
pub struct ListTransformOptions {
    /// The lambda body, evaluated with the list's elements as its scope: within it the root is the
    /// element rather than the enclosing row.
    pub body: Expression,
}

impl ListTransformOptions {
    /// How the options are written.
    pub fn to_text(&self) -> (out: String)
        ensures
            out@ == "-> "@ + self.body@.text(),
    {
        join2("-> ", self.body.to_sql().as_str())
    }
}

/// Applies an expression to every element of each list, keeping the lists.
///
/// Null lists stay null, empty lists stay empty, and null elements follow the body's own rules.
#[derive(Clone, Copy)]
pub struct ListTransform {
    /// What the processor offers to the body.
    pub features: CpuFeatures,
}

/// The transform of a column of lists by a body.
pub open spec fn transform_result(body: ExprV, input: ArrayV) -> Result<ArrayV, Seq<char>> {
    ExprV::ListTransform(Box::new(body), Box::new(ExprV::Root)).evaluated(input)
}

/// The type of a transform.
pub open spec fn transform_dtype(body: ExprV, dtype: DTypeV) -> Result<DTypeV, Seq<char>> {
    ExprV::ListTransform(Box::new(body), Box::new(ExprV::Root)).dtype(dtype)
}

/// What is said of another number of operands.
pub open spec fn one_list() -> Seq<char> {
    "a list transform takes one operand"@
}

impl ListTransform {
    /// The name of the operand.
    pub fn child_name(&self, index: usize) -> (out: &'static str)
        requires
            index == 0,
        ensures
            out@ == "input"@,
    {
        "input"
    }

    /// Whether the function looks at nulls themselves: it does not, a null list gives a null.
    pub fn is_null_sensitive(&self, options: &ListTransformOptions) -> (out: bool)
        ensures
            !out,
    {
        false
    }
}

impl ScalarFnVTable for ListTransform {
    type Options = ListTransformOptions;

    open spec fn id_text(&self) -> Seq<char> {
        "vortex.list.transform"@
    }

    open spec fn arity_of(&self, options: &ListTransformOptions) -> nat {
        1
    }

    open spec fn result_dtype(&self, options: &ListTransformOptions, dtypes: Seq<DTypeV>) -> Result<
        DTypeV,
        Seq<char>,
    > {
        if dtypes.len() != 1 {
            Err(one_list())
        } else {
            transform_dtype(options.body@, dtypes[0])
        }
    }

    open spec fn result(&self, options: &ListTransformOptions, args: Seq<ArrayV>, rows: nat) -> Result<
        ArrayV,
        Seq<char>,
    > {
        transform_result(options.body@, args[0])
    }

    open spec fn strict(&self, options: &ListTransformOptions) -> bool {
        false
    }

    open spec fn fallible(&self, options: &ListTransformOptions) -> bool {
        options.body@.fallible()
    }

    open spec fn result_validity(&self, options: &ListTransformOptions, args: Seq<ExprV>) -> Option<ExprV> {
        tree::conjunction(args)
    }

    open spec fn reduction(&self, options: &ListTransformOptions, node: ReduceNodeV) -> Result<
        Option<ReduceNodeV>,
        Seq<char>,
    > {
        Ok(None)
    }

    fn id(&self) -> (out: String) {
        String::from_str("vortex.list.transform")
    }

    fn arity(&self, options: &ListTransformOptions) -> (out: Arity) {
        Arity::Exact(1)
    }

    fn return_dtype(&self, options: &ListTransformOptions, dtypes: &Vec<DType>) -> (out:
        VortexResult<DType>) {
        if dtypes.len() != 1 {
            return Err(VortexError::of("a list transform takes one operand"));
        }
        assert(ExprV::Root.dtype(dtypes@[0]@) == Ok::<DTypeV, Seq<char>>(dtypes@[0]@));
        match list_element(&dtypes[0]) {
            Err(error) => Err(error),
            Ok(element) => match options.body.return_dtype(element) {
                Err(error) => Err(error),
                Ok(transformed) => Ok(with_element(&dtypes[0], transformed)),
            },
        }
    }

    fn execute(&self, options: &ListTransformOptions, args: &ExecutionArgs) -> (out: VortexResult<
        Array,
    >) {
        transform_list(options, &args.inputs[0], self.features)
    }

    fn is_strict(&self, options: &ListTransformOptions) -> (out: bool) {
        false
    }

    fn is_fallible(&self, options: &ListTransformOptions) -> (out: bool) {
        options.body.is_fallible()
    }

    fn validity(&self, options: &ListTransformOptions, args: Vec<Expression>) -> (out: Option<Expression>) {
        conjoin(args)
    }

    fn reduce(&self, options: &ListTransformOptions, node: &ReduceNode) -> (out: VortexResult<Option<ReduceNode>>) {
        Ok(None)
    }
}

} // verus!
