//! What every scalar function offers.

use vstd::prelude::*;

use crate::array::{Array, ArrayV};
use crate::dtype::{DType, DTypeV};
use crate::error::{VortexError, VortexResult};
use crate::expr::tree::{self, ExprV, Expression};
use crate::text::{self, decimal, join3};
use crate::value::{Cell, CellV};

verus! {

/// How many arguments a function takes.
#[derive(Clone, Copy, PartialEq, Eq, Structural, Debug, Hash)]
pub enum Arity {
    Exact(usize),
}

/// The inputs of one execution: columns of `row_count` rows each.
#[derive(Debug)]
pub struct ExecutionArgs {
    pub inputs: Vec<Array>,
    pub row_count: usize,
}

/// Columns as what they hold.
pub open spec fn arrays_model(arrays: Seq<Array>) -> Seq<ArrayV> {
    Seq::new(arrays.len(), |i: int| arrays[i]@)
}

/// Types as what they are.
pub open spec fn dtypes_model(dtypes: Seq<DType>) -> Seq<DTypeV> {
    Seq::new(dtypes.len(), |i: int| dtypes[i]@)
}

/// The types of columns.
pub open spec fn dtypes_of(args: Seq<ArrayV>) -> Seq<DTypeV> {
    Seq::new(args.len(), |i: int| args[i].dtype)
}

/// Every column has `rows` rows.
pub open spec fn aligned(args: Seq<ArrayV>, rows: nat) -> bool {
    forall|i: int| 0 <= i < args.len() ==> (#[trigger] args[i]).len() == rows && args[i].uniform()
}

/// Every input is valid at row `r`.
pub open spec fn valid_at(args: Seq<ArrayV>, r: int) -> bool {
    forall|i: int| 0 <= i < args.len() ==> (#[trigger] args[i]).cells[r].valid
}

/// Every input is valid at every row.
pub open spec fn all_valid(args: Seq<ArrayV>, rows: nat) -> bool {
    forall|r: int| 0 <= r < rows ==> #[trigger] valid_at(args, r)
}

/// The columns that a function is run on. The number of rows stands beside them, in `row_count`:
/// without columns nothing else tells it.
impl View for ExecutionArgs {
    type V = Seq<ArrayV>;

    open spec fn view(&self) -> Seq<ArrayV> {
        arrays_model(self.inputs@)
    }
}

impl ExecutionArgs {
    /// Every input has `row_count` rows.
    pub open spec fn well_formed(&self) -> bool {
        aligned(self@, self.row_count as nat)
    }

    pub fn new(inputs: Vec<Array>, row_count: usize) -> (out: Self)
        ensures
            out@ == arrays_model(inputs@),
            out.row_count == row_count,
    {
        ExecutionArgs { inputs, row_count }
    }

    /// The input at `index`.
    pub fn get(&self, index: usize) -> (out: VortexResult<Array>)
        ensures
            outcome(out) == (if index < self@.len() {
                Ok(self@[index as int])
            } else {
                Err(no_input(self@.len(), index as nat))
            }),
    {
        if index < self.inputs.len() {
            return Ok(self.inputs[index].clone());
        }
        let mut message = join3(
            "row-function input index must be less than ",
            decimal(self.inputs.len() as u64).as_str(),
            ", got ",
        );
        message.append(decimal(index as u64).as_str());
        Err(VortexError::new(message))
    }

    /// The number of inputs.
    pub fn num_inputs(&self) -> (out: usize)
        ensures
            out == self@.len(),
    {
        self.inputs.len()
    }

    /// The types of the inputs.
    pub fn dtypes(&self) -> (out: Vec<DType>)
        ensures
            dtypes_model(out@) == dtypes_of(self@),
    {
        let mut out: Vec<DType> = Vec::new();
        let mut index: usize = 0;
        while index < self.inputs.len()
            invariant
                index <= self.inputs@.len(),
                dtypes_model(out@) == dtypes_of(self@).take(index as int),
            decreases self.inputs@.len() - index,
        {
            let ghost before = out@;
            let dtype = self.inputs[index].dtype().clone();
            out.push(dtype);
            proof {
                assert(dtypes_model(out@) =~= dtypes_model(before).push(dtype@));
                assert(dtypes_of(self@).take(index + 1) =~= dtypes_of(self@).take(
                    index as int,
                ).push(dtypes_of(self@)[index as int]));
            }
            index = index + 1;
        }
        assert(dtypes_model(out@) =~= dtypes_of(self@));
        out
    }
}

/// What is said of an input that does not exist.
pub open spec fn no_input(inputs: nat, index: nat) -> Seq<char> {
    "row-function input index must be less than "@ + text::decimal_text(inputs) + ", got "@
        + text::decimal_text(index)
}

/// An outcome as the column or the message it carries.
pub open spec fn outcome(result: VortexResult<Array>) -> Result<ArrayV, Seq<char>> {
    match result {
        Ok(array) => Ok(array@),
        Err(error) => Err(error@),
    }
}

/// An optional outcome as the column or the message it carries.
pub open spec fn maybe_outcome(result: VortexResult<Option<Array>>) -> Result<
    Option<ArrayV>,
    Seq<char>,
> {
    match result {
        Ok(Some(array)) => Ok(Some(array@)),
        Ok(None) => Ok(None),
        Err(error) => Err(error@),
    }
}

/// A type outcome as the type or the message it carries.
pub open spec fn dtype_outcome(result: VortexResult<DType>) -> Result<DTypeV, Seq<char>> {
    match result {
        Ok(dtype) => Ok(dtype@),
        Err(error) => Err(error@),
    }
}

/// A check's outcome as the message it carries.
pub open spec fn unit_outcome(result: VortexResult<()>) -> Result<(), Seq<char>> {
    match result {
        Ok(()) => Ok(()),
        Err(error) => Err(error@),
    }
}

/// A node in a tree of scalar functions, as a reduction rule sees it.
#[derive(Debug)]
pub struct ReduceNode {
    /// The function that this node applies, `None` for a column.
    pub function: Option<String>,
    /// The type of what this node gives.
    pub dtype: DType,
    /// What this node gives, where it is the same in every row.
    pub constant: Option<Cell>,
    pub children: Vec<ReduceNode>,
}

/// The meaning of a [`ReduceNode`].
pub struct ReduceNodeV {
    pub function: Option<Seq<char>>,
    pub dtype: DTypeV,
    pub constant: Option<CellV>,
    pub children: Seq<ReduceNodeV>,
}

/// Children as what they are.
pub open spec fn children_model(children: Seq<ReduceNode>) -> Seq<ReduceNodeV>
    decreases children,
{
    Seq::new(
        children.len(),
        |i: int|
            if 0 <= i < children.len() {
                children[i].model()
            } else {
                arbitrary()
            },
    )
}

impl ReduceNode {
    /// What this tree is.
    pub open spec fn model(&self) -> ReduceNodeV
        decreases self,
    {
        ReduceNodeV {
            function: match self.function {
                Some(id) => Some(id@),
                None => None,
            },
            dtype: self.dtype@,
            constant: match self.constant {
                Some(cell) => Some(cell@),
                None => None,
            },
            children: children_model(self.children@),
        }
    }

    /// A node that gives a value in every row.
    pub fn literal(dtype: DType, cell: Cell) -> (out: Self)
        ensures
            out@ == literal_node(dtype@, cell@),
    {
        let out = ReduceNode {
            function: Some(String::from_str("vortex.literal")),
            dtype,
            constant: Some(cell),
            children: Vec::new(),
        };
        assert(out@.children =~= Seq::<ReduceNodeV>::empty());
        out
    }
}

/// A node that gives a value in every row.
pub open spec fn literal_node(dtype: DTypeV, cell: CellV) -> ReduceNodeV {
    ReduceNodeV {
        function: Some("vortex.literal"@),
        dtype,
        constant: Some(cell),
        children: Seq::empty(),
    }
}

impl Clone for ReduceNode {
    fn clone(&self) -> (out: Self)
        ensures
            out@ == self@,
        decreases self,
    {
        let mut children: Vec<ReduceNode> = Vec::new();
        let total: usize = self.children.len();
        let mut index: usize = 0;
        while index < total
            invariant
                index <= total == self.children@.len(),
                children@.len() == index,
                forall|i: int| 0 <= i < index ==> #[trigger] children@[i]@ == self.children@[i]@,
            decreases total - index,
        {
            children.push(self.children[index].clone());
            index = index + 1;
        }
        let out = ReduceNode {
            function: match &self.function {
                Some(id) => Some(id.clone()),
                None => None,
            },
            dtype: self.dtype.clone(),
            constant: match &self.constant {
                Some(cell) => Some(cell.clone()),
                None => None,
            },
            children,
        };
        proof {
            reveal_with_fuel(ReduceNode::model, 2);
            reveal_with_fuel(children_model, 2);
            assert forall|i: int| 0 <= i < total implies out@.children[i]
                == self@.children[i] by {
                assert(children@[i]@ == self.children@[i]@);
            }
            assert(out@.children =~= self@.children);
        }
        out
    }
}

impl View for ReduceNode {
    type V = ReduceNodeV;

    open spec fn view(&self) -> ReduceNodeV {
        self.model()
    }
}

/// A tree's children are its children's meanings.
pub proof fn child_models(node: ReduceNode)
    ensures
        node@.children.len() == node.children@.len(),
        forall|i: int|
            0 <= i < node.children@.len() ==> #[trigger] node@.children[i] == node.children@[i]@,
{
    reveal_with_fuel(ReduceNode::model, 2);
    reveal_with_fuel(children_model, 2);
}

/// A reduction's outcome as the tree or the message it carries.
pub open spec fn reduce_outcome(result: VortexResult<Option<ReduceNode>>) -> Result<
    Option<ReduceNodeV>,
    Seq<char>,
> {
    match result {
        Ok(Some(node)) => Ok(Some(node@)),
        Ok(None) => Ok(None),
        Err(error) => Err(error@),
    }
}

/// An optional expression as what it is.
pub open spec fn optional_model(expression: Option<Expression>) -> Option<ExprV> {
    match expression {
        Some(expression) => Some(expression@),
        None => None,
    }
}

/// A scalar function.
pub trait ScalarFnVTable {
    type Options;

    /// The name that a function is registered under.
    spec fn id_text(&self) -> Seq<char>;

    /// The number of arguments.
    spec fn arity_of(&self, options: &Self::Options) -> nat;

    /// The type of the result, or why there is none.
    spec fn result_dtype(&self, options: &Self::Options, dtypes: Seq<DTypeV>) -> Result<
        DTypeV,
        Seq<char>,
    >;

    /// The result, or why there is none.
    spec fn result(&self, options: &Self::Options, args: Seq<ArrayV>, rows: nat) -> Result<
        ArrayV,
        Seq<char>,
    >;

    /// A null in any input row makes the output row null.
    spec fn strict(&self, options: &Self::Options) -> bool;

    /// Whether legal values can make the function fail.
    spec fn fallible(&self, options: &Self::Options) -> bool;

    /// The expression for the validity of the result, given those for the arguments; `None` where
    /// it is read off the result.
    spec fn result_validity(&self, options: &Self::Options, args: Seq<ExprV>) -> Option<ExprV>;

    /// A simpler tree that means the same, `None` where there is none.
    spec fn reduction(&self, options: &Self::Options, node: ReduceNodeV) -> Result<
        Option<ReduceNodeV>,
        Seq<char>,
    >;

    fn id(&self) -> (out: String)
        ensures
            out@ == self.id_text(),
    ;

    fn arity(&self, options: &Self::Options) -> (out: Arity)
        ensures
            out matches Arity::Exact(n) && n == self.arity_of(options),
    ;

    fn return_dtype(&self, options: &Self::Options, dtypes: &Vec<DType>) -> (out: VortexResult<
        DType,
    >)
        ensures
            dtype_outcome(out) == self.result_dtype(options, dtypes_model(dtypes@)),
    ;

    fn execute(&self, options: &Self::Options, args: &ExecutionArgs) -> (out: VortexResult<Array>)
        requires
            args.well_formed(),
            args@.len() == self.arity_of(options),
        ensures
            outcome(out) == self.result(options, args@, args.row_count as nat),
    ;

    fn is_strict(&self, options: &Self::Options) -> (out: bool)
        ensures
            out == self.strict(options),
    ;

    fn is_fallible(&self, options: &Self::Options) -> (out: bool)
        ensures
            out == self.fallible(options),
    ;

    fn validity(&self, options: &Self::Options, args: Vec<Expression>) -> (out: Option<Expression>)
        requires
            args@.len() == self.arity_of(options),
        ensures
            optional_model(out) == self.result_validity(options, tree::expressions_model(args@)),
    ;

    fn reduce(&self, options: &Self::Options, node: &ReduceNode) -> (out: VortexResult<
        Option<ReduceNode>,
    >)
        requires
            node.children@.len() == self.arity_of(options),
        ensures
            reduce_outcome(out) == self.reduction(options, node@),
    ;
}

} // verus!
