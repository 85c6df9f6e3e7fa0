//! Expressions, how they are written and what type they have.

use std::sync::Arc;

use vstd::prelude::*;

use crate::dtype::{self, DType, DTypeV, Nullability};
use crate::error::{VortexError, VortexResult};
use crate::scalar_fn::fns::binary::{self, operator_dtype};
use crate::scalar_fn::fns::byte_length::ByteLength;
use crate::scalar_fn::fns::list_min_max::{self, list_extreme_return_dtype, NumericalAggregateOpts};
use crate::scalar_fn::fns::list_transform::ListTransformOptions;
use crate::scalar_fn::fns::not::Not;
use crate::scalar_fn::fns::operators::Operator;
use crate::scalar_fn::options::EmptyOptions;
use crate::scalar_fn::row::primitive::{self, wrong_column_error};
use crate::scalar_fn::strict::{self, StrictScalarFnVTable};
use crate::scalar_fn::vtable::{self, ScalarFnVTable};
use crate::text::{self, decimal, join2, join3, same_text, signed};
use crate::value::{self, Cell, CellV, Value, ValueV};

verus! {

/// An expression over the columns of a scope.
#[derive(Debug)]
pub enum Expression {
    /// The scope itself.
    Root,
    /// A value of a type.
    Literal(DType, Cell),
    /// A field of a struct.
    GetItem(String, Arc<Expression>),
    /// A binary operator.
    Binary(Operator, Arc<Expression>, Arc<Expression>),
    /// Logical negation.
    Not(Arc<Expression>),
    /// The byte length of strings.
    ByteLength(Arc<Expression>),
    /// The least element of each list, or the greatest if the flag is set.
    ListExtreme(bool, NumericalAggregateOpts, Arc<Expression>),
    /// A function of every element of each list.
    ListTransform(Arc<ListTransformOptions>, Arc<Expression>),
    /// Whether a row is valid.
    IsNotNull(Arc<Expression>),
}

/// The meaning of an [`Expression`].
pub enum ExprV {
    Root,
    Literal(DTypeV, CellV),
    GetItem(Seq<char>, Box<ExprV>),
    Binary(Operator, Box<ExprV>, Box<ExprV>),
    Not(Box<ExprV>),
    ByteLength(Box<ExprV>),
    ListExtreme(bool, NumericalAggregateOpts, Box<ExprV>),
    ListTransform(Box<ExprV>, Box<ExprV>),
    IsNotNull(Box<ExprV>),
}

impl Expression {
    /// What this expression is.
    pub open spec fn model(&self) -> ExprV
        decreases self,
    {
        match self {
            Expression::Root => ExprV::Root,
            Expression::Literal(dtype, cell) => ExprV::Literal(dtype@, cell@),
            Expression::GetItem(name, child) => ExprV::GetItem(name@, Box::new(child.model())),
            Expression::Binary(op, lhs, rhs) => ExprV::Binary(
                *op,
                Box::new(lhs.model()),
                Box::new(rhs.model()),
            ),
            Expression::Not(child) => ExprV::Not(Box::new(child.model())),
            Expression::ByteLength(child) => ExprV::ByteLength(Box::new(child.model())),
            Expression::ListExtreme(greatest, options, child) => ExprV::ListExtreme(
                *greatest,
                *options,
                Box::new(child.model()),
            ),
            Expression::ListTransform(options, child) => ExprV::ListTransform(
                Box::new(options.body.model()),
                Box::new(child.model()),
            ),
            Expression::IsNotNull(child) => ExprV::IsNotNull(Box::new(child.model())),
        }
    }
}

impl View for Expression {
    type V = ExprV;

    open spec fn view(&self) -> ExprV {
        self.model()
    }
}

impl Clone for Expression {
    fn clone(&self) -> (out: Self)
        ensures
            out@ == self@,
    {
        match self {
            Expression::Root => Expression::Root,
            Expression::Literal(dtype, cell) => Expression::Literal(dtype.clone(), cell.clone()),
            Expression::GetItem(name, child) => Expression::GetItem(
                name.clone(),
                Arc::clone(child),
            ),
            Expression::Binary(op, lhs, rhs) => Expression::Binary(
                *op,
                Arc::clone(lhs),
                Arc::clone(rhs),
            ),
            Expression::Not(child) => Expression::Not(Arc::clone(child)),
            Expression::ByteLength(child) => Expression::ByteLength(Arc::clone(child)),
            Expression::ListExtreme(greatest, options, child) => Expression::ListExtreme(
                *greatest,
                *options,
                Arc::clone(child),
            ),
            Expression::ListTransform(options, child) => Expression::ListTransform(
                Arc::clone(options),
                Arc::clone(child),
            ),
            Expression::IsNotNull(child) => Expression::IsNotNull(Arc::clone(child)),
        }
    }
}

/// The scope.
pub fn root() -> (out: Expression)
    ensures
        out@ == ExprV::Root,
{
    Expression::Root
}

/// A value of a type.
pub fn lit(dtype: DType, cell: Cell) -> (out: Expression)
    ensures
        out@ == ExprV::Literal(dtype@, cell@),
{
    Expression::Literal(dtype, cell)
}

/// A field of a struct.
pub fn get_item(name: &str, child: Expression) -> (out: Expression)
    ensures
        out@ == ExprV::GetItem(name@, Box::new(child@)),
{
    Expression::GetItem(String::from_str(name), Arc::new(child))
}

/// A field of the scope.
pub fn col(name: &str) -> (out: Expression)
    ensures
        out@ == ExprV::GetItem(name@, Box::new(ExprV::Root)),
{
    get_item(name, root())
}

/// A binary operator.
pub fn binary(op: Operator, lhs: Expression, rhs: Expression) -> (out: Expression)
    ensures
        out@ == ExprV::Binary(op, Box::new(lhs@), Box::new(rhs@)),
{
    Expression::Binary(op, Arc::new(lhs), Arc::new(rhs))
}

/// Logical negation.
pub fn not(child: Expression) -> (out: Expression)
    ensures
        out@ == ExprV::Not(Box::new(child@)),
{
    Expression::Not(Arc::new(child))
}

/// The byte length of strings.
pub fn byte_length(child: Expression) -> (out: Expression)
    ensures
        out@ == ExprV::ByteLength(Box::new(child@)),
{
    Expression::ByteLength(Arc::new(child))
}

/// The least element of each list.
pub fn list_min(child: Expression, options: NumericalAggregateOpts) -> (out: Expression)
    ensures
        out@ == ExprV::ListExtreme(false, options, Box::new(child@)),
{
    Expression::ListExtreme(false, options, Arc::new(child))
}

/// The greatest element of each list.
pub fn list_max(child: Expression, options: NumericalAggregateOpts) -> (out: Expression)
    ensures
        out@ == ExprV::ListExtreme(true, options, Box::new(child@)),
{
    Expression::ListExtreme(true, options, Arc::new(child))
}

/// A function of every element of each list.
pub fn list_transform(child: Expression, body: Expression) -> (out: Expression)
    ensures
        out@ == ExprV::ListTransform(Box::new(body@), Box::new(child@)),
{
    Expression::ListTransform(Arc::new(ListTransformOptions { body }), Arc::new(child))
}

/// Whether a row is valid.
pub fn is_not_null(child: Expression) -> (out: Expression)
    ensures
        out@ == ExprV::IsNotNull(Box::new(child@)),
{
    Expression::IsNotNull(Arc::new(child))
}

/// The first `n` arguments as written, separated by commas.
pub open spec fn args_text(args: Seq<ExprV>, n: nat) -> Seq<char>
    decreases n,
{
    if n == 0 {
        Seq::empty()
    } else if n == 1 {
        args[0].text()
    } else {
        args_text(args, (n - 1) as nat) + ", "@ + args[n - 1].text()
    }
}

/// A function's call as written.
pub open spec fn call_text(id: Seq<char>, args: Seq<ExprV>) -> Seq<char> {
    id + "("@ + args_text(args, args.len()) + ")"@
}

/// Write a function's call.
pub fn call_to_sql<V: ScalarFnVTable>(function: &V, args: &Vec<Expression>) -> (out: String)
    ensures
        out@ == call_text(function.id_text(), expressions_model(args@)),
{
    let ghost model = expressions_model(args@);
    let mut list = String::new();
    let mut index: usize = 0;
    while index < args.len()
        invariant
            index <= args@.len(),
            model == expressions_model(args@),
            list@ == args_text(model, index as nat),
        decreases args@.len() - index,
    {
        let ghost before = list@;
        if index > 0 {
            list.append(", ");
        }
        list.append(args[index].to_sql().as_str());
        proof {
            if index == 0 {
                assert(list@ =~= model[0].text());
            } else {
                assert(list@ == before + ", "@ + model[index as int].text());
            }
        }
        index = index + 1;
    }
    let mut out = join3(function.id().as_str(), "(", list.as_str());
    out.append(")");
    out
}

/// Expressions as what they are.
pub open spec fn expressions_model(expressions: Seq<Expression>) -> Seq<ExprV> {
    Seq::new(expressions.len(), |i: int| expressions[i]@)
}

/// The conjunction of expressions from left to right, `None` if there are none.
pub open spec fn conjunction(terms: Seq<ExprV>) -> Option<ExprV>
    decreases terms.len(),
{
    if terms.len() == 0 {
        None
    } else {
        match conjunction(terms.drop_last()) {
            None => Some(terms.last()),
            Some(before) => Some(
                ExprV::Binary(Operator::And, Box::new(before), Box::new(terms.last())),
            ),
        }
    }
}

/// The conjunction of expressions from left to right.
pub fn conjoin(terms: Vec<Expression>) -> (out: Option<Expression>)
    ensures
        vtable::optional_model(out) == conjunction(expressions_model(terms@)),
{
    let ghost all = expressions_model(terms@);
    let mut out: Option<Expression> = None;
    let mut index: usize = 0;
    while index < terms.len()
        invariant
            index <= terms@.len(),
            all == expressions_model(terms@),
            vtable::optional_model(out) == conjunction(all.take(index as int)),
        decreases terms@.len() - index,
    {
        proof {
            assert(all.take(index + 1).drop_last() =~= all.take(index as int));
            assert(all.take(index + 1).last() == terms@[index as int]@);
        }
        let term = terms[index].clone();
        out = match out {
            None => Some(term),
            Some(before) => Some(binary(Operator::And, before, term)),
        };
        index = index + 1;
    }
    assert(all.take(index as int) =~= all);
    out
}

/// How a literal is written: primitives with their type, floats by their bit pattern, and other
/// payloads by their kind and size.
pub open spec fn literal_text(cell: CellV) -> Seq<char> {
    if !cell.valid {
        "null"@
    } else {
        match cell.value {
            ValueV::Null => "null"@,
            ValueV::Bool(b) => if b {
                "true"@
            } else {
                "false"@
            },
            ValueV::Primitive(ptype, payload) => text::signed_text(payload) + ptype.text(),
            ValueV::Decimal(_) => "decimal"@,
            ValueV::Bytes(bytes) => "bytes("@ + text::decimal_text(bytes.len()) + ")"@,
            ValueV::UnresolvedBytes(len) => "bytes("@ + text::decimal_text(len) + ")"@,
            ValueV::List(items) => "list("@ + text::decimal_text(items.len()) + ")"@,
            ValueV::Struct(items) => "struct("@ + text::decimal_text(items.len()) + ")"@,
        }
    }
}

fn unsigned_literal(payload: u64, suffix: &str) -> (out: String)
    ensures
        out@ == text::signed_text(payload as int) + suffix@,
{
    join2(decimal(payload).as_str(), suffix)
}

fn signed_literal(payload: i64, suffix: &str) -> (out: String)
    ensures
        out@ == text::signed_text(payload as int) + suffix@,
{
    join2(signed(payload).as_str(), suffix)
}

fn sized(prefix: &str, size: usize) -> (out: String)
    ensures
        out@ == prefix@ + text::decimal_text(size as nat) + ")"@,
{
    join3(prefix, decimal(size as u64).as_str(), ")")
}

/// How a literal is written.
pub fn literal_to_text(cell: &Cell) -> (out: String)
    ensures
        out@ == literal_text(cell@),
{
    if !cell.valid {
        return String::from_str("null");
    }
    match &cell.value {
        Value::Null => String::from_str("null"),
        Value::Bool(b) => if *b {
            String::from_str("true")
        } else {
            String::from_str("false")
        },
        Value::U8(v) => unsigned_literal(*v as u64, "u8"),
        Value::U16(v) => unsigned_literal(*v as u64, "u16"),
        Value::U32(v) => unsigned_literal(*v as u64, "u32"),
        Value::U64(v) => unsigned_literal(*v, "u64"),
        Value::I8(v) => signed_literal(*v as i64, "i8"),
        Value::I16(v) => signed_literal(*v as i64, "i16"),
        Value::I32(v) => signed_literal(*v as i64, "i32"),
        Value::I64(v) => signed_literal(*v, "i64"),
        Value::F16(v) => unsigned_literal(v.bits as u64, "f16"),
        Value::F32(v) => unsigned_literal(v.bits as u64, "f32"),
        Value::F64(v) => unsigned_literal(v.bits, "f64"),
        Value::Decimal(_) => String::from_str("decimal"),
        Value::Bytes(v) => sized("bytes(", v.len()),
        Value::UnresolvedBytes(len) => join3("bytes(", decimal(*len as u64).as_str(), ")"),
        Value::List(items) => sized("list(", items.len()),
        Value::Struct(items) => sized("struct(", items.len()),
    }
}

impl ExprV {
    /// How the expression is written.
    pub open spec fn text(self) -> Seq<char>
        decreases self,
    {
        match self {
            ExprV::Root => "$"@,
            ExprV::Literal(_, cell) => literal_text(cell),
            ExprV::GetItem(name, child) => child.text() + "."@ + name,
            ExprV::Binary(op, lhs, rhs) => "("@ + lhs.text() + " "@ + op.symbol() + " "@
                + rhs.text() + ")"@,
            ExprV::Not(child) => "vortex.not("@ + child.text() + ")"@,
            ExprV::ByteLength(child) => "vortex.byte_length("@ + child.text() + ")"@,
            ExprV::ListExtreme(greatest, options, child) => (if greatest {
                "vortex.list.max("@
            } else {
                "vortex.list.min("@
            }) + child.text() + (if options.skip_nans {
                ")"@
            } else {
                ", opts=skip_nans=false)"@
            }),
            ExprV::ListTransform(body, child) => "vortex.list.transform("@ + child.text()
                + ", -> "@ + body.text() + ")"@,
            ExprV::IsNotNull(child) => "vortex.is_not_null("@ + child.text() + ")"@,
        }
    }
}

impl Expression {
    /// How the expression is written.
    pub fn to_sql(&self) -> (out: String)
        ensures
            out@ == self@.text(),
        decreases self,
    {
        match self {
            Expression::Root => String::from_str("$"),
            Expression::Literal(_, cell) => literal_to_text(cell),
            Expression::GetItem(name, child) => join3(child.to_sql().as_str(), ".", name.as_str()),
            Expression::Binary(op, lhs, rhs) => {
                let mut out = join3("(", lhs.to_sql().as_str(), " ");
                out.append(op.text());
                out.append(" ");
                out.append(rhs.to_sql().as_str());
                out.append(")");
                out
            },
            Expression::Not(child) => join3("vortex.not(", child.to_sql().as_str(), ")"),
            Expression::ByteLength(child) => join3(
                "vortex.byte_length(",
                child.to_sql().as_str(),
                ")",
            ),
            Expression::ListExtreme(greatest, options, child) => {
                let prefix = if *greatest {
                    "vortex.list.max("
                } else {
                    "vortex.list.min("
                };
                let suffix = if options.skip_nans {
                    ")"
                } else {
                    ", opts=skip_nans=false)"
                };
                join3(prefix, child.to_sql().as_str(), suffix)
            },
            Expression::ListTransform(options, child) => {
                let mut out = join3("vortex.list.transform(", child.to_sql().as_str(), ", -> ");
                out.append(options.body.to_sql().as_str());
                out.append(")");
                out
            },
            Expression::IsNotNull(child) => join3(
                "vortex.is_not_null(",
                child.to_sql().as_str(),
                ")",
            ),
        }
    }
}

/// What is said of a field that a struct does not have.
pub open spec fn no_field(name: Seq<char>, dtype: DTypeV) -> Seq<char> {
    "no field "@ + name + " in "@ + dtype.text()
}

/// The first field of this name, from field `from` on.
pub open spec fn field_index(fields: Seq<(Seq<char>, DTypeV)>, name: Seq<char>, from: int) -> Option<
    int,
>
    decreases fields.len() - from,
{
    if from < 0 || from >= fields.len() {
        None
    } else if fields[from].0 == name {
        Some(from)
    } else {
        field_index(fields, name, from + 1)
    }
}

/// Which field of a struct type a name stands for, with the field's type, nullable if the struct
/// is.
pub open spec fn field_of(dtype: DTypeV, name: Seq<char>) -> Result<(int, DTypeV), Seq<char>> {
    match dtype {
        DTypeV::Struct(fields, n) => match field_index(fields, name, 0) {
            Some(i) => Ok(
                (i, fields[i].1.with_nullability(fields[i].1.nullability().union(n))),
            ),
            None => Err(no_field(name, dtype)),
        },
        _ => Err(primitive::wrong_column("struct"@, dtype)),
    }
}

/// Find a field of a struct type.
pub fn find_field(dtype: &DType, name: &str) -> (out: VortexResult<(usize, DType)>)
    ensures
        match out {
            Ok((index, field)) => field_of(dtype@, name@) == Ok::<(int, DTypeV), Seq<char>>(
                (index as int, field@),
            ),
            Err(error) => field_of(dtype@, name@) == Err::<(int, DTypeV), Seq<char>>(error@),
        },
{
    let (fields, nullability) = match dtype {
        DType::Struct(fields, nullability) => (fields, *nullability),
        _ => return Err(wrong_column_error("struct", dtype)),
    };
    let ghost model = dtype@->Struct_0;
    let mut index: usize = 0;
    while index < fields.len()
        invariant
            index <= fields@.len() == model.len(),
            dtype@ == DTypeV::Struct(model, nullability),
            forall|i: int|
                0 <= i < model.len() ==> #[trigger] model[i] == (
                    fields@[i].name@,
                    fields@[i].dtype@,
                ),
            field_index(model, name@, 0) == field_index(model, name@, index as int),
        decreases fields@.len() - index,
    {
        let field = &fields[index];
        assert(model[index as int] == (field.name@, field.dtype@));
        if same_text(field.name.as_str(), name) {
            let found = field.dtype.with_nullability(field.dtype.nullability().or(nullability));
            return Ok((index, found));
        }
        index = index + 1;
    }
    let mut message = join3("no field ", name, " in ");
    message.append(dtype.to_text().as_str());
    Err(VortexError::new(message))
}

/// What is said of a column that does not hold lists.
pub open spec fn transform_requires_lists(dtype: DTypeV) -> Seq<char> {
    "list_transform() requires List or FixedSizeList, got "@ + dtype.text()
}

impl ExprV {
    /// The type of the expression in a scope of type `scope`.
    pub open spec fn dtype(self, scope: DTypeV) -> Result<DTypeV, Seq<char>>
        decreases self,
    {
        match self {
            ExprV::Root => Ok(scope),
            ExprV::Literal(dtype, _) => Ok(dtype),
            ExprV::GetItem(name, child) => match child.dtype(scope) {
                Err(error) => Err(error),
                Ok(dtype) => match field_of(dtype, name) {
                    Err(error) => Err(error),
                    Ok((_, field)) => Ok(field),
                },
            },
            ExprV::Binary(op, lhs, rhs) => match lhs.dtype(scope) {
                Err(error) => Err(error),
                Ok(a) => match rhs.dtype(scope) {
                    Err(error) => Err(error),
                    Ok(b) => binary::binary_dtype(op, a, b),
                },
            },
            ExprV::Not(child) => match child.dtype(scope) {
                Err(error) => Err(error),
                Ok(dtype) => strict::lifted_dtype(
                    Not.element_dtype(&EmptyOptions, seq![dtype]),
                    seq![dtype],
                ),
            },
            ExprV::ByteLength(child) => match child.dtype(scope) {
                Err(error) => Err(error),
                Ok(dtype) => strict::lifted_dtype(
                    StrictScalarFnVTable::element_dtype(&ByteLength, &EmptyOptions, seq![dtype]),
                    seq![dtype],
                ),
            },
            ExprV::ListExtreme(greatest, _, child) => match child.dtype(scope) {
                Err(error) => Err(error),
                Ok(dtype) => list_min_max::extreme_dtype(greatest, dtype),
            },
            ExprV::ListTransform(body, child) => match child.dtype(scope) {
                Err(error) => Err(error),
                Ok(dtype) => transformed_dtype(
                    dtype,
                    match dtype {
                        DTypeV::List(element, _) => body.dtype(*element),
                        DTypeV::FixedSizeList(element, _, _) => body.dtype(*element),
                        _ => Err(transform_requires_lists(dtype)),
                    },
                ),
            },
            ExprV::IsNotNull(child) => match child.dtype(scope) {
                Err(error) => Err(error),
                Ok(_) => Ok(DTypeV::Bool(Nullability::NonNullable)),
            },
        }
    }
}

/// A list type with its elements' type replaced.
pub open spec fn transformed_dtype(dtype: DTypeV, element: Result<DTypeV, Seq<char>>) -> Result<
    DTypeV,
    Seq<char>,
> {
    match element {
        Err(error) => Err(error),
        Ok(element) => match dtype {
            DTypeV::List(_, n) => Ok(DTypeV::List(Box::new(element), n)),
            DTypeV::FixedSizeList(_, size, n) => Ok(
                DTypeV::FixedSizeList(Box::new(element), size, n),
            ),
            _ => Err(transform_requires_lists(dtype)),
        },
    }
}

/// The element type of a list type.
pub fn list_element(dtype: &DType) -> (out: VortexResult<&DType>)
    ensures
        match out {
            Ok(element) => match dtype@ {
                DTypeV::List(e, _) => element@ == *e,
                DTypeV::FixedSizeList(e, _, _) => element@ == *e,
                _ => false,
            },
            Err(error) => !(dtype@ is List) && !(dtype@ is FixedSizeList) && error@
                == transform_requires_lists(dtype@),
        },
{
    match dtype {
        DType::List(element, _) => Ok(element),
        DType::FixedSizeList(element, _, _) => Ok(element),
        _ => Err(
            VortexError::new(
                join2(
                    "list_transform() requires List or FixedSizeList, got ",
                    dtype.to_text().as_str(),
                ),
            ),
        ),
    }
}

/// A list type with its elements' type replaced.
pub fn with_element(dtype: &DType, element: DType) -> (out: DType)
    requires
        dtype@ is List || dtype@ is FixedSizeList,
    ensures
        transformed_dtype(dtype@, Ok(element@)) == Ok::<DTypeV, Seq<char>>(out@),
{
    match dtype {
        DType::List(_, n) => DType::List(Arc::new(element), *n),
        DType::FixedSizeList(_, size, n) => DType::FixedSizeList(Arc::new(element), *size, *n),
        _ => element,
    }
}

impl Expression {
    /// The type of the expression in a scope of type `scope`.
    pub fn return_dtype(&self, scope: &DType) -> (out: VortexResult<DType>)
        ensures
            vtable::dtype_outcome(out) == self@.dtype(scope@),
        decreases self,
    {
        match self {
            Expression::Root => Ok(scope.clone()),
            Expression::Literal(dtype, _) => Ok(dtype.clone()),
            Expression::GetItem(name, child) => match child.return_dtype(scope) {
                Err(error) => Err(error),
                Ok(dtype) => match find_field(&dtype, name.as_str()) {
                    Err(error) => Err(error),
                    Ok((_, field)) => Ok(field),
                },
            },
            Expression::Binary(op, lhs, rhs) => match lhs.return_dtype(scope) {
                Err(error) => Err(error),
                Ok(a) => match rhs.return_dtype(scope) {
                    Err(error) => Err(error),
                    Ok(b) => operator_dtype(*op, &a, &b),
                },
            },
            Expression::Not(child) => match child.return_dtype(scope) {
                Err(error) => Err(error),
                Ok(dtype) => {
                    let ghost model = dtype@;
                    let dtypes = vec![dtype];
                    assert(vtable::dtypes_model(dtypes@) =~= seq![model]);
                    ScalarFnVTable::return_dtype(&Not, &EmptyOptions, &dtypes)
                },
            },
            Expression::ByteLength(child) => match child.return_dtype(scope) {
                Err(error) => Err(error),
                Ok(dtype) => {
                    let ghost model = dtype@;
                    let dtypes = vec![dtype];
                    assert(vtable::dtypes_model(dtypes@) =~= seq![model]);
                    ScalarFnVTable::return_dtype(&ByteLength, &EmptyOptions, &dtypes)
                },
            },
            Expression::ListExtreme(greatest, _, child) => match child.return_dtype(scope) {
                Err(error) => Err(error),
                Ok(dtype) => list_extreme_return_dtype(*greatest, &dtype),
            },
            Expression::ListTransform(options, child) => match child.return_dtype(scope) {
                Err(error) => Err(error),
                Ok(dtype) => match list_element(&dtype) {
                    Err(error) => Err(error),
                    Ok(element) => match options.body.return_dtype(element) {
                        Err(error) => Err(error),
                        Ok(transformed) => Ok(with_element(&dtype, transformed)),
                    },
                },
            },
            Expression::IsNotNull(child) => match child.return_dtype(scope) {
                Err(error) => Err(error),
                Ok(_) => Ok(DType::Bool(Nullability::NonNullable)),
            },
        }
    }
}

} // verus!
