//! Argument lists of up to twelve elements.

use vstd::prelude::*;

use crate::array::ArrayV;
use crate::dtype::{DType, DTypeV};
use crate::error::VortexResult;
use crate::scalar_fn::row::element::InputElement;
use crate::scalar_fn::row::tuple::{self, wrong_count_error, ArgColumn, ElementTuple};
use crate::scalar_fn::vtable::{self, ExecutionArgs};

verus! {

impl ElementTuple for () {
    type Columns = ();

    type Elems<'a> = ();

    type ConstElems<'a> = ();

    type V = ();

    type ConstV = ();

    const ARITY: usize = 0;

    const DENSE_SAFE: bool = true;

    const DECODE_FALLIBLE: bool = false;

    const FILTERED_DECODE_COST: usize = 0;

    open spec fn arity() -> usize {
        0
    }

    open spec fn dense_safe() -> bool {
        true
    }

    open spec fn decode_fallible() -> bool {
        false
    }

    open spec fn decode_cost() -> usize {
        (0int) as usize
    }

    proof fn constants_hold() {
    }

    open spec fn accepts(dtypes: Seq<DTypeV>) -> Result<(), Seq<char>> {
        if dtypes.len() != 0 {
            Err(tuple::wrong_count(0, dtypes.len()))
        } else {
            Ok(())
        }
    }

    open spec fn decodes(args: Seq<ArrayV>) -> Result<(), Seq<char>> {
        Ok(())
    }

    open spec fn decodes_tolerant(args: Seq<ArrayV>) -> Result<bool, Seq<char>> {
        Ok(true)
    }

    open spec fn row_at(args: Seq<ArrayV>, r: int) -> Self::V {
        ()
    }

    open spec fn can_get(columns: &Self::Columns, i: int) -> bool {
        true
    }

    open spec fn at(columns: &Self::Columns, i: int) -> Self::V {
        ()
    }

    open spec fn can_get_constants(columns: &Self::Columns) -> bool {
        true
    }

    open spec fn constants_of(columns: &Self::Columns) -> Self::ConstV {
        ()
    }

    open spec fn agree(constants: Self::ConstV, row: Self::V) -> bool {
        true
    }

    open spec fn addresses(columns: &Self::Columns, rows: nat) -> bool {
        true
    }

    open spec fn meaning(elems: Self::Elems<'_>) -> Self::V {
        ()
    }

    open spec fn const_meaning(elems: Self::ConstElems<'_>) -> Self::ConstV {
        ()
    }

    proof fn constants_agree(columns: &Self::Columns, i: int) {
    }

    proof fn accepts_arity(dtypes: Seq<DTypeV>) {
    }

    proof fn rows_are_local(a: Seq<ArrayV>, i: int, b: Seq<ArrayV>, j: int) {
    }

    fn validate(dtypes: &Vec<DType>) -> (out: VortexResult<()>) {
        if dtypes.len() != 0 {
            return Err(wrong_count_error(0, dtypes.len()));
        }
        Ok(())
    }

    fn decode(args: &ExecutionArgs) -> (out: VortexResult<Self::Columns>) {
        let columns = ();
        proof {
            assert forall|r: int|
                0 <= r < args.row_count && (Self::dense_safe() || vtable::valid_at(args@, r)) implies (
            #[trigger] Self::can_get(&columns, r)) && Self::at(&columns, r) == Self::row_at(
                args@,
                r,
            ) by {
            }
        }
        Ok(columns)
    }

    fn decode_null_tolerant(args: &ExecutionArgs) -> (out: VortexResult<Option<Self::Columns>>) {
        let columns = ();
        proof {
            assert forall|r: int| 0 <= r < args.row_count && vtable::valid_at(args@, r) implies (
            #[trigger] Self::can_get(&columns, r)) && Self::at(&columns, r) == Self::row_at(
                args@,
                r,
            ) by {
            }
        }
        Ok(Some(columns))
    }

    fn get<'a>(columns: &'a Self::Columns, index: usize) -> (out: Self::Elems<'a>) {
        ()
    }

    fn constants<'a>(columns: &'a Self::Columns) -> (out: Self::ConstElems<'a>) {
        ()
    }

    fn rows_match(columns: &Self::Columns, rows: usize) -> (out: bool) {
        true
    }
}

impl<A: InputElement> ElementTuple for (A,) {
    type Columns = (ArgColumn<A>,);

    type Elems<'a> = (A::Elem<'a>,);

    type ConstElems<'a> = (Option<A::Elem<'a>>,);

    type V = (A::V,);

    type ConstV = (Option<A::V>,);

    const ARITY: usize = 1;

    const DENSE_SAFE: bool = A::DENSE_SAFE;

    const DECODE_FALLIBLE: bool = A::DECODE_FALLIBLE;

    const FILTERED_DECODE_COST: usize = A::DECODE_SHRINKS_WHEN_FILTERED as usize;

    open spec fn arity() -> usize {
        1
    }

    open spec fn dense_safe() -> bool {
        A::dense_safe()
    }

    open spec fn decode_fallible() -> bool {
        A::decode_fallible()
    }

    open spec fn decode_cost() -> usize {
        ((if A::decode_shrinks() { 1int } else { 0int })) as usize
    }

    proof fn constants_hold() {
        A::constants_hold();
    }

    open spec fn accepts(dtypes: Seq<DTypeV>) -> Result<(), Seq<char>> {
        if dtypes.len() != 1 {
            Err(tuple::wrong_count(1, dtypes.len()))
        } else {
            A::accepts(dtypes[0])
        }
    }

    open spec fn decodes(args: Seq<ArrayV>) -> Result<(), Seq<char>> {
        A::decodes(tuple::collapsed(args[0]))
    }

    open spec fn decodes_tolerant(args: Seq<ArrayV>) -> Result<bool, Seq<char>> {
        A::decodes_tolerant(tuple::collapsed(args[0]))
    }

    open spec fn row_at(args: Seq<ArrayV>, r: int) -> Self::V {
        (A::reads(args[0].cells[r].value)->Some_0,)
    }

    open spec fn can_get(columns: &Self::Columns, i: int) -> bool {
        columns.0.can_get(i)
    }

    open spec fn at(columns: &Self::Columns, i: int) -> Self::V {
        (columns.0.at(i),)
    }

    open spec fn can_get_constants(columns: &Self::Columns) -> bool {
        (columns.0.stride == 0 ==> columns.0.can_get(0))
    }

    open spec fn constants_of(columns: &Self::Columns) -> Self::ConstV {
        (columns.0.shared_element(),)
    }

    open spec fn agree(constants: Self::ConstV, row: Self::V) -> bool {
        (constants.0 is Some ==> constants.0 == Some(row.0))
    }

    open spec fn addresses(columns: &Self::Columns, rows: nat) -> bool {
        columns.0.addresses(rows)
    }

    open spec fn meaning(elems: Self::Elems<'_>) -> Self::V {
        (A::meaning(elems.0),)
    }

    open spec fn const_meaning(elems: Self::ConstElems<'_>) -> Self::ConstV {
        (match elems.0 { Some(elem) => Some(A::meaning(elem)), None => None },)
    }

    proof fn constants_agree(columns: &Self::Columns, i: int) {
    }

    proof fn accepts_arity(dtypes: Seq<DTypeV>) {
    }

    proof fn rows_are_local(a: Seq<ArrayV>, i: int, b: Seq<ArrayV>, j: int) {
        assert(a[0].cells[i].value == b[0].cells[j].value);
    }

    fn validate(dtypes: &Vec<DType>) -> (out: VortexResult<()>) {
        if dtypes.len() != 1 {
            return Err(wrong_count_error(1, dtypes.len()));
        }
        if let Err(error) = A::validate(&dtypes[0]) {
            return Err(error);
        }
        Ok(())
    }

    fn decode(args: &ExecutionArgs) -> (out: VortexResult<Self::Columns>) {
        assert(args@[0] == args.inputs@[0]@ && args@[0].len() == args.row_count);
        let c0 = match ArgColumn::<A>::decode(&args.inputs[0]) {
            Ok(column) => column,
            Err(error) => return Err(error),
        };
        let columns = (c0,);
        proof {
            if Self::dense_safe() || !tuple::some_null_constant(args@) {
                assert(columns.0.stride == 0 ==> args@[0].len() > 0 && (A::dense_safe() || !tuple::null_constant(args@[0])));
                assert(columns.0.stride == 0 ==> columns.0.can_get(0));
                assert(Self::can_get_constants(&columns));
            }
            assert forall|r: int|
                0 <= r < args.row_count && (Self::dense_safe() || vtable::valid_at(args@, r)) implies (
            #[trigger] Self::can_get(&columns, r)) && Self::at(&columns, r) == Self::row_at(
                args@,
                r,
            ) by {
                assert((A::dense_safe() || args@[0].cells[r].valid) && columns.0.can_get(r));
            }
        }
        Ok(columns)
    }

    fn decode_null_tolerant(args: &ExecutionArgs) -> (out: VortexResult<Option<Self::Columns>>) {
        assert(args@[0] == args.inputs@[0]@ && args@[0].len() == args.row_count);
        let c0 = match ArgColumn::<A>::decode_null_tolerant(&args.inputs[0]) {
            Ok(Some(column)) => column,
            Ok(None) => return Ok(None),
            Err(error) => return Err(error),
        };
        let columns = (c0,);
        proof {
            if !tuple::some_null_constant(args@) {
                assert(columns.0.stride == 0 ==> args@[0].len() > 0 && (!tuple::null_constant(args@[0])));
                assert(columns.0.stride == 0 ==> columns.0.can_get(0));
                assert(Self::can_get_constants(&columns));
            }
            assert forall|r: int| 0 <= r < args.row_count && vtable::valid_at(args@, r) implies (
            #[trigger] Self::can_get(&columns, r)) && Self::at(&columns, r) == Self::row_at(
                args@,
                r,
            ) by {
                assert(args@[0].cells[r].valid && columns.0.can_get(r));
            }
        }
        Ok(Some(columns))
    }

    fn get<'a>(columns: &'a Self::Columns, index: usize) -> (out: Self::Elems<'a>) {
        (columns.0.get(index),)
    }

    fn constants<'a>(columns: &'a Self::Columns) -> (out: Self::ConstElems<'a>) {
        (columns.0.constant(),)
    }

    fn rows_match(columns: &Self::Columns, rows: usize) -> (out: bool) {
        columns.0.rows_match(rows)
    }
}

impl<A: InputElement, B: InputElement> ElementTuple for (A, B) {
    type Columns = (ArgColumn<A>, ArgColumn<B>);

    type Elems<'a> = (A::Elem<'a>, B::Elem<'a>);

    type ConstElems<'a> = (Option<A::Elem<'a>>, Option<B::Elem<'a>>);

    type V = (A::V, B::V);

    type ConstV = (Option<A::V>, Option<B::V>);

    const ARITY: usize = 2;

    const DENSE_SAFE: bool = A::DENSE_SAFE && B::DENSE_SAFE;

    const DECODE_FALLIBLE: bool = A::DECODE_FALLIBLE || B::DECODE_FALLIBLE;

    const FILTERED_DECODE_COST: usize = A::DECODE_SHRINKS_WHEN_FILTERED as usize + B::DECODE_SHRINKS_WHEN_FILTERED as usize;

    open spec fn arity() -> usize {
        2
    }

    open spec fn dense_safe() -> bool {
        A::dense_safe() && B::dense_safe()
    }

    open spec fn decode_fallible() -> bool {
        A::decode_fallible() || B::decode_fallible()
    }

    open spec fn decode_cost() -> usize {
        ((if A::decode_shrinks() { 1int } else { 0int }) + (if B::decode_shrinks() { 1int } else { 0int })) as usize
    }

    proof fn constants_hold() {
        A::constants_hold();
        B::constants_hold();
    }

    open spec fn accepts(dtypes: Seq<DTypeV>) -> Result<(), Seq<char>> {
        if dtypes.len() != 2 {
            Err(tuple::wrong_count(2, dtypes.len()))
        } else {
            tuple::also(A::accepts(dtypes[0]), B::accepts(dtypes[1]))
        }
    }

    open spec fn decodes(args: Seq<ArrayV>) -> Result<(), Seq<char>> {
        tuple::also(A::decodes(tuple::collapsed(args[0])), B::decodes(tuple::collapsed(args[1])))
    }

    open spec fn decodes_tolerant(args: Seq<ArrayV>) -> Result<bool, Seq<char>> {
        tuple::also_tolerant(A::decodes_tolerant(tuple::collapsed(args[0])), B::decodes_tolerant(tuple::collapsed(args[1])))
    }

    open spec fn row_at(args: Seq<ArrayV>, r: int) -> Self::V {
        (A::reads(args[0].cells[r].value)->Some_0, B::reads(args[1].cells[r].value)->Some_0)
    }

    open spec fn can_get(columns: &Self::Columns, i: int) -> bool {
        columns.0.can_get(i) && columns.1.can_get(i)
    }

    open spec fn at(columns: &Self::Columns, i: int) -> Self::V {
        (columns.0.at(i), columns.1.at(i))
    }

    open spec fn can_get_constants(columns: &Self::Columns) -> bool {
        (columns.0.stride == 0 ==> columns.0.can_get(0)) && (columns.1.stride == 0 ==> columns.1.can_get(0))
    }

    open spec fn constants_of(columns: &Self::Columns) -> Self::ConstV {
        (columns.0.shared_element(), columns.1.shared_element())
    }

    open spec fn agree(constants: Self::ConstV, row: Self::V) -> bool {
        (constants.0 is Some ==> constants.0 == Some(row.0)) && (constants.1 is Some ==> constants.1 == Some(row.1))
    }

    open spec fn addresses(columns: &Self::Columns, rows: nat) -> bool {
        columns.0.addresses(rows) && columns.1.addresses(rows)
    }

    open spec fn meaning(elems: Self::Elems<'_>) -> Self::V {
        (A::meaning(elems.0), B::meaning(elems.1))
    }

    open spec fn const_meaning(elems: Self::ConstElems<'_>) -> Self::ConstV {
        (match elems.0 { Some(elem) => Some(A::meaning(elem)), None => None }, match elems.1 { Some(elem) => Some(B::meaning(elem)), None => None })
    }

    proof fn constants_agree(columns: &Self::Columns, i: int) {
    }

    proof fn accepts_arity(dtypes: Seq<DTypeV>) {
    }

    proof fn rows_are_local(a: Seq<ArrayV>, i: int, b: Seq<ArrayV>, j: int) {
        assert(a[0].cells[i].value == b[0].cells[j].value);
        assert(a[1].cells[i].value == b[1].cells[j].value);
    }

    fn validate(dtypes: &Vec<DType>) -> (out: VortexResult<()>) {
        if dtypes.len() != 2 {
            return Err(wrong_count_error(2, dtypes.len()));
        }
        if let Err(error) = A::validate(&dtypes[0]) {
            return Err(error);
        }
        if let Err(error) = B::validate(&dtypes[1]) {
            return Err(error);
        }
        Ok(())
    }

    fn decode(args: &ExecutionArgs) -> (out: VortexResult<Self::Columns>) {
        assert(args@[0] == args.inputs@[0]@ && args@[0].len() == args.row_count);
        let c0 = match ArgColumn::<A>::decode(&args.inputs[0]) {
            Ok(column) => column,
            Err(error) => return Err(error),
        };
        assert(args@[1] == args.inputs@[1]@ && args@[1].len() == args.row_count);
        let c1 = match ArgColumn::<B>::decode(&args.inputs[1]) {
            Ok(column) => column,
            Err(error) => return Err(error),
        };
        let columns = (c0, c1);
        proof {
            if Self::dense_safe() || !tuple::some_null_constant(args@) {
                assert(columns.0.stride == 0 ==> args@[0].len() > 0 && (A::dense_safe() || !tuple::null_constant(args@[0])));
                assert(columns.0.stride == 0 ==> columns.0.can_get(0));
                assert(columns.1.stride == 0 ==> args@[1].len() > 0 && (B::dense_safe() || !tuple::null_constant(args@[1])));
                assert(columns.1.stride == 0 ==> columns.1.can_get(0));
                assert(Self::can_get_constants(&columns));
            }
            assert forall|r: int|
                0 <= r < args.row_count && (Self::dense_safe() || vtable::valid_at(args@, r)) implies (
            #[trigger] Self::can_get(&columns, r)) && Self::at(&columns, r) == Self::row_at(
                args@,
                r,
            ) by {
                assert((A::dense_safe() || args@[0].cells[r].valid) && columns.0.can_get(r));
                assert((B::dense_safe() || args@[1].cells[r].valid) && columns.1.can_get(r));
            }
        }
        Ok(columns)
    }

    fn decode_null_tolerant(args: &ExecutionArgs) -> (out: VortexResult<Option<Self::Columns>>) {
        assert(args@[0] == args.inputs@[0]@ && args@[0].len() == args.row_count);
        let c0 = match ArgColumn::<A>::decode_null_tolerant(&args.inputs[0]) {
            Ok(Some(column)) => column,
            Ok(None) => return Ok(None),
            Err(error) => return Err(error),
        };
        assert(args@[1] == args.inputs@[1]@ && args@[1].len() == args.row_count);
        let c1 = match ArgColumn::<B>::decode_null_tolerant(&args.inputs[1]) {
            Ok(Some(column)) => column,
            Ok(None) => return Ok(None),
            Err(error) => return Err(error),
        };
        let columns = (c0, c1);
        proof {
            if !tuple::some_null_constant(args@) {
                assert(columns.0.stride == 0 ==> args@[0].len() > 0 && (!tuple::null_constant(args@[0])));
                assert(columns.0.stride == 0 ==> columns.0.can_get(0));
                assert(columns.1.stride == 0 ==> args@[1].len() > 0 && (!tuple::null_constant(args@[1])));
                assert(columns.1.stride == 0 ==> columns.1.can_get(0));
                assert(Self::can_get_constants(&columns));
            }
            assert forall|r: int| 0 <= r < args.row_count && vtable::valid_at(args@, r) implies (
            #[trigger] Self::can_get(&columns, r)) && Self::at(&columns, r) == Self::row_at(
                args@,
                r,
            ) by {
                assert(args@[0].cells[r].valid && columns.0.can_get(r));
                assert(args@[1].cells[r].valid && columns.1.can_get(r));
            }
        }
        Ok(Some(columns))
    }

    fn get<'a>(columns: &'a Self::Columns, index: usize) -> (out: Self::Elems<'a>) {
        (columns.0.get(index), columns.1.get(index))
    }

    fn constants<'a>(columns: &'a Self::Columns) -> (out: Self::ConstElems<'a>) {
        (columns.0.constant(), columns.1.constant())
    }

    fn rows_match(columns: &Self::Columns, rows: usize) -> (out: bool) {
        columns.0.rows_match(rows) && columns.1.rows_match(rows)
    }
}

impl<A: InputElement, B: InputElement, C: InputElement> ElementTuple for (A, B, C) {
    type Columns = (ArgColumn<A>, ArgColumn<B>, ArgColumn<C>);

    type Elems<'a> = (A::Elem<'a>, B::Elem<'a>, C::Elem<'a>);

    type ConstElems<'a> = (Option<A::Elem<'a>>, Option<B::Elem<'a>>, Option<C::Elem<'a>>);

    type V = (A::V, B::V, C::V);

    type ConstV = (Option<A::V>, Option<B::V>, Option<C::V>);

    const ARITY: usize = 3;

    const DENSE_SAFE: bool = A::DENSE_SAFE && B::DENSE_SAFE && C::DENSE_SAFE;

    const DECODE_FALLIBLE: bool = A::DECODE_FALLIBLE || B::DECODE_FALLIBLE || C::DECODE_FALLIBLE;

    const FILTERED_DECODE_COST: usize = A::DECODE_SHRINKS_WHEN_FILTERED as usize + B::DECODE_SHRINKS_WHEN_FILTERED as usize + C::DECODE_SHRINKS_WHEN_FILTERED as usize;

    open spec fn arity() -> usize {
        3
    }

    open spec fn dense_safe() -> bool {
        A::dense_safe() && B::dense_safe() && C::dense_safe()
    }

    open spec fn decode_fallible() -> bool {
        A::decode_fallible() || B::decode_fallible() || C::decode_fallible()
    }

    open spec fn decode_cost() -> usize {
        ((if A::decode_shrinks() { 1int } else { 0int }) + (if B::decode_shrinks() { 1int } else { 0int }) + (if C::decode_shrinks() { 1int } else { 0int })) as usize
    }

    proof fn constants_hold() {
        A::constants_hold();
        B::constants_hold();
        C::constants_hold();
    }

    open spec fn accepts(dtypes: Seq<DTypeV>) -> Result<(), Seq<char>> {
        if dtypes.len() != 3 {
            Err(tuple::wrong_count(3, dtypes.len()))
        } else {
            tuple::also(A::accepts(dtypes[0]), tuple::also(B::accepts(dtypes[1]), C::accepts(dtypes[2])))
        }
    }

    open spec fn decodes(args: Seq<ArrayV>) -> Result<(), Seq<char>> {
        tuple::also(A::decodes(tuple::collapsed(args[0])), tuple::also(B::decodes(tuple::collapsed(args[1])), C::decodes(tuple::collapsed(args[2]))))
    }

    open spec fn decodes_tolerant(args: Seq<ArrayV>) -> Result<bool, Seq<char>> {
        tuple::also_tolerant(A::decodes_tolerant(tuple::collapsed(args[0])), tuple::also_tolerant(B::decodes_tolerant(tuple::collapsed(args[1])), C::decodes_tolerant(tuple::collapsed(args[2]))))
    }

    open spec fn row_at(args: Seq<ArrayV>, r: int) -> Self::V {
        (A::reads(args[0].cells[r].value)->Some_0, B::reads(args[1].cells[r].value)->Some_0, C::reads(args[2].cells[r].value)->Some_0)
    }

    open spec fn can_get(columns: &Self::Columns, i: int) -> bool {
        columns.0.can_get(i) && columns.1.can_get(i) && columns.2.can_get(i)
    }

    open spec fn at(columns: &Self::Columns, i: int) -> Self::V {
        (columns.0.at(i), columns.1.at(i), columns.2.at(i))
    }

    open spec fn can_get_constants(columns: &Self::Columns) -> bool {
        (columns.0.stride == 0 ==> columns.0.can_get(0)) && (columns.1.stride == 0 ==> columns.1.can_get(0)) && (columns.2.stride == 0 ==> columns.2.can_get(0))
    }

    open spec fn constants_of(columns: &Self::Columns) -> Self::ConstV {
        (columns.0.shared_element(), columns.1.shared_element(), columns.2.shared_element())
    }

    open spec fn agree(constants: Self::ConstV, row: Self::V) -> bool {
        (constants.0 is Some ==> constants.0 == Some(row.0)) && (constants.1 is Some ==> constants.1 == Some(row.1)) && (constants.2 is Some ==> constants.2 == Some(row.2))
    }

    open spec fn addresses(columns: &Self::Columns, rows: nat) -> bool {
        columns.0.addresses(rows) && columns.1.addresses(rows) && columns.2.addresses(rows)
    }

    open spec fn meaning(elems: Self::Elems<'_>) -> Self::V {
        (A::meaning(elems.0), B::meaning(elems.1), C::meaning(elems.2))
    }

    open spec fn const_meaning(elems: Self::ConstElems<'_>) -> Self::ConstV {
        (match elems.0 { Some(elem) => Some(A::meaning(elem)), None => None }, match elems.1 { Some(elem) => Some(B::meaning(elem)), None => None }, match elems.2 { Some(elem) => Some(C::meaning(elem)), None => None })
    }

    proof fn constants_agree(columns: &Self::Columns, i: int) {
    }

    proof fn accepts_arity(dtypes: Seq<DTypeV>) {
    }

    proof fn rows_are_local(a: Seq<ArrayV>, i: int, b: Seq<ArrayV>, j: int) {
        assert(a[0].cells[i].value == b[0].cells[j].value);
        assert(a[1].cells[i].value == b[1].cells[j].value);
        assert(a[2].cells[i].value == b[2].cells[j].value);
    }

    fn validate(dtypes: &Vec<DType>) -> (out: VortexResult<()>) {
        if dtypes.len() != 3 {
            return Err(wrong_count_error(3, dtypes.len()));
        }
        if let Err(error) = A::validate(&dtypes[0]) {
            return Err(error);
        }
        if let Err(error) = B::validate(&dtypes[1]) {
            return Err(error);
        }
        if let Err(error) = C::validate(&dtypes[2]) {
            return Err(error);
        }
        Ok(())
    }

    fn decode(args: &ExecutionArgs) -> (out: VortexResult<Self::Columns>) {
        assert(args@[0] == args.inputs@[0]@ && args@[0].len() == args.row_count);
        let c0 = match ArgColumn::<A>::decode(&args.inputs[0]) {
            Ok(column) => column,
            Err(error) => return Err(error),
        };
        assert(args@[1] == args.inputs@[1]@ && args@[1].len() == args.row_count);
        let c1 = match ArgColumn::<B>::decode(&args.inputs[1]) {
            Ok(column) => column,
            Err(error) => return Err(error),
        };
        assert(args@[2] == args.inputs@[2]@ && args@[2].len() == args.row_count);
        let c2 = match ArgColumn::<C>::decode(&args.inputs[2]) {
            Ok(column) => column,
            Err(error) => return Err(error),
        };
        let columns = (c0, c1, c2);
        proof {
            if Self::dense_safe() || !tuple::some_null_constant(args@) {
                assert(columns.0.stride == 0 ==> args@[0].len() > 0 && (A::dense_safe() || !tuple::null_constant(args@[0])));
                assert(columns.0.stride == 0 ==> columns.0.can_get(0));
                assert(columns.1.stride == 0 ==> args@[1].len() > 0 && (B::dense_safe() || !tuple::null_constant(args@[1])));
                assert(columns.1.stride == 0 ==> columns.1.can_get(0));
                assert(columns.2.stride == 0 ==> args@[2].len() > 0 && (C::dense_safe() || !tuple::null_constant(args@[2])));
                assert(columns.2.stride == 0 ==> columns.2.can_get(0));
                assert(Self::can_get_constants(&columns));
            }
            assert forall|r: int|
                0 <= r < args.row_count && (Self::dense_safe() || vtable::valid_at(args@, r)) implies (
            #[trigger] Self::can_get(&columns, r)) && Self::at(&columns, r) == Self::row_at(
                args@,
                r,
            ) by {
                assert((A::dense_safe() || args@[0].cells[r].valid) && columns.0.can_get(r));
                assert((B::dense_safe() || args@[1].cells[r].valid) && columns.1.can_get(r));
                assert((C::dense_safe() || args@[2].cells[r].valid) && columns.2.can_get(r));
            }
        }
        Ok(columns)
    }

    fn decode_null_tolerant(args: &ExecutionArgs) -> (out: VortexResult<Option<Self::Columns>>) {
        assert(args@[0] == args.inputs@[0]@ && args@[0].len() == args.row_count);
        let c0 = match ArgColumn::<A>::decode_null_tolerant(&args.inputs[0]) {
            Ok(Some(column)) => column,
            Ok(None) => return Ok(None),
            Err(error) => return Err(error),
        };
        assert(args@[1] == args.inputs@[1]@ && args@[1].len() == args.row_count);
        let c1 = match ArgColumn::<B>::decode_null_tolerant(&args.inputs[1]) {
            Ok(Some(column)) => column,
            Ok(None) => return Ok(None),
            Err(error) => return Err(error),
        };
        assert(args@[2] == args.inputs@[2]@ && args@[2].len() == args.row_count);
        let c2 = match ArgColumn::<C>::decode_null_tolerant(&args.inputs[2]) {
            Ok(Some(column)) => column,
            Ok(None) => return Ok(None),
            Err(error) => return Err(error),
        };
        let columns = (c0, c1, c2);
        proof {
            if !tuple::some_null_constant(args@) {
                assert(columns.0.stride == 0 ==> args@[0].len() > 0 && (!tuple::null_constant(args@[0])));
                assert(columns.0.stride == 0 ==> columns.0.can_get(0));
                assert(columns.1.stride == 0 ==> args@[1].len() > 0 && (!tuple::null_constant(args@[1])));
                assert(columns.1.stride == 0 ==> columns.1.can_get(0));
                assert(columns.2.stride == 0 ==> args@[2].len() > 0 && (!tuple::null_constant(args@[2])));
                assert(columns.2.stride == 0 ==> columns.2.can_get(0));
                assert(Self::can_get_constants(&columns));
            }
            assert forall|r: int| 0 <= r < args.row_count && vtable::valid_at(args@, r) implies (
            #[trigger] Self::can_get(&columns, r)) && Self::at(&columns, r) == Self::row_at(
                args@,
                r,
            ) by {
                assert(args@[0].cells[r].valid && columns.0.can_get(r));
                assert(args@[1].cells[r].valid && columns.1.can_get(r));
                assert(args@[2].cells[r].valid && columns.2.can_get(r));
            }
        }
        Ok(Some(columns))
    }

    fn get<'a>(columns: &'a Self::Columns, index: usize) -> (out: Self::Elems<'a>) {
        (columns.0.get(index), columns.1.get(index), columns.2.get(index))
    }

    fn constants<'a>(columns: &'a Self::Columns) -> (out: Self::ConstElems<'a>) {
        (columns.0.constant(), columns.1.constant(), columns.2.constant())
    }

    fn rows_match(columns: &Self::Columns, rows: usize) -> (out: bool) {
        columns.0.rows_match(rows) && columns.1.rows_match(rows) && columns.2.rows_match(rows)
    }
}

impl<A: InputElement, B: InputElement, C: InputElement, D: InputElement> ElementTuple for (A, B, C, D) {
    type Columns = (ArgColumn<A>, ArgColumn<B>, ArgColumn<C>, ArgColumn<D>);

    type Elems<'a> = (A::Elem<'a>, B::Elem<'a>, C::Elem<'a>, D::Elem<'a>);

    type ConstElems<'a> = (Option<A::Elem<'a>>, Option<B::Elem<'a>>, Option<C::Elem<'a>>, Option<D::Elem<'a>>);

    type V = (A::V, B::V, C::V, D::V);

    type ConstV = (Option<A::V>, Option<B::V>, Option<C::V>, Option<D::V>);

    const ARITY: usize = 4;

    const DENSE_SAFE: bool = A::DENSE_SAFE && B::DENSE_SAFE && C::DENSE_SAFE && D::DENSE_SAFE;

    const DECODE_FALLIBLE: bool = A::DECODE_FALLIBLE || B::DECODE_FALLIBLE || C::DECODE_FALLIBLE || D::DECODE_FALLIBLE;

    const FILTERED_DECODE_COST: usize = A::DECODE_SHRINKS_WHEN_FILTERED as usize + B::DECODE_SHRINKS_WHEN_FILTERED as usize + C::DECODE_SHRINKS_WHEN_FILTERED as usize + D::DECODE_SHRINKS_WHEN_FILTERED as usize;

    open spec fn arity() -> usize {
        4
    }

    open spec fn dense_safe() -> bool {
        A::dense_safe() && B::dense_safe() && C::dense_safe() && D::dense_safe()
    }

    open spec fn decode_fallible() -> bool {
        A::decode_fallible() || B::decode_fallible() || C::decode_fallible() || D::decode_fallible()
    }

    open spec fn decode_cost() -> usize {
        ((if A::decode_shrinks() { 1int } else { 0int }) + (if B::decode_shrinks() { 1int } else { 0int }) + (if C::decode_shrinks() { 1int } else { 0int }) + (if D::decode_shrinks() { 1int } else { 0int })) as usize
    }

    proof fn constants_hold() {
        A::constants_hold();
        B::constants_hold();
        C::constants_hold();
        D::constants_hold();
    }

    open spec fn accepts(dtypes: Seq<DTypeV>) -> Result<(), Seq<char>> {
        if dtypes.len() != 4 {
            Err(tuple::wrong_count(4, dtypes.len()))
        } else {
            tuple::also(A::accepts(dtypes[0]), tuple::also(B::accepts(dtypes[1]), tuple::also(C::accepts(dtypes[2]), D::accepts(dtypes[3]))))
        }
    }

    open spec fn decodes(args: Seq<ArrayV>) -> Result<(), Seq<char>> {
        tuple::also(A::decodes(tuple::collapsed(args[0])), tuple::also(B::decodes(tuple::collapsed(args[1])), tuple::also(C::decodes(tuple::collapsed(args[2])), D::decodes(tuple::collapsed(args[3])))))
    }

    open spec fn decodes_tolerant(args: Seq<ArrayV>) -> Result<bool, Seq<char>> {
        tuple::also_tolerant(A::decodes_tolerant(tuple::collapsed(args[0])), tuple::also_tolerant(B::decodes_tolerant(tuple::collapsed(args[1])), tuple::also_tolerant(C::decodes_tolerant(tuple::collapsed(args[2])), D::decodes_tolerant(tuple::collapsed(args[3])))))
    }

    open spec fn row_at(args: Seq<ArrayV>, r: int) -> Self::V {
        (A::reads(args[0].cells[r].value)->Some_0, B::reads(args[1].cells[r].value)->Some_0, C::reads(args[2].cells[r].value)->Some_0, D::reads(args[3].cells[r].value)->Some_0)
    }

    open spec fn can_get(columns: &Self::Columns, i: int) -> bool {
        columns.0.can_get(i) && columns.1.can_get(i) && columns.2.can_get(i) && columns.3.can_get(i)
    }

    open spec fn at(columns: &Self::Columns, i: int) -> Self::V {
        (columns.0.at(i), columns.1.at(i), columns.2.at(i), columns.3.at(i))
    }

    open spec fn can_get_constants(columns: &Self::Columns) -> bool {
        (columns.0.stride == 0 ==> columns.0.can_get(0)) && (columns.1.stride == 0 ==> columns.1.can_get(0)) && (columns.2.stride == 0 ==> columns.2.can_get(0)) && (columns.3.stride == 0 ==> columns.3.can_get(0))
    }

    open spec fn constants_of(columns: &Self::Columns) -> Self::ConstV {
        (columns.0.shared_element(), columns.1.shared_element(), columns.2.shared_element(), columns.3.shared_element())
    }

    open spec fn agree(constants: Self::ConstV, row: Self::V) -> bool {
        (constants.0 is Some ==> constants.0 == Some(row.0)) && (constants.1 is Some ==> constants.1 == Some(row.1)) && (constants.2 is Some ==> constants.2 == Some(row.2)) && (constants.3 is Some ==> constants.3 == Some(row.3))
    }

    open spec fn addresses(columns: &Self::Columns, rows: nat) -> bool {
        columns.0.addresses(rows) && columns.1.addresses(rows) && columns.2.addresses(rows) && columns.3.addresses(rows)
    }

    open spec fn meaning(elems: Self::Elems<'_>) -> Self::V {
        (A::meaning(elems.0), B::meaning(elems.1), C::meaning(elems.2), D::meaning(elems.3))
    }

    open spec fn const_meaning(elems: Self::ConstElems<'_>) -> Self::ConstV {
        (match elems.0 { Some(elem) => Some(A::meaning(elem)), None => None }, match elems.1 { Some(elem) => Some(B::meaning(elem)), None => None }, match elems.2 { Some(elem) => Some(C::meaning(elem)), None => None }, match elems.3 { Some(elem) => Some(D::meaning(elem)), None => None })
    }

    proof fn constants_agree(columns: &Self::Columns, i: int) {
    }

    proof fn accepts_arity(dtypes: Seq<DTypeV>) {
    }

    proof fn rows_are_local(a: Seq<ArrayV>, i: int, b: Seq<ArrayV>, j: int) {
        assert(a[0].cells[i].value == b[0].cells[j].value);
        assert(a[1].cells[i].value == b[1].cells[j].value);
        assert(a[2].cells[i].value == b[2].cells[j].value);
        assert(a[3].cells[i].value == b[3].cells[j].value);
    }

    fn validate(dtypes: &Vec<DType>) -> (out: VortexResult<()>) {
        if dtypes.len() != 4 {
            return Err(wrong_count_error(4, dtypes.len()));
        }
        if let Err(error) = A::validate(&dtypes[0]) {
            return Err(error);
        }
        if let Err(error) = B::validate(&dtypes[1]) {
            return Err(error);
        }
        if let Err(error) = C::validate(&dtypes[2]) {
            return Err(error);
        }
        if let Err(error) = D::validate(&dtypes[3]) {
            return Err(error);
        }
        Ok(())
    }

    fn decode(args: &ExecutionArgs) -> (out: VortexResult<Self::Columns>) {
        assert(args@[0] == args.inputs@[0]@ && args@[0].len() == args.row_count);
        let c0 = match ArgColumn::<A>::decode(&args.inputs[0]) {
            Ok(column) => column,
            Err(error) => return Err(error),
        };
        assert(args@[1] == args.inputs@[1]@ && args@[1].len() == args.row_count);
        let c1 = match ArgColumn::<B>::decode(&args.inputs[1]) {
            Ok(column) => column,
            Err(error) => return Err(error),
        };
        assert(args@[2] == args.inputs@[2]@ && args@[2].len() == args.row_count);
        let c2 = match ArgColumn::<C>::decode(&args.inputs[2]) {
            Ok(column) => column,
            Err(error) => return Err(error),
        };
        assert(args@[3] == args.inputs@[3]@ && args@[3].len() == args.row_count);
        let c3 = match ArgColumn::<D>::decode(&args.inputs[3]) {
            Ok(column) => column,
            Err(error) => return Err(error),
        };
        let columns = (c0, c1, c2, c3);
        proof {
            if Self::dense_safe() || !tuple::some_null_constant(args@) {
                assert(columns.0.stride == 0 ==> args@[0].len() > 0 && (A::dense_safe() || !tuple::null_constant(args@[0])));
                assert(columns.0.stride == 0 ==> columns.0.can_get(0));
                assert(columns.1.stride == 0 ==> args@[1].len() > 0 && (B::dense_safe() || !tuple::null_constant(args@[1])));
                assert(columns.1.stride == 0 ==> columns.1.can_get(0));
                assert(columns.2.stride == 0 ==> args@[2].len() > 0 && (C::dense_safe() || !tuple::null_constant(args@[2])));
                assert(columns.2.stride == 0 ==> columns.2.can_get(0));
                assert(columns.3.stride == 0 ==> args@[3].len() > 0 && (D::dense_safe() || !tuple::null_constant(args@[3])));
                assert(columns.3.stride == 0 ==> columns.3.can_get(0));
                assert(Self::can_get_constants(&columns));
            }
            assert forall|r: int|
                0 <= r < args.row_count && (Self::dense_safe() || vtable::valid_at(args@, r)) implies (
            #[trigger] Self::can_get(&columns, r)) && Self::at(&columns, r) == Self::row_at(
                args@,
                r,
            ) by {
                assert((A::dense_safe() || args@[0].cells[r].valid) && columns.0.can_get(r));
                assert((B::dense_safe() || args@[1].cells[r].valid) && columns.1.can_get(r));
                assert((C::dense_safe() || args@[2].cells[r].valid) && columns.2.can_get(r));
                assert((D::dense_safe() || args@[3].cells[r].valid) && columns.3.can_get(r));
            }
        }
        Ok(columns)
    }

    fn decode_null_tolerant(args: &ExecutionArgs) -> (out: VortexResult<Option<Self::Columns>>) {
        assert(args@[0] == args.inputs@[0]@ && args@[0].len() == args.row_count);
        let c0 = match ArgColumn::<A>::decode_null_tolerant(&args.inputs[0]) {
            Ok(Some(column)) => column,
            Ok(None) => return Ok(None),
            Err(error) => return Err(error),
        };
        assert(args@[1] == args.inputs@[1]@ && args@[1].len() == args.row_count);
        let c1 = match ArgColumn::<B>::decode_null_tolerant(&args.inputs[1]) {
            Ok(Some(column)) => column,
            Ok(None) => return Ok(None),
            Err(error) => return Err(error),
        };
        assert(args@[2] == args.inputs@[2]@ && args@[2].len() == args.row_count);
        let c2 = match ArgColumn::<C>::decode_null_tolerant(&args.inputs[2]) {
            Ok(Some(column)) => column,
            Ok(None) => return Ok(None),
            Err(error) => return Err(error),
        };
        assert(args@[3] == args.inputs@[3]@ && args@[3].len() == args.row_count);
        let c3 = match ArgColumn::<D>::decode_null_tolerant(&args.inputs[3]) {
            Ok(Some(column)) => column,
            Ok(None) => return Ok(None),
            Err(error) => return Err(error),
        };
        let columns = (c0, c1, c2, c3);
        proof {
            if !tuple::some_null_constant(args@) {
                assert(columns.0.stride == 0 ==> args@[0].len() > 0 && (!tuple::null_constant(args@[0])));
                assert(columns.0.stride == 0 ==> columns.0.can_get(0));
                assert(columns.1.stride == 0 ==> args@[1].len() > 0 && (!tuple::null_constant(args@[1])));
                assert(columns.1.stride == 0 ==> columns.1.can_get(0));
                assert(columns.2.stride == 0 ==> args@[2].len() > 0 && (!tuple::null_constant(args@[2])));
                assert(columns.2.stride == 0 ==> columns.2.can_get(0));
                assert(columns.3.stride == 0 ==> args@[3].len() > 0 && (!tuple::null_constant(args@[3])));
                assert(columns.3.stride == 0 ==> columns.3.can_get(0));
                assert(Self::can_get_constants(&columns));
            }
            assert forall|r: int| 0 <= r < args.row_count && vtable::valid_at(args@, r) implies (
            #[trigger] Self::can_get(&columns, r)) && Self::at(&columns, r) == Self::row_at(
                args@,
                r,
            ) by {
                assert(args@[0].cells[r].valid && columns.0.can_get(r));
                assert(args@[1].cells[r].valid && columns.1.can_get(r));
                assert(args@[2].cells[r].valid && columns.2.can_get(r));
                assert(args@[3].cells[r].valid && columns.3.can_get(r));
            }
        }
        Ok(Some(columns))
    }

    fn get<'a>(columns: &'a Self::Columns, index: usize) -> (out: Self::Elems<'a>) {
        (columns.0.get(index), columns.1.get(index), columns.2.get(index), columns.3.get(index))
    }

    fn constants<'a>(columns: &'a Self::Columns) -> (out: Self::ConstElems<'a>) {
        (columns.0.constant(), columns.1.constant(), columns.2.constant(), columns.3.constant())
    }

    fn rows_match(columns: &Self::Columns, rows: usize) -> (out: bool) {
        columns.0.rows_match(rows) && columns.1.rows_match(rows) && columns.2.rows_match(rows) && columns.3.rows_match(rows)
    }
}

impl<A: InputElement, B: InputElement, C: InputElement, D: InputElement, E: InputElement> ElementTuple for (A, B, C, D, E) {
    type Columns = (ArgColumn<A>, ArgColumn<B>, ArgColumn<C>, ArgColumn<D>, ArgColumn<E>);

    type Elems<'a> = (A::Elem<'a>, B::Elem<'a>, C::Elem<'a>, D::Elem<'a>, E::Elem<'a>);

    type ConstElems<'a> = (Option<A::Elem<'a>>, Option<B::Elem<'a>>, Option<C::Elem<'a>>, Option<D::Elem<'a>>, Option<E::Elem<'a>>);

    type V = (A::V, B::V, C::V, D::V, E::V);

    type ConstV = (Option<A::V>, Option<B::V>, Option<C::V>, Option<D::V>, Option<E::V>);

    const ARITY: usize = 5;

    const DENSE_SAFE: bool = A::DENSE_SAFE && B::DENSE_SAFE && C::DENSE_SAFE && D::DENSE_SAFE && E::DENSE_SAFE;

    const DECODE_FALLIBLE: bool = A::DECODE_FALLIBLE || B::DECODE_FALLIBLE || C::DECODE_FALLIBLE || D::DECODE_FALLIBLE || E::DECODE_FALLIBLE;

    const FILTERED_DECODE_COST: usize = A::DECODE_SHRINKS_WHEN_FILTERED as usize + B::DECODE_SHRINKS_WHEN_FILTERED as usize + C::DECODE_SHRINKS_WHEN_FILTERED as usize + D::DECODE_SHRINKS_WHEN_FILTERED as usize + E::DECODE_SHRINKS_WHEN_FILTERED as usize;

    open spec fn arity() -> usize {
        5
    }

    open spec fn dense_safe() -> bool {
        A::dense_safe() && B::dense_safe() && C::dense_safe() && D::dense_safe() && E::dense_safe()
    }

    open spec fn decode_fallible() -> bool {
        A::decode_fallible() || B::decode_fallible() || C::decode_fallible() || D::decode_fallible() || E::decode_fallible()
    }

    open spec fn decode_cost() -> usize {
        ((if A::decode_shrinks() { 1int } else { 0int }) + (if B::decode_shrinks() { 1int } else { 0int }) + (if C::decode_shrinks() { 1int } else { 0int }) + (if D::decode_shrinks() { 1int } else { 0int }) + (if E::decode_shrinks() { 1int } else { 0int })) as usize
    }

    proof fn constants_hold() {
        A::constants_hold();
        B::constants_hold();
        C::constants_hold();
        D::constants_hold();
        E::constants_hold();
    }

    open spec fn accepts(dtypes: Seq<DTypeV>) -> Result<(), Seq<char>> {
        if dtypes.len() != 5 {
            Err(tuple::wrong_count(5, dtypes.len()))
        } else {
            tuple::also(A::accepts(dtypes[0]), tuple::also(B::accepts(dtypes[1]), tuple::also(C::accepts(dtypes[2]), tuple::also(D::accepts(dtypes[3]), E::accepts(dtypes[4])))))
        }
    }

    open spec fn decodes(args: Seq<ArrayV>) -> Result<(), Seq<char>> {
        tuple::also(A::decodes(tuple::collapsed(args[0])), tuple::also(B::decodes(tuple::collapsed(args[1])), tuple::also(C::decodes(tuple::collapsed(args[2])), tuple::also(D::decodes(tuple::collapsed(args[3])), E::decodes(tuple::collapsed(args[4]))))))
    }

    open spec fn decodes_tolerant(args: Seq<ArrayV>) -> Result<bool, Seq<char>> {
        tuple::also_tolerant(A::decodes_tolerant(tuple::collapsed(args[0])), tuple::also_tolerant(B::decodes_tolerant(tuple::collapsed(args[1])), tuple::also_tolerant(C::decodes_tolerant(tuple::collapsed(args[2])), tuple::also_tolerant(D::decodes_tolerant(tuple::collapsed(args[3])), E::decodes_tolerant(tuple::collapsed(args[4]))))))
    }

    open spec fn row_at(args: Seq<ArrayV>, r: int) -> Self::V {
        (A::reads(args[0].cells[r].value)->Some_0, B::reads(args[1].cells[r].value)->Some_0, C::reads(args[2].cells[r].value)->Some_0, D::reads(args[3].cells[r].value)->Some_0, E::reads(args[4].cells[r].value)->Some_0)
    }

    open spec fn can_get(columns: &Self::Columns, i: int) -> bool {
        columns.0.can_get(i) && columns.1.can_get(i) && columns.2.can_get(i) && columns.3.can_get(i) && columns.4.can_get(i)
    }

    open spec fn at(columns: &Self::Columns, i: int) -> Self::V {
        (columns.0.at(i), columns.1.at(i), columns.2.at(i), columns.3.at(i), columns.4.at(i))
    }

    open spec fn can_get_constants(columns: &Self::Columns) -> bool {
        (columns.0.stride == 0 ==> columns.0.can_get(0)) && (columns.1.stride == 0 ==> columns.1.can_get(0)) && (columns.2.stride == 0 ==> columns.2.can_get(0)) && (columns.3.stride == 0 ==> columns.3.can_get(0)) && (columns.4.stride == 0 ==> columns.4.can_get(0))
    }

    open spec fn constants_of(columns: &Self::Columns) -> Self::ConstV {
        (columns.0.shared_element(), columns.1.shared_element(), columns.2.shared_element(), columns.3.shared_element(), columns.4.shared_element())
    }

    open spec fn agree(constants: Self::ConstV, row: Self::V) -> bool {
        (constants.0 is Some ==> constants.0 == Some(row.0)) && (constants.1 is Some ==> constants.1 == Some(row.1)) && (constants.2 is Some ==> constants.2 == Some(row.2)) && (constants.3 is Some ==> constants.3 == Some(row.3)) && (constants.4 is Some ==> constants.4 == Some(row.4))
    }

    open spec fn addresses(columns: &Self::Columns, rows: nat) -> bool {
        columns.0.addresses(rows) && columns.1.addresses(rows) && columns.2.addresses(rows) && columns.3.addresses(rows) && columns.4.addresses(rows)
    }

    open spec fn meaning(elems: Self::Elems<'_>) -> Self::V {
        (A::meaning(elems.0), B::meaning(elems.1), C::meaning(elems.2), D::meaning(elems.3), E::meaning(elems.4))
    }

    open spec fn const_meaning(elems: Self::ConstElems<'_>) -> Self::ConstV {
        (match elems.0 { Some(elem) => Some(A::meaning(elem)), None => None }, match elems.1 { Some(elem) => Some(B::meaning(elem)), None => None }, match elems.2 { Some(elem) => Some(C::meaning(elem)), None => None }, match elems.3 { Some(elem) => Some(D::meaning(elem)), None => None }, match elems.4 { Some(elem) => Some(E::meaning(elem)), None => None })
    }

    proof fn constants_agree(columns: &Self::Columns, i: int) {
    }

    proof fn accepts_arity(dtypes: Seq<DTypeV>) {
    }

    proof fn rows_are_local(a: Seq<ArrayV>, i: int, b: Seq<ArrayV>, j: int) {
        assert(a[0].cells[i].value == b[0].cells[j].value);
        assert(a[1].cells[i].value == b[1].cells[j].value);
        assert(a[2].cells[i].value == b[2].cells[j].value);
        assert(a[3].cells[i].value == b[3].cells[j].value);
        assert(a[4].cells[i].value == b[4].cells[j].value);
    }

    fn validate(dtypes: &Vec<DType>) -> (out: VortexResult<()>) {
        if dtypes.len() != 5 {
            return Err(wrong_count_error(5, dtypes.len()));
        }
        if let Err(error) = A::validate(&dtypes[0]) {
            return Err(error);
        }
        if let Err(error) = B::validate(&dtypes[1]) {
            return Err(error);
        }
        if let Err(error) = C::validate(&dtypes[2]) {
            return Err(error);
        }
        if let Err(error) = D::validate(&dtypes[3]) {
            return Err(error);
        }
        if let Err(error) = E::validate(&dtypes[4]) {
            return Err(error);
        }
        Ok(())
    }

    fn decode(args: &ExecutionArgs) -> (out: VortexResult<Self::Columns>) {
        assert(args@[0] == args.inputs@[0]@ && args@[0].len() == args.row_count);
        let c0 = match ArgColumn::<A>::decode(&args.inputs[0]) {
            Ok(column) => column,
            Err(error) => return Err(error),
        };
        assert(args@[1] == args.inputs@[1]@ && args@[1].len() == args.row_count);
        let c1 = match ArgColumn::<B>::decode(&args.inputs[1]) {
            Ok(column) => column,
            Err(error) => return Err(error),
        };
        assert(args@[2] == args.inputs@[2]@ && args@[2].len() == args.row_count);
        let c2 = match ArgColumn::<C>::decode(&args.inputs[2]) {
            Ok(column) => column,
            Err(error) => return Err(error),
        };
        assert(args@[3] == args.inputs@[3]@ && args@[3].len() == args.row_count);
        let c3 = match ArgColumn::<D>::decode(&args.inputs[3]) {
            Ok(column) => column,
            Err(error) => return Err(error),
        };
        assert(args@[4] == args.inputs@[4]@ && args@[4].len() == args.row_count);
        let c4 = match ArgColumn::<E>::decode(&args.inputs[4]) {
            Ok(column) => column,
            Err(error) => return Err(error),
        };
        let columns = (c0, c1, c2, c3, c4);
        proof {
            if Self::dense_safe() || !tuple::some_null_constant(args@) {
                assert(columns.0.stride == 0 ==> args@[0].len() > 0 && (A::dense_safe() || !tuple::null_constant(args@[0])));
                assert(columns.0.stride == 0 ==> columns.0.can_get(0));
                assert(columns.1.stride == 0 ==> args@[1].len() > 0 && (B::dense_safe() || !tuple::null_constant(args@[1])));
                assert(columns.1.stride == 0 ==> columns.1.can_get(0));
                assert(columns.2.stride == 0 ==> args@[2].len() > 0 && (C::dense_safe() || !tuple::null_constant(args@[2])));
                assert(columns.2.stride == 0 ==> columns.2.can_get(0));
                assert(columns.3.stride == 0 ==> args@[3].len() > 0 && (D::dense_safe() || !tuple::null_constant(args@[3])));
                assert(columns.3.stride == 0 ==> columns.3.can_get(0));
                assert(columns.4.stride == 0 ==> args@[4].len() > 0 && (E::dense_safe() || !tuple::null_constant(args@[4])));
                assert(columns.4.stride == 0 ==> columns.4.can_get(0));
                assert(Self::can_get_constants(&columns));
            }
            assert forall|r: int|
                0 <= r < args.row_count && (Self::dense_safe() || vtable::valid_at(args@, r)) implies (
            #[trigger] Self::can_get(&columns, r)) && Self::at(&columns, r) == Self::row_at(
                args@,
                r,
            ) by {
                assert((A::dense_safe() || args@[0].cells[r].valid) && columns.0.can_get(r));
                assert((B::dense_safe() || args@[1].cells[r].valid) && columns.1.can_get(r));
                assert((C::dense_safe() || args@[2].cells[r].valid) && columns.2.can_get(r));
                assert((D::dense_safe() || args@[3].cells[r].valid) && columns.3.can_get(r));
                assert((E::dense_safe() || args@[4].cells[r].valid) && columns.4.can_get(r));
            }
        }
        Ok(columns)
    }

    fn decode_null_tolerant(args: &ExecutionArgs) -> (out: VortexResult<Option<Self::Columns>>) {
        assert(args@[0] == args.inputs@[0]@ && args@[0].len() == args.row_count);
        let c0 = match ArgColumn::<A>::decode_null_tolerant(&args.inputs[0]) {
            Ok(Some(column)) => column,
            Ok(None) => return Ok(None),
            Err(error) => return Err(error),
        };
        assert(args@[1] == args.inputs@[1]@ && args@[1].len() == args.row_count);
        let c1 = match ArgColumn::<B>::decode_null_tolerant(&args.inputs[1]) {
            Ok(Some(column)) => column,
            Ok(None) => return Ok(None),
            Err(error) => return Err(error),
        };
        assert(args@[2] == args.inputs@[2]@ && args@[2].len() == args.row_count);
        let c2 = match ArgColumn::<C>::decode_null_tolerant(&args.inputs[2]) {
            Ok(Some(column)) => column,
            Ok(None) => return Ok(None),
            Err(error) => return Err(error),
        };
        assert(args@[3] == args.inputs@[3]@ && args@[3].len() == args.row_count);
        let c3 = match ArgColumn::<D>::decode_null_tolerant(&args.inputs[3]) {
            Ok(Some(column)) => column,
            Ok(None) => return Ok(None),
            Err(error) => return Err(error),
        };
        assert(args@[4] == args.inputs@[4]@ && args@[4].len() == args.row_count);
        let c4 = match ArgColumn::<E>::decode_null_tolerant(&args.inputs[4]) {
            Ok(Some(column)) => column,
            Ok(None) => return Ok(None),
            Err(error) => return Err(error),
        };
        let columns = (c0, c1, c2, c3, c4);
        proof {
            if !tuple::some_null_constant(args@) {
                assert(columns.0.stride == 0 ==> args@[0].len() > 0 && (!tuple::null_constant(args@[0])));
                assert(columns.0.stride == 0 ==> columns.0.can_get(0));
                assert(columns.1.stride == 0 ==> args@[1].len() > 0 && (!tuple::null_constant(args@[1])));
                assert(columns.1.stride == 0 ==> columns.1.can_get(0));
                assert(columns.2.stride == 0 ==> args@[2].len() > 0 && (!tuple::null_constant(args@[2])));
                assert(columns.2.stride == 0 ==> columns.2.can_get(0));
                assert(columns.3.stride == 0 ==> args@[3].len() > 0 && (!tuple::null_constant(args@[3])));
                assert(columns.3.stride == 0 ==> columns.3.can_get(0));
                assert(columns.4.stride == 0 ==> args@[4].len() > 0 && (!tuple::null_constant(args@[4])));
                assert(columns.4.stride == 0 ==> columns.4.can_get(0));
                assert(Self::can_get_constants(&columns));
            }
            assert forall|r: int| 0 <= r < args.row_count && vtable::valid_at(args@, r) implies (
            #[trigger] Self::can_get(&columns, r)) && Self::at(&columns, r) == Self::row_at(
                args@,
                r,
            ) by {
                assert(args@[0].cells[r].valid && columns.0.can_get(r));
                assert(args@[1].cells[r].valid && columns.1.can_get(r));
                assert(args@[2].cells[r].valid && columns.2.can_get(r));
                assert(args@[3].cells[r].valid && columns.3.can_get(r));
                assert(args@[4].cells[r].valid && columns.4.can_get(r));
            }
        }
        Ok(Some(columns))
    }

    fn get<'a>(columns: &'a Self::Columns, index: usize) -> (out: Self::Elems<'a>) {
        (columns.0.get(index), columns.1.get(index), columns.2.get(index), columns.3.get(index), columns.4.get(index))
    }

    fn constants<'a>(columns: &'a Self::Columns) -> (out: Self::ConstElems<'a>) {
        (columns.0.constant(), columns.1.constant(), columns.2.constant(), columns.3.constant(), columns.4.constant())
    }

    fn rows_match(columns: &Self::Columns, rows: usize) -> (out: bool) {
        columns.0.rows_match(rows) && columns.1.rows_match(rows) && columns.2.rows_match(rows) && columns.3.rows_match(rows) && columns.4.rows_match(rows)
    }
}

impl<A: InputElement, B: InputElement, C: InputElement, D: InputElement, E: InputElement, F: InputElement> ElementTuple for (A, B, C, D, E, F) {
    type Columns = (ArgColumn<A>, ArgColumn<B>, ArgColumn<C>, ArgColumn<D>, ArgColumn<E>, ArgColumn<F>);

    type Elems<'a> = (A::Elem<'a>, B::Elem<'a>, C::Elem<'a>, D::Elem<'a>, E::Elem<'a>, F::Elem<'a>);

    type ConstElems<'a> = (Option<A::Elem<'a>>, Option<B::Elem<'a>>, Option<C::Elem<'a>>, Option<D::Elem<'a>>, Option<E::Elem<'a>>, Option<F::Elem<'a>>);

    type V = (A::V, B::V, C::V, D::V, E::V, F::V);

    type ConstV = (Option<A::V>, Option<B::V>, Option<C::V>, Option<D::V>, Option<E::V>, Option<F::V>);

    const ARITY: usize = 6;

    const DENSE_SAFE: bool = A::DENSE_SAFE && B::DENSE_SAFE && C::DENSE_SAFE && D::DENSE_SAFE && E::DENSE_SAFE && F::DENSE_SAFE;

    const DECODE_FALLIBLE: bool = A::DECODE_FALLIBLE || B::DECODE_FALLIBLE || C::DECODE_FALLIBLE || D::DECODE_FALLIBLE || E::DECODE_FALLIBLE || F::DECODE_FALLIBLE;

    const FILTERED_DECODE_COST: usize = A::DECODE_SHRINKS_WHEN_FILTERED as usize + B::DECODE_SHRINKS_WHEN_FILTERED as usize + C::DECODE_SHRINKS_WHEN_FILTERED as usize + D::DECODE_SHRINKS_WHEN_FILTERED as usize + E::DECODE_SHRINKS_WHEN_FILTERED as usize + F::DECODE_SHRINKS_WHEN_FILTERED as usize;

    open spec fn arity() -> usize {
        6
    }

    open spec fn dense_safe() -> bool {
        A::dense_safe() && B::dense_safe() && C::dense_safe() && D::dense_safe() && E::dense_safe() && F::dense_safe()
    }

    open spec fn decode_fallible() -> bool {
        A::decode_fallible() || B::decode_fallible() || C::decode_fallible() || D::decode_fallible() || E::decode_fallible() || F::decode_fallible()
    }

    open spec fn decode_cost() -> usize {
        ((if A::decode_shrinks() { 1int } else { 0int }) + (if B::decode_shrinks() { 1int } else { 0int }) + (if C::decode_shrinks() { 1int } else { 0int }) + (if D::decode_shrinks() { 1int } else { 0int }) + (if E::decode_shrinks() { 1int } else { 0int }) + (if F::decode_shrinks() { 1int } else { 0int })) as usize
    }

    proof fn constants_hold() {
        A::constants_hold();
        B::constants_hold();
        C::constants_hold();
        D::constants_hold();
        E::constants_hold();
        F::constants_hold();
    }

    open spec fn accepts(dtypes: Seq<DTypeV>) -> Result<(), Seq<char>> {
        if dtypes.len() != 6 {
            Err(tuple::wrong_count(6, dtypes.len()))
        } else {
            tuple::also(A::accepts(dtypes[0]), tuple::also(B::accepts(dtypes[1]), tuple::also(C::accepts(dtypes[2]), tuple::also(D::accepts(dtypes[3]), tuple::also(E::accepts(dtypes[4]), F::accepts(dtypes[5]))))))
        }
    }

    open spec fn decodes(args: Seq<ArrayV>) -> Result<(), Seq<char>> {
        tuple::also(A::decodes(tuple::collapsed(args[0])), tuple::also(B::decodes(tuple::collapsed(args[1])), tuple::also(C::decodes(tuple::collapsed(args[2])), tuple::also(D::decodes(tuple::collapsed(args[3])), tuple::also(E::decodes(tuple::collapsed(args[4])), F::decodes(tuple::collapsed(args[5])))))))
    }

    open spec fn decodes_tolerant(args: Seq<ArrayV>) -> Result<bool, Seq<char>> {
        tuple::also_tolerant(A::decodes_tolerant(tuple::collapsed(args[0])), tuple::also_tolerant(B::decodes_tolerant(tuple::collapsed(args[1])), tuple::also_tolerant(C::decodes_tolerant(tuple::collapsed(args[2])), tuple::also_tolerant(D::decodes_tolerant(tuple::collapsed(args[3])), tuple::also_tolerant(E::decodes_tolerant(tuple::collapsed(args[4])), F::decodes_tolerant(tuple::collapsed(args[5])))))))
    }

    open spec fn row_at(args: Seq<ArrayV>, r: int) -> Self::V {
        (A::reads(args[0].cells[r].value)->Some_0, B::reads(args[1].cells[r].value)->Some_0, C::reads(args[2].cells[r].value)->Some_0, D::reads(args[3].cells[r].value)->Some_0, E::reads(args[4].cells[r].value)->Some_0, F::reads(args[5].cells[r].value)->Some_0)
    }

    open spec fn can_get(columns: &Self::Columns, i: int) -> bool {
        columns.0.can_get(i) && columns.1.can_get(i) && columns.2.can_get(i) && columns.3.can_get(i) && columns.4.can_get(i) && columns.5.can_get(i)
    }

    open spec fn at(columns: &Self::Columns, i: int) -> Self::V {
        (columns.0.at(i), columns.1.at(i), columns.2.at(i), columns.3.at(i), columns.4.at(i), columns.5.at(i))
    }

    open spec fn can_get_constants(columns: &Self::Columns) -> bool {
        (columns.0.stride == 0 ==> columns.0.can_get(0)) && (columns.1.stride == 0 ==> columns.1.can_get(0)) && (columns.2.stride == 0 ==> columns.2.can_get(0)) && (columns.3.stride == 0 ==> columns.3.can_get(0)) && (columns.4.stride == 0 ==> columns.4.can_get(0)) && (columns.5.stride == 0 ==> columns.5.can_get(0))
    }

    open spec fn constants_of(columns: &Self::Columns) -> Self::ConstV {
        (columns.0.shared_element(), columns.1.shared_element(), columns.2.shared_element(), columns.3.shared_element(), columns.4.shared_element(), columns.5.shared_element())
    }

    open spec fn agree(constants: Self::ConstV, row: Self::V) -> bool {
        (constants.0 is Some ==> constants.0 == Some(row.0)) && (constants.1 is Some ==> constants.1 == Some(row.1)) && (constants.2 is Some ==> constants.2 == Some(row.2)) && (constants.3 is Some ==> constants.3 == Some(row.3)) && (constants.4 is Some ==> constants.4 == Some(row.4)) && (constants.5 is Some ==> constants.5 == Some(row.5))
    }

    open spec fn addresses(columns: &Self::Columns, rows: nat) -> bool {
        columns.0.addresses(rows) && columns.1.addresses(rows) && columns.2.addresses(rows) && columns.3.addresses(rows) && columns.4.addresses(rows) && columns.5.addresses(rows)
    }

    open spec fn meaning(elems: Self::Elems<'_>) -> Self::V {
        (A::meaning(elems.0), B::meaning(elems.1), C::meaning(elems.2), D::meaning(elems.3), E::meaning(elems.4), F::meaning(elems.5))
    }

    open spec fn const_meaning(elems: Self::ConstElems<'_>) -> Self::ConstV {
        (match elems.0 { Some(elem) => Some(A::meaning(elem)), None => None }, match elems.1 { Some(elem) => Some(B::meaning(elem)), None => None }, match elems.2 { Some(elem) => Some(C::meaning(elem)), None => None }, match elems.3 { Some(elem) => Some(D::meaning(elem)), None => None }, match elems.4 { Some(elem) => Some(E::meaning(elem)), None => None }, match elems.5 { Some(elem) => Some(F::meaning(elem)), None => None })
    }

    proof fn constants_agree(columns: &Self::Columns, i: int) {
    }

    proof fn accepts_arity(dtypes: Seq<DTypeV>) {
    }

    proof fn rows_are_local(a: Seq<ArrayV>, i: int, b: Seq<ArrayV>, j: int) {
        assert(a[0].cells[i].value == b[0].cells[j].value);
        assert(a[1].cells[i].value == b[1].cells[j].value);
        assert(a[2].cells[i].value == b[2].cells[j].value);
        assert(a[3].cells[i].value == b[3].cells[j].value);
        assert(a[4].cells[i].value == b[4].cells[j].value);
        assert(a[5].cells[i].value == b[5].cells[j].value);
    }

    fn validate(dtypes: &Vec<DType>) -> (out: VortexResult<()>) {
        if dtypes.len() != 6 {
            return Err(wrong_count_error(6, dtypes.len()));
        }
        if let Err(error) = A::validate(&dtypes[0]) {
            return Err(error);
        }
        if let Err(error) = B::validate(&dtypes[1]) {
            return Err(error);
        }
        if let Err(error) = C::validate(&dtypes[2]) {
            return Err(error);
        }
        if let Err(error) = D::validate(&dtypes[3]) {
            return Err(error);
        }
        if let Err(error) = E::validate(&dtypes[4]) {
            return Err(error);
        }
        if let Err(error) = F::validate(&dtypes[5]) {
            return Err(error);
        }
        Ok(())
    }

    fn decode(args: &ExecutionArgs) -> (out: VortexResult<Self::Columns>) {
        assert(args@[0] == args.inputs@[0]@ && args@[0].len() == args.row_count);
        let c0 = match ArgColumn::<A>::decode(&args.inputs[0]) {
            Ok(column) => column,
            Err(error) => return Err(error),
        };
        assert(args@[1] == args.inputs@[1]@ && args@[1].len() == args.row_count);
        let c1 = match ArgColumn::<B>::decode(&args.inputs[1]) {
            Ok(column) => column,
            Err(error) => return Err(error),
        };
        assert(args@[2] == args.inputs@[2]@ && args@[2].len() == args.row_count);
        let c2 = match ArgColumn::<C>::decode(&args.inputs[2]) {
            Ok(column) => column,
            Err(error) => return Err(error),
        };
        assert(args@[3] == args.inputs@[3]@ && args@[3].len() == args.row_count);
        let c3 = match ArgColumn::<D>::decode(&args.inputs[3]) {
            Ok(column) => column,
            Err(error) => return Err(error),
        };
        assert(args@[4] == args.inputs@[4]@ && args@[4].len() == args.row_count);
        let c4 = match ArgColumn::<E>::decode(&args.inputs[4]) {
            Ok(column) => column,
            Err(error) => return Err(error),
        };
        assert(args@[5] == args.inputs@[5]@ && args@[5].len() == args.row_count);
        let c5 = match ArgColumn::<F>::decode(&args.inputs[5]) {
            Ok(column) => column,
            Err(error) => return Err(error),
        };
        let columns = (c0, c1, c2, c3, c4, c5);
        proof {
            if Self::dense_safe() || !tuple::some_null_constant(args@) {
                assert(columns.0.stride == 0 ==> args@[0].len() > 0 && (A::dense_safe() || !tuple::null_constant(args@[0])));
                assert(columns.0.stride == 0 ==> columns.0.can_get(0));
                assert(columns.1.stride == 0 ==> args@[1].len() > 0 && (B::dense_safe() || !tuple::null_constant(args@[1])));
                assert(columns.1.stride == 0 ==> columns.1.can_get(0));
                assert(columns.2.stride == 0 ==> args@[2].len() > 0 && (C::dense_safe() || !tuple::null_constant(args@[2])));
                assert(columns.2.stride == 0 ==> columns.2.can_get(0));
                assert(columns.3.stride == 0 ==> args@[3].len() > 0 && (D::dense_safe() || !tuple::null_constant(args@[3])));
                assert(columns.3.stride == 0 ==> columns.3.can_get(0));
                assert(columns.4.stride == 0 ==> args@[4].len() > 0 && (E::dense_safe() || !tuple::null_constant(args@[4])));
                assert(columns.4.stride == 0 ==> columns.4.can_get(0));
                assert(columns.5.stride == 0 ==> args@[5].len() > 0 && (F::dense_safe() || !tuple::null_constant(args@[5])));
                assert(columns.5.stride == 0 ==> columns.5.can_get(0));
                assert(Self::can_get_constants(&columns));
            }
            assert forall|r: int|
                0 <= r < args.row_count && (Self::dense_safe() || vtable::valid_at(args@, r)) implies (
            #[trigger] Self::can_get(&columns, r)) && Self::at(&columns, r) == Self::row_at(
                args@,
                r,
            ) by {
                assert((A::dense_safe() || args@[0].cells[r].valid) && columns.0.can_get(r));
                assert((B::dense_safe() || args@[1].cells[r].valid) && columns.1.can_get(r));
                assert((C::dense_safe() || args@[2].cells[r].valid) && columns.2.can_get(r));
                assert((D::dense_safe() || args@[3].cells[r].valid) && columns.3.can_get(r));
                assert((E::dense_safe() || args@[4].cells[r].valid) && columns.4.can_get(r));
                assert((F::dense_safe() || args@[5].cells[r].valid) && columns.5.can_get(r));
            }
        }
        Ok(columns)
    }

    fn decode_null_tolerant(args: &ExecutionArgs) -> (out: VortexResult<Option<Self::Columns>>) {
        assert(args@[0] == args.inputs@[0]@ && args@[0].len() == args.row_count);
        let c0 = match ArgColumn::<A>::decode_null_tolerant(&args.inputs[0]) {
            Ok(Some(column)) => column,
            Ok(None) => return Ok(None),
            Err(error) => return Err(error),
        };
        assert(args@[1] == args.inputs@[1]@ && args@[1].len() == args.row_count);
        let c1 = match ArgColumn::<B>::decode_null_tolerant(&args.inputs[1]) {
            Ok(Some(column)) => column,
            Ok(None) => return Ok(None),
            Err(error) => return Err(error),
        };
        assert(args@[2] == args.inputs@[2]@ && args@[2].len() == args.row_count);
        let c2 = match ArgColumn::<C>::decode_null_tolerant(&args.inputs[2]) {
            Ok(Some(column)) => column,
            Ok(None) => return Ok(None),
            Err(error) => return Err(error),
        };
        assert(args@[3] == args.inputs@[3]@ && args@[3].len() == args.row_count);
        let c3 = match ArgColumn::<D>::decode_null_tolerant(&args.inputs[3]) {
            Ok(Some(column)) => column,
            Ok(None) => return Ok(None),
            Err(error) => return Err(error),
        };
        assert(args@[4] == args.inputs@[4]@ && args@[4].len() == args.row_count);
        let c4 = match ArgColumn::<E>::decode_null_tolerant(&args.inputs[4]) {
            Ok(Some(column)) => column,
            Ok(None) => return Ok(None),
            Err(error) => return Err(error),
        };
        assert(args@[5] == args.inputs@[5]@ && args@[5].len() == args.row_count);
        let c5 = match ArgColumn::<F>::decode_null_tolerant(&args.inputs[5]) {
            Ok(Some(column)) => column,
            Ok(None) => return Ok(None),
            Err(error) => return Err(error),
        };
        let columns = (c0, c1, c2, c3, c4, c5);
        proof {
            if !tuple::some_null_constant(args@) {
                assert(columns.0.stride == 0 ==> args@[0].len() > 0 && (!tuple::null_constant(args@[0])));
                assert(columns.0.stride == 0 ==> columns.0.can_get(0));
                assert(columns.1.stride == 0 ==> args@[1].len() > 0 && (!tuple::null_constant(args@[1])));
                assert(columns.1.stride == 0 ==> columns.1.can_get(0));
                assert(columns.2.stride == 0 ==> args@[2].len() > 0 && (!tuple::null_constant(args@[2])));
                assert(columns.2.stride == 0 ==> columns.2.can_get(0));
                assert(columns.3.stride == 0 ==> args@[3].len() > 0 && (!tuple::null_constant(args@[3])));
                assert(columns.3.stride == 0 ==> columns.3.can_get(0));
                assert(columns.4.stride == 0 ==> args@[4].len() > 0 && (!tuple::null_constant(args@[4])));
                assert(columns.4.stride == 0 ==> columns.4.can_get(0));
                assert(columns.5.stride == 0 ==> args@[5].len() > 0 && (!tuple::null_constant(args@[5])));
                assert(columns.5.stride == 0 ==> columns.5.can_get(0));
                assert(Self::can_get_constants(&columns));
            }
            assert forall|r: int| 0 <= r < args.row_count && vtable::valid_at(args@, r) implies (
            #[trigger] Self::can_get(&columns, r)) && Self::at(&columns, r) == Self::row_at(
                args@,
                r,
            ) by {
                assert(args@[0].cells[r].valid && columns.0.can_get(r));
                assert(args@[1].cells[r].valid && columns.1.can_get(r));
                assert(args@[2].cells[r].valid && columns.2.can_get(r));
                assert(args@[3].cells[r].valid && columns.3.can_get(r));
                assert(args@[4].cells[r].valid && columns.4.can_get(r));
                assert(args@[5].cells[r].valid && columns.5.can_get(r));
            }
        }
        Ok(Some(columns))
    }

    fn get<'a>(columns: &'a Self::Columns, index: usize) -> (out: Self::Elems<'a>) {
        (columns.0.get(index), columns.1.get(index), columns.2.get(index), columns.3.get(index), columns.4.get(index), columns.5.get(index))
    }

    fn constants<'a>(columns: &'a Self::Columns) -> (out: Self::ConstElems<'a>) {
        (columns.0.constant(), columns.1.constant(), columns.2.constant(), columns.3.constant(), columns.4.constant(), columns.5.constant())
    }

    fn rows_match(columns: &Self::Columns, rows: usize) -> (out: bool) {
        columns.0.rows_match(rows) && columns.1.rows_match(rows) && columns.2.rows_match(rows) && columns.3.rows_match(rows) && columns.4.rows_match(rows) && columns.5.rows_match(rows)
    }
}

impl<A: InputElement, B: InputElement, C: InputElement, D: InputElement, E: InputElement, F: InputElement, G: InputElement> ElementTuple for (A, B, C, D, E, F, G) {
    type Columns = (ArgColumn<A>, ArgColumn<B>, ArgColumn<C>, ArgColumn<D>, ArgColumn<E>, ArgColumn<F>, ArgColumn<G>);

    type Elems<'a> = (A::Elem<'a>, B::Elem<'a>, C::Elem<'a>, D::Elem<'a>, E::Elem<'a>, F::Elem<'a>, G::Elem<'a>);

    type ConstElems<'a> = (Option<A::Elem<'a>>, Option<B::Elem<'a>>, Option<C::Elem<'a>>, Option<D::Elem<'a>>, Option<E::Elem<'a>>, Option<F::Elem<'a>>, Option<G::Elem<'a>>);

    type V = (A::V, B::V, C::V, D::V, E::V, F::V, G::V);

    type ConstV = (Option<A::V>, Option<B::V>, Option<C::V>, Option<D::V>, Option<E::V>, Option<F::V>, Option<G::V>);

    const ARITY: usize = 7;

    const DENSE_SAFE: bool = A::DENSE_SAFE && B::DENSE_SAFE && C::DENSE_SAFE && D::DENSE_SAFE && E::DENSE_SAFE && F::DENSE_SAFE && G::DENSE_SAFE;

    const DECODE_FALLIBLE: bool = A::DECODE_FALLIBLE || B::DECODE_FALLIBLE || C::DECODE_FALLIBLE || D::DECODE_FALLIBLE || E::DECODE_FALLIBLE || F::DECODE_FALLIBLE || G::DECODE_FALLIBLE;

    const FILTERED_DECODE_COST: usize = A::DECODE_SHRINKS_WHEN_FILTERED as usize + B::DECODE_SHRINKS_WHEN_FILTERED as usize + C::DECODE_SHRINKS_WHEN_FILTERED as usize + D::DECODE_SHRINKS_WHEN_FILTERED as usize + E::DECODE_SHRINKS_WHEN_FILTERED as usize + F::DECODE_SHRINKS_WHEN_FILTERED as usize + G::DECODE_SHRINKS_WHEN_FILTERED as usize;

    open spec fn arity() -> usize {
        7
    }

    open spec fn dense_safe() -> bool {
        A::dense_safe() && B::dense_safe() && C::dense_safe() && D::dense_safe() && E::dense_safe() && F::dense_safe() && G::dense_safe()
    }

    open spec fn decode_fallible() -> bool {
        A::decode_fallible() || B::decode_fallible() || C::decode_fallible() || D::decode_fallible() || E::decode_fallible() || F::decode_fallible() || G::decode_fallible()
    }

    open spec fn decode_cost() -> usize {
        ((if A::decode_shrinks() { 1int } else { 0int }) + (if B::decode_shrinks() { 1int } else { 0int }) + (if C::decode_shrinks() { 1int } else { 0int }) + (if D::decode_shrinks() { 1int } else { 0int }) + (if E::decode_shrinks() { 1int } else { 0int }) + (if F::decode_shrinks() { 1int } else { 0int }) + (if G::decode_shrinks() { 1int } else { 0int })) as usize
    }

    proof fn constants_hold() {
        A::constants_hold();
        B::constants_hold();
        C::constants_hold();
        D::constants_hold();
        E::constants_hold();
        F::constants_hold();
        G::constants_hold();
    }

    open spec fn accepts(dtypes: Seq<DTypeV>) -> Result<(), Seq<char>> {
        if dtypes.len() != 7 {
            Err(tuple::wrong_count(7, dtypes.len()))
        } else {
            tuple::also(A::accepts(dtypes[0]), tuple::also(B::accepts(dtypes[1]), tuple::also(C::accepts(dtypes[2]), tuple::also(D::accepts(dtypes[3]), tuple::also(E::accepts(dtypes[4]), tuple::also(F::accepts(dtypes[5]), G::accepts(dtypes[6])))))))
        }
    }

    open spec fn decodes(args: Seq<ArrayV>) -> Result<(), Seq<char>> {
        tuple::also(A::decodes(tuple::collapsed(args[0])), tuple::also(B::decodes(tuple::collapsed(args[1])), tuple::also(C::decodes(tuple::collapsed(args[2])), tuple::also(D::decodes(tuple::collapsed(args[3])), tuple::also(E::decodes(tuple::collapsed(args[4])), tuple::also(F::decodes(tuple::collapsed(args[5])), G::decodes(tuple::collapsed(args[6]))))))))
    }

    open spec fn decodes_tolerant(args: Seq<ArrayV>) -> Result<bool, Seq<char>> {
        tuple::also_tolerant(A::decodes_tolerant(tuple::collapsed(args[0])), tuple::also_tolerant(B::decodes_tolerant(tuple::collapsed(args[1])), tuple::also_tolerant(C::decodes_tolerant(tuple::collapsed(args[2])), tuple::also_tolerant(D::decodes_tolerant(tuple::collapsed(args[3])), tuple::also_tolerant(E::decodes_tolerant(tuple::collapsed(args[4])), tuple::also_tolerant(F::decodes_tolerant(tuple::collapsed(args[5])), G::decodes_tolerant(tuple::collapsed(args[6]))))))))
    }

    open spec fn row_at(args: Seq<ArrayV>, r: int) -> Self::V {
        (A::reads(args[0].cells[r].value)->Some_0, B::reads(args[1].cells[r].value)->Some_0, C::reads(args[2].cells[r].value)->Some_0, D::reads(args[3].cells[r].value)->Some_0, E::reads(args[4].cells[r].value)->Some_0, F::reads(args[5].cells[r].value)->Some_0, G::reads(args[6].cells[r].value)->Some_0)
    }

    open spec fn can_get(columns: &Self::Columns, i: int) -> bool {
        columns.0.can_get(i) && columns.1.can_get(i) && columns.2.can_get(i) && columns.3.can_get(i) && columns.4.can_get(i) && columns.5.can_get(i) && columns.6.can_get(i)
    }

    open spec fn at(columns: &Self::Columns, i: int) -> Self::V {
        (columns.0.at(i), columns.1.at(i), columns.2.at(i), columns.3.at(i), columns.4.at(i), columns.5.at(i), columns.6.at(i))
    }

    open spec fn can_get_constants(columns: &Self::Columns) -> bool {
        (columns.0.stride == 0 ==> columns.0.can_get(0)) && (columns.1.stride == 0 ==> columns.1.can_get(0)) && (columns.2.stride == 0 ==> columns.2.can_get(0)) && (columns.3.stride == 0 ==> columns.3.can_get(0)) && (columns.4.stride == 0 ==> columns.4.can_get(0)) && (columns.5.stride == 0 ==> columns.5.can_get(0)) && (columns.6.stride == 0 ==> columns.6.can_get(0))
    }

    open spec fn constants_of(columns: &Self::Columns) -> Self::ConstV {
        (columns.0.shared_element(), columns.1.shared_element(), columns.2.shared_element(), columns.3.shared_element(), columns.4.shared_element(), columns.5.shared_element(), columns.6.shared_element())
    }

    open spec fn agree(constants: Self::ConstV, row: Self::V) -> bool {
        (constants.0 is Some ==> constants.0 == Some(row.0)) && (constants.1 is Some ==> constants.1 == Some(row.1)) && (constants.2 is Some ==> constants.2 == Some(row.2)) && (constants.3 is Some ==> constants.3 == Some(row.3)) && (constants.4 is Some ==> constants.4 == Some(row.4)) && (constants.5 is Some ==> constants.5 == Some(row.5)) && (constants.6 is Some ==> constants.6 == Some(row.6))
    }

    open spec fn addresses(columns: &Self::Columns, rows: nat) -> bool {
        columns.0.addresses(rows) && columns.1.addresses(rows) && columns.2.addresses(rows) && columns.3.addresses(rows) && columns.4.addresses(rows) && columns.5.addresses(rows) && columns.6.addresses(rows)
    }

    open spec fn meaning(elems: Self::Elems<'_>) -> Self::V {
        (A::meaning(elems.0), B::meaning(elems.1), C::meaning(elems.2), D::meaning(elems.3), E::meaning(elems.4), F::meaning(elems.5), G::meaning(elems.6))
    }

    open spec fn const_meaning(elems: Self::ConstElems<'_>) -> Self::ConstV {
        (match elems.0 { Some(elem) => Some(A::meaning(elem)), None => None }, match elems.1 { Some(elem) => Some(B::meaning(elem)), None => None }, match elems.2 { Some(elem) => Some(C::meaning(elem)), None => None }, match elems.3 { Some(elem) => Some(D::meaning(elem)), None => None }, match elems.4 { Some(elem) => Some(E::meaning(elem)), None => None }, match elems.5 { Some(elem) => Some(F::meaning(elem)), None => None }, match elems.6 { Some(elem) => Some(G::meaning(elem)), None => None })
    }

    proof fn constants_agree(columns: &Self::Columns, i: int) {
    }

    proof fn accepts_arity(dtypes: Seq<DTypeV>) {
    }

    proof fn rows_are_local(a: Seq<ArrayV>, i: int, b: Seq<ArrayV>, j: int) {
        assert(a[0].cells[i].value == b[0].cells[j].value);
        assert(a[1].cells[i].value == b[1].cells[j].value);
        assert(a[2].cells[i].value == b[2].cells[j].value);
        assert(a[3].cells[i].value == b[3].cells[j].value);
        assert(a[4].cells[i].value == b[4].cells[j].value);
        assert(a[5].cells[i].value == b[5].cells[j].value);
        assert(a[6].cells[i].value == b[6].cells[j].value);
    }

    fn validate(dtypes: &Vec<DType>) -> (out: VortexResult<()>) {
        if dtypes.len() != 7 {
            return Err(wrong_count_error(7, dtypes.len()));
        }
        if let Err(error) = A::validate(&dtypes[0]) {
            return Err(error);
        }
        if let Err(error) = B::validate(&dtypes[1]) {
            return Err(error);
        }
        if let Err(error) = C::validate(&dtypes[2]) {
            return Err(error);
        }
        if let Err(error) = D::validate(&dtypes[3]) {
            return Err(error);
        }
        if let Err(error) = E::validate(&dtypes[4]) {
            return Err(error);
        }
        if let Err(error) = F::validate(&dtypes[5]) {
            return Err(error);
        }
        if let Err(error) = G::validate(&dtypes[6]) {
            return Err(error);
        }
        Ok(())
    }

    fn decode(args: &ExecutionArgs) -> (out: VortexResult<Self::Columns>) {
        assert(args@[0] == args.inputs@[0]@ && args@[0].len() == args.row_count);
        let c0 = match ArgColumn::<A>::decode(&args.inputs[0]) {
            Ok(column) => column,
            Err(error) => return Err(error),
        };
        assert(args@[1] == args.inputs@[1]@ && args@[1].len() == args.row_count);
        let c1 = match ArgColumn::<B>::decode(&args.inputs[1]) {
            Ok(column) => column,
            Err(error) => return Err(error),
        };
        assert(args@[2] == args.inputs@[2]@ && args@[2].len() == args.row_count);
        let c2 = match ArgColumn::<C>::decode(&args.inputs[2]) {
            Ok(column) => column,
            Err(error) => return Err(error),
        };
        assert(args@[3] == args.inputs@[3]@ && args@[3].len() == args.row_count);
        let c3 = match ArgColumn::<D>::decode(&args.inputs[3]) {
            Ok(column) => column,
            Err(error) => return Err(error),
        };
        assert(args@[4] == args.inputs@[4]@ && args@[4].len() == args.row_count);
        let c4 = match ArgColumn::<E>::decode(&args.inputs[4]) {
            Ok(column) => column,
            Err(error) => return Err(error),
        };
        assert(args@[5] == args.inputs@[5]@ && args@[5].len() == args.row_count);
        let c5 = match ArgColumn::<F>::decode(&args.inputs[5]) {
            Ok(column) => column,
            Err(error) => return Err(error),
        };
        assert(args@[6] == args.inputs@[6]@ && args@[6].len() == args.row_count);
        let c6 = match ArgColumn::<G>::decode(&args.inputs[6]) {
            Ok(column) => column,
            Err(error) => return Err(error),
        };
        let columns = (c0, c1, c2, c3, c4, c5, c6);
        proof {
            if Self::dense_safe() || !tuple::some_null_constant(args@) {
                assert(columns.0.stride == 0 ==> args@[0].len() > 0 && (A::dense_safe() || !tuple::null_constant(args@[0])));
                assert(columns.0.stride == 0 ==> columns.0.can_get(0));
                assert(columns.1.stride == 0 ==> args@[1].len() > 0 && (B::dense_safe() || !tuple::null_constant(args@[1])));
                assert(columns.1.stride == 0 ==> columns.1.can_get(0));
                assert(columns.2.stride == 0 ==> args@[2].len() > 0 && (C::dense_safe() || !tuple::null_constant(args@[2])));
                assert(columns.2.stride == 0 ==> columns.2.can_get(0));
                assert(columns.3.stride == 0 ==> args@[3].len() > 0 && (D::dense_safe() || !tuple::null_constant(args@[3])));
                assert(columns.3.stride == 0 ==> columns.3.can_get(0));
                assert(columns.4.stride == 0 ==> args@[4].len() > 0 && (E::dense_safe() || !tuple::null_constant(args@[4])));
                assert(columns.4.stride == 0 ==> columns.4.can_get(0));
                assert(columns.5.stride == 0 ==> args@[5].len() > 0 && (F::dense_safe() || !tuple::null_constant(args@[5])));
                assert(columns.5.stride == 0 ==> columns.5.can_get(0));
                assert(columns.6.stride == 0 ==> args@[6].len() > 0 && (G::dense_safe() || !tuple::null_constant(args@[6])));
                assert(columns.6.stride == 0 ==> columns.6.can_get(0));
                assert(Self::can_get_constants(&columns));
            }
            assert forall|r: int|
                0 <= r < args.row_count && (Self::dense_safe() || vtable::valid_at(args@, r)) implies (
            #[trigger] Self::can_get(&columns, r)) && Self::at(&columns, r) == Self::row_at(
                args@,
                r,
            ) by {
                assert((A::dense_safe() || args@[0].cells[r].valid) && columns.0.can_get(r));
                assert((B::dense_safe() || args@[1].cells[r].valid) && columns.1.can_get(r));
                assert((C::dense_safe() || args@[2].cells[r].valid) && columns.2.can_get(r));
                assert((D::dense_safe() || args@[3].cells[r].valid) && columns.3.can_get(r));
                assert((E::dense_safe() || args@[4].cells[r].valid) && columns.4.can_get(r));
                assert((F::dense_safe() || args@[5].cells[r].valid) && columns.5.can_get(r));
                assert((G::dense_safe() || args@[6].cells[r].valid) && columns.6.can_get(r));
            }
        }
        Ok(columns)
    }

    fn decode_null_tolerant(args: &ExecutionArgs) -> (out: VortexResult<Option<Self::Columns>>) {
        assert(args@[0] == args.inputs@[0]@ && args@[0].len() == args.row_count);
        let c0 = match ArgColumn::<A>::decode_null_tolerant(&args.inputs[0]) {
            Ok(Some(column)) => column,
            Ok(None) => return Ok(None),
            Err(error) => return Err(error),
        };
        assert(args@[1] == args.inputs@[1]@ && args@[1].len() == args.row_count);
        let c1 = match ArgColumn::<B>::decode_null_tolerant(&args.inputs[1]) {
            Ok(Some(column)) => column,
            Ok(None) => return Ok(None),
            Err(error) => return Err(error),
        };
        assert(args@[2] == args.inputs@[2]@ && args@[2].len() == args.row_count);
        let c2 = match ArgColumn::<C>::decode_null_tolerant(&args.inputs[2]) {
            Ok(Some(column)) => column,
            Ok(None) => return Ok(None),
            Err(error) => return Err(error),
        };
        assert(args@[3] == args.inputs@[3]@ && args@[3].len() == args.row_count);
        let c3 = match ArgColumn::<D>::decode_null_tolerant(&args.inputs[3]) {
            Ok(Some(column)) => column,
            Ok(None) => return Ok(None),
            Err(error) => return Err(error),
        };
        assert(args@[4] == args.inputs@[4]@ && args@[4].len() == args.row_count);
        let c4 = match ArgColumn::<E>::decode_null_tolerant(&args.inputs[4]) {
            Ok(Some(column)) => column,
            Ok(None) => return Ok(None),
            Err(error) => return Err(error),
        };
        assert(args@[5] == args.inputs@[5]@ && args@[5].len() == args.row_count);
        let c5 = match ArgColumn::<F>::decode_null_tolerant(&args.inputs[5]) {
            Ok(Some(column)) => column,
            Ok(None) => return Ok(None),
            Err(error) => return Err(error),
        };
        assert(args@[6] == args.inputs@[6]@ && args@[6].len() == args.row_count);
        let c6 = match ArgColumn::<G>::decode_null_tolerant(&args.inputs[6]) {
            Ok(Some(column)) => column,
            Ok(None) => return Ok(None),
            Err(error) => return Err(error),
        };
        let columns = (c0, c1, c2, c3, c4, c5, c6);
        proof {
            if !tuple::some_null_constant(args@) {
                assert(columns.0.stride == 0 ==> args@[0].len() > 0 && (!tuple::null_constant(args@[0])));
                assert(columns.0.stride == 0 ==> columns.0.can_get(0));
                assert(columns.1.stride == 0 ==> args@[1].len() > 0 && (!tuple::null_constant(args@[1])));
                assert(columns.1.stride == 0 ==> columns.1.can_get(0));
                assert(columns.2.stride == 0 ==> args@[2].len() > 0 && (!tuple::null_constant(args@[2])));
                assert(columns.2.stride == 0 ==> columns.2.can_get(0));
                assert(columns.3.stride == 0 ==> args@[3].len() > 0 && (!tuple::null_constant(args@[3])));
                assert(columns.3.stride == 0 ==> columns.3.can_get(0));
                assert(columns.4.stride == 0 ==> args@[4].len() > 0 && (!tuple::null_constant(args@[4])));
                assert(columns.4.stride == 0 ==> columns.4.can_get(0));
                assert(columns.5.stride == 0 ==> args@[5].len() > 0 && (!tuple::null_constant(args@[5])));
                assert(columns.5.stride == 0 ==> columns.5.can_get(0));
                assert(columns.6.stride == 0 ==> args@[6].len() > 0 && (!tuple::null_constant(args@[6])));
                assert(columns.6.stride == 0 ==> columns.6.can_get(0));
                assert(Self::can_get_constants(&columns));
            }
            assert forall|r: int| 0 <= r < args.row_count && vtable::valid_at(args@, r) implies (
            #[trigger] Self::can_get(&columns, r)) && Self::at(&columns, r) == Self::row_at(
                args@,
                r,
            ) by {
                assert(args@[0].cells[r].valid && columns.0.can_get(r));
                assert(args@[1].cells[r].valid && columns.1.can_get(r));
                assert(args@[2].cells[r].valid && columns.2.can_get(r));
                assert(args@[3].cells[r].valid && columns.3.can_get(r));
                assert(args@[4].cells[r].valid && columns.4.can_get(r));
                assert(args@[5].cells[r].valid && columns.5.can_get(r));
                assert(args@[6].cells[r].valid && columns.6.can_get(r));
            }
        }
        Ok(Some(columns))
    }

    fn get<'a>(columns: &'a Self::Columns, index: usize) -> (out: Self::Elems<'a>) {
        (columns.0.get(index), columns.1.get(index), columns.2.get(index), columns.3.get(index), columns.4.get(index), columns.5.get(index), columns.6.get(index))
    }

    fn constants<'a>(columns: &'a Self::Columns) -> (out: Self::ConstElems<'a>) {
        (columns.0.constant(), columns.1.constant(), columns.2.constant(), columns.3.constant(), columns.4.constant(), columns.5.constant(), columns.6.constant())
    }

    fn rows_match(columns: &Self::Columns, rows: usize) -> (out: bool) {
        columns.0.rows_match(rows) && columns.1.rows_match(rows) && columns.2.rows_match(rows) && columns.3.rows_match(rows) && columns.4.rows_match(rows) && columns.5.rows_match(rows) && columns.6.rows_match(rows)
    }
}

impl<A: InputElement, B: InputElement, C: InputElement, D: InputElement, E: InputElement, F: InputElement, G: InputElement, H: InputElement> ElementTuple for (A, B, C, D, E, F, G, H) {
    type Columns = (ArgColumn<A>, ArgColumn<B>, ArgColumn<C>, ArgColumn<D>, ArgColumn<E>, ArgColumn<F>, ArgColumn<G>, ArgColumn<H>);

    type Elems<'a> = (A::Elem<'a>, B::Elem<'a>, C::Elem<'a>, D::Elem<'a>, E::Elem<'a>, F::Elem<'a>, G::Elem<'a>, H::Elem<'a>);

    type ConstElems<'a> = (Option<A::Elem<'a>>, Option<B::Elem<'a>>, Option<C::Elem<'a>>, Option<D::Elem<'a>>, Option<E::Elem<'a>>, Option<F::Elem<'a>>, Option<G::Elem<'a>>, Option<H::Elem<'a>>);

    type V = (A::V, B::V, C::V, D::V, E::V, F::V, G::V, H::V);

    type ConstV = (Option<A::V>, Option<B::V>, Option<C::V>, Option<D::V>, Option<E::V>, Option<F::V>, Option<G::V>, Option<H::V>);

    const ARITY: usize = 8;

    const DENSE_SAFE: bool = A::DENSE_SAFE && B::DENSE_SAFE && C::DENSE_SAFE && D::DENSE_SAFE && E::DENSE_SAFE && F::DENSE_SAFE && G::DENSE_SAFE && H::DENSE_SAFE;

    const DECODE_FALLIBLE: bool = A::DECODE_FALLIBLE || B::DECODE_FALLIBLE || C::DECODE_FALLIBLE || D::DECODE_FALLIBLE || E::DECODE_FALLIBLE || F::DECODE_FALLIBLE || G::DECODE_FALLIBLE || H::DECODE_FALLIBLE;

    const FILTERED_DECODE_COST: usize = A::DECODE_SHRINKS_WHEN_FILTERED as usize + B::DECODE_SHRINKS_WHEN_FILTERED as usize + C::DECODE_SHRINKS_WHEN_FILTERED as usize + D::DECODE_SHRINKS_WHEN_FILTERED as usize + E::DECODE_SHRINKS_WHEN_FILTERED as usize + F::DECODE_SHRINKS_WHEN_FILTERED as usize + G::DECODE_SHRINKS_WHEN_FILTERED as usize + H::DECODE_SHRINKS_WHEN_FILTERED as usize;

    open spec fn arity() -> usize {
        8
    }

    open spec fn dense_safe() -> bool {
        A::dense_safe() && B::dense_safe() && C::dense_safe() && D::dense_safe() && E::dense_safe() && F::dense_safe() && G::dense_safe() && H::dense_safe()
    }

    open spec fn decode_fallible() -> bool {
        A::decode_fallible() || B::decode_fallible() || C::decode_fallible() || D::decode_fallible() || E::decode_fallible() || F::decode_fallible() || G::decode_fallible() || H::decode_fallible()
    }

    open spec fn decode_cost() -> usize {
        ((if A::decode_shrinks() { 1int } else { 0int }) + (if B::decode_shrinks() { 1int } else { 0int }) + (if C::decode_shrinks() { 1int } else { 0int }) + (if D::decode_shrinks() { 1int } else { 0int }) + (if E::decode_shrinks() { 1int } else { 0int }) + (if F::decode_shrinks() { 1int } else { 0int }) + (if G::decode_shrinks() { 1int } else { 0int }) + (if H::decode_shrinks() { 1int } else { 0int })) as usize
    }

    proof fn constants_hold() {
        A::constants_hold();
        B::constants_hold();
        C::constants_hold();
        D::constants_hold();
        E::constants_hold();
        F::constants_hold();
        G::constants_hold();
        H::constants_hold();
    }

    open spec fn accepts(dtypes: Seq<DTypeV>) -> Result<(), Seq<char>> {
        if dtypes.len() != 8 {
            Err(tuple::wrong_count(8, dtypes.len()))
        } else {
            tuple::also(A::accepts(dtypes[0]), tuple::also(B::accepts(dtypes[1]), tuple::also(C::accepts(dtypes[2]), tuple::also(D::accepts(dtypes[3]), tuple::also(E::accepts(dtypes[4]), tuple::also(F::accepts(dtypes[5]), tuple::also(G::accepts(dtypes[6]), H::accepts(dtypes[7]))))))))
        }
    }

    open spec fn decodes(args: Seq<ArrayV>) -> Result<(), Seq<char>> {
        tuple::also(A::decodes(tuple::collapsed(args[0])), tuple::also(B::decodes(tuple::collapsed(args[1])), tuple::also(C::decodes(tuple::collapsed(args[2])), tuple::also(D::decodes(tuple::collapsed(args[3])), tuple::also(E::decodes(tuple::collapsed(args[4])), tuple::also(F::decodes(tuple::collapsed(args[5])), tuple::also(G::decodes(tuple::collapsed(args[6])), H::decodes(tuple::collapsed(args[7])))))))))
    }

    open spec fn decodes_tolerant(args: Seq<ArrayV>) -> Result<bool, Seq<char>> {
        tuple::also_tolerant(A::decodes_tolerant(tuple::collapsed(args[0])), tuple::also_tolerant(B::decodes_tolerant(tuple::collapsed(args[1])), tuple::also_tolerant(C::decodes_tolerant(tuple::collapsed(args[2])), tuple::also_tolerant(D::decodes_tolerant(tuple::collapsed(args[3])), tuple::also_tolerant(E::decodes_tolerant(tuple::collapsed(args[4])), tuple::also_tolerant(F::decodes_tolerant(tuple::collapsed(args[5])), tuple::also_tolerant(G::decodes_tolerant(tuple::collapsed(args[6])), H::decodes_tolerant(tuple::collapsed(args[7])))))))))
    }

    open spec fn row_at(args: Seq<ArrayV>, r: int) -> Self::V {
        (A::reads(args[0].cells[r].value)->Some_0, B::reads(args[1].cells[r].value)->Some_0, C::reads(args[2].cells[r].value)->Some_0, D::reads(args[3].cells[r].value)->Some_0, E::reads(args[4].cells[r].value)->Some_0, F::reads(args[5].cells[r].value)->Some_0, G::reads(args[6].cells[r].value)->Some_0, H::reads(args[7].cells[r].value)->Some_0)
    }

    open spec fn can_get(columns: &Self::Columns, i: int) -> bool {
        columns.0.can_get(i) && columns.1.can_get(i) && columns.2.can_get(i) && columns.3.can_get(i) && columns.4.can_get(i) && columns.5.can_get(i) && columns.6.can_get(i) && columns.7.can_get(i)
    }

    open spec fn at(columns: &Self::Columns, i: int) -> Self::V {
        (columns.0.at(i), columns.1.at(i), columns.2.at(i), columns.3.at(i), columns.4.at(i), columns.5.at(i), columns.6.at(i), columns.7.at(i))
    }

    open spec fn can_get_constants(columns: &Self::Columns) -> bool {
        (columns.0.stride == 0 ==> columns.0.can_get(0)) && (columns.1.stride == 0 ==> columns.1.can_get(0)) && (columns.2.stride == 0 ==> columns.2.can_get(0)) && (columns.3.stride == 0 ==> columns.3.can_get(0)) && (columns.4.stride == 0 ==> columns.4.can_get(0)) && (columns.5.stride == 0 ==> columns.5.can_get(0)) && (columns.6.stride == 0 ==> columns.6.can_get(0)) && (columns.7.stride == 0 ==> columns.7.can_get(0))
    }

    open spec fn constants_of(columns: &Self::Columns) -> Self::ConstV {
        (columns.0.shared_element(), columns.1.shared_element(), columns.2.shared_element(), columns.3.shared_element(), columns.4.shared_element(), columns.5.shared_element(), columns.6.shared_element(), columns.7.shared_element())
    }

    open spec fn agree(constants: Self::ConstV, row: Self::V) -> bool {
        (constants.0 is Some ==> constants.0 == Some(row.0)) && (constants.1 is Some ==> constants.1 == Some(row.1)) && (constants.2 is Some ==> constants.2 == Some(row.2)) && (constants.3 is Some ==> constants.3 == Some(row.3)) && (constants.4 is Some ==> constants.4 == Some(row.4)) && (constants.5 is Some ==> constants.5 == Some(row.5)) && (constants.6 is Some ==> constants.6 == Some(row.6)) && (constants.7 is Some ==> constants.7 == Some(row.7))
    }

    open spec fn addresses(columns: &Self::Columns, rows: nat) -> bool {
        columns.0.addresses(rows) && columns.1.addresses(rows) && columns.2.addresses(rows) && columns.3.addresses(rows) && columns.4.addresses(rows) && columns.5.addresses(rows) && columns.6.addresses(rows) && columns.7.addresses(rows)
    }

    open spec fn meaning(elems: Self::Elems<'_>) -> Self::V {
        (A::meaning(elems.0), B::meaning(elems.1), C::meaning(elems.2), D::meaning(elems.3), E::meaning(elems.4), F::meaning(elems.5), G::meaning(elems.6), H::meaning(elems.7))
    }

    open spec fn const_meaning(elems: Self::ConstElems<'_>) -> Self::ConstV {
        (match elems.0 { Some(elem) => Some(A::meaning(elem)), None => None }, match elems.1 { Some(elem) => Some(B::meaning(elem)), None => None }, match elems.2 { Some(elem) => Some(C::meaning(elem)), None => None }, match elems.3 { Some(elem) => Some(D::meaning(elem)), None => None }, match elems.4 { Some(elem) => Some(E::meaning(elem)), None => None }, match elems.5 { Some(elem) => Some(F::meaning(elem)), None => None }, match elems.6 { Some(elem) => Some(G::meaning(elem)), None => None }, match elems.7 { Some(elem) => Some(H::meaning(elem)), None => None })
    }

    proof fn constants_agree(columns: &Self::Columns, i: int) {
    }

    proof fn accepts_arity(dtypes: Seq<DTypeV>) {
    }

    proof fn rows_are_local(a: Seq<ArrayV>, i: int, b: Seq<ArrayV>, j: int) {
        assert(a[0].cells[i].value == b[0].cells[j].value);
        assert(a[1].cells[i].value == b[1].cells[j].value);
        assert(a[2].cells[i].value == b[2].cells[j].value);
        assert(a[3].cells[i].value == b[3].cells[j].value);
        assert(a[4].cells[i].value == b[4].cells[j].value);
        assert(a[5].cells[i].value == b[5].cells[j].value);
        assert(a[6].cells[i].value == b[6].cells[j].value);
        assert(a[7].cells[i].value == b[7].cells[j].value);
    }

    fn validate(dtypes: &Vec<DType>) -> (out: VortexResult<()>) {
        if dtypes.len() != 8 {
            return Err(wrong_count_error(8, dtypes.len()));
        }
        if let Err(error) = A::validate(&dtypes[0]) {
            return Err(error);
        }
        if let Err(error) = B::validate(&dtypes[1]) {
            return Err(error);
        }
        if let Err(error) = C::validate(&dtypes[2]) {
            return Err(error);
        }
        if let Err(error) = D::validate(&dtypes[3]) {
            return Err(error);
        }
        if let Err(error) = E::validate(&dtypes[4]) {
            return Err(error);
        }
        if let Err(error) = F::validate(&dtypes[5]) {
            return Err(error);
        }
        if let Err(error) = G::validate(&dtypes[6]) {
            return Err(error);
        }
        if let Err(error) = H::validate(&dtypes[7]) {
            return Err(error);
        }
        Ok(())
    }

    fn decode(args: &ExecutionArgs) -> (out: VortexResult<Self::Columns>) {
        assert(args@[0] == args.inputs@[0]@ && args@[0].len() == args.row_count);
        let c0 = match ArgColumn::<A>::decode(&args.inputs[0]) {
            Ok(column) => column,
            Err(error) => return Err(error),
        };
        assert(args@[1] == args.inputs@[1]@ && args@[1].len() == args.row_count);
        let c1 = match ArgColumn::<B>::decode(&args.inputs[1]) {
            Ok(column) => column,
            Err(error) => return Err(error),
        };
        assert(args@[2] == args.inputs@[2]@ && args@[2].len() == args.row_count);
        let c2 = match ArgColumn::<C>::decode(&args.inputs[2]) {
            Ok(column) => column,
            Err(error) => return Err(error),
        };
        assert(args@[3] == args.inputs@[3]@ && args@[3].len() == args.row_count);
        let c3 = match ArgColumn::<D>::decode(&args.inputs[3]) {
            Ok(column) => column,
            Err(error) => return Err(error),
        };
        assert(args@[4] == args.inputs@[4]@ && args@[4].len() == args.row_count);
        let c4 = match ArgColumn::<E>::decode(&args.inputs[4]) {
            Ok(column) => column,
            Err(error) => return Err(error),
        };
        assert(args@[5] == args.inputs@[5]@ && args@[5].len() == args.row_count);
        let c5 = match ArgColumn::<F>::decode(&args.inputs[5]) {
            Ok(column) => column,
            Err(error) => return Err(error),
        };
        assert(args@[6] == args.inputs@[6]@ && args@[6].len() == args.row_count);
        let c6 = match ArgColumn::<G>::decode(&args.inputs[6]) {
            Ok(column) => column,
            Err(error) => return Err(error),
        };
        assert(args@[7] == args.inputs@[7]@ && args@[7].len() == args.row_count);
        let c7 = match ArgColumn::<H>::decode(&args.inputs[7]) {
            Ok(column) => column,
            Err(error) => return Err(error),
        };
        let columns = (c0, c1, c2, c3, c4, c5, c6, c7);
        proof {
            if Self::dense_safe() || !tuple::some_null_constant(args@) {
                assert(columns.0.stride == 0 ==> args@[0].len() > 0 && (A::dense_safe() || !tuple::null_constant(args@[0])));
                assert(columns.0.stride == 0 ==> columns.0.can_get(0));
                assert(columns.1.stride == 0 ==> args@[1].len() > 0 && (B::dense_safe() || !tuple::null_constant(args@[1])));
                assert(columns.1.stride == 0 ==> columns.1.can_get(0));
                assert(columns.2.stride == 0 ==> args@[2].len() > 0 && (C::dense_safe() || !tuple::null_constant(args@[2])));
                assert(columns.2.stride == 0 ==> columns.2.can_get(0));
                assert(columns.3.stride == 0 ==> args@[3].len() > 0 && (D::dense_safe() || !tuple::null_constant(args@[3])));
                assert(columns.3.stride == 0 ==> columns.3.can_get(0));
                assert(columns.4.stride == 0 ==> args@[4].len() > 0 && (E::dense_safe() || !tuple::null_constant(args@[4])));
                assert(columns.4.stride == 0 ==> columns.4.can_get(0));
                assert(columns.5.stride == 0 ==> args@[5].len() > 0 && (F::dense_safe() || !tuple::null_constant(args@[5])));
                assert(columns.5.stride == 0 ==> columns.5.can_get(0));
                assert(columns.6.stride == 0 ==> args@[6].len() > 0 && (G::dense_safe() || !tuple::null_constant(args@[6])));
                assert(columns.6.stride == 0 ==> columns.6.can_get(0));
                assert(columns.7.stride == 0 ==> args@[7].len() > 0 && (H::dense_safe() || !tuple::null_constant(args@[7])));
                assert(columns.7.stride == 0 ==> columns.7.can_get(0));
                assert(Self::can_get_constants(&columns));
            }
            assert forall|r: int|
                0 <= r < args.row_count && (Self::dense_safe() || vtable::valid_at(args@, r)) implies (
            #[trigger] Self::can_get(&columns, r)) && Self::at(&columns, r) == Self::row_at(
                args@,
                r,
            ) by {
                assert((A::dense_safe() || args@[0].cells[r].valid) && columns.0.can_get(r));
                assert((B::dense_safe() || args@[1].cells[r].valid) && columns.1.can_get(r));
                assert((C::dense_safe() || args@[2].cells[r].valid) && columns.2.can_get(r));
                assert((D::dense_safe() || args@[3].cells[r].valid) && columns.3.can_get(r));
                assert((E::dense_safe() || args@[4].cells[r].valid) && columns.4.can_get(r));
                assert((F::dense_safe() || args@[5].cells[r].valid) && columns.5.can_get(r));
                assert((G::dense_safe() || args@[6].cells[r].valid) && columns.6.can_get(r));
                assert((H::dense_safe() || args@[7].cells[r].valid) && columns.7.can_get(r));
            }
        }
        Ok(columns)
    }

    fn decode_null_tolerant(args: &ExecutionArgs) -> (out: VortexResult<Option<Self::Columns>>) {
        assert(args@[0] == args.inputs@[0]@ && args@[0].len() == args.row_count);
        let c0 = match ArgColumn::<A>::decode_null_tolerant(&args.inputs[0]) {
            Ok(Some(column)) => column,
            Ok(None) => return Ok(None),
            Err(error) => return Err(error),
        };
        assert(args@[1] == args.inputs@[1]@ && args@[1].len() == args.row_count);
        let c1 = match ArgColumn::<B>::decode_null_tolerant(&args.inputs[1]) {
            Ok(Some(column)) => column,
            Ok(None) => return Ok(None),
            Err(error) => return Err(error),
        };
        assert(args@[2] == args.inputs@[2]@ && args@[2].len() == args.row_count);
        let c2 = match ArgColumn::<C>::decode_null_tolerant(&args.inputs[2]) {
            Ok(Some(column)) => column,
            Ok(None) => return Ok(None),
            Err(error) => return Err(error),
        };
        assert(args@[3] == args.inputs@[3]@ && args@[3].len() == args.row_count);
        let c3 = match ArgColumn::<D>::decode_null_tolerant(&args.inputs[3]) {
            Ok(Some(column)) => column,
            Ok(None) => return Ok(None),
            Err(error) => return Err(error),
        };
        assert(args@[4] == args.inputs@[4]@ && args@[4].len() == args.row_count);
        let c4 = match ArgColumn::<E>::decode_null_tolerant(&args.inputs[4]) {
            Ok(Some(column)) => column,
            Ok(None) => return Ok(None),
            Err(error) => return Err(error),
        };
        assert(args@[5] == args.inputs@[5]@ && args@[5].len() == args.row_count);
        let c5 = match ArgColumn::<F>::decode_null_tolerant(&args.inputs[5]) {
            Ok(Some(column)) => column,
            Ok(None) => return Ok(None),
            Err(error) => return Err(error),
        };
        assert(args@[6] == args.inputs@[6]@ && args@[6].len() == args.row_count);
        let c6 = match ArgColumn::<G>::decode_null_tolerant(&args.inputs[6]) {
            Ok(Some(column)) => column,
            Ok(None) => return Ok(None),
            Err(error) => return Err(error),
        };
        assert(args@[7] == args.inputs@[7]@ && args@[7].len() == args.row_count);
        let c7 = match ArgColumn::<H>::decode_null_tolerant(&args.inputs[7]) {
            Ok(Some(column)) => column,
            Ok(None) => return Ok(None),
            Err(error) => return Err(error),
        };
        let columns = (c0, c1, c2, c3, c4, c5, c6, c7);
        proof {
            if !tuple::some_null_constant(args@) {
                assert(columns.0.stride == 0 ==> args@[0].len() > 0 && (!tuple::null_constant(args@[0])));
                assert(columns.0.stride == 0 ==> columns.0.can_get(0));
                assert(columns.1.stride == 0 ==> args@[1].len() > 0 && (!tuple::null_constant(args@[1])));
                assert(columns.1.stride == 0 ==> columns.1.can_get(0));
                assert(columns.2.stride == 0 ==> args@[2].len() > 0 && (!tuple::null_constant(args@[2])));
                assert(columns.2.stride == 0 ==> columns.2.can_get(0));
                assert(columns.3.stride == 0 ==> args@[3].len() > 0 && (!tuple::null_constant(args@[3])));
                assert(columns.3.stride == 0 ==> columns.3.can_get(0));
                assert(columns.4.stride == 0 ==> args@[4].len() > 0 && (!tuple::null_constant(args@[4])));
                assert(columns.4.stride == 0 ==> columns.4.can_get(0));
                assert(columns.5.stride == 0 ==> args@[5].len() > 0 && (!tuple::null_constant(args@[5])));
                assert(columns.5.stride == 0 ==> columns.5.can_get(0));
                assert(columns.6.stride == 0 ==> args@[6].len() > 0 && (!tuple::null_constant(args@[6])));
                assert(columns.6.stride == 0 ==> columns.6.can_get(0));
                assert(columns.7.stride == 0 ==> args@[7].len() > 0 && (!tuple::null_constant(args@[7])));
                assert(columns.7.stride == 0 ==> columns.7.can_get(0));
                assert(Self::can_get_constants(&columns));
            }
            assert forall|r: int| 0 <= r < args.row_count && vtable::valid_at(args@, r) implies (
            #[trigger] Self::can_get(&columns, r)) && Self::at(&columns, r) == Self::row_at(
                args@,
                r,
            ) by {
                assert(args@[0].cells[r].valid && columns.0.can_get(r));
                assert(args@[1].cells[r].valid && columns.1.can_get(r));
                assert(args@[2].cells[r].valid && columns.2.can_get(r));
                assert(args@[3].cells[r].valid && columns.3.can_get(r));
                assert(args@[4].cells[r].valid && columns.4.can_get(r));
                assert(args@[5].cells[r].valid && columns.5.can_get(r));
                assert(args@[6].cells[r].valid && columns.6.can_get(r));
                assert(args@[7].cells[r].valid && columns.7.can_get(r));
            }
        }
        Ok(Some(columns))
    }

    fn get<'a>(columns: &'a Self::Columns, index: usize) -> (out: Self::Elems<'a>) {
        (columns.0.get(index), columns.1.get(index), columns.2.get(index), columns.3.get(index), columns.4.get(index), columns.5.get(index), columns.6.get(index), columns.7.get(index))
    }

    fn constants<'a>(columns: &'a Self::Columns) -> (out: Self::ConstElems<'a>) {
        (columns.0.constant(), columns.1.constant(), columns.2.constant(), columns.3.constant(), columns.4.constant(), columns.5.constant(), columns.6.constant(), columns.7.constant())
    }

    fn rows_match(columns: &Self::Columns, rows: usize) -> (out: bool) {
        columns.0.rows_match(rows) && columns.1.rows_match(rows) && columns.2.rows_match(rows) && columns.3.rows_match(rows) && columns.4.rows_match(rows) && columns.5.rows_match(rows) && columns.6.rows_match(rows) && columns.7.rows_match(rows)
    }
}

impl<A: InputElement, B: InputElement, C: InputElement, D: InputElement, E: InputElement, F: InputElement, G: InputElement, H: InputElement, I: InputElement> ElementTuple for (A, B, C, D, E, F, G, H, I) {
    type Columns = (ArgColumn<A>, ArgColumn<B>, ArgColumn<C>, ArgColumn<D>, ArgColumn<E>, ArgColumn<F>, ArgColumn<G>, ArgColumn<H>, ArgColumn<I>);

    type Elems<'a> = (A::Elem<'a>, B::Elem<'a>, C::Elem<'a>, D::Elem<'a>, E::Elem<'a>, F::Elem<'a>, G::Elem<'a>, H::Elem<'a>, I::Elem<'a>);

    type ConstElems<'a> = (Option<A::Elem<'a>>, Option<B::Elem<'a>>, Option<C::Elem<'a>>, Option<D::Elem<'a>>, Option<E::Elem<'a>>, Option<F::Elem<'a>>, Option<G::Elem<'a>>, Option<H::Elem<'a>>, Option<I::Elem<'a>>);

    type V = (A::V, B::V, C::V, D::V, E::V, F::V, G::V, H::V, I::V);

    type ConstV = (Option<A::V>, Option<B::V>, Option<C::V>, Option<D::V>, Option<E::V>, Option<F::V>, Option<G::V>, Option<H::V>, Option<I::V>);

    const ARITY: usize = 9;

    const DENSE_SAFE: bool = A::DENSE_SAFE && B::DENSE_SAFE && C::DENSE_SAFE && D::DENSE_SAFE && E::DENSE_SAFE && F::DENSE_SAFE && G::DENSE_SAFE && H::DENSE_SAFE && I::DENSE_SAFE;

    const DECODE_FALLIBLE: bool = A::DECODE_FALLIBLE || B::DECODE_FALLIBLE || C::DECODE_FALLIBLE || D::DECODE_FALLIBLE || E::DECODE_FALLIBLE || F::DECODE_FALLIBLE || G::DECODE_FALLIBLE || H::DECODE_FALLIBLE || I::DECODE_FALLIBLE;

    const FILTERED_DECODE_COST: usize = A::DECODE_SHRINKS_WHEN_FILTERED as usize + B::DECODE_SHRINKS_WHEN_FILTERED as usize + C::DECODE_SHRINKS_WHEN_FILTERED as usize + D::DECODE_SHRINKS_WHEN_FILTERED as usize + E::DECODE_SHRINKS_WHEN_FILTERED as usize + F::DECODE_SHRINKS_WHEN_FILTERED as usize + G::DECODE_SHRINKS_WHEN_FILTERED as usize + H::DECODE_SHRINKS_WHEN_FILTERED as usize + I::DECODE_SHRINKS_WHEN_FILTERED as usize;

    open spec fn arity() -> usize {
        9
    }

    open spec fn dense_safe() -> bool {
        A::dense_safe() && B::dense_safe() && C::dense_safe() && D::dense_safe() && E::dense_safe() && F::dense_safe() && G::dense_safe() && H::dense_safe() && I::dense_safe()
    }

    open spec fn decode_fallible() -> bool {
        A::decode_fallible() || B::decode_fallible() || C::decode_fallible() || D::decode_fallible() || E::decode_fallible() || F::decode_fallible() || G::decode_fallible() || H::decode_fallible() || I::decode_fallible()
    }

    open spec fn decode_cost() -> usize {
        ((if A::decode_shrinks() { 1int } else { 0int }) + (if B::decode_shrinks() { 1int } else { 0int }) + (if C::decode_shrinks() { 1int } else { 0int }) + (if D::decode_shrinks() { 1int } else { 0int }) + (if E::decode_shrinks() { 1int } else { 0int }) + (if F::decode_shrinks() { 1int } else { 0int }) + (if G::decode_shrinks() { 1int } else { 0int }) + (if H::decode_shrinks() { 1int } else { 0int }) + (if I::decode_shrinks() { 1int } else { 0int })) as usize
    }

    proof fn constants_hold() {
        A::constants_hold();
        B::constants_hold();
        C::constants_hold();
        D::constants_hold();
        E::constants_hold();
        F::constants_hold();
        G::constants_hold();
        H::constants_hold();
        I::constants_hold();
    }

    open spec fn accepts(dtypes: Seq<DTypeV>) -> Result<(), Seq<char>> {
        if dtypes.len() != 9 {
            Err(tuple::wrong_count(9, dtypes.len()))
        } else {
            tuple::also(A::accepts(dtypes[0]), tuple::also(B::accepts(dtypes[1]), tuple::also(C::accepts(dtypes[2]), tuple::also(D::accepts(dtypes[3]), tuple::also(E::accepts(dtypes[4]), tuple::also(F::accepts(dtypes[5]), tuple::also(G::accepts(dtypes[6]), tuple::also(H::accepts(dtypes[7]), I::accepts(dtypes[8])))))))))
        }
    }

    open spec fn decodes(args: Seq<ArrayV>) -> Result<(), Seq<char>> {
        tuple::also(A::decodes(tuple::collapsed(args[0])), tuple::also(B::decodes(tuple::collapsed(args[1])), tuple::also(C::decodes(tuple::collapsed(args[2])), tuple::also(D::decodes(tuple::collapsed(args[3])), tuple::also(E::decodes(tuple::collapsed(args[4])), tuple::also(F::decodes(tuple::collapsed(args[5])), tuple::also(G::decodes(tuple::collapsed(args[6])), tuple::also(H::decodes(tuple::collapsed(args[7])), I::decodes(tuple::collapsed(args[8]))))))))))
    }

    open spec fn decodes_tolerant(args: Seq<ArrayV>) -> Result<bool, Seq<char>> {
        tuple::also_tolerant(A::decodes_tolerant(tuple::collapsed(args[0])), tuple::also_tolerant(B::decodes_tolerant(tuple::collapsed(args[1])), tuple::also_tolerant(C::decodes_tolerant(tuple::collapsed(args[2])), tuple::also_tolerant(D::decodes_tolerant(tuple::collapsed(args[3])), tuple::also_tolerant(E::decodes_tolerant(tuple::collapsed(args[4])), tuple::also_tolerant(F::decodes_tolerant(tuple::collapsed(args[5])), tuple::also_tolerant(G::decodes_tolerant(tuple::collapsed(args[6])), tuple::also_tolerant(H::decodes_tolerant(tuple::collapsed(args[7])), I::decodes_tolerant(tuple::collapsed(args[8]))))))))))
    }

    open spec fn row_at(args: Seq<ArrayV>, r: int) -> Self::V {
        (A::reads(args[0].cells[r].value)->Some_0, B::reads(args[1].cells[r].value)->Some_0, C::reads(args[2].cells[r].value)->Some_0, D::reads(args[3].cells[r].value)->Some_0, E::reads(args[4].cells[r].value)->Some_0, F::reads(args[5].cells[r].value)->Some_0, G::reads(args[6].cells[r].value)->Some_0, H::reads(args[7].cells[r].value)->Some_0, I::reads(args[8].cells[r].value)->Some_0)
    }

    open spec fn can_get(columns: &Self::Columns, i: int) -> bool {
        columns.0.can_get(i) && columns.1.can_get(i) && columns.2.can_get(i) && columns.3.can_get(i) && columns.4.can_get(i) && columns.5.can_get(i) && columns.6.can_get(i) && columns.7.can_get(i) && columns.8.can_get(i)
    }

    open spec fn at(columns: &Self::Columns, i: int) -> Self::V {
        (columns.0.at(i), columns.1.at(i), columns.2.at(i), columns.3.at(i), columns.4.at(i), columns.5.at(i), columns.6.at(i), columns.7.at(i), columns.8.at(i))
    }

    open spec fn can_get_constants(columns: &Self::Columns) -> bool {
        (columns.0.stride == 0 ==> columns.0.can_get(0)) && (columns.1.stride == 0 ==> columns.1.can_get(0)) && (columns.2.stride == 0 ==> columns.2.can_get(0)) && (columns.3.stride == 0 ==> columns.3.can_get(0)) && (columns.4.stride == 0 ==> columns.4.can_get(0)) && (columns.5.stride == 0 ==> columns.5.can_get(0)) && (columns.6.stride == 0 ==> columns.6.can_get(0)) && (columns.7.stride == 0 ==> columns.7.can_get(0)) && (columns.8.stride == 0 ==> columns.8.can_get(0))
    }

    open spec fn constants_of(columns: &Self::Columns) -> Self::ConstV {
        (columns.0.shared_element(), columns.1.shared_element(), columns.2.shared_element(), columns.3.shared_element(), columns.4.shared_element(), columns.5.shared_element(), columns.6.shared_element(), columns.7.shared_element(), columns.8.shared_element())
    }

    open spec fn agree(constants: Self::ConstV, row: Self::V) -> bool {
        (constants.0 is Some ==> constants.0 == Some(row.0)) && (constants.1 is Some ==> constants.1 == Some(row.1)) && (constants.2 is Some ==> constants.2 == Some(row.2)) && (constants.3 is Some ==> constants.3 == Some(row.3)) && (constants.4 is Some ==> constants.4 == Some(row.4)) && (constants.5 is Some ==> constants.5 == Some(row.5)) && (constants.6 is Some ==> constants.6 == Some(row.6)) && (constants.7 is Some ==> constants.7 == Some(row.7)) && (constants.8 is Some ==> constants.8 == Some(row.8))
    }

    open spec fn addresses(columns: &Self::Columns, rows: nat) -> bool {
        columns.0.addresses(rows) && columns.1.addresses(rows) && columns.2.addresses(rows) && columns.3.addresses(rows) && columns.4.addresses(rows) && columns.5.addresses(rows) && columns.6.addresses(rows) && columns.7.addresses(rows) && columns.8.addresses(rows)
    }

    open spec fn meaning(elems: Self::Elems<'_>) -> Self::V {
        (A::meaning(elems.0), B::meaning(elems.1), C::meaning(elems.2), D::meaning(elems.3), E::meaning(elems.4), F::meaning(elems.5), G::meaning(elems.6), H::meaning(elems.7), I::meaning(elems.8))
    }

    open spec fn const_meaning(elems: Self::ConstElems<'_>) -> Self::ConstV {
        (match elems.0 { Some(elem) => Some(A::meaning(elem)), None => None }, match elems.1 { Some(elem) => Some(B::meaning(elem)), None => None }, match elems.2 { Some(elem) => Some(C::meaning(elem)), None => None }, match elems.3 { Some(elem) => Some(D::meaning(elem)), None => None }, match elems.4 { Some(elem) => Some(E::meaning(elem)), None => None }, match elems.5 { Some(elem) => Some(F::meaning(elem)), None => None }, match elems.6 { Some(elem) => Some(G::meaning(elem)), None => None }, match elems.7 { Some(elem) => Some(H::meaning(elem)), None => None }, match elems.8 { Some(elem) => Some(I::meaning(elem)), None => None })
    }

    proof fn constants_agree(columns: &Self::Columns, i: int) {
    }

    proof fn accepts_arity(dtypes: Seq<DTypeV>) {
    }

    proof fn rows_are_local(a: Seq<ArrayV>, i: int, b: Seq<ArrayV>, j: int) {
        assert(a[0].cells[i].value == b[0].cells[j].value);
        assert(a[1].cells[i].value == b[1].cells[j].value);
        assert(a[2].cells[i].value == b[2].cells[j].value);
        assert(a[3].cells[i].value == b[3].cells[j].value);
        assert(a[4].cells[i].value == b[4].cells[j].value);
        assert(a[5].cells[i].value == b[5].cells[j].value);
        assert(a[6].cells[i].value == b[6].cells[j].value);
        assert(a[7].cells[i].value == b[7].cells[j].value);
        assert(a[8].cells[i].value == b[8].cells[j].value);
    }

    fn validate(dtypes: &Vec<DType>) -> (out: VortexResult<()>) {
        if dtypes.len() != 9 {
            return Err(wrong_count_error(9, dtypes.len()));
        }
        if let Err(error) = A::validate(&dtypes[0]) {
            return Err(error);
        }
        if let Err(error) = B::validate(&dtypes[1]) {
            return Err(error);
        }
        if let Err(error) = C::validate(&dtypes[2]) {
            return Err(error);
        }
        if let Err(error) = D::validate(&dtypes[3]) {
            return Err(error);
        }
        if let Err(error) = E::validate(&dtypes[4]) {
            return Err(error);
        }
        if let Err(error) = F::validate(&dtypes[5]) {
            return Err(error);
        }
        if let Err(error) = G::validate(&dtypes[6]) {
            return Err(error);
        }
        if let Err(error) = H::validate(&dtypes[7]) {
            return Err(error);
        }
        if let Err(error) = I::validate(&dtypes[8]) {
            return Err(error);
        }
        Ok(())
    }

    fn decode(args: &ExecutionArgs) -> (out: VortexResult<Self::Columns>) {
        assert(args@[0] == args.inputs@[0]@ && args@[0].len() == args.row_count);
        let c0 = match ArgColumn::<A>::decode(&args.inputs[0]) {
            Ok(column) => column,
            Err(error) => return Err(error),
        };
        assert(args@[1] == args.inputs@[1]@ && args@[1].len() == args.row_count);
        let c1 = match ArgColumn::<B>::decode(&args.inputs[1]) {
            Ok(column) => column,
            Err(error) => return Err(error),
        };
        assert(args@[2] == args.inputs@[2]@ && args@[2].len() == args.row_count);
        let c2 = match ArgColumn::<C>::decode(&args.inputs[2]) {
            Ok(column) => column,
            Err(error) => return Err(error),
        };
        assert(args@[3] == args.inputs@[3]@ && args@[3].len() == args.row_count);
        let c3 = match ArgColumn::<D>::decode(&args.inputs[3]) {
            Ok(column) => column,
            Err(error) => return Err(error),
        };
        assert(args@[4] == args.inputs@[4]@ && args@[4].len() == args.row_count);
        let c4 = match ArgColumn::<E>::decode(&args.inputs[4]) {
            Ok(column) => column,
            Err(error) => return Err(error),
        };
        assert(args@[5] == args.inputs@[5]@ && args@[5].len() == args.row_count);
        let c5 = match ArgColumn::<F>::decode(&args.inputs[5]) {
            Ok(column) => column,
            Err(error) => return Err(error),
        };
        assert(args@[6] == args.inputs@[6]@ && args@[6].len() == args.row_count);
        let c6 = match ArgColumn::<G>::decode(&args.inputs[6]) {
            Ok(column) => column,
            Err(error) => return Err(error),
        };
        assert(args@[7] == args.inputs@[7]@ && args@[7].len() == args.row_count);
        let c7 = match ArgColumn::<H>::decode(&args.inputs[7]) {
            Ok(column) => column,
            Err(error) => return Err(error),
        };
        assert(args@[8] == args.inputs@[8]@ && args@[8].len() == args.row_count);
        let c8 = match ArgColumn::<I>::decode(&args.inputs[8]) {
            Ok(column) => column,
            Err(error) => return Err(error),
        };
        let columns = (c0, c1, c2, c3, c4, c5, c6, c7, c8);
        proof {
            if Self::dense_safe() || !tuple::some_null_constant(args@) {
                assert(columns.0.stride == 0 ==> args@[0].len() > 0 && (A::dense_safe() || !tuple::null_constant(args@[0])));
                assert(columns.0.stride == 0 ==> columns.0.can_get(0));
                assert(columns.1.stride == 0 ==> args@[1].len() > 0 && (B::dense_safe() || !tuple::null_constant(args@[1])));
                assert(columns.1.stride == 0 ==> columns.1.can_get(0));
                assert(columns.2.stride == 0 ==> args@[2].len() > 0 && (C::dense_safe() || !tuple::null_constant(args@[2])));
                assert(columns.2.stride == 0 ==> columns.2.can_get(0));
                assert(columns.3.stride == 0 ==> args@[3].len() > 0 && (D::dense_safe() || !tuple::null_constant(args@[3])));
                assert(columns.3.stride == 0 ==> columns.3.can_get(0));
                assert(columns.4.stride == 0 ==> args@[4].len() > 0 && (E::dense_safe() || !tuple::null_constant(args@[4])));
                assert(columns.4.stride == 0 ==> columns.4.can_get(0));
                assert(columns.5.stride == 0 ==> args@[5].len() > 0 && (F::dense_safe() || !tuple::null_constant(args@[5])));
                assert(columns.5.stride == 0 ==> columns.5.can_get(0));
                assert(columns.6.stride == 0 ==> args@[6].len() > 0 && (G::dense_safe() || !tuple::null_constant(args@[6])));
                assert(columns.6.stride == 0 ==> columns.6.can_get(0));
                assert(columns.7.stride == 0 ==> args@[7].len() > 0 && (H::dense_safe() || !tuple::null_constant(args@[7])));
                assert(columns.7.stride == 0 ==> columns.7.can_get(0));
                assert(columns.8.stride == 0 ==> args@[8].len() > 0 && (I::dense_safe() || !tuple::null_constant(args@[8])));
                assert(columns.8.stride == 0 ==> columns.8.can_get(0));
                assert(Self::can_get_constants(&columns));
            }
            assert forall|r: int|
                0 <= r < args.row_count && (Self::dense_safe() || vtable::valid_at(args@, r)) implies (
            #[trigger] Self::can_get(&columns, r)) && Self::at(&columns, r) == Self::row_at(
                args@,
                r,
            ) by {
                assert((A::dense_safe() || args@[0].cells[r].valid) && columns.0.can_get(r));
                assert((B::dense_safe() || args@[1].cells[r].valid) && columns.1.can_get(r));
                assert((C::dense_safe() || args@[2].cells[r].valid) && columns.2.can_get(r));
                assert((D::dense_safe() || args@[3].cells[r].valid) && columns.3.can_get(r));
                assert((E::dense_safe() || args@[4].cells[r].valid) && columns.4.can_get(r));
                assert((F::dense_safe() || args@[5].cells[r].valid) && columns.5.can_get(r));
                assert((G::dense_safe() || args@[6].cells[r].valid) && columns.6.can_get(r));
                assert((H::dense_safe() || args@[7].cells[r].valid) && columns.7.can_get(r));
                assert((I::dense_safe() || args@[8].cells[r].valid) && columns.8.can_get(r));
            }
        }
        Ok(columns)
    }

    fn decode_null_tolerant(args: &ExecutionArgs) -> (out: VortexResult<Option<Self::Columns>>) {
        assert(args@[0] == args.inputs@[0]@ && args@[0].len() == args.row_count);
        let c0 = match ArgColumn::<A>::decode_null_tolerant(&args.inputs[0]) {
            Ok(Some(column)) => column,
            Ok(None) => return Ok(None),
            Err(error) => return Err(error),
        };
        assert(args@[1] == args.inputs@[1]@ && args@[1].len() == args.row_count);
        let c1 = match ArgColumn::<B>::decode_null_tolerant(&args.inputs[1]) {
            Ok(Some(column)) => column,
            Ok(None) => return Ok(None),
            Err(error) => return Err(error),
        };
        assert(args@[2] == args.inputs@[2]@ && args@[2].len() == args.row_count);
        let c2 = match ArgColumn::<C>::decode_null_tolerant(&args.inputs[2]) {
            Ok(Some(column)) => column,
            Ok(None) => return Ok(None),
            Err(error) => return Err(error),
        };
        assert(args@[3] == args.inputs@[3]@ && args@[3].len() == args.row_count);
        let c3 = match ArgColumn::<D>::decode_null_tolerant(&args.inputs[3]) {
            Ok(Some(column)) => column,
            Ok(None) => return Ok(None),
            Err(error) => return Err(error),
        };
        assert(args@[4] == args.inputs@[4]@ && args@[4].len() == args.row_count);
        let c4 = match ArgColumn::<E>::decode_null_tolerant(&args.inputs[4]) {
            Ok(Some(column)) => column,
            Ok(None) => return Ok(None),
            Err(error) => return Err(error),
        };
        assert(args@[5] == args.inputs@[5]@ && args@[5].len() == args.row_count);
        let c5 = match ArgColumn::<F>::decode_null_tolerant(&args.inputs[5]) {
            Ok(Some(column)) => column,
            Ok(None) => return Ok(None),
            Err(error) => return Err(error),
        };
        assert(args@[6] == args.inputs@[6]@ && args@[6].len() == args.row_count);
        let c6 = match ArgColumn::<G>::decode_null_tolerant(&args.inputs[6]) {
            Ok(Some(column)) => column,
            Ok(None) => return Ok(None),
            Err(error) => return Err(error),
        };
        assert(args@[7] == args.inputs@[7]@ && args@[7].len() == args.row_count);
        let c7 = match ArgColumn::<H>::decode_null_tolerant(&args.inputs[7]) {
            Ok(Some(column)) => column,
            Ok(None) => return Ok(None),
            Err(error) => return Err(error),
        };
        assert(args@[8] == args.inputs@[8]@ && args@[8].len() == args.row_count);
        let c8 = match ArgColumn::<I>::decode_null_tolerant(&args.inputs[8]) {
            Ok(Some(column)) => column,
            Ok(None) => return Ok(None),
            Err(error) => return Err(error),
        };
        let columns = (c0, c1, c2, c3, c4, c5, c6, c7, c8);
        proof {
            if !tuple::some_null_constant(args@) {
                assert(columns.0.stride == 0 ==> args@[0].len() > 0 && (!tuple::null_constant(args@[0])));
                assert(columns.0.stride == 0 ==> columns.0.can_get(0));
                assert(columns.1.stride == 0 ==> args@[1].len() > 0 && (!tuple::null_constant(args@[1])));
                assert(columns.1.stride == 0 ==> columns.1.can_get(0));
                assert(columns.2.stride == 0 ==> args@[2].len() > 0 && (!tuple::null_constant(args@[2])));
                assert(columns.2.stride == 0 ==> columns.2.can_get(0));
                assert(columns.3.stride == 0 ==> args@[3].len() > 0 && (!tuple::null_constant(args@[3])));
                assert(columns.3.stride == 0 ==> columns.3.can_get(0));
                assert(columns.4.stride == 0 ==> args@[4].len() > 0 && (!tuple::null_constant(args@[4])));
                assert(columns.4.stride == 0 ==> columns.4.can_get(0));
                assert(columns.5.stride == 0 ==> args@[5].len() > 0 && (!tuple::null_constant(args@[5])));
                assert(columns.5.stride == 0 ==> columns.5.can_get(0));
                assert(columns.6.stride == 0 ==> args@[6].len() > 0 && (!tuple::null_constant(args@[6])));
                assert(columns.6.stride == 0 ==> columns.6.can_get(0));
                assert(columns.7.stride == 0 ==> args@[7].len() > 0 && (!tuple::null_constant(args@[7])));
                assert(columns.7.stride == 0 ==> columns.7.can_get(0));
                assert(columns.8.stride == 0 ==> args@[8].len() > 0 && (!tuple::null_constant(args@[8])));
                assert(columns.8.stride == 0 ==> columns.8.can_get(0));
                assert(Self::can_get_constants(&columns));
            }
            assert forall|r: int| 0 <= r < args.row_count && vtable::valid_at(args@, r) implies (
            #[trigger] Self::can_get(&columns, r)) && Self::at(&columns, r) == Self::row_at(
                args@,
                r,
            ) by {
                assert(args@[0].cells[r].valid && columns.0.can_get(r));
                assert(args@[1].cells[r].valid && columns.1.can_get(r));
                assert(args@[2].cells[r].valid && columns.2.can_get(r));
                assert(args@[3].cells[r].valid && columns.3.can_get(r));
                assert(args@[4].cells[r].valid && columns.4.can_get(r));
                assert(args@[5].cells[r].valid && columns.5.can_get(r));
                assert(args@[6].cells[r].valid && columns.6.can_get(r));
                assert(args@[7].cells[r].valid && columns.7.can_get(r));
                assert(args@[8].cells[r].valid && columns.8.can_get(r));
            }
        }
        Ok(Some(columns))
    }

    fn get<'a>(columns: &'a Self::Columns, index: usize) -> (out: Self::Elems<'a>) {
        (columns.0.get(index), columns.1.get(index), columns.2.get(index), columns.3.get(index), columns.4.get(index), columns.5.get(index), columns.6.get(index), columns.7.get(index), columns.8.get(index))
    }

    fn constants<'a>(columns: &'a Self::Columns) -> (out: Self::ConstElems<'a>) {
        (columns.0.constant(), columns.1.constant(), columns.2.constant(), columns.3.constant(), columns.4.constant(), columns.5.constant(), columns.6.constant(), columns.7.constant(), columns.8.constant())
    }

    fn rows_match(columns: &Self::Columns, rows: usize) -> (out: bool) {
        columns.0.rows_match(rows) && columns.1.rows_match(rows) && columns.2.rows_match(rows) && columns.3.rows_match(rows) && columns.4.rows_match(rows) && columns.5.rows_match(rows) && columns.6.rows_match(rows) && columns.7.rows_match(rows) && columns.8.rows_match(rows)
    }
}

impl<A: InputElement, B: InputElement, C: InputElement, D: InputElement, E: InputElement, F: InputElement, G: InputElement, H: InputElement, I: InputElement, J: InputElement> ElementTuple for (A, B, C, D, E, F, G, H, I, J) {
    type Columns = (ArgColumn<A>, ArgColumn<B>, ArgColumn<C>, ArgColumn<D>, ArgColumn<E>, ArgColumn<F>, ArgColumn<G>, ArgColumn<H>, ArgColumn<I>, ArgColumn<J>);

    type Elems<'a> = (A::Elem<'a>, B::Elem<'a>, C::Elem<'a>, D::Elem<'a>, E::Elem<'a>, F::Elem<'a>, G::Elem<'a>, H::Elem<'a>, I::Elem<'a>, J::Elem<'a>);

    type ConstElems<'a> = (Option<A::Elem<'a>>, Option<B::Elem<'a>>, Option<C::Elem<'a>>, Option<D::Elem<'a>>, Option<E::Elem<'a>>, Option<F::Elem<'a>>, Option<G::Elem<'a>>, Option<H::Elem<'a>>, Option<I::Elem<'a>>, Option<J::Elem<'a>>);

    type V = (A::V, B::V, C::V, D::V, E::V, F::V, G::V, H::V, I::V, J::V);

    type ConstV = (Option<A::V>, Option<B::V>, Option<C::V>, Option<D::V>, Option<E::V>, Option<F::V>, Option<G::V>, Option<H::V>, Option<I::V>, Option<J::V>);

    const ARITY: usize = 10;

    const DENSE_SAFE: bool = A::DENSE_SAFE && B::DENSE_SAFE && C::DENSE_SAFE && D::DENSE_SAFE && E::DENSE_SAFE && F::DENSE_SAFE && G::DENSE_SAFE && H::DENSE_SAFE && I::DENSE_SAFE && J::DENSE_SAFE;

    const DECODE_FALLIBLE: bool = A::DECODE_FALLIBLE || B::DECODE_FALLIBLE || C::DECODE_FALLIBLE || D::DECODE_FALLIBLE || E::DECODE_FALLIBLE || F::DECODE_FALLIBLE || G::DECODE_FALLIBLE || H::DECODE_FALLIBLE || I::DECODE_FALLIBLE || J::DECODE_FALLIBLE;

    const FILTERED_DECODE_COST: usize = A::DECODE_SHRINKS_WHEN_FILTERED as usize + B::DECODE_SHRINKS_WHEN_FILTERED as usize + C::DECODE_SHRINKS_WHEN_FILTERED as usize + D::DECODE_SHRINKS_WHEN_FILTERED as usize + E::DECODE_SHRINKS_WHEN_FILTERED as usize + F::DECODE_SHRINKS_WHEN_FILTERED as usize + G::DECODE_SHRINKS_WHEN_FILTERED as usize + H::DECODE_SHRINKS_WHEN_FILTERED as usize + I::DECODE_SHRINKS_WHEN_FILTERED as usize + J::DECODE_SHRINKS_WHEN_FILTERED as usize;

    open spec fn arity() -> usize {
        10
    }

    open spec fn dense_safe() -> bool {
        A::dense_safe() && B::dense_safe() && C::dense_safe() && D::dense_safe() && E::dense_safe() && F::dense_safe() && G::dense_safe() && H::dense_safe() && I::dense_safe() && J::dense_safe()
    }

    open spec fn decode_fallible() -> bool {
        A::decode_fallible() || B::decode_fallible() || C::decode_fallible() || D::decode_fallible() || E::decode_fallible() || F::decode_fallible() || G::decode_fallible() || H::decode_fallible() || I::decode_fallible() || J::decode_fallible()
    }

    open spec fn decode_cost() -> usize {
        ((if A::decode_shrinks() { 1int } else { 0int }) + (if B::decode_shrinks() { 1int } else { 0int }) + (if C::decode_shrinks() { 1int } else { 0int }) + (if D::decode_shrinks() { 1int } else { 0int }) + (if E::decode_shrinks() { 1int } else { 0int }) + (if F::decode_shrinks() { 1int } else { 0int }) + (if G::decode_shrinks() { 1int } else { 0int }) + (if H::decode_shrinks() { 1int } else { 0int }) + (if I::decode_shrinks() { 1int } else { 0int }) + (if J::decode_shrinks() { 1int } else { 0int })) as usize
    }

    proof fn constants_hold() {
        A::constants_hold();
        B::constants_hold();
        C::constants_hold();
        D::constants_hold();
        E::constants_hold();
        F::constants_hold();
        G::constants_hold();
        H::constants_hold();
        I::constants_hold();
        J::constants_hold();
    }

    open spec fn accepts(dtypes: Seq<DTypeV>) -> Result<(), Seq<char>> {
        if dtypes.len() != 10 {
            Err(tuple::wrong_count(10, dtypes.len()))
        } else {
            tuple::also(A::accepts(dtypes[0]), tuple::also(B::accepts(dtypes[1]), tuple::also(C::accepts(dtypes[2]), tuple::also(D::accepts(dtypes[3]), tuple::also(E::accepts(dtypes[4]), tuple::also(F::accepts(dtypes[5]), tuple::also(G::accepts(dtypes[6]), tuple::also(H::accepts(dtypes[7]), tuple::also(I::accepts(dtypes[8]), J::accepts(dtypes[9]))))))))))
        }
    }

    open spec fn decodes(args: Seq<ArrayV>) -> Result<(), Seq<char>> {
        tuple::also(A::decodes(tuple::collapsed(args[0])), tuple::also(B::decodes(tuple::collapsed(args[1])), tuple::also(C::decodes(tuple::collapsed(args[2])), tuple::also(D::decodes(tuple::collapsed(args[3])), tuple::also(E::decodes(tuple::collapsed(args[4])), tuple::also(F::decodes(tuple::collapsed(args[5])), tuple::also(G::decodes(tuple::collapsed(args[6])), tuple::also(H::decodes(tuple::collapsed(args[7])), tuple::also(I::decodes(tuple::collapsed(args[8])), J::decodes(tuple::collapsed(args[9])))))))))))
    }

    open spec fn decodes_tolerant(args: Seq<ArrayV>) -> Result<bool, Seq<char>> {
        tuple::also_tolerant(A::decodes_tolerant(tuple::collapsed(args[0])), tuple::also_tolerant(B::decodes_tolerant(tuple::collapsed(args[1])), tuple::also_tolerant(C::decodes_tolerant(tuple::collapsed(args[2])), tuple::also_tolerant(D::decodes_tolerant(tuple::collapsed(args[3])), tuple::also_tolerant(E::decodes_tolerant(tuple::collapsed(args[4])), tuple::also_tolerant(F::decodes_tolerant(tuple::collapsed(args[5])), tuple::also_tolerant(G::decodes_tolerant(tuple::collapsed(args[6])), tuple::also_tolerant(H::decodes_tolerant(tuple::collapsed(args[7])), tuple::also_tolerant(I::decodes_tolerant(tuple::collapsed(args[8])), J::decodes_tolerant(tuple::collapsed(args[9])))))))))))
    }

    open spec fn row_at(args: Seq<ArrayV>, r: int) -> Self::V {
        (A::reads(args[0].cells[r].value)->Some_0, B::reads(args[1].cells[r].value)->Some_0, C::reads(args[2].cells[r].value)->Some_0, D::reads(args[3].cells[r].value)->Some_0, E::reads(args[4].cells[r].value)->Some_0, F::reads(args[5].cells[r].value)->Some_0, G::reads(args[6].cells[r].value)->Some_0, H::reads(args[7].cells[r].value)->Some_0, I::reads(args[8].cells[r].value)->Some_0, J::reads(args[9].cells[r].value)->Some_0)
    }

    open spec fn can_get(columns: &Self::Columns, i: int) -> bool {
        columns.0.can_get(i) && columns.1.can_get(i) && columns.2.can_get(i) && columns.3.can_get(i) && columns.4.can_get(i) && columns.5.can_get(i) && columns.6.can_get(i) && columns.7.can_get(i) && columns.8.can_get(i) && columns.9.can_get(i)
    }

    open spec fn at(columns: &Self::Columns, i: int) -> Self::V {
        (columns.0.at(i), columns.1.at(i), columns.2.at(i), columns.3.at(i), columns.4.at(i), columns.5.at(i), columns.6.at(i), columns.7.at(i), columns.8.at(i), columns.9.at(i))
    }

    open spec fn can_get_constants(columns: &Self::Columns) -> bool {
        (columns.0.stride == 0 ==> columns.0.can_get(0)) && (columns.1.stride == 0 ==> columns.1.can_get(0)) && (columns.2.stride == 0 ==> columns.2.can_get(0)) && (columns.3.stride == 0 ==> columns.3.can_get(0)) && (columns.4.stride == 0 ==> columns.4.can_get(0)) && (columns.5.stride == 0 ==> columns.5.can_get(0)) && (columns.6.stride == 0 ==> columns.6.can_get(0)) && (columns.7.stride == 0 ==> columns.7.can_get(0)) && (columns.8.stride == 0 ==> columns.8.can_get(0)) && (columns.9.stride == 0 ==> columns.9.can_get(0))
    }

    open spec fn constants_of(columns: &Self::Columns) -> Self::ConstV {
        (columns.0.shared_element(), columns.1.shared_element(), columns.2.shared_element(), columns.3.shared_element(), columns.4.shared_element(), columns.5.shared_element(), columns.6.shared_element(), columns.7.shared_element(), columns.8.shared_element(), columns.9.shared_element())
    }

    open spec fn agree(constants: Self::ConstV, row: Self::V) -> bool {
        (constants.0 is Some ==> constants.0 == Some(row.0)) && (constants.1 is Some ==> constants.1 == Some(row.1)) && (constants.2 is Some ==> constants.2 == Some(row.2)) && (constants.3 is Some ==> constants.3 == Some(row.3)) && (constants.4 is Some ==> constants.4 == Some(row.4)) && (constants.5 is Some ==> constants.5 == Some(row.5)) && (constants.6 is Some ==> constants.6 == Some(row.6)) && (constants.7 is Some ==> constants.7 == Some(row.7)) && (constants.8 is Some ==> constants.8 == Some(row.8)) && (constants.9 is Some ==> constants.9 == Some(row.9))
    }

    open spec fn addresses(columns: &Self::Columns, rows: nat) -> bool {
        columns.0.addresses(rows) && columns.1.addresses(rows) && columns.2.addresses(rows) && columns.3.addresses(rows) && columns.4.addresses(rows) && columns.5.addresses(rows) && columns.6.addresses(rows) && columns.7.addresses(rows) && columns.8.addresses(rows) && columns.9.addresses(rows)
    }

    open spec fn meaning(elems: Self::Elems<'_>) -> Self::V {
        (A::meaning(elems.0), B::meaning(elems.1), C::meaning(elems.2), D::meaning(elems.3), E::meaning(elems.4), F::meaning(elems.5), G::meaning(elems.6), H::meaning(elems.7), I::meaning(elems.8), J::meaning(elems.9))
    }

    open spec fn const_meaning(elems: Self::ConstElems<'_>) -> Self::ConstV {
        (match elems.0 { Some(elem) => Some(A::meaning(elem)), None => None }, match elems.1 { Some(elem) => Some(B::meaning(elem)), None => None }, match elems.2 { Some(elem) => Some(C::meaning(elem)), None => None }, match elems.3 { Some(elem) => Some(D::meaning(elem)), None => None }, match elems.4 { Some(elem) => Some(E::meaning(elem)), None => None }, match elems.5 { Some(elem) => Some(F::meaning(elem)), None => None }, match elems.6 { Some(elem) => Some(G::meaning(elem)), None => None }, match elems.7 { Some(elem) => Some(H::meaning(elem)), None => None }, match elems.8 { Some(elem) => Some(I::meaning(elem)), None => None }, match elems.9 { Some(elem) => Some(J::meaning(elem)), None => None })
    }

    proof fn constants_agree(columns: &Self::Columns, i: int) {
    }

    proof fn accepts_arity(dtypes: Seq<DTypeV>) {
    }

    proof fn rows_are_local(a: Seq<ArrayV>, i: int, b: Seq<ArrayV>, j: int) {
        assert(a[0].cells[i].value == b[0].cells[j].value);
        assert(a[1].cells[i].value == b[1].cells[j].value);
        assert(a[2].cells[i].value == b[2].cells[j].value);
        assert(a[3].cells[i].value == b[3].cells[j].value);
        assert(a[4].cells[i].value == b[4].cells[j].value);
        assert(a[5].cells[i].value == b[5].cells[j].value);
        assert(a[6].cells[i].value == b[6].cells[j].value);
        assert(a[7].cells[i].value == b[7].cells[j].value);
        assert(a[8].cells[i].value == b[8].cells[j].value);
        assert(a[9].cells[i].value == b[9].cells[j].value);
    }

    fn validate(dtypes: &Vec<DType>) -> (out: VortexResult<()>) {
        if dtypes.len() != 10 {
            return Err(wrong_count_error(10, dtypes.len()));
        }
        if let Err(error) = A::validate(&dtypes[0]) {
            return Err(error);
        }
        if let Err(error) = B::validate(&dtypes[1]) {
            return Err(error);
        }
        if let Err(error) = C::validate(&dtypes[2]) {
            return Err(error);
        }
        if let Err(error) = D::validate(&dtypes[3]) {
            return Err(error);
        }
        if let Err(error) = E::validate(&dtypes[4]) {
            return Err(error);
        }
        if let Err(error) = F::validate(&dtypes[5]) {
            return Err(error);
        }
        if let Err(error) = G::validate(&dtypes[6]) {
            return Err(error);
        }
        if let Err(error) = H::validate(&dtypes[7]) {
            return Err(error);
        }
        if let Err(error) = I::validate(&dtypes[8]) {
            return Err(error);
        }
        if let Err(error) = J::validate(&dtypes[9]) {
            return Err(error);
        }
        Ok(())
    }

    fn decode(args: &ExecutionArgs) -> (out: VortexResult<Self::Columns>) {
        assert(args@[0] == args.inputs@[0]@ && args@[0].len() == args.row_count);
        let c0 = match ArgColumn::<A>::decode(&args.inputs[0]) {
            Ok(column) => column,
            Err(error) => return Err(error),
        };
        assert(args@[1] == args.inputs@[1]@ && args@[1].len() == args.row_count);
        let c1 = match ArgColumn::<B>::decode(&args.inputs[1]) {
            Ok(column) => column,
            Err(error) => return Err(error),
        };
        assert(args@[2] == args.inputs@[2]@ && args@[2].len() == args.row_count);
        let c2 = match ArgColumn::<C>::decode(&args.inputs[2]) {
            Ok(column) => column,
            Err(error) => return Err(error),
        };
        assert(args@[3] == args.inputs@[3]@ && args@[3].len() == args.row_count);
        let c3 = match ArgColumn::<D>::decode(&args.inputs[3]) {
            Ok(column) => column,
            Err(error) => return Err(error),
        };
        assert(args@[4] == args.inputs@[4]@ && args@[4].len() == args.row_count);
        let c4 = match ArgColumn::<E>::decode(&args.inputs[4]) {
            Ok(column) => column,
            Err(error) => return Err(error),
        };
        assert(args@[5] == args.inputs@[5]@ && args@[5].len() == args.row_count);
        let c5 = match ArgColumn::<F>::decode(&args.inputs[5]) {
            Ok(column) => column,
            Err(error) => return Err(error),
        };
        assert(args@[6] == args.inputs@[6]@ && args@[6].len() == args.row_count);
        let c6 = match ArgColumn::<G>::decode(&args.inputs[6]) {
            Ok(column) => column,
            Err(error) => return Err(error),
        };
        assert(args@[7] == args.inputs@[7]@ && args@[7].len() == args.row_count);
        let c7 = match ArgColumn::<H>::decode(&args.inputs[7]) {
            Ok(column) => column,
            Err(error) => return Err(error),
        };
        assert(args@[8] == args.inputs@[8]@ && args@[8].len() == args.row_count);
        let c8 = match ArgColumn::<I>::decode(&args.inputs[8]) {
            Ok(column) => column,
            Err(error) => return Err(error),
        };
        assert(args@[9] == args.inputs@[9]@ && args@[9].len() == args.row_count);
        let c9 = match ArgColumn::<J>::decode(&args.inputs[9]) {
            Ok(column) => column,
            Err(error) => return Err(error),
        };
        let columns = (c0, c1, c2, c3, c4, c5, c6, c7, c8, c9);
        proof {
            if Self::dense_safe() || !tuple::some_null_constant(args@) {
                assert(columns.0.stride == 0 ==> args@[0].len() > 0 && (A::dense_safe() || !tuple::null_constant(args@[0])));
                assert(columns.0.stride == 0 ==> columns.0.can_get(0));
                assert(columns.1.stride == 0 ==> args@[1].len() > 0 && (B::dense_safe() || !tuple::null_constant(args@[1])));
                assert(columns.1.stride == 0 ==> columns.1.can_get(0));
                assert(columns.2.stride == 0 ==> args@[2].len() > 0 && (C::dense_safe() || !tuple::null_constant(args@[2])));
                assert(columns.2.stride == 0 ==> columns.2.can_get(0));
                assert(columns.3.stride == 0 ==> args@[3].len() > 0 && (D::dense_safe() || !tuple::null_constant(args@[3])));
                assert(columns.3.stride == 0 ==> columns.3.can_get(0));
                assert(columns.4.stride == 0 ==> args@[4].len() > 0 && (E::dense_safe() || !tuple::null_constant(args@[4])));
                assert(columns.4.stride == 0 ==> columns.4.can_get(0));
                assert(columns.5.stride == 0 ==> args@[5].len() > 0 && (F::dense_safe() || !tuple::null_constant(args@[5])));
                assert(columns.5.stride == 0 ==> columns.5.can_get(0));
                assert(columns.6.stride == 0 ==> args@[6].len() > 0 && (G::dense_safe() || !tuple::null_constant(args@[6])));
                assert(columns.6.stride == 0 ==> columns.6.can_get(0));
                assert(columns.7.stride == 0 ==> args@[7].len() > 0 && (H::dense_safe() || !tuple::null_constant(args@[7])));
                assert(columns.7.stride == 0 ==> columns.7.can_get(0));
                assert(columns.8.stride == 0 ==> args@[8].len() > 0 && (I::dense_safe() || !tuple::null_constant(args@[8])));
                assert(columns.8.stride == 0 ==> columns.8.can_get(0));
                assert(columns.9.stride == 0 ==> args@[9].len() > 0 && (J::dense_safe() || !tuple::null_constant(args@[9])));
                assert(columns.9.stride == 0 ==> columns.9.can_get(0));
                assert(Self::can_get_constants(&columns));
            }
            assert forall|r: int|
                0 <= r < args.row_count && (Self::dense_safe() || vtable::valid_at(args@, r)) implies (
            #[trigger] Self::can_get(&columns, r)) && Self::at(&columns, r) == Self::row_at(
                args@,
                r,
            ) by {
                assert((A::dense_safe() || args@[0].cells[r].valid) && columns.0.can_get(r));
                assert((B::dense_safe() || args@[1].cells[r].valid) && columns.1.can_get(r));
                assert((C::dense_safe() || args@[2].cells[r].valid) && columns.2.can_get(r));
                assert((D::dense_safe() || args@[3].cells[r].valid) && columns.3.can_get(r));
                assert((E::dense_safe() || args@[4].cells[r].valid) && columns.4.can_get(r));
                assert((F::dense_safe() || args@[5].cells[r].valid) && columns.5.can_get(r));
                assert((G::dense_safe() || args@[6].cells[r].valid) && columns.6.can_get(r));
                assert((H::dense_safe() || args@[7].cells[r].valid) && columns.7.can_get(r));
                assert((I::dense_safe() || args@[8].cells[r].valid) && columns.8.can_get(r));
                assert((J::dense_safe() || args@[9].cells[r].valid) && columns.9.can_get(r));
            }
        }
        Ok(columns)
    }

    fn decode_null_tolerant(args: &ExecutionArgs) -> (out: VortexResult<Option<Self::Columns>>) {
        assert(args@[0] == args.inputs@[0]@ && args@[0].len() == args.row_count);
        let c0 = match ArgColumn::<A>::decode_null_tolerant(&args.inputs[0]) {
            Ok(Some(column)) => column,
            Ok(None) => return Ok(None),
            Err(error) => return Err(error),
        };
        assert(args@[1] == args.inputs@[1]@ && args@[1].len() == args.row_count);
        let c1 = match ArgColumn::<B>::decode_null_tolerant(&args.inputs[1]) {
            Ok(Some(column)) => column,
            Ok(None) => return Ok(None),
            Err(error) => return Err(error),
        };
        assert(args@[2] == args.inputs@[2]@ && args@[2].len() == args.row_count);
        let c2 = match ArgColumn::<C>::decode_null_tolerant(&args.inputs[2]) {
            Ok(Some(column)) => column,
            Ok(None) => return Ok(None),
            Err(error) => return Err(error),
        };
        assert(args@[3] == args.inputs@[3]@ && args@[3].len() == args.row_count);
        let c3 = match ArgColumn::<D>::decode_null_tolerant(&args.inputs[3]) {
            Ok(Some(column)) => column,
            Ok(None) => return Ok(None),
            Err(error) => return Err(error),
        };
        assert(args@[4] == args.inputs@[4]@ && args@[4].len() == args.row_count);
        let c4 = match ArgColumn::<E>::decode_null_tolerant(&args.inputs[4]) {
            Ok(Some(column)) => column,
            Ok(None) => return Ok(None),
            Err(error) => return Err(error),
        };
        assert(args@[5] == args.inputs@[5]@ && args@[5].len() == args.row_count);
        let c5 = match ArgColumn::<F>::decode_null_tolerant(&args.inputs[5]) {
            Ok(Some(column)) => column,
            Ok(None) => return Ok(None),
            Err(error) => return Err(error),
        };
        assert(args@[6] == args.inputs@[6]@ && args@[6].len() == args.row_count);
        let c6 = match ArgColumn::<G>::decode_null_tolerant(&args.inputs[6]) {
            Ok(Some(column)) => column,
            Ok(None) => return Ok(None),
            Err(error) => return Err(error),
        };
        assert(args@[7] == args.inputs@[7]@ && args@[7].len() == args.row_count);
        let c7 = match ArgColumn::<H>::decode_null_tolerant(&args.inputs[7]) {
            Ok(Some(column)) => column,
            Ok(None) => return Ok(None),
            Err(error) => return Err(error),
        };
        assert(args@[8] == args.inputs@[8]@ && args@[8].len() == args.row_count);
        let c8 = match ArgColumn::<I>::decode_null_tolerant(&args.inputs[8]) {
            Ok(Some(column)) => column,
            Ok(None) => return Ok(None),
            Err(error) => return Err(error),
        };
        assert(args@[9] == args.inputs@[9]@ && args@[9].len() == args.row_count);
        let c9 = match ArgColumn::<J>::decode_null_tolerant(&args.inputs[9]) {
            Ok(Some(column)) => column,
            Ok(None) => return Ok(None),
            Err(error) => return Err(error),
        };
        let columns = (c0, c1, c2, c3, c4, c5, c6, c7, c8, c9);
        proof {
            if !tuple::some_null_constant(args@) {
                assert(columns.0.stride == 0 ==> args@[0].len() > 0 && (!tuple::null_constant(args@[0])));
                assert(columns.0.stride == 0 ==> columns.0.can_get(0));
                assert(columns.1.stride == 0 ==> args@[1].len() > 0 && (!tuple::null_constant(args@[1])));
                assert(columns.1.stride == 0 ==> columns.1.can_get(0));
                assert(columns.2.stride == 0 ==> args@[2].len() > 0 && (!tuple::null_constant(args@[2])));
                assert(columns.2.stride == 0 ==> columns.2.can_get(0));
                assert(columns.3.stride == 0 ==> args@[3].len() > 0 && (!tuple::null_constant(args@[3])));
                assert(columns.3.stride == 0 ==> columns.3.can_get(0));
                assert(columns.4.stride == 0 ==> args@[4].len() > 0 && (!tuple::null_constant(args@[4])));
                assert(columns.4.stride == 0 ==> columns.4.can_get(0));
                assert(columns.5.stride == 0 ==> args@[5].len() > 0 && (!tuple::null_constant(args@[5])));
                assert(columns.5.stride == 0 ==> columns.5.can_get(0));
                assert(columns.6.stride == 0 ==> args@[6].len() > 0 && (!tuple::null_constant(args@[6])));
                assert(columns.6.stride == 0 ==> columns.6.can_get(0));
                assert(columns.7.stride == 0 ==> args@[7].len() > 0 && (!tuple::null_constant(args@[7])));
                assert(columns.7.stride == 0 ==> columns.7.can_get(0));
                assert(columns.8.stride == 0 ==> args@[8].len() > 0 && (!tuple::null_constant(args@[8])));
                assert(columns.8.stride == 0 ==> columns.8.can_get(0));
                assert(columns.9.stride == 0 ==> args@[9].len() > 0 && (!tuple::null_constant(args@[9])));
                assert(columns.9.stride == 0 ==> columns.9.can_get(0));
                assert(Self::can_get_constants(&columns));
            }
            assert forall|r: int| 0 <= r < args.row_count && vtable::valid_at(args@, r) implies (
            #[trigger] Self::can_get(&columns, r)) && Self::at(&columns, r) == Self::row_at(
                args@,
                r,
            ) by {
                assert(args@[0].cells[r].valid && columns.0.can_get(r));
                assert(args@[1].cells[r].valid && columns.1.can_get(r));
                assert(args@[2].cells[r].valid && columns.2.can_get(r));
                assert(args@[3].cells[r].valid && columns.3.can_get(r));
                assert(args@[4].cells[r].valid && columns.4.can_get(r));
                assert(args@[5].cells[r].valid && columns.5.can_get(r));
                assert(args@[6].cells[r].valid && columns.6.can_get(r));
                assert(args@[7].cells[r].valid && columns.7.can_get(r));
                assert(args@[8].cells[r].valid && columns.8.can_get(r));
                assert(args@[9].cells[r].valid && columns.9.can_get(r));
            }
        }
        Ok(Some(columns))
    }

    fn get<'a>(columns: &'a Self::Columns, index: usize) -> (out: Self::Elems<'a>) {
        (columns.0.get(index), columns.1.get(index), columns.2.get(index), columns.3.get(index), columns.4.get(index), columns.5.get(index), columns.6.get(index), columns.7.get(index), columns.8.get(index), columns.9.get(index))
    }

    fn constants<'a>(columns: &'a Self::Columns) -> (out: Self::ConstElems<'a>) {
        (columns.0.constant(), columns.1.constant(), columns.2.constant(), columns.3.constant(), columns.4.constant(), columns.5.constant(), columns.6.constant(), columns.7.constant(), columns.8.constant(), columns.9.constant())
    }

    fn rows_match(columns: &Self::Columns, rows: usize) -> (out: bool) {
        columns.0.rows_match(rows) && columns.1.rows_match(rows) && columns.2.rows_match(rows) && columns.3.rows_match(rows) && columns.4.rows_match(rows) && columns.5.rows_match(rows) && columns.6.rows_match(rows) && columns.7.rows_match(rows) && columns.8.rows_match(rows) && columns.9.rows_match(rows)
    }
}

impl<A: InputElement, B: InputElement, C: InputElement, D: InputElement, E: InputElement, F: InputElement, G: InputElement, H: InputElement, I: InputElement, J: InputElement, K: InputElement> ElementTuple for (A, B, C, D, E, F, G, H, I, J, K) {
    type Columns = (ArgColumn<A>, ArgColumn<B>, ArgColumn<C>, ArgColumn<D>, ArgColumn<E>, ArgColumn<F>, ArgColumn<G>, ArgColumn<H>, ArgColumn<I>, ArgColumn<J>, ArgColumn<K>);

    type Elems<'a> = (A::Elem<'a>, B::Elem<'a>, C::Elem<'a>, D::Elem<'a>, E::Elem<'a>, F::Elem<'a>, G::Elem<'a>, H::Elem<'a>, I::Elem<'a>, J::Elem<'a>, K::Elem<'a>);

    type ConstElems<'a> = (Option<A::Elem<'a>>, Option<B::Elem<'a>>, Option<C::Elem<'a>>, Option<D::Elem<'a>>, Option<E::Elem<'a>>, Option<F::Elem<'a>>, Option<G::Elem<'a>>, Option<H::Elem<'a>>, Option<I::Elem<'a>>, Option<J::Elem<'a>>, Option<K::Elem<'a>>);

    type V = (A::V, B::V, C::V, D::V, E::V, F::V, G::V, H::V, I::V, J::V, K::V);

    type ConstV = (Option<A::V>, Option<B::V>, Option<C::V>, Option<D::V>, Option<E::V>, Option<F::V>, Option<G::V>, Option<H::V>, Option<I::V>, Option<J::V>, Option<K::V>);

    const ARITY: usize = 11;

    const DENSE_SAFE: bool = A::DENSE_SAFE && B::DENSE_SAFE && C::DENSE_SAFE && D::DENSE_SAFE && E::DENSE_SAFE && F::DENSE_SAFE && G::DENSE_SAFE && H::DENSE_SAFE && I::DENSE_SAFE && J::DENSE_SAFE && K::DENSE_SAFE;

    const DECODE_FALLIBLE: bool = A::DECODE_FALLIBLE || B::DECODE_FALLIBLE || C::DECODE_FALLIBLE || D::DECODE_FALLIBLE || E::DECODE_FALLIBLE || F::DECODE_FALLIBLE || G::DECODE_FALLIBLE || H::DECODE_FALLIBLE || I::DECODE_FALLIBLE || J::DECODE_FALLIBLE || K::DECODE_FALLIBLE;

    const FILTERED_DECODE_COST: usize = A::DECODE_SHRINKS_WHEN_FILTERED as usize + B::DECODE_SHRINKS_WHEN_FILTERED as usize + C::DECODE_SHRINKS_WHEN_FILTERED as usize + D::DECODE_SHRINKS_WHEN_FILTERED as usize + E::DECODE_SHRINKS_WHEN_FILTERED as usize + F::DECODE_SHRINKS_WHEN_FILTERED as usize + G::DECODE_SHRINKS_WHEN_FILTERED as usize + H::DECODE_SHRINKS_WHEN_FILTERED as usize + I::DECODE_SHRINKS_WHEN_FILTERED as usize + J::DECODE_SHRINKS_WHEN_FILTERED as usize + K::DECODE_SHRINKS_WHEN_FILTERED as usize;

    open spec fn arity() -> usize {
        11
    }

    open spec fn dense_safe() -> bool {
        A::dense_safe() && B::dense_safe() && C::dense_safe() && D::dense_safe() && E::dense_safe() && F::dense_safe() && G::dense_safe() && H::dense_safe() && I::dense_safe() && J::dense_safe() && K::dense_safe()
    }

    open spec fn decode_fallible() -> bool {
        A::decode_fallible() || B::decode_fallible() || C::decode_fallible() || D::decode_fallible() || E::decode_fallible() || F::decode_fallible() || G::decode_fallible() || H::decode_fallible() || I::decode_fallible() || J::decode_fallible() || K::decode_fallible()
    }

    open spec fn decode_cost() -> usize {
        ((if A::decode_shrinks() { 1int } else { 0int }) + (if B::decode_shrinks() { 1int } else { 0int }) + (if C::decode_shrinks() { 1int } else { 0int }) + (if D::decode_shrinks() { 1int } else { 0int }) + (if E::decode_shrinks() { 1int } else { 0int }) + (if F::decode_shrinks() { 1int } else { 0int }) + (if G::decode_shrinks() { 1int } else { 0int }) + (if H::decode_shrinks() { 1int } else { 0int }) + (if I::decode_shrinks() { 1int } else { 0int }) + (if J::decode_shrinks() { 1int } else { 0int }) + (if K::decode_shrinks() { 1int } else { 0int })) as usize
    }

    proof fn constants_hold() {
        A::constants_hold();
        B::constants_hold();
        C::constants_hold();
        D::constants_hold();
        E::constants_hold();
        F::constants_hold();
        G::constants_hold();
        H::constants_hold();
        I::constants_hold();
        J::constants_hold();
        K::constants_hold();
    }

    open spec fn accepts(dtypes: Seq<DTypeV>) -> Result<(), Seq<char>> {
        if dtypes.len() != 11 {
            Err(tuple::wrong_count(11, dtypes.len()))
        } else {
            tuple::also(A::accepts(dtypes[0]), tuple::also(B::accepts(dtypes[1]), tuple::also(C::accepts(dtypes[2]), tuple::also(D::accepts(dtypes[3]), tuple::also(E::accepts(dtypes[4]), tuple::also(F::accepts(dtypes[5]), tuple::also(G::accepts(dtypes[6]), tuple::also(H::accepts(dtypes[7]), tuple::also(I::accepts(dtypes[8]), tuple::also(J::accepts(dtypes[9]), K::accepts(dtypes[10])))))))))))
        }
    }

    open spec fn decodes(args: Seq<ArrayV>) -> Result<(), Seq<char>> {
        tuple::also(A::decodes(tuple::collapsed(args[0])), tuple::also(B::decodes(tuple::collapsed(args[1])), tuple::also(C::decodes(tuple::collapsed(args[2])), tuple::also(D::decodes(tuple::collapsed(args[3])), tuple::also(E::decodes(tuple::collapsed(args[4])), tuple::also(F::decodes(tuple::collapsed(args[5])), tuple::also(G::decodes(tuple::collapsed(args[6])), tuple::also(H::decodes(tuple::collapsed(args[7])), tuple::also(I::decodes(tuple::collapsed(args[8])), tuple::also(J::decodes(tuple::collapsed(args[9])), K::decodes(tuple::collapsed(args[10]))))))))))))
    }

    open spec fn decodes_tolerant(args: Seq<ArrayV>) -> Result<bool, Seq<char>> {
        tuple::also_tolerant(A::decodes_tolerant(tuple::collapsed(args[0])), tuple::also_tolerant(B::decodes_tolerant(tuple::collapsed(args[1])), tuple::also_tolerant(C::decodes_tolerant(tuple::collapsed(args[2])), tuple::also_tolerant(D::decodes_tolerant(tuple::collapsed(args[3])), tuple::also_tolerant(E::decodes_tolerant(tuple::collapsed(args[4])), tuple::also_tolerant(F::decodes_tolerant(tuple::collapsed(args[5])), tuple::also_tolerant(G::decodes_tolerant(tuple::collapsed(args[6])), tuple::also_tolerant(H::decodes_tolerant(tuple::collapsed(args[7])), tuple::also_tolerant(I::decodes_tolerant(tuple::collapsed(args[8])), tuple::also_tolerant(J::decodes_tolerant(tuple::collapsed(args[9])), K::decodes_tolerant(tuple::collapsed(args[10]))))))))))))
    }

    open spec fn row_at(args: Seq<ArrayV>, r: int) -> Self::V {
        (A::reads(args[0].cells[r].value)->Some_0, B::reads(args[1].cells[r].value)->Some_0, C::reads(args[2].cells[r].value)->Some_0, D::reads(args[3].cells[r].value)->Some_0, E::reads(args[4].cells[r].value)->Some_0, F::reads(args[5].cells[r].value)->Some_0, G::reads(args[6].cells[r].value)->Some_0, H::reads(args[7].cells[r].value)->Some_0, I::reads(args[8].cells[r].value)->Some_0, J::reads(args[9].cells[r].value)->Some_0, K::reads(args[10].cells[r].value)->Some_0)
    }

    open spec fn can_get(columns: &Self::Columns, i: int) -> bool {
        columns.0.can_get(i) && columns.1.can_get(i) && columns.2.can_get(i) && columns.3.can_get(i) && columns.4.can_get(i) && columns.5.can_get(i) && columns.6.can_get(i) && columns.7.can_get(i) && columns.8.can_get(i) && columns.9.can_get(i) && columns.10.can_get(i)
    }

    open spec fn at(columns: &Self::Columns, i: int) -> Self::V {
        (columns.0.at(i), columns.1.at(i), columns.2.at(i), columns.3.at(i), columns.4.at(i), columns.5.at(i), columns.6.at(i), columns.7.at(i), columns.8.at(i), columns.9.at(i), columns.10.at(i))
    }

    open spec fn can_get_constants(columns: &Self::Columns) -> bool {
        (columns.0.stride == 0 ==> columns.0.can_get(0)) && (columns.1.stride == 0 ==> columns.1.can_get(0)) && (columns.2.stride == 0 ==> columns.2.can_get(0)) && (columns.3.stride == 0 ==> columns.3.can_get(0)) && (columns.4.stride == 0 ==> columns.4.can_get(0)) && (columns.5.stride == 0 ==> columns.5.can_get(0)) && (columns.6.stride == 0 ==> columns.6.can_get(0)) && (columns.7.stride == 0 ==> columns.7.can_get(0)) && (columns.8.stride == 0 ==> columns.8.can_get(0)) && (columns.9.stride == 0 ==> columns.9.can_get(0)) && (columns.10.stride == 0 ==> columns.10.can_get(0))
    }

    open spec fn constants_of(columns: &Self::Columns) -> Self::ConstV {
        (columns.0.shared_element(), columns.1.shared_element(), columns.2.shared_element(), columns.3.shared_element(), columns.4.shared_element(), columns.5.shared_element(), columns.6.shared_element(), columns.7.shared_element(), columns.8.shared_element(), columns.9.shared_element(), columns.10.shared_element())
    }

    open spec fn agree(constants: Self::ConstV, row: Self::V) -> bool {
        (constants.0 is Some ==> constants.0 == Some(row.0)) && (constants.1 is Some ==> constants.1 == Some(row.1)) && (constants.2 is Some ==> constants.2 == Some(row.2)) && (constants.3 is Some ==> constants.3 == Some(row.3)) && (constants.4 is Some ==> constants.4 == Some(row.4)) && (constants.5 is Some ==> constants.5 == Some(row.5)) && (constants.6 is Some ==> constants.6 == Some(row.6)) && (constants.7 is Some ==> constants.7 == Some(row.7)) && (constants.8 is Some ==> constants.8 == Some(row.8)) && (constants.9 is Some ==> constants.9 == Some(row.9)) && (constants.10 is Some ==> constants.10 == Some(row.10))
    }

    open spec fn addresses(columns: &Self::Columns, rows: nat) -> bool {
        columns.0.addresses(rows) && columns.1.addresses(rows) && columns.2.addresses(rows) && columns.3.addresses(rows) && columns.4.addresses(rows) && columns.5.addresses(rows) && columns.6.addresses(rows) && columns.7.addresses(rows) && columns.8.addresses(rows) && columns.9.addresses(rows) && columns.10.addresses(rows)
    }

    open spec fn meaning(elems: Self::Elems<'_>) -> Self::V {
        (A::meaning(elems.0), B::meaning(elems.1), C::meaning(elems.2), D::meaning(elems.3), E::meaning(elems.4), F::meaning(elems.5), G::meaning(elems.6), H::meaning(elems.7), I::meaning(elems.8), J::meaning(elems.9), K::meaning(elems.10))
    }

    open spec fn const_meaning(elems: Self::ConstElems<'_>) -> Self::ConstV {
        (match elems.0 { Some(elem) => Some(A::meaning(elem)), None => None }, match elems.1 { Some(elem) => Some(B::meaning(elem)), None => None }, match elems.2 { Some(elem) => Some(C::meaning(elem)), None => None }, match elems.3 { Some(elem) => Some(D::meaning(elem)), None => None }, match elems.4 { Some(elem) => Some(E::meaning(elem)), None => None }, match elems.5 { Some(elem) => Some(F::meaning(elem)), None => None }, match elems.6 { Some(elem) => Some(G::meaning(elem)), None => None }, match elems.7 { Some(elem) => Some(H::meaning(elem)), None => None }, match elems.8 { Some(elem) => Some(I::meaning(elem)), None => None }, match elems.9 { Some(elem) => Some(J::meaning(elem)), None => None }, match elems.10 { Some(elem) => Some(K::meaning(elem)), None => None })
    }

    proof fn constants_agree(columns: &Self::Columns, i: int) {
    }

    proof fn accepts_arity(dtypes: Seq<DTypeV>) {
    }

    proof fn rows_are_local(a: Seq<ArrayV>, i: int, b: Seq<ArrayV>, j: int) {
        assert(a[0].cells[i].value == b[0].cells[j].value);
        assert(a[1].cells[i].value == b[1].cells[j].value);
        assert(a[2].cells[i].value == b[2].cells[j].value);
        assert(a[3].cells[i].value == b[3].cells[j].value);
        assert(a[4].cells[i].value == b[4].cells[j].value);
        assert(a[5].cells[i].value == b[5].cells[j].value);
        assert(a[6].cells[i].value == b[6].cells[j].value);
        assert(a[7].cells[i].value == b[7].cells[j].value);
        assert(a[8].cells[i].value == b[8].cells[j].value);
        assert(a[9].cells[i].value == b[9].cells[j].value);
        assert(a[10].cells[i].value == b[10].cells[j].value);
    }

    fn validate(dtypes: &Vec<DType>) -> (out: VortexResult<()>) {
        if dtypes.len() != 11 {
            return Err(wrong_count_error(11, dtypes.len()));
        }
        if let Err(error) = A::validate(&dtypes[0]) {
            return Err(error);
        }
        if let Err(error) = B::validate(&dtypes[1]) {
            return Err(error);
        }
        if let Err(error) = C::validate(&dtypes[2]) {
            return Err(error);
        }
        if let Err(error) = D::validate(&dtypes[3]) {
            return Err(error);
        }
        if let Err(error) = E::validate(&dtypes[4]) {
            return Err(error);
        }
        if let Err(error) = F::validate(&dtypes[5]) {
            return Err(error);
        }
        if let Err(error) = G::validate(&dtypes[6]) {
            return Err(error);
        }
        if let Err(error) = H::validate(&dtypes[7]) {
            return Err(error);
        }
        if let Err(error) = I::validate(&dtypes[8]) {
            return Err(error);
        }
        if let Err(error) = J::validate(&dtypes[9]) {
            return Err(error);
        }
        if let Err(error) = K::validate(&dtypes[10]) {
            return Err(error);
        }
        Ok(())
    }

    fn decode(args: &ExecutionArgs) -> (out: VortexResult<Self::Columns>) {
        assert(args@[0] == args.inputs@[0]@ && args@[0].len() == args.row_count);
        let c0 = match ArgColumn::<A>::decode(&args.inputs[0]) {
            Ok(column) => column,
            Err(error) => return Err(error),
        };
        assert(args@[1] == args.inputs@[1]@ && args@[1].len() == args.row_count);
        let c1 = match ArgColumn::<B>::decode(&args.inputs[1]) {
            Ok(column) => column,
            Err(error) => return Err(error),
        };
        assert(args@[2] == args.inputs@[2]@ && args@[2].len() == args.row_count);
        let c2 = match ArgColumn::<C>::decode(&args.inputs[2]) {
            Ok(column) => column,
            Err(error) => return Err(error),
        };
        assert(args@[3] == args.inputs@[3]@ && args@[3].len() == args.row_count);
        let c3 = match ArgColumn::<D>::decode(&args.inputs[3]) {
            Ok(column) => column,
            Err(error) => return Err(error),
        };
        assert(args@[4] == args.inputs@[4]@ && args@[4].len() == args.row_count);
        let c4 = match ArgColumn::<E>::decode(&args.inputs[4]) {
            Ok(column) => column,
            Err(error) => return Err(error),
        };
        assert(args@[5] == args.inputs@[5]@ && args@[5].len() == args.row_count);
        let c5 = match ArgColumn::<F>::decode(&args.inputs[5]) {
            Ok(column) => column,
            Err(error) => return Err(error),
        };
        assert(args@[6] == args.inputs@[6]@ && args@[6].len() == args.row_count);
        let c6 = match ArgColumn::<G>::decode(&args.inputs[6]) {
            Ok(column) => column,
            Err(error) => return Err(error),
        };
        assert(args@[7] == args.inputs@[7]@ && args@[7].len() == args.row_count);
        let c7 = match ArgColumn::<H>::decode(&args.inputs[7]) {
            Ok(column) => column,
            Err(error) => return Err(error),
        };
        assert(args@[8] == args.inputs@[8]@ && args@[8].len() == args.row_count);
        let c8 = match ArgColumn::<I>::decode(&args.inputs[8]) {
            Ok(column) => column,
            Err(error) => return Err(error),
        };
        assert(args@[9] == args.inputs@[9]@ && args@[9].len() == args.row_count);
        let c9 = match ArgColumn::<J>::decode(&args.inputs[9]) {
            Ok(column) => column,
            Err(error) => return Err(error),
        };
        assert(args@[10] == args.inputs@[10]@ && args@[10].len() == args.row_count);
        let c10 = match ArgColumn::<K>::decode(&args.inputs[10]) {
            Ok(column) => column,
            Err(error) => return Err(error),
        };
        let columns = (c0, c1, c2, c3, c4, c5, c6, c7, c8, c9, c10);
        proof {
            if Self::dense_safe() || !tuple::some_null_constant(args@) {
                assert(columns.0.stride == 0 ==> args@[0].len() > 0 && (A::dense_safe() || !tuple::null_constant(args@[0])));
                assert(columns.0.stride == 0 ==> columns.0.can_get(0));
                assert(columns.1.stride == 0 ==> args@[1].len() > 0 && (B::dense_safe() || !tuple::null_constant(args@[1])));
                assert(columns.1.stride == 0 ==> columns.1.can_get(0));
                assert(columns.2.stride == 0 ==> args@[2].len() > 0 && (C::dense_safe() || !tuple::null_constant(args@[2])));
                assert(columns.2.stride == 0 ==> columns.2.can_get(0));
                assert(columns.3.stride == 0 ==> args@[3].len() > 0 && (D::dense_safe() || !tuple::null_constant(args@[3])));
                assert(columns.3.stride == 0 ==> columns.3.can_get(0));
                assert(columns.4.stride == 0 ==> args@[4].len() > 0 && (E::dense_safe() || !tuple::null_constant(args@[4])));
                assert(columns.4.stride == 0 ==> columns.4.can_get(0));
                assert(columns.5.stride == 0 ==> args@[5].len() > 0 && (F::dense_safe() || !tuple::null_constant(args@[5])));
                assert(columns.5.stride == 0 ==> columns.5.can_get(0));
                assert(columns.6.stride == 0 ==> args@[6].len() > 0 && (G::dense_safe() || !tuple::null_constant(args@[6])));
                assert(columns.6.stride == 0 ==> columns.6.can_get(0));
                assert(columns.7.stride == 0 ==> args@[7].len() > 0 && (H::dense_safe() || !tuple::null_constant(args@[7])));
                assert(columns.7.stride == 0 ==> columns.7.can_get(0));
                assert(columns.8.stride == 0 ==> args@[8].len() > 0 && (I::dense_safe() || !tuple::null_constant(args@[8])));
                assert(columns.8.stride == 0 ==> columns.8.can_get(0));
                assert(columns.9.stride == 0 ==> args@[9].len() > 0 && (J::dense_safe() || !tuple::null_constant(args@[9])));
                assert(columns.9.stride == 0 ==> columns.9.can_get(0));
                assert(columns.10.stride == 0 ==> args@[10].len() > 0 && (K::dense_safe() || !tuple::null_constant(args@[10])));
                assert(columns.10.stride == 0 ==> columns.10.can_get(0));
                assert(Self::can_get_constants(&columns));
            }
            assert forall|r: int|
                0 <= r < args.row_count && (Self::dense_safe() || vtable::valid_at(args@, r)) implies (
            #[trigger] Self::can_get(&columns, r)) && Self::at(&columns, r) == Self::row_at(
                args@,
                r,
            ) by {
                assert((A::dense_safe() || args@[0].cells[r].valid) && columns.0.can_get(r));
                assert((B::dense_safe() || args@[1].cells[r].valid) && columns.1.can_get(r));
                assert((C::dense_safe() || args@[2].cells[r].valid) && columns.2.can_get(r));
                assert((D::dense_safe() || args@[3].cells[r].valid) && columns.3.can_get(r));
                assert((E::dense_safe() || args@[4].cells[r].valid) && columns.4.can_get(r));
                assert((F::dense_safe() || args@[5].cells[r].valid) && columns.5.can_get(r));
                assert((G::dense_safe() || args@[6].cells[r].valid) && columns.6.can_get(r));
                assert((H::dense_safe() || args@[7].cells[r].valid) && columns.7.can_get(r));
                assert((I::dense_safe() || args@[8].cells[r].valid) && columns.8.can_get(r));
                assert((J::dense_safe() || args@[9].cells[r].valid) && columns.9.can_get(r));
                assert((K::dense_safe() || args@[10].cells[r].valid) && columns.10.can_get(r));
            }
        }
        Ok(columns)
    }

    fn decode_null_tolerant(args: &ExecutionArgs) -> (out: VortexResult<Option<Self::Columns>>) {
        assert(args@[0] == args.inputs@[0]@ && args@[0].len() == args.row_count);
        let c0 = match ArgColumn::<A>::decode_null_tolerant(&args.inputs[0]) {
            Ok(Some(column)) => column,
            Ok(None) => return Ok(None),
            Err(error) => return Err(error),
        };
        assert(args@[1] == args.inputs@[1]@ && args@[1].len() == args.row_count);
        let c1 = match ArgColumn::<B>::decode_null_tolerant(&args.inputs[1]) {
            Ok(Some(column)) => column,
            Ok(None) => return Ok(None),
            Err(error) => return Err(error),
        };
        assert(args@[2] == args.inputs@[2]@ && args@[2].len() == args.row_count);
        let c2 = match ArgColumn::<C>::decode_null_tolerant(&args.inputs[2]) {
            Ok(Some(column)) => column,
            Ok(None) => return Ok(None),
            Err(error) => return Err(error),
        };
        assert(args@[3] == args.inputs@[3]@ && args@[3].len() == args.row_count);
        let c3 = match ArgColumn::<D>::decode_null_tolerant(&args.inputs[3]) {
            Ok(Some(column)) => column,
            Ok(None) => return Ok(None),
            Err(error) => return Err(error),
        };
        assert(args@[4] == args.inputs@[4]@ && args@[4].len() == args.row_count);
        let c4 = match ArgColumn::<E>::decode_null_tolerant(&args.inputs[4]) {
            Ok(Some(column)) => column,
            Ok(None) => return Ok(None),
            Err(error) => return Err(error),
        };
        assert(args@[5] == args.inputs@[5]@ && args@[5].len() == args.row_count);
        let c5 = match ArgColumn::<F>::decode_null_tolerant(&args.inputs[5]) {
            Ok(Some(column)) => column,
            Ok(None) => return Ok(None),
            Err(error) => return Err(error),
        };
        assert(args@[6] == args.inputs@[6]@ && args@[6].len() == args.row_count);
        let c6 = match ArgColumn::<G>::decode_null_tolerant(&args.inputs[6]) {
            Ok(Some(column)) => column,
            Ok(None) => return Ok(None),
            Err(error) => return Err(error),
        };
        assert(args@[7] == args.inputs@[7]@ && args@[7].len() == args.row_count);
        let c7 = match ArgColumn::<H>::decode_null_tolerant(&args.inputs[7]) {
            Ok(Some(column)) => column,
            Ok(None) => return Ok(None),
            Err(error) => return Err(error),
        };
        assert(args@[8] == args.inputs@[8]@ && args@[8].len() == args.row_count);
        let c8 = match ArgColumn::<I>::decode_null_tolerant(&args.inputs[8]) {
            Ok(Some(column)) => column,
            Ok(None) => return Ok(None),
            Err(error) => return Err(error),
        };
        assert(args@[9] == args.inputs@[9]@ && args@[9].len() == args.row_count);
        let c9 = match ArgColumn::<J>::decode_null_tolerant(&args.inputs[9]) {
            Ok(Some(column)) => column,
            Ok(None) => return Ok(None),
            Err(error) => return Err(error),
        };
        assert(args@[10] == args.inputs@[10]@ && args@[10].len() == args.row_count);
        let c10 = match ArgColumn::<K>::decode_null_tolerant(&args.inputs[10]) {
            Ok(Some(column)) => column,
            Ok(None) => return Ok(None),
            Err(error) => return Err(error),
        };
        let columns = (c0, c1, c2, c3, c4, c5, c6, c7, c8, c9, c10);
        proof {
            if !tuple::some_null_constant(args@) {
                assert(columns.0.stride == 0 ==> args@[0].len() > 0 && (!tuple::null_constant(args@[0])));
                assert(columns.0.stride == 0 ==> columns.0.can_get(0));
                assert(columns.1.stride == 0 ==> args@[1].len() > 0 && (!tuple::null_constant(args@[1])));
                assert(columns.1.stride == 0 ==> columns.1.can_get(0));
                assert(columns.2.stride == 0 ==> args@[2].len() > 0 && (!tuple::null_constant(args@[2])));
                assert(columns.2.stride == 0 ==> columns.2.can_get(0));
                assert(columns.3.stride == 0 ==> args@[3].len() > 0 && (!tuple::null_constant(args@[3])));
                assert(columns.3.stride == 0 ==> columns.3.can_get(0));
                assert(columns.4.stride == 0 ==> args@[4].len() > 0 && (!tuple::null_constant(args@[4])));
                assert(columns.4.stride == 0 ==> columns.4.can_get(0));
                assert(columns.5.stride == 0 ==> args@[5].len() > 0 && (!tuple::null_constant(args@[5])));
                assert(columns.5.stride == 0 ==> columns.5.can_get(0));
                assert(columns.6.stride == 0 ==> args@[6].len() > 0 && (!tuple::null_constant(args@[6])));
                assert(columns.6.stride == 0 ==> columns.6.can_get(0));
                assert(columns.7.stride == 0 ==> args@[7].len() > 0 && (!tuple::null_constant(args@[7])));
                assert(columns.7.stride == 0 ==> columns.7.can_get(0));
                assert(columns.8.stride == 0 ==> args@[8].len() > 0 && (!tuple::null_constant(args@[8])));
                assert(columns.8.stride == 0 ==> columns.8.can_get(0));
                assert(columns.9.stride == 0 ==> args@[9].len() > 0 && (!tuple::null_constant(args@[9])));
                assert(columns.9.stride == 0 ==> columns.9.can_get(0));
                assert(columns.10.stride == 0 ==> args@[10].len() > 0 && (!tuple::null_constant(args@[10])));
                assert(columns.10.stride == 0 ==> columns.10.can_get(0));
                assert(Self::can_get_constants(&columns));
            }
            assert forall|r: int| 0 <= r < args.row_count && vtable::valid_at(args@, r) implies (
            #[trigger] Self::can_get(&columns, r)) && Self::at(&columns, r) == Self::row_at(
                args@,
                r,
            ) by {
                assert(args@[0].cells[r].valid && columns.0.can_get(r));
                assert(args@[1].cells[r].valid && columns.1.can_get(r));
                assert(args@[2].cells[r].valid && columns.2.can_get(r));
                assert(args@[3].cells[r].valid && columns.3.can_get(r));
                assert(args@[4].cells[r].valid && columns.4.can_get(r));
                assert(args@[5].cells[r].valid && columns.5.can_get(r));
                assert(args@[6].cells[r].valid && columns.6.can_get(r));
                assert(args@[7].cells[r].valid && columns.7.can_get(r));
                assert(args@[8].cells[r].valid && columns.8.can_get(r));
                assert(args@[9].cells[r].valid && columns.9.can_get(r));
                assert(args@[10].cells[r].valid && columns.10.can_get(r));
            }
        }
        Ok(Some(columns))
    }

    fn get<'a>(columns: &'a Self::Columns, index: usize) -> (out: Self::Elems<'a>) {
        (columns.0.get(index), columns.1.get(index), columns.2.get(index), columns.3.get(index), columns.4.get(index), columns.5.get(index), columns.6.get(index), columns.7.get(index), columns.8.get(index), columns.9.get(index), columns.10.get(index))
    }

    fn constants<'a>(columns: &'a Self::Columns) -> (out: Self::ConstElems<'a>) {
        (columns.0.constant(), columns.1.constant(), columns.2.constant(), columns.3.constant(), columns.4.constant(), columns.5.constant(), columns.6.constant(), columns.7.constant(), columns.8.constant(), columns.9.constant(), columns.10.constant())
    }

    fn rows_match(columns: &Self::Columns, rows: usize) -> (out: bool) {
        columns.0.rows_match(rows) && columns.1.rows_match(rows) && columns.2.rows_match(rows) && columns.3.rows_match(rows) && columns.4.rows_match(rows) && columns.5.rows_match(rows) && columns.6.rows_match(rows) && columns.7.rows_match(rows) && columns.8.rows_match(rows) && columns.9.rows_match(rows) && columns.10.rows_match(rows)
    }
}

impl<A: InputElement, B: InputElement, C: InputElement, D: InputElement, E: InputElement, F: InputElement, G: InputElement, H: InputElement, I: InputElement, J: InputElement, K: InputElement, L: InputElement> ElementTuple for (A, B, C, D, E, F, G, H, I, J, K, L) {
    type Columns = (ArgColumn<A>, ArgColumn<B>, ArgColumn<C>, ArgColumn<D>, ArgColumn<E>, ArgColumn<F>, ArgColumn<G>, ArgColumn<H>, ArgColumn<I>, ArgColumn<J>, ArgColumn<K>, ArgColumn<L>);

    type Elems<'a> = (A::Elem<'a>, B::Elem<'a>, C::Elem<'a>, D::Elem<'a>, E::Elem<'a>, F::Elem<'a>, G::Elem<'a>, H::Elem<'a>, I::Elem<'a>, J::Elem<'a>, K::Elem<'a>, L::Elem<'a>);

    type ConstElems<'a> = (Option<A::Elem<'a>>, Option<B::Elem<'a>>, Option<C::Elem<'a>>, Option<D::Elem<'a>>, Option<E::Elem<'a>>, Option<F::Elem<'a>>, Option<G::Elem<'a>>, Option<H::Elem<'a>>, Option<I::Elem<'a>>, Option<J::Elem<'a>>, Option<K::Elem<'a>>, Option<L::Elem<'a>>);

    type V = (A::V, B::V, C::V, D::V, E::V, F::V, G::V, H::V, I::V, J::V, K::V, L::V);

    type ConstV = (Option<A::V>, Option<B::V>, Option<C::V>, Option<D::V>, Option<E::V>, Option<F::V>, Option<G::V>, Option<H::V>, Option<I::V>, Option<J::V>, Option<K::V>, Option<L::V>);

    const ARITY: usize = 12;

    const DENSE_SAFE: bool = A::DENSE_SAFE && B::DENSE_SAFE && C::DENSE_SAFE && D::DENSE_SAFE && E::DENSE_SAFE && F::DENSE_SAFE && G::DENSE_SAFE && H::DENSE_SAFE && I::DENSE_SAFE && J::DENSE_SAFE && K::DENSE_SAFE && L::DENSE_SAFE;

    const DECODE_FALLIBLE: bool = A::DECODE_FALLIBLE || B::DECODE_FALLIBLE || C::DECODE_FALLIBLE || D::DECODE_FALLIBLE || E::DECODE_FALLIBLE || F::DECODE_FALLIBLE || G::DECODE_FALLIBLE || H::DECODE_FALLIBLE || I::DECODE_FALLIBLE || J::DECODE_FALLIBLE || K::DECODE_FALLIBLE || L::DECODE_FALLIBLE;

    const FILTERED_DECODE_COST: usize = A::DECODE_SHRINKS_WHEN_FILTERED as usize + B::DECODE_SHRINKS_WHEN_FILTERED as usize + C::DECODE_SHRINKS_WHEN_FILTERED as usize + D::DECODE_SHRINKS_WHEN_FILTERED as usize + E::DECODE_SHRINKS_WHEN_FILTERED as usize + F::DECODE_SHRINKS_WHEN_FILTERED as usize + G::DECODE_SHRINKS_WHEN_FILTERED as usize + H::DECODE_SHRINKS_WHEN_FILTERED as usize + I::DECODE_SHRINKS_WHEN_FILTERED as usize + J::DECODE_SHRINKS_WHEN_FILTERED as usize + K::DECODE_SHRINKS_WHEN_FILTERED as usize + L::DECODE_SHRINKS_WHEN_FILTERED as usize;

    open spec fn arity() -> usize {
        12
    }

    open spec fn dense_safe() -> bool {
        A::dense_safe() && B::dense_safe() && C::dense_safe() && D::dense_safe() && E::dense_safe() && F::dense_safe() && G::dense_safe() && H::dense_safe() && I::dense_safe() && J::dense_safe() && K::dense_safe() && L::dense_safe()
    }

    open spec fn decode_fallible() -> bool {
        A::decode_fallible() || B::decode_fallible() || C::decode_fallible() || D::decode_fallible() || E::decode_fallible() || F::decode_fallible() || G::decode_fallible() || H::decode_fallible() || I::decode_fallible() || J::decode_fallible() || K::decode_fallible() || L::decode_fallible()
    }

    open spec fn decode_cost() -> usize {
        ((if A::decode_shrinks() { 1int } else { 0int }) + (if B::decode_shrinks() { 1int } else { 0int }) + (if C::decode_shrinks() { 1int } else { 0int }) + (if D::decode_shrinks() { 1int } else { 0int }) + (if E::decode_shrinks() { 1int } else { 0int }) + (if F::decode_shrinks() { 1int } else { 0int }) + (if G::decode_shrinks() { 1int } else { 0int }) + (if H::decode_shrinks() { 1int } else { 0int }) + (if I::decode_shrinks() { 1int } else { 0int }) + (if J::decode_shrinks() { 1int } else { 0int }) + (if K::decode_shrinks() { 1int } else { 0int }) + (if L::decode_shrinks() { 1int } else { 0int })) as usize
    }

    proof fn constants_hold() {
        A::constants_hold();
        B::constants_hold();
        C::constants_hold();
        D::constants_hold();
        E::constants_hold();
        F::constants_hold();
        G::constants_hold();
        H::constants_hold();
        I::constants_hold();
        J::constants_hold();
        K::constants_hold();
        L::constants_hold();
    }

    open spec fn accepts(dtypes: Seq<DTypeV>) -> Result<(), Seq<char>> {
        if dtypes.len() != 12 {
            Err(tuple::wrong_count(12, dtypes.len()))
        } else {
            tuple::also(A::accepts(dtypes[0]), tuple::also(B::accepts(dtypes[1]), tuple::also(C::accepts(dtypes[2]), tuple::also(D::accepts(dtypes[3]), tuple::also(E::accepts(dtypes[4]), tuple::also(F::accepts(dtypes[5]), tuple::also(G::accepts(dtypes[6]), tuple::also(H::accepts(dtypes[7]), tuple::also(I::accepts(dtypes[8]), tuple::also(J::accepts(dtypes[9]), tuple::also(K::accepts(dtypes[10]), L::accepts(dtypes[11]))))))))))))
        }
    }

    open spec fn decodes(args: Seq<ArrayV>) -> Result<(), Seq<char>> {
        tuple::also(A::decodes(tuple::collapsed(args[0])), tuple::also(B::decodes(tuple::collapsed(args[1])), tuple::also(C::decodes(tuple::collapsed(args[2])), tuple::also(D::decodes(tuple::collapsed(args[3])), tuple::also(E::decodes(tuple::collapsed(args[4])), tuple::also(F::decodes(tuple::collapsed(args[5])), tuple::also(G::decodes(tuple::collapsed(args[6])), tuple::also(H::decodes(tuple::collapsed(args[7])), tuple::also(I::decodes(tuple::collapsed(args[8])), tuple::also(J::decodes(tuple::collapsed(args[9])), tuple::also(K::decodes(tuple::collapsed(args[10])), L::decodes(tuple::collapsed(args[11])))))))))))))
    }

    open spec fn decodes_tolerant(args: Seq<ArrayV>) -> Result<bool, Seq<char>> {
        tuple::also_tolerant(A::decodes_tolerant(tuple::collapsed(args[0])), tuple::also_tolerant(B::decodes_tolerant(tuple::collapsed(args[1])), tuple::also_tolerant(C::decodes_tolerant(tuple::collapsed(args[2])), tuple::also_tolerant(D::decodes_tolerant(tuple::collapsed(args[3])), tuple::also_tolerant(E::decodes_tolerant(tuple::collapsed(args[4])), tuple::also_tolerant(F::decodes_tolerant(tuple::collapsed(args[5])), tuple::also_tolerant(G::decodes_tolerant(tuple::collapsed(args[6])), tuple::also_tolerant(H::decodes_tolerant(tuple::collapsed(args[7])), tuple::also_tolerant(I::decodes_tolerant(tuple::collapsed(args[8])), tuple::also_tolerant(J::decodes_tolerant(tuple::collapsed(args[9])), tuple::also_tolerant(K::decodes_tolerant(tuple::collapsed(args[10])), L::decodes_tolerant(tuple::collapsed(args[11])))))))))))))
    }

    open spec fn row_at(args: Seq<ArrayV>, r: int) -> Self::V {
        (A::reads(args[0].cells[r].value)->Some_0, B::reads(args[1].cells[r].value)->Some_0, C::reads(args[2].cells[r].value)->Some_0, D::reads(args[3].cells[r].value)->Some_0, E::reads(args[4].cells[r].value)->Some_0, F::reads(args[5].cells[r].value)->Some_0, G::reads(args[6].cells[r].value)->Some_0, H::reads(args[7].cells[r].value)->Some_0, I::reads(args[8].cells[r].value)->Some_0, J::reads(args[9].cells[r].value)->Some_0, K::reads(args[10].cells[r].value)->Some_0, L::reads(args[11].cells[r].value)->Some_0)
    }

    open spec fn can_get(columns: &Self::Columns, i: int) -> bool {
        columns.0.can_get(i) && columns.1.can_get(i) && columns.2.can_get(i) && columns.3.can_get(i) && columns.4.can_get(i) && columns.5.can_get(i) && columns.6.can_get(i) && columns.7.can_get(i) && columns.8.can_get(i) && columns.9.can_get(i) && columns.10.can_get(i) && columns.11.can_get(i)
    }

    open spec fn at(columns: &Self::Columns, i: int) -> Self::V {
        (columns.0.at(i), columns.1.at(i), columns.2.at(i), columns.3.at(i), columns.4.at(i), columns.5.at(i), columns.6.at(i), columns.7.at(i), columns.8.at(i), columns.9.at(i), columns.10.at(i), columns.11.at(i))
    }

    open spec fn can_get_constants(columns: &Self::Columns) -> bool {
        (columns.0.stride == 0 ==> columns.0.can_get(0)) && (columns.1.stride == 0 ==> columns.1.can_get(0)) && (columns.2.stride == 0 ==> columns.2.can_get(0)) && (columns.3.stride == 0 ==> columns.3.can_get(0)) && (columns.4.stride == 0 ==> columns.4.can_get(0)) && (columns.5.stride == 0 ==> columns.5.can_get(0)) && (columns.6.stride == 0 ==> columns.6.can_get(0)) && (columns.7.stride == 0 ==> columns.7.can_get(0)) && (columns.8.stride == 0 ==> columns.8.can_get(0)) && (columns.9.stride == 0 ==> columns.9.can_get(0)) && (columns.10.stride == 0 ==> columns.10.can_get(0)) && (columns.11.stride == 0 ==> columns.11.can_get(0))
    }

    open spec fn constants_of(columns: &Self::Columns) -> Self::ConstV {
        (columns.0.shared_element(), columns.1.shared_element(), columns.2.shared_element(), columns.3.shared_element(), columns.4.shared_element(), columns.5.shared_element(), columns.6.shared_element(), columns.7.shared_element(), columns.8.shared_element(), columns.9.shared_element(), columns.10.shared_element(), columns.11.shared_element())
    }

    open spec fn agree(constants: Self::ConstV, row: Self::V) -> bool {
        (constants.0 is Some ==> constants.0 == Some(row.0)) && (constants.1 is Some ==> constants.1 == Some(row.1)) && (constants.2 is Some ==> constants.2 == Some(row.2)) && (constants.3 is Some ==> constants.3 == Some(row.3)) && (constants.4 is Some ==> constants.4 == Some(row.4)) && (constants.5 is Some ==> constants.5 == Some(row.5)) && (constants.6 is Some ==> constants.6 == Some(row.6)) && (constants.7 is Some ==> constants.7 == Some(row.7)) && (constants.8 is Some ==> constants.8 == Some(row.8)) && (constants.9 is Some ==> constants.9 == Some(row.9)) && (constants.10 is Some ==> constants.10 == Some(row.10)) && (constants.11 is Some ==> constants.11 == Some(row.11))
    }

    open spec fn addresses(columns: &Self::Columns, rows: nat) -> bool {
        columns.0.addresses(rows) && columns.1.addresses(rows) && columns.2.addresses(rows) && columns.3.addresses(rows) && columns.4.addresses(rows) && columns.5.addresses(rows) && columns.6.addresses(rows) && columns.7.addresses(rows) && columns.8.addresses(rows) && columns.9.addresses(rows) && columns.10.addresses(rows) && columns.11.addresses(rows)
    }

    open spec fn meaning(elems: Self::Elems<'_>) -> Self::V {
        (A::meaning(elems.0), B::meaning(elems.1), C::meaning(elems.2), D::meaning(elems.3), E::meaning(elems.4), F::meaning(elems.5), G::meaning(elems.6), H::meaning(elems.7), I::meaning(elems.8), J::meaning(elems.9), K::meaning(elems.10), L::meaning(elems.11))
    }

    open spec fn const_meaning(elems: Self::ConstElems<'_>) -> Self::ConstV {
        (match elems.0 { Some(elem) => Some(A::meaning(elem)), None => None }, match elems.1 { Some(elem) => Some(B::meaning(elem)), None => None }, match elems.2 { Some(elem) => Some(C::meaning(elem)), None => None }, match elems.3 { Some(elem) => Some(D::meaning(elem)), None => None }, match elems.4 { Some(elem) => Some(E::meaning(elem)), None => None }, match elems.5 { Some(elem) => Some(F::meaning(elem)), None => None }, match elems.6 { Some(elem) => Some(G::meaning(elem)), None => None }, match elems.7 { Some(elem) => Some(H::meaning(elem)), None => None }, match elems.8 { Some(elem) => Some(I::meaning(elem)), None => None }, match elems.9 { Some(elem) => Some(J::meaning(elem)), None => None }, match elems.10 { Some(elem) => Some(K::meaning(elem)), None => None }, match elems.11 { Some(elem) => Some(L::meaning(elem)), None => None })
    }

    proof fn constants_agree(columns: &Self::Columns, i: int) {
    }

    proof fn accepts_arity(dtypes: Seq<DTypeV>) {
    }

    proof fn rows_are_local(a: Seq<ArrayV>, i: int, b: Seq<ArrayV>, j: int) {
        assert(a[0].cells[i].value == b[0].cells[j].value);
        assert(a[1].cells[i].value == b[1].cells[j].value);
        assert(a[2].cells[i].value == b[2].cells[j].value);
        assert(a[3].cells[i].value == b[3].cells[j].value);
        assert(a[4].cells[i].value == b[4].cells[j].value);
        assert(a[5].cells[i].value == b[5].cells[j].value);
        assert(a[6].cells[i].value == b[6].cells[j].value);
        assert(a[7].cells[i].value == b[7].cells[j].value);
        assert(a[8].cells[i].value == b[8].cells[j].value);
        assert(a[9].cells[i].value == b[9].cells[j].value);
        assert(a[10].cells[i].value == b[10].cells[j].value);
        assert(a[11].cells[i].value == b[11].cells[j].value);
    }

    fn validate(dtypes: &Vec<DType>) -> (out: VortexResult<()>) {
        if dtypes.len() != 12 {
            return Err(wrong_count_error(12, dtypes.len()));
        }
        if let Err(error) = A::validate(&dtypes[0]) {
            return Err(error);
        }
        if let Err(error) = B::validate(&dtypes[1]) {
            return Err(error);
        }
        if let Err(error) = C::validate(&dtypes[2]) {
            return Err(error);
        }
        if let Err(error) = D::validate(&dtypes[3]) {
            return Err(error);
        }
        if let Err(error) = E::validate(&dtypes[4]) {
            return Err(error);
        }
        if let Err(error) = F::validate(&dtypes[5]) {
            return Err(error);
        }
        if let Err(error) = G::validate(&dtypes[6]) {
            return Err(error);
        }
        if let Err(error) = H::validate(&dtypes[7]) {
            return Err(error);
        }
        if let Err(error) = I::validate(&dtypes[8]) {
            return Err(error);
        }
        if let Err(error) = J::validate(&dtypes[9]) {
            return Err(error);
        }
        if let Err(error) = K::validate(&dtypes[10]) {
            return Err(error);
        }
        if let Err(error) = L::validate(&dtypes[11]) {
            return Err(error);
        }
        Ok(())
    }

    fn decode(args: &ExecutionArgs) -> (out: VortexResult<Self::Columns>) {
        assert(args@[0] == args.inputs@[0]@ && args@[0].len() == args.row_count);
        let c0 = match ArgColumn::<A>::decode(&args.inputs[0]) {
            Ok(column) => column,
            Err(error) => return Err(error),
        };
        assert(args@[1] == args.inputs@[1]@ && args@[1].len() == args.row_count);
        let c1 = match ArgColumn::<B>::decode(&args.inputs[1]) {
            Ok(column) => column,
            Err(error) => return Err(error),
        };
        assert(args@[2] == args.inputs@[2]@ && args@[2].len() == args.row_count);
        let c2 = match ArgColumn::<C>::decode(&args.inputs[2]) {
            Ok(column) => column,
            Err(error) => return Err(error),
        };
        assert(args@[3] == args.inputs@[3]@ && args@[3].len() == args.row_count);
        let c3 = match ArgColumn::<D>::decode(&args.inputs[3]) {
            Ok(column) => column,
            Err(error) => return Err(error),
        };
        assert(args@[4] == args.inputs@[4]@ && args@[4].len() == args.row_count);
        let c4 = match ArgColumn::<E>::decode(&args.inputs[4]) {
            Ok(column) => column,
            Err(error) => return Err(error),
        };
        assert(args@[5] == args.inputs@[5]@ && args@[5].len() == args.row_count);
        let c5 = match ArgColumn::<F>::decode(&args.inputs[5]) {
            Ok(column) => column,
            Err(error) => return Err(error),
        };
        assert(args@[6] == args.inputs@[6]@ && args@[6].len() == args.row_count);
        let c6 = match ArgColumn::<G>::decode(&args.inputs[6]) {
            Ok(column) => column,
            Err(error) => return Err(error),
        };
        assert(args@[7] == args.inputs@[7]@ && args@[7].len() == args.row_count);
        let c7 = match ArgColumn::<H>::decode(&args.inputs[7]) {
            Ok(column) => column,
            Err(error) => return Err(error),
        };
        assert(args@[8] == args.inputs@[8]@ && args@[8].len() == args.row_count);
        let c8 = match ArgColumn::<I>::decode(&args.inputs[8]) {
            Ok(column) => column,
            Err(error) => return Err(error),
        };
        assert(args@[9] == args.inputs@[9]@ && args@[9].len() == args.row_count);
        let c9 = match ArgColumn::<J>::decode(&args.inputs[9]) {
            Ok(column) => column,
            Err(error) => return Err(error),
        };
        assert(args@[10] == args.inputs@[10]@ && args@[10].len() == args.row_count);
        let c10 = match ArgColumn::<K>::decode(&args.inputs[10]) {
            Ok(column) => column,
            Err(error) => return Err(error),
        };
        assert(args@[11] == args.inputs@[11]@ && args@[11].len() == args.row_count);
        let c11 = match ArgColumn::<L>::decode(&args.inputs[11]) {
            Ok(column) => column,
            Err(error) => return Err(error),
        };
        let columns = (c0, c1, c2, c3, c4, c5, c6, c7, c8, c9, c10, c11);
        proof {
            if Self::dense_safe() || !tuple::some_null_constant(args@) {
                assert(columns.0.stride == 0 ==> args@[0].len() > 0 && (A::dense_safe() || !tuple::null_constant(args@[0])));
                assert(columns.0.stride == 0 ==> columns.0.can_get(0));
                assert(columns.1.stride == 0 ==> args@[1].len() > 0 && (B::dense_safe() || !tuple::null_constant(args@[1])));
                assert(columns.1.stride == 0 ==> columns.1.can_get(0));
                assert(columns.2.stride == 0 ==> args@[2].len() > 0 && (C::dense_safe() || !tuple::null_constant(args@[2])));
                assert(columns.2.stride == 0 ==> columns.2.can_get(0));
                assert(columns.3.stride == 0 ==> args@[3].len() > 0 && (D::dense_safe() || !tuple::null_constant(args@[3])));
                assert(columns.3.stride == 0 ==> columns.3.can_get(0));
                assert(columns.4.stride == 0 ==> args@[4].len() > 0 && (E::dense_safe() || !tuple::null_constant(args@[4])));
                assert(columns.4.stride == 0 ==> columns.4.can_get(0));
                assert(columns.5.stride == 0 ==> args@[5].len() > 0 && (F::dense_safe() || !tuple::null_constant(args@[5])));
                assert(columns.5.stride == 0 ==> columns.5.can_get(0));
                assert(columns.6.stride == 0 ==> args@[6].len() > 0 && (G::dense_safe() || !tuple::null_constant(args@[6])));
                assert(columns.6.stride == 0 ==> columns.6.can_get(0));
                assert(columns.7.stride == 0 ==> args@[7].len() > 0 && (H::dense_safe() || !tuple::null_constant(args@[7])));
                assert(columns.7.stride == 0 ==> columns.7.can_get(0));
                assert(columns.8.stride == 0 ==> args@[8].len() > 0 && (I::dense_safe() || !tuple::null_constant(args@[8])));
                assert(columns.8.stride == 0 ==> columns.8.can_get(0));
                assert(columns.9.stride == 0 ==> args@[9].len() > 0 && (J::dense_safe() || !tuple::null_constant(args@[9])));
                assert(columns.9.stride == 0 ==> columns.9.can_get(0));
                assert(columns.10.stride == 0 ==> args@[10].len() > 0 && (K::dense_safe() || !tuple::null_constant(args@[10])));
                assert(columns.10.stride == 0 ==> columns.10.can_get(0));
                assert(columns.11.stride == 0 ==> args@[11].len() > 0 && (L::dense_safe() || !tuple::null_constant(args@[11])));
                assert(columns.11.stride == 0 ==> columns.11.can_get(0));
                assert(Self::can_get_constants(&columns));
            }
            assert forall|r: int|
                0 <= r < args.row_count && (Self::dense_safe() || vtable::valid_at(args@, r)) implies (
            #[trigger] Self::can_get(&columns, r)) && Self::at(&columns, r) == Self::row_at(
                args@,
                r,
            ) by {
                assert((A::dense_safe() || args@[0].cells[r].valid) && columns.0.can_get(r));
                assert((B::dense_safe() || args@[1].cells[r].valid) && columns.1.can_get(r));
                assert((C::dense_safe() || args@[2].cells[r].valid) && columns.2.can_get(r));
                assert((D::dense_safe() || args@[3].cells[r].valid) && columns.3.can_get(r));
                assert((E::dense_safe() || args@[4].cells[r].valid) && columns.4.can_get(r));
                assert((F::dense_safe() || args@[5].cells[r].valid) && columns.5.can_get(r));
                assert((G::dense_safe() || args@[6].cells[r].valid) && columns.6.can_get(r));
                assert((H::dense_safe() || args@[7].cells[r].valid) && columns.7.can_get(r));
                assert((I::dense_safe() || args@[8].cells[r].valid) && columns.8.can_get(r));
                assert((J::dense_safe() || args@[9].cells[r].valid) && columns.9.can_get(r));
                assert((K::dense_safe() || args@[10].cells[r].valid) && columns.10.can_get(r));
                assert((L::dense_safe() || args@[11].cells[r].valid) && columns.11.can_get(r));
            }
        }
        Ok(columns)
    }

    fn decode_null_tolerant(args: &ExecutionArgs) -> (out: VortexResult<Option<Self::Columns>>) {
        assert(args@[0] == args.inputs@[0]@ && args@[0].len() == args.row_count);
        let c0 = match ArgColumn::<A>::decode_null_tolerant(&args.inputs[0]) {
            Ok(Some(column)) => column,
            Ok(None) => return Ok(None),
            Err(error) => return Err(error),
        };
        assert(args@[1] == args.inputs@[1]@ && args@[1].len() == args.row_count);
        let c1 = match ArgColumn::<B>::decode_null_tolerant(&args.inputs[1]) {
            Ok(Some(column)) => column,
            Ok(None) => return Ok(None),
            Err(error) => return Err(error),
        };
        assert(args@[2] == args.inputs@[2]@ && args@[2].len() == args.row_count);
        let c2 = match ArgColumn::<C>::decode_null_tolerant(&args.inputs[2]) {
            Ok(Some(column)) => column,
            Ok(None) => return Ok(None),
            Err(error) => return Err(error),
        };
        assert(args@[3] == args.inputs@[3]@ && args@[3].len() == args.row_count);
        let c3 = match ArgColumn::<D>::decode_null_tolerant(&args.inputs[3]) {
            Ok(Some(column)) => column,
            Ok(None) => return Ok(None),
            Err(error) => return Err(error),
        };
        assert(args@[4] == args.inputs@[4]@ && args@[4].len() == args.row_count);
        let c4 = match ArgColumn::<E>::decode_null_tolerant(&args.inputs[4]) {
            Ok(Some(column)) => column,
            Ok(None) => return Ok(None),
            Err(error) => return Err(error),
        };
        assert(args@[5] == args.inputs@[5]@ && args@[5].len() == args.row_count);
        let c5 = match ArgColumn::<F>::decode_null_tolerant(&args.inputs[5]) {
            Ok(Some(column)) => column,
            Ok(None) => return Ok(None),
            Err(error) => return Err(error),
        };
        assert(args@[6] == args.inputs@[6]@ && args@[6].len() == args.row_count);
        let c6 = match ArgColumn::<G>::decode_null_tolerant(&args.inputs[6]) {
            Ok(Some(column)) => column,
            Ok(None) => return Ok(None),
            Err(error) => return Err(error),
        };
        assert(args@[7] == args.inputs@[7]@ && args@[7].len() == args.row_count);
        let c7 = match ArgColumn::<H>::decode_null_tolerant(&args.inputs[7]) {
            Ok(Some(column)) => column,
            Ok(None) => return Ok(None),
            Err(error) => return Err(error),
        };
        assert(args@[8] == args.inputs@[8]@ && args@[8].len() == args.row_count);
        let c8 = match ArgColumn::<I>::decode_null_tolerant(&args.inputs[8]) {
            Ok(Some(column)) => column,
            Ok(None) => return Ok(None),
            Err(error) => return Err(error),
        };
        assert(args@[9] == args.inputs@[9]@ && args@[9].len() == args.row_count);
        let c9 = match ArgColumn::<J>::decode_null_tolerant(&args.inputs[9]) {
            Ok(Some(column)) => column,
            Ok(None) => return Ok(None),
            Err(error) => return Err(error),
        };
        assert(args@[10] == args.inputs@[10]@ && args@[10].len() == args.row_count);
        let c10 = match ArgColumn::<K>::decode_null_tolerant(&args.inputs[10]) {
            Ok(Some(column)) => column,
            Ok(None) => return Ok(None),
            Err(error) => return Err(error),
        };
        assert(args@[11] == args.inputs@[11]@ && args@[11].len() == args.row_count);
        let c11 = match ArgColumn::<L>::decode_null_tolerant(&args.inputs[11]) {
            Ok(Some(column)) => column,
            Ok(None) => return Ok(None),
            Err(error) => return Err(error),
        };
        let columns = (c0, c1, c2, c3, c4, c5, c6, c7, c8, c9, c10, c11);
        proof {
            if !tuple::some_null_constant(args@) {
                assert(columns.0.stride == 0 ==> args@[0].len() > 0 && (!tuple::null_constant(args@[0])));
                assert(columns.0.stride == 0 ==> columns.0.can_get(0));
                assert(columns.1.stride == 0 ==> args@[1].len() > 0 && (!tuple::null_constant(args@[1])));
                assert(columns.1.stride == 0 ==> columns.1.can_get(0));
                assert(columns.2.stride == 0 ==> args@[2].len() > 0 && (!tuple::null_constant(args@[2])));
                assert(columns.2.stride == 0 ==> columns.2.can_get(0));
                assert(columns.3.stride == 0 ==> args@[3].len() > 0 && (!tuple::null_constant(args@[3])));
                assert(columns.3.stride == 0 ==> columns.3.can_get(0));
                assert(columns.4.stride == 0 ==> args@[4].len() > 0 && (!tuple::null_constant(args@[4])));
                assert(columns.4.stride == 0 ==> columns.4.can_get(0));
                assert(columns.5.stride == 0 ==> args@[5].len() > 0 && (!tuple::null_constant(args@[5])));
                assert(columns.5.stride == 0 ==> columns.5.can_get(0));
                assert(columns.6.stride == 0 ==> args@[6].len() > 0 && (!tuple::null_constant(args@[6])));
                assert(columns.6.stride == 0 ==> columns.6.can_get(0));
                assert(columns.7.stride == 0 ==> args@[7].len() > 0 && (!tuple::null_constant(args@[7])));
                assert(columns.7.stride == 0 ==> columns.7.can_get(0));
                assert(columns.8.stride == 0 ==> args@[8].len() > 0 && (!tuple::null_constant(args@[8])));
                assert(columns.8.stride == 0 ==> columns.8.can_get(0));
                assert(columns.9.stride == 0 ==> args@[9].len() > 0 && (!tuple::null_constant(args@[9])));
                assert(columns.9.stride == 0 ==> columns.9.can_get(0));
                assert(columns.10.stride == 0 ==> args@[10].len() > 0 && (!tuple::null_constant(args@[10])));
                assert(columns.10.stride == 0 ==> columns.10.can_get(0));
                assert(columns.11.stride == 0 ==> args@[11].len() > 0 && (!tuple::null_constant(args@[11])));
                assert(columns.11.stride == 0 ==> columns.11.can_get(0));
                assert(Self::can_get_constants(&columns));
            }
            assert forall|r: int| 0 <= r < args.row_count && vtable::valid_at(args@, r) implies (
            #[trigger] Self::can_get(&columns, r)) && Self::at(&columns, r) == Self::row_at(
                args@,
                r,
            ) by {
                assert(args@[0].cells[r].valid && columns.0.can_get(r));
                assert(args@[1].cells[r].valid && columns.1.can_get(r));
                assert(args@[2].cells[r].valid && columns.2.can_get(r));
                assert(args@[3].cells[r].valid && columns.3.can_get(r));
                assert(args@[4].cells[r].valid && columns.4.can_get(r));
                assert(args@[5].cells[r].valid && columns.5.can_get(r));
                assert(args@[6].cells[r].valid && columns.6.can_get(r));
                assert(args@[7].cells[r].valid && columns.7.can_get(r));
                assert(args@[8].cells[r].valid && columns.8.can_get(r));
                assert(args@[9].cells[r].valid && columns.9.can_get(r));
                assert(args@[10].cells[r].valid && columns.10.can_get(r));
                assert(args@[11].cells[r].valid && columns.11.can_get(r));
            }
        }
        Ok(Some(columns))
    }

    fn get<'a>(columns: &'a Self::Columns, index: usize) -> (out: Self::Elems<'a>) {
        (columns.0.get(index), columns.1.get(index), columns.2.get(index), columns.3.get(index), columns.4.get(index), columns.5.get(index), columns.6.get(index), columns.7.get(index), columns.8.get(index), columns.9.get(index), columns.10.get(index), columns.11.get(index))
    }

    fn constants<'a>(columns: &'a Self::Columns) -> (out: Self::ConstElems<'a>) {
        (columns.0.constant(), columns.1.constant(), columns.2.constant(), columns.3.constant(), columns.4.constant(), columns.5.constant(), columns.6.constant(), columns.7.constant(), columns.8.constant(), columns.9.constant(), columns.10.constant(), columns.11.constant())
    }

    fn rows_match(columns: &Self::Columns, rows: usize) -> (out: bool) {
        columns.0.rows_match(rows) && columns.1.rows_match(rows) && columns.2.rows_match(rows) && columns.3.rows_match(rows) && columns.4.rows_match(rows) && columns.5.rows_match(rows) && columns.6.rows_match(rows) && columns.7.rows_match(rows) && columns.8.rows_match(rows) && columns.9.rows_match(rows) && columns.10.rows_match(rows) && columns.11.rows_match(rows)
    }
}

} // verus!
