//! Options of scalar functions, and how they persist.

use vstd::prelude::*;

use crate::error::{VortexError, VortexResult};
use crate::proto::{self, read_int32, write_int32};
use crate::scalar_fn::fns::operators::Operator;
use crate::scalar_fn::vtable::ScalarFnVTable;
use crate::text::{self, join2, signed};

verus! {

/// The options of a function that has none.
#[derive(Clone, Copy, PartialEq, Eq, Structural, Debug, Hash, Default)]
pub struct EmptyOptions;

/// Persisted options as their bytes.
pub open spec fn bytes_outcome(result: VortexResult<Option<Vec<u8>>>) -> Result<
    Option<Seq<u8>>,
    Seq<char>,
> {
    match result {
        Ok(Some(bytes)) => Ok(Some(bytes@)),
        Ok(None) => Ok(None),
        Err(error) => Err(error@),
    }
}

/// The options of a scalar function, together with how to persist them.
pub trait PersistableOptions: Sized {
    /// The bytes that these options persist as, `None` if they cannot.
    spec fn persisted(&self) -> Result<Option<Seq<u8>>, Seq<char>>;

    /// The options are those that the bytes restore to.
    spec fn restored(bytes: Seq<u8>, options: Result<Self, Seq<char>>) -> bool;

    /// Two options are the same.
    spec fn equals(&self, other: &Self) -> bool;

    /// Serialize these options.
    fn serialize(&self) -> (out: VortexResult<Option<Vec<u8>>>)
        ensures
            bytes_outcome(out) == self.persisted(),
    ;

    /// Restore options written by [`serialize`](Self::serialize).
    fn deserialize(metadata: &[u8]) -> (out: VortexResult<Self>)
        ensures
            Self::restored(
                metadata@,
                (match out {
                    Ok(options) => Ok(options),
                    Err(error) => Err(error@),
                }),
            ),
    ;

    fn options_eq(&self, other: &Self) -> (out: bool)
        ensures
            out == self.equals(other),
    ;
}

impl PersistableOptions for EmptyOptions {
    open spec fn persisted(&self) -> Result<Option<Seq<u8>>, Seq<char>> {
        Ok(Some(Seq::empty()))
    }

    open spec fn restored(bytes: Seq<u8>, options: Result<Self, Seq<char>>) -> bool {
        options is Ok
    }

    open spec fn equals(&self, other: &Self) -> bool {
        true
    }

    fn serialize(&self) -> (out: VortexResult<Option<Vec<u8>>>) {
        let bytes: Vec<u8> = Vec::new();
        assert(bytes@ =~= Seq::<u8>::empty());
        Ok(Some(bytes))
    }

    fn deserialize(metadata: &[u8]) -> (out: VortexResult<Self>) {
        Ok(EmptyOptions)
    }

    fn options_eq(&self, other: &Self) -> (out: bool) {
        true
    }
}

impl Operator {
    /// The number that an operator persists as.
    pub open spec fn number(self) -> i32 {
        match self {
            Operator::Eq => 0,
            Operator::NotEq => 1,
            Operator::Gt => 2,
            Operator::Gte => 3,
            Operator::Lt => 4,
            Operator::Lte => 5,
            Operator::And => 6,
            Operator::Or => 7,
            Operator::Add => 8,
            Operator::Sub => 9,
            Operator::Mul => 10,
            Operator::Div => 11,
        }
    }

    fn to_number(self) -> (out: i32)
        ensures
            out == self.number(),
    {
        match self {
            Operator::Eq => 0,
            Operator::NotEq => 1,
            Operator::Gt => 2,
            Operator::Gte => 3,
            Operator::Lt => 4,
            Operator::Lte => 5,
            Operator::And => 6,
            Operator::Or => 7,
            Operator::Add => 8,
            Operator::Sub => 9,
            Operator::Mul => 10,
            Operator::Div => 11,
        }
    }

    /// The operator that a number stands for.
    pub fn try_from_number(number: i32) -> (out: VortexResult<Operator>)
        ensures
            match out {
                Ok(op) => op.number() == number,
                Err(error) => (number < 0 || number > 11) && error@ == unknown_operator(
                    number as int,
                ),
            },
    {
        match number {
            0 => Ok(Operator::Eq),
            1 => Ok(Operator::NotEq),
            2 => Ok(Operator::Gt),
            3 => Ok(Operator::Gte),
            4 => Ok(Operator::Lt),
            5 => Ok(Operator::Lte),
            6 => Ok(Operator::And),
            7 => Ok(Operator::Or),
            8 => Ok(Operator::Add),
            9 => Ok(Operator::Sub),
            10 => Ok(Operator::Mul),
            11 => Ok(Operator::Div),
            _ => Err(
                VortexError::new(
                    join2("no binary operator has the number ", signed(number as i64).as_str()),
                ),
            ),
        }
    }
}

/// What is said of a number that no operator has.
pub open spec fn unknown_operator(number: int) -> Seq<char> {
    "no binary operator has the number "@ + text::signed_text(number)
}

impl PersistableOptions for Operator {
    open spec fn persisted(&self) -> Result<Option<Seq<u8>>, Seq<char>> {
        Ok(Some(proto::int32_message(self.number())))
    }

    open spec fn restored(bytes: Seq<u8>, options: Result<Self, Seq<char>>) -> bool {
        match proto::int32_read(bytes) {
            Err(text) => options == Err::<Operator, Seq<char>>(text),
            Ok(number) => match options {
                Ok(op) => op.number() == number,
                Err(text) => (number < 0 || number > 11) && text == unknown_operator(
                    number as int,
                ),
            },
        }
    }

    open spec fn equals(&self, other: &Self) -> bool {
        *self == *other
    }

    fn serialize(&self) -> (out: VortexResult<Option<Vec<u8>>>) {
        Ok(Some(write_int32(self.to_number())))
    }

    fn deserialize(metadata: &[u8]) -> (out: VortexResult<Self>)
        ensures
            forall|op: Operator|
                metadata@ == proto::int32_message(#[trigger] op.number()) ==> out == Ok::<
                    Operator,
                    VortexError,
                >(op),
    {
        match read_int32(metadata) {
            Ok(number) => {
                let out = Operator::try_from_number(number);
                assert forall|op: Operator|
                    metadata@ == proto::int32_message(#[trigger] op.number()) implies out == Ok::<
                    Operator,
                    VortexError,
                >(op) by {
                    assert(number == op.number());
                }
                out
            },
            Err(message) => Err(VortexError::new(message)),
        }
    }

    fn options_eq(&self, other: &Self) -> (out: bool) {
        *self == *other
    }
}

/// A handle to the options of a scalar function.
pub struct ScalarFnOptions<'a, V: ScalarFnVTable> {
    pub inner: &'a V,
    pub options: &'a V::Options,
}

impl<'a, V: ScalarFnVTable> ScalarFnOptions<'a, V> {
    /// The underlying options.
    pub fn as_any(&self) -> (out: &'a V::Options)
        ensures
            out == self.options,
    {
        self.options
    }
}

impl<'a, V: ScalarFnVTable> ScalarFnOptions<'a, V> where V::Options: PersistableOptions {
    /// Serialize the options to bytes.
    pub fn serialize(&self) -> (out: VortexResult<Option<Vec<u8>>>)
        ensures
            bytes_outcome(out) == self.options.persisted(),
    {
        self.options.serialize()
    }

    /// Whether these are the same options of the same function.
    pub fn same_as(&self, other: &ScalarFnOptions<'a, V>) -> (out: bool)
        ensures
            out == (self.inner.id_text() == other.inner.id_text() && self.options.equals(
                other.options,
            )),
    {
        self.inner.id() == other.inner.id() && self.options.options_eq(other.options)
    }
}

} // verus!
