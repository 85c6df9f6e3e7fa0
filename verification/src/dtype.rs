//! Logical data types.

use std::sync::Arc;

use vstd::prelude::*;

use crate::text::{self, decimal, join2, join3, signed};

verus! {

/// Whether a column may hold nulls.
#[derive(Clone, Copy, PartialEq, Eq, Structural, Debug, Hash)]
pub enum Nullability {
    NonNullable,
    Nullable,
}

impl Nullability {
    /// Nullable if either is.
    pub open spec fn union(self, other: Nullability) -> Nullability {
        if self is Nullable || other is Nullable {
            Nullability::Nullable
        } else {
            Nullability::NonNullable
        }
    }

    /// Nullable if either is.
    pub fn or(self, other: Nullability) -> (out: Nullability)
        ensures
            out == self.union(other),
    {
        match (self, other) {
            (Nullability::NonNullable, Nullability::NonNullable) => Nullability::NonNullable,
            _ => Nullability::Nullable,
        }
    }

    /// `Nullable` for `true`.
    pub open spec fn of(nullable: bool) -> Nullability {
        if nullable {
            Nullability::Nullable
        } else {
            Nullability::NonNullable
        }
    }

    /// `Nullable` for `true`.
    pub fn from_bool(nullable: bool) -> (out: Nullability)
        ensures
            out == Nullability::of(nullable),
    {
        if nullable {
            Nullability::Nullable
        } else {
            Nullability::NonNullable
        }
    }
}

/// A primitive type.
#[derive(Clone, Copy, PartialEq, Eq, Structural, Debug, Hash)]
pub enum PType {
    U8,
    U16,
    U32,
    U64,
    I8,
    I16,
    I32,
    I64,
    F16,
    F32,
    F64,
}

impl PType {
    /// Whether this is a float type.
    pub open spec fn float(self) -> bool {
        self is F16 || self is F32 || self is F64
    }

    /// Whether this is a float type.
    pub fn is_float(self) -> (out: bool)
        ensures
            out == self.float(),
    {
        matches!(self, PType::F16 | PType::F32 | PType::F64)
    }

    /// The name of the type.
    pub open spec fn text(self) -> Seq<char> {
        match self {
            PType::U8 => "u8"@,
            PType::U16 => "u16"@,
            PType::U32 => "u32"@,
            PType::U64 => "u64"@,
            PType::I8 => "i8"@,
            PType::I16 => "i16"@,
            PType::I32 => "i32"@,
            PType::I64 => "i64"@,
            PType::F16 => "f16"@,
            PType::F32 => "f32"@,
            PType::F64 => "f64"@,
        }
    }

    /// The name of the type.
    pub fn name(self) -> (out: &'static str)
        ensures
            out@ == self.text(),
    {
        match self {
            PType::U8 => "u8",
            PType::U16 => "u16",
            PType::U32 => "u32",
            PType::U64 => "u64",
            PType::I8 => "i8",
            PType::I16 => "i16",
            PType::I32 => "i32",
            PType::I64 => "i64",
            PType::F16 => "f16",
            PType::F32 => "f32",
            PType::F64 => "f64",
        }
    }
}

/// The precision and scale of a decimal.
#[derive(Clone, Copy, PartialEq, Eq, Structural, Debug, Hash)]
pub struct DecimalDType {
    pub precision: u8,
    pub scale: i8,
}

/// A named field of a struct type.
#[derive(Debug)]
pub struct Field {
    pub name: String,
    pub dtype: DType,
}

/// A logical data type.
#[derive(Debug)]
pub enum DType {
    Null,
    Bool(Nullability),
    Primitive(PType, Nullability),
    Decimal(DecimalDType, Nullability),
    Utf8(Nullability),
    Binary(Nullability),
    List(Arc<DType>, Nullability),
    FixedSizeList(Arc<DType>, u32, Nullability),
    Struct(Arc<Vec<Field>>, Nullability),
    Extension(Arc<String>, Arc<DType>),
}

/// What a data type is: names as texts, fields as a sequence.
pub enum DTypeV {
    Null,
    Bool(Nullability),
    Primitive(PType, Nullability),
    Decimal(DecimalDType, Nullability),
    Utf8(Nullability),
    Binary(Nullability),
    List(Box<DTypeV>, Nullability),
    FixedSizeList(Box<DTypeV>, nat, Nullability),
    Struct(Seq<(Seq<char>, DTypeV)>, Nullability),
    Extension(Seq<char>, Box<DTypeV>),
}

impl DType {
    /// What this type is.
    pub open spec fn model(&self) -> DTypeV
        decreases self,
    {
        match self {
            DType::Null => DTypeV::Null,
            DType::Bool(n) => DTypeV::Bool(*n),
            DType::Primitive(p, n) => DTypeV::Primitive(*p, *n),
            DType::Decimal(d, n) => DTypeV::Decimal(*d, *n),
            DType::Utf8(n) => DTypeV::Utf8(*n),
            DType::Binary(n) => DTypeV::Binary(*n),
            DType::List(element, n) => DTypeV::List(Box::new(element.model()), *n),
            DType::FixedSizeList(element, size, n) => DTypeV::FixedSizeList(
                Box::new(element.model()),
                *size as nat,
                *n,
            ),
            DType::Struct(fields, n) => DTypeV::Struct(
                Seq::new(
                    fields@.len(),
                    |i: int|
                        if 0 <= i < fields@.len() {
                            (fields@[i].name@, fields@[i].dtype.model())
                        } else {
                            arbitrary()
                        },
                ),
                *n,
            ),
            DType::Extension(id, storage) => DTypeV::Extension(id@, Box::new(storage.model())),
        }
    }
}

impl View for DType {
    type V = DTypeV;

    open spec fn view(&self) -> DTypeV {
        self.model()
    }
}

impl Clone for DType {
    fn clone(&self) -> (out: Self)
        ensures
            out == *self,
    {
        match self {
            DType::Null => DType::Null,
            DType::Bool(n) => DType::Bool(*n),
            DType::Primitive(p, n) => DType::Primitive(*p, *n),
            DType::Decimal(d, n) => DType::Decimal(*d, *n),
            DType::Utf8(n) => DType::Utf8(*n),
            DType::Binary(n) => DType::Binary(*n),
            DType::List(element, n) => DType::List(Arc::clone(element), *n),
            DType::FixedSizeList(element, size, n) => DType::FixedSizeList(
                Arc::clone(element),
                *size,
                *n,
            ),
            DType::Struct(fields, n) => DType::Struct(Arc::clone(fields), *n),
            DType::Extension(id, storage) => DType::Extension(
                Arc::clone(id),
                Arc::clone(storage),
            ),
        }
    }
}

impl DTypeV {
    /// The outer nullability. A null type holds only nulls; an extension has its storage's.
    pub open spec fn nullability(self) -> Nullability
        decreases self,
    {
        match self {
            DTypeV::Null => Nullability::Nullable,
            DTypeV::Bool(n) => n,
            DTypeV::Primitive(_, n) => n,
            DTypeV::Decimal(_, n) => n,
            DTypeV::Utf8(n) => n,
            DTypeV::Binary(n) => n,
            DTypeV::List(_, n) => n,
            DTypeV::FixedSizeList(_, _, n) => n,
            DTypeV::Struct(_, n) => n,
            DTypeV::Extension(_, storage) => storage.nullability(),
        }
    }

    pub open spec fn nullable(self) -> bool {
        self.nullability() is Nullable
    }

    /// The same type with another outer nullability.
    pub open spec fn with_nullability(self, n: Nullability) -> DTypeV
        decreases self,
    {
        match self {
            DTypeV::Null => DTypeV::Null,
            DTypeV::Bool(_) => DTypeV::Bool(n),
            DTypeV::Primitive(p, _) => DTypeV::Primitive(p, n),
            DTypeV::Decimal(d, _) => DTypeV::Decimal(d, n),
            DTypeV::Utf8(_) => DTypeV::Utf8(n),
            DTypeV::Binary(_) => DTypeV::Binary(n),
            DTypeV::List(element, _) => DTypeV::List(element, n),
            DTypeV::FixedSizeList(element, size, _) => DTypeV::FixedSizeList(element, size, n),
            DTypeV::Struct(fields, _) => DTypeV::Struct(fields, n),
            DTypeV::Extension(id, storage) => DTypeV::Extension(
                id,
                Box::new(storage.with_nullability(n)),
            ),
        }
    }

    /// The type with every nullability, nested ones too, forgotten.
    pub open spec fn erased(self) -> DTypeV
        decreases self,
    {
        let n = Nullability::NonNullable;
        match self {
            DTypeV::Null => DTypeV::Null,
            DTypeV::Bool(_) => DTypeV::Bool(n),
            DTypeV::Primitive(p, _) => DTypeV::Primitive(p, n),
            DTypeV::Decimal(d, _) => DTypeV::Decimal(d, n),
            DTypeV::Utf8(_) => DTypeV::Utf8(n),
            DTypeV::Binary(_) => DTypeV::Binary(n),
            DTypeV::List(element, _) => DTypeV::List(Box::new(element.erased()), n),
            DTypeV::FixedSizeList(element, size, _) => DTypeV::FixedSizeList(
                Box::new(element.erased()),
                size,
                n,
            ),
            DTypeV::Struct(fields, _) => DTypeV::Struct(
                Seq::new(
                    fields.len(),
                    |i: int|
                        if 0 <= i < fields.len() {
                            (fields[i].0, fields[i].1.erased())
                        } else {
                            arbitrary()
                        },
                ),
                n,
            ),
            DTypeV::Extension(id, storage) => DTypeV::Extension(id, Box::new(storage.erased())),
        }
    }

    /// Whether two types differ in nullability at most.
    pub open spec fn eq_ignore_nullability(self, other: DTypeV) -> bool {
        self.erased() == other.erased()
    }
}

/// The mark of a nullable type.
pub open spec fn question(n: Nullability) -> Seq<char> {
    if n is Nullable {
        "?"@
    } else {
        ""@
    }
}

impl DTypeV {
    /// The type as text.
    pub open spec fn text(self) -> Seq<char>
        decreases self, 0nat,
    {
        match self {
            DTypeV::Null => "null"@,
            DTypeV::Bool(n) => "bool"@ + question(n),
            DTypeV::Primitive(p, n) => p.text() + question(n),
            DTypeV::Decimal(d, n) => "decimal("@ + text::decimal_text(d.precision as nat) + ","@
                + text::signed_text(d.scale as int) + ")"@ + question(n),
            DTypeV::Utf8(n) => "utf8"@ + question(n),
            DTypeV::Binary(n) => "binary"@ + question(n),
            DTypeV::List(element, n) => "list("@ + element.text() + ")"@ + question(n),
            DTypeV::FixedSizeList(element, size, n) => "fixed_size_list("@ + element.text() + ")["@
                + text::decimal_text(size) + "]"@ + question(n),
            DTypeV::Struct(fields, n) => "{"@ + DTypeV::fields_text(fields, fields.len()) + "}"@
                + question(n),
            DTypeV::Extension(id, storage) => id + "("@ + storage.text() + ")"@,
        }
    }

    /// The first `count` fields as text.
    pub open spec fn fields_text(fields: Seq<(Seq<char>, DTypeV)>, count: nat) -> Seq<char>
        decreases fields, count,
    {
        if count == 0 || count > fields.len() {
            ""@
        } else {
            let i = (count - 1) as nat;
            let before = if i == 0 {
                ""@
            } else {
                DTypeV::fields_text(fields, i) + ", "@
            };
            before + fields[i as int].0 + "="@ + fields[i as int].1.text()
        }
    }
}

fn question_mark(n: Nullability) -> (out: &'static str)
    ensures
        out@ == question(n),
{
    match n {
        Nullability::Nullable => "?",
        Nullability::NonNullable => "",
    }
}

impl DType {
    /// The outer nullability.
    pub fn nullability(&self) -> (out: Nullability)
        ensures
            out == self@.nullability(),
        decreases self,
    {
        match self {
            DType::Null => Nullability::Nullable,
            DType::Bool(n) => *n,
            DType::Primitive(_, n) => *n,
            DType::Decimal(_, n) => *n,
            DType::Utf8(n) => *n,
            DType::Binary(n) => *n,
            DType::List(_, n) => *n,
            DType::FixedSizeList(_, _, n) => *n,
            DType::Struct(_, n) => *n,
            DType::Extension(_, storage) => storage.nullability(),
        }
    }

    /// Whether the type may hold nulls.
    pub fn is_nullable(&self) -> (out: bool)
        ensures
            out == self@.nullable(),
    {
        matches!(self.nullability(), Nullability::Nullable)
    }

    /// The same type with another outer nullability.
    pub fn with_nullability(&self, nullability: Nullability) -> (out: DType)
        ensures
            out@ == self@.with_nullability(nullability),
        decreases self,
    {
        match self {
            DType::Null => DType::Null,
            DType::Bool(_) => DType::Bool(nullability),
            DType::Primitive(p, _) => DType::Primitive(*p, nullability),
            DType::Decimal(d, _) => DType::Decimal(*d, nullability),
            DType::Utf8(_) => DType::Utf8(nullability),
            DType::Binary(_) => DType::Binary(nullability),
            DType::List(element, _) => DType::List(Arc::clone(element), nullability),
            DType::FixedSizeList(element, size, _) => DType::FixedSizeList(
                Arc::clone(element),
                *size,
                nullability,
            ),
            DType::Struct(fields, _) => DType::Struct(Arc::clone(fields), nullability),
            DType::Extension(id, storage) => DType::Extension(
                Arc::clone(id),
                Arc::new(storage.with_nullability(nullability)),
            ),
        }
    }

    /// The nullable form of the type.
    pub fn as_nullable(&self) -> (out: DType)
        ensures
            out@ == self@.with_nullability(Nullability::Nullable),
    {
        self.with_nullability(Nullability::Nullable)
    }

    #[verifier::spinoff_prover]
    #[verifier::rlimit(40)]
    fn matches(&self, other: &DType, ignore: bool) -> (out: bool)
        ensures
            out == (if ignore {
                self@.eq_ignore_nullability(other@)
            } else {
                self@ == other@
            }),
        decreases self,
    {
        match (self, other) {
            (DType::Null, DType::Null) => true,
            (DType::Bool(a), DType::Bool(b)) => ignore || *a == *b,
            (DType::Primitive(p, a), DType::Primitive(q, b)) => *p == *q && (ignore || *a == *b),
            (DType::Decimal(p, a), DType::Decimal(q, b)) => *p == *q && (ignore || *a == *b),
            (DType::Utf8(a), DType::Utf8(b)) => ignore || *a == *b,
            (DType::Binary(a), DType::Binary(b)) => ignore || *a == *b,
            (DType::List(p, a), DType::List(q, b)) => p.matches(q, ignore) && (ignore || *a == *b),
            (DType::FixedSizeList(p, m, a), DType::FixedSizeList(q, n, b)) => *m == *n && p.matches(
                q,
                ignore,
            ) && (ignore || *a == *b),
            (DType::Struct(p, a), DType::Struct(q, b)) => {
                let same = Self::fields_match(p, q, ignore);
                proof {
                    struct_models(p, q, *a, *b);
                }
                same && (ignore || *a == *b)
            },
            (DType::Extension(i, p), DType::Extension(j, q)) => **i == **j && p.matches(q, ignore),
            _ => false,
        }
    }

    fn fields_match(p: &Vec<Field>, q: &Vec<Field>, ignore: bool) -> (out: bool)
        ensures
            out == (p@.len() == q@.len() && forall|i: int|
                0 <= i < p@.len() ==> (#[trigger] p@[i]).name@ == q@[i].name@ && (if ignore {
                    p@[i].dtype@.eq_ignore_nullability(q@[i].dtype@)
                } else {
                    p@[i].dtype@ == q@[i].dtype@
                })),
        decreases p,
    {
        if p.len() != q.len() {
            return false;
        }
        let mut index: usize = 0;
        while index < p.len()
            invariant
                index <= p@.len() == q@.len(),
                forall|i: int|
                    0 <= i < index ==> (#[trigger] p@[i]).name@ == q@[i].name@ && (if ignore {
                        p@[i].dtype@.eq_ignore_nullability(q@[i].dtype@)
                    } else {
                        p@[i].dtype@ == q@[i].dtype@
                    }),
            decreases p@.len() - index,
        {
            if !(p[index].name == q[index].name) || !p[index].dtype.matches(
                &q[index].dtype,
                ignore,
            ) {
                assert(!(p@[index as int].name@ == q@[index as int].name@ && (if ignore {
                    p@[index as int].dtype@.eq_ignore_nullability(q@[index as int].dtype@)
                } else {
                    p@[index as int].dtype@ == q@[index as int].dtype@
                })));
                return false;
            }
            index = index + 1;
        }
        true
    }

    /// Whether two types are the same.
    pub fn same_as(&self, other: &DType) -> (out: bool)
        ensures
            out == (self@ == other@),
    {
        self.matches(other, false)
    }

    /// Whether two types differ in nullability at most, nested nullability included.
    pub fn eq_ignore_nullability(&self, other: &DType) -> (out: bool)
        ensures
            out == self@.eq_ignore_nullability(other@),
    {
        self.matches(other, true)
    }

    /// The type as text.
    pub fn to_text(&self) -> (out: String)
        ensures
            out@ == self@.text(),
        decreases self,
    {
        match self {
            DType::Null => String::from_str("null"),
            DType::Bool(n) => join2("bool", question_mark(*n)),
            DType::Primitive(p, n) => join2(p.name(), question_mark(*n)),
            DType::Decimal(d, n) => {
                let mut out = join3("decimal(", decimal(d.precision as u64).as_str(), ",");
                out.append(signed(d.scale as i64).as_str());
                out.append(")");
                out.append(question_mark(*n));
                out
            },
            DType::Utf8(n) => join2("utf8", question_mark(*n)),
            DType::Binary(n) => join2("binary", question_mark(*n)),
            DType::List(element, n) => {
                let mut out = join3("list(", element.to_text().as_str(), ")");
                out.append(question_mark(*n));
                out
            },
            DType::FixedSizeList(element, size, n) => {
                let mut out = join3("fixed_size_list(", element.to_text().as_str(), ")[");
                out.append(decimal(*size as u64).as_str());
                out.append("]");
                out.append(question_mark(*n));
                out
            },
            DType::Struct(fields, n) => {
                let mut out = join3("{", Self::fields_to_text(fields).as_str(), "}");
                out.append(question_mark(*n));
                assert(Self::fields_model(fields@) =~= self@->Struct_0);
                out
            },
            DType::Extension(id, storage) => {
                let mut out = join3(id.as_str(), "(", storage.to_text().as_str());
                out.append(")");
                out
            },
        }
    }

    /// Struct fields as names and types.
    pub open spec fn fields_model(fields: Seq<Field>) -> Seq<(Seq<char>, DTypeV)> {
        Seq::new(fields.len(), |i: int| (fields[i].name@, fields[i].dtype@))
    }

    fn fields_to_text(fields: &Vec<Field>) -> (out: String)
        ensures
            out@ == DTypeV::fields_text(Self::fields_model(fields@), fields@.len()),
        decreases fields,
    {
        let ghost model = Self::fields_model(fields@);
        let mut out = String::from_str("");
        let mut index: usize = 0;
        while index < fields.len()
            invariant
                index <= fields@.len(),
                model == Self::fields_model(fields@),
                out@ == DTypeV::fields_text(model, index as nat),
            decreases fields@.len() - index,
        {
            if index > 0 {
                out.append(", ");
            }
            out.append(fields[index].name.as_str());
            out.append("=");
            out.append(fields[index].dtype.to_text().as_str());
            index = index + 1;
        }
        out
    }
}

/// Two struct types are the same exactly if their fields are, pair by pair.
proof fn struct_models(p: &Arc<Vec<Field>>, q: &Arc<Vec<Field>>, a: Nullability, b: Nullability)
    ensures
        ({
            let v = DTypeV::Struct(DType::fields_model(p@), a);
            let w = DTypeV::Struct(DType::fields_model(q@), b);
            &&& DType::fields_model(p@) =~= (DType::Struct(*p, a)@)->Struct_0
            &&& DType::fields_model(q@) =~= (DType::Struct(*q, b)@)->Struct_0
            &&& (DType::fields_model(p@) == DType::fields_model(q@)) == (p@.len() == q@.len()
                && forall|i: int|
                0 <= i < p@.len() ==> (#[trigger] p@[i]).name@ == q@[i].name@ && p@[i].dtype@
                    == q@[i].dtype@)
            &&& v.eq_ignore_nullability(w) == (p@.len() == q@.len() && forall|i: int|
                0 <= i < p@.len() ==> (#[trigger] p@[i]).name@ == q@[i].name@
                    && p@[i].dtype@.eq_ignore_nullability(q@[i].dtype@))
        }),
{
    let v = DTypeV::Struct(DType::fields_model(p@), a);
    let w = DTypeV::Struct(DType::fields_model(q@), b);
    let ve = v.erased()->Struct_0;
    let we = w.erased()->Struct_0;
    if DType::fields_model(p@) == DType::fields_model(q@) {
        assert(p@.len() == q@.len());
        assert forall|i: int| 0 <= i < p@.len() implies (#[trigger] p@[i]).name@ == q@[i].name@
            && p@[i].dtype@ == q@[i].dtype@ by {
            assert(DType::fields_model(p@)[i] == DType::fields_model(q@)[i]);
        }
    }
    if p@.len() == q@.len() && forall|i: int|
        0 <= i < p@.len() ==> (#[trigger] p@[i]).name@ == q@[i].name@ && p@[i].dtype@
            == q@[i].dtype@ {
        assert(DType::fields_model(p@) =~= DType::fields_model(q@));
    }
    if v.eq_ignore_nullability(w) {
        assert(ve == we);
        assert(p@.len() == q@.len());
        assert forall|i: int| 0 <= i < p@.len() implies (#[trigger] p@[i]).name@ == q@[i].name@
            && p@[i].dtype@.eq_ignore_nullability(q@[i].dtype@) by {
            assert(ve[i] == we[i]);
        }
    }
    if p@.len() == q@.len() && forall|i: int|
        0 <= i < p@.len() ==> (#[trigger] p@[i]).name@ == q@[i].name@
            && p@[i].dtype@.eq_ignore_nullability(q@[i].dtype@) {
        assert(ve =~= we);
    }
}

/// Types that differ in nullability at most can be told apart by nothing else: the relation is an
/// equivalence, and changing the outer nullability keeps a type in its class.
pub proof fn eq_ignore_nullability_is_an_equivalence(a: DTypeV, b: DTypeV, c: DTypeV, n: Nullability)
    ensures
        a.eq_ignore_nullability(a),
        a.eq_ignore_nullability(b) == b.eq_ignore_nullability(a),
        a.eq_ignore_nullability(b) && b.eq_ignore_nullability(c) ==> a.eq_ignore_nullability(c),
        a.eq_ignore_nullability(a.with_nullability(n)),
    decreases a,
{
    if let DTypeV::Extension(_, storage) = a {
        eq_ignore_nullability_is_an_equivalence(*storage, *storage, *storage, n);
    }
}

/// Setting the outer nullability is what a reader sees afterwards, except on a type that holds
/// only nulls.
pub proof fn with_nullability_sets_nullability(a: DTypeV, n: Nullability)
    ensures
        a.with_nullability(n).nullability() == n || a.with_nullability(n).nullability() is Nullable,
        a.with_nullability(n).with_nullability(a.nullability()) == a,
    decreases a,
{
    if let DTypeV::Extension(_, storage) = a {
        with_nullability_sets_nullability(*storage, n);
    }
}

/// A type that is not nullable can be made so, and back.
pub proof fn non_nullable_types_admit_both(a: DTypeV, n: Nullability)
    requires
        !a.nullable(),
    ensures
        a.with_nullability(n).nullability() == n,
    decreases a,
{
    if let DTypeV::Extension(_, storage) = a {
        non_nullable_types_admit_both(*storage, n);
    }
}

} // verus!
