//! Expressions: literals, scalar function calls and field references.
use vstd::prelude::*;
use crate::error::SubstraitExprError;
use crate::schema::{resolve_registry, resolve_spec, SchemaInfo, SchemaV};
use crate::types::unknown_ready;
use crate::types::{
    binary, bool as bool_type, fp32, fp64, i16 as i16_type, i32 as i32_type, i64 as i64_type,
    i8 as i8_type, plain, string, KindV, Type, TypeV,
};
use crate::registry::RegistryModel;

verus! {

/// The value of a literal. Floating point values are held by their IEEE 754
/// bit patterns.
#[derive(Debug, PartialEq)]
pub enum LiteralValue {
    Boolean(bool),
    I8(i8),
    I16(i16),
    I32(i32),
    I64(i64),
    Fp32Bits(u32),
    Fp64Bits(u64),
    String(String),
    Binary(Vec<u8>),
    FixedChar(String),
    FixedBinary(Vec<u8>),
    VarChar { value: String, length: u32 },
    Struct(Vec<Literal>),
    Null(Type),
}

/// A literal: a value, whether it is nullable, and its type variation.
#[derive(Debug, PartialEq)]
pub struct Literal {
    pub nullable: bool,
    pub variation: u32,
    pub literal_type: LiteralValue,
}

/// One step of a field reference, with the step that follows it, if any.
#[derive(Debug, PartialEq)]
pub enum ReferenceSegment {
    /// A struct member, by position.
    StructField { field: i32, child: Option<Box<ReferenceSegment>> },
    /// A list element, by position.
    ListElement { offset: i32, child: Option<Box<ReferenceSegment>> },
    /// A map entry, by key.
    MapKey { map_key: Literal, child: Option<Box<ReferenceSegment>> },
}

/// What a field reference starts from.
#[derive(Debug, Clone, Copy, PartialEq, Eq, Structural)]
pub enum RootKind {
    /// The input row of the schema.
    Root,
    /// A row of an enclosing query.
    Outer,
}

/// A reference to a field of the input.
#[derive(Debug, PartialEq)]
pub struct FieldReference {
    pub root: RootKind,
    pub segment: ReferenceSegment,
}

/// An argument of a scalar function call.
#[derive(Debug, PartialEq)]
pub enum FunctionArgument {
    /// One of the values that an enum argument allows.
    Enum(String),
    /// An expression.
    Value(Expression),
}

/// An option of a scalar function call, with its preferred values.
#[derive(Debug, PartialEq)]
pub struct FunctionOption {
    pub name: String,
    pub preference: Vec<String>,
}

/// A call of a scalar function, referred to by its anchor.
#[derive(Debug, PartialEq)]
pub struct ScalarFunction {
    pub function_reference: u32,
    pub arguments: Vec<FunctionArgument>,
    pub output_type: Type,
    pub options: Vec<FunctionOption>,
}

/// An expression.
#[derive(Debug, PartialEq)]
pub enum Expression {
    Literal(Literal),
    ScalarFunction(ScalarFunction),
    Selection(FieldReference),
}

/// The type of a literal value, when the library knows it.
pub open spec fn literal_type_spec(lit: Literal) -> Option<TypeV> {
    match lit.literal_type {
        LiteralValue::Boolean(_) => Some(plain(KindV::Bool, lit.nullable)),
        LiteralValue::I8(_) => Some(plain(KindV::I8, lit.nullable)),
        LiteralValue::I16(_) => Some(plain(KindV::I16, lit.nullable)),
        LiteralValue::I32(_) => Some(plain(KindV::I32, lit.nullable)),
        LiteralValue::I64(_) => Some(plain(KindV::I64, lit.nullable)),
        LiteralValue::Fp32Bits(_) => Some(plain(KindV::Fp32, lit.nullable)),
        LiteralValue::Fp64Bits(_) => Some(plain(KindV::Fp64, lit.nullable)),
        LiteralValue::String(_) => Some(plain(KindV::String, lit.nullable)),
        LiteralValue::Binary(_) => Some(plain(KindV::Binary, lit.nullable)),
        LiteralValue::Null(t) => Some(t@),
        _ => None,
    }
}

impl Literal {
    /// The type of this literal. Fixed-length, var-char and struct literals
    /// are not supported and give an `InvalidInput` error.
    pub fn data_type(&self) -> (r: Result<Type, SubstraitExprError>)
        ensures
            r matches Ok(t) ==> literal_type_spec(*self) == Some(t@),
            r is Err ==> literal_type_spec(*self) is None,
            r matches Err(e) ==> e.is_invalid_input(),
    {
        match &self.literal_type {
            LiteralValue::Boolean(_) => Ok(bool_type(self.nullable)),
            LiteralValue::I8(_) => Ok(i8_type(self.nullable)),
            LiteralValue::I16(_) => Ok(i16_type(self.nullable)),
            LiteralValue::I32(_) => Ok(i32_type(self.nullable)),
            LiteralValue::I64(_) => Ok(i64_type(self.nullable)),
            LiteralValue::Fp32Bits(_) => Ok(fp32(self.nullable)),
            LiteralValue::Fp64Bits(_) => Ok(fp64(self.nullable)),
            LiteralValue::String(_) => Ok(string(self.nullable)),
            LiteralValue::Binary(_) => Ok(binary(self.nullable)),
            LiteralValue::Null(t) => Ok(t.deep_clone()),
            _ => Err(SubstraitExprError::invalid_input("the type of this kind of literal is not supported")),
        }
    }
}

/// Converts between Rust values and literal values.
pub trait LiteralInference: Sized {
    /// The literal value that stands for `self`.
    spec fn literal_spec(&self) -> LiteralValue;

    /// `lit` stands for `self`.
    spec fn represented_by(&self, lit: LiteralValue) -> bool;

    /// The literal value that stands for this value.
    fn to_substrait(self) -> (r: LiteralValue)
        ensures
            r == self.literal_spec(),
    ;

    /// The value that a literal stands for, or an `InvalidSubstrait` error
    /// when it is a literal of another kind.
    fn try_from_substrait(lit: &LiteralValue) -> (r: Result<Self, SubstraitExprError>)
        ensures
            r matches Ok(v) ==> v.represented_by(*lit),
            r matches Err(e) ==> e.is_invalid_substrait(),
    ;
}

impl LiteralInference for bool {
    open spec fn represented_by(&self, lit: LiteralValue) -> bool {
        lit == self.literal_spec()
    }

    open spec fn literal_spec(&self) -> LiteralValue {
        LiteralValue::Boolean(*self)
    }

    fn to_substrait(self) -> (r: LiteralValue) {
        LiteralValue::Boolean(self)
    }

    fn try_from_substrait(lit: &LiteralValue) -> (r: Result<Self, SubstraitExprError>) {
        match lit {
            LiteralValue::Boolean(v) => Ok(*v),
            _ => Err(SubstraitExprError::invalid_substrait("Expected a boolean literal")),
        }
    }
}

impl LiteralInference for i8 {
    open spec fn represented_by(&self, lit: LiteralValue) -> bool {
        lit == self.literal_spec()
    }

    open spec fn literal_spec(&self) -> LiteralValue {
        LiteralValue::I8(*self)
    }

    fn to_substrait(self) -> (r: LiteralValue) {
        LiteralValue::I8(self)
    }

    fn try_from_substrait(lit: &LiteralValue) -> (r: Result<Self, SubstraitExprError>) {
        match lit {
            LiteralValue::I8(v) => Ok(*v),
            _ => Err(SubstraitExprError::invalid_substrait("Expected an int8 literal")),
        }
    }
}

impl LiteralInference for i16 {
    open spec fn represented_by(&self, lit: LiteralValue) -> bool {
        lit == self.literal_spec()
    }

    open spec fn literal_spec(&self) -> LiteralValue {
        LiteralValue::I16(*self)
    }

    fn to_substrait(self) -> (r: LiteralValue) {
        LiteralValue::I16(self)
    }

    fn try_from_substrait(lit: &LiteralValue) -> (r: Result<Self, SubstraitExprError>) {
        match lit {
            LiteralValue::I16(v) => Ok(*v),
            _ => Err(SubstraitExprError::invalid_substrait("Expected an int16 literal")),
        }
    }
}

impl LiteralInference for i32 {
    open spec fn represented_by(&self, lit: LiteralValue) -> bool {
        lit == self.literal_spec()
    }

    open spec fn literal_spec(&self) -> LiteralValue {
        LiteralValue::I32(*self)
    }

    fn to_substrait(self) -> (r: LiteralValue) {
        LiteralValue::I32(self)
    }

    fn try_from_substrait(lit: &LiteralValue) -> (r: Result<Self, SubstraitExprError>) {
        match lit {
            LiteralValue::I32(v) => Ok(*v),
            _ => Err(SubstraitExprError::invalid_substrait("Expected an int32 literal")),
        }
    }
}

impl LiteralInference for i64 {
    open spec fn represented_by(&self, lit: LiteralValue) -> bool {
        lit == self.literal_spec()
    }

    open spec fn literal_spec(&self) -> LiteralValue {
        LiteralValue::I64(*self)
    }

    fn to_substrait(self) -> (r: LiteralValue) {
        LiteralValue::I64(self)
    }

    fn try_from_substrait(lit: &LiteralValue) -> (r: Result<Self, SubstraitExprError>) {
        match lit {
            LiteralValue::I64(v) => Ok(*v),
            _ => Err(SubstraitExprError::invalid_substrait("Expected an int64 literal")),
        }
    }
}

impl LiteralInference for String {
    open spec fn represented_by(&self, lit: LiteralValue) -> bool {
        lit == self.literal_spec()
    }

    open spec fn literal_spec(&self) -> LiteralValue {
        LiteralValue::String(*self)
    }

    fn to_substrait(self) -> (r: LiteralValue) {
        LiteralValue::String(self)
    }

    fn try_from_substrait(lit: &LiteralValue) -> (r: Result<Self, SubstraitExprError>) {
        match lit {
            LiteralValue::String(v) => Ok(v.clone()),
            _ => Err(SubstraitExprError::invalid_substrait("Expected a string literal")),
        }
    }
}

impl LiteralInference for Vec<u8> {
    open spec fn represented_by(&self, lit: LiteralValue) -> bool {
        lit matches LiteralValue::Binary(b) && b@ == self@
    }

    open spec fn literal_spec(&self) -> LiteralValue {
        LiteralValue::Binary(*self)
    }

    fn to_substrait(self) -> (r: LiteralValue) {
        LiteralValue::Binary(self)
    }

    fn try_from_substrait(lit: &LiteralValue) -> (r: Result<Self, SubstraitExprError>) {
        match lit {
            LiteralValue::Binary(v) => Ok(v.clone()),
            _ => Err(SubstraitExprError::invalid_substrait("Expected a binary literal")),
        }
    }
}

/// An expression that is a literal with the given value.
pub open spec fn literal_expr(value: LiteralValue, nullable: bool) -> Expression {
    Expression::Literal(Literal { nullable, variation: 0, literal_type: value })
}

fn make_literal(value: LiteralValue, nullable: bool) -> (r: Expression)
    ensures
        r == literal_expr(value, nullable),
{
    Expression::Literal(Literal { nullable, variation: 0, literal_type: value })
}

/// A non-nullable literal of a Rust value.
pub fn literal<T: LiteralInference>(value: T) -> (r: Expression)
    ensures
        r == literal_expr(value.literal_spec(), false),
{
    make_literal(value.to_substrait(), false)
}

/// A nullable literal of a Rust value.
pub fn nullable_literal<T: LiteralInference>(value: T) -> (r: Expression)
    ensures
        r == literal_expr(value.literal_spec(), true),
{
    make_literal(value.to_substrait(), true)
}

/// A string literal.
pub fn string_literal(value: &str) -> (r: Expression)
    ensures
        r matches Expression::Literal(l) && !l.nullable && l.variation == 0 && (l.literal_type matches LiteralValue::String(s) && s@ == value@),
{
    make_literal(LiteralValue::String(value.to_owned()), false)
}

/// A 32-bit floating point literal, given its IEEE 754 bit pattern.
pub fn fp32_literal_bits(bits: u32) -> (r: Expression)
    ensures
        r == literal_expr(LiteralValue::Fp32Bits(bits), false),
{
    make_literal(LiteralValue::Fp32Bits(bits), false)
}

/// A 64-bit floating point literal, given its IEEE 754 bit pattern.
pub fn fp64_literal_bits(bits: u64) -> (r: Expression)
    ensures
        r == literal_expr(LiteralValue::Fp64Bits(bits), false),
{
    make_literal(LiteralValue::Fp64Bits(bits), false)
}

/// A null literal of the given type.
pub fn null_literal(data_type: Type) -> (r: Expression)
    ensures
        r == literal_expr(LiteralValue::Null(data_type), true),
{
    make_literal(LiteralValue::Null(data_type), true)
}

/// A fixed-length character literal.
pub fn fixed_char(value: String) -> (r: Expression)
    ensures
        r == literal_expr(LiteralValue::FixedChar(value), false),
{
    make_literal(LiteralValue::FixedChar(value), false)
}

/// A fixed-length binary literal.
pub fn fixed_binary(value: Vec<u8>) -> (r: Expression)
    ensures
        r == literal_expr(LiteralValue::FixedBinary(value), false),
{
    make_literal(LiteralValue::FixedBinary(value), false)
}

/// A var-char literal of at most `length` characters; a longer value is
/// rejected.
pub fn try_varchar(value: String, length: u32) -> (r: Result<Expression, SubstraitExprError>)
    ensures
        r is Ok <==> value@.len() <= length,
        r matches Ok(e) ==> e == literal_expr(LiteralValue::VarChar { value, length }, false),
        r matches Err(e) ==> e.is_invalid_input(),
{
    let n = value.as_str().unicode_len();
    if (length as usize) < n {
        Err(SubstraitExprError::invalid_input("String does not fit in a varchar literal of the given length"))
    } else {
        Ok(make_literal(LiteralValue::VarChar { value, length }, false))
    }
}

/// A struct literal whose fields are the literals `children`; fails with
/// `InvalidSubstrait` when one of them is not a literal.
pub fn try_struct(children: Vec<Expression>) -> (r: Result<Expression, SubstraitExprError>)
    ensures
        r is Ok <==> forall|i: int| 0 <= i < children@.len() ==> (#[trigger] children@[i]) is Literal,
        r matches Ok(e) ==> e matches Expression::Literal(l) && !l.nullable && l.variation == 0 && (l.literal_type
            matches LiteralValue::Struct(fields) && fields@.len() == children@.len() && forall|i: int|
            0 <= i < children@.len() ==> children@[i] == Expression::Literal(#[trigger] fields@[i])),
        r matches Err(e) ==> e.is_invalid_substrait(),
{
    let ghost orig = children@;
    let n = children.len();
    let mut rest = children;
    let mut fields: Vec<Literal> = Vec::new();
    let mut i: usize = 0;
    while i < n
        invariant
            orig == children@,
            n == orig.len(),
            0 <= i <= n,
            rest@ == orig.subrange(i as int, n as int),
            fields@.len() == i,
            forall|j: int| 0 <= j < i ==> orig[j] == Expression::Literal(#[trigger] fields@[j]),
        decreases n - i,
    {
        let child = rest.remove(0);
        assert(child == orig[i as int]);
        match child {
            Expression::Literal(l) => fields.push(l),
            _ => {
                return Err(SubstraitExprError::invalid_substrait("Expected a literal but received something else"));
            },
        }
        assert(rest@ =~= orig.subrange(i + 1, n as int));
        i = i + 1;
    }
    assert forall|j: int| 0 <= j < orig.len() implies (#[trigger] orig[j]) is Literal by {
        assert(orig[j] == Expression::Literal(fields@[j]));
    }
    Ok(make_literal(LiteralValue::Struct(fields), false))
}

/// The type of what `e` evaluates to against schema `s`, when it can be
/// known: a reference rooted outside the input is not supported.
pub open spec fn output_type_spec(e: Expression, s: SchemaV) -> Option<TypeV> {
    match e {
        Expression::Literal(l) => literal_type_spec(l),
        Expression::ScalarFunction(f) => Some(f.output_type@),
        Expression::Selection(r) => match r.root {
            RootKind::Root => resolve_spec(s, r.segment),
            RootKind::Outer => None,
        },
    }
}

/// The schema's registry after the type of `e` has been found.
pub open spec fn output_type_registry(e: Expression, s: SchemaV) -> RegistryModel {
    match e {
        Expression::Selection(r) => match r.root {
            RootKind::Root => resolve_registry(s),
            RootKind::Outer => s.registry,
        },
        _ => s.registry,
    }
}

impl Expression {
    /// The literal this expression is, or an `InvalidSubstrait` error.
    pub fn try_as_literal(&self) -> (r: Result<&Literal, SubstraitExprError>)
        ensures
            r matches Ok(l) ==> *self == Expression::Literal(*l),
            r is Err <==> !(*self is Literal),
            r matches Err(e) ==> e.is_invalid_substrait(),
    {
        match self {
            Expression::Literal(l) => Ok(l),
            _ => Err(SubstraitExprError::invalid_substrait("Expected a literal but received something else")),
        }
    }

    /// The Rust value of this literal expression.
    pub fn try_as_rust_literal<T: LiteralInference>(&self) -> (r: Result<T, SubstraitExprError>)
        ensures
            r matches Ok(v) ==> (*self matches Expression::Literal(l) && v.represented_by(l.literal_type)),
            r matches Err(e) ==> e.is_invalid_substrait(),
    {
        let literal = self.try_as_literal()?;
        T::try_from_substrait(&literal.literal_type)
    }

    /// The type of what this expression evaluates to. A field reference is
    /// resolved against `schema`, which registers the unknown type when it
    /// does not know types.
    pub fn output_type(&self, schema: &mut SchemaInfo) -> (r: Result<Type, SubstraitExprError>)
        requires
            unknown_ready(old(schema)@.registry),
        ensures
            final(schema)@ == (SchemaV { registry: output_type_registry(*self, old(schema)@), ..old(schema)@ }),
            r matches Ok(t) ==> output_type_spec(*self, old(schema)@) == Some(t@),
            r is Err <==> output_type_spec(*self, old(schema)@) is None,
    {
        match self {
            Expression::Literal(l) => l.data_type(),
            Expression::ScalarFunction(f) => Ok(f.output_type.deep_clone()),
            Expression::Selection(r) => {
                match r.root {
                    RootKind::Root => schema.resolve_type(&r.segment),
                    RootKind::Outer => Err(SubstraitExprError::invalid_input("Unsupported: outer references cannot be resolved yet")),
                }
            },
        }
    }
}

} // verus!
