//! The type model: wire types as a tagged union, and the operations that
//! overload resolution and rendering rely on.
use vstd::prelude::*;
use crate::error::SubstraitExprError;
use crate::registry::{lemma_register_type_lookup, name_of, ExtensionsRegistry, Namespace, RegistryModel};

verus! {

broadcast use vstd::std_specs::vec::group_vec_axioms;

/// The uri of the reserved user-defined type that stands for "unknown".
pub const UNKNOWN_TYPE_URI: &'static str = "https://substrait.io/types";

/// The name of the reserved user-defined type that stands for "unknown".
pub const UNKNOWN_TYPE_NAME: &'static str = "unknown";

/// The variation anchor that means "no type variation".
pub const NO_VARIATION: u32 = 0;

/// Whether values of a type may be null.
#[derive(Debug, Clone, Copy, PartialEq, Eq, Structural)]
pub enum Nullability {
    Unspecified,
    Nullable,
    Required,
}

/// A parameter of a user-defined type.
#[derive(Debug, PartialEq)]
pub enum TypeParameter {
    Boolean(bool),
    Integer(i64),
    Enum(String),
    Text(String),
    Null,
}

/// The kind of a type: the tag of the union with its parameters.
#[derive(Debug, PartialEq)]
pub enum Kind {
    Bool,
    I8,
    I16,
    I32,
    I64,
    Fp32,
    Fp64,
    String,
    Binary,
    Timestamp,
    TimestampTz,
    Date,
    Time,
    IntervalYear,
    IntervalDay,
    Uuid,
    FixedChar { length: i32 },
    VarChar { length: i32 },
    FixedBinary { length: i32 },
    Decimal { precision: i32, scale: i32 },
    List(Box<Type>),
    MapOf(Box<Type>, Box<Type>),
    Struct(Vec<Type>),
    UserDefined { type_reference: u32, type_parameters: Vec<TypeParameter> },
}

/// A type: its kind, its nullability and a type variation anchor (0 for none).
#[derive(Debug, PartialEq)]
pub struct Type {
    pub kind: Kind,
    pub nullability: Nullability,
    pub variation: u32,
}

/// A parameter of a user-defined type, as the contracts see it.
pub enum ParamV {
    Boolean(bool),
    Integer(i64),
    Enum(Seq<char>),
    Text(Seq<char>),
    Null,
}

/// A kind, as the contracts see it.
pub enum KindV {
    Bool,
    I8,
    I16,
    I32,
    I64,
    Fp32,
    Fp64,
    String,
    Binary,
    Timestamp,
    TimestampTz,
    Date,
    Time,
    IntervalYear,
    IntervalDay,
    Uuid,
    FixedChar { length: i32 },
    VarChar { length: i32 },
    FixedBinary { length: i32 },
    Decimal { precision: i32, scale: i32 },
    List(Box<TypeV>),
    MapOf(Box<TypeV>, Box<TypeV>),
    Struct(Seq<TypeV>),
    UserDefined { type_reference: u32, type_parameters: Seq<ParamV> },
}

/// A type, as the contracts see it.
pub struct TypeV {
    pub kind: KindV,
    pub nullability: Nullability,
    pub variation: u32,
}

impl TypeParameter {
    pub open spec fn view(&self) -> ParamV {
        match self {
            TypeParameter::Boolean(b) => ParamV::Boolean(*b),
            TypeParameter::Integer(i) => ParamV::Integer(*i),
            TypeParameter::Enum(s) => ParamV::Enum(s@),
            TypeParameter::Text(s) => ParamV::Text(s@),
            TypeParameter::Null => ParamV::Null,
        }
    }
}

pub open spec fn params_view(ps: Seq<TypeParameter>) -> Seq<ParamV> {
    ps.map_values(|p: TypeParameter| p@)
}

/// The views of `ts`.
pub open spec fn types_view(ts: Seq<Type>) -> Seq<TypeV>
    decreases ts,
{
    Seq::new(ts.len(), |i: int| if 0 <= i < ts.len() { ts[i].view() } else { arbitrary() })
}

impl Type {
    pub open spec fn view(&self) -> TypeV
        decreases self,
    {
        TypeV {
            kind: match &self.kind {
                Kind::Bool => KindV::Bool,
                Kind::I8 => KindV::I8,
                Kind::I16 => KindV::I16,
                Kind::I32 => KindV::I32,
                Kind::I64 => KindV::I64,
                Kind::Fp32 => KindV::Fp32,
                Kind::Fp64 => KindV::Fp64,
                Kind::String => KindV::String,
                Kind::Binary => KindV::Binary,
                Kind::Timestamp => KindV::Timestamp,
                Kind::TimestampTz => KindV::TimestampTz,
                Kind::Date => KindV::Date,
                Kind::Time => KindV::Time,
                Kind::IntervalYear => KindV::IntervalYear,
                Kind::IntervalDay => KindV::IntervalDay,
                Kind::Uuid => KindV::Uuid,
                Kind::FixedChar { length } => KindV::FixedChar { length: *length },
                Kind::VarChar { length } => KindV::VarChar { length: *length },
                Kind::FixedBinary { length } => KindV::FixedBinary { length: *length },
                Kind::Decimal { precision, scale } => KindV::Decimal { precision: *precision, scale: *scale },
                Kind::List(t) => KindV::List(Box::new(t.view())),
                Kind::MapOf(k, v) => KindV::MapOf(Box::new(k.view()), Box::new(v.view())),
                Kind::Struct(children) => KindV::Struct(types_view(children@)),
                Kind::UserDefined { type_reference, type_parameters } => KindV::UserDefined {
                    type_reference: *type_reference,
                    type_parameters: params_view(type_parameters@),
                },
            },
            nullability: self.nullability,
            variation: self.variation,
        }
    }
}

/// The tag of a kind: two types are of the same kind when their tags agree.
pub open spec fn kind_tag(k: KindV) -> int {
    match k {
        KindV::Bool => 0,
        KindV::I8 => 1,
        KindV::I16 => 2,
        KindV::I32 => 3,
        KindV::I64 => 4,
        KindV::Fp32 => 5,
        KindV::Fp64 => 6,
        KindV::String => 7,
        KindV::Binary => 8,
        KindV::Timestamp => 9,
        KindV::TimestampTz => 10,
        KindV::Date => 11,
        KindV::Time => 12,
        KindV::IntervalYear => 13,
        KindV::IntervalDay => 14,
        KindV::Uuid => 15,
        KindV::FixedChar { .. } => 16,
        KindV::VarChar { .. } => 17,
        KindV::FixedBinary { .. } => 18,
        KindV::Decimal { .. } => 19,
        KindV::List(..) => 20,
        KindV::MapOf(..) => 21,
        KindV::Struct(..) => 22,
        KindV::UserDefined { .. } => 23,
    }
}

/// `a` and `b` have the same kind, whatever their nullability, parameters
/// and variation.
pub open spec fn same_kind_spec(a: TypeV, b: TypeV) -> bool {
    kind_tag(a.kind) == kind_tag(b.kind)
}

/// `t` is the reserved unknown type of `reg`: a user-defined type whose
/// anchor `reg` registered for the unknown uri and name.
pub open spec fn is_unknown_spec(t: TypeV, reg: RegistryModel) -> bool {
    match t.kind {
        KindV::UserDefined { type_reference, .. } => name_of(reg.types, type_reference) == Some(
            (UNKNOWN_TYPE_URI@, UNKNOWN_TYPE_NAME@),
        ),
        _ => false,
    }
}

/// Registering the unknown type in `reg` can be done: it is there already,
/// or an anchor is left.
pub open spec fn unknown_ready(reg: RegistryModel) -> bool {
    reg.can_register(Namespace::Types, UNKNOWN_TYPE_URI@, UNKNOWN_TYPE_NAME@)
}

/// The unknown type, given the anchor it was registered under.
pub open spec fn unknown_type_spec(anchor: u32) -> TypeV {
    TypeV {
        kind: KindV::UserDefined { type_reference: anchor, type_parameters: seq![] },
        nullability: Nullability::Nullable,
        variation: NO_VARIATION,
    }
}

/// The number of types in `t`: 1, plus the number in each struct member.
pub open spec fn num_types_spec(t: TypeV) -> nat
    decreases t,
{
    match t.kind {
        KindV::Struct(ts) => 1 + sum_prefix(member_counts(ts)),
        _ => 1,
    }
}

/// The number of types in each of `ts`.
pub open spec fn member_counts(ts: Seq<TypeV>) -> Seq<nat>
    decreases ts,
{
    Seq::new(ts.len(), |i: int| if 0 <= i < ts.len() { num_types_spec(ts[i]) } else { 0 })
}

/// The sum of `ns`.
pub open spec fn sum_prefix(ns: Seq<nat>) -> nat
    decreases ns.len(),
{
    if ns.len() == 0 {
        0
    } else {
        sum_prefix(ns.drop_last()) + ns.last()
    }
}

/// The immediate members of a struct type; nothing for any other type.
pub open spec fn children_spec(t: TypeV) -> Seq<TypeV> {
    match t.kind {
        KindV::Struct(ts) => ts,
        _ => seq![],
    }
}

/// The nullability that `nullable` selects.
pub open spec fn nullability_spec(nullable: bool) -> Nullability {
    if nullable {
        Nullability::Nullable
    } else {
        Nullability::Required
    }
}

/// A type of the given kind, with no variation.
pub open spec fn plain(kind: KindV, nullable: bool) -> TypeV {
    TypeV { kind, nullability: nullability_spec(nullable), variation: NO_VARIATION }
}

/// The nullability that `nullable` selects.
pub fn nullability(nullable: bool) -> (r: Nullability)
    ensures
        r == nullability_spec(nullable),
{
    if nullable {
        Nullability::Nullable
    } else {
        Nullability::Required
    }
}

fn clone_params(ps: &Vec<TypeParameter>) -> (r: Vec<TypeParameter>)
    ensures
        params_view(r@) == params_view(ps@),
{
    let mut r: Vec<TypeParameter> = Vec::new();
    let mut i: usize = 0;
    while i < ps.len()
        invariant
            0 <= i <= ps@.len(),
            r@.len() == i,
            forall|j: int| 0 <= j < i ==> (#[trigger] r@[j])@ == ps@[j]@,
        decreases ps.len() - i,
    {
        let p = match &ps[i] {
            TypeParameter::Boolean(b) => TypeParameter::Boolean(*b),
            TypeParameter::Integer(n) => TypeParameter::Integer(*n),
            TypeParameter::Enum(s) => TypeParameter::Enum(s.clone()),
            TypeParameter::Text(s) => TypeParameter::Text(s.clone()),
            TypeParameter::Null => TypeParameter::Null,
        };
        r.push(p);
        i = i + 1;
    }
    assert(params_view(r@) =~= params_view(ps@));
    r
}

/// Copies of `ts`, member by member.
pub fn clone_types(ts: &Vec<Type>) -> (r: Vec<Type>)
    ensures
        types_view(r@) == types_view(ts@),
    decreases ts,
{
    let mut r: Vec<Type> = Vec::new();
    let mut i: usize = 0;
    while i < ts.len()
        invariant
            0 <= i <= ts@.len(),
            r@.len() == i,
            forall|j: int| 0 <= j < i ==> (#[trigger] r@[j])@ == ts@[j]@,
        decreases ts.len() - i,
    {
        r.push(ts[i].deep_clone());
        i = i + 1;
    }
    assert(types_view(r@) =~= types_view(ts@));
    r
}

impl Type {
    /// A copy of this type.
    pub fn deep_clone(&self) -> (r: Type)
        ensures
            r@ == self@,
        decreases self,
    {
        let kind = match &self.kind {
            Kind::Bool => Kind::Bool,
            Kind::I8 => Kind::I8,
            Kind::I16 => Kind::I16,
            Kind::I32 => Kind::I32,
            Kind::I64 => Kind::I64,
            Kind::Fp32 => Kind::Fp32,
            Kind::Fp64 => Kind::Fp64,
            Kind::String => Kind::String,
            Kind::Binary => Kind::Binary,
            Kind::Timestamp => Kind::Timestamp,
            Kind::TimestampTz => Kind::TimestampTz,
            Kind::Date => Kind::Date,
            Kind::Time => Kind::Time,
            Kind::IntervalYear => Kind::IntervalYear,
            Kind::IntervalDay => Kind::IntervalDay,
            Kind::Uuid => Kind::Uuid,
            Kind::FixedChar { length } => Kind::FixedChar { length: *length },
            Kind::VarChar { length } => Kind::VarChar { length: *length },
            Kind::FixedBinary { length } => Kind::FixedBinary { length: *length },
            Kind::Decimal { precision, scale } => Kind::Decimal { precision: *precision, scale: *scale },
            Kind::List(t) => Kind::List(Box::new(t.deep_clone())),
            Kind::MapOf(k, v) => Kind::MapOf(Box::new(k.deep_clone()), Box::new(v.deep_clone())),
            Kind::Struct(children) => Kind::Struct(clone_types(children)),
            Kind::UserDefined { type_reference, type_parameters } => Kind::UserDefined {
                type_reference: *type_reference,
                type_parameters: clone_params(type_parameters),
            },
        };
        Type { kind, nullability: self.nullability, variation: self.variation }
    }

    fn kind_tag(&self) -> (r: u8)
        ensures
            r as int == kind_tag(self@.kind),
    {
        match &self.kind {
            Kind::Bool => 0,
            Kind::I8 => 1,
            Kind::I16 => 2,
            Kind::I32 => 3,
            Kind::I64 => 4,
            Kind::Fp32 => 5,
            Kind::Fp64 => 6,
            Kind::String => 7,
            Kind::Binary => 8,
            Kind::Timestamp => 9,
            Kind::TimestampTz => 10,
            Kind::Date => 11,
            Kind::Time => 12,
            Kind::IntervalYear => 13,
            Kind::IntervalDay => 14,
            Kind::Uuid => 15,
            Kind::FixedChar { .. } => 16,
            Kind::VarChar { .. } => 17,
            Kind::FixedBinary { .. } => 18,
            Kind::Decimal { .. } => 19,
            Kind::List(..) => 20,
            Kind::MapOf(..) => 21,
            Kind::Struct(..) => 22,
            Kind::UserDefined { .. } => 23,
        }
    }

    /// True if the two types are of the same kind, ignoring nullability,
    /// parameters and variation.
    pub fn same_kind(&self, other: &Type) -> (r: bool)
        ensures
            r == same_kind_spec(self@, other@),
    {
        self.kind_tag() == other.kind_tag()
    }

    /// True if this is the reserved unknown type of `registry`.
    pub fn is_unknown(&self, registry: &ExtensionsRegistry) -> (r: bool)
        ensures
            r == is_unknown_spec(self@, registry@),
    {
        match &self.kind {
            Kind::UserDefined { type_reference, .. } => {
                match registry.lookup_type(*type_reference) {
                    Some(q) => {
                        let uri = UNKNOWN_TYPE_URI.to_owned();
                        let name = UNKNOWN_TYPE_NAME.to_owned();
                        q.uri == uri && q.name == name
                    },
                    None => false,
                }
            },
            _ => false,
        }
    }

    /// The immediate members of a struct type; empty for any other type.
    pub fn children(&self) -> (r: Vec<Type>)
        ensures
            types_view(r@) == children_spec(self@),
    {
        match &self.kind {
            Kind::Struct(children) => clone_types(children),
            _ => {
                let r: Vec<Type> = Vec::new();
                assert(types_view(r@) =~= seq![]);
                r
            },
        }
    }
}

/// The decimal digit `d` as a character.
pub open spec fn digit_char(d: nat) -> char {
    (d + 48) as char
}

/// The decimal digits of `n`.
pub open spec fn nat_text(n: nat) -> Seq<char>
    decreases n,
{
    if n < 10 {
        seq![digit_char(n)]
    } else {
        nat_text(n / 10) + seq![digit_char(n % 10)]
    }
}

/// The decimal text of `i`, with a leading `-` when it is negative.
pub open spec fn int_text(i: int) -> Seq<char> {
    if i < 0 {
        seq!['-'] + nat_text((-i) as nat)
    } else {
        nat_text(i as nat)
    }
}

/// `parts` joined with `sep` between each two of them.
pub open spec fn join(parts: Seq<Seq<char>>, sep: Seq<char>) -> Seq<char>
    decreases parts.len(),
{
    if parts.len() == 0 {
        seq![]
    } else if parts.len() == 1 {
        parts[0]
    } else {
        join(parts.drop_last(), sep) + sep + parts.last()
    }
}

proof fn lemma_join_step(parts: Seq<Seq<char>>, sep: Seq<char>, i: int)
    requires
        0 <= i < parts.len(),
    ensures
        join(parts.take(i + 1), sep) == if i == 0 {
            parts[0]
        } else {
            join(parts.take(i), sep) + sep + parts[i]
        },
{
    if i > 0 {
        assert(parts.take(i + 1).drop_last() =~= parts.take(i));
    }
}

/// How nullability is written: `?` for nullable, nothing for required.
pub open spec fn null_text(n: Nullability) -> Seq<char> {
    match n {
        Nullability::Nullable => "?"@,
        Nullability::Required => ""@,
        Nullability::Unspecified => "INVALID-NULLABILITY"@,
    }
}

/// How a variation is written: nothing for none, else `[uri#name]`.
pub open spec fn variation_text(v: u32, reg: RegistryModel) -> Seq<char> {
    if v == NO_VARIATION {
        seq![]
    } else {
        match name_of(reg.variations, v) {
            Some((uri, name)) => "["@ + uri + "#"@ + name + "]"@,
            None => "[unknown_variation]"@,
        }
    }
}

/// The base name of a built-in kind.
pub open spec fn base_name(k: KindV) -> Seq<char> {
    match k {
        KindV::Bool => "bool"@,
        KindV::I8 => "i8"@,
        KindV::I16 => "i16"@,
        KindV::I32 => "i32"@,
        KindV::I64 => "i64"@,
        KindV::Fp32 => "fp32"@,
        KindV::Fp64 => "fp64"@,
        KindV::String => "string"@,
        KindV::Binary => "binary"@,
        KindV::Timestamp => "timestamp"@,
        KindV::TimestampTz => "timestamp_tz"@,
        KindV::Date => "date"@,
        KindV::Time => "time"@,
        KindV::IntervalYear => "interval_year"@,
        KindV::IntervalDay => "interval_day"@,
        KindV::Uuid => "uuid"@,
        KindV::FixedChar { .. } => "fixedchar"@,
        KindV::VarChar { .. } => "varchar"@,
        KindV::FixedBinary { .. } => "fixedbinary"@,
        KindV::Decimal { .. } => "decimal"@,
        KindV::List(..) => "list"@,
        KindV::MapOf(..) => "map"@,
        KindV::Struct(..) => "struct"@,
        KindV::UserDefined { .. } => ""@,
    }
}

/// How a user-defined type is named: `uri#name` of its anchor.
pub open spec fn user_name(anchor: u32, reg: RegistryModel) -> Seq<char> {
    match name_of(reg.types, anchor) {
        Some((uri, name)) => uri + "#"@ + name,
        None => "unknown_user_defined_type"@,
    }
}

/// How a type parameter is written.
pub open spec fn param_text(p: ParamV) -> Seq<char> {
    match p {
        ParamV::Boolean(b) => if b {
            "true"@
        } else {
            "false"@
        },
        ParamV::Integer(i) => int_text(i as int),
        ParamV::Enum(s) => s,
        ParamV::Text(s) => s,
        ParamV::Null => "null"@,
    }
}

/// The parameter list of a user-defined type: `<p1,p2,...>`, or nothing
/// when the parameters write as nothing.
pub open spec fn params_text(ps: Seq<ParamV>) -> Seq<char> {
    let joined = join(ps.map_values(|p: ParamV| param_text(p)), ","@);
    if joined.len() == 0 {
        seq![]
    } else {
        "<"@ + joined + ">"@
    }
}

/// The human-readable rendering of `t`:
/// `<basename><?><[variation]><<params>>`.
pub open spec fn render(t: TypeV, reg: RegistryModel) -> Seq<char>
    decreases t,
{
    let suffix = null_text(t.nullability) + variation_text(t.variation, reg);
    match t.kind {
        KindV::UserDefined { type_reference, type_parameters } => user_name(type_reference, reg) + suffix
            + params_text(type_parameters),
        KindV::FixedChar { length } => base_name(t.kind) + suffix + "<"@ + int_text(length as int) + ">"@,
        KindV::VarChar { length } => base_name(t.kind) + suffix + "<"@ + int_text(length as int) + ">"@,
        KindV::FixedBinary { length } => base_name(t.kind) + suffix + "<"@ + int_text(length as int) + ">"@,
        KindV::Decimal { precision, scale } => base_name(t.kind) + suffix + "<"@ + int_text(precision as int) + ","@
            + int_text(scale as int) + ">"@,
        KindV::List(inner) => base_name(t.kind) + suffix + "<"@ + render(*inner, reg) + ">"@,
        KindV::MapOf(k, v) => base_name(t.kind) + suffix + "<"@ + render(*k, reg) + ","@ + render(*v, reg) + ">"@,
        KindV::Struct(ts) => base_name(t.kind) + suffix + "<"@ + join(member_renderings(ts, reg), ","@) + ">"@,
        _ => base_name(t.kind) + suffix,
    }
}

/// The rendering of each of `ts`.
pub open spec fn member_renderings(ts: Seq<TypeV>, reg: RegistryModel) -> Seq<Seq<char>>
    decreases ts,
{
    Seq::new(ts.len(), |i: int| if 0 <= i < ts.len() { render(ts[i], reg) } else { seq![] })
}

fn digit_str(d: u64) -> (r: &'static str)
    requires
        d < 10,
    ensures
        r@ == seq![digit_char(d as nat)],
{
    proof {
        reveal_strlit("0");
        reveal_strlit("1");
        reveal_strlit("2");
        reveal_strlit("3");
        reveal_strlit("4");
        reveal_strlit("5");
        reveal_strlit("6");
        reveal_strlit("7");
        reveal_strlit("8");
        reveal_strlit("9");
    }
    match d {
        0 => "0",
        1 => "1",
        2 => "2",
        3 => "3",
        4 => "4",
        5 => "5",
        6 => "6",
        7 => "7",
        8 => "8",
        _ => "9",
    }
}

/// Appends the decimal digits of `n` to `out`.
pub(crate) fn append_nat(out: &mut String, n: u64)
    ensures
        final(out)@ == old(out)@ + nat_text(n as nat),
    decreases n,
{
    if n < 10 {
        out.append(digit_str(n));
    } else {
        append_nat(out, n / 10);
        out.append(digit_str(n % 10));
        assert(nat_text(n as nat) == nat_text((n / 10) as nat) + seq![digit_char((n % 10) as nat)]);
    }
}

/// Appends the decimal text of `i` to `out`.
fn append_int(out: &mut String, i: i64)
    ensures
        final(out)@ == old(out)@ + int_text(i as int),
{
    if i < 0 {
        proof {
            reveal_strlit("-");
        }
        out.append("-");
        let magnitude: u64 = (0 - (i as i128)) as u64;
        append_nat(out, magnitude);
    } else {
        append_nat(out, i as u64);
    }
}

fn append_joined_params(out: &mut String, ps: &Vec<TypeParameter>)
    ensures
        final(out)@ == old(out)@ + join(params_view(ps@).map_values(|p: ParamV| param_text(p)), ","@),
{
    let ghost start = out@;
    let ghost parts = params_view(ps@).map_values(|p: ParamV| param_text(p));
    let mut i: usize = 0;
    assert(parts.take(0) =~= seq![]);
    while i < ps.len()
        invariant
            0 <= i <= ps@.len(),
            parts == params_view(ps@).map_values(|p: ParamV| param_text(p)),
            out@ == start + join(parts.take(i as int), ","@),
        decreases ps.len() - i,
    {
        if i > 0 {
            out.append(",");
        }
        match &ps[i] {
            TypeParameter::Boolean(b) => {
                if *b {
                    out.append("true");
                } else {
                    out.append("false");
                }
            },
            TypeParameter::Integer(n) => append_int(out, *n),
            TypeParameter::Enum(v) => out.append(v.as_str()),
            TypeParameter::Text(v) => out.append(v.as_str()),
            TypeParameter::Null => out.append("null"),
        }
        proof {
            lemma_join_step(parts, ","@, i as int);
            assert(parts[i as int] == param_text(ps@[i as int]@));
            if i == 0 {
                assert(out@ =~= start + join(parts.take(i + 1), ","@));
            } else {
                assert(out@ =~= start + join(parts.take(i + 1), ","@));
            }
        }
        i = i + 1;
    }
    assert(parts.take(i as int) =~= parts);
}

/// Appends the renderings of `children`, separated by commas.
fn render_members(children: &Vec<Type>, out: &mut String, registry: &ExtensionsRegistry)
    ensures
        final(out)@ == old(out)@ + join(member_renderings(types_view(children@), registry@), ","@),
    decreases children,
{
    let ghost reg = registry@;
    let ghost head = out@;
    let ghost ts = types_view(children@);
    let ghost parts = member_renderings(ts, reg);
    assert(parts.take(0) =~= seq![]);
    let mut i: usize = 0;
    while i < children.len()
        invariant
            0 <= i <= children@.len(),
            ts == types_view(children@),
            reg == registry@,
            parts == member_renderings(ts, reg),
            out@ == head + join(parts.take(i as int), ","@),
        decreases children.len() - i,
    {
        if i > 0 {
            out.append(",");
        }
        children[i].render_into(out, registry);
        proof {
            lemma_join_step(parts, ","@, i as int);
            assert(parts[i as int] == render(children@[i as int]@, reg));
            assert(out@ =~= head + join(parts.take(i + 1), ","@));
        }
        i = i + 1;
    }
    assert(parts.take(i as int) =~= parts);
    assert(out@ == head + join(member_renderings(ts, reg), ","@));
}

/// How nullability is written: `?` for nullable, nothing for required.
pub fn null_str(nullability: Nullability) -> (r: &'static str)
    ensures
        r@ == null_text(nullability),
{
    match nullability {
        Nullability::Nullable => "?",
        Nullability::Required => "",
        Nullability::Unspecified => "INVALID-NULLABILITY",
    }
}

/// How a type variation is written: nothing for none, `[uri#name]` for a
/// registered one, `[unknown_variation]` otherwise.
pub fn vari_str(variation_reference: u32, registry: &ExtensionsRegistry) -> (r: String)
    ensures
        r@ == variation_text(variation_reference, registry@),
{
    let mut out = String::new();
    if variation_reference != NO_VARIATION {
        match registry.lookup_variation(variation_reference) {
            Some(q) => {
                out.append("[");
                out.append(q.uri.as_str());
                out.append("#");
                out.append(q.name.as_str());
                out.append("]");
            },
            None => out.append("[unknown_variation]"),
        }
    }
    assert(out@ =~= variation_text(variation_reference, registry@));
    out
}

impl Type {
    fn base_name(&self) -> (r: &'static str)
        ensures
            r@ == base_name(self@.kind),
    {
        match &self.kind {
            Kind::Bool => "bool",
            Kind::I8 => "i8",
            Kind::I16 => "i16",
            Kind::I32 => "i32",
            Kind::I64 => "i64",
            Kind::Fp32 => "fp32",
            Kind::Fp64 => "fp64",
            Kind::String => "string",
            Kind::Binary => "binary",
            Kind::Timestamp => "timestamp",
            Kind::TimestampTz => "timestamp_tz",
            Kind::Date => "date",
            Kind::Time => "time",
            Kind::IntervalYear => "interval_year",
            Kind::IntervalDay => "interval_day",
            Kind::Uuid => "uuid",
            Kind::FixedChar { .. } => "fixedchar",
            Kind::VarChar { .. } => "varchar",
            Kind::FixedBinary { .. } => "fixedbinary",
            Kind::Decimal { .. } => "decimal",
            Kind::List(..) => "list",
            Kind::MapOf(..) => "map",
            Kind::Struct(..) => "struct",
            Kind::UserDefined { .. } => "",
        }
    }

    fn append_suffix(&self, out: &mut String, registry: &ExtensionsRegistry)
        ensures
            final(out)@ == old(out)@ + (null_text(self@.nullability) + variation_text(self@.variation, registry@)),
    {
        let ghost start = out@;
        out.append(null_str(self.nullability));
        let variation = vari_str(self.variation, registry);
        out.append(variation.as_str());
        assert(out@ =~= start + (null_text(self@.nullability) + variation_text(self@.variation, registry@)));
    }

    fn render_user_defined(&self, out: &mut String, registry: &ExtensionsRegistry)
        requires
            self.kind is UserDefined,
        ensures
            final(out)@ == old(out)@ + render(self@, registry@),
    {
        let ghost start = out@;
        let ghost reg = registry@;
        if let Kind::UserDefined { type_reference, type_parameters } = &self.kind {
            match registry.lookup_type(*type_reference) {
                Some(q) => {
                    out.append(q.uri.as_str());
                    out.append("#");
                    out.append(q.name.as_str());
                },
                None => out.append("unknown_user_defined_type"),
            }
            let ghost named = out@;
            assert(named =~= start + user_name(*type_reference, reg));
            self.append_suffix(out, registry);
            let mut joined = String::new();
            append_joined_params(&mut joined, type_parameters);
            if joined.as_str().unicode_len() > 0 {
                out.append("<");
                out.append(joined.as_str());
                out.append(">");
            }
            assert(out@ =~= start + render(self@, reg));
        }
    }

    #[verifier::rlimit(50)]
    fn render_into(&self, out: &mut String, registry: &ExtensionsRegistry)
        ensures
            final(out)@ == old(out)@ + render(self@, registry@),
        decreases self,
    {
        let ghost start = out@;
        let ghost reg = registry@;
        match &self.kind {
            Kind::UserDefined { .. } => self.render_user_defined(out, registry),
            Kind::FixedChar { length } | Kind::VarChar { length } | Kind::FixedBinary { length } => {
                out.append(self.base_name());
                self.append_suffix(out, registry);
                out.append("<");
                append_int(out, *length as i64);
                out.append(">");
                assert(out@ =~= start + render(self@, reg));
            },
            Kind::Decimal { precision, scale } => {
                out.append(self.base_name());
                self.append_suffix(out, registry);
                out.append("<");
                append_int(out, *precision as i64);
                out.append(",");
                append_int(out, *scale as i64);
                out.append(">");
                assert(out@ =~= start + render(self@, reg));
            },
            Kind::List(inner) => {
                out.append(self.base_name());
                self.append_suffix(out, registry);
                out.append("<");
                inner.render_into(out, registry);
                out.append(">");
                assert(out@ =~= start + render(self@, reg));
            },
            Kind::MapOf(key, value) => {
                out.append(self.base_name());
                self.append_suffix(out, registry);
                out.append("<");
                key.render_into(out, registry);
                out.append(",");
                value.render_into(out, registry);
                out.append(">");
                assert(out@ =~= start + render(self@, reg));
            },
            Kind::Struct(children) => {
                out.append(self.base_name());
                self.append_suffix(out, registry);
                out.append("<");
                render_members(children, out, registry);
                out.append(">");
                assert(out@ =~= start + render(self@, reg));
            },
            _ => {
                out.append(self.base_name());
                self.append_suffix(out, registry);
                assert(out@ =~= start + render(self@, reg));
            },
        }
    }

    /// The human-readable name of this type, such as `decimal?<38,6>` or
    /// `list?<fixedchar<8>>`.
    pub fn to_human_readable(&self, registry: &ExtensionsRegistry) -> (r: String)
        ensures
            r@ == render(self@, registry@),
    {
        let mut out = String::new();
        self.render_into(&mut out, registry);
        assert(out@ =~= render(self@, registry@));
        out
    }
}

proof fn lemma_sum_prefix_step(ns: Seq<nat>, i: int)
    requires
        0 <= i < ns.len(),
    ensures
        sum_prefix(ns.take(i + 1)) == sum_prefix(ns.take(i)) + ns[i],
{
    assert(ns.take(i + 1).drop_last() =~= ns.take(i));
}

proof fn lemma_sum_prefix_grows(ns: Seq<nat>, i: int)
    requires
        0 <= i <= ns.len(),
    ensures
        sum_prefix(ns.take(i)) <= sum_prefix(ns),
    decreases ns.len() - i,
{
    if i < ns.len() {
        lemma_sum_prefix_step(ns, i);
        lemma_sum_prefix_grows(ns, i + 1);
    } else {
        assert(ns.take(i) =~= ns);
    }
}

/// The number of types in all of `children`, or `None` when it exceeds
/// `u64::MAX`.
fn count_members(children: &Vec<Type>) -> (r: Option<u64>)
    ensures
        r matches Some(n) ==> n as nat == sum_prefix(member_counts(types_view(children@))),
        r is None ==> sum_prefix(member_counts(types_view(children@))) > u64::MAX,
    decreases children,
{
    let ghost ns = member_counts(types_view(children@));
    let mut total: u64 = 0;
    let mut i: usize = 0;
    assert(ns.take(0) =~= seq![]);
    while i < children.len()
        invariant
            0 <= i <= children@.len(),
            ns == member_counts(types_view(children@)),
            total as nat == sum_prefix(ns.take(i as int)),
        decreases children.len() - i,
    {
        proof {
            lemma_sum_prefix_step(ns, i as int);
        }
        assert(ns[i as int] == num_types_spec(children@[i as int]@));
        match children[i].count_types() {
            Some(c) => {
                match total.checked_add(c) {
                    Some(t) => total = t,
                    None => {
                        proof {
                            lemma_sum_prefix_grows(ns, i + 1);
                        }
                        return None;
                    },
                }
            },
            None => {
                proof {
                    lemma_sum_prefix_grows(ns, i + 1);
                }
                return None;
            },
        }
        i = i + 1;
    }
    assert(ns.take(i as int) =~= ns);
    Some(total)
}

impl Type {
    /// The number of types in this type, or `None` when it exceeds `u64::MAX`.
    pub fn count_types(&self) -> (r: Option<u64>)
        ensures
            r matches Some(n) ==> n as nat == num_types_spec(self@),
            r is None ==> num_types_spec(self@) > u64::MAX,
        decreases self,
    {
        match &self.kind {
            Kind::Struct(children) => {
                match count_members(children) {
                    Some(total) => total.checked_add(1),
                    None => None,
                }
            },
            _ => Some(1),
        }
    }

    /// The number of types in this type: 1 for a type that is not a struct,
    /// and for a struct 1 plus the number in each member.
    pub fn num_types(&self) -> (r: u32)
        requires
            num_types_spec(self@) <= u32::MAX,
        ensures
            r as nat == num_types_spec(self@),
    {
        match self.count_types() {
            Some(n) => n as u32,
            None => 0,
        }
    }
}

/// A type of the given kind, with no variation.
fn plain_type(kind: Kind, nullable: bool) -> (r: Type)
    ensures
        r.kind == kind,
        r.nullability == nullability_spec(nullable),
        r.variation == NO_VARIATION,
{
    Type { kind, nullability: nullability(nullable), variation: NO_VARIATION }
}

/// The boolean type.
pub fn bool(nullable: bool) -> (r: Type)
    ensures
        r@ == plain(KindV::Bool, nullable),
{
    plain_type(Kind::Bool, nullable)
}

/// The 8-bit integer type.
pub fn i8(nullable: bool) -> (r: Type)
    ensures
        r@ == plain(KindV::I8, nullable),
{
    plain_type(Kind::I8, nullable)
}

/// The 16-bit integer type.
pub fn i16(nullable: bool) -> (r: Type)
    ensures
        r@ == plain(KindV::I16, nullable),
{
    plain_type(Kind::I16, nullable)
}

/// The 32-bit integer type.
pub fn i32(nullable: bool) -> (r: Type)
    ensures
        r@ == plain(KindV::I32, nullable),
{
    plain_type(Kind::I32, nullable)
}

/// The 64-bit integer type.
pub fn i64(nullable: bool) -> (r: Type)
    ensures
        r@ == plain(KindV::I64, nullable),
{
    plain_type(Kind::I64, nullable)
}

/// The 32-bit floating point type.
pub fn fp32(nullable: bool) -> (r: Type)
    ensures
        r@ == plain(KindV::Fp32, nullable),
{
    plain_type(Kind::Fp32, nullable)
}

/// The 64-bit floating point type.
pub fn fp64(nullable: bool) -> (r: Type)
    ensures
        r@ == plain(KindV::Fp64, nullable),
{
    plain_type(Kind::Fp64, nullable)
}

/// The string type.
pub fn string(nullable: bool) -> (r: Type)
    ensures
        r@ == plain(KindV::String, nullable),
{
    plain_type(Kind::String, nullable)
}

/// The binary type.
pub fn binary(nullable: bool) -> (r: Type)
    ensures
        r@ == plain(KindV::Binary, nullable),
{
    plain_type(Kind::Binary, nullable)
}

/// The timestamp type.
pub fn timestamp(nullable: bool) -> (r: Type)
    ensures
        r@ == plain(KindV::Timestamp, nullable),
{
    plain_type(Kind::Timestamp, nullable)
}

/// The timestamp-with-time-zone type.
pub fn timestamp_tz(nullable: bool) -> (r: Type)
    ensures
        r@ == plain(KindV::TimestampTz, nullable),
{
    plain_type(Kind::TimestampTz, nullable)
}

/// The date type.
pub fn date(nullable: bool) -> (r: Type)
    ensures
        r@ == plain(KindV::Date, nullable),
{
    plain_type(Kind::Date, nullable)
}

/// The time type.
pub fn time(nullable: bool) -> (r: Type)
    ensures
        r@ == plain(KindV::Time, nullable),
{
    plain_type(Kind::Time, nullable)
}

/// The year-month interval type.
pub fn interval_year(nullable: bool) -> (r: Type)
    ensures
        r@ == plain(KindV::IntervalYear, nullable),
{
    plain_type(Kind::IntervalYear, nullable)
}

/// The day-time interval type.
pub fn interval_day(nullable: bool) -> (r: Type)
    ensures
        r@ == plain(KindV::IntervalDay, nullable),
{
    plain_type(Kind::IntervalDay, nullable)
}

/// The uuid type.
pub fn uuid(nullable: bool) -> (r: Type)
    ensures
        r@ == plain(KindV::Uuid, nullable),
{
    plain_type(Kind::Uuid, nullable)
}

/// A fixed-length character type; lengths above `i32::MAX` are rejected.
pub fn fixed_char(length: u32, nullable: bool) -> (r: Result<Type, SubstraitExprError>)
    ensures
        r is Ok <==> length <= i32::MAX,
        r matches Ok(t) ==> t@ == plain(KindV::FixedChar { length: length as i32 }, nullable),
        r matches Err(e) ==> e.is_invalid_input(),
{
    if length > 2147483647 {
        Err(SubstraitExprError::invalid_input("fixed_char length must not exceed 2^31-1"))
    } else {
        Ok(plain_type(Kind::FixedChar { length: length as i32 }, nullable))
    }
}

/// A variable-length character type; lengths above `i32::MAX` are rejected.
pub fn varchar(length: u32, nullable: bool) -> (r: Result<Type, SubstraitExprError>)
    ensures
        r is Ok <==> length <= i32::MAX,
        r matches Ok(t) ==> t@ == plain(KindV::VarChar { length: length as i32 }, nullable),
        r matches Err(e) ==> e.is_invalid_input(),
{
    if length > 2147483647 {
        Err(SubstraitExprError::invalid_input("varchar length must not exceed 2^31-1"))
    } else {
        Ok(plain_type(Kind::VarChar { length: length as i32 }, nullable))
    }
}

/// A fixed-length binary type; lengths above `i32::MAX` are rejected.
pub fn fixed_binary(length: u32, nullable: bool) -> (r: Result<Type, SubstraitExprError>)
    ensures
        r is Ok <==> length <= i32::MAX,
        r matches Ok(t) ==> t@ == plain(KindV::FixedBinary { length: length as i32 }, nullable),
        r matches Err(e) ==> e.is_invalid_input(),
{
    if length > 2147483647 {
        Err(SubstraitExprError::invalid_input("fixed_binary length must not exceed 2^31-1"))
    } else {
        Ok(plain_type(Kind::FixedBinary { length: length as i32 }, nullable))
    }
}

/// A decimal type; `precision` must lie in `(0, 38]` and `scale` in
/// `[0, precision]`.
pub fn decimal(precision: u8, scale: u8, nullable: bool) -> (r: Result<Type, SubstraitExprError>)
    ensures
        r is Ok <==> (0 < precision <= 38 && scale <= precision),
        r matches Ok(t) ==> t@ == plain(KindV::Decimal { precision: precision as i32, scale: scale as i32 }, nullable),
        r matches Err(e) ==> e.is_invalid_input(),
{
    if precision == 0 || precision > 38 {
        Err(SubstraitExprError::invalid_input("invalid precision, must be in the range (0, 38]"))
    } else if scale > precision {
        Err(SubstraitExprError::invalid_input("invalid scale, must be less than or equal to precision"))
    } else {
        Ok(plain_type(Kind::Decimal { precision: precision as i32, scale: scale as i32 }, nullable))
    }
}

/// A list of `item_type`.
pub fn list(item_type: Type, nullable: bool) -> (r: Type)
    ensures
        r@ == plain(KindV::List(Box::new(item_type@)), nullable),
{
    plain_type(Kind::List(Box::new(item_type)), nullable)
}

/// A map from `key_type` to `value_type`.
pub fn map(key_type: Type, value_type: Type, nullable: bool) -> (r: Type)
    ensures
        r@ == plain(KindV::MapOf(Box::new(key_type@), Box::new(value_type@)), nullable),
{
    plain_type(Kind::MapOf(Box::new(key_type), Box::new(value_type)), nullable)
}

/// A struct with the given members.
pub fn struct_(children: Vec<Type>, nullable: bool) -> (r: Type)
    ensures
        r@ == plain(KindV::Struct(types_view(children@)), nullable),
{
    plain_type(Kind::Struct(children), nullable)
}

/// The reserved unknown type, registered in `registry`. It matches any
/// expected argument type and makes a call's result unknown too.
pub fn unknown(registry: &mut ExtensionsRegistry) -> (r: Type)
    requires
        unknown_ready(old(registry)@),
    ensures
        final(registry)@ == old(registry)@.register_type(UNKNOWN_TYPE_URI@, UNKNOWN_TYPE_NAME@).0,
        r@ == unknown_type_spec(old(registry)@.register_type(UNKNOWN_TYPE_URI@, UNKNOWN_TYPE_NAME@).1),
        is_unknown_spec(r@, final(registry)@),
{
    registry.note_well_formed();
    proof {
        lemma_register_type_lookup(registry@, UNKNOWN_TYPE_URI@, UNKNOWN_TYPE_NAME@);
    }
    let anchor = registry.register_type(UNKNOWN_TYPE_URI.to_owned(), UNKNOWN_TYPE_NAME);
    let no_params: Vec<TypeParameter> = Vec::new();
    assert(params_view(no_params@) =~= seq![]);
    let r = Type {
        kind: Kind::UserDefined { type_reference: anchor, type_parameters: no_params },
        nullability: Nullability::Nullable,
        variation: NO_VARIATION,
    };
    r
}

} // verus!
