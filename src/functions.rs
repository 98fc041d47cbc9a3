//! Function catalogs and calls: overload matching, relaxation for unknown
//! argument types, and the construction of call expressions.
use vstd::prelude::*;
use crate::error::SubstraitExprError;
use crate::expr::{output_type_registry, output_type_spec, Expression, FunctionArgument, FunctionOption, LiteralValue, ScalarFunction};
use crate::registry::{ExtensionsRegistry, Namespace, RegistryModel};
use crate::schema::{strings_view, with_unknown, SchemaInfo, SchemaShape, SchemaV};
use crate::types::{
    is_unknown_spec, kind_tag, same_kind_spec, types_view, unknown_ready, unknown_type_spec, Kind, KindV, Type,
    TypeV,
};

verus! {

/// The kind of an implementation's argument.
#[derive(Debug)]
pub enum ImplementationArgType {
    /// One of a fixed set of strings (the "extract" function uses one to
    /// choose the part of a date to extract).
    Enum(Vec<String>),
    /// A value of the given type, given by an expression.
    Value(Type),
}

/// A named argument of an implementation.
#[derive(Debug)]
pub struct ImplementationArg {
    /// The name of the argument; for documentation only.
    pub name: String,
    /// The kind of the argument.
    pub arg_type: ImplementationArgType,
}

/// One implementation kernel of a function.
#[derive(Debug)]
pub struct FunctionImplementation {
    /// The arguments it takes.
    pub args: Vec<ImplementationArg>,
    /// The type of its result.
    pub output_type: Type,
}

/// A function of a catalog: its uri, name and implementations.
#[derive(Debug)]
pub struct FunctionDefinition {
    /// The uri of the catalog that defines the function.
    pub uri: String,
    /// The name of the function.
    pub name: String,
    /// Its implementations, in order of preference.
    pub implementations: Vec<FunctionImplementation>,
}

/// The kind of an argument, as the contracts see it.
pub enum ArgTypeV {
    Enum(Seq<Seq<char>>),
    Value(TypeV),
}

/// An argument, as the contracts see it.
pub struct ArgV {
    pub name: Seq<char>,
    pub arg_type: ArgTypeV,
}

/// An implementation, as the contracts see it.
pub struct ImplV {
    pub args: Seq<ArgV>,
    pub output_type: TypeV,
}

impl ImplementationArgType {
    pub open spec fn view(&self) -> ArgTypeV {
        match self {
            ImplementationArgType::Enum(vals) => ArgTypeV::Enum(strings_view(vals@)),
            ImplementationArgType::Value(t) => ArgTypeV::Value(t@),
        }
    }
}

impl ImplementationArg {
    pub open spec fn view(&self) -> ArgV {
        ArgV { name: self.name@, arg_type: self.arg_type@ }
    }
}

pub open spec fn args_view(args: Seq<ImplementationArg>) -> Seq<ArgV> {
    args.map_values(|a: ImplementationArg| a@)
}

impl FunctionImplementation {
    pub open spec fn view(&self) -> ImplV {
        ImplV { args: args_view(self.args@), output_type: self.output_type@ }
    }
}

/// An argument of type `t` can stand for `a`: `t` is the unknown type, or
/// it is a string for an enum argument, or it has the kind `a` expects.
pub open spec fn arg_matches_spec(a: ArgV, t: TypeV, reg: RegistryModel) -> bool {
    is_unknown_spec(t, reg) || match a.arg_type {
        ArgTypeV::Enum(_) => kind_tag(t.kind) == kind_tag(KindV::String),
        ArgTypeV::Value(expected) => same_kind_spec(t, expected),
    }
}

/// Arguments of types `ts` fit implementation `imp`: as many as it takes,
/// each matching its argument.
pub open spec fn impl_matches_spec(imp: ImplV, ts: Seq<TypeV>, reg: RegistryModel) -> bool {
    &&& imp.args.len() == ts.len()
    &&& forall|i: int| 0 <= i < ts.len() ==> arg_matches_spec(#[trigger] imp.args[i], ts[i], reg)
}

/// Some type of `ts` is the unknown type.
pub open spec fn has_unknown(ts: Seq<TypeV>, reg: RegistryModel) -> bool {
    exists|i: int| 0 <= i < ts.len() && is_unknown_spec(#[trigger] ts[i], reg)
}

/// The position of the first unknown type in `ts`.
pub open spec fn first_unknown(ts: Seq<TypeV>, reg: RegistryModel) -> int {
    choose|k: int| 0 <= k < ts.len() && is_unknown_spec(ts[k], reg) && forall|j: int| 0 <= j < k ==> !is_unknown_spec(#[trigger] ts[j], reg)
}

/// The anchor of a user-defined type.
pub open spec fn type_anchor(t: TypeV) -> u32 {
    match t.kind {
        KindV::UserDefined { type_reference, .. } => type_reference,
        _ => 0,
    }
}

/// `imp` relaxed for arguments of types `ts`: each argument whose type is
/// unknown expects that type; if any is unknown, so is the result.
pub open spec fn relax_spec(imp: ImplV, ts: Seq<TypeV>, reg: RegistryModel) -> ImplV {
    ImplV {
        args: Seq::new(
            imp.args.len(),
            |i: int|
                if is_unknown_spec(ts[i], reg) {
                    ArgV { name: imp.args[i].name, arg_type: ArgTypeV::Value(ts[i]) }
                } else {
                    imp.args[i]
                },
        ),
        output_type: if has_unknown(ts, reg) {
            unknown_type_spec(type_anchor(ts[first_unknown(ts, reg)]))
        } else {
            imp.output_type
        },
    }
}

/// The position of the first implementation that arguments of types `ts`
/// fit, if any does.
pub open spec fn first_match(imps: Seq<ImplV>, ts: Seq<TypeV>, reg: RegistryModel) -> Option<int> {
    if exists|k: int| 0 <= k < imps.len() && impl_matches_spec(#[trigger] imps[k], ts, reg) {
        Some(
            choose|k: int|
                0 <= k < imps.len() && impl_matches_spec(imps[k], ts, reg) && forall|j: int|
                    0 <= j < k ==> !impl_matches_spec(#[trigger] imps[j], ts, reg),
        )
    } else {
        None
    }
}

pub open spec fn impls_view(imps: Seq<FunctionImplementation>) -> Seq<ImplV> {
    imps.map_values(|i: FunctionImplementation| i@)
}

fn clone_strings(v: &Vec<String>) -> (r: Vec<String>)
    ensures
        strings_view(r@) == strings_view(v@),
{
    let mut r: Vec<String> = Vec::new();
    let mut i: usize = 0;
    while i < v.len()
        invariant
            0 <= i <= v@.len(),
            r@.len() == i,
            forall|j: int| 0 <= j < i ==> (#[trigger] r@[j])@ == v@[j]@,
        decreases v.len() - i,
    {
        r.push(v[i].clone());
        i = i + 1;
    }
    assert(strings_view(r@) =~= strings_view(v@));
    r
}

impl ImplementationArg {
    /// A copy of this argument.
    pub fn deep_clone(&self) -> (r: Self)
        ensures
            r@ == self@,
    {
        let arg_type = match &self.arg_type {
            ImplementationArgType::Enum(vals) => ImplementationArgType::Enum(clone_strings(vals)),
            ImplementationArgType::Value(t) => ImplementationArgType::Value(t.deep_clone()),
        };
        ImplementationArg { name: self.name.clone(), arg_type }
    }

    /// True if an expression of type `arg_type` can stand for this argument.
    /// An enum argument accepts only strings, there being no enum type.
    pub fn matches(&self, arg_type: &Type, registry: &ExtensionsRegistry) -> (r: bool)
        ensures
            r == arg_matches_spec(self@, arg_type@, registry@),
    {
        if arg_type.is_unknown(registry) {
            true
        } else {
            match &self.arg_type {
                ImplementationArgType::Enum(_) => arg_type.same_kind(&crate::types::string(true)),
                ImplementationArgType::Value(expected) => arg_type.same_kind(expected),
            }
        }
    }
}

impl FunctionImplementation {
    /// True if expressions of types `arg_types` fit this implementation.
    pub fn matches(&self, arg_types: &[Type], registry: &ExtensionsRegistry) -> (r: bool)
        ensures
            r == impl_matches_spec(self@, types_view(arg_types@), registry@),
    {
        if arg_types.len() != self.args.len() {
            return false;
        }
        let ghost ts = types_view(arg_types@);
        let mut i: usize = 0;
        while i < arg_types.len()
            invariant
                0 <= i <= arg_types@.len(),
                arg_types@.len() == self.args@.len(),
                ts == types_view(arg_types@),
                forall|j: int| 0 <= j < i ==> arg_matches_spec(#[trigger] self@.args[j], ts[j], registry@),
            decreases arg_types.len() - i,
        {
            if !self.args[i].matches(&arg_types[i], registry) {
                assert(!arg_matches_spec(self@.args[i as int], ts[i as int], registry@));
                return false;
            }
            i = i + 1;
        }
        true
    }

    /// This implementation relaxed for arguments of types `types`: each
    /// argument whose type is unknown now expects that type, and if any is
    /// unknown, the result is unknown too.
    pub fn relax(&self, types: &[Type], registry: &ExtensionsRegistry) -> (r: Result<FunctionImplementation, SubstraitExprError>)
        ensures
            r is Ok <==> self.args@.len() == types@.len(),
            r matches Ok(imp) ==> imp@ == relax_spec(self@, types_view(types@), registry@),
            r matches Err(e) ==> e.is_invalid_input(),
    {
        if self.args.len() != types.len() {
            return Err(SubstraitExprError::invalid_input("Attempt to relax an implementation with the wrong number of types"));
        }
        let ghost ts = types_view(types@);
        let ghost reg = registry@;
        let mut args: Vec<ImplementationArg> = Vec::new();
        let mut unknown_anchor: Option<u32> = None;
        let mut i: usize = 0;
        while i < types.len()
            invariant
                0 <= i <= types@.len(),
                types@.len() == self.args@.len(),
                ts == types_view(types@),
                reg == registry@,
                args@.len() == i,
                forall|j: int| 0 <= j < i ==> (#[trigger] args@[j])@ == relax_spec(self@, ts, reg).args[j],
                unknown_anchor is None <==> forall|j: int| 0 <= j < i ==> !is_unknown_spec(#[trigger] ts[j], reg),
                unknown_anchor matches Some(a) ==> exists|k: int|
                    0 <= k < i && is_unknown_spec(ts[k], reg) && type_anchor(ts[k]) == a && forall|j: int|
                        0 <= j < k ==> !is_unknown_spec(#[trigger] ts[j], reg),
            decreases types.len() - i,
        {
            let t = &types[i];
            let ghost prev = args@;
            assert(ts[i as int] == t@);
            if t.is_unknown(registry) {
                args.push(ImplementationArg { name: self.args[i].name.clone(), arg_type: ImplementationArgType::Value(t.deep_clone()) });
                if unknown_anchor.is_none() {
                    match &t.kind {
                        Kind::UserDefined { type_reference, .. } => {
                            unknown_anchor = Some(*type_reference);
                        },
                        _ => {},
                    }
                }
            } else {
                args.push(self.args[i].deep_clone());
            }
            proof {
                assert(args@[i as int]@ == relax_spec(self@, ts, reg).args[i as int]);
                assert forall|j: int| 0 <= j < i + 1 implies (#[trigger] args@[j])@ == relax_spec(self@, ts, reg).args[j] by {
                    if j < i {
                        assert(args@[j] == prev[j]);
                    }
                }
            }
            i = i + 1;
        }
        let no_params: Vec<crate::types::TypeParameter> = Vec::new();
        assert(crate::types::params_view(no_params@) =~= seq![]);
        let output_type = match unknown_anchor {
            Some(anchor) => Type {
                kind: Kind::UserDefined { type_reference: anchor, type_parameters: no_params },
                nullability: crate::types::Nullability::Nullable,
                variation: crate::types::NO_VARIATION,
            },
            None => self.output_type.deep_clone(),
        };
        let r = FunctionImplementation { args, output_type };
        proof {
            assert(args_view(r.args@) =~= relax_spec(self@, ts, reg).args);
            if has_unknown(ts, reg) {
                let k = first_unknown(ts, reg);
                assert(unknown_anchor is Some);
                let a = unknown_anchor->Some_0;
                let k2 = choose|k: int|
                    0 <= k < i && is_unknown_spec(ts[k], reg) && type_anchor(ts[k]) == a && forall|j: int|
                        0 <= j < k ==> !is_unknown_spec(#[trigger] ts[j], reg);
                assert(k == k2) by {
                    if k < k2 {
                        assert(!is_unknown_spec(ts[k], reg));
                    } else if k2 < k {
                        assert(!is_unknown_spec(ts[k2], reg));
                    }
                }
            }
        }
        Ok(r)
    }
}

/// Finding the type of `e` against a schema of this shape registers the
/// unknown type.
pub open spec fn registers_unknown(e: Expression, shape: SchemaShape) -> bool {
    &&& e matches Expression::Selection(r) && r.root is Root
    &&& (shape is Empty || shape is Names)
}

/// Every one of `args` has a type against `s`.
pub open spec fn args_typed(args: Seq<Expression>, s: SchemaV) -> bool {
    forall|i: int| 0 <= i < args.len() ==> (#[trigger] output_type_spec(args[i], s)) is Some
}

/// The types of `args` against `s`.
pub open spec fn arg_types_spec(args: Seq<Expression>, s: SchemaV) -> Seq<TypeV> {
    Seq::new(
        args.len(),
        |i: int|
            match output_type_spec(args[i], s) {
                Some(t) => t,
                None => arbitrary(),
            },
    )
}

/// The schema's registry once the types of `args` have been found.
pub open spec fn args_registry(args: Seq<Expression>, s: SchemaV) -> RegistryModel {
    if exists|i: int| 0 <= i < args.len() && registers_unknown(#[trigger] args[i], s.shape) {
        with_unknown(s.registry)
    } else {
        s.registry
    }
}

proof fn lemma_output_type_stable(e: Expression, s0: SchemaV, s1: SchemaV)
    requires
        s0.registry.wf(),
        unknown_ready(s0.registry),
        s1.shape == s0.shape,
        s1.registry == s0.registry || s1.registry == with_unknown(s0.registry),
    ensures
        output_type_spec(e, s1) == output_type_spec(e, s0),
        output_type_registry(e, s1) == if registers_unknown(e, s0.shape) {
            with_unknown(s0.registry)
        } else {
            s1.registry
        },
        unknown_ready(s1.registry),
{
    crate::schema::lemma_unknown_stable(s0.registry);
}

proof fn lemma_args_registry_step(args: Seq<Expression>, i: int, s0: SchemaV)
    requires
        0 <= i < args.len(),
    ensures
        args_registry(args.take(i + 1), s0) == if registers_unknown(args[i], s0.shape) {
            with_unknown(s0.registry)
        } else {
            args_registry(args.take(i), s0)
        },
        args_registry(args.take(i), s0) == s0.registry || args_registry(args.take(i), s0) == with_unknown(s0.registry),
{
    let pre = args.take(i);
    let post = args.take(i + 1);
    assert(post =~= pre.push(args[i]));
    if registers_unknown(args[i], s0.shape) {
        assert(registers_unknown(post[i], s0.shape));
    } else if exists|j: int| 0 <= j < pre.len() && registers_unknown(#[trigger] pre[j], s0.shape) {
        let j = choose|j: int| 0 <= j < pre.len() && registers_unknown(#[trigger] pre[j], s0.shape);
        assert(post[j] == pre[j]);
    } else {
        assert forall|j: int| 0 <= j < post.len() implies !registers_unknown(#[trigger] post[j], s0.shape) by {
            if j < pre.len() {
                assert(post[j] == pre[j]);
            }
        }
    }
}

impl FunctionDefinition {
    /// The first implementation, in declaration order, that `args` fit,
    /// relaxed for the arguments of unknown type; `None` when none fits.
    /// Fails when the type of an argument cannot be found.
    #[verifier::rlimit(40)]
    pub fn pick_implementation_from_args(&self, args: &[Expression], schema: &mut SchemaInfo) -> (r: Result<
        Option<FunctionImplementation>,
        SubstraitExprError,
    >)
        requires
            unknown_ready(old(schema)@.registry),
        ensures
            final(schema)@.shape == old(schema)@.shape,
            final(schema)@.registry == old(schema)@.registry || final(schema)@.registry == with_unknown(old(schema)@.registry),
            r is Err <==> !args_typed(args@, old(schema)@),
            r is Ok ==> final(schema)@.registry == args_registry(args@, old(schema)@),
            r matches Ok(found) ==> match first_match(
                impls_view(self.implementations@),
                arg_types_spec(args@, old(schema)@),
                final(schema)@.registry,
            ) {
                None => found is None,
                Some(k) => found matches Some(imp) && imp@ == relax_spec(
                    impls_view(self.implementations@)[k],
                    arg_types_spec(args@, old(schema)@),
                    final(schema)@.registry,
                ),
            },
    {
        let ghost s0 = schema@;
        schema.extensions_registry().note_well_formed();
        let mut types: Vec<Type> = Vec::new();
        let mut failure: Option<SubstraitExprError> = None;
        let mut i: usize = 0;
        while i < args.len() && failure.is_none()
            invariant
                0 <= i <= args@.len(),
                s0.registry.wf(),
                unknown_ready(s0.registry),
                (*schema)@.shape == s0.shape,
                failure is None ==> (*schema)@.registry == args_registry(args@.take(i as int), s0),
                (*schema)@.registry == s0.registry || (*schema)@.registry == with_unknown(s0.registry),
                failure is Some ==> i < args@.len() && output_type_spec(args@[i as int], s0) is None,
                types@.len() == i,
                forall|j: int| 0 <= j < i ==> output_type_spec(#[trigger] args@[j], s0) == Some(types@[j]@),
            decreases args.len() - i + (if failure is None { 1int } else { 0int }),
        {
            proof {
                lemma_output_type_stable(args@[i as int], s0, (*schema)@);
                lemma_args_registry_step(args@, i as int, s0);
                crate::schema::lemma_unknown_stable(s0.registry);
            }
            match args[i].output_type(schema) {
                Ok(t) => {
                    types.push(t);
                    i = i + 1;
                },
                Err(e) => {
                    failure = Some(e);
                },
            }
        }
        if let Some(e) = failure {
            assert(!args_typed(args@, s0)) by {
                assert(output_type_spec(args@[i as int], s0) is None);
            }
            return Err(e);
        }
        assert(args@.take(i as int) =~= args@);
        let ghost ts = arg_types_spec(args@, s0);
        assert(types_view(types@) =~= ts);
        assert(args_typed(args@, s0));
        let registry = schema.extensions_registry();
        self.first_matching(&types, registry)
    }

    fn first_matching(&self, types: &Vec<Type>, registry: &ExtensionsRegistry) -> (r: Result<
        Option<FunctionImplementation>,
        SubstraitExprError,
    >)
        ensures
            r is Ok,
            r matches Ok(found) ==> match first_match(impls_view(self.implementations@), types_view(types@), registry@) {
                None => found is None,
                Some(k) => found matches Some(imp) && imp@ == relax_spec(
                    impls_view(self.implementations@)[k],
                    types_view(types@),
                    registry@,
                ),
            },
    {
        let ghost ts = types_view(types@);
        let ghost reg = registry@;
        let ghost imps = impls_view(self.implementations@);
        let mut k: usize = 0;
        while k < self.implementations.len()
            invariant
                0 <= k <= self.implementations@.len(),
                imps == impls_view(self.implementations@),
                types_view(types@) == ts,
                reg == registry@,
                forall|j: int| 0 <= j < k ==> !impl_matches_spec(#[trigger] imps[j], ts, reg),
            decreases self.implementations.len() - k,
        {
            let imp = &self.implementations[k];
            if imp.matches(types.as_slice(), registry) {
                let relaxed = imp.relax(types.as_slice(), registry);
                proof {
                    assert(impl_matches_spec(imps[k as int], ts, reg));
                    let c = choose|c: int|
                        0 <= c < imps.len() && impl_matches_spec(imps[c], ts, reg) && forall|j: int|
                            0 <= j < c ==> !impl_matches_spec(#[trigger] imps[j], ts, reg);
                    assert(c == k) by {
                        if c < k {
                            assert(!impl_matches_spec(imps[c], ts, reg));
                        } else if k < c {
                            assert(!impl_matches_spec(imps[k as int], ts, reg));
                        }
                    }
                }
                return match relaxed {
                    Ok(imp) => Ok(Some(imp)),
                    Err(e) => Err(e),
                };
            }
            k = k + 1;
        }
        Ok(None)
    }
}

/// An argument of unknown type makes the result of the call unknown, and
/// the relaxed implementation expects exactly the unknown type there; with
/// no unknown argument, the implementation is unchanged.
pub proof fn lemma_relax_unknown(imp: ImplV, ts: Seq<TypeV>, reg: RegistryModel)
    requires
        imp.args.len() == ts.len(),
    ensures
        has_unknown(ts, reg) ==> is_unknown_spec(relax_spec(imp, ts, reg).output_type, reg),
        forall|i: int| 0 <= i < ts.len() && is_unknown_spec(ts[i], reg) ==> (#[trigger] relax_spec(imp, ts, reg).args[i]).arg_type
            == ArgTypeV::Value(ts[i]),
        !has_unknown(ts, reg) ==> relax_spec(imp, ts, reg) == imp,
{
    let r = relax_spec(imp, ts, reg);
    if has_unknown(ts, reg) {
        let w = choose|i: int| 0 <= i < ts.len() && is_unknown_spec(#[trigger] ts[i], reg);
        lemma_first_unknown_exists(ts, reg, w);
        let k = first_unknown(ts, reg);
        assert(is_unknown_spec(ts[k], reg));
    } else {
        assert(r.args =~= imp.args);
    }
}

proof fn lemma_first_match_exists(imps: Seq<ImplV>, ts: Seq<TypeV>, reg: RegistryModel, w: int)
    requires
        0 <= w < imps.len(),
        impl_matches_spec(imps[w], ts, reg),
    ensures
        exists|k: int|
            0 <= k < imps.len() && impl_matches_spec(imps[k], ts, reg) && forall|j: int|
                0 <= j < k ==> !impl_matches_spec(#[trigger] imps[j], ts, reg),
    decreases w,
{
    if exists|j: int| 0 <= j < w && impl_matches_spec(#[trigger] imps[j], ts, reg) {
        let j = choose|j: int| 0 <= j < w && impl_matches_spec(#[trigger] imps[j], ts, reg);
        lemma_first_match_exists(imps, ts, reg, j);
    } else {
        assert(forall|j: int| 0 <= j < w ==> !impl_matches_spec(#[trigger] imps[j], ts, reg));
    }
}

proof fn lemma_first_unknown_exists(ts: Seq<TypeV>, reg: RegistryModel, w: int)
    requires
        0 <= w < ts.len(),
        is_unknown_spec(ts[w], reg),
    ensures
        exists|k: int| 0 <= k < ts.len() && is_unknown_spec(ts[k], reg) && forall|j: int| 0 <= j < k ==> !is_unknown_spec(#[trigger] ts[j], reg),
    decreases w,
{
    if exists|j: int| 0 <= j < w && is_unknown_spec(#[trigger] ts[j], reg) {
        let j = choose|j: int| 0 <= j < w && is_unknown_spec(#[trigger] ts[j], reg);
        lemma_first_unknown_exists(ts, reg, j);
    } else {
        assert(forall|j: int| 0 <= j < w ==> !is_unknown_spec(#[trigger] ts[j], reg));
    }
}

/// The uri of the reserved function that stands for a field looked up by
/// name once the schema is known.
pub const LOOKUP_BY_NAME_FUNC_URI: &'static str = "https://substrait.io/functions";

/// The name of the reserved function that stands for a field looked up by
/// name once the schema is known.
pub const LOOKUP_BY_NAME_FUNC_NAME: &'static str = "lookup_by_name";

impl ExtensionsRegistry {
    /// Registers a function of a catalog and returns its anchor.
    pub fn register_function(&mut self, function: &FunctionDefinition) -> (r: u32)
        requires
            old(self)@.can_register(Namespace::Functions, function.uri@, function.name@),
        ensures
            (final(self)@, r) == old(self)@.register_function(function.uri@, function.name@),
    {
        self.register_function_by_name(function.uri.as_str(), function.name.as_str())
    }
}

/// The registry can take the lookup function and then the unknown type.
pub open spec fn lookup_ready(reg: RegistryModel) -> bool {
    &&& reg.can_register(Namespace::Functions, LOOKUP_BY_NAME_FUNC_URI@, LOOKUP_BY_NAME_FUNC_NAME@)
    &&& unknown_ready(reg.register_function(LOOKUP_BY_NAME_FUNC_URI@, LOOKUP_BY_NAME_FUNC_NAME@).0)
}

/// The registry after a deferred lookup has been built.
pub open spec fn lookup_registry(reg: RegistryModel) -> RegistryModel {
    with_unknown(reg.register_function(LOOKUP_BY_NAME_FUNC_URI@, LOOKUP_BY_NAME_FUNC_NAME@).0)
}

/// `e` is the deferred lookup of the field `name`: a call of the lookup
/// function with the name as its one enum argument, whose result is unknown.
pub open spec fn is_lookup_of(e: Expression, name: Seq<char>, reg: RegistryModel) -> bool {
    let (reg1, anchor) = reg.register_function(LOOKUP_BY_NAME_FUNC_URI@, LOOKUP_BY_NAME_FUNC_NAME@);
    &&& e matches Expression::ScalarFunction(f)
    &&& f.function_reference == anchor
    &&& f.arguments@.len() == 1
    &&& f.arguments@[0] matches FunctionArgument::Enum(n) && n@ == name
    &&& f.output_type@ == crate::schema::unknown_of(reg1)
    &&& f.options@.len() == 0
}

/// Creates scalar function calls against a schema, registering the
/// functions they call in the schema's registry.
pub struct FunctionsBuilder<'a> {
    pub schema: &'a mut SchemaInfo,
}

/// A call of a function under construction.
pub struct FunctionBuilder<'a> {
    pub func: &'a FunctionDefinition,
    pub func_reference: u32,
    pub args: Vec<Expression>,
    pub options: Vec<FunctionOption>,
    pub schema: &'a mut SchemaInfo,
}

impl<'a> FunctionsBuilder<'a> {
    pub fn new(schema: &'a mut SchemaInfo) -> (r: Self)
        ensures
            *r.schema == *old(schema),
            *final(schema) == *final(r.schema),
    {
        FunctionsBuilder { schema }
    }

    /// Starts a call of `func` with `args`, registering `func`.
    pub fn new_builder(self, func: &'a FunctionDefinition, args: Vec<Expression>) -> (r: FunctionBuilder<'a>)
        requires
            (*self.schema)@.registry.can_register(Namespace::Functions, func.uri@, func.name@),
        ensures
            (*r.schema)@ == (SchemaV {
                registry: (*old(self.schema))@.registry.register_function(func.uri@, func.name@).0,
                ..(*old(self.schema))@
            }),
            r.func_reference == (*old(self.schema))@.registry.register_function(func.uri@, func.name@).1,
            r.func == func,
            r.args == args,
            r.options@.len() == 0,
            *final(self.schema) == *final(r.schema),
    {
        let schema = self.schema;
        let func_reference = schema.register_function_by_name(func.uri.as_str(), func.name.as_str());
        FunctionBuilder { func, func_reference, args, options: Vec::new(), schema }
    }

    /// A placeholder for the field `name`, to be looked up once the schema
    /// is known: a call of the reserved lookup function with the name as an
    /// enum argument and an unknown result.
    pub fn lookup_field_by_name(self, name: &str) -> (r: Expression)
        requires
            lookup_ready((*self.schema)@.registry),
        ensures
            (*final(self.schema))@ == (SchemaV { registry: lookup_registry((*old(self.schema))@.registry), ..(*old(self.schema))@ }),
            is_lookup_of(r, name@, (*old(self.schema))@.registry),
    {
        let schema = self.schema;
        let function_reference = schema.register_function_by_name(LOOKUP_BY_NAME_FUNC_URI, LOOKUP_BY_NAME_FUNC_NAME);
        let output_type = schema.unknown_type();
        let mut arguments: Vec<FunctionArgument> = Vec::new();
        arguments.push(FunctionArgument::Enum(name.to_owned()));
        Expression::ScalarFunction(ScalarFunction { function_reference, arguments, output_type, options: Vec::new() })
    }
}

/// `arg` is a string literal whose value is one of `vals`.
pub open spec fn enum_value_ok(arg: Expression, vals: Seq<Seq<char>>) -> bool {
    arg matches Expression::Literal(l) && (l.literal_type matches LiteralValue::String(v) && vals.contains(v@))
}

/// Every enum argument of `imp` is given one of its allowed values.
pub open spec fn call_args_ok(args: Seq<Expression>, imp: ImplV) -> bool {
    forall|i: int|
        0 <= i < args.len() ==> match (#[trigger] imp.args[i]).arg_type {
            ArgTypeV::Enum(vals) => enum_value_ok(args[i], vals),
            ArgTypeV::Value(_) => true,
        }
}

/// `out` is what a call passes for expression `arg` at argument `a`: the
/// literal's text for an enum argument, the expression for a value.
pub open spec fn call_arg_spec(out: FunctionArgument, arg: Expression, a: ArgV) -> bool {
    match a.arg_type {
        ArgTypeV::Enum(_) => arg matches Expression::Literal(l) && (l.literal_type matches LiteralValue::String(v) && out
            matches FunctionArgument::Enum(o) && o@ == v@),
        ArgTypeV::Value(_) => out == FunctionArgument::Value(arg),
    }
}

/// The implementation that a call of `func` with `args` against `s` uses,
/// relaxed for its unknown arguments.
pub open spec fn picked_impl(func: FunctionDefinition, args: Seq<Expression>, s: SchemaV) -> Option<ImplV> {
    let ts = arg_types_spec(args, s);
    let reg = args_registry(args, s);
    match first_match(impls_view(func.implementations@), ts, reg) {
        Some(k) => Some(relax_spec(impls_view(func.implementations@)[k], ts, reg)),
        None => None,
    }
}

fn contains_string(vals: &Vec<String>, value: &String) -> (r: bool)
    ensures
        r == strings_view(vals@).contains(value@),
{
    let mut i: usize = 0;
    while i < vals.len()
        invariant
            0 <= i <= vals@.len(),
            forall|j: int| 0 <= j < i ==> vals@[j]@ != value@,
        decreases vals.len() - i,
    {
        if vals[i] == *value {
            assert(strings_view(vals@)[i as int] == value@);
            return true;
        }
        i = i + 1;
    }
    assert forall|j: int| 0 <= j < strings_view(vals@).len() implies strings_view(vals@)[j] != value@ by {
        assert(strings_view(vals@)[j] == vals@[j]@);
    }
    false
}

/// The arguments that a call of `imp` passes for `args`.
fn convert_args(args: Vec<Expression>, imp: &FunctionImplementation) -> (r: Result<Vec<FunctionArgument>, SubstraitExprError>)
    requires
        args@.len() == imp.args@.len(),
    ensures
        r is Ok <==> call_args_ok(args@, imp@),
        r matches Ok(out) ==> out@.len() == args@.len() && forall|i: int|
            0 <= i < args@.len() ==> call_arg_spec(#[trigger] out@[i], args@[i], imp@.args[i]),
{
    let ghost orig = args@;
    let mut rest = args;
    let mut out: Vec<FunctionArgument> = Vec::new();
    let mut i: usize = 0;
    let n = rest.len();
    while i < n
        invariant
            orig == args@,
            n == orig.len(),
            orig.len() == imp.args@.len(),
            0 <= i <= n,
            rest@ == orig.subrange(i as int, n as int),
            out@.len() == i,
            forall|j: int| 0 <= j < i ==> call_arg_spec(#[trigger] out@[j], orig[j], imp@.args[j]),
            forall|j: int|
                0 <= j < i ==> match (#[trigger] imp@.args[j]).arg_type {
                    ArgTypeV::Enum(vals) => enum_value_ok(orig[j], vals),
                    ArgTypeV::Value(_) => true,
                },
        decreases n - i,
    {
        let arg = rest.remove(0);
        assert(arg == orig[i as int]);
        let ghost prev = out@;
        match &imp.args[i].arg_type {
            ImplementationArgType::Enum(vals) => {
                let ghost allowed = strings_view(vals@);
                assert(imp@.args[i as int] == imp.args@[i as int]@);
                assert(imp@.args[i as int].arg_type == ArgTypeV::Enum(allowed));
                let value = match &arg {
                    Expression::Literal(l) => match &l.literal_type {
                        LiteralValue::String(v) => v.clone(),
                        _ => {
                            assert(!enum_value_ok(orig[i as int], allowed));
                            assert(!call_args_ok(orig, imp@));
                            return Err(SubstraitExprError::invalid_input("An enum argument must be a string literal"));
                        },
                    },
                    _ => {
                        assert(!enum_value_ok(orig[i as int], allowed));
                        assert(!call_args_ok(orig, imp@));
                        return Err(SubstraitExprError::invalid_input("An enum argument must be a string literal"));
                    },
                };
                if !contains_string(vals, &value) {
                    assert(!enum_value_ok(orig[i as int], allowed));
                    assert(!call_args_ok(orig, imp@));
                    return Err(SubstraitExprError::invalid_input("The value is not one of the values the enum argument allows"));
                }
                out.push(FunctionArgument::Enum(value));
            },
            ImplementationArgType::Value(_) => {
                out.push(FunctionArgument::Value(arg));
            },
        }
        proof {
            assert forall|j: int| 0 <= j < i + 1 implies call_arg_spec(#[trigger] out@[j], orig[j], imp@.args[j]) by {
                if j < i {
                    assert(out@[j] == prev[j]);
                }
            }
            assert(rest@ =~= orig.subrange(i + 1, n as int));
        }
        i = i + 1;
    }
    assert(call_args_ok(orig, imp@));
    Ok(out)
}

impl<'a> FunctionBuilder<'a> {
    /// Adds an option with its preferred values; options are not checked.
    pub fn option(self, name: String, preference: Vec<String>) -> (r: Self)
        ensures
            r.func == self.func,
            r.func_reference == self.func_reference,
            r.args == self.args,
            r.options@ == self.options@.push(FunctionOption { name, preference }),
            *r.schema == *old(self.schema),
            *final(self.schema) == *final(r.schema),
    {
        let FunctionBuilder { func, func_reference, args, mut options, schema } = self;
        options.push(FunctionOption { name, preference });
        FunctionBuilder { func, func_reference, args, options, schema }
    }

    #[verifier::rlimit(60)]
    /// The call expression: the first implementation the arguments fit,
    /// relaxed for unknown arguments, gives the result type; enum arguments
    /// must be string literals among their allowed values.
    pub fn build(self) -> (r: Result<Expression, SubstraitExprError>)
        requires
            unknown_ready((*self.schema)@.registry),
        ensures
            (*final(self.schema))@.shape == (*old(self.schema))@.shape,
            r is Ok <==> (args_typed(self.args@, (*old(self.schema))@) && picked_impl(*self.func, self.args@, (*old(self.schema))@) is Some
                && call_args_ok(self.args@, picked_impl(*self.func, self.args@, (*old(self.schema))@)->Some_0)),
            r matches Ok(e) ==> {
                let imp = picked_impl(*self.func, self.args@, (*old(self.schema))@)->Some_0;
                &&& (*final(self.schema))@.registry == args_registry(self.args@, (*old(self.schema))@)
                &&& e matches Expression::ScalarFunction(f)
                &&& f.function_reference == self.func_reference
                &&& f.output_type@ == imp.output_type
                &&& f.options == self.options
                &&& f.arguments@.len() == self.args@.len()
                &&& forall|i: int| 0 <= i < self.args@.len() ==> call_arg_spec(#[trigger] f.arguments@[i], self.args@[i], imp.args[i])
            },
    {
        let ghost s0 = (*self.schema)@;
        let FunctionBuilder { func, func_reference, args, options, schema } = self;
        assert((*schema)@ == s0);
        let picked = func.pick_implementation_from_args(args.as_slice(), schema);
        let imp = match picked {
            Ok(Some(imp)) => imp,
            Ok(None) => {
                return Err(SubstraitExprError::invalid_input("Cannot find a matching call of the function that takes the given arguments"));
            },
            Err(e) => {
                return Err(e);
            },
        };
        proof {
            let ts = arg_types_spec(args@, s0);
            let reg = args_registry(args@, s0);
            let imps = impls_view(func.implementations@);
            assert(first_match(imps, ts, reg) is Some);
            let w = choose|w: int| 0 <= w < imps.len() && impl_matches_spec(#[trigger] imps[w], ts, reg);
            lemma_first_match_exists(imps, ts, reg, w);
            let k = first_match(imps, ts, reg)->Some_0;
            assert(impl_matches_spec(imps[k], ts, reg));
            assert(imp.args@.len() == imp@.args.len());
        }
        assert(picked_impl(*func, args@, s0) == Some(imp@));
        let arguments = convert_args(args, &imp)?;
        let output_type = imp.output_type;
        Ok(Expression::ScalarFunction(ScalarFunction { function_reference: func_reference, arguments, output_type, options }))
    }
}

} // verus!
