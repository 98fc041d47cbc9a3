//! The expression builder: a schema, a few switches, and the named
//! expressions added so far, assembled once into one message.
use vstd::prelude::*;
use crate::error::SubstraitExprError;
use crate::expr::{output_type_registry, output_type_spec, Expression, FieldReference, RootKind};
use crate::functions::{is_lookup_of, lookup_ready, lookup_registry, registers_unknown, FunctionsBuilder};
use crate::path::{parse_path, parse_path_spec, NamedRefElement};
use crate::reference::{full_as_names_seq, names_of_full, reference_for_path, refers, walk_ok};
use crate::registry::{extensions_described, ExtensionDeclaration, ExtensionUri};
use crate::schema::{
    flattened_names, full_nodes_view, name_nodes_view, strings_view, types_dfs_registry, types_dfs_spec, NameNodeV,
    NamedStruct, NamesOnlySchemaNode, SchemaInfo, SchemaShape, SchemaV,
};
use crate::types::{num_types_spec, types_view, unknown_ready};

verus! {

/// Switches that say how much a builder may leave unresolved.
#[derive(Debug, Clone, Copy, PartialEq, Eq, Structural)]
pub struct BuilderParams {
    /// A field named on a schema that does not know names becomes a
    /// placeholder to be looked up later.
    pub allow_late_name_lookup: bool,
    /// Expressions may have types that are not fully known.
    pub allow_loose_types: bool,
    /// Fields of a schema that does not know types may be referenced; their
    /// type is unknown.
    pub allow_unknown_types: bool,
}

impl BuilderParams {
    /// Everything strict.
    pub fn new_strict() -> (r: Self)
        ensures
            !r.allow_late_name_lookup && !r.allow_loose_types && !r.allow_unknown_types,
    {
        BuilderParams { allow_late_name_lookup: false, allow_loose_types: false, allow_unknown_types: false }
    }

    /// Everything allowed.
    pub fn new_loose() -> (r: Self)
        ensures
            r.allow_late_name_lookup && r.allow_loose_types && r.allow_unknown_types,
    {
        BuilderParams { allow_late_name_lookup: true, allow_loose_types: true, allow_unknown_types: true }
    }
}

impl Default for BuilderParams {
    fn default() -> (r: Self)
        ensures
            !r.allow_late_name_lookup && !r.allow_loose_types && !r.allow_unknown_types,
    {
        BuilderParams::new_strict()
    }
}

/// The name tree that references by name walk: the fields of a names-only
/// or full schema.
pub open spec fn schema_names(s: SchemaShape) -> Seq<NameNodeV> {
    match s {
        SchemaShape::Names(ns) => ns,
        SchemaShape::Full(root) => full_as_names_seq(root.children),
        _ => seq![],
    }
}

/// `e` is the reference that the path `name` gives against schema `s`.
pub open spec fn is_reference_by_name(e: Expression, name: Seq<char>, s: SchemaV) -> bool {
    &&& parse_path_spec(name) matches Some(els)
    &&& e matches Expression::Selection(fr)
    &&& fr.root == RootKind::Root
    &&& refers(fr.segment, schema_names(s.shape), els)
}

/// Resolving `name` against `s` succeeds: the schema knows names (and, if
/// it does not know types, unknown types are allowed), `name` is a path,
/// and each named step names a field.
pub open spec fn resolvable_by_name(name: Seq<char>, s: SchemaV, params: BuilderParams) -> bool {
    &&& (s.shape is Full || (s.shape is Names && params.allow_unknown_types))
    &&& parse_path_spec(name) matches Some(els)
    &&& walk_ok(schema_names(s.shape), els)
}

/// Creates field references against a schema.
pub struct RefBuilder<'a> {
    pub schema: &'a mut SchemaInfo,
    pub params: &'a BuilderParams,
}

fn clone_name_nodes(nodes: &Vec<NamesOnlySchemaNode>) -> (r: Vec<NamesOnlySchemaNode>)
    ensures
        name_nodes_view(r@) == name_nodes_view(nodes@),
    decreases nodes,
{
    let mut r: Vec<NamesOnlySchemaNode> = Vec::new();
    let mut i: usize = 0;
    while i < nodes.len()
        invariant
            0 <= i <= nodes@.len(),
            r@.len() == i,
            forall|j: int| 0 <= j < i ==> (#[trigger] r@[j])@ == nodes@[j]@,
        decreases nodes.len() - i,
    {
        let children = clone_name_nodes(&nodes[i].children);
        r.push(NamesOnlySchemaNode { name: nodes[i].name.clone(), children });
        i = i + 1;
    }
    assert(name_nodes_view(r@) =~= name_nodes_view(nodes@));
    r
}

/// The name tree of a schema that knows names.
fn name_tree(schema: &SchemaInfo) -> (r: Vec<NamesOnlySchemaNode>)
    ensures
        name_nodes_view(r@) == schema_names(schema@.shape),
{
    match schema {
        SchemaInfo::Names(s) => clone_name_nodes(&s.root.children),
        SchemaInfo::Full(s) => {
            assert(s.root@.children == full_nodes_view(s.root.children@));
            names_of_full(&s.root.children)
        },
        _ => {
            let r: Vec<NamesOnlySchemaNode> = Vec::new();
            assert(name_nodes_view(r@) =~= seq![]);
            r
        },
    }
}

/// The reference for the path `name` in `schema`, which knows names.
fn reference_by_name(schema: &SchemaInfo, name: &str) -> (r: Result<Expression, SubstraitExprError>)
    ensures
        r is Ok <==> (parse_path_spec(name@) matches Some(els) && walk_ok(schema_names(schema@.shape), els)),
        r matches Ok(e) ==> is_reference_by_name(e, name@, schema@),
        r matches Err(e) ==> e.is_invalid_input(),
{
    let elements = parse_path(name)?;
    proof {
        crate::path::lemma_parse_nonempty(name@);
    }
    let tree = name_tree(schema);
    let segment = reference_for_path(&tree, elements)?;
    Ok(Expression::Selection(FieldReference { root: RootKind::Root, segment }))
}

impl<'a> RefBuilder<'a> {
    pub fn new(schema: &'a mut SchemaInfo, params: &'a BuilderParams) -> (r: Self)
        ensures
            *r.schema == *old(schema),
            r.params == params,
            *final(schema) == *final(r.schema),
    {
        RefBuilder { schema, params }
    }

    /// A reference to the field at path `name` (such as `a.b[3][key]`).
    ///
    /// A schema that knows names walks the path; one that does not know
    /// types needs `allow_unknown_types`. A schema that does not know names
    /// gives a placeholder to be looked up later when `allow_late_name_lookup`
    /// is set, and an error otherwise.
    pub fn resolve_by_name(self, name: &str) -> (r: Result<Expression, SubstraitExprError>)
        requires
            lookup_ready((*self.schema)@.registry),
        ensures
            ((*old(self.schema))@.shape is Empty || (*old(self.schema))@.shape is Types) ==> {
                &&& r is Ok <==> self.params.allow_late_name_lookup
                &&& r matches Ok(e) ==> is_lookup_of(e, name@, (*old(self.schema))@.registry)
                &&& (*final(self.schema))@ == (SchemaV {
                    registry: if r is Ok {
                        lookup_registry((*old(self.schema))@.registry)
                    } else {
                        (*old(self.schema))@.registry
                    },
                    ..(*old(self.schema))@
                })
            },
            ((*old(self.schema))@.shape is Names || (*old(self.schema))@.shape is Full) ==> {
                &&& r is Ok <==> resolvable_by_name(name@, (*old(self.schema))@, *self.params)
                &&& r matches Ok(e) ==> is_reference_by_name(e, name@, (*old(self.schema))@)
                &&& (*final(self.schema))@ == (*old(self.schema))@
            },
            r matches Err(e) ==> e.is_invalid_input(),
    {
        let RefBuilder { schema, params } = self;
        match schema {
            SchemaInfo::Empty(_) | SchemaInfo::Types(_) => {
                if params.allow_late_name_lookup {
                    Ok(FunctionsBuilder::new(schema).lookup_field_by_name(name))
                } else {
                    Err(SubstraitExprError::invalid_input("Cannot look up a field by name because the input schema does not know the names"))
                }
            },
            SchemaInfo::Names(_) => {
                if !params.allow_unknown_types {
                    Err(SubstraitExprError::invalid_input("Cannot reference fields when unknown types are disallowed and the schema is not type-aware"))
                } else {
                    reference_by_name(schema, name)
                }
            },
            SchemaInfo::Full(_) => reference_by_name(schema, name),
        }
    }

    /// A builder for a reference made step by step; it fails at once where
    /// `resolve_by_name` would fail whatever the path.
    pub fn field_builder(self) -> (r: Result<FieldReferenceBuilder, SubstraitExprError>)
        ensures
            r is Ok <==> ((*old(self.schema))@.shape is Full || ((*old(self.schema))@.shape is Names
                && self.params.allow_unknown_types)),
            r matches Ok(b) ==> name_nodes_view(b.tree@) == schema_names((*old(self.schema))@.shape) && b.elements@.len()
                == 0,
            (*final(self.schema))@ == (*old(self.schema))@,
            r matches Err(e) ==> e.is_invalid_input(),
    {
        let RefBuilder { schema, params } = self;
        match schema {
            SchemaInfo::Full(_) => Ok(FieldReferenceBuilder { tree: name_tree(schema), elements: Vec::new() }),
            SchemaInfo::Names(_) => {
                if params.allow_unknown_types {
                    Ok(FieldReferenceBuilder { tree: name_tree(schema), elements: Vec::new() })
                } else {
                    Err(SubstraitExprError::invalid_input("Cannot create field references when unknown types are disallowed and the schema is not type-aware"))
                }
            },
            _ => Err(SubstraitExprError::invalid_input("Unsupported: field references by steps need a schema that knows names")),
        }
    }
}

/// Builds a field reference step by step: fields by name, list elements by
/// position, map entries by key.
#[derive(Debug)]
pub struct FieldReferenceBuilder {
    pub tree: Vec<NamesOnlySchemaNode>,
    pub elements: Vec<NamedRefElement>,
}

impl FieldReferenceBuilder {
    /// Steps into the field `name`.
    pub fn field(self, name: &str) -> (r: Self)
        ensures
            r.tree == self.tree,
            r.elements@.len() == self.elements@.len() + 1,
            r.elements@.drop_last() == self.elements@,
            r.elements@.last() matches NamedRefElement::Name(n) && n@ == name@,
    {
        let FieldReferenceBuilder { tree, mut elements } = self;
        elements.push(NamedRefElement::Name(name.to_owned()));
        assert(elements@.drop_last() =~= self.elements@);
        FieldReferenceBuilder { tree, elements }
    }

    /// Steps into element `index` of a list.
    pub fn list_item(self, index: u32) -> (r: Self)
        ensures
            r.tree == self.tree,
            r.elements@ == self.elements@.push(NamedRefElement::ListIndex(index)),
    {
        let FieldReferenceBuilder { tree, mut elements } = self;
        elements.push(NamedRefElement::ListIndex(index));
        FieldReferenceBuilder { tree, elements }
    }

    /// Steps into the entry of a map with key `key`.
    pub fn map_item(self, key: String) -> (r: Self)
        ensures
            r.tree == self.tree,
            r.elements@ == self.elements@.push(NamedRefElement::MapLookup(key)),
    {
        let FieldReferenceBuilder { tree, mut elements } = self;
        elements.push(NamedRefElement::MapLookup(key));
        FieldReferenceBuilder { tree, elements }
    }

    /// The reference; fails when no step was given or a named step names no
    /// field.
    pub fn build(self) -> (r: Result<Expression, SubstraitExprError>)
        ensures
            r is Ok <==> self.elements@.len() >= 1 && walk_ok(
                name_nodes_view(self.tree@),
                crate::path::elements_view(self.elements@),
            ),
            r matches Ok(e) ==> e matches Expression::Selection(fr) && fr.root == RootKind::Root && refers(
                fr.segment,
                name_nodes_view(self.tree@),
                crate::path::elements_view(self.elements@),
            ),
            r matches Err(e) ==> e.is_invalid_input(),
    {
        if self.elements.len() == 0 {
            return Err(SubstraitExprError::invalid_input("Attempt to create an empty field reference"));
        }
        let segment = reference_for_path(&self.tree, self.elements)?;
        Ok(Expression::Selection(FieldReference { root: RootKind::Root, segment }))
    }
}

/// Output names for an expression: one name, or a list of them.
pub trait IntoExprOutputNames: Sized {
    /// The names that `self` stands for.
    spec fn names_spec(&self) -> Seq<Seq<char>>;

    fn into_names(self) -> (r: Vec<String>)
        ensures
            strings_view(r@) == self.names_spec(),
    ;
}

impl<'a> IntoExprOutputNames for &'a str {
    open spec fn names_spec(&self) -> Seq<Seq<char>> {
        seq![self@]
    }

    fn into_names(self) -> (r: Vec<String>) {
        let mut r: Vec<String> = Vec::new();
        r.push(self.to_owned());
        assert(strings_view(r@) =~= seq![self@]);
        r
    }
}

impl IntoExprOutputNames for String {
    open spec fn names_spec(&self) -> Seq<Seq<char>> {
        seq![self@]
    }

    fn into_names(self) -> (r: Vec<String>) {
        let ghost v = self@;
        let mut r: Vec<String> = Vec::new();
        r.push(self);
        assert(strings_view(r@) =~= seq![v]);
        r
    }
}

impl IntoExprOutputNames for Vec<String> {
    open spec fn names_spec(&self) -> Seq<Seq<char>> {
        strings_view(self@)
    }

    fn into_names(self) -> (r: Vec<String>) {
        self
    }
}

/// An expression with the names of what it outputs: one name per type in
/// its output type.
#[derive(Debug)]
pub struct NamedExpression {
    pub expr: Expression,
    pub output_names: Vec<String>,
}

impl NamedExpression {
    /// `expr` with its output names, when its type is known against `schema`
    /// and has exactly as many types as there are names; the schema is left
    /// as it was when it fails.
    pub fn try_new(expr: Expression, output_names: Vec<String>, schema: &mut SchemaInfo) -> (r: Result<
        Self,
        SubstraitExprError,
    >)
        requires
            unknown_ready(old(schema)@.registry),
        ensures
            r is Ok <==> add_ok(expr, strings_view(output_names@), old(schema)@),
            r matches Ok(ne) ==> ne.expr == expr && ne.output_names == output_names && final(schema)@ == (SchemaV {
                registry: output_type_registry(expr, old(schema)@),
                ..old(schema)@
            }),
            r is Err ==> final(schema)@ == old(schema)@,
            r matches Err(e) ==> e.is_invalid_input() || e.is_invalid_substrait(),
    {
        let ghost s0 = (*schema)@;
        let is_root_ref = match &expr {
            Expression::Selection(fr) => fr.root == RootKind::Root,
            _ => false,
        };
        let registers = is_root_ref && !(match &*schema {
            SchemaInfo::Types(_) | SchemaInfo::Full(_) => true,
            _ => false,
        });
        assert(registers == registers_unknown(expr, s0.shape));
        if registers && output_names.len() != 1 {
            schema.extensions_registry().note_well_formed();
            let ghost t = output_type_spec(expr, s0);
            proof {
                crate::schema::lemma_unknown_stable(s0.registry);
                assert(num_types_spec(t->Some_0) == 1);
            }
            return Err(SubstraitExprError::invalid_input("An expression of one type needs exactly one name"));
        }
        let expr_type = match expr.output_type(schema) {
            Ok(t) => t,
            Err(e) => {
                return Err(e);
            },
        };
        let count = expr_type.count_types();
        let n = output_names.len();
        let matches = match count {
            Some(c) => c == n as u64,
            None => false,
        };
        if !matches {
            proof {
                assert(strings_view(output_names@).len() == output_names@.len());
                assert(output_type_spec(expr, s0) == Some(expr_type@));
                assert(num_types_spec(expr_type@) != output_names@.len());
                assert(!add_ok(expr, strings_view(output_names@), s0));
                if registers {
                    assert(num_types_spec(expr_type@) == 1);
                }
            }
            return Err(SubstraitExprError::invalid_input("The number of names does not match the number of types the expression returns"));
        }
        Ok(NamedExpression { expr, output_names })
    }
}

/// An expression with its output names, ready to be sent.
#[derive(Debug)]
pub struct ExpressionReference {
    pub output_names: Vec<String>,
    pub expr: Expression,
}

/// The version of the wire format a message follows, and the program that
/// produced it.
#[derive(Debug)]
pub struct VersionStamp {
    pub major_number: u32,
    pub minor_number: u32,
    pub patch_number: u32,
    pub git_hash: String,
    pub producer: String,
}

/// The name this library records as the producer of its messages.
pub const PRODUCER: &'static str = "substrait-expr";

/// Relies on `substrait::version::version_with_producer`: the version of the
/// wire format that the `substrait` crate was built against, with `producer`
/// recorded as the producer.
#[verifier::external_body]
fn version_with_producer(producer: &str) -> (r: VersionStamp)
    ensures
        r.producer@ == producer@,
{
    let v = substrait::version::version_with_producer(producer);
    VersionStamp {
        major_number: v.major_number,
        minor_number: v.minor_number,
        patch_number: v.patch_number,
        git_hash: v.git_hash,
        producer: v.producer,
    }
}

/// The message a builder assembles: a version stamp, extension uris and
/// declarations, the schema flattened, and the named expressions in the
/// order they were added.
#[derive(Debug)]
pub struct ExtendedExpression {
    pub version: VersionStamp,
    pub extension_uris: Vec<ExtensionUri>,
    pub extensions: Vec<ExtensionDeclaration>,
    pub base_schema: NamedStruct,
    pub referred_expr: Vec<ExpressionReference>,
}

/// Collects named expressions against one schema and assembles them into
/// one message.
#[derive(Debug)]
pub struct ExpressionsBuilder {
    pub schema: SchemaInfo,
    pub params: BuilderParams,
    pub expressions: Vec<NamedExpression>,
}

/// Adding `expr` with `names` to a builder on schema `s` succeeds: its type
/// is known and has as many types as there are names.
pub open spec fn add_ok(expr: Expression, names: Seq<Seq<char>>, s: SchemaV) -> bool {
    output_type_spec(expr, s) matches Some(t) && num_types_spec(t) == names.len()
}

impl ExpressionsBuilder {
    pub fn new(schema: SchemaInfo, params: BuilderParams) -> (r: Self)
        ensures
            r.schema == schema,
            r.params == params,
            r.expressions@.len() == 0,
    {
        ExpressionsBuilder { schema, params, expressions: Vec::new() }
    }

    /// A builder of field references against this builder's schema.
    pub fn fields(&mut self) -> (r: RefBuilder<'_>)
        ensures
            *r.schema == old(self).schema,
            *r.params == old(self).params,
            final(self).schema == *final(r.schema),
            final(self).params == old(self).params,
            final(self).expressions == old(self).expressions,
    {
        RefBuilder { schema: &mut self.schema, params: &self.params }
    }

    /// A builder of function calls against this builder's schema.
    pub fn functions(&mut self) -> (r: FunctionsBuilder<'_>)
        ensures
            *r.schema == old(self).schema,
            final(self).schema == *final(r.schema),
            final(self).params == old(self).params,
            final(self).expressions == old(self).expressions,
    {
        FunctionsBuilder { schema: &mut self.schema }
    }

    /// Adds `expression` with its output names. It is rejected, leaving the
    /// builder as it was, unless its type is known and has exactly as many
    /// types as there are names.
    pub fn add_expression<N: IntoExprOutputNames>(&mut self, output_names: N, expression: Expression) -> (r: Result<
        (),
        SubstraitExprError,
    >)
        requires
            unknown_ready(old(self).schema@.registry),
        ensures
            r is Ok <==> add_ok(expression, output_names.names_spec(), old(self).schema@),
            r is Ok ==> {
                &&& final(self).expressions@.len() == old(self).expressions@.len() + 1
                &&& final(self).expressions@.drop_last() == old(self).expressions@
                &&& final(self).expressions@.last().expr == expression
                &&& strings_view(final(self).expressions@.last().output_names@) == output_names.names_spec()
                &&& final(self).schema@ == (SchemaV {
                    registry: output_type_registry(expression, old(self).schema@),
                    ..old(self).schema@
                })
            },
            r is Err ==> final(self).expressions == old(self).expressions && final(self).schema@ == old(self).schema@,
            final(self).params == old(self).params,
            r matches Err(e) ==> e.is_invalid_input() || e.is_invalid_substrait(),
    {
        let names = output_names.into_names();
        let named = NamedExpression::try_new(expression, names, &mut self.schema)?;
        self.expressions.push(named);
        Ok(())
    }

    /// Assembles the message, consuming the builder: the schema flattened,
    /// then the extensions its registry holds by then, and every named
    /// expression in the order it was added.
    pub fn build(self) -> (r: ExtendedExpression)
        requires
            unknown_ready(self.schema@.registry),
        ensures
            types_view(r.base_schema.types@) == types_dfs_spec(self.schema@, false),
            strings_view(r.base_schema.names@) == flattened_names(self.schema@),
            extensions_described(types_dfs_registry(self.schema@), r.extension_uris@, r.extensions@),
            r.version.producer@ == PRODUCER@,
            r.referred_expr@.len() == self.expressions@.len(),
            forall|i: int|
                0 <= i < r.referred_expr@.len() ==> (#[trigger] r.referred_expr@[i]).expr == self.expressions@[i].expr
                    && r.referred_expr@[i].output_names == self.expressions@[i].output_names,
    {
        let ExpressionsBuilder { mut schema, params, expressions } = self;
        let base_schema = schema.flatten();
        let (extension_uris, extensions) = schema.extensions_registry().to_substrait();
        let ghost orig = expressions@;
        let n = expressions.len();
        let mut rest = expressions;
        let mut referred_expr: Vec<ExpressionReference> = Vec::new();
        let mut i: usize = 0;
        while i < n
            invariant
                n == orig.len(),
                0 <= i <= n,
                rest@ == orig.subrange(i as int, n as int),
                referred_expr@.len() == i,
                forall|j: int|
                    0 <= j < i ==> (#[trigger] referred_expr@[j]).expr == orig[j].expr && referred_expr@[j].output_names
                        == orig[j].output_names,
            decreases n - i,
        {
            let named = rest.remove(0);
            assert(named == orig[i as int]);
            let NamedExpression { expr, output_names } = named;
            referred_expr.push(ExpressionReference { output_names, expr });
            assert(rest@ =~= orig.subrange(i + 1, n as int));
            i = i + 1;
        }
        let version = version_with_producer(PRODUCER);
        ExtendedExpression { version, extension_uris, extensions, base_schema, referred_expr }
    }
}

} // verus!
