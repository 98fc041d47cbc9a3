//! Schemas: what is known about the input of an expression, from nothing
//! to the names and types of every field.
use vstd::prelude::*;
use crate::error::SubstraitExprError;
use crate::expr::ReferenceSegment;
use crate::registry::{ExtensionsRegistry, Namespace, RegistryModel};
use crate::types::{
    append_nat, children_spec, nat_text, nullability, types_view, unknown, unknown_ready, unknown_type_spec,
    Kind, Nullability, Type, TypeV, NO_VARIATION, UNKNOWN_TYPE_NAME, UNKNOWN_TYPE_URI,
};

verus! {

broadcast use vstd::std_specs::vec::group_vec_axioms;

/// All of `parts`, one after the other.
pub open spec fn concat<A>(parts: Seq<Seq<A>>) -> Seq<A>
    decreases parts.len(),
{
    if parts.len() == 0 {
        seq![]
    } else {
        concat(parts.drop_last()) + parts.last()
    }
}

proof fn lemma_concat_step<A>(parts: Seq<Seq<A>>, i: int)
    requires
        0 <= i < parts.len(),
    ensures
        concat(parts.take(i + 1)) == concat(parts.take(i)) + parts[i],
{
    assert(parts.take(i + 1).drop_last() =~= parts.take(i));
}

proof fn lemma_concat_all<A>(parts: Seq<Seq<A>>)
    ensures
        concat(parts.take(parts.len() as int)) == concat(parts),
{
    assert(parts.take(parts.len() as int) =~= parts);
}

/// A field of a names-only schema, as the contracts see it.
pub struct NameNodeV {
    pub name: Seq<char>,
    pub children: Seq<NameNodeV>,
}

/// A field of a full schema, as the contracts see it.
pub struct FullNodeV {
    pub name: Seq<char>,
    pub data_type: TypeV,
    pub children: Seq<FullNodeV>,
}

/// A field in a names-only schema.
#[derive(Debug, PartialEq)]
pub struct NamesOnlySchemaNode {
    /// The name of the field; empty for the root.
    pub name: String,
    /// The fields nested in this one.
    pub children: Vec<NamesOnlySchemaNode>,
}

/// A field in a schema that knows both names and types.
#[derive(Debug, PartialEq)]
pub struct FullSchemaNode {
    /// The name of the field; empty for the root.
    pub name: String,
    /// The type of the field.
    pub data_type: Type,
    /// The fields nested in this one.
    pub children: Vec<FullSchemaNode>,
}

pub open spec fn name_nodes_view(ns: Seq<NamesOnlySchemaNode>) -> Seq<NameNodeV>
    decreases ns,
{
    Seq::new(ns.len(), |i: int| if 0 <= i < ns.len() { ns[i].view() } else { arbitrary() })
}

pub open spec fn full_nodes_view(ns: Seq<FullSchemaNode>) -> Seq<FullNodeV>
    decreases ns,
{
    Seq::new(ns.len(), |i: int| if 0 <= i < ns.len() { ns[i].view() } else { arbitrary() })
}

impl NamesOnlySchemaNode {
    pub open spec fn view(&self) -> NameNodeV
        decreases self,
    {
        NameNodeV { name: self.name@, children: name_nodes_view(self.children@) }
    }
}

impl FullSchemaNode {
    pub open spec fn view(&self) -> FullNodeV
        decreases self,
    {
        FullNodeV { name: self.name@, data_type: self.data_type@, children: full_nodes_view(self.children@) }
    }
}

/// A schema that knows nothing of its fields, not even how many there are.
#[derive(Debug)]
pub struct EmptySchema {
    /// The extensions that the schema's types use.
    pub registry: ExtensionsRegistry,
}

/// A schema that knows the names of its (possibly nested) fields but not
/// their types.
#[derive(Debug)]
pub struct NamesOnlySchema {
    /// The extensions that the schema's types use.
    pub registry: ExtensionsRegistry,
    /// The root node; its children are the top-level fields.
    pub root: NamesOnlySchemaNode,
}

/// A schema that knows the types of its fields but not their names.
#[derive(Debug)]
pub struct TypesOnlySchema {
    /// The extensions that the schema's types use.
    pub registry: ExtensionsRegistry,
    /// The types of the top-level fields.
    pub root: Vec<Type>,
}

/// A schema that knows both the names and the types of its fields.
#[derive(Debug)]
pub struct FullSchema {
    /// The extensions that the schema's types use.
    pub registry: ExtensionsRegistry,
    /// The root node; its children are the top-level fields.
    pub root: FullSchemaNode,
}

/// What a schema knows about the input of an expression.
#[derive(Debug)]
pub enum SchemaInfo {
    Empty(EmptySchema),
    Names(NamesOnlySchema),
    Types(TypesOnlySchema),
    Full(FullSchema),
}

/// The fields of a schema, as the contracts see them.
pub enum SchemaShape {
    Empty,
    /// The top-level fields.
    Names(Seq<NameNodeV>),
    /// The types of the top-level fields.
    Types(Seq<TypeV>),
    /// The root node.
    Full(FullNodeV),
}

/// A schema, as the contracts see it: its fields and its registry.
pub struct SchemaV {
    pub shape: SchemaShape,
    pub registry: RegistryModel,
}

impl EmptySchema {
    pub open spec fn reg(&self) -> RegistryModel {
        self.registry@
    }

    pub fn new() -> (r: Self)
        ensures
            r.reg() == RegistryModel::empty(),
    {
        EmptySchema { registry: ExtensionsRegistry::new() }
    }
}

impl Default for EmptySchema {
    fn default() -> (r: Self)
        ensures
            r.reg() == RegistryModel::empty(),
    {
        EmptySchema::new()
    }
}

impl NamesOnlySchema {
    pub open spec fn reg(&self) -> RegistryModel {
        self.registry@
    }

    /// A names-only schema with the given top-level fields.
    pub fn new(root_nodes: Vec<NamesOnlySchemaNode>) -> (r: Self)
        ensures
            r.root.children@ == root_nodes@,
            r.reg() == RegistryModel::empty(),
    {
        NamesOnlySchema::new_with_registry(root_nodes, ExtensionsRegistry::new())
    }

    /// A names-only schema with the given top-level fields and registry.
    pub fn new_with_registry(root_nodes: Vec<NamesOnlySchemaNode>, registry: ExtensionsRegistry) -> (r: Self)
        ensures
            r.root.children@ == root_nodes@,
            r.reg() == registry@,
    {
        NamesOnlySchema { root: NamesOnlySchemaNode { name: String::new(), children: root_nodes }, registry }
    }
}

impl TypesOnlySchema {
    pub open spec fn reg(&self) -> RegistryModel {
        self.registry@
    }

    /// A types-only schema with the given top-level field types.
    pub fn new(root: Vec<Type>) -> (r: Self)
        ensures
            r.root@ == root@,
            r.reg() == RegistryModel::empty(),
    {
        TypesOnlySchema { root, registry: ExtensionsRegistry::new() }
    }

    /// A types-only schema with the given field types and registry.
    pub fn new_with_registry(root: Vec<Type>, registry: ExtensionsRegistry) -> (r: Self)
        ensures
            r.root@ == root@,
            r.reg() == registry@,
    {
        TypesOnlySchema { root, registry }
    }
}

impl FullSchema {
    pub open spec fn reg(&self) -> RegistryModel {
        self.registry@
    }

    /// A full schema with the given root node.
    pub fn new(root: FullSchemaNode) -> (r: Self)
        ensures
            r.root == root,
            r.reg() == RegistryModel::empty(),
    {
        FullSchema { root, registry: ExtensionsRegistry::new() }
    }

    /// A full schema with the given root node and registry.
    pub fn new_with_registry(root: FullSchemaNode, registry: ExtensionsRegistry) -> (r: Self)
        ensures
            r.root == root,
            r.reg() == registry@,
    {
        FullSchema { root, registry }
    }
}

pub open spec fn names_aware_spec(s: SchemaShape) -> bool {
    s is Names || s is Full
}

pub open spec fn types_aware_spec(s: SchemaShape) -> bool {
    s is Types || s is Full
}

pub open spec fn len_aware_spec(s: SchemaShape) -> bool {
    !(s is Empty)
}

/// The names of `n` and of the fields nested in it, in pre-order.
pub open spec fn name_node_pre(n: NameNodeV) -> Seq<Seq<char>>
    decreases n,
{
    seq![n.name] + concat(name_node_parts(n.children))
}

pub open spec fn name_node_parts(ns: Seq<NameNodeV>) -> Seq<Seq<Seq<char>>>
    decreases ns,
{
    Seq::new(ns.len(), |i: int| if 0 <= i < ns.len() { name_node_pre(ns[i]) } else { seq![] })
}

/// The names of the fields `ns` and of those nested in them, in pre-order.
pub open spec fn names_pre(ns: Seq<NameNodeV>) -> Seq<Seq<char>> {
    concat(name_node_parts(ns))
}

/// The names of `n` and of the fields nested in it, in pre-order.
pub open spec fn full_node_names(n: FullNodeV) -> Seq<Seq<char>>
    decreases n,
{
    seq![n.name] + concat(full_node_name_parts(n.children))
}

pub open spec fn full_node_name_parts(ns: Seq<FullNodeV>) -> Seq<Seq<Seq<char>>>
    decreases ns,
{
    Seq::new(ns.len(), |i: int| if 0 <= i < ns.len() { full_node_names(ns[i]) } else { seq![] })
}

/// The names of a schema's fields in pre-order, if it knows them.
pub open spec fn names_dfs_spec(s: SchemaShape) -> Option<Seq<Seq<char>>> {
    match s {
        SchemaShape::Names(ns) => Some(names_pre(ns)),
        SchemaShape::Full(root) => Some(concat(full_node_name_parts(root.children))),
        _ => None,
    }
}

/// `t` and the types nested in it, in pre-order; struct types are left out
/// unless `inner` is set or they have no members.
pub open spec fn type_node_pre(t: TypeV, inner: bool) -> Seq<TypeV>
    decreases t,
{
    match t.kind {
        crate::types::KindV::Struct(ts) => (if inner || ts.len() == 0 {
            seq![t]
        } else {
            seq![]
        }) + concat(type_node_parts(ts, inner)),
        _ => seq![t],
    }
}

pub open spec fn type_node_parts(ts: Seq<TypeV>, inner: bool) -> Seq<Seq<TypeV>>
    decreases ts,
{
    Seq::new(ts.len(), |i: int| if 0 <= i < ts.len() { type_node_pre(ts[i], inner) } else { seq![] })
}

/// The types of the fields `ts` and of those nested in them, in pre-order.
pub open spec fn types_pre(ts: Seq<TypeV>, inner: bool) -> Seq<TypeV> {
    concat(type_node_parts(ts, inner))
}

/// The type of `n` and the types of the fields nested in it, in pre-order;
/// fields with nested fields are left out unless `inner` is set.
pub open spec fn full_node_types(n: FullNodeV, inner: bool) -> Seq<TypeV>
    decreases n,
{
    (if inner || n.children.len() == 0 {
        seq![n.data_type]
    } else {
        seq![]
    }) + concat(full_node_type_parts(n.children, inner))
}

pub open spec fn full_node_type_parts(ns: Seq<FullNodeV>, inner: bool) -> Seq<Seq<TypeV>>
    decreases ns,
{
    Seq::new(ns.len(), |i: int| if 0 <= i < ns.len() { full_node_types(ns[i], inner) } else { seq![] })
}

/// The type that a names-only field stands for: unknown for a leaf, a
/// nullable struct for a field with nested fields.
pub open spec fn name_node_type(n: NameNodeV, unknown_type: TypeV) -> TypeV
    decreases n,
{
    if n.children.len() == 0 {
        unknown_type
    } else {
        TypeV {
            kind: crate::types::KindV::Struct(name_node_types(n.children, unknown_type)),
            nullability: Nullability::Nullable,
            variation: NO_VARIATION,
        }
    }
}

pub open spec fn name_node_types(ns: Seq<NameNodeV>, unknown_type: TypeV) -> Seq<TypeV>
    decreases ns,
{
    Seq::new(ns.len(), |i: int| if 0 <= i < ns.len() { name_node_type(ns[i], unknown_type) } else { arbitrary() })
}

/// The registry after the unknown type has been registered in it.
pub open spec fn with_unknown(reg: RegistryModel) -> RegistryModel {
    reg.register_type(UNKNOWN_TYPE_URI@, UNKNOWN_TYPE_NAME@).0
}

/// The unknown type of a registry, once registered there.
pub open spec fn unknown_of(reg: RegistryModel) -> TypeV {
    unknown_type_spec(reg.register_type(UNKNOWN_TYPE_URI@, UNKNOWN_TYPE_NAME@).1)
}

/// The types of a schema's fields in pre-order: nothing for an empty schema,
/// and unknown leaves under struct nodes shaped like the name tree for a
/// names-only schema.
pub open spec fn types_dfs_spec(s: SchemaV, inner: bool) -> Seq<TypeV> {
    match s.shape {
        SchemaShape::Empty => seq![],
        SchemaShape::Names(ns) => types_pre(name_node_types(ns, unknown_of(s.registry)), inner),
        SchemaShape::Types(ts) => types_pre(ts, inner),
        SchemaShape::Full(root) => concat(full_node_type_parts(root.children, inner)),
    }
}

/// The registry after `types_dfs`: only a names-only schema registers the
/// unknown type.
pub open spec fn types_dfs_registry(s: SchemaV) -> RegistryModel {
    match s.shape {
        SchemaShape::Names(_) => with_unknown(s.registry),
        _ => s.registry,
    }
}

/// The type that `seg` reaches among the fields of types `ts`. List and map
/// steps are not supported.
pub open spec fn resolve_in_types(ts: Seq<TypeV>, seg: ReferenceSegment) -> Option<TypeV>
    decreases seg,
{
    match seg {
        ReferenceSegment::StructField { field, child } => if 0 <= field < ts.len() {
            match child {
                None => Some(ts[field as int]),
                Some(c) => if children_spec(ts[field as int]).len() == 0 {
                    None
                } else {
                    resolve_in_types(children_spec(ts[field as int]), *c)
                },
            }
        } else {
            None
        },
        _ => None,
    }
}

/// The type of the field that `seg` reaches among the fields `ns`. List
/// and map steps are not supported.
pub open spec fn resolve_in_nodes(ns: Seq<FullNodeV>, seg: ReferenceSegment) -> Option<TypeV>
    decreases seg,
{
    match seg {
        ReferenceSegment::StructField { field, child } => if 0 <= field < ns.len() {
            match child {
                None => Some(ns[field as int].data_type),
                Some(c) => if ns[field as int].children.len() == 0 {
                    None
                } else {
                    resolve_in_nodes(ns[field as int].children, *c)
                },
            }
        } else {
            None
        },
        _ => None,
    }
}

/// The type that `seg` refers to in schema `s`: the unknown type when the
/// schema does not know types.
pub open spec fn resolve_spec(s: SchemaV, seg: ReferenceSegment) -> Option<TypeV> {
    match s.shape {
        SchemaShape::Empty => Some(unknown_of(s.registry)),
        SchemaShape::Names(_) => Some(unknown_of(s.registry)),
        SchemaShape::Types(ts) => resolve_in_types(ts, seg),
        SchemaShape::Full(root) => resolve_in_nodes(root.children, seg),
    }
}

/// The registry after resolving a reference: schemas that do not know types
/// register the unknown type.
pub open spec fn resolve_registry(s: SchemaV) -> RegistryModel {
    match s.shape {
        SchemaShape::Empty => with_unknown(s.registry),
        SchemaShape::Names(_) => with_unknown(s.registry),
        _ => s.registry,
    }
}

pub open spec fn strings_view(v: Seq<String>) -> Seq<Seq<char>> {
    v.map_values(|s: String| s@)
}

/// Appends the names of `nodes` and of the fields nested in them, in
/// pre-order.
fn collect_names(nodes: &Vec<NamesOnlySchemaNode>, out: &mut Vec<String>)
    ensures
        strings_view(final(out)@) == strings_view(old(out)@) + names_pre(name_nodes_view(nodes@)),
    decreases nodes,
{
    let ghost start = strings_view(out@);
    let ghost parts = name_node_parts(name_nodes_view(nodes@));
    let mut i: usize = 0;
    assert(parts.take(0) =~= seq![]);
    assert(start + concat(parts.take(0)) =~= start);
    while i < nodes.len()
        invariant
            0 <= i <= nodes@.len(),
            parts == name_node_parts(name_nodes_view(nodes@)),
            strings_view(out@) == start + concat(parts.take(i as int)),
        decreases nodes.len() - i,
    {
        let ghost before = strings_view(out@);
        out.push(nodes[i].name.clone());
        let ghost mid = strings_view(out@);
        assert(mid =~= before + seq![nodes@[i as int].name@]);
        collect_names(&nodes[i].children, out);
        proof {
            let n = nodes@[i as int]@;
            assert(n.children == name_nodes_view(nodes@[i as int].children@));
            assert(name_node_pre(n) == seq![n.name] + concat(name_node_parts(n.children)));
            lemma_concat_step(parts, i as int);
            assert(parts[i as int] == name_node_pre(nodes@[i as int]@));
            assert(strings_view(out@) =~= start + concat(parts.take(i + 1)));
        }
        i = i + 1;
    }
    proof {
        lemma_concat_all(parts);
    }
}

/// Appends the names of `nodes` and of the fields nested in them, in
/// pre-order.
fn collect_full_names(nodes: &Vec<FullSchemaNode>, out: &mut Vec<String>)
    ensures
        strings_view(final(out)@) == strings_view(old(out)@) + concat(full_node_name_parts(full_nodes_view(nodes@))),
    decreases nodes,
{
    let ghost start = strings_view(out@);
    let ghost parts = full_node_name_parts(full_nodes_view(nodes@));
    let mut i: usize = 0;
    assert(parts.take(0) =~= seq![]);
    assert(start + concat(parts.take(0)) =~= start);
    while i < nodes.len()
        invariant
            0 <= i <= nodes@.len(),
            parts == full_node_name_parts(full_nodes_view(nodes@)),
            strings_view(out@) == start + concat(parts.take(i as int)),
        decreases nodes.len() - i,
    {
        let ghost before = strings_view(out@);
        out.push(nodes[i].name.clone());
        let ghost mid = strings_view(out@);
        assert(mid =~= before + seq![nodes@[i as int].name@]);
        collect_full_names(&nodes[i].children, out);
        proof {
            let n = nodes@[i as int]@;
            assert(n.children == full_nodes_view(nodes@[i as int].children@));
            assert(full_node_names(n) == seq![n.name] + concat(full_node_name_parts(n.children)));
            lemma_concat_step(parts, i as int);
            assert(parts[i as int] == full_node_names(nodes@[i as int]@));
            assert(strings_view(out@) =~= start + concat(parts.take(i + 1)));
        }
        i = i + 1;
    }
    proof {
        lemma_concat_all(parts);
    }
}

/// Appends copies of `ts` and of the types nested in them, in pre-order;
/// struct types only when `inner` is set or they have no members.
fn collect_types(ts: &Vec<Type>, inner: bool, out: &mut Vec<Type>)
    ensures
        types_view(final(out)@) == types_view(old(out)@) + concat(type_node_parts(types_view(ts@), inner)),
    decreases ts,
{
    let ghost start = types_view(out@);
    let ghost parts = type_node_parts(types_view(ts@), inner);
    let mut i: usize = 0;
    assert(parts.take(0) =~= seq![]);
    assert(start + concat(parts.take(0)) =~= start);
    while i < ts.len()
        invariant
            0 <= i <= ts@.len(),
            parts == type_node_parts(types_view(ts@), inner),
            types_view(out@) == start + concat(parts.take(i as int)),
        decreases ts.len() - i,
    {
        let ghost before = types_view(out@);
        let t = &ts[i];
        match &t.kind {
            Kind::Struct(children) => {
                if inner || children.len() == 0 {
                    out.push(t.deep_clone());
                }
                let ghost mid = types_view(out@);
                proof {
                    if inner || children.len() == 0 {
                        assert(mid =~= before + seq![t@]);
                    } else {
                        assert(mid =~= before);
                    }
                }
                collect_types(children, inner, out);
            },
            _ => {
                out.push(t.deep_clone());
                assert(types_view(out@) =~= before + seq![t@]);
            },
        }
        proof {
            lemma_concat_step(parts, i as int);
            assert(parts[i as int] == type_node_pre(ts@[i as int]@, inner));
            assert(types_view(out@) =~= start + concat(parts.take(i + 1)));
        }
        i = i + 1;
    }
    proof {
        lemma_concat_all(parts);
    }
}

/// Appends copies of the types of `nodes` and of the fields nested in them,
/// in pre-order; fields with nested fields only when `inner` is set.
fn collect_full_types(nodes: &Vec<FullSchemaNode>, inner: bool, out: &mut Vec<Type>)
    ensures
        types_view(final(out)@) == types_view(old(out)@) + concat(full_node_type_parts(full_nodes_view(nodes@), inner)),
    decreases nodes,
{
    let ghost start = types_view(out@);
    let ghost parts = full_node_type_parts(full_nodes_view(nodes@), inner);
    let mut i: usize = 0;
    assert(parts.take(0) =~= seq![]);
    assert(start + concat(parts.take(0)) =~= start);
    while i < nodes.len()
        invariant
            0 <= i <= nodes@.len(),
            parts == full_node_type_parts(full_nodes_view(nodes@), inner),
            types_view(out@) == start + concat(parts.take(i as int)),
        decreases nodes.len() - i,
    {
        let ghost before = types_view(out@);
        let node = &nodes[i];
        if inner || node.children.len() == 0 {
            out.push(node.data_type.deep_clone());
        }
        let ghost mid = types_view(out@);
        proof {
            if inner || node.children.len() == 0 {
                assert(mid =~= before + seq![node.data_type@]);
            } else {
                assert(mid =~= before);
            }
        }
        collect_full_types(&node.children, inner, out);
        proof {
            let n = nodes@[i as int]@;
            assert(n.children == full_nodes_view(nodes@[i as int].children@));
            lemma_concat_step(parts, i as int);
            assert(parts[i as int] == full_node_types(n, inner));
            assert(types_view(out@) =~= start + concat(parts.take(i + 1)));
        }
        i = i + 1;
    }
    proof {
        lemma_concat_all(parts);
    }
}

impl NamesOnlySchemaNode {
    /// The type this field stands for: `unknown_type` for a leaf, a nullable
    /// struct of the nested fields' types otherwise.
    pub fn as_type(&self, unknown_type: &Type) -> (r: Type)
        ensures
            r@ == name_node_type(self@, unknown_type@),
        decreases self,
    {
        if self.children.len() == 0 {
            unknown_type.deep_clone()
        } else {
            let members = name_nodes_as_types(&self.children, unknown_type);
            Type {
                kind: Kind::Struct(members),
                nullability: Nullability::Nullable,
                variation: NO_VARIATION,
            }
        }
    }
}

/// The types that the fields `nodes` stand for.
fn name_nodes_as_types(nodes: &Vec<NamesOnlySchemaNode>, unknown_type: &Type) -> (r: Vec<Type>)
    ensures
        types_view(r@) == name_node_types(name_nodes_view(nodes@), unknown_type@),
    decreases nodes,
{
    let mut r: Vec<Type> = Vec::new();
    let mut i: usize = 0;
    while i < nodes.len()
        invariant
            0 <= i <= nodes@.len(),
            r@.len() == i,
            forall|j: int| 0 <= j < i ==> (#[trigger] r@[j])@ == name_node_type(nodes@[j]@, unknown_type@),
        decreases nodes.len() - i,
    {
        r.push(nodes[i].as_type(unknown_type));
        i = i + 1;
    }
    assert(types_view(r@) =~= name_node_types(name_nodes_view(nodes@), unknown_type@));
    r
}

impl SchemaInfo {
    pub open spec fn view(&self) -> SchemaV {
        match self {
            SchemaInfo::Empty(e) => SchemaV { shape: SchemaShape::Empty, registry: e.registry@ },
            SchemaInfo::Names(n) => SchemaV {
                shape: SchemaShape::Names(name_nodes_view(n.root.children@)),
                registry: n.registry@,
            },
            SchemaInfo::Types(t) => SchemaV { shape: SchemaShape::Types(types_view(t.root@)), registry: t.registry@ },
            SchemaInfo::Full(f) => SchemaV { shape: SchemaShape::Full(f.root@), registry: f.registry@ },
        }
    }

    /// An empty schema with a fresh registry.
    pub fn empty() -> (r: Self)
        ensures
            r@ == (SchemaV { shape: SchemaShape::Empty, registry: RegistryModel::empty() }),
    {
        SchemaInfo::Empty(EmptySchema::new())
    }

    /// The registry that holds the extensions this schema uses.
    pub fn extensions_registry(&self) -> (r: &ExtensionsRegistry)
        ensures
            r@ == self@.registry,
    {
        match self {
            SchemaInfo::Empty(s) => &s.registry,
            SchemaInfo::Names(s) => &s.registry,
            SchemaInfo::Types(s) => &s.registry,
            SchemaInfo::Full(s) => &s.registry,
        }
    }

    /// Registers the unknown type in this schema's registry and returns it.
    pub fn unknown_type(&mut self) -> (r: Type)
        requires
            unknown_ready(old(self)@.registry),
        ensures
            final(self)@ == (SchemaV { registry: with_unknown(old(self)@.registry), ..old(self)@ }),
            r@ == unknown_of(old(self)@.registry),
    {
        match self {
            SchemaInfo::Empty(s) => unknown(&mut s.registry),
            SchemaInfo::Names(s) => unknown(&mut s.registry),
            SchemaInfo::Types(s) => unknown(&mut s.registry),
            SchemaInfo::Full(s) => unknown(&mut s.registry),
        }
    }

    /// Registers a function in this schema's registry and returns its anchor.
    pub fn register_function_by_name(&mut self, uri: &str, name: &str) -> (r: u32)
        requires
            old(self)@.registry.can_register(Namespace::Functions, uri@, name@),
        ensures
            final(self)@ == (SchemaV { registry: old(self)@.registry.register_function(uri@, name@).0, ..old(self)@ }),
            r == old(self)@.registry.register_function(uri@, name@).1,
    {
        match self {
            SchemaInfo::Empty(s) => s.registry.register_function_by_name(uri, name),
            SchemaInfo::Names(s) => s.registry.register_function_by_name(uri, name),
            SchemaInfo::Types(s) => s.registry.register_function_by_name(uri, name),
            SchemaInfo::Full(s) => s.registry.register_function_by_name(uri, name),
        }
    }

    /// True if this schema knows the names of its fields.
    pub fn names_aware(&self) -> (r: bool)
        ensures
            r == names_aware_spec(self@.shape),
            r == (self is Names || self is Full),
    {
        match self {
            SchemaInfo::Empty(_) => false,
            SchemaInfo::Names(_) => true,
            SchemaInfo::Types(_) => false,
            SchemaInfo::Full(_) => true,
        }
    }

    /// True if this schema knows the types of its fields.
    pub fn types_aware(&self) -> (r: bool)
        ensures
            r == types_aware_spec(self@.shape),
            r == (self is Types || self is Full),
    {
        match self {
            SchemaInfo::Empty(_) => false,
            SchemaInfo::Names(_) => false,
            SchemaInfo::Types(_) => true,
            SchemaInfo::Full(_) => true,
        }
    }

    /// True if this schema knows how many fields there are.
    pub fn len_aware(&self) -> (r: bool)
        ensures
            r == len_aware_spec(self@.shape),
            r == !(self is Empty),
    {
        match self {
            SchemaInfo::Empty(_) => false,
            SchemaInfo::Names(_) => true,
            SchemaInfo::Types(_) => true,
            SchemaInfo::Full(_) => true,
        }
    }

    /// The names of the fields in pre-order, nested fields after the field
    /// that holds them; an `InvalidInput` error when the schema does not know
    /// names.
    pub fn names_dfs(&self) -> (r: Result<Vec<String>, SubstraitExprError>)
        ensures
            r is Ok <==> names_aware_spec(self@.shape),
            r matches Ok(names) ==> names_dfs_spec(self@.shape) == Some(strings_view(names@)),
            r matches Err(e) ==> e.is_invalid_input(),
    {
        match self {
            SchemaInfo::Names(s) => {
                let mut out: Vec<String> = Vec::new();
                assert(strings_view(out@) =~= seq![]);
                collect_names(&s.root.children, &mut out);
                assert(strings_view(out@) =~= names_pre(name_nodes_view(s.root.children@)));
                Ok(out)
            },
            SchemaInfo::Full(s) => {
                let mut out: Vec<String> = Vec::new();
                assert(strings_view(out@) =~= seq![]);
                collect_full_names(&s.root.children, &mut out);
                assert(strings_view(out@) =~= concat(full_node_name_parts(full_nodes_view(s.root.children@))));
                Ok(out)
            },
            _ => Err(SubstraitExprError::invalid_input("Attempt to access field names when the schema is not name-aware")),
        }
    }

    /// The types of the fields in pre-order. Struct types are left out unless
    /// `include_inner` is set. An empty schema has none; a names-only schema
    /// gives the unknown type for each leaf and registers it.
    pub fn types_dfs(&mut self, include_inner: bool) -> (r: Vec<Type>)
        requires
            unknown_ready(old(self)@.registry),
        ensures
            types_view(r@) == types_dfs_spec(old(self)@, include_inner),
            final(self)@ == (SchemaV { registry: types_dfs_registry(old(self)@), ..old(self)@ }),
    {
        let mut out: Vec<Type> = Vec::new();
        assert(types_view(out@) =~= seq![]);
        match self {
            SchemaInfo::Empty(_) => {},
            SchemaInfo::Names(s) => {
                let unknown_type = unknown(&mut s.registry);
                let tops = name_nodes_as_types(&s.root.children, &unknown_type);
                collect_types(&tops, include_inner, &mut out);
            },
            SchemaInfo::Types(s) => {
                collect_types(&s.root, include_inner, &mut out);
            },
            SchemaInfo::Full(s) => {
                collect_full_types(&s.root.children, include_inner, &mut out);
            },
        }
        assert(types_view(out@) =~= types_dfs_spec(old(self)@, include_inner));
        out
    }
}

/// The type that `seg` reaches among the fields of types `ts`.
fn resolve_in_type_list(ts: &Vec<Type>, seg: &ReferenceSegment) -> (r: Result<Type, SubstraitExprError>)
    ensures
        r matches Ok(t) ==> resolve_in_types(types_view(ts@), *seg) == Some(t@),
        r is Err ==> resolve_in_types(types_view(ts@), *seg) is None,
        r matches Err(e) ==> e.is_invalid_input(),
    decreases seg,
{
    match seg {
        ReferenceSegment::StructField { field, child } => {
            if *field < 0 || *field as usize >= ts.len() {
                return Err(SubstraitExprError::invalid_input("Invalid reference: no field at that position"));
            }
            let t = &ts[*field as usize];
            match child {
                None => Ok(t.deep_clone()),
                Some(c) => {
                    match &t.kind {
                        Kind::Struct(members) => {
                            if members.len() == 0 {
                                Err(SubstraitExprError::invalid_input("Invalid reference: the field has no members"))
                            } else {
                                resolve_in_type_list(members, c)
                            }
                        },
                        _ => Err(SubstraitExprError::invalid_input("Invalid reference: the field has no members")),
                    }
                },
            }
        },
        _ => Err(SubstraitExprError::invalid_input("Unsupported: list and map references cannot be resolved yet")),
    }
}

/// The type of the field that `seg` reaches among the fields `nodes`.
fn resolve_in_node_list(nodes: &Vec<FullSchemaNode>, seg: &ReferenceSegment) -> (r: Result<Type, SubstraitExprError>)
    ensures
        r matches Ok(t) ==> resolve_in_nodes(full_nodes_view(nodes@), *seg) == Some(t@),
        r is Err ==> resolve_in_nodes(full_nodes_view(nodes@), *seg) is None,
        r matches Err(e) ==> e.is_invalid_input(),
    decreases seg,
{
    match seg {
        ReferenceSegment::StructField { field, child } => {
            if *field < 0 || *field as usize >= nodes.len() {
                return Err(SubstraitExprError::invalid_input("Invalid reference: no field at that position"));
            }
            let node = &nodes[*field as usize];
            match child {
                None => Ok(node.data_type.deep_clone()),
                Some(c) => {
                    if node.children.len() == 0 {
                        Err(SubstraitExprError::invalid_input("Invalid reference: the field has no nested fields"))
                    } else {
                        resolve_in_node_list(&node.children, c)
                    }
                },
            }
        },
        _ => Err(SubstraitExprError::invalid_input("Unsupported: list and map references cannot be resolved yet")),
    }
}

/// A struct of named fields: names in pre-order and the types they carry.
#[derive(Debug)]
pub struct NamedStruct {
    pub names: Vec<String>,
    pub types: Vec<Type>,
    pub nullability: Nullability,
}

/// The positional name of field `i`: `field_<i>`.
pub open spec fn positional_name(i: nat) -> Seq<char> {
    "field_"@ + nat_text(i)
}

/// The names of a flattened schema: its own in pre-order when it knows
/// them, else one positional name per type.
pub open spec fn flattened_names(s: SchemaV) -> Seq<Seq<char>> {
    match names_dfs_spec(s.shape) {
        Some(names) => names,
        None => Seq::new(types_dfs_spec(s, false).len(), |i: int| positional_name(i as nat)),
    }
}

impl SchemaInfo {
    /// The type that `ref_seg` refers to. Schemas that do not know types
    /// give the unknown type; list and map steps, and references to fields
    /// that do not exist, give an `InvalidInput` error.
    pub fn resolve_type(&mut self, ref_seg: &ReferenceSegment) -> (r: Result<Type, SubstraitExprError>)
        requires
            unknown_ready(old(self)@.registry),
        ensures
            final(self)@ == (SchemaV { registry: resolve_registry(old(self)@), ..old(self)@ }),
            r matches Ok(t) ==> resolve_spec(old(self)@, *ref_seg) == Some(t@),
            r is Err ==> resolve_spec(old(self)@, *ref_seg) is None,
            r matches Err(e) ==> e.is_invalid_input(),
    {
        match self {
            SchemaInfo::Empty(s) => Ok(unknown(&mut s.registry)),
            SchemaInfo::Names(s) => Ok(unknown(&mut s.registry)),
            SchemaInfo::Types(s) => resolve_in_type_list(&s.root, ref_seg),
            SchemaInfo::Full(s) => resolve_in_node_list(&s.root.children, ref_seg),
        }
    }

    /// Flattens the schema into names and leaf types. A schema that does not
    /// know names gets `field_0`, `field_1`, ... .
    pub fn flatten(&mut self) -> (r: NamedStruct)
        requires
            unknown_ready(old(self)@.registry),
        ensures
            types_view(r.types@) == types_dfs_spec(old(self)@, false),
            strings_view(r.names@) == flattened_names(old(self)@),
            r.nullability == Nullability::Required,
            final(self)@ == (SchemaV { registry: types_dfs_registry(old(self)@), ..old(self)@ }),
    {
        let types = self.types_dfs(false);
        let names = match self.names_dfs() {
            Ok(names) => names,
            Err(_) => {
                let mut names: Vec<String> = Vec::new();
                let mut i: usize = 0;
                while i < types.len()
                    invariant
                        0 <= i <= types@.len(),
                        names@.len() == i,
                        forall|j: int| 0 <= j < i ==> (#[trigger] names@[j])@ == positional_name(j as nat),
                    decreases types.len() - i,
                {
                    let mut name = String::from_str("field_");
                    append_nat(&mut name, i as u64);
                    names.push(name);
                    i = i + 1;
                }
                assert(strings_view(names@) =~= Seq::new(types@.len(), |i: int| positional_name(i as nat)));
                names
            },
        };
        NamedStruct { names, types, nullability: nullability(false) }
    }

    /// Flattens the schema, consuming it; see `flatten`.
    pub fn to_substrait(self) -> (r: NamedStruct)
        requires
            unknown_ready(self@.registry),
        ensures
            types_view(r.types@) == types_dfs_spec(self@, false),
            strings_view(r.names@) == flattened_names(self@),
            r.nullability == Nullability::Required,
    {
        let mut schema = self;
        schema.flatten()
    }
}

/// Registering the unknown type a second time changes nothing, and the
/// unknown type stays the same.
pub proof fn lemma_unknown_stable(reg: RegistryModel)
    requires
        reg.wf(),
        unknown_ready(reg),
    ensures
        with_unknown(reg).wf(),
        unknown_ready(with_unknown(reg)),
        with_unknown(with_unknown(reg)) == with_unknown(reg),
        unknown_of(with_unknown(reg)) == unknown_of(reg),
        crate::types::is_unknown_spec(unknown_of(reg), with_unknown(reg)),
{
    crate::registry::lemma_register_keeps_wf(reg, Namespace::Types, UNKNOWN_TYPE_URI@, UNKNOWN_TYPE_NAME@);
    crate::registry::lemma_register_type_lookup(reg, UNKNOWN_TYPE_URI@, UNKNOWN_TYPE_NAME@);
    crate::registry::lemma_register_type_stable(reg, UNKNOWN_TYPE_URI@, UNKNOWN_TYPE_NAME@);
}

} // verus!
