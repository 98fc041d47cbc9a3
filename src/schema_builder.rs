//! Builders for the three kinds of schema that know something, and for the
//! user-defined types their fields may have. A nested builder works on its
//! parent's registry and hands it back, so anchors registered inside a
//! nested field stay registered.
use vstd::prelude::*;
use crate::registry::{ExtensionsRegistry, Namespace, RegistryModel};
use crate::schema::{
    full_nodes_view, name_nodes_view, FullNodeV, FullSchema, FullSchemaNode, NameNodeV, NamesOnlySchema,
    NamesOnlySchemaNode, SchemaInfo, SchemaShape, SchemaV, TypesOnlySchema,
};
use crate::types::{
    nullability_spec, params_view, plain, types_view, unknown, unknown_ready, unknown_type_spec, Kind, KindV, Type,
    TypeParameter, TypeV, NO_VARIATION, UNKNOWN_TYPE_NAME, UNKNOWN_TYPE_URI,
};

verus! {

/// Creates values of one user-defined type.
#[derive(Debug)]
pub struct UserDefinedTypeBuilder {
    pub type_reference: u32,
}

/// The user-defined type with anchor `anchor`, without parameters.
pub open spec fn user_defined_spec(anchor: u32, nullable: bool) -> TypeV {
    TypeV {
        kind: KindV::UserDefined { type_reference: anchor, type_parameters: seq![] },
        nullability: nullability_spec(nullable),
        variation: NO_VARIATION,
    }
}

impl UserDefinedTypeBuilder {
    /// The type, with the given nullability; the builder can be used again.
    pub fn with_nullability(&self, nullable: bool) -> (r: Type)
        ensures
            r@ == user_defined_spec(self.type_reference, nullable),
    {
        let no_params: Vec<TypeParameter> = Vec::new();
        assert(params_view(no_params@) =~= seq![]);
        Type {
            kind: Kind::UserDefined { type_reference: self.type_reference, type_parameters: no_params },
            nullability: crate::types::nullability(nullable),
            variation: NO_VARIATION,
        }
    }
}

/// Creates user-defined types, registering them in a registry.
pub struct TypeBuilder<'a> {
    pub registry: &'a mut ExtensionsRegistry,
}

impl<'a> TypeBuilder<'a> {
    /// The unknown type. It matches any expected argument type, and a call
    /// with an argument of this type returns it too.
    pub fn unknown(self) -> (r: Type)
        requires
            unknown_ready((*self.registry)@),
        ensures
            (*final(self.registry))@ == (*old(self.registry))@.register_type(UNKNOWN_TYPE_URI@, UNKNOWN_TYPE_NAME@).0,
            r@ == unknown_type_spec((*old(self.registry))@.register_type(UNKNOWN_TYPE_URI@, UNKNOWN_TYPE_NAME@).1),
    {
        unknown(self.registry)
    }

    /// A builder of the user-defined type `uri#name`, which is registered.
    pub fn user_defined(self, uri: &str, name: &str) -> (r: UserDefinedTypeBuilder)
        requires
            (*self.registry)@.can_register(Namespace::Types, uri@, name@),
        ensures
            ((*final(self.registry))@, r.type_reference) == (*old(self.registry))@.register_type(uri@, name@),
    {
        let type_reference = self.registry.register_type(uri.to_owned(), name);
        UserDefinedTypeBuilder { type_reference }
    }
}

/// Builds a schema that knows the types of its fields.
#[derive(Debug)]
pub struct TypesOnlySchemaBuilder {
    pub children: Vec<Type>,
    pub registry: ExtensionsRegistry,
}

impl TypesOnlySchemaBuilder {
    pub fn new() -> (r: Self)
        ensures
            r.children@.len() == 0,
            r.registry@ == RegistryModel::empty(),
    {
        TypesOnlySchemaBuilder { children: Vec::new(), registry: ExtensionsRegistry::new() }
    }

    /// A builder that registers its types in `registry`.
    pub fn new_with_types(registry: ExtensionsRegistry) -> (r: Self)
        ensures
            r.children@.len() == 0,
            r.registry == registry,
    {
        TypesOnlySchemaBuilder { children: Vec::new(), registry }
    }

    /// Adds a field of type `typ`.
    pub fn field(self, typ: Type) -> (r: Self)
        ensures
            r.children@ == self.children@.push(typ),
            r.registry == self.registry,
    {
        let TypesOnlySchemaBuilder { mut children, registry } = self;
        children.push(typ);
        TypesOnlySchemaBuilder { children, registry }
    }

    /// Adds a struct field whose members `build_func` adds to the builder it
    /// is given; that builder shares this one's registry.
    pub fn nested<F: FnOnce(Self) -> Self>(self, nullable: bool, build_func: F) -> (r: Self)
        requires
            forall|b: Self| build_func.requires((b,)),
        ensures
            exists|child: Self, out: Self|
                #![trigger build_func.ensures((child,), out)]
                child.children@.len() == 0 && child.registry == self.registry && build_func.ensures((child,), out)
                    && types_view(r.children@) == types_view(self.children@).push(
                    plain(KindV::Struct(types_view(out.children@)), nullable),
                ) && r.registry == out.registry,
    {
        let TypesOnlySchemaBuilder { mut children, registry } = self;
        let child = TypesOnlySchemaBuilder { children: Vec::new(), registry };
        let out = build_func(child);
        let TypesOnlySchemaBuilder { children: members, registry } = out;
        let ghost before = children@;
        children.push(crate::types::struct_(members, nullable));
        assert(types_view(children@) =~= types_view(before).push(plain(KindV::Struct(types_view(out.children@)), nullable)));
        TypesOnlySchemaBuilder { children, registry }
    }

    /// The schema.
    pub fn build(self) -> (r: SchemaInfo)
        ensures
            r@ == (SchemaV { shape: SchemaShape::Types(types_view(self.children@)), registry: self.registry@ }),
    {
        SchemaInfo::Types(TypesOnlySchema::new_with_registry(self.children, self.registry))
    }

    /// A builder of user-defined types registered in this builder's registry.
    pub fn types(&mut self) -> (r: TypeBuilder<'_>)
        ensures
            *r.registry == old(self).registry,
            final(self).registry == *final(r.registry),
            final(self).children == old(self).children,
    {
        TypeBuilder { registry: &mut self.registry }
    }
}

/// Builds a schema that knows the names of its fields.
#[derive(Debug)]
pub struct NamesOnlySchemaNodeBuilder {
    pub children: Vec<NamesOnlySchemaNode>,
    pub registry: ExtensionsRegistry,
}

impl NamesOnlySchemaNodeBuilder {
    pub fn new() -> (r: Self)
        ensures
            r.children@.len() == 0,
            r.registry@ == RegistryModel::empty(),
    {
        NamesOnlySchemaNodeBuilder { children: Vec::new(), registry: ExtensionsRegistry::new() }
    }

    /// A builder that registers its types in `registry`.
    pub fn new_with_types(registry: ExtensionsRegistry) -> (r: Self)
        ensures
            r.children@.len() == 0,
            r.registry == registry,
    {
        NamesOnlySchemaNodeBuilder { children: Vec::new(), registry }
    }

    /// Adds a field named `name` with no nested fields.
    pub fn field(self, name: &str) -> (r: Self)
        ensures
            name_nodes_view(r.children@) == name_nodes_view(self.children@).push(
                NameNodeV { name: name@, children: seq![] },
            ),
            r.registry == self.registry,
    {
        let NamesOnlySchemaNodeBuilder { mut children, registry } = self;
        let ghost before = children@;
        let leaf: Vec<NamesOnlySchemaNode> = Vec::new();
        assert(name_nodes_view(leaf@) =~= seq![]);
        children.push(NamesOnlySchemaNode { name: name.to_owned(), children: leaf });
        assert(name_nodes_view(children@) =~= name_nodes_view(before).push(NameNodeV { name: name@, children: seq![] }));
        NamesOnlySchemaNodeBuilder { children, registry }
    }

    /// Adds a field named `name` whose nested fields `build_func` adds to the
    /// builder it is given; that builder shares this one's registry.
    pub fn nested<F: FnOnce(Self) -> Self>(self, name: &str, build_func: F) -> (r: Self)
        requires
            forall|b: Self| build_func.requires((b,)),
        ensures
            exists|child: Self, out: Self|
                #![trigger build_func.ensures((child,), out)]
                child.children@.len() == 0 && child.registry == self.registry && build_func.ensures((child,), out)
                    && name_nodes_view(r.children@) == name_nodes_view(self.children@).push(
                    NameNodeV { name: name@, children: name_nodes_view(out.children@) },
                ) && r.registry == out.registry,
    {
        let NamesOnlySchemaNodeBuilder { mut children, registry } = self;
        let child = NamesOnlySchemaNodeBuilder { children: Vec::new(), registry };
        let out = build_func(child);
        let NamesOnlySchemaNodeBuilder { children: members, registry } = out;
        let ghost before = children@;
        children.push(NamesOnlySchemaNode { name: name.to_owned(), children: members });
        assert(name_nodes_view(children@) =~= name_nodes_view(before).push(
            NameNodeV { name: name@, children: name_nodes_view(out.children@) },
        ));
        NamesOnlySchemaNodeBuilder { children, registry }
    }

    /// The schema.
    pub fn build(self) -> (r: SchemaInfo)
        ensures
            r@ == (SchemaV { shape: SchemaShape::Names(name_nodes_view(self.children@)), registry: self.registry@ }),
    {
        SchemaInfo::Names(NamesOnlySchema::new_with_registry(self.children, self.registry))
    }
}

/// Builds a schema that knows the names and types of its fields.
#[derive(Debug)]
pub struct FullSchemaBuilder {
    pub nullable: bool,
    pub name: String,
    pub children: Vec<FullSchemaNode>,
    pub registry: ExtensionsRegistry,
}

/// The types of the fields `ns`.
pub open spec fn node_types(ns: Seq<FullNodeV>) -> Seq<TypeV> {
    ns.map_values(|n: FullNodeV| n.data_type)
}

/// A node named `name` with fields `children`, of a struct type of their
/// types.
pub open spec fn struct_node(name: Seq<char>, nullable: bool, children: Seq<FullNodeV>) -> FullNodeV {
    FullNodeV { name, data_type: plain(KindV::Struct(node_types(children)), nullable), children }
}

impl FullSchemaBuilder {
    fn new_node(nullable: bool, name: String, registry: ExtensionsRegistry) -> (r: Self)
        ensures
            r.nullable == nullable,
            r.name == name,
            r.children@.len() == 0,
            r.registry == registry,
    {
        FullSchemaBuilder { nullable, name, children: Vec::new(), registry }
    }

    /// A builder for the root of a schema, which is never null and has an
    /// empty name.
    pub fn new() -> (r: Self)
        ensures
            !r.nullable,
            r.name@.len() == 0,
            r.children@.len() == 0,
            r.registry@ == RegistryModel::empty(),
    {
        FullSchemaBuilder::new_node(false, String::new(), ExtensionsRegistry::new())
    }

    /// Adds a field `name` of type `typ`, which is not a struct; struct
    /// fields are added with `nested`.
    pub fn field(self, name: &str, typ: Type) -> (r: Self)
        requires
            !(typ@.kind is Struct),
        ensures
            full_nodes_view(r.children@) == full_nodes_view(self.children@).push(
                FullNodeV { name: name@, data_type: typ@, children: seq![] },
            ),
            r.nullable == self.nullable,
            r.name == self.name,
            r.registry == self.registry,
    {
        let FullSchemaBuilder { nullable, name: own_name, mut children, registry } = self;
        let ghost before = children@;
        let ghost t = typ@;
        let leaf: Vec<FullSchemaNode> = Vec::new();
        assert(full_nodes_view(leaf@) =~= seq![]);
        children.push(FullSchemaNode { name: name.to_owned(), data_type: typ, children: leaf });
        assert(full_nodes_view(children@) =~= full_nodes_view(before).push(
            FullNodeV { name: name@, data_type: t, children: seq![] },
        ));
        FullSchemaBuilder { nullable, name: own_name, children, registry }
    }

    /// Adds a struct field `name` whose fields `build_func` adds to the
    /// builder it is given; that builder shares this one's registry.
    pub fn nested<F: FnOnce(Self) -> Self>(self, name: &str, nullable: bool, build_func: F) -> (r: Self)
        requires
            forall|b: Self| build_func.requires((b,)),
        ensures
            exists|child: Self, out: Self|
                #![trigger build_func.ensures((child,), out)]
                child.children@.len() == 0 && child.name@ == name@ && child.nullable == nullable && child.registry
                    == self.registry && build_func.ensures((child,), out) && full_nodes_view(r.children@)
                    == full_nodes_view(self.children@).push(
                    struct_node(out.name@, out.nullable, full_nodes_view(out.children@)),
                ) && r.registry == out.registry,
            r.nullable == self.nullable,
            r.name == self.name,
    {
        let FullSchemaBuilder { nullable: own_nullable, name: own_name, mut children, registry } = self;
        let child = FullSchemaBuilder::new_node(nullable, name.to_owned(), registry);
        let out = build_func(child);
        let (node, registry) = out.inner_build();
        let ghost before = children@;
        let ghost v = node@;
        children.push(node);
        assert(full_nodes_view(children@) =~= full_nodes_view(before).push(v));
        FullSchemaBuilder { nullable: own_nullable, name: own_name, children, registry }
    }

    fn inner_build(self) -> (r: (FullSchemaNode, ExtensionsRegistry))
        ensures
            r.0@ == struct_node(self.name@, self.nullable, full_nodes_view(self.children@)),
            r.1 == self.registry,
    {
        let FullSchemaBuilder { nullable, name, children, registry } = self;
        let mut types: Vec<Type> = Vec::new();
        let mut i: usize = 0;
        while i < children.len()
            invariant
                0 <= i <= children@.len(),
                types@.len() == i,
                forall|j: int| 0 <= j < i ==> (#[trigger] types@[j])@ == children@[j].data_type@,
            decreases children.len() - i,
        {
            types.push(children[i].data_type.deep_clone());
            i = i + 1;
        }
        assert(types_view(types@) =~= node_types(full_nodes_view(children@)));
        let data_type = crate::types::struct_(types, nullable);
        (FullSchemaNode { name, data_type, children }, registry)
    }

    /// The schema.
    pub fn build(self) -> (r: SchemaInfo)
        ensures
            r@ == (SchemaV {
                shape: SchemaShape::Full(struct_node(self.name@, self.nullable, full_nodes_view(self.children@))),
                registry: self.registry@,
            }),
    {
        let (root, registry) = self.inner_build();
        SchemaInfo::Full(FullSchema::new_with_registry(root, registry))
    }
}

/// Constructors of schema builders.
pub trait SchemaBuildersExt {
    /// A builder of a schema that knows names.
    fn new_names() -> NamesOnlySchemaNodeBuilder;

    /// A builder of a schema that knows types.
    fn new_types() -> TypesOnlySchemaBuilder;

    /// A builder of a schema that knows names and types.
    fn new_full() -> FullSchemaBuilder;
}

impl SchemaBuildersExt for SchemaInfo {
    fn new_names() -> NamesOnlySchemaNodeBuilder {
        NamesOnlySchemaNodeBuilder::new()
    }

    fn new_types() -> TypesOnlySchemaBuilder {
        TypesOnlySchemaBuilder::new()
    }

    fn new_full() -> FullSchemaBuilder {
        FullSchemaBuilder::new()
    }
}

} // verus!
