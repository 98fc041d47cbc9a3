use substrait_expr::builder::{BuilderParams, ExpressionsBuilder};
use substrait_expr::error::SubstraitExprError;
use substrait_expr::expr::{
    fp32_literal_bits, literal, null_literal, string_literal, try_varchar, Expression, FieldReference,
    FunctionArgument, Literal, LiteralValue, ReferenceSegment, RootKind,
};
use substrait_expr::functions::{
    FunctionDefinition, FunctionImplementation, FunctionsBuilder, ImplementationArg, ImplementationArgType,
    LOOKUP_BY_NAME_FUNC_NAME, LOOKUP_BY_NAME_FUNC_URI,
};
use substrait_expr::path::{parse_path, NamedRefElement};
use substrait_expr::registry::{DeclarationKind, ExtensionsRegistry};
use substrait_expr::schema::{EmptySchema, NamesOnlySchema, NamesOnlySchemaNode, SchemaInfo};
use substrait_expr::schema_builder::SchemaBuildersExt;
use substrait_expr::types::{self, Kind, Nullability, Type, NO_VARIATION};

fn value_arg(name: &str, typ: Type) -> ImplementationArg {
    ImplementationArg { name: name.to_string(), arg_type: ImplementationArgType::Value(typ) }
}

fn binary_impl(make: fn(bool) -> Type) -> FunctionImplementation {
    FunctionImplementation { args: vec![value_arg("x", make(false)), value_arg("y", make(false))], output_type: make(false) }
}

fn add_function() -> FunctionDefinition {
    FunctionDefinition {
        uri: "https://github.com/substrait-io/substrait/blob/main/extensions/functions_arithmetic.yaml".to_string(),
        name: "add".to_string(),
        implementations: vec![binary_impl(types::i32), binary_impl(types::fp32), binary_impl(types::fp64)],
    }
}

fn names_node(name: &str, children: Vec<NamesOnlySchemaNode>) -> NamesOnlySchemaNode {
    NamesOnlySchemaNode { name: name.to_string(), children }
}

fn score_location_names() -> Vec<NamesOnlySchemaNode> {
    vec![
        names_node("score", vec![]),
        names_node("location", vec![names_node("x", vec![]), names_node("y", vec![])]),
    ]
}

fn names_root(schema: &SchemaInfo) -> &Vec<NamesOnlySchemaNode> {
    match schema {
        SchemaInfo::Names(n) => &n.root.children,
        _ => panic!("expected a names-only schema"),
    }
}

fn full_score_location() -> SchemaInfo {
    SchemaInfo::new_full()
        .field("score", types::i32(false))
        .nested("location", false, |builder| builder.field("x", types::fp32(false)).field("y", types::fp64(true)))
        .build()
}

fn struct_field(field: i32, child: Option<Box<ReferenceSegment>>) -> ReferenceSegment {
    ReferenceSegment::StructField { field, child }
}

#[test]
fn prevent_unknown_types_via_unknown_field_ref() {
    let params = BuilderParams { allow_unknown_types: false, ..Default::default() };
    let schema = SchemaInfo::Names(NamesOnlySchema::new(vec![names_node("x", vec![])]));
    let mut builder = ExpressionsBuilder::new(schema, params);
    assert!(builder.fields().resolve_by_name("x").is_err());
    assert!(builder.fields().field_builder().map(|b| b.field("x")).is_err());
}

#[test]
fn schema_test_literals() {
    let lit = literal(1_i8);
    println!("{:?}", lit);
    assert_eq!(
        lit,
        Expression::Literal(Literal { nullable: false, variation: 0, literal_type: LiteralValue::I8(1) })
    );
}

#[test]
fn test_names_only_schema_builder() {
    let expected = SchemaInfo::Names(NamesOnlySchema::new(score_location_names()));
    let built = SchemaInfo::new_names()
        .field("score")
        .nested("location", |builder| builder.field("x").field("y"))
        .build();
    assert_eq!(names_root(&expected), names_root(&built));
}

#[test]
fn test_resolve_by_name() {
    let mut schema = SchemaInfo::Names(NamesOnlySchema::new(vec![
        names_node("a", vec![names_node("b", vec![]), names_node("c", vec![])]),
        names_node("d", vec![]),
    ]));
    let params = BuilderParams { allow_unknown_types: true, ..Default::default() };
    let ref_builder = substrait_expr::builder::RefBuilder::new(&mut schema, &params);
    let by_name = ref_builder.resolve_by_name("a.c[3]").unwrap();
    let by_builder = substrait_expr::builder::RefBuilder::new(&mut schema, &params)
        .field_builder()
        .unwrap()
        .field("a")
        .field("c")
        .list_item(3)
        .build()
        .unwrap();
    assert_eq!(by_name, by_builder);

    let by_name = substrait_expr::builder::RefBuilder::new(&mut schema, &params).resolve_by_name("a[hello].b").unwrap();
    let by_builder = substrait_expr::builder::RefBuilder::new(&mut schema, &params)
        .field_builder()
        .unwrap()
        .field("a")
        .map_item("hello".to_string())
        .field("b")
        .build()
        .unwrap();
    assert_eq!(by_name, by_builder);
}

#[test]
fn test_types_builder() {
    let mut schema = SchemaInfo::new_types()
        .field(types::i32(false))
        .nested(false, |builder| builder.field(types::fp32(false)).field(types::fp64(true)))
        .build();

    assert!(schema.names_dfs().is_err());
    assert!(!schema.names_aware());
    assert!(schema.types_aware());

    let found = schema.types_dfs(true);
    let expected = vec![
        types::i32(false),
        types::struct_(vec![types::fp32(false), types::fp64(true)], false),
        types::fp32(false),
        types::fp64(true),
    ];
    assert_eq!(expected, found);

    let found = schema.types_dfs(false);
    let expected = vec![types::i32(false), types::fp32(false), types::fp64(true)];
    assert_eq!(expected, found);
}

#[test]
fn test_full_builder() {
    let mut schema = full_score_location();
    assert_eq!(
        schema.names_dfs().unwrap(),
        vec!["score".to_string(), "location".to_string(), "x".to_string(), "y".to_string()]
    );
    assert!(schema.names_aware());
    assert!(schema.types_aware());

    let found = schema.types_dfs(false);
    let expected = vec![types::i32(false), types::fp32(false), types::fp64(true)];
    assert_eq!(expected, found);
}

#[test]
fn literals_test_literals() {
    let x = literal(1_i8);
    let y = literal(1_i16);
    let z = literal(1_i32);
    substrait_expr::expr::try_struct(vec![x, y, z]).unwrap();
    literal("hello".to_string());
    substrait_expr::expr::fixed_char("hello".to_string());
    substrait_expr::expr::fixed_binary(vec![0, 1, 2]);
    try_varchar("hello".to_string(), 30).unwrap();
    literal(vec![0_u8, 1, 2]);

    assert!(try_varchar("hello".to_string(), 3).is_err());
    assert!(substrait_expr::expr::try_struct(vec![literal(1_i8), Expression::Selection(FieldReference {
        root: RootKind::Root,
        segment: struct_field(0, None),
    })])
    .is_err());
}

#[test]
fn test_human_readable() {
    let mut reg = ExtensionsRegistry::new();
    let my_variation = reg.register_variation("my_uri".to_string(), "my_variation");
    let binary = |nullable: bool, variation: u32| Type {
        kind: Kind::Binary,
        nullability: if nullable { Nullability::Nullable } else { Nullability::Required },
        variation,
    };
    assert_eq!("binary", binary(false, NO_VARIATION).to_human_readable(&reg));
    assert_eq!("binary?", binary(true, NO_VARIATION).to_human_readable(&reg));
    assert_eq!("binary?[my_uri#my_variation]", binary(true, my_variation).to_human_readable(&reg));
    assert_eq!("binary?[unknown_variation]", binary(true, 5).to_human_readable(&reg));
    let decimal = Type {
        kind: Kind::Decimal { precision: 38, scale: 6 },
        nullability: Nullability::Nullable,
        variation: NO_VARIATION,
    };
    assert_eq!("decimal?<38,6>", decimal.to_human_readable(&reg));
    let list = Type {
        kind: Kind::List(Box::new(Type {
            kind: Kind::FixedChar { length: 8 },
            nullability: Nullability::Required,
            variation: NO_VARIATION,
        })),
        nullability: Nullability::Nullable,
        variation: NO_VARIATION,
    };
    assert_eq!("list?<fixedchar<8>>", list.to_human_readable(&reg));
}

#[test]
fn test_schema_macros() {
    let schema = SchemaInfo::Names(NamesOnlySchema::new(score_location_names()));
    let expected = SchemaInfo::new_names()
        .field("score")
        .nested("location", |builder| builder.field("x").field("y"))
        .build();
    assert_eq!(names_root(&schema), names_root(&expected));
}

#[test]
fn test_ext_func() {
    let schema = SchemaInfo::Empty(EmptySchema::default());
    let mut builder = ExpressionsBuilder::new(schema, BuilderParams::new_loose());
    let add = add_function();
    let call = builder.functions().new_builder(&add, vec![literal(3_i32), literal(5_i32)]).build().unwrap();
    match call {
        Expression::ScalarFunction(f) => {
            assert_eq!(f.output_type, types::i32(false));
            assert_eq!(f.arguments.len(), 2);
        }
        _ => panic!("expected a function call"),
    }
}

#[test]
fn test_building_simple_expression() {
    let schema = full_score_location();
    let params = BuilderParams { allow_unknown_types: true, ..Default::default() };
    let mut builder = ExpressionsBuilder::new(schema, params);
    let add = add_function();
    let x = builder.fields().resolve_by_name("location.x").unwrap();
    let sum = builder
        .functions()
        .new_builder(&add, vec![x, fp32_literal_bits(3.0_f32.to_bits())])
        .build()
        .unwrap();
    builder.add_expression("sum", sum).unwrap();

    let expressions = builder.build();
    println!("{:?}", expressions);
    assert_eq!(expressions.referred_expr.len(), 1);
    assert_eq!(expressions.referred_expr[0].output_names, vec!["sum".to_string()]);
    assert_eq!(expressions.extensions.len(), 1);
    assert_eq!(expressions.extensions[0].kind, DeclarationKind::Function);
    assert_eq!(expressions.extensions[0].name, "add");
    assert_eq!(expressions.extension_uris.len(), 1);
    assert_eq!(expressions.extension_uris[0].anchor, 1);
    assert_eq!(expressions.version.producer, "substrait-expr");
    assert_ne!((expressions.version.major_number, expressions.version.minor_number), (0, 0));
    assert_eq!(expressions.base_schema.names, vec!["score", "location", "x", "y"]);
}

#[test]
fn nullability_and_variation_text() {
    let mut reg = ExtensionsRegistry::default();
    assert_eq!(types::null_str(Nullability::Nullable), "?");
    assert_eq!(types::null_str(Nullability::Required), "");
    assert_eq!(types::null_str(Nullability::Unspecified), "INVALID-NULLABILITY");
    assert_eq!(types::vari_str(NO_VARIATION, &reg), "");
    let v = reg.register_variation("u".to_string(), "v");
    assert_eq!(v, 1);
    assert_eq!(types::vari_str(v, &reg), "[u#v]");
    assert_eq!(types::vari_str(7, &reg), "[unknown_variation]");
}

#[test]
fn registering_twice_gives_the_same_anchor() {
    let mut reg = ExtensionsRegistry::new();
    let a = reg.register_type("u".to_string(), "t");
    let f = reg.register_function_by_name("u", "f");
    let b = reg.register_type("u".to_string(), "t2");
    assert_eq!((a, f, b), (1, 2, 3));
    assert_eq!(reg.register_type("u".to_string(), "t"), 1);
    assert_eq!(reg.register_function_by_name("u", "f"), 2);
    assert_eq!(reg.register_type("u".to_string(), "t2"), 3);
    assert_eq!(reg.register_function_by_name("u", "t"), 4);
    let q = reg.lookup_type(3).unwrap();
    assert_eq!((q.uri.as_str(), q.name.as_str()), ("u", "t2"));
    assert!(reg.lookup_type(2).is_none());
    assert_eq!(reg.lookup_function(2).unwrap().to_text(), "u#f");
}

#[test]
fn registry_declarations_share_uri_anchors() {
    let mut reg = ExtensionsRegistry::new();
    reg.register_type("u1".to_string(), "t");
    reg.register_function_by_name("u2", "f");
    reg.register_function_by_name("u1", "g");
    let (uris, decls) = reg.to_substrait();
    assert_eq!(uris.len(), 2);
    assert_eq!((uris[0].anchor, uris[0].uri.as_str()), (1, "u1"));
    assert_eq!((uris[1].anchor, uris[1].uri.as_str()), (2, "u2"));
    assert_eq!(decls.len(), 3);
    assert_eq!((decls[0].kind, decls[0].uri_reference, decls[0].anchor, decls[0].name.as_str()), (DeclarationKind::Type, 1, 1, "t"));
    assert_eq!((decls[1].kind, decls[1].uri_reference, decls[1].anchor, decls[1].name.as_str()), (DeclarationKind::Function, 2, 2, "f"));
    assert_eq!((decls[2].kind, decls[2].uri_reference, decls[2].anchor, decls[2].name.as_str()), (DeclarationKind::Function, 1, 3, "g"));
}

#[test]
fn capabilities_follow_the_schema_kind() {
    let empty = SchemaInfo::empty();
    let names = SchemaInfo::new_names().field("a").build();
    let typed = SchemaInfo::new_types().field(types::i32(false)).build();
    let full = SchemaInfo::new_full().field("a", types::i32(false)).build();
    let triple = |s: &SchemaInfo| (s.names_aware(), s.types_aware(), s.len_aware());
    assert_eq!(triple(&empty), (false, false, false));
    assert_eq!(triple(&names), (true, false, true));
    assert_eq!(triple(&typed), (false, true, true));
    assert_eq!(triple(&full), (true, true, true));
}

#[test]
fn full_schema_flattens_in_dfs_order() {
    let flat = full_score_location().to_substrait();
    assert_eq!(flat.names, vec!["score", "location", "x", "y"]);
    assert_eq!(flat.types, vec![types::i32(false), types::fp32(false), types::fp64(true)]);
    assert_eq!(flat.nullability, Nullability::Required);
}

#[test]
fn schema_without_names_flattens_with_positional_names() {
    let schema = SchemaInfo::new_types()
        .field(types::i32(false))
        .nested(true, |b| b.field(types::string(false)))
        .build();
    let flat = schema.to_substrait();
    assert_eq!(flat.names, vec!["field_0", "field_1"]);
    assert_eq!(flat.types, vec![types::i32(false), types::string(false)]);
}

#[test]
fn names_only_schema_types_are_unknown() {
    let mut schema = SchemaInfo::Names(NamesOnlySchema::new(score_location_names()));
    let found = schema.types_dfs(true);
    assert_eq!(found.len(), 4);
    let unknown = found[0].deep_clone();
    assert!(unknown.is_unknown(schema.extensions_registry()));
    assert_eq!(found[1], types::struct_(vec![unknown.deep_clone(), unknown.deep_clone()], true));
    assert_eq!(found[2], unknown);
    assert_eq!(schema.types_dfs(false).len(), 3);
}

#[test]
fn path_parsing_follows_the_grammar() {
    let parsed = parse_path("a.c[3]").unwrap();
    assert_eq!(
        parsed,
        vec![NamedRefElement::Name("a".to_string()), NamedRefElement::Name("c".to_string()), NamedRefElement::ListIndex(3)]
    );
    let parsed = parse_path("a[hello].b").unwrap();
    assert_eq!(
        parsed,
        vec![
            NamedRefElement::Name("a".to_string()),
            NamedRefElement::MapLookup("hello".to_string()),
            NamedRefElement::Name("b".to_string())
        ]
    );
    let parsed = parse_path("x[3][5]").unwrap();
    assert_eq!(parsed, vec![NamedRefElement::Name("x".to_string()), NamedRefElement::ListIndex(3), NamedRefElement::ListIndex(5)]);
    let parsed = parse_path("m[99999999999]").unwrap();
    assert_eq!(parsed[1], NamedRefElement::MapLookup("99999999999".to_string()));
    for bad in ["a[]", "a..b", ".a", "a[3]b", "a.", "", "a[3", "a]b", "a[3]."] {
        assert!(matches!(parse_path(bad), Err(SubstraitExprError::InvalidInput(_))), "{}", bad);
    }
}

#[test]
fn overload_resolution_relaxes_unknown_arguments() {
    let mut schema = SchemaInfo::Names(NamesOnlySchema::new(vec![names_node("u", vec![])]));
    let params = BuilderParams::new_loose();
    let unknown_ref = substrait_expr::builder::RefBuilder::new(&mut schema, &params).resolve_by_name("u").unwrap();
    let function = FunctionDefinition {
        uri: "urn:test".to_string(),
        name: "f".to_string(),
        implementations: vec![binary_impl(types::i32), binary_impl(types::fp64)],
    };
    let args = vec![literal(1_i32), unknown_ref];
    let picked = function.pick_implementation_from_args(&args, &mut schema).unwrap().unwrap();
    assert_eq!(picked.args.len(), 2);
    match &picked.args[0].arg_type {
        ImplementationArgType::Value(t) => assert_eq!(*t, types::i32(false)),
        _ => panic!("expected a value argument"),
    }
    match &picked.args[1].arg_type {
        ImplementationArgType::Value(t) => assert!(t.is_unknown(schema.extensions_registry())),
        _ => panic!("expected a value argument"),
    }
    assert!(picked.output_type.is_unknown(schema.extensions_registry()));

    let no_match = function.pick_implementation_from_args(&[literal(1_i32), string_literal("s")], &mut schema).unwrap();
    assert!(no_match.is_none());
}

#[test]
fn add_expression_checks_the_number_of_names() {
    let schema = SchemaInfo::new_full()
        .nested("pair", false, |b| b.field("a", types::i32(false)))
        .build();
    let mut builder = ExpressionsBuilder::new(schema, BuilderParams::default());
    let pair = builder.fields().resolve_by_name("pair").unwrap();
    let e2 = builder.fields().resolve_by_name("pair").unwrap();
    let result = builder.add_expression("only_one", pair);
    assert!(matches!(result, Err(SubstraitExprError::InvalidInput(_))));
    assert_eq!(builder.expressions.len(), 0);
    builder.add_expression(vec!["pair".to_string(), "a".to_string()], e2).unwrap();
    assert_eq!(builder.expressions.len(), 1);
}

#[test]
fn add_expression_rejects_two_leaf_struct_with_one_name() {
    let schema = SchemaInfo::Empty(EmptySchema::new());
    let mut builder = ExpressionsBuilder::new(schema, BuilderParams::default());
    let two = null_literal(types::struct_(vec![types::i32(false), types::i64(false)], true));
    assert!(builder.add_expression("x", two).is_err());
    let two = null_literal(types::struct_(vec![types::i32(false), types::i64(false)], true));
    builder.add_expression(vec!["s".to_string(), "a".to_string(), "b".to_string()], two).unwrap();
}

#[test]
fn rendering_of_types() {
    let mut reg = ExtensionsRegistry::new();
    let anchor = reg.register_type("my_uri".to_string(), "point");
    assert_eq!(types::decimal(38, 6, true).unwrap().to_human_readable(&reg), "decimal?<38,6>");
    let fixed = types::fixed_char(8, false).unwrap();
    assert_eq!(types::list(fixed, true).to_human_readable(&reg), "list?<fixedchar<8>>");
    let s = types::struct_(vec![types::i32(false), types::string(true)], false);
    assert_eq!(s.to_human_readable(&reg), "struct<i32,string?>");
    let m = types::map(types::string(false), types::i64(true), false);
    assert_eq!(m.to_human_readable(&reg), "map<string,i64?>");
    let user = Type {
        kind: Kind::UserDefined {
            type_reference: anchor,
            type_parameters: vec![types::TypeParameter::Integer(-12), types::TypeParameter::Boolean(true)],
        },
        nullability: Nullability::Nullable,
        variation: NO_VARIATION,
    };
    assert_eq!(user.to_human_readable(&reg), "my_uri#point?<-12,true>");
}

#[test]
fn constructors_reject_out_of_range_parameters() {
    assert!(types::decimal(0, 0, false).is_err());
    assert!(types::decimal(39, 0, false).is_err());
    assert!(types::decimal(10, 11, false).is_err());
    assert!(types::decimal(10, 10, false).is_ok());
    assert!(types::fixed_char(u32::MAX, false).is_err());
    assert!(types::varchar(1 << 31, false).is_err());
    assert!(types::fixed_binary(16, true).is_ok());
}

#[test]
fn kinds_and_counts() {
    assert!(types::i32(true).same_kind(&types::i32(false)));
    assert!(!types::i32(true).same_kind(&types::i64(true)));
    assert!(types::decimal(10, 2, true).unwrap().same_kind(&types::decimal(38, 6, false).unwrap()));
    let nested = types::struct_(vec![types::i32(false), types::struct_(vec![types::i8(false), types::i8(true)], true)], false);
    assert_eq!(nested.num_types(), 5);
    assert_eq!(nested.children().len(), 2);
    assert_eq!(types::i32(false).num_types(), 1);
}

#[test]
fn late_lookup_on_empty_schema() {
    let mut builder = ExpressionsBuilder::new(SchemaInfo::Empty(EmptySchema::new()), BuilderParams::new_loose());
    let e = builder.fields().resolve_by_name("a.b").unwrap();
    match &e {
        Expression::ScalarFunction(f) => {
            assert_eq!(f.arguments, vec![FunctionArgument::Enum("a.b".to_string())]);
            assert!(f.output_type.is_unknown(builder.schema.extensions_registry()));
        }
        _ => panic!("expected a lookup call"),
    }
    let q = builder.schema.extensions_registry().lookup_function(1).unwrap();
    assert_eq!((q.uri.as_str(), q.name.as_str()), (LOOKUP_BY_NAME_FUNC_URI, LOOKUP_BY_NAME_FUNC_NAME));
    let mut strict = ExpressionsBuilder::new(SchemaInfo::Empty(EmptySchema::new()), BuilderParams::default());
    assert!(strict.fields().resolve_by_name("a").is_err());
}

#[test]
fn enum_arguments_must_be_allowed_strings() {
    let extract = FunctionDefinition {
        uri: "urn:test".to_string(),
        name: "extract".to_string(),
        implementations: vec![FunctionImplementation {
            args: vec![
                ImplementationArg {
                    name: "component".to_string(),
                    arg_type: ImplementationArgType::Enum(vec!["YEAR".to_string(), "MONTH".to_string()]),
                },
                value_arg("x", types::date(false)),
            ],
            output_type: types::i64(false),
        }],
    };
    let mut schema = SchemaInfo::new_full().field("d", types::date(false)).build();
    let params = BuilderParams::default();
    let d = substrait_expr::builder::RefBuilder::new(&mut schema, &params).resolve_by_name("d").unwrap();
    let d2 = substrait_expr::builder::RefBuilder::new(&mut schema, &params).resolve_by_name("d").unwrap();
    let call = FunctionsBuilder::new(&mut schema)
        .new_builder(&extract, vec![string_literal("YEAR"), d])
        .build()
        .unwrap();
    match call {
        Expression::ScalarFunction(f) => {
            assert_eq!(f.arguments[0], FunctionArgument::Enum("YEAR".to_string()));
            assert_eq!(f.output_type, types::i64(false));
        }
        _ => panic!("expected a call"),
    }
    let bad = FunctionsBuilder::new(&mut schema).new_builder(&extract, vec![string_literal("DAY"), d2]).build();
    assert!(matches!(bad, Err(SubstraitExprError::InvalidInput(_))));
}

#[test]
fn typed_schema_resolves_by_position() {
    let mut schema = SchemaInfo::new_types()
        .field(types::i32(false))
        .nested(false, |b| b.field(types::fp32(false)).field(types::fp64(true)))
        .build();
    let seg = struct_field(1, Some(Box::new(struct_field(1, None))));
    assert_eq!(schema.resolve_type(&seg).unwrap(), types::fp64(true));
    assert!(schema.resolve_type(&struct_field(2, None)).is_err());
    assert!(schema.resolve_type(&struct_field(0, Some(Box::new(struct_field(0, None))))).is_err());
    let list = ReferenceSegment::ListElement { offset: 0, child: None };
    assert!(schema.resolve_type(&list).is_err());
    let outer = Expression::Selection(FieldReference { root: RootKind::Outer, segment: struct_field(0, None) });
    assert!(outer.output_type(&mut schema).is_err());
}
