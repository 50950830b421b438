use cs_derive::classifier::classify_type;
use cs_derive::descriptor::{
    Error, FieldDescriptor, GenericParam, RawData, RawField, RawInput, RawType, SemanticKind,
    Shape,
};
use cs_derive::emitter::Term;
use cs_derive::eval::{eval_binding, eval_plan, Engine, FieldValue};
use cs_derive::generator::{generate, Generated};
use cs_derive::reader::read_descriptor;

fn path(leaf: &str) -> RawType {
    RawType::Path { leaf: leaf.to_string() }
}

fn array(leaf: &str, len: usize) -> RawType {
    RawType::Array { elem: Box::new(path(leaf)), len }
}

fn field(name: &str, ty: RawType) -> RawField {
    RawField { name: Some(name.to_string()), ty }
}

fn record(name: &str, generics: Vec<GenericParam>, fields: Vec<RawField>) -> RawInput {
    RawInput { name: name.to_string(), generics, data: RawData::Record { fields } }
}

fn engine() -> Engine {
    Engine { modulus: 7 }
}

fn scalar(x: u64) -> FieldValue {
    FieldValue::Scalar(x)
}

fn arr(xs: Vec<u64>) -> FieldValue {
    FieldValue::Array(xs)
}

fn gen_ok(input: &RawInput) -> Generated {
    match generate(input) {
        Ok(g) => g,
        Err(e) => panic!("generation failed: {:?}", e),
    }
}

#[test]
fn scenario_identical_record_is_equal() {
    let input = record("Foo", vec![], vec![field("a", path("u64")), field("b", array("u64", 3))]);
    let g = gen_ok(&input);
    let a = vec![scalar(5), arr(vec![1, 2, 3])];
    let b = vec![scalar(5), arr(vec![1, 2, 3])];
    assert!(eval_plan(&g.plan, &engine(), &a, &b));
}

#[test]
fn scenario_one_array_element_differs() {
    let input = record("Foo", vec![], vec![field("a", path("u64")), field("b", array("u64", 3))]);
    let g = gen_ok(&input);
    let a = vec![scalar(5), arr(vec![1, 2, 3])];
    let b = vec![scalar(5), arr(vec![1, 9, 3])];
    assert!(!eval_plan(&g.plan, &engine(), &a, &b));
    assert_eq!(g.plan.bindings.len(), 1);
    assert!(!eval_binding(&g.plan.bindings[0], &engine(), &a, &b));
}

#[test]
fn scenario_boolean_scalar_compares_context_aware() {
    let input = record("Foo", vec![], vec![field("flag", path("Boolean"))]);
    let g = gen_ok(&input);
    assert_eq!(g.descriptor.fields[0].kind, SemanticKind::ContextDependent);
    assert_eq!(g.plan.terms[0], Term::Scalar { field_idx: 0, ctx: true });
    // 1 and 8 differ natively but are congruent modulo 7: only the
    // context-aware comparison accepts them.
    let a = vec![scalar(1)];
    let b = vec![scalar(8)];
    assert!(eval_plan(&g.plan, &engine(), &a, &b));
    assert!(g.text.contains("CircuitEq::<E>::eq(&self.flag, &other.flag)"));
}

#[test]
fn scenario_boolean_array_compares_context_aware_elementwise() {
    let input = record("Foo", vec![], vec![field("bits", array("Boolean", 3))]);
    let g = gen_ok(&input);
    assert_eq!(g.descriptor.fields[0].kind, SemanticKind::ContextDependent);
    let a = vec![arr(vec![1, 2, 3])];
    let b = vec![arr(vec![8, 9, 10])];
    assert!(eval_plan(&g.plan, &engine(), &a, &b));
    assert!(g.text.contains("map(|(t, o)| CircuitEq::<E>::eq(t, &o))"));
    // One element no longer congruent makes the binding, and the result, false.
    let c = vec![arr(vec![8, 9, 11])];
    assert!(!eval_plan(&g.plan, &engine(), &a, &c));
}

#[test]
fn scenario_multi_variant_is_rejected() {
    let input = RawInput {
        name: "Foo".to_string(),
        generics: vec![],
        data: RawData::MultiVariant,
    };
    assert_eq!(generate(&input).err(), Some(Error::UnsupportedContainerShape));
}

#[test]
fn scenario_reference_field_is_rejected() {
    let input = record("Foo", vec![], vec![field("a", RawType::Reference)]);
    assert_eq!(generate(&input).err(), Some(Error::UnsupportedFieldForm));
}

#[test]
fn scenario_slice_field_is_rejected() {
    let input = record("Foo", vec![], vec![field("a", path("u64")), field("b", RawType::Slice)]);
    assert_eq!(generate(&input).err(), Some(Error::UnsupportedFieldForm));
}

#[test]
fn tuple_record_is_rejected() {
    let input =
        RawInput { name: "Foo".to_string(), generics: vec![], data: RawData::TupleRecord };
    assert_eq!(generate(&input).err(), Some(Error::UnsupportedContainerShape));
}

#[test]
fn empty_record_is_rejected() {
    let input = record("Foo", vec![], vec![]);
    assert_eq!(generate(&input).err(), Some(Error::UnsupportedContainerShape));
}

#[test]
fn unnamed_field_is_rejected() {
    let input = record(
        "Foo",
        vec![],
        vec![field("a", path("u64")), RawField { name: None, ty: path("u64") }],
    );
    assert_eq!(generate(&input).err(), Some(Error::MissingFieldIdentifier));
}

#[test]
fn first_violation_wins() {
    // The unnamed field comes before the unsupported one.
    let input = record(
        "Foo",
        vec![],
        vec![RawField { name: None, ty: path("u64") }, field("b", RawType::Tuple)],
    );
    assert_eq!(generate(&input).err(), Some(Error::MissingFieldIdentifier));
    // And the other way round.
    let input = record(
        "Foo",
        vec![],
        vec![field("a", RawType::Function), RawField { name: None, ty: path("u64") }],
    );
    assert_eq!(generate(&input).err(), Some(Error::UnsupportedFieldForm));
}

#[test]
fn plain_scalars_are_native_conjunction() {
    let input = record(
        "Foo",
        vec![],
        vec![field("a", path("u64")), field("b", path("u32")), field("c", path("u8"))],
    );
    let g = gen_ok(&input);
    let a = vec![scalar(1), scalar(2), scalar(3)];
    assert!(eval_plan(&g.plan, &engine(), &a, &a.clone()));
    // Congruent modulo 7 is not enough for a plain field: native equality decides.
    let b = vec![scalar(8), scalar(2), scalar(3)];
    assert!(!eval_plan(&g.plan, &engine(), &a, &b));
}

#[test]
fn any_single_differing_field_falsifies() {
    let input = record(
        "Foo",
        vec![],
        vec![field("a", path("u64")), field("b", path("u64")), field("c", path("u64"))],
    );
    let g = gen_ok(&input);
    let base = vec![scalar(1), scalar(2), scalar(3)];
    let first = vec![scalar(9), scalar(2), scalar(3)];
    let middle = vec![scalar(1), scalar(9), scalar(3)];
    let last = vec![scalar(1), scalar(2), scalar(9)];
    assert!(!eval_plan(&g.plan, &engine(), &base, &first));
    assert!(!eval_plan(&g.plan, &engine(), &base, &middle));
    assert!(!eval_plan(&g.plan, &engine(), &base, &last));
    assert!(eval_plan(&g.plan, &engine(), &base, &base.clone()));
}

#[test]
fn array_binding_true_iff_all_elements_equal() {
    let input = record("Foo", vec![], vec![field("b", array("u64", 4))]);
    let g = gen_ok(&input);
    let a = vec![arr(vec![1, 2, 3, 4])];
    let same = vec![arr(vec![1, 2, 3, 4])];
    let one_off = vec![arr(vec![1, 2, 9, 4])];
    assert!(eval_binding(&g.plan.bindings[0], &engine(), &a, &same));
    assert!(!eval_binding(&g.plan.bindings[0], &engine(), &a, &one_off));
}

#[test]
fn existing_engine_parameter_is_not_duplicated() {
    let input = record(
        "Foo",
        vec![
            GenericParam { name: "E".to_string(), engine_bound: true },
            GenericParam { name: "T".to_string(), engine_bound: false },
        ],
        vec![field("a", path("u64"))],
    );
    let g = gen_ok(&input);
    assert!(!g.inserted);
    assert_eq!(g.header.len(), 2);
    assert_eq!(g.header.iter().filter(|p| p.engine_bound).count(), 1);
    // The subject type keeps its own declared engine parameter.
    assert_eq!(g.subject.len(), 2);
    assert_eq!(g.subject[0].name, "E");
}

#[test]
fn missing_engine_parameter_is_synthesized_and_prepended() {
    let input = record(
        "Foo",
        vec![GenericParam { name: "T".to_string(), engine_bound: false }],
        vec![field("a", path("u64"))],
    );
    let g = gen_ok(&input);
    assert!(g.inserted);
    assert_eq!(g.header.len(), 2);
    assert_eq!(g.header[0].name, "E");
    assert!(g.header[0].engine_bound);
    assert_eq!(g.header.iter().filter(|p| p.engine_bound).count(), 1);
    // The subject instantiation omits the synthesized parameter.
    assert_eq!(g.subject.len(), 1);
    assert_eq!(g.subject[0].name, "T");
}

#[test]
fn declared_engine_parameter_name_is_used() {
    let input = record(
        "Foo",
        vec![GenericParam { name: "F".to_string(), engine_bound: true }],
        vec![field("flag", path("Boolean"))],
    );
    let g = gen_ok(&input);
    assert!(!g.inserted);
    assert!(g.text.starts_with("impl<F: Engine, > CircuitEq<F> for Foo<F, > {"));
    assert!(g.text.contains("CircuitEq::<F>::eq(&self.flag, &other.flag)"));
}

#[test]
fn generated_text_is_exact() {
    let input = record("Foo", vec![], vec![field("a", path("u64")), field("b", array("u64", 3))]);
    let g = gen_ok(&input);
    let expected = "impl<E: Engine, > CircuitEq<E> for Foo<> {\n    fn eq(&self, other: &Self) -> bool {\n        let b = self.b.iter().zip(other.b).map(|(t, o)| t.eq(&o)).all(|r| r);\n        self.a.eq(&other.a) && b\n    }\n}\n";
    assert_eq!(g.text, expected);
}

#[test]
fn generated_text_keeps_declared_parameters() {
    let input = record(
        "Bar",
        vec![GenericParam { name: "T".to_string(), engine_bound: false }],
        vec![field("x", path("T"))],
    );
    let g = gen_ok(&input);
    let expected = "impl<E: Engine, T, > CircuitEq<E> for Bar<T, > {\n    fn eq(&self, other: &Self) -> bool {\n        self.x.eq(&other.x)\n    }\n}\n";
    assert_eq!(g.text, expected);
}

#[test]
fn error_messages_are_descriptive() {
    assert_eq!(
        Error::UnsupportedContainerShape.message(),
        "only non-empty data structs with named fields are allowed"
    );
    assert_eq!(Error::MissingFieldIdentifier.message(), "a field ident");
    assert_eq!(Error::UnsupportedFieldForm.message(), "only array and path types are allowed");
}

#[test]
fn classifier_shapes() {
    match classify_type(&path("u64")) {
        Ok(Shape::Scalar { leaf }) => assert_eq!(leaf, "u64"),
        other => panic!("unexpected classification: {:?}", other),
    }
    match classify_type(&array("Boolean", 5)) {
        Ok(Shape::FixedArray { leaf, len }) => {
            assert_eq!(leaf, "Boolean");
            assert_eq!(len, 5);
        },
        other => panic!("unexpected classification: {:?}", other),
    }
    assert_eq!(classify_type(&RawType::Tuple).err(), Some(Error::UnsupportedFieldForm));
    assert_eq!(classify_type(&RawType::Other).err(), Some(Error::UnsupportedFieldForm));
}

#[test]
fn reader_preserves_declaration_order() {
    let input = record(
        "Foo",
        vec![],
        vec![field("z", path("u64")), field("a", array("Boolean", 2)), field("m", path("u8"))],
    );
    let d = read_descriptor(&input).unwrap();
    let names: Vec<&str> = d.fields.iter().map(|f| f.name.as_str()).collect();
    assert_eq!(names, vec!["z", "a", "m"]);
    assert!(matches!(d.fields[0].shape, Shape::Scalar { .. }));
    assert!(matches!(d.fields[1].shape, Shape::FixedArray { .. }));
    assert_eq!(d.fields[1].kind, SemanticKind::ContextDependent);
    assert_eq!(d.fields[0].kind, SemanticKind::Plain);
}

#[test]
fn nested_array_leaf_decides_kind() {
    let nested = RawType::Array {
        elem: Box::new(RawType::Array { elem: Box::new(path("Boolean")), len: 2 }),
        len: 3,
    };
    let input = record("Foo", vec![], vec![RawField { name: Some("grid".to_string()), ty: nested }]);
    let g = gen_ok(&input);
    assert_eq!(g.descriptor.fields[0].kind, SemanticKind::ContextDependent);
    assert!(matches!(g.descriptor.fields[0].shape, Shape::FixedArray { .. }));
}

#[test]
fn descriptor_field_type_names_survive() {
    let input = record("Foo", vec![], vec![field("a", path("Num"))]);
    let d = read_descriptor(&input).unwrap();
    match &d.fields[0].shape {
        Shape::Scalar { leaf } => assert_eq!(leaf, "Num"),
        other => panic!("unexpected shape: {:?}", other),
    }
    let fd: &FieldDescriptor = &d.fields[0];
    assert_eq!(fd.name, "a");
}
