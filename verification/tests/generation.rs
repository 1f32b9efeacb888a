use discrimin_ant_proc::assign::{assign_tags, next_offset, TagAssignment};
use discrimin_ant_proc::engine::{generate, Generated, GenerationError};
use discrimin_ant_proc::expr::{Bindings, SymbolicExpr, TagExpr};
use discrimin_ant_proc::mirror::{project, Instance, ProjectionArm};
use discrimin_ant_proc::representation::Representation;
use discrimin_ant_proc::union_def::{
    Pattern, Shape, ShapeKind, UnionDefinition, Variant, Visibility,
};
use discrimin_ant_proc::value::TagValue;

fn lit(v: i128) -> Option<SymbolicExpr> {
    Some(SymbolicExpr::Literal(TagValue::from_signed(v)))
}

fn unit(name: &str, tag: Option<SymbolicExpr>) -> Variant {
    Variant { name: name.to_string(), shape: Shape::Unit, explicit_tag: tag }
}

fn tuple(name: &str, count: usize, tag: Option<SymbolicExpr>) -> Variant {
    Variant { name: name.to_string(), shape: Shape::Positional(count), explicit_tag: tag }
}

fn record(name: &str, fields: &[&str], tag: Option<SymbolicExpr>) -> Variant {
    Variant {
        name: name.to_string(),
        shape: Shape::Named(fields.iter().map(|f| f.to_string()).collect()),
        explicit_tag: tag,
    }
}

fn union(name: &str, visibility: Visibility, variants: Vec<Variant>) -> UnionDefinition {
    UnionDefinition { name: name.to_string(), visibility, variants }
}

fn generated(token: &str, definition: &UnionDefinition) -> Generated {
    match generate(token, definition) {
        Ok(g) => g,
        Err(e) => panic!("{}", e.message(&definition.name)),
    }
}

fn values(assignments: &[TagAssignment]) -> Vec<i128> {
    let env = Bindings::new();
    assignments
        .iter()
        .map(|a| {
            let v = a.tag.evaluate(&env).unwrap();
            if v.negative {
                -(v.magnitude as i128)
            } else {
                v.magnitude as i128
            }
        })
        .collect()
}

fn names(assignments: &[TagAssignment]) -> Vec<String> {
    assignments.iter().map(|a| a.variant_name.clone()).collect()
}

/// The tag as the pair of its baseline and offset; an explicit tag has no offset.
fn parts(tag: &TagExpr) -> (i128, Option<u128>) {
    let number = |e: &SymbolicExpr| match e {
        SymbolicExpr::Literal(v) if v.negative => -(v.magnitude as i128),
        SymbolicExpr::Literal(v) => v.magnitude as i128,
        SymbolicExpr::Symbol(s) => panic!("symbol {s}"),
    };
    match tag {
        TagExpr::Explicit(e) => (number(e), None),
        TagExpr::Offset { baseline, offset } => (number(baseline), Some(*offset)),
    }
}

fn variant_doc(union_name: &str, variant_name: &str) -> String {
    format!(
        "A fieldless version of [{union_name}::{variant_name}], used to extract the variant's discriminant without needing to fully construct it."
    )
}

fn type_doc(union_name: &str) -> String {
    format!(
        "Fieldless representations of [{union_name}]. Used to extract discriminants without fully constructing the enum."
    )
}

fn check_mirror(g: &Generated, union_name: &str, expected_names: &[&str]) {
    assert_eq!(g.mirror.name, format!("{union_name}_"));
    assert_eq!(g.mirror.doc, type_doc(union_name));
    assert_eq!(g.mirror.variants.len(), expected_names.len());
    for (i, name) in expected_names.iter().enumerate() {
        assert_eq!(g.mirror.variants[i].name, *name);
        assert_eq!(g.mirror.variants[i].doc, variant_doc(union_name, name));
        assert_eq!(parts(&g.mirror.variants[i].tag), parts(&g.assignments[i].tag));
    }
}

fn check_lookup(g: &Generated, expected: &[i128], absent: &[i128]) {
    let env = Bindings::new();
    for (i, v) in expected.iter().enumerate() {
        assert_eq!(g.mirror.lookup(TagValue::from_signed(*v), &env), Some(i));
    }
    for v in absent {
        assert_eq!(g.mirror.lookup(TagValue::from_signed(*v), &env), None);
    }
}

fn arm(name: &str, kind: ShapeKind, arity: usize) -> (String, ShapeKind, usize) {
    (name.to_string(), kind, arity)
}

fn arms(g: &Generated) -> Vec<(String, ShapeKind, usize)> {
    g.projection
        .iter()
        .map(|a| match a {
            ProjectionArm::Variant { variant_name, pattern } => {
                (variant_name.clone(), pattern.kind, pattern.arity)
            }
            ProjectionArm::Unreachable => panic!("unreachable arm"),
        })
        .collect()
}

#[test]
#[should_panic = "Unsupported discriminant type `transparent` for `SimpleEnum`. Must be a primitive integer type. See <https://doc.rust-lang.org/reference/type-layout.html#primitive-representations>"]
fn bad_repr_type() {
    let definition =
        union("SimpleEnum", Visibility::Inherited, vec![unit("A", None), unit("B", None)]);
    let _ = generated("transparent", &definition);
}

#[test]
fn fieldless_variants() {
    let definition =
        union("SimpleEnum", Visibility::Inherited, vec![unit("A", None), unit("B", None)]);
    let g = generated("u8", &definition);
    assert_eq!(g.representation, Representation::U8);
    assert_eq!(values(&g.assignments), vec![0, 1]);
}

#[test]
fn assigned_fieldless_variants() {
    let definition = union(
        "SimpleFieldlessEnum",
        Visibility::Public,
        vec![unit("One", lit(1)), unit("Two", None), unit("Five", lit(5)), unit("Six", None)],
    );
    let g = generated("u8", &definition);

    assert_eq!(g.representation.name(), "u8");
    assert!(g.warning.is_none());
    assert_eq!(names(&g.assignments), vec!["One", "Two", "Five", "Six"]);
    let tags: Vec<_> = g.assignments.iter().map(|a| parts(&a.tag)).collect();
    assert_eq!(tags, vec![(1, None), (1, Some(1)), (5, None), (5, Some(1))]);
    assert_eq!(values(&g.assignments), vec![1, 2, 5, 6]);
    assert!(matches!(g.mirror.visibility, Visibility::Public));
    check_mirror(&g, "SimpleFieldlessEnum", &["One", "Two", "Five", "Six"]);
    check_lookup(&g, &[1, 2, 5, 6], &[0, 3, 4, 7, -1, 255]);
    assert_eq!(
        arms(&g),
        vec![
            arm("One", ShapeKind::Unit, 0),
            arm("Two", ShapeKind::Unit, 0),
            arm("Five", ShapeKind::Unit, 0),
            arm("Six", ShapeKind::Unit, 0),
        ]
    );
}

#[test]
fn assigned_variants() {
    let definition = union(
        "ComplexUEnum",
        Visibility::Public,
        vec![
            tuple("One", 1, lit(1)),
            tuple("Two", 1, None),
            record("Five", &["x"], lit(5)),
            record("Six", &["x"], None),
        ],
    );
    let g = generated("u8", &definition);

    let tags: Vec<_> = g.assignments.iter().map(|a| parts(&a.tag)).collect();
    assert_eq!(tags, vec![(1, None), (1, Some(1)), (5, None), (5, Some(1))]);
    assert_eq!(values(&g.assignments), vec![1, 2, 5, 6]);
    check_mirror(&g, "ComplexUEnum", &["One", "Two", "Five", "Six"]);
    check_lookup(&g, &[1, 2, 5, 6], &[0, 3]);
    assert_eq!(
        arms(&g),
        vec![
            arm("One", ShapeKind::Positional, 1),
            arm("Two", ShapeKind::Positional, 1),
            arm("Five", ShapeKind::Named, 1),
            arm("Six", ShapeKind::Named, 1),
        ]
    );
    let six = Instance {
        variant_name: "Six".to_string(),
        pattern: Pattern { kind: ShapeKind::Named, arity: 1 },
    };
    assert_eq!(project(&g.projection, &six), Some(3));
}

#[test]
fn assigned_signed_fieldless_variants() {
    let definition = union(
        "SimpleSignedFieldlessEnum",
        Visibility::Public,
        vec![
            unit("NOne", lit(-1)),
            unit("One", lit(1)),
            unit("Two", None),
            unit("Five", lit(5)),
            unit("Six", None),
            unit("Seven", None),
        ],
    );
    let g = generated("i8", &definition);

    assert_eq!(g.representation, Representation::I8);
    let tags: Vec<_> = g.assignments.iter().map(|a| parts(&a.tag)).collect();
    assert_eq!(
        tags,
        vec![(-1, None), (1, None), (1, Some(1)), (5, None), (5, Some(1)), (5, Some(2))]
    );
    assert_eq!(values(&g.assignments), vec![-1, 1, 2, 5, 6, 7]);
    check_mirror(
        &g,
        "SimpleSignedFieldlessEnum",
        &["NOne", "One", "Two", "Five", "Six", "Seven"],
    );
    check_lookup(&g, &[-1, 1, 2, 5, 6, 7], &[0, 3, 4, 8, -2]);
}

#[test]
fn simple_no_discriminant_enum() {
    let definition = union(
        "SimpleNoDiscriminantEnum",
        Visibility::Public,
        vec![
            unit("Zero", None),
            unit("One", None),
            unit("Two", None),
            unit("Three", lit(3)),
            unit("Four", None),
            unit("Five", None),
        ],
    );
    let g = generated("u16", &definition);

    assert_eq!(g.representation, Representation::U16);
    let tags: Vec<_> = g.assignments.iter().map(|a| parts(&a.tag)).collect();
    assert_eq!(
        tags,
        vec![(0, Some(0)), (0, Some(1)), (0, Some(2)), (3, None), (3, Some(1)), (3, Some(2))]
    );
    assert_eq!(values(&g.assignments), vec![0, 1, 2, 3, 4, 5]);
    check_mirror(
        &g,
        "SimpleNoDiscriminantEnum",
        &["Zero", "One", "Two", "Three", "Four", "Five"],
    );
    check_lookup(&g, &[0, 1, 2, 3, 4, 5], &[6, -1]);
}

fn field_enum() -> UnionDefinition {
    union(
        "FieldEnum",
        Visibility::Public,
        vec![
            tuple("NOne", 1, lit(-1)),
            record("One", &["item"], lit(1)),
            unit("Two", lit(2)),
            tuple("Three", 2, None),
            unit("Five", lit(5)),
            record("Seven", &["item_a", "item_b"], lit(7)),
            unit("Nine", lit(9)),
        ],
    )
}

fn fieldless_enum() -> UnionDefinition {
    union(
        "FieldlessEnum",
        Visibility::Public,
        vec![
            unit("NOne", lit(-1)),
            unit("One", lit(1)),
            unit("Two", lit(2)),
            unit("Three", None),
            unit("Five", lit(5)),
            unit("Seven", lit(7)),
            unit("Nine", lit(9)),
        ],
    )
}

/// The tag of the variant that `instance` is of, by way of the projection.
fn discriminant(g: &Generated, variant_name: &str, kind: ShapeKind, arity: usize) -> i128 {
    let instance =
        Instance { variant_name: variant_name.to_string(), pattern: Pattern { kind, arity } };
    let at = project(&g.projection, &instance).unwrap();
    values(&g.assignments)[at]
}

/// The tag of the mirror variant called `variant_name`.
fn mirror_discriminant(g: &Generated, variant_name: &str) -> i128 {
    let env = Bindings::new();
    let v = g.mirror.variants.iter().find(|v| v.name == variant_name).unwrap();
    let value = v.tag.evaluate(&env).unwrap();
    if value.negative {
        -(value.magnitude as i128)
    } else {
        value.magnitude as i128
    }
}

#[test]
fn test_field_discriminants() {
    let g = generated("i8", &field_enum());
    assert_eq!(discriminant(&g, "NOne", ShapeKind::Positional, 1), -1);
    assert_eq!(discriminant(&g, "One", ShapeKind::Named, 1), 1);
    assert_eq!(discriminant(&g, "Two", ShapeKind::Unit, 0), 2);
    assert_eq!(discriminant(&g, "Three", ShapeKind::Positional, 2), 3);
    assert_eq!(discriminant(&g, "Five", ShapeKind::Unit, 0), 5);
    assert_eq!(discriminant(&g, "Seven", ShapeKind::Named, 2), 7);
    assert_eq!(discriminant(&g, "Nine", ShapeKind::Unit, 0), 9);

    assert_eq!(mirror_discriminant(&g, "NOne"), -1);
    assert_eq!(mirror_discriminant(&g, "One"), 1);
    assert_eq!(mirror_discriminant(&g, "Two"), 2);
    assert_eq!(mirror_discriminant(&g, "Three"), 3);
    assert_eq!(mirror_discriminant(&g, "Five"), 5);
    assert_eq!(mirror_discriminant(&g, "Seven"), 7);
    assert_eq!(mirror_discriminant(&g, "Nine"), 9);
}

#[test]
fn test_fieldless_discriminants() {
    let g = generated("i8", &fieldless_enum());
    assert_eq!(discriminant(&g, "NOne", ShapeKind::Unit, 0), -1);
    assert_eq!(discriminant(&g, "One", ShapeKind::Unit, 0), 1);
    assert_eq!(discriminant(&g, "Two", ShapeKind::Unit, 0), 2);
    assert_eq!(discriminant(&g, "Three", ShapeKind::Unit, 0), 3);
    assert_eq!(discriminant(&g, "Five", ShapeKind::Unit, 0), 5);
    assert_eq!(discriminant(&g, "Seven", ShapeKind::Unit, 0), 7);
    assert_eq!(discriminant(&g, "Nine", ShapeKind::Unit, 0), 9);

    assert_eq!(mirror_discriminant(&g, "NOne"), -1);
    assert_eq!(mirror_discriminant(&g, "One"), 1);
    assert_eq!(mirror_discriminant(&g, "Two"), 2);
    assert_eq!(mirror_discriminant(&g, "Three"), 3);
    assert_eq!(mirror_discriminant(&g, "Five"), 5);
    assert_eq!(mirror_discriminant(&g, "Seven"), 7);
    assert_eq!(mirror_discriminant(&g, "Nine"), 9);
}

fn implicit_run_after_zero(length: usize) -> Vec<Variant> {
    let mut variants = vec![unit("Base", lit(0))];
    for i in 0..length {
        variants.push(unit(&format!("V{i}"), None));
    }
    variants
}

#[test]
fn signed_byte_run_of_127_succeeds() {
    let variants = implicit_run_after_zero(127);
    let list = assign_tags(Representation::I8, &variants).unwrap();
    assert_eq!(list.len(), 128);
    assert_eq!(values(&list), (0..=127).collect::<Vec<i128>>());
    assert_eq!(parts(&list[127].tag), (0, Some(127)));
}

#[test]
fn signed_byte_run_fails_at_the_128th() {
    let variants = implicit_run_after_zero(254);
    let e = assign_tags(Representation::I8, &variants).unwrap_err();
    assert_eq!(e.variant_index, 128);
    assert_eq!(e.variant_name, "V127");
    let shorter = implicit_run_after_zero(128);
    assert_eq!(assign_tags(Representation::I8, &shorter).unwrap_err().variant_index, 128);
}

#[test]
fn overflow_is_counted_from_the_baseline_not_its_value() {
    let mut variants = vec![unit("Base", lit(5))];
    for i in 0..251 {
        variants.push(unit(&format!("V{i}"), None));
    }
    let list = assign_tags(Representation::U8, &variants).unwrap();
    assert_eq!(parts(&list[251].tag), (5, Some(251)));
    for i in 251..256 {
        variants.push(unit(&format!("V{i}"), None));
    }
    assert_eq!(assign_tags(Representation::U8, &variants).unwrap_err().variant_index, 256);
}

#[test]
fn a_declared_tag_restarts_the_count() {
    let mut variants = implicit_run_after_zero(127);
    variants.push(unit("Again", lit(-128)));
    for i in 0..127 {
        variants.push(unit(&format!("W{i}"), None));
    }
    let list = assign_tags(Representation::I8, &variants).unwrap();
    assert_eq!(list.len(), 256);
    assert_eq!(parts(&list[128].tag), (-128, None));
    assert_eq!(parts(&list[255].tag), (-128, Some(127)));
    assert_eq!(values(&list)[255], -1);
}

#[test]
fn leading_run_may_use_every_value_of_a_byte() {
    let mut variants = Vec::new();
    for i in 0..256 {
        variants.push(unit(&format!("V{i}"), None));
    }
    let list = assign_tags(Representation::U8, &variants).unwrap();
    assert_eq!(values(&list), (0..=255).collect::<Vec<i128>>());
    variants.push(unit("Last", None));
    let e = assign_tags(Representation::U8, &variants).unwrap_err();
    assert_eq!(e.variant_index, 256);
    assert_eq!(e.variant_name, "Last");
}

#[test]
fn all_explicit_literals_are_kept() {
    let variants = vec![unit("A", lit(200)), unit("B", lit(-7)), unit("C", lit(0)), unit("D", lit(200))];
    let list = assign_tags(Representation::I16, &variants).unwrap();
    let tags: Vec<_> = list.iter().map(|a| parts(&a.tag)).collect();
    assert_eq!(tags, vec![(200, None), (-7, None), (0, None), (200, None)]);
    assert_eq!(values(&list), vec![200, -7, 0, 200]);
}

#[test]
fn all_implicit_count_from_zero() {
    let variants: Vec<Variant> = (0..10).map(|i| unit(&format!("V{i}"), None)).collect();
    let list = assign_tags(Representation::U32, &variants).unwrap();
    assert_eq!(values(&list), (0..10).collect::<Vec<i128>>());
}

#[test]
fn implicit_run_follows_its_baseline() {
    let variants = vec![
        unit("A", None),
        unit("T", lit(40)),
        unit("B", None),
        unit("C", None),
        unit("D", None),
        unit("U", lit(-3)),
        unit("E", None),
    ];
    let list = assign_tags(Representation::I32, &variants).unwrap();
    assert_eq!(values(&list), vec![0, 40, 41, 42, 43, -3, -2]);
}

#[test]
fn assignment_twice_gives_the_same() {
    let definition = field_enum();
    let first = generated("i8", &definition);
    let second = generated("i8", &definition);
    assert_eq!(format!("{:?}", first), format!("{:?}", second));
    let failing = implicit_run_after_zero(200);
    let a = assign_tags(Representation::I8, &failing).unwrap_err();
    let b = assign_tags(Representation::I8, &failing).unwrap_err();
    assert_eq!(format!("{:?}", a), format!("{:?}", b));
}

#[test]
fn lookup_round_trips_with_projection() {
    let definition = field_enum();
    let g = generated("i8", &definition);
    let env = Bindings::new();
    for (i, variant) in definition.variants.iter().enumerate() {
        let value = g.assignments[i].tag.evaluate(&env).unwrap();
        let instance =
            Instance { variant_name: variant.name.clone(), pattern: variant.shape.pattern() };
        assert_eq!(g.mirror.lookup(value, &env), Some(i));
        assert_eq!(project(&g.projection, &instance), Some(i));
    }
}

#[test]
fn lookup_of_unassigned_value_finds_nothing() {
    let g = generated("i8", &field_enum());
    let env = Bindings::new();
    for v in [0i128, 4, 6, 8, 10, -2, 127, -128] {
        assert_eq!(g.mirror.lookup(TagValue::from_signed(v), &env), None);
    }
    assert_eq!(g.mirror.lookup(TagValue::from_unsigned(u128::MAX), &env), None);
}

#[test]
fn lookup_takes_the_first_of_equal_tags() {
    let definition = union(
        "Twice",
        Visibility::Inherited,
        vec![unit("A", lit(1)), unit("B", lit(0)), unit("C", None)],
    );
    let g = generated("u8", &definition);
    let env = Bindings::new();
    assert_eq!(values(&g.assignments), vec![1, 0, 1]);
    assert_eq!(g.mirror.lookup(TagValue::from_signed(1), &env), Some(0));
    let c = Instance { variant_name: "C".to_string(), pattern: Pattern { kind: ShapeKind::Unit, arity: 0 } };
    assert_eq!(project(&g.projection, &c), Some(2));
}

#[test]
fn zero_variant_union() {
    let definition = union("Never", Visibility::Restricted("crate".to_string()), vec![]);
    let g = generated("u8", &definition);
    assert!(g.assignments.is_empty());
    assert_eq!(g.mirror.name, "Never_");
    assert!(g.mirror.variants.is_empty());
    assert!(matches!(&g.mirror.visibility, Visibility::Restricted(scope) if scope == "crate"));
    let env = Bindings::new();
    for v in [0i128, 1, -1, 255] {
        assert_eq!(g.mirror.lookup(TagValue::from_signed(v), &env), None);
    }
    assert_eq!(g.projection.len(), 1);
    assert!(matches!(g.projection[0], ProjectionArm::Unreachable));
    let any = Instance { variant_name: "A".to_string(), pattern: Pattern { kind: ShapeKind::Unit, arity: 0 } };
    assert_eq!(project(&g.projection, &any), None);
}

#[test]
fn projection_tells_shapes_apart() {
    let g = generated("i8", &field_enum());
    let instance = |name: &str, kind, arity| Instance {
        variant_name: name.to_string(),
        pattern: Pattern { kind, arity },
    };
    assert_eq!(project(&g.projection, &instance("Three", ShapeKind::Positional, 2)), Some(3));
    assert_eq!(project(&g.projection, &instance("Three", ShapeKind::Positional, 1)), None);
    assert_eq!(project(&g.projection, &instance("Three", ShapeKind::Named, 2)), None);
    assert_eq!(project(&g.projection, &instance("Three", ShapeKind::Unit, 0)), None);
    assert_eq!(project(&g.projection, &instance("Four", ShapeKind::Unit, 0)), None);
    assert_eq!(project(&g.projection, &instance("Seven", ShapeKind::Named, 2)), Some(5));
}

#[test]
fn symbolic_tags_are_carried_unevaluated() {
    let base = || Some(SymbolicExpr::Symbol("limits::BASE".to_string()));
    let definition = union(
        "Codes",
        Visibility::Public,
        vec![unit("First", base()), unit("Second", None), unit("Third", None)],
    );
    let g = generated("u32", &definition);
    assert!(matches!(&g.assignments[0].tag, TagExpr::Explicit(SymbolicExpr::Symbol(s)) if s == "limits::BASE"));
    assert!(matches!(
        &g.assignments[2].tag,
        TagExpr::Offset { baseline: SymbolicExpr::Symbol(s), offset: 2 } if s == "limits::BASE"
    ));
    assert!(matches!(
        &g.mirror.variants[1].tag,
        TagExpr::Offset { baseline: SymbolicExpr::Symbol(s), offset: 1 } if s == "limits::BASE"
    ));

    let mut env = Bindings::new();
    assert_eq!(g.assignments[1].tag.evaluate(&env), None);
    assert_eq!(g.mirror.lookup(TagValue::from_signed(11), &env), None);
    env.bind("limits::BASE", TagValue::from_signed(10));
    assert_eq!(g.assignments[1].tag.evaluate(&env), Some(TagValue::from_signed(11)));
    assert_eq!(g.mirror.lookup(TagValue::from_signed(10), &env), Some(0));
    assert_eq!(g.mirror.lookup(TagValue::from_signed(12), &env), Some(2));
    assert_eq!(g.mirror.lookup(TagValue::from_signed(13), &env), None);
    env.bind("limits::BASE", TagValue::from_signed(-1));
    assert_eq!(g.mirror.lookup(TagValue::from_signed(0), &env), Some(1));
    assert_eq!(g.mirror.lookup(TagValue::from_signed(12), &env), None);
}

#[test]
fn repeated_variant_name_is_malformed() {
    let definition = union(
        "Twice",
        Visibility::Inherited,
        vec![unit("A", None), unit("B", None), unit("A", None), unit("B", None)],
    );
    assert_eq!(definition.first_repeated_name(), Some(2));
    match generate("u8", &definition) {
        Err(GenerationError::Malformed(e)) => {
            assert_eq!(e.variant_index, 2);
            assert_eq!(e.variant_name, "A");
            assert_eq!(e.message("Twice"), "The variant `A` is defined more than once in `Twice`");
        }
        other => panic!("{other:?}"),
    }
    assert_eq!(
        generate("u8", &definition).unwrap_err().message("Twice"),
        "The variant `A` is defined more than once in `Twice`"
    );
    assert!(matches!(generate("u9", &definition), Err(GenerationError::Configuration(_))));
    assert_eq!(field_enum().first_repeated_name(), None);
}

#[test]
fn overflow_aborts_generation() {
    let definition = union("Wide", Visibility::Inherited, implicit_run_after_zero(128));
    match generate("i8", &definition) {
        Err(GenerationError::Overflow(e)) => {
            assert_eq!(e.variant_index, 128);
            assert_eq!(e.variant_name, "V127");
            assert_eq!(e.representation, Representation::I8);
            assert_eq!(
                e.message("Wide"),
                "Too many consecutive implicit variants following a given baseline for the chosen representation `i8`: `Wide::V127` does not fit"
            );
        }
        other => panic!("{other:?}"),
    }
    assert!(generate("u8", &definition).is_ok());
    assert!(generate("i16", &definition).is_ok());
}

#[test]
fn offsets_step_by_one_up_to_the_ceiling() {
    assert_eq!(next_offset(Representation::U8, 0), Some(1));
    assert_eq!(next_offset(Representation::U8, 254), Some(255));
    assert_eq!(next_offset(Representation::U8, 255), None);
    assert_eq!(next_offset(Representation::I8, 126), Some(127));
    assert_eq!(next_offset(Representation::I8, 127), None);
    assert_eq!(next_offset(Representation::U16, 65535), None);
    assert_eq!(next_offset(Representation::I64, i64::MAX as u128 - 1), Some(i64::MAX as u128));
    assert_eq!(next_offset(Representation::I64, i64::MAX as u128), None);
    assert_eq!(next_offset(Representation::U128, u128::MAX - 1), Some(u128::MAX));
    assert_eq!(next_offset(Representation::U128, u128::MAX), None);
    assert_eq!(next_offset(Representation::I128, i128::MAX as u128), None);
    assert_eq!(next_offset(Representation::Usize, usize::MAX as u128), None);
    assert_eq!(next_offset(Representation::Isize, isize::MAX as u128 - 1), Some(isize::MAX as u128));
}

#[test]
fn a_definition_is_made_only_of_distinct_names() {
    let made = UnionDefinition::new(
        "Pair".to_string(),
        Visibility::Public,
        vec![unit("Left", None), tuple("Right", 1, lit(4))],
    )
    .unwrap();
    assert_eq!(made.name, "Pair");
    assert!(matches!(made.visibility, Visibility::Public));
    assert_eq!(made.variants.len(), 2);
    assert_eq!(made.variants[1].name, "Right");
    assert_eq!(made.first_repeated_name(), None);

    let e = UnionDefinition::new(
        "Pair".to_string(),
        Visibility::Public,
        vec![unit("Left", None), unit("Right", None), tuple("Left", 1, None)],
    )
    .unwrap_err();
    assert_eq!(e.variant_index, 2);
    assert_eq!(e.variant_name, "Left");
}

#[test]
fn configuration_error_names_token_and_union() {
    let definition = union("SimpleEnum", Visibility::Inherited, vec![unit("A", None)]);
    let e = generate("transparent", &definition).unwrap_err();
    assert_eq!(
        e.message("SimpleEnum"),
        "Unsupported discriminant type `transparent` for `SimpleEnum`. Must be a primitive integer type. See <https://doc.rust-lang.org/reference/type-layout.html#primitive-representations>"
    );
}

#[test]
fn platform_width_generation_carries_the_warning() {
    let definition = union("Sized", Visibility::Inherited, vec![unit("A", None), unit("B", lit(-4))]);
    let g = generated("isize", &definition);
    assert_eq!(g.representation, Representation::Isize);
    assert_eq!(
        g.warning.as_deref(),
        Some("The isize discriminant type varies in size between architectures. It is recommended to use fixed-length data types.")
    );
    assert_eq!(values(&g.assignments), vec![0, -4]);
}
