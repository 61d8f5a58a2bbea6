use olap_schema::{
    Aggregator, Annotation, Cube, Database, CalculatedMember, Dimension, DimensionUsage,
    Hierarchy, Level, Measure, NamedSet, Property, Schema, Source,
};

fn parse(doc: &str) -> elementtree::Element {
    elementtree::Element::from_reader(doc.as_bytes()).unwrap()
}

fn child(e: &elementtree::Element, i: usize) -> &elementtree::Element {
    e.children().nth(i).unwrap()
}

fn simple_cube(name: &str) -> Cube {
    Cube::new(name.to_owned(), Source::new_table("facts".to_owned(), None))
}

fn schema_with_measure(aggregator: Aggregator) -> String {
    let mut schema = Schema::new("s".to_owned());
    let mut cube = simple_cube("c");
    cube.add_measure(Measure::new("m".to_owned(), "col".to_owned(), aggregator, true));
    schema.add_cube(cube);
    schema.xml_render()
}

#[test]
fn empty_schema_exact_document() {
    let schema = Schema::new("s".to_owned());
    assert_eq!(
        schema.xml_render(),
        "<?xml version=\"1.0\" encoding=\"utf-8\"?><Schema name=\"s\" />"
    );
}

#[test]
fn render_twice_identical() {
    let mut schema = Schema::new("us_sales".to_owned());
    let mut cube = simple_cube("eastern_sales");
    cube.add_annotation(Annotation::new("states".to_owned(), "MA,NY".to_owned()));
    cube.add_measure(Measure::new(
        "dollars".to_owned(),
        "mea_dollars".to_owned(),
        Aggregator::Sum,
        true,
    ));
    schema.add_cube(cube);
    let first = schema.xml_render();
    let second = schema.xml_render();
    assert_eq!(first, second);
}

#[test]
fn annotations_omitted_when_none_added() {
    let mut schema = Schema::new("s".to_owned());
    schema.add_cube(simple_cube("c"));
    let root = parse(&schema.xml_render());
    let cube = child(&root, 0);
    assert_eq!(cube.tag().name(), "Cube");
    // Only the mandatory source: no Annotations element anywhere on the cube.
    assert_eq!(cube.child_count(), 1);
    assert_eq!(child(cube, 0).tag().name(), "Table");
}

#[test]
fn annotations_in_insertion_order() {
    let mut schema = Schema::new("s".to_owned());
    let mut cube = simple_cube("c");
    cube.add_annotation(Annotation::new("b".to_owned(), "2".to_owned()));
    cube.add_annotation(Annotation::new("a".to_owned(), "1".to_owned()));
    cube.add_annotation(Annotation::new("b".to_owned(), "3".to_owned()));
    schema.add_cube(cube);
    let root = parse(&schema.xml_render());
    let cube = child(&root, 0);
    let annotations = child(cube, 0);
    assert_eq!(annotations.tag().name(), "Annotations");
    assert_eq!(annotations.child_count(), 3);
    let expected = [("b", "2"), ("a", "1"), ("b", "3")];
    for (i, (name, value)) in expected.iter().enumerate() {
        let entry = child(annotations, i);
        assert_eq!(entry.tag().name(), "Annotation");
        assert_eq!(entry.get_attr("name"), Some(*name));
        assert_eq!(entry.text(), *value);
    }
}

#[test]
fn cube_child_order_fixed_across_mixed_adds() {
    // Children of different kinds are added in a scrambled order; the
    // document order must still follow the fixed sequence.
    let mut schema = Schema::new("s".to_owned());
    let mut cube = simple_cube("c");
    cube.add_named_set(NamedSet::new("ns".to_owned(), "f".to_owned(), true));
    cube.add_calculated_member(CalculatedMember::new(
        "cm".to_owned(),
        "d".to_owned(),
        "f".to_owned(),
        false,
    ));
    cube.add_measure(Measure::new("m".to_owned(), "col".to_owned(), Aggregator::Count, true));
    cube.add_dimension_usage(DimensionUsage::new(
        "du".to_owned(),
        "shared".to_owned(),
        "fk".to_owned(),
    ));
    cube.add_dimension(Dimension::new("dim".to_owned()));
    cube.add_annotation(Annotation::new("n".to_owned(), "v".to_owned()));
    schema.add_cube(cube);
    let root = parse(&schema.xml_render());
    let cube = child(&root, 0);
    let tags: Vec<&str> = cube.children().map(|c| c.tag().name()).collect();
    assert_eq!(
        tags,
        vec![
            "Annotations",
            "Table",
            "Dimension",
            "DimensionUsage",
            "Measure",
            "CalculatedMember",
            "NamedSet",
        ]
    );
}

#[test]
fn measures_keep_insertion_order() {
    let mut schema = Schema::new("s".to_owned());
    let mut cube = simple_cube("c");
    cube.add_measure(Measure::new("first".to_owned(), "c1".to_owned(), Aggregator::Sum, true));
    cube.add_measure(Measure::new("second".to_owned(), "c2".to_owned(), Aggregator::Max, true));
    schema.add_cube(cube);
    let root = parse(&schema.xml_render());
    let cube = child(&root, 0);
    assert_eq!(child(cube, 1).get_attr("name"), Some("first"));
    assert_eq!(child(cube, 2).get_attr("name"), Some("second"));
}

#[test]
fn aggregator_sum_attribute_and_no_expression() {
    let root = parse(&schema_with_measure(Aggregator::Sum));
    let measure = child(child(&root, 0), 1);
    assert_eq!(measure.tag().name(), "Measure");
    assert_eq!(measure.get_attr("aggregator"), Some("sum"));
    assert_eq!(measure.get_attr("visible"), Some("true"));
    assert_eq!(measure.child_count(), 0);
}

#[test]
fn aggregator_avg_empty_attribute() {
    let root = parse(&schema_with_measure(Aggregator::Avg));
    let measure = child(child(&root, 0), 1);
    assert_eq!(measure.get_attr("aggregator"), Some(""));
    assert_eq!(measure.child_count(), 0);
}

#[test]
fn aggregator_distinct_count_attribute() {
    let root = parse(&schema_with_measure(Aggregator::DistinctCount));
    let measure = child(child(&root, 0), 1);
    assert_eq!(measure.get_attr("aggregator"), Some("distinct-count"));
}

#[test]
fn aggregator_median_postgres_expression() {
    let root = parse(&schema_with_measure(Aggregator::Median {
        database: Database::Postgres,
        formula: "f".to_owned(),
    }));
    let measure = child(child(&root, 0), 1);
    assert_eq!(measure.get_attr("aggregator"), Some("None"));
    assert_eq!(measure.child_count(), 1);
    let expression = child(measure, 0);
    assert_eq!(expression.tag().name(), "MeasureExpression");
    assert_eq!(expression.child_count(), 1);
    let sql = child(expression, 0);
    assert_eq!(sql.tag().name(), "SQL");
    assert_eq!(sql.get_attr("dialect"), Some("postgres"));
    assert_eq!(sql.text(), "f");
}

#[test]
fn aggregator_median_monetdb_dialect() {
    let root = parse(&schema_with_measure(Aggregator::Median {
        database: Database::MonetDb,
        formula: "median(x)".to_owned(),
    }));
    let sql = child(child(child(child(&root, 0), 1), 0), 0);
    assert_eq!(sql.get_attr("dialect"), Some("monetdb"));
    assert_eq!(sql.text(), "median(x)");
}

#[test]
fn aggregator_custom_expression_without_dialect() {
    let root = parse(&schema_with_measure(Aggregator::Custom { formula: "avg(x)".to_owned() }));
    let measure = child(child(&root, 0), 1);
    assert_eq!(measure.get_attr("aggregator"), Some("None"));
    let sql = child(child(measure, 0), 0);
    assert_eq!(sql.get_attr("dialect"), None);
    assert_eq!(sql.text(), "avg(x)");
}

#[test]
fn measure_expression_before_annotations() {
    let mut schema = Schema::new("s".to_owned());
    let mut cube = simple_cube("c");
    let mut measure = Measure::new(
        "m".to_owned(),
        "col".to_owned(),
        Aggregator::Custom { formula: "f".to_owned() },
        false,
    );
    measure.add_annotation(Annotation::new("n".to_owned(), "v".to_owned()));
    cube.add_measure(measure);
    schema.add_cube(cube);
    let root = parse(&schema.xml_render());
    let measure = child(child(&root, 0), 1);
    assert_eq!(measure.get_attr("visible"), Some("false"));
    assert_eq!(child(measure, 0).tag().name(), "MeasureExpression");
    assert_eq!(child(measure, 1).tag().name(), "Annotations");
}

#[test]
fn table_without_schema_attribute() {
    let mut schema = Schema::new("s".to_owned());
    schema.add_cube(Cube::new(
        "c".to_owned(),
        Source::new_table("sales".to_owned(), None),
    ));
    let root = parse(&schema.xml_render());
    let table = child(child(&root, 0), 0);
    assert_eq!(table.tag().name(), "Table");
    assert_eq!(table.get_attr("name"), Some("sales"));
    assert_eq!(table.get_attr("schema"), None);
}

#[test]
fn table_with_schema_attribute() {
    let mut schema = Schema::new("s".to_owned());
    schema.add_cube(Cube::new(
        "c".to_owned(),
        Source::new_table("sales".to_owned(), Some("public".to_owned())),
    ));
    let root = parse(&schema.xml_render());
    let table = child(child(&root, 0), 0);
    assert_eq!(table.get_attr("name"), Some("sales"));
    assert_eq!(table.get_attr("schema"), Some("public"));
}

#[test]
fn view_source_attributes() {
    let mut schema = Schema::new("s".to_owned());
    let mut source = Source::new_view("v_alias".to_owned(), "select 1".to_owned());
    source.add_annotation(Annotation::new("n".to_owned(), "v".to_owned()));
    schema.add_cube(Cube::new("c".to_owned(), source));
    let root = parse(&schema.xml_render());
    let view = child(child(&root, 0), 0);
    assert_eq!(view.tag().name(), "View");
    assert_eq!(view.get_attr("alias"), Some("v_alias"));
    assert_eq!(view.get_attr("formula"), Some("select 1"));
    let annotations = child(view, 0);
    assert_eq!(annotations.tag().name(), "Annotations");
    assert_eq!(child(annotations, 0).get_attr("name"), Some("n"));
}

#[test]
fn calculated_member_formula_first() {
    let mut schema = Schema::new("s".to_owned());
    let mut cube = simple_cube("c");
    let mut member = CalculatedMember::new(
        "profit".to_owned(),
        "Measures".to_owned(),
        "[Measures].[gain]".to_owned(),
        true,
    );
    member.add_annotation(Annotation::new("n".to_owned(), "v".to_owned()));
    cube.add_calculated_member(member);
    schema.add_cube(cube);
    let root = parse(&schema.xml_render());
    let member = child(child(&root, 0), 1);
    assert_eq!(member.tag().name(), "CalculatedMember");
    assert_eq!(member.get_attr("name"), Some("profit"));
    assert_eq!(member.get_attr("dimension"), Some("Measures"));
    assert_eq!(member.get_attr("visible"), Some("true"));
    assert_eq!(member.child_count(), 2);
    let formula = child(member, 0);
    assert_eq!(formula.tag().name(), "Formula");
    assert_eq!(formula.text(), "[Measures].[gain]");
    assert_eq!(child(member, 1).tag().name(), "Annotations");
}

#[test]
fn named_set_attributes() {
    let mut schema = Schema::new("s".to_owned());
    let mut cube = simple_cube("c");
    cube.add_named_set(NamedSet::new("top".to_owned(), "Head(...)".to_owned(), false));
    schema.add_cube(cube);
    let root = parse(&schema.xml_render());
    let named_set = child(child(&root, 0), 1);
    assert_eq!(named_set.tag().name(), "NamedSet");
    assert_eq!(named_set.get_attr("name"), Some("top"));
    assert_eq!(named_set.get_attr("formula"), Some("Head(...)"));
    assert_eq!(named_set.get_attr("visible"), Some("false"));
    assert_eq!(named_set.child_count(), 0);
}

#[test]
fn dimension_usage_attributes() {
    let mut schema = Schema::new("s".to_owned());
    let mut cube = simple_cube("c");
    let mut usage = DimensionUsage::new(
        "Product".to_owned(),
        "SharedProduct".to_owned(),
        "product_id".to_owned(),
    );
    usage.add_annotation(Annotation::new("n".to_owned(), "v".to_owned()));
    cube.add_dimension_usage(usage);
    schema.add_cube(cube);
    let root = parse(&schema.xml_render());
    let usage = child(child(&root, 0), 1);
    assert_eq!(usage.tag().name(), "DimensionUsage");
    assert_eq!(usage.get_attr("name"), Some("Product"));
    assert_eq!(usage.get_attr("source"), Some("SharedProduct"));
    assert_eq!(usage.get_attr("foreign_key"), Some("product_id"));
    assert_eq!(child(usage, 0).tag().name(), "Annotations");
}

#[test]
fn hierarchy_named_and_default() {
    let mut schema = Schema::new("s".to_owned());
    let mut cube = simple_cube("c");
    let mut dimension = Dimension::new("d".to_owned());
    dimension.add_hierarchy(Hierarchy::new(None, None, true));
    dimension.add_hierarchy(Hierarchy::new(Some("ByCode".to_owned()), None, false));
    cube.add_dimension(dimension);
    schema.add_cube(cube);
    let root = parse(&schema.xml_render());
    let dimension = child(child(&root, 0), 1);
    assert_eq!(dimension.tag().name(), "Dimension");
    let default_hierarchy = child(dimension, 0);
    assert_eq!(default_hierarchy.get_attr("hasAll"), Some("true"));
    assert_eq!(default_hierarchy.get_attr("name"), None);
    let named_hierarchy = child(dimension, 1);
    assert_eq!(named_hierarchy.get_attr("hasAll"), Some("false"));
    assert_eq!(named_hierarchy.get_attr("name"), Some("ByCode"));
}

#[test]
fn level_optional_attributes_and_properties() {
    let mut schema = Schema::new("s".to_owned());
    let mut cube = simple_cube("c");
    let mut dimension = Dimension::new("d".to_owned());
    let mut hierarchy = Hierarchy::new(None, None, true);
    let mut level = Level::new(
        "Year".to_owned(),
        "year_col".to_owned(),
        None,
        Some("TimeYears".to_owned()),
        None,
        false,
    );
    let mut property = Property::new("Population".to_owned(), "pop_col".to_owned());
    property.add_annotation(Annotation::new("n".to_owned(), "v".to_owned()));
    level.add_property(property);
    level.add_annotation(Annotation::new("m".to_owned(), "w".to_owned()));
    hierarchy.add_level(level);
    dimension.add_hierarchy(hierarchy);
    cube.add_dimension(dimension);
    schema.add_cube(cube);
    let root = parse(&schema.xml_render());
    let level = child(child(child(child(&root, 0), 1), 0), 0);
    assert_eq!(level.tag().name(), "Level");
    assert_eq!(level.get_attr("name"), Some("Year"));
    assert_eq!(level.get_attr("column"), Some("year_col"));
    assert_eq!(level.get_attr("uniqueMembers"), Some("false"));
    assert_eq!(level.get_attr("levelType"), Some("TimeYears"));
    assert_eq!(level.get_attr("nameColumn"), None);
    // Annotations come before the properties.
    assert_eq!(child(level, 0).tag().name(), "Annotations");
    let property = child(level, 1);
    assert_eq!(property.tag().name(), "Property");
    assert_eq!(property.get_attr("name"), Some("Population"));
    assert_eq!(property.get_attr("column"), Some("pop_col"));
    assert_eq!(child(property, 0).tag().name(), "Annotations");
}

#[test]
fn end_to_end_us_sales() {
    let mut schema = Schema::new("us_sales".to_owned());

    let mut cube = Cube::new(
        "eastern_sales".to_owned(),
        Source::new_table("eastern_sales".to_owned(), None),
    );
    cube.add_annotation(Annotation::new("states".to_owned(), "MA,NY".to_owned()));

    let mut dimension = Dimension::new("Product".to_owned());
    let mut hierarchy = Hierarchy::new(
        None,
        Some(Source::new_view("source_alias".to_owned(), "sqlformula".to_owned())),
        true,
    );
    hierarchy.add_level(Level::new(
        "Product Group".to_owned(),
        "prod_code".to_owned(),
        Some("prod_desc".to_owned()),
        None,
        None,
        true,
    ));
    dimension.add_hierarchy(hierarchy);
    cube.add_dimension(dimension);

    let mut measure = Measure::new(
        "dollars".to_owned(),
        "mea_dollars".to_owned(),
        Aggregator::Sum,
        true,
    );
    measure.add_annotation(Annotation::new("shorthand".to_owned(), "in 100k".to_owned()));
    cube.add_measure(measure);

    schema.add_cube(cube);
    let root = parse(&schema.xml_render());

    assert_eq!(root.tag().name(), "Schema");
    assert_eq!(root.get_attr("name"), Some("us_sales"));
    // No top-level Annotations: the schema itself has none.
    assert_eq!(root.child_count(), 1);

    let cube = child(&root, 0);
    assert_eq!(cube.tag().name(), "Cube");
    assert_eq!(cube.get_attr("name"), Some("eastern_sales"));
    assert_eq!(cube.child_count(), 4);

    let annotations = child(cube, 0);
    assert_eq!(annotations.tag().name(), "Annotations");
    assert_eq!(annotations.child_count(), 1);
    assert_eq!(child(annotations, 0).get_attr("name"), Some("states"));
    assert_eq!(child(annotations, 0).text(), "MA,NY");

    let table = child(cube, 1);
    assert_eq!(table.tag().name(), "Table");
    assert_eq!(table.get_attr("name"), Some("eastern_sales"));
    assert_eq!(table.get_attr("schema"), None);

    let dimension = child(cube, 2);
    assert_eq!(dimension.tag().name(), "Dimension");
    assert_eq!(dimension.get_attr("name"), Some("Product"));
    assert_eq!(dimension.child_count(), 1);

    let hierarchy = child(dimension, 0);
    assert_eq!(hierarchy.tag().name(), "Hierarchy");
    assert_eq!(hierarchy.get_attr("hasAll"), Some("true"));
    assert_eq!(hierarchy.get_attr("name"), None);
    assert_eq!(hierarchy.child_count(), 2);

    let view = child(hierarchy, 0);
    assert_eq!(view.tag().name(), "View");
    assert_eq!(view.get_attr("alias"), Some("source_alias"));
    assert_eq!(view.get_attr("formula"), Some("sqlformula"));

    let level = child(hierarchy, 1);
    assert_eq!(level.tag().name(), "Level");
    assert_eq!(level.get_attr("name"), Some("Product Group"));
    assert_eq!(level.get_attr("column"), Some("prod_code"));
    assert_eq!(level.get_attr("nameColumn"), Some("prod_desc"));
    assert_eq!(level.get_attr("uniqueMembers"), Some("true"));

    let measure = child(cube, 3);
    assert_eq!(measure.tag().name(), "Measure");
    assert_eq!(measure.get_attr("name"), Some("dollars"));
    assert_eq!(measure.get_attr("column"), Some("mea_dollars"));
    assert_eq!(measure.get_attr("visible"), Some("true"));
    assert_eq!(measure.get_attr("aggregator"), Some("sum"));
    assert_eq!(measure.child_count(), 1);
    let annotations = child(measure, 0);
    assert_eq!(annotations.tag().name(), "Annotations");
    assert_eq!(child(annotations, 0).get_attr("name"), Some("shorthand"));
    assert_eq!(child(annotations, 0).text(), "in 100k");
}

#[test]
fn shared_dimension_slot_stays_empty() {
    // The data model reserves a slot for schema-level shared dimensions, but
    // no operation fills it, so nothing but cubes appears under the root.
    let mut schema = Schema::new("s".to_owned());
    schema.add_cube(simple_cube("a"));
    schema.add_cube(simple_cube("b"));
    let root = parse(&schema.xml_render());
    let tags: Vec<&str> = root.children().map(|c| c.tag().name()).collect();
    assert_eq!(tags, vec!["Cube", "Cube"]);
    assert_eq!(child(&root, 0).get_attr("name"), Some("a"));
    assert_eq!(child(&root, 1).get_attr("name"), Some("b"));
}

#[test]
fn annotation_values_escaped_by_writer() {
    let mut schema = Schema::new("s".to_owned());
    let mut cube = simple_cube("c");
    cube.add_annotation(Annotation::new("q".to_owned(), "a<b&\"c\"".to_owned()));
    schema.add_cube(cube);
    let doc = schema.xml_render();
    let root = parse(&doc);
    let entry = child(child(child(&root, 0), 0), 0);
    assert_eq!(entry.text(), "a<b&\"c\"");
}
