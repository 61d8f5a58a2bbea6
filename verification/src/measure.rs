//! Measures with their aggregation policy, and calculated members.

use vstd::prelude::*;

use elementtree::Element;

use crate::{Annotation, AnnotationModel, Annotations, annotations_block};
use crate::xml::{
    XmlModel, view_of, plain, add_child, bool_str, bool_attr, lemma_names_plain, elem_new,
    elem_set_attr, elem_set_text, elem_append_child,
};

verus! {

/// A numeric fact column exposed with an aggregation function.
#[derive(Debug, Clone, PartialEq)]
pub struct Measure {
    name: String,
    column: String,
    aggregator: Aggregator,
    visible: bool,
    annotations: Annotations,
}

/// The aggregation function applied to a measure's column.  `Median` and
/// `Custom` carry an embedded formula; `Median` also names the database the
/// formula is written for.
#[derive(Debug, Clone, PartialEq)]
pub enum Aggregator {
    Sum,
    Count,
    Min,
    Max,
    Avg,
    DistinctCount,
    Median { database: Database, formula: String },
    Custom { formula: String },
}

/// The database a `Median` formula targets.
#[derive(Debug, Clone, PartialEq)]
pub enum Database {
    Postgres,
    MonetDb,
}

/// Ghost model of a [`Measure`].
#[verifier::ext_equal]
pub ghost struct MeasureModel {
    pub name: Seq<char>,
    pub column: Seq<char>,
    pub aggregator: AggregatorModel,
    pub visible: bool,
    pub annotations: Seq<AnnotationModel>,
}

/// Ghost model of an [`Aggregator`].
pub ghost enum AggregatorModel {
    Sum,
    Count,
    Min,
    Max,
    Avg,
    DistinctCount,
    Median { database: DatabaseModel, formula: Seq<char> },
    Custom { formula: Seq<char> },
}

/// Ghost model of a [`Database`].
pub ghost enum DatabaseModel {
    Postgres,
    MonetDb,
}

impl View for Database {
    type V = DatabaseModel;

    open spec fn view(&self) -> DatabaseModel {
        match self {
            Database::Postgres => DatabaseModel::Postgres,
            Database::MonetDb => DatabaseModel::MonetDb,
        }
    }
}

impl View for Aggregator {
    type V = AggregatorModel;

    open spec fn view(&self) -> AggregatorModel {
        match self {
            Aggregator::Sum => AggregatorModel::Sum,
            Aggregator::Count => AggregatorModel::Count,
            Aggregator::Min => AggregatorModel::Min,
            Aggregator::Max => AggregatorModel::Max,
            Aggregator::Avg => AggregatorModel::Avg,
            Aggregator::DistinctCount => AggregatorModel::DistinctCount,
            Aggregator::Median { database, formula } => AggregatorModel::Median {
                database: database@,
                formula: formula@,
            },
            Aggregator::Custom { formula } => AggregatorModel::Custom { formula: formula@ },
        }
    }
}

impl View for Measure {
    type V = MeasureModel;

    closed spec fn view(&self) -> MeasureModel {
        MeasureModel {
            name: self.name@,
            column: self.column@,
            aggregator: self.aggregator@,
            visible: self.visible,
            annotations: self.annotations@,
        }
    }
}

/// The `aggregator` attribute value each variant renders to.  `Avg` renders
/// as the empty string and `Median`/`Custom` as the literal text `None`:
/// this is the exact wire behaviour the downstream engine sees, kept
/// bit-for-bit even though the values look like placeholders.
pub open spec fn aggregator_str(a: AggregatorModel) -> Seq<char> {
    match a {
        AggregatorModel::Sum => "sum"@,
        AggregatorModel::Count => "count"@,
        AggregatorModel::Min => "min"@,
        AggregatorModel::Max => "max"@,
        AggregatorModel::Avg => ""@,
        AggregatorModel::DistinctCount => "distinct-count"@,
        AggregatorModel::Median { .. } => "None"@,
        AggregatorModel::Custom { .. } => "None"@,
    }
}

/// The `dialect` attribute value for a `Median` formula's database.
pub open spec fn database_str(d: DatabaseModel) -> Seq<char> {
    match d {
        DatabaseModel::Postgres => "postgres"@,
        DatabaseModel::MonetDb => "monetdb"@,
    }
}

/// What an aggregator contributes to a measure's child sequence: `Median`
/// and `Custom` emit one `MeasureExpression` element holding one `SQL`
/// element with the formula as text (`Median` also sets the `dialect`
/// attribute); every other variant emits nothing.
pub open spec fn measure_expression_block(a: AggregatorModel) -> Seq<XmlModel> {
    match a {
        AggregatorModel::Median { database, formula } => seq![
            XmlModel {
                tag: "MeasureExpression"@,
                attrs: Map::empty(),
                text: Seq::empty(),
                children: seq![
                    XmlModel {
                        tag: "SQL"@,
                        attrs: Map::empty().insert("dialect"@, database_str(database)),
                        text: formula,
                        children: Seq::empty(),
                    },
                ],
            },
        ],
        AggregatorModel::Custom { formula } => seq![
            XmlModel {
                tag: "MeasureExpression"@,
                attrs: Map::empty(),
                text: Seq::empty(),
                children: seq![
                    XmlModel {
                        tag: "SQL"@,
                        attrs: Map::empty(),
                        text: formula,
                        children: Seq::empty(),
                    },
                ],
            },
        ],
        _ => Seq::empty(),
    }
}

/// The element a measure renders to: the `MeasureExpression` block (if any)
/// comes before the annotation block.
pub open spec fn measure_xml(m: MeasureModel) -> XmlModel {
    XmlModel {
        tag: "Measure"@,
        attrs: Map::empty().insert("name"@, m.name).insert("column"@, m.column).insert(
            "visible"@,
            bool_str(m.visible),
        ).insert("aggregator"@, aggregator_str(m.aggregator)),
        text: Seq::empty(),
        children: measure_expression_block(m.aggregator) + annotations_block(m.annotations),
    }
}

impl Measure {
    pub fn new(name: String, column: String, aggregator: Aggregator, visible: bool) -> (r: Self)
        ensures
            r@ == (MeasureModel {
                name: name@,
                column: column@,
                aggregator: aggregator@,
                visible: visible,
                annotations: Seq::<AnnotationModel>::empty(),
            }),
    {
        Measure { name, column, aggregator, visible, annotations: Annotations::new() }
    }

    pub fn add_annotation(&mut self, annotation: Annotation)
        ensures
            final(self)@ == (MeasureModel {
                annotations: old(self)@.annotations.push(annotation@),
                ..old(self)@
            }),
    {
        self.annotations.add_annotation(annotation);
    }

    fn aggregator_attr(&self) -> (r: &'static str)
        ensures
            r@ == aggregator_str(self@.aggregator),
    {
        match &self.aggregator {
            Aggregator::Sum => "sum",
            Aggregator::Count => "count",
            Aggregator::Min => "min",
            Aggregator::Max => "max",
            Aggregator::Avg => "",
            Aggregator::DistinctCount => "distinct-count",
            Aggregator::Median { .. } => "None",
            Aggregator::Custom { .. } => "None",
        }
    }

    pub(crate) fn build_xml(&self, parent: &mut Element)
        requires
            plain(*old(parent)),
        ensures
            plain(*final(parent)),
            view_of(*final(parent)) == add_child(view_of(*old(parent)), measure_xml(self@)),
    {
        proof {
            lemma_names_plain();
        }
        let mut measure = elem_new("Measure");
        elem_set_attr(&mut measure, "name", self.name.as_str());
        elem_set_attr(&mut measure, "column", self.column.as_str());
        elem_set_attr(&mut measure, "visible", bool_attr(self.visible));
        elem_set_attr(&mut measure, "aggregator", self.aggregator_attr());
        match &self.aggregator {
            Aggregator::Median { database, formula } => {
                let mut expression = elem_new("MeasureExpression");
                let mut sql = elem_new("SQL");
                let dialect = match database {
                    Database::Postgres => "postgres",
                    Database::MonetDb => "monetdb",
                };
                elem_set_attr(&mut sql, "dialect", dialect);
                elem_set_text(&mut sql, formula.as_str());
                elem_append_child(&mut expression, sql);
                proof {
                    assert(view_of(expression).children =~= measure_expression_block(
                        self@.aggregator,
                    )[0].children);
                    assert(view_of(expression) =~~= measure_expression_block(
                        self@.aggregator,
                    )[0]);
                }
                elem_append_child(&mut measure, expression);
            },
            Aggregator::Custom { formula } => {
                let mut expression = elem_new("MeasureExpression");
                let mut sql = elem_new("SQL");
                elem_set_text(&mut sql, formula.as_str());
                elem_append_child(&mut expression, sql);
                proof {
                    assert(view_of(expression).children =~= measure_expression_block(
                        self@.aggregator,
                    )[0].children);
                    assert(view_of(expression) =~~= measure_expression_block(
                        self@.aggregator,
                    )[0]);
                }
                elem_append_child(&mut measure, expression);
            },
            _ => {},
        }
        self.annotations.build_xml(&mut measure);
        proof {
            assert(view_of(measure).children =~= measure_xml(self@).children);
            assert(view_of(measure) =~~= measure_xml(self@));
        }
        elem_append_child(parent, measure);
    }
}

/// A named, formula-defined member exposed on a dimension of a cube.
#[derive(Debug, Clone, PartialEq)]
pub struct CalculatedMember {
    name: String,
    dimension: String,
    formula: String,
    visible: bool,
    annotations: Annotations,
}

/// Ghost model of a [`CalculatedMember`].
#[verifier::ext_equal]
pub ghost struct CalculatedMemberModel {
    pub name: Seq<char>,
    pub dimension: Seq<char>,
    pub formula: Seq<char>,
    pub visible: bool,
    pub annotations: Seq<AnnotationModel>,
}

impl View for CalculatedMember {
    type V = CalculatedMemberModel;

    closed spec fn view(&self) -> CalculatedMemberModel {
        CalculatedMemberModel {
            name: self.name@,
            dimension: self.dimension@,
            formula: self.formula@,
            visible: self.visible,
            annotations: self.annotations@,
        }
    }
}

/// The element a calculated member renders to: one `Formula` element holding
/// the formula as text always comes first, then the annotation block.
pub open spec fn calculated_member_xml(c: CalculatedMemberModel) -> XmlModel {
    XmlModel {
        tag: "CalculatedMember"@,
        attrs: Map::empty().insert("name"@, c.name).insert("dimension"@, c.dimension).insert(
            "visible"@,
            bool_str(c.visible),
        ),
        text: Seq::empty(),
        children: seq![
            XmlModel {
                tag: "Formula"@,
                attrs: Map::empty(),
                text: c.formula,
                children: Seq::empty(),
            },
        ] + annotations_block(c.annotations),
    }
}

impl CalculatedMember {
    pub fn new(name: String, dimension: String, formula: String, visible: bool) -> (r: Self)
        ensures
            r@ == (CalculatedMemberModel {
                name: name@,
                dimension: dimension@,
                formula: formula@,
                visible: visible,
                annotations: Seq::<AnnotationModel>::empty(),
            }),
    {
        CalculatedMember { name, dimension, formula, visible, annotations: Annotations::new() }
    }

    pub fn add_annotation(&mut self, annotation: Annotation)
        ensures
            final(self)@ == (CalculatedMemberModel {
                annotations: old(self)@.annotations.push(annotation@),
                ..old(self)@
            }),
    {
        self.annotations.add_annotation(annotation);
    }

    pub(crate) fn build_xml(&self, parent: &mut Element)
        requires
            plain(*old(parent)),
        ensures
            plain(*final(parent)),
            view_of(*final(parent)) == add_child(
                view_of(*old(parent)),
                calculated_member_xml(self@),
            ),
    {
        proof {
            lemma_names_plain();
        }
        let mut calculated_member = elem_new("CalculatedMember");
        elem_set_attr(&mut calculated_member, "name", self.name.as_str());
        elem_set_attr(&mut calculated_member, "dimension", self.dimension.as_str());
        elem_set_attr(&mut calculated_member, "visible", bool_attr(self.visible));
        let mut formula = elem_new("Formula");
        elem_set_text(&mut formula, self.formula.as_str());
        elem_append_child(&mut calculated_member, formula);
        self.annotations.build_xml(&mut calculated_member);
        proof {
            assert(view_of(calculated_member).children =~= calculated_member_xml(self@).children);
            assert(view_of(calculated_member) =~~= calculated_member_xml(self@));
        }
        elem_append_child(parent, calculated_member);
    }
}

} // verus!
