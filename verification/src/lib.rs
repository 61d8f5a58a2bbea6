//! In-memory model of a multidimensional cube schema, with a verified
//! renderer that serializes the model into a markup document for a
//! downstream analytics engine.
//!
//! Callers assemble a [`Schema`] bottom-up through constructors and `add_*`
//! append operations, then call [`Schema::xml_render`] once to obtain the
//! document text.  Rendering is one-way: the crate offers no operation that
//! parses a document back into a model.

use vstd::prelude::*;

pub mod dimension;
pub mod measure;
pub mod xml;

pub use crate::dimension::{Dimension, Hierarchy, Level, Property, DimensionUsage, NamedSet};
pub use crate::measure::{Measure, Aggregator, Database, CalculatedMember};

use elementtree::Element;
use crate::dimension::{
    DimensionModel, DimensionUsageModel, HierarchyModel, LevelModel, NamedSetModel,
    PropertyModel, dimension_xml, dimension_usage_xml, hierarchy_xml, level_xml, named_set_xml,
    property_xml,
};
use crate::measure::{
    AggregatorModel, CalculatedMemberModel, MeasureModel, calculated_member_xml, measure_xml,
    measure_expression_block,
};
use crate::xml::{
    XmlModel, view_of, plain, add_child, lemma_names_plain, elem_new, elem_set_attr,
    elem_set_text, elem_append_child, elem_to_string, xml_text_of,
};

verus! {

/// One name/value metadata pair.
#[derive(Debug, Clone, PartialEq)]
pub struct Annotation {
    name: String,
    value: String,
}

/// Ghost model of an [`Annotation`].
pub ghost struct AnnotationModel {
    pub name: Seq<char>,
    pub value: Seq<char>,
}

impl View for Annotation {
    type V = AnnotationModel;

    closed spec fn view(&self) -> AnnotationModel {
        AnnotationModel { name: self.name@, value: self.value@ }
    }
}

/// The element an annotation renders to: `<Annotation name="...">value</Annotation>`.
pub open spec fn annotation_xml(a: AnnotationModel) -> XmlModel {
    XmlModel {
        tag: "Annotation"@,
        attrs: Map::empty().insert("name"@, a.name),
        text: a.value,
        children: Seq::empty(),
    }
}

impl Annotation {
    pub fn new(name: String, value: String) -> (r: Self)
        ensures
            r@ == (AnnotationModel { name: name@, value: value@ }),
    {
        Annotation { name, value }
    }

    fn build_xml(&self, parent: &mut Element)
        requires
            plain(*old(parent)),
        ensures
            plain(*final(parent)),
            view_of(*final(parent)) == add_child(view_of(*old(parent)), annotation_xml(self@)),
    {
        proof {
            lemma_names_plain();
        }
        let mut annotation = elem_new("Annotation");
        elem_set_attr(&mut annotation, "name", self.name.as_str());
        elem_set_text(&mut annotation, self.value.as_str());
        elem_append_child(parent, annotation);
    }
}

/// Ordered store of [`Annotation`]s; repeated names are kept, never merged.
#[derive(Debug, Clone, PartialEq)]
pub struct Annotations(Vec<Annotation>);

impl View for Annotations {
    type V = Seq<AnnotationModel>;

    closed spec fn view(&self) -> Seq<AnnotationModel> {
        self.0@.map_values(|a: Annotation| a@)
    }
}

/// The `Annotations` element holding one child per entry, in store order.
pub open spec fn annotations_xml(anns: Seq<AnnotationModel>) -> XmlModel {
    XmlModel {
        tag: "Annotations"@,
        attrs: Map::empty(),
        text: Seq::empty(),
        children: anns.map_values(|a: AnnotationModel| annotation_xml(a)),
    }
}

/// What an annotation store contributes to its owner's child sequence: one
/// `Annotations` element if the store is non-empty, nothing otherwise.
pub open spec fn annotations_block(anns: Seq<AnnotationModel>) -> Seq<XmlModel> {
    if anns.len() == 0 {
        Seq::empty()
    } else {
        seq![annotations_xml(anns)]
    }
}

impl Annotations {
    pub fn new() -> (r: Self)
        ensures
            r@ == Seq::<AnnotationModel>::empty(),
    {
        Annotations(Vec::new())
    }

    pub fn add_annotation(&mut self, annotation: Annotation)
        ensures
            final(self)@ == old(self)@.push(annotation@),
    {
        self.0.push(annotation);
        proof {
            assert(final(self)@ =~= old(self)@.push(annotation@));
        }
    }

    fn build_xml(&self, parent: &mut Element)
        requires
            plain(*old(parent)),
        ensures
            plain(*final(parent)),
            view_of(*final(parent)) == (XmlModel {
                children: view_of(*old(parent)).children + annotations_block(self@),
                ..view_of(*old(parent))
            }),
    {
        proof {
            lemma_names_plain();
        }
        if self.0.len() > 0 {
            let mut annotations = elem_new("Annotations");
            let ghost base = view_of(annotations);
            proof {
                assert(self@.take(0).map_values(|a: AnnotationModel| annotation_xml(a))
                    =~= Seq::<XmlModel>::empty());
                assert(view_of(annotations) =~~= (XmlModel {
                    children: self@.take(0).map_values(|a: AnnotationModel| annotation_xml(a)),
                    ..base
                }));
            }
            let mut i: usize = 0;
            while i < self.0.len()
                invariant
                    i <= self.0.len(),
                    plain(annotations),
                    view_of(annotations) == (XmlModel {
                        children: self@.take(i as int).map_values(
                            |a: AnnotationModel| annotation_xml(a),
                        ),
                        ..base
                    }),
                decreases self.0.len() - i,
            {
                self.0[i].build_xml(&mut annotations);
                proof {
                    assert(self@.take(i as int).map_values(
                        |a: AnnotationModel| annotation_xml(a),
                    ).push(annotation_xml(self@[i as int])) =~= self@.take(i as int + 1)
                        .map_values(|a: AnnotationModel| annotation_xml(a)));
                }
                i = i + 1;
            }
            proof {
                assert(self@.take(self.0.len() as int) =~= self@);
                assert(view_of(annotations) =~= annotations_xml(self@));
            }
            elem_append_child(parent, annotations);
            proof {
                assert(view_of(*old(parent)).children.push(annotations_xml(self@))
                    =~= view_of(*old(parent)).children + annotations_block(self@));
                assert(view_of(*final(parent)) =~= (XmlModel {
                    children: view_of(*old(parent)).children + annotations_block(self@),
                    ..view_of(*old(parent))
                }));
            }
        } else {
            proof {
                assert(view_of(*old(parent)).children + annotations_block(self@)
                    =~= view_of(*old(parent)).children);
                assert(view_of(*final(parent)) =~= (XmlModel {
                    children: view_of(*old(parent)).children + annotations_block(self@),
                    ..view_of(*old(parent))
                }));
            }
        }
    }
}

/// A fact table exposed with its dimensions and measures for analytical
/// querying.
#[derive(Debug, Clone, PartialEq)]
pub struct Cube {
    name: String,
    source: Source,
    dimensions: Vec<Dimension>,
    dimension_usages: Vec<DimensionUsage>,
    measures: Vec<Measure>,
    calculated_members: Vec<CalculatedMember>,
    named_sets: Vec<NamedSet>,
    annotations: Annotations,
}

/// Ghost model of a [`Cube`].
#[verifier::ext_equal]
pub ghost struct CubeModel {
    pub name: Seq<char>,
    pub source: SourceModel,
    pub dimensions: Seq<DimensionModel>,
    pub dimension_usages: Seq<DimensionUsageModel>,
    pub measures: Seq<MeasureModel>,
    pub calculated_members: Seq<CalculatedMemberModel>,
    pub named_sets: Seq<NamedSetModel>,
    pub annotations: Seq<AnnotationModel>,
}

impl View for Cube {
    type V = CubeModel;

    closed spec fn view(&self) -> CubeModel {
        CubeModel {
            name: self.name@,
            source: self.source@,
            dimensions: self.dimensions@.map_values(|d: Dimension| d@),
            dimension_usages: self.dimension_usages@.map_values(|u: DimensionUsage| u@),
            measures: self.measures@.map_values(|m: Measure| m@),
            calculated_members: self.calculated_members@.map_values(|m: CalculatedMember| m@),
            named_sets: self.named_sets@.map_values(|n: NamedSet| n@),
            annotations: self.annotations@,
        }
    }
}

/// The element a cube renders to: its `name` attribute, then the annotation
/// block, the one source, and the dimensions, dimension usages, measures,
/// calculated members and named sets, each kind in insertion order.
pub open spec fn cube_xml(c: CubeModel) -> XmlModel {
    XmlModel {
        tag: "Cube"@,
        attrs: Map::empty().insert("name"@, c.name),
        text: Seq::empty(),
        children: annotations_block(c.annotations) + seq![source_xml(c.source)]
            + c.dimensions.map_values(|d: DimensionModel| dimension_xml(d))
            + c.dimension_usages.map_values(|u: DimensionUsageModel| dimension_usage_xml(u))
            + c.measures.map_values(|m: MeasureModel| measure_xml(m))
            + c.calculated_members.map_values(
            |m: CalculatedMemberModel| calculated_member_xml(m),
        ) + c.named_sets.map_values(|n: NamedSetModel| named_set_xml(n)),
    }
}

impl Cube {
    pub fn new(name: String, source: Source) -> (r: Self)
        ensures
            r@ == (CubeModel {
                name: name@,
                source: source@,
                dimensions: Seq::<DimensionModel>::empty(),
                dimension_usages: Seq::<DimensionUsageModel>::empty(),
                measures: Seq::<MeasureModel>::empty(),
                calculated_members: Seq::<CalculatedMemberModel>::empty(),
                named_sets: Seq::<NamedSetModel>::empty(),
                annotations: Seq::<AnnotationModel>::empty(),
            }),
    {
        Cube {
            name,
            source,
            dimensions: Vec::new(),
            dimension_usages: Vec::new(),
            measures: Vec::new(),
            calculated_members: Vec::new(),
            named_sets: Vec::new(),
            annotations: Annotations::new(),
        }
    }

    pub fn add_dimension(&mut self, dimension: Dimension)
        ensures
            final(self)@ == (CubeModel {
                dimensions: old(self)@.dimensions.push(dimension@),
                ..old(self)@
            }),
    {
        let ghost d = dimension@;
        self.dimensions.push(dimension);
        proof {
            assert(final(self)@.dimensions =~= old(self)@.dimensions.push(d));
        }
    }

    pub fn add_dimension_usage(&mut self, dimension_usage: DimensionUsage)
        ensures
            final(self)@ == (CubeModel {
                dimension_usages: old(self)@.dimension_usages.push(dimension_usage@),
                ..old(self)@
            }),
    {
        let ghost u = dimension_usage@;
        self.dimension_usages.push(dimension_usage);
        proof {
            assert(final(self)@.dimension_usages =~= old(self)@.dimension_usages.push(u));
        }
    }

    pub fn add_measure(&mut self, measure: Measure)
        ensures
            final(self)@ == (CubeModel {
                measures: old(self)@.measures.push(measure@),
                ..old(self)@
            }),
    {
        let ghost m = measure@;
        self.measures.push(measure);
        proof {
            assert(final(self)@.measures =~= old(self)@.measures.push(m));
        }
    }

    pub fn add_calculated_member(&mut self, calculated_member: CalculatedMember)
        ensures
            final(self)@ == (CubeModel {
                calculated_members: old(self)@.calculated_members.push(calculated_member@),
                ..old(self)@
            }),
    {
        let ghost m = calculated_member@;
        self.calculated_members.push(calculated_member);
        proof {
            assert(final(self)@.calculated_members =~= old(self)@.calculated_members.push(m));
        }
    }

    pub fn add_named_set(&mut self, named_set: NamedSet)
        ensures
            final(self)@ == (CubeModel {
                named_sets: old(self)@.named_sets.push(named_set@),
                ..old(self)@
            }),
    {
        let ghost n = named_set@;
        self.named_sets.push(named_set);
        proof {
            assert(final(self)@.named_sets =~= old(self)@.named_sets.push(n));
        }
    }

    pub fn add_annotation(&mut self, annotation: Annotation)
        ensures
            final(self)@ == (CubeModel {
                annotations: old(self)@.annotations.push(annotation@),
                ..old(self)@
            }),
    {
        self.annotations.add_annotation(annotation);
    }

    pub(crate) fn build_xml(&self, parent: &mut Element)
        requires
            plain(*old(parent)),
        ensures
            plain(*final(parent)),
            view_of(*final(parent)) == add_child(view_of(*old(parent)), cube_xml(self@)),
    {
        proof {
            lemma_names_plain();
        }
        let mut cube = elem_new("Cube");
        elem_set_attr(&mut cube, "name", self.name.as_str());
        self.annotations.build_xml(&mut cube);
        self.source.build_xml(&mut cube);

        let ghost base1 = view_of(cube);
        proof {
            assert(view_of(cube) =~~= (XmlModel {
                children: base1.children + self@.dimensions.take(0).map_values(
                    |d: DimensionModel| dimension_xml(d),
                ),
                ..base1
            }));
        }
        let mut i: usize = 0;
        while i < self.dimensions.len()
            invariant
                i <= self.dimensions.len(),
                plain(cube),
                view_of(cube) == (XmlModel {
                    children: base1.children + self@.dimensions.take(i as int).map_values(
                        |d: DimensionModel| dimension_xml(d),
                    ),
                    ..base1
                }),
            decreases self.dimensions.len() - i,
        {
            self.dimensions[i].build_xml(&mut cube);
            proof {
                assert((base1.children + self@.dimensions.take(i as int).map_values(
                    |d: DimensionModel| dimension_xml(d),
                )).push(dimension_xml(self@.dimensions[i as int])) =~= base1.children
                    + self@.dimensions.take(i as int + 1).map_values(
                    |d: DimensionModel| dimension_xml(d),
                ));
            }
            i = i + 1;
        }

        let ghost base2 = view_of(cube);
        proof {
            assert(self@.dimensions.take(self.dimensions.len() as int) =~= self@.dimensions);
            assert(view_of(cube) =~~= (XmlModel {
                children: base2.children + self@.dimension_usages.take(0).map_values(
                    |u: DimensionUsageModel| dimension_usage_xml(u),
                ),
                ..base2
            }));
        }
        let mut i: usize = 0;
        while i < self.dimension_usages.len()
            invariant
                i <= self.dimension_usages.len(),
                plain(cube),
                base2 == (XmlModel {
                    children: base1.children + self@.dimensions.map_values(
                        |d: DimensionModel| dimension_xml(d),
                    ),
                    ..base1
                }),
                view_of(cube) == (XmlModel {
                    children: base2.children + self@.dimension_usages.take(i as int).map_values(
                        |u: DimensionUsageModel| dimension_usage_xml(u),
                    ),
                    ..base2
                }),
            decreases self.dimension_usages.len() - i,
        {
            self.dimension_usages[i].build_xml(&mut cube);
            proof {
                assert((base2.children + self@.dimension_usages.take(i as int).map_values(
                    |u: DimensionUsageModel| dimension_usage_xml(u),
                )).push(dimension_usage_xml(self@.dimension_usages[i as int])) =~= base2.children
                    + self@.dimension_usages.take(i as int + 1).map_values(
                    |u: DimensionUsageModel| dimension_usage_xml(u),
                ));
            }
            i = i + 1;
        }

        let ghost base3 = view_of(cube);
        proof {
            assert(self@.dimension_usages.take(self.dimension_usages.len() as int)
                =~= self@.dimension_usages);
            assert(view_of(cube) =~~= (XmlModel {
                children: base3.children + self@.measures.take(0).map_values(
                    |m: MeasureModel| measure_xml(m),
                ),
                ..base3
            }));
        }
        let mut i: usize = 0;
        while i < self.measures.len()
            invariant
                i <= self.measures.len(),
                plain(cube),
                base3 == (XmlModel {
                    children: base2.children + self@.dimension_usages.map_values(
                        |u: DimensionUsageModel| dimension_usage_xml(u),
                    ),
                    ..base2
                }),
                view_of(cube) == (XmlModel {
                    children: base3.children + self@.measures.take(i as int).map_values(
                        |m: MeasureModel| measure_xml(m),
                    ),
                    ..base3
                }),
            decreases self.measures.len() - i,
        {
            self.measures[i].build_xml(&mut cube);
            proof {
                assert((base3.children + self@.measures.take(i as int).map_values(
                    |m: MeasureModel| measure_xml(m),
                )).push(measure_xml(self@.measures[i as int])) =~= base3.children
                    + self@.measures.take(i as int + 1).map_values(
                    |m: MeasureModel| measure_xml(m),
                ));
            }
            i = i + 1;
        }

        let ghost base4 = view_of(cube);
        proof {
            assert(self@.measures.take(self.measures.len() as int) =~= self@.measures);
            assert(view_of(cube) =~~= (XmlModel {
                children: base4.children + self@.calculated_members.take(0).map_values(
                    |m: CalculatedMemberModel| calculated_member_xml(m),
                ),
                ..base4
            }));
        }
        let mut i: usize = 0;
        while i < self.calculated_members.len()
            invariant
                i <= self.calculated_members.len(),
                plain(cube),
                base4 == (XmlModel {
                    children: base3.children + self@.measures.map_values(
                        |m: MeasureModel| measure_xml(m),
                    ),
                    ..base3
                }),
                view_of(cube) == (XmlModel {
                    children: base4.children + self@.calculated_members.take(
                        i as int,
                    ).map_values(|m: CalculatedMemberModel| calculated_member_xml(m)),
                    ..base4
                }),
            decreases self.calculated_members.len() - i,
        {
            self.calculated_members[i].build_xml(&mut cube);
            proof {
                assert((base4.children + self@.calculated_members.take(i as int).map_values(
                    |m: CalculatedMemberModel| calculated_member_xml(m),
                )).push(calculated_member_xml(self@.calculated_members[i as int]))
                    =~= base4.children + self@.calculated_members.take(i as int + 1).map_values(
                    |m: CalculatedMemberModel| calculated_member_xml(m),
                ));
            }
            i = i + 1;
        }

        let ghost base5 = view_of(cube);
        proof {
            assert(self@.calculated_members.take(self.calculated_members.len() as int)
                =~= self@.calculated_members);
            assert(view_of(cube) =~~= (XmlModel {
                children: base5.children + self@.named_sets.take(0).map_values(
                    |n: NamedSetModel| named_set_xml(n),
                ),
                ..base5
            }));
        }
        let mut i: usize = 0;
        while i < self.named_sets.len()
            invariant
                i <= self.named_sets.len(),
                plain(cube),
                base5 == (XmlModel {
                    children: base4.children + self@.calculated_members.map_values(
                        |m: CalculatedMemberModel| calculated_member_xml(m),
                    ),
                    ..base4
                }),
                view_of(cube) == (XmlModel {
                    children: base5.children + self@.named_sets.take(i as int).map_values(
                        |n: NamedSetModel| named_set_xml(n),
                    ),
                    ..base5
                }),
            decreases self.named_sets.len() - i,
        {
            self.named_sets[i].build_xml(&mut cube);
            proof {
                assert((base5.children + self@.named_sets.take(i as int).map_values(
                    |n: NamedSetModel| named_set_xml(n),
                )).push(named_set_xml(self@.named_sets[i as int])) =~= base5.children
                    + self@.named_sets.take(i as int + 1).map_values(
                    |n: NamedSetModel| named_set_xml(n),
                ));
            }
            i = i + 1;
        }

        proof {
            assert(self@.named_sets.take(self.named_sets.len() as int) =~= self@.named_sets);
            assert(view_of(cube).children =~= cube_xml(self@).children);
            assert(view_of(cube) =~~= cube_xml(self@));
        }
        elem_append_child(parent, cube);
    }
}

/// The top-level container of the document: a named schema owning its cubes
/// and an annotation store.  The shared-dimension slot exists in the data
/// model and is rendered before the cubes, but no operation fills it, so it
/// stays empty; downstream consumers may rely on that.
#[derive(Debug, Clone, PartialEq)]
pub struct Schema {
    name: String,
    cubes: Vec<Cube>,
    dimensions: Vec<Dimension>,
    annotations: Annotations,
}

/// Ghost model of a [`Schema`].
#[verifier::ext_equal]
pub ghost struct SchemaModel {
    pub name: Seq<char>,
    pub cubes: Seq<CubeModel>,
    pub dimensions: Seq<DimensionModel>,
    pub annotations: Seq<AnnotationModel>,
}

impl View for Schema {
    type V = SchemaModel;

    closed spec fn view(&self) -> SchemaModel {
        SchemaModel {
            name: self.name@,
            cubes: self.cubes@.map_values(|c: Cube| c@),
            dimensions: self.dimensions@.map_values(|d: Dimension| d@),
            annotations: self.annotations@,
        }
    }
}

/// The root element of the document: its `name` attribute, then the
/// annotation block, the shared dimensions and the cubes, in order.
pub open spec fn schema_xml(s: SchemaModel) -> XmlModel {
    XmlModel {
        tag: "Schema"@,
        attrs: Map::empty().insert("name"@, s.name),
        text: Seq::empty(),
        children: annotations_block(s.annotations)
            + s.dimensions.map_values(|d: DimensionModel| dimension_xml(d))
            + s.cubes.map_values(|c: CubeModel| cube_xml(c)),
    }
}

impl Schema {
    pub fn new(name: String) -> (r: Self)
        ensures
            r@ == (SchemaModel {
                name: name@,
                cubes: Seq::<CubeModel>::empty(),
                dimensions: Seq::<DimensionModel>::empty(),
                annotations: Seq::<AnnotationModel>::empty(),
            }),
    {
        Schema {
            name,
            dimensions: Vec::new(),
            cubes: Vec::new(),
            annotations: Annotations::new(),
        }
    }

    pub fn add_cube(&mut self, cube: Cube)
        ensures
            final(self)@ == (SchemaModel { cubes: old(self)@.cubes.push(cube@), ..old(self)@ }),
    {
        let ghost c = cube@;
        self.cubes.push(cube);
        proof {
            assert(final(self)@.cubes =~= old(self)@.cubes.push(c));
        }
    }

    pub fn add_annotation(&mut self, annotation: Annotation)
        ensures
            final(self)@ == (SchemaModel {
                annotations: old(self)@.annotations.push(annotation@),
                ..old(self)@
            }),
    {
        self.annotations.add_annotation(annotation);
    }

    /// Renders the fully built schema into the document text.  Total over
    /// every structurally valid schema: the text is a function of the
    /// schema's contents alone.
    pub fn xml_render(&self) -> (r: String)
        ensures
            r@ == xml_text_of(schema_xml(self@)),
    {
        proof {
            lemma_names_plain();
        }
        let mut schema = elem_new("Schema");
        elem_set_attr(&mut schema, "name", self.name.as_str());
        self.annotations.build_xml(&mut schema);

        let ghost base1 = view_of(schema);
        proof {
            assert(view_of(schema) =~~= (XmlModel {
                children: base1.children + self@.dimensions.take(0).map_values(
                    |d: DimensionModel| dimension_xml(d),
                ),
                ..base1
            }));
        }
        let mut i: usize = 0;
        while i < self.dimensions.len()
            invariant
                i <= self.dimensions.len(),
                plain(schema),
                view_of(schema) == (XmlModel {
                    children: base1.children + self@.dimensions.take(i as int).map_values(
                        |d: DimensionModel| dimension_xml(d),
                    ),
                    ..base1
                }),
            decreases self.dimensions.len() - i,
        {
            self.dimensions[i].build_xml(&mut schema);
            proof {
                assert((base1.children + self@.dimensions.take(i as int).map_values(
                    |d: DimensionModel| dimension_xml(d),
                )).push(dimension_xml(self@.dimensions[i as int])) =~= base1.children
                    + self@.dimensions.take(i as int + 1).map_values(
                    |d: DimensionModel| dimension_xml(d),
                ));
            }
            i = i + 1;
        }

        let ghost base2 = view_of(schema);
        proof {
            assert(self@.dimensions.take(self.dimensions.len() as int) =~= self@.dimensions);
            assert(view_of(schema) =~~= (XmlModel {
                children: base2.children + self@.cubes.take(0).map_values(
                    |c: CubeModel| cube_xml(c),
                ),
                ..base2
            }));
        }
        let mut i: usize = 0;
        while i < self.cubes.len()
            invariant
                i <= self.cubes.len(),
                plain(schema),
                base2 == (XmlModel {
                    children: base1.children + self@.dimensions.map_values(
                        |d: DimensionModel| dimension_xml(d),
                    ),
                    ..base1
                }),
                view_of(schema) == (XmlModel {
                    children: base2.children + self@.cubes.take(i as int).map_values(
                        |c: CubeModel| cube_xml(c),
                    ),
                    ..base2
                }),
            decreases self.cubes.len() - i,
        {
            self.cubes[i].build_xml(&mut schema);
            proof {
                assert((base2.children + self@.cubes.take(i as int).map_values(
                    |c: CubeModel| cube_xml(c),
                )).push(cube_xml(self@.cubes[i as int])) =~= base2.children
                    + self@.cubes.take(i as int + 1).map_values(|c: CubeModel| cube_xml(c)));
            }
            i = i + 1;
        }

        proof {
            assert(self@.cubes.take(self.cubes.len() as int) =~= self@.cubes);
            assert(view_of(schema).children =~= schema_xml(self@).children);
            assert(view_of(schema) =~~= schema_xml(self@));
        }
        elem_to_string(&schema)
    }
}

/// The underlying table or view backing a [`Cube`] or a [`Hierarchy`].
#[derive(Debug, Clone, PartialEq)]
pub enum Source {
    Table { name: String, schema: Option<String>, annotations: Annotations },
    View { alias: String, formula: String, annotations: Annotations },
}

/// Ghost model of a [`Source`].
pub ghost enum SourceModel {
    Table { name: Seq<char>, schema: Option<Seq<char>>, annotations: Seq<AnnotationModel> },
    View { alias: Seq<char>, formula: Seq<char>, annotations: Seq<AnnotationModel> },
}

impl View for Source {
    type V = SourceModel;

    open spec fn view(&self) -> SourceModel {
        match self {
            Source::Table { name, schema, annotations } => SourceModel::Table {
                name: name@,
                schema: match schema {
                    Some(s) => Some(s@),
                    None => None,
                },
                annotations: annotations@,
            },
            Source::View { alias, formula, annotations } => SourceModel::View {
                alias: alias@,
                formula: formula@,
                annotations: annotations@,
            },
        }
    }
}

/// The element a source renders to: a `Table` element with `name` and an
/// optional `schema` attribute, or a `View` element with `alias` and
/// `formula`; either one holds only the annotation block.
pub open spec fn source_xml(s: SourceModel) -> XmlModel {
    match s {
        SourceModel::Table { name, schema, annotations } => XmlModel {
            tag: "Table"@,
            attrs: match schema {
                Some(sch) => Map::empty().insert("name"@, name).insert("schema"@, sch),
                None => Map::empty().insert("name"@, name),
            },
            text: Seq::empty(),
            children: annotations_block(annotations),
        },
        SourceModel::View { alias, formula, annotations } => XmlModel {
            tag: "View"@,
            attrs: Map::empty().insert("alias"@, alias).insert("formula"@, formula),
            text: Seq::empty(),
            children: annotations_block(annotations),
        },
    }
}

/// What an optional source contributes to its owner's child sequence.
pub open spec fn source_block(s: Option<SourceModel>) -> Seq<XmlModel> {
    match s {
        Some(sm) => seq![source_xml(sm)],
        None => Seq::empty(),
    }
}

impl Source {
    pub fn new_table(name: String, schema: Option<String>) -> (r: Self)
        ensures
            r@ == (SourceModel::Table {
                name: name@,
                schema: match schema {
                    Some(s) => Some(s@),
                    None => None,
                },
                annotations: Seq::<AnnotationModel>::empty(),
            }),
    {
        Source::Table { name, schema, annotations: Annotations::new() }
    }

    pub fn new_view(alias: String, formula: String) -> (r: Self)
        ensures
            r@ == (SourceModel::View {
                alias: alias@,
                formula: formula@,
                annotations: Seq::<AnnotationModel>::empty(),
            }),
    {
        Source::View { alias, formula, annotations: Annotations::new() }
    }

    pub fn add_annotation(&mut self, annotation: Annotation)
        ensures
            final(self)@ == (match old(self)@ {
                SourceModel::Table { name, schema, annotations } => SourceModel::Table {
                    name,
                    schema,
                    annotations: annotations.push(annotation@),
                },
                SourceModel::View { alias, formula, annotations } => SourceModel::View {
                    alias,
                    formula,
                    annotations: annotations.push(annotation@),
                },
            }),
    {
        match self {
            Source::Table { annotations, .. } => {
                annotations.add_annotation(annotation);
            },
            Source::View { annotations, .. } => {
                annotations.add_annotation(annotation);
            },
        }
    }

    pub(crate) fn build_xml(&self, parent: &mut Element)
        requires
            plain(*old(parent)),
        ensures
            plain(*final(parent)),
            view_of(*final(parent)) == add_child(view_of(*old(parent)), source_xml(self@)),
    {
        proof {
            lemma_names_plain();
        }
        match self {
            Source::Table { name, schema, annotations } => {
                let mut table = elem_new("Table");
                elem_set_attr(&mut table, "name", name.as_str());
                if let Some(sch) = schema {
                    elem_set_attr(&mut table, "schema", sch.as_str());
                }
                annotations.build_xml(&mut table);
                proof {
                    assert(view_of(table).children =~= source_xml(self@).children);
                    assert(view_of(table) =~~= source_xml(self@));
                }
                elem_append_child(parent, table);
            },
            Source::View { alias, formula, annotations } => {
                let mut view_el = elem_new("View");
                elem_set_attr(&mut view_el, "alias", alias.as_str());
                elem_set_attr(&mut view_el, "formula", formula.as_str());
                annotations.build_xml(&mut view_el);
                proof {
                    assert(view_of(view_el).children =~= source_xml(self@).children);
                    assert(view_of(view_el) =~~= source_xml(self@));
                }
                elem_append_child(parent, view_el);
            },
        }
    }
}

/// Law: an entity's rendering holds an `Annotations` child exactly when at
/// least one annotation was added; the entries then appear, one `Annotation`
/// element each, in exactly the order they were added.  Every entity splices
/// `annotations_block` into its child sequence, so this holds of them all.
pub proof fn lemma_annotations_present_iff_added(anns: Seq<AnnotationModel>)
    ensures
        anns.len() == 0 ==> annotations_block(anns) == Seq::<XmlModel>::empty(),
        anns.len() > 0 ==> annotations_block(anns).len() == 1,
        anns.len() > 0 ==> annotations_block(anns)[0].tag == "Annotations"@,
        anns.len() > 0 ==> annotations_block(anns)[0].children.len() == anns.len(),
        anns.len() > 0 ==> forall|i: int|
            0 <= i < anns.len() ==> annotations_block(anns)[0].children[i] == annotation_xml(
                anns[i],
            ),
{
}

/// Law: the child sequence of a schema's element follows the fixed
/// cross-kind order — annotation block, shared dimensions, cubes — whatever
/// the order of the `add_*` calls that filled the model; within one kind the
/// output order equals insertion order, since `map_values` keeps indices.
pub proof fn lemma_schema_child_order(s: SchemaModel)
    ensures
        schema_xml(s).children == annotations_block(s.annotations) + s.dimensions.map_values(
            |d: DimensionModel| dimension_xml(d),
        ) + s.cubes.map_values(|c: CubeModel| cube_xml(c)),
        forall|i: int|
            0 <= i < s.cubes.len() ==> schema_xml(s).children[annotations_block(s.annotations).len()
                + s.dimensions.len() + i] == cube_xml(s.cubes[i]),
{
    assert(schema_xml(s).children =~= annotations_block(s.annotations)
        + s.dimensions.map_values(|d: DimensionModel| dimension_xml(d)) + s.cubes.map_values(
        |c: CubeModel| cube_xml(c),
    ));
}

/// Law: the child sequence of a cube's element follows the fixed cross-kind
/// order — annotation block, the one source, dimensions, dimension usages,
/// measures, calculated members, named sets — whatever the order of the
/// `add_*` calls that filled the model; within one kind the output order
/// equals insertion order.
pub proof fn lemma_cube_child_order(c: CubeModel)
    ensures
        cube_xml(c).children == annotations_block(c.annotations) + seq![source_xml(c.source)]
            + c.dimensions.map_values(|d: DimensionModel| dimension_xml(d))
            + c.dimension_usages.map_values(|u: DimensionUsageModel| dimension_usage_xml(u))
            + c.measures.map_values(|m: MeasureModel| measure_xml(m))
            + c.calculated_members.map_values(
            |m: CalculatedMemberModel| calculated_member_xml(m),
        ) + c.named_sets.map_values(|n: NamedSetModel| named_set_xml(n)),
        forall|i: int|
            0 <= i < c.measures.len() ==> cube_xml(c).children[annotations_block(
                c.annotations,
            ).len() + 1 + c.dimensions.len() + c.dimension_usages.len() + i] == measure_xml(
                c.measures[i],
            ),
{
}

/// Law: the child sequence of a hierarchy's element is the annotation block,
/// then the overriding source if one is set, then the levels in insertion
/// order.
pub proof fn lemma_hierarchy_child_order(h: HierarchyModel)
    ensures
        hierarchy_xml(h).children == annotations_block(h.annotations) + source_block(h.source)
            + h.levels.map_values(|l: LevelModel| level_xml(l)),
        forall|i: int|
            0 <= i < h.levels.len() ==> hierarchy_xml(h).children[annotations_block(
                h.annotations,
            ).len() + source_block(h.source).len() + i] == level_xml(h.levels[i]),
{
}

/// Law: the child sequence of a level's element is the annotation block,
/// then the properties in insertion order.
pub proof fn lemma_level_child_order(l: LevelModel)
    ensures
        level_xml(l).children == annotations_block(l.annotations) + l.properties.map_values(
            |p: PropertyModel| property_xml(p),
        ),
        forall|i: int|
            0 <= i < l.properties.len() ==> level_xml(l).children[annotations_block(
                l.annotations,
            ).len() + i] == property_xml(l.properties[i]),
{
}

/// Law: the child sequence of a measure's element is the `MeasureExpression`
/// block — present exactly when the aggregator is `Median` or `Custom` —
/// followed by the annotation block.
pub proof fn lemma_measure_child_order(m: MeasureModel)
    ensures
        measure_xml(m).children == measure_expression_block(m.aggregator) + annotations_block(
            m.annotations,
        ),
        measure_expression_block(m.aggregator).len() == (match m.aggregator {
            AggregatorModel::Median { .. } => 1int,
            AggregatorModel::Custom { .. } => 1int,
            _ => 0int,
        }),
{
}

/// Law: rendering is deterministic.  The document text is a function of the
/// schema's model alone, so rendering the same unmodified schema twice
/// yields byte-identical output.
pub proof fn lemma_render_deterministic(s1: SchemaModel, s2: SchemaModel)
    requires
        s1 == s2,
    ensures
        xml_text_of(schema_xml(s1)) == xml_text_of(schema_xml(s2)),
{
}

} // verus!
