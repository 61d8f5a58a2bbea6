//! Dimensions and what they own: hierarchies, levels, level properties,
//! dimension usages and named sets.

use vstd::prelude::*;

use elementtree::Element;

use crate::{
    Annotation, AnnotationModel, Annotations, Source, SourceModel, annotations_block,
    source_block,
};
use crate::xml::{
    XmlModel, view_of, plain, add_child, bool_str, bool_attr, lemma_names_plain, elem_new,
    elem_set_attr, elem_append_child,
};

verus! {

/// A named classification axis composed of one or more [`Hierarchy`]s.
#[derive(Debug, Clone, PartialEq)]
pub struct Dimension {
    name: String,
    hierarchies: Vec<Hierarchy>,
    annotations: Annotations,
}

/// Ghost model of a [`Dimension`].
#[verifier::ext_equal]
pub ghost struct DimensionModel {
    pub name: Seq<char>,
    pub hierarchies: Seq<HierarchyModel>,
    pub annotations: Seq<AnnotationModel>,
}

impl View for Dimension {
    type V = DimensionModel;

    closed spec fn view(&self) -> DimensionModel {
        DimensionModel {
            name: self.name@,
            hierarchies: self.hierarchies@.map_values(|h: Hierarchy| h@),
            annotations: self.annotations@,
        }
    }
}

/// The element a dimension renders to: its `name` attribute, then the
/// annotation block, then one element per hierarchy, in insertion order.
pub open spec fn dimension_xml(d: DimensionModel) -> XmlModel {
    XmlModel {
        tag: "Dimension"@,
        attrs: Map::empty().insert("name"@, d.name),
        text: Seq::empty(),
        children: annotations_block(d.annotations)
            + d.hierarchies.map_values(|h: HierarchyModel| hierarchy_xml(h)),
    }
}

impl Dimension {
    pub fn new(name: String) -> (r: Self)
        ensures
            r@ == (DimensionModel {
                name: name@,
                hierarchies: Seq::<HierarchyModel>::empty(),
                annotations: Seq::<AnnotationModel>::empty(),
            }),
    {
        Dimension { name, hierarchies: Vec::new(), annotations: Annotations::new() }
    }

    /// Any hierarchy may be appended; by convention only the first one (the
    /// default hierarchy) goes without a name, but this is not enforced.
    pub fn add_hierarchy(&mut self, hierarchy: Hierarchy)
        ensures
            final(self)@ == (DimensionModel {
                hierarchies: old(self)@.hierarchies.push(hierarchy@),
                ..old(self)@
            }),
    {
        let ghost h = hierarchy@;
        self.hierarchies.push(hierarchy);
        proof {
            assert(final(self)@.hierarchies =~= old(self)@.hierarchies.push(h));
        }
    }

    pub fn add_annotation(&mut self, annotation: Annotation)
        ensures
            final(self)@ == (DimensionModel {
                annotations: old(self)@.annotations.push(annotation@),
                ..old(self)@
            }),
    {
        self.annotations.add_annotation(annotation);
    }

    pub(crate) fn build_xml(&self, parent: &mut Element)
        requires
            plain(*old(parent)),
        ensures
            plain(*final(parent)),
            view_of(*final(parent)) == add_child(view_of(*old(parent)), dimension_xml(self@)),
    {
        proof {
            lemma_names_plain();
        }
        let mut dimension = elem_new("Dimension");
        elem_set_attr(&mut dimension, "name", self.name.as_str());
        self.annotations.build_xml(&mut dimension);
        let ghost base = view_of(dimension);
        proof {
            assert(view_of(dimension) =~~= (XmlModel {
                children: base.children + self@.hierarchies.take(0).map_values(
                    |h: HierarchyModel| hierarchy_xml(h),
                ),
                ..base
            }));
        }
        let mut i: usize = 0;
        while i < self.hierarchies.len()
            invariant
                i <= self.hierarchies.len(),
                plain(dimension),
                view_of(dimension) == (XmlModel {
                    children: base.children + self@.hierarchies.take(i as int).map_values(
                        |h: HierarchyModel| hierarchy_xml(h),
                    ),
                    ..base
                }),
            decreases self.hierarchies.len() - i,
        {
            self.hierarchies[i].build_xml(&mut dimension);
            proof {
                assert((base.children + self@.hierarchies.take(i as int).map_values(
                    |h: HierarchyModel| hierarchy_xml(h),
                )).push(hierarchy_xml(self@.hierarchies[i as int])) =~= base.children
                    + self@.hierarchies.take(i as int + 1).map_values(
                    |h: HierarchyModel| hierarchy_xml(h),
                ));
            }
            i = i + 1;
        }
        proof {
            assert(self@.hierarchies.take(self.hierarchies.len() as int) =~= self@.hierarchies);
            assert(view_of(dimension).children =~= dimension_xml(self@).children);
            assert(view_of(dimension) =~~= dimension_xml(self@));
        }
        elem_append_child(parent, dimension);
    }
}

/// An ordered drill-down path of [`Level`]s, optionally backed by its own
/// [`Source`]; the default hierarchy of a dimension carries no name.
#[derive(Debug, Clone, PartialEq)]
pub struct Hierarchy {
    name: Option<String>,
    source: Option<Source>,
    has_all: bool,
    levels: Vec<Level>,
    annotations: Annotations,
}

/// Ghost model of a [`Hierarchy`].
#[verifier::ext_equal]
pub ghost struct HierarchyModel {
    pub name: Option<Seq<char>>,
    pub source: Option<SourceModel>,
    pub has_all: bool,
    pub levels: Seq<LevelModel>,
    pub annotations: Seq<AnnotationModel>,
}

impl View for Hierarchy {
    type V = HierarchyModel;

    closed spec fn view(&self) -> HierarchyModel {
        HierarchyModel {
            name: match self.name {
                Some(n) => Some(n@),
                None => None,
            },
            source: match self.source {
                Some(s) => Some(s@),
                None => None,
            },
            has_all: self.has_all,
            levels: self.levels@.map_values(|l: Level| l@),
            annotations: self.annotations@,
        }
    }
}

/// The attributes of a hierarchy element: `hasAll` always, `name` only when
/// the hierarchy carries one.
pub open spec fn hierarchy_attrs(h: HierarchyModel) -> Map<Seq<char>, Seq<char>> {
    let base = Map::<Seq<char>, Seq<char>>::empty().insert("hasAll"@, bool_str(h.has_all));
    match h.name {
        Some(n) => base.insert("name"@, n),
        None => base,
    }
}

/// The element a hierarchy renders to: the annotation block, then the
/// overriding source if one is set, then one element per level, in order.
pub open spec fn hierarchy_xml(h: HierarchyModel) -> XmlModel {
    XmlModel {
        tag: "Hierarchy"@,
        attrs: hierarchy_attrs(h),
        text: Seq::empty(),
        children: annotations_block(h.annotations) + source_block(h.source)
            + h.levels.map_values(|l: LevelModel| level_xml(l)),
    }
}

impl Hierarchy {
    pub fn new(name: Option<String>, source: Option<Source>, has_all: bool) -> (r: Self)
        ensures
            r@ == (HierarchyModel {
                name: match name {
                    Some(n) => Some(n@),
                    None => None,
                },
                source: match source {
                    Some(s) => Some(s@),
                    None => None,
                },
                has_all: has_all,
                levels: Seq::<LevelModel>::empty(),
                annotations: Seq::<AnnotationModel>::empty(),
            }),
    {
        Hierarchy { name, source, has_all, levels: Vec::new(), annotations: Annotations::new() }
    }

    pub fn add_level(&mut self, level: Level)
        ensures
            final(self)@ == (HierarchyModel {
                levels: old(self)@.levels.push(level@),
                ..old(self)@
            }),
    {
        let ghost l = level@;
        self.levels.push(level);
        proof {
            assert(final(self)@.levels =~= old(self)@.levels.push(l));
        }
    }

    pub fn add_annotation(&mut self, annotation: Annotation)
        ensures
            final(self)@ == (HierarchyModel {
                annotations: old(self)@.annotations.push(annotation@),
                ..old(self)@
            }),
    {
        self.annotations.add_annotation(annotation);
    }

    pub(crate) fn build_xml(&self, parent: &mut Element)
        requires
            plain(*old(parent)),
        ensures
            plain(*final(parent)),
            view_of(*final(parent)) == add_child(view_of(*old(parent)), hierarchy_xml(self@)),
    {
        proof {
            lemma_names_plain();
        }
        let mut hierarchy = elem_new("Hierarchy");
        elem_set_attr(&mut hierarchy, "hasAll", bool_attr(self.has_all));
        if let Some(name) = &self.name {
            elem_set_attr(&mut hierarchy, "name", name.as_str());
        }
        self.annotations.build_xml(&mut hierarchy);
        if let Some(source) = &self.source {
            source.build_xml(&mut hierarchy);
        }
        let ghost base = view_of(hierarchy);
        proof {
            assert(base.children =~= annotations_block(self@.annotations)
                + source_block(self@.source));
            assert(view_of(hierarchy) =~~= (XmlModel {
                children: base.children + self@.levels.take(0).map_values(
                    |l: LevelModel| level_xml(l),
                ),
                ..base
            }));
        }
        let mut i: usize = 0;
        while i < self.levels.len()
            invariant
                i <= self.levels.len(),
                plain(hierarchy),
                base.children == annotations_block(self@.annotations) + source_block(self@.source),
                base.attrs == hierarchy_attrs(self@),
                base.tag == "Hierarchy"@,
                base.text == Seq::<char>::empty(),
                view_of(hierarchy) == (XmlModel {
                    children: base.children + self@.levels.take(i as int).map_values(
                        |l: LevelModel| level_xml(l),
                    ),
                    ..base
                }),
            decreases self.levels.len() - i,
        {
            self.levels[i].build_xml(&mut hierarchy);
            proof {
                assert((base.children + self@.levels.take(i as int).map_values(
                    |l: LevelModel| level_xml(l),
                )).push(level_xml(self@.levels[i as int])) =~= base.children
                    + self@.levels.take(i as int + 1).map_values(|l: LevelModel| level_xml(l)));
            }
            i = i + 1;
        }
        proof {
            assert(self@.levels.take(self.levels.len() as int) =~= self@.levels);
            assert(view_of(hierarchy).children =~= hierarchy_xml(self@).children);
            assert(view_of(hierarchy) =~~= hierarchy_xml(self@));
        }
        elem_append_child(parent, hierarchy);
    }
}

/// One rank within a [`Hierarchy`], backed by a column.
#[derive(Debug, Clone, PartialEq)]
pub struct Level {
    name: String,
    column: String,
    name_column: Option<String>,
    level_type: Option<String>,
    _type: Option<String>,
    unique_members: bool,
    annotations: Annotations,
    properties: Vec<Property>,
}

/// Ghost model of a [`Level`].  The `_type` slot is stored but never
/// rendered, matching the document contract.
#[verifier::ext_equal]
pub ghost struct LevelModel {
    pub name: Seq<char>,
    pub column: Seq<char>,
    pub name_column: Option<Seq<char>>,
    pub level_type: Option<Seq<char>>,
    pub _type: Option<Seq<char>>,
    pub unique_members: bool,
    pub annotations: Seq<AnnotationModel>,
    pub properties: Seq<PropertyModel>,
}

impl View for Level {
    type V = LevelModel;

    closed spec fn view(&self) -> LevelModel {
        LevelModel {
            name: self.name@,
            column: self.column@,
            name_column: match self.name_column {
                Some(c) => Some(c@),
                None => None,
            },
            level_type: match self.level_type {
                Some(t) => Some(t@),
                None => None,
            },
            _type: match self._type {
                Some(t) => Some(t@),
                None => None,
            },
            unique_members: self.unique_members,
            annotations: self.annotations@,
            properties: self.properties@.map_values(|p: Property| p@),
        }
    }
}

/// The attributes of a level element: `name`, `column` and `uniqueMembers`
/// always; `levelType` and `nameColumn` only when set.
pub open spec fn level_attrs(l: LevelModel) -> Map<Seq<char>, Seq<char>> {
    let base = Map::<Seq<char>, Seq<char>>::empty().insert("name"@, l.name).insert(
        "column"@,
        l.column,
    ).insert("uniqueMembers"@, bool_str(l.unique_members));
    let with_type = match l.level_type {
        Some(t) => base.insert("levelType"@, t),
        None => base,
    };
    match l.name_column {
        Some(c) => with_type.insert("nameColumn"@, c),
        None => with_type,
    }
}

/// The element a level renders to: the annotation block, then one element
/// per property, in insertion order.
pub open spec fn level_xml(l: LevelModel) -> XmlModel {
    XmlModel {
        tag: "Level"@,
        attrs: level_attrs(l),
        text: Seq::empty(),
        children: annotations_block(l.annotations)
            + l.properties.map_values(|p: PropertyModel| property_xml(p)),
    }
}

impl Level {
    pub fn new(
        name: String,
        column: String,
        name_column: Option<String>,
        level_type: Option<String>,
        _type: Option<String>,
        unique_members: bool,
    ) -> (r: Self)
        ensures
            r@ == (LevelModel {
                name: name@,
                column: column@,
                name_column: match name_column {
                    Some(c) => Some(c@),
                    None => None,
                },
                level_type: match level_type {
                    Some(t) => Some(t@),
                    None => None,
                },
                _type: match _type {
                    Some(t) => Some(t@),
                    None => None,
                },
                unique_members: unique_members,
                annotations: Seq::<AnnotationModel>::empty(),
                properties: Seq::<PropertyModel>::empty(),
            }),
    {
        Level {
            name,
            column,
            name_column,
            level_type,
            _type,
            unique_members,
            annotations: Annotations::new(),
            properties: Vec::new(),
        }
    }

    pub fn add_annotation(&mut self, annotation: Annotation)
        ensures
            final(self)@ == (LevelModel {
                annotations: old(self)@.annotations.push(annotation@),
                ..old(self)@
            }),
    {
        self.annotations.add_annotation(annotation);
    }

    pub fn add_property(&mut self, property: Property)
        ensures
            final(self)@ == (LevelModel {
                properties: old(self)@.properties.push(property@),
                ..old(self)@
            }),
    {
        let ghost p = property@;
        self.properties.push(property);
        proof {
            assert(final(self)@.properties =~= old(self)@.properties.push(p));
        }
    }

    pub(crate) fn build_xml(&self, parent: &mut Element)
        requires
            plain(*old(parent)),
        ensures
            plain(*final(parent)),
            view_of(*final(parent)) == add_child(view_of(*old(parent)), level_xml(self@)),
    {
        proof {
            lemma_names_plain();
        }
        let mut level = elem_new("Level");
        elem_set_attr(&mut level, "name", self.name.as_str());
        elem_set_attr(&mut level, "column", self.column.as_str());
        elem_set_attr(&mut level, "uniqueMembers", bool_attr(self.unique_members));
        if let Some(level_type) = &self.level_type {
            elem_set_attr(&mut level, "levelType", level_type.as_str());
        }
        if let Some(name_column) = &self.name_column {
            elem_set_attr(&mut level, "nameColumn", name_column.as_str());
        }
        self.annotations.build_xml(&mut level);
        let ghost base = view_of(level);
        proof {
            assert(base.children =~= annotations_block(self@.annotations));
            assert(view_of(level) =~~= (XmlModel {
                children: base.children + self@.properties.take(0).map_values(
                    |p: PropertyModel| property_xml(p),
                ),
                ..base
            }));
        }
        let mut i: usize = 0;
        while i < self.properties.len()
            invariant
                i <= self.properties.len(),
                plain(level),
                base.children == annotations_block(self@.annotations),
                base.attrs == level_attrs(self@),
                base.tag == "Level"@,
                base.text == Seq::<char>::empty(),
                view_of(level) == (XmlModel {
                    children: base.children + self@.properties.take(i as int).map_values(
                        |p: PropertyModel| property_xml(p),
                    ),
                    ..base
                }),
            decreases self.properties.len() - i,
        {
            self.properties[i].build_xml(&mut level);
            proof {
                assert((base.children + self@.properties.take(i as int).map_values(
                    |p: PropertyModel| property_xml(p),
                )).push(property_xml(self@.properties[i as int])) =~= base.children
                    + self@.properties.take(i as int + 1).map_values(
                    |p: PropertyModel| property_xml(p),
                ));
            }
            i = i + 1;
        }
        proof {
            assert(self@.properties.take(self.properties.len() as int) =~= self@.properties);
            assert(view_of(level).children =~= level_xml(self@).children);
            assert(view_of(level) =~~= level_xml(self@));
        }
        elem_append_child(parent, level);
    }
}

/// A member property of a [`Level`], backed by a column.
#[derive(Debug, Clone, PartialEq)]
pub struct Property {
    name: String,
    column: String,
    annotations: Annotations,
}

/// Ghost model of a [`Property`].
#[verifier::ext_equal]
pub ghost struct PropertyModel {
    pub name: Seq<char>,
    pub column: Seq<char>,
    pub annotations: Seq<AnnotationModel>,
}

impl View for Property {
    type V = PropertyModel;

    closed spec fn view(&self) -> PropertyModel {
        PropertyModel {
            name: self.name@,
            column: self.column@,
            annotations: self.annotations@,
        }
    }
}

/// The element a property renders to.
pub open spec fn property_xml(p: PropertyModel) -> XmlModel {
    XmlModel {
        tag: "Property"@,
        attrs: Map::empty().insert("name"@, p.name).insert("column"@, p.column),
        text: Seq::empty(),
        children: annotations_block(p.annotations),
    }
}

impl Property {
    pub fn new(name: String, column: String) -> (r: Self)
        ensures
            r@ == (PropertyModel {
                name: name@,
                column: column@,
                annotations: Seq::<AnnotationModel>::empty(),
            }),
    {
        Property { name, column, annotations: Annotations::new() }
    }

    pub fn add_annotation(&mut self, annotation: Annotation)
        ensures
            final(self)@ == (PropertyModel {
                annotations: old(self)@.annotations.push(annotation@),
                ..old(self)@
            }),
    {
        self.annotations.add_annotation(annotation);
    }

    pub(crate) fn build_xml(&self, parent: &mut Element)
        requires
            plain(*old(parent)),
        ensures
            plain(*final(parent)),
            view_of(*final(parent)) == add_child(view_of(*old(parent)), property_xml(self@)),
    {
        proof {
            lemma_names_plain();
        }
        let mut property = elem_new("Property");
        elem_set_attr(&mut property, "name", self.name.as_str());
        elem_set_attr(&mut property, "column", self.column.as_str());
        self.annotations.build_xml(&mut property);
        proof {
            assert(view_of(property).children =~= property_xml(self@).children);
            assert(view_of(property) =~~= property_xml(self@));
        }
        elem_append_child(parent, property);
    }
}

/// A reference linking a [`crate::Cube`] to a dimension defined elsewhere in
/// the schema, joined through a foreign key; the reference is not validated.
#[derive(Debug, Clone, PartialEq)]
pub struct DimensionUsage {
    name: String,
    source: String,
    foreign_key: String,
    annotations: Annotations,
}

/// Ghost model of a [`DimensionUsage`]; `source` names a dimension, not a
/// table or view.
#[verifier::ext_equal]
pub ghost struct DimensionUsageModel {
    pub name: Seq<char>,
    pub source: Seq<char>,
    pub foreign_key: Seq<char>,
    pub annotations: Seq<AnnotationModel>,
}

impl View for DimensionUsage {
    type V = DimensionUsageModel;

    closed spec fn view(&self) -> DimensionUsageModel {
        DimensionUsageModel {
            name: self.name@,
            source: self.source@,
            foreign_key: self.foreign_key@,
            annotations: self.annotations@,
        }
    }
}

/// The element a dimension usage renders to.
pub open spec fn dimension_usage_xml(u: DimensionUsageModel) -> XmlModel {
    XmlModel {
        tag: "DimensionUsage"@,
        attrs: Map::empty().insert("name"@, u.name).insert("source"@, u.source).insert(
            "foreign_key"@,
            u.foreign_key,
        ),
        text: Seq::empty(),
        children: annotations_block(u.annotations),
    }
}

impl DimensionUsage {
    pub fn new(name: String, source: String, foreign_key: String) -> (r: Self)
        ensures
            r@ == (DimensionUsageModel {
                name: name@,
                source: source@,
                foreign_key: foreign_key@,
                annotations: Seq::<AnnotationModel>::empty(),
            }),
    {
        DimensionUsage { name, source, foreign_key, annotations: Annotations::new() }
    }

    pub fn add_annotation(&mut self, annotation: Annotation)
        ensures
            final(self)@ == (DimensionUsageModel {
                annotations: old(self)@.annotations.push(annotation@),
                ..old(self)@
            }),
    {
        self.annotations.add_annotation(annotation);
    }

    pub(crate) fn build_xml(&self, parent: &mut Element)
        requires
            plain(*old(parent)),
        ensures
            plain(*final(parent)),
            view_of(*final(parent)) == add_child(
                view_of(*old(parent)),
                dimension_usage_xml(self@),
            ),
    {
        proof {
            lemma_names_plain();
        }
        let mut dimension_usage = elem_new("DimensionUsage");
        elem_set_attr(&mut dimension_usage, "name", self.name.as_str());
        elem_set_attr(&mut dimension_usage, "source", self.source.as_str());
        elem_set_attr(&mut dimension_usage, "foreign_key", self.foreign_key.as_str());
        self.annotations.build_xml(&mut dimension_usage);
        proof {
            assert(view_of(dimension_usage).children =~= dimension_usage_xml(self@).children);
            assert(view_of(dimension_usage) =~~= dimension_usage_xml(self@));
        }
        elem_append_child(parent, dimension_usage);
    }
}

/// A named, formula-defined set exposed alongside raw measures.
#[derive(Debug, Clone, PartialEq)]
pub struct NamedSet {
    name: String,
    formula: String,
    visible: bool,
    annotations: Annotations,
}

/// Ghost model of a [`NamedSet`].
#[verifier::ext_equal]
pub ghost struct NamedSetModel {
    pub name: Seq<char>,
    pub formula: Seq<char>,
    pub visible: bool,
    pub annotations: Seq<AnnotationModel>,
}

impl View for NamedSet {
    type V = NamedSetModel;

    closed spec fn view(&self) -> NamedSetModel {
        NamedSetModel {
            name: self.name@,
            formula: self.formula@,
            visible: self.visible,
            annotations: self.annotations@,
        }
    }
}

/// The element a named set renders to.
pub open spec fn named_set_xml(n: NamedSetModel) -> XmlModel {
    XmlModel {
        tag: "NamedSet"@,
        attrs: Map::empty().insert("name"@, n.name).insert("formula"@, n.formula).insert(
            "visible"@,
            bool_str(n.visible),
        ),
        text: Seq::empty(),
        children: annotations_block(n.annotations),
    }
}

impl NamedSet {
    pub fn new(name: String, formula: String, visible: bool) -> (r: Self)
        ensures
            r@ == (NamedSetModel {
                name: name@,
                formula: formula@,
                visible: visible,
                annotations: Seq::<AnnotationModel>::empty(),
            }),
    {
        NamedSet { name, formula, visible, annotations: Annotations::new() }
    }

    pub(crate) fn build_xml(&self, parent: &mut Element)
        requires
            plain(*old(parent)),
        ensures
            plain(*final(parent)),
            view_of(*final(parent)) == add_child(view_of(*old(parent)), named_set_xml(self@)),
    {
        proof {
            lemma_names_plain();
        }
        let mut named_set = elem_new("NamedSet");
        elem_set_attr(&mut named_set, "name", self.name.as_str());
        elem_set_attr(&mut named_set, "formula", self.formula.as_str());
        elem_set_attr(&mut named_set, "visible", bool_attr(self.visible));
        self.annotations.build_xml(&mut named_set);
        proof {
            assert(view_of(named_set).children =~= named_set_xml(self@).children);
            assert(view_of(named_set) =~~= named_set_xml(self@));
        }
        elem_append_child(parent, named_set);
    }
}

} // verus!
