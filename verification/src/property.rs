//! Per-declaration metadata: visibility, docs, deprecation, version
//! gates, free-form tags, export scope, and the union-only feature
//! bitset.

use vstd::prelude::*;

verus! {

/// Visibility of a declaration.
#[derive(Clone, Copy, PartialEq, Eq, Structural, Debug)]
pub enum VisibilityKind {
    Public,
    Protected,
    Private,
    Package,
}

/// A language-runtime version, for version-gated declarations.
#[derive(Clone, Copy, PartialEq, Eq, Structural, Debug)]
pub struct LuaVersionNumber {
    pub major: u32,
    pub minor: u32,
    pub patch: u32,
}

/// A condition on the runtime version under which a declaration is
/// available.
#[derive(Clone, Copy, PartialEq, Eq, Structural, Debug)]
pub enum LuaVersionCondition {
    Eq(LuaVersionNumber),
    Gteq(LuaVersionNumber),
    Lteq(LuaVersionNumber),
}

/// Deprecation marker: plain, or carrying an explanatory message.
#[derive(Clone, PartialEq, Eq, Debug)]
pub enum LuaDeprecated {
    Deprecated,
    DeprecatedWithMessage(String),
}

/// Where an exported declaration is visible.
#[derive(Clone, Copy, PartialEq, Eq, Structural, Debug)]
pub enum LuaExportScope {
    Global,
    Namespace,
}

/// Export marker for a declaration.
#[derive(Clone, Copy, PartialEq, Eq, Structural, Debug)]
pub struct LuaExport {
    pub scope: LuaExportScope,
}

/// Free-form `(tag, content)` pairs attached to a declaration, in
/// source order; duplicates allowed.
pub struct LuaTagContent {
    pub tags: Vec<(String, String)>,
}

impl LuaTagContent {
    pub fn new() -> (r: LuaTagContent)
        ensures
            r.tags@.len() == 0,
    {
        LuaTagContent { tags: Vec::new() }
    }

    pub fn add_tag(&mut self, tag: String, content: String) -> (r: ())
        ensures
            final(self).tags@ == old(self).tags@.push((tag, content)),
    {
        self.tags.push((tag, content));
    }

    pub fn get_all_tags(&self) -> (r: &Vec<(String, String)>)
        ensures
            r == &self.tags,
    {
        &self.tags
    }
}

/// A declaration feature, one bit each.
#[derive(Clone, Copy, PartialEq, Eq, Structural, Debug)]
pub enum PropertyDeclFeature {
    ReadOnly,
    NoDiscard,
    Async,
}

/// The bit a feature occupies in the bitset.
pub open spec fn spec_feature_bit(f: PropertyDeclFeature) -> u32 {
    match f {
        PropertyDeclFeature::ReadOnly => 1u32,
        PropertyDeclFeature::NoDiscard => 2u32,
        PropertyDeclFeature::Async => 4u32,
    }
}

fn feature_bit(f: PropertyDeclFeature) -> (r: u32)
    ensures
        r == spec_feature_bit(f),
{
    match f {
        PropertyDeclFeature::ReadOnly => 1u32,
        PropertyDeclFeature::NoDiscard => 2u32,
        PropertyDeclFeature::Async => 4u32,
    }
}

/// A union-only bitset of declaration features: bits are set by
/// `add_feature` and never cleared within a session.
#[derive(Clone, Copy, PartialEq, Eq, Structural, Debug)]
pub struct DeclFeatureFlag {
    pub bits: u32,
}

impl DeclFeatureFlag {
    pub open spec fn spec_has_feature(self, f: PropertyDeclFeature) -> bool {
        self.bits & spec_feature_bit(f) != 0
    }

    pub fn new() -> (r: DeclFeatureFlag)
        ensures
            r.bits == 0u32,
            forall|f: PropertyDeclFeature| !r.spec_has_feature(f),
    {
        proof {
            assert(forall|f: PropertyDeclFeature|
                (0u32 & #[trigger] spec_feature_bit(f)) == 0u32) by (bit_vector);
        }
        DeclFeatureFlag { bits: 0 }
    }

    pub fn add_feature(&mut self, feature: PropertyDeclFeature) -> (r: ())
        ensures
            final(self).bits == old(self).bits | spec_feature_bit(feature),
            final(self).spec_has_feature(feature),
            forall|f: PropertyDeclFeature|
                old(self).spec_has_feature(f) ==> #[trigger] final(self).spec_has_feature(f),
    {
        let b = feature_bit(feature);
        self.bits = self.bits | b;
        proof {
            let bits = old(self).bits;
            assert forall|f: PropertyDeclFeature|
                bits & spec_feature_bit(f) != 0 implies (bits | spec_feature_bit(feature))
                & #[trigger] spec_feature_bit(f) != 0 by {
                let fb = spec_feature_bit(f);
                let nb = spec_feature_bit(feature);
                assert(bits & fb != 0 ==> (bits | nb) & fb != 0) by (bit_vector);
            }
            let nb = spec_feature_bit(feature);
            assert((bits | nb) & nb != 0 || nb == 0) by (bit_vector);
        }
    }

    pub fn has_feature(&self, feature: PropertyDeclFeature) -> (r: bool)
        ensures
            r == self.spec_has_feature(feature),
    {
        let b = feature_bit(feature);
        (self.bits & b) != 0
    }
}

/// Adding features never clears one: a feature present in the bitset
/// is still present after any further feature is added.
pub proof fn lemma_decl_features_monotonic(
    before: DeclFeatureFlag,
    after: DeclFeatureFlag,
    kept: PropertyDeclFeature,
    added: PropertyDeclFeature,
)
    requires
        before.spec_has_feature(kept),
        after.bits == before.bits | spec_feature_bit(added),
    ensures
        after.spec_has_feature(kept),
{
    let bits = before.bits;
    let kb = spec_feature_bit(kept);
    let ab = spec_feature_bit(added);
    assert(bits & kb != 0 ==> (bits | ab) & kb != 0) by (bit_vector);
}

/// The metadata record of one declaration. Every optional field means
/// "never annotated" when absent, not "explicitly empty". Created
/// lazily on first write and only ever added to within a session.
pub struct LuaCommonProperty {
    pub visibility: VisibilityKind,
    pub description: Option<Box<String>>,
    pub source: Option<Box<String>>,
    pub deprecated: Option<Box<LuaDeprecated>>,
    pub version_conds: Option<Box<Vec<LuaVersionCondition>>>,
    pub tag_content: Option<Box<LuaTagContent>>,
    pub export: Option<LuaExport>,
    pub decl_features: DeclFeatureFlag,
}

impl LuaCommonProperty {
    /// The tag pairs attached so far, in insertion order.
    pub open spec fn spec_tags(self) -> Seq<(String, String)> {
        match self.tag_content {
            Some(t) => t.tags@,
            None => Seq::empty(),
        }
    }

    pub fn new() -> (r: LuaCommonProperty)
        ensures
            r.visibility == VisibilityKind::Public,
            r.description is None,
            r.source is None,
            r.deprecated is None,
            r.version_conds is None,
            r.tag_content is None,
            r.export is None,
            r.decl_features.bits == 0u32,
            forall|f: PropertyDeclFeature| !r.decl_features.spec_has_feature(f),
    {
        LuaCommonProperty {
            visibility: VisibilityKind::Public,
            description: None,
            source: None,
            deprecated: None,
            version_conds: None,
            tag_content: None,
            export: None,
            decl_features: DeclFeatureFlag::new(),
        }
    }

    pub fn description(&self) -> (r: Option<&String>)
        ensures
            r is Some <==> self.description is Some,
            r matches Some(d) ==> self.description matches Some(b) && d@ == b@,
    {
        match &self.description {
            Some(b) => Some(&**b),
            None => None,
        }
    }

    pub fn version_conds(&self) -> (r: Option<&Vec<LuaVersionCondition>>)
        ensures
            r is Some <==> self.version_conds is Some,
            r matches Some(v) ==> self.version_conds matches Some(b) && v@ == b@,
    {
        match &self.version_conds {
            Some(b) => Some(&**b),
            None => None,
        }
    }

    pub fn export(&self) -> (r: Option<&LuaExport>)
        ensures
            r is Some <==> self.export is Some,
            r matches Some(e) ==> self.export == Some(*e),
    {
        match &self.export {
            Some(e) => Some(e),
            None => None,
        }
    }

    pub fn tag_content(&self) -> (r: Option<&LuaTagContent>)
        ensures
            r is Some <==> self.tag_content is Some,
            r matches Some(t) ==> self.tag_content matches Some(b) && t.tags@ == b.tags@,
    {
        match &self.tag_content {
            Some(b) => Some(&**b),
            None => None,
        }
    }

    pub fn deprecated(&self) -> (r: Option<&LuaDeprecated>)
        ensures
            r is Some <==> self.deprecated is Some,
            r matches Some(d) ==> self.deprecated matches Some(b) && *d == *b,
    {
        match &self.deprecated {
            Some(b) => Some(&**b),
            None => None,
        }
    }

    pub fn source(&self) -> (r: Option<&String>)
        ensures
            r is Some <==> self.source is Some,
            r matches Some(s) ==> self.source matches Some(b) && s@ == b@,
    {
        match &self.source {
            Some(b) => Some(&**b),
            None => None,
        }
    }

    pub fn add_extra_description(&mut self, description: String) -> (r: ())
        ensures
            final(self).description matches Some(d) && d == description,
            *final(self) == (LuaCommonProperty { description: final(self).description, ..*old(self) }),
    {
        self.description = Some(Box::new(description));
    }

    pub fn add_extra_source(&mut self, source: String) -> (r: ())
        ensures
            final(self).source matches Some(s) && s == source,
            *final(self) == (LuaCommonProperty { source: final(self).source, ..*old(self) }),
    {
        self.source = Some(Box::new(source));
    }

    /// Mark deprecated, with a message when one was given.
    pub fn add_extra_deprecated(&mut self, message: Option<String>) -> (r: ())
        ensures
            message matches Some(m) ==> (final(self).deprecated matches Some(d) && *d
                == LuaDeprecated::DeprecatedWithMessage(m)),
            message is None ==> (final(self).deprecated matches Some(d) && *d
                == LuaDeprecated::Deprecated),
            *final(self) == (LuaCommonProperty { deprecated: final(self).deprecated, ..*old(self) }),
    {
        self.deprecated = match message {
            Some(msg) => Some(Box::new(LuaDeprecated::DeprecatedWithMessage(msg))),
            None => Some(Box::new(LuaDeprecated::Deprecated)),
        };
    }

    pub fn add_extra_version_cond(&mut self, conds: Vec<LuaVersionCondition>) -> (r: ())
        ensures
            final(self).version_conds matches Some(v) && v == conds,
            *final(self) == (LuaCommonProperty {
                version_conds: final(self).version_conds,
                ..*old(self)
            }),
    {
        self.version_conds = Some(Box::new(conds));
    }

    /// Append one `(tag, content)` pair, creating the tag table on
    /// first use.
    pub fn add_extra_tag(&mut self, tag: String, content: String) -> (r: ())
        ensures
            final(self).spec_tags() == old(self).spec_tags().push((tag, content)),
            *final(self) == (LuaCommonProperty { tag_content: final(self).tag_content, ..*old(self) }),
    {
        match &mut self.tag_content {
            Some(t) => {
                t.add_tag(tag, content);
            },
            None => {
                let mut t = LuaTagContent::new();
                t.add_tag(tag, content);
                proof {
                    assert(t.tags@ =~= old(self).spec_tags().push((tag, content)));
                }
                self.tag_content = Some(Box::new(t));
            },
        }
    }

    pub fn add_extra_export(&mut self, export: LuaExport) -> (r: ())
        ensures
            final(self).export == Some(export),
            *final(self) == (LuaCommonProperty { export: final(self).export, ..*old(self) }),
    {
        self.export = Some(export);
    }

    /// Set one feature bit; existing bits are never cleared.
    pub fn add_decl_feature(&mut self, feature: PropertyDeclFeature) -> (r: ())
        ensures
            final(self).decl_features.bits == old(self).decl_features.bits | spec_feature_bit(
                feature,
            ),
            final(self).decl_features.spec_has_feature(feature),
            forall|f: PropertyDeclFeature|
                old(self).decl_features.spec_has_feature(f)
                    ==> #[trigger] final(self).decl_features.spec_has_feature(f),
            *final(self) == (LuaCommonProperty {
                decl_features: final(self).decl_features,
                ..*old(self)
            }),
    {
        self.decl_features.add_feature(feature);
    }
}

/// Identity of a property record inside the index.
#[derive(Clone, Copy, PartialEq, Eq, Hash, Structural, Debug)]
pub struct LuaPropertyId {
    pub id: u32,
}

impl LuaPropertyId {
    pub fn new(id: u32) -> (r: LuaPropertyId)
        ensures
            r.id == id,
    {
        LuaPropertyId { id }
    }
}

} // verus!
