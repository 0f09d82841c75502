//! The property/attribute index: per-declaration metadata records,
//! keyed by an opaque declaration identity, created lazily on first
//! write and only ever added to within a session.

use std::collections::HashMap;
use vstd::prelude::*;

use crate::property::{DeclFeatureFlag, LuaCommonProperty, VisibilityKind};
use crate::types::{LuaType, LuaTypeDeclId};

verus! {

/// Opaque identity of a named binding (variable, field, function),
/// independent of its syntactic occurrences.
#[derive(Clone, Copy, PartialEq, Eq, Hash, Structural, Debug)]
pub struct LuaSemanticDeclId {
    pub raw: u64,
}

impl LuaSemanticDeclId {
    pub fn new(raw: u64) -> (r: LuaSemanticDeclId)
        ensures
            r.raw == raw,
    {
        LuaSemanticDeclId { raw }
    }
}

/// One attribute use attached to a declaration: a reference to the
/// declared attribute type and the literal argument values, each
/// typed as the narrowest applicable literal-constant type.
pub struct LuaAttributeUse {
    pub id: LuaTypeDeclId,
    pub args: Vec<LuaType>,
}

impl LuaAttributeUse {
    pub fn new(id: LuaTypeDeclId, args: Vec<LuaType>) -> (r: LuaAttributeUse)
        ensures
            r.id == id,
            r.args == args,
    {
        LuaAttributeUse { id, args }
    }
}

/// The default metadata record, as created on first write.
pub open spec fn spec_default_property() -> LuaCommonProperty {
    LuaCommonProperty {
        visibility: VisibilityKind::Public,
        description: None,
        source: None,
        deprecated: None,
        version_conds: None,
        tag_content: None,
        export: None,
        decl_features: DeclFeatureFlag { bits: 0 },
    }
}

/// Metadata store: one `LuaCommonProperty` per declaration identity,
/// plus the attribute uses attached to each declaration in source
/// order.
pub struct LuaPropertyIndex {
    pub properties: HashMap<u64, LuaCommonProperty>,
    pub attributes: HashMap<u64, Vec<LuaAttributeUse>>,
}

impl LuaPropertyIndex {
    /// The attribute uses recorded so far for one declaration.
    pub open spec fn spec_attrs(self, raw: u64) -> Seq<LuaAttributeUse> {
        if self.attributes@.contains_key(raw) {
            self.attributes@[raw]@
        } else {
            Seq::empty()
        }
    }

    pub fn new() -> (r: LuaPropertyIndex)
        ensures
            r.properties@ == Map::<u64, LuaCommonProperty>::empty(),
            r.attributes@ == Map::<u64, Vec<LuaAttributeUse>>::empty(),
    {
        LuaPropertyIndex { properties: HashMap::new(), attributes: HashMap::new() }
    }

    /// The record for `owner`, created as the default record if this
    /// is the first write for that identity. Mutations through the
    /// returned reference land in the index.
    pub fn get_or_create(&mut self, owner: LuaSemanticDeclId) -> (r: &mut LuaCommonProperty)
        ensures
            *r == (if old(self).properties@.contains_key(owner.raw) {
                old(self).properties@[owner.raw]
            } else {
                spec_default_property()
            }),
            final(self).properties@ == old(self).properties@.insert(owner.raw, *final(r)),
            final(self).attributes@ == old(self).attributes@,
    {
        self.properties.entry(owner.raw).or_insert(LuaCommonProperty::new())
    }

    /// Append one attribute use to `owner`'s list, creating the list
    /// on first use; records for other identities are untouched.
    pub fn add_attribute_use(&mut self, owner: LuaSemanticDeclId, attribute_use: LuaAttributeUse) -> (r:
        ())
        ensures
            final(self).spec_attrs(owner.raw) == old(self).spec_attrs(owner.raw).push(
                attribute_use,
            ),
            forall|k: u64| k != owner.raw ==> final(self).spec_attrs(k) == old(self).spec_attrs(k),
            final(self).properties@ == old(self).properties@,
    {
        let list = self.attributes.entry(owner.raw).or_insert(Vec::new());
        list.push(attribute_use);
    }

    /// The metadata recorded for `owner`, if any was ever written.
    pub fn get_property(&self, owner: &LuaSemanticDeclId) -> (r: Option<&LuaCommonProperty>)
        ensures
            r is Some <==> self.properties@.contains_key(owner.raw),
            r matches Some(p) ==> *p == self.properties@[owner.raw],
    {
        self.properties.get(&owner.raw)
    }

    /// The attribute uses recorded for `owner`, if any.
    pub fn get_attribute_uses(&self, owner: &LuaSemanticDeclId) -> (r: Option<&Vec<LuaAttributeUse>>)
        ensures
            r is Some <==> self.attributes@.contains_key(owner.raw),
            r matches Some(v) ==> v@ == self.spec_attrs(owner.raw),
    {
        self.attributes.get(&owner.raw)
    }
}

} // verus!
