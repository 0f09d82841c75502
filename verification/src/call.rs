//! Call-expression analysis: when a call goes to a signature whose
//! parameter documentation carries a constructor attribute, the call
//! is queued for later class-constructor resolution.

use vstd::prelude::*;

use crate::index::LuaAttributeUse;
use crate::types::{LuaSignatureId, LuaType};
use crate::workspace::FileId;
use std::collections::HashMap;

verus! {

/// Documentation of one declared parameter: the attribute uses
/// written for it, if any.
pub struct LuaDocParamInfo {
    pub attributes: Option<Vec<LuaAttributeUse>>,
}

/// One signature's parameter documentation, keyed by parameter
/// position.
pub struct LuaSignature {
    pub param_docs: Vec<(u32, LuaDocParamInfo)>,
}

/// The signatures of a workspace, by identity.
pub struct LuaSignatureIndex {
    pub signatures: HashMap<u32, LuaSignature>,
}

impl LuaSignatureIndex {
    pub fn new() -> (r: LuaSignatureIndex)
        ensures
            r.signatures@ == Map::<u32, LuaSignature>::empty(),
    {
        LuaSignatureIndex { signatures: HashMap::new() }
    }

    pub fn insert(&mut self, id: LuaSignatureId, sig: LuaSignature) -> (r: ())
        ensures
            final(self).signatures@ == old(self).signatures@.insert(id.id, sig),
    {
        self.signatures.insert(id.id, sig);
    }

    pub fn get(&self, id: &LuaSignatureId) -> (r: Option<&LuaSignature>)
        ensures
            r is Some <==> self.signatures@.contains_key(id.id),
            r matches Some(s) ==> *s == self.signatures@[id.id],
    {
        self.signatures.get(&id.id)
    }
}

/// A call waiting for class-constructor resolution.
pub struct UnResolveClassCtor {
    pub file_id: FileId,
    pub call_id: u32,
    pub signature_id: LuaSignatureId,
    pub param_idx: u32,
}

/// Whether one parameter's documentation carries the constructor
/// attribute.
pub open spec fn spec_has_ctor_attr(info: LuaDocParamInfo) -> bool {
    match info.attributes {
        Some(attrs) => exists|a: int|
            0 <= a < attrs@.len() && (#[trigger] attrs@[a]).id.key() == "class_ctor"@,
        None => false,
    }
}

fn has_ctor_attr(info: &LuaDocParamInfo) -> (r: bool)
    ensures
        r == spec_has_ctor_attr(*info),
{
    let marker: String = "class_ctor".to_owned();
    match &info.attributes {
        None => false,
        Some(attrs) => {
            let n = attrs.len();
            let mut a: usize = 0;
            while a < n
                invariant
                    info.attributes matches Some(at) && at == attrs,
                    n == attrs@.len(),
                    0 <= a <= n,
                    marker@ == "class_ctor"@,
                    forall|q: int| 0 <= q < a ==> (#[trigger] attrs@[q]).id.key() != "class_ctor"@,
                decreases n - a,
            {
                if *attrs[a].id.get_name() == marker {
                    return true;
                }
                a = a + 1;
            }
            false
        },
    }
}

/// Inspect a call whose prefix was inferred: if it calls a known
/// signature and some documented parameter carries the constructor
/// attribute, hand back the work item to queue; the first such
/// parameter in documentation order wins.
pub fn analyze_call(
    index: &LuaSignatureIndex,
    prefix_type: &LuaType,
    file_id: FileId,
    call_id: u32,
) -> (r: Option<UnResolveClassCtor>)
    ensures
        r is Some <==> (prefix_type matches LuaType::Signature(sid)
            && index.signatures@.contains_key(sid.id) && exists|p: int|
            0 <= p < index.signatures@[sid.id].param_docs@.len() && spec_has_ctor_attr(
            (#[trigger] index.signatures@[sid.id].param_docs@[p]).1,
        )),
        r matches Some(u) ==> (prefix_type matches LuaType::Signature(sid) && {
            &&& u.file_id == file_id
            &&& u.call_id == call_id
            &&& u.signature_id == sid
            &&& exists|p: int|
                {
                    &&& 0 <= p < index.signatures@[sid.id].param_docs@.len()
                    &&& spec_has_ctor_attr((#[trigger] index.signatures@[sid.id].param_docs@[p]).1)
                    &&& u.param_idx == index.signatures@[sid.id].param_docs@[p].0
                    &&& forall|q: int|
                        0 <= q < p ==> !spec_has_ctor_attr(
                            (#[trigger] index.signatures@[sid.id].param_docs@[q]).1,
                        )
                }
        }),
{
    let signature_id = match prefix_type {
        LuaType::Signature(sid) => *sid,
        _ => {
            return None;
        },
    };
    let signature = match index.get(&signature_id) {
        Some(s) => s,
        None => {
            return None;
        },
    };
    let n = signature.param_docs.len();
    let mut p: usize = 0;
    while p < n
        invariant
            *signature == index.signatures@[signature_id.id],
            index.signatures@.contains_key(signature_id.id),
            prefix_type matches LuaType::Signature(s2) && s2 == signature_id,
            n == signature.param_docs@.len(),
            0 <= p <= n,
            forall|q: int|
                0 <= q < p ==> !spec_has_ctor_attr(
                    (#[trigger] signature.param_docs@[q]).1,
                ),
        decreases n - p,
    {
        let entry = &signature.param_docs[p];
        if has_ctor_attr(&entry.1) {
            return Some(
                UnResolveClassCtor {
                    file_id,
                    call_id,
                    signature_id,
                    param_idx: entry.0,
                },
            );
        }
        p = p + 1;
    }
    None
}

} // verus!
