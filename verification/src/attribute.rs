//! The attribute analyzer: resolves the syntactic owner of an
//! `@[...]` usage annotation, types its literal arguments, and writes
//! attribute-use records into the property index.

use vstd::prelude::*;

use crate::diagnostics::{Diagnostic, DiagnosticCode, DiagnosticSeverity, TextRange};
use crate::index::{LuaAttributeUse, LuaPropertyIndex, LuaSemanticDeclId};
use crate::syntax::{
    LuaAttributeUseSyntax, LuaDocTagAttributeUse, LuaLiteralToken, LuaSyntaxSibling,
    attribute_find_doc_field, finds_field_at,
};
use crate::types::{LuaType, LuaTypeDeclId};

verus! {

/// The declared attribute types in scope: names introduced by
/// attribute declarations.
pub struct AttributeDeclRegistry {
    pub names: Vec<String>,
}

/// Whether `k` is a declared attribute name.
pub open spec fn spec_declared(reg: AttributeDeclRegistry, k: Seq<char>) -> bool {
    exists|i: int| 0 <= i < reg.names@.len() && (#[trigger] reg.names@[i])@ == k
}

impl AttributeDeclRegistry {
    pub fn new() -> (r: AttributeDeclRegistry)
        ensures
            r.names@.len() == 0,
            forall|k: Seq<char>| !spec_declared(r, k),
    {
        AttributeDeclRegistry { names: Vec::new() }
    }

    pub fn declare(&mut self, name: String) -> (r: ())
        ensures
            final(self).names@ == old(self).names@.push(name),
            spec_declared(*final(self), name@),
            forall|k: Seq<char>| spec_declared(*old(self), k) ==> spec_declared(*final(self), k),
    {
        self.names.push(name);
        proof {
            let s = self.names@;
            assert(s[s.len() - 1]@ == name@);
            assert forall|k: Seq<char>| spec_declared(*old(self), k) implies spec_declared(
                *self,
                k,
            ) by {
                let i = choose|i: int| 0 <= i < old(self).names@.len() && (#[trigger] old(
                    self,
                ).names@[i])@ == k;
                assert(s[i]@ == k);
            }
        }
    }

    pub fn is_declared(&self, name: &String) -> (r: bool)
        ensures
            r == spec_declared(*self, name@),
    {
        let n = self.names.len();
        let mut i: usize = 0;
        while i < n
            invariant
                n == self.names@.len(),
                0 <= i <= n,
                forall|j: int| 0 <= j < i ==> (#[trigger] self.names@[j])@ != name@,
            decreases n - i,
        {
            if self.names[i] == *name {
                return true;
            }
            i = i + 1;
        }
        false
    }
}

/// The type given to one literal argument of an attribute use: the
/// narrowest applicable literal-constant type; `any` for a spread,
/// `nil` for a placeholder, `unknown` when the argument is not a
/// recognized literal at all.
pub open spec fn spec_attribute_arg_type(lit: Option<LuaLiteralToken>) -> LuaType {
    match lit {
        Some(LuaLiteralToken::Str(s)) => LuaType::StringConst(s),
        Some(LuaLiteralToken::Int(v)) => LuaType::IntegerConst(v),
        Some(LuaLiteralToken::Num) => LuaType::Number,
        Some(LuaLiteralToken::Bool(b)) => LuaType::BooleanConst(b),
        Some(LuaLiteralToken::Nil) => LuaType::Nil,
        Some(LuaLiteralToken::Dots) => LuaType::Any,
        Some(LuaLiteralToken::Question) => LuaType::Nil,
        None => LuaType::Unknown,
    }
}

pub fn infer_attribute_arg_type(lit: &Option<LuaLiteralToken>) -> (r: LuaType)
    ensures
        r == spec_attribute_arg_type(*lit),
{
    match lit {
        Some(LuaLiteralToken::Str(s)) => LuaType::StringConst(s.clone()),
        Some(LuaLiteralToken::Int(v)) => LuaType::IntegerConst(*v),
        Some(LuaLiteralToken::Num) => LuaType::Number,
        Some(LuaLiteralToken::Bool(b)) => LuaType::BooleanConst(*b),
        Some(LuaLiteralToken::Nil) => LuaType::Nil,
        Some(LuaLiteralToken::Dots) => LuaType::Any,
        Some(LuaLiteralToken::Question) => LuaType::Nil,
        None => LuaType::Unknown,
    }
}

/// The argument types of one attribute use, in order; an absent
/// argument list contributes none.
pub open spec fn spec_arg_types(args: Option<Vec<Option<LuaLiteralToken>>>) -> Seq<LuaType> {
    match args {
        Some(v) => v@.map_values(|a: Option<LuaLiteralToken>| spec_attribute_arg_type(a)),
        None => Seq::empty(),
    }
}

/// What a usage annotation records: for each well-formed use whose
/// name resolves to a declared attribute, its name key and argument
/// types, in source order. A use with no name at all makes the whole
/// annotation unusable.
pub open spec fn spec_infer_uses(reg: AttributeDeclRegistry, uses: Seq<LuaAttributeUseSyntax>)
    -> Option<Seq<(Seq<char>, Seq<LuaType>)>>
    decreases uses.len(),
{
    if uses.len() == 0 {
        Some(Seq::empty())
    } else {
        match spec_infer_uses(reg, uses.drop_last()) {
            None => None,
            Some(rs) => match uses.last().name {
                None => None,
                Some(nm) => if spec_declared(reg, nm@) {
                    Some(rs.push((nm@, spec_arg_types(uses.last().args))))
                } else {
                    Some(rs)
                },
            },
        }
    }
}

/// Convert one argument list to types, in order.
fn infer_arg_types(args: &Option<Vec<Option<LuaLiteralToken>>>) -> (r: Vec<LuaType>)
    ensures
        r@ == spec_arg_types(*args),
{
    let mut out: Vec<LuaType> = Vec::new();
    match args {
        None => {
            proof {
                assert(out@ =~= spec_arg_types(*args));
            }
        },
        Some(v) => {
            let n = v.len();
            let mut i: usize = 0;
            while i < n
                invariant
                    n == v@.len(),
                    0 <= i <= n,
                    out@.len() == i,
                    forall|j: int|
                        0 <= j < i ==> out@[j] == spec_attribute_arg_type(#[trigger] v@[j]),
                decreases n - i,
            {
                out.push(infer_attribute_arg_type(&v[i]));
                i = i + 1;
            }
            proof {
                assert(out@ =~= v@.map_values(
                    |a: Option<LuaLiteralToken>| spec_attribute_arg_type(a),
                ));
            }
        },
    }
    out
}

/// An annotation holding a nameless use yields nothing, wherever
/// that use stands.
proof fn lemma_infer_uses_none(reg: AttributeDeclRegistry, uses: Seq<LuaAttributeUseSyntax>, i: int)
    requires
        0 <= i < uses.len(),
        uses[i].name is None,
    ensures
        spec_infer_uses(reg, uses) is None,
    decreases uses.len(),
{
    if i == uses.len() - 1 {
    } else {
        lemma_infer_uses_none(reg, uses.drop_last(), i);
    }
}

/// Collect the attribute-use records of one usage annotation, as
/// `spec_infer_uses` states: uses naming undeclared attributes are
/// skipped, and a use with no name makes the whole annotation yield
/// nothing.
pub fn infer_attribute_uses(reg: &AttributeDeclRegistry, tag_use: &LuaDocTagAttributeUse) -> (r:
    Option<Vec<LuaAttributeUse>>)
    ensures
        (r is Some) <==> (spec_infer_uses(*reg, tag_use.uses@) is Some),
        r matches Some(v) ==> (spec_infer_uses(*reg, tag_use.uses@) matches Some(m) && {
            &&& v@.len() == m.len()
            &&& forall|j: int|
                0 <= j < m.len() ==> (#[trigger] v@[j]).id.key() == m[j].0 && v@[j].args@ == m[j].1
        }),
{
    let n = tag_use.uses.len();
    let mut out: Vec<LuaAttributeUse> = Vec::new();
    let mut i: usize = 0;
    while i < n
        invariant
            n == tag_use.uses@.len(),
            0 <= i <= n,
            spec_infer_uses(*reg, tag_use.uses@.take(i as int)) matches Some(m) && {
                &&& out@.len() == m.len()
                &&& forall|j: int|
                    0 <= j < m.len() ==> (#[trigger] out@[j]).id.key() == m[j].0 && out@[j].args@
                        == m[j].1
            },
        decreases n - i,
    {
        proof {
            assert(tag_use.uses@.take(i + 1).drop_last() =~= tag_use.uses@.take(i as int));
            assert(tag_use.uses@.take(i + 1).last() == tag_use.uses@[i as int]);
        }
        let u = &tag_use.uses[i];
        match &u.name {
            None => {
                proof {
                    lemma_infer_uses_none(*reg, tag_use.uses@, i as int);
                }
                return None;
            },
            Some(nm) => {
                if reg.is_declared(nm) {
                    let args = infer_arg_types(&u.args);
                    let id = LuaTypeDeclId::new(nm.clone());
                    out.push(LuaAttributeUse::new(id, args));
                }
            },
        }
        i = i + 1;
    }
    proof {
        assert(tag_use.uses@.take(n as int) =~= tag_use.uses@);
    }
    Some(out)
}

/// The owner an attribute usage attaches to: the adjacent field
/// declaration when the sibling scan finds one, else whatever the
/// surrounding comment documents.
pub open spec fn spec_attribute_owner(
    siblings: Seq<LuaSyntaxSibling>,
    comment_owner: Option<LuaSemanticDeclId>,
) -> Option<LuaSemanticDeclId> {
    if exists|i: int| finds_field_at(siblings, i) {
        siblings[choose|i: int| finds_field_at(siblings, i)].decl
    } else {
        comment_owner
    }
}

/// The scan can succeed at one position only.
proof fn lemma_finds_field_unique(siblings: Seq<LuaSyntaxSibling>, i: int, k: int)
    requires
        finds_field_at(siblings, i),
        finds_field_at(siblings, k),
    ensures
        i == k,
{
    if i < k {
        assert(!crate::syntax::spec_stops_scan(siblings[i].kind));
    }
    if k < i {
        assert(!crate::syntax::spec_stops_scan(siblings[k].kind));
    }
}

/// Analyze one attribute usage annotation: resolve its owner, type
/// its uses, and record them against the owner; an unresolvable
/// owner is reported as an orphan diagnostic and the usage dropped.
pub fn analyze_tag_attribute_use(
    db: &mut LuaPropertyIndex,
    diagnostics: &mut Vec<Diagnostic>,
    reg: &AttributeDeclRegistry,
    tag_use: &LuaDocTagAttributeUse,
    siblings: &Vec<LuaSyntaxSibling>,
    comment_owner: Option<LuaSemanticDeclId>,
    range: TextRange,
) -> (r: Option<()>)
    ensures
        ({
            let own = spec_attribute_owner(siblings@, comment_owner);
            &&& (own is None ==> {
                &&& r is None
                &&& *final(db) == *old(db)
                &&& final(diagnostics)@.len() == old(diagnostics)@.len() + 1
                &&& final(diagnostics)@ =~= old(diagnostics)@.push(
                    final(diagnostics)@.last(),
                )
                &&& final(diagnostics)@.last().code == DiagnosticCode::OrphanAttribute
                &&& final(diagnostics)@.last().range == range
            })
            &&& (own matches Some(o) ==> (spec_infer_uses(*reg, tag_use.uses@) is None ==> {
                &&& r is None
                &&& *final(db) == *old(db)
                &&& final(diagnostics)@ == old(diagnostics)@
            }))
            &&& (own matches Some(o) ==> (spec_infer_uses(*reg, tag_use.uses@) matches Some(m)
                ==> {
                &&& r is Some
                &&& final(diagnostics)@ == old(diagnostics)@
                &&& final(db).properties@ == old(db).properties@
                &&& final(db).spec_attrs(o.raw).len() == old(db).spec_attrs(o.raw).len() + m.len()
                &&& (forall|j: int|
                    0 <= j < old(db).spec_attrs(o.raw).len() ==> #[trigger] final(db).spec_attrs(
                        o.raw,
                    )[j] == old(db).spec_attrs(o.raw)[j])
                &&& (forall|j: int|
                    0 <= j < m.len() ==> {
                        let e = #[trigger] final(db).spec_attrs(o.raw)[old(db).spec_attrs(
                            o.raw,
                        ).len() + j];
                        e.id.key() == m[j].0 && e.args@ == m[j].1
                    })
                &&& (forall|k: u64|
                    k != o.raw ==> #[trigger] final(db).spec_attrs(k) == old(db).spec_attrs(k))
            }))
        }),
{
    let found = attribute_find_doc_field(siblings);
    let owner: Option<LuaSemanticDeclId> = match found {
        Some(i) => {
            proof {
                let wi = choose|w: int| finds_field_at(siblings@, w);
                lemma_finds_field_unique(siblings@, i as int, wi);
            }
            siblings[i].decl
        },
        None => comment_owner,
    };
    proof {
        assert(owner == spec_attribute_owner(siblings@, comment_owner));
    }

    let owner_id = match owner {
        Some(id) => id,
        None => {
            let message: String = "attribute annotation attaches to no declaration".to_owned();
            diagnostics.push(
                Diagnostic::new(
                    DiagnosticCode::OrphanAttribute,
                    range,
                    message,
                    DiagnosticSeverity::Warning,
                ),
            );
            return None;
        },
    };

    let attribute_uses = match infer_attribute_uses(reg, tag_use) {
        Some(us) => us,
        None => {
            return None;
        },
    };

    let ghost m = (spec_infer_uses(*reg, tag_use.uses@))->Some_0;
    let ghost orig = attribute_uses@;
    let total = attribute_uses.len();
    let mut attribute_uses = attribute_uses;
    let mut pushed: usize = 0;
    while attribute_uses.len() > 0
        invariant
            total == m.len(),
            orig.len() == total,
            forall|j: int|
                0 <= j < m.len() ==> (#[trigger] orig[j]).id.key() == m[j].0 && orig[j].args@
                    == m[j].1,
            pushed + attribute_uses@.len() == total,
            0 <= pushed <= total,
            forall|j: int|
                0 <= j < attribute_uses@.len() ==> #[trigger] attribute_uses@[j] == orig[
                    pushed + j
                ],
            db.properties@ == old(db).properties@,
            db.spec_attrs(owner_id.raw).len() == old(db).spec_attrs(owner_id.raw).len() + pushed,
            forall|j: int|
                0 <= j < old(db).spec_attrs(owner_id.raw).len() ==> #[trigger] db.spec_attrs(
                    owner_id.raw,
                )[j] == old(db).spec_attrs(owner_id.raw)[j],
            forall|j: int|
                0 <= j < pushed ==> {
                    let e = #[trigger] db.spec_attrs(owner_id.raw)[old(db).spec_attrs(
                        owner_id.raw,
                    ).len() + j];
                    e.id.key() == m[j].0 && e.args@ == m[j].1
                },
            forall|k: u64|
                k != owner_id.raw ==> #[trigger] db.spec_attrs(k) == old(db).spec_attrs(k),
        decreases attribute_uses@.len(),
    {
        let u = attribute_uses.remove(0);
        proof {
            assert(u == orig[pushed as int]);
        }
        db.add_attribute_use(owner_id, u);
        pushed = pushed + 1;
    }
    Some(())
}

} // verus!
