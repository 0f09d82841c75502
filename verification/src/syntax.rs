//! A closed model of the syntax-tree views the semantic core reads:
//! node kinds for sibling scans, literal tokens, and the parsed shape
//! of attribute-use annotations. The tree itself is produced by the
//! parser collaborator; the core only ever reads these views.

use vstd::prelude::*;

use crate::index::LuaSemanticDeclId;

verus! {

/// The node kinds the core discriminates when scanning a comment's
/// following siblings.
#[derive(Clone, Copy, PartialEq, Eq, Structural, Debug)]
pub enum LuaSyntaxNodeKind {
    /// A `@field` documentation tag declaring one field.
    DocTagField,
    /// Any other documentation tag (`@param`, `@return`, ...).
    DocTagOther,
    /// A whole comment node.
    Comment,
    /// A block boundary.
    Block,
    /// Any expression node.
    Expr,
    /// Anything else (statements, trivia, ...).
    Other,
}

/// One sibling node as the owner scan sees it: its kind, and the
/// declaration identity it introduces, when it introduces one.
#[derive(Clone, Copy, PartialEq, Eq, Structural, Debug)]
pub struct LuaSyntaxSibling {
    pub kind: LuaSyntaxNodeKind,
    pub decl: Option<LuaSemanticDeclId>,
}

/// Whether a node kind ends the adjacency scan, either by succeeding
/// (a field declaration) or by failing (a comment, a block boundary,
/// or any expression).
pub open spec fn spec_stops_scan(k: LuaSyntaxNodeKind) -> bool {
    match k {
        LuaSyntaxNodeKind::DocTagField => true,
        LuaSyntaxNodeKind::Comment => true,
        LuaSyntaxNodeKind::Block => true,
        LuaSyntaxNodeKind::Expr => true,
        _ => false,
    }
}

/// The scan succeeds at position `i`: a field declaration stands
/// there, and nothing before it stopped the scan.
pub open spec fn finds_field_at(siblings: Seq<LuaSyntaxSibling>, i: int) -> bool {
    &&& 0 <= i < siblings.len()
    &&& siblings[i].kind == LuaSyntaxNodeKind::DocTagField
    &&& forall|j: int| 0 <= j < i ==> !spec_stops_scan((#[trigger] siblings[j]).kind)
}

/// Walk the siblings that follow an attribute-use comment and find
/// the field declaration it should attach to: the scan succeeds only
/// if a field declaration comes before any comment, block boundary,
/// or expression; it fails the moment one of those is seen first.
pub fn attribute_find_doc_field(siblings: &Vec<LuaSyntaxSibling>) -> (r: Option<usize>)
    ensures
        r matches Some(i) ==> finds_field_at(siblings@, i as int),
        r is None ==> forall|i: int| !finds_field_at(siblings@, i),
{
    let n = siblings.len();
    let mut i: usize = 0;
    while i < n
        invariant
            n == siblings@.len(),
            0 <= i <= n,
            forall|j: int| 0 <= j < i ==> !spec_stops_scan((#[trigger] siblings@[j]).kind),
        decreases n - i,
    {
        match siblings[i].kind {
            LuaSyntaxNodeKind::DocTagField => {
                return Some(i);
            },
            LuaSyntaxNodeKind::Comment => {
                proof {
                    lemma_no_field_after_stop(siblings@, i as int);
                }
                return None;
            },
            LuaSyntaxNodeKind::Block => {
                proof {
                    lemma_no_field_after_stop(siblings@, i as int);
                }
                return None;
            },
            LuaSyntaxNodeKind::Expr => {
                proof {
                    lemma_no_field_after_stop(siblings@, i as int);
                }
                return None;
            },
            _ => {},
        }
        i = i + 1;
    }
    None
}

/// If a non-field stopper stands at `i` and nothing stopped earlier,
/// the scan can succeed nowhere.
proof fn lemma_no_field_after_stop(siblings: Seq<LuaSyntaxSibling>, i: int)
    requires
        0 <= i < siblings.len(),
        spec_stops_scan(siblings[i].kind),
        siblings[i].kind != LuaSyntaxNodeKind::DocTagField,
        forall|j: int| 0 <= j < i ==> !spec_stops_scan((#[trigger] siblings[j]).kind),
    ensures
        forall|k: int| !finds_field_at(siblings, k),
{
    assert forall|k: int| !finds_field_at(siblings, k) by {
        if finds_field_at(siblings, k) {
            if k < i {
                assert(!spec_stops_scan(siblings[k].kind));
            } else if k == i {
                assert(siblings[i].kind == LuaSyntaxNodeKind::DocTagField);
            } else {
                assert(!spec_stops_scan(siblings[i].kind));
            }
        }
    }
}

/// A literal token, as the core reads it from an argument position.
/// Non-integer numeric literals carry no value here: the core never
/// computes with them.
pub enum LuaLiteralToken {
    Str(String),
    Int(i64),
    Num,
    Bool(bool),
    Nil,
    Dots,
    Question,
}

/// One attribute use inside a usage annotation: the attribute name
/// (absent when the annotation is malformed) and, when an argument
/// list was written, its arguments; an argument position holds no
/// token when it is not a literal.
pub struct LuaAttributeUseSyntax {
    pub name: Option<String>,
    pub args: Option<Vec<Option<LuaLiteralToken>>>,
}

/// A whole usage annotation: one or more attribute uses declared in
/// one block.
pub struct LuaDocTagAttributeUse {
    pub uses: Vec<LuaAttributeUseSyntax>,
}

} // verus!
