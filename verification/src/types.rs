//! The type model: a closed variant type for the value types of the
//! analyzed language, plus the compatibility query that overload
//! resolution and diagnostics are built on.

use vstd::prelude::*;

verus! {

/// Why an inference request could not produce a type. All variants
/// are recoverable at file-analysis granularity: a cycle yields
/// `RecursiveInfer` for that branch, and an empty candidate set
/// yields `NoCandidate`; neither aborts the surrounding analysis.
#[derive(Clone, Copy, PartialEq, Eq, Structural, Debug)]
pub enum InferFailReason {
    NoCandidate,
    RecursiveInfer,
}

/// Stable identity of a named declared type (class, alias, enum).
/// The identity is the fully qualified declared name itself, so two
/// occurrences of the same name anywhere in the workspace trivially
/// map to the same identity.
pub struct LuaTypeDeclId {
    pub name: String,
}

impl LuaTypeDeclId {
    /// The mathematical identity: the character sequence of the name.
    pub open spec fn key(&self) -> Seq<char> {
        self.name@
    }

    pub fn new(name: String) -> (r: LuaTypeDeclId)
        ensures
            r.key() == name@,
    {
        LuaTypeDeclId { name }
    }

    pub fn same_id(&self, other: &LuaTypeDeclId) -> (r: bool)
        ensures
            r == (self.key() == other.key()),
    {
        self.name == other.name
    }

    pub fn get_name(&self) -> (r: &String)
        ensures
            r@ == self.key(),
    {
        &self.name
    }

    pub fn clone_id(&self) -> (r: LuaTypeDeclId)
        ensures
            r.key() == self.key(),
    {
        LuaTypeDeclId { name: self.name.clone() }
    }
}

/// Identity of a function signature / overload set.
#[derive(Clone, Copy, PartialEq, Eq, Structural, Debug)]
pub struct LuaSignatureId {
    pub id: u32,
}

/// The closed variant type of value types. Literal-constant variants
/// are singleton subtypes of their base primitive; `Ref` is a nominal
/// reference to a declared type; `Union` is an untagged union whose
/// members are kept flat (never themselves unions).
pub enum LuaType {
    Any,
    Unknown,
    Nil,
    Boolean,
    Number,
    Integer,
    Str,
    Table,
    StringConst(String),
    IntegerConst(i64),
    BooleanConst(bool),
    Ref(LuaTypeDeclId),
    Signature(LuaSignatureId),
    Union(Vec<LuaType>),
}

impl LuaType {
    /// Union members are themselves non-union: unions are built flat,
    /// so every query over a union needs to look only one level deep.
    pub open spec fn wf(self) -> bool {
        match self {
            LuaType::Union(members) => forall|i: int|
                0 <= i < members@.len() ==> !((#[trigger] members@[i]) is Union),
            _ => true,
        }
    }

    /// Structural equality on non-union types; string payloads compare
    /// by contents.
    pub open spec fn base_eq(self, other: LuaType) -> bool {
        match (self, other) {
            (LuaType::Any, LuaType::Any) => true,
            (LuaType::Unknown, LuaType::Unknown) => true,
            (LuaType::Nil, LuaType::Nil) => true,
            (LuaType::Boolean, LuaType::Boolean) => true,
            (LuaType::Number, LuaType::Number) => true,
            (LuaType::Integer, LuaType::Integer) => true,
            (LuaType::Str, LuaType::Str) => true,
            (LuaType::Table, LuaType::Table) => true,
            (LuaType::StringConst(a), LuaType::StringConst(b)) => a@ == b@,
            (LuaType::IntegerConst(a), LuaType::IntegerConst(b)) => a == b,
            (LuaType::BooleanConst(a), LuaType::BooleanConst(b)) => a == b,
            (LuaType::Ref(a), LuaType::Ref(b)) => a.key() == b.key(),
            (LuaType::Signature(a), LuaType::Signature(b)) => a == b,
            _ => false,
        }
    }

    /// Structural equality: unions are equal member for member.
    pub open spec fn spec_eq(self, other: LuaType) -> bool {
        match (self, other) {
            (LuaType::Union(a), LuaType::Union(b)) => {
                &&& a@.len() == b@.len()
                &&& forall|i: int| 0 <= i < a@.len() ==> (#[trigger] a@[i]).base_eq(b@[i])
            },
            _ => self.base_eq(other),
        }
    }

    pub open spec fn spec_is_any(self) -> bool {
        self is Any
    }

    /// A type that admits the absence of a value: `nil` itself, `any`,
    /// or a union with such a member.
    pub open spec fn spec_is_nullable(self) -> bool {
        match self {
            LuaType::Nil => true,
            LuaType::Any => true,
            LuaType::Union(members) => exists|i: int|
                0 <= i < members@.len() && ((#[trigger] members@[i]) is Nil || members@[i] is Any),
            _ => false,
        }
    }

    pub fn is_any(&self) -> (r: bool)
        ensures
            r == self.spec_is_any(),
    {
        match self {
            LuaType::Any => true,
            _ => false,
        }
    }

    pub fn is_nullable(&self) -> (r: bool)
        ensures
            r == self.spec_is_nullable(),
    {
        match self {
            LuaType::Nil => true,
            LuaType::Any => true,
            LuaType::Union(members) => {
                let n = members.len();
                let mut i: usize = 0;
                while i < n
                    invariant
                        self is Union,
                        members == self->Union_0,
                        0 <= i <= n,
                        n == members@.len(),
                        forall|j: int|
                            0 <= j < i ==> !((#[trigger] members@[j]) is Nil || members@[j] is Any),
                    decreases n - i,
                {
                    let m = &members[i];
                    match m {
                        LuaType::Nil => {
                            proof {
                                assert(members@[i as int] is Nil || members@[i as int] is Any);
                            }
                            return true;
                        },
                        LuaType::Any => {
                            proof {
                                assert(members@[i as int] is Nil || members@[i as int] is Any);
                            }
                            return true;
                        },
                        _ => {},
                    }
                    i = i + 1;
                }
                false
            },
            _ => false,
        }
    }

    /// Structural equality, as `spec_eq` states: unions member for
    /// member, anything else by `base_eq`.
    pub fn type_equals(&self, other: &LuaType) -> (r: bool)
        ensures
            r == self.spec_eq(*other),
    {
        match (self, other) {
            (LuaType::Union(a), LuaType::Union(b)) => {
                let n = a.len();
                if n != b.len() {
                    return false;
                }
                let mut i: usize = 0;
                while i < n
                    invariant
                        self is Union,
                        a == self->Union_0,
                        other is Union,
                        b == other->Union_0,
                        n == a@.len(),
                        n == b@.len(),
                        0 <= i <= n,
                        forall|j: int| 0 <= j < i ==> (#[trigger] a@[j]).base_eq(b@[j]),
                    decreases n - i,
                {
                    if !a[i].base_equals(&b[i]) {
                        return false;
                    }
                    i = i + 1;
                }
                true
            },
            _ => self.base_equals(other),
        }
    }

    /// Structural equality of two non-union types, as `base_eq` states.
    pub fn base_equals(&self, other: &LuaType) -> (r: bool)
        ensures
            r == self.base_eq(*other),
    {
        match (self, other) {
            (LuaType::Any, LuaType::Any) => true,
            (LuaType::Unknown, LuaType::Unknown) => true,
            (LuaType::Nil, LuaType::Nil) => true,
            (LuaType::Boolean, LuaType::Boolean) => true,
            (LuaType::Number, LuaType::Number) => true,
            (LuaType::Integer, LuaType::Integer) => true,
            (LuaType::Str, LuaType::Str) => true,
            (LuaType::Table, LuaType::Table) => true,
            (LuaType::StringConst(a), LuaType::StringConst(b)) => *a == *b,
            (LuaType::IntegerConst(a), LuaType::IntegerConst(b)) => *a == *b,
            (LuaType::BooleanConst(a), LuaType::BooleanConst(b)) => *a == *b,
            (LuaType::Ref(a), LuaType::Ref(b)) => a.same_id(b),
            (LuaType::Signature(a), LuaType::Signature(b)) => *a == *b,
            _ => false,
        }
    }
}

/// The member list a type contributes to compatibility checking:
/// a union contributes its members, anything else itself.
pub open spec fn spec_members_of(t: LuaType) -> Seq<LuaType> {
    match t {
        LuaType::Union(members) => members@,
        _ => seq![t],
    }
}

/// Compatibility of a single non-union argument member against a
/// single non-union parameter member: the argument is accepted if it
/// is the same type, a literal constant of the parameter's base type,
/// an integer where a number is expected, or if either side is
/// unconstrained (`any`/`unknown`).
pub open spec fn spec_base_compat(param: LuaType, arg: LuaType) -> bool {
    ||| param is Any
    ||| param is Unknown
    ||| arg is Any
    ||| arg is Unknown
    ||| param.base_eq(arg)
    ||| (param is Str && arg is StringConst)
    ||| (param is Boolean && arg is BooleanConst)
    ||| (param is Integer && arg is IntegerConst)
    ||| (param is Number && (arg is Integer || arg is IntegerConst))
}

/// Type compatibility: every member of the argument must be accepted
/// by some member of the parameter.
pub open spec fn spec_type_compat(param: LuaType, arg: LuaType) -> bool {
    forall|j: int|
        0 <= j < spec_members_of(arg).len() ==> exists|i: int|
            0 <= i < spec_members_of(param).len() && spec_base_compat(
                spec_members_of(param)[i],
                #[trigger] spec_members_of(arg)[j],
            )
}

/// Whether `arg` may be passed where `param` is declared, as
/// `spec_type_compat` states.
pub fn check_type_compact(param: &LuaType, arg: &LuaType) -> (r: bool)
    ensures
        r == spec_type_compat(*param, *arg),
{
    match arg {
        LuaType::Union(arg_members) => {
            let n = arg_members.len();
            let mut j: usize = 0;
            while j < n
                invariant
                    0 <= j <= n,
                    n == arg_members@.len(),
                    spec_members_of(*arg) == arg_members@,
                    forall|jj: int|
                        0 <= jj < j ==> exists|i: int|
                            0 <= i < spec_members_of(*param).len() && spec_base_compat(
                                spec_members_of(*param)[i],
                                #[trigger] arg_members@[jj],
                            ),
                decreases n - j,
            {
                if !member_accepted(param, &arg_members[j]) {
                    proof {
                        assert(!spec_type_compat(*param, *arg));
                    }
                    return false;
                }
                j = j + 1;
            }
            true
        },
        _ => {
            proof {
                assert(spec_members_of(*arg) == seq![*arg]);
            }
            let r = member_accepted(param, arg);
            proof {
                if r {
                    assert forall|j: int| 0 <= j < spec_members_of(*arg).len() implies exists|
                        i: int,
                    |
                        0 <= i < spec_members_of(*param).len() && spec_base_compat(
                            spec_members_of(*param)[i],
                            #[trigger] spec_members_of(*arg)[j],
                        ) by {
                        assert(spec_members_of(*arg)[j] == *arg);
                    }
                } else {
                    assert(spec_members_of(*arg)[0] == *arg);
                }
            }
            r
        },
    }
}

/// Whether some member of `param` accepts the non-union type `m`.
fn member_accepted(param: &LuaType, m: &LuaType) -> (r: bool)
    ensures
        r == exists|i: int|
            0 <= i < spec_members_of(*param).len() && spec_base_compat(
                spec_members_of(*param)[i],
                *m,
            ),
{
    match param {
        LuaType::Union(param_members) => {
            let n = param_members.len();
            let mut i: usize = 0;
            while i < n
                invariant
                    0 <= i <= n,
                    n == param_members@.len(),
                    spec_members_of(*param) == param_members@,
                    forall|ii: int|
                        0 <= ii < i ==> !spec_base_compat(
                            #[trigger] param_members@[ii],
                            *m,
                        ),
                decreases n - i,
            {
                if base_compat(&param_members[i], m) {
                    return true;
                }
                i = i + 1;
            }
            false
        },
        _ => {
            proof {
                assert(spec_members_of(*param) == seq![*param]);
                assert(spec_members_of(*param)[0] == *param);
            }
            base_compat(param, m)
        },
    }
}

/// One member against one member, as `spec_base_compat` states.
fn base_compat(param: &LuaType, arg: &LuaType) -> (r: bool)
    ensures
        r == spec_base_compat(*param, *arg),
{
    match param {
        LuaType::Any => true,
        LuaType::Unknown => true,
        _ => match arg {
            LuaType::Any => true,
            LuaType::Unknown => true,
            _ => {
                if param.base_equals(arg) {
                    true
                } else {
                    match (param, arg) {
                        (LuaType::Str, LuaType::StringConst(_)) => true,
                        (LuaType::Boolean, LuaType::BooleanConst(_)) => true,
                        (LuaType::Integer, LuaType::IntegerConst(_)) => true,
                        (LuaType::Number, LuaType::Integer) => true,
                        (LuaType::Number, LuaType::IntegerConst(_)) => true,
                        _ => false,
                    }
                }
            },
        },
    }
}

} // verus!
