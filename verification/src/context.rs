//! Small working contexts: the database handle type checking reads,
//! and the formatter's running state.

use vstd::prelude::*;

use crate::call::LuaSignatureIndex;
use crate::index::LuaPropertyIndex;

verus! {

/// The session database: every index the analyzers populate and the
/// feature layer reads.
pub struct DbIndex {
    pub properties: LuaPropertyIndex,
    pub signatures: LuaSignatureIndex,
}

impl DbIndex {
    pub fn new() -> (r: DbIndex)
        ensures
            r.properties.properties@ == Map::<u64, crate::property::LuaCommonProperty>::empty(),
            r.properties.attributes@ == Map::<
                u64,
                Vec<crate::index::LuaAttributeUse>,
            >::empty(),
            r.signatures.signatures@ == Map::<u32, crate::call::LuaSignature>::empty(),
    {
        DbIndex { properties: LuaPropertyIndex::new(), signatures: LuaSignatureIndex::new() }
    }

    pub fn get_property_index(&self) -> (r: &LuaPropertyIndex)
        ensures
            r == &self.properties,
    {
        &self.properties
    }

    pub fn get_property_index_mut(&mut self) -> (r: &mut LuaPropertyIndex)
        ensures
            *r == old(self).properties,
            *final(self) == (DbIndex { properties: *final(r), ..*old(self) }),
    {
        &mut self.properties
    }
}

/// What a type-checking pass carries: the database it consults and
/// whether detailed reasons are wanted.
pub struct TypeCheckContext<'db> {
    pub detail: bool,
    pub db: &'db DbIndex,
}

impl<'db> TypeCheckContext<'db> {
    pub fn new(db: &'db DbIndex, detail: bool) -> (r: TypeCheckContext<'db>)
        ensures
            r.detail == detail,
            r.db == db,
    {
        TypeCheckContext { detail, db }
    }
}

/// What the formatter expects the next token to be preceded by.
#[derive(Clone, Copy, PartialEq, Eq, Structural, Debug)]
pub enum TokenExpected {
    Space,
    Indent,
    LineBreak,
}

/// The text with its trailing spaces removed.
pub open spec fn spec_trim_trailing_spaces(s: Seq<u8>) -> Seq<u8>
    decreases s.len(),
{
    if s.len() > 0 && s.last() == 32u8 {
        spec_trim_trailing_spaces(s.drop_last())
    } else {
        s
    }
}

/// The formatter's running state: the expectation for the next
/// token, whether that token starts its line, and the output text
/// built so far, as bytes.
pub struct FormatterContext {
    pub current_expected: Option<TokenExpected>,
    pub is_line_first_token: bool,
    pub text: Vec<u8>,
}

impl FormatterContext {
    pub fn new() -> (r: FormatterContext)
        ensures
            r.current_expected is None,
            r.is_line_first_token,
            r.text@.len() == 0,
    {
        FormatterContext { current_expected: None, is_line_first_token: true, text: Vec::new() }
    }

    /// Drop the trailing run of spaces from the output text.
    pub fn reset_whitespace(&mut self) -> (r: ())
        ensures
            final(self).text@ == spec_trim_trailing_spaces(old(self).text@),
            final(self).current_expected == old(self).current_expected,
            final(self).is_line_first_token == old(self).is_line_first_token,
    {
        loop
            invariant
                spec_trim_trailing_spaces(self.text@) == spec_trim_trailing_spaces(
                    old(self).text@,
                ),
                self.current_expected == old(self).current_expected,
                self.is_line_first_token == old(self).is_line_first_token,
            decreases self.text@.len(),
        {
            let n = self.text.len();
            if n == 0 {
                return ;
            }
            if self.text[n - 1] != 32u8 {
                return ;
            }
            self.text.pop();
        }
    }
}

} // verus!
