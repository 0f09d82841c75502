//! An in-memory workspace over source text: it scans documentation
//! comments line by line, declares attribute types, attaches
//! attribute usages through the attribute analyzer, and applies the
//! built-in attributes to the property index.

use vstd::prelude::*;
use vstd::string::StrSliceExecFns;

use crate::attribute::{AttributeDeclRegistry, analyze_tag_attribute_use};
use crate::context::DbIndex;
use crate::diagnostics::{Diagnostic, DiagnosticCode, TextRange};
use crate::index::LuaSemanticDeclId;
use crate::property::PropertyDeclFeature;
use crate::syntax::{
    LuaAttributeUseSyntax, LuaDocTagAttributeUse, LuaLiteralToken, LuaSyntaxNodeKind,
    LuaSyntaxSibling,
};
use crate::types::LuaType;

verus! {

/// The characters of a string, as an indexable vector.
fn str_chars(s: &str) -> (r: Vec<char>)
    ensures
        r@ == s@,
{
    let n = s.unicode_len();
    let mut out: Vec<char> = Vec::new();
    let mut i: usize = 0;
    while i < n
        invariant
            n == s@.len(),
            0 <= i <= n,
            out@.len() == i,
            forall|j: int| 0 <= j < i ==> out@[j] == s@[j],
        decreases n - i,
    {
        out.push(s.get_char(i));
        i = i + 1;
    }
    proof {
        assert(out@ =~= s@);
    }
    out
}

/// Whether a character can stand in an identifier.
fn is_ident_char(c: char) -> (r: bool) {
    let u = c as u32;
    (u >= 97 && u <= 122) || (u >= 65 && u <= 90) || (u >= 48 && u <= 57) || u == 95
}

/// Whether a character is a decimal digit.
fn is_digit_char(c: char) -> (r: bool)
    ensures
        r == (48 <= c as u32 <= 57),
{
    let u = c as u32;
    u >= 48 && u <= 57
}

/// First index at or after `from` (up to `to`) holding something
/// other than a space or tab.
fn skip_spaces(chars: &Vec<char>, from: usize, to: usize) -> (r: usize)
    requires
        from <= to <= chars@.len(),
    ensures
        from <= r <= to,
{
    let mut i = from;
    while i < to
        invariant
            from <= i <= to,
            to <= chars@.len(),
        decreases to - i,
    {
        let c = chars[i];
        if c != ' ' && c != '\t' {
            return i;
        }
        i = i + 1;
    }
    to
}

/// Whether the given pattern stands at `pos`.
fn has_prefix(chars: &Vec<char>, pos: usize, to: usize, pat: &Vec<char>) -> (r: bool)
    requires
        pos <= to <= chars@.len(),
    ensures
        r ==> pos + pat@.len() <= to,
{
    let m = pat.len();
    if to - pos < m {
        return false;
    }
    let mut j: usize = 0;
    while j < m
        invariant
            0 <= j <= m,
            m == pat@.len(),
            pos + m <= to <= chars@.len(),
        decreases m - j,
    {
        if chars[pos + j] != pat[j] {
            return false;
        }
        j = j + 1;
    }
    true
}

/// End of the identifier starting at `pos`.
fn ident_end(chars: &Vec<char>, pos: usize, to: usize) -> (r: usize)
    requires
        pos <= to <= chars@.len(),
    ensures
        pos <= r <= to,
{
    let mut i = pos;
    while i < to
        invariant
            pos <= i <= to,
            to <= chars@.len(),
        decreases to - i,
    {
        if !is_ident_char(chars[i]) {
            return i;
        }
        i = i + 1;
    }
    to
}

/// The line boundaries of a text, as half-open character ranges
/// without their newline characters.
fn line_ranges(chars: &Vec<char>) -> (r: Vec<(usize, usize)>)
    ensures
        forall|j: int|
            0 <= j < r@.len() ==> (#[trigger] r@[j]).0 <= r@[j].1 && r@[j].1 <= chars@.len(),
{
    let n = chars.len();
    let mut out: Vec<(usize, usize)> = Vec::new();
    let mut start: usize = 0;
    let mut i: usize = 0;
    while i < n
        invariant
            n == chars@.len(),
            0 <= start <= i <= n,
            forall|j: int|
                0 <= j < out@.len() ==> (#[trigger] out@[j]).0 <= out@[j].1 && out@[j].1
                    <= chars@.len(),
        decreases n - i,
    {
        if chars[i] == '\n' {
            out.push((start, i));
            start = i + 1;
        }
        i = i + 1;
    }
    if start <= n {
        out.push((start, n));
    }
    out
}

/// How one source line reads at the granularity this scanner needs.
enum LineKind {
    /// `---@attribute <name>...`: declares an attribute type.
    AttrDecl { name_start: usize, name_end: usize },
    /// `---@[...]`: an attribute usage annotation.
    AttrUse { open: usize },
    /// `---@field <name> ...`: a field declaration tag.
    DocField { name_start: usize, name_end: usize },
    /// Any other documentation line.
    DocOther,
    /// Nothing but whitespace.
    Blank,
    /// A `function` or `local` declaration, or an assignment.
    Decl,
    /// Anything else: an expression statement or other code.
    Code,
}

/// Classify one line.
fn classify_line(chars: &Vec<char>, start: usize, end: usize) -> (r: LineKind)
    requires
        start <= end <= chars@.len(),
    ensures
        r matches LineKind::AttrDecl { name_start, name_end } ==> name_start <= name_end <= end
            <= chars@.len(),
        r matches LineKind::AttrUse { open } ==> open <= end,
        r matches LineKind::DocField { name_start, name_end } ==> name_start <= name_end <= end
            <= chars@.len(),
{
    let p = skip_spaces(chars, start, end);
    if p == end {
        return LineKind::Blank;
    }
    let dash3: Vec<char> = make_pat_dashes();
    if has_prefix(chars, p, end, &dash3) {
        let q = p + dash3.len();
        if q < end && chars[q] == '@' {
            let tag_start = q + 1;
            if tag_start < end && chars[tag_start] == '[' {
                return LineKind::AttrUse { open: tag_start + 1 };
            }
            let tag_end = ident_end(chars, tag_start, end);
            if is_word(chars, tag_start, tag_end, &make_word_attribute()) {
                let ns = skip_spaces(chars, tag_end, end);
                let ne = ident_end(chars, ns, end);
                return LineKind::AttrDecl { name_start: ns, name_end: ne };
            }
            if is_word(chars, tag_start, tag_end, &make_word_field()) {
                let ns = skip_spaces(chars, tag_end, end);
                let ne = ident_end(chars, ns, end);
                return LineKind::DocField { name_start: ns, name_end: ne };
            }
            return LineKind::DocOther;
        }
        return LineKind::DocOther;
    }
    let word_fn = make_word_function();
    let word_local = make_word_local();
    if has_prefix(chars, p, end, &word_fn) || has_prefix(chars, p, end, &word_local) {
        return LineKind::Decl;
    }
    // an assignment target makes a declaration the comment can own
    let mut i = p;
    while i < end
        invariant
            p <= i <= end,
            end <= chars@.len(),
        decreases end - i,
    {
        if chars[i] == '=' {
            return LineKind::Decl;
        }
        i = i + 1;
    }
    LineKind::Code
}

/// Whether `[from, to)` spells exactly the given word.
fn is_word(chars: &Vec<char>, from: usize, to: usize, word: &Vec<char>) -> (r: bool)
    requires
        from <= to <= chars@.len(),
{
    if to - from != word.len() {
        return false;
    }
    has_prefix(chars, from, to, word)
}

fn make_pat_dashes() -> (r: Vec<char>) {
    let mut v: Vec<char> = Vec::new();
    v.push('-');
    v.push('-');
    v.push('-');
    v
}

fn make_word_attribute() -> (r: Vec<char>) {
    let mut v: Vec<char> = Vec::new();
    v.push('a');
    v.push('t');
    v.push('t');
    v.push('r');
    v.push('i');
    v.push('b');
    v.push('u');
    v.push('t');
    v.push('e');
    v
}

fn make_word_field() -> (r: Vec<char>) {
    let mut v: Vec<char> = Vec::new();
    v.push('f');
    v.push('i');
    v.push('e');
    v.push('l');
    v.push('d');
    v
}

fn make_word_function() -> (r: Vec<char>) {
    let mut v: Vec<char> = Vec::new();
    v.push('f');
    v.push('u');
    v.push('n');
    v.push('c');
    v.push('t');
    v.push('i');
    v.push('o');
    v.push('n');
    v
}

fn make_word_local() -> (r: Vec<char>) {
    let mut v: Vec<char> = Vec::new();
    v.push('l');
    v.push('o');
    v.push('c');
    v.push('a');
    v.push('l');
    v
}

/// The name a declaration line introduces: the identifier after
/// `function` or `local`, or the assignment target at the start of
/// the line.
fn decl_name_range(chars: &Vec<char>, start: usize, end: usize) -> (r: Option<(usize, usize)>)
    requires
        start <= end <= chars@.len(),
    ensures
        r matches Some(p) ==> p.0 <= p.1 <= end,
{
    let p = skip_spaces(chars, start, end);
    let word_fn = make_word_function();
    let word_local = make_word_local();
    if has_prefix(chars, p, end, &word_fn) {
        let ns = skip_spaces(chars, p + word_fn.len(), end);
        let ne = ident_end(chars, ns, end);
        return Some((ns, ne));
    }
    if has_prefix(chars, p, end, &word_local) {
        let ns = skip_spaces(chars, p + word_local.len(), end);
        let ne = ident_end(chars, ns, end);
        return Some((ns, ne));
    }
    let ne = ident_end(chars, p, end);
    if ne > p {
        return Some((p, ne));
    }
    None
}

/// Parse the attribute uses of a `---@[...]` line, from the position
/// after the opening bracket; a malformed annotation yields what was
/// readable, with nameless entries marking unreadable ones.
fn parse_usage_line(source: &str, chars: &Vec<char>, from: usize, end: usize) -> (r:
    LuaDocTagAttributeUse)
    requires
        from <= end <= chars@.len(),
        chars@ == source@,
{
    let mut uses: Vec<LuaAttributeUseSyntax> = Vec::new();
    let mut i = skip_spaces(chars, from, end);
    while i < end
        invariant
            from <= i <= end,
            end <= chars@.len(),
            chars@ == source@,
        decreases end - i,
    {
        if chars[i] == ']' {
            break ;
        }
        let ns = i;
        let ne = ident_end(chars, ns, end);
        if ne == ns {
            // not an identifier: record a nameless use and stop
            uses.push(LuaAttributeUseSyntax { name: None, args: None });
            break ;
        }
        let name: String = source.substring_char(ns, ne).to_owned();
        let mut args: Option<Vec<Option<LuaLiteralToken>>> = None;
        let mut j = skip_spaces(chars, ne, end);
        if j < end && chars[j] == '(' {
            let (parsed, after) = parse_args(source, chars, j + 1, end);
            args = Some(parsed);
            j = after;
        }
        uses.push(LuaAttributeUseSyntax { name: Some(name), args });
        let k = skip_spaces(chars, j, end);
        if k < end && chars[k] == ',' {
            i = skip_spaces(chars, k + 1, end);
            if i <= ns {
                break ;
            }
        } else {
            i = k;
            if i < end && chars[i] != ']' {
                break ;
            }
        }
    }
    LuaDocTagAttributeUse { uses }
}

/// Parse a parenthesized argument list from `from` (after the `(`),
/// returning the arguments and the position after the closing
/// parenthesis.
fn parse_args(source: &str, chars: &Vec<char>, from: usize, end: usize) -> (r: (
    Vec<Option<LuaLiteralToken>>,
    usize,
))
    requires
        from <= end <= chars@.len(),
        chars@ == source@,
    ensures
        from <= r.1 <= end,
{
    let mut out: Vec<Option<LuaLiteralToken>> = Vec::new();
    let mut i = skip_spaces(chars, from, end);
    while i < end
        invariant
            from <= i <= end,
            end <= chars@.len(),
            chars@ == source@,
        decreases end - i,
    {
        if chars[i] == ')' {
            return (out, i + 1);
        }
        let (tok, after) = parse_literal(source, chars, i, end);
        out.push(tok);
        let mut j = skip_spaces(chars, after, end);
        if j < end && chars[j] == ',' {
            j = skip_spaces(chars, j + 1, end);
        }
        if j <= i {
            return (out, j);
        }
        i = j;
    }
    (out, end)
}

/// Parse one literal argument; a form this scanner cannot read is
/// handed on as a non-literal.
fn parse_literal(source: &str, chars: &Vec<char>, from: usize, end: usize) -> (r: (
    Option<LuaLiteralToken>,
    usize,
))
    requires
        from < end <= chars@.len(),
        chars@ == source@,
    ensures
        from < r.1 <= end,
{
    let c = chars[from];
    if c == '"' {
        // string literal, no escape handling
        let mut i = from + 1;
        while i < end
            invariant
                from + 1 <= i <= end,
                end <= chars@.len(),
                chars@ == source@,
            decreases end - i,
        {
            if chars[i] == '"' {
                let v: String = source.substring_char(from + 1, i).to_owned();
                return (Some(LuaLiteralToken::Str(v)), i + 1);
            }
            i = i + 1;
        }
        return (None, end);
    }
    if is_digit_char(c) || (c == '-' && from + 1 < end && is_digit_char(chars[from + 1])) {
        let neg = c == '-';
        let mut i = if neg {
            from + 1
        } else {
            from
        };
        let mut val: i64 = 0;
        let mut ok = true;
        while i < end && is_digit_char(chars[i])
            invariant
                from <= i <= end,
                end <= chars@.len(),
                0 <= val <= 0x7fffffffffffffffi64,
            decreases end - i,
        {
            let d = (chars[i] as u32) - 48;
            if val > 922337203685477580i64 || (val == 922337203685477580i64 && d > 7) {
                ok = false;
                val = 0;
            } else {
                val = val * 10 + (d as i64);
            }
            i = i + 1;
        }
        let after_pos = if i > from {
            i
        } else {
            from + 1
        };
        if !ok {
            return (None, after_pos);
        }
        let v: i64 = if neg {
            -val
        } else {
            val
        };
        return (Some(LuaLiteralToken::Int(v)), after_pos);
    }
    let we = ident_end(chars, from, end);
    if we > from {
        if is_word(chars, from, we, &make_word_true()) {
            return (Some(LuaLiteralToken::Bool(true)), we);
        }
        if is_word(chars, from, we, &make_word_false()) {
            return (Some(LuaLiteralToken::Bool(false)), we);
        }
        if is_word(chars, from, we, &make_word_nil()) {
            return (Some(LuaLiteralToken::Nil), we);
        }
        return (None, we);
    }
    if c == '.' && end - from > 3 && chars[from + 1] == '.' && chars[from + 2] == '.' {
        return (Some(LuaLiteralToken::Dots), from + 3);
    }
    if c == '?' {
        return (Some(LuaLiteralToken::Question), from + 1);
    }
    (None, from + 1)
}

fn make_word_true() -> (r: Vec<char>) {
    let mut v: Vec<char> = Vec::new();
    v.push('t');
    v.push('r');
    v.push('u');
    v.push('e');
    v
}

fn make_word_false() -> (r: Vec<char>) {
    let mut v: Vec<char> = Vec::new();
    v.push('f');
    v.push('a');
    v.push('l');
    v.push('s');
    v.push('e');
    v
}

fn make_word_nil() -> (r: Vec<char>) {
    let mut v: Vec<char> = Vec::new();
    v.push('n');
    v.push('i');
    v.push('l');
    v
}

/// An in-memory analysis session over virtual files.
pub struct VirtualWorkspace {
    pub db: DbIndex,
    pub registry: AttributeDeclRegistry,
    pub diagnostics: Vec<Diagnostic>,
    pub decl_names: Vec<(String, LuaSemanticDeclId)>,
    pub next_decl: u64,
}

impl VirtualWorkspace {
    /// A fresh session. The built-in attributes every workspace
    /// understands are pre-declared.
    pub fn new() -> (r: VirtualWorkspace) {
        let mut registry = AttributeDeclRegistry::new();
        registry.declare("deprecated".to_owned());
        registry.declare("readonly".to_owned());
        registry.declare("constructor".to_owned());
        VirtualWorkspace {
            db: DbIndex::new(),
            registry,
            diagnostics: Vec::new(),
            decl_names: Vec::new(),
            next_decl: 0,
        }
    }

    /// A fresh session with the standard library's attribute
    /// declarations loaded as well.
    pub fn new_with_init_std_lib() -> (r: VirtualWorkspace) {
        let mut ws = VirtualWorkspace::new();
        ws.registry.declare("lsp_perf_optim".to_owned());
        ws
    }

    fn fresh_decl(&mut self) -> (r: LuaSemanticDeclId)
        ensures
            *final(self) == (VirtualWorkspace { next_decl: final(self).next_decl, ..*old(self) }),
    {
        let id = LuaSemanticDeclId::new(self.next_decl);
        if self.next_decl < 0xffffffffffffffffu64 {
            self.next_decl = self.next_decl + 1;
        }
        id
    }

    /// Analyze one source text: declare attributes, attach usages,
    /// and apply built-in attributes to the property index. Earlier
    /// diagnostics are kept; analysis only appends.
    pub fn def(&mut self, content: &str) -> (r: ())
        ensures
            final(self).diagnostics@.len() >= old(self).diagnostics@.len(),
            forall|j: int|
                0 <= j < old(self).diagnostics@.len() ==> #[trigger] final(self).diagnostics@[j]
                    == old(self).diagnostics@[j],
    {
        let chars = str_chars(content);
        let lines = line_ranges(&chars);
        let nl = lines.len();

        // first pass: attribute declarations
        let mut li: usize = 0;
        while li < nl
            invariant
                nl == lines@.len(),
                0 <= li <= nl,
                forall|j: int|
                    0 <= j < lines@.len() ==> (#[trigger] lines@[j]).0 <= lines@[j].1 && lines@[j].1
                        <= chars@.len(),
                chars@ == content@,
                self.diagnostics@ == old(self).diagnostics@,
            decreases nl - li,
        {
            let (s, e) = lines[li];
            if let LineKind::AttrDecl { name_start, name_end } = classify_line(&chars, s, e) {
                if name_end > name_start {
                    let name: String = content.substring_char(name_start, name_end).to_owned();
                    self.registry.declare(name);
                }
            }
            li = li + 1;
        }

        // second pass: attribute usages, with sibling scans
        let mut field_ids: Vec<Option<LuaSemanticDeclId>> = Vec::new();
        let mut k: usize = 0;
        while k < nl
            invariant
                nl == lines@.len(),
                0 <= k <= nl,
                field_ids@.len() == k,
            decreases nl - k,
        {
            field_ids.push(None);
            k = k + 1;
        }

        let mut li2: usize = 0;
        while li2 < nl
            invariant
                nl == lines@.len(),
                field_ids@.len() == nl,
                0 <= li2 <= nl,
                forall|j: int|
                    0 <= j < lines@.len() ==> (#[trigger] lines@[j]).0 <= lines@[j].1 && lines@[j].1
                        <= chars@.len(),
                chars@ == content@,
                self.diagnostics@.len() >= old(self).diagnostics@.len(),
                forall|j: int|
                    0 <= j < old(self).diagnostics@.len() ==> #[trigger] self.diagnostics@[j]
                        == old(self).diagnostics@[j],
            decreases nl - li2,
        {
            let (s, e) = lines[li2];
            if let LineKind::AttrUse { open } = classify_line(&chars, s, e) {
                let open2 = if open > e {
                    e
                } else {
                    open
                };
                let tag_use = parse_usage_line(content, &chars, open2, e);

                // siblings: the rest of this comment block
                let mut siblings: Vec<LuaSyntaxSibling> = Vec::new();
                let mut sj = li2 + 1;
                while sj < nl
                    invariant
                        nl == lines@.len(),
                        field_ids@.len() == nl,
                        li2 < sj <= nl,
                        forall|j: int|
                            0 <= j < lines@.len() ==> (#[trigger] lines@[j]).0 <= lines@[j].1
                                && lines@[j].1 <= chars@.len(),
                        chars@ == content@,
                        self.diagnostics@.len() >= old(self).diagnostics@.len(),
                        forall|j: int|
                            0 <= j < old(self).diagnostics@.len() ==> #[trigger] self.diagnostics@[
                                j
                            ] == old(self).diagnostics@[j],
                    decreases nl - sj,
                {
                    let (s2, e2) = lines[sj];
                    match classify_line(&chars, s2, e2) {
                        LineKind::DocField { name_start, name_end } => {
                            let fid = match field_ids[sj] {
                                Some(f) => f,
                                None => {
                                    let f = self.fresh_decl();
                                    field_ids.set(sj, Some(f));
                                    if name_end > name_start {
                                        let nm: String = content.substring_char(
                                            name_start,
                                            name_end,
                                        ).to_owned();
                                        self.decl_names.push((nm, f));
                                    }
                                    f
                                },
                            };
                            siblings.push(
                                LuaSyntaxSibling {
                                    kind: LuaSyntaxNodeKind::DocTagField,
                                    decl: Some(fid),
                                },
                            );
                        },
                        LineKind::AttrUse { .. } => {
                            siblings.push(
                                LuaSyntaxSibling { kind: LuaSyntaxNodeKind::DocTagOther, decl: None },
                            );
                        },
                        LineKind::AttrDecl { .. } => {
                            siblings.push(
                                LuaSyntaxSibling { kind: LuaSyntaxNodeKind::DocTagOther, decl: None },
                            );
                        },
                        LineKind::DocOther => {
                            siblings.push(
                                LuaSyntaxSibling { kind: LuaSyntaxNodeKind::DocTagOther, decl: None },
                            );
                        },
                        _ => {
                            break ;
                        },
                    }
                    sj = sj + 1;
                }

                // the comment's own target: the first following
                // non-blank line of code, if it declares something
                let mut owner: Option<LuaSemanticDeclId> = None;
                let mut oj = sj;
                while oj < nl
                    invariant
                        nl == lines@.len(),
                        field_ids@.len() == nl,
                        li2 < sj <= oj <= nl,
                        forall|j: int|
                            0 <= j < lines@.len() ==> (#[trigger] lines@[j]).0 <= lines@[j].1
                                && lines@[j].1 <= chars@.len(),
                        chars@ == content@,
                        self.diagnostics@.len() >= old(self).diagnostics@.len(),
                        forall|j: int|
                            0 <= j < old(self).diagnostics@.len() ==> #[trigger] self.diagnostics@[
                                j
                            ] == old(self).diagnostics@[j],
                    decreases nl - oj,
                {
                    let (s3, e3) = lines[oj];
                    match classify_line(&chars, s3, e3) {
                        LineKind::Blank => {
                            oj = oj + 1;
                        },
                        LineKind::Decl => {
                            let f = match field_ids[oj] {
                                Some(f) => f,
                                None => {
                                    let f = self.fresh_decl();
                                    field_ids.set(oj, Some(f));
                                    if let Some((ns, ne)) = decl_name_range(&chars, s3, e3) {
                                        if ne > ns {
                                            let nm: String = content.substring_char(ns, ne)
                                                .to_owned();
                                            self.decl_names.push((nm, f));
                                        }
                                    }
                                    f
                                },
                            };
                            owner = Some(f);
                            break ;
                        },
                        _ => {
                            break ;
                        },
                    }
                }

                let range = TextRange {
                    start: #[verifier::truncate] (s as u32),
                    end: #[verifier::truncate] (e as u32),
                };
                analyze_tag_attribute_use(
                    &mut self.db.properties,
                    &mut self.diagnostics,
                    &self.registry,
                    &tag_use,
                    &siblings,
                    owner,
                    range,
                );
            }
            li2 = li2 + 1;
        }

        // third pass: built-in attribute effects
        self.apply_builtin_attributes();
    }

    /// Apply the built-in attributes recorded in the index: a
    /// `deprecated` use marks its owner deprecated (with its first
    /// string argument as the message), a `readonly` use sets the
    /// read-only feature bit.
    fn apply_builtin_attributes(&mut self) -> (r: ())
        ensures
            final(self).diagnostics@ == old(self).diagnostics@,
    {
        let total = self.next_decl;
        let mut raw: u64 = 0;
        while raw < total
            invariant
                total == self.next_decl,
                self.diagnostics@ == old(self).diagnostics@,
            decreases total - raw,
        {
            let id = LuaSemanticDeclId::new(raw);
            let mut dep: bool = false;
            let mut dep_msg: Option<String> = None;
            let mut ro: bool = false;
            let marker_dep: String = "deprecated".to_owned();
            let marker_ro: String = "readonly".to_owned();
            if let Some(uses) = self.db.properties.get_attribute_uses(&id) {
                let n = uses.len();
                let mut a: usize = 0;
                while a < n
                    invariant
                        n == uses@.len(),
                        0 <= a <= n,
                    decreases n - a,
                {
                    let u = &uses[a];
                    if *u.id.get_name() == marker_dep {
                        dep = true;
                        if u.args.len() > 0 {
                            if let LuaType::StringConst(m) = &u.args[0] {
                                dep_msg = Some(m.clone());
                            }
                        }
                    }
                    if *u.id.get_name() == marker_ro {
                        ro = true;
                    }
                    a = a + 1;
                }
            }
            if dep {
                let p = self.db.properties.get_or_create(id);
                p.add_extra_deprecated(dep_msg);
            }
            if ro {
                let p = self.db.properties.get_or_create(id);
                p.add_decl_feature(PropertyDeclFeature::ReadOnly);
            }
            raw = raw + 1;
        }
    }

    /// Analyze several virtual files in order; earlier diagnostics
    /// are kept.
    pub fn def_files(&mut self, files: Vec<(&str, &str)>) -> (r: ())
        ensures
            final(self).diagnostics@.len() >= old(self).diagnostics@.len(),
            forall|j: int|
                0 <= j < old(self).diagnostics@.len() ==> #[trigger] final(self).diagnostics@[j]
                    == old(self).diagnostics@[j],
    {
        let n = files.len();
        let mut i: usize = 0;
        while i < n
            invariant
                n == files@.len(),
                0 <= i <= n,
                self.diagnostics@.len() >= old(self).diagnostics@.len(),
                forall|j: int|
                    0 <= j < old(self).diagnostics@.len() ==> #[trigger] self.diagnostics@[j]
                        == old(self).diagnostics@[j],
            decreases n - i,
        {
            let (_, content) = files[i];
            self.def(content);
            i = i + 1;
        }
    }

    /// Analyze a snippet and say whether it produced no diagnostic
    /// of the given code.
    pub fn check_code_for(&mut self, code: DiagnosticCode, content: &str) -> (r: bool)
        ensures
            final(self).diagnostics@.len() >= old(self).diagnostics@.len(),
            forall|j: int|
                0 <= j < old(self).diagnostics@.len() ==> #[trigger] final(self).diagnostics@[j]
                    == old(self).diagnostics@[j],
            r == (forall|j: int|
                old(self).diagnostics@.len() <= j < final(self).diagnostics@.len()
                    ==> (#[trigger] final(self).diagnostics@[j]).code != code),
    {
        let before = self.diagnostics.len();
        self.def(content);
        let after = self.diagnostics.len();
        let mut i = before;
        let mut clean = true;
        while i < after
            invariant
                before <= i <= after,
                after == self.diagnostics@.len(),
                before == old(self).diagnostics@.len(),
                self.diagnostics@.len() >= old(self).diagnostics@.len(),
                forall|j: int|
                    0 <= j < old(self).diagnostics@.len() ==> #[trigger] self.diagnostics@[j]
                        == old(self).diagnostics@[j],
                clean == (forall|j: int|
                    before <= j < i ==> (#[trigger] self.diagnostics@[j]).code != code),
            decreases after - i,
        {
            if self.diagnostics[i].code == code {
                clean = false;
            }
            i = i + 1;
        }
        clean
    }

    /// The declaration identity recorded under a name, if any.
    pub fn find_decl(&self, name: &str) -> (r: Option<LuaSemanticDeclId>) {
        let wanted: String = name.to_owned();
        let n = self.decl_names.len();
        let mut i: usize = 0;
        while i < n
            invariant
                n == self.decl_names@.len(),
                0 <= i <= n,
            decreases n - i,
        {
            if self.decl_names[i].0 == wanted {
                return Some(self.decl_names[i].1);
            }
            i = i + 1;
        }
        None
    }
}

} // verus!
