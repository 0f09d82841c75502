//! Workspace-scan configuration: which file patterns a scan includes
//! and excludes, derived from the configuration and command-line
//! overrides.

use vstd::prelude::*;

verus! {

/// Runtime configuration the pattern calculation reads.
pub struct EmmyrcRuntime {
    pub extensions: Vec<String>,
}

/// Workspace configuration the pattern calculation reads.
pub struct EmmyrcWorkspace {
    pub ignore_globs: Vec<String>,
    pub ignore_dir: Vec<String>,
    pub library: Vec<String>,
    pub workspace_roots: Vec<String>,
    pub encoding: String,
}

/// The configuration file's contents, reduced to what this crate
/// consults.
pub struct Emmyrc {
    pub runtime: EmmyrcRuntime,
    pub workspace: EmmyrcWorkspace,
}

/// Lexicographic order on character sequences, by code point.
pub open spec fn char_seq_le(a: Seq<char>, b: Seq<char>) -> bool
    decreases a.len(),
{
    if a.len() == 0 {
        true
    } else if b.len() == 0 {
        false
    } else if (a[0] as u32) < (b[0] as u32) {
        true
    } else if (a[0] as u32) > (b[0] as u32) {
        false
    } else {
        char_seq_le(a.drop_first(), b.drop_first())
    }
}

/// Exec comparison, as `char_seq_le` states.
fn str_le(a: &String, b: &String) -> (r: bool)
    ensures
        r == char_seq_le(a@, b@),
{
    let av = string_chars(a);
    let bv = string_chars(b);
    let an = av.len();
    let bn = bv.len();
    let mut i: usize = 0;
    proof {
        assert(a@.skip(0) =~= a@);
        assert(b@.skip(0) =~= b@);
    }
    loop
        invariant
            an == av@.len(),
            bn == bv@.len(),
            av@ == a@,
            bv@ == b@,
            0 <= i <= an,
            0 <= i <= bn,
            char_seq_le(a@, b@) == char_seq_le(a@.skip(i as int), b@.skip(i as int)),
        decreases an - i,
    {
        proof {
            assert(a@.skip(i as int).len() == an - i);
            assert(b@.skip(i as int).len() == bn - i);
        }
        if i == an {
            return true;
        }
        if i == bn {
            return false;
        }
        let ca = av[i];
        let cb = bv[i];
        proof {
            assert(a@.skip(i as int)[0] == a@[i as int]);
            assert(b@.skip(i as int)[0] == b@[i as int]);
        }
        if (ca as u32) < (cb as u32) {
            return true;
        }
        if (ca as u32) > (cb as u32) {
            return false;
        }
        proof {
            assert(a@.skip(i as int).drop_first() =~= a@.skip(i + 1));
            assert(b@.skip(i as int).drop_first() =~= b@.skip(i + 1));
        }
        i = i + 1;
    }
}

/// The characters of a string, indexable.
fn string_chars(s: &String) -> (r: Vec<char>)
    ensures
        r@ == s@,
{
    let st: &str = s.as_str();
    let n = vstd::string::StrSliceExecFns::unicode_len(st);
    let mut out: Vec<char> = Vec::new();
    let mut i: usize = 0;
    while i < n
        invariant
            n == st@.len(),
            st@ == s@,
            0 <= i <= n,
            out@.len() == i,
            forall|j: int| 0 <= j < i ==> out@[j] == s@[j],
        decreases n - i,
    {
        out.push(vstd::string::StrSliceExecFns::get_char(st, i));
        i = i + 1;
    }
    proof {
        assert(out@ =~= s@);
    }
    out
}

/// A sequence of strings in strictly increasing order: sorted, with
/// no duplicates.
pub open spec fn strictly_sorted(s: Seq<String>) -> bool {
    forall|i: int, j: int|
        0 <= i < j < s.len() ==> char_seq_le(#[trigger] s[i]@, #[trigger] s[j]@) && s[i]@ != s[j]@
}

/// Whether some element of `s` spells `k`.
pub open spec fn has_view(s: Seq<String>, k: Seq<char>) -> bool {
    exists|i: int| 0 <= i < s.len() && (#[trigger] s[i])@ == k
}

/// Totality of the order.
proof fn lemma_le_total(a: Seq<char>, b: Seq<char>)
    ensures
        char_seq_le(a, b) || char_seq_le(b, a),
    decreases a.len(),
{
    if a.len() == 0 {
    } else if b.len() == 0 {
    } else if (a[0] as u32) == (b[0] as u32) {
        lemma_le_total(a.drop_first(), b.drop_first());
    }
}

/// The order is reflexive.
proof fn lemma_le_refl(a: Seq<char>)
    ensures
        char_seq_le(a, a),
    decreases a.len(),
{
    if a.len() > 0 {
        lemma_le_refl(a.drop_first());
    }
}

/// Transitivity of the order.
proof fn lemma_le_trans(a: Seq<char>, b: Seq<char>, c: Seq<char>)
    requires
        char_seq_le(a, b),
        char_seq_le(b, c),
    ensures
        char_seq_le(a, c),
    decreases a.len(),
{
    if a.len() == 0 {
    } else if b.len() == 0 {
    } else if c.len() == 0 {
    } else {
        if (a[0] as u32) == (b[0] as u32) && (b[0] as u32) == (c[0] as u32) {
            lemma_le_trans(a.drop_first(), b.drop_first(), c.drop_first());
        }
    }
}

/// Insert a string into a sorted, duplicate-free vector, keeping it
/// sorted and duplicate-free; an already-present value is dropped.
fn sorted_insert(out: &mut Vec<String>, x: String) -> (r: ())
    requires
        strictly_sorted(old(out)@),
    ensures
        strictly_sorted(final(out)@),
        forall|k: Seq<char>|
            #[trigger] has_view(final(out)@, k) == (has_view(old(out)@, k) || k == x@),
{
    let ghost xv = x@;
    let n = out.len();
    let mut i: usize = 0;
    while i < n
        invariant
            n == out@.len(),
            0 <= i <= n,
            strictly_sorted(out@),
            out@ == old(out)@,
            forall|j: int|
                0 <= j < i ==> char_seq_le((#[trigger] out@[j])@, xv) && out@[j]@ != xv,
            xv == x@,
        decreases n - i,
    {
        let cmp_le = str_le(&out[i], &x);
        let eq = out[i] == x;
        if eq {
            proof {
                assert(out@[i as int]@ == xv);
                assert(has_view(out@, xv));
                assert forall|k: Seq<char>| #[trigger] has_view(out@, k) == (has_view(
                    old(out)@,
                    k,
                ) || k == x@) by {}
            }
            return ;
        }
        if !cmp_le {
            // out[i] > x: insert here
            proof {
                lemma_le_total(out@[i as int]@, xv);
            }
            insert_at(out, i, x);
            proof {
                lemma_sorted_after_insert(old(out)@, out@, i as int, xv);
            }
            return ;
        }
        i = i + 1;
    }
    out.push(x);
    proof {
        let s = out@;
        assert(s.drop_last() =~= old(out)@);
        assert(s.last()@ == xv);
        assert forall|p: int, q: int|
            0 <= p < q < s.len() implies char_seq_le((#[trigger] s[p])@, (#[trigger] s[q])@) && s[
            p
        ]@ != s[q]@ by {
            if q == s.len() - 1 {
                assert(s[p] == old(out)@[p]);
                assert(char_seq_le(s[p]@, xv) && s[p]@ != xv);
            } else {
                assert(s[p] == old(out)@[p]);
                assert(s[q] == old(out)@[q]);
            }
        }
        assert forall|k: Seq<char>| #[trigger] has_view(s, k) == (has_view(old(out)@, k) || k
            == xv) by {
            if has_view(s, k) {
                let w = choose|w: int| 0 <= w < s.len() && (#[trigger] s[w])@ == k;
                if w < s.len() - 1 {
                    assert(old(out)@[w]@ == k);
                }
            }
            if has_view(old(out)@, k) {
                let w = choose|w: int| 0 <= w < old(out)@.len() && (#[trigger] old(out)@[w])@ == k;
                assert(s[w]@ == k);
            }
            if k == xv {
                assert(s[s.len() - 1]@ == k);
            }
        }
    }
}

/// `Vec::insert`, with the shifted-contents relation spelled out.
fn insert_at(out: &mut Vec<String>, i: usize, x: String) -> (r: ())
    requires
        i <= old(out)@.len(),
    ensures
        final(out)@.len() == old(out)@.len() + 1,
        forall|j: int| 0 <= j < i ==> final(out)@[j] == old(out)@[j],
        final(out)@[i as int] == x,
        forall|j: int| i < j < final(out)@.len() ==> final(out)@[j] == old(out)@[j - 1],
{
    out.insert(i, x);
    proof {
        assert(out@ =~= old(out)@.insert(i as int, x));
    }
}

/// Insertion in the middle keeps the order and adjusts membership.
proof fn lemma_sorted_after_insert(
    before: Seq<String>,
    after: Seq<String>,
    i: int,
    xv: Seq<char>,
)
    requires
        strictly_sorted(before),
        0 <= i < before.len(),
        after.len() == before.len() + 1,
        forall|j: int| 0 <= j < i ==> after[j] == before[j],
        after[i]@ == xv,
        forall|j: int| i < j < after.len() ==> after[j] == before[j - 1],
        forall|j: int| 0 <= j < i ==> char_seq_le((#[trigger] before[j])@, xv) && before[j]@ != xv,
        char_seq_le(xv, before[i]@),
        !char_seq_le(before[i]@, xv),
    ensures
        strictly_sorted(after),
        forall|k: Seq<char>| #[trigger] has_view(after, k) == (has_view(before, k) || k == xv),
{
    assert forall|p: int, q: int|
        0 <= p < q < after.len() implies char_seq_le((#[trigger] after[p])@, (#[trigger] after[q])@)
        && after[p]@ != after[q]@ by {
        if p < i && q < i {
        } else if p < i && q == i {
        } else if p < i && q > i {
            assert(after[q] == before[q - 1]);
        } else if p == i && q > i {
            let bq = before[q - 1];
            if q - 1 == i {
                if xv == bq@ {
                    lemma_le_refl(xv);
                }
            } else {
                assert(char_seq_le(before[i]@, bq@) && before[i]@ != bq@);
                lemma_le_trans(xv, before[i]@, bq@);
                if xv == bq@ {
                    lemma_le_refl(xv);
                }
            }
        } else {
            assert(after[p] == before[p - 1]);
            assert(after[q] == before[q - 1]);
        }
    }
    assert forall|k: Seq<char>| #[trigger] has_view(after, k) == (has_view(before, k) || k
        == xv) by {
        if has_view(after, k) {
            let w = choose|w: int| 0 <= w < after.len() && (#[trigger] after[w])@ == k;
            if w < i {
                assert(before[w]@ == k);
            } else if w > i {
                assert(before[w - 1]@ == k);
            }
        }
        if has_view(before, k) {
            let w = choose|w: int| 0 <= w < before.len() && (#[trigger] before[w])@ == k;
            if w < i {
                assert(after[w]@ == k);
            } else {
                assert(after[w + 1]@ == k);
            }
        }
        if k == xv {
            assert(after[i]@ == k);
        }
    }
}

/// The pattern one configured extension contributes: `.ext` becomes
/// `**/*.ext`, `*.ext` becomes `**/*.ext`, anything else stands as
/// written.
pub open spec fn spec_extension_pattern(ext: Seq<char>) -> Seq<char> {
    if ext.len() >= 1 && ext[0] == '.' {
        "**/*"@ + ext
    } else if ext.len() >= 2 && ext[0] == '*' && ext[1] == '.' {
        "**/"@ + ext
    } else {
        ext
    }
}

/// The raw included patterns before ordering: the overrides verbatim
/// when given, else the built-in patterns followed by one per
/// configured extension.
pub open spec fn spec_raw_includes(
    extensions: Seq<String>,
    include_pattern: Option<Vec<String>>,
) -> Seq<Seq<char>> {
    match include_pattern {
        Some(p) => p@.map_values(|s: String| s@),
        None => seq!["**/*.lua"@, "**/.editorconfig"@] + extensions.map_values(
            |s: String| spec_extension_pattern(s@),
        ),
    }
}

/// The raw exclude patterns before ordering: the configured ignore
/// globs, then the command-line overrides.
pub open spec fn spec_raw_excludes(
    ignore_globs: Seq<String>,
    exclude_pattern: Option<Vec<String>>,
) -> Seq<Seq<char>> {
    ignore_globs.map_values(|s: String| s@) + (match exclude_pattern {
        Some(p) => p@.map_values(|s: String| s@),
        None => Seq::empty(),
    })
}

/// One tracked insertion: after inserting the `i`-th raw pattern,
/// the vector holds exactly the first `i + 1` raw patterns.
fn sorted_insert_step(
    out: &mut Vec<String>,
    x: String,
    raw: Ghost<Seq<Seq<char>>>,
    i: Ghost<int>,
) -> (r: ())
    requires
        strictly_sorted(old(out)@),
        0 <= i@ < raw@.len(),
        raw@[i@] == x@,
        forall|k: Seq<char>| #[trigger] has_view(old(out)@, k) == raw@.take(i@).contains(k),
    ensures
        strictly_sorted(final(out)@),
        forall|k: Seq<char>| #[trigger] has_view(final(out)@, k) == raw@.take(i@ + 1).contains(k),
{
    let ghost before = out@;
    sorted_insert(out, x);
    proof {
        lemma_take_step_contains(raw@, i@);
        assert forall|k: Seq<char>| #[trigger] has_view(out@, k) == raw@.take(i@ + 1).contains(
            k,
        ) by {
            assert(has_view(out@, k) == (has_view(before, k) || k == x@));
            assert(raw@.take(i@ + 1).contains(k) == (raw@.take(i@).contains(k) || k == raw@[i@]));
            assert(has_view(before, k) == raw@.take(i@).contains(k));
        }
    }
}

/// Compute the included patterns, exclude patterns, and excluded
/// directories for a workspace scan. Includes and excludes are
/// deduplicated and returned in increasing order; the directory list
/// keeps the configured order.
pub fn calculate_include_and_exclude(
    emmyrc: &Emmyrc,
    exclude_pattern: Option<Vec<String>>,
    include_pattern: Option<Vec<String>>,
) -> (r: (Vec<String>, Vec<String>, Vec<String>))
    ensures
        strictly_sorted(r.0@),
        forall|k: Seq<char>|
            #[trigger] has_view(r.0@, k) == spec_raw_includes(
                emmyrc.runtime.extensions@,
                include_pattern,
            ).contains(k),
        strictly_sorted(r.1@),
        forall|k: Seq<char>|
            #[trigger] has_view(r.1@, k) == spec_raw_excludes(
                emmyrc.workspace.ignore_globs@,
                exclude_pattern,
            ).contains(k),
        r.2@.len() == emmyrc.workspace.ignore_dir@.len(),
        forall|j: int|
            0 <= j < r.2@.len() ==> (#[trigger] r.2@[j])@ == emmyrc.workspace.ignore_dir@[j]@,
{
    let ghost raw_inc = spec_raw_includes(emmyrc.runtime.extensions@, include_pattern);
    let mut included: Vec<String> = Vec::new();
    proof {
        assert(raw_inc.take(0) =~= Seq::<Seq<char>>::empty());
        assert(forall|k: Seq<char>|
            #[trigger] has_view(included@, k) == raw_inc.take(0).contains(k));
    }
    match &include_pattern {
        Some(p) => {
            let n = p.len();
            let mut i: usize = 0;
            while i < n
                invariant
                    n == p@.len(),
                    0 <= i <= n,
                    include_pattern matches Some(pp) && pp == p,
                    raw_inc == spec_raw_includes(emmyrc.runtime.extensions@, include_pattern),
                    raw_inc.len() == n,
                    strictly_sorted(included@),
                    forall|k: Seq<char>|
                        #[trigger] has_view(included@, k) == raw_inc.take(i as int).contains(k),
                decreases n - i,
            {
                proof {
                    assert(raw_inc[i as int] == p@[i as int]@);
                }
                let x = p[i].clone();
                proof {
                    assert(x@ == p@[i as int]@);
                }
                sorted_insert_step(&mut included, x, Ghost(raw_inc), Ghost(i as int));
                i = i + 1;
            }
            proof {
                assert(raw_inc.take(n as int) =~= raw_inc);
            }
        },
        None => {
            let base0: String = "**/*.lua".to_owned();
            let base1: String = "**/.editorconfig".to_owned();
            proof {
                assert(raw_inc[0] == "**/*.lua"@);
                assert(raw_inc[1] == "**/.editorconfig"@);
            }
            sorted_insert_step(&mut included, base0, Ghost(raw_inc), Ghost(0));
            sorted_insert_step(&mut included, base1, Ghost(raw_inc), Ghost(1));
            let exts = &emmyrc.runtime.extensions;
            let n = exts.len();
            let mut i: usize = 0;
            while i < n
                invariant
                    n == exts@.len(),
                    exts == &emmyrc.runtime.extensions,
                    0 <= i <= n,
                    include_pattern is None,
                    raw_inc == spec_raw_includes(emmyrc.runtime.extensions@, include_pattern),
                    raw_inc.len() == n + 2,
                    strictly_sorted(included@),
                    forall|k: Seq<char>|
                        #[trigger] has_view(included@, k) == raw_inc.take(i + 2).contains(k),
                decreases n - i,
            {
                let ext = &exts[i];
                let pat: String = extension_pattern(ext);
                proof {
                    assert(raw_inc[i + 2] == spec_extension_pattern(exts@[i as int]@));
                }
                sorted_insert_step(&mut included, pat, Ghost(raw_inc), Ghost(i + 2));
                i = i + 1;
            }
            proof {
                assert(raw_inc.take(n + 2) =~= raw_inc);
            }
        },
    }

    let ghost raw_exc = spec_raw_excludes(emmyrc.workspace.ignore_globs@, exclude_pattern);
    let mut exclude: Vec<String> = Vec::new();
    proof {
        assert(raw_exc.take(0) =~= Seq::<Seq<char>>::empty());
        assert(forall|k: Seq<char>|
            #[trigger] has_view(exclude@, k) == raw_exc.take(0).contains(k));
    }
    let globs = &emmyrc.workspace.ignore_globs;
    let gn = globs.len();
    let mut gi: usize = 0;
    while gi < gn
        invariant
            gn == globs@.len(),
            globs == &emmyrc.workspace.ignore_globs,
            0 <= gi <= gn,
            raw_exc == spec_raw_excludes(emmyrc.workspace.ignore_globs@, exclude_pattern),
            raw_exc.len() >= gn,
            strictly_sorted(exclude@),
            forall|k: Seq<char>|
                #[trigger] has_view(exclude@, k) == raw_exc.take(gi as int).contains(k),
        decreases gn - gi,
    {
        proof {
            assert(raw_exc[gi as int] == globs@[gi as int]@);
        }
        let x = globs[gi].clone();
        proof {
            assert(x@ == globs@[gi as int]@);
        }
        sorted_insert_step(&mut exclude, x, Ghost(raw_exc), Ghost(gi as int));
        gi = gi + 1;
    }
    match &exclude_pattern {
        Some(p) => {
            let pn = p.len();
            let mut pi: usize = 0;
            while pi < pn
                invariant
                    pn == p@.len(),
                    exclude_pattern matches Some(pp) && pp == p,
                    0 <= pi <= pn,
                    raw_exc == spec_raw_excludes(emmyrc.workspace.ignore_globs@, exclude_pattern),
                    raw_exc.len() == gn + pn,
                    gn == emmyrc.workspace.ignore_globs@.len(),
                    strictly_sorted(exclude@),
                    forall|k: Seq<char>|
                        #[trigger] has_view(exclude@, k) == raw_exc.take(gn + pi).contains(k),
                decreases pn - pi,
            {
                proof {
                    assert(raw_exc[gn + pi] == p@[pi as int]@);
                }
                let x = p[pi].clone();
                proof {
                    assert(x@ == p@[pi as int]@);
                }
                sorted_insert_step(&mut exclude, x, Ghost(raw_exc), Ghost((gn + pi) as int));
                pi = pi + 1;
            }
            proof {
                assert(raw_exc.take(gn + pn) =~= raw_exc);
            }
        },
        None => {
            proof {
                assert(raw_exc.take(gn as int) =~= raw_exc);
            }
        },
    }

    let mut exclude_dirs: Vec<String> = Vec::new();
    let dirs = &emmyrc.workspace.ignore_dir;
    let dn = dirs.len();
    let mut di: usize = 0;
    while di < dn
        invariant
            dn == dirs@.len(),
            dirs == &emmyrc.workspace.ignore_dir,
            0 <= di <= dn,
            exclude_dirs@.len() == di,
            forall|j: int| 0 <= j < di ==> (#[trigger] exclude_dirs@[j])@ == dirs@[j]@,
        decreases dn - di,
    {
        exclude_dirs.push(dirs[di].clone());
        di = di + 1;
    }

    (included, exclude, exclude_dirs)
}

/// One step of prefix membership.
proof fn lemma_take_step_contains(s: Seq<Seq<char>>, i: int)
    requires
        0 <= i < s.len(),
    ensures
        forall|k: Seq<char>|
            #[trigger] s.take(i + 1).contains(k) == (s.take(i).contains(k) || k == s[i]),
{
    assert forall|k: Seq<char>|
        #[trigger] s.take(i + 1).contains(k) == (s.take(i).contains(k) || k == s[i]) by {
        if s.take(i + 1).contains(k) {
            let w = choose|w: int| 0 <= w < i + 1 && (#[trigger] s.take(i + 1)[w]) == k;
            if w < i {
                assert(s.take(i)[w] == k);
            } else {
                assert(s[i] == k);
            }
        }
        if s.take(i).contains(k) {
            let w = choose|w: int| 0 <= w < i && (#[trigger] s.take(i)[w]) == k;
            assert(s.take(i + 1)[w] == k);
        }
        if k == s[i] {
            assert(s.take(i + 1)[i] == k);
        }
    }
}

/// Exec mirror of `spec_extension_pattern`.
fn extension_pattern(ext: &String) -> (r: String)
    ensures
        r@ == spec_extension_pattern(ext@),
{
    let chars = string_chars(ext);
    if chars.len() >= 1 && chars[0] == '.' {
        let mut p: String = "**/*".to_owned();
        vstd::string::StringExecFns::append(&mut p, ext.as_str());
        p
    } else if chars.len() >= 2 && chars[0] == '*' && chars[1] == '.' {
        let mut p: String = "**/".to_owned();
        vstd::string::StringExecFns::append(&mut p, ext.as_str());
        p
    } else {
        ext.clone()
    }
}

} // verus!
