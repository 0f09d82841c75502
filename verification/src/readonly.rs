//! The read-only checker: an example consumer of the property
//! index's feature bitset. For every assignment target whose
//! declaration carries the read-only feature, a diagnostic is
//! emitted; analysis never blocks the assignment itself.

use vstd::prelude::*;

use crate::diagnostics::{Diagnostic, DiagnosticCode, DiagnosticSeverity, TextRange};
use crate::index::{LuaPropertyIndex, LuaSemanticDeclId};
use crate::property::PropertyDeclFeature;

verus! {

/// One resolved assignment target: the declaration it writes to (when
/// the semantic model could resolve one), its source range, and, for
/// index expressions, the resolved prefix declaration and its range.
pub struct LuaAssignTarget {
    pub decl: Option<LuaSemanticDeclId>,
    pub range: TextRange,
    pub prefix_decl: Option<LuaSemanticDeclId>,
    pub prefix_range: TextRange,
}

/// One assignment statement: its resolved targets in source order.
pub struct LuaAssignStat {
    pub targets: Vec<LuaAssignTarget>,
}

/// Whether the index marks a declaration read-only.
pub open spec fn spec_readonly(db: LuaPropertyIndex, id: LuaSemanticDeclId) -> bool {
    db.properties@.contains_key(id.raw) && db.properties@[id.raw].decl_features.spec_has_feature(
        PropertyDeclFeature::ReadOnly,
    )
}

/// The ranges one target reports: its own declaration first, then an
/// index expression's prefix declaration.
pub open spec fn spec_target_hits(db: LuaPropertyIndex, t: LuaAssignTarget) -> Seq<TextRange> {
    let own: Seq<TextRange> = match t.decl {
        Some(d) => if spec_readonly(db, d) {
            seq![t.range]
        } else {
            Seq::empty()
        },
        None => Seq::empty(),
    };
    let pre: Seq<TextRange> = match t.prefix_decl {
        Some(d) => if spec_readonly(db, d) {
            seq![t.prefix_range]
        } else {
            Seq::empty()
        },
        None => Seq::empty(),
    };
    own + pre
}

/// The ranges one statement reports, over its targets in order.
pub open spec fn spec_stat_hits(db: LuaPropertyIndex, targets: Seq<LuaAssignTarget>) -> Seq<
    TextRange,
>
    decreases targets.len(),
{
    if targets.len() == 0 {
        Seq::empty()
    } else {
        spec_stat_hits(db, targets.drop_last()) + spec_target_hits(db, targets.last())
    }
}

/// The ranges a whole file's assignment statements report.
pub open spec fn spec_file_hits(db: LuaPropertyIndex, stats: Seq<Seq<LuaAssignTarget>>) -> Seq<
    TextRange,
>
    decreases stats.len(),
{
    if stats.len() == 0 {
        Seq::empty()
    } else {
        spec_file_hits(db, stats.drop_last()) + spec_stat_hits(db, stats.last())
    }
}

/// Whether a run of diagnostics reports exactly the given ranges as
/// read-only violations.
pub open spec fn spec_reports(diags: Seq<Diagnostic>, hits: Seq<TextRange>) -> bool {
    &&& diags.len() == hits.len()
    &&& forall|j: int|
        0 <= j < hits.len() ==> {
            let d = #[trigger] diags[j];
            d.code == DiagnosticCode::ReadOnly && d.range == hits[j] && d.severity
                == DiagnosticSeverity::Warning
        }
}

/// If the declaration is marked read-only, report it at `range`.
pub fn check_and_report_semantic_id(
    db: &LuaPropertyIndex,
    diagnostics: &mut Vec<Diagnostic>,
    range: TextRange,
    semantic_decl_id: LuaSemanticDeclId,
) -> (r: Option<()>)
    ensures
        r is Some,
        spec_readonly(*db, semantic_decl_id) ==> {
            &&& final(diagnostics)@.len() == old(diagnostics)@.len() + 1
            &&& (forall|j: int|
                0 <= j < old(diagnostics)@.len() ==> #[trigger] final(diagnostics)@[j] == old(
                    diagnostics,
                )@[j])
            &&& final(diagnostics)@.last().code == DiagnosticCode::ReadOnly
            &&& final(diagnostics)@.last().range == range
            &&& final(diagnostics)@.last().severity == DiagnosticSeverity::Warning
        },
        !spec_readonly(*db, semantic_decl_id) ==> final(diagnostics)@ == old(diagnostics)@,
{
    if let Some(property) = db.get_property(&semantic_decl_id) {
        if property.decl_features.has_feature(PropertyDeclFeature::ReadOnly) {
            let message: String = "the variable is marked as read-only and cannot be assigned to"
                .to_owned();
            diagnostics.push(
                Diagnostic::new(
                    DiagnosticCode::ReadOnly,
                    range,
                    message,
                    DiagnosticSeverity::Warning,
                ),
            );
        }
    }
    Some(())
}

/// Check one assignment statement: each target's own declaration,
/// then the prefix declaration of index-expression targets.
pub fn check_assign_stat(
    db: &LuaPropertyIndex,
    diagnostics: &mut Vec<Diagnostic>,
    assign_stat: &LuaAssignStat,
) -> (r: Option<()>)
    ensures
        r is Some,
        final(diagnostics)@.len() == old(diagnostics)@.len() + spec_stat_hits(
            *db,
            assign_stat.targets@,
        ).len(),
        forall|j: int|
            0 <= j < old(diagnostics)@.len() ==> #[trigger] final(diagnostics)@[j] == old(
                diagnostics,
            )@[j],
        spec_reports(
            final(diagnostics)@.skip(old(diagnostics)@.len() as int),
            spec_stat_hits(*db, assign_stat.targets@),
        ),
{
    let ghost base = diagnostics@;
    let n = assign_stat.targets.len();
    let mut i: usize = 0;
    while i < n
        invariant
            n == assign_stat.targets@.len(),
            0 <= i <= n,
            diagnostics@.len() == base.len() + spec_stat_hits(
                *db,
                assign_stat.targets@.take(i as int),
            ).len(),
            forall|j: int| 0 <= j < base.len() ==> #[trigger] diagnostics@[j] == base[j],
            spec_reports(
                diagnostics@.skip(base.len() as int),
                spec_stat_hits(*db, assign_stat.targets@.take(i as int)),
            ),
        decreases n - i,
    {
        proof {
            assert(assign_stat.targets@.take(i + 1).drop_last() =~= assign_stat.targets@.take(
                i as int,
            ));
            assert(assign_stat.targets@.take(i + 1).last() == assign_stat.targets@[i as int]);
        }
        let t = &assign_stat.targets[i];
        let ghost before = diagnostics@;
        if let Some(decl) = t.decl {
            check_and_report_semantic_id(db, diagnostics, t.range, decl);
        }
        let ghost mid = diagnostics@;
        if let Some(pdecl) = t.prefix_decl {
            check_and_report_semantic_id(db, diagnostics, t.prefix_range, pdecl);
        }
        proof {
            let tv = assign_stat.targets@[i as int];
            let prev = spec_stat_hits(*db, assign_stat.targets@.take(i as int));
            let th = spec_target_hits(*db, tv);
            assert(spec_stat_hits(*db, assign_stat.targets@.take(i + 1)) =~= prev + th);
            let cur = diagnostics@;
            assert(cur.len() == base.len() + prev.len() + th.len());
            assert forall|j: int| #![trigger cur.skip(base.len() as int)[j]] 0 <= j < prev.len()
                + th.len() implies {
                let d = cur.skip(base.len() as int)[j];
                d.code == DiagnosticCode::ReadOnly && d.range == (prev + th)[j] && d.severity
                    == DiagnosticSeverity::Warning
            } by {
                assert(cur.skip(base.len() as int)[j] == cur[base.len() + j]);
                if j < prev.len() {
                    assert(cur[base.len() + j] == before[base.len() + j]);
                    assert(before.skip(base.len() as int)[j] == before[base.len() + j]);
                } else if j == prev.len() && th.len() == 2 {
                    assert(cur[base.len() + j] == mid[base.len() + j]);
                    assert(mid.last() == mid[base.len() + j]);
                } else {
                    assert(j == prev.len() + th.len() - 1);
                    assert(cur.last() == cur[base.len() + j]);
                }
            }
        }
        i = i + 1;
    }
    proof {
        assert(assign_stat.targets@.take(n as int) =~= assign_stat.targets@);
    }
    Some(())
}

/// The read-only rule: walk every assignment statement of a file and
/// report each write whose declaration carries the read-only
/// feature.
pub struct ReadOnlyChecker;

impl ReadOnlyChecker {
    pub fn check(
        db: &LuaPropertyIndex,
        diagnostics: &mut Vec<Diagnostic>,
        stats: &Vec<LuaAssignStat>,
    ) -> (r: ())
        ensures
            final(diagnostics)@.len() == old(diagnostics)@.len() + spec_file_hits(
                *db,
                stats@.map_values(|s: LuaAssignStat| s.targets@),
            ).len(),
            forall|j: int|
                0 <= j < old(diagnostics)@.len() ==> #[trigger] final(diagnostics)@[j] == old(
                    diagnostics,
                )@[j],
            spec_reports(
                final(diagnostics)@.skip(old(diagnostics)@.len() as int),
                spec_file_hits(*db, stats@.map_values(|s: LuaAssignStat| s.targets@)),
            ),
    {
        let ghost base = diagnostics@;
        let ghost mapped = stats@.map_values(|s: LuaAssignStat| s.targets@);
        let n = stats.len();
        let mut i: usize = 0;
        while i < n
            invariant
                n == stats@.len(),
                mapped == stats@.map_values(|s: LuaAssignStat| s.targets@),
                0 <= i <= n,
                diagnostics@.len() == base.len() + spec_file_hits(*db, mapped.take(i as int)).len(),
                forall|j: int| 0 <= j < base.len() ==> #[trigger] diagnostics@[j] == base[j],
                spec_reports(
                    diagnostics@.skip(base.len() as int),
                    spec_file_hits(*db, mapped.take(i as int)),
                ),
            decreases n - i,
        {
            proof {
                assert(mapped.take(i + 1).drop_last() =~= mapped.take(i as int));
                assert(mapped.take(i + 1).last() == mapped[i as int]);
                assert(mapped[i as int] == stats@[i as int].targets@);
            }
            let ghost before = diagnostics@;
            check_assign_stat(db, diagnostics, &stats[i]);
            proof {
                let prev = spec_file_hits(*db, mapped.take(i as int));
                let th = spec_stat_hits(*db, mapped[i as int]);
                assert(spec_file_hits(*db, mapped.take(i + 1)) =~= prev + th);
                let cur = diagnostics@;
                assert forall|j: int| #![trigger cur.skip(base.len() as int)[j]] 0 <= j < prev.len()
                    + th.len() implies {
                    let d = cur.skip(base.len() as int)[j];
                    d.code == DiagnosticCode::ReadOnly && d.range == (prev + th)[j] && d.severity
                        == DiagnosticSeverity::Warning
                } by {
                    assert(cur.skip(base.len() as int)[j] == cur[base.len() + j]);
                    if j < prev.len() {
                        assert(cur[base.len() + j] == before[base.len() + j]);
                        assert(before.skip(base.len() as int)[j] == before[base.len() + j]);
                    } else {
                        assert(cur.skip(before.len() as int)[j - prev.len()] == cur[before.len()
                            + (j - prev.len())]);
                    }
                }
            }
            i = i + 1;
        }
        proof {
            assert(mapped.take(n as int) =~= mapped);
        }
    }
}

} // verus!
