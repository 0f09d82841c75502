use lua_semantics::guard::InferGuard;
use lua_semantics::types::{InferFailReason, LuaTypeDeclId};

fn id(name: &str) -> LuaTypeDeclId {
    LuaTypeDeclId::new(name.to_string())
}

#[test]
fn check_blocks_reentry() {
    let mut guard = InferGuard::new();
    assert!(guard.check(&id("A")).is_ok());
    assert!(matches!(guard.check(&id("A")), Err(InferFailReason::RecursiveInfer)));
    assert!(guard.check(&id("B")).is_ok());
    assert!(matches!(guard.check(&id("B")), Err(InferFailReason::RecursiveInfer)));
}

#[test]
fn recursive_graph_walk_terminates() {
    // a two-node cycle: A refers to B, B refers back to A; walking
    // with one guard visits each id once and stops on the cycle
    let edges = [("A", "B"), ("B", "A")];
    let mut guard = InferGuard::new();
    let mut visited = 0usize;
    let mut pending = vec!["A".to_string()];
    while let Some(name) = pending.pop() {
        match guard.check(&id(&name)) {
            Ok(()) => {
                visited += 1;
                for (from, to) in edges.iter() {
                    if *from == name {
                        pending.push(to.to_string());
                    }
                }
            }
            Err(InferFailReason::RecursiveInfer) => {}
            Err(_) => panic!("unexpected failure"),
        }
        assert!(visited <= 2);
    }
    assert_eq!(visited, 2);
}

#[test]
fn fork_sees_ancestor_visits() {
    let mut g1 = InferGuard::new();
    g1.check(&id("T")).unwrap();
    let mut g2 = g1.fork();
    // the fork still fails on the ancestor's id
    assert!(matches!(g2.check(&id("T")), Err(InferFailReason::RecursiveInfer)));
    // an unrelated fresh guard succeeds on the same id
    let mut fresh = InferGuard::new();
    assert!(fresh.check(&id("T")).is_ok());
}

#[test]
fn fork_isolates_sibling_branches() {
    let mut root = InferGuard::new();
    root.check(&id("Root")).unwrap();
    let mut left = root.fork();
    let mut right = root.fork();
    // what one branch visits does not poison its sibling
    assert!(left.check(&id("M")).is_ok());
    assert!(right.check(&id("M")).is_ok());
    // while the genuine ancestor cycle is caught in both
    assert!(left.check(&id("Root")).is_err());
    assert!(right.check(&id("Root")).is_err());
}

#[test]
fn fork_owned_shares_only_ancestors() {
    let mut root = InferGuard::new();
    root.check(&id("P")).unwrap();
    let mut child = root.fork();
    child.check(&id("C")).unwrap();
    // fork_owned re-runs from the child's starting point: the
    // ancestors stay visible, the child's own frame does not
    let mut redo = child.fork_owned();
    assert!(redo.check(&id("C")).is_ok());
    assert!(redo.check(&id("P")).is_err());
}

#[test]
fn depth_helpers_count_frames() {
    let mut root = InferGuard::new();
    assert_eq!(root.level(), 0);
    assert_eq!(root.current_depth(), 0);
    assert_eq!(root.total_depth(), 0);
    root.check(&id("A")).unwrap();
    root.check(&id("B")).unwrap();
    assert_eq!(root.current_depth(), 2);
    assert_eq!(root.total_depth(), 2);
    let mut child = root.fork();
    assert_eq!(child.level(), 1);
    assert_eq!(child.current_depth(), 0);
    assert_eq!(child.total_depth(), 2);
    child.check(&id("C")).unwrap();
    assert_eq!(child.total_depth(), 3);
    assert!(child.contains(&id("A")));
    assert!(child.contains(&id("C")));
    assert!(!child.contains(&id("D")));
}
