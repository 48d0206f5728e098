use lvu::components::union::{
    validate_union_ids, AcceptedUnion, UnionDialog, UnionInputRef, MAX_UNION_DIALOG_INPUTS,
};

fn draft(inputs: &[&str]) -> UnionDialog {
    let mut dialog = UnionDialog::new();
    for id in inputs {
        dialog.add_input((*id).to_owned()).unwrap();
    }
    dialog
}

#[test]
fn union_draft_starts_empty() {
    let dialog = UnionDialog::new();
    assert!(dialog.inputs().is_empty());
    assert_eq!(dialog.name(), "");
    assert_eq!(dialog.error(), None);
    assert_eq!(dialog.pending_generation(), None);
}

#[test]
fn union_inputs_keep_their_order() {
    let mut dialog = draft(&["b", "a"]);
    assert_eq!(dialog.inputs(), &vec!["b".to_owned(), "a".to_owned()]);
    dialog.set_name("both".to_owned());
    assert_eq!(dialog.name(), "both");
}

#[test]
fn union_refuses_identities_that_are_empty_or_too_long() {
    let mut dialog = UnionDialog::new();
    let refusal = Err("view identity must be 1..=256 bytes".to_owned());
    assert_eq!(dialog.add_input(String::new()), refusal);
    assert_eq!(dialog.add_input("x".repeat(257)), refusal);
    assert_eq!(dialog.add_input("\u{e9}".repeat(129)), refusal);
    assert_eq!(dialog.add_input("x".repeat(256)), Ok(()));
}

#[test]
fn union_refuses_a_view_twice() {
    let mut dialog = draft(&["a"]);
    assert_eq!(
        dialog.add_input("a".to_owned()),
        Err("'a' is already an input of this union".to_owned())
    );
    assert_eq!(dialog.inputs().len(), 1);
}

#[test]
fn union_refuses_a_ninth_view() {
    let mut dialog = UnionDialog::new();
    for index in 0..MAX_UNION_DIALOG_INPUTS {
        dialog.add_input(format!("v{index}")).unwrap();
    }
    assert_eq!(
        dialog.add_input("more".to_owned()),
        Err("a union takes at most 8 input views".to_owned())
    );
    assert_eq!(dialog.inputs().len(), 8);
}

#[test]
fn union_removal_undoes_adding() {
    let mut dialog = draft(&["a", "b"]);
    dialog.add_input("c".to_owned()).unwrap();
    assert!(dialog.remove_input("c"));
    assert!(!dialog.remove_input("c"));
    assert_eq!(dialog.inputs(), &vec!["a".to_owned(), "b".to_owned()]);
}

#[test]
fn union_needs_two_views_and_not_itself() {
    let too_few = Err("a union needs at least two input views".to_owned());
    assert_eq!(UnionDialog::new().validate_for_create("u"), too_few);
    assert_eq!(draft(&["a"]).validate_for_create("u"), too_few);
    assert_eq!(draft(&["a", "b"]).validate_for_create("u"), Ok(()));
    assert_eq!(
        draft(&["a", "u"]).validate_for_create("u"),
        Err("a union cannot contain itself ('u')".to_owned())
    );
    assert_eq!(
        validate_union_ids("u", &vec!["a".to_owned(), "b".to_owned(), "a".to_owned()]),
        Err("'a' is listed twice".to_owned())
    );
}

#[test]
fn union_cycle_is_found_through_other_unions() {
    let dialog = draft(&["a", "b"]);
    let graph = |id: &str| match id {
        "b" => Some(vec!["c".to_owned(), "d".to_owned()]),
        "d" => Some(vec!["u".to_owned()]),
        _ => None,
    };
    assert_eq!(
        dialog.validate_no_cycle("u", graph),
        Err("union inputs reach back to 'u'".to_owned())
    );
    assert_eq!(dialog.validate_no_cycle("w", graph), Ok(()));
}

#[test]
fn union_cycle_away_from_the_union_is_no_cycle() {
    let dialog = draft(&["a", "b"]);
    let graph = |id: &str| match id {
        "a" => Some(vec!["b".to_owned()]),
        "b" => Some(vec!["a".to_owned()]),
        _ => None,
    };
    assert_eq!(dialog.validate_no_cycle("u", graph), Ok(()));
}

#[test]
fn union_graph_that_is_too_large_is_refused() {
    let dialog = draft(&["n0", "other"]);
    let graph = |id: &str| {
        let place: usize = id.strip_prefix('n')?.parse().ok()?;
        Some(vec![format!("n{}", place + 1)])
    };
    assert_eq!(
        dialog.validate_no_cycle("u", graph),
        Err("dependency graph exceeds 64 views; refusing the union".to_owned())
    );
}

#[test]
fn union_accepts_with_the_current_revisions() {
    let mut dialog = draft(&["a", "b"]);
    assert!(dialog.mark_pending(7));
    let accepted = dialog
        .accept("u", 3, |id| if id == "a" { Some(10) } else { Some(20) })
        .unwrap();
    assert_eq!(
        accepted,
        AcceptedUnion {
            union_view_id: "u".to_owned(),
            inputs: vec![
                UnionInputRef { view_id: "a".to_owned(), accepted_revision: 10 },
                UnionInputRef { view_id: "b".to_owned(), accepted_revision: 20 },
            ],
            revision: 3,
        }
    );
    assert_eq!(dialog.pending_generation(), None);
    assert!(!UnionDialog::accepted_is_stale(&accepted, |id| {
        if id == "a" { Some(10) } else { Some(20) }
    }));
    assert!(UnionDialog::accepted_is_stale(&accepted, |id| {
        if id == "a" { Some(11) } else { Some(20) }
    }));
    assert!(UnionDialog::accepted_is_stale(&accepted, |id| {
        if id == "a" { Some(10) } else { None }
    }));
}

#[test]
fn union_with_a_missing_view_keeps_its_draft() {
    let mut dialog = draft(&["a", "b"]);
    assert!(dialog.mark_pending(1));
    let refused = dialog.accept("u", 3, |id| if id == "a" { Some(1) } else { None });
    assert_eq!(refused, Err("input view 'b' is unavailable".to_owned()));
    assert_eq!(dialog.error(), Some("input view 'b' is unavailable"));
    assert_eq!(dialog.inputs().len(), 2);
    assert_eq!(dialog.pending_generation(), Some(1));
}

#[test]
fn union_rejection_keeps_the_draft() {
    let mut dialog = draft(&["a", "b"]);
    assert!(dialog.mark_pending(4));
    dialog.reject_candidate("no".to_owned());
    assert_eq!(dialog.error(), Some("no"));
    assert_eq!(dialog.pending_generation(), None);
    assert_eq!(dialog.inputs().len(), 2);
    dialog.add_input("c".to_owned()).unwrap();
    assert_eq!(dialog.error(), None);
}

#[test]
fn union_is_submitted_once() {
    let mut dialog = draft(&["a", "b"]);
    assert!(dialog.mark_pending(4));
    assert!(!dialog.mark_pending(5));
    assert_eq!(dialog.pending_generation(), Some(4));
}

#[test]
fn union_cycle_is_found_behind_many_inputs() {
    let dialog = draft(&["a"]);
    let graph = |id: &str| {
        let mut inputs: Vec<String> = (0..9).map(|place| format!("x{place}")).collect();
        inputs.push("u".to_owned());
        (id == "a").then_some(inputs)
    };
    assert_eq!(
        dialog.validate_no_cycle("u", graph),
        Err("union inputs reach back to 'u'".to_owned())
    );
    assert_eq!(dialog.validate_no_cycle("w", graph), Ok(()));
}

#[test]
fn union_with_a_fault_is_refused_before_any_lookup() {
    let asked = std::cell::Cell::new(0);
    let mut dialog = draft(&["a"]);
    assert!(dialog.mark_pending(5));
    let refused = dialog.accept("u", 1, |_| {
        asked.set(asked.get() + 1);
        Some(1)
    });
    assert_eq!(refused, Err("a union needs at least two input views".to_owned()));
    assert_eq!(asked.get(), 0);
    assert_eq!(dialog.error(), None);
    assert_eq!(dialog.pending_generation(), Some(5));
}

#[test]
fn union_is_fenced_on_what_a_changing_lookup_said() {
    let asked = std::cell::Cell::new(0);
    let lookup = |_: &str| {
        asked.set(asked.get() + 1);
        Some(asked.get())
    };
    let accepted = draft(&["a", "b"]).accept("u", 1, lookup).unwrap();
    assert_eq!(asked.get(), 2);
    let fences: Vec<u64> = accepted.inputs.iter().map(|input| input.accepted_revision).collect();
    assert_eq!(fences, vec![1, 2]);
}

#[test]
fn union_values_are_cloned_whole() {
    let mut dialog = draft(&["a", "b"]);
    dialog.set_name("both".to_owned());
    let copy = dialog.clone();
    assert_eq!(copy.inputs(), dialog.inputs());
    assert_eq!(copy.name(), "both");
    let accepted = dialog.accept("u", 3, |_| Some(1)).unwrap();
    assert_eq!(accepted.clone(), accepted);
    assert_eq!(accepted.inputs[0].clone(), accepted.inputs[0]);
}

#[test]
fn union_graph_of_as_many_views_as_are_visited_passes() {
    let chain = |last: usize| {
        move |id: &str| {
            let place: usize = id[1..].parse().unwrap();
            let next = if place == 0 { 2 } else { place + 1 };
            if next <= last { Some(vec![format!("v{next}")]) } else { None }
        }
    };
    let dialog = draft(&["v0", "v1"]);
    assert_eq!(dialog.validate_no_cycle("u", chain(63)), Ok(()));
    assert!(dialog.validate_no_cycle("u", chain(64)).is_err());
}
