use hubdash::triggers::Triggers;

#[test]
fn empty_set_contains_no_trigger() {
    let none = Triggers::empty();
    assert!(!none.contains(Triggers::main()));
    assert!(!none.contains(Triggers::pr()));
    assert!(!none.contains(Triggers::scheduled()));
    assert!(!none.contains(Triggers::manual()));
}

#[test]
fn every_set_contains_the_empty_set() {
    assert!(Triggers::empty().contains(Triggers::empty()));
    assert!(Triggers::main().contains(Triggers::empty()));
}

#[test]
fn single_trigger_contains_itself_only() {
    let all = [Triggers::main(), Triggers::pr(), Triggers::scheduled(), Triggers::manual()];
    for (i, one) in all.iter().enumerate() {
        for (j, other) in all.iter().enumerate() {
            assert_eq!(one.contains(*other), i == j);
        }
    }
}

#[test]
fn union_contains_both_sides() {
    let both = Triggers::main().union(Triggers::scheduled());
    assert!(both.contains(Triggers::main()));
    assert!(both.contains(Triggers::scheduled()));
    assert!(!both.contains(Triggers::pr()));
    assert!(!both.contains(Triggers::manual()));
    assert!(both.contains(both));
    assert!(!Triggers::main().contains(both));
}

#[test]
fn union_does_not_depend_on_order() {
    let one = Triggers::main().union(Triggers::pr()).union(Triggers::manual());
    let other = Triggers::manual().union(Triggers::main()).union(Triggers::pr());
    assert_eq!(one, other);
    assert_eq!(one.union(one), one);
    assert_eq!(one.union(Triggers::empty()), one);
}

#[test]
fn union_of_all_four() {
    let all = Triggers::main()
        .union(Triggers::pr())
        .union(Triggers::scheduled())
        .union(Triggers::manual());
    assert!(all.contains(Triggers::main().union(Triggers::manual())));
    assert!(all.contains(Triggers::pr().union(Triggers::scheduled())));
}
