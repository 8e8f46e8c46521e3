use relay_selector::constraints::Constraint;

#[test]
fn any_and_only_are_told_apart() {
    let any: Constraint<u16> = Constraint::Any;
    let only = Constraint::Only(443u16);
    assert!(any.is_any() && !any.is_only());
    assert!(only.is_only() && !only.is_any());
}

#[test]
fn constraint_gives_its_value() {
    let any: Constraint<u16> = Constraint::Any;
    let only = Constraint::Only(443u16);
    assert_eq!(any.unwrap_or(80), 80);
    assert_eq!(only.unwrap_or(80), 443);
    assert_eq!(any.option(), None);
    assert_eq!(only.option(), Some(443));
    assert_eq!(any.as_ref(), Constraint::Any);
    assert_eq!(only.as_ref(), Constraint::Only(&443));
    assert_eq!(only.clone(), only);
}

#[test]
fn an_open_constraint_is_not_a_constraint_on_an_empty_value() {
    let any: Constraint<Vec<u16>> = Constraint::Any;
    let none: Constraint<Vec<u16>> = Constraint::Only(Vec::new());
    assert_ne!(any, none);
}
