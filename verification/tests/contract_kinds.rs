use hoare::contract::Contract;

#[test]
fn kind_strings() {
    assert_eq!(Contract::Precond.short_str(), "precond");
    assert_eq!(Contract::Postcond.short_str(), "postcond");
    assert_eq!(Contract::Invariant.short_str(), "invariant");
    assert_eq!(Contract::Precond.long_str(), "Precondition");
    assert_eq!(Contract::Postcond.long_str(), "Postcondition");
    assert_eq!(Contract::Invariant.long_str(), "Invariant");
}

#[test]
fn kind_flags() {
    assert!(Contract::Precond.has_precond());
    assert!(!Contract::Precond.has_postcond());
    assert!(!Contract::Precond.checks_return());
    assert!(!Contract::Postcond.has_precond());
    assert!(Contract::Postcond.has_postcond());
    assert!(Contract::Postcond.checks_return());
    assert!(Contract::Invariant.has_precond());
    assert!(Contract::Invariant.has_postcond());
}

#[test]
fn kind_labels() {
    assert_eq!(Contract::Precond.pre_str(), "Precondition");
    assert_eq!(Contract::Invariant.pre_str(), "Invariant entering");
    assert_eq!(Contract::Postcond.post_str(), "Postcondition");
    assert_eq!(Contract::Invariant.post_str(), "Invariant leaving");
}
