use guard::resource::CleanupTicket;
use guard::resource::Resource;

// Duplicating a ticket copies its arming; disarming the duplicate leaves
// exactly one armed copy, the original.
#[test]
fn duplicate_then_disarm() {
    let original = CleanupTicket::new(true);
    let mut duplicate = original.clone_state();
    assert!(duplicate.is_armed());

    duplicate.set_cleanup_enabled(false);
    assert!(original.is_armed());
    assert!(!duplicate.is_armed());
}

#[test]
fn arming_a_ticket() {
    let mut ticket = CleanupTicket::new(false);
    assert!(!ticket.is_armed());
    ticket.set_cleanup_enabled(true);
    assert!(ticket.is_armed());
    ticket.set_cleanup_enabled(false);
    assert!(!ticket.is_armed());
}

// A composite of 3 members: duplicate then disarm the duplicate, and all 3
// members individually report disarmed; arming the original leaves all 3 of
// its members armed.
#[test]
fn composite_of_three_members() {
    let mut original = (
        CleanupTicket::new(true),
        CleanupTicket::new(true),
        CleanupTicket::new(true),
    );
    let mut duplicate = original.clone_state();
    duplicate.set_cleanup_enabled(false);

    assert!(!duplicate.0.is_armed());
    assert!(!duplicate.1.is_armed());
    assert!(!duplicate.2.is_armed());

    original.set_cleanup_enabled(true);
    assert!(original.0.is_armed());
    assert!(original.1.is_armed());
    assert!(original.2.is_armed());
}

// Forwarding reaches every member of the other composite arities as well.
#[test]
fn composite_other_arities() {
    let mut single = (CleanupTicket::new(true),);
    single.set_cleanup_enabled(false);
    assert!(!single.0.is_armed());

    let pair = (CleanupTicket::new(true), CleanupTicket::new(false));
    let mut pair_copy = pair.clone_state();
    assert!(pair_copy.0.is_armed());
    assert!(!pair_copy.1.is_armed());
    pair_copy.set_cleanup_enabled(false);
    assert!(!pair_copy.0.is_armed());
    assert!(!pair_copy.1.is_armed());

    let mut four = (
        CleanupTicket::new(true),
        CleanupTicket::new(true),
        CleanupTicket::new(true),
        CleanupTicket::new(true),
    );
    four.set_cleanup_enabled(false);
    assert!(!four.0.is_armed());
    assert!(!four.1.is_armed());
    assert!(!four.2.is_armed());
    assert!(!four.3.is_armed());
}

// The capability forwards through the widest composite as well.
#[test]
fn composite_of_twelve_members() {
    let mut twelve = (
        CleanupTicket::new(true),
        CleanupTicket::new(true),
        CleanupTicket::new(true),
        CleanupTicket::new(true),
        CleanupTicket::new(true),
        CleanupTicket::new(true),
        CleanupTicket::new(true),
        CleanupTicket::new(true),
        CleanupTicket::new(true),
        CleanupTicket::new(true),
        CleanupTicket::new(true),
        CleanupTicket::new(true),
    );
    let duplicate = twelve.clone_state();
    assert!(duplicate.0.is_armed());
    assert!(duplicate.11.is_armed());

    twelve.set_cleanup_enabled(false);
    assert!(!twelve.0.is_armed());
    assert!(!twelve.5.is_armed());
    assert!(!twelve.11.is_armed());

    twelve.set_cleanup_enabled(true);
    assert!(twelve.0.is_armed());
    assert!(twelve.5.is_armed());
    assert!(twelve.11.is_armed());
}

// A composite with a member that has nothing to arm: arming reaches the
// armable members and leaves the empty one unarmed.
#[test]
fn composite_with_empty_member() {
    let mut pair = (CleanupTicket::new(false), ());
    pair.set_cleanup_enabled(true);
    assert!(pair.0.is_armed());
    pair.set_cleanup_enabled(false);
    assert!(!pair.0.is_armed());
}

// The empty composite is a no-op capability holder.
#[test]
fn empty_composite_is_noop() {
    let unit: () = ();
    let mut copy = unit.clone_state();
    copy.set_cleanup_enabled(true);
    copy.set_cleanup_enabled(false);
}
