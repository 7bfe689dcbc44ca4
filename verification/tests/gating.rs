//! Collision-gating set semantics.

use portal_core::gating::PortalContacts;
use portal_core::orientation::PortalOrientation;

const RELAXED_WALL: u32 = 8 | 2 | 4 | 32;
const RELAXED_FLOOR: u32 = 8 | 2 | 4 | 1;
const FULL: u32 = 0xffff_ffff;

#[test]
fn filter_relaxes_on_first_contact() {
    let mut contacts = PortalContacts::new();
    assert!(!contacts.tracks(7));
    let filter = contacts.on_contact_started(7, PortalOrientation::Other);
    assert_eq!(filter, RELAXED_WALL);
    assert!(contacts.tracks(7));
}

#[test]
fn horizontal_portals_relax_the_ground_group() {
    let mut contacts = PortalContacts::new();
    let filter = contacts.on_contact_started(3, PortalOrientation::Horizontal);
    assert_eq!(filter, RELAXED_FLOOR);
}

#[test]
fn filter_restores_only_after_both_entities_leave() {
    let mut contacts = PortalContacts::new();
    contacts.on_contact_started(1, PortalOrientation::Other);
    contacts.on_contact_started(2, PortalOrientation::Other);
    // The first entity leaves: the second still overlaps, so the filter
    // stays relaxed.
    assert_eq!(contacts.on_contact_stopped(1), None);
    assert!(contacts.tracks(2));
    assert!(!contacts.tracks(1));
    // The second leaves too: only now is the full filter restored.
    assert_eq!(contacts.on_contact_stopped(2), Some(FULL));
    assert!(!contacts.tracks(2));
}

#[test]
fn repeated_start_events_do_not_double_track() {
    let mut contacts = PortalContacts::new();
    contacts.on_contact_started(9, PortalOrientation::Other);
    contacts.on_contact_started(9, PortalOrientation::Other);
    // One stop suffices to restore.
    assert_eq!(contacts.on_contact_stopped(9), Some(FULL));
}

#[test]
fn stopping_an_untracked_entity_reports_current_state() {
    let mut contacts = PortalContacts::new();
    contacts.on_contact_started(5, PortalOrientation::Other);
    assert_eq!(contacts.on_contact_stopped(42), None);
    assert_eq!(contacts.on_contact_stopped(5), Some(FULL));
}
