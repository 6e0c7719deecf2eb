use awn_core::error::AwnError;
use awn_core::injector::build_batch;
use awn_core::injector::confirm_down;
use awn_core::injector::confirm_up;
use awn_core::injector::events_per_key;
use awn_core::injector::expected_count;
use awn_core::injector::key_events;
use awn_core::injector::press_total;
use awn_core::injector::PREFIX_SCAN;
use awn_core::keyboard::ArrowScanCodes;
use awn_core::keyboard::KeySC;

fn table() -> ArrowScanCodes {
    ArrowScanCodes { up: 0x48, down: 0x50, left: 0x4b, right: 0x4d }
}

#[test]
fn direct_key_press_emits_one_down_and_one_up() {
    let t = table();
    for num_lock in [false, true] {
        let downs = KeySC::KC_A.keydown(num_lock, t);
        let ups = KeySC::KC_A.keyup(num_lock, t);
        assert_eq!(downs.len(), 1);
        assert_eq!(ups.len(), 1);
        assert_eq!(downs[0].scan_code, 0x1e);
        assert!(downs[0].scan_mode);
        assert!(!downs[0].extended);
        assert!(!downs[0].key_up);
        assert_eq!(ups[0].scan_code, 0x1e);
        assert!(ups[0].key_up);
    }
}

#[test]
fn arrow_key_with_numlock_gets_a_prefix_event() {
    let t = table();
    let downs = KeySC::KC_UP.keydown(true, t);
    assert_eq!(downs.len(), 2);
    assert_eq!(downs[0].scan_code, PREFIX_SCAN);
    assert!(downs[0].scan_mode);
    assert!(!downs[0].extended);
    assert!(!downs[0].key_up);
    assert_eq!(downs[1].scan_code, 0x48);
    assert!(downs[1].extended);
    assert!(!downs[1].key_up);

    let ups = KeySC::KC_UP.keyup(true, t);
    assert_eq!(ups.len(), 2);
    assert_eq!(ups[0].scan_code, PREFIX_SCAN);
    assert!(ups[0].key_up);
    assert_eq!(ups[1].scan_code, 0x48);
    assert!(ups[1].extended);
    assert!(ups[1].key_up);
}

#[test]
fn arrow_key_without_numlock_gets_no_prefix_event() {
    let t = table();
    let downs = KeySC::KC_UP.keydown(false, t);
    assert_eq!(downs.len(), 1);
    assert_eq!(downs[0].scan_code, 0x48);
    assert!(downs[0].extended);
    let ups = KeySC::KC_UP.keyup(false, t);
    assert_eq!(ups.len(), 1);
    assert!(ups[0].key_up);
}

#[test]
fn key_events_matches_keydown_and_keyup() {
    let t = table();
    assert_eq!(key_events(KeySC::KC_LEFT, true, t, false), KeySC::KC_LEFT.keydown(true, t));
    assert_eq!(key_events(KeySC::KC_LEFT, true, t, true), KeySC::KC_LEFT.keyup(true, t));
}

#[test]
fn chord_batches_keep_key_order_and_direction() {
    let t = table();
    let keys = vec![KeySC::KC_UP, KeySC::KC_A];
    let downs = build_batch(&keys, true, t, false);
    let ups = build_batch(&keys, true, t, true);
    assert_eq!(downs.len(), 3);
    assert_eq!(ups.len(), 3);
    let down_scans: Vec<u16> = downs.iter().map(|e| e.scan_code).collect();
    assert_eq!(down_scans, vec![PREFIX_SCAN, 0x48, 0x1e]);
    assert!(downs.iter().all(|e| !e.key_up));
    assert!(ups.iter().all(|e| e.key_up));
    let up_scans: Vec<u16> = ups.iter().map(|e| e.scan_code).collect();
    assert_eq!(up_scans, vec![PREFIX_SCAN, 0x48, 0x1e]);
}

#[test]
fn empty_chord_builds_empty_batches() {
    let t = table();
    let keys: Vec<KeySC> = Vec::new();
    assert_eq!(build_batch(&keys, true, t, false).len(), 0);
    assert_eq!(expected_count(&keys, true), 0);
    assert_eq!(confirm_down(&keys, true, 0), Ok(0));
    assert_eq!(confirm_up(&keys, true, 0), Ok(0));
    assert_eq!(press_total(&keys, true, 0, 0), 0);
}

#[test]
fn expected_counts_sum_per_key_shares() {
    assert_eq!(events_per_key(KeySC::KC_A, true), 1);
    assert_eq!(events_per_key(KeySC::KC_UP, false), 1);
    assert_eq!(events_per_key(KeySC::KC_UP, true), 2);
    let chord = vec![KeySC::KC_UP, KeySC::KC_LEFT, KeySC::KC_A];
    assert_eq!(expected_count(&chord, true), 5);
    assert_eq!(expected_count(&chord, false), 3);
}

#[test]
fn confirm_down_accepts_the_exact_expected_count() {
    let keys = vec![KeySC::KC_UP, KeySC::KC_A];
    assert_eq!(confirm_down(&keys, true, 3), Ok(3));
    assert_eq!(confirm_down(&keys, false, 2), Ok(2));
}

#[test]
fn confirm_down_names_the_first_unmet_key() {
    let keys = vec![KeySC::KC_UP, KeySC::KC_A];
    // NumLock active: KC_UP owes two events, KC_A one.
    match confirm_down(&keys, true, 0) {
        Err(AwnError::KeyDownSendFailed { key: KeySC::KC_UP }) => {}
        other => panic!("unexpected result: {:?}", other),
    }
    match confirm_down(&keys, true, 1) {
        Err(AwnError::KeyDownSendFailed { key: KeySC::KC_UP }) => {}
        other => panic!("unexpected result: {:?}", other),
    }
    match confirm_down(&keys, true, 2) {
        Err(AwnError::KeyDownSendFailed { key: KeySC::KC_A }) => {}
        other => panic!("unexpected result: {:?}", other),
    }
}

#[test]
fn confirm_up_names_the_first_unmet_key() {
    let keys = vec![KeySC::KC_UP, KeySC::KC_A];
    match confirm_up(&keys, true, 2) {
        Err(AwnError::KeyUpSendFailed { key: KeySC::KC_A }) => {}
        other => panic!("unexpected result: {:?}", other),
    }
    assert_eq!(confirm_up(&keys, true, 3), Ok(3));
}

#[test]
fn press_total_is_twice_one_direction() {
    let keys = vec![KeySC::KC_UP, KeySC::KC_A];
    assert_eq!(press_total(&keys, true, 3, 3), 6);
    assert_eq!(press_total(&keys, false, 2, 2), 4);
}
