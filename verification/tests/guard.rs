use awn_core::error::AwnError;
use awn_core::injector::confirm_down;
use awn_core::injector::confirm_up;
use awn_core::injector::press_total;
use awn_core::keyboard::ArrowScanCodes;
use awn_core::keyboard::KeySC;
use awn_core::window::ForegroundGuard;
use awn_core::window::WindowHandle;
use awn_core::window::WindowInner;

fn table() -> ArrowScanCodes {
    ArrowScanCodes { up: 0x48, down: 0x50, left: 0x4b, right: 0x4d }
}

/// Drive one whole press the way the OS driver does, with a fake OS that
/// accepts every submitted event: plan, submit downs, hold, submit ups.
fn press_all_accepted(
    guard: &ForegroundGuard,
    current: WindowHandle,
    keys: &Vec<KeySC>,
    hold_micros: u64,
    num_lock: bool,
) -> Result<u32, AwnError> {
    let plan = guard.plan_press(current, keys, hold_micros, num_lock, table())?;
    let accepted_downs = plan.downs.len() as u32;
    let down = confirm_down(keys, num_lock, accepted_downs)?;
    // the driver would now sleep for plan.hold_micros
    assert_eq!(plan.hold_micros, hold_micros);
    let accepted_ups = plan.ups.len() as u32;
    let up = confirm_up(keys, num_lock, accepted_ups)?;
    Ok(press_total(keys, num_lock, down, up))
}

#[test]
fn lookup_with_nonzero_handle_yields_the_window() {
    let w = WindowInner::new("Notepad".to_string(), 42).unwrap();
    assert_eq!(w.handle(), WindowHandle { raw: 42 });
    assert_eq!(w.title, "Notepad");
}

#[test]
fn lookup_with_null_handle_is_application_not_found() {
    match WindowInner::new("Notepad".to_string(), 0) {
        Err(AwnError::ApplicationNotFound { title }) => assert_eq!(title, "Notepad"),
        other => panic!("unexpected result: {:?}", other),
    }
}

#[test]
fn focus_check_accepts_only_the_target_handle() {
    let guard = ForegroundGuard::new(WindowHandle { raw: 42 });
    assert_eq!(guard.check_focus(WindowHandle { raw: 42 }), Ok(()));
    assert_eq!(
        guard.check_focus(WindowHandle { raw: 7 }),
        Err(AwnError::WindowNotForeground { hwnd: WindowHandle { raw: 42 } })
    );
}

#[test]
fn foreground_request_fails_on_a_false_os_report() {
    let guard = ForegroundGuard::new(WindowHandle { raw: 42 });
    assert_eq!(guard.foreground(true), Ok(()));
    assert_eq!(
        guard.foreground(false),
        Err(AwnError::WindowNotForeground { hwnd: WindowHandle { raw: 42 } })
    );
}

#[test]
fn jitter_delay_stays_in_range() {
    assert_eq!(ForegroundGuard::jitter_delay(0), 1);
    assert_eq!(ForegroundGuard::jitter_delay(99), 100);
    assert_eq!(ForegroundGuard::jitter_delay(100), 1);
    assert_eq!(ForegroundGuard::jitter_delay(250), 51);
    for raw in 0..1000u64 {
        let d = ForegroundGuard::jitter_delay(raw);
        assert!((1..=100).contains(&d));
    }
}

#[test]
fn press_space_on_foregrounded_notepad_returns_two() {
    // The target window "Notepad" is foregrounded and its handle matches.
    let w = WindowInner::new("Notepad".to_string(), 42).unwrap();
    let guard = ForegroundGuard::new(w.handle());
    let keys = vec![KeySC::KC_SPACE];
    let r = press_all_accepted(&guard, w.handle(), &keys, 250, false);
    assert_eq!(r, Ok(2));
}

#[test]
fn press_against_stale_handle_injects_nothing() {
    // The application closed; the foreground query reports another handle.
    let guard = ForegroundGuard::new(WindowHandle { raw: 42 });
    let current = WindowHandle { raw: 77 };
    let plan = guard.plan_press(current, &vec![KeySC::KC_A], 10_000, false, table());
    match plan {
        Err(AwnError::WindowNotForeground { hwnd }) => {
            assert_eq!(hwnd, WindowHandle { raw: 42 });
        }
        Ok(_) => panic!("a press against a stale handle must not produce a plan"),
        other => panic!("unexpected result: {:?}", other),
    }
    let r = press_all_accepted(&guard, current, &vec![KeySC::KC_A], 10_000, false);
    assert_eq!(r, Err(AwnError::WindowNotForeground { hwnd: WindowHandle { raw: 42 } }));
}

#[test]
fn press_up_counts_follow_numlock() {
    let guard = ForegroundGuard::new(WindowHandle { raw: 42 });
    let current = WindowHandle { raw: 42 };
    let keys = vec![KeySC::KC_UP];
    assert_eq!(press_all_accepted(&guard, current, &keys, 0, true), Ok(4));
    assert_eq!(press_all_accepted(&guard, current, &keys, 0, false), Ok(2));
}

#[test]
fn chord_press_counts_every_key() {
    let guard = ForegroundGuard::new(WindowHandle { raw: 42 });
    let current = WindowHandle { raw: 42 };
    let keys = vec![KeySC::KC_UP, KeySC::KC_LEFT, KeySC::KC_A];
    assert_eq!(press_all_accepted(&guard, current, &keys, 100, true), Ok(10));
    assert_eq!(press_all_accepted(&guard, current, &keys, 100, false), Ok(6));
}

#[test]
fn plan_holds_batches_counts_and_hold() {
    let guard = ForegroundGuard::new(WindowHandle { raw: 9 });
    let keys = vec![KeySC::KC_UP, KeySC::KC_A];
    let plan = guard.plan_press(WindowHandle { raw: 9 }, &keys, 777, true, table()).unwrap();
    assert_eq!(plan.expected, 3);
    assert_eq!(plan.downs.len(), 3);
    assert_eq!(plan.ups.len(), 3);
    assert_eq!(plan.hold_micros, 777);
    assert!(plan.downs.iter().all(|e| !e.key_up));
    assert!(plan.ups.iter().all(|e| e.key_up));
}

#[test]
fn os_api_error_keeps_name_and_cause() {
    let e = AwnError::OSApiError { name: "FindWindowW".to_string(), cause: "code 5".to_string() };
    match e {
        AwnError::OSApiError { name, cause } => {
            assert_eq!(name, "FindWindowW");
            assert_eq!(cause, "code 5");
        }
        other => panic!("unexpected value: {:?}", other),
    }
}
