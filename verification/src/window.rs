//! Window handles and the foreground guard.
//!
//! The guard wraps the target window's handle and gates every press on a
//! fresh comparison with the OS's current foreground handle: focus is racy —
//! any other process can steal it between two calls — so the comparison is
//! made immediately before each injection, never cached, and a mismatch
//! rejects the press before any event batch exists.

use vstd::prelude::*;
use crate::error::AwnError;
use crate::injector::KeyEvent;
use crate::injector::batch_spec;
use crate::injector::build_batch;
use crate::injector::expected_count;
use crate::injector::expected_count_spec;
use crate::injector::press_events_spec;
use crate::keyboard::ArrowScanCodes;
use crate::keyboard::KeySC;

verus! {

/// An opaque OS-level reference to an application window, held as its raw
/// numeric value.
#[derive(Debug, Clone, Copy, PartialEq, Eq, Structural)]
pub struct WindowHandle {
    pub raw: isize,
}

/// A located application window: its handle and the title it was found
/// under. The title lookup itself is an OS call made by the driver; this
/// type only validates and keeps its result.
#[derive(Debug)]
pub struct WindowInner {
    /// Application window handle.
    pub hwnd: WindowHandle,
    /// Window title the handle was looked up by.
    pub title: String,
}

impl WindowInner {
    /// Accept the raw handle a window lookup by title returned: a null
    /// handle means no window with that exact title existed at call time.
    pub fn new(title: String, hwnd_raw: isize) -> (r: Result<WindowInner, AwnError>)
        ensures
            hwnd_raw == 0 ==> r == Err::<WindowInner, AwnError>(
                AwnError::ApplicationNotFound { title },
            ),
            hwnd_raw != 0 ==> (r matches Ok(w) && w.hwnd == (WindowHandle { raw: hwnd_raw })
                && w.title == title),
    {
        if hwnd_raw == 0 {
            Err(AwnError::ApplicationNotFound { title })
        } else {
            Ok(WindowInner { hwnd: WindowHandle { raw: hwnd_raw }, title })
        }
    }

    /// The window's handle.
    pub fn handle(&self) -> (h: WindowHandle)
        ensures
            h == self.hwnd,
    {
        self.hwnd
    }
}

/// Everything the driver must inject for one press that passed the focus
/// check: the key-down batch, the key-up batch to follow the hold, the
/// per-direction count the OS must accept, and the hold duration.
#[derive(Debug)]
pub struct PressPlan {
    /// Key-down events, submitted before the hold.
    pub downs: Vec<KeyEvent>,
    /// Key-up events, submitted after the hold.
    pub ups: Vec<KeyEvent>,
    /// Events the OS must accept per direction.
    pub expected: u32,
    /// How long the keys are held between the two batches, in microseconds.
    pub hold_micros: u64,
}

/// Guards a target window's handle: every press is planned only after the
/// current foreground handle, freshly queried, equals the target.
#[derive(Debug, Clone, Copy, PartialEq, Eq, Structural)]
pub struct ForegroundGuard {
    /// Handle of the window every press must reach.
    pub target: WindowHandle,
}

impl ForegroundGuard {
    /// Guard the given target handle.
    pub fn new(target: WindowHandle) -> (g: ForegroundGuard)
        ensures
            g.target == target,
    {
        ForegroundGuard { target }
    }

    /// The focus check: a press may proceed exactly when the current
    /// foreground handle is the target handle.
    pub open spec fn focus_ok_spec(self, current: WindowHandle) -> bool {
        current == self.target
    }

    /// Verify focus against a freshly queried foreground handle: accept when
    /// it equals the target, reject with `WindowNotForeground` otherwise.
    /// The guard never re-foregrounds on its own.
    pub fn check_focus(&self, current: WindowHandle) -> (r: Result<(), AwnError>)
        ensures
            self.focus_ok_spec(current) ==> r == Ok::<(), AwnError>(()),
            !self.focus_ok_spec(current) ==> r == Err::<(), AwnError>(
                AwnError::WindowNotForeground { hwnd: self.target },
            ),
    {
        if current.raw == self.target.raw {
            Ok(())
        } else {
            Err(AwnError::WindowNotForeground { hwnd: self.target })
        }
    }

    /// Settle an explicit foreground request from the OS's success report:
    /// a false report fails with `WindowNotForeground`. No post-condition on
    /// the OS state is claimed — the next press re-verifies focus on its
    /// own.
    pub fn foreground(&self, os_accepted: bool) -> (r: Result<(), AwnError>)
        ensures
            os_accepted ==> r == Ok::<(), AwnError>(()),
            !os_accepted ==> r == Err::<(), AwnError>(
                AwnError::WindowNotForeground { hwnd: self.target },
            ),
    {
        if os_accepted {
            Ok(())
        } else {
            Err(AwnError::WindowNotForeground { hwnd: self.target })
        }
    }

    /// Map a raw random draw to the pre-press jitter delay in milliseconds:
    /// uniform over 1..=100 when the draw is uniform. The jitter
    /// desynchronizes the automation from fixed-interval detection and from
    /// the target's input-processing cadence.
    pub fn jitter_delay(raw: u64) -> (d: u64)
        ensures
            1 <= d <= 100,
            d == raw % 100 + 1,
    {
        raw % 100 + 1
    }

    /// Plan one press of a chord against a freshly queried foreground
    /// handle. If focus is lost — the foreground handle differs from the
    /// target at this moment — no event batch is produced and the press
    /// fails with `WindowNotForeground`; otherwise the plan holds the down
    /// and up batches, the per-direction count the OS must accept, and the
    /// hold. NumLock state and arrow translations are the driver's fresh
    /// queries, taken at press time.
    pub fn plan_press(
        &self,
        current: WindowHandle,
        keys: &Vec<KeySC>,
        hold_micros: u64,
        num_lock: bool,
        t: ArrowScanCodes,
    ) -> (r: Result<PressPlan, AwnError>)
        requires
            keys@.len() <= 0x3FFF_FFFF,
        ensures
            !self.focus_ok_spec(current) ==> r == Err::<PressPlan, AwnError>(
                AwnError::WindowNotForeground { hwnd: self.target },
            ),
            self.focus_ok_spec(current) ==> (r matches Ok(p) && p.downs@ == batch_spec(
                keys@,
                num_lock,
                t,
                false,
            ) && p.ups@ == batch_spec(keys@, num_lock, t, true) && p.downs@ + p.ups@
                == press_events_spec(keys@, num_lock, t) && p.expected == expected_count_spec(
                keys@,
                num_lock,
            ) && p.hold_micros == hold_micros),
    {
        self.check_focus(current)?;
        let downs = build_batch(keys, num_lock, t, false);
        let ups = build_batch(keys, num_lock, t, true);
        let expected = expected_count(keys, num_lock);
        Ok(PressPlan { downs, ups, expected, hold_micros })
    }
}

} // verus!
