//! Synthesizes keyboard input events for delivery to a target application
//! window: scan-code resolution for a closed set of logical keys, key-down /
//! key-up event batch construction with NumLock-dependent prefix events for
//! arrow keys, verification of OS-accepted event counts, and foreground-focus
//! enforcement that guards every injection against the wrong window.
//!
//! The operating-system calls themselves (event injection, focus queries,
//! virtual-key translation) are performed by an unverified driver outside this
//! library; every decision the protocol makes is a verified function here,
//! taking the OS's answers as plain values.

pub mod error;
pub mod injector;
pub mod keyboard;
pub mod window;
