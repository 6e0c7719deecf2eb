//! The input injector: builds the synthetic key-down / key-up event batches
//! for one press operation and verifies the event counts the OS reports back.
//!
//! A press is a chord: one key-down event per key in order, a blocking hold,
//! then one key-up event per key in order. When NumLock is active, each arrow
//! key's event is preceded by an extra event carrying the prefix scan code,
//! because the scan-code injection path needs an explicit two-byte sequence
//! announcement while NumLock remaps the numeric pad. The OS reports how many
//! events of a submitted batch it queued; any shortfall is a terminal failure
//! naming the first key whose events were not all accepted.

use vstd::pervasive::arbitrary;
use vstd::prelude::*;
use crate::error::AwnError;
use crate::keyboard::ArrowScanCodes;
use crate::keyboard::KeySC;
use crate::keyboard::ScanCodeTable;

verus! {

/// Scan code of the prefix event that announces a two-byte scan-code
/// sequence.
pub const PREFIX_SCAN: u16 = 0xe0;

/// One synthetic keyboard event: scan-code value plus the flags the
/// injection call needs. The driver turns each into an OS keyboard-input
/// record with type keyboard, timestamp zero and no extra payload.
#[derive(Debug, Clone, Copy, PartialEq, Eq, Structural)]
pub struct KeyEvent {
    /// Hardware scan code carried by the event.
    pub scan_code: u16,
    /// Scan-code-mode flag; set on every event this library builds.
    pub scan_mode: bool,
    /// Extended-key flag.
    pub extended: bool,
    /// Key-up flag; unset for key-down events.
    pub key_up: bool,
}

/// The prefix event announcing a two-byte sequence: prefix scan code,
/// scan-code mode, not extended, key-up as the surrounding direction.
pub open spec fn prefix_event_spec(key_up: bool) -> KeyEvent {
    KeyEvent { scan_code: PREFIX_SCAN, scan_mode: true, extended: false, key_up }
}

/// The event for one key in one direction, with scan code and extended flag
/// as the scan-code table resolves them.
pub open spec fn key_event_spec(key: KeySC, t: ArrowScanCodes, key_up: bool) -> KeyEvent {
    KeyEvent {
        scan_code: ScanCodeTable::resolve_spec(key, t).0,
        scan_mode: true,
        extended: ScanCodeTable::resolve_spec(key, t).1,
        key_up,
    }
}

/// The events one key contributes in one direction: the key's own event,
/// preceded by a prefix event when the key is an arrow and NumLock is
/// active.
pub open spec fn key_events_spec(key: KeySC, num_lock: bool, t: ArrowScanCodes, key_up: bool) -> Seq<
    KeyEvent,
> {
    if key.is_arrow_spec() && num_lock {
        seq![prefix_event_spec(key_up), key_event_spec(key, t, key_up)]
    } else {
        seq![key_event_spec(key, t, key_up)]
    }
}

/// How many events one key contributes in one direction: two for an arrow
/// key under active NumLock, otherwise one.
pub open spec fn events_per_key_spec(key: KeySC, num_lock: bool) -> nat {
    if key.is_arrow_spec() && num_lock {
        2
    } else {
        1
    }
}

/// The whole batch for one direction: each key's events, in key order.
pub open spec fn batch_spec(keys: Seq<KeySC>, num_lock: bool, t: ArrowScanCodes, key_up: bool) -> Seq<
    KeyEvent,
>
    decreases keys.len(),
{
    if keys.len() == 0 {
        Seq::empty()
    } else {
        key_events_spec(keys[0], num_lock, t, key_up) + batch_spec(
            keys.drop_first(),
            num_lock,
            t,
            key_up,
        )
    }
}

/// How many events the OS must accept for one direction of the chord.
pub open spec fn expected_count_spec(keys: Seq<KeySC>, num_lock: bool) -> nat
    decreases keys.len(),
{
    if keys.len() == 0 {
        0
    } else {
        events_per_key_spec(keys[0], num_lock) + expected_count_spec(keys.drop_first(), num_lock)
    }
}

/// The first key in order whose events were not all accepted, given how many
/// events of the batch the OS accepted.
pub open spec fn first_unmet_key_spec(keys: Seq<KeySC>, num_lock: bool, accepted: nat) -> KeySC
    decreases keys.len(),
{
    if keys.len() == 0 {
        arbitrary()
    } else if accepted < events_per_key_spec(keys[0], num_lock) {
        keys[0]
    } else {
        first_unmet_key_spec(
            keys.drop_first(),
            num_lock,
            (accepted - events_per_key_spec(keys[0], num_lock)) as nat,
        )
    }
}

/// Everything one press emits, in order: the key-down batch, then (after the
/// hold) the key-up batch.
pub open spec fn press_events_spec(keys: Seq<KeySC>, num_lock: bool, t: ArrowScanCodes) -> Seq<
    KeyEvent,
> {
    batch_spec(keys, num_lock, t, false) + batch_spec(keys, num_lock, t, true)
}

/// Appending a key to a chord appends exactly that key's events to the
/// batch.
pub proof fn lemma_batch_snoc(
    keys: Seq<KeySC>,
    key: KeySC,
    num_lock: bool,
    t: ArrowScanCodes,
    key_up: bool,
)
    ensures
        batch_spec(keys.push(key), num_lock, t, key_up) == batch_spec(keys, num_lock, t, key_up)
            + key_events_spec(key, num_lock, t, key_up),
    decreases keys.len(),
{
    if keys.len() == 0 {
        assert(keys.push(key)[0] == key);
        assert(keys.push(key).drop_first() =~= keys);
        assert(batch_spec(keys, num_lock, t, key_up) =~= Seq::<KeyEvent>::empty());
        assert(batch_spec(keys.push(key), num_lock, t, key_up) =~= batch_spec(
            keys,
            num_lock,
            t,
            key_up,
        ) + key_events_spec(key, num_lock, t, key_up));
    } else {
        assert(keys.push(key)[0] == keys[0]);
        assert(keys.push(key).drop_first() =~= keys.drop_first().push(key));
        lemma_batch_snoc(keys.drop_first(), key, num_lock, t, key_up);
        assert(batch_spec(keys.push(key), num_lock, t, key_up) =~= batch_spec(
            keys,
            num_lock,
            t,
            key_up,
        ) + key_events_spec(key, num_lock, t, key_up));
    }
}

/// Appending a key to a chord raises the expected count by exactly that
/// key's share.
pub proof fn lemma_expected_count_snoc(keys: Seq<KeySC>, key: KeySC, num_lock: bool)
    ensures
        expected_count_spec(keys.push(key), num_lock) == expected_count_spec(keys, num_lock)
            + events_per_key_spec(key, num_lock),
    decreases keys.len(),
{
    if keys.len() == 0 {
        assert(keys.push(key)[0] == key);
        assert(keys.push(key).drop_first() =~= keys);
    } else {
        assert(keys.push(key)[0] == keys[0]);
        assert(keys.push(key).drop_first() =~= keys.drop_first().push(key));
        lemma_expected_count_snoc(keys.drop_first(), key, num_lock);
    }
}

/// The batch for one direction holds exactly the expected number of events.
pub proof fn lemma_batch_len(keys: Seq<KeySC>, num_lock: bool, t: ArrowScanCodes, key_up: bool)
    ensures
        batch_spec(keys, num_lock, t, key_up).len() == expected_count_spec(keys, num_lock),
    decreases keys.len(),
{
    if keys.len() != 0 {
        lemma_batch_len(keys.drop_first(), num_lock, t, key_up);
    }
}

/// Every event of a direction's batch carries that direction's key-up flag:
/// a down batch holds only down events, an up batch only up events.
pub proof fn lemma_batch_key_up(keys: Seq<KeySC>, num_lock: bool, t: ArrowScanCodes, key_up: bool)
    ensures
        forall|i: int|
            0 <= i < batch_spec(keys, num_lock, t, key_up).len() ==> batch_spec(
                keys,
                num_lock,
                t,
                key_up,
            )[i].key_up == key_up,
    decreases keys.len(),
{
    if keys.len() != 0 {
        lemma_batch_key_up(keys.drop_first(), num_lock, t, key_up);
        let head = key_events_spec(keys[0], num_lock, t, key_up);
        let rest = batch_spec(keys.drop_first(), num_lock, t, key_up);
        assert(batch_spec(keys, num_lock, t, key_up) == head + rest);
        assert forall|i: int|
            0 <= i < batch_spec(keys, num_lock, t, key_up).len() implies batch_spec(
            keys,
            num_lock,
            t,
            key_up,
        )[i].key_up == key_up by {
            if i < head.len() {
                assert((head + rest)[i] == head[i]);
            } else {
                assert((head + rest)[i] == rest[i - head.len()]);
            }
        }
    }
}

/// The expected count never exceeds two events per key.
pub proof fn lemma_expected_count_bound(keys: Seq<KeySC>, num_lock: bool)
    ensures
        expected_count_spec(keys, num_lock) <= 2 * keys.len(),
    decreases keys.len(),
{
    if keys.len() != 0 {
        lemma_expected_count_bound(keys.drop_first(), num_lock);
    }
}

impl KeySC {
    /// The key-down events this key contributes to a press: its down event,
    /// preceded by a prefix down event when the key is an arrow and NumLock
    /// is active. The driver submits the events; it does not reorder them.
    pub fn keydown(self, num_lock: bool, t: ArrowScanCodes) -> (evs: Vec<KeyEvent>)
        ensures
            evs@ == key_events_spec(self, num_lock, t, false),
    {
        key_events(self, num_lock, t, false)
    }

    /// The key-up events this key contributes to a press, under the same
    /// prefix rule as key-down.
    pub fn keyup(self, num_lock: bool, t: ArrowScanCodes) -> (evs: Vec<KeyEvent>)
        ensures
            evs@ == key_events_spec(self, num_lock, t, true),
    {
        key_events(self, num_lock, t, true)
    }
}

/// The events one key contributes in one direction.
pub fn key_events(key: KeySC, num_lock: bool, t: ArrowScanCodes, key_up: bool) -> (evs: Vec<
    KeyEvent,
>)
    ensures
        evs@ == key_events_spec(key, num_lock, t, key_up),
{
    let resolved = ScanCodeTable::resolve(key, t);
    let mut evs: Vec<KeyEvent> = Vec::new();
    if key.is_arrow() && num_lock {
        evs.push(KeyEvent { scan_code: PREFIX_SCAN, scan_mode: true, extended: false, key_up });
    }
    evs.push(KeyEvent { scan_code: resolved.0, scan_mode: true, extended: resolved.1, key_up });
    proof {
        assert(evs@ =~= key_events_spec(key, num_lock, t, key_up));
    }
    evs
}

/// Build the whole batch for one direction of a chord: each key's events, in
/// key order.
pub fn build_batch(keys: &Vec<KeySC>, num_lock: bool, t: ArrowScanCodes, key_up: bool) -> (batch:
    Vec<KeyEvent>)
    ensures
        batch@ == batch_spec(keys@, num_lock, t, key_up),
{
    let mut batch: Vec<KeyEvent> = Vec::new();
    let mut i: usize = 0;
    while i < keys.len()
        invariant
            i <= keys@.len(),
            batch@ == batch_spec(keys@.take(i as int), num_lock, t, key_up),
        decreases keys@.len() - i,
    {
        let mut evs = key_events(keys[i], num_lock, t, key_up);
        proof {
            lemma_batch_snoc(keys@.take(i as int), keys@[i as int], num_lock, t, key_up);
            assert(keys@.take(i as int).push(keys@[i as int]) =~= keys@.take(i as int + 1));
        }
        batch.append(&mut evs);
        i = i + 1;
    }
    proof {
        assert(keys@.take(keys@.len() as int) =~= keys@);
    }
    batch
}

/// How many events one key contributes in one direction.
pub fn events_per_key(key: KeySC, num_lock: bool) -> (n: u32)
    ensures
        n == events_per_key_spec(key, num_lock),
{
    if key.is_arrow() && num_lock {
        2
    } else {
        1
    }
}

/// How many events the OS must accept for one direction of the chord.
pub fn expected_count(keys: &Vec<KeySC>, num_lock: bool) -> (n: u32)
    requires
        keys@.len() <= 0x3FFF_FFFF,
    ensures
        n == expected_count_spec(keys@, num_lock),
        n <= 2 * keys@.len(),
{
    let mut n: u32 = 0;
    let mut i: usize = 0;
    while i < keys.len()
        invariant
            i <= keys@.len(),
            keys@.len() <= 0x3FFF_FFFF,
            n == expected_count_spec(keys@.take(i as int), num_lock),
            n <= 2 * i,
        decreases keys@.len() - i,
    {
        let e = events_per_key(keys[i], num_lock);
        proof {
            lemma_expected_count_snoc(keys@.take(i as int), keys@[i as int], num_lock);
            assert(keys@.take(i as int).push(keys@[i as int]) =~= keys@.take(i as int + 1));
        }
        n = n + e;
        i = i + 1;
    }
    proof {
        assert(keys@.take(keys@.len() as int) =~= keys@);
    }
    n
}

/// The first key in order whose events were not all accepted.
pub fn first_unmet_key(keys: &Vec<KeySC>, num_lock: bool, accepted: u32) -> (key: KeySC)
    requires
        keys@.len() <= 0x3FFF_FFFF,
        accepted < expected_count_spec(keys@, num_lock),
    ensures
        key == first_unmet_key_spec(keys@, num_lock, accepted as nat),
{
    proof {
        assert(keys@.skip(0) =~= keys@);
    }
    let mut i: usize = 0;
    let mut rem: u32 = accepted;
    loop
        invariant
            i <= keys@.len(),
            keys@.len() <= 0x3FFF_FFFF,
            rem <= accepted,
            rem < expected_count_spec(keys@.skip(i as int), num_lock),
            first_unmet_key_spec(keys@.skip(i as int), num_lock, rem as nat)
                == first_unmet_key_spec(keys@, num_lock, accepted as nat),
        decreases keys@.len() - i,
    {
        proof {
            if keys@.skip(i as int).len() == 0 {
                assert(expected_count_spec(keys@.skip(i as int), num_lock) == 0);
            }
            assert(i < keys@.len());
            assert(keys@.skip(i as int)[0] == keys@[i as int]);
        }
        let e = events_per_key(keys[i], num_lock);
        if rem < e {
            return keys[i];
        }
        proof {
            assert(keys@.skip(i as int).drop_first() =~= keys@.skip(i as int + 1));
        }
        rem = rem - e;
        i = i + 1;
    }
}

/// Settle the key-down half of a press: accept the OS's count when it equals
/// the expected count, and fail on the first key whose events were not all
/// accepted otherwise. The count comes from a single, atomic submission of
/// the down batch, so it never exceeds the batch's length.
pub fn confirm_down(keys: &Vec<KeySC>, num_lock: bool, accepted: u32) -> (r: Result<u32, AwnError>)
    requires
        keys@.len() <= 0x3FFF_FFFF,
        accepted <= expected_count_spec(keys@, num_lock),
    ensures
        accepted == expected_count_spec(keys@, num_lock) ==> r == Ok::<u32, AwnError>(accepted),
        accepted != expected_count_spec(keys@, num_lock) ==> r == Err::<u32, AwnError>(
            AwnError::KeyDownSendFailed {
                key: first_unmet_key_spec(keys@, num_lock, accepted as nat),
            },
        ),
{
    let expected = expected_count(keys, num_lock);
    if accepted == expected {
        Ok(accepted)
    } else {
        Err(AwnError::KeyDownSendFailed { key: first_unmet_key(keys, num_lock, accepted) })
    }
}

/// Settle the key-up half of a press, under the same count rule as
/// [`confirm_down`].
pub fn confirm_up(keys: &Vec<KeySC>, num_lock: bool, accepted: u32) -> (r: Result<u32, AwnError>)
    requires
        keys@.len() <= 0x3FFF_FFFF,
        accepted <= expected_count_spec(keys@, num_lock),
    ensures
        accepted == expected_count_spec(keys@, num_lock) ==> r == Ok::<u32, AwnError>(accepted),
        accepted != expected_count_spec(keys@, num_lock) ==> r == Err::<u32, AwnError>(
            AwnError::KeyUpSendFailed {
                key: first_unmet_key_spec(keys@, num_lock, accepted as nat),
            },
        ),
{
    let expected = expected_count(keys, num_lock);
    if accepted == expected {
        Ok(accepted)
    } else {
        Err(AwnError::KeyUpSendFailed { key: first_unmet_key(keys, num_lock, accepted) })
    }
}

/// The total a successful press reports: the confirmed down count plus the
/// confirmed up count, which is twice the expected count of one direction.
pub fn press_total(keys: &Vec<KeySC>, num_lock: bool, down: u32, up: u32) -> (total: u32)
    requires
        keys@.len() <= 0x3FFF_FFFF,
        down == expected_count_spec(keys@, num_lock),
        up == expected_count_spec(keys@, num_lock),
    ensures
        total == 2 * expected_count_spec(keys@, num_lock),
{
    proof {
        lemma_expected_count_bound(keys@, num_lock);
    }
    down + up
}

/// A one-key chord's batch is exactly that key's events.
proof fn lemma_batch_single(key: KeySC, num_lock: bool, t: ArrowScanCodes, key_up: bool)
    ensures
        batch_spec(seq![key], num_lock, t, key_up) == key_events_spec(key, num_lock, t, key_up),
{
    assert(seq![key][0] == key);
    assert(seq![key].drop_first() =~= Seq::<KeySC>::empty());
    assert(batch_spec(Seq::<KeySC>::empty(), num_lock, t, key_up) =~= Seq::<KeyEvent>::empty());
    assert(batch_spec(seq![key], num_lock, t, key_up) =~= key_events_spec(
        key,
        num_lock,
        t,
        key_up,
    ));
}

/// Law: a press of a single direct (non-arrow) key emits exactly two events,
/// the key's down event followed by its up event, whatever the NumLock
/// state.
pub proof fn lemma_press_single_direct(key: KeySC, num_lock: bool, t: ArrowScanCodes)
    requires
        !key.is_arrow_spec(),
    ensures
        press_events_spec(seq![key], num_lock, t) == seq![
            key_event_spec(key, t, false),
            key_event_spec(key, t, true),
        ],
        press_events_spec(seq![key], num_lock, t).len() == 2,
        !press_events_spec(seq![key], num_lock, t)[0].key_up,
        press_events_spec(seq![key], num_lock, t)[1].key_up,
{
    lemma_batch_single(key, num_lock, t, false);
    lemma_batch_single(key, num_lock, t, true);
    assert(press_events_spec(seq![key], num_lock, t) =~= seq![
        key_event_spec(key, t, false),
        key_event_spec(key, t, true),
    ]);
}

/// Law: a press of a single arrow key emits exactly four events when NumLock
/// is active — prefix then down, prefix then up — and exactly two, the down
/// and the up event, when it is not.
pub proof fn lemma_press_single_arrow(key: KeySC, num_lock: bool, t: ArrowScanCodes)
    requires
        key.is_arrow_spec(),
    ensures
        num_lock ==> press_events_spec(seq![key], num_lock, t) == seq![
            prefix_event_spec(false),
            key_event_spec(key, t, false),
            prefix_event_spec(true),
            key_event_spec(key, t, true),
        ],
        !num_lock ==> press_events_spec(seq![key], num_lock, t) == seq![
            key_event_spec(key, t, false),
            key_event_spec(key, t, true),
        ],
        press_events_spec(seq![key], num_lock, t).len() == (if num_lock {
            4nat
        } else {
            2nat
        }),
{
    lemma_batch_single(key, num_lock, t, false);
    lemma_batch_single(key, num_lock, t, true);
    if num_lock {
        assert(press_events_spec(seq![key], num_lock, t) =~= seq![
            prefix_event_spec(false),
            key_event_spec(key, t, false),
            prefix_event_spec(true),
            key_event_spec(key, t, true),
        ]);
    } else {
        assert(press_events_spec(seq![key], num_lock, t) =~= seq![
            key_event_spec(key, t, false),
            key_event_spec(key, t, true),
        ]);
    }
}

/// Law: a press of a chord of keys emits exactly twice the expected
/// one-direction count, with every key-down event preceding every key-up
/// event — downs and ups are never interleaved.
pub proof fn lemma_press_chord_shape(keys: Seq<KeySC>, num_lock: bool, t: ArrowScanCodes)
    ensures
        press_events_spec(keys, num_lock, t).len() == 2 * expected_count_spec(keys, num_lock),
        forall|i: int|
            0 <= i < expected_count_spec(keys, num_lock) ==> !press_events_spec(
                keys,
                num_lock,
                t,
            )[i].key_up,
        forall|i: int|
            expected_count_spec(keys, num_lock) <= i < 2 * expected_count_spec(keys, num_lock)
                ==> press_events_spec(keys, num_lock, t)[i].key_up,
{
    lemma_batch_len(keys, num_lock, t, false);
    lemma_batch_len(keys, num_lock, t, true);
    lemma_batch_key_up(keys, num_lock, t, false);
    lemma_batch_key_up(keys, num_lock, t, true);
}

} // verus!
