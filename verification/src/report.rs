//! The 8-byte HID boot-keyboard report and its encoder.
//!
//! Byte 0 holds the modifier bitmask, byte 1 is reserved (always written as
//! zero by the all-zero initial report and never touched afterwards), and
//! bytes 2..8 are six key slots filled in press order. A seventh concurrent
//! ordinary key, or any of the three error sentinels, force-fills all six
//! slots with the corresponding sentinel code.

use vstd::prelude::*;

use crate::keycodes::KC_ERROR_ROLL_OVER;
use crate::keycodes::KC_NO;
use crate::keycodes::is_error;
use crate::keycodes::is_error_code;
use crate::keycodes::is_modifier;
use crate::keycodes::is_modifier_code;
use crate::keycodes::is_normal_code;
use crate::keycodes::modifier_bit;
use crate::keycodes::spec_modifier_bit;

verus! {

broadcast use vstd::array::group_array_axioms;

/// The all-zero report: no modifiers, no keys pressed.
pub open spec fn spec_empty_report() -> Seq<u8> {
    seq![0u8, 0u8, 0u8, 0u8, 0u8, 0u8, 0u8, 0u8]
}

/// The six key slots of a report (bytes 2..8).
pub open spec fn slots(r: Seq<u8>) -> Seq<u8> {
    r.subrange(2, 8)
}

/// `n` empty key slots.
pub open spec fn zero_slots(n: nat) -> Seq<u8> {
    Seq::new(n, |i: int| KC_NO)
}

/// The report with both header bytes kept and every key slot set to `k`.
pub open spec fn spec_fill_slots(r: Seq<u8>, k: u8) -> Seq<u8> {
    Seq::new(8, |i: int| if i < 2 { r[i] } else { k })
}

/// The first index in `i..8` whose byte is zero, or 8 if every slot from `i`
/// on is occupied.
pub open spec fn spec_first_free(r: Seq<u8>, i: int) -> int
    decreases 8 - i,
{
    if i >= 8 {
        8
    } else if r[i] == KC_NO {
        i
    } else {
        spec_first_free(r, i + 1)
    }
}

/// What one key event does to a report: nothing for "no key", a slot fill for
/// an error sentinel, a bit in byte 0 for a modifier, and otherwise the first
/// free slot — or the roll-over fill when all six slots are taken.
pub open spec fn spec_pressed(r: Seq<u8>, k: u8) -> Seq<u8> {
    if k == KC_NO {
        r
    } else if is_error_code(k) {
        spec_fill_slots(r, k)
    } else if is_modifier_code(k) {
        r.update(0, r[0] | spec_modifier_bit(k))
    } else {
        if spec_first_free(r, 2) < 8 {
            r.update(spec_first_free(r, 2), k)
        } else {
            spec_fill_slots(r, KC_ERROR_ROLL_OVER)
        }
    }
}

/// A sequence of key events applied in order, oldest first.
pub open spec fn spec_press_seq(r: Seq<u8>, ks: Seq<u8>) -> Seq<u8>
    decreases ks.len(),
{
    if ks.len() == 0 {
        r
    } else {
        spec_press_seq(spec_pressed(r, ks[0]), ks.drop_first())
    }
}

/// The canonical 8-byte HID boot-keyboard report.
#[derive(Clone, Copy)]
pub struct KbHidReport([u8; 8]);

impl View for KbHidReport {
    type V = Seq<u8>;

    closed spec fn view(&self) -> Seq<u8> {
        self.0@
    }
}

/// A report always views as exactly its eight wire bytes.
pub proof fn lemma_report_len(r: &KbHidReport)
    ensures
        r@.len() == 8,
{
}

impl Default for KbHidReport {
    /// The all-zero report.
    fn default() -> (r: Self)
        ensures
            r@ == spec_empty_report(),
    {
        let r = KbHidReport([0u8; 8]);
        proof {
            assert(r@ =~= spec_empty_report());
        }
        r
    }
}

impl KbHidReport {
    /// The raw wire form handed to the interrupt endpoint.
    pub fn as_bytes(&self) -> (r: &[u8])
        ensures
            r@ == self@,
    {
        self.0.as_slice()
    }

    /// Sets all six key slots to `kc`, leaving bytes 0 and 1 alone.
    fn set_all(&mut self, kc: u8)
        ensures
            final(self)@ == spec_fill_slots(old(self)@, kc),
    {
        let mut i: usize = 2;
        while i < 8
            invariant
                2 <= i <= 8,
                forall|j: int| 0 <= j < 2 ==> self.0@[j] == old(self)@[j],
                forall|j: int| 2 <= j < i ==> self.0@[j] == kc,
                forall|j: int| i <= j < 8 ==> self.0@[j] == old(self)@[j],
            decreases 8 - i,
        {
            self.0[i] = kc;
            i += 1;
        }
        proof {
            assert(self@ =~= spec_fill_slots(old(self)@, kc));
        }
    }

    /// The first free key slot, or 8 when all six are occupied.
    fn first_free_slot(&self) -> (r: usize)
        ensures
            r == spec_first_free(self@, 2),
            2 <= r <= 8,
    {
        let mut i: usize = 2;
        while i < 8
            invariant
                2 <= i <= 8,
                spec_first_free(self@, 2) == spec_first_free(self@, i as int),
                forall|j: int| 2 <= j < i ==> self@[j] != KC_NO,
            decreases 8 - i,
        {
            if self.0[i] == KC_NO {
                return i;
            }
            i += 1;
        }
        i
    }

    /// Applies one key event to the report.
    pub fn pressed(&mut self, kc: u8)
        ensures
            final(self)@ == spec_pressed(old(self)@, kc),
    {
        if kc == KC_NO {
        } else if is_error(kc) {
            self.set_all(kc);
        } else if is_modifier(kc) {
            let b = modifier_bit(kc);
            self.0[0] = self.0[0] | b;
            proof {
                assert(self@ =~= old(self)@.update(0, old(self)@[0] | spec_modifier_bit(kc)));
            }
        } else {
            let i = self.first_free_slot();
            if i < 8 {
                self.0[i] = kc;
                proof {
                    assert(self@ =~= old(self)@.update(i as int, kc));
                }
            } else {
                self.set_all(KC_ERROR_ROLL_OVER);
            }
        }
    }

    /// Resets the six key slots to zero. The modifier byte is deliberately
    /// kept: released modifiers are reported by the next full report.
    pub fn clear(&mut self)
        ensures
            final(self)@ == spec_fill_slots(old(self)@, KC_NO),
    {
        self.set_all(KC_NO);
    }
}

/// `spec_first_free(r, i)` is the least index at or above `i` holding a zero
/// byte, and 8 when there is none below 8.
proof fn lemma_first_free_from(r: Seq<u8>, i: int)
    requires
        0 <= i <= 8,
    ensures
        i <= spec_first_free(r, i) <= 8,
        spec_first_free(r, i) < 8 ==> r[spec_first_free(r, i)] == KC_NO,
        forall|j: int| i <= j < spec_first_free(r, i) ==> r[j] != KC_NO,
    decreases 8 - i,
{
    if i < 8 && r[i] != KC_NO {
        lemma_first_free_from(r, i + 1);
    }
}

/// Ordinary key events pack left: if the slots hold the occupied prefix `p`
/// followed by zeros, pressing the ordinary keys `ks` (at most up to the six
/// slot capacity) appends them in press order, still followed by zeros, and
/// leaves bytes 0 and 1 alone.
pub proof fn lemma_presses_pack(r: Seq<u8>, p: Seq<u8>, ks: Seq<u8>)
    requires
        r.len() == 8,
        slots(r) == p + zero_slots((6 - p.len()) as nat),
        forall|i: int| 0 <= i < p.len() ==> p[i] != KC_NO,
        forall|i: int| 0 <= i < ks.len() ==> is_normal_code(#[trigger] ks[i]),
        p.len() + ks.len() <= 6,
    ensures
        spec_press_seq(r, ks).len() == 8,
        spec_press_seq(r, ks)[0] == r[0],
        spec_press_seq(r, ks)[1] == r[1],
        slots(spec_press_seq(r, ks)) == (p + ks) + zero_slots(
            (6 - p.len() - ks.len()) as nat,
        ),
    decreases ks.len(),
{
    if ks.len() == 0 {
        assert(p + ks =~= p);
        assert((p + ks) + zero_slots((6 - p.len() - ks.len()) as nat) =~= p + zero_slots(
            (6 - p.len()) as nat,
        ));
    } else {
        let k = ks[0];
        let n = p.len() as int;
        assert(forall|j: int| 0 <= j < 6 ==> r[j + 2] == #[trigger] slots(r)[j]);
        lemma_first_free_from(r, 2);
        let ff = spec_first_free(r, 2);
        assert(slots(r)[n] == zero_slots((6 - p.len()) as nat)[0]);
        assert(r[n + 2] == KC_NO);
        assert(ff <= 2 + n) by {
            if ff > 2 + n {
                assert(r[n + 2] != KC_NO);
            }
        }
        assert(ff == 2 + n) by {
            if ff < 2 + n {
                assert(slots(r)[ff - 2] == p[ff - 2]);
                assert(r[ff] == p[ff - 2]);
            }
        }
        let r2 = spec_pressed(r, k);
        assert(r2 == r.update(ff, k));
        let p2 = p + seq![k];
        let rest2 = zero_slots((6 - p2.len()) as nat);
        assert forall|j: int| 0 <= j < 6 implies slots(r2)[j] == (p2 + rest2)[j] by {
            assert(slots(r2)[j] == r2[j + 2]);
            assert(slots(r)[j] == r[j + 2]);
            if j < n {
                assert((p + zero_slots((6 - p.len()) as nat))[j] == p[j]);
                assert(r2[j + 2] == r[j + 2]);
            } else if j > n {
                assert((p + zero_slots((6 - p.len()) as nat))[j] == zero_slots(
                    (6 - p.len()) as nat,
                )[j - n]);
                assert(r2[j + 2] == r[j + 2]);
                assert((p2 + rest2)[j] == rest2[j - n - 1]);
            }
        }
        assert(slots(r2).len() == (p2 + rest2).len());
        assert(slots(r2) =~= p2 + rest2);
        lemma_presses_pack(r2, p2, ks.drop_first());
        assert(p2 + ks.drop_first() =~= p + ks);
        assert(spec_press_seq(r, ks) == spec_press_seq(r2, ks.drop_first()));
    }
}

/// Pressing any number of ordinary keys, at most six, into the empty report
/// yields exactly those keys in press order in bytes 2..8, left-packed with
/// trailing zeros, and an untouched zero modifier byte.
pub proof fn lemma_report_of_presses(ks: Seq<u8>)
    requires
        forall|i: int| 0 <= i < ks.len() ==> is_normal_code(#[trigger] ks[i]),
        ks.len() <= 6,
    ensures
        spec_press_seq(spec_empty_report(), ks).len() == 8,
        spec_press_seq(spec_empty_report(), ks)[0] == 0,
        spec_press_seq(spec_empty_report(), ks)[1] == 0,
        slots(spec_press_seq(spec_empty_report(), ks)) == ks + zero_slots(
            (6 - ks.len()) as nat,
        ),
{
    let e = Seq::<u8>::empty();
    assert(slots(spec_empty_report()) =~= e + zero_slots(6));
    lemma_presses_pack(spec_empty_report(), e, ks);
    assert(e + ks =~= ks);
}

/// Pressing an ordinary key while all six slots are occupied force-fills
/// every slot with the roll-over sentinel, whatever the slots held.
pub proof fn lemma_rollover_on_seventh(r: Seq<u8>, k: u8)
    requires
        r.len() == 8,
        forall|j: int| 2 <= j < 8 ==> r[j] != KC_NO,
        is_normal_code(k),
    ensures
        spec_pressed(r, k) == spec_fill_slots(r, KC_ERROR_ROLL_OVER),
{
    lemma_first_free_from(r, 2);
}

/// Any of the three error sentinels overrides all six key slots while
/// keeping bytes 0 and 1, whatever the report held before.
pub proof fn lemma_error_dominates(r: Seq<u8>, k: u8)
    requires
        r.len() == 8,
        is_error_code(k),
    ensures
        spec_pressed(r, k) == spec_fill_slots(r, k),
        spec_pressed(r, k)[0] == r[0],
        spec_pressed(r, k)[1] == r[1],
        forall|j: int| 2 <= j < 8 ==> spec_pressed(r, k)[j] == k,
{
}

/// Modifier key events, in any number and combination, change only byte 0:
/// bytes 1..8 come out exactly as they went in.
pub proof fn lemma_modifiers_only_modifier_byte(r: Seq<u8>, ks: Seq<u8>)
    requires
        r.len() == 8,
        forall|i: int| 0 <= i < ks.len() ==> is_modifier_code(#[trigger] ks[i]),
    ensures
        spec_press_seq(r, ks).len() == 8,
        forall|j: int| 1 <= j < 8 ==> spec_press_seq(r, ks)[j] == r[j],
    decreases ks.len(),
{
    if ks.len() > 0 {
        assert(is_modifier_code(ks[0]));
        let r2 = spec_pressed(r, ks[0]);
        assert(r2 == r.update(0, r[0] | spec_modifier_bit(ks[0])));
        assert(forall|i: int|
            0 <= i < ks.drop_first().len() ==> is_modifier_code(#[trigger] ks.drop_first()[i]));
        lemma_modifiers_only_modifier_byte(r2, ks.drop_first());
        assert(spec_press_seq(r, ks) == spec_press_seq(r2, ks.drop_first()));
        assert(forall|j: int| 1 <= j < 8 ==> r2[j] == r[j]);
    }
}

/// Clearing zeroes the six key slots, keeps the modifier byte, and doing it
/// twice is the same as doing it once.
pub proof fn lemma_clear_idempotent(r: Seq<u8>)
    requires
        r.len() == 8,
    ensures
        spec_fill_slots(r, KC_NO)[0] == r[0],
        spec_fill_slots(r, KC_NO)[1] == r[1],
        forall|j: int| 2 <= j < 8 ==> spec_fill_slots(r, KC_NO)[j] == KC_NO,
        spec_fill_slots(spec_fill_slots(r, KC_NO), KC_NO) == spec_fill_slots(r, KC_NO),
{
    assert(spec_fill_slots(spec_fill_slots(r, KC_NO), KC_NO) =~= spec_fill_slots(r, KC_NO));
}

} // verus!
