//! The output adapter: accumulates pressed-key state into a report and
//! prepares reports for transmission over the HID engine's interrupt
//! endpoint.
//!
//! Transmission itself is the embedding's loop: it calls the engine's
//! `write_start` / `write_finish` pair and retries until a nonzero count is
//! reported. That spin-wait blocks its interrupt context until the host polls
//! — a deliberate but fragile backpressure choice inherited from the design,
//! kept rather than silently replaced with a timeout.

use vstd::prelude::*;

use crate::hid::HidClass;
use crate::hid::HidDevice;
use crate::keycodes::KC_NO;
use crate::report::KbHidReport;
use crate::report::spec_empty_report;
use crate::report::spec_fill_slots;
use crate::report::spec_press_seq;
use crate::report::spec_pressed;

verus! {

/// The output adapter: owns the HID engine and the report currently being
/// assembled across `register_key` calls.
pub struct USBOut<D: HidDevice> {
    /// The HID protocol engine the reports go out through.
    pub usb_class: HidClass<D>,
    current_report: KbHidReport,
}

impl<D: HidDevice> USBOut<D> {
    /// The report accumulated so far, as its eight wire bytes.
    pub closed spec fn spec_current_report(&self) -> Seq<u8> {
        self.current_report@
    }

    /// The engine as the adapter holds it.
    pub closed spec fn spec_usb_class(&self) -> HidClass<D> {
        self.usb_class
    }

    /// Wraps the engine; the accumulated report starts out all-zero.
    pub fn new(usb_class: HidClass<D>) -> (r: USBOut<D>)
        ensures
            r.spec_usb_class() == usb_class,
            r.spec_current_report() == spec_empty_report(),
    {
        USBOut { usb_class, current_report: KbHidReport::default() }
    }

    /// Builds the report that sends exactly the given keys right away,
    /// bypassing the accumulated state. The embedding transmits the result.
    pub fn send_keys(&self, keys: &[u8]) -> (r: KbHidReport)
        ensures
            r@ == spec_press_seq(spec_empty_report(), keys@),
    {
        let mut report = KbHidReport::default();
        let n = keys.len();
        let mut i: usize = 0;
        while i < n
            invariant
                i <= n,
                n == keys@.len(),
                report@ == spec_press_seq(spec_empty_report(), keys@.take(i as int)),
            decreases n - i,
        {
            report.pressed(keys[i]);
            proof {
                assert(keys@.take(i + 1).drop_last() =~= keys@.take(i as int));
                assert(keys@.take(i + 1).last() == keys@[i as int]);
                lemma_press_seq_snoc(spec_empty_report(), keys@.take(i + 1));
            }
            i += 1;
        }
        proof {
            assert(keys@.take(n as int) =~= keys@);
        }
        report
    }

    /// Registers one key event on the report to be sent by
    /// `send_registered`; transmits nothing.
    pub fn register_key(&mut self, key: u8)
        ensures
            final(self).spec_current_report() == spec_pressed(
                old(self).spec_current_report(),
                key,
            ),
            final(self).spec_usb_class() == old(self).spec_usb_class(),
    {
        self.current_report.pressed(key);
    }

    /// Hands out the accumulated report for transmission and clears its six
    /// key slots for the next round; the modifier byte carries over, per the
    /// encoder's `clear` semantics.
    pub fn send_registered(&mut self) -> (r: KbHidReport)
        ensures
            r@ == old(self).spec_current_report(),
            final(self).spec_current_report() == spec_fill_slots(
                old(self).spec_current_report(),
                KC_NO,
            ),
            final(self).spec_usb_class() == old(self).spec_usb_class(),
    {
        let report = self.current_report.clone();
        self.current_report.clear();
        report
    }

    /// The all-released report the embedding transmits to report "no keys
    /// pressed".
    pub fn send_empty(&self) -> (r: KbHidReport)
        ensures
            r@ == spec_empty_report(),
    {
        KbHidReport::default()
    }
}

/// Applying one more key event after a sequence is the same as pressing it
/// on the sequence's outcome.
proof fn lemma_press_seq_snoc(r: Seq<u8>, ks: Seq<u8>)
    requires
        ks.len() > 0,
    ensures
        spec_press_seq(r, ks) == spec_pressed(spec_press_seq(r, ks.drop_last()), ks.last()),
    decreases ks.len(),
{
    if ks.len() == 1 {
        assert(ks.drop_last() =~= Seq::<u8>::empty());
        assert(ks.drop_first() =~= Seq::<u8>::empty());
        assert(ks.last() == ks[0]);
        assert(spec_press_seq(r, ks) == spec_press_seq(spec_pressed(r, ks[0]), ks.drop_first()));
        assert(spec_press_seq(spec_pressed(r, ks[0]), Seq::<u8>::empty()) == spec_pressed(
            r,
            ks[0],
        ));
        assert(spec_press_seq(r, Seq::<u8>::empty()) == r);
    } else {
        let r1 = spec_pressed(r, ks[0]);
        lemma_press_seq_snoc(r1, ks.drop_first());
        assert(ks.drop_first().drop_last() =~= ks.drop_last().drop_first());
        assert(ks.drop_first().last() == ks.last());
        assert(ks.drop_last().len() > 0);
        assert(ks.drop_last()[0] == ks[0]);
        assert(spec_press_seq(r, ks) == spec_press_seq(r1, ks.drop_first()));
        assert(spec_press_seq(r, ks.drop_last()) == spec_press_seq(
            r1,
            ks.drop_last().drop_first(),
        ));
    }
}

} // verus!
