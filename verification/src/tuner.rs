//! The tuner: a device with a power state and a tunable frequency.

use vstd::prelude::*;
use crate::notice::{Notice, NoticeView, Power};

verus! {

/// A radio tuner.
pub struct Tuner {
    label: String,
    power: Power,
    frequency_bits: Option<u64>,
}

/// The state of a [`Tuner`].
pub struct TunerView {
    /// The display name, fixed at construction.
    pub label: Seq<char>,
    pub power: Power,
    /// The bit pattern of the binary64 frequency last tuned to; `None` until
    /// the tuner is tuned for the first time.
    pub frequency_bits: Option<u64>,
}

impl TunerView {
    /// The state of a new tuner of this label.
    pub open spec fn fresh(label: Seq<char>) -> TunerView {
        TunerView { label, power: Power::Off, frequency_bits: None }
    }

    /// This state with the power on.
    pub open spec fn switched_on(self) -> TunerView {
        TunerView { power: Power::On, ..self }
    }

    /// This state with the power off.
    pub open spec fn switched_off(self) -> TunerView {
        TunerView { power: Power::Off, ..self }
    }

    /// This state tuned to the frequency of these bits, whatever the power.
    pub open spec fn tuned(self, bits: u64) -> TunerView {
        TunerView { frequency_bits: Some(bits), ..self }
    }

    /// The notice of switching this tuner on.
    pub open spec fn on_notice(self) -> NoticeView {
        NoticeView::PoweredOn { label: self.label }
    }

    /// The notice of switching this tuner off.
    pub open spec fn off_notice(self) -> NoticeView {
        NoticeView::PoweredOff { label: self.label }
    }

    /// The notice of tuning this tuner to the frequency of these bits.
    pub open spec fn frequency_notice(self, bits: u64) -> NoticeView {
        NoticeView::FrequencySet { label: self.label, bits }
    }
}

impl View for Tuner {
    type V = TunerView;

    closed spec fn view(&self) -> TunerView {
        TunerView { label: self.label@, power: self.power, frequency_bits: self.frequency_bits }
    }
}

impl Tuner {
    /// A tuner of this label, switched off and not yet tuned.
    pub fn new(label: &str) -> (tuner: Tuner)
        ensures
            tuner@ == TunerView::fresh(label@),
    {
        Tuner { label: String::from_str(label), power: Power::Off, frequency_bits: None }
    }

    /// Switches the tuner on, whatever its state was.
    pub fn on(&mut self) -> (notice: Notice)
        ensures
            final(self)@ == old(self)@.switched_on(),
            notice@ == old(self)@.on_notice(),
    {
        self.power = Power::On;
        Notice::PoweredOn { label: self.label.clone() }
    }

    /// Switches the tuner off, whatever its state was.
    pub fn off(&mut self) -> (notice: Notice)
        ensures
            final(self)@ == old(self)@.switched_off(),
            notice@ == old(self)@.off_notice(),
    {
        self.power = Power::Off;
        Notice::PoweredOff { label: self.label.clone() }
    }

    /// Tunes to the frequency whose binary64 bit pattern is `bits`. Any
    /// pattern is taken, and the power state plays no part.
    pub fn set_frequency(&mut self, bits: u64) -> (notice: Notice)
        ensures
            final(self)@ == old(self)@.tuned(bits),
            notice@ == old(self)@.frequency_notice(bits),
    {
        self.frequency_bits = Some(bits);
        Notice::FrequencySet { label: self.label.clone(), bits }
    }

    /// The display name.
    pub fn label(&self) -> (label: &str)
        ensures
            label@ == self@.label,
    {
        self.label.as_str()
    }

    /// The power state.
    pub fn power(&self) -> (power: Power)
        ensures
            power == self@.power,
    {
        self.power
    }

    /// The bits of the frequency last tuned to, if the tuner was ever tuned.
    pub fn frequency_bits(&self) -> (bits: Option<u64>)
        ensures
            bits == self@.frequency_bits,
    {
        self.frequency_bits
    }
}

/// Switching on is idempotent. From any state the power is on afterwards; a
/// second switch leaves the state as the first left it, and gives the same
/// notice as the first.
pub proof fn lemma_tuner_on_idempotent(t: TunerView)
    ensures
        t.switched_on().power == Power::On,
        t.switched_on().switched_on() == t.switched_on(),
        t.switched_on().on_notice() == t.on_notice(),
{
}

/// Switching off is idempotent. From any state the power is off afterwards;
/// a second switch leaves the state as the first left it, and gives the same
/// notice as the first.
pub proof fn lemma_tuner_off_idempotent(t: TunerView)
    ensures
        t.switched_off().power == Power::Off,
        t.switched_off().switched_off() == t.switched_off(),
        t.switched_off().off_notice() == t.off_notice(),
{
}

} // verus!
