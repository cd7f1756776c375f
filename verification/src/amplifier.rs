//! The amplifier: a device with a power state and a volume, which may route
//! audio from a shared tuner.

use vstd::prelude::*;
use crate::notice::{Notice, NoticeView, Power};
use crate::shared::TunerHandle;

verus! {

/// An amplifier. It names the tuner it routes from by a handle, and so shares
/// that tuner with every other holder of the handle; it never holds a tuner
/// of its own.
pub struct Amplifier {
    label: String,
    power: Power,
    tuner: Option<TunerHandle>,
    level: i32,
}

/// The state of an [`Amplifier`].
pub struct AmplifierView {
    /// The display name, fixed at construction.
    pub label: Seq<char>,
    pub power: Power,
    /// The tuner that the amplifier routes from, once one was bound.
    pub tuner: Option<TunerHandle>,
    /// The volume last set; 0 at first.
    pub volume: i32,
}

impl AmplifierView {
    /// The state of a new amplifier of this label.
    pub open spec fn fresh(label: Seq<char>) -> AmplifierView {
        AmplifierView { label, power: Power::Off, tuner: None, volume: 0 }
    }

    /// This state with the power on.
    pub open spec fn switched_on(self) -> AmplifierView {
        AmplifierView { power: Power::On, ..self }
    }

    /// This state with the power off.
    pub open spec fn switched_off(self) -> AmplifierView {
        AmplifierView { power: Power::Off, ..self }
    }

    /// This state at another volume.
    pub open spec fn with_volume(self, level: i32) -> AmplifierView {
        AmplifierView { volume: level, ..self }
    }

    /// The notice of switching this amplifier on.
    pub open spec fn on_notice(self) -> NoticeView {
        NoticeView::PoweredOn { label: self.label }
    }

    /// The notice of switching this amplifier off.
    pub open spec fn off_notice(self) -> NoticeView {
        NoticeView::PoweredOff { label: self.label }
    }

    /// The notice of setting this amplifier to a volume.
    pub open spec fn volume_notice(self, level: i32) -> NoticeView {
        NoticeView::VolumeSet { label: self.label, level }
    }

    /// This state bound to the tuner that the handle names, whatever was
    /// bound before.
    pub open spec fn bound_to(self, handle: TunerHandle) -> AmplifierView {
        AmplifierView { tuner: Some(handle), ..self }
    }
}

impl View for Amplifier {
    type V = AmplifierView;

    closed spec fn view(&self) -> AmplifierView {
        AmplifierView {
            label: self.label@,
            power: self.power,
            tuner: self.tuner,
            volume: self.level,
        }
    }
}

impl Amplifier {
    /// An amplifier of this label: switched off, at volume 0, bound to no
    /// tuner.
    pub fn new(description: &str) -> (amp: Amplifier)
        ensures
            amp@ == AmplifierView::fresh(description@),
    {
        Amplifier {
            label: String::from_str(description),
            power: Power::Off,
            tuner: None,
            level: 0,
        }
    }

    /// Switches the amplifier on, whatever its state was.
    pub fn on(&mut self) -> (notice: Notice)
        ensures
            final(self)@ == old(self)@.switched_on(),
            notice@ == old(self)@.on_notice(),
    {
        self.power = Power::On;
        Notice::PoweredOn { label: self.label.clone() }
    }

    /// Switches the amplifier off, whatever its state was.
    pub fn off(&mut self) -> (notice: Notice)
        ensures
            final(self)@ == old(self)@.switched_off(),
            notice@ == old(self)@.off_notice(),
    {
        self.power = Power::Off;
        Notice::PoweredOff { label: self.label.clone() }
    }

    /// Sets the volume. Any level is taken.
    pub fn set_volume(&mut self, level: i32) -> (notice: Notice)
        ensures
            final(self)@ == old(self)@.with_volume(level),
            notice@ == old(self)@.volume_notice(level),
    {
        self.level = level;
        Notice::VolumeSet { label: self.label.clone(), level }
    }

    /// Binds the amplifier to the tuner that the handle names, in place of
    /// any tuner bound before. The tuner itself is not touched.
    pub fn set_tuner(&mut self, tuner: TunerHandle)
        ensures
            final(self)@ == old(self)@.bound_to(tuner),
    {
        self.tuner = Some(tuner);
    }

    /// The display name.
    pub fn label(&self) -> (label: &str)
        ensures
            label@ == self@.label,
    {
        self.label.as_str()
    }

    /// The power state.
    pub fn power(&self) -> (power: Power)
        ensures
            power == self@.power,
    {
        self.power
    }

    /// The volume last set.
    pub fn volume(&self) -> (level: i32)
        ensures
            level == self@.volume,
    {
        self.level
    }

    /// The handle of the tuner that the amplifier is bound to, if any.
    pub fn tuner(&self) -> (tuner: Option<TunerHandle>)
        ensures
            tuner == self@.tuner,
    {
        self.tuner
    }
}

/// Switching on is idempotent. From any state the power is on afterwards; a
/// second switch leaves the state as the first left it, and gives the same
/// notice as the first.
pub proof fn lemma_amplifier_on_idempotent(a: AmplifierView)
    ensures
        a.switched_on().power == Power::On,
        a.switched_on().switched_on() == a.switched_on(),
        a.switched_on().on_notice() == a.on_notice(),
{
}

/// Switching off is idempotent. From any state the power is off afterwards;
/// a second switch leaves the state as the first left it, and gives the same
/// notice as the first.
pub proof fn lemma_amplifier_off_idempotent(a: AmplifierView)
    ensures
        a.switched_off().power == Power::Off,
        a.switched_off().switched_off() == a.switched_off(),
        a.switched_off().off_notice() == a.off_notice(),
{
}

} // verus!
