//! The facade: one entry point that drives the amplifier and the tuner
//! through a whole scenario.
//!
//! The facade keeps the tuner in a bank of its own and holds a handle to it.
//! A new facade is the only holder of its tuner; tuning the radio in binds
//! the amplifier to the same handle. Anyone who holds the handle may have an
//! access out on the tuner while the facade works: a step of the facade that
//! the access stands against is refused, the operation ends there with the
//! conflict, and the steps done before it stay done.

use vstd::prelude::*;
use crate::amplifier::{Amplifier, AmplifierView};
use crate::notice::{notice_views, Notice, NoticeView, Power};
use crate::shared::{
    all_wf,
    switched_off_at,
    switched_on_at,
    tuned_at,
    write_given_back,
    AccessConflict,
    SlotView,
    TunerBank,
    TunerHandle,
};
use crate::tuner::{Tuner, TunerView};

verus! {

/// The volume that the facade sets for the radio.
pub const RADIO_VOLUME: i32 = 5;

/// The end of an operation that an access conflict cut short.
#[derive(Debug, PartialEq, Eq)]
pub struct CutShort {
    /// The notices of the steps that were done before the refused one, in
    /// the order of the steps.
    pub notices: Vec<Notice>,
    /// The conflict that the refused step met.
    pub conflict: AccessConflict,
}

/// The notices that an operation gave out, whether it ran to its end or was
/// cut short.
pub open spec fn emitted(outcome: Result<Vec<Notice>, CutShort>) -> Seq<NoticeView> {
    match outcome {
        Ok(notices) => notice_views(notices@),
        Err(cut) => notice_views(cut.notices@),
    }
}

/// The number that a new facade gives its bank: one that the bank of the
/// amplifier's old binding, if it has one, does not have.
pub open spec fn apart_from(bound: Option<TunerHandle>) -> u64 {
    match bound {
        Some(h) => if h.bank_id() == u64::MAX {
            0
        } else {
            (h.bank_id() + 1) as u64
        },
        None => 0,
    }
}

/// A home theater. It owns the amplifier outright. The tuner it keeps in a
/// bank of its own and names by a handle, the same handle that it binds the
/// amplifier to.
pub struct HomeTheaterFacade {
    amp: Amplifier,
    bank: TunerBank,
    tuner: TunerHandle,
}

/// The state of a [`HomeTheaterFacade`].
pub struct HomeTheaterView {
    pub amp: AmplifierView,
    /// The facade's own handle to the tuner.
    pub handle: TunerHandle,
    /// The number of the bank that stores the tuner.
    pub bank_id: u64,
    /// The slots of that bank.
    pub bank: Seq<SlotView>,
}

impl HomeTheaterView {
    /// The bank is well formed, and the facade's handle is one of it.
    pub open spec fn wf(self) -> bool {
        &&& all_wf(self.bank)
        &&& self.holds(self.handle)
    }

    /// The handle is one of the facade's bank.
    pub open spec fn holds(self, handle: TunerHandle) -> bool {
        handle.bank_id() == self.bank_id && 0 <= handle.index() < self.bank.len()
    }

    /// The slot of the facade's tuner: the tuner and the accesses out on it.
    pub open spec fn slot(self) -> SlotView {
        self.bank[self.handle.index()]
    }

    /// The tuner, as seen through the facade's handle.
    pub open spec fn tuner(self) -> TunerView {
        self.slot().tuner
    }

    /// The tuner as seen through the amplifier's handle: `None` while the
    /// amplifier is unbound or its handle is none of the facade's bank.
    pub open spec fn amplifier_tuner(self) -> Option<TunerView> {
        match self.amp.tuner {
            Some(h) => if self.holds(h) {
                Some(self.bank[h.index()].tuner)
            } else {
                None
            },
            None => None,
        }
    }

    /// The state after the tuner that `through` names was tuned to the
    /// frequency of these bits, whoever holds that handle.
    pub open spec fn tuned_through(self, through: TunerHandle, bits: u64) -> HomeTheaterView
        recommends
            self.holds(through),
    {
        HomeTheaterView { bank: tuned_at(self.bank, through.index(), bits), ..self }
    }

    /// The state after the tuner was switched on and nothing else was done.
    pub open spec fn tuner_switched_on(self) -> HomeTheaterView {
        HomeTheaterView { bank: switched_on_at(self.bank, self.handle.index()), ..self }
    }

    /// The state after the radio was tuned in to the frequency of these
    /// bits, every step done: the tuner switched on and then tuned, the
    /// amplifier switched on, then set to the radio volume, then bound to
    /// the facade's tuner.
    pub open spec fn listening(self, bits: u64) -> HomeTheaterView {
        HomeTheaterView {
            amp: self.amp.switched_on().with_volume(RADIO_VOLUME).bound_to(self.handle),
            bank: tuned_at(
                switched_on_at(self.bank, self.handle.index()),
                self.handle.index(),
                bits,
            ),
            ..self
        }
    }

    /// The state after a try to tune the radio in. While the write access is
    /// out, switching the tuner on is refused and nothing is done. While read
    /// accesses are out, the tuner is switched on, tuning it is refused, and
    /// nothing more is done. On a free tuner every step is done.
    pub open spec fn after_listen(self, bits: u64) -> HomeTheaterView {
        if self.slot().writing {
            self
        } else if self.slot().readers > 0 {
            self.tuner_switched_on()
        } else {
            self.listening(bits)
        }
    }

    /// The notices of a try to tune the radio in: one for each step that was
    /// done, in the order of the steps.
    pub open spec fn listen_notices(self, bits: u64) -> Seq<NoticeView> {
        if self.slot().writing {
            seq![NoticeView::TuningIn]
        } else if self.slot().readers > 0 {
            seq![NoticeView::TuningIn, self.tuner().on_notice()]
        } else {
            seq![
                NoticeView::TuningIn,
                self.tuner().on_notice(),
                self.tuner().frequency_notice(bits),
                self.amp.on_notice(),
                self.amp.volume_notice(RADIO_VOLUME),
            ]
        }
    }

    /// The state after the radio was shut down, every step done: both
    /// devices switched off, nothing else touched.
    pub open spec fn stopped(self) -> HomeTheaterView {
        HomeTheaterView {
            amp: self.amp.switched_off(),
            bank: switched_off_at(self.bank, self.handle.index()),
            ..self
        }
    }

    /// The state after a try to shut the radio down. While the write access
    /// is out, switching the tuner off is refused and nothing is done;
    /// otherwise every step is done, whatever read accesses are out.
    pub open spec fn after_stop(self) -> HomeTheaterView {
        if self.slot().writing {
            self
        } else {
            self.stopped()
        }
    }

    /// The notices of a try to shut the radio down: one for each step that
    /// was done, in the order of the steps.
    pub open spec fn stop_notices(self) -> Seq<NoticeView> {
        if self.slot().writing {
            seq![NoticeView::ShuttingDown]
        } else {
            seq![NoticeView::ShuttingDown, self.tuner().off_notice(), self.amp.off_notice()]
        }
    }
}

impl View for HomeTheaterFacade {
    type V = HomeTheaterView;

    closed spec fn view(&self) -> HomeTheaterView {
        HomeTheaterView {
            amp: self.amp@,
            handle: self.tuner,
            bank_id: self.bank.id(),
            bank: self.bank@,
        }
    }
}

impl HomeTheaterFacade {
    /// Takes the amplifier as it is, and moves the tuner into a new bank
    /// where it can be shared: from here on the tuner is reached by handle
    /// only. The facade is the only holder of that handle, and no access is
    /// out on the tuner. An amplifier that was bound before keeps its
    /// binding, which names no tuner of the new bank.
    pub fn new(amp: Amplifier, tuner: Tuner) -> (facade: HomeTheaterFacade)
        ensures
            facade@.wf(),
            facade@.amp == amp@,
            facade@.bank_id == apart_from(amp@.tuner),
            facade@.handle.index() == 0,
            facade@.bank == seq![SlotView { tuner: tuner@, readers: 0, writing: false }],
            facade@.amp.tuner != Some(facade@.handle),
            facade@.amplifier_tuner() is None,
    {
        let id: u64 = match amp.tuner() {
            Some(bound) => if bound.bank() == u64::MAX {
                0
            } else {
                bound.bank() + 1
            },
            None => 0,
        };
        let mut bank = TunerBank::new(id);
        let handle = bank.insert(tuner);
        assert(bank@ =~= seq![SlotView { tuner: tuner@, readers: 0, writing: false }]);
        HomeTheaterFacade { amp, bank, tuner: handle }
    }

    /// Tunes the radio in to the frequency whose binary64 bit pattern is
    /// `frequency_bits`. In this order: announces the tuning, switches the
    /// tuner on under read access, tunes it under write access, switches the
    /// amplifier on, sets the radio volume, and binds the amplifier to the
    /// facade's own tuner. Returns the notices in the order of the steps.
    ///
    /// Runs to its end exactly when no access is out on the tuner. Otherwise
    /// the first step that is refused ends the operation with the conflict
    /// and the notices so far; the steps before it stay done, the steps after
    /// it are not begun, and the accesses that were out stay out.
    pub fn listen_radio(&mut self, frequency_bits: u64) -> (outcome: Result<Vec<Notice>, CutShort>)
        requires
            old(self)@.wf(),
            old(self)@.slot().readers < usize::MAX,
        ensures
            final(self)@.wf(),
            outcome is Ok <==> old(self)@.slot().free(),
            final(self)@ == old(self)@.after_listen(frequency_bits),
            emitted(outcome) == old(self)@.listen_notices(frequency_bits),
    {
        let mut notices: Vec<Notice> = Vec::new();
        notices.push(Notice::TuningIn);
        match self.bank.switch_on(self.tuner) {
            Ok(notice) => {
                notices.push(notice);
            },
            Err(conflict) => {
                assert(notice_views(notices@) =~= old(self)@.listen_notices(frequency_bits));
                return Err(CutShort { notices, conflict });
            },
        }
        match self.bank.tune(self.tuner, frequency_bits) {
            Ok(notice) => {
                notices.push(notice);
            },
            Err(conflict) => {
                assert(notice_views(notices@) =~= old(self)@.listen_notices(frequency_bits));
                return Err(CutShort { notices, conflict });
            },
        }
        let amp_on = self.amp.on();
        notices.push(amp_on);
        let volume_set = self.amp.set_volume(RADIO_VOLUME);
        notices.push(volume_set);
        self.amp.set_tuner(self.tuner);
        assert(notice_views(notices@) =~= old(self)@.listen_notices(frequency_bits));
        Ok(notices)
    }

    /// Shuts the radio down. In this order: announces the shutdown, switches
    /// the tuner off under read access, and switches the amplifier off. The
    /// volume, the frequency and the amplifier's tuner stay as they are.
    /// Returns the notices in the order of the steps.
    ///
    /// Runs to its end exactly when the write access is not out on the
    /// tuner; read accesses that are out do not stand against it, and stay
    /// out. Otherwise it ends with the conflict after the announcement, and
    /// nothing is changed.
    pub fn stop_radio(&mut self) -> (outcome: Result<Vec<Notice>, CutShort>)
        requires
            old(self)@.wf(),
            old(self)@.slot().readers < usize::MAX,
        ensures
            final(self)@.wf(),
            outcome is Ok <==> old(self)@.slot().can_read(),
            final(self)@ == old(self)@.after_stop(),
            emitted(outcome) == old(self)@.stop_notices(),
    {
        let mut notices: Vec<Notice> = Vec::new();
        notices.push(Notice::ShuttingDown);
        match self.bank.switch_off(self.tuner) {
            Ok(notice) => {
                notices.push(notice);
            },
            Err(conflict) => {
                assert(notice_views(notices@) =~= old(self)@.stop_notices());
                return Err(CutShort { notices, conflict });
            },
        }
        let amp_off = self.amp.off();
        notices.push(amp_off);
        assert(notice_views(notices@) =~= old(self)@.stop_notices());
        Ok(notices)
    }

    /// The amplifier.
    pub fn amplifier(&self) -> (amp: &Amplifier)
        ensures
            amp@ == self@.amp,
    {
        &self.amp
    }

    /// The facade's handle to the tuner.
    pub fn tuner_handle(&self) -> (handle: TunerHandle)
        ensures
            handle == self@.handle,
    {
        self.tuner
    }

    /// The tuner, reached through the facade's handle.
    pub fn tuner(&self) -> (tuner: &Tuner)
        requires
            self@.wf(),
        ensures
            tuner@ == self@.tuner(),
    {
        self.bank.tuner(self.tuner)
    }

    /// The tuner, reached through the amplifier's handle: `None` while the
    /// amplifier is unbound or its handle is none of the facade's bank.
    pub fn amplifier_tuner(&self) -> (tuner: Option<&Tuner>)
        ensures
            match tuner {
                Some(t) => self@.amplifier_tuner() == Some(t@),
                None => self@.amplifier_tuner() is None,
            },
    {
        match self.amp.tuner() {
            Some(handle) => if self.bank.contains(handle) {
                Some(self.bank.tuner(handle))
            } else {
                None
            },
            None => None,
        }
    }

    /// The bank that stores the tuner, to look at.
    pub fn bank(&self) -> (bank: &TunerBank)
        ensures
            bank@ == self@.bank,
            bank.id() == self@.bank_id,
    {
        &self.bank
    }

    /// The bank that stores the tuner, for a holder of a handle to take an
    /// access on the tuner, use it and give it back. Whatever is done to the
    /// bank is done to the facade's bank.
    pub fn bank_mut(&mut self) -> (bank: &mut TunerBank)
        ensures
            bank@ == old(self)@.bank,
            bank.id() == old(self)@.bank_id,
            final(self)@ == (HomeTheaterView {
                bank: final(bank)@,
                bank_id: final(bank).id(),
                ..old(self)@
            }),
    {
        &mut self.bank
    }
}

/// A new facade is the only holder of its tuner: whatever the amplifier was
/// bound to before, its handle is not the facade's, and it reaches no tuner
/// of the facade's bank.
pub proof fn lemma_new_facade_holds_alone(theater: HomeTheaterView)
    requires
        theater.wf(),
        theater.bank_id == apart_from(theater.amp.tuner),
    ensures
        theater.amp.tuner != Some(theater.handle),
        theater.amplifier_tuner() is None,
{
}

/// Tuning the radio in on a free tuner binds the amplifier to the facade's
/// tuner: afterwards the amplifier's handle and the facade's are one, and
/// the amplifier sees the very tuner that the facade drives, switched on and
/// tuned to the frequency asked for.
pub proof fn lemma_listening_binds_one_tuner(theater: HomeTheaterView, bits: u64)
    requires
        theater.wf(),
        theater.slot().free(),
    ensures
        theater.after_listen(bits) == theater.listening(bits),
        theater.listening(bits).wf(),
        theater.listening(bits).slot().free(),
        theater.listening(bits).amp.tuner == Some(theater.listening(bits).handle),
        theater.listening(bits).amplifier_tuner() == Some(theater.listening(bits).tuner()),
        theater.listening(bits).tuner() == theater.tuner().switched_on().tuned(bits),
        theater.listening(bits).amp == (AmplifierView {
            label: theater.amp.label,
            power: Power::On,
            tuner: Some(theater.handle),
            volume: RADIO_VOLUME,
        }),
{
}

/// Once tuning the radio in has bound the amplifier, the two hold one tuner
/// and no copy. What is tuned through the facade's handle is seen through
/// the amplifier's; what is tuned through the amplifier's handle is seen
/// through the facade's; and tuning in again or shutting down keeps the two
/// bound.
pub proof fn lemma_two_holders_one_tuner(before: HomeTheaterView, first: u64, bits: u64)
    requires
        before.wf(),
        before.slot().free(),
    ensures
        ({
            let bound = before.listening(first);
            &&& bound.tuned_through(bound.handle, bits).amplifier_tuner() == Some(
                bound.tuner().tuned(bits),
            )
            &&& bound.tuned_through(bound.amp.tuner.unwrap(), bits).tuner()
                == bound.tuner().tuned(bits)
            &&& bound.after_listen(bits).amplifier_tuner() == Some(bound.after_listen(bits).tuner())
            &&& bound.after_listen(bits).tuner().frequency_bits == Some(bits)
            &&& bound.after_stop().amplifier_tuner() == Some(bound.after_stop().tuner())
        }),
{
}

/// Shutting down flips the two power states and nothing else: the volume,
/// the amplifier's tuner, the frequency, the labels and the accesses that
/// are out are as before.
pub proof fn lemma_stop_keeps_settings(theater: HomeTheaterView)
    requires
        theater.wf(),
    ensures
        theater.after_stop().wf(),
        theater.after_stop().amp.volume == theater.amp.volume,
        theater.after_stop().amp.tuner == theater.amp.tuner,
        theater.after_stop().amp.label == theater.amp.label,
        theater.after_stop().handle == theater.handle,
        theater.after_stop().tuner().frequency_bits == theater.tuner().frequency_bits,
        theater.after_stop().tuner().label == theater.tuner().label,
        theater.after_stop().slot().readers == theater.slot().readers,
        theater.after_stop().slot().writing == theater.slot().writing,
        theater.slot().can_read() ==> theater.after_stop().amp.power == Power::Off
            && theater.after_stop().tuner().power == Power::Off,
{
}

/// A try to tune the radio in that meets an access conflict takes no write
/// access and tunes nothing: the frequency, the amplifier and the accesses
/// that are out are as before. If it is the write access that is out, the
/// try changes nothing at all; and what its holder then tunes to is the
/// frequency that stands once the access is given back.
pub proof fn lemma_conflict_leaves_the_holder_in_charge(
    theater: HomeTheaterView,
    asked: u64,
    held: u64,
)
    requires
        theater.wf(),
        !theater.slot().free(),
    ensures
        theater.after_listen(asked).wf(),
        theater.after_listen(asked).tuner().frequency_bits == theater.tuner().frequency_bits,
        theater.after_listen(asked).amp == theater.amp,
        theater.after_listen(asked).slot().readers == theater.slot().readers,
        theater.after_listen(asked).slot().writing == theater.slot().writing,
        theater.slot().writing ==> theater.after_listen(asked) == theater,
        theater.slot().writing ==> write_given_back(
            theater.after_listen(asked).tuned_through(theater.handle, held).bank,
            theater.handle.index(),
        )[theater.handle.index()] == (SlotView {
            tuner: theater.tuner().tuned(held),
            readers: 0,
            writing: false,
        }),
{
}

} // verus!
