//! Waves and the oscillator's side of the parameter hand-off.

use crate::channel::poll;
use crate::notes::Note;
use crossbeam_channel::Receiver;
use vstd::prelude::*;

verus! {

/// The shape of one period.
#[derive(Debug, Clone, Copy, PartialEq, Eq, Structural)]
pub enum Waveform {
    Silence,
    Sin,
    Saw,
    Square,
    Triangle,
}

/// Amplitude of a wave at full scale, in the unit of [`Wave::amp`].
pub const FULL_SCALE: u32 = 100;

/// What the voice plays: a shape, a pitch and an amplitude. A wave is replaced
/// as a whole, never changed in place by the render path.
#[derive(Debug, Clone, Copy, PartialEq, Eq, Structural)]
pub struct Wave {
    pub waveform: Waveform,
    pub note: Note,
    /// Amplitude in hundredths of full scale. The type does not bound it:
    /// whoever builds the wave keeps it at or below [`FULL_SCALE`].
    pub amp: u32,
}

impl Wave {
    pub fn new(waveform: Waveform, note: Note, amp: u32) -> (wave: Self)
        ensures
            wave == (Wave { waveform, note, amp }),
    {
        Self { waveform, note, amp }
    }
}

/// The wave that plays after one poll of the parameter queue: the polled wave
/// where there was one, else the wave that played before.
pub open spec fn replaced_by(current: Wave, polled: Option<Wave>) -> Wave {
    match polled {
        Some(wave) => wave,
        None => current,
    }
}

/// The render path's state between two samples: the rate of the stream, the
/// wave that plays, and the queue on which its successors arrive.
pub struct Oscilator {
    sample_rate: u32,
    wave: Wave,
    rx: Option<Receiver<Wave>>,
}

impl Oscilator {
    /// The rate of the stream in samples per second.
    pub closed spec fn rate(&self) -> u32 {
        self.sample_rate
    }

    /// The wave that plays.
    pub closed spec fn playing(&self) -> Wave {
        self.wave
    }

    /// The receiving end of the parameter queue, where one is attached.
    pub closed spec fn receiver(&self) -> Option<Receiver<Wave>> {
        self.rx
    }

    /// Whether a parameter queue is attached.
    pub open spec fn attached(&self) -> bool {
        self.receiver() is Some
    }

    pub fn new(sample_rate: u32, wave: Wave) -> (osc: Self)
        ensures
            osc.rate() == sample_rate,
            osc.playing() == wave,
            osc.receiver() is None,
    {
        Self { sample_rate, wave, rx: None }
    }

    pub fn sample_rate(&self) -> (rate: u32)
        ensures
            rate == self.rate(),
    {
        self.sample_rate
    }

    pub fn wave(&self) -> (wave: Wave)
        ensures
            wave == self.playing(),
    {
        self.wave
    }

    /// Attaches the queue on which new waves arrive; an earlier one is let go.
    pub fn add_receiver(&mut self, rx: Receiver<Wave>)
        ensures
            final(self).receiver() == Some(rx),
            final(self).rate() == old(self).rate(),
            final(self).playing() == old(self).playing(),
    {
        self.rx = Some(rx);
    }

    /// The wave that plays after a poll that yielded `polled`.
    pub fn replaced(current: Wave, polled: Option<Wave>) -> (wave: Wave)
        ensures
            wave == replaced_by(current, polled),
    {
        match polled {
            Some(wave) => wave,
            None => current,
        }
    }

    /// The first step of rendering a sample: polls the attached queue once,
    /// without waiting, and lets a wave that arrived take the place of the one
    /// that played. Returns the wave to render. Without a queue nothing changes.
    pub fn poll(&mut self) -> (wave: Wave)
        ensures
            wave == final(self).playing(),
            final(self).rate() == old(self).rate(),
            final(self).receiver() == old(self).receiver(),
            !old(self).attached() ==> *final(self) == *old(self),
    {
        let polled: Option<Wave> = match &self.rx {
            Some(rx) => poll(rx),
            None => None,
        };
        self.wave = Self::replaced(self.wave, polled);
        self.wave
    }
}

} // verus!
