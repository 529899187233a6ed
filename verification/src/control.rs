//! The controller: it owns the wave that the user shapes with the keyboard
//! and sends a snapshot of it to every listener whenever a control changes.

use crate::channel::MultiSender;
use crate::notes::{in_range, lemma_navigation_saturates, Note};
use crate::waves::{Wave, Waveform, FULL_SCALE};
use crossbeam_channel::{SendError, Sender};
use vstd::prelude::*;

verus! {

/// By how much one key press changes the amplitude, in the unit of
/// [`Wave::amp`].
pub const AMP_STEP: u32 = 1;

/// Amplitude of the wave that a new controller starts with.
pub const INITIAL_AMP: u32 = 30;

/// The keys that the controller tells apart.
#[derive(Debug, Clone, Copy, PartialEq, Eq, Structural)]
pub enum KeyCode {
    Char(char),
    Right,
    Left,
    Up,
    Down,
    Esc,
    Other,
}

/// What happened to a key.
#[derive(Debug, Clone, Copy, PartialEq, Eq, Structural)]
pub enum KeyEventKind {
    Press,
    Repeat,
    Release,
}

#[derive(Debug, Clone, Copy, PartialEq, Eq, Structural)]
pub struct KeyEvent {
    pub code: KeyCode,
    pub kind: KeyEventKind,
}

/// What the terminal reports.
#[derive(Debug, Clone, Copy, PartialEq, Eq, Structural)]
pub enum Event {
    Key(KeyEvent),
    /// The terminal changed its size.
    Resize,
    Other,
}

/// Whether the controller goes on reading events.
#[derive(Debug, Clone, Copy, PartialEq, Eq, Structural)]
pub enum ControlFlow {
    Continue,
    Quit,
}

/// A listener is gone: its end of the parameter channel was dropped, so the
/// wave did not reach it.
#[derive(Debug, Clone, Copy, PartialEq, Eq, Structural)]
pub struct ChannelSevered;

/// The amplitude in `[0, FULL_SCALE]` that is nearest to `amp`.
pub open spec fn clamp_amp(amp: int) -> u32 {
    if amp < 0 {
        0
    } else if amp > FULL_SCALE {
        FULL_SCALE
    } else {
        amp as u32
    }
}

/// The waveform that a character key selects, if it selects one.
pub open spec fn waveform_of(c: char) -> Option<Waveform> {
    if c == '1' {
        Some(Waveform::Silence)
    } else if c == '2' {
        Some(Waveform::Sin)
    } else if c == '3' {
        Some(Waveform::Saw)
    } else if c == '4' {
        Some(Waveform::Square)
    } else if c == '5' {
        Some(Waveform::Triangle)
    } else {
        None
    }
}

/// The wave after the key event: a pressed digit selects the waveform, the
/// horizontal arrows move the pitch by a semitone, the vertical arrows the
/// amplitude by a step; every other event leaves the wave as it is.
pub open spec fn wave_after(wave: Wave, key_event: KeyEvent) -> Wave {
    if key_event.kind != KeyEventKind::Press {
        wave
    } else {
        match key_event.code {
            KeyCode::Char(c) => match waveform_of(c) {
                Some(waveform) => Wave { waveform, ..wave },
                None => wave,
            },
            KeyCode::Right => Wave { note: wave.note.next_spec(), ..wave },
            KeyCode::Left => Wave { note: wave.note.prev_spec(), ..wave },
            KeyCode::Up => Wave { amp: clamp_amp(wave.amp + AMP_STEP), ..wave },
            KeyCode::Down => Wave { amp: clamp_amp(wave.amp - AMP_STEP), ..wave },
            _ => wave,
        }
    }
}

/// The bounds that the controller keeps its wave in: the amplitude at most
/// full scale, the pitch between `A0` and `B8`.
pub open spec fn within_controls(wave: Wave) -> bool {
    &&& wave.amp <= FULL_SCALE
    &&& in_range(wave.note.ordinal_spec() as int)
}

/// No key takes the wave out of the bounds of the controls, and the arrows
/// bring what they move into them.
pub proof fn lemma_keys_keep_within_controls(wave: Wave, key_event: KeyEvent)
    ensures
        within_controls(wave) ==> within_controls(wave_after(wave, key_event)),
        key_event.kind == KeyEventKind::Press && (key_event.code == KeyCode::Up || key_event.code
            == KeyCode::Down) ==> wave_after(wave, key_event).amp <= FULL_SCALE,
        key_event.kind == KeyEventKind::Press && (key_event.code == KeyCode::Right
            || key_event.code == KeyCode::Left) ==> in_range(
            wave_after(wave, key_event).note.ordinal_spec() as int,
        ),
{
    lemma_navigation_saturates(wave.note);
}

/// Whether the key event asks the controller to stop.
pub open spec fn quits(key_event: KeyEvent) -> bool {
    key_event.kind == KeyEventKind::Press && key_event.code == KeyCode::Esc
}

/// Whether the key event makes the controller send its wave.
pub open spec fn sends(key_event: KeyEvent) -> bool {
    key_event.kind == KeyEventKind::Press && match key_event.code {
        KeyCode::Char(c) => waveform_of(c) is Some,
        KeyCode::Right | KeyCode::Left | KeyCode::Up | KeyCode::Down => true,
        _ => false,
    }
}

/// What the controller makes of the outcomes of one round of sending: it goes
/// on where every listener took the wave, and reports the severed channel
/// where one did not.
pub open spec fn delivery_of<E>(outcomes: Seq<Result<(), E>>) -> Result<
    ControlFlow,
    ChannelSevered,
> {
    if forall|i: int| 0 <= i < outcomes.len() ==> (#[trigger] outcomes[i]) is Ok {
        Ok(ControlFlow::Continue)
    } else {
        Err(ChannelSevered)
    }
}

/// See [`delivery_of`].
pub fn delivery(outcomes: &Vec<Result<(), SendError<Wave>>>) -> (result: Result<
    ControlFlow,
    ChannelSevered,
>)
    ensures
        result == delivery_of(outcomes@),
{
    let mut i: usize = 0;
    while i < outcomes.len()
        invariant
            i <= outcomes@.len(),
            forall|k: int| 0 <= k < i ==> (#[trigger] outcomes@[k]) is Ok,
        decreases outcomes@.len() - i,
    {
        if outcomes[i].is_err() {
            return Err(ChannelSevered);
        }
        i += 1;
    }
    Ok(ControlFlow::Continue)
}

/// What one round of sending to `listeners` listeners can come to: the
/// controller goes on or reports a severed channel, as the listeners decide;
/// without listeners nothing can fail.
pub open spec fn send_outcome(listeners: nat, result: Result<ControlFlow, ChannelSevered>) -> bool {
    &&& result == Ok::<ControlFlow, ChannelSevered>(ControlFlow::Continue) || result == Err::<
        ControlFlow,
        ChannelSevered,
    >(ChannelSevered)
    &&& listeners == 0 ==> result is Ok
}

/// What handling a key event can come to: the escape key stops the
/// controller, a key that changes a control sends the wave, and every other
/// event lets the controller go on.
pub open spec fn key_outcome(
    key_event: KeyEvent,
    listeners: nat,
    result: Result<ControlFlow, ChannelSevered>,
) -> bool {
    if quits(key_event) {
        result == Ok::<ControlFlow, ChannelSevered>(ControlFlow::Quit)
    } else if sends(key_event) {
        send_outcome(listeners, result)
    } else {
        result == Ok::<ControlFlow, ChannelSevered>(ControlFlow::Continue)
    }
}

/// The amplitude one step up, at most [`FULL_SCALE`].
pub fn raise(amp: u32) -> (raised: u32)
    ensures
        raised == clamp_amp(amp + AMP_STEP),
{
    if amp >= FULL_SCALE - AMP_STEP {
        FULL_SCALE
    } else {
        amp + AMP_STEP
    }
}

/// The amplitude one step down, at least 0 and at most [`FULL_SCALE`].
pub fn lower(amp: u32) -> (lowered: u32)
    ensures
        lowered == clamp_amp(amp - AMP_STEP),
{
    if amp <= AMP_STEP {
        0
    } else if amp - AMP_STEP > FULL_SCALE {
        FULL_SCALE
    } else {
        amp - AMP_STEP
    }
}

/// The controller's state: the wave as the user left it, and the senders of
/// the channels on which its snapshots go out.
#[derive(Debug)]
pub struct Input {
    wave: Wave,
    tx: MultiSender<Wave>,
}

impl Input {
    #[verifier::type_invariant]
    spec fn inv(&self) -> bool {
        within_controls(self.wave)
    }

    /// The wave as the user left it: the last one that was sent.
    pub closed spec fn current(&self) -> Wave {
        self.wave
    }

    /// The senders of the channels on which the wave goes out, in the order
    /// in which they are served.
    pub closed spec fn senders(&self) -> Seq<Sender<Wave>> {
        self.tx.senders()
    }

    /// The number of listeners.
    pub open spec fn listeners(&self) -> nat {
        self.senders().len()
    }

    /// A controller that starts with silence at `A4`.
    pub fn new(tx: MultiSender<Wave>) -> (input: Self)
        ensures
            input.current() == (Wave {
                waveform: Waveform::Silence,
                note: Note::A4,
                amp: INITIAL_AMP,
            }),
            input.senders() == tx.senders(),
    {
        Self { wave: Wave::new(Waveform::Silence, Note::A4, INITIAL_AMP), tx }
    }

    /// The wave as the user left it. It is always within the bounds of the
    /// controls.
    pub fn wave(&self) -> (wave: Wave)
        ensures
            wave == self.current(),
            within_controls(wave),
    {
        proof {
            use_type_invariant(self);
        }
        self.wave
    }

    /// Handles one event of the terminal: a key event as [`Input::handle_key`]
    /// does; a change of size sends the wave again, so that it is drawn anew;
    /// anything else is passed over.
    pub fn handle_event(&mut self, event: Event) -> (result: Result<ControlFlow, ChannelSevered>)
        ensures
            final(self).senders() == old(self).senders(),
            final(self).current() == match event {
                Event::Key(key_event) => wave_after(old(self).current(), key_event),
                _ => old(self).current(),
            },
            match event {
                Event::Key(key_event) => key_outcome(key_event, old(self).listeners(), result),
                Event::Resize => send_outcome(old(self).listeners(), result),
                Event::Other => result == Ok::<ControlFlow, ChannelSevered>(ControlFlow::Continue),
            },
    {
        match event {
            Event::Key(key_event) => self.handle_key(key_event),
            Event::Resize => self.send_wave(),
            Event::Other => Ok(ControlFlow::Continue),
        }
    }

    /// Applies a key event to the wave and sends the new wave to every
    /// listener where the key changed a control. The wave keeps its new value
    /// also where a listener is gone.
    pub fn handle_key(&mut self, key_event: KeyEvent) -> (result: Result<
        ControlFlow,
        ChannelSevered,
    >)
        ensures
            final(self).senders() == old(self).senders(),
            final(self).current() == wave_after(old(self).current(), key_event),
            key_outcome(key_event, old(self).listeners(), result),
    {
        proof {
            use_type_invariant(&*self);
        }
        match key_event.kind {
            KeyEventKind::Press => match key_event.code {
                KeyCode::Char('1') => {
                    self.wave.waveform = Waveform::Silence;
                    self.send_wave()
                },
                KeyCode::Char('2') => {
                    self.wave.waveform = Waveform::Sin;
                    self.send_wave()
                },
                KeyCode::Char('3') => {
                    self.wave.waveform = Waveform::Saw;
                    self.send_wave()
                },
                KeyCode::Char('4') => {
                    self.wave.waveform = Waveform::Square;
                    self.send_wave()
                },
                KeyCode::Char('5') => {
                    self.wave.waveform = Waveform::Triangle;
                    self.send_wave()
                },
                KeyCode::Right => {
                    self.wave.note = self.wave.note.next_note();
                    self.send_wave()
                },
                KeyCode::Left => {
                    self.wave.note = self.wave.note.prev_note();
                    self.send_wave()
                },
                KeyCode::Up => {
                    self.wave.amp = raise(self.wave.amp);
                    self.send_wave()
                },
                KeyCode::Down => {
                    self.wave.amp = lower(self.wave.amp);
                    self.send_wave()
                },
                KeyCode::Esc => Ok(ControlFlow::Quit),
                _ => Ok(ControlFlow::Continue),
            },
            _ => Ok(ControlFlow::Continue),
        }
    }

    /// Sends the wave to every listener.
    pub fn send_wave(&self) -> (result: Result<ControlFlow, ChannelSevered>)
        ensures
            send_outcome(self.listeners(), result),
    {
        let outcomes = self.tx.send(self.wave);
        delivery(&outcomes)
    }
}

} // verus!
