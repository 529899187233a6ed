use crossbeam_channel::{bounded, unbounded, Receiver, SendError};
use synth::channel::MultiSender;
use synth::control::{
    delivery, lower, raise, ChannelSevered, ControlFlow, Event, Input, KeyCode, KeyEvent,
    KeyEventKind, AMP_STEP, INITIAL_AMP,
};
use synth::notes::Note;
use synth::waves::{Wave, Waveform};

fn press(code: KeyCode) -> KeyEvent {
    KeyEvent { code, kind: KeyEventKind::Press }
}

fn listening() -> (Input, Receiver<Wave>) {
    let (tx, rx) = unbounded();
    let mut senders = MultiSender::new();
    senders.push(tx);
    (Input::new(senders), rx)
}

fn initial() -> Wave {
    Wave::new(Waveform::Silence, Note::A4, 30)
}

#[test]
fn controller_starts_with_silence_at_a4() {
    let (input, rx) = listening();
    assert_eq!(input.wave(), initial());
    assert_eq!(INITIAL_AMP, 30);
    assert_eq!(AMP_STEP, 1);
    assert!(rx.try_recv().is_err());
}

#[test]
fn digits_select_the_waveform_and_send_it() {
    let (mut input, rx) = listening();
    let picks = [
        ('2', Waveform::Sin),
        ('3', Waveform::Saw),
        ('4', Waveform::Square),
        ('5', Waveform::Triangle),
        ('1', Waveform::Silence),
    ];
    for (key, waveform) in picks {
        assert_eq!(input.handle_key(press(KeyCode::Char(key))), Ok(ControlFlow::Continue));
        let expected = Wave { waveform, ..initial() };
        assert_eq!(input.wave(), expected);
        assert_eq!(rx.try_recv(), Ok(expected));
    }
    assert!(rx.try_recv().is_err());
}

#[test]
fn other_characters_change_and_send_nothing() {
    let (mut input, rx) = listening();
    assert_eq!(input.handle_key(press(KeyCode::Char('6'))), Ok(ControlFlow::Continue));
    assert_eq!(input.handle_key(press(KeyCode::Char('0'))), Ok(ControlFlow::Continue));
    assert_eq!(input.handle_key(press(KeyCode::Char('q'))), Ok(ControlFlow::Continue));
    assert_eq!(input.handle_key(press(KeyCode::Other)), Ok(ControlFlow::Continue));
    assert_eq!(input.wave(), initial());
    assert!(rx.try_recv().is_err());
}

#[test]
fn horizontal_arrows_move_the_pitch() {
    let (mut input, rx) = listening();
    assert_eq!(input.handle_key(press(KeyCode::Right)), Ok(ControlFlow::Continue));
    assert_eq!(rx.try_recv(), Ok(Wave { note: Note::B4b, ..initial() }));
    assert_eq!(input.handle_key(press(KeyCode::Left)), Ok(ControlFlow::Continue));
    assert_eq!(rx.try_recv(), Ok(initial()));
    assert_eq!(input.handle_key(press(KeyCode::Left)), Ok(ControlFlow::Continue));
    assert_eq!(rx.try_recv(), Ok(Wave { note: Note::A4b, ..initial() }));
    assert_eq!(input.wave().note, Note::A4b);
}

#[test]
fn pitch_stops_at_the_highest_note() {
    let (mut input, rx) = listening();
    for _ in 0..200 {
        assert_eq!(input.handle_key(press(KeyCode::Right)), Ok(ControlFlow::Continue));
    }
    assert_eq!(input.wave().note, Note::B8);
    assert_eq!(rx.try_iter().count(), 200);
    for _ in 0..200 {
        assert_eq!(input.handle_key(press(KeyCode::Left)), Ok(ControlFlow::Continue));
    }
    assert_eq!(input.wave().note, Note::A0);
}

#[test]
fn vertical_arrows_move_the_amplitude_by_one_step() {
    let (mut input, rx) = listening();
    assert_eq!(input.handle_key(press(KeyCode::Up)), Ok(ControlFlow::Continue));
    assert_eq!(rx.try_recv(), Ok(Wave { amp: 31, ..initial() }));
    assert_eq!(input.handle_key(press(KeyCode::Down)), Ok(ControlFlow::Continue));
    assert_eq!(input.handle_key(press(KeyCode::Down)), Ok(ControlFlow::Continue));
    assert_eq!(rx.try_recv(), Ok(initial()));
    assert_eq!(rx.try_recv(), Ok(Wave { amp: 29, ..initial() }));
}

#[test]
fn amplitude_stays_between_zero_and_full_scale() {
    let (mut input, rx) = listening();
    for _ in 0..80 {
        assert_eq!(input.handle_key(press(KeyCode::Up)), Ok(ControlFlow::Continue));
    }
    assert_eq!(input.wave().amp, 100);
    for _ in 0..120 {
        assert_eq!(input.handle_key(press(KeyCode::Down)), Ok(ControlFlow::Continue));
    }
    assert_eq!(input.wave().amp, 0);
    assert_eq!(rx.try_iter().count(), 200);
}

#[test]
fn raise_and_lower_clamp_the_amplitude() {
    assert_eq!(raise(0), 1);
    assert_eq!(raise(30), 31);
    assert_eq!(raise(99), 100);
    assert_eq!(raise(100), 100);
    assert_eq!(raise(250), 100);
    assert_eq!(raise(u32::MAX), 100);
    assert_eq!(lower(0), 0);
    assert_eq!(lower(1), 0);
    assert_eq!(lower(30), 29);
    assert_eq!(lower(100), 99);
    assert_eq!(lower(101), 100);
    assert_eq!(lower(250), 100);
}

#[test]
fn controller_and_senders_can_be_printed() {
    let (input, _rx) = listening();
    let shown = format!("{:?}", input);
    assert!(shown.contains("Silence"));
    assert!(shown.contains("A4"));
    let senders: MultiSender<u8> = MultiSender::new();
    assert!(format!("{:?}", senders).contains("MultiSender"));
}

#[test]
fn escape_quits_without_sending() {
    let (mut input, rx) = listening();
    assert_eq!(input.handle_key(press(KeyCode::Esc)), Ok(ControlFlow::Quit));
    assert_eq!(input.wave(), initial());
    assert!(rx.try_recv().is_err());
}

#[test]
fn only_presses_count() {
    let (mut input, rx) = listening();
    for kind in [KeyEventKind::Release, KeyEventKind::Repeat] {
        for code in [KeyCode::Char('2'), KeyCode::Right, KeyCode::Up, KeyCode::Esc] {
            assert_eq!(input.handle_key(KeyEvent { code, kind }), Ok(ControlFlow::Continue));
        }
    }
    assert_eq!(input.wave(), initial());
    assert!(rx.try_recv().is_err());
}

#[test]
fn resize_sends_the_wave_again() {
    let (mut input, rx) = listening();
    assert_eq!(input.handle_event(Event::Resize), Ok(ControlFlow::Continue));
    assert_eq!(rx.try_recv(), Ok(initial()));
    assert_eq!(input.handle_event(Event::Other), Ok(ControlFlow::Continue));
    assert!(rx.try_recv().is_err());
    let pick = Event::Key(press(KeyCode::Char('3')));
    assert_eq!(input.handle_event(pick), Ok(ControlFlow::Continue));
    assert_eq!(rx.try_recv(), Ok(Wave { waveform: Waveform::Saw, ..initial() }));
    assert_eq!(input.handle_event(Event::Key(press(KeyCode::Esc))), Ok(ControlFlow::Quit));
}

#[test]
fn every_listener_gets_the_wave() {
    let (tx_a, rx_a) = unbounded();
    let (tx_b, rx_b) = unbounded();
    let mut input = Input::new(MultiSender::from(&[tx_a, tx_b]));
    assert_eq!(input.handle_key(press(KeyCode::Char('4'))), Ok(ControlFlow::Continue));
    let expected = Wave { waveform: Waveform::Square, ..initial() };
    assert_eq!(rx_a.try_recv(), Ok(expected));
    assert_eq!(rx_b.try_recv(), Ok(expected));
}

#[test]
fn a_dropped_listener_is_reported() {
    let (tx_a, rx_a) = unbounded();
    let (tx_b, rx_b) = unbounded();
    let mut input = Input::new(MultiSender::from(&[tx_a, tx_b]));
    drop(rx_b);
    assert_eq!(input.handle_key(press(KeyCode::Char('2'))), Err(ChannelSevered));
    let expected = Wave { waveform: Waveform::Sin, ..initial() };
    assert_eq!(input.wave(), expected);
    assert_eq!(rx_a.try_recv(), Ok(expected));
    assert_eq!(input.send_wave(), Err(ChannelSevered));
    assert_eq!(input.handle_event(Event::Resize), Err(ChannelSevered));
    assert_eq!(input.handle_key(press(KeyCode::Esc)), Ok(ControlFlow::Quit));
}

#[test]
fn without_listeners_nothing_fails() {
    let mut input = Input::new(MultiSender::new());
    assert_eq!(input.send_wave(), Ok(ControlFlow::Continue));
    assert_eq!(input.handle_key(press(KeyCode::Up)), Ok(ControlFlow::Continue));
    assert_eq!(input.wave().amp, 31);
}

#[test]
fn delivery_fails_where_one_outcome_is_an_error() {
    let wave = initial();
    assert_eq!(delivery(&vec![]), Ok(ControlFlow::Continue));
    assert_eq!(delivery(&vec![Ok(()), Ok(())]), Ok(ControlFlow::Continue));
    assert_eq!(delivery(&vec![Ok(()), Err(SendError(wave))]), Err(ChannelSevered));
    assert_eq!(delivery(&vec![Err(SendError(wave)), Ok(())]), Err(ChannelSevered));
}

#[test]
fn multi_sender_reports_one_outcome_per_sender() {
    let (tx_a, rx_a) = unbounded();
    let (tx_b, rx_b) = unbounded();
    let mut senders: MultiSender<u32> = MultiSender::new();
    assert!(senders.send(1).is_empty());
    senders.push(tx_a);
    senders.push(tx_b);
    drop(rx_a);
    let outcomes = senders.send(7);
    assert_eq!(outcomes, vec![Err(SendError(7)), Ok(())]);
    assert_eq!(rx_b.try_recv(), Ok(7));
}

#[test]
fn multi_sender_from_shares_the_queues_of_the_given_senders() {
    let (tx, rx) = unbounded();
    let senders = MultiSender::from(&[tx.clone(), tx.clone()]);
    assert_eq!(senders.send(5u8), vec![Ok(()), Ok(())]);
    tx.send(6).unwrap();
    assert_eq!(rx.try_iter().collect::<Vec<u8>>(), vec![5, 5, 6]);
}

#[test]
fn try_send_does_not_wait_for_room() {
    let (tx_full, rx_full) = bounded(1);
    let (tx_gone, rx_gone) = unbounded();
    let (tx_open, rx_open) = unbounded();
    tx_full.send(1u32).unwrap();
    drop(rx_gone);
    let senders = MultiSender::from(&[tx_full, tx_gone, tx_open]);
    let outcomes = senders.try_send(2);
    assert_eq!(outcomes.len(), 3);
    assert!(outcomes[0].as_ref().is_err_and(|e| e.is_full()));
    assert!(outcomes[1].as_ref().is_err_and(|e| e.is_disconnected()));
    assert_eq!(outcomes[2], Ok(()));
    assert_eq!(rx_full.try_recv(), Ok(1));
    assert_eq!(rx_open.try_recv(), Ok(2));
}
