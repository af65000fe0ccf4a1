use conway_life::playback::{
    apply_command, decode_command, get_time_now, tick, Action, Command, Playback,
    FRAME_INTERVAL_MS,
};

#[test]
fn bytes_decode_to_their_commands() {
    assert_eq!(decode_command(b'q'), Command::Quit);
    assert_eq!(decode_command(b'c'), Command::ClearScreen);
    assert_eq!(decode_command(b's'), Command::Start);
    assert_eq!(decode_command(b'a'), Command::ShowBanner);
    assert_eq!(decode_command(b'x'), Command::Other);
    assert_eq!(decode_command(0), Command::Other);
    assert_eq!(decode_command(b'Q'), Command::Other);
}

#[test]
fn start_begins_autoplay_and_records_the_time() {
    let mut pb = Playback { playing: false, last_step_time: 0 };
    let act = apply_command(&mut pb, Command::Start, 12345);
    assert_eq!(act, Action::PaintState);
    assert!(pb.playing);
    assert_eq!(pb.last_step_time, 12345);
}

#[test]
fn other_commands_leave_playback_alone() {
    let before = Playback { playing: false, last_step_time: 77 };
    for (cmd, act) in [
        (Command::Quit, Action::Quit),
        (Command::ClearScreen, Action::ClearScreen),
        (Command::ShowBanner, Action::ShowBanner),
        (Command::Other, Action::DoNothing),
    ] {
        let mut pb = before;
        assert_eq!(apply_command(&mut pb, cmd, 99999), act);
        assert_eq!(pb, before);
    }
}

#[test]
fn one_elapsed_interval_fires_exactly_one_step() {
    // Frame interval 200 ms: entering Running at t=1000 and looking at the
    // clock at t=1250 fires exactly one evolve-and-paint cycle, and the
    // reference point advances by exactly one interval.
    assert_eq!(FRAME_INTERVAL_MS, 200);
    let mut pb = Playback { playing: false, last_step_time: 0 };
    apply_command(&mut pb, Command::Start, 1000);
    let stepped = tick(&mut pb, 1250);
    assert!(stepped);
    assert_eq!(pb.last_step_time, 1200);
    assert!(pb.playing);
    // the same clock reading does not fire a second time
    let again = tick(&mut pb, 1250);
    assert!(!again);
    assert_eq!(pb.last_step_time, 1200);
}

#[test]
fn no_step_before_the_interval_has_passed() {
    let mut pb = Playback { playing: true, last_step_time: 1000 };
    assert!(!tick(&mut pb, 1000));
    assert!(!tick(&mut pb, 1100));
    // exactly one interval elapsed is not yet "more than"
    assert!(!tick(&mut pb, 1200));
    assert_eq!(pb, Playback { playing: true, last_step_time: 1000 });
}

#[test]
fn stopped_playback_never_steps() {
    let mut pb = Playback { playing: false, last_step_time: 0 };
    assert!(!tick(&mut pb, u64::MAX));
    assert_eq!(pb, Playback { playing: false, last_step_time: 0 });
}

#[test]
fn clock_readings_do_not_decrease_in_a_short_span() {
    let a = get_time_now();
    let b = get_time_now();
    assert!(b >= a);
    assert!(a > 0);
}
