use eoip::state::TunnelState;

#[test]
fn got_packet_reports_only_the_rising_edge() {
    let mut s = TunnelState::Down;
    assert!(s.got_packet(1_000));
    assert_eq!(s, TunnelState::Up { last_packet: 1_000 });
    assert!(!s.got_packet(2_000));
    assert_eq!(s, TunnelState::Up { last_packet: 2_000 });
}

#[test]
fn two_packets_from_down_yield_true_then_false() {
    let mut s = TunnelState::Down;
    let first = s.got_packet(5);
    let second = s.got_packet(6);
    assert_eq!((first, second), (true, false));
}

#[test]
fn check_timeout_waits_for_strictly_more_than_the_threshold() {
    let mut s = TunnelState::Up { last_packet: 1_000 };
    assert!(!s.check_timeout(61_000, 60_000));
    assert_eq!(s, TunnelState::Up { last_packet: 1_000 });
    assert!(s.check_timeout(61_001, 60_000));
    assert_eq!(s, TunnelState::Down);
    assert!(!s.check_timeout(200_000, 60_000));
    assert_eq!(s, TunnelState::Down);
}

#[test]
fn check_timeout_on_a_clock_behind_the_last_packet_keeps_it_up() {
    let mut s = TunnelState::Up { last_packet: 9_000 };
    assert!(!s.check_timeout(1_000, 0));
    assert!(s.is_up());
}

#[test]
fn up_and_down_commands_alternate_over_a_run() {
    let mut s = TunnelState::Down;
    let mut commands: Vec<bool> = Vec::new();
    let mut t: u64 = 0;
    for round in 0..6u64 {
        for _ in 0..(round % 3) {
            t += 1_000;
            if s.got_packet(t) {
                commands.push(true);
            }
        }
        t += 5_000;
        if s.check_timeout(t, 4_000) {
            commands.push(false);
        }
    }
    assert!(!commands.is_empty());
    assert!(commands[0]);
    for w in commands.windows(2) {
        assert_ne!(w[0], w[1]);
    }
}
