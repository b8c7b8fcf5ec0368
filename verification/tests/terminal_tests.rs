use libc::{ECHO, ECHOE, ICANON};
use sbcli::terminal::{Echo, ModeBits, TermMode, Termios};

#[test]
fn the_bits_are_libcs() {
    let t = Termios::new(0, 0);
    assert_eq!(t.bits(), ModeBits { icanon: ICANON, echoe: ECHOE, echo: ECHO });
}

#[test]
fn canonical_mode_sets_icanon_and_echoe() {
    let mut t = Termios::new(0, 0);
    assert_eq!(t.set_mode(TermMode::Canonical), ICANON | ECHOE);
    assert_eq!(t.current_lflag(), ICANON | ECHOE);
    assert_eq!(t.original_lflag(), 0);
    assert_eq!(t.fd(), 0);
}

#[test]
fn noncanonical_mode_clears_icanon() {
    let mut t = Termios::new(3, ICANON | ECHOE | ECHO | 0x8000);
    assert_eq!(t.set_mode(TermMode::Noncanonical), ECHOE | ECHO | 0x8000);
    assert_eq!(t.fd(), 3);
    assert_eq!(t.original_lflag(), ICANON | ECHOE | ECHO | 0x8000);
}

#[test]
fn canonical_mode_never_clears_bits() {
    let all = !0;
    let mut t = Termios::new(0, all);
    assert_eq!(t.set_mode(TermMode::Canonical), all);
}

#[test]
fn echo_off_clears_only_echo() {
    let mut t = Termios::new(0, ICANON | ECHO | 0x8000);
    assert_eq!(t.set_echo(Echo::Disable), ICANON | 0x8000);
    assert_eq!(t.original_lflag(), ICANON | ECHO | 0x8000);
}

#[test]
fn echo_off_then_on_restores_the_flags() {
    let mut t = Termios::new(0, ICANON | ECHO);
    t.set_echo(Echo::Disable);
    assert_eq!(t.set_echo(Echo::Enable), ICANON | ECHO);
    let mut u = Termios::new(0, ICANON);
    u.set_echo(Echo::Disable);
    assert_eq!(u.set_echo(Echo::Enable), ICANON | ECHO);
}

#[test]
fn switches_are_idempotent() {
    let mut t = Termios::new(0, 0x100 | ECHO);
    let once = t.set_mode(TermMode::Canonical);
    assert_eq!(t.set_mode(TermMode::Canonical), once);
    let off = t.set_echo(Echo::Disable);
    assert_eq!(t.set_echo(Echo::Disable), off);
    let non = t.set_mode(TermMode::Noncanonical);
    assert_eq!(t.set_mode(TermMode::Noncanonical), non);
}

#[test]
fn mode_and_echo_commute() {
    let start = ICANON | ECHO | 0x8000;
    let mut a = Termios::new(0, start);
    a.set_mode(TermMode::Canonical);
    let x = a.set_echo(Echo::Disable);
    let mut b = Termios::new(0, start);
    b.set_echo(Echo::Disable);
    let y = b.set_mode(TermMode::Canonical);
    assert_eq!(x, y);
    assert_eq!(x, ICANON | ECHOE | 0x8000);
}

#[test]
fn any_sequence_keeps_the_other_bits() {
    let start = 0x8000 | 0x1 | ECHO;
    let mask = ICANON | ECHOE | ECHO;
    let mut t = Termios::new(0, start);
    t.set_mode(TermMode::Canonical);
    t.set_echo(Echo::Disable);
    t.set_mode(TermMode::Noncanonical);
    let last = t.set_echo(Echo::Enable);
    assert_eq!(last & !mask, start & !mask);
    assert_eq!(t.original_lflag(), start);
}

#[test]
fn the_bits_are_distinct_single_bits() {
    let b = Termios::new(0, 0).bits();
    for x in [b.icanon, b.echoe, b.echo] {
        assert_eq!(x.count_ones(), 1);
    }
    assert_eq!(b.icanon & b.echoe, 0);
    assert_eq!((b.icanon | b.echoe) & b.echo, 0);
}

#[test]
fn echo_round_trip_when_echo_was_on() {
    let start = ECHO | ICANON | 0x4000;
    let mut t = Termios::new(0, start);
    assert_eq!(t.set_echo(Echo::Disable) & ECHO, 0);
    assert_eq!(t.set_echo(Echo::Enable), start);
}
