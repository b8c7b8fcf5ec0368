//! The terminal line-discipline flags the client switches while it asks for
//! input: canonical mode and echo.

use vstd::prelude::*;

verus! {

/// The input mode the client puts the terminal in.
#[derive(PartialEq, Eq, Structural, Debug, Clone, Copy)]
pub enum TermMode {
    Canonical,
    Noncanonical,
}

/// Whether typed characters are echoed back.
#[derive(PartialEq, Eq, Structural, Debug, Clone, Copy)]
pub enum Echo {
    Enable,
    Disable,
}

/// The local-mode bits that the client switches, with the values the
/// target's `libc` gives them.
#[derive(PartialEq, Eq, Structural, Debug, Clone, Copy)]
pub struct ModeBits {
    /// `ICANON`: canonical input.
    pub icanon: libc::tcflag_t,
    /// `ECHOE`: erase echoes as backspace-space-backspace.
    pub echoe: libc::tcflag_t,
    /// `ECHO`: echo typed characters.
    pub echo: libc::tcflag_t,
}

/// `x` has exactly one bit set.
pub open spec fn is_single_bit(x: libc::tcflag_t) -> bool {
    x != 0 && x & ((x - 1) as libc::tcflag_t) == 0
}

/// What holds of libc's `ICANON`, `ECHOE` and `ECHO` on every target: each
/// is a single bit, and no two are the same.
pub open spec fn valid_mode_bits(b: ModeBits) -> bool {
    &&& is_single_bit(b.icanon)
    &&& is_single_bit(b.echoe)
    &&& is_single_bit(b.echo)
    &&& b.icanon & b.echoe == 0
    &&& (b.icanon | b.echoe) & b.echo == 0
}

/// Reads `libc::ICANON`, `libc::ECHOE` and `libc::ECHO`. Their values
/// differ between targets (`ICANON` is 0x2 on most Linux targets and 0x100
/// on the BSDs and Linux powerpc; `ECHO` is 0x4 on cygwin), so the contract
/// claims only what every target's definition in libc shows: three
/// distinct single bits.
#[verifier::external_body]
fn mode_bits() -> (b: ModeBits)
    ensures
        valid_mode_bits(b),
{
    ModeBits { icanon: libc::ICANON, echoe: libc::ECHOE, echo: libc::ECHO }
}

/// All the bits the client may switch.
pub open spec fn switched_mask(bits: ModeBits) -> libc::tcflag_t {
    bits.icanon | bits.echoe | bits.echo
}

/// The local-mode flags after switching to `mode`: canonical mode sets
/// `ICANON` and `ECHOE`, non-canonical mode clears `ICANON`.
pub open spec fn mode_lflag(flags: libc::tcflag_t, mode: TermMode, bits: ModeBits) -> libc::tcflag_t {
    match mode {
        TermMode::Canonical => flags | bits.icanon | bits.echoe,
        TermMode::Noncanonical => flags & !bits.icanon,
    }
}

/// The local-mode flags after switching echo on or off.
pub open spec fn echo_lflag(flags: libc::tcflag_t, status: Echo, bits: ModeBits) -> libc::tcflag_t {
    match status {
        Echo::Disable => flags & !bits.echo,
        Echo::Enable => flags | bits.echo,
    }
}

/// One change the client can make to the terminal.
pub enum Switch {
    Mode(TermMode),
    EchoSwitch(Echo),
}

/// The local-mode flags after a sequence of changes, applied in order.
pub open spec fn apply_switches(flags: libc::tcflag_t, switches: Seq<Switch>, bits: ModeBits) -> libc::tcflag_t
    decreases switches.len(),
{
    if switches.len() == 0 {
        flags
    } else {
        let next = match switches[0] {
            Switch::Mode(m) => mode_lflag(flags, m, bits),
            Switch::EchoSwitch(e) => echo_lflag(flags, e, bits),
        };
        apply_switches(next, switches.drop_first(), bits)
    }
}

/// The local-mode flags of a terminal, as read when the client starts
/// (`original`) and as the client has changed them since (`current`),
/// with the values of the bits it switches. The caller reads the
/// attributes, hands over `c_lflag`, and writes `current_lflag` back after
/// each change; `original_lflag` is what the terminal is restored to at the
/// end.
pub struct Termios {
    fd: i32,
    bits: ModeBits,
    original: libc::tcflag_t,
    current: libc::tcflag_t,
}

impl Termios {
    pub closed spec fn spec_fd(&self) -> i32 {
        self.fd
    }

    pub closed spec fn spec_bits(&self) -> ModeBits {
        self.bits
    }

    pub closed spec fn spec_original(&self) -> libc::tcflag_t {
        self.original
    }

    pub closed spec fn spec_current(&self) -> libc::tcflag_t {
        self.current
    }

    /// Starts from the attributes read from `fd`, with `lflag` their
    /// local-mode flags; nothing has been changed yet. The bits to switch
    /// are libc's `ICANON`, `ECHOE` and `ECHO`.
    pub fn new(fd: i32, lflag: libc::tcflag_t) -> (t: Termios)
        ensures
            t.spec_fd() == fd,
            t.spec_original() == lflag,
            t.spec_current() == lflag,
            valid_mode_bits(t.spec_bits()),
    {
        let bits = mode_bits();
        Termios { fd, bits, original: lflag, current: lflag }
    }

    /// Switches the input mode and returns the local-mode flags to write to
    /// the terminal.
    pub fn set_mode(&mut self, mode: TermMode) -> (applied: libc::tcflag_t)
        ensures
            final(self).spec_current() == mode_lflag(old(self).spec_current(), mode, old(self).spec_bits()),
            final(self).spec_original() == old(self).spec_original(),
            final(self).spec_fd() == old(self).spec_fd(),
            final(self).spec_bits() == old(self).spec_bits(),
            applied == final(self).spec_current(),
    {
        match mode {
            TermMode::Canonical => {
                self.current = self.current | self.bits.icanon;
                self.current = self.current | self.bits.echoe;
            },
            TermMode::Noncanonical => {
                self.current = self.current & !self.bits.icanon;
            },
        }
        self.current
    }

    /// Switches echo on or off and returns the local-mode flags to write to
    /// the terminal.
    pub fn set_echo(&mut self, status: Echo) -> (applied: libc::tcflag_t)
        ensures
            final(self).spec_current() == echo_lflag(old(self).spec_current(), status, old(self).spec_bits()),
            final(self).spec_original() == old(self).spec_original(),
            final(self).spec_fd() == old(self).spec_fd(),
            final(self).spec_bits() == old(self).spec_bits(),
            applied == final(self).spec_current(),
    {
        match status {
            Echo::Disable => {
                self.current = self.current & !self.bits.echo;
            },
            Echo::Enable => {
                self.current = self.current | self.bits.echo;
            },
        }
        self.current
    }

    /// The descriptor whose attributes these are.
    pub fn fd(&self) -> (fd: i32)
        ensures
            fd == self.spec_fd(),
    {
        self.fd
    }

    /// The bits this terminal's switches set and clear.
    pub fn bits(&self) -> (b: ModeBits)
        ensures
            b == self.spec_bits(),
    {
        self.bits
    }

    /// The local-mode flags the terminal had at the start.
    pub fn original_lflag(&self) -> (f: libc::tcflag_t)
        ensures
            f == self.spec_original(),
    {
        self.original
    }

    /// The local-mode flags as the client has set them.
    pub fn current_lflag(&self) -> (f: libc::tcflag_t)
        ensures
            f == self.spec_current(),
    {
        self.current
    }
}


/// Turning echo off and on again gives back the flags the terminal had,
/// with `ECHO` set; when echo was on to begin with, nothing has changed.
pub proof fn law_echo_off_then_on(flags: libc::tcflag_t, bits: ModeBits)
    requires
        valid_mode_bits(bits),
    ensures
        echo_lflag(echo_lflag(flags, Echo::Disable, bits), Echo::Enable, bits) == flags | bits.echo,
        flags & bits.echo != 0 ==> echo_lflag(
            echo_lflag(flags, Echo::Disable, bits),
            Echo::Enable,
            bits,
        ) == flags,
{
    let e = bits.echo;
    assert((flags & !e) | e == flags | e) by (bit_vector);
    assert(e & ((e - 1) as libc::tcflag_t) == 0 && flags & e != 0 ==> flags | e == flags)
        by (bit_vector);
}

/// Switching echo touches the `ECHO` bits alone: they are clear after
/// `Disable`, set after `Enable`, and every other bit keeps its value.
pub proof fn law_echo_touches_echo_bits_only(flags: libc::tcflag_t, status: Echo, bits: ModeBits)
    ensures
        echo_lflag(flags, status, bits) & !bits.echo == flags & !bits.echo,
        status == Echo::Enable ==> echo_lflag(flags, status, bits) & bits.echo == bits.echo,
        status == Echo::Disable ==> echo_lflag(flags, status, bits) & bits.echo == 0,
{
    let e = bits.echo;
    assert((flags & !e) & !e == flags & !e) by (bit_vector);
    assert((flags | e) & !e == flags & !e) by (bit_vector);
    assert((flags & !e) & e == 0) by (bit_vector);
    assert((flags | e) & e == e) by (bit_vector);
}

/// Switching the mode touches `ICANON` and `ECHOE` alone: canonical mode
/// sets both, non-canonical mode clears `ICANON` and leaves every other bit,
/// and no other bit changes in either mode.
pub proof fn law_mode_touches_mode_bits_only(flags: libc::tcflag_t, mode: TermMode, bits: ModeBits)
    ensures
        mode_lflag(flags, mode, bits) & !(bits.icanon | bits.echoe) == flags & !(bits.icanon
            | bits.echoe),
        mode == TermMode::Canonical ==> mode_lflag(flags, mode, bits) & (bits.icanon | bits.echoe)
            == bits.icanon | bits.echoe,
        mode == TermMode::Noncanonical ==> mode_lflag(flags, mode, bits) & bits.icanon == 0,
        mode == TermMode::Noncanonical ==> mode_lflag(flags, mode, bits) & !bits.icanon == flags
            & !bits.icanon,
{
    let i = bits.icanon;
    let c = bits.echoe;
    assert((flags | i | c) & !(i | c) == flags & !(i | c)) by (bit_vector);
    assert((flags & !i) & !(i | c) == flags & !(i | c)) by (bit_vector);
    assert((flags | i | c) & (i | c) == i | c) by (bit_vector);
    assert((flags & !i) & i == 0) by (bit_vector);
    assert((flags & !i) & !i == flags & !i) by (bit_vector);
}

/// Switching the mode twice is the same as switching it once, and so is
/// switching echo twice.
pub proof fn law_switches_are_idempotent(flags: libc::tcflag_t, mode: TermMode, status: Echo, bits: ModeBits)
    ensures
        mode_lflag(mode_lflag(flags, mode, bits), mode, bits) == mode_lflag(flags, mode, bits),
        echo_lflag(echo_lflag(flags, status, bits), status, bits) == echo_lflag(flags, status, bits),
{
    let i = bits.icanon;
    let c = bits.echoe;
    let e = bits.echo;
    assert((flags | i | c) | i | c == flags | i | c) by (bit_vector);
    assert((flags & !i) & !i == flags & !i) by (bit_vector);
    assert((flags & !e) & !e == flags & !e) by (bit_vector);
    assert((flags | e) | e == flags | e) by (bit_vector);
}

/// The mode and the echo setting are independent: applying them in either
/// order gives the same flags.
pub proof fn law_mode_and_echo_commute(flags: libc::tcflag_t, mode: TermMode, status: Echo, bits: ModeBits)
    requires
        valid_mode_bits(bits),
    ensures
        echo_lflag(mode_lflag(flags, mode, bits), status, bits) == mode_lflag(
            echo_lflag(flags, status, bits),
            mode,
            bits,
        ),
{
    let i = bits.icanon;
    let c = bits.echoe;
    let e = bits.echo;
    assert((i | c) & e == 0 ==> (flags | i | c) & !e == (flags & !e) | i | c) by (bit_vector);
    assert((flags & !i) & !e == (flags & !e) & !i) by (bit_vector);
    assert((flags | i | c) | e == (flags | e) | i | c) by (bit_vector);
    assert((i | c) & e == 0 ==> (flags & !i) | e == (flags | e) & !i) by (bit_vector);
}

proof fn lemma_switch_keeps_other_bits(flags: libc::tcflag_t, switch: Switch, bits: ModeBits)
    ensures
        ({
            let next = match switch {
                Switch::Mode(m) => mode_lflag(flags, m, bits),
                Switch::EchoSwitch(s) => echo_lflag(flags, s, bits),
            };
            next & !switched_mask(bits) == flags & !switched_mask(bits)
        }),
{
    let i = bits.icanon;
    let c = bits.echoe;
    let e = bits.echo;
    assert((flags | i | c) & !(i | c | e) == flags & !(i | c | e)) by (bit_vector);
    assert((flags & !i) & !(i | c | e) == flags & !(i | c | e)) by (bit_vector);
    assert((flags & !e) & !(i | c | e) == flags & !(i | c | e)) by (bit_vector);
    assert((flags | e) & !(i | c | e) == flags & !(i | c | e)) by (bit_vector);
}

/// Whatever sequence of mode and echo changes the client makes, the flags
/// differ from the ones it started from in the `ICANON`, `ECHOE` and `ECHO`
/// bits at most.
pub proof fn law_switches_keep_other_bits(flags: libc::tcflag_t, switches: Seq<Switch>, bits: ModeBits)
    ensures
        apply_switches(flags, switches, bits) & !switched_mask(bits) == flags & !switched_mask(bits),
    decreases switches.len(),
{
    if switches.len() > 0 {
        let next = match switches[0] {
            Switch::Mode(m) => mode_lflag(flags, m, bits),
            Switch::EchoSwitch(s) => echo_lflag(flags, s, bits),
        };
        lemma_switch_keeps_other_bits(flags, switches[0], bits);
        law_switches_keep_other_bits(next, switches.drop_first(), bits);
    }
}

} // verus!
