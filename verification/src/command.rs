//! Parsing of the lines typed at the `SBCLI:` prompt.

use vstd::prelude::*;
use vstd::string::StringSliceAdditionalSpecFns;

verus! {

/// A command understood by the interactive shell.
#[derive(PartialEq, Eq, Structural, Debug, Clone, Copy)]
pub enum Command {
    Logout,
    Unknown,
}

/// ASCII whitespace as `u8::is_ascii_whitespace` defines it: space, tab,
/// line feed, form feed and carriage return.
pub open spec fn is_ascii_ws(b: u8) -> bool {
    b == 0x20 || b == 0x09 || b == 0x0a || b == 0x0c || b == 0x0d
}

/// ASCII lower-casing of one byte, as `u8::to_ascii_lowercase`.
pub open spec fn ascii_lower(b: u8) -> u8 {
    if 0x41 <= b && b <= 0x5a {
        (b + 0x20) as u8
    } else {
        b
    }
}

/// The bytes of the word `logout`.
pub open spec fn logout_word() -> Seq<u8> {
    seq![0x6cu8, 0x6fu8, 0x67u8, 0x6fu8, 0x75u8, 0x74u8]
}

/// The first word of a line: the bytes before its first ASCII whitespace.
pub open spec fn first_word(b: Seq<u8>) -> Seq<u8>
    decreases b.len(),
{
    if b.len() == 0 || is_ascii_ws(b[0]) {
        Seq::empty()
    } else {
        seq![b[0]] + first_word(b.drop_first())
    }
}

/// Two byte strings are equal up to ASCII case.
pub open spec fn eq_ignore_ascii_case(a: Seq<u8>, b: Seq<u8>) -> bool {
    a.len() == b.len() && forall|i: int| 0 <= i < a.len() ==> ascii_lower(a[i]) == ascii_lower(b[i])
}

/// The command that a line's bytes name.
pub open spec fn command_of(b: Seq<u8>) -> Command {
    if eq_ignore_ascii_case(first_word(b), logout_word()) {
        Command::Logout
    } else {
        Command::Unknown
    }
}


/// `first_word` is the prefix that ends at the first ASCII whitespace.
proof fn lemma_first_word_prefix(b: Seq<u8>, end: int)
    requires
        0 <= end <= b.len(),
        forall|i: int| 0 <= i < end ==> !is_ascii_ws(#[trigger] b[i]),
        end == b.len() || is_ascii_ws(b[end]),
    ensures
        first_word(b) =~= b.subrange(0, end),
    decreases end,
{
    if end > 0 {
        let t = b.drop_first();
        assert forall|i: int| 0 <= i < end - 1 implies !is_ascii_ws(#[trigger] t[i]) by {
            assert(t[i] == b[i + 1]);
        }
        lemma_first_word_prefix(t, end - 1);
    }
}

/// `u8::is_ascii_whitespace`.
fn byte_is_ascii_ws(b: u8) -> (r: bool)
    ensures
        r == is_ascii_ws(b),
{
    b == 0x20 || b == 0x09 || b == 0x0a || b == 0x0c || b == 0x0d
}

/// `u8::to_ascii_lowercase`.
fn byte_ascii_lower(b: u8) -> (r: u8)
    ensures
        r == ascii_lower(b),
{
    if 0x41 <= b && b <= 0x5a {
        b + 0x20
    } else {
        b
    }
}

/// Splits a line typed at the shell prompt into its command and the rest.
///
/// The command is the line's first word (up to the first ASCII whitespace),
/// compared with `logout` without regard to ASCII case. The remainder that
/// comes back is always empty.
pub fn parse_input(input: &str) -> (r: (Command, &str))
    ensures
        r.0 == command_of(input.spec_bytes()),
        r.1@ == Seq::<char>::empty(),
{
    let bytes = input.as_bytes();
    let mut end: usize = 0;
    while end < bytes.len()
        invariant
            end <= bytes@.len(),
            bytes@ == input.spec_bytes(),
            forall|i: int| 0 <= i < end ==> !is_ascii_ws(#[trigger] bytes@[i]),
        ensures
            end <= bytes@.len(),
            forall|i: int| 0 <= i < end ==> !is_ascii_ws(#[trigger] bytes@[i]),
            end == bytes@.len() || is_ascii_ws(bytes@[end as int]),
        decreases bytes@.len() - end,
    {
        if byte_is_ascii_ws(bytes[end]) {
            break;
        }
        end += 1;
    }
    proof {
        lemma_first_word_prefix(bytes@, end as int);
    }
    let word: [u8; 6] = [0x6c, 0x6f, 0x67, 0x6f, 0x75, 0x74];
    assert(word@ =~= logout_word());
    let mut same = end == 6;
    if same {
        let mut i: usize = 0;
        while i < 6
            invariant
                end == 6,
                end <= bytes@.len(),
                word@ == logout_word(),
                i <= 6,
                same == (forall|k: int| 0 <= k < i ==> ascii_lower(bytes@[k]) == ascii_lower(word@[k])),
            decreases 6 - i,
        {
            let eq = byte_ascii_lower(bytes[i]) == byte_ascii_lower(word[i]);
            same = same && eq;
            i += 1;
        }
    }
    let command = if same { Command::Logout } else { Command::Unknown };
    proof {
        reveal_strlit("");
    }
    (command, "")
}


/// ASCII whitespace is left alone by ASCII lower-casing, and no other byte
/// lower-cases to it.
proof fn lemma_lower_keeps_ws(a: u8, b: u8)
    requires
        ascii_lower(a) == ascii_lower(b),
    ensures
        is_ascii_ws(a) <==> is_ascii_ws(b),
{
}

proof fn lemma_first_word_lower(b1: Seq<u8>, b2: Seq<u8>)
    requires
        eq_ignore_ascii_case(b1, b2),
    ensures
        eq_ignore_ascii_case(first_word(b1), first_word(b2)),
    decreases b1.len(),
{
    if b1.len() > 0 {
        lemma_lower_keeps_ws(b1[0], b2[0]);
        if !is_ascii_ws(b1[0]) {
            let t1 = b1.drop_first();
            let t2 = b2.drop_first();
            assert forall|i: int| 0 <= i < t1.len() implies ascii_lower(t1[i]) == ascii_lower(
                t2[i],
            ) by {
                assert(t1[i] == b1[i + 1] && t2[i] == b2[i + 1]);
            }
            lemma_first_word_lower(t1, t2);
            let f1 = first_word(b1);
            let f2 = first_word(b2);
            assert(f1 == seq![b1[0]] + first_word(t1));
            assert(f2 == seq![b2[0]] + first_word(t2));
            assert forall|i: int| 0 <= i < f1.len() implies ascii_lower(f1[i]) == ascii_lower(
                f2[i],
            ) by {
                if i > 0 {
                    assert(f1[i] == first_word(t1)[i - 1]);
                    assert(f2[i] == first_word(t2)[i - 1]);
                }
            }
        }
    }
}

/// The shell reads a line the same way whatever the ASCII case of its
/// letters: two lines equal up to ASCII case name the same command.
pub proof fn law_command_ignores_ascii_case(b1: Seq<u8>, b2: Seq<u8>)
    requires
        eq_ignore_ascii_case(b1, b2),
    ensures
        command_of(b1) == command_of(b2),
{
    lemma_first_word_lower(b1, b2);
    let f1 = first_word(b1);
    let f2 = first_word(b2);
    let w = logout_word();
    if eq_ignore_ascii_case(f1, w) {
        assert forall|i: int| 0 <= i < f2.len() implies ascii_lower(f2[i]) == ascii_lower(w[i]) by {
            assert(ascii_lower(f1[i]) == ascii_lower(f2[i]));
        }
    }
    if eq_ignore_ascii_case(f2, w) {
        assert forall|i: int| 0 <= i < f1.len() implies ascii_lower(f1[i]) == ascii_lower(w[i]) by {
            assert(ascii_lower(f1[i]) == ascii_lower(f2[i]));
        }
    }
}

proof fn lemma_first_word_stops_at_ws(a: Seq<u8>, b: Seq<u8>)
    requires
        b.len() > 0,
        is_ascii_ws(b[0]),
    ensures
        first_word(a + b) == first_word(a),
    decreases a.len(),
{
    if a.len() == 0 {
        assert(a + b =~= b);
    } else {
        assert((a + b)[0] == a[0]);
        if !is_ascii_ws(a[0]) {
            assert((a + b).drop_first() =~= a.drop_first() + b);
            lemma_first_word_stops_at_ws(a.drop_first(), b);
        }
    }
}

/// Only what comes before the first ASCII whitespace counts: whatever
/// follows a whitespace byte leaves the command unchanged.
pub proof fn law_command_reads_first_word_only(first: Seq<u8>, sep: u8, rest: Seq<u8>)
    requires
        is_ascii_ws(sep),
    ensures
        command_of(first + seq![sep] + rest) == command_of(first),
{
    assert(first + seq![sep] + rest =~= first + (seq![sep] + rest));
    lemma_first_word_stops_at_ws(first, seq![sep] + rest);
}


/// A line names `logout` exactly when it starts with the six letters of
/// `logout` in any ASCII case, followed by the end of the line or by ASCII
/// whitespace.
pub proof fn law_logout_exactly_when(b: Seq<u8>)
    ensures
        command_of(b) == Command::Logout <==> {
            &&& b.len() >= 6
            &&& ascii_lower(b[0]) == 0x6cu8
            &&& ascii_lower(b[1]) == 0x6fu8
            &&& ascii_lower(b[2]) == 0x67u8
            &&& ascii_lower(b[3]) == 0x6fu8
            &&& ascii_lower(b[4]) == 0x75u8
            &&& ascii_lower(b[5]) == 0x74u8
            &&& (b.len() == 6 || is_ascii_ws(b[6]))
        },
{
    let w = logout_word();
    let cond = {
        &&& b.len() >= 6
        &&& ascii_lower(b[0]) == 0x6cu8
        &&& ascii_lower(b[1]) == 0x6fu8
        &&& ascii_lower(b[2]) == 0x67u8
        &&& ascii_lower(b[3]) == 0x6fu8
        &&& ascii_lower(b[4]) == 0x75u8
        &&& ascii_lower(b[5]) == 0x74u8
        &&& (b.len() == 6 || is_ascii_ws(b[6]))
    };
    if cond {
        assert forall|i: int| 0 <= i < 6 implies !is_ascii_ws(#[trigger] b[i]) by {
            assert(ascii_lower(b[i]) == w[i]);
        }
        lemma_first_word_prefix(b, 6);
        assert(first_word(b) =~= b.subrange(0, 6));
        assert forall|i: int| 0 <= i < 6 implies ascii_lower(first_word(b)[i]) == ascii_lower(
            w[i],
        ) by {
            assert(first_word(b)[i] == b[i]);
        }
    }
    if command_of(b) == Command::Logout {
        let f = first_word(b);
        assert(f.len() == 6);
        // the first word is a prefix that stops before whitespace
        lemma_first_word_is_prefix(b);
        assert forall|i: int| 0 <= i < 6 implies ascii_lower(b[i]) == w[i] by {
            assert(f[i] == b[i]);
            assert(ascii_lower(f[i]) == ascii_lower(w[i]));
        }
    }
}

proof fn lemma_first_word_is_prefix(b: Seq<u8>)
    ensures
        first_word(b).len() <= b.len(),
        forall|i: int| 0 <= i < first_word(b).len() ==> #[trigger] first_word(b)[i] == b[i],
        first_word(b).len() == b.len() || is_ascii_ws(b[first_word(b).len() as int]),
    decreases b.len(),
{
    if b.len() > 0 && !is_ascii_ws(b[0]) {
        let t = b.drop_first();
        lemma_first_word_is_prefix(t);
        let f = first_word(b);
        assert(f == seq![b[0]] + first_word(t));
        assert forall|i: int| 0 <= i < f.len() implies #[trigger] f[i] == b[i] by {
            if i > 0 {
                assert(f[i] == first_word(t)[i - 1]);
                assert(t[i - 1] == b[i]);
            }
        }
        if f.len() < b.len() {
            assert(t[first_word(t).len() as int] == b[f.len() as int]);
        }
    }
}

} // verus!
