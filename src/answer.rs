use vstd::prelude::*;

verus! {

/// What the player answered to a prompt.
#[derive(Clone, Copy, Debug, PartialEq, Eq, Structural)]
pub enum Answer {
    Yes,
    No,
    Other,
}

/// The characters with the Unicode property White_Space.
pub open spec fn is_white_space(c: char) -> bool {
    ||| '\u{9}' <= c <= '\u{d}'
    ||| c == ' '
    ||| c == '\u{85}'
    ||| c == '\u{a0}'
    ||| c == '\u{1680}'
    ||| '\u{2000}' <= c <= '\u{200a}'
    ||| c == '\u{2028}'
    ||| c == '\u{2029}'
    ||| c == '\u{202f}'
    ||| c == '\u{205f}'
    ||| c == '\u{3000}'
}

/// `s` without its leading whitespace.
pub open spec fn trim_start(s: Seq<char>) -> Seq<char>
    decreases s.len(),
{
    if s.len() > 0 && is_white_space(s[0]) {
        trim_start(s.drop_first())
    } else {
        s
    }
}

/// `s` without its trailing whitespace.
pub open spec fn trim_end(s: Seq<char>) -> Seq<char>
    decreases s.len(),
{
    if s.len() > 0 && is_white_space(s.last()) {
        trim_end(s.drop_last())
    } else {
        s
    }
}

/// `s` without leading and trailing whitespace.
pub open spec fn trimmed(s: Seq<char>) -> Seq<char> {
    trim_end(trim_start(s))
}

/// Relies on `str::trim`: it drops the leading and trailing characters that
/// have the Unicode property White_Space.
#[verifier::external_body]
fn trim(s: &str) -> (r: &str)
    ensures
        r@ == trimmed(s@),
{
    s.trim()
}

/// The answer that an already trimmed line stands for: exactly `Y` or `N`,
/// case-sensitive; anything else is no answer.
pub open spec fn answer_of(t: Seq<char>) -> Answer {
    if t == seq!['Y'] {
        Answer::Yes
    } else if t == seq!['N'] {
        Answer::No
    } else {
        Answer::Other
    }
}

/// Reads an answer from a line that has been trimmed already.
pub fn parse_trimmed(t: &str) -> (r: Answer)
    ensures
        r == answer_of(t@),
{
    if !t.is_ascii() {
        proof {
            assert(t@ != seq!['Y']);
            assert(t@ != seq!['N']);
        }
        return Answer::Other;
    }
    let b = t.as_bytes();
    proof {
        vstd::string::is_ascii_spec_bytes(t);
        assert(b@.len() == t@.len());
    }
    if b.len() == 1 && b[0] == 89u8 {
        assert(t@ =~= seq!['Y']);
        Answer::Yes
    } else if b.len() == 1 && b[0] == 78u8 {
        assert(t@ =~= seq!['N']);
        Answer::No
    } else {
        proof {
            if t@ == seq!['Y'] {
                assert(b@[0] == 89u8);
            }
            if t@ == seq!['N'] {
                assert(b@[0] == 78u8);
            }
        }
        Answer::Other
    }
}

/// Reads an answer from a line as typed: surrounding whitespace is ignored.
pub fn parse_answer(line: &str) -> (r: Answer)
    ensures
        r == answer_of(trimmed(line@)),
{
    parse_trimmed(trim(line))
}

} // verus!
