//! Text: integers in decimal notation, and lines joined into a file.

use vstd::prelude::*;
use vstd::string::*;

verus! {

/// The character of the decimal digit `d`.
pub open spec fn digit_char(d: nat) -> char {
    if d == 0 {
        '0'
    } else if d == 1 {
        '1'
    } else if d == 2 {
        '2'
    } else if d == 3 {
        '3'
    } else if d == 4 {
        '4'
    } else if d == 5 {
        '5'
    } else if d == 6 {
        '6'
    } else if d == 7 {
        '7'
    } else if d == 8 {
        '8'
    } else {
        '9'
    }
}

/// The decimal notation of a natural number, without leading zeros.
pub open spec fn digits(n: nat) -> Seq<char>
    decreases n,
{
    if n < 10 {
        seq![digit_char(n)]
    } else {
        digits(n / 10).push(digit_char(n % 10))
    }
}

/// The decimal notation of an integer, with a minus sign when it is
/// negative.
pub open spec fn decimal(i: int) -> Seq<char> {
    if i < 0 {
        seq!['-'] + digits((-i) as nat)
    } else {
        digits(i as nat)
    }
}

/// The lines joined into one text, with a line feed between each two.
pub open spec fn join_lines(lines: Seq<Seq<char>>) -> Seq<char>
    decreases lines.len(),
{
    if lines.len() == 0 {
        Seq::empty()
    } else if lines.len() == 1 {
        lines[0]
    } else {
        join_lines(lines.drop_last()) + seq!['\n'] + lines.last()
    }
}

/// Whether the character is a decimal digit.
pub open spec fn is_digit(c: char) -> bool {
    c == '0' || c == '1' || c == '2' || c == '3' || c == '4' || c == '5' || c == '6' || c == '7'
        || c == '8' || c == '9'
}

/// The value of a decimal digit.
pub open spec fn digit_value(c: char) -> nat {
    if c == '1' {
        1
    } else if c == '2' {
        2
    } else if c == '3' {
        3
    } else if c == '4' {
        4
    } else if c == '5' {
        5
    } else if c == '6' {
        6
    } else if c == '7' {
        7
    } else if c == '8' {
        8
    } else if c == '9' {
        9
    } else {
        0
    }
}

/// The natural number that a text of decimal digits denotes.
pub open spec fn number_of(s: Seq<char>) -> nat
    decreases s.len(),
{
    if s.len() == 0 {
        0
    } else {
        number_of(s.drop_last()) * 10 + digit_value(s.last())
    }
}

/// The integer that a text denotes: decimal digits, after a minus sign
/// where the integer is negative.
pub open spec fn integer_of(s: Seq<char>) -> int {
    if s.len() > 0 && s[0] == '-' {
        -(number_of(s.skip(1)) as int)
    } else {
        number_of(s) as int
    }
}

/// Whether there is no blank in a text.
pub open spec fn has_no_blank(s: Seq<char>) -> bool {
    forall|k: int| 0 <= k < s.len() ==> s[k] != ' '
}

/// The first field of a line: what stands before its first blank.
pub open spec fn first_field(line: Seq<char>) -> Seq<char>
    decreases line.len(),
{
    if line.len() == 0 || line[0] == ' ' {
        Seq::empty()
    } else {
        seq![line[0]] + first_field(line.skip(1))
    }
}

/// What follows the first blank of a line.
pub open spec fn after_first_field(line: Seq<char>) -> Seq<char>
    decreases line.len(),
{
    if line.len() == 0 {
        Seq::empty()
    } else if line[0] == ' ' {
        line.skip(1)
    } else {
        after_first_field(line.skip(1))
    }
}

/// The decimal notation of a natural number is made of digits, and of one
/// at least.
pub proof fn lemma_digits_are_digits(n: nat)
    ensures
        digits(n).len() >= 1,
        forall|k: int| 0 <= k < digits(n).len() ==> is_digit(#[trigger] digits(n)[k]),
    decreases n,
{
    if n >= 10 {
        lemma_digits_are_digits(n / 10);
    }
}

/// Reading the decimal notation of a natural number gives the number back.
pub proof fn lemma_number_of_digits(n: nat)
    ensures
        number_of(digits(n)) == n,
    decreases n,
{
    if n < 10 {
        assert(digits(n).drop_last() =~= Seq::empty());
        assert(number_of(digits(n).drop_last()) == 0);
    } else {
        lemma_number_of_digits(n / 10);
        assert(digits(n).drop_last() =~= digits(n / 10));
    }
}

/// Reading the decimal notation of an integer gives the integer back.
pub proof fn lemma_integer_of_decimal(i: int)
    ensures
        integer_of(decimal(i)) == i,
        has_no_blank(decimal(i)),
{
    if i < 0 {
        let magnitude = (-i) as nat;
        lemma_digits_are_digits(magnitude);
        lemma_number_of_digits(magnitude);
        assert(decimal(i).skip(1) =~= digits(magnitude));
        assert forall|k: int| 0 <= k < decimal(i).len() implies decimal(i)[k] != ' ' by {
            if k > 0 {
                assert(is_digit(digits(magnitude)[k - 1]));
            }
        }
    } else {
        lemma_digits_are_digits(i as nat);
        lemma_number_of_digits(i as nat);
        assert(is_digit(digits(i as nat)[0]));
        assert forall|k: int| 0 <= k < decimal(i).len() implies decimal(i)[k] != ' ' by {
            assert(is_digit(digits(i as nat)[k]));
        }
    }
}

/// A line that begins with a text without blank, then a blank, has that
/// text as its first field, and what follows the blank as the rest.
pub proof fn lemma_first_of_fields(field: Seq<char>, rest: Seq<char>)
    requires
        has_no_blank(field),
    ensures
        first_field(field + seq![' '] + rest) == field,
        after_first_field(field + seq![' '] + rest) == rest,
    decreases field.len(),
{
    let line = field + seq![' '] + rest;
    if field.len() == 0 {
        assert(line[0] == ' ');
        assert(line.skip(1) =~= rest);
        assert(first_field(line) =~= field);
    } else {
        let tail = field.skip(1);
        assert(line.skip(1) =~= tail + seq![' '] + rest);
        assert forall|k: int| 0 <= k < tail.len() implies tail[k] != ' ' by {
            assert(tail[k] == field[k + 1]);
        }
        lemma_first_of_fields(tail, rest);
        assert(line[0] == field[0]);
        assert(seq![field[0]] + tail =~= field);
    }
}

/// A line without blank is its own first field.
pub proof fn lemma_only_field(field: Seq<char>)
    requires
        has_no_blank(field),
    ensures
        first_field(field) == field,
    decreases field.len(),
{
    if field.len() == 0 {
        assert(first_field(field) =~= field);
    } else {
        let tail = field.skip(1);
        assert forall|k: int| 0 <= k < tail.len() implies tail[k] != ' ' by {
            assert(tail[k] == field[k + 1]);
        }
        lemma_only_field(tail);
        assert(seq![field[0]] + tail =~= field);
    }
}

/// The text of one decimal digit.
fn digit_str(d: u8) -> (s: &'static str)
    requires
        d < 10,
    ensures
        s@ == seq![digit_char(d as nat)],
{
    proof {
        reveal_strlit("0");
        reveal_strlit("1");
        reveal_strlit("2");
        reveal_strlit("3");
        reveal_strlit("4");
        reveal_strlit("5");
        reveal_strlit("6");
        reveal_strlit("7");
        reveal_strlit("8");
        reveal_strlit("9");
    }
    if d == 0 {
        "0"
    } else if d == 1 {
        "1"
    } else if d == 2 {
        "2"
    } else if d == 3 {
        "3"
    } else if d == 4 {
        "4"
    } else if d == 5 {
        "5"
    } else if d == 6 {
        "6"
    } else if d == 7 {
        "7"
    } else if d == 8 {
        "8"
    } else {
        "9"
    }
}

/// Appends the decimal notation of `n` to `out`.
pub fn append_unsigned(out: &mut String, n: u128)
    ensures
        final(out)@ == old(out)@ + digits(n as nat),
    decreases n,
{
    if n >= 10 {
        append_unsigned(out, n / 10);
    }
    out.append(digit_str((n % 10) as u8));
}

/// Appends the decimal notation of `i` to `out`.
pub fn append_signed(out: &mut String, i: isize)
    ensures
        final(out)@ == old(out)@ + decimal(i as int),
{
    if i < 0 {
        proof {
            reveal_strlit("-");
        }
        out.append("-");
        let magnitude: u128 = (-(i as i128)) as u128;
        append_unsigned(out, magnitude);
    } else {
        append_unsigned(out, i as u128);
    }
}

/// A text under construction, line by line.
pub struct Lines {
    /// The lines so far, joined.
    text: String,
    /// Whether there is a line yet.
    started: bool,
    /// The lines so far.
    lines: Ghost<Seq<Seq<char>>>,
}

impl View for Lines {
    type V = Seq<Seq<char>>;

    closed spec fn view(&self) -> Seq<Seq<char>> {
        self.lines@
    }
}

impl Lines {
    /// The invariant of the type: the text is the lines joined.
    pub closed spec fn wf(&self) -> bool {
        self.text@ == join_lines(self.lines@) && self.started == (self.lines@.len() > 0)
    }

    /// A text without any line.
    pub fn new() -> (out: Lines)
        ensures
            out.wf(),
            out@ == Seq::<Seq<char>>::empty(),
    {
        Lines { text: String::new(), started: false, lines: Ghost(Seq::empty()) }
    }

    /// Adds a line at the end.
    pub fn push(&mut self, line: &str)
        requires
            old(self).wf(),
        ensures
            final(self).wf(),
            final(self)@ == old(self)@.push(line@),
    {
        let ghost before = self.lines@;
        if self.started {
            proof {
                reveal_strlit("\n");
            }
            self.text.append("\n");
            assert("\n"@ =~= seq!['\n']);
        }
        self.text.append(line);
        self.started = true;
        self.lines = Ghost(before.push(line@));
        proof {
            assert(before.push(line@).drop_last() =~= before);
            if before.len() == 0 {
                assert(self.text@ =~= line@);
            }
        }
    }

    /// The lines joined into one text.
    pub fn finish(self) -> (text: String)
        requires
            self.wf(),
        ensures
            text@ == join_lines(self@),
    {
        self.text
    }
}

} // verus!
