use vstd::prelude::*;

verus! {

/// Something a program can be asked to do.
#[derive(Debug)]
pub enum Action {
    Move { x: i32, y: i32 },
    Quit,
    Describe(String),
}

/// The character for a decimal digit.
pub open spec fn digit_char(d: nat) -> char {
    if d == 0 {
        '0'
    } else if d == 1 {
        '1'
    } else if d == 2 {
        '2'
    } else if d == 3 {
        '3'
    } else if d == 4 {
        '4'
    } else if d == 5 {
        '5'
    } else if d == 6 {
        '6'
    } else if d == 7 {
        '7'
    } else if d == 8 {
        '8'
    } else {
        '9'
    }
}

/// The decimal digits of `n`, most significant first, with no leading zeros.
pub open spec fn digits_of(n: nat) -> Seq<char>
    decreases n,
{
    if n < 10 {
        seq![digit_char(n)]
    } else {
        digits_of(n / 10) + seq![digit_char(n % 10)]
    }
}

/// The decimal text of an integer, with a leading `-` when it is negative.
pub open spec fn decimal(v: int) -> Seq<char> {
    if v < 0 {
        seq!['-'] + digits_of((-v) as nat)
    } else {
        digits_of(v as nat)
    }
}

/// The debug rendering of a move: `Move { x: <x>, y: <y> }`.
pub open spec fn move_text(x: i32, y: i32) -> Seq<char> {
    "Move { x: "@ + decimal(x as int) + ", y: "@ + decimal(y as int) + " }"@
}

/// What `do_it` answers for each action.
pub open spec fn do_it_text(action: Action) -> Seq<char> {
    match action {
        Action::Move { x, y } => "||"@ + move_text(x, y) + "||"@,
        Action::Quit => "QUIT"@,
        Action::Describe(_) => "DONE"@,
    }
}

fn digit_str(d: u32) -> (r: &'static str)
    requires
        d < 10,
    ensures
        r@ == seq![digit_char(d as nat)],
{
    proof {
        reveal_strlit("0");
        reveal_strlit("1");
        reveal_strlit("2");
        reveal_strlit("3");
        reveal_strlit("4");
        reveal_strlit("5");
        reveal_strlit("6");
        reveal_strlit("7");
        reveal_strlit("8");
        reveal_strlit("9");
    }
    match d {
        0 => "0",
        1 => "1",
        2 => "2",
        3 => "3",
        4 => "4",
        5 => "5",
        6 => "6",
        7 => "7",
        8 => "8",
        _ => "9",
    }
}

fn push_digits(s: &mut String, n: u32)
    ensures
        final(s)@ == old(s)@ + digits_of(n as nat),
    decreases n,
{
    if n >= 10 {
        push_digits(s, n / 10);
        s.append(digit_str(n % 10));
        assert(final(s)@ =~= old(s)@ + digits_of(n as nat));
    } else {
        s.append(digit_str(n));
    }
}

/// Appends the decimal text of `v` to `s`.
pub fn push_decimal(s: &mut String, v: i32)
    ensures
        final(s)@ == old(s)@ + decimal(v as int),
{
    if v < 0 {
        s.append("-");
        let magnitude: u32 = (-(v as i64)) as u32;
        push_digits(s, magnitude);
        proof {
            reveal_strlit("-");
        }
        assert(final(s)@ =~= old(s)@ + decimal(v as int));
    } else {
        push_digits(s, v as u32);
    }
}

/// Describes an action: a move as its debug rendering between `||` marks, `QUIT` for
/// quitting, and `DONE` for anything else.
pub fn do_it(action: &Action) -> (r: String)
    ensures
        r@ == do_it_text(*action),
{
    match action {
        Action::Move { x, y } => {
            let mut s = String::from_str("||Move { x: ");
            push_decimal(&mut s, *x);
            s.append(", y: ");
            push_decimal(&mut s, *y);
            s.append(" }||");
            proof {
                reveal_strlit("||Move { x: ");
                reveal_strlit("Move { x: ");
                reveal_strlit("||");
                reveal_strlit(" }||");
                reveal_strlit(" }");
            }
            assert(s@ =~= do_it_text(*action));
            s
        },
        Action::Quit => String::from_str("QUIT"),
        Action::Describe(_) => String::from_str("DONE"),
    }
}

} // verus!
