//! The command-line tool's logic: which database to open, and the table of
//! boards that it prints.
use vstd::prelude::*;
use crate::models::Board;

verus! {

/// The database to open: the one given on the command line, else the one in
/// the environment; `None` where neither is given.
pub fn choose_database_url(arg_url: Option<String>, env_url: Option<String>) -> (url: Option<
    String,
>)
    ensures
        arg_url is Some ==> url == arg_url,
        arg_url is None ==> url == env_url,
{
    match arg_url {
        Some(url) => Some(url),
        None => env_url,
    }
}

/// The character of the decimal digit `d`.
pub open spec fn digit_char(d: int) -> char {
    (48 + d) as char
}

/// The decimal digits of `n`, most significant first, without leading zeros.
pub open spec fn digits(n: nat) -> Seq<char>
    decreases n,
{
    if n < 10 {
        seq![digit_char(n as int)]
    } else {
        digits(n / 10).push(digit_char((n % 10) as int))
    }
}

/// The decimal text of `n`, with a leading `-` where it is negative.
pub open spec fn decimal(n: int) -> Seq<char> {
    if n < 0 {
        seq!['-'] + digits((-n) as nat)
    } else {
        digits(n as nat)
    }
}

/// The number that decimal digits denote, read most significant first.
pub open spec fn digits_value(ds: Seq<char>) -> int
    decreases ds.len(),
{
    if ds.len() == 0 {
        0
    } else {
        digits_value(ds.drop_last()) * 10 + (ds.last() as int - 48)
    }
}

/// The last digit of `n` is `n % 10`, and the digits before it are those of
/// `n / 10` (none where `n` is a single digit).
pub proof fn lemma_digits_last(n: nat)
    ensures
        digits(n).len() >= 1,
        digits(n).last() == digit_char((n % 10) as int),
        n >= 10 ==> digits(n).drop_last() == digits(n / 10),
        n < 10 ==> digits(n).len() == 1,
{
}

/// Every character of the digits of `n` is one of `0` to `9`, and a number
/// of two or more digits does not start with `0`.
pub proof fn lemma_digits_are_digits(n: nat)
    ensures
        forall|i: int| 0 <= i < digits(n).len() ==> 48 <= #[trigger] (digits(n)[i] as int) <= 57,
        n >= 10 ==> digits(n)[0] != '0',
    decreases n,
{
    if n >= 10 {
        lemma_digits_are_digits(n / 10);
        lemma_digits_last(n / 10);
        assert forall|i: int| 0 <= i < digits(n).len() implies 48 <= #[trigger] (digits(n)[i] as int) <= 57 by {
            if i < digits(n).len() - 1 {
                assert(digits(n)[i] == digits(n / 10)[i]);
            }
        }
        if n / 10 < 10 {
            assert(digits(n / 10) == seq![digit_char((n / 10) as int)]);
        }
        assert(digits(n)[0] == digits(n / 10)[0]);
    }
}

/// The digits of `n` denote `n`.
pub proof fn lemma_digits_denote(n: nat)
    ensures
        digits_value(digits(n)) == n,
    decreases n,
{
    if n >= 10 {
        lemma_digits_denote(n / 10);
        lemma_digits_last(n);
        assert(digits_value(digits(n)) == digits_value(digits(n / 10)) * 10 + (n % 10)) by {
            assert(digits(n).drop_last() == digits(n / 10));
        }
        assert((n / 10) * 10 + n % 10 == n) by (nonlinear_arith);
    } else {
        let ds = digits(n);
        assert(ds == seq![digit_char(n as int)]);
        assert(ds.drop_last() =~= Seq::<char>::empty());
        assert(digits_value(ds.drop_last()) == 0);
        assert(ds.last() as int == 48 + n);
    }
}

/// Different numbers have different digits.
pub proof fn lemma_digits_injective(m: nat, n: nat)
    ensures
        digits(m) == digits(n) ==> m == n,
{
    lemma_digits_denote(m);
    lemma_digits_denote(n);
}

/// Different numbers have different decimal texts, and the text of `n` is
/// `-` before the digits of `-n` where `n` is negative and the digits of `n`
/// otherwise, never starting with `-` for a number that is not negative.
pub proof fn lemma_decimal_injective(a: int, b: int)
    ensures
        decimal(a) == decimal(b) ==> a == b,
        a >= 0 ==> decimal(a) == digits(a as nat) && decimal(a)[0] != '-',
        a < 0 ==> decimal(a)[0] == '-' && decimal(a).drop_first() == digits((-a) as nat),
{
    if a >= 0 {
        lemma_digits_are_digits(a as nat);
        lemma_digits_last(a as nat);
        assert(48 <= (digits(a as nat)[0] as int) <= 57);
    } else {
        assert((seq!['-'] + digits((-a) as nat)).drop_first() =~= digits((-a) as nat));
    }
    if b >= 0 {
        lemma_digits_are_digits(b as nat);
        lemma_digits_last(b as nat);
        assert(48 <= (digits(b as nat)[0] as int) <= 57);
    } else {
        assert((seq!['-'] + digits((-b) as nat)).drop_first() =~= digits((-b) as nat));
    }
    if decimal(a) == decimal(b) {
        if a >= 0 && b >= 0 {
            lemma_digits_injective(a as nat, b as nat);
        } else if a < 0 && b < 0 {
            assert(decimal(a).drop_first() == decimal(b).drop_first());
            lemma_digits_injective((-a) as nat, (-b) as nat);
        } else {
            assert(decimal(a)[0] == decimal(b)[0]);
        }
    }
}

fn digit_text(d: u64) -> (s: &'static str)
    requires
        d < 10,
    ensures
        s@ == seq![digit_char(d as int)],
{
    if d == 0 {
        proof { reveal_strlit("0"); }
        "0"
    } else if d == 1 {
        proof { reveal_strlit("1"); }
        "1"
    } else if d == 2 {
        proof { reveal_strlit("2"); }
        "2"
    } else if d == 3 {
        proof { reveal_strlit("3"); }
        "3"
    } else if d == 4 {
        proof { reveal_strlit("4"); }
        "4"
    } else if d == 5 {
        proof { reveal_strlit("5"); }
        "5"
    } else if d == 6 {
        proof { reveal_strlit("6"); }
        "6"
    } else if d == 7 {
        proof { reveal_strlit("7"); }
        "7"
    } else if d == 8 {
        proof { reveal_strlit("8"); }
        "8"
    } else {
        proof { reveal_strlit("9"); }
        "9"
    }
}

fn push_digits(out: &mut String, n: u64)
    ensures
        final(out)@ == old(out)@ + digits(n as nat),
    decreases n,
{
    if n >= 10 {
        push_digits(out, n / 10);
    }
    out.append(digit_text(n % 10));
    proof {
        if n >= 10 {
            assert(old(out)@ + digits(n as nat) =~= old(out)@ + digits((n / 10) as nat) + seq![
                digit_char((n % 10) as int),
            ]);
        } else {
            assert(old(out)@ + digits(n as nat) =~= old(out)@ + seq![digit_char(n as int)]);
        }
    }
}

/// The decimal text of `n`, as `to_string` writes it.
pub fn decimal_text(n: i32) -> (s: String)
    ensures
        s@ == decimal(n as int),
{
    let mut out = String::new();
    if n < 0 {
        proof { reveal_strlit("-"); }
        out.append("-");
        let magnitude: u64 = (0i64 - (n as i64)) as u64;
        push_digits(&mut out, magnitude);
        assert(out@ =~= seq!['-'] + digits((-n) as nat));
    } else {
        push_digits(&mut out, n as u64);
        assert(out@ =~= digits(n as nat));
    }
    out
}

/// A row of the board table: the board's id, its name and its description
/// (empty where it has none).
pub open spec fn board_row(b: Board) -> Seq<Seq<char>> {
    seq![
        decimal(b.id as int),
        b.name@,
        match b.description {
            Some(d) => d@,
            None => Seq::empty(),
        },
    ]
}

/// A board's row holds its id in decimal, its name and its description, or
/// nothing where it has none.
pub proof fn lemma_board_row_fields(b: Board)
    ensures
        board_row(b).len() == 3,
        board_row(b)[0] == decimal(b.id as int),
        board_row(b)[1] == b.name@,
        b.description matches Some(d) ==> board_row(b)[2] == d@,
        b.description is None ==> board_row(b)[2].len() == 0,
{
}

/// The header of the board table.
pub open spec fn board_header() -> Seq<Seq<char>> {
    seq!["ID"@, "Name"@, "Description"@]
}

pub open spec fn row_view(row: Vec<String>) -> Seq<Seq<char>> {
    row@.map_values(|s: String| s@)
}

fn text_row(a: String, b: String, c: String) -> (row: Vec<String>)
    ensures
        row_view(row) == seq![a@, b@, c@],
{
    let row = vec![a, b, c];
    assert(row_view(row) =~= seq![a@, b@, c@]);
    row
}

/// The table that `egg-ctl list-boards` prints: a header, then one row per
/// board, in the order given.
pub fn board_table(boards: &Vec<Board>) -> (rows: Vec<Vec<String>>)
    ensures
        rows.len() == boards.len() + 1,
        row_view(rows@[0]) == board_header(),
        forall|i: int| 1 <= i < rows.len() ==> row_view(#[trigger] rows@[i]) == board_row(boards@[i - 1]),
{
    let mut rows: Vec<Vec<String>> = Vec::new();
    rows.push(
        text_row(String::from_str("ID"), String::from_str("Name"), String::from_str("Description")),
    );
    let mut i: usize = 0;
    while i < boards.len()
        invariant
            i <= boards.len(),
            rows.len() == i + 1,
            row_view(rows@[0]) == board_header(),
            forall|k: int| 1 <= k < rows.len() ==> row_view(#[trigger] rows@[k]) == board_row(boards@[k - 1]),
        decreases boards.len() - i,
    {
        let board = &boards[i];
        let description = match &board.description {
            Some(d) => d.clone(),
            None => String::new(),
        };
        let row = text_row(decimal_text(board.id), board.name.clone(), description);
        assert(row_view(row) =~= board_row(boards@[i as int]));
        rows.push(row);
        i = i + 1;
    }
    rows
}

} // verus!
