//! The closed set of target dialects and their lexical choices.
//!
//! Every syntactic divergence between the supported engines is a function
//! of the [`Dialect`] value alone: the identifier quoting character, the
//! placeholder notation for bound values, literal spellings, DDL keyword
//! variants, and whether an index drop must name its table.

use vstd::prelude::*;
use crate::writer::SqlWriter;

verus! {

/// The three built-in SQL dialects.
#[derive(Clone, Copy, PartialEq, Eq, Structural, Debug)]
pub enum Dialect {
    Mysql,
    Postgres,
    Sqlite,
}

/// The character a dialect wraps identifiers in.
pub open spec fn quote_char(d: Dialect) -> char {
    match d {
        Dialect::Postgres => '"',
        _ => '`',
    }
}

/// Whether the dialect numbers its placeholders (`$1`, `$2`, ...) instead
/// of using one unnumbered positional marker (`?`).
pub open spec fn numbered_placeholders(d: Dialect) -> bool {
    d is Postgres
}

/// Whether the dialect scopes index names per table, so that an index
/// drop must name the table (`DROP INDEX ... ON ...`).  A dialect with a
/// schema-wide index namespace omits the table clause even when a table
/// association was set on the statement.
pub open spec fn table_scoped_indexes(d: Dialect) -> bool {
    !(d is Postgres)
}

/// The decimal digit character for `n < 10`.
pub open spec fn digit_char(n: nat) -> char {
    if n == 0 {
        '0'
    } else if n == 1 {
        '1'
    } else if n == 2 {
        '2'
    } else if n == 3 {
        '3'
    } else if n == 4 {
        '4'
    } else if n == 5 {
        '5'
    } else if n == 6 {
        '6'
    } else if n == 7 {
        '7'
    } else if n == 8 {
        '8'
    } else {
        '9'
    }
}

/// The decimal text of `n`, most significant digit first.
pub open spec fn dec_seq(n: nat) -> Seq<char>
    decreases n,
{
    if n < 10 {
        seq![digit_char(n)]
    } else {
        dec_seq(n / 10) + seq![digit_char(n % 10)]
    }
}

/// The placeholder text a dialect emits for the `k`-th (0-based) bound
/// value of a render call.
pub open spec fn ph_text(d: Dialect, k: nat) -> Seq<char> {
    if numbered_placeholders(d) {
        seq!['$'] + dec_seq(k + 1)
    } else {
        seq!['?']
    }
}

/// The quoted form of an identifier under a dialect.
pub open spec fn quoted(d: Dialect, name: Seq<char>) -> Seq<char> {
    seq![quote_char(d)] + name + seq![quote_char(d)]
}

/// Append one decimal digit character.
fn push_digit(sql: &mut SqlWriter, n: usize)
    requires
        n < 10,
    ensures
        final(sql)@ == old(sql)@ + seq![digit_char(n as nat)],
{
    let piece: &str = if n == 0 {
        "0"
    } else if n == 1 {
        "1"
    } else if n == 2 {
        "2"
    } else if n == 3 {
        "3"
    } else if n == 4 {
        "4"
    } else if n == 5 {
        "5"
    } else if n == 6 {
        "6"
    } else if n == 7 {
        "7"
    } else if n == 8 {
        "8"
    } else {
        "9"
    };
    proof {
        reveal_strlit("0");
        reveal_strlit("1");
        reveal_strlit("2");
        reveal_strlit("3");
        reveal_strlit("4");
        reveal_strlit("5");
        reveal_strlit("6");
        reveal_strlit("7");
        reveal_strlit("8");
        reveal_strlit("9");
        assert(piece@ =~= seq![digit_char(n as nat)]);
    }
    sql.push_str(piece);
}

/// Append the decimal text of `n`.
pub fn push_dec(sql: &mut SqlWriter, n: usize)
    ensures
        final(sql)@ == old(sql)@ + dec_seq(n as nat),
    decreases n,
{
    if n >= 10 {
        push_dec(sql, n / 10);
        push_digit(sql, n % 10);
    } else {
        push_digit(sql, n);
    }
}

/// Append the decimal text of a 64-bit count or literal magnitude.
pub fn push_decimal(sql: &mut SqlWriter, n: u64)
    ensures
        final(sql)@ == old(sql)@ + dec_seq(n as nat),
    decreases n,
{
    if n >= 10 {
        push_decimal(sql, n / 10);
        let last: usize = (n % 10) as usize;
        push_digit(sql, last);
    } else {
        push_digit(sql, n as usize);
    }
}

/// Append the dialect's quoting character.
pub fn push_quote_char(sql: &mut SqlWriter, d: Dialect)
    ensures
        final(sql)@ == old(sql)@ + seq![quote_char(d)],
{
    let piece: &str = match d {
        Dialect::Postgres => "\"",
        _ => "`",
    };
    proof {
        reveal_strlit("\"");
        reveal_strlit("`");
        assert(piece@ =~= seq![quote_char(d)]);
    }
    sql.push_str(piece);
}

/// Append the quoted form of an identifier.
pub fn push_quoted(sql: &mut SqlWriter, d: Dialect, name: &str)
    ensures
        final(sql)@ == old(sql)@ + quoted(d, name@),
{
    push_quote_char(sql, d);
    sql.push_str(name);
    push_quote_char(sql, d);
}

/// Append the placeholder for the `k`-th bound value, where `count_after`
/// is `k + 1`, the number of values bound once this placeholder's value is
/// included.
pub fn push_placeholder(sql: &mut SqlWriter, d: Dialect, count_after: usize)
    requires
        count_after >= 1,
    ensures
        final(sql)@ == old(sql)@ + ph_text(d, (count_after - 1) as nat),
{
    match d {
        Dialect::Postgres => {
            proof {
                reveal_strlit("$");
                assert("$"@ =~= seq!['$']);
            }
            sql.push_str("$");
            push_dec(sql, count_after);
        },
        _ => {
            proof {
                reveal_strlit("?");
                assert("?"@ =~= seq!['?']);
            }
            sql.push_str("?");
        },
    }
}

} // verus!
