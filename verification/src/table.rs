//! Table rendering: one metadata header line followed by one
//! `start end` line per chain, all integers decimal.
use vstd::prelude::*;
use vstd::string::*;
use crate::MAX_DOMAIN;
use crate::chain::{build_table, pairs_spec};

verus! {

/// The decimal digit character for `d` in [0, 9].
pub open spec fn digit_char(d: int) -> char {
    if d == 0 {
        '0'
    } else if d == 1 {
        '1'
    } else if d == 2 {
        '2'
    } else if d == 3 {
        '3'
    } else if d == 4 {
        '4'
    } else if d == 5 {
        '5'
    } else if d == 6 {
        '6'
    } else if d == 7 {
        '7'
    } else if d == 8 {
        '8'
    } else {
        '9'
    }
}

/// The decimal rendering of `n`, most significant digit first, no
/// leading zeros (a single `'0'` for zero).
pub open spec fn dec_seq(n: nat) -> Seq<char>
    decreases n,
{
    if n < 10 {
        seq![digit_char(n as int)]
    } else {
        dec_seq(n / 10) + seq![digit_char((n % 10) as int)]
    }
}

/// The single-character string for one decimal digit.
fn digit_str(d: u64) -> (r: &'static str)
    requires
        d < 10,
    ensures
        r@ == seq![digit_char(d as int)],
{
    proof {
        reveal_strlit("0");
        reveal_strlit("1");
        reveal_strlit("2");
        reveal_strlit("3");
        reveal_strlit("4");
        reveal_strlit("5");
        reveal_strlit("6");
        reveal_strlit("7");
        reveal_strlit("8");
        reveal_strlit("9");
    }
    let r: &'static str = if d == 0 {
        "0"
    } else if d == 1 {
        "1"
    } else if d == 2 {
        "2"
    } else if d == 3 {
        "3"
    } else if d == 4 {
        "4"
    } else if d == 5 {
        "5"
    } else if d == 6 {
        "6"
    } else if d == 7 {
        "7"
    } else if d == 8 {
        "8"
    } else {
        "9"
    };
    assert(r@ =~= seq![digit_char(d as int)]);
    r
}

/// Renders `n` in decimal.
pub fn u64_to_dec(n: u64) -> (r: String)
    ensures
        r@ == dec_seq(n as nat),
    decreases n,
{
    if n < 10 {
        String::from_str(digit_str(n))
    } else {
        let mut s = u64_to_dec(n / 10);
        s.append(digit_str(n % 10));
        s
    }
}

/// The header line: `nchains=<N>, ncolumns=<C>, redu=<R>` and a
/// newline.
pub open spec fn header_seq(nchains: u64, ncolumns: u64, rotation: u8) -> Seq<char> {
    "nchains="@ + dec_seq(nchains as nat) + ", ncolumns="@ + dec_seq(ncolumns as nat) + ", redu="@
        + dec_seq(rotation as nat) + "\n"@
}

/// One chain row: `<start> <end>` and a newline.
pub open spec fn row_seq(start: u64, end: u64) -> Seq<char> {
    dec_seq(start as nat) + " "@ + dec_seq(end as nat) + "\n"@
}

/// All chain rows, in the order of the pair list.
pub open spec fn rows_seq(pairs: Seq<(u64, u64)>) -> Seq<char>
    decreases pairs.len(),
{
    if pairs.len() == 0 {
        Seq::empty()
    } else {
        rows_seq(pairs.drop_last()) + row_seq(pairs.last().0, pairs.last().1)
    }
}

/// The whole table file: header, then one row per pair.
pub open spec fn table_seq(nchains: u64, ncolumns: u64, rotation: u8, pairs: Seq<(u64, u64)>) -> Seq<
    char,
> {
    header_seq(nchains, ncolumns, rotation) + rows_seq(pairs)
}

/// Renders one table: the header under the given parameters, then one
/// `start end` row per pair, in order.
pub fn render_table(nchains: u64, ncolumns: u64, rotation: u8, pairs: &Vec<(u64, u64)>) -> (r:
    String)
    ensures
        r@ == table_seq(nchains, ncolumns, rotation, pairs@),
{
    let mut out = String::from_str("nchains=");
    out.append(u64_to_dec(nchains).as_str());
    out.append(", ncolumns=");
    out.append(u64_to_dec(ncolumns).as_str());
    out.append(", redu=");
    out.append(u64_to_dec(rotation as u64).as_str());
    out.append("\n");
    assert(out@ =~= header_seq(nchains, ncolumns, rotation));
    let ghost header = header_seq(nchains, ncolumns, rotation);
    let mut i: usize = 0;
    while i < pairs.len()
        invariant
            i <= pairs@.len(),
            header == header_seq(nchains, ncolumns, rotation),
            out@ == header + rows_seq(pairs@.subrange(0, i as int)),
        decreases pairs@.len() - i,
    {
        let p = pairs[i];
        out.append(u64_to_dec(p.0).as_str());
        out.append(" ");
        out.append(u64_to_dec(p.1).as_str());
        out.append("\n");
        proof {
            let sub1 = pairs@.subrange(0, i + 1);
            assert(sub1.drop_last() =~= pairs@.subrange(0, i as int));
            assert(sub1.last() == pairs@[i as int]);
            assert(out@ =~= header + rows_seq(sub1));
        }
        i = i + 1;
    }
    assert(pairs@.subrange(0, pairs@.len() as int) =~= pairs@);
    out
}

/// The number of `'\n'` characters in a text; each line of a rendered
/// table ends in exactly one, so this is also its line count.
pub open spec fn newline_count(s: Seq<char>) -> nat
    decreases s.len(),
{
    if s.len() == 0 {
        0
    } else {
        newline_count(s.drop_last()) + if s.last() == '\n' {
            1nat
        } else {
            0nat
        }
    }
}

proof fn lemma_newline_count_concat(a: Seq<char>, b: Seq<char>)
    ensures
        newline_count(a + b) == newline_count(a) + newline_count(b),
    decreases b.len(),
{
    if b.len() == 0 {
        assert(a + b =~= a);
    } else {
        assert((a + b).drop_last() =~= a + b.drop_last());
        assert((a + b).last() == b.last());
        lemma_newline_count_concat(a, b.drop_last());
    }
}

proof fn lemma_newline_count_single(c: char)
    ensures
        newline_count(seq![c]) == if c == '\n' {
            1nat
        } else {
            0nat
        },
{
    assert(seq![c].drop_last() =~= Seq::<char>::empty());
    assert(newline_count(Seq::<char>::empty()) == 0);
}

proof fn lemma_dec_seq_no_newline(n: nat)
    ensures
        newline_count(dec_seq(n)) == 0,
    decreases n,
{
    if n < 10 {
        lemma_newline_count_single(digit_char(n as int));
    } else {
        lemma_dec_seq_no_newline(n / 10);
        lemma_newline_count_single(digit_char((n % 10) as int));
        lemma_newline_count_concat(dec_seq(n / 10), seq![digit_char((n % 10) as int)]);
    }
}

proof fn lemma_no_newline(s: Seq<char>)
    requires
        forall|i: int| 0 <= i < s.len() ==> s[i] != '\n',
    ensures
        newline_count(s) == 0,
    decreases s.len(),
{
    if s.len() > 0 {
        assert(s.last() == s[s.len() - 1]);
        lemma_no_newline(s.drop_last());
    }
}

proof fn lemma_literal_newlines()
    ensures
        newline_count("nchains="@) == 0,
        newline_count(", ncolumns="@) == 0,
        newline_count(", redu="@) == 0,
        newline_count(" "@) == 0,
        newline_count("\n"@) == 1,
{
    reveal_strlit("nchains=");
    assert("nchains="@ =~= seq!['n', 'c', 'h', 'a', 'i', 'n', 's', '=']);
    lemma_no_newline("nchains="@);
    reveal_strlit(", ncolumns=");
    assert(", ncolumns="@ =~= seq![',', ' ', 'n', 'c', 'o', 'l', 'u', 'm', 'n', 's', '=']);
    lemma_no_newline(", ncolumns="@);
    reveal_strlit(", redu=");
    assert(", redu="@ =~= seq![',', ' ', 'r', 'e', 'd', 'u', '=']);
    lemma_no_newline(", redu="@);
    reveal_strlit(" ");
    assert(" "@ =~= seq![' ']);
    lemma_no_newline(" "@);
    reveal_strlit("\n");
    assert("\n"@ =~= seq!['\n']);
    lemma_newline_count_single('\n');
}

/// The header renders as exactly one line.
proof fn lemma_header_one_line(nchains: u64, ncolumns: u64, rotation: u8)
    ensures
        newline_count(header_seq(nchains, ncolumns, rotation)) == 1,
{
    lemma_literal_newlines();
    lemma_dec_seq_no_newline(nchains as nat);
    lemma_dec_seq_no_newline(ncolumns as nat);
    lemma_dec_seq_no_newline(rotation as nat);
    let a1 = "nchains="@;
    let a2 = a1 + dec_seq(nchains as nat);
    let a3 = a2 + ", ncolumns="@;
    let a4 = a3 + dec_seq(ncolumns as nat);
    let a5 = a4 + ", redu="@;
    let a6 = a5 + dec_seq(rotation as nat);
    lemma_newline_count_concat(a1, dec_seq(nchains as nat));
    lemma_newline_count_concat(a2, ", ncolumns="@);
    lemma_newline_count_concat(a3, dec_seq(ncolumns as nat));
    lemma_newline_count_concat(a4, ", redu="@);
    lemma_newline_count_concat(a5, dec_seq(rotation as nat));
    lemma_newline_count_concat(a6, "\n"@);
}

/// Each chain row renders as exactly one line.
proof fn lemma_row_one_line(start: u64, end: u64)
    ensures
        newline_count(row_seq(start, end)) == 1,
{
    lemma_literal_newlines();
    lemma_dec_seq_no_newline(start as nat);
    lemma_dec_seq_no_newline(end as nat);
    let a1 = dec_seq(start as nat);
    let a2 = a1 + " "@;
    let a3 = a2 + dec_seq(end as nat);
    lemma_newline_count_concat(a1, " "@);
    lemma_newline_count_concat(a2, dec_seq(end as nat));
    lemma_newline_count_concat(a3, "\n"@);
}

proof fn lemma_rows_line_count(pairs: Seq<(u64, u64)>)
    ensures
        newline_count(rows_seq(pairs)) == pairs.len(),
    decreases pairs.len(),
{
    if pairs.len() == 0 {
    } else {
        lemma_rows_line_count(pairs.drop_last());
        lemma_row_one_line(pairs.last().0, pairs.last().1);
        lemma_newline_count_concat(rows_seq(pairs.drop_last()), row_seq(pairs.last().0, pairs.last().1));
    }
}

/// A rendered table holds exactly one newline per chain row plus the
/// header's: `pairs.len() + 1` lines in all.
pub proof fn lemma_table_line_count(nchains: u64, ncolumns: u64, rotation: u8, pairs: Seq<(u64, u64)>)
    ensures
        newline_count(table_seq(nchains, ncolumns, rotation, pairs)) == pairs.len() + 1,
{
    lemma_header_one_line(nchains, ncolumns, rotation);
    lemma_rows_line_count(pairs);
    lemma_newline_count_concat(header_seq(nchains, ncolumns, rotation), rows_seq(pairs));
}

/// Builds and renders one table from the shared start-point list: the
/// compute half of one table's generation, ready to be written out.
pub fn table_text(entries: &Vec<u64>, rotation: u8, ncolumns: u64) -> (r: String)
    requires
        forall|i: int| 0 <= i < entries@.len() ==> entries@[i] <= MAX_DOMAIN,
    ensures
        r@ == table_seq(
            entries@.len() as u64,
            ncolumns,
            rotation,
            pairs_spec(entries@, rotation, ncolumns),
        ),
{
    let pairs = build_table(entries, rotation, ncolumns);
    render_table(entries.len() as u64, ncolumns, rotation, &pairs)
}

} // verus!
