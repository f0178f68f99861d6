//! Rendering of location-tagged diagnostics into one aggregated message.
//!
//! Each diagnostic is shown as `[<line>:<col>-<line>:<col>]: <description>`,
//! and the entries are joined by a comma with no space, in their original
//! order.

use vstd::prelude::*;
use vstd::string::StringExecFns;
use crate::position::{line_at, col_at, to_linecol};
use crate::scan::{Diag, DiagView, diag_seq_views};

verus! {

/// The decimal digit character for `d`, which must lie in `0 ..= 9`.
pub open spec fn dec_digit(d: int) -> char {
    if d == 0 {
        '0'
    } else if d == 1 {
        '1'
    } else if d == 2 {
        '2'
    } else if d == 3 {
        '3'
    } else if d == 4 {
        '4'
    } else if d == 5 {
        '5'
    } else if d == 6 {
        '6'
    } else if d == 7 {
        '7'
    } else if d == 8 {
        '8'
    } else {
        '9'
    }
}

/// The decimal digits of `n`, most significant first, with no sign and
/// no leading zero (a single `'0'` for zero itself).
pub open spec fn dec_chars(n: int) -> Seq<char>
    decreases n,
{
    if n < 10 {
        seq![dec_digit(n)]
    } else {
        dec_chars(n / 10).push(dec_digit(n % 10))
    }
}

/// Appends the single decimal digit `d` to `out`.
fn append_digit(out: &mut String, d: usize)
    requires
        d < 10,
    ensures
        final(out)@ == old(out)@ + seq![dec_digit(d as int)],
{
    proof {
        reveal_strlit("0");
        reveal_strlit("1");
        reveal_strlit("2");
        reveal_strlit("3");
        reveal_strlit("4");
        reveal_strlit("5");
        reveal_strlit("6");
        reveal_strlit("7");
        reveal_strlit("8");
        reveal_strlit("9");
    }
    match d {
        0 => out.append("0"),
        1 => out.append("1"),
        2 => out.append("2"),
        3 => out.append("3"),
        4 => out.append("4"),
        5 => out.append("5"),
        6 => out.append("6"),
        7 => out.append("7"),
        8 => out.append("8"),
        _ => out.append("9"),
    }
    proof {
        assert(final(out)@ =~= old(out)@ + seq![dec_digit(d as int)]);
    }
}

/// Appends the decimal rendering of `n` to `out`.
pub fn append_decimal(out: &mut String, n: usize)
    ensures
        final(out)@ == old(out)@ + dec_chars(n as int),
    decreases n,
{
    if n >= 10 {
        append_decimal(out, n / 10);
    }
    append_digit(out, n % 10);
    proof {
        if n >= 10 {
            assert(final(out)@ =~= old(out)@ + dec_chars(n as int));
        }
    }
}

/// The rendered location tag `[<line>:<col>-<line>:<col>]: ` for the byte
/// span `lo .. hi` of the text `b`.
pub open spec fn loc_chars(b: Seq<u8>, lo: int, hi: int) -> Seq<char> {
    seq!['['] + dec_chars(line_at(b, lo)) + seq![':'] + dec_chars(col_at(b, lo)) + seq!['-']
        + dec_chars(line_at(b, hi)) + seq![':'] + dec_chars(col_at(b, hi)) + seq![']', ':', ' ']
}

/// The byte span of a diagnostic; one without a recorded span is shown
/// at the start of the text.
pub open spec fn span_or_start(span: Option<(int, int)>) -> (int, int) {
    match span {
        Some(p) => p,
        None => (0, 0),
    }
}

/// The full rendering of one diagnostic against the text `b`: its
/// location tag followed by its description.
pub open spec fn diag_chars(b: Seq<u8>, d: DiagView) -> Seq<char> {
    loc_chars(b, span_or_start(d.span).0, span_or_start(d.span).1) + d.desc
}

/// The aggregated message for `ds` against the text `b`: every
/// diagnostic rendered in order, joined by a comma with no space.
pub open spec fn diags_chars(b: Seq<u8>, ds: Seq<DiagView>) -> Seq<char>
    decreases ds.len(),
{
    if ds.len() == 0 {
        Seq::empty()
    } else if ds.len() == 1 {
        diag_chars(b, ds[0])
    } else {
        diags_chars(b, ds.drop_last()) + seq![','] + diag_chars(b, ds.last())
    }
}

/// Two diagnostics aggregate to the first entry, a bare comma, then
/// the second entry, in their order of discovery.
pub proof fn lemma_two_diags_join(b: Seq<u8>, ds: Seq<DiagView>)
    requires
        ds.len() == 2,
    ensures
        diags_chars(b, ds) == diag_chars(b, ds[0]) + seq![','] + diag_chars(b, ds[1]),
{
    assert(ds.drop_last().len() == 1);
    assert(ds.drop_last()[0] == ds[0]);
    assert(diags_chars(b, ds.drop_last()) == diag_chars(b, ds[0]));
    assert(ds.last() == ds[1]);
}

/// Appends the rendering of the one diagnostic `d` to `out`.
fn append_diag(out: &mut String, b: &[u8], d: &Diag)
    ensures
        final(out)@ == old(out)@ + diag_chars(b@, d@),
{
    proof {
        reveal_strlit("[");
        reveal_strlit(":");
        reveal_strlit("-");
        reveal_strlit("]: ");
    }
    let (lo, hi): (usize, usize) = match d.span {
        Some(p) => p,
        None => (0, 0),
    };
    let (lo_line, lo_col) = to_linecol(b, lo);
    let (hi_line, hi_col) = to_linecol(b, hi);
    out.append("[");
    append_decimal(out, lo_line);
    out.append(":");
    append_decimal(out, lo_col);
    out.append("-");
    append_decimal(out, hi_line);
    out.append(":");
    append_decimal(out, hi_col);
    out.append("]: ");
    out.append(d.desc.as_str());
    proof {
        assert(final(out)@ =~= old(out)@ + diag_chars(b@, d@));
    }
}

/// Renders the whole list of diagnostics `ds` against the text `b` as
/// one aggregated message.
pub fn render_diags(b: &[u8], ds: &Vec<Diag>) -> (r: String)
    ensures
        r@ == diags_chars(b@, diag_seq_views(ds@)),
{
    let mut out = String::new();
    let mut i: usize = 0;
    while i < ds.len()
        invariant
            0 <= i <= ds@.len(),
            out@ == diags_chars(b@, diag_seq_views(ds@).take(i as int)),
        decreases ds@.len() - i,
    {
        proof {
            reveal_strlit(",");
        }
        if i > 0 {
            out.append(",");
        }
        append_diag(&mut out, b, &ds[i]);
        proof {
            let views = diag_seq_views(ds@);
            let t = views.take(i + 1);
            assert(t.len() == i + 1);
            if i == 0 {
                assert(t[0] == views[0int]);
                assert(diags_chars(b@, t) == diag_chars(b@, views[0int]));
            } else {
                assert(t.drop_last() =~= views.take(i as int));
                assert(t.last() == views[i as int]);
                assert(diags_chars(b@, t) == diags_chars(b@, views.take(i as int)) + seq![',']
                    + diag_chars(b@, views[i as int]));
            }
            assert(out@ =~= diags_chars(b@, t));
        }
        i = i + 1;
    }
    proof {
        assert(diag_seq_views(ds@).take(ds@.len() as int) =~= diag_seq_views(ds@));
    }
    out
}

} // verus!
