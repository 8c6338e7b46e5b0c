//! Plain text helpers: joining, decimal rendering and character-level
//! comparisons, each with the sequence of characters it produces.
use vstd::prelude::*;

verus! {

/// The character views of a sequence of strings.
pub open spec fn views(v: Seq<String>) -> Seq<Seq<char>> {
    v.map_values(|s: String| s@)
}

/// `items` joined with `sep` between each neighbouring pair.
pub open spec fn join_spec(items: Seq<Seq<char>>, sep: Seq<char>) -> Seq<char>
    decreases items.len(),
{
    if items.len() == 0 {
        Seq::empty()
    } else if items.len() == 1 {
        items[0]
    } else {
        join_spec(items.drop_last(), sep) + sep + items.last()
    }
}

/// Joins `items` with `sep`, as `[String]::join` does.
pub fn join(items: &Vec<String>, sep: &str) -> (r: String)
    ensures
        r@ == join_spec(views(items@), sep@),
{
    let mut out = String::new();
    let mut i: usize = 0;
    while i < items.len()
        invariant
            i <= items.len(),
            out@ == join_spec(views(items@.subrange(0, i as int)), sep@),
        decreases items.len() - i,
    {
        if i > 0 {
            out.append(sep);
        }
        out.append(items[i].as_str());
        proof {
            let next = views(items@.subrange(0, i + 1));
            assert(next.drop_last() =~= views(items@.subrange(0, i as int)));
            assert(next.last() == items@[i as int]@);
        }
        i += 1;
    }
    proof {
        assert(items@.subrange(0, items.len() as int) =~= items@);
    }
    out
}

/// The decimal digit for `d` (meaningful for `d < 10`).
pub open spec fn digit_char(d: nat) -> char {
    seq!['0', '1', '2', '3', '4', '5', '6', '7', '8', '9'][d as int]
}

/// The decimal representation of `n`, without sign or leading zeros.
pub open spec fn decimal_spec(n: nat) -> Seq<char>
    decreases n,
{
    if n < 10 {
        seq![digit_char(n)]
    } else {
        decimal_spec(n / 10) + seq![digit_char(n % 10)]
    }
}

fn digit(d: u64) -> (r: &'static str)
    requires
        d < 10,
    ensures
        r@ == seq![digit_char(d as nat)],
{
    match d {
        0 => {
            proof { reveal_strlit("0"); }
            "0"
        },
        1 => {
            proof { reveal_strlit("1"); }
            "1"
        },
        2 => {
            proof { reveal_strlit("2"); }
            "2"
        },
        3 => {
            proof { reveal_strlit("3"); }
            "3"
        },
        4 => {
            proof { reveal_strlit("4"); }
            "4"
        },
        5 => {
            proof { reveal_strlit("5"); }
            "5"
        },
        6 => {
            proof { reveal_strlit("6"); }
            "6"
        },
        7 => {
            proof { reveal_strlit("7"); }
            "7"
        },
        8 => {
            proof { reveal_strlit("8"); }
            "8"
        },
        _ => {
            proof { reveal_strlit("9"); }
            "9"
        },
    }
}

/// Renders `n` in decimal, as `u64`'s `Display` does.
pub fn decimal(n: u64) -> (r: String)
    ensures
        r@ == decimal_spec(n as nat),
    decreases n,
{
    let d = digit(n % 10);
    if n < 10 {
        String::from_str(d)
    } else {
        let mut s = decimal(n / 10);
        s.append(d);
        s
    }
}

/// Whether two strings hold the same characters.
pub fn same_text(a: &str, b: &str) -> (r: bool)
    ensures
        r == (a@ == b@),
{
    String::from_str(a) == String::from_str(b)
}

/// `s` with every `.` replaced by `_`.
pub open spec fn underscored_spec(s: Seq<char>) -> Seq<char> {
    s.map_values(|c: char| if c == '.' { '_' } else { c })
}

/// Replaces every `.` in `s` by `_`.
pub fn underscored(s: &str) -> (r: String)
    ensures
        r@ == underscored_spec(s@),
{
    let n = s.unicode_len();
    let mut out = String::new();
    let mut i: usize = 0;
    while i < n
        invariant
            n == s@.len(),
            i <= n,
            out@ == underscored_spec(s@.subrange(0, i as int)),
        decreases n - i,
    {
        let ghost before = out@;
        if s.get_char(i) == '.' {
            out.append("_");
            proof {
                reveal_strlit("_");
                assert("_"@ =~= seq!['_']);
            }
        } else {
            out.append(s.substring_char(i, i + 1));
        }
        proof {
            let step = underscored_spec(s@.subrange(i as int, i + 1));
            assert(step =~= seq![if s@[i as int] == '.' { '_' } else { s@[i as int] }]);
            assert(out@ =~= before + step);
            assert(underscored_spec(s@.subrange(0, i + 1)) =~= underscored_spec(
                s@.subrange(0, i as int),
            ) + underscored_spec(s@.subrange(i as int, i + 1)));
        }
        i += 1;
    }
    proof {
        assert(s@.subrange(0, n as int) =~= s@);
    }
    out
}

/// What `str::to_lowercase` makes of a sequence of characters.
pub uninterp spec fn lower_of(s: Seq<char>) -> Seq<char>;

/// Relies on `str::to_lowercase`: its result is determined by the
/// characters of its argument alone.
#[verifier::external_body]
pub(crate) fn lowercase(s: &str) -> (r: String)
    ensures
        r@ == lower_of(s@),
{
    s.to_lowercase()
}

/// `l` without one `\r` at its end.
pub open spec fn strip_cr(l: Seq<char>) -> Seq<char> {
    if l.len() > 0 && l.last() == '\r' {
        l.drop_last()
    } else {
        l
    }
}

/// The lines of `s`, where `cur` is the part of a line read before `s`:
/// each `\n` ends a line and is dropped with one `\r` before it; what
/// follows the last `\n` is a line of its own unless it is empty.
pub open spec fn lines_after(s: Seq<char>, cur: Seq<char>) -> Seq<Seq<char>>
    decreases s.len(),
{
    if s.len() == 0 {
        if cur.len() == 0 {
            Seq::empty()
        } else {
            seq![cur]
        }
    } else if s[0] == '\n' {
        seq![strip_cr(cur)] + lines_after(s.drop_first(), Seq::empty())
    } else {
        lines_after(s.drop_first(), cur.push(s[0]))
    }
}

/// The lines of `s`, as `str::lines` yields them.
pub open spec fn lines_of(s: Seq<char>) -> Seq<Seq<char>> {
    lines_after(s, Seq::empty())
}

/// Relies on `str::lines`: lines end at `\n` or `\r\n`, the ending is
/// not part of the line, and the last line's ending is optional.
#[verifier::external_body]
pub(crate) fn split_lines(s: &str) -> (r: Vec<String>)
    ensures
        views(r@) == lines_of(s@),
{
    s.lines().map(|l| l.to_string()).collect()
}

} // verus!
