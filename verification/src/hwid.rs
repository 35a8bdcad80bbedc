use vstd::prelude::*;
use vstd::string::*;

use crate::text::{opt_view, trim, trimmed};

verus! {

/// The tag in front of a Windows security identifier in `wmic` output.
pub open spec fn sid_tag() -> Seq<char> {
    seq!['S', 'I', 'D', '=']
}

/// Whether the tag stands at position `i` of `s`.
pub open spec fn tag_at(s: Seq<char>, i: int) -> bool {
    0 <= i && i + 4 <= s.len() && s.subrange(i, i + 4) == sid_tag()
}

/// `s` with every occurrence of the tag removed, scanning from the left
/// without overlaps (what `str::replace(s, "SID=", "")` computes).
pub open spec fn strip_sid_tags(s: Seq<char>) -> Seq<char>
    decreases s.len(),
{
    if s.len() < 4 {
        s
    } else if tag_at(s, 0) {
        strip_sid_tags(s.subrange(4, s.len() as int))
    } else {
        seq![s[0]] + strip_sid_tags(s.drop_first())
    }
}

/// The number of characters before the first line feed of `s` (all of `s`
/// when it has none).
pub open spec fn line_len(s: Seq<char>) -> nat
    decreases s.len(),
{
    if s.len() == 0 || s[0] == '\n' {
        0
    } else {
        1 + line_len(s.drop_first())
    }
}

/// A line is never longer than the text it starts.
pub proof fn lemma_line_len_bound(s: Seq<char>)
    ensures
        line_len(s) <= s.len(),
    decreases s.len(),
{
    if s.len() > 0 && s[0] != '\n' {
        lemma_line_len_bound(s.drop_first());
    }
}

/// The identifier that `wmic ... get sid /value` printed in `out`: the first
/// line that, trimmed, starts with the tag, trimmed and with the tags removed.
pub open spec fn wmic_sid(out: Seq<char>) -> Option<Seq<char>>
    decreases out.len(),
{
    proof {
        lemma_line_len_bound(out);
    }
    let k = line_len(out);
    let line = trimmed(out.subrange(0, k as int));
    if tag_at(line, 0) {
        Some(strip_sid_tags(line))
    } else if k < out.len() {
        wmic_sid(out.subrange(k + 1int, out.len() as int))
    } else {
        None
    }
}

/// The identifier that PowerShell printed in `out`: the trimmed output,
/// when it is not empty.
pub open spec fn powershell_sid(out: Seq<char>) -> Option<Seq<char>> {
    if trimmed(out).len() > 0 {
        Some(trimmed(out))
    } else {
        None
    }
}

/// The hardware identifier reported when neither query gives one.
pub open spec fn unknown_hwid() -> Seq<char> {
    seq!['U', 'N', 'K', 'N', 'O', 'W', 'N', '_', 'H', 'W', 'I', 'D']
}

/// Whether the tag stands at position `i` of `s`.
fn has_tag_at(s: &str, i: usize) -> (r: bool)
    requires
        i + 4 <= s@.len() <= usize::MAX,
    ensures
        r == tag_at(s@, i as int),
{
    let r = s.get_char(i) == 'S' && s.get_char(i + 1) == 'I' && s.get_char(i + 2) == 'D'
        && s.get_char(i + 3) == '=';
    proof {
        let w = s@.subrange(i as int, i + 4);
        if r {
            assert(w =~= sid_tag());
        } else {
            if w == sid_tag() {
                assert(w[0] == s@[i as int]);
                assert(w[1] == s@[i + 1]);
                assert(w[2] == s@[i + 2]);
                assert(w[3] == s@[i + 3]);
            }
        }
    }
    r
}

/// `s` with every `SID=` removed, as `str::replace` does it.
pub fn strip_sid(s: &str) -> (r: String)
    ensures
        r@ == strip_sid_tags(s@),
{
    let n = s.unicode_len();
    let mut res = String::new();
    let mut run: usize = 0;
    let mut i: usize = 0;
    assert(s@.subrange(0, n as int) =~= s@);
    assert(s@.subrange(0, 0) =~= Seq::<char>::empty());
    assert(res@ + s@.subrange(0, 0) + strip_sid_tags(s@) =~= strip_sid_tags(s@));
    while n - i >= 4
        invariant
            n == s@.len(),
            run <= i <= n,
            strip_sid_tags(s@) == res@ + s@.subrange(run as int, i as int) + strip_sid_tags(
                s@.subrange(i as int, n as int),
            ),
        decreases n - i,
    {
        let ghost rest = s@.subrange(i as int, n as int);
        if has_tag_at(s, i) {
            assert(rest.subrange(0, 4) =~= s@.subrange(i as int, i + 4));
            assert(rest.subrange(4, rest.len() as int) =~= s@.subrange(i + 4, n as int));
            let piece = s.substring_char(run, i);
            res.append(piece);
            i = i + 4;
            run = i;
            assert(s@.subrange(run as int, i as int) =~= Seq::<char>::empty());
            assert(strip_sid_tags(s@) =~= res@ + s@.subrange(run as int, i as int)
                + strip_sid_tags(s@.subrange(i as int, n as int)));
        } else {
            assert(rest.subrange(0, 4) =~= s@.subrange(i as int, i + 4));
            assert(rest.drop_first() =~= s@.subrange(i + 1, n as int));
            assert(rest[0] == s@[i as int]);
            let ghost before = s@.subrange(run as int, i as int);
            assert(s@.subrange(run as int, i + 1) =~= before + seq![s@[i as int]]);
            i = i + 1;
            assert(strip_sid_tags(s@) =~= res@ + s@.subrange(run as int, i as int)
                + strip_sid_tags(s@.subrange(i as int, n as int)));
        }
    }
    let piece = s.substring_char(run, n);
    assert(s@.subrange(run as int, n as int) =~= s@.subrange(run as int, i as int) + s@.subrange(
        i as int,
        n as int,
    ));
    res.append(piece);
    assert(res@ =~= strip_sid_tags(s@));
    res
}

/// The identifier in the output of the PowerShell query, if any.
pub fn sid_from_powershell(out: &str) -> (r: Option<String>)
    ensures
        opt_view(r) == powershell_sid(out@),
{
    let t = trim(out);
    if t.unicode_len() > 0 {
        Some(String::from_str(t))
    } else {
        None
    }
}

/// The identifier in the output of the `wmic` query, if any.
pub fn sid_from_wmic(out: &str) -> (r: Option<String>)
    ensures
        opt_view(r) == wmic_sid(out@),
{
    let n = out.unicode_len();
    let mut pos: usize = 0;
    assert(out@.subrange(0, n as int) =~= out@);
    loop
        invariant
            n == out@.len(),
            pos <= n,
            wmic_sid(out@) == wmic_sid(out@.subrange(pos as int, n as int)),
        decreases n - pos,
    {
        let ghost rest = out@.subrange(pos as int, n as int);
        let mut j: usize = pos;
        while j < n
            invariant
                n == out@.len(),
                pos <= j <= n,
                rest == out@.subrange(pos as int, n as int),
                line_len(rest) == (j - pos) + line_len(out@.subrange(j as int, n as int)),
            ensures
                pos <= j <= n,
                line_len(rest) == (j - pos) + line_len(out@.subrange(j as int, n as int)),
                j < n ==> out@[j as int] == '\n',
            decreases n - j,
        {
            if out.get_char(j) == '\n' {
                break;
            }
            let ghost tail = out@.subrange(j as int, n as int);
            assert(tail[0] == out@[j as int]);
            assert(tail.drop_first() =~= out@.subrange(j + 1, n as int));
            j = j + 1;
        }
        proof {
            let tail = out@.subrange(j as int, n as int);
            if j < n {
                assert(tail[0] == out@[j as int]);
            }
            assert(line_len(tail) == 0);
            lemma_line_len_bound(rest);
            assert(rest.subrange(0, (j - pos) as int) =~= out@.subrange(pos as int, j as int));
        }
        let line = out.substring_char(pos, j);
        let t = trim(line);
        if t.unicode_len() >= 4 && has_tag_at(t, 0) {
            return Some(strip_sid(t));
        }
        if j >= n {
            return None;
        }
        assert(rest.subrange((j - pos) + 1, rest.len() as int) =~= out@.subrange(
            j + 1,
            n as int,
        ));
        pos = j + 1;
    }
}

/// The identifier found by one of the queries, or `UNKNOWN_HWID` when none
/// was found.
pub fn hwid_or_unknown(found: Option<String>) -> (r: String)
    ensures
        r@ == match found {
            Some(x) => x@,
            None => unknown_hwid(),
        },
{
    match found {
        Some(x) => x,
        None => {
            let u = "UNKNOWN_HWID";
            proof {
                reveal_strlit("UNKNOWN_HWID");
            }
            assert(u@ =~= unknown_hwid());
            String::from_str(u)
        },
    }
}

} // verus!
