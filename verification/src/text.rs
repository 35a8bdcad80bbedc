use vstd::prelude::*;
use vstd::string::*;

verus! {

/// The characters with the Unicode `White_Space` property, which is what
/// `char::is_whitespace` and `str::trim` go by.
pub open spec fn is_white_space(c: char) -> bool {
    let u = c as u32;
    ||| 0x9 <= u <= 0xd
    ||| u == 0x20
    ||| u == 0x85
    ||| u == 0xa0
    ||| u == 0x1680
    ||| 0x2000 <= u <= 0x200a
    ||| u == 0x2028
    ||| u == 0x2029
    ||| u == 0x202f
    ||| u == 0x205f
    ||| u == 0x3000
}

/// `s` without its leading white space.
pub open spec fn trim_front(s: Seq<char>) -> Seq<char>
    decreases s.len(),
{
    if s.len() > 0 && is_white_space(s[0]) {
        trim_front(s.drop_first())
    } else {
        s
    }
}

/// `s` without its trailing white space.
pub open spec fn trim_back(s: Seq<char>) -> Seq<char>
    decreases s.len(),
{
    if s.len() > 0 && is_white_space(s.last()) {
        trim_back(s.drop_last())
    } else {
        s
    }
}

/// `s` without leading and trailing white space.
pub open spec fn trimmed(s: Seq<char>) -> Seq<char> {
    trim_back(trim_front(s))
}

/// The view of an optional string.
pub open spec fn opt_view(o: Option<String>) -> Option<Seq<char>> {
    match o {
        Some(x) => Some(x@),
        None => None,
    }
}

/// Whether `c` is a white-space character.
pub fn white_space(c: char) -> (r: bool)
    ensures
        r == is_white_space(c),
{
    let u = c as u32;
    (0x9 <= u && u <= 0xd) || u == 0x20 || u == 0x85 || u == 0xa0 || u == 0x1680 || (0x2000 <= u
        && u <= 0x200a) || u == 0x2028 || u == 0x2029 || u == 0x202f || u == 0x205f || u == 0x3000
}

/// The part of `s` between its leading and its trailing white space.
pub fn trim(s: &str) -> (r: &str)
    ensures
        r@ == trimmed(s@),
{
    let n = s.unicode_len();
    let mut start: usize = 0;
    assert(s@.subrange(0, n as int) =~= s@);
    while start < n
        invariant
            n == s@.len(),
            start <= n,
            trim_front(s@) == trim_front(s@.subrange(start as int, n as int)),
        ensures
            start <= n,
            trim_front(s@) == trim_front(s@.subrange(start as int, n as int)),
            start < n ==> !is_white_space(s@[start as int]),
        decreases n - start,
    {
        if !white_space(s.get_char(start)) {
            break;
        }
        assert(s@.subrange(start as int, n as int).drop_first() =~= s@.subrange(
            start + 1,
            n as int,
        ));
        start = start + 1;
    }
    let ghost front = s@.subrange(start as int, n as int);
    assert(trim_front(s@) == front) by {
        if start < n {
            assert(front[0] == s@[start as int]);
        } else {
            assert(front.len() == 0);
        }
    }
    let mut end: usize = n;
    while end > start
        invariant
            n == s@.len(),
            start <= end <= n,
            front == s@.subrange(start as int, n as int),
            trim_back(front) == trim_back(s@.subrange(start as int, end as int)),
        ensures
            start <= end <= n,
            trim_back(front) == trim_back(s@.subrange(start as int, end as int)),
            end > start ==> !is_white_space(s@[end - 1]),
        decreases end - start,
    {
        if !white_space(s.get_char(end - 1)) {
            break;
        }
        assert(s@.subrange(start as int, end as int).drop_last() =~= s@.subrange(
            start as int,
            end - 1,
        ));
        end = end - 1;
    }
    let ghost core = s@.subrange(start as int, end as int);
    assert(trim_back(front) == core) by {
        if end > start {
            assert(core.last() == s@[end - 1]);
        } else {
            assert(core.len() == 0);
        }
    }
    s.substring_char(start, end)
}

/// The decimal digit character for `d` (taken modulo nothing: `d` is below ten).
pub open spec fn digit_char(d: int) -> char {
    if d == 0 {
        '0'
    } else if d == 1 {
        '1'
    } else if d == 2 {
        '2'
    } else if d == 3 {
        '3'
    } else if d == 4 {
        '4'
    } else if d == 5 {
        '5'
    } else if d == 6 {
        '6'
    } else if d == 7 {
        '7'
    } else if d == 8 {
        '8'
    } else {
        '9'
    }
}

/// The decimal notation of `n`, without sign or leading zeros.
pub open spec fn decimal(n: nat) -> Seq<char>
    decreases n,
{
    if n < 10 {
        seq![digit_char(n as int)]
    } else {
        decimal(n / 10).push(digit_char((n % 10) as int))
    }
}

/// Whether `c` is one of the ASCII digits.
pub open spec fn is_digit(c: char) -> bool {
    48 <= (c as u32) <= 57
}

/// The value of the digit `c`.
pub open spec fn digit_value(c: char) -> int {
    (c as u32) - 48
}

/// Whether every character of `s` is a digit.
pub open spec fn all_digits(s: Seq<char>) -> bool {
    forall|i: int| 0 <= i < s.len() ==> is_digit(#[trigger] s[i])
}

/// The number that the digits `s` spell in base ten.
pub open spec fn digits_value(s: Seq<char>) -> int
    decreases s.len(),
{
    if s.len() == 0 {
        0
    } else {
        10 * digits_value(s.drop_last()) + digit_value(s.last())
    }
}

/// What `str::parse::<i64>` gives for `s`: an optional `+` or `-`, then one
/// or more digits, with the value in the range of `i64`.
pub open spec fn parsed_i64(s: Seq<char>) -> Option<int> {
    let signed = s.len() > 0 && (s[0] == '-' || s[0] == '+');
    let body = if signed {
        s.drop_first()
    } else {
        s
    };
    let v = if s.len() > 0 && s[0] == '-' {
        -digits_value(body)
    } else {
        digits_value(body)
    };
    if body.len() == 0 || !all_digits(body) {
        None
    } else if i64::MIN <= v <= i64::MAX {
        Some(v)
    } else {
        None
    }
}

/// The text of a remaining time of `seconds`: whole days, then hours and
/// minutes, as `"{d}d {h}h {m}m"`.
pub open spec fn timeleft_text(seconds: nat) -> Seq<char> {
    decimal(seconds / 86400) + seq!['d', ' '] + decimal((seconds % 86400) / 3600) + seq!['h', ' ']
        + decimal((seconds % 3600) / 60) + seq!['m']
}

/// The digits of a prefix of a digit string are worth no more than the whole.
pub proof fn lemma_digits_value_prefix(s: Seq<char>, k: int)
    requires
        all_digits(s),
        0 <= k <= s.len(),
    ensures
        0 <= digits_value(s.subrange(0, k)) <= digits_value(s),
    decreases s.len(),
{
    if s.len() > 0 {
        let d = s.drop_last();
        assert(is_digit(s[s.len() - 1]));
        if k == s.len() {
            assert(s.subrange(0, k) =~= s);
            lemma_digits_value_prefix(d, d.len() as int);
            assert(d.subrange(0, d.len() as int) =~= d);
        } else {
            lemma_digits_value_prefix(d, k);
            assert(d.subrange(0, k) =~= s.subrange(0, k));
        }
    } else {
        assert(s.subrange(0, k) =~= s);
    }
}

/// The one-character text of the digit `d`.
fn digit_str(d: u64) -> (r: &'static str)
    requires
        d < 10,
    ensures
        r@ == seq![digit_char(d as int)],
{
    if d == 0 {
        proof {
            reveal_strlit("0");
        }
        "0"
    } else if d == 1 {
        proof {
            reveal_strlit("1");
        }
        "1"
    } else if d == 2 {
        proof {
            reveal_strlit("2");
        }
        "2"
    } else if d == 3 {
        proof {
            reveal_strlit("3");
        }
        "3"
    } else if d == 4 {
        proof {
            reveal_strlit("4");
        }
        "4"
    } else if d == 5 {
        proof {
            reveal_strlit("5");
        }
        "5"
    } else if d == 6 {
        proof {
            reveal_strlit("6");
        }
        "6"
    } else if d == 7 {
        proof {
            reveal_strlit("7");
        }
        "7"
    } else if d == 8 {
        proof {
            reveal_strlit("8");
        }
        "8"
    } else {
        proof {
            reveal_strlit("9");
        }
        "9"
    }
}

/// The decimal notation of `n`.
pub fn decimal_string(n: u64) -> (r: String)
    ensures
        r@ == decimal(n as nat),
    decreases n,
{
    if n < 10 {
        String::from_str(digit_str(n))
    } else {
        let mut r = decimal_string(n / 10);
        r.append(digit_str(n % 10));
        assert(r@ =~= decimal(n as nat));
        r
    }
}

/// The remaining time `seconds` as days, hours and minutes (`"2d 3h 4m"`).
pub fn format_timeleft(seconds: u64) -> (r: String)
    ensures
        r@ == timeleft_text(seconds as nat),
{
    let d = seconds / 86400;
    let h = (seconds % 86400) / 3600;
    let m = (seconds % 3600) / 60;
    let mut r = decimal_string(d);
    proof {
        reveal_strlit("d ");
        reveal_strlit("h ");
        reveal_strlit("m");
    }
    r.append("d ");
    let hs = decimal_string(h);
    r.append(hs.as_str());
    r.append("h ");
    let ms = decimal_string(m);
    r.append(ms.as_str());
    r.append("m");
    assert(r@ =~= timeleft_text(seconds as nat));
    r
}

/// The integer that `s` spells, as `str::parse::<i64>` reads it.
pub fn parse_i64(s: &str) -> (r: Option<i64>)
    ensures
        match r {
            Some(v) => parsed_i64(s@) == Some(v as int),
            None => parsed_i64(s@) is None,
        },
{
    let n = s.unicode_len();
    let mut start: usize = 0;
    let mut neg = false;
    if n > 0 {
        let c = s.get_char(0);
        if c == '-' {
            neg = true;
            start = 1;
        } else if c == '+' {
            start = 1;
        }
    }
    let ghost body = s@.subrange(start as int, n as int);
    assert(s@.len() > 0 && (s@[0] == '-' || s@[0] == '+') ==> body =~= s@.drop_first());
    assert(!(s@.len() > 0 && (s@[0] == '-' || s@[0] == '+')) ==> body =~= s@);
    if start >= n {
        return None;
    }
    let limit: u128 = 9223372036854775808;
    let mut acc: u128 = 0;
    let mut i: usize = start;
    assert(body.subrange(0, 0) =~= Seq::<char>::empty());
    while i < n
        invariant
            n == s@.len(),
            start <= i <= n,
            body == s@.subrange(start as int, n as int),
            all_digits(body.subrange(0, i - start)),
            acc == digits_value(body.subrange(0, i - start)),
            acc <= limit,
            limit == 9223372036854775808u128,
            neg == (s@.len() > 0 && s@[0] == '-'),
            start < n,
            s@.len() > 0 && (s@[0] == '-' || s@[0] == '+') ==> body =~= s@.drop_first(),
            !(s@.len() > 0 && (s@[0] == '-' || s@[0] == '+')) ==> body =~= s@,
        decreases n - i,
    {
        let c = s.get_char(i);
        assert(body[i - start] == c);
        if !('0' <= c && c <= '9') {
            assert(!is_digit(body[i - start]));
            return None;
        }
        let dv = (c as u32 - 48) as u128;
        acc = acc * 10 + dv;
        let ghost pre = body.subrange(0, i + 1 - start);
        assert(pre.drop_last() =~= body.subrange(0, i - start));
        assert(pre.last() == c);
        i = i + 1;
        assert(all_digits(body.subrange(0, i - start)));
        if acc > limit {
            proof {
                if all_digits(body) {
                    lemma_digits_value_prefix(body, i - start);
                }
            }
            return None;
        }
    }
    assert(body.subrange(0, i - start) =~= body);
    if neg {
        if acc == limit {
            Some(i64::MIN)
        } else {
            Some(-(acc as i64))
        }
    } else {
        if acc < limit {
            Some(acc as i64)
        } else {
            None
        }
    }
}

/// The days, hours and minutes of a remaining time account for all of it
/// but the last partial minute: hours stay below 24 and minutes below 60.
pub proof fn law_timeleft_parts(seconds: nat)
    ensures
        (seconds % 86400) / 3600 < 24,
        (seconds % 3600) / 60 < 60,
        (seconds / 86400) * 86400 + ((seconds % 86400) / 3600) * 3600 + ((seconds % 3600) / 60) * 60
            + seconds % 60 == seconds,
{
    let d = seconds / 86400;
    let r1 = seconds % 86400;
    let h = r1 / 3600;
    let r2 = r1 % 3600;
    let m = r2 / 60;
    let r3 = r2 % 60;
    assert(seconds == d * 86400 + r1 && r1 < 86400) by (nonlinear_arith)
        requires
            d == seconds / 86400,
            r1 == seconds % 86400,
    ;
    assert(r1 == h * 3600 + r2 && r2 < 3600 && h < 24) by (nonlinear_arith)
        requires
            h == r1 / 3600,
            r2 == r1 % 3600,
            r1 < 86400,
    ;
    assert(r2 == m * 60 + r3 && r3 < 60 && m < 60) by (nonlinear_arith)
        requires
            m == r2 / 60,
            r3 == r2 % 60,
            r2 < 3600,
    ;
    assert(seconds % 3600 == r2) by (nonlinear_arith)
        requires
            seconds == d * 86400 + h * 3600 + r2,
            r2 < 3600,
            d >= 0,
            h >= 0,
    ;
    assert(seconds % 60 == r3) by (nonlinear_arith)
        requires
            seconds == d * 86400 + h * 3600 + m * 60 + r3,
            r3 < 60,
            d >= 0,
            h >= 0,
            m >= 0,
    ;
}

} // verus!
