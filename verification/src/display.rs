use vstd::prelude::*;
use vstd::string::*;

use chrono::{DateTime, Local, TimeZone};

use crate::model::{Subscription, UserInfo};
use crate::text::{
    decimal, decimal_string, digit_char, format_timeleft, parse_i64, parsed_i64, timeleft_text,
};

verus! {

/// The first second that chrono's calendar holds: -262143-01-01 00:00:00 UTC,
/// counted from the Unix epoch.
pub open spec fn first_chrono_second() -> int {
    -8334601228800
}

/// The last second that chrono's calendar holds: 262142-12-31 23:59:59 UTC,
/// counted from the Unix epoch.
pub open spec fn last_chrono_second() -> int {
    8210266876799
}

/// Whether chrono can place the instant `secs` seconds after the Unix epoch.
pub open spec fn chrono_places(secs: int) -> bool {
    first_chrono_second() <= secs <= last_chrono_second()
}

/// The pattern in which dates are shown: `2025-01-01 08:00:00 AM`.
pub open spec fn local_date_format() -> Seq<char> {
    seq![
        '%', 'Y', '-', '%', 'm', '-', '%', 'd', ' ', '%', 'I', ':', '%', 'M', ':', '%', 'S', ' ', '%', 'p',
    ]
}

/// How chrono writes, in the pattern `local_date_format`, the calendar date
/// and wall-clock time that lie `secs` seconds after 1970-01-01 00:00:00.
pub uninterp spec fn chrono_naive_text(secs: int) -> Seq<char>;

/// Whether `y` is a leap year of the proleptic Gregorian calendar.
pub open spec fn is_leap_year(y: int) -> bool {
    (y % 4 == 0 && y % 100 != 0) || y % 400 == 0
}

/// The number of days of year `y`.
pub open spec fn year_len(y: int) -> int {
    if is_leap_year(y) {
        366
    } else {
        365
    }
}

/// The number of days of month `m` (1 to 12) of year `y`.
pub open spec fn month_len(y: int, m: int) -> int {
    if m == 2 {
        if is_leap_year(y) {
            29
        } else {
            28
        }
    } else if m == 4 || m == 6 || m == 9 || m == 11 {
        30
    } else {
        31
    }
}

/// The number of leap years among the years 1 to `n` (counted backwards,
/// as a negative number, for `n` below zero).
pub open spec fn leap_count(n: int) -> int {
    n / 4 - n / 100 + n / 400
}

/// The day (counted from 1970-01-01 as day 0) on which year `y` begins.
pub open spec fn year_start(y: int) -> int {
    365 * (y - 1970) + leap_count(y - 1) - leap_count(1969)
}

/// The number of days of year `y` before month `m` begins.
pub open spec fn days_before_month(y: int, m: int) -> int {
    let base: int = if m == 1 {
        0
    } else if m == 2 {
        31
    } else if m == 3 {
        59
    } else if m == 4 {
        90
    } else if m == 5 {
        120
    } else if m == 6 {
        151
    } else if m == 7 {
        181
    } else if m == 8 {
        212
    } else if m == 9 {
        243
    } else if m == 10 {
        273
    } else if m == 11 {
        304
    } else {
        334
    };
    if m > 2 && is_leap_year(y) {
        base + 1
    } else {
        base
    }
}

/// Whether `m` and `d` are a month and a day of it in year `y`.
pub open spec fn valid_date(y: int, m: int, d: int) -> bool {
    1 <= m <= 12 && 1 <= d <= month_len(y, m)
}

/// The day (counted from 1970-01-01 as day 0) of the date `y`-`m`-`d`.
pub open spec fn epoch_day(y: int, m: int, d: int) -> int {
    year_start(y) + days_before_month(y, m) + d - 1
}

/// The calendar date of the day `day` (counted from 1970-01-01 as day 0).
pub open spec fn civil_date(day: int) -> (int, int, int) {
    choose|y: int, m: int, d: int| valid_date(y, m, d) && epoch_day(y, m, d) == day
}

/// The number `n` (0 to 99) in two digits.
pub open spec fn two_digits(n: int) -> Seq<char> {
    seq![digit_char(n / 10), digit_char(n % 10)]
}

/// The number `n` in at least four digits, padded with zeros.
pub open spec fn four_digits(n: nat) -> Seq<char> {
    if n < 10 {
        seq!['0', '0', '0'] + decimal(n)
    } else if n < 100 {
        seq!['0', '0'] + decimal(n)
    } else if n < 1000 {
        seq!['0'] + decimal(n)
    } else {
        decimal(n)
    }
}

/// How `%Y` writes the year `y`: four digits for the years 0 to 9999,
/// otherwise with a sign.
pub open spec fn year_text(y: int) -> Seq<char> {
    if 0 <= y <= 9999 {
        four_digits(y as nat)
    } else if y > 9999 {
        seq!['+'] + decimal(y as nat)
    } else {
        seq!['-'] + four_digits((-y) as nat)
    }
}

/// The time of day `sod` (seconds after midnight) as `hh:mm:ss AM` or `PM`,
/// on a twelve-hour clock.
pub open spec fn clock_text(sod: int) -> Seq<char> {
    let h = sod / 3600;
    let h12 = if h % 12 == 0 {
        12
    } else {
        h % 12
    };
    two_digits(h12) + seq![':'] + two_digits((sod % 3600) / 60) + seq![':'] + two_digits(sod % 60)
        + (if h >= 12 {
        seq![' ', 'P', 'M']
    } else {
        seq![' ', 'A', 'M']
    })
}

/// The date and time `secs` seconds after 1970-01-01 00:00:00 in the pattern
/// `local_date_format`: `YYYY-MM-DD hh:mm:ss AM`.
pub open spec fn calendar_text(secs: int) -> Seq<char> {
    let (y, m, d) = civil_date(secs / 86400);
    year_text(y) + seq!['-'] + two_digits(m) + seq!['-'] + two_digits(d) + seq![' '] + clock_text(
        secs % 86400,
    )
}

/// Calls `chrono::DateTime::from_timestamp(secs, 0)` and, when that gives an
/// instant, `chrono::Local::from_utc_datetime` on it, written with
/// `format(fmt).to_string()`. The contract claims that a text comes back
/// exactly when the instant lies in chrono's calendar, and that the text is
/// chrono's writing of the wall-clock time at that instant plus the local
/// offset, which chrono keeps strictly within a day either way: the
/// Gregorian date and the twelve-hour time of that moment. Which offset the
/// machine's time zone gives is left unsaid. The pattern is one whose
/// items chrono always writes, which keeps `to_string` from panicking.
#[verifier::external_body]
fn local_date_text(secs: i64, fmt: &str) -> (r: Option<String>)
    requires
        fmt@ == local_date_format(),
    ensures
        r is Some <==> chrono_places(secs as int),
        r matches Some(t) ==> exists|o: int|
            -86400 < o < 86400 && t@ == #[trigger] chrono_naive_text(secs + o) && t@
                == calendar_text(secs + o),
{
    match DateTime::from_timestamp(secs, 0) {
        Some(dt) => Some(Local.from_utc_datetime(&dt.naive_utc()).format(fmt).to_string()),
        None => None,
    }
}

/// What showing the Unix timestamp text `ts` gives: `ts` itself when it is
/// not a number or chrono cannot place it; otherwise the local date and time
/// of that instant, which differs from the UTC one by less than a day.
pub open spec fn date_text_ok(ts: Seq<char>, shown: Seq<char>) -> bool {
    match parsed_i64(ts) {
        Some(secs) => if chrono_places(secs) {
            exists|o: int|
                -86400 < o < 86400 && shown == #[trigger] chrono_naive_text(secs + o) && shown
                    == calendar_text(secs + o)
        } else {
            shown == ts
        },
        None => shown == ts,
    }
}

/// What is shown for the timestamp text `ts` once chrono has rendered it as
/// `local` (nothing when chrono could not place it): the rendering, or `ts`.
pub fn shown_date(ts: &str, local: Option<String>) -> (r: String)
    ensures
        r@ == match local {
            Some(t) => t@,
            None => ts@,
        },
{
    match local {
        Some(text) => text,
        None => String::from_str(ts),
    }
}

/// The Unix timestamp text `ts` as a local date and time, or `ts` unchanged
/// when it cannot be read as one.
pub fn format_date(ts: &str) -> (r: String)
    ensures
        date_text_ok(ts@, r@),
{
    match parse_i64(ts) {
        Some(secs) => {
            let fmt = "%Y-%m-%d %I:%M:%S %p";
            proof {
                reveal_strlit("%Y-%m-%d %I:%M:%S %p");
            }
            assert(fmt@ =~= local_date_format());
            shown_date(ts, local_date_text(secs, fmt))
        },
        None => String::from_str(ts),
    }
}

/// The texts of a list of lines.
pub open spec fn lines_view(v: Seq<String>) -> Seq<Seq<char>> {
    v.map_values(|s: String| s@)
}

/// A line `label` followed by the value, when there is a value.
pub open spec fn optional_line(label: Seq<char>, value: Option<String>) -> Seq<Seq<char>> {
    match value {
        Some(v) => seq![label + v@],
        None => seq![],
    }
}

/// The line of the subscription at position `i` (counted from one on screen),
/// with its expiry shown as `expiry_text`.
pub open spec fn subscription_line(i: int, s: Subscription, expiry_text: Seq<char>) -> Seq<char> {
    "["@ + decimal((i + 1) as nat) + "] "@ + s.subscription@ + " | Expiry: "@ + expiry_text
        + " | Timeleft: "@ + timeleft_text(s.timeleft as nat)
}

/// The subscription section: a heading and a line for each subscription, or
/// nothing when there are none.
pub open spec fn subscription_lines(
    subs: Option<Vec<Subscription>>,
    expiries: Seq<Seq<char>>,
) -> Seq<Seq<char>> {
    match subs {
        Some(v) => if v@.len() > 0 {
            seq!["\nSubscriptions:"@] + Seq::new(
                v@.len(),
                |i: int| subscription_line(i, v@[i], expiries[i]),
            )
        } else {
            seq![]
        },
        None => seq![],
    }
}

/// The report on a signed-in user, with the creation date, the last login
/// and the expiries shown as `created`, `last` and `expiries`.
pub open spec fn user_report(
    info: UserInfo,
    created: Seq<char>,
    last: Seq<char>,
    expiries: Seq<Seq<char>>,
) -> Seq<Seq<char>> {
    seq!["\n=== User Data ==="@, "Username: "@ + info.username@] + optional_line("IP: "@, info.ip)
        + optional_line("HWID: "@, info.hwid) + (if info.createdate is Some {
        seq!["Created: "@ + created]
    } else {
        seq![]
    }) + (if info.lastlogin is Some {
        seq!["Last Login: "@ + last]
    } else {
        seq![]
    }) + subscription_lines(info.subscriptions, expiries) + seq![Seq::<char>::empty()]
}

/// The dates of the report are shown as `format_date` shows them.
pub open spec fn report_dates_fit(
    info: UserInfo,
    created: Seq<char>,
    last: Seq<char>,
    expiries: Seq<Seq<char>>,
) -> bool {
    &&& (info.createdate matches Some(c) ==> date_text_ok(c@, created))
    &&& (info.lastlogin matches Some(l) ==> date_text_ok(l@, last))
    &&& (info.subscriptions matches Some(v) ==> {
        &&& expiries.len() == v@.len()
        &&& forall|i: int|
            0 <= i < v@.len() ==> date_text_ok(v@[i].expiry@, #[trigger] expiries[i])
    })
}

/// `label` followed by `value`.
fn labelled(label: &str, value: &str) -> (r: String)
    ensures
        r@ == label@ + value@,
{
    let mut r = String::from_str(label);
    r.append(value);
    r
}

/// The lines that describe a signed-in user: name, address, hardware id,
/// dates and subscriptions, each only when the server sent it.
pub fn user_info_lines(info: &UserInfo) -> (r: Vec<String>)
    ensures
        exists|c: Seq<char>, l: Seq<char>, e: Seq<Seq<char>>|
            #![trigger user_report(*info, c, l, e)]
            report_dates_fit(*info, c, l, e) && lines_view(r@) == user_report(*info, c, l, e),
{
    let mut lines: Vec<String> = Vec::new();
    lines.push(String::from_str("\n=== User Data ==="));
    lines.push(labelled("Username: ", info.username.as_str()));
    let ghost head = lines_view(lines@);
    assert(head =~= seq!["\n=== User Data ==="@, "Username: "@ + info.username@]);
    match &info.ip {
        Some(ip) => lines.push(labelled("IP: ", ip.as_str())),
        None => {},
    }
    match &info.hwid {
        Some(h) => lines.push(labelled("HWID: ", h.as_str())),
        None => {},
    }
    let ghost mut created = Seq::<char>::empty();
    match &info.createdate {
        Some(cd) => {
            let d = format_date(cd.as_str());
            proof {
                created = d@;
            }
            lines.push(labelled("Created: ", d.as_str()));
        },
        None => {},
    }
    let ghost mut last = Seq::<char>::empty();
    match &info.lastlogin {
        Some(ll) => {
            let d = format_date(ll.as_str());
            proof {
                last = d@;
            }
            lines.push(labelled("Last Login: ", d.as_str()));
        },
        None => {},
    }
    let ghost before_subs = lines_view(lines@);
    assert(before_subs =~= seq!["\n=== User Data ==="@, "Username: "@ + info.username@]
        + optional_line("IP: "@, info.ip) + optional_line("HWID: "@, info.hwid) + (
    if info.createdate is Some {
        seq!["Created: "@ + created]
    } else {
        seq![]
    }) + (if info.lastlogin is Some {
        seq!["Last Login: "@ + last]
    } else {
        seq![]
    }));
    let ghost mut expiries = Seq::<Seq<char>>::empty();
    match &info.subscriptions {
        Some(subs) => {
            if subs.len() > 0 {
                lines.push(String::from_str("\nSubscriptions:"));
                let n = subs.len();
                let mut i: usize = 0;
                while i < n
                    invariant
                        n == subs@.len(),
                        i <= n,
                        expiries.len() == i,
                        forall|k: int|
                            0 <= k < i ==> date_text_ok(subs@[k].expiry@, #[trigger] expiries[k]),
                        lines_view(lines@) == before_subs + seq!["\nSubscriptions:"@] + Seq::new(
                            i as nat,
                            |k: int| subscription_line(k, subs@[k], expiries[k]),
                        ),
                    decreases n - i,
                {
                    let sub = &subs[i];
                    let d = format_date(sub.expiry.as_str());
                    let num = decimal_string((i + 1) as u64);
                    let tl = format_timeleft(sub.timeleft);
                    let mut t = String::from_str("[");
                    t.append(num.as_str());
                    t.append("] ");
                    t.append(sub.subscription.as_str());
                    t.append(" | Expiry: ");
                    t.append(d.as_str());
                    t.append(" | Timeleft: ");
                    t.append(tl.as_str());
                    let ghost prev = lines_view(lines@);
                    let ghost old_exp = expiries;
                    proof {
                        expiries = expiries.push(d@);
                    }
                    assert(t@ =~= subscription_line(i as int, subs@[i as int], d@));
                    lines.push(t);
                    assert(lines_view(lines@) =~= prev.push(t@));
                    assert(lines_view(lines@) =~= before_subs + seq!["\nSubscriptions:"@] + Seq::new(
                        (i + 1) as nat,
                        |k: int| subscription_line(k, subs@[k], expiries[k]),
                    )) by {
                        assert forall|k: int| 0 <= k < i implies expiries[k] == old_exp[k] by {}
                    }
                    i = i + 1;
                }
            }
        },
        None => {},
    }
    let ghost with_subs = lines_view(lines@);
    assert(with_subs =~= before_subs + subscription_lines(info.subscriptions, expiries));
    lines.push(String::new());
    assert(lines_view(lines@) =~= user_report(*info, created, last, expiries));
    assert(report_dates_fit(*info, created, last, expiries));
    lines
}

/// How many lines of the report come before the subscription heading.
pub open spec fn lines_before_subscriptions(info: UserInfo) -> int {
    2 + (if info.ip is Some {
        1int
    } else {
        0int
    }) + (if info.hwid is Some {
        1int
    } else {
        0int
    }) + (if info.createdate is Some {
        1int
    } else {
        0int
    }) + (if info.lastlogin is Some {
        1int
    } else {
        0int
    })
}

/// In the report on a user with subscriptions, the heading is followed by
/// one line per subscription, in order and numbered from one. Each line
/// shows the subscription's name, its expiry shown as a date (as
/// `format_date` shows it: the local date and time when the expiry is a
/// timestamp) and its remaining time; then one empty line ends the report.
pub proof fn law_report_subscriptions(
    info: UserInfo,
    created: Seq<char>,
    last: Seq<char>,
    expiries: Seq<Seq<char>>,
    subs: Vec<Subscription>,
    k: int,
)
    requires
        report_dates_fit(info, created, last, expiries),
        info.subscriptions == Some(subs),
        0 <= k < subs@.len(),
    ensures
        user_report(info, created, last, expiries).len() == lines_before_subscriptions(info) + 2
            + subs@.len(),
        user_report(info, created, last, expiries)[lines_before_subscriptions(info)]
            == "\nSubscriptions:"@,
        user_report(info, created, last, expiries)[lines_before_subscriptions(info) + 1 + k] == "["@
            + decimal((k + 1) as nat) + "] "@ + subs@[k].subscription@ + " | Expiry: "@
            + expiries[k] + " | Timeleft: "@ + timeleft_text(subs@[k].timeleft as nat),
        date_text_ok(subs@[k].expiry@, expiries[k]),
        user_report(info, created, last, expiries)[lines_before_subscriptions(info) + 1
            + subs@.len()] == Seq::<char>::empty(),
{
    let r = user_report(info, created, last, expiries);
    let head = seq!["\n=== User Data ==="@, "Username: "@ + info.username@] + optional_line(
        "IP: "@,
        info.ip,
    ) + optional_line("HWID: "@, info.hwid) + (if info.createdate is Some {
        seq!["Created: "@ + created]
    } else {
        seq![]
    }) + (if info.lastlogin is Some {
        seq!["Last Login: "@ + last]
    } else {
        seq![]
    });
    assert(head.len() == lines_before_subscriptions(info));
    let body = subscription_lines(info.subscriptions, expiries);
    assert(body =~= seq!["\nSubscriptions:"@] + Seq::new(
        subs@.len(),
        |i: int| subscription_line(i, subs@[i], expiries[i]),
    ));
    assert(r =~= head + body + seq![Seq::<char>::empty()]);
    assert(r[head.len() + 1 + k] == body[1 + k]);
}

/// The report shows the creation date and the last login as `format_date`
/// shows them, right after the user name, address and hardware id.
pub proof fn law_report_dates(
    info: UserInfo,
    created: Seq<char>,
    last: Seq<char>,
    expiries: Seq<Seq<char>>,
    c: String,
    l: String,
)
    requires
        report_dates_fit(info, created, last, expiries),
        info.createdate == Some(c),
        info.lastlogin == Some(l),
    ensures
        user_report(info, created, last, expiries)[lines_before_subscriptions(info) - 2]
            == "Created: "@ + created,
        user_report(info, created, last, expiries)[lines_before_subscriptions(info) - 1]
            == "Last Login: "@ + last,
        date_text_ok(c@, created),
        date_text_ok(l@, last),
{
    let r = user_report(info, created, last, expiries);
    let pre = seq!["\n=== User Data ==="@, "Username: "@ + info.username@] + optional_line(
        "IP: "@,
        info.ip,
    ) + optional_line("HWID: "@, info.hwid);
    let rest = subscription_lines(info.subscriptions, expiries) + seq![Seq::<char>::empty()];
    assert(r =~= pre + seq!["Created: "@ + created] + seq!["Last Login: "@ + last] + rest);
    assert(pre.len() == lines_before_subscriptions(info) - 2);
}

/// Each year begins where the one before it ends.
proof fn lemma_year_step(y: int)
    ensures
        year_start(y + 1) == year_start(y) + year_len(y),
{
    assert(leap_count(y) - leap_count(y - 1) == if is_leap_year(y) {
        1int
    } else {
        0int
    }) by (nonlinear_arith);
}

/// The year in which the day `day` lies, searching forward from year `y`.
proof fn lemma_year_up(day: int, y: int) -> (r: int)
    requires
        year_start(y) <= day,
    ensures
        year_start(r) <= day < year_start(r + 1),
    decreases day - year_start(y),
{
    lemma_year_step(y);
    if day < year_start(y + 1) {
        y
    } else {
        lemma_year_up(day, y + 1)
    }
}

/// The year in which the day `day` lies, searching backward from year `y`.
proof fn lemma_year_down(day: int, y: int) -> (r: int)
    requires
        day < year_start(y),
    ensures
        year_start(r) <= day < year_start(r + 1),
    decreases year_start(y) - day,
{
    lemma_year_step(y - 1);
    if day >= year_start(y - 1) {
        y - 1
    } else {
        lemma_year_down(day, y - 1)
    }
}

/// The month and day of the day `r` (counted from zero) of year `y`.
proof fn lemma_month_of(y: int, r: int) -> (md: (int, int))
    requires
        0 <= r < year_len(y),
    ensures
        valid_date(y, md.0, md.1),
        days_before_month(y, md.0) + md.1 - 1 == r,
{
    let mut m: int = 12;
    if r < days_before_month(y, 2) {
        m = 1;
    } else if r < days_before_month(y, 3) {
        m = 2;
    } else if r < days_before_month(y, 4) {
        m = 3;
    } else if r < days_before_month(y, 5) {
        m = 4;
    } else if r < days_before_month(y, 6) {
        m = 5;
    } else if r < days_before_month(y, 7) {
        m = 6;
    } else if r < days_before_month(y, 8) {
        m = 7;
    } else if r < days_before_month(y, 9) {
        m = 8;
    } else if r < days_before_month(y, 10) {
        m = 9;
    } else if r < days_before_month(y, 11) {
        m = 10;
    } else if r < days_before_month(y, 12) {
        m = 11;
    }
    (m, r - days_before_month(y, m) + 1)
}

/// Every day has a calendar date, and `civil_date` gives it.
pub proof fn lemma_civil_date(day: int)
    ensures
        valid_date(civil_date(day).0, civil_date(day).1, civil_date(day).2),
        epoch_day(civil_date(day).0, civil_date(day).1, civil_date(day).2) == day,
{
    let y = if day >= year_start(1970) {
        lemma_year_up(day, 1970)
    } else {
        lemma_year_down(day, 1970)
    };
    lemma_year_step(y);
    let md = lemma_month_of(y, day - year_start(y));
    assert(valid_date(y, md.0, md.1) && epoch_day(y, md.0, md.1) == day);
}

/// The wall-clock time of the moment `x` seconds after 1970-01-01 00:00:00.
pub open spec fn clock_of(x: int) -> Seq<char> {
    clock_text(x % 86400)
}

/// The text shown for a timestamp that chrono can place is a real date and
/// time: the Gregorian date (month 1 to 12, a day of that month) and the
/// twelve-hour time of a moment less than a day from the instant, in the
/// pattern `YYYY-MM-DD hh:mm:ss AM`.
pub proof fn law_shown_date_is_calendar_date(ts: Seq<char>, shown: Seq<char>, secs: int)
    requires
        date_text_ok(ts, shown),
        parsed_i64(ts) == Some(secs),
        chrono_places(secs),
    ensures
        exists|x: int, y: int, m: int, d: int|
            #![trigger epoch_day(y, m, d), clock_of(x)]
            secs - 86400 < x < secs + 86400 && valid_date(y, m, d) && epoch_day(y, m, d) == x
                / 86400 && shown == year_text(y) + seq!['-'] + two_digits(m) + seq!['-']
                + two_digits(d) + seq![' '] + clock_of(x),
{
    let o = choose|o: int|
        -86400 < o < 86400 && shown == #[trigger] chrono_naive_text(secs + o) && shown
            == calendar_text(secs + o);
    let x = secs + o;
    lemma_civil_date(x / 86400);
    let (y, m, d) = civil_date(x / 86400);
    assert(epoch_day(y, m, d) == x / 86400 && clock_of(x) == clock_text(x % 86400));
}

/// A timestamp that chrono can place is never shown as its own digits: the
/// text shown holds a time of day, with its `:`.
pub proof fn law_placed_timestamp_not_raw(ts: Seq<char>, shown: Seq<char>, secs: int)
    requires
        date_text_ok(ts, shown),
        parsed_i64(ts) == Some(secs),
        chrono_places(secs),
    ensures
        shown != ts,
{
    law_shown_date_is_calendar_date(ts, shown, secs);
    let (x, y, m, d) = choose|x: int, y: int, m: int, d: int|
        #![trigger epoch_day(y, m, d), clock_of(x)]
        secs - 86400 < x < secs + 86400 && valid_date(y, m, d) && epoch_day(y, m, d) == x / 86400
            && shown == year_text(y) + seq!['-'] + two_digits(m) + seq!['-'] + two_digits(d)
            + seq![' '] + clock_of(x);
    let front = year_text(y) + seq!['-'] + two_digits(m) + seq!['-'] + two_digits(d) + seq![' '];
    let k = front.len() + 2;
    assert(shown == front + clock_of(x));
    assert(clock_of(x)[2] == ':');
    assert(shown[k as int] == ':');
    if shown == ts {
        let signed = ts.len() > 0 && (ts[0] == '-' || ts[0] == '+');
        let body = if signed {
            ts.drop_first()
        } else {
            ts
        };
        assert(crate::text::all_digits(body));
        if signed {
            assert(body[k - 1] == ts[k as int]);
            assert(crate::text::is_digit(body[k - 1]));
        } else {
            assert(crate::text::is_digit(body[k as int]));
        }
    }
}

/// In the report, a subscription whose expiry is a timestamp that chrono can
/// place shows it as a date and time, never as the raw timestamp.
pub proof fn law_report_expiry_rendered(
    info: UserInfo,
    created: Seq<char>,
    last: Seq<char>,
    expiries: Seq<Seq<char>>,
    subs: Vec<Subscription>,
    k: int,
    secs: int,
)
    requires
        report_dates_fit(info, created, last, expiries),
        info.subscriptions == Some(subs),
        0 <= k < subs@.len(),
        parsed_i64(subs@[k].expiry@) == Some(secs),
        chrono_places(secs),
    ensures
        user_report(info, created, last, expiries)[lines_before_subscriptions(info) + 1 + k] == "["@
            + decimal((k + 1) as nat) + "] "@ + subs@[k].subscription@ + " | Expiry: "@
            + expiries[k] + " | Timeleft: "@ + timeleft_text(subs@[k].timeleft as nat),
        expiries[k] != subs@[k].expiry@,
        exists|x: int, y: int, m: int, d: int|
            #![trigger epoch_day(y, m, d), clock_of(x)]
            secs - 86400 < x < secs + 86400 && valid_date(y, m, d) && epoch_day(y, m, d) == x
                / 86400 && expiries[k] == year_text(y) + seq!['-'] + two_digits(m) + seq!['-']
                + two_digits(d) + seq![' '] + clock_of(x),
{
    law_report_subscriptions(info, created, last, expiries, subs, k);
    law_placed_timestamp_not_raw(subs@[k].expiry@, expiries[k], secs);
    law_shown_date_is_calendar_date(subs@[k].expiry@, expiries[k], secs);
}

} // verus!
