//! The textual shell primitives sent through the device session, built
//! character-exactly: `input tap`, `input swipe`, `input text`,
//! `input keyevent` and the launcher invocation, together with the
//! classification of the launcher's textual output.

use vstd::prelude::*;
use crate::error::DroidError;
use crate::geometry::Point;

verus! {

/// The decimal digit character for `d` in `[0, 9]`.
pub open spec fn digit_char(d: int) -> char {
    if d == 0 {
        '0'
    } else if d == 1 {
        '1'
    } else if d == 2 {
        '2'
    } else if d == 3 {
        '3'
    } else if d == 4 {
        '4'
    } else if d == 5 {
        '5'
    } else if d == 6 {
        '6'
    } else if d == 7 {
        '7'
    } else if d == 8 {
        '8'
    } else {
        '9'
    }
}

/// The decimal rendering of a nonnegative integer, without sign or leading
/// zeros (a single zero for 0).
pub open spec fn dec_digits(n: int) -> Seq<char>
    decreases n,
{
    if n < 10 {
        seq![digit_char(n)]
    } else {
        dec_digits(n / 10).push(digit_char(n % 10))
    }
}

/// Appends the decimal rendering of `n` to `s`.
fn push_dec_u64(s: &mut String, n: u64)
    ensures
        final(s)@ == old(s)@ + dec_digits(n as int),
    decreases n,
{
    let ghost prefix = s@;
    if n >= 10 {
        push_dec_u64(s, n / 10);
    }
    let d: u64 = n % 10;
    let ds: &str = if d == 0 {
        "0"
    } else if d == 1 {
        "1"
    } else if d == 2 {
        "2"
    } else if d == 3 {
        "3"
    } else if d == 4 {
        "4"
    } else if d == 5 {
        "5"
    } else if d == 6 {
        "6"
    } else if d == 7 {
        "7"
    } else if d == 8 {
        "8"
    } else {
        "9"
    };
    proof {
        reveal_strlit("0");
        reveal_strlit("1");
        reveal_strlit("2");
        reveal_strlit("3");
        reveal_strlit("4");
        reveal_strlit("5");
        reveal_strlit("6");
        reveal_strlit("7");
        reveal_strlit("8");
        reveal_strlit("9");
        assert(ds@ =~= seq![digit_char(d as int)]);
    }
    s.append(ds);
    proof {
        if n >= 10 {
            assert(dec_digits(n as int) =~= dec_digits(n as int / 10) + seq![
                digit_char(n as int % 10),
            ]);
            assert(s@ =~= prefix + dec_digits(n as int));
        } else {
            assert(s@ =~= prefix + dec_digits(n as int));
        }
    }
}

/// The `input tap <x> <y>` command for a point.
pub open spec fn tap_command_spec(p: Point) -> Seq<char> {
    "input tap "@ + dec_digits(p.x as int) + " "@ + dec_digits(p.y as int)
}

/// Builds the tap primitive for a point.
pub fn tap_command(p: Point) -> (s: String)
    ensures
        s@ == tap_command_spec(p),
{
    let mut s = String::from_str("input tap ");
    push_dec_u64(&mut s, p.x as u64);
    s.append(" ");
    push_dec_u64(&mut s, p.y as u64);
    s
}

/// The `input swipe <x1> <y1> <x2> <y2> <ms>` command between two points
/// over a duration in milliseconds.
pub open spec fn swipe_command_spec(start: Point, end: Point, duration_ms: u64) -> Seq<char> {
    "input swipe "@ + dec_digits(start.x as int) + " "@ + dec_digits(start.y as int) + " "@
        + dec_digits(end.x as int) + " "@ + dec_digits(end.y as int) + " "@ + dec_digits(
        duration_ms as int,
    )
}

/// Builds the swipe primitive between two points.
pub fn swipe_command(start: Point, end: Point, duration_ms: u64) -> (s: String)
    ensures
        s@ == swipe_command_spec(start, end, duration_ms),
{
    let mut s = String::from_str("input swipe ");
    push_dec_u64(&mut s, start.x as u64);
    s.append(" ");
    push_dec_u64(&mut s, start.y as u64);
    s.append(" ");
    push_dec_u64(&mut s, end.x as u64);
    s.append(" ");
    push_dec_u64(&mut s, end.y as u64);
    s.append(" ");
    push_dec_u64(&mut s, duration_ms);
    s
}

/// The escaping of one character for the text-input transport: a space
/// becomes the `%s` placeholder, anything else passes through.
pub open spec fn escape_char(c: char) -> Seq<char> {
    if c == ' ' {
        "%s"@
    } else {
        seq![c]
    }
}

/// The transport escaping of a whole string.
pub open spec fn escape_spaces_spec(s: Seq<char>) -> Seq<char>
    decreases s.len(),
{
    if s.len() == 0 {
        Seq::empty()
    } else {
        escape_spaces_spec(s.drop_last()) + escape_char(s.last())
    }
}

/// Escapes spaces with the transport's `%s` placeholder.
pub fn escape_spaces(text: &str) -> (r: String)
    ensures
        r@ == escape_spaces_spec(text@),
{
    let n: usize = text.unicode_len();
    let mut r = String::new();
    let mut i: usize = 0;
    while i < n
        invariant
            i <= n,
            n == text@.len(),
            r@ == escape_spaces_spec(text@.take(i as int)),
        decreases n - i,
    {
        let c = text.get_char(i);
        if c == ' ' {
            r.append("%s");
        } else {
            let one = text.substring_char(i, i + 1);
            r.append(one);
        }
        proof {
            assert(text@.take(i as int + 1).drop_last() =~= text@.take(i as int));
            if c != ' ' {
                assert(text@.subrange(i as int, i as int + 1) =~= seq![text@[i as int]]);
            }
        }
        i = i + 1;
    }
    proof {
        assert(text@.take(n as int) =~= text@);
    }
    r
}

/// The `input text <escaped>` command.
pub open spec fn text_command_spec(text: Seq<char>) -> Seq<char> {
    "input text "@ + escape_spaces_spec(text)
}

/// Builds the text-input primitive, pre-encoding spaces with the
/// transport's placeholder.
pub fn text_command(text: &str) -> (s: String)
    ensures
        s@ == text_command_spec(text@),
{
    let mut s = String::from_str("input text ");
    let escaped = escape_spaces(text);
    s.append(escaped.as_str());
    s
}

/// The `input keyevent <code>` command.
pub open spec fn keyevent_command_spec(code: u32) -> Seq<char> {
    "input keyevent "@ + dec_digits(code as int)
}

/// Builds the key-event primitive for an integer key code.
pub fn keyevent_command(code: u32) -> (s: String)
    ensures
        s@ == keyevent_command_spec(code),
{
    let mut s = String::from_str("input keyevent ");
    push_dec_u64(&mut s, code as u64);
    s
}

/// The launcher invocation for a package.
pub open spec fn launch_command_spec(package: Seq<char>) -> Seq<char> {
    "monkey -p "@ + package + " -c android.intent.category.LAUNCHER 1"@
}

/// Builds the launcher invocation for a package.
pub fn launch_command(package: &str) -> (s: String)
    ensures
        s@ == launch_command_spec(package@),
{
    let mut s = String::from_str("monkey -p ");
    s.append(package);
    s.append(" -c android.intent.category.LAUNCHER 1");
    s
}


/// True when `n` occurs in `h` starting at index `i`.
pub open spec fn contains_at(h: Seq<char>, n: Seq<char>, i: int) -> bool {
    0 <= i && i + n.len() <= h.len() && h.subrange(i, i + n.len()) == n
}

/// True when `n` occurs somewhere in `h`.
pub open spec fn contains_seq(h: Seq<char>, n: Seq<char>) -> bool {
    exists|i: int| contains_at(h, n, i)
}

/// Decides whether `needle` occurs in `hay`.
pub fn contains_str(hay: &str, needle: &str) -> (r: bool)
    ensures
        r == contains_seq(hay@, needle@),
{
    let hl: usize = hay.unicode_len();
    let nl: usize = needle.unicode_len();
    if nl == 0 {
        proof {
            assert(hay@.subrange(0, 0) =~= needle@);
            assert(contains_at(hay@, needle@, 0));
        }
        return true;
    }
    if nl > hl {
        proof {
            assert forall|i: int| !contains_at(hay@, needle@, i) by {}
        }
        return false;
    }
    let mut i: usize = 0;
    while i <= hl - nl
        invariant
            nl >= 1,
            nl <= hl,
            hl == hay@.len(),
            nl == needle@.len(),
            i <= hl - nl + 1,
            forall|i0: int| 0 <= i0 < i ==> !contains_at(hay@, needle@, i0),
        decreases hl - nl + 1 - i,
    {
        let mut j: usize = 0;
        let mut matched: bool = true;
        while matched && j < nl
            invariant
                nl >= 1,
                nl <= hl,
                hl == hay@.len(),
                nl == needle@.len(),
                i <= hl - nl,
                j <= nl,
                matched ==> forall|j0: int| 0 <= j0 < j ==> hay@[i + j0] == needle@[j0],
                !matched ==> j >= 1 && hay@[i + j - 1] != needle@[j - 1],
            decreases nl - j,
        {
            let hc = hay.get_char(i + j);
            let nc = needle.get_char(j);
            if hc != nc {
                matched = false;
            }
            j = j + 1;
        }
        proof {
            assert(forall|j0: int|
                0 <= j0 < nl ==> #[trigger] hay@.subrange(i as int, i as int + nl as int)[j0]
                    == hay@[i + j0]);
        }
        if matched {
            proof {
                assert(hay@.subrange(i as int, i as int + nl as int) =~= needle@);
                assert(contains_at(hay@, needle@, i as int));
            }
            return true;
        }
        proof {
            assert(!contains_at(hay@, needle@, i as int));
        }
        i = i + 1;
    }
    proof {
        assert forall|i0: int| !contains_at(hay@, needle@, i0) by {
            if i0 < i {
            } else {
                assert(i0 + nl > hl);
            }
        }
    }
    false
}

/// Whitespace for the purposes of trimming launcher output.
pub open spec fn is_blank(c: char) -> bool {
    c == ' ' || c == '\n' || c == '\r' || c == '\t'
}

/// `s` with leading blanks removed.
pub open spec fn trim_start_spec(s: Seq<char>) -> Seq<char>
    decreases s.len(),
{
    if s.len() > 0 && is_blank(s[0]) {
        trim_start_spec(s.drop_first())
    } else {
        s
    }
}

/// `s` with trailing blanks removed.
pub open spec fn trim_end_spec(s: Seq<char>) -> Seq<char>
    decreases s.len(),
{
    if s.len() > 0 && is_blank(s.last()) {
        trim_end_spec(s.drop_last())
    } else {
        s
    }
}

/// `s` with both leading and trailing blanks removed.
pub open spec fn trim_spec(s: Seq<char>) -> Seq<char> {
    trim_end_spec(trim_start_spec(s))
}

fn is_blank_char(c: char) -> (r: bool)
    ensures
        r == is_blank(c),
{
    c == ' ' || c == '\n' || c == '\r' || c == '\t'
}

/// Removes leading and trailing whitespace.
pub fn trim_str(s: &str) -> (r: String)
    ensures
        r@ == trim_spec(s@),
{
    let n: usize = s.unicode_len();
    proof {
        assert(s@.skip(0) =~= s@);
    }
    let mut a: usize = 0;
    while a < n && is_blank_char(s.get_char(a))
        invariant
            a <= n,
            n == s@.len(),
            trim_start_spec(s@) == trim_start_spec(s@.skip(a as int)),
        decreases n - a,
    {
        proof {
            assert(s@.skip(a as int).drop_first() =~= s@.skip(a as int + 1));
        }
        a = a + 1;
    }
    proof {
        assert(trim_start_spec(s@) =~= s@.subrange(a as int, n as int)) by {
            if a < n {
                assert(s@.skip(a as int) =~= s@.subrange(a as int, n as int));
            } else {
                assert(s@.skip(a as int) =~= s@.subrange(a as int, n as int));
            }
        }
    }
    let mut b: usize = n;
    while b > a && is_blank_char(s.get_char(b - 1))
        invariant
            a <= b <= n,
            n == s@.len(),
            trim_start_spec(s@) == s@.subrange(a as int, n as int),
            trim_end_spec(s@.subrange(a as int, n as int)) == trim_end_spec(
                s@.subrange(a as int, b as int),
            ),
        decreases b,
    {
        proof {
            assert(s@.subrange(a as int, b as int).drop_last() =~= s@.subrange(
                a as int,
                b as int - 1,
            ));
        }
        b = b - 1;
    }
    let r = s.substring_char(a, b);
    proof {
        assert(trim_end_spec(s@.subrange(a as int, b as int)) == s@.subrange(a as int, b as int));
    }
    String::from_str(r)
}

/// Classifies the launcher's textual output for a package, following the
/// device launcher's known phrases.
///
/// Output containing `No activities found`, `Unable to resolve Intent` or
/// `Activity not started` means the package is unknown or has no launcher
/// activity; otherwise output containing `aborted` or `Error` means the
/// launch failed, and the trimmed output is carried for diagnostics.
/// Anything else counts as success.
pub fn classify_launch_output(package: &str, output: &str) -> (r: Result<(), DroidError>)
    ensures
        ({
            let o = output@;
            let not_found = contains_seq(o, "No activities found"@) || contains_seq(
                o,
                "Unable to resolve Intent"@,
            ) || contains_seq(o, "Activity not started"@);
            let failed = contains_seq(o, "aborted"@) || contains_seq(o, "Error"@);
            match r {
                Ok(_) => !not_found && !failed,
                Err(e) => match e {
                    DroidError::PackageNotFound(p) => not_found && p@ == package@,
                    DroidError::AppLaunchFailed { package: p, output: out } => {
                        &&& !not_found
                        &&& failed
                        &&& p@ == package@
                        &&& out@ == trim_spec(output@)
                    },
                    _ => false,
                },
            }
        }),
{
    if contains_str(output, "No activities found") || contains_str(
        output,
        "Unable to resolve Intent",
    ) || contains_str(output, "Activity not started") {
        Err(DroidError::PackageNotFound(String::from_str(package)))
    } else if contains_str(output, "aborted") || contains_str(output, "Error") {
        Err(DroidError::AppLaunchFailed {
            package: String::from_str(package),
            output: trim_str(output),
        })
    } else {
        Ok(())
    }
}

} // verus!
