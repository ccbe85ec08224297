//! The command line of the Windows screen saver: `/s` runs it full screen,
//! `/p <HWND>` (or `/p:<HWND>`) in the preview pane of the given window,
//! `/c` (or `/c:<HWND>`) opens the settings dialog. Window handles are
//! written in hexadecimal (with or without `0x`) or in decimal.
use vstd::prelude::*;

use crate::text::chars_of;

verus! {

/// The value of a digit in base `radix` (up to 36), or -1 for a character
/// that is not a digit there.
pub open spec fn digit_value(c: char, radix: int) -> int {
    let d: int = if '0' <= c <= '9' {
        c as int - '0' as int
    } else if 'a' <= c <= 'z' {
        c as int - 'a' as int + 10
    } else if 'A' <= c <= 'Z' {
        c as int - 'A' as int + 10
    } else {
        -1
    };
    if d < radix {
        d
    } else {
        -1
    }
}

/// The number that a string of valid digits writes in base `radix`.
pub open spec fn digits_number(s: Seq<char>, radix: int) -> int
    decreases s.len(),
{
    if s.len() == 0 {
        0
    } else {
        digits_number(s.drop_last(), radix) * radix + digit_value(s.last(), radix)
    }
}

/// The digits of a number: the text after an optional leading `+`.
pub open spec fn unsigned_digits(s: Seq<char>) -> Seq<char> {
    if s.len() > 0 && s[0] == '+' {
        s.drop_first()
    } else {
        s
    }
}

/// Whether every character is a digit of base `radix`.
pub open spec fn all_digits(s: Seq<char>, radix: int) -> bool {
    forall|i: int| 0 <= i < s.len() ==> digit_value(#[trigger] s[i], radix) >= 0
}

/// `u64::from_str_radix`: an optional `+` and one or more digits of the
/// base, with a value that fits in 64 bits.
pub open spec fn parse_u64(s: Seq<char>, radix: int) -> Option<u64> {
    let body = unsigned_digits(s);
    if body.len() > 0 && all_digits(body, radix) && digits_number(body, radix) <= u64::MAX {
        Some(digits_number(body, radix) as u64)
    } else {
        None
    }
}

proof fn lemma_digits_grow(s: Seq<char>, k: int, radix: int)
    requires
        0 <= k <= s.len(),
        radix >= 1,
        forall|i: int| 0 <= i < s.len() ==> digit_value(s[i], radix) >= 0,
    ensures
        digits_number(s.take(k), radix) <= digits_number(s, radix),
        0 <= digits_number(s.take(k), radix),
    decreases s.len() - k,
{
    assert forall|i: int| 0 <= i < s.take(k).len() implies digit_value(s.take(k)[i], radix) >= 0 by {
        assert(s.take(k)[i] == s[i]);
    }
    lemma_digits_nonnegative(s.take(k), radix);
    if k < s.len() {
        lemma_digits_grow(s, k + 1, radix);
        let longer = s.take(k + 1);
        assert(longer.drop_last() =~= s.take(k));
        assert(digits_number(s.take(k), radix) * radix >= digits_number(s.take(k), radix))
            by (nonlinear_arith)
            requires
                radix >= 1,
                digits_number(s.take(k), radix) >= 0,
        ;
        assert(longer.last() == s[k]);
    } else {
        assert(s.take(k) =~= s);
        lemma_digits_nonnegative(s, radix);
    }
}

proof fn lemma_digits_nonnegative(s: Seq<char>, radix: int)
    requires
        radix >= 1,
        forall|i: int| 0 <= i < s.len() ==> digit_value(s[i], radix) >= 0,
    ensures
        digits_number(s, radix) >= 0,
    decreases s.len(),
{
    if s.len() > 0 {
        lemma_digits_nonnegative(s.drop_last(), radix);
        assert(digits_number(s.drop_last(), radix) * radix >= 0) by (nonlinear_arith)
            requires
                radix >= 1,
                digits_number(s.drop_last(), radix) >= 0,
        ;
    }
}

fn digit_of(c: char, radix: u32) -> (d: Option<u64>)
    requires
        2 <= radix <= 36,
    ensures
        d is Some <==> digit_value(c, radix as int) >= 0,
        d matches Some(v) ==> v as int == digit_value(c, radix as int),
{
    let d: u32 = if '0' <= c && c <= '9' {
        (c as u32) - ('0' as u32)
    } else if 'a' <= c && c <= 'z' {
        (c as u32) - ('a' as u32) + 10
    } else if 'A' <= c && c <= 'Z' {
        (c as u32) - ('A' as u32) + 10
    } else {
        return None;
    };
    if d < radix {
        Some(d as u64)
    } else {
        None
    }
}

/// `u64::from_str_radix` for a radix of 2 to 36.
pub fn parse_u64_radix(s: &str, radix: u32) -> (value: Option<u64>)
    requires
        2 <= radix <= 36,
    ensures
        value == parse_u64(s@, radix as int),
{
    let chars = chars_of(s);
    let start: usize = if chars.len() > 0 && chars[0] == '+' {
        1
    } else {
        0
    };
    let ghost body = unsigned_digits(s@);
    assert(body =~= chars@.skip(start as int));
    let n = chars.len();
    if start == n {
        return None;
    }
    let mut i: usize = start;
    while i < n
        invariant
            chars@ == s@,
            body == chars@.skip(start as int),
            body == unsigned_digits(s@),
            start <= i <= n,
            n == chars@.len(),
            2 <= radix <= 36,
            forall|j: int| start <= j < i ==> digit_value(chars@[j], radix as int) >= 0,
        decreases n - i,
    {
        if digit_of(chars[i], radix).is_none() {
            assert(body[i - start] == chars@[i as int]);
            assert(digit_value(body[i - start], radix as int) < 0);
            assert(!all_digits(body, radix as int));
            return None;
        }
        i += 1;
    }
    assert(forall|j: int| 0 <= j < body.len() ==> body[j] == chars@[j + start]);
    let mut value: u64 = 0;
    let mut k: usize = start;
    assert(body.take(0) =~= Seq::<char>::empty());
    while k < n
        invariant
            chars@ == s@,
            body == chars@.skip(start as int),
            body == unsigned_digits(s@),
            start <= k <= n,
            n == chars@.len(),
            2 <= radix <= 36,
            forall|j: int| 0 <= j < body.len() ==> digit_value(body[j], radix as int) >= 0,
            value as int == digits_number(body.take(k - start), radix as int),
        decreases n - k,
    {
        let d = match digit_of(chars[k], radix) {
            Some(d) => d,
            None => {
                assert(body[k - start] == chars@[k as int]);
                return None;
            },
        };
        let ghost longer = body.take(k - start + 1);
        assert(longer.drop_last() =~= body.take(k - start));
        assert(longer.last() == chars@[k as int]);
        let scaled = value.checked_mul(radix as u64);
        let next = match scaled {
            Some(m) => m.checked_add(d),
            None => None,
        };
        match next {
            Some(v) => {
                value = v;
            },
            None => {
                proof {
                    lemma_digits_grow(body, k - start + 1, radix as int);
                    lemma_digits_grow(body, k - start, radix as int);
                    assert(digits_number(longer, radix as int) == value as int * radix as int
                        + d as int);
                    assert(value as int * radix as int + d as int > u64::MAX);
                    assert(digits_number(body, radix as int) > u64::MAX);
                }
                return None;
            },
        }
        k += 1;
    }
    assert(body.take(n - start) =~= body);
    Some(value)
}

/// `s` with every leading copy of `prefix` removed.
pub open spec fn trim_prefix_all(s: Seq<char>, prefix: Seq<char>) -> Seq<char>
    decreases s.len(),
{
    if prefix.len() > 0 && prefix.len() <= s.len() && s.take(prefix.len() as int) == prefix {
        trim_prefix_all(s.skip(prefix.len() as int), prefix)
    } else {
        s
    }
}

/// A window handle written on the command line: leading `0x` (then `0X`)
/// removed, read as hexadecimal, else as decimal; none for zero or for
/// text that is neither.
pub open spec fn spec_window_handle(arg: Seq<char>) -> Option<isize> {
    let digits = trim_prefix_all(trim_prefix_all(arg, "0x"@), "0X"@);
    let value = match parse_u64(digits, 16) {
        Some(v) => Some(v),
        None => parse_u64(digits, 10),
    };
    match value {
        Some(v) => if v as isize != 0 {
            Some(v as isize)
        } else {
            None
        },
        None => None,
    }
}

fn trim_prefix(s: Vec<char>, prefix: &Vec<char>) -> (rest: Vec<char>)
    requires
        prefix@.len() == 2,
    ensures
        rest@ == trim_prefix_all(s@, prefix@),
{
    let mut rest = s;
    while rest.len() >= 2 && rest[0] == prefix[0] && rest[1] == prefix[1]
        invariant
            prefix@.len() == 2,
            trim_prefix_all(rest@, prefix@) == trim_prefix_all(s@, prefix@),
        decreases rest@.len(),
    {
        let ghost before = rest@;
        assert(before.take(2) =~= prefix@);
        let mut next: Vec<char> = Vec::new();
        let mut i: usize = 2;
        while i < rest.len()
            invariant
                2 <= i <= rest@.len(),
                rest@ == before,
                next@ == before.subrange(2, i as int),
            decreases rest@.len() - i,
        {
            next.push(rest[i]);
            i += 1;
            assert(next@ =~= before.subrange(2, i as int));
        }
        assert(next@ =~= before.skip(2));
        rest = next;
    }
    if rest.len() >= 2 {
        assert(rest@.take(2) != prefix@) by {
            if rest@.take(2) == prefix@ {
                assert(rest@.take(2)[0] == rest@[0]);
                assert(rest@.take(2)[1] == rest@[1]);
            }
        }
    }
    rest
}

/// Builds a string from characters.
fn string_of(chars: &Vec<char>) -> (s: String)
    ensures
        s@ == chars@,
{
    let mut s = String::new();
    let mut k: usize = 0;
    while k < chars.len()
        invariant
            0 <= k <= chars@.len(),
            s@ == chars@.take(k as int),
        decreases chars@.len() - k,
    {
        crate::text::push_char(&mut s, chars[k]);
        k += 1;
        assert(s@ =~= chars@.take(k as int));
    }
    assert(chars@.take(chars@.len() as int) =~= chars@);
    s
}

/// Reads a window handle from the command line.
pub fn parse_window_handle(arg: &str) -> (handle: Option<isize>)
    ensures
        handle == spec_window_handle(arg@),
{
    let lower_prefix = chars_of("0x");
    let upper_prefix = chars_of("0X");
    proof {
        reveal_strlit("0x");
        reveal_strlit("0X");
    }
    let digits = trim_prefix(trim_prefix(chars_of(arg), &lower_prefix), &upper_prefix);
    let text = string_of(&digits);
    let value = match parse_u64_radix(text.as_str(), 16) {
        Some(v) => Some(v),
        None => parse_u64_radix(text.as_str(), 10),
    };
    match value {
        Some(v) => {
            let handle = v as isize;
            if handle != 0 {
                Some(handle)
            } else {
                None
            }
        },
        None => None,
    }
}

/// What the screen saver does for its command line.
#[derive(Clone, Copy, PartialEq, Eq, Debug)]
pub enum SaverCommand {
    /// Open the settings dialog.
    Configure,
    /// Draw inside the given parent window.
    Preview(isize),
    /// Run full screen.
    Fullscreen,
    /// Do nothing: a preview was asked for without a usable window.
    Quit,
}

/// A preview in the given window, or nothing without one.
pub open spec fn preview_or_quit(handle: Option<isize>) -> SaverCommand {
    match handle {
        Some(h) => SaverCommand::Preview(h),
        None => SaverCommand::Quit,
    }
}

/// The command for a (lower-cased) switch and the argument after it.
pub open spec fn spec_command(switch: Seq<char>, next: Option<Seq<char>>) -> SaverCommand {
    if switch == "/c"@ || (switch.len() >= 3 && switch.take(3) == "/c:"@) {
        SaverCommand::Configure
    } else if switch == "/p"@ {
        preview_or_quit(
            match next {
                Some(arg) => spec_window_handle(arg),
                None => None,
            },
        )
    } else if switch.len() >= 3 && switch.take(3) == "/p:"@ {
        preview_or_quit(spec_window_handle(switch.skip(3)))
    } else {
        SaverCommand::Fullscreen
    }
}

/// Whether `s` begins with the three characters of `prefix`.
fn starts_with3(s: &Vec<char>, prefix: &str) -> (starts: bool)
    requires
        prefix@.len() == 3,
    ensures
        starts == (s@.len() >= 3 && s@.take(3) == prefix@),
{
    let p = chars_of(prefix);
    if s.len() < 3 {
        return false;
    }
    let same = s[0] == p[0] && s[1] == p[1] && s[2] == p[2];
    if same {
        assert(s@.take(3) =~= p@);
    } else {
        assert(s@.take(3) != p@) by {
            if s@.take(3) == p@ {
                assert(s@.take(3)[0] == s@[0]);
                assert(s@.take(3)[1] == s@[1]);
                assert(s@.take(3)[2] == s@[2]);
            }
        }
    }
    same
}

/// The command for a (lower-cased) switch and the argument after it.
pub fn command_for_switch(switch: &str, next: Option<&str>) -> (command: SaverCommand)
    ensures
        command == spec_command(
            switch@,
            match next {
                Some(arg) => Some(arg@),
                None => None,
            },
        ),
{
    proof {
        reveal_strlit("/c:");
        reveal_strlit("/p:");
    }
    let chars = chars_of(switch);
    if crate::text::str_equal(switch, "/c") || starts_with3(&chars, "/c:") {
        SaverCommand::Configure
    } else if crate::text::str_equal(switch, "/p") {
        let handle = match next {
            Some(arg) => parse_window_handle(arg),
            None => None,
        };
        match handle {
            Some(h) => SaverCommand::Preview(h),
            None => SaverCommand::Quit,
        }
    } else if starts_with3(&chars, "/p:") {
        let mut rest: Vec<char> = Vec::new();
        let mut i: usize = 3;
        while i < chars.len()
            invariant
                3 <= i <= chars@.len(),
                rest@ == chars@.subrange(3, i as int),
            decreases chars@.len() - i,
        {
            rest.push(chars[i]);
            i += 1;
            assert(rest@ =~= chars@.subrange(3, i as int));
        }
        assert(rest@ =~= switch@.skip(3));
        let text = string_of(&rest);
        match parse_window_handle(text.as_str()) {
            Some(h) => SaverCommand::Preview(h),
            None => SaverCommand::Quit,
        }
    } else {
        SaverCommand::Fullscreen
    }
}

/// What `str::to_lowercase` returns for a string: its Unicode lower-case
/// mapping.
pub uninterp spec fn lowercase(s: Seq<char>) -> Seq<char>;

/// Whether every character of `s` is ASCII.
pub open spec fn all_ascii(s: Seq<char>) -> bool {
    forall|i: int| 0 <= i < s.len() ==> (#[trigger] s[i] as u32) < 0x80
}

/// ASCII lower case: `A` to `Z` become `a` to `z`, every other character
/// stays.
pub open spec fn ascii_lowercase(s: Seq<char>) -> Seq<char> {
    Seq::new(
        s.len(),
        |i: int|
            if 'A' <= s[i] && s[i] <= 'Z' {
                ((s[i] as u32) + 32) as char
            } else {
                s[i]
            },
    )
}

/// `str::to_lowercase`: the string's Unicode lower-case mapping, which
/// for a string of ASCII characters is its ASCII lower case (the mapping
/// of other characters is left to the name `lowercase`).
#[verifier::external_body]
fn to_lowercase(s: &str) -> (lower: String)
    ensures
        lower@ == lowercase(s@),
        all_ascii(s@) ==> lower@ == ascii_lowercase(s@),
{
    s.to_lowercase()
}

/// The command for the whole command line (the program path first): the
/// switch is the second argument, lower-cased (empty when missing); the
/// third argument, as given, is the window of a `/p` preview. An ASCII
/// switch is matched without regard to case.
pub fn saver_command(args: &Vec<String>) -> (command: SaverCommand)
    ensures
        args@.len() > 1 && all_ascii(args@[1]@) ==> command == spec_command(
            ascii_lowercase(args@[1]@),
            if args@.len() > 2 {
                Some(args@[2]@)
            } else {
                None
            },
        ),
        command == spec_command(
            if args@.len() > 1 {
                lowercase(args@[1]@)
            } else {
                Seq::<char>::empty()
            },
            if args@.len() > 2 {
                Some(args@[2]@)
            } else {
                None
            },
        ),
{
    let switch = if args.len() > 1 {
        to_lowercase(args[1].as_str())
    } else {
        String::new()
    };
    let next = if args.len() > 2 {
        Some(args[2].as_str())
    } else {
        None
    };
    command_for_switch(switch.as_str(), next)
}

/// `/c` and `/c:` followed by anything both open the settings dialog, and
/// a preview window can be given after `/p` as the next argument or after
/// `/p:` in the same one, with the same outcome.
pub proof fn lemma_switch_forms(suffix: Seq<char>, next: Option<Seq<char>>, handle: Seq<char>)
    ensures
        spec_command("/c"@, next) == SaverCommand::Configure,
        spec_command("/c:"@ + suffix, next) == SaverCommand::Configure,
        spec_command("/p"@, Some(handle)) == spec_command("/p:"@ + handle, next),
        spec_command("/p"@, None) == SaverCommand::Quit,
{
    reveal_strlit("/c");
    reveal_strlit("/c:");
    reveal_strlit("/p");
    reveal_strlit("/p:");
    assert(("/c:"@ + suffix).take(3) =~= "/c:"@);
    assert(("/p:"@ + handle).take(3) =~= "/p:"@);
    assert(("/p:"@ + handle).skip(3) =~= handle);
    assert(("/p:"@ + handle) != "/c"@);
    assert(("/p:"@ + handle) != "/p"@);
    assert("/p"@[1] != "/c"@[1]);
    assert("/p"@ != "/c"@);
    assert(("/p:"@ + handle).take(3)[1] == 'p');
    assert(("/c:"@)[1] == 'c');
    assert(("/p:"@ + handle).take(3) != "/c:"@);
}

} // verus!
