//! Strings: decimal numerals, parts of strings, and white space.

use vstd::prelude::*;

verus! {

/// The character of a decimal digit.
pub open spec fn digit_char(d: nat) -> char {
    (d + 48) as char
}

/// The decimal numeral of a number, without leading zeros.
pub open spec fn decimal(n: nat) -> Seq<char>
    decreases n,
{
    if n < 10 {
        seq![digit_char(n)]
    } else {
        decimal(n / 10).push(digit_char(n % 10))
    }
}

fn digit_str(d: u64) -> (s: &'static str)
    requires
        d < 10,
    ensures
        s@ == seq![digit_char(d as nat)],
{
    proof {
        reveal_strlit("0");
        reveal_strlit("1");
        reveal_strlit("2");
        reveal_strlit("3");
        reveal_strlit("4");
        reveal_strlit("5");
        reveal_strlit("6");
        reveal_strlit("7");
        reveal_strlit("8");
        reveal_strlit("9");
    }
    match d {
        0 => "0",
        1 => "1",
        2 => "2",
        3 => "3",
        4 => "4",
        5 => "5",
        6 => "6",
        7 => "7",
        8 => "8",
        _ => "9",
    }
}

/// Write a number as its decimal numeral.
pub fn to_decimal(n: u64) -> (s: String)
    ensures
        s@ == decimal(n as nat),
    decreases n,
{
    if n < 10 {
        digit_str(n).to_owned()
    } else {
        let mut s = to_decimal(n / 10);
        s.append(digit_str(n % 10));
        s
    }
}

/// Whether a character is white space, as Unicode has it.
pub open spec fn is_white(c: char) -> bool {
    let n = c as u32;
    ||| 0x9 <= n <= 0xd
    ||| n == 0x20
    ||| n == 0x85
    ||| n == 0xa0
    ||| n == 0x1680
    ||| 0x2000 <= n <= 0x200a
    ||| n == 0x2028
    ||| n == 0x2029
    ||| n == 0x202f
    ||| n == 0x205f
    ||| n == 0x3000
}

fn white(c: char) -> (r: bool)
    ensures
        r == is_white(c),
{
    let n: u32 = c as u32;
    (0x9 <= n && n <= 0xd) || n == 0x20 || n == 0x85 || n == 0xa0 || n == 0x1680 || (0x2000 <= n
        && n <= 0x200a) || n == 0x2028 || n == 0x2029 || n == 0x202f || n == 0x205f || n == 0x3000
}

/// A string without white space at its end.
pub open spec fn trimmed_end(s: Seq<char>) -> Seq<char>
    decreases s.len(),
{
    if s.len() > 0 && is_white(s.last()) {
        trimmed_end(s.drop_last())
    } else {
        s
    }
}

/// A string without white space at its start.
pub open spec fn trimmed_start(s: Seq<char>) -> Seq<char>
    decreases s.len(),
{
    if s.len() > 0 && is_white(s[0]) {
        trimmed_start(s.skip(1))
    } else {
        s
    }
}

/// A string without white space at its start and its end.
pub open spec fn trimmed(s: Seq<char>) -> Seq<char> {
    trimmed_end(trimmed_start(s))
}

/// A string without white space at its start and its end.
pub fn trim(s: &str) -> (r: &str)
    ensures
        r@ == trimmed(s@),
{
    let n: usize = s.unicode_len();
    let mut from: usize = 0;
    assert(s@.skip(0) =~= s@);
    while from < n && white(s.get_char(from))
        invariant
            from <= n,
            n == s@.len(),
            trimmed_start(s@) == trimmed_start(s@.skip(from as int)),
        decreases n - from,
    {
        proof {
            assert(s@.skip(from as int).skip(1) =~= s@.skip(from + 1));
        }
        from += 1;
    }
    let mut to: usize = n;
    proof {
        assert(s@.skip(from as int) =~= s@.subrange(from as int, n as int));
        assert(trimmed_start(s@) == s@.subrange(from as int, n as int));
    }
    while to > from && white(s.get_char(to - 1))
        invariant
            from <= to <= n,
            n == s@.len(),
            trimmed(s@) == trimmed_end(s@.subrange(from as int, to as int)),
        decreases to - from,
    {
        proof {
            assert(s@.subrange(from as int, to as int).drop_last() =~= s@.subrange(
                from as int,
                to - 1,
            ));
        }
        to -= 1;
    }
    proof {
        let part = s@.subrange(from as int, to as int);
        if part.len() > 0 {
            assert(part.last() == s@[to - 1]);
        }
    }
    s.substring_char(from, to)
}

/// Whether a string begins with another.
pub open spec fn begins_with(s: Seq<char>, prefix: Seq<char>) -> bool {
    prefix.len() <= s.len() && s.take(prefix.len() as int) == prefix
}

/// What follows a prefix of a string.
pub fn strip_prefix<'a>(s: &'a str, prefix: &str) -> (r: Option<&'a str>)
    ensures
        match r {
            Some(rest) => s@ == prefix@ + rest@,
            None => !begins_with(s@, prefix@),
        },
        r is Some <==> begins_with(s@, prefix@),
{
    let n: usize = s.unicode_len();
    let k: usize = prefix.unicode_len();
    if k > n {
        return None;
    }
    let mut i: usize = 0;
    while i < k
        invariant
            i <= k <= n,
            n == s@.len(),
            k == prefix@.len(),
            forall|j: int| 0 <= j < i ==> s@[j] == prefix@[j],
        decreases k - i,
    {
        if s.get_char(i) != prefix.get_char(i) {
            assert(s@.take(k as int)[i as int] != prefix@[i as int]);
            return None;
        }
        i += 1;
    }
    assert(s@.take(k as int) =~= prefix@);
    let rest = s.substring_char(k, n);
    assert(s@ =~= prefix@ + rest@);
    Some(rest)
}

/// Whether a string begins with another.
pub fn starts_with(s: &str, prefix: &str) -> (r: bool)
    ensures
        r == begins_with(s@, prefix@),
{
    strip_prefix(s, prefix).is_some()
}

/// The parts of a string before and behind the first occurrence of a character.
pub fn split_once(s: &str, c: char) -> (r: Option<(&str, &str)>)
    ensures
        match r {
            Some((before, behind)) => s@ == before@.push(c) + behind@ && !before@.contains(c),
            None => !s@.contains(c),
        },
{
    let n: usize = s.unicode_len();
    let mut i: usize = 0;
    while i < n
        invariant
            i <= n,
            n == s@.len(),
            forall|j: int| 0 <= j < i ==> s@[j] != c,
        decreases n - i,
    {
        if s.get_char(i) == c {
            let before = s.substring_char(0, i);
            let behind = s.substring_char(i + 1, n);
            assert(s@ =~= before@.push(c) + behind@);
            return Some((before, behind));
        }
        i += 1;
    }
    None
}

/// A split at the first occurrence of a character is the only one.
pub proof fn split_is_unique(
    c: char,
    before1: Seq<char>,
    behind1: Seq<char>,
    before2: Seq<char>,
    behind2: Seq<char>,
)
    requires
        before1.push(c) + behind1 == before2.push(c) + behind2,
        !before1.contains(c),
        !before2.contains(c),
    ensures
        before1 == before2,
        behind1 == behind2,
{
    let s = before1.push(c) + behind1;
    let (n1, n2) = (before1.len() as int, before2.len() as int);
    assert(s[n1] == c);
    assert((before2.push(c) + behind2)[n2] == c);
    if n1 < n2 {
        assert(s[n1] == before2[n1]);
        assert(before2.contains(c));
    } else if n2 < n1 {
        assert(s[n2] == before1[n2]);
        assert(before1.contains(c));
    }
    assert(before1 =~= s.take(n1));
    assert(before2 =~= s.take(n1));
    assert(behind1 =~= s.skip(n1 + 1));
    assert(behind2 =~= s.skip(n1 + 1));
}

/// The number that some decimal digits stand for.
pub open spec fn digits_value(s: Seq<char>) -> Option<nat>
    decreases s.len(),
{
    if s.len() == 0 {
        Some(0)
    } else {
        match digits_value(s.drop_last()) {
            Some(n) => if '0' <= s.last() <= '9' {
                Some(n * 10 + (s.last() as nat - '0' as nat) as nat)
            } else {
                None
            },
            None => None,
        }
    }
}

/// The number that a numeral of 32 bits stands for: decimal digits, which may follow a plus sign.
pub open spec fn u32_value(s: Seq<char>) -> Option<nat> {
    let digits = if s.len() > 0 && s[0] == '+' { s.skip(1) } else { s };
    match digits_value(digits) {
        Some(n) if digits.len() > 0 && n <= u32::MAX => Some(n),
        _ => None,
    }
}

/// More digits stand for a greater number, or for none.
proof fn digits_grow(s: Seq<char>, i: int)
    requires
        0 <= i <= s.len(),
        digits_value(s) is Some,
    ensures
        digits_value(s.take(i)) is Some,
        digits_value(s.take(i))->Some_0 <= digits_value(s)->Some_0,
    decreases s.len() - i,
{
    if i < s.len() {
        digits_grow(s, i + 1);
        assert(s.take(i + 1).drop_last() =~= s.take(i));
    } else {
        assert(s.take(i) =~= s);
    }
}

/// The number that a numeral stands for, if it does.
pub fn parse_u32(s: &str) -> (r: Option<u32>)
    ensures
        match r {
            Some(n) => u32_value(s@) == Some(n as nat),
            None => u32_value(s@) is None,
        },
{
    let n: usize = s.unicode_len();
    let from: usize = if n > 0 && s.get_char(0) == '+' {
        1
    } else {
        0
    };
    let ghost digits = s@.skip(from as int);
    assert(from == 0 ==> digits =~= s@);
    if from == n {
        return None;
    }
    let mut value: u32 = 0;
    let mut i: usize = from;
    while i < n
        invariant
            from <= i <= n,
            from < n,
            n == s@.len(),
            digits == s@.skip(from as int),
            from == (if s@.len() > 0 && s@[0] == '+' { 1int } else { 0 }),
            from == 0 ==> digits == s@,
            digits_value(digits.take(i - from)) == Some(value as nat),
        decreases n - i,
    {
        let c: char = s.get_char(i);
        let ghost next = digits.take(i - from + 1);
        proof {
            assert(next.drop_last() =~= digits.take(i - from));
            assert(next.last() == c);
        }
        if c < '0' || c > '9' {
            proof {
                if digits_value(digits) is Some {
                    digits_grow(digits, i - from + 1);
                }
            }
            return None;
        }
        let d: u32 = c as u32 - '0' as u32;
        match value.checked_mul(10) {
            Some(m) => match m.checked_add(d) {
                Some(m) => {
                    value = m;
                },
                None => {
                    proof {
                        if digits_value(digits) is Some {
                            digits_grow(digits, i - from + 1);
                        }
                    }
                    return None;
                },
            },
            None => {
                proof {
                    if digits_value(digits) is Some {
                        digits_grow(digits, i - from + 1);
                    }
                }
                return None;
            },
        }
        i += 1;
    }
    assert(digits.take(n - from) =~= digits);
    Some(value)
}

/// A numeral stands for the number that it was written from.
pub proof fn numeral_is_read_back(n: nat)
    ensures
        digits_value(decimal(n)) == Some(n),
        decimal(n).len() > 0,
        decimal(n)[0] != '+',
    decreases n,
{
    if n < 10 {
        assert(decimal(n).drop_last() =~= Seq::empty());
        assert(digits_value(Seq::<char>::empty()) == Some(0nat));
    } else {
        numeral_is_read_back(n / 10);
        assert(decimal(n).drop_last() =~= decimal(n / 10));
    }
}

/// An element of a path, unless it is empty or stands for the directory itself.
pub open spec fn element(s: Seq<char>) -> Seq<Seq<char>> {
    if s.len() == 0 || s == "."@ {
        Seq::empty()
    } else {
        seq![s]
    }
}

/// The elements of a path, of which the first begins with some characters.
pub open spec fn elements_from(path: Seq<char>, begun: Seq<char>) -> Seq<Seq<char>>
    decreases path.len(),
{
    if path.len() == 0 {
        element(begun)
    } else if path[0] == '/' {
        element(begun) + elements_from(path.skip(1), Seq::empty())
    } else {
        elements_from(path.skip(1), begun.push(path[0]))
    }
}

/// The elements of a path.
pub open spec fn elements(path: Seq<char>) -> Seq<Seq<char>> {
    elements_from(path, Seq::empty())
}

fn add_element(out: &mut Vec<String>, s: String)
    ensures
        views(final(out)@) == views(old(out)@) + element(s@),
{
    proof {
        reveal_strlit(".");
    }
    let n: usize = s.as_str().unicode_len();
    let is_dot = n == 1 && s.as_str().get_char(0) == '.';
    assert(is_dot == (s@ == "."@)) by {
        if is_dot {
            assert(s@ =~= "."@);
        }
    }
    if n > 0 && !is_dot {
        out.push(s);
    }
    assert(views(out@) =~= views(old(out)@) + element(s@));
}

/// The characters of some strings.
pub open spec fn views(strings: Seq<String>) -> Seq<Seq<char>> {
    strings.map_values(|s: String| s@)
}

/// The elements of a path.
pub fn split_path(path: &str) -> (r: Vec<String>)
    ensures
        views(r@) == elements(path@),
{
    let n: usize = path.unicode_len();
    let mut out: Vec<String> = Vec::new();
    let mut begun: String = "".to_owned();
    let mut i: usize = 0;
    proof {
        reveal_strlit("");
        assert(begun@ =~= Seq::empty());
        assert(path@.skip(0) =~= path@);
        assert(views(out@) + elements(path@) =~= elements(path@));
    }
    while i < n
        invariant
            i <= n,
            n == path@.len(),
            views(out@) + elements_from(path@.skip(i as int), begun@) == elements(path@),
        decreases n - i,
    {
        let c: char = path.get_char(i);
        let ghost was = views(out@);
        let ghost first = begun@;
        let ghost rest = path@.skip(i as int);
        proof {
            assert(rest[0] == c);
            assert(rest.skip(1) =~= path@.skip(i + 1));
        }
        if c == '/' {
            add_element(&mut out, begun);
            begun = "".to_owned();
            proof {
                reveal_strlit("");
                assert(begun@ =~= Seq::empty());
                assert(views(out@) + elements_from(rest.skip(1), begun@) =~= was + (element(first)
                    + elements_from(rest.skip(1), Seq::empty())));
            }
        } else {
            begun.append(path.substring_char(i, i + 1));
            assert(begun@ =~= first.push(c));
        }
        i += 1;
    }
    let ghost first = begun@;
    assert(path@.skip(n as int) =~= Seq::empty());
    add_element(&mut out, begun);
    out
}

/// Whether all characters are white space.
pub open spec fn all_white(s: Seq<char>) -> bool {
    forall|i: int| 0 <= i < s.len() ==> is_white(#[trigger] s[i])
}

/// A string is what is left of it once it is trimmed, with white space around that. What is left
/// neither begins nor ends with white space.
pub proof fn trimming_takes_white_space_off(s: Seq<char>)
    ensures
        exists|a: Seq<char>, b: Seq<char>|
            all_white(a) && all_white(b) && s == #[trigger] (a + trimmed(s) + b),
        trimmed(s).len() > 0 ==> !is_white(trimmed(s)[0]) && !is_white(trimmed(s).last()),
{
    let t = trimmed_start(s);
    let a = start_comes_off(s);
    let b = end_comes_off(t);
    assert(s =~= a + trimmed(s) + b);
    if trimmed(s).len() > 0 {
        assert(trimmed(s)[0] == t[0]);
    }
}

proof fn start_comes_off(s: Seq<char>) -> (a: Seq<char>)
    ensures
        all_white(a),
        s == a + trimmed_start(s),
        trimmed_start(s).len() > 0 ==> !is_white(trimmed_start(s)[0]),
    decreases s.len(),
{
    if s.len() > 0 && is_white(s[0]) {
        let rest = start_comes_off(s.skip(1));
        let a = seq![s[0]] + rest;
        assert(s.skip(1) == rest + trimmed_start(s));
        assert(s =~= seq![s[0]] + s.skip(1));
        assert(s =~= a + trimmed_start(s));
        assert forall|i: int| 0 <= i < a.len() implies is_white(#[trigger] a[i]) by {
            if i > 0 {
                assert(a[i] == rest[i - 1]);
            }
        }
        a
    } else {
        assert(s =~= Seq::empty() + s);
        Seq::empty()
    }
}

proof fn end_comes_off(s: Seq<char>) -> (b: Seq<char>)
    ensures
        all_white(b),
        s == trimmed_end(s) + b,
        trimmed_end(s).len() > 0 ==> !is_white(trimmed_end(s).last()),
    decreases s.len(),
{
    if s.len() > 0 && is_white(s.last()) {
        let rest = end_comes_off(s.drop_last());
        let b = rest.push(s.last());
        assert(s.drop_last() == trimmed_end(s) + rest);
        assert(s =~= s.drop_last().push(s.last()));
        assert(s =~= trimmed_end(s) + b);
        assert forall|i: int| 0 <= i < b.len() implies is_white(#[trigger] b[i]) by {
            if i < rest.len() {
                assert(b[i] == rest[i]);
            }
        }
        b
    } else {
        assert(s =~= s + Seq::empty());
        Seq::empty()
    }
}

/// White space: blanks, tabs and the ends of lines among others, but no letter, digit or sign.
pub proof fn white_space_is_invisible(c: char)
    ensures
        is_white(' ') && is_white('\n') && is_white('\t') && is_white('\r'),
        33 <= c as u32 <= 126 ==> !is_white(c),
{
}

/// A number is read from its numeral, with a plus sign before it or not, as far as 32 bits go. What
/// holds anything but digits is no number.
pub proof fn numerals_are_read(n: nat, s: Seq<char>, i: int)
    ensures
        n <= u32::MAX ==> u32_value(decimal(n)) == Some(n) && u32_value(seq!['+'] + decimal(n))
            == Some(n),
        n > u32::MAX ==> u32_value(decimal(n)) is None,
        0 <= i < s.len() && !('0' <= s[i] <= '9') && !(i == 0 && s[0] == '+') ==> u32_value(s)
            is None,
        u32_value(Seq::empty()) is None,
        u32_value(seq!['+']) is None,
{
    numeral_is_read_back(n);
    assert((seq!['+'] + decimal(n)).skip(1) =~= decimal(n));
    assert(seq!['+'].skip(1) =~= Seq::<char>::empty());
    if 0 <= i < s.len() && !('0' <= s[i] <= '9') && !(i == 0 && s[0] == '+') {
        if s[0] == '+' {
            assert(s.skip(1)[i - 1] == s[i]);
            no_other_characters(s.skip(1), i - 1);
        } else {
            no_other_characters(s, i);
        }
    }
}

proof fn no_other_characters(s: Seq<char>, i: int)
    requires
        0 <= i < s.len(),
        !('0' <= s[i] <= '9'),
    ensures
        digits_value(s) is None,
    decreases s.len(),
{
    if i < s.len() - 1 {
        assert(s.drop_last()[i] == s[i]);
        no_other_characters(s.drop_last(), i);
    }
}

/// A path is split at its slashes: the elements of what stands before one and those of what follows
/// it are those of the path.
pub proof fn paths_are_split_at_slashes(before: Seq<char>, behind: Seq<char>)
    ensures
        elements(before.push('/') + behind) == elements(before) + elements(behind),
{
    split_behind(before, behind, Seq::empty());
}

proof fn split_behind(before: Seq<char>, behind: Seq<char>, begun: Seq<char>)
    ensures
        elements_from(before.push('/') + behind, begun) == elements_from(before, begun) + elements(
            behind,
        ),
    decreases before.len(),
{
    let path = before.push('/') + behind;
    if before.len() == 0 {
        assert(path.skip(1) =~= behind);
    } else {
        let rest = before.skip(1);
        assert(path.skip(1) =~= rest.push('/') + behind);
        if before[0] == '/' {
            split_behind(rest, behind, Seq::empty());
            assert(elements_from(path, begun) =~= elements_from(before, begun) + elements(behind));
        } else {
            split_behind(rest, behind, begun.push(before[0]));
        }
    }
}

/// What has no slash is one element, unless it is nothing or the directory itself.
pub proof fn names_are_elements(name: Seq<char>)
    requires
        !name.contains('/'),
    ensures
        name.len() > 0 && name != "."@ ==> elements(name) == seq![name],
        name.len() == 0 || name == "."@ ==> elements(name).len() == 0,
{
    one_element(name, Seq::empty());
    assert(Seq::empty() + name =~= name);
}

proof fn one_element(name: Seq<char>, begun: Seq<char>)
    requires
        !name.contains('/'),
    ensures
        elements_from(name, begun) == element(begun + name),
    decreases name.len(),
{
    if name.len() == 0 {
        assert(begun + name =~= begun);
    } else {
        assert(name.contains(name[0]));
        assert forall|i: int| 0 <= i < name.skip(1).len() implies name.skip(1)[i] != '/' by {
            assert(name.contains(name[i + 1]));
        }
        one_element(name.skip(1), begun.push(name[0]));
        assert(begun.push(name[0]) + name.skip(1) =~= begun + name);
    }
}

/// A string begins with what it is made of first, and with nothing that differs from it.
pub proof fn strings_begin_with_their_first_part(prefix: Seq<char>, rest: Seq<char>, i: int)
    ensures
        begins_with(prefix + rest, prefix),
        forall|s: Seq<char>|
            0 <= i < prefix.len() && i < s.len() && s[i] != prefix[i] ==> !#[trigger] begins_with(
                s,
                prefix,
            ),
        forall|s: Seq<char>| s.len() < prefix.len() ==> !#[trigger] begins_with(s, prefix),
{
    assert((prefix + rest).take(prefix.len() as int) =~= prefix);
    assert forall|s: Seq<char>| 0 <= i < prefix.len() && i < s.len() && s[i] != prefix[i]
        implies !#[trigger] begins_with(s, prefix) by {
        if begins_with(s, prefix) {
            assert(s.take(prefix.len() as int)[i] == s[i]);
        }
    }
}

} // verus!
