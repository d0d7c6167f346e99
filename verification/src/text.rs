//! Scanning and trimming of character sequences, by index ranges of a `&str`.

use vstd::prelude::*;
use vstd::string::*;

verus! {

/// A set of characters that a trim removes.
#[derive(Clone, Copy, Debug)]
pub enum CharClass {
    /// The double quote.
    Quote,
    /// Backslash and slash.
    Separator,
    /// Every character but the two separators.
    Component,
    /// Unicode white space.
    Whitespace,
}

/// The characters with the Unicode property `White_Space`.
pub open spec fn is_whitespace(c: char) -> bool {
    let n = c as u32;
    (0x09 <= n <= 0x0D) || n == 0x20 || n == 0x85 || n == 0xA0 || n == 0x1680 || (0x2000 <= n
        <= 0x200A) || n == 0x2028 || n == 0x2029 || n == 0x202F || n == 0x205F || n == 0x3000
}

/// The two path separators.
pub open spec fn is_separator(c: char) -> bool {
    c == '\\' || c == '/'
}

impl CharClass {
    pub open spec fn contains(self, c: char) -> bool {
        match self {
            CharClass::Quote => c == '"',
            CharClass::Separator => is_separator(c),
            CharClass::Component => !is_separator(c),
            CharClass::Whitespace => is_whitespace(c),
        }
    }

    /// Whether `c` belongs to the class.
    pub fn has(self, c: char) -> (r: bool)
        ensures
            r == self.contains(c),
    {
        match self {
            CharClass::Quote => c == '"',
            CharClass::Separator => c == '\\' || c == '/',
            CharClass::Component => !(c == '\\' || c == '/'),
            CharClass::Whitespace => {
                let n: u32 = c as u32;
                (0x09 <= n && n <= 0x0D) || n == 0x20 || n == 0x85 || n == 0xA0 || n == 0x1680
                    || (0x2000 <= n && n <= 0x200A) || n == 0x2028 || n == 0x2029 || n == 0x202F
                    || n == 0x205F || n == 0x3000
            },
        }
    }
}

/// The index of the first `c` in `s`, or the length of `s` where it has none.
pub open spec fn find_char(s: Seq<char>, c: char) -> int
    decreases s.len(),
{
    if s.len() == 0 || s[0] == c {
        0
    } else {
        1 + find_char(s.drop_first(), c)
    }
}

/// `s` without its longest suffix made of characters of `class`.
pub open spec fn trim_end(s: Seq<char>, class: CharClass) -> Seq<char>
    decreases s.len(),
{
    if s.len() > 0 && class.contains(s.last()) {
        trim_end(s.drop_last(), class)
    } else {
        s
    }
}

/// `s` without its longest prefix made of characters of `class`.
pub open spec fn trim_start(s: Seq<char>, class: CharClass) -> Seq<char>
    decreases s.len(),
{
    if s.len() > 0 && class.contains(s.first()) {
        trim_start(s.drop_first(), class)
    } else {
        s
    }
}

/// `s` trimmed of `class` at both ends.
pub open spec fn trim(s: Seq<char>, class: CharClass) -> Seq<char> {
    trim_end(trim_start(s, class), class)
}

/// Whether `s` begins with `prefix`.
pub open spec fn has_prefix(s: Seq<char>, prefix: Seq<char>) -> bool {
    prefix.len() <= s.len() && s.subrange(0, prefix.len() as int) == prefix
}

/// `find_char` stays within the sequence, passes no `c`, and stops on one.
pub proof fn lemma_find_char(s: Seq<char>, c: char)
    ensures
        0 <= find_char(s, c) <= s.len(),
        forall|k: int| 0 <= k < find_char(s, c) ==> s[k] != c,
        find_char(s, c) < s.len() ==> s[find_char(s, c)] == c,
    decreases s.len(),
{
    if s.len() == 0 || s[0] == c {
    } else {
        let t = s.drop_first();
        lemma_find_char(t, c);
        assert forall|k: int| 0 <= k < find_char(s, c) implies s[k] != c by {
            if k > 0 {
                assert(s[k] == t[k - 1]);
            }
        }
        assert(find_char(t, c) < t.len() ==> t[find_char(t, c)] == s[find_char(s, c)]);
    }
}

/// A sequence without `c` is searched to its end.
pub proof fn lemma_find_char_absent(s: Seq<char>, c: char)
    requires
        forall|k: int| 0 <= k < s.len() ==> s[k] != c,
    ensures
        find_char(s, c) == s.len(),
    decreases s.len(),
{
    if s.len() > 0 {
        let t = s.drop_first();
        assert forall|k: int| 0 <= k < t.len() implies t[k] != c by {
            assert(t[k] == s[k + 1]);
        }
        lemma_find_char_absent(t, c);
    }
}

/// What `trim_end` leaves is a prefix of `s` that ends outside the class.
pub proof fn lemma_trim_end(s: Seq<char>, class: CharClass)
    ensures
        trim_end(s, class).len() <= s.len(),
        trim_end(s, class) == s.subrange(0, trim_end(s, class).len() as int),
        trim_end(s, class).len() > 0 ==> !class.contains(trim_end(s, class).last()),
    decreases s.len(),
{
    if s.len() > 0 && class.contains(s.last()) {
        let t = s.drop_last();
        lemma_trim_end(t, class);
        let n = trim_end(t, class).len() as int;
        assert(t.subrange(0, n) =~= s.subrange(0, n));
    } else {
        assert(s =~= s.subrange(0, s.len() as int));
    }
}

/// What `trim_start` leaves is a suffix of `s` that begins outside the class.
pub proof fn lemma_trim_start(s: Seq<char>, class: CharClass)
    ensures
        trim_start(s, class).len() <= s.len(),
        trim_start(s, class) == s.subrange(
            s.len() - trim_start(s, class).len(),
            s.len() as int,
        ),
        trim_start(s, class).len() > 0 ==> !class.contains(trim_start(s, class).first()),
    decreases s.len(),
{
    if s.len() > 0 && class.contains(s.first()) {
        let t = s.drop_first();
        lemma_trim_start(t, class);
        let n = trim_start(t, class).len() as int;
        assert(t.subrange(t.len() - n, t.len() as int) =~= s.subrange(s.len() - n, s.len() as int));
    } else {
        assert(s =~= s.subrange(0, s.len() as int));
    }
}

/// The index of the first `c` in the range `from..to` of `s`, or `to` where the
/// range holds none.
pub fn find_in(s: &str, from: usize, to: usize, c: char) -> (i: usize)
    requires
        from <= to <= s@.len(),
    ensures
        from <= i <= to,
        i - from == find_char(s@.subrange(from as int, to as int), c),
{
    let mut i: usize = from;
    while i < to
        invariant
            from <= i <= to <= s@.len(),
            find_char(s@.subrange(from as int, to as int), c) == (i - from) + find_char(
                s@.subrange(i as int, to as int),
                c,
            ),
        decreases to - i,
    {
        if s.get_char(i) == c {
            return i;
        }
        proof {
            assert(s@.subrange(i as int, to as int).drop_first() =~= s@.subrange(
                i + 1,
                to as int,
            ));
        }
        i = i + 1;
    }
    i
}

/// The end of the range `from..to` of `s` once it is trimmed of `class` at its end.
pub fn trim_end_in(s: &str, from: usize, to: usize, class: CharClass) -> (j: usize)
    requires
        from <= to <= s@.len(),
    ensures
        from <= j <= to,
        s@.subrange(from as int, j as int) == trim_end(s@.subrange(from as int, to as int), class),
{
    let mut j: usize = to;
    while j > from && class.has(s.get_char(j - 1))
        invariant
            from <= j <= to <= s@.len(),
            trim_end(s@.subrange(from as int, j as int), class) == trim_end(
                s@.subrange(from as int, to as int),
                class,
            ),
        decreases j,
    {
        proof {
            assert(s@.subrange(from as int, j as int).drop_last() =~= s@.subrange(
                from as int,
                j - 1,
            ));
        }
        j = j - 1;
    }
    j
}

/// The start of the range `from..to` of `s` once it is trimmed of `class` at its
/// start.
pub fn trim_start_in(s: &str, from: usize, to: usize, class: CharClass) -> (i: usize)
    requires
        from <= to <= s@.len(),
    ensures
        from <= i <= to,
        s@.subrange(i as int, to as int) == trim_start(
            s@.subrange(from as int, to as int),
            class,
        ),
{
    let mut i: usize = from;
    while i < to && class.has(s.get_char(i))
        invariant
            from <= i <= to <= s@.len(),
            trim_start(s@.subrange(i as int, to as int), class) == trim_start(
                s@.subrange(from as int, to as int),
                class,
            ),
        decreases to - i,
    {
        proof {
            assert(s@.subrange(i as int, to as int).drop_first() =~= s@.subrange(
                i + 1,
                to as int,
            ));
        }
        i = i + 1;
    }
    i
}

/// Whether the range `from..to` of `s` begins with `prefix`.
pub fn has_prefix_in(s: &str, from: usize, to: usize, prefix: &str) -> (r: bool)
    requires
        from <= to <= s@.len(),
    ensures
        r == has_prefix(s@.subrange(from as int, to as int), prefix@),
{
    let n: usize = prefix.unicode_len();
    if n > to - from {
        return false;
    }
    let ghost part = s@.subrange(from as int, to as int);
    let mut k: usize = 0;
    while k < n
        invariant
            k <= n <= to - from,
            from <= to <= s@.len(),
            n == prefix@.len(),
            part == s@.subrange(from as int, to as int),
            forall|m: int| 0 <= m < k ==> part[m] == prefix@[m],
        decreases n - k,
    {
        if s.get_char(from + k) != prefix.get_char(k) {
            proof {
                assert(part.subrange(0, n as int)[k as int] == part[k as int]);
            }
            return false;
        }
        k = k + 1;
    }
    proof {
        assert(part.subrange(0, n as int) =~= prefix@);
    }
    true
}

/// Whether two strings hold the same characters.
pub fn same_text(a: &str, b: &str) -> (r: bool)
    ensures
        r == (a@ == b@),
{
    let n: usize = a.unicode_len();
    if n != b.unicode_len() {
        return false;
    }
    proof {
        assert(a@.subrange(0, n as int) =~= a@);
    }
    has_prefix_in(a, 0, n, b)
}

/// The range `from..to` of `s` as a string of its own.
pub fn copy_range(s: &str, from: usize, to: usize) -> (r: String)
    requires
        from <= to <= s@.len(),
    ensures
        r@ == s@.subrange(from as int, to as int),
{
    s.substring_char(from, to).to_owned()
}

/// The character of a decimal digit.
pub open spec fn digit_text(d: nat) -> Seq<char> {
    if d == 0 {
        "0"@
    } else if d == 1 {
        "1"@
    } else if d == 2 {
        "2"@
    } else if d == 3 {
        "3"@
    } else if d == 4 {
        "4"@
    } else if d == 5 {
        "5"@
    } else if d == 6 {
        "6"@
    } else if d == 7 {
        "7"@
    } else if d == 8 {
        "8"@
    } else {
        "9"@
    }
}

/// A number in decimal digits, without leading zeros.
pub open spec fn decimal_text(n: nat) -> Seq<char>
    decreases n,
{
    if n < 10 {
        digit_text(n)
    } else {
        decimal_text(n / 10) + digit_text(n % 10)
    }
}

fn digit(d: u16) -> (r: &'static str)
    requires
        d < 10,
    ensures
        r@ == digit_text(d as nat),
{
    if d == 0 {
        "0"
    } else if d == 1 {
        "1"
    } else if d == 2 {
        "2"
    } else if d == 3 {
        "3"
    } else if d == 4 {
        "4"
    } else if d == 5 {
        "5"
    } else if d == 6 {
        "6"
    } else if d == 7 {
        "7"
    } else if d == 8 {
        "8"
    } else {
        "9"
    }
}

/// Writes a number in decimal digits.
pub fn decimal(n: u16) -> (r: String)
    ensures
        r@ == decimal_text(n as nat),
    decreases n,
{
    if n < 10 {
        digit(n).to_owned()
    } else {
        decimal(n / 10).concat(digit(n % 10))
    }
}

} // verus!
