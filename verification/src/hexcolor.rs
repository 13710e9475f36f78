//! Reading a colour written as hexadecimal text, such as `"00B4D8"` or
//! `"#00B4D8"`, into its `0xRRGGBB` value.
use vstd::prelude::*;

verus! {

/// The colour used when a colour text cannot be read (blue, `#00B4D8`).
pub const FALLBACK_COLOR: u32 = 0x00B4D8;

/// Unicode `White_Space`: the characters that `char::is_whitespace`
/// accepts and that `str::trim` removes.
pub open spec fn is_whitespace(c: char) -> bool {
    let n = c as int;
    ||| 0x09 <= n <= 0x0D
    ||| n == 0x20
    ||| n == 0x85
    ||| n == 0xA0
    ||| n == 0x1680
    ||| 0x2000 <= n <= 0x200A
    ||| n == 0x2028
    ||| n == 0x2029
    ||| n == 0x202F
    ||| n == 0x205F
    ||| n == 0x3000
}

/// `s` without its leading whitespace.
pub open spec fn trim_start(s: Seq<char>) -> Seq<char>
    decreases s.len(),
{
    if s.len() > 0 && is_whitespace(s[0]) {
        trim_start(s.drop_first())
    } else {
        s
    }
}

/// `s` without its trailing whitespace.
pub open spec fn trim_end(s: Seq<char>) -> Seq<char>
    decreases s.len(),
{
    if s.len() > 0 && is_whitespace(s.last()) {
        trim_end(s.drop_last())
    } else {
        s
    }
}

/// `s` without leading and trailing whitespace.
pub open spec fn trim(s: Seq<char>) -> Seq<char> {
    trim_end(trim_start(s))
}

/// `s` without any of the `'#'` characters it starts with.
pub open spec fn strip_hashes(s: Seq<char>) -> Seq<char>
    decreases s.len(),
{
    if s.len() > 0 && s[0] == '#' {
        strip_hashes(s.drop_first())
    } else {
        s
    }
}

/// The value of a hexadecimal digit (either case), if `c` is one.
pub open spec fn hex_digit(c: char) -> Option<nat> {
    if '0' <= c && c <= '9' {
        Some((c as int - '0' as int) as nat)
    } else if 'a' <= c && c <= 'f' {
        Some((c as int - 'a' as int + 10) as nat)
    } else if 'A' <= c && c <= 'F' {
        Some((c as int - 'A' as int + 10) as nat)
    } else {
        None
    }
}

/// Every character of `s` is a hexadecimal digit.
pub open spec fn all_hex_digits(s: Seq<char>) -> bool {
    forall|i: int| 0 <= i < s.len() ==> (#[trigger] hex_digit(s[i])) is Some
}

/// The number that the hexadecimal digits `s` denote (most significant first).
pub open spec fn hex_value(s: Seq<char>) -> nat
    decreases s.len(),
{
    if s.len() == 0 {
        0
    } else {
        let d: nat = match hex_digit(s.last()) {
            Some(v) => v,
            None => 0,
        };
        hex_value(s.drop_last()) * 16 + d
    }
}

/// What `u32::from_str_radix(s, 16)` gives: an optional `'+'`, then at least
/// one hexadecimal digit and nothing else, denoting a number that fits in
/// 32 bits.
pub open spec fn radix16_u32(s: Seq<char>) -> Option<u32> {
    let digits = if s.len() > 0 && s[0] == '+' {
        s.drop_first()
    } else {
        s
    };
    if digits.len() > 0 && all_hex_digits(digits) && hex_value(digits) <= u32::MAX {
        Some(hex_value(digits) as u32)
    } else {
        None
    }
}

/// The colour that the text `s` denotes: `s` is trimmed of whitespace and of
/// leading `'#'` characters and read as hexadecimal; text that cannot be
/// read gives `FALLBACK_COLOR`.
pub open spec fn color_value(s: Seq<char>) -> u32 {
    match radix16_u32(strip_hashes(trim(s))) {
        Some(v) => v,
        None => FALLBACK_COLOR,
    }
}

fn char_is_whitespace(c: char) -> (b: bool)
    ensures
        b == is_whitespace(c),
{
    let n = c as u32;
    (0x09 <= n && n <= 0x0D) || n == 0x20 || n == 0x85 || n == 0xA0 || n == 0x1680 || (0x2000
        <= n && n <= 0x200A) || n == 0x2028 || n == 0x2029 || n == 0x202F || n == 0x205F || n
        == 0x3000
}

fn hex_digit_value(c: char) -> (r: Option<u32>)
    ensures
        match hex_digit(c) {
            Some(v) => r == Some(v as u32),
            None => r is None,
        },
{
    let n = c as u32;
    if 0x30 <= n && n <= 0x39 {
        Some(n - 0x30)
    } else if 0x61 <= n && n <= 0x66 {
        Some(n - 0x61 + 10)
    } else if 0x41 <= n && n <= 0x46 {
        Some(n - 0x41 + 10)
    } else {
        None
    }
}

fn chars_of(s: &str) -> (v: Vec<char>)
    ensures
        v@ == s@,
{
    let mut v: Vec<char> = Vec::new();
    for c in it: s.chars()
        invariant
            v@ == it.seq().take(it.index()),
    {
        v.push(c);
    }
    v
}

proof fn lemma_hex_value_prefix(s: Seq<char>, k: int)
    requires
        0 <= k <= s.len(),
    ensures
        hex_value(s.take(k)) <= hex_value(s),
    decreases s.len(),
{
    if k < s.len() {
        assert(s.take(k) =~= s.drop_last().take(k));
        lemma_hex_value_prefix(s.drop_last(), k);
    } else {
        assert(s.take(k) =~= s);
    }
}

proof fn lemma_trim_end_prepend(c: char, s: Seq<char>)
    requires
        !is_whitespace(c),
    ensures
        trim_end(seq![c] + s) == seq![c] + trim_end(s),
    decreases s.len(),
{
    let cs = seq![c] + s;
    if s.len() > 0 && is_whitespace(s.last()) {
        assert(cs.drop_last() =~= seq![c] + s.drop_last());
        lemma_trim_end_prepend(c, s.drop_last());
    } else {
        assert(s.len() == 0 ==> cs.last() == c);
        assert(s.len() > 0 ==> cs.last() == s.last());
    }
}

/// A colour text means the same with one more leading `'#'`, unless it
/// starts with whitespace: `"#00B4D8"` and `"00B4D8"` are the same colour.
pub proof fn lemma_hash_prefix_ignored(s: Seq<char>)
    requires
        s.len() == 0 || !is_whitespace(s[0]),
    ensures
        color_value(seq!['#'] + s) == color_value(s),
{
    let hs = seq!['#'] + s;
    assert(hs[0] == '#');
    assert(trim_start(hs) == hs);
    assert(trim_start(s) == s);
    lemma_trim_end_prepend('#', s);
    let t = trim_end(s);
    assert((seq!['#'] + t).drop_first() =~= t);
    assert(strip_hashes(seq!['#'] + t) == strip_hashes(t));
}

/// Whether every character of `s` is whitespace.
pub open spec fn all_whitespace(s: Seq<char>) -> bool {
    forall|i: int| 0 <= i < s.len() ==> is_whitespace(#[trigger] s[i])
}

proof fn lemma_trim_start_skips(a: Seq<char>, s: Seq<char>)
    requires
        all_whitespace(a),
    ensures
        trim_start(a + s) == trim_start(s),
    decreases a.len(),
{
    if a.len() > 0 {
        assert((a + s)[0] == a[0]);
        assert((a + s).drop_first() =~= a.drop_first() + s);
        lemma_trim_start_skips(a.drop_first(), s);
    } else {
        assert(a + s =~= s);
    }
}

proof fn lemma_trim_end_skips(s: Seq<char>, b: Seq<char>)
    requires
        all_whitespace(b),
    ensures
        trim_end(s + b) == trim_end(s),
    decreases b.len(),
{
    if b.len() > 0 {
        assert((s + b).last() == b.last());
        assert((s + b).drop_last() =~= s + b.drop_last());
        lemma_trim_end_skips(s, b.drop_last());
    } else {
        assert(s + b =~= s);
    }
}

proof fn lemma_trim_start_append(s: Seq<char>, b: Seq<char>)
    ensures
        trim_start(s + b) == (if trim_start(s).len() == 0 {
            trim_start(b)
        } else {
            trim_start(s) + b
        }),
    decreases s.len(),
{
    if s.len() == 0 {
        assert(s + b =~= b);
    } else if is_whitespace(s[0]) {
        assert((s + b)[0] == s[0]);
        assert((s + b).drop_first() =~= s.drop_first() + b);
        lemma_trim_start_append(s.drop_first(), b);
    } else {
        assert((s + b)[0] == s[0]);
    }
}

proof fn lemma_trim_start_all_whitespace(s: Seq<char>)
    requires
        all_whitespace(s),
    ensures
        trim_start(s).len() == 0,
    decreases s.len(),
{
    if s.len() > 0 {
        assert(is_whitespace(s[0]));
        lemma_trim_start_all_whitespace(s.drop_first());
    }
}

/// Whitespace around a colour text does not change the colour it denotes.
pub proof fn lemma_surrounding_whitespace_ignored(a: Seq<char>, s: Seq<char>, b: Seq<char>)
    requires
        all_whitespace(a),
        all_whitespace(b),
    ensures
        color_value(a + s + b) == color_value(s),
{
    assert(a + s + b =~= a + (s + b));
    lemma_trim_start_skips(a, s + b);
    lemma_trim_start_append(s, b);
    if trim_start(s).len() == 0 {
        lemma_trim_start_all_whitespace(b);
        assert(trim_start(a + s + b).len() == 0);
        assert(trim(a + s + b).len() == 0);
        assert(trim(s).len() == 0);
        assert(trim(a + s + b) =~= trim(s));
    } else {
        lemma_trim_end_skips(trim_start(s), b);
    }
}

/// The hexadecimal digit for `d < 16`, in upper case (`'A'..'F'`) or lower
/// case (`'a'..'f'`).
pub open spec fn digit_char(d: nat, upper: bool) -> char {
    if d == 0 {
        '0'
    } else if d == 1 {
        '1'
    } else if d == 2 {
        '2'
    } else if d == 3 {
        '3'
    } else if d == 4 {
        '4'
    } else if d == 5 {
        '5'
    } else if d == 6 {
        '6'
    } else if d == 7 {
        '7'
    } else if d == 8 {
        '8'
    } else if d == 9 {
        '9'
    } else if d == 10 {
        if upper { 'A' } else { 'a' }
    } else if d == 11 {
        if upper { 'B' } else { 'b' }
    } else if d == 12 {
        if upper { 'C' } else { 'c' }
    } else if d == 13 {
        if upper { 'D' } else { 'd' }
    } else if d == 14 {
        if upper { 'E' } else { 'e' }
    } else {
        if upper { 'F' } else { 'f' }
    }
}

/// The last `k` hexadecimal digits of `v`, most significant first (with
/// leading zeros), all in upper or all in lower case.
pub open spec fn hex_text(v: nat, k: nat, upper: bool) -> Seq<char>
    decreases k,
{
    if k == 0 {
        Seq::empty()
    } else {
        hex_text(v / 16, (k - 1) as nat, upper) + seq![digit_char(v % 16, upper)]
    }
}

/// `16` to the power `k`.
pub open spec fn pow16(k: nat) -> nat
    decreases k,
{
    if k == 0 {
        1
    } else {
        16 * pow16((k - 1) as nat)
    }
}

proof fn lemma_hex_text_digits(v: nat, k: nat, upper: bool)
    requires
        v < pow16(k),
    ensures
        hex_text(v, k, upper).len() == k,
        all_hex_digits(hex_text(v, k, upper)),
        hex_value(hex_text(v, k, upper)) == v,
    decreases k,
{
    if k > 0 {
        let q = v / 16;
        let p = pow16((k - 1) as nat);
        assert(q < p) by (nonlinear_arith)
            requires
                v < 16 * p,
                q == v / 16,
        ;
        lemma_hex_text_digits(q, (k - 1) as nat, upper);
        let t = hex_text(v, k, upper);
        let pre = hex_text(q, (k - 1) as nat, upper);
        assert(t.drop_last() =~= pre);
        assert(hex_digit(digit_char(v % 16, upper)) == Some(v % 16));
        assert forall|i: int| 0 <= i < t.len() implies (#[trigger] hex_digit(t[i])) is Some by {
            if i < pre.len() {
                assert(t[i] == pre[i]);
            }
        }
    }
}

/// Writing a colour as hexadecimal digits and reading it back gives the
/// colour again: for `1 <= k` digits that hold `v` (such as the six of
/// `"00B4D8"`), in upper case or in lower case, the text denotes `v`. So
/// every digit `'0'..'9'`, `'A'..'F'` and `'a'..'f'` has its base-16 value,
/// and the case of the letters does not matter.
pub proof fn lemma_hex_text_read_back(v: nat, k: nat, upper: bool)
    requires
        1 <= k,
        v < pow16(k),
        v <= u32::MAX,
    ensures
        color_value(hex_text(v, k, upper)) == v,
{
    lemma_hex_text_digits(v, k, upper);
    let t = hex_text(v, k, upper);
    assert(hex_digit(t[0]) is Some);
    assert(hex_digit(t.last()) is Some);
    assert(trim_start(t) == t);
    assert(trim_end(t) == t);
    assert(strip_hashes(t) == t);
}

/// A number that does not fit in 32 bits is unreadable, however it is
/// written: its text gives the fallback blue `0x00B4D8`.
pub proof fn lemma_too_large_falls_back(v: nat, k: nat, upper: bool)
    requires
        v < pow16(k),
        v > u32::MAX,
    ensures
        color_value(hex_text(v, k, upper)) == 0x00B4D8,
{
    lemma_hex_text_digits(v, k, upper);
    let t = hex_text(v, k, upper);
    if k == 0 {
        assert(v < 1);
    } else {
        assert(hex_digit(t[0]) is Some);
        assert(hex_digit(t.last()) is Some);
        assert(trim_start(t) == t);
        assert(trim_end(t) == t);
        assert(strip_hashes(t) == t);
    }
}

/// Spaces, tabs and line breaks around a colour text are ignored, as is any
/// Unicode whitespace: `" 4CAF50\n"` is the colour `0x4CAF50`.
pub proof fn lemma_blanks_ignored(a: Seq<char>, s: Seq<char>, b: Seq<char>)
    requires
        forall|i: int|
            0 <= i < a.len() ==> #[trigger] a[i] == ' ' || a[i] == '\t' || a[i] == '\n' || a[i]
                == '\r',
        forall|i: int|
            0 <= i < b.len() ==> #[trigger] b[i] == ' ' || b[i] == '\t' || b[i] == '\n' || b[i]
                == '\r',
    ensures
        color_value(a + s + b) == color_value(s),
{
    lemma_surrounding_whitespace_ignored(a, s, b);
}

proof fn lemma_trim_start_split(s: Seq<char>) -> (k: int)
    ensures
        0 <= k <= s.len(),
        trim_start(s) == s.subrange(k, s.len() as int),
        forall|j: int| 0 <= j < k ==> is_whitespace(#[trigger] s[j]),
    decreases s.len(),
{
    if s.len() > 0 && is_whitespace(s[0]) {
        let k1 = lemma_trim_start_split(s.drop_first());
        assert(s.drop_first().subrange(k1, s.drop_first().len() as int) =~= s.subrange(
            k1 + 1,
            s.len() as int,
        ));
        assert forall|j: int| 0 <= j < k1 + 1 implies is_whitespace(#[trigger] s[j]) by {
            if j > 0 {
                assert(s[j] == s.drop_first()[j - 1]);
            }
        }
        k1 + 1
    } else {
        assert(s.subrange(0, s.len() as int) =~= s);
        0
    }
}

proof fn lemma_trim_end_split(s: Seq<char>) -> (k: int)
    ensures
        0 <= k <= s.len(),
        trim_end(s) == s.subrange(0, k),
        forall|j: int| k <= j < s.len() ==> is_whitespace(#[trigger] s[j]),
    decreases s.len(),
{
    if s.len() > 0 && is_whitespace(s.last()) {
        let k1 = lemma_trim_end_split(s.drop_last());
        assert(s.drop_last().subrange(0, k1) =~= s.subrange(0, k1));
        assert forall|j: int| k1 <= j < s.len() implies is_whitespace(#[trigger] s[j]) by {
            if j < s.len() - 1 {
                assert(s[j] == s.drop_last()[j]);
            }
        }
        k1
    } else {
        assert(s.subrange(0, s.len() as int) =~= s);
        s.len() as int
    }
}

proof fn lemma_strip_hashes_split(s: Seq<char>) -> (k: int)
    ensures
        0 <= k <= s.len(),
        strip_hashes(s) == s.subrange(k, s.len() as int),
        forall|j: int| 0 <= j < k ==> #[trigger] s[j] == '#',
    decreases s.len(),
{
    if s.len() > 0 && s[0] == '#' {
        let k1 = lemma_strip_hashes_split(s.drop_first());
        assert(s.drop_first().subrange(k1, s.drop_first().len() as int) =~= s.subrange(
            k1 + 1,
            s.len() as int,
        ));
        assert forall|j: int| 0 <= j < k1 + 1 implies #[trigger] s[j] == '#' by {
            if j > 0 {
                assert(s[j] == s.drop_first()[j - 1]);
            }
        }
        k1 + 1
    } else {
        assert(s.subrange(0, s.len() as int) =~= s);
        0
    }
}

/// A letter past `'f'` anywhere in a colour text makes it unreadable: the
/// text gives the fallback blue `0x00B4D8` (so `"blue"` or `"00B4G8"` is
/// not a colour).
pub proof fn lemma_non_hex_letter_falls_back(s: Seq<char>, i: int)
    requires
        0 <= i < s.len(),
        ('g' <= s[i] && s[i] <= 'z') || ('G' <= s[i] && s[i] <= 'Z'),
    ensures
        color_value(s) == 0x00B4D8,
{
    let k1 = lemma_trim_start_split(s);
    let t1 = trim_start(s);
    let k2 = lemma_trim_end_split(t1);
    let t2 = trim(s);
    let k3 = lemma_strip_hashes_split(t2);
    let t3 = strip_hashes(t2);
    // the letter survives each step
    if i < k1 {
        assert(is_whitespace(s[i]));
    }
    assert(t1[i - k1] == s[i]);
    if i - k1 >= k2 {
        assert(is_whitespace(t1[i - k1]));
    }
    assert(t2[i - k1] == s[i]);
    if i - k1 < k3 {
        assert(t2[i - k1] == '#');
    }
    assert(t3[i - k1 - k3] == s[i]);
    let digits = if t3.len() > 0 && t3[0] == '+' {
        t3.drop_first()
    } else {
        t3
    };
    if t3.len() > 0 && t3[0] == '+' {
        assert(i - k1 - k3 != 0);
        assert(digits[i - k1 - k3 - 1] == s[i]);
        assert(hex_digit(digits[i - k1 - k3 - 1]) is None);
    } else {
        assert(hex_digit(digits[i - k1 - k3]) is None);
    }
    assert(!all_hex_digits(digits));
}

/// Reads a colour written as hexadecimal text, with or without a leading
/// `'#'` and surrounding whitespace; text that is not a 32-bit hexadecimal
/// number gives `FALLBACK_COLOR`.
pub fn parse_hex_color(s: &str) -> (r: u32)
    ensures
        r == color_value(s@),
{
    let v = chars_of(s);
    let len = v.len();
    let ghost w = v@;

    // leading whitespace
    let mut start: usize = 0;
    assert(w.subrange(0, len as int) =~= w);
    while start < len && char_is_whitespace(v[start])
        invariant
            w == v@,
            len == w.len(),
            start <= len,
            trim_start(w) == trim_start(w.subrange(start as int, len as int)),
        decreases len - start,
    {
        assert(w.subrange(start as int, len as int).drop_first() =~= w.subrange(
            start + 1,
            len as int,
        ));
        start = start + 1;
    }
    assert(trim_start(w) == w.subrange(start as int, len as int));

    // trailing whitespace
    let mut end: usize = len;
    while end > start && char_is_whitespace(v[end - 1])
        invariant
            w == v@,
            len == w.len(),
            start <= end <= len,
            trim(w) == trim_end(w.subrange(start as int, end as int)),
        decreases end - start,
    {
        assert(w.subrange(start as int, end as int).drop_last() =~= w.subrange(
            start as int,
            end - 1,
        ));
        end = end - 1;
    }
    assert(trim(w) == w.subrange(start as int, end as int));

    // leading '#' characters
    while start < end && v[start] == '#'
        invariant
            w == v@,
            len == w.len(),
            start <= end <= len,
            strip_hashes(trim(w)) == strip_hashes(w.subrange(start as int, end as int)),
        decreases end - start,
    {
        assert(w.subrange(start as int, end as int).drop_first() =~= w.subrange(
            start + 1,
            end as int,
        ));
        start = start + 1;
    }
    let ghost u = w.subrange(start as int, end as int);
    assert(strip_hashes(trim(w)) == u);

    // optional sign
    if start < end && v[start] == '+' {
        start = start + 1;
    }
    let ghost digits = w.subrange(start as int, end as int);
    assert(digits =~= (if u.len() > 0 && u[0] == '+' { u.drop_first() } else { u }));
    if start == end {
        return FALLBACK_COLOR;
    }

    assert(color_value(s@) == (if all_hex_digits(digits) && hex_value(digits) <= u32::MAX {
        hex_value(digits) as u32
    } else {
        FALLBACK_COLOR
    }));
    let mut acc: u64 = 0;
    let mut i: usize = start;
    assert(w.subrange(start as int, i as int) =~= Seq::<char>::empty());
    while i < end
        invariant
            w == v@,
            len == w.len(),
            start <= i <= end <= len,
            digits == w.subrange(start as int, end as int),
            color_value(s@) == (if all_hex_digits(digits) && hex_value(digits) <= u32::MAX {
                hex_value(digits) as u32
            } else {
                FALLBACK_COLOR
            }),
            all_hex_digits(w.subrange(start as int, i as int)),
            acc == hex_value(w.subrange(start as int, i as int)),
            acc <= u32::MAX,
        decreases end - i,
    {
        let ghost pre = w.subrange(start as int, i as int);
        let ghost next = w.subrange(start as int, i + 1);
        assert(next.drop_last() =~= pre);
        assert(next.last() == w[i as int]);
        match hex_digit_value(v[i]) {
            None => {
                assert(digits[i - start] == w[i as int]);
                assert(!all_hex_digits(digits));
                return FALLBACK_COLOR;
            },
            Some(d) => {
                let n = acc * 16 + d as u64;
                if n > 0xFFFF_FFFFu64 {
                    proof {
                        assert(next =~= digits.take(i + 1 - start));
                        lemma_hex_value_prefix(digits, i + 1 - start);
                    }
                    return FALLBACK_COLOR;
                }
                acc = n;
                i = i + 1;
                assert forall|j: int| 0 <= j < next.len() implies (#[trigger] hex_digit(
                    next[j],
                )) is Some by {
                    if j < pre.len() {
                        assert(next[j] == pre[j]);
                    }
                }
            },
        }
    }
    acc as u32
}

} // verus!
