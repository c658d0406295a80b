//! Text helpers: decimal rendering of integers, whitespace and splitting.
use vstd::prelude::*;

verus! {

/// The digit character for `d` (meaningful for `d < 10`).
pub open spec fn digit_char(d: nat) -> char {
    if d == 0 {
        '0'
    } else if d == 1 {
        '1'
    } else if d == 2 {
        '2'
    } else if d == 3 {
        '3'
    } else if d == 4 {
        '4'
    } else if d == 5 {
        '5'
    } else if d == 6 {
        '6'
    } else if d == 7 {
        '7'
    } else if d == 8 {
        '8'
    } else {
        '9'
    }
}

/// The decimal representation of `n`, without leading zeros.
pub open spec fn dec(n: nat) -> Seq<char>
    decreases n,
{
    if n < 10 {
        seq![digit_char(n)]
    } else {
        dec(n / 10).push(digit_char(n % 10))
    }
}

/// The number that a string of decimal digits reads as (each character
/// counting by its code point less that of `0`).
pub open spec fn digits_value(s: Seq<char>) -> int
    decreases s.len(),
{
    if s.len() == 0 {
        0
    } else {
        digits_value(s.drop_last()) * 10 + (s.last() as int - '0' as int)
    }
}

/// `dec` writes numbers as people read them: only the characters `0` to `9`,
/// no leading zero but for `0` itself, and read back as decimal digits the
/// text is the number.
pub proof fn lemma_dec_reads_back(n: nat)
    ensures
        forall|i: int| 0 <= i < dec(n).len() ==> '0' <= #[trigger] dec(n)[i] <= '9',
        n >= 1 ==> dec(n)[0] != '0',
        dec(n).len() >= 1,
        digits_value(dec(n)) == n,
    decreases n,
{
    if n < 10 {
        assert(dec(n).drop_last() =~= Seq::<char>::empty());
        assert(digits_value(Seq::<char>::empty()) == 0);
        assert(dec(n).last() == digit_char(n));
        assert(digit_char(n) as int - '0' as int == n);
        assert(n >= 1 ==> digit_char(n) != '0');
    } else {
        lemma_dec_reads_back(n / 10);
        let d = (n % 10) as nat;
        assert(digit_char(d) as int - '0' as int == d);
        assert(dec(n).drop_last() =~= dec(n / 10));
        assert(dec(n).last() == digit_char(d));
        assert(dec(n)[0] == dec(n / 10)[0]);
        assert(n == (n / 10) * 10 + d) by (nonlinear_arith)
            requires
                d == n % 10,
        ;
    }
}

/// The decimal representation of a signed integer, with a leading `-` when negative.
pub open spec fn dec_signed(i: int) -> Seq<char> {
    if i < 0 {
        seq!['-'] + dec((-i) as nat)
    } else {
        dec(i as nat)
    }
}

/// `dec_signed` writes a negative number as `-` and then its magnitude, and
/// any other as `dec` does; either way the digits read back as the magnitude.
pub proof fn lemma_dec_signed_reads_back(i: int)
    ensures
        i < 0 ==> dec_signed(i)[0] == '-' && digits_value(dec_signed(i).drop_first()) == -i,
        i >= 0 ==> dec_signed(i) == dec(i as nat) && digits_value(dec_signed(i)) == i,
{
    if i < 0 {
        lemma_dec_reads_back((-i) as nat);
        assert(dec_signed(i).drop_first() =~= dec((-i) as nat));
    } else {
        lemma_dec_reads_back(i as nat);
    }
}

/// Appends one character to a string (`String::push`).
#[verifier::external_body]
pub fn push_char(s: &mut String, c: char)
    ensures
        final(s)@ == old(s)@.push(c),
{
    s.push(c);
}

fn digit(d: u64) -> (c: char)
    requires
        d < 10,
    ensures
        c == digit_char(d as nat),
{
    match d {
        0 => '0',
        1 => '1',
        2 => '2',
        3 => '3',
        4 => '4',
        5 => '5',
        6 => '6',
        7 => '7',
        8 => '8',
        _ => '9',
    }
}

/// Appends the decimal representation of `n` to `out`.
pub fn push_u64(out: &mut String, n: u64)
    ensures
        final(out)@ == old(out)@ + dec(n as nat),
    decreases n,
{
    if n >= 10 {
        push_u64(out, n / 10);
    }
    push_char(out, digit(n % 10));
    proof {
        if n < 10 {
            assert(old(out)@ + dec(n as nat) =~= old(out)@.push(digit_char(n as nat)));
        }
    }
}

/// The decimal representation of `n` (what `n.to_string()` gives).
pub fn u64_to_text(n: u64) -> (s: String)
    ensures
        s@ == dec(n as nat),
{
    let mut s = String::new();
    push_u64(&mut s, n);
    assert(s@ =~= dec(n as nat));
    s
}

/// The decimal representation of `i` (what `i.to_string()` gives).
pub fn i64_to_text(i: i64) -> (s: String)
    ensures
        s@ == dec_signed(i as int),
{
    let mut s = String::new();
    if i < 0 {
        push_char(&mut s, '-');
        let magnitude: u64 = if i == i64::MIN {
            9223372036854775808u64
        } else {
            (-i) as u64
        };
        push_u64(&mut s, magnitude);
    } else {
        push_u64(&mut s, i as u64);
    }
    s
}

/// The text of a boolean (what `b.to_string()` gives).
pub open spec fn bool_text(b: bool) -> Seq<char> {
    if b {
        seq!['t', 'r', 'u', 'e']
    } else {
        seq!['f', 'a', 'l', 's', 'e']
    }
}

/// Booleans are sent in lower case: `true` and `false`.
pub proof fn lemma_bool_text_lower_case(b: bool)
    ensures
        bool_text(b) == (if b {
            "true"@
        } else {
            "false"@
        }),
{
    reveal_strlit("true");
    reveal_strlit("false");
    assert(bool_text(true) =~= "true"@);
    assert(bool_text(false) =~= "false"@);
}

/// `"true"` or `"false"`.
pub fn bool_to_text(b: bool) -> (s: String)
    ensures
        s@ == bool_text(b),
{
    let mut s = String::new();
    if b {
        push_char(&mut s, 't');
        push_char(&mut s, 'r');
        push_char(&mut s, 'u');
        push_char(&mut s, 'e');
    } else {
        push_char(&mut s, 'f');
        push_char(&mut s, 'a');
        push_char(&mut s, 'l');
        push_char(&mut s, 's');
        push_char(&mut s, 'e');
    }
    assert(s@ =~= bool_text(b));
    s
}

/// A string whose text is `a` followed by `b`.
pub fn concat(a: &str, b: &str) -> (s: String)
    ensures
        s@ == a@ + b@,
{
    let mut s = a.to_owned();
    s.append(b);
    s
}

/// The id in `o`, or `default` when there is none.
pub open spec fn id_or_spec(o: Option<u64>, default: u64) -> u64 {
    match o {
        Some(v) => v,
        None => default,
    }
}

/// The id in `o`, or `default` when there is none (`o.unwrap_or(default)`).
pub fn id_or(o: Option<u64>, default: u64) -> (r: u64)
    ensures
        r == id_or_spec(o, default),
{
    match o {
        Some(v) => v,
        None => default,
    }
}

/// `a`, or `b` when `a` is `None` (`a.or(b)`).
pub open spec fn or_id_spec(a: Option<u64>, b: Option<u64>) -> Option<u64> {
    match a {
        Some(v) => Some(v),
        None => b,
    }
}

/// `a`, or `b` when `a` is `None` (`a.or(b)`).
pub fn or_id(a: Option<u64>, b: Option<u64>) -> (r: Option<u64>)
    ensures
        r == or_id_spec(a, b),
{
    match a {
        Some(v) => Some(v),
        None => b,
    }
}

/// The lowercase form of `s` under the Unicode case mapping that
/// `str::to_lowercase` applies.
pub uninterp spec fn lowercase(s: Seq<char>) -> Seq<char>;

/// `str::to_lowercase`. Claimed: the result is `lowercase` of the input, which
/// depends on the input alone; what that mapping is, is not restated here.
#[verifier::external_body]
pub fn to_lowercase(s: &str) -> (r: String)
    ensures
        r@ == lowercase(s@),
{
    s.to_lowercase()
}

/// Unicode `White_Space`, the characters that `char::is_whitespace` accepts.
pub open spec fn is_ws(c: char) -> bool {
    let u = c as u32;
    (0x09 <= u && u <= 0x0D) || u == 0x20 || u == 0x85 || u == 0xA0 || u == 0x1680 || (0x2000
        <= u && u <= 0x200A) || u == 0x2028 || u == 0x2029 || u == 0x202F || u == 0x205F || u
        == 0x3000
}

/// Whether `c` is Unicode white space (`char::is_whitespace`).
pub fn is_whitespace(c: char) -> (b: bool)
    ensures
        b == is_ws(c),
{
    let u = c as u32;
    (0x09 <= u && u <= 0x0D) || u == 0x20 || u == 0x85 || u == 0xA0 || u == 0x1680 || (0x2000
        <= u && u <= 0x200A) || u == 0x2028 || u == 0x2029 || u == 0x202F || u == 0x205F || u
        == 0x3000
}

/// `s` without its leading white space.
pub open spec fn trim_start(s: Seq<char>) -> Seq<char>
    decreases s.len(),
{
    if s.len() > 0 && is_ws(s[0]) {
        trim_start(s.subrange(1, s.len() as int))
    } else {
        s
    }
}

/// `s` without its trailing white space.
pub open spec fn trim_end(s: Seq<char>) -> Seq<char>
    decreases s.len(),
{
    if s.len() > 0 && is_ws(s[s.len() - 1]) {
        trim_end(s.subrange(0, s.len() - 1))
    } else {
        s
    }
}

/// `s` without leading and trailing white space (`str::trim`).
pub open spec fn trim(s: Seq<char>) -> Seq<char> {
    trim_end(trim_start(s))
}

/// `s` without the characters `c` at either end (`str::trim_matches(c)`).
pub open spec fn trim_char(s: Seq<char>, c: char) -> Seq<char> {
    trim_char_end(trim_char_start(s, c), c)
}

/// `s` without the leading characters `c`.
pub open spec fn trim_char_start(s: Seq<char>, c: char) -> Seq<char>
    decreases s.len(),
{
    if s.len() > 0 && s[0] == c {
        trim_char_start(s.subrange(1, s.len() as int), c)
    } else {
        s
    }
}

/// `s` without the trailing characters `c`.
pub open spec fn trim_char_end(s: Seq<char>, c: char) -> Seq<char>
    decreases s.len(),
{
    if s.len() > 0 && s[s.len() - 1] == c {
        trim_char_end(s.subrange(0, s.len() - 1), c)
    } else {
        s
    }
}

/// What `trim_start` leaves begins with a character that is not white space.
pub proof fn lemma_trim_start_shape(s: Seq<char>)
    ensures
        trim_start(s).len() <= s.len(),
        trim_start(s) == s.subrange(s.len() - trim_start(s).len(), s.len() as int),
        trim_start(s).len() > 0 ==> !is_ws(trim_start(s)[0]),
    decreases s.len(),
{
    if s.len() > 0 && is_ws(s[0]) {
        let t = s.subrange(1, s.len() as int);
        lemma_trim_start_shape(t);
        assert(t.subrange(t.len() - trim_start(t).len(), t.len() as int) =~= s.subrange(
            s.len() - trim_start(t).len(),
            s.len() as int,
        ));
    } else {
        assert(s.subrange(0, s.len() as int) =~= s);
    }
}

/// What `trim_end` leaves is a prefix that ends with a character that is not
/// white space.
pub proof fn lemma_trim_end_shape(s: Seq<char>)
    ensures
        trim_end(s).len() <= s.len(),
        trim_end(s) == s.subrange(0, trim_end(s).len() as int),
        trim_end(s).len() > 0 ==> !is_ws(trim_end(s)[trim_end(s).len() - 1]),
    decreases s.len(),
{
    if s.len() > 0 && is_ws(s[s.len() - 1]) {
        let t = s.subrange(0, s.len() - 1);
        lemma_trim_end_shape(t);
        assert(t.subrange(0, trim_end(t).len() as int) =~= s.subrange(0, trim_end(t).len() as int));
    } else {
        assert(s.subrange(0, s.len() as int) =~= s);
    }
}

/// Trimming twice trims no more than trimming once.
pub proof fn lemma_trim_idempotent(s: Seq<char>)
    ensures
        trim(trim(s)) == trim(s),
{
    let t = trim_start(s);
    let u = trim_end(t);
    lemma_trim_start_shape(s);
    lemma_trim_end_shape(t);
    if u.len() > 0 {
        assert(u[0] == t[0]);
        assert(trim_start(u) == u);
        lemma_trim_end_shape(u);
        assert(trim_end(u) == u);
    } else {
        assert(trim_start(u) == u);
        assert(trim_end(u) == u);
    }
}

/// A character that is not white space, added at the end, stays after
/// `trim_start`.
pub proof fn lemma_trim_start_push(s: Seq<char>, c: char)
    requires
        !is_ws(c),
    ensures
        trim_start(s.push(c)) == trim_start(s).push(c),
    decreases s.len(),
{
    if s.len() > 0 && is_ws(s[0]) {
        let t = s.subrange(1, s.len() as int);
        assert(s.push(c).subrange(1, s.push(c).len() as int) =~= t.push(c));
        lemma_trim_start_push(t, c);
    } else if s.len() == 0 {
        assert(s.push(c)[0] == c);
    } else {
        assert(s.push(c)[0] == s[0]);
    }
}

/// The pieces of `s` between the separators `sep` (`str::split(sep)`): one more
/// piece than there are separators, empty pieces included.
pub open spec fn split(s: Seq<char>, sep: char) -> Seq<Seq<char>>
    decreases s.len(),
{
    if s.len() == 0 {
        seq![seq![]]
    } else {
        let init = split(s.subrange(0, s.len() - 1), sep);
        if s[s.len() - 1] == sep {
            init.push(seq![])
        } else {
            init.update(init.len() - 1, init[init.len() - 1].push(s[s.len() - 1]))
        }
    }
}

/// Whether two texts are equal.
pub fn same_text(a: &str, b: &str) -> (r: bool)
    ensures
        r == (a@ == b@),
{
    let x = a.to_owned();
    let y = b.to_owned();
    x == y
}

/// Whether `needle` stands in `v[0..end]` at `at`.
pub fn occurs_at(v: &Vec<char>, end: usize, at: usize, needle: &Vec<char>) -> (b: bool)
    requires
        end <= v@.len(),
    ensures
        b == (at + needle@.len() <= end && v@.subrange(at as int, at + needle@.len()) == needle@),
{
    if at > end || needle.len() > end - at {
        return false;
    }
    let mut j: usize = 0;
    while j < needle.len()
        invariant
            j <= needle@.len(),
            at + needle@.len() <= end <= v@.len(),
            forall|k: int| 0 <= k < j ==> v@[at + k] == needle@[k],
        decreases needle@.len() - j,
    {
        if v[at + j] != needle[j] {
            assert(v@.subrange(at as int, at + needle@.len())[j as int] != needle@[j as int]);
            return false;
        }
        j = j + 1;
    }
    assert(v@.subrange(at as int, at + needle@.len()) =~= needle@);
    true
}

/// The characters of `s`, in order.
pub fn chars_of(s: &str) -> (v: Vec<char>)
    ensures
        v@ == s@,
{
    let n = s.unicode_len();
    let mut v: Vec<char> = Vec::new();
    let mut i: usize = 0;
    while i < n
        invariant
            n == s@.len(),
            i <= n,
            v@ == s@.subrange(0, i as int),
        decreases n - i,
    {
        let c = s.get_char(i);
        v.push(c);
        assert(v@ =~= s@.subrange(0, i + 1));
        i = i + 1;
    }
    assert(v@ =~= s@);
    v
}

/// A string holding the characters `v[from..to]`.
pub fn string_of(v: &Vec<char>, from: usize, to: usize) -> (s: String)
    requires
        from <= to <= v@.len(),
    ensures
        s@ == v@.subrange(from as int, to as int),
{
    let mut s = String::new();
    let mut i = from;
    while i < to
        invariant
            from <= i <= to <= v@.len(),
            s@ == v@.subrange(from as int, i as int),
        decreases to - i,
    {
        push_char(&mut s, v[i]);
        assert(s@ =~= v@.subrange(from as int, i + 1));
        i = i + 1;
    }
    s
}

/// The pieces of a split, as plain sequences.
pub open spec fn pieces_view(r: Seq<Vec<char>>) -> Seq<Seq<char>> {
    r.map_values(|x: Vec<char>| x@)
}

/// Splits `v[from..to]` at every `sep`.
pub fn split_chars(v: &Vec<char>, from: usize, to: usize, sep: char) -> (r: Vec<Vec<char>>)
    requires
        from <= to <= v@.len(),
    ensures
        pieces_view(r@) == split(v@.subrange(from as int, to as int), sep),
{
    let mut done: Vec<Vec<char>> = Vec::new();
    let mut cur: Vec<char> = Vec::new();
    let mut i = from;
    assert(v@.subrange(from as int, from as int).len() == 0);
    assert(pieces_view(done@).push(cur@) =~= seq![seq![]]);
    while i < to
        invariant
            from <= i <= to <= v@.len(),
            pieces_view(done@).push(cur@) == split(v@.subrange(from as int, i as int), sep),
        decreases to - i,
    {
        let ghost prefix = v@.subrange(from as int, i + 1);
        assert(prefix.subrange(0, prefix.len() - 1) =~= v@.subrange(from as int, i as int));
        assert(prefix[prefix.len() - 1] == v@[i as int]);
        let c = v[i];
        if c == sep {
            let piece = cur;
            cur = Vec::new();
            let ghost before = done@;
            done.push(piece);
            assert(pieces_view(done@).push(cur@) =~= pieces_view(before).push(piece@).push(seq![]));
        } else {
            let ghost before = cur@;
            cur.push(c);
            assert(pieces_view(done@).push(cur@) =~= pieces_view(done@).push(before).update(
                pieces_view(done@).len() as int,
                before.push(c),
            ));
        }
        i = i + 1;
    }
    done.push(cur);
    done
}

/// The bounds of `v[from..to]` with white space trimmed from both ends.
pub fn trim_bounds(v: &Vec<char>, from: usize, to: usize) -> (r: (usize, usize))
    requires
        from <= to <= v@.len(),
    ensures
        from <= r.0 <= r.1 <= to,
        v@.subrange(r.0 as int, r.1 as int) == trim(v@.subrange(from as int, to as int)),
{
    let mut a = from;
    while a < to && is_whitespace(v[a])
        invariant
            from <= a <= to <= v@.len(),
            trim_start(v@.subrange(from as int, to as int)) == trim_start(
                v@.subrange(a as int, to as int),
            ),
        decreases to - a,
    {
        let ghost t = v@.subrange(a as int, to as int);
        assert(t.subrange(1, t.len() as int) =~= v@.subrange(a + 1, to as int));
        a = a + 1;
    }
    let mut b = to;
    while b > a && is_whitespace(v[b - 1])
        invariant
            from <= a <= b <= to <= v@.len(),
            trim(v@.subrange(from as int, to as int)) == trim_end(v@.subrange(a as int, b as int)),
        decreases b - a,
    {
        let ghost t = v@.subrange(a as int, b as int);
        assert(t.subrange(0, t.len() - 1) =~= v@.subrange(a as int, b - 1));
        b = b - 1;
    }
    (a, b)
}

} // verus!
