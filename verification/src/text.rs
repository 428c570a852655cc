//! Text helpers shared by the engine: characters of a string, decimal numbers,
//! substring search, joining, whitespace trimming and Unix path joining.
use vstd::prelude::*;

verus! {

/// Appends one character to a string.
///
/// Trusted: `String::push` adds `c` at the end of `s` and changes nothing else.
#[verifier::external_body]
pub fn push_char(s: &mut String, c: char)
    ensures
        final(s)@ == old(s)@.push(c),
{
    s.push(c);
}

/// Whether a `String` and a `str` hold the same text.
pub fn string_eq_str(a: &String, b: &str) -> (r: bool)
    ensures
        r == (a@ == b@),
{
    let bs = str_to_string(b);
    let r = *a == bs;
    r
}

/// An owned copy of `s`.
pub fn str_to_string(s: &str) -> (r: String)
    ensures
        r@ == s@,
{
    String::from_str(s)
}

/// A copy of an optional string.
pub fn copy_opt(o: &Option<String>) -> (r: Option<String>)
    ensures
        r == *o,
{
    match o {
        Some(s) => Some(s.clone()),
        None => None,
    }
}

/// The characters of `s`, in order.
pub fn chars_of(s: &str) -> (v: Vec<char>)
    ensures
        v@ == s@,
{
    let n = s.unicode_len();
    let mut v: Vec<char> = Vec::new();
    let mut i: usize = 0;
    while i < n
        invariant
            n == s@.len(),
            i <= n,
            v@ == s@.take(i as int),
        decreases n - i,
    {
        let c = s.get_char(i);
        v.push(c);
        assert(s@.take(i + 1) =~= s@.take(i as int).push(c));
        i = i + 1;
    }
    assert(s@.take(n as int) =~= s@);
    v
}

/// The string made of the characters of `v[from..to]`.
pub fn string_of(v: &Vec<char>, from: usize, to: usize) -> (s: String)
    requires
        from <= to <= v@.len(),
    ensures
        s@ == v@.subrange(from as int, to as int),
{
    let mut s = String::new();
    let mut i: usize = from;
    while i < to
        invariant
            from <= i <= to <= v@.len(),
            s@ == v@.subrange(from as int, i as int),
        decreases to - i,
    {
        push_char(&mut s, v[i]);
        assert(v@.subrange(from as int, i + 1) =~= v@.subrange(from as int, i as int).push(v@[i as int]));
        i = i + 1;
    }
    s
}

/// The character of a decimal digit.
pub open spec fn digit_char(d: nat) -> char {
    if d == 0 {
        '0'
    } else if d == 1 {
        '1'
    } else if d == 2 {
        '2'
    } else if d == 3 {
        '3'
    } else if d == 4 {
        '4'
    } else if d == 5 {
        '5'
    } else if d == 6 {
        '6'
    } else if d == 7 {
        '7'
    } else if d == 8 {
        '8'
    } else {
        '9'
    }
}

/// The decimal notation of `n`, without leading zeros.
pub open spec fn decimal(n: nat) -> Seq<char>
    decreases n,
{
    if n < 10 {
        seq![digit_char(n)]
    } else {
        decimal(n / 10).push(digit_char(n % 10))
    }
}

/// The decimal notation of a signed number, with a leading `-` when it is negative.
pub open spec fn signed_decimal(i: int) -> Seq<char> {
    if i < 0 {
        seq!['-'] + decimal((-i) as nat)
    } else {
        decimal(i as nat)
    }
}

/// `s` with `0` in front until it is at least `width` characters long.
pub open spec fn zero_padded(s: Seq<char>, width: nat) -> Seq<char>
    decreases width,
{
    if s.len() >= width {
        s
    } else {
        seq!['0'] + zero_padded(s, (width - 1) as nat)
    }
}

pub proof fn lemma_decimal_len_pos(n: nat)
    ensures
        decimal(n).len() >= 1,
    decreases n,
{
    if n >= 10 {
        lemma_decimal_len_pos(n / 10);
    }
}

/// A number below 10^k has at most k decimal digits.
pub proof fn lemma_decimal_len_bound(n: nat, k: nat)
    requires
        1 <= k,
        n < pow10(k),
    ensures
        decimal(n).len() <= k,
    decreases k,
{
    if n >= 10 {
        assert(k >= 2) by {
            if k == 1 {
                assert(pow10(1) == 10 * pow10(0));
            }
        }
        assert(pow10(k) == 10 * pow10((k - 1) as nat));
        lemma_decimal_len_bound(n / 10, (k - 1) as nat);
    }
}

pub open spec fn pow10(k: nat) -> nat
    decreases k,
{
    if k == 0 {
        1
    } else {
        10 * pow10((k - 1) as nat)
    }
}

pub proof fn lemma_zero_padded_len(s: Seq<char>, width: nat)
    ensures
        zero_padded(s, width).len() == if s.len() >= width { s.len() } else { width },
    decreases width,
{
    if s.len() < width {
        lemma_zero_padded_len(s, (width - 1) as nat);
    }
}

/// The last `k` decimal digits of `n`, with leading zeros.
pub open spec fn fixed_digits(n: nat, k: nat) -> Seq<char>
    decreases k,
{
    if k == 0 {
        Seq::empty()
    } else {
        fixed_digits(n / 10, (k - 1) as nat).push(digit_char(n % 10))
    }
}

pub proof fn lemma_fixed_digits_len(n: nat, k: nat)
    ensures
        fixed_digits(n, k).len() == k,
    decreases k,
{
    if k > 0 {
        lemma_fixed_digits_len(n / 10, (k - 1) as nat);
    }
}

/// Padding a text that ends with `c` is padding the rest and then adding `c`.
pub proof fn lemma_zero_padded_push(s: Seq<char>, c: char, k: nat)
    requires
        k >= 1,
    ensures
        zero_padded(s.push(c), k) == zero_padded(s, (k - 1) as nat).push(c),
    decreases k,
{
    if s.len() + 1 < k {
        lemma_zero_padded_push(s, c, (k - 1) as nat);
        assert(seq!['0'] + zero_padded(s, (k - 2) as nat).push(c) =~= (seq!['0'] + zero_padded(
            s,
            (k - 2) as nat,
        )).push(c));
    }
}

/// The empty text padded to `k` is `k` zeros, as are the last `k` digits of 0.
pub proof fn lemma_zeros(k: nat)
    ensures
        zero_padded(Seq::empty(), k) == Seq::new(k, |i: int| '0'),
        fixed_digits(0, k) == Seq::new(k, |i: int| '0'),
    decreases k,
{
    if k > 0 {
        lemma_zeros((k - 1) as nat);
        assert(seq!['0'] + Seq::new((k - 1) as nat, |i: int| '0') =~= Seq::new(k, |i: int| '0'));
        assert(Seq::new((k - 1) as nat, |i: int| '0').push('0') =~= Seq::new(k, |i: int| '0'));
    } else {
        assert(zero_padded(Seq::empty(), 0) =~= Seq::new(0, |i: int| '0'));
        assert(fixed_digits(0, 0) =~= Seq::new(0, |i: int| '0'));
    }
}

/// A number below 10^k, zero-padded to `k` characters, is its last `k` digits.
pub proof fn lemma_padded_is_fixed(n: nat, k: nat)
    requires
        1 <= k,
        n < pow10(k),
    ensures
        zero_padded(decimal(n), k) == fixed_digits(n, k),
    decreases k,
{
    assert(pow10(k) == 10 * pow10((k - 1) as nat));
    if n >= 10 {
        assert(k >= 2) by {
            if k == 1 {
                assert(pow10(0) == 1);
            }
        }
        lemma_zero_padded_push(decimal(n / 10), digit_char(n % 10), k);
        lemma_padded_is_fixed(n / 10, (k - 1) as nat);
    } else {
        assert(decimal(n) =~= Seq::<char>::empty().push(digit_char(n)));
        lemma_zero_padded_push(Seq::empty(), digit_char(n), k);
        lemma_zeros((k - 1) as nat);
        assert(n / 10 == 0 && n % 10 == n);
    }
}

/// Digit characters are ordered as their digits are.
pub proof fn lemma_digit_char_order(a: nat, b: nat)
    requires
        a < b < 10,
    ensures
        (digit_char(a) as int) < (digit_char(b) as int),
{
    assert('0' as int == 48 && '1' as int == 49 && '2' as int == 50 && '3' as int == 51 && '4' as int
        == 52 && '5' as int == 53 && '6' as int == 54 && '7' as int == 55 && '8' as int == 56 && '9' as int
        == 57);
}

/// A common prefix does not change the order of two texts.
pub proof fn lemma_text_less_prefix(p: Seq<char>, a: Seq<char>, b: Seq<char>)
    ensures
        text_less(p + a, p + b) == text_less(a, b),
    decreases p.len(),
{
    if p.len() == 0 {
        assert(p + a =~= a);
        assert(p + b =~= b);
    } else {
        lemma_text_less_prefix(p.drop_first(), a, b);
        assert((p + a).drop_first() =~= p.drop_first() + a);
        assert((p + b).drop_first() =~= p.drop_first() + b);
        assert((p + a)[0] == p[0] && (p + b)[0] == p[0]);
    }
}

/// Of two texts of equal length, the smaller stays smaller whatever follows each.
pub proof fn lemma_text_less_extend(a1: Seq<char>, a2: Seq<char>, r1: Seq<char>, r2: Seq<char>)
    requires
        a1.len() == a2.len(),
        text_less(a1, a2),
    ensures
        text_less(a1 + r1, a2 + r2),
    decreases a1.len(),
{
    if a1.len() > 0 {
        assert((a1 + r1)[0] == a1[0] && (a2 + r2)[0] == a2[0]);
        if a1[0] == a2[0] {
            lemma_text_less_extend(a1.drop_first(), a2.drop_first(), r1, r2);
            assert((a1 + r1).drop_first() =~= a1.drop_first() + r1);
            assert((a2 + r2).drop_first() =~= a2.drop_first() + r2);
        }
    }
}

/// The last `k` digits keep the order of numbers below 10^k.
pub proof fn lemma_fixed_digits_less(n: nat, m: nat, k: nat)
    requires
        n < m < pow10(k),
    ensures
        text_less(fixed_digits(n, k), fixed_digits(m, k)),
    decreases k,
{
    if k == 0 {
        assert(pow10(0) == 1);
    } else {
        assert(pow10(k) == 10 * pow10((k - 1) as nat));
        let k1 = (k - 1) as nat;
        lemma_fixed_digits_len(n / 10, k1);
        lemma_fixed_digits_len(m / 10, k1);
        let dn = seq![digit_char(n % 10)];
        let dm = seq![digit_char(m % 10)];
        assert(fixed_digits(n, k) =~= fixed_digits(n / 10, k1) + dn);
        assert(fixed_digits(m, k) =~= fixed_digits(m / 10, k1) + dm);
        if n / 10 < m / 10 {
            lemma_fixed_digits_less(n / 10, m / 10, k1);
            lemma_text_less_extend(fixed_digits(n / 10, k1), fixed_digits(m / 10, k1), dn, dm);
        } else {
            assert(n / 10 == m / 10);
            assert(n % 10 < m % 10);
            lemma_digit_char_order(n % 10, m % 10);
            assert(text_less(dn, dm)) by {
                assert(dn[0] != dm[0]);
            }
            lemma_text_less_prefix(fixed_digits(n / 10, k1), dn, dm);
        }
    }
}

/// The character of the decimal digit `d`.
pub fn digit(d: u64) -> (c: char)
    requires
        d < 10,
    ensures
        c == digit_char(d as nat),
{
    if d == 0 {
        '0'
    } else if d == 1 {
        '1'
    } else if d == 2 {
        '2'
    } else if d == 3 {
        '3'
    } else if d == 4 {
        '4'
    } else if d == 5 {
        '5'
    } else if d == 6 {
        '6'
    } else if d == 7 {
        '7'
    } else if d == 8 {
        '8'
    } else {
        '9'
    }
}

/// Appends the decimal notation of `n` to `out`.
pub fn append_decimal(out: &mut String, n: u64)
    ensures
        final(out)@ == old(out)@ + decimal(n as nat),
    decreases n,
{
    if n >= 10 {
        append_decimal(out, n / 10);
    }
    push_char(out, digit(n % 10));
    assert(out@ =~= old(out)@ + decimal(n as nat));
}

/// Appends the decimal notation of `n`, zero-padded to `width` characters.
pub fn append_padded(out: &mut String, n: u64, width: u64)
    ensures
        final(out)@ == old(out)@ + zero_padded(decimal(n as nat), width as nat),
{
    let mut digits = String::new();
    append_decimal(&mut digits, n);
    assert(digits@ =~= decimal(n as nat));
    let len = digits.as_str().unicode_len();
    let mut w: u64 = width;
    let ghost mut zeros: Seq<char> = Seq::empty();
    // Count the zeros needed, from the full width down to the length of the digits.
    while (len as u64) < w && w > 0
        invariant
            len == decimal(n as nat).len(),
            w <= width,
            zeros + zero_padded(decimal(n as nat), w as nat) == zero_padded(
                decimal(n as nat),
                width as nat,
            ),
            out@ == old(out)@ + zeros,
        decreases w,
    {
        push_char(out, '0');
        proof {
            assert(zero_padded(decimal(n as nat), w as nat) == seq!['0'] + zero_padded(
                decimal(n as nat),
                (w - 1) as nat,
            ));
            assert(zeros + zero_padded(decimal(n as nat), w as nat) =~= zeros.push('0')
                + zero_padded(decimal(n as nat), (w - 1) as nat));
            zeros = zeros.push('0');
        }
        w = w - 1;
    }
    proof {
        if w > 0 {
            assert((len as u64) >= w);
        }
        assert(zero_padded(decimal(n as nat), w as nat) == decimal(n as nat)) by {
            lemma_decimal_len_pos(n as nat);
        }
    }
    out.append(digits.as_str());
    assert(out@ =~= old(out)@ + zero_padded(decimal(n as nat), width as nat));
}

/// The decimal notation of `n`.
pub fn decimal_text(n: u64) -> (s: String)
    ensures
        s@ == decimal(n as nat),
{
    let mut s = String::new();
    append_decimal(&mut s, n);
    assert(s@ =~= decimal(n as nat));
    s
}

/// The decimal notation of a signed number, as Rust prints an `i64`.
pub fn signed_text(i: i64) -> (s: String)
    ensures
        s@ == signed_decimal(i as int),
{
    let mut s = String::new();
    if i < 0 {
        push_char(&mut s, '-');
        let m: u64 = if i == i64::MIN {
            9223372036854775808u64
        } else {
            (-i) as u64
        };
        append_decimal(&mut s, m);
        assert(s@ =~= seq!['-'] + decimal((-i) as nat));
    } else {
        append_decimal(&mut s, i as u64);
        assert(s@ =~= decimal(i as nat));
    }
    s
}

/// `pat` occurs in `s` starting at position `i`.
pub open spec fn occurs_at(s: Seq<char>, pat: Seq<char>, i: int) -> bool {
    &&& 0 <= i
    &&& i + pat.len() <= s.len()
    &&& s.subrange(i, i + pat.len()) == pat
}

/// `pat` occurs somewhere in `s` (the empty pattern occurs in every string).
pub open spec fn contains_text(s: Seq<char>, pat: Seq<char>) -> bool {
    exists|i: int| occurs_at(s, pat, i)
}

/// Whether `pat` occurs in `s`, as `str::contains` answers it.
pub fn contains(s: &str, pat: &str) -> (r: bool)
    ensures
        r == contains_text(s@, pat@),
{
    let sv = chars_of(s);
    let pv = chars_of(pat);
    let n = sv.len();
    let m = pv.len();
    if m > n {
        assert forall|i: int| !occurs_at(s@, pat@, i) by {}
        return false;
    }
    let mut i: usize = 0;
    while i <= n - m
        invariant
            sv@ == s@,
            pv@ == pat@,
            n == sv@.len(),
            m == pv@.len(),
            m <= n,
            i <= n - m + 1,
            forall|k: int| 0 <= k < i ==> !occurs_at(s@, pat@, k),
        decreases n - m + 1 - i,
    {
        let mut j: usize = 0;
        let mut same = true;
        while j < m
            invariant
                sv@ == s@,
                pv@ == pat@,
                n == sv@.len(),
                m == pv@.len(),
                i + m <= n,
                j <= m,
                same == (forall|k: int| 0 <= k < j ==> sv@[i + k] == pv@[k]),
            decreases m - j,
        {
            if sv[i + j] != pv[j] {
                same = false;
            }
            j = j + 1;
        }
        if same {
            assert(s@.subrange(i as int, i + m) =~= pat@);
            assert(occurs_at(s@, pat@, i as int));
            return true;
        }
        assert(!occurs_at(s@, pat@, i as int)) by {
            if occurs_at(s@, pat@, i as int) {
                let k = choose|k: int| 0 <= k < m && sv@[i + k] != pv@[k];
                assert(s@.subrange(i as int, i + m)[k] == sv@[i + k]);
            }
        }
        i = i + 1;
    }
    assert forall|k: int| !occurs_at(s@, pat@, k) by {
        if occurs_at(s@, pat@, k) {
            assert(k < i);
        }
    }
    false
}

/// `parts` joined with `sep` between each two neighbours.
pub open spec fn joined(parts: Seq<Seq<char>>, sep: Seq<char>) -> Seq<char>
    decreases parts.len(),
{
    if parts.len() == 0 {
        Seq::empty()
    } else if parts.len() == 1 {
        parts[0]
    } else {
        joined(parts.drop_last(), sep) + sep + parts.last()
    }
}

/// Joins the strings with `sep`, as `[&str]::join` does.
pub fn join(parts: &Vec<String>, sep: &str) -> (s: String)
    ensures
        s@ == joined(parts.deep_view(), sep@),
{
    let mut s = String::new();
    let mut i: usize = 0;
    while i < parts.len()
        invariant
            i <= parts@.len(),
            s@ == joined(parts.deep_view().take(i as int), sep@),
        decreases parts@.len() - i,
    {
        assert(parts.deep_view().take(i + 1).drop_last() =~= parts.deep_view().take(i as int));
        if i > 0 {
            s.append(sep);
        }
        s.append(parts[i].as_str());
        proof {
            let t = parts.deep_view().take(i + 1);
            assert(t.last() == parts[i as int]@);
            if i == 0 {
                assert(t.len() == 1);
                assert(s@ =~= joined(t, sep@));
            }
        }
        i = i + 1;
    }
    assert(parts.deep_view().take(parts@.len() as int) =~= parts.deep_view());
    s
}

/// The characters with the Unicode `White_Space` property, which `char::is_whitespace` tests.
pub open spec fn is_white_space(c: char) -> bool {
    let u = c as u32;
    ||| 0x09 <= u <= 0x0d
    ||| u == 0x20
    ||| u == 0x85
    ||| u == 0xa0
    ||| u == 0x1680
    ||| 0x2000 <= u <= 0x200a
    ||| u == 0x2028
    ||| u == 0x2029
    ||| u == 0x202f
    ||| u == 0x205f
    ||| u == 0x3000
}

/// Whether `c` is white space (see `is_white_space`).
pub fn is_white_space_char(c: char) -> (r: bool)
    ensures
        r == is_white_space(c),
{
    let u = c as u32;
    (0x09 <= u && u <= 0x0d) || u == 0x20 || u == 0x85 || u == 0xa0 || u == 0x1680 || (0x2000 <= u
        && u <= 0x200a) || u == 0x2028 || u == 0x2029 || u == 0x202f || u == 0x205f || u == 0x3000
}

/// `s` without the white space at its start and its end, as `str::trim` gives it:
/// the part from the first to the last character that is not white space.
pub open spec fn trimmed(s: Seq<char>) -> Seq<char> {
    if forall|i: int| 0 <= i < s.len() ==> is_white_space(#[trigger] s[i]) {
        Seq::empty()
    } else {
        let a = choose|a: int|
            0 <= a < s.len() && !is_white_space(s[a]) && forall|k: int|
                0 <= k < a ==> is_white_space(#[trigger] s[k]);
        let b = choose|b: int|
            0 <= b < s.len() && !is_white_space(s[b]) && forall|k: int|
                b < k < s.len() ==> is_white_space(#[trigger] s[k]);
        s.subrange(a, b + 1)
    }
}

/// `s` without leading and trailing white space.
pub fn trim(s: &str) -> (t: String)
    ensures
        t@ == trimmed(s@),
{
    let v = chars_of(s);
    let n = v.len();
    let mut a: usize = 0;
    while a < n && is_white_space_char(v[a])
        invariant
            v@ == s@,
            n == v@.len(),
            a <= n,
            forall|k: int| 0 <= k < a ==> is_white_space(#[trigger] s@[k]),
        decreases n - a,
    {
        a = a + 1;
    }
    if a == n {
        return String::new();
    }
    let mut b: usize = n - 1;
    while is_white_space_char(v[b])
        invariant
            v@ == s@,
            n == v@.len(),
            a <= b < n,
            !is_white_space(s@[a as int]),
            forall|k: int| b < k < n ==> is_white_space(#[trigger] s@[k]),
        decreases b,
    {
        b = b - 1;
    }
    proof {
        let sa = choose|x: int|
            0 <= x < s@.len() && !is_white_space(s@[x]) && forall|k: int|
                0 <= k < x ==> is_white_space(#[trigger] s@[k]);
        assert(!(forall|i: int| 0 <= i < s@.len() ==> is_white_space(#[trigger] s@[i])));
        let sb = choose|y: int|
            0 <= y < s@.len() && !is_white_space(s@[y]) && forall|k: int|
                y < k < s@.len() ==> is_white_space(#[trigger] s@[k]);
        assert(sa == a as int) by {
            if sa < a {
                assert(is_white_space(s@[sa]));
            }
            if sa > a {
                assert(is_white_space(s@[a as int]));
            }
        }
        assert(sb == b as int) by {
            if sb < b {
                assert(is_white_space(s@[b as int]));
            }
            if sb > b {
                assert(is_white_space(s@[sb]));
            }
        }
    }
    string_of(&v, a, b + 1)
}

/// `part` appended to the Unix path `base`, as `Path::join` does it: an absolute
/// `part` replaces `base`; otherwise a `/` goes between them unless `base` is
/// empty or already ends with one.
pub open spec fn path_joined(base: Seq<char>, part: Seq<char>) -> Seq<char> {
    if part.len() > 0 && part[0] == '/' {
        part
    } else if base.len() == 0 || base.last() == '/' {
        base + part
    } else {
        base + seq!['/'] + part
    }
}

/// Joins `part` onto the path `base`.
pub fn path_join(base: &str, part: &str) -> (p: String)
    ensures
        p@ == path_joined(base@, part@),
{
    let bv = chars_of(base);
    let pv = chars_of(part);
    if pv.len() > 0 && pv[0] == '/' {
        return string_of(&pv, 0, pv.len());
    }
    let mut p = string_of(&bv, 0, bv.len());
    assert(bv@.subrange(0, bv@.len() as int) =~= bv@);
    assert(pv@.subrange(0, pv@.len() as int) =~= pv@);
    if bv.len() > 0 && bv[bv.len() - 1] != '/' {
        push_char(&mut p, '/');
    }
    p.append(part);
    p
}

/// `a` comes before `b` in the order of `String`: the first differing code point
/// decides, and a proper prefix comes first.
pub open spec fn text_less(a: Seq<char>, b: Seq<char>) -> bool
    decreases a.len(),
{
    if a.len() == 0 {
        b.len() > 0
    } else if b.len() == 0 {
        false
    } else if a[0] != b[0] {
        (a[0] as int) < (b[0] as int)
    } else {
        text_less(a.drop_first(), b.drop_first())
    }
}

/// `text_less` is irreflexive and asymmetric.
pub proof fn lemma_text_less_asymmetric(a: Seq<char>, b: Seq<char>)
    ensures
        !(text_less(a, b) && text_less(b, a)),
        !text_less(a, a),
    decreases a.len(),
{
    if a.len() > 0 && b.len() > 0 && a[0] == b[0] {
        lemma_text_less_asymmetric(a.drop_first(), b.drop_first());
    }
    if a.len() > 0 {
        lemma_text_less_asymmetric(a.drop_first(), a.drop_first());
    }
}

/// `text_less` is transitive.
pub proof fn lemma_text_less_transitive(a: Seq<char>, b: Seq<char>, c: Seq<char>)
    requires
        text_less(a, b),
        text_less(b, c),
    ensures
        text_less(a, c),
    decreases a.len(),
{
    if a.len() > 0 && b.len() > 0 && c.len() > 0 && a[0] == b[0] && b[0] == c[0] {
        lemma_text_less_transitive(a.drop_first(), b.drop_first(), c.drop_first());
    }
}

/// Law: the order of texts is total: two different texts are ordered one way
/// or the other.
pub proof fn lemma_text_less_total(a: Seq<char>, b: Seq<char>)
    ensures
        a == b || text_less(a, b) || text_less(b, a),
    decreases a.len(),
{
    if a.len() > 0 && b.len() > 0 {
        if a[0] == b[0] {
            lemma_text_less_total(a.drop_first(), b.drop_first());
            if a.drop_first() == b.drop_first() {
                assert(a =~= seq![a[0]] + a.drop_first());
                assert(b =~= seq![b[0]] + b.drop_first());
            }
        } else {
            assert((a[0] as int) != (b[0] as int));
        }
    } else if a.len() == 0 && b.len() == 0 {
        assert(a =~= b);
    }
}

/// Whether `a` sorts before `b`.
pub fn less_than(a: &str, b: &str) -> (r: bool)
    ensures
        r == text_less(a@, b@),
{
    let av = chars_of(a);
    let bv = chars_of(b);
    let mut i: usize = 0;
    assert(a@.skip(0) =~= a@ && b@.skip(0) =~= b@);
    while i < av.len() && i < bv.len() && av[i] == bv[i]
        invariant
            av@ == a@,
            bv@ == b@,
            i <= av@.len(),
            i <= bv@.len(),
            text_less(a@, b@) == text_less(a@.skip(i as int), b@.skip(i as int)),
        decreases av@.len() - i,
    {
        assert(a@.skip(i as int).drop_first() =~= a@.skip(i + 1));
        assert(b@.skip(i as int).drop_first() =~= b@.skip(i + 1));
        i = i + 1;
    }
    let sa = Ghost(a@.skip(i as int));
    let sb = Ghost(b@.skip(i as int));
    if i == av.len() {
        assert(sa@.len() == 0);
        i < bv.len()
    } else if i == bv.len() {
        assert(sb@.len() == 0);
        false
    } else {
        assert(sa@[0] == av@[i as int] && sb@[0] == bv@[i as int]);
        let ca: char = av[i];
        let cb: char = bv[i];
        ca < cb
    }
}

} // verus!
