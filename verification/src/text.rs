//! Character-level text helpers: decimal rendering, zero padding, prefix
//! tests and field extraction.

use vstd::prelude::*;

verus! {

/// The character of a decimal digit.
pub open spec fn digit_char(d: nat) -> char {
    (48 + d) as char
}

/// The decimal rendering of `n`, without sign or leading zeros.
pub open spec fn decimal(n: nat) -> Seq<char>
    decreases n,
{
    if n < 10 {
        seq![digit_char(n)]
    } else {
        decimal(n / 10).push(digit_char(n % 10))
    }
}

/// Appends one character to a string.
///
/// Trusted: `String::push` appends the character at the end of the string,
/// as its documentation states.
#[verifier::external_body]
pub fn push_char(s: &mut String, c: char)
    ensures
        final(s)@ == old(s)@.push(c),
{
    s.push(c);
}

fn digit(d: u8) -> (c: char)
    requires
        d < 10,
    ensures
        c == digit_char(d as nat),
{
    (48u8 + d) as char
}

/// Appends the decimal rendering of `n` to `s`.
pub fn push_decimal(s: &mut String, n: u128)
    ensures
        final(s)@ == old(s)@ + decimal(n as nat),
    decreases n,
{
    if n >= 10 {
        push_decimal(s, n / 10);
    }
    let d: u8 = (n % 10) as u8;
    push_char(s, digit(d));
}


/// `n` zeros followed by nothing: the padding of a field.
pub open spec fn zeros(n: nat) -> Seq<char> {
    Seq::new(n, |i: int| '0')
}

/// `digits` left-padded with zeros to at least `width` characters, as
/// `format!("{:0width$}")` renders a number.
pub open spec fn zero_padded(digits: Seq<char>, width: nat) -> Seq<char> {
    if digits.len() < width {
        zeros((width - digits.len()) as nat) + digits
    } else {
        digits
    }
}

/// Appends `n` in decimal, left-padded with zeros to at least `width`
/// characters.
pub fn push_padded_decimal(s: &mut String, n: u128, width: usize)
    ensures
        final(s)@ == old(s)@ + zero_padded(decimal(n as nat), width as nat),
{
    let mut digits = String::new();
    push_decimal(&mut digits, n);
    let len: usize = digits.as_str().unicode_len();
    let ghost start = s@;
    if len < width {
        let mut i: usize = 0;
        while i < width - len
            invariant
                i <= width - len,
                len < width,
                s@ == start + zeros(i as nat),
            decreases width - len - i,
        {
            push_char(s, '0');
            i = i + 1;
            assert(s@ =~= start + zeros(i as nat));
        }
    }
    s.append(digits.as_str());
    assert(s@ =~= start + zero_padded(decimal(n as nat), width as nat));
}

/// The characters of a string slice, in order.
pub fn chars_of(s: &str) -> (chars: Vec<char>)
    ensures
        chars@ == s@,
{
    let n: usize = s.unicode_len();
    let mut chars: Vec<char> = Vec::new();
    let mut i: usize = 0;
    while i < n
        invariant
            n == s@.len(),
            i <= n,
            chars@ == s@.subrange(0, i as int),
        decreases n - i,
    {
        chars.push(s.get_char(i));
        i = i + 1;
        assert(chars@ =~= s@.subrange(0, i as int));
    }
    assert(chars@ =~= s@);
    chars
}

/// Appends characters to a string.
pub fn push_chars(s: &mut String, chars: &[char])
    ensures
        final(s)@ == old(s)@ + chars@,
{
    let ghost start = s@;
    let mut i: usize = 0;
    while i < chars.len()
        invariant
            i <= chars@.len(),
            s@ == start + chars@.subrange(0, i as int),
        decreases chars@.len() - i,
    {
        push_char(s, chars[i]);
        i = i + 1;
        assert(s@ =~= start + chars@.subrange(0, i as int));
    }
    assert(chars@.subrange(0, chars@.len() as int) =~= chars@);
}

/// Appends the characters of `chars` from index `from` up to `to`.
pub fn push_range(s: &mut String, chars: &Vec<char>, from: usize, to: usize)
    requires
        from <= to <= chars@.len(),
    ensures
        final(s)@ == old(s)@ + chars@.subrange(from as int, to as int),
{
    let ghost start = s@;
    let mut i: usize = from;
    while i < to
        invariant
            from <= i <= to,
            to <= chars@.len(),
            s@ == start + chars@.subrange(from as int, i as int),
        decreases to - i,
    {
        push_char(s, chars[i]);
        i = i + 1;
        assert(s@ =~= start + chars@.subrange(from as int, i as int));
    }
}

/// Whether two texts are equal, character by character.
pub fn same_text(a: &str, b: &str) -> (same: bool)
    ensures
        same == (a@ == b@),
{
    let x = chars_of(a);
    let y = chars_of(b);
    if x.len() != y.len() {
        return false;
    }
    let mut i: usize = 0;
    while i < x.len()
        invariant
            x@ == a@,
            y@ == b@,
            x@.len() == y@.len(),
            i <= x@.len(),
            forall|j: int| 0 <= j < i ==> x@[j] == y@[j],
        decreases x@.len() - i,
    {
        if x[i] != y[i] {
            return false;
        }
        i = i + 1;
    }
    assert(x@ =~= y@);
    true
}

/// Whether `prefix` is a prefix of `s`.
pub open spec fn has_prefix(s: Seq<char>, prefix: Seq<char>) -> bool {
    prefix.len() <= s.len() && s.subrange(0, prefix.len() as int) == prefix
}

/// Whether `s` starts with `prefix`, as `str::starts_with` answers.
pub fn starts_with(s: &str, prefix: &str) -> (yes: bool)
    ensures
        yes == has_prefix(s@, prefix@),
{
    let x = chars_of(s);
    let p = chars_of(prefix);
    if p.len() > x.len() {
        return false;
    }
    let mut i: usize = 0;
    while i < p.len()
        invariant
            x@ == s@,
            p@ == prefix@,
            p@.len() <= x@.len(),
            i <= p@.len(),
            forall|j: int| 0 <= j < i ==> x@[j] == p@[j],
        decreases p@.len() - i,
    {
        if x[i] != p[i] {
            assert(s@.subrange(0, prefix@.len() as int)[i as int] != prefix@[i as int]);
            return false;
        }
        i = i + 1;
    }
    assert(s@.subrange(0, prefix@.len() as int) =~= prefix@);
    true
}

/// The position of the first `c` in `s`, or the length of `s` where there is
/// none.
pub open spec fn first_pos(s: Seq<char>, c: char) -> nat
    decreases s.len(),
{
    if s.len() == 0 {
        0
    } else if s[0] == c {
        0
    } else {
        1 + first_pos(s.drop_first(), c)
    }
}

/// `first_pos` is the index `i` before which no `c` stands and at which `c`
/// or the end stands.
pub proof fn lemma_first_pos(s: Seq<char>, c: char, i: int)
    requires
        0 <= i <= s.len(),
        forall|j: int| 0 <= j < i ==> s[j] != c,
        i == s.len() || s[i] == c,
    ensures
        first_pos(s, c) == i,
    decreases s.len(),
{
    if s.len() > 0 && s[0] != c {
        assert forall|j: int| 0 <= j < i - 1 implies s.drop_first()[j] != c by {
            assert(s.drop_first()[j] == s[j + 1]);
        }
        if i < s.len() {
            assert(s.drop_first()[i - 1] == s[i]);
        }
        lemma_first_pos(s.drop_first(), c, i - 1);
    }
}

/// `first_pos` never passes the end, no `c` stands before it, and a `c`
/// stands at it unless it is the end.
pub proof fn lemma_first_pos_bounds(s: Seq<char>, c: char)
    ensures
        first_pos(s, c) <= s.len(),
        forall|j: int| 0 <= j < first_pos(s, c) ==> s[j] != c,
        first_pos(s, c) < s.len() ==> s[first_pos(s, c) as int] == c,
    decreases s.len(),
{
    if s.len() > 0 && s[0] != c {
        lemma_first_pos_bounds(s.drop_first(), c);
        assert forall|j: int| 0 <= j < first_pos(s, c) implies s[j] != c by {
            if j > 0 {
                assert(s[j] == s.drop_first()[j - 1]);
            }
        }
    }
}

/// Index of the first `c` in `chars`, or its length where there is none.
pub fn find_char(chars: &Vec<char>, c: char) -> (pos: usize)
    ensures
        pos == first_pos(chars@, c),
{
    let mut i: usize = 0;
    while i < chars.len()
        invariant
            i <= chars@.len(),
            forall|j: int| 0 <= j < i ==> chars@[j] != c,
        decreases chars@.len() - i,
    {
        if chars[i] == c {
            proof {
                lemma_first_pos(chars@, c, i as int);
            }
            return i;
        }
        i = i + 1;
    }
    proof {
        lemma_first_pos(chars@, c, i as int);
    }
    i
}

/// The second field of `s` split at `-`, as `s.split('-').nth(1)` gives it:
/// the text between the first `-` and the next `-` or the end; none where
/// `s` holds no `-`.
pub open spec fn second_field(s: Seq<char>) -> Option<Seq<char>> {
    let p: nat = first_pos(s, '-');
    if p >= s.len() {
        None
    } else {
        let rest = s.subrange(p as int + 1, s.len() as int);
        Some(rest.subrange(0, first_pos(rest, '-') as int))
    }
}

/// The second field of `s` split at `-`, or none where `s` holds no `-`.
pub fn second_dash_field(s: &str) -> (field: Option<Vec<char>>)
    ensures
        match field {
            Some(f) => second_field(s@) == Some(f@),
            None => second_field(s@) is None,
        },
{
    let chars = chars_of(s);
    let p: usize = find_char(&chars, '-');
    proof {
        lemma_first_pos_bounds(s@, '-');
    }
    if p >= chars.len() {
        return None;
    }
    let mut rest: Vec<char> = Vec::new();
    let mut i: usize = p + 1;
    while i < chars.len()
        invariant
            chars@ == s@,
            p < chars@.len(),
            p + 1 <= i <= chars@.len(),
            rest@ == s@.subrange(p + 1, i as int),
        decreases chars@.len() - i,
    {
        rest.push(chars[i]);
        i = i + 1;
        assert(rest@ =~= s@.subrange(p + 1, i as int));
    }
    let q: usize = find_char(&rest, '-');
    proof {
        lemma_first_pos_bounds(rest@, '-');
    }
    let mut field: Vec<char> = Vec::new();
    let mut k: usize = 0;
    while k < q
        invariant
            q <= rest@.len(),
            k <= q,
            field@ == rest@.subrange(0, k as int),
        decreases q - k,
    {
        field.push(rest[k]);
        k = k + 1;
        assert(field@ =~= rest@.subrange(0, k as int));
    }
    Some(field)
}


/// Whether `c` occurs nowhere in `s`.
pub open spec fn free_of(s: Seq<char>, c: char) -> bool {
    forall|i: int| 0 <= i < s.len() ==> s[i] != c
}

/// Whether every character of `s` is a decimal digit.
pub open spec fn all_digits(s: Seq<char>) -> bool {
    forall|i: int| 0 <= i < s.len() ==> '0' <= #[trigger] s[i] <= '9'
}

/// The field after the first `-` of `head` + `-` + `tail`, where neither
/// part holds a `-`, is `tail`.
pub proof fn lemma_second_field_of_joined(head: Seq<char>, tail: Seq<char>)
    requires
        free_of(head, '-'),
        free_of(tail, '-'),
    ensures
        second_field(head + seq!['-'] + tail) == Some(tail),
{
    let s = head + seq!['-'] + tail;
    assert forall|j: int| 0 <= j < head.len() implies s[j] != '-' by {
        assert(s[j] == head[j]);
    }
    assert(s[head.len() as int] == '-');
    lemma_first_pos(s, '-', head.len() as int);
    let rest = s.subrange(head.len() as int + 1, s.len() as int);
    assert(rest =~= tail);
    lemma_first_pos(tail, '-', tail.len() as int);
    assert(tail.subrange(0, tail.len() as int) =~= tail);
}

/// A field cut out at `-` holds no `-`.
pub proof fn lemma_second_field_free(s: Seq<char>)
    ensures
        second_field(s) matches Some(f) ==> free_of(f, '-'),
{
    lemma_first_pos_bounds(s, '-');
    let p: nat = first_pos(s, '-');
    if p < s.len() {
        let rest = s.subrange(p as int + 1, s.len() as int);
        lemma_first_pos_bounds(rest, '-');
        let f = rest.subrange(0, first_pos(rest, '-') as int);
        assert forall|i: int| 0 <= i < f.len() implies f[i] != '-' by {
            assert(f[i] == rest[i]);
        }
    }
}

/// Every character of a decimal rendering is a digit.
pub proof fn lemma_decimal_digits(n: nat)
    ensures
        all_digits(decimal(n)),
        decimal(n).len() >= 1,
    decreases n,
{
    if n >= 10 {
        lemma_decimal_digits(n / 10);
    }
}

/// Every character of a zero-padded decimal rendering is a digit.
pub proof fn lemma_padded_digits(n: nat, width: nat)
    ensures
        all_digits(zero_padded(decimal(n), width)),
{
    lemma_decimal_digits(n);
    let d = decimal(n);
    if d.len() < width {
        let p = zero_padded(d, width);
        let z = zeros((width - d.len()) as nat);
        assert forall|i: int| 0 <= i < p.len() implies '0' <= #[trigger] p[i] <= '9' by {
            if i < z.len() {
                assert(p[i] == z[i]);
            } else {
                assert(p[i] == d[i - z.len()]);
            }
        }
    }
}

/// Digits hold no `-`.
pub proof fn lemma_digits_free_of_dash(s: Seq<char>)
    requires
        all_digits(s),
    ensures
        free_of(s, '-'),
{
    assert forall|i: int| 0 <= i < s.len() implies s[i] != '-' by {
        assert('0' <= s[i] <= '9');
    }
}

/// The number a string of decimal digits stands for.
pub open spec fn digits_value(s: Seq<char>) -> nat
    decreases s.len(),
{
    if s.len() == 0 {
        0
    } else {
        digits_value(s.drop_last()) * 10 + ((s.last() as int - 48) as nat)
    }
}

/// A decimal rendering stands for the number rendered.
pub proof fn lemma_decimal_value(n: nat)
    ensures
        digits_value(decimal(n)) == n,
    decreases n,
{
    let d: nat = n % 10;
    assert(digit_char(d) as int == 48 + d);
    if n >= 10 {
        lemma_decimal_value(n / 10);
        assert(decimal(n).drop_last() =~= decimal(n / 10));
        assert(decimal(n).last() == digit_char(d));
        assert((n / 10) * 10 + d == n);
        assert(digits_value(decimal(n)) == digits_value(decimal(n).drop_last()) * 10 + ((
        decimal(n).last() as int - 48) as nat));
    } else {
        assert(decimal(n).drop_last() =~= Seq::<char>::empty());
        assert(decimal(n).last() == digit_char(n));
        assert(digits_value(Seq::<char>::empty()) == 0);
        assert(digits_value(decimal(n)) == digits_value(decimal(n).drop_last()) * 10 + ((
        decimal(n).last() as int - 48) as nat));
        assert(digit_char(n) as int == 48 + n);
    }
}

/// Leading zeros do not change the number digits stand for.
pub proof fn lemma_leading_zeros_value(k: nat, s: Seq<char>)
    ensures
        digits_value(zeros(k) + s) == digits_value(s),
    decreases s.len(), k,
{
    if s.len() == 0 {
        assert(zeros(k) + s =~= zeros(k));
        if k > 0 {
            assert(zeros(k).drop_last() =~= zeros((k - 1) as nat));
            lemma_leading_zeros_value((k - 1) as nat, s);
            assert(zeros((k - 1) as nat) + s =~= zeros((k - 1) as nat));
        }
    } else {
        assert((zeros(k) + s).drop_last() =~= zeros(k) + s.drop_last());
        lemma_leading_zeros_value(k, s.drop_last());
    }
}

/// Distinct numbers have distinct zero-padded decimal renderings.
pub proof fn lemma_padded_decimal_injective(a: nat, b: nat, width: nat)
    requires
        zero_padded(decimal(a), width) == zero_padded(decimal(b), width),
    ensures
        a == b,
{
    lemma_decimal_value(a);
    lemma_decimal_value(b);
    let da = decimal(a);
    let db = decimal(b);
    if da.len() < width {
        lemma_leading_zeros_value((width - da.len()) as nat, da);
    }
    if db.len() < width {
        lemma_leading_zeros_value((width - db.len()) as nat, db);
    }
}

} // verus!
