//! Character-level string helpers shared by the rest of the library:
//! equality and prefix tests on `&str`, decimal rendering of integers,
//! Unicode whitespace trimming and single-line normalisation of prompts.
use vstd::prelude::*;

verus! {

/// `std::string::String::push`: appends one character.
#[verifier::external_body]
pub(crate) fn push_char(s: &mut String, c: char)
    ensures
        final(s)@ == old(s)@.push(c),
{
    s.push(c);
}

/// Whether `a` and `b` hold the same characters.
pub fn str_equals(a: &str, b: &str) -> (r: bool)
    ensures
        r == (a@ == b@),
{
    let n = a.unicode_len();
    let m = b.unicode_len();
    if n != m {
        return false;
    }
    let mut i: usize = 0;
    while i < n
        invariant
            n == a@.len(),
            m == b@.len(),
            n == m,
            i <= n,
            forall|j: int| 0 <= j < i ==> a@[j] == b@[j],
        decreases n - i,
    {
        if a.get_char(i) != b.get_char(i) {
            return false;
        }
        i = i + 1;
    }
    assert(a@ =~= b@);
    true
}

/// `p` is a prefix of `s`.
pub open spec fn is_prefix(p: Seq<char>, s: Seq<char>) -> bool {
    p.len() <= s.len() && s.subrange(0, p.len() as int) == p
}

/// Whether `s` begins with `prefix`.
pub fn starts_with(s: &str, prefix: &str) -> (r: bool)
    ensures
        r == is_prefix(prefix@, s@),
{
    let n = s.unicode_len();
    let m = prefix.unicode_len();
    if m > n {
        return false;
    }
    let mut i: usize = 0;
    while i < m
        invariant
            n == s@.len(),
            m == prefix@.len(),
            m <= n,
            i <= m,
            forall|j: int| 0 <= j < i ==> s@[j] == prefix@[j],
        decreases m - i,
    {
        if s.get_char(i) != prefix.get_char(i) {
            assert(s@.subrange(0, m as int)[i as int] != prefix@[i as int]);
            return false;
        }
        i = i + 1;
    }
    assert(s@.subrange(0, m as int) =~= prefix@);
    true
}

/// The character of a decimal digit `d < 10`.
pub open spec fn digit_char(d: nat) -> char {
    (48 + d) as char
}

/// The decimal rendering of `n`, without sign or leading zeros
/// (what `to_string` gives for an unsigned integer).
pub open spec fn decimal(n: nat) -> Seq<char>
    decreases n,
{
    if n < 10 {
        seq![digit_char(n)]
    } else {
        decimal(n / 10).push(digit_char(n % 10))
    }
}

proof fn lemma_decimal_nonempty(n: nat)
    ensures
        decimal(n).len() >= 1,
    decreases n,
{
    if n >= 10 {
        lemma_decimal_nonempty(n / 10);
    }
}

/// The decimal rendering of `n` (`n.to_string()`).
pub fn decimal_string(n: u64) -> (r: String)
    ensures
        r@ == decimal(n as nat),
{
    // digits of n, least significant first
    let mut digits: Vec<char> = Vec::new();
    let mut rest: u64 = n;
    loop
        invariant_except_break
            rest <= n,
            decimal(n as nat) == decimal(rest as nat) + digits@.reverse(),
        ensures
            decimal(n as nat) == digits@.reverse(),
        decreases rest,
    {
        let d: u64 = rest % 10;
        let c: char = ((48u8 + (d as u8)) as char);
        assert(c == digit_char(d as nat));
        let ghost old_digits = digits@;
        digits.push(c);
        assert(digits@.reverse() =~= seq![c] + old_digits.reverse());
        if rest < 10 {
            assert(decimal(rest as nat) == seq![c]);
            assert(decimal(n as nat) =~= digits@.reverse());
            break ;
        } else {
            let next: u64 = rest / 10;
            assert(decimal(rest as nat) == decimal(next as nat).push(c));
            assert(decimal(next as nat).push(c) + old_digits.reverse() =~= decimal(next as nat)
                + digits@.reverse());
            rest = next;
        }
    }
    let mut out = String::new();
    let len = digits.len();
    let mut k: usize = len;
    while k > 0
        invariant
            k <= len,
            len == digits@.len(),
            out@ =~= digits@.reverse().subrange(0, (len - k) as int),
        decreases k,
    {
        k = k - 1;
        let c = digits[k];
        push_char(&mut out, c);
        assert(digits@.reverse()[(len - k - 1) as int] == digits@[k as int]);
        assert(out@ =~= digits@.reverse().subrange(0, (len - k) as int));
    }
    assert(out@ =~= digits@.reverse());
    out
}

/// A whitespace character in the sense of `char::is_whitespace`
/// (the Unicode `White_Space` property), which `str::trim` removes.
pub open spec fn is_whitespace(c: char) -> bool {
    let u = c as u32;
    (9 <= u <= 13) || u == 32 || u == 0x85 || u == 0xA0 || u == 0x1680 || (0x2000 <= u <= 0x200A)
        || u == 0x2028 || u == 0x2029 || u == 0x202F || u == 0x205F || u == 0x3000
}

/// Whether `c` is whitespace (`char::is_whitespace`).
pub fn char_is_whitespace(c: char) -> (r: bool)
    ensures
        r == is_whitespace(c),
{
    let u = c as u32;
    (9 <= u && u <= 13) || u == 32 || u == 0x85 || u == 0xA0 || u == 0x1680 || (0x2000 <= u && u
        <= 0x200A) || u == 0x2028 || u == 0x2029 || u == 0x202F || u == 0x205F || u == 0x3000
}

/// `s` without its leading whitespace.
pub open spec fn trim_start(s: Seq<char>) -> Seq<char>
    decreases s.len(),
{
    if s.len() > 0 && is_whitespace(s[0]) {
        trim_start(s.drop_first())
    } else {
        s
    }
}

/// `s` without its trailing whitespace.
pub open spec fn trim_end(s: Seq<char>) -> Seq<char>
    decreases s.len(),
{
    if s.len() > 0 && is_whitespace(s.last()) {
        trim_end(s.drop_last())
    } else {
        s
    }
}

/// `s` without leading and trailing whitespace (`str::trim`).
pub open spec fn trim(s: Seq<char>) -> Seq<char> {
    trim_end(trim_start(s))
}

/// A line break becomes a space; every other character stays.
pub open spec fn flatten_char(c: char) -> char {
    if c == '\n' || c == '\r' {
        ' '
    } else {
        c
    }
}

/// What a free-text field becomes before it is stored: trimmed, with each
/// `'\n'` and each `'\r'` replaced by a space.
pub open spec fn single_line(s: Seq<char>) -> Seq<char> {
    trim(s).map_values(|c: char| flatten_char(c))
}

proof fn lemma_trim_start_skip(s: Seq<char>, i: int)
    requires
        0 <= i <= s.len(),
        forall|j: int| 0 <= j < i ==> is_whitespace(#[trigger] s[j]),
    ensures
        trim_start(s) == trim_start(s.subrange(i, s.len() as int)),
    decreases i,
{
    if i > 0 {
        assert(s.drop_first() =~= s.subrange(1, s.len() as int));
        lemma_trim_start_skip(s.drop_first(), i - 1);
        assert(s.drop_first().subrange(i - 1, s.drop_first().len() as int) =~= s.subrange(
            i,
            s.len() as int,
        ));
    } else {
        assert(s.subrange(0, s.len() as int) =~= s);
    }
}

proof fn lemma_trim_end_skip(s: Seq<char>, e: int)
    requires
        0 <= e <= s.len(),
        forall|j: int| e <= j < s.len() ==> is_whitespace(#[trigger] s[j]),
    ensures
        trim_end(s) == trim_end(s.subrange(0, e)),
    decreases s.len() - e,
{
    if e < s.len() {
        assert(s.drop_last() =~= s.subrange(0, s.len() - 1));
        lemma_trim_end_skip(s.drop_last(), e);
        assert(s.drop_last().subrange(0, e) =~= s.subrange(0, e));
    } else {
        assert(s.subrange(0, e) =~= s);
    }
}

/// `s` trimmed and with line breaks turned into spaces (the
/// `trim().replace("\n", " ").replace("\r", " ")` of a prompt).
pub fn single_line_string(s: &str) -> (r: String)
    ensures
        r@ == single_line(s@),
{
    let n = s.unicode_len();
    let mut start: usize = 0;
    while start < n && char_is_whitespace(s.get_char(start))
        invariant
            n == s@.len(),
            start <= n,
            forall|j: int| 0 <= j < start ==> is_whitespace(#[trigger] s@[j]),
        decreases n - start,
    {
        start = start + 1;
    }
    let ghost rest = s@.subrange(start as int, n as int);
    proof {
        lemma_trim_start_skip(s@, start as int);
        if start < n {
            assert(rest[0] == s@[start as int]);
        }
        assert(trim_start(s@) == rest);
    }
    let mut end: usize = n;
    while end > start && char_is_whitespace(s.get_char(end - 1))
        invariant
            n == s@.len(),
            start <= end <= n,
            rest == s@.subrange(start as int, n as int),
            forall|j: int| end <= j < n ==> is_whitespace(#[trigger] s@[j]),
        decreases end - start,
    {
        end = end - 1;
    }
    let ghost kept = s@.subrange(start as int, end as int);
    proof {
        assert forall|j: int| (end - start) <= j < rest.len() implies is_whitespace(
            #[trigger] rest[j],
        ) by {
            assert(rest[j] == s@[start + j]);
        }
        lemma_trim_end_skip(rest, (end - start) as int);
        assert(rest.subrange(0, (end - start) as int) =~= kept);
        if end > start {
            assert(kept.last() == s@[end - 1]);
        }
        assert(trim_end(kept) == kept);
        assert(trim(s@) == kept);
    }
    let mut out = String::new();
    let mut i: usize = start;
    while i < end
        invariant
            n == s@.len(),
            start <= i <= end <= n,
            kept == s@.subrange(start as int, end as int),
            out@ =~= kept.subrange(0, (i - start) as int).map_values(|c: char| flatten_char(c)),
        decreases end - i,
    {
        let c = s.get_char(i);
        let d = if c == '\n' || c == '\r' {
            ' '
        } else {
            c
        };
        push_char(&mut out, d);
        i = i + 1;
        assert(out@ =~= kept.subrange(0, (i - start) as int).map_values(
            |c: char| flatten_char(c),
        ));
    }
    assert(kept.subrange(0, (end - start) as int) =~= kept);
    out
}

/// The characters of `s` from index `from` up to (not including) `to`.
pub fn char_range(s: &str, from: usize, to: usize) -> (r: String)
    requires
        from <= to <= s@.len(),
    ensures
        r@ == s@.subrange(from as int, to as int),
{
    let mut out = String::new();
    let mut i: usize = from;
    while i < to
        invariant
            to <= s@.len(),
            from <= i <= to,
            out@ =~= s@.subrange(from as int, i as int),
        decreases to - i,
    {
        push_char(&mut out, s.get_char(i));
        i = i + 1;
        assert(out@ =~= s@.subrange(from as int, i as int));
    }
    out
}

/// The parts joined with `sep` between consecutive ones.
pub open spec fn join(parts: Seq<Seq<char>>, sep: Seq<char>) -> Seq<char>
    decreases parts.len(),
{
    if parts.len() == 0 {
        Seq::empty()
    } else if parts.len() == 1 {
        parts[0]
    } else {
        join(parts.drop_last(), sep) + sep + parts.last()
    }
}

/// The characters of each string.
pub open spec fn views(v: Seq<String>) -> Seq<Seq<char>> {
    v.map_values(|s: String| s@)
}

/// `out` followed by the parts joined with `sep`.
pub fn append_joined(out: &mut String, parts: &Vec<String>, sep: &str)
    ensures
        final(out)@ == old(out)@ + join(views(parts@), sep@),
{
    let ghost start = out@;
    let n = parts.len();
    let mut i: usize = 0;
    while i < n
        invariant
            n == parts@.len(),
            i <= n,
            out@ == start + join(views(parts@).take(i as int), sep@),
        decreases n - i,
    {
        let ghost before = out@;
        if i != 0 {
            out.append(sep);
        }
        out.append(parts[i].as_str());
        proof {
            let t = views(parts@).take(i + 1);
            assert(t.drop_last() =~= views(parts@).take(i as int));
            assert(t.last() == parts@[i as int]@);
            if i == 0 {
                assert(join(t, sep@) == t[0]);
                assert(views(parts@).take(0) =~= Seq::<Seq<char>>::empty());
            }
        }
        i = i + 1;
    }
    assert(views(parts@).take(n as int) =~= views(parts@));
}

} // verus!

verus! {

proof fn lemma_trim_start_shape(s: Seq<char>)
    ensures
        trim_start(s).len() > 0 ==> !is_whitespace(trim_start(s)[0]),
        trim_start(s).len() <= s.len(),
        trim_start(s) == s.subrange(s.len() - trim_start(s).len(), s.len() as int),
    decreases s.len(),
{
    if s.len() > 0 && is_whitespace(s[0]) {
        lemma_trim_start_shape(s.drop_first());
        assert(s.drop_first().subrange(
            s.drop_first().len() - trim_start(s).len(),
            s.drop_first().len() as int,
        ) =~= s.subrange(s.len() - trim_start(s).len(), s.len() as int));
    } else {
        assert(s.subrange(0, s.len() as int) =~= s);
    }
}

proof fn lemma_trim_end_shape(s: Seq<char>)
    ensures
        trim_end(s).len() > 0 ==> !is_whitespace(trim_end(s).last()),
        trim_end(s).len() <= s.len(),
        trim_end(s) == s.subrange(0, trim_end(s).len() as int),
    decreases s.len(),
{
    if s.len() > 0 && is_whitespace(s.last()) {
        lemma_trim_end_shape(s.drop_last());
        assert(s.drop_last().subrange(0, trim_end(s).len() as int) =~= s.subrange(
            0,
            trim_end(s).len() as int,
        ));
    } else {
        assert(s.subrange(0, s.len() as int) =~= s);
    }
}

/// Making text single-line twice gives what making it single-line once
/// gives: the result is trimmed and holds no line break.
pub proof fn lemma_single_line_idempotent(s: Seq<char>)
    ensures
        single_line(single_line(s)) == single_line(s),
{
    let a = trim_start(s);
    let t = trim(s);
    lemma_trim_start_shape(s);
    lemma_trim_end_shape(a);
    let m = t.map_values(|c: char| flatten_char(c));
    if t.len() > 0 {
        assert(t[0] == a[0]);
        assert(!is_whitespace(t[0]));
        assert(!is_whitespace(t.last()));
        assert(m[0] == t[0]);
        assert(m.last() == t.last());
    }
    assert(trim_start(m) == m);
    assert(trim_end(m) == m);
    assert(m.map_values(|c: char| flatten_char(c)) =~= m);
}

} // verus!
