//! Character-level helpers: decimal rendering, joining, prefix tests,
//! pattern removal and unsigned 16-bit parsing, each against a spec model.
use vstd::prelude::*;
use vstd::string::*;

verus! {

/// The character that writes the decimal digit `d` (`d < 10`).
pub open spec fn digit_char(d: nat) -> char {
    (d + 48) as char
}

/// The decimal writing of `n`, most significant digit first, no leading zero.
pub open spec fn decimal(n: nat) -> Seq<char>
    decreases n,
{
    if n < 10 {
        seq![digit_char(n)]
    } else {
        decimal(n / 10).push(digit_char(n % 10))
    }
}

/// `parts` separated by `sep`.
pub open spec fn join(parts: Seq<Seq<char>>, sep: Seq<char>) -> Seq<char>
    decreases parts.len(),
{
    if parts.len() == 0 {
        Seq::empty()
    } else if parts.len() == 1 {
        parts[0]
    } else {
        join(parts.drop_last(), sep) + sep + parts.last()
    }
}

/// The views of a sequence of strings.
pub open spec fn views_of(strings: Seq<String>) -> Seq<Seq<char>> {
    strings.map_values(|s: String| s@)
}

/// The decimal writings of a sequence of numbers.
pub open spec fn decimals_of(numbers: Seq<usize>) -> Seq<Seq<char>> {
    numbers.map_values(|n: usize| decimal(n as nat))
}

/// The pieces of `s` between the occurrences of `sep`, as `str::split`
/// gives them: there is always at least one piece, possibly empty.
pub open spec fn split_on(s: Seq<char>, sep: char) -> Seq<Seq<char>>
    decreases s.len(),
{
    if s.len() == 0 {
        seq![Seq::empty()]
    } else if s.last() == sep {
        split_on(s.drop_last(), sep).push(Seq::empty())
    } else {
        let pieces = split_on(s.drop_last(), sep);
        pieces.update(pieces.len() - 1, pieces.last().push(s.last()))
    }
}

/// `prefix` begins `s`.
pub open spec fn has_prefix(s: Seq<char>, prefix: Seq<char>) -> bool {
    prefix.len() <= s.len() && s.take(prefix.len() as int) == prefix
}

/// `s` with every occurrence of `pat` taken out, occurrences found from the
/// left without overlap; an empty `pat` leaves `s` as it is.
pub open spec fn remove_all(s: Seq<char>, pat: Seq<char>) -> Seq<char>
    decreases s.len(),
{
    if pat.len() == 0 || s.len() < pat.len() {
        s
    } else if s.take(pat.len() as int) == pat {
        remove_all(s.skip(pat.len() as int), pat)
    } else {
        seq![s[0]] + remove_all(s.skip(1), pat)
    }
}

/// `c` is one of `0` to `9`.
pub open spec fn is_digit(c: char) -> bool {
    '0' <= c && c <= '9'
}

/// Every character of `s` is a decimal digit.
pub open spec fn all_digits(s: Seq<char>) -> bool {
    forall|i: int| 0 <= i < s.len() ==> is_digit(#[trigger] s[i])
}

/// The number that the digits `s` write in base ten.
pub open spec fn digits_value(s: Seq<char>) -> nat
    decreases s.len(),
{
    if s.len() == 0 {
        0
    } else {
        digits_value(s.drop_last()) * 10 + ((s.last() as int) - 48) as nat
    }
}

/// What follows an optional leading `+`.
pub open spec fn unsigned_digits(s: Seq<char>) -> Seq<char> {
    if s.len() > 0 && s[0] == '+' {
        s.skip(1)
    } else {
        s
    }
}

/// Reading `s` as a `u16`: an optional `+`, then one or more decimal digits
/// whose value fits in 16 bits; anything else reads as nothing.
pub open spec fn parse_u16(s: Seq<char>) -> Option<u16> {
    let body = unsigned_digits(s);
    if body.len() > 0 && all_digits(body) && digits_value(body) <= 65535 {
        Some(digits_value(body) as u16)
    } else {
        None
    }
}

proof fn lemma_split_has_a_piece(s: Seq<char>, sep: char)
    ensures
        split_on(s, sep).len() >= 1,
    decreases s.len(),
{
    if s.len() > 0 {
        lemma_split_has_a_piece(s.drop_last(), sep);
    }
}

/// A string without `sep` is one piece.
proof fn lemma_split_without_sep(b: Seq<char>, sep: char)
    requires
        !b.contains(sep),
    ensures
        split_on(b, sep) == seq![b],
    decreases b.len(),
{
    if b.len() > 0 {
        let shorter = b.drop_last();
        assert(!shorter.contains(sep)) by {
            if shorter.contains(sep) {
                let i = choose|i: int| 0 <= i < shorter.len() && shorter[i] == sep;
                assert(b[i] == sep);
            }
        }
        lemma_split_without_sep(shorter, sep);
        assert(b.last() != sep) by {
            assert(b[b.len() - 1] == b.last());
        }
        assert(shorter.push(b.last()) =~= b);
        assert(split_on(b, sep) =~= seq![b]);
    } else {
        assert(b =~= Seq::<char>::empty());
    }
}

/// Appending `sep` and a piece without `sep` appends that piece.
proof fn lemma_split_append(a: Seq<char>, b: Seq<char>, sep: char)
    requires
        !b.contains(sep),
    ensures
        split_on(a + seq![sep] + b, sep) == split_on(a, sep).push(b),
    decreases b.len(),
{
    let s = a + seq![sep] + b;
    if b.len() == 0 {
        assert(s.drop_last() =~= a);
        assert(s.last() == sep);
        assert(b =~= Seq::<char>::empty());
    } else {
        let shorter = b.drop_last();
        assert(!shorter.contains(sep)) by {
            if shorter.contains(sep) {
                let i = choose|i: int| 0 <= i < shorter.len() && shorter[i] == sep;
                assert(b[i] == sep);
            }
        }
        lemma_split_append(a, shorter, sep);
        assert(s.drop_last() =~= a + seq![sep] + shorter);
        assert(s.last() == b.last());
        assert(b.last() != sep) by {
            assert(b[b.len() - 1] == b.last());
        }
        lemma_split_has_a_piece(a, sep);
        assert(shorter.push(b.last()) =~= b);
        assert(split_on(s, sep) =~= split_on(a, sep).push(b));
    }
}

/// Splitting pieces joined by `sep` gives the pieces back, when none of them
/// holds `sep`.
pub proof fn lemma_split_join(parts: Seq<Seq<char>>, sep: char)
    requires
        parts.len() > 0,
        forall|i: int| 0 <= i < parts.len() ==> !(#[trigger] parts[i]).contains(sep),
    ensures
        split_on(join(parts, seq![sep]), sep) == parts,
    decreases parts.len(),
{
    if parts.len() == 1 {
        lemma_split_without_sep(parts[0], sep);
        assert(parts =~= seq![parts[0]]);
    } else {
        let shorter = parts.drop_last();
        assert forall|i: int| 0 <= i < shorter.len() implies !(#[trigger] shorter[i]).contains(sep) by {
            assert(shorter[i] == parts[i]);
        }
        lemma_split_join(shorter, sep);
        assert(!parts.last().contains(sep)) by {
            assert(parts[parts.len() - 1] == parts.last());
        }
        lemma_split_append(join(shorter, seq![sep]), parts.last(), sep);
        assert(shorter.push(parts.last()) =~= parts);
    }
}

/// The decimal writing of `n` is a non-empty run of digits that reads back as `n`.
pub proof fn lemma_decimal_reads_back(n: nat)
    ensures
        decimal(n).len() > 0,
        all_digits(decimal(n)),
        digits_value(decimal(n)) == n,
    decreases n,
{
    let d = digit_char(n % 10);
    assert(is_digit(d) && (d as int) - 48 == n % 10);
    if n < 10 {
        assert(n % 10 == n);
        assert(decimal(n).drop_last() =~= Seq::<char>::empty());
        assert(decimal(n).last() == d);
        assert(digits_value(decimal(n)) == digits_value(Seq::<char>::empty()) * 10 + n);
    } else {
        lemma_decimal_reads_back(n / 10);
        assert(decimal(n).drop_last() =~= decimal(n / 10));
        assert forall|i: int| 0 <= i < decimal(n).len() implies is_digit(#[trigger] decimal(n)[i]) by {
            if i < decimal(n / 10).len() {
                assert(decimal(n)[i] == decimal(n / 10)[i]);
            }
        }
        assert(decimal(n).last() == d);
        let q: nat = n / 10;
        let r: nat = n % 10;
        assert(n == q * 10 + r) by (nonlinear_arith)
            requires
                q == n / 10,
                r == n % 10,
        ;
        assert(digits_value(decimal(n)) == digits_value(decimal(q)) * 10 + r);
        assert(digits_value(decimal(q)) == q);
    }
}

/// Numbers up to 65535 read back from their decimal writing, with or
/// without a leading `+`; larger ones, and text holding a character that is
/// not a digit after the optional `+`, read as nothing.
pub proof fn lemma_port_reads_decimal(n: nat, s: Seq<char>, i: int)
    ensures
        n <= 65535 ==> parse_u16(decimal(n)) == Some(n as u16),
        n <= 65535 ==> parse_u16(seq!['+'] + decimal(n)) == Some(n as u16),
        n > 65535 ==> parse_u16(decimal(n)) is None,
        0 < i < s.len() && !is_digit(s[i]) ==> parse_u16(s) is None,
        0 <= i < s.len() && s[0] != '+' && !is_digit(s[i]) ==> parse_u16(s) is None,
{
    lemma_decimal_reads_back(n);
    let d = decimal(n);
    assert(is_digit(d[0]));
    assert(unsigned_digits(d) == d);
    let plus = seq!['+'] + d;
    assert(plus.skip(1) =~= d);
    if 0 <= i < s.len() && !is_digit(s[i]) && (i > 0 || s[0] != '+') {
        let body = unsigned_digits(s);
        if s.len() > 0 && s[0] == '+' {
            assert(body[i - 1] == s[i]);
        } else {
            assert(body[i] == s[i]);
        }
    }
}

/// Taking a pattern out of text that never holds the pattern's first
/// character leaves the text as it is.
pub proof fn lemma_remove_all_absent(s: Seq<char>, pat: Seq<char>)
    requires
        pat.len() > 0,
        !s.contains(pat[0]),
    ensures
        remove_all(s, pat) == s,
    decreases s.len(),
{
    if s.len() >= pat.len() {
        assert(s.take(pat.len() as int)[0] == s[0]);
        assert(s.take(pat.len() as int) != pat);
        let rest = s.skip(1);
        assert(!rest.contains(pat[0])) by {
            if rest.contains(pat[0]) {
                let j = choose|j: int| 0 <= j < rest.len() && rest[j] == pat[0];
                assert(s[j + 1] == pat[0]);
            }
        }
        lemma_remove_all_absent(rest, pat);
        assert(seq![s[0]] + rest =~= s);
    }
}

/// Appends `c` to `s` (`String::push`).
#[verifier::external_body]
fn push_char(s: &mut String, c: char)
    ensures
        final(s)@ == old(s)@.push(c),
{
    s.push(c);
}

fn digit_to_char(d: u64) -> (c: char)
    requires
        d < 10,
    ensures
        c == digit_char(d as nat),
{
    let b: u8 = (d as u8) + 48u8;
    b as char
}

/// Appends the decimal writing of `n` to `out`.
pub fn push_decimal(out: &mut String, n: u64)
    ensures
        final(out)@ == old(out)@ + decimal(n as nat),
    decreases n,
{
    if n >= 10 {
        push_decimal(out, n / 10);
    }
    let c = digit_to_char(n % 10);
    push_char(out, c);
    assert(out@ =~= old(out)@ + decimal(n as nat));
}

/// The decimal writing of `n`.
pub fn decimal_string(n: u64) -> (s: String)
    ensures
        s@ == decimal(n as nat),
{
    let mut s = String::new();
    push_decimal(&mut s, n);
    assert(s@ =~= decimal(n as nat));
    s
}

/// Appends every character of `src` to `out`.
pub fn push_str(out: &mut String, src: &str)
    ensures
        final(out)@ == old(out)@ + src@,
{
    let n = src.unicode_len();
    let mut i: usize = 0;
    while i < n
        invariant
            n == src@.len(),
            i <= n,
            out@ == old(out)@ + src@.take(i as int),
        decreases n - i,
    {
        let c = src.get_char(i);
        push_char(out, c);
        i = i + 1;
        assert(out@ =~= old(out)@ + src@.take(i as int));
    }
    assert(src@.take(n as int) =~= src@);
}

/// The strings of `parts` separated by `sep`.
pub fn join_strings(parts: &Vec<String>, sep: &str) -> (s: String)
    ensures
        s@ == join(views_of(parts@), sep@),
{
    let mut s = String::new();
    let mut i: usize = 0;
    let ghost views = views_of(parts@);
    while i < parts.len()
        invariant
            i <= parts.len(),
            views == views_of(parts@),
            s@ == join(views.take(i as int), sep@),
        decreases parts.len() - i,
    {
        if i > 0 {
            push_str(&mut s, sep);
        }
        push_str(&mut s, parts[i].as_str());
        proof {
            let next = views.take(i + 1);
            assert(next.drop_last() =~= views.take(i as int));
            assert(next.last() == parts@[i as int]@);
            assert(s@ =~= join(next, sep@));
        }
        i = i + 1;
    }
    assert(views.take(parts.len() as int) =~= views);
    s
}

/// The decimal writings of `numbers` separated by `sep`.
pub fn join_decimals(numbers: &Vec<usize>, sep: &str) -> (s: String)
    ensures
        s@ == join(decimals_of(numbers@), sep@),
{
    let mut s = String::new();
    let mut i: usize = 0;
    let ghost parts = decimals_of(numbers@);
    while i < numbers.len()
        invariant
            i <= numbers.len(),
            parts == decimals_of(numbers@),
            s@ == join(parts.take(i as int), sep@),
        decreases numbers.len() - i,
    {
        if i > 0 {
            push_str(&mut s, sep);
        }
        push_decimal(&mut s, numbers[i] as u64);
        proof {
            let next = parts.take(i + 1);
            assert(next.drop_last() =~= parts.take(i as int));
            assert(next.last() == decimal(numbers@[i as int] as nat));
            assert(s@ =~= join(next, sep@));
        }
        i = i + 1;
    }
    assert(parts.take(numbers.len() as int) =~= parts);
    s
}

/// A copy of every string of `strings`.
pub fn clone_strings(strings: &Vec<String>) -> (r: Vec<String>)
    ensures
        r@ == strings@,
{
    let mut r: Vec<String> = Vec::new();
    let mut i: usize = 0;
    while i < strings.len()
        invariant
            i <= strings.len(),
            r@ == strings@.take(i as int),
        decreases strings.len() - i,
    {
        r.push(strings[i].clone());
        i = i + 1;
        assert(r@ =~= strings@.take(i as int));
    }
    assert(strings@.take(strings.len() as int) =~= strings@);
    r
}

/// The characters of `s`, in order.
pub fn chars_of(s: &str) -> (v: Vec<char>)
    ensures
        v@ == s@,
{
    let n = s.unicode_len();
    let mut v: Vec<char> = Vec::new();
    let mut i: usize = 0;
    while i < n
        invariant
            n == s@.len(),
            i <= n,
            v@ == s@.take(i as int),
        decreases n - i,
    {
        v.push(s.get_char(i));
        i = i + 1;
        assert(v@ =~= s@.take(i as int));
    }
    assert(s@.take(n as int) =~= s@);
    v
}

/// Whether `pat` occurs in `s` at position `at`.
fn occurs_at(s: &Vec<char>, at: usize, pat: &Vec<char>) -> (b: bool)
    requires
        at + pat.len() <= s.len(),
    ensures
        b == (s@.subrange(at as int, at + pat.len()) == pat@),
{
    let mut j: usize = 0;
    while j < pat.len()
        invariant
            at + pat.len() <= s.len(),
            j <= pat.len(),
            forall|k: int| 0 <= k < j ==> s@[at + k] == pat@[k],
        decreases pat.len() - j,
    {
        if s[at + j] != pat[j] {
            assert(s@.subrange(at as int, at + pat.len())[j as int] != pat@[j as int]);
            return false;
        }
        j = j + 1;
    }
    assert(s@.subrange(at as int, at + pat.len()) =~= pat@);
    true
}

/// Whether `s` begins with `prefix`.
pub fn starts_with(s: &str, prefix: &str) -> (b: bool)
    ensures
        b == has_prefix(s@, prefix@),
{
    let sv = chars_of(s);
    let pv = chars_of(prefix);
    if pv.len() > sv.len() {
        false
    } else {
        let b = occurs_at(&sv, 0, &pv);
        assert(sv@.subrange(0, pv.len() as int) =~= sv@.take(pv.len() as int));
        b
    }
}

/// `s` with every occurrence of `pat` taken out (`str::replace(pat, "")`).
pub fn remove_pattern(s: &str, pat: &str) -> (r: String)
    ensures
        r@ == remove_all(s@, pat@),
{
    let sv = chars_of(s);
    let pv = chars_of(pat);
    let mut out = String::new();
    if pv.len() == 0 {
        push_str(&mut out, s);
        assert(out@ =~= s@);
        return out;
    }
    let mut i: usize = 0;
    assert(s@.skip(0) =~= s@);
    while i < sv.len()
        invariant
            sv@ == s@,
            pv@ == pat@,
            pv.len() > 0,
            i <= sv.len(),
            out@ + remove_all(s@.skip(i as int), pat@) == remove_all(s@, pat@),
        decreases sv.len() - i,
    {
        let ghost rest = s@.skip(i as int);
        if sv.len() - i < pv.len() {
            // Too short to hold the pattern: the rest is kept as it is.
            let ghost start = out@;
            let mut j = i;
            while j < sv.len()
                invariant
                    sv@ == s@,
                    i <= j <= sv.len(),
                    out@ == start + s@.subrange(i as int, j as int),
                decreases sv.len() - j,
            {
                push_char(&mut out, sv[j]);
                j = j + 1;
                assert(out@ =~= start + s@.subrange(i as int, j as int));
            }
            assert(s@.subrange(i as int, sv.len() as int) =~= rest);
            assert(remove_all(rest, pat@) == rest);
            assert(s@.skip(sv.len() as int) =~= Seq::<char>::empty());
            assert(out@ + remove_all(s@.skip(sv.len() as int), pat@) =~= out@);
            i = sv.len();
        } else if occurs_at(&sv, i, &pv) {
            assert(rest.take(pat@.len() as int) =~= s@.subrange(i as int, i + pv.len()));
            assert(rest.skip(pat@.len() as int) =~= s@.skip(i + pv.len()));
            i = i + pv.len();
        } else {
            assert(rest.take(pat@.len() as int) =~= s@.subrange(i as int, i + pv.len()));
            assert(rest.skip(1) =~= s@.skip(i + 1));
            let ghost before = out@;
            push_char(&mut out, sv[i]);
            assert(out@ =~= before + seq![rest[0]]);
            assert(out@ + remove_all(s@.skip(i + 1), pat@) =~= before + (seq![rest[0]]
                + remove_all(rest.skip(1), pat@)));
            i = i + 1;
        }
    }
    assert(s@.skip(sv.len() as int) =~= Seq::<char>::empty());
    assert(out@ + remove_all(s@.skip(sv.len() as int), pat@) =~= out@);
    out
}

/// A prefix of a digit string never writes a larger number than the whole.
proof fn lemma_prefix_value_le(s: Seq<char>, k: int)
    requires
        all_digits(s),
        0 <= k <= s.len(),
    ensures
        digits_value(s.take(k)) <= digits_value(s),
    decreases s.len(),
{
    if k < s.len() {
        let shorter = s.drop_last();
        assert(all_digits(shorter)) by {
            assert forall|i: int| 0 <= i < shorter.len() implies is_digit(#[trigger] shorter[i]) by {
                assert(shorter[i] == s[i]);
            }
        }
        lemma_prefix_value_le(shorter, k);
        assert(shorter.take(k) =~= s.take(k));
        assert(is_digit(s[s.len() - 1]));
    } else {
        assert(s.take(k) =~= s);
    }
}

/// Reads `s` as a `u16` the way `str::parse::<u16>` does.
pub fn parse_port(s: &str) -> (r: Option<u16>)
    ensures
        r == parse_u16(s@),
{
    let sv = chars_of(s);
    let mut i: usize = 0;
    if sv.len() > 0 && sv[0] == '+' {
        i = 1;
    }
    let ghost body = unsigned_digits(s@);
    assert(body =~= s@.skip(i as int));
    if i >= sv.len() {
        return None;
    }
    let start = i;
    let mut acc: u32 = 0;
    while i < sv.len()
        invariant
            sv@ == s@,
            body == s@.skip(start as int),
            body == unsigned_digits(s@),
            start <= i <= sv.len(),
            acc <= 65535,
            all_digits(body.take(i - start)),
            acc == digits_value(body.take(i - start)),
        decreases sv.len() - i,
    {
        let c = sv[i];
        let ghost k: int = i - start;
        assert(body[k] == c);
        if c < '0' || c > '9' {
            assert(!is_digit(body[k]));
            assert(!all_digits(body));
            return None;
        }
        let d: u32 = (c as u32) - 48;
        let next: u32 = acc * 10 + d;
        proof {
            let pre = body.take(k + 1);
            assert(pre.drop_last() =~= body.take(k));
            assert(pre.last() == c);
            assert(all_digits(pre)) by {
                assert forall|m: int| 0 <= m < pre.len() implies is_digit(#[trigger] pre[m]) by {
                    if m < k {
                        assert(pre[m] == body.take(k)[m]);
                        assert(is_digit(body.take(k)[m]));
                    }
                }
            }
            assert(next == digits_value(pre));
        }
        if next > 65535 {
            proof {
                if all_digits(body) {
                    lemma_prefix_value_le(body, k + 1);
                }
            }
            return None;
        }
        acc = next;
        i = i + 1;
    }
    assert(body.take(sv.len() - start) =~= body);
    Some(acc as u16)
}

} // verus!
