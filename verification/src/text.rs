//! Byte-string helpers shared by the line protocols: searching, splitting,
//! trimming, decimal numbers and hexadecimal dumps.
//!
//! Text is modelled as `Seq<u8>`; every protocol in this crate is framed by
//! ASCII bytes, so nothing here needs to decode characters.

use vstd::prelude::*;

verus! {

pub const LF: u8 = 10;

pub const CR: u8 = 13;

pub const PLUS: u8 = 43;

/// Whether `needle` occurs in `hay` starting at position `at`.
pub open spec fn occurs_at(hay: Seq<u8>, needle: Seq<u8>, at: int) -> bool {
    0 <= at && at + needle.len() <= hay.len() && hay.subrange(at, at + needle.len()) == needle
}

/// Whether `hay` begins with `prefix`.
pub open spec fn has_prefix(hay: Seq<u8>, prefix: Seq<u8>) -> bool {
    occurs_at(hay, prefix, 0)
}

/// Whether `hay` ends with `suffix`.
pub open spec fn has_suffix(hay: Seq<u8>, suffix: Seq<u8>) -> bool {
    occurs_at(hay, suffix, hay.len() - suffix.len())
}

/// Whether `needle` occurs somewhere in `hay`.
pub open spec fn contains_seq(hay: Seq<u8>, needle: Seq<u8>) -> bool {
    exists|at: int| occurs_at(hay, needle, at)
}

/// Index of the first `b` in `s`, or `s.len()` when there is none.
pub open spec fn first_index(s: Seq<u8>, b: u8) -> int
    decreases s.len(),
{
    if s.len() == 0 || s[0] == b {
        0
    } else {
        1 + first_index(s.drop_first(), b)
    }
}

/// `first_index` stays within the sequence, points at `b` when it is inside,
/// and nothing before it is `b`.
pub proof fn lemma_first_index(s: Seq<u8>, b: u8)
    ensures
        0 <= first_index(s, b) <= s.len(),
        first_index(s, b) < s.len() ==> s[first_index(s, b)] == b,
        forall|j: int| 0 <= j < first_index(s, b) ==> s[j] != b,
    decreases s.len(),
{
    if s.len() == 0 || s[0] == b {
    } else {
        lemma_first_index(s.drop_first(), b);
        let k = first_index(s.drop_first(), b);
        assert forall|j: int| 0 <= j < 1 + k implies s[j] != b by {
            if j > 0 {
                assert(s.drop_first()[j - 1] == s[j]);
            }
        }
    }
}

/// A position holding `b` before which no `b` stands is the first index.
pub proof fn lemma_first_index_is(s: Seq<u8>, b: u8, at: int)
    requires
        0 <= at <= s.len(),
        at < s.len() ==> s[at] == b,
        forall|j: int| 0 <= j < at ==> s[j] != b,
    ensures
        first_index(s, b) == at,
{
    lemma_first_index(s, b);
    let k = first_index(s, b);
    if k < at {
        assert(s[k] == b);
    } else if k > at {
        assert(s[at] == b);
    }
}

/// Byte-wise equality of two strings.
pub fn bytes_eq(a: &[u8], b: &[u8]) -> (r: bool)
    ensures
        r == (a@ == b@),
{
    if a.len() != b.len() {
        return false;
    }
    let mut i: usize = 0;
    while i < a.len()
        invariant
            i <= a.len(),
            a.len() == b.len(),
            forall|j: int| 0 <= j < i ==> a@[j] == b@[j],
        decreases a.len() - i,
    {
        if a[i] != b[i] {
            return false;
        }
        i += 1;
    }
    assert(a@ =~= b@);
    true
}

/// Tests whether `needle` stands in `hay` at position `at`.
pub fn matches_at(hay: &[u8], needle: &[u8], at: usize) -> (r: bool)
    ensures
        r == occurs_at(hay@, needle@, at as int),
{
    if at > hay.len() || needle.len() > hay.len() - at {
        return false;
    }
    let mut i: usize = 0;
    while i < needle.len()
        invariant
            i <= needle.len(),
            at + needle.len() <= hay.len(),
            forall|j: int| 0 <= j < i ==> hay@[at + j] == needle@[j],
        decreases needle.len() - i,
    {
        if hay[at + i] != needle[i] {
            assert(hay@.subrange(at as int, at + needle@.len())[i as int] == hay@[at + i]);
            return false;
        }
        i += 1;
    }
    assert(hay@.subrange(at as int, at + needle@.len()) =~= needle@);
    true
}

/// Tests whether `hay` begins with `prefix`.
pub fn starts_with(hay: &[u8], prefix: &[u8]) -> (r: bool)
    ensures
        r == has_prefix(hay@, prefix@),
{
    matches_at(hay, prefix, 0)
}

/// Tests whether `hay` ends with `suffix`.
pub fn ends_with(hay: &[u8], suffix: &[u8]) -> (r: bool)
    ensures
        r == has_suffix(hay@, suffix@),
{
    if suffix.len() > hay.len() {
        return false;
    }
    matches_at(hay, suffix, hay.len() - suffix.len())
}

/// Position of the first occurrence of `needle` in `hay`.
pub fn find(hay: &[u8], needle: &[u8]) -> (r: Option<usize>)
    ensures
        match r {
            Some(at) => occurs_at(hay@, needle@, at as int) && forall|j: int|
                0 <= j < at ==> !occurs_at(hay@, needle@, j),
            None => !contains_seq(hay@, needle@),
        },
{
    if needle.len() > hay.len() {
        return None;
    }
    let last: usize = hay.len() - needle.len();
    let mut at: usize = 0;
    while at < last
        invariant
            at <= last,
            last == hay.len() - needle.len(),
            forall|j: int| 0 <= j < at ==> !occurs_at(hay@, needle@, j),
        decreases last - at,
    {
        if matches_at(hay, needle, at) {
            return Some(at);
        }
        at += 1;
    }
    if matches_at(hay, needle, last) {
        Some(last)
    } else {
        None
    }
}

/// Tests whether `needle` occurs somewhere in `hay`.
pub fn contains(hay: &[u8], needle: &[u8]) -> (r: bool)
    ensures
        r == contains_seq(hay@, needle@),
{
    find(hay, needle).is_some()
}

/// Index of the first `b` in `s`, or `s.len()` when there is none.
pub fn index_of(s: &[u8], b: u8) -> (r: usize)
    ensures
        r == first_index(s@, b),
{
    let mut i: usize = 0;
    while i < s.len() && s[i] != b
        invariant
            i <= s.len(),
            forall|j: int| 0 <= j < i ==> s@[j] != b,
        decreases s.len() - i,
    {
        i += 1;
    }
    proof {
        lemma_first_index_is(s@, b, i as int);
    }
    i
}

/// Copies `s[from..to]`.
pub fn slice_copy(s: &[u8], from: usize, to: usize) -> (r: Vec<u8>)
    requires
        from <= to <= s.len(),
    ensures
        r@ == s@.subrange(from as int, to as int),
{
    let mut out: Vec<u8> = Vec::new();
    let mut i: usize = from;
    while i < to
        invariant
            from <= i <= to <= s.len(),
            out@ == s@.subrange(from as int, i as int),
        decreases to - i,
    {
        out.push(s[i]);
        assert(s@.subrange(from as int, i + 1) =~= s@.subrange(from as int, i as int).push(
            s@[i as int],
        ));
        i += 1;
    }
    out
}

/// Appends every byte of `tail` to `out`.
pub fn extend(out: &mut Vec<u8>, tail: &[u8])
    ensures
        final(out)@ == old(out)@ + tail@,
{
    let mut i: usize = 0;
    while i < tail.len()
        invariant
            i <= tail.len(),
            out@ == old(out)@ + tail@.subrange(0, i as int),
        decreases tail.len() - i,
    {
        out.push(tail[i]);
        assert(tail@.subrange(0, i + 1) =~= tail@.subrange(0, i as int).push(tail@[i as int]));
        assert(out@ =~= old(out)@ + tail@.subrange(0, i + 1));
        i += 1;
    }
    assert(tail@.subrange(0, tail@.len() as int) =~= tail@);
}

/// Whether `b` occurs in `s`.
pub open spec fn found(s: Seq<u8>, b: u8) -> bool {
    0 <= first_index(s, b) < s.len()
}

/// The part of `s` before its first `b`.
pub open spec fn before_first(s: Seq<u8>, b: u8) -> Seq<u8> {
    s.subrange(0, first_index(s, b))
}

/// The part of `s` after its first `b`.
pub open spec fn after_first(s: Seq<u8>, b: u8) -> Seq<u8> {
    s.subrange(first_index(s, b) + 1, s.len() as int)
}

/// The byte strings that the rows of `v` hold.
pub open spec fn rows(v: Seq<Vec<u8>>) -> Seq<Seq<u8>> {
    Seq::new(v.len(), |i: int| v[i]@)
}

/// The fields that splitting `s` at `d` gives when at most `n` fields are
/// taken: the last field keeps every later `d`.
pub open spec fn split_n(s: Seq<u8>, d: u8, n: nat) -> Seq<Seq<u8>>
    decreases n,
{
    if n == 0 {
        Seq::empty()
    } else if n == 1 || !found(s, d) {
        seq![s]
    } else {
        seq![before_first(s, d)] + split_n(after_first(s, d), d, (n - 1) as nat)
    }
}

/// The fields that splitting `s` at every `d` gives.
pub open spec fn split_all(s: Seq<u8>, d: u8) -> Seq<Seq<u8>>
    decreases s.len(),
{
    if !found(s, d) {
        seq![s]
    } else {
        seq![before_first(s, d)] + split_all(after_first(s, d), d)
    }
}

/// `parts` written one after another with `d` between neighbours.
pub open spec fn join(parts: Seq<Seq<u8>>, d: u8) -> Seq<u8>
    decreases parts.len(),
{
    if parts.len() == 0 {
        Seq::empty()
    } else if parts.len() == 1 {
        parts[0]
    } else {
        parts[0] + seq![d] + join(parts.drop_first(), d)
    }
}

/// Whether `b` occurs nowhere in `s`.
pub open spec fn free_of(s: Seq<u8>, b: u8) -> bool {
    forall|i: int| 0 <= i < s.len() ==> s[i] != b
}

/// Joining fields and splitting the line again gives the fields back, as long
/// as the separator occurs in none but the last field.
pub proof fn lemma_split_join(parts: Seq<Seq<u8>>, d: u8)
    requires
        parts.len() >= 1,
        forall|i: int| 0 <= i < parts.len() - 1 ==> free_of(#[trigger] parts[i], d),
    ensures
        split_n(join(parts, d), d, parts.len()) == parts,
    decreases parts.len(),
{
    let line = join(parts, d);
    if parts.len() == 1 {
        assert(split_n(line, d, 1) =~= parts);
    } else {
        let head = parts[0];
        let rest = parts.drop_first();
        assert(free_of(head, d));
        assert(line == head + seq![d] + join(rest, d));
        lemma_first_index_is(line, d, head.len() as int);
        assert(before_first(line, d) =~= head);
        assert(after_first(line, d) =~= join(rest, d));
        assert forall|i: int| 0 <= i < rest.len() - 1 implies free_of(#[trigger] rest[i], d) by {
            assert(rest[i] == parts[i + 1]);
        }
        lemma_split_join(rest, d);
        assert(split_n(line, d, parts.len()) =~= seq![head] + rest);
        assert(seq![head] + rest =~= parts);
    }
}

/// Splits `s` at `d` into at most `n` fields.
pub fn splitn(s: &[u8], d: u8, n: usize) -> (r: Vec<Vec<u8>>)
    ensures
        rows(r@) == split_n(s@, d, n as nat),
{
    let mut out: Vec<Vec<u8>> = Vec::new();
    let mut start: usize = 0;
    let mut left: usize = n;
    let mut done = n == 0;
    assert(s@.subrange(0, s@.len() as int) =~= s@);
    assert(rows(out@) + split_n(s@, d, n as nat) =~= split_n(s@, d, n as nat));
    assert(rows(out@) =~= Seq::<Seq<u8>>::empty());
    while !done
        invariant
            start <= s.len(),
            left <= n,
            !done ==> left >= 1,
            done ==> rows(out@) == split_n(s@, d, n as nat),
            !done ==> split_n(s@, d, n as nat) == rows(out@) + split_n(
                s@.subrange(start as int, s@.len() as int),
                d,
                left as nat,
            ),
        decreases left, if done { 0int } else { 1int },
    {
        let ghost rest = s@.subrange(start as int, s@.len() as int);
        let ghost before = rows(out@);
        let tail = slice_copy(s, start, s.len());
        let at = index_of(tail.as_slice(), d);
        proof {
            lemma_first_index(rest, d);
        }
        if left == 1 || at >= tail.len() {
            out.push(tail);
            assert(rows(out@) =~= before + seq![rest]);
            done = true;
        } else {
            let field = slice_copy(tail.as_slice(), 0, at);
            out.push(field);
            assert(rows(out@) =~= before + seq![before_first(rest, d)]);
            assert(after_first(rest, d) =~= s@.subrange(start + at + 1, s@.len() as int));
            assert(before + (seq![before_first(rest, d)] + split_n(
                after_first(rest, d),
                d,
                (left - 1) as nat,
            )) =~= (before + seq![before_first(rest, d)]) + split_n(
                after_first(rest, d),
                d,
                (left - 1) as nat,
            ));
            start = start + at + 1;
            left = left - 1;
        }
    }
    out
}

/// Splits `s` at every `d`.
pub fn split(s: &[u8], d: u8) -> (r: Vec<Vec<u8>>)
    ensures
        rows(r@) == split_all(s@, d),
{
    let mut out: Vec<Vec<u8>> = Vec::new();
    let mut start: usize = 0;
    let mut done = false;
    assert(s@.subrange(0, s@.len() as int) =~= s@);
    assert(rows(out@) + split_all(s@, d) =~= split_all(s@, d));
    while !done
        invariant
            start <= s.len(),
            done ==> rows(out@) == split_all(s@, d),
            !done ==> split_all(s@, d) == rows(out@) + split_all(
                s@.subrange(start as int, s@.len() as int),
                d,
            ),
        decreases s.len() - start, if done { 0int } else { 1int },
    {
        let ghost rest = s@.subrange(start as int, s@.len() as int);
        let ghost before = rows(out@);
        let tail = slice_copy(s, start, s.len());
        let at = index_of(tail.as_slice(), d);
        proof {
            lemma_first_index(rest, d);
        }
        if at >= tail.len() {
            out.push(tail);
            assert(rows(out@) =~= before + seq![rest]);
            done = true;
        } else {
            let field = slice_copy(tail.as_slice(), 0, at);
            out.push(field);
            assert(rows(out@) =~= before + seq![before_first(rest, d)]);
            assert(after_first(rest, d) =~= s@.subrange(start + at + 1, s@.len() as int));
            assert(before + (seq![before_first(rest, d)] + split_all(after_first(rest, d), d))
                =~= (before + seq![before_first(rest, d)]) + split_all(after_first(rest, d), d));
            start = start + at + 1;
        }
    }
    out
}

/// Writes `parts` one after another with `d` between neighbours.
pub fn join_fields(parts: &Vec<Vec<u8>>, d: u8) -> (r: Vec<u8>)
    ensures
        r@ == join(rows(parts@), d),
{
    let mut out: Vec<u8> = Vec::new();
    let mut i: usize = parts.len();
    let ghost all = rows(parts@);
    assert(all.subrange(all.len() as int, all.len() as int) =~= Seq::<Seq<u8>>::empty());
    while i > 0
        invariant
            i <= parts.len(),
            all == rows(parts@),
            out@ == join(all.subrange(i as int, all.len() as int), d),
        decreases i,
    {
        i -= 1;
        let ghost tail = all.subrange(i + 1, all.len() as int);
        let ghost now = all.subrange(i as int, all.len() as int);
        let mut next: Vec<u8> = Vec::new();
        extend(&mut next, parts[i].as_slice());
        assert(now.drop_first() =~= tail);
        assert(now[0] == parts[i as int]@);
        if i + 1 < parts.len() {
            next.push(d);
            extend(&mut next, out.as_slice());
            assert(next@ =~= now[0] + seq![d] + join(tail, d));
        } else {
            assert(tail.len() == 0);
            assert(next@ =~= now[0]);
        }
        out = next;
    }
    assert(all.subrange(0, all.len() as int) =~= all);
    out
}

/// The six ASCII white-space bytes: tab, line feed, vertical tab, form feed,
/// carriage return and space.
pub open spec fn is_space(b: u8) -> bool {
    (9 <= b <= 13) || b == 32
}

/// `s` without its leading white space.
pub open spec fn skip_leading(s: Seq<u8>) -> Seq<u8>
    decreases s.len(),
{
    if s.len() > 0 && is_space(s[0]) {
        skip_leading(s.drop_first())
    } else {
        s
    }
}

/// `s` without its trailing white space.
pub open spec fn skip_trailing(s: Seq<u8>) -> Seq<u8>
    decreases s.len(),
{
    if s.len() > 0 && is_space(s.last()) {
        skip_trailing(s.drop_last())
    } else {
        s
    }
}

/// `s` without leading and trailing ASCII white space.
pub open spec fn trimmed(s: Seq<u8>) -> Seq<u8> {
    skip_trailing(skip_leading(s))
}

/// Tests whether `b` is ASCII white space.
pub fn is_space_byte(b: u8) -> (r: bool)
    ensures
        r == is_space(b),
{
    (9 <= b && b <= 13) || b == 32
}

/// Copies `s` without leading and trailing ASCII white space.
pub fn trim(s: &[u8]) -> (r: Vec<u8>)
    ensures
        r@ == trimmed(s@),
{
    let mut start: usize = 0;
    assert(s@.subrange(0, s@.len() as int) =~= s@);
    while start < s.len() && is_space_byte(s[start])
        invariant
            start <= s.len(),
            skip_leading(s@) == skip_leading(s@.subrange(start as int, s@.len() as int)),
        decreases s.len() - start,
    {
        assert(s@.subrange(start as int, s@.len() as int).drop_first() =~= s@.subrange(
            start + 1,
            s@.len() as int,
        ));
        start += 1;
    }
    let ghost lead = s@.subrange(start as int, s@.len() as int);
    assert(skip_leading(s@) == lead);
    let mut end: usize = s.len();
    while end > start && is_space_byte(s[end - 1])
        invariant
            start <= end <= s.len(),
            skip_trailing(lead) == skip_trailing(s@.subrange(start as int, end as int)),
        decreases end - start,
    {
        assert(s@.subrange(start as int, end as int).drop_last() =~= s@.subrange(
            start as int,
            end - 1,
        ));
        end -= 1;
    }
    slice_copy(s, start, end)
}

/// The lines of `s`: pieces ended by a line feed, each without the carriage
/// return that may stand before its line feed. A last piece without a line
/// feed is a line too, unless it is empty.
pub open spec fn lines_of(s: Seq<u8>) -> Seq<Seq<u8>>
    decreases s.len(),
{
    if s.len() == 0 {
        Seq::empty()
    } else if !found(s, LF) {
        seq![s]
    } else {
        seq![strip_cr(before_first(s, LF))] + lines_of(after_first(s, LF))
    }
}

/// `line` without one trailing carriage return.
pub open spec fn strip_cr(line: Seq<u8>) -> Seq<u8> {
    if line.len() > 0 && line.last() == CR {
        line.drop_last()
    } else {
        line
    }
}

/// Splits `s` into its lines.
pub fn lines(s: &[u8]) -> (r: Vec<Vec<u8>>)
    ensures
        rows(r@) == lines_of(s@),
{
    let mut out: Vec<Vec<u8>> = Vec::new();
    let mut start: usize = 0;
    assert(s@.subrange(0, s@.len() as int) =~= s@);
    assert(rows(out@) + lines_of(s@) =~= lines_of(s@));
    while start < s.len()
        invariant
            start <= s.len(),
            lines_of(s@) == rows(out@) + lines_of(s@.subrange(start as int, s@.len() as int)),
        decreases s.len() - start,
    {
        let ghost rest = s@.subrange(start as int, s@.len() as int);
        let ghost before = rows(out@);
        let tail = slice_copy(s, start, s.len());
        let at = index_of(tail.as_slice(), LF);
        proof {
            lemma_first_index(rest, LF);
        }
        if at >= tail.len() {
            out.push(tail);
            assert(rows(out@) =~= before + seq![rest]);
            start = s.len();
            assert(lines_of(s@.subrange(start as int, s@.len() as int)) =~= Seq::empty());
            assert(before + seq![rest] =~= (before + seq![rest]) + Seq::<Seq<u8>>::empty());
        } else {
            let mut stop: usize = at;
            if at > 0 && tail[at - 1] == CR {
                stop = at - 1;
            }
            let line = slice_copy(tail.as_slice(), 0, stop);
            assert(line@ =~= strip_cr(before_first(rest, LF)));
            out.push(line);
            assert(rows(out@) =~= before + seq![strip_cr(before_first(rest, LF))]);
            assert(after_first(rest, LF) =~= s@.subrange(start + at + 1, s@.len() as int));
            assert(before + (seq![strip_cr(before_first(rest, LF))] + lines_of(
                after_first(rest, LF),
            )) =~= (before + seq![strip_cr(before_first(rest, LF))]) + lines_of(
                after_first(rest, LF),
            ));
            start = start + at + 1;
        }
    }
    assert(lines_of(s@.subrange(start as int, s@.len() as int)) =~= Seq::empty());
    assert(rows(out@) + Seq::<Seq<u8>>::empty() =~= rows(out@));
    out
}

/// Whether `b` is an ASCII decimal digit.
pub open spec fn is_digit(b: u8) -> bool {
    48 <= b <= 57
}

/// Whether `s` consists of decimal digits only.
pub open spec fn all_digits(s: Seq<u8>) -> bool {
    forall|i: int| 0 <= i < s.len() ==> is_digit(#[trigger] s[i])
}

/// The number that the decimal digits `s` denote (0 for no digits).
pub open spec fn digits_value(s: Seq<u8>) -> nat
    decreases s.len(),
{
    if s.len() == 0 {
        0
    } else {
        (digits_value(s.drop_last()) * 10 + (s.last() - 48)) as nat
    }
}

/// The number that `s` denotes: decimal digits, at least one, after an
/// optional plus sign. Anything else denotes no number.
pub open spec fn decimal_value(s: Seq<u8>) -> Option<nat> {
    let digits = if s.len() > 0 && s[0] == PLUS {
        s.drop_first()
    } else {
        s
    };
    if digits.len() > 0 && all_digits(digits) {
        Some(digits_value(digits))
    } else {
        None
    }
}

/// The decimal digits of `n`, without leading zeros.
pub open spec fn decimal(n: nat) -> Seq<u8>
    decreases n,
{
    if n < 10 {
        seq![(48 + n) as u8]
    } else {
        decimal(n / 10).push((48 + n % 10) as u8)
    }
}

/// What `decimal` writes is read back by `decimal_value`, and holds digits only.
pub proof fn lemma_decimal_round_trip(n: nat)
    ensures
        decimal(n).len() >= 1,
        all_digits(decimal(n)),
        digits_value(decimal(n)) == n,
        decimal_value(decimal(n)) == Some(n),
    decreases n,
{
    if n < 10 {
        let s = decimal(n);
        assert(s.drop_last() =~= Seq::<u8>::empty());
        assert(digits_value(s.drop_last()) == 0);
    } else {
        lemma_decimal_round_trip(n / 10);
        let s = decimal(n);
        assert(s.drop_last() =~= decimal(n / 10));
        assert(s[0] == decimal(n / 10)[0]);
    }
}

/// Reads a decimal number no greater than `max`.
pub fn parse_decimal(s: &[u8], max: u64) -> (r: Option<u64>)
    ensures
        match r {
            Some(v) => decimal_value(s@) == Some(v as nat) && v <= max,
            None => match decimal_value(s@) {
                Some(v) => v > max,
                None => true,
            },
        },
{
    let mut start: usize = 0;
    if s.len() > 0 && s[0] == PLUS {
        start = 1;
    }
    let ghost digits = s@.subrange(start as int, s@.len() as int);
    assert(digits =~= if s@.len() > 0 && s@[0] == PLUS {
        s@.drop_first()
    } else {
        s@
    });
    if start >= s.len() {
        return None;
    }
    let mut acc: u64 = 0;
    let mut over = false;
    let mut i: usize = start;
    assert(digits.subrange(0, 0) =~= Seq::<u8>::empty());
    while i < s.len()
        invariant
            start <= i <= s.len(),
            digits == s@.subrange(start as int, s@.len() as int),
            decimal_value(s@) == if digits.len() > 0 && all_digits(digits) {
                Some(digits_value(digits))
            } else {
                None
            },
            all_digits(digits.subrange(0, i - start)),
            !over ==> acc == digits_value(digits.subrange(0, i - start)) && acc <= max,
            over ==> digits_value(digits.subrange(0, i - start)) > max,
        decreases s.len() - i,
    {
        let b = s[i];
        let ghost seen = digits.subrange(0, i - start);
        let ghost next = digits.subrange(0, i + 1 - start);
        assert(next.drop_last() =~= seen);
        assert(next.last() == b);
        if b < 48 || b > 57 {
            assert(!is_digit(digits[i - start]));
            return None;
        }
        assert forall|j: int| 0 <= j < next.len() implies is_digit(#[trigger] next[j]) by {
            if j < seen.len() {
                assert(seen[j] == next[j]);
            }
        }
        let digit: u64 = (b - 48) as u64;
        assert(digits_value(next) == digits_value(seen) * 10 + digit);
        if !over {
            if digit > max || acc > (max - digit) / 10 {
                over = true;
            } else {
                acc = acc * 10 + digit;
            }
        }
        i += 1;
    }
    assert(digits.subrange(0, digits.len() as int) =~= digits);
    if over {
        None
    } else {
        Some(acc)
    }
}

/// Writes `n` in decimal.
pub fn format_decimal(n: u64) -> (r: Vec<u8>)
    ensures
        r@ == decimal(n as nat),
    decreases n,
{
    if n < 10 {
        let mut out: Vec<u8> = Vec::new();
        out.push(48 + n as u8);
        assert(out@ =~= decimal(n as nat));
        out
    } else {
        let mut out = format_decimal(n / 10);
        out.push(48 + (n % 10) as u8);
        out
    }
}

/// The lower-case hexadecimal digit of a value below sixteen.
pub open spec fn hex_digit(v: int) -> u8 {
    if v < 10 {
        (48 + v) as u8
    } else {
        (87 + v) as u8
    }
}

/// Two lower-case hexadecimal digits for each byte of `bytes`.
pub open spec fn hex(bytes: Seq<u8>) -> Seq<u8> {
    Seq::new(
        2 * bytes.len(),
        |i: int|
            if i % 2 == 0 {
                hex_digit(bytes[i / 2] as int / 16)
            } else {
                hex_digit(bytes[i / 2] as int % 16)
            },
    )
}

fn hex_digit_of(v: u8) -> (r: u8)
    requires
        v < 16,
    ensures
        r == hex_digit(v as int),
{
    if v < 10 {
        48 + v
    } else {
        87 + v
    }
}

/// Dumps `bytes` as lower-case hexadecimal text, two digits a byte.
pub fn to_hex(bytes: &[u8]) -> (r: Vec<u8>)
    ensures
        r@ == hex(bytes@),
{
    let mut out: Vec<u8> = Vec::new();
    let mut i: usize = 0;
    while i < bytes.len()
        invariant
            i <= bytes.len(),
            out@ == hex(bytes@.subrange(0, i as int)),
        decreases bytes.len() - i,
    {
        let b = bytes[i];
        out.push(hex_digit_of(b / 16));
        out.push(hex_digit_of(b % 16));
        assert(out@ =~= hex(bytes@.subrange(0, i + 1))) by {
            let a = bytes@.subrange(0, i as int);
            let c = bytes@.subrange(0, i + 1);
            assert forall|j: int| 0 <= j < 2 * (i + 1) implies out@[j] == hex(c)[j] by {
                if j < 2 * i {
                    assert(hex(a)[j] == hex(c)[j]);
                }
            }
        }
        i += 1;
    }
    assert(bytes@.subrange(0, bytes@.len() as int) =~= bytes@);
    out
}

} // verus!
