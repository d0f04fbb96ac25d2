//! Text: the character-level operations that the player's rules are written in.

use vstd::prelude::*;

verus! {

/// `String::push` appends one character.
pub assume_specification[ String::push ](s: &mut String, c: char)
    ensures
        final(s)@ == old(s)@.push(c),
;

/// The texts that a list of strings holds.
pub open spec fn texts(list: Seq<String>) -> Seq<Seq<char>> {
    list.map_values(|s: String| s@)
}

/// `c` in lower case where it is an ASCII letter, `c` itself otherwise.
pub open spec fn lower_char(c: char) -> char {
    if 'A' <= c <= 'Z' {
        ((c as u8) + 32) as char
    } else {
        c
    }
}

/// `s` with its ASCII letters in lower case.
pub open spec fn lower(s: Seq<char>) -> Seq<char> {
    s.map_values(|c: char| lower_char(c))
}

/// What stands before the first `stop` in `s`; all of `s` where there is none.
pub open spec fn before(s: Seq<char>, stop: char) -> Seq<char>
    decreases s.len(),
{
    if s.len() == 0 || s[0] == stop {
        Seq::empty()
    } else {
        seq![s[0]] + before(s.drop_first(), stop)
    }
}

/// What stands behind the last `mark` in `s`; all of `s` where there is none.
pub open spec fn after_last(s: Seq<char>, mark: char) -> Seq<char>
    decreases s.len(),
{
    if s.len() == 0 || s.last() == mark {
        Seq::empty()
    } else {
        after_last(s.drop_last(), mark).push(s.last())
    }
}

/// What stands before the last `mark` in `s`, if there is one.
pub open spec fn before_last(s: Seq<char>, mark: char) -> Option<Seq<char>>
    decreases s.len(),
{
    if s.len() == 0 {
        None
    } else if s.last() == mark {
        Some(s.drop_last())
    } else {
        before_last(s.drop_last(), mark)
    }
}

/// The digit for `d` in a numeral of base ten or sixteen.
pub open spec fn digit_char(d: int) -> char {
    if d < 10 {
        (48 + d) as char
    } else {
        (87 + d) as char
    }
}

/// The numeral for `n` in base `base`.
pub open spec fn numeral(n: nat, base: nat) -> Seq<char>
    decreases n,
{
    if base < 2 || n < base {
        seq![digit_char(n as int)]
    } else {
        proof {
            assert(n / base < n) by (nonlinear_arith)
                requires
                    n >= base >= 2,
            ;
        }
        numeral(n / base, base).push(digit_char((n % base) as int))
    }
}

/// The decimal numeral for `n`.
pub open spec fn decimal(n: nat) -> Seq<char> {
    numeral(n, 10)
}

/// The decimal numeral for `n`, with a minus sign below zero.
pub open spec fn signed_decimal(n: int) -> Seq<char> {
    if n < 0 {
        seq!['-'] + decimal((-n) as nat)
    } else {
        decimal(n as nat)
    }
}

/// `n` blanks.
pub open spec fn blanks(n: nat) -> Seq<char> {
    Seq::new(n, |i: int| ' ')
}

/// `s` with blanks behind it up to a width of `width`.
pub open spec fn padded(s: Seq<char>, width: nat) -> Seq<char> {
    if s.len() < width {
        s + blanks((width - s.len()) as nat)
    } else {
        s
    }
}

/// `s` with blanks before it up to a width of `width`.
pub open spec fn right_aligned(s: Seq<char>, width: nat) -> Seq<char> {
    if s.len() < width {
        blanks((width - s.len()) as nat) + s
    } else {
        s
    }
}

/// The characters of `s`.
pub fn chars_of(s: &str) -> (v: Vec<char>)
    ensures
        v@ == s@,
{
    let mut v: Vec<char> = Vec::new();
    for c in it: s.chars()
        invariant
            it.seq() == s@,
            v@ == s@.take(it.index()),
    {
        v.push(c);
        assert(s@.take(it.index() + 1) == s@.take(it.index()).push(c));
    }
    assert(s@.take(s@.len() as int) == s@);
    v
}

/// The string of the characters `v`.
pub fn string_of(v: &[char]) -> (s: String)
    ensures
        s@ == v@,
{
    let mut s = String::new();
    let mut i: usize = 0;
    while i < v.len()
        invariant
            i <= v@.len(),
            s@ == v@.take(i as int),
        decreases v@.len() - i,
    {
        s.push(v[i]);
        assert(v@.take(i + 1) == v@.take(i as int).push(v@[i as int]));
        i += 1;
    }
    assert(v@.take(v@.len() as int) == v@);
    s
}

/// `c` in lower case where it is an ASCII letter.
pub fn lower_one(c: char) -> (r: char)
    ensures
        r == lower_char(c),
{
    if 'A' <= c && c <= 'Z' {
        (c as u8 + 32) as char
    } else {
        c
    }
}

/// The characters of `s` with its ASCII letters in lower case.
pub fn lower_chars(s: &[char]) -> (r: Vec<char>)
    ensures
        r@ == lower(s@),
{
    let mut r: Vec<char> = Vec::new();
    let mut i: usize = 0;
    while i < s.len()
        invariant
            i <= s@.len(),
            r@ == lower(s@).take(i as int),
        decreases s@.len() - i,
    {
        r.push(lower_one(s[i]));
        i += 1;
        assert(lower(s@).take(i as int) == lower(s@).take(i - 1).push(lower_char(s@[i - 1])));
    }
    r
}

/// Whether `a` and `b` hold the same characters.
pub fn same(a: &[char], b: &[char]) -> (r: bool)
    ensures
        r == (a@ == b@),
{
    if a.len() != b.len() {
        return false;
    }
    let mut i: usize = 0;
    while i < a.len()
        invariant
            i <= a@.len(),
            a@.len() == b@.len(),
            forall|j: int| 0 <= j < i ==> a@[j] == b@[j],
        decreases a@.len() - i,
    {
        if a[i] != b[i] {
            return false;
        }
        i += 1;
    }
    assert(a@ == b@);
    true
}

/// Whether `name` is among `names`.
pub fn is_among(name: &str, names: &[String]) -> (b: bool)
    ensures
        b == texts(names@).contains(name@),
{
    let wanted = chars_of(name);
    let mut i: usize = 0;
    while i < names.len()
        invariant
            i <= names@.len(),
            wanted@ == name@,
            forall|j: int| 0 <= j < i ==> #[trigger] texts(names@)[j] != name@,
        decreases names@.len() - i,
    {
        let other = chars_of(names[i].as_str());
        assert(texts(names@)[i as int] == other@);
        if same(&wanted, &other) {
            return true;
        }
        i += 1;
    }
    false
}

/// Appends a line.
pub fn add_line(lines: &mut Vec<String>, line: String)
    ensures
        texts(final(lines)@) == texts(old(lines)@).push(line@),
{
    lines.push(line);
    assert(texts(lines@) == texts(old(lines)@).push(line@));
}

/// Whether `s` starts with `p`.
pub fn has_prefix(s: &[char], p: &[char]) -> (r: bool)
    ensures
        r == p@.is_prefix_of(s@),
{
    if p.len() > s.len() {
        return false;
    }
    let mut i: usize = 0;
    while i < p.len()
        invariant
            i <= p@.len() <= s@.len(),
            forall|j: int| 0 <= j < i ==> p@[j] == s@[j],
        decreases p@.len() - i,
    {
        if p[i] != s[i] {
            assert(s@.subrange(0, p@.len() as int)[i as int] == s@[i as int]);
            return false;
        }
        i += 1;
    }
    assert(p@ =~= s@.subrange(0, p@.len() as int));
    true
}

/// Whether `s` ends with `p`.
pub fn has_suffix(s: &[char], p: &[char]) -> (r: bool)
    ensures
        r == p@.is_suffix_of(s@),
{
    if p.len() > s.len() {
        return false;
    }
    let d: usize = s.len() - p.len();
    let mut i: usize = 0;
    while i < p.len()
        invariant
            i <= p@.len(),
            d + p@.len() == s@.len() <= usize::MAX,
            forall|j: int| 0 <= j < i ==> p@[j] == s@[d + j],
        decreases p@.len() - i,
    {
        if p[i] != s[d + i] {
            assert(s@.subrange(d as int, s@.len() as int)[i as int] == s@[d + i]);
            return false;
        }
        i += 1;
    }
    assert(p@ =~= s@.subrange(d as int, s@.len() as int));
    true
}

/// The characters of `s` from `from` up to `to`.
pub fn part(s: &[char], from: usize, to: usize) -> (r: Vec<char>)
    requires
        from <= to <= s@.len(),
    ensures
        r@ == s@.subrange(from as int, to as int),
{
    let mut r: Vec<char> = Vec::new();
    let mut i: usize = from;
    while i < to
        invariant
            from <= i <= to <= s@.len(),
            r@ == s@.subrange(from as int, i as int),
        decreases to - i,
    {
        r.push(s[i]);
        assert(s@.subrange(from as int, i + 1) == s@.subrange(from as int, i as int).push(
            s@[i as int],
        ));
        i += 1;
    }
    r
}

/// What stands before the first `stop` in `s`; all of `s` where there is none.
pub fn cut_before(s: &[char], stop: char) -> (r: Vec<char>)
    ensures
        r@ == before(s@, stop),
{
    let mut i: usize = 0;
    assert(s@.take(0) + before(s@.skip(0), stop) == before(s@, stop)) by {
        assert(s@.skip(0) == s@);
        assert(s@.take(0) + before(s@, stop) == before(s@, stop));
    }
    while i < s.len() && s[i] != stop
        invariant
            i <= s@.len(),
            before(s@, stop) == s@.take(i as int) + before(s@.skip(i as int), stop),
        decreases s@.len() - i,
    {
        proof {
            let rest = s@.skip(i as int);
            assert(rest.drop_first() == s@.skip(i + 1));
            assert(s@.take(i as int) + (seq![rest[0]] + before(rest.drop_first(), stop)) == s@.take(
                i + 1,
            ) + before(s@.skip(i + 1), stop));
        }
        i += 1;
    }
    assert(before(s@.skip(i as int), stop) == Seq::<char>::empty());
    assert(before(s@, stop) == s@.subrange(0, i as int));
    part(s, 0, i)
}

/// What stands behind the last `mark` in `s`; all of `s` where there is none.
pub fn cut_after_last(s: &[char], mark: char) -> (r: Vec<char>)
    ensures
        r@ == after_last(s@, mark),
{
    let mut i: usize = s.len();
    assert(s@.take(s@.len() as int) == s@);
    assert(after_last(s@, mark) + s@.skip(s@.len() as int) == after_last(s@, mark));
    while i > 0 && s[i - 1] != mark
        invariant
            i <= s@.len(),
            after_last(s@, mark) == after_last(s@.take(i as int), mark) + s@.skip(i as int),
        decreases i,
    {
        proof {
            let head = s@.take(i as int);
            assert(head.drop_last() == s@.take(i - 1));
            assert(after_last(head.drop_last(), mark).push(head.last()) + s@.skip(i as int)
                == after_last(s@.take(i - 1), mark) + s@.skip(i - 1));
        }
        i -= 1;
    }
    assert(after_last(s@.take(i as int), mark) == Seq::<char>::empty());
    assert(after_last(s@, mark) == s@.subrange(i as int, s@.len() as int));
    part(s, i, s.len())
}

/// What stands before the last `mark` in `s`, if there is one.
pub fn cut_before_last(s: &[char], mark: char) -> (r: Option<Vec<char>>)
    ensures
        r is Some <==> before_last(s@, mark) is Some,
        r matches Some(v) ==> v@ == before_last(s@, mark)->0,
{
    let mut i: usize = s.len();
    assert(s@.take(s@.len() as int) == s@);
    while i > 0
        invariant
            i <= s@.len(),
            before_last(s@, mark) == before_last(s@.take(i as int), mark),
        decreases i,
    {
        assert(s@.take(i as int).drop_last() == s@.take(i - 1));
        if s[i - 1] == mark {
            assert(s@.subrange(0, i - 1) == s@.take(i - 1));
            return Some(part(s, 0, i - 1));
        }
        i -= 1;
    }
    None
}

// ───────────────────── writing ─────────────────────

/// The digit for `d`.
fn digit_of(d: u64) -> (c: char)
    requires
        d < 16,
    ensures
        c == digit_char(d as int),
{
    if d < 10 {
        (48 + d as u8) as char
    } else {
        (87 + d as u8) as char
    }
}

/// Appends the numeral for `n` in base `base`.
fn push_numeral(s: &mut String, n: u64, base: u64)
    requires
        2 <= base <= 16,
    ensures
        final(s)@ == old(s)@ + numeral(n as nat, base as nat),
    decreases n,
{
    if n < base {
        s.push(digit_of(n));
    } else {
        assert(n / base < n) by (nonlinear_arith)
            requires
                n >= base,
                base >= 2,
        ;
        push_numeral(s, n / base, base);
        s.push(digit_of(n % base));
    }
    assert(s@ == old(s)@ + numeral(n as nat, base as nat));
}

/// Appends the decimal numeral for `n`.
pub fn push_decimal(s: &mut String, n: u64)
    ensures
        final(s)@ == old(s)@ + decimal(n as nat),
{
    push_numeral(s, n, 10);
}

/// Appends the decimal numeral for `n`, with a minus sign below zero.
pub fn push_signed(s: &mut String, n: i64)
    ensures
        final(s)@ == old(s)@ + signed_decimal(n as int),
{
    if n < 0 {
        s.push('-');
        push_numeral(s, (-(n as i128)) as u64, 10);
        assert(s@ == old(s)@ + signed_decimal(n as int));
    } else {
        push_numeral(s, n as u64, 10);
    }
}

/// Appends the hexadecimal numeral for `n`.
pub fn push_hex(s: &mut String, n: u64)
    ensures
        final(s)@ == old(s)@ + numeral(n as nat, 16),
{
    push_numeral(s, n, 16);
}

/// Appends `n` blanks.
fn push_blanks(s: &mut String, n: usize)
    ensures
        final(s)@ == old(s)@ + blanks(n as nat),
{
    let mut i: usize = 0;
    assert(s@ == old(s)@ + blanks(0));
    while i < n
        invariant
            i <= n,
            s@ == old(s)@ + blanks(i as nat),
        decreases n - i,
    {
        s.push(' ');
        i += 1;
        assert(blanks((i - 1) as nat).push(' ') == blanks(i as nat));
        assert(s@ == old(s)@ + blanks(i as nat));
    }
}

/// Appends `t` with blanks behind it up to a width of `width`.
pub fn push_padded(s: &mut String, t: &str, width: usize)
    ensures
        final(s)@ == old(s)@ + padded(t@, width as nat),
{
    let n: usize = t.unicode_len();
    s.append(t);
    if n < width {
        push_blanks(s, width - n);
        assert(s@ == old(s)@ + padded(t@, width as nat));
    }
}

/// Appends `t` with blanks before it up to a width of `width`.
pub fn push_right_aligned(s: &mut String, t: &str, width: usize)
    ensures
        final(s)@ == old(s)@ + right_aligned(t@, width as nat),
{
    let n: usize = t.unicode_len();
    if n < width {
        push_blanks(s, width - n);
    }
    s.append(t);
    assert(s@ == old(s)@ + right_aligned(t@, width as nat));
}

// ───────────────────── laws ─────────────────────

/// The number that the digit `c` stands for.
pub open spec fn digit_value(c: char) -> int {
    if '0' <= c <= '9' {
        c as int - '0' as int
    } else {
        10 + (c as int - 'a' as int)
    }
}

/// The number that a numeral of base `base` stands for.
pub open spec fn numeral_value(s: Seq<char>, base: nat) -> int
    decreases s.len(),
{
    if s.len() == 0 {
        0
    } else {
        numeral_value(s.drop_last(), base) * base + digit_value(s.last())
    }
}

/// A numeral reads back as its number. It is made of digits of the base alone, and of no
/// more than it takes: only zero starts with a zero.
pub proof fn law_numerals_read_back(n: nat, base: nat)
    requires
        2 <= base <= 16,
    ensures
        numeral_value(numeral(n, base), base) == n,
        numeral(n, base).len() > 0,
        n > 0 ==> numeral(n, base)[0] != '0',
        forall|i: int|
            0 <= i < numeral(n, base).len() ==> {
                let c = #[trigger] numeral(n, base)[i];
                ('0' <= c <= '9' || 'a' <= c <= 'f') && digit_value(c) < base
            },
    decreases n,
{
    let s = numeral(n, base);
    if n < base {
        assert(s == seq![digit_char(n as int)]);
        assert(s.drop_last() == Seq::<char>::empty());
        assert(numeral_value(s.drop_last(), base) == 0);
    } else {
        assert(n / base < n && n / base > 0) by (nonlinear_arith)
            requires
                n >= base >= 2,
        ;
        let head = numeral(n / base, base);
        law_numerals_read_back(n / base, base);
        assert(s.drop_last() == head);
        vstd::arithmetic::div_mod::lemma_fundamental_div_mod(n as int, base as int);
        assert((n / base) * base == base * (n / base)) by (nonlinear_arith);
        assert(s[0] == head[0]);
        assert forall|i: int| 0 <= i < s.len() implies {
            let c = #[trigger] s[i];
            ('0' <= c <= '9' || 'a' <= c <= 'f') && digit_value(c) < base
        } by {
            if i < head.len() {
                assert(s[i] == head[i]);
            }
        }
    }
}

/// A number below zero has a minus sign before the numeral of its size, and no other has.
pub proof fn law_signs_go_before_numbers(n: int)
    ensures
        signed_decimal(n).len() > 0,
        signed_decimal(n)[0] == '-' <==> n < 0,
        n < 0 ==> numeral_value(signed_decimal(n).drop_first(), 10) == -n,
        n >= 0 ==> numeral_value(signed_decimal(n), 10) == n,
{
    if n < 0 {
        law_numerals_read_back((-n) as nat, 10);
        assert(signed_decimal(n).drop_first() == decimal((-n) as nat));
    } else {
        law_numerals_read_back(n as nat, 10);
        assert(signed_decimal(n)[0] == numeral(n as nat, 10)[0]);
    }
}

/// Lower case takes the capital letters of ASCII to their small ones, and leaves all else
/// as it is, in its place. Two texts that differ in the case of letters alone come out the
/// same.
pub proof fn law_lower_case_folds_letters(s: Seq<char>, i: int)
    requires
        0 <= i < s.len(),
    ensures
        lower(s).len() == s.len(),
        'A' <= s[i] <= 'Z' ==> lower(s)[i] as int == s[i] as int + ('a' as int - 'A' as int),
        !('A' <= s[i] <= 'Z') ==> lower(s)[i] == s[i],
        lower(lower(s)) == lower(s),
{
    assert(lower(lower(s)) =~= lower(s));
}

/// Padding keeps the text and fills the width: nothing but blanks joins it, behind it or
/// before it, and a text that is wide enough gets none.
pub proof fn law_padding_fills_the_width(s: Seq<char>, width: nat)
    ensures
        s.is_prefix_of(padded(s, width)),
        s.is_suffix_of(right_aligned(s, width)),
        padded(s, width).len() == (if s.len() < width {
            width
        } else {
            s.len()
        }),
        right_aligned(s, width).len() == padded(s, width).len(),
        forall|i: int| s.len() <= i < padded(s, width).len() ==> padded(s, width)[i] == ' ',
        forall|i: int|
            0 <= i < right_aligned(s, width).len() - s.len() ==> right_aligned(s, width)[i] == ' ',
{
    let p = padded(s, width);
    let r = right_aligned(s, width);
    assert(s =~= p.subrange(0, s.len() as int));
    assert(s =~= r.subrange(r.len() - s.len(), r.len() as int));
}

/// Cutting before a mark takes the beginning, up to the first mark and no further.
pub proof fn law_cutting_stops_at_the_first_mark(s: Seq<char>, stop: char)
    ensures
        ({
            let head = before(s, stop);
            &&& head.is_prefix_of(s)
            &&& !head.contains(stop)
            &&& head.len() < s.len() ==> s[head.len() as int] == stop
        }),
    decreases s.len(),
{
    let head = before(s, stop);
    if s.len() > 0 && s[0] != stop {
        let rest = before(s.drop_first(), stop);
        law_cutting_stops_at_the_first_mark(s.drop_first(), stop);
        assert(rest =~= s.drop_first().subrange(0, rest.len() as int));
        assert forall|i: int| 0 <= i < head.len() implies head[i] == s[i] && head[i] != stop by {
            if i > 0 {
                assert(head[i] == rest[i - 1]);
                assert(rest.contains(rest[i - 1]));
                assert(rest[i - 1] == s.drop_first()[i - 1]);
            }
        }
        assert(head.len() <= s.len());
    }
    assert(head =~= s.subrange(0, head.len() as int));
}

/// Cutting at the last mark parts the text in two: what stands before the mark and what
/// stands behind it, which holds no mark. Without a mark all of it stands behind.
pub proof fn law_cutting_at_the_last_mark_parts_the_text(s: Seq<char>, mark: char)
    ensures
        !after_last(s, mark).contains(mark),
        before_last(s, mark) is Some <==> s.contains(mark),
        before_last(s, mark) matches Some(head) ==> s == head.push(mark) + after_last(s, mark),
        before_last(s, mark) is None ==> after_last(s, mark) == s,
    decreases s.len(),
{
    if s.len() > 0 {
        let front = s.drop_last();
        law_cutting_at_the_last_mark_parts_the_text(front, mark);
        assert(s =~= front.push(s.last()));
        if s.last() == mark {
            assert(s[s.len() - 1] == mark);
            assert(s =~= front.push(mark) + Seq::<char>::empty());
        } else {
            let tail = after_last(front, mark);
            assert forall|i: int| 0 <= i < tail.push(s.last()).len() implies tail.push(
                s.last(),
            )[i] != mark by {
                if i < tail.len() {
                    assert(tail.contains(tail[i]));
                }
            }
            if s.contains(mark) {
                let i = choose|i: int| 0 <= i < s.len() && s[i] == mark;
                assert(front[i] == mark);
            }
            if front.contains(mark) {
                let i = choose|i: int| 0 <= i < front.len() && front[i] == mark;
                assert(s[i] == mark);
            }
            if let Some(head) = before_last(s, mark) {
                assert(s =~= head.push(mark) + tail.push(s.last()));
            }
        }
    }
}

} // verus!
