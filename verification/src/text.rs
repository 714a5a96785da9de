//! Text helpers with the meaning of the `str` operations they stand for:
//! Unicode white space, `trim`, `lines`, `split_whitespace` and `join`.

use vstd::prelude::*;

verus! {

broadcast use vstd::string::group_string_axioms;

/// The Unicode `White_Space` property, which `char::is_whitespace` tests.
pub open spec fn is_white_space(c: char) -> bool {
    let n = c as u32;
    ||| 0x9 <= n <= 0xd
    ||| n == 0x20
    ||| n == 0x85
    ||| n == 0xa0
    ||| n == 0x1680
    ||| 0x2000 <= n <= 0x200a
    ||| n == 0x2028
    ||| n == 0x2029
    ||| n == 0x202f
    ||| n == 0x205f
    ||| n == 0x3000
}

/// Executable test for `is_white_space`.
pub fn white_space(c: char) -> (r: bool)
    ensures
        r == is_white_space(c),
{
    let n = c as u32;
    (0x9 <= n && n <= 0xd) || n == 0x20 || n == 0x85 || n == 0xa0 || n == 0x1680 || (0x2000
        <= n && n <= 0x200a) || n == 0x2028 || n == 0x2029 || n == 0x202f || n == 0x205f || n
        == 0x3000
}

/// The characters of `s`, in order.
pub fn chars_of(s: &str) -> (v: Vec<char>)
    ensures
        v@ == s@,
{
    let mut v: Vec<char> = Vec::new();
    for c in it: s.chars()
        invariant
            it.seq() == s@,
            v@ == it.seq().take(it.index()),
    {
        v.push(c);
    }
    v
}

/// `s` without its leading white space (`str::trim_start`).
pub open spec fn trim_start(s: Seq<char>) -> Seq<char>
    decreases s.len(),
{
    if s.len() > 0 && is_white_space(s[0]) {
        trim_start(s.drop_first())
    } else {
        s
    }
}

/// `s` without its trailing white space (`str::trim_end`).
pub open spec fn trim_end(s: Seq<char>) -> Seq<char>
    decreases s.len(),
{
    if s.len() > 0 && is_white_space(s.last()) {
        trim_end(s.drop_last())
    } else {
        s
    }
}

/// `s` without leading and trailing white space (`str::trim`).
pub open spec fn trimmed(s: Seq<char>) -> Seq<char> {
    trim_end(trim_start(s))
}

/// `trim_start` leaves a text that is empty or starts with a character that is not
/// white space.
pub proof fn lemma_trim_start_shape(s: Seq<char>)
    ensures
        trim_start(s).len() == 0 || !is_white_space(trim_start(s)[0]),
    decreases s.len(),
{
    if s.len() > 0 && is_white_space(s[0]) {
        lemma_trim_start_shape(s.drop_first());
    }
}

/// `trim_end` keeps a prefix of the text, which is empty or ends with a character
/// that is not white space.
pub proof fn lemma_trim_end_shape(s: Seq<char>)
    ensures
        trim_end(s).len() <= s.len(),
        trim_end(s) == s.take(trim_end(s).len() as int),
        trim_end(s).len() == 0 || !is_white_space(trim_end(s).last()),
    decreases s.len(),
{
    if s.len() > 0 && is_white_space(s.last()) {
        lemma_trim_end_shape(s.drop_last());
        assert(s.drop_last().take(trim_end(s).len() as int) =~= s.take(trim_end(s).len() as int));
    } else {
        assert(s.take(s.len() as int) =~= s);
    }
}

/// A trimmed text is empty or starts and ends with characters that are not white space.
pub proof fn lemma_trimmed_shape(s: Seq<char>)
    ensures
        trimmed(s).len() == 0 || (!is_white_space(trimmed(s)[0]) && !is_white_space(
            trimmed(s).last(),
        )),
{
    lemma_trim_start_shape(s);
    lemma_trim_end_shape(trim_start(s));
    let t = trim_start(s);
    let u = trim_end(t);
    if u.len() > 0 {
        assert(u[0] == t[0]);
    }
}

/// A text that is empty or starts and ends with characters that are not white space is
/// its own trim.
pub proof fn lemma_trimmed_fixed(u: Seq<char>)
    requires
        u.len() == 0 || (!is_white_space(u[0]) && !is_white_space(u.last())),
    ensures
        trimmed(u) == u,
{
}

/// Returns `s` with its leading and trailing white space removed.
pub fn trim(s: &str) -> (r: String)
    ensures
        r@ == trimmed(s@),
{
    let v = chars_of(s);
    let n = v.len();
    let mut start: usize = 0;
    assert(s@.skip(0) =~= s@);
    while start < n && white_space(v[start])
        invariant
            v@ == s@,
            n == v@.len(),
            start <= n,
            trim_start(s@) == trim_start(s@.skip(start as int)),
        decreases n - start,
    {
        assert(s@.skip(start as int).drop_first() =~= s@.skip(start + 1));
        start = start + 1;
    }
    let ghost t = s@.skip(start as int);
    assert(trim_start(s@) == t) by {
        if start < n {
            assert(t[0] == s@[start as int]);
        }
    }
    let mut end: usize = n;
    while end > start && white_space(v[end - 1])
        invariant
            v@ == s@,
            n == v@.len(),
            start <= end <= n,
            t == s@.skip(start as int),
            trim_end(t) == trim_end(s@.subrange(start as int, end as int)),
        decreases end,
    {
        assert(s@.subrange(start as int, end as int).drop_last() =~= s@.subrange(
            start as int,
            end - 1,
        ));
        end = end - 1;
    }
    assert(t =~= s@.subrange(start as int, n as int));
    assert(trim_end(t) == s@.subrange(start as int, end as int)) by {
        let u = s@.subrange(start as int, end as int);
        if end > start {
            assert(u.last() == s@[end - 1]);
        }
    }
    String::from_str(s.substring_char(start, end))
}

/// Length of the first line of `s`: the characters before the first `'\n'`.
pub open spec fn line_len(s: Seq<char>) -> nat
    decreases s.len(),
{
    if s.len() > 0 && s[0] != '\n' {
        1 + line_len(s.drop_first())
    } else {
        0
    }
}

/// The lines of `s` as `str::lines` cuts them: the pieces between `'\n'` characters,
/// where a final `'\n'` does not open an empty last line. (`str::lines` also drops a
/// `'\r'` before each `'\n'`; every caller here trims the lines, which removes it too.)
pub open spec fn lines(s: Seq<char>) -> Seq<Seq<char>>
    decreases s.len(),
{
    if s.len() == 0 {
        seq![]
    } else {
        let k = line_len(s);
        if k < s.len() {
            seq![s.take(k as int)] + lines(s.skip(k as int + 1))
        } else {
            seq![s]
        }
    }
}

/// A prefix of `j` characters without `'\n'` adds `j` to the first line's length.
proof fn lemma_line_len_prefix(t: Seq<char>, j: int)
    requires
        0 <= j <= t.len(),
        forall|m: int| 0 <= m < j ==> t[m] != '\n',
    ensures
        line_len(t) == j + line_len(t.skip(j)),
    decreases j,
{
    if j == 0 {
        assert(t.skip(0) =~= t);
    } else {
        lemma_line_len_prefix(t.drop_first(), j - 1);
        assert(t.drop_first().skip(j - 1) =~= t.skip(j));
    }
}

/// The first line stops at the first `'\n'`, if there is one.
pub proof fn lemma_line_len_shape(s: Seq<char>)
    ensures
        line_len(s) <= s.len(),
        forall|m: int| 0 <= m < line_len(s) ==> s[m] != '\n',
        line_len(s) < s.len() ==> s[line_len(s) as int] == '\n',
    decreases s.len(),
{
    if s.len() > 0 && s[0] != '\n' {
        lemma_line_len_shape(s.drop_first());
        assert forall|m: int| 0 <= m < line_len(s) implies s[m] != '\n' by {
            if m > 0 {
                assert(s[m] == s.drop_first()[m - 1]);
            }
        }
    }
}

/// Joining two texts with a line break joins their lines, where an empty `a`, or an
/// `a` that ends with a line break, adds one empty line between them.
pub proof fn lemma_lines_join(a: Seq<char>, b: Seq<char>)
    ensures
        lines(a + seq!['\n'] + b) == lines(a) + (if a.len() == 0 || a.last() == '\n' {
            seq![Seq::<char>::empty()]
        } else {
            seq![]
        }) + lines(b),
    decreases a.len(),
{
    let c = a + seq!['\n'] + b;
    lemma_line_len_shape(a);
    let k = line_len(a);
    if k == a.len() {
        lemma_line_len_prefix(c, k as int);
        assert(c.skip(k as int)[0] == '\n');
        assert(c.take(k as int) =~= a);
        assert(c.skip(k as int + 1) =~= b);
        if a.len() > 0 {
            assert(a.last() != '\n');
        }
        assert(lines(c) == seq![a] + lines(b));
        if a.len() == 0 {
            assert(a =~= Seq::<char>::empty());
            assert(lines(c) =~= seq![Seq::<char>::empty()] + lines(b));
        } else {
            assert(lines(a) == seq![a]);
            assert(lines(c) =~= lines(a) + seq![] + lines(b));
        }
    } else {
        let rest = a.skip(k as int + 1);
        lemma_line_len_prefix(c, k as int);
        assert(c.skip(k as int)[0] == '\n');
        assert(c.take(k as int) =~= a.take(k as int));
        assert(c.skip(k as int + 1) =~= rest + seq!['\n'] + b);
        lemma_lines_join(rest, b);
        assert(lines(a) == seq![a.take(k as int)] + lines(rest));
        if rest.len() > 0 {
            assert(rest.last() == a.last());
        } else {
            assert(a.last() == '\n');
        }
        assert(lines(c) =~= lines(a) + (if a.len() == 0 || a.last() == '\n' {
            seq![Seq::<char>::empty()]
        } else {
            seq![]
        }) + lines(b));
    }
}

/// Splits `s` into its lines (see `lines`).
pub fn split_lines(s: &str) -> (r: Vec<String>)
    ensures
        r.deep_view() == lines(s@),
{
    let v = chars_of(s);
    let n = v.len();
    let mut out: Vec<String> = Vec::new();
    let mut start: usize = 0;
    let mut i: usize = 0;
    assert(s@.skip(0) =~= s@);
    while i < n
        invariant
            v@ == s@,
            n == v@.len(),
            start <= i <= n,
            forall|m: int| start <= m < i ==> s@[m] != '\n',
            lines(s@) == out.deep_view() + lines(s@.skip(start as int)),
        decreases n - i,
    {
        if v[i] == '\n' {
            let ghost t = s@.skip(start as int);
            proof {
                lemma_line_len_prefix(t, i - start);
                assert(t.skip(i - start)[0] == '\n');
                assert(t.take(i - start) =~= s@.subrange(start as int, i as int));
                assert(t.skip(i - start + 1) =~= s@.skip(i + 1));
            }
            let line = String::from_str(s.substring_char(start, i));
            let ghost before = out.deep_view();
            out.push(line);
            assert(out.deep_view() =~= before.push(s@.subrange(start as int, i as int)));
            start = i + 1;
        }
        i = i + 1;
    }
    let ghost t = s@.skip(start as int);
    proof {
        lemma_line_len_prefix(t, n - start);
        assert(t.skip(n - start) =~= Seq::<char>::empty());
    }
    if start < n {
        assert(t =~= s@.subrange(start as int, n as int));
        let line = String::from_str(s.substring_char(start, n));
        let ghost before = out.deep_view();
        out.push(line);
        assert(out.deep_view() =~= before.push(t));
    } else {
        assert(out.deep_view() =~= out.deep_view() + lines(t));
    }
    out
}

/// Length of the leading run of non-white-space characters of `s`.
pub open spec fn word_len(s: Seq<char>) -> nat
    decreases s.len(),
{
    if s.len() > 0 && !is_white_space(s[0]) {
        1 + word_len(s.drop_first())
    } else {
        0
    }
}

/// A prefix of `j` characters that are not white space adds `j` to the first word's
/// length.
proof fn lemma_word_len_prefix(t: Seq<char>, j: int)
    requires
        0 <= j <= t.len(),
        forall|m: int| 0 <= m < j ==> !is_white_space(t[m]),
    ensures
        word_len(t) == j + word_len(t.skip(j)),
    decreases j,
{
    if j == 0 {
        assert(t.skip(0) =~= t);
    } else {
        lemma_word_len_prefix(t.drop_first(), j - 1);
        assert(t.drop_first().skip(j - 1) =~= t.skip(j));
    }
}

/// A leading run of non-white-space characters is no longer than the text.
pub proof fn lemma_word_len_bound(s: Seq<char>)
    ensures
        word_len(s) <= s.len(),
    decreases s.len(),
{
    if s.len() > 0 && !is_white_space(s[0]) {
        lemma_word_len_bound(s.drop_first());
    }
}

/// The words of `s` as `str::split_whitespace` yields them: the maximal non-empty
/// runs of characters that are not white space, in order.
pub open spec fn words(s: Seq<char>) -> Seq<Seq<char>>
    decreases s.len(),
{
    if s.len() == 0 {
        seq![]
    } else if is_white_space(s[0]) {
        words(s.drop_first())
    } else {
        let k = word_len(s);
        proof {
            lemma_word_len_bound(s);
        }
        seq![s.take(k as int)] + words(s.skip(k as int))
    }
}

/// Splits `s` into its words (see `words`).
pub fn split_words(s: &str) -> (r: Vec<String>)
    ensures
        r.deep_view() == words(s@),
{
    let v = chars_of(s);
    let n = v.len();
    let mut out: Vec<String> = Vec::new();
    let mut i: usize = 0;
    assert(s@.skip(0) =~= s@);
    while i < n
        invariant
            v@ == s@,
            n == v@.len(),
            i <= n,
            words(s@) == out.deep_view() + words(s@.skip(i as int)),
        decreases n - i,
    {
        if white_space(v[i]) {
            assert(s@.skip(i as int).drop_first() =~= s@.skip(i + 1));
            i = i + 1;
        } else {
            let start = i;
            while i < n && !white_space(v[i])
                invariant
                    v@ == s@,
                    n == v@.len(),
                    start <= i <= n,
                    forall|m: int| start <= m < i ==> !is_white_space(s@[m]),
                decreases n - i,
            {
                i = i + 1;
            }
            let ghost t = s@.skip(start as int);
            proof {
                lemma_word_len_prefix(t, i - start);
                assert(t.skip(i - start) =~= s@.skip(i as int));
                assert(t[0] == s@[start as int]);
                assert(t.take(i - start) =~= s@.subrange(start as int, i as int));
            }
            let word = String::from_str(s.substring_char(start, i));
            let ghost before = out.deep_view();
            out.push(word);
            assert(out.deep_view() =~= before.push(s@.subrange(start as int, i as int)));
        }
    }
    assert(s@.skip(n as int) =~= Seq::<char>::empty());
    assert(out.deep_view() =~= out.deep_view() + words(s@.skip(n as int)));
    out
}

/// The pieces of `parts` with `sep` between each two neighbours (`[&str]::join`).
pub open spec fn join(parts: Seq<Seq<char>>, sep: Seq<char>) -> Seq<char>
    decreases parts.len(),
{
    if parts.len() == 0 {
        seq![]
    } else if parts.len() == 1 {
        parts[0]
    } else {
        join(parts.drop_last(), sep) + sep + parts.last()
    }
}

/// Joins `parts[from..to]` with `sep` between neighbours.
pub fn join_range(parts: &Vec<String>, from: usize, to: usize, sep: &str) -> (r: String)
    requires
        from <= to <= parts.len(),
    ensures
        r@ == join(parts.deep_view().subrange(from as int, to as int), sep@),
{
    let ghost dv = parts.deep_view();
    let mut res = String::new();
    let mut i = from;
    assert(dv.subrange(from as int, from as int) =~= Seq::<Seq<char>>::empty());
    while i < to
        invariant
            dv == parts.deep_view(),
            from <= i <= to <= parts.len(),
            res@ == join(dv.subrange(from as int, i as int), sep@),
        decreases to - i,
    {
        let ghost prev = dv.subrange(from as int, i as int);
        let ghost next = dv.subrange(from as int, i + 1);
        assert(next.drop_last() =~= prev);
        assert(next.last() == parts[i as int]@);
        if i > from {
            res.append(sep);
        } else {
            assert(next.len() == 1);
        }
        res.append(parts[i].as_str());
        i = i + 1;
    }
    res
}

/// `c` is an ASCII capital letter (`char::is_ascii_uppercase`).
pub open spec fn is_ascii_upper(c: char) -> bool {
    'A' as u32 <= c as u32 && c as u32 <= 'Z' as u32
}

/// `c` is an ASCII decimal digit (`char::is_ascii_digit`).
pub open spec fn is_ascii_digit(c: char) -> bool {
    '0' as u32 <= c as u32 && c as u32 <= '9' as u32
}

/// Every character of `s` is an ASCII capital letter.
pub open spec fn all_ascii_upper(s: Seq<char>) -> bool {
    forall|i: int| 0 <= i < s.len() ==> is_ascii_upper(#[trigger] s[i])
}

/// Every character of `s` is an ASCII decimal digit (true of the empty text).
pub open spec fn all_ascii_digits(s: Seq<char>) -> bool {
    forall|i: int| 0 <= i < s.len() ==> is_ascii_digit(#[trigger] s[i])
}

/// Tests `all_ascii_upper`.
pub fn only_ascii_upper(s: &str) -> (r: bool)
    ensures
        r == all_ascii_upper(s@),
{
    let v = chars_of(s);
    let mut i: usize = 0;
    while i < v.len()
        invariant
            v@ == s@,
            i <= v.len(),
            forall|j: int| 0 <= j < i ==> is_ascii_upper(#[trigger] s@[j]),
        decreases v.len() - i,
    {
        let n = v[i] as u32;
        if !('A' as u32 <= n && n <= 'Z' as u32) {
            return false;
        }
        i = i + 1;
    }
    true
}

/// Tests `all_ascii_digits`.
pub fn only_ascii_digits(s: &str) -> (r: bool)
    ensures
        r == all_ascii_digits(s@),
{
    let v = chars_of(s);
    let mut i: usize = 0;
    while i < v.len()
        invariant
            v@ == s@,
            i <= v.len(),
            forall|j: int| 0 <= j < i ==> is_ascii_digit(#[trigger] s@[j]),
        decreases v.len() - i,
    {
        let n = v[i] as u32;
        if !('0' as u32 <= n && n <= '9' as u32) {
            return false;
        }
        i = i + 1;
    }
    true
}

/// Tests whether `a` and `b` hold the same characters.
pub fn same_text(a: &str, b: &str) -> (r: bool)
    ensures
        r == (a@ == b@),
{
    let va = chars_of(a);
    let vb = chars_of(b);
    if va.len() != vb.len() {
        return false;
    }
    let mut i: usize = 0;
    while i < va.len()
        invariant
            va@ == a@,
            vb@ == b@,
            va.len() == vb.len(),
            i <= va.len(),
            forall|j: int| 0 <= j < i ==> a@[j] == b@[j],
        decreases va.len() - i,
    {
        if va[i] != vb[i] {
            return false;
        }
        i = i + 1;
    }
    assert(a@ =~= b@);
    true
}

/// `prefix` is where `s` starts (`str::starts_with`).
pub open spec fn has_prefix(s: Seq<char>, prefix: Seq<char>) -> bool {
    prefix.len() <= s.len() && s.take(prefix.len() as int) == prefix
}

/// Tests `has_prefix`.
pub fn starts_with(s: &str, prefix: &str) -> (r: bool)
    ensures
        r == has_prefix(s@, prefix@),
{
    let vs = chars_of(s);
    let vp = chars_of(prefix);
    if vp.len() > vs.len() {
        return false;
    }
    let mut i: usize = 0;
    while i < vp.len()
        invariant
            vs@ == s@,
            vp@ == prefix@,
            vp.len() <= vs.len(),
            i <= vp.len(),
            forall|j: int| 0 <= j < i ==> s@[j] == prefix@[j],
        decreases vp.len() - i,
    {
        if vs[i] != vp[i] {
            assert(s@.take(prefix@.len() as int)[i as int] != prefix@[i as int]);
            return false;
        }
        i = i + 1;
    }
    assert(s@.take(prefix@.len() as int) =~= prefix@);
    true
}

} // verus!
