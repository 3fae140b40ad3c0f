//! Character-level string utilities with exact specifications.

use vstd::prelude::*;
use vstd::std_specs::iter::IteratorSpec;

verus! {

broadcast use vstd::string::group_string_axioms;

/// The characters of `s`, in order.
pub fn chars_of(s: &str) -> (res: Vec<char>)
    ensures
        res@ == s@,
{
    let mut out: Vec<char> = Vec::new();
    for c in iter: s.chars()
        invariant
            iter.seq() == s@,
            out@ == iter.seq().take(iter.index() as int),
    {
        out.push(c);
    }
    out
}

/// `String::push`: appends one character.
#[verifier::external_body]
pub fn string_push(s: &mut String, c: char)
    ensures
        final(s)@ == old(s)@.push(c),
{
    s.push(c);
}

/// A `String` holding exactly the characters of `v`.
pub fn string_from_chars(v: &[char]) -> (res: String)
    ensures
        res@ == v@,
{
    let mut out = String::new();
    let n = v.len();
    for i in 0..n
        invariant
            n == v@.len(),
            out@ == v@.take(i as int),
    {
        string_push(&mut out, v[i]);
        assert(v@.take(i + 1) =~= v@.take(i as int).push(v@[i as int]));
    }
    assert(v@.take(n as int) =~= v@);
    out
}

/// Whether two character sequences are equal, element by element.
pub fn chars_eq(a: &[char], b: &[char]) -> (res: bool)
    ensures
        res == (a@ == b@),
{
    if a.len() != b.len() {
        return false;
    }
    let n = a.len();
    for i in 0..n
        invariant
            n == a@.len(),
            n == b@.len(),
            forall|j: int| 0 <= j < i ==> a@[j] == b@[j],
    {
        if a[i] != b[i] {
            return false;
        }
    }
    assert(a@ =~= b@);
    true
}

/// Whether two strings hold the same characters.
pub fn str_eq(a: &str, b: &str) -> (res: bool)
    ensures
        res == (a@ == b@),
{
    let ca = chars_of(a);
    let cb = chars_of(b);
    chars_eq(ca.as_slice(), cb.as_slice())
}

/// Whether `pat` occurs in `s` starting at position `i`.
pub open spec fn occurs_at(s: Seq<char>, pat: Seq<char>, i: int) -> bool {
    0 <= i && i + pat.len() <= s.len() && s.subrange(i, i + pat.len()) == pat
}

fn occurs_at_exec(s: &[char], pat: &[char], i: usize) -> (res: bool)
    requires
        i <= s@.len(),
    ensures
        res == occurs_at(s@, pat@, i as int),
{
    if pat.len() > s.len() - i {
        return false;
    }
    let m = pat.len();
    for k in 0..m
        invariant
            m == pat@.len(),
            i + m <= s@.len(),
            forall|j: int| 0 <= j < k ==> s@[i + j] == pat@[j],
    {
        assert(i + k < s@.len());
        assert(s@.len() == s.len());
        if s[i + k] != pat[k] {
            assert(s@.subrange(i as int, i + m)[k as int] != pat@[k as int]);
            return false;
        }
    }
    assert(s@.subrange(i as int, i + m) =~= pat@);
    true
}

/// Whether `s` begins with `prefix`.
pub fn starts_with(s: &str, prefix: &str) -> (res: bool)
    ensures
        res == prefix@.is_prefix_of(s@),
{
    let cs = chars_of(s);
    let cp = chars_of(prefix);
    let r = occurs_at_exec(cs.as_slice(), cp.as_slice(), 0);
    proof {
        if r {
            assert(cs@.subrange(0, cp@.len() as int) =~= cp@);
        } else if cp@.len() <= cs@.len() {
            assert(cs@.subrange(0, cp@.len() as int) != cp@);
        }
    }
    r
}

/// Whether `s` ends with `suffix`.
pub fn ends_with(s: &str, suffix: &str) -> (res: bool)
    ensures
        res == suffix@.is_suffix_of(s@),
{
    let cs = chars_of(s);
    let cp = chars_of(suffix);
    if cp.len() > cs.len() {
        return false;
    }
    let start = cs.len() - cp.len();
    occurs_at_exec(cs.as_slice(), cp.as_slice(), start)
}

/// Every non-overlapping occurrence of `pat` in `s`, found from left to
/// right, replaced by `rep` (the meaning of `str::replace` for a non-empty
/// pattern).
pub open spec fn replace_spec(s: Seq<char>, pat: Seq<char>, rep: Seq<char>) -> Seq<char>
    decreases s.len(),
{
    if s.len() == 0 || pat.len() == 0 {
        s
    } else if occurs_at(s, pat, 0) {
        rep + replace_spec(s.skip(pat.len() as int), pat, rep)
    } else {
        seq![s[0]] + replace_spec(s.skip(1), pat, rep)
    }
}

/// Replaces, from left to right, every non-overlapping occurrence of `pat`
/// in `s` by `rep`.
pub fn replace_all(s: &str, pat: &str, rep: &str) -> (res: String)
    requires
        pat@.len() > 0,
    ensures
        res@ == replace_spec(s@, pat@, rep@),
{
    let cs = chars_of(s);
    let cp = chars_of(pat);
    let cr = chars_of(rep);
    let n = cs.len();
    let mut out: Vec<char> = Vec::new();
    let mut i: usize = 0;
    assert(cs@.skip(0) =~= cs@);
    while i < n
        invariant
            n == cs@.len(),
            i <= n,
            cs@ == s@,
            cp@ == pat@,
            cr@ == rep@,
            pat@.len() > 0,
            out@ + replace_spec(cs@.skip(i as int), cp@, cr@) == replace_spec(cs@, cp@, cr@),
        decreases n - i,
    {
        let ghost rest = cs@.skip(i as int);
        if occurs_at_exec(cs.as_slice(), cp.as_slice(), i) {
            proof {
                assert(rest.subrange(0, cp@.len() as int) =~= cs@.subrange(i as int, i + cp@.len()));
                assert(rest.skip(cp@.len() as int) =~= cs@.skip(i + cp@.len()));
                assert(out@ + cr@ + replace_spec(cs@.skip(i + cp@.len()), cp@, cr@)
                    =~= out@ + (cr@ + replace_spec(cs@.skip(i + cp@.len()), cp@, cr@)));
            }
            let ghost base = out@;
            let m = cr.len();
            for k in 0..m
                invariant
                    m == cr@.len(),
                    out@ == base + cr@.take(k as int),
            {
                out.push(cr[k]);
                assert(base + cr@.take(k + 1) =~= (base + cr@.take(k as int)).push(cr@[k as int]));
            }
            assert(cr@.take(m as int) =~= cr@);
            i = i + cp.len();
        } else {
            proof {
                if cp@.len() <= rest.len() {
                    assert(rest.subrange(0, cp@.len() as int) =~= cs@.subrange(i as int, i + cp@.len()));
                }
                assert(rest.skip(1) =~= cs@.skip(i + 1));
            }
            out.push(cs[i]);
            i = i + 1;
        }
    }
    assert(cs@.skip(n as int) =~= Seq::<char>::empty());
    string_from_chars(out.as_slice())
}

/// Unicode `White_Space`, the set that `char::is_whitespace` tests.
pub open spec fn is_white_space(c: char) -> bool {
    let u = c as u32;
    ||| 9 <= u <= 13
    ||| u == 32
    ||| u == 0x85
    ||| u == 0xA0
    ||| u == 0x1680
    ||| 0x2000 <= u <= 0x200A
    ||| u == 0x2028
    ||| u == 0x2029
    ||| u == 0x202F
    ||| u == 0x205F
    ||| u == 0x3000
}

/// Whether `c` is Unicode white space.
pub fn is_white_space_char(c: char) -> (res: bool)
    ensures
        res == is_white_space(c),
{
    let u = c as u32;
    (9 <= u && u <= 13) || u == 32 || u == 0x85 || u == 0xA0 || u == 0x1680 || (0x2000 <= u && u
        <= 0x200A) || u == 0x2028 || u == 0x2029 || u == 0x202F || u == 0x205F || u == 0x3000
}

/// The pending word `cur` as a list of zero or one words.
pub open spec fn flush_word(cur: Seq<char>) -> Seq<Seq<char>> {
    if cur.len() == 0 {
        seq![]
    } else {
        seq![cur]
    }
}

/// The words of `s` when `cur` is the word being read just before `s`.
pub open spec fn words_from(s: Seq<char>, cur: Seq<char>) -> Seq<Seq<char>>
    decreases s.len(),
{
    if s.len() == 0 {
        flush_word(cur)
    } else if is_white_space(s[0]) {
        flush_word(cur) + words_from(s.drop_first(), seq![])
    } else {
        words_from(s.drop_first(), cur.push(s[0]))
    }
}

/// The maximal runs of non-white-space characters of `s`, in order.
pub open spec fn words(s: Seq<char>) -> Seq<Seq<char>> {
    words_from(s, seq![])
}

/// The views of a list of strings.
pub open spec fn views(v: Seq<String>) -> Seq<Seq<char>> {
    v.map_values(|x: String| x@)
}

/// Splits `s` into its words: the maximal non-empty runs of characters that
/// are not Unicode white space.
pub fn split_whitespace(s: &str) -> (res: Vec<String>)
    ensures
        views(res@) == words(s@),
{
    let cs = chars_of(s);
    let n = cs.len();
    let mut out: Vec<String> = Vec::new();
    let mut cur: Vec<char> = Vec::new();
    assert(cs@.skip(0) =~= cs@);
    assert(views(out@) =~= Seq::<Seq<char>>::empty());
    for i in 0..n
        invariant
            n == cs@.len(),
            cs@ == s@,
            views(out@) + words_from(cs@.skip(i as int), cur@) == words(s@),
    {
        let ghost rest = cs@.skip(i as int);
        assert(rest.drop_first() =~= cs@.skip(i + 1));
        let ghost old_views = views(out@);
        let c = cs[i];
        if is_white_space_char(c) {
            if cur.len() > 0 {
                let w = string_from_chars(cur.as_slice());
                out.push(w);
                assert(views(out@) =~= old_views.push(cur@));
                assert(old_views.push(cur@) + words_from(cs@.skip(i + 1), seq![]) =~= old_views
                    + flush_word(cur@) + words_from(cs@.skip(i + 1), seq![]));
            } else {
                assert(old_views + flush_word(cur@) =~= old_views);
            }
            cur = Vec::new();
            assert(cur@ =~= Seq::<char>::empty());
        } else {
            cur.push(c);
        }
    }
    assert(cs@.skip(n as int) =~= Seq::<char>::empty());
    let ghost old_views = views(out@);
    if cur.len() > 0 {
        let w = string_from_chars(cur.as_slice());
        out.push(w);
        assert(views(out@) =~= old_views.push(cur@));
    }
    out
}

/// `parts` joined with `sep` between consecutive parts.
pub open spec fn join_spec(parts: Seq<Seq<char>>, sep: Seq<char>) -> Seq<char>
    decreases parts.len(),
{
    if parts.len() == 0 {
        seq![]
    } else if parts.len() == 1 {
        parts[0]
    } else {
        join_spec(parts.drop_last(), sep) + sep + parts.last()
    }
}

/// Joins `parts` with `sep` between consecutive parts.
pub fn join(parts: &Vec<String>, sep: &str) -> (res: String)
    ensures
        res@ == join_spec(views(parts@), sep@),
{
    let mut out = String::new();
    let n = parts.len();
    for i in 0..n
        invariant
            n == parts@.len(),
            out@ == join_spec(views(parts@.take(i as int)), sep@),
    {
        let ghost prev = views(parts@.take(i as int));
        let ghost next = views(parts@.take(i + 1));
        assert(next.drop_last() =~= prev);
        assert(next.last() == parts@[i as int]@);
        if i > 0 {
            out.append(sep);
        } else {
            assert(out@ =~= Seq::<char>::empty());
        }
        out.append(parts[i].as_str());
        assert(i == 0 ==> out@ =~= next[0]);
    }
    assert(parts@.take(n as int) =~= parts@);
    out
}

/// The lower-case hexadecimal digit for `n` (below 16).
pub open spec fn hex_digit(n: int) -> char {
    if n < 10 {
        (48 + n) as char
    } else {
        (87 + n) as char
    }
}

/// Each byte as two lower-case hexadecimal digits, high nibble first.
pub open spec fn lower_hex(bytes: Seq<u8>) -> Seq<char>
    decreases bytes.len(),
{
    if bytes.len() == 0 {
        seq![]
    } else {
        seq![hex_digit(bytes[0] as int / 16), hex_digit(bytes[0] as int % 16)] + lower_hex(bytes.drop_first())
    }
}

fn hex_digit_exec(n: u8) -> (c: char)
    requires
        n < 16,
    ensures
        c == hex_digit(n as int),
{
    if n < 10 {
        (48 + n) as char
    } else {
        (87 + n) as char
    }
}

/// Appends the lower-case hexadecimal form of `bytes[start..end]` to `out`.
pub fn push_lower_hex(out: &mut Vec<char>, bytes: &[u8], start: usize, end: usize)
    requires
        start <= end <= bytes@.len(),
    ensures
        final(out)@ == old(out)@ + lower_hex(bytes@.subrange(start as int, end as int)),
{
    let ghost first = out@;
    let ghost part = bytes@.subrange(start as int, end as int);
    assert(part.skip(0) =~= part);
    for i in start..end
        invariant
            end <= bytes@.len(),
            part == bytes@.subrange(start as int, end as int),
            first + lower_hex(part) == out@ + lower_hex(part.skip(i - start)),
    {
        let b = bytes[i];
        let ghost before = out@;
        assert(part.skip(i - start).drop_first() =~= part.skip(i + 1 - start));
        assert(part.skip(i - start)[0] == b);
        out.push(hex_digit_exec(b / 16));
        out.push(hex_digit_exec(b % 16));
        assert(out@ + lower_hex(part.skip(i + 1 - start)) =~= before + lower_hex(
            part.skip(i - start),
        ));
    }
    assert(lower_hex(part.skip(end - start)) =~= Seq::<char>::empty());
}

// ---------------------------------------------------------------------------
// Laws

/// All words of `ws`, one after the other.
pub open spec fn concat_all(ws: Seq<Seq<char>>) -> Seq<char>
    decreases ws.len(),
{
    if ws.len() == 0 {
        seq![]
    } else {
        ws[0] + concat_all(ws.drop_first())
    }
}

/// `s` with its white space removed.
pub open spec fn strip_white(s: Seq<char>) -> Seq<char>
    decreases s.len(),
{
    if s.len() == 0 {
        seq![]
    } else if is_white_space(s[0]) {
        strip_white(s.drop_first())
    } else {
        seq![s[0]] + strip_white(s.drop_first())
    }
}

proof fn lemma_concat_all_append(a: Seq<Seq<char>>, b: Seq<Seq<char>>)
    ensures
        concat_all(a + b) == concat_all(a) + concat_all(b),
    decreases a.len(),
{
    if a.len() == 0 {
        assert(a + b =~= b);
    } else {
        assert((a + b).drop_first() =~= a.drop_first() + b);
        lemma_concat_all_append(a.drop_first(), b);
    }
}

proof fn lemma_words_from_clean(s: Seq<char>, cur: Seq<char>)
    requires
        forall|j: int| 0 <= j < cur.len() ==> !is_white_space(#[trigger] cur[j]),
    ensures
        forall|k: int|
            0 <= k < words_from(s, cur).len() ==> (#[trigger] words_from(s, cur)[k]).len() > 0
                && forall|j: int| 0 <= j < words_from(s, cur)[k].len() ==> !is_white_space(
                words_from(s, cur)[k][j],
            ),
        concat_all(words_from(s, cur)) == cur + strip_white(s),
    decreases s.len(),
{
    if s.len() == 0 {
        assert(cur + strip_white(s) =~= cur);
        if cur.len() > 0 {
            assert(concat_all(seq![cur]) =~= cur + concat_all(seq![cur].drop_first()));
            assert(seq![cur].drop_first() =~= Seq::<Seq<char>>::empty());
        }
    } else if is_white_space(s[0]) {
        lemma_words_from_clean(s.drop_first(), seq![]);
        let rest = words_from(s.drop_first(), seq![]);
        lemma_concat_all_append(flush_word(cur), rest);
        if cur.len() > 0 {
            assert(concat_all(seq![cur]) =~= cur + concat_all(seq![cur].drop_first()));
            assert(seq![cur].drop_first() =~= Seq::<Seq<char>>::empty());
        }
        assert(seq![] + strip_white(s.drop_first()) =~= strip_white(s.drop_first()));
        let all = flush_word(cur) + rest;
        assert forall|k: int| 0 <= k < all.len() implies (#[trigger] all[k]).len() > 0
            && forall|j: int| 0 <= j < all[k].len() ==> !is_white_space(all[k][j]) by {
            if k < flush_word(cur).len() {
                assert(all[k] == cur);
            } else {
                assert(all[k] == rest[k - flush_word(cur).len()]);
            }
        }
    } else {
        let c2 = cur.push(s[0]);
        assert forall|j: int| 0 <= j < c2.len() implies !is_white_space(#[trigger] c2[j]) by {
            if j < cur.len() {
                assert(c2[j] == cur[j]);
            }
        }
        lemma_words_from_clean(s.drop_first(), c2);
        assert(c2 + strip_white(s.drop_first()) =~= cur + (seq![s[0]] + strip_white(
            s.drop_first(),
        )));
    }
}

/// The words of a text are non-empty and hold no white space, and together
/// they are the text without its white space.
pub proof fn words_partition_text(s: Seq<char>)
    ensures
        forall|k: int|
            0 <= k < words(s).len() ==> (#[trigger] words(s)[k]).len() > 0 && forall|j: int|
                0 <= j < words(s)[k].len() ==> !is_white_space(words(s)[k][j]),
        concat_all(words(s)) == strip_white(s),
{
    lemma_words_from_clean(s, seq![]);
    assert(Seq::<char>::empty() + strip_white(s) =~= strip_white(s));
}

/// Replacing a pattern whose first character does not occur in the text
/// leaves the text unchanged.
pub proof fn replace_absent_pattern(s: Seq<char>, pat: Seq<char>, rep: Seq<char>)
    requires
        pat.len() > 0,
        !s.contains(pat[0]),
    ensures
        replace_spec(s, pat, rep) == s,
    decreases s.len(),
{
    if s.len() > 0 {
        assert(!occurs_at(s, pat, 0)) by {
            assert(s.contains(s[0]));
            if pat.len() <= s.len() {
                assert(s.subrange(0, pat.len() as int)[0] == s[0]);
            }
        }
        assert forall|c: char| s.skip(1).contains(c) implies s.contains(c) by {
            let i = choose|i: int| 0 <= i < s.skip(1).len() && s.skip(1)[i] == c;
            assert(s[i + 1] == c);
        }
        replace_absent_pattern(s.skip(1), pat, rep);
        assert(seq![s[0]] + s.skip(1) =~= s);
    }
}

/// Each byte becomes exactly two characters, each a lower-case
/// hexadecimal digit.
pub proof fn lower_hex_shape(bytes: Seq<u8>)
    ensures
        lower_hex(bytes).len() == 2 * bytes.len(),
        forall|i: int|
            0 <= i < lower_hex(bytes).len() ==> is_lower_hex_digit(#[trigger] lower_hex(bytes)[i]),
    decreases bytes.len(),
{
    if bytes.len() > 0 {
        lower_hex_shape(bytes.drop_first());
        let head = seq![hex_digit(bytes[0] as int / 16), hex_digit(bytes[0] as int % 16)];
        let rest = lower_hex(bytes.drop_first());
        assert forall|i: int| 0 <= i < lower_hex(bytes).len() implies is_lower_hex_digit(
            #[trigger] lower_hex(bytes)[i],
        ) by {
            if i >= 2 {
                assert(lower_hex(bytes)[i] == rest[i - 2]);
            }
        }
    }
}

/// Whether `c` is one of `0`-`9`, `a`-`f`.
pub open spec fn is_lower_hex_digit(c: char) -> bool {
    ('0' <= c <= '9') || ('a' <= c <= 'f')
}

} // verus!
