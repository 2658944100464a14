//! Character-level text operations used by the booth: the models of the
//! standard string operations that the booth relies on (white space, `contains`,
//! `lines`, `split_whitespace`, `trim`, joining and decimal rendering), each
//! with an executable counterpart proved against its model.
use vstd::prelude::*;
use vstd::string::*;
use vstd::utf8::*;

verus! {

// ---------------------------------------------------------------------------
// Models
// ---------------------------------------------------------------------------

/// Unicode `White_Space`, the set that `char::is_whitespace` tests for.
pub open spec fn is_whitespace(c: char) -> bool {
    let u = c as u32;
    ||| (0x9 <= u && u <= 0xd)
    ||| u == 0x20
    ||| u == 0x85
    ||| u == 0xa0
    ||| u == 0x1680
    ||| (0x2000 <= u && u <= 0x200a)
    ||| u == 0x2028
    ||| u == 0x2029
    ||| u == 0x202f
    ||| u == 0x205f
    ||| u == 0x3000
}

/// `pat` occurs in `s` starting at position `i`.
pub open spec fn occurs_at(s: Seq<char>, pat: Seq<char>, i: int) -> bool {
    &&& 0 <= i
    &&& i + pat.len() <= s.len()
    &&& s.subrange(i, i + pat.len()) == pat
}

/// `pat` is a substring of `s` (what `str::contains` answers for a string pattern).
pub open spec fn contains(s: Seq<char>, pat: Seq<char>) -> bool {
    exists|i: int| occurs_at(s, pat, i)
}

/// The pieces of `s` between occurrences of `sep` (as `str::split` with a
/// character pattern gives them); there is always at least one piece.
pub open spec fn split_on(s: Seq<char>, sep: char) -> Seq<Seq<char>>
    decreases s.len(),
{
    if s.len() == 0 {
        seq![Seq::<char>::empty()]
    } else {
        let init = split_on(s.drop_last(), sep);
        if s.last() == sep {
            init.push(Seq::<char>::empty())
        } else {
            init.update(init.len() - 1, init.last().push(s.last()))
        }
    }
}

/// Removes one trailing carriage return.
pub open spec fn strip_cr(line: Seq<char>) -> Seq<char> {
    if line.len() > 0 && line.last() == '\r' {
        line.drop_last()
    } else {
        line
    }
}

/// Each piece without one trailing carriage return.
pub open spec fn strip_cr_all(parts: Seq<Seq<char>>) -> Seq<Seq<char>> {
    parts.map_values(|p: Seq<char>| strip_cr(p))
}

/// The lines of `s` as `str::lines` yields them: a line ends at `\n` or
/// `\r\n`, the final line ending is optional, and a final empty piece is
/// not a line.
pub open spec fn lines(s: Seq<char>) -> Seq<Seq<char>> {
    let parts = split_on(s, '\n');
    let ended = strip_cr_all(parts.drop_last());
    if parts.last().len() == 0 {
        ended
    } else {
        ended.push(parts.last())
    }
}

/// The maximal runs of non-white-space characters of `s`, in order (what
/// `str::split_whitespace` yields).
pub open spec fn words(s: Seq<char>) -> Seq<Seq<char>>
    decreases s.len(),
{
    if s.len() == 0 {
        Seq::<Seq<char>>::empty()
    } else {
        let prev = words(s.drop_last());
        let c = s.last();
        if is_whitespace(c) {
            prev
        } else if s.len() >= 2 && !is_whitespace(s[s.len() - 2]) {
            prev.update(prev.len() - 1, prev.last().push(c))
        } else {
            prev.push(seq![c])
        }
    }
}

/// `s` without its leading white space.
pub open spec fn trim_start(s: Seq<char>) -> Seq<char>
    decreases s.len(),
{
    if s.len() > 0 && is_whitespace(s[0]) {
        trim_start(s.drop_first())
    } else {
        s
    }
}

/// `s` without its trailing white space.
pub open spec fn trim_end(s: Seq<char>) -> Seq<char>
    decreases s.len(),
{
    if s.len() > 0 && is_whitespace(s.last()) {
        trim_end(s.drop_last())
    } else {
        s
    }
}

/// `s` without leading and trailing white space (what `str::trim` gives).
pub open spec fn trim(s: Seq<char>) -> Seq<char> {
    trim_end(trim_start(s))
}

/// The parts separated by `sep` (what `[String]::join` gives).
pub open spec fn join(parts: Seq<Seq<char>>, sep: Seq<char>) -> Seq<char>
    decreases parts.len(),
{
    if parts.len() == 0 {
        Seq::<char>::empty()
    } else if parts.len() == 1 {
        parts[0]
    } else {
        join(parts.drop_last(), sep) + sep + parts.last()
    }
}

/// The decimal digit for `d < 10`.
pub open spec fn digit_char(d: nat) -> char {
    if d == 0 {
        '0'
    } else if d == 1 {
        '1'
    } else if d == 2 {
        '2'
    } else if d == 3 {
        '3'
    } else if d == 4 {
        '4'
    } else if d == 5 {
        '5'
    } else if d == 6 {
        '6'
    } else if d == 7 {
        '7'
    } else if d == 8 {
        '8'
    } else {
        '9'
    }
}

/// The decimal rendering of `n`, without sign or leading zeros (what
/// `to_string` gives for an unsigned integer).
pub open spec fn decimal(n: nat) -> Seq<char>
    decreases n,
{
    if n < 10 {
        seq![digit_char(n)]
    } else {
        decimal(n / 10).push(digit_char(n % 10))
    }
}

/// A decimal rendering has one digit below ten and at least two from ten on.
proof fn lemma_decimal_len(n: nat)
    ensures
        n < 10 ==> decimal(n).len() == 1,
        n >= 10 ==> decimal(n).len() >= 2,
    decreases n,
{
    if n >= 10 {
        lemma_decimal_len(n / 10);
    }
}

/// Law: different numbers have different decimal renderings.
pub proof fn law_decimal_injective(a: nat, b: nat)
    ensures
        decimal(a) == decimal(b) ==> a == b,
    decreases a + b,
{
    lemma_decimal_len(a);
    lemma_decimal_len(b);
    if decimal(a) == decimal(b) && a >= 10 && b >= 10 {
        assert(decimal(a).last() == digit_char(a % 10));
        assert(decimal(b).last() == digit_char(b % 10));
        assert(decimal(a).drop_last() =~= decimal(a / 10));
        assert(decimal(b).drop_last() =~= decimal(b / 10));
        law_decimal_injective(a / 10, b / 10);
    } else if decimal(a) == decimal(b) && a < 10 && b < 10 {
        assert(decimal(a)[0] == digit_char(a));
        assert(decimal(b)[0] == digit_char(b));
    }
}

/// Law: texts that differ only in a number between the same prefix and
/// suffix carry the same number.
pub proof fn law_framed_decimal_injective(prefix: Seq<char>, suffix: Seq<char>, a: nat, b: nat)
    ensures
        prefix + decimal(a) + suffix == prefix + decimal(b) + suffix ==> a == b,
{
    if prefix + decimal(a) + suffix == prefix + decimal(b) + suffix {
        let ta = prefix + decimal(a) + suffix;
        let tb = prefix + decimal(b) + suffix;
        assert(ta.len() == prefix.len() + decimal(a).len() + suffix.len());
        assert(tb.len() == prefix.len() + decimal(b).len() + suffix.len());
        assert(decimal(a).len() == decimal(b).len());
        let lo = prefix.len() as int;
        let hi = lo + decimal(a).len();
        assert(ta.subrange(lo, hi) =~= decimal(a));
        assert(tb.subrange(lo, hi) =~= decimal(b));
        law_decimal_injective(a, b);
    }
}

/// `s` ends with `suffix` (what `str::ends_with` answers).
pub open spec fn ends_with(s: Seq<char>, suffix: Seq<char>) -> bool {
    s.len() >= suffix.len() && s.subrange(s.len() - suffix.len(), s.len() as int) == suffix
}

/// A text that holds no line break.
pub open spec fn no_newline(s: Seq<char>) -> bool {
    forall|i: int| 0 <= i < s.len() ==> s[i] != '\n'
}

/// The texts held by a sequence of strings.
pub open spec fn texts(v: Seq<String>) -> Seq<Seq<char>> {
    v.map_values(|x: String| x@)
}

/// The character sequences held by a sequence of character vectors.
pub open spec fn char_seqs(v: Seq<Vec<char>>) -> Seq<Seq<char>> {
    v.map_values(|x: Vec<char>| x@)
}

/// What `String::from_utf8_lossy` gives for `bytes`.
pub uninterp spec fn utf8_lossy_text(bytes: Seq<u8>) -> Seq<char>;

// ---------------------------------------------------------------------------
// Lemmas
// ---------------------------------------------------------------------------

/// There is always at least one piece.
pub proof fn lemma_split_on_nonempty(s: Seq<char>, sep: char)
    ensures
        split_on(s, sep).len() >= 1,
    decreases s.len(),
{
    if s.len() > 0 {
        lemma_split_on_nonempty(s.drop_last(), sep);
    }
}

/// A text whose last character is not white space has at least one word.
proof fn lemma_words_nonempty(s: Seq<char>)
    requires
        s.len() > 0,
        !is_whitespace(s.last()),
    ensures
        words(s).len() > 0,
    decreases s.len(),
{
    if s.len() >= 2 && !is_whitespace(s[s.len() - 2]) {
        lemma_words_nonempty(s.drop_last());
    }
}

/// Dropping `i` leading white-space characters does not change `trim_start`.
proof fn lemma_trim_start_skip(s: Seq<char>, i: int)
    requires
        0 <= i <= s.len(),
        forall|k: int| 0 <= k < i ==> is_whitespace(s[k]),
    ensures
        trim_start(s) == trim_start(s.subrange(i, s.len() as int)),
    decreases i,
{
    if i > 0 {
        assert(s.drop_first().subrange(i - 1, s.drop_first().len() as int) =~= s.subrange(
            i,
            s.len() as int,
        ));
        lemma_trim_start_skip(s.drop_first(), i - 1);
    } else {
        assert(s.subrange(0, s.len() as int) =~= s);
    }
}

/// Dropping `i` trailing white-space characters does not change `trim_end`.
proof fn lemma_trim_end_skip(s: Seq<char>, j: int)
    requires
        0 <= j <= s.len(),
        forall|k: int| j <= k < s.len() ==> is_whitespace(s[k]),
    ensures
        trim_end(s) == trim_end(s.subrange(0, j)),
    decreases s.len() - j,
{
    if j < s.len() {
        assert(s.drop_last().subrange(0, j) =~= s.subrange(0, j));
        lemma_trim_end_skip(s.drop_last(), j);
    } else {
        assert(s.subrange(0, j) =~= s);
    }
}

/// `c` does not occur in `s`.
pub open spec fn lacks(s: Seq<char>, c: char) -> bool {
    forall|i: int| 0 <= i < s.len() ==> s[i] != c
}

/// Splitting after a separator starts a new piece that holds the rest.
proof fn lemma_split_after_sep(x: Seq<char>, sep: char, b: Seq<char>)
    requires
        lacks(b, sep),
    ensures
        split_on(x.push(sep) + b, sep) == split_on(x, sep).push(b),
    decreases b.len(),
{
    if b.len() == 0 {
        assert(x.push(sep) + b =~= x.push(sep));
        assert(x.push(sep).drop_last() =~= x);
        assert(Seq::<char>::empty() =~= b);
    } else {
        let init = b.drop_last();
        assert forall|i: int| 0 <= i < init.len() implies init[i] != sep by {
            assert(init[i] == b[i]);
        }
        lemma_split_after_sep(x, sep, init);
        let whole = x.push(sep) + b;
        assert(whole.drop_last() =~= x.push(sep) + init);
        assert(whole.last() == b.last());
        assert(b[b.len() - 1] != sep);
        lemma_split_on_nonempty(x, sep);
        assert(split_on(x, sep).push(init).update(
            split_on(x, sep).push(init).len() - 1,
            init.push(b.last()),
        ) =~= split_on(x, sep).push(b)) by {
            assert(init.push(b.last()) =~= b);
        }
    }
}

/// A text without the separator is a single piece.
proof fn lemma_split_single(b: Seq<char>, sep: char)
    requires
        lacks(b, sep),
    ensures
        split_on(b, sep) == seq![b],
    decreases b.len(),
{
    if b.len() == 0 {
        assert(b =~= Seq::<char>::empty());
    } else {
        let init = b.drop_last();
        assert forall|i: int| 0 <= i < init.len() implies init[i] != sep by {
            assert(init[i] == b[i]);
        }
        lemma_split_single(init, sep);
        assert(b[b.len() - 1] != sep);
        assert(seq![init].update(0, init.push(b.last())) =~= seq![b]) by {
            assert(init.push(b.last()) =~= b);
        }
    }
}

/// Law: splitting parts that were joined with a one-character separator
/// gives the parts back, when there is at least one part and none holds the
/// separator.
pub proof fn law_split_undoes_join(parts: Seq<Seq<char>>, sep: char)
    requires
        parts.len() > 0,
        forall|i: int| 0 <= i < parts.len() ==> lacks(#[trigger] parts[i], sep),
    ensures
        split_on(join(parts, seq![sep]), sep) == parts,
    decreases parts.len(),
{
    if parts.len() == 1 {
        assert(lacks(parts[0], sep));
        lemma_split_single(parts[0], sep);
        assert(seq![parts[0]] =~= parts);
    } else {
        let init = parts.drop_last();
        assert forall|i: int| 0 <= i < init.len() implies lacks(#[trigger] init[i], sep) by {
            assert(init[i] == parts[i]);
        }
        law_split_undoes_join(init, sep);
        let j = join(init, seq![sep]);
        assert(j + seq![sep] + parts.last() =~= j.push(sep) + parts.last());
        assert(lacks(parts[parts.len() - 1], sep));
        lemma_split_after_sep(j, sep, parts.last());
        assert(init.push(parts.last()) =~= parts);
    }
}

/// Every character of `s` is white space.
pub open spec fn is_blank(s: Seq<char>) -> bool {
    forall|i: int| 0 <= i < s.len() ==> is_whitespace(#[trigger] s[i])
}

/// Trimming the start leaves nothing exactly when the text is blank.
proof fn lemma_trim_start_blank(s: Seq<char>)
    ensures
        (trim_start(s).len() == 0) == is_blank(s),
        trim_start(s).len() > 0 ==> !is_whitespace(trim_start(s)[0]),
    decreases s.len(),
{
    if s.len() > 0 && is_whitespace(s[0]) {
        lemma_trim_start_blank(s.drop_first());
        if is_blank(s.drop_first()) {
            assert forall|i: int| 0 <= i < s.len() implies is_whitespace(#[trigger] s[i]) by {
                if i > 0 {
                    assert(s[i] == s.drop_first()[i - 1]);
                }
            }
        } else {
            let k = choose|k: int| 0 <= k < s.drop_first().len() && !is_whitespace(
                #[trigger] s.drop_first()[k],
            );
            assert(s[k + 1] == s.drop_first()[k]);
        }
    } else if s.len() > 0 {
        assert(!is_whitespace(s[0]));
    }
}

/// Trimming the end of a text that starts with a non-white-space character
/// keeps that character.
proof fn lemma_trim_end_keeps_start(s: Seq<char>)
    requires
        s.len() > 0,
        !is_whitespace(s[0]),
    ensures
        trim_end(s).len() > 0,
    decreases s.len(),
{
    if is_whitespace(s.last()) {
        assert(s.len() > 1);
        assert(s.drop_last()[0] == s[0]);
        lemma_trim_end_keeps_start(s.drop_last());
    }
}

/// Law: trimming leaves nothing exactly when every character is white space.
pub proof fn law_trim_empty_iff_blank(s: Seq<char>)
    ensures
        (trim(s).len() == 0) == is_blank(s),
{
    lemma_trim_start_blank(s);
    if trim_start(s).len() > 0 {
        lemma_trim_end_keeps_start(trim_start(s));
    } else {
        assert(trim_start(s) =~= Seq::<char>::empty());
        assert(trim_end(Seq::<char>::empty()) =~= Seq::<char>::empty());
    }
}

// ---------------------------------------------------------------------------
// Calls into the standard library
// ---------------------------------------------------------------------------

/// `String::push`: appends one character to the string.
#[verifier::external_body]
pub(crate) fn push_char(s: &mut String, c: char)
    ensures
        final(s)@ == old(s)@.push(c),
{
    s.push(c);
}

/// `String::from_utf8_lossy`: decodes `bytes`, with U+FFFD for invalid
/// sequences. On valid UTF-8 the result is exactly the decoded text, as std
/// documents; on other input only the name is stated.
#[verifier::external_body]
pub(crate) fn utf8_lossy(bytes: &[u8]) -> (r: String)
    ensures
        r@ == utf8_lossy_text(bytes@),
        valid_utf8(bytes@) ==> r@ == decode_utf8(bytes@),
{
    String::from_utf8_lossy(bytes).into_owned()
}

// ---------------------------------------------------------------------------
// Executable operations
// ---------------------------------------------------------------------------

/// The characters of `s`.
pub fn chars_of(s: &str) -> (v: Vec<char>)
    ensures
        v@ == s@,
{
    broadcast use vstd::string::group_string_axioms;

    let mut v: Vec<char> = Vec::new();
    for c in it: s.chars()
        invariant
            v@ == it.seq().take(it.index() as int),
    {
        v.push(c);
    }
    v
}

/// The string made of the characters of `v`.
pub fn string_from_chars(v: &Vec<char>) -> (s: String)
    ensures
        s@ == v@,
{
    let mut s = String::new();
    let mut i: usize = 0;
    while i < v.len()
        invariant
            i <= v.len(),
            s@ == v@.take(i as int),
        decreases v.len() - i,
    {
        push_char(&mut s, v[i]);
        assert(v@.take(i + 1) =~= v@.take(i as int).push(v@[i as int]));
        i = i + 1;
    }
    assert(v@.take(v.len() as int) =~= v@);
    s
}

/// Copies `s` into a fresh `String`.
pub fn to_owned_string(s: &str) -> (r: String)
    ensures
        r@ == s@,
{
    let mut r = String::new();
    r.append(s);
    r
}

/// Answers `char::is_whitespace`.
pub fn char_is_whitespace(c: char) -> (b: bool)
    ensures
        b == is_whitespace(c),
{
    let u = c as u32;
    (0x9 <= u && u <= 0xd) || u == 0x20 || u == 0x85 || u == 0xa0 || u == 0x1680 || (0x2000 <= u
        && u <= 0x200a) || u == 0x2028 || u == 0x2029 || u == 0x202f || u == 0x205f || u == 0x3000
}

/// Whether `a` and `b` hold the same characters.
pub fn chars_equal(a: &Vec<char>, b: &Vec<char>) -> (r: bool)
    ensures
        r == (a@ == b@),
{
    if a.len() != b.len() {
        return false;
    }
    let mut i: usize = 0;
    while i < a.len()
        invariant
            i <= a.len(),
            a.len() == b.len(),
            forall|k: int| 0 <= k < i ==> a@[k] == b@[k],
        decreases a.len() - i,
    {
        if a[i] != b[i] {
            return false;
        }
        i = i + 1;
    }
    assert(a@ =~= b@);
    true
}

/// Whether `a` and `b` are the same text.
pub fn str_equal(a: &str, b: &str) -> (r: bool)
    ensures
        r == (a@ == b@),
{
    let va = chars_of(a);
    let vb = chars_of(b);
    chars_equal(&va, &vb)
}

/// Whether `pat` occurs in `s` at position `i`.
fn matches_at(s: &Vec<char>, pat: &Vec<char>, i: usize) -> (r: bool)
    requires
        i + pat.len() <= s.len(),
    ensures
        r == occurs_at(s@, pat@, i as int),
{
    let mut j: usize = 0;
    while j < pat.len()
        invariant
            j <= pat.len(),
            i + pat.len() <= s.len(),
            forall|m: int| 0 <= m < j ==> s@[i + m] == pat@[m],
        decreases pat.len() - j,
    {
        if s[i + j] != pat[j] {
            assert(s@.subrange(i as int, i + pat.len())[j as int] != pat@[j as int]);
            return false;
        }
        j = j + 1;
    }
    assert(s@.subrange(i as int, i + pat.len()) =~= pat@);
    true
}

/// Whether `pat` is a substring of `s`.
pub fn seq_contains(s: &Vec<char>, pat: &Vec<char>) -> (r: bool)
    ensures
        r == contains(s@, pat@),
{
    if pat.len() > s.len() {
        assert forall|i: int| !occurs_at(s@, pat@, i) by {}
        return false;
    }
    let last = s.len() - pat.len();
    let mut i: usize = 0;
    while i < last
        invariant
            last == s.len() - pat.len(),
            pat.len() <= s.len(),
            i <= last,
            forall|k: int| 0 <= k < i ==> !occurs_at(s@, pat@, k),
        decreases last - i,
    {
        if matches_at(s, pat, i) {
            return true;
        }
        i = i + 1;
    }
    if matches_at(s, pat, last) {
        return true;
    }
    assert forall|k: int| !occurs_at(s@, pat@, k) by {
        if k > last {
            assert(k + pat.len() > s.len());
        }
    }
    false
}

/// Whether `pat` is a substring of `s` (as `str::contains`).
pub fn str_contains(s: &str, pat: &str) -> (r: bool)
    ensures
        r == contains(s@, pat@),
{
    let vs = chars_of(s);
    let vp = chars_of(pat);
    seq_contains(&vs, &vp)
}

/// The pieces of `s` between occurrences of `sep`.
pub fn split_chars(s: &Vec<char>, sep: char) -> (r: Vec<Vec<char>>)
    ensures
        char_seqs(r@) == split_on(s@, sep),
{
    let mut parts: Vec<Vec<char>> = Vec::new();
    let mut cur: Vec<char> = Vec::new();
    let mut i: usize = 0;
    assert(s@.take(0) =~= Seq::<char>::empty());
    assert(char_seqs(parts@).push(cur@) =~= seq![Seq::<char>::empty()]);
    while i < s.len()
        invariant
            i <= s.len(),
            split_on(s@.take(i as int), sep) == char_seqs(parts@).push(cur@),
        decreases s.len() - i,
    {
        let c = s[i];
        let ghost before = s@.take(i as int);
        assert(s@.take(i + 1).drop_last() =~= before);
        assert(s@.take(i + 1).last() == c);
        if c == sep {
            let done = cur;
            parts.push(done);
            cur = Vec::new();
            assert(char_seqs(parts@).push(cur@) =~= split_on(before, sep).push(
                Seq::<char>::empty(),
            ));
        } else {
            cur.push(c);
            proof {
                lemma_split_on_nonempty(before, sep);
            }
            assert(char_seqs(parts@).push(cur@) =~= split_on(before, sep).update(
                split_on(before, sep).len() - 1,
                split_on(before, sep).last().push(c),
            ));
        }
        i = i + 1;
    }
    assert(s@.take(s.len() as int) =~= s@);
    let last = cur;
    parts.push(last);
    assert(char_seqs(parts@) =~= split_on(s@, sep));
    parts
}

/// A copy of `v`.
pub fn copy_chars(v: &Vec<char>) -> (r: Vec<char>)
    ensures
        r@ == v@,
{
    let mut r: Vec<char> = Vec::new();
    let mut i: usize = 0;
    while i < v.len()
        invariant
            i <= v.len(),
            r@ == v@.take(i as int),
        decreases v.len() - i,
    {
        r.push(v[i]);
        assert(v@.take(i + 1) =~= v@.take(i as int).push(v@[i as int]));
        i = i + 1;
    }
    assert(v@.take(v.len() as int) =~= v@);
    r
}

/// `line` without one trailing carriage return.
fn strip_cr_vec(line: Vec<char>) -> (r: Vec<char>)
    ensures
        r@ == strip_cr(line@),
{
    let mut line = line;
    if line.len() > 0 && line[line.len() - 1] == '\r' {
        line.pop();
    }
    line
}

/// The lines of `s` (as `str::lines`).
pub fn lines_of(s: &Vec<char>) -> (r: Vec<Vec<char>>)
    ensures
        char_seqs(r@) == lines(s@),
{
    let parts = split_chars(s, '\n');
    proof {
        lemma_split_on_nonempty(s@, '\n');
    }
    let ghost pv = split_on(s@, '\n');
    let n = parts.len();
    let mut out: Vec<Vec<char>> = Vec::new();
    let mut i: usize = 0;
    while i + 1 < n
        invariant
            n == parts.len(),
            n >= 1,
            char_seqs(parts@) == pv,
            i + 1 <= n,
            char_seqs(out@) == strip_cr_all(pv.take(i as int)),
        decreases n - i,
    {
        let line = copy_chars(&parts[i]);
        let stripped = strip_cr_vec(line);
        assert(parts@[i as int]@ == pv[i as int]);
        let ghost old_out = out@;
        out.push(stripped);
        assert(out@ == old_out.push(stripped));
        assert(pv.take(i + 1) =~= pv.take(i as int).push(pv[i as int]));
        assert(pv.len() == n);
        assert(pv.take(i as int).len() == i);
        assert(strip_cr_all(pv.take(i as int)).len() == i);
        assert(char_seqs(old_out).len() == old_out.len());
        assert(old_out.len() == i);
        assert(out@.len() == i + 1);
        assert(char_seqs(out@).len() == i + 1);
        assert(strip_cr_all(pv.take(i + 1)).len() == i + 1);
        assert(char_seqs(out@)[i as int] == stripped@);
        assert forall|k: int| 0 <= k < i + 1 implies char_seqs(out@)[k] == strip_cr_all(
            pv.take(i + 1),
        )[k] by {
            if k < i {
                assert(char_seqs(old_out)[k] == strip_cr_all(pv.take(i as int))[k]);
            }
        }
        assert(char_seqs(out@) =~= strip_cr_all(pv.take(i + 1)));
        i = i + 1;
    }
    assert(pv.take(i as int) =~= pv.drop_last());
    let last = copy_chars(&parts[n - 1]);
    assert(last@ == pv.last());
    if last.len() > 0 {
        out.push(last);
        assert(char_seqs(out@) =~= lines(s@));
    } else {
        assert(char_seqs(out@) =~= lines(s@));
    }
    out
}

/// The white-space separated words of `s` (as `str::split_whitespace`).
pub fn words_of(s: &Vec<char>) -> (r: Vec<Vec<char>>)
    ensures
        char_seqs(r@) == words(s@),
{
    let mut done: Vec<Vec<char>> = Vec::new();
    let mut cur: Vec<char> = Vec::new();
    let mut i: usize = 0;
    assert(s@.take(0) =~= Seq::<char>::empty());
    while i < s.len()
        invariant
            i <= s.len(),
            cur@.len() > 0 ==> i > 0 && !is_whitespace(s@[i - 1]),
            i > 0 && !is_whitespace(s@[i - 1]) ==> cur@.len() > 0,
            words(s@.take(i as int)) == (if cur@.len() > 0 {
                char_seqs(done@).push(cur@)
            } else {
                char_seqs(done@)
            }),
        decreases s.len() - i,
    {
        let c = s[i];
        let ghost before = s@.take(i as int);
        let ghost after = s@.take(i + 1);
        assert(after.drop_last() =~= before);
        assert(after.last() == c);
        if char_is_whitespace(c) {
            if cur.len() > 0 {
                let w = cur;
                done.push(w);
                cur = Vec::new();
                assert(char_seqs(done@) =~= words(before));
            }
        } else {
            if cur.len() > 0 {
                assert(after[after.len() - 2] == s@[i - 1]);
                proof {
                    lemma_words_nonempty(before);
                }
                cur.push(c);
                assert(char_seqs(done@).push(cur@) =~= words(before).update(
                    words(before).len() - 1,
                    words(before).last().push(c),
                ));
            } else {
                assert(i > 0 ==> after[after.len() - 2] == s@[i - 1]);
                cur.push(c);
                assert(cur@ =~= seq![c]);
                assert(char_seqs(done@).push(cur@) =~= words(before).push(seq![c]));
            }
        }
        i = i + 1;
    }
    assert(s@.take(s.len() as int) =~= s@);
    if cur.len() > 0 {
        let w = cur;
        done.push(w);
    }
    assert(char_seqs(done@) =~= words(s@));
    done
}

/// `s` without leading and trailing white space (as `str::trim`).
pub fn trim_chars(s: &Vec<char>) -> (r: Vec<char>)
    ensures
        r@ == trim(s@),
{
    let mut i: usize = 0;
    while i < s.len() && char_is_whitespace(s[i])
        invariant
            i <= s.len(),
            forall|k: int| 0 <= k < i ==> is_whitespace(s@[k]),
        decreases s.len() - i,
    {
        i = i + 1;
    }
    proof {
        lemma_trim_start_skip(s@, i as int);
    }
    let ghost rest = s@.subrange(i as int, s.len() as int);
    assert(trim_start(rest) == rest);
    let mut j: usize = s.len();
    while j > i && char_is_whitespace(s[j - 1])
        invariant
            i <= j <= s.len(),
            forall|k: int| j <= k < s.len() ==> is_whitespace(s@[k]),
        decreases j,
    {
        j = j - 1;
    }
    proof {
        lemma_trim_end_skip(rest, j - i);
        assert(rest.subrange(0, j - i) =~= s@.subrange(i as int, j as int));
    }
    let ghost kept = s@.subrange(i as int, j as int);
    assert(trim_end(kept) == kept);
    let mut r: Vec<char> = Vec::new();
    let mut k: usize = i;
    while k < j
        invariant
            i <= k <= j,
            j <= s.len(),
            r@ == s@.subrange(i as int, k as int),
        decreases j - k,
    {
        r.push(s[k]);
        assert(s@.subrange(i as int, k + 1) =~= s@.subrange(i as int, k as int).push(s@[k as int]));
        k = k + 1;
    }
    r
}

/// The parts joined with `sep` between them (as `[String]::join`).
pub fn join_strings(parts: &Vec<String>, sep: &str) -> (r: String)
    ensures
        r@ == join(texts(parts@), sep@),
{
    let mut r = String::new();
    let mut i: usize = 0;
    while i < parts.len()
        invariant
            i <= parts.len(),
            r@ == join(texts(parts@).take(i as int), sep@),
        decreases parts.len() - i,
    {
        let ghost prev = texts(parts@).take(i as int);
        let ghost next = texts(parts@).take(i + 1);
        assert(next.drop_last() =~= prev);
        if i > 0 {
            r.append(sep);
        }
        r.append(parts[i].as_str());
        assert(next.last() == parts@[i as int]@);
        if i == 0 {
            assert(r@ =~= join(next, sep@));
        }
        i = i + 1;
    }
    assert(texts(parts@).take(parts.len() as int) =~= texts(parts@));
    r
}

/// Whether `s` ends with `suffix` (as `str::ends_with`).
pub fn str_ends_with(s: &str, suffix: &str) -> (r: bool)
    ensures
        r == ends_with(s@, suffix@),
{
    let vs = chars_of(s);
    let vp = chars_of(suffix);
    if vp.len() > vs.len() {
        return false;
    }
    let start = vs.len() - vp.len();
    let mut j: usize = 0;
    while j < vp.len()
        invariant
            j <= vp.len(),
            start + vp.len() == vs.len(),
            vs@ == s@,
            vp@ == suffix@,
            forall|m: int| 0 <= m < j ==> vs@[start + m] == vp@[m],
        decreases vp.len() - j,
    {
        if vs[start + j] != vp[j] {
            assert(vs@.subrange(start as int, vs.len() as int)[j as int] == vs@[start + j]);
            assert(vs@.subrange(start as int, vs.len() as int) != vp@);
            return false;
        }
        j = j + 1;
    }
    assert(vs@.subrange(start as int, vs.len() as int) =~= vp@);
    true
}

/// Appends the decimal rendering of `n` to `s`.
pub fn push_decimal(s: &mut String, n: u64)
    ensures
        final(s)@ == old(s)@ + decimal(n as nat),
    decreases n,
{
    if n >= 10 {
        push_decimal(s, n / 10);
    }
    let d = n % 10;
    let c = if d == 0 {
        '0'
    } else if d == 1 {
        '1'
    } else if d == 2 {
        '2'
    } else if d == 3 {
        '3'
    } else if d == 4 {
        '4'
    } else if d == 5 {
        '5'
    } else if d == 6 {
        '6'
    } else if d == 7 {
        '7'
    } else if d == 8 {
        '8'
    } else {
        '9'
    };
    push_char(s, c);
}

/// The decimal rendering of `n` (as `u64::to_string`).
pub fn decimal_string(n: u64) -> (s: String)
    ensures
        s@ == decimal(n as nat),
{
    let mut s = String::new();
    push_decimal(&mut s, n);
    assert(s@ =~= decimal(n as nat));
    s
}

} // verus!
