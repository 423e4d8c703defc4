//! Character-level text utilities shared by the transcript and LLM-response
//! cleaners: whitespace classification, trimming, word and line splitting,
//! joining, substring search and decimal formatting, each stated over `Seq<char>`.
use vstd::prelude::*;

verus! {

/// The Unicode `White_Space` property, the set that `char::is_whitespace`
/// (and therefore `str::trim` and `str::split_whitespace`) tests against.
pub open spec fn is_white_space(c: char) -> bool {
    let u = c as u32;
    ||| 0x09 <= u <= 0x0D
    ||| u == 0x20
    ||| u == 0x85
    ||| u == 0xA0
    ||| u == 0x1680
    ||| 0x2000 <= u <= 0x200A
    ||| u == 0x2028
    ||| u == 0x2029
    ||| u == 0x202F
    ||| u == 0x205F
    ||| u == 0x3000
}

/// Tests a character against the Unicode `White_Space` property.
pub fn is_whitespace_char(c: char) -> (res: bool)
    ensures
        res == is_white_space(c),
{
    let u = c as u32;
    (0x09 <= u && u <= 0x0D) || u == 0x20 || u == 0x85 || u == 0xA0 || u == 0x1680 || (0x2000
        <= u && u <= 0x200A) || u == 0x2028 || u == 0x2029 || u == 0x202F || u == 0x205F || u
        == 0x3000
}

/// Copies the characters of a string slice into a vector.
pub fn chars_of(s: &str) -> (res: Vec<char>)
    ensures
        res@ == s@,
{
    let mut res: Vec<char> = Vec::new();
    for c in it: s.chars()
        invariant
            res@ == it.seq().take(it.index() as int),
    {
        res.push(c);
    }
    res
}

/// Builds a `String` from characters (`FromIterator<char>` for `String`,
/// which appends every character in order).
#[verifier::external_body]
pub fn string_from_chars(v: &Vec<char>) -> (res: String)
    ensures
        res@ == v@,
{
    v.iter().collect()
}

// ---------------------------------------------------------------------------
// Trimming
// ---------------------------------------------------------------------------
/// `s` without its leading white space.
pub open spec fn trim_start(s: Seq<char>) -> Seq<char>
    decreases s.len(),
{
    if s.len() > 0 && is_white_space(s[0]) {
        trim_start(s.drop_first())
    } else {
        s
    }
}

/// `s` without its trailing white space.
pub open spec fn trim_end(s: Seq<char>) -> Seq<char>
    decreases s.len(),
{
    if s.len() > 0 && is_white_space(s.last()) {
        trim_end(s.drop_last())
    } else {
        s
    }
}

/// `s` without leading and trailing white space (`str::trim`).
pub open spec fn trim(s: Seq<char>) -> Seq<char> {
    trim_end(trim_start(s))
}

/// A trimmed sequence neither starts nor ends with white space.
pub proof fn lemma_trim_start_shape(s: Seq<char>)
    ensures
        trim_start(s).len() > 0 ==> !is_white_space(trim_start(s)[0]),
        trim_start(s).len() <= s.len(),
        trim_start(s) == s.subrange(s.len() - trim_start(s).len(), s.len() as int),
    decreases s.len(),
{
    if s.len() > 0 && is_white_space(s[0]) {
        lemma_trim_start_shape(s.drop_first());
        assert(s.drop_first().subrange(
            s.drop_first().len() - trim_start(s).len(),
            s.drop_first().len() as int,
        ) =~= s.subrange(s.len() - trim_start(s).len(), s.len() as int));
    } else {
        assert(s.subrange(0, s.len() as int) =~= s);
    }
}

pub proof fn lemma_trim_end_shape(s: Seq<char>)
    ensures
        trim_end(s).len() > 0 ==> !is_white_space(trim_end(s).last()),
        trim_end(s).len() <= s.len(),
        trim_end(s) == s.subrange(0, trim_end(s).len() as int),
        trim_end(s).len() > 0 && trim_start(s).len() > 0 ==> trim_start(trim_end(s)).len() > 0,
    decreases s.len(),
{
    if s.len() > 0 && is_white_space(s.last()) {
        lemma_trim_end_shape(s.drop_last());
        assert(s.drop_last().subrange(0, trim_end(s).len() as int) =~= s.subrange(
            0,
            trim_end(s).len() as int,
        ));
    } else {
        assert(s.subrange(0, s.len() as int) =~= s);
    }
    lemma_trim_start_nonempty(trim_end(s));
}

/// `trim_start` keeps a sequence that has a character that is not white space non-empty.
pub proof fn lemma_trim_start_nonempty(s: Seq<char>)
    ensures
        trim_start(s).len() > 0 <==> exists|i: int| 0 <= i < s.len() && !is_white_space(s[i]),
    decreases s.len(),
{
    if s.len() > 0 && is_white_space(s[0]) {
        lemma_trim_start_nonempty(s.drop_first());
        if exists|i: int| 0 <= i < s.len() && !is_white_space(s[i]) {
            let i = choose|i: int| 0 <= i < s.len() && !is_white_space(s[i]);
            assert(!is_white_space(s.drop_first()[i - 1]));
        }
        if exists|i: int| 0 <= i < s.drop_first().len() && !is_white_space(s.drop_first()[i]) {
            let i = choose|i: int|
                0 <= i < s.drop_first().len() && !is_white_space(s.drop_first()[i]);
            assert(!is_white_space(s[i + 1]));
        }
    } else if s.len() > 0 {
        assert(!is_white_space(s[0]));
    }
}

/// Removes leading and trailing white space, as `str::trim` does.
pub fn trim_chars(s: &Vec<char>) -> (res: Vec<char>)
    ensures
        res@ == trim(s@),
{
    let n = s.len();
    let mut i: usize = 0;
    assert(s@.subrange(0, n as int) =~= s@);
    while i < n && is_whitespace_char(s[i])
        invariant
            i <= n == s@.len(),
            trim_start(s@) == trim_start(s@.subrange(i as int, n as int)),
        decreases n - i,
    {
        assert(s@.subrange(i as int, n as int).drop_first() =~= s@.subrange(i + 1, n as int));
        i = i + 1;
    }
    assert(trim_start(s@) == s@.subrange(i as int, n as int));
    let mut j: usize = n;
    while j > i && is_whitespace_char(s[j - 1])
        invariant
            i <= j <= n == s@.len(),
            trim_end(s@.subrange(i as int, n as int)) == trim_end(s@.subrange(i as int, j as int)),
        decreases j - i,
    {
        assert(s@.subrange(i as int, j as int).drop_last() =~= s@.subrange(i as int, j - 1));
        j = j - 1;
    }
    let mut res: Vec<char> = Vec::new();
    let mut k: usize = i;
    while k < j
        invariant
            i <= k <= j <= n == s@.len(),
            res@ == s@.subrange(i as int, k as int),
        decreases j - k,
    {
        res.push(s[k]);
        assert(res@ =~= s@.subrange(i as int, k + 1));
        k = k + 1;
    }
    res
}

// ---------------------------------------------------------------------------
// Words and joining
// ---------------------------------------------------------------------------
/// The maximal runs of characters that are not white space, in order
/// (`str::split_whitespace`).
pub open spec fn words(s: Seq<char>) -> Seq<Seq<char>>
    decreases s.len(),
{
    if s.len() == 0 {
        seq![]
    } else {
        let w = words(s.drop_last());
        let c = s.last();
        if is_white_space(c) {
            w
        } else if s.len() >= 2 && !is_white_space(s[s.len() - 2]) {
            w.update(w.len() - 1, w.last().push(c))
        } else {
            w.push(seq![c])
        }
    }
}

/// The pieces joined, with `sep` between consecutive pieces (`[T]::join`).
pub open spec fn join_with(ws: Seq<Seq<char>>, sep: Seq<char>) -> Seq<char>
    decreases ws.len(),
{
    if ws.len() == 0 {
        seq![]
    } else if ws.len() == 1 {
        ws[0]
    } else {
        join_with(ws.drop_last(), sep) + sep + ws.last()
    }
}

/// The words of `s` separated by single spaces.
pub open spec fn collapse_white_space(s: Seq<char>) -> Seq<char> {
    join_with(words(s), seq![' '])
}

/// Every word is non-empty and holds no white space; a sequence that ends in
/// a character that is not white space has a word.
pub proof fn lemma_words_shape(s: Seq<char>)
    ensures
        forall|k: int| 0 <= k < words(s).len() ==> #[trigger] words(s)[k].len() > 0,
        forall|k: int, m: int|
            0 <= k < words(s).len() && 0 <= m < words(s)[k].len() ==> !is_white_space(
                #[trigger] words(s)[k][m],
            ),
        s.len() > 0 && !is_white_space(s.last()) ==> words(s).len() > 0,
        words(s).len() == 0 <==> (forall|i: int| 0 <= i < s.len() ==> is_white_space(s[i])),
    decreases s.len(),
{
    if s.len() > 0 {
        let t = s.drop_last();
        lemma_words_shape(t);
        let w = words(t);
        let c = s.last();
        if is_white_space(c) {
            if words(s).len() == 0 {
                assert forall|i: int| 0 <= i < s.len() implies is_white_space(s[i]) by {
                    if i < s.len() - 1 {
                        assert(s[i] == t[i]);
                    }
                }
            }
            if forall|i: int| 0 <= i < s.len() ==> is_white_space(s[i]) {
                assert forall|i: int| 0 <= i < t.len() implies is_white_space(t[i]) by {
                    assert(t[i] == s[i]);
                }
            }
        } else if s.len() >= 2 && !is_white_space(s[s.len() - 2]) {
            assert(t.last() == s[s.len() - 2]);
            assert(w.len() > 0);
            let w2 = words(s);
            assert forall|k: int, m: int|
                0 <= k < w2.len() && 0 <= m < w2[k].len() implies !is_white_space(
                #[trigger] w2[k][m],
            ) by {
                if k < w.len() - 1 {
                    assert(w2[k] == w[k]);
                } else {
                    assert(w2[k] == w.last().push(c));
                    if m < w.last().len() {
                        assert(w2[k][m] == w[w.len() - 1][m]);
                    }
                }
            }
            assert(!is_white_space(s[s.len() - 1]));
        } else {
            let w2 = words(s);
            assert forall|k: int, m: int|
                0 <= k < w2.len() && 0 <= m < w2[k].len() implies !is_white_space(
                #[trigger] w2[k][m],
            ) by {
                if k < w.len() {
                    assert(w2[k] == w[k]);
                }
            }
            assert(!is_white_space(s[s.len() - 1]));
        }
    }
}

/// Appending a character to the last piece appends it to the joined text.
pub proof fn lemma_join_extend_last(ws: Seq<Seq<char>>, sep: Seq<char>, c: char)
    requires
        ws.len() > 0,
    ensures
        join_with(ws.update(ws.len() - 1, ws.last().push(c)), sep) == join_with(ws, sep).push(c),
{
    let w2 = ws.update(ws.len() - 1, ws.last().push(c));
    if ws.len() > 1 {
        assert(w2.drop_last() =~= ws.drop_last());
        assert(join_with(w2, sep) =~= join_with(ws, sep).push(c));
    }
}

/// Appending a piece to a non-empty list appends the separator and the piece.
pub proof fn lemma_join_push(ws: Seq<Seq<char>>, sep: Seq<char>, p: Seq<char>)
    ensures
        ws.len() > 0 ==> join_with(ws.push(p), sep) == join_with(ws, sep) + sep + p,
        ws.len() == 0 ==> join_with(ws.push(p), sep) == p,
{
    assert(ws.push(p).drop_last() =~= ws);
}

/// The joined text is empty exactly when there are no pieces, provided no piece is empty.
pub proof fn lemma_join_empty(ws: Seq<Seq<char>>, sep: Seq<char>)
    requires
        forall|k: int| 0 <= k < ws.len() ==> #[trigger] ws[k].len() > 0,
    ensures
        join_with(ws, sep).len() == 0 <==> ws.len() == 0,
    decreases ws.len(),
{
    if ws.len() > 1 {
        lemma_join_empty(ws.drop_last(), sep);
        assert(ws.last().len() > 0);
    } else if ws.len() == 1 {
        assert(ws[0].len() > 0);
    }
}

/// Replaces every run of white space by one space and drops the white space
/// at both ends: the words of `s` joined by single spaces.
pub fn collapse_whitespace_chars(s: &Vec<char>) -> (res: Vec<char>)
    ensures
        res@ == collapse_white_space(s@),
{
    let n = s.len();
    let mut out: Vec<char> = Vec::new();
    let mut pending = false;
    let mut i: usize = 0;
    while i < n
        invariant
            i <= n == s@.len(),
            out@ == join_with(words(s@.take(i as int)), seq![' ']),
            pending == (words(s@.take(i as int)).len() > 0 && i > 0 && is_white_space(
                s@[i - 1],
            )),
        decreases n - i,
    {
        let ghost t = s@.take(i as int);
        let ghost t2 = s@.take(i + 1);
        assert(t2.drop_last() =~= t);
        assert(t2.last() == s@[i as int]);
        proof {
            lemma_words_shape(t);
            lemma_join_empty(words(t), seq![' ']);
        }
        let c = s[i];
        if is_whitespace_char(c) {
            if out.len() > 0 {
                pending = true;
            }
        } else {
            if i > 0 && !is_whitespace_char(s[i - 1]) {
                assert(t.last() == s@[i - 1]);
                assert(t2[t2.len() - 2] == s@[i - 1]);
                proof {
                    lemma_join_extend_last(words(t), seq![' '], c);
                }
                out.push(c);
            } else {
                proof {
                    lemma_join_push(words(t), seq![' '], seq![c]);
                }
                if pending {
                    out.push(' ');
                    pending = false;
                }
                out.push(c);
                assert(out@ =~= join_with(words(t2), seq![' ']));
            }
        }
        i = i + 1;
    }
    assert(s@.take(n as int) =~= s@);
    out
}

// ---------------------------------------------------------------------------
// Lines
// ---------------------------------------------------------------------------
/// The pieces of `s` between `'\n'` characters (one more piece than there are newlines).
pub open spec fn split_newlines(s: Seq<char>) -> Seq<Seq<char>>
    decreases s.len(),
{
    if s.len() == 0 {
        seq![seq![]]
    } else {
        let r = split_newlines(s.drop_last());
        if s.last() == '\n' {
            r.push(seq![])
        } else {
            r.update(r.len() - 1, r.last().push(s.last()))
        }
    }
}

/// A line without the `'\r'` of a `"\r\n"` line ending.
pub open spec fn strip_cr(p: Seq<char>) -> Seq<char> {
    if p.len() > 0 && p.last() == '\r' {
        p.drop_last()
    } else {
        p
    }
}

/// The lines of `s` as `str::lines` yields them: split at `'\n'`, a line that
/// ends in `"\r\n"` loses the `'\r'`, and no empty line follows a final line ending.
pub open spec fn lines(s: Seq<char>) -> Seq<Seq<char>> {
    let r = split_newlines(s);
    let ended = r.drop_last().map_values(|p: Seq<char>| strip_cr(p));
    if r.last().len() == 0 {
        ended
    } else {
        ended.push(r.last())
    }
}

/// The views of a vector of character vectors.
pub open spec fn views(v: Seq<Vec<char>>) -> Seq<Seq<char>> {
    v.map_values(|x: Vec<char>| x@)
}

/// Splits a text into its lines, as `str::lines` does.
pub fn lines_of(s: &Vec<char>) -> (res: Vec<Vec<char>>)
    ensures
        views(res@) == lines(s@),
{
    let n = s.len();
    let mut done: Vec<Vec<char>> = Vec::new();
    let mut cur: Vec<char> = Vec::new();
    let mut i: usize = 0;
    while i < n
        invariant
            i <= n == s@.len(),
            split_newlines(s@.take(i as int)).len() > 0,
            views(done@) == split_newlines(s@.take(i as int)).drop_last().map_values(
                |p: Seq<char>| strip_cr(p),
            ),
            cur@ == split_newlines(s@.take(i as int)).last(),
        decreases n - i,
    {
        let ghost t = s@.take(i as int);
        let ghost r = split_newlines(t);
        assert(s@.take(i + 1).drop_last() =~= t);
        let c = s[i];
        if c == '\n' {
            let ghost old_done = views(done@);
            let line = strip_cr_chars(cur);
            done.push(line);
            cur = Vec::new();
            assert(views(done@) =~= old_done.push(strip_cr(r.last())));
            assert(split_newlines(s@.take(i + 1)).drop_last() =~= r);
            assert(r =~= r.drop_last().push(r.last()));
            assert(views(done@) =~= split_newlines(s@.take(i + 1)).drop_last().map_values(
                |p: Seq<char>| strip_cr(p),
            ));
        } else {
            cur.push(c);
            assert(split_newlines(s@.take(i + 1)).drop_last() =~= r.drop_last());
        }
        i = i + 1;
    }
    assert(s@.take(n as int) =~= s@);
    if cur.len() > 0 {
        let ghost old_done = views(done@);
        done.push(cur);
        assert(views(done@) =~= old_done.push(split_newlines(s@).last()));
    }
    done
}

/// Drops the `'\r'` that ends a line, if there is one.
pub fn strip_cr_chars(p: Vec<char>) -> (res: Vec<char>)
    ensures
        res@ == strip_cr(p@),
{
    let mut p = p;
    if p.len() > 0 && p[p.len() - 1] == '\r' {
        p.pop();
    }
    p
}

/// Joins `v[lo..hi]` with `sep` between consecutive pieces.
pub fn join_range(v: &Vec<Vec<char>>, lo: usize, hi: usize, sep: &Vec<char>) -> (res: Vec<char>)
    requires
        lo <= hi <= v@.len(),
    ensures
        res@ == join_with(views(v@).subrange(lo as int, hi as int), sep@),
{
    let mut out: Vec<char> = Vec::new();
    let mut k: usize = lo;
    while k < hi
        invariant
            lo <= k <= hi <= v@.len(),
            out@ == join_with(views(v@).subrange(lo as int, k as int), sep@),
        decreases hi - k,
    {
        let ghost before = views(v@).subrange(lo as int, k as int);
        proof {
            lemma_join_push(before, sep@, v@[k as int]@);
        }
        assert(views(v@).subrange(lo as int, k + 1) =~= before.push(v@[k as int]@));
        if k > lo {
            append_chars(&mut out, sep);
        }
        append_chars(&mut out, &v[k]);
        k = k + 1;
    }
    out
}

/// Appends the characters of `b` to `a`.
pub fn append_chars(a: &mut Vec<char>, b: &Vec<char>)
    ensures
        final(a)@ == old(a)@ + b@,
{
    let mut k: usize = 0;
    while k < b.len()
        invariant
            k <= b@.len(),
            a@ == old(a)@ + b@.take(k as int),
        decreases b@.len() - k,
    {
        a.push(b[k]);
        assert(old(a)@ + b@.take(k + 1) =~= old(a)@ + b@.take(k as int) + seq![b@[k as int]]);
        k = k + 1;
    }
    assert(b@.take(b@.len() as int) =~= b@);
}

// ---------------------------------------------------------------------------
// Searching
// ---------------------------------------------------------------------------
/// `p` occurs in `s` as a contiguous piece (`str::contains` with a `&str` pattern).
pub open spec fn contains_seq(s: Seq<char>, p: Seq<char>) -> bool {
    exists|i: int| 0 <= i && i + p.len() <= s.len() && #[trigger] s.subrange(i, i + p.len()) == p
}

/// `s` begins with `p` (`str::starts_with`).
pub open spec fn starts_with(s: Seq<char>, p: Seq<char>) -> bool {
    p.len() <= s.len() && s.subrange(0, p.len() as int) == p
}

/// `s` ends with `p` (`str::ends_with`).
pub open spec fn ends_with(s: Seq<char>, p: Seq<char>) -> bool {
    p.len() <= s.len() && s.subrange(s.len() - p.len(), s.len() as int) == p
}

/// Tests whether `p` occurs in `s` at position `at`.
pub fn matches_at(s: &Vec<char>, p: &Vec<char>, at: usize) -> (res: bool)
    requires
        at <= s@.len(),
    ensures
        res == (at + p@.len() <= s@.len() && s@.subrange(at as int, at + p@.len()) == p@),
{
    if p.len() > s.len() - at {
        return false;
    }
    let mut k: usize = 0;
    while k < p.len()
        invariant
            k <= p@.len(),
            s.len() == s@.len(),
            at + p@.len() <= s@.len(),
            s@.subrange(at as int, at + k) == p@.take(k as int),
        decreases p@.len() - k,
    {
        if s[at + k] != p[k] {
            assert(s@.subrange(at as int, at + p@.len())[k as int] != p@[k as int]);
            return false;
        }
        assert(s@.subrange(at as int, at + k + 1) =~= p@.take(k + 1));
        k = k + 1;
    }
    assert(p@.take(p@.len() as int) =~= p@);
    true
}

/// Tests whether `p` occurs in `s`.
pub fn contains_chars(s: &Vec<char>, p: &Vec<char>) -> (res: bool)
    ensures
        res == contains_seq(s@, p@),
{
    let mut at: usize = 0;
    while at <= s.len()
        invariant
            at <= s@.len() + 1,
            forall|i: int|
                0 <= i < at && i + p@.len() <= s@.len() ==> #[trigger] s@.subrange(
                    i,
                    i + p@.len(),
                ) != p@,
        decreases s@.len() + 1 - at,
    {
        if matches_at(s, p, at) {
            return true;
        }
        if at == s.len() {
            assert forall|i: int|
                0 <= i && i + p@.len() <= s@.len() implies #[trigger] s@.subrange(
                i,
                i + p@.len(),
            ) != p@ by {
                if i == at {
                }
            }
            return false;
        }
        at = at + 1;
    }
    false
}

/// Tests whether `s` begins with `p`.
pub fn starts_with_chars(s: &Vec<char>, p: &Vec<char>) -> (res: bool)
    ensures
        res == starts_with(s@, p@),
{
    matches_at(s, p, 0)
}

/// Tests whether `s` ends with `p`.
pub fn ends_with_chars(s: &Vec<char>, p: &Vec<char>) -> (res: bool)
    ensures
        res == ends_with(s@, p@),
{
    if p.len() > s.len() {
        false
    } else {
        matches_at(s, p, s.len() - p.len())
    }
}

// ---------------------------------------------------------------------------
// Decimal numbers
// ---------------------------------------------------------------------------
/// The decimal digit for `d < 10`.
pub open spec fn digit_char(d: nat) -> char {
    if d == 0 { '0' } else if d == 1 { '1' } else if d == 2 { '2' } else if d == 3 { '3' }
    else if d == 4 { '4' } else if d == 5 { '5' } else if d == 6 { '6' } else if d == 7 { '7' }
    else if d == 8 { '8' } else { '9' }
}

/// The decimal representation of `n`, without leading zeros (`u64` `Display`).
pub open spec fn decimal(n: nat) -> Seq<char>
    decreases n,
{
    if n < 10 {
        seq![digit_char(n)]
    } else {
        decimal(n / 10).push(digit_char(n % 10))
    }
}

fn digit_of(d: u64) -> (c: char)
    requires
        d < 10,
    ensures
        c == digit_char(d as nat),
{
    match d {
        0 => '0',
        1 => '1',
        2 => '2',
        3 => '3',
        4 => '4',
        5 => '5',
        6 => '6',
        7 => '7',
        8 => '8',
        _ => '9',
    }
}

/// Writes `n` in decimal.
pub fn decimal_chars(n: u64) -> (res: Vec<char>)
    ensures
        res@ == decimal(n as nat),
    decreases n,
{
    if n < 10 {
        let mut v: Vec<char> = Vec::new();
        v.push(digit_of(n));
        assert(v@ =~= seq![digit_char(n as nat)]);
        v
    } else {
        let mut v = decimal_chars(n / 10);
        v.push(digit_of(n % 10));
        v
    }
}

} // verus!
