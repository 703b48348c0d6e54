//! Reading the session token out of a cookie header.
//!
//! A cookie header is a list of `name=value` pairs separated by semicolons.
//! The header is cut at every semicolon, each piece is trimmed of surrounding
//! whitespace, and the first piece that begins with the wanted name and `=`
//! gives the value: what follows the `=`, up to the end of the trimmed piece.

use vstd::prelude::*;
use vstd::string::*;

use crate::text::characters;

verus! {

/// What separates the pairs of a cookie header.
pub const SEPARATOR: char = ';';

/// The characters with the Unicode property `White_Space`.
pub open spec fn is_whitespace(c: char) -> bool {
    let n = c as u32;
    ||| 0x09 <= n <= 0x0D
    ||| n == 0x20
    ||| n == 0x85
    ||| n == 0xA0
    ||| n == 0x1680
    ||| 0x2000 <= n <= 0x200A
    ||| n == 0x2028
    ||| n == 0x2029
    ||| n == 0x202F
    ||| n == 0x205F
    ||| n == 0x3000
}

/// `s` without its leading whitespace.
pub open spec fn trim_start(s: Seq<char>) -> Seq<char>
    decreases s.len(),
{
    if s.len() > 0 && is_whitespace(s.first()) {
        trim_start(s.drop_first())
    } else {
        s
    }
}

/// `s` without its trailing whitespace.
pub open spec fn trim_end(s: Seq<char>) -> Seq<char>
    decreases s.len(),
{
    if s.len() > 0 && is_whitespace(s.last()) {
        trim_end(s.drop_last())
    } else {
        s
    }
}

/// `s` without its leading and trailing whitespace.
pub open spec fn trim(s: Seq<char>) -> Seq<char> {
    trim_end(trim_start(s))
}

/// How many characters of `s` come before its first `sep`: all of them where
/// it holds none.
pub open spec fn run_length(s: Seq<char>, sep: char) -> nat
    decreases s.len(),
{
    if s.len() == 0 || s.first() == sep {
        0
    } else {
        1 + run_length(s.drop_first(), sep)
    }
}

/// The pieces that `s` falls into when it is cut at every `sep`. There is
/// always at least one piece, and one more than there are separators.
pub open spec fn split(s: Seq<char>, sep: char) -> Seq<Seq<char>>
    decreases s.len(),
{
    let n = run_length(s, sep);
    if n >= s.len() {
        seq![s]
    } else {
        seq![s.take(n as int)] + split(s.skip(n as int + 1), sep)
    }
}

/// What follows `prefix` in `s`, where `s` begins with it.
pub open spec fn strip_prefix(s: Seq<char>, prefix: Seq<char>) -> Option<Seq<char>> {
    if prefix.is_prefix_of(s) {
        Some(s.skip(prefix.len() as int))
    } else {
        None
    }
}

/// The value that the first of `pieces` to carry `prefix`, once trimmed,
/// gives.
pub open spec fn first_value(pieces: Seq<Seq<char>>, prefix: Seq<char>) -> Option<Seq<char>>
    decreases pieces.len(),
{
    if pieces.len() == 0 {
        None
    } else {
        match strip_prefix(trim(pieces.first()), prefix) {
            Some(value) => Some(value),
            None => first_value(pieces.drop_first(), prefix),
        }
    }
}

/// The value of the first pair in `cookies` whose trimmed text begins with
/// `prefix`.
pub open spec fn cookie_value(cookies: Seq<char>, prefix: Seq<char>) -> Option<Seq<char>> {
    first_value(split(cookies, SEPARATOR), prefix)
}

/// The session token that a cookie header carries: the value of its first
/// `token` pair.
pub open spec fn session_token(cookies: Seq<char>) -> Option<Seq<char>> {
    cookie_value(cookies, "token="@)
}

/// The text of an optional string slice.
pub open spec fn text_of(piece: Option<&str>) -> Option<Seq<char>> {
    match piece {
        Some(text) => Some(text@),
        None => None,
    }
}

/// The first `k` characters hold no separator, and either the text ends
/// there or a separator follows: then `k` is the run length.
proof fn lemma_run_length(s: Seq<char>, sep: char, k: int)
    requires
        0 <= k <= s.len(),
        forall|i: int| 0 <= i < k ==> s[i] != sep,
        k == s.len() || s[k] == sep,
    ensures
        run_length(s, sep) == k,
    decreases k,
{
    if k > 0 {
        let rest = s.drop_first();
        assert forall|i: int| 0 <= i < k - 1 implies rest[i] != sep by {
            assert(rest[i] == s[i + 1]);
        }
        lemma_run_length(rest, sep, k - 1);
    }
}

/// Leading whitespace up to `a`, and none at `a`: trimming the start leaves
/// what follows `a`.
proof fn lemma_trim_start(s: Seq<char>, a: int)
    requires
        0 <= a <= s.len(),
        forall|i: int| 0 <= i < a ==> is_whitespace(s[i]),
        a == s.len() || !is_whitespace(s[a]),
    ensures
        trim_start(s) == s.skip(a),
    decreases a,
{
    if a > 0 {
        let rest = s.drop_first();
        assert forall|i: int| 0 <= i < a - 1 implies is_whitespace(rest[i]) by {
            assert(rest[i] == s[i + 1]);
        }
        lemma_trim_start(rest, a - 1);
        assert(rest.skip(a - 1) =~= s.skip(a));
    } else {
        assert(s.skip(0) =~= s);
    }
}

/// Trailing whitespace from `b` on, and none just before `b`: trimming the end
/// leaves what precedes `b`.
proof fn lemma_trim_end(s: Seq<char>, b: int)
    requires
        0 <= b <= s.len(),
        forall|i: int| b <= i < s.len() ==> is_whitespace(s[i]),
        b == 0 || !is_whitespace(s[b - 1]),
    ensures
        trim_end(s) == s.take(b),
    decreases s.len() - b,
{
    if b < s.len() {
        let rest = s.drop_last();
        lemma_trim_end(rest, b);
        assert(rest.take(b) =~= s.take(b));
    } else {
        assert(s.take(b) =~= s);
    }
}

/// Between `a` and `b` lies what trimming leaves of the piece from `start` to
/// `end`.
proof fn lemma_trim_piece(s: Seq<char>, start: int, end: int, a: int, b: int)
    requires
        0 <= start <= a <= b <= end <= s.len(),
        forall|i: int| start <= i < a ==> is_whitespace(s[i]),
        a == end || !is_whitespace(s[a]),
        forall|i: int| b <= i < end ==> is_whitespace(s[i]),
        b == a || !is_whitespace(s[b - 1]),
    ensures
        trim(s.subrange(start, end)) == s.subrange(a, b),
{
    let piece = s.subrange(start, end);
    lemma_trim_start(piece, a - start);
    let tail = piece.skip(a - start);
    assert(tail =~= s.subrange(a, end));
    lemma_trim_end(tail, b - a);
    assert(tail.take(b - a) =~= s.subrange(a, b));
}

/// How the pieces of the text from `start` on begin: with the piece that ends
/// at `end`, followed, where a separator stands at `end`, by the pieces of
/// what comes after it.
proof fn lemma_split_step(s: Seq<char>, sep: char, start: int, end: int)
    requires
        0 <= start <= end <= s.len(),
        forall|i: int| start <= i < end ==> s[i] != sep,
        end == s.len() || s[end] == sep,
    ensures
        split(s.skip(start), sep).len() > 0,
        split(s.skip(start), sep).first() == s.subrange(start, end),
        end == s.len() ==> split(s.skip(start), sep).drop_first() == Seq::<Seq<char>>::empty(),
        end < s.len() ==> split(s.skip(start), sep).drop_first() == split(s.skip(end + 1), sep),
{
    let tail = s.skip(start);
    lemma_run_length(tail, sep, end - start);
    assert(tail.take(end - start) =~= s.subrange(start, end));
    if end == s.len() {
        assert(tail =~= s.subrange(start, end));
        assert(seq![tail].drop_first() =~= Seq::<Seq<char>>::empty());
    } else {
        assert(tail.skip(end - start + 1) =~= s.skip(end + 1));
        let head = seq![tail.take(end - start)];
        let rest = split(s.skip(end + 1), sep);
        assert((head + rest).drop_first() =~= rest);
    }
}

/// The run before the first separator lies within the text and holds no
/// separator; where it stops short of the end, a separator follows.
proof fn lemma_run_is_clean(s: Seq<char>, sep: char)
    ensures
        run_length(s, sep) <= s.len(),
        forall|i: int| 0 <= i < run_length(s, sep) ==> s[i] != sep,
        run_length(s, sep) < s.len() ==> s[run_length(s, sep) as int] == sep,
    decreases s.len(),
{
    if s.len() > 0 && s.first() != sep {
        let rest = s.drop_first();
        lemma_run_is_clean(rest, sep);
        assert forall|i: int| 0 <= i < run_length(s, sep) implies s[i] != sep by {
            if i > 0 {
                assert(s[i] == rest[i - 1]);
            }
        }
        if run_length(s, sep) < s.len() {
            assert(s[run_length(s, sep) as int] == rest[run_length(rest, sep) as int]);
        }
    }
}

/// Trimming keeps a stretch of the text: nothing is added or reordered.
proof fn lemma_trim_keeps_a_stretch(s: Seq<char>)
    ensures
        exists|a: int, b: int| 0 <= a <= b <= s.len() && trim(s) == #[trigger] s.subrange(a, b),
{
    lemma_trim_start_keeps_a_tail(s);
    let a = choose|a: int| 0 <= a <= s.len() && trim_start(s) == #[trigger] s.skip(a);
    let tail = s.skip(a);
    lemma_trim_end_keeps_a_head(tail);
    let n = choose|n: int| 0 <= n <= tail.len() && trim_end(tail) == #[trigger] tail.take(n);
    assert(tail.take(n) =~= s.subrange(a, a + n));
}

proof fn lemma_trim_start_keeps_a_tail(s: Seq<char>)
    ensures
        exists|a: int| 0 <= a <= s.len() && trim_start(s) == #[trigger] s.skip(a),
    decreases s.len(),
{
    if s.len() > 0 && is_whitespace(s.first()) {
        let rest = s.drop_first();
        lemma_trim_start_keeps_a_tail(rest);
        let a = choose|a: int| 0 <= a <= rest.len() && trim_start(rest) == #[trigger] rest.skip(a);
        assert(rest.skip(a) =~= s.skip(a + 1));
    } else {
        assert(s.skip(0) =~= s);
    }
}

proof fn lemma_trim_end_keeps_a_head(s: Seq<char>)
    ensures
        exists|n: int| 0 <= n <= s.len() && trim_end(s) == #[trigger] s.take(n),
    decreases s.len(),
{
    if s.len() > 0 && is_whitespace(s.last()) {
        let rest = s.drop_last();
        lemma_trim_end_keeps_a_head(rest);
        let n = choose|n: int| 0 <= n <= rest.len() && trim_end(rest) == #[trigger] rest.take(n);
        assert(rest.take(n) =~= s.take(n));
    } else {
        assert(s.take(s.len() as int) =~= s);
    }
}

/// Cutting a text at a separator leaves no separator in any piece.
pub proof fn split_pieces_hold_no_separator(s: Seq<char>, sep: char)
    ensures
        split(s, sep).len() >= 1,
        forall|i: int, k: int|
            0 <= i < split(s, sep).len() && 0 <= k < split(s, sep)[i].len() ==> #[trigger] split(
                s,
                sep,
            )[i][k] != sep,
    decreases s.len(),
{
    lemma_run_is_clean(s, sep);
    let n = run_length(s, sep) as int;
    if n < s.len() {
        let head = seq![s.take(n)];
        let rest = split(s.skip(n + 1), sep);
        split_pieces_hold_no_separator(s.skip(n + 1), sep);
        assert forall|i: int, k: int|
            0 <= i < split(s, sep).len() && 0 <= k < split(s, sep)[i].len() implies #[trigger] split(
            s,
            sep,
        )[i][k] != sep by {
            if i == 0 {
                assert((head + rest)[0] == s.take(n));
            } else {
                assert((head + rest)[i] == rest[i - 1]);
            }
        }
    }
}

/// The value is found in the first piece whose trimmed text begins with the
/// prefix, and there is none exactly when no piece does.
pub proof fn first_value_is_first_match(pieces: Seq<Seq<char>>, prefix: Seq<char>)
    ensures
        first_value(pieces, prefix) is None <==> forall|i: int|
            0 <= i < pieces.len() ==> !prefix.is_prefix_of(trim(#[trigger] pieces[i])),
        first_value(pieces, prefix) matches Some(value) ==> exists|i: int|
            0 <= i < pieces.len() && strip_prefix(trim(#[trigger] pieces[i]), prefix) == Some(value)
                && forall|j: int| 0 <= j < i ==> !prefix.is_prefix_of(trim(#[trigger] pieces[j])),
    decreases pieces.len(),
{
    if pieces.len() > 0 {
        let rest = pieces.drop_first();
        first_value_is_first_match(rest, prefix);
        if prefix.is_prefix_of(trim(pieces.first())) {
            assert(strip_prefix(trim(pieces[0]), prefix) == first_value(pieces, prefix));
        } else {
            assert forall|i: int| 0 <= i < rest.len() implies rest[i] == pieces[i + 1] by {}
            if first_value(pieces, prefix) is None {
                assert forall|i: int| 0 <= i < pieces.len() implies !prefix.is_prefix_of(
                    trim(#[trigger] pieces[i]),
                ) by {
                    if i > 0 {
                        assert(pieces[i] == rest[i - 1]);
                    }
                }
            } else {
                let value = first_value(pieces, prefix)->Some_0;
                let i = choose|i: int|
                    0 <= i < rest.len() && strip_prefix(trim(#[trigger] rest[i]), prefix) == Some(value)
                        && forall|j: int| 0 <= j < i ==> !prefix.is_prefix_of(trim(#[trigger] rest[j]));
                assert(pieces[i + 1] == rest[i]);
                assert forall|j: int| 0 <= j < i + 1 implies !prefix.is_prefix_of(
                    trim(#[trigger] pieces[j]),
                ) by {
                    if j > 0 {
                        assert(pieces[j] == rest[j - 1]);
                    }
                }
            }
        }
    }
}

/// The value of a cookie never holds a separator: it ends where its pair
/// ends.
pub proof fn cookie_value_holds_no_separator(cookies: Seq<char>, prefix: Seq<char>)
    ensures
        cookie_value(cookies, prefix) matches Some(value) ==> forall|k: int|
            0 <= k < value.len() ==> value[k] != SEPARATOR,
{
    if cookie_value(cookies, prefix) is Some {
        let value = cookie_value(cookies, prefix)->Some_0;
        let pieces = split(cookies, SEPARATOR);
        first_value_is_first_match(pieces, prefix);
        split_pieces_hold_no_separator(cookies, SEPARATOR);
        let i = choose|i: int|
            0 <= i < pieces.len() && strip_prefix(trim(#[trigger] pieces[i]), prefix) == Some(value);
        let piece = pieces[i];
        lemma_trim_keeps_a_stretch(piece);
        let (a, b) = choose|a: int, b: int|
            0 <= a <= b <= piece.len() && trim(piece) == #[trigger] piece.subrange(a, b);
        assert forall|k: int| 0 <= k < value.len() implies value[k] != SEPARATOR by {
            assert(value[k] == trim(piece)[k + prefix.len()]);
            assert(trim(piece)[k + prefix.len()] == piece[a + k + prefix.len()]);
            assert(pieces[i][a + k + prefix.len()] != SEPARATOR);
        }
    }
}

/// A `token` pair at the head of a cookie header is read back as it was
/// written, whatever follows it, as long as the token holds no separator and
/// does not end in whitespace.
pub proof fn token_pair_is_read_back(token: Seq<char>, rest: Seq<char>)
    requires
        forall|i: int| 0 <= i < token.len() ==> token[i] != SEPARATOR,
        token.len() == 0 || !is_whitespace(token.last()),
    ensures
        session_token("token="@ + token) == Some(token),
        session_token("token="@ + token + seq![SEPARATOR] + rest) == Some(token),
{
    reveal_strlit("token=");
    let name = "token="@;
    let pair = name + token;
    let end = pair.len() as int;
    assert(!is_whitespace(pair[0]));
    assert(!is_whitespace(pair[end - 1])) by {
        if token.len() > 0 {
            assert(pair[end - 1] == token.last());
        }
    }
    assert(name =~= pair.subrange(0, name.len() as int));
    assert(pair.skip(name.len() as int) =~= token);

    assert(pair.skip(0) =~= pair);
    assert(pair.subrange(0, end) =~= pair);
    lemma_split_step(pair, SEPARATOR, 0, end);
    lemma_trim_piece(pair, 0, end, 0, end);

    let longer = pair + seq![SEPARATOR] + rest;
    assert(longer.skip(0) =~= longer);
    assert(longer.subrange(0, end) =~= pair);
    lemma_split_step(longer, SEPARATOR, 0, end);
    lemma_trim_piece(longer, 0, end, 0, end);
}

/// Tells whether a character is whitespace.
pub fn char_is_whitespace(c: char) -> (r: bool)
    ensures
        r == is_whitespace(c),
{
    let n: u32 = c as u32;
    (0x09 <= n && n <= 0x0D) || n == 0x20 || n == 0x85 || n == 0xA0 || n == 0x1680 || (0x2000 <= n
        && n <= 0x200A) || n == 0x2028 || n == 0x2029 || n == 0x202F || n == 0x205F || n == 0x3000
}

/// Tells whether `prefix` stands in `text` at `at`, given that it fits before
/// `end`.
fn stands_at(text: &Vec<char>, at: usize, end: usize, prefix: &Vec<char>) -> (r: bool)
    requires
        at <= end <= text.len(),
    ensures
        r == prefix@.is_prefix_of(text@.subrange(at as int, end as int)),
{
    let ghost piece = text@.subrange(at as int, end as int);
    if prefix.len() > end - at {
        return false;
    }
    let mut i: usize = 0;
    while i < prefix.len()
        invariant
            at <= end <= text.len(),
            prefix.len() <= end - at,
            i <= prefix.len(),
            piece == text@.subrange(at as int, end as int),
            forall|k: int| 0 <= k < i ==> prefix@[k] == piece[k],
        decreases prefix.len() - i,
    {
        if text[at + i] != prefix[i] {
            assert(piece[i as int] != prefix@[i as int]);
            assert(piece.subrange(0, prefix@.len() as int)[i as int] == piece[i as int]);
            return false;
        }
        i += 1;
    }
    assert(prefix@ =~= piece.subrange(0, prefix@.len() as int));
    true
}

/// Finds the value of the first pair of a cookie header whose trimmed text
/// begins with `prefix`. The value is a piece of the header itself.
pub fn find_cookie<'a>(cookies: &'a str, prefix: &str) -> (r: Option<&'a str>)
    ensures
        text_of(r) == cookie_value(cookies@, prefix@),
{
    let text = characters(cookies);
    let wanted = characters(prefix);
    let n = text.len();
    let mut start: usize = 0;
    assert(text@.skip(0) =~= text@);
    loop
        invariant
            start <= n,
            n == text.len(),
            text@ == cookies@,
            wanted@ == prefix@,
            cookie_value(cookies@, prefix@) == first_value(
                split(text@.skip(start as int), SEPARATOR),
                prefix@,
            ),
        decreases n - start,
    {
        let mut end = start;
        while end < n && text[end] != SEPARATOR
            invariant
                start <= end <= n,
                n == text.len(),
                forall|i: int| start <= i < end ==> text@[i] != SEPARATOR,
            decreases n - end,
        {
            end += 1;
        }
        let mut a = start;
        while a < end && char_is_whitespace(text[a])
            invariant
                start <= a <= end <= n,
                n == text.len(),
                forall|i: int| start <= i < a ==> is_whitespace(text@[i]),
            decreases end - a,
        {
            a += 1;
        }
        let mut b = end;
        while b > a && char_is_whitespace(text[b - 1])
            invariant
                a <= b <= end <= n,
                n == text.len(),
                forall|i: int| b <= i < end ==> is_whitespace(text@[i]),
            decreases b,
        {
            b -= 1;
        }
        proof {
            lemma_split_step(text@, SEPARATOR, start as int, end as int);
            lemma_trim_piece(text@, start as int, end as int, a as int, b as int);
        }
        if stands_at(&text, a, b, &wanted) {
            let value = cookies.substring_char(a + wanted.len(), b);
            assert(value@ =~= text@.subrange(a as int, b as int).skip(wanted@.len() as int));
            return Some(value);
        }
        if end >= n {
            assert(first_value(Seq::<Seq<char>>::empty(), prefix@) is None);
            return None;
        }
        start = end + 1;
    }
}

/// Finds the session token in a cookie header.
pub fn extract_token<'a>(cookies: &'a str) -> (r: Option<&'a str>)
    ensures
        text_of(r) == session_token(cookies@),
{
    find_cookie(cookies, "token=")
}

} // verus!
