//! Plain-text conversion: markup stripped, glyphs converted, accent runs
//! composed.

use vstd::prelude::*;

use crate::accent::{convert_accent, spec_convert_accent};
use crate::document::{extract_body_lines, spec_body_lines, views_of};
use crate::encoding::{decode_to_utf8, spec_decode};
use crate::gaiji::{convert_gaiji, spec_convert_gaiji};
use crate::strutil::{spec_lines, split_lines};
use crate::token::{tokens_model, Token, TokenM};
use crate::tokenizer::{spec_tokenize, tokenize};

verus! {

broadcast use crate::token::lemma_tokens_model;

/// The plain text of one token, with accent runs composed.
pub open spec fn spec_strip_token(t: TokenM) -> Seq<char>
    decreases t,
{
    match t {
        TokenM::Text(s) => s,
        TokenM::Ruby { .. } => Seq::empty(),
        TokenM::PrefixedRuby { base_children, .. } => spec_strip_tokens(base_children),
        TokenM::Command { .. } => Seq::empty(),
        TokenM::Gaiji { description } => spec_convert_gaiji(description),
        TokenM::Accent { children } => spec_convert_accent(spec_strip_tokens(children), 0),
    }
}

/// The plain text of a token list, with accent runs composed.
pub open spec fn spec_strip_tokens(ts: Seq<TokenM>) -> Seq<char>
    decreases ts,
{
    if ts.len() == 0 {
        Seq::empty()
    } else {
        spec_strip_tokens(ts.drop_last()) + spec_strip_token(ts.last())
    }
}

/// The plain text of one line of markup.
pub open spec fn spec_convert_line(s: Seq<char>) -> Seq<char> {
    spec_strip_tokens(spec_tokenize(s))
}

fn strip_token(token: &Token) -> (r: String)
    ensures
        r@ == spec_strip_token(token.model()),
    decreases token,
{
    match token {
        Token::Text(s) => s.clone(),
        Token::Ruby { .. } => String::new(),
        Token::PrefixedRuby { base_children, .. } => strip_tokens(base_children),
        Token::Command { .. } => String::new(),
        Token::Gaiji { description } => convert_gaiji(description.as_str()),
        Token::Accent { children } => {
            let inner = strip_tokens(children);
            convert_accent(inner.as_str())
        },
    }
}

fn strip_tokens(tokens: &Vec<Token>) -> (r: String)
    ensures
        r@ == spec_strip_tokens(tokens_model(tokens@)),
    decreases tokens,
{
    let ghost tm = tokens_model(tokens@);
    let mut r = String::new();
    let mut i: usize = 0;
    proof {
        assert(tm.subrange(0, 0) =~= Seq::<TokenM>::empty());
        assert(r@ =~= spec_strip_tokens(tm.subrange(0, 0)));
    }
    while i < tokens.len()
        invariant
            i <= tokens@.len(),
            tm == tokens_model(tokens@),
            tm.len() == tokens@.len(),
            r@ == spec_strip_tokens(tm.subrange(0, i as int)),
        decreases tokens@.len() - i,
    {
        let piece = strip_token(&tokens[i]);
        r.append(piece.as_str());
        proof {
            assert(tm.subrange(0, i as int + 1).drop_last() =~= tm.subrange(0, i as int));
            assert(tm.subrange(0, i as int + 1).last() == tm[i as int]);
        }
        i += 1;
    }
    proof {
        assert(tm.subrange(0, tm.len() as int) =~= tm);
    }
    r
}

/// Convert one line of markup to plain text.
pub fn convert_line(input: &str) -> (r: String)
    ensures
        r@ == spec_convert_line(input@),
{
    let tokens = tokenize(input);
    strip_tokens(&tokens)
}

/// The converted body lines of the decoded document.
pub open spec fn spec_converted_body(bytes: Seq<u8>) -> Seq<Seq<char>> {
    let lv = spec_lines(spec_decode(bytes));
    let body = spec_body_lines(lv, 0, 0);
    Seq::new(body.len(), |i: int| spec_convert_line(body[i]))
}

/// First index at or after `i` holding a non-empty line, or the length.
pub open spec fn spec_first_nonempty(ls: Seq<Seq<char>>, i: int) -> int
    decreases ls.len() - i,
    when 0 <= i
{
    if i >= ls.len() {
        ls.len() as int
    } else if ls[i].len() > 0 {
        i
    } else {
        spec_first_nonempty(ls, i + 1)
    }
}

/// One past the last non-empty line at or below `i`, or zero.
pub open spec fn spec_last_nonempty(ls: Seq<Seq<char>>, i: int) -> int
    decreases i + 1,
{
    if i < 0 {
        0
    } else if ls[i].len() > 0 {
        i + 1
    } else {
        spec_last_nonempty(ls, i - 1)
    }
}

/// The lines joined by newlines.
pub open spec fn spec_join_lines(ls: Seq<Seq<char>>, i: int) -> Seq<char>
    decreases ls.len() - i,
    when 0 <= i
{
    if i >= ls.len() {
        Seq::empty()
    } else if i + 1 == ls.len() {
        ls[i]
    } else {
        ls[i] + seq!['\n'] + spec_join_lines(ls, i + 1)
    }
}

/// The plain text of a whole document: decoded, body extracted, each line
/// converted, blank lines at both ends dropped, and the rest joined by
/// newlines with one final newline. An all-blank body gives empty text.
pub open spec fn spec_convert(bytes: Seq<u8>) -> Seq<char> {
    let conv = spec_converted_body(bytes);
    let start = spec_first_nonempty(conv, 0);
    let end = spec_last_nonempty(conv, conv.len() - 1);
    if start >= end {
        Seq::empty()
    } else {
        spec_join_lines(conv.subrange(start, end), 0) + seq!['\n']
    }
}

/// Convert a whole document of bytes to plain text.
pub fn convert(input: &[u8]) -> (r: String)
    ensures
        r@ == spec_convert(input@),
{
    let text = decode_to_utf8(input);
    let lines_owned = split_lines(text.as_str());
    let mut line_refs: Vec<&str> = Vec::new();
    let mut i: usize = 0;
    while i < lines_owned.len()
        invariant
            i <= lines_owned@.len(),
            line_refs@.len() == i,
            forall|k: int| 0 <= k < i ==> (#[trigger] line_refs@[k])@ == lines_owned@[k]@,
        decreases lines_owned@.len() - i,
    {
        line_refs.push(lines_owned[i].as_str());
        i += 1;
    }
    proof {
        assert(views_of(line_refs@) =~= spec_lines(text@));
    }
    let body = extract_body_lines(&line_refs);
    let ghost bodyv = views_of(body@);
    let ghost conv = spec_converted_body(input@);
    let mut converted: Vec<String> = Vec::new();
    let mut j: usize = 0;
    proof {
        assert(bodyv == spec_body_lines(spec_lines(spec_decode(input@)), 0, 0));
        assert(conv.len() == bodyv.len());
    }
    while j < body.len()
        invariant
            j <= body@.len(),
            bodyv == views_of(body@),
            bodyv.len() == body@.len(),
            conv.len() == bodyv.len(),
            forall|k: int| 0 <= k < bodyv.len() ==> #[trigger] conv[k] == spec_convert_line(
                bodyv[k],
            ),
            converted@.len() == j,
            forall|k: int| 0 <= k < j ==> (#[trigger] converted@[k])@ == conv[k],
        decreases body@.len() - j,
    {
        proof {
            assert(bodyv[j as int] == body@[j as int]@);
        }
        converted.push(convert_line(body[j]));
        j += 1;
    }
    // drop blank lines at both ends
    let n = converted.len();
    let mut start: usize = 0;
    while start < n && converted[start].as_str().unicode_len() == 0
        invariant
            start <= n,
            n == converted@.len(),
            conv.len() == n,
            forall|k: int| 0 <= k < n ==> (#[trigger] converted@[k])@ == conv[k],
            spec_first_nonempty(conv, 0) == spec_first_nonempty(conv, start as int),
        decreases n - start,
    {
        start += 1;
    }
    proof {
        if start < n {
            assert(spec_first_nonempty(conv, start as int) == start as int);
        }
    }
    let mut end: usize = n;
    while end > start && converted[end - 1].as_str().unicode_len() == 0
        invariant
            start <= end <= n,
            n == converted@.len(),
            conv.len() == n,
            forall|k: int| 0 <= k < n ==> (#[trigger] converted@[k])@ == conv[k],
            spec_last_nonempty(conv, n as int - 1) == spec_last_nonempty(conv, end as int - 1),
        decreases end,
    {
        end -= 1;
    }
    proof {
        if end > start {
            assert(spec_last_nonempty(conv, end as int - 1) == end as int);
        } else {
            lemma_last_nonempty_low(conv, end as int - 1);
            lemma_first_nonempty_high(conv, start as int);
            assert(spec_first_nonempty(conv, 0) >= spec_last_nonempty(conv, conv.len() - 1));
        }
    }
    if start >= end {
        return String::new();
    }
    // join with newlines
    let ghost kept = conv.subrange(start as int, end as int);
    let mut r = String::new();
    let mut k: usize = start;
    proof {
        assert(kept.subrange(0, 0) =~= Seq::<Seq<char>>::empty());
    }
    while k < end
        invariant
            start <= k <= end <= n,
            n == converted@.len(),
            conv.len() == n,
            start < end,
            kept == conv.subrange(start as int, end as int),
            forall|q: int| 0 <= q < n ==> (#[trigger] converted@[q])@ == conv[q],
            r@ == spec_join_lines(kept.subrange(0, k as int - start as int), 0),
        decreases end - k,
    {
        let ghost idx = k as int - start as int;
        if k > start {
            proof {
                reveal_strlit("\n");
            }
            r.append("\n");
        }
        r.append(converted[k].as_str());
        proof {
            reveal_strlit("\n");
            assert(kept[idx] == conv[k as int]);
            lemma_join_prefix(kept, idx);
            if idx == 0 {
                assert(r@ =~= kept[0]);
                assert(kept.subrange(0, 1)[0] == kept[0]);
                assert(spec_join_lines(kept.subrange(0, 1), 0) == kept[0]);
            } else {
                assert(r@ =~= spec_join_lines(kept.subrange(0, idx), 0) + seq!['\n'] + kept[idx]);
            }
        }
        k += 1;
    }
    proof {
        reveal_strlit("\n");
        assert(kept.subrange(0, end as int - start as int) =~= kept);
    }
    r.append("\n");
    proof {
        assert(r@ =~= spec_convert(input@));
    }
    r
}

/// Extending a joined prefix by one line appends a newline and the line.
pub proof fn lemma_join_prefix(ls: Seq<Seq<char>>, m: int)
    requires
        0 <= m < ls.len(),
    ensures
        spec_join_lines(ls.subrange(0, m + 1), 0) == if m == 0 {
            ls[0]
        } else {
            spec_join_lines(ls.subrange(0, m), 0) + seq!['\n'] + ls[m]
        },
{
    lemma_join_extend(ls, m, 0);
    if m == 0 {
        assert(ls.subrange(0, 1)[0] == ls[0]);
    }
}

proof fn lemma_join_extend(ls: Seq<Seq<char>>, m: int, i: int)
    requires
        0 <= i <= m < ls.len(),
    ensures
        spec_join_lines(ls.subrange(0, m + 1), i) == if i == m {
            ls[m]
        } else {
            spec_join_lines(ls.subrange(0, m), i) + seq!['\n'] + ls[m]
        },
    decreases m - i,
{
    let a = ls.subrange(0, m + 1);
    let b = ls.subrange(0, m);
    if i == m {
        assert(a[i] == ls[m]);
        assert(spec_join_lines(a, i) == a[i]);
    } else {
        lemma_join_extend(ls, m, i + 1);
        assert(a[i] == ls[i]);
        assert(b[i] == ls[i]);
        if i + 1 == m {
            assert(spec_join_lines(b, i) == b[i]);
            assert(spec_join_lines(a, i) == a[i] + seq!['\n'] + spec_join_lines(a, i + 1));
            assert(spec_join_lines(a, i + 1) == ls[m]);
        } else {
            assert(spec_join_lines(a, i) == a[i] + seq!['\n'] + spec_join_lines(a, i + 1));
            assert(spec_join_lines(b, i) == b[i] + seq!['\n'] + spec_join_lines(b, i + 1));
            assert((ls[i] + seq!['\n'] + spec_join_lines(b, i + 1)) + seq!['\n'] + ls[m]
                =~= ls[i] + seq!['\n'] + (spec_join_lines(b, i + 1) + seq!['\n'] + ls[m]));
        }
    }
}

proof fn lemma_last_nonempty_low(ls: Seq<Seq<char>>, i: int)
    requires
        -1 <= i < ls.len(),
    ensures
        spec_last_nonempty(ls, i) <= i + 1,
    decreases i + 1,
{
    if i >= 0 && !(ls[i].len() > 0) {
        lemma_last_nonempty_low(ls, i - 1);
    }
}

proof fn lemma_first_nonempty_high(ls: Seq<Seq<char>>, i: int)
    requires
        0 <= i <= ls.len(),
    ensures
        spec_first_nonempty(ls, i) >= i,
    decreases ls.len() - i,
{
    if i < ls.len() && !(ls[i].len() > 0) {
        lemma_first_nonempty_high(ls, i + 1);
    }
}

} // verus!
