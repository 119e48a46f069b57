//! Tokenizer: one pass of a cursor over the characters of a line.
//!
//! The scan is specified by `spec_step`, which gives for each cursor
//! position the token recognized there and the position just past the span
//! consumed for it; `spec_tokenize_from` chains the steps. The consumed
//! spans are contiguous and cover the whole line, which is the round-trip
//! law `lemma_tokenize_round_trip`.

use vstd::prelude::*;

use crate::delimiters::{is_accent_mark_char, is_delimiter_char};
use crate::strutil::{chars_range_to_string, chars_subrange, str_to_chars};
use crate::token::{tokens_model, Token, TokenM};

verus! {

broadcast use crate::token::lemma_tokens_model;

/// First position at or after `pos` holding `target`, or the length.
pub open spec fn find_from(s: Seq<char>, pos: int, target: char) -> int
    decreases s.len() - pos,
{
    if pos >= s.len() {
        s.len() as int
    } else if s[pos] == target {
        pos
    } else {
        find_from(s, pos + 1, target)
    }
}

proof fn lemma_find_from(s: Seq<char>, pos: int, target: char)
    requires
        0 <= pos,
    ensures
        find_from(s, pos, target) <= s.len(),
        pos <= s.len() ==> pos <= find_from(s, pos, target),
        find_from(s, pos, target) < s.len() ==> s[find_from(s, pos, target)] == target,
        forall|i: int| pos <= i < find_from(s, pos, target) ==> s[i] != target,
    decreases s.len() - pos,
{
    if pos < s.len() && s[pos] != target {
        lemma_find_from(s, pos + 1, target);
    }
}

/// Position where a depth-counting scan for the directive closer stops:
/// at the closer that brings the depth to zero, or at the end.
pub open spec fn balanced_end(s: Seq<char>, pos: int, depth: int) -> int
    decreases s.len() - pos,
{
    if pos >= s.len() {
        s.len() as int
    } else if s[pos] == '］' && depth <= 1 {
        pos
    } else if s[pos] == '］' {
        balanced_end(s, pos + 1, depth - 1)
    } else if s[pos] == '［' {
        balanced_end(s, pos + 1, depth + 1)
    } else {
        balanced_end(s, pos + 1, depth)
    }
}

proof fn lemma_balanced_end(s: Seq<char>, pos: int, depth: int)
    requires
        0 <= pos,
    ensures
        balanced_end(s, pos, depth) <= s.len(),
        pos <= s.len() ==> pos <= balanced_end(s, pos, depth),
        balanced_end(s, pos, depth) < s.len() ==> s[balanced_end(s, pos, depth)] == '］',
    decreases s.len() - pos,
{
    if pos < s.len() && !(s[pos] == '］' && depth <= 1) {
        if s[pos] == '］' {
            lemma_balanced_end(s, pos + 1, depth - 1);
        } else if s[pos] == '［' {
            lemma_balanced_end(s, pos + 1, depth + 1);
        } else {
            lemma_balanced_end(s, pos + 1, depth);
        }
    }
}

/// First position at or after `pos` holding a delimiter, or the length.
pub open spec fn text_end(s: Seq<char>, pos: int) -> int
    decreases s.len() - pos,
{
    if pos >= s.len() {
        s.len() as int
    } else if is_delimiter_char(s[pos]) {
        pos
    } else {
        text_end(s, pos + 1)
    }
}

proof fn lemma_text_end(s: Seq<char>, pos: int)
    requires
        0 <= pos,
    ensures
        text_end(s, pos) <= s.len(),
        pos <= s.len() ==> pos <= text_end(s, pos),
        text_end(s, pos) < s.len() ==> is_delimiter_char(s[text_end(s, pos)]),
        forall|i: int| pos <= i < text_end(s, pos) ==> !is_delimiter_char(s[i]),
    decreases s.len() - pos,
{
    if pos < s.len() && !is_delimiter_char(s[pos]) {
        lemma_text_end(s, pos + 1);
    }
}

/// Whether the sequence holds at least one accent-mark character.
pub open spec fn has_accent_mark(s: Seq<char>) -> bool {
    exists|i: int| 0 <= i < s.len() && is_accent_mark_char(s[i])
}

/// The position just past the span consumed by the step at `pos`.
pub open spec fn step_end(s: Seq<char>, pos: int) -> int
    recommends
        0 <= pos < s.len(),
{
    let c = s[pos];
    if c == '\u{FF3B}' {
        if pos + 1 < s.len() && s[pos + 1] == '\u{FF03}' {
            let end = balanced_end(s, pos + 2, 1);
            if end < s.len() { end + 1 } else { end }
        } else {
            pos + 1
        }
    } else if c == '\u{300A}' {
        let e = find_from(s, pos + 1, '\u{300B}');
        if e < s.len() { e + 1 } else { e }
    } else if c == '\u{FF5C}' {
        let rb = find_from(s, pos + 1, '\u{300A}');
        if rb >= s.len() {
            pos + 1
        } else {
            let re = find_from(s, rb + 1, '\u{300B}');
            if re < s.len() { re + 1 } else { re }
        }
    } else if c == '\u{203B}' {
        if pos + 1 < s.len() && s[pos + 1] == '\u{FF3B}' && pos + 2 < s.len()
            && s[pos + 2] == '\u{FF03}' {
            let end = balanced_end(s, pos + 3, 1);
            if end < s.len() { end + 1 } else { end }
        } else {
            pos + 1
        }
    } else if c == '\u{3014}' {
        let e = find_from(s, pos + 1, '\u{3015}');
        if e >= s.len() || !has_accent_mark(s.subrange(pos + 1, e)) {
            pos + 1
        } else {
            e + 1
        }
    } else {
        text_end(s, pos)
    }
}

/// Each step consumes at least one character and stays inside the line.
proof fn lemma_step_end_bounds(s: Seq<char>, pos: int)
    requires
        0 <= pos < s.len(),
    ensures
        pos < step_end(s, pos) <= s.len(),
{
    lemma_balanced_end(s, pos + 2, 1);
    lemma_balanced_end(s, pos + 3, 1);
    lemma_find_from(s, pos + 1, '\u{300B}');
    lemma_find_from(s, pos + 1, '\u{300A}');
    lemma_find_from(s, pos + 1, '\u{3015}');
    let rb = find_from(s, pos + 1, '\u{300A}');
    lemma_find_from(s, rb + 1, '\u{300B}');
    lemma_text_end(s, pos);
}

/// The token recognized at `pos`.
pub open spec fn spec_step(s: Seq<char>, pos: int) -> TokenM
    recommends
        0 <= pos < s.len(),
    decreases s.len() - pos, 0int,
    when 0 <= pos < s.len()
    via spec_step_decreases
{
    let c = s[pos];
    if c == '\u{FF3B}' {
        if pos + 1 < s.len() && s[pos + 1] == '\u{FF03}' {
            let end = balanced_end(s, pos + 2, 1);
            TokenM::Command { content: s.subrange(pos + 2, end) }
        } else {
            TokenM::Text(seq![c])
        }
    } else if c == '\u{300A}' {
        let e = find_from(s, pos + 1, '\u{300B}');
        TokenM::Ruby { children: spec_tokenize_from(s.subrange(pos + 1, e), 0) }
    } else if c == '\u{FF5C}' {
        let rb = find_from(s, pos + 1, '\u{300A}');
        if rb >= s.len() {
            TokenM::Text(seq![c])
        } else {
            let re = find_from(s, rb + 1, '\u{300B}');
            TokenM::PrefixedRuby {
                base_children: spec_tokenize_from(s.subrange(pos + 1, rb), 0),
                ruby_children: spec_tokenize_from(s.subrange(rb + 1, re), 0),
            }
        }
    } else if c == '\u{203B}' {
        if pos + 1 < s.len() && s[pos + 1] == '\u{FF3B}' && pos + 2 < s.len()
            && s[pos + 2] == '\u{FF03}' {
            let end = balanced_end(s, pos + 3, 1);
            TokenM::Gaiji { description: s.subrange(pos + 3, end) }
        } else {
            TokenM::Text(seq![c])
        }
    } else if c == '\u{3014}' {
        let e = find_from(s, pos + 1, '\u{3015}');
        if e >= s.len() || !has_accent_mark(s.subrange(pos + 1, e)) {
            TokenM::Text(seq![c])
        } else {
            TokenM::Accent { children: spec_tokenize_from(s.subrange(pos + 1, e), 0) }
        }
    } else {
        let e = text_end(s, pos);
        TokenM::Text(s.subrange(pos, e))
    }
}

#[via_fn]
proof fn spec_step_decreases(s: Seq<char>, pos: int) {
    lemma_balanced_end(s, pos + 2, 1);
    lemma_balanced_end(s, pos + 3, 1);
    lemma_find_from(s, pos + 1, '\u{300B}');
    lemma_find_from(s, pos + 1, '\u{300A}');
    lemma_find_from(s, pos + 1, '\u{3015}');
    let rb = find_from(s, pos + 1, '\u{300A}');
    if rb + 1 >= 0 {
        lemma_find_from(s, rb + 1, '\u{300B}');
    }
    lemma_text_end(s, pos);
}

/// The tokens recognized from `pos` to the end of the line.
pub open spec fn spec_tokenize_from(s: Seq<char>, pos: int) -> Seq<TokenM>
    decreases s.len() - pos, 1int,
    when 0 <= pos
    via spec_tokenize_from_decreases
{
    if pos >= s.len() {
        Seq::empty()
    } else {
        seq![spec_step(s, pos)] + spec_tokenize_from(s, step_end(s, pos))
    }
}

#[via_fn]
proof fn spec_tokenize_from_decreases(s: Seq<char>, pos: int) {
    if 0 <= pos < s.len() {
        lemma_step_end_bounds(s, pos);
    }
}

/// The tokens of a whole line.
pub open spec fn spec_tokenize(s: Seq<char>) -> Seq<TokenM> {
    spec_tokenize_from(s, 0)
}

/// The spans consumed by the successive steps, from `pos` to the end.
pub open spec fn spec_spans(s: Seq<char>, pos: int) -> Seq<Seq<char>>
    decreases s.len() - pos,
    when 0 <= pos
    via spec_spans_decreases
{
    if pos >= s.len() {
        Seq::empty()
    } else {
        seq![s.subrange(pos, step_end(s, pos))] + spec_spans(s, step_end(s, pos))
    }
}

#[via_fn]
proof fn spec_spans_decreases(s: Seq<char>, pos: int) {
    if 0 <= pos < s.len() {
        lemma_step_end_bounds(s, pos);
    }
}

/// The concatenation of a sequence of character sequences.
pub open spec fn concat_seqs(ss: Seq<Seq<char>>) -> Seq<char>
    decreases ss.len(),
{
    if ss.len() == 0 {
        Seq::empty()
    } else {
        ss.first() + concat_seqs(ss.drop_first())
    }
}

proof fn lemma_spans_cover(s: Seq<char>, pos: int)
    requires
        0 <= pos <= s.len(),
    ensures
        concat_seqs(spec_spans(s, pos)) == s.subrange(pos, s.len() as int),
        spec_spans(s, pos).len() == spec_tokenize_from(s, pos).len(),
    decreases s.len() - pos,
{
    if pos >= s.len() {
        assert(concat_seqs(spec_spans(s, pos)) =~= s.subrange(pos, s.len() as int));
    } else {
        lemma_step_end_bounds(s, pos);
        let np = step_end(s, pos);
        lemma_spans_cover(s, np);
        let spans = spec_spans(s, pos);
        assert(spans.first() == s.subrange(pos, np));
        assert(spans.drop_first() =~= spec_spans(s, np));
        assert(s.subrange(pos, np) + s.subrange(np, s.len() as int)
            =~= s.subrange(pos, s.len() as int));
        assert(spec_tokenize_from(s, pos).len() == 1 + spec_tokenize_from(s, np).len());
    }
}

/// Tokenizer round trip: the scan consumes one contiguous span per token
/// (`spec_spans` and `spec_tokenize` run in step), and concatenating the
/// consumed spans reconstructs the input line exactly.
pub proof fn lemma_tokenize_round_trip(s: Seq<char>)
    ensures
        spec_spans(s, 0).len() == spec_tokenize(s).len(),
        concat_seqs(spec_spans(s, 0)) == s,
{
    lemma_spans_cover(s, 0);
    assert(s.subrange(0, s.len() as int) =~= s);
}

/// First index at or after `from` holding `target`, or the length.
fn find_char(chars: &Vec<char>, from: usize, target: char) -> (r: usize)
    requires
        from <= chars@.len(),
    ensures
        r as int == find_from(chars@, from as int, target),
{
    let mut i: usize = from;
    while i < chars.len()
        invariant
            from <= i <= chars@.len(),
            find_from(chars@, from as int, target) == find_from(chars@, i as int, target),
        decreases chars@.len() - i,
    {
        if chars[i] == target {
            return i;
        }
        i += 1;
    }
    i
}

/// Where the depth-counting scan for the directive closer stops.
fn scan_balanced(chars: &Vec<char>, from: usize) -> (r: usize)
    requires
        from <= chars@.len(),
    ensures
        r as int == balanced_end(chars@, from as int, 1),
{
    let mut i: usize = from;
    let mut depth: u128 = 1;
    while i < chars.len()
        invariant
            from <= i <= chars@.len(),
            1 <= depth <= 1 + i - from,
            balanced_end(chars@, from as int, 1) == balanced_end(chars@, i as int, depth as int),
        decreases chars@.len() - i,
    {
        let c = chars[i];
        if c == '］' {
            if depth <= 1 {
                return i;
            }
            depth -= 1;
        } else if c == '［' {
            depth += 1;
        }
        i += 1;
    }
    i
}

/// First index at or after `from` holding a delimiter, or the length.
fn find_text_end(chars: &Vec<char>, from: usize) -> (r: usize)
    requires
        from <= chars@.len(),
    ensures
        r as int == text_end(chars@, from as int),
{
    let mut i: usize = from;
    while i < chars.len()
        invariant
            from <= i <= chars@.len(),
            text_end(chars@, from as int) == text_end(chars@, i as int),
        decreases chars@.len() - i,
    {
        let c = chars[i];
        if c == '［' || c == '《' || c == '｜' || c == '※' || c == '〔' {
            return i;
        }
        i += 1;
    }
    i
}

/// Whether a character is one of the fixed accent marks.
fn accent_mark(c: char) -> (r: bool)
    ensures
        r == is_accent_mark_char(c),
{
    c == '\'' || c == '`' || c == '^' || c == '~' || c == ':' || c == '&' || c == '_' || c == ','
        || c == '/' || c == '@'
}

/// Whether the vector holds at least one accent-mark character.
fn contains_accent_marks(chars: &Vec<char>) -> (r: bool)
    ensures
        r == has_accent_mark(chars@),
{
    let mut i: usize = 0;
    while i < chars.len()
        invariant
            i <= chars@.len(),
            forall|j: int| 0 <= j < i ==> !is_accent_mark_char(chars@[j]),
        decreases chars@.len() - i,
    {
        if accent_mark(chars[i]) {
            return true;
        }
        i += 1;
    }
    false
}

/// Tokenize the characters of `chars` from index `start` to the end.
fn tokenize_vec(chars: &Vec<char>, start: usize) -> (tokens: Vec<Token>)
    requires
        start <= chars@.len(),
    ensures
        tokens_model(tokens@) == spec_tokenize_from(chars@, start as int),
    decreases chars@.len(),
{
    let ghost s = chars@;
    let mut tokens: Vec<Token> = Vec::new();
    let mut pos: usize = start;
    while pos < chars.len()
        invariant
            start <= pos <= s.len(),
            s == chars@,
            tokens_model(tokens@) + spec_tokenize_from(s, pos as int)
                == spec_tokenize_from(s, start as int),
        decreases s.len() - pos,
    {
        proof {
            lemma_step_end_bounds(s, pos as int);
        }
        let ghost stok = spec_step(s, pos as int);
        let ghost snp = step_end(s, pos as int);
        let c = chars[pos];
        let token: Token;
        let np: usize;
        if c == '［' {
            if pos + 1 < chars.len() && chars[pos + 1] == '＃' {
                let end = scan_balanced(chars, pos + 2);
                proof {
                    lemma_balanced_end(s, pos as int + 2, 1);
                }
                let content = chars_range_to_string(chars, pos + 2, end);
                token = Token::Command { content };
                np = if end < chars.len() { end + 1 } else { end };
            } else {
                token = Token::Text(chars_range_to_string(chars, pos, pos + 1));
                np = pos + 1;
                proof {
                    assert(s.subrange(pos as int, pos as int + 1) =~= seq![c]);
                }
            }
        } else if c == '《' {
            let e = find_char(chars, pos + 1, '》');
            proof {
                lemma_find_from(s, pos as int + 1, '》');
            }
            let inner = chars_subrange(chars, pos + 1, e);
            let children = tokenize_vec(&inner, 0);
            token = Token::Ruby { children };
            np = if e < chars.len() { e + 1 } else { e };
        } else if c == '｜' {
            let rb = find_char(chars, pos + 1, '《');
            proof {
                lemma_find_from(s, pos as int + 1, '《');
            }
            if rb >= chars.len() {
                token = Token::Text(chars_range_to_string(chars, pos, pos + 1));
                np = pos + 1;
                proof {
                    assert(s.subrange(pos as int, pos as int + 1) =~= seq![c]);
                }
            } else {
                let re = find_char(chars, rb + 1, '》');
                proof {
                    lemma_find_from(s, rb as int + 1, '》');
                }
                let base = chars_subrange(chars, pos + 1, rb);
                let ruby = chars_subrange(chars, rb + 1, re);
                let base_children = tokenize_vec(&base, 0);
                let ruby_children = tokenize_vec(&ruby, 0);
                token = Token::PrefixedRuby { base_children, ruby_children };
                np = if re < chars.len() { re + 1 } else { re };
            }
        } else if c == '※' {
            if pos + 1 < chars.len() && chars[pos + 1] == '［' && pos + 2 < chars.len()
                && chars[pos + 2] == '＃' {
                let end = scan_balanced(chars, pos + 3);
                proof {
                    lemma_balanced_end(s, pos as int + 3, 1);
                }
                let description = chars_range_to_string(chars, pos + 3, end);
                token = Token::Gaiji { description };
                np = if end < chars.len() { end + 1 } else { end };
            } else {
                token = Token::Text(chars_range_to_string(chars, pos, pos + 1));
                np = pos + 1;
                proof {
                    assert(s.subrange(pos as int, pos as int + 1) =~= seq![c]);
                }
            }
        } else if c == '〔' {
            let e = find_char(chars, pos + 1, '〕');
            proof {
                lemma_find_from(s, pos as int + 1, '〕');
            }
            if e >= chars.len() {
                token = Token::Text(chars_range_to_string(chars, pos, pos + 1));
                np = pos + 1;
                proof {
                    assert(s.subrange(pos as int, pos as int + 1) =~= seq![c]);
                }
            } else {
                let inner = chars_subrange(chars, pos + 1, e);
                if contains_accent_marks(&inner) {
                    let children = tokenize_vec(&inner, 0);
                    token = Token::Accent { children };
                    np = e + 1;
                } else {
                    token = Token::Text(chars_range_to_string(chars, pos, pos + 1));
                    np = pos + 1;
                    proof {
                        assert(s.subrange(pos as int, pos as int + 1) =~= seq![c]);
                    }
                }
            }
        } else {
            let e = find_text_end(chars, pos);
            proof {
                lemma_text_end(s, pos as int);
            }
            token = Token::Text(chars_range_to_string(chars, pos, e));
            np = e;
        }
        proof {
            assert(token.model() == stok);
            assert(np as int == snp);
            assert(spec_tokenize_from(s, pos as int)
                == seq![stok] + spec_tokenize_from(s, snp));
            assert((tokens@.push(token)).drop_last() =~= tokens@);
            assert(tokens_model(tokens@.push(token))
                =~= tokens_model(tokens@).push(token.model()));
            assert(tokens_model(tokens@).push(token.model()) + spec_tokenize_from(s, np as int)
                =~= tokens_model(tokens@) + spec_tokenize_from(s, pos as int));
        }
        tokens.push(token);
        pos = np;
    }
    proof {
        assert(spec_tokenize_from(s, pos as int) =~= Seq::<TokenM>::empty());
        assert(tokens_model(tokens@) =~= tokens_model(tokens@) + spec_tokenize_from(
            s,
            pos as int,
        ));
    }
    tokens
}

/// Cursor-based tokenizer over one line.
pub struct Tokenizer {
    chars: Vec<char>,
    pos: usize,
}

impl Tokenizer {
    /// The characters of the line being scanned.
    pub closed spec fn input(&self) -> Seq<char> {
        self.chars@
    }

    /// The cursor position.
    pub closed spec fn position(&self) -> int {
        self.pos as int
    }

    /// A tokenizer at the start of `input`.
    pub fn new(input: &str) -> (t: Tokenizer)
        ensures
            t.input() == input@,
            t.position() == 0,
    {
        Tokenizer { chars: str_to_chars(input), pos: 0 }
    }

    /// Scan the rest of the line into tokens; the cursor ends at the end.
    pub fn tokenize(&mut self) -> (tokens: Vec<Token>)
        requires
            old(self).position() <= old(self).input().len(),
        ensures
            tokens_model(tokens@) == spec_tokenize_from(old(self).input(), old(self).position()),
            final(self).input() == old(self).input(),
            final(self).position() == old(self).input().len(),
    {
        let tokens = tokenize_vec(&self.chars, self.pos);
        self.pos = self.chars.len();
        tokens
    }
}

/// Tokenize one line.
pub fn tokenize(input: &str) -> (tokens: Vec<Token>)
    ensures
        tokens_model(tokens@) == spec_tokenize(input@),
{
    let mut t = Tokenizer::new(input);
    t.tokenize()
}

} // verus!
