//! Core library for the Aozora Bunko plain-text markup notation: character
//! classification, tokenizing, command interpretation, AST construction,
//! reference resolution, and rendering of the resolved tree.

pub mod accent;
pub mod char_type;
pub mod delimiters;
pub mod document;
pub mod encoding;
pub mod extractor;
pub mod gaiji;
pub mod html;
pub mod jis_table;
pub mod node;
pub mod parser;
pub mod strip;
pub mod strutil;
pub mod token;
pub mod tokenizer;

use vstd::prelude::*;

use crate::document::{extract_body_lines, spec_body_lines, views_of};
use crate::encoding::{decode_to_utf8, spec_decode};
use crate::extractor::{extract, spec_extract};
use crate::strip::spec_join_lines;
use crate::strutil::{spec_lines, split_lines};
use crate::tokenizer::{spec_tokenize, tokenize, Tokenizer};

verus! {

/// The plain text of one line: tokenized and stripped of markup, glyph
/// directives converted.
pub open spec fn spec_line_text(s: Seq<char>) -> Seq<char> {
    spec_extract(spec_tokenize(s))
}

/// Convert one line of markup to plain text, without looking at document
/// structure.
pub fn convert_line(input: &str) -> (r: String)
    ensures
        r@ == spec_line_text(input@),
{
    let mut t = Tokenizer::new(input);
    let tokens = t.tokenize();
    extract(&tokens)
}

/// The plain text of a whole document: decoded, body extracted, each line
/// stripped, and the lines joined by newlines with one final newline.
pub open spec fn spec_convert_document(bytes: Seq<u8>) -> Seq<char> {
    let lv = spec_lines(spec_decode(bytes));
    let body = spec_body_lines(lv, 0, 0);
    let conv = Seq::new(body.len(), |i: int| spec_line_text(body[i]));
    spec_join_lines(conv, 0) + seq!['\n']
}

/// Convert a whole document of bytes to plain text: the encoding is
/// detected, front and back matter are dropped, and every body line is
/// stripped of markup.
pub fn convert(input: &[u8]) -> (r: String)
    ensures
        r@ == spec_convert_document(input@),
{
    let text = decode_to_utf8(input);
    let lines_owned = split_lines(text.as_str());
    let mut line_refs: Vec<&str> = Vec::new();
    let mut i: usize = 0;
    while i < lines_owned.len()
        invariant
            i <= lines_owned@.len(),
            line_refs@.len() == i,
            forall|k: int| 0 <= k < i ==> (#[trigger] line_refs@[k])@ == lines_owned@[k]@,
        decreases lines_owned@.len() - i,
    {
        line_refs.push(lines_owned[i].as_str());
        i += 1;
    }
    proof {
        assert(views_of(line_refs@) =~= spec_lines(text@));
    }
    let body = extract_body_lines(&line_refs);
    let ghost bodyv = views_of(body@);
    let ghost conv = Seq::new(bodyv.len(), |k: int| spec_line_text(bodyv[k]));
    let n = body.len();
    let mut r = String::new();
    let mut j: usize = 0;
    proof {
        assert(conv.subrange(0, 0) =~= Seq::<Seq<char>>::empty());
        assert(r@ =~= crate::strip::spec_join_lines(conv.subrange(0, 0), 0));
    }
    while j < n
        invariant
            j <= n,
            n == body@.len(),
            bodyv == views_of(body@),
            bodyv.len() == n,
            conv == Seq::new(bodyv.len(), |k: int| spec_line_text(bodyv[k])),
            r@ == crate::strip::spec_join_lines(conv.subrange(0, j as int), 0),
        decreases n - j,
    {
        if j > 0 {
            proof {
                reveal_strlit("\n");
            }
            r.append("\n");
        }
        let piece = convert_line(body[j]);
        r.append(piece.as_str());
        proof {
            reveal_strlit("\n");
            assert(bodyv[j as int] == body@[j as int]@);
            assert(conv[j as int] == spec_line_text(bodyv[j as int]));
            crate::strip::lemma_join_prefix(conv, j as int);
            if j == 0 {
                assert(r@ =~= conv[0]);
                assert(conv.subrange(0, 1)[0] == conv[0]);
            }
        }
        j += 1;
    }
    proof {
        reveal_strlit("\n");
        assert(conv.subrange(0, n as int) =~= conv);
    }
    r.append("\n");
    proof {
        assert(r@ =~= spec_convert_document(input@));
    }
    r
}

} // verus!
