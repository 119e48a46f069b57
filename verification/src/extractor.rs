//! Plain-text extraction: tokens in, text out, markup dropped.

use vstd::prelude::*;

use crate::gaiji::{convert_gaiji, spec_convert_gaiji};
use crate::token::{tokens_model, Token, TokenM};

verus! {

broadcast use crate::token::lemma_tokens_model;

/// The plain text of one token: text as is, implicit ruby dropped (its base
/// sits in the preceding text), explicit ruby by its base, commands
/// dropped, glyphs converted, accent spans by their interior.
pub open spec fn spec_extract_token(t: TokenM) -> Seq<char>
    decreases t,
{
    match t {
        TokenM::Text(s) => s,
        TokenM::Ruby { .. } => Seq::empty(),
        TokenM::PrefixedRuby { base_children, .. } => spec_extract(base_children),
        TokenM::Command { .. } => Seq::empty(),
        TokenM::Gaiji { description } => spec_convert_gaiji(description),
        TokenM::Accent { children } => spec_extract(children),
    }
}

/// The plain text of a token list.
pub open spec fn spec_extract(ts: Seq<TokenM>) -> Seq<char>
    decreases ts,
{
    if ts.len() == 0 {
        Seq::empty()
    } else {
        spec_extract(ts.drop_last()) + spec_extract_token(ts.last())
    }
}

/// The plain text of one token.
fn extract_token(token: &Token) -> (r: String)
    ensures
        r@ == spec_extract_token(token.model()),
    decreases token,
{
    match token {
        Token::Text(s) => s.clone(),
        Token::Ruby { .. } => String::new(),
        Token::PrefixedRuby { base_children, .. } => extract(base_children),
        Token::Command { .. } => String::new(),
        Token::Gaiji { description } => convert_gaiji(description.as_str()),
        Token::Accent { children } => extract(children),
    }
}

/// The plain text of a token list.
pub fn extract(tokens: &Vec<Token>) -> (r: String)
    ensures
        r@ == spec_extract(tokens_model(tokens@)),
    decreases tokens,
{
    let ghost tm = tokens_model(tokens@);
    let mut r = String::new();
    let mut i: usize = 0;
    proof {
        assert(tm.subrange(0, 0) =~= Seq::<TokenM>::empty());
        assert(r@ =~= spec_extract(tm.subrange(0, 0)));
    }
    while i < tokens.len()
        invariant
            i <= tokens@.len(),
            tm == tokens_model(tokens@),
            tm.len() == tokens@.len(),
            r@ == spec_extract(tm.subrange(0, i as int)),
        decreases tokens@.len() - i,
    {
        let piece = extract_token(&tokens[i]);
        r.append(piece.as_str());
        proof {
            assert(tm.subrange(0, i as int + 1).drop_last() =~= tm.subrange(0, i as int));
            assert(tm.subrange(0, i as int + 1).last() == tm[i as int]);
        }
        i += 1;
    }
    proof {
        assert(tm.subrange(0, tm.len() as int) =~= tm);
    }
    r
}

} // verus!
