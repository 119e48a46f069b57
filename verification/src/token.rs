//! Token types produced by the tokenizer, and their mathematical model.

use vstd::prelude::*;

verus! {

/// Mathematical model of a token: strings are character sequences and
/// children are sequences of models.
#[verifier::ext_equal]
pub enum TokenM {
    /// Plain text.
    Text(Seq<char>),
    /// Implicit ruby: the gloss alone; the base is attached later.
    Ruby { children: Seq<TokenM> },
    /// Explicit ruby with its base spelled out.
    PrefixedRuby { base_children: Seq<TokenM>, ruby_children: Seq<TokenM> },
    /// A command directive, delimiters stripped.
    Command { content: Seq<char> },
    /// An external-glyph directive, delimiters stripped.
    Gaiji { description: Seq<char> },
    /// An accent span.
    Accent { children: Seq<TokenM> },
}

/// One token of a tokenized line.
#[derive(Debug, PartialEq)]
pub enum Token {
    /// Plain text.
    Text(String),
    /// Implicit ruby `《...》`: the gloss alone; the base is attached later.
    Ruby {
        /// Tokens of the gloss text.
        children: Vec<Token>,
    },
    /// Explicit ruby `｜base《gloss》`.
    PrefixedRuby {
        /// Tokens of the base text.
        base_children: Vec<Token>,
        /// Tokens of the gloss text.
        ruby_children: Vec<Token>,
    },
    /// A command directive `［＃...］`, delimiters stripped.
    Command {
        /// The directive text.
        content: String,
    },
    /// An external-glyph directive `※［＃...］`, delimiters stripped.
    Gaiji {
        /// The glyph description.
        description: String,
    },
    /// An accent span `〔...〕`.
    Accent {
        /// Tokens of the span's interior.
        children: Vec<Token>,
    },
}

impl Token {
    /// The model of this token.
    pub open spec fn model(self) -> TokenM
        decreases self,
    {
        match self {
            Token::Text(s) => TokenM::Text(s@),
            Token::Ruby { children } => TokenM::Ruby { children: tokens_model(children@) },
            Token::PrefixedRuby { base_children, ruby_children } => TokenM::PrefixedRuby {
                base_children: tokens_model(base_children@),
                ruby_children: tokens_model(ruby_children@),
            },
            Token::Command { content } => TokenM::Command { content: content@ },
            Token::Gaiji { description } => TokenM::Gaiji { description: description@ },
            Token::Accent { children } => TokenM::Accent { children: tokens_model(children@) },
        }
    }

    /// A plain-text token holding `s`.
    pub fn text(s: &str) -> (t: Token)
        ensures
            t.model() == TokenM::Text(s@),
    {
        Token::Text(s.to_owned())
    }
}

/// The models of a sequence of tokens, in order.
pub open spec fn tokens_model(ts: Seq<Token>) -> Seq<TokenM>
    decreases ts,
{
    if ts.len() == 0 {
        Seq::empty()
    } else {
        tokens_model(ts.drop_last()).push(ts.last().model())
    }
}

/// `tokens_model` maps the sequence pointwise.
pub broadcast proof fn lemma_tokens_model(ts: Seq<Token>)
    ensures
        #![trigger tokens_model(ts)]
        tokens_model(ts).len() == ts.len(),
        forall|i: int| 0 <= i < ts.len() ==> tokens_model(ts)[i] == ts[i].model(),
    decreases ts.len(),
{
    if ts.len() > 0 {
        lemma_tokens_model(ts.drop_last());
    }
}

impl Clone for Token {
    /// A clone has the same model.
    fn clone(&self) -> (r: Token)
        ensures
            r.model() == self.model(),
        decreases self,
    {
        match self {
            Token::Text(s) => Token::Text(s.clone()),
            Token::Ruby { children } => {
                Token::Ruby { children: clone_tokens(children) }
            },
            Token::PrefixedRuby { base_children, ruby_children } => {
                Token::PrefixedRuby {
                    base_children: clone_tokens(base_children),
                    ruby_children: clone_tokens(ruby_children),
                }
            },
            Token::Command { content } => Token::Command { content: content.clone() },
            Token::Gaiji { description } => Token::Gaiji { description: description.clone() },
            Token::Accent { children } => {
                Token::Accent { children: clone_tokens(children) }
            },
        }
    }
}

/// A list of clones: same models, in order.
pub fn clone_tokens(v: &Vec<Token>) -> (r: Vec<Token>)
    ensures
        tokens_model(r@) == tokens_model(v@),
    decreases v,
{
    let mut r: Vec<Token> = Vec::new();
    let mut i: usize = 0;
    while i < v.len()
        invariant
            i <= v@.len(),
            r@.len() == i,
            forall|j: int| 0 <= j < i ==> r@[j].model() == v@[j].model(),
        decreases v@.len() - i,
    {
        r.push(v[i].clone());
        i += 1;
    }
    proof {
        lemma_tokens_model(r@);
        lemma_tokens_model(v@);
        assert(tokens_model(r@) =~= tokens_model(v@));
    }
    r
}

} // verus!
