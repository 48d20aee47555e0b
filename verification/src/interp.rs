//! Identifier interpolation over token trees: every bracket group made only
//! of identifiers and underscores is replaced by the single identifier that
//! spells them one after the other. A group right after `#`, or after `#`
//! and `!`, is an attribute and is kept as it is.
use vstd::prelude::*;

verus! {

/// A source range.
#[derive(Clone, Copy, PartialEq, Eq, Debug)]
pub struct Span {
    pub lo: u32,
    pub hi: u32,
}

/// The delimiter of a token group.
#[derive(Clone, Copy, PartialEq, Eq, Debug)]
pub enum DelimToken {
    Paren,
    Bracket,
    Brace,
    NoDelim,
}

/// One token.
#[derive(Clone, PartialEq, Eq, Debug)]
pub enum Token {
    Ident(String),
    Underscore,
    Pound,
    Not,
    Literal(String),
    Punct(String),
}

/// A token, or a delimited group of token trees.
#[derive(PartialEq, Eq, Debug)]
pub enum TokenTree {
    Token(Span, Token),
    Delimited(Span, DelimToken, Vec<TokenTree>),
}

/// The tree is a single identifier or underscore token.
pub open spec fn is_word(t: TokenTree) -> bool {
    ||| t matches TokenTree::Token(_, Token::Ident(_))
    ||| t matches TokenTree::Token(_, Token::Underscore)
}

/// The text a word token contributes.
pub open spec fn word_text(t: TokenTree) -> Seq<char> {
    match t {
        TokenTree::Token(_, Token::Ident(s)) => s@,
        _ => seq!['_'],
    }
}

/// The span of a tree.
pub open spec fn span_of(t: TokenTree) -> Span {
    match t {
        TokenTree::Token(s, _) => s,
        TokenTree::Delimited(s, _, _) => s,
    }
}

/// The group can be joined into one identifier: it is not empty and holds
/// only words.
pub open spec fn joinable(ts: Seq<TokenTree>) -> bool {
    &&& ts.len() > 0
    &&& forall|i: int| 0 <= i < ts.len() ==> #[trigger] is_word(ts[i])
}

/// The text of the first `n` words of `ts`, one after the other.
pub open spec fn joined_text(ts: Seq<TokenTree>, n: nat) -> Seq<char>
    decreases n,
{
    if n == 0 {
        Seq::empty()
    } else {
        joined_text(ts, (n - 1) as nat) + word_text(ts[n - 1])
    }
}

/// The span of the joined identifier: from the first word to the last.
pub open spec fn joined_span(ts: Seq<TokenTree>) -> Span {
    Span { lo: span_of(ts[0]).lo, hi: span_of(ts[ts.len() - 1]).hi }
}

/// `r` is the identifier joined from `ts`.
pub open spec fn is_joined(ts: Seq<TokenTree>, r: TokenTree) -> bool {
    &&& r matches TokenTree::Token(sp, Token::Ident(s))
    &&& span_of(r) == joined_span(ts)
    &&& word_text(r) == joined_text(ts, ts.len())
}

/// Element `i` of `ts` is part of an attribute and is kept as it is: it
/// directly follows a `#` that is not itself kept, or it follows a `#` and
/// a kept `!`.
pub open spec fn after_pound(ts: Seq<TokenTree>, i: int) -> bool
    decreases i,
{
    if i <= 0 {
        false
    } else if ts[i - 1] matches TokenTree::Token(_, Token::Pound) && !after_pound(ts, i - 1) {
        true
    } else {
        &&& i >= 2
        &&& ts[i - 1] matches TokenTree::Token(_, Token::Not)
        &&& ts[i - 2] matches TokenTree::Token(_, Token::Pound)
        &&& after_pound(ts, i - 1)
    }
}

/// `b` is `a` with every joinable bracket group replaced by its identifier.
pub open spec fn mapped_tree(a: TokenTree, b: TokenTree) -> bool
    decreases a, 0nat,
{
    match a {
        TokenTree::Token(_, _) => b == a,
        TokenTree::Delimited(s, d, v) => if d == DelimToken::Bracket && joinable(v@) {
            is_joined(v@, b)
        } else {
            &&& b matches TokenTree::Delimited(s2, d2, w)
            &&& s2 == s
            &&& d2 == d
            &&& {
                proof {
                    lemma_field_view_decreases(a, s, d, v);
                }
                mapped_seq(v@, w@)
            }
        },
    }
}

/// `rs` is `ts` mapped tree by tree; a tree of an attribute (`after_pound`)
/// is kept as it is.
pub open spec fn mapped_seq(ts: Seq<TokenTree>, rs: Seq<TokenTree>) -> bool
    decreases ts, 1nat,
{
    &&& rs.len() == ts.len()
    &&& ts.len() > 0 ==> {
        let n = ts.len() - 1;
        &&& {
            proof {
                vstd::seq::axiom_seq_subrange_decreases(ts, 0, n);
            }
            mapped_seq(ts.drop_last(), rs.drop_last())
        }
        &&& if after_pound(ts, n) {
            rs[n] == ts[n]
        } else {
            proof {
                vstd::seq::axiom_seq_index_decreases(ts, n);
            }
            mapped_tree(ts[n], rs[n])
        }
    }
}

pub proof fn lemma_field_view_decreases(a: TokenTree, s: Span, d: DelimToken, v: Vec<TokenTree>)
    requires
        a == TokenTree::Delimited(s, d, v),
    ensures
        decreases_to!(a => v@),
{
    broadcast use vstd::std_specs::vec::group_vec_axioms;
    assert(decreases_to!(a => a->2));
    assert(decreases_to!(v => v@));
}

proof fn lemma_group_decreases(ts: Vec<TokenTree>, i: int, s: Span, d: DelimToken, v: Vec<TokenTree>)
    requires
        0 <= i < ts@.len(),
        ts[i] == TokenTree::Delimited(s, d, v),
    ensures
        decreases_to!(ts => v),
{
    broadcast use vstd::std_specs::vec::group_vec_axioms;
    assert(decreases_to!(ts => ts[i]));
    assert(decreases_to!(ts[i] => ts[i]->2));
}

/// Whether element `i` follows a kept `#` depends only on what comes
/// before it.
proof fn lemma_after_pound_prefix(ts: Seq<TokenTree>, n: int, i: int)
    requires
        0 <= i < n <= ts.len(),
    ensures
        after_pound(ts.take(n), i) == after_pound(ts, i),
    decreases i,
{
    if i > 0 {
        lemma_after_pound_prefix(ts, n, i - 1);
    }
}

/// Joins a bracket group made only of identifiers and underscores into one
/// identifier; `None` for any other group.
pub fn concat_idents(tts: &Vec<TokenTree>, delim: DelimToken) -> (r: Option<TokenTree>)
    ensures
        r is Some <==> (delim == DelimToken::Bracket && joinable(tts@)),
        r is Some ==> is_joined(tts@, r->0),
{
    match delim {
        DelimToken::Bracket => {},
        _ => return None,
    }
    if tts.len() == 0 {
        return None;
    }
    let mut new_ident = String::new();
    let mut lo: u32 = 0;
    let mut hi: u32 = 0;
    let mut i: usize = 0;
    proof {
        reveal_strlit("_");
    }
    while i < tts.len()
        invariant
            i <= tts@.len(),
            tts@.len() > 0,
            forall|k: int| 0 <= k < i ==> #[trigger] is_word(tts@[k]),
            new_ident@ == joined_text(tts@, i as nat),
            i > 0 ==> lo == span_of(tts@[0]).lo && hi == span_of(tts@[i - 1]).hi,
            "_"@ == seq!['_'],
        decreases tts@.len() - i,
    {
        match &tts[i] {
            TokenTree::Token(span, Token::Ident(ident)) => {
                new_ident.append(ident.as_str());
                if i == 0 {
                    lo = span.lo;
                }
                hi = span.hi;
            },
            TokenTree::Token(span, Token::Underscore) => {
                new_ident.append("_");
                if i == 0 {
                    lo = span.lo;
                }
                hi = span.hi;
            },
            _ => {
                assert(!is_word(tts@[i as int]));
                assert(!joinable(tts@));
                return None;
            },
        }
        i = i + 1;
    }
    Some(TokenTree::Token(Span { lo, hi }, Token::Ident(new_ident)))
}

/// Maps a token stream: each joinable bracket group becomes its
/// identifier, other groups are mapped inside, and the trees of an
/// attribute (`after_pound`) are kept as they are.
pub fn map_tts(tts: Vec<TokenTree>) -> (r: Vec<TokenTree>)
    ensures
        mapped_seq(tts@, r@),
    decreases tts,
{
    let ghost orig = tts;
    let mut rest = tts;
    let total = rest.len();
    let mut out: Vec<TokenTree> = Vec::new();
    let mut is_prev_pound = false;
    let mut prev_is_pound = false;
    let mut i: usize = 0;
    while rest.len() > 0
        invariant
            i <= orig@.len(),
            orig@.len() == total,
            orig == tts,
            rest@ == orig@.skip(i as int),
            out@.len() == i,
            is_prev_pound == after_pound(orig@, i as int),
            prev_is_pound == (i > 0 && orig@[i - 1] matches TokenTree::Token(_, Token::Pound)),
            mapped_seq(orig@.take(i as int), out@),
        decreases rest@.len(),
    {
        let t = rest.remove(0);
        assert(t == orig@[i as int]);
        let ghost before = out@;
        let t_is_pound = match &t {
            TokenTree::Token(_, Token::Pound) => true,
            _ => false,
        };
        if is_prev_pound {
            is_prev_pound = prev_is_pound && match &t {
                TokenTree::Token(_, Token::Not) => true,
                _ => false,
            };
            out.push(t);
        } else {
            is_prev_pound = match &t {
                TokenTree::Token(_, Token::Pound) => true,
                _ => false,
            };
            match t {
                TokenTree::Delimited(s, d, inner) => {
                    match concat_idents(&inner, d) {
                        Some(joined) => out.push(joined),
                        None => {
                            proof {
                                lemma_group_decreases(orig, i as int, s, d, inner);
                            }
                            let mapped = map_tts(inner);
                            out.push(TokenTree::Delimited(s, d, mapped));
                        },
                    }
                },
                tok => out.push(tok),
            }
        }
        prev_is_pound = t_is_pound;
        proof {
            let ts = orig@.take(i + 1);
            assert(ts.drop_last() =~= orig@.take(i as int));
            assert(out@.drop_last() =~= before);
            assert(mapped_seq(ts.drop_last(), out@.drop_last()));
            lemma_after_pound_prefix(orig@, i + 1, i as int);
            assert(ts[i as int] == orig@[i as int]);
            if after_pound(ts, i as int) {
                assert(out@[i as int] == ts[i as int]);
            } else {
                assert(mapped_tree(ts[i as int], out@[i as int]));
            }
            assert(mapped_seq(ts, out@));
        }
        i = i + 1;
    }
    assert(orig@.take(i as int) =~= orig@);
    out
}

/// Interpolates identifiers in a macro's token stream.
pub fn interpolate_idents(tts: Vec<TokenTree>) -> (r: Vec<TokenTree>)
    ensures
        mapped_seq(tts@, r@),
{
    map_tts(tts)
}

} // verus!
