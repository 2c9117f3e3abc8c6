//! Shared parsing helpers: bounds checking with the standard "query valid
//! until after ..." diagnostic, token lookahead, and the lexeme-join
//! functions used to rebuild the source slice an AST node was built from.

use vstd::prelude::*;
use vstd::string::*;

use crate::tokens::{token_views, Token, TokenModel, TokenType};

verus! {

/// The lexemes of a token range joined with single spaces.
pub open spec fn join_lex(s: Seq<TokenModel>) -> Seq<char>
    decreases s.len(),
{
    if s.len() == 0 {
        Seq::empty()
    } else if s.len() == 1 {
        s[0].lexeme
    } else {
        join_lex(s.drop_last()) + " "@ + s.last().lexeme
    }
}

/// The text a token contributes to a condition clause: an `Equal` token is
/// always written `=` (its surface form may have been `is`), every other
/// token keeps its lexeme.
pub open spec fn cond_text(t: TokenModel) -> Seq<char> {
    if t.kind == TokenType::Equal {
        "="@
    } else {
        t.lexeme
    }
}

/// The separator between two adjacent condition tokens: none directly after
/// an opening parenthesis or before a closing one, a single space otherwise.
/// This reproduces the conventional spacing of the source form.
pub open spec fn cond_sep(a: TokenModel, b: TokenModel) -> Seq<char> {
    if a.kind == TokenType::OpenParen || b.kind == TokenType::CloseParen {
        Seq::empty()
    } else {
        " "@
    }
}

/// The text of a condition token range: token texts with the separators of
/// `cond_sep` between them.
pub open spec fn join_cond(s: Seq<TokenModel>) -> Seq<char>
    decreases s.len(),
{
    if s.len() == 0 {
        Seq::empty()
    } else if s.len() == 1 {
        cond_text(s[0])
    } else {
        join_cond(s.drop_last()) + cond_sep(s[s.len() - 2], s.last()) + cond_text(s.last())
    }
}

/// The views of a sequence of strings.
pub open spec fn string_views(s: Seq<String>) -> Seq<Seq<char>> {
    s.map_values(|x: String| x@)
}

/// A sequence of parts joined with a separator.
pub open spec fn join_with(parts: Seq<Seq<char>>, sep: Seq<char>) -> Seq<char>
    decreases parts.len(),
{
    if parts.len() == 0 {
        Seq::empty()
    } else if parts.len() == 1 {
        parts[0]
    } else {
        join_with(parts.drop_last(), sep) + sep + parts.last()
    }
}

/// The diagnostic when a token list does not end on an end-of-query token.
pub open spec fn msg_expected_eoq() -> Seq<char> {
    "Unexpected token, expected end-of-query token by this point."@
}

/// Parses a comma/`and`-delimited non-empty list of identifiers beginning
/// at `pos`: the two separators may be mixed arbitrarily, each name must be
/// an identifier token, and the list may not end on a separator. Returns
/// the names in order and the position past the last one.
pub open spec fn sp_ident_list(t: Seq<TokenModel>, pos: int) -> Result<(Seq<Seq<char>>, int), ()>
    decreases t.len() - pos,
{
    if pos < 0 || pos >= t.len() {
        Err(())
    } else if t[pos].kind != TokenType::Identifier {
        Err(())
    } else if pos + 1 < t.len() && (t[pos + 1].kind == TokenType::And || t[pos + 1].kind
        == TokenType::Comma) {
        match sp_ident_list(t, pos + 2) {
            Err(e) => Err(e),
            Ok((ns, end)) => Ok((seq![t[pos].literal] + ns, end)),
        }
    } else {
        Ok((seq![t[pos].literal], pos + 1))
    }
}

/// Builds the identifier list of `sp_ident_list` at `*idx`, pushing each
/// name onto `names`.
pub fn build_ident_list(tokens: &Vec<Token>, names: &mut Vec<String>, idx: &mut usize) -> (r:
    Result<(), ()>)
    requires
        *old(idx) <= tokens@.len(),
    ensures
        ({
            let sp = sp_ident_list(token_views(tokens@), *old(idx) as int);
            &&& (sp matches Ok(p) ==> r is Ok && string_views(final(names)@) == string_views(
                old(names)@,
            ) + p.0 && *final(idx) as int == p.1 && *old(idx) < *final(idx) <= tokens@.len())
            &&& (sp is Err ==> r is Err)
        }),
    decreases tokens@.len() - *idx,
{
    if *idx >= tokens.len() {
        return Err(());
    }
    let tk: &Token = &tokens[*idx];
    if tk.token_type != TokenType::Identifier {
        return Err(());
    }
    let next = peek_one(tokens, idx);
    let ghost old_names = names@;
    if next == TokenType::And || next == TokenType::Comma {
        names.push(tk.literal.clone());
        proof {
            assert(string_views(names@) =~= string_views(old_names).push(tk.literal@));
        }
        *idx += 2;
        let ghost mid_names = names@;
        match build_ident_list(tokens, names, idx) {
            Ok(()) => {
                proof {
                    let sp_rest = sp_ident_list(
                        token_views(tokens@),
                        *old(idx) as int + 2,
                    )->Ok_0;
                    assert(string_views(names@) =~= string_views(old_names) + (seq![
                        tk.literal@,
                    ] + sp_rest.0));
                }
                Ok(())
            },
            Err(()) => Err(()),
        }
    } else {
        names.push(tk.literal.clone());
        proof {
            assert(string_views(names@) =~= string_views(old_names) + seq![tk.literal@]);
        }
        *idx += 1;
        Ok(())
    }
}

/// Joins the strings of `v` with `sep`.
pub fn join_strings(v: &Vec<String>, sep: &str) -> (r: String)
    ensures
        r@ == join_with(string_views(v@), sep@),
{
    let ghost vs = string_views(v@);
    let mut s = String::new();
    let mut i: usize = 0;
    proof {
        assert(vs.subrange(0, 0) =~= Seq::<Seq<char>>::empty());
    }
    while i < v.len()
        invariant
            i <= v@.len(),
            vs == string_views(v@),
            s@ == join_with(vs.subrange(0, i as int), sep@),
        decreases v@.len() - i,
    {
        if i > 0 {
            s.append(sep);
        }
        let part: &String = &v[i];
        s.append(part.as_str());
        proof {
            let pre = vs.subrange(0, i as int);
            let cur = vs.subrange(0, i as int + 1);
            assert(cur.drop_last() =~= pre);
            assert(cur.last() == vs[i as int]);
            if i == 0 {
                assert(Seq::<char>::empty() + vs[0] =~= vs[0]);
            }
        }
        i += 1;
    }
    proof {
        assert(vs.subrange(0, v@.len() as int) =~= vs);
    }
    s
}

/// The diagnostic of `validate_length`: the consumed prefix of the query,
/// rebuilt from its lexemes.
pub open spec fn sp_valid_len_msg(prefix: Seq<TokenModel>) -> Seq<char> {
    "Query valid until after \""@ + join_lex(prefix) + "\"! Possible unfinished query?"@
}

/// The diagnostic of `valid_until_warning`.
pub open spec fn sp_valid_until(vs: Seq<TokenModel>, idx: int) -> Seq<char> {
    if idx >= vs.len() {
        "N/A"@
    } else {
        "Query valid until after \""@ + join_lex(vs.subrange(0, idx)) + "\"!"@
    }
}

/// Joins the lexemes of `tokens[start..end]` with single spaces.
pub fn join_lexemes(tokens: &Vec<Token>, start: usize, end: usize) -> (r: String)
    requires
        start <= end <= tokens@.len(),
    ensures
        r@ == join_lex(token_views(tokens@).subrange(start as int, end as int)),
{
    let ghost vs = token_views(tokens@);
    let mut s = String::new();
    let mut i: usize = start;
    proof {
        assert(vs.subrange(start as int, start as int) =~= Seq::<TokenModel>::empty());
    }
    while i < end
        invariant
            start <= i <= end <= tokens@.len(),
            vs == token_views(tokens@),
            s@ == join_lex(vs.subrange(start as int, i as int)),
        decreases end - i,
    {
        if i > start {
            s.append(" ");
        }
        let tk: &Token = &tokens[i];
        s.append(tk.lexeme.as_str());
        proof {
            let pre = vs.subrange(start as int, i as int);
            let cur = vs.subrange(start as int, i as int + 1);
            assert(cur.drop_last() =~= pre);
            assert(cur.last() == vs[i as int]);
            if i == start {
                assert(Seq::<char>::empty() + vs[i as int].lexeme =~= vs[i as int].lexeme);
            }
        }
        i += 1;
    }
    s
}

/// Joins the condition-clause text of `tokens[start..end]`; see `join_cond`.
pub fn join_condition(tokens: &Vec<Token>, start: usize, end: usize) -> (r: String)
    requires
        start <= end <= tokens@.len(),
    ensures
        r@ == join_cond(token_views(tokens@).subrange(start as int, end as int)),
{
    let ghost vs = token_views(tokens@);
    let mut s = String::new();
    let mut i: usize = start;
    proof {
        assert(vs.subrange(start as int, start as int) =~= Seq::<TokenModel>::empty());
    }
    while i < end
        invariant
            start <= i <= end <= tokens@.len(),
            vs == token_views(tokens@),
            s@ == join_cond(vs.subrange(start as int, i as int)),
        decreases end - i,
    {
        let tk: &Token = &tokens[i];
        if i > start {
            let prev: &Token = &tokens[i - 1];
            if !(prev.token_type == TokenType::OpenParen || tk.token_type
                == TokenType::CloseParen) {
                s.append(" ");
            }
        }
        if tk.token_type == TokenType::Equal {
            s.append("=");
        } else {
            s.append(tk.lexeme.as_str());
        }
        proof {
            let pre = vs.subrange(start as int, i as int);
            let cur = vs.subrange(start as int, i as int + 1);
            assert(cur.drop_last() =~= pre);
            assert(cur.last() == vs[i as int]);
            if i > start {
                assert(cur[cur.len() - 2] == vs[i as int - 1]);
                assert(join_cond(cur) == join_cond(pre) + cond_sep(vs[i as int - 1], vs[i as int])
                    + cond_text(vs[i as int]));
                if cond_sep(vs[i as int - 1], vs[i as int]).len() == 0 {
                    assert(join_cond(pre) + Seq::<char>::empty() =~= join_cond(pre));
                }
            } else {
                assert(Seq::<char>::empty() + cond_text(vs[i as int]) =~= cond_text(vs[i as int]));
            }
        }
        i += 1;
    }
    s
}

/// Builds the `sp_valid_len_msg` diagnostic for the prefix `tokens[..upto]`.
pub fn valid_len_error(tokens: &Vec<Token>, upto: usize) -> (r: String)
    requires
        upto <= tokens@.len(),
    ensures
        r@ == sp_valid_len_msg(token_views(tokens@).subrange(0, upto as int)),
{
    let joined = join_lexemes(tokens, 0, upto);
    let mut m = String::new();
    m.append("Query valid until after \"");
    m.append(joined.as_str());
    m.append("\"! Possible unfinished query?");
    m
}

/// Checks that `*idx` is a valid position when one more token is required;
/// reports the consumed prefix of the query otherwise.
pub fn validate_length(tokens: &Vec<Token>, idx: &usize, required: bool) -> (r: Result<
    (),
    String,
>)
    requires
        *idx <= tokens@.len(),
    ensures
        r is Ok <==> !(*idx >= tokens@.len() && required),
        r matches Err(m) ==> m@ == sp_valid_len_msg(
            token_views(tokens@).subrange(0, *idx as int),
        ),
{
    if *idx >= tokens.len() && required {
        return Err(valid_len_error(tokens, *idx));
    }
    Ok(())
}

/// The "query valid until after ..." diagnostic for a parse error at `*idx`.
pub fn valid_until_warning(tokens: &Vec<Token>, idx: &usize) -> (r: String)
    ensures
        r@ == sp_valid_until(token_views(tokens@), *idx as int),
{
    if *idx >= tokens.len() {
        let mut m = String::new();
        m.append("N/A");
        return m;
    }
    let joined = join_lexemes(tokens, 0, *idx);
    let mut m = String::new();
    m.append("Query valid until after \"");
    m.append(joined.as_str());
    m.append("\"!");
    m
}

/// Indentation for pretty-printed debug trees: two spaces per level.
pub fn get_tab(depth: u16) -> (r: String)
    ensures
        r@ == Seq::new(2 * depth as nat, |i: int| ' '),
{
    let mut s = String::new();
    let mut i: u16 = 0;
    proof {
        assert(s@ =~= Seq::new(0nat, |j: int| ' '));
    }
    while i < depth
        invariant
            i <= depth,
            s@ == Seq::new(2 * i as nat, |j: int| ' '),
        decreases depth - i,
    {
        s.append("  ");
        proof {
            reveal_strlit("  ");
            assert(s@ =~= Seq::new(2 * (i + 1) as nat, |j: int| ' '));
        }
        i += 1;
    }
    s
}

/// The kind of the token one past `*idx`, or `NullToken` when there is none.
pub fn peek_one(tokens: &Vec<Token>, idx: &usize) -> (k: TokenType)
    ensures
        k == (if *idx as int + 1 < tokens@.len() {
            token_views(tokens@)[*idx as int + 1].kind
        } else {
            TokenType::NullToken
        }),
{
    if tokens.len() == 0 || *idx >= tokens.len() - 1 {
        TokenType::NullToken
    } else {
        let tk: &Token = &tokens[*idx + 1];
        tk.token_type
    }
}

} // verus!
