//! The shorthand form of a signature, as tokens, and the proof that parsing
//! it gives the signature back.

use crate::cursor::{lemma_rest_step, Cursor};
use crate::error::ErrorView;
use crate::func::{
    all_anonymous, anonymous_params, lemma_param_group_reaches, lemma_val_types_reaches, param_view,
    params_view, spec_param_group, spec_val_types, FunctionType, FunctionTypeView, ParamView,
};
use crate::parser::tokens_view;
use crate::token::{Keyword, Token, TokenView};
use crate::valtype::ValType;
use vstd::prelude::*;

verus! {

/// The token that names a value type.
pub open spec fn val_type_token(ty: ValType) -> TokenView {
    TokenView::Keyword(ty.keyword().text())
}

/// The tokens that name the value types `tys`, in their order.
pub open spec fn val_type_tokens(tys: Seq<ValType>) -> Seq<TokenView> {
    Seq::new(tys.len(), |i: int| val_type_token(tys[i]))
}

/// The types of the parameters `ps`, in their order.
pub open spec fn param_types(ps: Seq<ParamView>) -> Seq<ValType> {
    Seq::new(ps.len(), |i: int| ps[i].ty)
}

/// The number of anonymous parameters in front of the first named one.
pub open spec fn anonymous_run(ps: Seq<ParamView>) -> nat
    decreases ps.len(),
{
    if ps.len() > 0 && !ps[0].is_named() {
        1 + anonymous_run(ps.drop_first())
    } else {
        0
    }
}

/// A group: `(`, the keyword `kw`, what the group holds, and `)`.
pub open spec fn group_tokens(kw: Keyword, body: Seq<TokenView>) -> Seq<TokenView> {
    seq![TokenView::LParen, TokenView::Keyword(kw.text())] + body + seq![TokenView::RParen]
}

/// What the group of one named parameter holds: the identifier and the
/// display name, as far as the parameter has them, and the type.
pub open spec fn param_body_tokens(p: ParamView) -> Seq<TokenView> {
    (match p.id {
        Some(id) => seq![TokenView::Id(id)],
        None => Seq::empty(),
    }) + (match p.name {
        Some(name) => seq![TokenView::Name(name)],
        None => Seq::empty(),
    }) + seq![val_type_token(p.ty)]
}

/// The group of one named parameter: `(param $id (@name "..") t)`.
pub open spec fn named_param_tokens(p: ParamView) -> Seq<TokenView> {
    group_tokens(Keyword::Param, param_body_tokens(p))
}

/// The group of the anonymous parameters of types `tys`: `(param t t ..)`.
pub open spec fn anonymous_param_tokens(tys: Seq<ValType>) -> Seq<TokenView> {
    group_tokens(Keyword::Param, val_type_tokens(tys))
}

/// The parameter groups of the shorthand form: each named parameter in a
/// group of its own, and each longest run of anonymous parameters in one
/// group.
pub open spec fn param_tokens(ps: Seq<ParamView>) -> Seq<TokenView>
    decreases ps.len(),
{
    if ps.len() == 0 {
        Seq::empty()
    } else if ps[0].is_named() {
        named_param_tokens(ps[0]) + param_tokens(ps.drop_first())
    } else {
        let n = anonymous_run(ps) as int;
        proof {
            lemma_anonymous_run(ps);
        }
        anonymous_param_tokens(param_types(ps.take(n))) + param_tokens(ps.skip(n))
    }
}

/// The result group of the shorthand form: all results in one group
/// `(result t t ..)`, and nothing where there is no result.
pub open spec fn result_tokens(results: Seq<ValType>) -> Seq<TokenView> {
    if results.len() == 0 {
        Seq::empty()
    } else {
        group_tokens(Keyword::Result, val_type_tokens(results))
    }
}

/// The shorthand form of a signature: its parameter groups, then its result
/// group.
pub open spec fn signature_tokens(f: FunctionTypeView) -> Seq<TokenView> {
    param_tokens(f.params) + result_tokens(f.results)
}

/// The tokens begin with a parameter group or a result group.
pub open spec fn begins_group(ts: Seq<TokenView>) -> bool {
    ts.len() >= 2 && ts[0] == TokenView::LParen && (ts[1] == TokenView::Keyword(
        Keyword::Param.text(),
    ) || ts[1] == TokenView::Keyword(Keyword::Result.text()))
}

/// The run of anonymous parameters in front is no longer than the list,
/// holds anonymous parameters only, and ends at a named parameter or at the
/// end of the list.
pub proof fn lemma_anonymous_run(ps: Seq<ParamView>)
    ensures
        anonymous_run(ps) <= ps.len(),
        ps.len() > 0 && !ps[0].is_named() ==> anonymous_run(ps) >= 1,
        forall|i: int| 0 <= i < anonymous_run(ps) ==> !(#[trigger] ps[i]).is_named(),
        anonymous_run(ps) < ps.len() ==> ps[anonymous_run(ps) as int].is_named(),
    decreases ps.len(),
{
    if ps.len() > 0 && !ps[0].is_named() {
        let tail = ps.drop_first();
        lemma_anonymous_run(tail);
        assert forall|i: int| 0 <= i < anonymous_run(ps) implies !(#[trigger] ps[i]).is_named() by {
            if i > 0 {
                assert(ps[i] == tail[i - 1]);
            }
        }
        if anonymous_run(ps) < ps.len() {
            assert(ps[anonymous_run(ps) as int] == tail[anonymous_run(tail) as int]);
        }
    }
}

/// Types written one after the other, up to the end of their group, parse
/// as those types.
pub proof fn lemma_val_types_roundtrip(
    c: Cursor,
    tys: Seq<ValType>,
    tail: Seq<TokenView>,
    acc: Seq<ValType>,
)
    requires
        c.well_formed(),
        c.rest() == val_type_tokens(tys) + tail,
        tail.len() == 0 || tail[0] == TokenView::RParen,
    ensures
        spec_val_types(c, acc) == Ok::<_, ErrorView>((acc + tys, c.skip(tys.len()))),
        c.skip(tys.len()).well_formed(),
        c.skip(tys.len()).rest() == tail,
    decreases tys.len(),
{
    if tys.len() == 0 {
        assert(val_type_tokens(tys) + tail =~= tail);
        assert(c.skip(0) == c);
        assert(acc + tys =~= acc);
        if tail.len() > 0 {
            assert(tail =~= seq![tail[0]] + tail.drop_first());
            lemma_rest_step(c, tail[0], tail.drop_first());
        } else {
            assert(c.rest().len() == 0);
        }
    } else {
        let ty = tys[0];
        let r = val_type_tokens(tys.drop_first()) + tail;
        assert(val_type_tokens(tys) + tail =~= seq![val_type_token(ty)] + r);
        lemma_rest_step(c, val_type_token(ty), r);
        ValType::lemma_named_keyword();
        assert(ValType::spec_parse(c) == Ok::<_, ErrorView>((ty, c.advance())));
        lemma_val_types_roundtrip(c.advance(), tys.drop_first(), tail, acc.push(ty));
        assert(acc.push(ty) + tys.drop_first() =~= acc + tys);
        assert(c.advance().skip((tys.len() - 1) as nat) == c.skip(tys.len()));
    }
}

/// A cursor whose rest begins with a group stands at that group, and two
/// tokens further at what the group holds.
pub proof fn lemma_group_open(c: Cursor, kw: Keyword, body: Seq<TokenView>, more: Seq<TokenView>)
    requires
        c.well_formed(),
        c.rest() == group_tokens(kw, body) + more,
    ensures
        c.at_group(kw),
        c.advance().advance() == c.skip(2),
        c.skip(2).well_formed(),
        c.skip(2).rest() == body + (seq![TokenView::RParen] + more),
{
    let lparen = TokenView::LParen;
    let keyword = TokenView::Keyword(kw.text());
    let inner = body + (seq![TokenView::RParen] + more);
    assert(c.rest() =~= seq![lparen] + (seq![keyword] + inner));
    lemma_rest_step(c, lparen, seq![keyword] + inner);
    lemma_rest_step(c.advance(), keyword, inner);
}

/// What the group of a named parameter holds parses as that parameter.
pub proof fn lemma_named_body(body: Cursor, p: ParamView, more: Seq<TokenView>)
    requires
        body.well_formed(),
        p.is_named(),
        body.rest() == param_body_tokens(p) + more,
    ensures
        spec_param_group(body, true) == Ok::<_, ErrorView>(
            (seq![p], body.skip(param_body_tokens(p).len())),
        ),
        body.skip(param_body_tokens(p).len()).well_formed(),
        body.skip(param_body_tokens(p).len()).rest() == more,
{
    let ty = val_type_token(p.ty);
    let after_name = seq![ty] + more;
    let name_tokens = match p.name {
        Some(name) => seq![TokenView::Name(name)],
        None => Seq::empty(),
    };
    let after_id = name_tokens + after_name;
    let c1 = body.optional_id().1;
    if p.id is Some {
        assert(body.rest() =~= seq![TokenView::Id(p.id->0)] + after_id);
        lemma_rest_step(body, TokenView::Id(p.id->0), after_id);
    } else {
        assert(body.rest() =~= seq![TokenView::Name(p.name->0)] + after_name);
        lemma_rest_step(body, TokenView::Name(p.name->0), after_name);
    }
    assert(body.optional_id() == (p.id, c1));
    assert(c1.well_formed());
    assert(c1.rest() =~= after_id);
    let c2 = c1.optional_name().1;
    if p.name is Some {
        lemma_rest_step(c1, TokenView::Name(p.name->0), after_name);
    } else {
        assert(after_id =~= seq![ty] + more);
        lemma_rest_step(c1, ty, more);
    }
    assert(c1.optional_name() == (p.name, c2));
    assert(c2.well_formed());
    assert(c2.rest() =~= after_name);
    lemma_rest_step(c2, ty, more);
    ValType::lemma_named_keyword();
    assert(ValType::spec_parse(c2) == Ok::<_, ErrorView>((p.ty, c2.advance())));
    assert(c2.advance() == body.skip(param_body_tokens(p).len()));
}

/// What a group of anonymous parameters holds parses as those parameters.
pub proof fn lemma_anonymous_body(
    body: Cursor,
    tys: Seq<ValType>,
    more: Seq<TokenView>,
    allow_names: bool,
)
    requires
        body.well_formed(),
        tys.len() > 0,
        body.rest() == val_type_tokens(tys) + more,
        more.len() == 0 || more[0] == TokenView::RParen,
    ensures
        spec_param_group(body, allow_names) == Ok::<_, ErrorView>(
            (anonymous_params(tys), body.skip(tys.len())),
        ),
        body.skip(tys.len()).well_formed(),
        body.skip(tys.len()).rest() == more,
{
    let ty0 = tys[0];
    let inner = val_type_tokens(tys.drop_first()) + more;
    assert(body.rest() =~= seq![val_type_token(ty0)] + inner);
    lemma_rest_step(body, val_type_token(ty0), inner);
    ValType::lemma_named_keyword();
    assert(ValType::spec_parse(body) == Ok::<_, ErrorView>((ty0, body.advance())));
    lemma_val_types_roundtrip(body.advance(), tys.drop_first(), more, seq![ty0]);
    assert(seq![ty0] + tys.drop_first() =~= tys);
    assert(body.advance().skip((tys.len() - 1) as nat) == body.skip(tys.len()));
}

/// A parameter group whose contents parse as `group` adds `group` to the
/// parameters, where no result is there yet.
pub proof fn lemma_param_group_step(
    c: Cursor,
    body: Seq<TokenView>,
    group: Seq<ParamView>,
    more: Seq<TokenView>,
    acc: FunctionTypeView,
    allow_names: bool,
)
    requires
        c.well_formed(),
        c.rest() == group_tokens(Keyword::Param, body) + more,
        acc.results.len() == 0,
        spec_param_group(c.skip(2), allow_names) == Ok::<_, ErrorView>(
            (group, c.skip(2).skip(body.len())),
        ),
        c.skip(2).skip(body.len()).well_formed(),
        c.skip(2).skip(body.len()).rest() == seq![TokenView::RParen] + more,
    ensures
        acc.finish_parse(allow_names, c) == (FunctionTypeView {
            params: acc.params + group,
            results: acc.results,
        }).finish_parse(allow_names, c.skip(group_tokens(Keyword::Param, body).len())),
        c.skip(group_tokens(Keyword::Param, body).len()).well_formed(),
        c.skip(group_tokens(Keyword::Param, body).len()).rest() == more,
{
    lemma_group_open(c, Keyword::Param, body, more);
    let end = c.skip(2).skip(body.len());
    lemma_rest_step(end, TokenView::RParen, more);
    assert(end.advance() == c.skip(group_tokens(Keyword::Param, body).len()));
}

/// Parameter groups in shorthand form parse as their parameters, whatever
/// follows them.
pub proof fn lemma_params_roundtrip(
    c: Cursor,
    ps: Seq<ParamView>,
    tail: Seq<TokenView>,
    acc: FunctionTypeView,
    allow_names: bool,
)
    requires
        c.well_formed(),
        c.rest() == param_tokens(ps) + tail,
        acc.results.len() == 0,
        allow_names || all_anonymous(ps),
    ensures
        acc.finish_parse(allow_names, c) == (FunctionTypeView {
            params: acc.params + ps,
            results: acc.results,
        }).finish_parse(allow_names, c.skip(param_tokens(ps).len())),
        c.skip(param_tokens(ps).len()).well_formed(),
        c.skip(param_tokens(ps).len()).rest() == tail,
    decreases ps.len(),
{
    let rparen = TokenView::RParen;
    if ps.len() == 0 {
        assert(param_tokens(ps) + tail =~= tail);
        assert(c.skip(0) == c);
        assert(acc.params + ps =~= acc.params);
    } else {
        lemma_anonymous_run(ps);
        let named = ps[0].is_named();
        let n = if named {
            1
        } else {
            anonymous_run(ps) as int
        };
        let group = ps.take(n);
        let next = ps.skip(n);
        let body = if named {
            param_body_tokens(ps[0])
        } else {
            val_type_tokens(param_types(group))
        };
        let more = param_tokens(next) + tail;
        assert(named ==> next =~= ps.drop_first());
        assert(param_tokens(ps) == group_tokens(Keyword::Param, body) + param_tokens(next));
        assert(c.rest() =~= group_tokens(Keyword::Param, body) + more);
        lemma_group_open(c, Keyword::Param, body, more);
        if named {
            assert(allow_names);
            assert(group =~= seq![ps[0]]);
            lemma_named_body(c.skip(2), ps[0], seq![rparen] + more);
        } else {
            lemma_anonymous_body(c.skip(2), param_types(group), seq![rparen] + more, allow_names);
            assert(anonymous_params(param_types(group)) =~= group);
        }
        lemma_param_group_step(c, body, group, more, acc, allow_names);
        let acc1 = FunctionTypeView { params: acc.params + group, results: acc.results };
        let c1 = c.skip(group_tokens(Keyword::Param, body).len());
        assert(all_anonymous(ps) ==> all_anonymous(next)) by {
            if all_anonymous(ps) {
                assert forall|i: int| 0 <= i < next.len() implies !(#[trigger] next[i]).is_named() by {
                    assert(next[i] == ps[i + n]);
                }
            }
        }
        lemma_params_roundtrip(c1, next, tail, acc1, allow_names);
        assert(acc1.params + next =~= acc.params + ps);
        assert(c1.skip(param_tokens(next).len()) == c.skip(param_tokens(ps).len()));
    }
}

/// A cursor whose rest does not begin with a parameter or result group
/// stands at no such group.
pub proof fn lemma_no_group(c: Cursor, tail: Seq<TokenView>)
    requires
        c.well_formed(),
        c.rest() == tail,
        !begins_group(tail),
    ensures
        !c.at_group(Keyword::Param),
        !c.at_group(Keyword::Result),
{
    if tail.len() >= 2 {
        assert(tail =~= seq![tail[0]] + tail.drop_first());
        lemma_rest_step(c, tail[0], tail.drop_first());
        assert(tail.drop_first() =~= seq![tail[1]] + tail.drop_first().drop_first());
        lemma_rest_step(c.advance(), tail[1], tail.drop_first().drop_first());
    } else if tail.len() == 1 {
        assert(tail =~= seq![tail[0]] + tail.drop_first());
        lemma_rest_step(c, tail[0], tail.drop_first());
        assert(c.advance().rest().len() == 0);
    } else {
        assert(c.rest().len() == 0);
    }
}

/// The result group in shorthand form parses as its results, and ends the
/// signature where no further group follows.
pub proof fn lemma_results_roundtrip(
    c: Cursor,
    results: Seq<ValType>,
    tail: Seq<TokenView>,
    acc: FunctionTypeView,
    allow_names: bool,
)
    requires
        c.well_formed(),
        c.rest() == result_tokens(results) + tail,
        !begins_group(tail),
    ensures
        acc.finish_parse(allow_names, c) == Ok::<_, ErrorView>(
            (
                FunctionTypeView { params: acc.params, results: acc.results + results },
                c.skip(result_tokens(results).len()),
            ),
        ),
        c.skip(result_tokens(results).len()).well_formed(),
        c.skip(result_tokens(results).len()).rest() == tail,
{
    let rparen = TokenView::RParen;
    if results.len() == 0 {
        assert(result_tokens(results) + tail =~= tail);
        assert(c.skip(0) == c);
        assert(acc.results + results =~= acc.results);
        lemma_no_group(c, tail);
    } else {
        lemma_group_open(c, Keyword::Result, val_type_tokens(results), tail);
        let body = c.skip(2);
        assert(!c.at_group(Keyword::Param)) by {
            Keyword::lemma_text_injective(Keyword::Param, Keyword::Result);
        }
        lemma_val_types_roundtrip(body, results, seq![rparen] + tail, Seq::empty());
        assert(Seq::<ValType>::empty() + results =~= results);
        let c3 = body.skip(results.len());
        lemma_rest_step(c3, rparen, tail);
        let c4 = c3.advance();
        lemma_no_group(c4, tail);
        let acc1 = FunctionTypeView { params: acc.params, results: acc.results + results };
        assert(acc1.finish_parse(allow_names, c4) == Ok::<_, ErrorView>((acc1, c4)));
        assert(c4 == c.skip(result_tokens(results).len()));
    }
}

/// Parsing the shorthand form of a signature gives the signature back: the
/// same parameters in the same order, each with the identifier and the
/// display name that it has and with no other, and the same results in the
/// same order; and the parse consumes the whole form. This holds where names
/// are allowed, and also where they are not if no parameter has one.
pub proof fn lemma_signature_roundtrip(f: FunctionTypeView, allow_names: bool)
    requires
        allow_names || all_anonymous(f.params),
    ensures
        FunctionTypeView::empty().finish_parse(
            allow_names,
            Cursor::start(signature_tokens(f)),
        ) == Ok::<_, ErrorView>(
            (f, Cursor { tokens: signature_tokens(f), pos: signature_tokens(f).len() }),
        ),
{
    let c = Cursor::start(signature_tokens(f));
    let empty = FunctionTypeView::empty();
    assert(c.rest() =~= signature_tokens(f));
    lemma_params_roundtrip(c, f.params, result_tokens(f.results), empty, allow_names);
    let c1 = c.skip(param_tokens(f.params).len());
    let acc = FunctionTypeView { params: empty.params + f.params, results: empty.results };
    assert(result_tokens(f.results) =~= result_tokens(f.results) + Seq::empty());
    lemma_results_roundtrip(c1, f.results, Seq::empty(), acc, allow_names);
    assert(empty.params + f.params =~= f.params);
    assert(acc.results + f.results =~= f.results);
}

/// Where no names are allowed, a signature that parses has anonymous
/// parameters only, if it began with such.
pub proof fn lemma_without_names(acc: FunctionTypeView, c: Cursor)
    requires
        all_anonymous(acc.params),
    ensures
        acc.finish_parse(false, c) matches Ok((f, _)) ==> all_anonymous(f.params),
    decreases c.remaining(),
{
    let body = c.advance().advance();
    if c.at_group(Keyword::Param) {
        if acc.results.len() == 0 {
            if let Ok((group, c1)) = spec_param_group(body, false) {
                if let Ok(c2) = c1.close_group() {
                    lemma_param_group_reaches(body, false);
                    let acc1 = FunctionTypeView {
                        params: acc.params + group,
                        results: acc.results,
                    };
                    assert(all_anonymous(group));
                    lemma_without_names(acc1, c2);
                }
            }
        }
    } else if c.at_group(Keyword::Result) {
        if let Ok((group, c1)) = spec_val_types(body, Seq::empty()) {
            if let Ok(c2) = c1.close_group() {
                lemma_val_types_reaches(body, Seq::empty());
                lemma_without_names(
                    FunctionTypeView { params: acc.params, results: acc.results + group },
                    c2,
                );
            }
        }
    }
}

/// A signature that was parsed, written in shorthand form and parsed again
/// under the same rule on names, is the same signature: the same parameters
/// and results in the same order, with names exactly where they were.
pub proof fn lemma_reparse(c: Cursor, allow_names: bool)
    ensures
        FunctionTypeView::empty().finish_parse(allow_names, c) matches Ok((f, _))
            ==> FunctionTypeView::empty().finish_parse(
            allow_names,
            Cursor::start(signature_tokens(f)),
        ) == Ok::<_, ErrorView>(
            (f, Cursor { tokens: signature_tokens(f), pos: signature_tokens(f).len() }),
        ),
{
    if let Ok((f, _)) = FunctionTypeView::empty().finish_parse(allow_names, c) {
        if !allow_names {
            lemma_without_names(FunctionTypeView::empty(), c);
        }
        lemma_signature_roundtrip(f, allow_names);
    }
}

/// A run of `n` anonymous parameters that ends the list or stands in front
/// of a named parameter is the run in front.
pub proof fn lemma_anonymous_run_is(ps: Seq<ParamView>, n: int)
    requires
        0 <= n <= ps.len(),
        forall|i: int| 0 <= i < n ==> !(#[trigger] ps[i]).is_named(),
        n < ps.len() ==> ps[n].is_named(),
    ensures
        anonymous_run(ps) == n,
    decreases n,
{
    if n > 0 {
        let tail = ps.drop_first();
        assert forall|i: int| 0 <= i < n - 1 implies !(#[trigger] tail[i]).is_named() by {
            assert(tail[i] == ps[i + 1]);
        }
        lemma_anonymous_run_is(tail, n - 1);
    }
}

impl ValType {
    /// The token that names the type.
    pub fn token(self) -> (t: Token<'static>)
        ensures
            t@ == val_type_token(self),
    {
        let kw = match self {
            ValType::I32 => Keyword::I32,
            ValType::I64 => Keyword::I64,
            ValType::F32 => Keyword::F32,
            ValType::F64 => Keyword::F64,
            ValType::Anyref => Keyword::Anyref,
            ValType::Funcref => Keyword::Funcref,
            ValType::V128 => Keyword::V128,
            ValType::Nullref => Keyword::Nullref,
        };
        Token::Keyword(kw.as_str())
    }
}

/// Adds one token at the end.
fn push_token<'a>(out: &mut Vec<Token<'a>>, t: Token<'a>)
    ensures
        tokens_view(final(out)@) == tokens_view(old(out)@).push(t@),
{
    out.push(t);
    assert(tokens_view(out@) =~= tokens_view(old(out)@).push(t@));
}

/// Adds the tokens that name the value types `tys` at the end.
fn push_val_types<'a>(out: &mut Vec<Token<'a>>, tys: &Vec<ValType>)
    ensures
        tokens_view(final(out)@) == tokens_view(old(out)@) + val_type_tokens(tys@),
{
    let mut i: usize = 0;
    assert(tokens_view(out@) =~= tokens_view(old(out)@) + val_type_tokens(tys@.take(0)));
    while i < tys.len()
        invariant
            i <= tys.len(),
            tokens_view(out@) == tokens_view(old(out)@) + val_type_tokens(tys@.take(i as int)),
        decreases tys.len() - i,
    {
        push_token(out, tys[i].token());
        i += 1;
        assert(tokens_view(out@) =~= tokens_view(old(out)@) + val_type_tokens(
            tys@.take(i as int),
        ));
    }
    assert(tys@.take(i as int) =~= tys@);
}

impl<'a> FunctionType<'a> {
    /// The signature in shorthand form: each named parameter in a group of
    /// its own, each longest run of anonymous parameters in one group, and
    /// all results in one group.
    pub fn to_tokens(&self) -> (tokens: Vec<Token<'a>>)
        ensures
            tokens_view(tokens@) == signature_tokens(self@),
    {
        let mut out: Vec<Token<'a>> = Vec::new();
        let ghost ps = params_view(self.params@);
        let len = self.params.len();
        let mut i: usize = 0;
        assert(tokens_view(out@) =~= Seq::empty());
        assert(ps.skip(0) =~= ps);
        while i < len
            invariant
                i <= len,
                len == self.params.len(),
                ps == params_view(self.params@),
                tokens_view(out@) + param_tokens(ps.skip(i as int)) == param_tokens(ps),
            decreases len - i,
        {
            let ghost before = tokens_view(out@);
            let ghost here = ps.skip(i as int);
            let ghost start = i as int;
            let (id, name, ty) = self.params[i];
            assert(here[0] == param_view(self.params@[start]));
            push_token(&mut out, Token::LParen);
            push_token(&mut out, Token::Keyword(Keyword::Param.as_str()));
            if id.is_some() || name.is_some() {
                if let Some(id) = id {
                    push_token(&mut out, Token::Id(id.name));
                }
                if let Some(name) = name {
                    push_token(&mut out, Token::Name(name.name));
                }
                push_token(&mut out, ty.token());
                push_token(&mut out, Token::RParen);
                i += 1;
                proof {
                    assert(tokens_view(out@) =~= before + named_param_tokens(here[0]));
                    assert(here.drop_first() =~= ps.skip(i as int));
                    assert(before + named_param_tokens(here[0]) + param_tokens(ps.skip(i as int))
                        =~= before + param_tokens(here));
                }
            } else {
                let ghost opened = tokens_view(out@);
                assert(here.take(0) =~= Seq::empty());
                assert(val_type_tokens(param_types(here.take(0))) =~= Seq::empty());
                assert(opened + val_type_tokens(param_types(here.take(0))) =~= opened);
                while i < len && self.params[i].0.is_none() && self.params[i].1.is_none()
                    invariant
                        0 <= start <= i <= len,
                        len == self.params.len(),
                        ps == params_view(self.params@),
                        here == ps.skip(start),
                        forall|k: int| 0 <= k < i - start ==> !(#[trigger] here[k]).is_named(),
                        tokens_view(out@) == opened + val_type_tokens(
                            param_types(here.take(i - start)),
                        ),
                    decreases len - i,
                {
                    assert(here[i - start] == param_view(self.params@[i as int]));
                    push_token(&mut out, self.params[i].2.token());
                    i += 1;
                    assert(tokens_view(out@) =~= opened + val_type_tokens(
                        param_types(here.take(i - start)),
                    ));
                }
                push_token(&mut out, Token::RParen);
                proof {
                    let n = i - start;
                    if i < len {
                        assert(here[n] == param_view(self.params@[i as int]));
                    }
                    lemma_anonymous_run_is(here, n);
                    assert(here.skip(n) =~= ps.skip(i as int));
                    assert(tokens_view(out@) =~= before + anonymous_param_tokens(
                        param_types(here.take(n)),
                    ));
                    assert(before + anonymous_param_tokens(param_types(here.take(n)))
                        + param_tokens(ps.skip(i as int)) =~= before + param_tokens(here));
                }
            }
        }
        assert(param_tokens(ps.skip(i as int)) =~= Seq::empty());
        assert(tokens_view(out@) =~= param_tokens(ps));
        if self.results.len() > 0 {
            push_token(&mut out, Token::LParen);
            push_token(&mut out, Token::Keyword(Keyword::Result.as_str()));
            push_val_types(&mut out, &self.results);
            push_token(&mut out, Token::RParen);
            assert(tokens_view(out@) =~= param_tokens(ps) + result_tokens(self.results@));
        } else {
            assert(tokens_view(out@) =~= param_tokens(ps) + result_tokens(self.results@));
        }
        out
    }
}

} // verus!
