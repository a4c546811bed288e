//! Function signatures: groups of parameters, then groups of results.

use crate::cursor::Cursor;
use crate::error::{Error, ErrorView};
use crate::ident::{option_view, Id, NameAnnotation};
use crate::parser::{moved, parsed, Parser};
use crate::token::Keyword;
use crate::valtype::ValType;
use vstd::prelude::*;

verus! {

/// What a parameter stands for: an optional identifier, an optional display
/// name and a type.
pub struct ParamView {
    pub id: Option<Seq<char>>,
    pub name: Option<Seq<char>>,
    pub ty: ValType,
}

impl ParamView {
    /// The parameter of type `ty` without identifier and display name.
    pub open spec fn anonymous(ty: ValType) -> ParamView {
        ParamView { id: None, name: None, ty }
    }

    /// The parameter has an identifier or a display name.
    pub open spec fn is_named(self) -> bool {
        self.id is Some || self.name is Some
    }
}

/// What one parameter stands for.
pub open spec fn param_view<'a>(
    p: (Option<Id<'a>>, Option<NameAnnotation<'a>>, ValType),
) -> ParamView {
    ParamView { id: option_view(p.0), name: option_view(p.1), ty: p.2 }
}

/// What a list of parameters stands for.
pub open spec fn params_view<'a>(
    ps: Seq<(Option<Id<'a>>, Option<NameAnnotation<'a>>, ValType)>,
) -> Seq<ParamView> {
    Seq::new(ps.len(), |i: int| param_view(ps[i]))
}

/// One anonymous parameter for each of `tys`, in their order.
pub open spec fn anonymous_params(tys: Seq<ValType>) -> Seq<ParamView> {
    Seq::new(tys.len(), |i: int| ParamView::anonymous(tys[i]))
}

/// None of the parameters has an identifier or a display name.
pub open spec fn all_anonymous(ps: Seq<ParamView>) -> bool {
    forall|i: int| 0 <= i < ps.len() ==> !(#[trigger] ps[i]).is_named()
}

/// What a function type stands for.
pub struct FunctionTypeView {
    pub params: Seq<ParamView>,
    pub results: Seq<ValType>,
}

/// A function type with parameters and results.
#[derive(Clone, Debug, PartialEq, Eq)]
pub struct FunctionType<'a> {
    /// The parameters, in the order of the call, each with the identifier
    /// and the display name that it was given, if any.
    pub params: Vec<(Option<Id<'a>>, Option<NameAnnotation<'a>>, ValType)>,
    /// The types of the results, in their order.
    pub results: Vec<ValType>,
}

impl<'a> View for FunctionType<'a> {
    type V = FunctionTypeView;

    open spec fn view(&self) -> FunctionTypeView {
        FunctionTypeView { params: params_view(self.params@), results: self.results@ }
    }
}

/// Value types up to the end of the current group, added to `acc`.
pub open spec fn spec_val_types(c: Cursor, acc: Seq<ValType>) -> Result<
    (Seq<ValType>, Cursor),
    ErrorView,
>
    decreases c.remaining(),
{
    if c.is_empty() {
        Ok((acc, c))
    } else {
        match ValType::spec_parse(c) {
            Ok((ty, next)) => spec_val_types(next, acc.push(ty)),
            Err(e) => Err(e),
        }
    }
}

/// What stands in a parameter group behind its keyword. Either nothing; or,
/// where names are allowed, an identifier or a display name or both, and one
/// type; or one type or more, each an anonymous parameter.
pub open spec fn spec_param_group(c: Cursor, allow_names: bool) -> Result<
    (Seq<ParamView>, Cursor),
    ErrorView,
> {
    if c.is_empty() {
        Ok((Seq::empty(), c))
    } else {
        let (id, c1) = if allow_names {
            c.optional_id()
        } else {
            (None, c)
        };
        let (name, c2) = if allow_names {
            c1.optional_name()
        } else {
            (None, c1)
        };
        match ValType::spec_parse(c2) {
            Err(e) => Err(e),
            Ok((ty, c3)) => if id is Some || name is Some {
                Ok((seq![ParamView { id, name, ty }], c3))
            } else {
                match spec_val_types(c3, seq![ty]) {
                    Err(e) => Err(e),
                    Ok((tys, c4)) => Ok((anonymous_params(tys), c4)),
                }
            },
        }
    }
}

/// The types of a group end where they began or further on, in the same
/// tokens.
pub proof fn lemma_val_types_reaches(c: Cursor, acc: Seq<ValType>)
    ensures
        spec_val_types(c, acc) matches Ok((_, end)) ==> c.reaches(end),
    decreases c.remaining(),
{
    if !c.is_empty() && ValType::spec_parse(c) is Ok {
        lemma_val_types_reaches(c.advance(), acc.push(ValType::spec_parse(c)->Ok_0.0));
    }
}

/// A parameter group ends where it began or further on, in the same tokens.
pub proof fn lemma_param_group_reaches(c: Cursor, allow_names: bool)
    ensures
        spec_param_group(c, allow_names) matches Ok((_, end)) ==> c.reaches(end),
{
    if let Ok((ps, end)) = spec_param_group(c, allow_names) {
        if !c.is_empty() {
            let c1 = if allow_names {
                c.optional_id().1
            } else {
                c
            };
            let c2 = if allow_names {
                c1.optional_name().1
            } else {
                c1
            };
            let (ty, c3) = ValType::spec_parse(c2)->Ok_0;
            lemma_val_types_reaches(c3, seq![ty]);
        }
    }
}

/// A parameter group that gives a name holds exactly one parameter: what
/// stands in a group is either anonymous parameters only, or, where names
/// are allowed, one single parameter.
pub proof fn lemma_param_group_shape(c: Cursor, allow_names: bool)
    ensures
        spec_param_group(c, allow_names) matches Ok((group, _)) ==> all_anonymous(group) || (
        allow_names && group.len() == 1),
{
}

impl FunctionTypeView {
    /// The function type without parameters and results.
    pub open spec fn empty() -> FunctionTypeView {
        FunctionTypeView { params: Seq::empty(), results: Seq::empty() }
    }

    /// The groups that follow, added to this function type. A group is
    /// `(param ..)` or `(result ..)`. A parameter group once a result is there
    /// is an error, which points at the group's keyword. The first thing that
    /// is not such a group ends the signature and is not consumed.
    pub open spec fn finish_parse(self, allow_names: bool, c: Cursor) -> Result<
        (FunctionTypeView, Cursor),
        ErrorView,
    >
        decreases c.remaining(),
    {
        let body = c.advance().advance();
        if c.at_group(Keyword::Param) {
            if self.results.len() > 0 {
                Err(ErrorView::ParamAfterResult { at: c.pos + 1 })
            } else {
                match spec_param_group(body, allow_names) {
                    Err(e) => Err(e),
                    Ok((group, c1)) => match c1.close_group() {
                        Err(e) => Err(e),
                        Ok(c2) => {
                            proof {
                                lemma_param_group_reaches(body, allow_names);
                            }
                            FunctionTypeView {
                                params: self.params + group,
                                results: self.results,
                            }.finish_parse(allow_names, c2)
                        },
                    },
                }
            }
        } else if c.at_group(Keyword::Result) {
            match spec_val_types(body, Seq::empty()) {
                Err(e) => Err(e),
                Ok((group, c1)) => match c1.close_group() {
                    Err(e) => Err(e),
                    Ok(c2) => {
                        proof {
                            lemma_val_types_reaches(body, Seq::empty());
                        }
                        FunctionTypeView {
                            params: self.params,
                            results: self.results + group,
                        }.finish_parse(allow_names, c2)
                    },
                },
            }
        } else {
            Ok((self, c))
        }
    }

    /// A signature only adds: what was there stays in front, in its order.
    pub proof fn lemma_finish_parse_extends(self, allow_names: bool, c: Cursor)
        ensures
            self.finish_parse(allow_names, c) matches Ok((sig, _)) ==> self.params.is_prefix_of(
                sig.params,
            ) && self.results.is_prefix_of(sig.results),
        decreases c.remaining(),
    {
        let body = c.advance().advance();
        if c.at_group(Keyword::Param) {
            if self.results.len() == 0 {
                if let Ok((group, c1)) = spec_param_group(body, allow_names) {
                    if let Ok(c2) = c1.close_group() {
                        lemma_param_group_reaches(body, allow_names);
                        let next = FunctionTypeView {
                            params: self.params + group,
                            results: self.results,
                        };
                        next.lemma_finish_parse_extends(allow_names, c2);
                        assert(self.params.is_prefix_of(next.params));
                    }
                }
            }
        } else if c.at_group(Keyword::Result) {
            if let Ok((group, c1)) = spec_val_types(body, Seq::empty()) {
                if let Ok(c2) = c1.close_group() {
                    lemma_val_types_reaches(body, Seq::empty());
                    let next = FunctionTypeView {
                        params: self.params,
                        results: self.results + group,
                    };
                    next.lemma_finish_parse_extends(allow_names, c2);
                    assert(self.results.is_prefix_of(next.results));
                }
            }
        }
    }

    /// A parameter group once a result is there is an order violation,
    /// whatever the group holds; the error points at the group's keyword.
    pub proof fn lemma_param_after_result(self, allow_names: bool, c: Cursor)
        requires
            self.results.len() > 0,
            c.at_group(Keyword::Param),
        ensures
            self.finish_parse(allow_names, c) == Err::<(FunctionTypeView, Cursor), _>(
                ErrorView::ParamAfterResult { at: c.pos + 1 },
            ),
    {
    }

    /// A function type: the keyword `func` and a signature in which names
    /// are allowed.
    pub open spec fn parse(c: Cursor) -> Result<(FunctionTypeView, Cursor), ErrorView> {
        match c.keyword(Keyword::Func) {
            Err(e) => Err(e),
            Ok(c1) => Self::empty().finish_parse(true, c1),
        }
    }
}

/// Parses value types up to the end of the current group and adds them to
/// `acc`.
pub fn parse_val_types<'a>(parser: Parser<'a>, acc: Vec<ValType>) -> (r: Result<
    (Vec<ValType>, Parser<'a>),
    Error,
>)
    ensures
        parsed(r) == spec_val_types(parser@, acc@),
{
    let mut p = parser;
    let mut tys = acc;
    while !p.is_empty()
        invariant
            spec_val_types(parser@, acc@) == spec_val_types(p@, tys@),
        decreases p@.remaining(),
    {
        match ValType::parse(p) {
            Err(e) => {
                return Err(e);
            },
            Ok((ty, next)) => {
                tys.push(ty);
                p = next;
            },
        }
    }
    Ok((tys, p))
}

/// One anonymous parameter for each of `tys`, in their order.
fn anonymous<'a>(tys: &Vec<ValType>) -> (params: Vec<
    (Option<Id<'a>>, Option<NameAnnotation<'a>>, ValType),
>)
    ensures
        params_view(params@) == anonymous_params(tys@),
{
    let mut params: Vec<(Option<Id<'a>>, Option<NameAnnotation<'a>>, ValType)> = Vec::new();
    let mut i: usize = 0;
    while i < tys.len()
        invariant
            i <= tys.len(),
            params@.len() == i,
            forall|j: int|
                0 <= j < i ==> param_view(#[trigger] params@[j]) == ParamView::anonymous(tys@[j]),
        decreases tys.len() - i,
    {
        params.push((None, None, tys[i]));
        i += 1;
    }
    assert(params_view(params@) =~= anonymous_params(tys@));
    params
}

/// Parses what stands in a parameter group behind its keyword.
pub fn parse_param_group<'a>(parser: Parser<'a>, allow_names: bool) -> (r: Result<
    (Vec<(Option<Id<'a>>, Option<NameAnnotation<'a>>, ValType)>, Parser<'a>),
    Error,
>)
    ensures
        match r {
            Ok((group, rest)) => spec_param_group(parser@, allow_names) == Ok::<_, ErrorView>(
                (params_view(group@), rest@),
            ),
            Err(e) => spec_param_group(parser@, allow_names) == Err::<(Seq<ParamView>, Cursor), _>(
                e@,
            ),
        },
{
    if parser.is_empty() {
        let group: Vec<(Option<Id<'a>>, Option<NameAnnotation<'a>>, ValType)> = Vec::new();
        assert(params_view(group@) =~= Seq::empty());
        return Ok((group, parser));
    }
    let (id, q1) = if allow_names {
        parser.id()
    } else {
        (None, parser)
    };
    let (name, q2) = if allow_names {
        q1.name()
    } else {
        (None, q1)
    };
    let parse_more = id.is_none() && name.is_none();
    let (ty, q3) = ValType::parse(q2)?;
    if parse_more {
        let first = vec![ty];
        assert(first@ =~= seq![ty]);
        let (tys, q4) = parse_val_types(q3, first)?;
        Ok((anonymous(&tys), q4))
    } else {
        let group = vec![(id, name, ty)];
        assert(params_view(group@) =~= seq![
            ParamView { id: option_view(id), name: option_view(name), ty },
        ]);
        Ok((group, q3))
    }
}

impl<'a> FunctionType<'a> {
    /// Parses the groups that follow and adds their parameters and results
    /// to this function type. On an error the function type stays as it was.
    pub fn finish_parse(&mut self, allow_names: bool, parser: Parser<'a>) -> (r: Result<
        Parser<'a>,
        Error,
    >)
        ensures
            match old(self)@.finish_parse(allow_names, parser@) {
                Ok((sig, rest)) => final(self)@ == sig && moved(r) == Ok::<_, ErrorView>(rest),
                Err(e) => final(self)@ == old(self)@ && moved(r) == Err::<Cursor, _>(e),
            },
    {
        let mut p = parser;
        let mut params: Vec<(Option<Id<'a>>, Option<NameAnnotation<'a>>, ValType)> = Vec::new();
        let mut results: Vec<ValType> = Vec::new();
        let had_results = self.results.len() > 0;
        assert(old(self)@.params + params_view(params@) =~= old(self)@.params);
        assert(old(self)@.results + results@ =~= old(self)@.results);
        while p.peek2_keyword(Keyword::Param) || p.peek2_keyword(Keyword::Result)
            invariant
                *self == *old(self),
                had_results == (old(self)@.results.len() > 0),
                old(self)@.finish_parse(allow_names, parser@) == (FunctionTypeView {
                    params: old(self)@.params + params_view(params@),
                    results: old(self)@.results + results@,
                }).finish_parse(allow_names, p@),
            decreases p@.remaining(),
        {
            let ghost before = params_view(params@);
            let ghost earlier = results@;
            let inner = p.open_group()?;
            if inner.peek_keyword(Keyword::Param) {
                if had_results || results.len() > 0 {
                    return Err(Error::ParamAfterResult { span: inner.cur_span() });
                }
                let body = inner.keyword(Keyword::Param)?;
                let (mut group, after) = parse_param_group(body, allow_names)?;
                let next = after.close_group()?;
                proof {
                    lemma_param_group_reaches(body@, allow_names);
                }
                let ghost added = params_view(group@);
                params.append(&mut group);
                assert(params_view(params@) =~= before + added);
                assert(old(self)@.params + params_view(params@) =~= (old(self)@.params + before)
                    + added);
                p = next;
            } else {
                let body = inner.keyword(Keyword::Result)?;
                let (mut group, after) = parse_val_types(body, Vec::new())?;
                let next = after.close_group()?;
                proof {
                    lemma_val_types_reaches(body@, Seq::empty());
                }
                let ghost added = group@;
                results.append(&mut group);
                assert(old(self)@.results + results@ =~= (old(self)@.results + earlier) + added);
                p = next;
            }
        }
        let ghost old_params = self.params@;
        let ghost new_params = params@;
        self.params.append(&mut params);
        self.results.append(&mut results);
        assert(params_view(self.params@) =~= params_view(old_params) + params_view(new_params));
        Ok(p)
    }

    /// Parses a function type: the keyword `func` and a signature in which
    /// names are allowed.
    pub fn parse(parser: Parser<'a>) -> (r: Result<(FunctionType<'a>, Parser<'a>), Error>)
        ensures
            parsed(r) == FunctionTypeView::parse(parser@),
    {
        let p = parser.keyword(Keyword::Func)?;
        let mut ret = FunctionType { params: Vec::new(), results: Vec::new() };
        assert(ret@ == FunctionTypeView::empty()) by {
            assert(params_view(ret.params@) =~= Seq::empty());
        }
        let rest = ret.finish_parse(true, p)?;
        Ok((ret, rest))
    }
}

/// What a type declaration stands for.
pub struct TypeView {
    pub id: Option<Seq<char>>,
    pub func: FunctionTypeView,
}

/// A type declaration of a module.
#[derive(Clone, Debug, PartialEq, Eq)]
pub struct Type<'a> {
    /// The identifier that the declaration gives the type, if any.
    pub id: Option<Id<'a>>,
    /// The function type that is declared.
    pub func: FunctionType<'a>,
}

impl<'a> View for Type<'a> {
    type V = TypeView;

    open spec fn view(&self) -> TypeView {
        TypeView { id: option_view(self.id), func: self.func@ }
    }
}

impl TypeView {
    /// A type declaration: the keyword `type`, an identifier if one is
    /// there, and a function type in a group of its own.
    pub open spec fn parse(c: Cursor) -> Result<(TypeView, Cursor), ErrorView> {
        match c.keyword(Keyword::Type) {
            Err(e) => Err(e),
            Ok(c1) => {
                let (id, c2) = c1.optional_id();
                match c2.open_group() {
                    Err(e) => Err(e),
                    Ok(c3) => match FunctionTypeView::parse(c3) {
                        Err(e) => Err(e),
                        Ok((func, c4)) => match c4.close_group() {
                            Err(e) => Err(e),
                            Ok(c5) => Ok((TypeView { id, func }, c5)),
                        },
                    },
                }
            },
        }
    }
}

impl<'a> Type<'a> {
    /// Parses a type declaration.
    pub fn parse(parser: Parser<'a>) -> (r: Result<(Type<'a>, Parser<'a>), Error>)
        ensures
            parsed(r) == TypeView::parse(parser@),
    {
        let q1 = parser.keyword(Keyword::Type)?;
        let (id, q2) = q1.id();
        let q3 = q2.open_group()?;
        let (func, q4) = FunctionType::parse(q3)?;
        let q5 = q4.close_group()?;
        Ok((Type { id, func }, q5))
    }
}

} // verus!
