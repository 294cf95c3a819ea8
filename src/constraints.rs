//! The `#[account(...)]` clause language: a single left-to-right pass over the
//! tokens inside the attribute, one clause at a time, followed by a
//! normalisation step.

use vstd::prelude::*;
use crate::ast::{
    constraints_view, opt_view, strings_view, Constraint, ConstraintModel, ConstraintRentExempt,
    ParseError,
};
use crate::text::{lexes_as_tokens, remove_quotes, text_is, unquoted};
use crate::tokens::{Delimiter, Token};

verus! {

/// The running state of the pass, before normalisation.
pub struct Scan {
    pub constraints: Seq<ConstraintModel>,
    pub is_mut: bool,
    pub is_signer: bool,
    pub is_init: bool,
    pub rent_exempt: Option<ConstraintRentExempt>,
    pub payer: Option<Seq<char>>,
    pub space: Option<Seq<char>>,
    pub associated_seeds: Seq<Seq<char>>,
    pub is_associated: bool,
}

pub open spec fn empty_scan() -> Scan {
    Scan {
        constraints: Seq::empty(),
        is_mut: false,
        is_signer: false,
        is_init: false,
        rent_exempt: None,
        payer: None,
        space: None,
        associated_seeds: Seq::empty(),
        is_associated: false,
    }
}

/// The outcome of an annotation: constraints, flags and bindings.
pub struct ConstraintsModel {
    pub constraints: Seq<ConstraintModel>,
    pub is_mut: bool,
    pub is_signer: bool,
    pub is_init: bool,
    pub payer: Option<Seq<char>>,
    pub space: Option<Seq<char>>,
    pub associated_seeds: Seq<Seq<char>>,
}

/// The second token is `=`.
pub open spec fn eq_follows(toks: Seq<Token>) -> bool {
    toks.len() >= 2 && toks[1] == Token::Punct('=')
}

/// The value of a `keyword = ident` clause at the front of `toks`.
pub open spec fn ident_value(toks: Seq<Token>) -> Option<Seq<char>> {
    if eq_follows(toks) && toks.len() >= 3 && toks[2] is Ident {
        Some(toks[2]->Ident_0@)
    } else {
        None
    }
}

pub open spec fn with_constraint(s: Scan, c: ConstraintModel) -> Scan {
    Scan { constraints: s.constraints.push(c), ..s }
}

/// A clause that appends the constraint `mk(target)` for `keyword = target`.
pub open spec fn target_clause(
    toks: Seq<Token>,
    s: Scan,
    mk: spec_fn(Seq<char>) -> ConstraintModel,
) -> Result<(Scan, nat), ParseError> {
    match ident_value(toks) {
        Some(t) => Ok((with_constraint(s, mk(t)), 3)),
        None => Err(ParseError::InvalidSyntax),
    }
}

/// The clause that starts with the identifier `k`; it yields the new state and
/// the number of tokens it takes. `lexed[i]` says whether the text of the
/// literal `toks[i]`, quotes removed, lexes as tokens.
pub open spec fn keyword_clause(k: Seq<char>, toks: Seq<Token>, lexed: Seq<bool>, s: Scan) -> Result<
    (Scan, nat),
    ParseError,
> {
    if k == "init"@ {
        let rent = if s.rent_exempt is None {
            Some(ConstraintRentExempt::Enforce)
        } else {
            s.rent_exempt
        };
        Ok((Scan { is_init: true, is_mut: true, rent_exempt: rent, ..s }, 1))
    } else if k == "mut"@ {
        Ok((Scan { is_mut: true, ..s }, 1))
    } else if k == "signer"@ {
        Ok((Scan { is_signer: true, ..with_constraint(s, ConstraintModel::Signer) }, 1))
    } else if k == "seeds"@ {
        if eq_follows(toks) && toks.len() >= 3 && toks[2] is Group {
            Ok((with_constraint(s, ConstraintModel::Seeds(toks[2]->Group_0, toks[2]->Group_1@)), 3))
        } else {
            Err(ParseError::InvalidSyntax)
        }
    } else if k == "belongs_to"@ || k == "has_one"@ {
        target_clause(toks, s, |t: Seq<char>| ConstraintModel::BelongsTo(t))
    } else if k == "owner"@ {
        target_clause(toks, s, |t: Seq<char>| ConstraintModel::Owner(t))
    } else if k == "rent_exempt"@ {
        if toks.len() == 1 {
            Ok((Scan { rent_exempt: Some(ConstraintRentExempt::Enforce), ..s }, 1))
        } else {
            match ident_value(toks) {
                Some(v) => if v == "skip"@ {
                    Ok((Scan { rent_exempt: Some(ConstraintRentExempt::Skip), ..s }, 3))
                } else {
                    Err(ParseError::InvalidRentExempt)
                },
                None => Err(ParseError::InvalidSyntax),
            }
        }
    } else if k == "executable"@ {
        Ok((with_constraint(s, ConstraintModel::Executable), 1))
    } else if k == "state"@ {
        target_clause(toks, s, |t: Seq<char>| ConstraintModel::State(t))
    } else if k == "associated"@ {
        match target_clause(toks, s, |t: Seq<char>| ConstraintModel::Associated(t)) {
            Ok((s2, n)) => Ok((Scan { is_associated: true, is_mut: true, ..s2 }, n)),
            Err(e) => Err(e),
        }
    } else if k == "with"@ {
        match ident_value(toks) {
            Some(t) => Ok((Scan { associated_seeds: s.associated_seeds.push(t), ..s }, 3)),
            None => Err(ParseError::InvalidSyntax),
        }
    } else if k == "payer"@ {
        match ident_value(toks) {
            Some(t) => Ok((Scan { payer: Some(t), ..s }, 3)),
            None => Err(ParseError::InvalidSyntax),
        }
    } else if k == "space"@ {
        if !eq_follows(toks) || toks.len() < 3 {
            Err(ParseError::InvalidSyntax)
        } else {
            match toks[2] {
                Token::Literal(l) => if lexed[2] {
                    Ok((Scan { space: Some(unquoted(l@)), ..s }, 3))
                } else {
                    Err(ParseError::InvalidExpression)
                },
                _ => Err(ParseError::InvalidSpace),
            }
        }
    } else {
        Err(ParseError::InvalidSyntax)
    }
}

/// The clause at the front of `toks`.
pub open spec fn clause(toks: Seq<Token>, lexed: Seq<bool>, s: Scan) -> Result<(Scan, nat), ParseError>
    recommends
        toks.len() > 0,
{
    match toks[0] {
        Token::Ident(k) => keyword_clause(k@, toks, lexed, s),
        Token::Punct(c) => if c == ',' {
            Ok((s, 1))
        } else {
            Err(ParseError::InvalidSyntax)
        },
        Token::Literal(l) => if lexed[0] {
            Ok((with_constraint(s, ConstraintModel::Literal(unquoted(l@))), 1))
        } else {
            Err(ParseError::InvalidExpression)
        },
        Token::Group(_, _) => Err(ParseError::InvalidSyntax),
    }
}

/// The pass over all of `toks`, clause by clause, stopping at the first error;
/// `lexed` runs beside `toks`.
pub open spec fn scan(toks: Seq<Token>, lexed: Seq<bool>, s: Scan) -> Result<Scan, ParseError>
    decreases toks.len(),
{
    if toks.len() == 0 {
        Ok(s)
    } else {
        match clause(toks, lexed, s) {
            Ok((s2, n)) => if 1 <= n <= toks.len() {
                scan(toks.skip(n as int), lexed.skip(n as int), s2)
            } else {
                Ok(s2)
            },
            Err(e) => Err(e),
        }
    }
}

/// `associated` cancels `init`; a rent-exemption decision, once made, becomes
/// one final constraint.
pub open spec fn normalized(s: Scan) -> ConstraintsModel {
    ConstraintsModel {
        constraints: match s.rent_exempt {
            Some(r) => s.constraints.push(ConstraintModel::RentExempt(r)),
            None => s.constraints,
        },
        is_mut: s.is_mut,
        is_signer: s.is_signer,
        is_init: s.is_init && !s.is_associated,
        payer: s.payer,
        space: s.space,
        associated_seeds: s.associated_seeds,
    }
}

/// The meaning of the tokens inside an `account(...)` group, given the
/// lexer's answer for each literal among them.
pub open spec fn constraints_of(toks: Seq<Token>, lexed: Seq<bool>) -> Result<ConstraintsModel, ParseError> {
    match scan(toks, lexed, empty_scan()) {
        Ok(s) => Ok(normalized(s)),
        Err(e) => Err(e),
    }
}

/// What a field without an annotation has.
pub open spec fn no_constraints() -> ConstraintsModel {
    normalized(empty_scan())
}

/// The meaning of an attribute's tokens: a leading group, then its clauses.
pub open spec fn attribute_constraints(tokens: Seq<Token>, lexed: Seq<bool>) -> Result<
    ConstraintsModel,
    ParseError,
> {
    if tokens.len() == 0 {
        Err(ParseError::MissingTokenGroup)
    } else {
        match tokens[0] {
            Token::Group(_, inner) => constraints_of(inner@, lexed),
            _ => Err(ParseError::InvalidSyntax),
        }
    }
}

/// The constraints, flags and bindings of one field.
#[derive(Debug, PartialEq, Eq)]
pub struct ParsedConstraints {
    pub constraints: Vec<Constraint>,
    pub is_mut: bool,
    pub is_signer: bool,
    pub is_init: bool,
    pub payer: Option<String>,
    pub space: Option<String>,
    pub associated_seeds: Vec<String>,
}

impl View for ParsedConstraints {
    type V = ConstraintsModel;

    open spec fn view(&self) -> ConstraintsModel {
        ConstraintsModel {
            constraints: constraints_view(self.constraints@),
            is_mut: self.is_mut,
            is_signer: self.is_signer,
            is_init: self.is_init,
            payer: opt_view(self.payer),
            space: opt_view(self.space),
            associated_seeds: strings_view(self.associated_seeds@),
        }
    }
}

impl ParsedConstraints {
    /// No constraints, no flags, no bindings.
    pub fn empty() -> (r: ParsedConstraints)
        ensures
            r@ == no_constraints(),
    {
        let r = ParsedConstraints {
            constraints: Vec::new(),
            is_mut: false,
            is_signer: false,
            is_init: false,
            payer: None,
            space: None,
            associated_seeds: Vec::new(),
        };
        assert(r@.constraints =~= no_constraints().constraints);
        assert(r@.associated_seeds =~= no_constraints().associated_seeds);
        r
    }
}

/// The running state of the pass, held in executable form.
struct Scanner {
    constraints: Vec<Constraint>,
    is_mut: bool,
    is_signer: bool,
    is_init: bool,
    rent_exempt: Option<ConstraintRentExempt>,
    payer: Option<String>,
    space: Option<String>,
    associated_seeds: Vec<String>,
    is_associated: bool,
}

impl Scanner {
    spec fn model(&self) -> Scan {
        Scan {
            constraints: constraints_view(self.constraints@),
            is_mut: self.is_mut,
            is_signer: self.is_signer,
            is_init: self.is_init,
            rent_exempt: self.rent_exempt,
            payer: opt_view(self.payer),
            space: opt_view(self.space),
            associated_seeds: strings_view(self.associated_seeds@),
            is_associated: self.is_associated,
        }
    }

    fn new() -> (r: Scanner)
        ensures
            r.model() == empty_scan(),
    {
        let r = Scanner {
            constraints: Vec::new(),
            is_mut: false,
            is_signer: false,
            is_init: false,
            rent_exempt: None,
            payer: None,
            space: None,
            associated_seeds: Vec::new(),
            is_associated: false,
        };
        assert(r.model().constraints =~= empty_scan().constraints);
        assert(r.model().associated_seeds =~= empty_scan().associated_seeds);
        r
    }

    fn push(&mut self, c: Constraint)
        ensures
            final(self).model() == with_constraint(old(self).model(), c@),
    {
        self.constraints.push(c);
        assert(constraints_view(self.constraints@) =~= old(self).model().constraints.push(c@));
    }

    fn push_seed(&mut self, t: String)
        ensures
            final(self).model() == (Scan {
                associated_seeds: old(self).model().associated_seeds.push(t@),
                ..old(self).model()
            }),
    {
        self.associated_seeds.push(t);
        assert(strings_view(self.associated_seeds@) =~= old(self).model().associated_seeds.push(t@));
    }

    fn finish(self) -> (r: ParsedConstraints)
        ensures
            r@ == normalized(self.model()),
    {
        let mut constraints = self.constraints;
        match self.rent_exempt {
            Some(re) => {
                constraints.push(Constraint::RentExempt(re));
                assert(constraints_view(constraints@) =~= self.model().constraints.push(
                    ConstraintModel::RentExempt(re),
                ));
            },
            None => {},
        }
        ParsedConstraints {
            constraints,
            is_mut: self.is_mut,
            is_signer: self.is_signer,
            is_init: self.is_init && !self.is_associated,
            payer: self.payer,
            space: self.space,
            associated_seeds: self.associated_seeds,
        }
    }
}

/// Takes a leading `=`; on failure the tokens are left in an unspecified state.
fn take_eq(toks: &mut Vec<Token>) -> (r: bool)
    ensures
        r == (old(toks)@.len() > 0 && old(toks)@[0] == Token::Punct('=')),
        r ==> final(toks)@ == old(toks)@.drop_first(),
{
    if toks.len() == 0 {
        return false;
    }
    let t = toks.remove(0);
    match t {
        Token::Punct(c) => c == '=',
        _ => false,
    }
}

/// Takes a leading identifier.
fn take_ident(toks: &mut Vec<Token>) -> (r: Option<String>)
    ensures
        r is Some <==> (old(toks)@.len() > 0 && old(toks)@[0] is Ident),
        r is Some ==> old(toks)@[0] == Token::Ident(r->0) && final(toks)@
            == old(toks)@.drop_first(),
{
    if toks.len() == 0 {
        return None;
    }
    let t = toks.remove(0);
    match t {
        Token::Ident(s) => Some(s),
        _ => None,
    }
}

/// Takes `= target` after a keyword; `rest` is what followed the keyword.
fn take_target(rest: &mut Vec<Token>, Ghost(toks): Ghost<Seq<Token>>) -> (r: Result<
    String,
    ParseError,
>)
    requires
        toks.len() > 0,
        old(rest)@ == toks.drop_first(),
    ensures
        match ident_value(toks) {
            Some(t) => r matches Ok(x) && x@ == t && final(rest)@ == toks.skip(3),
            None => r == Err::<String, ParseError>(ParseError::InvalidSyntax),
        },
{
    if !take_eq(rest) {
        return Err(ParseError::InvalidSyntax);
    }
    match take_ident(rest) {
        Some(x) => {
            assert(final(rest)@ =~= toks.skip(3));
            Ok(x)
        },
        None => Err(ParseError::InvalidSyntax),
    }
}

/// The payload of a literal: its text with the quotes removed, accepted when
/// the lexer accepted that text (`lexes`).
pub fn literal_payload(l: &String, lexes: bool) -> (r: Result<String, ParseError>)
    ensures
        lexes ==> (r matches Ok(e) && e@ == unquoted(l@)),
        !lexes ==> r == Err::<String, ParseError>(ParseError::InvalidExpression),
{
    if lexes {
        Ok(remove_quotes(l.as_str()))
    } else {
        Err(ParseError::InvalidExpression)
    }
}

/// Asks the lexer, for each literal among `toks`, whether its text with the
/// quotes removed lexes as tokens; other tokens get `false`.
pub fn lex_answers(toks: &Vec<Token>) -> (r: Vec<bool>)
    ensures
        r@.len() == toks@.len(),
        forall|i: int| 0 <= i < toks@.len() && !(toks@[i] is Literal) ==> !r@[i],
{
    let mut r: Vec<bool> = Vec::new();
    let mut i: usize = 0;
    while i < toks.len()
        invariant
            i <= toks@.len(),
            r@.len() == i,
            forall|j: int| 0 <= j < i && !(toks@[j] is Literal) ==> !r@[j],
        decreases toks@.len() - i,
    {
        let a = match &toks[i] {
            Token::Literal(l) => lexes_as_tokens(remove_quotes(l.as_str()).as_str()),
            _ => false,
        };
        r.push(a);
        i = i + 1;
    }
    r
}

/// One clause starting with the identifier `k`; `rest` holds what followed it.
#[verifier::rlimit(50)]
fn keyword(
    k: String,
    rest: &mut Vec<Token>,
    s: &mut Scanner,
    lexed: &Vec<bool>,
    pos: usize,
    Ghost(toks): Ghost<Seq<Token>>,
) -> (r: Result<usize, ParseError>)
    requires
        toks.len() > 0,
        pos + toks.len() == lexed@.len(),
        toks[0] == Token::Ident(k),
        old(rest)@ == toks.drop_first(),
    ensures
        match keyword_clause(k@, toks, lexed@.skip(pos as int), old(s).model()) {
            Ok((s2, n)) => r matches Ok(m) && m == n && final(s).model() == s2 && 1 <= n
                <= toks.len() && final(rest)@ == toks.skip(n as int),
            Err(e) => r == Err::<usize, ParseError>(e),
        },
{
    assert(toks.skip(1) =~= toks.drop_first());
    if text_is(&k, "init") {
        s.is_init = true;
        s.is_mut = true;
        if s.rent_exempt.is_none() {
            s.rent_exempt = Some(ConstraintRentExempt::Enforce);
        }
        Ok(1)
    } else if text_is(&k, "mut") {
        s.is_mut = true;
        Ok(1)
    } else if text_is(&k, "signer") {
        s.push(Constraint::Signer);
        s.is_signer = true;
        Ok(1)
    } else if text_is(&k, "seeds") {
        if !take_eq(rest) || rest.len() == 0 {
            return Err(ParseError::InvalidSyntax);
        }
        let t = rest.remove(0);
        assert(rest@ =~= toks.skip(3));
        match t {
            Token::Group(d, g) => {
                s.push(Constraint::Seeds(d, g));
                Ok(3)
            },
            _ => Err(ParseError::InvalidSyntax),
        }
    } else if text_is(&k, "belongs_to") || text_is(&k, "has_one") {
        let t = take_target(rest, Ghost(toks))?;
        s.push(Constraint::BelongsTo(t));
        Ok(3)
    } else if text_is(&k, "owner") {
        let t = take_target(rest, Ghost(toks))?;
        s.push(Constraint::Owner(t));
        Ok(3)
    } else if text_is(&k, "rent_exempt") {
        if rest.len() == 0 {
            s.rent_exempt = Some(ConstraintRentExempt::Enforce);
            return Ok(1);
        }
        let v = take_target(rest, Ghost(toks))?;
        if text_is(&v, "skip") {
            s.rent_exempt = Some(ConstraintRentExempt::Skip);
            Ok(3)
        } else {
            Err(ParseError::InvalidRentExempt)
        }
    } else if text_is(&k, "executable") {
        s.push(Constraint::Executable);
        Ok(1)
    } else if text_is(&k, "state") {
        let t = take_target(rest, Ghost(toks))?;
        s.push(Constraint::State(t));
        Ok(3)
    } else if text_is(&k, "associated") {
        let t = take_target(rest, Ghost(toks))?;
        s.push(Constraint::Associated(t));
        s.is_associated = true;
        s.is_mut = true;
        Ok(3)
    } else if text_is(&k, "with") {
        let t = take_target(rest, Ghost(toks))?;
        s.push_seed(t);
        Ok(3)
    } else if text_is(&k, "payer") {
        let t = take_target(rest, Ghost(toks))?;
        s.payer = Some(t);
        Ok(3)
    } else if text_is(&k, "space") {
        if !take_eq(rest) || rest.len() == 0 {
            return Err(ParseError::InvalidSyntax);
        }
        let t = rest.remove(0);
        assert(rest@ =~= toks.skip(3));
        match t {
            Token::Literal(l) => {
                let ln = lexed.len();
                assert(toks.len() >= 3);
                let e = literal_payload(&l, lexed[pos + 2])?;
                s.space = Some(e);
                Ok(3)
            },
            _ => Err(ParseError::InvalidSpace),
        }
    } else {
        Err(ParseError::InvalidSyntax)
    }
}

/// The clause at the front of `toks`; what it takes is removed.
fn parse_clause(toks: &mut Vec<Token>, s: &mut Scanner, lexed: &Vec<bool>, pos: usize) -> (r:
    Result<usize, ParseError>)
    requires
        old(toks)@.len() > 0,
        pos + old(toks)@.len() == lexed@.len(),
    ensures
        match clause(old(toks)@, lexed@.skip(pos as int), old(s).model()) {
            Ok((s2, n)) => r matches Ok(m) && m == n && final(s).model() == s2 && 1 <= n <= old(
                toks,
            )@.len() && final(toks)@ == old(toks)@.skip(n as int),
            Err(e) => r == Err::<usize, ParseError>(e),
        },
{
    let ghost all = toks@;
    let first = toks.remove(0);
    assert(toks@ =~= all.drop_first());
    assert(all.skip(1) =~= all.drop_first());
    match first {
        Token::Ident(k) => keyword(k, toks, s, lexed, pos, Ghost(all)),
        Token::Punct(c) => {
            if c == ',' {
                Ok(1)
            } else {
                Err(ParseError::InvalidSyntax)
            }
        },
        Token::Literal(l) => {
            let e = literal_payload(&l, lexed[pos])?;
            s.push(Constraint::Literal(e));
            Ok(1)
        },
        Token::Group(_, _) => Err(ParseError::InvalidSyntax),
    }
}

/// Whether `r` is the executable form of the outcome `m`.
pub open spec fn constraints_result(
    m: Result<ConstraintsModel, ParseError>,
    r: Result<ParsedConstraints, ParseError>,
) -> bool {
    match m {
        Ok(m) => r matches Ok(p) && p@ == m,
        Err(e) => r matches Err(x) && x == e,
    }
}

/// Parses the tokens inside an `account(...)` group, given the lexer's answer
/// for each of them (see `lex_answers`).
pub fn parse_lexed_tokens(stream: Vec<Token>, lexed: &Vec<bool>) -> (r: Result<
    ParsedConstraints,
    ParseError,
>)
    requires
        lexed@.len() == stream@.len(),
    ensures
        constraints_result(constraints_of(stream@, lexed@), r),
{
    let mut toks = stream;
    let mut s = Scanner::new();
    let mut pos: usize = 0;
    assert(lexed@.skip(0) =~= lexed@);
    while toks.len() > 0
        invariant
            pos + toks@.len() == lexed@.len(),
            scan(toks@, lexed@.skip(pos as int), s.model()) == scan(
                stream@,
                lexed@,
                empty_scan(),
            ),
        decreases toks@.len(),
    {
        let ln = lexed.len();
        let n = parse_clause(&mut toks, &mut s, lexed, pos)?;
        assert(lexed@.skip(pos as int).skip(n as int) =~= lexed@.skip(pos + n));
        pos = pos + n;
    }
    Ok(s.finish())
}

/// Parses the tokens inside an `account(...)` group. The lexer decides on
/// each literal; the result is the meaning of the tokens under its answers.
pub fn parse_constraint_tokens(stream: Vec<Token>) -> (r: Result<ParsedConstraints, ParseError>)
    ensures
        exists|lexed: Seq<bool>|
            lexed.len() == stream@.len() && constraints_result(constraints_of(stream@, lexed), r),
{
    let lexed = lex_answers(&stream);
    let r = parse_lexed_tokens(stream, &lexed);
    assert(constraints_result(constraints_of(stream@, lexed@), r));
    r
}

/// Parses an `account` attribute: its tokens must start with a group, whose
/// contents are the clauses.
pub fn parse_constraints(attr: crate::tokens::Attribute) -> (r: Result<ParsedConstraints, ParseError>)
    ensures
        exists|lexed: Seq<bool>| constraints_result(attribute_constraints(attr.tokens@, lexed), r),
{
    let mut tokens = attr.tokens;
    if tokens.len() == 0 {
        let r = Err(ParseError::MissingTokenGroup);
        assert(constraints_result(attribute_constraints(attr.tokens@, Seq::empty()), r));
        return r;
    }
    match tokens.remove(0) {
        Token::Group(_, inner) => {
            let ghost ig = inner;
            let r = parse_constraint_tokens(inner);
            let ghost w = choose|w: Seq<bool>|
                w.len() == ig@.len() && constraints_result(constraints_of(ig@, w), r);
            assert(constraints_result(attribute_constraints(attr.tokens@, w), r));
            r
        },
        _ => {
            let r = Err(ParseError::InvalidSyntax);
            assert(constraints_result(attribute_constraints(attr.tokens@, Seq::empty()), r));
            r
        },
    }
}

} // verus!
