//! Properties that hold of every input, stated over the specification
//! functions that the parsers' contracts use.

use vstd::prelude::*;
use crate::accounts::{
    account_attr_count, account_arg, classified, field_of, first_account_attr, is_primitive_name,
    ty_of,
};
use crate::ast::{AccountFieldModel, ConstraintModel, ConstraintRentExempt, ParseError};
use crate::constraints::{
    clause, constraints_of, empty_scan, no_constraints, normalized, scan, with_constraint, Scan,
};
use crate::text::unquoted;
use crate::tokens::{Attribute, FieldDef, PathArguments, PathSegment, Token};

verus! {

/// The words that open a clause.
pub open spec fn is_keyword(k: Seq<char>) -> bool {
    k == "init"@ || k == "mut"@ || k == "signer"@ || k == "seeds"@ || k == "belongs_to"@ || k
        == "has_one"@ || k == "owner"@ || k == "rent_exempt"@ || k == "executable"@ || k
        == "state"@ || k == "associated"@ || k == "with"@ || k == "payer"@ || k == "space"@
}

proof fn lemma_no_account_attr(attrs: Seq<Attribute>)
    requires
        account_attr_count(attrs) == 0,
    ensures
        first_account_attr(attrs) is None,
    decreases attrs.len(),
{
    if attrs.len() > 0 {
        lemma_no_account_attr(attrs.drop_first());
    }
}

/// A field without an `account` attribute has no constraints, no flags and
/// no bindings, whether it is a leaf or a composite field.
pub proof fn lemma_unannotated_field(f: FieldDef, lexed: Seq<bool>)
    requires
        account_attr_count(f.attrs@) == 0,
    ensures
        field_of(f, lexed) == classified(f.ident@, f.ty, no_constraints()),
        field_of(f, lexed) matches Ok(AccountFieldModel::Field { parsed, .. }) ==> parsed.constraints.len()
            == 0 && !parsed.is_mut && !parsed.is_signer && !parsed.is_init && parsed.payer is None
            && parsed.space is None && parsed.associated_seeds.len() == 0,
        field_of(f, lexed) matches Ok(AccountFieldModel::Composite { constraints, .. })
            ==> constraints.len() == 0,
{
    lemma_no_account_attr(f.attrs@);
}

/// A field with two or more `account` attributes is rejected.
pub proof fn lemma_two_annotations(f: FieldDef, lexed: Seq<bool>)
    requires
        account_attr_count(f.attrs@) >= 2,
    ensures
        field_of(f, lexed) == Err::<AccountFieldModel, ParseError>(ParseError::MultipleAttributes),
{
}

/// A wrapper type given three type arguments fails with the error of that
/// wrapper's resolver.
pub proof fn lemma_three_type_arguments(n: Seq<char>, path: Seq<PathSegment>)
    requires
        path.len() == 1,
        path[0].arguments matches PathArguments::AngleBracketed(args) && args@.len() == 3,
        is_primitive_name(n),
        n != "AccountInfo"@,
    ensures
        n == "Sysvar"@ ==> ty_of(n, path) == Err::<crate::ast::TyModel, ParseError>(
            ParseError::InvalidSysvar,
        ),
        n != "Sysvar"@ ==> ty_of(n, path) == Err::<crate::ast::TyModel, ParseError>(
            ParseError::InvalidProgramAccount,
        ),
{
    assert(account_arg(path) is None);
}

/// `init` sets the two flags and never replaces a rent-exemption decision
/// already made; the first `init` makes the decision "enforce".
pub proof fn lemma_init_clause(toks: Seq<Token>, lexed: Seq<bool>, s: Scan)
    requires
        toks.len() > 0,
        toks[0] matches Token::Ident(k) && k@ == "init"@,
    ensures
        clause(toks, lexed, s) == Ok::<(Scan, nat), ParseError>(
            (
                Scan {
                    is_init: true,
                    is_mut: true,
                    rent_exempt: if s.rent_exempt is None {
                        Some(ConstraintRentExempt::Enforce)
                    } else {
                        s.rent_exempt
                    },
                    ..s
                },
                1,
            ),
        ),
{
}

/// `rent_exempt = skip` makes the decision "skip", whatever came before it.
pub proof fn lemma_skip_clause(toks: Seq<Token>, lexed: Seq<bool>, s: Scan)
    requires
        toks.len() >= 3,
        toks[0] matches Token::Ident(k) && k@ == "rent_exempt"@,
        toks[1] == Token::Punct('='),
        toks[2] matches Token::Ident(v) && v@ == "skip"@,
    ensures
        clause(toks, lexed, s) == Ok::<(Scan, nat), ParseError>(
            (Scan { rent_exempt: Some(ConstraintRentExempt::Skip), ..s }, 3),
        ),
{
    reveal_strlit("rent_exempt");
    reveal_strlit("init");
    reveal_strlit("mut");
    reveal_strlit("signer");
    reveal_strlit("seeds");
    reveal_strlit("belongs_to");
    reveal_strlit("has_one");
    reveal_strlit("owner");
    reveal_strlit("skip");
    let k = toks[0]->Ident_0@;
    assert(k.len() == 11);
    assert(k != "init"@ && k != "mut"@ && k != "signer"@ && k != "seeds"@ && k != "owner"@);
    assert(k != "has_one"@);
    assert(k[0] != "belongs_to"@[0]);
    assert(k != "belongs_to"@);
    assert(crate::constraints::ident_value(toks) == Some(toks[2]->Ident_0@));
}

/// An identifier that is no keyword stops the parse with a syntax error,
/// before any constraint is recorded.
pub proof fn lemma_unknown_keyword(toks: Seq<Token>, lexed: Seq<bool>)
    requires
        toks.len() > 0,
        toks[0] matches Token::Ident(k) && !is_keyword(k@),
    ensures
        constraints_of(toks, lexed) == Err::<crate::constraints::ConstraintsModel, ParseError>(
            ParseError::InvalidSyntax,
        ),
{
}

/// A literal that is not the value of a keyword, and whose text the lexer
/// accepted, becomes a `Literal` constraint, appended after those of the
/// clauses before it.
pub proof fn lemma_bare_literal(toks: Seq<Token>, lexed: Seq<bool>, s: Scan)
    requires
        toks.len() > 0,
        toks[0] is Literal,
        lexed.len() > 0 && lexed[0],
    ensures
        scan(toks, lexed, s) == scan(
            toks.skip(1),
            lexed.skip(1),
            with_constraint(s, ConstraintModel::Literal(unquoted(toks[0]->Literal_0@))),
        ),
{
}

pub open spec fn has_associated(cs: Seq<ConstraintModel>) -> bool {
    exists|i: int| 0 <= i < cs.len() && (#[trigger] cs[i]) is Associated
}

spec fn associated_inv(s: Scan) -> bool {
    &&& has_associated(s.constraints) ==> s.is_associated
    &&& s.is_associated ==> s.is_mut
}

proof fn lemma_push_other(cs: Seq<ConstraintModel>, c: ConstraintModel)
    requires
        !(c is Associated),
    ensures
        has_associated(cs.push(c)) == has_associated(cs),
{
    if has_associated(cs.push(c)) {
        let i = choose|i: int| 0 <= i < cs.push(c).len() && (#[trigger] cs.push(c)[i]) is Associated;
        assert(cs[i] == cs.push(c)[i]);
    }
    if has_associated(cs) {
        let i = choose|i: int| 0 <= i < cs.len() && (#[trigger] cs[i]) is Associated;
        assert(cs.push(c)[i] == cs[i]);
    }
}

proof fn lemma_clause_keeps_inv(toks: Seq<Token>, lexed: Seq<bool>, s: Scan)
    requires
        toks.len() > 0,
        associated_inv(s),
    ensures
        clause(toks, lexed, s) matches Ok((s2, _)) ==> associated_inv(s2),
{
    lemma_push_other(s.constraints, ConstraintModel::Signer);
    lemma_push_other(s.constraints, ConstraintModel::Executable);
    if toks.len() >= 3 {
        match toks[2] {
            Token::Ident(t) => {
                lemma_push_other(s.constraints, ConstraintModel::BelongsTo(t@));
                lemma_push_other(s.constraints, ConstraintModel::Owner(t@));
                lemma_push_other(s.constraints, ConstraintModel::State(t@));
            },
            Token::Group(d, g) => {
                lemma_push_other(s.constraints, ConstraintModel::Seeds(d, g@));
            },
            _ => {},
        }
    }
    match toks[0] {
        Token::Literal(l) => {
            lemma_push_other(s.constraints, ConstraintModel::Literal(unquoted(l@)));
        },
        _ => {},
    }
}

proof fn lemma_scan_keeps_inv(toks: Seq<Token>, lexed: Seq<bool>, s: Scan)
    requires
        associated_inv(s),
    ensures
        scan(toks, lexed, s) matches Ok(s2) ==> associated_inv(s2),
    decreases toks.len(),
{
    if toks.len() > 0 {
        lemma_clause_keeps_inv(toks, lexed, s);
        match clause(toks, lexed, s) {
            Ok((s2, n)) => {
                if 1 <= n <= toks.len() {
                    lemma_scan_keeps_inv(toks.skip(n as int), lexed.skip(n as int), s2);
                }
            },
            Err(_) => {},
        }
    }
}

/// Whenever the result holds an `Associated` constraint, the field is
/// mutable and not initialised, whatever the order of the clauses.
pub proof fn lemma_associated_cancels_init(toks: Seq<Token>, lexed: Seq<bool>)
    requires
        constraints_of(toks, lexed) matches Ok(m) && has_associated(m.constraints),
    ensures
        constraints_of(toks, lexed) matches Ok(m) && m.is_mut && !m.is_init,
{
    assert(associated_inv(empty_scan()));
    lemma_scan_keeps_inv(toks, lexed, empty_scan());
    let s = scan(toks, lexed, empty_scan())->Ok_0;
    match s.rent_exempt {
        Some(r) => lemma_push_other(s.constraints, ConstraintModel::RentExempt(r)),
        None => {},
    }
}

/// `signer` sets the signer flag and appends one `Signer` constraint.
pub proof fn lemma_signer_clause(toks: Seq<Token>, lexed: Seq<bool>, s: Scan)
    requires
        toks.len() > 0,
        toks[0] matches Token::Ident(k) && k@ == "signer"@,
    ensures
        clause(toks, lexed, s) == Ok::<(Scan, nat), ParseError>(
            (Scan { is_signer: true, ..with_constraint(s, ConstraintModel::Signer) }, 1),
        ),
{
    reveal_strlit("signer");
    reveal_strlit("init");
    reveal_strlit("mut");
    assert(toks[0]->Ident_0@.len() == 6);
}

/// `space = "..."` records the literal's text with its quotes removed,
/// provided the lexer accepted that text.
pub proof fn lemma_space_clause(toks: Seq<Token>, lexed: Seq<bool>, s: Scan)
    requires
        toks.len() >= 3,
        toks[0] matches Token::Ident(k) && k@ == "space"@,
        toks[1] == Token::Punct('='),
        toks[2] is Literal,
        lexed.len() >= 3 && lexed[2],
    ensures
        clause(toks, lexed, s) == Ok::<(Scan, nat), ParseError>(
            (Scan { space: Some(unquoted(toks[2]->Literal_0@)), ..s }, 3),
        ),
{
    reveal_strlit("space");
    reveal_strlit("init");
    reveal_strlit("mut");
    reveal_strlit("signer");
    reveal_strlit("seeds");
    reveal_strlit("belongs_to");
    reveal_strlit("has_one");
    reveal_strlit("owner");
    reveal_strlit("rent_exempt");
    reveal_strlit("executable");
    reveal_strlit("state");
    reveal_strlit("associated");
    reveal_strlit("with");
    reveal_strlit("payer");
    let k = toks[0]->Ident_0@;
    assert(k.len() == 5);
    assert(k[0] != "owner"@[0]);
    assert(k[1] != "seeds"@[1]);
    assert(k[1] != "state"@[1]);
    assert(k[0] != "payer"@[0]);
    assert(k != "seeds"@ && k != "state"@ && k != "payer"@);
    assert(k != "belongs_to"@ && k != "has_one"@ && k != "rent_exempt"@ && k != "executable"@);
    assert(k != "associated"@);
}

/// The lexer's answers matter only where literals stand: on an annotation
/// without literals every set of answers gives the same result.
pub proof fn lemma_answers_unused(toks: Seq<Token>, a: Seq<bool>, b: Seq<bool>, s: Scan)
    requires
        forall|i: int| 0 <= i < toks.len() ==> !(#[trigger] toks[i] is Literal),
    ensures
        scan(toks, a, s) == scan(toks, b, s),
    decreases toks.len(),
{
    if toks.len() > 0 {
        assert(!(toks[0] is Literal));
        if toks.len() >= 3 {
            assert(!(toks[2] is Literal));
        }
        assert(clause(toks, a, s) == clause(toks, b, s));
        match clause(toks, a, s) {
            Ok((s2, n)) => {
                if 1 <= n <= toks.len() {
                    let rest = toks.skip(n as int);
                    assert forall|i: int| 0 <= i < rest.len() implies !(#[trigger] rest[i] is Literal) by {
                        assert(rest[i] == toks[i + n]);
                    }
                    lemma_answers_unused(rest, a.skip(n as int), b.skip(n as int), s2);
                }
            },
            Err(_) => {},
        }
    }
}

} // verus!
