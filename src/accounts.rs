//! The struct-level parse: each named field is classified by its type, its
//! account type is resolved from the type arguments, and its single `account`
//! attribute, if any, is parsed into constraints.

use vstd::prelude::*;
use crate::ast::{
    fields_view, AccountField, AccountFieldModel, AccountsStruct, CompositeField, CpiAccountTy,
    CpiStateTy, Field, LoaderTy, ParseError, ProgramAccountTy, ProgramStateTy, SysvarTy, Ty,
    TyModel,
};
use crate::constraints::{
    attribute_constraints, constraints_result, no_constraints, parse_constraints, ConstraintsModel,
    ParsedConstraints,
};
use crate::text::text_is;
use crate::tokens::{
    Attribute, FieldDef, Fields, GenericArgument, ItemStruct, PathArguments, PathSegment, TypeExpr,
};

verus! {

/// An attribute whose path is the single segment `account`.
pub open spec fn is_account_attr(a: Attribute) -> bool {
    a.path@.len() == 1 && a.path@[0]@ == "account"@
}

pub open spec fn account_attr_count(attrs: Seq<Attribute>) -> nat
    decreases attrs.len(),
{
    if attrs.len() == 0 {
        0
    } else {
        (if is_account_attr(attrs[0]) {
            1nat
        } else {
            0nat
        }) + account_attr_count(attrs.drop_first())
    }
}

pub open spec fn first_account_attr(attrs: Seq<Attribute>) -> Option<Attribute>
    decreases attrs.len(),
{
    if attrs.len() == 0 {
        None
    } else if is_account_attr(attrs[0]) {
        Some(attrs[0])
    } else {
        first_account_attr(attrs.drop_first())
    }
}

/// The constraints of a field whose `account` attribute, if any, is `anchor`;
/// `lexed` holds the lexer's answers for the tokens inside its group.
pub open spec fn anchor_constraints(anchor: Option<Attribute>, lexed: Seq<bool>) -> Result<
    ConstraintsModel,
    ParseError,
> {
    match anchor {
        None => Ok(no_constraints()),
        Some(a) => attribute_constraints(a.tokens@, lexed),
    }
}

/// The constraints that a field's attributes declare.
pub open spec fn field_constraints(attrs: Seq<Attribute>, lexed: Seq<bool>) -> Result<
    ConstraintsModel,
    ParseError,
> {
    if account_attr_count(attrs) >= 2 {
        Err(ParseError::MultipleAttributes)
    } else {
        anchor_constraints(first_account_attr(attrs), lexed)
    }
}

/// The name of a field's type: the single segment of a path.
pub open spec fn field_type_name(ty: TypeExpr) -> Result<Seq<char>, ParseError> {
    match ty {
        TypeExpr::Path(segs) => if segs@.len() == 1 {
            Ok(segs@[0].ident@)
        } else {
            Err(ParseError::SegmentedPath)
        },
        TypeExpr::Other(_) => Err(ParseError::InvalidAccountSyntax),
    }
}

pub open spec fn is_primitive_name(n: Seq<char>) -> bool {
    n == "ProgramState"@ || n == "ProgramAccount"@ || n == "CpiAccount"@ || n == "Sysvar"@ || n
        == "AccountInfo"@ || n == "CpiState"@ || n == "Loader"@
}

/// The inner type name of a path `W<'a, T>`: two arguments, the second a
/// single-segment type path.
pub open spec fn account_arg(path: Seq<PathSegment>) -> Option<Seq<char>> {
    if path.len() == 0 {
        None
    } else {
        match path[0].arguments {
            PathArguments::AngleBracketed(args) => if args@.len() == 2 {
                match args@[1] {
                    GenericArgument::Type(TypeExpr::Path(p)) => if p@.len() == 1 {
                        Some(p@[0].ident@)
                    } else {
                        None
                    },
                    _ => None,
                }
            } else {
                None
            },
            _ => None,
        }
    }
}

pub open spec fn sysvar_named(n: Seq<char>) -> Option<SysvarTy> {
    if n == "Clock"@ {
        Some(SysvarTy::Clock)
    } else if n == "Rent"@ {
        Some(SysvarTy::Rent)
    } else if n == "EpochSchedule"@ {
        Some(SysvarTy::EpochSchedule)
    } else if n == "Fees"@ {
        Some(SysvarTy::Fees)
    } else if n == "RecentBlockhashes"@ {
        Some(SysvarTy::RecentBlockhashes)
    } else if n == "SlotHashes"@ {
        Some(SysvarTy::SlotHashes)
    } else if n == "SlotHistory"@ {
        Some(SysvarTy::SlotHistory)
    } else if n == "StakeHistory"@ {
        Some(SysvarTy::StakeHistory)
    } else if n == "Instructions"@ {
        Some(SysvarTy::Instructions)
    } else if n == "Rewards"@ {
        Some(SysvarTy::Rewards)
    } else {
        None
    }
}

/// The account type of a field whose type path `path` is named `n`.
pub open spec fn ty_of(n: Seq<char>, path: Seq<PathSegment>) -> Result<TyModel, ParseError> {
    if n == "AccountInfo"@ {
        Ok(TyModel::AccountInfo)
    } else if n == "Sysvar"@ {
        match account_arg(path) {
            Some(a) => match sysvar_named(a) {
                Some(k) => Ok(TyModel::Sysvar(k)),
                None => Err(ParseError::InvalidSysvar),
            },
            None => Err(ParseError::InvalidSysvar),
        }
    } else {
        match account_arg(path) {
            None => Err(ParseError::InvalidProgramAccount),
            Some(a) => if n == "ProgramState"@ {
                Ok(TyModel::ProgramState(a))
            } else if n == "CpiState"@ {
                Ok(TyModel::CpiState(a))
            } else if n == "ProgramAccount"@ {
                Ok(TyModel::ProgramAccount(a))
            } else if n == "CpiAccount"@ {
                Ok(TyModel::CpiAccount(a))
            } else {
                Ok(TyModel::Loader(a))
            },
        }
    }
}

pub open spec fn path_of(ty: TypeExpr) -> Seq<PathSegment> {
    match ty {
        TypeExpr::Path(segs) => segs@,
        TypeExpr::Other(_) => Seq::empty(),
    }
}

/// The parsed form of a field with name `ident`, type `ty` and the
/// constraints that its attributes declare.
pub open spec fn classified(ident: Seq<char>, ty: TypeExpr, c: ConstraintsModel) -> Result<
    AccountFieldModel,
    ParseError,
> {
    match field_type_name(ty) {
        Err(e) => Err(e),
        Ok(n) => if is_primitive_name(n) {
            match ty_of(n, path_of(ty)) {
                Ok(t) => Ok(AccountFieldModel::Field { ident, ty: t, parsed: c }),
                Err(e) => Err(e),
            }
        } else {
            Ok(
                AccountFieldModel::Composite {
                    ident,
                    symbol: n,
                    constraints: c.constraints,
                    raw_field: ty,
                },
            )
        },
    }
}

/// `classified`, after the constraints `c` or their error.
pub open spec fn classified_after(ident: Seq<char>, ty: TypeExpr, c: Result<ConstraintsModel, ParseError>) -> Result<
    AccountFieldModel,
    ParseError,
> {
    match c {
        Err(e) => Err(e),
        Ok(c) => classified(ident, ty, c),
    }
}

/// The parsed form of one field: its attributes first, then its type.
pub open spec fn field_of(f: FieldDef, lexed: Seq<bool>) -> Result<AccountFieldModel, ParseError> {
    classified_after(f.ident@, f.ty, field_constraints(f.attrs@, lexed))
}

/// Whether `r` is the executable form of the outcome `m`.
pub open spec fn field_result(m: Result<AccountFieldModel, ParseError>, r: Result<AccountField, ParseError>) -> bool {
    match m {
        Ok(m) => r matches Ok(x) && x@ == m,
        Err(e) => r matches Err(x) && x == e,
    }
}

/// The parsed forms of the fields, in order, or the error of the first field
/// that fails; `lexed[i]` holds the lexer's answers for field `i`.
pub open spec fn fields_of(fs: Seq<FieldDef>, lexed: Seq<Seq<bool>>) -> Result<
    Seq<AccountFieldModel>,
    ParseError,
>
    decreases fs.len(),
{
    if fs.len() == 0 {
        Ok(Seq::empty())
    } else {
        match fields_of(fs.drop_last(), lexed.drop_last()) {
            Err(e) => Err(e),
            Ok(ms) => match field_of(fs.last(), lexed.last()) {
                Ok(m) => Ok(ms.push(m)),
                Err(e) => Err(e),
            },
        }
    }
}

/// An error in the first `k` fields is the error of the whole list.
proof fn lemma_fields_of_prefix_err(fs: Seq<FieldDef>, lexed: Seq<Seq<bool>>, k: int)
    requires
        0 <= k <= fs.len(),
        lexed.len() == fs.len(),
        fields_of(fs.take(k), lexed.take(k)) is Err,
    ensures
        fields_of(fs, lexed) == fields_of(fs.take(k), lexed.take(k)),
    decreases fs.len(),
{
    if k == fs.len() {
        assert(fs.take(k) =~= fs);
        assert(lexed.take(k) =~= lexed);
    } else {
        assert(fs.drop_last().take(k) =~= fs.take(k));
        assert(lexed.drop_last().take(k) =~= lexed.take(k));
        lemma_fields_of_prefix_err(fs.drop_last(), lexed.drop_last(), k);
    }
}

/// Whether `r` is the executable form of the outcome `m`, for a struct named
/// `ident`.
pub open spec fn struct_result(
    ident: String,
    m: Result<Seq<AccountFieldModel>, ParseError>,
    r: Result<AccountsStruct, ParseError>,
) -> bool {
    match m {
        Ok(ms) => r matches Ok(a) && a.ident == ident && fields_view(a.fields@) == ms,
        Err(e) => r matches Err(x) && x == e,
    }
}

/// Parses a struct definition into its accounts description. The lexer
/// decides on each literal in the annotations; the result is the meaning of
/// the fields under its answers.
pub fn parse(strct: ItemStruct) -> (r: Result<AccountsStruct, ParseError>)
    ensures
        match strct.fields {
            Fields::Named(fs) => exists|lexed: Seq<Seq<bool>>|
                lexed.len() == fs@.len() && struct_result(strct.ident, fields_of(fs@, lexed), r),
            _ => r matches Err(x) && x == ParseError::InvalidInput,
        },
{
    let ItemStruct { ident, fields } = strct;
    match fields {
        Fields::Named(fs) => {
            let ghost orig = fs@;
            let mut fs = fs;
            let mut out: Vec<AccountField> = Vec::new();
            let ghost mut k: int = 0;
            let ghost mut lexed: Seq<Seq<bool>> = Seq::empty();
            assert(orig.take(0) =~= Seq::<FieldDef>::empty());
            assert(fields_view(out@) =~= Seq::<AccountFieldModel>::empty());
            while fs.len() > 0
                invariant
                    strct.fields matches Fields::Named(v) && v@ == orig,
                    strct.ident == ident,
                    0 <= k <= orig.len(),
                    lexed.len() == k,
                    fs@ == orig.skip(k),
                    fields_of(orig.take(k), lexed) == Ok::<Seq<AccountFieldModel>, ParseError>(
                        fields_view(out@),
                    ),
                decreases fs@.len(),
            {
                let f = fs.remove(0);
                let ghost fg = f;
                let res = parse_account_field(f);
                let ghost a = choose|a: Seq<bool>| field_result(field_of(fg, a), res);
                proof {
                    assert(orig.take(k + 1).drop_last() =~= orig.take(k));
                    assert(orig.take(k + 1).last() == fg);
                    assert(lexed.push(a).drop_last() =~= lexed);
                }
                match res {
                    Ok(af) => {
                        let ghost prev = out@;
                        out.push(af);
                        proof {
                            assert(fields_view(out@) =~= fields_view(prev).push(af@));
                        }
                    },
                    Err(e) => {
                        proof {
                            let full = lexed.push(a) + Seq::new(
                                (orig.len() - k - 1) as nat,
                                |i: int| Seq::<bool>::empty(),
                            );
                            assert(full.take(k + 1) =~= lexed.push(a));
                            lemma_fields_of_prefix_err(orig, full, k + 1);
                            assert(struct_result(strct.ident, fields_of(orig, full), Err(e)));
                        }
                        return Err(e);
                    },
                }
                proof {
                    k = k + 1;
                    lexed = lexed.push(a);
                    assert(fs@ =~= orig.skip(k));
                }
            }
            assert(orig.take(k) =~= orig);
            let r = Ok(AccountsStruct { ident, fields: out });
            assert(struct_result(strct.ident, fields_of(orig, lexed), r));
            r
        },
        _ => Err(ParseError::InvalidInput),
    }
}

/// Parses one field: its `account` attribute, then its type.
fn parse_account_field(f: FieldDef) -> (r: Result<AccountField, ParseError>)
    ensures
        exists|lexed: Seq<bool>| field_result(field_of(f, lexed), r),
{
    let ghost fg = f;
    let FieldDef { ident, ty, attrs } = f;
    match parse_account_attr(attrs) {
        Err(e) => {
            let r = Err(e);
            assert(field_result(field_of(fg, Seq::empty()), r));
            r
        },
        Ok(anchor) => {
            let r = parse_field(ident, ty, anchor);
            let ghost lx = choose|lx: Seq<bool>|
                field_result(classified_after(fg.ident@, fg.ty, anchor_constraints(anchor, lx)), r);
            assert(field_result(field_of(fg, lx), r));
            r
        },
    }
}

/// The field's single `account` attribute, if it has one.
fn parse_account_attr(attrs: Vec<Attribute>) -> (r: Result<Option<Attribute>, ParseError>)
    ensures
        account_attr_count(attrs@) >= 2 ==> r == Err::<Option<Attribute>, ParseError>(
            ParseError::MultipleAttributes,
        ),
        account_attr_count(attrs@) < 2 ==> r == Ok::<Option<Attribute>, ParseError>(
            first_account_attr(attrs@),
        ),
{
    let mut attrs = attrs;
    let mut count: usize = 0;
    let mut found: Option<usize> = None;
    let mut i: usize = 0;
    assert(attrs@.skip(0) =~= attrs@);
    while i < attrs.len()
        invariant
            i <= attrs@.len(),
            count <= i,
            account_attr_count(attrs@) == count + account_attr_count(attrs@.skip(i as int)),
            found is None ==> count == 0 && first_account_attr(attrs@) == first_account_attr(
                attrs@.skip(i as int),
            ),
            found matches Some(j) ==> j < i && count >= 1 && first_account_attr(attrs@) == Some(
                attrs@[j as int],
            ),
        decreases attrs@.len() - i,
    {
        let a = &attrs[i];
        let is_acc = a.path.len() == 1 && text_is(&a.path[0], "account");
        proof {
            assert(attrs@.skip(i as int).drop_first() =~= attrs@.skip(i + 1));
            assert(attrs@.skip(i as int)[0] == attrs@[i as int]);
        }
        if is_acc {
            count = count + 1;
            if found.is_none() {
                found = Some(i);
            }
        }
        i = i + 1;
    }
    if count >= 2 {
        return Err(ParseError::MultipleAttributes);
    }
    match found {
        None => Ok(None),
        Some(j) => Ok(Some(attrs.remove(j))),
    }
}

/// Classifies a field and assembles its parsed form.
fn parse_field(ident: String, ty: TypeExpr, anchor: Option<Attribute>) -> (r: Result<
    AccountField,
    ParseError,
>)
    ensures
        exists|lexed: Seq<bool>|
            field_result(classified_after(ident@, ty, anchor_constraints(anchor, lexed)), r),
{
    let ghost anchor_g = anchor;
    let ghost ident_g = ident;
    let ghost ty_g = ty;
    let pr = match anchor {
        None => {
            let pr = Ok(ParsedConstraints::empty());
            assert(constraints_result(anchor_constraints(anchor_g, Seq::empty()), pr));
            pr
        },
        Some(a) => {
            let ghost ag = a;
            let pr = parse_constraints(a);
            let ghost w = choose|w: Seq<bool>| constraints_result(attribute_constraints(ag.tokens@, w), pr);
            assert(constraints_result(anchor_constraints(anchor_g, w), pr));
            pr
        },
    };
    let ghost lx = choose|lx: Seq<bool>| constraints_result(anchor_constraints(anchor_g, lx), pr);
    assert(constraints_result(anchor_constraints(anchor_g, lx), pr));
    let r = match pr {
        Err(e) => Err(e),
        Ok(parsed) => {
            let ParsedConstraints {
                constraints,
                is_mut,
                is_signer,
                is_init,
                payer,
                space,
                associated_seeds,
            } = parsed;
            match is_field_primitive(&ty) {
                Err(e) => Err(e),
                Ok(true) => match parse_ty(&ty) {
                    Ok(t) => Ok(
                        AccountField::Field(
                            Field {
                                ident,
                                ty: t,
                                constraints,
                                is_mut,
                                is_signer,
                                is_init,
                                payer,
                                space,
                                associated_seeds,
                            },
                        ),
                    ),
                    Err(e) => Err(e),
                },
                Ok(false) => match ident_string(&ty) {
                    Ok(symbol) => Ok(
                        AccountField::AccountsStruct(
                            CompositeField { ident, symbol, constraints, raw_field: ty },
                        ),
                    ),
                    Err(e) => Err(e),
                },
            }
        },
    };
    assert(field_result(classified_after(ident_g@, ty_g, anchor_constraints(anchor_g, lx)), r));
    r
}

/// Whether the field's type is one of the account wrappers.
fn is_field_primitive(ty: &TypeExpr) -> (r: Result<bool, ParseError>)
    ensures
        match field_type_name(*ty) {
            Ok(n) => r == Ok::<bool, ParseError>(is_primitive_name(n)),
            Err(e) => r == Err::<bool, ParseError>(e),
        },
{
    let n = ident_string(ty)?;
    Ok(
        text_is(&n, "ProgramState") || text_is(&n, "ProgramAccount") || text_is(&n, "CpiAccount")
            || text_is(&n, "Sysvar") || text_is(&n, "AccountInfo") || text_is(&n, "CpiState")
            || text_is(&n, "Loader"),
    )
}

/// The account type of a field whose type is an account wrapper.
fn parse_ty(ty: &TypeExpr) -> (r: Result<Ty, ParseError>)
    requires
        field_type_name(*ty) matches Ok(n) && is_primitive_name(n),
    ensures
        match ty_of(field_type_name(*ty)->Ok_0, path_of(*ty)) {
            Ok(t) => r matches Ok(x) && x@ == t,
            Err(e) => r matches Err(x) && x == e,
        },
{
    let path = match ty {
        TypeExpr::Path(segs) => segs,
        TypeExpr::Other(_) => return Err(ParseError::InvalidAccountSyntax),
    };
    let n = ident_string(ty)?;
    if text_is(&n, "AccountInfo") {
        Ok(Ty::AccountInfo)
    } else if text_is(&n, "Sysvar") {
        Ok(Ty::Sysvar(parse_sysvar(path)?))
    } else if text_is(&n, "ProgramState") {
        Ok(Ty::ProgramState(parse_program_state(path)?))
    } else if text_is(&n, "CpiState") {
        Ok(Ty::CpiState(parse_cpi_state(path)?))
    } else if text_is(&n, "ProgramAccount") {
        Ok(Ty::ProgramAccount(parse_program_account(path)?))
    } else if text_is(&n, "CpiAccount") {
        Ok(Ty::CpiAccount(parse_cpi_account(path)?))
    } else {
        Ok(Ty::Loader(parse_program_account_zero_copy(path)?))
    }
}

/// The name of a field's type; only single-segment paths are supported.
fn ident_string(ty: &TypeExpr) -> (r: Result<String, ParseError>)
    ensures
        match field_type_name(*ty) {
            Ok(n) => r matches Ok(s) && s@ == n,
            Err(e) => r matches Err(x) && x == e,
        },
{
    match ty {
        TypeExpr::Path(segs) => {
            if segs.len() != 1 {
                return Err(ParseError::SegmentedPath);
            }
            Ok(segs[0].ident.clone())
        },
        TypeExpr::Other(_) => Err(ParseError::InvalidAccountSyntax),
    }
}

fn parse_program_state(path: &Vec<PathSegment>) -> (r: Result<ProgramStateTy, ParseError>)
    ensures
        match account_arg(path@) {
            Some(a) => r matches Ok(t) && t.account_ident@ == a,
            None => r matches Err(x) && x == ParseError::InvalidProgramAccount,
        },
{
    let account_ident = parse_account(path)?;
    Ok(ProgramStateTy { account_ident })
}

fn parse_cpi_state(path: &Vec<PathSegment>) -> (r: Result<CpiStateTy, ParseError>)
    ensures
        match account_arg(path@) {
            Some(a) => r matches Ok(t) && t.account_ident@ == a,
            None => r matches Err(x) && x == ParseError::InvalidProgramAccount,
        },
{
    let account_ident = parse_account(path)?;
    Ok(CpiStateTy { account_ident })
}

fn parse_cpi_account(path: &Vec<PathSegment>) -> (r: Result<CpiAccountTy, ParseError>)
    ensures
        match account_arg(path@) {
            Some(a) => r matches Ok(t) && t.account_ident@ == a,
            None => r matches Err(x) && x == ParseError::InvalidProgramAccount,
        },
{
    let account_ident = parse_account(path)?;
    Ok(CpiAccountTy { account_ident })
}

fn parse_program_account(path: &Vec<PathSegment>) -> (r: Result<ProgramAccountTy, ParseError>)
    ensures
        match account_arg(path@) {
            Some(a) => r matches Ok(t) && t.account_ident@ == a,
            None => r matches Err(x) && x == ParseError::InvalidProgramAccount,
        },
{
    let account_ident = parse_account(path)?;
    Ok(ProgramAccountTy { account_ident })
}

fn parse_program_account_zero_copy(path: &Vec<PathSegment>) -> (r: Result<LoaderTy, ParseError>)
    ensures
        match account_arg(path@) {
            Some(a) => r matches Ok(t) && t.account_ident@ == a,
            None => r matches Err(x) && x == ParseError::InvalidProgramAccount,
        },
{
    let account_ident = parse_account(path)?;
    Ok(LoaderTy { account_ident })
}

/// The inner type name of `W<'a, T>`.
fn parse_account(path: &Vec<PathSegment>) -> (r: Result<String, ParseError>)
    ensures
        match account_arg(path@) {
            Some(a) => r matches Ok(s) && s@ == a,
            None => r matches Err(x) && x == ParseError::InvalidProgramAccount,
        },
{
    if path.len() == 0 {
        return Err(ParseError::InvalidProgramAccount);
    }
    match &path[0].arguments {
        PathArguments::AngleBracketed(args) => {
            if args.len() != 2 {
                return Err(ParseError::InvalidProgramAccount);
            }
            match &args[1] {
                GenericArgument::Type(TypeExpr::Path(p)) => {
                    if p.len() != 1 {
                        return Err(ParseError::InvalidProgramAccount);
                    }
                    Ok(p[0].ident.clone())
                },
                _ => Err(ParseError::InvalidProgramAccount),
            }
        },
        _ => Err(ParseError::InvalidProgramAccount),
    }
}

/// The sysvar named by the type argument of `Sysvar<'a, T>`.
fn parse_sysvar(path: &Vec<PathSegment>) -> (r: Result<SysvarTy, ParseError>)
    ensures
        match account_arg(path@) {
            Some(a) => match sysvar_named(a) {
                Some(k) => r == Ok::<SysvarTy, ParseError>(k),
                None => r == Err::<SysvarTy, ParseError>(ParseError::InvalidSysvar),
            },
            None => r == Err::<SysvarTy, ParseError>(ParseError::InvalidSysvar),
        },
{
    let account_ident = match parse_account(path) {
        Ok(a) => a,
        Err(_) => return Err(ParseError::InvalidSysvar),
    };
    let a = &account_ident;
    if text_is(a, "Clock") {
        Ok(SysvarTy::Clock)
    } else if text_is(a, "Rent") {
        Ok(SysvarTy::Rent)
    } else if text_is(a, "EpochSchedule") {
        Ok(SysvarTy::EpochSchedule)
    } else if text_is(a, "Fees") {
        Ok(SysvarTy::Fees)
    } else if text_is(a, "RecentBlockhashes") {
        Ok(SysvarTy::RecentBlockhashes)
    } else if text_is(a, "SlotHashes") {
        Ok(SysvarTy::SlotHashes)
    } else if text_is(a, "SlotHistory") {
        Ok(SysvarTy::SlotHistory)
    } else if text_is(a, "StakeHistory") {
        Ok(SysvarTy::StakeHistory)
    } else if text_is(a, "Instructions") {
        Ok(SysvarTy::Instructions)
    } else if text_is(a, "Rewards") {
        Ok(SysvarTy::Rewards)
    } else {
        Err(ParseError::InvalidSysvar)
    }
}

} // verus!
