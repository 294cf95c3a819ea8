//! The output model: one entry per field, with its account type and
//! constraints, and the error raised on malformed input.

use vstd::prelude::*;
use crate::constraints::ConstraintsModel;
use crate::tokens::{Delimiter, Token, TypeExpr};

verus! {

/// Every fatal condition of the parse.
#[derive(Clone, Copy, Debug, PartialEq, Eq, Structural)]
pub enum ParseError {
    /// The struct does not have named fields.
    InvalidInput,
    /// A field carries more than one `account` attribute.
    MultipleAttributes,
    /// A field's type is not a path.
    InvalidAccountSyntax,
    /// A field's type is a path of more than one segment.
    SegmentedPath,
    /// The type argument of a `ProgramState`, `CpiState`, `ProgramAccount`,
    /// `CpiAccount` or `Loader` field cannot be resolved.
    InvalidProgramAccount,
    /// The type argument of a `Sysvar` field cannot be resolved to a sysvar.
    InvalidSysvar,
    /// The attribute's tokens do not start with a group.
    MissingTokenGroup,
    /// A malformed clause inside the attribute.
    InvalidSyntax,
    /// `rent_exempt = v` with `v` other than `skip`.
    InvalidRentExempt,
    /// `space = v` with `v` not a literal.
    InvalidSpace,
    /// A literal whose text, with quotes removed, does not lex as tokens.
    InvalidExpression,
}

impl ParseError {
    pub open spec fn spec_message(self) -> Seq<char> {
        match self {
            ParseError::InvalidInput => "invalid input"@,
            ParseError::MultipleAttributes => "Invalid syntax: please specify one account attribute."@,
            ParseError::InvalidAccountSyntax => "invalid account syntax"@,
            ParseError::SegmentedPath => "segmented paths are not supported"@,
            ParseError::InvalidProgramAccount => "Invalid ProgramAccount"@,
            ParseError::InvalidSysvar => "Invalid Sysvar"@,
            ParseError::MissingTokenGroup => "Must have a token group"@,
            ParseError::InvalidSyntax => "invalid syntax"@,
            ParseError::InvalidRentExempt => "invalid syntax: omit the rent_exempt attribute to enforce rent exemption"@,
            ParseError::InvalidSpace => "invalid space"@,
            ParseError::InvalidExpression => "invalid expression"@,
        }
    }

    /// A human-readable description of the error.
    pub fn message(&self) -> (r: String)
        ensures
            r@ == self.spec_message(),
    {
        let s = match self {
            ParseError::InvalidInput => "invalid input",
            ParseError::MultipleAttributes => "Invalid syntax: please specify one account attribute.",
            ParseError::InvalidAccountSyntax => "invalid account syntax",
            ParseError::SegmentedPath => "segmented paths are not supported",
            ParseError::InvalidProgramAccount => "Invalid ProgramAccount",
            ParseError::InvalidSysvar => "Invalid Sysvar",
            ParseError::MissingTokenGroup => "Must have a token group",
            ParseError::InvalidSyntax => "invalid syntax",
            ParseError::InvalidRentExempt => "invalid syntax: omit the rent_exempt attribute to enforce rent exemption",
            ParseError::InvalidSpace => "invalid space",
            ParseError::InvalidExpression => "invalid expression",
        };
        s.to_owned()
    }
}

/// The rent-exemption decision of a field.
#[derive(Clone, Copy, Debug, PartialEq, Eq, Structural)]
pub enum ConstraintRentExempt {
    Enforce,
    Skip,
}

/// One constraint declared on a field.
#[derive(Debug, PartialEq, Eq)]
pub enum Constraint {
    Signer,
    /// The seeds group, verbatim.
    Seeds(Delimiter, Vec<Token>),
    BelongsTo(String),
    Owner(String),
    RentExempt(ConstraintRentExempt),
    Executable,
    State(String),
    Associated(String),
    /// A boolean expression, as text with its quotes removed.
    Literal(String),
}

/// A constraint with its texts as character sequences.
pub enum ConstraintModel {
    Signer,
    Seeds(Delimiter, Seq<Token>),
    BelongsTo(Seq<char>),
    Owner(Seq<char>),
    RentExempt(ConstraintRentExempt),
    Executable,
    State(Seq<char>),
    Associated(Seq<char>),
    Literal(Seq<char>),
}

impl View for Constraint {
    type V = ConstraintModel;

    open spec fn view(&self) -> ConstraintModel {
        match self {
            Constraint::Signer => ConstraintModel::Signer,
            Constraint::Seeds(d, g) => ConstraintModel::Seeds(*d, g@),
            Constraint::BelongsTo(t) => ConstraintModel::BelongsTo(t@),
            Constraint::Owner(t) => ConstraintModel::Owner(t@),
            Constraint::RentExempt(r) => ConstraintModel::RentExempt(*r),
            Constraint::Executable => ConstraintModel::Executable,
            Constraint::State(t) => ConstraintModel::State(t@),
            Constraint::Associated(t) => ConstraintModel::Associated(t@),
            Constraint::Literal(e) => ConstraintModel::Literal(e@),
        }
    }
}

pub open spec fn constraints_view(cs: Seq<Constraint>) -> Seq<ConstraintModel> {
    cs.map_values(|c: Constraint| c@)
}

pub open spec fn strings_view(ss: Seq<String>) -> Seq<Seq<char>> {
    ss.map_values(|s: String| s@)
}

pub open spec fn opt_view(o: Option<String>) -> Option<Seq<char>> {
    match o {
        Some(s) => Some(s@),
        None => None,
    }
}

/// The sysvar kinds that a `Sysvar` field can name.
#[derive(Clone, Copy, Debug, PartialEq, Eq, Structural)]
pub enum SysvarTy {
    Clock,
    Rent,
    EpochSchedule,
    Fees,
    RecentBlockhashes,
    SlotHashes,
    SlotHistory,
    StakeHistory,
    Instructions,
    Rewards,
}

#[derive(Debug, PartialEq, Eq)]
pub struct ProgramStateTy {
    pub account_ident: String,
}

#[derive(Debug, PartialEq, Eq)]
pub struct CpiStateTy {
    pub account_ident: String,
}

#[derive(Debug, PartialEq, Eq)]
pub struct ProgramAccountTy {
    pub account_ident: String,
}

#[derive(Debug, PartialEq, Eq)]
pub struct CpiAccountTy {
    pub account_ident: String,
}

#[derive(Debug, PartialEq, Eq)]
pub struct LoaderTy {
    pub account_ident: String,
}

/// The account type of a leaf field.
#[derive(Debug, PartialEq, Eq)]
pub enum Ty {
    ProgramState(ProgramStateTy),
    CpiState(CpiStateTy),
    ProgramAccount(ProgramAccountTy),
    CpiAccount(CpiAccountTy),
    Sysvar(SysvarTy),
    AccountInfo,
    Loader(LoaderTy),
}

/// A field whose type is one of the account wrappers.
#[derive(Debug, PartialEq, Eq)]
pub struct Field {
    pub ident: String,
    pub ty: Ty,
    pub constraints: Vec<Constraint>,
    pub is_mut: bool,
    pub is_signer: bool,
    pub is_init: bool,
    pub payer: Option<String>,
    pub space: Option<String>,
    pub associated_seeds: Vec<String>,
}

/// A field that nests another accounts struct.
#[derive(Debug, PartialEq, Eq)]
pub struct CompositeField {
    pub ident: String,
    pub symbol: String,
    pub constraints: Vec<Constraint>,
    pub raw_field: TypeExpr,
}

#[derive(Debug, PartialEq, Eq)]
pub enum AccountField {
    Field(Field),
    AccountsStruct(CompositeField),
}

/// The parsed struct: its name and its fields in declaration order.
#[derive(Debug, PartialEq, Eq)]
pub struct AccountsStruct {
    pub ident: String,
    pub fields: Vec<AccountField>,
}

/// An account type with its inner type name as a character sequence.
pub enum TyModel {
    ProgramState(Seq<char>),
    CpiState(Seq<char>),
    ProgramAccount(Seq<char>),
    CpiAccount(Seq<char>),
    Sysvar(SysvarTy),
    AccountInfo,
    Loader(Seq<char>),
}

impl View for Ty {
    type V = TyModel;

    open spec fn view(&self) -> TyModel {
        match self {
            Ty::ProgramState(t) => TyModel::ProgramState(t.account_ident@),
            Ty::CpiState(t) => TyModel::CpiState(t.account_ident@),
            Ty::ProgramAccount(t) => TyModel::ProgramAccount(t.account_ident@),
            Ty::CpiAccount(t) => TyModel::CpiAccount(t.account_ident@),
            Ty::Sysvar(k) => TyModel::Sysvar(*k),
            Ty::AccountInfo => TyModel::AccountInfo,
            Ty::Loader(t) => TyModel::Loader(t.account_ident@),
        }
    }
}

/// A parsed field, with texts as character sequences.
pub enum AccountFieldModel {
    Field { ident: Seq<char>, ty: TyModel, parsed: ConstraintsModel },
    Composite { ident: Seq<char>, symbol: Seq<char>, constraints: Seq<ConstraintModel>, raw_field: TypeExpr },
}

impl View for AccountField {
    type V = AccountFieldModel;

    open spec fn view(&self) -> AccountFieldModel {
        match self {
            AccountField::Field(f) => AccountFieldModel::Field {
                ident: f.ident@,
                ty: f.ty@,
                parsed: ConstraintsModel {
                    constraints: constraints_view(f.constraints@),
                    is_mut: f.is_mut,
                    is_signer: f.is_signer,
                    is_init: f.is_init,
                    payer: opt_view(f.payer),
                    space: opt_view(f.space),
                    associated_seeds: strings_view(f.associated_seeds@),
                },
            },
            AccountField::AccountsStruct(c) => AccountFieldModel::Composite {
                ident: c.ident@,
                symbol: c.symbol@,
                constraints: constraints_view(c.constraints@),
                raw_field: c.raw_field,
            },
        }
    }
}

pub open spec fn fields_view(fs: Seq<AccountField>) -> Seq<AccountFieldModel> {
    fs.map_values(|f: AccountField| f@)
}

} // verus!
