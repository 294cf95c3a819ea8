use anchor_accounts::accounts::parse;
use anchor_accounts::ast::{
    AccountField, Constraint, ConstraintRentExempt, ParseError, SysvarTy, Ty,
};
use anchor_accounts::constraints::{
    lex_answers, literal_payload, parse_constraint_tokens, parse_lexed_tokens, ParsedConstraints,
};
use anchor_accounts::tokens::{
    Attribute, Delimiter, FieldDef, Fields, GenericArgument, ItemStruct, PathArguments,
    PathSegment, Token, TypeExpr,
};

fn id(s: &str) -> Token {
    Token::Ident(s.to_string())
}

fn pu(c: char) -> Token {
    Token::Punct(c)
}

fn lit(s: &str) -> Token {
    Token::Literal(s.to_string())
}

fn account_attr(inner: Vec<Token>) -> Attribute {
    Attribute {
        path: vec!["account".to_string()],
        tokens: vec![Token::Group(Delimiter::Parenthesis, inner)],
    }
}

fn plain(name: &str) -> TypeExpr {
    TypeExpr::Path(vec![PathSegment {
        ident: name.to_string(),
        arguments: PathArguments::Plain,
    }])
}

fn wrapper(name: &str, inner: &[&str]) -> TypeExpr {
    let mut args = vec![GenericArgument::Lifetime("info".to_string())];
    for i in inner {
        args.push(GenericArgument::Type(plain(i)));
    }
    TypeExpr::Path(vec![PathSegment {
        ident: name.to_string(),
        arguments: PathArguments::AngleBracketed(args),
    }])
}

fn field(name: &str, ty: TypeExpr, attrs: Vec<Attribute>) -> FieldDef {
    FieldDef {
        ident: name.to_string(),
        ty,
        attrs,
    }
}

fn record(fields: Vec<FieldDef>) -> ItemStruct {
    ItemStruct {
        ident: "Ctx".to_string(),
        fields: Fields::Named(fields),
    }
}

fn parse_one(ty: TypeExpr, inner: Vec<Token>) -> Result<AccountField, ParseError> {
    parse(record(vec![field("acc", ty, vec![account_attr(inner)])]))
        .map(|mut s| s.fields.remove(0))
}

fn leaf(r: Result<AccountField, ParseError>) -> anchor_accounts::ast::Field {
    match r {
        Ok(AccountField::Field(f)) => f,
        other => panic!("expected a leaf field, got {:?}", other),
    }
}

fn tokens_ok(toks: Vec<Token>) -> ParsedConstraints {
    match parse_constraint_tokens(toks) {
        Ok(p) => p,
        Err(e) => panic!("unexpected error {:?}", e),
    }
}

#[test]
fn unannotated_fields_have_no_constraints() {
    let s = parse(record(vec![
        field("a", wrapper("ProgramAccount", &["Data"]), vec![]),
        field("b", plain("Nested"), vec![]),
    ]))
    .unwrap();
    assert_eq!(s.ident, "Ctx");
    match &s.fields[0] {
        AccountField::Field(f) => {
            assert_eq!(f.ident, "a");
            assert!(f.constraints.is_empty());
            assert!(!f.is_mut && !f.is_signer && !f.is_init);
            assert_eq!(f.payer, None);
            assert_eq!(f.space, None);
            assert!(f.associated_seeds.is_empty());
            match &f.ty {
                Ty::ProgramAccount(t) => assert_eq!(t.account_ident, "Data"),
                other => panic!("{:?}", other),
            }
        }
        other => panic!("{:?}", other),
    }
    match &s.fields[1] {
        AccountField::AccountsStruct(c) => {
            assert_eq!(c.ident, "b");
            assert_eq!(c.symbol, "Nested");
            assert!(c.constraints.is_empty());
            assert_eq!(c.raw_field, plain("Nested"));
        }
        other => panic!("{:?}", other),
    }
}

#[test]
fn init_alone_enforces_rent_exemption() {
    let p = tokens_ok(vec![id("init")]);
    assert!(p.is_init && p.is_mut && !p.is_signer);
    assert_eq!(
        p.constraints,
        vec![Constraint::RentExempt(ConstraintRentExempt::Enforce)]
    );
}

#[test]
fn rent_exempt_skip_after_init() {
    let p = tokens_ok(vec![id("init"), pu(','), id("rent_exempt"), pu('='), id("skip")]);
    assert!(p.is_init);
    assert_eq!(
        p.constraints,
        vec![Constraint::RentExempt(ConstraintRentExempt::Skip)]
    );
    let q = tokens_ok(vec![id("rent_exempt"), pu('='), id("skip"), pu(','), id("init")]);
    assert_eq!(
        q.constraints,
        vec![Constraint::RentExempt(ConstraintRentExempt::Skip)]
    );
}

#[test]
fn bare_rent_exempt_at_end_enforces() {
    let p = tokens_ok(vec![id("rent_exempt"), pu('='), id("skip"), pu(','), id("rent_exempt")]);
    assert_eq!(
        p.constraints,
        vec![Constraint::RentExempt(ConstraintRentExempt::Enforce)]
    );
}

#[test]
fn associated_cancels_init_in_either_order() {
    let a = tokens_ok(vec![id("associated"), pu('='), id("x"), pu(','), id("init")]);
    assert!(a.is_mut && !a.is_init);
    assert_eq!(
        a.constraints,
        vec![
            Constraint::Associated("x".to_string()),
            Constraint::RentExempt(ConstraintRentExempt::Enforce)
        ]
    );
    let b = tokens_ok(vec![id("init"), pu(','), id("associated"), pu('='), id("x")]);
    assert!(b.is_mut && !b.is_init);
}

#[test]
fn signer_adds_one_constraint() {
    let p = tokens_ok(vec![id("signer")]);
    assert!(p.is_signer && !p.is_mut);
    assert_eq!(p.constraints, vec![Constraint::Signer]);
}

#[test]
fn two_annotations_are_rejected() {
    let f = field(
        "acc",
        wrapper("ProgramAccount", &["Data"]),
        vec![account_attr(vec![id("mut")]), account_attr(vec![id("signer")])],
    );
    let e = parse(record(vec![f])).unwrap_err();
    assert_eq!(e, ParseError::MultipleAttributes);
    assert!(e.message().contains("specify one account attribute"));
}

#[test]
fn other_attributes_are_ignored() {
    let doc = Attribute {
        path: vec!["doc".to_string()],
        tokens: vec![],
    };
    let f = field(
        "acc",
        wrapper("ProgramAccount", &["Data"]),
        vec![doc, account_attr(vec![id("mut")])],
    );
    let s = parse(record(vec![f])).unwrap();
    match &s.fields[0] {
        AccountField::Field(f) => assert!(f.is_mut),
        other => panic!("{:?}", other),
    }
}

#[test]
fn three_type_arguments_are_rejected() {
    let e = parse_one(wrapper("ProgramAccount", &["A", "B"]), vec![]).unwrap_err();
    assert_eq!(e, ParseError::InvalidProgramAccount);
    assert_eq!(e.message(), "Invalid ProgramAccount");
    let e = parse_one(wrapper("Sysvar", &["Clock", "B"]), vec![]).unwrap_err();
    assert_eq!(e, ParseError::InvalidSysvar);
    assert_eq!(e.message(), "Invalid Sysvar");
}

#[test]
fn space_literal_is_unquoted() {
    let p = tokens_ok(vec![
        id("init"),
        pu(','),
        id("payer"),
        pu('='),
        id("user"),
        pu(','),
        id("space"),
        pu('='),
        lit("\"8 + 32\""),
    ]);
    assert_eq!(p.space, Some("8 + 32".to_string()));
    assert_eq!(p.payer, Some("user".to_string()));
}

#[test]
fn space_needs_a_literal() {
    let e = parse_constraint_tokens(vec![id("space"), pu('='), id("x")]).unwrap_err();
    assert_eq!(e, ParseError::InvalidSpace);
}

#[test]
fn unlexable_literal_is_rejected() {
    let e = parse_constraint_tokens(vec![lit("\"a == (b\"")]).unwrap_err();
    assert_eq!(e, ParseError::InvalidExpression);
    let e = parse_constraint_tokens(vec![id("space"), pu('='), lit("\"8 + (\"")]).unwrap_err();
    assert_eq!(e, ParseError::InvalidExpression);
}

#[test]
fn unknown_keyword_is_rejected() {
    let e = parse_one(wrapper("ProgramAccount", &["Data"]), vec![id("signer"), pu(','), id("foo")])
        .unwrap_err();
    assert_eq!(e, ParseError::InvalidSyntax);
    assert_eq!(e.message(), "invalid syntax");
}

#[test]
fn bare_literal_becomes_constraint_in_place() {
    let p = tokens_ok(vec![
        id("signer"),
        pu(','),
        lit("\"a.key == b.key\""),
        pu(','),
        id("executable"),
    ]);
    assert_eq!(
        p.constraints,
        vec![
            Constraint::Signer,
            Constraint::Literal("a.key == b.key".to_string()),
            Constraint::Executable
        ]
    );
}

#[test]
fn targets_and_seeds_are_recorded() {
    let p = tokens_ok(vec![
        id("seeds"),
        pu('='),
        Token::Group(Delimiter::Bracket, vec![lit("b\"seed\"")]),
        pu(','),
        id("belongs_to"),
        pu('='),
        id("authority"),
        pu(','),
        id("has_one"),
        pu('='),
        id("mint"),
        pu(','),
        id("owner"),
        pu('='),
        id("program"),
        pu(','),
        id("state"),
        pu('='),
        id("prog"),
        pu(','),
        id("with"),
        pu('='),
        id("extra"),
        pu(','),
        id("mut"),
    ]);
    assert_eq!(
        p.constraints,
        vec![
            Constraint::Seeds(Delimiter::Bracket, vec![lit("b\"seed\"")]),
            Constraint::BelongsTo("authority".to_string()),
            Constraint::BelongsTo("mint".to_string()),
            Constraint::Owner("program".to_string()),
            Constraint::State("prog".to_string()),
        ]
    );
    assert_eq!(p.associated_seeds, vec!["extra".to_string()]);
    assert!(p.is_mut && !p.is_init);
}

#[test]
fn malformed_clauses_are_rejected() {
    let cases = vec![
        vec![id("owner")],
        vec![id("owner"), pu('=')],
        vec![id("owner"), pu(':'), id("x")],
        vec![id("owner"), pu('='), lit("\"x\"")],
        vec![id("seeds"), pu('='), id("x")],
        vec![id("signer"), pu(';')],
        vec![Token::Group(Delimiter::Parenthesis, vec![])],
        vec![id("rent_exempt"), pu(',')],
    ];
    for c in cases {
        assert_eq!(parse_constraint_tokens(c).unwrap_err(), ParseError::InvalidSyntax);
    }
}

#[test]
fn rent_exempt_only_accepts_skip() {
    let e = parse_constraint_tokens(vec![id("rent_exempt"), pu('='), id("enforce")]).unwrap_err();
    assert_eq!(e, ParseError::InvalidRentExempt);
}

#[test]
fn attribute_needs_a_group() {
    let bare = Attribute {
        path: vec!["account".to_string()],
        tokens: vec![],
    };
    let f = field("acc", wrapper("ProgramAccount", &["Data"]), vec![bare]);
    assert_eq!(parse(record(vec![f])).unwrap_err(), ParseError::MissingTokenGroup);
    let ident_first = Attribute {
        path: vec!["account".to_string()],
        tokens: vec![id("mut")],
    };
    let f = field("acc", wrapper("ProgramAccount", &["Data"]), vec![ident_first]);
    assert_eq!(parse(record(vec![f])).unwrap_err(), ParseError::InvalidSyntax);
}

#[test]
fn sysvars_resolve() {
    let names = [
        ("Clock", SysvarTy::Clock),
        ("Rent", SysvarTy::Rent),
        ("EpochSchedule", SysvarTy::EpochSchedule),
        ("Fees", SysvarTy::Fees),
        ("RecentBlockhashes", SysvarTy::RecentBlockhashes),
        ("SlotHashes", SysvarTy::SlotHashes),
        ("SlotHistory", SysvarTy::SlotHistory),
        ("StakeHistory", SysvarTy::StakeHistory),
        ("Instructions", SysvarTy::Instructions),
        ("Rewards", SysvarTy::Rewards),
    ];
    for (n, k) in names {
        let f = leaf(parse_one(wrapper("Sysvar", &[n]), vec![]));
        assert_eq!(f.ty, Ty::Sysvar(k));
    }
    let e = parse_one(wrapper("Sysvar", &["Weather"]), vec![]).unwrap_err();
    assert_eq!(e, ParseError::InvalidSysvar);
}

#[test]
fn wrapper_kinds_resolve() {
    let f = leaf(parse_one(wrapper("ProgramState", &["S"]), vec![]));
    assert!(matches!(f.ty, Ty::ProgramState(ref t) if t.account_ident == "S"));
    let f = leaf(parse_one(wrapper("CpiState", &["S"]), vec![]));
    assert!(matches!(f.ty, Ty::CpiState(ref t) if t.account_ident == "S"));
    let f = leaf(parse_one(wrapper("CpiAccount", &["T"]), vec![]));
    assert!(matches!(f.ty, Ty::CpiAccount(ref t) if t.account_ident == "T"));
    let f = leaf(parse_one(wrapper("Loader", &["Z"]), vec![]));
    assert!(matches!(f.ty, Ty::Loader(ref t) if t.account_ident == "Z"));
    let f = leaf(parse_one(plain("AccountInfo"), vec![id("signer")]));
    assert_eq!(f.ty, Ty::AccountInfo);
    assert!(f.is_signer);
    let e = parse_one(plain("ProgramAccount"), vec![]).unwrap_err();
    assert_eq!(e, ParseError::InvalidProgramAccount);
}

#[test]
fn unsupported_types_are_rejected() {
    let two = TypeExpr::Path(vec![
        PathSegment {
            ident: "a".to_string(),
            arguments: PathArguments::Plain,
        },
        PathSegment {
            ident: "B".to_string(),
            arguments: PathArguments::Plain,
        },
    ]);
    assert_eq!(parse_one(two, vec![]).unwrap_err(), ParseError::SegmentedPath);
    let other = TypeExpr::Other("&'a u8".to_string());
    assert_eq!(parse_one(other, vec![]).unwrap_err(), ParseError::InvalidAccountSyntax);
}

#[test]
fn composite_fields_keep_constraints() {
    let f = parse_one(plain("Inner"), vec![id("signer")]).unwrap();
    match f {
        AccountField::AccountsStruct(c) => {
            assert_eq!(c.symbol, "Inner");
            assert_eq!(c.constraints, vec![Constraint::Signer]);
        }
        other => panic!("{:?}", other),
    }
}

#[test]
fn non_named_fields_are_rejected() {
    let s = ItemStruct {
        ident: "T".to_string(),
        fields: Fields::Unnamed(2),
    };
    assert_eq!(parse(s).unwrap_err(), ParseError::InvalidInput);
    let u = ItemStruct {
        ident: "U".to_string(),
        fields: Fields::Unit,
    };
    assert_eq!(parse(u).unwrap_err(), ParseError::InvalidInput);
}

#[test]
fn field_order_is_kept_and_first_error_wins() {
    let s = parse(record(vec![
        field("z", plain("AccountInfo"), vec![]),
        field("a", plain("AccountInfo"), vec![]),
        field("m", plain("Nested"), vec![]),
    ]))
    .unwrap();
    let names: Vec<String> = s
        .fields
        .iter()
        .map(|f| match f {
            AccountField::Field(f) => f.ident.clone(),
            AccountField::AccountsStruct(c) => c.ident.clone(),
        })
        .collect();
    assert_eq!(names, vec!["z", "a", "m"]);
    let e = parse(record(vec![
        field("a", plain("AccountInfo"), vec![account_attr(vec![id("foo")])]),
        field("b", wrapper("Sysvar", &["Nope"]), vec![]),
    ]))
    .unwrap_err();
    assert_eq!(e, ParseError::InvalidSyntax);
}

#[test]
fn literal_payload_follows_the_answer() {
    let l = "\"a == b\"".to_string();
    assert_eq!(literal_payload(&l, true), Ok("a == b".to_string()));
    assert_eq!(literal_payload(&l, false), Err(ParseError::InvalidExpression));
}

#[test]
fn lexer_answers_cover_literals_only() {
    let toks = vec![id("signer"), pu(','), lit("\"a == b\""), pu(','), lit("\"a == (b\"")];
    assert_eq!(lex_answers(&toks), vec![false, false, true, false, false]);
}

#[test]
fn parse_with_given_answers() {
    let toks = vec![id("space"), pu('='), lit("\"8 + 32\"")];
    let p = parse_lexed_tokens(toks, &vec![false, false, true]).unwrap();
    assert_eq!(p.space, Some("8 + 32".to_string()));
    let toks = vec![id("space"), pu('='), lit("\"8 + 32\"")];
    let e = parse_lexed_tokens(toks, &vec![false, false, false]).unwrap_err();
    assert_eq!(e, ParseError::InvalidExpression);
    let toks = vec![id("mut"), pu(','), id("signer")];
    let p = parse_lexed_tokens(toks, &vec![true, true, true]).unwrap();
    assert!(p.is_mut && p.is_signer);
    assert_eq!(p.constraints, vec![Constraint::Signer]);
}
