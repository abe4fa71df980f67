use ide::defs::{Definition, DefinitionKind, ModuleFacts, NameClass};
use ide::edit::{FileSystemEdit, Indel, SourceChange, SourceFileEdit, TextEdit};
use ide::edit::edits_disjoint;
use ide::names::{classify_lexed, classify_name, is_keyword, same_text, LexError, LexedToken, NameKind};
use rustc_ap_rustc_lexer::{LiteralKind, RawStrError, TokenKind};
use ide::rename::{
    prepare_rename, rename, rename_reference, FunctionFacts, IdentParent, RecordFieldSite,
    Reference, ReferenceKind, ReferenceSearchResult, RenameError, RenameErrorKind, RenameSite,
    SelfParamFacts, SelfToken, Ty,
};
use ide::text::{FilePosition, FileRange, RangeInfo, TextRange};

fn at(text: &str, needle: &str, nth: usize) -> TextRange {
    let start = text.match_indices(needle).nth(nth).expect("needle not found").0 as u32;
    TextRange::new(start, start + needle.len() as u32)
}

fn first_char(r: TextRange) -> TextRange {
    TextRange::new(r.start, r.start + 1)
}

fn reference(range: TextRange, kind: ReferenceKind) -> Reference {
    Reference {
        file_range: FileRange { file_id: 0, range },
        kind,
        record_expr_field: None,
        record_pat_field: None,
    }
}

fn site(text: &str, offset: u32) -> RenameSite {
    RenameSite {
        position: FilePosition { file_id: 0, offset },
        file_text: text.to_string(),
        ident_parent: None,
        self_tokens: Vec::new(),
        references: None,
        function: None,
        impl_target: None,
    }
}

fn apply(text: &str, change: &SourceChange) -> String {
    let mut indels: Vec<(u32, u32, String)> = Vec::new();
    for edit in &change.source_file_edits {
        for indel in &edit.edit.indels {
            indels.push((indel.delete.start, indel.delete.end, indel.insert.clone()));
        }
    }
    indels.sort_by(|a, b| b.0.cmp(&a.0).then(b.1.cmp(&a.1)));
    let mut out = text.to_string();
    for (start, end, insert) in indels {
        out.replace_range(start as usize..end as usize, &insert);
    }
    out
}

#[test]
fn rename_local_replaces_only_its_occurrences() {
    let text = "fn main(){ let mut i = 1; i = i + 1; }";
    let decl = first_char(at(text, "i = 1", 0));
    let usages = vec![first_char(at(text, "i = i", 0)), first_char(at(text, "i + 1", 0))];
    let mut s = site(text, decl.start);
    s.references = Some(RangeInfo::new(
        decl,
        ReferenceSearchResult {
            declaration: reference(decl, ReferenceKind::Plain),
            references: usages.iter().map(|r| reference(*r, ReferenceKind::Plain)).collect(),
        },
    ));
    let change = rename(&s, "k").unwrap();
    assert_eq!(change.range, decl);
    assert_eq!(apply(text, &change.info), "fn main(){ let mut k = 1; k = k + 1; }");
}

fn self_removal_site(text: &str) -> RenameSite {
    self_removal_site_for(text, "&mut self", true, true)
}

fn self_removal_site_for(text: &str, param: &str, has_amp: bool, has_mut: bool) -> RenameSite {
    let param = at(text, param, 0);
    let mut s = site(text, at(text, "self", 0).start);
    s.function = Some(FunctionFacts {
        range: TextRange::new(at(text, "fn f", 0).start, text.len() as u32 - 2),
        first_param_range: None,
        has_self_param: true,
        first_param_ty: None,
    });
    s.self_tokens = vec![
        SelfToken {
            range: at(text, "self", 0),
            param: Some(SelfParamFacts {
                range: param,
                has_amp,
                has_mut,
                impl_type_name: Some("Foo".to_string()),
            }),
        },
        SelfToken { range: at(text, "self", 1), param: None },
    ];
    s
}

#[test]
fn self_to_named_parameter_in_impl() {
    let text = "impl Foo { fn f(&mut self) -> i32 { self.i } }";
    let change = rename(&self_removal_site(text), "foo").unwrap();
    assert_eq!(change.range, at(text, "&mut self", 0));
    assert_eq!(apply(text, &change.info), "impl Foo { fn f(foo: &mut Foo) -> i32 { foo.i } }");
}

#[test]
fn self_removal_needs_a_named_impl_type() {
    let text = "impl Foo { fn f(&mut self) -> i32 { self.i } }";
    let mut s = self_removal_site(text);
    s.self_tokens[0].param.as_mut().unwrap().impl_type_name = None;
    let err = rename(&s, "foo").unwrap_err();
    assert_eq!(err.kind, RenameErrorKind::NoTargetType);
    assert_eq!(err.message(), "No target type found");
    let mut s = self_removal_site(text);
    s.function = None;
    assert_eq!(rename(&s, "foo").unwrap_err().message(), "No surrounding method declaration found");
}

#[test]
fn self_introduction_then_removal_restores_the_method() {
    let before = "impl Foo { fn f(foo: &mut Foo) -> i32 { foo.i } }";
    let param = at(before, "foo: &mut Foo", 0);
    let name = TextRange::new(param.start, param.start + 3);
    let usage = first_char(at(before, "foo.i", 0));
    let usage = TextRange::new(usage.start, usage.start + 3);
    let mut s = site(before, name.start + 1);
    s.function = Some(FunctionFacts {
        range: TextRange::new(at(before, "fn f", 0).start, before.len() as u32 - 2),
        first_param_range: Some(param),
        has_self_param: false,
        first_param_ty: Some(Ty { base: 7, refs: vec![true] }),
    });
    s.impl_target = Some(Ty { base: 7, refs: vec![] });
    s.references = Some(RangeInfo::new(
        name,
        ReferenceSearchResult {
            declaration: reference(name, ReferenceKind::Plain),
            references: vec![reference(usage, ReferenceKind::Plain)],
        },
    ));
    let introduced = apply(before, &rename(&s, "self").unwrap().info);
    assert_eq!(introduced, "impl Foo { fn f(&mut self) -> i32 { self.i } }");
    let removed = apply(&introduced, &rename(&self_removal_site(&introduced), "foo").unwrap().info);
    assert_eq!(removed, before);
}

#[test]
fn self_introduction_errors_in_order() {
    let text = "impl Foo { fn f(foo: &Foo) {} }";
    let param = at(text, "foo: &Foo", 0);
    let facts = |has_self: bool, ty: Option<Ty>| FunctionFacts {
        range: TextRange::new(11, 29),
        first_param_range: Some(param),
        has_self_param: has_self,
        first_param_ty: ty,
    };
    let mut s = site(text, param.start);
    assert_eq!(rename(&s, "self").unwrap_err().kind, RenameErrorKind::NoSurroundingMethod);
    s.function = Some(FunctionFacts {
        range: TextRange::new(11, 29),
        first_param_range: None,
        has_self_param: false,
        first_param_ty: None,
    });
    assert_eq!(rename(&s, "self").unwrap_err().message(), "Method has no parameters");
    s.function = Some(facts(false, Some(Ty { base: 1, refs: vec![false] })));
    assert_eq!(rename(&s, "self").unwrap_err().kind, RenameErrorKind::NoImplBlock);
    s.impl_target = Some(Ty { base: 1, refs: vec![] });
    s.function = Some(facts(true, Some(Ty { base: 1, refs: vec![false] })));
    assert_eq!(rename(&s, "self").unwrap_err().message(), "Method already has a self parameter");
    s.function = Some(facts(false, Some(Ty { base: 1, refs: vec![false] })));
    assert_eq!(rename(&s, "self").unwrap_err().message(), "No reference found at position");
    let elsewhere = TextRange::new(27, 28);
    s.references = Some(RangeInfo::new(
        elsewhere,
        ReferenceSearchResult {
            declaration: reference(elsewhere, ReferenceKind::Plain),
            references: vec![],
        },
    ));
    assert_eq!(rename(&s, "self").unwrap_err().message(), "Parameter to rename not found");
}

#[test]
fn field_shorthand_round_trip() {
    let explicit = "fn f(v: i32) -> S { S { field: v } }";
    let field = at(explicit, "field", 0);
    let mut collapse = reference(field, ReferenceKind::RecordFieldExprOrPat);
    collapse.record_expr_field = Some(RecordFieldSite {
        range: at(explicit, "field: v", 0),
        value_name: Some("v".to_string()),
    });
    let mut s = site(explicit, field.start);
    s.references = Some(RangeInfo::new(
        field,
        ReferenceSearchResult { declaration: collapse, references: vec![] },
    ));
    let shorthand = apply(explicit, &rename(&s, "v").unwrap().info);
    assert_eq!(shorthand, "fn f(v: i32) -> S { S { v } }");

    let v = at(&shorthand, "v }", 0);
    let v = first_char(v);
    let mut s = site(&shorthand, v.start);
    s.references = Some(RangeInfo::new(
        v,
        ReferenceSearchResult {
            declaration: reference(v, ReferenceKind::FieldShorthandForField),
            references: vec![],
        },
    ));
    assert_eq!(apply(&shorthand, &rename(&s, "field").unwrap().info), explicit);
}

#[test]
fn rename_makes_one_edit_per_reference() {
    let refs = Some(RangeInfo::new(
        TextRange::new(0, 1),
        ReferenceSearchResult {
            declaration: reference(TextRange::new(0, 1), ReferenceKind::Plain),
            references: vec![
                Reference {
                    file_range: FileRange { file_id: 3, range: TextRange::new(5, 6) },
                    kind: ReferenceKind::Plain,
                    record_expr_field: None,
                    record_pat_field: None,
                },
                reference(TextRange::new(9, 10), ReferenceKind::FieldShorthandForLocal),
            ],
        },
    ));
    let change = rename_reference(&refs, "name", false).unwrap().info;
    let count: usize = change.source_file_edits.iter().map(|e| e.edit.indels.len()).sum();
    assert_eq!(count, 3);
    assert_eq!(change.source_file_edits.len(), 2);
    assert_eq!(change.source_file_edits[0].file_id, 0);
    assert_eq!(change.source_file_edits[0].edit.indels[1].insert, ": name");
    assert_eq!(change.source_file_edits[0].edit.indels[1].delete, TextRange::new(10, 10));
    assert_eq!(change.source_file_edits[1].file_id, 3);
}

#[test]
fn lifetime_mismatches_are_refused() {
    let lifetime_decl = Some(RangeInfo::new(
        TextRange::new(0, 2),
        ReferenceSearchResult {
            declaration: reference(TextRange::new(0, 2), ReferenceKind::Lifetime),
            references: vec![],
        },
    ));
    let local_decl = Some(RangeInfo::new(
        TextRange::new(0, 1),
        ReferenceSearchResult {
            declaration: reference(TextRange::new(0, 1), ReferenceKind::Plain),
            references: vec![],
        },
    ));
    let err = rename_reference(&local_decl, "'b", true).unwrap_err();
    assert_eq!(err.message(), "Invalid name `'b`: not a lifetime identifier");
    let err = rename_reference(&lifetime_decl, "b", false).unwrap_err();
    assert_eq!(err.message(), "Invalid name `b`: not an identifier");
    assert!(rename_reference(&lifetime_decl, "'b", true).is_ok());
}

#[test]
fn reserved_lifetimes_are_refused() {
    let s = site("fn f<'a>() {}", 5);
    assert_eq!(
        rename(&s, "'static").unwrap_err().message(),
        "Invalid name `'static`: Cannot rename lifetime to 'static"
    );
    assert_eq!(rename(&s, "'_").unwrap_err().message(), "Invalid name `'_`: Cannot rename lifetime to '_");
    assert_eq!(rename(&s, "").unwrap_err().message(), "Invalid name ``: not an identifier");
}

#[test]
fn module_rename_moves_exactly_one_file() {
    let text = "mod a;\nfn f() { a::g() }\n";
    let decl = at(text, "a", 0);
    let usage = at(text, "a::", 0);
    let usage = first_char(usage);
    let mut s = site(text, decl.start);
    s.ident_parent = Some(IdentParent::Name(Some(NameClass::Definition(Definition {
        kind: DefinitionKind::Module(ModuleFacts {
            definition_file: 4,
            has_own_file: true,
            is_mod_rs: false,
            declaration_name: Some(FileRange { file_id: 0, range: decl }),
        }),
        site: None,
    }))));
    s.references = Some(RangeInfo::new(
        decl,
        ReferenceSearchResult {
            declaration: reference(decl, ReferenceKind::Plain),
            references: vec![reference(usage, ReferenceKind::Plain)],
        },
    ));
    let change = rename(&s, "b").unwrap();
    assert_eq!(apply(text, &change.info), "mod b;\nfn f() { b::g() }\n");
    assert_eq!(change.info.file_system_edits.len(), 1);
    let FileSystemEdit::MoveFile { src, dst } = &change.info.file_system_edits[0];
    assert_eq!((*src, dst.anchor, dst.path.as_str()), (4, 4, "b.rs"));
    assert_eq!(prepare_rename(&s).unwrap(), decl);
    s.references = None;
    assert_eq!(rename(&s, "b").unwrap_err().message(), "No references found at position");
}

#[test]
fn prepare_rename_reports_the_range() {
    let text = "impl Foo { fn f(&mut self) -> i32 { self.i } }";
    let s = self_removal_site(text);
    assert_eq!(prepare_rename(&s).unwrap(), at(text, "&mut self", 0));
    let s = site("fn main() {}", 3);
    assert_eq!(prepare_rename(&s).unwrap_err().message(), "No references found at position");
    let mut s = site("fn main() {}", 3);
    s.references = Some(RangeInfo::new(
        TextRange::new(3, 7),
        ReferenceSearchResult {
            declaration: reference(TextRange::new(3, 7), ReferenceKind::Plain),
            references: vec![],
        },
    ));
    assert_eq!(prepare_rename(&s).unwrap(), TextRange::new(3, 7));
}

#[test]
fn names_are_lexed_on_their_own() {
    assert_eq!(classify_name("foo"), NameKind::Ident);
    assert_eq!(classify_name("r#fn"), NameKind::Ident);
    assert_eq!(classify_name("_"), NameKind::Underscore);
    assert_eq!(classify_name("_x"), NameKind::Ident);
    assert_eq!(classify_name("self"), NameKind::SelfKw);
    assert_eq!(classify_name("Self"), NameKind::Invalid);
    assert_eq!(classify_name("'a"), NameKind::Lifetime);
    assert_eq!(classify_name("'static"), NameKind::ReservedLifetime);
    assert_eq!(classify_name("'_"), NameKind::ReservedLifetime);
    assert_eq!(classify_name("let"), NameKind::Invalid);
    assert_eq!(classify_name("a b"), NameKind::Invalid);
    assert_eq!(classify_name("x!"), NameKind::Invalid);
    assert_eq!(classify_name("92"), NameKind::Invalid);
    assert_eq!(classify_name(""), NameKind::Invalid);
    assert_eq!(classify_name("über"), NameKind::Ident);
    assert!(is_keyword("while") && is_keyword("match") && !is_keyword("union"));
    assert!(same_text("abc", "abc") && !same_text("abc", "abd") && !same_text("ab", "abc"));
}

#[test]
fn error_messages() {
    let e = RenameError::new(RenameErrorKind::ParameterTypeDiffers, "self");
    assert_eq!(e.message(), "Parameter type differs from impl block type");
    let e = RenameError::new(RenameErrorKind::NotFirstParameter, "self");
    assert_eq!(e.message(), "Only the first parameter can be self");
}

#[test]
fn source_change_gathers_edits_per_file() {
    let edit = |file_id: u32, start: u32, text: &str| SourceFileEdit {
        file_id,
        edit: TextEdit::replace(TextRange::new(start, start + 1), text.to_string()),
    };
    let change = SourceChange::from_edits(
        vec![edit(2, 0, "a"), edit(1, 4, "b"), edit(2, 8, "c"), SourceFileEdit { file_id: 5, edit: TextEdit { indels: vec![] } }],
        vec![],
    );
    assert_eq!(change.source_file_edits.len(), 2);
    assert_eq!(change.source_file_edits[0].file_id, 2);
    let inserts: Vec<&str> =
        change.source_file_edits[0].edit.indels.iter().map(|i: &Indel| i.insert.as_str()).collect();
    assert_eq!(inserts, vec!["a", "c"]);
    assert_eq!(change.source_file_edits[1].file_id, 1);
    assert!(!change.is_snippet);
}

#[test]
fn text_ranges() {
    let r = TextRange::new(2, 5);
    assert!(r.contains(2) && !r.contains(5) && r.contains_inclusive(5));
    assert!(r.intersects(&TextRange::new(5, 9)));
    assert!(!r.intersects(&TextRange::new(6, 9)));
    assert_eq!(TextRange::empty(4), TextRange::new(4, 4));
}

#[test]
fn names_the_lexer_flags_report_its_reason() {
    assert_eq!(classify_name("\"a"), NameKind::LexError(LexError::UnterminatedStr));
    assert_eq!(classify_name("/*a"), NameKind::LexError(LexError::UnterminatedBlockComment));
    assert_eq!(classify_name("0x"), NameKind::LexError(LexError::MissingIntDigits));
    assert_eq!(classify_name("1e"), NameKind::LexError(LexError::MissingExponentDigits));
    assert_eq!(classify_name("r#\"a"), NameKind::LexError(LexError::RawStrUnterminated));
    assert_eq!(classify_name("// a"), NameKind::Invalid);
    let s = site("fn main() {}", 3);
    assert_eq!(
        rename(&s, "\"a").unwrap_err().message(),
        "Invalid name `\"a`: Missing trailing `\"` symbol to terminate the string literal"
    );
    assert_eq!(
        rename(&s, "b'").unwrap_err().message(),
        "Invalid name `b'`: Missing trailing `'` symbol to terminate the byte literal"
    );
}

#[test]
fn classify_lexed_on_given_tokens() {
    let ident = |len: usize| LexedToken { kind: TokenKind::Ident, len };
    assert_eq!(classify_lexed("_", ident(1)), NameKind::Underscore);
    assert_eq!(classify_lexed("self", ident(4)), NameKind::SelfKw);
    assert_eq!(classify_lexed("let", ident(3)), NameKind::Invalid);
    assert_eq!(classify_lexed("abc", ident(3)), NameKind::Ident);
    assert_eq!(classify_lexed("abc", ident(2)), NameKind::Invalid);
    assert_eq!(classify_lexed("r#fn", LexedToken { kind: TokenKind::RawIdent, len: 4 }), NameKind::Ident);
    let lifetime = LexedToken { kind: TokenKind::Lifetime { starts_with_number: false }, len: 7 };
    assert_eq!(classify_lexed("'static", lifetime), NameKind::ReservedLifetime);
    assert_eq!(classify_lexed("'abcdef", lifetime), NameKind::Lifetime);
    let raw = LexedToken {
        kind: TokenKind::Literal {
            kind: LiteralKind::RawByteStr { n_hashes: 1, err: Some(RawStrError::InvalidStarter { bad_char: 'x' }) },
            suffix_start: 4,
        },
        len: 4,
    };
    assert_eq!(classify_lexed("br#x", raw), NameKind::LexError(LexError::RawByteStrBadStarter));
    assert_eq!(
        LexError::RawByteStrBadStarter.message(),
        "Missing `\"` symbol after `#` symbols to begin the raw byte string literal"
    );
}

#[test]
fn mut_self_becomes_an_owned_parameter() {
    let text = "impl Foo { fn f(mut self) -> i32 { self.i } }";
    let s = self_removal_site_for(text, "mut self", false, true);
    let change = rename(&s, "foo").unwrap();
    assert_eq!(apply(text, &change.info), "impl Foo { fn f(foo: Foo) -> i32 { foo.i } }");
}

#[test]
fn overlapping_edits_are_refused() {
    let overlapping = Some(RangeInfo::new(
        TextRange::new(0, 4),
        ReferenceSearchResult {
            declaration: reference(TextRange::new(0, 4), ReferenceKind::Plain),
            references: vec![reference(TextRange::new(2, 6), ReferenceKind::Plain)],
        },
    ));
    let err = rename_reference(&overlapping, "x", false).unwrap_err();
    assert_eq!(err.kind, RenameErrorKind::OverlappingEdits);
    assert_eq!(err.message(), "Rename would make overlapping edits");

    // The collapse of `i: bar` widens the field's range over `bar`, which is
    // also a reference here.
    let text = "S { i: bar }";
    let mut field = reference(at(text, "i", 0), ReferenceKind::RecordFieldExprOrPat);
    field.record_expr_field = Some(RecordFieldSite {
        range: at(text, "i: bar", 0),
        value_name: Some("bar".to_string()),
    });
    assert_eq!(ide::rename::edit_text_range_for_record_field_expr_or_pat(&field, "bar"), at(text, "i: bar", 0));
    assert_eq!(ide::rename::edit_text_range_for_record_field_expr_or_pat(&field, "baz"), at(text, "i", 0));
    let refs = Some(RangeInfo::new(
        at(text, "i", 0),
        ReferenceSearchResult {
            declaration: field,
            references: vec![reference(at(text, "bar", 0), ReferenceKind::Plain)],
        },
    ));
    assert_eq!(rename_reference(&refs, "bar", false).unwrap_err().kind, RenameErrorKind::OverlappingEdits);
    assert!(rename_reference(&refs, "baz", false).is_ok());
}

#[test]
fn disjointness_is_per_file() {
    let edit = |file_id: u32, start: u32, end: u32| SourceFileEdit {
        file_id,
        edit: TextEdit::replace(TextRange::new(start, end), "x".to_string()),
    };
    assert!(edits_disjoint(&vec![edit(0, 0, 3), edit(1, 1, 2), edit(0, 3, 3), edit(0, 3, 5)]));
    assert!(!edits_disjoint(&vec![edit(0, 0, 3), edit(1, 1, 2), edit(0, 2, 2)]));
    assert!(edits_disjoint(&vec![]));
}

#[test]
fn prepare_module_rename_ignores_the_placeholder() {
    let text = "mod dummy_host;";
    let decl = at(text, "dummy_host", 0);
    let mut s = site(text, decl.start);
    s.ident_parent = Some(IdentParent::Name(Some(NameClass::Definition(Definition {
        kind: DefinitionKind::Module(ModuleFacts {
            definition_file: 1,
            has_own_file: true,
            is_mod_rs: false,
            declaration_name: None,
        }),
        site: None,
    }))));
    let mut field = reference(TextRange::new(10, 11), ReferenceKind::RecordFieldExprOrPat);
    field.record_expr_field = Some(RecordFieldSite {
        range: TextRange::new(10, 20),
        value_name: Some("dummy".to_string()),
    });
    s.references = Some(RangeInfo::new(
        decl,
        ReferenceSearchResult {
            declaration: reference(decl, ReferenceKind::Plain),
            references: vec![field, reference(TextRange::new(15, 16), ReferenceKind::Plain)],
        },
    ));
    assert!(rename(&s, "other").is_ok());
    assert_eq!(prepare_rename(&s).unwrap(), decl);
}
