//! Properties that hold across the library's operations.
use crate::defs::{nav_of, Definition, ModuleFacts, NameClass, NavigationTarget};
use crate::edit::{
    apply_planned, file_order, gathered, indel_count, indel_pairs, plan_disjoint, plan_for,
    Planned, SourceChange, SourceFileEdit,
};
use crate::goto_definition::{best_index, goto_result, LocatedToken, SymbolIndex, TokenParent};
use crate::names::{name_kind, NameKind};
use crate::rename::{
    all_refs, declaration_plan, occurrence_plan, SelfToken, failed_with, message_of, mod_rename_result, module_at,
    param_text, reference_plan, reference_rename_result, references_plan,
    rename_result, self_form, self_token_index, value_reads, InvalidNameReason, Reference,
    ReferenceKind, ReferenceSearchResult, RenameError, RenameErrorKind, RenameSite, SelfForm,
    SelfParamFacts, Ty,
};
use crate::text::{FileId, RangeInfo, TextRange};
use vstd::prelude::*;
use vstd::utf8::{encode_scalar, encode_utf8};

verus! {

/// Going to the definition from a definition's own name yields exactly one
/// target: that definition's own declaration, for the range of the token.
pub proof fn goto_on_definition_name_targets_itself(
    file: FileId,
    tokens: Seq<LocatedToken>,
    index: SymbolIndex,
    r: Option<RangeInfo<Vec<NavigationTarget>>>,
    i: int,
    def: Definition,
)
    requires
        goto_result(file, tokens, index, r),
        best_index(tokens) == Some(i),
        tokens[i].parent == TokenParent::Name(Some(NameClass::Definition(def))),
        nav_of(def) is Some,
    ensures
        r is Some,
        r->Some_0.info@ == seq![nav_of(def)->Some_0],
        r->Some_0.range == tokens[i].range,
{
}

/// The number of replacements that `plan` makes in the files of `files`.
spec fn planned_count(plan: Seq<Planned>, files: Seq<FileId>) -> nat
    decreases files.len(),
{
    if files.len() == 0 {
        0
    } else {
        planned_count(plan, files.drop_last()) + plan_for(plan, files.last()).len()
    }
}

proof fn lemma_file_order_distinct(plan: Seq<Planned>)
    ensures
        file_order(plan).no_duplicates(),
    decreases plan.len(),
{
    if plan.len() > 0 {
        lemma_file_order_distinct(plan.drop_last());
        let before = file_order(plan.drop_last());
        if !before.contains(plan.last().0) {
            assert forall|a: int, b: int|
                0 <= a < b < before.len() + 1 implies before.push(plan.last().0)[a] != before.push(
                plan.last().0,
            )[b] by {
                if b == before.len() {
                    assert(before[a] != plan.last().0);
                }
            }
        }
    }
}

proof fn lemma_absent_file_has_no_plan(plan: Seq<Planned>, f: FileId)
    requires
        !file_order(plan).contains(f),
    ensures
        plan_for(plan, f).len() == 0,
    decreases plan.len(),
{
    if plan.len() > 0 {
        let before = file_order(plan.drop_last());
        if before.contains(plan.last().0) {
            lemma_absent_file_has_no_plan(plan.drop_last(), f);
        } else {
            assert(before.push(plan.last().0)[before.len() as int] == plan.last().0);
            if before.contains(f) {
                let k = choose|k: int| 0 <= k < before.len() && before[k] == f;
                assert(before.push(plan.last().0)[k] == f);
            }
            lemma_absent_file_has_no_plan(plan.drop_last(), f);
        }
    }
}

proof fn lemma_count_grows(plan: Seq<Planned>, files: Seq<FileId>)
    requires
        plan.len() > 0,
        files.no_duplicates(),
    ensures
        planned_count(plan, files) == planned_count(plan.drop_last(), files) + if files.contains(
            plan.last().0,
        ) {
            1nat
        } else {
            0nat
        },
    decreases files.len(),
{
    if files.len() > 0 {
        let rest = files.drop_last();
        assert(rest.no_duplicates());
        lemma_count_grows(plan, rest);
        if files.last() == plan.last().0 {
            assert(!rest.contains(plan.last().0)) by {
                if rest.contains(plan.last().0) {
                    let k = choose|k: int| 0 <= k < rest.len() && rest[k] == plan.last().0;
                    assert(files[k] == files[files.len() - 1]);
                }
            }
            assert(files.contains(plan.last().0)) by {
                assert(files[files.len() - 1] == plan.last().0);
            }
        } else {
            assert(files.contains(plan.last().0) == rest.contains(plan.last().0)) by {
                if files.contains(plan.last().0) {
                    let k = choose|k: int| 0 <= k < files.len() && files[k] == plan.last().0;
                    assert(k < rest.len());
                    assert(rest[k] == files[k]);
                }
                if rest.contains(plan.last().0) {
                    let k = choose|k: int| 0 <= k < rest.len() && rest[k] == plan.last().0;
                    assert(files[k] == rest[k]);
                }
            }
        }
    }
}

proof fn lemma_count_is_length(plan: Seq<Planned>)
    ensures
        planned_count(plan, file_order(plan)) == plan.len(),
    decreases plan.len(),
{
    if plan.len() > 0 {
        let p = plan.drop_last();
        let f = plan.last().0;
        lemma_count_is_length(p);
        lemma_file_order_distinct(plan);
        lemma_file_order_distinct(p);
        lemma_count_grows(plan, file_order(plan));
        let before = file_order(p);
        if before.contains(f) {
            lemma_count_grows(plan, before);
        } else {
            let fo = before.push(f);
            assert(fo.drop_last() =~= before);
            lemma_count_grows(plan, before);
            lemma_absent_file_has_no_plan(p, f);
            assert(fo.contains(f)) by {
                assert(fo[before.len() as int] == f);
            }
        }
    }
}

proof fn lemma_gathered_count(plan: Seq<Planned>, r: Seq<SourceFileEdit>, k: int)
    requires
        gathered(plan, r),
        0 <= k <= r.len(),
    ensures
        indel_count(r.subrange(0, k)) == planned_count(plan, file_order(plan).subrange(0, k)),
    decreases k,
{
    if k > 0 {
        lemma_gathered_count(plan, r, k - 1);
        assert(r.subrange(0, k).drop_last() =~= r.subrange(0, k - 1));
        assert(file_order(plan).subrange(0, k).drop_last() =~= file_order(plan).subrange(0, k - 1));
        assert(indel_pairs(r[k - 1].edit.indels@).len() == r[k - 1].edit.indels@.len());
    }
}

/// A generic rename makes exactly one replacement per reference found, the
/// declaration included, over all the files it touches.
pub proof fn rename_keeps_reference_count(
    refs: Option<RangeInfo<ReferenceSearchResult>>,
    name: Seq<char>,
    r: Result<RangeInfo<SourceChange>, RenameError>,
)
    requires
        reference_rename_result(refs, name, false, r),
        r is Ok,
    ensures
        refs is Some,
        indel_count(r->Ok_0.info.source_file_edits@) == all_refs(refs->Some_0.info).len(),
{
    let plan = references_plan(all_refs(refs->Some_0.info), name);
    let edits = r->Ok_0.info.source_file_edits@;
    lemma_gathered_count(plan, edits, edits.len() as int);
    assert(edits.subrange(0, edits.len() as int) =~= edits);
    assert(file_order(plan).subrange(0, edits.len() as int) =~= file_order(plan));
    lemma_count_is_length(plan);
}

/// Renaming to a lifetime fails with "not a lifetime identifier" where the
/// declaration found is not a lifetime.
pub proof fn lifetime_name_needs_lifetime_declaration(
    site: RenameSite,
    name: Seq<char>,
    r: Result<RangeInfo<SourceChange>, RenameError>,
)
    requires
        rename_result(site, name, r),
        name_kind(name) == NameKind::Lifetime,
        site.references is Some,
        site.references->Some_0.info.declaration.kind != ReferenceKind::Lifetime,
    ensures
        failed_with(
            r,
            RenameErrorKind::InvalidName(InvalidNameReason::NotALifetimeIdentifier),
            name,
        ),
        message_of(r->Err_0.kind, r->Err_0.name@) == "Invalid name `"@ + name
            + "`: not a lifetime identifier"@,
{
}

/// Renaming a lifetime declaration to an identifier fails with "not an
/// identifier".
pub proof fn identifier_name_needs_non_lifetime_declaration(
    site: RenameSite,
    name: Seq<char>,
    r: Result<RangeInfo<SourceChange>, RenameError>,
)
    requires
        rename_result(site, name, r),
        name_kind(name) == NameKind::Ident || name_kind(name) == NameKind::Underscore,
        module_at(site.ident_parent) is None,
        self_token_index(site.self_tokens@, site.position.offset) is None,
        site.references is Some,
        site.references->Some_0.info.declaration.kind == ReferenceKind::Lifetime,
    ensures
        failed_with(r, RenameErrorKind::InvalidName(InvalidNameReason::NotAnIdentifier), name),
        message_of(r->Err_0.kind, r->Err_0.name@) == "Invalid name `"@ + name
            + "`: not an identifier"@,
{
}

/// The `self` parameter written for `form`: `self`, `&self` or `&mut self`.
pub open spec fn written_self_param(form: SelfForm, range: TextRange) -> SelfParamFacts {
    SelfParamFacts {
        range,
        has_amp: form != SelfForm::Owned,
        has_mut: form == SelfForm::Mutable,
        impl_type_name: None,
    }
}

/// The reference written in front of the base type of `t`.
pub open spec fn reference_prefix(t: Ty) -> Seq<char> {
    if t.refs@.len() == 0 {
        Seq::empty()
    } else if t.refs@[0] {
        "&mut "@
    } else {
        "&"@
    }
}

/// Turning a first parameter of type `param` into `self` in an impl block for
/// a plain type, then that `self` back into a parameter named `name`, writes
/// the parameter with the reference and mutability it had.
pub proof fn self_round_trip_keeps_parameter(
    param: Ty,
    target: Ty,
    name: Seq<char>,
    target_name: Seq<char>,
    range: TextRange,
)
    requires
        target.refs@.len() == 0,
        self_form(param, target) is Some,
    ensures
        param_text(name, written_self_param(self_form(param, target)->Some_0, range), target_name)
            == name + ": "@ + reference_prefix(param) + target_name,
{
    if param.refs@.len() > 0 {
        assert(param.refs@.subrange(1, param.refs@.len() as int).len() == 0);
    }
}

/// A usage of a parameter that turned into `self` reads the parameter's name
/// again once that `self` turns back into a parameter of the same name: the
/// introduction writes `self` over the usage, and the removal writes the name
/// over the `self` token that now stands there.
pub proof fn self_round_trip_restores_usage(
    pre: Seq<u8>,
    name: Seq<char>,
    post: Seq<u8>,
    file: FileId,
    usage: Reference,
    tokens: Seq<SelfToken>,
    k: int,
)
    requires
        usage.kind == ReferenceKind::Plain,
        usage.file_range.file_id == file,
        usage.file_range.range.start as int == pre.len(),
        usage.file_range.range.end as int == pre.len() + encode_utf8(name).len(),
        self_token_index(tokens, pre.len() as u32) == Some(k),
        tokens[k].param is None,
        tokens[k].range.start as int == pre.len(),
        tokens[k].range.end as int == pre.len() + encode_utf8("self"@).len(),
    ensures
        reference_plan(usage, "self"@).0 == file,
        apply_planned(pre + encode_utf8(name) + post, reference_plan(usage, "self"@)) == pre
            + encode_utf8("self"@) + post,
        occurrence_plan(tokens, file, name, pre.len() as int) is Ok,
        occurrence_plan(tokens, file, name, pre.len() as int)->Ok_0 is Some,
        apply_planned(
            pre + encode_utf8("self"@) + post,
            occurrence_plan(tokens, file, name, pre.len() as int)->Ok_0->Some_0,
        ) == pre + encode_utf8(name) + post,
{
    let before = pre + encode_utf8(name) + post;
    assert(before.subrange(0, pre.len() as int) =~= pre);
    assert(before.subrange((pre.len() + encode_utf8(name).len()) as int, before.len() as int)
        =~= post);
    let after = pre + encode_utf8("self"@) + post;
    assert(after.subrange(0, pre.len() as int) =~= pre);
    assert(after.subrange((pre.len() + encode_utf8("self"@).len()) as int, after.len() as int)
        =~= post);
}

proof fn lemma_encode_concat(a: Seq<char>, b: Seq<char>)
    ensures
        encode_utf8(a + b) == encode_utf8(a) + encode_utf8(b),
    decreases a.len(),
{
    if a.len() == 0 {
        assert(a + b =~= b);
        assert(encode_utf8(a) + encode_utf8(b) =~= encode_utf8(b));
    } else {
        lemma_encode_concat(a.drop_first(), b);
        assert((a + b).drop_first() =~= a.drop_first() + b);
        assert((a + b)[0] == a[0]);
        assert(encode_scalar(a[0] as u32) + (encode_utf8(a.drop_first()) + encode_utf8(b)) =~= (
        encode_scalar(a[0] as u32) + encode_utf8(a.drop_first())) + encode_utf8(b));
    }
}

/// Renaming a field to the name its value already reads collapses the
/// explicit `field: value` to the shorthand `value`; renaming the field back
/// from the shorthand expands it to `field: value` again.
pub proof fn field_shorthand_round_trip(
    pre: Seq<u8>,
    field: Seq<char>,
    value: Seq<char>,
    post: Seq<u8>,
    explicit: Reference,
    shorthand: Reference,
)
    requires
        explicit.kind == ReferenceKind::RecordFieldExprOrPat,
        explicit.file_range.range.start as int == pre.len(),
        value_reads(explicit.record_expr_field, value),
        explicit.record_expr_field->Some_0.range.start as int == pre.len(),
        explicit.record_expr_field->Some_0.range.end as int == pre.len() + encode_utf8(
            field + ": "@ + value,
        ).len(),
        shorthand.kind == ReferenceKind::FieldShorthandForField,
        shorthand.file_range.range.start as int == pre.len(),
    ensures
        apply_planned(
            pre + encode_utf8(field + ": "@ + value) + post,
            reference_plan(explicit, value),
        ) == pre + encode_utf8(value) + post,
        apply_planned(pre + encode_utf8(value) + post, reference_plan(shorthand, field)) == pre
            + encode_utf8(field + ": "@ + value) + post,
{
    let whole = encode_utf8(field + ": "@ + value);
    let text = pre + whole + post;
    assert(text.subrange(0, pre.len() as int) =~= pre);
    assert(text.subrange((pre.len() + whole.len()) as int, text.len() as int) =~= post);
    let short = pre + encode_utf8(value) + post;
    assert(short.subrange(0, pre.len() as int) =~= pre);
    assert(short.subrange(pre.len() as int, short.len() as int) =~= encode_utf8(value) + post);
    lemma_encode_concat(field + ": "@, value);
    assert(pre + encode_utf8(field + ": "@) + (encode_utf8(value) + post) =~= pre + (encode_utf8(
        field + ": "@,
    ) + encode_utf8(value)) + post);
}

/// Renaming a module that has a file of its own moves exactly that file, to
/// `<name>.rs` beside it or to `../<name>/mod.rs` for a `mod.rs`, and edits
/// the declaring `mod` item and every usage.
pub proof fn module_rename_moves_its_file(
    module: ModuleFacts,
    refs: Option<RangeInfo<ReferenceSearchResult>>,
    name: Seq<char>,
    r: Result<RangeInfo<SourceChange>, RenameError>,
)
    requires
        mod_rename_result(module, refs, name, r),
        refs is Some,
        module.has_own_file,
        plan_disjoint(
            declaration_plan(module, name) + references_plan(refs->Some_0.info.references@, name),
        ),
    ensures
        r is Ok,
        r->Ok_0.info.file_system_edits@.len() == 1,
        r->Ok_0.info.file_system_edits@[0]->MoveFile_src == module.definition_file,
        r->Ok_0.info.file_system_edits@[0]->MoveFile_dst.path@ == if module.is_mod_rs {
            "../"@ + name + "/mod.rs"@
        } else {
            name + ".rs"@
        },
        gathered(
            declaration_plan(module, name) + references_plan(refs->Some_0.info.references@, name),
            r->Ok_0.info.source_file_edits@,
        ),
{
}

} // verus!
