//! Rename: validates a proposed name, picks one of four strategies and
//! synthesizes the edits of each reference.
use crate::edit::{
    change_disjoint, edits_disjoint, plan_disjoint,    AnchoredPathBuf,    gathered, plan_of, planned_indels, FileSystemEdit, Planned, SourceChange, SourceFileEdit, TextEdit,
};
use crate::defs::{DefinitionKind, ModuleFacts, NameClass, NameRefClass};
use crate::names::{classify_name, lex_error_text, name_kind, LexError, NameKind};
use crate::names::same_text;
use crate::text::{FileId, FilePosition, FileRange, RangeInfo, TextRange};
use vstd::prelude::*;
use vstd::utf8::encode_utf8;

verus! {

/// Why a proposed name was refused.
#[derive(Clone, Copy, Debug, PartialEq, Eq, Structural)]
pub enum InvalidNameReason {
    /// One token that the lexer flags: its reason is shown.
    Lexed(LexError),
    NotAnIdentifier,
    NotALifetimeIdentifier,
    ReservedLifetime,
}

/// What went wrong with a rename.
#[derive(Clone, Copy, Debug, PartialEq, Eq, Structural)]
pub enum RenameErrorKind {
    InvalidName(InvalidNameReason),
    NoReferences,
    NoReferenceToParameter,
    NoSurroundingMethod,
    NoParameters,
    NotFirstParameter,
    NoImplBlock,
    AlreadyHasSelf,
    ParameterTypeDiffers,
    ParameterNotFound,
    NoTargetType,
    /// Two replacements in one file would overlap.
    OverlappingEdits,
}

/// A failed rename: what went wrong, and the name that was asked for.
#[derive(Debug)]
pub struct RenameError {
    pub kind: RenameErrorKind,
    pub name: String,
}

/// The message shown for an error of `kind` when renaming to `name`.
pub open spec fn message_of(kind: RenameErrorKind, name: Seq<char>) -> Seq<char> {
    match kind {
        RenameErrorKind::InvalidName(reason) => "Invalid name `"@ + name + match reason {
            InvalidNameReason::Lexed(e) => "`: "@ + lex_error_text(e),
            InvalidNameReason::NotAnIdentifier => "`: not an identifier"@,
            InvalidNameReason::NotALifetimeIdentifier => "`: not a lifetime identifier"@,
            InvalidNameReason::ReservedLifetime => "`: Cannot rename lifetime to "@ + name,
        },
        RenameErrorKind::NoReferences => "No references found at position"@,
        RenameErrorKind::NoReferenceToParameter => "No reference found at position"@,
        RenameErrorKind::NoSurroundingMethod => "No surrounding method declaration found"@,
        RenameErrorKind::NoParameters => "Method has no parameters"@,
        RenameErrorKind::NotFirstParameter => "Only the first parameter can be self"@,
        RenameErrorKind::NoImplBlock => "No impl block found for function"@,
        RenameErrorKind::AlreadyHasSelf => "Method already has a self parameter"@,
        RenameErrorKind::ParameterTypeDiffers => "Parameter type differs from impl block type"@,
        RenameErrorKind::ParameterNotFound => "Parameter to rename not found"@,
        RenameErrorKind::NoTargetType => "No target type found"@,
        RenameErrorKind::OverlappingEdits => "Rename would make overlapping edits"@,
    }
}

impl RenameError {
    pub fn new(kind: RenameErrorKind, name: &str) -> (r: RenameError)
        ensures
            r.kind == kind && r.name@ == name@,
    {
        RenameError { kind, name: String::from_str(name) }
    }

    /// The message that the error renders as.
    pub fn message(&self) -> (r: String)
        ensures
            r@ == message_of(self.kind, self.name@),
    {
        match self.kind {
            RenameErrorKind::InvalidName(reason) => {
                let mut m = String::from_str("Invalid name `");
                m.append(self.name.as_str());
                match reason {
                    InvalidNameReason::Lexed(e) => {
                        m.append("`: ");
                        m.append(e.message());
                    },
                    InvalidNameReason::NotAnIdentifier => m.append("`: not an identifier"),
                    InvalidNameReason::NotALifetimeIdentifier => m.append(
                        "`: not a lifetime identifier",
                    ),
                    InvalidNameReason::ReservedLifetime => {
                        m.append("`: Cannot rename lifetime to ");
                        m.append(self.name.as_str());
                    },
                }
                m
            },
            RenameErrorKind::NoReferences => String::from_str("No references found at position"),
            RenameErrorKind::NoReferenceToParameter => String::from_str(
                "No reference found at position",
            ),
            RenameErrorKind::NoSurroundingMethod => String::from_str(
                "No surrounding method declaration found",
            ),
            RenameErrorKind::NoParameters => String::from_str("Method has no parameters"),
            RenameErrorKind::NotFirstParameter => String::from_str(
                "Only the first parameter can be self",
            ),
            RenameErrorKind::NoImplBlock => String::from_str("No impl block found for function"),
            RenameErrorKind::AlreadyHasSelf => String::from_str(
                "Method already has a self parameter",
            ),
            RenameErrorKind::ParameterTypeDiffers => String::from_str(
                "Parameter type differs from impl block type",
            ),
            RenameErrorKind::ParameterNotFound => String::from_str("Parameter to rename not found"),
            RenameErrorKind::NoTargetType => String::from_str("No target type found"),
            RenameErrorKind::OverlappingEdits => String::from_str(
                "Rename would make overlapping edits",
            ),
        }
    }
}

/// The syntactic shape of a reference, which decides how it is rewritten.
#[derive(Clone, Copy, Debug, PartialEq, Eq, Structural)]
pub enum ReferenceKind {
    Plain,
    Lifetime,
    /// The field of a shorthand `S { x }`, reached through the field.
    FieldShorthandForField,
    /// The field of a shorthand `S { x }`, reached through the local `x`.
    FieldShorthandForLocal,
    /// The field name of an explicit `S { x: y }` expression or pattern.
    RecordFieldExprOrPat,
}

/// A record field of the syntax tree around a reference: an expression field
/// `x: y` or a pattern field `x: y`.
#[derive(Debug)]
pub struct RecordFieldSite {
    /// The whole field, `x: y`.
    pub range: TextRange,
    /// The name that the value side reads, where it is a single name.
    pub value_name: Option<String>,
}

/// One occurrence of a definition.
#[derive(Debug)]
pub struct Reference {
    pub file_range: FileRange,
    pub kind: ReferenceKind,
    /// The smallest record-expression field around the occurrence, if any.
    pub record_expr_field: Option<RecordFieldSite>,
    /// The smallest record-pattern field around the occurrence, if any.
    pub record_pat_field: Option<RecordFieldSite>,
}

/// What a reference search finds for one definition.
#[derive(Debug)]
pub struct ReferenceSearchResult {
    pub declaration: Reference,
    pub references: Vec<Reference>,
}

/// The declaration first, then the usages.
pub open spec fn all_refs(res: ReferenceSearchResult) -> Seq<Reference> {
    seq![res.declaration] + res.references@
}

/// The field `f` reads `name` on its value side.
pub open spec fn value_reads(f: Option<RecordFieldSite>, name: Seq<char>) -> bool {
    match f {
        Some(site) => match site.value_name {
            Some(n) => n@ == name,
            None => false,
        },
        None => false,
    }
}

/// The range rewritten for an explicit record field: the whole field where
/// its value side already reads the new name (so `x: y` collapses to `y`),
/// else the field name alone.
pub open spec fn record_field_range(r: Reference, name: Seq<char>) -> TextRange {
    if value_reads(r.record_expr_field, name) {
        r.record_expr_field->Some_0.range
    } else if value_reads(r.record_pat_field, name) {
        r.record_pat_field->Some_0.range
    } else {
        r.file_range.range
    }
}

/// The replacement that renaming to `name` makes at reference `r`.
pub open spec fn reference_plan(r: Reference, name: Seq<char>) -> Planned {
    match r.kind {
        ReferenceKind::FieldShorthandForField => (
            r.file_range.file_id,
            TextRange { start: r.file_range.range.start, end: r.file_range.range.start },
            name + ": "@,
        ),
        ReferenceKind::FieldShorthandForLocal => (
            r.file_range.file_id,
            TextRange { start: r.file_range.range.end, end: r.file_range.range.end },
            ": "@ + name,
        ),
        ReferenceKind::RecordFieldExprOrPat => (
            r.file_range.file_id,
            record_field_range(r, name),
            name,
        ),
        _ => (r.file_range.file_id, r.file_range.range, name),
    }
}

pub open spec fn references_plan(refs: Seq<Reference>, name: Seq<char>) -> Seq<Planned> {
    refs.map_values(|r: Reference| reference_plan(r, name))
}

fn value_reads_name(f: &Option<RecordFieldSite>, name: &str) -> (r: bool)
    ensures
        r == value_reads(*f, name@),
{
    match f {
        Some(site) => match &site.value_name {
            Some(n) => same_text(n.as_str(), name),
            None => false,
        },
        None => false,
    }
}

/// The range that renaming the explicit record field `reference` to
/// `new_name` rewrites.
pub fn edit_text_range_for_record_field_expr_or_pat(reference: &Reference, new_name: &str) -> (r:
    TextRange)
    ensures
        r == record_field_range(*reference, new_name@),
{
    if value_reads_name(&reference.record_expr_field, new_name) {
        match &reference.record_expr_field {
            Some(site) => site.range,
            None => reference.file_range.range,
        }
    } else if value_reads_name(&reference.record_pat_field, new_name) {
        match &reference.record_pat_field {
            Some(site) => site.range,
            None => reference.file_range.range,
        }
    } else {
        reference.file_range.range
    }
}

/// One replacement in one file.
fn single_edit(file_id: FileId, range: TextRange, text: String) -> (r: SourceFileEdit)
    ensures
        plan_of(seq![r]) == seq![(file_id, range, text@)],
{
    let r = SourceFileEdit { file_id, edit: TextEdit::replace(range, text) };
    proof {
        lemma_plan_single(r);
        assert(planned_indels(file_id, r.edit.indels@) =~= seq![(file_id, range, text@)]);
    }
    r
}

/// The edit that renames `reference` to `new_name`.
pub fn source_edit_from_reference(reference: &Reference, new_name: &str) -> (r: SourceFileEdit)
    ensures
        plan_of(seq![r]) == seq![reference_plan(*reference, new_name@)],
{
    let file_id = reference.file_range.file_id;
    let range = reference.file_range.range;
    match reference.kind {
        ReferenceKind::FieldShorthandForField => {
            let mut text = String::from_str(new_name);
            text.append(": ");
            single_edit(file_id, TextRange::empty(range.start), text)
        },
        ReferenceKind::FieldShorthandForLocal => {
            let mut text = String::from_str(": ");
            text.append(new_name);
            single_edit(file_id, TextRange::empty(range.end), text)
        },
        ReferenceKind::RecordFieldExprOrPat => {
            let target = edit_text_range_for_record_field_expr_or_pat(reference, new_name);
            single_edit(file_id, target, String::from_str(new_name))
        },
        _ => single_edit(file_id, range, String::from_str(new_name)),
    }
}

proof fn lemma_plan_single(e: SourceFileEdit)
    ensures
        plan_of(seq![e]) == planned_indels(e.file_id, e.edit.indels@),
{
    assert(seq![e].drop_last() =~= Seq::<SourceFileEdit>::empty());
    assert(seq![e].last() == e);
    assert(plan_of(Seq::<SourceFileEdit>::empty()) == Seq::<Planned>::empty());
    assert(Seq::<Planned>::empty() + planned_indels(e.file_id, e.edit.indels@) =~= planned_indels(
        e.file_id,
        e.edit.indels@,
    ));
}

proof fn lemma_plan_push(edits: Seq<SourceFileEdit>, e: SourceFileEdit)
    ensures
        plan_of(edits.push(e)) == plan_of(edits) + plan_of(seq![e]),
{
    assert(edits.push(e).drop_last() =~= edits);
    assert(edits.push(e).last() == e);
    lemma_plan_single(e);
}

/// Appends the edit of `reference` to `edits`.
fn push_reference_edit(edits: &mut Vec<SourceFileEdit>, reference: &Reference, new_name: &str)
    ensures
        plan_of(final(edits)@) == plan_of(old(edits)@).push(reference_plan(*reference, new_name@)),
{
    let e = source_edit_from_reference(reference, new_name);
    proof {
        lemma_plan_push(edits@, e);
    }
    edits.push(e);
}

/// Appends the edits of every reference in `refs` to `edits`.
fn push_reference_edits(edits: &mut Vec<SourceFileEdit>, refs: &Vec<Reference>, new_name: &str)
    ensures
        plan_of(final(edits)@) == plan_of(old(edits)@) + references_plan(refs@, new_name@),
{
    let ghost start = plan_of(edits@);
    let mut i: usize = 0;
    while i < refs.len()
        invariant
            i <= refs.len(),
            plan_of(edits@) == start + references_plan(refs@.subrange(0, i as int), new_name@),
        decreases refs.len() - i,
    {
        push_reference_edit(edits, &refs[i], new_name);
        assert(references_plan(refs@.subrange(0, i + 1), new_name@) =~= references_plan(
            refs@.subrange(0, i as int),
            new_name@,
        ).push(reference_plan(refs@[i as int], new_name@)));
        i = i + 1;
    }
    assert(refs@.subrange(0, refs.len() as int) == refs@);
}

/// `r` makes the text edits of `plan`, gathered per file, for `range`; in
/// each file they are pairwise separate.
pub open spec fn edits_are(r: RangeInfo<SourceChange>, range: TextRange, plan: Seq<Planned>) -> bool {
    &&& r.range == range
    &&& gathered(plan, r.info.source_file_edits@)
    &&& change_disjoint(r.info.source_file_edits@)
    &&& !r.info.is_snippet
}

/// `r` makes the text edits of `plan` and moves no file.
pub open spec fn change_is(r: RangeInfo<SourceChange>, range: TextRange, plan: Seq<Planned>) -> bool {
    &&& edits_are(r, range, plan)
    &&& r.info.file_system_edits@.len() == 0
}

/// A rename that has its edits: the change where they do not overlap, else
/// the overlap error.
pub open spec fn outcome_is(
    r: Result<RangeInfo<SourceChange>, RenameError>,
    range: TextRange,
    plan: Seq<Planned>,
    name: Seq<char>,
) -> bool {
    if plan_disjoint(plan) {
        r is Ok && change_is(r->Ok_0, range, plan)
    } else {
        failed_with(r, RenameErrorKind::OverlappingEdits, name)
    }
}

/// Bundles `edits` and `moves` for `range`, unless two edits in one file
/// overlap.
fn finish(
    range: TextRange,
    edits: Vec<SourceFileEdit>,
    moves: Vec<FileSystemEdit>,
    new_name: &str,
) -> (r: Result<RangeInfo<SourceChange>, RenameError>)
    ensures
        plan_disjoint(plan_of(edits@)) ==> r is Ok && edits_are(r->Ok_0, range, plan_of(edits@))
            && r->Ok_0.info.file_system_edits@ == moves@,
        !plan_disjoint(plan_of(edits@)) ==> failed_with(
            r,
            RenameErrorKind::OverlappingEdits,
            new_name@,
        ),
{
    if !edits_disjoint(&edits) {
        return Err(RenameError::new(RenameErrorKind::OverlappingEdits, new_name));
    }
    Ok(RangeInfo::new(range, SourceChange::from_edits(edits, moves)))
}

/// `r` failed with `kind` while renaming to `name`.
pub open spec fn failed_with(
    r: Result<RangeInfo<SourceChange>, RenameError>,
    kind: RenameErrorKind,
    name: Seq<char>,
) -> bool {
    r is Err && r->Err_0.kind == kind && r->Err_0.name@ == name
}

/// The error of a generic rename, if any: no references, or a lifetime and a
/// non-lifetime on the two sides.
pub open spec fn reference_rename_error(
    refs: Option<RangeInfo<ReferenceSearchResult>>,
    is_lifetime_name: bool,
) -> Option<RenameErrorKind> {
    match refs {
        None => Some(RenameErrorKind::NoReferences),
        Some(found) => {
            let declares_lifetime = found.info.declaration.kind == ReferenceKind::Lifetime;
            if declares_lifetime && !is_lifetime_name {
                Some(RenameErrorKind::InvalidName(InvalidNameReason::NotAnIdentifier))
            } else if !declares_lifetime && is_lifetime_name {
                Some(RenameErrorKind::InvalidName(InvalidNameReason::NotALifetimeIdentifier))
            } else {
                None
            }
        },
    }
}

/// The outcome of a generic rename: every reference found, the declaration
/// first, is rewritten to `name`.
pub open spec fn reference_rename_result(
    refs: Option<RangeInfo<ReferenceSearchResult>>,
    name: Seq<char>,
    is_lifetime_name: bool,
    r: Result<RangeInfo<SourceChange>, RenameError>,
) -> bool {
    match reference_rename_error(refs, is_lifetime_name) {
        Some(kind) => failed_with(r, kind, name),
        None => outcome_is(
            r,
            refs->Some_0.range,
            references_plan(all_refs(refs->Some_0.info), name),
            name,
        ),
    }
}

/// Generic rename: every reference found, the declaration first, is rewritten.
pub fn rename_reference(
    refs: &Option<RangeInfo<ReferenceSearchResult>>,
    new_name: &str,
    is_lifetime_name: bool,
) -> (r: Result<RangeInfo<SourceChange>, RenameError>)
    ensures
        reference_rename_result(*refs, new_name@, is_lifetime_name, r),
{
    let found = match refs {
        Some(found) => found,
        None => return Err(RenameError::new(RenameErrorKind::NoReferences, new_name)),
    };
    let declares_lifetime = found.info.declaration.kind == ReferenceKind::Lifetime;
    if declares_lifetime && !is_lifetime_name {
        return Err(
            RenameError::new(
                RenameErrorKind::InvalidName(InvalidNameReason::NotAnIdentifier),
                new_name,
            ),
        );
    }
    if !declares_lifetime && is_lifetime_name {
        return Err(
            RenameError::new(
                RenameErrorKind::InvalidName(InvalidNameReason::NotALifetimeIdentifier),
                new_name,
            ),
        );
    }
    let mut edits: Vec<SourceFileEdit> = Vec::new();
    assert(plan_of(edits@) == Seq::<Planned>::empty());
    push_reference_edit(&mut edits, &found.info.declaration, new_name);
    push_reference_edits(&mut edits, &found.info.references, new_name);
    assert(plan_of(edits@) =~= references_plan(all_refs(found.info), new_name@));
    finish(found.range, edits, Vec::new(), new_name)
}

/// Where the file of a module renamed to `name` moves, relative to its
/// current file.
pub open spec fn moved_module_file(name: Seq<char>, is_mod_rs: bool) -> Seq<char> {
    if is_mod_rs {
        "../"@ + name + "/mod.rs"@
    } else {
        name + ".rs"@
    }
}

/// `moves` is the file move that renaming module `m` to `name` needs: one move
/// of its own file, or none for an inline module.
pub open spec fn module_moves(moves: Seq<FileSystemEdit>, m: ModuleFacts, name: Seq<char>) -> bool {
    if m.has_own_file {
        &&& moves.len() == 1
        &&& moves[0]->MoveFile_src == m.definition_file
        &&& moves[0]->MoveFile_dst.anchor == m.definition_file
        &&& moves[0]->MoveFile_dst.path@ == moved_module_file(name, m.is_mod_rs)
    } else {
        moves.len() == 0
    }
}

/// The edit of the declaring `mod` item, if there is one.
pub open spec fn declaration_plan(m: ModuleFacts, name: Seq<char>) -> Seq<Planned> {
    match m.declaration_name {
        Some(fr) => seq![(fr.file_id, fr.range, name)],
        None => Seq::empty(),
    }
}

fn module_move(module: &ModuleFacts, new_name: &str) -> (r: FileSystemEdit)
    ensures
        r->MoveFile_src == module.definition_file,
        r->MoveFile_dst.anchor == module.definition_file,
        r->MoveFile_dst.path@ == moved_module_file(new_name@, module.is_mod_rs),
{
    let path = if module.is_mod_rs {
        let mut p = String::from_str("../");
        p.append(new_name);
        p.append("/mod.rs");
        p
    } else {
        let mut p = String::from_str(new_name);
        p.append(".rs");
        p
    };
    let file = module.definition_file;
    FileSystemEdit::MoveFile { src: file, dst: AnchoredPathBuf { anchor: file, path } }
}

/// The outcome of a module rename: the module's own file moves, the
/// declaring `mod` item is renamed, then every usage.
pub open spec fn mod_rename_result(
    module: ModuleFacts,
    refs: Option<RangeInfo<ReferenceSearchResult>>,
    name: Seq<char>,
    r: Result<RangeInfo<SourceChange>, RenameError>,
) -> bool {
    match refs {
        None => failed_with(r, RenameErrorKind::NoReferences, name),
        Some(found) => {
            let plan = declaration_plan(module, name) + references_plan(
                found.info.references@,
                name,
            );
            if plan_disjoint(plan) {
                r is Ok && edits_are(r->Ok_0, found.range, plan) && module_moves(
                    r->Ok_0.info.file_system_edits@,
                    module,
                    name,
                )
            } else {
                failed_with(r, RenameErrorKind::OverlappingEdits, name)
            }
        },
    }
}

/// Module rename: moves the module's own file, renames the declaring `mod`
/// item, then rewrites every usage.
pub fn rename_mod(
    module: &ModuleFacts,
    refs: &Option<RangeInfo<ReferenceSearchResult>>,
    new_name: &str,
) -> (r: Result<RangeInfo<SourceChange>, RenameError>)
    ensures
        mod_rename_result(*module, *refs, new_name@, r),
{
    let mut file_system_edits: Vec<FileSystemEdit> = Vec::new();
    if module.has_own_file {
        file_system_edits.push(module_move(module, new_name));
    }
    let mut edits: Vec<SourceFileEdit> = Vec::new();
    assert(plan_of(edits@) == Seq::<Planned>::empty());
    match module.declaration_name {
        Some(fr) => {
            let e = single_edit(fr.file_id, fr.range, String::from_str(new_name));
            proof {
                lemma_plan_push(edits@, e);
            }
            edits.push(e);
        },
        None => {},
    }
    assert(plan_of(edits@) =~= declaration_plan(*module, new_name@));
    let found = match refs {
        Some(found) => found,
        None => return Err(RenameError::new(RenameErrorKind::NoReferences, new_name)),
    };
    push_reference_edits(&mut edits, &found.info.references, new_name);
    finish(found.range, edits, file_system_edits, new_name)
}

/// A type as the semantic model resolves it: an interned base type and the
/// reference layers around it, outermost first (`true` for `&mut`).
#[derive(Debug)]
pub struct Ty {
    pub base: u64,
    pub refs: Vec<bool>,
}

/// The form of a `self` parameter.
#[derive(Clone, Copy, Debug, PartialEq, Eq, Structural)]
pub enum SelfForm {
    /// `self`
    Owned,
    /// `&self`
    Shared,
    /// `&mut self`
    Mutable,
}

pub open spec fn self_form_text(f: SelfForm) -> Seq<char> {
    match f {
        SelfForm::Owned => "self"@,
        SelfForm::Shared => "&self"@,
        SelfForm::Mutable => "&mut self"@,
    }
}

/// The `self` form that replaces a first parameter of type `param` in an impl
/// block for `target`; `None` where the types differ. Where the target is a
/// reference itself, the parameter must be exactly the target and becomes
/// `self`; otherwise one reference comes off the parameter and decides between
/// `&self` and `&mut self`.
pub open spec fn self_form(param: Ty, target: Ty) -> Option<SelfForm> {
    if target.refs@.len() > 0 {
        if param.base == target.base && param.refs@ == target.refs@ {
            Some(SelfForm::Owned)
        } else {
            None
        }
    } else if param.refs@.len() > 0 {
        if param.base == target.base && param.refs@.subrange(1, param.refs@.len() as int)
            == target.refs@ {
            if param.refs@[0] {
                Some(SelfForm::Mutable)
            } else {
                Some(SelfForm::Shared)
            }
        } else {
            None
        }
    } else if param.base == target.base && param.refs@ == target.refs@ {
        Some(SelfForm::Owned)
    } else {
        None
    }
}

fn layers_equal_from(a: &Vec<bool>, skip: usize, b: &Vec<bool>) -> (r: bool)
    requires
        skip <= a@.len(),
    ensures
        r == (a@.subrange(skip as int, a@.len() as int) == b@),
{
    if a.len() - skip != b.len() {
        assert(a@.subrange(skip as int, a@.len() as int).len() != b@.len());
        return false;
    }
    let n = a.len();
    let mut i: usize = 0;
    while i < b.len()
        invariant
            n == a@.len(),
            skip <= a@.len(),
            a@.len() - skip == b@.len(),
            i <= b@.len(),
            forall|j: int| 0 <= j < i ==> a@[skip + j] == b@[j],
        decreases b.len() - i,
    {
        if a[skip + i] != b[i] {
            assert(a@.subrange(skip as int, a@.len() as int)[i as int] != b@[i as int]);
            return false;
        }
        i = i + 1;
    }
    assert(a@.subrange(skip as int, a@.len() as int) =~= b@);
    true
}

/// Decides the `self` form for a first parameter of type `param` in an impl
/// block for `target`.
pub fn self_form_for(param: &Ty, target: &Ty) -> (r: Option<SelfForm>)
    ensures
        r == self_form(*param, *target),
{
    if target.refs.len() > 0 {
        if param.base == target.base && layers_equal_from(&param.refs, 0, &target.refs) {
            assert(param.refs@.subrange(0, param.refs@.len() as int) == param.refs@);
            Some(SelfForm::Owned)
        } else {
            assert(param.refs@.subrange(0, param.refs@.len() as int) == param.refs@);
            None
        }
    } else if param.refs.len() > 0 {
        if param.base == target.base && layers_equal_from(&param.refs, 1, &target.refs) {
            if param.refs[0] {
                Some(SelfForm::Mutable)
            } else {
                Some(SelfForm::Shared)
            }
        } else {
            None
        }
    } else if param.base == target.base && layers_equal_from(&param.refs, 0, &target.refs) {
        assert(param.refs@.subrange(0, param.refs@.len() as int) == param.refs@);
        Some(SelfForm::Owned)
    } else {
        assert(param.refs@.subrange(0, param.refs@.len() as int) == param.refs@);
        None
    }
}

/// The function around the cursor.
#[derive(Debug)]
pub struct FunctionFacts {
    /// The whole function.
    pub range: TextRange,
    /// The first parameter of its parameter list, a `self` parameter aside.
    pub first_param_range: Option<TextRange>,
    pub has_self_param: bool,
    /// The type of its first parameter.
    pub first_param_ty: Option<Ty>,
}

/// The references whose range does not meet `range`, in order.
pub open spec fn outside(refs: Seq<Reference>, range: TextRange) -> Seq<Reference>
    decreases refs.len(),
{
    if refs.len() == 0 {
        Seq::empty()
    } else if refs.last().file_range.range.intersects_spec(range) {
        outside(refs.drop_last(), range)
    } else {
        outside(refs.drop_last(), range).push(refs.last())
    }
}

/// Some reference's range meets `range`.
pub open spec fn meets(refs: Seq<Reference>, range: TextRange) -> bool {
    exists|i: int| 0 <= i < refs.len() && (#[trigger] refs[i]).file_range.range.intersects_spec(range)
}

/// The error of a self-introduction, if any, in the order the checks run.
pub open spec fn self_intro_error(
    position: FilePosition,
    function: Option<FunctionFacts>,
    impl_target: Option<Ty>,
    refs: Option<RangeInfo<ReferenceSearchResult>>,
) -> Option<RenameErrorKind> {
    match function {
        None => Some(RenameErrorKind::NoSurroundingMethod),
        Some(f) => match f.first_param_range {
            None => Some(RenameErrorKind::NoParameters),
            Some(pr) => if !pr.contains_spec(position.offset) {
                Some(RenameErrorKind::NotFirstParameter)
            } else {
                match impl_target {
                    None => Some(RenameErrorKind::NoImplBlock),
                    Some(target) => if f.has_self_param {
                        Some(RenameErrorKind::AlreadyHasSelf)
                    } else {
                        match f.first_param_ty {
                            None => Some(RenameErrorKind::NoParameters),
                            Some(ty) => match self_form(ty, target) {
                                None => Some(RenameErrorKind::ParameterTypeDiffers),
                                Some(_) => match refs {
                                    None => Some(RenameErrorKind::NoReferenceToParameter),
                                    Some(found) => if !meets(all_refs(found.info), pr) {
                                        Some(RenameErrorKind::ParameterNotFound)
                                    } else {
                                        None
                                    },
                                },
                            },
                        }
                    },
                }
            },
        },
    }
}

/// The edits of a successful self-introduction: every usage outside the
/// parameter becomes `self`, then the parameter becomes the `self` form.
pub open spec fn self_intro_plan(
    position: FilePosition,
    function: Option<FunctionFacts>,
    impl_target: Option<Ty>,
    refs: Option<RangeInfo<ReferenceSearchResult>>,
) -> Seq<Planned> {
    let pr = function->Some_0.first_param_range->Some_0;
    let form = self_form(function->Some_0.first_param_ty->Some_0, impl_target->Some_0)->Some_0;
    references_plan(outside(all_refs(refs->Some_0.info), pr), "self"@).push(
        (position.file_id, pr, self_form_text(form)),
    )
}

fn self_form_string(form: SelfForm) -> (r: String)
    ensures
        r@ == self_form_text(form),
{
    match form {
        SelfForm::Owned => String::from_str("self"),
        SelfForm::Shared => String::from_str("&self"),
        SelfForm::Mutable => String::from_str("&mut self"),
    }
}

/// Appends the `self` edit of `reference` where it lies outside
/// `param_range`; says whether some reference so far lies inside it.
fn push_if_outside(
    edits: &mut Vec<SourceFileEdit>,
    done: Ghost<Seq<Reference>>,
    reference: &Reference,
    param_range: TextRange,
    met: bool,
) -> (r: bool)
    requires
        plan_of(old(edits)@) == references_plan(outside(done@, param_range), "self"@),
        met == meets(done@, param_range),
    ensures
        plan_of(final(edits)@) == references_plan(
            outside(done@.push(*reference), param_range),
            "self"@,
        ),
        r == meets(done@.push(*reference), param_range),
{
    let ghost next = done@.push(*reference);
    assert(next.drop_last() =~= done@);
    assert(next[done@.len() as int] == *reference);
    assert(forall|k: int| 0 <= k < done@.len() ==> next[k] == done@[k]);
    let inside = reference.file_range.range.intersects(&param_range);
    if !inside {
        push_reference_edit(edits, reference, "self");
        assert(references_plan(outside(next, param_range), "self"@) =~= references_plan(
            outside(done@, param_range),
            "self"@,
        ).push(reference_plan(*reference, "self"@)));
    }
    assert(meets(next, param_range) == (met || inside)) by {
        if meets(next, param_range) {
            let k = choose|k: int|
                0 <= k < next.len() && (#[trigger] next[k]).file_range.range.intersects_spec(
                    param_range,
                );
            if k < done@.len() {
                assert(done@[k] == next[k]);
            }
        }
        if met {
            let k = choose|k: int|
                0 <= k < done@.len() && (#[trigger] done@[k]).file_range.range.intersects_spec(
                    param_range,
                );
            assert(done@[k] == next[k]);
        }
    }
    met || inside
}

/// Appends the `self` edit of each reference in `refs` that lies outside
/// `param_range`; says whether some reference so far lies inside it.
fn push_all_outside(
    edits: &mut Vec<SourceFileEdit>,
    done: Ghost<Seq<Reference>>,
    refs: &Vec<Reference>,
    param_range: TextRange,
    met: bool,
) -> (r: bool)
    requires
        plan_of(old(edits)@) == references_plan(outside(done@, param_range), "self"@),
        met == meets(done@, param_range),
    ensures
        plan_of(final(edits)@) == references_plan(outside(done@ + refs@, param_range), "self"@),
        r == meets(done@ + refs@, param_range),
{
    let mut met = met;
    let mut i: usize = 0;
    while i < refs.len()
        invariant
            i <= refs.len(),
            plan_of(edits@) == references_plan(
                outside(done@ + refs@.subrange(0, i as int), param_range),
                "self"@,
            ),
            met == meets(done@ + refs@.subrange(0, i as int), param_range),
        decreases refs.len() - i,
    {
        assert(done@ + refs@.subrange(0, i + 1) =~= (done@ + refs@.subrange(0, i as int)).push(
            refs@[i as int],
        ));
        met = push_if_outside(
            edits,
            Ghost(done@ + refs@.subrange(0, i as int)),
            &refs[i],
            param_range,
            met,
        );
        i = i + 1;
    }
    assert(refs@.subrange(0, refs.len() as int) == refs@);
    met
}

/// The outcome of a self-introduction.
pub open spec fn self_intro_result(
    position: FilePosition,
    function: Option<FunctionFacts>,
    impl_target: Option<Ty>,
    refs: Option<RangeInfo<ReferenceSearchResult>>,
    r: Result<RangeInfo<SourceChange>, RenameError>,
) -> bool {
    match self_intro_error(position, function, impl_target, refs) {
        Some(kind) => failed_with(r, kind, "self"@),
        None => outcome_is(
            r,
            refs->Some_0.range,
            self_intro_plan(position, function, impl_target, refs),
            "self"@,
        ),
    }
}

/// Self-introduction: turns the first parameter of a method into `self`.
pub fn rename_to_self(
    position: FilePosition,
    function: &Option<FunctionFacts>,
    impl_target: &Option<Ty>,
    refs: &Option<RangeInfo<ReferenceSearchResult>>,
) -> (r: Result<RangeInfo<SourceChange>, RenameError>)
    ensures
        self_intro_result(position, *function, *impl_target, *refs, r),
{
    let f = match function {
        Some(f) => f,
        None => return Err(RenameError::new(RenameErrorKind::NoSurroundingMethod, "self")),
    };
    let param_range = match f.first_param_range {
        Some(pr) => pr,
        None => return Err(RenameError::new(RenameErrorKind::NoParameters, "self")),
    };
    if !param_range.contains(position.offset) {
        return Err(RenameError::new(RenameErrorKind::NotFirstParameter, "self"));
    }
    let target = match impl_target {
        Some(t) => t,
        None => return Err(RenameError::new(RenameErrorKind::NoImplBlock, "self")),
    };
    if f.has_self_param {
        return Err(RenameError::new(RenameErrorKind::AlreadyHasSelf, "self"));
    }
    let ty = match &f.first_param_ty {
        Some(ty) => ty,
        None => return Err(RenameError::new(RenameErrorKind::NoParameters, "self")),
    };
    let form = match self_form_for(ty, target) {
        Some(form) => form,
        None => return Err(RenameError::new(RenameErrorKind::ParameterTypeDiffers, "self")),
    };
    let found = match refs {
        Some(found) => found,
        None => return Err(RenameError::new(RenameErrorKind::NoReferenceToParameter, "self")),
    };
    let mut edits: Vec<SourceFileEdit> = Vec::new();
    let ghost none = Seq::<Reference>::empty();
    assert(plan_of(edits@) == Seq::<Planned>::empty());
    assert(references_plan(outside(none, param_range), "self"@) =~= Seq::<Planned>::empty());
    assert(none.push(found.info.declaration) =~= seq![found.info.declaration]);
    let met = push_if_outside(&mut edits, Ghost(none), &found.info.declaration, param_range, false);
    let ghost first = seq![found.info.declaration];
    let met = push_all_outside(
        &mut edits,
        Ghost(first),
        &found.info.references,
        param_range,
        met,
    );
    if !met {
        return Err(RenameError::new(RenameErrorKind::ParameterNotFound, "self"));
    }
    let e = single_edit(position.file_id, param_range, self_form_string(form));
    proof {
        lemma_plan_push(edits@, e);
    }
    edits.push(e);
    assert(plan_of(edits@) =~= self_intro_plan(position, *function, *impl_target, *refs));
    finish(found.range, edits, Vec::new(), "self")
}

/// The `self` parameter that a `self` keyword belongs to.
#[derive(Debug)]
pub struct SelfParamFacts {
    /// The whole parameter, `&mut self` say.
    pub range: TextRange,
    pub has_amp: bool,
    pub has_mut: bool,
    /// The name of the impl block's target type, where that type is a plain
    /// path; `None` where it is not, or where no impl block is found.
    pub impl_type_name: Option<String>,
}

/// A `self` keyword token of the file.
#[derive(Debug)]
pub struct SelfToken {
    pub range: TextRange,
    /// Its parent, where that is a `self` parameter.
    pub param: Option<SelfParamFacts>,
}

/// A token stands at `offset` when the offset lies inside it or on either of
/// its boundaries.
pub open spec fn covers(t: SelfToken, offset: u32) -> bool {
    t.range.start <= offset && offset <= t.range.end
}

/// `i` is the first of `tokens` that stands at `offset`.
pub open spec fn first_cover(tokens: Seq<SelfToken>, offset: u32, i: int) -> bool {
    &&& 0 <= i < tokens.len()
    &&& covers(tokens[i], offset)
    &&& forall|j: int| 0 <= j < i ==> !covers(#[trigger] tokens[j], offset)
}

/// The first `self` token that stands at `offset`, if any.
pub open spec fn self_token_index(tokens: Seq<SelfToken>, offset: u32) -> Option<int> {
    if exists|i: int| first_cover(tokens, offset, i) {
        Some(choose|i: int| first_cover(tokens, offset, i))
    } else {
        None
    }
}

/// Finds the first `self` token that stands at `offset`.
pub fn self_token_at(tokens: &Vec<SelfToken>, offset: u32) -> (r: Option<usize>)
    ensures
        match r {
            Some(i) => self_token_index(tokens@, offset) == Some(i as int),
            None => self_token_index(tokens@, offset) is None,
        },
{
    let mut i: usize = 0;
    while i < tokens.len()
        invariant
            i <= tokens.len(),
            forall|j: int| 0 <= j < i ==> !covers(#[trigger] tokens@[j], offset),
        decreases tokens.len() - i,
    {
        if tokens[i].range.start <= offset && offset <= tokens[i].range.end {
            assert(first_cover(tokens@, offset, i as int));
            proof {
                let k = choose|k: int| first_cover(tokens@, offset, k);
                if k < i {
                    assert(!covers(tokens@[k], offset));
                }
                if i < k {
                    assert(!covers(tokens@[i as int], offset));
                }
            }
            return Some(i);
        }
        i = i + 1;
    }
    None
}

/// Bytes `i .. i + 4` of `b` read `self`.
pub open spec fn is_self_at(b: Seq<u8>, i: int) -> bool {
    &&& 0 <= i && i + 4 <= b.len()
    &&& b[i] == 115u8 && b[i + 1] == 101u8 && b[i + 2] == 108u8 && b[i + 3] == 102u8
}

/// The reference written before the type: `&mut ` for `&mut self`, `&` for
/// `&self`, nothing for an owned `self` or `mut self`.
pub open spec fn ownership_prefix(p: SelfParamFacts) -> Seq<char> {
    if p.has_amp && p.has_mut {
        "&mut "@
    } else if p.has_amp {
        "&"@
    } else {
        Seq::empty()
    }
}

/// What a `self` parameter becomes: `name: <prefix><type name>`.
pub open spec fn param_text(name: Seq<char>, p: SelfParamFacts, target_name: Seq<char>) -> Seq<char> {
    name + ": "@ + ownership_prefix(p) + target_name
}

/// The replacement for the `self` token at byte `i`, if one stands there.
pub open spec fn occurrence_plan(
    tokens: Seq<SelfToken>,
    file: FileId,
    name: Seq<char>,
    i: int,
) -> Result<Option<Planned>, RenameErrorKind> {
    match self_token_index(tokens, i as u32) {
        None => Ok(None),
        Some(k) => match tokens[k].param {
            None => Ok(Some((file, tokens[k].range, name))),
            Some(p) => match p.impl_type_name {
                None => Err(RenameErrorKind::NoTargetType),
                Some(target_name) => Ok(Some((file, p.range, param_text(name, p, target_name@)))),
            },
        },
    }
}

/// The edits of a self-removal over the first `n` bytes of the file: each
/// `self` found in the text inside the function that the tree confirms as a
/// `self` token is renamed, and the `self` parameter is rewritten.
pub open spec fn self_scan(
    b: Seq<u8>,
    function_range: TextRange,
    tokens: Seq<SelfToken>,
    file: FileId,
    name: Seq<char>,
    n: nat,
) -> Result<Seq<Planned>, RenameErrorKind>
    decreases n,
{
    if n == 0 {
        Ok(Seq::empty())
    } else {
        match self_scan(b, function_range, tokens, file, name, (n - 1) as nat) {
            Err(e) => Err(e),
            Ok(plan) => {
                let i = n - 1;
                if is_self_at(b, i) && i <= 0xffff_ffff && function_range.contains_inclusive_spec(
                    i as u32,
                ) {
                    match occurrence_plan(tokens, file, name, i) {
                        Err(e) => Err(e),
                        Ok(None) => Ok(plan),
                        Ok(Some(x)) => Ok(plan.push(x)),
                    }
                } else {
                    Ok(plan)
                }
            },
        }
    }
}

proof fn lemma_scan_stays_failed(
    b: Seq<u8>,
    function_range: TextRange,
    tokens: Seq<SelfToken>,
    file: FileId,
    name: Seq<char>,
    n: nat,
    m: nat,
)
    requires
        n <= m,
        self_scan(b, function_range, tokens, file, name, n) is Err,
    ensures
        self_scan(b, function_range, tokens, file, name, m) == self_scan(
            b,
            function_range,
            tokens,
            file,
            name,
            n,
        ),
    decreases m - n,
{
    if n < m {
        lemma_scan_stays_failed(b, function_range, tokens, file, name, n, (m - 1) as nat);
    }
}

/// The range a self-removal reports: the `self` parameter, or the token.
pub open spec fn self_highlight(t: SelfToken) -> TextRange {
    match t.param {
        Some(p) => p.range,
        None => t.range,
    }
}

fn self_param_string(p: &SelfParamFacts, target_name: &String, new_name: &str) -> (r: String)
    ensures
        r@ == param_text(new_name@, *p, target_name@),
{
    let mut text = String::from_str(new_name);
    text.append(": ");
    if p.has_amp && p.has_mut {
        text.append("&mut ");
    } else if p.has_amp {
        text.append("&");
    }
    text.append(target_name.as_str());
    text
}

/// The edit that turns the `self` parameter `p` into `new_name: <prefix><type>`;
/// `None` where the impl block's target type has no plain name.
fn text_edit_from_self_param(file_id: FileId, p: &SelfParamFacts, new_name: &str) -> (r: Option<
    SourceFileEdit,
>)
    ensures
        match p.impl_type_name {
            None => r is None,
            Some(target_name) => r is Some && plan_of(seq![r->Some_0]) == seq![
                (file_id, p.range, param_text(new_name@, *p, target_name@)),
            ],
        },
{
    match &p.impl_type_name {
        Some(target_name) => Some(
            single_edit(file_id, p.range, self_param_string(p, target_name, new_name)),
        ),
        None => None,
    }
}

fn bytes_read_self(b: &[u8], i: usize) -> (r: bool)
    ensures
        r == is_self_at(b@, i as int),
{
    let n = b.len();
    if n < 4 || i > n - 4 {
        return false;
    }
    b[i] == 115u8 && b[i + 1] == 101u8 && b[i + 2] == 108u8 && b[i + 3] == 102u8
}

/// The outcome of a self-removal from the `self` token `token`.
pub open spec fn self_removal_result(
    position: FilePosition,
    text: Seq<char>,
    function: Option<FunctionFacts>,
    tokens: Seq<SelfToken>,
    token: SelfToken,
    name: Seq<char>,
    r: Result<RangeInfo<SourceChange>, RenameError>,
) -> bool {
    match function {
        None => failed_with(r, RenameErrorKind::NoSurroundingMethod, name),
        Some(f) => match self_scan(
            encode_utf8(text),
            f.range,
            tokens,
            position.file_id,
            name,
            encode_utf8(text).len(),
        ) {
            Err(kind) => failed_with(r, kind, name),
            Ok(plan) => outcome_is(r, self_highlight(token), plan, name),
        },
    }
}

/// Self-removal: turns `self` into a parameter named `new_name` in the
/// function around the cursor, whose `self` token is `self_token`.
pub fn rename_self_to_param(
    position: FilePosition,
    file_text: &str,
    function: &Option<FunctionFacts>,
    self_tokens: &Vec<SelfToken>,
    self_token: &SelfToken,
    new_name: &str,
) -> (r: Result<RangeInfo<SourceChange>, RenameError>)
    ensures
        self_removal_result(
            position,
            file_text@,
            *function,
            self_tokens@,
            *self_token,
            new_name@,
            r,
        ),
{
    let search_range = match function {
        Some(f) => f.range,
        None => return Err(RenameError::new(RenameErrorKind::NoSurroundingMethod, new_name)),
    };
    let bytes = file_text.as_bytes();
    let ghost b = encode_utf8(file_text@);
    let ghost file = position.file_id;
    let ghost name = new_name@;
    let mut edits: Vec<SourceFileEdit> = Vec::new();
    assert(plan_of(edits@) == Seq::<Planned>::empty());
    let mut i: usize = 0;
    while i < bytes.len()
        invariant
            bytes@ == b,
            b == encode_utf8(file_text@),
            file == position.file_id,
            name == new_name@,
            *function is Some,
            search_range == function->Some_0.range,
            i <= b.len(),
            self_scan(b, search_range, self_tokens@, file, name, i as nat) == Ok::<
                Seq<Planned>,
                RenameErrorKind,
            >(plan_of(edits@)),
        decreases bytes.len() - i,
    {
        if bytes_read_self(bytes, i) && i <= 0xffff_ffff && search_range.contains_inclusive(
            i as u32,
        ) {
            match self_token_at(self_tokens, i as u32) {
                None => {},
                Some(k) => {
                    let usage = &self_tokens[k];
                    let ghost before = plan_of(edits@);
                    let e = match &usage.param {
                        Some(p) => match text_edit_from_self_param(position.file_id, p, new_name) {
                            Some(e) => e,
                            None => {
                                proof {
                                    assert(self_token_index(self_tokens@, i as u32) == Some(
                                        k as int,
                                    ));
                                    assert(is_self_at(b, i as int));
                                    lemma_scan_stays_failed(
                                        b,
                                        search_range,
                                        self_tokens@,
                                        file,
                                        name,
                                        (i + 1) as nat,
                                        b.len(),
                                    );
                                }
                                return Err(
                                    RenameError::new(RenameErrorKind::NoTargetType, new_name),
                                );
                            },
                        },
                        None => single_edit(
                            position.file_id,
                            usage.range,
                            String::from_str(new_name),
                        ),
                    };
                    proof {
                        lemma_plan_push(edits@, e);
                        assert(before + plan_of(seq![e]) =~= before.push(plan_of(seq![e])[0]));
                    }
                    edits.push(e);
                },
            }
        }
        i = i + 1;
    }
    let range = match &self_token.param {
        Some(p) => p.range,
        None => self_token.range,
    };
    finish(range, edits, Vec::new(), new_name)
}

/// The parent of the identifier token at the cursor, with what the semantic
/// model makes of it.
#[derive(Debug)]
pub enum IdentParent {
    NameRef(Option<NameRefClass>),
    Name(Option<NameClass>),
    Other,
}

/// The module that the identifier at the cursor defines or names, if any.
pub open spec fn module_at(ident: Option<IdentParent>) -> Option<ModuleFacts> {
    match ident {
        Some(IdentParent::NameRef(Some(NameRefClass::Definition(d)))) => match d.kind {
            DefinitionKind::Module(m) => Some(m),
            _ => None,
        },
        Some(IdentParent::Name(Some(NameClass::Definition(d)))) => match d.kind {
            DefinitionKind::Module(m) => Some(m),
            _ => None,
        },
        _ => None,
    }
}

fn find_module_at_offset(ident: &Option<IdentParent>) -> (r: Option<&ModuleFacts>)
    ensures
        match r {
            Some(m) => module_at(*ident) == Some(*m),
            None => module_at(*ident) is None,
        },
{
    match ident {
        Some(IdentParent::NameRef(Some(NameRefClass::Definition(d)))) => match &d.kind {
            DefinitionKind::Module(m) => Some(m),
            _ => None,
        },
        Some(IdentParent::Name(Some(NameClass::Definition(d)))) => match &d.kind {
            DefinitionKind::Module(m) => Some(m),
            _ => None,
        },
        _ => None,
    }
}

/// What the syntax tree and the semantic model say about a cursor position,
/// as far as renaming needs it.
#[derive(Debug)]
pub struct RenameSite {
    pub position: FilePosition,
    /// The text of the file at the cursor.
    pub file_text: String,
    /// The parent of the identifier token at the cursor, if there is one.
    pub ident_parent: Option<IdentParent>,
    /// Every `self` keyword token of the file, in order.
    pub self_tokens: Vec<SelfToken>,
    /// What a reference search from the cursor finds.
    pub references: Option<RangeInfo<ReferenceSearchResult>>,
    /// The function around the cursor.
    pub function: Option<FunctionFacts>,
    /// The target type of the impl block around the cursor.
    pub impl_target: Option<Ty>,
}

/// The outcome of renaming to `name` from `site`: the name is lexed first,
/// then one of the four strategies runs.
pub open spec fn rename_result(
    site: RenameSite,
    name: Seq<char>,
    r: Result<RangeInfo<SourceChange>, RenameError>,
) -> bool {
    match name_kind(name) {
        NameKind::SelfKw => self_intro_result(
            site.position,
            site.function,
            site.impl_target,
            site.references,
            r,
        ),
        NameKind::ReservedLifetime => failed_with(
            r,
            RenameErrorKind::InvalidName(InvalidNameReason::ReservedLifetime),
            name,
        ),
        NameKind::Invalid => failed_with(
            r,
            RenameErrorKind::InvalidName(InvalidNameReason::NotAnIdentifier),
            name,
        ),
        NameKind::LexError(e) => failed_with(
            r,
            RenameErrorKind::InvalidName(InvalidNameReason::Lexed(e)),
            name,
        ),
        NameKind::Lifetime => reference_rename_result(site.references, name, true, r),
        _ => match module_at(site.ident_parent) {
            Some(m) => mod_rename_result(m, site.references, name, r),
            None => match self_token_index(site.self_tokens@, site.position.offset) {
                Some(k) => self_removal_result(
                    site.position,
                    site.file_text@,
                    site.function,
                    site.self_tokens@,
                    site.self_tokens@[k],
                    name,
                    r,
                ),
                None => reference_rename_result(site.references, name, false, r),
            },
        },
    }
}

/// Renames what stands at the cursor to `new_name`.
pub fn rename_with_semantics(site: &RenameSite, new_name: &str) -> (r: Result<
    RangeInfo<SourceChange>,
    RenameError,
>)
    ensures
        rename_result(*site, new_name@, r),
{
    let is_lifetime_name = match classify_name(new_name) {
        NameKind::Ident => false,
        NameKind::Underscore => false,
        NameKind::SelfKw => {
            return rename_to_self(site.position, &site.function, &site.impl_target, &site.references);
        },
        NameKind::Lifetime => true,
        NameKind::ReservedLifetime => {
            return Err(
                RenameError::new(
                    RenameErrorKind::InvalidName(InvalidNameReason::ReservedLifetime),
                    new_name,
                ),
            );
        },
        NameKind::LexError(e) => {
            return Err(
                RenameError::new(RenameErrorKind::InvalidName(InvalidNameReason::Lexed(e)), new_name),
            );
        },
        NameKind::Invalid => {
            return Err(
                RenameError::new(
                    RenameErrorKind::InvalidName(InvalidNameReason::NotAnIdentifier),
                    new_name,
                ),
            );
        },
    };
    if is_lifetime_name {
        return rename_reference(&site.references, new_name, true);
    }
    if let Some(module) = find_module_at_offset(&site.ident_parent) {
        return rename_mod(module, &site.references, new_name);
    }
    match self_token_at(&site.self_tokens, site.position.offset) {
        Some(k) => rename_self_to_param(
            site.position,
            site.file_text.as_str(),
            &site.function,
            &site.self_tokens,
            &site.self_tokens[k],
            new_name,
        ),
        None => rename_reference(&site.references, new_name, false),
    }
}

/// Renames what stands at the cursor to `new_name`: the returned change is
/// for the caller to apply.
pub fn rename(site: &RenameSite, new_name: &str) -> (r: Result<RangeInfo<SourceChange>, RenameError>)
    ensures
        rename_result(*site, new_name@, r),
{
    rename_with_semantics(site, new_name)
}

/// The outcome of checking that what stands at the cursor can be renamed:
/// the range a rename would report, or why it cannot run. A module can be
/// renamed once references to it are found; a self-removal is tried with the
/// placeholder name `dummy`, whose edits cover the same ranges as any name's.
pub open spec fn prepare_result(site: RenameSite, r: Result<TextRange, RenameError>) -> bool {
    match module_at(site.ident_parent) {
        Some(_) => match site.references {
            None => r is Err && r->Err_0.kind == RenameErrorKind::NoReferences,
            Some(found) => r == Ok::<TextRange, RenameError>(found.range),
        },
        None => match self_token_index(site.self_tokens@, site.position.offset) {
            Some(k) => match site.function {
                None => r is Err && r->Err_0.kind == RenameErrorKind::NoSurroundingMethod,
                Some(f) => match self_scan(
                    encode_utf8(site.file_text@),
                    f.range,
                    site.self_tokens@,
                    site.position.file_id,
                    "dummy"@,
                    encode_utf8(site.file_text@).len(),
                ) {
                    Err(kind) => r is Err && r->Err_0.kind == kind,
                    Ok(plan) => if plan_disjoint(plan) {
                        r == Ok::<TextRange, RenameError>(self_highlight(site.self_tokens@[k]))
                    } else {
                        r is Err && r->Err_0.kind == RenameErrorKind::OverlappingEdits
                    },
                },
            },
            None => match site.references {
                None => r is Err && r->Err_0.kind == RenameErrorKind::NoReferences,
                Some(found) => r == Ok::<TextRange, RenameError>(found.range),
            },
        },
    }
}

/// Checks that what stands at the cursor can be renamed, without a name.
pub fn prepare_rename(site: &RenameSite) -> (r: Result<TextRange, RenameError>)
    ensures
        prepare_result(*site, r),
{
    let outcome = if let Some(_) = find_module_at_offset(&site.ident_parent) {
        return match &site.references {
            Some(found) => Ok(found.range),
            None => Err(RenameError::new(RenameErrorKind::NoReferences, "dummy")),
        };
    } else {
        match self_token_at(&site.self_tokens, site.position.offset) {
            Some(k) => rename_self_to_param(
                site.position,
                site.file_text.as_str(),
                &site.function,
                &site.self_tokens,
                &site.self_tokens[k],
                "dummy",
            ),
            None => {
                return match &site.references {
                    Some(found) => Ok(found.range),
                    None => Err(RenameError::new(RenameErrorKind::NoReferences, "dummy")),
                };
            },
        }
    };
    match outcome {
        Ok(info) => Ok(info.range),
        Err(e) => Err(e),
    }
}

} // verus!
