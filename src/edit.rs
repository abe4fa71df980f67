//! Change descriptions: text edits per file, file moves, and their bundle.
use crate::text::{FileId, TextRange};
use vstd::prelude::*;
use vstd::utf8::encode_utf8;

verus! {

/// Replace the text in `delete` by `insert`.
#[derive(Debug)]
pub struct Indel {
    pub insert: String,
    pub delete: TextRange,
}

impl Indel {
    pub fn replace(delete: TextRange, insert: String) -> (r: Indel)
        ensures
            r.delete == delete && r.insert@ == insert@,
    {
        Indel { insert, delete }
    }

    pub fn duplicate(&self) -> (r: Indel)
        ensures
            r.delete == self.delete && r.insert@ == self.insert@,
    {
        Indel { insert: self.insert.clone(), delete: self.delete }
    }
}

/// The indels that apply to one file, in order.
#[derive(Debug)]
pub struct TextEdit {
    pub indels: Vec<Indel>,
}

impl TextEdit {
    /// An edit made of the single replacement of `range` by `text`.
    pub fn replace(range: TextRange, text: String) -> (r: TextEdit)
        ensures
            r.indels@.len() == 1,
            r.indels@[0].delete == range,
            r.indels@[0].insert@ == text@,
    {
        let mut indels: Vec<Indel> = Vec::new();
        indels.push(Indel::replace(range, text));
        TextEdit { indels }
    }
}

/// A text edit scoped to one file.
#[derive(Debug)]
pub struct SourceFileEdit {
    pub file_id: FileId,
    pub edit: TextEdit,
}

/// A path relative to the directory of the anchor file.
#[derive(Debug)]
pub struct AnchoredPathBuf {
    pub anchor: FileId,
    pub path: String,
}

/// A change to the file system.
#[derive(Debug)]
pub enum FileSystemEdit {
    MoveFile { src: FileId, dst: AnchoredPathBuf },
}

/// Everything one refactoring asks the caller to apply.
#[derive(Debug)]
pub struct SourceChange {
    pub source_file_edits: Vec<SourceFileEdit>,
    pub file_system_edits: Vec<FileSystemEdit>,
    pub is_snippet: bool,
}

/// One planned replacement: the file, the range it deletes, the text it
/// inserts.
pub type Planned = (FileId, TextRange, Seq<char>);

pub open spec fn planned_indels(file: FileId, indels: Seq<Indel>) -> Seq<Planned> {
    indels.map_values(|d: Indel| (file, d.delete, d.insert@))
}

/// The replacements that `edits` make, in order.
pub open spec fn plan_of(edits: Seq<SourceFileEdit>) -> Seq<Planned>
    decreases edits.len(),
{
    if edits.len() == 0 {
        Seq::empty()
    } else {
        plan_of(edits.drop_last()) + planned_indels(edits.last().file_id, edits.last().edit.indels@)
    }
}

/// The files that `plan` touches, each once, in the order in which they first
/// appear.
pub open spec fn file_order(plan: Seq<Planned>) -> Seq<FileId>
    decreases plan.len(),
{
    if plan.len() == 0 {
        Seq::empty()
    } else {
        let before = file_order(plan.drop_last());
        if before.contains(plan.last().0) {
            before
        } else {
            before.push(plan.last().0)
        }
    }
}

/// The replacements that `plan` makes in `file`, in order.
pub open spec fn plan_for(plan: Seq<Planned>, file: FileId) -> Seq<(TextRange, Seq<char>)>
    decreases plan.len(),
{
    if plan.len() == 0 {
        Seq::empty()
    } else if plan.last().0 == file {
        plan_for(plan.drop_last(), file).push((plan.last().1, plan.last().2))
    } else {
        plan_for(plan.drop_last(), file)
    }
}

pub open spec fn indel_pairs(indels: Seq<Indel>) -> Seq<(TextRange, Seq<char>)> {
    indels.map_values(|d: Indel| (d.delete, d.insert@))
}

/// `r` holds `plan` gathered per file: one edit per touched file, in the order
/// of `file_order`, holding that file's replacements in the order they were made.
pub open spec fn gathered(plan: Seq<Planned>, r: Seq<SourceFileEdit>) -> bool {
    &&& r.len() == file_order(plan).len()
    &&& forall|i: int|
        0 <= i < r.len() ==> (#[trigger] r[i]).file_id == file_order(plan)[i] && indel_pairs(
            r[i].edit.indels@,
        ) == plan_for(plan, r[i].file_id)
}

/// The bytes of `text` once `p`'s range is replaced by its text.
pub open spec fn apply_planned(text: Seq<u8>, p: Planned) -> Seq<u8> {
    text.subrange(0, p.1.start as int) + encode_utf8(p.2) + text.subrange(
        p.1.end as int,
        text.len() as int,
    )
}

/// The number of indels over all of `edits`.
pub open spec fn indel_count(edits: Seq<SourceFileEdit>) -> nat
    decreases edits.len(),
{
    if edits.len() == 0 {
        0
    } else {
        indel_count(edits.drop_last()) + edits.last().edit.indels@.len()
    }
}

/// Two ranges do not overlap: one ends where, or before, the other starts.
pub open spec fn separate(a: TextRange, b: TextRange) -> bool {
    a.end <= b.start || b.end <= a.start
}

/// Within each file, the replacements of `plan` are pairwise separate.
pub open spec fn plan_disjoint(plan: Seq<Planned>) -> bool {
    forall|i: int, j: int|
        0 <= i < j < plan.len() && #[trigger] plan[i].0 == #[trigger] plan[j].0 ==> separate(
            plan[i].1,
            plan[j].1,
        )
}

/// The replacements of one file are pairwise separate.
pub open spec fn pairs_disjoint(pairs: Seq<(TextRange, Seq<char>)>) -> bool {
    forall|i: int, j: int|
        0 <= i < j < pairs.len() ==> separate(#[trigger] pairs[i].0, #[trigger] pairs[j].0)
}

/// In every file of `edits`, the indels are pairwise separate.
pub open spec fn change_disjoint(edits: Seq<SourceFileEdit>) -> bool {
    forall|k: int| 0 <= k < edits.len() ==> pairs_disjoint(indel_pairs(#[trigger] edits[k].edit.indels@))
}

proof fn lemma_plan_for_source(plan: Seq<Planned>, file: FileId, a: int)
    requires
        0 <= a < plan_for(plan, file).len(),
    ensures
        exists|j: int|
            0 <= j < plan.len() && plan[j].0 == file && plan[j].1 == plan_for(plan, file)[a].0,
    decreases plan.len(),
{
    let before = plan_for(plan.drop_last(), file);
    if a < before.len() {
        lemma_plan_for_source(plan.drop_last(), file, a);
        let j = choose|j: int|
            0 <= j < plan.drop_last().len() && plan.drop_last()[j].0 == file
                && plan.drop_last()[j].1 == before[a].0;
        assert(plan[j] == plan.drop_last()[j]);
    } else {
        assert(plan[plan.len() - 1].0 == file);
    }
}

proof fn lemma_plan_for_disjoint(plan: Seq<Planned>, file: FileId)
    requires
        plan_disjoint(plan),
    ensures
        pairs_disjoint(plan_for(plan, file)),
    decreases plan.len(),
{
    if plan.len() > 0 {
        let rest = plan.drop_last();
        assert(plan_disjoint(rest)) by {
            assert forall|i: int, j: int|
                0 <= i < j < rest.len() && #[trigger] rest[i].0 == #[trigger] rest[j].0 implies separate(
                rest[i].1,
                rest[j].1,
            ) by {
                assert(rest[i] == plan[i] && rest[j] == plan[j]);
            }
        }
        lemma_plan_for_disjoint(rest, file);
        let before = plan_for(rest, file);
        if plan.last().0 == file {
            let all = before.push((plan.last().1, plan.last().2));
            assert forall|i: int, j: int| 0 <= i < j < all.len() implies separate(
                #[trigger] all[i].0,
                #[trigger] all[j].0,
            ) by {
                if j == before.len() {
                    lemma_plan_for_source(rest, file, i);
                    let k = choose|k: int|
                        0 <= k < rest.len() && rest[k].0 == file && rest[k].1 == before[i].0;
                    assert(plan[k] == rest[k]);
                    assert(plan[k].0 == plan[plan.len() - 1].0);
                } else {
                    assert(all[i] == before[i] && all[j] == before[j]);
                }
            }
        }
    }
}

/// A replacement bound to its file.
#[derive(Debug)]
pub struct FileIndel {
    pub file_id: FileId,
    pub indel: Indel,
}

pub open spec fn plan_of_flat(flat: Seq<FileIndel>) -> Seq<Planned> {
    flat.map_values(|f: FileIndel| (f.file_id, f.indel.delete, f.indel.insert@))
}

fn flatten(edits: &Vec<SourceFileEdit>) -> (r: Vec<FileIndel>)
    ensures
        plan_of_flat(r@) == plan_of(edits@),
{
    let mut out: Vec<FileIndel> = Vec::new();
    let mut i: usize = 0;
    while i < edits.len()
        invariant
            i <= edits.len(),
            plan_of_flat(out@) == plan_of(edits@.subrange(0, i as int)),
        decreases edits.len() - i,
    {
        assert(edits@.subrange(0, i + 1).drop_last() == edits@.subrange(0, i as int));
        let file_id = edits[i].file_id;
        let indels = &edits[i].edit.indels;
        let ghost before = out@;
        let mut k: usize = 0;
        while k < indels.len()
            invariant
                k <= indels.len(),
                i < edits.len(),
                indels == edits@[i as int].edit.indels,
                file_id == edits@[i as int].file_id,
                plan_of_flat(before) == plan_of(edits@.subrange(0, i as int)),
                plan_of_flat(out@) == plan_of_flat(before) + planned_indels(
                    file_id,
                    indels@.subrange(0, k as int),
                ),
            decreases indels.len() - k,
        {
            let ghost prev = out@;
            out.push(FileIndel { file_id, indel: indels[k].duplicate() });
            assert(plan_of_flat(out@) =~= plan_of_flat(prev).push(
                (file_id, indels@[k as int].delete, indels@[k as int].insert@),
            ));
            assert(planned_indels(file_id, indels@.subrange(0, k + 1)) =~= planned_indels(
                file_id,
                indels@.subrange(0, k as int),
            ).push((file_id, indels@[k as int].delete, indels@[k as int].insert@)));
            assert(plan_of_flat(out@) =~= plan_of_flat(before) + planned_indels(
                file_id,
                indels@.subrange(0, k + 1),
            ));
            k = k + 1;
        }
        assert(indels@.subrange(0, indels.len() as int) == indels@);
        i = i + 1;
    }
    assert(edits@.subrange(0, edits.len() as int) == edits@);
    out
}

fn contains_file(files: &Vec<FileId>, file: FileId) -> (r: bool)
    ensures
        r == files@.contains(file),
{
    let mut i: usize = 0;
    while i < files.len()
        invariant
            i <= files.len(),
            forall|j: int| 0 <= j < i ==> files@[j] != file,
        decreases files.len() - i,
    {
        if files[i] == file {
            return true;
        }
        i = i + 1;
    }
    false
}

fn files_in_order(flat: &Vec<FileIndel>) -> (r: Vec<FileId>)
    ensures
        r@ == file_order(plan_of_flat(flat@)),
{
    let mut files: Vec<FileId> = Vec::new();
    let mut i: usize = 0;
    while i < flat.len()
        invariant
            i <= flat.len(),
            files@ == file_order(plan_of_flat(flat@.subrange(0, i as int))),
        decreases flat.len() - i,
    {
        assert(plan_of_flat(flat@.subrange(0, i + 1)).drop_last() =~= plan_of_flat(
            flat@.subrange(0, i as int),
        ));
        if !contains_file(&files, flat[i].file_id) {
            files.push(flat[i].file_id);
        }
        i = i + 1;
    }
    assert(flat@.subrange(0, flat.len() as int) == flat@);
    files
}

fn collect_for(flat: &Vec<FileIndel>, file: FileId) -> (r: Vec<Indel>)
    ensures
        indel_pairs(r@) == plan_for(plan_of_flat(flat@), file),
{
    let mut out: Vec<Indel> = Vec::new();
    let mut i: usize = 0;
    while i < flat.len()
        invariant
            i <= flat.len(),
            indel_pairs(out@) == plan_for(plan_of_flat(flat@.subrange(0, i as int)), file),
        decreases flat.len() - i,
    {
        assert(plan_of_flat(flat@.subrange(0, i + 1)).drop_last() =~= plan_of_flat(
            flat@.subrange(0, i as int),
        ));
        if flat[i].file_id == file {
            out.push(flat[i].indel.duplicate());
            assert(indel_pairs(out@) =~= plan_for(plan_of_flat(flat@.subrange(0, i as int)), file).push(
                (flat@[i as int].indel.delete, flat@[i as int].indel.insert@),
            ));
        }
        i = i + 1;
    }
    assert(flat@.subrange(0, flat.len() as int) == flat@);
    out
}

/// Whether, within each file, the replacements of `edits` are pairwise
/// separate.
pub fn edits_disjoint(edits: &Vec<SourceFileEdit>) -> (r: bool)
    ensures
        r == plan_disjoint(plan_of(edits@)),
{
    let flat = flatten(edits);
    let ghost plan = plan_of_flat(flat@);
    let n = flat.len();
    let mut i: usize = 0;
    while i < n
        invariant
            n == flat@.len(),
            plan == plan_of_flat(flat@),
            plan == plan_of(edits@),
            i <= n,
            forall|a: int, b: int|
                0 <= a < i && a < b < n && #[trigger] plan[a].0 == #[trigger] plan[b].0 ==> separate(
                    plan[a].1,
                    plan[b].1,
                ),
        decreases n - i,
    {
        let mut j: usize = i + 1;
        while j < n
            invariant
                n == flat@.len(),
                plan == plan_of_flat(flat@),
                plan == plan_of(edits@),
                i < n,
                i + 1 <= j <= n,
                forall|a: int, b: int|
                    0 <= a < i && a < b < n && #[trigger] plan[a].0 == #[trigger] plan[b].0
                        ==> separate(plan[a].1, plan[b].1),
                forall|b: int|
                    i < b < j && plan[i as int].0 == #[trigger] plan[b].0 ==> separate(
                        plan[i as int].1,
                        plan[b].1,
                    ),
            decreases n - j,
        {
            let x = flat[i].indel.delete;
            let y = flat[j].indel.delete;
            if flat[i].file_id == flat[j].file_id && !(x.end <= y.start || y.end <= x.start) {
                assert(plan[i as int].1 == x && plan[j as int].1 == y);
                assert(plan[i as int].0 == plan[j as int].0);
                assert(!separate(plan[i as int].1, plan[j as int].1));
                return false;
            }
            proof {
                assert(plan[i as int].1 == x && plan[j as int].1 == y);
                assert(plan[i as int].0 == flat@[i as int].file_id);
                assert(plan[j as int].0 == flat@[j as int].file_id);
            }
            j = j + 1;
        }
        i = i + 1;
    }
    true
}

impl SourceChange {
    /// Bundles `edits`, gathered per file, with the file-system edits.
    pub fn from_edits(edits: Vec<SourceFileEdit>, file_system_edits: Vec<FileSystemEdit>) -> (r:
        SourceChange)
        ensures
            gathered(plan_of(edits@), r.source_file_edits@),
            plan_disjoint(plan_of(edits@)) ==> change_disjoint(r.source_file_edits@),
            r.file_system_edits@ == file_system_edits@,
            !r.is_snippet,
    {
        let flat = flatten(&edits);
        let files = files_in_order(&flat);
        let mut out: Vec<SourceFileEdit> = Vec::new();
        let mut i: usize = 0;
        while i < files.len()
            invariant
                i <= files.len(),
                files@ == file_order(plan_of(edits@)),
                plan_of_flat(flat@) == plan_of(edits@),
                out@.len() == i,
                forall|j: int|
                    0 <= j < i ==> (#[trigger] out@[j]).file_id == files@[j] && indel_pairs(
                        out@[j].edit.indels@,
                    ) == plan_for(plan_of(edits@), out@[j].file_id),
            decreases files.len() - i,
        {
            let indels = collect_for(&flat, files[i]);
            out.push(SourceFileEdit { file_id: files[i], edit: TextEdit { indels } });
            i = i + 1;
        }
        proof {
            if plan_disjoint(plan_of(edits@)) {
                assert forall|k: int| 0 <= k < out@.len() implies pairs_disjoint(
                    indel_pairs(#[trigger] out@[k].edit.indels@),
                ) by {
                    lemma_plan_for_disjoint(plan_of(edits@), out@[k].file_id);
                }
            }
        }
        SourceChange { source_file_edits: out, file_system_edits, is_snippet: false }
    }

    /// Text edits only.
    pub fn from_file_edits(edits: Vec<SourceFileEdit>) -> (r: SourceChange)
        ensures
            gathered(plan_of(edits@), r.source_file_edits@),
            plan_disjoint(plan_of(edits@)) ==> change_disjoint(r.source_file_edits@),
            r.file_system_edits@ == Seq::<FileSystemEdit>::empty(),
            !r.is_snippet,
    {
        SourceChange::from_edits(edits, Vec::new())
    }
}

} // verus!
