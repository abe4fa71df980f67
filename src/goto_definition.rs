//! Go to definition: from the tokens at a cursor to the places that define
//! what the cursor stands on.
use crate::defs::{nav_of, try_to_nav, NameClass, NameRefClass, NavigationTarget, SymbolKind};
use crate::names::same_text;
use crate::text::{FileId, RangeInfo, TextRange};
use either::Either;
use vstd::prelude::*;

verus! {

/// Relies on either::Either being the two-case enum `Left(L)` / `Right(R)`
/// with public fields, so that verified code can match on it.
#[verifier::external_type_specification]
#[verifier::reject_recursive_types(L)]
#[verifier::reject_recursive_types(R)]
pub struct ExEither<L, R>(Either<L, R>);

/// The kind of a token, as far as picking one at a cursor is concerned.
#[derive(Clone, Copy, Debug, PartialEq, Eq, Structural)]
pub enum CursorTokenKind {
    Ident,
    IntNumber,
    LifetimeIdent,
    SelfKw,
    Whitespace,
    Comment,
    Other,
}

/// How much a token at the cursor is worth navigating from: names, numbers,
/// lifetimes and `self` first, trivia last.
pub open spec fn priority(k: CursorTokenKind) -> int {
    match k {
        CursorTokenKind::Ident | CursorTokenKind::IntNumber | CursorTokenKind::LifetimeIdent | CursorTokenKind::SelfKw => 2,
        CursorTokenKind::Whitespace | CursorTokenKind::Comment => 0,
        CursorTokenKind::Other => 1,
    }
}

fn priority_of(k: CursorTokenKind) -> (r: u8)
    ensures
        r as int == priority(k),
{
    match k {
        CursorTokenKind::Ident | CursorTokenKind::IntNumber | CursorTokenKind::LifetimeIdent | CursorTokenKind::SelfKw => 2,
        CursorTokenKind::Whitespace | CursorTokenKind::Comment => 0,
        CursorTokenKind::Other => 1,
    }
}

/// A name reference: its text and what the semantic model makes of it.
#[derive(Debug)]
pub struct NameRefNode {
    pub text: String,
    pub class: Option<NameRefClass>,
}

/// A lifetime: its text, and what it is as a definition and as a reference.
#[derive(Debug)]
pub struct LifetimeNode {
    pub text: String,
    pub name_class: Option<NameClass>,
    pub ref_class: Option<NameRefClass>,
}

/// A `self` parameter.
#[derive(Debug)]
pub struct SelfParamNode {
    /// The whole parameter.
    pub range: TextRange,
    /// Its `self` token.
    pub self_token: Option<TextRange>,
}

/// A path segment.
#[derive(Debug)]
pub struct PathSegmentNode {
    /// The segment is the `self` keyword.
    pub has_self_token: bool,
    /// The path has a qualifier.
    pub has_qualifier: bool,
    /// Whether the path's parent is a path expression; `None` where the path
    /// has no parent.
    pub parent_is_path_expr: Option<bool>,
    /// The nearest function around the segment, with its `self` parameter.
    pub enclosing_fn: Option<Option<SelfParamNode>>,
}

/// The parent of a token, after descending into macros.
#[derive(Debug)]
pub enum TokenParent {
    NameRef(NameRefNode),
    Name(Option<NameClass>),
    SelfParam(SelfParamNode),
    PathSegment(PathSegmentNode),
    Lifetime(LifetimeNode),
    Other,
}

/// A token at the cursor: its kind, its range, and the parent of the token
/// that carries its meaning once macros are descended into.
#[derive(Debug)]
pub struct LocatedToken {
    pub kind: CursorTokenKind,
    pub range: TextRange,
    pub parent: TokenParent,
}

/// `i` is the token picked among `tokens`: none ranks higher, and every
/// earlier one ranks lower.
pub open spec fn is_best(tokens: Seq<LocatedToken>, i: int) -> bool {
    &&& 0 <= i < tokens.len()
    &&& forall|j: int|
        0 <= j < tokens.len() ==> priority(#[trigger] tokens[j].kind) <= priority(tokens[i].kind)
    &&& forall|j: int| 0 <= j < i ==> priority(#[trigger] tokens[j].kind) < priority(tokens[i].kind)
}

pub open spec fn best_index(tokens: Seq<LocatedToken>) -> Option<int> {
    if exists|i: int| is_best(tokens, i) {
        Some(choose|i: int| is_best(tokens, i))
    } else {
        None
    }
}

proof fn lemma_best_unique(tokens: Seq<LocatedToken>, i: int, k: int)
    requires
        is_best(tokens, i),
        is_best(tokens, k),
    ensures
        i == k,
{
    if i < k {
        assert(priority(tokens[i].kind) < priority(tokens[k].kind));
        assert(priority(tokens[k].kind) <= priority(tokens[i].kind));
    }
    if k < i {
        assert(priority(tokens[k].kind) < priority(tokens[i].kind));
        assert(priority(tokens[i].kind) <= priority(tokens[k].kind));
    }
}

/// Picks the token at the cursor to navigate from: the first of those that
/// rank highest; `None` where there is no token.
pub fn pick_best(tokens: &Vec<LocatedToken>) -> (r: Option<usize>)
    ensures
        match r {
            Some(i) => best_index(tokens@) == Some(i as int),
            None => best_index(tokens@) is None && tokens@.len() == 0,
        },
{
    if tokens.len() == 0 {
        return None;
    }
    let mut best: usize = 0;
    let mut best_priority = priority_of(tokens[0].kind);
    let mut i: usize = 1;
    while i < tokens.len()
        invariant
            1 <= i <= tokens.len(),
            best < i,
            best_priority as int == priority(tokens@[best as int].kind),
            forall|j: int| 0 <= j < i ==> priority(#[trigger] tokens@[j].kind) <= best_priority,
            forall|j: int| 0 <= j < best ==> priority(#[trigger] tokens@[j].kind) < best_priority,
        decreases tokens.len() - i,
    {
        let p = priority_of(tokens[i].kind);
        if p > best_priority {
            best = i;
            best_priority = p;
        }
        i = i + 1;
    }
    assert(is_best(tokens@, best as int));
    proof {
        let k = choose|k: int| is_best(tokens@, k);
        lemma_best_unique(tokens@, best as int, k);
    }
    Some(best)
}

/// `nav` points at the `self` token of parameter `p` in `file`.
pub open spec fn is_self_nav(nav: NavigationTarget, p: SelfParamNode, file: FileId) -> bool {
    &&& p.self_token is Some
    &&& nav.file_id == file
    &&& nav.full_range == p.range
    &&& nav.focus_range == p.self_token
    &&& nav.name@ == "self"@
    &&& nav.kind == Some(SymbolKind::SelfParam)
    &&& nav.container_name is None
    &&& nav.description is None
    &&& nav.docs is None
}

/// The navigation target of a `self` parameter: the whole parameter, focused
/// on its `self` token.
pub fn self_to_nav_target(self_param: &SelfParamNode, file_id: FileId) -> (r: Option<
    NavigationTarget,
>)
    ensures
        match r {
            Some(nav) => is_self_nav(nav, *self_param, file_id),
            None => self_param.self_token is None,
        },
{
    let self_token = match self_param.self_token {
        Some(t) => t,
        None => return None,
    };
    Some(
        NavigationTarget {
            file_id,
            full_range: self_param.range,
            focus_range: Some(self_token),
            name: String::from_str("self"),
            kind: Some(SymbolKind::SelfParam),
            container_name: None,
            description: None,
            docs: None,
        },
    )
}

/// One entry of the project-wide symbol index.
#[derive(Debug)]
pub struct IndexedSymbol {
    pub name: String,
    pub nav: NavigationTarget,
}

/// The project-wide symbol index, in its iteration order.
#[derive(Debug)]
pub struct SymbolIndex {
    pub symbols: Vec<IndexedSymbol>,
}

/// The targets of the indexed symbols named exactly `name`, in index order.
pub open spec fn index_matches(symbols: Seq<IndexedSymbol>, name: Seq<char>) -> Seq<
    NavigationTarget,
>
    decreases symbols.len(),
{
    if symbols.len() == 0 {
        Seq::empty()
    } else if symbols.last().name@ == name {
        index_matches(symbols.drop_last(), name).push(symbols.last().nav)
    } else {
        index_matches(symbols.drop_last(), name)
    }
}

impl SymbolIndex {
    /// The targets of every indexed symbol named exactly `name`.
    pub fn index_resolve(&self, name: &str) -> (r: Vec<NavigationTarget>)
        ensures
            r@ == index_matches(self.symbols@, name@),
    {
        let mut out: Vec<NavigationTarget> = Vec::new();
        let mut i: usize = 0;
        while i < self.symbols.len()
            invariant
                i <= self.symbols.len(),
                out@ == index_matches(self.symbols@.subrange(0, i as int), name@),
            decreases self.symbols.len() - i,
        {
            assert(self.symbols@.subrange(0, i + 1).drop_last() =~= self.symbols@.subrange(
                0,
                i as int,
            ));
            if same_text(self.symbols[i].name.as_str(), name) {
                out.push(self.symbols[i].nav.duplicate());
            }
            i = i + 1;
        }
        assert(self.symbols@.subrange(0, self.symbols.len() as int) == self.symbols@);
        out
    }
}

/// What a reference resolves to.
#[derive(Debug)]
pub enum ReferenceResult {
    /// The semantic model resolved it to a definition with a location.
    Exact(NavigationTarget),
    /// The semantic model resolved it to a definition with no location.
    Unnavigable,
    /// The semantic model did not resolve it: the symbols of the index that
    /// share its name.
    Approximate(Vec<NavigationTarget>),
}

impl ReferenceResult {
    pub open spec fn targets(self) -> Seq<NavigationTarget> {
        match self {
            ReferenceResult::Exact(nav) => seq![nav],
            ReferenceResult::Unnavigable => Seq::empty(),
            ReferenceResult::Approximate(navs) => navs@,
        }
    }

    /// The targets, as a list.
    pub fn to_vec(self) -> (r: Vec<NavigationTarget>)
        ensures
            r@ == self.targets(),
    {
        match self {
            ReferenceResult::Exact(nav) => {
                let mut v: Vec<NavigationTarget> = Vec::new();
                v.push(nav);
                assert(v@ =~= seq![nav]);
                v
            },
            ReferenceResult::Unnavigable => Vec::new(),
            ReferenceResult::Approximate(navs) => navs,
        }
    }
}

/// `r` is what a reference with class `class` and text `text` resolves to:
/// the definition the semantic model gives, or else the symbols of the index
/// named `text`.
pub open spec fn resolves(
    class: Option<NameRefClass>,
    text: Seq<char>,
    index: SymbolIndex,
    r: ReferenceResult,
) -> bool {
    match class {
        Some(c) => match nav_of(c.referenced_spec()) {
            Some(nav) => r == ReferenceResult::Exact(nav),
            None => r is Unnavigable,
        },
        None => r is Approximate && r->Approximate_0@ == index_matches(index.symbols@, text),
    }
}

/// The class and text of a lifetime or name reference.
pub open spec fn ref_parts(node: Either<LifetimeNode, NameRefNode>) -> (
    Option<NameRefClass>,
    Seq<char>,
) {
    match node {
        Either::Left(lt) => (lt.ref_class, lt.text@),
        Either::Right(nr) => (nr.class, nr.text@),
    }
}

/// Resolves a lifetime or a name reference.
pub fn reference_definition(name_ref: Either<LifetimeNode, NameRefNode>, index: &SymbolIndex) -> (r:
    ReferenceResult)
    ensures
        resolves(ref_parts(name_ref).0, ref_parts(name_ref).1, *index, r),
{
    let (class, text) = match name_ref {
        Either::Left(lt) => (lt.ref_class, lt.text),
        Either::Right(nr) => (nr.class, nr.text),
    };
    match class {
        Some(c) => {
            let def = c.referenced();
            match try_to_nav(def) {
                Some(nav) => ReferenceResult::Exact(nav),
                None => ReferenceResult::Unnavigable,
            }
        },
        None => ReferenceResult::Approximate(index.index_resolve(text.as_str())),
    }
}

/// `v` holds the navigation target of `self` parameter `p`, if it has a
/// `self` token.
pub open spec fn self_targets(p: SelfParamNode, file: FileId, v: Option<Seq<NavigationTarget>>) -> bool {
    match p.self_token {
        None => v is None,
        Some(_) => v is Some && v->Some_0.len() == 1 && is_self_nav(v->Some_0[0], p, file),
    }
}

/// `v` holds the definition named at a definition site of class `class`.
pub open spec fn defined_targets(class: Option<NameClass>, v: Option<Seq<NavigationTarget>>) -> bool {
    match class {
        None => v is None,
        Some(c) => match nav_of(c.referenced_or_defined_spec()) {
            None => v is None,
            Some(nav) => v == Some(seq![nav]),
        },
    }
}

/// `v` holds the targets reached from a token whose parent is `parent`;
/// `None` where navigation finds nothing.
pub open spec fn targets_for(
    file: FileId,
    parent: TokenParent,
    index: SymbolIndex,
    v: Option<Seq<NavigationTarget>>,
) -> bool {
    match parent {
        TokenParent::NameRef(n) => exists|res: ReferenceResult|
            resolves(n.class, n.text@, index, res) && v == Some(res.targets()),
        TokenParent::Name(class) => defined_targets(class, v),
        TokenParent::SelfParam(p) => self_targets(p, file, v),
        TokenParent::PathSegment(seg) => if !seg.has_self_token || (seg.has_qualifier
            && seg.parent_is_path_expr != Some(true)) {
            v is None
        } else {
            match seg.enclosing_fn {
                Some(Some(p)) => self_targets(p, file, v),
                _ => v is None,
            }
        },
        TokenParent::Lifetime(lt) => match lt.name_class {
            Some(_) => defined_targets(lt.name_class, v),
            None => exists|res: ReferenceResult|
                resolves(lt.ref_class, lt.text@, index, res) && v == Some(res.targets()),
        },
        TokenParent::Other => v is None,
    }
}

/// The outcome of go to definition over the tokens at the cursor.
pub open spec fn goto_result(
    file: FileId,
    tokens: Seq<LocatedToken>,
    index: SymbolIndex,
    r: Option<RangeInfo<Vec<NavigationTarget>>>,
) -> bool {
    match best_index(tokens) {
        None => r is None,
        Some(i) => {
            &&& targets_for(
                file,
                tokens[i].parent,
                index,
                match r {
                    Some(info) => Some(info.info@),
                    None => None,
                },
            )
            &&& r is Some ==> r->Some_0.range == tokens[i].range
        },
    }
}

fn one_target(nav: NavigationTarget) -> (r: Vec<NavigationTarget>)
    ensures
        r@ == seq![nav],
{
    let mut v: Vec<NavigationTarget> = Vec::new();
    v.push(nav);
    assert(v@ =~= seq![nav]);
    v
}

fn defined_at(class: Option<NameClass>) -> (r: Option<Vec<NavigationTarget>>)
    ensures
        defined_targets(
            class,
            match r {
                Some(v) => Some(v@),
                None => None,
            },
        ),
{
    match class {
        None => None,
        Some(c) => match try_to_nav(c.referenced_or_defined()) {
            None => None,
            Some(nav) => Some(one_target(nav)),
        },
    }
}

fn self_param_targets(p: &SelfParamNode, file_id: FileId) -> (r: Option<Vec<NavigationTarget>>)
    ensures
        self_targets(
            *p,
            file_id,
            match r {
                Some(v) => Some(v@),
                None => None,
            },
        ),
{
    match self_to_nav_target(p, file_id) {
        None => None,
        Some(nav) => Some(one_target(nav)),
    }
}

/// Navigates from the tokens at a cursor in `file_id` to the definitions of
/// what the best of them stands for. The result's range is that token's.
pub fn goto_definition(file_id: FileId, tokens: Vec<LocatedToken>, index: &SymbolIndex) -> (r:
    Option<RangeInfo<Vec<NavigationTarget>>>)
    ensures
        goto_result(file_id, tokens@, *index, r),
{
    let i = match pick_best(&tokens) {
        Some(i) => i,
        None => return None,
    };
    let ghost picked = tokens@[i as int];
    let mut tokens = tokens;
    let token = tokens.remove(i);
    assert(token == picked);
    let range = token.range;
    let targets = match token.parent {
        TokenParent::NameRef(n) => {
            let res = reference_definition(Either::Right(n), index);
            let ghost res_spec = res;
            let v = res.to_vec();
            assert(v@ == res_spec.targets());
            Some(v)
        },
        TokenParent::Name(class) => defined_at(class),
        TokenParent::SelfParam(p) => self_param_targets(&p, file_id),
        TokenParent::PathSegment(seg) => {
            if !seg.has_self_token {
                None
            } else if seg.has_qualifier && !matches!(seg.parent_is_path_expr, Some(true)) {
                None
            } else {
                match &seg.enclosing_fn {
                    Some(Some(p)) => self_param_targets(p, file_id),
                    _ => None,
                }
            }
        },
        TokenParent::Lifetime(lt) => match lt.name_class {
            Some(nc) => defined_at(Some(nc)),
            None => {
                let node = LifetimeNode { text: lt.text, name_class: None, ref_class: lt.ref_class };
                let res = reference_definition(Either::Left(node), index);
                let ghost res_spec = res;
                let v = res.to_vec();
                assert(v@ == res_spec.targets());
                Some(v)
            },
        },
        TokenParent::Other => None,
    };
    match targets {
        Some(v) => Some(RangeInfo::new(range, v)),
        None => None,
    }
}

} // verus!
