//! Ordered, recursively nested activity catalog: identity validation and the
//! per-pane projection that activity bars and palettes render.

use vstd::prelude::*;

use crate::activity_bar::id_views;
use crate::ids::{same_text, ActivityId, CategoryId};
use crate::text::{debug_quote, debug_quoted};

verus! {

/// A selectable activity as one pane sees it.
///
/// `visible` is the verdict of the activity's filter on that pane's current
/// data; the host evaluates the filter before asking for a projection.
#[derive(Clone, Debug)]
pub struct Activity {
    /// Stable identity used by selection, chrome, and cache keys.
    pub id: ActivityId,
    /// Human-readable label presented by host navigation.
    pub name: String,
    /// Whether the activity's filter accepts the pane's current data.
    pub visible: bool,
}

/// A named, recursively nestable group of activities.
#[derive(Debug)]
pub struct ActivityCategory<C> {
    /// Stable identity used by validation, chrome, and active ancestry.
    pub id: CategoryId,
    /// Human-readable label presented by host navigation.
    pub name: String,
    /// Category color, used unless catalog chrome overrides it.
    pub color: C,
    /// Ordered activities and nested categories in this group.
    pub children: Vec<ActivityNode<C>>,
}

/// A node in the recursive activity information architecture.
#[derive(Debug)]
pub enum ActivityNode<C> {
    /// A selectable leaf activity.
    Activity(Activity),
    /// A nested category whose children are projected recursively.
    Category(ActivityCategory<C>),
}

impl Activity {
    /// Define an activity, visible until a filter verdict says otherwise.
    pub fn new(id: ActivityId, name: &str) -> (r: Self)
        ensures
            r.id@ == id@,
            r.name@ == name@,
            r.visible,
    {
        Activity { id, name: String::from_str(name), visible: true }
    }

    /// Record the filter's verdict for the pane being projected.
    pub fn with_visible(self, visible: bool) -> (r: Self)
        ensures
            r.id@ == self.id@,
            r.name@ == self.name@,
            r.visible == visible,
    {
        Activity { visible, ..self }
    }
}

impl<C> ActivityCategory<C> {
    /// Define a recursive activity category.
    pub fn new(id: CategoryId, name: &str, color: C, children: Vec<ActivityNode<C>>) -> (r: Self)
        ensures
            r.id@ == id@,
            r.name@ == name@,
            r.color == color,
            r.children@ == children@,
    {
        ActivityCategory { id, name: String::from_str(name), color, children }
    }
}

/// Top-level placement group containing a catalog node.
#[derive(Clone, Copy, Debug, PartialEq, Eq, Structural)]
pub enum ActivityCatalogGroup {
    /// Leading group, following the configured activity-bar direction.
    Primary,
    /// Group anchored at the opposite end of the bar.
    Trailing,
}

// ------------------------------------------------------------------ identity walk

/// The identities met by a pre-order walk of one node: `(true, id)` for an
/// activity and `(false, id)` for a category, a category before its children.
pub open spec fn node_visits<C>(n: ActivityNode<C>) -> Seq<(bool, Seq<char>)>
    decreases n,
{
    match n {
        ActivityNode::Activity(a) => seq![(true, a.id@)],
        ActivityNode::Category(c) => seq![(false, c.id@)] + nodes_visits(c.children@),
    }
}

/// The pre-order identity walk of a node list, in list order.
pub open spec fn nodes_visits<C>(s: Seq<ActivityNode<C>>) -> Seq<(bool, Seq<char>)>
    decreases s,
{
    if s.len() == 0 {
        Seq::empty()
    } else {
        nodes_visits(s.drop_last()) + node_visits(s.last())
    }
}


/// The identities of one kind (`true` for activities) in a walk, in walk order.
pub open spec fn visit_ids(v: Seq<(bool, Seq<char>)>, activity: bool) -> Seq<Seq<char>>
    decreases v.len(),
{
    if v.len() == 0 {
        Seq::empty()
    } else if v.last().0 == activity {
        visit_ids(v.drop_last(), activity).push(v.last().1)
    } else {
        visit_ids(v.drop_last(), activity)
    }
}

/// Whether visit `e` repeats an identity of its own kind among `acts`/`cats`.
pub open spec fn repeats(acts: Seq<Seq<char>>, cats: Seq<Seq<char>>, e: (bool, Seq<char>)) -> bool {
    if e.0 {
        acts.contains(e.1)
    } else {
        cats.contains(e.1)
    }
}

/// The first visit of `v`, in walk order, whose identity was already seen,
/// where `acts` and `cats` are the identities seen before `v` began.
/// Activities and categories are separate identity spaces.
pub open spec fn first_repeat(acts: Seq<Seq<char>>, cats: Seq<Seq<char>>, v: Seq<(bool, Seq<char>)>) -> Option<
    (bool, Seq<char>),
>
    decreases v.len(),
{
    if v.len() == 0 {
        None
    } else {
        match first_repeat(acts, cats, v.drop_last()) {
            Some(e) => Some(e),
            None => if repeats(
                acts + visit_ids(v.drop_last(), true),
                cats + visit_ids(v.drop_last(), false),
                v.last(),
            ) {
                Some(v.last())
            } else {
                None
            },
        }
    }
}

pub open spec fn activity_id_views(v: Seq<ActivityId>) -> Seq<Seq<char>> {
    v.map_values(|a: ActivityId| a@)
}

proof fn lemma_nodes_visits_push<C>(s: Seq<ActivityNode<C>>, n: ActivityNode<C>)
    ensures
        nodes_visits(s.push(n)) == nodes_visits(s) + node_visits(n),
{
    assert(s.push(n).drop_last() =~= s);
}

proof fn lemma_visit_ids_concat(v: Seq<(bool, Seq<char>)>, w: Seq<(bool, Seq<char>)>, activity: bool)
    ensures
        visit_ids(v + w, activity) == visit_ids(v, activity) + visit_ids(w, activity),
    decreases w.len(),
{
    if w.len() == 0 {
        assert(v + w =~= v);
        assert(visit_ids(v, activity) + visit_ids(w, activity) =~= visit_ids(v, activity));
    } else {
        assert((v + w).drop_last() =~= v + w.drop_last());
        lemma_visit_ids_concat(v, w.drop_last(), activity);
        if w.last().0 == activity {
            assert(visit_ids(v, activity) + visit_ids(w, activity) =~= (visit_ids(v, activity)
                + visit_ids(w.drop_last(), activity)).push(w.last().1));
        }
    }
}

proof fn lemma_first_repeat_concat(
    acts: Seq<Seq<char>>,
    cats: Seq<Seq<char>>,
    v: Seq<(bool, Seq<char>)>,
    w: Seq<(bool, Seq<char>)>,
)
    ensures
        first_repeat(acts, cats, v + w) == (match first_repeat(acts, cats, v) {
            Some(e) => Some(e),
            None => first_repeat(acts + visit_ids(v, true), cats + visit_ids(v, false), w),
        }),
    decreases w.len(),
{
    if w.len() == 0 {
        assert(v + w =~= v);
    } else {
        assert((v + w).drop_last() =~= v + w.drop_last());
        lemma_first_repeat_concat(acts, cats, v, w.drop_last());
        lemma_visit_ids_concat(v, w.drop_last(), true);
        lemma_visit_ids_concat(v, w.drop_last(), false);
        assert(acts + visit_ids(v + w.drop_last(), true) =~= acts + visit_ids(v, true) + visit_ids(
            w.drop_last(),
            true,
        ));
        assert(cats + visit_ids(v + w.drop_last(), false) =~= cats + visit_ids(v, false) + visit_ids(
            w.drop_last(),
            false,
        ));
    }
}

/// The single-visit step of `first_repeat`.
proof fn lemma_first_repeat_push(
    acts: Seq<Seq<char>>,
    cats: Seq<Seq<char>>,
    v: Seq<(bool, Seq<char>)>,
    e: (bool, Seq<char>),
)
    ensures
        first_repeat(acts, cats, v.push(e)) == (match first_repeat(acts, cats, v) {
            Some(x) => Some(x),
            None => if repeats(acts + visit_ids(v, true), cats + visit_ids(v, false), e) {
                Some(e)
            } else {
                None
            },
        }),
        visit_ids(v.push(e), true) == if e.0 {
            visit_ids(v, true).push(e.1)
        } else {
            visit_ids(v, true)
        },
        visit_ids(v.push(e), false) == if e.0 {
            visit_ids(v, false)
        } else {
            visit_ids(v, false).push(e.1)
        },
{
    assert(v.push(e).drop_last() =~= v);
}

/// A validation failure with its identities taken as strings.
pub enum CatalogFault {
    DuplicateActivityId(Seq<char>, ActivityCatalogGroup),
    DuplicateCategoryId(Seq<char>, ActivityCatalogGroup),
    MissingActivityChromeKey(Seq<char>),
    MissingCategoryChromeKey(Seq<char>),
}

/// The failure reported for repeated visit `x` found in `group`.
pub open spec fn repeat_fault(x: (bool, Seq<char>), group: ActivityCatalogGroup) -> CatalogFault {
    if x.0 {
        CatalogFault::DuplicateActivityId(x.1, group)
    } else {
        CatalogFault::DuplicateCategoryId(x.1, group)
    }
}

/// Stable-identity or chrome-reference validation failure.
#[derive(Clone, Debug, PartialEq, Eq)]
pub enum ActivityCatalogValidationError {
    /// An activity id occurs more than once across the recursive catalog.
    DuplicateActivityId {
        /// Repeated stable activity identity.
        activity_id: ActivityId,
        /// Top-level group containing the later occurrence.
        duplicate_group: ActivityCatalogGroup,
    },
    /// A category id occurs more than once across the recursive catalog.
    DuplicateCategoryId {
        /// Repeated stable category identity.
        category_id: CategoryId,
        /// Top-level group containing the later occurrence.
        duplicate_group: ActivityCatalogGroup,
    },
    /// An activity chrome key has no corresponding registered activity.
    MissingActivityChromeKey {
        /// Chrome key without a corresponding activity node.
        activity_id: ActivityId,
    },
    /// A category chrome key has no corresponding registered category.
    MissingCategoryChromeKey {
        /// Chrome key without a corresponding category node.
        category_id: CategoryId,
    },
}

impl View for ActivityCatalogValidationError {
    type V = CatalogFault;

    open spec fn view(&self) -> CatalogFault {
        match self {
            ActivityCatalogValidationError::DuplicateActivityId { activity_id, duplicate_group } =>
                CatalogFault::DuplicateActivityId(activity_id@, *duplicate_group),
            ActivityCatalogValidationError::DuplicateCategoryId { category_id, duplicate_group } =>
                CatalogFault::DuplicateCategoryId(category_id@, *duplicate_group),
            ActivityCatalogValidationError::MissingActivityChromeKey { activity_id } =>
                CatalogFault::MissingActivityChromeKey(activity_id@),
            ActivityCatalogValidationError::MissingCategoryChromeKey { category_id } =>
                CatalogFault::MissingCategoryChromeKey(category_id@),
        }
    }
}

/// The text of a validation failure.
pub open spec fn fault_message(f: CatalogFault) -> Seq<char> {
    match f {
        CatalogFault::DuplicateActivityId(id, _) => "duplicate activity id "@ + debug_quoted(id),
        CatalogFault::DuplicateCategoryId(id, _) => "duplicate category id "@ + debug_quoted(id),
        CatalogFault::MissingActivityChromeKey(id) => "activity chrome key "@ + debug_quoted(id)
            + " has no registered activity"@,
        CatalogFault::MissingCategoryChromeKey(id) => "category chrome key "@ + debug_quoted(id)
            + " has no registered category"@,
    }
}

impl ActivityCatalogValidationError {
    /// Human-readable description of the failure.
    pub fn message(&self) -> (r: String)
        ensures
            r@ == fault_message(self@),
    {
        match self {
            ActivityCatalogValidationError::DuplicateActivityId { activity_id, .. } => {
                let mut r = String::from_str("duplicate activity id ");
                let q = debug_quote(activity_id.0.as_str());
                r.append(q.as_str());
                r
            },
            ActivityCatalogValidationError::DuplicateCategoryId { category_id, .. } => {
                let mut r = String::from_str("duplicate category id ");
                let q = debug_quote(category_id.0.as_str());
                r.append(q.as_str());
                r
            },
            ActivityCatalogValidationError::MissingActivityChromeKey { activity_id } => {
                let mut r = String::from_str("activity chrome key ");
                let q = debug_quote(activity_id.0.as_str());
                r.append(q.as_str());
                r.append(" has no registered activity");
                r
            },
            ActivityCatalogValidationError::MissingCategoryChromeKey { category_id } => {
                let mut r = String::from_str("category chrome key ");
                let q = debug_quote(category_id.0.as_str());
                r.append(q.as_str());
                r.append(" has no registered category");
                r
            },
        }
    }
}

fn holds_activity(v: &Vec<ActivityId>, id: &ActivityId) -> (r: bool)
    ensures
        r == activity_id_views(v@).contains(id@),
{
    let n = v.len();
    for i in 0..n
        invariant
            n == v@.len(),
            forall|k: int| 0 <= k < i ==> v@[k]@ != id@,
    {
        if same_text(&v[i].0, &id.0) {
            assert(activity_id_views(v@)[i as int] == id@);
            return true;
        }
    }
    assert forall|k: int| 0 <= k < activity_id_views(v@).len() implies activity_id_views(v@)[k] != id@ by {
        assert(v@[k]@ != id@);
    }
    false
}

fn holds_category(v: &Vec<CategoryId>, id: &CategoryId) -> (r: bool)
    ensures
        r == id_views(v@).contains(id@),
{
    let n = v.len();
    for i in 0..n
        invariant
            n == v@.len(),
            forall|k: int| 0 <= k < i ==> v@[k]@ != id@,
    {
        if same_text(&v[i].0, &id.0) {
            assert(id_views(v@)[i as int] == id@);
            return true;
        }
    }
    assert forall|k: int| 0 <= k < id_views(v@).len() implies id_views(v@)[k] != id@ by {
        assert(v@[k]@ != id@);
    }
    false
}

proof fn lemma_nodes_visits_concat<C>(a: Seq<ActivityNode<C>>, b: Seq<ActivityNode<C>>)
    ensures
        nodes_visits(a + b) == nodes_visits(a) + nodes_visits(b),
    decreases b.len(),
{
    if b.len() == 0 {
        assert(a + b =~= a);
        assert(nodes_visits(a) + nodes_visits(b) =~= nodes_visits(a));
    } else {
        assert((a + b).drop_last() =~= a + b.drop_last());
        lemma_nodes_visits_concat(a, b.drop_last());
        assert(nodes_visits(a) + nodes_visits(b) =~= nodes_visits(a) + nodes_visits(b.drop_last())
            + node_visits(b.last()));
    }
}

/// A repeat found in a prefix of a node list is the list's first repeat.
proof fn lemma_prefix_repeat<C>(acts: Seq<Seq<char>>, cats: Seq<Seq<char>>, s: Seq<ActivityNode<C>>, j: int)
    requires
        0 <= j <= s.len(),
        first_repeat(acts, cats, nodes_visits(s.take(j))) is Some,
    ensures
        first_repeat(acts, cats, nodes_visits(s)) == first_repeat(acts, cats, nodes_visits(s.take(j))),
{
    assert(s.take(j) + s.skip(j) =~= s);
    lemma_nodes_visits_concat(s.take(j), s.skip(j));
    lemma_first_repeat_concat(acts, cats, nodes_visits(s.take(j)), nodes_visits(s.skip(j)));
}

#[verifier::spinoff_prover]
fn validate_nodes<C>(
    nodes: &[ActivityNode<C>],
    group: ActivityCatalogGroup,
    acts: &mut Vec<ActivityId>,
    cats: &mut Vec<CategoryId>,
) -> (r: Result<(), ActivityCatalogValidationError>)
    ensures
        match first_repeat(activity_id_views(old(acts)@), id_views(old(cats)@), nodes_visits(nodes@)) {
            None => r is Ok && activity_id_views(final(acts)@) == activity_id_views(old(acts)@)
                + visit_ids(nodes_visits(nodes@), true) && id_views(final(cats)@) == id_views(old(cats)@)
                + visit_ids(nodes_visits(nodes@), false),
            Some(x) => r is Err && r->Err_0@ == repeat_fault(x, group),
        },
    decreases nodes@,
{
    let ghost a0 = activity_id_views(acts@);
    let ghost c0 = id_views(cats@);
    let n = nodes.len();
    assert(nodes@.take(0) =~= Seq::<ActivityNode<C>>::empty());
    for i in 0..n
        invariant
            n == nodes@.len(),
            a0 == activity_id_views(old(acts)@),
            c0 == id_views(old(cats)@),
            first_repeat(a0, c0, nodes_visits(nodes@.take(i as int))) is None,
            activity_id_views(acts@) == a0 + visit_ids(nodes_visits(nodes@.take(i as int)), true),
            id_views(cats@) == c0 + visit_ids(nodes_visits(nodes@.take(i as int)), false),
    {
        let ghost w = nodes_visits(nodes@.take(i as int));
        proof {
            assert(nodes@.take(i as int).push(nodes@[i as int]) =~= nodes@.take((i + 1) as int));
            lemma_nodes_visits_push(nodes@.take(i as int), nodes@[i as int]);
        }
        match &nodes[i] {
            ActivityNode::Activity(a) => {
                let ghost e = (true, a.id@);
                proof {
                    assert(node_visits(nodes@[i as int]) == seq![e]);
                    assert(w + seq![e] =~= w.push(e));
                    lemma_first_repeat_push(a0, c0, w, e);
                }
                if holds_activity(acts, &a.id) {
                    proof {
                        lemma_prefix_repeat(a0, c0, nodes@, i + 1);
                    }
                    return Err(ActivityCatalogValidationError::DuplicateActivityId {
                        activity_id: a.id.duplicate(),
                        duplicate_group: group,
                    });
                }
                let ghost before = acts@;
                acts.push(a.id.duplicate());
                proof {
                    assert(activity_id_views(acts@) =~= activity_id_views(before).push(e.1));
                }
            },
            ActivityNode::Category(c) => {
                let ghost e = (false, c.id@);
                let ghost cv = nodes_visits(c.children@);
                proof {
                    assert(node_visits(nodes@[i as int]) == seq![e] + cv);
                    assert(w + (seq![e] + cv) =~= w.push(e) + cv);
                    lemma_first_repeat_push(a0, c0, w, e);
                    lemma_first_repeat_concat(a0, c0, w.push(e), cv);
                    lemma_visit_ids_concat(w.push(e), cv, true);
                    lemma_visit_ids_concat(w.push(e), cv, false);
                }
                if holds_category(cats, &c.id) {
                    proof {
                        lemma_prefix_repeat(a0, c0, nodes@, i + 1);
                    }
                    return Err(ActivityCatalogValidationError::DuplicateCategoryId {
                        category_id: c.id.duplicate(),
                        duplicate_group: group,
                    });
                }
                let ghost before = cats@;
                cats.push(c.id.duplicate());
                proof {
                    assert(id_views(cats@) =~= id_views(before).push(e.1));
                }
                let ghost a1 = activity_id_views(acts@);
                let ghost c1 = id_views(cats@);
                match validate_nodes(c.children.as_slice(), group, acts, cats) {
                    Ok(()) => {
                        assert(activity_id_views(acts@) =~= a0 + visit_ids(w.push(e) + cv, true));
                        assert(id_views(cats@) =~= c0 + visit_ids(w.push(e) + cv, false));
                    },
                    Err(err) => {
                        proof {
                            lemma_prefix_repeat(a0, c0, nodes@, i + 1);
                        }
                        return Err(err);
                    },
                }
            },
        }
    }
    assert(nodes@.take(n as int) =~= nodes@);
    Ok(())
}

// ------------------------------------------------------------------ projection

/// Additive category chrome: an optional color that replaces the category's own.
#[derive(Clone, Copy, Debug, PartialEq, Eq)]
pub struct CategoryChrome<C> {
    /// Overrides the category's color when present.
    pub color: Option<C>,
}

impl<C> CategoryChrome<C> {
    /// Chrome with no color override.
    pub fn new() -> (r: Self)
        ensures
            r.color is None,
    {
        CategoryChrome { color: None }
    }

    /// Override the category color used by the category and its descendants.
    pub fn with_color(self, color: C) -> (r: Self)
        ensures
            r.color == Some(color),
    {
        CategoryChrome { color: Some(color) }
    }
}

/// Activity leaf retained by a per-pane projection.
pub struct VisibleActivity<C> {
    /// The activity, as registered.
    pub activity: Activity,
    /// The nearest enclosing category color, after chrome overrides.
    pub inherited_color: Option<C>,
}

/// Visible category whose filtered child list is nonempty.
pub struct VisibleCategory<C> {
    /// Stable category identity.
    pub id: CategoryId,
    /// Display label.
    pub name: String,
    /// Effective color after applying catalog chrome overrides.
    pub color: C,
    /// Recursively visible children in source order.
    pub children: Vec<VisibleActivityNode<C>>,
}

/// Visible recursive node produced for one pane's data.
pub enum VisibleActivityNode<C> {
    /// Selectable activity leaf.
    Activity(VisibleActivity<C>),
    /// Nonempty visible category branch.
    Category(VisibleCategory<C>),
}

/// The shape of a visible node: identities, labels, colors, and children.
pub enum VisibleShape<C> {
    Activity { id: Seq<char>, name: Seq<char>, visible: bool, inherited_color: Option<C> },
    Category { id: Seq<char>, name: Seq<char>, color: C, children: Seq<VisibleShape<C>> },
}

pub open spec fn shape_of<C>(n: VisibleActivityNode<C>) -> VisibleShape<C>
    decreases n,
{
    match n {
        VisibleActivityNode::Activity(v) => VisibleShape::Activity {
            id: v.activity.id@,
            name: v.activity.name@,
            visible: v.activity.visible,
            inherited_color: v.inherited_color,
        },
        VisibleActivityNode::Category(c) => VisibleShape::Category {
            id: c.id@,
            name: c.name@,
            color: c.color,
            children: shapes_of(c.children@),
        },
    }
}

pub open spec fn shapes_of<C>(s: Seq<VisibleActivityNode<C>>) -> Seq<VisibleShape<C>>
    decreases s,
{
    if s.len() == 0 {
        Seq::empty()
    } else {
        shapes_of(s.drop_last()).push(shape_of(s.last()))
    }
}

/// Chrome entries as `(category id, color override)`, in registration order.
pub open spec fn chrome_view<C>(v: Seq<(CategoryId, CategoryChrome<C>)>) -> Seq<(Seq<char>, Option<C>)> {
    v.map_values(|e: (CategoryId, CategoryChrome<C>)| (e.0@, e.1.color))
}

/// The color override registered for category `id`, if any.
pub open spec fn chrome_override<C>(ch: Seq<(Seq<char>, Option<C>)>, id: Seq<char>) -> Option<C>
    decreases ch.len(),
{
    if ch.len() == 0 {
        None
    } else if ch[0].0 == id {
        ch[0].1
    } else {
        chrome_override(ch.drop_first(), id)
    }
}

/// A category's color after chrome overrides.
pub open spec fn effective_color<C>(ch: Seq<(Seq<char>, Option<C>)>, id: Seq<char>, own: C) -> C {
    match chrome_override(ch, id) {
        Some(c) => c,
        None => own,
    }
}

/// The visible shape of one node: hidden activities and categories left with
/// no visible descendant disappear; activities inherit their nearest
/// category's effective color.
pub open spec fn projected_node<C>(n: ActivityNode<C>, inherited: Option<C>, ch: Seq<(Seq<char>, Option<C>)>) -> Seq<
    VisibleShape<C>,
>
    decreases n,
{
    match n {
        ActivityNode::Activity(a) => if a.visible {
            seq![VisibleShape::Activity { id: a.id@, name: a.name@, visible: true, inherited_color: inherited }]
        } else {
            Seq::empty()
        },
        ActivityNode::Category(c) => {
            let color = effective_color(ch, c.id@, c.color);
            let kids = projected_nodes(c.children@, Some(color), ch);
            if kids.len() > 0 {
                seq![VisibleShape::Category { id: c.id@, name: c.name@, color: color, children: kids }]
            } else {
                Seq::empty()
            }
        },
    }
}

/// The visible shapes of a node list, in source order.
pub open spec fn projected_nodes<C>(s: Seq<ActivityNode<C>>, inherited: Option<C>, ch: Seq<(Seq<char>, Option<C>)>) -> Seq<
    VisibleShape<C>,
>
    decreases s,
{
    if s.len() == 0 {
        Seq::empty()
    } else {
        projected_nodes(s.drop_last(), inherited, ch) + projected_node(s.last(), inherited, ch)
    }
}

/// The category path of the last visible activity named `active` in a
/// pre-order walk of `n`, where `path` leads to `n`.
pub open spec fn node_active_path<C>(n: ActivityNode<C>, active: Option<Seq<char>>, path: Seq<Seq<char>>) -> Option<
    Seq<Seq<char>>,
>
    decreases n,
{
    match n {
        ActivityNode::Activity(a) => if a.visible && active == Some(a.id@) {
            Some(path)
        } else {
            None
        },
        ActivityNode::Category(c) => nodes_active_path(c.children@, active, path.push(c.id@)),
    }
}

pub open spec fn nodes_active_path<C>(s: Seq<ActivityNode<C>>, active: Option<Seq<char>>, path: Seq<Seq<char>>) -> Option<
    Seq<Seq<char>>,
>
    decreases s,
{
    if s.len() == 0 {
        None
    } else {
        match node_active_path(s.last(), active, path) {
            Some(p) => Some(p),
            None => nodes_active_path(s.drop_last(), active, path),
        }
    }
}

pub open spec fn active_view(active: Option<&ActivityId>) -> Option<Seq<char>> {
    match active {
        Some(a) => Some(a@),
        None => None,
    }
}

proof fn lemma_shapes_len<C>(s: Seq<VisibleActivityNode<C>>)
    ensures
        shapes_of(s).len() == s.len(),
    decreases s.len(),
{
    if s.len() > 0 {
        lemma_shapes_len(s.drop_last());
    }
}

fn copy_path(path: &Vec<CategoryId>) -> (r: Vec<CategoryId>)
    ensures
        id_views(r@) == id_views(path@),
{
    let mut r: Vec<CategoryId> = Vec::new();
    let n = path.len();
    for i in 0..n
        invariant
            n == path@.len(),
            id_views(r@) == id_views(path@).take(i as int),
    {
        let ghost before = r@;
        r.push(path[i].duplicate());
        assert(id_views(r@) =~= id_views(before).push(path@[i as int]@));
        assert(id_views(r@) =~= id_views(path@).take((i + 1) as int));
    }
    assert(id_views(path@).take(n as int) =~= id_views(path@));
    r
}

fn chrome_color<C: Copy>(chrome: &Vec<(CategoryId, CategoryChrome<C>)>, id: &CategoryId) -> (r: Option<C>)
    ensures
        r == chrome_override(chrome_view(chrome@), id@),
{
    let n = chrome.len();
    let ghost ch = chrome_view(chrome@);
    assert(ch.skip(0) =~= ch);
    for i in 0..n
        invariant
            n == chrome@.len(),
            ch == chrome_view(chrome@),
            chrome_override(ch, id@) == chrome_override(ch.skip(i as int), id@),
    {
        assert(ch.skip(i as int).drop_first() =~= ch.skip((i + 1) as int));
        if same_text(&chrome[i].0.0, &id.0) {
            return chrome[i].1.color;
        }
    }
    None
}

fn project_nodes<C: Copy>(
    nodes: &[ActivityNode<C>],
    active: Option<&ActivityId>,
    inherited: Option<C>,
    path: &mut Vec<CategoryId>,
    active_ancestors: &mut Vec<CategoryId>,
    chrome: &Vec<(CategoryId, CategoryChrome<C>)>,
) -> (r: Vec<VisibleActivityNode<C>>)
    ensures
        shapes_of(r@) == projected_nodes(nodes@, inherited, chrome_view(chrome@)),
        final(path)@ == old(path)@,
        id_views(final(active_ancestors)@) == match nodes_active_path(
            nodes@,
            active_view(active),
            id_views(old(path)@),
        ) {
            Some(p) => p,
            None => id_views(old(active_ancestors)@),
        },
    decreases nodes@,
{
    let ghost ch = chrome_view(chrome@);
    let ghost path0 = path@;
    let ghost aa0 = id_views(active_ancestors@);
    let ghost act = active_view(active);
    let mut r: Vec<VisibleActivityNode<C>> = Vec::new();
    let n = nodes.len();
    assert(nodes@.take(0) =~= Seq::<ActivityNode<C>>::empty());
    for i in 0..n
        invariant
            n == nodes@.len(),
            ch == chrome_view(chrome@),
            act == active_view(active),
            path0 == old(path)@,
            aa0 == id_views(old(active_ancestors)@),
            path@ == path0,
            shapes_of(r@) == projected_nodes(nodes@.take(i as int), inherited, ch),
            id_views(active_ancestors@) == match nodes_active_path(
                nodes@.take(i as int),
                act,
                id_views(path0),
            ) {
                Some(p) => p,
                None => aa0,
            },
    {
        let ghost done = nodes@.take(i as int);
        let ghost node = nodes@[i as int];
        proof {
            assert(nodes@.take((i + 1) as int).drop_last() =~= done);
            assert(nodes@.take((i + 1) as int).last() == node);
        }
        let ghost before = r@;
        match &nodes[i] {
            ActivityNode::Activity(a) => {
                if a.visible {
                    let hit = match active {
                        Some(x) => same_text(&x.0, &a.id.0),
                        None => false,
                    };
                    if hit {
                        *active_ancestors = copy_path(path);
                    }
                    assert(nodes_active_path(nodes@.take((i + 1) as int), act, id_views(path0)) == match node_active_path(node, act, id_views(path0)) {
                        Some(p) => Some(p),
                        None => nodes_active_path(done, act, id_views(path0)),
                    });
                    let shown = VisibleActivityNode::Activity(
                        VisibleActivity {
                            activity: Activity {
                                id: a.id.duplicate(),
                                name: a.name.clone(),
                                visible: true,
                            },
                            inherited_color: inherited,
                        },
                    );
                    r.push(shown);
                    proof {
                        assert(r@.drop_last() =~= before);
                        assert(shapes_of(r@) == shapes_of(before).push(shape_of(r@.last())));
                        assert(projected_node(node, inherited, ch) == seq![shape_of(r@.last())]);
                        assert(shapes_of(r@) =~= shapes_of(before) + projected_node(node, inherited, ch));
                    }
                } else {
                    assert(projected_nodes(done, inherited, ch) + projected_node(node, inherited, ch)
                        =~= projected_nodes(done, inherited, ch));
                }
            },
            ActivityNode::Category(c) => {
                let color = match chrome_color(chrome, &c.id) {
                    Some(col) => col,
                    None => c.color,
                };
                let ghost outer = path@;
                path.push(c.id.duplicate());
                proof {
                    assert(id_views(path@) =~= id_views(outer).push(c.id@));
                }
                let children = project_nodes(c.children.as_slice(), active, Some(color), path, active_ancestors, chrome);
                path.pop();
                proof {
                    assert(path@ =~= path0);
                    lemma_shapes_len(children@);
                    assert(node_active_path(node, act, id_views(path0)) == nodes_active_path(
                        c.children@,
                        act,
                        id_views(outer).push(c.id@),
                    ));
                    assert(nodes_active_path(nodes@.take((i + 1) as int), act, id_views(path0)) == match node_active_path(node, act, id_views(path0)) {
                        Some(p) => Some(p),
                        None => nodes_active_path(done, act, id_views(path0)),
                    });
                }
                if children.len() > 0 {
                    let shown = VisibleActivityNode::Category(
                        VisibleCategory { id: c.id.duplicate(), name: c.name.clone(), color: color, children: children },
                    );
                    r.push(shown);
                    proof {
                        assert(r@.drop_last() =~= before);
                        assert(shapes_of(r@) == shapes_of(before).push(shape_of(r@.last())));
                        assert(projected_node(node, inherited, ch) == seq![shape_of(r@.last())]);
                        assert(shapes_of(r@) =~= shapes_of(before) + projected_node(node, inherited, ch));
                    }
                } else {
                    assert(projected_nodes(done, inherited, ch) + projected_node(node, inherited, ch)
                        =~= projected_nodes(done, inherited, ch));
                }
            },
        }
    }
    assert(nodes@.take(n as int) =~= nodes@);
    r
}

// ------------------------------------------------------------------ the catalog

/// Per-pane, recursively filtered projection of an activity catalog.
pub struct ActivityProjection<C> {
    /// Visible leading nodes in catalog order.
    pub primary: Vec<VisibleActivityNode<C>>,
    /// Visible trailing nodes in catalog order.
    pub trailing: Vec<VisibleActivityNode<C>>,
    /// Ancestor categories of the active visible activity, outermost first.
    pub active_ancestors: Vec<CategoryId>,
}

/// Ordered activity information architecture plus additive chrome.
///
/// Chrome is keyed by stable identity; each key is held once, in the order in
/// which it was first registered.
#[derive(Debug)]
pub struct ActivityCatalog<C> {
    primary: Vec<ActivityNode<C>>,
    trailing: Vec<ActivityNode<C>>,
    activity_chrome: Vec<ActivityId>,
    category_chrome: Vec<(CategoryId, CategoryChrome<C>)>,
}

/// `keys` with `id` registered: unchanged if already present, else appended.
pub open spec fn with_key(keys: Seq<Seq<char>>, id: Seq<char>) -> Seq<Seq<char>> {
    if keys.contains(id) {
        keys
    } else {
        keys.push(id)
    }
}

/// `ch` with the entry for `id` set to `color`, in place if `id` is present,
/// else appended.
pub open spec fn with_entry<C>(ch: Seq<(Seq<char>, Option<C>)>, id: Seq<char>, color: Option<C>) -> Seq<
    (Seq<char>, Option<C>),
>
    decreases ch.len(),
{
    if ch.len() == 0 {
        seq![(id, color)]
    } else if ch[0].0 == id {
        ch.update(0, (id, color))
    } else {
        seq![ch[0]] + with_entry(ch.drop_first(), id, color)
    }
}

/// The entry registered for `id`, if any.
pub open spec fn entry_for<C>(ch: Seq<(Seq<char>, Option<C>)>, id: Seq<char>) -> Option<Option<C>>
    decreases ch.len(),
{
    if ch.len() == 0 {
        None
    } else if ch[0].0 == id {
        Some(ch[0].1)
    } else {
        entry_for(ch.drop_first(), id)
    }
}

/// The first key, in order, that is not among `known`.
pub open spec fn first_missing(keys: Seq<Seq<char>>, known: Seq<Seq<char>>) -> Option<Seq<char>>
    decreases keys.len(),
{
    if keys.len() == 0 {
        None
    } else if !known.contains(keys[0]) {
        Some(keys[0])
    } else {
        first_missing(keys.drop_first(), known)
    }
}

/// The first repeated identity of a catalog, walking the leading group and
/// then the trailing group, tagged with the group where it occurs.
pub open spec fn identity_fault<C>(primary: Seq<ActivityNode<C>>, trailing: Seq<ActivityNode<C>>) -> Option<
    CatalogFault,
> {
    let pv = nodes_visits(primary);
    match first_repeat(Seq::empty(), Seq::empty(), pv) {
        Some(x) => Some(repeat_fault(x, ActivityCatalogGroup::Primary)),
        None => match first_repeat(visit_ids(pv, true), visit_ids(pv, false), nodes_visits(trailing)) {
            Some(x) => Some(repeat_fault(x, ActivityCatalogGroup::Trailing)),
            None => None,
        },
    }
}

/// The outcome of validating a catalog. Repeated identities are reported
/// before unregistered activity chrome keys, and those before unregistered
/// category chrome keys.
pub open spec fn catalog_verdict<C>(
    primary: Seq<ActivityNode<C>>,
    trailing: Seq<ActivityNode<C>>,
    activity_keys: Seq<Seq<char>>,
    category_keys: Seq<Seq<char>>,
) -> Result<(), CatalogFault> {
    match identity_fault(primary, trailing) {
        Some(f) => Err(f),
        None => {
            let all = nodes_visits(primary) + nodes_visits(trailing);
            match first_missing(activity_keys, visit_ids(all, true)) {
                Some(k) => Err(CatalogFault::MissingActivityChromeKey(k)),
                None => match first_missing(category_keys, visit_ids(all, false)) {
                    Some(k) => Err(CatalogFault::MissingCategoryChromeKey(k)),
                    None => Ok(()),
                },
            }
        },
    }
}

impl<C> ActivityCatalog<C> {
    /// The leading group's nodes.
    pub closed spec fn primary_nodes(&self) -> Seq<ActivityNode<C>> {
        self.primary@
    }

    /// The trailing group's nodes.
    pub closed spec fn trailing_nodes(&self) -> Seq<ActivityNode<C>> {
        self.trailing@
    }

    /// Activity ids that carry chrome, in registration order.
    pub closed spec fn activity_chrome_keys(&self) -> Seq<Seq<char>> {
        activity_id_views(self.activity_chrome@)
    }

    /// Category chrome entries, in registration order.
    pub closed spec fn category_chrome_entries(&self) -> Seq<(Seq<char>, Option<C>)> {
        chrome_view(self.category_chrome@)
    }

    /// The catalog's validation verdict.
    pub open spec fn verdict(&self) -> Result<(), CatalogFault> {
        catalog_verdict(
            self.primary_nodes(),
            self.trailing_nodes(),
            self.activity_chrome_keys(),
            self.category_chrome_entries().map_values(|e: (Seq<char>, Option<C>)| e.0),
        )
    }

    /// Construct a catalog whose nodes occupy the leading group.
    pub fn new(primary: Vec<ActivityNode<C>>) -> (r: Self)
        ensures
            r.primary_nodes() == primary@,
            r.trailing_nodes() == Seq::<ActivityNode<C>>::empty(),
            r.activity_chrome_keys() == Seq::<Seq<char>>::empty(),
            r.category_chrome_entries() == Seq::<(Seq<char>, Option<C>)>::empty(),
    {
        let r = ActivityCatalog {
            primary,
            trailing: Vec::new(),
            activity_chrome: Vec::new(),
            category_chrome: Vec::new(),
        };
        assert(r.activity_chrome_keys() =~= Seq::<Seq<char>>::empty());
        assert(r.category_chrome_entries() =~= Seq::<(Seq<char>, Option<C>)>::empty());
        r
    }

    /// Set nodes anchored at the trailing end of the activity bar.
    pub fn with_trailing(self, trailing: Vec<ActivityNode<C>>) -> (r: Self)
        ensures
            r.primary_nodes() == self.primary_nodes(),
            r.trailing_nodes() == trailing@,
            r.activity_chrome_keys() == self.activity_chrome_keys(),
            r.category_chrome_entries() == self.category_chrome_entries(),
    {
        ActivityCatalog { trailing, ..self }
    }

    /// Register chrome for an activity id, returning whether it already had chrome.
    pub fn insert_activity_chrome(&mut self, id: ActivityId) -> (r: bool)
        ensures
            r == old(self).activity_chrome_keys().contains(id@),
            final(self).activity_chrome_keys() == with_key(old(self).activity_chrome_keys(), id@),
            final(self).primary_nodes() == old(self).primary_nodes(),
            final(self).trailing_nodes() == old(self).trailing_nodes(),
            final(self).category_chrome_entries() == old(self).category_chrome_entries(),
    {
        if holds_activity(&self.activity_chrome, &id) {
            true
        } else {
            let ghost before = self.activity_chrome@;
            let ghost key = id@;
            self.activity_chrome.push(id);
            assert(activity_id_views(self.activity_chrome@) =~= activity_id_views(before).push(key));
            false
        }
    }

    /// Register chrome for an activity id and return the catalog.
    pub fn with_activity_chrome(self, id: ActivityId) -> (r: Self)
        ensures
            r.activity_chrome_keys() == with_key(self.activity_chrome_keys(), id@),
            r.primary_nodes() == self.primary_nodes(),
            r.trailing_nodes() == self.trailing_nodes(),
            r.category_chrome_entries() == self.category_chrome_entries(),
    {
        let mut r = self;
        r.insert_activity_chrome(id);
        r
    }

    /// Whether chrome is registered for an activity id.
    pub fn activity_chrome(&self, id: &ActivityId) -> (r: bool)
        ensures
            r == self.activity_chrome_keys().contains(id@),
    {
        holds_activity(&self.activity_chrome, id)
    }
}

impl<C: Copy> ActivityCatalog<C> {
    /// Set the chrome of a category id, returning the entry it replaces.
    pub fn insert_category_chrome(&mut self, id: CategoryId, chrome: CategoryChrome<C>) -> (r: Option<
        CategoryChrome<C>,
    >)
        ensures
            r matches Some(c) ==> entry_for(old(self).category_chrome_entries(), id@) == Some(c.color),
            r is None ==> entry_for(old(self).category_chrome_entries(), id@) is None,
            final(self).category_chrome_entries() == with_entry(
                old(self).category_chrome_entries(),
                id@,
                chrome.color,
            ),
            final(self).primary_nodes() == old(self).primary_nodes(),
            final(self).trailing_nodes() == old(self).trailing_nodes(),
            final(self).activity_chrome_keys() == old(self).activity_chrome_keys(),
    {
        let ghost ch = chrome_view(self.category_chrome@);
        let ghost key = id@;
        let n = self.category_chrome.len();
        let mut i: usize = 0;
        while i < n
            invariant
                n == self.category_chrome@.len(),
                ch == chrome_view(self.category_chrome@),
                ch == chrome_view(old(self).category_chrome@),
                self.primary@ == old(self).primary@,
                self.trailing@ == old(self).trailing@,
                self.activity_chrome@ == old(self).activity_chrome@,
                key == id@,
                i <= n,
                forall|k: int| 0 <= k < i ==> ch[k].0 != key,
            decreases n - i,
        {
            if same_text(&self.category_chrome[i].0.0, &id.0) {
                let previous = self.category_chrome[i].1;
                let ghost old_vec = self.category_chrome@;
                self.category_chrome.set(i, (id, chrome));
                proof {
                    lemma_entry_found(ch, key, chrome.color, i as int);
                    assert(chrome_view(self.category_chrome@) =~= ch.update(i as int, (key, chrome.color)));
                }
                return Some(previous);
            }
            i = i + 1;
        }
        let ghost old_vec = self.category_chrome@;
        self.category_chrome.push((id, chrome));
        proof {
            lemma_entry_absent(ch, key, chrome.color);
            assert(chrome_view(self.category_chrome@) =~= ch.push((key, chrome.color)));
        }
        None
    }

    /// Set the chrome of a category id and return the catalog.
    pub fn with_category_chrome(self, id: CategoryId, chrome: CategoryChrome<C>) -> (r: Self)
        ensures
            r.category_chrome_entries() == with_entry(self.category_chrome_entries(), id@, chrome.color),
            r.primary_nodes() == self.primary_nodes(),
            r.trailing_nodes() == self.trailing_nodes(),
            r.activity_chrome_keys() == self.activity_chrome_keys(),
    {
        let mut r = self;
        r.insert_category_chrome(id, chrome);
        r
    }

    /// The chrome registered for a category id, if any.
    pub fn category_chrome(&self, id: &CategoryId) -> (r: Option<CategoryChrome<C>>)
        ensures
            r matches Some(c) ==> entry_for(self.category_chrome_entries(), id@) == Some(c.color),
            r is None ==> entry_for(self.category_chrome_entries(), id@) is None,
    {
        let ghost ch = chrome_view(self.category_chrome@);
        let n = self.category_chrome.len();
        assert(ch.skip(0) =~= ch);
        for i in 0..n
            invariant
                n == self.category_chrome@.len(),
                ch == chrome_view(self.category_chrome@),
                entry_for(ch, id@) == entry_for(ch.skip(i as int), id@),
        {
            assert(ch.skip(i as int).drop_first() =~= ch.skip((i + 1) as int));
            if same_text(&self.category_chrome[i].0.0, &id.0) {
                return Some(self.category_chrome[i].1);
            }
        }
        None
    }
}

proof fn lemma_entry_found<C>(ch: Seq<(Seq<char>, Option<C>)>, id: Seq<char>, color: Option<C>, i: int)
    requires
        0 <= i < ch.len(),
        ch[i].0 == id,
        forall|k: int| 0 <= k < i ==> ch[k].0 != id,
    ensures
        with_entry(ch, id, color) == ch.update(i, (id, color)),
        entry_for(ch, id) == Some(ch[i].1),
    decreases i,
{
    if i > 0 {
        let rest = ch.drop_first();
        assert forall|k: int| 0 <= k < i - 1 implies rest[k].0 != id by {
            assert(rest[k] == ch[k + 1]);
        }
        lemma_entry_found(rest, id, color, i - 1);
        assert(seq![ch[0]] + rest.update(i - 1, (id, color)) =~= ch.update(i, (id, color)));
    }
}

proof fn lemma_entry_absent<C>(ch: Seq<(Seq<char>, Option<C>)>, id: Seq<char>, color: Option<C>)
    requires
        forall|k: int| 0 <= k < ch.len() ==> ch[k].0 != id,
    ensures
        with_entry(ch, id, color) == ch.push((id, color)),
        entry_for(ch, id) is None,
    decreases ch.len(),
{
    if ch.len() > 0 {
        let rest = ch.drop_first();
        assert forall|k: int| 0 <= k < rest.len() implies rest[k].0 != id by {
            assert(rest[k] == ch[k + 1]);
        }
        lemma_entry_absent(rest, id, color);
        assert(seq![ch[0]] + rest.push((id, color)) =~= ch.push((id, color)));
    }
}

/// Ancestor categories of the active activity: the path of the last visible
/// activity named `active`, trailing group after leading group, or empty.
pub open spec fn catalog_active_path<C>(
    primary: Seq<ActivityNode<C>>,
    trailing: Seq<ActivityNode<C>>,
    active: Option<Seq<char>>,
) -> Seq<Seq<char>> {
    match nodes_active_path(trailing, active, Seq::empty()) {
        Some(p) => p,
        None => match nodes_active_path(primary, active, Seq::empty()) {
            Some(p) => p,
            None => Seq::empty(),
        },
    }
}

impl<C> Default for ActivityCatalog<C> {
    /// An empty catalog.
    fn default() -> (r: Self)
        ensures
            r.primary_nodes() == Seq::<ActivityNode<C>>::empty(),
            r.trailing_nodes() == Seq::<ActivityNode<C>>::empty(),
            r.activity_chrome_keys() == Seq::<Seq<char>>::empty(),
            r.category_chrome_entries() == Seq::<(Seq<char>, Option<C>)>::empty(),
    {
        ActivityCatalog::new(Vec::new())
    }
}

impl<C: Copy> ActivityCatalog<C> {
    /// Borrow the recursively ordered leading group.
    pub fn primary(&self) -> (r: &[ActivityNode<C>])
        ensures
            r@ == self.primary_nodes(),
    {
        self.primary.as_slice()
    }

    /// Borrow the recursively ordered trailing group.
    pub fn trailing(&self) -> (r: &[ActivityNode<C>])
        ensures
            r@ == self.trailing_nodes(),
    {
        self.trailing.as_slice()
    }

    /// Validate stable identity across both groups and every chrome key.
    ///
    /// Activity ids and category ids must each be unique across the whole
    /// catalog, at any depth and in either group. Chrome is additive, so a
    /// node need not have chrome; a chrome key, however, must name a
    /// registered node.
    pub fn validate(&self) -> (r: Result<(), ActivityCatalogValidationError>)
        ensures
            match self.verdict() {
                Ok(()) => r is Ok,
                Err(f) => r is Err && r->Err_0@ == f,
            },
    {
        let ghost pv = nodes_visits(self.primary@);
        let ghost tv = nodes_visits(self.trailing@);
        let mut acts: Vec<ActivityId> = Vec::new();
        let mut cats: Vec<CategoryId> = Vec::new();
        assert(activity_id_views(acts@) =~= Seq::<Seq<char>>::empty());
        assert(id_views(cats@) =~= Seq::<Seq<char>>::empty());
        match validate_nodes(self.primary.as_slice(), ActivityCatalogGroup::Primary, &mut acts, &mut cats) {
            Ok(()) => {},
            Err(e) => {
                return Err(e);
            },
        }
        assert(activity_id_views(acts@) =~= visit_ids(pv, true));
        assert(id_views(cats@) =~= visit_ids(pv, false));
        match validate_nodes(self.trailing.as_slice(), ActivityCatalogGroup::Trailing, &mut acts, &mut cats) {
            Ok(()) => {},
            Err(e) => {
                return Err(e);
            },
        }
        proof {
            lemma_visit_ids_concat(pv, tv, true);
            lemma_visit_ids_concat(pv, tv, false);
        }
        let ghost known_acts = visit_ids(pv + tv, true);
        let ghost known_cats = visit_ids(pv + tv, false);
        let ghost akeys = activity_id_views(self.activity_chrome@);
        let na = self.activity_chrome.len();
        assert(akeys.skip(0) =~= akeys);
        for i in 0..na
            invariant
                na == self.activity_chrome@.len(),
                akeys == activity_id_views(self.activity_chrome@),
                akeys == self.activity_chrome_keys(),
                activity_id_views(acts@) == known_acts,
                known_acts == visit_ids(nodes_visits(self.primary@) + nodes_visits(self.trailing@), true),
                identity_fault(self.primary_nodes(), self.trailing_nodes()) is None,
                first_missing(akeys, known_acts) == first_missing(akeys.skip(i as int), known_acts),
        {
            assert(akeys.skip(i as int)[0] == self.activity_chrome@[i as int]@);
            assert(akeys.skip(i as int).drop_first() =~= akeys.skip((i + 1) as int));
            if !holds_activity(&acts, &self.activity_chrome[i]) {
                return Err(
                    ActivityCatalogValidationError::MissingActivityChromeKey {
                        activity_id: self.activity_chrome[i].duplicate(),
                    },
                );
            }
        }
        let ghost ckeys = self.category_chrome_entries().map_values(|e: (Seq<char>, Option<C>)| e.0);
        let nc = self.category_chrome.len();
        assert(ckeys.skip(0) =~= ckeys);
        for i in 0..nc
            invariant
                nc == self.category_chrome@.len(),
                ckeys == self.category_chrome_entries().map_values(|e: (Seq<char>, Option<C>)| e.0),
                id_views(cats@) == known_cats,
                known_cats == visit_ids(nodes_visits(self.primary@) + nodes_visits(self.trailing@), false),
                identity_fault(self.primary_nodes(), self.trailing_nodes()) is None,
                first_missing(self.activity_chrome_keys(), known_acts) is None,
                known_acts == visit_ids(nodes_visits(self.primary@) + nodes_visits(self.trailing@), true),
                first_missing(ckeys, known_cats) == first_missing(ckeys.skip(i as int), known_cats),
        {
            assert(ckeys.skip(i as int)[0] == self.category_chrome@[i as int].0@);
            assert(ckeys.skip(i as int).drop_first() =~= ckeys.skip((i + 1) as int));
            if !holds_category(&cats, &self.category_chrome[i].0) {
                return Err(
                    ActivityCatalogValidationError::MissingCategoryChromeKey {
                        category_id: self.category_chrome[i].0.duplicate(),
                    },
                );
            }
        }
        Ok(())
    }

    /// Project both ordered trees for one pane.
    ///
    /// Hidden activities are dropped, categories left with no visible
    /// descendant are pruned, every activity inherits its nearest category's
    /// color after chrome overrides, and the ancestors of the active activity
    /// are reported outermost first.
    pub fn visible(&self, active: Option<&ActivityId>) -> (r: ActivityProjection<C>)
        ensures
            shapes_of(r.primary@) == projected_nodes(self.primary_nodes(), None, self.category_chrome_entries()),
            shapes_of(r.trailing@) == projected_nodes(self.trailing_nodes(), None, self.category_chrome_entries()),
            id_views(r.active_ancestors@) == catalog_active_path(
                self.primary_nodes(),
                self.trailing_nodes(),
                active_view(active),
            ),
    {
        let mut active_ancestors: Vec<CategoryId> = Vec::new();
        let mut path: Vec<CategoryId> = Vec::new();
        assert(id_views(path@) =~= Seq::<Seq<char>>::empty());
        assert(id_views(active_ancestors@) =~= Seq::<Seq<char>>::empty());
        let primary = project_nodes(
            self.primary.as_slice(),
            active,
            None,
            &mut path,
            &mut active_ancestors,
            &self.category_chrome,
        );
        let trailing = project_nodes(
            self.trailing.as_slice(),
            active,
            None,
            &mut path,
            &mut active_ancestors,
            &self.category_chrome,
        );
        ActivityProjection { primary, trailing, active_ancestors }
    }
}

fn collect_activities<'a, C>(nodes: &'a [ActivityNode<C>], out: &mut Vec<&'a Activity>)
    ensures
        final(out)@.map_values(|a: &Activity| a.id@) == old(out)@.map_values(|a: &Activity| a.id@)
            + nodes_visible_ids(nodes@),
    decreases nodes@,
{
    let ghost start = out@.map_values(|a: &Activity| a.id@);
    let n = nodes.len();
    assert(nodes@.take(0) =~= Seq::<ActivityNode<C>>::empty());
    assert(start + nodes_visible_ids(nodes@.take(0)) =~= start);
    for i in 0..n
        invariant
            n == nodes@.len(),
            start == old(out)@.map_values(|a: &Activity| a.id@),
            out@.map_values(|a: &Activity| a.id@) == start + nodes_visible_ids(nodes@.take(i as int)),
    {
        assert(nodes@.take((i + 1) as int).drop_last() =~= nodes@.take(i as int));
        assert(nodes@.take((i + 1) as int).last() == nodes@[i as int]);
        let ghost mid = out@.map_values(|a: &Activity| a.id@);
        match &nodes[i] {
            ActivityNode::Activity(a) => {
                if a.visible {
                    let ghost before = out@;
                    out.push(a);
                    assert(out@.map_values(|a: &Activity| a.id@) =~= before.map_values(|a: &Activity| a.id@).push(
                        a.id@,
                    ));
                    assert(out@.map_values(|a: &Activity| a.id@) =~= mid + node_visible_ids(nodes@[i as int]));
                } else {
                    assert(mid + node_visible_ids(nodes@[i as int]) =~= mid);
                }
            },
            ActivityNode::Category(c) => {
                collect_activities(c.children.as_slice(), out);
                assert(out@.map_values(|a: &Activity| a.id@) == mid + node_visible_ids(nodes@[i as int]));
            },
        }
        assert(nodes_visible_ids(nodes@.take((i + 1) as int)) == nodes_visible_ids(nodes@.take(i as int))
            + node_visible_ids(nodes@[i as int]));
        assert(out@.map_values(|a: &Activity| a.id@) =~= start + nodes_visible_ids(nodes@.take((i + 1) as int)));
    }
    assert(nodes@.take(n as int) =~= nodes@);
}

impl<C> ActivityNode<C> {
    /// Append the visible activities under this node to `out`, in pre-order.
    pub fn activities<'a>(&'a self, out: &mut Vec<&'a Activity>)
        ensures
            final(out)@.map_values(|a: &Activity| a.id@) == old(out)@.map_values(|a: &Activity| a.id@)
                + node_visible_ids(*self),
    {
        match self {
            ActivityNode::Activity(a) => {
                let ghost before = out@.map_values(|a: &Activity| a.id@);
                if a.visible {
                    let ghost b = out@;
                    out.push(a);
                    assert(out@.map_values(|a: &Activity| a.id@) =~= b.map_values(|a: &Activity| a.id@).push(a.id@));
                } else {
                    assert(before + node_visible_ids(*self) =~= before);
                }
            },
            ActivityNode::Category(c) => {
                collect_activities(c.children.as_slice(), out);
            },
        }
    }
}

// ------------------------------------------------------------------ laws

proof fn lemma_first_repeat_none_iff_unique(acts: Seq<Seq<char>>, cats: Seq<Seq<char>>, v: Seq<(bool, Seq<char>)>)
    requires
        acts.no_duplicates(),
        cats.no_duplicates(),
    ensures
        first_repeat(acts, cats, v) is None <==> (acts + visit_ids(v, true)).no_duplicates() && (cats
            + visit_ids(v, false)).no_duplicates(),
    decreases v.len(),
{
    if v.len() == 0 {
        assert(acts + visit_ids(v, true) =~= acts);
        assert(cats + visit_ids(v, false) =~= cats);
    } else {
        let w = v.drop_last();
        let e = v.last();
        lemma_first_repeat_none_iff_unique(acts, cats, w);
        let a = acts + visit_ids(w, true);
        let c = cats + visit_ids(w, false);
        if e.0 {
            assert(acts + visit_ids(v, true) =~= a.push(e.1));
            assert(cats + visit_ids(v, false) =~= c);
            lemma_push_unique(a, e.1);
        } else {
            assert(acts + visit_ids(v, true) =~= a);
            assert(cats + visit_ids(v, false) =~= c.push(e.1));
            lemma_push_unique(c, e.1);
        }
        if !a.no_duplicates() {
            assert(!(acts + visit_ids(v, true)).no_duplicates()) by {
                let (i, j) = choose|i: int, j: int| 0 <= i < a.len() && 0 <= j < a.len() && i != j && a[i] == a[j];
                if e.0 {
                    assert(a.push(e.1)[i] == a.push(e.1)[j]);
                }
            }
        }
        if !c.no_duplicates() {
            assert(!(cats + visit_ids(v, false)).no_duplicates()) by {
                let (i, j) = choose|i: int, j: int| 0 <= i < c.len() && 0 <= j < c.len() && i != j && c[i] == c[j];
                if !e.0 {
                    assert(c.push(e.1)[i] == c.push(e.1)[j]);
                }
            }
        }
    }
}

proof fn lemma_push_unique(s: Seq<Seq<char>>, x: Seq<char>)
    ensures
        s.push(x).no_duplicates() <==> s.no_duplicates() && !s.contains(x),
{
    let t = s.push(x);
    if s.no_duplicates() && !s.contains(x) {
        assert forall|i: int, j: int| 0 <= i < t.len() && 0 <= j < t.len() && i != j implies t[i] != t[j] by {
            if i < s.len() && j < s.len() {
                assert(t[i] == s[i] && t[j] == s[j]);
            } else if i < s.len() {
                assert(t[i] == s[i]);
            } else {
                assert(t[j] == s[j]);
            }
        }
    }
    if t.no_duplicates() {
        assert forall|i: int, j: int| 0 <= i < s.len() && 0 <= j < s.len() && i != j implies s[i] != s[j] by {
            assert(t[i] == s[i] && t[j] == s[j]);
        }
        if s.contains(x) {
            let k = choose|k: int| 0 <= k < s.len() && s[k] == x;
            assert(t[k] == t[s.len() as int]);
        }
    }
}

proof fn lemma_first_missing_none(keys: Seq<Seq<char>>, known: Seq<Seq<char>>)
    ensures
        first_missing(keys, known) is None <==> forall|k: int| 0 <= k < keys.len() ==> known.contains(#[trigger] keys[k]),
    decreases keys.len(),
{
    if keys.len() > 0 {
        lemma_first_missing_none(keys.drop_first(), known);
        if first_missing(keys, known) is None {
            assert forall|k: int| 0 <= k < keys.len() implies known.contains(#[trigger] keys[k]) by {
                if k > 0 {
                    assert(keys[k] == keys.drop_first()[k - 1]);
                }
            }
        }
        if forall|k: int| 0 <= k < keys.len() ==> known.contains(#[trigger] keys[k]) {
            assert forall|k: int| 0 <= k < keys.drop_first().len() implies known.contains(#[trigger] keys.drop_first()[k]) by {
                assert(keys.drop_first()[k] == keys[k + 1]);
            }
        }
    }
}

/// A catalog validates exactly when activity ids are unique across both
/// groups at every depth, category ids are likewise unique, and every chrome
/// key names a registered activity or category.
pub proof fn lemma_valid_catalog<C>(catalog: ActivityCatalog<C>)
    ensures
        ({
            let all = nodes_visits(catalog.primary_nodes()) + nodes_visits(catalog.trailing_nodes());
            let ckeys = catalog.category_chrome_entries().map_values(|e: (Seq<char>, Option<C>)| e.0);
            catalog.verdict() is Ok <==> {
                &&& visit_ids(all, true).no_duplicates()
                &&& visit_ids(all, false).no_duplicates()
                &&& forall|k: int|
                    0 <= k < catalog.activity_chrome_keys().len() ==> visit_ids(all, true).contains(
                        #[trigger] catalog.activity_chrome_keys()[k],
                    )
                &&& forall|k: int| 0 <= k < ckeys.len() ==> visit_ids(all, false).contains(#[trigger] ckeys[k])
            }
        }),
{
    let pv = nodes_visits(catalog.primary_nodes());
    let tv = nodes_visits(catalog.trailing_nodes());
    let e = Seq::<Seq<char>>::empty();
    assert(e.no_duplicates());
    lemma_first_repeat_concat(e, e, pv, tv);
    assert(e + visit_ids(pv, true) =~= visit_ids(pv, true));
    assert(e + visit_ids(pv, false) =~= visit_ids(pv, false));
    lemma_first_repeat_none_iff_unique(e, e, pv + tv);
    assert(e + visit_ids(pv + tv, true) =~= visit_ids(pv + tv, true));
    assert(e + visit_ids(pv + tv, false) =~= visit_ids(pv + tv, false));
    lemma_first_missing_none(catalog.activity_chrome_keys(), visit_ids(pv + tv, true));
    lemma_first_missing_none(
        catalog.category_chrome_entries().map_values(|e: (Seq<char>, Option<C>)| e.0),
        visit_ids(pv + tv, false),
    );
}

/// Ids of the activity leaves of one visible shape, in pre-order.
pub open spec fn shape_ids<C>(n: VisibleShape<C>) -> Seq<Seq<char>>
    decreases n,
{
    match n {
        VisibleShape::Activity { id, .. } => seq![id],
        VisibleShape::Category { children, .. } => shapes_ids(children),
    }
}

/// Ids of the activity leaves of a visible forest, in pre-order.
pub open spec fn shapes_ids<C>(s: Seq<VisibleShape<C>>) -> Seq<Seq<char>>
    decreases s,
{
    if s.len() == 0 {
        Seq::empty()
    } else {
        shapes_ids(s.drop_last()) + shape_ids(s.last())
    }
}

/// Whether every category in a visible shape has at least one child.
pub open spec fn shape_pruned<C>(n: VisibleShape<C>) -> bool
    decreases n,
{
    match n {
        VisibleShape::Activity { .. } => true,
        VisibleShape::Category { children, .. } => children.len() > 0 && shapes_pruned(children),
    }
}

pub open spec fn shapes_pruned<C>(s: Seq<VisibleShape<C>>) -> bool
    decreases s,
{
    s.len() == 0 || (shapes_pruned(s.drop_last()) && shape_pruned(s.last()))
}

/// Ids of the visible activities under one node, in pre-order.
pub open spec fn node_visible_ids<C>(n: ActivityNode<C>) -> Seq<Seq<char>>
    decreases n,
{
    match n {
        ActivityNode::Activity(a) => if a.visible {
            seq![a.id@]
        } else {
            Seq::empty()
        },
        ActivityNode::Category(c) => nodes_visible_ids(c.children@),
    }
}

/// Ids of the visible activities of a node list, in pre-order.
pub open spec fn nodes_visible_ids<C>(s: Seq<ActivityNode<C>>) -> Seq<Seq<char>>
    decreases s,
{
    if s.len() == 0 {
        Seq::empty()
    } else {
        nodes_visible_ids(s.drop_last()) + node_visible_ids(s.last())
    }
}

proof fn lemma_shapes_concat<C>(a: Seq<VisibleShape<C>>, b: Seq<VisibleShape<C>>)
    ensures
        shapes_ids(a + b) == shapes_ids(a) + shapes_ids(b),
        shapes_pruned(a + b) == (shapes_pruned(a) && shapes_pruned(b)),
    decreases b.len(),
{
    if b.len() == 0 {
        assert(a + b =~= a);
        assert(shapes_ids(a) + shapes_ids(b) =~= shapes_ids(a));
    } else {
        assert((a + b).drop_last() =~= a + b.drop_last());
        lemma_shapes_concat(a, b.drop_last());
        assert(shapes_ids(a) + shapes_ids(b) =~= shapes_ids(a) + shapes_ids(b.drop_last()) + shape_ids(
            b.last(),
        ));
    }
}

proof fn lemma_single_shape<C>(n: VisibleShape<C>)
    ensures
        shapes_ids(seq![n]) == shape_ids(n),
        shapes_pruned(seq![n]) == shape_pruned(n),
{
    let one = seq![n];
    assert(one.drop_last() =~= Seq::<VisibleShape<C>>::empty());
    assert(one.last() == n);
    assert(shapes_ids(one.drop_last()) == Seq::<Seq<char>>::empty());
    assert(shapes_pruned(one.drop_last()));
    assert(Seq::<Seq<char>>::empty() + shape_ids(n) =~= shape_ids(n));
}

proof fn lemma_node_projection<C>(n: ActivityNode<C>, inherited: Option<C>, ch: Seq<(Seq<char>, Option<C>)>)
    ensures
        shapes_ids(projected_node(n, inherited, ch)) == node_visible_ids(n),
        shapes_pruned(projected_node(n, inherited, ch)),
    decreases n,
{
    match n {
        ActivityNode::Activity(a) => {
            if a.visible {
                lemma_single_shape(projected_node(n, inherited, ch)[0]);
                assert(projected_node(n, inherited, ch) =~= seq![projected_node(n, inherited, ch)[0]]);
            }
        },
        ActivityNode::Category(c) => {
            let color = effective_color(ch, c.id@, c.color);
            lemma_nodes_projection(c.children@, Some(color), ch);
            let kids = projected_nodes(c.children@, Some(color), ch);
            if kids.len() > 0 {
                let shape = VisibleShape::Category { id: c.id@, name: c.name@, color: color, children: kids };
                lemma_single_shape(shape);
                assert(projected_node(n, inherited, ch) =~= seq![shape]);
            } else {
                assert(kids =~= Seq::<VisibleShape<C>>::empty());
            }
        },
    }
}

proof fn lemma_nodes_projection<C>(s: Seq<ActivityNode<C>>, inherited: Option<C>, ch: Seq<(Seq<char>, Option<C>)>)
    ensures
        shapes_ids(projected_nodes(s, inherited, ch)) == nodes_visible_ids(s),
        shapes_pruned(projected_nodes(s, inherited, ch)),
    decreases s,
{
    if s.len() > 0 {
        lemma_nodes_projection(s.drop_last(), inherited, ch);
        lemma_node_projection(s.last(), inherited, ch);
        lemma_shapes_concat(projected_nodes(s.drop_last(), inherited, ch), projected_node(s.last(), inherited, ch));
    }
}

/// A projection keeps exactly the visible activities, in catalog order, and
/// prunes every category that would be left without a visible descendant.
pub proof fn lemma_projection_keeps_visible_activities<C>(
    s: Seq<ActivityNode<C>>,
    inherited: Option<C>,
    ch: Seq<(Seq<char>, Option<C>)>,
)
    ensures
        shapes_ids(projected_nodes(s, inherited, ch)) == nodes_visible_ids(s),
        shapes_pruned(projected_nodes(s, inherited, ch)),
{
    lemma_nodes_projection(s, inherited, ch);
}

} // verus!
