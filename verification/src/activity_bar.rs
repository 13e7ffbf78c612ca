//! Activity-bar placement, pane controls, category expansion and hover intent.

use vstd::prelude::*;

use crate::ids::{CategoryId, PaneId};

verus! {

/// Main/cross axis used by activity-bar layout code.
#[derive(Clone, Copy, Debug, PartialEq, Eq, Structural)]
pub enum ActivityBarAxis {
    /// The main axis runs left-to-right and the cross axis runs top-to-bottom.
    Horizontal,
    /// The main axis runs top-to-bottom and the cross axis runs left-to-right.
    Vertical,
}

/// Edge of a pane occupied by its activity bar.
#[derive(Clone, Copy, Debug, PartialEq, Eq, Structural)]
pub enum ActivityBarEdge {
    /// A vertical bar attached to the pane's left edge.
    Left,
    /// A vertical bar attached to the pane's right edge.
    Right,
    /// A horizontal bar attached to the pane's top edge.
    Top,
    /// A horizontal bar attached to the pane's bottom edge.
    Bottom,
}

pub open spec fn edge_axis(e: ActivityBarEdge) -> ActivityBarAxis {
    match e {
        ActivityBarEdge::Left | ActivityBarEdge::Right => ActivityBarAxis::Vertical,
        ActivityBarEdge::Top | ActivityBarEdge::Bottom => ActivityBarAxis::Horizontal,
    }
}

pub open spec fn edge_is_trailing(e: ActivityBarEdge) -> bool {
    e is Right || e is Bottom
}

pub open spec fn edge_opposite(e: ActivityBarEdge) -> ActivityBarEdge {
    match e {
        ActivityBarEdge::Left => ActivityBarEdge::Right,
        ActivityBarEdge::Right => ActivityBarEdge::Left,
        ActivityBarEdge::Top => ActivityBarEdge::Bottom,
        ActivityBarEdge::Bottom => ActivityBarEdge::Top,
    }
}

impl Default for ActivityBarEdge {
    /// Bars sit on the left edge unless configured otherwise.
    fn default() -> (r: Self)
        ensures
            r == ActivityBarEdge::Left,
    {
        ActivityBarEdge::Left
    }
}

impl ActivityBarEdge {
    /// Returns the bar's main layout axis: left and right bars are vertical,
    /// top and bottom bars horizontal.
    pub fn axis(self) -> (r: ActivityBarAxis)
        ensures
            r == edge_axis(self),
    {
        match self {
            ActivityBarEdge::Left | ActivityBarEdge::Right => ActivityBarAxis::Vertical,
            ActivityBarEdge::Top | ActivityBarEdge::Bottom => ActivityBarAxis::Horizontal,
        }
    }

    /// Returns whether items along this edge are laid out left-to-right.
    pub fn is_horizontal(self) -> (r: bool)
        ensures
            r == (edge_axis(self) is Horizontal),
    {
        match self.axis() {
            ActivityBarAxis::Horizontal => true,
            ActivityBarAxis::Vertical => false,
        }
    }

    /// Whether the bar is on the trailing side of its cross axis.
    pub fn is_trailing(self) -> (r: bool)
        ensures
            r == edge_is_trailing(self),
    {
        match self {
            ActivityBarEdge::Right | ActivityBarEdge::Bottom => true,
            _ => false,
        }
    }

    /// Returns the corresponding edge on the other side of the pane.
    pub fn opposite(self) -> (r: Self)
        ensures
            r == edge_opposite(self),
    {
        match self {
            ActivityBarEdge::Left => ActivityBarEdge::Right,
            ActivityBarEdge::Right => ActivityBarEdge::Left,
            ActivityBarEdge::Top => ActivityBarEdge::Bottom,
            ActivityBarEdge::Bottom => ActivityBarEdge::Top,
        }
    }
}

/// The opposite edge is an involution that keeps the axis and flips the side.
pub proof fn lemma_opposite_edge(e: ActivityBarEdge)
    ensures
        edge_opposite(edge_opposite(e)) == e,
        edge_axis(edge_opposite(e)) == edge_axis(e),
        edge_is_trailing(edge_opposite(e)) == !edge_is_trailing(e),
        edge_opposite(e) != e,
{
}

/// Rotation, in degrees, of the category chevron: collapsed chevrons are
/// upright, expanded ones turn a quarter on vertical bars and a half on
/// horizontal bars.
pub fn chevron_rotation(edge: ActivityBarEdge, expanded: bool) -> (r: i32)
    ensures
        r == (if !expanded {
            0i32
        } else if edge_axis(edge) is Horizontal {
            180i32
        } else {
            90i32
        }),
{
    if !expanded {
        0
    } else if edge.is_horizontal() {
        180
    } else {
        90
    }
}

/// Built-in pane management controls, in their reference render order.
#[derive(Clone, Copy, Debug, PartialEq, Eq, Structural)]
pub enum PaneControl {
    /// The pane drag handle used to move or dock the pane.
    Move,
    /// The command that splits the pane horizontally.
    SplitHorizontal,
    /// The command that splits the pane vertically.
    SplitVertical,
    /// The command that closes the pane.
    Close,
}

pub open spec fn control_key(c: PaneControl) -> Seq<char> {
    match c {
        PaneControl::Move => "move"@,
        PaneControl::SplitHorizontal => "split-h"@,
        PaneControl::SplitVertical => "split-v"@,
        PaneControl::Close => "close"@,
    }
}

pub open spec fn control_label(c: PaneControl) -> Seq<char> {
    match c {
        PaneControl::Move => "Move"@,
        PaneControl::SplitHorizontal => "Split H"@,
        PaneControl::SplitVertical => "Split V"@,
        PaneControl::Close => "Close"@,
    }
}

impl PaneControl {
    /// All built-in controls in their canonical render and traversal order.
    pub fn order() -> (r: [PaneControl; 4])
        ensures
            r@ == seq![PaneControl::Move, PaneControl::SplitHorizontal, PaneControl::SplitVertical, PaneControl::Close],
    {
        let r = [PaneControl::Move, PaneControl::SplitHorizontal, PaneControl::SplitVertical, PaneControl::Close];
        assert(r@ =~= seq![PaneControl::Move, PaneControl::SplitHorizontal, PaneControl::SplitVertical, PaneControl::Close]);
        r
    }

    /// Returns the stable, lowercase key used in selectors and internal item ids.
    pub fn key(self) -> (r: &'static str)
        ensures
            r@ == control_key(self),
    {
        match self {
            PaneControl::Move => "move",
            PaneControl::SplitHorizontal => "split-h",
            PaneControl::SplitVertical => "split-v",
            PaneControl::Close => "close",
        }
    }

    /// Returns the short human-readable label used for accessibility.
    pub fn label(self) -> (r: &'static str)
        ensures
            r@ == control_label(self),
    {
        match self {
            PaneControl::Move => "Move",
            PaneControl::SplitHorizontal => "Split H",
            PaneControl::SplitVertical => "Split V",
            PaneControl::Close => "Close",
        }
    }

    /// Builds the debug selector `pane-control:<control-key>:<pane-id>`.
    pub fn debug_selector(self, pane: &PaneId) -> (r: String)
        ensures
            r@ == "pane-control:"@ + control_key(self) + ":"@ + pane@,
    {
        let mut r = String::from_str("pane-control:");
        r.append(self.key());
        r.append(":");
        r.append(pane.0.as_str());
        r
    }

    /// Builds the accessibility element id `mullion-pane-<control-key>-<pane-id>`.
    pub fn accessibility_id(self, pane: &PaneId) -> (r: String)
        ensures
            r@ == "mullion-pane-"@ + control_key(self) + "-"@ + pane@,
    {
        let mut r = String::from_str("mullion-pane-");
        r.append(self.key());
        r.append("-");
        r.append(pane.0.as_str());
        r
    }
}

/// Per-pane visibility policy for an activity bar.
#[derive(Clone, Copy, Debug, PartialEq, Eq, Structural)]
pub enum ActivityBarMode {
    /// The bar remains visible and occupies layout space beside pane content.
    Pinned,
    /// The bar is not rendered.
    Hidden,
    /// The bar overlays pane content and reveals from its configured edge on hover.
    AutoHide,
}

impl Default for ActivityBarMode {
    /// Bars are pinned unless configured otherwise.
    fn default() -> (r: Self)
        ensures
            r == ActivityBarMode::Pinned,
    {
        ActivityBarMode::Pinned
    }
}

/// Hover flyout timing. The delay applies only when opening; leaving cancels
/// a pending open immediately and animates closed over the configured duration.
#[derive(Clone, Copy, Debug, PartialEq, Eq, Structural)]
pub struct ActivityBarHoverIntent {
    /// Time the pointer must remain over the rail before the flyout opens.
    pub expand_delay_ms: u32,
    /// Duration of both the opening and closing flyout transitions.
    pub transition_duration_ms: u32,
}

impl Default for ActivityBarHoverIntent {
    /// No opening delay and a 150 ms transition.
    fn default() -> (r: Self)
        ensures
            r.expand_delay_ms == 0,
            r.transition_duration_ms == 150,
    {
        ActivityBarHoverIntent { expand_delay_ms: 0, transition_duration_ms: 150 }
    }
}

impl ActivityBarHoverIntent {
    /// Sets the opening hover-intent delay, in milliseconds.
    pub fn with_expand_delay_ms(self, delay_ms: u32) -> (r: Self)
        ensures
            r == (ActivityBarHoverIntent { expand_delay_ms: delay_ms, ..self }),
    {
        ActivityBarHoverIntent { expand_delay_ms: delay_ms, ..self }
    }

    /// Sets the opening and closing animation duration, in milliseconds.
    pub fn with_transition_duration_ms(self, duration_ms: u32) -> (r: Self)
        ensures
            r == (ActivityBarHoverIntent { transition_duration_ms: duration_ms, ..self }),
    {
        ActivityBarHoverIntent { transition_duration_ms: duration_ms, ..self }
    }
}

/// Interaction semantics independent of styling.
#[derive(Clone, Copy, Debug, PartialEq, Eq, Structural)]
pub struct ActivityBarBehavior {
    /// Whether hovering a collapsed rail may reveal its expanded labels or flyout.
    pub hover_expand: bool,
    /// Delay and animation timing applied to hover-driven expansion.
    pub hover_intent: ActivityBarHoverIntent,
}

impl Default for ActivityBarBehavior {
    /// Hover expansion enabled with the default timing.
    fn default() -> (r: Self)
        ensures
            r.hover_expand,
            r.hover_intent.expand_delay_ms == 0,
            r.hover_intent.transition_duration_ms == 150,
    {
        ActivityBarBehavior { hover_expand: true, hover_intent: ActivityBarHoverIntent::default() }
    }
}

/// Activity-bar policy shared by hosts and views.
#[derive(Clone, Copy, Debug, PartialEq, Eq, Structural)]
pub struct ActivityBarConfig {
    /// Pane edge to which the bar is attached.
    pub edge: ActivityBarEdge,
    /// Base visibility and overlay policy.
    pub mode: ActivityBarMode,
    /// Hover interaction policy for rendered bars.
    pub behavior: ActivityBarBehavior,
}

impl Default for ActivityBarConfig {
    /// A pinned left bar with default hover behavior.
    fn default() -> (r: Self)
        ensures
            r.edge == ActivityBarEdge::Left,
            r.mode == ActivityBarMode::Pinned,
            r.behavior.hover_expand,
            r.behavior.hover_intent.expand_delay_ms == 0,
            r.behavior.hover_intent.transition_duration_ms == 150,
    {
        ActivityBarConfig {
            edge: ActivityBarEdge::default(),
            mode: ActivityBarMode::default(),
            behavior: ActivityBarBehavior::default(),
        }
    }
}

// ------------------------------------------------------------ category expansion

/// Pure category expansion state, keyed only by stable category ids.
///
/// Each expanded id is held once, in the order in which it was expanded.
#[derive(Debug)]
pub struct ActivityExpansionState {
    expanded: Vec<CategoryId>,
}

pub open spec fn id_views(v: Seq<CategoryId>) -> Seq<Seq<char>> {
    v.map_values(|c: CategoryId| c@)
}

impl ActivityExpansionState {
    #[verifier::type_invariant]
    spec fn holds_each_id_once(self) -> bool {
        id_views(self.expanded@).no_duplicates()
    }

    /// The set of expanded category ids.
    pub closed spec fn expanded_ids(self) -> Set<Seq<char>> {
        id_views(self.expanded@).to_set()
    }
}

impl View for ActivityExpansionState {
    type V = Set<Seq<char>>;

    open spec fn view(&self) -> Set<Seq<char>> {
        self.expanded_ids()
    }
}

/// The expansion set after toggling `id`.
pub open spec fn toggled(s: Set<Seq<char>>, id: Seq<char>) -> Set<Seq<char>> {
    if s.contains(id) {
        s.remove(id)
    } else {
        s.insert(id)
    }
}

impl Clone for ActivityExpansionState {
    /// A state with the same expanded ids.
    fn clone(&self) -> (r: Self)
        ensures
            r@ == self@,
    {
        proof {
            use_type_invariant(self);
        }
        let mut v: Vec<CategoryId> = Vec::new();
        let n = self.expanded.len();
        for i in 0..n
            invariant
                n == self.expanded@.len(),
                id_views(v@) == id_views(self.expanded@).take(i as int),
        {
            let c = self.expanded[i].duplicate();
            let ghost before = v@;
            v.push(c);
            assert(id_views(v@) =~= id_views(before).push(c@));
            assert(id_views(v@) =~= id_views(self.expanded@).take((i + 1) as int));
        }
        assert(id_views(self.expanded@).take(n as int) =~= id_views(self.expanded@));
        ActivityExpansionState { expanded: v }
    }
}

impl Default for ActivityExpansionState {
    /// Every category starts collapsed.
    fn default() -> (r: Self)
        ensures
            r@ == Set::<Seq<char>>::empty(),
    {
        let r = ActivityExpansionState { expanded: Vec::new() };
        assert(id_views(r.expanded@) =~= Seq::<Seq<char>>::empty());
        assert(r@ =~= Set::<Seq<char>>::empty());
        r
    }
}

impl ActivityExpansionState {
    /// Returns whether the category id is currently expanded.
    pub fn is_expanded(&self, id: &CategoryId) -> (r: bool)
        ensures
            r == self@.contains(id@),
    {
        proof {
            lemma_views_to_set(self.expanded@);
        }
        match self_position(&self.expanded, id) {
            Some(i) => {
                assert(id_views(self.expanded@)[i as int] == id@);
                true
            },
            None => false,
        }
    }

    /// Toggles a category and returns its new expansion state.
    pub fn toggle(&mut self, id: CategoryId) -> (r: bool)
        ensures
            r == !old(self)@.contains(id@),
            final(self)@ == toggled(old(self)@, id@),
    {
        proof {
            use_type_invariant(&*self);
        }
        let ghost before = id_views(self.expanded@);
        proof {
            lemma_views_to_set(self.expanded@);
        }
        let mut v: Vec<CategoryId> = Vec::new();
        std::mem::swap(&mut v, &mut self.expanded);
        let found = match self_position(&v, &id) {
            Some(i) => {
                v.remove(i);
                proof {
                    assert(id_views(v@) =~= before.remove(i as int));
                    lemma_remove_unique(before, i as int);
                    lemma_views_to_set(v@);
                }
                true
            },
            None => {
                let ghost pushed = id@;
                v.push(id);
                proof {
                    assert(id_views(v@) =~= before.push(pushed));
                    before.lemma_push_to_set_commute(pushed);
                    lemma_views_to_set(v@);
                }
                false
            },
        };
        self.expanded = v;
        !found
    }

    /// Expand every active ancestor without collapsing user-opened categories.
    pub fn reveal_active(&mut self, path: &[CategoryId])
        ensures
            final(self)@ == old(self)@.union(id_views(path@).to_set()),
    {
        proof {
            use_type_invariant(&*self);
        }
        let mut v: Vec<CategoryId> = Vec::new();
        std::mem::swap(&mut v, &mut self.expanded);
        let ghost start = id_views(v@).to_set();
        let n = path.len();
        for k in 0..n
            invariant
                n == path@.len(),
                id_views(v@).no_duplicates(),
                id_views(v@).to_set() == start.union(id_views(path@).take(k as int).to_set()),
        {
            let ghost before = id_views(v@);
            proof {
                lemma_views_to_set(v@);
            }
            let ghost added = id_views(path@)[k as int];
            assert(id_views(path@).take((k + 1) as int) =~= id_views(path@).take(k as int).push(added));
            proof {
                id_views(path@).take(k as int).lemma_push_to_set_commute(added);
            }
            match self_position(&v, &path[k]) {
                Some(i) => {
                    assert(id_views(v@)[i as int] == added);
                    assert(id_views(v@).to_set().contains(added));
                    assert(id_views(v@).to_set() =~= start.union(
                        id_views(path@).take((k + 1) as int).to_set(),
                    ));
                },
                None => {
                    v.push(path[k].duplicate());
                    proof {
                        assert(id_views(v@) =~= before.push(added));
                        before.lemma_push_to_set_commute(added);
                    }
                    assert(id_views(v@).to_set() =~= start.union(
                        id_views(path@).take((k + 1) as int).to_set(),
                    ));
                },
            }
        }
        assert(id_views(path@).take(n as int) =~= id_views(path@));
        self.expanded = v;
    }

    /// Collapses every category, including categories expanded by active-path reveal.
    pub fn clear(&mut self)
        ensures
            final(self)@ == Set::<Seq<char>>::empty(),
    {
        self.expanded = Vec::new();
        assert(id_views(self.expanded@) =~= Seq::<Seq<char>>::empty());
        assert(self@ =~= Set::<Seq<char>>::empty());
    }

    /// Borrows the expanded ids, each once, in expansion order.
    pub fn expanded(&self) -> (r: &[CategoryId])
        ensures
            id_views(r@).to_set() == self@,
            id_views(r@).no_duplicates(),
    {
        proof {
            use_type_invariant(&*self);
        }
        self.expanded.as_slice()
    }
}

/// Toggling the same category twice leaves the expansion set as it was.
pub proof fn lemma_toggle_twice_restores(s: Set<Seq<char>>, id: Seq<char>)
    ensures
        toggled(toggled(s, id), id) == s,
        toggled(s, id).contains(id) != s.contains(id),
{
    assert(toggled(toggled(s, id), id) =~= s);
}

/// Revealing an active path never collapses a category the user opened, and
/// leaves every category on the path expanded.
pub proof fn lemma_reveal_keeps_manual_state(s: Set<Seq<char>>, path: Seq<Seq<char>>)
    ensures
        s.subset_of(s.union(path.to_set())),
        forall|k: int| 0 <= k < path.len() ==> s.union(path.to_set()).contains(#[trigger] path[k]),
        s.union(path.to_set()).union(path.to_set()) == s.union(path.to_set()),
{
    assert forall|k: int| 0 <= k < path.len() implies s.union(path.to_set()).contains(#[trigger] path[k]) by {
        assert(path.to_set().contains(path[k]));
    }
    assert(s.union(path.to_set()).union(path.to_set()) =~= s.union(path.to_set()));
}

fn self_position(v: &Vec<CategoryId>, id: &CategoryId) -> (r: Option<usize>)
    ensures
        match r {
            Some(i) => i < v@.len() && v@[i as int]@ == id@,
            None => !id_views(v@).contains(id@),
        },
{
    let n = v.len();
    for i in 0..n
        invariant
            n == v@.len(),
            forall|j: int| 0 <= j < i ==> v@[j]@ != id@,
    {
        if v[i].0 == id.0 {
            return Some(i);
        }
    }
    proof {
        if id_views(v@).contains(id@) {
            let k = choose|k: int| 0 <= k < id_views(v@).len() && id_views(v@)[k] == id@;
            assert(v@[k]@ == id@);
        }
    }
    None
}

proof fn lemma_views_to_set(v: Seq<CategoryId>)
    ensures
        forall|x: Seq<char>| #[trigger] id_views(v).to_set().contains(x) <==> id_views(v).contains(x),
{
}

proof fn lemma_remove_unique(s: Seq<Seq<char>>, i: int)
    requires
        0 <= i < s.len(),
        s.no_duplicates(),
    ensures
        s.remove(i).no_duplicates(),
        s.remove(i).to_set() == s.to_set().remove(s[i]),
{
    s.remove_ensures(i);
    let r = s.remove(i);
    assert forall|a: int, b: int| 0 <= a < r.len() && 0 <= b < r.len() && a != b implies r[a] != r[b] by {
        let a2 = if a < i { a } else { a + 1 };
        let b2 = if b < i { b } else { b + 1 };
        assert(r[a] == s[a2] && r[b] == s[b2]);
    }
    assert forall|x: Seq<char>| r.to_set().contains(x) <==> s.to_set().remove(s[i]).contains(x) by {
        if r.contains(x) {
            let k = choose|k: int| 0 <= k < r.len() && r[k] == x;
            let k2 = if k < i { k } else { k + 1 };
            assert(s[k2] == x);
        }
        if s.contains(x) && x != s[i] {
            let k = choose|k: int| 0 <= k < s.len() && s[k] == x;
            assert(k != i);
            let k2 = if k < i { k } else { k - 1 };
            assert(r[k2] == x);
        }
    }
    assert(r.to_set() =~= s.to_set().remove(s[i]));
}

// ------------------------------------------------------------------ hover intent

/// Token returned on pointer entry. A delayed callback may expand only while
/// its token is still current, preventing stale timers from reopening the bar.
#[derive(Clone, Copy, Debug, PartialEq, Eq, Structural)]
pub struct HoverGeneration(
    /// Monotonically wrapping token value used to reject obsolete callbacks.
    pub u64,
);

/// Logical hover-intent state for one bar or bar item.
#[derive(Clone, Copy, Debug, PartialEq, Eq, Structural)]
pub struct ActivityBarHoverState {
    generation: u64,
    hovered: bool,
    expanded: bool,
}

/// Abstract value of a hover state.
pub struct HoverView {
    pub generation: u64,
    pub hovered: bool,
    pub expanded: bool,
}

impl View for ActivityBarHoverState {
    type V = HoverView;

    closed spec fn view(&self) -> HoverView {
        HoverView { generation: self.generation, hovered: self.hovered, expanded: self.expanded }
    }
}

/// The token after `g`, wrapping at the end of the `u64` range.
pub open spec fn next_generation(g: u64) -> u64 {
    if g == u64::MAX {
        0
    } else {
        (g + 1) as u64
    }
}

pub open spec fn after_enter(s: HoverView) -> HoverView {
    HoverView { generation: next_generation(s.generation), hovered: true, expanded: s.expanded }
}

pub open spec fn after_leave(s: HoverView) -> HoverView {
    HoverView { generation: next_generation(s.generation), hovered: false, expanded: false }
}

/// Whether a delayed open carrying token `g` is accepted in state `s`.
pub open spec fn open_accepted(s: HoverView, g: u64) -> bool {
    s.hovered && g == s.generation
}

pub open spec fn after_open(s: HoverView, g: u64) -> HoverView {
    if open_accepted(s, g) {
        HoverView { expanded: true, ..s }
    } else {
        s
    }
}

fn following(g: u64) -> (r: u64)
    ensures
        r == next_generation(g),
{
    if g == u64::MAX {
        0
    } else {
        g + 1
    }
}

impl Default for ActivityBarHoverState {
    /// Outside the region, collapsed, at token zero.
    fn default() -> (r: Self)
        ensures
            r@ == (HoverView { generation: 0, hovered: false, expanded: false }),
    {
        ActivityBarHoverState { generation: 0, hovered: false, expanded: false }
    }
}

impl ActivityBarHoverState {
    /// Records pointer entry and returns the only token currently allowed to open.
    pub fn enter(&mut self) -> (r: HoverGeneration)
        ensures
            final(self)@ == after_enter(old(self)@),
            r.0 == final(self)@.generation,
    {
        self.generation = following(self.generation);
        self.hovered = true;
        HoverGeneration(self.generation)
    }

    /// Collapse immediately and invalidate all delayed entry callbacks.
    pub fn leave(&mut self)
        ensures
            final(self)@ == after_leave(old(self)@),
    {
        self.generation = following(self.generation);
        self.hovered = false;
        self.expanded = false;
    }

    /// Applies a delayed open only if its token is current and the pointer remains inside.
    pub fn apply_open(&mut self, generation: HoverGeneration) -> (r: bool)
        ensures
            r == open_accepted(old(self)@, generation.0),
            final(self)@ == after_open(old(self)@, generation.0),
    {
        if self.hovered && generation.0 == self.generation {
            self.expanded = true;
            true
        } else {
            false
        }
    }

    /// Returns whether the logical pointer state is inside the tracked region.
    pub fn is_hovered(self) -> (r: bool)
        ensures
            r == self@.hovered,
    {
        self.hovered
    }

    /// Returns whether a valid open callback has expanded this logical state.
    pub fn is_expanded(self) -> (r: bool)
        ensures
            r == self@.expanded,
    {
        self.expanded
    }

    /// Returns the current token.
    pub fn generation(self) -> (r: HoverGeneration)
        ensures
            r.0 == self@.generation,
    {
        HoverGeneration(self.generation)
    }
}

/// Leaving collapses at once, and no token, old or current, can reopen
/// until the pointer enters again.
pub proof fn lemma_leave_rejects_every_token(s: HoverView, g: u64)
    ensures
        !after_leave(s).expanded,
        !open_accepted(after_leave(s), g),
        after_open(after_leave(s), g) == after_leave(s),
{
}

/// The token returned by an entry opens the state it was issued for, and a
/// second entry makes it stale.
pub proof fn lemma_reentry_rejects_previous_token(s: HoverView)
    ensures
        open_accepted(after_enter(s), after_enter(s).generation),
        !open_accepted(after_enter(after_enter(s)), after_enter(s).generation),
        open_accepted(after_enter(after_enter(s)), after_enter(after_enter(s)).generation),
{
}

/// A token issued before a leave stays stale after the next entry.
pub proof fn lemma_token_before_leave_stays_stale(s: HoverView)
    ensures
        !open_accepted(after_enter(after_leave(after_enter(s))), after_enter(s).generation),
{
}

} // verus!
