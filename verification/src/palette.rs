//! Command-palette entries for pane commands, live pane focus, and the
//! activities visible in one pane, with the metadata a selection dispatches.

use vstd::prelude::*;

use crate::activity_catalog::{
    shape_of, shapes_of, ActivityCatalog, ActivityCatalogGroup, ActivityNode, VisibleActivityNode,
    VisibleShape, projected_nodes, nodes_visible_ids, shapes_ids, shape_ids,
    lemma_projection_keeps_visible_activities,
};
use crate::command::{
    command_catalog, command_description, command_error_message, command_group, command_id,
    command_name, group_label_spec, lemma_catalog_commands_nameable, PaneCommand, PaneCommandError,
};
use crate::ids::{ActivityId, PaneId};
use crate::text::{decimal, decimal_string, join, join_strings, texts};

verus! {

/// Action metadata attached to a palette entry.
#[derive(Clone, Debug, PartialEq, Eq)]
pub enum PaletteInvocation {
    /// Dispatch a pane-management command.
    PaneCommand(PaneCommand),
    /// Select an activity in a specific pane.
    SelectActivity {
        /// Pane that should receive the activity selection.
        pane: PaneId,
        /// Activity to select.
        activity: ActivityId,
    },
}

/// A palette invocation with its identities taken as strings.
pub enum InvocationView {
    PaneCommand(PaneCommand),
    SelectActivity(Seq<char>, Seq<char>),
}

impl View for PaletteInvocation {
    type V = InvocationView;

    open spec fn view(&self) -> InvocationView {
        match self {
            PaletteInvocation::PaneCommand(c) => InvocationView::PaneCommand(*c),
            PaletteInvocation::SelectActivity { pane, activity } => InvocationView::SelectActivity(
                pane@,
                activity@,
            ),
        }
    }
}

impl PaletteInvocation {
    /// Returns the pane command, or `None` for an activity selection.
    pub fn pane_command(&self) -> (r: Option<PaneCommand>)
        ensures
            r == (match self@ {
                InvocationView::PaneCommand(c) => Some(c),
                _ => None,
            }),
    {
        match self {
            PaletteInvocation::PaneCommand(c) => Some(*c),
            _ => None,
        }
    }

    /// Returns the target pane and activity, or `None` for a pane command.
    pub fn activity(&self) -> (r: Option<(&PaneId, &ActivityId)>)
        ensures
            match self {
                PaletteInvocation::SelectActivity { pane, activity } => r == Some((pane, activity)),
                _ => r is None,
            },
    {
        match self {
            PaletteInvocation::SelectActivity { pane, activity } => Some((pane, activity)),
            _ => None,
        }
    }

    /// Copies the invocation, keeping its identities' spelling.
    pub fn duplicate(&self) -> (r: Self)
        ensures
            r@ == self@,
    {
        match self {
            PaletteInvocation::PaneCommand(c) => PaletteInvocation::PaneCommand(*c),
            PaletteInvocation::SelectActivity { pane, activity } => PaletteInvocation::SelectActivity {
                pane: pane.duplicate(),
                activity: activity.duplicate(),
            },
        }
    }
}

/// Failure returned when executing palette metadata against the current view.
#[derive(Clone, Debug, PartialEq, Eq)]
#[non_exhaustive]
pub enum PaletteInvocationError {
    /// The pane command was rejected.
    Command(PaneCommandError),
    /// The invocation names a pane that no longer exists.
    PaneNotFound(PaneId),
    /// The activity is absent from the pane's current visible catalog projection.
    ActivityNotVisible {
        /// Pane whose visible activities were checked.
        pane: PaneId,
        /// Requested activity that was not visible.
        activity: ActivityId,
    },
}

/// The text of an invocation failure.
pub open spec fn invocation_error_message(e: PaletteInvocationError) -> Seq<char> {
    match e {
        PaletteInvocationError::Command(c) => command_error_message(c),
        PaletteInvocationError::PaneNotFound(p) => "pane `"@ + p@ + "` does not exist"@,
        PaletteInvocationError::ActivityNotVisible { pane, activity } => "activity `"@ + activity@
            + "` is not visible in pane `"@ + pane@ + "`"@,
    }
}

impl PaletteInvocationError {
    /// Human-readable description of the failure.
    pub fn message(&self) -> (r: String)
        ensures
            r@ == invocation_error_message(*self),
    {
        match self {
            PaletteInvocationError::Command(c) => String::from_str(c.message()),
            PaletteInvocationError::PaneNotFound(p) => {
                let mut r = String::from_str("pane `");
                r.append(p.0.as_str());
                r.append("` does not exist");
                r
            },
            PaletteInvocationError::ActivityNotVisible { pane, activity } => {
                let mut r = String::from_str("activity `");
                r.append(activity.0.as_str());
                r.append("` is not visible in pane `");
                r.append(pane.0.as_str());
                r.append("`");
                r
            },
        }
    }

    /// The rejected pane command's error, the underlying cause of a `Command` failure.
    pub fn source(&self) -> (r: Option<PaneCommandError>)
        ensures
            r == (match *self {
                PaletteInvocationError::Command(c) => Some(c),
                _ => None,
            }),
    {
        match self {
            PaletteInvocationError::Command(c) => Some(*c),
            _ => None,
        }
    }
}

/// One palette entry: identity, labels, dispatch metadata, and optional children.
pub struct PaletteEntry {
    /// Stable entry identity.
    pub id: String,
    /// Displayed name.
    pub name: String,
    /// One-line explanation.
    pub description: String,
    /// Group heading.
    pub group: String,
    /// What selecting the entry dispatches.
    pub metadata: PaletteInvocation,
    /// Child entries offered after selecting this one.
    pub children: Vec<PaletteEntry>,
    /// Whether a search also matches the children.
    pub searchable_children: bool,
}

/// A palette entry with its strings taken as character sequences.
pub struct EntryView {
    pub id: Seq<char>,
    pub name: Seq<char>,
    pub description: Seq<char>,
    pub group: Seq<char>,
    pub metadata: InvocationView,
    pub children: Seq<EntryView>,
    pub searchable_children: bool,
}

pub open spec fn entry_view(e: PaletteEntry) -> EntryView
    decreases e,
{
    EntryView {
        id: e.id@,
        name: e.name@,
        description: e.description@,
        group: e.group@,
        metadata: e.metadata@,
        children: entries_view(e.children@),
        searchable_children: e.searchable_children,
    }
}

pub open spec fn entries_view(s: Seq<PaletteEntry>) -> Seq<EntryView>
    decreases s,
{
    if s.len() == 0 {
        Seq::empty()
    } else {
        entries_view(s.drop_last()).push(entry_view(s.last()))
    }
}

/// A childless entry.
pub open spec fn leaf_entry(
    id: Seq<char>,
    name: Seq<char>,
    description: Seq<char>,
    group: Seq<char>,
    metadata: InvocationView,
) -> EntryView {
    EntryView { id, name, description, group, metadata, children: Seq::empty(), searchable_children: false }
}

/// The entry of a pane command: its id, name, description, and group label.
pub open spec fn command_entry(c: PaneCommand) -> EntryView {
    leaf_entry(
        command_id(c),
        command_name(c),
        command_description(c),
        group_label_spec(command_group(c)),
        InvocationView::PaneCommand(c),
    )
}

/// Entries of `cmds` in order, leaving out split commands unless `can_split`.
pub open spec fn command_entries(cmds: Seq<PaneCommand>, can_split: bool) -> Seq<EntryView>
    decreases cmds.len(),
{
    if cmds.len() == 0 {
        Seq::empty()
    } else if can_split || !(cmds.last() is Split) {
        command_entries(cmds.drop_last(), can_split).push(command_entry(cmds.last()))
    } else {
        command_entries(cmds.drop_last(), can_split)
    }
}

/// The entry that focuses the pane at zero-based position `i`, shown one-based.
pub open spec fn focus_entry(i: nat, pane: Seq<char>) -> EntryView {
    leaf_entry(
        "mullion.focus.pane."@ + pane,
        decimal(i + 1) + " · "@ + pane,
        "Focus this pane"@,
        "Mullion · Focus"@,
        InvocationView::PaneCommand(PaneCommand::FocusIndex(i as usize)),
    )
}

pub open spec fn focus_entries(panes: Seq<Seq<char>>) -> Seq<EntryView> {
    Seq::new(panes.len(), |i: int| focus_entry(i as nat, panes[i]))
}

pub open spec fn pane_views(v: Seq<PaneId>) -> Seq<Seq<char>> {
    v.map_values(|p: PaneId| p@)
}

/// The top-level palette: a searchable pane picker, then the command entries.
pub open spec fn mullion_entries(panes: Seq<Seq<char>>, can_split: bool) -> Seq<EntryView> {
    seq![
        EntryView {
            id: "mullion.focus.pane"@,
            name: "Focus Pane…"@,
            description: "Choose a pane from the live Mullion layout"@,
            group: "Mullion · Focus"@,
            metadata: InvocationView::PaneCommand(PaneCommand::FocusIndex(0)),
            children: focus_entries(panes),
            searchable_children: true,
        },
    ] + command_entries(command_catalog(), can_split)
}

/// Group heading of an activity entry under category path `path`.
pub open spec fn activity_group_label(group: ActivityCatalogGroup, path: Seq<char>) -> Seq<char> {
    if path.len() == 0 {
        match group {
            ActivityCatalogGroup::Primary => "Mullion · Activities"@,
            ActivityCatalogGroup::Trailing => "Mullion · Activities · Trailing"@,
        }
    } else {
        "Mullion · Activities · "@ + path
    }
}

/// Entries of the activities in one visible shape, where `crumbs` are the
/// names of the categories enclosing it.
pub open spec fn shape_entries<C>(
    n: VisibleShape<C>,
    group: ActivityCatalogGroup,
    pane: Seq<char>,
    crumbs: Seq<Seq<char>>,
) -> Seq<EntryView>
    decreases n,
{
    match n {
        VisibleShape::Activity { id, name, .. } => {
            let path = join(crumbs, " › "@);
            seq![
                leaf_entry(
                    "mullion.activity."@ + pane + "."@ + id,
                    name,
                    if path.len() == 0 {
                        "Select this activity in pane "@ + pane
                    } else {
                        "Select from "@ + path + " in pane "@ + pane
                    },
                    activity_group_label(group, path),
                    InvocationView::SelectActivity(pane, id),
                ),
            ]
        },
        VisibleShape::Category { name, children, .. } => shapes_entries(
            children,
            group,
            pane,
            crumbs.push(name),
        ),
    }
}

pub open spec fn shapes_entries<C>(
    s: Seq<VisibleShape<C>>,
    group: ActivityCatalogGroup,
    pane: Seq<char>,
    crumbs: Seq<Seq<char>>,
) -> Seq<EntryView>
    decreases s,
{
    if s.len() == 0 {
        Seq::empty()
    } else {
        shapes_entries(s.drop_last(), group, pane, crumbs) + shape_entries(s.last(), group, pane, crumbs)
    }
}

proof fn lemma_entries_view_push(s: Seq<PaletteEntry>, e: PaletteEntry)
    ensures
        entries_view(s.push(e)) == entries_view(s).push(entry_view(e)),
{
    assert(s.push(e).drop_last() =~= s);
}

fn command_palette_entry(command: PaneCommand) -> (r: PaletteEntry)
    requires
        !(command is FocusIndex),
    ensures
        entry_view(r) == command_entry(command),
{
    let r = PaletteEntry {
        id: command.id(),
        name: command.name(),
        description: String::from_str(command.description()),
        group: String::from_str(command.group().label()),
        metadata: PaletteInvocation::PaneCommand(command),
        children: Vec::new(),
        searchable_children: false,
    };
    assert(entries_view(r.children@) =~= Seq::<EntryView>::empty());
    r
}

/// Projects the static pane-command catalog into palette entries.
///
/// When `can_split` is `false`, both split-direction commands are omitted.
/// Catalog order and command identifiers are preserved.
pub fn pane_command_palette_entries(can_split: bool) -> (r: Vec<PaletteEntry>)
    ensures
        entries_view(r@) == command_entries(command_catalog(), can_split),
{
    let commands = PaneCommand::catalog();
    let mut r: Vec<PaletteEntry> = Vec::new();
    proof {
        lemma_catalog_commands_nameable();
    }
    let n = commands.len();
    assert(commands@.take(0) =~= Seq::<PaneCommand>::empty());
    for i in 0..n
        invariant
            n == commands@.len(),
            commands@ == command_catalog(),
            forall|k: int| 0 <= k < command_catalog().len() ==> !(#[trigger] command_catalog()[k] is FocusIndex),
            entries_view(r@) == command_entries(commands@.take(i as int), can_split),
    {
        let command = commands[i];
        assert(commands@.take((i + 1) as int).drop_last() =~= commands@.take(i as int));
        assert(commands@.take((i + 1) as int).last() == command);
        let keep = match command {
            PaneCommand::Split(_) => can_split,
            _ => true,
        };
        if keep {
            let entry = command_palette_entry(command);
            proof {
                lemma_entries_view_push(r@, entry);
            }
            r.push(entry);
        }
    }
    assert(commands@.take(n as int) =~= commands@);
    r
}

/// Creates focus commands for `panes` in slice order.
///
/// Each command uses its zero-based slice position as `FocusIndex` while its
/// displayed ordinal is one-based.
pub fn focus_index_palette_entries(panes: &[PaneId]) -> (r: Vec<PaletteEntry>)
    ensures
        entries_view(r@) == focus_entries(pane_views(panes@)),
{
    let mut r: Vec<PaletteEntry> = Vec::new();
    let n = panes.len();
    let ghost views = pane_views(panes@);
    for i in 0..n
        invariant
            n == panes@.len(),
            views == pane_views(panes@),
            entries_view(r@) == focus_entries(views).take(i as int),
    {
        let pane = &panes[i];
        let mut id = String::from_str("mullion.focus.pane.");
        id.append(pane.0.as_str());
        let mut name = decimal_string(i + 1);
        name.append(" · ");
        name.append(pane.0.as_str());
        let entry = PaletteEntry {
            id,
            name,
            description: String::from_str("Focus this pane"),
            group: String::from_str("Mullion · Focus"),
            metadata: PaletteInvocation::PaneCommand(PaneCommand::FocusIndex(i)),
            children: Vec::new(),
            searchable_children: false,
        };
        proof {
            assert(entries_view(entry.children@) =~= Seq::<EntryView>::empty());
            assert(views[i as int] == pane@);
            assert(entry_view(entry) == focus_entry(i as nat, views[i as int]));
            lemma_entries_view_push(r@, entry);
            assert(focus_entries(views).take((i + 1) as int) =~= focus_entries(views).take(i as int).push(
                focus_entry(i as nat, views[i as int]),
            ));
        }
        r.push(entry);
    }
    assert(focus_entries(views).take(n as int) =~= focus_entries(views));
    r
}

/// Builds the top-level palette, including the live pane picker.
///
/// The first entry is a searchable child entry for `panes`; remaining entries
/// are produced by [`pane_command_palette_entries`].
pub fn mullion_palette_entries(panes: &[PaneId], can_split: bool) -> (r: Vec<PaletteEntry>)
    ensures
        entries_view(r@) == mullion_entries(pane_views(panes@), can_split),
{
    let focus_children = focus_index_palette_entries(panes);
    let focus = PaletteEntry {
        id: String::from_str("mullion.focus.pane"),
        name: String::from_str("Focus Pane…"),
        description: String::from_str("Choose a pane from the live Mullion layout"),
        group: String::from_str("Mullion · Focus"),
        metadata: PaletteInvocation::PaneCommand(PaneCommand::FocusIndex(0)),
        children: focus_children,
        searchable_children: true,
    };
    let mut r: Vec<PaletteEntry> = Vec::new();
    proof {
        lemma_entries_view_push(r@, focus);
        assert(r@.push(focus) =~= seq![focus]);
    }
    r.push(focus);
    let mut rest = pane_command_palette_entries(can_split);
    let ghost first = entries_view(r@);
    let ghost tail = entries_view(rest@);
    proof {
        lemma_entries_view_concat(r@, rest@);
    }
    r.append(&mut rest);
    r
}

proof fn lemma_entries_view_concat(a: Seq<PaletteEntry>, b: Seq<PaletteEntry>)
    ensures
        entries_view(a + b) == entries_view(a) + entries_view(b),
    decreases b.len(),
{
    if b.len() == 0 {
        assert(a + b =~= a);
        assert(entries_view(a) + entries_view(b) =~= entries_view(a));
    } else {
        assert((a + b).drop_last() =~= a + b.drop_last());
        lemma_entries_view_concat(a, b.drop_last());
        assert(entries_view(a) + entries_view(b) =~= (entries_view(a) + entries_view(b.drop_last())).push(
            entry_view(b.last()),
        ));
    }
}

proof fn lemma_shapes_entries_push<C>(
    s: Seq<VisibleShape<C>>,
    n: VisibleShape<C>,
    group: ActivityCatalogGroup,
    pane: Seq<char>,
    crumbs: Seq<Seq<char>>,
)
    ensures
        shapes_entries(s.push(n), group, pane, crumbs) == shapes_entries(s, group, pane, crumbs)
            + shape_entries(n, group, pane, crumbs),
{
    assert(s.push(n).drop_last() =~= s);
}

fn flatten_activities<C>(
    nodes: &[VisibleActivityNode<C>],
    catalog_group: ActivityCatalogGroup,
    pane: &PaneId,
    breadcrumbs: &mut Vec<String>,
    entries: &mut Vec<PaletteEntry>,
)
    ensures
        final(breadcrumbs)@ == old(breadcrumbs)@,
        entries_view(final(entries)@) == entries_view(old(entries)@) + shapes_entries(
            shapes_of(nodes@),
            catalog_group,
            pane@,
            texts(old(breadcrumbs)@),
        ),
    decreases nodes@,
{
    let ghost crumbs0 = breadcrumbs@;
    let ghost e0 = entries_view(entries@);
    let n = nodes.len();
    assert(nodes@.take(0) =~= Seq::<VisibleActivityNode<C>>::empty());
    assert(e0 + Seq::<EntryView>::empty() =~= e0);
    for i in 0..n
        invariant
            n == nodes@.len(),
            crumbs0 == old(breadcrumbs)@,
            e0 == entries_view(old(entries)@),
            breadcrumbs@ == crumbs0,
            entries_view(entries@) == e0 + shapes_entries(
                shapes_of(nodes@.take(i as int)),
                catalog_group,
                pane@,
                texts(crumbs0),
            ),
    {
        let ghost done = shapes_of(nodes@.take(i as int));
        let ghost node = nodes@[i as int];
        proof {
            assert(nodes@.take((i + 1) as int).drop_last() =~= nodes@.take(i as int));
            assert(nodes@.take((i + 1) as int).last() == node);
            assert(shapes_of(nodes@.take((i + 1) as int)) == done.push(shape_of(node)));
            lemma_shapes_entries_push(done, shape_of(node), catalog_group, pane@, texts(crumbs0));
        }
        match &nodes[i] {
            VisibleActivityNode::Activity(visible) => {
                let activity = &visible.activity;
                let path = join_strings(breadcrumbs, " › ");
                let empty_path = path.as_str().is_empty();
                let group = if empty_path {
                    match catalog_group {
                        ActivityCatalogGroup::Primary => String::from_str("Mullion · Activities"),
                        ActivityCatalogGroup::Trailing => String::from_str("Mullion · Activities · Trailing"),
                    }
                } else {
                    let mut g = String::from_str("Mullion · Activities · ");
                    g.append(path.as_str());
                    g
                };
                let mut id = String::from_str("mullion.activity.");
                id.append(pane.0.as_str());
                id.append(".");
                id.append(activity.id.0.as_str());
                let description = if empty_path {
                    let mut d = String::from_str("Select this activity in pane ");
                    d.append(pane.0.as_str());
                    d
                } else {
                    let mut d = String::from_str("Select from ");
                    d.append(path.as_str());
                    d.append(" in pane ");
                    d.append(pane.0.as_str());
                    d
                };
                let entry = PaletteEntry {
                    id,
                    name: activity.name.clone(),
                    description,
                    group,
                    metadata: PaletteInvocation::SelectActivity {
                        pane: pane.duplicate(),
                        activity: activity.id.duplicate(),
                    },
                    children: Vec::new(),
                    searchable_children: false,
                };
                proof {
                    assert(entries_view(entry.children@) =~= Seq::<EntryView>::empty());
                    assert(shape_entries(shape_of(node), catalog_group, pane@, texts(crumbs0)) == seq![
                        entry_view(entry),
                    ]);
                    lemma_entries_view_push(entries@, entry);
                }
                entries.push(entry);
                assert(entries_view(entries@) =~= e0 + shapes_entries(
                    shapes_of(nodes@.take((i + 1) as int)),
                    catalog_group,
                    pane@,
                    texts(crumbs0),
                ));
            },
            VisibleActivityNode::Category(category) => {
                let ghost before = entries_view(entries@);
                breadcrumbs.push(category.name.clone());
                proof {
                    assert(texts(breadcrumbs@) =~= texts(crumbs0).push(category.name@));
                }
                flatten_activities(category.children.as_slice(), catalog_group, pane, breadcrumbs, entries);
                breadcrumbs.pop();
                proof {
                    assert(breadcrumbs@ =~= crumbs0);
                }
                assert(entries_view(entries@) =~= e0 + shapes_entries(
                    shapes_of(nodes@.take((i + 1) as int)),
                    catalog_group,
                    pane@,
                    texts(crumbs0),
                ));
            },
        }
    }
    assert(nodes@.take(n as int) =~= nodes@);
}

/// Projects the activities visible in one pane into palette entries.
///
/// Category breadcrumbs become entry groups, leading entries precede trailing
/// entries, and hidden activities are omitted.
pub fn activity_palette_entries<C: Copy>(catalog: &ActivityCatalog<C>, pane: &PaneId) -> (r: Vec<PaletteEntry>)
    ensures
        entries_view(r@) == shapes_entries(
            projected_nodes(catalog.primary_nodes(), None, catalog.category_chrome_entries()),
            ActivityCatalogGroup::Primary,
            pane@,
            Seq::empty(),
        ) + shapes_entries(
            projected_nodes(catalog.trailing_nodes(), None, catalog.category_chrome_entries()),
            ActivityCatalogGroup::Trailing,
            pane@,
            Seq::empty(),
        ),
{
    let projection = catalog.visible(None);
    let mut entries: Vec<PaletteEntry> = Vec::new();
    let mut crumbs: Vec<String> = Vec::new();
    assert(texts(crumbs@) =~= Seq::<Seq<char>>::empty());
    assert(entries_view(entries@) =~= Seq::<EntryView>::empty());
    flatten_activities(projection.primary.as_slice(), ActivityCatalogGroup::Primary, pane, &mut crumbs, &mut entries);
    flatten_activities(projection.trailing.as_slice(), ActivityCatalogGroup::Trailing, pane, &mut crumbs, &mut entries);
    assert(Seq::<EntryView>::empty() + shapes_entries(
        projected_nodes(catalog.primary_nodes(), None, catalog.category_chrome_entries()),
        ActivityCatalogGroup::Primary,
        pane@,
        Seq::empty(),
    ) =~= shapes_entries(
        projected_nodes(catalog.primary_nodes(), None, catalog.category_chrome_entries()),
        ActivityCatalogGroup::Primary,
        pane@,
        Seq::empty(),
    ));
    entries
}

/// The activities selected by a list of entries, in order.
pub open spec fn selected_activities(s: Seq<EntryView>) -> Seq<Seq<char>>
    decreases s.len(),
{
    if s.len() == 0 {
        Seq::empty()
    } else {
        match s.last().metadata {
            InvocationView::SelectActivity(_, a) => selected_activities(s.drop_last()).push(a),
            _ => selected_activities(s.drop_last()),
        }
    }
}

proof fn lemma_selected_concat(a: Seq<EntryView>, b: Seq<EntryView>)
    ensures
        selected_activities(a + b) == selected_activities(a) + selected_activities(b),
    decreases b.len(),
{
    if b.len() == 0 {
        assert(a + b =~= a);
        assert(selected_activities(a) + selected_activities(b) =~= selected_activities(a));
    } else {
        assert((a + b).drop_last() =~= a + b.drop_last());
        lemma_selected_concat(a, b.drop_last());
        match b.last().metadata {
            InvocationView::SelectActivity(_, x) => {
                assert(selected_activities(a) + selected_activities(b) =~= (selected_activities(a)
                    + selected_activities(b.drop_last())).push(x));
            },
            _ => {},
        }
    }
}

proof fn lemma_shape_entries_select<C>(
    n: VisibleShape<C>,
    group: ActivityCatalogGroup,
    pane: Seq<char>,
    crumbs: Seq<Seq<char>>,
)
    ensures
        selected_activities(shape_entries(n, group, pane, crumbs)) == shape_ids(n),
    decreases n,
{
    match n {
        VisibleShape::Activity { id, .. } => {
            let s = shape_entries(n, group, pane, crumbs);
            assert(s.len() == 1);
            assert(s.drop_last() =~= Seq::<EntryView>::empty());
            assert(selected_activities(s.drop_last()) == Seq::<Seq<char>>::empty());
            assert(s.last().metadata == InvocationView::SelectActivity(pane, id));
            assert(selected_activities(s) =~= seq![id]);
        },
        VisibleShape::Category { name, children, .. } => {
            lemma_shapes_entries_select(children, group, pane, crumbs.push(name));
        },
    }
}

proof fn lemma_shapes_entries_select<C>(
    s: Seq<VisibleShape<C>>,
    group: ActivityCatalogGroup,
    pane: Seq<char>,
    crumbs: Seq<Seq<char>>,
)
    ensures
        selected_activities(shapes_entries(s, group, pane, crumbs)) == shapes_ids(s),
    decreases s,
{
    if s.len() > 0 {
        lemma_shapes_entries_select(s.drop_last(), group, pane, crumbs);
        lemma_shape_entries_select(s.last(), group, pane, crumbs);
        lemma_selected_concat(
            shapes_entries(s.drop_last(), group, pane, crumbs),
            shape_entries(s.last(), group, pane, crumbs),
        );
    }
}

/// Activity entries select exactly the activities visible in the pane, each
/// once, leading group first, in catalog order; hidden activities get none.
pub proof fn lemma_activity_entries_select_visible<C>(catalog: ActivityCatalog<C>, pane: Seq<char>)
    ensures
        selected_activities(
            shapes_entries(
                projected_nodes(catalog.primary_nodes(), None, catalog.category_chrome_entries()),
                ActivityCatalogGroup::Primary,
                pane,
                Seq::empty(),
            ) + shapes_entries(
                projected_nodes(catalog.trailing_nodes(), None, catalog.category_chrome_entries()),
                ActivityCatalogGroup::Trailing,
                pane,
                Seq::empty(),
            ),
        ) == nodes_visible_ids(catalog.primary_nodes()) + nodes_visible_ids(catalog.trailing_nodes()),
{
    let ch = catalog.category_chrome_entries();
    let p = projected_nodes(catalog.primary_nodes(), None, ch);
    let t = projected_nodes(catalog.trailing_nodes(), None, ch);
    lemma_projection_keeps_visible_activities(catalog.primary_nodes(), None, ch);
    lemma_projection_keeps_visible_activities(catalog.trailing_nodes(), None, ch);
    lemma_shapes_entries_select(p, ActivityCatalogGroup::Primary, pane, Seq::empty());
    lemma_shapes_entries_select(t, ActivityCatalogGroup::Trailing, pane, Seq::empty());
    lemma_selected_concat(
        shapes_entries(p, ActivityCatalogGroup::Primary, pane, Seq::empty()),
        shapes_entries(t, ActivityCatalogGroup::Trailing, pane, Seq::empty()),
    );
}

/// Without splitting, no command entry dispatches a split; with it, every
/// catalog command has its entry, in catalog order.
pub proof fn lemma_split_entries_follow_availability(cmds: Seq<PaneCommand>)
    ensures
        forall|k: int|
            0 <= k < command_entries(cmds, false).len() ==> !(#[trigger] command_entries(cmds, false)[k].metadata matches InvocationView::PaneCommand(
                PaneCommand::Split(_),
            )),
        command_entries(cmds, true) == cmds.map_values(|c: PaneCommand| command_entry(c)),
    decreases cmds.len(),
{
    if cmds.len() > 0 {
        lemma_split_entries_follow_availability(cmds.drop_last());
        assert(cmds.map_values(|c: PaneCommand| command_entry(c)) =~= cmds.drop_last().map_values(
            |c: PaneCommand| command_entry(c),
        ).push(command_entry(cmds.last())));
    } else {
        assert(cmds.map_values(|c: PaneCommand| command_entry(c)) =~= Seq::<EntryView>::empty());
    }
}

} // verus!
