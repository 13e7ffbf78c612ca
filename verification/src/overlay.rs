//! Window-level overlay identities, stacking tiers, policy rules, and an
//! insertion-ordered stack with atomic mutation batches.

use vstd::prelude::*;

verus! {

/// Stable application-provided identity for an overlay.
#[derive(Clone, Debug, PartialEq, Eq, Hash, PartialOrd, Ord)]
pub struct OverlayId(String);

impl View for OverlayId {
    type V = Seq<char>;

    closed spec fn view(&self) -> Seq<char> {
        self.0@
    }
}

impl OverlayId {
    /// Creates an identity from an application-defined string, preserved verbatim.
    pub fn new(id: &str) -> (r: Self)
        ensures
            r@ == id@,
    {
        OverlayId(String::from_str(id))
    }

    /// Creates an identity that owns `id`.
    pub fn from_string(id: String) -> (r: Self)
        ensures
            r@ == id@,
    {
        OverlayId(id)
    }

    /// Returns the application-defined identity as a string slice.
    pub fn as_str(&self) -> (r: &str)
        ensures
            r@ == self@,
    {
        self.0.as_str()
    }

    /// An identity with the same spelling.
    pub fn duplicate(&self) -> (r: Self)
        ensures
            r == *self,
    {
        OverlayId(self.0.clone())
    }

    fn same(&self, other: &OverlayId) -> (r: bool)
        ensures
            r == (self@ == other@),
    {
        self.0 == other.0
    }
}

/// Deterministic stacking bands above pane chrome.
#[derive(Clone, Copy, Debug, PartialEq, Eq, Hash, PartialOrd, Ord, Structural)]
pub enum OverlayTier {
    /// Modal content, painted below notifications and drag affordances.
    Modal,
    /// Transient notification content.
    Toast,
    /// Drag-and-drop affordances, painted above every other tier.
    Drag,
}

pub open spec fn tier_z(t: OverlayTier) -> u8 {
    match t {
        OverlayTier::Modal => 10,
        OverlayTier::Toast => 20,
        OverlayTier::Drag => 30,
    }
}

impl Default for OverlayTier {
    /// Overlays are modal unless configured otherwise.
    fn default() -> (r: Self)
        ensures
            r == OverlayTier::Modal,
    {
        OverlayTier::Modal
    }
}

impl OverlayTier {
    /// The primary paint-order key: 10, 20 and 30 for modal, toast and drag.
    pub fn z_order(self) -> (r: u8)
        ensures
            r == tier_z(self),
    {
        match self {
            OverlayTier::Modal => 10,
            OverlayTier::Toast => 20,
            OverlayTier::Drag => 30,
        }
    }
}

/// Alignment along one viewport axis.
#[derive(Clone, Copy, Debug, PartialEq, Eq, Structural)]
pub enum OverlayAlignment {
    Start,
    Center,
    End,
    Stretch,
}

impl Default for OverlayAlignment {
    /// Centered unless configured otherwise.
    fn default() -> (r: Self)
        ensures
            r == OverlayAlignment::Center,
    {
        OverlayAlignment::Center
    }
}

/// Viewport placement for overlay content.
#[derive(Clone, Copy, Debug, PartialEq, Eq, Structural)]
pub struct OverlayPlacement {
    pub horizontal: OverlayAlignment,
    pub vertical: OverlayAlignment,
}

impl Default for OverlayPlacement {
    /// Centered on both axes.
    fn default() -> (r: Self)
        ensures
            r == (OverlayPlacement { horizontal: OverlayAlignment::Center, vertical: OverlayAlignment::Center }),
    {
        OverlayPlacement { horizontal: OverlayAlignment::Center, vertical: OverlayAlignment::Center }
    }
}

impl OverlayPlacement {
    /// Creates a placement from independent horizontal and vertical alignments.
    pub fn new(horizontal: OverlayAlignment, vertical: OverlayAlignment) -> (r: Self)
        ensures
            r == (OverlayPlacement { horizontal, vertical }),
    {
        OverlayPlacement { horizontal, vertical }
    }

    /// Placement centered on both viewport axes.
    pub fn center() -> (r: Self)
        ensures
            r == (OverlayPlacement { horizontal: OverlayAlignment::Center, vertical: OverlayAlignment::Center }),
    {
        OverlayPlacement { horizontal: OverlayAlignment::Center, vertical: OverlayAlignment::Center }
    }

    /// Placement stretched across both viewport axes.
    pub fn fill() -> (r: Self)
        ensures
            r == (OverlayPlacement { horizontal: OverlayAlignment::Stretch, vertical: OverlayAlignment::Stretch }),
    {
        OverlayPlacement { horizontal: OverlayAlignment::Stretch, vertical: OverlayAlignment::Stretch }
    }
}

/// Failure to validate or mutate an overlay policy or stack.
///
/// A rejected dimension is carried as the decimal text of its value.
#[derive(Clone, Debug, PartialEq)]
pub enum OverlayError {
    /// An overlay identity is empty.
    EmptyId,
    /// More than one overlay has the contained identity.
    DuplicateId(OverlayId),
    /// A mutation refers to an identity not present in the stack.
    UnknownId(OverlayId),
    /// A requested dimension is non-finite or outside the range allowed for its kind.
    InvalidDimension { field: &'static str, value: String },
    /// A backdrop contains a non-finite channel or a channel outside `0.0..=1.0`.
    InvalidBackdrop,
    /// The identified overlay requests backdrop dismissal without having a backdrop.
    DismissWithoutBackdrop(OverlayId),
    /// The identified overlay combines click-through with backdrop dismissal.
    ClickThroughDismiss(OverlayId),
    /// The identified overlay combines click-through with accessible-modal behavior.
    ClickThroughModal(OverlayId),
    /// The identified overlay has an empty accessible label.
    EmptyA11yLabel(OverlayId),
}

impl OverlayError {
    /// The same error.
    pub fn duplicate(&self) -> (r: Self)
        ensures
            r == *self,
    {
        match self {
            OverlayError::EmptyId => OverlayError::EmptyId,
            OverlayError::DuplicateId(id) => OverlayError::DuplicateId(id.duplicate()),
            OverlayError::UnknownId(id) => OverlayError::UnknownId(id.duplicate()),
            OverlayError::InvalidDimension { field, value } => OverlayError::InvalidDimension {
                field: *field,
                value: value.clone(),
            },
            OverlayError::InvalidBackdrop => OverlayError::InvalidBackdrop,
            OverlayError::DismissWithoutBackdrop(id) => OverlayError::DismissWithoutBackdrop(id.duplicate()),
            OverlayError::ClickThroughDismiss(id) => OverlayError::ClickThroughDismiss(id.duplicate()),
            OverlayError::ClickThroughModal(id) => OverlayError::ClickThroughModal(id.duplicate()),
            OverlayError::EmptyA11yLabel(id) => OverlayError::EmptyA11yLabel(id.duplicate()),
        }
    }
}

/// The text of an overlay error.
pub open spec fn overlay_error_message(e: OverlayError) -> Seq<char> {
    match e {
        OverlayError::EmptyId => "overlay id must not be empty"@,
        OverlayError::DuplicateId(id) => "duplicate overlay id `"@ + id@ + "`"@,
        OverlayError::UnknownId(id) => "unknown overlay id `"@ + id@ + "`"@,
        OverlayError::InvalidDimension { field, value } => "invalid overlay "@ + field@ + " dimension `"@
            + value@ + "`"@,
        OverlayError::InvalidBackdrop => "backdrop channels must be finite and between zero and one"@,
        OverlayError::DismissWithoutBackdrop(id) => "overlay `"@ + id@ + "` cannot dismiss on a missing backdrop"@,
        OverlayError::ClickThroughDismiss(id) => "click-through overlay `"@ + id@
            + "` cannot dismiss on backdrop"@,
        OverlayError::ClickThroughModal(id) => "accessible modal `"@ + id@ + "` cannot be click-through"@,
        OverlayError::EmptyA11yLabel(id) => "overlay `"@ + id@ + "` has an empty accessibility label"@,
    }
}

impl OverlayError {
    /// Human-readable description of the error.
    pub fn message(&self) -> (r: String)
        ensures
            r@ == overlay_error_message(*self),
    {
        match self {
            OverlayError::EmptyId => String::from_str("overlay id must not be empty"),
            OverlayError::DuplicateId(id) => quoted("duplicate overlay id `", id.as_str(), "`"),
            OverlayError::UnknownId(id) => quoted("unknown overlay id `", id.as_str(), "`"),
            OverlayError::InvalidDimension { field, value } => {
                let mut r = String::from_str("invalid overlay ");
                r.append(field);
                r.append(" dimension `");
                r.append(value.as_str());
                r.append("`");
                r
            },
            OverlayError::InvalidBackdrop => String::from_str(
                "backdrop channels must be finite and between zero and one",
            ),
            OverlayError::DismissWithoutBackdrop(id) => quoted(
                "overlay `",
                id.as_str(),
                "` cannot dismiss on a missing backdrop",
            ),
            OverlayError::ClickThroughDismiss(id) => quoted(
                "click-through overlay `",
                id.as_str(),
                "` cannot dismiss on backdrop",
            ),
            OverlayError::ClickThroughModal(id) => quoted("accessible modal `", id.as_str(), "` cannot be click-through"),
            OverlayError::EmptyA11yLabel(id) => quoted(
                "overlay `",
                id.as_str(),
                "` has an empty accessibility label",
            ),
        }
    }
}

fn quoted(before: &str, middle: &str, after: &str) -> (r: String)
    ensures
        r@ == before@ + middle@ + after@,
{
    let mut r = String::from_str(before);
    r.append(middle);
    r.append(after);
    r
}

/// The verdict of the policy rules, in their checking order: identity,
/// then the geometric verdict (dimensions and backdrop channels), then
/// backdrop dismissal, click-through coherence and the accessible label.
pub open spec fn policy_verdict(
    id: OverlayId,
    geometry: Result<(), OverlayError>,
    has_backdrop: bool,
    dismiss_on_backdrop: bool,
    click_through: bool,
    a11y_modal: bool,
    a11y_label: Option<Seq<char>>,
) -> Result<(), OverlayError> {
    if id@.len() == 0 {
        Err(OverlayError::EmptyId)
    } else if geometry is Err {
        geometry
    } else if dismiss_on_backdrop && !has_backdrop {
        Err(OverlayError::DismissWithoutBackdrop(id))
    } else if click_through && dismiss_on_backdrop {
        Err(OverlayError::ClickThroughDismiss(id))
    } else if a11y_modal && click_through {
        Err(OverlayError::ClickThroughModal(id))
    } else if a11y_label matches Some(l) && l.len() == 0 {
        Err(OverlayError::EmptyA11yLabel(id))
    } else {
        Ok(())
    }
}

pub open spec fn label_text(l: &Option<String>) -> Option<Seq<char>> {
    match l {
        Some(s) => Some(s@),
        None => None,
    }
}

/// Validates the interaction rules of a policy whose geometric verdict
/// (dimensions and backdrop channels) is `geometry`.
pub fn check_policy(
    id: &OverlayId,
    geometry: Result<(), OverlayError>,
    has_backdrop: bool,
    dismiss_on_backdrop: bool,
    click_through: bool,
    a11y_modal: bool,
    a11y_label: &Option<String>,
) -> (r: Result<(), OverlayError>)
    ensures
        r == policy_verdict(
            *id,
            geometry,
            has_backdrop,
            dismiss_on_backdrop,
            click_through,
            a11y_modal,
            label_text(a11y_label),
        ),
{
    if id.as_str().is_empty() {
        return Err(OverlayError::EmptyId);
    }
    if geometry.is_err() {
        return geometry;
    }
    if dismiss_on_backdrop && !has_backdrop {
        return Err(OverlayError::DismissWithoutBackdrop(id.duplicate()));
    }
    if click_through && dismiss_on_backdrop {
        return Err(OverlayError::ClickThroughDismiss(id.duplicate()));
    }
    if a11y_modal && click_through {
        return Err(OverlayError::ClickThroughModal(id.duplicate()));
    }
    match a11y_label {
        Some(label) => {
            if label.as_str().is_empty() {
                return Err(OverlayError::EmptyA11yLabel(id.duplicate()));
            }
        },
        None => {},
    }
    Ok(())
}

// ------------------------------------------------------------------ the stack

/// One stacked overlay: its identity, tier, the verdict of its own policy
/// rules, and the host content carried with it.
pub struct OverlayEntry<C> {
    pub id: OverlayId,
    pub tier: OverlayTier,
    pub check: Result<(), OverlayError>,
    pub content: C,
}

impl<C> OverlayEntry<C> {
    /// An entry whose verdict is the policy rules applied to its identity,
    /// the host's geometric verdict (dimensions and backdrop channels), and
    /// its interaction settings.
    pub fn checked(
        id: OverlayId,
        tier: OverlayTier,
        geometry: Result<(), OverlayError>,
        has_backdrop: bool,
        dismiss_on_backdrop: bool,
        click_through: bool,
        a11y_modal: bool,
        a11y_label: &Option<String>,
        content: C,
    ) -> (r: Self)
        ensures
            r.id == id,
            r.tier == tier,
            r.content == content,
            r.check == policy_verdict(
                id,
                geometry,
                has_backdrop,
                dismiss_on_backdrop,
                click_through,
                a11y_modal,
                label_text(a11y_label),
            ),
    {
        let check = check_policy(
            &id,
            geometry,
            has_backdrop,
            dismiss_on_backdrop,
            click_through,
            a11y_modal,
            a11y_label,
        );
        OverlayEntry { id, tier, check, content }
    }
}

/// Ordered changes accepted by [`OverlayStack::apply_atomic`].
pub enum OverlayMutation<C> {
    /// Appends a new, uniquely identified overlay to insertion order.
    Push(OverlayEntry<C>),
    /// Removes the overlay with the given identity, or fails if it is absent.
    Remove(OverlayId),
    /// Replaces the matching overlay in place, preserving its position.
    Replace(OverlayEntry<C>),
    /// Moves the matching overlay to the end of insertion order.
    MoveToFront(OverlayId),
    /// Removes every overlay.
    Clear,
}

/// An insertion-ordered overlay collection.
pub struct OverlayStack<C> {
    overlays: Vec<OverlayEntry<C>>,
}

impl<C> View for OverlayStack<C> {
    type V = Seq<OverlayEntry<C>>;

    closed spec fn view(&self) -> Seq<OverlayEntry<C>> {
        self.overlays@
    }
}

/// Index of the first entry at or after `start` with identity `id`, or -1.
pub open spec fn first_from<C>(s: Seq<OverlayEntry<C>>, id: Seq<char>, start: int) -> int
    decreases s.len() - start,
{
    if start < 0 || start >= s.len() {
        -1
    } else if s[start].id@ == id {
        start
    } else {
        first_from(s, id, start + 1)
    }
}

/// Index of the first entry with identity `id`, or -1.
pub open spec fn index_of<C>(s: Seq<OverlayEntry<C>>, id: Seq<char>) -> int {
    first_from(s, id, 0)
}

/// The stack after one mutation, or the error that refuses it.
pub open spec fn apply_step<C>(s: Seq<OverlayEntry<C>>, m: OverlayMutation<C>) -> Result<Seq<OverlayEntry<C>>, OverlayError> {
    match m {
        OverlayMutation::Push(e) => if e.check is Err {
            Err(e.check->Err_0)
        } else if index_of(s, e.id@) >= 0 {
            Err(OverlayError::DuplicateId(e.id))
        } else {
            Ok(s.push(e))
        },
        OverlayMutation::Remove(id) => if index_of(s, id@) >= 0 {
            Ok(s.remove(index_of(s, id@)))
        } else {
            Err(OverlayError::UnknownId(id))
        },
        OverlayMutation::Replace(e) => if e.check is Err {
            Err(e.check->Err_0)
        } else if index_of(s, e.id@) >= 0 {
            Ok(s.update(index_of(s, e.id@), e))
        } else {
            Err(OverlayError::UnknownId(e.id))
        },
        OverlayMutation::MoveToFront(id) => if index_of(s, id@) >= 0 {
            Ok(s.remove(index_of(s, id@)).push(s[index_of(s, id@)]))
        } else {
            Err(OverlayError::UnknownId(id))
        },
        OverlayMutation::Clear => Ok(Seq::empty()),
    }
}

/// The stack after the mutations from position `k` on, in order, or the first refusal.
pub open spec fn apply_from<C>(s: Seq<OverlayEntry<C>>, ms: Seq<OverlayMutation<C>>, k: int) -> Result<Seq<OverlayEntry<C>>, OverlayError>
    decreases ms.len() - k,
{
    if k < 0 || k >= ms.len() {
        Ok(s)
    } else {
        match apply_step(s, ms[k]) {
            Ok(next) => apply_from(next, ms, k + 1),
            Err(e) => Err(e),
        }
    }
}

proof fn lemma_first_from<C>(s: Seq<OverlayEntry<C>>, id: Seq<char>, start: int)
    requires
        0 <= start <= s.len(),
    ensures
        first_from(s, id, start) == -1 ==> forall|k: int| start <= k < s.len() ==> (#[trigger] s[k]).id@ != id,
        first_from(s, id, start) != -1 ==> start <= first_from(s, id, start) < s.len() && s[first_from(
            s,
            id,
            start,
        )].id@ == id && forall|k: int| start <= k < first_from(s, id, start) ==> (#[trigger] s[k]).id@ != id,
    decreases s.len() - start,
{
    if start < s.len() {
        lemma_first_from(s, id, start + 1);
    }
}

/// Removing `id` succeeds exactly when some overlay has that identity; it
/// then takes out the first such overlay and keeps every other one, in order.
/// In a valid stack no overlay with that identity remains.
pub proof fn lemma_remove_takes_out_the_named_overlay<C>(s: Seq<OverlayEntry<C>>, id: OverlayId)
    ensures
        apply_from(s, seq![OverlayMutation::Remove(id)], 0) == apply_step(s, OverlayMutation::Remove(id)),
        apply_step(s, OverlayMutation::Remove(id)) is Ok <==> exists|k: int|
            0 <= k < s.len() && (#[trigger] s[k]).id@ == id@,
        apply_step(s, OverlayMutation::Remove(id)) matches Ok(t) ==> exists|k: int|
            {
                &&& 0 <= k < s.len()
                &&& s[k].id@ == id@
                &&& forall|j: int| 0 <= j < k ==> (#[trigger] s[j]).id@ != id@
                &&& t.len() == s.len() - 1
                &&& forall|j: int| 0 <= j < k ==> #[trigger] t[j] == s[j]
                &&& forall|j: int| k <= j < t.len() ==> #[trigger] t[j] == s[j + 1]
            },
{
    lemma_single_mutation(s, OverlayMutation::Remove(id));
    lemma_first_from(s, id@, 0);
    if index_of(s, id@) >= 0 {
        let k = index_of(s, id@);
        lemma_removed_entries(s, k);
        let t = s.remove(k);
        assert(apply_step(s, OverlayMutation::Remove(id)) == Ok::<Seq<OverlayEntry<C>>, OverlayError>(t));
        assert({
            &&& 0 <= k < s.len()
            &&& s[k].id@ == id@
            &&& forall|j: int| 0 <= j < k ==> (#[trigger] s[j]).id@ != id@
            &&& t.len() == s.len() - 1
            &&& forall|j: int| 0 <= j < k ==> #[trigger] t[j] == s[j]
            &&& forall|j: int| k <= j < t.len() ==> #[trigger] t[j] == s[j + 1]
        });
    } else {
        if exists|k: int| 0 <= k < s.len() && (#[trigger] s[k]).id@ == id@ {
            let k = choose|k: int| 0 <= k < s.len() && (#[trigger] s[k]).id@ == id@;
            assert(s[k].id@ != id@);
        }
    }
}

/// In a valid stack, a successful removal of `id` leaves no overlay with that identity.
pub proof fn lemma_remove_from_valid_stack<C>(s: Seq<OverlayEntry<C>>, id: OverlayId)
    requires
        stack_verdict(s) is Ok,
    ensures
        apply_step(s, OverlayMutation::Remove(id)) matches Ok(t) ==> forall|j: int|
            0 <= j < t.len() ==> (#[trigger] t[j]).id@ != id@,
{
    lemma_first_from(s, id@, 0);
    if index_of(s, id@) >= 0 {
        let k = index_of(s, id@);
        lemma_removed_entries(s, k);
        let t = s.remove(k);
        lemma_valid_stack(s);
        assert forall|j: int| 0 <= j < t.len() implies (#[trigger] t[j]).id@ != id@ by {
            if j < k {
                assert(t[j] == s[j]);
            } else {
                assert(t[j] == s[j + 1]);
                assert(s[k].id@ != s[j + 1].id@);
            }
        }
    }
}

proof fn lemma_single_mutation<C>(s: Seq<OverlayEntry<C>>, m: OverlayMutation<C>)
    ensures
        apply_from(s, seq![m], 0) == apply_step(s, m),
{
    let ms = seq![m];
    assert(ms[0] == m);
    match apply_step(s, m) {
        Ok(next) => {
            assert(apply_from(next, ms, 1) == Ok::<Seq<OverlayEntry<C>>, OverlayError>(next));
        },
        Err(_) => {},
    }
}

proof fn lemma_removed_entries<C>(s: Seq<OverlayEntry<C>>, k: int)
    requires
        0 <= k < s.len(),
    ensures
        s.remove(k).len() == s.len() - 1,
        forall|j: int| 0 <= j < k ==> #[trigger] s.remove(k)[j] == s[j],
        forall|j: int| k <= j < s.len() - 1 ==> #[trigger] s.remove(k)[j] == s[j + 1],
{
}

/// Each mutation does what its name says. A push appends an overlay whose
/// identity is new; a replacement swaps the first overlay with that identity
/// in place; moving to the front takes that overlay out and appends it; a
/// clear empties the stack.
pub proof fn lemma_mutations_act_on_the_named_overlay<C>(s: Seq<OverlayEntry<C>>, m: OverlayMutation<C>)
    ensures
        m matches OverlayMutation::Push(e) ==> (apply_step(s, m) matches Ok(t) ==> t == s.push(e) && forall|j: int|
            0 <= j < s.len() ==> (#[trigger] s[j]).id@ != e.id@),
        m matches OverlayMutation::Replace(e) ==> (apply_step(s, m) matches Ok(t) ==> exists|k: int|
            {
                &&& 0 <= k < s.len()
                &&& s[k].id@ == e.id@
                &&& forall|j: int| 0 <= j < k ==> (#[trigger] s[j]).id@ != e.id@
                &&& t == s.update(k, e)
            }),
        m matches OverlayMutation::MoveToFront(id) ==> (apply_step(s, m) matches Ok(t) ==> exists|k: int|
            {
                &&& 0 <= k < s.len()
                &&& s[k].id@ == id@
                &&& forall|j: int| 0 <= j < k ==> (#[trigger] s[j]).id@ != id@
                &&& t.len() == s.len()
                &&& t.last() == s[k]
                &&& forall|j: int| 0 <= j < k ==> #[trigger] t[j] == s[j]
                &&& forall|j: int| k <= j < s.len() - 1 ==> #[trigger] t[j] == s[j + 1]
            }),
        m is Clear ==> apply_step(s, m) == Ok::<Seq<OverlayEntry<C>>, OverlayError>(Seq::empty()),
{
    match m {
        OverlayMutation::Push(e) => {
            lemma_first_from(s, e.id@, 0);
        },
        OverlayMutation::Replace(e) => {
            lemma_first_from(s, e.id@, 0);
        },
        OverlayMutation::MoveToFront(id) => {
            lemma_first_from(s, id@, 0);
            if index_of(s, id@) >= 0 {
                let k = index_of(s, id@);
                let t = s.remove(k).push(s[k]);
                assert(forall|j: int| 0 <= j < k ==> #[trigger] t[j] == s[j]);
                assert(forall|j: int| k <= j < s.len() - 1 ==> #[trigger] t[j] == s[j + 1]);
            }
        },
        _ => {},
    }
}

/// Whether an earlier entry than `i` has the identity of entry `i`.
pub open spec fn repeats_earlier<C>(s: Seq<OverlayEntry<C>>, i: int) -> bool {
    exists|j: int| 0 <= j < i && (#[trigger] s[j]).id@ == s[i].id@
}

/// Validation from position `i`: the first failing policy, or the first
/// identity seen a second time.
pub open spec fn validate_from<C>(s: Seq<OverlayEntry<C>>, i: int) -> Result<(), OverlayError>
    decreases s.len() - i,
{
    if i < 0 || i >= s.len() {
        Ok(())
    } else if s[i].check is Err {
        s[i].check
    } else if repeats_earlier(s, i) {
        Err(OverlayError::DuplicateId(s[i].id))
    } else {
        validate_from(s, i + 1)
    }
}

pub open spec fn stack_verdict<C>(s: Seq<OverlayEntry<C>>) -> Result<(), OverlayError> {
    validate_from(s, 0)
}

/// Indices below `n` of the entries in tier `t`, ascending.
pub open spec fn tier_indices<C>(s: Seq<OverlayEntry<C>>, t: OverlayTier, n: int) -> Seq<int>
    decreases n,
{
    if n <= 0 {
        Seq::empty()
    } else if s[n - 1].tier == t {
        tier_indices(s, t, n - 1).push(n - 1)
    } else {
        tier_indices(s, t, n - 1)
    }
}

/// Paint order: ascending tier, insertion order within a tier.
pub open spec fn paint_order<C>(s: Seq<OverlayEntry<C>>) -> Seq<int> {
    tier_indices(s, OverlayTier::Modal, s.len() as int) + tier_indices(s, OverlayTier::Toast, s.len() as int)
        + tier_indices(s, OverlayTier::Drag, s.len() as int)
}

/// A step back from `after` to `before` recorded while applying a batch.
enum Undo<C> {
    Pop,
    Insert(usize, OverlayEntry<C>),
    Reset(usize, OverlayEntry<C>),
    Return(usize),
    Restore(Vec<OverlayEntry<C>>),
}

spec fn undoes<C>(u: Undo<C>, after: Seq<OverlayEntry<C>>, before: Seq<OverlayEntry<C>>) -> bool {
    match u {
        Undo::Pop => after.len() > 0 && before == after.drop_last(),
        Undo::Insert(i, x) => i <= after.len() && before == after.insert(i as int, x),
        Undo::Reset(i, x) => i < after.len() && before == after.update(i as int, x),
        Undo::Return(i) => after.len() > 0 && i < after.len() && before == after.drop_last().insert(
            i as int,
            after.last(),
        ),
        Undo::Restore(v) => before == v@,
    }
}

fn position<C>(v: &Vec<OverlayEntry<C>>, id: &OverlayId) -> (r: Option<usize>)
    ensures
        match r {
            Some(i) => i as int == index_of(v@, id@) && i < v@.len(),
            None => index_of(v@, id@) == -1,
        },
{
    let n = v.len();
    for i in 0..n
        invariant
            n == v@.len(),
            index_of(v@, id@) == first_from(v@, id@, i as int),
    {
        if v[i].id.same(id) {
            return Some(i);
        }
    }
    None
}

impl<C> OverlayStack<C> {
    /// Creates an empty overlay stack.
    pub fn new() -> (r: Self)
        ensures
            r@ == Seq::<OverlayEntry<C>>::empty(),
    {
        OverlayStack { overlays: Vec::new() }
    }

    /// Builds a stack in the given order without validating it.
    pub fn from_unchecked(overlays: Vec<OverlayEntry<C>>) -> (r: Self)
        ensures
            r@ == overlays@,
    {
        OverlayStack { overlays }
    }

    /// Builds a stack in the given order and validates every policy and identity.
    pub fn from_overlays(overlays: Vec<OverlayEntry<C>>) -> (r: Result<Self, OverlayError>)
        ensures
            match r {
                Ok(stack) => stack_verdict(overlays@) is Ok && stack@ == overlays@,
                Err(e) => stack_verdict(overlays@) == Err::<(), OverlayError>(e),
            },
    {
        let stack = OverlayStack { overlays };
        match stack.validate() {
            Ok(()) => Ok(stack),
            Err(e) => Err(e),
        }
    }

    /// Returns the number of overlays in the stack.
    pub fn len(&self) -> (r: usize)
        ensures
            r == self@.len(),
    {
        self.overlays.len()
    }

    /// Returns `true` when the stack contains no overlays.
    pub fn is_empty(&self) -> (r: bool)
        ensures
            r == (self@.len() == 0),
    {
        self.overlays.len() == 0
    }

    /// Returns the first overlay with `id`, if present.
    pub fn get(&self, id: &OverlayId) -> (r: Option<&OverlayEntry<C>>)
        ensures
            match r {
                Some(e) => index_of(self@, id@) >= 0 && *e == self@[index_of(self@, id@)],
                None => index_of(self@, id@) == -1,
            },
    {
        match position(&self.overlays, id) {
            Some(i) => Some(&self.overlays[i]),
            None => None,
        }
    }

    /// Returns overlays in insertion order, before tier-based paint sorting.
    pub fn insertion_order(&self) -> (r: &[OverlayEntry<C>])
        ensures
            r@ == self@,
    {
        self.overlays.as_slice()
    }

    /// Validates every policy verdict and requires identities to be unique;
    /// entries are checked in insertion order and the first error is returned.
    pub fn validate(&self) -> (r: Result<(), OverlayError>)
        ensures
            r == stack_verdict(self@),
    {
        validate_entries(&self.overlays)
    }

    /// Overlays in paint order: ascending tier z-order, then insertion order.
    pub fn sorted_render_snapshot(&self) -> (r: Vec<&OverlayEntry<C>>)
        ensures
            r@.len() == paint_order(self@).len(),
            forall|k: int| 0 <= k < r@.len() ==> *(#[trigger] r@[k]) == self@[paint_order(self@)[k]],
    {
        let mut r: Vec<&OverlayEntry<C>> = Vec::new();
        let ghost s = self@;
        let mut pass: usize = 0;
        let ghost mut done: Seq<int> = Seq::empty();
        while pass < 3
            invariant
                s == self@,
                pass <= 3,
                done == (if pass == 0 {
                    Seq::<int>::empty()
                } else if pass == 1 {
                    tier_indices(s, OverlayTier::Modal, s.len() as int)
                } else if pass == 2 {
                    tier_indices(s, OverlayTier::Modal, s.len() as int) + tier_indices(s, OverlayTier::Toast, s.len() as int)
                } else {
                    paint_order(s)
                }),
                r@.len() == done.len(),
                forall|k: int| 0 <= k < done.len() ==> 0 <= #[trigger] done[k] < s.len(),
                forall|k: int| 0 <= k < r@.len() ==> *(#[trigger] r@[k]) == s[done[k]],
            decreases 3 - pass,
        {
            let tier = if pass == 0 {
                OverlayTier::Modal
            } else if pass == 1 {
                OverlayTier::Toast
            } else {
                OverlayTier::Drag
            };
            let ghost base = done;
            let n = self.overlays.len();
            for i in 0..n
                invariant
                    s == self@,
                    n == s.len(),
                    done == base + tier_indices(s, tier, i as int),
                    r@.len() == done.len(),
                    forall|k: int| 0 <= k < done.len() ==> 0 <= #[trigger] done[k] < s.len(),
                    forall|k: int| 0 <= k < r@.len() ==> *(#[trigger] r@[k]) == s[done[k]],
            {
                if self.overlays[i].tier == tier {
                    r.push(&self.overlays[i]);
                    proof {
                        done = done.push(i as int);
                        assert(base + tier_indices(s, tier, (i + 1) as int) =~= done);
                    }
                } else {
                    assert(base + tier_indices(s, tier, (i + 1) as int) =~= done);
                }
            }
            pass = pass + 1;
        }
        r
    }

    /// Applies all changes or none; each mutation observes the preceding ones.
    /// If any mutation fails, or final validation fails, the stack is unchanged.
    pub fn apply_atomic(&mut self, mutations: Vec<OverlayMutation<C>>) -> (r: Result<(), OverlayError>)
        ensures
            match apply_from(old(self)@, mutations@, 0) {
                Err(e) => r == Err::<(), OverlayError>(e) && final(self)@ == old(self)@,
                Ok(next) => match stack_verdict(next) {
                    Err(e) => r == Err::<(), OverlayError>(e) && final(self)@ == old(self)@,
                    Ok(()) => r is Ok && final(self)@ == next,
                },
            },
    {
        let ghost ms = mutations@;
        let ghost start = self.overlays@;
        let mut work: Vec<OverlayEntry<C>> = Vec::new();
        std::mem::swap(&mut work, &mut self.overlays);
        let mut pending = mutations;
        let mut log: Vec<Undo<C>> = Vec::new();
        let ghost mut hist: Seq<Seq<OverlayEntry<C>>> = seq![start];
        let ghost mut k: int = 0;
        let mut failure: Option<OverlayError> = None;
        while pending.len() > 0 && failure.is_none()
            invariant
                0 <= k <= ms.len(),
                failure is None ==> pending@ == ms.skip(k),
                failure is None ==> apply_from(start, ms, 0) == apply_from(work@, ms, k),
                failure matches Some(e) ==> apply_from(start, ms, 0) == Err::<Seq<OverlayEntry<C>>, OverlayError>(e),
                hist.len() == log@.len() + 1,
                hist[0] == start,
                hist.last() == work@,
                forall|j: int| 0 <= j < log@.len() ==> undoes(#[trigger] log@[j], hist[j + 1], hist[j]),
            decreases pending@.len(),
        {
            let m = pending.remove(0);
            proof {
                assert(ms[k] == m);
            }
            let ghost before = work@;
            let step: Result<Undo<C>, OverlayError> = match m {
                OverlayMutation::Push(e) => {
                    if e.check.is_err() {
                        match &e.check {
                            Err(err) => Err(err.duplicate()),
                            Ok(()) => Err(OverlayError::EmptyId),
                        }
                    } else {
                        match position(&work, &e.id) {
                            Some(_) => Err(OverlayError::DuplicateId(e.id.duplicate())),
                            None => {
                                work.push(e);
                                assert(work@.drop_last() =~= before);
                                Ok(Undo::Pop)
                            },
                        }
                    }
                },
                OverlayMutation::Remove(id) => {
                    match position(&work, &id) {
                        Some(i) => {
                            let x = work.remove(i);
                            assert(work@.insert(i as int, x) =~= before);
                            Ok(Undo::Insert(i, x))
                        },
                        None => Err(OverlayError::UnknownId(id)),
                    }
                },
                OverlayMutation::Replace(e) => {
                    if e.check.is_err() {
                        match &e.check {
                            Err(err) => Err(err.duplicate()),
                            Ok(()) => Err(OverlayError::EmptyId),
                        }
                    } else {
                        match position(&work, &e.id) {
                            Some(i) => {
                                let x = work.remove(i);
                                work.insert(i, e);
                                assert(work@ =~= before.update(i as int, e));
                                assert(work@.update(i as int, x) =~= before);
                                Ok(Undo::Reset(i, x))
                            },
                            None => Err(OverlayError::UnknownId(e.id.duplicate())),
                        }
                    }
                },
                OverlayMutation::MoveToFront(id) => {
                    match position(&work, &id) {
                        Some(i) => {
                            let x = work.remove(i);
                            work.push(x);
                            assert(work@.drop_last().insert(i as int, work@.last()) =~= before);
                            Ok(Undo::Return(i))
                        },
                        None => Err(OverlayError::UnknownId(id)),
                    }
                },
                OverlayMutation::Clear => {
                    let mut saved: Vec<OverlayEntry<C>> = Vec::new();
                    std::mem::swap(&mut saved, &mut work);
                    assert(work@ =~= Seq::<OverlayEntry<C>>::empty());
                    Ok(Undo::Restore(saved))
                },
            };
            match step {
                Ok(u) => {
                    assert(apply_step(before, ms[k]) == Ok::<Seq<OverlayEntry<C>>, OverlayError>(work@));
                    assert(undoes(u, work@, before));
                    let ghost old_log = log@;
                    log.push(u);
                    proof {
                        let old_hist = hist;
                        hist = hist.push(work@);
                        assert(hist[old_log.len() as int] == before);
                        assert forall|j: int| 0 <= j < log@.len() implies undoes(#[trigger] log@[j], hist[j + 1], hist[j]) by {
                            if j < old_log.len() {
                                assert(log@[j] == old_log[j]);
                                assert(hist[j] == old_hist[j] && hist[j + 1] == old_hist[j + 1]);
                            }
                        }
                        assert(ms.skip(k + 1) =~= ms.skip(k).drop_first());
                        k = k + 1;
                    }
                },
                Err(e) => {
                    assert(apply_step(before, ms[k]) == Err::<Seq<OverlayEntry<C>>, OverlayError>(e));
                    failure = Some(e);
                },
            }
        }
        if failure.is_none() {
            assert(k == ms.len());
            assert(apply_from(work@, ms, k) == Ok::<Seq<OverlayEntry<C>>, OverlayError>(work@));
        }
        let outcome = match failure {
            Some(e) => Err(e),
            None => validate_entries(&work),
        };
        match outcome {
            Ok(()) => {
                self.overlays = work;
                Ok(())
            },
            Err(e) => {
                while log.len() > 0
                    invariant
                        hist.len() == log@.len() + 1,
                        hist[0] == start,
                        hist.last() == work@,
                        forall|j: int| 0 <= j < log@.len() ==> undoes(#[trigger] log@[j], hist[j + 1], hist[j]),
                    decreases log@.len(),
                {
                    let ghost idx = log@.len() - 1;
                    let u = log.pop().unwrap();
                    assert(undoes(u, hist[idx + 1], hist[idx]));
                    match u {
                        Undo::Pop => {
                            work.pop();
                        },
                        Undo::Insert(i, x) => {
                            work.insert(i, x);
                        },
                        Undo::Reset(i, x) => {
                            work.remove(i);
                            work.insert(i, x);
                            assert(work@ =~= hist[idx]);
                        },
                        Undo::Return(i) => {
                            let x = work.pop().unwrap();
                            work.insert(i, x);
                        },
                        Undo::Restore(v) => {
                            work = v;
                        },
                    }
                    proof {
                        hist = hist.drop_last();
                    }
                }
                self.overlays = work;
                Err(e)
            },
        }
    }

    /// Atomically appends an overlay with a valid policy and a unique identity.
    pub fn push(&mut self, overlay: OverlayEntry<C>) -> (r: Result<(), OverlayError>)
        ensures
            match apply_from(old(self)@, seq![OverlayMutation::Push(overlay)], 0) {
                Err(e) => r == Err::<(), OverlayError>(e) && final(self)@ == old(self)@,
                Ok(next) => match stack_verdict(next) {
                    Err(e) => r == Err::<(), OverlayError>(e) && final(self)@ == old(self)@,
                    Ok(()) => r is Ok && final(self)@ == next,
                },
            },
    {
        let ghost pushed = overlay;
        let ms = vec![OverlayMutation::Push(overlay)];
        assert(ms@ =~= seq![OverlayMutation::Push(pushed)]);
        self.apply_atomic(ms)
    }

    /// Atomically removes the first overlay with `id`.
    pub fn remove(&mut self, id: OverlayId) -> (r: Result<(), OverlayError>)
        ensures
            match apply_from(old(self)@, seq![OverlayMutation::<C>::Remove(id)], 0) {
                Err(e) => r == Err::<(), OverlayError>(e) && final(self)@ == old(self)@,
                Ok(next) => match stack_verdict(next) {
                    Err(e) => r == Err::<(), OverlayError>(e) && final(self)@ == old(self)@,
                    Ok(()) => r is Ok && final(self)@ == next,
                },
            },
    {
        let ghost removed = id;
        let ms = vec![OverlayMutation::Remove(id)];
        assert(ms@ =~= seq![OverlayMutation::<C>::Remove(removed)]);
        self.apply_atomic(ms)
    }
}

proof fn lemma_tier_indices<C>(s: Seq<OverlayEntry<C>>, t: OverlayTier, n: int)
    requires
        0 <= n <= s.len(),
    ensures
        forall|k: int|
            0 <= k < tier_indices(s, t, n).len() ==> 0 <= #[trigger] tier_indices(s, t, n)[k] < n
                && s[tier_indices(s, t, n)[k]].tier == t,
        forall|a: int, b: int|
            0 <= a < b < tier_indices(s, t, n).len() ==> #[trigger] tier_indices(s, t, n)[a]
                < #[trigger] tier_indices(s, t, n)[b],
        forall|i: int| 0 <= i < n && s[i].tier == t ==> #[trigger] tier_indices(s, t, n).contains(i),
    decreases n,
{
    if n > 0 {
        lemma_tier_indices(s, t, n - 1);
        let p = tier_indices(s, t, n - 1);
        if s[n - 1].tier == t {
            let r = p.push(n - 1);
            assert forall|i: int| 0 <= i < n && s[i].tier == t implies #[trigger] r.contains(i) by {
                if i == n - 1 {
                    assert(r[r.len() - 1] == i);
                } else {
                    assert(p.contains(i));
                    let k = choose|k: int| 0 <= k < p.len() && p[k] == i;
                    assert(r[k] == i);
                }
            }
        }
    }
}

/// The paint order lists every overlay exactly once, with tiers ascending
/// and insertion order kept within each tier (a stable sort by tier).
pub proof fn lemma_paint_order_is_stable_sort<C>(s: Seq<OverlayEntry<C>>)
    ensures
        paint_order(s).no_duplicates(),
        forall|k: int| 0 <= k < paint_order(s).len() ==> 0 <= #[trigger] paint_order(s)[k] < s.len(),
        forall|i: int| 0 <= i < s.len() ==> #[trigger] paint_order(s).contains(i),
        forall|a: int, b: int|
            0 <= a < b < paint_order(s).len() ==> tier_z(s[#[trigger] paint_order(s)[a]].tier) < tier_z(
                s[#[trigger] paint_order(s)[b]].tier,
            ) || (s[paint_order(s)[a]].tier == s[paint_order(s)[b]].tier && paint_order(s)[a] < paint_order(s)[b]),
{
    let n = s.len() as int;
    let m = tier_indices(s, OverlayTier::Modal, n);
    let t = tier_indices(s, OverlayTier::Toast, n);
    let d = tier_indices(s, OverlayTier::Drag, n);
    lemma_tier_indices(s, OverlayTier::Modal, n);
    lemma_tier_indices(s, OverlayTier::Toast, n);
    lemma_tier_indices(s, OverlayTier::Drag, n);
    let o = paint_order(s);
    assert(o == m + t + d);
    assert forall|k: int| 0 <= k < o.len() implies 0 <= #[trigger] o[k] < n && (if k < m.len() {
        s[o[k]].tier == OverlayTier::Modal
    } else if k < m.len() + t.len() {
        s[o[k]].tier == OverlayTier::Toast
    } else {
        s[o[k]].tier == OverlayTier::Drag
    }) by {
        if k < m.len() {
            assert(o[k] == m[k]);
        } else if k < m.len() + t.len() {
            assert(o[k] == t[k - m.len()]);
        } else {
            assert(o[k] == d[k - m.len() - t.len()]);
        }
    }
    assert forall|a: int, b: int| 0 <= a < b < o.len() implies tier_z(s[#[trigger] o[a]].tier) < tier_z(
        s[#[trigger] o[b]].tier,
    ) || (s[o[a]].tier == s[o[b]].tier && o[a] < o[b]) by {
        if b < m.len() {
            assert(o[a] == m[a] && o[b] == m[b]);
        } else if a >= m.len() && b < m.len() + t.len() {
            assert(o[a] == t[a - m.len()] && o[b] == t[b - m.len()]);
        } else if a >= m.len() + t.len() {
            assert(o[a] == d[a - m.len() - t.len()] && o[b] == d[b - m.len() - t.len()]);
        }
    }
    assert forall|a: int, b: int| 0 <= a < o.len() && 0 <= b < o.len() && a != b implies o[a] != o[b] by {
        if a < b {
            assert(tier_z(s[o[a]].tier) < tier_z(s[o[b]].tier) || o[a] < o[b]);
        } else {
            assert(tier_z(s[o[b]].tier) < tier_z(s[o[a]].tier) || o[b] < o[a]);
        }
    }
    assert forall|i: int| 0 <= i < n implies #[trigger] o.contains(i) by {
        if s[i].tier == OverlayTier::Modal {
            assert(m.contains(i));
            let k = choose|k: int| 0 <= k < m.len() && m[k] == i;
            assert(o[k] == i);
        } else if s[i].tier == OverlayTier::Toast {
            assert(t.contains(i));
            let k = choose|k: int| 0 <= k < t.len() && t[k] == i;
            assert(o[m.len() + k] == i);
        } else {
            assert(s[i].tier == OverlayTier::Drag);
            assert(d.contains(i));
            let k = choose|k: int| 0 <= k < d.len() && d[k] == i;
            assert(o[m.len() + t.len() + k] == i);
        }
    }
}

proof fn lemma_validate_from_ok<C>(s: Seq<OverlayEntry<C>>, i: int)
    requires
        0 <= i <= s.len(),
    ensures
        validate_from(s, i) is Ok <==> forall|k: int|
            i <= k < s.len() ==> (#[trigger] s[k]).check is Ok && !repeats_earlier(s, k),
    decreases s.len() - i,
{
    if i < s.len() {
        lemma_validate_from_ok(s, i + 1);
    }
}

/// A stack validates exactly when every policy passes its checks and no two
/// overlays share an identity.
pub proof fn lemma_valid_stack<C>(s: Seq<OverlayEntry<C>>)
    ensures
        stack_verdict(s) is Ok <==> (forall|k: int| 0 <= k < s.len() ==> (#[trigger] s[k]).check is Ok) && (forall|
            a: int,
            b: int,
        | 0 <= a < b < s.len() ==> (#[trigger] s[a]).id@ != (#[trigger] s[b]).id@),
{
    lemma_validate_from_ok(s, 0);
    if stack_verdict(s) is Ok {
        assert forall|a: int, b: int| 0 <= a < b < s.len() implies (#[trigger] s[a]).id@ != (
        #[trigger] s[b]).id@ by {
            assert(!repeats_earlier(s, b));
        }
    }
    if (forall|k: int| 0 <= k < s.len() ==> (#[trigger] s[k]).check is Ok) && (forall|a: int, b: int|
        0 <= a < b < s.len() ==> (#[trigger] s[a]).id@ != (#[trigger] s[b]).id@) {
        assert forall|k: int| 0 <= k < s.len() implies (#[trigger] s[k]).check is Ok && !repeats_earlier(s, k) by {
            if repeats_earlier(s, k) {
                let j = choose|j: int| 0 <= j < k && (#[trigger] s[j]).id@ == s[k].id@;
                assert(s[j].id@ != s[k].id@);
            }
        }
    }
}

fn validate_entries<C>(v: &Vec<OverlayEntry<C>>) -> (r: Result<(), OverlayError>)
    ensures
        r == stack_verdict(v@),
{
    let n = v.len();
    for i in 0..n
        invariant
            n == v@.len(),
            stack_verdict(v@) == validate_from(v@, i as int),
    {
        match &v[i].check {
            Err(e) => {
                return Err(e.duplicate());
            },
            Ok(()) => {},
        }
        let mut j: usize = 0;
        while j < i
            invariant
                n == v@.len(),
                i < n,
                j <= i,
                stack_verdict(v@) == validate_from(v@, i as int),
                v@[i as int].check is Ok,
                forall|q: int| 0 <= q < j ==> v@[q].id@ != v@[i as int].id@,
            decreases i - j,
        {
            if v[j].id.same(&v[i].id) {
                assert(repeats_earlier(v@, i as int));
                return Err(OverlayError::DuplicateId(v[i].id.duplicate()));
            }
            j = j + 1;
        }
        assert(!repeats_earlier(v@, i as int));
    }
    Ok(())
}

} // verus!
