//! Platform-neutral keystrokes, chords, and prefixed command keymaps.

use vstd::prelude::*;

use crate::command::{direction_slug, PaneCommand};
use crate::ids::{PaneDirection, PaneLayout, PaneRotation, SplitDirection};
use crate::text::{join, join_strings, lowercase, text_is, texts, to_lowercase, to_uppercase, uppercase};

verus! {

/// A platform-neutral keyboard event snapshot.
#[derive(Clone, Debug, PartialEq, Eq)]
pub struct KeyStroke {
    /// Key name reported by the frontend, compared case-insensitively.
    pub key: String,
    /// Whether the Control modifier was held.
    pub control: bool,
    /// Whether the Alt/Option modifier was held.
    pub alt: bool,
    /// Whether the Shift modifier was held.
    pub shift: bool,
    /// Whether the platform modifier (Command on macOS) was held.
    pub meta: bool,
}

/// A key plus its exact modifier set.
#[derive(Clone, Debug, PartialEq, Eq)]
pub struct KeyChord {
    /// Key name to match, compared case-insensitively after normalization.
    pub key: String,
    /// Whether an exact match requires Control.
    pub control: bool,
    /// Whether an exact match requires Alt/Option.
    pub alt: bool,
    /// Whether an exact match requires Shift.
    pub shift: bool,
    /// Whether an exact match requires the platform modifier.
    pub meta: bool,
}

/// Abstract value of a stroke or chord: its key spelling and modifier flags.
pub struct ChordView {
    pub key: Seq<char>,
    pub control: bool,
    pub alt: bool,
    pub shift: bool,
    pub meta: bool,
}

impl View for KeyStroke {
    type V = ChordView;

    open spec fn view(&self) -> ChordView {
        ChordView {
            key: self.key@,
            control: self.control,
            alt: self.alt,
            shift: self.shift,
            meta: self.meta,
        }
    }
}

impl View for KeyChord {
    type V = ChordView;

    open spec fn view(&self) -> ChordView {
        ChordView {
            key: self.key@,
            control: self.control,
            alt: self.alt,
            shift: self.shift,
            meta: self.meta,
        }
    }
}

pub open spec fn chord_view(key: Seq<char>, control: bool, alt: bool, shift: bool, meta: bool) -> ChordView {
    ChordView { key, control, alt, shift, meta }
}

/// Canonical comparison spelling of a key name: `" "` and `"Spacebar"` are
/// `"space"`, every other name is case-folded.
pub open spec fn normalized_key(key: Seq<char>) -> Seq<char> {
    if key == " "@ || key == "Spacebar"@ {
        "space"@
    } else {
        lowercase(key)
    }
}

/// Whether a chord accepts a stroke: equal normalized keys and the exact modifier set.
pub open spec fn chord_matches(chord: ChordView, stroke: ChordView) -> bool {
    &&& normalized_key(chord.key) == normalized_key(stroke.key)
    &&& chord.control == stroke.control
    &&& chord.alt == stroke.alt
    &&& chord.shift == stroke.shift
    &&& chord.meta == stroke.meta
}

/// GPUI key name of a normalized key: arrow names lose their `arrow` prefix.
pub open spec fn gpui_key(normalized: Seq<char>) -> Seq<char> {
    if normalized == "arrowleft"@ {
        "left"@
    } else if normalized == "arrowright"@ {
        "right"@
    } else if normalized == "arrowup"@ {
        "up"@
    } else if normalized == "arrowdown"@ {
        "down"@
    } else {
        normalized
    }
}

pub open spec fn flag_text(flag: bool, text: Seq<char>) -> Seq<char> {
    if flag {
        text
    } else {
        Seq::empty()
    }
}

/// GPUI-compatible chord spelling such as `ctrl-alt-left`.
pub open spec fn chord_gpui(c: ChordView) -> Seq<char> {
    flag_text(c.control, "ctrl-"@) + flag_text(c.alt, "alt-"@) + flag_text(c.shift, "shift-"@)
        + flag_text(c.meta, "platform-"@) + gpui_key(normalized_key(c.key))
}

/// Display name of a normalized key.
pub open spec fn display_key(normalized: Seq<char>) -> Seq<char> {
    if normalized == "space"@ {
        "Space"@
    } else if normalized == "arrowleft"@ {
        "←"@
    } else if normalized == "arrowright"@ {
        "→"@
    } else if normalized == "arrowup"@ {
        "↑"@
    } else if normalized == "arrowdown"@ {
        "↓"@
    } else if normalized == "escape"@ {
        "Esc"@
    } else {
        uppercase(normalized)
    }
}

/// Human-readable chord such as `Ctrl+Alt+←`.
pub open spec fn chord_display(c: ChordView) -> Seq<char> {
    flag_text(c.control, "Ctrl+"@) + flag_text(c.alt, "Alt+"@) + flag_text(c.shift, "Shift+"@)
        + flag_text(c.meta, "Meta+"@) + display_key(normalized_key(c.key))
}

/// The normalized name of the arrow key pointing in direction `d`: `arrow`
/// followed by the direction's name.
pub open spec fn arrow_name(d: PaneDirection) -> Seq<char> {
    "arrow"@ + direction_slug(d)
}

/// The arrow glyph pointing in direction `d`, from Unicode's Arrows block
/// (U+2190 leftwards, U+2191 upwards, U+2192 rightwards, U+2193 downwards).
pub open spec fn arrow_glyph(d: PaneDirection) -> char {
    match d {
        PaneDirection::Left => '\u{2190}',
        PaneDirection::Up => '\u{2191}',
        PaneDirection::Right => '\u{2192}',
        PaneDirection::Down => '\u{2193}',
    }
}

proof fn lemma_arrow_names()
    ensures
        arrow_name(PaneDirection::Left) == "arrowleft"@,
        arrow_name(PaneDirection::Right) == "arrowright"@,
        arrow_name(PaneDirection::Up) == "arrowup"@,
        arrow_name(PaneDirection::Down) == "arrowdown"@,
        "arrowleft"@ != "arrowright"@,
        "arrowleft"@ != "arrowup"@,
        "arrowleft"@ != "arrowdown"@,
        "arrowright"@ != "arrowup"@,
        "arrowright"@ != "arrowdown"@,
        "arrowup"@ != "arrowdown"@,
{
    reveal_strlit("arrow");
    reveal_strlit("left");
    reveal_strlit("right");
    reveal_strlit("up");
    reveal_strlit("down");
    reveal_strlit("arrowleft");
    reveal_strlit("arrowright");
    reveal_strlit("arrowup");
    reveal_strlit("arrowdown");
    assert(arrow_name(PaneDirection::Left) =~= "arrowleft"@);
    assert(arrow_name(PaneDirection::Right) =~= "arrowright"@);
    assert(arrow_name(PaneDirection::Up) =~= "arrowup"@);
    assert(arrow_name(PaneDirection::Down) =~= "arrowdown"@);
    assert("arrowleft"@[5] != "arrowdown"@[5]);
    assert("arrowleft"@.len() == 9);
    assert("arrowright"@.len() == 10);
    assert("arrowup"@.len() == 7);
    assert("arrowdown"@.len() == 9);
}

/// GPUI names the same physical key: an arrow key is named by its own
/// direction (`arrowup` becomes `up`, and so on), and every other normalized
/// key keeps its spelling.
pub proof fn lemma_gpui_key_names_the_same_key(key: Seq<char>, d: PaneDirection)
    ensures
        gpui_key(arrow_name(d)) == direction_slug(d),
        (forall|e: PaneDirection| key != #[trigger] arrow_name(e)) ==> gpui_key(key) == key,
{
    lemma_arrow_names();
}

/// A chord on an arrow key is spelled for GPUI with that arrow's direction
/// as its key, after its modifiers.
pub proof fn lemma_gpui_chord_keeps_arrow_direction(c: ChordView, d: PaneDirection)
    requires
        normalized_key(c.key) == arrow_name(d),
    ensures
        chord_gpui(c) == flag_text(c.control, "ctrl-"@) + flag_text(c.alt, "alt-"@) + flag_text(c.shift, "shift-"@)
            + flag_text(c.meta, "platform-"@) + direction_slug(d),
{
    lemma_gpui_key_names_the_same_key(c.key, d);
}

/// An arrow key is displayed as the one arrow glyph that points in its
/// direction, and arrows of different directions get different glyphs.
pub proof fn lemma_display_arrow_points_its_way(d: PaneDirection, e: PaneDirection)
    ensures
        display_key(arrow_name(d)) == seq![arrow_glyph(d)],
        d != e ==> arrow_glyph(d) != arrow_glyph(e),
{
    lemma_arrow_names();
    reveal_strlit("space");
    reveal_strlit("arrowleft");
    reveal_strlit("arrowright");
    reveal_strlit("arrowup");
    reveal_strlit("arrowdown");
    assert("space"@[0] != "arrowleft"@[0]);
    assert("space"@[0] != "arrowright"@[0]);
    assert("space"@[0] != "arrowup"@[0]);
    assert("space"@[0] != "arrowdown"@[0]);
    reveal_strlit("←");
    reveal_strlit("↑");
    reveal_strlit("→");
    reveal_strlit("↓");
    assert(display_key(arrow_name(d)) =~= seq![arrow_glyph(d)]);
}

/// A chord on an arrow key is displayed with that arrow's glyph after its
/// modifiers.
pub proof fn lemma_display_chord_keeps_arrow_direction(c: ChordView, d: PaneDirection)
    requires
        normalized_key(c.key) == arrow_name(d),
    ensures
        chord_display(c) == flag_text(c.control, "Ctrl+"@) + flag_text(c.alt, "Alt+"@) + flag_text(c.shift, "Shift+"@)
            + flag_text(c.meta, "Meta+"@) + seq![arrow_glyph(d)],
{
    lemma_display_arrow_points_its_way(d, d);
}

/// Returns the canonical comparison spelling for a frontend key name.
pub fn normalize_key(key: &str) -> (r: String)
    ensures
        r@ == normalized_key(key@),
{
    let k = String::from_str(key);
    if text_is(&k, " ") || text_is(&k, "Spacebar") {
        String::from_str("space")
    } else {
        to_lowercase(key)
    }
}

impl KeyStroke {
    /// Creates a stroke with `key` and no modifiers.
    pub fn new(key: &str) -> (r: Self)
        ensures
            r@ == chord_view(key@, false, false, false, false),
    {
        KeyStroke { key: String::from_str(key), control: false, alt: false, shift: false, meta: false }
    }
}

impl KeyChord {
    /// Creates a chord for `key` with no required modifiers.
    pub fn new(key: &str) -> (r: Self)
        ensures
            r@ == chord_view(key@, false, false, false, false),
    {
        KeyChord { key: String::from_str(key), control: false, alt: false, shift: false, meta: false }
    }

    /// Adds Control to the required modifier set.
    pub fn control(self) -> (r: Self)
        ensures
            r@ == chord_view(self@.key, true, self@.alt, self@.shift, self@.meta),
    {
        KeyChord { control: true, ..self }
    }

    /// Adds Alt/Option to the required modifier set.
    pub fn alt(self) -> (r: Self)
        ensures
            r@ == chord_view(self@.key, self@.control, true, self@.shift, self@.meta),
    {
        KeyChord { alt: true, ..self }
    }

    /// Adds Shift to the required modifier set.
    pub fn shift(self) -> (r: Self)
        ensures
            r@ == chord_view(self@.key, self@.control, self@.alt, true, self@.meta),
    {
        KeyChord { shift: true, ..self }
    }

    /// Adds the platform modifier to the required modifier set.
    pub fn meta(self) -> (r: Self)
        ensures
            r@ == chord_view(self@.key, self@.control, self@.alt, self@.shift, true),
    {
        KeyChord { meta: true, ..self }
    }

    /// A chord with the same key spelling and modifiers.
    pub fn duplicate(&self) -> (r: Self)
        ensures
            r@ == self@,
    {
        KeyChord {
            key: self.key.clone(),
            control: self.control,
            alt: self.alt,
            shift: self.shift,
            meta: self.meta,
        }
    }

    /// Whether both chords have the same spelling and modifiers.
    pub fn same_as(&self, other: &KeyChord) -> (r: bool)
        ensures
            r == (self@ == other@),
    {
        self.key == other.key && self.control == other.control && self.alt == other.alt
            && self.shift == other.shift && self.meta == other.meta
    }

    /// Returns whether `stroke` has the normalized key and exact modifier set.
    pub fn matches(&self, stroke: &KeyStroke) -> (r: bool)
        ensures
            r == chord_matches(self@, stroke@),
    {
        let a = normalize_key(self.key.as_str());
        let b = normalize_key(stroke.key.as_str());
        a == b && self.control == stroke.control && self.alt == stroke.alt && self.shift
            == stroke.shift && self.meta == stroke.meta
    }

    /// GPUI-compatible normalized chord spelling (for example `ctrl-alt-left`).
    pub fn normalized(&self) -> (r: String)
        ensures
            r@ == chord_gpui(self@),
    {
        let mut r = String::new();
        if self.control {
            r.append("ctrl-");
        }
        if self.alt {
            r.append("alt-");
        }
        if self.shift {
            r.append("shift-");
        }
        if self.meta {
            r.append("platform-");
        }
        let n = normalize_key(self.key.as_str());
        if text_is(&n, "arrowleft") {
            r.append("left");
        } else if text_is(&n, "arrowright") {
            r.append("right");
        } else if text_is(&n, "arrowup") {
            r.append("up");
        } else if text_is(&n, "arrowdown") {
            r.append("down");
        } else {
            r.append(n.as_str());
        }
        assert(r@ =~= chord_gpui(self@));
        r
    }

    /// Human-readable spelling, for example `Ctrl+Alt+←`.
    pub fn display(&self) -> (r: String)
        ensures
            r@ == chord_display(self@),
    {
        let mut r = String::new();
        if self.control {
            r.append("Ctrl+");
        }
        if self.alt {
            r.append("Alt+");
        }
        if self.shift {
            r.append("Shift+");
        }
        if self.meta {
            r.append("Meta+");
        }
        let n = normalize_key(self.key.as_str());
        if text_is(&n, "space") {
            r.append("Space");
        } else if text_is(&n, "arrowleft") {
            r.append("←");
        } else if text_is(&n, "arrowright") {
            r.append("→");
        } else if text_is(&n, "arrowup") {
            r.append("↑");
        } else if text_is(&n, "arrowdown") {
            r.append("↓");
        } else if text_is(&n, "escape") {
            r.append("Esc");
        } else {
            let u = to_uppercase(n.as_str());
            r.append(u.as_str());
        }
        assert(r@ =~= chord_display(self@));
        r
    }
}

/// One command sequence after a keymap's optional prefix.
#[derive(Clone, Debug, PartialEq, Eq)]
pub struct MullionKeyBinding {
    /// Ordered chords entered after the map's optional prefix.
    pub sequence: Vec<KeyChord>,
    /// Command dispatched after every chord in the sequence matches.
    pub command: PaneCommand,
}

/// Abstract value of a binding.
pub struct BindingView {
    pub sequence: Seq<ChordView>,
    pub command: PaneCommand,
}

pub open spec fn chords(v: Seq<KeyChord>) -> Seq<ChordView> {
    v.map_values(|c: KeyChord| c@)
}

pub open spec fn strokes_view(v: Seq<KeyStroke>) -> Seq<ChordView> {
    v.map_values(|s: KeyStroke| s@)
}

impl View for MullionKeyBinding {
    type V = BindingView;

    open spec fn view(&self) -> BindingView {
        BindingView { sequence: chords(self.sequence@), command: self.command }
    }
}

pub open spec fn bindings_view(v: Seq<MullionKeyBinding>) -> Seq<BindingView> {
    v.map_values(|b: MullionKeyBinding| b@)
}

pub open spec fn single(c: ChordView, command: PaneCommand) -> BindingView {
    BindingView { sequence: seq![c], command }
}

/// Pane keymap with an optional prefix.
#[derive(Clone, Debug)]
pub struct MullionKeymap {
    prefix: Option<KeyChord>,
    bindings: Vec<MullionKeyBinding>,
    ignore_editable_targets: bool,
}

/// Abstract value of a keymap.
pub struct KeymapView {
    pub prefix: Option<ChordView>,
    pub bindings: Seq<BindingView>,
    pub ignore_editable_targets: bool,
}

pub open spec fn option_chord(c: Option<KeyChord>) -> Option<ChordView> {
    match c {
        Some(c) => Some(c@),
        None => None,
    }
}

impl View for MullionKeymap {
    type V = KeymapView;

    closed spec fn view(&self) -> KeymapView {
        KeymapView {
            prefix: option_chord(self.prefix),
            bindings: bindings_view(self.bindings@),
            ignore_editable_targets: self.ignore_editable_targets,
        }
    }
}

/// Result of matching a post-prefix stroke sequence against a keymap.
#[derive(Clone, Copy, Debug, PartialEq, Eq, Structural)]
pub enum KeySequenceMatch {
    /// The complete sequence resolves to this command.
    Command(PaneCommand),
    /// The strokes are a proper prefix of at least one binding.
    Pending,
    /// No binding starts with the strokes.
    NoMatch,
}

/// Bindings after replacing any binding for exactly `sequence` (an empty sequence changes nothing).
pub open spec fn rebind(bindings: Seq<BindingView>, sequence: Seq<ChordView>, command: PaneCommand) -> Seq<BindingView> {
    if sequence.len() == 0 {
        bindings
    } else {
        bindings.filter(|b: BindingView| b.sequence != sequence).push(
            BindingView { sequence, command },
        )
    }
}

/// Every stroke is accepted by the chord at the same position of `sequence`.
pub open spec fn prefix_accepts(sequence: Seq<ChordView>, strokes: Seq<ChordView>) -> bool {
    &&& strokes.len() <= sequence.len()
    &&& forall|i: int| 0 <= i < strokes.len() ==> chord_matches(#[trigger] sequence[i], strokes[i])
}

pub open spec fn exact_match(b: BindingView, strokes: Seq<ChordView>) -> bool {
    b.sequence.len() == strokes.len() && prefix_accepts(b.sequence, strokes)
}

pub open spec fn pending_match(b: BindingView, strokes: Seq<ChordView>) -> bool {
    b.sequence.len() > strokes.len() && prefix_accepts(b.sequence, strokes)
}

/// Characterization of `match_sequence`: the first exact binding wins, else a
/// longer binding with a matching prefix leaves the sequence pending.
pub open spec fn classifies(bindings: Seq<BindingView>, strokes: Seq<ChordView>, r: KeySequenceMatch) -> bool {
    match r {
        KeySequenceMatch::Command(c) => exists|i: int|
            0 <= i < bindings.len() && #[trigger] exact_match(bindings[i], strokes)
                && bindings[i].command == c && forall|j: int|
                0 <= j < i ==> !exact_match(#[trigger] bindings[j], strokes),
        KeySequenceMatch::Pending => (forall|i: int|
            0 <= i < bindings.len() ==> !exact_match(#[trigger] bindings[i], strokes)) && exists|i: int|
            0 <= i < bindings.len() && #[trigger] pending_match(bindings[i], strokes),
        KeySequenceMatch::NoMatch => forall|i: int|
            0 <= i < bindings.len() ==> !exact_match(#[trigger] bindings[i], strokes)
                && !pending_match(bindings[i], strokes),
    }
}

/// Strokes are matched position by position: a command comes from the first
/// binding as long as the strokes whose chord at every position accepts the
/// stroke at that position; the strokes are pending when no binding does so
/// but a longer one accepts them at each of their positions; and no binding at
/// least as long accepts them position by position when nothing matches.
pub proof fn lemma_classification_is_positional(
    bindings: Seq<BindingView>,
    strokes: Seq<ChordView>,
    r: KeySequenceMatch,
)
    requires
        classifies(bindings, strokes, r),
    ensures
        match r {
            KeySequenceMatch::Command(c) => exists|i: int|
                0 <= i < bindings.len() && (#[trigger] bindings[i]).command == c
                    && bindings[i].sequence.len() == strokes.len()
                    && (forall|k: int| 0 <= k < strokes.len() ==> chord_matches(bindings[i].sequence[k], strokes[k]))
                    && (forall|j: int| 0 <= j < i && (#[trigger] bindings[j]).sequence.len() == strokes.len()
                        ==> exists|k: int| 0 <= k < strokes.len() && !chord_matches(bindings[j].sequence[k], strokes[k])),
            KeySequenceMatch::Pending => (forall|i: int|
                0 <= i < bindings.len() && (#[trigger] bindings[i]).sequence.len() == strokes.len()
                    ==> exists|k: int| 0 <= k < strokes.len() && !chord_matches(bindings[i].sequence[k], strokes[k]))
                && exists|i: int|
                0 <= i < bindings.len() && (#[trigger] bindings[i]).sequence.len() > strokes.len()
                    && forall|k: int| 0 <= k < strokes.len() ==> chord_matches(bindings[i].sequence[k], strokes[k]),
            KeySequenceMatch::NoMatch => forall|i: int|
                0 <= i < bindings.len() && (#[trigger] bindings[i]).sequence.len() >= strokes.len()
                    ==> exists|k: int| 0 <= k < strokes.len() && !chord_matches(bindings[i].sequence[k], strokes[k]),
        },
{
    assert forall|i: int|
        0 <= i < bindings.len() && (#[trigger] bindings[i]).sequence.len() >= strokes.len()
            && !prefix_accepts(bindings[i].sequence, strokes) implies exists|k: int|
        0 <= k < strokes.len() && !chord_matches(bindings[i].sequence[k], strokes[k]) by {
        let k = choose|k: int| 0 <= k < strokes.len() && !chord_matches(#[trigger] bindings[i].sequence[k], strokes[k]);
        assert(0 <= k < strokes.len() && !chord_matches(bindings[i].sequence[k], strokes[k]));
    }
    match r {
        KeySequenceMatch::Command(c) => {
            let i = choose|i: int|
                0 <= i < bindings.len() && #[trigger] exact_match(bindings[i], strokes) && bindings[i].command == c
                    && forall|j: int| 0 <= j < i ==> !exact_match(#[trigger] bindings[j], strokes);
            assert forall|j: int| 0 <= j < i && (#[trigger] bindings[j]).sequence.len() == strokes.len()
                implies exists|k: int| 0 <= k < strokes.len() && !chord_matches(bindings[j].sequence[k], strokes[k]) by {
                assert(!exact_match(bindings[j], strokes));
            }
            assert(bindings[i].command == c);
        },
        KeySequenceMatch::Pending => {
            assert forall|i: int| 0 <= i < bindings.len() && (#[trigger] bindings[i]).sequence.len() == strokes.len()
                implies exists|k: int| 0 <= k < strokes.len() && !chord_matches(bindings[i].sequence[k], strokes[k]) by {
                assert(!exact_match(bindings[i], strokes));
            }
            let i = choose|i: int| 0 <= i < bindings.len() && #[trigger] pending_match(bindings[i], strokes);
            assert(bindings[i].sequence.len() > strokes.len());
        },
        KeySequenceMatch::NoMatch => {
            assert forall|i: int| 0 <= i < bindings.len() && (#[trigger] bindings[i]).sequence.len() >= strokes.len()
                implies exists|k: int| 0 <= k < strokes.len() && !chord_matches(bindings[i].sequence[k], strokes[k]) by {
                assert(!exact_match(bindings[i], strokes) && !pending_match(bindings[i], strokes));
            }
        },
    }
}

/// The chords of a binding's full sequence, prefix first.
pub open spec fn full_sequence(prefix: Option<ChordView>, sequence: Seq<ChordView>) -> Seq<ChordView> {
    match prefix {
        Some(p) => seq![p] + sequence,
        None => sequence,
    }
}

pub open spec fn display_sequence(prefix: Option<ChordView>, sequence: Seq<ChordView>) -> Seq<char> {
    join(full_sequence(prefix, sequence).map_values(|c: ChordView| chord_display(c)), ", "@)
}

pub open spec fn gpui_sequence(prefix: Option<ChordView>, sequence: Seq<ChordView>) -> Seq<char> {
    join(full_sequence(prefix, sequence).map_values(|c: ChordView| chord_gpui(c)), " "@)
}

/// Index of the first binding for `command`, if any.
pub open spec fn first_binding_for(bindings: Seq<BindingView>, command: PaneCommand, i: int) -> bool {
    &&& 0 <= i < bindings.len()
    &&& bindings[i].command == command
    &&& forall|j: int| 0 <= j < i ==> (#[trigger] bindings[j]).command != command
}

pub open spec fn mullion_bindings() -> Seq<BindingView> {
    seq![
        single(chord_view("ArrowLeft"@, false, true, false, false), PaneCommand::Focus(PaneDirection::Left)),
        single(chord_view("ArrowLeft"@, false, true, true, false), PaneCommand::Move(PaneDirection::Left)),
        single(chord_view("ArrowLeft"@, true, false, true, false), PaneCommand::Swap(PaneDirection::Left)),
        single(chord_view("ArrowLeft"@, true, true, false, false), PaneCommand::Resize(PaneDirection::Left)),
        single(chord_view("ArrowDown"@, false, true, false, false), PaneCommand::Focus(PaneDirection::Down)),
        single(chord_view("ArrowDown"@, false, true, true, false), PaneCommand::Move(PaneDirection::Down)),
        single(chord_view("ArrowDown"@, true, false, true, false), PaneCommand::Swap(PaneDirection::Down)),
        single(chord_view("ArrowDown"@, true, true, false, false), PaneCommand::Resize(PaneDirection::Down)),
        single(chord_view("ArrowUp"@, false, true, false, false), PaneCommand::Focus(PaneDirection::Up)),
        single(chord_view("ArrowUp"@, false, true, true, false), PaneCommand::Move(PaneDirection::Up)),
        single(chord_view("ArrowUp"@, true, false, true, false), PaneCommand::Swap(PaneDirection::Up)),
        single(chord_view("ArrowUp"@, true, true, false, false), PaneCommand::Resize(PaneDirection::Up)),
        single(chord_view("ArrowRight"@, false, true, false, false), PaneCommand::Focus(PaneDirection::Right)),
        single(chord_view("ArrowRight"@, false, true, true, false), PaneCommand::Move(PaneDirection::Right)),
        single(chord_view("ArrowRight"@, true, false, true, false), PaneCommand::Swap(PaneDirection::Right)),
        single(chord_view("ArrowRight"@, true, true, false, false), PaneCommand::Resize(PaneDirection::Right)),
        single(chord_view("PageDown"@, false, true, false, false), PaneCommand::FocusNext),
        single(chord_view("PageUp"@, false, true, false, false), PaneCommand::FocusPrevious),
        single(chord_view("Home"@, false, true, false, false), PaneCommand::FocusFirst),
        single(chord_view("End"@, false, true, false, false), PaneCommand::FocusLast),
        single(chord_view("1"@, false, true, false, false), PaneCommand::FocusIndex(0)),
        single(chord_view("2"@, false, true, false, false), PaneCommand::FocusIndex(1)),
        single(chord_view("3"@, false, true, false, false), PaneCommand::FocusIndex(2)),
        single(chord_view("4"@, false, true, false, false), PaneCommand::FocusIndex(3)),
        single(chord_view("5"@, false, true, false, false), PaneCommand::FocusIndex(4)),
        single(chord_view("6"@, false, true, false, false), PaneCommand::FocusIndex(5)),
        single(chord_view("7"@, false, true, false, false), PaneCommand::FocusIndex(6)),
        single(chord_view("8"@, false, true, false, false), PaneCommand::FocusIndex(7)),
        single(chord_view("9"@, false, true, false, false), PaneCommand::FocusIndex(8)),
        single(chord_view("ArrowRight"@, true, true, true, false), PaneCommand::Split(SplitDirection::Horizontal)),
        single(chord_view("ArrowDown"@, true, true, true, false), PaneCommand::Split(SplitDirection::Vertical)),
        single(chord_view("Backspace"@, true, false, true, false), PaneCommand::Close),
        single(chord_view("Enter"@, true, false, true, false), PaneCommand::ToggleZoom),
        single(chord_view("PageUp"@, true, false, true, false), PaneCommand::SwapPrevious),
        single(chord_view("PageDown"@, true, false, true, false), PaneCommand::SwapNext),
        single(chord_view("h"@, true, true, false, false), PaneCommand::SetParentSplitDirection(SplitDirection::Horizontal)),
        single(chord_view("v"@, true, true, false, false), PaneCommand::SetParentSplitDirection(SplitDirection::Vertical)),
        single(chord_view("o"@, true, true, false, false), PaneCommand::ToggleParentSplitDirection),
        single(chord_view("="@, true, true, false, false), PaneCommand::Balance),
        single(chord_view("["@, true, true, false, false), PaneCommand::Rotate(PaneRotation::Backward)),
        single(chord_view("]"@, true, true, false, false), PaneCommand::Rotate(PaneRotation::Forward)),
        single(chord_view("1"@, true, true, false, false), PaneCommand::ApplyLayout(PaneLayout::EvenHorizontal)),
        single(chord_view("2"@, true, true, false, false), PaneCommand::ApplyLayout(PaneLayout::EvenVertical)),
        single(chord_view("3"@, true, true, false, false), PaneCommand::ApplyLayout(PaneLayout::MainHorizontal)),
        single(chord_view("4"@, true, true, false, false), PaneCommand::ApplyLayout(PaneLayout::MainVertical)),
        single(chord_view("5"@, true, true, false, false), PaneCommand::ApplyLayout(PaneLayout::Tiled)),
    ]
}

/// The key name of the arrow key pointing in direction `d`.
pub open spec fn arrow_key(d: PaneDirection) -> Seq<char> {
    match d {
        PaneDirection::Left => "ArrowLeft"@,
        PaneDirection::Right => "ArrowRight"@,
        PaneDirection::Up => "ArrowUp"@,
        PaneDirection::Down => "ArrowDown"@,
    }
}

/// Whether `bindings` bind the one-chord sequence `chord` to `command`, with
/// every binding of exactly that chord agreeing.
pub open spec fn binds_chord(bindings: Seq<BindingView>, chord: ChordView, command: PaneCommand) -> bool {
    &&& exists|i: int| 0 <= i < bindings.len() && (#[trigger] bindings[i]).sequence == seq![chord]
        && bindings[i].command == command
    &&& forall|i: int|
        0 <= i < bindings.len() && (#[trigger] bindings[i]).sequence == seq![chord] ==> bindings[i].command
            == command
}

proof fn lemma_default_binds(chord: ChordView, command: PaneCommand, w: int)
    requires
        0 <= w < mullion_bindings().len(),
        mullion_bindings()[w] == single(chord, command),
        forall|i: int|
            0 <= i < mullion_bindings().len() && i != w ==> (#[trigger] mullion_bindings()[i]).sequence[0] != chord,
    ensures
        binds_chord(mullion_bindings(), chord, command),
{
    let bs = mullion_bindings();
    assert(bs[w].sequence =~= seq![chord]);
    assert forall|i: int| 0 <= i < bs.len() && (#[trigger] bs[i]).sequence == seq![chord] implies bs[i].command
        == command by {
        if i != w {
            assert(bs[i].sequence[0] == seq![chord][0]);
        }
    }
}

/// In the default keymap every arrow key acts in its own direction: Alt+arrow
/// focuses, Alt+Shift+arrow moves, Ctrl+Shift+arrow swaps and Ctrl+Alt+arrow
/// resizes toward the arrow's direction.
pub proof fn lemma_default_arrows_follow_direction(d: PaneDirection)
    ensures
        binds_chord(mullion_bindings(), chord_view(arrow_key(d), false, true, false, false), PaneCommand::Focus(d)),
        binds_chord(mullion_bindings(), chord_view(arrow_key(d), false, true, true, false), PaneCommand::Move(d)),
        binds_chord(mullion_bindings(), chord_view(arrow_key(d), true, false, true, false), PaneCommand::Swap(d)),
        binds_chord(mullion_bindings(), chord_view(arrow_key(d), true, true, false, false), PaneCommand::Resize(d)),
{
    let base: int = match d {
        PaneDirection::Left => 0,
        PaneDirection::Down => 4,
        PaneDirection::Up => 8,
        PaneDirection::Right => 12,
    };
    lemma_default_arrow_row(d, false, true, false, PaneCommand::Focus(d), base);
    lemma_default_arrow_row(d, false, true, true, PaneCommand::Move(d), base + 1);
    lemma_default_arrow_row(d, true, false, true, PaneCommand::Swap(d), base + 2);
    lemma_default_arrow_row(d, true, true, false, PaneCommand::Resize(d), base + 3);
}

#[verifier::spinoff_prover]
proof fn lemma_default_arrow_row(d: PaneDirection, control: bool, alt: bool, shift: bool, command: PaneCommand, w: int)
    requires
        0 <= w < 16,
        mullion_bindings()[w] == single(chord_view(arrow_key(d), control, alt, shift, false), command),
    ensures
        binds_chord(mullion_bindings(), chord_view(arrow_key(d), control, alt, shift, false), command),
{
    let chord = chord_view(arrow_key(d), control, alt, shift, false);
    let bs = mullion_bindings();
    reveal_strlit("1");
    reveal_strlit("2");
    reveal_strlit("3");
    reveal_strlit("4");
    reveal_strlit("5");
    reveal_strlit("6");
    reveal_strlit("7");
    reveal_strlit("8");
    reveal_strlit("9");
    reveal_strlit("=");
    reveal_strlit("ArrowDown");
    reveal_strlit("ArrowLeft");
    reveal_strlit("ArrowRight");
    reveal_strlit("ArrowUp");
    reveal_strlit("Backspace");
    reveal_strlit("End");
    reveal_strlit("Enter");
    reveal_strlit("Home");
    reveal_strlit("PageDown");
    reveal_strlit("PageUp");
    reveal_strlit("[");
    reveal_strlit("]");
    reveal_strlit("h");
    reveal_strlit("o");
    reveal_strlit("v");
    assert("ArrowLeft"@[5] != "ArrowDown"@[5]);
    assert("ArrowLeft"@[0] != "Backspace"@[0]);
    assert("ArrowDown"@[0] != "Backspace"@[0]);
    assert("ArrowUp"@.len() == 7);
    assert("ArrowRight"@.len() == 10);
    assert("PageDown"@.len() == 8);
    assert("PageUp"@.len() == 6);
    assert("Home"@.len() == 4);
    assert("End"@.len() == 3);
    assert("Enter"@.len() == 5);
    assert("1"@.len() == 1);
    assert("2"@.len() == 1);
    assert("3"@.len() == 1);
    assert("4"@.len() == 1);
    assert("5"@.len() == 1);
    assert("6"@.len() == 1);
    assert("7"@.len() == 1);
    assert("8"@.len() == 1);
    assert("9"@.len() == 1);
    assert("="@.len() == 1);
    assert("["@.len() == 1);
    assert("]"@.len() == 1);
    assert("h"@.len() == 1);
    assert("o"@.len() == 1);
    assert("v"@.len() == 1);
    assert("ArrowLeft"@.len() == 9);
    assert("ArrowDown"@.len() == 9);
    assert("Backspace"@.len() == 9);
    match d {
        PaneDirection::Left => {
            assert forall|i: int| 0 <= i < bs.len() && !(0 <= i < 4) implies (#[trigger] bs[i]).sequence[0] != chord by {
                if i == 4 {} else if i == 5 {} else if i == 6 {} else if i == 7 {} else if i == 8 {} else if i == 9 {}
                else if i == 10 {} else if i == 11 {} else if i == 12 {} else if i == 13 {} else if i == 14 {} else if i == 15 {}
                else if i == 16 {} else if i == 17 {} else if i == 18 {} else if i == 19 {} else if i == 20 {} else if i == 21 {}
                else if i == 22 {} else if i == 23 {} else if i == 24 {} else if i == 25 {} else if i == 26 {} else if i == 27 {}
                else if i == 28 {} else if i == 29 {} else if i == 30 {} else if i == 31 {} else if i == 32 {} else if i == 33 {}
                else if i == 34 {} else if i == 35 {} else if i == 36 {} else if i == 37 {} else if i == 38 {} else if i == 39 {}
                else if i == 40 {} else if i == 41 {} else if i == 42 {} else if i == 43 {} else if i == 44 {} else if i == 45 {}
            }
            assert forall|i: int| 0 <= i < 4 && i != w implies (#[trigger] bs[i]).sequence[0] != chord by {
                if i == 0 { if w == 1 {} else if w == 2 {} else if w == 3 {} }
                else if i == 1 { if w == 0 {} else if w == 2 {} else if w == 3 {} }
                else if i == 2 { if w == 0 {} else if w == 1 {} else if w == 3 {} }
                else if i == 3 { if w == 0 {} else if w == 1 {} else if w == 2 {} }
            }
        },
        PaneDirection::Down => {
            assert forall|i: int| 0 <= i < bs.len() && !(4 <= i < 8) implies (#[trigger] bs[i]).sequence[0] != chord by {
                if i == 0 {} else if i == 1 {} else if i == 2 {} else if i == 3 {} else if i == 8 {} else if i == 9 {}
                else if i == 10 {} else if i == 11 {} else if i == 12 {} else if i == 13 {} else if i == 14 {} else if i == 15 {}
                else if i == 16 {} else if i == 17 {} else if i == 18 {} else if i == 19 {} else if i == 20 {} else if i == 21 {}
                else if i == 22 {} else if i == 23 {} else if i == 24 {} else if i == 25 {} else if i == 26 {} else if i == 27 {}
                else if i == 28 {} else if i == 29 {} else if i == 30 {} else if i == 31 {} else if i == 32 {} else if i == 33 {}
                else if i == 34 {} else if i == 35 {} else if i == 36 {} else if i == 37 {} else if i == 38 {} else if i == 39 {}
                else if i == 40 {} else if i == 41 {} else if i == 42 {} else if i == 43 {} else if i == 44 {} else if i == 45 {}
            }
            assert forall|i: int| 4 <= i < 8 && i != w implies (#[trigger] bs[i]).sequence[0] != chord by {
                if i == 4 { if w == 5 {} else if w == 6 {} else if w == 7 {} }
                else if i == 5 { if w == 4 {} else if w == 6 {} else if w == 7 {} }
                else if i == 6 { if w == 4 {} else if w == 5 {} else if w == 7 {} }
                else if i == 7 { if w == 4 {} else if w == 5 {} else if w == 6 {} }
            }
        },
        PaneDirection::Up => {
            assert forall|i: int| 0 <= i < bs.len() && !(8 <= i < 12) implies (#[trigger] bs[i]).sequence[0] != chord by {
                if i == 0 {} else if i == 1 {} else if i == 2 {} else if i == 3 {} else if i == 4 {} else if i == 5 {}
                else if i == 6 {} else if i == 7 {} else if i == 12 {} else if i == 13 {} else if i == 14 {} else if i == 15 {}
                else if i == 16 {} else if i == 17 {} else if i == 18 {} else if i == 19 {} else if i == 20 {} else if i == 21 {}
                else if i == 22 {} else if i == 23 {} else if i == 24 {} else if i == 25 {} else if i == 26 {} else if i == 27 {}
                else if i == 28 {} else if i == 29 {} else if i == 30 {} else if i == 31 {} else if i == 32 {} else if i == 33 {}
                else if i == 34 {} else if i == 35 {} else if i == 36 {} else if i == 37 {} else if i == 38 {} else if i == 39 {}
                else if i == 40 {} else if i == 41 {} else if i == 42 {} else if i == 43 {} else if i == 44 {} else if i == 45 {}
            }
            assert forall|i: int| 8 <= i < 12 && i != w implies (#[trigger] bs[i]).sequence[0] != chord by {
                if i == 8 { if w == 9 {} else if w == 10 {} else if w == 11 {} }
                else if i == 9 { if w == 8 {} else if w == 10 {} else if w == 11 {} }
                else if i == 10 { if w == 8 {} else if w == 9 {} else if w == 11 {} }
                else if i == 11 { if w == 8 {} else if w == 9 {} else if w == 10 {} }
            }
        },
        PaneDirection::Right => {
            assert forall|i: int| 0 <= i < bs.len() && !(12 <= i < 16) implies (#[trigger] bs[i]).sequence[0] != chord by {
                if i == 0 {} else if i == 1 {} else if i == 2 {} else if i == 3 {} else if i == 4 {} else if i == 5 {}
                else if i == 6 {} else if i == 7 {} else if i == 8 {} else if i == 9 {} else if i == 10 {} else if i == 11 {}
                else if i == 16 {} else if i == 17 {} else if i == 18 {} else if i == 19 {} else if i == 20 {} else if i == 21 {}
                else if i == 22 {} else if i == 23 {} else if i == 24 {} else if i == 25 {} else if i == 26 {} else if i == 27 {}
                else if i == 28 {} else if i == 29 {} else if i == 30 {} else if i == 31 {} else if i == 32 {} else if i == 33 {}
                else if i == 34 {} else if i == 35 {} else if i == 36 {} else if i == 37 {} else if i == 38 {} else if i == 39 {}
                else if i == 40 {} else if i == 41 {} else if i == 42 {} else if i == 43 {} else if i == 44 {} else if i == 45 {}
            }
            assert forall|i: int| 12 <= i < 16 && i != w implies (#[trigger] bs[i]).sequence[0] != chord by {
                if i == 12 { if w == 13 {} else if w == 14 {} else if w == 15 {} }
                else if i == 13 { if w == 12 {} else if w == 14 {} else if w == 15 {} }
                else if i == 14 { if w == 12 {} else if w == 13 {} else if w == 15 {} }
                else if i == 15 { if w == 12 {} else if w == 13 {} else if w == 14 {} }
            }
        },
    }
    lemma_default_binds(chord, command, w);
}

pub open spec fn tmux_bindings() -> Seq<BindingView> {
    seq![
        single(chord_view("h"@, false, false, false, false), PaneCommand::Focus(PaneDirection::Left)),
        single(chord_view("j"@, false, false, false, false), PaneCommand::Focus(PaneDirection::Down)),
        single(chord_view("k"@, false, false, false, false), PaneCommand::Focus(PaneDirection::Up)),
        single(chord_view("l"@, false, false, false, false), PaneCommand::Focus(PaneDirection::Right)),
        single(chord_view("ArrowLeft"@, false, false, false, false), PaneCommand::Focus(PaneDirection::Left)),
        single(chord_view("ArrowDown"@, false, false, false, false), PaneCommand::Focus(PaneDirection::Down)),
        single(chord_view("ArrowUp"@, false, false, false, false), PaneCommand::Focus(PaneDirection::Up)),
        single(chord_view("ArrowRight"@, false, false, false, false), PaneCommand::Focus(PaneDirection::Right)),
        single(chord_view("o"@, false, false, false, false), PaneCommand::FocusNext),
        single(chord_view(";"@, false, false, false, false), PaneCommand::FocusPrevious),
        single(chord_view("1"@, false, false, false, false), PaneCommand::FocusIndex(0)),
        single(chord_view("2"@, false, false, false, false), PaneCommand::FocusIndex(1)),
        single(chord_view("3"@, false, false, false, false), PaneCommand::FocusIndex(2)),
        single(chord_view("4"@, false, false, false, false), PaneCommand::FocusIndex(3)),
        single(chord_view("5"@, false, false, false, false), PaneCommand::FocusIndex(4)),
        single(chord_view("6"@, false, false, false, false), PaneCommand::FocusIndex(5)),
        single(chord_view("7"@, false, false, false, false), PaneCommand::FocusIndex(6)),
        single(chord_view("8"@, false, false, false, false), PaneCommand::FocusIndex(7)),
        single(chord_view("9"@, false, false, false, false), PaneCommand::FocusIndex(8)),
        single(chord_view("%"@, false, false, true, false), PaneCommand::Split(SplitDirection::Horizontal)),
        single(chord_view("\""@, false, false, true, false), PaneCommand::Split(SplitDirection::Vertical)),
        single(chord_view("x"@, false, false, false, false), PaneCommand::Close),
        single(chord_view("z"@, false, false, false, false), PaneCommand::ToggleZoom),
        single(chord_view("Space"@, false, false, false, false), PaneCommand::ToggleParentSplitDirection),
        single(chord_view("e"@, false, false, false, false), PaneCommand::Balance),
        single(chord_view("{"@, false, false, true, false), PaneCommand::SwapPrevious),
        single(chord_view("}"@, false, false, true, false), PaneCommand::SwapNext),
        single(chord_view("o"@, true, false, false, false), PaneCommand::Rotate(PaneRotation::Forward)),
        single(chord_view("o"@, false, true, false, false), PaneCommand::Rotate(PaneRotation::Backward)),
        single(chord_view("ArrowLeft"@, false, false, true, false), PaneCommand::Move(PaneDirection::Left)),
        single(chord_view("ArrowLeft"@, false, true, false, false), PaneCommand::Swap(PaneDirection::Left)),
        single(chord_view("ArrowLeft"@, true, false, false, false), PaneCommand::Resize(PaneDirection::Left)),
        single(chord_view("ArrowDown"@, false, false, true, false), PaneCommand::Move(PaneDirection::Down)),
        single(chord_view("ArrowDown"@, false, true, false, false), PaneCommand::Swap(PaneDirection::Down)),
        single(chord_view("ArrowDown"@, true, false, false, false), PaneCommand::Resize(PaneDirection::Down)),
        single(chord_view("ArrowUp"@, false, false, true, false), PaneCommand::Move(PaneDirection::Up)),
        single(chord_view("ArrowUp"@, false, true, false, false), PaneCommand::Swap(PaneDirection::Up)),
        single(chord_view("ArrowUp"@, true, false, false, false), PaneCommand::Resize(PaneDirection::Up)),
        single(chord_view("ArrowRight"@, false, false, true, false), PaneCommand::Move(PaneDirection::Right)),
        single(chord_view("ArrowRight"@, false, true, false, false), PaneCommand::Swap(PaneDirection::Right)),
        single(chord_view("ArrowRight"@, true, false, false, false), PaneCommand::Resize(PaneDirection::Right)),
        single(chord_view("h"@, false, false, true, false), PaneCommand::Move(PaneDirection::Left)),
        single(chord_view("h"@, false, true, false, false), PaneCommand::Swap(PaneDirection::Left)),
        single(chord_view("h"@, true, false, false, false), PaneCommand::Resize(PaneDirection::Left)),
        single(chord_view("j"@, false, false, true, false), PaneCommand::Move(PaneDirection::Down)),
        single(chord_view("j"@, false, true, false, false), PaneCommand::Swap(PaneDirection::Down)),
        single(chord_view("j"@, true, false, false, false), PaneCommand::Resize(PaneDirection::Down)),
        single(chord_view("k"@, false, false, true, false), PaneCommand::Move(PaneDirection::Up)),
        single(chord_view("k"@, false, true, false, false), PaneCommand::Swap(PaneDirection::Up)),
        single(chord_view("k"@, true, false, false, false), PaneCommand::Resize(PaneDirection::Up)),
        single(chord_view("l"@, false, false, true, false), PaneCommand::Move(PaneDirection::Right)),
        single(chord_view("l"@, false, true, false, false), PaneCommand::Swap(PaneDirection::Right)),
        single(chord_view("l"@, true, false, false, false), PaneCommand::Resize(PaneDirection::Right)),
        single(chord_view("1"@, false, true, false, false), PaneCommand::ApplyLayout(PaneLayout::EvenHorizontal)),
        single(chord_view("2"@, false, true, false, false), PaneCommand::ApplyLayout(PaneLayout::EvenVertical)),
        single(chord_view("3"@, false, true, false, false), PaneCommand::ApplyLayout(PaneLayout::MainHorizontal)),
        single(chord_view("4"@, false, true, false, false), PaneCommand::ApplyLayout(PaneLayout::MainVertical)),
        single(chord_view("5"@, false, true, false, false), PaneCommand::ApplyLayout(PaneLayout::Tiled)),
    ]
}

/// No two bindings share an exact post-prefix sequence.
pub open spec fn distinct_sequences(bindings: Seq<BindingView>) -> bool {
    forall|i: int, j: int|
        0 <= i < j < bindings.len() ==> (#[trigger] bindings[i]).sequence != (#[trigger] bindings[j]).sequence
}

proof fn lemma_filter_keeps_distinct(bindings: Seq<BindingView>, keep: spec_fn(BindingView) -> bool)
    requires
        distinct_sequences(bindings),
    ensures
        distinct_sequences(bindings.filter(keep)),
    decreases bindings.len(),
{
    reveal(Seq::filter);
    if bindings.len() > 0 {
        let rest = bindings.drop_last();
        assert(distinct_sequences(rest));
        lemma_filter_keeps_distinct(rest, keep);
        let fr = rest.filter(keep);
        if keep(bindings.last()) {
            let out = fr.push(bindings.last());
            assert forall|i: int, j: int| 0 <= i < j < out.len() implies (#[trigger] out[i]).sequence
                != (#[trigger] out[j]).sequence by {
                if j == out.len() - 1 {
                    assert(fr.contains(out[i]));
                    rest.lemma_filter_contains_rev(keep, out[i]);
                    let k = choose|k: int| 0 <= k < rest.len() && rest[k] == out[i];
                    assert(bindings[k] == rest[k]);
                } else {
                    assert(out[i] == fr[i] && out[j] == fr[j]);
                }
            }
        }
    }
}

/// Rebinding keeps every sequence bound at most once.
pub proof fn lemma_rebind_keeps_sequences_distinct(
    bindings: Seq<BindingView>,
    sequence: Seq<ChordView>,
    command: PaneCommand,
)
    requires
        distinct_sequences(bindings),
    ensures
        distinct_sequences(rebind(bindings, sequence, command)),
{
    if sequence.len() > 0 {
        let keep = |b: BindingView| b.sequence != sequence;
        lemma_filter_keeps_distinct(bindings, keep);
        let f = bindings.filter(keep);
        broadcast use Seq::lemma_filter_pred;
        let out = f.push(BindingView { sequence, command });
        assert forall|i: int, j: int| 0 <= i < j < out.len() implies (#[trigger] out[i]).sequence
            != (#[trigger] out[j]).sequence by {
            if j == out.len() - 1 {
                assert(keep(f[i]));
            } else {
                assert(out[i] == f[i] && out[j] == f[j]);
            }
        }
    }
}

/// Binding a non-empty sequence puts it last, bound to the new command, leaves
/// no other binding for it, and keeps every binding of another sequence.
pub proof fn lemma_rebind_binds(bindings: Seq<BindingView>, sequence: Seq<ChordView>, command: PaneCommand)
    requires
        sequence.len() > 0,
    ensures
        rebind(bindings, sequence, command).last() == (BindingView { sequence, command }),
        forall|i: int|
            0 <= i < rebind(bindings, sequence, command).len() - 1 ==> (#[trigger] rebind(
                bindings,
                sequence,
                command,
            )[i]).sequence != sequence,
        forall|i: int|
            0 <= i < bindings.len() && (#[trigger] bindings[i]).sequence != sequence ==> rebind(
                bindings,
                sequence,
                command,
            ).contains(bindings[i]),
{
    let keep = |b: BindingView| b.sequence != sequence;
    let f = bindings.filter(keep);
    let out = rebind(bindings, sequence, command);
    broadcast use Seq::lemma_filter_pred, Seq::lemma_filter_contains;
    assert forall|i: int| 0 <= i < out.len() - 1 implies (#[trigger] out[i]).sequence != sequence by {
        assert(out[i] == f[i]);
        assert(keep(f[i]));
    }
    assert forall|i: int| 0 <= i < bindings.len() && (#[trigger] bindings[i]).sequence != sequence implies out.contains(bindings[i]) by {
        assert(keep(bindings[i]));
        assert(f.contains(bindings[i]));
        let k = choose|k: int| 0 <= k < f.len() && f[k] == bindings[i];
        assert(out[k] == f[k]);
    }
}

/// Once a sequence is bound, strokes it accepts exactly resolve to the new
/// command, unless a binding of a different sequence also accepts them exactly.
pub proof fn lemma_rebind_resolves(
    bindings: Seq<BindingView>,
    sequence: Seq<ChordView>,
    command: PaneCommand,
    strokes: Seq<ChordView>,
)
    requires
        sequence.len() > 0,
        exact_match(BindingView { sequence, command }, strokes),
        forall|i: int|
            0 <= i < bindings.len() && (#[trigger] bindings[i]).sequence != sequence ==> !exact_match(
                bindings[i],
                strokes,
            ),
    ensures
        classifies(rebind(bindings, sequence, command), strokes, KeySequenceMatch::Command(command)),
{
    let keep = |b: BindingView| b.sequence != sequence;
    let f = bindings.filter(keep);
    let out = rebind(bindings, sequence, command);
    broadcast use Seq::lemma_filter_pred;
    let last = out.len() - 1;
    assert(out[last] == BindingView { sequence, command });
    assert forall|j: int| 0 <= j < last implies !exact_match(#[trigger] out[j], strokes) by {
        assert(out[j] == f[j]);
        assert(keep(f[j]));
        assert(f.contains(f[j]));
        bindings.lemma_filter_contains_rev(keep, f[j]);
        let k = choose|k: int| 0 <= k < bindings.len() && bindings[k] == f[j];
        assert(bindings[k].sequence != sequence);
    }
    assert(exact_match(out[last], strokes));
}

impl MullionKeyBinding {
    /// Creates a one-chord binding.
    pub fn new(chord: KeyChord, command: PaneCommand) -> (r: Self)
        ensures
            r@ == single(chord@, command),
    {
        let sequence = vec![chord];
        assert(chords(sequence@) =~= seq![chord@]);
        MullionKeyBinding { sequence, command }
    }

    /// Creates a binding from an already ordered post-prefix sequence.
    pub fn from_sequence(sequence: Vec<KeyChord>, command: PaneCommand) -> (r: Self)
        ensures
            r@ == (BindingView { sequence: chords(sequence@), command }),
    {
        MullionKeyBinding { sequence, command }
    }

    fn duplicate(&self) -> (r: Self)
        ensures
            r@ == self@,
    {
        MullionKeyBinding { sequence: duplicate_chords(&self.sequence), command: self.command }
    }
}

fn duplicate_chords(v: &Vec<KeyChord>) -> (r: Vec<KeyChord>)
    ensures
        chords(r@) == chords(v@),
{
    let mut r: Vec<KeyChord> = Vec::new();
    let n = v.len();
    for i in 0..n
        invariant
            n == v@.len(),
            chords(r@) =~= chords(v@).take(i as int),
    {
        let c = v[i].duplicate();
        let ghost before = r@;
        r.push(c);
        assert(r@ == before.push(c));
        assert(chords(r@) =~= chords(before).push(c@));
        assert(chords(r@) =~= chords(v@).take((i + 1) as int));
    }
    assert(chords(v@).take(n as int) =~= chords(v@));
    r
}

fn same_chords(a: &Vec<KeyChord>, b: &Vec<KeyChord>) -> (r: bool)
    ensures
        r == (chords(a@) == chords(b@)),
{
    if a.len() != b.len() {
        assert(chords(a@).len() != chords(b@).len());
        return false;
    }
    let n = a.len();
    for i in 0..n
        invariant
            n == a@.len(),
            n == b@.len(),
            forall|j: int| 0 <= j < i ==> a@[j]@ == b@[j]@,
    {
        if !a[i].same_as(&b[i]) {
            assert(chords(a@)[i as int] != chords(b@)[i as int]);
            return false;
        }
    }
    assert(chords(a@) =~= chords(b@));
    true
}

fn accepts_prefix(sequence: &Vec<KeyChord>, strokes: &[KeyStroke]) -> (r: bool)
    requires
        strokes@.len() <= sequence@.len(),
    ensures
        r == prefix_accepts(chords(sequence@), strokes_view(strokes@)),
{
    let n = strokes.len();
    for i in 0..n
        invariant
            n == strokes@.len(),
            n <= sequence@.len(),
            forall|j: int| 0 <= j < i ==> chord_matches(sequence@[j]@, strokes@[j]@),
    {
        if !sequence[i].matches(&strokes[i]) {
            assert(!chord_matches(chords(sequence@)[i as int], strokes_view(strokes@)[i as int]));
            return false;
        }
    }
    assert forall|j: int| 0 <= j < strokes_view(strokes@).len() implies chord_matches(
        #[trigger] chords(sequence@)[j],
        strokes_view(strokes@)[j],
    ) by {
        assert(chords(sequence@)[j] == sequence@[j]@);
    }
    true
}

impl MullionKeymap {
    /// Creates an empty prefixed map that ignores editable targets.
    pub fn new(prefix: KeyChord) -> (r: Self)
        ensures
            r@ == (KeymapView { prefix: Some(prefix@), bindings: Seq::empty(), ignore_editable_targets: true }),
    {
        let r = MullionKeymap { prefix: Some(prefix), bindings: Vec::new(), ignore_editable_targets: true };
        assert(r@.bindings =~= Seq::<BindingView>::empty());
        r
    }

    /// Create a map whose bindings do not require a prefix.
    pub fn unprefixed() -> (r: Self)
        ensures
            r@ == (KeymapView { prefix: None, bindings: Seq::empty(), ignore_editable_targets: true }),
    {
        let r = MullionKeymap { prefix: None, bindings: Vec::new(), ignore_editable_targets: true };
        assert(r@.bindings =~= Seq::<BindingView>::empty());
        r
    }

    /// Rebuilds a stored keymap exactly as stored: its prefix, every binding in
    /// order (empty or repeated sequences included), and its editable-target
    /// policy; no binding is validated.
    pub fn from_parts(
        prefix: Option<KeyChord>,
        bindings: Vec<MullionKeyBinding>,
        ignore_editable_targets: bool,
    ) -> (r: Self)
        ensures
            r@ == (KeymapView {
                prefix: option_chord(prefix),
                bindings: bindings_view(bindings@),
                ignore_editable_targets,
            }),
    {
        MullionKeymap { prefix, bindings, ignore_editable_targets }
    }

    /// Mullion's direct, modifier-based default command map.
    #[verifier::rlimit(50)]
    pub fn mullion() -> (r: Self)
        ensures
            r@ == (KeymapView { prefix: None, bindings: mullion_bindings(), ignore_editable_targets: true }),
    {
        let bindings = vec![
            MullionKeyBinding::new(KeyChord::new("ArrowLeft").alt(), PaneCommand::Focus(PaneDirection::Left)),
            MullionKeyBinding::new(KeyChord::new("ArrowLeft").alt().shift(), PaneCommand::Move(PaneDirection::Left)),
            MullionKeyBinding::new(KeyChord::new("ArrowLeft").control().shift(), PaneCommand::Swap(PaneDirection::Left)),
            MullionKeyBinding::new(KeyChord::new("ArrowLeft").control().alt(), PaneCommand::Resize(PaneDirection::Left)),
            MullionKeyBinding::new(KeyChord::new("ArrowDown").alt(), PaneCommand::Focus(PaneDirection::Down)),
            MullionKeyBinding::new(KeyChord::new("ArrowDown").alt().shift(), PaneCommand::Move(PaneDirection::Down)),
            MullionKeyBinding::new(KeyChord::new("ArrowDown").control().shift(), PaneCommand::Swap(PaneDirection::Down)),
            MullionKeyBinding::new(KeyChord::new("ArrowDown").control().alt(), PaneCommand::Resize(PaneDirection::Down)),
            MullionKeyBinding::new(KeyChord::new("ArrowUp").alt(), PaneCommand::Focus(PaneDirection::Up)),
            MullionKeyBinding::new(KeyChord::new("ArrowUp").alt().shift(), PaneCommand::Move(PaneDirection::Up)),
            MullionKeyBinding::new(KeyChord::new("ArrowUp").control().shift(), PaneCommand::Swap(PaneDirection::Up)),
            MullionKeyBinding::new(KeyChord::new("ArrowUp").control().alt(), PaneCommand::Resize(PaneDirection::Up)),
            MullionKeyBinding::new(KeyChord::new("ArrowRight").alt(), PaneCommand::Focus(PaneDirection::Right)),
            MullionKeyBinding::new(KeyChord::new("ArrowRight").alt().shift(), PaneCommand::Move(PaneDirection::Right)),
            MullionKeyBinding::new(KeyChord::new("ArrowRight").control().shift(), PaneCommand::Swap(PaneDirection::Right)),
            MullionKeyBinding::new(KeyChord::new("ArrowRight").control().alt(), PaneCommand::Resize(PaneDirection::Right)),
            MullionKeyBinding::new(KeyChord::new("PageDown").alt(), PaneCommand::FocusNext),
            MullionKeyBinding::new(KeyChord::new("PageUp").alt(), PaneCommand::FocusPrevious),
            MullionKeyBinding::new(KeyChord::new("Home").alt(), PaneCommand::FocusFirst),
            MullionKeyBinding::new(KeyChord::new("End").alt(), PaneCommand::FocusLast),
            MullionKeyBinding::new(KeyChord::new("1").alt(), PaneCommand::FocusIndex(0)),
            MullionKeyBinding::new(KeyChord::new("2").alt(), PaneCommand::FocusIndex(1)),
            MullionKeyBinding::new(KeyChord::new("3").alt(), PaneCommand::FocusIndex(2)),
            MullionKeyBinding::new(KeyChord::new("4").alt(), PaneCommand::FocusIndex(3)),
            MullionKeyBinding::new(KeyChord::new("5").alt(), PaneCommand::FocusIndex(4)),
            MullionKeyBinding::new(KeyChord::new("6").alt(), PaneCommand::FocusIndex(5)),
            MullionKeyBinding::new(KeyChord::new("7").alt(), PaneCommand::FocusIndex(6)),
            MullionKeyBinding::new(KeyChord::new("8").alt(), PaneCommand::FocusIndex(7)),
            MullionKeyBinding::new(KeyChord::new("9").alt(), PaneCommand::FocusIndex(8)),
            MullionKeyBinding::new(KeyChord::new("ArrowRight").control().alt().shift(), PaneCommand::Split(SplitDirection::Horizontal)),
            MullionKeyBinding::new(KeyChord::new("ArrowDown").control().alt().shift(), PaneCommand::Split(SplitDirection::Vertical)),
            MullionKeyBinding::new(KeyChord::new("Backspace").control().shift(), PaneCommand::Close),
            MullionKeyBinding::new(KeyChord::new("Enter").control().shift(), PaneCommand::ToggleZoom),
            MullionKeyBinding::new(KeyChord::new("PageUp").control().shift(), PaneCommand::SwapPrevious),
            MullionKeyBinding::new(KeyChord::new("PageDown").control().shift(), PaneCommand::SwapNext),
            MullionKeyBinding::new(KeyChord::new("h").control().alt(), PaneCommand::SetParentSplitDirection(SplitDirection::Horizontal)),
            MullionKeyBinding::new(KeyChord::new("v").control().alt(), PaneCommand::SetParentSplitDirection(SplitDirection::Vertical)),
            MullionKeyBinding::new(KeyChord::new("o").control().alt(), PaneCommand::ToggleParentSplitDirection),
            MullionKeyBinding::new(KeyChord::new("=").control().alt(), PaneCommand::Balance),
            MullionKeyBinding::new(KeyChord::new("[").control().alt(), PaneCommand::Rotate(PaneRotation::Backward)),
            MullionKeyBinding::new(KeyChord::new("]").control().alt(), PaneCommand::Rotate(PaneRotation::Forward)),
            MullionKeyBinding::new(KeyChord::new("1").control().alt(), PaneCommand::ApplyLayout(PaneLayout::EvenHorizontal)),
            MullionKeyBinding::new(KeyChord::new("2").control().alt(), PaneCommand::ApplyLayout(PaneLayout::EvenVertical)),
            MullionKeyBinding::new(KeyChord::new("3").control().alt(), PaneCommand::ApplyLayout(PaneLayout::MainHorizontal)),
            MullionKeyBinding::new(KeyChord::new("4").control().alt(), PaneCommand::ApplyLayout(PaneLayout::MainVertical)),
            MullionKeyBinding::new(KeyChord::new("5").control().alt(), PaneCommand::ApplyLayout(PaneLayout::Tiled)),
        ];
        let map = MullionKeymap { prefix: None, bindings, ignore_editable_targets: true };
        assert(map@.bindings =~= mullion_bindings());
        map
    }

    /// An opt-in `Ctrl+B` map for applications whose users expect tmux.
    #[verifier::rlimit(50)]
    pub fn tmux() -> (r: Self)
        ensures
            r@ == (KeymapView {
                prefix: Some(chord_view("b"@, true, false, false, false)),
                bindings: tmux_bindings(),
                ignore_editable_targets: true,
            }),
    {
        let bindings = vec![
            MullionKeyBinding::new(KeyChord::new("h"), PaneCommand::Focus(PaneDirection::Left)),
            MullionKeyBinding::new(KeyChord::new("j"), PaneCommand::Focus(PaneDirection::Down)),
            MullionKeyBinding::new(KeyChord::new("k"), PaneCommand::Focus(PaneDirection::Up)),
            MullionKeyBinding::new(KeyChord::new("l"), PaneCommand::Focus(PaneDirection::Right)),
            MullionKeyBinding::new(KeyChord::new("ArrowLeft"), PaneCommand::Focus(PaneDirection::Left)),
            MullionKeyBinding::new(KeyChord::new("ArrowDown"), PaneCommand::Focus(PaneDirection::Down)),
            MullionKeyBinding::new(KeyChord::new("ArrowUp"), PaneCommand::Focus(PaneDirection::Up)),
            MullionKeyBinding::new(KeyChord::new("ArrowRight"), PaneCommand::Focus(PaneDirection::Right)),
            MullionKeyBinding::new(KeyChord::new("o"), PaneCommand::FocusNext),
            MullionKeyBinding::new(KeyChord::new(";"), PaneCommand::FocusPrevious),
            MullionKeyBinding::new(KeyChord::new("1"), PaneCommand::FocusIndex(0)),
            MullionKeyBinding::new(KeyChord::new("2"), PaneCommand::FocusIndex(1)),
            MullionKeyBinding::new(KeyChord::new("3"), PaneCommand::FocusIndex(2)),
            MullionKeyBinding::new(KeyChord::new("4"), PaneCommand::FocusIndex(3)),
            MullionKeyBinding::new(KeyChord::new("5"), PaneCommand::FocusIndex(4)),
            MullionKeyBinding::new(KeyChord::new("6"), PaneCommand::FocusIndex(5)),
            MullionKeyBinding::new(KeyChord::new("7"), PaneCommand::FocusIndex(6)),
            MullionKeyBinding::new(KeyChord::new("8"), PaneCommand::FocusIndex(7)),
            MullionKeyBinding::new(KeyChord::new("9"), PaneCommand::FocusIndex(8)),
            MullionKeyBinding::new(KeyChord::new("%").shift(), PaneCommand::Split(SplitDirection::Horizontal)),
            MullionKeyBinding::new(KeyChord::new("\"").shift(), PaneCommand::Split(SplitDirection::Vertical)),
            MullionKeyBinding::new(KeyChord::new("x"), PaneCommand::Close),
            MullionKeyBinding::new(KeyChord::new("z"), PaneCommand::ToggleZoom),
            MullionKeyBinding::new(KeyChord::new("Space"), PaneCommand::ToggleParentSplitDirection),
            MullionKeyBinding::new(KeyChord::new("e"), PaneCommand::Balance),
            MullionKeyBinding::new(KeyChord::new("{").shift(), PaneCommand::SwapPrevious),
            MullionKeyBinding::new(KeyChord::new("}").shift(), PaneCommand::SwapNext),
            MullionKeyBinding::new(KeyChord::new("o").control(), PaneCommand::Rotate(PaneRotation::Forward)),
            MullionKeyBinding::new(KeyChord::new("o").alt(), PaneCommand::Rotate(PaneRotation::Backward)),
            MullionKeyBinding::new(KeyChord::new("ArrowLeft").shift(), PaneCommand::Move(PaneDirection::Left)),
            MullionKeyBinding::new(KeyChord::new("ArrowLeft").alt(), PaneCommand::Swap(PaneDirection::Left)),
            MullionKeyBinding::new(KeyChord::new("ArrowLeft").control(), PaneCommand::Resize(PaneDirection::Left)),
            MullionKeyBinding::new(KeyChord::new("ArrowDown").shift(), PaneCommand::Move(PaneDirection::Down)),
            MullionKeyBinding::new(KeyChord::new("ArrowDown").alt(), PaneCommand::Swap(PaneDirection::Down)),
            MullionKeyBinding::new(KeyChord::new("ArrowDown").control(), PaneCommand::Resize(PaneDirection::Down)),
            MullionKeyBinding::new(KeyChord::new("ArrowUp").shift(), PaneCommand::Move(PaneDirection::Up)),
            MullionKeyBinding::new(KeyChord::new("ArrowUp").alt(), PaneCommand::Swap(PaneDirection::Up)),
            MullionKeyBinding::new(KeyChord::new("ArrowUp").control(), PaneCommand::Resize(PaneDirection::Up)),
            MullionKeyBinding::new(KeyChord::new("ArrowRight").shift(), PaneCommand::Move(PaneDirection::Right)),
            MullionKeyBinding::new(KeyChord::new("ArrowRight").alt(), PaneCommand::Swap(PaneDirection::Right)),
            MullionKeyBinding::new(KeyChord::new("ArrowRight").control(), PaneCommand::Resize(PaneDirection::Right)),
            MullionKeyBinding::new(KeyChord::new("h").shift(), PaneCommand::Move(PaneDirection::Left)),
            MullionKeyBinding::new(KeyChord::new("h").alt(), PaneCommand::Swap(PaneDirection::Left)),
            MullionKeyBinding::new(KeyChord::new("h").control(), PaneCommand::Resize(PaneDirection::Left)),
            MullionKeyBinding::new(KeyChord::new("j").shift(), PaneCommand::Move(PaneDirection::Down)),
            MullionKeyBinding::new(KeyChord::new("j").alt(), PaneCommand::Swap(PaneDirection::Down)),
            MullionKeyBinding::new(KeyChord::new("j").control(), PaneCommand::Resize(PaneDirection::Down)),
            MullionKeyBinding::new(KeyChord::new("k").shift(), PaneCommand::Move(PaneDirection::Up)),
            MullionKeyBinding::new(KeyChord::new("k").alt(), PaneCommand::Swap(PaneDirection::Up)),
            MullionKeyBinding::new(KeyChord::new("k").control(), PaneCommand::Resize(PaneDirection::Up)),
            MullionKeyBinding::new(KeyChord::new("l").shift(), PaneCommand::Move(PaneDirection::Right)),
            MullionKeyBinding::new(KeyChord::new("l").alt(), PaneCommand::Swap(PaneDirection::Right)),
            MullionKeyBinding::new(KeyChord::new("l").control(), PaneCommand::Resize(PaneDirection::Right)),
            MullionKeyBinding::new(KeyChord::new("1").alt(), PaneCommand::ApplyLayout(PaneLayout::EvenHorizontal)),
            MullionKeyBinding::new(KeyChord::new("2").alt(), PaneCommand::ApplyLayout(PaneLayout::EvenVertical)),
            MullionKeyBinding::new(KeyChord::new("3").alt(), PaneCommand::ApplyLayout(PaneLayout::MainHorizontal)),
            MullionKeyBinding::new(KeyChord::new("4").alt(), PaneCommand::ApplyLayout(PaneLayout::MainVertical)),
            MullionKeyBinding::new(KeyChord::new("5").alt(), PaneCommand::ApplyLayout(PaneLayout::Tiled)),
        ];
        let map = MullionKeymap { prefix: Some(KeyChord::new("b").control()), bindings, ignore_editable_targets: true };
        assert(map@.bindings =~= tmux_bindings());
        map
    }

    /// Returns the chord required before every binding, or `None` for a direct map.
    pub fn prefix(&self) -> (r: Option<&KeyChord>)
        ensures
            match r {
                Some(c) => self@.prefix == Some(c@),
                None => self@.prefix is None,
            },
    {
        self.prefix.as_ref()
    }

    /// Returns bindings in insertion order.
    pub fn bindings(&self) -> (r: &[MullionKeyBinding])
        ensures
            bindings_view(r@) == self@.bindings,
    {
        self.bindings.as_slice()
    }

    /// Replace any existing binding for `chord`.
    pub fn bind(&mut self, chord: KeyChord, command: PaneCommand)
        ensures
            final(self)@ == (KeymapView {
                bindings: rebind(old(self)@.bindings, seq![chord@], command),
                ..old(self)@
            }),
    {
        let sequence = vec![chord];
        assert(chords(sequence@) =~= seq![chord@]);
        self.bind_sequence(sequence, command);
    }

    /// Replace any existing binding for the exact post-prefix sequence;
    /// an empty sequence leaves the map unchanged.
    pub fn bind_sequence(&mut self, sequence: Vec<KeyChord>, command: PaneCommand)
        ensures
            final(self)@ == (KeymapView {
                bindings: rebind(old(self)@.bindings, chords(sequence@), command),
                ..old(self)@
            }),
    {
        if sequence.len() == 0 {
            return;
        }
        let ghost before = bindings_view(self.bindings@);
        let ghost target = chords(sequence@);
        let ghost keep = |b: BindingView| b.sequence != target;
        let mut kept: Vec<MullionKeyBinding> = Vec::new();
        let n = self.bindings.len();
        for i in 0..n
            invariant
                n == self.bindings@.len(),
                before == bindings_view(self.bindings@),
                target == chords(sequence@),
                keep == (|b: BindingView| b.sequence != target),
                bindings_view(kept@) == before.take(i as int).filter(keep),
        {
            proof {
                reveal(Seq::filter);
                assert(before.take((i + 1) as int).drop_last() =~= before.take(i as int));
            }
            let same = same_chords(&self.bindings[i].sequence, &sequence);
            if !same {
                let copy = self.bindings[i].duplicate();
                kept.push(copy);
                assert(bindings_view(kept@) =~= before.take((i + 1) as int).filter(keep));
            } else {
                assert(bindings_view(kept@) =~= before.take((i + 1) as int).filter(keep));
            }
        }
        proof {
            assert(before.take(n as int) =~= before);
        }
        let binding = MullionKeyBinding::from_sequence(sequence, command);
        kept.push(binding);
        assert(bindings_view(kept@) =~= rebind(before, target, command));
        self.bindings = kept;
    }

    /// Adds or replaces a one-chord binding and returns the map.
    pub fn with_binding(self, chord: KeyChord, command: PaneCommand) -> (r: Self)
        ensures
            r@ == (KeymapView { bindings: rebind(self@.bindings, seq![chord@], command), ..self@ }),
    {
        let mut map = self;
        map.bind(chord, command);
        map
    }

    /// Adds or replaces a post-prefix chord sequence and returns the map.
    pub fn with_sequence(self, sequence: Vec<KeyChord>, command: PaneCommand) -> (r: Self)
        ensures
            r@ == (KeymapView { bindings: rebind(self@.bindings, chords(sequence@), command), ..self@ }),
    {
        let mut map = self;
        map.bind_sequence(sequence, command);
        map
    }

    /// Configure whether editable targets may be captured; the default is `false`.
    pub fn capture_editable_targets(self, capture: bool) -> (r: Self)
        ensures
            r@ == (KeymapView { ignore_editable_targets: !capture, ..self@ }),
    {
        MullionKeymap { ignore_editable_targets: !capture, ..self }
    }

    /// Whether keyboard adapters should capture shortcuts from editable controls.
    pub fn captures_editable_targets(&self) -> (r: bool)
        ensures
            r == !self@.ignore_editable_targets,
    {
        !self.ignore_editable_targets
    }

    fn chord_texts(&self, sequence: &Vec<KeyChord>, gpui: bool) -> (r: Vec<String>)
        ensures
            gpui ==> texts(r@) == full_sequence(self@.prefix, chords(sequence@)).map_values(
                |c: ChordView| chord_gpui(c),
            ),
            !gpui ==> texts(r@) == full_sequence(self@.prefix, chords(sequence@)).map_values(
                |c: ChordView| chord_display(c),
            ),
    {
        let mut all: Vec<&KeyChord> = Vec::new();
        match &self.prefix {
            Some(p) => all.push(p),
            None => {},
        }
        let ghost start = all@.len();
        let n = sequence.len();
        for i in 0..n
            invariant
                n == sequence@.len(),
                start == all@.len() - i,
                start == (if self.prefix is Some { 1int } else { 0int }),
                self.prefix matches Some(p) ==> all@[0] == p,
                forall|j: int| 0 <= j < i ==> all@[start + j] == sequence@[j],
        {
            all.push(&sequence[i]);
        }
        let ghost full = full_sequence(self@.prefix, chords(sequence@));
        assert(full.len() == all@.len());
        assert forall|j: int| 0 <= j < full.len() implies #[trigger] full[j] == all@[j]@ by {
            if self.prefix is Some {
                if j > 0 {
                    assert(full[j] == chords(sequence@)[j - 1]);
                }
            } else {
                assert(full[j] == chords(sequence@)[j]);
            }
        }
        let mut r: Vec<String> = Vec::new();
        let m = all.len();
        for k in 0..m
            invariant
                m == all@.len(),
                full.len() == m,
                forall|j: int| 0 <= j < m ==> #[trigger] full[j] == all@[j]@,
                r@.len() == k,
                forall|j: int| 0 <= j < k ==> (#[trigger] r@[j])@ == (if gpui { chord_gpui(full[j]) } else { chord_display(full[j]) }),
        {
            let text = if gpui {
                all[k].normalized()
            } else {
                all[k].display()
            };
            r.push(text);
        }
        if gpui {
            assert(texts(r@) =~= full.map_values(|c: ChordView| chord_gpui(c)));
        } else {
            assert(texts(r@) =~= full.map_values(|c: ChordView| chord_display(c)));
        }
        r
    }

    /// Display the full key sequence for the first binding of a command,
    /// including the prefix when the map has one.
    pub fn sequence_for(&self, command: PaneCommand) -> (r: Option<String>)
        ensures
            match r {
                Some(s) => exists|i: int|
                    first_binding_for(self@.bindings, command, i) && s@ == display_sequence(
                        self@.prefix,
                        #[trigger] self@.bindings[i].sequence,
                    ),
                None => forall|i: int|
                    0 <= i < self@.bindings.len() ==> (#[trigger] self@.bindings[i]).command != command,
            },
    {
        let n = self.bindings.len();
        for i in 0..n
            invariant
                n == self@.bindings.len(),
                forall|j: int| 0 <= j < i ==> (#[trigger] self@.bindings[j]).command != command,
        {
            if self.bindings[i].command == command {
                let parts = self.chord_texts(&self.bindings[i].sequence, false);
                let s = join_strings(&parts, ", ");
                proof {
                    reveal_strlit(", ");
                }
                assert(first_binding_for(self@.bindings, command, i as int));
                assert(self@.bindings[i as int].sequence == chords(self.bindings@[i as int].sequence@));
                assert(s@ == display_sequence(self@.prefix, self@.bindings[i as int].sequence));
                return Some(s);
            }
        }
        None
    }

    /// GPUI-compatible full sequences, including the optional prefix.
    pub fn normalized_sequences(&self) -> (r: Vec<(String, PaneCommand)>)
        ensures
            r@.len() == self@.bindings.len(),
            forall|i: int|
                0 <= i < r@.len() ==> (#[trigger] r@[i]).0@ == gpui_sequence(self@.prefix, self@.bindings[i].sequence)
                    && r@[i].1 == self@.bindings[i].command,
    {
        let mut r: Vec<(String, PaneCommand)> = Vec::new();
        let n = self.bindings.len();
        for i in 0..n
            invariant
                n == self@.bindings.len(),
                r@.len() == i,
                forall|j: int|
                    0 <= j < i ==> (#[trigger] r@[j]).0@ == gpui_sequence(self@.prefix, self@.bindings[j].sequence)
                        && r@[j].1 == self@.bindings[j].command,
        {
            let parts = self.chord_texts(&self.bindings[i].sequence, true);
            let s = join_strings(&parts, " ");
            r.push((s, self.bindings[i].command));
        }
        r
    }

    /// Classifies a post-prefix stroke sequence against the configured bindings.
    /// Exact matches take precedence over a longer binding with the same prefix.
    pub fn match_sequence(&self, strokes: &[KeyStroke]) -> (r: KeySequenceMatch)
        ensures
            classifies(self@.bindings, strokes_view(strokes@), r),
    {
        let ghost bs = self@.bindings;
        let ghost sv = strokes_view(strokes@);
        let n = self.bindings.len();
        for i in 0..n
            invariant
                n == bs.len(),
                bs == self@.bindings,
                sv == strokes_view(strokes@),
                forall|j: int| 0 <= j < i ==> !exact_match(#[trigger] bs[j], sv),
        {
            let b = &self.bindings[i];
            if b.sequence.len() == strokes.len() && accepts_prefix(&b.sequence, strokes) {
                assert(exact_match(bs[i as int], sv));
                return KeySequenceMatch::Command(b.command);
            }
        }
        for i in 0..n
            invariant
                n == bs.len(),
                bs == self@.bindings,
                sv == strokes_view(strokes@),
                forall|j: int| 0 <= j < n ==> !exact_match(#[trigger] bs[j], sv),
                forall|j: int| 0 <= j < i ==> !pending_match(#[trigger] bs[j], sv),
        {
            let b = &self.bindings[i];
            if b.sequence.len() > strokes.len() && accepts_prefix(&b.sequence, strokes) {
                assert(pending_match(bs[i as int], sv));
                return KeySequenceMatch::Pending;
            }
        }
        KeySequenceMatch::NoMatch
    }
}

impl Default for MullionKeymap {
    /// The default map is [`MullionKeymap::mullion`].
    fn default() -> (r: Self)
        ensures
            r@ == (KeymapView { prefix: None, bindings: mullion_bindings(), ignore_editable_targets: true }),
    {
        Self::mullion()
    }
}

} // verus!
