//! The window-state diff engine: compares the last state pushed to the
//! platform with the state the application wants, field by field, and emits
//! the minimal sequence of platform commands that converges them.
//!
//! Live cursor position, inner size and window position are platform-reported
//! telemetry, not settable through this path, so the diff never emits a
//! command for them; that keeps platform-reported and application-requested
//! geometry from feeding back into each other.

use vstd::prelude::*;

use crate::window_state::LogicalSize;
use crate::window_state::MouseCursorType;
use crate::window_state::WindowPosition;
use crate::window_state::WindowSize;
use crate::window_state::WindowState;
use crate::window_state::WindowStateModel;

verus! {

/// One call for the platform layer to perform on the native window.
#[derive(Clone, Debug, PartialEq)]
pub enum WindowCommand {
    /// Change the window title.
    SetTitle(String),
    /// Change the shown cursor shape.
    SetMouseCursor(MouseCursorType),
    /// Maximize or restore the window.
    SetMaximized(bool),
    /// Enter or leave fullscreen on the window's current monitor.
    SetFullscreen(bool),
    /// Show or hide the title bar and borders.
    SetDecorations(bool),
    /// Show or hide the window.
    SetVisible(bool),
    /// Constrain or unconstrain the smallest inner size.
    SetMinDimensions(Option<LogicalSize>),
    /// Constrain or unconstrain the largest inner size.
    SetMaxDimensions(Option<LogicalSize>),
    /// Move the window; emitted only by window creation, never by the diff.
    SetPosition(WindowPosition),
    /// Resize the window; emitted only by window creation, never by the diff.
    SetInnerSize(LogicalSize),
}

/// The mathematical content of a `WindowCommand`: the same choice with the
/// title as a sequence of characters.
pub ghost enum CommandModel {
    SetTitle(Seq<char>),
    SetMouseCursor(MouseCursorType),
    SetMaximized(bool),
    SetFullscreen(bool),
    SetDecorations(bool),
    SetVisible(bool),
    SetMinDimensions(Option<LogicalSize>),
    SetMaxDimensions(Option<LogicalSize>),
    SetPosition(WindowPosition),
    SetInnerSize(LogicalSize),
}

impl View for WindowCommand {
    type V = CommandModel;

    open spec fn view(&self) -> CommandModel {
        match self {
            WindowCommand::SetTitle(t) => CommandModel::SetTitle(t@),
            WindowCommand::SetMouseCursor(c) => CommandModel::SetMouseCursor(*c),
            WindowCommand::SetMaximized(b) => CommandModel::SetMaximized(*b),
            WindowCommand::SetFullscreen(b) => CommandModel::SetFullscreen(*b),
            WindowCommand::SetDecorations(b) => CommandModel::SetDecorations(*b),
            WindowCommand::SetVisible(b) => CommandModel::SetVisible(*b),
            WindowCommand::SetMinDimensions(d) => CommandModel::SetMinDimensions(*d),
            WindowCommand::SetMaxDimensions(d) => CommandModel::SetMaxDimensions(*d),
            WindowCommand::SetPosition(p) => CommandModel::SetPosition(*p),
            WindowCommand::SetInnerSize(s) => CommandModel::SetInnerSize(*s),
        }
    }
}

impl DeepView for WindowCommand {
    type V = CommandModel;

    open spec fn deep_view(&self) -> CommandModel {
        self.view()
    }
}

/// One window property the diff engine tracks.
#[derive(Clone, Copy, Debug, PartialEq, Eq, Structural)]
pub enum TrackedField {
    Title,
    MouseCursor,
    Maximized,
    Fullscreen,
    Decorations,
    Visible,
    MinDimensions,
    MaxDimensions,
}

/// Whether `a` and `b` agree on the tracked property `f`.
pub open spec fn field_eq(a: WindowStateModel, b: WindowStateModel, f: TrackedField) -> bool {
    match f {
        TrackedField::Title => a.title == b.title,
        TrackedField::MouseCursor => a.mouse_state.mouse_cursor_type
            == b.mouse_state.mouse_cursor_type,
        TrackedField::Maximized => a.is_maximized == b.is_maximized,
        TrackedField::Fullscreen => a.is_fullscreen == b.is_fullscreen,
        TrackedField::Decorations => a.has_decorations == b.has_decorations,
        TrackedField::Visible => a.is_visible == b.is_visible,
        TrackedField::MinDimensions => a.size.min_dimensions == b.size.min_dimensions,
        TrackedField::MaxDimensions => a.size.max_dimensions == b.size.max_dimensions,
    }
}

/// The command that converges the tracked property `f` to `b`'s value.
pub open spec fn command_for(b: WindowStateModel, f: TrackedField) -> CommandModel {
    match f {
        TrackedField::Title => CommandModel::SetTitle(b.title),
        TrackedField::MouseCursor => CommandModel::SetMouseCursor(
            b.mouse_state.mouse_cursor_type,
        ),
        TrackedField::Maximized => CommandModel::SetMaximized(b.is_maximized),
        TrackedField::Fullscreen => CommandModel::SetFullscreen(b.is_fullscreen),
        TrackedField::Decorations => CommandModel::SetDecorations(b.has_decorations),
        TrackedField::Visible => CommandModel::SetVisible(b.is_visible),
        TrackedField::MinDimensions => CommandModel::SetMinDimensions(b.size.min_dimensions),
        TrackedField::MaxDimensions => CommandModel::SetMaxDimensions(b.size.max_dimensions),
    }
}

/// The commands contributed by the single property `f`: one command if the
/// states disagree on it, none if they agree.
pub open spec fn singleton_diff(
    a: WindowStateModel,
    b: WindowStateModel,
    f: TrackedField,
) -> Seq<CommandModel> {
    if field_eq(a, b, f) {
        Seq::empty()
    } else {
        seq![command_for(b, f)]
    }
}

/// The commands that converge `old` to `new`: one per tracked property on
/// which the two disagree, in the fixed field order (title, cursor,
/// maximized, fullscreen, decorations, visible, minimum then maximum size
/// bounds), each carrying `new`'s value. Properties on which they agree
/// contribute nothing, and the untracked telemetry (position, inner size,
/// DPI, scroll deltas) contributes nothing either.
pub open spec fn spec_diff(old: WindowStateModel, new: WindowStateModel) -> Seq<CommandModel> {
    singleton_diff(old, new, TrackedField::Title) + singleton_diff(
        old,
        new,
        TrackedField::MouseCursor,
    ) + singleton_diff(old, new, TrackedField::Maximized) + singleton_diff(
        old,
        new,
        TrackedField::Fullscreen,
    ) + singleton_diff(old, new, TrackedField::Decorations) + singleton_diff(
        old,
        new,
        TrackedField::Visible,
    ) + singleton_diff(old, new, TrackedField::MinDimensions) + singleton_diff(
        old,
        new,
        TrackedField::MaxDimensions,
    )
}

/// `old` after the diff's commands are applied and the snapshot is updated:
/// every tracked property takes `new`'s value, and the untracked telemetry
/// keeps `old`'s.
pub open spec fn synced(old: WindowStateModel, new: WindowStateModel) -> WindowStateModel {
    WindowStateModel {
        title: new.title,
        is_maximized: new.is_maximized,
        is_fullscreen: new.is_fullscreen,
        has_decorations: new.has_decorations,
        is_visible: new.is_visible,
        size: WindowSize {
            min_dimensions: new.size.min_dimensions,
            max_dimensions: new.size.max_dimensions,
            ..old.size
        },
        mouse_state: crate::window_state::MouseState {
            mouse_cursor_type: new.mouse_state.mouse_cursor_type,
            ..old.mouse_state
        },
        ..old
    }
}

/// Compares the last-applied and the desired state property by property and
/// returns the platform commands that converge them, in the fixed field
/// order; equal states yield no command at all.
#[verifier::rlimit(100)]
pub fn diff_window_state(old_state: &WindowState, new_state: &WindowState) -> (cmds: Vec<
    WindowCommand,
>)
    ensures
        cmds.deep_view() == spec_diff(old_state@, new_state@),
{
    let ghost a = old_state@;
    let ghost b = new_state@;
    let mut cmds: Vec<WindowCommand> = Vec::new();
    assert(cmds.deep_view() =~= Seq::<CommandModel>::empty());
    if !(old_state.title == new_state.title) {
        cmds.push(WindowCommand::SetTitle(new_state.title.clone()));
    }
    assert(cmds.deep_view() =~= diff_through(a, b, 0));
    if !(old_state.mouse_state.mouse_cursor_type == new_state.mouse_state.mouse_cursor_type) {
        cmds.push(WindowCommand::SetMouseCursor(new_state.mouse_state.mouse_cursor_type));
    }
    assert(cmds.deep_view() =~= diff_through(a, b, 1));
    if !(old_state.is_maximized == new_state.is_maximized) {
        cmds.push(WindowCommand::SetMaximized(new_state.is_maximized));
    }
    assert(cmds.deep_view() =~= diff_through(a, b, 2));
    if !(old_state.is_fullscreen == new_state.is_fullscreen) {
        cmds.push(WindowCommand::SetFullscreen(new_state.is_fullscreen));
    }
    assert(cmds.deep_view() =~= diff_through(a, b, 3));
    if !(old_state.has_decorations == new_state.has_decorations) {
        cmds.push(WindowCommand::SetDecorations(new_state.has_decorations));
    }
    assert(cmds.deep_view() =~= diff_through(a, b, 4));
    if !(old_state.is_visible == new_state.is_visible) {
        cmds.push(WindowCommand::SetVisible(new_state.is_visible));
    }
    assert(cmds.deep_view() =~= diff_through(a, b, 5));
    if !(old_state.size.min_dimensions == new_state.size.min_dimensions) {
        cmds.push(WindowCommand::SetMinDimensions(new_state.size.min_dimensions));
    }
    assert(cmds.deep_view() =~= diff_through(a, b, 6));
    if !(old_state.size.max_dimensions == new_state.size.max_dimensions) {
        cmds.push(WindowCommand::SetMaxDimensions(new_state.size.max_dimensions));
    }
    assert(cmds.deep_view() =~= diff_through(a, b, 7));
    proof {
        reveal_with_fuel(diff_through, 9);
        assert(cmds.deep_view() =~= spec_diff(a, b));
    }
    cmds
}

/// The tracked properties in the order the diff engine visits them.
pub open spec fn nth_field(n: int) -> TrackedField {
    if n == 0 {
        TrackedField::Title
    } else if n == 1 {
        TrackedField::MouseCursor
    } else if n == 2 {
        TrackedField::Maximized
    } else if n == 3 {
        TrackedField::Fullscreen
    } else if n == 4 {
        TrackedField::Decorations
    } else if n == 5 {
        TrackedField::Visible
    } else if n == 6 {
        TrackedField::MinDimensions
    } else {
        TrackedField::MaxDimensions
    }
}

/// The diff's commands for the first `n + 1` tracked properties, in order.
pub open spec fn diff_through(a: WindowStateModel, b: WindowStateModel, n: int) -> Seq<
    CommandModel,
>
    decreases n,
{
    if n <= 0 {
        singleton_diff(a, b, nth_field(0))
    } else {
        diff_through(a, b, n - 1) + singleton_diff(a, b, nth_field(n))
    }
}

/// States that agree on every tracked property produce no command: in
/// particular, diffing a state against itself is a no-op.
pub proof fn lemma_diff_equal_states(a: WindowStateModel, b: WindowStateModel)
    requires
        forall|f: TrackedField| #[trigger] field_eq(a, b, f),
    ensures
        spec_diff(a, b) =~= Seq::<CommandModel>::empty(),
{
    assert(field_eq(a, b, TrackedField::Title));
    assert(field_eq(a, b, TrackedField::MouseCursor));
    assert(field_eq(a, b, TrackedField::Maximized));
    assert(field_eq(a, b, TrackedField::Fullscreen));
    assert(field_eq(a, b, TrackedField::Decorations));
    assert(field_eq(a, b, TrackedField::Visible));
    assert(field_eq(a, b, TrackedField::MinDimensions));
    assert(field_eq(a, b, TrackedField::MaxDimensions));
}

/// A state diffed against itself produces no command.
pub proof fn lemma_diff_reflexive(a: WindowStateModel)
    ensures
        spec_diff(a, a) =~= Seq::<CommandModel>::empty(),
{
    lemma_diff_equal_states(a, a);
}

/// After one sync, the snapshot agrees with the desired state on every
/// tracked property.
pub proof fn lemma_synced_agrees(a: WindowStateModel, b: WindowStateModel)
    ensures
        forall|f: TrackedField| #[trigger] field_eq(synced(a, b), b, f),
{
}

/// The diff engine is idempotent: run a second time with no intervening
/// change, it emits no command and leaves the snapshot exactly where the
/// first run put it.
pub proof fn lemma_diff_idempotent(a: WindowStateModel, b: WindowStateModel)
    ensures
        spec_diff(synced(a, b), b) =~= Seq::<CommandModel>::empty(),
        synced(synced(a, b), b) == synced(a, b),
{
    lemma_synced_agrees(a, b);
    lemma_diff_equal_states(synced(a, b), b);
}

/// `a` with the single tracked property `f` taken from `b` and everything
/// else, telemetry included, kept from `a`.
pub open spec fn with_field(
    a: WindowStateModel,
    b: WindowStateModel,
    f: TrackedField,
) -> WindowStateModel {
    match f {
        TrackedField::Title => WindowStateModel { title: b.title, ..a },
        TrackedField::MouseCursor => WindowStateModel {
            mouse_state: crate::window_state::MouseState {
                mouse_cursor_type: b.mouse_state.mouse_cursor_type,
                ..a.mouse_state
            },
            ..a
        },
        TrackedField::Maximized => WindowStateModel { is_maximized: b.is_maximized, ..a },
        TrackedField::Fullscreen => WindowStateModel { is_fullscreen: b.is_fullscreen, ..a },
        TrackedField::Decorations => WindowStateModel { has_decorations: b.has_decorations, ..a },
        TrackedField::Visible => WindowStateModel { is_visible: b.is_visible, ..a },
        TrackedField::MinDimensions => WindowStateModel {
            size: WindowSize { min_dimensions: b.size.min_dimensions, ..a.size },
            ..a
        },
        TrackedField::MaxDimensions => WindowStateModel {
            size: WindowSize { max_dimensions: b.size.max_dimensions, ..a.size },
            ..a
        },
    }
}

/// When the states disagree on exactly one tracked property, the diff emits
/// exactly the one command for it, and the snapshot after the sync differs
/// from the old one in that property alone.
pub proof fn lemma_diff_single_field(a: WindowStateModel, b: WindowStateModel, f: TrackedField)
    requires
        !field_eq(a, b, f),
        forall|g: TrackedField| g != f ==> #[trigger] field_eq(a, b, g),
    ensures
        spec_diff(a, b) =~= seq![command_for(b, f)],
        synced(a, b) == with_field(a, b, f),
{
    assert(f != TrackedField::Title ==> field_eq(a, b, TrackedField::Title));
    assert(f != TrackedField::MouseCursor ==> field_eq(a, b, TrackedField::MouseCursor));
    assert(f != TrackedField::Maximized ==> field_eq(a, b, TrackedField::Maximized));
    assert(f != TrackedField::Fullscreen ==> field_eq(a, b, TrackedField::Fullscreen));
    assert(f != TrackedField::Decorations ==> field_eq(a, b, TrackedField::Decorations));
    assert(f != TrackedField::Visible ==> field_eq(a, b, TrackedField::Visible));
    assert(f != TrackedField::MinDimensions ==> field_eq(a, b, TrackedField::MinDimensions));
    assert(f != TrackedField::MaxDimensions ==> field_eq(a, b, TrackedField::MaxDimensions));
}

} // verus!
