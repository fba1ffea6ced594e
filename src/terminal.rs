use vstd::prelude::*;

verus! {

/// One instruction to the terminal. The frame loop queues these; whoever owns
/// the terminal device carries them out in order.
#[derive(Debug, Clone, PartialEq, Eq)]
pub enum Command {
    /// Enter raw input mode: no line buffering, no echo.
    EnableRawMode,
    /// Leave raw input mode.
    DisableRawMode,
    /// Clear the whole visible area.
    ClearAll,
    HideCursor,
    ShowCursor,
    /// Move the cursor to a column and a row.
    MoveTo(u16, u16),
    /// Print text at the cursor.
    Print(String),
    /// Push all queued output to the terminal.
    Flush,
}

/// A command with its text as a sequence of characters.
pub enum CommandView {
    EnableRawMode,
    DisableRawMode,
    ClearAll,
    HideCursor,
    ShowCursor,
    MoveTo(nat, nat),
    Print(Seq<char>),
    Flush,
}

impl View for Command {
    type V = CommandView;

    open spec fn view(&self) -> CommandView {
        match self {
            Command::EnableRawMode => CommandView::EnableRawMode,
            Command::DisableRawMode => CommandView::DisableRawMode,
            Command::ClearAll => CommandView::ClearAll,
            Command::HideCursor => CommandView::HideCursor,
            Command::ShowCursor => CommandView::ShowCursor,
            Command::MoveTo(x, y) => CommandView::MoveTo(*x as nat, *y as nat),
            Command::Print(t) => CommandView::Print(t@),
            Command::Flush => CommandView::Flush,
        }
    }
}

/// The commands of a queue, viewed.
pub open spec fn commands_view(cmds: Seq<Command>) -> Seq<CommandView> {
    cmds.map_values(|c: Command| c@)
}

/// What a terminal shows and how it is set: its input mode, whether the
/// cursor is visible, where the cursor stands, and the text printed at each
/// position since the last clear (a later print at a position replaces an
/// earlier one there).
pub struct TerminalModel {
    pub raw_mode: bool,
    pub cursor_visible: bool,
    pub cursor: (nat, nat),
    pub cells: Map<(nat, nat), Seq<char>>,
}

/// The effect of one command on the terminal.
pub open spec fn apply(m: TerminalModel, c: CommandView) -> TerminalModel {
    match c {
        CommandView::EnableRawMode => TerminalModel { raw_mode: true, ..m },
        CommandView::DisableRawMode => TerminalModel { raw_mode: false, ..m },
        CommandView::ClearAll => TerminalModel { cells: Map::empty(), ..m },
        CommandView::HideCursor => TerminalModel { cursor_visible: false, ..m },
        CommandView::ShowCursor => TerminalModel { cursor_visible: true, ..m },
        CommandView::MoveTo(x, y) => TerminalModel { cursor: (x, y), ..m },
        CommandView::Print(t) => TerminalModel {
            cells: m.cells.insert(m.cursor, t),
            cursor: ((m.cursor.0 + t.len()) as nat, m.cursor.1),
            ..m
        },
        CommandView::Flush => m,
    }
}

/// The effect of a sequence of commands, carried out in order.
pub open spec fn apply_all(m: TerminalModel, cmds: Seq<CommandView>) -> TerminalModel
    decreases cmds.len(),
{
    if cmds.len() == 0 {
        m
    } else {
        apply(apply_all(m, cmds.drop_last()), cmds.last())
    }
}

/// Carrying out two sequences one after the other is carrying out their
/// concatenation.
pub proof fn lemma_apply_all_concat(m: TerminalModel, a: Seq<CommandView>, b: Seq<CommandView>)
    ensures
        apply_all(m, a + b) == apply_all(apply_all(m, a), b),
    decreases b.len(),
{
    if b.len() == 0 {
        assert(a + b =~= a);
    } else {
        lemma_apply_all_concat(m, a, b.drop_last());
        assert((a + b).drop_last() =~= a + b.drop_last());
        assert((a + b).last() == b.last());
    }
}

/// Carrying out one more command after a sequence.
pub proof fn lemma_apply_all_push(m: TerminalModel, cmds: Seq<CommandView>, c: CommandView)
    ensures
        apply_all(m, cmds.push(c)) == apply(apply_all(m, cmds), c),
{
    assert(cmds.push(c).drop_last() =~= cmds);
}

} // verus!
