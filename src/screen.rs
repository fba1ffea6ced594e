use vstd::prelude::*;

use crate::event::{handle_key_events, signal_of, InputEvent};
use crate::terminal::{apply, apply_all, commands_view, lemma_apply_all_concat, lemma_apply_all_push, Command, CommandView, TerminalModel};
use crate::{view_all, Element, ElementView, UpdateResult};

verus! {

/// The commands that draw one element.
pub open spec fn draw(e: ElementView) -> Seq<CommandView> {
    match e {
        ElementView::Label(t) => seq![CommandView::MoveTo(0, 0), CommandView::Print(t)],
    }
}

/// The commands that draw a sequence of elements, in order.
pub open spec fn draw_all(es: Seq<ElementView>) -> Seq<CommandView>
    decreases es.len(),
{
    if es.len() == 0 {
        Seq::empty()
    } else {
        draw_all(es.drop_last()) + draw(es.last())
    }
}

/// The commands that render a frame: clear, hide the cursor, draw each
/// element in order, flush.
pub open spec fn render_commands(es: Seq<ElementView>) -> Seq<CommandView> {
    seq![CommandView::ClearAll, CommandView::HideCursor] + draw_all(es) + seq![CommandView::Flush]
}

/// The commands that open a session.
pub open spec fn open_commands() -> Seq<CommandView> {
    seq![CommandView::EnableRawMode]
}

/// The commands that close a session: leave raw mode, clear, show the cursor,
/// flush.
pub open spec fn teardown_commands() -> Seq<CommandView> {
    seq![
        CommandView::DisableRawMode,
        CommandView::ClearAll,
        CommandView::ShowCursor,
        CommandView::Flush,
    ]
}

/// What a screen session is: whether it is open, and the commands it has
/// queued for the terminal and not yet handed out.
pub struct ScreenView {
    pub open: bool,
    pub pending: Seq<CommandView>,
}

/// A terminal session. Opening it asks for raw mode; each update interprets
/// the drained input and, unless escape was pressed, queues a frame; closing
/// it queues what restores the terminal. The owner of the terminal device
/// takes the queued commands and carries them out.
pub struct Screen {
    open: bool,
    pending: Vec<Command>,
}

impl View for Screen {
    type V = ScreenView;

    closed spec fn view(&self) -> ScreenView {
        ScreenView { open: self.open, pending: commands_view(self.pending@) }
    }
}

impl Screen {
    /// Opens a session: raw mode is requested first of all.
    pub fn new() -> (s: Screen)
        ensures
            s@ == (ScreenView { open: true, pending: open_commands() }),
    {
        let mut pending: Vec<Command> = Vec::new();
        pending.push(Command::EnableRawMode);
        let s = Screen { open: true, pending };
        assert(commands_view(s.pending@) =~= open_commands());
        s
    }

    /// The commands that render the given elements.
    pub fn render(elements: &Vec<Element>) -> (r: Vec<Command>)
        ensures
            commands_view(r@) == render_commands(view_all(elements@)),
    {
        let mut out: Vec<Command> = Vec::new();
        out.push(Command::ClearAll);
        out.push(Command::HideCursor);
        let ghost head = seq![CommandView::ClearAll, CommandView::HideCursor];
        assert(commands_view(out@) =~= head + draw_all(view_all(elements@).take(0)));
        let mut i: usize = 0;
        while i < elements.len()
            invariant
                0 <= i <= elements@.len(),
                commands_view(out@) == head + draw_all(view_all(elements@).take(i as int)),
            decreases elements@.len() - i,
        {
            let ghost before = out@;
            match &elements[i] {
                Element::Label(text) => {
                    out.push(Command::MoveTo(0, 0));
                    out.push(Command::Print(text.clone()));
                },
            }
            proof {
                let es = view_all(elements@);
                assert(es.take(i + 1).drop_last() =~= es.take(i as int));
                assert(es.take(i + 1).last() == elements@[i as int]@);
                assert(commands_view(out@) =~= commands_view(before) + draw(elements@[i as int]@));
            }
            i += 1;
        }
        out.push(Command::Flush);
        assert(view_all(elements@).take(elements@.len() as int) =~= view_all(elements@));
        assert(commands_view(out@) =~= render_commands(view_all(elements@)));
        out
    }

    /// Interprets the drained input events; if escape was pressed, returns
    /// `Exit` and queues nothing, else queues the frame of the given elements
    /// and returns `Continue`.
    pub fn update(&mut self, events: &Vec<InputEvent>, elements: &Vec<Element>) -> (r: UpdateResult)
        ensures
            r == signal_of(events@),
            final(self)@.open == old(self)@.open,
            final(self)@.pending == if r == UpdateResult::Exit {
                old(self)@.pending
            } else {
                old(self)@.pending + render_commands(view_all(elements@))
            },
    {
        let result = handle_key_events(events);
        if result == UpdateResult::Exit {
            return UpdateResult::Exit;
        }
        let mut frame = Screen::render(elements);
        let ghost before = self.pending@;
        let ghost added = frame@;
        self.pending.append(&mut frame);
        assert(commands_view(self.pending@) =~= commands_view(before) + commands_view(added));
        UpdateResult::Continue
    }

    /// Closes the session: the first time, queues the commands that leave raw
    /// mode, clear the screen and show the cursor; after that, does nothing.
    pub fn close(&mut self)
        ensures
            !final(self)@.open,
            final(self)@.pending == if old(self)@.open {
                old(self)@.pending + teardown_commands()
            } else {
                old(self)@.pending
            },
    {
        if self.open {
            let ghost before = self.pending@;
            self.pending.push(Command::DisableRawMode);
            self.pending.push(Command::ClearAll);
            self.pending.push(Command::ShowCursor);
            self.pending.push(Command::Flush);
            assert(commands_view(self.pending@) =~= commands_view(before) + teardown_commands());
            self.open = false;
        }
    }

    /// Hands out the queued commands, oldest first, and empties the queue.
    pub fn take_commands(&mut self) -> (r: Vec<Command>)
        ensures
            commands_view(r@) == old(self)@.pending,
            final(self)@ == (ScreenView { open: old(self)@.open, pending: Seq::empty() }),
    {
        let mut r: Vec<Command> = Vec::new();
        r.append(&mut self.pending);
        assert(r@ =~= old(self).pending@);
        assert(commands_view(self.pending@) =~= Seq::<CommandView>::empty());
        r
    }

    /// Whether the session is still open.
    pub fn is_open(&self) -> (r: bool)
        ensures
            r == self@.open,
    {
        self.open
    }
}

/// Whether an element is a label.
pub open spec fn is_label(e: ElementView) -> bool {
    match e {
        ElementView::Label(_) => true,
    }
}

/// The text of a label.
pub open spec fn label_text(e: ElementView) -> Seq<char> {
    match e {
        ElementView::Label(t) => t,
    }
}

/// Drawing one or more labels leaves the text of the last one at the origin,
/// and changes neither the input mode nor the cursor's visibility.
proof fn lemma_draw_all(m: TerminalModel, es: Seq<ElementView>)
    ensures
        apply_all(m, draw_all(es)).raw_mode == m.raw_mode,
        apply_all(m, draw_all(es)).cursor_visible == m.cursor_visible,
        es.len() == 0 ==> apply_all(m, draw_all(es)).cells == m.cells,
        es.len() > 0 ==> apply_all(m, draw_all(es)).cells == m.cells.insert(
            (0, 0),
            label_text(es.last()),
        ),
    decreases es.len(),
{
    if es.len() > 0 {
        let rest = es.drop_last();
        lemma_draw_all(m, rest);
        lemma_apply_all_concat(m, draw_all(rest), draw(es.last()));
        let mid = apply_all(m, draw_all(rest));
        let d = draw(es.last());
        let e = Seq::<CommandView>::empty();
        assert(d =~= e.push(d[0]).push(d[1]));
        lemma_apply_all_push(mid, e, d[0]);
        lemma_apply_all_push(mid, e.push(d[0]), d[1]);
        if rest.len() > 0 {
            assert(apply_all(m, draw_all(es)).cells =~= m.cells.insert((0, 0), label_text(es.last())));
        }
    }
}

/// Rendering a frame without labels leaves a cleared screen, a hidden cursor
/// and no text, whatever the terminal showed before.
pub proof fn lemma_render_without_labels(m: TerminalModel, es: Seq<ElementView>)
    requires
        forall|i: int| 0 <= i < es.len() ==> !is_label(#[trigger] es[i]),
    ensures
        apply_all(m, render_commands(es)).cells == Map::<(nat, nat), Seq<char>>::empty(),
        !apply_all(m, render_commands(es)).cursor_visible,
        apply_all(m, render_commands(es)).raw_mode == m.raw_mode,
{
    if es.len() > 0 {
        assert(is_label(es[0]));
    }
    lemma_render(m, es);
}

/// Rendering a frame with one or more labels leaves exactly the text of the
/// last label visible, at the origin, with the cursor hidden.
pub proof fn lemma_render_shows_last_label(m: TerminalModel, es: Seq<ElementView>)
    requires
        es.len() > 0,
    ensures
        apply_all(m, render_commands(es)).cells == map![(0nat, 0nat) => label_text(es.last())],
        !apply_all(m, render_commands(es)).cursor_visible,
        apply_all(m, render_commands(es)).raw_mode == m.raw_mode,
{
    lemma_render(m, es);
    assert(Map::<(nat, nat), Seq<char>>::empty().insert((0, 0), label_text(es.last()))
        =~= map![(0nat, 0nat) => label_text(es.last())]);
}

/// The effect of rendering a frame on any terminal.
proof fn lemma_render(m: TerminalModel, es: Seq<ElementView>)
    ensures
        apply_all(m, render_commands(es)).raw_mode == m.raw_mode,
        !apply_all(m, render_commands(es)).cursor_visible,
        es.len() == 0 ==> apply_all(m, render_commands(es)).cells == Map::<(nat, nat), Seq<char>>::empty(),
        es.len() > 0 ==> apply_all(m, render_commands(es)).cells
            == Map::<(nat, nat), Seq<char>>::empty().insert((0, 0), label_text(es.last())),
{
    let head = seq![CommandView::ClearAll, CommandView::HideCursor];
    let tail = seq![CommandView::Flush];
    lemma_apply_all_concat(m, head + draw_all(es), tail);
    lemma_apply_all_concat(m, head, draw_all(es));
    let e = Seq::<CommandView>::empty();
    assert(head =~= e.push(CommandView::ClearAll).push(CommandView::HideCursor));
    lemma_apply_all_push(m, e, CommandView::ClearAll);
    lemma_apply_all_push(m, e.push(CommandView::ClearAll), CommandView::HideCursor);
    let cleared = apply_all(m, head);
    assert(cleared.cells == Map::<(nat, nat), Seq<char>>::empty());
    lemma_draw_all(cleared, es);
    assert(tail =~= e.push(CommandView::Flush));
    lemma_apply_all_push(apply_all(cleared, draw_all(es)), e, CommandView::Flush);
}

/// Whatever a session queued before, carrying out its teardown leaves the
/// terminal out of raw mode, cleared, and with its cursor visible.
pub proof fn lemma_teardown_restores(m: TerminalModel, before: Seq<CommandView>)
    ensures
        !apply_all(m, before + teardown_commands()).raw_mode,
        apply_all(m, before + teardown_commands()).cursor_visible,
        apply_all(m, before + teardown_commands()).cells == Map::<(nat, nat), Seq<char>>::empty(),
{
    lemma_apply_all_concat(m, before, teardown_commands());
    let t = teardown_commands();
    let mid = apply_all(m, before);
    let e = Seq::<CommandView>::empty();
    assert(t =~= e.push(t[0]).push(t[1]).push(t[2]).push(t[3]));
    lemma_apply_all_push(mid, e, t[0]);
    lemma_apply_all_push(mid, e.push(t[0]), t[1]);
    lemma_apply_all_push(mid, e.push(t[0]).push(t[1]), t[2]);
    lemma_apply_all_push(mid, e.push(t[0]).push(t[1]).push(t[2]), t[3]);
}

/// A session opened and closed at once, with no frame in between, leaves a
/// terminal that was not in raw mode out of raw mode, with its cursor visible.
pub proof fn lemma_open_then_close(m: TerminalModel)
    requires
        !m.raw_mode,
    ensures
        apply_all(m, open_commands() + teardown_commands()).raw_mode == m.raw_mode,
        apply_all(m, open_commands() + teardown_commands()).cursor_visible,
{
    lemma_teardown_restores(m, open_commands());
}

} // verus!
