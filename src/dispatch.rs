//! The event dispatcher: the main loop's decisions, as a state machine from
//! the current state and one event to the next state and the commands that
//! the loop carries out.
//!
//! Menu events that arrive before the tray menu's identifier table has been
//! published (which can happen when the menu is built on a worker thread) are
//! queued, and routed in arrival order as soon as the table arrives.

use vstd::prelude::*;

use crate::state::{loaded_muted, mutated, ConfigFile, ConfigRead, MuteState, Mutation};
use crate::tray_icon::{
    distinct_ids, item_index, lemma_lookup_round_trip, lookup, TrayIcon, TrayIconHandle, TrayIconMenuItem, MENU_LEN,
};

verus! {

/// Where the dispatcher is in its life.
#[derive(Clone, Copy, Debug, PartialEq, Eq, Structural)]
pub enum Phase {
    /// The loop has not started.
    Uninitialized,
    /// The loop routes events.
    Running,
    /// The loop has been asked to stop; nothing is routed any more.
    ShuttingDown,
}

/// The dispatcher's knowledge of the one window it may own.
#[derive(Clone, Copy, Debug, PartialEq, Eq, Structural)]
pub enum WindowSlot {
    /// There is no window.
    Absent,
    /// A window has been asked for and not yet reported.
    Creating,
    /// The window with this identifier is open.
    Present(u64),
}

/// An event the loop hands the dispatcher.
pub enum LoopEvent {
    /// The loop has started (delivered once).
    Init,
    /// The tray menu was built; here is its identifier table.
    TrayReady(TrayIcon),
    /// Building the tray menu failed.
    TrayFailed,
    /// The window asked for was created with this identifier.
    WindowCreated(u64),
    /// The window asked for could not be created.
    WindowCreateFailed,
    /// An event for the window with identifier `id`; `close_requested` says
    /// whether it asks for the window to close.
    Window { id: u64, close_requested: bool },
    /// A click on the tray menu entry with this platform identifier.
    Menu(String),
    /// Anything else.
    Other,
}

/// What the loop is to do in answer to an event.
#[derive(Clone, Copy, Debug, PartialEq, Eq, Structural)]
pub enum Command {
    /// Build the tray menu (here or on a worker thread), then report
    /// [`LoopEvent::TrayReady`] or [`LoopEvent::TrayFailed`].
    BootstrapTray,
    /// Create the window, then report [`LoopEvent::WindowCreated`] or
    /// [`LoopEvent::WindowCreateFailed`].
    CreateWindow,
    /// Bring the existing window forward.
    FocusWindow,
    /// Hand the current window event to the window.
    ForwardToWindow,
    /// Drop the window.
    DestroyWindow,
    /// Apply this change through the shared state, then persist it.
    Mutate(Mutation),
    /// The "mute for" entry was clicked; it has no behaviour yet.
    MuteForRequested,
    /// Report that startup failed fatally.
    Fatal,
    /// Stop the loop.
    Exit,
}

/// The dispatcher's state, as a mathematical value.
#[verifier::ext_equal]
pub struct DispatchView {
    pub phase: Phase,
    pub window: WindowSlot,
    /// The tray menu's identifier table, once published.
    pub table: Option<Seq<Seq<char>>>,
    /// Menu identifiers received before the table, in arrival order.
    pub pending: Seq<Seq<char>>,
}

impl DispatchView {
    /// A published table is well-formed, and nothing waits once it is there.
    pub open spec fn wf(self) -> bool {
        &&& (self.table matches Some(t) ==> t.len() == MENU_LEN && distinct_ids(t))
        &&& (self.table is Some ==> self.pending.len() == 0)
    }
}

/// What routing the menu item `item` (or an unknown identifier) does.
pub open spec fn routed(d: DispatchView, item: Option<TrayIconMenuItem>) -> (DispatchView, Seq<Command>) {
    match item {
        None => (d, seq![]),
        Some(TrayIconMenuItem::Open) => match d.window {
            WindowSlot::Absent => (DispatchView { window: WindowSlot::Creating, ..d }, seq![Command::CreateWindow]),
            WindowSlot::Creating => (d, seq![]),
            WindowSlot::Present(_) => (d, seq![Command::FocusWindow]),
        },
        Some(TrayIconMenuItem::Mute) => (d, seq![Command::Mutate(Mutation::ToggleMute)]),
        Some(TrayIconMenuItem::MuteUntilExit) => (d, seq![Command::Mutate(Mutation::MuteUntilExit)]),
        Some(TrayIconMenuItem::MuteFor) => (d, seq![Command::MuteForRequested]),
        Some(TrayIconMenuItem::Exit) => (DispatchView { phase: Phase::ShuttingDown, ..d }, seq![Command::Exit]),
    }
}

/// What routing a click on the entry with identifier `id` does.
pub open spec fn routed_id(d: DispatchView, id: Seq<char>) -> (DispatchView, Seq<Command>) {
    match d.table {
        Some(t) => routed(d, lookup(t, id)),
        None => (d, seq![]),
    }
}

/// What routing the queued identifiers `ids` in order does; routing stops
/// once the loop is shutting down.
pub open spec fn drained(d: DispatchView, ids: Seq<Seq<char>>) -> (DispatchView, Seq<Command>)
    decreases ids.len(),
{
    if ids.len() == 0 || d.phase != Phase::Running {
        (d, seq![])
    } else {
        let (d1, c1) = routed_id(d, ids[0]);
        let (d2, c2) = drained(d1, ids.drop_first());
        (d2, c1 + c2)
    }
}

/// The dispatcher's answer to one event: its next state and the commands.
pub open spec fn step(d: DispatchView, e: LoopEvent) -> (DispatchView, Seq<Command>) {
    match d.phase {
        Phase::ShuttingDown => (d, seq![]),
        Phase::Uninitialized => match e {
            LoopEvent::Init => (DispatchView { phase: Phase::Running, ..d }, seq![Command::BootstrapTray]),
            _ => (d, seq![]),
        },
        Phase::Running => match e {
            LoopEvent::TrayReady(t) => if d.table is None {
                drained(DispatchView { table: Some(t@), pending: seq![], ..d }, d.pending)
            } else {
                (d, seq![])
            },
            LoopEvent::TrayFailed => (
                DispatchView { phase: Phase::ShuttingDown, ..d },
                seq![Command::Fatal, Command::Exit],
            ),
            LoopEvent::WindowCreated(id) => if d.window == WindowSlot::Creating {
                (DispatchView { window: WindowSlot::Present(id), ..d }, seq![])
            } else {
                (d, seq![])
            },
            LoopEvent::WindowCreateFailed => if d.window == WindowSlot::Creating {
                (DispatchView { window: WindowSlot::Absent, ..d }, seq![])
            } else {
                (d, seq![])
            },
            LoopEvent::Window { id, close_requested } => if d.window == WindowSlot::Present(id) {
                if close_requested {
                    (
                        DispatchView { window: WindowSlot::Absent, ..d },
                        seq![Command::ForwardToWindow, Command::DestroyWindow],
                    )
                } else {
                    (d, seq![Command::ForwardToWindow])
                }
            } else {
                (d, seq![])
            },
            LoopEvent::Menu(id) => if d.table is None {
                (DispatchView { pending: d.pending.push(id@), ..d }, seq![])
            } else {
                routed_id(d, id@)
            },
            _ => (d, seq![]),
        },
    }
}

/// The dispatcher's answer to the events `events`, handled in order: its
/// final state and all the commands, in order.
pub open spec fn run(d: DispatchView, events: Seq<LoopEvent>) -> (DispatchView, Seq<Command>)
    decreases events.len(),
{
    if events.len() == 0 {
        (d, seq![])
    } else {
        let (d1, c1) = step(d, events[0]);
        let (d2, c2) = run(d1, events.drop_first());
        (d2, c1 + c2)
    }
}

/// Once shutting down, the dispatcher routes nothing: neither a later event
/// nor a queued click produces a command or changes its state.
pub proof fn lemma_shutdown_is_final(d: DispatchView, events: Seq<LoopEvent>, ids: Seq<Seq<char>>)
    requires
        d.phase == Phase::ShuttingDown,
    ensures
        run(d, events) == (d, Seq::<Command>::empty()),
        drained(d, ids) == (d, Seq::<Command>::empty()),
    decreases events.len(),
{
    if events.len() > 0 {
        lemma_shutdown_is_final(d, events.drop_first(), ids);
        assert(seq![] + Seq::<Command>::empty() =~= Seq::<Command>::empty());
    }
}

/// Handling `a` and then `b` is handling `a + b`.
pub proof fn lemma_run_concat(d: DispatchView, a: Seq<LoopEvent>, b: Seq<LoopEvent>)
    ensures
        run(d, a + b) == (run(run(d, a).0, b).0, run(d, a).1 + run(run(d, a).0, b).1),
    decreases a.len(),
{
    if a.len() == 0 {
        assert(a + b =~= b);
        assert(Seq::<Command>::empty() + run(d, b).1 =~= run(d, b).1);
    } else {
        let d1 = step(d, a[0]).0;
        let c1 = step(d, a[0]).1;
        lemma_run_concat(d1, a.drop_first(), b);
        assert((a + b).drop_first() =~= a.drop_first() + b);
        assert((a + b)[0] == a[0]);
        let x = run(d1, a.drop_first()).1;
        let y = run(run(d1, a.drop_first()).0, b).1;
        assert(c1 + (x + y) =~= (c1 + x) + y);
    }
}

/// The number of window creations that the commands `c` ask for.
pub open spec fn creates(c: Seq<Command>) -> nat
    decreases c.len(),
{
    if c.len() == 0 {
        0
    } else {
        (if c[0] == Command::CreateWindow { 1nat } else { 0nat }) + creates(c.drop_first())
    }
}

proof fn lemma_creates_add(a: Seq<Command>, b: Seq<Command>)
    ensures
        creates(a + b) == creates(a) + creates(b),
    decreases a.len(),
{
    if a.len() == 0 {
        assert(a + b =~= b);
    } else {
        lemma_creates_add(a.drop_first(), b);
        assert((a + b).drop_first() =~= a.drop_first() + b);
        assert((a + b)[0] == a[0]);
    }
}

/// Routing queued clicks asks for at most one window, and only when there
/// is none; it changes neither the table nor a started phase back.
proof fn lemma_drained_window(d: DispatchView, ids: Seq<Seq<char>>)
    ensures
        creates(drained(d, ids).1) <= 1,
        d.window != WindowSlot::Absent ==> creates(drained(d, ids).1) == 0,
        creates(drained(d, ids).1) == 0 ==> drained(d, ids).0.window == d.window,
        creates(drained(d, ids).1) == 1 ==> drained(d, ids).0.window == WindowSlot::Creating,
        drained(d, ids).0.table == d.table,
        d.phase != Phase::Uninitialized ==> drained(d, ids).0.phase != Phase::Uninitialized,
    decreases ids.len(),
{
    reveal_with_fuel(creates, 3);
    if ids.len() > 0 && d.phase == Phase::Running {
        let d1 = routed_id(d, ids[0]).0;
        let c1 = routed_id(d, ids[0]).1;
        lemma_drained_window(d1, ids.drop_first());
        lemma_creates_add(c1, drained(d1, ids.drop_first()).1);
    }
}

/// Once the table is published the loop has started; handling events keeps
/// it so.
proof fn lemma_step_keeps_started(d: DispatchView, e: LoopEvent)
    requires
        d.table is None || d.phase != Phase::Uninitialized,
    ensures
        step(d, e).0.table is None || step(d, e).0.phase != Phase::Uninitialized,
{
    if d.phase == Phase::Running {
        if let LoopEvent::TrayReady(t) = e {
            if d.table is None {
                lemma_drained_window(DispatchView { table: Some(t@), pending: seq![], ..d }, d.pending);
            }
        }
    }
}

proof fn lemma_run_keeps_started(d: DispatchView, events: Seq<LoopEvent>)
    requires
        d.table is None || d.phase != Phase::Uninitialized,
    ensures
        run(d, events).0.table is None || run(d, events).0.phase != Phase::Uninitialized,
    decreases events.len(),
{
    if events.len() > 0 {
        lemma_step_keeps_started(d, events[0]);
        lemma_run_keeps_started(step(d, events[0]).0, events.drop_first());
    }
}

/// A click on Exit stops the loop within the same pass: whatever came
/// before it in the pass, once the click is handled the dispatcher is
/// shutting down, it answers with at most the exit, and no event after it
/// changes its state or yields a command, so nothing reaches the window or
/// the shared state. This holds from any state the loop can start in (no
/// table before the loop starts).
pub proof fn lemma_exit_terminates(
    d: DispatchView,
    before: Seq<LoopEvent>,
    click: String,
    after: Seq<LoopEvent>,
)
    requires
        d.table is None || d.phase != Phase::Uninitialized,
        run(d, before).0.table matches Some(t) && lookup(t, click@) == Some(TrayIconMenuItem::Exit),
    ensures
        ({
            let dk = run(d, before).0;
            let all = run(d, before + (seq![LoopEvent::Menu(click)] + after));
            &&& all.0.phase == Phase::ShuttingDown
            &&& all.0 == step(dk, LoopEvent::Menu(click)).0
            &&& all.1 == run(d, before).1 + (if dk.phase == Phase::Running {
                seq![Command::Exit]
            } else {
                Seq::<Command>::empty()
            })
        }),
{
    let dk = run(d, before).0;
    lemma_run_keeps_started(d, before);
    lemma_run_concat(d, before, seq![LoopEvent::Menu(click)] + after);
    let events = seq![LoopEvent::Menu(click)] + after;
    assert(events[0] == LoopEvent::Menu(click));
    assert(events.drop_first() =~= after);
    let d1 = step(dk, LoopEvent::Menu(click)).0;
    lemma_shutdown_is_final(d1, after, seq![]);
    assert(step(dk, LoopEvent::Menu(click)).1 + Seq::<Command>::empty() =~= step(dk, LoopEvent::Menu(click)).1);
}

/// The window is a singleton: no event ever asks for more than one window,
/// none asks for one while a window exists or is being made, an event that
/// asks for one leaves the dispatcher waiting for it, and a click on Open
/// while the window is open only brings it forward.
pub proof fn lemma_window_singleton(d: DispatchView, e: LoopEvent)
    ensures
        creates(step(d, e).1) <= 1,
        d.window != WindowSlot::Absent ==> creates(step(d, e).1) == 0,
        creates(step(d, e).1) == 1 ==> step(d, e).0.window == WindowSlot::Creating,
        d.phase == Phase::Running && d.window is Present ==> (e matches LoopEvent::Menu(id) ==> (
        d.table matches Some(t) ==> (lookup(t, id@) == Some(TrayIconMenuItem::Open) ==> step(d, e) == (
        d,
        seq![Command::FocusWindow],
        )))),
{
    reveal_with_fuel(creates, 3);
    if d.phase == Phase::Running {
        match e {
            LoopEvent::TrayReady(t) => {
                if d.table is None {
                    lemma_drained_window(DispatchView { table: Some(t@), pending: seq![], ..d }, d.pending);
                }
            },
            _ => {},
        }
    }
}

/// A click on "mute until exit" in any running state asks for exactly that
/// change and nothing else; the change leaves the state muted until the next
/// start whatever it was, and the document that persists it loads as
/// unmuted on the next start.
pub proof fn lemma_mute_until_exit(d: DispatchView, click: String, s: MuteState)
    requires
        d.phase == Phase::Running,
        d.table matches Some(t) && lookup(t, click@) == Some(TrayIconMenuItem::MuteUntilExit),
    ensures
        step(d, LoopEvent::Menu(click)) == (d, seq![Command::Mutate(Mutation::MuteUntilExit)]),
        mutated(Mutation::MuteUntilExit, s) == MuteState::NextBoot,
        loaded_muted(ConfigRead::Found(ConfigFile { muted: mutated(Mutation::MuteUntilExit, s) }))
            == MuteState::Unmuted,
{
}

/// Starting with no window, a click on Open asks for exactly one window and a
/// second click while it is being made asks for none; once it is reported, a
/// click on Open only brings it forward and never asks for another.
pub proof fn lemma_open_then_focus(d: DispatchView, click: String, again: String, id: u64)
    requires
        d.wf(),
        d.phase == Phase::Running,
        d.window == WindowSlot::Absent,
        d.table matches Some(t) && click@ == t[item_index(TrayIconMenuItem::Open)]
            && again@ == t[item_index(TrayIconMenuItem::Open)],
    ensures
        step(d, LoopEvent::Menu(click)).1 == seq![Command::CreateWindow],
        step(d, LoopEvent::Menu(click)).0.window == WindowSlot::Creating,
        step(step(d, LoopEvent::Menu(click)).0, LoopEvent::Menu(again)).1 == Seq::<Command>::empty(),
        step(step(step(d, LoopEvent::Menu(click)).0, LoopEvent::WindowCreated(id)).0, LoopEvent::Menu(again)).1
            == seq![Command::FocusWindow],
        step(step(step(d, LoopEvent::Menu(click)).0, LoopEvent::WindowCreated(id)).0, LoopEvent::Menu(again)).0.window
            == WindowSlot::Present(id),
{
    let t = d.table->Some_0;
    lemma_lookup_round_trip(t, TrayIconMenuItem::Open);
}

/// The main loop's dispatcher. It owns the tray menu's identifier table and
/// its knowledge of the window, and is the one place that decides to stop.
pub struct Dispatcher {
    phase: Phase,
    window: WindowSlot,
    tray: Option<TrayIconHandle>,
    pending: Vec<String>,
}

impl View for Dispatcher {
    type V = DispatchView;

    closed spec fn view(&self) -> DispatchView {
        DispatchView {
            phase: self.phase,
            window: self.window,
            table: match self.tray {
                Some(h) => Some(h@),
                None => None,
            },
            pending: self.pending@.map_values(|s: String| s@),
        }
    }
}

impl Dispatcher {
    /// A dispatcher before the loop starts: no window, no table, nothing queued.
    pub fn new() -> (r: Self)
        ensures
            r@ == (DispatchView {
                phase: Phase::Uninitialized,
                window: WindowSlot::Absent,
                table: None,
                pending: seq![],
            }),
            r@.wf(),
    {
        let r = Dispatcher { phase: Phase::Uninitialized, window: WindowSlot::Absent, tray: None, pending: Vec::new() };
        assert(r@.pending =~= seq![]);
        r
    }

    /// Where the dispatcher is in its life.
    pub fn phase(&self) -> (r: Phase)
        ensures
            r == self@.phase,
    {
        self.phase
    }

    /// What the dispatcher knows of the window.
    pub fn window(&self) -> (r: WindowSlot)
        ensures
            r == self@.window,
    {
        self.window
    }

    /// Whether the tray menu's identifier table has been published.
    pub fn has_tray(&self) -> (r: bool)
        ensures
            r == self@.table is Some,
    {
        self.tray.is_some()
    }

    /// Routes a click on the entry with identifier `id`.
    fn route(&mut self, id: &str) -> (r: Vec<Command>)
        requires
            old(self)@.table is Some,
        ensures
            (final(self)@, r@) == routed_id(old(self)@, id@),
    {
        let item = match &self.tray {
            Some(h) => h.get_item_of_id(id),
            None => None,
        };
        let mut out: Vec<Command> = Vec::new();
        match item {
            None => {},
            Some(TrayIconMenuItem::Open) => match self.window {
                WindowSlot::Absent => {
                    self.window = WindowSlot::Creating;
                    out.push(Command::CreateWindow);
                },
                WindowSlot::Creating => {},
                WindowSlot::Present(_) => {
                    out.push(Command::FocusWindow);
                },
            },
            Some(TrayIconMenuItem::Mute) => {
                out.push(Command::Mutate(Mutation::ToggleMute));
            },
            Some(TrayIconMenuItem::MuteUntilExit) => {
                out.push(Command::Mutate(Mutation::MuteUntilExit));
            },
            Some(TrayIconMenuItem::MuteFor) => {
                out.push(Command::MuteForRequested);
            },
            Some(TrayIconMenuItem::Exit) => {
                self.phase = Phase::ShuttingDown;
                out.push(Command::Exit);
            },
        }
        assert(out@ =~= routed_id(old(self)@, id@).1);
        out
    }

    /// Installs the published table and routes what was queued before it.
    fn install_tray(&mut self, tray_icon: TrayIcon) -> (r: Vec<Command>)
        requires
            old(self)@.phase == Phase::Running,
            old(self)@.table is None,
        ensures
            (final(self)@, r@) == drained(
                DispatchView { table: Some(tray_icon@), pending: seq![], ..old(self)@ },
                old(self)@.pending,
            ),
            final(self)@.pending.len() == 0,
            final(self)@.table == Some(tray_icon@),
            tray_icon@.len() == MENU_LEN,
            distinct_ids(tray_icon@),
    {
        let ghost queued = old(self)@.pending;
        let handle = TrayIconHandle::new(tray_icon);
        self.tray = Some(handle);
        let mut pending: Vec<String> = Vec::new();
        std::mem::swap(&mut pending, &mut self.pending);
        let ghost start = self@;
        assert(self@.pending =~= seq![]);
        assert(start == DispatchView { table: Some(tray_icon@), pending: seq![], ..old(self)@ });
        assert(queued =~= pending@.map_values(|s: String| s@));
        let mut out: Vec<Command> = Vec::new();
        let mut i: usize = 0;
        assert(queued.skip(0) =~= queued);
        assert(out@ + drained(self@, queued).1 =~= drained(self@, queued).1);
        while i < pending.len() && matches!(self.phase, Phase::Running)
            invariant
                0 <= i <= pending@.len(),
                queued == pending@.map_values(|s: String| s@),
                self@.table == Some(tray_icon@),
                self@.pending.len() == 0,
                drained(start, queued) == (
                    drained(self@, queued.skip(i as int)).0,
                    out@ + drained(self@, queued.skip(i as int)).1,
                ),
            decreases pending@.len() - i,
        {
            let ghost before = self@;
            let ghost out_before = out@;
            assert(queued.skip(i as int).drop_first() =~= queued.skip(i + 1));
            assert(queued.skip(i as int)[0] == pending@[i as int]@);
            let mut c = self.route(pending[i].as_str());
            out.append(&mut c);
            proof {
                assert(out@ =~= out_before + routed_id(before, queued.skip(i as int)[0]).1);
            }
            i = i + 1;
        }
        proof {
            assert(drained(self@, queued.skip(i as int)).1 =~= seq![]);
            assert(out@ + seq![] =~= out@);
        }
        out
    }

    /// Answers one event: moves to the next state and returns the commands the
    /// loop is to carry out, in order.
    pub fn handle(&mut self, event: LoopEvent) -> (r: Vec<Command>)
        requires
            old(self)@.wf(),
        ensures
            final(self)@ =~~= step(old(self)@, event).0,
            r@ == step(old(self)@, event).1,
            final(self)@.wf(),
    {
        match self.phase {
            Phase::ShuttingDown => Vec::new(),
            Phase::Uninitialized => match event {
                LoopEvent::Init => {
                    self.phase = Phase::Running;
                    vec![Command::BootstrapTray]
                },
                _ => Vec::new(),
            },
            Phase::Running => match event {
                LoopEvent::TrayReady(t) => {
                    if self.tray.is_none() {
                        self.install_tray(t)
                    } else {
                        Vec::new()
                    }
                },
                LoopEvent::TrayFailed => {
                    self.phase = Phase::ShuttingDown;
                    vec![Command::Fatal, Command::Exit]
                },
                LoopEvent::WindowCreated(id) => {
                    if self.window == WindowSlot::Creating {
                        self.window = WindowSlot::Present(id);
                    }
                    Vec::new()
                },
                LoopEvent::WindowCreateFailed => {
                    if self.window == WindowSlot::Creating {
                        self.window = WindowSlot::Absent;
                    }
                    Vec::new()
                },
                LoopEvent::Window { id, close_requested } => {
                    if self.window == WindowSlot::Present(id) {
                        if close_requested {
                            self.window = WindowSlot::Absent;
                            vec![Command::ForwardToWindow, Command::DestroyWindow]
                        } else {
                            vec![Command::ForwardToWindow]
                        }
                    } else {
                        Vec::new()
                    }
                },
                LoopEvent::Menu(id) => {
                    if self.tray.is_none() {
                        self.pending.push(id);
                        Vec::new()
                    } else {
                        self.route(id.as_str())
                    }
                },
                LoopEvent::Init | LoopEvent::Other => Vec::new(),
            },
        }
    }
}

} // verus!
