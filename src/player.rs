use vstd::prelude::*;
use crate::track::Music;
use crate::engine::{
    volume_after, lemma_volume_settles,
    Engine, EngineView, SinkAction, FULL_VOLUME, replace_actions, replaced, stopped, toggled,
    with_volume_step, state_of, PlaybackState,
};
use crate::view::{
    Draw, DrawOp, HEADER_ROWS, draws, row_of, catalog_view, queue_view, queue_blank_view,
    status_view, now_playing_text, volume_view, render_musics, render_queue, render_queue_blank,
    render_status, render_now_playing, render_volume,
};

verus! {

/// The most tracks a catalog may hold: each must have a screen row.
pub const MAX_TRACKS: usize = 65533;

/// A key as the terminal reports it.
#[derive(Debug, Clone, Copy, PartialEq, Eq, Structural)]
pub enum KeyInput {
    Esc,
    Up,
    Down,
    Left,
    Right,
    Enter,
    Char(char),
    Other,
}

/// What a key press asks of the player.
#[derive(Debug, Clone, Copy, PartialEq, Eq, Structural)]
pub enum Command {
    Exit,
    CursorUp,
    CursorDown,
    Select,
    TogglePause,
    Enqueue,
    ClearQueue,
    PlayQueue,
    VolumeUp,
    VolumeDown,
}

/// The terminal's size in cells.
#[derive(Debug, Clone, Copy, PartialEq, Eq, Structural)]
pub struct Screen {
    pub width: u16,
    pub height: u16,
}

/// The key bindings. Only presses act; releases and repeats of other kinds do not.
pub open spec fn command_spec(key: KeyInput, pressed: bool) -> Option<Command> {
    if !pressed {
        None
    } else {
        match key {
            KeyInput::Esc => Some(Command::Exit),
            KeyInput::Up | KeyInput::Char('k') => Some(Command::CursorUp),
            KeyInput::Down | KeyInput::Char('j') => Some(Command::CursorDown),
            KeyInput::Enter => Some(Command::Select),
            KeyInput::Char(' ') => Some(Command::TogglePause),
            KeyInput::Char('q') => Some(Command::Enqueue),
            KeyInput::Char('x') => Some(Command::ClearQueue),
            KeyInput::Char('p') => Some(Command::PlayQueue),
            KeyInput::Right | KeyInput::Char('l') => Some(Command::VolumeUp),
            KeyInput::Left | KeyInput::Char('h') => Some(Command::VolumeDown),
            _ => None,
        }
    }
}

/// Maps a key event to the command it stands for, if any.
pub fn command_of_key(key: KeyInput, pressed: bool) -> (r: Option<Command>)
    ensures
        r == command_spec(key, pressed),
{
    if !pressed {
        return None;
    }
    match key {
        KeyInput::Esc => Some(Command::Exit),
        KeyInput::Up => Some(Command::CursorUp),
        KeyInput::Down => Some(Command::CursorDown),
        KeyInput::Left => Some(Command::VolumeDown),
        KeyInput::Right => Some(Command::VolumeUp),
        KeyInput::Enter => Some(Command::Select),
        KeyInput::Char(c) => {
            if c == 'k' {
                Some(Command::CursorUp)
            } else if c == 'j' {
                Some(Command::CursorDown)
            } else if c == ' ' {
                Some(Command::TogglePause)
            } else if c == 'q' {
                Some(Command::Enqueue)
            } else if c == 'x' {
                Some(Command::ClearQueue)
            } else if c == 'p' {
                Some(Command::PlayQueue)
            } else if c == 'l' {
                Some(Command::VolumeUp)
            } else if c == 'h' {
                Some(Command::VolumeDown)
            } else {
                None
            }
        },
        KeyInput::Other => None,
    }
}

/// The player's whole state, on mathematical values.
pub ghost struct PlayerView {
    pub catalog: Seq<Music>,
    /// Catalog indices, in the order they were queued.
    pub queue: Seq<usize>,
    /// The highlighted catalog row.
    pub selected: nat,
    pub engine: EngineView,
    /// Catalog index of the track last started explicitly.
    pub now_playing: Option<usize>,
    pub running: bool,
}

/// The states the player can be in.
pub open spec fn valid(v: PlayerView) -> bool {
    &&& v.catalog.len() <= MAX_TRACKS
    &&& if v.catalog.len() == 0 {
        v.selected == 0
    } else {
        v.selected < v.catalog.len()
    }
    &&& forall|k: int| 0 <= k < v.queue.len() ==> v.queue[k] < v.catalog.len()
    &&& forall|k: int| 0 <= k < v.engine.submitted.len() ==> v.engine.submitted[k] < v.catalog.len()
    &&& v.engine.volume <= FULL_VOLUME
    &&& (v.now_playing matches Some(i) ==> i < v.catalog.len())
}

pub open spec fn moved_up(v: PlayerView) -> PlayerView {
    PlayerView { selected: if v.selected > 0 { (v.selected - 1) as nat } else { v.selected }, ..v }
}

pub open spec fn moved_down(v: PlayerView) -> PlayerView {
    PlayerView {
        selected: if v.selected + 1 < v.catalog.len() { v.selected + 1 } else { v.selected },
        ..v
    }
}

pub open spec fn selected_played(v: PlayerView) -> PlayerView {
    if v.catalog.len() == 0 {
        v
    } else {
        PlayerView {
            queue: seq![v.selected as usize],
            engine: replaced(v.engine, seq![v.selected as usize]),
            now_playing: Some(v.selected as usize),
            ..v
        }
    }
}

pub open spec fn enqueued(v: PlayerView) -> PlayerView {
    if v.catalog.len() == 0 {
        v
    } else {
        PlayerView { queue: v.queue.push(v.selected as usize), ..v }
    }
}

pub open spec fn cleared(v: PlayerView) -> PlayerView {
    PlayerView { queue: Seq::empty(), engine: stopped(v.engine), ..v }
}

pub open spec fn queue_played(v: PlayerView) -> PlayerView {
    if v.queue.len() == 0 {
        v
    } else {
        PlayerView {
            engine: replaced(v.engine, v.queue),
            now_playing: Some(v.queue[0]),
            ..v
        }
    }
}

/// The state after `cmd`.
pub open spec fn next(v: PlayerView, cmd: Command) -> PlayerView {
    match cmd {
        Command::Exit => PlayerView { running: false, ..v },
        Command::CursorUp => moved_up(v),
        Command::CursorDown => moved_down(v),
        Command::Select => selected_played(v),
        Command::TogglePause => PlayerView { engine: toggled(v.engine), ..v },
        Command::Enqueue => enqueued(v),
        Command::ClearQueue => cleared(v),
        Command::PlayQueue => queue_played(v),
        Command::VolumeUp => PlayerView { engine: with_volume_step(v.engine, 1), ..v },
        Command::VolumeDown => PlayerView { engine: with_volume_step(v.engine, -1), ..v },
    }
}

/// The sink operations that `cmd` asks for.
pub open spec fn sink_actions(v: PlayerView, cmd: Command) -> Seq<SinkAction> {
    match cmd {
        Command::Select => if v.catalog.len() == 0 {
            Seq::empty()
        } else {
            replace_actions(seq![v.selected as usize])
        },
        Command::TogglePause => seq![
            if v.engine.paused { SinkAction::Play } else { SinkAction::Pause },
        ],
        Command::ClearQueue => seq![SinkAction::Stop],
        Command::PlayQueue => if v.queue.len() == 0 {
            Seq::empty()
        } else {
            replace_actions(v.queue)
        },
        Command::VolumeUp => seq![
            SinkAction::SetVolume(with_volume_step(v.engine, 1).volume as u8),
        ],
        Command::VolumeDown => seq![
            SinkAction::SetVolume(with_volume_step(v.engine, -1).volume as u8),
        ],
        _ => Seq::empty(),
    }
}

/// Moving the cursor to a new row, if it moved.
pub open spec fn cursor_moves(v: PlayerView, w: PlayerView) -> Seq<Draw> {
    if w.selected != v.selected {
        seq![Draw::MoveTo(0, row_of(w.selected as int))]
    } else {
        Seq::empty()
    }
}

/// The text shown when there is nothing queued to play.
pub open spec fn empty_queue_text() -> Seq<char> {
    "Queue is empty"@
}

/// What `cmd` redraws, and where.
pub open spec fn redraw(v: PlayerView, cmd: Command, screen: Screen) -> Seq<Draw> {
    let w = next(v, cmd);
    match cmd {
        Command::CursorUp | Command::CursorDown => cursor_moves(v, w),
        Command::Select => if v.catalog.len() == 0 {
            Seq::empty()
        } else {
            queue_blank_view(v.queue.len()) + queue_view(v.catalog, w.queue) + status_view(
                now_playing_text(v.catalog[v.selected as int].name@),
                screen.height as nat,
            )
        },
        Command::Enqueue => if v.catalog.len() == 0 {
            Seq::empty()
        } else {
            queue_view(v.catalog, w.queue)
        },
        Command::ClearQueue => queue_blank_view(v.queue.len()),
        Command::PlayQueue => if v.queue.len() == 0 {
            status_view(empty_queue_text(), screen.height as nat)
        } else {
            status_view(now_playing_text(v.catalog[v.queue[0] as int].name@), screen.height as nat)
        },
        Command::VolumeUp | Command::VolumeDown => volume_view(
            w.engine.volume,
            screen.width as nat,
            screen.height as nat,
        ),
        _ => Seq::empty(),
    }
}

/// What one command hands back: sink operations, then drawing operations.
pub struct Reaction {
    pub sink: Vec<SinkAction>,
    pub draws: Vec<DrawOp>,
}

/// The player: catalog, queue, cursor and engine, driven one command at a time.
pub struct Player {
    catalog: Vec<Music>,
    queue: Vec<usize>,
    selected: usize,
    engine: Engine,
    now_playing: Option<usize>,
    running: bool,
}

impl View for Player {
    type V = PlayerView;

    closed spec fn view(&self) -> PlayerView {
        PlayerView {
            catalog: self.catalog@,
            queue: self.queue@,
            selected: self.selected as nat,
            engine: self.engine@,
            now_playing: self.now_playing,
            running: self.running,
        }
    }
}

impl Player {
    pub closed spec fn wf(&self) -> bool {
        valid(self@) && self.engine.wf()
    }

    /// A player over `catalog`: cursor on the first row, empty queue, a fresh engine.
    pub fn new(catalog: Vec<Music>) -> (r: Player)
        requires
            catalog@.len() <= MAX_TRACKS,
        ensures
            r.wf(),
            r@ == (PlayerView {
                catalog: catalog@,
                queue: Seq::empty(),
                selected: 0,
                engine: EngineView {
                    paused: false,
                    volume: FULL_VOLUME as nat,
                    submitted: Seq::empty(),
                },
                now_playing: None,
                running: true,
            }),
    {
        let p = Player {
            catalog,
            queue: Vec::new(),
            selected: 0,
            engine: Engine::new(),
            now_playing: None,
            running: true,
        };
        assert(p.queue@ =~= Seq::<usize>::empty());
        p
    }

    pub proof fn lemma_wf(&self)
        requires
            self.wf(),
        ensures
            valid(self@),
    {
    }

    pub fn catalog(&self) -> (r: &Vec<Music>)
        ensures
            r@ == self@.catalog,
    {
        &self.catalog
    }

    pub fn queue(&self) -> (r: &Vec<usize>)
        ensures
            r@ == self@.queue,
    {
        &self.queue
    }

    /// The catalog index of the highlighted row.
    pub fn selected(&self) -> (r: usize)
        ensures
            r == self@.selected,
    {
        self.selected
    }

    pub fn engine(&self) -> (r: &Engine)
        ensures
            r@ == self@.engine,
    {
        &self.engine
    }

    pub fn now_playing(&self) -> (r: Option<usize>)
        ensures
            r == self@.now_playing,
    {
        self.now_playing
    }

    pub fn is_running(&self) -> (r: bool)
        ensures
            r == self@.running,
    {
        self.running
    }

    /// Everything drawn at startup: the cursor on the first track row, the catalog,
    /// the queue panel and the volume meter.
    pub fn startup_view(&self, screen: Screen) -> (r: Vec<DrawOp>)
        requires
            self.wf(),
        ensures
            draws(r@) == seq![Draw::MoveTo(0, HEADER_ROWS as int)] + catalog_view(
                self@.catalog,
                screen.width as nat,
            ) + queue_view(self@.catalog, self@.queue) + volume_view(
                self@.engine.volume,
                screen.width as nat,
                screen.height as nat,
            ),
    {
        let mut out: Vec<DrawOp> = Vec::new();
        out.push(DrawOp::MoveTo(0, HEADER_ROWS));
        assert(draws(out@) =~= seq![Draw::MoveTo(0, HEADER_ROWS as int)]);
        render_musics(&self.catalog, screen.width, &mut out);
        assert(forall|k: int| 0 <= k < self.queue@.len() ==> self.queue@[k] < self.catalog@.len()) by {
            assert(self@.queue == self.queue@ && self@.catalog == self.catalog@);
        }
        render_queue(&self.catalog, &self.queue, &mut out);
        render_volume(self.engine.volume(), screen.width, screen.height, &mut out);
        out
    }

    /// Moves the highlight one row up, staying on the first row.
    pub fn move_up(&mut self, out: &mut Vec<DrawOp>)
        requires
            old(self).wf(),
        ensures
            final(self).wf(),
            final(self)@ == moved_up(old(self)@),
            draws(final(out)@) == draws(old(out)@) + cursor_moves(old(self)@, final(self)@),
    {
        if self.selected > 0 {
            self.selected = self.selected - 1;
            out.push(DrawOp::MoveTo(0, self.selected as u16 + HEADER_ROWS));
        }
        assert(draws(out@) =~= draws(old(out)@) + cursor_moves(old(self)@, self@));
    }

    /// Moves the highlight one row down, staying on the last track's row.
    pub fn move_down(&mut self, out: &mut Vec<DrawOp>)
        requires
            old(self).wf(),
        ensures
            final(self).wf(),
            final(self)@ == moved_down(old(self)@),
            draws(final(out)@) == draws(old(out)@) + cursor_moves(old(self)@, final(self)@),
    {
        if self.selected + 1 < self.catalog.len() {
            self.selected = self.selected + 1;
            out.push(DrawOp::MoveTo(0, self.selected as u16 + HEADER_ROWS));
        }
        assert(draws(out@) =~= draws(old(out)@) + cursor_moves(old(self)@, self@));
    }

    /// Empties the queue and stops playback. On an empty queue this only stops.
    pub fn clear_queue(&mut self, sink: &mut Vec<SinkAction>, out: &mut Vec<DrawOp>)
        requires
            old(self).wf(),
        ensures
            final(self).wf(),
            final(self)@ == cleared(old(self)@),
            final(self)@.queue.len() == 0,
            state_of(final(self)@.engine) == PlaybackState::Stopped,
            final(sink)@ == old(sink)@.push(SinkAction::Stop),
            draws(final(out)@) == draws(old(out)@) + queue_blank_view(old(self)@.queue.len()),
    {
        render_queue_blank(self.queue.len(), out);
        self.queue.clear();
        self.engine.stop(sink);
        assert(self.queue@ =~= Seq::<usize>::empty());
    }

    /// Clears the queue, queues the highlighted track and plays it at once.
    /// Nothing happens on an empty catalog.
    pub fn select(&mut self, screen: Screen, sink: &mut Vec<SinkAction>, out: &mut Vec<DrawOp>)
        requires
            old(self).wf(),
        ensures
            final(self).wf(),
            final(self)@ == selected_played(old(self)@),
            final(sink)@ == old(sink)@ + sink_actions(old(self)@, Command::Select),
            draws(final(out)@) == draws(old(out)@) + redraw(old(self)@, Command::Select, screen),
    {
        if self.catalog.len() == 0 {
            assert(sink@ =~= old(sink)@ + sink_actions(old(self)@, Command::Select));
            assert(draws(out@) =~= draws(old(out)@) + redraw(old(self)@, Command::Select, screen));
            return;
        }
        let ghost out0 = draws(out@);
        let i: usize = self.selected;
        render_queue_blank(self.queue.len(), out);
        self.queue.clear();
        self.queue.push(i);
        assert(self.queue@ =~= seq![i]);
        self.engine.replace_and_play(&self.queue, sink);
        self.now_playing = Some(i);
        render_queue(&self.catalog, &self.queue, out);
        render_now_playing(&self.catalog[i].name, screen.height, out);
        assert(draws(out@) =~= out0 + redraw(old(self)@, Command::Select, screen));
    }

    /// Appends the highlighted track to the queue without touching playback.
    /// Nothing happens on an empty catalog.
    pub fn add_to_queue(&mut self, out: &mut Vec<DrawOp>)
        requires
            old(self).wf(),
        ensures
            final(self).wf(),
            final(self)@ == enqueued(old(self)@),
            old(self)@.catalog.len() > 0 ==> final(self)@.queue == old(self)@.queue.push(
                old(self)@.selected as usize,
            ),
            old(self)@.catalog.len() > 0 ==> draws(final(out)@) == draws(old(out)@) + queue_view(
                old(self)@.catalog,
                final(self)@.queue,
            ),
            old(self)@.catalog.len() == 0 ==> final(out)@ == old(out)@,
    {
        if self.catalog.len() == 0 {
            return;
        }
        self.queue.push(self.selected);
        render_queue(&self.catalog, &self.queue, out);
    }

    /// Restarts playback from the queue's first entry, all entries in order.
    /// On an empty queue nothing is played and the status line says so.
    pub fn play_queue(&mut self, screen: Screen, sink: &mut Vec<SinkAction>, out: &mut Vec<DrawOp>)
        requires
            old(self).wf(),
        ensures
            final(self).wf(),
            final(self)@ == queue_played(old(self)@),
            final(sink)@ == old(sink)@ + sink_actions(old(self)@, Command::PlayQueue),
            draws(final(out)@) == draws(old(out)@) + redraw(old(self)@, Command::PlayQueue, screen),
    {
        if self.queue.len() == 0 {
            proof {
                reveal_strlit("Queue is empty");
            }
            render_status(String::from_str("Queue is empty"), screen.height, out);
            assert(sink@ =~= old(sink)@ + sink_actions(old(self)@, Command::PlayQueue));
            return;
        }
        self.engine.replace_and_play(&self.queue, sink);
        let first: usize = self.queue[0];
        self.now_playing = Some(first);
        render_now_playing(&self.catalog[first].name, screen.height, out);
    }

    /// Pauses when playing, resumes when paused.
    pub fn toggle_pause(&mut self, sink: &mut Vec<SinkAction>)
        requires
            old(self).wf(),
        ensures
            final(self).wf(),
            final(self)@ == next(old(self)@, Command::TogglePause),
            final(sink)@ == old(sink)@ + sink_actions(old(self)@, Command::TogglePause),
    {
        self.engine.toggle_pause(sink);
        assert(sink@ =~= old(sink)@ + sink_actions(old(self)@, Command::TogglePause));
    }

    /// Moves the volume by `delta` tenths, clamped, and redraws the meter.
    pub fn adjust_volume(
        &mut self,
        delta: i8,
        screen: Screen,
        sink: &mut Vec<SinkAction>,
        out: &mut Vec<DrawOp>,
    )
        requires
            old(self).wf(),
        ensures
            final(self).wf(),
            final(self)@ == (PlayerView {
                engine: with_volume_step(old(self)@.engine, delta as int),
                ..old(self)@
            }),
            final(sink)@ == old(sink)@.push(SinkAction::SetVolume(final(self)@.engine.volume as u8)),
            draws(final(out)@) == draws(old(out)@) + volume_view(
                final(self)@.engine.volume,
                screen.width as nat,
                screen.height as nat,
            ),
    {
        self.engine.adjust_volume(delta, sink);
        proof {
            self.engine.lemma_wf();
        }
        render_volume(self.engine.volume(), screen.width, screen.height, out);
    }

    /// Carries out one command: updates the state and says what to do to the sink and
    /// what to redraw.
    pub fn handle(&mut self, cmd: Command, screen: Screen) -> (r: Reaction)
        requires
            old(self).wf(),
        ensures
            final(self).wf(),
            final(self)@ == next(old(self)@, cmd),
            r.sink@ == sink_actions(old(self)@, cmd),
            draws(r.draws@) == redraw(old(self)@, cmd, screen),
    {
        let mut sink: Vec<SinkAction> = Vec::new();
        let mut out: Vec<DrawOp> = Vec::new();
        match cmd {
            Command::Exit => {
                self.running = false;
            },
            Command::CursorUp => self.move_up(&mut out),
            Command::CursorDown => self.move_down(&mut out),
            Command::Select => self.select(screen, &mut sink, &mut out),
            Command::TogglePause => self.toggle_pause(&mut sink),
            Command::Enqueue => self.add_to_queue(&mut out),
            Command::ClearQueue => self.clear_queue(&mut sink, &mut out),
            Command::PlayQueue => self.play_queue(screen, &mut sink, &mut out),
            Command::VolumeUp => self.adjust_volume(1, screen, &mut sink, &mut out),
            Command::VolumeDown => self.adjust_volume(-1, screen, &mut sink, &mut out),
        }
        assert(sink@ =~= sink_actions(old(self)@, cmd));
        assert(draws(out@) =~= redraw(old(self)@, cmd, screen));
        Reaction { sink, draws: out }
    }
}

/// The state after each of `cmds` in turn.
pub open spec fn run(v: PlayerView, cmds: Seq<Command>) -> PlayerView
    decreases cmds.len(),
{
    if cmds.len() == 0 {
        v
    } else {
        next(run(v, cmds.drop_last()), cmds.last())
    }
}

/// Every command keeps the player in a valid state.
pub proof fn lemma_next_valid(v: PlayerView, cmd: Command)
    requires
        valid(v),
    ensures
        valid(next(v, cmd)),
{
    let w = next(v, cmd);
    if cmd == Command::Select && v.catalog.len() > 0 {
        assert(w.engine.submitted =~= seq![v.selected as usize]);
    }
    if cmd == Command::Enqueue && v.catalog.len() > 0 {
        assert(forall|k: int| 0 <= k < w.queue.len() ==> #[trigger] w.queue[k] < w.catalog.len()) by {
            assert(forall|k: int| 0 <= k < v.queue.len() ==> w.queue[k] == v.queue[k]);
        }
    }
}

/// Two presses of pause in a row give back the state before them.
pub proof fn lemma_pause_twice(v: PlayerView)
    ensures
        run(v, seq![Command::TogglePause, Command::TogglePause]) == v,
{
    let cmds = seq![Command::TogglePause, Command::TogglePause];
    assert(cmds.drop_last() =~= seq![Command::TogglePause]);
    assert(cmds.drop_last().drop_last() =~= Seq::<Command>::empty());
    assert(run(v, cmds.drop_last().drop_last()) == v);
    assert(cmds.drop_last().last() == Command::TogglePause);
    assert(run(v, cmds.drop_last()) == next(v, Command::TogglePause));
    assert(cmds.last() == Command::TogglePause);
    assert(run(v, cmds) == next(next(v, Command::TogglePause), Command::TogglePause));
    assert(toggled(toggled(v.engine)) == v.engine);
}

/// Any run of commands keeps the player in a valid state.
pub proof fn lemma_run_valid(v: PlayerView, cmds: Seq<Command>)
    requires
        valid(v),
    ensures
        valid(run(v, cmds)),
    decreases cmds.len(),
{
    if cmds.len() > 0 {
        lemma_run_valid(v, cmds.drop_last());
        lemma_next_valid(run(v, cmds.drop_last()), cmds.last());
    }
}

/// However many cursor presses come, in whatever order, the highlighted row is a
/// track of the catalog: never before the first, never past the last.
pub proof fn lemma_cursor_in_range(v: PlayerView, cmds: Seq<Command>)
    requires
        valid(v),
        v.catalog.len() > 0,
        forall|k: int|
            0 <= k < cmds.len() ==> #[trigger] cmds[k] == Command::CursorUp || cmds[k]
                == Command::CursorDown,
    ensures
        0 <= run(v, cmds).selected < v.catalog.len(),
        run(v, cmds).catalog == v.catalog,
    decreases cmds.len(),
{
    if cmds.len() > 0 {
        let init = cmds.drop_last();
        assert forall|k: int| 0 <= k < init.len() implies #[trigger] init[k] == Command::CursorUp
            || init[k] == Command::CursorDown by {
            assert(init[k] == cmds[k]);
        }
        lemma_cursor_in_range(v, init);
        assert(cmds.last() == cmds[cmds.len() - 1]);
    }
}

/// `k` presses of the up key move the highlight `k` rows up, stopping at the first row.
pub proof fn lemma_cursor_up_presses(v: PlayerView, k: nat)
    requires
        valid(v),
    ensures
        run(v, Seq::new(k, |i: int| Command::CursorUp)).selected == if v.selected >= k {
            (v.selected - k) as nat
        } else {
            0
        },
        run(v, Seq::new(k, |i: int| Command::CursorUp)).catalog == v.catalog,
    decreases k,
{
    let cmds = Seq::new(k, |i: int| Command::CursorUp);
    if k > 0 {
        lemma_cursor_up_presses(v, (k - 1) as nat);
        assert(cmds.drop_last() =~= Seq::new((k - 1) as nat, |i: int| Command::CursorUp));
    }
}

/// `k` presses of the down key move the highlight `k` rows down, stopping at the last
/// track's row.
pub proof fn lemma_cursor_down_presses(v: PlayerView, k: nat)
    requires
        valid(v),
        v.catalog.len() > 0,
    ensures
        run(v, Seq::new(k, |i: int| Command::CursorDown)).selected == if v.selected + k
            < v.catalog.len() {
            v.selected + k
        } else {
            (v.catalog.len() - 1) as nat
        },
        run(v, Seq::new(k, |i: int| Command::CursorDown)).catalog == v.catalog,
    decreases k,
{
    let cmds = Seq::new(k, |i: int| Command::CursorDown);
    if k > 0 {
        lemma_cursor_down_presses(v, (k - 1) as nat);
        assert(cmds.drop_last() =~= Seq::new((k - 1) as nat, |i: int| Command::CursorDown));
    }
}

/// `n` presses of a volume key move the volume `n` tenths, clamped at each press; from
/// ten presses on, raising settles at exactly full volume and lowering at exactly
/// silence.
pub proof fn lemma_volume_presses(v: PlayerView, n: nat)
    requires
        valid(v),
    ensures
        run(v, Seq::new(n, |i: int| Command::VolumeUp)).engine.volume == volume_after(
            v.engine.volume,
            1,
            n,
        ),
        run(v, Seq::new(n, |i: int| Command::VolumeDown)).engine.volume == volume_after(
            v.engine.volume,
            -1,
            n,
        ),
        n >= FULL_VOLUME ==> run(v, Seq::new(n, |i: int| Command::VolumeUp)).engine.volume
            == FULL_VOLUME as nat,
        n >= FULL_VOLUME ==> run(v, Seq::new(n, |i: int| Command::VolumeDown)).engine.volume
            == 0,
    decreases n,
{
    let up = Seq::new(n, |i: int| Command::VolumeUp);
    let down = Seq::new(n, |i: int| Command::VolumeDown);
    if n > 0 {
        lemma_volume_presses(v, (n - 1) as nat);
        assert(up.drop_last() =~= Seq::new((n - 1) as nat, |i: int| Command::VolumeUp));
        assert(down.drop_last() =~= Seq::new((n - 1) as nat, |i: int| Command::VolumeDown));
    }
    if n >= FULL_VOLUME {
        lemma_volume_settles(v.engine.volume, n);
    }
}

/// `n` presses of the enqueue key on one highlighted track, from an empty queue,
/// give a queue of that track `n` times; one press of the clear key then empties it.
pub proof fn lemma_enqueue_repeated(v: PlayerView, n: nat)
    requires
        valid(v),
        v.catalog.len() > 0,
        v.queue.len() == 0,
    ensures
        run(v, Seq::new(n, |i: int| Command::Enqueue)).queue =~= Seq::new(
            n,
            |i: int| v.selected as usize,
        ),
        run(v, Seq::new(n, |i: int| Command::Enqueue).push(Command::ClearQueue)).queue.len() == 0,
    decreases n,
{
    let cmds = Seq::new(n, |i: int| Command::Enqueue);
    if n > 0 {
        lemma_enqueue_repeated(v, (n - 1) as nat);
        assert(cmds.drop_last() =~= Seq::new((n - 1) as nat, |i: int| Command::Enqueue));
        lemma_enqueue_keeps(v, cmds.drop_last());
    }
    assert(cmds.push(Command::ClearQueue).drop_last() =~= cmds);
}

proof fn lemma_enqueue_keeps(v: PlayerView, cmds: Seq<Command>)
    requires
        forall|k: int| 0 <= k < cmds.len() ==> #[trigger] cmds[k] == Command::Enqueue,
    ensures
        run(v, cmds).catalog == v.catalog,
        run(v, cmds).selected == v.selected,
    decreases cmds.len(),
{
    if cmds.len() > 0 {
        let init = cmds.drop_last();
        assert forall|k: int| 0 <= k < init.len() implies #[trigger] init[k] == Command::Enqueue by {
            assert(init[k] == cmds[k]);
        }
        lemma_enqueue_keeps(v, init);
    }
}

} // verus!
