use vstd::prelude::*;
use crate::track::Music;

verus! {

/// Rows above the first catalog row: the header and the rule under it.
pub const HEADER_ROWS: u16 = 2;
/// Column where track names start.
pub const NAME_COLUMN: u16 = 3;
/// Column where durations start.
pub const TIME_COLUMN: u16 = 40;
/// Column of the divider between the catalog and the queue panel.
pub const DIVIDER_COLUMN: u16 = 89;
/// Column where the queue panel starts.
pub const QUEUE_COLUMN: u16 = 91;
/// Width of the volume meter strip at the right of the last row.
pub const METER_WIDTH: u16 = 11;

/// One terminal drawing operation, for the caller to perform in order.
#[derive(Debug, Clone, PartialEq, Eq)]
pub enum DrawOp {
    /// Remember the cursor position.
    SavePosition,
    /// Return to the remembered cursor position.
    RestorePosition,
    /// Move to (column, row).
    MoveTo(u16, u16),
    /// Move to a column of the current row.
    MoveToColumn(u16),
    /// Move to the start of a following line.
    MoveToNextLine(u16),
    /// Clear from the cursor to the end of the line.
    ClearUntilNewLine,
    /// Write text in the default color.
    Text(String),
    /// Write text in the accent color.
    Accent(String),
    /// Write a number in decimal.
    Number(usize),
    /// Write a duration given in milliseconds as a number of seconds.
    Seconds(u64),
}

/// What a drawing operation does, on mathematical values.
pub ghost enum Draw {
    Save,
    Restore,
    MoveTo(int, int),
    Column(int),
    NextLine(int),
    ClearLine,
    Text(Seq<char>),
    Accent(Seq<char>),
    Number(int),
    Seconds(int),
}

impl View for DrawOp {
    type V = Draw;

    open spec fn view(&self) -> Draw {
        match self {
            DrawOp::SavePosition => Draw::Save,
            DrawOp::RestorePosition => Draw::Restore,
            DrawOp::MoveTo(c, r) => Draw::MoveTo(*c as int, *r as int),
            DrawOp::MoveToColumn(c) => Draw::Column(*c as int),
            DrawOp::MoveToNextLine(n) => Draw::NextLine(*n as int),
            DrawOp::ClearUntilNewLine => Draw::ClearLine,
            DrawOp::Text(s) => Draw::Text(s@),
            DrawOp::Accent(s) => Draw::Accent(s@),
            DrawOp::Number(n) => Draw::Number(*n as int),
            DrawOp::Seconds(ms) => Draw::Seconds(*ms as int),
        }
    }
}

pub open spec fn draws(ops: Seq<DrawOp>) -> Seq<Draw> {
    ops.map_values(|o: DrawOp| o@)
}

/// `a - b`, or 0 where `b` is larger.
pub open spec fn sat_sub(a: int, b: int) -> int {
    if a >= b {
        a - b
    } else {
        0
    }
}

/// The screen row that shows catalog entry `index`.
pub open spec fn row_of(index: int) -> int {
    index + HEADER_ROWS as int
}

pub open spec fn rule_text(width: nat) -> Seq<char> {
    Seq::new(width, |i: int| '─')
}

pub open spec fn catalog_header(width: nat) -> Seq<Draw> {
    seq![
        Draw::MoveTo(0, 0),
        Draw::Accent("#"@),
        Draw::Column(NAME_COLUMN as int),
        Draw::Accent("Name"@),
        Draw::Column(TIME_COLUMN as int),
        Draw::Accent("Time"@),
        Draw::Column(QUEUE_COLUMN as int),
        Draw::Accent("Queue"@),
        Draw::MoveTo(0, 1),
        Draw::Accent(rule_text(width)),
        Draw::MoveTo(0, HEADER_ROWS as int),
    ]
}

/// The line for catalog entry `index`: number, name, duration and divider.
pub open spec fn catalog_row(index: int, m: Music) -> Seq<Draw> {
    seq![
        Draw::Number(index),
        Draw::Column(NAME_COLUMN as int),
        Draw::Text(m.name@),
        Draw::Column(TIME_COLUMN as int),
        Draw::Seconds(m.duration_ms as int),
        Draw::Text("s"@),
        Draw::Column(DIVIDER_COLUMN as int),
        Draw::Accent("│"@),
        Draw::NextLine(1),
        Draw::Column(0),
    ]
}

pub open spec fn catalog_rows(catalog: Seq<Music>) -> Seq<Draw>
    decreases catalog.len(),
{
    if catalog.len() == 0 {
        Seq::empty()
    } else {
        catalog_rows(catalog.drop_last()) + catalog_row(catalog.len() - 1, catalog.last())
    }
}

/// The whole catalog view, drawn without moving the cursor.
pub open spec fn catalog_view(catalog: Seq<Music>, width: nat) -> Seq<Draw> {
    seq![Draw::Save] + catalog_header(width) + catalog_rows(catalog) + seq![Draw::Restore]
}

pub open spec fn queue_rows(catalog: Seq<Music>, queue: Seq<usize>) -> Seq<Draw>
    decreases queue.len(),
{
    if queue.len() == 0 {
        Seq::empty()
    } else {
        queue_rows(catalog, queue.drop_last()) + seq![
            Draw::ClearLine,
            Draw::Text(catalog[queue.last() as int].name@),
            Draw::NextLine(1),
            Draw::Column(QUEUE_COLUMN as int),
        ]
    }
}

/// The queue panel: one name per line from its top left corner, each line cleared
/// before it is written.
pub open spec fn queue_view(catalog: Seq<Music>, queue: Seq<usize>) -> Seq<Draw> {
    seq![Draw::Save, Draw::MoveTo(QUEUE_COLUMN as int, HEADER_ROWS as int)] + queue_rows(
        catalog,
        queue,
    ) + seq![Draw::Restore]
}

pub open spec fn blank_rows(n: nat) -> Seq<Draw>
    decreases n,
{
    if n == 0 {
        Seq::empty()
    } else {
        blank_rows((n - 1) as nat) + seq![
            Draw::ClearLine,
            Draw::NextLine(1),
            Draw::Column(QUEUE_COLUMN as int),
        ]
    }
}

/// Blanking of the first `n` lines of the queue panel.
pub open spec fn queue_blank_view(n: nat) -> Seq<Draw> {
    seq![Draw::Save, Draw::MoveTo(QUEUE_COLUMN as int, HEADER_ROWS as int)] + blank_rows(n)
        + seq![Draw::Restore]
}

/// The status line, second from the bottom, rewritten with `text`.
pub open spec fn status_view(text: Seq<char>, height: nat) -> Seq<Draw> {
    seq![
        Draw::Save,
        Draw::MoveTo(0, sat_sub(height as int, 2)),
        Draw::ClearLine,
        Draw::Accent(text),
        Draw::Restore,
    ]
}

pub open spec fn now_playing_text(name: Seq<char>) -> Seq<char> {
    "Now playing: "@ + name
}

pub open spec fn meter_start(width: nat) -> int {
    sat_sub(width as int, METER_WIDTH as int)
}

pub open spec fn meter_cells(start: int, n: nat) -> Seq<Draw>
    decreases n,
{
    if n == 0 {
        Seq::empty()
    } else {
        meter_cells(start, (n - 1) as nat) + seq![Draw::Column(start + n - 1), Draw::Accent("■"@)]
    }
}

/// The volume meter on the last row: one filled cell per tenth of volume.
pub open spec fn volume_view(volume: nat, width: nat, height: nat) -> Seq<Draw> {
    seq![
        Draw::Save,
        Draw::MoveTo(meter_start(width), sat_sub(height as int, 1)),
        Draw::ClearLine,
    ] + meter_cells(meter_start(width), volume) + seq![Draw::Restore]
}

/// Appends `op` to `out`.
fn emit(out: &mut Vec<DrawOp>, op: DrawOp)
    ensures
        final(out)@ == old(out)@.push(op),
        draws(final(out)@) == draws(old(out)@).push(op@),
{
    out.push(op);
    assert(draws(out@) =~= draws(old(out)@).push(op@));
}

/// A horizontal rule `width` cells long.
fn rule(width: u16) -> (r: String)
    ensures
        r@ == rule_text(width as nat),
{
    let mut s = String::new();
    let mut k: u16 = 0;
    proof {
        reveal_strlit("─");
    }
    while k < width
        invariant
            k <= width,
            s@ == rule_text(k as nat),
        decreases width - k,
    {
        s.append("─");
        k = k + 1;
        proof {
            reveal_strlit("─");
        }
        assert("─"@ =~= seq!['─']);
        assert(s@ =~= rule_text(k as nat));
    }
    s
}

fn render_catalog_row(index: usize, m: &Music, out: &mut Vec<DrawOp>)
    ensures
        draws(final(out)@) == draws(old(out)@) + catalog_row(index as int, *m),
{
    emit(out, DrawOp::Number(index));
    emit(out, DrawOp::MoveToColumn(NAME_COLUMN));
    emit(out, DrawOp::Text(m.name.clone()));
    emit(out, DrawOp::MoveToColumn(TIME_COLUMN));
    emit(out, DrawOp::Seconds(m.duration_ms));
    emit(out, DrawOp::Text(String::from_str("s")));
    emit(out, DrawOp::MoveToColumn(DIVIDER_COLUMN));
    emit(out, DrawOp::Accent(String::from_str("│")));
    emit(out, DrawOp::MoveToNextLine(1));
    emit(out, DrawOp::MoveToColumn(0));
    assert(draws(out@) =~= draws(old(out)@) + catalog_row(index as int, *m));
}

/// Draws the catalog header, the rule under it, and one line per track.
pub fn render_musics(catalog: &Vec<Music>, width: u16, out: &mut Vec<DrawOp>)
    ensures
        draws(final(out)@) == draws(old(out)@) + catalog_view(catalog@, width as nat),
{
    let ghost start = draws(old(out)@);
    emit(out, DrawOp::SavePosition);
    emit(out, DrawOp::MoveTo(0, 0));
    emit(out, DrawOp::Accent(String::from_str("#")));
    emit(out, DrawOp::MoveToColumn(NAME_COLUMN));
    emit(out, DrawOp::Accent(String::from_str("Name")));
    emit(out, DrawOp::MoveToColumn(TIME_COLUMN));
    emit(out, DrawOp::Accent(String::from_str("Time")));
    emit(out, DrawOp::MoveToColumn(QUEUE_COLUMN));
    emit(out, DrawOp::Accent(String::from_str("Queue")));
    emit(out, DrawOp::MoveTo(0, 1));
    emit(out, DrawOp::Accent(rule(width)));
    emit(out, DrawOp::MoveTo(0, HEADER_ROWS));
    let ghost head = start + seq![Draw::Save] + catalog_header(width as nat);
    assert(draws(out@) =~= head);
    let mut i: usize = 0;
    while i < catalog.len()
        invariant
            i <= catalog@.len(),
            draws(out@) == head + catalog_rows(catalog@.take(i as int)),
        decreases catalog@.len() - i,
    {
        render_catalog_row(i, &catalog[i], out);
        assert(catalog@.take(i + 1).drop_last() =~= catalog@.take(i as int));
        assert(catalog_rows(catalog@.take(i + 1)) == catalog_rows(catalog@.take(i as int))
            + catalog_row(i as int, catalog@[i as int]));
        i = i + 1;
    }
    assert(catalog@.take(i as int) =~= catalog@);
    emit(out, DrawOp::RestorePosition);
    assert(draws(out@) =~= start + catalog_view(catalog@, width as nat));
}

/// Draws the queue panel: the name of each queued catalog entry, one per line.
pub fn render_queue(catalog: &Vec<Music>, queue: &Vec<usize>, out: &mut Vec<DrawOp>)
    requires
        forall|k: int| 0 <= k < queue@.len() ==> queue@[k] < catalog@.len(),
    ensures
        draws(final(out)@) == draws(old(out)@) + queue_view(catalog@, queue@),
{
    let ghost start = draws(old(out)@);
    emit(out, DrawOp::SavePosition);
    emit(out, DrawOp::MoveTo(QUEUE_COLUMN, HEADER_ROWS));
    let ghost head = start + seq![Draw::Save, Draw::MoveTo(QUEUE_COLUMN as int, HEADER_ROWS as int)];
    assert(draws(out@) =~= head);
    let mut i: usize = 0;
    while i < queue.len()
        invariant
            i <= queue@.len(),
            forall|k: int| 0 <= k < queue@.len() ==> queue@[k] < catalog@.len(),
            draws(out@) == head + queue_rows(catalog@, queue@.take(i as int)),
        decreases queue@.len() - i,
    {
        let ghost before = draws(out@);
        let t: usize = queue[i];
        emit(out, DrawOp::ClearUntilNewLine);
        emit(out, DrawOp::Text(catalog[t].name.clone()));
        emit(out, DrawOp::MoveToNextLine(1));
        emit(out, DrawOp::MoveToColumn(QUEUE_COLUMN));
        assert(queue@.take(i + 1).drop_last() =~= queue@.take(i as int));
        assert(draws(out@) =~= before + seq![
            Draw::ClearLine,
            Draw::Text(catalog@[t as int].name@),
            Draw::NextLine(1),
            Draw::Column(QUEUE_COLUMN as int),
        ]);
        i = i + 1;
    }
    assert(queue@.take(i as int) =~= queue@);
    emit(out, DrawOp::RestorePosition);
    assert(draws(out@) =~= start + queue_view(catalog@, queue@));
}

/// Blanks the first `n` lines of the queue panel.
pub fn render_queue_blank(n: usize, out: &mut Vec<DrawOp>)
    ensures
        draws(final(out)@) == draws(old(out)@) + queue_blank_view(n as nat),
{
    let ghost start = draws(old(out)@);
    emit(out, DrawOp::SavePosition);
    emit(out, DrawOp::MoveTo(QUEUE_COLUMN, HEADER_ROWS));
    let ghost head = start + seq![Draw::Save, Draw::MoveTo(QUEUE_COLUMN as int, HEADER_ROWS as int)];
    assert(draws(out@) =~= head);
    let mut i: usize = 0;
    while i < n
        invariant
            i <= n,
            draws(out@) == head + blank_rows(i as nat),
        decreases n - i,
    {
        let ghost before = draws(out@);
        emit(out, DrawOp::ClearUntilNewLine);
        emit(out, DrawOp::MoveToNextLine(1));
        emit(out, DrawOp::MoveToColumn(QUEUE_COLUMN));
        i = i + 1;
        assert(draws(out@) =~= before + seq![
            Draw::ClearLine,
            Draw::NextLine(1),
            Draw::Column(QUEUE_COLUMN as int),
        ]);
    }
    emit(out, DrawOp::RestorePosition);
    assert(draws(out@) =~= start + queue_blank_view(n as nat));
}

/// Rewrites the status line, second from the bottom of a screen `height` rows high.
pub fn render_status(text: String, height: u16, out: &mut Vec<DrawOp>)
    ensures
        draws(final(out)@) == draws(old(out)@) + status_view(text@, height as nat),
{
    let row: u16 = if height >= 2 {
        height - 2
    } else {
        0
    };
    let ghost t = text@;
    emit(out, DrawOp::SavePosition);
    emit(out, DrawOp::MoveTo(0, row));
    emit(out, DrawOp::ClearUntilNewLine);
    emit(out, DrawOp::Accent(text));
    emit(out, DrawOp::RestorePosition);
    assert(draws(out@) =~= draws(old(out)@) + status_view(t, height as nat));
}

/// Shows which track was last started, on the status line.
pub fn render_now_playing(name: &String, height: u16, out: &mut Vec<DrawOp>)
    ensures
        draws(final(out)@) == draws(old(out)@) + status_view(
            now_playing_text(name@),
            height as nat,
        ),
{
    let mut text = String::from_str("Now playing: ");
    text.append(name.as_str());
    render_status(text, height, out);
}

/// Redraws the volume meter at the right end of the last row: one filled cell per
/// tenth of `volume`.
pub fn render_volume(volume: u8, width: u16, height: u16, out: &mut Vec<DrawOp>)
    requires
        volume <= 10,
    ensures
        draws(final(out)@) == draws(old(out)@) + volume_view(
            volume as nat,
            width as nat,
            height as nat,
        ),
{
    let start: u16 = if width >= METER_WIDTH {
        width - METER_WIDTH
    } else {
        0
    };
    let row: u16 = if height >= 1 {
        height - 1
    } else {
        0
    };
    let ghost begin = draws(old(out)@);
    emit(out, DrawOp::SavePosition);
    emit(out, DrawOp::MoveTo(start, row));
    emit(out, DrawOp::ClearUntilNewLine);
    let ghost head = begin + seq![
        Draw::Save,
        Draw::MoveTo(meter_start(width as nat), sat_sub(height as int, 1)),
        Draw::ClearLine,
    ];
    assert(draws(out@) =~= head);
    let mut i: u16 = 0;
    while i < volume as u16
        invariant
            i <= volume,
            volume <= 10,
            start as int == meter_start(width as nat),
            start + 10 < 0x10000,
            draws(out@) == head + meter_cells(start as int, i as nat),
        decreases volume - i,
    {
        let ghost before = draws(out@);
        emit(out, DrawOp::MoveToColumn(start + i));
        emit(out, DrawOp::Accent(String::from_str("■")));
        i = i + 1;
        assert(draws(out@) =~= before + seq![Draw::Column(start + i - 1), Draw::Accent("■"@)]);
    }
    emit(out, DrawOp::RestorePosition);
    assert(draws(out@) =~= begin + volume_view(volume as nat, width as nat, height as nat));
}

} // verus!
