//! Per-frame orchestration: a decoded grayscale plane is mapped cell
//! by cell into the grid, the pacer is consulted for the wait that
//! keeps emission on schedule, and the flushed diff goes back to the
//! caller for terminal output. Audio frames feed the bell latch and a
//! small scrolling waveform sub-grid.

use vstd::prelude::*;

verus! {

use vstd::arithmetic::div_mod::lemma_div_pos_is_pos;
use vstd::arithmetic::div_mod::lemma_fundamental_div_mod;
use vstd::arithmetic::div_mod::lemma_fundamental_div_mod_converse_div;
use vstd::arithmetic::div_mod::lemma_fundamental_div_mod_converse_mod;

use crate::glyph::gray_to_char;
use crate::glyph::spec_gray_glyph;
use crate::pacer::Pacer;
use crate::plane::plane_position;
use crate::position::Position;
use crate::ringer::Ringer;
use crate::screen::lemma_cell_in_range;
use crate::screen::lemma_pos_of_cell;
use crate::screen::lemma_pos_of_in_bounds;
use crate::screen::pos_of;
use crate::screen::GridView;
use crate::screen::Screen;

/// Playback options as handed in from the command line.
pub struct Options {
    pub path: String,
    pub sound: bool,
    pub waveform: bool,
}

/// Width of the waveform sub-grid; also how far the video shifts to
/// the right when the waveform is shown beside it.
pub const WAVE_COLS: i32 = 5;

/// The waveform sub-grid is wiped every this many audio frames, which
/// bounds its visible history and yields a scrolling effect.
pub const WAVE_CLEAR_PERIOD: i32 = 5;

/// The mark plotted for an audio level sample.
pub const WAVE_MARK: char = 'O';

/// A configuration fault, rejected before any pacer or mapper is
/// built from it.
#[derive(Clone, Copy, Debug, PartialEq, Eq, Structural)]
pub enum ConfigError {
    /// Zero or negative target dimensions: nothing to render.
    EmptyDimensions,
    /// The source declared no usable frame rate.
    MissingFrameRate,
}

/// A validated playback configuration.
#[derive(Clone, Copy, Debug, PartialEq, Eq, Structural)]
pub struct RenderConfig {
    pub cols: i32,
    pub rows: i32,
    pub fps_num: u32,
    pub fps_den: u32,
}

/// Rejects unusable terminal dimensions and frame-rate metadata, so
/// that no pacing or mapping arithmetic ever sees them.
pub fn validate_config(cols: i32, rows: i32, fps_num: i32, fps_den: i32) -> (r: Result<
    RenderConfig,
    ConfigError,
>)
    ensures
        r is Ok <==> (0 < cols && 0 < rows && 0 < fps_num && 0 < fps_den),
        r matches Ok(c) ==> c.cols == cols && c.rows == rows && c.fps_num == fps_num
            && c.fps_den == fps_den,
        r == Err::<RenderConfig, ConfigError>(ConfigError::EmptyDimensions) <==> (cols <= 0
            || rows <= 0),
        r == Err::<RenderConfig, ConfigError>(ConfigError::MissingFrameRate) <==> (0 < cols
            && 0 < rows && (fps_num <= 0 || fps_den <= 0)),
{
    if cols <= 0 || rows <= 0 {
        Err(ConfigError::EmptyDimensions)
    } else if fps_num <= 0 || fps_den <= 0 {
        Err(ConfigError::MissingFrameRate)
    } else {
        Ok(RenderConfig { cols, rows, fps_num: fps_num as u32, fps_den: fps_den as u32 })
    }
}

/// The plane sample that lands on coordinate `p`, for a plane
/// `real_cols` wide drawn `col_offset` columns to the right.
pub open spec fn plane_index_of(real_cols: int, col_offset: int, p: Position) -> int {
    p.row * real_cols + (p.col - col_offset)
}

/// Whether some sample of a plane of `len` samples lands on `p`.
pub open spec fn plane_covers(len: int, real_cols: int, col_offset: int, p: Position) -> bool {
    &&& 0 <= p.col - col_offset < real_cols
    &&& 0 <= p.row
    &&& 0 <= plane_index_of(real_cols, col_offset, p) < len
}

/// The grid after one decoded plane is written: every covered cell
/// holds its sample's glyph on the pending surface, every other cell
/// is untouched, and the committed surface is untouched.
pub open spec fn rendered(g: GridView, plane: Seq<u8>, real_cols: int, col_offset: int) -> GridView {
    GridView {
        cols: g.cols,
        rows: g.rows,
        pending: Seq::new(
            g.pending.len(),
            |k: int|
                if plane_covers(plane.len() as int, real_cols, col_offset, pos_of(k, g.cols)) {
                    Some(
                        spec_gray_glyph(
                            plane[plane_index_of(real_cols, col_offset, pos_of(k, g.cols))],
                        ),
                    )
                } else {
                    g.pending[k]
                },
        ),
        committed: g.committed,
    }
}

/// What the rendered grid holds at each in-bounds coordinate: the
/// glyph of the sample that lands there, or the old pending character
/// where no sample does.
pub proof fn lemma_rendered_at(g: GridView, plane: Seq<u8>, rc: int, off: int, p: Position)
    requires
        g.wf(),
        g.in_bounds(p),
    ensures
        rendered(g, plane, rc, off).pending_at(p) == (if plane_covers(
            plane.len() as int,
            rc,
            off,
            p,
        ) {
            Some(spec_gray_glyph(plane[plane_index_of(rc, off, p)]))
        } else {
            g.pending_at(p)
        }),
{
    lemma_cell_in_range(g, p);
    lemma_pos_of_cell(g, p);
}

proof fn lemma_render_advance(g0: GridView, plane: Seq<u8>, rc: int, off: int, i: int, target: Position)
    requires
        g0.wf(),
        0 < rc,
        0 <= off,
        off + rc <= i32::MAX,
        plane.len() <= i32::MAX,
        0 <= i < plane.len(),
        target.col == i % rc + off,
        target.row == i / rc,
    ensures
        rendered(g0, plane.take(i), rc, off).write(target, spec_gray_glyph(plane[i])) =~= rendered(
            g0,
            plane.take(i + 1),
            rc,
            off,
        ),
{
    let gi = rendered(g0, plane.take(i), rc, off);
    let lhs = gi.write(target, spec_gray_glyph(plane[i]));
    let rhs = rendered(g0, plane.take(i + 1), rc, off);
    lemma_fundamental_div_mod(i, rc);
    lemma_div_pos_is_pos(i, rc);
    assert((i / rc) * rc == rc * (i / rc)) by (nonlinear_arith);
    assert(plane_index_of(rc, off, target) == i);
    assert forall|k: int| 0 <= k < g0.pending.len() implies lhs.pending[k] == rhs.pending[k] by {
        lemma_pos_of_in_bounds(g0, k);
        let p = pos_of(k, g0.cols);
        if g0.in_bounds(target) && k == g0.cell(target) {
            lemma_pos_of_cell(g0, target);
            assert(p == target);
            assert(lhs.pending[k] == Some(spec_gray_glyph(plane[i])));
            assert(plane_covers(i + 1, rc, off, target));
            assert(rhs.pending[k] == Some(spec_gray_glyph(plane.take(i + 1)[i])));
        } else {
            if g0.in_bounds(target) {
                lemma_cell_in_range(g0, target);
            }
            assert(lhs.pending[k] == gi.pending[k]);
            if plane_covers(i + 1, rc, off, p) && !plane_covers(i, rc, off, p) {
                assert(plane_index_of(rc, off, p) == i);
                lemma_fundamental_div_mod_converse_div(i, rc, p.row as int, p.col - off);
                lemma_fundamental_div_mod_converse_mod(i, rc, p.row as int, p.col - off);
                assert(p.row == i / rc && p.col == i % rc + off);
                assert(p == target);
                assert(false);
            }
        }
    }
    if g0.in_bounds(target) {
        lemma_cell_in_range(g0, target);
    }
    assert(lhs.pending.len() == rhs.pending.len());
    assert(lhs.pending =~= rhs.pending);
    assert(lhs =~= rhs);
}

/// Maps a decoded grayscale plane onto the grid: sample `i` becomes
/// the glyph for its brightness, at the coordinate the stride model
/// assigns it, shifted `col_offset` columns to the right. Samples that
/// fall outside the grid (the stride padding, by design) are dropped
/// by the grid itself.
pub fn render_plane(screen: &mut Screen, plane: &Vec<u8>, real_cols: i32, col_offset: i32)
    requires
        old(screen)@.wf(),
        0 < real_cols,
        0 <= col_offset,
        col_offset + real_cols <= i32::MAX,
        plane@.len() <= i32::MAX,
    ensures
        final(screen)@ == rendered(
            old(screen)@,
            plane@,
            real_cols as int,
            col_offset as int,
        ),
        final(screen)@.wf(),
{
    let ghost g0 = screen@;
    let len: usize = plane.len();
    let mut i: usize = 0;
    proof {
        assert(screen@ =~= rendered(g0, plane@.take(0), real_cols as int, col_offset as int));
    }
    while i < len
        invariant
            g0.wf(),
            0 < real_cols,
            0 <= col_offset,
            col_offset + real_cols <= i32::MAX,
            len == plane@.len(),
            len <= i32::MAX,
            i <= len,
            screen@ == rendered(g0, plane@.take(i as int), real_cols as int, col_offset as int),
        decreases len - i,
    {
        let sample: u8 = plane[i];
        let base: Position = plane_position(i, real_cols);
        let pos: Position = Position::new(base.col + col_offset, base.row);
        let ch: char = gray_to_char(sample);
        screen.write(&pos, ch);
        proof {
            lemma_render_advance(
                g0,
                plane@,
                real_cols as int,
                col_offset as int,
                i as int,
                pos,
            );
            assert(screen@ == rendered(
                g0,
                plane@.take(i + 1),
                real_cols as int,
                col_offset as int,
            ));
        }
        i = i + 1;
    }
    proof {
        assert(plane@.take(len as int) =~= plane@);
    }
}

/// One decoded video frame, start to finish: the plane lands on the
/// grid, the frame is counted, the wait that keeps emission on
/// schedule is computed, and the cells that actually changed come
/// back. The caller sleeps `out.0` nanoseconds, then emits `out.1`.
pub fn video_frame_step(
    screen: &mut Screen,
    pacer: &mut Pacer,
    plane: &Vec<u8>,
    real_cols: i32,
    col_offset: i32,
    elapsed_nanos: u64,
) -> (out: (u64, Vec<(Position, char)>))
    requires
        old(screen)@.wf(),
        old(pacer).wf(),
        old(pacer).frame_count < u64::MAX,
        0 < real_cols,
        0 <= col_offset,
        col_offset + real_cols <= i32::MAX,
        plane@.len() <= i32::MAX,
    ensures
        final(pacer).fps_num == old(pacer).fps_num,
        final(pacer).fps_den == old(pacer).fps_den,
        final(pacer).frame_count == old(pacer).frame_count + 1,
        out.0 == final(pacer).spec_sleep_nanos(elapsed_nanos as int),
        final(screen)@ == rendered(
            old(screen)@,
            plane@,
            real_cols as int,
            col_offset as int,
        ).merge(),
        final(screen)@.wf(),
        out.1@ == rendered(old(screen)@, plane@, real_cols as int, col_offset as int).diff(),
{
    render_plane(screen, plane, real_cols, col_offset);
    pacer.count_frame();
    let wait: u64 = pacer.sleep_nanos(elapsed_nanos);
    let updates: Vec<(Position, char)> = screen.flush();
    (wait, updates)
}

/// The waveform grid after one audio frame: wiped every
/// `WAVE_CLEAR_PERIOD` frames, then one mark plotted at the column
/// that cycles with the frame count, at the level's row. A level row
/// outside the sub-grid plots nothing, by the grid's own bounds rule.
pub open spec fn wave_step(g: GridView, frame_count: int, level_row: i32) -> GridView {
    let base = if frame_count % (WAVE_CLEAR_PERIOD as int) == 0 {
        g.cleared()
    } else {
        g
    };
    base.write(Position { col: (frame_count % g.cols) as i32, row: level_row }, WAVE_MARK)
}

/// One decoded audio frame: a loud frame rings the bell latch at the
/// given monotonic instant, and the level is plotted on the waveform
/// sub-grid.
pub fn process_audio_frame(
    wave: &mut Screen,
    ringer: &mut Ringer,
    now_nanos: u64,
    loud: bool,
    level_row: i32,
    frame_count: i32,
)
    requires
        old(wave)@.wf(),
        0 < old(wave)@.cols,
        0 <= frame_count,
        old(ringer).last_time matches Some(t) ==> t <= now_nanos,
    ensures
        final(wave)@ == wave_step(old(wave)@, frame_count as int, level_row),
        final(wave)@.wf(),
        *final(ringer) == (if loud {
            old(ringer).ring_step(now_nanos)
        } else {
            *old(ringer)
        }),
{
    if loud {
        ringer.ring(now_nanos);
    }
    if frame_count % WAVE_CLEAR_PERIOD == 0 {
        wave.clear();
    }
    let col: i32 = frame_count % wave.width();
    wave.write(&Position::new(col, level_row), WAVE_MARK);
}

} // verus!
