use vstd::prelude::*;

use crate::text::owned;

verus! {

/// The launcher's saved settings: the path of `Blur.exe`, and whether the online-fix
/// files were already put in place.
#[derive(Clone, Debug)]
pub struct Config {
    pub game_path: Option<String>,
    pub online_fix_done: bool,
}

/// The text of an optional string.
pub open spec fn opt_text(o: Option<String>) -> Option<Seq<char>> {
    match o {
        Some(s) => Some(s@),
        None => None,
    }
}

impl Default for Config {
    fn default() -> (c: Config)
        ensures
            c.game_path is None,
            !c.online_fix_done,
    {
        Config { game_path: None, online_fix_done: false }
    }
}

impl Config {
    /// The settings saved when the user picks the game: only the path, with the
    /// online-fix flag back to false.
    pub fn with_game_path(path: String) -> (c: Config)
        ensures
            opt_text(c.game_path) == Some(path@),
            !c.online_fix_done,
    {
        Config { game_path: Some(path), online_fix_done: false }
    }

    /// Whether the online-fix files were already put in place.
    pub fn get_online_fix_done(&self) -> (b: bool)
        ensures
            b == self.online_fix_done,
    {
        self.online_fix_done
    }

    /// Records that the online-fix files are in place; says whether that changed the
    /// settings (and so whether they need saving).
    pub fn mark_online_fix_done(&mut self) -> (changed: bool)
        ensures
            final(self).online_fix_done == mark_done(old(self).online_fix_done).0,
            changed == mark_done(old(self).online_fix_done).1,
            opt_text(final(self).game_path) == opt_text(old(self).game_path),
    {
        if !self.online_fix_done {
            self.online_fix_done = true;
            true
        } else {
            false
        }
    }
}

/// What marking the online fix as done does to the flag: the new flag, and whether
/// the settings changed.
pub open spec fn mark_done(done: bool) -> (bool, bool) {
    (true, !done)
}

/// Marking the online fix as done is idempotent: a second mark finds the flag set and
/// changes nothing (so the settings are saved at most once).
pub proof fn lemma_mark_online_fix_done_idempotent(done: bool)
    ensures
        mark_done(mark_done(done).0) == (true, false),
        mark_done(mark_done(done).0).0 == mark_done(done).0,
{
}

/// The saved game path, offered only while the file it names exists.
pub fn get_saved_path(cfg: &Config, path_exists: bool) -> (p: Option<String>)
    ensures
        opt_text(p) == if path_exists {
            opt_text(cfg.game_path)
        } else {
            None
        },
{
    match &cfg.game_path {
        Some(p) => if path_exists {
            Some(p.clone())
        } else {
            None
        },
        None => None,
    }
}

/// Whether a LAN session runs: at most one runs at a time.
#[derive(Debug)]
pub struct SessionLock {
    running: bool,
}

impl View for SessionLock {
    type V = bool;

    closed spec fn view(&self) -> bool {
        self.running
    }
}

/// What a start request does to the lock: it is refused while a session runs, and
/// otherwise marks a session as running. Returns the new state and whether it was accepted.
pub open spec fn lock_start(running: bool) -> (bool, bool) {
    if running {
        (true, false)
    } else {
        (true, true)
    }
}

/// The answer to a start request made while a session runs.
pub open spec fn already_running_message() -> Seq<char> {
    "Already running."@
}

impl SessionLock {
    /// A lock with no session running.
    pub fn new() -> (g: SessionLock)
        ensures
            !g@,
    {
        SessionLock { running: false }
    }

    /// Whether a session runs.
    pub fn is_running(&self) -> (b: bool)
        ensures
            b == self@,
    {
        self.running
    }

    /// Asks to start a session: refused with "Already running." while one runs;
    /// otherwise the lock records a running session.
    pub fn start_lan_mode(&mut self) -> (r: Result<(), String>)
        ensures
            final(self)@ == lock_start(old(self)@).0,
            r is Ok == lock_start(old(self)@).1,
            r matches Err(m) ==> m@ == already_running_message(),
    {
        if self.running {
            Err(owned("Already running."))
        } else {
            self.running = true;
            Ok(())
        }
    }

    /// Records that the running session is over.
    pub fn finish(&mut self)
        ensures
            !final(self)@,
    {
        self.running = false;
    }
}

/// Two start requests with no finish between them: the first is accepted when no
/// session ran, and the second is always refused.
pub proof fn lemma_second_start_refused(running: bool)
    ensures
        !lock_start(lock_start(running).0).1,
        !running ==> lock_start(running).1,
{
}

/// The lock after a sequence of requests made from no session running: `true` stands
/// for a start request, `false` for the end of a session.
pub open spec fn lock_after(ops: Seq<bool>) -> bool
    decreases ops.len(),
{
    if ops.len() == 0 {
        false
    } else if ops.last() {
        lock_start(lock_after(ops.drop_last())).0
    } else {
        false
    }
}

/// The request at position `i` is a start request, and it is accepted.
pub open spec fn start_accepted(ops: Seq<bool>, i: int) -> bool {
    ops[i] && lock_start(lock_after(ops.take(i))).1
}

proof fn lemma_held_until_finish(ops: Seq<bool>, i: int, j: int)
    requires
        0 <= i < j <= ops.len(),
        start_accepted(ops, i),
        forall|k: int| i < k < j ==> #[trigger] ops[k],
    ensures
        lock_after(ops.take(j)),
    decreases j - i,
{
    assert(ops.take(j).drop_last() =~= ops.take(j - 1));
    assert(ops.take(j).last() == ops[j - 1]);
    if j > i + 1 {
        lemma_held_until_finish(ops, i, j - 1);
    }
}

/// Sessions never overlap: over any sequence of start requests and session ends,
/// between two accepted start requests there is always the end of a session.
pub proof fn lemma_sessions_never_overlap(ops: Seq<bool>, i: int, j: int)
    requires
        0 <= i < j < ops.len(),
        start_accepted(ops, i),
        start_accepted(ops, j),
    ensures
        exists|k: int| i < k < j && !ops[k],
{
    if forall|k: int| i < k < j ==> #[trigger] ops[k] {
        lemma_held_until_finish(ops, i, j);
    }
}

/// How far the window keeps from the right edge of the monitor, in pixels.
pub const WINDOW_MARGIN_X_PX: i32 = 16;

/// How far the window keeps from the bottom edge of the monitor, in pixels.
pub const WINDOW_MARGIN_Y_PX: i32 = 50;

/// The coordinate that puts a window of `window` pixels at the far end of a monitor
/// side that starts at `start` and spans `size` pixels, `margin` pixels from the edge
/// (the sizes taken as `i32` as `as i32` does).
pub open spec fn far_edge(start: i32, size: u32, window: u32, margin: i32) -> int {
    start + (size as i32) - (window as i32) - margin
}

/// The sums on the way to a far-edge coordinate stay within `i32`.
pub open spec fn far_edge_fits(start: i32, size: u32, window: u32, margin: i32) -> bool {
    &&& i32::MIN <= start + (size as i32) <= i32::MAX
    &&& i32::MIN <= start + (size as i32) - (window as i32) <= i32::MAX
    &&& i32::MIN <= far_edge(start, size, window, margin) <= i32::MAX
}

/// A whole number taken into `i32` by wrapping around, as two's-complement arithmetic
/// that overflows does: the `i32` value equal to it modulo 2^32.
pub open spec fn wrap_i32(v: int) -> int {
    let r = v % 0x1_0000_0000;
    if r > i32::MAX {
        r - 0x1_0000_0000
    } else {
        r
    }
}

proof fn lemma_wrap_i32(w: i32, v: int)
    requires
        w - v == 0 || w - v == 0x1_0000_0000 || w - v == -0x1_0000_0000 || w - v == 0x2_0000_0000
            || w - v == -0x2_0000_0000 || w - v == 0x3_0000_0000 || w - v == -0x3_0000_0000,
    ensures
        wrap_i32(v) == w,
{
    assert(wrap_i32(v) == w) by (nonlinear_arith)
        requires
            w - v == 0 || w - v == 0x1_0000_0000 || w - v == -0x1_0000_0000 || w - v
                == 0x2_0000_0000 || w - v == -0x2_0000_0000 || w - v == 0x3_0000_0000 || w - v
                == -0x3_0000_0000,
            i32::MIN <= w <= i32::MAX,
    {
    }
}

/// The far-edge coordinate as the window code computes it in `i32` arithmetic that
/// wraps on overflow.
fn far_edge_coordinate(start: i32, size: u32, window: u32, margin: i32) -> (c: i32)
    ensures
        c == wrap_i32(far_edge(start, size, window, margin)),
        far_edge_fits(start, size, window, margin) ==> c == far_edge(start, size, window, margin),
{
    let c = start.wrapping_add(size as i32).wrapping_sub(window as i32).wrapping_sub(margin);
    proof {
        lemma_wrap_i32(c, far_edge(start, size, window, margin));
    }
    c
}

/// The position of the window at the bottom-right corner of the monitor, 16 pixels from
/// its right edge and 50 pixels from its bottom edge. Where the sums stay within `i32`
/// it is exact; otherwise each coordinate wraps around, as the optimised build's
/// arithmetic does.
pub fn position_window_bottom_right(
    monitor_x: i32,
    monitor_y: i32,
    monitor_width: u32,
    monitor_height: u32,
    window_width: u32,
    window_height: u32,
) -> (p: (i32, i32))
    ensures
        p.0 == wrap_i32(far_edge(monitor_x, monitor_width, window_width, WINDOW_MARGIN_X_PX)),
        p.1 == wrap_i32(far_edge(monitor_y, monitor_height, window_height, WINDOW_MARGIN_Y_PX)),
        far_edge_fits(monitor_x, monitor_width, window_width, WINDOW_MARGIN_X_PX) ==> p.0
            == far_edge(monitor_x, monitor_width, window_width, WINDOW_MARGIN_X_PX),
        far_edge_fits(monitor_y, monitor_height, window_height, WINDOW_MARGIN_Y_PX) ==> p.1
            == far_edge(monitor_y, monitor_height, window_height, WINDOW_MARGIN_Y_PX),
{
    let x = far_edge_coordinate(monitor_x, monitor_width, window_width, WINDOW_MARGIN_X_PX);
    let y = far_edge_coordinate(monitor_y, monitor_height, window_height, WINDOW_MARGIN_Y_PX);
    (x, y)
}

/// What `Path::parent` gives for a path, as text: the path without its last
/// component, or `None` for a root or empty path.
pub uninterp spec fn spec_path_parent(path: Seq<char>) -> Option<Seq<char>>;

/// Calls `Path::parent` on the path and takes the parent as text (a parent of a path
/// given as text is valid text, so the conversion loses nothing); the result is
/// named by `spec_path_parent`, which depends on the path alone.
#[verifier::external_body]
pub(crate) fn path_parent(path: &str) -> (p: Option<String>)
    ensures
        opt_text(p) == spec_path_parent(path@),
{
    std::path::Path::new(path).parent().map(|p| p.to_string_lossy().into_owned())
}

/// The folder the game is started in and checked for the online-fix files: the folder
/// of the game's executable, or the current folder when the path has none.
pub fn game_dir(game_path: &str) -> (d: String)
    ensures
        d@ == match spec_path_parent(game_path@) {
            Some(p) => p,
            None => "."@,
        },
{
    match path_parent(game_path) {
        Some(p) => p,
        None => owned("."),
    }
}

} // verus!
