use vstd::prelude::*;

use crate::text::{decimal, owned, push_decimal, push_str};

verus! {

/// The status of a LAN session as the window shows it.
#[derive(Clone, Copy, Debug, PartialEq, Eq, Structural)]
pub enum RunStatus {
    Preparing,
    Disabling,
    Waiting,
    Launching,
    Racing,
    Restoring,
    Idle,
}

/// The word of a session status.
pub open spec fn run_status_word(s: RunStatus) -> Seq<char> {
    match s {
        RunStatus::Preparing => "preparing"@,
        RunStatus::Disabling => "disabling"@,
        RunStatus::Waiting => "waiting"@,
        RunStatus::Launching => "launching"@,
        RunStatus::Racing => "racing"@,
        RunStatus::Restoring => "restoring"@,
        RunStatus::Idle => "idle"@,
    }
}

impl RunStatus {
    /// The word of this status.
    pub fn word(&self) -> (s: &'static str)
        ensures
            s@ == run_status_word(*self),
    {
        match self {
            RunStatus::Preparing => "preparing",
            RunStatus::Disabling => "disabling",
            RunStatus::Waiting => "waiting",
            RunStatus::Launching => "launching",
            RunStatus::Racing => "racing",
            RunStatus::Restoring => "restoring",
            RunStatus::Idle => "idle",
        }
    }
}

/// The steps of a LAN session whose outcome is shown.
#[derive(Clone, Copy, Debug, PartialEq, Eq, Structural)]
pub enum RunStep {
    Files,
    Firewall,
    Discovering,
    Adapters,
    Launch,
}

/// The word of a step.
pub open spec fn run_step_word(s: RunStep) -> Seq<char> {
    match s {
        RunStep::Files => "files"@,
        RunStep::Firewall => "firewall"@,
        RunStep::Discovering => "discovering"@,
        RunStep::Adapters => "adapters"@,
        RunStep::Launch => "launch"@,
    }
}

impl RunStep {
    /// The word of this step.
    pub fn word(&self) -> (s: &'static str)
        ensures
            s@ == run_step_word(*self),
    {
        match self {
            RunStep::Files => "files",
            RunStep::Firewall => "firewall",
            RunStep::Discovering => "discovering",
            RunStep::Adapters => "adapters",
            RunStep::Launch => "launch",
        }
    }
}

/// The word of a step's outcome.
pub open spec fn outcome_word(ok: bool) -> Seq<char> {
    if ok {
        "ok"@
    } else {
        "failed"@
    }
}

/// The word of a step's outcome.
pub fn outcome(ok: bool) -> (s: &'static str)
    ensures
        s@ == outcome_word(ok),
{
    if ok {
        "ok"
    } else {
        "failed"
    }
}

/// The progress of one adapter.
#[derive(Clone, Copy, Debug, PartialEq, Eq, Structural)]
pub enum Progress {
    Processing,
    Done,
    Failed,
}

/// The word of an adapter's progress.
pub open spec fn progress_word(p: Progress) -> Seq<char> {
    match p {
        Progress::Processing => "processing"@,
        Progress::Done => "done"@,
        Progress::Failed => "failed"@,
    }
}

impl Progress {
    /// The word of this progress.
    pub fn word(&self) -> (s: &'static str)
        ensures
            s@ == progress_word(*self),
    {
        match self {
            Progress::Processing => "processing",
            Progress::Done => "done",
            Progress::Failed => "failed",
        }
    }
}

/// What a LAN session tells the window.
#[derive(Debug)]
pub enum RunNotice {
    /// A line of the log.
    Log(String),
    /// The session's status.
    Status(RunStatus),
    /// The outcome of a step (true for "ok").
    Step(RunStep, bool),
    /// The progress of the adapter with this name.
    Adapter(String, Progress),
    /// The adapters the session works on.
    Adapters(Vec<String>),
    /// The session is over.
    Finished,
}

/// A notice as the contracts see it.
pub enum RunNoticeView {
    Log(Seq<char>),
    Status(RunStatus),
    Step(RunStep, bool),
    Adapter(Seq<char>, Progress),
    Adapters(Seq<Seq<char>>),
    Finished,
}

/// The texts of a list of strings.
pub open spec fn names_view(v: Seq<String>) -> Seq<Seq<char>> {
    v.map_values(|s: String| s@)
}

/// The view of a notice.
pub open spec fn run_notice_view(n: RunNotice) -> RunNoticeView {
    match n {
        RunNotice::Log(s) => RunNoticeView::Log(s@),
        RunNotice::Status(s) => RunNoticeView::Status(s),
        RunNotice::Step(s, ok) => RunNoticeView::Step(s, ok),
        RunNotice::Adapter(n, p) => RunNoticeView::Adapter(n@, p),
        RunNotice::Adapters(v) => RunNoticeView::Adapters(names_view(v@)),
        RunNotice::Finished => RunNoticeView::Finished,
    }
}

/// The views of a list of notices.
pub open spec fn run_notices_view(v: Seq<RunNotice>) -> Seq<RunNoticeView> {
    v.map_values(|n: RunNotice| run_notice_view(n))
}

/// The outside step a LAN session asks for.
#[derive(Clone, Copy, Debug, PartialEq, Eq, Structural)]
pub enum RunRequest {
    /// Run the file check, the firewall check and the discovery setup side by side,
    /// then report `Prepared`.
    Prepare,
    /// List the virtual adapters; report `Listed`.
    ListVirtualAdapters,
    /// Disable the adapter at this position of the list; report `Toggled`.
    Disable(usize),
    /// Enable the adapter at this position of the list; report `Toggled`.
    Enable(usize),
    /// Wait this many milliseconds; report `Resumed`.
    Pause(u32),
    /// Start the game in its own folder; report `Launched`.
    Launch,
    /// Wait until the game exits; report `GameExited`.
    WaitForGame,
    /// The session is over.
    Done,
}

/// The report of an outside step.
#[derive(Debug)]
pub enum RunEvent {
    /// The preparation is over; whether the file check succeeded.
    Prepared { files_ok: bool },
    /// The names of the virtual adapters, or the error of the listing.
    Listed(Result<Vec<String>, String>),
    /// What came of disabling or enabling an adapter.
    Toggled(Result<(), String>),
    Resumed,
    /// The game's process id, or the error of its start.
    Launched(Result<u32, String>),
    GameExited,
}

/// Where a LAN session stands.
#[derive(Clone, Copy, Debug, PartialEq, Eq, Structural)]
pub enum RunPhase {
    Preparing,
    Listing,
    Disabling(usize),
    DisablePause(usize),
    Settling,
    Launching,
    Racing,
    Cooling,
    Restoring(usize),
    Over,
}

/// Whether a report answers the step a phase waits for.
pub open spec fn run_expects(phase: RunPhase, ev: RunEvent) -> bool {
    match phase {
        RunPhase::Preparing => ev is Prepared,
        RunPhase::Listing => ev is Listed && (ev matches RunEvent::Listed(Ok(v)) ==> v@.len()
            <= usize::MAX),
        RunPhase::Disabling(_) => ev is Toggled,
        RunPhase::DisablePause(_) => ev is Resumed,
        RunPhase::Settling => ev is Resumed,
        RunPhase::Launching => ev is Launched,
        RunPhase::Racing => ev is GameExited,
        RunPhase::Cooling => ev is Resumed,
        RunPhase::Restoring(_) => ev is Toggled,
        RunPhase::Over => false,
    }
}

/// A LAN session as the contracts see it.
#[verifier::ext_equal]
pub struct RunView {
    pub phase: RunPhase,
    /// The virtual adapters found, once listed.
    pub names: Seq<Seq<char>>,
    /// No adapter failed to be disabled so far.
    pub adapters_ok: bool,
}

/// The positions in the phases lie within the list of adapters.
pub open spec fn run_phase_ok(s: RunView) -> bool {
    &&& s.names.len() <= usize::MAX
    &&& match s.phase {
        RunPhase::Disabling(i) => i < s.names.len(),
        RunPhase::DisablePause(i) => i < s.names.len(),
        RunPhase::Restoring(i) => i < s.names.len(),
        _ => true,
    }
}

/// The view in another phase.
pub open spec fn run_moved(s: RunView, phase: RunPhase) -> RunView {
    RunView { phase, ..s }
}

/// The notices that close a session.
pub open spec fn closing() -> Seq<RunNoticeView> {
    seq![
        RunNoticeView::Log("=== BLUR LAN MODE END ==="@),
        RunNoticeView::Status(RunStatus::Idle),
        RunNoticeView::Finished,
    ]
}

/// The notices that announce work on the adapter at position `i`.
pub open spec fn announce(s: RunView, i: int, verb: Seq<char>) -> Seq<RunNoticeView> {
    seq![
        RunNoticeView::Adapter(s.names[i], Progress::Processing),
        RunNoticeView::Log(verb + ": "@ + s.names[i]),
    ]
}

/// The notices for what came of toggling the adapter at position `i`.
pub open spec fn toggled(s: RunView, i: int, r: Result<(), String>) -> Seq<RunNoticeView> {
    match r {
        Ok(_) => seq![
            RunNoticeView::Log("  -> OK"@),
            RunNoticeView::Adapter(s.names[i], Progress::Done),
        ],
        Err(e) => seq![
            RunNoticeView::Log("  -> failed: "@ + e@),
            RunNoticeView::Adapter(s.names[i], Progress::Failed),
        ],
    }
}

/// What follows once every adapter was asked to be disabled.
pub open spec fn after_disabling(s: RunView, ns: Seq<RunNoticeView>) -> (
    RunView,
    Seq<RunNoticeView>,
    RunRequest,
) {
    (
        run_moved(s, RunPhase::Settling),
        ns + seq![
            RunNoticeView::Step(RunStep::Adapters, s.adapters_ok),
            RunNoticeView::Status(RunStatus::Waiting),
            RunNoticeView::Log("Waiting 5 seconds for network to settle..."@),
        ],
        RunRequest::Pause(5000),
    )
}

/// The log line on how many virtual adapters were found.
pub open spec fn found_line(n: nat) -> Seq<char> {
    if n == 0 {
        "No virtual adapters found."@
    } else {
        "Found "@ + decimal(n) + " virtual adapter(s) to disable."@
    }
}

/// What follows the pause before the adapters are restored.
pub open spec fn start_restoring(s: RunView) -> (RunView, Seq<RunNoticeView>, RunRequest) {
    let head = seq![RunNoticeView::Adapters(s.names), RunNoticeView::Status(RunStatus::Restoring)];
    if s.names.len() == 0 {
        (
            run_moved(s, RunPhase::Over),
            head + seq![RunNoticeView::Log("No adapters to restore."@)] + closing(),
            RunRequest::Done,
        )
    } else {
        (
            run_moved(s, RunPhase::Restoring(0)),
            head + seq![
                RunNoticeView::Log(
                    "Restoring "@ + decimal(s.names.len()) + " adapter(s)..."@,
                ),
            ] + announce(s, 0, "Enabling"@),
            RunRequest::Enable(0),
        )
    }
}

/// One step of a LAN session: the session after a report, what it tells the window,
/// and the next outside step.
pub open spec fn run_next(s: RunView, ev: RunEvent) -> (RunView, Seq<RunNoticeView>, RunRequest) {
    match s.phase {
        RunPhase::Preparing => match ev {
            RunEvent::Prepared { files_ok } => (
                run_moved(s, RunPhase::Listing),
                (if files_ok {
                    Seq::empty()
                } else {
                    seq![RunNoticeView::Log("File check had errors - continuing anyway."@)]
                }) + seq![RunNoticeView::Log("Scanning for virtual adapters to disable..."@)],
                RunRequest::ListVirtualAdapters,
            ),
            _ => (s, Seq::empty(), RunRequest::Prepare),
        },
        RunPhase::Listing => match ev {
            RunEvent::Listed(Err(e)) => (
                run_moved(s, RunPhase::Over),
                seq![
                    RunNoticeView::Log("ERROR: "@ + e@),
                    RunNoticeView::Status(RunStatus::Idle),
                    RunNoticeView::Finished,
                ],
                RunRequest::Done,
            ),
            RunEvent::Listed(Ok(v)) => {
                let t = RunView { names: names_view(v@), ..s };
                let head = seq![
                    RunNoticeView::Log(found_line(v@.len())),
                    RunNoticeView::Adapters(names_view(v@)),
                    RunNoticeView::Status(RunStatus::Disabling),
                ];
                if v@.len() == 0 {
                    after_disabling(t, head)
                } else {
                    (
                        run_moved(t, RunPhase::Disabling(0)),
                        head + announce(t, 0, "Disabling"@),
                        RunRequest::Disable(0),
                    )
                }
            },
            _ => (s, Seq::empty(), RunRequest::ListVirtualAdapters),
        },
        RunPhase::Disabling(i) => match ev {
            RunEvent::Toggled(r) => (
                RunView {
                    phase: RunPhase::DisablePause(i),
                    adapters_ok: s.adapters_ok && r is Ok,
                    ..s
                },
                toggled(s, i as int, r),
                RunRequest::Pause(300),
            ),
            _ => (s, Seq::empty(), RunRequest::Disable(i)),
        },
        RunPhase::DisablePause(i) => if i + 1 < s.names.len() {
            (
                run_moved(s, RunPhase::Disabling((i + 1) as usize)),
                announce(s, i + 1, "Disabling"@),
                RunRequest::Disable((i + 1) as usize),
            )
        } else {
            after_disabling(s, Seq::empty())
        },
        RunPhase::Settling => (
            run_moved(s, RunPhase::Launching),
            seq![
                RunNoticeView::Status(RunStatus::Launching),
                RunNoticeView::Log("Launching Blur..."@),
            ],
            RunRequest::Launch,
        ),
        RunPhase::Launching => match ev {
            RunEvent::Launched(Ok(pid)) => (
                run_moved(s, RunPhase::Racing),
                seq![
                    RunNoticeView::Log("Game PID: "@ + decimal(pid as nat)),
                    RunNoticeView::Step(RunStep::Launch, true),
                    RunNoticeView::Status(RunStatus::Racing),
                    RunNoticeView::Log("Waiting for game to close..."@),
                ],
                RunRequest::WaitForGame,
            ),
            RunEvent::Launched(Err(e)) => (
                run_moved(s, RunPhase::Cooling),
                seq![
                    RunNoticeView::Log("ERROR: Failed to launch game: "@ + e@),
                    RunNoticeView::Step(RunStep::Launch, false),
                    RunNoticeView::Log("Waiting 2 seconds before restoring adapters..."@),
                ],
                RunRequest::Pause(2000),
            ),
            _ => (s, Seq::empty(), RunRequest::Launch),
        },
        RunPhase::Racing => (
            run_moved(s, RunPhase::Cooling),
            seq![
                RunNoticeView::Log("Game process exited."@),
                RunNoticeView::Log("Waiting 2 seconds before restoring adapters..."@),
            ],
            RunRequest::Pause(2000),
        ),
        RunPhase::Cooling => start_restoring(s),
        RunPhase::Restoring(i) => match ev {
            RunEvent::Toggled(r) => if i + 1 < s.names.len() {
                (
                    run_moved(s, RunPhase::Restoring((i + 1) as usize)),
                    toggled(s, i as int, r) + announce(s, i + 1, "Enabling"@),
                    RunRequest::Enable((i + 1) as usize),
                )
            } else {
                (
                    run_moved(s, RunPhase::Over),
                    toggled(s, i as int, r) + seq![RunNoticeView::Log("All adapters restored."@)]
                        + closing(),
                    RunRequest::Done,
                )
            },
            _ => (s, Seq::empty(), RunRequest::Enable(i)),
        },
        RunPhase::Over => (s, Seq::empty(), RunRequest::Done),
    }
}


/// The notices and the request that one step of a session gives out.
#[derive(Debug)]
pub struct RunOutput {
    pub notices: Vec<RunNotice>,
    pub request: RunRequest,
}

/// The output of a step, and the session after it, agree with a step of the definition.
pub open spec fn run_gives(after: RunView, out: RunOutput, r: (RunView, Seq<RunNoticeView>, RunRequest)) -> bool {
    &&& after =~= r.0
    &&& run_notices_view(out.notices@) =~= r.1
    &&& out.request == r.2
}

/// A LAN session: after the preparation, the virtual adapters are disabled one by
/// one, the game is launched and waited for, and every adapter that was listed is
/// enabled again, whatever came of disabling it and of the launch.
#[derive(Debug)]
pub struct LanRun {
    phase: RunPhase,
    names: Vec<String>,
    adapters_ok: bool,
}

impl View for LanRun {
    type V = RunView;

    closed spec fn view(&self) -> RunView {
        RunView { phase: self.phase, names: names_view(self.names@), adapters_ok: self.adapters_ok }
    }
}

fn push_notice(v: &mut Vec<RunNotice>, n: RunNotice)
    ensures
        run_notices_view(final(v)@) == run_notices_view(old(v)@).push(run_notice_view(n)),
{
    let ghost nv = run_notice_view(n);
    v.push(n);
    assert(run_notices_view(final(v)@) =~= run_notices_view(old(v)@).push(nv));
}

fn push_log(v: &mut Vec<RunNotice>, line: &str)
    ensures
        run_notices_view(final(v)@) == run_notices_view(old(v)@).push(RunNoticeView::Log(line@)),
{
    push_notice(v, RunNotice::Log(owned(line)));
}

fn push_log_with(v: &mut Vec<RunNotice>, prefix: &str, rest: &str)
    ensures
        run_notices_view(final(v)@) == run_notices_view(old(v)@).push(
            RunNoticeView::Log(prefix@ + rest@),
        ),
{
    let mut line = owned(prefix);
    push_str(&mut line, rest);
    push_notice(v, RunNotice::Log(line));
}

fn clone_names(v: &Vec<String>) -> (c: Vec<String>)
    ensures
        names_view(c@) == names_view(v@),
{
    let mut c: Vec<String> = Vec::new();
    let n = v.len();
    let mut i: usize = 0;
    while i < n
        invariant
            n == v@.len(),
            i <= n,
            names_view(c@) =~= names_view(v@.take(i as int)),
        decreases n - i,
    {
        c.push(v[i].clone());
        assert(names_view(v@.take(i + 1)) =~= names_view(v@.take(i as int)).push(v@[i as int]@));
        i = i + 1;
    }
    assert(v@.take(n as int) =~= v@);
    c
}

/// Starts a LAN session: the start is logged, the status becomes "preparing", and the
/// preparation is asked for.
pub fn run_sequence() -> (r: (LanRun, RunOutput))
    ensures
        r.0@ =~= (RunView { phase: RunPhase::Preparing, names: Seq::empty(), adapters_ok: true }),
        run_notices_view(r.1.notices@) =~= seq![
            RunNoticeView::Log("=== BLUR LAN MODE START ==="@),
            RunNoticeView::Status(RunStatus::Preparing),
        ],
        r.1.request == RunRequest::Prepare,
{
    let mut ns: Vec<RunNotice> = Vec::new();
    push_log(&mut ns, "=== BLUR LAN MODE START ===");
    push_notice(&mut ns, RunNotice::Status(RunStatus::Preparing));
    let run = LanRun { phase: RunPhase::Preparing, names: Vec::new(), adapters_ok: true };
    assert(names_view(run.names@) =~= Seq::<Seq<char>>::empty());
    (run, RunOutput { notices: ns, request: RunRequest::Prepare })
}

impl LanRun {
    /// The outside step the session waits for.
    pub fn phase(&self) -> (p: RunPhase)
        ensures
            p == self@.phase,
    {
        self.phase
    }

    /// The number of virtual adapters the session works on.
    pub fn adapter_count(&self) -> (n: usize)
        ensures
            n == self@.names.len(),
    {
        self.names.len()
    }

    /// The name of the adapter at a position of the list.
    pub fn adapter(&self, i: usize) -> (name: &str)
        requires
            i < self@.names.len(),
        ensures
            name@ == self@.names[i as int],
    {
        self.names[i].as_str()
    }

    /// Whether a report answers the step the session waits for.
    pub fn accepts(&self, ev: &RunEvent) -> (b: bool)
        ensures
            b == run_expects(self@.phase, *ev),
    {
        match self.phase {
            RunPhase::Preparing => matches!(ev, RunEvent::Prepared { .. }),
            RunPhase::Listing => match ev {
                RunEvent::Listed(Ok(v)) => {
                    let _n = v.len();
                    true
                },
                RunEvent::Listed(Err(_)) => true,
                _ => false,
            },
            RunPhase::Disabling(_) => matches!(ev, RunEvent::Toggled(_)),
            RunPhase::DisablePause(_) => matches!(ev, RunEvent::Resumed),
            RunPhase::Settling => matches!(ev, RunEvent::Resumed),
            RunPhase::Launching => matches!(ev, RunEvent::Launched(_)),
            RunPhase::Racing => matches!(ev, RunEvent::GameExited),
            RunPhase::Cooling => matches!(ev, RunEvent::Resumed),
            RunPhase::Restoring(_) => matches!(ev, RunEvent::Toggled(_)),
            RunPhase::Over => false,
        }
    }

    fn push_announce(&self, ns: &mut Vec<RunNotice>, i: usize, verb: &str)
        requires
            i < self@.names.len(),
        ensures
            run_notices_view(final(ns)@) =~= run_notices_view(old(ns)@) + announce(self@, i as int, verb@),
    {
        push_notice(ns, RunNotice::Adapter(self.names[i].clone(), Progress::Processing));
        let mut line = owned(verb);
        push_str(&mut line, ": ");
        push_str(&mut line, self.names[i].as_str());
        push_notice(ns, RunNotice::Log(line));
    }

    fn push_toggled(&self, ns: &mut Vec<RunNotice>, i: usize, r: Result<(), String>)
        requires
            i < self@.names.len(),
        ensures
            run_notices_view(final(ns)@) =~= run_notices_view(old(ns)@) + toggled(self@, i as int, r),
    {
        match r {
            Ok(_) => {
                push_log(ns, "  -> OK");
                push_notice(ns, RunNotice::Adapter(self.names[i].clone(), Progress::Done));
            },
            Err(e) => {
                push_log_with(ns, "  -> failed: ", e.as_str());
                push_notice(ns, RunNotice::Adapter(self.names[i].clone(), Progress::Failed));
            },
        }
    }

    fn go_after_disabling(&mut self, ns: Vec<RunNotice>) -> (o: RunOutput)
        ensures
            run_gives(final(self)@, o, after_disabling(old(self)@, run_notices_view(ns@))),
    {
        let mut ns = ns;
        self.phase = RunPhase::Settling;
        push_notice(&mut ns, RunNotice::Step(RunStep::Adapters, self.adapters_ok));
        push_notice(&mut ns, RunNotice::Status(RunStatus::Waiting));
        push_log(&mut ns, "Waiting 5 seconds for network to settle...");
        RunOutput { notices: ns, request: RunRequest::Pause(5000) }
    }

    fn push_closing(ns: &mut Vec<RunNotice>)
        ensures
            run_notices_view(final(ns)@) =~= run_notices_view(old(ns)@) + closing(),
    {
        push_log(ns, "=== BLUR LAN MODE END ===");
        push_notice(ns, RunNotice::Status(RunStatus::Idle));
        push_notice(ns, RunNotice::Finished);
    }

    fn go_start_restoring(&mut self) -> (o: RunOutput)
        ensures
            run_gives(final(self)@, o, start_restoring(old(self)@)),
            run_phase_ok(final(self)@),
    {
        let mut ns: Vec<RunNotice> = Vec::new();
        push_notice(&mut ns, RunNotice::Adapters(clone_names(&self.names)));
        push_notice(&mut ns, RunNotice::Status(RunStatus::Restoring));
        if self.names.len() == 0 {
            self.phase = RunPhase::Over;
            push_log(&mut ns, "No adapters to restore.");
            Self::push_closing(&mut ns);
            RunOutput { notices: ns, request: RunRequest::Done }
        } else {
            let mut line = owned("Restoring ");
            push_decimal(&mut line, self.names.len() as u64);
            push_str(&mut line, " adapter(s)...");
            push_notice(&mut ns, RunNotice::Log(line));
            self.push_announce(&mut ns, 0, "Enabling");
            self.phase = RunPhase::Restoring(0);
            RunOutput { notices: ns, request: RunRequest::Enable(0) }
        }
    }

    /// Takes the report of the outside step the session waited for, and gives out the
    /// notices and the next outside step, as `run_next` defines them.
    pub fn step(&mut self, ev: RunEvent) -> (o: RunOutput)
        requires
            run_phase_ok(old(self)@),
            run_expects(old(self)@.phase, ev),
        ensures
            run_phase_ok(final(self)@),
            run_gives(final(self)@, o, run_next(old(self)@, ev)),
    {
        assert(names_view(self.names@).len() == self.names@.len());
        let count = self.names.len();
        match self.phase {
            RunPhase::Preparing => match ev {
                RunEvent::Prepared { files_ok } => {
                    let mut ns: Vec<RunNotice> = Vec::new();
                    if !files_ok {
                        push_log(&mut ns, "File check had errors - continuing anyway.");
                    }
                    push_log(&mut ns, "Scanning for virtual adapters to disable...");
                    self.phase = RunPhase::Listing;
                    RunOutput { notices: ns, request: RunRequest::ListVirtualAdapters }
                },
                _ => RunOutput { notices: Vec::new(), request: RunRequest::Prepare },
            },
            RunPhase::Listing => match ev {
                RunEvent::Listed(Err(e)) => {
                    let mut ns: Vec<RunNotice> = Vec::new();
                    push_log_with(&mut ns, "ERROR: ", e.as_str());
                    push_notice(&mut ns, RunNotice::Status(RunStatus::Idle));
                    push_notice(&mut ns, RunNotice::Finished);
                    self.phase = RunPhase::Over;
                    RunOutput { notices: ns, request: RunRequest::Done }
                },
                RunEvent::Listed(Ok(v)) => {
                    let mut ns: Vec<RunNotice> = Vec::new();
                    if v.len() == 0 {
                        push_log(&mut ns, "No virtual adapters found.");
                    } else {
                        let mut line = owned("Found ");
                        push_decimal(&mut line, v.len() as u64);
                        push_str(&mut line, " virtual adapter(s) to disable.");
                        push_notice(&mut ns, RunNotice::Log(line));
                    }
                    push_notice(&mut ns, RunNotice::Adapters(clone_names(&v)));
                    push_notice(&mut ns, RunNotice::Status(RunStatus::Disabling));
                    self.names = v;
                    if self.names.len() == 0 {
                        self.go_after_disabling(ns)
                    } else {
                        self.push_announce(&mut ns, 0, "Disabling");
                        self.phase = RunPhase::Disabling(0);
                        RunOutput { notices: ns, request: RunRequest::Disable(0) }
                    }
                },
                _ => RunOutput { notices: Vec::new(), request: RunRequest::ListVirtualAdapters },
            },
            RunPhase::Disabling(i) => match ev {
                RunEvent::Toggled(r) => {
                    let ok = r.is_ok();
                    let mut ns: Vec<RunNotice> = Vec::new();
                    self.push_toggled(&mut ns, i, r);
                    self.adapters_ok = self.adapters_ok && ok;
                    self.phase = RunPhase::DisablePause(i);
                    RunOutput { notices: ns, request: RunRequest::Pause(300) }
                },
                _ => RunOutput { notices: Vec::new(), request: RunRequest::Disable(i) },
            },
            RunPhase::DisablePause(i) => {
                if i + 1 < count {
                    let mut ns: Vec<RunNotice> = Vec::new();
                    self.push_announce(&mut ns, i + 1, "Disabling");
                    self.phase = RunPhase::Disabling(i + 1);
                    RunOutput { notices: ns, request: RunRequest::Disable(i + 1) }
                } else {
                    self.go_after_disabling(Vec::new())
                }
            },
            RunPhase::Settling => {
                let mut ns: Vec<RunNotice> = Vec::new();
                push_notice(&mut ns, RunNotice::Status(RunStatus::Launching));
                push_log(&mut ns, "Launching Blur...");
                self.phase = RunPhase::Launching;
                RunOutput { notices: ns, request: RunRequest::Launch }
            },
            RunPhase::Launching => match ev {
                RunEvent::Launched(Ok(pid)) => {
                    let mut ns: Vec<RunNotice> = Vec::new();
                    let mut line = owned("Game PID: ");
                    push_decimal(&mut line, pid as u64);
                    push_notice(&mut ns, RunNotice::Log(line));
                    push_notice(&mut ns, RunNotice::Step(RunStep::Launch, true));
                    push_notice(&mut ns, RunNotice::Status(RunStatus::Racing));
                    push_log(&mut ns, "Waiting for game to close...");
                    self.phase = RunPhase::Racing;
                    RunOutput { notices: ns, request: RunRequest::WaitForGame }
                },
                RunEvent::Launched(Err(e)) => {
                    let mut ns: Vec<RunNotice> = Vec::new();
                    push_log_with(&mut ns, "ERROR: Failed to launch game: ", e.as_str());
                    push_notice(&mut ns, RunNotice::Step(RunStep::Launch, false));
                    push_log(&mut ns, "Waiting 2 seconds before restoring adapters...");
                    self.phase = RunPhase::Cooling;
                    RunOutput { notices: ns, request: RunRequest::Pause(2000) }
                },
                _ => RunOutput { notices: Vec::new(), request: RunRequest::Launch },
            },
            RunPhase::Racing => {
                let mut ns: Vec<RunNotice> = Vec::new();
                push_log(&mut ns, "Game process exited.");
                push_log(&mut ns, "Waiting 2 seconds before restoring adapters...");
                self.phase = RunPhase::Cooling;
                RunOutput { notices: ns, request: RunRequest::Pause(2000) }
            },
            RunPhase::Cooling => self.go_start_restoring(),
            RunPhase::Restoring(i) => match ev {
                RunEvent::Toggled(r) => {
                    let mut ns: Vec<RunNotice> = Vec::new();
                    self.push_toggled(&mut ns, i, r);
                    if i + 1 < count {
                        self.push_announce(&mut ns, i + 1, "Enabling");
                        self.phase = RunPhase::Restoring(i + 1);
                        RunOutput { notices: ns, request: RunRequest::Enable(i + 1) }
                    } else {
                        push_log(&mut ns, "All adapters restored.");
                        Self::push_closing(&mut ns);
                        self.phase = RunPhase::Over;
                        RunOutput { notices: ns, request: RunRequest::Done }
                    }
                },
                _ => RunOutput { notices: Vec::new(), request: RunRequest::Enable(i) },
            },
            RunPhase::Over => RunOutput { notices: Vec::new(), request: RunRequest::Done },
        }
    }
}


/// The positions `0, 1, ..., n - 1` in order.
pub open spec fn positions(n: nat) -> Seq<usize> {
    Seq::new(n, |j: int| j as usize)
}

/// The adapter position a request asks to disable, if any.
pub open spec fn disabled_by(r: RunRequest) -> Seq<usize> {
    match r {
        RunRequest::Disable(i) => seq![i],
        _ => Seq::empty(),
    }
}

/// The adapter position a request asks to enable, if any.
pub open spec fn enabled_by(r: RunRequest) -> Seq<usize> {
    match r {
        RunRequest::Enable(i) => seq![i],
        _ => Seq::empty(),
    }
}

/// Every report answers the step that the session waits for at that point.
pub open spec fn accepted(s: RunView, evs: Seq<RunEvent>) -> bool
    decreases evs.len(),
{
    evs.len() == 0 || (run_expects(s.phase, evs[0]) && accepted(
        run_next(s, evs[0]).0,
        evs.drop_first(),
    ))
}

/// The session reached from `s` by the reports `evs`, with the positions of the adapters
/// asked to be disabled and of those asked to be enabled on the way, in order.
pub open spec fn run_trace(s: RunView, evs: Seq<RunEvent>) -> (RunView, Seq<usize>, Seq<usize>)
    decreases evs.len(),
{
    if evs.len() == 0 {
        (s, Seq::empty(), Seq::empty())
    } else {
        let r = run_next(s, evs[0]);
        let t = run_trace(r.0, evs.drop_first());
        (t.0, disabled_by(r.2) + t.1, enabled_by(r.2) + t.2)
    }
}

/// What has been asked of the adapters agrees with where the session stands: the
/// adapters are disabled in list order, then all of them are enabled in list order.
pub open spec fn toggles_agree(s: RunView, dis: Seq<usize>, en: Seq<usize>) -> bool {
    &&& run_phase_ok(s)
    &&& match s.phase {
        RunPhase::Preparing | RunPhase::Listing => dis.len() == 0 && en.len() == 0 && s.names.len()
            == 0,
        RunPhase::Disabling(i) | RunPhase::DisablePause(i) => dis =~= positions((i + 1) as nat)
            && en.len() == 0,
        RunPhase::Settling | RunPhase::Launching | RunPhase::Racing | RunPhase::Cooling => dis
            =~= positions(s.names.len()) && en.len() == 0,
        RunPhase::Restoring(i) => dis =~= positions(s.names.len()) && en =~= positions(
            (i + 1) as nat,
        ),
        RunPhase::Over => dis =~= positions(s.names.len()) && en =~= positions(s.names.len()),
    }
}

proof fn lemma_positions_push(n: nat)
    ensures
        positions(n).push(n as usize) =~= positions(n + 1),
        n <= usize::MAX ==> positions(n + 1).last() == n,
{
}

#[verifier::rlimit(50)]
proof fn lemma_step_keeps_toggles(s: RunView, dis: Seq<usize>, en: Seq<usize>, ev: RunEvent)
    requires
        toggles_agree(s, dis, en),
        run_expects(s.phase, ev),
    ensures
        toggles_agree(
            run_next(s, ev).0,
            dis + disabled_by(run_next(s, ev).2),
            en + enabled_by(run_next(s, ev).2),
        ),
{
    let r = run_next(s, ev);
    match s.phase {
        RunPhase::Listing => {
            assert(dis + disabled_by(r.2) =~= disabled_by(r.2));
            assert(en + enabled_by(r.2) =~= enabled_by(r.2));
            match ev {
                RunEvent::Listed(Ok(v)) => {
                    assert(names_view(v@).len() == v@.len());
                    assert(positions(0) =~= Seq::<usize>::empty());
                    assert(positions(1) =~= seq![0usize]);
                    if v@.len() > 0 {
                        assert(r.2 == RunRequest::Disable(0));
                        assert(disabled_by(r.2) =~= seq![0usize]);
                        assert(r.0.phase == RunPhase::Disabling(0));
                    }
                },
                _ => {
                    assert(positions(0) =~= Seq::<usize>::empty());
                },
            }
        },
        RunPhase::Disabling(i) => {
            assert(dis + disabled_by(r.2) =~= dis);
            assert(en + enabled_by(r.2) =~= en);
        },
        RunPhase::DisablePause(i) => {
            lemma_positions_push((i + 1) as nat);
            assert(en + enabled_by(r.2) =~= en);
            if i + 1 < s.names.len() {
            } else {
                assert(dis + disabled_by(r.2) =~= dis);
            }
        },
        RunPhase::Cooling => {
            assert(dis + disabled_by(r.2) =~= dis);
            assert(positions(0) =~= Seq::<usize>::empty());
            assert(positions(1) =~= seq![0usize]);
        },
        RunPhase::Restoring(i) => {
            lemma_positions_push((i + 1) as nat);
            assert(dis + disabled_by(r.2) =~= dis);
        },
        _ => {
            assert(dis + disabled_by(r.2) =~= dis);
            assert(en + enabled_by(r.2) =~= en);
        },
    }
}

proof fn lemma_trace_keeps_toggles(s: RunView, dis: Seq<usize>, en: Seq<usize>, evs: Seq<RunEvent>)
    requires
        toggles_agree(s, dis, en),
        accepted(s, evs),
    ensures
        toggles_agree(
            run_trace(s, evs).0,
            dis + run_trace(s, evs).1,
            en + run_trace(s, evs).2,
        ),
    decreases evs.len(),
{
    if evs.len() == 0 {
        assert(dis + run_trace(s, evs).1 =~= dis);
        assert(en + run_trace(s, evs).2 =~= en);
    } else {
        let r = run_next(s, evs[0]);
        lemma_step_keeps_toggles(s, dis, en, evs[0]);
        lemma_trace_keeps_toggles(
            r.0,
            dis + disabled_by(r.2),
            en + enabled_by(r.2),
            evs.drop_first(),
        );
        let t = run_trace(r.0, evs.drop_first());
        assert(dis + disabled_by(r.2) + t.1 =~= dis + (disabled_by(r.2) + t.1));
        assert(en + enabled_by(r.2) + t.2 =~= en + (enabled_by(r.2) + t.2));
    }
}

/// A LAN session that starts afresh and is over has asked to enable again every adapter
/// it asked to disable, each exactly once and in the same order: the positions disabled
/// and the positions enabled are both `0, 1, ..., n - 1` for the `n` adapters listed.
/// This holds whatever came of each toggle and whether or not the game could be launched.
pub proof fn lemma_every_disabled_adapter_is_restored(evs: Seq<RunEvent>)
    requires
        accepted(
            RunView { phase: RunPhase::Preparing, names: Seq::empty(), adapters_ok: true },
            evs,
        ),
    ensures
        ({
            let t = run_trace(
                RunView { phase: RunPhase::Preparing, names: Seq::empty(), adapters_ok: true },
                evs,
            );
            &&& t.2.len() <= t.1.len()
            &&& forall|k: int| 0 <= k < t.2.len() ==> t.2[k] == t.1[k]
            &&& t.0.phase == RunPhase::Over ==> t.1 == positions(t.0.names.len()) && t.2 == t.1
        }),
{
    let start = RunView { phase: RunPhase::Preparing, names: Seq::empty(), adapters_ok: true };
    lemma_trace_keeps_toggles(start, Seq::empty(), Seq::empty(), evs);
    let t = run_trace(start, evs);
    assert(Seq::<usize>::empty() + t.1 =~= t.1);
    assert(Seq::<usize>::empty() + t.2 =~= t.2);
}

/// Every notice given out over a run.
pub open spec fn run_notices_all(s: RunView, evs: Seq<RunEvent>) -> Seq<RunNoticeView>
    decreases evs.len(),
{
    if evs.len() == 0 {
        Seq::empty()
    } else {
        let r = run_next(s, evs[0]);
        r.1 + run_notices_all(r.0, evs.drop_first())
    }
}

/// Whether each adapter disable reported back over a run went through, in order.
pub open spec fn disable_outcomes(s: RunView, evs: Seq<RunEvent>) -> Seq<bool>
    decreases evs.len(),
{
    if evs.len() == 0 {
        Seq::empty()
    } else {
        let r = run_next(s, evs[0]);
        (if s.phase is Disabling && evs[0] is Toggled {
            seq![evs[0]->Toggled_0 is Ok]
        } else {
            Seq::empty()
        }) + disable_outcomes(r.0, evs.drop_first())
    }
}

/// Every entry is true.
pub open spec fn all_true(v: Seq<bool>) -> bool {
    forall|j: int| 0 <= j < v.len() ==> v[j]
}

/// No notice reports the outcome of the adapters step.
pub open spec fn no_adapters_outcome(ns: Seq<RunNoticeView>) -> bool {
    forall|k: int| 0 <= k < ns.len() ==> !(#[trigger] ns[k] matches RunNoticeView::Step(RunStep::Adapters, _))
}

/// Every notice that reports the outcome of the adapters step reports `b`.
pub open spec fn adapters_outcomes_are(ns: Seq<RunNoticeView>, b: bool) -> bool {
    forall|k: int|
        0 <= k < ns.len() ==> (#[trigger] ns[k] matches RunNoticeView::Step(RunStep::Adapters, x)
            ==> x == b)
}

/// The phases after the adapters were disabled.
pub open spec fn past_disabling(p: RunPhase) -> bool {
    ||| p is Settling
    ||| p is Launching
    ||| p is Racing
    ||| p is Cooling
    ||| p is Restoring
    ||| p is Over
}

proof fn lemma_no_outcome_past_disabling(s: RunView, evs: Seq<RunEvent>)
    requires
        past_disabling(s.phase),
    ensures
        disable_outcomes(s, evs).len() == 0,
        no_adapters_outcome(run_notices_all(s, evs)),
    decreases evs.len(),
{
    if evs.len() > 0 {
        let r = run_next(s, evs[0]);
        lemma_no_outcome_past_disabling(r.0, evs.drop_first());
        let t = run_notices_all(r.0, evs.drop_first());
        assert(no_adapters_outcome(r.1));
        assert forall|k: int| 0 <= k < r.1.len() + t.len() implies !(#[trigger] (r.1 + t)[k] matches RunNoticeView::Step(
            RunStep::Adapters,
            _,
        )) by {
            if k >= r.1.len() {
                assert((r.1 + t)[k] == t[k - r.1.len()]);
            }
        }
        assert(Seq::<bool>::empty() + disable_outcomes(r.0, evs.drop_first()) =~= Seq::<bool>::empty());
    }
}

proof fn lemma_concat_outcomes(a: Seq<RunNoticeView>, t: Seq<RunNoticeView>, b: bool)
    requires
        adapters_outcomes_are(a, b),
        adapters_outcomes_are(t, b),
    ensures
        adapters_outcomes_are(a + t, b),
{
    assert forall|k: int| 0 <= k < (a + t).len() implies (#[trigger] (a + t)[k] matches RunNoticeView::Step(
        RunStep::Adapters,
        x,
    ) ==> x == b) by {
        if k < a.len() {
            assert((a + t)[k] == a[k]);
        } else {
            assert((a + t)[k] == t[k - a.len()]);
        }
    }
}

#[verifier::rlimit(50)]
proof fn lemma_adapters_outcome_from(s: RunView, evs: Seq<RunEvent>)
    ensures
        adapters_outcomes_are(
            run_notices_all(s, evs),
            s.adapters_ok && all_true(disable_outcomes(s, evs)),
        ),
    decreases evs.len(),
{
    if evs.len() > 0 {
        let ev = evs[0];
        let rest = evs.drop_first();
        let r = run_next(s, ev);
        let t = run_notices_all(r.0, rest);
        let d = disable_outcomes(r.0, rest);
        let here: Seq<bool> = if s.phase is Disabling && ev is Toggled {
            seq![ev->Toggled_0 is Ok]
        } else {
            Seq::empty()
        };
        let b = s.adapters_ok && all_true(here + d);
        if past_disabling(r.0.phase) {
            lemma_no_outcome_past_disabling(r.0, rest);
            assert(adapters_outcomes_are(t, b));
        } else {
            lemma_adapters_outcome_from(r.0, rest);
            assert(r.0.adapters_ok == (s.adapters_ok && all_true(here))) by {
                if here.len() == 1 {
                    assert(all_true(here) == here[0]);
                }
            }
            assert(all_true(here + d) == (all_true(here) && all_true(d))) by {
                if all_true(here) && all_true(d) {
                    assert forall|j: int| 0 <= j < (here + d).len() implies (here + d)[j] by {
                        if j < here.len() {
                            assert((here + d)[j] == here[j]);
                        } else {
                            assert((here + d)[j] == d[j - here.len()]);
                        }
                    }
                }
                if all_true(here + d) {
                    assert forall|j: int| 0 <= j < here.len() implies here[j] by {
                        assert((here + d)[j] == here[j]);
                    }
                    assert forall|j: int| 0 <= j < d.len() implies d[j] by {
                        assert((here + d)[here.len() + j] == d[j]);
                    }
                }
            }
            assert(adapters_outcomes_are(t, b));
        }
        assert(adapters_outcomes_are(r.1, b)) by {
            if past_disabling(r.0.phase) {
                assert(here.len() == 0);
                assert(d.len() == 0);
                assert(here + d =~= Seq::<bool>::empty());
            }
        }
        lemma_concat_outcomes(r.1, t, b);
    }
}

/// The adapters step is reported failed exactly when some adapter could not be
/// disabled: over any run of a session that starts afresh, every report of the
/// adapters step's outcome says `true` exactly when every disable of an adapter
/// reported back success, so a single failed disable anywhere in the list makes it
/// `false`.
pub proof fn lemma_adapters_step_reports_every_disable(evs: Seq<RunEvent>)
    ensures
        ({
            let start = RunView {
                phase: RunPhase::Preparing,
                names: Seq::empty(),
                adapters_ok: true,
            };
            let ns = run_notices_all(start, evs);
            forall|k: int|
                0 <= k < ns.len() ==> (#[trigger] ns[k] matches RunNoticeView::Step(
                    RunStep::Adapters,
                    b,
                ) ==> (b <==> forall|j: int|
                    0 <= j < disable_outcomes(start, evs).len() ==> disable_outcomes(start, evs)[j]))
        }),
{
    let start = RunView { phase: RunPhase::Preparing, names: Seq::empty(), adapters_ok: true };
    lemma_adapters_outcome_from(start, evs);
}

/// Once the adapters are listed, the list stays as it is for the rest of the session.
pub proof fn lemma_listed_adapters_stay(s: RunView, ev: RunEvent)
    requires
        s.phase != RunPhase::Listing,
    ensures
        run_next(s, ev).0.names == s.names,
{
}

/// An upper bound on the number of steps a session still takes once its adapters are
/// listed.
pub open spec fn run_rank(s: RunView) -> nat {
    let n = s.names.len();
    match s.phase {
        RunPhase::Over => 0,
        RunPhase::Restoring(i) => (n - i) as nat,
        RunPhase::Cooling => n + 1,
        RunPhase::Racing => n + 2,
        RunPhase::Launching => n + 3,
        RunPhase::Settling => n + 4,
        RunPhase::DisablePause(i) => (n + 5 + 2 * (n - 1 - i)) as nat,
        RunPhase::Disabling(i) => (n + 6 + 2 * (n - 1 - i)) as nat,
        RunPhase::Listing => 0,
        RunPhase::Preparing => 0,
    }
}

/// Once its adapters are listed, a session always comes to an end: each report it
/// accepts moves it strictly closer to the end.
pub proof fn lemma_session_finishes(s: RunView, ev: RunEvent)
    requires
        run_phase_ok(s),
        run_expects(s.phase, ev),
        s.phase != RunPhase::Preparing,
        s.phase != RunPhase::Listing,
    ensures
        run_rank(run_next(s, ev).0) < run_rank(s),
{
    let r = run_next(s, ev);
    let n = s.names.len();
    assert(r.0.names == s.names);
    match s.phase {
        RunPhase::DisablePause(i) => {
            if i + 1 < n {
                assert(r.0.phase == RunPhase::Disabling((i + 1) as usize));
            } else {
                assert(r.0.phase == RunPhase::Settling);
            }
        },
        RunPhase::Disabling(i) => {
            assert(r.0.phase == RunPhase::DisablePause(i));
        },
        RunPhase::Restoring(i) => {
            if i + 1 < n {
                assert(r.0.phase == RunPhase::Restoring((i + 1) as usize));
            } else {
                assert(r.0.phase == RunPhase::Over);
            }
        },
        RunPhase::Cooling => {
            if n == 0 {
                assert(r.0.phase == RunPhase::Over);
            } else {
                assert(r.0.phase == RunPhase::Restoring(0));
            }
        },
        _ => {},
    }
}

} // verus!
