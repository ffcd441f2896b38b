use vstd::prelude::*;

use crate::text::{
    contains_str, has_substring, owned, push_str, spec_utf8_lossy, trim, trimmed, utf8_lossy,
};

verus! {

/// The two program rules that let the game through the firewall.
#[derive(Clone, Copy, Debug, PartialEq, Eq, Structural)]
pub enum Direction {
    Inbound,
    Outbound,
}

/// The name of a program rule.
pub open spec fn rule_name(d: Direction) -> Seq<char> {
    match d {
        Direction::Inbound => "Blur LAN Launcher - Inbound"@,
        Direction::Outbound => "Blur LAN Launcher - Outbound"@,
    }
}

/// The word a direction is logged under.
pub open spec fn direction_word(d: Direction) -> Seq<char> {
    match d {
        Direction::Inbound => "Inbound"@,
        Direction::Outbound => "Outbound"@,
    }
}

impl Direction {
    /// The name of this program rule.
    pub fn rule_name(&self) -> (s: &'static str)
        ensures
            s@ == rule_name(*self),
    {
        match self {
            Direction::Inbound => "Blur LAN Launcher - Inbound",
            Direction::Outbound => "Blur LAN Launcher - Outbound",
        }
    }

    /// The word this direction is logged under.
    pub fn word(&self) -> (s: &'static str)
        ensures
            s@ == direction_word(*self),
    {
        match self {
            Direction::Inbound => "Inbound",
            Direction::Outbound => "Outbound",
        }
    }
}

/// The number of ICMPv4 rules that are enabled.
pub const ECHO_RULE_COUNT: u8 = 9;

/// The name of the ICMPv4 rule at position `i`.
pub open spec fn echo_rule_name(i: u8) -> Seq<char> {
    if i == 0 {
        "Core Networking Diagnostics - ICMP Echo Request (ICMPv4-In)"@
    } else if i == 1 {
        "Core Networking Diagnostics - ICMP Echo Request (ICMPv4-Out)"@
    } else if i == 2 {
        "File and Printer Sharing (Echo Request - ICMPv4-In)"@
    } else if i == 3 {
        "File and Printer Sharing (Echo Request - ICMPv4-Out)"@
    } else if i == 4 {
        "File and Printer Sharing (Echo Request - ICMPv4-In)*@{Domain,Private,Public}"@
    } else if i == 5 {
        "File and Printer Sharing (Echo Request - ICMPv4-Out)*@{Domain,Private,Public}"@
    } else if i == 6 {
        "File and Printer Sharing (Restrictive) (Echo Request - ICMPv4-In)"@
    } else if i == 7 {
        "File and Printer Sharing (Restrictive) (Echo Request - ICMPv4-Out)"@
    } else {
        "Core Networking - Destination Unreachable Fragmentation Needed (ICMPv4-In)"@
    }
}

/// The name of the ICMPv4 rule at position `i`.
pub fn echo_rule(i: u8) -> (s: &'static str)
    ensures
        s@ == echo_rule_name(i),
{
    if i == 0 {
        "Core Networking Diagnostics - ICMP Echo Request (ICMPv4-In)"
    } else if i == 1 {
        "Core Networking Diagnostics - ICMP Echo Request (ICMPv4-Out)"
    } else if i == 2 {
        "File and Printer Sharing (Echo Request - ICMPv4-In)"
    } else if i == 3 {
        "File and Printer Sharing (Echo Request - ICMPv4-Out)"
    } else if i == 4 {
        "File and Printer Sharing (Echo Request - ICMPv4-In)*@{Domain,Private,Public}"
    } else if i == 5 {
        "File and Printer Sharing (Echo Request - ICMPv4-Out)*@{Domain,Private,Public}"
    } else if i == 6 {
        "File and Printer Sharing (Restrictive) (Echo Request - ICMPv4-In)"
    } else if i == 7 {
        "File and Printer Sharing (Restrictive) (Echo Request - ICMPv4-Out)"
    } else {
        "Core Networking - Destination Unreachable Fragmentation Needed (ICMPv4-In)"
    }
}

/// A `netsh` command of the firewall check.
#[derive(Clone, Copy, Debug, PartialEq, Eq, Structural)]
pub enum FwCommand {
    /// Show the program rule.
    ShowRule(Direction),
    /// Add the program rule: allow `Blur.exe`, any protocol.
    AddRule(Direction),
    /// Enable the ICMPv4 rule at this position.
    EnableEcho(u8),
}

/// The arguments given to `netsh` for a command.
pub open spec fn command_args(c: FwCommand) -> Seq<Seq<char>> {
    match c {
        FwCommand::ShowRule(d) => seq![
            "advfirewall"@,
            "firewall"@,
            "show"@,
            "rule"@,
            "name="@ + rule_name(d),
        ],
        FwCommand::AddRule(d) => seq![
            "advfirewall"@,
            "firewall"@,
            "add"@,
            "rule"@,
            "name="@ + rule_name(d),
            match d {
                Direction::Inbound => "dir=in"@,
                Direction::Outbound => "dir=out"@,
            },
            "action=allow"@,
            "enable=yes"@,
            "program=Blur.exe"@,
            "protocol=any"@,
        ],
        FwCommand::EnableEcho(i) => seq![
            "advfirewall"@,
            "firewall"@,
            "set"@,
            "rule"@,
            "name="@ + echo_rule_name(i),
            "new"@,
            "enable=yes"@,
        ],
    }
}

/// The texts of a list of strings.
pub open spec fn texts(v: Seq<String>) -> Seq<Seq<char>> {
    v.map_values(|s: String| s@)
}

fn push_text(v: &mut Vec<String>, s: &str)
    ensures
        texts(final(v)@) == texts(old(v)@).push(s@),
{
    v.push(owned(s));
    assert(texts(final(v)@) =~= texts(old(v)@).push(s@));
}

fn prefixed(prefix: &str, s: &str) -> (r: String)
    ensures
        r@ == prefix@ + s@,
{
    let mut r = owned(prefix);
    push_str(&mut r, s);
    r
}

/// The arguments given to `netsh` for a command.
pub fn netsh_args(c: FwCommand) -> (args: Vec<String>)
    ensures
        texts(args@) =~= command_args(c),
{
    let mut v: Vec<String> = Vec::new();
    push_text(&mut v, "advfirewall");
    push_text(&mut v, "firewall");
    match c {
        FwCommand::ShowRule(d) => {
            push_text(&mut v, "show");
            push_text(&mut v, "rule");
            let n = prefixed("name=", d.rule_name());
            push_text(&mut v, n.as_str());
        },
        FwCommand::AddRule(d) => {
            push_text(&mut v, "add");
            push_text(&mut v, "rule");
            let n = prefixed("name=", d.rule_name());
            push_text(&mut v, n.as_str());
            match d {
                Direction::Inbound => push_text(&mut v, "dir=in"),
                Direction::Outbound => push_text(&mut v, "dir=out"),
            }
            push_text(&mut v, "action=allow");
            push_text(&mut v, "enable=yes");
            push_text(&mut v, "program=Blur.exe");
            push_text(&mut v, "protocol=any");
        },
        FwCommand::EnableEcho(i) => {
            push_text(&mut v, "set");
            push_text(&mut v, "rule");
            let n = prefixed("name=", echo_rule(i));
            push_text(&mut v, n.as_str());
            push_text(&mut v, "new");
            push_text(&mut v, "enable=yes");
        },
    }
    v
}


/// A program rule is added in the direction it is named for, and it is the rule that
/// is shown: the inbound rule "Blur LAN Launcher - Inbound" is added with `dir=in`, the
/// outbound rule "Blur LAN Launcher - Outbound" with `dir=out`, each allowing
/// `Blur.exe`, enabled, for any protocol.
pub proof fn lemma_rule_added_in_its_direction(d: Direction)
    ensures
        command_args(FwCommand::AddRule(d)).len() == 10,
        command_args(FwCommand::AddRule(d))[2] == "add"@,
        command_args(FwCommand::AddRule(d))[4] == command_args(FwCommand::ShowRule(d))[4],
        d == Direction::Inbound ==> command_args(FwCommand::AddRule(d))[4] == "name="@
            + "Blur LAN Launcher - Inbound"@ && command_args(FwCommand::AddRule(d))[5]
            == "dir=in"@,
        d == Direction::Outbound ==> command_args(FwCommand::AddRule(d))[4] == "name="@
            + "Blur LAN Launcher - Outbound"@ && command_args(FwCommand::AddRule(d))[5]
            == "dir=out"@,
        command_args(FwCommand::AddRule(d))[6] == "action=allow"@,
        command_args(FwCommand::AddRule(d))[7] == "enable=yes"@,
        command_args(FwCommand::AddRule(d))[8] == "program=Blur.exe"@,
        command_args(FwCommand::AddRule(d))[9] == "protocol=any"@,
{
}

/// The three entries the firewall check reports.
#[derive(Clone, Copy, Debug, PartialEq, Eq, Structural)]
pub enum FwEntry {
    Rule(Direction),
    Echo,
}

/// The label of a reported entry.
pub open spec fn entry_label(e: FwEntry) -> Seq<char> {
    match e {
        FwEntry::Rule(d) => rule_name(d),
        FwEntry::Echo => "ICMPv4 Rules"@,
    }
}

impl FwEntry {
    /// The label of this entry.
    pub fn label(&self) -> (s: &'static str)
        ensures
            s@ == entry_label(*self),
    {
        match self {
            FwEntry::Rule(d) => d.rule_name(),
            FwEntry::Echo => "ICMPv4 Rules",
        }
    }
}

/// The status an entry is reported with.
#[derive(Clone, Copy, Debug, PartialEq, Eq, Structural)]
pub enum FwStatus {
    Checking,
    Present,
    Creating,
    Created,
    Failed,
}

/// The word of a status.
pub open spec fn fw_status_word(s: FwStatus) -> Seq<char> {
    match s {
        FwStatus::Checking => "checking"@,
        FwStatus::Present => "ok"@,
        FwStatus::Creating => "creating"@,
        FwStatus::Created => "created"@,
        FwStatus::Failed => "failed"@,
    }
}

impl FwStatus {
    /// The word of this status.
    pub fn word(&self) -> (s: &'static str)
        ensures
            s@ == fw_status_word(*self),
    {
        match self {
            FwStatus::Checking => "checking",
            FwStatus::Present => "ok",
            FwStatus::Creating => "creating",
            FwStatus::Created => "created",
            FwStatus::Failed => "failed",
        }
    }
}

/// What the firewall check tells the user.
#[derive(Debug)]
pub enum FwNotice {
    /// A line of the log.
    Log(String),
    /// An entry and its new status.
    Entry(FwEntry, FwStatus),
    /// The check is complete.
    Done,
}

/// A notice as the contracts see it.
pub enum FwNoticeView {
    Log(Seq<char>),
    Entry(FwEntry, FwStatus),
    Done,
}

/// The view of a notice.
pub open spec fn notice_view(n: FwNotice) -> FwNoticeView {
    match n {
        FwNotice::Log(s) => FwNoticeView::Log(s@),
        FwNotice::Entry(e, st) => FwNoticeView::Entry(e, st),
        FwNotice::Done => FwNoticeView::Done,
    }
}

/// The views of a list of notices.
pub open spec fn notices_view(v: Seq<FwNotice>) -> Seq<FwNoticeView> {
    v.map_values(|n: FwNotice| notice_view(n))
}

/// The outside step the firewall check asks for.
#[derive(Clone, Copy, Debug, PartialEq, Eq, Structural)]
pub enum FwRequest {
    /// Wait this many milliseconds, then report `Resumed`.
    Pause(u32),
    /// Run `netsh` with the command's arguments and report what it printed.
    Run(FwCommand),
    /// The check is over; its overall verdict is this.
    Finish(bool),
}

/// The report of an outside step.
#[derive(Debug)]
pub enum FwEvent {
    Resumed,
    /// `netsh` ran and printed this on its standard output.
    Output(Vec<u8>),
    /// `netsh` could not be run; the printed error.
    SpawnFailed(String),
}

/// What the firewall check waits for.
#[derive(Clone, Copy, Debug, PartialEq, Eq, Structural)]
pub enum FwPhase {
    InitialPause,
    Showing(Direction),
    Adding(Direction),
    Echo(u8),
    Finished,
}

/// Whether a report answers the step a phase waits for.
pub open spec fn fw_expects(phase: FwPhase, ev: FwEvent) -> bool {
    match phase {
        FwPhase::InitialPause => ev is Resumed,
        FwPhase::Finished => false,
        _ => !(ev is Resumed),
    }
}

/// The state of the firewall check, as the contracts see it.
pub struct FwView {
    pub all_ok: bool,
    pub echo_ok: bool,
    pub phase: FwPhase,
}

/// The phases that can occur.
pub open spec fn fw_phase_ok(phase: FwPhase) -> bool {
    phase matches FwPhase::Echo(i) ==> i < ECHO_RULE_COUNT
}

/// A log line about a program rule: two spaces, the direction, `" rule: "`, and the rest.
pub open spec fn rule_line(d: Direction, rest: Seq<char>) -> Seq<char> {
    "  "@ + direction_word(d) + " rule: "@ + rest
}

/// A log line about an ICMPv4 rule.
pub open spec fn echo_line(i: u8, rest: Seq<char>) -> Seq<char> {
    "  ICMPv4: "@ + echo_rule_name(i) + " -> "@ + rest
}

/// What `netsh` printed, as text.
pub open spec fn printed(bytes: Seq<u8>) -> Seq<char> {
    spec_utf8_lossy(bytes)
}

/// What follows once a program rule is settled.
pub open spec fn after_rule(s: FwView, d: Direction, ns: Seq<FwNoticeView>) -> (
    FwView,
    Seq<FwNoticeView>,
    FwRequest,
) {
    match d {
        Direction::Inbound => (
            FwView { phase: FwPhase::Showing(Direction::Outbound), ..s },
            ns,
            FwRequest::Run(FwCommand::ShowRule(Direction::Outbound)),
        ),
        Direction::Outbound => (
            FwView { phase: FwPhase::Echo(0), ..s },
            ns + seq![
                FwNoticeView::Log("Enabling ICMPv4 rules..."@),
                FwNoticeView::Entry(FwEntry::Echo, FwStatus::Checking),
            ],
            FwRequest::Run(FwCommand::EnableEcho(0)),
        ),
    }
}

/// What follows once an ICMPv4 rule is settled.
pub open spec fn after_echo(s: FwView, i: u8, ns: Seq<FwNoticeView>) -> (
    FwView,
    Seq<FwNoticeView>,
    FwRequest,
) {
    if i + 1 < ECHO_RULE_COUNT {
        (
            FwView { phase: FwPhase::Echo((i + 1) as u8), ..s },
            ns,
            FwRequest::Run(FwCommand::EnableEcho((i + 1) as u8)),
        )
    } else {
        (
            FwView { phase: FwPhase::Finished, ..s },
            ns + seq![
                FwNoticeView::Entry(
                    FwEntry::Echo,
                    if s.echo_ok {
                        FwStatus::Present
                    } else {
                        FwStatus::Failed
                    },
                ),
                FwNoticeView::Log("Firewall check complete."@),
                FwNoticeView::Done,
            ],
            FwRequest::Finish(s.all_ok),
        )
    }
}

/// One step of the firewall check: the state after a report, what it tells the user,
/// and the next outside step.
pub open spec fn fw_next(s: FwView, ev: FwEvent) -> (FwView, Seq<FwNoticeView>, FwRequest) {
    match s.phase {
        FwPhase::InitialPause => (
            FwView { phase: FwPhase::Showing(Direction::Inbound), ..s },
            Seq::empty(),
            FwRequest::Run(FwCommand::ShowRule(Direction::Inbound)),
        ),
        FwPhase::Showing(d) => match ev {
            FwEvent::Output(out) => if has_substring(printed(out@), "Rule Name"@) {
                after_rule(
                    s,
                    d,
                    seq![
                        FwNoticeView::Log(rule_line(d, "OK"@)),
                        FwNoticeView::Entry(FwEntry::Rule(d), FwStatus::Present),
                    ],
                )
            } else {
                (
                    FwView { phase: FwPhase::Adding(d), ..s },
                    seq![
                        FwNoticeView::Log(rule_line(d, "MISSING - creating..."@)),
                        FwNoticeView::Entry(FwEntry::Rule(d), FwStatus::Creating),
                    ],
                    FwRequest::Run(FwCommand::AddRule(d)),
                )
            },
            FwEvent::SpawnFailed(e) => after_rule(
                FwView { all_ok: false, ..s },
                d,
                seq![
                    FwNoticeView::Log(rule_line(d, "FAILED to check - "@ + e@)),
                    FwNoticeView::Entry(FwEntry::Rule(d), FwStatus::Failed),
                ],
            ),
            FwEvent::Resumed => (s, Seq::empty(), FwRequest::Run(FwCommand::ShowRule(d))),
        },
        FwPhase::Adding(d) => match ev {
            FwEvent::Output(out) => if has_substring(printed(out@), "Ok"@) {
                after_rule(
                    s,
                    d,
                    seq![
                        FwNoticeView::Log(rule_line(d, "CREATED"@)),
                        FwNoticeView::Entry(FwEntry::Rule(d), FwStatus::Created),
                    ],
                )
            } else {
                after_rule(
                    FwView { all_ok: false, ..s },
                    d,
                    seq![
                        FwNoticeView::Log(rule_line(d, "FAILED - "@ + trimmed(printed(out@)))),
                        FwNoticeView::Entry(FwEntry::Rule(d), FwStatus::Failed),
                    ],
                )
            },
            FwEvent::SpawnFailed(e) => after_rule(
                FwView { all_ok: false, ..s },
                d,
                seq![
                    FwNoticeView::Log(rule_line(d, "FAILED to create - "@ + e@)),
                    FwNoticeView::Entry(FwEntry::Rule(d), FwStatus::Failed),
                ],
            ),
            FwEvent::Resumed => (s, Seq::empty(), FwRequest::Run(FwCommand::AddRule(d))),
        },
        FwPhase::Echo(i) => match ev {
            FwEvent::Output(out) => after_echo(
                s,
                i,
                seq![
                    FwNoticeView::Log(
                        echo_line(
                            i,
                            if has_substring(printed(out@), "Ok"@) {
                                "enabled"@
                            } else {
                                "skipped (not found)"@
                            },
                        ),
                    ),
                ],
            ),
            FwEvent::SpawnFailed(e) => after_echo(
                FwView { all_ok: false, echo_ok: false, ..s },
                i,
                seq![FwNoticeView::Log(echo_line(i, "FAILED: "@ + e@))],
            ),
            FwEvent::Resumed => (s, Seq::empty(), FwRequest::Run(FwCommand::EnableEcho(i))),
        },
        FwPhase::Finished => (s, Seq::empty(), FwRequest::Finish(s.all_ok)),
    }
}


/// The notices and the request that one step of the firewall check gives out.
#[derive(Debug)]
pub struct FwOutput {
    pub notices: Vec<FwNotice>,
    pub request: FwRequest,
}

/// The output of a step, and the state after it, agree with a step of the definition.
pub open spec fn fw_gives(after: FwView, out: FwOutput, r: (FwView, Seq<FwNoticeView>, FwRequest)) -> bool {
    &&& after == r.0
    &&& notices_view(out.notices@) =~= r.1
    &&& out.request == r.2
}

/// The firewall check of a LAN session: the inbound and outbound rules for the game
/// are created when missing, then the ICMPv4 echo rules are enabled.
#[derive(Debug)]
pub struct FirewallCheck {
    all_ok: bool,
    echo_ok: bool,
    phase: FwPhase,
}

impl View for FirewallCheck {
    type V = FwView;

    closed spec fn view(&self) -> FwView {
        FwView { all_ok: self.all_ok, echo_ok: self.echo_ok, phase: self.phase }
    }
}

/// What the check tells the user first.
pub open spec fn fw_opening() -> Seq<FwNoticeView> {
    seq![
        FwNoticeView::Log("Checking firewall rules..."@),
        FwNoticeView::Entry(FwEntry::Rule(Direction::Inbound), FwStatus::Checking),
        FwNoticeView::Entry(FwEntry::Rule(Direction::Outbound), FwStatus::Checking),
        FwNoticeView::Entry(FwEntry::Echo, FwStatus::Checking),
    ]
}

fn log_notice(s: String) -> (n: FwNotice)
    ensures
        notice_view(n) == FwNoticeView::Log(s@),
{
    FwNotice::Log(s)
}

fn push_notice(v: &mut Vec<FwNotice>, n: FwNotice)
    ensures
        notices_view(final(v)@) == notices_view(old(v)@).push(notice_view(n)),
{
    let ghost nv = notice_view(n);
    v.push(n);
    assert(notices_view(final(v)@) =~= notices_view(old(v)@).push(nv));
}

fn rule_log(d: Direction, rest: &str) -> (n: FwNotice)
    ensures
        notice_view(n) == FwNoticeView::Log(rule_line(d, rest@)),
{
    let mut s = owned("  ");
    push_str(&mut s, d.word());
    push_str(&mut s, " rule: ");
    push_str(&mut s, rest);
    assert(s@ =~= rule_line(d, rest@));
    FwNotice::Log(s)
}

fn echo_log(i: u8, rest: &str) -> (n: FwNotice)
    ensures
        notice_view(n) == FwNoticeView::Log(echo_line(i, rest@)),
{
    let mut s = owned("  ICMPv4: ");
    push_str(&mut s, echo_rule(i));
    push_str(&mut s, " -> ");
    push_str(&mut s, rest);
    assert(s@ =~= echo_line(i, rest@));
    FwNotice::Log(s)
}

fn two(a: FwNotice, b: FwNotice) -> (v: Vec<FwNotice>)
    ensures
        notices_view(v@) =~= seq![notice_view(a), notice_view(b)],
{
    let mut v: Vec<FwNotice> = Vec::new();
    push_notice(&mut v, a);
    push_notice(&mut v, b);
    v
}

/// Starts the firewall check: the three entries are reported as being checked, then a
/// pause of 400 ms is asked for.
pub fn check_firewall_rules() -> (r: (FirewallCheck, FwOutput))
    ensures
        r.0@ == (FwView { all_ok: true, echo_ok: true, phase: FwPhase::InitialPause }),
        notices_view(r.1.notices@) =~= fw_opening(),
        r.1.request == FwRequest::Pause(400),
{
    let mut v: Vec<FwNotice> = Vec::new();
    push_notice(&mut v, log_notice(owned("Checking firewall rules...")));
    push_notice(&mut v, FwNotice::Entry(FwEntry::Rule(Direction::Inbound), FwStatus::Checking));
    push_notice(&mut v, FwNotice::Entry(FwEntry::Rule(Direction::Outbound), FwStatus::Checking));
    push_notice(&mut v, FwNotice::Entry(FwEntry::Echo, FwStatus::Checking));
    (
        FirewallCheck { all_ok: true, echo_ok: true, phase: FwPhase::InitialPause },
        FwOutput { notices: v, request: FwRequest::Pause(400) },
    )
}

impl FirewallCheck {
    /// The overall verdict so far.
    pub fn all_ok(&self) -> (b: bool)
        ensures
            b == self@.all_ok,
    {
        self.all_ok
    }

    /// The outside step the check waits for.
    pub fn phase(&self) -> (p: FwPhase)
        ensures
            p == self@.phase,
    {
        self.phase
    }

    /// Whether a report answers the step the check waits for.
    pub fn accepts(&self, ev: &FwEvent) -> (b: bool)
        ensures
            b == fw_expects(self@.phase, *ev),
    {
        match self.phase {
            FwPhase::InitialPause => matches!(ev, FwEvent::Resumed),
            FwPhase::Finished => false,
            _ => !matches!(ev, FwEvent::Resumed),
        }
    }

    fn go_after_rule(&mut self, d: Direction, ns: Vec<FwNotice>) -> (o: FwOutput)
        ensures
            fw_gives(final(self)@, o, after_rule(old(self)@, d, notices_view(ns@))),
            fw_phase_ok(final(self)@.phase),
    {
        let mut ns = ns;
        match d {
            Direction::Inbound => {
                self.phase = FwPhase::Showing(Direction::Outbound);
                FwOutput { notices: ns, request: FwRequest::Run(FwCommand::ShowRule(Direction::Outbound)) }
            },
            Direction::Outbound => {
                self.phase = FwPhase::Echo(0);
                push_notice(&mut ns, log_notice(owned("Enabling ICMPv4 rules...")));
                push_notice(&mut ns, FwNotice::Entry(FwEntry::Echo, FwStatus::Checking));
                FwOutput { notices: ns, request: FwRequest::Run(FwCommand::EnableEcho(0)) }
            },
        }
    }

    fn go_after_echo(&mut self, i: u8, ns: Vec<FwNotice>) -> (o: FwOutput)
        requires
            i < ECHO_RULE_COUNT,
        ensures
            fw_gives(final(self)@, o, after_echo(old(self)@, i, notices_view(ns@))),
            fw_phase_ok(final(self)@.phase),
    {
        let mut ns = ns;
        if i + 1 < ECHO_RULE_COUNT {
            self.phase = FwPhase::Echo(i + 1);
            FwOutput { notices: ns, request: FwRequest::Run(FwCommand::EnableEcho(i + 1)) }
        } else {
            self.phase = FwPhase::Finished;
            let st = if self.echo_ok {
                FwStatus::Present
            } else {
                FwStatus::Failed
            };
            push_notice(&mut ns, FwNotice::Entry(FwEntry::Echo, st));
            push_notice(&mut ns, log_notice(owned("Firewall check complete.")));
            push_notice(&mut ns, FwNotice::Done);
            FwOutput { notices: ns, request: FwRequest::Finish(self.all_ok) }
        }
    }

    /// Takes the report of the outside step the check waited for and gives out the
    /// notices and the next outside step, as `fw_next` defines them.
    pub fn step(&mut self, ev: FwEvent) -> (o: FwOutput)
        requires
            fw_phase_ok(old(self)@.phase),
            fw_expects(old(self)@.phase, ev),
        ensures
            fw_phase_ok(final(self)@.phase),
            fw_gives(final(self)@, o, fw_next(old(self)@, ev)),
    {
        match self.phase {
            FwPhase::InitialPause => {
                self.phase = FwPhase::Showing(Direction::Inbound);
                FwOutput {
                    notices: Vec::new(),
                    request: FwRequest::Run(FwCommand::ShowRule(Direction::Inbound)),
                }
            },
            FwPhase::Showing(d) => match ev {
                FwEvent::Output(out) => {
                    let text = utf8_lossy(out.as_slice());
                    if contains_str(text.as_str(), "Rule Name") {
                        let ns = two(
                            rule_log(d, "OK"),
                            FwNotice::Entry(FwEntry::Rule(d), FwStatus::Present),
                        );
                        self.go_after_rule(d, ns)
                    } else {
                        self.phase = FwPhase::Adding(d);
                        let ns = two(
                            rule_log(d, "MISSING - creating..."),
                            FwNotice::Entry(FwEntry::Rule(d), FwStatus::Creating),
                        );
                        FwOutput { notices: ns, request: FwRequest::Run(FwCommand::AddRule(d)) }
                    }
                },
                FwEvent::SpawnFailed(e) => {
                    self.all_ok = false;
                    let rest = prefixed("FAILED to check - ", e.as_str());
                    let ns = two(
                        rule_log(d, rest.as_str()),
                        FwNotice::Entry(FwEntry::Rule(d), FwStatus::Failed),
                    );
                    self.go_after_rule(d, ns)
                },
                FwEvent::Resumed => FwOutput {
                    notices: Vec::new(),
                    request: FwRequest::Run(FwCommand::ShowRule(d)),
                },
            },
            FwPhase::Adding(d) => match ev {
                FwEvent::Output(out) => {
                    let text = utf8_lossy(out.as_slice());
                    if contains_str(text.as_str(), "Ok") {
                        let ns = two(
                            rule_log(d, "CREATED"),
                            FwNotice::Entry(FwEntry::Rule(d), FwStatus::Created),
                        );
                        self.go_after_rule(d, ns)
                    } else {
                        self.all_ok = false;
                        let t = trim(text.as_str());
                        let rest = prefixed("FAILED - ", t.as_str());
                        let ns = two(
                            rule_log(d, rest.as_str()),
                            FwNotice::Entry(FwEntry::Rule(d), FwStatus::Failed),
                        );
                        self.go_after_rule(d, ns)
                    }
                },
                FwEvent::SpawnFailed(e) => {
                    self.all_ok = false;
                    let rest = prefixed("FAILED to create - ", e.as_str());
                    let ns = two(
                        rule_log(d, rest.as_str()),
                        FwNotice::Entry(FwEntry::Rule(d), FwStatus::Failed),
                    );
                    self.go_after_rule(d, ns)
                },
                FwEvent::Resumed => FwOutput {
                    notices: Vec::new(),
                    request: FwRequest::Run(FwCommand::AddRule(d)),
                },
            },
            FwPhase::Echo(i) => match ev {
                FwEvent::Output(out) => {
                    let text = utf8_lossy(out.as_slice());
                    let n = if contains_str(text.as_str(), "Ok") {
                        echo_log(i, "enabled")
                    } else {
                        echo_log(i, "skipped (not found)")
                    };
                    let mut ns: Vec<FwNotice> = Vec::new();
                    push_notice(&mut ns, n);
                    self.go_after_echo(i, ns)
                },
                FwEvent::SpawnFailed(e) => {
                    self.all_ok = false;
                    self.echo_ok = false;
                    let rest = prefixed("FAILED: ", e.as_str());
                    let mut ns: Vec<FwNotice> = Vec::new();
                    push_notice(&mut ns, echo_log(i, rest.as_str()));
                    self.go_after_echo(i, ns)
                },
                FwEvent::Resumed => FwOutput {
                    notices: Vec::new(),
                    request: FwRequest::Run(FwCommand::EnableEcho(i)),
                },
            },
            FwPhase::Finished => FwOutput { notices: Vec::new(), request: FwRequest::Finish(self.all_ok) },
        }
    }
}


/// A program rule is added only when showing it printed no "Rule Name", that is when
/// it does not exist: an existing rule is left as it is.
pub proof fn lemma_rule_added_only_when_missing(s: FwView, ev: FwEvent, d: Direction)
    requires
        fw_expects(s.phase, ev),
        fw_next(s, ev).2 == FwRequest::Run(FwCommand::AddRule(d)),
    ensures
        s.phase == FwPhase::Showing(d),
        ev matches FwEvent::Output(out) && !has_substring(printed(out@), "Rule Name"@),
{
}

/// A program rule that showing does not find is always created: when `netsh` ran and
/// printed no "Rule Name", the rule is reported missing and the command that adds that
/// same rule is asked for.
pub proof fn lemma_missing_rule_is_created(s: FwView, d: Direction, out: Vec<u8>)
    requires
        s.phase == FwPhase::Showing(d),
        !has_substring(printed(out@), "Rule Name"@),
    ensures
        fw_next(s, FwEvent::Output(out)).2 == FwRequest::Run(FwCommand::AddRule(d)),
        fw_next(s, FwEvent::Output(out)).1[1] == FwNoticeView::Entry(
            FwEntry::Rule(d),
            FwStatus::Creating,
        ),
{
}

/// A notice reports an entry as failed.
pub open spec fn is_failed_entry(n: FwNoticeView) -> bool {
    n matches FwNoticeView::Entry(_, FwStatus::Failed)
}

/// Some notice reports an entry as failed.
pub open spec fn reports_entry_failure(ns: Seq<FwNoticeView>) -> bool {
    exists|i: int| 0 <= i < ns.len() && #[trigger] is_failed_entry(ns[i])
}

/// The overall verdict agrees with what was reported: while the check runs it is "no
/// entry reported failed and no echo rule failed so far"; once the check is over it is
/// "no entry reported failed".
pub open spec fn verdict_agrees(s: FwView, past: Seq<FwNoticeView>) -> bool {
    if s.phase == FwPhase::Finished {
        s.all_ok == !reports_entry_failure(past)
    } else {
        &&& s.all_ok == (!reports_entry_failure(past) && s.echo_ok)
        &&& !(s.phase is Echo) ==> s.echo_ok
    }
}

proof fn lemma_failure_concat(a: Seq<FwNoticeView>, b: Seq<FwNoticeView>)
    ensures
        reports_entry_failure(a + b) == (reports_entry_failure(a) || reports_entry_failure(b)),
{
    let ab = a + b;
    if reports_entry_failure(a) {
        let i = choose|i: int| 0 <= i < a.len() && is_failed_entry(a[i]);
        assert(ab[i] == a[i]);
    }
    if reports_entry_failure(b) {
        let i = choose|i: int| 0 <= i < b.len() && is_failed_entry(b[i]);
        assert(ab[a.len() + i] == b[i]);
    }
    if reports_entry_failure(ab) {
        let i = choose|i: int| 0 <= i < ab.len() && is_failed_entry(ab[i]);
        if i < a.len() {
            assert(a[i] == ab[i]);
        } else {
            assert(b[i - a.len()] == ab[i]);
        }
    }
}

/// Each step keeps the overall verdict in agreement with what was reported.
pub proof fn lemma_fw_step_keeps_verdict(s: FwView, past: Seq<FwNoticeView>, ev: FwEvent)
    requires
        fw_phase_ok(s.phase),
        verdict_agrees(s, past),
    ensures
        verdict_agrees(fw_next(s, ev).0, past + fw_next(s, ev).1),
{
    let r = fw_next(s, ev);
    lemma_failure_concat(past, r.1);
    let n = r.1.len();
    if n >= 1 {
        if reports_entry_failure(r.1) {
        } else {
            assert(!(is_failed_entry(r.1[0])));
        }
    }
    if n == 2 {
        assert(reports_entry_failure(r.1) == (is_failed_entry(r.1[0])
            || is_failed_entry(r.1[1])));
    }
    if n == 3 {
        assert(reports_entry_failure(r.1) == (is_failed_entry(r.1[0])
            || is_failed_entry(r.1[1]) || is_failed_entry(r.1[2])));
    }
    if n == 4 {
        assert(reports_entry_failure(r.1) == (is_failed_entry(r.1[0])
            || is_failed_entry(r.1[1]) || is_failed_entry(r.1[2])
            || is_failed_entry(r.1[3])));
    }
}

/// The state reached from `s` by the reports `evs`, and every notice given out on the way.
pub open spec fn fw_run_from(s: FwView, evs: Seq<FwEvent>) -> (FwView, Seq<FwNoticeView>)
    decreases evs.len(),
{
    if evs.len() == 0 {
        (s, Seq::empty())
    } else {
        let r = fw_next(s, evs[0]);
        let t = fw_run_from(r.0, evs.drop_first());
        (t.0, r.1 + t.1)
    }
}

proof fn lemma_fw_run_keeps_verdict(s: FwView, past: Seq<FwNoticeView>, evs: Seq<FwEvent>)
    requires
        fw_phase_ok(s.phase),
        verdict_agrees(s, past),
    ensures
        verdict_agrees(fw_run_from(s, evs).0, past + fw_run_from(s, evs).1),
        fw_phase_ok(fw_run_from(s, evs).0.phase),
    decreases evs.len(),
{
    if evs.len() > 0 {
        let r = fw_next(s, evs[0]);
        lemma_fw_step_keeps_verdict(s, past, evs[0]);
        lemma_fw_step_phase(s, evs[0]);
        lemma_fw_run_keeps_verdict(r.0, past + r.1, evs.drop_first());
        let t = fw_run_from(r.0, evs.drop_first());
        assert(past + r.1 + t.1 =~= past + (r.1 + t.1));
    }
}

proof fn lemma_fw_step_phase(s: FwView, ev: FwEvent)
    requires
        fw_phase_ok(s.phase),
    ensures
        fw_phase_ok(fw_next(s, ev).0.phase),
{
}

/// A firewall check that runs to its end reports `Finish(true)` exactly when no
/// entry (either program rule or the ICMPv4 rules) was reported failed.
pub proof fn lemma_fw_verdict_over_a_run(evs: Seq<FwEvent>)
    ensures
        ({
            let start = FwView { all_ok: true, echo_ok: true, phase: FwPhase::InitialPause };
            let end = fw_run_from(start, evs);
            end.0.phase == FwPhase::Finished ==> end.0.all_ok == !reports_entry_failure(
                fw_opening() + end.1,
            )
        }),
{
    let start = FwView { all_ok: true, echo_ok: true, phase: FwPhase::InitialPause };
    let o = fw_opening();
    assert(!reports_entry_failure(o)) by {
        if reports_entry_failure(o) {
            let i = choose|i: int| 0 <= i < o.len() && is_failed_entry(o[i]);
        }
    }
    lemma_fw_run_keeps_verdict(start, o, evs);
}

/// Every report of a run answers the step that the check waits for at that point.
pub open spec fn fw_accepted(s: FwView, evs: Seq<FwEvent>) -> bool
    decreases evs.len(),
{
    evs.len() == 0 || (fw_expects(s.phase, evs[0]) && fw_accepted(
        fw_next(s, evs[0]).0,
        evs.drop_first(),
    ))
}

/// The positions of the ICMPv4 rules asked to be enabled over a run, in order.
pub open spec fn echo_requests(s: FwView, evs: Seq<FwEvent>) -> Seq<u8>
    decreases evs.len(),
{
    if evs.len() == 0 {
        Seq::empty()
    } else {
        let r = fw_next(s, evs[0]);
        (match r.2 {
            FwRequest::Run(FwCommand::EnableEcho(i)) => seq![i],
            _ => Seq::empty(),
        }) + echo_requests(r.0, evs.drop_first())
    }
}

/// The positions `a, a + 1, ..., ECHO_RULE_COUNT - 1`.
pub open spec fn echo_positions_from(a: int) -> Seq<u8> {
    Seq::new((ECHO_RULE_COUNT - a) as nat, |k: int| (a + k) as u8)
}

proof fn lemma_echo_requests_from(s: FwView, evs: Seq<FwEvent>)
    requires
        fw_phase_ok(s.phase),
        fw_accepted(s, evs),
        fw_run_from(s, evs).0.phase == FwPhase::Finished,
    ensures
        echo_requests(s, evs) == match s.phase {
            FwPhase::Echo(i) => echo_positions_from(i + 1),
            FwPhase::Finished => Seq::<u8>::empty(),
            _ => echo_positions_from(0),
        },
    decreases evs.len(),
{
    if evs.len() == 0 {
        assert(echo_positions_from(ECHO_RULE_COUNT as int) =~= Seq::<u8>::empty());
    } else {
        let r = fw_next(s, evs[0]);
        lemma_fw_step_phase(s, evs[0]);
        lemma_echo_requests_from(r.0, evs.drop_first());
        let rest = echo_requests(r.0, evs.drop_first());
        match s.phase {
            FwPhase::Echo(i) => {
                if i + 1 < ECHO_RULE_COUNT {
                    assert(r.0.phase == FwPhase::Echo((i + 1) as u8));
                    assert(seq![(i + 1) as u8] + echo_positions_from(i + 2) =~= echo_positions_from(
                        i + 1,
                    ));
                } else {
                    assert(r.0.phase == FwPhase::Finished);
                    assert(echo_positions_from(i + 1) =~= Seq::<u8>::empty());
                    assert(Seq::<u8>::empty() + rest =~= rest);
                }
            },
            FwPhase::Showing(Direction::Outbound) | FwPhase::Adding(Direction::Outbound) => {
                if r.0.phase == FwPhase::Echo(0) {
                    assert(seq![0u8] + echo_positions_from(1) =~= echo_positions_from(0));
                } else {
                    assert(Seq::<u8>::empty() + rest =~= rest);
                }
            },
            _ => {
                assert(Seq::<u8>::empty() + rest =~= rest);
            },
        }
    }
}

/// A firewall check that runs to its end asks to enable every ICMPv4 rule exactly once,
/// in order: the positions asked for are `0, 1, ..., ECHO_RULE_COUNT - 1`, whatever the
/// program rules and the `netsh` calls gave.
pub proof fn lemma_every_echo_rule_enabled_in_order(evs: Seq<FwEvent>)
    requires
        fw_accepted(FwView { all_ok: true, echo_ok: true, phase: FwPhase::InitialPause }, evs),
        fw_run_from(FwView { all_ok: true, echo_ok: true, phase: FwPhase::InitialPause }, evs).0.phase
            == FwPhase::Finished,
    ensures
        echo_requests(FwView { all_ok: true, echo_ok: true, phase: FwPhase::InitialPause }, evs)
            == Seq::new(ECHO_RULE_COUNT as nat, |k: int| k as u8),
{
    let start = FwView { all_ok: true, echo_ok: true, phase: FwPhase::InitialPause };
    lemma_echo_requests_from(start, evs);
    assert(echo_positions_from(0) =~= Seq::new(ECHO_RULE_COUNT as nat, |k: int| k as u8));
}

/// A position in the order of the firewall check's phases, counting down to the end.
pub open spec fn fw_rank(phase: FwPhase) -> nat {
    match phase {
        FwPhase::Finished => 0,
        FwPhase::Echo(i) => (9 - i) as nat,
        FwPhase::Adding(Direction::Outbound) => 10,
        FwPhase::Showing(Direction::Outbound) => 11,
        FwPhase::Adding(Direction::Inbound) => 12,
        FwPhase::Showing(Direction::Inbound) => 13,
        FwPhase::InitialPause => 14,
    }
}

/// The firewall check always comes to an end: each report it accepts moves it
/// strictly closer to its finish.
pub proof fn lemma_firewall_check_finishes(s: FwView, ev: FwEvent)
    requires
        fw_phase_ok(s.phase),
        fw_expects(s.phase, ev),
    ensures
        fw_rank(fw_next(s, ev).0.phase) < fw_rank(s.phase),
{
}

} // verus!
