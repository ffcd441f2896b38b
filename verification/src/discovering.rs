use vstd::prelude::*;

use crate::config::opt_text;
use crate::text::{contains_str, decimal, has_substring, owned, push_decimal, push_str};

verus! {

/// The settings that the discovery setup checks, in the order it checks them.
#[derive(Clone, Copy, Debug, PartialEq, Eq, Structural)]
pub enum Check {
    SmbSigning,
    SmbEncryption,
    FunctionDiscoveryProviderHost,
    FunctionDiscoveryResourcePublication,
    SsdpDiscovery,
    UpnpDeviceHost,
    NetworkDiscovery,
    FileAndPrinterSharing,
    PublicFolderSharing,
    PasswordProtectedSharing,
}

/// The label under which a check is reported.
pub open spec fn check_label(c: Check) -> Seq<char> {
    match c {
        Check::SmbSigning => "SMB Signing"@,
        Check::SmbEncryption => "SMB Encryption"@,
        Check::FunctionDiscoveryProviderHost => "Function Discovery Provider Host"@,
        Check::FunctionDiscoveryResourcePublication => "Function Discovery Resource Publication"@,
        Check::SsdpDiscovery => "SSDP Discovery"@,
        Check::UpnpDeviceHost => "UPnP Device Host"@,
        Check::NetworkDiscovery => "Network Discovery"@,
        Check::FileAndPrinterSharing => "File and Printer Sharing"@,
        Check::PublicFolderSharing => "Public Folder Sharing"@,
        Check::PasswordProtectedSharing => "Password Protected Sharing"@,
    }
}

impl Check {
    /// The label under which this check is reported.
    pub fn label(&self) -> (s: &'static str)
        ensures
            s@ == check_label(*self),
    {
        match self {
            Check::SmbSigning => "SMB Signing",
            Check::SmbEncryption => "SMB Encryption",
            Check::FunctionDiscoveryProviderHost => "Function Discovery Provider Host",
            Check::FunctionDiscoveryResourcePublication => "Function Discovery Resource Publication",
            Check::SsdpDiscovery => "SSDP Discovery",
            Check::UpnpDeviceHost => "UPnP Device Host",
            Check::NetworkDiscovery => "Network Discovery",
            Check::FileAndPrinterSharing => "File and Printer Sharing",
            Check::PublicFolderSharing => "Public Folder Sharing",
            Check::PasswordProtectedSharing => "Password Protected Sharing",
        }
    }
}

/// The status a check is reported with.
#[derive(Clone, Copy, Debug, PartialEq, Eq, Structural)]
pub enum CheckStatus {
    Checking,
    Enabling,
    Enabled,
    Satisfied,
    Failed,
    Starting,
    Started,
}

/// The word under which a status is reported.
pub open spec fn status_word(s: CheckStatus) -> Seq<char> {
    match s {
        CheckStatus::Checking => "checking"@,
        CheckStatus::Enabling => "enabling"@,
        CheckStatus::Enabled => "enabled"@,
        CheckStatus::Satisfied => "ok"@,
        CheckStatus::Failed => "failed"@,
        CheckStatus::Starting => "starting"@,
        CheckStatus::Started => "started"@,
    }
}

impl CheckStatus {
    /// The word under which this status is reported.
    pub fn word(&self) -> (s: &'static str)
        ensures
            s@ == status_word(*self),
    {
        match self {
            CheckStatus::Checking => "checking",
            CheckStatus::Enabling => "enabling",
            CheckStatus::Enabled => "enabled",
            CheckStatus::Satisfied => "ok",
            CheckStatus::Failed => "failed",
            CheckStatus::Starting => "starting",
            CheckStatus::Started => "started",
        }
    }
}

/// One progress report: a check and its new status.
#[derive(Clone, Copy, Debug, PartialEq, Eq, Structural)]
pub struct CheckUpdate {
    pub check: Check,
    pub status: CheckStatus,
}

/// The two SMB server settings kept in the `LanManServer\Parameters` registry key.
#[derive(Clone, Copy, Debug, PartialEq, Eq, Structural)]
pub enum RegFlag {
    /// `EnableSecuritySignature`
    Signing,
    /// `EncryptData`
    Encryption,
}

/// The registry value that holds a flag.
pub open spec fn flag_value_name(f: RegFlag) -> Seq<char> {
    match f {
        RegFlag::Signing => "EnableSecuritySignature"@,
        RegFlag::Encryption => "EncryptData"@,
    }
}

/// The check that reports a flag.
pub open spec fn flag_check(f: RegFlag) -> Check {
    match f {
        RegFlag::Signing => Check::SmbSigning,
        RegFlag::Encryption => Check::SmbEncryption,
    }
}

impl RegFlag {
    /// The check that reports this flag.
    pub fn check(&self) -> (c: Check)
        ensures
            c == flag_check(*self),
    {
        match self {
            RegFlag::Signing => Check::SmbSigning,
            RegFlag::Encryption => Check::SmbEncryption,
        }
    }

    /// The registry value that holds this flag.
    pub fn value_name(&self) -> (s: &'static str)
        ensures
            s@ == flag_value_name(*self),
    {
        match self {
            RegFlag::Signing => "EnableSecuritySignature",
            RegFlag::Encryption => "EncryptData",
        }
    }
}

/// The four discovery services, in the order they are checked.
#[derive(Clone, Copy, Debug, PartialEq, Eq, Structural)]
pub enum Service {
    FdpHost,
    FdResPub,
    SsdpSrv,
    UpnpHost,
}

/// The service name under which the service manager knows a service.
pub open spec fn service_name(s: Service) -> Seq<char> {
    match s {
        Service::FdpHost => "fdphost"@,
        Service::FdResPub => "FDResPub"@,
        Service::SsdpSrv => "SSDPSRV"@,
        Service::UpnpHost => "upnphost"@,
    }
}

/// The check that reports a service.
pub open spec fn service_check(s: Service) -> Check {
    match s {
        Service::FdpHost => Check::FunctionDiscoveryProviderHost,
        Service::FdResPub => Check::FunctionDiscoveryResourcePublication,
        Service::SsdpSrv => Check::SsdpDiscovery,
        Service::UpnpHost => Check::UpnpDeviceHost,
    }
}

/// The service checked after this one, if any.
pub open spec fn service_after(s: Service) -> Option<Service> {
    match s {
        Service::FdpHost => Some(Service::FdResPub),
        Service::FdResPub => Some(Service::SsdpSrv),
        Service::SsdpSrv => Some(Service::UpnpHost),
        Service::UpnpHost => None,
    }
}

impl Service {
    /// The service name under which the service manager knows this service.
    pub fn name(&self) -> (s: &'static str)
        ensures
            s@ == service_name(*self),
    {
        match self {
            Service::FdpHost => "fdphost",
            Service::FdResPub => "FDResPub",
            Service::SsdpSrv => "SSDPSRV",
            Service::UpnpHost => "upnphost",
        }
    }

    /// The check that reports this service.
    pub fn check(&self) -> (c: Check)
        ensures
            c == service_check(*self),
    {
        match self {
            Service::FdpHost => Check::FunctionDiscoveryProviderHost,
            Service::FdResPub => Check::FunctionDiscoveryResourcePublication,
            Service::SsdpSrv => Check::SsdpDiscovery,
            Service::UpnpHost => Check::UpnpDeviceHost,
        }
    }

    /// The service checked after this one, if any.
    pub fn after(&self) -> (n: Option<Service>)
        ensures
            n == service_after(*self),
    {
        match self {
            Service::FdpHost => Some(Service::FdResPub),
            Service::FdResPub => Some(Service::SsdpSrv),
            Service::SsdpSrv => Some(Service::UpnpHost),
            Service::UpnpHost => None,
        }
    }
}

/// The two firewall rule groups that the setup enables.
#[derive(Clone, Copy, Debug, PartialEq, Eq, Structural)]
pub enum RuleGroup {
    NetworkDiscovery,
    FileAndPrinterSharing,
}

/// The name of a firewall rule group.
pub open spec fn group_name(g: RuleGroup) -> Seq<char> {
    match g {
        RuleGroup::NetworkDiscovery => "Network Discovery"@,
        RuleGroup::FileAndPrinterSharing => "File and Printer Sharing"@,
    }
}

/// The check that reports a rule group.
pub open spec fn group_check(g: RuleGroup) -> Check {
    match g {
        RuleGroup::NetworkDiscovery => Check::NetworkDiscovery,
        RuleGroup::FileAndPrinterSharing => Check::FileAndPrinterSharing,
    }
}

impl RuleGroup {
    /// The check that reports this rule group.
    pub fn check(&self) -> (c: Check)
        ensures
            c == group_check(*self),
    {
        match self {
            RuleGroup::NetworkDiscovery => Check::NetworkDiscovery,
            RuleGroup::FileAndPrinterSharing => Check::FileAndPrinterSharing,
        }
    }

    /// The name of this firewall rule group.
    pub fn name(&self) -> (s: &'static str)
        ensures
            s@ == group_name(*self),
    {
        match self {
            RuleGroup::NetworkDiscovery => "Network Discovery",
            RuleGroup::FileAndPrinterSharing => "File and Printer Sharing",
        }
    }
}

/// The service state `SERVICE_STOPPED`.
pub const SERVICE_STOPPED: u32 = 1;

/// The service state `SERVICE_START_PENDING`.
pub const SERVICE_START_PENDING: u32 = 2;

/// The service state `SERVICE_RUNNING`.
pub const SERVICE_RUNNING: u32 = 4;

/// The error `ERROR_SERVICE_ALREADY_RUNNING`.
pub const ERROR_SERVICE_ALREADY_RUNNING: u32 = 1056;

/// The error `ERROR_SERVICE_REQUEST_TIMEOUT`.
pub const ERROR_SERVICE_REQUEST_TIMEOUT: u32 = 1053;

/// The network-management error `NERR_DuplicateShare`.
pub const NERR_DUPLICATE_SHARE: u32 = 2118;

/// How long, in milliseconds, a started service is waited for.
pub const SERVICE_WAIT_MS: u32 = 15000;

/// The pause, in milliseconds, between two looks at a starting service.
pub const SERVICE_POLL_MS: u32 = 500;

/// The message of a failed registry read.
pub open spec fn reg_read_error_text(code: u32, detail: Seq<char>) -> Seq<char> {
    "RegQueryValueExW failed (code "@ + decimal(code as nat) + "): "@ + detail
}

/// The message of a failed registry read, given the error code and the printed status.
pub fn reg_read_error_message(code: u32, detail: &str) -> (m: String)
    ensures
        m@ == reg_read_error_text(code, detail@),
{
    let mut m = owned("RegQueryValueExW failed (code ");
    push_decimal(&mut m, code as u64);
    push_str(&mut m, "): ");
    push_str(&mut m, detail);
    m
}

/// A failed read whose message speaks of error code 2 (the value does not exist):
/// such a value is created rather than reported as failed.
pub open spec fn read_error_is_missing_value(code: u32, detail: Seq<char>) -> bool {
    let m = reg_read_error_text(code, detail);
    has_substring(m, "code 2"@) || has_substring(m, "WIN32_ERROR(2)"@)
}

/// Whether a failed registry read means that the value is missing.
pub fn missing_value(code: u32, detail: &str) -> (b: bool)
    ensures
        b == read_error_is_missing_value(code, detail@),
{
    let m = reg_read_error_message(code, detail);
    contains_str(m.as_str(), "code 2") || contains_str(m.as_str(), "WIN32_ERROR(2)")
}

/// A refused start request that is taken as a success: the service already runs, or
/// the start timed out but may still be under way.
pub open spec fn start_refusal_tolerated(code: u32, message: Seq<char>) -> bool {
    has_substring(message, "already"@) || code == ERROR_SERVICE_ALREADY_RUNNING || code
        == ERROR_SERVICE_REQUEST_TIMEOUT
}

/// Whether a refused start request is taken as a success.
pub fn tolerated_refusal(code: u32, message: &str) -> (b: bool)
    ensures
        b == start_refusal_tolerated(code, message@),
{
    contains_str(message, "already") || code == ERROR_SERVICE_ALREADY_RUNNING || code
        == ERROR_SERVICE_REQUEST_TIMEOUT
}

/// The folder that is shared as "Public": `Users\Public` on the system drive, or on
/// `C:` when the system drive is unknown.
pub open spec fn public_folder_text(system_drive: Option<Seq<char>>) -> Seq<char> {
    match system_drive {
        Some(d) => d + "\\Users\\Public"@,
        None => "C:\\Users\\Public"@,
    }
}

/// The folder that is shared as "Public".
pub fn public_folder_path(system_drive: &Option<String>) -> (p: String)
    ensures
        p@ == public_folder_text(
            match system_drive {
                Some(d) => Some(d@),
                None => None,
            },
        ),
{
    match system_drive {
        Some(d) => {
            let mut p = d.clone();
            push_str(&mut p, "\\Users\\Public");
            p
        },
        None => owned("C:\\Users\\Public"),
    }
}


/// Where the discovery setup stands: which outside step it waits for.
#[derive(Clone, Copy, Debug, PartialEq, Eq, Structural)]
pub enum DiscPhase {
    /// The first pause, after every check was reported as being checked.
    InitialPause,
    /// A flag is being read.
    FlagRead(RegFlag),
    /// A flag is being set to 1.
    FlagWrite(RegFlag),
    /// The service manager is being opened.
    ServiceManagerOpening,
    /// The state of a service is being queried.
    ServiceQuerying(Service),
    /// A service is being asked to start.
    ServiceStarting(Service),
    /// A starting service is being looked at, this many milliseconds after the first look.
    ServicePolling(Service, u32),
    /// The pause between two looks at a starting service.
    ServiceSleeping(Service, u32),
    /// A service is being set to start automatically.
    ServicePersisting(Service),
    /// The service manager is being closed.
    ServiceManagerClosing,
    /// Whether a rule group is enabled is being asked.
    RuleQuerying(RuleGroup),
    /// A rule group is being enabled.
    RuleEnabling(RuleGroup),
    /// The system drive is being read.
    DriveReading,
    /// The public folder is being made to exist.
    FolderEnsuring,
    /// The public folder is being shared.
    ShareAdding,
    /// The existing public share is being deleted and shared anew.
    ShareReplacing,
    /// The `forceguest` value is being read.
    LsaReading,
    /// The `forceguest` value is being set to 0.
    LsaWriting,
    /// The last pause.
    FinalPause,
    /// The setup is over.
    Finished,
}

/// An outside step that the discovery setup asks for.
#[derive(Clone, Copy, Debug, PartialEq, Eq, Structural)]
pub enum DiscRequest {
    /// Wait this many milliseconds, then report `Resumed`.
    Pause(u32),
    /// Read the flag's DWORD value; report `FlagRead`.
    ReadFlag(RegFlag),
    /// Write 1 to the flag's value; report `FlagWritten`.
    WriteFlag(RegFlag),
    /// Open the service manager; report `ServiceManager`.
    OpenServiceManager,
    /// Query the service's state; report `ServiceState`.
    QueryService(Service),
    /// Ask the service to start; report `StartReply`.
    StartService(Service),
    /// Query the state of the starting service; report `ServiceState`.
    PollService(Service),
    /// Set the service to start automatically; report `Acknowledged` whatever came of it.
    SetAutoStart(Service),
    /// Close the service manager; report `Acknowledged`.
    CloseServiceManager,
    /// Ask whether the rule group is enabled; report `RuleGroupState`.
    QueryRuleGroup(RuleGroup),
    /// Enable the rule group for the private and public profiles; report `RuleGroupEnabled`.
    EnableRuleGroup(RuleGroup),
    /// Read the `SystemDrive` environment variable; report `SystemDrive`.
    ReadSystemDrive,
    /// Create the public folder (`share_path`) if it does not exist; report `FolderReady`.
    EnsureFolder,
    /// Share the public folder read-only for everyone; report `ShareAdded`.
    AddShare,
    /// Delete the existing share and add it again; report `ShareReplaced`.
    ReplaceShare,
    /// Read the `forceguest` value of the `Lsa` key; report `ForceGuest`.
    ReadForceGuest,
    /// Write 0 to the `forceguest` value; report `ForceGuestWritten`.
    WriteForceGuest,
    /// The setup is over; its overall verdict is this.
    Finish(bool),
}

/// What came of reading a flag.
#[derive(Debug)]
pub enum FlagReadReport {
    /// The key could not be opened.
    KeyOpenFailed,
    /// The value could not be read: the error code and the printed status.
    ReadFailed { code: u32, detail: String },
    /// The value read.
    Value(u32),
}

/// What came of asking a service to start.
#[derive(Debug)]
pub enum StartReport {
    /// The start request was sent.
    Sent,
    /// The service could not be opened.
    OpenFailed,
    /// The start request was refused: the error code and the printed error.
    Refused { code: u32, message: String },
}

/// What came of sharing the public folder.
#[derive(Debug)]
pub enum ShareReport {
    /// The security descriptor could not be built.
    DescriptorFailed,
    /// The code that the share call returned (0 on success).
    Code(u32),
}

/// What came of reading `forceguest`.
#[derive(Debug)]
pub enum ForceGuestReport {
    /// The key could not be opened.
    KeyOpenFailed,
    /// The key was opened; whether the value could be read, and the value (0 when unread).
    Read { queried: bool, value: u32 },
}

/// The report of an outside step.
#[derive(Debug)]
pub enum DiscEvent {
    Resumed,
    FlagRead(FlagReadReport),
    FlagWritten(bool),
    ServiceManager(bool),
    /// The service's state, or the message of the query that failed.
    ServiceState(Result<u32, String>),
    StartReply(StartReport),
    Acknowledged,
    /// Whether the rule group is enabled, or `None` when that could not be asked.
    RuleGroupState(Option<bool>),
    RuleGroupEnabled(bool),
    SystemDrive(Option<String>),
    FolderReady(bool),
    ShareAdded(ShareReport),
    ShareReplaced(u32),
    ForceGuest(ForceGuestReport),
    ForceGuestWritten(bool),
}

/// Whether a report answers the step that a phase waits for.
pub open spec fn expects(phase: DiscPhase, ev: DiscEvent) -> bool {
    match phase {
        DiscPhase::InitialPause => ev is Resumed,
        DiscPhase::FlagRead(_) => ev is FlagRead,
        DiscPhase::FlagWrite(_) => ev is FlagWritten,
        DiscPhase::ServiceManagerOpening => ev is ServiceManager,
        DiscPhase::ServiceQuerying(_) => ev is ServiceState,
        DiscPhase::ServiceStarting(_) => ev is StartReply,
        DiscPhase::ServicePolling(_, _) => ev is ServiceState,
        DiscPhase::ServiceSleeping(_, _) => ev is Resumed,
        DiscPhase::ServicePersisting(_) => ev is Acknowledged,
        DiscPhase::ServiceManagerClosing => ev is Acknowledged,
        DiscPhase::RuleQuerying(_) => ev is RuleGroupState,
        DiscPhase::RuleEnabling(_) => ev is RuleGroupEnabled,
        DiscPhase::DriveReading => ev is SystemDrive,
        DiscPhase::FolderEnsuring => ev is FolderReady,
        DiscPhase::ShareAdding => ev is ShareAdded,
        DiscPhase::ShareReplacing => ev is ShareReplaced,
        DiscPhase::LsaReading => ev is ForceGuest,
        DiscPhase::LsaWriting => ev is ForceGuestWritten,
        DiscPhase::FinalPause => ev is Resumed,
        DiscPhase::Finished => false,
    }
}

/// The state of the discovery setup, as the contracts see it.
#[verifier::ext_equal]
pub struct DiscView {
    pub persist: bool,
    pub all_ok: bool,
    pub phase: DiscPhase,
    pub share_path: Seq<char>,
}

/// The phases that can occur: a starting service is looked at every
/// `SERVICE_POLL_MS` milliseconds for at most `SERVICE_WAIT_MS` milliseconds.
pub open spec fn phase_ok(phase: DiscPhase) -> bool {
    match phase {
        DiscPhase::ServicePolling(_, e) => e <= SERVICE_WAIT_MS && e % SERVICE_POLL_MS == 0,
        DiscPhase::ServiceSleeping(_, e) => e < SERVICE_WAIT_MS && e % SERVICE_POLL_MS == 0,
        _ => true,
    }
}

/// A report for a check.
pub open spec fn upd(check: Check, status: CheckStatus) -> CheckUpdate {
    CheckUpdate { check, status }
}

/// The state with the overall verdict turned to failure.
pub open spec fn failing(s: DiscView) -> DiscView {
    DiscView { all_ok: false, ..s }
}

/// The state in another phase.
pub open spec fn moved(s: DiscView, phase: DiscPhase) -> DiscView {
    DiscView { phase, ..s }
}

/// What follows once a flag is settled.
pub open spec fn after_flag(s: DiscView, f: RegFlag, ups: Seq<CheckUpdate>) -> (
    DiscView,
    Seq<CheckUpdate>,
    DiscRequest,
) {
    match f {
        RegFlag::Signing => (
            moved(s, DiscPhase::FlagRead(RegFlag::Encryption)),
            ups.push(upd(Check::SmbEncryption, CheckStatus::Checking)),
            DiscRequest::ReadFlag(RegFlag::Encryption),
        ),
        RegFlag::Encryption => (
            moved(s, DiscPhase::ServiceManagerOpening),
            ups,
            DiscRequest::OpenServiceManager,
        ),
    }
}

/// What follows once the next service is due.
pub open spec fn next_service(s: DiscView, sv: Service, ups: Seq<CheckUpdate>) -> (
    DiscView,
    Seq<CheckUpdate>,
    DiscRequest,
) {
    match service_after(sv) {
        Some(n) => (
            moved(s, DiscPhase::ServiceQuerying(n)),
            ups.push(upd(service_check(n), CheckStatus::Checking)),
            DiscRequest::QueryService(n),
        ),
        None => (moved(s, DiscPhase::ServiceManagerClosing), ups, DiscRequest::CloseServiceManager),
    }
}

/// What follows once a service is settled: it is set to start automatically when
/// the setup persists, then the next service is due.
pub open spec fn after_service(s: DiscView, sv: Service, ups: Seq<CheckUpdate>) -> (
    DiscView,
    Seq<CheckUpdate>,
    DiscRequest,
) {
    if s.persist {
        (moved(s, DiscPhase::ServicePersisting(sv)), ups, DiscRequest::SetAutoStart(sv))
    } else {
        next_service(s, sv, ups)
    }
}

/// What follows once a rule group is settled.
pub open spec fn after_group(s: DiscView, g: RuleGroup, ups: Seq<CheckUpdate>) -> (
    DiscView,
    Seq<CheckUpdate>,
    DiscRequest,
) {
    match g {
        RuleGroup::NetworkDiscovery => (
            moved(s, DiscPhase::RuleQuerying(RuleGroup::FileAndPrinterSharing)),
            ups,
            DiscRequest::QueryRuleGroup(RuleGroup::FileAndPrinterSharing),
        ),
        RuleGroup::FileAndPrinterSharing => (
            moved(s, DiscPhase::DriveReading),
            ups.push(upd(Check::PublicFolderSharing, CheckStatus::Checking)),
            DiscRequest::ReadSystemDrive,
        ),
    }
}

/// What follows once the public share is settled.
pub open spec fn after_share(s: DiscView, ups: Seq<CheckUpdate>) -> (
    DiscView,
    Seq<CheckUpdate>,
    DiscRequest,
) {
    (
        moved(s, DiscPhase::LsaReading),
        ups.push(upd(Check::PasswordProtectedSharing, CheckStatus::Checking)),
        DiscRequest::ReadForceGuest,
    )
}

/// What follows once password-protected sharing is settled.
pub open spec fn after_password(s: DiscView, ups: Seq<CheckUpdate>) -> (
    DiscView,
    Seq<CheckUpdate>,
    DiscRequest,
) {
    (moved(s, DiscPhase::FinalPause), ups, DiscRequest::Pause(800))
}

/// The system drive as text.
pub open spec fn drive_view(d: Option<String>) -> Option<Seq<char>> {
    match d {
        Some(x) => Some(x@),
        None => None,
    }
}

/// The wait for a starting service is over once a look at it finds it running, fails,
/// or comes after `SERVICE_WAIT_MS` milliseconds of waiting.
pub open spec fn wait_settled(st: Result<u32, String>, waited: u32) -> bool {
    match st {
        Ok(x) => x == SERVICE_RUNNING || waited >= SERVICE_WAIT_MS,
        Err(_) => true,
    }
}

/// One step of the discovery setup: the state that follows a report, the checks
/// reported in between, and the next outside step.
pub open spec fn disc_next(s: DiscView, ev: DiscEvent) -> (DiscView, Seq<CheckUpdate>, DiscRequest) {
    match s.phase {
        DiscPhase::InitialPause => (
            moved(s, DiscPhase::FlagRead(RegFlag::Signing)),
            seq![upd(Check::SmbSigning, CheckStatus::Checking)],
            DiscRequest::ReadFlag(RegFlag::Signing),
        ),
        DiscPhase::FlagRead(f) => match ev {
            DiscEvent::FlagRead(FlagReadReport::KeyOpenFailed) => after_flag(
                failing(s),
                f,
                seq![upd(flag_check(f), CheckStatus::Failed)],
            ),
            DiscEvent::FlagRead(FlagReadReport::Value(v)) => if v == 0 {
                (
                    moved(s, DiscPhase::FlagWrite(f)),
                    seq![upd(flag_check(f), CheckStatus::Enabling)],
                    DiscRequest::WriteFlag(f),
                )
            } else {
                after_flag(s, f, seq![upd(flag_check(f), CheckStatus::Satisfied)])
            },
            DiscEvent::FlagRead(FlagReadReport::ReadFailed { code, detail }) => if read_error_is_missing_value(code, detail@) {
                (
                    moved(s, DiscPhase::FlagWrite(f)),
                    seq![upd(flag_check(f), CheckStatus::Enabling)],
                    DiscRequest::WriteFlag(f),
                )
            } else {
                after_flag(failing(s), f, seq![upd(flag_check(f), CheckStatus::Failed)])
            },
            _ => (s, Seq::empty(), DiscRequest::ReadFlag(f)),
        },
        DiscPhase::FlagWrite(f) => match ev {
            DiscEvent::FlagWritten(ok) => if ok {
                after_flag(s, f, seq![upd(flag_check(f), CheckStatus::Enabled)])
            } else {
                after_flag(failing(s), f, seq![upd(flag_check(f), CheckStatus::Failed)])
            },
            _ => (s, Seq::empty(), DiscRequest::WriteFlag(f)),
        },
        DiscPhase::ServiceManagerOpening => match ev {
            DiscEvent::ServiceManager(ok) => if ok {
                (
                    moved(s, DiscPhase::ServiceQuerying(Service::FdpHost)),
                    seq![upd(Check::FunctionDiscoveryProviderHost, CheckStatus::Checking)],
                    DiscRequest::QueryService(Service::FdpHost),
                )
            } else {
                (
                    moved(failing(s), DiscPhase::RuleQuerying(RuleGroup::NetworkDiscovery)),
                    seq![
                        upd(Check::FunctionDiscoveryProviderHost, CheckStatus::Failed),
                        upd(Check::FunctionDiscoveryResourcePublication, CheckStatus::Failed),
                        upd(Check::SsdpDiscovery, CheckStatus::Failed),
                        upd(Check::UpnpDeviceHost, CheckStatus::Failed),
                    ],
                    DiscRequest::QueryRuleGroup(RuleGroup::NetworkDiscovery),
                )
            },
            _ => (s, Seq::empty(), DiscRequest::OpenServiceManager),
        },
        DiscPhase::ServiceQuerying(sv) => match ev {
            DiscEvent::ServiceState(Err(_)) => after_service(
                failing(s),
                sv,
                seq![upd(service_check(sv), CheckStatus::Failed)],
            ),
            DiscEvent::ServiceState(Ok(st)) => if st == SERVICE_STOPPED || st
                == SERVICE_START_PENDING {
                (
                    moved(s, DiscPhase::ServiceStarting(sv)),
                    seq![upd(service_check(sv), CheckStatus::Starting)],
                    DiscRequest::StartService(sv),
                )
            } else {
                after_service(s, sv, seq![upd(service_check(sv), CheckStatus::Satisfied)])
            },
            _ => (s, Seq::empty(), DiscRequest::QueryService(sv)),
        },
        DiscPhase::ServiceStarting(sv) => match ev {
            DiscEvent::StartReply(StartReport::Sent) => (
                moved(s, DiscPhase::ServicePolling(sv, 0)),
                Seq::empty(),
                DiscRequest::PollService(sv),
            ),
            DiscEvent::StartReply(StartReport::OpenFailed) => after_service(
                failing(s),
                sv,
                seq![upd(service_check(sv), CheckStatus::Failed)],
            ),
            DiscEvent::StartReply(StartReport::Refused { code, message }) => if start_refusal_tolerated(code, message@) {
                (
                    moved(s, DiscPhase::ServicePolling(sv, 0)),
                    Seq::empty(),
                    DiscRequest::PollService(sv),
                )
            } else {
                after_service(failing(s), sv, seq![upd(service_check(sv), CheckStatus::Failed)])
            },
            _ => (s, Seq::empty(), DiscRequest::StartService(sv)),
        },
        DiscPhase::ServicePolling(sv, e) => match ev {
            DiscEvent::ServiceState(st) => if wait_settled(st, e) {
                after_service(s, sv, seq![upd(service_check(sv), CheckStatus::Started)])
            } else {
                (
                    moved(s, DiscPhase::ServiceSleeping(sv, e)),
                    Seq::empty(),
                    DiscRequest::Pause(SERVICE_POLL_MS),
                )
            },
            _ => (s, Seq::empty(), DiscRequest::PollService(sv)),
        },
        DiscPhase::ServiceSleeping(sv, e) => (
            moved(s, DiscPhase::ServicePolling(sv, (e + SERVICE_POLL_MS) as u32)),
            Seq::empty(),
            DiscRequest::PollService(sv),
        ),
        DiscPhase::ServicePersisting(sv) => next_service(s, sv, Seq::empty()),
        DiscPhase::ServiceManagerClosing => (
            moved(s, DiscPhase::RuleQuerying(RuleGroup::NetworkDiscovery)),
            Seq::empty(),
            DiscRequest::QueryRuleGroup(RuleGroup::NetworkDiscovery),
        ),
        DiscPhase::RuleQuerying(g) => match ev {
            DiscEvent::RuleGroupState(None) => after_group(
                failing(s),
                g,
                seq![upd(group_check(g), CheckStatus::Failed)],
            ),
            DiscEvent::RuleGroupState(Some(true)) => after_group(
                s,
                g,
                seq![upd(group_check(g), CheckStatus::Satisfied)],
            ),
            DiscEvent::RuleGroupState(Some(false)) => (
                moved(s, DiscPhase::RuleEnabling(g)),
                seq![upd(group_check(g), CheckStatus::Enabling)],
                DiscRequest::EnableRuleGroup(g),
            ),
            _ => (s, Seq::empty(), DiscRequest::QueryRuleGroup(g)),
        },
        DiscPhase::RuleEnabling(g) => match ev {
            DiscEvent::RuleGroupEnabled(ok) => if ok {
                after_group(s, g, seq![upd(group_check(g), CheckStatus::Enabled)])
            } else {
                after_group(failing(s), g, seq![upd(group_check(g), CheckStatus::Failed)])
            },
            _ => (s, Seq::empty(), DiscRequest::EnableRuleGroup(g)),
        },
        DiscPhase::DriveReading => match ev {
            DiscEvent::SystemDrive(d) => (
                DiscView {
                    phase: DiscPhase::FolderEnsuring,
                    share_path: public_folder_text(drive_view(d)),
                    ..s
                },
                Seq::empty(),
                DiscRequest::EnsureFolder,
            ),
            _ => (s, Seq::empty(), DiscRequest::ReadSystemDrive),
        },
        DiscPhase::FolderEnsuring => match ev {
            DiscEvent::FolderReady(ok) => if ok {
                (moved(s, DiscPhase::ShareAdding), Seq::empty(), DiscRequest::AddShare)
            } else {
                after_share(failing(s), seq![upd(Check::PublicFolderSharing, CheckStatus::Failed)])
            },
            _ => (s, Seq::empty(), DiscRequest::EnsureFolder),
        },
        DiscPhase::ShareAdding => match ev {
            DiscEvent::ShareAdded(ShareReport::Code(c)) => if c == 0 {
                after_share(s, seq![upd(Check::PublicFolderSharing, CheckStatus::Enabled)])
            } else if c == NERR_DUPLICATE_SHARE {
                (
                    moved(s, DiscPhase::ShareReplacing),
                    seq![upd(Check::PublicFolderSharing, CheckStatus::Enabling)],
                    DiscRequest::ReplaceShare,
                )
            } else {
                after_share(failing(s), seq![upd(Check::PublicFolderSharing, CheckStatus::Failed)])
            },
            DiscEvent::ShareAdded(ShareReport::DescriptorFailed) => after_share(
                failing(s),
                seq![upd(Check::PublicFolderSharing, CheckStatus::Failed)],
            ),
            _ => (s, Seq::empty(), DiscRequest::AddShare),
        },
        DiscPhase::ShareReplacing => match ev {
            DiscEvent::ShareReplaced(c) => if c == 0 {
                after_share(s, seq![upd(Check::PublicFolderSharing, CheckStatus::Enabled)])
            } else {
                after_share(failing(s), seq![upd(Check::PublicFolderSharing, CheckStatus::Failed)])
            },
            _ => (s, Seq::empty(), DiscRequest::ReplaceShare),
        },
        DiscPhase::LsaReading => match ev {
            DiscEvent::ForceGuest(ForceGuestReport::KeyOpenFailed) => after_password(
                failing(s),
                seq![upd(Check::PasswordProtectedSharing, CheckStatus::Failed)],
            ),
            DiscEvent::ForceGuest(ForceGuestReport::Read { queried, value }) => if queried && value
                == 0 {
                after_password(s, seq![upd(Check::PasswordProtectedSharing, CheckStatus::Satisfied)])
            } else {
                (
                    moved(s, DiscPhase::LsaWriting),
                    seq![upd(Check::PasswordProtectedSharing, CheckStatus::Enabling)],
                    DiscRequest::WriteForceGuest,
                )
            },
            _ => (s, Seq::empty(), DiscRequest::ReadForceGuest),
        },
        DiscPhase::LsaWriting => match ev {
            DiscEvent::ForceGuestWritten(ok) => if ok {
                after_password(s, seq![upd(Check::PasswordProtectedSharing, CheckStatus::Enabled)])
            } else {
                after_password(
                    failing(s),
                    seq![upd(Check::PasswordProtectedSharing, CheckStatus::Failed)],
                )
            },
            _ => (s, Seq::empty(), DiscRequest::WriteForceGuest),
        },
        DiscPhase::FinalPause => (moved(s, DiscPhase::Finished), Seq::empty(), DiscRequest::Finish(s.all_ok)),
        DiscPhase::Finished => (s, Seq::empty(), DiscRequest::Finish(s.all_ok)),
    }
}


/// The reports and the request that one step of the setup gives out.
#[derive(Debug)]
pub struct DiscOutput {
    /// The checks to report, in order.
    pub updates: Vec<CheckUpdate>,
    /// The outside step to perform next.
    pub request: DiscRequest,
}

/// The output of a step, and the state after it, agree with a step of the definition.
pub open spec fn gives(after: DiscView, out: DiscOutput, r: (DiscView, Seq<CheckUpdate>, DiscRequest)) -> bool {
    &&& after =~= r.0
    &&& out.updates@ =~= r.1
    &&& out.request == r.2
}

/// The discovery setup of a LAN session: SMB signing and encryption, the discovery
/// services, the two firewall rule groups, the public folder share and
/// password-protected sharing, checked and turned on in this order. It asks for one
/// outside step at a time and decides from the report what to do next.
#[derive(Debug)]
pub struct DiscoveringRun {
    persist: bool,
    all_ok: bool,
    phase: DiscPhase,
    share_path: String,
}

impl View for DiscoveringRun {
    type V = DiscView;

    closed spec fn view(&self) -> DiscView {
        DiscView {
            persist: self.persist,
            all_ok: self.all_ok,
            phase: self.phase,
            share_path: self.share_path@,
        }
    }
}

/// The ten checks reported as being checked, in order.
pub open spec fn all_checking() -> Seq<CheckUpdate> {
    seq![
        upd(Check::SmbSigning, CheckStatus::Checking),
        upd(Check::SmbEncryption, CheckStatus::Checking),
        upd(Check::FunctionDiscoveryProviderHost, CheckStatus::Checking),
        upd(Check::FunctionDiscoveryResourcePublication, CheckStatus::Checking),
        upd(Check::SsdpDiscovery, CheckStatus::Checking),
        upd(Check::UpnpDeviceHost, CheckStatus::Checking),
        upd(Check::NetworkDiscovery, CheckStatus::Checking),
        upd(Check::FileAndPrinterSharing, CheckStatus::Checking),
        upd(Check::PublicFolderSharing, CheckStatus::Checking),
        upd(Check::PasswordProtectedSharing, CheckStatus::Checking),
    ]
}

fn one(c: Check, st: CheckStatus) -> (v: Vec<CheckUpdate>)
    ensures
        v@ == seq![upd(c, st)],
{
    let mut v: Vec<CheckUpdate> = Vec::new();
    v.push(CheckUpdate { check: c, status: st });
    assert(v@ =~= seq![upd(c, st)]);
    v
}

fn output(updates: Vec<CheckUpdate>, request: DiscRequest) -> (o: DiscOutput)
    ensures
        o.updates@ == updates@,
        o.request == request,
{
    DiscOutput { updates, request }
}

/// Starts the discovery setup: every check is reported as being checked, then a
/// pause of 400 ms is asked for. With `persist`, each discovery service is also set
/// to start automatically once it is settled.
pub fn check_and_enable_discovering(persist: bool) -> (r: (DiscoveringRun, DiscOutput))
    ensures
        r.0@ =~= (DiscView {
            persist,
            all_ok: true,
            phase: DiscPhase::InitialPause,
            share_path: Seq::empty(),
        }),
        r.1.updates@ =~= all_checking(),
        r.1.request == DiscRequest::Pause(400),
{
    let mut ups: Vec<CheckUpdate> = Vec::new();
    ups.push(CheckUpdate { check: Check::SmbSigning, status: CheckStatus::Checking });
    ups.push(CheckUpdate { check: Check::SmbEncryption, status: CheckStatus::Checking });
    ups.push(
        CheckUpdate { check: Check::FunctionDiscoveryProviderHost, status: CheckStatus::Checking },
    );
    ups.push(
        CheckUpdate {
            check: Check::FunctionDiscoveryResourcePublication,
            status: CheckStatus::Checking,
        },
    );
    ups.push(CheckUpdate { check: Check::SsdpDiscovery, status: CheckStatus::Checking });
    ups.push(CheckUpdate { check: Check::UpnpDeviceHost, status: CheckStatus::Checking });
    ups.push(CheckUpdate { check: Check::NetworkDiscovery, status: CheckStatus::Checking });
    ups.push(CheckUpdate { check: Check::FileAndPrinterSharing, status: CheckStatus::Checking });
    ups.push(CheckUpdate { check: Check::PublicFolderSharing, status: CheckStatus::Checking });
    ups.push(
        CheckUpdate { check: Check::PasswordProtectedSharing, status: CheckStatus::Checking },
    );
    let run = DiscoveringRun {
        persist,
        all_ok: true,
        phase: DiscPhase::InitialPause,
        share_path: String::new(),
    };
    (run, output(ups, DiscRequest::Pause(400)))
}

impl DiscoveringRun {
    /// Whether the setup persists the start type of the services.
    pub fn persist(&self) -> (b: bool)
        ensures
            b == self@.persist,
    {
        self.persist
    }

    /// The overall verdict so far: no check has failed.
    pub fn all_ok(&self) -> (b: bool)
        ensures
            b == self@.all_ok,
    {
        self.all_ok
    }

    /// The outside step the setup waits for.
    pub fn phase(&self) -> (p: DiscPhase)
        ensures
            p == self@.phase,
    {
        self.phase
    }

    /// The folder to be shared as "Public", once the system drive is known.
    pub fn share_path(&self) -> (p: &str)
        ensures
            p@ == self@.share_path,
    {
        self.share_path.as_str()
    }

    /// Whether a report answers the step that the setup waits for.
    pub fn accepts(&self, ev: &DiscEvent) -> (b: bool)
        ensures
            b == expects(self@.phase, *ev),
    {
        match self.phase {
            DiscPhase::InitialPause => matches!(ev, DiscEvent::Resumed),
            DiscPhase::FlagRead(_) => matches!(ev, DiscEvent::FlagRead(_)),
            DiscPhase::FlagWrite(_) => matches!(ev, DiscEvent::FlagWritten(_)),
            DiscPhase::ServiceManagerOpening => matches!(ev, DiscEvent::ServiceManager(_)),
            DiscPhase::ServiceQuerying(_) => matches!(ev, DiscEvent::ServiceState(_)),
            DiscPhase::ServiceStarting(_) => matches!(ev, DiscEvent::StartReply(_)),
            DiscPhase::ServicePolling(_, _) => matches!(ev, DiscEvent::ServiceState(_)),
            DiscPhase::ServiceSleeping(_, _) => matches!(ev, DiscEvent::Resumed),
            DiscPhase::ServicePersisting(_) => matches!(ev, DiscEvent::Acknowledged),
            DiscPhase::ServiceManagerClosing => matches!(ev, DiscEvent::Acknowledged),
            DiscPhase::RuleQuerying(_) => matches!(ev, DiscEvent::RuleGroupState(_)),
            DiscPhase::RuleEnabling(_) => matches!(ev, DiscEvent::RuleGroupEnabled(_)),
            DiscPhase::DriveReading => matches!(ev, DiscEvent::SystemDrive(_)),
            DiscPhase::FolderEnsuring => matches!(ev, DiscEvent::FolderReady(_)),
            DiscPhase::ShareAdding => matches!(ev, DiscEvent::ShareAdded(_)),
            DiscPhase::ShareReplacing => matches!(ev, DiscEvent::ShareReplaced(_)),
            DiscPhase::LsaReading => matches!(ev, DiscEvent::ForceGuest(_)),
            DiscPhase::LsaWriting => matches!(ev, DiscEvent::ForceGuestWritten(_)),
            DiscPhase::FinalPause => matches!(ev, DiscEvent::Resumed),
            DiscPhase::Finished => false,
        }
    }

    fn fail(&mut self)
        ensures
            final(self)@ =~= failing(old(self)@),
    {
        self.all_ok = false;
    }

    fn go_after_flag(&mut self, f: RegFlag, ups: Vec<CheckUpdate>) -> (o: DiscOutput)
        ensures
            gives(final(self)@, o, after_flag(old(self)@, f, ups@)),
            phase_ok(final(self)@.phase),
    {
        let mut ups = ups;
        match f {
            RegFlag::Signing => {
                self.phase = DiscPhase::FlagRead(RegFlag::Encryption);
                ups.push(CheckUpdate { check: Check::SmbEncryption, status: CheckStatus::Checking });
                output(ups, DiscRequest::ReadFlag(RegFlag::Encryption))
            },
            RegFlag::Encryption => {
                self.phase = DiscPhase::ServiceManagerOpening;
                output(ups, DiscRequest::OpenServiceManager)
            },
        }
    }

    fn go_next_service(&mut self, sv: Service, ups: Vec<CheckUpdate>) -> (o: DiscOutput)
        ensures
            gives(final(self)@, o, next_service(old(self)@, sv, ups@)),
            phase_ok(final(self)@.phase),
    {
        let mut ups = ups;
        match sv.after() {
            Some(n) => {
                self.phase = DiscPhase::ServiceQuerying(n);
                ups.push(CheckUpdate { check: n.check(), status: CheckStatus::Checking });
                output(ups, DiscRequest::QueryService(n))
            },
            None => {
                self.phase = DiscPhase::ServiceManagerClosing;
                output(ups, DiscRequest::CloseServiceManager)
            },
        }
    }

    fn go_after_service(&mut self, sv: Service, ups: Vec<CheckUpdate>) -> (o: DiscOutput)
        ensures
            gives(final(self)@, o, after_service(old(self)@, sv, ups@)),
            phase_ok(final(self)@.phase),
    {
        if self.persist {
            self.phase = DiscPhase::ServicePersisting(sv);
            output(ups, DiscRequest::SetAutoStart(sv))
        } else {
            self.go_next_service(sv, ups)
        }
    }

    fn go_after_group(&mut self, g: RuleGroup, ups: Vec<CheckUpdate>) -> (o: DiscOutput)
        ensures
            gives(final(self)@, o, after_group(old(self)@, g, ups@)),
            phase_ok(final(self)@.phase),
    {
        let mut ups = ups;
        match g {
            RuleGroup::NetworkDiscovery => {
                self.phase = DiscPhase::RuleQuerying(RuleGroup::FileAndPrinterSharing);
                output(ups, DiscRequest::QueryRuleGroup(RuleGroup::FileAndPrinterSharing))
            },
            RuleGroup::FileAndPrinterSharing => {
                self.phase = DiscPhase::DriveReading;
                ups.push(
                    CheckUpdate { check: Check::PublicFolderSharing, status: CheckStatus::Checking },
                );
                output(ups, DiscRequest::ReadSystemDrive)
            },
        }
    }

    fn go_after_share(&mut self, ups: Vec<CheckUpdate>) -> (o: DiscOutput)
        ensures
            gives(final(self)@, o, after_share(old(self)@, ups@)),
            phase_ok(final(self)@.phase),
    {
        let mut ups = ups;
        self.phase = DiscPhase::LsaReading;
        ups.push(
            CheckUpdate { check: Check::PasswordProtectedSharing, status: CheckStatus::Checking },
        );
        output(ups, DiscRequest::ReadForceGuest)
    }

    fn go_after_password(&mut self, ups: Vec<CheckUpdate>) -> (o: DiscOutput)
        ensures
            gives(final(self)@, o, after_password(old(self)@, ups@)),
            phase_ok(final(self)@.phase),
    {
        self.phase = DiscPhase::FinalPause;
        output(ups, DiscRequest::Pause(800))
    }

    /// Takes the report of the outside step the setup waited for, and gives out the
    /// checks to report and the next outside step, as `disc_next` defines them.
    pub fn step(&mut self, ev: DiscEvent) -> (o: DiscOutput)
        requires
            phase_ok(old(self)@.phase),
            expects(old(self)@.phase, ev),
        ensures
            phase_ok(final(self)@.phase),
            gives(final(self)@, o, disc_next(old(self)@, ev)),
    {
        match self.phase {
            DiscPhase::InitialPause => {
                self.phase = DiscPhase::FlagRead(RegFlag::Signing);
                output(
                    one(Check::SmbSigning, CheckStatus::Checking),
                    DiscRequest::ReadFlag(RegFlag::Signing),
                )
            },
            DiscPhase::FlagRead(f) => match ev {
                DiscEvent::FlagRead(FlagReadReport::KeyOpenFailed) => {
                    self.fail();
                    self.go_after_flag(f, one(f.check(), CheckStatus::Failed))
                },
                DiscEvent::FlagRead(FlagReadReport::Value(v)) => {
                    if v == 0 {
                        self.phase = DiscPhase::FlagWrite(f);
                        output(one(f.check(), CheckStatus::Enabling), DiscRequest::WriteFlag(f))
                    } else {
                        self.go_after_flag(f, one(f.check(), CheckStatus::Satisfied))
                    }
                },
                DiscEvent::FlagRead(FlagReadReport::ReadFailed { code, detail }) => {
                    if missing_value(code, detail.as_str()) {
                        self.phase = DiscPhase::FlagWrite(f);
                        output(one(f.check(), CheckStatus::Enabling), DiscRequest::WriteFlag(f))
                    } else {
                        self.fail();
                        self.go_after_flag(f, one(f.check(), CheckStatus::Failed))
                    }
                },
                _ => output(Vec::new(), DiscRequest::ReadFlag(f)),
            },
            DiscPhase::FlagWrite(f) => match ev {
                DiscEvent::FlagWritten(ok) => {
                    if ok {
                        self.go_after_flag(f, one(f.check(), CheckStatus::Enabled))
                    } else {
                        self.fail();
                        self.go_after_flag(f, one(f.check(), CheckStatus::Failed))
                    }
                },
                _ => output(Vec::new(), DiscRequest::WriteFlag(f)),
            },
            DiscPhase::ServiceManagerOpening => match ev {
                DiscEvent::ServiceManager(ok) => {
                    if ok {
                        self.phase = DiscPhase::ServiceQuerying(Service::FdpHost);
                        output(
                            one(Check::FunctionDiscoveryProviderHost, CheckStatus::Checking),
                            DiscRequest::QueryService(Service::FdpHost),
                        )
                    } else {
                        self.fail();
                        self.phase = DiscPhase::RuleQuerying(RuleGroup::NetworkDiscovery);
                        let mut ups: Vec<CheckUpdate> = Vec::new();
                        ups.push(
                            CheckUpdate {
                                check: Check::FunctionDiscoveryProviderHost,
                                status: CheckStatus::Failed,
                            },
                        );
                        ups.push(
                            CheckUpdate {
                                check: Check::FunctionDiscoveryResourcePublication,
                                status: CheckStatus::Failed,
                            },
                        );
                        ups.push(
                            CheckUpdate { check: Check::SsdpDiscovery, status: CheckStatus::Failed },
                        );
                        ups.push(
                            CheckUpdate { check: Check::UpnpDeviceHost, status: CheckStatus::Failed },
                        );
                        output(ups, DiscRequest::QueryRuleGroup(RuleGroup::NetworkDiscovery))
                    }
                },
                _ => output(Vec::new(), DiscRequest::OpenServiceManager),
            },
            DiscPhase::ServiceQuerying(sv) => match ev {
                DiscEvent::ServiceState(Err(_)) => {
                    self.fail();
                    self.go_after_service(sv, one(sv.check(), CheckStatus::Failed))
                },
                DiscEvent::ServiceState(Ok(st)) => {
                    if st == SERVICE_STOPPED || st == SERVICE_START_PENDING {
                        self.phase = DiscPhase::ServiceStarting(sv);
                        output(one(sv.check(), CheckStatus::Starting), DiscRequest::StartService(sv))
                    } else {
                        self.go_after_service(sv, one(sv.check(), CheckStatus::Satisfied))
                    }
                },
                _ => output(Vec::new(), DiscRequest::QueryService(sv)),
            },
            DiscPhase::ServiceStarting(sv) => match ev {
                DiscEvent::StartReply(StartReport::Sent) => {
                    self.phase = DiscPhase::ServicePolling(sv, 0);
                    output(Vec::new(), DiscRequest::PollService(sv))
                },
                DiscEvent::StartReply(StartReport::OpenFailed) => {
                    self.fail();
                    self.go_after_service(sv, one(sv.check(), CheckStatus::Failed))
                },
                DiscEvent::StartReply(StartReport::Refused { code, message }) => {
                    if tolerated_refusal(code, message.as_str()) {
                        self.phase = DiscPhase::ServicePolling(sv, 0);
                        output(Vec::new(), DiscRequest::PollService(sv))
                    } else {
                        self.fail();
                        self.go_after_service(sv, one(sv.check(), CheckStatus::Failed))
                    }
                },
                _ => output(Vec::new(), DiscRequest::StartService(sv)),
            },
            DiscPhase::ServicePolling(sv, e) => match ev {
                DiscEvent::ServiceState(st) => {
                    let settled = match st {
                        Ok(x) => x == SERVICE_RUNNING || e >= SERVICE_WAIT_MS,
                        Err(_) => true,
                    };
                    if settled {
                        self.go_after_service(sv, one(sv.check(), CheckStatus::Started))
                    } else {
                        self.phase = DiscPhase::ServiceSleeping(sv, e);
                        output(Vec::new(), DiscRequest::Pause(SERVICE_POLL_MS))
                    }
                },
                _ => output(Vec::new(), DiscRequest::PollService(sv)),
            },
            DiscPhase::ServiceSleeping(sv, e) => {
                self.phase = DiscPhase::ServicePolling(sv, e + SERVICE_POLL_MS);
                output(Vec::new(), DiscRequest::PollService(sv))
            },
            DiscPhase::ServicePersisting(sv) => self.go_next_service(sv, Vec::new()),
            DiscPhase::ServiceManagerClosing => {
                self.phase = DiscPhase::RuleQuerying(RuleGroup::NetworkDiscovery);
                output(Vec::new(), DiscRequest::QueryRuleGroup(RuleGroup::NetworkDiscovery))
            },
            DiscPhase::RuleQuerying(g) => match ev {
                DiscEvent::RuleGroupState(None) => {
                    self.fail();
                    self.go_after_group(g, one(g.check(), CheckStatus::Failed))
                },
                DiscEvent::RuleGroupState(Some(true)) => {
                    self.go_after_group(g, one(g.check(), CheckStatus::Satisfied))
                },
                DiscEvent::RuleGroupState(Some(false)) => {
                    self.phase = DiscPhase::RuleEnabling(g);
                    output(one(g.check(), CheckStatus::Enabling), DiscRequest::EnableRuleGroup(g))
                },
                _ => output(Vec::new(), DiscRequest::QueryRuleGroup(g)),
            },
            DiscPhase::RuleEnabling(g) => match ev {
                DiscEvent::RuleGroupEnabled(ok) => {
                    if ok {
                        self.go_after_group(g, one(g.check(), CheckStatus::Enabled))
                    } else {
                        self.fail();
                        self.go_after_group(g, one(g.check(), CheckStatus::Failed))
                    }
                },
                _ => output(Vec::new(), DiscRequest::EnableRuleGroup(g)),
            },
            DiscPhase::DriveReading => match ev {
                DiscEvent::SystemDrive(d) => {
                    self.share_path = public_folder_path(&d);
                    self.phase = DiscPhase::FolderEnsuring;
                    output(Vec::new(), DiscRequest::EnsureFolder)
                },
                _ => output(Vec::new(), DiscRequest::ReadSystemDrive),
            },
            DiscPhase::FolderEnsuring => match ev {
                DiscEvent::FolderReady(ok) => {
                    if ok {
                        self.phase = DiscPhase::ShareAdding;
                        output(Vec::new(), DiscRequest::AddShare)
                    } else {
                        self.fail();
                        self.go_after_share(one(Check::PublicFolderSharing, CheckStatus::Failed))
                    }
                },
                _ => output(Vec::new(), DiscRequest::EnsureFolder),
            },
            DiscPhase::ShareAdding => match ev {
                DiscEvent::ShareAdded(ShareReport::Code(c)) => {
                    if c == 0 {
                        self.go_after_share(one(Check::PublicFolderSharing, CheckStatus::Enabled))
                    } else if c == NERR_DUPLICATE_SHARE {
                        self.phase = DiscPhase::ShareReplacing;
                        output(
                            one(Check::PublicFolderSharing, CheckStatus::Enabling),
                            DiscRequest::ReplaceShare,
                        )
                    } else {
                        self.fail();
                        self.go_after_share(one(Check::PublicFolderSharing, CheckStatus::Failed))
                    }
                },
                DiscEvent::ShareAdded(ShareReport::DescriptorFailed) => {
                    self.fail();
                    self.go_after_share(one(Check::PublicFolderSharing, CheckStatus::Failed))
                },
                _ => output(Vec::new(), DiscRequest::AddShare),
            },
            DiscPhase::ShareReplacing => match ev {
                DiscEvent::ShareReplaced(c) => {
                    if c == 0 {
                        self.go_after_share(one(Check::PublicFolderSharing, CheckStatus::Enabled))
                    } else {
                        self.fail();
                        self.go_after_share(one(Check::PublicFolderSharing, CheckStatus::Failed))
                    }
                },
                _ => output(Vec::new(), DiscRequest::ReplaceShare),
            },
            DiscPhase::LsaReading => match ev {
                DiscEvent::ForceGuest(ForceGuestReport::KeyOpenFailed) => {
                    self.fail();
                    self.go_after_password(one(Check::PasswordProtectedSharing, CheckStatus::Failed))
                },
                DiscEvent::ForceGuest(ForceGuestReport::Read { queried, value }) => {
                    if queried && value == 0 {
                        self.go_after_password(
                            one(Check::PasswordProtectedSharing, CheckStatus::Satisfied),
                        )
                    } else {
                        self.phase = DiscPhase::LsaWriting;
                        output(
                            one(Check::PasswordProtectedSharing, CheckStatus::Enabling),
                            DiscRequest::WriteForceGuest,
                        )
                    }
                },
                _ => output(Vec::new(), DiscRequest::ReadForceGuest),
            },
            DiscPhase::LsaWriting => match ev {
                DiscEvent::ForceGuestWritten(ok) => {
                    if ok {
                        self.go_after_password(
                            one(Check::PasswordProtectedSharing, CheckStatus::Enabled),
                        )
                    } else {
                        self.fail();
                        self.go_after_password(one(Check::PasswordProtectedSharing, CheckStatus::Failed))
                    }
                },
                _ => output(Vec::new(), DiscRequest::WriteForceGuest),
            },
            DiscPhase::FinalPause => {
                self.phase = DiscPhase::Finished;
                output(Vec::new(), DiscRequest::Finish(self.all_ok))
            },
            DiscPhase::Finished => output(Vec::new(), DiscRequest::Finish(self.all_ok)),
        }
    }
}

/// A log line about a discovery service.
pub open spec fn about_service(name: Seq<char>, tail: Seq<char>) -> Seq<char> {
    "Service '"@ + name + "' "@ + tail
}

/// The error of a start request that was refused and is not tolerated.
pub open spec fn start_error_text(name: Seq<char>, code: u32, message: Seq<char>) -> Seq<char> {
    "StartService '"@ + name + "' failed (code "@ + decimal(code as nat) + "): "@ + message
}

/// The error of a wait for a service that was still not running after
/// `SERVICE_WAIT_MS` milliseconds, with the state last read.
pub open spec fn wait_timeout_text(name: Seq<char>, state: u32) -> Seq<char> {
    about_service(
        name,
        "not running after "@ + decimal(SERVICE_WAIT_MS as nat) + "ms (state="@ + decimal(
            state as nat,
        ) + ")"@,
    )
}

/// The error of a first attempt to share the public folder that returned `code`.
pub open spec fn share_error_text(code: u32) -> Seq<char> {
    "NetShareAdd: code "@ + decimal(code as nat)
}

/// The error of sharing the public folder again, after deleting the old share, that
/// returned `code`.
pub open spec fn reshare_error_text(code: u32) -> Seq<char> {
    "NetShareAdd after delete: code "@ + decimal(code as nat)
}

/// The log line that a report gives rise to in a phase, if any. For the services: the
/// state found, the outcome of the start request (with the error of a refused one),
/// and the outcome of the wait (running, the failed look, or the time-out with the
/// state last read). For the public share: created, replaced, or the error with the
/// code that the share call returned.
pub open spec fn step_note(phase: DiscPhase, ev: DiscEvent) -> Option<Seq<char>> {
    match phase {
        DiscPhase::ServiceQuerying(sv) => match ev {
            DiscEvent::ServiceState(Err(m)) => Some(
                about_service(service_name(sv), "status query failed: "@ + m@),
            ),
            DiscEvent::ServiceState(Ok(st)) => if st == SERVICE_STOPPED || st
                == SERVICE_START_PENDING {
                Some(about_service(service_name(sv), "is stopped - starting..."@))
            } else {
                Some(
                    about_service(
                        service_name(sv),
                        "is already running (state="@ + decimal(st as nat) + ")"@,
                    ),
                )
            },
            _ => None,
        },
        DiscPhase::ServiceStarting(sv) => match ev {
            DiscEvent::StartReply(StartReport::Sent) => Some(
                "start_service: '"@ + service_name(sv) + "' start request sent"@,
            ),
            DiscEvent::StartReply(StartReport::Refused { code, message }) => if has_substring(
                message@,
                "already"@,
            ) || code == ERROR_SERVICE_ALREADY_RUNNING {
                Some("start_service: '"@ + service_name(sv) + "' already running (1056)"@)
            } else if code == ERROR_SERVICE_REQUEST_TIMEOUT {
                Some(
                    "start_service: '"@ + service_name(sv)
                        + "' timeout but may be starting (1053)"@,
                )
            } else {
                Some(
                    about_service(
                        service_name(sv),
                        "start failed: "@ + start_error_text(service_name(sv), code, message@),
                    ),
                )
            },
            _ => None,
        },
        DiscPhase::ServicePolling(sv, waited) => match ev {
            DiscEvent::ServiceState(Ok(st)) => if st == SERVICE_RUNNING {
                Some(about_service(service_name(sv), "confirmed running"@))
            } else if waited >= SERVICE_WAIT_MS {
                Some(
                    about_service(
                        service_name(sv),
                        "polling: "@ + wait_timeout_text(service_name(sv), st),
                    ),
                )
            } else {
                None
            },
            DiscEvent::ServiceState(Err(m)) => Some(
                about_service(service_name(sv), "polling: "@ + m@),
            ),
            _ => None,
        },
        DiscPhase::ShareAdding => match ev {
            DiscEvent::ShareAdded(ShareReport::Code(c)) => if c == 0 {
                Some("Public share created successfully"@)
            } else if c == NERR_DUPLICATE_SHARE {
                Some("Public share exists - deleting to apply current settings"@)
            } else {
                Some("Public folder sharing failed: "@ + share_error_text(c))
            },
            _ => None,
        },
        DiscPhase::ShareReplacing => match ev {
            DiscEvent::ShareReplaced(c) => if c == 0 {
                Some("Public share recreated successfully"@)
            } else {
                Some("Public folder sharing failed: "@ + reshare_error_text(c))
            },
            _ => None,
        },
        _ => None,
    }
}

fn service_line(name: &str, tail: &str) -> (s: String)
    ensures
        s@ == about_service(name@, tail@),
{
    let mut s = owned("Service '");
    push_str(&mut s, name);
    push_str(&mut s, "' ");
    push_str(&mut s, tail);
    s
}

fn start_service_line(name: &str, tail: &str) -> (s: String)
    ensures
        s@ == "start_service: '"@ + name@ + tail@,
{
    let mut s = owned("start_service: '");
    push_str(&mut s, name);
    push_str(&mut s, tail);
    s
}

fn with_code(head: &str, code: u32) -> (s: String)
    ensures
        s@ == head@ + decimal(code as nat),
{
    let mut s = owned(head);
    push_decimal(&mut s, code as u64);
    s
}

impl DiscoveringRun {
    /// The log line that a report gives rise to in the phase the setup waits in, to be
    /// taken before the report is handed to `step`.
    pub fn note(&self, ev: &DiscEvent) -> (n: Option<String>)
        ensures
            opt_text(n) == step_note(self@.phase, *ev),
    {
        match self.phase {
            DiscPhase::ServiceQuerying(sv) => match ev {
                DiscEvent::ServiceState(Err(m)) => {
                    let mut tail = owned("status query failed: ");
                    push_str(&mut tail, m.as_str());
                    Some(service_line(sv.name(), tail.as_str()))
                },
                DiscEvent::ServiceState(Ok(st)) => {
                    if *st == SERVICE_STOPPED || *st == SERVICE_START_PENDING {
                        Some(service_line(sv.name(), "is stopped - starting..."))
                    } else {
                        let mut tail = with_code("is already running (state=", *st);
                        push_str(&mut tail, ")");
                        Some(service_line(sv.name(), tail.as_str()))
                    }
                },
                _ => None,
            },
            DiscPhase::ServiceStarting(sv) => match ev {
                DiscEvent::StartReply(StartReport::Sent) => {
                    Some(start_service_line(sv.name(), "' start request sent"))
                },
                DiscEvent::StartReply(StartReport::Refused { code, message }) => {
                    if contains_str(message.as_str(), "already") || *code
                        == ERROR_SERVICE_ALREADY_RUNNING {
                        Some(start_service_line(sv.name(), "' already running (1056)"))
                    } else if *code == ERROR_SERVICE_REQUEST_TIMEOUT {
                        Some(start_service_line(sv.name(), "' timeout but may be starting (1053)"))
                    } else {
                        let mut err = owned("StartService '");
                        push_str(&mut err, sv.name());
                        push_str(&mut err, "' failed (code ");
                        push_decimal(&mut err, *code as u64);
                        push_str(&mut err, "): ");
                        push_str(&mut err, message.as_str());
                        let mut tail = owned("start failed: ");
                        push_str(&mut tail, err.as_str());
                        Some(service_line(sv.name(), tail.as_str()))
                    }
                },
                _ => None,
            },
            DiscPhase::ServicePolling(sv, waited) => match ev {
                DiscEvent::ServiceState(Ok(st)) => {
                    if *st == SERVICE_RUNNING {
                        Some(service_line(sv.name(), "confirmed running"))
                    } else if waited >= SERVICE_WAIT_MS {
                        let mut rest = with_code("not running after ", SERVICE_WAIT_MS);
                        push_str(&mut rest, "ms (state=");
                        push_decimal(&mut rest, *st as u64);
                        push_str(&mut rest, ")");
                        let err = service_line(sv.name(), rest.as_str());
                        let mut tail = owned("polling: ");
                        push_str(&mut tail, err.as_str());
                        Some(service_line(sv.name(), tail.as_str()))
                    } else {
                        None
                    }
                },
                DiscEvent::ServiceState(Err(m)) => {
                    let mut tail = owned("polling: ");
                    push_str(&mut tail, m.as_str());
                    Some(service_line(sv.name(), tail.as_str()))
                },
                _ => None,
            },
            DiscPhase::ShareAdding => match ev {
                DiscEvent::ShareAdded(ShareReport::Code(c)) => {
                    if *c == 0 {
                        Some(owned("Public share created successfully"))
                    } else if *c == NERR_DUPLICATE_SHARE {
                        Some(owned("Public share exists - deleting to apply current settings"))
                    } else {
                        let mut line = owned("Public folder sharing failed: ");
                        let err = with_code("NetShareAdd: code ", *c);
                        push_str(&mut line, err.as_str());
                        Some(line)
                    }
                },
                _ => None,
            },
            DiscPhase::ShareReplacing => match ev {
                DiscEvent::ShareReplaced(c) => {
                    if *c == 0 {
                        Some(owned("Public share recreated successfully"))
                    } else {
                        let mut line = owned("Public folder sharing failed: ");
                        let err = with_code("NetShareAdd after delete: code ", *c);
                        push_str(&mut line, err.as_str());
                        Some(line)
                    }
                },
                _ => None,
            },
            _ => None,
        }
    }
}


/// Some report in the list marks a check as failed.
pub open spec fn reports_failure(ups: Seq<CheckUpdate>) -> bool {
    exists|i: int| 0 <= i < ups.len() && ups[i].status == CheckStatus::Failed
}

/// The overall verdict of the setup changes only when a check fails: after any step
/// it is the verdict before it, and-ed with "no check was reported failed in the step".
pub proof fn lemma_verdict_follows_failures(s: DiscView, ev: DiscEvent)
    ensures
        disc_next(s, ev).0.all_ok == (s.all_ok && !reports_failure(disc_next(s, ev).1)),
{
    let r = disc_next(s, ev);
    if r.1.len() == 1 {
        assert(reports_failure(r.1) == (r.1[0].status == CheckStatus::Failed));
    } else if r.1.len() == 2 {
        assert(reports_failure(r.1) == (r.1[0].status == CheckStatus::Failed || r.1[1].status
            == CheckStatus::Failed));
    } else if r.1.len() == 4 {
        assert(r.1[0].status == CheckStatus::Failed);
    }
}

/// The state reached from `s` by the reports `evs`, and every check report given out
/// on the way.
pub open spec fn run_from(s: DiscView, evs: Seq<DiscEvent>) -> (DiscView, Seq<CheckUpdate>)
    decreases evs.len(),
{
    if evs.len() == 0 {
        (s, Seq::empty())
    } else {
        let r = disc_next(s, evs[0]);
        let t = run_from(r.0, evs.drop_first());
        (t.0, r.1 + t.1)
    }
}

/// Over any run of the setup, the overall verdict it ends with is true exactly when it
/// started true and no check was reported failed on the way: `Finish(true)` means every
/// setting was found in place or turned on.
pub proof fn lemma_verdict_over_a_run(s: DiscView, evs: Seq<DiscEvent>)
    ensures
        run_from(s, evs).0.all_ok == (s.all_ok && !reports_failure(run_from(s, evs).1)),
    decreases evs.len(),
{
    if evs.len() > 0 {
        let r = disc_next(s, evs[0]);
        let t = run_from(r.0, evs.drop_first());
        lemma_verdict_follows_failures(s, evs[0]);
        lemma_verdict_over_a_run(r.0, evs.drop_first());
        let all = r.1 + t.1;
        if reports_failure(r.1) {
            let i = choose|i: int| 0 <= i < r.1.len() && r.1[i].status == CheckStatus::Failed;
            assert(all[i] == r.1[i]);
        }
        if reports_failure(t.1) {
            let i = choose|i: int| 0 <= i < t.1.len() && t.1[i].status == CheckStatus::Failed;
            assert(all[r.1.len() + i] == t.1[i]);
        }
        if reports_failure(all) {
            let i = choose|i: int| 0 <= i < all.len() && all[i].status == CheckStatus::Failed;
            if i < r.1.len() {
                assert(r.1[i] == all[i]);
            } else {
                assert(t.1[i - r.1.len()] == all[i]);
            }
        }
    }
}

/// A flag found off is always turned on (the converse of
/// `lemma_changes_only_what_is_off`): read as 0, or missing, it is reported as being
/// enabled and written, with the verdict kept; once the write went through it is
/// reported enabled, the verdict still kept, and the setup moves on. Signing is
/// reported as "SMB Signing" and encryption as "SMB Encryption".
pub proof fn lemma_flag_found_off_is_turned_on(s: DiscView, f: RegFlag, code: u32, detail: String)
    requires
        s.phase == DiscPhase::FlagRead(f),
    ensures
        flag_check(RegFlag::Signing) == Check::SmbSigning,
        flag_check(RegFlag::Encryption) == Check::SmbEncryption,
        ({
            let r = disc_next(s, DiscEvent::FlagRead(FlagReadReport::Value(0)));
            &&& r.2 == DiscRequest::WriteFlag(f)
            &&& r.0.phase == DiscPhase::FlagWrite(f)
            &&& r.1 == seq![upd(flag_check(f), CheckStatus::Enabling)]
            &&& r.0.all_ok == s.all_ok
            &&& ({
                let w = disc_next(r.0, DiscEvent::FlagWritten(true));
                &&& w.1.len() >= 1
                &&& w.1[0] == upd(flag_check(f), CheckStatus::Enabled)
                &&& w.0.all_ok == s.all_ok
                &&& w.2 != DiscRequest::WriteFlag(f)
            })
        }),
        read_error_is_missing_value(code, detail@) ==> ({
            let r = disc_next(
                s,
                DiscEvent::FlagRead(FlagReadReport::ReadFailed { code, detail }),
            );
            &&& r.2 == DiscRequest::WriteFlag(f)
            &&& r.1 == seq![upd(flag_check(f), CheckStatus::Enabling)]
            &&& r.0.all_ok == s.all_ok
        }),
{
}

/// The public share is made again exactly when it already exists: a first attempt
/// that returns `NERR_DUPLICATE_SHARE` asks for the share to be replaced, one that
/// returns 0 reports it enabled, and any other code reports it failed and turns the
/// verdict to failure without replacing anything.
pub proof fn lemma_share_replaced_only_when_it_exists(s: DiscView, c: u32)
    requires
        s.phase == DiscPhase::ShareAdding,
    ensures
        ({
            let r = disc_next(s, DiscEvent::ShareAdded(ShareReport::Code(c)));
            &&& (r.2 == DiscRequest::ReplaceShare) == (c == NERR_DUPLICATE_SHARE)
            &&& c == 0 ==> r.1[0] == upd(Check::PublicFolderSharing, CheckStatus::Enabled)
                && r.0.all_ok == s.all_ok
            &&& c != 0 && c != NERR_DUPLICATE_SHARE ==> r.1[0] == upd(
                Check::PublicFolderSharing,
                CheckStatus::Failed,
            ) && !r.0.all_ok
        }),
{
}

/// A discovery service found stopped or starting is always asked to start.
pub proof fn lemma_stopped_service_is_started(s: DiscView, sv: Service, st: u32)
    requires
        s.phase == DiscPhase::ServiceQuerying(sv),
        st == SERVICE_STOPPED || st == SERVICE_START_PENDING,
    ensures
        ({
            let r = disc_next(s, DiscEvent::ServiceState(Ok(st)));
            &&& r.2 == DiscRequest::StartService(sv)
            &&& r.1 == seq![upd(service_check(sv), CheckStatus::Starting)]
        }),
{
}

/// A firewall rule group found disabled is always enabled.
pub proof fn lemma_disabled_group_is_enabled(s: DiscView, g: RuleGroup)
    requires
        s.phase == DiscPhase::RuleQuerying(g),
    ensures
        ({
            let r = disc_next(s, DiscEvent::RuleGroupState(Some(false)));
            &&& r.2 == DiscRequest::EnableRuleGroup(g)
            &&& r.1 == seq![upd(group_check(g), CheckStatus::Enabling)]
        }),
{
}

/// `forceguest` not read as 0 is always written (to 0, password-protected sharing on).
pub proof fn lemma_force_guest_off_is_written(s: DiscView, queried: bool, value: u32)
    requires
        s.phase == DiscPhase::LsaReading,
        !(queried && value == 0),
    ensures
        ({
            let r = disc_next(s, DiscEvent::ForceGuest(ForceGuestReport::Read { queried, value }));
            &&& r.2 == DiscRequest::WriteForceGuest
            &&& r.1 == seq![upd(Check::PasswordProtectedSharing, CheckStatus::Enabling)]
        }),
{
}

/// The reports of a step say exactly one thing of the check `c`, first: `st`.
pub open spec fn reports_only(ups: Seq<CheckUpdate>, c: Check, st: CheckStatus) -> bool {
    &&& ups.len() >= 1
    &&& ups[0] == upd(c, st)
    &&& forall|i: int| 1 <= i < ups.len() ==> (#[trigger] ups[i]).check != c
}

/// A firewall rule group is enabled at most once: a check of the group succeeds either
/// by finding it enabled (reported "ok", no enable asked for) or by enabling it
/// (reported "enabling", one enable asked for, then "enabled" when it went through).
/// A later check, in this run or another, that finds the group enabled again reports
/// only "ok" for it, asks for no enable, leaves the verdict as it was and goes on to
/// the next step of the setup.
pub proof fn lemma_enabled_group_left_alone(earlier: DiscView, later: DiscView, g: RuleGroup)
    requires
        earlier.phase == DiscPhase::RuleQuerying(g),
        later.phase == DiscPhase::RuleQuerying(g),
    ensures
        ({
            let found = disc_next(earlier, DiscEvent::RuleGroupState(Some(true)));
            &&& reports_only(found.1, group_check(g), CheckStatus::Satisfied)
            &&& !(found.2 is EnableRuleGroup)
        }),
        ({
            let off = disc_next(earlier, DiscEvent::RuleGroupState(Some(false)));
            let done = disc_next(off.0, DiscEvent::RuleGroupEnabled(true));
            &&& off.1 == seq![upd(group_check(g), CheckStatus::Enabling)]
            &&& off.2 == DiscRequest::EnableRuleGroup(g)
            &&& reports_only(done.1, group_check(g), CheckStatus::Enabled)
            &&& done.0.all_ok == earlier.all_ok
            &&& !(done.2 is EnableRuleGroup)
        }),
        ({
            let again = disc_next(later, DiscEvent::RuleGroupState(Some(true)));
            &&& reports_only(again.1, group_check(g), CheckStatus::Satisfied)
            &&& !(again.2 is EnableRuleGroup)
            &&& again.0.all_ok == later.all_ok
            &&& again.0 == after_group(later, g, Seq::empty()).0
            &&& again.2 == after_group(later, g, Seq::empty()).2
        }),
{
    let off = disc_next(earlier, DiscEvent::RuleGroupState(Some(false)));
    assert(off.0.phase == DiscPhase::RuleEnabling(g));
    let found = disc_next(earlier, DiscEvent::RuleGroupState(Some(true)));
    let done = disc_next(off.0, DiscEvent::RuleGroupEnabled(true));
    let again = disc_next(later, DiscEvent::RuleGroupState(Some(true)));
    match g {
        RuleGroup::NetworkDiscovery => {
            assert(found.1.len() == 1);
            assert(done.1.len() == 1);
            assert(again.1.len() == 1);
        },
        RuleGroup::FileAndPrinterSharing => {
            assert(found.1.len() == 2 && found.1[1].check == Check::PublicFolderSharing);
            assert(done.1.len() == 2 && done.1[1].check == Check::PublicFolderSharing);
            assert(again.1.len() == 2 && again.1[1].check == Check::PublicFolderSharing);
        },
    }
}

/// The services are set to start automatically only by a setup that persists.
pub proof fn lemma_auto_start_only_when_persisting(s: DiscView, ev: DiscEvent)
    ensures
        disc_next(s, ev).2 is SetAutoStart ==> s.persist,
{
}

/// A setting is changed only when it is found off: a flag is written only after it
/// was read as 0 or found missing, `forceguest` only after it was not read as 0, a
/// service is started only when it was found stopped or starting, a rule group is
/// enabled only when it was found disabled, and the public share is replaced only when
/// it already existed.
pub proof fn lemma_changes_only_what_is_off(s: DiscView, ev: DiscEvent)
    requires
        expects(s.phase, ev),
    ensures
        disc_next(s, ev).2 matches DiscRequest::WriteFlag(f) ==> s.phase == DiscPhase::FlagRead(f)
            && flag_found_off(ev),
        disc_next(s, ev).2 is WriteForceGuest ==> s.phase == DiscPhase::LsaReading
            && force_guest_found_off(ev),
        disc_next(s, ev).2 matches DiscRequest::StartService(sv) ==> s.phase
            == DiscPhase::ServiceQuerying(sv) && service_found_stopped(ev),
        disc_next(s, ev).2 matches DiscRequest::EnableRuleGroup(g) ==> s.phase
            == DiscPhase::RuleQuerying(g) && ev matches DiscEvent::RuleGroupState(Some(false)),
        disc_next(s, ev).2 is ReplaceShare ==> s.phase == DiscPhase::ShareAdding
            && ev matches DiscEvent::ShareAdded(ShareReport::Code(NERR_DUPLICATE_SHARE)),
{
}

/// The report says a flag is off: read as 0, or missing.
pub open spec fn flag_found_off(ev: DiscEvent) -> bool {
    match ev {
        DiscEvent::FlagRead(FlagReadReport::Value(v)) => v == 0,
        DiscEvent::FlagRead(FlagReadReport::ReadFailed { code, detail }) => read_error_is_missing_value(code, detail@),
        _ => false,
    }
}

/// The report says `forceguest` is not known to be 0.
pub open spec fn force_guest_found_off(ev: DiscEvent) -> bool {
    match ev {
        DiscEvent::ForceGuest(ForceGuestReport::Read { queried, value }) => !(queried && value == 0),
        _ => false,
    }
}

/// The report says a service is stopped or starting.
pub open spec fn service_found_stopped(ev: DiscEvent) -> bool {
    match ev {
        DiscEvent::ServiceState(Ok(st)) => st == SERVICE_STOPPED || st == SERVICE_START_PENDING,
        _ => false,
    }
}


/// Where the steps of a service begin in the ranking: the services checked later
/// rank lower.
pub open spec fn service_base(sv: Service) -> nat {
    match sv {
        Service::FdpHost => 90028,
        Service::FdResPub => 60023,
        Service::SsdpSrv => 30018,
        Service::UpnpHost => 13,
    }
}

/// The milliseconds of waiting left for a starting service.
pub open spec fn wait_left(e: u32) -> nat {
    if e >= SERVICE_WAIT_MS {
        0
    } else {
        (SERVICE_WAIT_MS - e) as nat
    }
}

/// An upper bound on the number of steps the setup still takes.
pub open spec fn disc_rank(phase: DiscPhase) -> nat {
    match phase {
        DiscPhase::Finished => 0,
        DiscPhase::FinalPause => 1,
        DiscPhase::LsaWriting => 2,
        DiscPhase::LsaReading => 3,
        DiscPhase::ShareReplacing => 4,
        DiscPhase::ShareAdding => 5,
        DiscPhase::FolderEnsuring => 6,
        DiscPhase::DriveReading => 7,
        DiscPhase::RuleEnabling(RuleGroup::FileAndPrinterSharing) => 8,
        DiscPhase::RuleQuerying(RuleGroup::FileAndPrinterSharing) => 9,
        DiscPhase::RuleEnabling(RuleGroup::NetworkDiscovery) => 10,
        DiscPhase::RuleQuerying(RuleGroup::NetworkDiscovery) => 11,
        DiscPhase::ServiceManagerClosing => 12,
        DiscPhase::ServicePersisting(sv) => service_base(sv),
        DiscPhase::ServiceSleeping(sv, e) => service_base(sv) + 1 + 2 * wait_left(e),
        DiscPhase::ServicePolling(sv, e) => service_base(sv) + 2 + 2 * wait_left(e),
        DiscPhase::ServiceStarting(sv) => service_base(sv) + 30003,
        DiscPhase::ServiceQuerying(sv) => service_base(sv) + 30004,
        DiscPhase::ServiceManagerOpening => 120033,
        DiscPhase::FlagWrite(RegFlag::Encryption) => 120034,
        DiscPhase::FlagRead(RegFlag::Encryption) => 120035,
        DiscPhase::FlagWrite(RegFlag::Signing) => 120036,
        DiscPhase::FlagRead(RegFlag::Signing) => 120037,
        DiscPhase::InitialPause => 120038,
    }
}

proof fn lemma_polling_step(s: DiscView, ev: DiscEvent)
    requires
        s.phase is ServicePolling || s.phase is ServiceSleeping,
        phase_ok(s.phase),
        expects(s.phase, ev),
    ensures
        phase_ok(disc_next(s, ev).0.phase),
        disc_rank(disc_next(s, ev).0.phase) < disc_rank(s.phase),
{
    match s.phase {
        DiscPhase::ServiceSleeping(sv, e) => {
            let ei = e as int;
            assert(ei + 500 <= 15000 && (ei + 500) % 500 == 0) by (nonlinear_arith)
                requires
                    ei % 500 == 0,
                    0 <= ei < 15000,
            ;
            assert(wait_left((e + SERVICE_POLL_MS) as u32) + SERVICE_POLL_MS <= wait_left(e));
        },
        _ => {},
    }
}

proof fn lemma_service_step(s: DiscView, ev: DiscEvent)
    requires
        s.phase is ServiceQuerying || s.phase is ServiceStarting || s.phase is ServicePersisting
            || s.phase is ServiceManagerOpening || s.phase is ServiceManagerClosing,
        phase_ok(s.phase),
        expects(s.phase, ev),
    ensures
        phase_ok(disc_next(s, ev).0.phase),
        disc_rank(disc_next(s, ev).0.phase) < disc_rank(s.phase),
{
}

proof fn lemma_other_step(s: DiscView, ev: DiscEvent)
    requires
        !(s.phase is ServiceQuerying || s.phase is ServiceStarting || s.phase is ServicePersisting
            || s.phase is ServiceManagerOpening || s.phase is ServiceManagerClosing
            || s.phase is ServicePolling || s.phase is ServiceSleeping),
        phase_ok(s.phase),
        expects(s.phase, ev),
    ensures
        phase_ok(disc_next(s, ev).0.phase),
        disc_rank(disc_next(s, ev).0.phase) < disc_rank(s.phase),
{
}

/// Every report of a run answers the step that the setup waits for at that point.
pub open spec fn disc_accepted(s: DiscView, evs: Seq<DiscEvent>) -> bool
    decreases evs.len(),
{
    evs.len() == 0 || (expects(s.phase, evs[0]) && disc_accepted(
        disc_next(s, evs[0]).0,
        evs.drop_first(),
    ))
}

/// The outside steps asked for over a run, one per report.
pub open spec fn disc_requests(s: DiscView, evs: Seq<DiscEvent>) -> Seq<DiscRequest>
    decreases evs.len(),
{
    if evs.len() == 0 {
        Seq::empty()
    } else {
        let r = disc_next(s, evs[0]);
        seq![r.2] + disc_requests(r.0, evs.drop_first())
    }
}

/// A request that changes a setting of the machine: writing a flag or `forceguest`,
/// starting a service, enabling a rule group.
pub open spec fn changes_setting(r: DiscRequest) -> bool {
    ||| r is WriteFlag
    ||| r is WriteForceGuest
    ||| r is StartService
    ||| r is EnableRuleGroup
}

/// A report that finds nothing off: no flag read as 0 or missing, `forceguest` not
/// found other than 0, no service stopped or starting, no rule group disabled.
pub open spec fn finds_nothing_off(ev: DiscEvent) -> bool {
    &&& !flag_found_off(ev)
    &&& !force_guest_found_off(ev)
    &&& !service_found_stopped(ev)
    &&& !(ev matches DiscEvent::RuleGroupState(Some(false)))
}

/// A run again over a machine that an earlier run set up: when no report finds a
/// setting off, the setup changes nothing, since it writes no flag and no `forceguest`,
/// starts no service and enables no rule group (the public share is still made again).
pub proof fn lemma_nothing_changed_when_nothing_is_off(s: DiscView, evs: Seq<DiscEvent>)
    requires
        disc_accepted(s, evs),
        forall|i: int| 0 <= i < evs.len() ==> finds_nothing_off(#[trigger] evs[i]),
    ensures
        forall|i: int|
            0 <= i < disc_requests(s, evs).len() ==> !changes_setting(
                #[trigger] disc_requests(s, evs)[i],
            ),
    decreases evs.len(),
{
    if evs.len() > 0 {
        let r = disc_next(s, evs[0]);
        let rest = evs.drop_first();
        assert(finds_nothing_off(evs[0]));
        lemma_changes_only_what_is_off(s, evs[0]);
        assert forall|i: int| 0 <= i < rest.len() implies finds_nothing_off(#[trigger] rest[i]) by {
            assert(rest[i] == evs[i + 1]);
        }
        lemma_nothing_changed_when_nothing_is_off(r.0, rest);
        let t = disc_requests(r.0, rest);
        assert forall|i: int| 0 <= i < disc_requests(s, evs).len() implies !changes_setting(
            #[trigger] disc_requests(s, evs)[i],
        ) by {
            if i > 0 {
                assert(disc_requests(s, evs)[i] == t[i - 1]);
            }
        }
    }
}

/// The setup always comes to an end: each report it accepts moves it strictly closer
/// to its finish, however the outside steps turn out (a service that never starts is
/// given up after `SERVICE_WAIT_MS` milliseconds), and it never leaves the phases
/// that can occur.
pub proof fn lemma_discovering_finishes(s: DiscView, ev: DiscEvent)
    requires
        phase_ok(s.phase),
        expects(s.phase, ev),
    ensures
        phase_ok(disc_next(s, ev).0.phase),
        disc_rank(disc_next(s, ev).0.phase) < disc_rank(s.phase),
{
    if s.phase is ServicePolling || s.phase is ServiceSleeping {
        lemma_polling_step(s, ev);
    } else if s.phase is ServiceQuerying || s.phase is ServiceStarting || s.phase is ServicePersisting
        || s.phase is ServiceManagerOpening || s.phase is ServiceManagerClosing {
        lemma_service_step(s, ev);
    } else {
        lemma_other_step(s, ev);
    }
}


/// A connected network: its name, its category and whether it is connected.
#[derive(Clone, Debug)]
pub struct NetworkInfo {
    pub name: String,
    pub category: String,
    pub is_connected: bool,
}

impl View for NetworkInfo {
    type V = (Seq<char>, Seq<char>, bool);

    open spec fn view(&self) -> (Seq<char>, Seq<char>, bool) {
        (self.name@, self.category@, self.is_connected)
    }
}

/// A discovery service: its service name, the label it is shown under, and whether it runs.
#[derive(Clone, Debug)]
pub struct ServiceInfo {
    pub name: String,
    pub display_name: String,
    pub running: bool,
}

/// The sharing settings of the machine as they stand, read without changing anything.
#[derive(Clone, Debug)]
pub struct SharingState {
    pub network_discovery_enabled: bool,
    pub file_sharing_enabled: bool,
    pub public_folder_sharing: bool,
    pub password_protected_sharing: bool,
    pub networks: Vec<NetworkInfo>,
    pub services: Vec<ServiceInfo>,
}

/// The category `NLM_NETWORK_CATEGORY_PUBLIC`.
pub const NLM_NETWORK_CATEGORY_PUBLIC: i32 = 0;

/// The category `NLM_NETWORK_CATEGORY_PRIVATE`.
pub const NLM_NETWORK_CATEGORY_PRIVATE: i32 = 1;

/// The category `NLM_NETWORK_CATEGORY_DOMAIN_AUTHENTICATED`.
pub const NLM_NETWORK_CATEGORY_DOMAIN_AUTHENTICATED: i32 = 2;

/// The label of a network category; an unreadable category counts as -1, which is
/// `"Unknown"` like every category not listed.
pub open spec fn category_text(cat: i32) -> Seq<char> {
    if cat == NLM_NETWORK_CATEGORY_PRIVATE {
        "Private"@
    } else if cat == NLM_NETWORK_CATEGORY_PUBLIC {
        "Public"@
    } else if cat == NLM_NETWORK_CATEGORY_DOMAIN_AUTHENTICATED {
        "Domain"@
    } else {
        "Unknown"@
    }
}

/// The label of a network category.
pub fn category_label(cat: i32) -> (l: String)
    ensures
        l@ == category_text(cat),
{
    if cat == NLM_NETWORK_CATEGORY_PRIVATE {
        owned("Private")
    } else if cat == NLM_NETWORK_CATEGORY_PUBLIC {
        owned("Public")
    } else if cat == NLM_NETWORK_CATEGORY_DOMAIN_AUTHENTICATED {
        owned("Domain")
    } else {
        owned("Unknown")
    }
}

/// The report of one network from what could be read of it: an unreadable name is
/// empty, an unreadable category is `"Unknown"`, an unreadable connection state is
/// "not connected".
pub fn network_info(name: Option<String>, category: Option<i32>, connected: Option<bool>) -> (n:
    NetworkInfo)
    ensures
        n.name@ == (match name {
            Some(x) => x@,
            None => Seq::<char>::empty(),
        }),
        n.category@ == category_text(
            match category {
                Some(c) => c,
                None => -1i32,
            },
        ),
        n.is_connected == (connected == Some(true)),
{
    let name = match name {
        Some(x) => x,
        None => String::new(),
    };
    let cat: i32 = match category {
        Some(c) => c,
        None => -1,
    };
    let is_connected = match connected {
        Some(b) => b,
        None => false,
    };
    NetworkInfo { name, category: category_label(cat), is_connected }
}

/// Whether a call of `IEnumNetworks::Next` that asked for one network gave one, so
/// that the enumeration takes it and goes on: only when the call succeeded and fetched
/// one. The call at the end of the list also succeeds but fetches none; it ends the
/// enumeration, so that no network is taken twice and the enumeration does not run on.
pub fn network_fetched(call_ok: bool, fetched: u32) -> (b: bool)
    ensures
        b == (call_ok && fetched > 0),
{
    call_ok && fetched > 0
}

/// What was read of the sharing settings.
#[derive(Debug)]
pub struct SharingProbe {
    /// Whether the "Network Discovery" rule group is enabled, `None` if that could not be asked.
    pub network_discovery: Option<bool>,
    /// Whether the "File and Printer Sharing" rule group is enabled, `None` if that could not be asked.
    pub file_sharing: Option<bool>,
    /// Whether the public folder exists.
    pub public_folder_exists: bool,
    /// What came of reading `forceguest`.
    pub force_guest: ForceGuestReport,
    /// The state of each discovery service in order, `None` for one that could not be
    /// queried; `None` as a whole when the service manager could not be opened.
    pub service_states: Option<Vec<Option<u32>>>,
    /// The connected networks, or the error that stopped their enumeration.
    pub networks: Result<Vec<NetworkInfo>, String>,
}

/// The discovery services in the order they are checked.
pub open spec fn service_at(i: int) -> Service {
    if i == 0 {
        Service::FdpHost
    } else if i == 1 {
        Service::FdResPub
    } else if i == 2 {
        Service::SsdpSrv
    } else {
        Service::UpnpHost
    }
}

/// The service at position `i` was found running.
pub open spec fn found_running(states: Option<Vec<Option<u32>>>, i: int) -> bool {
    match states {
        Some(v) => i < v@.len() && v@[i] == Some(SERVICE_RUNNING),
        None => false,
    }
}

fn service_info(sv: Service, states: &Option<Vec<Option<u32>>>, i: usize) -> (info: ServiceInfo)
    requires
        sv == service_at(i as int),
    ensures
        info.name@ == service_name(sv),
        info.display_name@ == check_label(service_check(sv)),
        info.running == found_running(*states, i as int),
{
    let running = match states {
        Some(v) => i < v.len() && v[i] == Some(SERVICE_RUNNING),
        None => false,
    };
    let c = sv.check();
    ServiceInfo { name: owned(sv.name()), display_name: owned(c.label()), running }
}

/// The sharing settings from what was read of them: a rule group counts as enabled
/// only when it was read as enabled, the public folder is shared when it exists,
/// password-protected sharing is on when `forceguest` was read as 0, each of the four
/// discovery services runs only when it was read as running, and the networks are
/// those enumerated (none when the enumeration failed).
pub fn get_sharing_state(probe: SharingProbe) -> (r: Result<SharingState, String>)
    ensures
        r matches Ok(st) && {
            &&& st.network_discovery_enabled == (probe.network_discovery == Some(true))
            &&& st.file_sharing_enabled == (probe.file_sharing == Some(true))
            &&& st.public_folder_sharing == probe.public_folder_exists
            &&& st.password_protected_sharing == (probe.force_guest matches ForceGuestReport::Read {
                queried,
                value,
            } && queried && value == 0)
            &&& st.networks@.map_values(|n: NetworkInfo| n@) == match probe.networks {
                Ok(v) => v@.map_values(|n: NetworkInfo| n@),
                Err(_) => Seq::empty(),
            }
            &&& st.services@.len() == 4
            &&& forall|i: int|
                0 <= i < 4 ==> {
                    &&& #[trigger] st.services@[i].name@ == service_name(service_at(i))
                    &&& st.services@[i].display_name@ == check_label(service_check(service_at(i)))
                    &&& st.services@[i].running == found_running(probe.service_states, i)
                }
        },
{
    let password_protected = match probe.force_guest {
        ForceGuestReport::Read { queried, value } => queried && value == 0,
        ForceGuestReport::KeyOpenFailed => false,
    };
    let mut services: Vec<ServiceInfo> = Vec::new();
    services.push(service_info(Service::FdpHost, &probe.service_states, 0));
    services.push(service_info(Service::FdResPub, &probe.service_states, 1));
    services.push(service_info(Service::SsdpSrv, &probe.service_states, 2));
    services.push(service_info(Service::UpnpHost, &probe.service_states, 3));
    let networks = match probe.networks {
        Ok(v) => v,
        Err(_) => Vec::new(),
    };
    assert(networks@.map_values(|n: NetworkInfo| n@) =~= match probe.networks {
        Ok(v) => v@.map_values(|n: NetworkInfo| n@),
        Err(_) => Seq::empty(),
    });
    Ok(
        SharingState {
            network_discovery_enabled: probe.network_discovery == Some(true),
            file_sharing_enabled: probe.file_sharing == Some(true),
            public_folder_sharing: probe.public_folder_exists,
            password_protected_sharing: password_protected,
            networks,
            services,
        },
    )
}

} // verus!
