//! The platform lock backend: which operating-system commands lock the screen
//! or report its lock state, in which order they are tried, and what follows
//! from each command's outcome.
//!
//! Nothing here starts a process. A caller asks for the next step, runs the
//! command that the step names, appends the outcome to the list of outcomes
//! and asks again, until the step is a final one.

use vstd::prelude::*;
use vstd::utf8::valid_utf8;

verus! {

/// The host operating system, chosen once when the program starts.
#[derive(Clone, Copy, Debug, PartialEq, Eq, Structural)]
pub enum Platform {
    Windows,
    Linux,
    MacOs,
    /// Any other system: nothing can be locked or queried there.
    Other,
}

/// An operating-system command that the backend may ask for.
#[derive(Clone, Copy, Debug, PartialEq, Eq, Structural)]
pub enum Command {
    /// Linux: the session manager's lock command.
    SessionLock,
    /// Linux: the desktop environment's screensaver lock command.
    ScreensaverLock,
    /// Linux: a lock call over the message bus.
    BusLock,
    /// Windows: the system utility that locks the workstation.
    WorkstationLock,
    /// macOS: the power-management utility that puts the display to sleep.
    DisplaySleep,
    /// Linux: the "is the screensaver active" query against the generic interface.
    GenericStatus,
    /// Linux: the same query against the desktop-specific interface.
    DesktopStatus,
    /// macOS: the search for a running screensaver process.
    ScreensaverProcess,
}

impl Command {
    /// The program that the command starts.
    pub open spec fn program_name(self) -> Seq<char> {
        match self {
            Command::SessionLock => "loginctl"@,
            Command::ScreensaverLock => "gnome-screensaver-command"@,
            Command::BusLock => "dbus-send"@,
            Command::WorkstationLock => "cmd"@,
            Command::DisplaySleep => "pmset"@,
            Command::GenericStatus => "gdbus"@,
            Command::DesktopStatus => "gdbus"@,
            Command::ScreensaverProcess => "pgrep"@,
        }
    }

    /// The arguments that the program is started with, in order.
    pub open spec fn argument_list(self) -> Seq<Seq<char>> {
        match self {
            Command::SessionLock => seq!["lock-session"@],
            Command::ScreensaverLock => seq!["-l"@],
            Command::BusLock => seq![
                "--type=method_call"@,
                "--dest=org.gnome.ScreenSaver"@,
                "/org/gnome/ScreenSaver"@,
                "org.gnome.ScreenSaver.Lock"@,
            ],
            Command::WorkstationLock => seq!["/C"@, "rundll32"@, "user32.dll,LockWorkStation"@],
            Command::DisplaySleep => seq!["displaysleepnow"@],
            Command::GenericStatus => seq![
                "call"@,
                "--session"@,
                "--dest"@,
                "org.freedesktop.ScreenSaver"@,
                "--object-path"@,
                "/ScreenSaver"@,
                "--method"@,
                "org.freedesktop.ScreenSaver.GetActive"@,
            ],
            Command::DesktopStatus => seq![
                "call"@,
                "--session"@,
                "--dest"@,
                "org.gnome.ScreenSaver"@,
                "--object-path"@,
                "/org/gnome/ScreenSaver"@,
                "--method"@,
                "org.gnome.ScreenSaver.GetActive"@,
            ],
            Command::ScreensaverProcess => seq!["ScreenSaverEngine"@],
        }
    }

    /// The program to start.
    pub fn program(&self) -> (name: &'static str)
        ensures
            name@ == self.program_name(),
    {
        match self {
            Command::SessionLock => "loginctl",
            Command::ScreensaverLock => "gnome-screensaver-command",
            Command::BusLock => "dbus-send",
            Command::WorkstationLock => "cmd",
            Command::DisplaySleep => "pmset",
            Command::GenericStatus => "gdbus",
            Command::DesktopStatus => "gdbus",
            Command::ScreensaverProcess => "pgrep",
        }
    }

    /// The arguments to start the program with.
    pub fn arguments(&self) -> (args: Vec<&'static str>)
        ensures
            args@.len() == self.argument_list().len(),
            forall|i: int| 0 <= i < args@.len() ==> (#[trigger] args@[i])@ == self.argument_list()[i],
    {
        match self {
            Command::SessionLock => vec!["lock-session"],
            Command::ScreensaverLock => vec!["-l"],
            Command::BusLock => vec![
                "--type=method_call",
                "--dest=org.gnome.ScreenSaver",
                "/org/gnome/ScreenSaver",
                "org.gnome.ScreenSaver.Lock",
            ],
            Command::WorkstationLock => vec!["/C", "rundll32", "user32.dll,LockWorkStation"],
            Command::DisplaySleep => vec!["displaysleepnow"],
            Command::GenericStatus => vec![
                "call",
                "--session",
                "--dest",
                "org.freedesktop.ScreenSaver",
                "--object-path",
                "/ScreenSaver",
                "--method",
                "org.freedesktop.ScreenSaver.GetActive",
            ],
            Command::DesktopStatus => vec![
                "call",
                "--session",
                "--dest",
                "org.gnome.ScreenSaver",
                "--object-path",
                "/org/gnome/ScreenSaver",
                "--method",
                "org.gnome.ScreenSaver.GetActive",
            ],
            Command::ScreensaverProcess => vec!["ScreenSaverEngine"],
        }
    }
}

/// What became of one command.
#[derive(Clone, Debug, PartialEq, Eq)]
pub enum Outcome {
    /// The program could not be started at all.
    NotLaunched,
    /// The program ran and ended.
    Exited {
        /// Whether it reported success.
        success: bool,
        /// What it wrote to its standard output.
        output: Vec<u8>,
    },
}

impl Outcome {
    /// The command ran and reported success.
    pub open spec fn succeeded(self) -> bool {
        self matches Outcome::Exited { success, .. } && success
    }

    /// Whether the command ran and reported success.
    pub fn has_succeeded(&self) -> (yes: bool)
        ensures
            yes == self.succeeded(),
    {
        match self {
            Outcome::NotLaunched => false,
            Outcome::Exited { success, .. } => *success,
        }
    }
}

/// The next step of a request that is met by running commands.
#[derive(Clone, Copy, Debug, PartialEq, Eq)]
pub enum Step<T> {
    /// Run this command, append its outcome to the list, and ask again.
    Run(Command),
    /// The request has ended, with this result.
    Done(T),
}

/// The next step of a request that tries the commands of `chain` in order.
/// `settle` says what an outcome settles, if anything; the first outcome that
/// settles something ends the request, and no later command is asked for. A
/// chain that was tried to its end without that ends the request with
/// `otherwise`. Position `k` is where the look at the chain starts.
pub open spec fn plan_from<T>(
    chain: Seq<Command>,
    settle: spec_fn(Outcome) -> Option<T>,
    otherwise: T,
    outcomes: Seq<Outcome>,
    k: nat,
) -> Step<T>
    decreases chain.len() - k,
{
    if k >= chain.len() {
        Step::Done(otherwise)
    } else if k >= outcomes.len() {
        Step::Run(chain[k as int])
    } else {
        match settle(outcomes[k as int]) {
            Some(result) => Step::Done(result),
            None => plan_from(chain, settle, otherwise, outcomes, k + 1),
        }
    }
}

/// `plan_from` at position `k`, where outcome `j` is the first from `k` on
/// that settles something.
proof fn lemma_settled_from<T>(
    chain: Seq<Command>,
    settle: spec_fn(Outcome) -> Option<T>,
    otherwise: T,
    outcomes: Seq<Outcome>,
    k: nat,
    j: int,
)
    requires
        k <= j < outcomes.len(),
        j < chain.len(),
        settle(outcomes[j]) is Some,
        forall|i: int| k <= i < j ==> settle(#[trigger] outcomes[i]) is None,
    ensures
        plan_from(chain, settle, otherwise, outcomes, k) == Step::Done(settle(outcomes[j])->0),
    decreases j - k,
{
    if k < j {
        lemma_settled_from(chain, settle, otherwise, outcomes, k + 1, j);
    }
}

/// `plan_from` at position `k`, where no outcome from `k` on settles anything.
proof fn lemma_unsettled_from<T>(
    chain: Seq<Command>,
    settle: spec_fn(Outcome) -> Option<T>,
    otherwise: T,
    outcomes: Seq<Outcome>,
    k: nat,
)
    requires
        k <= outcomes.len(),
        forall|i: int| k <= i < outcomes.len() && i < chain.len() ==> settle(#[trigger] outcomes[i]) is None,
    ensures
        plan_from(chain, settle, otherwise, outcomes, k) == if outcomes.len() < chain.len() {
            Step::Run(chain[outcomes.len() as int])
        } else {
            Step::Done(otherwise)
        },
    decreases chain.len() - k,
{
    if k < chain.len() && k < outcomes.len() {
        lemma_unsettled_from(chain, settle, otherwise, outcomes, k + 1);
    }
}

/// The first outcome that settles something decides the request: the result is
/// what that outcome settles, whatever the outcomes after it are, and no
/// further command is asked for.
pub proof fn lemma_first_settled_decides<T>(
    chain: Seq<Command>,
    settle: spec_fn(Outcome) -> Option<T>,
    otherwise: T,
    outcomes: Seq<Outcome>,
    j: int,
)
    requires
        0 <= j < outcomes.len(),
        j < chain.len(),
        settle(outcomes[j]) is Some,
        forall|i: int| 0 <= i < j ==> settle(#[trigger] outcomes[i]) is None,
    ensures
        plan_from(chain, settle, otherwise, outcomes, 0) == Step::Done(settle(outcomes[j])->0),
{
    lemma_settled_from(chain, settle, otherwise, outcomes, 0, j);
}

/// While no outcome has settled anything, the next command is the one at the
/// chain position that equals the number of outcomes; once the chain is used
/// up, the request ends with `otherwise`.
pub proof fn lemma_unsettled_continues<T>(
    chain: Seq<Command>,
    settle: spec_fn(Outcome) -> Option<T>,
    otherwise: T,
    outcomes: Seq<Outcome>,
)
    requires
        forall|i: int| 0 <= i < outcomes.len() && i < chain.len() ==> settle(#[trigger] outcomes[i]) is None,
    ensures
        plan_from(chain, settle, otherwise, outcomes, 0) == if outcomes.len() < chain.len() {
            Step::Run(chain[outcomes.len() as int])
        } else {
            Step::Done(otherwise)
        },
{
    lemma_unsettled_from(chain, settle, otherwise, outcomes, 0);
}

/// A request never asks for more commands than its chain holds: with as many
/// outcomes as the chain is long, the step is a final one.
pub proof fn lemma_plan_ends<T>(
    chain: Seq<Command>,
    settle: spec_fn(Outcome) -> Option<T>,
    otherwise: T,
    outcomes: Seq<Outcome>,
    k: nat,
)
    requires
        outcomes.len() >= chain.len(),
    ensures
        plan_from(chain, settle, otherwise, outcomes, k) is Done,
    decreases chain.len() - k,
{
    if k < chain.len() && settle(outcomes[k as int]) is None {
        lemma_plan_ends(chain, settle, otherwise, outcomes, k + 1);
    }
}

/// How a lock request ended.
#[derive(Clone, Copy, Debug, PartialEq, Eq, Structural)]
pub enum LockResult {
    /// A lock command did its work.
    Locked,
    /// No command of the chain did its work; worth a warning, nothing more.
    Failed,
    /// The lock command of the primary target could not be started; the
    /// request cannot be met, and whoever asked must come to know.
    Fatal,
    /// The platform has no lock command.
    Unsupported,
}

/// The lock commands of a platform, in the order in which they are tried.
pub open spec fn lock_chain(platform: Platform) -> Seq<Command> {
    match platform {
        Platform::Windows => seq![Command::WorkstationLock],
        Platform::Linux => seq![Command::SessionLock, Command::ScreensaverLock, Command::BusLock],
        Platform::MacOs => seq![Command::DisplaySleep],
        Platform::Other => Seq::empty(),
    }
}

/// What one outcome settles for a lock request, if anything. On Windows, the
/// primary target, the single command settles the request either way: it is
/// fatal if it could not be started, and it counts as done once it ran,
/// whatever it reported. On every other platform only a reported success
/// settles the request; a command that could not be started or reported
/// failure settles nothing, and the chain goes on or ends with a warning.
pub open spec fn lock_settled(platform: Platform, outcome: Outcome) -> Option<LockResult> {
    match platform {
        Platform::Windows => if outcome is NotLaunched {
            Some(LockResult::Fatal)
        } else {
            Some(LockResult::Locked)
        },
        Platform::Linux | Platform::MacOs => if outcome.succeeded() {
            Some(LockResult::Locked)
        } else {
            None
        },
        Platform::Other => None,
    }
}

/// How a lock request ends when the whole chain was tried and nothing settled it.
pub open spec fn lock_unsettled(platform: Platform) -> LockResult {
    if platform is Other {
        LockResult::Unsupported
    } else {
        LockResult::Failed
    }
}

/// The next step of a lock request, given the outcomes of the commands that
/// were run for it so far.
pub open spec fn lock_plan(platform: Platform, outcomes: Seq<Outcome>) -> Step<LockResult> {
    plan_from(
        lock_chain(platform),
        |outcome: Outcome| lock_settled(platform, outcome),
        lock_unsettled(platform),
        outcomes,
        0,
    )
}

/// The next step of a lock request on Linux: the session manager's lock
/// command, then the desktop screensaver's, then the message-bus call. The
/// first that reports success ends the request; if all three fail it ends with
/// `Failed`.
pub fn lock_screen_on_linux(outcomes: &[Outcome]) -> (step: Step<LockResult>)
    ensures
        step == lock_plan(Platform::Linux, outcomes@),
{
    proof {
        reveal_with_fuel(plan_from, 4);
    }
    let tried: usize = outcomes.len();
    if tried == 0 {
        return Step::Run(Command::SessionLock);
    }
    if outcomes[0].has_succeeded() {
        return Step::Done(LockResult::Locked);
    }
    if tried == 1 {
        return Step::Run(Command::ScreensaverLock);
    }
    if outcomes[1].has_succeeded() {
        return Step::Done(LockResult::Locked);
    }
    if tried == 2 {
        return Step::Run(Command::BusLock);
    }
    if outcomes[2].has_succeeded() {
        return Step::Done(LockResult::Locked);
    }
    Step::Done(LockResult::Failed)
}

/// The next step of a lock request on Windows, the primary target: one system
/// utility call. If it cannot be started the request is `Fatal`.
pub fn lock_screen_on_windows(outcomes: &[Outcome]) -> (step: Step<LockResult>)
    ensures
        step == lock_plan(Platform::Windows, outcomes@),
{
    proof {
        reveal_with_fuel(plan_from, 2);
    }
    if outcomes.len() == 0 {
        return Step::Run(Command::WorkstationLock);
    }
    match &outcomes[0] {
        Outcome::NotLaunched => Step::Done(LockResult::Fatal),
        Outcome::Exited { .. } => Step::Done(LockResult::Locked),
    }
}

/// The next step of a lock request on macOS: one power-management call that
/// puts the display to sleep. If it cannot be started, or reports failure, the
/// request ends with `Failed`.
pub fn lock_screen_on_macos(outcomes: &[Outcome]) -> (step: Step<LockResult>)
    ensures
        step == lock_plan(Platform::MacOs, outcomes@),
{
    proof {
        reveal_with_fuel(plan_from, 2);
    }
    if outcomes.len() == 0 {
        return Step::Run(Command::DisplaySleep);
    }
    if outcomes[0].has_succeeded() {
        Step::Done(LockResult::Locked)
    } else {
        Step::Done(LockResult::Failed)
    }
}

/// The next step of a lock request on the given platform. A platform without
/// a lock command ends the request at once with `Unsupported`. A request is
/// `Fatal` only on Windows, and only where its command could not be started.
pub fn lock_screen(platform: Platform, outcomes: &[Outcome]) -> (step: Step<LockResult>)
    ensures
        step == lock_plan(platform, outcomes@),
        step == Step::Done(LockResult::Fatal) <==> platform == Platform::Windows && outcomes@.len() > 0
            && outcomes@[0] is NotLaunched,
{
    proof {
        reveal_with_fuel(plan_from, 4);
    }
    match platform {
        Platform::Windows => lock_screen_on_windows(outcomes),
        Platform::Linux => lock_screen_on_linux(outcomes),
        Platform::MacOs => lock_screen_on_macos(outcomes),
        Platform::Other => Step::Done(LockResult::Unsupported),
    }
}

/// The bytes of `bytes` from position `i` on begin with the word `true`.
pub open spec fn says_true_at(bytes: Seq<u8>, i: int) -> bool {
    &&& 0 <= i
    &&& i + 4 <= bytes.len()
    &&& bytes[i] == 0x74
    &&& bytes[i + 1] == 0x72
    &&& bytes[i + 2] == 0x75
    &&& bytes[i + 3] == 0x65
}

/// The word `true` stands somewhere in `bytes`. Its letters are ASCII, which
/// never occurs inside a longer UTF-8 sequence, so in valid UTF-8 this is the
/// same as the text holding the word.
pub open spec fn says_true(bytes: Seq<u8>) -> bool {
    exists|i: int| says_true_at(bytes, i)
}

/// Whether the word `true` stands somewhere in `bytes`.
pub fn holds_true(bytes: &[u8]) -> (found: bool)
    ensures
        found == says_true(bytes@),
{
    let n: usize = bytes.len();
    if n < 4 {
        return false;
    }
    let mut i: usize = 0;
    while i <= n - 4
        invariant
            n == bytes@.len(),
            n >= 4,
            i <= n - 3,
            forall|j: int| 0 <= j < i ==> !says_true_at(bytes@, j),
        decreases n - i,
    {
        if bytes[i] == 0x74 && bytes[i + 1] == 0x72 && bytes[i + 2] == 0x75 && bytes[i + 3] == 0x65 {
            assert(says_true_at(bytes@, i as int));
            return true;
        }
        i += 1;
    }
    false
}

/// `std::str::from_utf8`, asked only whether it accepts the bytes: it does
/// exactly when they are valid UTF-8.
#[verifier::external_body]
fn is_utf8(bytes: &[u8]) -> (valid: bool)
    ensures
        valid == valid_utf8(bytes@),
{
    std::str::from_utf8(bytes).is_ok()
}

/// The status commands of a platform, in the order in which they are tried.
/// Windows has none: its lock state cannot be determined.
pub open spec fn status_chain(platform: Platform) -> Seq<Command> {
    match platform {
        Platform::Linux => seq![Command::GenericStatus, Command::DesktopStatus],
        Platform::MacOs => seq![Command::ScreensaverProcess],
        Platform::Windows | Platform::Other => Seq::empty(),
    }
}

/// What one outcome answers to a status request, if anything. On Linux a query
/// answers when it ran, reported success and wrote valid UTF-8: the screen is
/// locked exactly if that text holds the word `true`. On macOS the process
/// search answers when it ran: a found process means locked.
pub open spec fn status_answered(platform: Platform, outcome: Outcome) -> Option<bool> {
    match platform {
        Platform::Linux => match outcome {
            Outcome::Exited { success, output } => if success && valid_utf8(output@) {
                Some(says_true(output@))
            } else {
                None
            },
            Outcome::NotLaunched => None,
        },
        Platform::MacOs => match outcome {
            Outcome::Exited { success, .. } => Some(success),
            Outcome::NotLaunched => None,
        },
        Platform::Windows | Platform::Other => None,
    }
}

/// The next step of a status request, given the outcomes of the queries that
/// were run for it so far. Where no query answers, the answer is "not locked".
pub open spec fn status_plan(platform: Platform, outcomes: Seq<Outcome>) -> Step<bool> {
    plan_from(
        status_chain(platform),
        |outcome: Outcome| status_answered(platform, outcome),
        false,
        outcomes,
        0,
    )
}

/// What the outcome of one Linux status query answers, if anything.
pub fn linux_status_answer(outcome: &Outcome) -> (answer: Option<bool>)
    ensures
        answer == status_answered(Platform::Linux, *outcome),
{
    match outcome {
        Outcome::NotLaunched => None,
        Outcome::Exited { success, output } => {
            if *success && is_utf8(output.as_slice()) {
                Some(holds_true(output.as_slice()))
            } else {
                None
            }
        },
    }
}

/// The next step of a status request on Linux: the query against the generic
/// screensaver interface, then the one against the desktop-specific interface.
/// The first that answers decides; if neither does, the screen counts as not
/// locked.
pub fn is_screen_locked_linux(outcomes: &[Outcome]) -> (step: Step<bool>)
    ensures
        step == status_plan(Platform::Linux, outcomes@),
{
    proof {
        reveal_with_fuel(plan_from, 3);
    }
    let tried: usize = outcomes.len();
    if tried == 0 {
        return Step::Run(Command::GenericStatus);
    }
    match linux_status_answer(&outcomes[0]) {
        Some(locked) => {
            return Step::Done(locked);
        },
        None => {},
    }
    if tried == 1 {
        return Step::Run(Command::DesktopStatus);
    }
    match linux_status_answer(&outcomes[1]) {
        Some(locked) => Step::Done(locked),
        None => Step::Done(false),
    }
}

/// Whether the screen is locked on Windows. The lock state cannot be determined
/// there, so the answer is always "not locked".
pub fn is_screen_locked_windows() -> (locked: bool)
    ensures
        !locked,
{
    false
}

/// The next step of a status request on macOS: a search for the running
/// screensaver process. If the search cannot be started the screen counts as
/// not locked.
pub fn is_screen_locked_macos(outcomes: &[Outcome]) -> (step: Step<bool>)
    ensures
        step == status_plan(Platform::MacOs, outcomes@),
{
    proof {
        reveal_with_fuel(plan_from, 2);
    }
    if outcomes.len() == 0 {
        return Step::Run(Command::ScreensaverProcess);
    }
    match &outcomes[0] {
        Outcome::NotLaunched => Step::Done(false),
        Outcome::Exited { success, .. } => Step::Done(*success),
    }
}

/// The next step of a status request on the given platform.
pub fn is_screen_locked(platform: Platform, outcomes: &[Outcome]) -> (step: Step<bool>)
    ensures
        step == status_plan(platform, outcomes@),
{
    match platform {
        Platform::Linux => is_screen_locked_linux(outcomes),
        Platform::Windows => Step::Done(is_screen_locked_windows()),
        Platform::MacOs => is_screen_locked_macos(outcomes),
        Platform::Other => Step::Done(false),
    }
}

} // verus!
