//! Starting with Windows: a value in the registry that names the program.
//!
//! `begin_startup` gives the first phase and action; what an action brings is the event of the next
//! step of `apply_startup`.

use vstd::prelude::*;

verus! {

/// The key below that of the user whose values are started with Windows.
pub const RUN_KEY: &'static str = "SOFTWARE\\Microsoft\\Windows\\CurrentVersion\\Run";

/// The name of the value of this program.
pub const RUN_VALUE: &'static str = "CornerPin";

/// What the change of the registry waits for.
#[derive(Clone, Copy, Debug, PartialEq, Eq, Structural)]
pub enum StartupPhase {
    /// Whether the key could be opened.
    Opening { enable: bool },
    /// The path of the program.
    Reading,
    /// The end of the change of the value.
    Changing,
    /// The end of the closing of the key.
    Closing,
    /// Nothing.
    Over,
}

/// What an action brings.
pub enum StartupEvent {
    /// How an attempt went; 0 is success.
    Status { code: i32 },
    /// The path of the program: the first `n` units of the buffer. No units mean that the path is
    /// not known.
    Path { buf: Vec<u16>, n: u32 },
    Done,
}

/// What has to be done next.
pub enum StartupAction<B> {
    /// Open the key to change it. Answer: `Status`.
    OpenKey,
    /// Find out the path of the program. Answer: `Path`.
    ModulePath,
    /// Set the value to the text that the bytes encode. Answer: `Done`.
    SetValue { data: B },
    /// Delete the value. Answer: `Done`.
    DeleteValue,
    /// Close the key. Answer: `Done`.
    CloseKey,
    /// Nothing.
    Finish,
}

impl View for StartupAction<Vec<u8>> {
    type V = StartupAction<Seq<u8>>;

    open spec fn view(&self) -> StartupAction<Seq<u8>> {
        match *self {
            StartupAction::OpenKey => StartupAction::OpenKey,
            StartupAction::ModulePath => StartupAction::ModulePath,
            StartupAction::SetValue { data } => StartupAction::SetValue { data: data@ },
            StartupAction::DeleteValue => StartupAction::DeleteValue,
            StartupAction::CloseKey => StartupAction::CloseKey,
            StartupAction::Finish => StartupAction::Finish,
        }
    }
}

/// A path in quotation marks, zero-terminated.
pub open spec fn quoted(path: Seq<u16>) -> Seq<u16> {
    seq!['"' as u16] + path + seq!['"' as u16, 0u16]
}

/// The bytes of code units, the lower byte of each first.
pub open spec fn bytes_of(u: Seq<u16>) -> Seq<u8> {
    Seq::new(
        2 * u.len(),
        |i: int|
            if i % 2 == 0 {
                (u[i / 2] % 256) as u8
            } else {
                (u[i / 2] / 256) as u8
            },
    )
}

/// Appends the bytes of one code unit.
fn push_unit(out: &mut Vec<u8>, u: u16)
    ensures
        final(out)@ == old(out)@.push((u % 256) as u8).push((u / 256) as u8),
{
    out.push((u % 256) as u8);
    out.push((u / 256) as u8);
}

/// The value that starts the program with Windows.
pub fn startup_value(path: &[u16]) -> (data: Vec<u8>)
    ensures
        data@ == bytes_of(quoted(path@)),
{
    let ghost all = quoted(path@);
    let mut data: Vec<u8> = Vec::new();
    push_unit(&mut data, '"' as u16);
    assert(data@ =~= bytes_of(all).take(2));
    let mut i: usize = 0;
    while i < path.len()
        invariant
            i <= path@.len(),
            all == quoted(path@),
            data@ == bytes_of(all).take(2 * (i + 1)),
        decreases path.len() - i,
    {
        push_unit(&mut data, path[i]);
        i = i + 1;
        assert(all[i as int] == path@[i - 1]);
        assert(data@ =~= bytes_of(all).take(2 * (i + 1)));
    }
    push_unit(&mut data, '"' as u16);
    push_unit(&mut data, 0);
    assert(data@ =~= bytes_of(all));
    data
}

/// Where the change of the registry stands: what it waits for and what has to be done.
pub ghost struct StartupStep {
    pub phase: StartupPhase,
    pub action: StartupAction<Seq<u8>>,
}

/// Close the key.
pub open spec fn close_key() -> StartupStep {
    StartupStep { phase: StartupPhase::Closing, action: StartupAction::CloseKey }
}

/// Stop.
pub open spec fn finish() -> StartupStep {
    StartupStep { phase: StartupPhase::Over, action: StartupAction::Finish }
}

/// One step of the change of the registry. A key that cannot be opened is left alone. To start
/// with Windows, the value is set to the path of the program, if that is known; not to do so, it
/// is deleted. A key that was opened is closed. It means something only for the events that
/// `startup_accepts` admits.
pub open spec fn startup_next(phase: StartupPhase, event: StartupEvent) -> StartupStep {
    match (phase, event) {
        (StartupPhase::Opening { enable }, StartupEvent::Status { code }) => if code != 0 {
            finish()
        } else if enable {
            StartupStep { phase: StartupPhase::Reading, action: StartupAction::ModulePath }
        } else {
            StartupStep { phase: StartupPhase::Changing, action: StartupAction::DeleteValue }
        },
        (StartupPhase::Reading, StartupEvent::Path { buf, n }) => if n > 0 {
            StartupStep {
                phase: StartupPhase::Changing,
                action: StartupAction::SetValue { data: bytes_of(quoted(buf@.take(n as int))) },
            }
        } else {
            close_key()
        },
        (StartupPhase::Changing, StartupEvent::Done) => close_key(),
        _ => finish(),
    }
}

/// Is the event an answer to what the phase waits for, and does the path lie in its buffer?
pub open spec fn startup_accepts(phase: StartupPhase, event: StartupEvent) -> bool {
    match (phase, event) {
        (StartupPhase::Opening { .. }, StartupEvent::Status { .. }) => true,
        (StartupPhase::Reading, StartupEvent::Path { buf, n }) => n <= buf@.len(),
        (StartupPhase::Changing, StartupEvent::Done) => true,
        (StartupPhase::Closing, StartupEvent::Done) => true,
        _ => false,
    }
}

/// Can the change of the registry go on with the event?
pub fn startup_ready(phase: StartupPhase, event: &StartupEvent) -> (yes: bool)
    ensures
        yes == startup_accepts(phase, *event),
{
    match (phase, event) {
        (StartupPhase::Opening { .. }, StartupEvent::Status { .. }) => true,
        (StartupPhase::Reading, StartupEvent::Path { buf, n }) => *n as usize <= buf.len(),
        (StartupPhase::Changing, StartupEvent::Done) => true,
        (StartupPhase::Closing, StartupEvent::Done) => true,
        _ => false,
    }
}

/// Starts the change of the registry.
pub fn begin_startup(enable: bool) -> (next: (StartupPhase, StartupAction<Vec<u8>>))
    ensures
        next.0 == (StartupPhase::Opening { enable }),
        next.1@ == StartupAction::<Seq<u8>>::OpenKey,
{
    (StartupPhase::Opening { enable }, StartupAction::OpenKey)
}

/// Takes the change of the registry one step further.
pub fn apply_startup(phase: StartupPhase, event: StartupEvent) -> (next: (
    StartupPhase,
    StartupAction<Vec<u8>>,
))
    requires
        startup_accepts(phase, event),
    ensures
        startup_next(phase, event) == (StartupStep { phase: next.0, action: next.1@ }),
{
    match (phase, event) {
        (StartupPhase::Opening { enable }, StartupEvent::Status { code }) => if code != 0 {
            (StartupPhase::Over, StartupAction::Finish)
        } else if enable {
            (StartupPhase::Reading, StartupAction::ModulePath)
        } else {
            (StartupPhase::Changing, StartupAction::DeleteValue)
        },
        (StartupPhase::Reading, StartupEvent::Path { buf, n }) => if n > 0 {
            let path = vstd::slice::slice_subrange(buf.as_slice(), 0, n as usize);
            assert(path@ =~= buf@.take(n as int));
            (StartupPhase::Changing, StartupAction::SetValue { data: startup_value(path) })
        } else {
            (StartupPhase::Closing, StartupAction::CloseKey)
        },
        (StartupPhase::Changing, StartupEvent::Done) => (
            StartupPhase::Closing,
            StartupAction::CloseKey,
        ),
        _ => (StartupPhase::Over, StartupAction::Finish),
    }
}

/// The units can be read back from their bytes.
pub proof fn bytes_keep_the_units(u: Seq<u16>, i: int)
    requires
        0 <= i < u.len(),
    ensures
        bytes_of(u).len() == 2 * u.len(),
        bytes_of(u)[2 * i] + 256 * bytes_of(u)[2 * i + 1] == u[i],
{
}

/// How many answers the change still needs at most.
pub open spec fn startup_rank(phase: StartupPhase) -> nat {
    match phase {
        StartupPhase::Opening { .. } => 4,
        StartupPhase::Reading => 3,
        StartupPhase::Changing => 2,
        StartupPhase::Closing => 1,
        StartupPhase::Over => 0,
    }
}

/// Every answer brings the change nearer to its end, and once the key was opened, the change ends
/// only after the key was closed.
pub proof fn opened_key_is_closed(phase: StartupPhase, event: StartupEvent)
    requires
        startup_accepts(phase, event),
    ensures
        startup_rank(startup_next(phase, event).phase) < startup_rank(phase),
        startup_next(phase, event).phase is Closing <==> startup_next(phase, event).action
            is CloseKey,
        startup_next(phase, event).phase is Over <==> phase is Closing || (phase is Opening
            && event->code != 0),
{
}

/// To start with Windows, the path of the program is asked for once the key is open; not to do so,
/// the value is deleted. A key that could not be opened is left alone. After either change the key
/// is closed, and then the change is over.
pub proof fn startup_is_set_or_deleted(enable: bool, code: i32)
    ensures
        ({
            let opened = startup_next(
                StartupPhase::Opening { enable },
                StartupEvent::Status { code },
            );
            let changed = startup_next(StartupPhase::Changing, StartupEvent::Done);
            let closed = startup_next(changed.phase, StartupEvent::Done);
            &&& startup_accepts(StartupPhase::Opening { enable }, StartupEvent::Status { code })
            &&& code != 0 ==> opened.action is Finish && opened.phase is Over
            &&& code == 0 && enable ==> opened.action is ModulePath && opened.phase is Reading
            &&& code == 0 && !enable ==> opened.action is DeleteValue && opened.phase is Changing
            &&& startup_accepts(StartupPhase::Changing, StartupEvent::Done)
            &&& changed.action is CloseKey
            &&& startup_accepts(changed.phase, StartupEvent::Done)
            &&& closed.action is Finish && closed.phase is Over
        }),
{
}

/// The value is the path of the program between two quotation marks, closed by a zero, two bytes
/// for each unit with the lower one first. A path that is not known sets no value, and the key is
/// closed.
pub proof fn value_holds_the_quoted_path(buf: Vec<u16>, n: u32, i: int)
    requires
        n <= buf@.len(),
    ensures
        ({
            let event = StartupEvent::Path { buf, n };
            let o = startup_next(StartupPhase::Reading, event);
            &&& startup_accepts(StartupPhase::Reading, event)
            &&& n == 0 ==> o.action is CloseKey && o.phase is Closing
            &&& n > 0 ==> o.phase is Changing && (o.action matches StartupAction::SetValue { data }
                && {
                &&& data.len() == 2 * n + 6
                &&& data[0] == 0x22 && data[1] == 0
                &&& 0 <= i < n ==> data[2 * i + 2] + 256 * data[2 * i + 3] == buf@[i]
                &&& data[2 * n + 2] == 0x22 && data[2 * n + 3] == 0
                &&& data[2 * n + 4] == 0 && data[2 * n + 5] == 0
            })
        }),
{
    if n > 0 {
        let path = buf@.take(n as int);
        let all = quoted(path);
        assert(all.len() == n + 3);
        assert(all[0] == 0x22 && all[n + 1] == 0x22 && all[n + 2] == 0);
        assert(0 <= i < n ==> all[i + 1] == buf@[i]);
        let data = bytes_of(all);
        assert(data[2 * (n + 1)] == 0x22 && data[2 * (n + 1) + 1] == 0);
        assert(data[2 * (n + 2)] == 0 && data[2 * (n + 2) + 1] == 0);
        if 0 <= i < n {
            bytes_keep_the_units(all, i + 1);
        }
    }
}

/// An action as a value is the action, with the bytes that it sets.
pub proof fn startup_action_shows_what_it_holds(a: StartupAction<Vec<u8>>)
    ensures
        a is OpenKey <==> a@ is OpenKey,
        a is ModulePath <==> a@ is ModulePath,
        a is SetValue <==> a@ is SetValue,
        a is SetValue ==> a@->data == a->data@,
        a is DeleteValue <==> a@ is DeleteValue,
        a is CloseKey <==> a@ is CloseKey,
        a is Finish <==> a@ is Finish,
{
}

/// The value of this program stands among those of the user that are started with Windows.
pub proof fn value_is_started_with_windows()
    ensures
        RUN_KEY@ == "SOFTWARE\\Microsoft\\Windows\\CurrentVersion\\Run"@,
        RUN_VALUE@ == "CornerPin"@,
{
}

} // verus!
