//! Small things that many modules need.

use crate::event::GpuLuid;
use crate::primitive::le_value;
use crate::text::{append_decimal, decimal, law_numbers_told};
use vstd::prelude::*;
use vstd::string::StringExecFns;

verus! {

/// How long to wait for a texture that another process uses, in milliseconds.
pub const ACQUIRE_TIMEOUT_MS: u32 = 5_000;

/// A signed number's bits as an unsigned number.
pub open spec fn wrapped(n: i32) -> u32 {
    if n >= 0 {
        n as u32
    } else {
        (n + 0x1_0000_0000) as u32
    }
}

pub(crate) fn wrap(n: i32) -> (r: u32)
    ensures
        r == wrapped(n),
{
    if n >= 0 {
        n as u32
    } else {
        (n as i64 + 0x1_0000_0000) as u32
    }
}

/// Client area size of a window, from the lower right corner of its client rectangle, if that is
/// known.
pub fn get_client_size<E>(corner: Result<(i32, i32), E>) -> (r: Result<(u32, u32), E>)
    ensures
        r == (match corner {
            Ok((right, bottom)) => Ok((wrapped(right), wrapped(bottom))),
            Err(err) => Err(err),
        }),
{
    match corner {
        Ok((right, bottom)) => Ok((wrap(right), wrap(bottom))),
        Err(err) => Err(err),
    }
}

/// Whether adapter `i` is the one with the identifier.
pub open spec fn is_adapter(adapters: Seq<Option<GpuLuid>>, luid: GpuLuid, i: int) -> bool {
    0 <= i < adapters.len() && adapters[i] == Some(luid)
}

/// The index of the first adapter with an identifier. `adapters` are the identifiers of all of
/// them, in their order; one that does not tell its own is passed over.
pub fn find_adapter_by_luid(adapters: &Vec<Option<GpuLuid>>, luid: GpuLuid) -> (r: Option<usize>)
    ensures
        match r {
            Some(i) => is_adapter(adapters@, luid, i as int) && forall|j: int|
                0 <= j < i ==> !is_adapter(adapters@, luid, j),
            None => forall|j: int| !is_adapter(adapters@, luid, j),
        },
{
    let mut i: usize = 0;
    while i < adapters.len()
        invariant
            i <= adapters.len(),
            forall|j: int| 0 <= j < i ==> !is_adapter(adapters@, luid, j),
        decreases adapters.len() - i,
    {
        if let Some(found) = adapters[i] {
            if found == luid {
                return Some(i);
            }
        }
        i += 1;
    }
    None
}

fn le_word(a: u8, b: u8, c: u8, d: u8) -> (r: u32)
    ensures
        r as nat == le_value(seq![a, b, c, d]),
{
    proof {
        let s = seq![a, b, c, d];
        assert(s.drop_first() =~= seq![b, c, d]);
        assert(seq![b, c, d].drop_first() =~= seq![c, d]);
        assert(seq![c, d].drop_first() =~= seq![d]);
        assert(seq![d].drop_first() =~= Seq::<u8>::empty());
        reveal_with_fuel(le_value, 6);
    }
    a as u32 + b as u32 * 0x100 + c as u32 * 0x1_0000 + d as u32 * 0x100_0000
}

/// Reads the identifier of an adapter from the eight bytes that a device tells: first the low
/// part, then the high part, the lowest byte of each first.
pub fn luid_from_bytes(bytes: [u8; 8]) -> (r: GpuLuid)
    ensures
        r.low as nat == le_value(bytes@.take(4)),
        wrapped(r.high) as nat == le_value(bytes@.skip(4)),
{
    let low: u32 = le_word(bytes[0], bytes[1], bytes[2], bytes[3]);
    let high: u32 = le_word(bytes[4], bytes[5], bytes[6], bytes[7]);
    proof {
        assert(bytes@.take(4) =~= seq![bytes@[0], bytes@[1], bytes@[2], bytes@[3]]);
        assert(bytes@.skip(4) =~= seq![bytes@[4], bytes@[5], bytes@[6], bytes@[7]]);
    }
    let high: i32 = if high <= i32::MAX as u32 {
        high as i32
    } else {
        (high as i64 - 0x1_0000_0000) as i32
    };
    GpuLuid { low, high }
}

/// The name of the class of windows that do not show, for a module.
pub open spec fn class_name(module: u64) -> Seq<char> {
    "asdf-overlay-"@ + decimal(module as nat) + " dummy window class"@
}

/// Names the class of windows that do not show, for a module.
pub fn dummy_class_name(module: u64) -> (r: String)
    ensures
        r@ == class_name(module),
{
    let mut name = "asdf-overlay-".to_owned();
    append_decimal(&mut name, module);
    name.append(" dummy window class");
    name
}

/// Style of a class whose windows have a device context of their own.
pub const CLASS_OWN_DC: u32 = 0x20;

/// Style of a window that pops up.
pub const WINDOW_POPUP: u32 = 0x8000_0000;

/// The parent of windows that get messages only.
pub const PARENT_MESSAGE_ONLY: isize = -3;

/// A class of windows.
#[derive(Debug)]
pub struct ClassPlan {
    pub style: u32,
    pub name: String,
}

/// The class of windows that do not show, for a module.
pub fn dummy_class(module: u64) -> (r: ClassPlan)
    ensures
        r.style == CLASS_OWN_DC,
        r.name@ == class_name(module),
{
    ClassPlan { style: CLASS_OWN_DC, name: dummy_class_name(module) }
}

/// A window of such a class.
#[derive(Debug, Clone, Copy, PartialEq, Eq, Structural)]
pub struct WindowPlan {
    pub ex_style: u32,
    pub style: u32,
    pub x: i32,
    pub y: i32,
    pub width: i32,
    pub height: i32,
    pub parent: isize,
}

/// A window that does not show: it gets messages only, and is two by two pixels large.
pub open spec fn dummy_window_plan() -> WindowPlan {
    WindowPlan {
        ex_style: 0,
        style: WINDOW_POPUP,
        x: 0,
        y: 0,
        width: 2,
        height: 2,
        parent: PARENT_MESSAGE_ONLY,
    }
}

/// Gives the window that does not show.
pub fn dummy_window() -> (r: WindowPlan)
    ensures
        r == dummy_window_plan(),
{
    WindowPlan {
        ex_style: 0,
        style: WINDOW_POPUP,
        x: 0,
        y: 0,
        width: 2,
        height: 2,
        parent: PARENT_MESSAGE_ONLY,
    }
}

/// The title of a window that does not show.
pub fn dummy_window_title() -> (r: &'static str)
    ensures
        r@ == "asdf-overlay dummy window"@,
{
    "asdf-overlay dummy window"
}

/// Why there is no window that does not show.
#[derive(Debug, Clone, Copy, PartialEq, Eq, Structural)]
pub enum WindowError {
    RegisterClass,
    /// The system did not make the window.
    CreateWindow,
}

impl WindowError {
    pub open spec fn text(self) -> Option<Seq<char>> {
        match self {
            WindowError::RegisterClass => Some("RegisterClassA call failed"@),
            WindowError::CreateWindow => None,
        }
    }

    /// What went wrong, where the system does not tell.
    pub fn message(&self) -> (r: Option<&'static str>)
        ensures
            match r {
                Some(text) => self.text() == Some(text@),
                None => self.text() is None,
            },
    {
        match self {
            WindowError::RegisterClass => Some("RegisterClassA call failed"),
            WindowError::CreateWindow => None,
        }
    }
}

/// How far the use of a window that does not show has come, and so what to ask of the system.
#[derive(Debug, Clone, Copy, PartialEq, Eq, Structural)]
pub enum DummyWindow {
    RegisterClass,
    CreateWindow(WindowPlan),
    /// Use the window.
    Run,
    DestroyWindow,
    UnregisterClass { error: Option<WindowError> },
    Finished { error: Option<WindowError> },
}

impl DummyWindow {
    /// Where the use stands after the system did what was asked, or failed to. What was made is
    /// given up in reverse order, and that this fails does not matter.
    pub open spec fn next(self, done: bool) -> DummyWindow {
        match self {
            DummyWindow::RegisterClass => if done {
                DummyWindow::CreateWindow(dummy_window_plan())
            } else {
                DummyWindow::Finished { error: Some(WindowError::RegisterClass) }
            },
            DummyWindow::CreateWindow(_) => if done {
                DummyWindow::Run
            } else {
                DummyWindow::UnregisterClass { error: Some(WindowError::CreateWindow) }
            },
            DummyWindow::Run => DummyWindow::DestroyWindow,
            DummyWindow::DestroyWindow => DummyWindow::UnregisterClass { error: None },
            DummyWindow::UnregisterClass { error } => DummyWindow::Finished { error },
            over => over,
        }
    }

    /// Tells whether the system did what was asked.
    pub fn advance(&mut self, done: bool)
        ensures
            *final(self) == old(self).next(done),
    {
        *self =
        match *self {
            DummyWindow::RegisterClass => if done {
                DummyWindow::CreateWindow(dummy_window())
            } else {
                DummyWindow::Finished { error: Some(WindowError::RegisterClass) }
            },
            DummyWindow::CreateWindow(_) => if done {
                DummyWindow::Run
            } else {
                DummyWindow::UnregisterClass { error: Some(WindowError::CreateWindow) }
            },
            DummyWindow::Run => DummyWindow::DestroyWindow,
            DummyWindow::DestroyWindow => DummyWindow::UnregisterClass { error: None },
            DummyWindow::UnregisterClass { error } => DummyWindow::Finished { error },
            over => over,
        };
    }
}

/// Begins to use a window that does not show.
pub fn with_dummy_hwnd() -> (r: DummyWindow)
    ensures
        r == DummyWindow::RegisterClass,
{
    DummyWindow::RegisterClass
}

/// The use of a window after the system's answers.
pub open spec fn dummy_run(done: Seq<bool>) -> DummyWindow
    decreases done.len(),
{
    if done.len() == 0 {
        DummyWindow::RegisterClass
    } else {
        dummy_run(done.drop_last()).next(done.last())
    }
}

/// Whether the class and the window are there, after the system's answers.
pub open spec fn dummy_live(done: Seq<bool>) -> (bool, bool)
    decreases done.len(),
{
    if done.len() == 0 {
        (false, false)
    } else {
        let (class, window) = dummy_live(done.drop_last());
        match dummy_run(done.drop_last()) {
            DummyWindow::RegisterClass => (done.last(), window),
            DummyWindow::CreateWindow(_) => (class, done.last()),
            DummyWindow::DestroyWindow => (class, false),
            DummyWindow::UnregisterClass { .. } => (false, window),
            _ => (class, window),
        }
    }
}

/// A window is used only while it and its class are there, and in the end neither is. The class
/// goes after the window.
pub proof fn law_dummy_window_given_up(done: Seq<bool>)
    ensures
        match dummy_run(done) {
            DummyWindow::RegisterClass => dummy_live(done) == (false, false),
            DummyWindow::CreateWindow(_) => dummy_live(done) == (true, false),
            DummyWindow::Run => dummy_live(done) == (true, true),
            DummyWindow::DestroyWindow => dummy_live(done) == (true, true),
            DummyWindow::UnregisterClass { .. } => dummy_live(done) == (true, false),
            DummyWindow::Finished { .. } => dummy_live(done) == (false, false),
        },
    decreases done.len(),
{
    if done.len() > 0 {
        law_dummy_window_given_up(done.drop_last());
    }
}

/// A use of a window that does not show, and the classes that are registered meanwhile.
pub ghost struct HiddenUse {
    pub window: DummyWindow,
    pub classes: Set<Seq<char>>,
}

/// Whether the system registers the class for a module: a class that is registered is refused.
pub open spec fn registers(classes: Set<Seq<char>>, module: u64) -> bool {
    !classes.contains(class_name(module))
}

impl HiddenUse {
    /// The use for a module after the system's answer, which for a class is whether the system
    /// registers it.
    pub open spec fn told(self, module: u64, answer: bool) -> HiddenUse {
        let done = if self.window is RegisterClass {
            registers(self.classes, module)
        } else {
            answer
        };
        HiddenUse {
            window: self.window.next(done),
            classes: match self.window {
                DummyWindow::RegisterClass => if done {
                    self.classes.insert(class_name(module))
                } else {
                    self.classes
                },
                DummyWindow::UnregisterClass { .. } => self.classes.remove(class_name(module)),
                _ => self.classes,
            },
        }
    }
}

/// The use for a module, begun while `classes` are registered, after the system's answers.
pub open spec fn hidden_run(
    module: u64,
    classes: Set<Seq<char>>,
    answers: Seq<bool>,
) -> HiddenUse
    decreases answers.len(),
{
    if answers.len() == 0 {
        HiddenUse { window: DummyWindow::RegisterClass, classes }
    } else {
        hidden_run(module, classes, answers.drop_last()).told(module, answers.last())
    }
}

/// A use of a window leaves the classes that are registered as they were: its own is registered
/// while the window can be used and not after, so that a later use is not refused on its account.
pub proof fn law_class_registered_while_used(
    module: u64,
    classes: Set<Seq<char>>,
    answers: Seq<bool>,
)
    requires
        registers(classes, module),
    ensures
        ({
            let now = hidden_run(module, classes, answers);
            match now.window {
                DummyWindow::RegisterClass => now.classes == classes,
                DummyWindow::Finished { error } => now.classes == classes && error != Some(
                    WindowError::RegisterClass,
                ),
                DummyWindow::UnregisterClass { error } => now.classes == classes.insert(
                    class_name(module),
                ) && error != Some(WindowError::RegisterClass),
                _ => now.classes == classes.insert(class_name(module)),
            }
        }),
    decreases answers.len(),
{
    if answers.len() > 0 {
        law_class_registered_while_used(module, classes, answers.drop_last());
        assert(classes.insert(class_name(module)).remove(class_name(module)) =~= classes);
    }
}

proof fn lemma_registered_class_refused(
    module: u64,
    classes: Set<Seq<char>>,
    answers: Seq<bool>,
)
    requires
        !registers(classes, module),
    ensures
        ({
            let now = hidden_run(module, classes, answers);
            &&& now.classes == classes
            &&& now.window == if answers.len() == 0 {
                DummyWindow::RegisterClass
            } else {
                DummyWindow::Finished { error: Some(WindowError::RegisterClass) }
            }
        }),
    decreases answers.len(),
{
    if answers.len() > 0 {
        lemma_registered_class_refused(module, classes, answers.drop_last());
    }
}

/// While a window of a module is used, another use for the same module is refused and never gets
/// a window. The outer use is not disturbed: the same classes are registered as before the inner
/// one, it goes on to its end without an error whatever the system answers, and after it the class
/// can be registered again.
pub proof fn law_nested_use_refused(
    module: u64,
    classes: Set<Seq<char>>,
    outer: Seq<bool>,
    inner: Seq<bool>,
    used: bool,
    destroyed: bool,
    unregistered: bool,
)
    requires
        registers(classes, module),
        hidden_run(module, classes, outer).window is Run,
        inner.len() > 0,
    ensures
        ({
            let running = hidden_run(module, classes, outer);
            let nested = hidden_run(module, running.classes, inner);
            &&& nested.window == (DummyWindow::Finished { error: Some(WindowError::RegisterClass) })
            &&& nested.classes == running.classes
        }),
        ({
            let running = hidden_run(module, classes, outer);
            let ended = running.told(module, used).told(module, destroyed).told(
                module,
                unregistered,
            );
            &&& ended.window == (DummyWindow::Finished { error: None })
            &&& ended.classes == classes
            &&& registers(ended.classes, module)
        }),
{
    law_class_registered_while_used(module, classes, outer);
    lemma_registered_class_refused(module, hidden_run(module, classes, outer).classes, inner);
    assert(classes.insert(class_name(module)).remove(class_name(module)) =~= classes);
}

/// How far the use of a shared texture has come, and so what to ask of its mutex.
#[derive(Debug, Clone, Copy, PartialEq, Eq, Structural)]
pub enum KeyedMutex {
    /// Acquire the mutex with a key, waiting for so many milliseconds at most.
    Acquire { key: u64, timeout_ms: u32 },
    /// Use the texture. Says whether the mutex is held.
    Run { held: bool },
    Release { key: u64 },
    Used,
    Failed,
}

impl KeyedMutex {
    /// Where the use begins: with the mutex, if there is one.
    pub open spec fn first(exists: bool) -> KeyedMutex {
        if exists {
            KeyedMutex::Acquire { key: 0, timeout_ms: ACQUIRE_TIMEOUT_MS }
        } else {
            KeyedMutex::Run { held: false }
        }
    }

    /// Where the use stands after what was asked was done, or failed. A mutex that cannot be had
    /// in time is an error, and the texture is not used.
    pub open spec fn next(self, done: bool) -> KeyedMutex {
        match self {
            KeyedMutex::Acquire { .. } => if done {
                KeyedMutex::Run { held: true }
            } else {
                KeyedMutex::Failed
            },
            KeyedMutex::Run { held } => if held {
                KeyedMutex::Release { key: 0 }
            } else {
                KeyedMutex::Used
            },
            KeyedMutex::Release { .. } => KeyedMutex::Used,
            over => over,
        }
    }

    /// Tells whether what was asked was done.
    pub fn advance(&mut self, done: bool)
        ensures
            *final(self) == old(self).next(done),
    {
        *self =
        match *self {
            KeyedMutex::Acquire { .. } => if done {
                KeyedMutex::Run { held: true }
            } else {
                KeyedMutex::Failed
            },
            KeyedMutex::Run { held } => if held {
                KeyedMutex::Release { key: 0 }
            } else {
                KeyedMutex::Used
            },
            KeyedMutex::Release { .. } => KeyedMutex::Used,
            over => over,
        };
    }
}

/// Begins to use a shared texture, which has a mutex or not.
pub fn with_keyed_mutex(exists: bool) -> (r: KeyedMutex)
    ensures
        r == KeyedMutex::first(exists),
{
    if exists {
        KeyedMutex::Acquire { key: 0, timeout_ms: ACQUIRE_TIMEOUT_MS }
    } else {
        KeyedMutex::Run { held: false }
    }
}

/// Status of a mutex that could not be had in time. It is no error of the system's.
pub const WAIT_TIMEOUT: i32 = 0x102;

/// Whether the status of an attempt to acquire a mutex says that the mutex is held: it is no
/// error, and the time was not up.
pub fn acquired(status: i32) -> (r: bool)
    ensures
        r == (status >= 0 && status != WAIT_TIMEOUT),
{
    status >= 0 && status != WAIT_TIMEOUT
}

/// A mutex that could not be had in time counts as one that was not acquired: the texture is not
/// used, and the use fails.
pub proof fn law_timeout_skips_use(status: i32)
    ensures
        KeyedMutex::first(true).next(status >= 0 && status != WAIT_TIMEOUT) == if status < 0
            || status == WAIT_TIMEOUT {
            KeyedMutex::Failed
        } else {
            KeyedMutex::Run { held: true }
        },
{
}

/// A mutex that was acquired is released with the same key, and one that was not is not.
pub proof fn law_mutex_released(used: bool)
    ensures
        KeyedMutex::first(true) == (KeyedMutex::Acquire { key: 0, timeout_ms: ACQUIRE_TIMEOUT_MS }),
        KeyedMutex::first(true).next(true).next(used) == (KeyedMutex::Release { key: 0 }),
        KeyedMutex::first(true).next(false) == KeyedMutex::Failed,
        KeyedMutex::first(true).next(true).next(used).next(used) == KeyedMutex::Used,
        KeyedMutex::first(false).next(used) == KeyedMutex::Used,
{
}

/// A signed number and its bits as an unsigned one are the same but for a full turn, so that
/// different numbers have different bits.
pub proof fn law_wrapped(n: i32, other: i32)
    ensures
        n >= 0 ==> wrapped(n) == n,
        n < 0 ==> wrapped(n) == n + 0x1_0000_0000,
        wrapped(n) == wrapped(other) ==> n == other,
{
}

/// An adapter is the one with an identifier exactly where both halves agree.
pub proof fn law_is_adapter(adapters: Seq<Option<GpuLuid>>, luid: GpuLuid, i: int)
    requires
        0 <= i < adapters.len(),
    ensures
        is_adapter(adapters, luid, i) <==> adapters[i] is Some && adapters[i]->0.low == luid.low
            && adapters[i]->0.high == luid.high,
{
}

/// The class of a module is named by the module's number, so that modules do not share one.
pub proof fn law_class_per_module(module: u64, other: u64)
    ensures
        ({
            let head = "asdf-overlay-"@ + decimal(module as nat);
            class_name(module).take(head.len() as int) =~= head
        }),
        class_name(module).skip(13int + decimal(module as nat).len()) =~= " dummy window class"@,
        class_name(module) == class_name(other) ==> module == other,
{
    reveal_strlit("asdf-overlay-");
    reveal_strlit(" dummy window class");
    law_numbers_told(module as nat, other as nat);
    let a = decimal(module as nat);
    let b = decimal(other as nat);
    if class_name(module) == class_name(other) {
        assert(class_name(module).len() == 13 + a.len() + 19);
        assert(class_name(other).len() == 13 + b.len() + 19);
        assert(class_name(module).subrange(13, 13int + a.len()) =~= a);
        assert(class_name(other).subrange(13, 13int + b.len()) =~= b);
        assert(a =~= b);
    }
}

/// A window is used only where its class and it could be made: the answers before the use are all
/// good. What fails is said by the error, and a use that came about has none.
pub proof fn law_dummy_window_answers(done: Seq<bool>)
    ensures
        match dummy_run(done) {
            DummyWindow::RegisterClass => done.len() == 0,
            DummyWindow::CreateWindow(plan) => done.len() == 1 && done[0] && plan.width == 2
                && plan.height == 2,
            DummyWindow::Run => done.len() == 2 && done[0] && done[1],
            DummyWindow::DestroyWindow => done.len() == 3 && done[0] && done[1],
            DummyWindow::UnregisterClass { error: None } => done.len() == 4 && done[0] && done[1],
            DummyWindow::UnregisterClass { error: Some(err) } => done.len() == 2 && done[0]
                && !done[1] && err == WindowError::CreateWindow,
            DummyWindow::Finished { error: None } => done.len() >= 5 && done[0] && done[1],
            DummyWindow::Finished { error: Some(WindowError::RegisterClass) } => done.len() >= 1
                && !done[0],
            DummyWindow::Finished { error: Some(WindowError::CreateWindow) } => done.len() >= 3
                && done[0] && !done[1],
        },
    decreases done.len(),
{
    if done.len() > 0 {
        law_dummy_window_answers(done.drop_last());
    }
}

/// The window that serves for messages only never shows: it has no style but that of a pop-up, is
/// two by two pixels large and has the parent that such windows have.
pub proof fn law_dummy_window_hidden()
    ensures
        dummy_window_plan().width == 2,
        dummy_window_plan().height == 2,
        dummy_window_plan().style == 0x8000_0000,
        dummy_window_plan().ex_style == 0,
        dummy_window_plan().x == 0,
        dummy_window_plan().y == 0,
        dummy_window_plan().parent == PARENT_MESSAGE_ONLY,
{
}

} // verus!
