//! The calls that the adapter makes into the native library, as values.
//!
//! Each automation primitive is one function here. It applies the documented
//! defaults, converts every text to its wide form, and returns the one
//! [`Call`] that is to be made, or the conversion error that forbids it. It
//! makes no call itself: whoever holds the native library performs the
//! `Call`, once, and hands the answer to [`crate::answer`].

use vstd::prelude::*;
use crate::answer::{pair, Point};
use crate::error::{outcome, Error};
use crate::utf16::encode;
use crate::wide::{lemma_marshal_succeeds, marshal, nul_free, WideText};

verus! {

/// The speed at which the pointer moves where the caller names none.
pub const DEFAULT_MOUSE_SPEED: i32 = 10;

/// The timeout of a wait where the caller names none: the native library
/// takes it as "wait without limit".
pub const DEFAULT_WAIT_TIMEOUT: i32 = 0;

/// The mode of a keystroke sequence where the caller names none.
pub const DEFAULT_SEND_FLAG: i32 = 0;

/// The number of code units that a text buffer holds where the caller names
/// none.
pub const DEFAULT_TEXT_CAPACITY: usize = 1024;

/// The title of a window and, where one is given, a text that the window
/// must hold: the pair by which the native library picks a window.
#[derive(Debug, PartialEq, Eq)]
pub struct WindowMatch {
    /// The window's title.
    pub title: WideText,
    /// The text to look for in the window; `None` is handed over as a null
    /// pointer.
    pub text: Option<WideText>,
}

/// A [`WindowMatch`] as code units.
pub struct WindowMatchView {
    pub title: Seq<u16>,
    pub text: Option<Seq<u16>>,
}

impl View for WindowMatch {
    type V = WindowMatchView;

    open spec fn view(&self) -> WindowMatchView {
        WindowMatchView {
            title: self.title@,
            text: match self.text {
                Some(text) => Some(text@),
                None => None,
            },
        }
    }
}

/// The buffer size as the native library's `int` parameter takes it: the
/// capacity reduced to 32 bits and read as a signed number.
pub open spec fn declared_size(capacity: usize) -> i32 {
    capacity as i32
}

/// The declared size never exceeds the capacity: the native library is not
/// told of more room than the buffer has, whatever capacity is asked for.
/// A capacity that fits the parameter is declared as it is.
pub proof fn lemma_declared_size(capacity: usize)
    ensures
        declared_size(capacity) <= capacity,
        capacity <= i32::MAX ==> declared_size(capacity) == capacity,
{
    assert(capacity as i32 <= 0 || (capacity as i32) as usize <= capacity) by (bit_vector);
}

/// The room of a text buffer: the number of code units that it holds, and
/// with it the size that the native library is told.
#[derive(Debug, Clone, Copy, PartialEq, Eq)]
pub struct Capacity {
    units: usize,
    declared: i32,
}

impl View for Capacity {
    type V = usize;

    closed spec fn view(&self) -> usize {
        self.units
    }
}

impl Capacity {
    #[verifier::type_invariant]
    spec fn consistent(&self) -> bool {
        self.declared == declared_size(self.units)
    }

    /// The room of a buffer of `units` code units.
    pub fn new(units: usize) -> (capacity: Capacity)
        ensures
            capacity@ == units,
    {
        let declared = #[verifier::truncate]
        (units as i32);
        Capacity { units, declared }
    }

    /// The number of code units that the buffer holds.
    pub fn units(&self) -> (units: usize)
        ensures
            units == self@,
    {
        self.units
    }

    /// The size to declare to the native library: never more than the
    /// buffer holds.
    pub fn declared(&self) -> (size: i32)
        ensures
            size == declared_size(self@),
            size <= self@,
    {
        proof {
            use_type_invariant(self);
            lemma_declared_size(self.units);
        }
        self.declared
    }
}

/// One call into the native library: the entry point and its arguments as
/// the native side takes them.
#[derive(Debug, PartialEq, Eq)]
pub enum Call {
    /// `AU3_Init()`.
    Init,
    /// `AU3_error()`.
    Error,
    /// `AU3_MouseMove(x, y, speed)`.
    MouseMove { x: i32, y: i32, speed: i32 },
    /// `AU3_MouseGetPos(point)`, with the point that the library is to
    /// overwrite.
    MouseGetPos { point: Point },
    /// `AU3_WinExists(title, text)`.
    WinExists { window: WindowMatch },
    /// `AU3_WinGetText(title, text, buffer, size)`, with a buffer of
    /// `capacity.units()` code units for the library to fill, declared to
    /// it as `capacity.declared()`.
    WinGetText { window: WindowMatch, capacity: Capacity },
    /// `AU3_WinWait(title, text, timeout)`.
    WinWait { window: WindowMatch, timeout: i32 },
    /// `AU3_AutoItSetOption(option, value)`.
    AutoItSetOption { option: WideText, value: i32 },
    /// `AU3_WinGetHandle(title, text)`.
    WinGetHandle { window: WindowMatch },
    /// `AU3_WinSetOnTop(title, text, flag)`.
    WinSetOnTop { window: WindowMatch, flag: i32 },
    /// `AU3_Send(keys, flag)`.
    Send { keys: WideText, flag: i32 },
}

/// A [`Call`] with its texts as code units.
pub enum CallView {
    Init,
    Error,
    MouseMove { x: i32, y: i32, speed: i32 },
    MouseGetPos { point: Point },
    WinExists { window: WindowMatchView },
    WinGetText { window: WindowMatchView, capacity: usize, size: i32 },
    WinWait { window: WindowMatchView, timeout: i32 },
    AutoItSetOption { option: Seq<u16>, value: i32 },
    WinGetHandle { window: WindowMatchView },
    WinSetOnTop { window: WindowMatchView, flag: i32 },
    Send { keys: Seq<u16>, flag: i32 },
}

impl View for Call {
    type V = CallView;

    open spec fn view(&self) -> CallView {
        match *self {
            Call::Init => CallView::Init,
            Call::Error => CallView::Error,
            Call::MouseMove { x, y, speed } => CallView::MouseMove { x, y, speed },
            Call::MouseGetPos { point } => CallView::MouseGetPos { point },
            Call::WinExists { window } => CallView::WinExists { window: window@ },
            Call::WinGetText { window, capacity } => CallView::WinGetText {
                window: window@,
                capacity: capacity@,
                size: declared_size(capacity@),
            },
            Call::WinWait { window, timeout } => CallView::WinWait { window: window@, timeout },
            Call::AutoItSetOption { option, value } => CallView::AutoItSetOption {
                option: option@,
                value,
            },
            Call::WinGetHandle { window } => CallView::WinGetHandle { window: window@ },
            Call::WinSetOnTop { window, flag } => CallView::WinSetOnTop { window: window@, flag },
            Call::Send { keys, flag } => CallView::Send { keys: keys@, flag },
        }
    }
}

/// The characters of an optional text.
pub open spec fn chars(text: Option<&str>) -> Option<Seq<char>> {
    match text {
        Some(text) => Some(text@),
        None => None,
    }
}

/// The value of an optional parameter: the caller's, or the default.
pub open spec fn or_default<T>(value: Option<T>, default: T) -> T {
    match value {
        Some(value) => value,
        None => default,
    }
}

/// The window match for a title and an optional text. The title is
/// converted first: where both hold an interior nul, the error is the
/// title's.
pub open spec fn window_match(title: Seq<char>, text: Option<Seq<char>>) -> Result<
    WindowMatchView,
    Error,
> {
    match marshal(title) {
        Err(e) => Err(e),
        Ok(title) => match text {
            None => Ok(WindowMatchView { title, text: None }),
            Some(text) => match marshal(text) {
                Err(e) => Err(e),
                Ok(text) => Ok(WindowMatchView { title, text: Some(text) }),
            },
        },
    }
}

impl WindowMatch {
    /// Converts a title and an optional text into the pair that picks a
    /// window.
    pub fn new(title: &str, text: Option<&str>) -> (r: Result<WindowMatch, Error>)
        ensures
            outcome(r) == window_match(title@, chars(text)),
    {
        let title = match WideText::from_str(title) {
            Ok(title) => title,
            Err(e) => {
                return Err(e);
            },
        };
        let text = match text {
            None => None,
            Some(text) => match WideText::from_str(text) {
                Ok(text) => Some(text),
                Err(e) => {
                    return Err(e);
                },
            },
        };
        Ok(WindowMatch { title, text })
    }
}

/// The call that initialises the native library.
pub fn init() -> (call: Call)
    ensures
        call@ == CallView::Init,
{
    Call::Init
}

/// The call that asks the native library for its error code.
pub fn error() -> (call: Call)
    ensures
        call@ == CallView::Error,
{
    Call::Error
}

/// What `mouse_move` hands to the native library.
pub open spec fn mouse_move_call(x: i32, y: i32, speed: Option<i32>) -> CallView {
    CallView::MouseMove { x, y, speed: or_default(speed, DEFAULT_MOUSE_SPEED) }
}

/// The call that moves the pointer to `(x, y)`, at `speed` or at the
/// default speed. Every position and every speed is handed on as it is.
pub fn mouse_move(x: i32, y: i32, speed: Option<i32>) -> (call: Call)
    ensures
        call@ == mouse_move_call(x, y, speed),
{
    Call::MouseMove { x, y, speed: speed.unwrap_or(DEFAULT_MOUSE_SPEED) }
}

/// The call that asks for the pointer's position. The point that goes in
/// is the origin, so that a library that writes nothing answers `(0, 0)`.
pub fn mouse_get_pos() -> (call: Call)
    ensures
        call@ == (CallView::MouseGetPos { point: Point { x: 0, y: 0 } }),
{
    Call::MouseGetPos { point: Point { x: 0, y: 0 } }
}

/// What `win_exists` hands to the native library.
pub open spec fn win_exists_call(title: Seq<char>, text: Option<Seq<char>>) -> Result<
    CallView,
    Error,
> {
    match window_match(title, text) {
        Ok(window) => Ok(CallView::WinExists { window }),
        Err(e) => Err(e),
    }
}

/// The call that asks whether a window with this title, and with this text
/// where one is given, exists.
pub fn win_exists(title: &str, text: Option<&str>) -> (r: Result<Call, Error>)
    ensures
        outcome(r) == win_exists_call(title@, chars(text)),
{
    match WindowMatch::new(title, text) {
        Ok(window) => Ok(Call::WinExists { window }),
        Err(e) => Err(e),
    }
}

/// What `win_get_text` hands to the native library.
pub open spec fn win_get_text_call(
    title: Seq<char>,
    text: Option<Seq<char>>,
    buf_len: Option<usize>,
) -> Result<CallView, Error> {
    let capacity = or_default(buf_len, DEFAULT_TEXT_CAPACITY);
    match window_match(title, text) {
        Ok(window) => Ok(CallView::WinGetText { window, capacity, size: declared_size(capacity) }),
        Err(e) => Err(e),
    }
}

/// The call that fetches a window's text into a buffer of `buf_len` code
/// units, or of the default capacity.
pub fn win_get_text(title: &str, text: Option<&str>, buf_len: Option<usize>) -> (r: Result<
    Call,
    Error,
>)
    ensures
        outcome(r) == win_get_text_call(title@, chars(text), buf_len),
{
    let capacity = Capacity::new(buf_len.unwrap_or(DEFAULT_TEXT_CAPACITY));
    match WindowMatch::new(title, text) {
        Ok(window) => Ok(Call::WinGetText { window, capacity }),
        Err(e) => Err(e),
    }
}

/// What `win_wait` hands to the native library.
pub open spec fn win_wait_call(
    title: Seq<char>,
    text: Option<Seq<char>>,
    timeout: Option<i32>,
) -> Result<CallView, Error> {
    match window_match(title, text) {
        Ok(window) => Ok(
            CallView::WinWait { window, timeout: or_default(timeout, DEFAULT_WAIT_TIMEOUT) },
        ),
        Err(e) => Err(e),
    }
}

/// The call that waits for a window, for `timeout` or without limit. Every
/// timeout is handed on as it is: zero, negative and huge ones too.
pub fn win_wait(title: &str, text: Option<&str>, timeout: Option<i32>) -> (r: Result<Call, Error>)
    ensures
        outcome(r) == win_wait_call(title@, chars(text), timeout),
{
    match WindowMatch::new(title, text) {
        Ok(window) => Ok(
            Call::WinWait { window, timeout: timeout.unwrap_or(DEFAULT_WAIT_TIMEOUT) },
        ),
        Err(e) => Err(e),
    }
}

/// What `set_option` hands to the native library.
pub open spec fn set_option_call(option: Seq<char>, value: i32) -> Result<CallView, Error> {
    match marshal(option) {
        Ok(option) => Ok(CallView::AutoItSetOption { option, value }),
        Err(e) => Err(e),
    }
}

/// The call that sets the global option named `option` to `value`.
pub fn set_option(option: &str, value: i32) -> (r: Result<Call, Error>)
    ensures
        outcome(r) == set_option_call(option@, value),
{
    match WideText::from_str(option) {
        Ok(option) => Ok(Call::AutoItSetOption { option, value }),
        Err(e) => Err(e),
    }
}

/// What `win_get_handle` hands to the native library.
pub open spec fn win_get_handle_call(title: Seq<char>, text: Option<Seq<char>>) -> Result<
    CallView,
    Error,
> {
    match window_match(title, text) {
        Ok(window) => Ok(CallView::WinGetHandle { window }),
        Err(e) => Err(e),
    }
}

/// The call that looks up a window's handle.
pub fn win_get_handle(title: &str, text: Option<&str>) -> (r: Result<Call, Error>)
    ensures
        outcome(r) == win_get_handle_call(title@, chars(text)),
{
    match WindowMatch::new(title, text) {
        Ok(window) => Ok(Call::WinGetHandle { window }),
        Err(e) => Err(e),
    }
}

/// What `win_set_on_top` hands to the native library.
pub open spec fn win_set_on_top_call(
    title: Seq<char>,
    text: Option<Seq<char>>,
    flag: i32,
) -> Result<CallView, Error> {
    match window_match(title, text) {
        Ok(window) => Ok(CallView::WinSetOnTop { window, flag }),
        Err(e) => Err(e),
    }
}

/// The call that switches a window's always-on-top state as `flag` says.
pub fn win_set_on_top(title: &str, text: Option<&str>, flag: i32) -> (r: Result<Call, Error>)
    ensures
        outcome(r) == win_set_on_top_call(title@, chars(text), flag),
{
    match WindowMatch::new(title, text) {
        Ok(window) => Ok(Call::WinSetOnTop { window, flag }),
        Err(e) => Err(e),
    }
}

/// What `send` hands to the native library.
pub open spec fn send_call(keys: Seq<char>, flag: Option<i32>) -> Result<CallView, Error> {
    match marshal(keys) {
        Ok(keys) => Ok(CallView::Send { keys, flag: or_default(flag, DEFAULT_SEND_FLAG) }),
        Err(e) => Err(e),
    }
}

/// The call that sends the keystrokes `keys`, in the mode `flag` or in the
/// default mode.
pub fn send(keys: &str, flag: Option<i32>) -> (r: Result<Call, Error>)
    ensures
        outcome(r) == send_call(keys@, flag),
{
    match WideText::from_str(keys) {
        Ok(keys) => Ok(Call::Send { keys, flag: flag.unwrap_or(DEFAULT_SEND_FLAG) }),
        Err(e) => Err(e),
    }
}

/// Leaving an optional parameter out is the same as naming its default:
/// speed 10, a wait without limit, send mode 0, a buffer of 1024 code units.
pub proof fn lemma_omitted_is_default(
    x: i32,
    y: i32,
    title: Seq<char>,
    text: Option<Seq<char>>,
    keys: Seq<char>,
)
    ensures
        mouse_move_call(x, y, None) == mouse_move_call(x, y, Some(10i32)),
        win_wait_call(title, text, None) == win_wait_call(title, text, Some(0i32)),
        send_call(keys, None) == send_call(keys, Some(0i32)),
        win_get_text_call(title, text, None) == win_get_text_call(title, text, Some(1024usize)),
{
}

/// A wait takes every timeout: none is refused or changed, be it zero,
/// negative or beyond any range. The call is built exactly where the title
/// and the text convert, and zero is the timeout of a wait that names none.
pub proof fn lemma_wait_takes_every_timeout(
    title: Seq<char>,
    text: Option<Seq<char>>,
    timeout: i32,
)
    ensures
        match window_match(title, text) {
            Ok(window) => win_wait_call(title, text, Some(timeout)) == Ok::<CallView, Error>(
                CallView::WinWait { window, timeout },
            ),
            Err(e) => win_wait_call(title, text, Some(timeout)) == Err::<CallView, Error>(e),
        },
        timeout == 0 ==> win_wait_call(title, text, Some(timeout)) == win_wait_call(
            title,
            text,
            None,
        ),
{
}

/// The adapter's share in "move, then ask": the move call carries `(x, y)`
/// untouched, and a point is read as the pair of its coordinates. So where
/// the native library reports the point it was sent to, the query answers
/// exactly `(x, y)`.
pub proof fn lemma_move_then_ask(x: i32, y: i32, speed: Option<i32>, reported: Point)
    requires
        reported.x == mouse_move_call(x, y, speed)->x,
        reported.y == mouse_move_call(x, y, speed)->y,
    ensures
        mouse_move_call(x, y, speed) is MouseMove,
        pair(reported) == (x, y),
{
}

/// A window match is built exactly where neither the title nor the text
/// holds U+0000, and then both go out as their code units with a
/// terminator: no conversion error stands in the way of the call.
pub proof fn lemma_window_match_succeeds(title: Seq<char>, text: Option<Seq<char>>)
    ensures
        window_match(title, text) is Ok <==> nul_free(title) && (text matches Some(t)
            ==> nul_free(t)),
        window_match(title, text) matches Ok(window) ==> window.title == encode(title).push(0)
            && window.text == (match text {
            Some(t) => Some(encode(t).push(0)),
            None => None,
        }),
{
    lemma_marshal_succeeds(title);
    match text {
        Some(t) => {
            lemma_marshal_succeeds(t);
        },
        None => {},
    }
}

} // verus!
