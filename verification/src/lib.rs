//! A safe, asynchronous control surface over a callback-driven native
//! browser engine.
//!
//! The native engine is reached through C entry points and answers through
//! callbacks that may arrive on any thread, at any time, or never.  This
//! crate holds the part of that bridge that can be stated and checked:
//! how text is carried across the boundary (`boundary`), how a one-shot
//! native callback becomes an awaitable result (`correlate`), the engine
//! and surface lifecycles (`app`, `browser`), the request/response message
//! bridge in both directions (`bridge`), and the lowering of input events
//! to native calls (`control`).  The unverifiable rim — the actual C
//! calls, threads and the async runtime — lives outside and drives these
//! functions.

pub mod app;
pub mod boundary;
pub mod bridge;
pub mod browser;
pub mod control;
pub mod correlate;

pub use app::{App, AppSettings, EngineError, EngineState, LoweredAppSettings, NativeRef};
pub use boundary::{BoundaryError, ForeignBuffer};
pub use bridge::{BridgeError, CallWait, InboundDecision, InboundReply, InboundRequest};
pub use browser::{
    Browser, BrowserSettings, BrowserState, HandlerSlot, LoweredBrowserSettings, SurfaceError,
    SurfacePhase, HWND,
};
pub use control::{
    ActionState, Control, ImeAction, InputCall, Modifiers, MouseAction, MouseButtons, Position,
    Rect, TouchEventType, TouchPointerType,
};
pub use correlate::{CorrelationSlot, SlotPhase};

use vstd::prelude::*;

verus! {

/// True when `hay` carries `needle` starting at position `k`.
pub open spec fn matches_at(hay: Seq<u8>, needle: Seq<u8>, k: int) -> bool {
    0 <= k && k + needle.len() <= hay.len() && hay.subrange(k, k + needle.len()) == needle
}

/// True when `needle` occurs as a contiguous run inside `hay`.
pub open spec fn contains_subseq(hay: Seq<u8>, needle: Seq<u8>) -> bool {
    exists|k: int| #[trigger] matches_at(hay, needle, k)
}

fn bytes_match_at(hay: &[u8], needle: &[u8], k: usize) -> (r: bool)
    requires
        k + needle@.len() <= hay@.len(),
    ensures
        r == matches_at(hay@, needle@, k as int),
{
    let hay_len = hay.len();
    let mut j: usize = 0;
    while j < needle.len()
        invariant
            k + needle@.len() <= hay@.len(),
            hay_len == hay@.len(),
            0 <= j <= needle@.len(),
            forall|t: int| 0 <= t < j ==> hay@[k + t] == needle@[t],
        decreases needle@.len() - j,
    {
        if hay[k + j] != needle[j] {
            assert(hay@.subrange(k as int, k + needle@.len())[j as int] != needle@[j as int]);
            return false;
        }
        j += 1;
    }
    assert(hay@.subrange(k as int, k + needle@.len()) =~= needle@);
    true
}

/// Whether `needle` occurs anywhere in `hay`.
pub fn bytes_contain(hay: &[u8], needle: &[u8]) -> (r: bool)
    ensures
        r == contains_subseq(hay@, needle@),
{
    if needle.len() > hay.len() {
        assert(forall|k: int| !matches_at(hay@, needle@, k));
        return false;
    }
    let mut k: usize = 0;
    let last = hay.len() - needle.len();
    loop
        invariant
            needle@.len() <= hay@.len(),
            last == hay@.len() - needle@.len(),
            0 <= k <= last,
            forall|t: int| 0 <= t < k ==> !matches_at(hay@, needle@, t),
        decreases last - k,
    {
        if bytes_match_at(hay, needle, k) {
            return true;
        }
        if k == last {
            assert(forall|t: int| t > last ==> !matches_at(hay@, needle@, t));
            return false;
        }
        k += 1;
    }
}

/// The decision behind subprocess detection: the process is an
/// engine-internal subprocess exactly when some command-line argument
/// carries `marker` in its UTF-8 bytes.  The caller collects the
/// arguments and hands their bytes here.
pub fn args_indicate_subprocess(args: &Vec<Vec<u8>>, marker: &[u8]) -> (r: bool)
    ensures
        r == exists|i: int| 0 <= i < args@.len() && contains_subseq(args@[i]@, marker@),
{
    let mut i: usize = 0;
    while i < args.len()
        invariant
            0 <= i <= args@.len(),
            forall|t: int| 0 <= t < i ==> !contains_subseq(args@[t]@, marker@),
        decreases args@.len() - i,
    {
        if bytes_contain(args[i].as_slice(), marker) {
            return true;
        }
        i += 1;
    }
    false
}

} // verus!
