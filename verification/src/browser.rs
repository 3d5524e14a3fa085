//! The surface handle: one browser viewport created against an engine.
//!
//! Native code reports a surface's life as a stream of lifecycle events
//! on its own thread.  The stream is funnelled, in arrival order, into
//! `on_lifecycle_event`: the first terminal event — `Load` or
//! `LoadError` — decides creation, later events only reach the observer.
//! The surface also owns the per-surface handler slot for the inbound
//! message bridge and the lowered settings the native side keeps
//! reading.

use crate::boundary::{nul_free, to_foreign, BoundaryError, ForeignBuffer};
use crate::control::{
    keyboard_lowering, mouse_lowering, touch_lowering, ActionState, Control, ImeAction, InputCall,
    Modifiers, MouseAction, TouchEventType, TouchPointerType,
};
use crate::app::NativeRef;
use vstd::prelude::*;

verus! {

/// A lifecycle state reported by the native engine for one surface.
#[derive(Debug, Clone, Copy, PartialEq, Eq, Structural)]
pub enum BrowserState {
    Load,
    LoadError,
    BeforeLoad,
    BeforeClose,
    Close,
}

/// A host window handle, carried as its raw address; zero stands for no
/// window (the off-screen mode needs none).
#[derive(Debug, Clone, Copy, PartialEq, Eq, Structural)]
pub struct HWND(pub usize);

impl HWND {
    /// The raw address, for the caller that makes the native call.
    pub fn addr(&self) -> (r: usize)
        ensures
            r == self.0,
    {
        self.0
    }

    pub fn is_null(&self) -> (r: bool)
        ensures
            r == (self.0 == 0),
    {
        self.0 == 0
    }
}

impl Default for HWND {
    /// The no-window handle.
    fn default() -> (r: Self)
        ensures
            r.0 == 0,
    {
        HWND(0)
    }
}

/// Surface-level configuration: the target URL, the host window (only
/// meaningful on-screen), frame rate, pixel size, device scale factor —
/// carried opaquely as the bit pattern of its 32-bit float, which this
/// library never interprets — and the off-screen flag.
#[derive(Debug)]
pub struct BrowserSettings<'a> {
    pub url: &'a str,
    pub window_handle: HWND,
    pub frame_rate: u32,
    pub width: u32,
    pub height: u32,
    pub device_scale_bits: u32,
    pub is_offscreen: bool,
}

/// The foreign-encoded copy of `BrowserSettings`, retained while the
/// surface lives and released exactly once at teardown.
pub struct LoweredBrowserSettings {
    pub url: ForeignBuffer,
    pub window_handle: usize,
    pub frame_rate: u32,
    pub width: u32,
    pub height: u32,
    pub device_scale_bits: u32,
    pub is_offscreen: bool,
}

impl LoweredBrowserSettings {
    pub open spec fn represents(self, s: BrowserSettings<'_>) -> bool {
        &&& self.url.wf()
        &&& self.url.content() == vstd::utf8::encode_utf8(s.url@)
        &&& self.window_handle == s.window_handle.0
        &&& self.frame_rate == s.frame_rate
        &&& self.width == s.width
        &&& self.height == s.height
        &&& self.device_scale_bits == s.device_scale_bits
        &&& self.is_offscreen == s.is_offscreen
    }
}

/// Lowers the configuration to its foreign form.  Fails — with a typed
/// error, not a fault — exactly when the URL cannot be carried as a
/// NUL-terminated buffer.
pub fn lower_browser_settings<'a>(s: &BrowserSettings<'a>) -> (r: Result<
    LoweredBrowserSettings,
    BoundaryError,
>)
    ensures
        r is Ok <==> nul_free(vstd::utf8::encode_utf8(s.url@)),
        r is Ok ==> (r->Ok_0).represents(*s),
        r is Err ==> r->Err_0 == BoundaryError::InteriorNul,
{
    let url = to_foreign(s.url)?;
    Ok(
        LoweredBrowserSettings {
            url,
            window_handle: s.window_handle.addr(),
            frame_rate: s.frame_rate,
            width: s.width,
            height: s.height,
            device_scale_bits: s.device_scale_bits,
            is_offscreen: s.is_offscreen,
        },
    )
}

/// Why a surface could not be brought up.
#[derive(Debug, Clone, Copy, PartialEq, Eq, Structural)]
pub enum SurfaceError {
    /// The first terminal lifecycle event was a load error.
    LoadFailed,
    /// The creation channel closed before any terminal event arrived:
    /// the surface was torn down mid-creation.
    CreationInterrupted,
}

/// Where a surface stands: `Creating` until the first terminal lifecycle
/// event, then `Ready` or `Failed`, and `Closed` after teardown.
#[derive(Debug, Clone, Copy, PartialEq, Eq, Structural)]
pub enum SurfacePhase {
    Creating,
    Ready,
    Failed,
    Closed,
}

/// One step of the creation state machine: while the surface is creating,
/// `Load` resolves it ready and signals success, `LoadError` resolves it
/// failed and signals failure, and any other event changes nothing; once
/// resolved, no event moves the phase or signals again.
pub open spec fn creation_step(phase: SurfacePhase, event: BrowserState) -> (
    SurfacePhase,
    Option<bool>,
) {
    if phase == SurfacePhase::Creating {
        match event {
            BrowserState::Load => (SurfacePhase::Ready, Some(true)),
            BrowserState::LoadError => (SurfacePhase::Failed, Some(false)),
            _ => (SurfacePhase::Creating, None),
        }
    } else {
        (phase, None)
    }
}

/// The phase a surface reaches after the whole event sequence, starting
/// from `phase`.
pub open spec fn run_creation(phase: SurfacePhase, events: Seq<BrowserState>) -> SurfacePhase
    decreases events.len(),
{
    if events.len() == 0 {
        phase
    } else {
        run_creation(creation_step(phase, events[0]).0, events.drop_first())
    }
}

/// The decision carried by the first terminal event of the sequence:
/// success for `Load`, failure for `LoadError`, nothing when no terminal
/// event arrives.
pub open spec fn first_terminal(events: Seq<BrowserState>) -> Option<bool>
    decreases events.len(),
{
    if events.len() == 0 {
        None
    } else if events[0] == BrowserState::Load {
        Some(true)
    } else if events[0] == BrowserState::LoadError {
        Some(false)
    } else {
        first_terminal(events.drop_first())
    }
}

/// A resolved surface stays resolved: from any phase but `Creating`, no
/// event sequence moves it.
pub proof fn lemma_resolved_phase_absorbs(phase: SurfacePhase, events: Seq<BrowserState>)
    requires
        phase != SurfacePhase::Creating,
    ensures
        run_creation(phase, events) == phase,
    decreases events.len(),
{
    if events.len() > 0 {
        lemma_resolved_phase_absorbs(phase, events.drop_first());
    }
}

/// The first terminal event decides creation, whatever follows it: over
/// any event sequence, a creating surface ends ready exactly when the
/// first terminal event is `Load`, failed exactly when it is
/// `LoadError`, and still creating when no terminal event arrives.
pub proof fn lemma_first_terminal_decides(events: Seq<BrowserState>)
    ensures
        run_creation(SurfacePhase::Creating, events) == (match first_terminal(events) {
            Some(true) => SurfacePhase::Ready,
            Some(false) => SurfacePhase::Failed,
            None => SurfacePhase::Creating,
        }),
    decreases events.len(),
{
    if events.len() > 0 {
        let first = events[0];
        if first == BrowserState::Load {
            lemma_resolved_phase_absorbs(SurfacePhase::Ready, events.drop_first());
        } else if first == BrowserState::LoadError {
            lemma_resolved_phase_absorbs(SurfacePhase::Failed, events.drop_first());
        } else {
            lemma_first_terminal_decides(events.drop_first());
        }
    }
}

/// The per-surface slot holding the registered inbound-bridge handler.
/// Registration is rare and dispatch frequent; the slot itself only says
/// what is registered — the reader/writer discipline around it belongs to
/// the caller.
pub struct HandlerSlot<H> {
    handler: Option<H>,
}

/// What one registration leaves in a slot, whatever it held before.
pub closed spec fn spec_register<H>(slot: HandlerSlot<H>, h: H) -> HandlerSlot<H> {
    HandlerSlot { handler: Some(h) }
}

impl<H> HandlerSlot<H> {
    pub closed spec fn current(self) -> Option<H> {
        self.handler
    }

    /// A fresh slot: no handler, so inbound requests draw the no-handler
    /// failure.
    pub fn new() -> (r: Self)
        ensures
            r.current() is None,
    {
        HandlerSlot { handler: None }
    }

    /// Registers `h`.  The last write wins: whatever was registered
    /// before is replaced outright.
    pub fn register(&mut self, h: H)
        ensures
            *final(self) == spec_register(*old(self), h),
            final(self).current() == Some(h),
    {
        self.handler = Some(h);
    }

    pub fn is_registered(&self) -> (r: bool)
        ensures
            r == (self.current() is Some),
    {
        self.handler.is_some()
    }

    /// The handler a request dispatched now runs under.
    pub fn get(&self) -> (r: Option<&H>)
        ensures
            r is Some <==> self.current() is Some,
            r matches Some(h) ==> *h == self.current()->0,
    {
        self.handler.as_ref()
    }
}

/// Re-registering replaces the prior handler: after `h1` then `h2` are
/// registered, the slot holds `h2`, and — unless the two are the same
/// handler — no longer holds `h1`; a request accepted afterwards runs
/// under `h2` only.
pub proof fn lemma_reregistration_replaces<H>(slot: HandlerSlot<H>, h1: H, h2: H)
    ensures
        spec_register(spec_register(slot, h1), h2).current() == Some(h2),
        h1 != h2 ==> spec_register(spec_register(slot, h1), h2).current() != Some(h1),
{
}

/// The byte length of one frame buffer: four bytes per pixel.  `None`
/// when the product does not fit the machine's word — the caller must not
/// touch such a frame.
pub fn frame_len(width: u32, height: u32) -> (r: Option<usize>)
    ensures
        r is Some <==> width * height * 4 <= usize::MAX,
        r matches Some(n) ==> n == width * height * 4,
{
    let pixels = (width as usize).checked_mul(height as usize)?;
    pixels.checked_mul(4)
}

/// The surface handle.  It owns the lowered settings the native side
/// keeps reading and walks `Creating -> Ready | Failed -> Closed`.
pub struct Browser {
    phase: SurfacePhase,
    native: NativeRef,
    settings: Option<LoweredBrowserSettings>,
}

impl Browser {
    pub closed spec fn phase(self) -> SurfacePhase {
        self.phase
    }

    pub closed spec fn native(self) -> NativeRef {
        self.native
    }

    pub closed spec fn settings(self) -> Option<LoweredBrowserSettings> {
        self.settings
    }

    /// The settings are retained exactly as long as the surface is not
    /// closed.
    pub open spec fn wf(self) -> bool {
        self.settings() is Some <==> self.phase() != SurfacePhase::Closed
    }

    /// Takes charge of the native surface object that creation returned,
    /// before any lifecycle event has arrived.
    pub fn new(settings: LoweredBrowserSettings, native: NativeRef) -> (r: Browser)
        ensures
            r.wf(),
            r.phase() == SurfacePhase::Creating,
            r.native() == native,
            r.settings() == Some(settings),
    {
        Browser { phase: SurfacePhase::Creating, native, settings: Some(settings) }
    }

    /// Where the surface stands now, for callers that must test before
    /// they act.
    pub fn current_phase(&self) -> (r: SurfacePhase)
        ensures
            r == self.phase(),
    {
        self.phase
    }

    /// Consumes one lifecycle event, in arrival order, and hands back the
    /// creation signal when this event is the deciding one.  Every event
    /// is also the observer's to see; that part carries no decision.
    pub fn on_lifecycle_event(&mut self, event: BrowserState) -> (signal: Option<bool>)
        requires
            old(self).wf(),
        ensures
            final(self).wf(),
            (final(self).phase(), signal) == creation_step(old(self).phase(), event),
            final(self).native() == old(self).native(),
            final(self).settings() == old(self).settings(),
    {
        if self.phase == SurfacePhase::Creating {
            match event {
                BrowserState::Load => {
                    self.phase = SurfacePhase::Ready;
                    Some(true)
                },
                BrowserState::LoadError => {
                    self.phase = SurfacePhase::Failed;
                    Some(false)
                },
                _ => None,
            }
        } else {
            None
        }
    }

    /// Resolves the awaited creation from the signal the event task sent:
    /// success on `Some(true)`, a load failure on `Some(false)`, and an
    /// interrupted creation when the channel closed without a signal.
    pub fn resolve_creation(signal: Option<bool>) -> (r: Result<(), SurfaceError>)
        ensures
            signal == Some(true) <==> r is Ok,
            signal == Some(false) ==> r == Err::<(), SurfaceError>(SurfaceError::LoadFailed),
            signal is None ==> r == Err::<(), SurfaceError>(SurfaceError::CreationInterrupted),
    {
        match signal {
            Some(true) => Ok(()),
            Some(false) => Err(SurfaceError::LoadFailed),
            None => Err(SurfaceError::CreationInterrupted),
        }
    }

    /// Lowers a mouse event for this surface.  A surface takes input only
    /// while it is ready.
    pub fn on_mouse(&self, action: MouseAction) -> (r: InputCall)
        requires
            self.phase() == SurfacePhase::Ready,
        ensures
            r == mouse_lowering(action),
    {
        Control::on_mouse(action)
    }

    pub fn on_keyboard(&self, scan_code: u32, state: ActionState, modifiers: Modifiers) -> (r:
        InputCall)
        requires
            self.phase() == SurfacePhase::Ready,
        ensures
            r == keyboard_lowering(scan_code, state, modifiers),
    {
        Control::on_keyboard(scan_code, state, modifiers)
    }

    pub fn on_touch(
        &self,
        id: i32,
        x: i32,
        y: i32,
        kind: TouchEventType,
        pointer: TouchPointerType,
    ) -> (r: InputCall)
        requires
            self.phase() == SurfacePhase::Ready,
        ensures
            r == touch_lowering(id, x, y, kind, pointer),
    {
        Control::on_touch(id, x, y, kind, pointer)
    }

    pub fn on_ime(&self, action: ImeAction<'_>) -> (r: Result<InputCall, BoundaryError>)
        requires
            self.phase() == SurfacePhase::Ready,
        ensures
            action matches ImeAction::Composition(s) ==> {
                &&& (r is Ok <==> nul_free(vstd::utf8::encode_utf8(s@)))
                &&& (r is Ok ==> (r->Ok_0 matches InputCall::ImeComposition { input }
                    && input.wf() && input.content() == vstd::utf8::encode_utf8(s@)))
            },
            action matches ImeAction::Pre(s, px, py) ==> {
                &&& (r is Ok <==> nul_free(vstd::utf8::encode_utf8(s@)))
                &&& (r is Ok ==> (r->Ok_0 matches InputCall::ImeSetComposition { input, x, y }
                    && input.wf() && input.content() == vstd::utf8::encode_utf8(s@)
                    && x == px && y == py))
            },
            r is Err ==> r->Err_0 == BoundaryError::InteriorNul,
    {
        Control::on_ime(action)
    }

    /// The native resize arguments for a new pixel size.  The native
    /// entry point takes signed words, so each side must fit one.
    pub fn resize(&self, width: u32, height: u32) -> (r: (i32, i32))
        requires
            self.phase() == SurfacePhase::Ready,
            width <= i32::MAX,
            height <= i32::MAX,
        ensures
            r.0 == width as i32,
            r.1 == height as i32,
    {
        (width as i32, height as i32)
    }

    /// Tears the surface down: to be called exactly once, from the last
    /// reference's drop.  Hands the retained settings back so the caller
    /// can release them after the native close call — never before, and
    /// never twice, since a closed surface cannot be closed again.
    pub fn close(&mut self) -> (freed: Option<LoweredBrowserSettings>)
        requires
            old(self).wf(),
            old(self).phase() != SurfacePhase::Closed,
        ensures
            final(self).phase() == SurfacePhase::Closed,
            final(self).settings() is None,
            final(self).native() == old(self).native(),
            freed == old(self).settings(),
            freed is Some,
    {
        self.phase = SurfacePhase::Closed;
        self.settings.take()
    }
}

} // verus!
