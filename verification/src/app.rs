//! The engine handle: one running native engine process.
//!
//! Creation lowers the configuration to foreign buffers, hands them to
//! the native create entry point, and waits — through a correlation slot
//! — for the run loop to confirm startup.  The lowered configuration is
//! retained for the engine's whole life, because native code keeps
//! reading the buffers; teardown requests native exit once and only then
//! releases them.

use crate::boundary::{nul_free, to_foreign_opt, BoundaryError, ForeignBuffer};
use vstd::prelude::*;

verus! {

/// A reference to an object owned by native code, carried as its raw
/// address; address zero is the null reference.
#[derive(Debug, Clone, Copy, PartialEq, Eq, Structural)]
pub struct NativeRef {
    pub addr: usize,
}

impl NativeRef {
    pub fn is_null(&self) -> (r: bool)
        ensures
            r == (self.addr == 0),
    {
        self.addr == 0
    }
}

/// Engine-level configuration.  Each path is optional; an absent path
/// crosses the boundary as the null pointer and leaves the engine's own
/// default in force.
#[derive(Debug)]
pub struct AppSettings<'a> {
    pub cache_path: Option<&'a str>,
    pub browser_subprocess_path: Option<&'a str>,
    pub scheme_path: Option<&'a str>,
}

/// True when `buf` is the foreign form of `text`: absent exactly when the
/// text is absent, else a well-formed buffer carrying the text's bytes.
pub open spec fn buffer_represents(text: Option<&str>, buf: Option<ForeignBuffer>) -> bool {
    match text {
        None => buf is None,
        Some(t) => buf matches Some(b) && b.wf() && b.content() == vstd::utf8::encode_utf8(t@),
    }
}

/// The foreign-encoded copy of `AppSettings`, retained while the engine
/// runs and released exactly once at teardown.
pub struct LoweredAppSettings {
    pub cache_path: Option<ForeignBuffer>,
    pub browser_subprocess_path: Option<ForeignBuffer>,
    pub scheme_path: Option<ForeignBuffer>,
}

impl LoweredAppSettings {
    pub open spec fn represents(self, s: AppSettings<'_>) -> bool {
        &&& buffer_represents(s.cache_path, self.cache_path)
        &&& buffer_represents(s.browser_subprocess_path, self.browser_subprocess_path)
        &&& buffer_represents(s.scheme_path, self.scheme_path)
    }
}

/// True when every present path can cross the boundary: none of their
/// UTF-8 bytes is zero.
pub open spec fn app_settings_encodable(s: AppSettings<'_>) -> bool {
    &&& (s.cache_path matches Some(t) ==> nul_free(vstd::utf8::encode_utf8(t@)))
    &&& (s.browser_subprocess_path matches Some(t) ==> nul_free(vstd::utf8::encode_utf8(t@)))
    &&& (s.scheme_path matches Some(t) ==> nul_free(vstd::utf8::encode_utf8(t@)))
}

/// Lowers the configuration to its foreign form.  Fails — with a typed
/// error, not a fault — exactly when some present path cannot be carried
/// as a NUL-terminated buffer.
pub fn lower_app_settings<'a>(s: &AppSettings<'a>) -> (r: Result<
    LoweredAppSettings,
    BoundaryError,
>)
    ensures
        r is Ok <==> app_settings_encodable(*s),
        r is Ok ==> (r->Ok_0).represents(*s),
        r is Err ==> r->Err_0 == BoundaryError::InteriorNul,
{
    let cache_path = to_foreign_opt(s.cache_path)?;
    let browser_subprocess_path = to_foreign_opt(s.browser_subprocess_path)?;
    let scheme_path = to_foreign_opt(s.scheme_path)?;
    Ok(LoweredAppSettings { cache_path, browser_subprocess_path, scheme_path })
}

/// Why an engine could not be brought up.
#[derive(Debug, Clone, Copy, PartialEq, Eq, Structural)]
pub enum EngineError {
    /// Native creation returned the null handle.
    CreateFailed,
}

/// Where the engine stands: `Starting` until the native run loop confirms
/// startup, then `Ready` until teardown closes it.
#[derive(Debug, Clone, Copy, PartialEq, Eq, Structural)]
pub enum EngineState {
    Starting,
    Ready,
    Closed,
}

/// The engine handle.  It owns the native engine object and the lowered
/// configuration the native side keeps reading.
///
/// Precondition on callers: every surface created from an engine borrows
/// its native handle, so the engine must outlive all of them — it is a
/// caller error to tear an engine down while a surface is still live.
pub struct App {
    state: EngineState,
    native: NativeRef,
    config: Option<LoweredAppSettings>,
}

impl App {
    pub closed spec fn state(self) -> EngineState {
        self.state
    }

    pub closed spec fn native(self) -> NativeRef {
        self.native
    }

    pub closed spec fn config(self) -> Option<LoweredAppSettings> {
        self.config
    }

    /// The configuration is retained exactly as long as the engine is not
    /// closed, and the native handle is never null.
    pub open spec fn wf(self) -> bool {
        &&& (self.config() is Some <==> self.state() != EngineState::Closed)
        &&& self.native().addr != 0
    }

    /// Takes charge of the native engine object that creation returned.
    /// Exactly the null handle — native creation failed on the spot — is
    /// refused; every other handle yields the starting engine.
    pub fn new(config: LoweredAppSettings, native: NativeRef) -> (r: Result<App, EngineError>)
        ensures
            r is Ok <==> native.addr != 0,
            native.addr == 0 ==> r == Err::<App, EngineError>(EngineError::CreateFailed),
            r is Ok ==> {
                let app = r->Ok_0;
                &&& app.wf()
                &&& app.state() == EngineState::Starting
                &&& app.native() == native
                &&& app.config() == Some(config)
            },
    {
        if native.is_null() {
            Err(EngineError::CreateFailed)
        } else {
            Ok(App { state: EngineState::Starting, native, config: Some(config) })
        }
    }

    /// Where the engine stands now, for callers that must test before
    /// they act.
    pub fn current_state(&self) -> (r: EngineState)
        ensures
            r == self.state(),
    {
        self.state
    }

    /// The native run loop confirmed startup — the one readiness signal,
    /// delivered through the creation correlation slot.
    pub fn confirm_ready(&mut self)
        requires
            old(self).wf(),
            old(self).state() == EngineState::Starting,
        ensures
            final(self).wf(),
            final(self).state() == EngineState::Ready,
            final(self).native() == old(self).native(),
            final(self).config() == old(self).config(),
    {
        self.state = EngineState::Ready;
    }

    /// Whether the run loop's exit code is fatal for the hosting process.
    /// A non-zero exit means the engine process is corrupt and nothing
    /// built on it can be trusted to continue.
    pub fn run_exit_fatal(code: i32) -> (r: bool)
        ensures
            r == (code != 0),
    {
        code != 0
    }

    /// Tears the engine down: to be called exactly once, from the last
    /// reference's drop.  Hands the retained configuration back so the
    /// caller can release it after the native exit call — never before,
    /// and never twice, since a closed engine cannot be closed again.
    pub fn close(&mut self) -> (freed: Option<LoweredAppSettings>)
        requires
            old(self).wf(),
            old(self).state() != EngineState::Closed,
        ensures
            *final(self) == spec_close(*old(self)).0,
            freed == spec_close(*old(self)).1,
            final(self).state() == EngineState::Closed,
            final(self).config() is None,
            final(self).native() == old(self).native(),
            freed == old(self).config(),
            freed is Some,
    {
        self.state = EngineState::Closed;
        self.config.take()
    }
}

/// What one teardown does: the engine it leaves behind, and what it hands
/// back for release — the retained configuration.
pub closed spec fn spec_close(app: App) -> (App, Option<LoweredAppSettings>) {
    (App { state: EngineState::Closed, native: app.native, config: None }, app.config)
}

/// Engine teardown releases the configuration exactly once.  The one
/// close of a live engine hands back the one configuration it retained —
/// with its embedded foreign buffers, each owned and so freed once — and
/// leaves a well-formed closed engine that retains nothing and no longer
/// meets close's own precondition: a second teardown of it cannot be
/// verified.  The paired native exit call is the caller's, made once,
/// before the returned configuration is released.
pub proof fn lemma_teardown_frees_config_once(app: App)
    requires
        app.wf(),
        app.state() != EngineState::Closed,
    ensures
        spec_close(app).1 == app.config() && spec_close(app).1 is Some,
        spec_close(app).0.state() == EngineState::Closed,
        spec_close(app).0.config() is None,
        spec_close(app).0.wf(),
        spec_close(app).0.native() == app.native(),
{
}

} // verus!
