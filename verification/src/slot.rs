//! The global library slot: a lazily filled, exactly-once-loaded handle to a
//! native shared library, together with the one-shot gate that guards the
//! population of the symbol tables depending on it.
//!
//! The slot never gives its handle up: once a native library is open it stays
//! open for the rest of the process, because resolved function addresses have
//! no safe revocation protocol.

use vstd::prelude::*;

verus! {

#[verifier::external_type_specification]
#[verifier::external_body]
/// The native shared-library handle of the `libloading` crate.
pub struct ExLibrary(libloading::Library);

#[verifier::external_type_specification]
#[verifier::external_body]
/// The error the platform's loader reports when a library cannot be opened.
pub struct ExIoError(std::io::Error);

/// Relies on libloading::Library::new: it asks the platform's loader to open
/// the shared library at the given path, and returns the open handle or the
/// loader's error. Whether it succeeds depends on the machine's disks and
/// loader state, so nothing is promised of the outcome.
#[verifier::external_body]
fn open_library(path: &str) -> Result<libloading::Library, std::io::Error> {
    libloading::Library::new(path)
}

/// Relies on the std Display implementation of std::io::Error: it renders the
/// platform loader's diagnostic as text. The text depends on the platform, so
/// nothing is promised of it.
#[verifier::external_body]
fn describe_io_error(e: &std::io::Error) -> String {
    format!("{}", e)
}

/// The platform loader rejected a path: the library was missing, of the wrong
/// architecture, or missing its own dependencies. Recoverable: the caller may
/// adjust the environment and try again.
#[derive(Debug)]
pub struct LoadError {
    /// The platform loader's own diagnostic, rendered as text.
    pub message: String,
}

/// A process-wide slot holding at most one native library handle, filled at
/// most once, plus the one-shot gate that records whether the dependent
/// symbol tables have been populated.
pub struct GlobalLibrary {
    handle: Option<libloading::Library>,
    populated: bool,
}

impl GlobalLibrary {
    /// Whether a native handle has been published into the slot.
    pub closed spec fn handle_present(&self) -> bool {
        self.handle is Some
    }

    /// The published handle itself, if any.
    pub closed spec fn spec_handle(&self) -> Option<libloading::Library> {
        self.handle
    }

    /// Whether the one-shot population gate has been closed: true only after
    /// the dependent symbol tables were populated against the handle.
    pub closed spec fn gate_complete(&self) -> bool {
        self.populated
    }

    /// The slot's invariant: the population gate reports complete only when a handle is
    /// present, so no reader ever sees "initialized" without a library.
    pub open spec fn wf(&self) -> bool {
        self.gate_complete() ==> self.handle_present()
    }

    /// A slot counts as loaded only when both a handle has been published and
    /// the population gate is complete.
    pub open spec fn spec_is_loaded(&self) -> bool {
        self.handle_present() && self.gate_complete()
    }

    /// A fresh slot: no handle, gate open.
    pub fn new() -> (r: Self)
        ensures
            !r.handle_present(),
            !r.gate_complete(),
    {
        GlobalLibrary { handle: None, populated: false }
    }

    /// Whether a handle has been published, complete or not: callers check
    /// this before asking for the handle itself.
    pub fn has_handle(&self) -> (r: bool)
        ensures
            r == self.handle_present(),
    {
        self.handle.is_some()
    }

    /// Non-blocking query: true only if a handle has been published and the
    /// population gate reports complete.
    pub fn is_loaded(&self) -> (r: bool)
        ensures
            r == self.spec_is_loaded(),
    {
        self.handle.is_some() && self.populated
    }

    /// Offer a freshly opened handle to the slot. Exactly one offer per slot
    /// ever wins: if a handle is already present the newcomer is discarded,
    /// never installed and never handed out, and the slot is unchanged.
    pub fn publish(&mut self, lib: libloading::Library) -> (kept: bool)
        ensures
            *final(self) == publish_step(*old(self), lib),
            final(self).handle_present(),
            final(self).gate_complete() == old(self).gate_complete(),
            kept == !old(self).handle_present(),
            old(self).handle_present() ==> *final(self) == *old(self),
            !old(self).handle_present() ==> final(self).spec_handle() == Some(lib),
    {
        if self.handle.is_some() {
            false
        } else {
            self.handle = Some(lib);
            true
        }
    }

    /// Open the library at `path` and publish it, unless a handle is already
    /// present, in which case nothing is opened and the call succeeds at once.
    /// A loader failure is returned, not cached: a later call may succeed.
    pub fn try_publish_path(&mut self, path: &str) -> (r: Result<(), LoadError>)
        ensures
            final(self).gate_complete() == old(self).gate_complete(),
            r is Ok <==> final(self).handle_present(),
            old(self).handle_present() ==> r is Ok && *final(self) == *old(self),
            r is Err ==> *final(self) == *old(self),
            old(self).wf() ==> final(self).wf(),
    {
        if self.handle.is_some() {
            Ok(())
        } else {
            match open_library(path) {
                Ok(lib) => {
                    self.handle = Some(lib);
                    Ok(())
                },
                Err(e) => Err(LoadError { message: describe_io_error(&e) }),
            }
        }
    }

    /// Close the one-shot population gate. Only the population step closes
    /// it, and only after a handle is present, so `wf` is re-established.
    pub(crate) fn close_gate(&mut self)
        requires
            old(self).handle_present(),
        ensures
            *final(self) == gate_closed_step(*old(self)),
            final(self).gate_complete(),
            final(self).spec_handle() == old(self).spec_handle(),
            final(self).wf(),
    {
        self.populated = true;
    }

    /// Borrow the published handle so that symbols can be resolved against it.
    pub fn handle_ref(&self) -> (r: Option<&libloading::Library>)
        ensures
            r is Some <==> self.handle_present(),
            r is Some ==> self.spec_handle() == Some(*r->0),
    {
        self.handle.as_ref()
    }
}

/// What one offer of a handle does to a slot: the first offer installs its
/// library, every later offer leaves the slot exactly as it was.
pub closed spec fn publish_step(s: GlobalLibrary, lib: libloading::Library) -> GlobalLibrary {
    if s.handle_present() {
        s
    } else {
        GlobalLibrary { handle: Some(lib), populated: s.populated }
    }
}

/// What closing the population gate does to a slot: the handle is untouched,
/// the population gate reports complete from then on.
pub closed spec fn gate_closed_step(s: GlobalLibrary) -> GlobalLibrary {
    GlobalLibrary { handle: s.handle, populated: true }
}

/// How a slot looks after its gate was closed: same handle, gate complete.
pub proof fn lemma_gate_closed_step(s: GlobalLibrary)
    ensures
        gate_closed_step(s).gate_complete(),
        gate_closed_step(s).spec_handle() == s.spec_handle(),
        gate_closed_step(s).handle_present() == s.handle_present(),
        s.gate_complete() ==> gate_closed_step(s) == s,
{
}

/// Law: exactly one handle survives a race. However many handles are offered
/// to one slot, the slot keeps the first and discards the rest: offering `a`
/// and then `b` leaves the same slot as offering `a` alone, and the survivor
/// is `a` whenever the slot started empty.
pub proof fn lemma_publish_exactly_once(
    s: GlobalLibrary,
    a: libloading::Library,
    b: libloading::Library,
)
    ensures
        publish_step(publish_step(s, a), b) == publish_step(s, a),
        !s.handle_present() ==> publish_step(s, a).spec_handle() == Some(a),
{
}

/// The slot left behind by a whole sequence of offered handles, in order.
pub open spec fn run_publishes(s: GlobalLibrary, libs: Seq<libloading::Library>) -> GlobalLibrary
    decreases libs.len(),
{
    if libs.len() == 0 {
        s
    } else {
        run_publishes(publish_step(s, libs[0]), libs.drop_first())
    }
}

/// Law: the native library is opened at most once per slot. Once any handle
/// is in, a whole crowd of concurrently offered handles, in any order, leaves
/// the slot exactly as it was: all the latecomers are discarded.
pub proof fn lemma_slot_stable_under_publishes(
    s: GlobalLibrary,
    libs: Seq<libloading::Library>,
)
    requires
        s.handle_present(),
    ensures
        run_publishes(s, libs) == s,
    decreases libs.len(),
{
    if libs.len() > 0 {
        lemma_slot_stable_under_publishes(s, libs.drop_first());
    }
}

/// Law: publishing never opens the population gate and never loses a handle, so a slot
/// that reports loaded keeps reporting loaded whatever is offered to it.
pub proof fn lemma_publish_preserves_loaded(s: GlobalLibrary, lib: libloading::Library)
    ensures
        publish_step(s, lib).gate_complete() == s.gate_complete(),
        s.wf() ==> publish_step(s, lib).wf(),
        s.spec_is_loaded() ==> publish_step(s, lib) == s,
{
}

} // verus!
