//! The bridge state: the windowing context with the registry of its windows,
//! and the decisions that each operation takes on it.

use vstd::prelude::*;
use crate::adapter::{handle_args, handle_args_outcome, key_args, key_args_outcome, no_args,
    no_args_outcome, window_args, window_args_outcome, WindowRequest};
use crate::error::BridgeError;
use crate::keys::{is_key_code, key_from_code};
use crate::registry::{entry_of, is_full, is_live, position_of, Registry};
use crate::value::Value;

verus! {

/// What exists once the backend has started: its context and the caller
/// that started it.
struct Session<C> {
    context: C,
    owner: u64,
}

/// The bridge between host and backend, over a backend context of type `C`
/// and window entries of type `W`. An entry is one unit: the native window
/// together with its event stream.
///
/// The bridge performs no native call itself. Each operation says what is to
/// be asked of the backend, and takes back what the backend answered.
///
/// A native backend is bound to the thread that started it. The bridge keeps
/// the identity of the caller that started the backend, as a number that the
/// caller's side assigns to its threads, and [`Bridge::enter`] refuses every
/// other caller.
pub struct Bridge<C, W> {
    session: Option<Session<C>>,
    registry: Registry<W>,
}

impl<C, W> Bridge<C, W> {
    /// Whether the backend has been started.
    pub closed spec fn is_initialized(self) -> bool {
        self.session is Some
    }

    /// The context of the started backend.
    pub closed spec fn context_of(self) -> C
        recommends
            self.is_initialized(),
    {
        self.session->Some_0.context
    }

    /// The caller that started the backend.
    pub closed spec fn owner_of(self) -> u64
        recommends
            self.is_initialized(),
    {
        self.session->Some_0.owner
    }

    /// Whether a caller may run operations on the bridge: any caller before
    /// the backend has started, and from then on only the one that started
    /// it.
    pub open spec fn is_admitted(self, caller: u64) -> bool {
        self.is_initialized() ==> self.owner_of() == caller
    }

    /// The window entries that the bridge holds, in the order of their
    /// creation.
    pub closed spec fn windows(self) -> Seq<W> {
        self.registry@
    }

    /// The number of handles issued since the bridge was made, those of
    /// windows that a later start of the backend dropped included.
    pub closed spec fn issued(self) -> int {
        self.registry.issued()
    }

    /// Whether `handle` leads to a window that the bridge holds.
    pub open spec fn is_live(self, handle: int) -> bool {
        is_live(self.issued(), self.windows(), handle)
    }

    /// The window that `handle` leads to.
    pub open spec fn window_of(self, handle: int) -> W
        recommends
            self.is_live(handle),
    {
        entry_of(self.issued(), self.windows(), handle)
    }

    /// Whether `other` shows the same state as `self`.
    pub open spec fn same_as(self, other: Self) -> bool {
        &&& self.is_initialized() == other.is_initialized()
        &&& self.windows() == other.windows()
        &&& self.issued() == other.issued()
        &&& self.is_initialized() ==> self.context_of() == other.context_of()
        &&& self.is_initialized() ==> self.owner_of() == other.owner_of()
    }

    /// What an operation without arguments on the backend finds: the
    /// not-initialized error before the backend has started, whatever the
    /// arguments; an argument error for a list that is not empty; else the
    /// context.
    pub open spec fn context_target(self, args: Seq<Value>) -> Result<C, BridgeError> {
        if !self.is_initialized() {
            Err(BridgeError::NotInitialized)
        } else {
            match no_args_outcome(args) {
                Err(e) => Err(e),
                Ok(_) => Ok(self.context_of()),
            }
        }
    }

    /// What an operation on one window finds for the argument list (handle):
    /// the not-initialized error before the backend has started, whatever the
    /// arguments; an argument error for a wrong shape; no window for a handle
    /// that leads to none; else the window under the handle.
    pub open spec fn window_target(self, args: Seq<Value>) -> Result<Option<W>, BridgeError> {
        if !self.is_initialized() {
            Err(BridgeError::NotInitialized)
        } else {
            match handle_args_outcome(args) {
                Err(e) => Err(e),
                Ok(handle) => if self.is_live(handle as int) {
                    Ok(Some(self.window_of(handle as int)))
                } else {
                    Ok(None)
                },
            }
        }
    }

    /// What a key query finds for the argument list (handle, key code): as
    /// [`Bridge::window_target`], and for a window that exists the key to ask
    /// it about, or an argument error where the code names no key.
    pub open spec fn key_target(self, args: Seq<Value>) -> Result<Option<(W, i32)>, BridgeError> {
        if !self.is_initialized() {
            Err(BridgeError::NotInitialized)
        } else {
            match key_args_outcome(args) {
                Err(e) => Err(e),
                Ok((handle, code)) => if !self.is_live(handle as int) {
                    Ok(None)
                } else if !is_key_code(code as int) {
                    Err(BridgeError::Argument)
                } else {
                    Ok(Some((self.window_of(handle as int), code as i32)))
                },
            }
        }
    }

    /// What the first half of a window creation answers for the argument
    /// list (width, height, title): the not-initialized error before the
    /// backend has started, whatever the arguments; else as the arguments
    /// fare.
    pub open spec fn creation_plan(self, args: Seq<Value>) -> Result<
        (int, int, Seq<char>),
        BridgeError,
    > {
        if !self.is_initialized() {
            Err(BridgeError::NotInitialized)
        } else {
            window_args_outcome(args)
        }
    }

    /// Every window has a handle of its own, and handles start at 1.
    pub proof fn lemma_issued_covers_windows(self)
        ensures
            self.windows().len() <= self.issued(),
            forall|h: int| self.is_live(h) ==> 1 <= h <= self.issued(),
    {
        self.registry.lemma_issued_covers_entries();
    }

    /// A bridge whose backend has not been started, and that has issued no
    /// handle.
    pub fn new() -> (bridge: Self)
        ensures
            !bridge.is_initialized(),
            bridge.windows() == Seq::<W>::empty(),
            bridge.issued() == 0,
    {
        Bridge { session: None, registry: Registry::new() }
    }

    /// Computes [`Bridge::is_initialized`].
    pub fn is_started(&self) -> (started: bool)
        ensures
            started == self.is_initialized(),
    {
        self.session.is_some()
    }

    /// The number of windows in the registry.
    pub fn window_count(&self) -> (n: usize)
        ensures
            n == self.windows().len(),
    {
        self.registry.len()
    }

    /// Computes [`Bridge::is_admitted`].
    pub fn admits(&self, caller: u64) -> (admitted: bool)
        ensures
            admitted == self.is_admitted(caller),
    {
        match &self.session {
            Some(session) => session.owner == caller,
            None => true,
        }
    }

    /// The check that stands before every operation, a restart of the
    /// backend included: a caller that is not admitted is refused with the
    /// wrong-thread error.
    pub fn enter(&self, caller: u64) -> (result: Result<(), BridgeError>)
        ensures
            self.is_admitted(caller) ==> result == Ok::<(), BridgeError>(()),
            !self.is_admitted(caller) ==> result == Err::<(), BridgeError>(
                BridgeError::WrongThread,
            ),
    {
        if self.admits(caller) {
            Ok(())
        } else {
            Err(BridgeError::WrongThread)
        }
    }

    /// Takes the outcome of starting the backend, and who started it. A
    /// started context replaces the earlier one, the windows of the earlier
    /// one are dropped, and `caller` becomes the owner. The handles issued
    /// so far stay spent: they lead to no window any more, and the next
    /// window gets the handle after them. A failed start leaves the state as
    /// it was.
    pub fn init(&mut self, started: Option<C>, caller: u64) -> (result: Result<Value, BridgeError>)
        ensures
            started is None ==> result == Err::<Value, BridgeError>(BridgeError::BackendInit)
                && *final(self) == *old(self),
            started is Some ==> result == Ok::<Value, BridgeError>(Value::Boolean(true))
                && final(self).is_initialized() && final(self).context_of() == started->Some_0
                && final(self).owner_of() == caller
                && final(self).windows() == Seq::<W>::empty()
                && final(self).issued() == old(self).issued(),
    {
        match started {
            None => Err(BridgeError::BackendInit),
            Some(context) => {
                self.registry.discard();
                self.session = Some(Session { context, owner: caller });
                Ok(Value::Boolean(true))
            },
        }
    }

    /// The context, for a backend call that reads it.
    pub fn context(&self) -> (result: Result<&C, BridgeError>)
        ensures
            self.is_initialized() ==> result == Ok::<&C, BridgeError>(&self.context_of()),
            !self.is_initialized() ==> result == Err::<&C, BridgeError>(BridgeError::NotInitialized),
    {
        match &self.session {
            Some(session) => Ok(&session.context),
            None => Err(BridgeError::NotInitialized),
        }
    }

    /// The context, for a backend call that changes it, such as creating a
    /// window. The windows and the handles stay as they are.
    pub fn context_mut(&mut self) -> (result: Result<&mut C, BridgeError>)
        ensures
            old(self).is_initialized() ==> result is Ok && *result->Ok_0 == old(self).context_of()
                && final(self).is_initialized() && final(self).context_of() == *final(result->Ok_0)
                && final(self).owner_of() == old(self).owner_of()
                && final(self).windows() == old(self).windows()
                && final(self).issued() == old(self).issued(),
            !old(self).is_initialized() ==> result == Err::<&mut C, BridgeError>(
                BridgeError::NotInitialized,
            ) && *final(self) == *old(self),
    {
        match &mut self.session {
            Some(session) => Ok(&mut session.context),
            None => Err(BridgeError::NotInitialized),
        }
    }

    /// The context to read the clock of, for the argument list of the clock
    /// query, which must be empty.
    pub fn get_time_context(&self, args: &Vec<Value>) -> (result: Result<&C, BridgeError>)
        ensures
            match self.context_target(args@) {
                Ok(context) => result == Ok::<&C, BridgeError>(&context),
                Err(e) => result == Err::<&C, BridgeError>(e),
            },
    {
        match &self.session {
            None => Err(BridgeError::NotInitialized),
            Some(session) => match no_args(args) {
                Err(e) => Err(e),
                Ok(_) => Ok(&session.context),
            },
        }
    }

    /// The context to poll for events, for the argument list of the poll,
    /// which must be empty. The windows and the handles stay as they are.
    pub fn poll_events_context(&mut self, args: &Vec<Value>) -> (result: Result<
        &mut C,
        BridgeError,
    >)
        ensures
            match old(self).context_target(args@) {
                Ok(context) => result is Ok && *result->Ok_0 == context
                    && final(self).is_initialized()
                    && final(self).context_of() == *final(result->Ok_0)
                    && final(self).owner_of() == old(self).owner_of()
                    && final(self).windows() == old(self).windows()
                    && final(self).issued() == old(self).issued(),
                Err(e) => result == Err::<&mut C, BridgeError>(e) && *final(self) == *old(self),
            },
    {
        match &mut self.session {
            None => Err(BridgeError::NotInitialized),
            Some(session) => match no_args(args) {
                Err(e) => Err(e),
                Ok(_) => Ok(&mut session.context),
            },
        }
    }

    /// First half of creating a window: what to ask of the backend. Fails
    /// with the not-initialized error before the backend has started, whatever
    /// the arguments; then as the argument list fares. The state is only
    /// read.
    pub fn plan_create_window(&self, args: &Vec<Value>) -> (result: Result<
        WindowRequest,
        BridgeError,
    >)
        ensures
            match self.creation_plan(args@) {
                Ok((width, height, title)) => result is Ok && result->Ok_0.width == width
                    && result->Ok_0.height == height && result->Ok_0.title@ == title,
                Err(e) => result == Err::<WindowRequest, BridgeError>(e),
            },
    {
        if self.session.is_none() {
            return Err(BridgeError::NotInitialized);
        }
        window_args(args)
    }

    /// Second half of creating a window: takes what the backend made. A
    /// window is stored under the handle after the last one issued, which is
    /// returned as an integer. Where the backend made none, or no handle is
    /// left, the window-creation error comes back and the state stays as it
    /// was; so it does, with the not-initialized error, before the backend has
    /// started.
    pub fn create_window(&mut self, created: Option<W>) -> (result: Result<Value, BridgeError>)
        ensures
            !old(self).is_initialized() ==> result == Err::<Value, BridgeError>(
                BridgeError::NotInitialized,
            ) && final(self).same_as(*old(self)),
            old(self).is_initialized() && (created is None || is_full(old(self).issued()))
                ==> result == Err::<Value, BridgeError>(BridgeError::WindowCreation)
                && final(self).same_as(*old(self)),
            old(self).is_initialized() && created is Some && !is_full(old(self).issued())
                ==> result == Ok::<Value, BridgeError>(
                Value::Integer((old(self).issued() + 1) as i64),
            ) && final(self).is_initialized() && final(self).context_of() == old(self).context_of()
                && final(self).owner_of() == old(self).owner_of()
                && final(self).issued() == old(self).issued() + 1
                && final(self).windows() == old(self).windows().push(created->Some_0),
    {
        if self.session.is_none() {
            return Err(BridgeError::NotInitialized);
        }
        match created {
            None => Err(BridgeError::WindowCreation),
            Some(window) => match self.registry.insert(window) {
                Some(handle) => Ok(Value::Integer(handle)),
                None => Err(BridgeError::WindowCreation),
            },
        }
    }

    /// The window to ask whether its closing was requested. `Ok(None)` says
    /// that the handle leads to no window: there is nothing to ask, and the
    /// answer for the host is that of a closed window.
    pub fn should_close_window(&self, args: &Vec<Value>) -> (result: Result<
        Option<&W>,
        BridgeError,
    >)
        ensures
            match self.window_target(args@) {
                Err(e) => result == Err::<Option<&W>, BridgeError>(e),
                Ok(None) => result == Ok::<Option<&W>, BridgeError>(None),
                Ok(Some(window)) => result == Ok::<Option<&W>, BridgeError>(Some(&window)),
            },
    {
        if self.session.is_none() {
            return Err(BridgeError::NotInitialized);
        }
        match handle_args(args) {
            Err(e) => Err(e),
            Ok(handle) => Ok(self.registry.get(handle)),
        }
    }

    /// The window whose frame is to be presented. `Ok(None)` says that the
    /// handle leads to no window: nothing is to be done. Whatever the caller
    /// does to the window, the context, the other windows and all handles
    /// stay as they are.
    pub fn swap_buffers_window(&mut self, args: &Vec<Value>) -> (result: Result<
        Option<&mut W>,
        BridgeError,
    >)
        ensures
            match old(self).window_target(args@) {
                Err(e) => result == Err::<Option<&mut W>, BridgeError>(e) && final(self).same_as(
                    *old(self),
                ),
                Ok(None) => result == Ok::<Option<&mut W>, BridgeError>(None)
                    && final(self).same_as(*old(self)),
                Ok(Some(window)) => {
                    &&& result is Ok
                    &&& result->Ok_0 is Some
                    &&& *result->Ok_0->Some_0 == window
                    &&& final(self).is_initialized()
                    &&& final(self).context_of() == old(self).context_of()
                    &&& final(self).owner_of() == old(self).owner_of()
                    &&& final(self).issued() == old(self).issued()
                    &&& final(self).windows() == old(self).windows().update(
                        position_of(
                            old(self).issued(),
                            old(self).windows(),
                            handle_args_outcome(args@)->Ok_0 as int,
                        ),
                        *final(result->Ok_0->Some_0),
                    )
                },
            },
    {
        if self.session.is_none() {
            return Err(BridgeError::NotInitialized);
        }
        match handle_args(args) {
            Err(e) => Err(e),
            Ok(handle) => Ok(self.registry.get_mut(handle)),
        }
    }

    /// The window and the key to ask it about. `Ok(None)` says that the
    /// handle leads to no window: there is nothing to ask, whatever the key
    /// code, and the answer for the host is that of a key that is up. For a
    /// window that exists, a code that names no key of the backend is an
    /// argument error.
    pub fn get_key_query(&self, args: &Vec<Value>) -> (result: Result<
        Option<(&W, i32)>,
        BridgeError,
    >)
        ensures
            match self.key_target(args@) {
                Err(e) => result == Err::<Option<(&W, i32)>, BridgeError>(e),
                Ok(None) => result == Ok::<Option<(&W, i32)>, BridgeError>(None),
                Ok(Some((window, key))) => result == Ok::<Option<(&W, i32)>, BridgeError>(
                    Some((&window, key)),
                ),
            },
    {
        if self.session.is_none() {
            return Err(BridgeError::NotInitialized);
        }
        match key_args(args) {
            Err(e) => Err(e),
            Ok((handle, code)) => match self.registry.get(handle) {
                None => Ok(None),
                Some(window) => match key_from_code(code) {
                    None => Err(BridgeError::Argument),
                    Some(key) => Ok(Some((window, key))),
                },
            },
        }
    }
}

} // verus!
