//! Deferred calls: a component asks to be called again from the main loop,
//! and the main loop services each pending request once.
//!
//! A client owns a [`DeferredCall`] handle. `set` marks the handle pending;
//! marking it again before it is serviced changes nothing. The main loop walks
//! the handles in ascending order and takes each pending one: the flag is
//! cleared first, then the client's callback runs, so a callback that sets its
//! own handle again is serviced in the next pass, not a second time in this one.

use vstd::prelude::*;
use crate::output::Transcript;

verus! {

/// The two flags that the dispatcher keeps for one handle.
#[derive(Clone, Copy, Debug)]
pub struct ClientFlags {
    /// Whether a client has registered to be called back for this handle.
    pub registered: bool,
    /// Whether a callback is owed for this handle.
    pub pending: bool,
}

/// The dispatcher with the handle `id` marked pending.
pub open spec fn with_pending(flags: Seq<ClientFlags>, id: int) -> Seq<ClientFlags> {
    flags.update(id, ClientFlags { registered: flags[id].registered, pending: true })
}

/// The dispatcher with the pending mark of the handle `id` cleared.
pub open spec fn without_pending(flags: Seq<ClientFlags>, id: int) -> Seq<ClientFlags> {
    flags.update(id, ClientFlags { registered: flags[id].registered, pending: false })
}

/// The dispatcher with a client registered for the handle `id`.
pub open spec fn with_registered(flags: Seq<ClientFlags>, id: int) -> Seq<ClientFlags> {
    flags.update(id, ClientFlags { registered: true, pending: flags[id].pending })
}

/// Whether some handle at or after `from` is pending.
pub open spec fn any_pending_from(flags: Seq<ClientFlags>, from: int) -> bool {
    exists|id: int| from <= id < flags.len() && #[trigger] flags[id].pending
}

/// A handle by which one client asks for its deferred call.
#[derive(Clone, Copy, Debug)]
pub struct DeferredCall {
    idx: usize,
}

impl DeferredCall {
    /// The position of this handle in its dispatcher.
    pub closed spec fn id(&self) -> int {
        self.idx as int
    }

    /// The position of this handle in its dispatcher.
    pub fn index(&self) -> (idx: usize)
        ensures
            idx == self.id(),
    {
        self.idx
    }
}

/// The pending and registration flags of every handle handed out so far.
pub struct Dispatcher {
    flags: Vec<ClientFlags>,
}

impl View for Dispatcher {
    type V = Seq<ClientFlags>;

    closed spec fn view(&self) -> Seq<ClientFlags> {
        self.flags@
    }
}

impl Dispatcher {
    /// Whether `handle` was handed out by a dispatcher with at least this
    /// many handles.
    pub open spec fn knows(&self, handle: &DeferredCall) -> bool {
        0 <= handle.id() < self@.len()
    }

    /// Whether a client is registered for `handle`.
    pub open spec fn registered(&self, handle: &DeferredCall) -> bool {
        self.knows(handle) && self@[handle.id()].registered
    }

    /// Whether a callback is owed for `handle`.
    pub open spec fn pending(&self, handle: &DeferredCall) -> bool {
        self.knows(handle) && self@[handle.id()].pending
    }

    /// A dispatcher without handles.
    pub fn new() -> (dispatcher: Self)
        ensures
            dispatcher@ == Seq::<ClientFlags>::empty(),
    {
        Dispatcher { flags: Vec::new() }
    }

    /// Hands out the next handle: not registered, nothing pending.
    pub fn create(&mut self) -> (handle: DeferredCall)
        ensures
            handle.id() == old(self)@.len(),
            final(self)@ == old(self)@.push(ClientFlags { registered: false, pending: false }),
    {
        let idx = self.flags.len();
        self.flags.push(ClientFlags { registered: false, pending: false });
        DeferredCall { idx }
    }

    /// Records that a client will answer the callbacks of `handle`.
    pub fn register(&mut self, handle: &DeferredCall)
        requires
            old(self).knows(handle),
        ensures
            final(self)@ == with_registered(old(self)@, handle.id()),
    {
        let pending = self.flags[handle.idx].pending;
        self.flags[handle.idx] = ClientFlags { registered: true, pending };
    }

    /// Marks `handle` pending. A handle that is already pending stays so:
    /// requests do not add up.
    pub fn set(&mut self, handle: &DeferredCall)
        requires
            old(self).registered(handle),
        ensures
            final(self)@ == with_pending(old(self)@, handle.id()),
    {
        let registered = self.flags[handle.idx].registered;
        self.flags[handle.idx] = ClientFlags { registered, pending: true };
    }

    /// Whether `handle` belongs to this dispatcher.
    pub fn is_known(&self, handle: &DeferredCall) -> (known: bool)
        ensures
            known == self.knows(handle),
    {
        handle.idx < self.flags.len()
    }

    /// Whether a client is registered for `handle`.
    pub fn is_registered(&self, handle: &DeferredCall) -> (registered: bool)
        ensures
            registered == self.registered(handle),
    {
        handle.idx < self.flags.len() && self.flags[handle.idx].registered
    }

    /// Whether a callback is owed for `handle`.
    pub fn is_pending(&self, handle: &DeferredCall) -> (pending: bool)
        ensures
            pending == self.pending(handle),
    {
        handle.idx < self.flags.len() && self.flags[handle.idx].pending
    }

    /// Whether every handle handed out has a registered client.
    pub fn verify_setup(&self) -> (complete: bool)
        ensures
            complete == (forall|id: int| 0 <= id < self@.len() ==> (#[trigger] self@[id]).registered),
    {
        let mut i: usize = 0;
        while i < self.flags.len()
            invariant
                i <= self.flags@.len(),
                forall|id: int| 0 <= id < i ==> (#[trigger] self.flags@[id]).registered,
            decreases self.flags@.len() - i,
        {
            if !self.flags[i].registered {
                assert(!self@[i as int].registered);
                return false;
            }
            i += 1;
        }
        true
    }

    /// Whether any callback is owed.
    pub fn has_tasks(&self) -> (any: bool)
        ensures
            any == any_pending_from(self@, 0),
    {
        let mut i: usize = 0;
        while i < self.flags.len()
            invariant
                i <= self.flags@.len(),
                forall|id: int| 0 <= id < i ==> !(#[trigger] self.flags@[id]).pending,
            decreases self.flags@.len() - i,
        {
            if self.flags[i].pending {
                assert(self@[i as int].pending);
                return true;
            }
            i += 1;
        }
        false
    }

    /// Takes the pending mark of `handle`: clears it and says whether it was
    /// set. The caller then runs the callback, once.
    pub fn take(&mut self, handle: &DeferredCall) -> (was_pending: bool)
        ensures
            was_pending == old(self).pending(handle),
            was_pending ==> final(self)@ == without_pending(old(self)@, handle.id()),
            !was_pending ==> final(self)@ == old(self)@,
    {
        if handle.idx < self.flags.len() && self.flags[handle.idx].pending {
            let registered = self.flags[handle.idx].registered;
            self.flags[handle.idx] = ClientFlags { registered, pending: false };
            true
        } else {
            false
        }
    }

    /// Services one client: if `handle` is pending, clears its mark and then
    /// runs the client's callback, once. Says whether the callback ran. A
    /// callback that sets the handle again leaves it pending for the next
    /// pass.
    pub fn service<C: DeferredCallClient>(
        &mut self,
        handle: &DeferredCall,
        client: &mut C,
        out: &mut Transcript,
    ) -> (called: bool)
        requires
            old(self).pending(handle) ==> old(client).ready(without_pending(old(self)@, handle.id())),
        ensures
            called == old(self).pending(handle),
            called ==> old(client).handled(
                final(client),
                without_pending(old(self)@, handle.id()),
                final(self)@,
                old(out)@,
                final(out)@,
            ),
            !called ==> final(self)@ == old(self)@ && *final(client) == *old(client) && final(out)@ == old(
                out,
            )@,
    {
        if self.take(handle) {
            client.handle_deferred_call(self, out);
            true
        } else {
            false
        }
    }

    /// Takes the first pending handle at or after position `from`: clears its
    /// mark and returns its position. A pass of the main loop starts at 0 and
    /// continues behind each position it gets, until there is none.
    pub fn next_pending(&mut self, from: usize) -> (next: Option<usize>)
        ensures
            match next {
                Some(id) => {
                    &&& from <= id < old(self)@.len()
                    &&& old(self)@[id as int].pending
                    &&& !any_pending_from(old(self)@.take(id as int), from as int)
                    &&& final(self)@ == without_pending(old(self)@, id as int)
                },
                None => !any_pending_from(old(self)@, from as int) && final(self)@ == old(self)@,
            },
    {
        let mut i: usize = from;
        while i < self.flags.len()
            invariant
                from <= i,
                self.flags@ == old(self).flags@,
                forall|id: int| from <= id < i && id < self.flags@.len() ==> !(#[trigger] self.flags@[id]).pending,
            decreases self.flags@.len() - i,
        {
            if self.flags[i].pending {
                let registered = self.flags[i].registered;
                self.flags[i] = ClientFlags { registered, pending: false };
                return Some(i);
            }
            i += 1;
        }
        None
    }
}

/// A component that is called back from the main loop.
pub trait DeferredCallClient {
    /// What the client needs of the dispatcher's flags to register. Nothing,
    /// unless the client says otherwise.
    open spec fn registrable(&self, flags: Seq<ClientFlags>) -> bool {
        true
    }

    /// What the client needs of itself and of the dispatcher's flags to be
    /// called back. Nothing, unless the client says otherwise.
    open spec fn ready(&self, flags: Seq<ClientFlags>) -> bool {
        true
    }

    /// Whether a callback may leave the client as `after`, and turn the
    /// dispatcher's flags and the transcript from what they were before into
    /// what they are after. Anything may happen, unless the client says
    /// otherwise.
    open spec fn handled(
        &self,
        after: &Self,
        flags_before: Seq<ClientFlags>,
        flags_after: Seq<ClientFlags>,
        out_before: Seq<Seq<char>>,
        out_after: Seq<Seq<char>>,
    ) -> bool {
        true
    }

    /// Does the work that the client asked to be called back for.
    fn handle_deferred_call(&mut self, dispatcher: &mut Dispatcher, out: &mut Transcript)
        requires
            old(self).ready(old(dispatcher)@),
        ensures
            old(self).handled(final(self), old(dispatcher)@, final(dispatcher)@, old(out)@, final(out)@),
    ;

    /// Registers the client with the dispatcher that gave it its handle.
    fn register(&mut self, dispatcher: &mut Dispatcher)
        requires
            old(self).registrable(old(dispatcher)@),
    ;
}

/// Setting a handle twice is the same as setting it once, and once its mark
/// is taken nothing is pending for it until it is set again.
pub proof fn lemma_set_coalesces(flags: Seq<ClientFlags>, id: int)
    requires
        0 <= id < flags.len(),
    ensures
        with_pending(with_pending(flags, id), id) == with_pending(flags, id),
        with_pending(flags, id)[id].pending,
        !without_pending(with_pending(with_pending(flags, id), id), id)[id].pending,
        forall|other: int| 0 <= other < flags.len() && other != id
            ==> with_pending(flags, id)[other] == flags[other],
{
    assert(with_pending(with_pending(flags, id), id) =~= with_pending(flags, id));
}

} // verus!
