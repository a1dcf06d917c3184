//! Capabilities: tokens that authorise the privileged, one-time operations
//! of the boot sequence.
//!
//! A token carries no data. Its one field is private, so a value can be made
//! in this module only, and here only by a [`CapabilityMint`], which hands
//! out each kind once. A token cannot be copied. Whoever holds one got it,
//! directly or handed on, from the boot sequence that owns the mint.

use vstd::prelude::*;

verus! {

/// The kinds of capability.
#[derive(Clone, Copy, Debug, PartialEq, Eq)]
pub enum CapabilityKind {
    /// Entering the kernel's main loop.
    MainLoop,
    /// Designating the writer of the kernel's debug output.
    SetDebugWriter,
}

/// Authorises entering the kernel's main loop.
pub struct MainLoopCapability {
    minted: (),
}

/// Authorises designating the writer of the kernel's debug output.
pub struct SetDebugWriterCapability {
    minted: (),
}

/// The kinds minted once `kind` has been asked for.
pub open spec fn minted_after(minted: Set<CapabilityKind>, kind: CapabilityKind) -> Set<CapabilityKind> {
    minted.insert(kind)
}

/// Whether asking for `kind` yields a token: only if none of that kind was
/// minted before.
pub open spec fn mints(minted: Set<CapabilityKind>, kind: CapabilityKind) -> bool {
    !minted.contains(kind)
}

/// The one place where capabilities are made. The boot sequence creates it,
/// mints what it needs and hands the tokens to the call sites that present
/// them.
pub struct CapabilityMint {
    main_loop: bool,
    set_debug_writer: bool,
}

impl View for CapabilityMint {
    type V = Set<CapabilityKind>;

    /// The kinds that have been minted.
    closed spec fn view(&self) -> Set<CapabilityKind> {
        Set::new(
            |kind: CapabilityKind|
                match kind {
                    CapabilityKind::MainLoop => self.main_loop,
                    CapabilityKind::SetDebugWriter => self.set_debug_writer,
                },
        )
    }
}

impl CapabilityMint {
    /// A mint that has minted nothing.
    pub fn new() -> (mint: Self)
        ensures
            mint@ == Set::<CapabilityKind>::empty(),
    {
        let mint = CapabilityMint { main_loop: false, set_debug_writer: false };
        assert(mint@ =~= Set::<CapabilityKind>::empty());
        mint
    }

    /// Whether a capability of `kind` has been minted.
    pub fn has_minted(&self, kind: CapabilityKind) -> (minted: bool)
        ensures
            minted == self@.contains(kind),
    {
        match kind {
            CapabilityKind::MainLoop => self.main_loop,
            CapabilityKind::SetDebugWriter => self.set_debug_writer,
        }
    }

    /// Mints the capability to enter the main loop: the first time it is
    /// asked for, never again.
    pub fn mint_main_loop(&mut self) -> (token: Option<MainLoopCapability>)
        ensures
            token is Some == mints(old(self)@, CapabilityKind::MainLoop),
            final(self)@ == minted_after(old(self)@, CapabilityKind::MainLoop),
    {
        let first = !self.main_loop;
        self.main_loop = true;
        assert(self@ =~= minted_after(old(self)@, CapabilityKind::MainLoop));
        if first {
            Some(MainLoopCapability { minted: () })
        } else {
            None
        }
    }

    /// Mints the capability to designate the debug writer: the first time it
    /// is asked for, never again.
    pub fn mint_set_debug_writer(&mut self) -> (token: Option<SetDebugWriterCapability>)
        ensures
            token is Some == mints(old(self)@, CapabilityKind::SetDebugWriter),
            final(self)@ == minted_after(old(self)@, CapabilityKind::SetDebugWriter),
    {
        let first = !self.set_debug_writer;
        self.set_debug_writer = true;
        assert(self@ =~= minted_after(old(self)@, CapabilityKind::SetDebugWriter));
        if first {
            Some(SetDebugWriterCapability { minted: () })
        } else {
            None
        }
    }
}

/// Which of the gated operations have been performed.
pub struct PrivilegedOperations {
    debug_writer_set: bool,
    main_loop_entered: bool,
}

impl PrivilegedOperations {
    /// Whether the debug writer has been designated.
    pub closed spec fn debug_writer_set(&self) -> bool {
        self.debug_writer_set
    }

    /// Whether the main loop has been entered.
    pub closed spec fn main_loop_entered(&self) -> bool {
        self.main_loop_entered
    }

    /// Nothing has been performed.
    pub fn new() -> (ops: Self)
        ensures
            !ops.debug_writer_set(),
            !ops.main_loop_entered(),
    {
        PrivilegedOperations { debug_writer_set: false, main_loop_entered: false }
    }

    /// Records that the debug writer is designated. The token is handed
    /// over: the one that was minted serves one designation.
    pub fn set_debug_writer(&mut self, capability: SetDebugWriterCapability)
        ensures
            final(self).debug_writer_set(),
            final(self).main_loop_entered() == old(self).main_loop_entered(),
    {
        self.debug_writer_set = true;
    }

    /// Records that the main loop is entered. The token is shown, not
    /// handed over.
    pub fn enter_main_loop(&mut self, capability: &MainLoopCapability)
        ensures
            final(self).main_loop_entered(),
            final(self).debug_writer_set() == old(self).debug_writer_set(),
    {
        self.main_loop_entered = true;
    }

    /// Whether the debug writer has been designated.
    pub fn is_debug_writer_set(&self) -> (set: bool)
        ensures
            set == self.debug_writer_set(),
    {
        self.debug_writer_set
    }

    /// Whether the main loop has been entered.
    pub fn is_main_loop_entered(&self) -> (entered: bool)
        ensures
            entered == self.main_loop_entered(),
    {
        self.main_loop_entered
    }
}

/// The kinds minted once each kind of `asked` has been asked for, in order.
pub open spec fn minted_after_all(minted: Set<CapabilityKind>, asked: Seq<CapabilityKind>) -> Set<CapabilityKind>
    decreases asked.len(),
{
    if asked.len() == 0 {
        minted
    } else {
        minted_after(minted_after_all(minted, asked.drop_last()), asked.last())
    }
}

/// A mint yields at most one token of each kind: once a kind has been asked
/// for, whether or not that yielded a token, asking again yields none,
/// whatever was asked for in between.
pub proof fn lemma_minted_once(minted: Set<CapabilityKind>, kind: CapabilityKind, between: Seq<CapabilityKind>)
    ensures
        !mints(minted_after_all(minted_after(minted, kind), between), kind),
    decreases between.len(),
{
    if between.len() > 0 {
        lemma_minted_once(minted, kind, between.drop_last());
    }
}

} // verus!
