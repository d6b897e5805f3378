//! The bookkeeping of one allocation, and the rules that keep its
//! Self-Reference out of the counts that a program is shown.
//!
//! The Self-Reference is an owning handle and nothing else: it adds one to the
//! strong counter and nothing to the weak counter. So the strong count that is
//! shown is the counter less one while the Self-Reference stands beside another
//! owner, and the weak count that is shown is the counter itself. A
//! Self-Reference that is the only owner left is what keeps the value, and is
//! shown: zero owners are shown exactly when the value is gone. The last handle
//! that the program can see is the one whose shown count is one.

use vstd::prelude::*;

verus! {

/// The state of an allocation block: its two counters and whether it holds a
/// Self-Reference.
pub ghost struct Block {
    /// The owning references, the Self-Reference included.
    pub strong: nat,
    /// The observers.
    pub weak: nat,
    /// Whether the Self-Reference is installed.
    pub held: bool,
}

impl Block {
    /// A Self-Reference exists only beside an owning handle that the program
    /// can see.
    pub open spec fn wf(self) -> bool {
        self.held ==> self.strong >= 2
    }

    /// Whether the value is still there, so that an upgrade succeeds.
    pub open spec fn live(self) -> bool {
        self.strong >= 1
    }

    /// Whether the block itself can go: the value is gone and nobody observes
    /// the block.
    pub open spec fn freed(self) -> bool {
        self.strong == 0 && self.weak == 0
    }

    /// The owning handles that the program can see: all but the
    /// Self-Reference, which is left out where it is not the only owner.
    pub open spec fn shown_strong(self) -> nat {
        if self.held && self.strong >= 2 {
            (self.strong - 1) as nat
        } else {
            self.strong
        }
    }

    /// The observers that the program can see: none once the value is gone.
    pub open spec fn shown_weak(self) -> nat {
        if self.strong == 0 {
            0
        } else {
            self.weak
        }
    }

    /// Whether the Self-Reference has yet to be installed.
    pub open spec fn installs(self) -> bool {
        !self.held
    }

    /// Whether the owning handle that is dropped is the last one that the
    /// program can see, so that the Self-Reference goes with it.
    pub open spec fn strong_drop_releases(self) -> bool {
        self.held && self.shown_strong() == 1
    }

    /// Whether the observer that is dropped is the last one, so that the
    /// Self-Reference goes with it.
    pub open spec fn weak_drop_releases(self) -> bool {
        self.held && self.shown_weak() == 1
    }

    /// The block of a value that was just stored: one owner, no observer.
    pub open spec fn fresh() -> Block {
        Block { strong: 1, weak: 0, held: false }
    }

    /// The block after an owning handle was cloned.
    pub open spec fn cloned(self) -> Block {
        Block { strong: self.strong + 1, ..self }
    }

    /// The block after the Self-Reference was asked for: installed now if it
    /// was not there.
    pub open spec fn installed(self) -> Block {
        if self.installs() {
            Block { strong: self.strong + 1, weak: self.weak, held: true }
        } else {
            self
        }
    }

    /// The block after an owning handle was downgraded: the Self-Reference is
    /// there, and there is one more observer.
    pub open spec fn downgraded(self) -> Block {
        Block { weak: self.weak + 1, ..self.installed() }
    }

    /// The block after an upgrade was tried: one more owner if the value is
    /// there, no change if it is gone.
    pub open spec fn upgraded(self) -> Block {
        if self.live() {
            Block { strong: self.strong + 1, ..self }
        } else {
            self
        }
    }

    /// The block after an owning handle was dropped.
    pub open spec fn strong_dropped(self) -> Block {
        if self.strong_drop_releases() {
            Block { strong: 0, weak: self.weak, held: false }
        } else if self.strong >= 1 {
            Block { strong: (self.strong - 1) as nat, ..self }
        } else {
            self
        }
    }

    /// The block after an observer was dropped.
    pub open spec fn weak_dropped(self) -> Block {
        if self.weak_drop_releases() {
            Block { strong: (self.strong - 1) as nat, weak: 0, held: false }
        } else if self.weak >= 1 {
            Block { weak: (self.weak - 1) as nat, ..self }
        } else {
            self
        }
    }
}

/// What a handle reads from its allocation: the two counters as the allocation
/// primitive reports them, and whether the Self-Reference is installed.
#[derive(Clone, Copy, Debug, PartialEq, Eq, Structural)]
pub struct Ledger {
    /// The strong counter.
    pub strong: usize,
    /// The weak counter.
    pub weak: usize,
    /// Whether the Self-Reference is installed.
    pub held: bool,
}

impl View for Ledger {
    type V = Block;

    open spec fn view(&self) -> Block {
        Block { strong: self.strong as nat, weak: self.weak as nat, held: self.held }
    }
}

impl Ledger {
    /// The ledger of a value that was just stored.
    pub fn fresh() -> (r: Ledger)
        ensures
            r@ == Block::fresh(),
    {
        Ledger { strong: 1, weak: 0, held: false }
    }

    /// The ledger that a handle to the allocation of address `addr` reads.
    /// `strong` and `weak` are the counters as the allocation primitive gives
    /// them. `occupant` is the address of the handle in the slot of the node:
    /// nothing where the slot is free, or where the node is gone. The handle
    /// in the slot is the Self-Reference exactly where it refers to the
    /// allocation itself; a handle to another allocation is a stranger.
    pub fn seen(strong: usize, weak: usize, occupant: Option<usize>, addr: usize) -> (r: Ledger)
        ensures
            r == (Ledger { strong, weak, held: occupant == Some(addr) }),
            strong >= 1 <==> r@.shown_strong() >= 1,
        opens_invariants none
        no_unwind
    {
        let held = match occupant {
            Some(found) => found == addr,
            None => false,
        };
        Ledger { strong, weak, held }
    }

    /// The number of owning handles to show.
    pub fn strong_count(&self) -> (r: usize)
        ensures
            r == self@.shown_strong(),
    {
        if self.held && self.strong >= 2 {
            self.strong - 1
        } else {
            self.strong
        }
    }

    /// The number of observers to show.
    pub fn weak_count(&self) -> (r: usize)
        ensures
            r == self@.shown_weak(),
    {
        if self.strong == 0 {
            0
        } else {
            self.weak
        }
    }

    /// Whether the Self-Reference has yet to be installed.
    pub fn installs(&self) -> (r: bool)
        ensures
            r == self@.installs(),
    {
        !self.held
    }

    /// Whether the drop of an owning handle has to release the Self-Reference.
    pub fn strong_drop_releases(&self) -> (r: bool)
        ensures
            r == self@.strong_drop_releases(),
        opens_invariants none
        no_unwind
    {
        self.held && (self.strong == 1 || self.strong == 2)
    }

    /// Whether the drop of an observer has to release the Self-Reference.
    pub fn weak_drop_releases(&self) -> (r: bool)
        ensures
            r == self@.weak_drop_releases(),
        opens_invariants none
        no_unwind
    {
        self.held && self.strong >= 1 && self.weak == 1
    }

    /// The ledger after an owning handle was cloned.
    pub fn after_clone(&self) -> (r: Ledger)
        requires
            self.strong < usize::MAX,
        ensures
            r@ == self@.cloned(),
    {
        Ledger { strong: self.strong + 1, weak: self.weak, held: self.held }
    }

    /// The ledger after the Self-Reference was asked for.
    pub fn after_install(&self) -> (r: Ledger)
        requires
            self.strong < usize::MAX,
        ensures
            r@ == self@.installed(),
    {
        if self.installs() {
            Ledger { strong: self.strong + 1, weak: self.weak, held: true }
        } else {
            *self
        }
    }

    /// The ledger after an owning handle was downgraded.
    pub fn after_downgrade(&self) -> (r: Ledger)
        requires
            self.strong < usize::MAX,
            self.weak < usize::MAX,
        ensures
            r@ == self@.downgraded(),
    {
        let with_self = self.after_install();
        Ledger { strong: with_self.strong, weak: with_self.weak + 1, held: with_self.held }
    }

    /// The ledger after an upgrade was tried.
    pub fn after_upgrade(&self) -> (r: Ledger)
        requires
            self.strong < usize::MAX,
        ensures
            r@ == self@.upgraded(),
    {
        if self.strong >= 1 {
            Ledger { strong: self.strong + 1, weak: self.weak, held: self.held }
        } else {
            *self
        }
    }

    /// The ledger after an owning handle was dropped.
    pub fn after_strong_drop(&self) -> (r: Ledger)
        ensures
            r@ == self@.strong_dropped(),
    {
        if self.strong_drop_releases() {
            Ledger { strong: 0, weak: self.weak, held: false }
        } else if self.strong >= 1 {
            Ledger { strong: self.strong - 1, weak: self.weak, held: self.held }
        } else {
            *self
        }
    }

    /// The ledger after an observer was dropped.
    pub fn after_weak_drop(&self) -> (r: Ledger)
        ensures
            r@ == self@.weak_dropped(),
    {
        if self.weak_drop_releases() {
            Ledger { strong: self.strong - 1, weak: 0, held: false }
        } else if self.weak >= 1 {
            Ledger { strong: self.strong, weak: self.weak - 1, held: self.held }
        } else {
            *self
        }
    }
}

/// Zero owners are shown exactly when the value is gone, whatever the block
/// holds: while an owner of any sort is left, an owner is shown.
pub proof fn law_shown_live(b: Block)
    ensures
        b.shown_strong() >= 1 <==> b.live(),
        b.shown_strong() <= b.strong,
        b.wf() && b.held ==> b.shown_strong() == b.strong - 1,
{
}

/// A value that was just stored has one owner and no observer, and holds no
/// Self-Reference.
pub proof fn law_fresh()
    ensures
        Block::fresh().wf(),
        Block::fresh().live(),
        Block::fresh().shown_strong() == 1,
        Block::fresh().shown_weak() == 0,
        !Block::fresh().held,
{
}

/// Every step keeps the block well formed, given that the handle it is taken
/// on exists: an owning handle for a clone, a downgrade or the drop of one, an
/// observer for the drop of one.
pub proof fn law_steps_keep_wf(b: Block)
    requires
        b.wf(),
    ensures
        b.shown_strong() >= 1 ==> b.cloned().wf() && b.installed().wf() && b.downgraded().wf()
            && b.strong_dropped().wf(),
        b.upgraded().wf(),
        b.weak_dropped().wf(),
{
}

/// A clone adds one to the strong count that is shown and leaves the weak
/// count alone.
pub proof fn law_clone_counts(b: Block)
    requires
        b.wf(),
        b.shown_strong() >= 1,
    ensures
        b.cloned().shown_strong() == b.shown_strong() + 1,
        b.cloned().shown_weak() == b.shown_weak(),
        b.cloned().held == b.held,
{
}

/// The Self-Reference is never seen in a count: to install it changes neither
/// count that is shown, and it is installed once only.
pub proof fn law_install_counts(b: Block)
    requires
        b.wf(),
        b.shown_strong() >= 1,
    ensures
        b.installed().held,
        b.installed().shown_strong() == b.shown_strong(),
        b.installed().shown_weak() == b.shown_weak(),
        b.installed().installed() == b.installed(),
{
}

/// A downgrade adds one observer and no owner, whether it installs the
/// Self-Reference or finds it there.
pub proof fn law_downgrade_counts(b: Block)
    requires
        b.wf(),
        b.shown_strong() >= 1,
    ensures
        b.downgraded().shown_strong() == b.shown_strong(),
        b.downgraded().shown_weak() == b.shown_weak() + 1,
        b.downgraded().held,
        !b.downgraded().installs(),
        b.downgraded().downgraded().strong == b.downgraded().strong,
{
}

/// While an owning handle exists, an upgrade of a handle that was downgraded
/// from it succeeds, and adds one owner.
pub proof fn law_downgrade_then_upgrade(b: Block)
    requires
        b.wf(),
        b.shown_strong() >= 1,
    ensures
        b.downgraded().live(),
        b.downgraded().upgraded().shown_strong() == b.shown_strong() + 1,
        b.downgraded().upgraded().shown_weak() == b.shown_weak() + 1,
{
}

/// The drop of an owning handle that is not the last takes one from the strong
/// count that is shown and changes nothing else.
pub proof fn law_strong_drop_counts(b: Block)
    requires
        b.wf(),
        b.shown_strong() >= 2,
    ensures
        b.strong_dropped().shown_strong() == b.shown_strong() - 1,
        b.strong_dropped().shown_weak() == b.shown_weak(),
        b.strong_dropped().held == b.held,
        b.strong_dropped().live(),
{
}

/// The drop of the last owning handle releases the value, however many
/// observers remain: the Self-Reference goes with the handle, the strong
/// counter reaches zero, both counts are shown as zero, and no upgrade
/// succeeds from then on. The block is freed with it if nobody observes it.
pub proof fn law_last_strong_drop(b: Block)
    requires
        b.wf(),
        b.shown_strong() == 1,
    ensures
        b.strong_dropped().strong == 0,
        !b.strong_dropped().held,
        !b.strong_dropped().live(),
        b.strong_dropped().shown_strong() == 0,
        b.strong_dropped().shown_weak() == 0,
        b.strong_dropped().upgraded() == b.strong_dropped(),
        b.strong_dropped().freed() <==> b.weak == 0,
{
}

/// Once the value is gone it stays gone: neither an upgrade nor the drop of an
/// observer brings an owner back, and the drop of the last observer frees the
/// block.
pub proof fn law_gone_stays_gone(b: Block)
    requires
        b.wf(),
        !b.live(),
    ensures
        b.upgraded() == b,
        !b.weak_dropped().live(),
        !b.weak_dropped().upgraded().live(),
        b.weak <= 1 ==> b.weak_dropped().freed(),
{
}

/// The drop of an observer, the last one too, leaves the owning handles as
/// they were: the strong count that is shown does not change, the value stays,
/// and the weak count goes down by one.
pub proof fn law_weak_drop_counts(b: Block)
    requires
        b.wf(),
        b.shown_strong() >= 1,
        b.weak >= 1,
    ensures
        b.weak_dropped().shown_strong() == b.shown_strong(),
        b.weak_dropped().shown_weak() == b.shown_weak() - 1,
        b.weak_dropped().live(),
        b.weak_dropped().wf(),
{
}

/// The Self-Reference is released by the drop of the last handle of either
/// sort and by no other step.
pub proof fn law_release(b: Block)
    requires
        b.wf(),
        b.held,
    ensures
        b.cloned().held && b.installed().held && b.downgraded().held && b.upgraded().held,
        b.strong_dropped().held <==> b.shown_strong() != 1,
        b.weak_dropped().held <==> b.shown_weak() != 1,
{
}

} // verus!
