//! The bytes that tasks on both cores share, and the three things that are done to them.
//!
//! Another task may write such a byte at any time, so a contract cannot say what it holds. It can
//! say what was done to it: a task works on a shared byte through a handle of its own, which keeps
//! a log of everything that was done through it.
use portable_atomic::{AtomicU8, Ordering};
use vstd::prelude::*;

verus! {

/// `portable_atomic::AtomicU8`: a byte that tasks on both cores share.
#[verifier::external_type_specification]
#[verifier::external_body]
pub struct ExAtomicU8(portable_atomic::AtomicU8);

/// What was done to a shared byte.
pub enum Op {
    /// It was read, and held this.
    Load(u8),
    /// This was stored.
    Store(u8),
    /// `amount` was added to it, wrapping; it held `before`.
    Add { amount: u8, before: u8 },
}

/// A task's handle on a shared byte.
pub struct SharedByte<'a> {
    cell: &'a AtomicU8,
    log: Ghost<Seq<Op>>,
}

impl<'a> SharedByte<'a> {
    /// The byte that the handle is on.
    pub closed spec fn cell(&self) -> AtomicU8 {
        *self.cell
    }

    /// What was done through the handle, in order.
    pub closed spec fn log(&self) -> Seq<Op> {
        self.log@
    }

    /// A handle on `cell`, through which nothing was done yet.
    pub fn new(cell: &'a AtomicU8) -> (r: Self)
        ensures
            r.cell() == *cell,
            r.log() == Seq::<Op>::empty(),
    {
        SharedByte { cell, log: Ghost(Seq::empty()) }
    }

    /// `portable_atomic::AtomicU8::load`, with relaxed ordering: the byte that the cell holds at
    /// that moment. Whatever other tasks stored there may come back, so nothing is claimed of the
    /// byte but that the log has it.
    #[verifier::external_body]
    pub(crate) fn load(&mut self) -> (r: u8)
        ensures
            final(self).cell() == old(self).cell(),
            final(self).log() == old(self).log().push(Op::Load(r)),
    {
        let value: u8 = self.cell.load(Ordering::Relaxed);
        self.log = Ghost(self.log@.push(Op::Load(value)));
        value
    }

    /// `portable_atomic::AtomicU8::store`, with relaxed ordering: puts `value` in the cell. Other
    /// tasks may overwrite it at once, so nothing is claimed of what the cell holds next.
    #[verifier::external_body]
    pub(crate) fn store(&mut self, value: u8)
        ensures
            final(self).cell() == old(self).cell(),
            final(self).log() == old(self).log().push(Op::Store(value)),
    {
        self.cell.store(value, Ordering::Relaxed);
        self.log = Ghost(self.log@.push(Op::Store(value)));
    }

    /// `portable_atomic::AtomicU8::fetch_add`, with relaxed ordering: adds `amount` to the cell,
    /// wrapping, and gives back the byte that was there just before. Whatever other tasks stored
    /// there may come back, so nothing is claimed of the byte but that the log has it.
    #[verifier::external_body]
    pub(crate) fn fetch_add(&mut self, amount: u8) -> (before: u8)
        ensures
            final(self).cell() == old(self).cell(),
            final(self).log() == old(self).log().push(Op::Add { amount, before }),
    {
        let before: u8 = self.cell.fetch_add(amount, Ordering::Relaxed);
        self.log = Ghost(self.log@.push(Op::Add { amount, before }));
        before
    }
}

/// Whether the log went from `before` to `after` by reads alone.
pub open spec fn only_read(before: Seq<Op>, after: Seq<Op>) -> bool {
    &&& before.is_prefix_of(after)
    &&& forall|i: int| before.len() <= i < after.len() ==> #[trigger] after[i] is Load
}

/// A log that does not change, or that one read was added to, has reads alone added to it.
pub(crate) proof fn lemma_read_once(log: Seq<Op>, value: u8)
    ensures
        only_read(log, log),
        only_read(log, log.push(Op::Load(value))),
{
    assert(log =~= log.subrange(0, log.len() as int));
    assert(log =~= log.push(Op::Load(value)).subrange(0, log.len() as int));
}

/// Reads after reads are reads alone.
pub proof fn law_reads_join(a: Seq<Op>, b: Seq<Op>, c: Seq<Op>)
    requires
        only_read(a, b),
        only_read(b, c),
    ensures
        only_read(a, c),
{
    assert forall|i: int| a.len() <= i < c.len() implies #[trigger] c[i] is Load by {
        if i < b.len() {
            assert(b[i] == c.subrange(0, b.len() as int)[i]);
        }
    }
    assert(a =~= c.subrange(0, a.len() as int)) by {
        assert(b =~= c.subrange(0, b.len() as int));
        assert(a =~= b.subrange(0, a.len() as int));
    }
}

/// However often only reads are added to a log, reads alone were added in all.
pub proof fn law_only_reads_ever(logs: Seq<Seq<Op>>)
    requires
        logs.len() > 0,
        forall|i: int, j: int|
            0 <= i && j == i + 1 && j < logs.len() ==> only_read(#[trigger] logs[i], #[trigger] logs[j]),
    ensures
        only_read(logs[0], logs.last()),
    decreases logs.len(),
{
    if logs.len() > 1 {
        let before = logs.drop_last();
        assert forall|i: int, j: int|
            0 <= i && j == i + 1 && j < before.len() implies only_read(
            #[trigger] before[i],
            #[trigger] before[j],
        ) by {
            assert(before[i] == logs[i] && before[j] == logs[j]);
        }
        law_only_reads_ever(before);
        let n = logs.len() as int;
        assert(only_read(logs[n - 2], logs[n - 1]));
        law_reads_join(logs[0], before.last(), logs.last());
    } else {
        assert(logs[0] =~= logs[0].subrange(0, logs[0].len() as int));
    }
}

} // verus!
