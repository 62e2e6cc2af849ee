use vstd::prelude::*;

use crate::opcode::{OpCode, OPCODE_COUNT};

verus! {

/// Sum of the first `n` entries of `s`.
pub open spec fn sum_first(s: Seq<u64>, n: nat) -> int
    decreases n,
{
    if n == 0 {
        0
    } else {
        sum_first(s, (n - 1) as nat) + s[n - 1] as int
    }
}

/// Per-kind execution statistics: how often each kind ran and the time it
/// took, in nanoseconds.
pub struct Summary {
    calls: Vec<u64>,
    nanos: Vec<u64>,
}

/// The statistics as sequences indexed by a kind's position.
pub struct SummaryView {
    pub calls: Seq<u64>,
    pub nanos: Seq<u64>,
}

impl View for Summary {
    type V = SummaryView;

    closed spec fn view(&self) -> SummaryView {
        SummaryView { calls: self.calls@, nanos: self.nanos@ }
    }
}

impl Summary {
    /// One entry per kind.
    pub open spec fn wf(&self) -> bool {
        self@.calls.len() == OPCODE_COUNT && self@.nanos.len() == OPCODE_COUNT
    }

    /// Statistics with no call recorded.
    pub fn new() -> (r: Summary)
        ensures
            r.wf(),
            r@.calls == Seq::new(OPCODE_COUNT as nat, |i: int| 0u64),
            r@.nanos == Seq::new(OPCODE_COUNT as nat, |i: int| 0u64),
    {
        let mut calls: Vec<u64> = Vec::new();
        let mut nanos: Vec<u64> = Vec::new();
        let mut i: usize = 0;
        while i < OPCODE_COUNT
            invariant
                i <= OPCODE_COUNT,
                calls@ == Seq::new(i as nat, |j: int| 0u64),
                nanos@ == Seq::new(i as nat, |j: int| 0u64),
            decreases OPCODE_COUNT - i,
        {
            calls.push(0);
            nanos.push(0);
            i = i + 1;
            assert(calls@ =~= Seq::new(i as nat, |j: int| 0u64));
            assert(nanos@ =~= Seq::new(i as nat, |j: int| 0u64));
        }
        Summary { calls, nanos }
    }

    /// Adds `times` calls taking `cost` nanoseconds to the totals of `opcode`.
    pub fn add_record(&mut self, opcode: OpCode, times: u64, cost: u64)
        requires
            old(self).wf(),
            old(self)@.calls[opcode.spec_index() as int] + times <= u64::MAX,
            old(self)@.nanos[opcode.spec_index() as int] + cost <= u64::MAX,
        ensures
            final(self).wf(),
            final(self)@.calls == old(self)@.calls.update(
                opcode.spec_index() as int,
                (old(self)@.calls[opcode.spec_index() as int] + times) as u64,
            ),
            final(self)@.nanos == old(self)@.nanos.update(
                opcode.spec_index() as int,
                (old(self)@.nanos[opcode.spec_index() as int] + cost) as u64,
            ),
    {
        let i = opcode.index();
        let c = self.calls[i] + times;
        self.calls.set(i, c);
        let n = self.nanos[i] + cost;
        self.nanos.set(i, n);
    }

    /// Number of calls recorded for `opcode`.
    pub fn calls(&self, opcode: OpCode) -> (r: u64)
        requires
            self.wf(),
        ensures
            r == self@.calls[opcode.spec_index() as int],
    {
        self.calls[opcode.index()]
    }

    /// Nanoseconds recorded for `opcode`.
    pub fn nanos(&self, opcode: OpCode) -> (r: u64)
        requires
            self.wf(),
        ensures
            r == self@.nanos[opcode.spec_index() as int],
    {
        self.nanos[opcode.index()]
    }

    /// Calls recorded over all kinds.
    pub fn total_calls(&self) -> (r: u128)
        requires
            self.wf(),
        ensures
            r == sum_first(self@.calls, OPCODE_COUNT as nat),
    {
        total(&self.calls)
    }

    /// Nanoseconds recorded over all kinds.
    pub fn total_nanos(&self) -> (r: u128)
        requires
            self.wf(),
        ensures
            r == sum_first(self@.nanos, OPCODE_COUNT as nat),
    {
        total(&self.nanos)
    }
}

/// Sum of the entries of `v`, one per kind.
fn total(v: &Vec<u64>) -> (r: u128)
    requires
        v@.len() == OPCODE_COUNT,
    ensures
        r == sum_first(v@, OPCODE_COUNT as nat),
{
    let mut acc: u128 = 0;
    let mut i: usize = 0;
    while i < OPCODE_COUNT
        invariant
            i <= OPCODE_COUNT,
            v@.len() == OPCODE_COUNT,
            acc == sum_first(v@, i as nat),
            acc <= i * 0xffff_ffff_ffff_ffffu128,
        decreases OPCODE_COUNT - i,
    {
        acc = acc + v[i] as u128;
        i = i + 1;
    }
    acc
}

} // verus!
