//! Accumulates cycles and reports how many whole periods have elapsed.
use crate::cycles::CycleCount;
use vstd::prelude::*;

verus! {

#[derive(Clone, Copy)]
pub struct WaitTimer {
    acc: CycleCount,
}

impl WaitTimer {
    /// Cycles accumulated towards the next period.
    pub closed spec fn spec_acc(&self) -> u64 {
        self.acc
    }

    pub fn new() -> (r: WaitTimer)
        ensures
            r.spec_acc() == 0,
    {
        WaitTimer { acc: 0 }
    }

    /// Cycles still missing before a period of `required` completes.
    pub open spec fn next_ready_spec(&self, required: CycleCount) -> u64 {
        if required > self.spec_acc() {
            (required - self.spec_acc()) as u64
        } else {
            0
        }
    }

    pub fn next_ready(&self, required: CycleCount) -> (r: CycleCount)
        ensures
            r == self.next_ready_spec(required),
    {
        if required > self.acc {
            required - self.acc
        } else {
            0
        }
    }

    /// Adds `new_cycles`; returns how many whole periods of `required` have
    /// elapsed (if any) and keeps the remainder. A zero period never elapses.
    pub fn ready(&mut self, new_cycles: CycleCount, required: CycleCount) -> (r: Option<u64>)
        requires
            required > 0 ==> old(self).spec_acc() + new_cycles <= u64::MAX,
        ensures
            required == 0 ==> r is None && *final(self) == *old(self),
            required > 0 ==> {
                let total = old(self).spec_acc() + new_cycles;
                &&& r == (if total >= required {
                    Some((total / required as int) as u64)
                } else {
                    None
                })
                &&& final(self).spec_acc() == (if total >= required {
                    total % (required as int)
                } else {
                    total
                })
            },
    {
        if required == 0 {
            return None;
        }
        self.acc = self.acc + new_cycles;
        if self.acc >= required {
            let res = self.acc / required;
            proof {
                vstd::arithmetic::div_mod::lemma_fundamental_div_mod(
                    self.acc as int,
                    required as int,
                );
                vstd::arithmetic::div_mod::lemma_div_pos_is_pos(self.acc as int, required as int);
                vstd::arithmetic::mul::lemma_mul_upper_bound(
                    res as int,
                    res as int,
                    required as int,
                    required as int,
                );
                assert(res * required <= self.acc) by (nonlinear_arith)
                    requires
                        res == self.acc / required,
                        required > 0,
                ;
            }
            self.acc = self.acc - res * required;
            proof {
                assert(self.acc == old(self).spec_acc() + new_cycles - res * required);
            }
            Some(res)
        } else {
            None
        }
    }

    pub fn reset(&mut self)
        ensures
            final(self).spec_acc() == 0,
    {
        self.acc = 0;
    }
}

} // verus!
