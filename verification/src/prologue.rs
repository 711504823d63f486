//! Extraction of the prologue: the prefix of a function body up to and
//! including its first write to the stack-pointer global.

use vstd::prelude::*;
use crate::error::FrameError;
use crate::instr::{is_sp_write, Instr};

verus! {

/// Taking one more element of a prefix appends exactly the next element.
pub proof fn lemma_take_succ<T>(s: Seq<T>, i: int)
    requires
        0 <= i < s.len(),
    ensures
        s.take(i + 1).drop_last() == s.take(i),
        s.take(i + 1).last() == s[i],
{
    assert(s.take(i + 1).drop_last() =~= s.take(i));
}

/// Taking the whole length of a sequence yields the sequence itself.
pub proof fn lemma_take_all<T>(s: Seq<T>)
    ensures
        s.take(s.len() as int) == s,
{
    assert(s.take(s.len() as int) =~= s);
}

/// How many instructions of `s` write the stack-pointer global `sp`.
pub open spec fn sp_write_count(s: Seq<Instr>, sp: u32) -> nat
    decreases s.len(),
{
    if s.len() == 0 {
        0
    } else {
        sp_write_count(s.drop_last(), sp) + if is_sp_write(s.last(), sp) {
            1nat
        } else {
            0nat
        }
    }
}

/// The index of the first write to `sp` in `s`, or `s.len()` if there is none.
pub open spec fn first_sp_write(s: Seq<Instr>, sp: u32) -> int
    decreases s.len(),
{
    if s.len() == 0 {
        0
    } else if sp_write_count(s.drop_last(), sp) > 0 {
        first_sp_write(s.drop_last(), sp)
    } else if is_sp_write(s.last(), sp) {
        s.len() - 1
    } else {
        s.len() as int
    }
}

/// When `s` contains a write to `sp`, `first_sp_write` is a valid index of a
/// write, and no earlier instruction writes `sp`.
pub proof fn lemma_first_sp_write_props(s: Seq<Instr>, sp: u32)
    requires
        sp_write_count(s, sp) > 0,
    ensures
        0 <= first_sp_write(s, sp) < s.len(),
        is_sp_write(s[first_sp_write(s, sp)], sp),
        sp_write_count(s.take(first_sp_write(s, sp)), sp) == 0,
        sp_write_count(s.take(first_sp_write(s, sp) + 1), sp) == 1,
    decreases s.len(),
{
    let f = first_sp_write(s, sp);
    if sp_write_count(s.drop_last(), sp) > 0 {
        lemma_first_sp_write_props(s.drop_last(), sp);
        assert(s.drop_last()[f] == s[f]);
        assert(s.drop_last().take(f) =~= s.take(f));
        assert(s.drop_last().take(f + 1) =~= s.take(f + 1));
    } else {
        assert(is_sp_write(s.last(), sp));
        assert(f == s.len() - 1);
        assert(s.take(f) =~= s.drop_last());
        lemma_take_all(s);
    }
}

/// A prefix never counts more writes than the whole sequence.
pub proof fn lemma_count_monotone(s: Seq<Instr>, sp: u32, m: int)
    requires
        0 <= m <= s.len(),
    ensures
        sp_write_count(s.take(m), sp) <= sp_write_count(s, sp),
    decreases s.len(),
{
    if m < s.len() {
        assert(s.drop_last().take(m) =~= s.take(m));
        lemma_count_monotone(s.drop_last(), sp, m);
    } else {
        lemma_take_all(s);
    }
}

/// A write-free prefix keeps `first_sp_write` outside of it.
pub proof fn lemma_no_write_prefix(s: Seq<Instr>, sp: u32, i: int)
    requires
        0 <= i <= s.len(),
        sp_write_count(s.take(i), sp) == 0,
        sp_write_count(s, sp) > 0,
    ensures
        first_sp_write(s, sp) >= i,
{
    lemma_first_sp_write_props(s, sp);
    let f = first_sp_write(s, sp);
    if f < i {
        lemma_write_in_prefix_counts(s, sp, f, i);
    }
}

/// A prefix that covers a write to `sp` counts at least that write.
proof fn lemma_write_in_prefix_counts(s: Seq<Instr>, sp: u32, w: int, i: int)
    requires
        0 <= w < i <= s.len(),
        is_sp_write(s[w], sp),
    ensures
        sp_write_count(s.take(i), sp) > 0,
    decreases i,
{
    if w == i - 1 {
        assert(s.take(i).last() == s[w]);
    } else {
        lemma_write_in_prefix_counts(s, sp, w, i - 1);
        lemma_take_succ(s, i - 1);
    }
}

/// The prologue of a function body: every instruction up to and including
/// the first write to the stack-pointer global, plus whether any further
/// write to that global follows later in the body.
pub struct Prologue {
    /// The collected instruction prefix; its last instruction is the first
    /// write to the stack-pointer global.
    pub instrs: Vec<Instr>,
    /// Whether the body writes the stack-pointer global again after the
    /// collected prefix, which signals a dynamically sized frame.
    pub has_additional_sp_write: bool,
}

/// Walks `instrs` and collects the prologue for stack-pointer global `sp`.
///
/// Fails with `NoStackPointerWrite` when the body never writes `sp`;
/// otherwise returns the prefix through the first write together with a flag
/// telling whether a second write exists anywhere afterward.
pub fn collect_until_sp_write(instrs: &Vec<Instr>, sp: u32) -> (r: Result<Prologue, FrameError>)
    ensures
        r is Err <==> sp_write_count(instrs@, sp) == 0,
        r is Err ==> r == Err::<Prologue, FrameError>(FrameError::NoStackPointerWrite),
        r matches Ok(p) ==> {
            &&& p.instrs@ == instrs@.take(first_sp_write(instrs@, sp) + 1)
            &&& p.has_additional_sp_write == (sp_write_count(instrs@, sp) >= 2)
        },
{
    let n = instrs.len();
    let mut count: usize = 0;
    let mut first: usize = n;
    let mut i: usize = 0;
    while i < n
        invariant
            n == instrs@.len(),
            0 <= i <= n,
            count == sp_write_count(instrs@.take(i as int), sp),
            count <= i,
            count > 0 ==> first < i && first == first_sp_write(instrs@, sp),
            count == 0 ==> first == n,
        decreases n - i,
    {
        proof {
            lemma_take_succ(instrs@, i as int);
        }
        match instrs[i] {
            Instr::GlobalSet { index } => {
                if index == sp {
                    if count == 0 {
                        first = i;
                        proof {
                            lemma_write_in_prefix_counts(instrs@, sp, i as int, i + 1);
                            lemma_count_monotone(instrs@, sp, i + 1);
                            lemma_first_sp_write_props(instrs@, sp);
                            lemma_no_write_prefix(instrs@, sp, i as int);
                            if first_sp_write(instrs@, sp) > i as int {
                                lemma_write_in_prefix_counts(
                                    instrs@,
                                    sp,
                                    i as int,
                                    first_sp_write(instrs@, sp),
                                );
                            }
                        }
                    }
                    count = count + 1;
                }
            },
            _ => {},
        }
        i = i + 1;
    }
    proof {
        lemma_take_all(instrs@);
    }
    if count == 0 {
        return Err(FrameError::NoStackPointerWrite);
    }
    let mut prefix: Vec<Instr> = Vec::new();
    let mut j: usize = 0;
    while j <= first
        invariant
            first < n,
            n == instrs@.len(),
            0 <= j <= first + 1,
            prefix@ == instrs@.take(j as int),
        decreases first + 1 - j,
    {
        proof {
            lemma_take_succ(instrs@, j as int);
        }
        prefix.push(instrs[j]);
        j = j + 1;
    }
    Ok(Prologue { instrs: prefix, has_additional_sp_write: count >= 2 })
}

} // verus!
