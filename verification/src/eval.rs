//! The symbolic evaluator: replays a prologue against the value algebra and
//! extracts the constant decrement applied to the stack-pointer global.

use vstd::prelude::*;
use crate::error::FrameError;
use crate::expr::{spec_sub, spec_wrap_i32_to_usize, wrap_i32_to_usize, SymbolicValue};
use crate::instr::{is_sp_write, Instr};
use crate::prologue::{
    collect_until_sp_write, first_sp_write, lemma_first_sp_write_props, lemma_take_all,
    lemma_take_succ, sp_write_count,
};

verus! {

/// A symbolic table from slot index to symbolic value, modelled as a map.
///
/// Entries are appended; a later entry for the same key overrides an earlier
/// one, so the table behaves as `Map::insert`.
pub struct SymTable {
    entries: Vec<(u32, SymbolicValue)>,
}

/// The map an association list denotes: later entries override earlier ones.
pub closed spec fn assoc_map(s: Seq<(u32, SymbolicValue)>) -> Map<u32, SymbolicValue>
    decreases s.len(),
{
    if s.len() == 0 {
        Map::empty()
    } else {
        assoc_map(s.drop_last()).insert(s.last().0, s.last().1)
    }
}

impl View for SymTable {
    type V = Map<u32, SymbolicValue>;

    closed spec fn view(&self) -> Map<u32, SymbolicValue> {
        assoc_map(self.entries@)
    }
}

impl SymTable {
    /// An empty table.
    pub fn new() -> (r: Self)
        ensures
            r@ == Map::<u32, SymbolicValue>::empty(),
    {
        SymTable { entries: Vec::new() }
    }

    /// Binds `key` to `value`, overriding any earlier binding.
    pub fn set(&mut self, key: u32, value: SymbolicValue)
        ensures
            final(self)@ == old(self)@.insert(key, value),
    {
        self.entries.push((key, value));
        proof {
            assert(self.entries@.drop_last() =~= old(self).entries@);
        }
    }

    /// The value bound to `key`, if any.
    pub fn get(&self, key: u32) -> (r: Option<SymbolicValue>)
        ensures
            r == if self@.contains_key(key) {
                Some(self@[key])
            } else {
                None::<SymbolicValue>
            },
    {
        let mut j: usize = self.entries.len();
        proof {
            lemma_take_all(self.entries@);
        }
        while j > 0
            invariant
                0 <= j <= self.entries@.len(),
                assoc_map(self.entries@.take(j as int)).contains_key(key) == self@.contains_key(
                    key,
                ),
                assoc_map(self.entries@.take(j as int)).contains_key(key) ==> assoc_map(
                    self.entries@.take(j as int),
                )[key] == self@[key],
            decreases j,
        {
            proof {
                lemma_take_succ(self.entries@, j - 1);
            }
            j = j - 1;
            let entry = self.entries[j];
            if entry.0 == key {
                return Some(entry.1);
            }
        }
        None
    }
}

/// The full symbolic state of the evaluator: the operand stack and the
/// global and local symbolic tables.
pub struct EvalState {
    /// The operand stack, its last element on top.
    pub stack: Seq<SymbolicValue>,
    /// The symbolic values recorded for globals.
    pub globals: Map<u32, SymbolicValue>,
    /// The symbolic values recorded for locals.
    pub locals: Map<u32, SymbolicValue>,
}

/// The state the evaluator starts from: everything empty, every slot unknown.
pub open spec fn init_state() -> EvalState {
    EvalState { stack: Seq::empty(), globals: Map::empty(), locals: Map::empty() }
}

/// One step of the evaluator; `Err` carries the instruction that the
/// evaluator cannot support, either by kind or by operand shape.
pub open spec fn step(st: EvalState, i: Instr) -> Result<EvalState, Instr> {
    match i {
        Instr::I32Const { value } => Ok(
            EvalState {
                stack: st.stack.push(
                    SymbolicValue::Immediate { value: spec_wrap_i32_to_usize(value) },
                ),
                ..st
            },
        ),
        Instr::GlobalGet { index } => Ok(
            EvalState {
                stack: st.stack.push(
                    if st.globals.contains_key(index) {
                        st.globals[index]
                    } else {
                        SymbolicValue::UnknownGlobal { index }
                    },
                ),
                ..st
            },
        ),
        Instr::GlobalSet { index } => if st.stack.len() == 0 {
            Err(i)
        } else {
            Ok(
                EvalState {
                    stack: st.stack.drop_last(),
                    globals: st.globals.insert(index, st.stack.last()),
                    ..st
                },
            )
        },
        Instr::LocalGet { index } => Ok(
            EvalState {
                stack: st.stack.push(
                    if st.locals.contains_key(index) {
                        st.locals[index]
                    } else {
                        SymbolicValue::UnknownLocal { index }
                    },
                ),
                ..st
            },
        ),
        Instr::LocalSet { index } => if st.stack.len() == 0 {
            Err(i)
        } else {
            Ok(
                EvalState {
                    stack: st.stack.drop_last(),
                    locals: st.locals.insert(index, st.stack.last()),
                    ..st
                },
            )
        },
        Instr::LocalTee { index } => if st.stack.len() == 0 {
            Err(i)
        } else {
            Ok(EvalState { locals: st.locals.insert(index, st.stack.last()), ..st })
        },
        Instr::I32Sub => if st.stack.len() < 2 {
            Err(i)
        } else {
            let rhs = st.stack.last();
            let lhs = st.stack.drop_last().last();
            match spec_sub(lhs, rhs) {
                Some(v) => Ok(
                    EvalState { stack: st.stack.drop_last().drop_last().push(v), ..st },
                ),
                None => Err(i),
            }
        },
        Instr::Other => Err(i),
    }
}

/// Evaluation of a whole instruction sequence, instruction by instruction;
/// the first unsupported instruction aborts evaluation.
pub open spec fn eval_seq(st: EvalState, s: Seq<Instr>) -> Result<EvalState, Instr>
    decreases s.len(),
{
    if s.len() == 0 {
        Ok(st)
    } else {
        match eval_seq(st, s.drop_last()) {
            Ok(mid) => step(mid, s.last()),
            Err(i) => Err(i),
        }
    }
}

/// A failure of a prefix is the failure of the whole sequence.
pub proof fn lemma_eval_seq_prefix_err(st: EvalState, s: Seq<Instr>, m: int)
    requires
        0 <= m <= s.len(),
        eval_seq(st, s.take(m)) is Err,
    ensures
        eval_seq(st, s) == eval_seq(st, s.take(m)),
    decreases s.len(),
{
    if m < s.len() {
        assert(s.drop_last().take(m) =~= s.take(m));
        lemma_eval_seq_prefix_err(st, s.drop_last(), m);
    } else {
        lemma_take_all(s);
    }
}

/// An unsupported instruction inside the prologue decides the whole
/// estimate: the body's estimate is that classified failure.
proof fn lemma_estimate_err(
    instrs: Seq<Instr>,
    sp: u32,
    prefix: Seq<Instr>,
    mid: EvalState,
    i: int,
    instr: Instr,
)
    requires
        sp_write_count(instrs, sp) == 1,
        prefix == instrs.take(first_sp_write(instrs, sp) + 1),
        0 <= i < prefix.len(),
        instr == prefix[i],
        eval_seq(init_state(), prefix.take(i)) == Ok::<EvalState, Instr>(mid),
        step(mid, instr) == Err::<EvalState, Instr>(instr),
    ensures
        spec_estimate(instrs, sp) == Err::<usize, FrameError>(
            FrameError::UnsupportedPrologueInstruction { instr },
        ),
{
    lemma_take_succ(prefix, i);
    assert(eval_seq(init_state(), prefix.take(i + 1)) == Err::<EvalState, Instr>(instr));
    lemma_eval_seq_prefix_err(init_state(), prefix, i + 1);
}

/// What the stack-pointer slot must hold after the prologue for the frame
/// size to be extractable: its own prior value decremented by a constant.
pub open spec fn extract_frame_size(st: EvalState, sp: u32) -> Result<usize, FrameError> {
    if st.globals.contains_key(sp) {
        match st.globals[sp] {
            SymbolicValue::Computed { base_global, minus } => if base_global == sp {
                Ok(minus)
            } else {
                Err(FrameError::StackPointerUnchangedOrUnrecognized)
            },
            _ => Err(FrameError::StackPointerUnchangedOrUnrecognized),
        }
    } else {
        Err(FrameError::StackPointerUnchangedOrUnrecognized)
    }
}

/// The frame size the analyzer assigns to a whole function body: the
/// prologue (through the body's single write to the stack-pointer global)
/// is evaluated symbolically and the slot's final value inspected.
pub open spec fn spec_estimate(s: Seq<Instr>, sp: u32) -> Result<usize, FrameError> {
    if sp_write_count(s, sp) == 0 {
        Err(FrameError::NoStackPointerWrite)
    } else if sp_write_count(s, sp) >= 2 {
        Err(FrameError::MultipleStackPointerWrites)
    } else {
        match eval_seq(init_state(), s.take(first_sp_write(s, sp) + 1)) {
            Err(i) => Err(FrameError::UnsupportedPrologueInstruction { instr: i }),
            Ok(st) => extract_frame_size(st, sp),
        }
    }
}

/// Estimates how many bytes the body `instrs` subtracts from the
/// stack-pointer global `sp` in its prologue.
///
/// A body with no write to `sp` has no frame to report; one with several
/// writes has a dynamically sized frame the analyzer refuses to summarize;
/// otherwise the prefix through the single write is replayed against the
/// value algebra and the result is the constant decrement, when the slot's
/// final value has exactly that shape.
pub fn estimate_stack_alloc_size(instrs: &Vec<Instr>, sp: u32) -> (r: Result<usize, FrameError>)
    ensures
        r == spec_estimate(instrs@, sp),
        r == Err::<usize, FrameError>(FrameError::NoStackPointerWrite) <==> sp_write_count(
            instrs@,
            sp,
        ) == 0,
        r == Err::<usize, FrameError>(FrameError::MultipleStackPointerWrites) <==> sp_write_count(
            instrs@,
            sp,
        ) >= 2,
{
    let prologue = match collect_until_sp_write(instrs, sp) {
        Err(e) => {
            return Err(e);
        },
        Ok(p) => p,
    };
    if prologue.has_additional_sp_write {
        return Err(FrameError::MultipleStackPointerWrites);
    }
    let body = prologue.instrs;
    let ghost s = body@;
    let mut stack: Vec<SymbolicValue> = Vec::new();
    let mut globals = SymTable::new();
    let mut locals = SymTable::new();
    let n = body.len();
    let mut i: usize = 0;
    while i < n
        invariant
            n == s.len(),
            body@ == s,
            sp_write_count(instrs@, sp) == 1,
            s == instrs@.take(first_sp_write(instrs@, sp) + 1),
            0 <= i <= n,
            eval_seq(init_state(), s.take(i as int)) == Ok::<EvalState, Instr>(
                EvalState { stack: stack@, globals: globals@, locals: locals@ },
            ),
        decreases n - i,
    {
        proof {
            lemma_take_succ(s, i as int);
        }
        let instr = body[i];
        match instr {
            Instr::I32Const { value } => {
                stack.push(SymbolicValue::Immediate { value: wrap_i32_to_usize(value) });
            },
            Instr::GlobalGet { index } => {
                match globals.get(index) {
                    Some(found) => stack.push(found),
                    None => stack.push(SymbolicValue::UnknownGlobal { index }),
                }
            },
            Instr::GlobalSet { index } => {
                match stack.pop() {
                    Some(top) => globals.set(index, top),
                    None => {
                        proof {
                            lemma_estimate_err(
                                instrs@,
                                sp,
                                s,
                                EvalState { stack: stack@, globals: globals@, locals: locals@ },
                                i as int,
                                instr,
                            );
                        }
                        return Err(FrameError::UnsupportedPrologueInstruction { instr });
                    },
                }
            },
            Instr::LocalGet { index } => {
                match locals.get(index) {
                    Some(found) => stack.push(found),
                    None => stack.push(SymbolicValue::UnknownLocal { index }),
                }
            },
            Instr::LocalSet { index } => {
                match stack.pop() {
                    Some(top) => locals.set(index, top),
                    None => {
                        proof {
                            lemma_estimate_err(
                                instrs@,
                                sp,
                                s,
                                EvalState { stack: stack@, globals: globals@, locals: locals@ },
                                i as int,
                                instr,
                            );
                        }
                        return Err(FrameError::UnsupportedPrologueInstruction { instr });
                    },
                }
            },
            Instr::LocalTee { index } => {
                if stack.len() == 0 {
                    proof {
                        lemma_estimate_err(
                            instrs@,
                            sp,
                            s,
                            EvalState { stack: stack@, globals: globals@, locals: locals@ },
                            i as int,
                            instr,
                        );
                    }
                    return Err(FrameError::UnsupportedPrologueInstruction { instr });
                }
                let top = stack[stack.len() - 1];
                locals.set(index, top);
            },
            Instr::I32Sub => {
                if stack.len() < 2 {
                    proof {
                        lemma_estimate_err(
                            instrs@,
                            sp,
                            s,
                            EvalState { stack: stack@, globals: globals@, locals: locals@ },
                            i as int,
                            instr,
                        );
                    }
                    return Err(FrameError::UnsupportedPrologueInstruction { instr });
                }
                let rhs = stack[stack.len() - 1];
                let lhs = stack[stack.len() - 2];
                match lhs.sub(rhs) {
                    Some(v) => {
                        stack.pop();
                        stack.pop();
                        stack.push(v);
                    },
                    None => {
                        proof {
                            lemma_estimate_err(
                                instrs@,
                                sp,
                                s,
                                EvalState { stack: stack@, globals: globals@, locals: locals@ },
                                i as int,
                                instr,
                            );
                        }
                        return Err(FrameError::UnsupportedPrologueInstruction { instr });
                    },
                }
            },
            Instr::Other => {
                proof {
                    lemma_eval_seq_prefix_err(init_state(), s, i + 1);
                }
                return Err(FrameError::UnsupportedPrologueInstruction { instr });
            },
        }
        i = i + 1;
    }
    proof {
        lemma_take_all(s);
        lemma_first_sp_write_props(instrs@, sp);
    }
    match globals.get(sp) {
        Some(SymbolicValue::Computed { base_global, minus }) => {
            if base_global == sp {
                Ok(minus)
            } else {
                Err(FrameError::StackPointerUnchangedOrUnrecognized)
            }
        },
        _ => Err(FrameError::StackPointerUnchangedOrUnrecognized),
    }
}

/// The canonical stack-pointer adjustment idiom: read the stack-pointer
/// global, subtract the constant `k`, optionally keep a copy in a local,
/// and write the result back.
pub open spec fn prologue_idiom(sp: u32, k: i32, tee: Option<u32>) -> Seq<Instr> {
    match tee {
        None => seq![
            Instr::GlobalGet { index: sp },
            Instr::I32Const { value: k },
            Instr::I32Sub,
            Instr::GlobalSet { index: sp },
        ],
        Some(t) => seq![
            Instr::GlobalGet { index: sp },
            Instr::I32Const { value: k },
            Instr::I32Sub,
            Instr::LocalTee { index: t },
            Instr::GlobalSet { index: sp },
        ],
    }
}

/// Concatenation adds the write counts of the two parts.
proof fn lemma_count_concat(a: Seq<Instr>, b: Seq<Instr>, sp: u32)
    ensures
        sp_write_count(a + b, sp) == sp_write_count(a, sp) + sp_write_count(b, sp),
    decreases b.len(),
{
    if b.len() == 0 {
        assert(a + b =~= a);
    } else {
        assert((a + b).drop_last() =~= a + b.drop_last());
        lemma_count_concat(a, b.drop_last(), sp);
    }
}

/// A sequence without a write to `sp` counts none.
proof fn lemma_count_no_writes(s: Seq<Instr>, sp: u32)
    requires
        forall|j: int| 0 <= j < s.len() ==> !is_sp_write(#[trigger] s[j], sp),
    ensures
        sp_write_count(s, sp) == 0,
    decreases s.len(),
{
    if s.len() > 0 {
        lemma_count_no_writes(s.drop_last(), sp);
    }
}

/// A body whose single write to the stack-pointer global ends the canonical
/// adjustment idiom — read the global, subtract the constant `k`, store the
/// result back, with or without an intervening non-destructive local store —
/// is estimated at exactly `k`, whatever else follows the idiom.
pub proof fn lemma_prologue_idiom(sp: u32, k: i32, tee: Option<u32>, tail: Seq<Instr>)
    requires
        forall|j: int| 0 <= j < tail.len() ==> !is_sp_write(#[trigger] tail[j], sp),
    ensures
        spec_estimate(prologue_idiom(sp, k, tee) + tail, sp) == Ok::<usize, FrameError>(
            spec_wrap_i32_to_usize(k),
        ),
{
    let idiom = prologue_idiom(sp, k, tee);
    let s = idiom + tail;
    let st0 = init_state();
    let gg = Instr::GlobalGet { index: sp };
    let c = Instr::I32Const { value: k };
    let gs = Instr::GlobalSet { index: sp };
    let ug = SymbolicValue::UnknownGlobal { index: sp };
    let im = SymbolicValue::Immediate { value: spec_wrap_i32_to_usize(k) };
    let cp = SymbolicValue::Computed { base_global: sp, minus: spec_wrap_i32_to_usize(k) };
    let s1 = seq![gg];
    let s2 = seq![gg, c];
    let s3 = seq![gg, c, Instr::I32Sub];
    assert(s1.drop_last() =~= Seq::<Instr>::empty());
    assert(eval_seq(st0, Seq::<Instr>::empty()) == Ok::<EvalState, Instr>(st0));
    assert(sp_write_count(Seq::<Instr>::empty(), sp) == 0);
    assert(s2.drop_last() =~= s1);
    assert(s3.drop_last() =~= s2);
    let st1 = EvalState { stack: seq![ug], ..st0 };
    let st2 = EvalState { stack: seq![ug, im], ..st0 };
    let st3 = EvalState { stack: seq![cp], ..st0 };
    assert(st0.stack.push(ug) =~= st1.stack);
    assert(st1.stack.push(im) =~= st2.stack);
    assert(st2.stack.drop_last() =~= st1.stack);
    assert(st2.stack.drop_last().drop_last().push(cp) =~= st3.stack);
    assert(eval_seq(st0, s1) == Ok::<EvalState, Instr>(st1));
    assert(eval_seq(st0, s2) == Ok::<EvalState, Instr>(st2));
    assert(eval_seq(st0, s3) == Ok::<EvalState, Instr>(st3));
    assert(sp_write_count(s1, sp) == 0);
    assert(sp_write_count(s2, sp) == 0);
    assert(sp_write_count(s3, sp) == 0);
    let stf = EvalState {
        stack: Seq::empty(),
        globals: st0.globals.insert(sp, cp),
        locals: match tee {
            None => st0.locals,
            Some(t) => st0.locals.insert(t, cp),
        },
    };
    match tee {
        None => {
            assert(idiom.drop_last() =~= s3);
            assert(st3.stack.drop_last() =~= stf.stack);
            assert(eval_seq(st0, idiom) == Ok::<EvalState, Instr>(stf));
            assert(sp_write_count(idiom, sp) == 1);
        },
        Some(t) => {
            let s4 = seq![gg, c, Instr::I32Sub, Instr::LocalTee { index: t }];
            assert(s4.drop_last() =~= s3);
            assert(idiom.drop_last() =~= s4);
            let st4 = EvalState { locals: st0.locals.insert(t, cp), ..st3 };
            assert(eval_seq(st0, s4) == Ok::<EvalState, Instr>(st4));
            assert(st4.stack.drop_last() =~= stf.stack);
            assert(eval_seq(st0, idiom) == Ok::<EvalState, Instr>(stf));
            assert(sp_write_count(s4, sp) == 0);
            assert(sp_write_count(idiom, sp) == 1);
        },
    }
    lemma_count_no_writes(tail, sp);
    lemma_count_concat(idiom, tail, sp);
    assert(sp_write_count(s, sp) == 1);
    lemma_first_sp_write_props(s, sp);
    let f = first_sp_write(s, sp);
    assert forall|j: int| 0 <= j < s.len() && j != idiom.len() - 1 implies !is_sp_write(
        s[j],
        sp,
    ) by {
        if j < idiom.len() {
            assert(s[j] == idiom[j]);
        } else {
            assert(s[j] == tail[j - idiom.len()]);
        }
    }
    assert(f == idiom.len() - 1);
    assert(s.take(f + 1) =~= idiom);
    assert(extract_frame_size(stf, sp) == Ok::<usize, FrameError>(spec_wrap_i32_to_usize(k)));
}

} // verus!
