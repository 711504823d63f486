//! Section-level summary of a module: import base, per-body frame sizes and
//! the function name table.

use vstd::prelude::*;
use crate::error::FrameError;
use crate::eval::{estimate_stack_alloc_size, spec_estimate};
use crate::instr::Instr;
use crate::names::{spec_pairs_lookup, NameTable};
use crate::prologue::{lemma_take_all, lemma_take_succ};
use crate::resolver::FunctionIndexSpace;

verus! {

/// The kind of one import-section entry, as far as function index space is
/// concerned.
#[derive(Clone, Copy, Debug, PartialEq, Eq, Structural)]
pub enum ImportKind {
    /// A function import, which occupies one global function index.
    Func,
    /// Any other import kind.
    Other,
}

/// One decoded module section, reduced to what the analyzer reads.
pub enum Section {
    /// The entries of an import section, in order.
    Imports(Vec<ImportKind>),
    /// The instruction sequence of one code-section entry.
    Code(Vec<Instr>),
    /// The (function name, global index) pairs of the name metadata, in order.
    FunctionNames(Vec<(String, u32)>),
    /// A section the analyzer does not read.
    Other,
}

/// How many function imports one section contributes.
pub open spec fn count_funcs(s: Seq<ImportKind>) -> nat
    decreases s.len(),
{
    if s.len() == 0 {
        0
    } else {
        count_funcs(s.drop_last()) + if s.last() is Func {
            1nat
        } else {
            0nat
        }
    }
}

/// The function imports a single section contributes.
pub open spec fn section_func_imports(sec: Section) -> nat {
    match sec {
        Section::Imports(v) => count_funcs(v@),
        _ => 0,
    }
}

/// The total count of imported functions across all sections, in order.
pub open spec fn func_import_count(ss: Seq<Section>) -> nat
    decreases ss.len(),
{
    if ss.len() == 0 {
        0
    } else {
        func_import_count(ss.drop_last()) + section_func_imports(ss.last())
    }
}

/// The code bodies a single section contributes.
pub open spec fn section_bodies(sec: Section) -> Seq<Seq<Instr>> {
    match sec {
        Section::Code(v) => seq![v@],
        _ => Seq::empty(),
    }
}

/// All code bodies of the module, in code-section encounter order.
pub open spec fn code_bodies(ss: Seq<Section>) -> Seq<Seq<Instr>>
    decreases ss.len(),
{
    if ss.len() == 0 {
        Seq::empty()
    } else {
        code_bodies(ss.drop_last()) + section_bodies(ss.last())
    }
}

/// The name pairs a single section contributes.
pub open spec fn section_name_pairs(sec: Section) -> Seq<(String, u32)> {
    match sec {
        Section::FunctionNames(v) => v@,
        _ => Seq::empty(),
    }
}

/// All (name, global index) pairs of the module, in order.
pub open spec fn all_name_pairs(ss: Seq<Section>) -> Seq<(String, u32)>
    decreases ss.len(),
{
    if ss.len() == 0 {
        Seq::empty()
    } else {
        all_name_pairs(ss.drop_last()) + section_name_pairs(ss.last())
    }
}

/// A prefix never counts more imported functions than the whole list.
pub proof fn lemma_func_import_count_mono(ss: Seq<Section>, k: int)
    requires
        0 <= k <= ss.len(),
    ensures
        func_import_count(ss.take(k)) <= func_import_count(ss),
    decreases ss.len(),
{
    if k < ss.len() {
        assert(ss.drop_last().take(k) =~= ss.take(k));
        lemma_func_import_count_mono(ss.drop_last(), k);
    } else {
        lemma_take_all(ss);
    }
}

/// A prefix never counts more function imports than the whole section.
pub proof fn lemma_count_funcs_mono(s: Seq<ImportKind>, m: int)
    requires
        0 <= m <= s.len(),
    ensures
        count_funcs(s.take(m)) <= count_funcs(s),
    decreases s.len(),
{
    if m < s.len() {
        assert(s.drop_last().take(m) =~= s.take(m));
        lemma_count_funcs_mono(s.drop_last(), m);
    } else {
        lemma_take_all(s);
    }
}

/// Everything the analyzer derives from a module: the function index space,
/// the frame-size estimate (or classified failure) of every code body in
/// encounter order, and the name table.
pub struct ModuleSummary {
    /// The function index space, with its count of imported functions.
    pub index_space: FunctionIndexSpace,
    /// Per code body, in encounter order: its frame size or why none could
    /// be determined.
    pub frame_sizes: Vec<Result<usize, FrameError>>,
    /// The name table of the module's function-name metadata.
    pub names: NameTable,
}

/// Counts the imported functions across `sections`; `None` when the count
/// does not fit the index type.
pub fn count_func_imports(sections: &Vec<Section>) -> (r: Option<usize>)
    ensures
        func_import_count(sections@) <= usize::MAX ==> r == Some(
            func_import_count(sections@) as usize,
        ),
        func_import_count(sections@) > usize::MAX ==> r is None,
{
    let nsec = sections.len();
    let mut base: usize = 0;
    let mut k: usize = 0;
    while k < nsec
        invariant
            nsec == sections@.len(),
            0 <= k <= nsec,
            base == func_import_count(sections@.take(k as int)),
            func_import_count(sections@.take(k as int)) <= usize::MAX,
        decreases nsec - k,
    {
        proof {
            lemma_take_succ(sections@, k as int);
        }
        match &sections[k] {
            Section::Imports(v) => {
                let m_end = v.len();
                let mut m: usize = 0;
                while m < m_end
                    invariant
                        m_end == v@.len(),
                        0 <= m <= m_end,
                        nsec == sections@.len(),
                        0 <= k < nsec,
                        sections@[k as int] == Section::Imports(*v),
                        func_import_count(sections@.take(k + 1)) == func_import_count(
                            sections@.take(k as int),
                        ) + count_funcs(v@),
                        base == func_import_count(sections@.take(k as int)) + count_funcs(
                            v@.take(m as int),
                        ),
                    decreases m_end - m,
                {
                    proof {
                        lemma_take_succ(v@, m as int);
                    }
                    match v[m] {
                        ImportKind::Func => {
                            match base.checked_add(1) {
                                Some(b) => base = b,
                                None => {
                                    proof {
                                        lemma_count_funcs_mono(v@, m + 1);
                                        lemma_func_import_count_mono(sections@, k + 1);
                                    }
                                    return None;
                                },
                            }
                        },
                        ImportKind::Other => {},
                    }
                    m = m + 1;
                }
                proof {
                    lemma_take_all(v@);
                }
            },
            _ => {},
        }
        k = k + 1;
    }
    proof {
        lemma_take_all(sections@);
    }
    Some(base)
}

/// Summarizes a decoded module: counts the imported functions, estimates a
/// frame size for every code body against stack-pointer global `sp`, and
/// builds the name table, later name pairs overriding earlier ones.
pub fn summarize_sections(sections: &Vec<Section>, sp: u32) -> (r: ModuleSummary)
    requires
        func_import_count(sections@) <= usize::MAX,
    ensures
        r.index_space.base == func_import_count(sections@),
        r.frame_sizes@.len() == code_bodies(sections@).len(),
        forall|i: int|
            0 <= i < code_bodies(sections@).len() ==> r.frame_sizes@[i] == spec_estimate(
                #[trigger] code_bodies(sections@)[i],
                sp,
            ),
        forall|n: Seq<char>| #[trigger]
            r.names.spec_lookup(n) == spec_pairs_lookup(all_name_pairs(sections@), n),
{
    let nsec = sections.len();
    let mut base: usize = 0;
    let mut frame_sizes: Vec<Result<usize, FrameError>> = Vec::new();
    let mut names = NameTable::new();
    let mut k: usize = 0;
    while k < nsec
        invariant
            nsec == sections@.len(),
            func_import_count(sections@) <= usize::MAX,
            0 <= k <= nsec,
            base == func_import_count(sections@.take(k as int)),
            frame_sizes@.len() == code_bodies(sections@.take(k as int)).len(),
            forall|i: int|
                0 <= i < code_bodies(sections@.take(k as int)).len() ==> frame_sizes@[i]
                    == spec_estimate(#[trigger] code_bodies(sections@.take(k as int))[i], sp),
            forall|n: Seq<char>| #[trigger]
                names.spec_lookup(n) == spec_pairs_lookup(
                    all_name_pairs(sections@.take(k as int)),
                    n,
                ),
        decreases nsec - k,
    {
        proof {
            lemma_take_succ(sections@, k as int);
            lemma_func_import_count_mono(sections@, k + 1);
        }
        let ghost prior_pairs = all_name_pairs(sections@.take(k as int));
        match &sections[k] {
            Section::Imports(v) => {
                let m_end = v.len();
                let mut m: usize = 0;
                while m < m_end
                    invariant
                        m_end == v@.len(),
                        0 <= m <= m_end,
                        sections@[k as int] == Section::Imports(*v),
                        func_import_count(sections@) <= usize::MAX,
                        func_import_count(sections@.take(k + 1)) <= func_import_count(sections@),
                        func_import_count(sections@.take(k + 1)) == func_import_count(
                            sections@.take(k as int),
                        ) + count_funcs(v@),
                        base == func_import_count(sections@.take(k as int)) + count_funcs(
                            v@.take(m as int),
                        ),
                    decreases m_end - m,
                {
                    proof {
                        lemma_take_succ(v@, m as int);
                        lemma_count_funcs_mono(v@, m + 1);
                    }
                    match v[m] {
                        ImportKind::Func => {
                            base = base + 1;
                        },
                        ImportKind::Other => {},
                    }
                    m = m + 1;
                }
                proof {
                    lemma_take_all(v@);
                    assert(code_bodies(sections@.take(k + 1)) =~= code_bodies(
                        sections@.take(k as int),
                    ));
                    assert(all_name_pairs(sections@.take(k + 1)) =~= prior_pairs);
                }
            },
            Section::Code(v) => {
                let est = estimate_stack_alloc_size(v, sp);
                frame_sizes.push(est);
                proof {
                    assert(all_name_pairs(sections@.take(k + 1)) =~= prior_pairs);
                    assert(code_bodies(sections@.take(k + 1)) =~= code_bodies(
                        sections@.take(k as int),
                    ).push(v@));
                }
            },
            Section::FunctionNames(v) => {
                let m_end = v.len();
                let mut m: usize = 0;
                while m < m_end
                    invariant
                        m_end == v@.len(),
                        0 <= m <= m_end,
                        sections@[k as int] == Section::FunctionNames(*v),
                        forall|n: Seq<char>| #[trigger]
                            names.spec_lookup(n) == spec_pairs_lookup(
                                prior_pairs + v@.take(m as int),
                                n,
                            ),
                    decreases m_end - m,
                {
                    proof {
                        lemma_take_succ(v@, m as int);
                        assert((prior_pairs + v@.take(m + 1)).drop_last() =~= prior_pairs
                            + v@.take(m as int));
                        assert((prior_pairs + v@.take(m + 1)).last() == v@[m as int]);
                    }
                    let entry = &v[m];
                    let name = entry.0.clone();
                    names.insert(name, entry.1 as usize);
                    m = m + 1;
                }
                proof {
                    lemma_take_all(v@);
                    assert(prior_pairs + v@ =~= all_name_pairs(sections@.take(k + 1)));
                    assert(code_bodies(sections@.take(k + 1)) =~= code_bodies(
                        sections@.take(k as int),
                    ));
                }
            },
            Section::Other => {
                proof {
                    assert(code_bodies(sections@.take(k + 1)) =~= code_bodies(
                        sections@.take(k as int),
                    ));
                    assert(all_name_pairs(sections@.take(k + 1)) =~= prior_pairs);
                }
            },
        }
        k = k + 1;
    }
    proof {
        lemma_take_all(sections@);
    }
    ModuleSummary {
        index_space: FunctionIndexSpace::new(base),
        frame_sizes,
        names,
    }
}

} // verus!
