//! Decoding the container binary into the analyzer's section model.
//!
//! All parsing of the binary format is done by the `wasmparser` crate; the
//! trusted items here only drive it and convert what it yields into the
//! crate's own plain data. The decoder's result is a function of the
//! module's bytes alone, so it is given names (`decoded_of`, `pairs_of`)
//! that the drivers' contracts are stated over; what the decoded sections
//! then mean is specified and proved downstream, in `sections` and
//! `aggregate`.

use vstd::prelude::*;
use crate::eval::spec_estimate;
use crate::instr::Instr;
use crate::names::spec_pairs_lookup;
use crate::prologue::{lemma_take_all, lemma_take_succ};
use crate::sections::{
    all_name_pairs, code_bodies, count_func_imports, count_funcs, func_import_count,
    section_bodies, section_func_imports, section_name_pairs, summarize_sections, ImportKind,
    ModuleSummary, Section,
};

verus! {

/// A malformed container binary: fatal for the whole run.
#[derive(Debug, Clone)]
pub struct DecodeError {
    /// What the parser reported.
    pub message: String,
}

#[verifier::external_type_specification]
#[verifier::external_body]
pub struct ExPayload<'a>(wasmparser::Payload<'a>);

#[verifier::external_type_specification]
#[verifier::external_body]
#[verifier::reject_recursive_types(T)]
pub struct ExSectionLimited<'a, T>(wasmparser::SectionLimited<'a, T>);

#[verifier::external_type_specification]
#[verifier::external_body]
pub struct ExImports<'a>(wasmparser::Imports<'a>);

#[verifier::external_type_specification]
#[verifier::external_body]
pub struct ExFunctionBody<'a>(wasmparser::FunctionBody<'a>);

#[verifier::external_type_specification]
#[verifier::external_body]
pub struct ExOperator<'a>(wasmparser::Operator<'a>);

/// One payload of the module, reduced to the sections the analyzer reads.
enum PayloadItem<'a> {
    /// An import section, still to be read entry by entry.
    Imports(wasmparser::ImportSectionReader<'a>),
    /// One code-section entry, still to be read operator by operator.
    Code(wasmparser::FunctionBody<'a>),
    /// A custom section: its name, its raw contents and their offset in the
    /// byte stream.
    Custom { name: String, data: Vec<u8>, offset: u64 },
    /// Anything else.
    Other,
}

/// One module payload as the trusted decoder hands it over: imports and
/// code already reduced to plain data, custom sections kept raw so that
/// verified code decides which of them to read further.
pub enum RawSection {
    /// The entries of an import section, in order.
    Imports(Vec<ImportKind>),
    /// The instruction sequence of one code-section entry.
    Code(Vec<Instr>),
    /// A custom section: its name, its raw contents and their offset in the
    /// byte stream.
    Custom { name: String, data: Vec<u8>, offset: u64 },
    /// A section the analyzer does not read.
    Other,
}

/// Whether `wasmparser` decodes these module bytes without error.
pub uninterp spec fn decode_ok_of(bytes: Seq<u8>) -> bool;

/// The payloads `wasmparser` decodes these module bytes into, reduced to
/// `RawSection`, when it decodes them without error.
pub uninterp spec fn decoded_of(bytes: Seq<u8>) -> Seq<RawSection>;

/// Whether `wasmparser` reads a function-name map out of these custom
/// section bytes without a fatal error.
pub uninterp spec fn pairs_ok_of(data: Seq<u8>, offset: u64) -> bool;

/// The (function name, global index) pairs `wasmparser` reads out of these
/// custom section bytes, in order, when it reads them without fatal error.
pub uninterp spec fn pairs_of(data: Seq<u8>, offset: u64) -> Seq<(String, u32)>;

/// Relies on `wasmparser::Parser::parse_all`: splits a module's bytes into
/// its payloads, in order, or reports the malformation that stopped it.
#[verifier::external_body]
fn parse_payloads<'a>(bytes: &'a [u8]) -> (r: Result<Vec<wasmparser::Payload<'a>>, DecodeError>) {
    wasmparser::Parser::new(0).parse_all(bytes).map(
        |p| p.map_err(|e| DecodeError { message: e.to_string() }),
    ).collect()
}

/// Relies on `wasmparser::Payload`'s variants to tell the import, code and
/// custom sections apart, and on `CustomSectionReader::{name, data,
/// data_offset}`, whose underlying reader guarantees that offset plus
/// length fit the stream's 64-bit address space.
#[verifier::external_body]
fn classify_payload<'a>(p: &wasmparser::Payload<'a>) -> (r: PayloadItem<'a>)
    ensures
        r matches PayloadItem::Custom { name, data, offset } ==> offset + data@.len()
            <= u64::MAX,
{
    match p {
        wasmparser::Payload::ImportSection(s) => PayloadItem::Imports(s.clone()),
        wasmparser::Payload::CodeSectionEntry(b) => PayloadItem::Code(b.clone()),
        wasmparser::Payload::CustomSection(c) => PayloadItem::Custom {
            name: c.name().to_string(),
            data: c.data().to_vec(),
            offset: c.data_offset(),
        },
        _ => PayloadItem::Other,
    }
}

/// Relies on `SectionLimited::into_imports` to flatten the import section
/// into single imports, and on `TypeRef`'s variants to tell function
/// imports (the only entries that occupy function index space) from the
/// rest.
#[verifier::external_body]
fn read_import_kinds<'a>(sec: wasmparser::ImportSectionReader<'a>) -> (r: Result<
    Vec<ImportKind>,
    DecodeError,
>) {
    sec.into_imports().map(
        |i| match i {
            Ok(imp) => Ok(
                match imp.ty {
                    wasmparser::TypeRef::Func(_) => ImportKind::Func,
                    wasmparser::TypeRef::FuncExact(_) => ImportKind::Func,
                    _ => ImportKind::Other,
                },
            ),
            Err(e) => Err(DecodeError { message: e.to_string() }),
        },
    ).collect()
}

/// Relies on `wasmparser::Operator`'s variants: each operator the evaluator
/// models is carried over with its immediate; every other operator becomes
/// `Other`.
#[verifier::external_body]
fn convert_op<'a>(op: &wasmparser::Operator<'a>) -> (r: Instr) {
    match op {
        wasmparser::Operator::I32Const { value } => Instr::I32Const { value: *value },
        wasmparser::Operator::LocalGet { local_index } => Instr::LocalGet { index: *local_index },
        wasmparser::Operator::LocalSet { local_index } => Instr::LocalSet { index: *local_index },
        wasmparser::Operator::LocalTee { local_index } => Instr::LocalTee { index: *local_index },
        wasmparser::Operator::GlobalGet { global_index } => Instr::GlobalGet {
            index: *global_index,
        },
        wasmparser::Operator::GlobalSet { global_index } => Instr::GlobalSet {
            index: *global_index,
        },
        wasmparser::Operator::I32Sub => Instr::I32Sub,
        _ => Instr::Other,
    }
}

/// Relies on `FunctionBody::get_operators_reader` and
/// `OperatorsReader::read`: yields the body's operators in order, ending at
/// the first position that does not read back as an operator (the end of
/// the body included).
#[verifier::external_body]
fn read_body_instrs(body: &wasmparser::FunctionBody<'_>) -> (r: Vec<Instr>) {
    let mut out = Vec::new();
    let Ok(mut reader) = body.get_operators_reader() else {
        return out;
    };
    while let Ok(op) = reader.read() {
        out.push(convert_op(&op));
    }
    out
}

/// Relies on `wasmparser::NameSectionReader` over the custom section's
/// bytes: yields the (name, global function index) pairs of every
/// function-name subsection, in order; a malformed subsection ends the
/// walk, a malformed name pair is fatal. The pairs depend on the section's
/// bytes and offset alone, which `pairs_ok_of` and `pairs_of` name.
#[verifier::external_body]
fn read_name_pairs(data: &[u8], offset: u64) -> (r: Result<Vec<(String, u32)>, DecodeError>)
    requires
        offset + data@.len() <= u64::MAX,
    ensures
        r is Ok <==> pairs_ok_of(data@, offset),
        r matches Ok(v) ==> v@ == pairs_of(data@, offset),
{
    let mut out = Vec::new();
    let reader = wasmparser::NameSectionReader::new(wasmparser::BinaryReader::new(data, offset));
    for sub in reader {
        match sub {
            Ok(wasmparser::Name::Function(map)) => for naming in map {
                let n = naming.map_err(|e| DecodeError { message: e.to_string() })?;
                out.push((n.name.to_string(), n.index));
            },
            Ok(_) => {},
            Err(_) => return Ok(out),
        }
    }
    Ok(out)
}

/// Relies on `wasmparser::Parser::parse_all` through the items above: the
/// module's payloads in order, each reduced to a `RawSection`. The result
/// depends on the module's bytes alone, which `decode_ok_of` and
/// `decoded_of` name; each custom section's offset plus length fits the
/// stream's 64-bit address space, as `classify_payload` states.
#[verifier::external_body]
fn decode_raw(bytes: &[u8]) -> (r: Result<Vec<RawSection>, DecodeError>)
    ensures
        r is Ok <==> decode_ok_of(bytes@),
        r matches Ok(v) ==> v@ == decoded_of(bytes@),
        r matches Ok(v) ==> forall|i: int|
            0 <= i < v@.len() ==> ((#[trigger] v@[i]) matches RawSection::Custom {
                name,
                data,
                offset,
            } ==> offset + data@.len() <= u64::MAX),
{
    let payloads = parse_payloads(bytes)?;
    let mut out = Vec::new();
    for p in &payloads {
        out.push(match classify_payload(p) {
            PayloadItem::Imports(sec) => RawSection::Imports(read_import_kinds(sec)?),
            PayloadItem::Code(body) => RawSection::Code(read_body_instrs(&body)),
            PayloadItem::Custom { name, data, offset } => RawSection::Custom { name, data, offset },
            PayloadItem::Other => RawSection::Other,
        });
    }
    Ok(out)
}

/// Whether every custom section named "name" yields its function-name
/// pairs without fatal error; decoding a module fails on the first one
/// that does not.
pub open spec fn named_customs_ok(raw: Seq<RawSection>) -> bool {
    forall|i: int|
        0 <= i < raw.len() ==> ((#[trigger] raw[i]) matches RawSection::Custom {
            name,
            data,
            offset,
        } ==> (name@ == "name"@ ==> pairs_ok_of(data@, offset)))
}

/// How one decoded section corresponds to one raw payload: imports and
/// code carried over unchanged, a custom section named "name" replaced by
/// its function-name pairs, everything else reduced to `Other`.
pub open spec fn section_matches(s: Section, rs: RawSection) -> bool {
    match rs {
        RawSection::Imports(v) => s matches Section::Imports(w) && w@ == v@,
        RawSection::Code(v) => s matches Section::Code(w) && w@ == v@,
        RawSection::Custom { name, data, offset } => if name@ == "name"@ {
            s matches Section::FunctionNames(p) && p@ == pairs_of(data@, offset)
        } else {
            s is Other
        },
        RawSection::Other => s is Other,
    }
}

/// The function imports one raw payload contributes.
pub open spec fn raw_section_func_imports(rs: RawSection) -> nat {
    match rs {
        RawSection::Imports(v) => count_funcs(v@),
        _ => 0,
    }
}

/// The total count of imported functions across the raw payloads.
pub open spec fn raw_func_import_count(raw: Seq<RawSection>) -> nat
    decreases raw.len(),
{
    if raw.len() == 0 {
        0
    } else {
        raw_func_import_count(raw.drop_last()) + raw_section_func_imports(raw.last())
    }
}

/// The code bodies one raw payload contributes.
pub open spec fn raw_section_bodies(rs: RawSection) -> Seq<Seq<Instr>> {
    match rs {
        RawSection::Code(v) => seq![v@],
        _ => Seq::empty(),
    }
}

/// All code bodies of the raw payloads, in encounter order.
pub open spec fn raw_code_bodies(raw: Seq<RawSection>) -> Seq<Seq<Instr>>
    decreases raw.len(),
{
    if raw.len() == 0 {
        Seq::empty()
    } else {
        raw_code_bodies(raw.drop_last()) + raw_section_bodies(raw.last())
    }
}

/// The name pairs one raw payload contributes.
pub open spec fn raw_section_name_pairs(rs: RawSection) -> Seq<(String, u32)> {
    match rs {
        RawSection::Custom { name, data, offset } => if name@ == "name"@ {
            pairs_of(data@, offset)
        } else {
            Seq::empty()
        },
        _ => Seq::empty(),
    }
}

/// All (name, global index) pairs of the raw payloads, in order.
pub open spec fn raw_name_pairs(raw: Seq<RawSection>) -> Seq<(String, u32)>
    decreases raw.len(),
{
    if raw.len() == 0 {
        Seq::empty()
    } else {
        raw_name_pairs(raw.drop_last()) + raw_section_name_pairs(raw.last())
    }
}

/// Sections that correspond payload for payload carry the same import
/// count, the same code bodies and the same name pairs as the raw list.
pub proof fn lemma_matching_sections(v: Seq<Section>, raw: Seq<RawSection>)
    requires
        v.len() == raw.len(),
        forall|i: int| 0 <= i < raw.len() ==> section_matches(#[trigger] v[i], raw[i]),
    ensures
        func_import_count(v) == raw_func_import_count(raw),
        code_bodies(v) == raw_code_bodies(raw),
        all_name_pairs(v) == raw_name_pairs(raw),
    decreases raw.len(),
{
    if raw.len() > 0 {
        assert forall|i: int|
            0 <= i < raw.len() - 1 implies section_matches(
            #[trigger] v.drop_last()[i],
            raw.drop_last()[i],
        ) by {
            assert(v.drop_last()[i] == v[i]);
            assert(raw.drop_last()[i] == raw[i]);
        }
        lemma_matching_sections(v.drop_last(), raw.drop_last());
        assert(section_matches(v[raw.len() - 1], raw[raw.len() - 1]));
        assert(section_func_imports(v.last()) == raw_section_func_imports(raw.last()));
        assert(section_bodies(v.last()) == raw_section_bodies(raw.last()));
        assert(section_name_pairs(v.last()) == raw_section_name_pairs(raw.last()));
    }
}

/// Copies a vector of plain values.
fn copy_vec<T: Copy>(src: &Vec<T>) -> (r: Vec<T>)
    ensures
        r@ == src@,
{
    let mut out: Vec<T> = Vec::new();
    let n = src.len();
    let mut i: usize = 0;
    while i < n
        invariant
            n == src@.len(),
            0 <= i <= n,
            out@ == src@.take(i as int),
        decreases n - i,
    {
        proof {
            lemma_take_succ(src@, i as int);
        }
        out.push(src[i]);
        i = i + 1;
    }
    proof {
        lemma_take_all(src@);
    }
    out
}

/// Decodes a module's bytes into the analyzer's section model: the import
/// entries' kinds, every code body's instruction sequence in encounter
/// order, and the (name, index) pairs of each custom section named "name".
///
/// Succeeds exactly when the module's bytes decode and every "name" custom
/// section yields its pairs; the result then corresponds payload for
/// payload to what the decoder produced.
pub fn decode_sections(bytes: &[u8]) -> (r: Result<Vec<Section>, DecodeError>)
    ensures
        r is Ok <==> decode_ok_of(bytes@) && named_customs_ok(decoded_of(bytes@)),
        r matches Ok(v) ==> {
            &&& v@.len() == decoded_of(bytes@).len()
            &&& forall|i: int|
                0 <= i < v@.len() ==> section_matches(#[trigger] v@[i], decoded_of(bytes@)[i])
        },
{
    let raw = match decode_raw(bytes) {
        Ok(rs) => rs,
        Err(e) => {
            return Err(e);
        },
    };
    let name_label: String = "name".to_owned();
    let mut sections: Vec<Section> = Vec::new();
    let n = raw.len();
    let mut i: usize = 0;
    while i < n
        invariant
            n == raw@.len(),
            raw@ == decoded_of(bytes@),
            decode_ok_of(bytes@),
            name_label@ == "name"@,
            forall|k: int|
                0 <= k < n ==> ((#[trigger] raw@[k]) matches RawSection::Custom {
                    name,
                    data,
                    offset,
                } ==> offset + data@.len() <= u64::MAX),
            0 <= i <= n,
            sections@.len() == i,
            forall|k: int| 0 <= k < i ==> section_matches(#[trigger] sections@[k], raw@[k]),
            forall|k: int|
                0 <= k < i ==> ((#[trigger] raw@[k]) matches RawSection::Custom {
                    name,
                    data,
                    offset,
                } ==> (name@ == "name"@ ==> pairs_ok_of(data@, offset))),
        decreases n - i,
    {
        match &raw[i] {
            RawSection::Imports(v) => {
                sections.push(Section::Imports(copy_vec(v)));
            },
            RawSection::Code(v) => {
                sections.push(Section::Code(copy_vec(v)));
            },
            RawSection::Custom { name, data, offset } => {
                if *name == name_label {
                    match read_name_pairs(data.as_slice(), *offset) {
                        Ok(pairs) => sections.push(Section::FunctionNames(pairs)),
                        Err(e) => {
                            proof {
                                assert(!named_customs_ok(decoded_of(bytes@)));
                            }
                            return Err(e);
                        },
                    }
                } else {
                    sections.push(Section::Other);
                }
            },
            RawSection::Other => {
                sections.push(Section::Other);
            },
        }
        i = i + 1;
    }
    Ok(sections)
}

/// Decodes a module and summarizes it against stack-pointer global `sp`:
/// import base, per-body frame sizes in encounter order, and name table.
///
/// Succeeds exactly when the bytes decode, every "name" custom section
/// yields its pairs, and the module's function imports can be counted in
/// the index type; the summary is then pinned to the decoded payloads.
pub fn analyze_module(bytes: &[u8], sp: u32) -> (r: Result<ModuleSummary, DecodeError>)
    ensures
        r is Ok <==> decode_ok_of(bytes@) && named_customs_ok(decoded_of(bytes@))
            && raw_func_import_count(decoded_of(bytes@)) <= usize::MAX,
        r matches Ok(s) ==> s.index_space.base == raw_func_import_count(decoded_of(bytes@)),
        r matches Ok(s) ==> s.frame_sizes@.len() == raw_code_bodies(decoded_of(bytes@)).len(),
        r matches Ok(s) ==> forall|i: int|
            0 <= i < raw_code_bodies(decoded_of(bytes@)).len() ==> s.frame_sizes@[i]
                == spec_estimate(#[trigger] raw_code_bodies(decoded_of(bytes@))[i], sp),
        r matches Ok(s) ==> forall|n: Seq<char>| #[trigger]
            s.names.spec_lookup(n) == spec_pairs_lookup(raw_name_pairs(decoded_of(bytes@)), n),
{
    let sections = match decode_sections(bytes) {
        Ok(s) => s,
        Err(e) => {
            return Err(e);
        },
    };
    proof {
        lemma_matching_sections(sections@, decoded_of(bytes@));
    }
    match count_func_imports(&sections) {
        Some(_) => Ok(summarize_sections(&sections, sp)),
        None => Err(
            DecodeError {
                message: "module declares more function imports than this machine can index".to_owned(),
            },
        ),
    }
}

} // verus!
