//! The output accumulator and the types that can be written to it.

use crate::leb128::{
    lemma_signed_group, lemma_unsigned_group, lemma_unsigned_leb128_round_trip,
    read_unsigned_leb128, signed_leb128, unsigned_leb128,
};
use vstd::prelude::*;
use vstd::utf8::encode_utf8;

verus! {

/// A growing buffer of output bytes.
pub struct WasmAcc {
    bytes: Vec<u8>,
}

impl View for WasmAcc {
    type V = Seq<u8>;

    /// The bytes written so far, in order.
    closed spec fn view(&self) -> Seq<u8> {
        self.bytes@
    }
}

impl WasmAcc {
    /// An accumulator that holds no bytes.
    pub fn new() -> (acc: WasmAcc)
        ensures
            acc@ == Seq::<u8>::empty(),
    {
        WasmAcc { bytes: Vec::new() }
    }

    /// Appends the encoding of `v`.
    pub fn write<V>(&mut self, v: V) where V: WriteToWasm
        ensures
            final(self)@ == old(self)@ + v.wasm_bytes(),
    {
        v.write_to_wasm(self);
    }

    /// The bytes written, as a vector.
    pub fn to_vec(self) -> (bytes: Vec<u8>)
        ensures
            bytes@ == self@,
    {
        self.bytes
    }
}

/// A value with a binary encoding.
pub trait WriteToWasm {
    /// The bytes that encode `self`.
    spec fn wasm_bytes(&self) -> Seq<u8>;

    /// Appends the encoding of `self` to `wasm_acc`; what was there stays.
    fn write_to_wasm(&self, wasm_acc: &mut WasmAcc)
        ensures
            final(wasm_acc)@ == old(wasm_acc)@ + self.wasm_bytes(),
    ;

    /// The encoding of `self` as a fresh vector.
    fn compile(&self) -> (bytes: Vec<u8>)
        ensures
            bytes@ == self.wasm_bytes(),
    {
        let mut wasm_acc = WasmAcc::new();
        self.write_to_wasm(&mut wasm_acc);
        wasm_acc.to_vec()
    }
}

impl<V> WriteToWasm for &V where V: WriteToWasm + ?Sized {
    open spec fn wasm_bytes(&self) -> Seq<u8> {
        (**self).wasm_bytes()
    }

    fn write_to_wasm(&self, wasm_acc: &mut WasmAcc) {
        V::write_to_wasm(self, wasm_acc);
    }
}

impl WriteToWasm for u8 {
    open spec fn wasm_bytes(&self) -> Seq<u8> {
        seq![*self]
    }

    fn write_to_wasm(&self, wasm_acc: &mut WasmAcc) {
        wasm_acc.bytes.push(*self);
    }
}

impl WriteToWasm for u32 {
    open spec fn wasm_bytes(&self) -> Seq<u8> {
        unsigned_leb128(*self as nat)
    }

    fn write_to_wasm(&self, wasm_acc: &mut WasmAcc) {
        wasm_acc.write(*self as u64);
    }
}

impl WriteToWasm for u64 {
    open spec fn wasm_bytes(&self) -> Seq<u8> {
        unsigned_leb128(*self as nat)
    }

    fn write_to_wasm(&self, wasm_acc: &mut WasmAcc) {
        let mut rest: u64 = *self;
        while rest > 127
            invariant
                wasm_acc@ + unsigned_leb128(rest as nat) == old(wasm_acc)@ + unsigned_leb128(
                    *self as nat,
                ),
            decreases rest,
        {
            let byte: u8 = 128 | (127 & #[verifier::truncate] (rest as u8));
            proof {
                lemma_unsigned_group(rest);
            }
            wasm_acc.write(byte);
            rest >>= 7;
        }
        proof {
            lemma_unsigned_group(rest);
        }
        wasm_acc.write(#[verifier::truncate] (rest as u8));
    }
}

impl WriteToWasm for i32 {
    open spec fn wasm_bytes(&self) -> Seq<u8> {
        signed_leb128(*self as int)
    }

    fn write_to_wasm(&self, wasm_acc: &mut WasmAcc) {
        wasm_acc.write(*self as i64);
    }
}

impl WriteToWasm for i64 {
    open spec fn wasm_bytes(&self) -> Seq<u8> {
        signed_leb128(*self as int)
    }

    fn write_to_wasm(&self, wasm_acc: &mut WasmAcc) {
        let mut rest: i64 = *self;
        while rest > 63 || rest < -64
            invariant
                wasm_acc@ + signed_leb128(rest as int) == old(wasm_acc)@ + signed_leb128(
                    *self as int,
                ),
            decreases (if rest < 0 { -rest } else { rest as int }),
        {
            let byte: u8 = 128 | (127 & #[verifier::truncate] (rest as u8));
            proof {
                lemma_signed_group(rest);
            }
            wasm_acc.write(byte);
            rest >>= 7;
        }
        proof {
            lemma_signed_group(rest);
        }
        wasm_acc.write(#[verifier::truncate] (rest as u8) & 127);
    }
}

/// The encodings of the items of `items`, one after the other.
pub open spec fn concat_bytes<V: WriteToWasm>(items: Seq<V>) -> Seq<u8>
    decreases items.len(),
{
    if items.len() == 0 {
        Seq::empty()
    } else {
        concat_bytes(items.drop_last()) + items.last().wasm_bytes()
    }
}

/// A run of bytes, each written as itself, is that run.
pub proof fn lemma_concat_bytes_of_u8(bytes: Seq<u8>)
    ensures
        concat_bytes(bytes) == bytes,
    decreases bytes.len(),
{
    if bytes.len() > 0 {
        lemma_concat_bytes_of_u8(bytes.drop_last());
        assert(bytes.drop_last() + seq![bytes.last()] =~= bytes);
    }
}

impl WriteToWasm for String {
    /// The UTF-8 form of the text behind its length in bytes.
    open spec fn wasm_bytes(&self) -> Seq<u8> {
        length_prefixed(encode_utf8(self@))
    }

    fn write_to_wasm(&self, wasm_acc: &mut WasmAcc) {
        let bytes = self.as_str().as_bytes();
        proof {
            lemma_concat_bytes_of_u8(bytes@);
        }
        wasm_acc.write(bytes)
    }
}

impl<V> WriteToWasm for [V] where V: WriteToWasm {
    /// The number of items, then each item in order.
    open spec fn wasm_bytes(&self) -> Seq<u8> {
        unsigned_leb128(self@.len()) + concat_bytes(self@)
    }

    fn write_to_wasm(&self, wasm_acc: &mut WasmAcc) {
        wasm_acc.write(self.len() as u64);
        for i in 0..self.len()
            invariant
                wasm_acc@ == old(wasm_acc)@ + unsigned_leb128(self@.len()) + concat_bytes(
                    self@.take(i as int),
                ),
        {
            assert(self@.take(i + 1).drop_last() =~= self@.take(i as int));
            wasm_acc.write(&self[i]);
        }
        assert(self@.take(self@.len() as int) =~= self@);
    }
}

impl<V> WriteToWasm for Vec<V> where V: WriteToWasm {
    /// The number of items, then each item in order.
    open spec fn wasm_bytes(&self) -> Seq<u8> {
        unsigned_leb128(self@.len()) + concat_bytes(self@)
    }

    fn write_to_wasm(&self, wasm_acc: &mut WasmAcc) {
        <[V]>::write_to_wasm(self, wasm_acc);
    }
}

/// `payload` behind its own length in bytes.
pub open spec fn length_prefixed(payload: Seq<u8>) -> Seq<u8> {
    unsigned_leb128(payload.len()) + payload
}

/// A section: its identifier, then `payload` behind its length.
pub open spec fn section(id: u8, payload: Seq<u8>) -> Seq<u8> {
    seq![id] + length_prefixed(payload)
}

/// The magic number and the version that open every module.
pub open spec fn module_header() -> Seq<u8> {
    seq![0x00u8, 0x61u8, 0x73u8, 0x6Du8, 0x01u8, 0x00u8, 0x00u8, 0x00u8]
}

/// A numeric type, by the width of its integers.
pub enum NumType {
    I32,
    I64,
}

impl WriteToWasm for NumType {
    open spec fn wasm_bytes(&self) -> Seq<u8> {
        match self {
            NumType::I32 => seq![0x7Fu8],
            NumType::I64 => seq![0x7Eu8],
        }
    }

    fn write_to_wasm(&self, wasm_acc: &mut WasmAcc) {
        match self {
            NumType::I32 => wasm_acc.write(0x7Fu8),
            NumType::I64 => wasm_acc.write(0x7Eu8),
        }
    }
}

/// The type of a value: of a parameter, a result or a local variable.
pub enum ValType {
    NumType(NumType),
}

impl WriteToWasm for ValType {
    open spec fn wasm_bytes(&self) -> Seq<u8> {
        match self {
            ValType::NumType(v) => v.wasm_bytes(),
        }
    }

    fn write_to_wasm(&self, wasm_acc: &mut WasmAcc) {
        match self {
            ValType::NumType(v) => wasm_acc.write(v),
        }
    }
}

/// A list of value types, in order: the parameters or the results of a function.
pub struct ResultType {
    pub inner: Vec<ValType>,
}

impl WriteToWasm for ResultType {
    open spec fn wasm_bytes(&self) -> Seq<u8> {
        self.inner.wasm_bytes()
    }

    fn write_to_wasm(&self, wasm_acc: &mut WasmAcc) {
        wasm_acc.write(&self.inner);
    }
}

/// The signature of a function.
pub struct FunctionType {
    pub input: ResultType,
    pub output: ResultType,
}

impl WriteToWasm for FunctionType {
    /// The tag `0x60`, the parameter types, the result types.
    open spec fn wasm_bytes(&self) -> Seq<u8> {
        seq![0x60u8] + self.input.wasm_bytes() + self.output.wasm_bytes()
    }

    fn write_to_wasm(&self, wasm_acc: &mut WasmAcc) {
        wasm_acc.write(0x60u8);
        wasm_acc.write(&self.input);
        wasm_acc.write(&self.output);
    }
}

/// The function types of a module; a type is named by its place in the list.
pub struct TypeSection {
    pub contents: Vec<FunctionType>,
}

impl WriteToWasm for TypeSection {
    open spec fn wasm_bytes(&self) -> Seq<u8> {
        section(1, self.contents.wasm_bytes())
    }

    fn write_to_wasm(&self, wasm_acc: &mut WasmAcc) {
        wasm_acc.write(1u8);
        let mut section_bytes = self.contents.compile();
        wasm_acc.write(section_bytes.len() as u64);
        wasm_acc.bytes.append(&mut section_bytes);
    }
}

/// For each function of the module, in order, the index of its type.
pub struct FunctionSection {
    pub function_signatures: Vec<u32>,
}

impl WriteToWasm for FunctionSection {
    open spec fn wasm_bytes(&self) -> Seq<u8> {
        section(3, self.function_signatures.wasm_bytes())
    }

    fn write_to_wasm(&self, wasm_acc: &mut WasmAcc) {
        wasm_acc.write(0x03u8);
        let mut signatures_bytes = self.function_signatures.compile();
        wasm_acc.write(signatures_bytes.len() as u64);
        wasm_acc.bytes.append(&mut signatures_bytes);
    }
}

/// What an export refers to: its kind and its index.
pub enum ExportDescription {
    Func(u32),
}

impl WriteToWasm for ExportDescription {
    /// The kind (`0` for a function), then the index.
    open spec fn wasm_bytes(&self) -> Seq<u8> {
        match self {
            ExportDescription::Func(idx) => seq![0u8] + unsigned_leb128(*idx as nat),
        }
    }

    fn write_to_wasm(&self, wasm_acc: &mut WasmAcc) {
        match self {
            ExportDescription::Func(idx) => {
                wasm_acc.write(0u8);
                wasm_acc.write(idx);
            },
        }
    }
}

/// A name under which the module offers one of its items.
pub struct Export {
    pub name: String,
    pub desc: ExportDescription,
}

impl WriteToWasm for Export {
    open spec fn wasm_bytes(&self) -> Seq<u8> {
        self.name.wasm_bytes() + self.desc.wasm_bytes()
    }

    fn write_to_wasm(&self, wasm_acc: &mut WasmAcc) {
        wasm_acc.write(&self.name);
        wasm_acc.write(&self.desc);
    }
}

/// The exports of a module. Names are not checked to be distinct.
pub struct ExportSection {
    pub exports: Vec<Export>,
}

impl WriteToWasm for ExportSection {
    open spec fn wasm_bytes(&self) -> Seq<u8> {
        section(7, self.exports.wasm_bytes())
    }

    fn write_to_wasm(&self, wasm_acc: &mut WasmAcc) {
        wasm_acc.write(7u8);
        let mut exports_bytes = self.exports.compile();
        wasm_acc.write(exports_bytes.len() as u64);
        wasm_acc.bytes.append(&mut exports_bytes);
    }
}

/// One operation on 64-bit integers.
pub enum Instruction {
    LocalGet(u32),
    I64Add,
    I64Sub,
    I64Mul,
    I64Div,
    I64Const(i64),
}

impl WriteToWasm for Instruction {
    /// The opcode, then the operand of those that have one.
    open spec fn wasm_bytes(&self) -> Seq<u8> {
        match self {
            Instruction::LocalGet(idx) => seq![0x20u8] + unsigned_leb128(*idx as nat),
            Instruction::I64Add => seq![0x7Cu8],
            Instruction::I64Sub => seq![0x7Du8],
            Instruction::I64Mul => seq![0x7Eu8],
            Instruction::I64Div => seq![0x7Fu8],
            Instruction::I64Const(v) => seq![0x42u8] + signed_leb128(*v as int),
        }
    }

    fn write_to_wasm(&self, wasm_acc: &mut WasmAcc) {
        match self {
            Instruction::LocalGet(idx) => {
                wasm_acc.write(0x20u8);
                wasm_acc.write(idx);
            },
            Instruction::I64Add => wasm_acc.write(0x7Cu8),
            Instruction::I64Const(v) => {
                wasm_acc.write(0x42u8);
                wasm_acc.write(v);
            },
            Instruction::I64Sub => wasm_acc.write(0x7Du8),
            Instruction::I64Mul => wasm_acc.write(0x7Eu8),
            Instruction::I64Div => wasm_acc.write(0x7Fu8),
        }
    }
}

/// A straight-line run of instructions.
pub struct Expression {
    pub instr: Vec<Instruction>,
}

impl WriteToWasm for Expression {
    /// The instructions in order, then the end marker `0x0B`.
    open spec fn wasm_bytes(&self) -> Seq<u8> {
        concat_bytes(self.instr@) + seq![0x0Bu8]
    }

    fn write_to_wasm(&self, wasm_acc: &mut WasmAcc) {
        for i in 0..self.instr.len()
            invariant
                wasm_acc@ == old(wasm_acc)@ + concat_bytes(self.instr@.take(i as int)),
        {
            assert(self.instr@.take(i + 1).drop_last() =~= self.instr@.take(i as int));
            wasm_acc.write(&self.instr[i]);
        }
        assert(self.instr@.take(self.instr@.len() as int) =~= self.instr@);
        wasm_acc.write(0x0Bu8);
    }
}

/// A run of `count` local variables of one type.
pub struct Locals {
    pub count: u32,
    pub tpe: ValType,
}

impl WriteToWasm for Locals {
    open spec fn wasm_bytes(&self) -> Seq<u8> {
        unsigned_leb128(self.count as nat) + self.tpe.wasm_bytes()
    }

    fn write_to_wasm(&self, wasm_acc: &mut WasmAcc) {
        wasm_acc.write(self.count);
        wasm_acc.write(&self.tpe);
    }
}

/// The body of a function: its local variables and its code.
pub struct Func {
    pub locals: Vec<Locals>,
    pub expr: Expression,
}

impl WriteToWasm for Func {
    open spec fn wasm_bytes(&self) -> Seq<u8> {
        self.locals.wasm_bytes() + self.expr.wasm_bytes()
    }

    fn write_to_wasm(&self, wasm_acc: &mut WasmAcc) {
        wasm_acc.write(&self.locals);
        wasm_acc.write(&self.expr);
    }
}

/// One entry of the code section: a function body behind its size.
pub struct Code {
    pub code: Func,
}

impl WriteToWasm for Code {
    /// The function body behind its length, so that a reader can skip it.
    open spec fn wasm_bytes(&self) -> Seq<u8> {
        length_prefixed(self.code.wasm_bytes())
    }

    fn write_to_wasm(&self, wasm_acc: &mut WasmAcc) {
        let mut func_bytes = self.code.compile();
        wasm_acc.write(func_bytes.len() as u64);
        wasm_acc.bytes.append(&mut func_bytes);
    }
}

/// The bodies of the functions of a module, in the order of the function section.
pub struct CodeSection {
    pub code: Vec<Code>,
}

impl WriteToWasm for CodeSection {
    open spec fn wasm_bytes(&self) -> Seq<u8> {
        section(10, self.code.wasm_bytes())
    }

    fn write_to_wasm(&self, wasm_acc: &mut WasmAcc) {
        wasm_acc.write(10u8);
        let mut code_bytes = self.code.compile();
        wasm_acc.write(code_bytes.len() as u64);
        wasm_acc.bytes.append(&mut code_bytes);
    }
}

/// A module: its four sections. Nothing checks that they fit together; an
/// index that names no type is encoded as it stands.
pub struct Module {
    pub typesec: TypeSection,
    pub funcsec: FunctionSection,
    pub exportsec: ExportSection,
    pub codesec: CodeSection,
}

impl WriteToWasm for Module {
    /// The header, then the type, function, export and code sections.
    open spec fn wasm_bytes(&self) -> Seq<u8> {
        module_header() + self.typesec.wasm_bytes() + self.funcsec.wasm_bytes()
            + self.exportsec.wasm_bytes() + self.codesec.wasm_bytes()
    }

    fn write_to_wasm(&self, wasm_acc: &mut WasmAcc) {
        let magic: [u8; 4] = [0x00, 0x61, 0x73, 0x6D];
        let version: [u8; 4] = [0x01, 0x00, 0x00, 0x00];
        wasm_acc.bytes.extend_from_slice(&magic);
        wasm_acc.bytes.extend_from_slice(&version);
        wasm_acc.write(&self.typesec);
        wasm_acc.write(&self.funcsec);
        wasm_acc.write(&self.exportsec);
        wasm_acc.write(&self.codesec);
    }
}

/// A reader can step over a length-prefixed run without looking into it:
/// the length it reads is that of `payload`, and right behind the length
/// stands `payload`, then whatever follows.
pub proof fn lemma_length_prefixed_framing(payload: Seq<u8>, tail: Seq<u8>)
    ensures
        read_unsigned_leb128(length_prefixed(payload) + tail) == Some(
            (payload.len(), unsigned_leb128(payload.len()).len()),
        ),
        (length_prefixed(payload) + tail).skip(unsigned_leb128(payload.len()).len() as int)
            == payload + tail,
        length_prefixed(payload).len() == unsigned_leb128(payload.len()).len() + payload.len(),
{
    let prefix = unsigned_leb128(payload.len());
    lemma_unsigned_leb128_round_trip(payload.len(), payload + tail);
    assert(length_prefixed(payload) + tail =~= prefix + (payload + tail));
    assert((prefix + (payload + tail)).skip(prefix.len() as int) =~= payload + tail);
}

/// A section starts with its identifier; the length that follows is that of
/// `payload`, and behind the length stands `payload`, then whatever follows the
/// section.
pub proof fn lemma_section_framing(id: u8, payload: Seq<u8>, tail: Seq<u8>)
    ensures
        (section(id, payload) + tail)[0] == id,
        read_unsigned_leb128((section(id, payload) + tail).skip(1)) == Some(
            (payload.len(), unsigned_leb128(payload.len()).len()),
        ),
        (section(id, payload) + tail).skip(1 + unsigned_leb128(payload.len()).len() as int)
            == payload + tail,
        section(id, payload).len() == 1 + unsigned_leb128(payload.len()).len() + payload.len(),
{
    let bytes = section(id, payload) + tail;
    let prefix_len = unsigned_leb128(payload.len()).len() as int;
    lemma_length_prefixed_framing(payload, tail);
    assert(bytes.skip(1) =~= length_prefixed(payload) + tail);
    assert(bytes.skip(1 + prefix_len) =~= bytes.skip(1).skip(prefix_len));
}

/// The length that a type section states is that of the count of its function
/// types together with their encodings, one after the other.
pub proof fn lemma_type_section_length(types: TypeSection)
    ensures
        types.wasm_bytes()[0] == 1,
        read_unsigned_leb128(types.wasm_bytes().skip(1)) matches Some((stated, _))
            && stated == unsigned_leb128(types.contents@.len()).len() + concat_bytes(
            types.contents@,
        ).len(),
{
    let payload = types.contents.wasm_bytes();
    lemma_section_framing(1, payload, Seq::empty());
    assert(section(1, payload) + Seq::<u8>::empty() =~= section(1, payload));
}

/// Every expression ends with the end marker, and one without instructions is
/// the end marker alone.
pub proof fn lemma_expression_end_marker(expr: Expression)
    ensures
        expr.wasm_bytes().last() == 0x0Bu8,
        expr.instr@.len() == 0 ==> expr.wasm_bytes() == seq![0x0Bu8],
{
    if expr.instr@.len() == 0 {
        assert(expr.wasm_bytes() =~= seq![0x0Bu8]);
    }
}

/// Compiling is a function of the value: whatever two runs of `compile` on one
/// value return, they return the same bytes.
pub proof fn lemma_compile_deterministic<V: WriteToWasm + ?Sized>(
    value: &V,
    first: Vec<u8>,
    second: Vec<u8>,
)
    requires
        call_ensures(V::compile, (value,), first),
        call_ensures(V::compile, (value,), second),
    ensures
        first@ == second@,
{
}

} // verus!
