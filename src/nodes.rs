use vstd::prelude::*;

use crate::field::Felt;
use crate::text::{
    decimal, display_push_vec, hex_bytes, push_char, push_decimal, push_hex, push_list_text,
    push_str, values_of, DecimalValue,
};

verus! {

/// Identifier of a procedure: 24 bytes.
#[derive(Clone, Copy, Debug, PartialEq, Eq)]
pub struct ProcedureId(pub [u8; 24]);

impl ProcedureId {
    /// `0x` followed by two lower-case hexadecimal digits per byte.
    pub open spec fn spec_text(&self) -> Seq<char> {
        "0x"@ + hex_bytes(self.0@)
    }

    /// Appends the text of this identifier.
    pub fn write_text(&self, s: &mut String)
        ensures
            final(s)@ == old(s)@ + self.spec_text(),
    {
        let ghost start = s@;
        push_str(s, "0x");
        push_hex(s, self.0.as_slice());
        assert(s@ =~= start + self.spec_text());
    }
}

impl From<[u8; 24]> for ProcedureId {
    fn from(value: [u8; 24]) -> (r: ProcedureId) {
        ProcedureId(value)
    }
}

impl vstd::std_specs::convert::FromSpecImpl<[u8; 24]> for ProcedureId {
    open spec fn obeys_from_spec() -> bool {
        true
    }

    open spec fn from_spec(v: [u8; 24]) -> ProcedureId {
        ProcedureId(v)
    }
}

// NODES
// ================================================================================================

/// A node in a AST that can represent a block, instruction or a control flow.
#[derive(PartialEq, Eq, Debug)]
pub enum Node {
    Instruction(Instruction),
    IfElse(Vec<Node>, Vec<Node>),
    Repeat(u16, Vec<Node>),
    While(Vec<Node>),
}

impl Clone for Node {
    fn clone(&self) -> (r: Node) {
        clone_node(self)
    }
}

fn clone_node(node: &Node) -> (r: Node)
    decreases node, 0nat,
{
    match node {
        Node::Instruction(instruction) => Node::Instruction(instruction.clone()),
        Node::IfElse(then_nodes, else_nodes) => Node::IfElse(
            clone_nodes(then_nodes),
            clone_nodes(else_nodes),
        ),
        Node::Repeat(count, body) => Node::Repeat(*count, clone_nodes(body)),
        Node::While(body) => Node::While(clone_nodes(body)),
    }
}

fn clone_nodes(nodes: &Vec<Node>) -> (r: Vec<Node>)
    ensures
        r@.len() == nodes@.len(),
    decreases nodes, 1nat,
{
    broadcast use vstd::std_specs::vec::axiom_vec_index_decreases;

    let mut r: Vec<Node> = Vec::new();
    let mut i: usize = 0;
    while i < nodes.len()
        invariant
            i <= nodes@.len(),
            r@.len() == i,
        decreases nodes@.len() - i,
    {
        assert(decreases_to!(nodes => nodes[i as int]));
        r.push(clone_node(&nodes[i]));
        i += 1;
    }
    r
}

/// This holds the list of instructions supported in a Miden program.
/// This instruction list is used to hold reference to the instruction, and future be
/// used for MAST generation.
#[derive(Clone, PartialEq, Eq, Debug)]
pub enum Instruction {
    Assert,
    AssertEq,
    Assertz,
    Add,
    AddImm(Felt),
    Sub,
    SubImm(Felt),
    Mul,
    MulImm(Felt),
    Div,
    DivImm(Felt),
    Neg,
    Inv,
    Incr,
    Pow2,
    Exp,
    ExpImm(Felt),
    ExpBitLength(u8),
    Not,
    And,
    Or,
    Xor,
    Eq,
    EqImm(Felt),
    Neq,
    NeqImm(Felt),
    Eqw,
    Lt,
    Lte,
    Gt,
    Gte,

    // ----- ext2 operations ----------------------------------------------------------------------
    Ext2Add,
    Ext2Sub,
    Ext2Mul,
    Ext2Div,
    Ext2Neg,
    Ext2Inv,

    // ----- u32 manipulation ---------------------------------------------------------------------
    U32Test,
    U32TestW,
    U32Assert,
    U32Assert2,
    U32AssertW,
    U32Split,
    U32Cast,
    U32CheckedAdd,
    U32CheckedAddImm(u32),
    U32WrappingAdd,
    U32WrappingAddImm(u32),
    U32OverflowingAdd,
    U32OverflowingAddImm(u32),
    U32OverflowingAdd3,
    U32WrappingAdd3,
    U32CheckedSub,
    U32CheckedSubImm(u32),
    U32WrappingSub,
    U32WrappingSubImm(u32),
    U32OverflowingSub,
    U32OverflowingSubImm(u32),
    U32CheckedMul,
    U32CheckedMulImm(u32),
    U32WrappingMul,
    U32WrappingMulImm(u32),
    U32OverflowingMul,
    U32OverflowingMulImm(u32),
    U32OverflowingMadd,
    U32WrappingMadd,
    U32CheckedDiv,
    U32CheckedDivImm(u32),
    U32UncheckedDiv,
    U32UncheckedDivImm(u32),
    U32CheckedMod,
    U32CheckedModImm(u32),
    U32UncheckedMod,
    U32UncheckedModImm(u32),
    U32CheckedDivMod,
    U32CheckedDivModImm(u32),
    U32UncheckedDivMod,
    U32UncheckedDivModImm(u32),
    U32CheckedAnd,
    U32CheckedOr,
    U32CheckedXor,
    U32CheckedNot,
    U32CheckedShr,
    U32CheckedShrImm(u8),
    U32UncheckedShr,
    U32UncheckedShrImm(u8),
    U32CheckedShl,
    U32CheckedShlImm(u8),
    U32UncheckedShl,
    U32UncheckedShlImm(u8),
    U32CheckedRotr,
    U32CheckedRotrImm(u8),
    U32UncheckedRotr,
    U32UncheckedRotrImm(u8),
    U32CheckedRotl,
    U32CheckedRotlImm(u8),
    U32UncheckedRotl,
    U32UncheckedRotlImm(u8),
    U32CheckedPopcnt,
    U32UncheckedPopcnt,
    U32CheckedEq,
    U32CheckedEqImm(u32),
    U32CheckedNeq,
    U32CheckedNeqImm(u32),
    U32CheckedLt,
    U32UncheckedLt,
    U32CheckedLte,
    U32UncheckedLte,
    U32CheckedGt,
    U32UncheckedGt,
    U32CheckedGte,
    U32UncheckedGte,
    U32CheckedMin,
    U32UncheckedMin,
    U32CheckedMax,
    U32UncheckedMax,

    // ----- stack manipulation -------------------------------------------------------------------
    Drop,
    DropW,
    PadW,
    Dup0,
    Dup1,
    Dup2,
    Dup3,
    Dup4,
    Dup5,
    Dup6,
    Dup7,
    Dup8,
    Dup9,
    Dup10,
    Dup11,
    Dup12,
    Dup13,
    Dup14,
    Dup15,
    DupW0,
    DupW1,
    DupW2,
    DupW3,
    Swap1,
    Swap2,
    Swap3,
    Swap4,
    Swap5,
    Swap6,
    Swap7,
    Swap8,
    Swap9,
    Swap10,
    Swap11,
    Swap12,
    Swap13,
    Swap14,
    Swap15,
    SwapW1,
    SwapW2,
    SwapW3,
    SwapDw,
    MovUp2,
    MovUp3,
    MovUp4,
    MovUp5,
    MovUp6,
    MovUp7,
    MovUp8,
    MovUp9,
    MovUp10,
    MovUp11,
    MovUp12,
    MovUp13,
    MovUp14,
    MovUp15,
    MovUpW2,
    MovUpW3,
    MovDn2,
    MovDn3,
    MovDn4,
    MovDn5,
    MovDn6,
    MovDn7,
    MovDn8,
    MovDn9,
    MovDn10,
    MovDn11,
    MovDn12,
    MovDn13,
    MovDn14,
    MovDn15,
    MovDnW2,
    MovDnW3,
    CSwap,
    CSwapW,
    CDrop,
    CDropW,

    // ----- input / output operations ------------------------------------------------------------
    PushU8(u8),
    PushU16(u16),
    PushU32(u32),
    PushFelt(Felt),
    PushWord([Felt; 4]),
    PushU8List(Vec<u8>),
    PushU16List(Vec<u16>),
    PushU32List(Vec<u32>),
    PushFeltList(Vec<Felt>),
    Locaddr(u16),
    Sdepth,
    Caller,

    MemLoad,
    MemLoadImm(u32),
    MemLoadW,
    MemLoadWImm(u32),
    LocLoad(u16),
    LocLoadW(u16),

    MemStore,
    MemStoreImm(u32),
    LocStore(u16),
    MemStoreW,
    MemStoreWImm(u32),
    LocStoreW(u16),

    MemStream,
    AdvPipe,

    AdvPush(u8),
    AdvLoadW,

    AdvU64Div,
    AdvKeyval,
    AdvMem(u32, u32),
    AdvExt2Inv,
    AdvExt2INTT,

    // ----- cryptographic operations -------------------------------------------------------------
    RpHash,
    RpPerm,
    MTreeGet,
    MTreeSet,
    MTreeCwm,

    // ----- exec / call --------------------------------------------------------------------------
    ExecLocal(u16),
    ExecImported(ProcedureId),
    CallLocal(u16),
    CallImported(ProcedureId),
    SysCall(ProcedureId),
}

/// `prefix` followed by the decimal notation of `value`.
fn text_with_value(prefix: &str, value: u64) -> (r: String)
    ensures
        r@ == prefix@ + decimal(value as nat),
{
    let mut s = prefix.to_owned();
    push_decimal(&mut s, value);
    s
}

/// `prefix` followed by the text of a procedure identifier.
fn text_with_procedure(prefix: &str, id: &ProcedureId) -> (r: String)
    ensures
        r@ == prefix@ + id.spec_text(),
{
    let mut s = prefix.to_owned();
    id.write_text(&mut s);
    s
}

/// `push` followed by `.v` for each of `values`.
fn push_list<T: DecimalValue>(values: &[T]) -> (r: String)
    ensures
        r@ == push_list_text(values_of(values@)),
{
    let mut s = String::new();
    display_push_vec(&mut s, values);
    assert(s@ =~= push_list_text(values_of(values@)));
    s
}

impl Instruction {
    /// Assembly text of the instruction.
    pub open spec fn spec_text(&self) -> Seq<char> {
        match self {
            Instruction::Assert => "assert"@,
            Instruction::AssertEq => "assert_eq"@,
            Instruction::Assertz => "assertz"@,
            Instruction::Add => "add"@,
            Instruction::AddImm(value) => "add."@ + decimal(value@ as nat),
            Instruction::Sub => "sub"@,
            Instruction::SubImm(value) => "sub."@ + decimal(value@ as nat),
            Instruction::Mul => "mul"@,
            Instruction::MulImm(value) => "mul."@ + decimal(value@ as nat),
            Instruction::Div => "div"@,
            Instruction::DivImm(value) => "div."@ + decimal(value@ as nat),
            Instruction::Neg => "neg"@,
            Instruction::Inv => "inv"@,
            Instruction::Incr => "add.1"@,
            Instruction::Pow2 => "pow2"@,
            Instruction::Exp => "exp"@,
            Instruction::ExpImm(value) => "exp."@ + decimal(value@ as nat),
            Instruction::ExpBitLength(value) => "exp.u"@ + decimal(*value as nat),
            Instruction::Not => "not"@,
            Instruction::And => "and"@,
            Instruction::Or => "or"@,
            Instruction::Xor => "xor"@,
            Instruction::Eq => "eq"@,
            Instruction::EqImm(value) => "eq."@ + decimal(value@ as nat),
            Instruction::Neq => "neq"@,
            Instruction::NeqImm(value) => "neq."@ + decimal(value@ as nat),
            Instruction::Eqw => "eqw"@,
            Instruction::Lt => "lt"@,
            Instruction::Lte => "lte"@,
            Instruction::Gt => "gt"@,
            Instruction::Gte => "gte"@,
            // ----- ext2 operations --------------------------------------------------------------
            Instruction::Ext2Add => "ext2add"@,
            Instruction::Ext2Sub => "ext2sub"@,
            Instruction::Ext2Mul => "ext2mul"@,
            Instruction::Ext2Div => "ext2div"@,
            Instruction::Ext2Neg => "ext2neg"@,
            Instruction::Ext2Inv => "ext2inv"@,
            // ----- u32 manipulation ---------------------------------------------------------------
            Instruction::U32Test => "u32test"@,
            Instruction::U32TestW => "u32testw"@,
            Instruction::U32Assert => "u32assert.1"@,
            Instruction::U32Assert2 => "u32assert.2"@,
            Instruction::U32AssertW => "u32assertw"@,
            Instruction::U32Split => "u32split"@,
            Instruction::U32Cast => "u32cast"@,
            Instruction::U32CheckedAdd => "u32checked_add"@,
            Instruction::U32CheckedAddImm(value) => "u32checked_add."@ + decimal(*value as nat),
            Instruction::U32WrappingAdd => "u32wrapping_add"@,
            Instruction::U32WrappingAddImm(value) => "u32wrapping_add."@ + decimal(*value as nat),
            Instruction::U32OverflowingAdd => "u32overflowing_add"@,
            Instruction::U32OverflowingAddImm(value) => "u32overflowing_add."@ + decimal(*value as nat),
            Instruction::U32OverflowingAdd3 => "u32overflowing_add3"@,
            Instruction::U32WrappingAdd3 => "u32wrapping_add3"@,
            Instruction::U32CheckedSub => "u32checked_sub"@,
            Instruction::U32CheckedSubImm(value) => "u32checked_sub."@ + decimal(*value as nat),
            Instruction::U32WrappingSub => "u32wrapping_sub"@,
            Instruction::U32WrappingSubImm(value) => "u32wrapping_sub."@ + decimal(*value as nat),
            Instruction::U32OverflowingSub => "u32overflowing_sub"@,
            Instruction::U32OverflowingSubImm(value) => "u32overflowing_sub."@ + decimal(*value as nat),
            Instruction::U32CheckedMul => "u32checked_mul"@,
            Instruction::U32CheckedMulImm(value) => "u32checked_mul."@ + decimal(*value as nat),
            Instruction::U32WrappingMul => "u32wrapping_mul"@,
            Instruction::U32WrappingMulImm(value) => "u32wrapping_mul."@ + decimal(*value as nat),
            Instruction::U32OverflowingMul => "u32overflowing_mul"@,
            Instruction::U32OverflowingMulImm(value) => "u32overflowing_mul."@ + decimal(*value as nat),
            Instruction::U32OverflowingMadd => "u32overflowing_madd"@,
            Instruction::U32WrappingMadd => "u32wrapping_madd"@,
            Instruction::U32CheckedDiv => "u32checked_div"@,
            Instruction::U32CheckedDivImm(value) => "u32checked_div."@ + decimal(*value as nat),
            Instruction::U32UncheckedDiv => "u32unchecked_div"@,
            Instruction::U32UncheckedDivImm(value) => "u32unchecked_div."@ + decimal(*value as nat),
            Instruction::U32CheckedMod => "u32checked_mod"@,
            Instruction::U32CheckedModImm(value) => "u32checked_mod."@ + decimal(*value as nat),
            Instruction::U32UncheckedMod => "u32unchecked_mod"@,
            Instruction::U32UncheckedModImm(value) => "u32unchecked_mod."@ + decimal(*value as nat),
            Instruction::U32CheckedDivMod => "u32checked_divmod"@,
            Instruction::U32CheckedDivModImm(value) => "u32checked_divmod."@ + decimal(*value as nat),
            Instruction::U32UncheckedDivMod => "u32unchecked_divmod"@,
            Instruction::U32UncheckedDivModImm(value) => "u32unchecked_divmod."@ + decimal(*value as nat),
            Instruction::U32CheckedAnd => "u32checked_and"@,
            Instruction::U32CheckedOr => "u32checked_or"@,
            Instruction::U32CheckedXor => "u32checked_xor"@,
            Instruction::U32CheckedNot => "u32checked_not"@,
            Instruction::U32CheckedShr => "u32checked_shr"@,
            Instruction::U32CheckedShrImm(value) => "u32checked_shr."@ + decimal(*value as nat),
            Instruction::U32UncheckedShr => "u32unchecked_shr"@,
            Instruction::U32UncheckedShrImm(value) => "u32unchecked_shr."@ + decimal(*value as nat),
            Instruction::U32CheckedShl => "u32checked_shl"@,
            Instruction::U32CheckedShlImm(value) => "u32checked_shl."@ + decimal(*value as nat),
            Instruction::U32UncheckedShl => "u32unchecked_shl"@,
            Instruction::U32UncheckedShlImm(value) => "u32unchecked_shl."@ + decimal(*value as nat),
            Instruction::U32CheckedRotr => "u32checked_rotr"@,
            Instruction::U32CheckedRotrImm(value) => "u32checked_rotr."@ + decimal(*value as nat),
            Instruction::U32UncheckedRotr => "u32unchecked_rotr"@,
            Instruction::U32UncheckedRotrImm(value) => "u32unchecked_rotr."@ + decimal(*value as nat),
            Instruction::U32CheckedRotl => "u32checked_rotl"@,
            Instruction::U32CheckedRotlImm(value) => "u32checked_rotl."@ + decimal(*value as nat),
            Instruction::U32UncheckedRotl => "u32unchecked_rotl"@,
            Instruction::U32UncheckedRotlImm(value) => "u32unchecked_rotl."@ + decimal(*value as nat),
            Instruction::U32CheckedPopcnt => "u32checked_popcnt"@,
            Instruction::U32UncheckedPopcnt => "u32unchecked_popcnt"@,
            Instruction::U32CheckedEq => "u32checked_eq"@,
            Instruction::U32CheckedEqImm(value) => "u32checked_eq."@ + decimal(*value as nat),
            Instruction::U32CheckedNeq => "u32checked_neq"@,
            Instruction::U32CheckedNeqImm(value) => "u32checked_neq."@ + decimal(*value as nat),
            Instruction::U32CheckedLt => "u32checked_lt"@,
            Instruction::U32UncheckedLt => "u32unchecked_lt"@,
            Instruction::U32CheckedLte => "u32checked_lte"@,
            Instruction::U32UncheckedLte => "u32unchecked_lte"@,
            Instruction::U32CheckedGt => "u32checked_gt"@,
            Instruction::U32UncheckedGt => "u32unchecked_gt"@,
            Instruction::U32CheckedGte => "u32checked_gte"@,
            Instruction::U32UncheckedGte => "u32unchecked_gte"@,
            Instruction::U32CheckedMin => "u32checked_min"@,
            Instruction::U32UncheckedMin => "u32unchecked_min"@,
            Instruction::U32CheckedMax => "u32checked_max"@,
            Instruction::U32UncheckedMax => "u32unchecked_max"@,
            // ----- stack manipulation ---------------------------------------------------------------
            Instruction::Drop => "drop"@,
            Instruction::DropW => "dropw"@,
            Instruction::PadW => "padw"@,
            Instruction::Dup0 => "dup.0"@,
            Instruction::Dup1 => "dup.1"@,
            Instruction::Dup2 => "dup.2"@,
            Instruction::Dup3 => "dup.3"@,
            Instruction::Dup4 => "dup.4"@,
            Instruction::Dup5 => "dup.5"@,
            Instruction::Dup6 => "dup.6"@,
            Instruction::Dup7 => "dup.7"@,
            Instruction::Dup8 => "dup.8"@,
            Instruction::Dup9 => "dup.9"@,
            Instruction::Dup10 => "dup.10"@,
            Instruction::Dup11 => "dup.11"@,
            Instruction::Dup12 => "dup.12"@,
            Instruction::Dup13 => "dup.13"@,
            Instruction::Dup14 => "dup.14"@,
            Instruction::Dup15 => "dup.15"@,
            Instruction::DupW0 => "dupw.0"@,
            Instruction::DupW1 => "dupw.1"@,
            Instruction::DupW2 => "dupw.2"@,
            Instruction::DupW3 => "dupw.3"@,
            Instruction::Swap1 => "swap.1"@,
            Instruction::Swap2 => "swap.2"@,
            Instruction::Swap3 => "swap.3"@,
            Instruction::Swap4 => "swap.4"@,
            Instruction::Swap5 => "swap.5"@,
            Instruction::Swap6 => "swap.6"@,
            Instruction::Swap7 => "swap.7"@,
            Instruction::Swap8 => "swap.8"@,
            Instruction::Swap9 => "swap.9"@,
            Instruction::Swap10 => "swap.10"@,
            Instruction::Swap11 => "swap.11"@,
            Instruction::Swap12 => "swap.12"@,
            Instruction::Swap13 => "swap.13"@,
            Instruction::Swap14 => "swap.14"@,
            Instruction::Swap15 => "swap.15"@,
            Instruction::SwapW1 => "swapw.1"@,
            Instruction::SwapW2 => "swapw.2"@,
            Instruction::SwapW3 => "swapw.3"@,
            Instruction::SwapDw => "swapdw"@,
            Instruction::MovUp2 => "movup.2"@,
            Instruction::MovUp3 => "movup.3"@,
            Instruction::MovUp4 => "movup.4"@,
            Instruction::MovUp5 => "movup.5"@,
            Instruction::MovUp6 => "movup.6"@,
            Instruction::MovUp7 => "movup.7"@,
            Instruction::MovUp8 => "movup.8"@,
            Instruction::MovUp9 => "movup.9"@,
            Instruction::MovUp10 => "movup.10"@,
            Instruction::MovUp11 => "movup.11"@,
            Instruction::MovUp12 => "movup.12"@,
            Instruction::MovUp13 => "movup.13"@,
            Instruction::MovUp14 => "movup.14"@,
            Instruction::MovUp15 => "movup.15"@,
            Instruction::MovUpW2 => "movupw.2"@,
            Instruction::MovUpW3 => "movupw.3"@,
            Instruction::MovDn2 => "movdn.2"@,
            Instruction::MovDn3 => "movdn.3"@,
            Instruction::MovDn4 => "movdn.4"@,
            Instruction::MovDn5 => "movdn.5"@,
            Instruction::MovDn6 => "movdn.6"@,
            Instruction::MovDn7 => "movdn.7"@,
            Instruction::MovDn8 => "movdn.8"@,
            Instruction::MovDn9 => "movdn.9"@,
            Instruction::MovDn10 => "movdn.10"@,
            Instruction::MovDn11 => "movdn.11"@,
            Instruction::MovDn12 => "movdn.12"@,
            Instruction::MovDn13 => "movdn.13"@,
            Instruction::MovDn14 => "movdn.14"@,
            Instruction::MovDn15 => "movdn.15"@,
            Instruction::MovDnW2 => "movdnw.2"@,
            Instruction::MovDnW3 => "movdnw.3"@,
            Instruction::CSwap => "cswap"@,
            Instruction::CSwapW => "cswapw"@,
            Instruction::CDrop => "cdrop"@,
            Instruction::CDropW => "cdropw"@,
            // ----- input / output operations ----------------------------------------------------
            Instruction::PushU8(value) => "push."@ + decimal(*value as nat),
            Instruction::PushU16(value) => "push."@ + decimal(*value as nat),
            Instruction::PushU32(value) => "push."@ + decimal(*value as nat),
            Instruction::PushFelt(value) => "push."@ + decimal(value@ as nat),
            Instruction::PushWord(values) => push_list_text(values_of(values@)),
            Instruction::PushU8List(values) => push_list_text(values_of(values@)),
            Instruction::PushU16List(values) => push_list_text(values_of(values@)),
            Instruction::PushU32List(values) => push_list_text(values_of(values@)),
            Instruction::PushFeltList(values) => push_list_text(values_of(values@)),
            Instruction::Locaddr(value) => "locaddr."@ + decimal(*value as nat),
            Instruction::Sdepth => "sdepth"@,
            Instruction::Caller => "caller"@,
            Instruction::MemLoad => "mem_load"@,
            Instruction::MemLoadImm(value) => "mem_load."@ + decimal(*value as nat),
            Instruction::MemLoadW => "mem_loadw"@,
            Instruction::MemLoadWImm(value) => "mem_loadw."@ + decimal(*value as nat),
            Instruction::LocLoad(value) => "loc_load."@ + decimal(*value as nat),
            Instruction::LocLoadW(value) => "loc_loadw."@ + decimal(*value as nat),
            Instruction::MemStore => "mem_store"@,
            Instruction::MemStoreImm(value) => "mem_store."@ + decimal(*value as nat),
            Instruction::LocStore(value) => "loc_store."@ + decimal(*value as nat),
            Instruction::MemStoreW => "mem_storew"@,
            Instruction::MemStoreWImm(value) => "mem_storew."@ + decimal(*value as nat),
            Instruction::LocStoreW(value) => "loc_storew."@ + decimal(*value as nat),
            Instruction::MemStream => "mem_stream"@,
            Instruction::AdvPipe => "adv_pipe"@,
            Instruction::AdvPush(value) => "adv_push."@ + decimal(*value as nat),
            Instruction::AdvLoadW => "adv_loadw"@,
            Instruction::AdvU64Div => "adv.u64div"@,
            Instruction::AdvKeyval => "adv.keyval"@,
            Instruction::AdvMem(start_addr, num_words) => "adv.mem."@ + decimal(*start_addr as nat) + seq!['.'] + decimal(*num_words as nat),
            Instruction::AdvExt2Inv => "adv.ext2inv"@,
            Instruction::AdvExt2INTT => "adv.ext2intt"@,
            // ----- cryptographic operations -----------------------------------------------------
            Instruction::RpHash => "rphash"@,
            Instruction::RpPerm => "rpperm"@,
            Instruction::MTreeGet => "mtree_get"@,
            Instruction::MTreeSet => "mtree_set"@,
            Instruction::MTreeCwm => "mtree_cwm"@,
            // ----- exec / call ------------------------------------------------------------------
            Instruction::ExecLocal(index) => "exec."@ + decimal(*index as nat),
            Instruction::ExecImported(proc_id) => "exec."@ + proc_id.spec_text(),
            Instruction::CallLocal(index) => "call."@ + decimal(*index as nat),
            Instruction::CallImported(proc_id) => "call."@ + proc_id.spec_text(),
            Instruction::SysCall(proc_id) => "syscall."@ + proc_id.spec_text(),
        }
    }

    /// Returns the assembly text of the instruction.
    pub fn to_string(&self) -> (r: String)
        ensures
            r@ == self.spec_text(),
    {
        match self {
            Instruction::Assert => "assert".to_owned(),
            Instruction::AssertEq => "assert_eq".to_owned(),
            Instruction::Assertz => "assertz".to_owned(),
            Instruction::Add => "add".to_owned(),
            Instruction::AddImm(value) => text_with_value("add.", value.as_int()),
            Instruction::Sub => "sub".to_owned(),
            Instruction::SubImm(value) => text_with_value("sub.", value.as_int()),
            Instruction::Mul => "mul".to_owned(),
            Instruction::MulImm(value) => text_with_value("mul.", value.as_int()),
            Instruction::Div => "div".to_owned(),
            Instruction::DivImm(value) => text_with_value("div.", value.as_int()),
            Instruction::Neg => "neg".to_owned(),
            Instruction::Inv => "inv".to_owned(),
            Instruction::Incr => "add.1".to_owned(),
            Instruction::Pow2 => "pow2".to_owned(),
            Instruction::Exp => "exp".to_owned(),
            Instruction::ExpImm(value) => text_with_value("exp.", value.as_int()),
            Instruction::ExpBitLength(value) => text_with_value("exp.u", *value as u64),
            Instruction::Not => "not".to_owned(),
            Instruction::And => "and".to_owned(),
            Instruction::Or => "or".to_owned(),
            Instruction::Xor => "xor".to_owned(),
            Instruction::Eq => "eq".to_owned(),
            Instruction::EqImm(value) => text_with_value("eq.", value.as_int()),
            Instruction::Neq => "neq".to_owned(),
            Instruction::NeqImm(value) => text_with_value("neq.", value.as_int()),
            Instruction::Eqw => "eqw".to_owned(),
            Instruction::Lt => "lt".to_owned(),
            Instruction::Lte => "lte".to_owned(),
            Instruction::Gt => "gt".to_owned(),
            Instruction::Gte => "gte".to_owned(),
            // ----- ext2 operations --------------------------------------------------------------
            Instruction::Ext2Add => "ext2add".to_owned(),
            Instruction::Ext2Sub => "ext2sub".to_owned(),
            Instruction::Ext2Mul => "ext2mul".to_owned(),
            Instruction::Ext2Div => "ext2div".to_owned(),
            Instruction::Ext2Neg => "ext2neg".to_owned(),
            Instruction::Ext2Inv => "ext2inv".to_owned(),
            // ----- u32 manipulation ---------------------------------------------------------------
            Instruction::U32Test => "u32test".to_owned(),
            Instruction::U32TestW => "u32testw".to_owned(),
            Instruction::U32Assert => "u32assert.1".to_owned(),
            Instruction::U32Assert2 => "u32assert.2".to_owned(),
            Instruction::U32AssertW => "u32assertw".to_owned(),
            Instruction::U32Split => "u32split".to_owned(),
            Instruction::U32Cast => "u32cast".to_owned(),
            Instruction::U32CheckedAdd => "u32checked_add".to_owned(),
            Instruction::U32CheckedAddImm(value) => text_with_value("u32checked_add.", *value as u64),
            Instruction::U32WrappingAdd => "u32wrapping_add".to_owned(),
            Instruction::U32WrappingAddImm(value) => text_with_value("u32wrapping_add.", *value as u64),
            Instruction::U32OverflowingAdd => "u32overflowing_add".to_owned(),
            Instruction::U32OverflowingAddImm(value) => text_with_value("u32overflowing_add.", *value as u64),
            Instruction::U32OverflowingAdd3 => "u32overflowing_add3".to_owned(),
            Instruction::U32WrappingAdd3 => "u32wrapping_add3".to_owned(),
            Instruction::U32CheckedSub => "u32checked_sub".to_owned(),
            Instruction::U32CheckedSubImm(value) => text_with_value("u32checked_sub.", *value as u64),
            Instruction::U32WrappingSub => "u32wrapping_sub".to_owned(),
            Instruction::U32WrappingSubImm(value) => text_with_value("u32wrapping_sub.", *value as u64),
            Instruction::U32OverflowingSub => "u32overflowing_sub".to_owned(),
            Instruction::U32OverflowingSubImm(value) => text_with_value("u32overflowing_sub.", *value as u64),
            Instruction::U32CheckedMul => "u32checked_mul".to_owned(),
            Instruction::U32CheckedMulImm(value) => text_with_value("u32checked_mul.", *value as u64),
            Instruction::U32WrappingMul => "u32wrapping_mul".to_owned(),
            Instruction::U32WrappingMulImm(value) => text_with_value("u32wrapping_mul.", *value as u64),
            Instruction::U32OverflowingMul => "u32overflowing_mul".to_owned(),
            Instruction::U32OverflowingMulImm(value) => text_with_value("u32overflowing_mul.", *value as u64),
            Instruction::U32OverflowingMadd => "u32overflowing_madd".to_owned(),
            Instruction::U32WrappingMadd => "u32wrapping_madd".to_owned(),
            Instruction::U32CheckedDiv => "u32checked_div".to_owned(),
            Instruction::U32CheckedDivImm(value) => text_with_value("u32checked_div.", *value as u64),
            Instruction::U32UncheckedDiv => "u32unchecked_div".to_owned(),
            Instruction::U32UncheckedDivImm(value) => text_with_value("u32unchecked_div.", *value as u64),
            Instruction::U32CheckedMod => "u32checked_mod".to_owned(),
            Instruction::U32CheckedModImm(value) => text_with_value("u32checked_mod.", *value as u64),
            Instruction::U32UncheckedMod => "u32unchecked_mod".to_owned(),
            Instruction::U32UncheckedModImm(value) => text_with_value("u32unchecked_mod.", *value as u64),
            Instruction::U32CheckedDivMod => "u32checked_divmod".to_owned(),
            Instruction::U32CheckedDivModImm(value) => text_with_value("u32checked_divmod.", *value as u64),
            Instruction::U32UncheckedDivMod => "u32unchecked_divmod".to_owned(),
            Instruction::U32UncheckedDivModImm(value) => text_with_value("u32unchecked_divmod.", *value as u64),
            Instruction::U32CheckedAnd => "u32checked_and".to_owned(),
            Instruction::U32CheckedOr => "u32checked_or".to_owned(),
            Instruction::U32CheckedXor => "u32checked_xor".to_owned(),
            Instruction::U32CheckedNot => "u32checked_not".to_owned(),
            Instruction::U32CheckedShr => "u32checked_shr".to_owned(),
            Instruction::U32CheckedShrImm(value) => text_with_value("u32checked_shr.", *value as u64),
            Instruction::U32UncheckedShr => "u32unchecked_shr".to_owned(),
            Instruction::U32UncheckedShrImm(value) => text_with_value("u32unchecked_shr.", *value as u64),
            Instruction::U32CheckedShl => "u32checked_shl".to_owned(),
            Instruction::U32CheckedShlImm(value) => text_with_value("u32checked_shl.", *value as u64),
            Instruction::U32UncheckedShl => "u32unchecked_shl".to_owned(),
            Instruction::U32UncheckedShlImm(value) => text_with_value("u32unchecked_shl.", *value as u64),
            Instruction::U32CheckedRotr => "u32checked_rotr".to_owned(),
            Instruction::U32CheckedRotrImm(value) => text_with_value("u32checked_rotr.", *value as u64),
            Instruction::U32UncheckedRotr => "u32unchecked_rotr".to_owned(),
            Instruction::U32UncheckedRotrImm(value) => text_with_value("u32unchecked_rotr.", *value as u64),
            Instruction::U32CheckedRotl => "u32checked_rotl".to_owned(),
            Instruction::U32CheckedRotlImm(value) => text_with_value("u32checked_rotl.", *value as u64),
            Instruction::U32UncheckedRotl => "u32unchecked_rotl".to_owned(),
            Instruction::U32UncheckedRotlImm(value) => text_with_value("u32unchecked_rotl.", *value as u64),
            Instruction::U32CheckedPopcnt => "u32checked_popcnt".to_owned(),
            Instruction::U32UncheckedPopcnt => "u32unchecked_popcnt".to_owned(),
            Instruction::U32CheckedEq => "u32checked_eq".to_owned(),
            Instruction::U32CheckedEqImm(value) => text_with_value("u32checked_eq.", *value as u64),
            Instruction::U32CheckedNeq => "u32checked_neq".to_owned(),
            Instruction::U32CheckedNeqImm(value) => text_with_value("u32checked_neq.", *value as u64),
            Instruction::U32CheckedLt => "u32checked_lt".to_owned(),
            Instruction::U32UncheckedLt => "u32unchecked_lt".to_owned(),
            Instruction::U32CheckedLte => "u32checked_lte".to_owned(),
            Instruction::U32UncheckedLte => "u32unchecked_lte".to_owned(),
            Instruction::U32CheckedGt => "u32checked_gt".to_owned(),
            Instruction::U32UncheckedGt => "u32unchecked_gt".to_owned(),
            Instruction::U32CheckedGte => "u32checked_gte".to_owned(),
            Instruction::U32UncheckedGte => "u32unchecked_gte".to_owned(),
            Instruction::U32CheckedMin => "u32checked_min".to_owned(),
            Instruction::U32UncheckedMin => "u32unchecked_min".to_owned(),
            Instruction::U32CheckedMax => "u32checked_max".to_owned(),
            Instruction::U32UncheckedMax => "u32unchecked_max".to_owned(),
            // ----- stack manipulation ---------------------------------------------------------------
            Instruction::Drop => "drop".to_owned(),
            Instruction::DropW => "dropw".to_owned(),
            Instruction::PadW => "padw".to_owned(),
            Instruction::Dup0 => "dup.0".to_owned(),
            Instruction::Dup1 => "dup.1".to_owned(),
            Instruction::Dup2 => "dup.2".to_owned(),
            Instruction::Dup3 => "dup.3".to_owned(),
            Instruction::Dup4 => "dup.4".to_owned(),
            Instruction::Dup5 => "dup.5".to_owned(),
            Instruction::Dup6 => "dup.6".to_owned(),
            Instruction::Dup7 => "dup.7".to_owned(),
            Instruction::Dup8 => "dup.8".to_owned(),
            Instruction::Dup9 => "dup.9".to_owned(),
            Instruction::Dup10 => "dup.10".to_owned(),
            Instruction::Dup11 => "dup.11".to_owned(),
            Instruction::Dup12 => "dup.12".to_owned(),
            Instruction::Dup13 => "dup.13".to_owned(),
            Instruction::Dup14 => "dup.14".to_owned(),
            Instruction::Dup15 => "dup.15".to_owned(),
            Instruction::DupW0 => "dupw.0".to_owned(),
            Instruction::DupW1 => "dupw.1".to_owned(),
            Instruction::DupW2 => "dupw.2".to_owned(),
            Instruction::DupW3 => "dupw.3".to_owned(),
            Instruction::Swap1 => "swap.1".to_owned(),
            Instruction::Swap2 => "swap.2".to_owned(),
            Instruction::Swap3 => "swap.3".to_owned(),
            Instruction::Swap4 => "swap.4".to_owned(),
            Instruction::Swap5 => "swap.5".to_owned(),
            Instruction::Swap6 => "swap.6".to_owned(),
            Instruction::Swap7 => "swap.7".to_owned(),
            Instruction::Swap8 => "swap.8".to_owned(),
            Instruction::Swap9 => "swap.9".to_owned(),
            Instruction::Swap10 => "swap.10".to_owned(),
            Instruction::Swap11 => "swap.11".to_owned(),
            Instruction::Swap12 => "swap.12".to_owned(),
            Instruction::Swap13 => "swap.13".to_owned(),
            Instruction::Swap14 => "swap.14".to_owned(),
            Instruction::Swap15 => "swap.15".to_owned(),
            Instruction::SwapW1 => "swapw.1".to_owned(),
            Instruction::SwapW2 => "swapw.2".to_owned(),
            Instruction::SwapW3 => "swapw.3".to_owned(),
            Instruction::SwapDw => "swapdw".to_owned(),
            Instruction::MovUp2 => "movup.2".to_owned(),
            Instruction::MovUp3 => "movup.3".to_owned(),
            Instruction::MovUp4 => "movup.4".to_owned(),
            Instruction::MovUp5 => "movup.5".to_owned(),
            Instruction::MovUp6 => "movup.6".to_owned(),
            Instruction::MovUp7 => "movup.7".to_owned(),
            Instruction::MovUp8 => "movup.8".to_owned(),
            Instruction::MovUp9 => "movup.9".to_owned(),
            Instruction::MovUp10 => "movup.10".to_owned(),
            Instruction::MovUp11 => "movup.11".to_owned(),
            Instruction::MovUp12 => "movup.12".to_owned(),
            Instruction::MovUp13 => "movup.13".to_owned(),
            Instruction::MovUp14 => "movup.14".to_owned(),
            Instruction::MovUp15 => "movup.15".to_owned(),
            Instruction::MovUpW2 => "movupw.2".to_owned(),
            Instruction::MovUpW3 => "movupw.3".to_owned(),
            Instruction::MovDn2 => "movdn.2".to_owned(),
            Instruction::MovDn3 => "movdn.3".to_owned(),
            Instruction::MovDn4 => "movdn.4".to_owned(),
            Instruction::MovDn5 => "movdn.5".to_owned(),
            Instruction::MovDn6 => "movdn.6".to_owned(),
            Instruction::MovDn7 => "movdn.7".to_owned(),
            Instruction::MovDn8 => "movdn.8".to_owned(),
            Instruction::MovDn9 => "movdn.9".to_owned(),
            Instruction::MovDn10 => "movdn.10".to_owned(),
            Instruction::MovDn11 => "movdn.11".to_owned(),
            Instruction::MovDn12 => "movdn.12".to_owned(),
            Instruction::MovDn13 => "movdn.13".to_owned(),
            Instruction::MovDn14 => "movdn.14".to_owned(),
            Instruction::MovDn15 => "movdn.15".to_owned(),
            Instruction::MovDnW2 => "movdnw.2".to_owned(),
            Instruction::MovDnW3 => "movdnw.3".to_owned(),
            Instruction::CSwap => "cswap".to_owned(),
            Instruction::CSwapW => "cswapw".to_owned(),
            Instruction::CDrop => "cdrop".to_owned(),
            Instruction::CDropW => "cdropw".to_owned(),
            // ----- input / output operations ----------------------------------------------------
            Instruction::PushU8(value) => text_with_value("push.", *value as u64),
            Instruction::PushU16(value) => text_with_value("push.", *value as u64),
            Instruction::PushU32(value) => text_with_value("push.", *value as u64),
            Instruction::PushFelt(value) => text_with_value("push.", value.as_int()),
            Instruction::PushWord(values) => push_list(values.as_slice()),
            Instruction::PushU8List(values) => push_list(values.as_slice()),
            Instruction::PushU16List(values) => push_list(values.as_slice()),
            Instruction::PushU32List(values) => push_list(values.as_slice()),
            Instruction::PushFeltList(values) => push_list(values.as_slice()),
            Instruction::Locaddr(value) => text_with_value("locaddr.", *value as u64),
            Instruction::Sdepth => "sdepth".to_owned(),
            Instruction::Caller => "caller".to_owned(),
            Instruction::MemLoad => "mem_load".to_owned(),
            Instruction::MemLoadImm(value) => text_with_value("mem_load.", *value as u64),
            Instruction::MemLoadW => "mem_loadw".to_owned(),
            Instruction::MemLoadWImm(value) => text_with_value("mem_loadw.", *value as u64),
            Instruction::LocLoad(value) => text_with_value("loc_load.", *value as u64),
            Instruction::LocLoadW(value) => text_with_value("loc_loadw.", *value as u64),
            Instruction::MemStore => "mem_store".to_owned(),
            Instruction::MemStoreImm(value) => text_with_value("mem_store.", *value as u64),
            Instruction::LocStore(value) => text_with_value("loc_store.", *value as u64),
            Instruction::MemStoreW => "mem_storew".to_owned(),
            Instruction::MemStoreWImm(value) => text_with_value("mem_storew.", *value as u64),
            Instruction::LocStoreW(value) => text_with_value("loc_storew.", *value as u64),
            Instruction::MemStream => "mem_stream".to_owned(),
            Instruction::AdvPipe => "adv_pipe".to_owned(),
            Instruction::AdvPush(value) => text_with_value("adv_push.", *value as u64),
            Instruction::AdvLoadW => "adv_loadw".to_owned(),
            Instruction::AdvU64Div => "adv.u64div".to_owned(),
            Instruction::AdvKeyval => "adv.keyval".to_owned(),
            Instruction::AdvMem(start_addr, num_words) => {
                let mut s = text_with_value("adv.mem.", *start_addr as u64);
                push_char(&mut s, '.');
                push_decimal(&mut s, *num_words as u64);
                s
            },
            Instruction::AdvExt2Inv => "adv.ext2inv".to_owned(),
            Instruction::AdvExt2INTT => "adv.ext2intt".to_owned(),
            // ----- cryptographic operations -----------------------------------------------------
            Instruction::RpHash => "rphash".to_owned(),
            Instruction::RpPerm => "rpperm".to_owned(),
            Instruction::MTreeGet => "mtree_get".to_owned(),
            Instruction::MTreeSet => "mtree_set".to_owned(),
            Instruction::MTreeCwm => "mtree_cwm".to_owned(),
            // ----- exec / call ------------------------------------------------------------------
            Instruction::ExecLocal(index) => text_with_value("exec.", *index as u64),
            Instruction::ExecImported(proc_id) => text_with_procedure("exec.", proc_id),
            Instruction::CallLocal(index) => text_with_value("call.", *index as u64),
            Instruction::CallImported(proc_id) => text_with_procedure("call.", proc_id),
            Instruction::SysCall(proc_id) => text_with_procedure("syscall.", proc_id),
        }
    }
}

} // verus!
