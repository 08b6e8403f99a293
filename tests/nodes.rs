use miden_air::field::{Felt, MODULUS};
use miden_air::nodes::{Instruction, Node, ProcedureId};

#[test]
fn test_instruction_display() {
    let instruction = Instruction::Assert.to_string();
    assert_eq!("assert", instruction);

    let instruction = Instruction::Add.to_string();
    assert_eq!("add", instruction);

    let instruction = Instruction::AddImm(Felt::new(5)).to_string();
    assert_eq!("add.5", instruction);

    let instruction = Instruction::ExpBitLength(32).to_string();
    assert_eq!("exp.u32", instruction);

    let instruction =
        Instruction::PushFeltList(vec![Felt::new(3), Felt::new(4), Felt::new(8), Felt::new(9)])
            .to_string();
    assert_eq!("push.3.4.8.9", instruction);

    let hash = [7; 24];
    let proc_id = ProcedureId::from(hash);
    let instruction = Instruction::ExecImported(proc_id).to_string();
    assert_eq!("exec.0x070707070707070707070707070707070707070707070707", instruction);
}

#[test]
fn instruction_text_of_immediates() {
    assert_eq!(Instruction::Incr.to_string(), "add.1");
    assert_eq!(Instruction::U32Assert2.to_string(), "u32assert.2");
    assert_eq!(Instruction::U32CheckedAddImm(4294967295).to_string(), "u32checked_add.4294967295");
    assert_eq!(Instruction::U32UncheckedRotlImm(0).to_string(), "u32unchecked_rotl.0");
    assert_eq!(Instruction::PushU8(255).to_string(), "push.255");
    assert_eq!(Instruction::PushU16(10).to_string(), "push.10");
    assert_eq!(Instruction::PushFelt(Felt::new(MODULUS + 3)).to_string(), "push.3");
    assert_eq!(Instruction::MulImm(Felt::new(MODULUS - 1)).to_string(), "mul.18446744069414584320");
    assert_eq!(Instruction::AdvMem(12, 3).to_string(), "adv.mem.12.3");
    assert_eq!(Instruction::LocStoreW(100).to_string(), "loc_storew.100");
    assert_eq!(Instruction::ExecLocal(2).to_string(), "exec.2");
    assert_eq!(Instruction::MovDnW3.to_string(), "movdnw.3");
    assert_eq!(Instruction::AdvExt2INTT.to_string(), "adv.ext2intt");
}

#[test]
fn instruction_text_of_push_lists() {
    let word = [Felt::new(1), Felt::new(0), Felt::new(20), Felt::new(300)];
    assert_eq!(Instruction::PushWord(word).to_string(), "push.1.0.20.300");
    assert_eq!(Instruction::PushU8List(vec![]).to_string(), "push");
    assert_eq!(Instruction::PushU16List(vec![65535, 7]).to_string(), "push.65535.7");
    assert_eq!(Instruction::PushU32List(vec![1_000_000]).to_string(), "push.1000000");
}

#[test]
fn instruction_text_of_procedure_ids() {
    let mut bytes = [0u8; 24];
    bytes[0] = 0xab;
    bytes[23] = 0x0f;
    let id = ProcedureId::from(bytes);
    assert_eq!(
        Instruction::SysCall(id).to_string(),
        "syscall.0xab000000000000000000000000000000000000000000000f"
    );
    assert_eq!(
        Instruction::CallImported(id).to_string(),
        "call.0xab000000000000000000000000000000000000000000000f"
    );
}

#[test]
fn nodes_compare_by_structure() {
    let a = Node::Repeat(3, vec![Node::Instruction(Instruction::Add)]);
    let b = Node::Repeat(3, vec![Node::Instruction(Instruction::Add)]);
    let c = Node::While(vec![Node::Instruction(Instruction::Add)]);
    assert_eq!(a, b);
    assert_ne!(a, c);
    assert_ne!(Node::IfElse(vec![], vec![]), Node::While(vec![]));
}

#[test]
fn cloned_nodes_are_equal() {
    let tree = Node::IfElse(
        vec![Node::Instruction(Instruction::PushU32List(vec![1, 2]))],
        vec![Node::While(vec![Node::Repeat(2, vec![Node::Instruction(Instruction::Drop)])])],
    );
    assert_eq!(tree.clone(), tree);
}
