use nessie::chunk::{Chunk, Instruction};
use nessie::value::Value;

#[test]
fn instruction_size() {
    assert_eq!(std::mem::size_of::<Instruction>(), 4);
}

#[test]
fn instruction_size_is_the_same_for_every_shape() {
    let size = std::mem::size_of::<Instruction>();
    assert_eq!(std::mem::size_of_val(&Instruction::Return), size);
    assert_eq!(std::mem::size_of_val(&Instruction::Constant(65535)), size);
    assert_eq!(std::mem::size_of_val(&Instruction::JumpIfFalse(7)), size);
}

#[test]
fn new_chunk_is_empty_and_anonymous() {
    let chunk = Chunk::new();
    assert!(chunk.instructions().is_empty());
    assert!(chunk.instruction_lines().is_empty());
    assert!(chunk.constants().is_empty());
    assert_eq!(chunk.name(), None);
    let default = Chunk::default();
    assert!(default.instructions().is_empty());
    assert_eq!(default.name(), None);
}

#[test]
fn writes_keep_one_line_per_instruction() {
    let mut chunk = Chunk::new();
    let ops = [
        (Instruction::True, 1),
        (Instruction::JumpIfFalse(2), 1),
        (Instruction::Constant(0), 2),
        (Instruction::Return, 3),
    ];
    for (op, line) in ops {
        chunk.write(op, line);
        assert_eq!(chunk.instructions().len(), chunk.instruction_lines().len());
    }
    assert_eq!(
        chunk.instructions(),
        &[
            Instruction::True,
            Instruction::JumpIfFalse(2),
            Instruction::Constant(0),
            Instruction::Return
        ]
    );
    assert_eq!(chunk.instruction_lines(), &[1, 1, 2, 3]);
}

#[test]
fn constant_indices_count_up_from_zero() {
    let mut chunk = Chunk::new();
    for i in 0..300u16 {
        let index = chunk.write_constant(Value::Int(i as i32 * 2));
        assert_eq!(index, i);
    }
    assert_eq!(chunk.constants().len(), 300);
    assert_eq!(chunk.constants()[17], Value::Int(34));
    assert_eq!(chunk.write_constant(Value::Bool(true)), 300);
    assert_eq!(chunk.constants()[300], Value::Bool(true));
}

#[test]
fn backpatch_changes_only_the_jump_operand() {
    let mut chunk = Chunk::new();
    chunk.write(Instruction::True, 10);
    chunk.write(Instruction::JumpIfFalse(0), 10);
    chunk.write(Instruction::Jump(0), 11);
    chunk.write(Instruction::Return, 12);
    chunk.write_constant(Value::Int(5));

    chunk.instructions_mut()[1] = Instruction::JumpIfFalse(1);
    chunk.instructions_mut()[2] = Instruction::Jump(513);

    assert_eq!(
        chunk.instructions(),
        &[
            Instruction::True,
            Instruction::JumpIfFalse(1),
            Instruction::Jump(513),
            Instruction::Return
        ]
    );
    assert_eq!(chunk.instruction_lines(), &[10, 10, 11, 12]);
    assert_eq!(chunk.constants(), &[Value::Int(5)]);
    assert_eq!(chunk.name(), None);
}

#[test]
fn name_mut_on_anonymous_chunk_is_none() {
    let mut chunk = Chunk::new();
    assert!(chunk.name_mut().is_none());
}

#[test]
fn instruction_text() {
    assert_eq!(Instruction::Return.to_string(), "Return");
    assert_eq!(Instruction::Constant(0).to_string(), "Constant(0)");
    assert_eq!(Instruction::Constant(65535).to_string(), "Constant(65535)");
    assert_eq!(Instruction::PrimitiveGetLocal(42).to_string(), "PrimitiveGetLocal(42)");
    assert_eq!(Instruction::PtrGetLocal(7).to_string(), "PtrGetLocal(7)");
    assert_eq!(Instruction::Jump(10).to_string(), "Jump(10)");
    assert_eq!(Instruction::JumpIfFalse(305).to_string(), "JumpIfFalse(305)");
    assert_eq!(Instruction::PtrDropAbove.to_string(), "PtrDropAbove");
    assert_eq!(Instruction::StringNe.to_string(), "StringNe");
    assert_eq!(Instruction::Call.to_string(), "Call");
}
