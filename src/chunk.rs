//! Bytecode instructions and the chunk that holds them.

use crate::text::{decimal, push_char, push_decimal};
use crate::value::{Line, Value};
use vstd::prelude::*;
use vstd::string::StringExecFns;

verus! {

/// The index of a constant in a chunk's constant pool.
pub type ConstantIndex = u16;

/// One stack-machine operation, with at most one small inline operand.
#[derive(Debug, Clone, Copy, PartialEq, Eq, Structural, PartialOrd, Ord, Hash)]
pub enum Instruction {
    /// Marks the end of a function's execution.
    Return,
    /// Pushes a constant value onto the stack from the constant pool.
    Constant(ConstantIndex),
    /// Pushes a true value onto the stack.
    True,
    /// Pushes a false value onto the stack.
    False,
    // Integer arithmetic instructions.
    Neg,
    Add,
    Sub,
    Mul,
    Div,
    Mod,
    // Boolean arithmetic instructions.
    Not,
    And,
    Or,
    Xor,
    // String instructions.
    Concat,
    // Comparison instructions.
    Lt,
    Gt,
    Le,
    Ge,
    IntEq,
    IntNe,
    BoolEq,
    BoolNe,
    StringEq,
    StringNe,
    PtrEq,
    PtrNe,
    /// Drops a primitive value placed one before the last value on the stack.
    PrimitiveDropAbove,
    /// Drops a pointer value placed one before the uppermost value on the stack.
    PtrDropAbove,
    /// Pushes a primitive value onto the stack.
    PrimitiveGetLocal(u16),
    /// Pushes a pointer value onto the stack.
    PtrGetLocal(u16),
    /// Jumps the specified number of instructions forward unconditionally.
    Jump(u16),
    /// Jumps the specified number of instructions forward, if the value on the
    /// top of the stack it consumes is a false.
    JumpIfFalse(u16),
    /// Pops a value and function off the stack and calls it with the value.
    Call,
}

/// The text of an instruction that carries an operand: `name(operand)`.
pub open spec fn with_operand(name: Seq<char>, operand: u16) -> Seq<char> {
    name + seq!['('] + decimal(operand as nat) + seq![')']
}

impl Instruction {
    /// The canonical text of the instruction: its variant name, followed by
    /// the operand in parentheses where it has one.
    pub open spec fn text(self) -> Seq<char> {
        match self {
            Instruction::Return => "Return"@,
            Instruction::Constant(i) => with_operand("Constant"@, i),
            Instruction::True => "True"@,
            Instruction::False => "False"@,
            Instruction::Neg => "Neg"@,
            Instruction::Add => "Add"@,
            Instruction::Sub => "Sub"@,
            Instruction::Mul => "Mul"@,
            Instruction::Div => "Div"@,
            Instruction::Mod => "Mod"@,
            Instruction::Not => "Not"@,
            Instruction::And => "And"@,
            Instruction::Or => "Or"@,
            Instruction::Xor => "Xor"@,
            Instruction::Concat => "Concat"@,
            Instruction::Lt => "Lt"@,
            Instruction::Gt => "Gt"@,
            Instruction::Le => "Le"@,
            Instruction::Ge => "Ge"@,
            Instruction::IntEq => "IntEq"@,
            Instruction::IntNe => "IntNe"@,
            Instruction::BoolEq => "BoolEq"@,
            Instruction::BoolNe => "BoolNe"@,
            Instruction::StringEq => "StringEq"@,
            Instruction::StringNe => "StringNe"@,
            Instruction::PtrEq => "PtrEq"@,
            Instruction::PtrNe => "PtrNe"@,
            Instruction::PrimitiveDropAbove => "PrimitiveDropAbove"@,
            Instruction::PtrDropAbove => "PtrDropAbove"@,
            Instruction::PrimitiveGetLocal(n) => with_operand("PrimitiveGetLocal"@, n),
            Instruction::PtrGetLocal(n) => with_operand("PtrGetLocal"@, n),
            Instruction::Jump(n) => with_operand("Jump"@, n),
            Instruction::JumpIfFalse(n) => with_operand("JumpIfFalse"@, n),
            Instruction::Call => "Call"@,
        }
    }

    /// The same jump with its forward offset replaced by `n`; any other
    /// instruction is left as it is.
    pub open spec fn with_jump_offset(self, n: u16) -> Instruction {
        match self {
            Instruction::Jump(_) => Instruction::Jump(n),
            Instruction::JumpIfFalse(_) => Instruction::JumpIfFalse(n),
            _ => self,
        }
    }

    /// Renders the instruction as its canonical text.
    pub fn to_string(&self) -> (r: String)
        ensures
            r@ == self.text(),
    {
        match *self {
            Instruction::Return => String::from_str("Return"),
            Instruction::Constant(i) => operand_text("Constant", i),
            Instruction::True => String::from_str("True"),
            Instruction::False => String::from_str("False"),
            Instruction::Neg => String::from_str("Neg"),
            Instruction::Add => String::from_str("Add"),
            Instruction::Sub => String::from_str("Sub"),
            Instruction::Mul => String::from_str("Mul"),
            Instruction::Div => String::from_str("Div"),
            Instruction::Mod => String::from_str("Mod"),
            Instruction::Not => String::from_str("Not"),
            Instruction::And => String::from_str("And"),
            Instruction::Or => String::from_str("Or"),
            Instruction::Xor => String::from_str("Xor"),
            Instruction::Concat => String::from_str("Concat"),
            Instruction::Lt => String::from_str("Lt"),
            Instruction::Gt => String::from_str("Gt"),
            Instruction::Le => String::from_str("Le"),
            Instruction::Ge => String::from_str("Ge"),
            Instruction::IntEq => String::from_str("IntEq"),
            Instruction::IntNe => String::from_str("IntNe"),
            Instruction::BoolEq => String::from_str("BoolEq"),
            Instruction::BoolNe => String::from_str("BoolNe"),
            Instruction::StringEq => String::from_str("StringEq"),
            Instruction::StringNe => String::from_str("StringNe"),
            Instruction::PtrEq => String::from_str("PtrEq"),
            Instruction::PtrNe => String::from_str("PtrNe"),
            Instruction::PrimitiveDropAbove => String::from_str("PrimitiveDropAbove"),
            Instruction::PtrDropAbove => String::from_str("PtrDropAbove"),
            Instruction::PrimitiveGetLocal(n) => operand_text("PrimitiveGetLocal", n),
            Instruction::PtrGetLocal(n) => operand_text("PtrGetLocal", n),
            Instruction::Jump(n) => operand_text("Jump", n),
            Instruction::JumpIfFalse(n) => operand_text("JumpIfFalse", n),
            Instruction::Call => String::from_str("Call"),
        }
    }
}

fn operand_text(name: &str, operand: u16) -> (r: String)
    ensures
        r@ == with_operand(name@, operand),
{
    let mut s = String::from_str(name);
    push_char(&mut s, '(');
    push_decimal(&mut s, operand as u64);
    push_char(&mut s, ')');
    s
}

/// What a chunk holds, as mathematical values.
pub struct ChunkModel {
    pub instructions: Seq<Instruction>,
    pub lines: Seq<Line>,
    pub constants: Seq<Value>,
    pub name: Option<Seq<char>>,
}

impl ChunkModel {
    /// Every instruction has exactly one source line.
    pub open spec fn wf(self) -> bool {
        self.instructions.len() == self.lines.len()
    }

    /// A chunk ready for its readers: one line per instruction, every
    /// constant load within the pool, and every jump landing on an
    /// instruction of this chunk, counted from the instruction after it.
    pub open spec fn complete(self) -> bool {
        &&& self.wf()
        &&& self.constants.len() <= 65536
        &&& forall|i: int|
            0 <= i < self.instructions.len() ==> match #[trigger] self.instructions[i] {
                Instruction::Constant(k) => k < self.constants.len(),
                Instruction::Jump(n) => i + 1 + n < self.instructions.len(),
                Instruction::JumpIfFalse(n) => i + 1 + n < self.instructions.len(),
                _ => true,
            }
    }

    /// The same chunk with its instruction sequence replaced.
    pub open spec fn with_instructions(self, instructions: Seq<Instruction>) -> ChunkModel {
        ChunkModel { instructions, ..self }
    }
}

/// Backpatching the jump at offset `i` with the offset `n` (through
/// `Chunk::instructions_mut`) leaves a chunk whose instruction at `i` is the
/// same kind of jump with exactly the offset `n`, and in which every other
/// instruction, every line, every constant and the name are as before.
pub proof fn backpatch_replaces_only_the_offset(c: ChunkModel, i: int, n: u16)
    requires
        c.wf(),
        0 <= i < c.instructions.len(),
        c.instructions[i] is Jump || c.instructions[i] is JumpIfFalse,
    ensures
        ({
            let p = c.with_instructions(c.instructions.update(i, c.instructions[i].with_jump_offset(n)));
            &&& p.wf()
            &&& p.instructions.len() == c.instructions.len()
            &&& forall|j: int| 0 <= j < c.instructions.len() && j != i ==> p.instructions[j] == c.instructions[j]
            &&& p.lines == c.lines
            &&& p.constants == c.constants
            &&& p.name == c.name
            &&& match (c.instructions[i], p.instructions[i]) {
                (Instruction::Jump(_), Instruction::Jump(m)) => m == n,
                (Instruction::JumpIfFalse(_), Instruction::JumpIfFalse(m)) => m == n,
                _ => false,
            }
        }),
{
}

/// A sequence of bytecode instructions with their source lines, the constant
/// pool they refer to, and an optional name.
#[derive(Debug, Clone)]
pub struct Chunk {
    instructions: Vec<Instruction>,
    instruction_lines: Vec<Line>,
    constants: Vec<Value>,
    name: Option<String>,
}

impl View for Chunk {
    type V = ChunkModel;

    closed spec fn view(&self) -> ChunkModel {
        ChunkModel {
            instructions: self.instructions@,
            lines: self.instruction_lines@,
            constants: self.constants@,
            name: match self.name {
                Some(n) => Some(n@),
                None => None,
            },
        }
    }
}

impl Default for Chunk {
    fn default() -> (r: Chunk)
        ensures
            r@.instructions.len() == 0,
            r@.lines.len() == 0,
            r@.constants.len() == 0,
            r@.name.is_none(),
    {
        Chunk::new()
    }
}

impl Chunk {
    /// An anonymous chunk with no instructions and no constants.
    pub fn new() -> (r: Chunk)
        ensures
            r@.instructions.len() == 0,
            r@.lines.len() == 0,
            r@.constants.len() == 0,
            r@.name.is_none(),
            r@.wf(),
    {
        Chunk {
            instructions: Vec::new(),
            instruction_lines: Vec::new(),
            constants: Vec::new(),
            name: None,
        }
    }

    /// The chunk's name, if it has one.
    pub fn name(&self) -> (r: Option<&str>)
        ensures
            r.is_some() == self@.name.is_some(),
            r.is_some() ==> r.unwrap()@ == self@.name.unwrap(),
    {
        match &self.name {
            Some(n) => Some(n.as_str()),
            None => None,
        }
    }

    /// Mutable access to the chunk's name, if it has one.
    pub fn name_mut(&mut self) -> (r: Option<&mut String>)
        ensures
            r.is_some() == old(self)@.name.is_some(),
            r.is_none() ==> final(self)@ == old(self)@,
            r.is_some() ==> r.unwrap()@ == old(self)@.name.unwrap() && final(self)@ == (
            ChunkModel { name: Some(final(r.unwrap())@), ..old(self)@ }),
    {
        self.name.as_mut()
    }

    /// Appends an instruction together with the source line it came from.
    pub fn write(&mut self, op: Instruction, line: Line)
        ensures
            final(self)@.instructions == old(self)@.instructions.push(op),
            final(self)@.lines == old(self)@.lines.push(line),
            final(self)@.constants == old(self)@.constants,
            final(self)@.name == old(self)@.name,
            old(self)@.wf() ==> final(self)@.wf(),
    {
        self.instructions.push(op);
        self.instruction_lines.push(line);
    }

    /// Appends a value to the constant pool and returns its index, which is
    /// the number of constants that were there before.
    pub fn write_constant(&mut self, value: Value) -> (r: ConstantIndex)
        requires
            old(self)@.constants.len() < 65536,
        ensures
            r as int == old(self)@.constants.len(),
            final(self)@.constants == old(self)@.constants.push(value),
            final(self)@.instructions == old(self)@.instructions,
            final(self)@.lines == old(self)@.lines,
            final(self)@.name == old(self)@.name,
    {
        let index = self.constants.len() as ConstantIndex;
        self.constants.push(value);
        index
    }

    /// The instructions, in order of their offsets.
    pub fn instructions(&self) -> (r: &[Instruction])
        ensures
            r@ == self@.instructions,
    {
        self.instructions.as_slice()
    }

    /// Mutable access to the instructions, for patching jump offsets once
    /// their targets are known. Nothing else in the chunk changes through it.
    pub fn instructions_mut(&mut self) -> (r: &mut [Instruction])
        ensures
            r@ == old(self)@.instructions,
            final(self)@ == old(self)@.with_instructions(final(r)@),
    {
        self.instructions.as_mut_slice()
    }

    /// The source line of each instruction, by offset.
    pub fn instruction_lines(&self) -> (r: &[Line])
        ensures
            r@ == self@.lines,
    {
        self.instruction_lines.as_slice()
    }

    /// The constant pool, by index.
    pub fn constants(&self) -> (r: &[Value])
        ensures
            r@ == self@.constants,
    {
        self.constants.as_slice()
    }
}

} // verus!
