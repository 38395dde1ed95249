use nessie::chunk::{Chunk, Instruction};
use nessie::disassemble::{disassamble, disassamble_instruction};

/// Trim the end of each line of the given string.
fn trim_line_ends(s: &str) -> String {
    s.lines().map(|line| line.trim_end()).collect::<Vec<_>>().join("\n")
        + (if s.ends_with('\n') { "\n" } else { "" })
}

#[test]
fn test_disassamble() {
    let mut chunk = Chunk::new();
    chunk.write(Instruction::Return, 123);
    chunk.write(Instruction::Constant(0), 123);

    let out = disassamble(&chunk, "test");
    let out = trim_line_ends(&out);

    assert_eq!(out, "== test ==\n0000  123 Return\n0001    | Constant(0)\n");
}

#[test]
fn repeated_line_shows_marker() {
    let mut chunk = Chunk::new();
    chunk.write(Instruction::True, 123);
    chunk.write(Instruction::Not, 123);
    let out = disassamble(&chunk, "lines");
    let lines: Vec<&str> = out.lines().collect();
    assert_eq!(lines.len(), 3);
    assert_eq!(lines[1], "0000  123 True                 ");
    assert_eq!(lines[2], "0001    | Not                  ");
}

#[test]
fn empty_chunk_gives_header_only() {
    let chunk = Chunk::new();
    assert_eq!(disassamble(&chunk, "empty"), "== empty ==\n");
}

#[test]
fn changed_line_is_printed_again() {
    let mut chunk = Chunk::new();
    chunk.write(Instruction::Constant(3), 1);
    chunk.write(Instruction::Neg, 1);
    chunk.write(Instruction::Return, 2);
    chunk.write(Instruction::Return, 1);
    assert_eq!(
        trim_line_ends(&disassamble(&chunk, "f")),
        "== f ==\n0000    1 Constant(3)\n0001    | Neg\n0002    2 Return\n0003    1 Return\n"
    );
}

#[test]
fn instruction_line_with_annotation() {
    let mut chunk = Chunk::new();
    chunk.write(Instruction::Add, 7);
    chunk.write(Instruction::Add, 7);
    assert_eq!(
        disassamble_instruction(&chunk, 1, "[sp=3]"),
        "0001    | Add                  [sp=3]\n"
    );
    assert_eq!(
        disassamble_instruction(&chunk, 0, ""),
        "0000    7 Add                  \n"
    );
}

#[test]
fn long_fields_are_not_cut() {
    let mut chunk = Chunk::new();
    for i in 0..10001u32 {
        chunk.write(Instruction::PrimitiveGetLocal(65535), 12345 + i / 10000);
    }
    assert_eq!(
        disassamble_instruction(&chunk, 10000, ""),
        "10000 12346 PrimitiveGetLocal(65535) \n"
    );
    assert_eq!(
        disassamble_instruction(&chunk, 9999, "x"),
        "9999    | PrimitiveGetLocal(65535) x\n"
    );
}
