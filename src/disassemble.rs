//! Renders a chunk as human-readable text, one line per instruction.

use crate::chunk::{Chunk, ChunkModel};
use crate::text::{
    decimal, pad_left, pad_right, push_char, push_decimal, push_padded_left, push_padded_right,
};
use crate::value::Line;
use vstd::prelude::*;
use vstd::string::StringExecFns;

verus! {

/// Marks an instruction that stands on the same source line as the one before it.
pub open spec fn same_line_marker() -> Seq<char> {
    "  |"@
}

/// The source line column of the instruction at `offset`: the line number,
/// or the marker where it repeats the previous instruction's line.
pub open spec fn line_label(lines: Seq<Line>, offset: int) -> Seq<char> {
    if offset == 0 || lines[offset] != lines[offset - 1] {
        decimal(lines[offset] as nat)
    } else {
        same_line_marker()
    }
}

/// The listing line of the instruction at `offset`: the offset in four
/// zero-padded digits, the line column right-aligned in four, the
/// instruction's text left-aligned in twenty, then `more`.
pub open spec fn instruction_line(c: ChunkModel, offset: int, more: Seq<char>) -> Seq<char> {
    pad_left(decimal(offset as nat), 4, '0') + seq![' '] + pad_left(line_label(c.lines, offset), 4, ' ')
        + seq![' '] + pad_right(c.instructions[offset].text(), 20) + seq![' '] + more + seq!['\n']
}

/// The bordered header that names a listing.
pub open spec fn header(name: Seq<char>) -> Seq<char> {
    "== "@ + name + " =="@ + seq!['\n']
}

/// The listing lines of the first `n` instructions, in order of offset.
pub open spec fn listing(c: ChunkModel, n: nat) -> Seq<char>
    decreases n,
{
    if n == 0 {
        Seq::empty()
    } else {
        listing(c, (n - 1) as nat) + instruction_line(c, n - 1, Seq::empty())
    }
}

/// The whole listing of a chunk under the given name.
pub open spec fn disassembly(c: ChunkModel, name: Seq<char>) -> Seq<char> {
    header(name) + listing(c, c.instructions.len())
}

/// Renders the header and then every instruction of `chunk`, in order of
/// offset.
pub fn disassamble(chunk: &Chunk, name: &str) -> (r: String)
    requires
        chunk@.wf(),
    ensures
        r@ == disassembly(chunk@, name@),
        chunk@.instructions.len() == 0 ==> r@ == header(name@),
{
    let mut out = String::from_str("== ");
    out.append(name);
    out.append(" ==");
    push_char(&mut out, '\n');
    let n = chunk.instructions().len();
    let mut offset: usize = 0;
    while offset < n
        invariant
            chunk@.wf(),
            n == chunk@.instructions.len(),
            offset <= n,
            out@ == header(name@) + listing(chunk@, offset as nat),
        decreases n - offset,
    {
        let line = disassamble_instruction(chunk, offset, "");
        proof {
            reveal_strlit("");
        }
        out.append(line.as_str());
        offset = offset + 1;
        assert(out@ =~= header(name@) + listing(chunk@, offset as nat));
    }
    assert(listing(chunk@, 0) =~= Seq::empty());
    out
}

/// Renders the instruction at `offset` as one listing line, followed by
/// the annotation `more`.
pub fn disassamble_instruction(chunk: &Chunk, offset: usize, more: &str) -> (r: String)
    requires
        chunk@.wf(),
        offset < chunk@.instructions.len(),
    ensures
        r@ == instruction_line(chunk@, offset as int, more@),
{
    let lines = chunk.instruction_lines();
    let label = if offset == 0 || lines[offset] != lines[offset - 1] {
        let mut s = String::new();
        push_decimal(&mut s, lines[offset] as u64);
        s
    } else {
        String::from_str("  |")
    };
    let op = chunk.instructions()[offset].to_string();
    let mut digits = String::new();
    push_decimal(&mut digits, offset as u64);

    let mut out = String::new();
    push_padded_left(&mut out, digits.as_str(), 4, '0');
    push_char(&mut out, ' ');
    push_padded_left(&mut out, label.as_str(), 4, ' ');
    push_char(&mut out, ' ');
    push_padded_right(&mut out, op.as_str(), 20);
    push_char(&mut out, ' ');
    out.append(more);
    push_char(&mut out, '\n');
    assert(out@ =~= instruction_line(chunk@, offset as int, more@));
    out
}

} // verus!
