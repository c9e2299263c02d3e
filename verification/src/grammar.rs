//! The text of a listing, defined on the model of the syntax tree.
//!
//! ```text
//! program      := data_section "\n" code_section
//! data_section := ".data_start\n" export_line "\n" block ".data_end\n"
//! code_section := ".code_start\n" export_line "\n" block ".code_end\n"
//! export_line  := "    .export " export_list
//! block        := ("\n" line)* "\n"
//! ```
//!
//! A line of a data block is a declaration, a line of a code block is an
//! instruction or a label.

use vstd::prelude::*;
use crate::hex::hex_upper;
use crate::syntax::{AddrView, CodeView, DataView, InstView, Literal, ProgramView, VarDeclView};

verus! {

/// Every item of `items` with `lead` in front of it, in one text.
pub open spec fn each_led_by(lead: Seq<char>, items: Seq<Seq<char>>) -> Seq<char> {
    items.map_values(|item: Seq<char>| lead + item).flatten()
}

/// The unsigned number with the same 32 bits as `value` in two's complement.
pub open spec fn bit_pattern(value: i32) -> nat {
    if value >= 0 {
        value as nat
    } else {
        (value + 0x1_0000_0000) as nat
    }
}

/// The token of a literal.
pub open spec fn literal_text(literal: Literal) -> Seq<char> {
    match literal {
        Literal::Null => "null"@,
        Literal::This => "this"@,
    }
}

/// The token of an operand: a name as it is, an offset as `0x` and the
/// uppercase hexadecimal numeral of its bit pattern. A negative offset has
/// no sign: it shows as the unsigned pattern.
pub open spec fn addr_text(addr: AddrView) -> Seq<char> {
    match addr {
        AddrView::Var(name) => name,
        AddrView::Immediate(offset) => "0x"@ + hex_upper(bit_pattern(offset)),
    }
}

/// The line of an instruction. An operation is indented by eight columns,
/// a label by four.
pub open spec fn inst_text(inst: InstView) -> Seq<char> {
    match inst {
        InstView::Nop => "        NOP"@,
        InstView::Push(addr) => "        PUSH, "@ + addr_text(addr),
        InstView::Pop => "        POP"@,
        InstView::JumpIfFalse(addr) => "        JUMP_IF_FALSE, "@ + addr_text(addr),
        InstView::Jump(addr) => "        JUMP, "@ + addr_text(addr),
        InstView::Extern(symbol) => "        EXTERN, "@ + symbol,
        InstView::JumpIndirect(addr) => "        JUMP_INDIRECT, "@ + addr_text(addr),
        InstView::Copy => "        COPY"@,
        InstView::Label(name) => "    "@ + name + ":"@,
    }
}

/// The line of a declaration: `    name: type, literal`.
pub open spec fn decl_text(decl: VarDeclView) -> Seq<char> {
    "    "@ + decl.name + ": "@ + decl.type_ + ", "@ + literal_text(decl.init)
}

/// The exported names in one text: nothing for no name, the name alone for
/// one, and for two or more every name, the first too, led by `", "`.
pub open spec fn export_list(names: Seq<Seq<char>>) -> Seq<char> {
    if names.len() == 0 {
        Seq::empty()
    } else if names.len() == 1 {
        names[0]
    } else {
        each_led_by(", "@, names)
    }
}

/// The line that names the exports of a section.
pub open spec fn export_line(names: Seq<Seq<char>>) -> Seq<char> {
    "    .export "@ + export_list(names)
}

/// The body of a section: every line led by a line break, and a line break
/// at the end. So a blank line always follows the export line.
pub open spec fn block_text(lines: Seq<Seq<char>>) -> Seq<char> {
    each_led_by("\n"@, lines) + "\n"@
}

/// The lines of the declarations, in their order.
pub open spec fn decl_lines(decls: Seq<VarDeclView>) -> Seq<Seq<char>> {
    decls.map_values(|decl: VarDeclView| decl_text(decl))
}

/// The lines of the instructions, in their order.
pub open spec fn inst_lines(insts: Seq<InstView>) -> Seq<Seq<char>> {
    insts.map_values(|inst: InstView| inst_text(inst))
}

/// The data section of a listing.
pub open spec fn data_text(data: DataView) -> Seq<char> {
    ".data_start\n"@ + export_line(data.exports) + "\n"@ + block_text(decl_lines(data.decls))
        + ".data_end\n"@
}

/// The code section of a listing.
pub open spec fn code_text(code: CodeView) -> Seq<char> {
    ".code_start\n"@ + export_line(code.exports) + "\n"@ + block_text(inst_lines(code.insts))
        + ".code_end\n"@
}

/// The listing of a program: the data section, a blank line, the code
/// section.
pub open spec fn program_text(program: ProgramView) -> Seq<char> {
    data_text(program.data) + "\n"@ + code_text(program.code)
}

} // verus!
