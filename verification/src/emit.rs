//! Writing the listing of a syntax tree.
//!
//! Every `to_uasm` returns exactly the text that [`crate::grammar`] defines
//! for the model of its value.

use vstd::prelude::*;
use crate::grammar::{
    addr_text, bit_pattern, code_text, data_text, decl_lines, decl_text, each_led_by, export_line,
    inst_lines, inst_text, literal_text, program_text,
};
use crate::hex::push_hex_upper;
use crate::laws::lemma_each_led_by_next;
use crate::syntax::{
    decls_view, insts_view, names_view, Addr, Code, Data, Inst, Literal, Program, VarDecl, VarName,
};

verus! {

/// The line that names the exports of a section.
pub fn string_of_exports(exports: &Vec<VarName>) -> (line: String)
    ensures
        line@ == export_line(names_view(exports@)),
{
    let mut line = String::from_str("    .export ");
    if exports.len() == 1 {
        line.append(exports[0].0.as_str());
    } else if exports.len() >= 2 {
        let mut i: usize = 0;
        while i < exports.len()
            invariant
                i <= exports.len(),
                line@ == "    .export "@ + each_led_by(", "@, names_view(exports@).take(i as int)),
            decreases exports.len() - i,
        {
            line.append(", ");
            line.append(exports[i].0.as_str());
            proof {
                lemma_each_led_by_next(", "@, names_view(exports@), i as int);
            }
            i += 1;
        }
        assert(names_view(exports@).take(i as int) =~= names_view(exports@));
    }
    line
}

/// The 32 bits of `value`, read as an unsigned number.
fn bits_of(value: i32) -> (bits: u32)
    ensures
        bits == bit_pattern(value),
{
    let bits = #[verifier::truncate] (value as u32);
    assert(bits == if value >= 0 {
        value as int
    } else {
        value + 0x1_0000_0000
    }) by (bit_vector)
        requires
            bits == value as u32,
    ;
    bits
}

impl Literal {
    /// The token of the literal.
    pub fn to_uasm(&self) -> (text: String)
        ensures
            text@ == literal_text(*self),
    {
        match self {
            Literal::Null => String::from_str("null"),
            Literal::This => String::from_str("this"),
        }
    }
}

impl Addr {
    /// The token of the operand.
    pub fn to_uasm(&self) -> (text: String)
        ensures
            text@ == addr_text(self@),
    {
        match self {
            Addr::Var(name) => name.0.clone(),
            Addr::Immediate(offset) => {
                let mut text = String::from_str("0x");
                push_hex_upper(&mut text, bits_of(*offset));
                text
            },
        }
    }
}

impl Inst {
    /// The line of the instruction.
    pub fn to_uasm(&self) -> (text: String)
        ensures
            text@ == inst_text(self@),
    {
        match self {
            Inst::Nop => String::from_str("        NOP"),
            Inst::Push(addr) => String::from_str("        PUSH, ").concat(addr.to_uasm().as_str()),
            Inst::Pop => String::from_str("        POP"),
            Inst::JumpIfFalse(addr) => String::from_str("        JUMP_IF_FALSE, ").concat(
                addr.to_uasm().as_str(),
            ),
            Inst::Jump(addr) => String::from_str("        JUMP, ").concat(addr.to_uasm().as_str()),
            Inst::Extern(symbol) => String::from_str("        EXTERN, ").concat(symbol.as_str()),
            Inst::JumpIndirect(addr) => String::from_str("        JUMP_INDIRECT, ").concat(
                addr.to_uasm().as_str(),
            ),
            Inst::Copy => String::from_str("        COPY"),
            Inst::Label(name) => String::from_str("    ").concat(name.0.as_str()).concat(":"),
        }
    }
}

impl VarDecl {
    /// The line of the declaration.
    pub fn to_uasm(&self) -> (text: String)
        ensures
            text@ == decl_text(self@),
    {
        let mut text = String::from_str("    ");
        text.append(self.name.0.as_str());
        text.append(": ");
        text.append(self.type_.0.as_str());
        text.append(", ");
        text.append(self.init.to_uasm().as_str());
        text
    }
}

impl Data {
    /// The data section of the listing.
    pub fn to_uasm(&self) -> (text: String)
        ensures
            text@ == data_text(self@),
    {
        let ghost lines = decl_lines(decls_view(self.decls@));
        let mut text = String::from_str(".data_start\n");
        text.append(string_of_exports(&self.exports).as_str());
        text.append("\n");
        let ghost head = text@;
        let mut i: usize = 0;
        while i < self.decls.len()
            invariant
                i <= self.decls.len(),
                lines == decl_lines(decls_view(self.decls@)),
                text@ == head + each_led_by("\n"@, lines.take(i as int)),
            decreases self.decls.len() - i,
        {
            text.append("\n");
            text.append(self.decls[i].to_uasm().as_str());
            proof {
                lemma_each_led_by_next("\n"@, lines, i as int);
            }
            i += 1;
        }
        assert(lines.take(i as int) =~= lines);
        text.append("\n");
        text.append(".data_end\n");
        text
    }
}

impl Code {
    /// The code section of the listing.
    pub fn to_uasm(&self) -> (text: String)
        ensures
            text@ == code_text(self@),
    {
        let ghost lines = inst_lines(insts_view(self.insts@));
        let mut text = String::from_str(".code_start\n");
        text.append(string_of_exports(&self.exports).as_str());
        text.append("\n");
        let ghost head = text@;
        let mut i: usize = 0;
        while i < self.insts.len()
            invariant
                i <= self.insts.len(),
                lines == inst_lines(insts_view(self.insts@)),
                text@ == head + each_led_by("\n"@, lines.take(i as int)),
            decreases self.insts.len() - i,
        {
            text.append("\n");
            text.append(self.insts[i].to_uasm().as_str());
            proof {
                lemma_each_led_by_next("\n"@, lines, i as int);
            }
            i += 1;
        }
        assert(lines.take(i as int) =~= lines);
        text.append("\n");
        text.append(".code_end\n");
        text
    }
}

impl Program {
    /// The listing of the program.
    pub fn to_uasm(&self) -> (text: String)
        ensures
            text@ == program_text(self@),
    {
        let mut text = self.data.to_uasm();
        text.append("\n");
        text.append(self.code.to_uasm().as_str());
        text
    }
}

} // verus!
