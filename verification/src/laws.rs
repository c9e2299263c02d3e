//! What holds of every listing.

use vstd::prelude::*;
use crate::grammar::{
    addr_text, bit_pattern, block_text, code_text, data_text, decl_text, each_led_by, export_line,
    inst_text, literal_text, program_text,
};
use crate::hex::{hex_upper, is_hex_upper_char, lemma_hex_upper_chars, lemma_hex_upper_len_u32};
use crate::syntax::{AddrView, CodeView, DataView, InstView, Literal, Program, VarDeclView};

verus! {

/// Nothing led by anything is the empty text.
pub proof fn lemma_each_led_by_none(lead: Seq<char>)
    ensures
        each_led_by(lead, Seq::empty()) == Seq::<char>::empty(),
{
}

/// Taking one more item adds its lead and the item at the end of the text.
pub proof fn lemma_each_led_by_next(lead: Seq<char>, items: Seq<Seq<char>>, n: int)
    requires
        0 <= n < items.len(),
    ensures
        each_led_by(lead, items.take(n + 1)) == each_led_by(lead, items.take(n)) + lead + items[n],
{
    let led = |item: Seq<char>| lead + item;
    assert(items.take(n + 1).map_values(led) =~= items.take(n).map_values(led).push(
        lead + items[n],
    ));
    items.take(n).map_values(led).lemma_flatten_push(lead + items[n]);
}

/// The text starts with the lead and the first item; the other items follow
/// in the same way.
pub proof fn lemma_each_led_by_first(lead: Seq<char>, items: Seq<Seq<char>>)
    requires
        items.len() >= 1,
    ensures
        each_led_by(lead, items) == lead + items[0] + each_led_by(lead, items.drop_first()),
{
    let led = |item: Seq<char>| lead + item;
    assert(items.map_values(led).drop_first() =~= items.drop_first().map_values(led));
}

/// Two programs with the same model have the same listing: the listing
/// depends on nothing but the names, literals, offsets and their order.
pub proof fn lemma_same_model_same_listing(p: Program, q: Program)
    requires
        p@ == q@,
    ensures
        program_text(p@) == program_text(q@),
{
}

/// With no export the export line ends after the blank that follows `.export`.
pub proof fn lemma_no_export()
    ensures
        export_line(Seq::empty()) == "    .export "@,
{
}

/// A single export stands alone on the export line, with no separator.
pub proof fn lemma_single_export(name: Seq<char>)
    ensures
        export_line(seq![name]) == "    .export "@ + name,
{
}

/// With two or more exports a separator stands before every name, the first
/// too.
pub proof fn lemma_many_exports(names: Seq<Seq<char>>)
    requires
        names.len() >= 2,
    ensures
        export_line(names) == "    .export "@ + ", "@ + names[0] + each_led_by(
            ", "@,
            names.drop_first(),
        ),
{
    lemma_each_led_by_first(", "@, names);
}

/// The export line of exactly two names.
pub proof fn lemma_two_exports(first: Seq<char>, second: Seq<char>)
    ensures
        export_line(seq![first, second]) == "    .export "@ + ", "@ + first + ", "@ + second,
{
    let names = seq![first, second];
    lemma_each_led_by_first(", "@, names);
    lemma_each_led_by_first(", "@, names.drop_first());
}

/// A section without members has one blank line for its body.
pub proof fn lemma_empty_block()
    ensures
        block_text(Seq::empty()) == "\n"@,
{
}

/// A data section with neither exports nor declarations is its start
/// marker, the bare export line, one blank line and its end marker.
pub proof fn lemma_empty_data_section(data: DataView)
    requires
        data.exports.len() == 0,
        data.decls.len() == 0,
    ensures
        data_text(data) == ".data_start\n"@ + "    .export "@ + "\n"@ + "\n"@ + ".data_end\n"@,
{
}

/// A code section with neither exports nor instructions is its start
/// marker, the bare export line, one blank line and its end marker.
pub proof fn lemma_empty_code_section(code: CodeView)
    requires
        code.exports.len() == 0,
        code.insts.len() == 0,
    ensures
        code_text(code) == ".code_start\n"@ + "    .export "@ + "\n"@ + "\n"@ + ".code_end\n"@,
{
}

/// The pattern of an offset is a 32-bit number that differs from the offset
/// by nothing or by two to the power 32.
pub proof fn lemma_bit_pattern(offset: i32)
    ensures
        bit_pattern(offset) <= u32::MAX,
        offset >= 0 ==> bit_pattern(offset) == offset,
        offset < 0 ==> bit_pattern(offset) == offset + 0x1_0000_0000,
        bit_pattern(offset) == (offset as u32),
{
    assert(offset as u32 == if offset >= 0 {
        offset as int
    } else {
        offset + 0x1_0000_0000
    }) by (bit_vector);
}

/// An offset shows as `0x` and one to eight uppercase hexadecimal
/// characters, whatever its sign.
pub proof fn lemma_offset_text(offset: i32)
    ensures
        addr_text(AddrView::Immediate(offset)) == "0x"@ + hex_upper(bit_pattern(offset)),
        1 <= hex_upper(bit_pattern(offset)).len() <= 8,
        forall|i: int|
            0 <= i < hex_upper(bit_pattern(offset)).len() ==> is_hex_upper_char(
                #[trigger] hex_upper(bit_pattern(offset))[i],
            ),
{
    lemma_bit_pattern(offset);
    lemma_hex_upper_len_u32(bit_pattern(offset) as u32);
    lemma_hex_upper_chars(bit_pattern(offset));
}

/// Whether a text has no line break in it.
pub open spec fn one_line(text: Seq<char>) -> bool {
    forall|i: int| 0 <= i < text.len() ==> text[i] != '\n'
}

/// Whether the name in an operand, if it has one, has no line break.
pub open spec fn addr_names_one_line(addr: AddrView) -> bool {
    match addr {
        AddrView::Var(name) => one_line(name),
        AddrView::Immediate(_) => true,
    }
}

/// Whether the name or the operand of an instruction, if it has one, has no
/// line break.
pub open spec fn inst_names_one_line(inst: InstView) -> bool {
    match inst {
        InstView::Push(addr) => addr_names_one_line(addr),
        InstView::JumpIfFalse(addr) => addr_names_one_line(addr),
        InstView::Jump(addr) => addr_names_one_line(addr),
        InstView::JumpIndirect(addr) => addr_names_one_line(addr),
        InstView::Extern(symbol) => one_line(symbol),
        InstView::Label(name) => one_line(name),
        InstView::Nop => true,
        InstView::Pop => true,
        InstView::Copy => true,
    }
}

/// The token of a literal has no line break.
pub proof fn lemma_literal_one_line(literal: Literal)
    ensures
        one_line(literal_text(literal)),
{
    reveal_strlit("null");
    reveal_strlit("this");
}

/// The token of an operand has no line break unless its name has one.
pub proof fn lemma_addr_one_line(addr: AddrView)
    requires
        addr_names_one_line(addr),
    ensures
        one_line(addr_text(addr)),
{
    match addr {
        AddrView::Var(_) => {},
        AddrView::Immediate(offset) => {
            reveal_strlit("0x");
            lemma_hex_upper_chars(bit_pattern(offset));
        },
    }
}

/// Every instruction takes exactly one line, unless a name in it has a line
/// break of its own.
pub proof fn lemma_inst_one_line(inst: InstView)
    requires
        inst_names_one_line(inst),
    ensures
        one_line(inst_text(inst)),
{
    reveal_strlit("        NOP");
    reveal_strlit("        PUSH, ");
    reveal_strlit("        POP");
    reveal_strlit("        JUMP_IF_FALSE, ");
    reveal_strlit("        JUMP, ");
    reveal_strlit("        EXTERN, ");
    reveal_strlit("        JUMP_INDIRECT, ");
    reveal_strlit("        COPY");
    reveal_strlit("    ");
    reveal_strlit(":");
    match inst {
        InstView::Push(addr) => lemma_addr_one_line(addr),
        InstView::JumpIfFalse(addr) => lemma_addr_one_line(addr),
        InstView::Jump(addr) => lemma_addr_one_line(addr),
        InstView::JumpIndirect(addr) => lemma_addr_one_line(addr),
        _ => {},
    }
}

/// Every declaration takes exactly one line, unless one of its names has a
/// line break of its own.
pub proof fn lemma_decl_one_line(decl: VarDeclView)
    requires
        one_line(decl.name),
        one_line(decl.type_),
    ensures
        one_line(decl_text(decl)),
{
    reveal_strlit("    ");
    reveal_strlit(": ");
    reveal_strlit(", ");
    lemma_literal_one_line(decl.init);
}

} // verus!
