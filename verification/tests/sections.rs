use uasm_rs::{
    string_of_exports, Addr, Code, Data, Inst, Literal, Program, TypeName, VarDecl, VarName,
};

fn names(list: &[&str]) -> Vec<VarName> {
    list.iter().map(|name| VarName::new(name)).collect()
}

fn decl(name: &str, type_: &str, init: Literal) -> VarDecl {
    VarDecl { name: VarName::new(name), type_: TypeName::new(type_), init }
}

#[test]
fn export_line_without_exports_ends_in_a_blank() {
    assert_eq!(string_of_exports(&vec![]), "    .export ");
}

#[test]
fn export_line_with_one_export_has_no_separator() {
    assert_eq!(string_of_exports(&names(&["Name"])), "    .export Name");
}

#[test]
fn export_line_with_two_exports_has_a_leading_separator() {
    assert_eq!(string_of_exports(&names(&["A", "B"])), "    .export , A, B");
}

#[test]
fn export_line_with_many_exports() {
    assert_eq!(string_of_exports(&names(&["A", "B", "C"])), "    .export , A, B, C");
    assert_eq!(
        string_of_exports(&names(&["_start", "_update", "_onEnable", "_onDisable"])),
        "    .export , _start, _update, _onEnable, _onDisable"
    );
}

#[test]
fn empty_data_section() {
    let data = Data { exports: vec![], decls: vec![] };
    assert_eq!(data.to_uasm(), ".data_start\n    .export \n\n.data_end\n");
}

#[test]
fn empty_code_section() {
    let code = Code { exports: vec![], insts: vec![] };
    assert_eq!(code.to_uasm(), ".code_start\n    .export \n\n.code_end\n");
}

#[test]
fn data_section_with_several_declarations() {
    let data = Data {
        exports: names(&["a", "b"]),
        decls: vec![
            decl("a", "%SystemInt32", Literal::Null),
            decl("b", "%SystemString", Literal::Null),
            decl("self", "%UnityEngineGameObject", Literal::This),
        ],
    };
    assert_eq!(
        data.to_uasm(),
        ".data_start\n    .export , a, b\n\n    a: %SystemInt32, null\n    b: %SystemString, null\n    self: %UnityEngineGameObject, this\n.data_end\n"
    );
}

#[test]
fn code_section_with_every_instruction() {
    let code = Code {
        exports: names(&["_start"]),
        insts: vec![
            Inst::Label(VarName::new("_start")),
            Inst::Nop,
            Inst::Push(Addr::Var(VarName::new("a"))),
            Inst::Pop,
            Inst::JumpIfFalse(Addr::Immediate(0x2c)),
            Inst::Jump(Addr::Immediate(-4)),
            Inst::Extern("SystemConsole.__WriteLine__SystemVoid".to_string()),
            Inst::JumpIndirect(Addr::Var(VarName::new("ret"))),
            Inst::Copy,
        ],
    };
    assert_eq!(
        code.to_uasm(),
        ".code_start\n    .export _start\n\n    _start:\n        NOP\n        PUSH, a\n        POP\n        JUMP_IF_FALSE, 0x2C\n        JUMP, 0xFFFFFFFC\n        EXTERN, SystemConsole.__WriteLine__SystemVoid\n        JUMP_INDIRECT, ret\n        COPY\n.code_end\n"
    );
}

#[test]
fn exports_are_not_checked_against_members() {
    let data = Data {
        exports: names(&["missing"]),
        decls: vec![decl("present", "%T", Literal::Null)],
    };
    assert_eq!(
        data.to_uasm(),
        ".data_start\n    .export missing\n\n    present: %T, null\n.data_end\n"
    );
    let code = Code { exports: names(&["nowhere"]), insts: vec![Inst::Jump(Addr::Var(VarName::new("undefined")))] };
    assert_eq!(
        code.to_uasm(),
        ".code_start\n    .export nowhere\n\n        JUMP, undefined\n.code_end\n"
    );
}

#[test]
fn members_are_kept_in_order_and_repeated() {
    let code = Code {
        exports: vec![],
        insts: vec![Inst::Pop, Inst::Nop, Inst::Pop, Inst::Pop],
    };
    assert_eq!(
        code.to_uasm(),
        ".code_start\n    .export \n\n        POP\n        NOP\n        POP\n        POP\n.code_end\n"
    );
}

#[test]
fn program_is_data_then_blank_line_then_code() {
    let program = Program {
        data: Data { exports: names(&["x", "y"]), decls: vec![decl("x", "%A", Literal::This)] },
        code: Code { exports: names(&["f", "g"]), insts: vec![Inst::Label(VarName::new("f"))] },
    };
    let text = program.to_uasm();
    assert_eq!(text, format!("{}\n{}", program.data.to_uasm(), program.code.to_uasm()));
    assert_eq!(
        text,
        ".data_start\n    .export , x, y\n\n    x: %A, this\n.data_end\n\n.code_start\n    .export , f, g\n\n    f:\n.code_end\n"
    );
}

#[test]
fn rendering_twice_gives_the_same_text() {
    let program = Program {
        data: Data {
            exports: names(&["Target"]),
            decls: vec![decl("Target", "%UnityEngineTransform", Literal::This)],
        },
        code: Code {
            exports: names(&["_update"]),
            insts: vec![Inst::Label(VarName::new("_update")), Inst::Jump(Addr::Immediate(-1))],
        },
    };
    let first = program.to_uasm();
    let second = program.to_uasm();
    assert_eq!(first, second);
    assert_eq!(first.as_bytes(), second.as_bytes());
}

#[test]
fn equal_programs_give_the_same_text() {
    let build = || Program {
        data: Data { exports: names(&["a", "b", "c"]), decls: vec![decl("a", "%T", Literal::Null)] },
        code: Code { exports: vec![], insts: vec![Inst::Push(Addr::Immediate(i32::MIN))] },
    };
    assert_eq!(build().to_uasm(), build().to_uasm());
}

#[test]
fn line_count_of_a_listing() {
    let program = Program {
        data: Data {
            exports: vec![],
            decls: vec![decl("a", "%T", Literal::Null), decl("b", "%T", Literal::Null)],
        },
        code: Code { exports: vec![], insts: vec![Inst::Nop, Inst::Pop, Inst::Copy] },
    };
    let text = program.to_uasm();
    assert!(text.ends_with(".code_end\n"));
    assert_eq!(text.lines().count(), 9 + 2 + 3);
}
