//! The syntax tree of a program and its mathematical model.
//!
//! Every type of the tree has a view in which names are sequences of
//! characters and lists are sequences. The listing of a program is defined on
//! the views alone.

use vstd::prelude::*;

verus! {

/// The name of a variable or of a label. The characters are taken as they
/// are: nothing checks that they form a token the assembler accepts.
#[derive(Debug)]
pub struct VarName(pub String);

/// The name of a type, taken as it is.
#[derive(Debug)]
pub struct TypeName(pub String);

/// The constant a variable starts with.
#[derive(Debug)]
pub enum Literal {
    Null,
    This,
}

/// An expression: the value of a variable. No listing holds an expression.
#[derive(Debug)]
pub enum Expr {
    Var(VarName),
}

/// An operand: a named location or an absolute offset.
#[derive(Debug)]
pub enum Addr {
    Var(VarName),
    Immediate(i32),
}

/// One operation of the instruction stream, or a label in it.
#[derive(Debug)]
pub enum Inst {
    Nop,
    Push(Addr),
    Pop,
    JumpIfFalse(Addr),
    Jump(Addr),
    Extern(String),
    JumpIndirect(Addr),
    Copy,
    Label(VarName),
}

/// One entry of the data section.
#[derive(Debug)]
pub struct VarDecl {
    pub name: VarName,
    pub type_: TypeName,
    pub init: Literal,
}

/// The table of global variables. The exported names and the declarations
/// are independent lists.
#[derive(Debug)]
pub struct Data {
    pub exports: Vec<VarName>,
    pub decls: Vec<VarDecl>,
}

/// The instruction stream. The exported names and the instructions are
/// independent lists.
#[derive(Debug)]
pub struct Code {
    pub exports: Vec<VarName>,
    pub insts: Vec<Inst>,
}

/// A whole program: its data section and its code section.
#[derive(Debug)]
pub struct Program {
    pub data: Data,
    pub code: Code,
}

/// Model of [`Expr`].
pub enum ExprView {
    Var(Seq<char>),
}

/// Model of [`Addr`].
pub enum AddrView {
    Var(Seq<char>),
    Immediate(i32),
}

/// Model of [`Inst`].
pub enum InstView {
    Nop,
    Push(AddrView),
    Pop,
    JumpIfFalse(AddrView),
    Jump(AddrView),
    Extern(Seq<char>),
    JumpIndirect(AddrView),
    Copy,
    Label(Seq<char>),
}

/// Model of [`VarDecl`].
pub struct VarDeclView {
    pub name: Seq<char>,
    pub type_: Seq<char>,
    pub init: Literal,
}

/// Model of [`Data`].
pub struct DataView {
    pub exports: Seq<Seq<char>>,
    pub decls: Seq<VarDeclView>,
}

/// Model of [`Code`].
pub struct CodeView {
    pub exports: Seq<Seq<char>>,
    pub insts: Seq<InstView>,
}

/// Model of [`Program`].
pub struct ProgramView {
    pub data: DataView,
    pub code: CodeView,
}

impl View for VarName {
    type V = Seq<char>;

    open spec fn view(&self) -> Seq<char> {
        self.0@
    }
}

impl View for TypeName {
    type V = Seq<char>;

    open spec fn view(&self) -> Seq<char> {
        self.0@
    }
}

impl View for Expr {
    type V = ExprView;

    open spec fn view(&self) -> ExprView {
        match self {
            Expr::Var(name) => ExprView::Var(name@),
        }
    }
}

impl View for Addr {
    type V = AddrView;

    open spec fn view(&self) -> AddrView {
        match self {
            Addr::Var(name) => AddrView::Var(name@),
            Addr::Immediate(offset) => AddrView::Immediate(*offset),
        }
    }
}

impl View for Inst {
    type V = InstView;

    open spec fn view(&self) -> InstView {
        match self {
            Inst::Nop => InstView::Nop,
            Inst::Push(addr) => InstView::Push(addr@),
            Inst::Pop => InstView::Pop,
            Inst::JumpIfFalse(addr) => InstView::JumpIfFalse(addr@),
            Inst::Jump(addr) => InstView::Jump(addr@),
            Inst::Extern(symbol) => InstView::Extern(symbol@),
            Inst::JumpIndirect(addr) => InstView::JumpIndirect(addr@),
            Inst::Copy => InstView::Copy,
            Inst::Label(name) => InstView::Label(name@),
        }
    }
}

impl View for VarDecl {
    type V = VarDeclView;

    open spec fn view(&self) -> VarDeclView {
        VarDeclView { name: self.name@, type_: self.type_@, init: self.init }
    }
}

impl View for Data {
    type V = DataView;

    open spec fn view(&self) -> DataView {
        DataView { exports: names_view(self.exports@), decls: decls_view(self.decls@) }
    }
}

impl View for Code {
    type V = CodeView;

    open spec fn view(&self) -> CodeView {
        CodeView { exports: names_view(self.exports@), insts: insts_view(self.insts@) }
    }
}

impl View for Program {
    type V = ProgramView;

    open spec fn view(&self) -> ProgramView {
        ProgramView { data: self.data@, code: self.code@ }
    }
}

/// The names of a list, in its order.
pub open spec fn names_view(names: Seq<VarName>) -> Seq<Seq<char>> {
    names.map_values(|name: VarName| name@)
}

/// The declarations of a list, in its order.
pub open spec fn decls_view(decls: Seq<VarDecl>) -> Seq<VarDeclView> {
    decls.map_values(|decl: VarDecl| decl@)
}

/// The instructions of a list, in its order.
pub open spec fn insts_view(insts: Seq<Inst>) -> Seq<InstView> {
    insts.map_values(|inst: Inst| inst@)
}

impl VarName {
    /// The name with the characters of `name`.
    pub fn new(name: &str) -> (made: Self)
        ensures
            made@ == name@,
    {
        VarName(name.to_string())
    }
}

impl TypeName {
    /// The type name with the characters of `name`.
    pub fn new(name: &str) -> (made: Self)
        ensures
            made@ == name@,
    {
        TypeName(name.to_string())
    }
}

} // verus!
