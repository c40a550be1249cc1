//! The IR type model and its textual rendering, and typed operands.
use vstd::prelude::*;
use crate::text::dec_str;
use crate::text::u64_to_string;

verus! {

/// An IR value type. `Struct` carries its rendered literal body, such as
/// `{ i32, i32 }`; field types live in the tag table.
#[derive(Debug, PartialEq)]
pub enum IrType {
    I8,
    I32,
    F32,
    Pointer(Box<IrType>),
    Array(Box<IrType>, u32),
    Struct(String),
}

/// Mathematical view of an IR type.
pub enum IrTypeV {
    I8,
    I32,
    F32,
    Pointer(Box<IrTypeV>),
    Array(Box<IrTypeV>, u32),
    Struct(Seq<char>),
}

/// Mathematical view of an IR type, by structural recursion.
pub open spec fn ir_type_v(t: IrType) -> IrTypeV
    decreases t,
{
    match t {
        IrType::I8 => IrTypeV::I8,
        IrType::I32 => IrTypeV::I32,
        IrType::F32 => IrTypeV::F32,
        IrType::Pointer(b) => IrTypeV::Pointer(Box::new(ir_type_v(*b))),
        IrType::Array(b, n) => IrTypeV::Array(Box::new(ir_type_v(*b)), n),
        IrType::Struct(s) => IrTypeV::Struct(s@),
    }
}

impl View for IrType {
    type V = IrTypeV;

    open spec fn view(&self) -> IrTypeV {
        ir_type_v(*self)
    }
}

/// The textual form of an IR type.
pub open spec fn type_text(t: IrTypeV) -> Seq<char>
    decreases t,
{
    match t {
        IrTypeV::I8 => "i8"@,
        IrTypeV::I32 => "i32"@,
        IrTypeV::F32 => "float"@,
        IrTypeV::Pointer(b) => type_text(*b) + "*"@,
        IrTypeV::Array(b, n) => "["@ + dec_str(n as nat) + " x "@ + type_text(*b) + "]"@,
        IrTypeV::Struct(s) => s,
    }
}

impl IrType {
    /// Structural copy, proved equal to the original.
    pub fn dup(&self) -> (r: IrType)
        ensures
            r == *self,
        decreases self,
    {
        match self {
            IrType::I8 => IrType::I8,
            IrType::I32 => IrType::I32,
            IrType::F32 => IrType::F32,
            IrType::Pointer(b) => IrType::Pointer(Box::new((**b).dup())),
            IrType::Array(b, n) => IrType::Array(Box::new((**b).dup()), *n),
            IrType::Struct(s) => IrType::Struct(s.clone()),
        }
    }

    /// Renders the type as IR text.
    pub fn render(&self) -> (r: String)
        ensures
            r@ == type_text(self@),
        decreases self,
    {
        proof {
            reveal_strlit("i8");
            reveal_strlit("i32");
            reveal_strlit("float");
            reveal_strlit("*");
            reveal_strlit("[");
            reveal_strlit(" x ");
            reveal_strlit("]");
        }
        match self {
            IrType::I8 => String::from_str("i8"),
            IrType::I32 => String::from_str("i32"),
            IrType::F32 => String::from_str("float"),
            IrType::Pointer(b) => {
                let mut s = (**b).render();
                s.append("*");
                s
            },
            IrType::Array(b, n) => {
                let mut s = String::from_str("[");
                let d = u64_to_string(*n as u64);
                s.append(d.as_str());
                s.append(" x ");
                let inner = (**b).render();
                s.append(inner.as_str());
                s.append("]");
                s
            },
            IrType::Struct(body) => body.clone(),
        }
    }
}

/// A typed pointer operand: the text of the register or global that holds
/// the address, and the type pointed to.
#[derive(Debug, PartialEq)]
pub struct Ptr {
    pub op: String,
    pub ty: IrType,
}

/// Mathematical view of a typed pointer operand.
pub struct PtrV {
    pub op: Seq<char>,
    pub ty: IrTypeV,
}

impl View for Ptr {
    type V = PtrV;

    open spec fn view(&self) -> PtrV {
        PtrV { op: self.op@, ty: self.ty@ }
    }
}

impl Ptr {
    /// Structural copy, proved equal to the original.
    pub fn dup(&self) -> (r: Ptr)
        ensures
            r == *self,
    {
        Ptr { op: self.op.clone(), ty: self.ty.dup() }
    }
}

} // verus!
