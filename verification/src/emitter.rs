//! Lowerer: walks the AST and builds a textual SSA module. Expressions
//! uniformly yield a pointer to a stack slot; control flow is built from
//! explicit basic blocks with a compare-with-zero convention, branching to
//! the exit block when the condition is zero.
use vstd::prelude::*;
use crate::environment::Environment;
use crate::environment::Other;
use crate::environment::Scope;
use crate::environment::Struct;
use crate::environment::Tag;
use crate::error::CompileError;
use crate::error::ErrV;
use crate::expression::ExpressionNode;
use crate::ir::IrType;
use crate::ir::IrTypeV;
use crate::ir::PtrV;
use crate::ir::type_text;
use crate::ir::Ptr;
use crate::parser::DeclareNode;
use crate::parser::DeclareStatementNode;
use crate::parser::DeclareVariableNode;
use crate::parser::EnumStatementNode;
use crate::parser::FunctionNode;
use crate::parser::ProgramNode;
use crate::parser::StatementNode;
use crate::parser::StructStatementNode;
use crate::text::str_eq;
use crate::text::u64_to_string;
use crate::token::BasicType;
use crate::token::Operator;
use crate::token::TokenV;
use crate::token::PrefixOp;
use crate::token::SuffixOp;
use crate::token::Token;

verus! {

/// What a lowered statement did to control flow: fell through, or
/// terminated its block with a return, break or continue.
#[derive(Debug, PartialEq, Eq, Structural, Clone, Copy)]
pub enum Control {
    Continue,
    Break,
}

/// The branch targets a `break` or `continue` may use: the innermost
/// enclosing loop's exit and step/compare blocks.
#[derive(Debug, PartialEq, Eq, Structural, Clone, Copy)]
pub struct NextBlock {
    pub continue_block: Option<u64>,
    pub break_block: Option<u64>,
}

/// A function symbol: return type, parameter types, variadic flag.
#[derive(Debug, PartialEq)]
pub struct FnInfo {
    pub name: String,
    pub ret: IrType,
    pub params: Vec<IrType>,
    pub var_args: bool,
}

/// A basic block under construction: its label id, instruction lines, and
/// its terminator once one was set. The first terminator wins; later ones
/// are dropped, as a block transfers control exactly once.
#[derive(Debug, PartialEq)]
pub struct Block {
    pub id: u64,
    pub insts: Vec<String>,
    pub term: Option<String>,
}

/// The lowerer's state: the environment, the function symbol table, the
/// module-level lines, the finished functions, and the function under
/// construction.
#[derive(Debug, PartialEq)]
pub struct Emitter {
    pub env: Environment,
    pub funs: Vec<FnInfo>,
    pub decls: Vec<String>,
    pub out_funcs: Vec<String>,
    pub blocks: Vec<Block>,
    pub cur: usize,
    pub next_reg: u64,
    pub next_label: u64,
    pub next_str: u64,
    pub cur_ret: IrType,
}

/// Mathematical view of a block under construction.
pub struct BlockV {
    pub id: u64,
    pub insts: Seq<Seq<char>>,
    pub term: Option<Seq<char>>,
}

/// Mathematical view of a function symbol.
pub struct FnInfoV {
    pub name: Seq<char>,
    pub ret: IrTypeV,
    pub params: Seq<IrTypeV>,
    pub var_args: bool,
}

/// Mathematical view of the lowerer's whole state.
pub struct EmitterV {
    pub env: Seq<crate::environment::ScopeV>,
    pub funs: Seq<FnInfoV>,
    pub decls: Seq<Seq<char>>,
    pub out_funcs: Seq<Seq<char>>,
    pub blocks: Seq<BlockV>,
    pub cur: int,
    pub next_reg: u64,
    pub next_label: u64,
    pub next_str: u64,
    pub cur_ret: IrTypeV,
}

/// View of a string sequence.
pub open spec fn strings_v(ss: Seq<String>) -> Seq<Seq<char>> {
    ss.map_values(|s: String| s@)
}

/// View of a block sequence.
pub open spec fn blocks_v(bs: Seq<Block>) -> Seq<BlockV> {
    bs.map_values(|b: Block| b@)
}

/// View of a symbol-table sequence.
pub open spec fn funs_v(fs: Seq<FnInfo>) -> Seq<FnInfoV> {
    fs.map_values(|f: FnInfo| f@)
}

/// View of the types a symbol's parameter list holds.
pub open spec fn types_v(ts: Seq<IrType>) -> Seq<IrTypeV> {
    ts.map_values(|t: IrType| t@)
}

impl View for Block {
    type V = BlockV;

    open spec fn view(&self) -> BlockV {
        BlockV {
            id: self.id,
            insts: strings_v(self.insts@),
            term: match self.term {
                Some(t) => Some(t@),
                None => None,
            },
        }
    }
}

impl View for FnInfo {
    type V = FnInfoV;

    open spec fn view(&self) -> FnInfoV {
        FnInfoV {
            name: self.name@,
            ret: self.ret@,
            params: types_v(self.params@),
            var_args: self.var_args,
        }
    }
}

impl View for Emitter {
    type V = EmitterV;

    open spec fn view(&self) -> EmitterV {
        EmitterV {
            env: self.env@,
            funs: funs_v(self.funs@),
            decls: strings_v(self.decls@),
            out_funcs: strings_v(self.out_funcs@),
            blocks: blocks_v(self.blocks@),
            cur: self.cur as int,
            next_reg: self.next_reg,
            next_label: self.next_label,
            next_str: self.next_str,
            cur_ret: self.cur_ret@,
        }
    }
}

/// The name of the SSA register numbered `n`.
pub open spec fn reg_name(n: u64) -> Seq<char> {
    "%t"@ + crate::text::dec_str(n as nat)
}

/// The counter bump a fresh name performs.
pub open spec fn bump(n: u64) -> u64 {
    if n < u64::MAX {
        (n + 1) as u64
    } else {
        n
    }
}

/// A fresh register name and the state after taking it.
pub open spec fn sv_fresh_reg(em: EmitterV) -> (Seq<char>, EmitterV) {
    (reg_name(em.next_reg), EmitterV { next_reg: bump(em.next_reg), ..em })
}

/// A fresh label id and the state after taking it.
pub open spec fn sv_fresh_label(em: EmitterV) -> (u64, EmitterV) {
    (em.next_label, EmitterV { next_label: bump(em.next_label), ..em })
}

/// One instruction line appended to the current block.
pub open spec fn sv_append(em: EmitterV, line: Seq<char>) -> EmitterV {
    if 0 <= em.cur < em.blocks.len() {
        let b = em.blocks[em.cur];
        EmitterV {
            blocks: em.blocks.update(em.cur, BlockV { insts: b.insts.push(line), ..b }),
            ..em
        }
    } else {
        em
    }
}

/// The current block's terminator set, unless one already stands.
pub open spec fn sv_terminate(em: EmitterV, t: Seq<char>) -> EmitterV {
    if 0 <= em.cur < em.blocks.len() && em.blocks[em.cur].term is None {
        let b = em.blocks[em.cur];
        EmitterV { blocks: em.blocks.update(em.cur, BlockV { term: Some(t), ..b }), ..em }
    } else {
        em
    }
}

/// A new empty block opened at the end of the function.
pub open spec fn sv_new_block(em: EmitterV) -> (u64, EmitterV) {
    let (id, em1) = sv_fresh_label(em);
    (
        id,
        EmitterV {
            blocks: em1.blocks.push(BlockV { id, insts: Seq::empty(), term: None }),
            ..em1
        },
    )
}

/// The index of the first block labelled `id` at or after `from`.
pub open spec fn sv_find_block(bs: Seq<BlockV>, id: u64, from: int) -> Option<int>
    decreases bs.len() - from,
{
    if 0 <= from < bs.len() {
        if bs[from].id == id {
            Some(from)
        } else {
            sv_find_block(bs, id, from + 1)
        }
    } else {
        None
    }
}

/// The insertion point moved to the block labelled `id`, if one exists.
pub open spec fn sv_position_at(em: EmitterV, id: u64) -> EmitterV {
    match sv_find_block(em.blocks, id, 0) {
        Some(i) => EmitterV { cur: i, ..em },
        None => em,
    }
}

impl Emitter {
    /// The insertion point names a live block.
    pub open spec fn building(&self) -> bool {
        self.cur < self.blocks@.len()
    }

    /// A fresh lowerer with an empty module.
    pub fn new() -> (r: Emitter)
        ensures
            r.env@.len() == 0,
            r@ == sv_new_emitter(),
    {
        let r = Emitter {
            env: Environment::new(),
            funs: Vec::new(),
            decls: Vec::new(),
            out_funcs: Vec::new(),
            blocks: Vec::new(),
            cur: 0,
            next_reg: 0,
            next_label: 0,
            next_str: 0,
            cur_ret: IrType::I32,
        };
        proof {
            assert(funs_v(r.funs@) =~= Seq::<FnInfoV>::empty());
            assert(strings_v(r.decls@) =~= Seq::<Seq<char>>::empty());
            assert(strings_v(r.out_funcs@) =~= Seq::<Seq<char>>::empty());
            assert(blocks_v(r.blocks@) =~= Seq::<BlockV>::empty());
        }
        r
    }

    /// A fresh SSA register name.
    fn fresh_reg(&mut self) -> (r: String)
        ensures
            *final(self) == (Emitter { next_reg: final(self).next_reg, ..*old(self) }),
            (r@, final(self)@) == sv_fresh_reg(old(self)@),
    {
        let n = self.next_reg;
        if self.next_reg < u64::MAX {
            self.next_reg = self.next_reg + 1;
        }
        let mut s = String::from_str("%t");
        let d = u64_to_string(n);
        s.append(d.as_str());
        s
    }

    /// A fresh block label id.
    fn fresh_label(&mut self) -> (r: u64)
        ensures
            *final(self) == (Emitter { next_label: final(self).next_label, ..*old(self) }),
            (r, final(self)@) == sv_fresh_label(old(self)@),
    {
        let n = self.next_label;
        if self.next_label < u64::MAX {
            self.next_label = self.next_label + 1;
        }
        n
    }

    /// Appends one instruction line to the current block.
    fn append_line(&mut self, line: String)
        requires
            old(self).building(),
        ensures
            final(self).building(),
            *final(self) == (Emitter { blocks: final(self).blocks, ..*old(self) }),
            final(self).blocks@.len() == old(self).blocks@.len(),
            final(self)@ == sv_append(old(self)@, line@),
    {
        let ghost linev = line@;
        self.blocks[self.cur].insts.push(line);
        proof {
            let i = self.cur as int;
            assert(strings_v(self.blocks@[i].insts@) =~= strings_v(
                old(self).blocks@[i].insts@,
            ).push(linev));
            assert(blocks_v(self.blocks@) =~= blocks_v(old(self).blocks@).update(
                i,
                BlockV {
                    insts: strings_v(old(self).blocks@[i].insts@).push(linev),
                    ..old(self).blocks@[i]@
                },
            ));
        }
    }

    /// Sets the current block's terminator, unless it already has one: the
    /// first terminator wins, as a block transfers control exactly once.
    fn terminate(&mut self, t: String)
        requires
            old(self).building(),
        ensures
            final(self).building(),
            *final(self) == (Emitter { blocks: final(self).blocks, ..*old(self) }),
            final(self).blocks@.len() == old(self).blocks@.len(),
            old(self).blocks@[old(self).cur as int].term is Some ==> final(self).blocks@ == old(
                self,
            ).blocks@,
            old(self).blocks@[old(self).cur as int].term is None ==> final(self).blocks@ == old(
                self,
            ).blocks@.update(
                old(self).cur as int,
                (Block {
                    id: old(self).blocks@[old(self).cur as int].id,
                    insts: old(self).blocks@[old(self).cur as int].insts,
                    term: Some(t),
                }),
            ),
            final(self)@ == sv_terminate(old(self)@, t@),
    {
        let done: bool = match &self.blocks[self.cur].term {
            Some(_) => true,
            None => false,
        };
        if !done {
            let ghost tv = t@;
            let b = &mut self.blocks[self.cur];
            b.term = Some(t);
            proof {
                let i = self.cur as int;
                assert(final(self).blocks@ =~= old(self).blocks@.update(
                    i,
                    Block {
                        id: old(self).blocks@[i].id,
                        insts: old(self).blocks@[i].insts,
                        term: final(self).blocks@[i].term,
                    },
                ));
                assert(blocks_v(self.blocks@) =~= blocks_v(old(self).blocks@).update(
                    i,
                    BlockV { term: Some(tv), ..old(self).blocks@[i]@ },
                ));
            }
        } else {
            proof {
                assert(final(self).blocks@ =~= old(self).blocks@);
                assert(blocks_v(self.blocks@) =~= blocks_v(old(self).blocks@));
            }
        }
    }

    /// Opens a new block at the end of the current function.
    fn new_block(&mut self) -> (r: u64)
        ensures
            final(self).blocks@.len() == old(self).blocks@.len() + 1,
            final(self).cur == old(self).cur,
            final(self).env == old(self).env,
            old(self).building() ==> final(self).building(),
            (r, final(self)@) == sv_new_block(old(self)@),
    {
        let id = self.fresh_label();
        self.blocks.push(Block { id, insts: Vec::new(), term: None });
        proof {
            assert(strings_v(self.blocks@.last().insts@) =~= Seq::<Seq<char>>::empty());
            assert(self.blocks@.last()@ == (BlockV { id, insts: Seq::empty(), term: None }));
            assert(blocks_v(self.blocks@) =~= blocks_v(old(self).blocks@).push(
                BlockV { id, insts: Seq::empty(), term: None },
            ));
        }
        id
    }

    /// Moves the insertion point to the block labelled `id`; a label that
    /// names no block leaves the insertion point alone.
    fn position_at(&mut self, id: u64)
        requires
            old(self).building(),
        ensures
            final(self).building(),
            *final(self) == (Emitter { cur: final(self).cur, ..*old(self) }),
            final(self)@ == sv_position_at(old(self)@, id),
    {
        let mut i: usize = 0;
        while i < self.blocks.len()
            invariant
                *self == *old(self),
                self.building(),
                0 <= i <= self.blocks@.len(),
                sv_find_block(old(self)@.blocks, id, 0) == sv_find_block(
                    old(self)@.blocks,
                    id,
                    i as int,
                ),
            decreases self.blocks@.len() - i,
        {
            if self.blocks[i].id == id {
                self.cur = i;
                return ;
            }
            i = i + 1;
        }
    }

    /// Appends one module-level line.
    fn push_decl(&mut self, line: String)
        ensures
            final(self)@ == (EmitterV { decls: old(self)@.decls.push(line@), ..old(self)@ }),
            *final(self) == (Emitter { decls: final(self).decls, ..*old(self) }),
    {
        let ghost linev = line@;
        self.decls.push(line);
        proof {
            assert(strings_v(self.decls@) =~= strings_v(old(self).decls@).push(linev));
        }
    }

    /// Appends one finished function's text.
    fn push_out_func(&mut self, text: String)
        ensures
            final(self)@ == (EmitterV {
                out_funcs: old(self)@.out_funcs.push(text@),
                ..old(self)@
            }),
            *final(self) == (Emitter { out_funcs: final(self).out_funcs, ..*old(self) }),
    {
        let ghost tv = text@;
        self.out_funcs.push(text);
        proof {
            assert(strings_v(self.out_funcs@) =~= strings_v(old(self).out_funcs@).push(tv));
        }
    }

    /// Records one function symbol.
    fn push_fun(&mut self, f: FnInfo)
        ensures
            final(self)@ == (EmitterV { funs: old(self)@.funs.push(f@), ..old(self)@ }),
            *final(self) == (Emitter { funs: final(self).funs, ..*old(self) }),
    {
        let ghost fv = f@;
        self.funs.push(f);
        proof {
            assert(funs_v(self.funs@) =~= funs_v(old(self).funs@).push(fv));
        }
    }

    /// The label id of the block the insertion point stands in.
    fn cur_label(&self) -> (r: u64)
        requires
            self.building(),
        ensures
            r == sv_cur_label(self@),
    {
        self.blocks[self.cur].id
    }
}

/// The text of an unconditional branch to the block labelled `id`.
pub open spec fn br_line_text(id: u64) -> Seq<char> {
    "  br label %L"@ + crate::text::dec_str(id as nat)
}

/// The textual label of a block id.
fn label_text(id: u64) -> (r: String)
    ensures
        r@ == "L"@ + crate::text::dec_str(id as nat),
{
    let mut s = String::from_str("L");
    let d = u64_to_string(id);
    s.append(d.as_str());
    s
}

/// An unconditional branch line.
fn br_text(id: u64) -> (r: String)
    ensures
        r@ == br_line_text(id),
{
    proof {
        reveal_strlit("  br label %");
        reveal_strlit("  br label %L");
        reveal_strlit("L");
    }
    let mut s = String::from_str("  br label %");
    let l = label_text(id);
    s.append(l.as_str());
    proof {
        assert(s@ =~= br_line_text(id));
    }
    s
}

/// A conditional branch: on a true bit to `on_true`, else to `on_false`.
fn cond_br_text(c: &String, on_true: u64, on_false: u64) -> (r: String)
    ensures
        r@ == cond_br_line(c@, on_true, on_false),
{
    let mut s = String::from_str("  br i1 ");
    s.append(c.as_str());
    s.append(", label %");
    let lt = label_text(on_true);
    s.append(lt.as_str());
    s.append(", label %");
    let lf = label_text(on_false);
    s.append(lf.as_str());
    s
}

/// The textual label of a block id.
pub open spec fn label_name(id: u64) -> Seq<char> {
    "L"@ + crate::text::dec_str(id as nat)
}

/// The conditional-branch line: to `on_true` when the bit holds, else to
/// `on_false`.
pub open spec fn cond_br_line(c: Seq<char>, on_true: u64, on_false: u64) -> Seq<char> {
    "  br i1 "@ + c + ", label %"@ + label_name(on_true) + ", label %"@ + label_name(on_false)
}

/// One stack slot allocated: the fresh register and the `alloca` line.
pub open spec fn sv_alloca(em: EmitterV, ty: IrTypeV) -> (PtrV, EmitterV) {
    let (r, em1) = sv_fresh_reg(em);
    let line = "  "@ + r + " = alloca "@ + type_text(ty);
    (PtrV { op: r, ty }, sv_append(em1, line))
}

/// A value stored into a fresh slot of its type.
pub open spec fn sv_store_value(em: EmitterV, val: Seq<char>, ty: IrTypeV) -> (PtrV, EmitterV) {
    let (slot, em1) = sv_alloca(em, ty);
    let line = "  store "@ + type_text(ty) + " "@ + val + ", "@ + type_text(ty) + "* "@ + slot.op;
    (slot, sv_append(em1, line))
}

/// A value stored through an existing slot.
pub open spec fn sv_store_to(em: EmitterV, slot: PtrV, val: Seq<char>) -> EmitterV {
    let line = "  store "@ + type_text(slot.ty) + " "@ + val + ", "@ + type_text(slot.ty) + "* "@
        + slot.op;
    sv_append(em, line)
}

/// A slot's value loaded into a fresh register.
pub open spec fn sv_load(em: EmitterV, p: PtrV) -> ((Seq<char>, IrTypeV), EmitterV) {
    let (r, em1) = sv_fresh_reg(em);
    let line = "  "@ + r + " = load "@ + type_text(p.ty) + ", "@ + type_text(p.ty) + "* "@ + p.op;
    ((r, p.ty), sv_append(em1, line))
}

/// A value coerced to `i32`: integers pass or widen, floats convert.
pub open spec fn sv_cast_to_int(em: EmitterV, val: Seq<char>, ty: IrTypeV) -> Result<
    (Seq<char>, EmitterV),
    ErrV,
> {
    match ty {
        IrTypeV::I32 => Ok((val, em)),
        IrTypeV::I8 => {
            let (r, em1) = sv_fresh_reg(em);
            Ok((r, sv_append(em1, "  "@ + r + " = sext i8 "@ + val + " to i32"@)))
        },
        IrTypeV::F32 => {
            let (r, em1) = sv_fresh_reg(em);
            Ok((r, sv_append(em1, "  "@ + r + " = fptosi float "@ + val + " to i32"@)))
        },
        _ => Err(ErrV::Unsupported),
    }
}

/// A value coerced to `float`: floats pass, signed integers convert.
pub open spec fn sv_cast_to_float(em: EmitterV, val: Seq<char>, ty: IrTypeV) -> Result<
    (Seq<char>, EmitterV),
    ErrV,
> {
    match ty {
        IrTypeV::F32 => Ok((val, em)),
        IrTypeV::I32 => {
            let (r, em1) = sv_fresh_reg(em);
            Ok((r, sv_append(em1, "  "@ + r + " = sitofp i32 "@ + val + " to float"@)))
        },
        IrTypeV::I8 => {
            let (r, em1) = sv_fresh_reg(em);
            Ok((r, sv_append(em1, "  "@ + r + " = sitofp i8 "@ + val + " to float"@)))
        },
        _ => Err(ErrV::Unsupported),
    }
}

/// A two-operand arithmetic line.
pub open spec fn sv_arith(
    em: EmitterV,
    op: Seq<char>,
    lhs: Seq<char>,
    rhs: Seq<char>,
    ty: IrTypeV,
) -> (Seq<char>, EmitterV) {
    let (r, em1) = sv_fresh_reg(em);
    let line = "  "@ + r + " = "@ + op + " "@ + type_text(ty) + " "@ + lhs + ", "@ + rhs;
    (r, sv_append(em1, line))
}

/// A comparison or logical operator lowered to a builtin call.
pub open spec fn sv_compare_int(em: EmitterV, fname: Seq<char>, lhs: Seq<char>, rhs: Seq<char>) -> (
    Seq<char>,
    EmitterV,
) {
    let (r, em1) = sv_fresh_reg(em);
    let line = "  "@ + r + " = call i32 @"@ + fname + "(i32 "@ + lhs + ", i32 "@ + rhs + ")"@;
    (r, sv_append(em1, line))
}

/// The element address of an array slot at an index, via indices 0, idx.
pub open spec fn sv_gep_array(em: EmitterV, arr: PtrV, idx: Seq<char>) -> (Seq<char>, EmitterV) {
    let (r, em1) = sv_fresh_reg(em);
    let line = "  "@ + r + " = getelementptr "@ + type_text(arr.ty) + ", "@ + type_text(arr.ty)
        + "* "@ + arr.op + ", i32 0, i32 "@ + idx;
    (r, sv_append(em1, line))
}

/// The element address a pointer value reaches at an index.
pub open spec fn sv_gep_pointer(em: EmitterV, pval: Seq<char>, elem: IrTypeV, idx: Seq<char>) -> (
    Seq<char>,
    EmitterV,
) {
    let (r, em1) = sv_fresh_reg(em);
    let line = "  "@ + r + " = getelementptr "@ + type_text(elem) + ", "@ + type_text(elem) + "* "@
        + pval + ", i32 "@ + idx;
    (r, sv_append(em1, line))
}

/// A value stored into a slot with the slot's coercion: integer conversion,
/// widening to float, or a truncating `i8` store.
pub open spec fn sv_coerce_store(em: EmitterV, slot: PtrV, val: Seq<char>, val_ty: IrTypeV) -> Result<
    EmitterV,
    ErrV,
> {
    match slot.ty {
        IrTypeV::I32 => match sv_cast_to_int(em, val, val_ty) {
            Ok((v, em1)) => Ok(sv_store_to(em1, slot, v)),
            Err(e) => Err(e),
        },
        IrTypeV::I8 => match sv_cast_to_int(em, val, val_ty) {
            Ok((v, em1)) => {
                let (r, em2) = sv_fresh_reg(em1);
                let em3 = sv_append(em2, "  "@ + r + " = trunc i32 "@ + v + " to i8"@);
                Ok(sv_store_to(em3, slot, r))
            },
            Err(e) => Err(e),
        },
        IrTypeV::F32 => match sv_cast_to_float(em, val, val_ty) {
            Ok((v, em1)) => Ok(sv_store_to(em1, slot, v)),
            Err(e) => Err(e),
        },
        IrTypeV::Pointer(_) => match val_ty {
            IrTypeV::Pointer(_) => Ok(sv_store_to(em, slot, val)),
            _ => Err(ErrV::Unsupported),
        },
        _ => Err(ErrV::Unsupported),
    }
}

/// View of an evaluated argument list.
pub open spec fn args_v(ps: Seq<(String, IrType)>) -> Seq<(Seq<char>, IrTypeV)> {
    ps.map_values(|p: (String, IrType)| (p.0@, p.1@))
}

/// One call argument: an array slot decays to its first element's address,
/// any other slot hands its loaded value on.
pub open spec fn sv_one_argument(em: EmitterV, p: PtrV) -> (Seq<(Seq<char>, IrTypeV)>, EmitterV) {
    match p.ty {
        IrTypeV::Array(elem, _n) => {
            let (g, em1) = sv_gep_array(em, p, "0"@);
            (seq![(g, IrTypeV::Pointer(elem))], em1)
        },
        _ => {
            let ((v, ty), em1) = sv_load(em, p);
            (seq![(v, ty)], em1)
        },
    }
}

/// The index of the first symbol named `name` at or after `from`.
pub open spec fn sv_find_fun(fs: Seq<FnInfoV>, name: Seq<char>, from: int) -> Option<int>
    decreases fs.len() - from,
{
    if 0 <= from < fs.len() {
        if fs[from].name == name {
            Some(from)
        } else {
            sv_find_fun(fs, name, from + 1)
        }
    } else {
        None
    }
}

/// Allocates one stack slot of the given type.
pub fn alloca_from_basic_type(em: &mut Emitter, ty: IrType) -> (r: Ptr)
    requires
        old(em).building(),
    ensures
        final(em).building(),
        final(em).env == old(em).env,
        final(em).blocks@.len() == old(em).blocks@.len(),
        final(em).cur == old(em).cur,
        r.ty == ty,
        (r@, final(em)@) == sv_alloca(old(em)@, ty@),
    {
    let reg = em.fresh_reg();
    let mut line = String::from_str("  ");
    line.append(reg.as_str());
    line.append(" = alloca ");
    let t = ty.render();
    line.append(t.as_str());
    em.append_line(line);
    Ptr { op: reg, ty }
}

/// Stores a value into a fresh slot of its type and hands the slot back.
pub fn store_value(em: &mut Emitter, val: &String, ty: &IrType) -> (r: Ptr)
    requires
        old(em).building(),
    ensures
        final(em).building(),
        final(em).env == old(em).env,
        final(em).blocks@.len() == old(em).blocks@.len(),
        final(em).cur == old(em).cur,
        r.ty == *ty,
        (r@, final(em)@) == sv_store_value(old(em)@, val@, ty@),
{
    let slot = alloca_from_basic_type(em, ty.dup());
    let t = ty.render();
    let mut line = String::from_str("  store ");
    line.append(t.as_str());
    line.append(" ");
    line.append(val.as_str());
    line.append(", ");
    line.append(t.as_str());
    line.append("* ");
    line.append(slot.op.as_str());
    em.append_line(line);
    slot
}

/// Loads the value a slot holds; the result carries the slot's element type.
pub fn load_value(em: &mut Emitter, p: &Ptr) -> (r: (String, IrType))
    requires
        old(em).building(),
    ensures
        final(em).building(),
        final(em).env == old(em).env,
        final(em).blocks@.len() == old(em).blocks@.len(),
        final(em).cur == old(em).cur,
        r.1 == p.ty,
        ((r.0@, r.1@), final(em)@) == sv_load(old(em)@, p@),
{
    let reg = em.fresh_reg();
    let t = p.ty.render();
    let mut line = String::from_str("  ");
    line.append(reg.as_str());
    line.append(" = load ");
    line.append(t.as_str());
    line.append(", ");
    line.append(t.as_str());
    line.append("* ");
    line.append(p.op.as_str());
    em.append_line(line);
    (reg, p.ty.dup())
}

/// Coerces a value to integer: integers pass through, floats convert
/// toward zero; anything else is a fatal type error.
pub fn cast_to_int(em: &mut Emitter, val: &String, ty: &IrType) -> (r: Result<String, CompileError>)
    requires
        old(em).building(),
    ensures
        final(em).building(),
        final(em).env == old(em).env,
        final(em).blocks@.len() == old(em).blocks@.len(),
        final(em).cur == old(em).cur,
        match r {
            Ok(v) => sv_cast_to_int(old(em)@, val@, ty@) == Ok::<(Seq<char>, EmitterV), ErrV>(
                (v@, final(em)@),
            ),
            Err(e) => sv_cast_to_int(old(em)@, val@, ty@) == Err::<(Seq<char>, EmitterV), ErrV>(
                e@,
            ),
        },
{
    match ty {
        IrType::I32 => Ok(val.clone()),
        IrType::I8 => {
            let reg = em.fresh_reg();
            let mut line = String::from_str("  ");
            line.append(reg.as_str());
            line.append(" = sext i8 ");
            line.append(val.as_str());
            line.append(" to i32");
            em.append_line(line);
            Ok(reg)
        },
        IrType::F32 => {
            let reg = em.fresh_reg();
            let mut line = String::from_str("  ");
            line.append(reg.as_str());
            line.append(" = fptosi float ");
            line.append(val.as_str());
            line.append(" to i32");
            em.append_line(line);
            Ok(reg)
        },
        _ => Err(CompileError::Unsupported),
    }
}

/// Coerces a value to float: floats pass through, signed integers convert.
pub fn cast_to_float(em: &mut Emitter, val: &String, ty: &IrType) -> (r: Result<
    String,
    CompileError,
>)
    requires
        old(em).building(),
    ensures
        final(em).building(),
        final(em).env == old(em).env,
        final(em).blocks@.len() == old(em).blocks@.len(),
        final(em).cur == old(em).cur,
        match r {
            Ok(v) => sv_cast_to_float(old(em)@, val@, ty@) == Ok::<(Seq<char>, EmitterV), ErrV>(
                (v@, final(em)@),
            ),
            Err(e) => sv_cast_to_float(old(em)@, val@, ty@) == Err::<(Seq<char>, EmitterV), ErrV>(
                e@,
            ),
        },
{
    match ty {
        IrType::F32 => Ok(val.clone()),
        IrType::I32 => {
            let reg = em.fresh_reg();
            let mut line = String::from_str("  ");
            line.append(reg.as_str());
            line.append(" = sitofp i32 ");
            line.append(val.as_str());
            line.append(" to float");
            em.append_line(line);
            Ok(reg)
        },
        IrType::I8 => {
            let reg = em.fresh_reg();
            let mut line = String::from_str("  ");
            line.append(reg.as_str());
            line.append(" = sitofp i8 ");
            line.append(val.as_str());
            line.append(" to float");
            em.append_line(line);
            Ok(reg)
        },
        _ => Err(CompileError::Unsupported),
    }
}

/// A two-operand arithmetic line `res = op i32 a, b`.
fn arith_line(em: &mut Emitter, op: &str, lhs: &String, rhs: &String, ty: &IrType) -> (r: String)
    requires
        old(em).building(),
    ensures
        final(em).building(),
        final(em).env == old(em).env,
        final(em).blocks@.len() == old(em).blocks@.len(),
        final(em).cur == old(em).cur,
        (r@, final(em)@) == sv_arith(old(em)@, op@, lhs@, rhs@, ty@),
{
    let reg = em.fresh_reg();
    let t = ty.render();
    let mut line = String::from_str("  ");
    line.append(reg.as_str());
    line.append(" = ");
    line.append(op);
    line.append(" ");
    line.append(t.as_str());
    line.append(" ");
    line.append(lhs.as_str());
    line.append(", ");
    line.append(rhs.as_str());
    em.append_line(line);
    reg
}

/// Lowers a comparison or logical operator to a call of the corresponding
/// builtin helper, keeping the uniform 0-or-1 integer result convention.
pub fn emit_compare_expression_int(
    em: &mut Emitter,
    fname: &str,
    lhs: &String,
    rhs: &String,
) -> (r: String)
    requires
        old(em).building(),
    ensures
        final(em).building(),
        final(em).env == old(em).env,
        final(em).blocks@.len() == old(em).blocks@.len(),
        final(em).cur == old(em).cur,
        (r@, final(em)@) == sv_compare_int(old(em)@, fname@, lhs@, rhs@),
{
    let reg = em.fresh_reg();
    let mut line = String::from_str("  ");
    line.append(reg.as_str());
    line.append(" = call i32 @");
    line.append(fname);
    line.append("(i32 ");
    line.append(lhs.as_str());
    line.append(", i32 ");
    line.append(rhs.as_str());
    line.append(")");
    em.append_line(line);
    reg
}

/// The label of the block the insertion point stands in.
pub open spec fn sv_cur_label(em: EmitterV) -> u64 {
    if 0 <= em.cur < em.blocks.len() {
        em.blocks[em.cur].id
    } else {
        0
    }
}

/// The call line's argument list, rendered in order.
pub open spec fn sv_call_args(line: Seq<char>, args: Seq<(Seq<char>, IrTypeV)>, i: int) -> Seq<
    char,
>
    decreases args.len() - i,
{
    if 0 <= i < args.len() {
        let line2 = if i > 0 {
            line + ", "@
        } else {
            line
        };
        sv_call_args(line2 + type_text(args[i].1) + " "@ + args[i].0, args, i + 1)
    } else {
        line
    }
}

/// What lowering one expression does: the slot holding its value (or its
/// lvalue slot), and the state with the emitted instructions, or the first
/// fatal error.
pub open spec fn sv_emit_expression(em: EmitterV, node: crate::expression::ExprV) -> Result<
    (PtrV, EmitterV),
    ErrV,
>
    decreases node, 0int,
{
    match node {
        crate::expression::ExprV::Token(tok) => match tok {
            TokenV::IntNum(v, _) => Ok(sv_store_value(em, v, IrTypeV::I32)),
            TokenV::FloatNum(v, _) => Ok(sv_store_value(em, v, IrTypeV::F32)),
            TokenV::Ide(name, _) => match crate::environment::env_lookup(em.env, name) {
                Some(crate::environment::OtherV::Variable(p)) => Ok((p, em)),
                Some(crate::environment::OtherV::Global(p)) => Ok((p, em)),
                Some(crate::environment::OtherV::Type(_)) => Err(ErrV::Unsupported),
                None => Err(ErrV::UndeclaredIdentifier(name)),
            },
            TokenV::Str(v, _) => {
                let bs = vstd::utf8::encode_utf8(v);
                if bs.len() >= 0xffff_ffff {
                    Err(ErrV::Unsupported)
                } else {
                    let em1 = EmitterV { next_str: bump(em.next_str), ..em };
                    let name = "@str"@ + crate::text::dec_str(em.next_str as nat);
                    let ty = IrTypeV::Array(Box::new(IrTypeV::I8), (bs.len() + 1) as u32);
                    let line = name + " = private unnamed_addr constant "@ + type_text(ty)
                        + " c\""@ + crate::text::c_escaped(bs) + "\\00\""@;
                    Ok(
                        (
                            PtrV { op: name, ty },
                            EmitterV { decls: em1.decls.push(line), ..em1 },
                        ),
                    )
                }
            },
            _ => Err(ErrV::Unsupported),
        },
        crate::expression::ExprV::BinExp(optok, bl, br) => match optok {
            TokenV::Op(op, _) => match op {
                Operator::Assign => match sv_emit_expression(em, *bl) {
                    Err(e) => Err(e),
                    Ok((lhs, em1)) => match sv_emit_expression(em1, *br) {
                        Err(e) => Err(e),
                        Ok((rhs, em2)) => {
                            let ((rv, rty), em3) = sv_load(em2, rhs);
                            match sv_coerce_store(em3, lhs, rv, rty) {
                                Ok(em4) => Ok((lhs, em4)),
                                Err(e) => Err(e),
                            }
                        },
                    },
                },
                Operator::AddAssign => match sv_emit_expression(em, *bl) {
                    Err(e) => Err(e),
                    Ok((lhs, em1)) => match sv_emit_expression(em1, *br) {
                        Err(e) => Err(e),
                        Ok((rhs, em2)) => match lhs.ty {
                            IrTypeV::I32 | IrTypeV::I8 => {
                                let ((lv, _lt), em3) = sv_load(em2, lhs);
                                let ((rv, rt), em4) = sv_load(em3, rhs);
                                match sv_cast_to_int(em4, rv, rt) {
                                    Err(e) => Err(e),
                                    Ok((rv2, em5)) => {
                                        let (sum, em6) = sv_arith(em5, "add"@, lv, rv2, IrTypeV::I32);
                                        Ok((lhs, sv_store_to(em6, lhs, sum)))
                                    },
                                }
                            },
                            _ => Err(ErrV::Unsupported),
                        },
                    },
                },
                _ => match sv_emit_expression(em, *bl) {
                    Err(e) => Err(e),
                    Ok((lhs, em1)) => match sv_emit_expression(em1, *br) {
                        Err(e) => Err(e),
                        Ok((rhs, em2)) => {
                            let ((lv, lt), em3) = sv_load(em2, lhs);
                            match lt {
                                IrTypeV::Array(elem, _n) => {
                                    let ((rv0, rt), em4) = sv_load(em3, rhs);
                                    match sv_cast_to_int(em4, rv0, rt) {
                                        Err(e) => Err(e),
                                        Ok((rv, em5)) => match op {
                                            Operator::Add => {
                                                let (g, em6) = sv_gep_array(em5, lhs, rv);
                                                Ok(
                                                    sv_store_value(
                                                        em6,
                                                        g,
                                                        IrTypeV::Pointer(elem),
                                                    ),
                                                )
                                            },
                                            _ => Err(ErrV::Unsupported),
                                        },
                                    }
                                },
                                IrTypeV::I32 | IrTypeV::I8 | IrTypeV::F32 => {
                                    let ((rv0, rt), em4) = sv_load(em3, rhs);
                                    if lt is F32 || rt is F32 {
                                        match sv_cast_to_float(em4, lv, lt) {
                                            Err(e) => Err(e),
                                            Ok((lv2, em5)) => match sv_cast_to_float(em5, rv0, rt) {
                                                Err(e) => Err(e),
                                                Ok((rv2, em6)) => match op {
                                                    Operator::Add => {
                                                        let (res, em7) = sv_arith(
                                                            em6,
                                                            "fadd"@,
                                                            lv2,
                                                            rv2,
                                                            IrTypeV::F32,
                                                        );
                                                        Ok(sv_store_value(em7, res, IrTypeV::F32))
                                                    },
                                                    Operator::Mul => {
                                                        let (res, em7) = sv_arith(
                                                            em6,
                                                            "fmul"@,
                                                            lv2,
                                                            rv2,
                                                            IrTypeV::F32,
                                                        );
                                                        Ok(sv_store_value(em7, res, IrTypeV::F32))
                                                    },
                                                    _ => Err(ErrV::Unsupported),
                                                },
                                            },
                                        }
                                    } else {
                                        match sv_cast_to_int(em4, lv, lt) {
                                            Err(e) => Err(e),
                                            Ok((lv2, em5)) => match sv_cast_to_int(em5, rv0, rt) {
                                                Err(e) => Err(e),
                                                Ok((rv2, em6)) => {
                                                    let step: Result<(Seq<char>, EmitterV), ErrV> =
                                                        match op {
                                                        Operator::Add => Ok(
                                                            sv_arith(em6, "add"@, lv2, rv2, IrTypeV::I32),
                                                        ),
                                                        Operator::Sub => Ok(
                                                            sv_arith(em6, "sub"@, lv2, rv2, IrTypeV::I32),
                                                        ),
                                                        Operator::Mul => Ok(
                                                            sv_arith(em6, "mul"@, lv2, rv2, IrTypeV::I32),
                                                        ),
                                                        Operator::Equal => Ok(
                                                            sv_compare_int(em6, "eq_int"@, lv2, rv2),
                                                        ),
                                                        Operator::Greater => Ok(
                                                            sv_compare_int(em6, "sgt_int"@, lv2, rv2),
                                                        ),
                                                        Operator::Less => Ok(
                                                            sv_compare_int(em6, "slt_int"@, lv2, rv2),
                                                        ),
                                                        Operator::And => Ok(
                                                            sv_compare_int(em6, "and_int"@, lv2, rv2),
                                                        ),
                                                        Operator::Or => Ok(
                                                            sv_compare_int(em6, "or_int"@, lv2, rv2),
                                                        ),
                                                        _ => Err(ErrV::Unsupported),
                                                    };
                                                    match step {
                                                        Err(e) => Err(e),
                                                        Ok((res, em7)) => Ok(
                                                            sv_store_value(em7, res, IrTypeV::I32),
                                                        ),
                                                    }
                                                },
                                            },
                                        }
                                    }
                                },
                                _ => Err(ErrV::Unsupported),
                            }
                        },
                    },
                },
            },
            _ => Err(ErrV::Unsupported),
        },
        crate::expression::ExprV::Prefix(ptok, child) => match ptok {
            TokenV::PrefixOp(kind, _) => match kind {
                PrefixOp::Address => match sv_emit_expression(em, *child) {
                    Err(e) => Err(e),
                    Ok((inner, em1)) => Ok(
                        sv_store_value(em1, inner.op, IrTypeV::Pointer(Box::new(inner.ty))),
                    ),
                },
                PrefixOp::Deref => match sv_emit_expression(em, *child) {
                    Err(e) => Err(e),
                    Ok((inner, em1)) => {
                        let ((v, ty), em2) = sv_load(em1, inner);
                        match ty {
                            IrTypeV::Pointer(elem) => {
                                let ((v2, t2), em3) = sv_load(em2, PtrV { op: v, ty: *elem });
                                Ok(sv_store_value(em3, v2, t2))
                            },
                            _ => Err(ErrV::Unsupported),
                        }
                    },
                },
                PrefixOp::Increment => match sv_emit_expression(em, *child) {
                    Err(e) => Err(e),
                    Ok((inner, em1)) => {
                        let ((v, ty), em2) = sv_load(em1, inner);
                        match ty {
                            IrTypeV::I32 | IrTypeV::I8 => {
                                let (v2, em3) = sv_arith(em2, "add"@, v, "1"@, IrTypeV::I32);
                                Ok((inner, sv_store_to(em3, inner, v2)))
                            },
                            _ => Err(ErrV::Unsupported),
                        }
                    },
                },
                _ => Err(ErrV::Unsupported),
            },
            _ => Err(ErrV::Unsupported),
        },
        crate::expression::ExprV::Suffix(stok, child) => match stok {
            TokenV::SuffixOp(kind, _) => match kind {
                SuffixOp::Increment => match sv_emit_expression(em, *child) {
                    Err(e) => Err(e),
                    Ok((inner, em1)) => {
                        let ((v, ty), em2) = sv_load(em1, inner);
                        match ty {
                            IrTypeV::I32 | IrTypeV::I8 => {
                                let (v2, em3) = sv_arith(em2, "add"@, v, "1"@, IrTypeV::I32);
                                let em4 = sv_store_to(em3, inner, v2);
                                Ok(sv_store_value(em4, v, IrTypeV::I32))
                            },
                            _ => Err(ErrV::Unsupported),
                        }
                    },
                },
                _ => Err(ErrV::Unsupported),
            },
            _ => Err(ErrV::Unsupported),
        },
        crate::expression::ExprV::ArrayIndex(arr_e, idx_e) => match sv_emit_expression(em, *arr_e) {
            Err(e) => Err(e),
            Ok((arr, em1)) => match sv_emit_expression(em1, *idx_e) {
                Err(e) => Err(e),
                Ok((idx, em2)) => {
                    let ((iv0, it), em3) = sv_load(em2, idx);
                    match sv_cast_to_int(em3, iv0, it) {
                        Err(e) => Err(e),
                        Ok((iv, em4)) => match arr.ty {
                            IrTypeV::Array(elem, _n) => {
                                let (g, em5) = sv_gep_array(em4, arr, iv);
                                Ok((PtrV { op: g, ty: *elem }, em5))
                            },
                            IrTypeV::Pointer(elem) => {
                                let ((pv, _pt), em5) = sv_load(em4, arr);
                                let (g, em6) = sv_gep_pointer(em5, pv, *elem, iv);
                                Ok((PtrV { op: g, ty: *elem }, em6))
                            },
                            _ => Err(ErrV::Unsupported),
                        },
                    }
                },
            },
        },
        crate::expression::ExprV::FunctionCall(idtok, params) => match idtok {
            TokenV::Ide(name, _) => match sv_emit_comma_as_arguments(em, *params) {
                Err(e) => Err(e),
                Ok((args, em1)) => match sv_find_fun(em1.funs, name, 0) {
                    None => Err(ErrV::UndeclaredFunction(name)),
                    Some(i) => {
                        let info = em1.funs[i];
                        if args.len() < info.params.len() || (!info.var_args && args.len()
                            != info.params.len()) {
                            Err(ErrV::ArityMismatch(name))
                        } else {
                            let (reg, em2) = sv_fresh_reg(em1);
                            let seed = "  "@ + reg + " = call "@ + type_text(info.ret) + " @"@
                                + name + "("@;
                            let line = sv_call_args(seed, args, 0) + ")"@;
                            let em3 = sv_append(em2, line);
                            Ok(sv_store_value(em3, reg, info.ret))
                        }
                    },
                },
            },
            _ => Err(ErrV::Unsupported),
        },
        crate::expression::ExprV::Access(ftok, child) => match *child {
            crate::expression::ExprV::Token(vtok) => match vtok {
                TokenV::Ide(varname, _) => match ftok {
                    TokenV::Ide(field, _) => {
                        let key = varname + "."@ + field;
                        match crate::environment::env_lookup(em.env, key) {
                            Some(crate::environment::OtherV::Variable(p)) => Ok((p, em)),
                            _ => Err(ErrV::NoSuchField(key)),
                        }
                    },
                    _ => Err(ErrV::Unsupported),
                },
                _ => Err(ErrV::Unsupported),
            },
            _ => Err(ErrV::Unsupported),
        },
        crate::expression::ExprV::TernaryExp(cond, lhs, rhs) => {
            let (then_bb, em1) = sv_new_block(em);
            let (else_bb, em2) = sv_new_block(em1);
            let (cont_bb, em3) = sv_new_block(em2);
            match sv_condition_eq(em3, *cond) {
                Err(e) => Err(e),
                Ok((c, em4)) => {
                    let em5 = sv_terminate(em4, cond_br_line(c, else_bb, then_bb));
                    let em6 = sv_position_at(em5, then_bb);
                    match sv_emit_expression(em6, *lhs) {
                        Err(e) => Err(e),
                        Ok((a, em7)) => {
                            let then_end = sv_cur_label(em7);
                            let em8 = sv_terminate(em7, br_line_text(cont_bb));
                            let em9 = sv_position_at(em8, else_bb);
                            match sv_emit_expression(em9, *rhs) {
                                Err(e) => Err(e),
                                Ok((b, em10)) => {
                                    let else_end = sv_cur_label(em10);
                                    let em11 = sv_terminate(em10, br_line_text(cont_bb));
                                    let em12 = sv_position_at(em11, cont_bb);
                                    let (reg, em13) = sv_fresh_reg(em12);
                                    let line = "  "@ + reg + " = phi "@ + type_text(a.ty) + "* [ "@
                                        + a.op + ", %"@ + label_name(then_end) + " ], [ "@ + b.op
                                        + ", %"@ + label_name(else_end) + " ]"@;
                                    Ok((PtrV { op: reg, ty: a.ty }, sv_append(em13, line)))
                                },
                            }
                        },
                    }
                },
            }
        },
        crate::expression::ExprV::Empty => Err(ErrV::Unsupported),
    }
}

/// The flattened, evaluated arguments of a call's comma tree.
pub open spec fn sv_emit_comma_as_arguments(em: EmitterV, node: crate::expression::ExprV) -> Result<
    (Seq<(Seq<char>, IrTypeV)>, EmitterV),
    ErrV,
>
    decreases node, 1int,
{
    match node {
        crate::expression::ExprV::Empty => Ok((Seq::empty(), em)),
        crate::expression::ExprV::BinExp(optok, bl, br) => {
            if optok matches TokenV::Op(Operator::Comma, _) {
                match sv_emit_comma_as_arguments(em, *bl) {
                    Err(e) => Err(e),
                    Ok((lhs, em1)) => match sv_emit_comma_as_arguments(em1, *br) {
                        Err(e) => Err(e),
                        Ok((rhs, em2)) => Ok((lhs + rhs, em2)),
                    },
                }
            } else {
                match sv_emit_expression(em, node) {
                    Err(e) => Err(e),
                    Ok((p, em1)) => Ok(sv_one_argument(em1, p)),
                }
            }
        },
        _ => match sv_emit_expression(em, node) {
            Err(e) => Err(e),
            Ok((p, em1)) => Ok(sv_one_argument(em1, p)),
        },
    }
}

/// A condition evaluated and compared with zero.
pub open spec fn sv_condition_eq(em: EmitterV, cond: crate::expression::ExprV) -> Result<
    (Seq<char>, EmitterV),
    ErrV,
>
    decreases cond, 2int,
{
    match sv_emit_expression(em, cond) {
        Err(e) => Err(e),
        Ok((p, em1)) => {
            let ((v, ty), em2) = sv_load(em1, p);
            match sv_cast_to_int(em2, v, ty) {
                Err(e) => Err(e),
                Ok((iv, em3)) => {
                    let (reg, em4) = sv_fresh_reg(em3);
                    let line = "  "@ + reg + " = icmp eq i32 "@ + iv + ", 0"@;
                    Ok((reg, sv_append(em4, line)))
                },
            }
        },
    }
}

/// Evaluates a condition and compares it with zero; the resulting bit is
/// true exactly when the condition is zero, so branches on it go to the
/// exit block on true and into the construct on false.
pub fn emit_condition_expression_eq(em: &mut Emitter, cond: &ExpressionNode) -> (r: Result<
    String,
    CompileError,
>)
    requires
        old(em).building(),
        old(em).env@.len() > 0,
    ensures
        final(em).building(),
        final(em).env@.len() == old(em).env@.len(),
        final(em).blocks@.len() >= old(em).blocks@.len(),
        match r {
            Ok(c) => sv_condition_eq(old(em)@, cond@) == Ok::<(Seq<char>, EmitterV), ErrV>(
                (c@, final(em)@),
            ),
            Err(e) => sv_condition_eq(old(em)@, cond@) == Err::<(Seq<char>, EmitterV), ErrV>(e@),
        },
    decreases cond, 2int,
{
    let p = match emit_expression(em, cond) {
        Ok(p) => p,
        Err(e) => {
            return Err(e);
        },
    };
    let (v, ty) = load_value(em, &p);
    let iv = match cast_to_int(em, &v, &ty) {
        Ok(v) => v,
        Err(e) => {
            return Err(e);
        },
    };
    let reg = em.fresh_reg();
    let mut line = String::from_str("  ");
    line.append(reg.as_str());
    line.append(" = icmp eq i32 ");
    line.append(iv.as_str());
    line.append(", 0");
    em.append_line(line);
    Ok(reg)
}

/// Lowers one expression to a pointer to a stack slot holding its value;
/// identifiers, field accesses and indexing yield their lvalue slot.
pub fn emit_expression(em: &mut Emitter, node: &ExpressionNode) -> (r: Result<Ptr, CompileError>)
    requires
        old(em).building(),
        old(em).env@.len() > 0,
    ensures
        final(em).building(),
        final(em).env@.len() == old(em).env@.len(),
        final(em).blocks@.len() >= old(em).blocks@.len(),
        match r {
            Ok(p) => sv_emit_expression(old(em)@, node@) == Ok::<(PtrV, EmitterV), ErrV>(
                (p@, final(em)@),
            ),
            Err(e) => sv_emit_expression(old(em)@, node@) == Err::<(PtrV, EmitterV), ErrV>(e@),
        },
    decreases node, 1int,
{
    match node {
        ExpressionNode::Token(tn) => emit_token(em, tn),
        ExpressionNode::BinExp(b) => emit_bin_exp(em, b),
        ExpressionNode::Prefix(p) => emit_prefix(em, p),
        ExpressionNode::Suffix(sf) => emit_suffix(em, sf),
        ExpressionNode::ArrayIndex(ai) => emit_array_index(em, ai),
        ExpressionNode::FunctionCall(fc) => emit_function_call(em, fc),
        ExpressionNode::Access(ac) => emit_access(em, ac),
        ExpressionNode::TernaryExp(t) => emit_ternary_exp(em, t),
        ExpressionNode::Empty => Err(CompileError::Unsupported),
    }
}

/// A leaf: a literal stored into a fresh slot, an identifier's own slot, or
/// a string made a global constant.
fn emit_token(em: &mut Emitter, tn: &crate::expression::TokenNode) -> (r: Result<Ptr, CompileError>)
    requires
        old(em).building(),
        old(em).env@.len() > 0,
    ensures
        final(em).building(),
        final(em).env@.len() == old(em).env@.len(),
        final(em).blocks@.len() >= old(em).blocks@.len(),
        match r {
            Ok(p) => sv_emit_expression(old(em)@, crate::expression::ExprV::Token(tn.token@)) == Ok::<(PtrV, EmitterV), ErrV>(
                (p@, final(em)@),
            ),
            Err(e) => sv_emit_expression(old(em)@, crate::expression::ExprV::Token(tn.token@)) == Err::<(PtrV, EmitterV), ErrV>(e@),
        },
{
    match &tn.token {
            Token::IntNum(v, _) => Ok(store_value(em, v, &IrType::I32)),
            Token::FloatNum(v, _) => Ok(store_value(em, v, &IrType::F32)),
            Token::Ide(name, _) => match em.env.get_other(name.as_str()) {
                Some(Other::Variable(p)) => Ok(p.dup()),
                Some(Other::Global(p)) => Ok(p.dup()),
                Some(Other::Type(_)) => Err(CompileError::Unsupported),
                None => Err(CompileError::UndeclaredIdentifier(name.clone())),
            },
            Token::Str(v, _) => {
                let n = em.next_str;
                if em.next_str < u64::MAX {
                    em.next_str = em.next_str + 1;
                }
                let len = v.as_str().as_bytes().len();
                if len >= 0xffff_ffff {
                    return Err(CompileError::Unsupported);
                }
                let ty = IrType::Array(Box::new(IrType::I8), (len + 1) as u32);
                let mut name = String::from_str("@str");
                let d = u64_to_string(n);
                name.append(d.as_str());
                let mut line = name.clone();
                line.append(" = private unnamed_addr constant ");
                let t = ty.render();
                line.append(t.as_str());
                line.append(" c\"");
                let esc = crate::text::c_string_hex(v.as_str());
                line.append(esc.as_str());
                line.append("\\00\"");
                em.push_decl(line);
                Ok(Ptr { op: name, ty })
            },
            _ => Err(CompileError::Unsupported),
    }
}

/// An infix application: assignment stores through the left slot; the rest
/// load both sides, unify int and float, and emit the operation or the
/// builtin comparison call.
#[verifier::rlimit(100)]
#[verifier::spinoff_prover]
fn emit_bin_exp(em: &mut Emitter, b: &crate::expression::BinExpNode) -> (r: Result<Ptr, CompileError>)
    requires
        old(em).building(),
        old(em).env@.len() > 0,
    ensures
        final(em).building(),
        final(em).env@.len() == old(em).env@.len(),
        final(em).blocks@.len() >= old(em).blocks@.len(),
        match r {
            Ok(p) => sv_emit_expression(old(em)@, (crate::expression::ExprV::BinExp(
                b.op.token@,
                Box::new(crate::expression::expr_v(*b.lhs)),
                Box::new(crate::expression::expr_v(*b.rhs)),
            ))) == Ok::<(PtrV, EmitterV), ErrV>(
                (p@, final(em)@),
            ),
            Err(e) => sv_emit_expression(old(em)@, (crate::expression::ExprV::BinExp(
                b.op.token@,
                Box::new(crate::expression::expr_v(*b.lhs)),
                Box::new(crate::expression::expr_v(*b.rhs)),
            ))) == Err::<(PtrV, EmitterV), ErrV>(e@),
        },
    decreases *b, 0int,
{
    let (op, _d) = match &b.op.token {
        Token::Op(op, d) => (*op, d),
        _ => {
            return Err(CompileError::Unsupported);
        },
    };
    match op {
        Operator::Assign => {
            let lhs = match emit_expression(em, &*b.lhs) {
                Ok(p) => p,
                Err(e) => {
                    return Err(e);
                },
            };
            let rhs = match emit_expression(em, &*b.rhs) {
                Ok(p) => p,
                Err(e) => {
                    return Err(e);
                },
            };
            let (rv, rty) = load_value(em, &rhs);
            match coerce_store(em, &lhs, &rv, &rty) {
                Ok(()) => Ok(lhs),
                Err(e) => Err(e),
            }
        },
        Operator::AddAssign => {
            let lhs = match emit_expression(em, &*b.lhs) {
                Ok(p) => p,
                Err(e) => {
                    return Err(e);
                },
            };
            let rhs = match emit_expression(em, &*b.rhs) {
                Ok(p) => p,
                Err(e) => {
                    return Err(e);
                },
            };
            match &lhs.ty {
                IrType::I32 | IrType::I8 => {
                    let (lv, _lt) = load_value(em, &lhs);
                    let (rv, rt) = load_value(em, &rhs);
                    let rv2 = match cast_to_int(em, &rv, &rt) {
                        Ok(v) => v,
                        Err(e) => {
                            return Err(e);
                        },
                    };
                    let sum = arith_line(em, "add", &lv, &rv2, &IrType::I32);
                    store_to(em, &lhs, &sum);
                    Ok(lhs)
                },
                _ => Err(CompileError::Unsupported),
            }
        },
        _ => {
            let lhs = match emit_expression(em, &*b.lhs) {
                Ok(p) => p,
                Err(e) => {
                    return Err(e);
                },
            };
            let rhs = match emit_expression(em, &*b.rhs) {
                Ok(p) => p,
                Err(e) => {
                    return Err(e);
                },
            };
            let (lv, lt) = load_value(em, &lhs);
            match &lt {
                IrType::Array(elem, _n) => {
                    let (rv0, rt) = load_value(em, &rhs);
                    let rv = match cast_to_int(em, &rv0, &rt) {
                        Ok(v) => v,
                        Err(e) => {
                            return Err(e);
                        },
                    };
                    match op {
                        Operator::Add => {
                            let g = gep_array(em, &lhs, &rv);
                            let ety = (**elem).dup();
                            Ok(store_value(em, &g, &IrType::Pointer(Box::new(ety))))
                        },
                        _ => Err(CompileError::Unsupported),
                    }
                },
                IrType::I32 | IrType::I8 | IrType::F32 => {
                    let (rv0, rt) = load_value(em, &rhs);
                    let lhs_float: bool = match &lt {
                        IrType::F32 => true,
                        _ => false,
                    };
                    let rhs_float: bool = match &rt {
                        IrType::F32 => true,
                        _ => false,
                    };
                    if lhs_float || rhs_float {
                        // mixed operands widen the integer side to float
                        let lv2 = match cast_to_float(em, &lv, &lt) {
                            Ok(v) => v,
                            Err(e) => {
                                return Err(e);
                            },
                        };
                        let rv2 = match cast_to_float(em, &rv0, &rt) {
                            Ok(v) => v,
                            Err(e) => {
                                return Err(e);
                            },
                        };
                        let res = match op {
                            Operator::Add => arith_line(em, "fadd", &lv2, &rv2, &IrType::F32),
                            Operator::Mul => arith_line(em, "fmul", &lv2, &rv2, &IrType::F32),
                            _ => {
                                return Err(CompileError::Unsupported);
                            },
                        };
                        Ok(store_value(em, &res, &IrType::F32))
                    } else {
                        let lv2 = match cast_to_int(em, &lv, &lt) {
                            Ok(v) => v,
                            Err(e) => {
                                return Err(e);
                            },
                        };
                        let rv2 = match cast_to_int(em, &rv0, &rt) {
                            Ok(v) => v,
                            Err(e) => {
                                return Err(e);
                            },
                        };
                        let res = match op {
                            Operator::Add => arith_line(em, "add", &lv2, &rv2, &IrType::I32),
                            Operator::Sub => arith_line(em, "sub", &lv2, &rv2, &IrType::I32),
                            Operator::Mul => arith_line(em, "mul", &lv2, &rv2, &IrType::I32),
                            Operator::Equal => emit_compare_expression_int(
                                em,
                                "eq_int",
                                &lv2,
                                &rv2,
                            ),
                            Operator::Greater => emit_compare_expression_int(
                                em,
                                "sgt_int",
                                &lv2,
                                &rv2,
                            ),
                            Operator::Less => emit_compare_expression_int(
                                em,
                                "slt_int",
                                &lv2,
                                &rv2,
                            ),
                            Operator::And => emit_compare_expression_int(
                                em,
                                "and_int",
                                &lv2,
                                &rv2,
                            ),
                            Operator::Or => emit_compare_expression_int(
                                em,
                                "or_int",
                                &lv2,
                                &rv2,
                            ),
                            _ => {
                                return Err(CompileError::Unsupported);
                            },
                        };
                        Ok(store_value(em, &res, &IrType::I32))
                    }
                },
                _ => Err(CompileError::Unsupported),
            }
        },
    }
}

/// A prefix application: address-of, single dereference, or pre-increment.
fn emit_prefix(em: &mut Emitter, pn: &crate::expression::PrefixNode) -> (r: Result<Ptr, CompileError>)
    requires
        old(em).building(),
        old(em).env@.len() > 0,
    ensures
        final(em).building(),
        final(em).env@.len() == old(em).env@.len(),
        final(em).blocks@.len() >= old(em).blocks@.len(),
        match r {
            Ok(p) => sv_emit_expression(old(em)@, (crate::expression::ExprV::Prefix(
                pn.prefix.token@,
                Box::new(crate::expression::expr_v(*pn.node)),
            ))) == Ok::<(PtrV, EmitterV), ErrV>(
                (p@, final(em)@),
            ),
            Err(e) => sv_emit_expression(old(em)@, (crate::expression::ExprV::Prefix(
                pn.prefix.token@,
                Box::new(crate::expression::expr_v(*pn.node)),
            ))) == Err::<(PtrV, EmitterV), ErrV>(e@),
        },
    decreases *pn, 0int,
{
    let kind = match &pn.prefix.token {
        Token::PrefixOp(k, _) => *k,
        _ => {
            return Err(CompileError::Unsupported);
        },
    };
    match kind {
        PrefixOp::Address => {
            let inner = match emit_expression(em, &*pn.node) {
                Ok(p) => p,
                Err(e) => {
                    return Err(e);
                },
            };
            let ty = IrType::Pointer(Box::new(inner.ty.dup()));
            Ok(store_value(em, &inner.op, &ty))
        },
        PrefixOp::Deref => {
            let inner = match emit_expression(em, &*pn.node) {
                Ok(p) => p,
                Err(e) => {
                    return Err(e);
                },
            };
            let (v, ty) = load_value(em, &inner);
            match ty {
                IrType::Pointer(elem) => {
                    let target = Ptr { op: v, ty: (*elem).dup() };
                    let (v2, t2) = load_value(em, &target);
                    Ok(store_value(em, &v2, &t2))
                },
                _ => Err(CompileError::Unsupported),
            }
        },
        PrefixOp::Increment => {
            let inner = match emit_expression(em, &*pn.node) {
                Ok(p) => p,
                Err(e) => {
                    return Err(e);
                },
            };
            let (v, ty) = load_value(em, &inner);
            match ty {
                IrType::I32 | IrType::I8 => {
                    let one = String::from_str("1");
                    let v2 = arith_line(em, "add", &v, &one, &IrType::I32);
                    store_to(em, &inner, &v2);
                    Ok(inner)
                },
                _ => Err(CompileError::Unsupported),
            }
        },
        _ => Err(CompileError::Unsupported),
    }
}

/// Postfix increment: the slot holding the value before the increment.
fn emit_suffix(em: &mut Emitter, sf: &crate::expression::SuffixNode) -> (r: Result<Ptr, CompileError>)
    requires
        old(em).building(),
        old(em).env@.len() > 0,
    ensures
        final(em).building(),
        final(em).env@.len() == old(em).env@.len(),
        final(em).blocks@.len() >= old(em).blocks@.len(),
        match r {
            Ok(p) => sv_emit_expression(old(em)@, (crate::expression::ExprV::Suffix(
                sf.suffix.token@,
                Box::new(crate::expression::expr_v(*sf.node)),
            ))) == Ok::<(PtrV, EmitterV), ErrV>(
                (p@, final(em)@),
            ),
            Err(e) => sv_emit_expression(old(em)@, (crate::expression::ExprV::Suffix(
                sf.suffix.token@,
                Box::new(crate::expression::expr_v(*sf.node)),
            ))) == Err::<(PtrV, EmitterV), ErrV>(e@),
        },
    decreases *sf, 0int,
{
    let kind = match &sf.suffix.token {
        Token::SuffixOp(k, _) => *k,
        _ => {
            return Err(CompileError::Unsupported);
        },
    };
    match kind {
        SuffixOp::Increment => {
            let inner = match emit_expression(em, &*sf.node) {
                Ok(p) => p,
                Err(e) => {
                    return Err(e);
                },
            };
            let (v, ty) = load_value(em, &inner);
            match ty {
                IrType::I32 | IrType::I8 => {
                    let one = String::from_str("1");
                    let v2 = arith_line(em, "add", &v, &one, &IrType::I32);
                    store_to(em, &inner, &v2);
                    Ok(store_value(em, &v, &IrType::I32))
                },
                _ => Err(CompileError::Unsupported),
            }
        },
        _ => Err(CompileError::Unsupported),
    }
}

/// Indexing: the element's address, through the array type or one load of
/// a pointer.
fn emit_array_index(em: &mut Emitter, ai: &crate::expression::ArrayIndexNode) -> (r: Result<
    Ptr,
    CompileError,
>)
    requires
        old(em).building(),
        old(em).env@.len() > 0,
    ensures
        final(em).building(),
        final(em).env@.len() == old(em).env@.len(),
        final(em).blocks@.len() >= old(em).blocks@.len(),
        match r {
            Ok(p) => sv_emit_expression(old(em)@, (crate::expression::ExprV::ArrayIndex(
                Box::new(crate::expression::expr_v(*ai.array)),
                Box::new(crate::expression::expr_v(*ai.index)),
            ))) == Ok::<(PtrV, EmitterV), ErrV>(
                (p@, final(em)@),
            ),
            Err(e) => sv_emit_expression(old(em)@, (crate::expression::ExprV::ArrayIndex(
                Box::new(crate::expression::expr_v(*ai.array)),
                Box::new(crate::expression::expr_v(*ai.index)),
            ))) == Err::<(PtrV, EmitterV), ErrV>(e@),
        },
    decreases *ai, 0int,
{
    let arr = match emit_expression(em, &*ai.array) {
        Ok(p) => p,
        Err(e) => {
            return Err(e);
        },
    };
    let idx = match emit_expression(em, &*ai.index) {
        Ok(p) => p,
        Err(e) => {
            return Err(e);
        },
    };
    let (iv0, it) = load_value(em, &idx);
    let iv = match cast_to_int(em, &iv0, &it) {
        Ok(v) => v,
        Err(e) => {
            return Err(e);
        },
    };
    match &arr.ty {
        IrType::Array(elem, _n) => {
            let g = gep_array(em, &arr, &iv);
            Ok(Ptr { op: g, ty: (**elem).dup() })
        },
        IrType::Pointer(elem) => {
            let (pv, _pt) = load_value(em, &arr);
            let ety = (**elem).dup();
            let g = gep_pointer(em, &pv, &ety, &iv);
            Ok(Ptr { op: g, ty: ety })
        },
        _ => Err(CompileError::Unsupported),
    }
}

/// A call: the flattened arguments, the declared symbol with matching
/// arity, the call line, and the result stashed in a fresh slot.
fn emit_function_call(em: &mut Emitter, fc: &crate::expression::FunctionCallNode) -> (r: Result<
    Ptr,
    CompileError,
>)
    requires
        old(em).building(),
        old(em).env@.len() > 0,
    ensures
        final(em).building(),
        final(em).env@.len() == old(em).env@.len(),
        final(em).blocks@.len() >= old(em).blocks@.len(),
        match r {
            Ok(p) => sv_emit_expression(old(em)@, (crate::expression::ExprV::FunctionCall(
                fc.identifier.token@,
                Box::new(crate::expression::expr_v(*fc.parameters)),
            ))) == Ok::<(PtrV, EmitterV), ErrV>(
                (p@, final(em)@),
            ),
            Err(e) => sv_emit_expression(old(em)@, (crate::expression::ExprV::FunctionCall(
                fc.identifier.token@,
                Box::new(crate::expression::expr_v(*fc.parameters)),
            ))) == Err::<(PtrV, EmitterV), ErrV>(e@),
        },
    decreases *fc, 0int,
{
    let name = match &fc.identifier.token {
        Token::Ide(name, _) => name.clone(),
        _ => {
            return Err(CompileError::Unsupported);
        },
    };
    let args = match emit_comma_as_arguments(em, &*fc.parameters) {
        Ok(a) => a,
        Err(e) => {
            return Err(e);
        },
    };
    let info = match find_fun(&em.funs, name.as_str()) {
        Some(i) => i,
        None => {
            return Err(CompileError::UndeclaredFunction(name));
        },
    };
    let nparams = em.funs[info].params.len();
    let var_args = em.funs[info].var_args;
    if args.len() < nparams || (!var_args && args.len() != nparams) {
        return Err(CompileError::ArityMismatch(name));
    }
    proof {
        assert(funs_v(em.funs@)[info as int] == em.funs@[info as int]@);
    }
    let ret = em.funs[info].ret.dup();
    let reg = em.fresh_reg();
    let mut line = String::from_str("  ");
    line.append(reg.as_str());
    line.append(" = call ");
    let rt = ret.render();
    line.append(rt.as_str());
    line.append(" @");
    line.append(name.as_str());
    line.append("(");
    let mut line = render_call_args(line, &args, 0);
    line.append(")");
    em.append_line(line);
    Ok(store_value(em, &reg, &ret))
}

/// Field access: the synthetic `var.field` binding's slot.
fn emit_access(em: &mut Emitter, ac: &crate::expression::AccessNode) -> (r: Result<Ptr, CompileError>)
    requires
        old(em).building(),
        old(em).env@.len() > 0,
    ensures
        final(em).building(),
        final(em).env@.len() == old(em).env@.len(),
        final(em).blocks@.len() >= old(em).blocks@.len(),
        match r {
            Ok(p) => sv_emit_expression(old(em)@, (crate::expression::ExprV::Access(
                ac.access_identifier@,
                Box::new(crate::expression::expr_v(*ac.node)),
            ))) == Ok::<(PtrV, EmitterV), ErrV>(
                (p@, final(em)@),
            ),
            Err(e) => sv_emit_expression(old(em)@, (crate::expression::ExprV::Access(
                ac.access_identifier@,
                Box::new(crate::expression::expr_v(*ac.node)),
            ))) == Err::<(PtrV, EmitterV), ErrV>(e@),
        },
    decreases *ac, 0int,
{
    let varname = match &*ac.node {
        ExpressionNode::Token(tn) => match &tn.token {
            Token::Ide(name, _) => name.clone(),
            _ => {
                return Err(CompileError::Unsupported);
            },
        },
        _ => {
            return Err(CompileError::Unsupported);
        },
    };
    let field = match &ac.access_identifier {
        Token::Ide(name, _) => name.clone(),
        _ => {
            return Err(CompileError::Unsupported);
        },
    };
    let mut key = varname;
    key.append(".");
    key.append(field.as_str());
    match em.env.get_other(key.as_str()) {
        Some(Other::Variable(p)) => Ok(p.dup()),
        _ => Err(CompileError::NoSuchField(key)),
    }
}

/// A ternary: then and else blocks each fill a slot, and a continuation phi
/// joins the two slots.
fn emit_ternary_exp(em: &mut Emitter, t: &crate::expression::TernaryExpNode) -> (r: Result<
    Ptr,
    CompileError,
>)
    requires
        old(em).building(),
        old(em).env@.len() > 0,
    ensures
        final(em).building(),
        final(em).env@.len() == old(em).env@.len(),
        final(em).blocks@.len() >= old(em).blocks@.len(),
        match r {
            Ok(p) => sv_emit_expression(old(em)@, (crate::expression::ExprV::TernaryExp(
                Box::new(crate::expression::expr_v(*t.condition)),
                Box::new(crate::expression::expr_v(*t.lhs)),
                Box::new(crate::expression::expr_v(*t.rhs)),
            ))) == Ok::<(PtrV, EmitterV), ErrV>(
                (p@, final(em)@),
            ),
            Err(e) => sv_emit_expression(old(em)@, (crate::expression::ExprV::TernaryExp(
                Box::new(crate::expression::expr_v(*t.condition)),
                Box::new(crate::expression::expr_v(*t.lhs)),
                Box::new(crate::expression::expr_v(*t.rhs)),
            ))) == Err::<(PtrV, EmitterV), ErrV>(e@),
        },
    decreases *t, 0int,
{
    let then_bb = em.new_block();
    let else_bb = em.new_block();
    let cont_bb = em.new_block();
    let c = match emit_condition_expression_eq(em, &*t.condition) {
        Ok(c) => c,
        Err(e) => {
            return Err(e);
        },
    };
    em.terminate(cond_br_text(&c, else_bb, then_bb));
    em.position_at(then_bb);
    let a = match emit_expression(em, &*t.lhs) {
        Ok(p) => p,
        Err(e) => {
            return Err(e);
        },
    };
    let then_end = em.cur_label();
    em.terminate(br_text(cont_bb));
    em.position_at(else_bb);
    let b = match emit_expression(em, &*t.rhs) {
        Ok(p) => p,
        Err(e) => {
            return Err(e);
        },
    };
    let else_end = em.cur_label();
    em.terminate(br_text(cont_bb));
    em.position_at(cont_bb);
    let reg = em.fresh_reg();
    let ty = a.ty.dup();
    let tt = ty.render();
    let mut line = String::from_str("  ");
    line.append(reg.as_str());
    line.append(" = phi ");
    line.append(tt.as_str());
    line.append("* [ ");
    line.append(a.op.as_str());
    line.append(", %");
    let la = label_text(then_end);
    line.append(la.as_str());
    line.append(" ], [ ");
    line.append(b.op.as_str());
    line.append(", %");
    let lb = label_text(else_end);
    line.append(lb.as_str());
    line.append(" ]");
    em.append_line(line);
    Ok(Ptr { op: reg, ty })
}
/// Whether two IR types are the same form.
pub fn ir_type_eq(a: &IrType, b: &IrType) -> (r: bool)
    ensures
        r == (a@ == b@),
    decreases a,
{
    match (a, b) {
        (IrType::I8, IrType::I8) => true,
        (IrType::I32, IrType::I32) => true,
        (IrType::F32, IrType::F32) => true,
        (IrType::Pointer(x), IrType::Pointer(y)) => ir_type_eq(&**x, &**y),
        (IrType::Array(x, n), IrType::Array(y, m)) => *n == *m && ir_type_eq(&**x, &**y),
        (IrType::Struct(x), IrType::Struct(y)) => crate::text::str_eq(x.as_str(), y.as_str()),
        _ => false,
    }
}

/// Stores a value into a slot, coercing it to the slot's element type:
/// integer conversion toward zero, signed widening to float, an `i8` store
/// through a truncation; pointers store as they are.
fn coerce_store(em: &mut Emitter, slot: &Ptr, val: &String, val_ty: &IrType) -> (r: Result<
    (),
    CompileError,
>)
    requires
        old(em).building(),
    ensures
        final(em).building(),
        final(em).env == old(em).env,
        final(em).blocks@.len() == old(em).blocks@.len(),
        final(em).cur == old(em).cur,
        match r {
            Ok(()) => sv_coerce_store(old(em)@, slot@, val@, val_ty@) == Ok::<EmitterV, ErrV>(
                final(em)@,
            ),
            Err(e) => sv_coerce_store(old(em)@, slot@, val@, val_ty@) == Err::<EmitterV, ErrV>(e@),
        },
{
    match &slot.ty {
        IrType::I32 => {
            let v = match cast_to_int(em, val, val_ty) {
                Ok(v) => v,
                Err(e) => {
                    return Err(e);
                },
            };
            store_to(em, slot, &v);
            Ok(())
        },
        IrType::I8 => {
            let v = match cast_to_int(em, val, val_ty) {
                Ok(v) => v,
                Err(e) => {
                    return Err(e);
                },
            };
            let reg = em.fresh_reg();
            let mut line = String::from_str("  ");
            line.append(reg.as_str());
            line.append(" = trunc i32 ");
            line.append(v.as_str());
            line.append(" to i8");
            em.append_line(line);
            store_to(em, slot, &reg);
            Ok(())
        },
        IrType::F32 => {
            let v = match cast_to_float(em, val, val_ty) {
                Ok(v) => v,
                Err(e) => {
                    return Err(e);
                },
            };
            store_to(em, slot, &v);
            Ok(())
        },
        IrType::Pointer(_) => {
            match val_ty {
                IrType::Pointer(_) => {
                    store_to(em, slot, val);
                    Ok(())
                },
                _ => Err(CompileError::Unsupported),
            }
        },
        _ => Err(CompileError::Unsupported),
    }
}

/// A `store` through an existing slot.
fn store_to(em: &mut Emitter, slot: &Ptr, val: &String)
    requires
        old(em).building(),
    ensures
        final(em).building(),
        final(em).env == old(em).env,
        final(em).blocks@.len() == old(em).blocks@.len(),
        final(em).cur == old(em).cur,
        final(em)@ == sv_store_to(old(em)@, slot@, val@),
{
    let t = slot.ty.render();
    let mut line = String::from_str("  store ");
    line.append(t.as_str());
    line.append(" ");
    line.append(val.as_str());
    line.append(", ");
    line.append(t.as_str());
    line.append("* ");
    line.append(slot.op.as_str());
    em.append_line(line);
}

/// Element address of `arr[idx]` for an array-typed slot, via indices 0, idx.
fn gep_array(em: &mut Emitter, arr: &Ptr, idx: &String) -> (r: String)
    requires
        old(em).building(),
    ensures
        final(em).building(),
        final(em).env == old(em).env,
        final(em).blocks@.len() == old(em).blocks@.len(),
        final(em).cur == old(em).cur,
        (r@, final(em)@) == sv_gep_array(old(em)@, arr@, idx@),
{
    let reg = em.fresh_reg();
    let t = arr.ty.render();
    let mut line = String::from_str("  ");
    line.append(reg.as_str());
    line.append(" = getelementptr ");
    line.append(t.as_str());
    line.append(", ");
    line.append(t.as_str());
    line.append("* ");
    line.append(arr.op.as_str());
    line.append(", i32 0, i32 ");
    line.append(idx.as_str());
    em.append_line(line);
    reg
}

/// Element address of `p[idx]` for a pointer value, via a single index.
fn gep_pointer(em: &mut Emitter, pval: &String, elem: &IrType, idx: &String) -> (r: String)
    requires
        old(em).building(),
    ensures
        final(em).building(),
        final(em).env == old(em).env,
        final(em).blocks@.len() == old(em).blocks@.len(),
        final(em).cur == old(em).cur,
        (r@, final(em)@) == sv_gep_pointer(old(em)@, pval@, elem@, idx@),
{
    let reg = em.fresh_reg();
    let t = elem.render();
    let mut line = String::from_str("  ");
    line.append(reg.as_str());
    line.append(" = getelementptr ");
    line.append(t.as_str());
    line.append(", ");
    line.append(t.as_str());
    line.append("* ");
    line.append(pval.as_str());
    line.append(", i32 ");
    line.append(idx.as_str());
    em.append_line(line);
    reg
}

/// Finds a declared function by name.
fn find_fun(funs: &Vec<FnInfo>, name: &str) -> (r: Option<usize>)
    ensures
        r matches Some(i) ==> i < funs@.len() && sv_find_fun(funs_v(funs@), name@, 0) == Some(
            i as int,
        ),
        r is None ==> sv_find_fun(funs_v(funs@), name@, 0) is None,
{
    let mut i: usize = 0;
    while i < funs.len()
        invariant
            0 <= i <= funs@.len(),
            sv_find_fun(funs_v(funs@), name@, 0) == sv_find_fun(funs_v(funs@), name@, i as int),
        decreases funs@.len() - i,
    {
        proof {
            assert(funs_v(funs@)[i as int] == funs@[i as int]@);
        }
        if str_eq(funs[i].name.as_str(), name) {
            return Some(i);
        }
        i = i + 1;
    }
    None
}

/// Flattens an argument comma tree into an ordered list of loaded values,
/// decaying array values to element pointers.
pub fn emit_comma_as_parameters(em: &mut Emitter, node: &ExpressionNode) -> (r: Result<
    Vec<(String, IrType)>,
    CompileError,
>)
    requires
        old(em).building(),
        old(em).env@.len() > 0,
    ensures
        final(em).building(),
        final(em).env@.len() == old(em).env@.len(),
        final(em).blocks@.len() >= old(em).blocks@.len(),
        match r {
            Ok(args) => sv_emit_comma_as_arguments(old(em)@, node@) == Ok::<
                (Seq<(Seq<char>, IrTypeV)>, EmitterV),
                ErrV,
            >((args_v(args@), final(em)@)),
            Err(e) => sv_emit_comma_as_arguments(old(em)@, node@) == Err::<
                (Seq<(Seq<char>, IrTypeV)>, EmitterV),
                ErrV,
            >(e@),
        },
    decreases node, 3int,
{
    emit_comma_as_arguments(em, node)
}

/// Flattens an argument comma tree into an ordered list of loaded values,
/// decaying array values to element pointers.
fn emit_comma_as_arguments(em: &mut Emitter, node: &ExpressionNode) -> (r: Result<
    Vec<(String, IrType)>,
    CompileError,
>)
    requires
        old(em).building(),
        old(em).env@.len() > 0,
    ensures
        final(em).building(),
        final(em).env@.len() == old(em).env@.len(),
        final(em).blocks@.len() >= old(em).blocks@.len(),
        match r {
            Ok(args) => sv_emit_comma_as_arguments(old(em)@, node@) == Ok::<
                (Seq<(Seq<char>, IrTypeV)>, EmitterV),
                ErrV,
            >((args_v(args@), final(em)@)),
            Err(e) => sv_emit_comma_as_arguments(old(em)@, node@) == Err::<
                (Seq<(Seq<char>, IrTypeV)>, EmitterV),
                ErrV,
            >(e@),
        },
    decreases node, 2int,
{
    match node {
        ExpressionNode::Empty => {
            let out: Vec<(String, IrType)> = Vec::new();
            proof {
                assert(args_v(out@) =~= Seq::<(Seq<char>, IrTypeV)>::empty());
            }
            Ok(out)
        },
        ExpressionNode::BinExp(b) => {
            let is_comma: bool = match &b.op.token {
                Token::Op(Operator::Comma, _) => true,
                _ => false,
            };
            if is_comma {
                let mut lhs = match emit_comma_as_arguments(em, &*b.lhs) {
                    Ok(a) => a,
                    Err(e) => {
                        return Err(e);
                    },
                };
                let ghost lv = args_v(lhs@);
                let mut rhs = match emit_comma_as_arguments(em, &*b.rhs) {
                    Ok(a) => a,
                    Err(e) => {
                        return Err(e);
                    },
                };
                let ghost rv = args_v(rhs@);
                lhs.append(&mut rhs);
                proof {
                    assert(args_v(lhs@) =~= lv + rv);
                }
                Ok(lhs)
            } else {
                let p = match emit_expression(em, node) {
                    Ok(p) => p,
                    Err(e) => {
                        return Err(e);
                    },
                };
                one_argument(em, p)
            }
        },
        _ => {
            let p = match emit_expression(em, node) {
                Ok(p) => p,
                Err(e) => {
                    return Err(e);
                },
            };
            one_argument(em, p)
        },
    }
}

/// Renders the argument list onto the call line.
fn render_call_args(line: String, args: &Vec<(String, IrType)>, i: usize) -> (r: String)
    requires
        i <= args@.len(),
    ensures
        r@ == sv_call_args(line@, args_v(args@), i as int),
    decreases args@.len() - i,
{
    if i >= args.len() {
        return line;
    }
    proof {
        assert(args_v(args@)[i as int] == (args@[i as int].0@, args@[i as int].1@));
    }
    let mut line = line;
    if i > 0 {
        line.append(", ");
    }
    let t = args[i].1.render();
    line.append(t.as_str());
    line.append(" ");
    line.append(args[i].0.as_str());
    render_call_args(line, args, i + 1)
}

/// Loads one argument slot, decaying an array to its first element's address.
fn one_argument(em: &mut Emitter, p: Ptr) -> (r: Result<Vec<(String, IrType)>, CompileError>)
    requires
        old(em).building(),
    ensures
        final(em).building(),
        final(em).env == old(em).env,
        final(em).blocks@.len() == old(em).blocks@.len(),
        final(em).cur == old(em).cur,
        r matches Ok(out) && (args_v(out@), final(em)@) == sv_one_argument(old(em)@, p@),
{
    let mut out: Vec<(String, IrType)> = Vec::new();
    match &p.ty {
        IrType::Array(elem, _n) => {
            let zero = String::from_str("0");
            let g = gep_array(em, &p, &zero);
            out.push((g, IrType::Pointer(Box::new((**elem).dup()))));
        },
        _ => {
            let (v, ty) = load_value(em, &p);
            out.push((v, ty));
        },
    }
    Ok(out)
}


/// A fresh scope pre-seeded with the primitive type names, as `Scope::new`
/// builds it.
pub open spec fn sv_fresh_scope() -> crate::environment::ScopeV {
    crate::environment::ScopeV {
        other_stack: seq![
            ("int"@, crate::environment::OtherV::Type(IrTypeV::I32)),
            ("char"@, crate::environment::OtherV::Type(IrTypeV::I8)),
            ("float"@, crate::environment::OtherV::Type(IrTypeV::F32)),
        ],
        tag_stack: Seq::empty(),
    }
}

/// A name bound in the innermost scope, or a fatal redefinition.
pub open spec fn sv_insert_other(
    env: Seq<crate::environment::ScopeV>,
    k: Seq<char>,
    v: crate::environment::OtherV,
) -> Result<Seq<crate::environment::ScopeV>, ErrV> {
    if env.len() > 0 && crate::environment::assoc_other(env.last().other_stack, k) is None {
        Ok(
            env.drop_last().push(
                crate::environment::ScopeV {
                    other_stack: env.last().other_stack.push((k, v)),
                    tag_stack: env.last().tag_stack,
                },
            ),
        )
    } else {
        Err(ErrV::Redefinition(k))
    }
}

/// A tag bound in the innermost scope, or a fatal redefinition.
pub open spec fn sv_insert_tag(
    env: Seq<crate::environment::ScopeV>,
    k: Seq<char>,
    v: crate::environment::TagV,
) -> Result<Seq<crate::environment::ScopeV>, ErrV> {
    if env.len() > 0 && crate::environment::assoc_tag(env.last().tag_stack, k) is None {
        Ok(
            env.drop_last().push(
                crate::environment::ScopeV {
                    other_stack: env.last().other_stack,
                    tag_stack: env.last().tag_stack.push((k, v)),
                },
            ),
        )
    } else {
        Err(ErrV::Redefinition(k))
    }
}

/// What lowering a local declaration does: the initializer's slot reused
/// when it already has the declared type, else a fresh slot filled with the
/// coerced value; then the binding.
pub open spec fn sv_emit_declare(em: EmitterV, d: crate::parser::DvnV) -> Result<
    (Control, EmitterV),
    ErrV,
>
    decreases d, 4int, 0int,
{
    match crate::environment::spec_resolve(em.env, d.value_type) {
        Err(e) => Err(e),
        Ok(ty) => {
            let slot_res: Result<(PtrV, EmitterV), ErrV> = match d.init {
                Some(e) => match sv_emit_expression(em, e) {
                    Err(er) => Err(er),
                    Ok((got, em1)) => if got.ty == ty {
                        Ok((got, em1))
                    } else {
                        let (target, em2) = sv_alloca(em1, ty);
                        let ((v, vt), em3) = sv_load(em2, got);
                        match sv_coerce_store(em3, target, v, vt) {
                            Ok(em4) => Ok((target, em4)),
                            Err(er) => Err(er),
                        }
                    },
                },
                None => Ok(sv_alloca(em, ty)),
            };
            match slot_res {
                Err(e) => Err(e),
                Ok((slot, em5)) => match sv_insert_other(
                    em5.env,
                    d.identifier,
                    crate::environment::OtherV::Variable(slot),
                ) {
                    Ok(env2) => Ok((Control::Continue, EmitterV { env: env2, ..em5 })),
                    Err(e) => Err(e),
                },
            }
        },
    }
}

/// `return expr;` lowered: the value, coerced to the integer return type,
/// terminates the block.
pub open spec fn sv_emit_return(em: EmitterV, e: crate::expression::ExprV) -> Result<
    (Control, EmitterV),
    ErrV,
>
    decreases e, 4int, 0int,
{
    match sv_emit_expression(em, e) {
        Err(er) => Err(er),
        Ok((p, em1)) => if !(em1.cur_ret is I32 || em1.cur_ret is I8) {
            Err(ErrV::Unsupported)
        } else {
            let ((v, ty), em2) = sv_load(em1, p);
            match sv_cast_to_int(em2, v, ty) {
                Err(er) => Err(er),
                Ok((iv, em3)) => Ok(
                    (Control::Break, sv_terminate(em3, "  ret i32 "@ + iv)),
                ),
            }
        },
    }
}

/// The statements of a block in order, stopping after the first that
/// terminates its block.
pub open spec fn sv_emit_stmts(
    em: EmitterV,
    ss: Seq<crate::parser::StmtV>,
    i: int,
    nb: NextBlock,
) -> Result<(Control, EmitterV), ErrV>
    decreases ss, 4int, ss.len() - i,
{
    if 0 <= i < ss.len() {
        match sv_emit_statement(em, ss[i], nb) {
            Err(e) => Err(e),
            Ok((Control::Continue, em1)) => sv_emit_stmts(em1, ss, i + 1, nb),
            Ok((Control::Break, em1)) => Ok((Control::Break, em1)),
        }
    } else {
        Ok((Control::Continue, em))
    }
}

/// A brace block: a fresh scope around its statements.
pub open spec fn sv_emit_compound(
    em: EmitterV,
    ss: Seq<crate::parser::StmtV>,
    nb: NextBlock,
) -> Result<(Control, EmitterV), ErrV>
    decreases ss, 5int, 0int,
{
    let em1 = EmitterV { env: em.env.push(sv_fresh_scope()), ..em };
    match sv_emit_stmts(em1, ss, 0, nb) {
        Err(e) => Err(e),
        Ok((c, em2)) => Ok((c, EmitterV { env: em2.env.drop_last(), ..em2 })),
    }
}

/// The switch's first pass: one body block per label, one compare block per
/// case until a default adds its own trailing one.
pub open spec fn sv_switch_plan(
    em: EmitterV,
    ss: Seq<crate::parser::StmtV>,
    i: int,
    need_cmp: bool,
    cmps: Seq<u64>,
    cases: Seq<u64>,
) -> Result<(Seq<u64>, Seq<u64>, EmitterV), ErrV>
    decreases ss, 4int, ss.len() - i,
{
    if 0 <= i < ss.len() {
        match ss[i] {
            crate::parser::StmtV::Case(_, _) => {
                let (case_bb, em1) = sv_new_block(em);
                if need_cmp {
                    let (cmp_bb, em2) = sv_new_block(em1);
                    sv_switch_plan(em2, ss, i + 1, need_cmp, cmps.push(cmp_bb), cases.push(case_bb))
                } else {
                    sv_switch_plan(em1, ss, i + 1, need_cmp, cmps, cases.push(case_bb))
                }
            },
            crate::parser::StmtV::Default(_) => {
                let (default_bb, em1) = sv_new_block(em);
                let (cmp_bb, em2) = sv_new_block(em1);
                sv_switch_plan(em2, ss, i + 1, false, cmps.push(cmp_bb), cases.push(default_bb))
            },
            _ => Err(ErrV::Unsupported),
        }
    } else {
        Ok((cmps, cases, em))
    }
}

/// The switch's compare chain: each case tests for equality and falls to
/// the next compare block or the continuation; a default enters its body.
pub open spec fn sv_switch_cmps(
    em: EmitterV,
    ss: Seq<crate::parser::StmtV>,
    cmps: Seq<u64>,
    cases: Seq<u64>,
    cond_v: Seq<char>,
    cont: u64,
    idx: int,
) -> Result<EmitterV, ErrV>
    decreases ss, 4int, cmps.len() - idx,
{
    if 0 <= idx < cmps.len() {
        if idx >= ss.len() || idx >= cases.len() {
            Err(ErrV::Unsupported)
        } else {
            let next_ref = if idx + 1 < cmps.len() {
                cmps[idx + 1]
            } else {
                cont
            };
            let em1 = sv_position_at(em, cmps[idx]);
            match ss[idx] {
                crate::parser::StmtV::Case(cexpr, _) => match sv_emit_expression(em1, cexpr) {
                    Err(e) => Err(e),
                    Ok((p, em2)) => {
                        let ((cv0, ct), em3) = sv_load(em2, p);
                        match sv_cast_to_int(em3, cv0, ct) {
                            Err(e) => Err(e),
                            Ok((cv, em4)) => {
                                let (reg, em5) = sv_fresh_reg(em4);
                                let line = "  "@ + reg + " = icmp eq i32 "@ + cv + ", "@ + cond_v;
                                let em6 = sv_append(em5, line);
                                let br = "  br i1 "@ + reg + ", label %"@ + label_name(cases[idx])
                                    + ", label %"@ + label_name(next_ref);
                                let em7 = sv_terminate(em6, br);
                                sv_switch_cmps(em7, ss, cmps, cases, cond_v, cont, idx + 1)
                            },
                        }
                    },
                },
                crate::parser::StmtV::Default(_) => {
                    let em2 = sv_terminate(em1, br_line_text(cases[idx]));
                    sv_switch_cmps(em2, ss, cmps, cases, cond_v, cont, idx + 1)
                },
                _ => Err(ErrV::Unsupported),
            }
        }
    } else {
        Ok(em)
    }
}

/// The switch's bodies: each is a compound; one that falls through branches
/// into the next body, one that broke branches to the continuation.
pub open spec fn sv_switch_bodies(
    em: EmitterV,
    ss: Seq<crate::parser::StmtV>,
    cases: Seq<u64>,
    cont: u64,
    nb: NextBlock,
    k: int,
) -> Result<EmitterV, ErrV>
    decreases ss, 6int, ss.len() - k,
{
    if 0 <= k < ss.len() {
        if k >= cases.len() {
            Err(ErrV::Unsupported)
        } else {
            let em1 = sv_position_at(em, cases[k]);
            let body: Result<(Control, EmitterV), ErrV> = match ss[k] {
                crate::parser::StmtV::Case(_, body_ss) => sv_emit_compound(em1, body_ss, nb),
                crate::parser::StmtV::Default(body_ss) => sv_emit_compound(em1, body_ss, nb),
                _ => Err(ErrV::Unsupported),
            };
            match body {
                Err(e) => Err(e),
                Ok((control, em2)) => {
                    let next_bb = match control {
                        Control::Continue => if k + 1 < ss.len() && k + 1 < cases.len() {
                            cases[k + 1]
                        } else {
                            cont
                        },
                        Control::Break => cont,
                    };
                    let em3 = sv_terminate(em2, br_line_text(next_bb));
                    sv_switch_bodies(em3, ss, cases, cont, nb, k + 1)
                },
            }
        }
    } else {
        Ok(em)
    }
}

/// The field declarations of a struct definition resolved in order: the
/// names, the field types, and the literal struct body text.
pub open spec fn sv_struct_fields(
    env: Seq<crate::environment::ScopeV>,
    ms: Seq<(Seq<char>, crate::token::BasicTypeV)>,
    i: int,
    names: Seq<Seq<char>>,
    ftypes: Seq<IrTypeV>,
    body: Seq<char>,
) -> Result<(Seq<Seq<char>>, Seq<IrTypeV>, Seq<char>), ErrV>
    decreases ms.len() - i,
{
    if 0 <= i < ms.len() {
        match crate::environment::spec_resolve(env, ms[i].1) {
            Err(e) => Err(e),
            Ok(ft) => {
                let body2 = if i > 0 {
                    body + ", "@
                } else {
                    body
                };
                sv_struct_fields(
                    env,
                    ms,
                    i + 1,
                    names.push(ms[i].0),
                    ftypes.push(ft),
                    body2 + type_text(ft),
                )
            },
        }
    } else {
        Ok((names, ftypes, body))
    }
}

/// A struct definition lowered: the tag records the names, the literal
/// struct type, and the field types.
pub open spec fn sv_struct_definition(em: EmitterV, d: crate::parser::StructDefV) -> Result<
    EmitterV,
    ErrV,
> {
    match sv_struct_fields(em.env, d.members, 0, Seq::empty(), Seq::empty(), "{ "@) {
        Err(e) => Err(e),
        Ok((ns, fs, b)) => {
            let st = IrTypeV::Struct(b + " }"@);
            match sv_insert_tag(
                em.env,
                d.identifier,
                crate::environment::TagV::Struct(
                    crate::environment::StructV { names: ns, struct_type: st, field_types: fs },
                ),
            ) {
                Ok(env2) => Ok(EmitterV { env: env2, ..em }),
                Err(e) => Err(e),
            }
        },
    }
}

/// The synthetic `var.field` bindings of a declared struct variable: one
/// field address each, by index into the one struct slot.
pub open spec fn sv_struct_field_binds(
    em: EmitterV,
    varname: Seq<char>,
    names: Seq<Seq<char>>,
    ftypes: Seq<IrTypeV>,
    base_op: Seq<char>,
    base_ty: IrTypeV,
    count: int,
    i: int,
) -> Result<EmitterV, ErrV>
    decreases count - i,
{
    if 0 <= i < count {
        if i >= names.len() || i >= ftypes.len() {
            Err(ErrV::Unsupported)
        } else {
            let (reg, em1) = sv_fresh_reg(em);
            let line = "  "@ + reg + " = getelementptr "@ + type_text(base_ty) + ", "@ + type_text(
                base_ty,
            ) + "* "@ + base_op + ", i32 0, i32 "@ + crate::text::dec_str(i as nat);
            let em2 = sv_append(em1, line);
            let key = varname + "."@ + names[i];
            match sv_insert_other(
                em2.env,
                key,
                crate::environment::OtherV::Variable(PtrV { op: reg, ty: ftypes[i] }),
            ) {
                Ok(env2) => sv_struct_field_binds(
                    EmitterV { env: env2, ..em2 },
                    varname,
                    names,
                    ftypes,
                    base_op,
                    base_ty,
                    count,
                    i + 1,
                ),
                Err(e) => Err(e),
            }
        }
    } else {
        Ok(em)
    }
}

/// A struct variable lowered: one struct-typed slot, the variable binding,
/// and the per-field synthetic bindings.
pub open spec fn sv_struct_declare(em: EmitterV, d: crate::parser::DvnV) -> Result<EmitterV, ErrV> {
    match d.value_type {
        crate::token::BasicTypeV::Struct(tagname) => match crate::environment::env_lookup_tag(
            em.env,
            tagname,
        ) {
            Some(crate::environment::TagV::Struct(layout)) => {
                let (slot, em1) = sv_alloca(em, layout.struct_type);
                match sv_insert_other(
                    em1.env,
                    d.identifier,
                    crate::environment::OtherV::Variable(slot),
                ) {
                    Err(e) => Err(e),
                    Ok(env2) => {
                        let count = if layout.names.len() < layout.field_types.len() {
                            layout.names.len() as int
                        } else {
                            layout.field_types.len() as int
                        };
                        sv_struct_field_binds(
                            EmitterV { env: env2, ..em1 },
                            d.identifier,
                            layout.names,
                            layout.field_types,
                            slot.op,
                            layout.struct_type,
                            count,
                            0,
                        )
                    },
                }
            },
            None => Err(ErrV::UndeclaredTag(tagname)),
        },
        _ => Err(ErrV::Unsupported),
    }
}

/// The enumerators of an enum definition lowered as `int` declarations.
pub open spec fn sv_enum_decls(em: EmitterV, ds: Seq<crate::parser::DvnV>, i: int) -> Result<
    EmitterV,
    ErrV,
>
    decreases ds, 5int, ds.len() - i,
{
    if 0 <= i < ds.len() {
        match sv_emit_declare(em, ds[i]) {
            Err(e) => Err(e),
            Ok((_c, em1)) => sv_enum_decls(em1, ds, i + 1),
        }
    } else {
        Ok(em)
    }
}

/// What lowering one statement does to the state, and whether control falls
/// through or the block was terminated.
pub open spec fn sv_emit_statement(
    em: EmitterV,
    stmt: crate::parser::StmtV,
    nb: NextBlock,
) -> Result<(Control, EmitterV), ErrV>
    decreases stmt, 3int, 0int,
{
    match stmt {
        crate::parser::StmtV::Return(e) => sv_emit_return(em, e),
        crate::parser::StmtV::Declare(d) => sv_emit_declare(em, d),
        crate::parser::StmtV::Expression(e) => match sv_emit_expression(em, e) {
            Ok((_p, em1)) => Ok((Control::Continue, em1)),
            Err(er) => Err(er),
        },
        crate::parser::StmtV::Compound(ss) => sv_emit_compound(em, ss, nb),
        crate::parser::StmtV::If(cond, blk, els) => match sv_condition_eq(em, cond) {
            Err(e) => Err(e),
            Ok((c, em1)) => match els {
                None => {
                    let (then_bb, em2) = sv_new_block(em1);
                    let (cont_bb, em3) = sv_new_block(em2);
                    let em4 = sv_terminate(em3, cond_br_line(c, cont_bb, then_bb));
                    let em5 = sv_position_at(em4, then_bb);
                    match sv_emit_statement(em5, *blk, nb) {
                        Err(e) => Err(e),
                        Ok((_c1, em6)) => {
                            let em7 = sv_terminate(em6, br_line_text(cont_bb));
                            Ok((Control::Continue, sv_position_at(em7, cont_bb)))
                        },
                    }
                },
                Some(els_blk) => {
                    let (then_bb, em2) = sv_new_block(em1);
                    let (else_bb, em3) = sv_new_block(em2);
                    let em4 = sv_terminate(em3, cond_br_line(c, else_bb, then_bb));
                    let em5 = sv_position_at(em4, then_bb);
                    match sv_emit_statement(em5, *blk, nb) {
                        Err(e) => Err(e),
                        Ok((control_if, em6)) => {
                            let (has1, cont1, em8): (bool, u64, EmitterV) = if control_if
                                == Control::Continue {
                                let (cb, em7) = sv_new_block(em6);
                                (true, cb, sv_terminate(em7, br_line_text(cb)))
                            } else {
                                (false, 0u64, em6)
                            };
                            let em9 = sv_position_at(em8, else_bb);
                            match sv_emit_statement(em9, *els_blk, nb) {
                                Err(e) => Err(e),
                                Ok((control_else, em10)) => if control_else == Control::Continue {
                                    let (cb2, em11): (u64, EmitterV) = if has1 {
                                        (cont1, em10)
                                    } else {
                                        sv_new_block(em10)
                                    };
                                    let em12 = sv_terminate(em11, br_line_text(cb2));
                                    Ok((Control::Continue, sv_position_at(em12, cb2)))
                                } else if has1 {
                                    Ok((Control::Continue, sv_position_at(em10, cont1)))
                                } else {
                                    Ok((Control::Break, em10))
                                },
                            }
                        },
                    }
                },
            },
        },
        crate::parser::StmtV::While(cond, blk) => {
            let (comp_bb, em1) = sv_new_block(em);
            let (then_bb, em2) = sv_new_block(em1);
            let (cont_bb, em3) = sv_new_block(em2);
            let em4 = sv_terminate(em3, br_line_text(comp_bb));
            let em5 = sv_position_at(em4, comp_bb);
            match sv_condition_eq(em5, cond) {
                Err(e) => Err(e),
                Ok((c, em6)) => {
                    let em7 = sv_terminate(em6, cond_br_line(c, cont_bb, then_bb));
                    let em8 = sv_position_at(em7, then_bb);
                    let nb2 = NextBlock {
                        break_block: Some(cont_bb),
                        continue_block: Some(comp_bb),
                    };
                    match sv_emit_statement(em8, *blk, nb2) {
                        Err(e) => Err(e),
                        Ok((_c, em9)) => {
                            let em10 = sv_terminate(em9, br_line_text(comp_bb));
                            Ok((Control::Continue, sv_position_at(em10, cont_bb)))
                        },
                    }
                },
            }
        },
        crate::parser::StmtV::For(init, cond, step, blk) => {
            let (comp_bb, em1) = sv_new_block(em);
            let (then_bb, em2) = sv_new_block(em1);
            let (step_bb, em3) = sv_new_block(em2);
            let (cont_bb, em4) = sv_new_block(em3);
            let em5 = EmitterV { env: em4.env.push(sv_fresh_scope()), ..em4 };
            let none_nb = NextBlock { break_block: None, continue_block: None };
            match sv_emit_statement(em5, *init, none_nb) {
                Err(e) => Err(e),
                Ok((_c0, em6)) => {
                    let em7 = sv_terminate(em6, br_line_text(comp_bb));
                    let em8 = sv_position_at(em7, comp_bb);
                    match sv_condition_eq(em8, cond) {
                        Err(e) => Err(e),
                        Ok((c, em9)) => {
                            let em10 = sv_terminate(em9, cond_br_line(c, cont_bb, then_bb));
                            let em11 = sv_position_at(em10, then_bb);
                            let nb2 = NextBlock {
                                break_block: Some(cont_bb),
                                continue_block: Some(step_bb),
                            };
                            match sv_emit_statement(em11, *blk, nb2) {
                                Err(e) => Err(e),
                                Ok((_c1, em12)) => {
                                    let em13 = sv_terminate(em12, br_line_text(step_bb));
                                    let em14 = sv_position_at(em13, step_bb);
                                    match sv_emit_expression(em14, step) {
                                        Err(e) => Err(e),
                                        Ok((_p, em15)) => {
                                            let em16 = sv_terminate(em15, br_line_text(comp_bb));
                                            let em17 = sv_position_at(em16, cont_bb);
                                            Ok(
                                                (
                                                    Control::Continue,
                                                    EmitterV { env: em17.env.drop_last(), ..em17 },
                                                ),
                                            )
                                        },
                                    }
                                },
                            }
                        },
                    }
                },
            }
        },
        crate::parser::StmtV::Switch(cond, ss) => {
            let (entry_bb, em1) = sv_new_block(em);
            match sv_switch_plan(em1, ss, 0, true, Seq::empty(), Seq::empty()) {
                Err(e) => Err(e),
                Ok((cmps, cases, em2)) => {
                    let (cont_bb, em3) = sv_new_block(em2);
                    let nb2 = NextBlock { continue_block: None, break_block: Some(cont_bb) };
                    let em4 = sv_terminate(em3, br_line_text(entry_bb));
                    let em5 = sv_position_at(em4, entry_bb);
                    match sv_emit_expression(em5, cond) {
                        Err(e) => Err(e),
                        Ok((p, em6)) => {
                            let ((cv0, ct), em7) = sv_load(em6, p);
                            match sv_cast_to_int(em7, cv0, ct) {
                                Err(e) => Err(e),
                                Ok((cond_v, em8)) => {
                                    let first = if cmps.len() > 0 {
                                        cmps[0]
                                    } else {
                                        cont_bb
                                    };
                                    let em9 = sv_terminate(em8, br_line_text(first));
                                    match sv_switch_cmps(em9, ss, cmps, cases, cond_v, cont_bb, 0) {
                                        Err(e) => Err(e),
                                        Ok(em10) => match sv_switch_bodies(
                                            em10,
                                            ss,
                                            cases,
                                            cont_bb,
                                            nb2,
                                            0,
                                        ) {
                                            Err(e) => Err(e),
                                            Ok(em11) => Ok(
                                                (Control::Continue, sv_position_at(em11, cont_bb)),
                                            ),
                                        },
                                    }
                                },
                            }
                        },
                    }
                },
            }
        },
        crate::parser::StmtV::Break => match nb.break_block {
            Some(l) => Ok((Control::Break, sv_terminate(em, br_line_text(l)))),
            None => Err(ErrV::InvalidJump),
        },
        crate::parser::StmtV::Continue => match nb.continue_block {
            Some(l) => Ok((Control::Break, sv_terminate(em, br_line_text(l)))),
            None => Err(ErrV::InvalidJump),
        },
        crate::parser::StmtV::Struct(sn) => match sn {
            crate::parser::StructStmtV::Definition(d) => match sv_struct_definition(em, d) {
                Ok(em1) => Ok((Control::Continue, em1)),
                Err(e) => Err(e),
            },
            crate::parser::StructStmtV::Declare(d) => match sv_struct_declare(em, d) {
                Ok(em1) => Ok((Control::Continue, em1)),
                Err(e) => Err(e),
            },
        },
        crate::parser::StmtV::Enum(en) => match en {
            crate::parser::EnumStmtV::Definition(d) => match sv_enum_decls(em, d.enums, 0) {
                Ok(em1) => Ok((Control::Continue, em1)),
                Err(e) => Err(e),
            },
            crate::parser::EnumStmtV::Declare(d) => sv_emit_declare(em, d),
        },
        crate::parser::StmtV::Empty => Ok((Control::Continue, em)),
        _ => Err(ErrV::Unsupported),
    }
}


/// Lowers one statement. The result says whether control falls through or
/// the block was terminated by `return`, `break` or `continue`.
#[verifier::rlimit(100)]
#[verifier::spinoff_prover]
pub fn emit_statement(em: &mut Emitter, node: &StatementNode, next_block: NextBlock) -> (r: Result<
    Control,
    CompileError,
>)
    requires
        old(em).building(),
        old(em).env@.len() > 0,
    ensures
        final(em).building(),
        final(em).env@.len() == old(em).env@.len(),
        final(em).blocks@.len() >= old(em).blocks@.len(),
        match r {
            Ok(c) => sv_emit_statement(old(em)@, node@, next_block) == Ok::<
                (Control, EmitterV),
                ErrV,
            >((c, final(em)@)),
            Err(e) => sv_emit_statement(old(em)@, node@, next_block) == Err::<
                (Control, EmitterV),
                ErrV,
            >(e@),
        },
    decreases node, 3int, 0int,
{
    match node {
        StatementNode::Return(n) => emit_return_statement(em, &n.expression),
        StatementNode::Declare(n) => emit_declare_statement(em, &n.declare_variable_node),
        StatementNode::Expression(n) => {
            match emit_expression(em, &n.expression) {
                Ok(_) => Ok(Control::Continue),
                Err(e) => Err(e),
            }
        },
        StatementNode::Compound(n) => emit_compound_statement(em, &n.statements, next_block),
        StatementNode::If(n) => emit_if_statement(em, n, next_block),
        StatementNode::While(n) => emit_while_statement(em, n, next_block),
        StatementNode::Switch(n) => emit_switch_statement(em, n, next_block),
        StatementNode::Continue(_) => {
            match next_block.continue_block {
                Some(l) => {
                    em.terminate(br_text(l));
                    Ok(Control::Break)
                },
                None => Err(CompileError::InvalidJump),
            }
        },
        StatementNode::Break(_) => {
            match next_block.break_block {
                Some(l) => {
                    em.terminate(br_text(l));
                    Ok(Control::Break)
                },
                None => Err(CompileError::InvalidJump),
            }
        },
        StatementNode::For(n) => emit_for_statement(em, n, next_block),
        StatementNode::Struct(n) => emit_struct_statement(em, n, next_block),
        StatementNode::Enum(n) => emit_enum_statement(em, n, next_block),
        StatementNode::Empty => Ok(Control::Continue),
        _ => Err(CompileError::Unsupported),
    }
}

/// `return expr;`: loads the value, coerces it to the function's integer
/// return type, and terminates the block with `ret`.
#[verifier::rlimit(100)]
#[verifier::spinoff_prover]
fn emit_return_statement(em: &mut Emitter, expr: &ExpressionNode) -> (r: Result<
    Control,
    CompileError,
>)
    requires
        old(em).building(),
        old(em).env@.len() > 0,
    ensures
        final(em).building(),
        final(em).env@.len() == old(em).env@.len(),
        final(em).blocks@.len() >= old(em).blocks@.len(),
        match r {
            Ok(c) => sv_emit_return(old(em)@, expr@) == Ok::<(Control, EmitterV), ErrV>(
                (c, final(em)@),
            ),
            Err(e) => sv_emit_return(old(em)@, expr@) == Err::<(Control, EmitterV), ErrV>(e@),
        },
{
    let p = match emit_expression(em, expr) {
        Ok(p) => p,
        Err(e) => {
            return Err(e);
        },
    };
    let ret_int: bool = match &em.cur_ret {
        IrType::I32 | IrType::I8 => true,
        _ => false,
    };
    if !ret_int {
        return Err(CompileError::Unsupported);
    }
    let (v, ty) = load_value(em, &p);
    let iv = match cast_to_int(em, &v, &ty) {
        Ok(v) => v,
        Err(e) => {
            return Err(e);
        },
    };
    let mut line = String::from_str("  ret i32 ");
    line.append(iv.as_str());
    em.terminate(line);
    Ok(Control::Break)
}

/// A local declaration: the initializer's slot is reused when it already
/// has the declared type, else a fresh slot takes the coerced value; the
/// name is then bound in the innermost scope.
#[verifier::rlimit(100)]
#[verifier::spinoff_prover]
fn emit_declare_statement(em: &mut Emitter, node: &DeclareVariableNode) -> (r: Result<
    Control,
    CompileError,
>)
    requires
        old(em).building(),
        old(em).env@.len() > 0,
    ensures
        final(em).building(),
        final(em).env@.len() == old(em).env@.len(),
        final(em).blocks@.len() >= old(em).blocks@.len(),
        match r {
            Ok(c) => sv_emit_declare(old(em)@, node@) == Ok::<(Control, EmitterV), ErrV>(
                (c, final(em)@),
            ),
            Err(e) => sv_emit_declare(old(em)@, node@) == Err::<(Control, EmitterV), ErrV>(e@),
        },
{
    let ty = match em.env.get_type_from_string(&node.value_type) {
        Ok(t) => t,
        Err(e) => {
            return Err(e);
        },
    };
    let slot: Ptr = match &node.initialize_expression {
        Some(init) => {
            let got = match emit_expression(em, init) {
                Ok(p) => p,
                Err(e) => {
                    return Err(e);
                },
            };
            if ir_type_eq(&got.ty, &ty) {
                // the initializer's slot already has the declared type
                got
            } else {
                let target = alloca_from_basic_type(em, ty);
                let (v, vt) = load_value(em, &got);
                match coerce_store(em, &target, &v, &vt) {
                    Ok(()) => (),
                    Err(e) => {
                        return Err(e);
                    },
                }
                target
            }
        },
        None => alloca_from_basic_type(em, ty),
    };
    match em.env.insert_new_other(node.identifier.clone(), Other::Variable(slot)) {
        Ok(()) => Ok(Control::Continue),
        Err(e) => Err(e),
    }
}

/// The statements of a block in order, stopping after the first that
/// terminates its block.
#[verifier::rlimit(100)]
#[verifier::spinoff_prover]
fn emit_statement_list(
    em: &mut Emitter,
    statements: &Vec<StatementNode>,
    i: usize,
    next_block: NextBlock,
) -> (r: Result<Control, CompileError>)
    requires
        old(em).building(),
        old(em).env@.len() > 0,
        i <= statements@.len(),
    ensures
        final(em).building(),
        final(em).env@.len() == old(em).env@.len(),
        final(em).blocks@.len() >= old(em).blocks@.len(),
        match r {
            Ok(c) => sv_emit_stmts(
                old(em)@,
                crate::parser::stmts_v(statements@),
                i as int,
                next_block,
            ) == Ok::<(Control, EmitterV), ErrV>((c, final(em)@)),
            Err(e) => sv_emit_stmts(
                old(em)@,
                crate::parser::stmts_v(statements@),
                i as int,
                next_block,
            ) == Err::<(Control, EmitterV), ErrV>(e@),
        },
    decreases statements@, 4int, statements@.len() - i,
{
    proof {
        crate::parser::lemma_stmts_v_len(statements@);
    }
    if i >= statements.len() {
        return Ok(Control::Continue);
    }
    proof {
        crate::parser::lemma_stmts_v_index(statements@, i as int);
        assert(decreases_to!(statements@ => statements@[i as int]));
    }
    let c = match emit_statement(em, &statements[i], next_block) {
        Ok(c) => c,
        Err(e) => {
            return Err(e);
        },
    };
    if c == Control::Break {
        return Ok(Control::Break);
    }
    emit_statement_list(em, statements, i + 1, next_block)
}

/// A brace block: a fresh scope, then the statements in order.
fn emit_compound_statement(
    em: &mut Emitter,
    statements: &Vec<StatementNode>,
    next_block: NextBlock,
) -> (r: Result<Control, CompileError>)
    requires
        old(em).building(),
        old(em).env@.len() > 0,
    ensures
        final(em).building(),
        final(em).env@.len() == old(em).env@.len(),
        final(em).blocks@.len() >= old(em).blocks@.len(),
        match r {
            Ok(c) => sv_emit_compound(old(em)@, crate::parser::stmts_v(statements@), next_block)
                == Ok::<(Control, EmitterV), ErrV>((c, final(em)@)),
            Err(e) => sv_emit_compound(old(em)@, crate::parser::stmts_v(statements@), next_block)
                == Err::<(Control, EmitterV), ErrV>(e@),
        },
    decreases statements@, 5int, 0int,
{
    let scope = Scope::new();
    proof {
        assert(scope@ == sv_fresh_scope());
    }
    em.env.push_scope(scope);
    let control = match emit_statement_list(em, statements, 0, next_block) {
        Ok(c) => c,
        Err(e) => {
            em.env.pop_scope();
            return Err(e);
        },
    };
    em.env.pop_scope();
    Ok(control)
}

/// `if`: the condition branches to the continuation (no else) or the else
/// block on zero; the continuation exists only when some arm falls
/// through, so a function never keeps an unterminated empty block.
#[verifier::rlimit(100)]
#[verifier::spinoff_prover]
fn emit_if_statement(
    em: &mut Emitter,
    node: &crate::parser::IfStatementNode,
    next_block: NextBlock,
) -> (r: Result<Control, CompileError>)
    requires
        old(em).building(),
        old(em).env@.len() > 0,
    ensures
        final(em).building(),
        final(em).env@.len() == old(em).env@.len(),
        final(em).blocks@.len() >= old(em).blocks@.len(),
        match r {
            Ok(c) => sv_emit_statement(
                old(em)@,
                crate::parser::StatementNode::If(*node)@,
                next_block,
            ) == Ok::<(Control, EmitterV), ErrV>((c, final(em)@)),
            Err(e) => sv_emit_statement(
                old(em)@,
                crate::parser::StatementNode::If(*node)@,
                next_block,
            ) == Err::<(Control, EmitterV), ErrV>(e@),
        },
    decreases node, 0int, 0int,
{
    proof {
        assert(crate::parser::StatementNode::If(*node)@ == (crate::parser::StmtV::If(
            crate::expression::expr_v(node.condition_expression),
            Box::new(crate::parser::stmt_v(*node.block)),
            match node.else_block {
                Some(b) => Some(Box::new(crate::parser::stmt_v(*b))),
                None => None,
            },
        )));
    }
    let c = match emit_condition_expression_eq(em, &node.condition_expression) {
        Ok(c) => c,
        Err(e) => {
            return Err(e);
        },
    };
    match &node.else_block {
        None => {
            let then_bb = em.new_block();
            let cont_bb = em.new_block();
            em.terminate(cond_br_text(&c, cont_bb, then_bb));
            em.position_at(then_bb);
            let _ = match emit_statement(em, &*node.block, next_block) {
                Ok(c) => c,
                Err(e) => {
                    return Err(e);
                },
            };
            em.terminate(br_text(cont_bb));
            em.position_at(cont_bb);
            Ok(Control::Continue)
        },
        Some(els) => {
            let then_bb = em.new_block();
            let else_bb = em.new_block();
            em.terminate(cond_br_text(&c, else_bb, then_bb));
            em.position_at(then_bb);
            let control_if = match emit_statement(em, &*node.block, next_block) {
                Ok(c) => c,
                Err(e) => {
                    return Err(e);
                },
            };
            // the continuation block exists only if some arm falls through
            let mut cont_bb: u64 = 0;
            let mut has_cont = false;
            if control_if == Control::Continue {
                cont_bb = em.new_block();
                has_cont = true;
                em.terminate(br_text(cont_bb));
            }
            em.position_at(else_bb);
            let control_else = match emit_statement(em, &**els, next_block) {
                Ok(c) => c,
                Err(e) => {
                    return Err(e);
                },
            };
            if control_else == Control::Continue {
                if !has_cont {
                    cont_bb = em.new_block();
                    has_cont = true;
                }
                em.terminate(br_text(cont_bb));
            }
            if has_cont {
                em.position_at(cont_bb);
                Ok(Control::Continue)
            } else {
                Ok(Control::Break)
            }
        },
    }
}

/// `while`: compare block, body block, continuation; `break` leaves to the
/// continuation and `continue` re-enters the compare block.
#[verifier::rlimit(100)]
#[verifier::spinoff_prover]
fn emit_while_statement(
    em: &mut Emitter,
    node: &crate::parser::WhileStatementNode,
    next_block: NextBlock,
) -> (r: Result<Control, CompileError>)
    requires
        old(em).building(),
        old(em).env@.len() > 0,
    ensures
        final(em).building(),
        final(em).env@.len() == old(em).env@.len(),
        final(em).blocks@.len() >= old(em).blocks@.len(),
        match r {
            Ok(c) => c == Control::Continue && sv_emit_statement(
                old(em)@,
                crate::parser::StatementNode::While(*node)@,
                next_block,
            ) == Ok::<(Control, EmitterV), ErrV>((c, final(em)@)),
            Err(e) => sv_emit_statement(
                old(em)@,
                crate::parser::StatementNode::While(*node)@,
                next_block,
            ) == Err::<(Control, EmitterV), ErrV>(e@),
        },
    decreases node, 0int, 0int,
{
    let comp_bb = em.new_block();
    let then_bb = em.new_block();
    let cont_bb = em.new_block();
    em.terminate(br_text(comp_bb));
    em.position_at(comp_bb);
    let c = match emit_condition_expression_eq(em, &node.condition_expression) {
        Ok(c) => c,
        Err(e) => {
            return Err(e);
        },
    };
    em.terminate(cond_br_text(&c, cont_bb, then_bb));
    em.position_at(then_bb);
    let nb = NextBlock { break_block: Some(cont_bb), continue_block: Some(comp_bb) };
    let _ = match emit_statement(em, &*node.block, nb) {
        Ok(c) => c,
        Err(e) => {
            return Err(e);
        },
    };
    em.terminate(br_text(comp_bb));
    em.position_at(cont_bb);
    Ok(Control::Continue)
}

/// `for`: a scope around the whole loop, the init statement, then compare,
/// body, step and continuation blocks.
#[verifier::rlimit(100)]
#[verifier::spinoff_prover]
fn emit_for_statement(
    em: &mut Emitter,
    node: &crate::parser::ForStatementNode,
    next_block: NextBlock,
) -> (r: Result<Control, CompileError>)
    requires
        old(em).building(),
        old(em).env@.len() > 0,
    ensures
        final(em).building(),
        final(em).env@.len() == old(em).env@.len(),
        final(em).blocks@.len() >= old(em).blocks@.len(),
        match r {
            Ok(c) => c == Control::Continue && sv_emit_statement(
                old(em)@,
                crate::parser::StatementNode::For(*node)@,
                next_block,
            ) == Ok::<(Control, EmitterV), ErrV>((c, final(em)@)),
            Err(e) => sv_emit_statement(
                old(em)@,
                crate::parser::StatementNode::For(*node)@,
                next_block,
            ) == Err::<(Control, EmitterV), ErrV>(e@),
        },
    decreases node, 0int, 0int,
{
    let comp_bb = em.new_block();
    let then_bb = em.new_block();
    let step_bb = em.new_block();
    let cont_bb = em.new_block();
    let scope = Scope::new();
    proof {
        assert(scope@ == sv_fresh_scope());
    }
    em.env.push_scope(scope);
    let none_nb = NextBlock { break_block: None, continue_block: None };
    let _ = match emit_statement(em, &*node.first_statement, none_nb) {
        Ok(c) => c,
        Err(e) => {
            em.env.pop_scope();
            return Err(e);
        },
    };
    em.terminate(br_text(comp_bb));
    em.position_at(comp_bb);
    let c = match emit_condition_expression_eq(em, &node.condition_expression) {
        Ok(c) => c,
        Err(e) => {
            em.env.pop_scope();
            return Err(e);
        },
    };
    em.terminate(cond_br_text(&c, cont_bb, then_bb));
    em.position_at(then_bb);
    let nb = NextBlock { break_block: Some(cont_bb), continue_block: Some(step_bb) };
    let _ = match emit_statement(em, &*node.block, nb) {
        Ok(c) => c,
        Err(e) => {
            em.env.pop_scope();
            return Err(e);
        },
    };
    em.terminate(br_text(step_bb));
    em.position_at(step_bb);
    let _ = match emit_expression(em, &node.loop_expression) {
        Ok(p) => p,
        Err(e) => {
            em.env.pop_scope();
            return Err(e);
        },
    };
    em.terminate(br_text(comp_bb));
    em.position_at(cont_bb);
    em.env.pop_scope();
    Ok(Control::Continue)
}


/// The switch's first pass: block planning.
fn switch_plan(
    em: &mut Emitter,
    stmts: &Vec<StatementNode>,
    i: usize,
    need_cmp: bool,
    cmps: Vec<u64>,
    cases: Vec<u64>,
) -> (r: Result<(Vec<u64>, Vec<u64>), CompileError>)
    requires
        old(em).building(),
        i <= stmts@.len(),
    ensures
        final(em).building(),
        final(em).env == old(em).env,
        final(em).blocks@.len() >= old(em).blocks@.len(),
        match r {
            Ok(p) => sv_switch_plan(
                old(em)@,
                crate::parser::stmts_v(stmts@),
                i as int,
                need_cmp,
                cmps@,
                cases@,
            ) == Ok::<(Seq<u64>, Seq<u64>, EmitterV), ErrV>((p.0@, p.1@, final(em)@)),
            Err(e) => sv_switch_plan(
                old(em)@,
                crate::parser::stmts_v(stmts@),
                i as int,
                need_cmp,
                cmps@,
                cases@,
            ) == Err::<(Seq<u64>, Seq<u64>, EmitterV), ErrV>(e@),
        },
    decreases stmts@.len() - i,
{
    proof {
        crate::parser::lemma_stmts_v_len(stmts@);
    }
    if i >= stmts.len() {
        return Ok((cmps, cases));
    }
    proof {
        crate::parser::lemma_stmts_v_index(stmts@, i as int);
    }
    let mut cmps = cmps;
    let mut cases = cases;
    match &stmts[i] {
        StatementNode::Case(_) => {
            let case_bb = em.new_block();
            if need_cmp {
                let cmp_bb = em.new_block();
                cmps.push(cmp_bb);
            }
            cases.push(case_bb);
            switch_plan(em, stmts, i + 1, need_cmp, cmps, cases)
        },
        StatementNode::Default(_) => {
            let default_bb = em.new_block();
            cases.push(default_bb);
            let cmp_bb = em.new_block();
            cmps.push(cmp_bb);
            switch_plan(em, stmts, i + 1, false, cmps, cases)
        },
        _ => Err(CompileError::Unsupported),
    }
}

/// The switch's compare chain.
fn switch_cmps(
    em: &mut Emitter,
    stmts: &Vec<StatementNode>,
    cmps: &Vec<u64>,
    cases: &Vec<u64>,
    cond_v: &String,
    cont: u64,
    idx: usize,
) -> (r: Result<(), CompileError>)
    requires
        old(em).building(),
        old(em).env@.len() > 0,
        idx <= cmps@.len(),
    ensures
        final(em).building(),
        final(em).env@.len() == old(em).env@.len(),
        final(em).blocks@.len() >= old(em).blocks@.len(),
        match r {
            Ok(()) => sv_switch_cmps(
                old(em)@,
                crate::parser::stmts_v(stmts@),
                cmps@,
                cases@,
                cond_v@,
                cont,
                idx as int,
            ) == Ok::<EmitterV, ErrV>(final(em)@),
            Err(e) => sv_switch_cmps(
                old(em)@,
                crate::parser::stmts_v(stmts@),
                cmps@,
                cases@,
                cond_v@,
                cont,
                idx as int,
            ) == Err::<EmitterV, ErrV>(e@),
        },
    decreases cmps@.len() - idx,
{
    proof {
        crate::parser::lemma_stmts_v_len(stmts@);
    }
    if idx >= cmps.len() {
        return Ok(());
    }
    if idx >= stmts.len() || idx >= cases.len() {
        return Err(CompileError::Unsupported);
    }
    proof {
        crate::parser::lemma_stmts_v_index(stmts@, idx as int);
    }
    let next_ref = if idx + 1 < cmps.len() {
        cmps[idx + 1]
    } else {
        cont
    };
    em.position_at(cmps[idx]);
    match &stmts[idx] {
        StatementNode::Case(cs) => {
            let case_slot = match emit_expression(em, &cs.condition_expression) {
                Ok(p) => p,
                Err(e) => {
                    return Err(e);
                },
            };
            let (cv0, ct) = load_value(em, &case_slot);
            let cv = match cast_to_int(em, &cv0, &ct) {
                Ok(v) => v,
                Err(e) => {
                    return Err(e);
                },
            };
            let reg = em.fresh_reg();
            let mut line = String::from_str("  ");
            line.append(reg.as_str());
            line.append(" = icmp eq i32 ");
            line.append(cv.as_str());
            line.append(", ");
            line.append(cond_v.as_str());
            em.append_line(line);
            let mut br = String::from_str("  br i1 ");
            br.append(reg.as_str());
            br.append(", label %");
            let lt = label_text(cases[idx]);
            br.append(lt.as_str());
            br.append(", label %");
            let lf = label_text(next_ref);
            br.append(lf.as_str());
            em.terminate(br);
            switch_cmps(em, stmts, cmps, cases, cond_v, cont, idx + 1)
        },
        StatementNode::Default(_) => {
            em.terminate(br_text(cases[idx]));
            switch_cmps(em, stmts, cmps, cases, cond_v, cont, idx + 1)
        },
        _ => Err(CompileError::Unsupported),
    }
}

/// The switch's bodies: fallthrough into the next body, `break` to the
/// continuation.
#[verifier::rlimit(100)]
#[verifier::spinoff_prover]
fn switch_bodies(
    em: &mut Emitter,
    stmts: &Vec<StatementNode>,
    cases: &Vec<u64>,
    cont: u64,
    nb: NextBlock,
    k: usize,
) -> (r: Result<(), CompileError>)
    requires
        old(em).building(),
        old(em).env@.len() > 0,
        k <= stmts@.len(),
    ensures
        final(em).building(),
        final(em).env@.len() == old(em).env@.len(),
        final(em).blocks@.len() >= old(em).blocks@.len(),
        match r {
            Ok(()) => sv_switch_bodies(
                old(em)@,
                crate::parser::stmts_v(stmts@),
                cases@,
                cont,
                nb,
                k as int,
            ) == Ok::<EmitterV, ErrV>(final(em)@),
            Err(e) => sv_switch_bodies(
                old(em)@,
                crate::parser::stmts_v(stmts@),
                cases@,
                cont,
                nb,
                k as int,
            ) == Err::<EmitterV, ErrV>(e@),
        },
    decreases stmts@, 6int, stmts@.len() - k,
{
    proof {
        crate::parser::lemma_stmts_v_len(stmts@);
    }
    if k >= stmts.len() {
        return Ok(());
    }
    if k >= cases.len() {
        return Err(CompileError::Unsupported);
    }
    proof {
        crate::parser::lemma_stmts_v_index(stmts@, k as int);
        assert(decreases_to!(stmts@ => stmts@[k as int]));
    }
    em.position_at(cases[k]);
    let control = match &stmts[k] {
        StatementNode::Case(cs) => {
            proof {
                assert(stmts@[k as int]->Case_0 == *cs);
                assert(decreases_to!(stmts@[k as int] => stmts@[k as int]->Case_0.statements.statements@));
            }
            match emit_compound_statement(em, &cs.statements.statements, nb) {
                Ok(c) => c,
                Err(e) => {
                    return Err(e);
                },
            }
        },
        StatementNode::Default(d) => {
            proof {
                assert(stmts@[k as int]->Default_0 == *d);
                assert(decreases_to!(stmts@[k as int] => stmts@[k as int]->Default_0.statements.statements@));
            }
            match emit_compound_statement(em, &d.statements.statements, nb) {
                Ok(c) => c,
                Err(e) => {
                    return Err(e);
                },
            }
        },
        _ => {
            return Err(CompileError::Unsupported);
        },
    };
    let next_bb = match control {
        Control::Continue => if k + 1 < stmts.len() && k + 1 < cases.len() {
            cases[k + 1]
        } else {
            cont
        },
        Control::Break => cont,
    };
    em.terminate(br_text(next_bb));
    switch_bodies(em, stmts, cases, cont, nb, k + 1)
}

/// `switch`: one compare block per case (the default gets a trailing one so
/// fallthrough keeps a target), one body block per label; comparisons chain
/// to the next compare or the continuation, and a body that falls through
/// enters the next body block.
#[verifier::rlimit(100)]
#[verifier::spinoff_prover]
fn emit_switch_statement(
    em: &mut Emitter,
    node: &crate::parser::SwitchStatementNode,
    next_block: NextBlock,
) -> (r: Result<Control, CompileError>)
    requires
        old(em).building(),
        old(em).env@.len() > 0,
    ensures
        final(em).building(),
        final(em).env@.len() == old(em).env@.len(),
        final(em).blocks@.len() >= old(em).blocks@.len(),
        match r {
            Ok(c) => c == Control::Continue && sv_emit_statement(
                old(em)@,
                crate::parser::StatementNode::Switch(*node)@,
                next_block,
            ) == Ok::<(Control, EmitterV), ErrV>((c, final(em)@)),
            Err(e) => sv_emit_statement(
                old(em)@,
                crate::parser::StatementNode::Switch(*node)@,
                next_block,
            ) == Err::<(Control, EmitterV), ErrV>(e@),
        },
    decreases node, 4int, 0int,
{
    let stmts = &node.statements.statements;
    let entry_bb = em.new_block();
    let (cmp_bbs, case_bbs) = match switch_plan(em, stmts, 0, true, Vec::new(), Vec::new()) {
        Ok(p) => p,
        Err(e) => {
            return Err(e);
        },
    };
    let cont_bb = em.new_block();
    let nb = NextBlock { continue_block: None, break_block: Some(cont_bb) };
    // entry: evaluate the switch value, then enter the first compare block
    em.terminate(br_text(entry_bb));
    em.position_at(entry_bb);
    let cond_slot = match emit_expression(em, &node.condition_expression) {
        Ok(p) => p,
        Err(e) => {
            return Err(e);
        },
    };
    let (cond_v0, cond_t) = load_value(em, &cond_slot);
    let cond_v = match cast_to_int(em, &cond_v0, &cond_t) {
        Ok(v) => v,
        Err(e) => {
            return Err(e);
        },
    };
    let first = if cmp_bbs.len() > 0 {
        cmp_bbs[0]
    } else {
        cont_bb
    };
    em.terminate(br_text(first));
    match switch_cmps(em, stmts, &cmp_bbs, &case_bbs, &cond_v, cont_bb, 0) {
        Ok(()) => (),
        Err(e) => {
            return Err(e);
        },
    }
    proof {
        assert(decreases_to!(node => node.statements.statements@));
    }
    match switch_bodies(em, stmts, &case_bbs, cont_bb, nb, 0) {
        Ok(()) => (),
        Err(e) => {
            return Err(e);
        },
    }
    em.position_at(cont_bb);
    Ok(Control::Continue)
}

/// Copies a name list.
fn dup_strings(v: &Vec<String>) -> (r: Vec<String>)
    ensures
        strings_v(r@) == strings_v(v@),
{
    let mut out: Vec<String> = Vec::new();
    let mut i: usize = 0;
    proof {
        assert(strings_v(out@) =~= strings_v(v@.take(0)));
    }
    while i < v.len()
        invariant
            0 <= i <= v@.len(),
            strings_v(out@) =~= strings_v(v@.take(i as int)),
        decreases v@.len() - i,
    {
        out.push(v[i].clone());
        proof {
            assert(strings_v(out@) =~= strings_v(v@.take(i as int)).push(v@[i as int]@));
            assert(strings_v(v@.take(i as int + 1)) =~= strings_v(v@.take(i as int)).push(
                v@[i as int]@,
            ));
        }
        i = i + 1;
    }
    proof {
        assert(v@.take(v@.len() as int) =~= v@);
    }
    out
}

/// Copies a type list.
fn dup_types(v: &Vec<IrType>) -> (r: Vec<IrType>)
    ensures
        types_v(r@) == types_v(v@),
{
    let mut out: Vec<IrType> = Vec::new();
    let mut i: usize = 0;
    proof {
        assert(types_v(out@) =~= types_v(v@.take(0)));
    }
    while i < v.len()
        invariant
            0 <= i <= v@.len(),
            types_v(out@) =~= types_v(v@.take(i as int)),
        decreases v@.len() - i,
    {
        out.push(v[i].dup());
        proof {
            assert(types_v(out@) =~= types_v(v@.take(i as int)).push(v@[i as int]@));
            assert(types_v(v@.take(i as int + 1)) =~= types_v(v@.take(i as int)).push(
                v@[i as int]@,
            ));
        }
        i = i + 1;
    }
    proof {
        assert(v@.take(v@.len() as int) =~= v@);
    }
    out
}

/// The field declarations of a struct definition, resolved in order.
fn struct_fields(
    em: &Emitter,
    members: &Vec<(String, BasicType)>,
    i: usize,
    names: Vec<String>,
    ftypes: Vec<IrType>,
    body: String,
) -> (r: Result<(Vec<String>, Vec<IrType>, String), CompileError>)
    requires
        i <= members@.len(),
    ensures
        match r {
            Ok(t) => sv_struct_fields(
                em@.env,
                crate::parser::members_v(members@),
                i as int,
                strings_v(names@),
                types_v(ftypes@),
                body@,
            ) == Ok::<(Seq<Seq<char>>, Seq<IrTypeV>, Seq<char>), ErrV>(
                (strings_v(t.0@), types_v(t.1@), t.2@),
            ),
            Err(e) => sv_struct_fields(
                em@.env,
                crate::parser::members_v(members@),
                i as int,
                strings_v(names@),
                types_v(ftypes@),
                body@,
            ) == Err::<(Seq<Seq<char>>, Seq<IrTypeV>, Seq<char>), ErrV>(e@),
        },
    decreases members@.len() - i,
{
    if i >= members.len() {
        return Ok((names, ftypes, body));
    }
    proof {
        assert(crate::parser::members_v(members@)[i as int] == (
            members@[i as int].0@,
            crate::token::basic_type_v(members@[i as int].1),
        ));
    }
    let ft = match em.env.get_type_from_string(&members[i].1) {
        Ok(t) => t,
        Err(e) => {
            return Err(e);
        },
    };
    let mut body = body;
    if i > 0 {
        body.append(", ");
    }
    let t = ft.render();
    body.append(t.as_str());
    let mut names = names;
    let mut ftypes = ftypes;
    let ghost old_names = names@;
    let ghost old_ftypes = ftypes@;
    names.push(members[i].0.clone());
    ftypes.push(ft);
    proof {
        assert(strings_v(names@) =~= strings_v(old_names).push(members@[i as int].0@));
        assert(types_v(ftypes@) =~= types_v(old_ftypes).push(ftypes@.last()@));
    }
    struct_fields(em, members, i + 1, names, ftypes, body)
}

/// A struct definition: the field types resolve, the literal struct type
/// forms, and the tag records the layout in the innermost scope.
fn emit_struct_definition(em: &mut Emitter, def: &crate::parser::StructDefinitionNode) -> (r:
    Result<(), CompileError>)
    requires
        old(em).env@.len() > 0,
    ensures
        final(em).env@.len() == old(em).env@.len(),
        final(em).blocks@.len() == old(em).blocks@.len(),
        final(em).cur == old(em).cur,
        old(em).building() ==> final(em).building(),
        match r {
            Ok(()) => sv_struct_definition(old(em)@, crate::parser::struct_def_v(*def)) == Ok::<
                EmitterV,
                ErrV,
            >(final(em)@),
            Err(e) => sv_struct_definition(old(em)@, crate::parser::struct_def_v(*def)) == Err::<
                EmitterV,
                ErrV,
            >(e@),
        },
{
    let empty_names: Vec<String> = Vec::new();
    let empty_types: Vec<IrType> = Vec::new();
    proof {
        assert(strings_v(empty_names@) =~= Seq::<Seq<char>>::empty());
        assert(types_v(empty_types@) =~= Seq::<IrTypeV>::empty());
    }
    let (names, field_types, mut body) = match struct_fields(
        em,
        &def.members,
        0,
        empty_names,
        empty_types,
        String::from_str("{ "),
    ) {
        Ok(t) => t,
        Err(e) => {
            return Err(e);
        },
    };
    body.append(" }");
    let struct_type = IrType::Struct(body);
    let layout = Struct { names, struct_type, field_types };
    match em.env.insert_new_tag(def.identifier.clone(), Tag::Struct(layout)) {
        Ok(()) => Ok(()),
        Err(e) => Err(e),
    }
}

/// The synthetic `var.field` bindings of a declared struct variable.
fn struct_field_binds(
    em: &mut Emitter,
    varname: &String,
    names: &Vec<String>,
    ftypes: &Vec<IrType>,
    base_op: &String,
    base_ty: &IrType,
    count: usize,
    i: usize,
) -> (r: Result<(), CompileError>)
    requires
        old(em).building(),
        old(em).env@.len() > 0,
        count <= names@.len(),
        count <= ftypes@.len(),
        i <= count,
    ensures
        final(em).building(),
        final(em).env@.len() == old(em).env@.len(),
        final(em).blocks@.len() >= old(em).blocks@.len(),
        match r {
            Ok(()) => sv_struct_field_binds(
                old(em)@,
                varname@,
                strings_v(names@),
                types_v(ftypes@),
                base_op@,
                base_ty@,
                count as int,
                i as int,
            ) == Ok::<EmitterV, ErrV>(final(em)@),
            Err(e) => sv_struct_field_binds(
                old(em)@,
                varname@,
                strings_v(names@),
                types_v(ftypes@),
                base_op@,
                base_ty@,
                count as int,
                i as int,
            ) == Err::<EmitterV, ErrV>(e@),
        },
    decreases count - i,
{
    if i >= count {
        return Ok(());
    }
    let reg = em.fresh_reg();
    let t = base_ty.render();
    let mut line = String::from_str("  ");
    line.append(reg.as_str());
    line.append(" = getelementptr ");
    line.append(t.as_str());
    line.append(", ");
    line.append(t.as_str());
    line.append("* ");
    line.append(base_op.as_str());
    line.append(", i32 0, i32 ");
    let d = u64_to_string(i as u64);
    line.append(d.as_str());
    em.append_line(line);
    let mut key = varname.clone();
    key.append(".");
    key.append(names[i].as_str());
    let fslot = Ptr { op: reg, ty: ftypes[i].dup() };
    match em.env.insert_new_other(key, Other::Variable(fslot)) {
        Ok(()) => (),
        Err(e) => {
            return Err(e);
        },
    }
    struct_field_binds(em, varname, names, ftypes, base_op, base_ty, count, i + 1)
}

/// A struct statement: a definition records the tag's layout; a declared
/// variable gets one struct-typed slot and per-field `name.field` bindings,
/// each a field address into that slot.
#[verifier::rlimit(100)]
#[verifier::spinoff_prover]
fn emit_struct_statement(em: &mut Emitter, node: &StructStatementNode, next_block: NextBlock) -> (r:
    Result<Control, CompileError>)
    requires
        old(em).building(),
        old(em).env@.len() > 0,
    ensures
        final(em).building(),
        final(em).env@.len() == old(em).env@.len(),
        final(em).blocks@.len() >= old(em).blocks@.len(),
        match r {
            Ok(c) => c == Control::Continue && sv_emit_statement(
                old(em)@,
                crate::parser::StatementNode::Struct(*node)@,
                next_block,
            ) == Ok::<(Control, EmitterV), ErrV>((c, final(em)@)),
            Err(e) => sv_emit_statement(
                old(em)@,
                crate::parser::StatementNode::Struct(*node)@,
                next_block,
            ) == Err::<(Control, EmitterV), ErrV>(e@),
        },
{
    match node {
        StructStatementNode::Definition(def) => {
            match emit_struct_definition(em, def) {
                Ok(()) => Ok(Control::Continue),
                Err(e) => Err(e),
            }
        },
        StructStatementNode::Declare(ds) => {
            let dvn = &ds.declare_variable_node;
            let tagname = match &dvn.value_type {
                crate::token::BasicType::Struct(t) => t.clone(),
                _ => {
                    return Err(CompileError::Unsupported);
                },
            };
            let (struct_type, names, field_types) = match em.env.get_tag(tagname.as_str()) {
                Some(Tag::Struct(layout)) => (
                    layout.struct_type.dup(),
                    dup_strings(&layout.names),
                    dup_types(&layout.field_types),
                ),
                None => {
                    return Err(CompileError::UndeclaredTag(tagname));
                },
            };
            let slot = alloca_from_basic_type(em, struct_type);
            let base_op = slot.op.clone();
            let base_ty = slot.ty.dup();
            match em.env.insert_new_other(dvn.identifier.clone(), Other::Variable(slot)) {
                Ok(()) => (),
                Err(e) => {
                    return Err(e);
                },
            }
            let count = if names.len() < field_types.len() {
                names.len()
            } else {
                field_types.len()
            };
            match struct_field_binds(
                em,
                &dvn.identifier,
                &names,
                &field_types,
                &base_op,
                &base_ty,
                count,
                0,
            ) {
                Ok(()) => Ok(Control::Continue),
                Err(e) => Err(e),
            }
        },
    }
}

/// The enumerators of an enum definition as `int` declarations, in order.
fn enum_decls(em: &mut Emitter, ds: &Vec<DeclareVariableNode>, i: usize) -> (r: Result<
    (),
    CompileError,
>)
    requires
        old(em).building(),
        old(em).env@.len() > 0,
        i <= ds@.len(),
    ensures
        final(em).building(),
        final(em).env@.len() == old(em).env@.len(),
        final(em).blocks@.len() >= old(em).blocks@.len(),
        match r {
            Ok(()) => sv_enum_decls(old(em)@, crate::parser::dvns_v(ds@), i as int) == Ok::<
                EmitterV,
                ErrV,
            >(final(em)@),
            Err(e) => sv_enum_decls(old(em)@, crate::parser::dvns_v(ds@), i as int) == Err::<
                EmitterV,
                ErrV,
            >(e@),
        },
    decreases ds@.len() - i,
{
    if i >= ds.len() {
        return Ok(());
    }
    proof {
        assert(crate::parser::dvns_v(ds@)[i as int] == crate::parser::dvn_v(ds@[i as int]));
    }
    match emit_declare_statement(em, &ds[i]) {
        Ok(_) => (),
        Err(e) => {
            return Err(e);
        },
    }
    enum_decls(em, ds, i + 1)
}

/// An enum statement: each enumerator of a definition is lowered as an
/// `int` declaration; a declared variable is an ordinary declaration.
#[verifier::rlimit(100)]
#[verifier::spinoff_prover]
fn emit_enum_statement(em: &mut Emitter, node: &EnumStatementNode, next_block: NextBlock) -> (r:
    Result<Control, CompileError>)
    requires
        old(em).building(),
        old(em).env@.len() > 0,
    ensures
        final(em).building(),
        final(em).env@.len() == old(em).env@.len(),
        final(em).blocks@.len() >= old(em).blocks@.len(),
        match r {
            Ok(c) => sv_emit_statement(
                old(em)@,
                crate::parser::StatementNode::Enum(*node)@,
                next_block,
            ) == Ok::<(Control, EmitterV), ErrV>((c, final(em)@)),
            Err(e) => sv_emit_statement(
                old(em)@,
                crate::parser::StatementNode::Enum(*node)@,
                next_block,
            ) == Err::<(Control, EmitterV), ErrV>(e@),
        },
{
    match node {
        EnumStatementNode::Definition(def) => {
            match enum_decls(em, &def.enums, 0) {
                Ok(()) => Ok(Control::Continue),
                Err(e) => Err(e),
            }
        },
        EnumStatementNode::Declare(ds) => emit_declare_statement(em, &ds.declare_variable_node),
    }
}


/// The parameter types of a function, resolved in declared order.
pub open spec fn sv_resolve_params(
    env: Seq<crate::environment::ScopeV>,
    ps: Seq<crate::parser::DvnV>,
    i: int,
    tys: Seq<IrTypeV>,
) -> Result<Seq<IrTypeV>, ErrV>
    decreases ps.len() - i,
{
    if 0 <= i < ps.len() {
        match crate::environment::spec_resolve(env, ps[i].value_type) {
            Err(e) => Err(e),
            Ok(t) => sv_resolve_params(env, ps, i + 1, tys.push(t)),
        }
    } else {
        Ok(tys)
    }
}

/// The parameter list of a function header, rendered in order.
pub open spec fn sv_render_params(line: Seq<char>, tys: Seq<IrTypeV>, j: int) -> Seq<char>
    decreases tys.len() - j,
{
    if 0 <= j < tys.len() {
        let line2 = if j > 0 {
            line + ", "@
        } else {
            line
        };
        sv_render_params(
            line2 + type_text(tys[j]) + " %a"@ + crate::text::dec_str(j as nat),
            tys,
            j + 1,
        )
    } else {
        line
    }
}

/// The incoming arguments spilled into named slots, in order.
pub open spec fn sv_spill_params(
    em: EmitterV,
    ps: Seq<crate::parser::DvnV>,
    tys: Seq<IrTypeV>,
    k: int,
) -> Result<EmitterV, ErrV>
    decreases ps.len() - k,
{
    if 0 <= k < ps.len() {
        if k >= tys.len() {
            Err(ErrV::Unsupported)
        } else {
            let (slot, em1) = sv_store_value(em, "%a"@ + crate::text::dec_str(k as nat), tys[k]);
            match sv_insert_other(
                em1.env,
                ps[k].identifier,
                crate::environment::OtherV::Variable(slot),
            ) {
                Ok(env2) => sv_spill_params(EmitterV { env: env2, ..em1 }, ps, tys, k + 1),
                Err(e) => Err(e),
            }
        }
    } else {
        Ok(em)
    }
}

/// A function body's statements, lowered in source order.
pub open spec fn sv_fn_body(em: EmitterV, ss: Seq<crate::parser::StmtV>, s: int) -> Result<
    EmitterV,
    ErrV,
>
    decreases ss.len() - s,
{
    if 0 <= s < ss.len() {
        match sv_emit_statement(
            em,
            ss[s],
            NextBlock { break_block: None, continue_block: None },
        ) {
            Err(e) => Err(e),
            Ok((_c, em1)) => sv_fn_body(em1, ss, s + 1),
        }
    } else {
        Ok(em)
    }
}

/// A block's instruction lines, one per line.
pub open spec fn sv_render_insts(text: Seq<char>, insts: Seq<Seq<char>>, q: int) -> Seq<char>
    decreases insts.len() - q,
{
    if 0 <= q < insts.len() {
        sv_render_insts(text + insts[q] + "\n"@, insts, q + 1)
    } else {
        text
    }
}

/// The blocks of a finished function as text: each label, its instructions,
/// and its terminator — or `unreachable` for a block nothing terminated,
/// which no well-formed path reaches.
pub open spec fn sv_render_blocks(text: Seq<char>, bs: Seq<BlockV>, b: int) -> Seq<char>
    decreases bs.len() - b,
{
    if 0 <= b < bs.len() {
        let t1 = text + label_name(bs[b].id) + ":\n"@;
        let t2 = sv_render_insts(t1, bs[b].insts, 0);
        let t3 = match bs[b].term {
            Some(t) => t2 + t + "\n"@,
            None => t2 + "  unreachable\n"@,
        };
        sv_render_blocks(t3, bs, b + 1)
    } else {
        text
    }
}

/// What lowering one function definition does: the symbol declared, the
/// entry block opened, the parameters spilled, the body lowered in order,
/// and the rendered text appended to the module.
pub open spec fn sv_emit_function(em: EmitterV, f: crate::parser::FuncV) -> Result<EmitterV, ErrV> {
    match f.statements {
        None => Err(ErrV::Unsupported),
        Some(ss) => match crate::environment::spec_resolve(em.env, f.return_type) {
            Err(e) => Err(e),
            Ok(ret) => match sv_resolve_params(em.env, f.parameters, 0, Seq::empty()) {
                Err(e) => Err(e),
                Ok(tys) => {
                    let header0 = sv_render_params(
                        "define "@ + type_text(ret) + " @"@ + f.identifier + "("@,
                        tys,
                        0,
                    );
                    let header1 = if f.is_var_args {
                        if tys.len() > 0 {
                            header0 + ", "@ + "..."@
                        } else {
                            header0 + "..."@
                        }
                    } else {
                        header0
                    };
                    let header = header1 + ") {"@;
                    let em1 = EmitterV {
                        funs: em.funs.push(
                            FnInfoV {
                                name: f.identifier,
                                ret: ret,
                                params: tys,
                                var_args: f.is_var_args,
                            },
                        ),
                        ..em
                    };
                    let em2 = EmitterV {
                        blocks: Seq::empty(),
                        cur: 0,
                        next_reg: 0,
                        next_label: 0,
                        cur_ret: ret,
                        env: em1.env.push(sv_fresh_scope()),
                        ..em1
                    };
                    let (entry, em3) = sv_new_block(em2);
                    let em4 = sv_position_at(em3, entry);
                    match sv_spill_params(em4, f.parameters, tys, 0) {
                        Err(e) => Err(e),
                        Ok(em5) => match sv_fn_body(em5, ss, 0) {
                            Err(e) => Err(e),
                            Ok(em6) => {
                                let em7 = EmitterV { env: em6.env.drop_last(), ..em6 };
                                let text = sv_render_blocks(header + "\n"@, em7.blocks, 0)
                                    + "}\n"@;
                                Ok(EmitterV { out_funcs: em7.out_funcs.push(text), ..em7 })
                            },
                        },
                    }
                },
            },
        },
    }
}

/// A global declaration: a module-level symbol of the resolved type, with a
/// literal initializer or none, and the global binding.
pub open spec fn sv_global(em: EmitterV, d: crate::parser::DvnV) -> Result<EmitterV, ErrV> {
    match crate::environment::spec_resolve(em.env, d.value_type) {
        Err(e) => Err(e),
        Ok(ty) => {
            let name = "@"@ + d.identifier;
            let line_res: Result<Seq<char>, ErrV> = match d.init {
                Some(e) => match sv_const_expr(e) {
                    Ok(t) => Ok(name + " = global "@ + type_text(ty) + " "@ + t),
                    Err(er) => Err(er),
                },
                None => Ok(name + " = external global "@ + type_text(ty)),
            };
            match line_res {
                Err(e) => Err(e),
                Ok(line) => {
                    let em1 = EmitterV { decls: em.decls.push(line), ..em };
                    match sv_insert_other(
                        em1.env,
                        d.identifier,
                        crate::environment::OtherV::Global(PtrV { op: name, ty }),
                    ) {
                        Ok(env2) => Ok(EmitterV { env: env2, ..em1 }),
                        Err(e) => Err(e),
                    }
                },
            }
        },
    }
}

/// One builtin helper declared: the module line and the symbol.
pub open spec fn sv_declare_builtin2(em: EmitterV, name: Seq<char>) -> EmitterV {
    let em1 = EmitterV {
        decls: em.decls.push("declare i32 @"@ + name + "(i32, i32)"@),
        ..em
    };
    EmitterV {
        funs: em1.funs.push(
            FnInfoV {
                name: name,
                ret: IrTypeV::I32,
                params: seq![IrTypeV::I32, IrTypeV::I32],
                var_args: false,
            },
        ),
        ..em1
    }
}

/// The builtin helpers and the one external I/O primitive, declared before
/// any user code.
pub open spec fn sv_declare_builtins(em: EmitterV) -> EmitterV {
    let em1 = sv_declare_builtin2(em, "eq_int"@);
    let em2 = sv_declare_builtin2(em1, "sgt_int"@);
    let em3 = sv_declare_builtin2(em2, "slt_int"@);
    let em4 = sv_declare_builtin2(em3, "and_int"@);
    let em5 = sv_declare_builtin2(em4, "or_int"@);
    let em6 = EmitterV {
        decls: em5.decls.push("declare i32 @putchar(i32)"@),
        ..em5
    };
    EmitterV {
        funs: em6.funs.push(
            FnInfoV {
                name: "putchar"@,
                ret: IrTypeV::I32,
                params: seq![IrTypeV::I32],
                var_args: false,
            },
        ),
        ..em6
    }
}

/// The top-level declarations lowered in order.
pub open spec fn sv_emit_declares(em: EmitterV, ds: Seq<crate::parser::DeclV>, i: int) -> Result<
    EmitterV,
    ErrV,
>
    decreases ds.len() - i,
{
    if 0 <= i < ds.len() {
        let step: Result<EmitterV, ErrV> = match ds[i] {
            crate::parser::DeclV::Function(f) => sv_emit_function(em, f),
            crate::parser::DeclV::Variable(d) => sv_global(em, d),
            crate::parser::DeclV::Struct(sn) => match sn {
                crate::parser::StructStmtV::Definition(d) => sv_struct_definition(em, d),
                crate::parser::StructStmtV::Declare(_) => Err(ErrV::Unsupported),
            },
            crate::parser::DeclV::Enum(_) => Err(ErrV::Unsupported),
        };
        match step {
            Err(e) => Err(e),
            Ok(em1) => sv_emit_declares(em1, ds, i + 1),
        }
    } else {
        Ok(em)
    }
}

/// What lowering a whole program does: builtins first, then each
/// declaration in order, inside one outermost scope.
pub open spec fn sv_emit_program(em: EmitterV, ds: Seq<crate::parser::DeclV>) -> Result<
    EmitterV,
    ErrV,
> {
    let em1 = sv_declare_builtins(em);
    let em2 = EmitterV { env: em1.env.push(sv_fresh_scope()), ..em1 };
    match sv_emit_declares(em2, ds, 0) {
        Err(e) => Err(e),
        Ok(em3) => Ok(EmitterV { env: em3.env.drop_last(), ..em3 }),
    }
}

/// The module-level lines, one per line.
pub open spec fn sv_render_decls(text: Seq<char>, ds: Seq<Seq<char>>, i: int) -> Seq<char>
    decreases ds.len() - i,
{
    if 0 <= i < ds.len() {
        sv_render_decls(text + ds[i] + "\n"@, ds, i + 1)
    } else {
        text
    }
}

/// The finished functions, concatenated.
pub open spec fn sv_render_funcs(text: Seq<char>, fs: Seq<Seq<char>>, j: int) -> Seq<char>
    decreases fs.len() - j,
{
    if 0 <= j < fs.len() {
        sv_render_funcs(text + fs[j], fs, j + 1)
    } else {
        text
    }
}

/// The finished module as text.
pub open spec fn sv_module_text(em: EmitterV) -> Seq<char> {
    sv_render_funcs(sv_render_decls(Seq::empty(), em.decls, 0), em.out_funcs, 0)
}

/// The state a fresh lowerer starts from.
pub open spec fn sv_new_emitter() -> EmitterV {
    EmitterV {
        env: Seq::empty(),
        funs: Seq::empty(),
        decls: Seq::empty(),
        out_funcs: Seq::empty(),
        blocks: Seq::empty(),
        cur: 0,
        next_reg: 0,
        next_label: 0,
        next_str: 0,
        cur_ret: IrTypeV::I32,
    }
}

/// The parameter types of a function, resolved in declared order.
fn resolve_params(
    em: &Emitter,
    params: &Vec<DeclareVariableNode>,
    i: usize,
    tys: Vec<IrType>,
) -> (r: Result<Vec<IrType>, CompileError>)
    requires
        i <= params@.len(),
    ensures
        match r {
            Ok(ts) => sv_resolve_params(
                em@.env,
                crate::parser::dvns_v(params@),
                i as int,
                types_v(tys@),
            ) == Ok::<Seq<IrTypeV>, ErrV>(types_v(ts@)),
            Err(e) => sv_resolve_params(
                em@.env,
                crate::parser::dvns_v(params@),
                i as int,
                types_v(tys@),
            ) == Err::<Seq<IrTypeV>, ErrV>(e@),
        },
    decreases params@.len() - i,
{
    if i >= params.len() {
        return Ok(tys);
    }
    proof {
        assert(crate::parser::dvns_v(params@)[i as int] == crate::parser::dvn_v(
            params@[i as int],
        ));
    }
    let t = match em.env.get_type_from_string(&params[i].value_type) {
        Ok(t) => t,
        Err(e) => {
            return Err(e);
        },
    };
    let mut tys = tys;
    let ghost old_tys = tys@;
    tys.push(t);
    proof {
        assert(types_v(tys@) =~= types_v(old_tys).push(tys@.last()@));
    }
    resolve_params(em, params, i + 1, tys)
}

/// The parameter list of a function header, rendered in order.
fn render_params(line: String, tys: &Vec<IrType>, j: usize) -> (r: String)
    requires
        j <= tys@.len(),
    ensures
        r@ == sv_render_params(line@, types_v(tys@), j as int),
    decreases tys@.len() - j,
{
    if j >= tys.len() {
        return line;
    }
    proof {
        assert(types_v(tys@)[j as int] == tys@[j as int]@);
    }
    let mut line = line;
    if j > 0 {
        line.append(", ");
    }
    let t = tys[j].render();
    line.append(t.as_str());
    line.append(" %a");
    let d = u64_to_string(j as u64);
    line.append(d.as_str());
    render_params(line, tys, j + 1)
}

/// The incoming arguments spilled into named slots, in order.
fn spill_params(
    em: &mut Emitter,
    params: &Vec<DeclareVariableNode>,
    tys: &Vec<IrType>,
    k: usize,
) -> (r: Result<(), CompileError>)
    requires
        old(em).building(),
        old(em).env@.len() > 0,
        k <= params@.len(),
    ensures
        final(em).building(),
        final(em).env@.len() == old(em).env@.len(),
        final(em).blocks@.len() >= old(em).blocks@.len(),
        match r {
            Ok(()) => sv_spill_params(
                old(em)@,
                crate::parser::dvns_v(params@),
                types_v(tys@),
                k as int,
            ) == Ok::<EmitterV, ErrV>(final(em)@),
            Err(e) => sv_spill_params(
                old(em)@,
                crate::parser::dvns_v(params@),
                types_v(tys@),
                k as int,
            ) == Err::<EmitterV, ErrV>(e@),
        },
    decreases params@.len() - k,
{
    if k >= params.len() {
        return Ok(());
    }
    if k >= tys.len() {
        return Err(CompileError::Unsupported);
    }
    proof {
        assert(crate::parser::dvns_v(params@)[k as int] == crate::parser::dvn_v(
            params@[k as int],
        ));
        assert(types_v(tys@)[k as int] == tys@[k as int]@);
    }
    let pty = tys[k].dup();
    let mut arg = String::from_str("%a");
    let d = u64_to_string(k as u64);
    arg.append(d.as_str());
    let slot = store_value(em, &arg, &pty);
    match em.env.insert_new_other(params[k].identifier.clone(), Other::Variable(slot)) {
        Ok(()) => (),
        Err(e) => {
            return Err(e);
        },
    }
    spill_params(em, params, tys, k + 1)
}

/// A function body's statements, lowered in source order.
fn fn_body(em: &mut Emitter, stmts: &Vec<StatementNode>, s: usize) -> (r: Result<
    (),
    CompileError,
>)
    requires
        old(em).building(),
        old(em).env@.len() > 0,
        s <= stmts@.len(),
    ensures
        final(em).building(),
        final(em).env@.len() == old(em).env@.len(),
        final(em).blocks@.len() >= old(em).blocks@.len(),
        match r {
            Ok(()) => sv_fn_body(old(em)@, crate::parser::stmts_v(stmts@), s as int) == Ok::<
                EmitterV,
                ErrV,
            >(final(em)@),
            Err(e) => sv_fn_body(old(em)@, crate::parser::stmts_v(stmts@), s as int) == Err::<
                EmitterV,
                ErrV,
            >(e@),
        },
    decreases stmts@.len() - s,
{
    proof {
        crate::parser::lemma_stmts_v_len(stmts@);
    }
    if s >= stmts.len() {
        return Ok(());
    }
    proof {
        crate::parser::lemma_stmts_v_index(stmts@, s as int);
    }
    let none_nb = NextBlock { break_block: None, continue_block: None };
    match emit_statement(em, &stmts[s], none_nb) {
        Ok(_) => (),
        Err(e) => {
            return Err(e);
        },
    }
    fn_body(em, stmts, s + 1)
}

/// A block's instruction lines, one per line.
fn render_insts(text: String, insts: &Vec<String>, q: usize) -> (r: String)
    requires
        q <= insts@.len(),
    ensures
        r@ == sv_render_insts(text@, strings_v(insts@), q as int),
    decreases insts@.len() - q,
{
    if q >= insts.len() {
        return text;
    }
    proof {
        assert(strings_v(insts@)[q as int] == insts@[q as int]@);
    }
    let mut text = text;
    text.append(insts[q].as_str());
    text.append("\n");
    render_insts(text, insts, q + 1)
}

/// The blocks of a finished function as text.
fn render_blocks(text: String, blocks: &Vec<Block>, b: usize) -> (r: String)
    requires
        b <= blocks@.len(),
    ensures
        r@ == sv_render_blocks(text@, blocks_v(blocks@), b as int),
    decreases blocks@.len() - b,
{
    if b >= blocks.len() {
        return text;
    }
    proof {
        assert(blocks_v(blocks@)[b as int] == blocks@[b as int]@);
    }
    let mut text = text;
    let l = label_text(blocks[b].id);
    text.append(l.as_str());
    text.append(":\n");
    let mut text = render_insts(text, &blocks[b].insts, 0);
    match &blocks[b].term {
        Some(t) => {
            text.append(t.as_str());
            text.append("\n");
        },
        None => {
            // a block nothing ever terminated cannot be reached by a
            // well-formed path; close it so every block has a terminator
            text.append("  unreachable\n");
        },
    }
    render_blocks(text, blocks, b + 1)
}

/// Lowers one function definition: resolve the signature, declare the
/// symbol, open the entry block, spill the parameters into slots, lower the
/// body statements in order, and append the rendered text to the module.
fn emit_function(em: &mut Emitter, node: &FunctionNode) -> (r: Result<(), CompileError>)
    requires
        old(em).env@.len() > 0,
    ensures
        final(em).env@.len() == old(em).env@.len(),
        match r {
            Ok(()) => sv_emit_function(old(em)@, node@) == Ok::<EmitterV, ErrV>(final(em)@),
            Err(e) => sv_emit_function(old(em)@, node@) == Err::<EmitterV, ErrV>(e@),
        },
{
    let stmts = match &node.statements {
        Some(ss) => ss,
        None => {
            return Err(CompileError::Unsupported);
        },
    };
    let ret = match em.env.get_type_from_string(&node.return_type) {
        Ok(t) => t,
        Err(e) => {
            return Err(e);
        },
    };
    let empty_tys: Vec<IrType> = Vec::new();
    proof {
        assert(types_v(empty_tys@) =~= Seq::<IrTypeV>::empty());
    }
    let params = match resolve_params(em, &node.parameters, 0, empty_tys) {
        Ok(ts) => ts,
        Err(e) => {
            return Err(e);
        },
    };
    // header text
    let mut header = String::from_str("define ");
    let rt = ret.render();
    header.append(rt.as_str());
    header.append(" @");
    header.append(node.identifier.as_str());
    header.append("(");
    let mut header = render_params(header, &params, 0);
    if node.is_var_args {
        if params.len() > 0 {
            header.append(", ");
        }
        header.append("...");
    }
    header.append(") {");
    // declare the symbol before the body so recursive calls resolve
    let sig_params = dup_types(&params);
    em.push_fun(
        FnInfo {
            name: node.identifier.clone(),
            ret: ret.dup(),
            params: sig_params,
            var_args: node.is_var_args,
        },
    );
    // fresh function state
    em.blocks = Vec::new();
    em.cur = 0;
    em.next_reg = 0;
    em.next_label = 0;
    em.cur_ret = ret;
    proof {
        assert(blocks_v(em.blocks@) =~= Seq::<BlockV>::empty());
    }
    let scope = Scope::new();
    proof {
        assert(scope@ == sv_fresh_scope());
    }
    em.env.push_scope(scope);
    let entry = em.new_block();
    em.position_at(entry);
    match spill_params(em, &node.parameters, &params, 0) {
        Ok(()) => (),
        Err(e) => {
            em.env.pop_scope();
            return Err(e);
        },
    }
    match fn_body(em, stmts, 0) {
        Ok(()) => (),
        Err(e) => {
            em.env.pop_scope();
            return Err(e);
        },
    }
    em.env.pop_scope();
    // render the finished function
    let mut text = header;
    text.append("\n");
    let mut text = render_blocks(text, &em.blocks, 0);
    text.append("}\n");
    em.push_out_func(text);
    Ok(())
}

/// A global declaration: a module-level symbol of the resolved type, with a
/// compile-time constant initializer or none at all.
fn emit_declare_statement_global(em: &mut Emitter, node: &DeclareStatementNode) -> (r: Result<
    (),
    CompileError,
>)
    requires
        old(em).env@.len() > 0,
    ensures
        final(em).env@.len() == old(em).env@.len(),
        match r {
            Ok(()) => sv_global(old(em)@, crate::parser::dvn_v(node.declare_variable_node))
                == Ok::<EmitterV, ErrV>(final(em)@),
            Err(e) => sv_global(old(em)@, crate::parser::dvn_v(node.declare_variable_node))
                == Err::<EmitterV, ErrV>(e@),
        },
{
    let dvn = &node.declare_variable_node;
    let ty = match em.env.get_type_from_string(&dvn.value_type) {
        Ok(t) => t,
        Err(e) => {
            return Err(e);
        },
    };
    let mut name = String::from_str("@");
    name.append(dvn.identifier.as_str());
    let mut line = name.clone();
    match &dvn.initialize_expression {
        Some(e) => {
            let init = match emit_const_expression(e) {
                Ok(v) => v,
                Err(err) => {
                    return Err(err);
                },
            };
            line.append(" = global ");
            let t = ty.render();
            line.append(t.as_str());
            line.append(" ");
            line.append(init.as_str());
        },
        None => {
            line.append(" = external global ");
            let t = ty.render();
            line.append(t.as_str());
        },
    }
    em.push_decl(line);
    match em.env.insert_new_other(dvn.identifier.clone(), Other::Global(Ptr { op: name, ty })) {
        Ok(()) => Ok(()),
        Err(e) => Err(e),
    }
}

/// One builtin helper declared: the module line and the symbol.
fn declare_builtin2(em: &mut Emitter, name: &str)
    ensures
        final(em)@ == sv_declare_builtin2(old(em)@, name@),
{
    let mut line = String::from_str("declare i32 @");
    line.append(name);
    line.append("(i32, i32)");
    em.push_decl(line);
    let mut ps: Vec<IrType> = Vec::new();
    ps.push(IrType::I32);
    ps.push(IrType::I32);
    proof {
        assert(types_v(ps@) =~= seq![IrTypeV::I32, IrTypeV::I32]);
    }
    em.push_fun(FnInfo { name: name.to_owned(), ret: IrType::I32, params: ps, var_args: false });
}

/// The builtin helpers and the one external I/O primitive, declared before
/// any user code so calls to them always resolve.
fn declare_builtins(em: &mut Emitter)
    ensures
        final(em)@ == sv_declare_builtins(old(em)@),
{
    declare_builtin2(em, "eq_int");
    declare_builtin2(em, "sgt_int");
    declare_builtin2(em, "slt_int");
    declare_builtin2(em, "and_int");
    declare_builtin2(em, "or_int");
    em.push_decl(String::from_str("declare i32 @putchar(i32)"));
    let mut ps: Vec<IrType> = Vec::new();
    ps.push(IrType::I32);
    proof {
        assert(types_v(ps@) =~= seq![IrTypeV::I32]);
    }
    em.push_fun(
        FnInfo { name: String::from_str("putchar"), ret: IrType::I32, params: ps, var_args: false },
    );
}

/// The top-level declarations lowered in order.
fn emit_declares(em: &mut Emitter, declares: &Vec<DeclareNode>, i: usize) -> (r: Result<
    (),
    CompileError,
>)
    requires
        old(em).env@.len() > 0,
        i <= declares@.len(),
    ensures
        final(em).env@.len() == old(em).env@.len(),
        match r {
            Ok(()) => sv_emit_declares(old(em)@, crate::parser::decl_seq_v(declares@), i as int)
                == Ok::<EmitterV, ErrV>(final(em)@),
            Err(e) => sv_emit_declares(old(em)@, crate::parser::decl_seq_v(declares@), i as int)
                == Err::<EmitterV, ErrV>(e@),
        },
    decreases declares@.len() - i,
{
    if i >= declares.len() {
        return Ok(());
    }
    proof {
        assert(crate::parser::decl_seq_v(declares@)[i as int] == crate::parser::decl_v(
            declares@[i as int],
        ));
    }
    match &declares[i] {
        DeclareNode::Function(f) => {
            match emit_function(em, f) {
                Ok(()) => (),
                Err(e) => {
                    return Err(e);
                },
            }
        },
        DeclareNode::Variable(v) => {
            match emit_declare_statement_global(em, v) {
                Ok(()) => (),
                Err(e) => {
                    return Err(e);
                },
            }
        },
        DeclareNode::Struct(sn) => {
            match sn {
                StructStatementNode::Definition(def) => {
                    match emit_struct_definition(em, def) {
                        Ok(()) => (),
                        Err(e) => {
                            return Err(e);
                        },
                    }
                },
                StructStatementNode::Declare(_) => {
                    return Err(CompileError::Unsupported);
                },
            }
        },
        DeclareNode::Enum(_) => {
            return Err(CompileError::Unsupported);
        },
    }
    emit_declares(em, declares, i + 1)
}

/// Lowers a whole program: builtins first, then each declaration in order,
/// inside one outermost scope seeded with the primitive type names.
pub fn emit_program(em: &mut Emitter, node: &ProgramNode) -> (r: Result<(), CompileError>)
    ensures
        final(em).env@.len() == old(em).env@.len(),
        match r {
            Ok(()) => sv_emit_program(old(em)@, node@.declares) == Ok::<EmitterV, ErrV>(
                final(em)@,
            ),
            Err(e) => sv_emit_program(old(em)@, node@.declares) == Err::<EmitterV, ErrV>(e@),
        },
{
    declare_builtins(em);
    let scope = Scope::new();
    proof {
        assert(scope@ == sv_fresh_scope());
    }
    em.env.push_scope(scope);
    match emit_declares(em, &node.declares, 0) {
        Ok(()) => (),
        Err(e) => {
            em.env.pop_scope();
            return Err(e);
        },
    }
    em.env.pop_scope();
    Ok(())
}

impl Emitter {
    /// Lowers a whole program into this module.
    pub fn emit(&mut self, node: &ProgramNode) -> (r: Result<(), CompileError>)
        ensures
            final(self).env@.len() == old(self).env@.len(),
            match r {
                Ok(()) => sv_emit_program(old(self)@, node@.declares) == Ok::<EmitterV, ErrV>(
                    final(self)@,
                ),
                Err(e) => sv_emit_program(old(self)@, node@.declares) == Err::<EmitterV, ErrV>(e@),
            },
    {
        emit_program(self, node)
    }

    /// The finished module as text: the declarations and globals, then each
    /// lowered function.
    pub fn module_text(&self) -> (r: String)
        ensures
            r@ == sv_module_text(self@),
    {
        let empty = String::new();
        let decls_text = render_decl_lines(empty, &self.decls, 0);
        render_func_texts(decls_text, &self.out_funcs, 0)
    }
}

/// The module-level lines, one per line.
fn render_decl_lines(text: String, ds: &Vec<String>, i: usize) -> (r: String)
    requires
        i <= ds@.len(),
    ensures
        r@ == sv_render_decls(text@, strings_v(ds@), i as int),
    decreases ds@.len() - i,
{
    if i >= ds.len() {
        return text;
    }
    proof {
        assert(strings_v(ds@)[i as int] == ds@[i as int]@);
    }
    let mut text = text;
    text.append(ds[i].as_str());
    text.append("\n");
    render_decl_lines(text, ds, i + 1)
}

/// The finished functions, concatenated.
fn render_func_texts(text: String, fs: &Vec<String>, j: usize) -> (r: String)
    requires
        j <= fs@.len(),
    ensures
        r@ == sv_render_funcs(text@, strings_v(fs@), j as int),
    decreases fs@.len() - j,
{
    if j >= fs.len() {
        return text;
    }
    proof {
        assert(strings_v(fs@)[j as int] == fs@[j as int]@);
    }
    let mut text = text;
    text.append(fs[j].as_str());
    render_func_texts(text, fs, j + 1)
}


/// The text of a compile-time constant: a literal's own characters.
pub open spec fn sv_const_expr(e: crate::expression::ExprV) -> Result<Seq<char>, ErrV> {
    match e {
        crate::expression::ExprV::Token(t) => match t {
            crate::token::TokenV::IntNum(v, _) => Ok(v),
            crate::token::TokenV::FloatNum(v, _) => Ok(v),
            _ => Err(ErrV::NotAConstant),
        },
        _ => Err(ErrV::NotAConstant),
    }
}

/// A compile-time constant: an integer or float literal; anything else is
/// rejected, as globals take no computed initializers.
pub fn emit_const_expression(node: &ExpressionNode) -> (r: Result<String, CompileError>)
    ensures
        r is Ok <==> (node matches ExpressionNode::Token(tn) && (tn.token is IntNum || tn.token
            is FloatNum)),
        match r {
            Ok(t) => sv_const_expr(node@) == Ok::<Seq<char>, ErrV>(t@),
            Err(e) => sv_const_expr(node@) == Err::<Seq<char>, ErrV>(e@),
        },
{
    match node {
        ExpressionNode::Token(tn) => match &tn.token {
            Token::IntNum(v, _) => Ok(v.clone()),
            Token::FloatNum(v, _) => Ok(v.clone()),
            _ => Err(CompileError::NotAConstant),
        },
        _ => Err(CompileError::NotAConstant),
    }
}

} // verus!
