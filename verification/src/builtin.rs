//! The builtin module: bodies for the comparison and logical helpers that
//! lowered operators call. Each is a three-block function computing a 0-or-1
//! `i32` through a phi, avoiding a direct `zext` of an `i1`. The logical
//! helpers compare each operand with zero on its own: `or_int` tests
//! `(a | b) != 0`, so operands that cancel under addition still count as
//! true, and `and_int` tests `a != 0` and `b != 0` separately, so operands
//! whose product wraps to zero still count as true.
use vstd::prelude::*;

verus! {

/// The text of the builtin module.
pub open spec fn builtin_module_text() -> Seq<char> {
    "define i32 @eq_int(i32 %a0, i32 %a1) {\nL0:\n  %t0 = icmp eq i32 %a0, %a1\n  br i1 %t0, label %L2, label %L1\nL1:\n  br label %L2\nL2:\n  %t1 = phi i32 [ 0, %L1 ], [ 1, %L0 ]\n  ret i32 %t1\n}\ndefine i32 @sgt_int(i32 %a0, i32 %a1) {\nL0:\n  %t0 = icmp sgt i32 %a0, %a1\n  br i1 %t0, label %L2, label %L1\nL1:\n  br label %L2\nL2:\n  %t1 = phi i32 [ 0, %L1 ], [ 1, %L0 ]\n  ret i32 %t1\n}\ndefine i32 @slt_int(i32 %a0, i32 %a1) {\nL0:\n  %t0 = icmp slt i32 %a0, %a1\n  br i1 %t0, label %L2, label %L1\nL1:\n  br label %L2\nL2:\n  %t1 = phi i32 [ 0, %L1 ], [ 1, %L0 ]\n  ret i32 %t1\n}\ndefine i32 @and_int(i32 %a0, i32 %a1) {\nL0:\n  %t0 = icmp ne i32 %a0, 0\n  %t1 = icmp ne i32 %a1, 0\n  %t2 = and i1 %t0, %t1\n  br i1 %t2, label %L2, label %L1\nL1:\n  br label %L2\nL2:\n  %t3 = phi i32 [ 0, %L1 ], [ 1, %L0 ]\n  ret i32 %t3\n}\ndefine i32 @or_int(i32 %a0, i32 %a1) {\nL0:\n  %t0 = or i32 %a0, %a1\n  %t1 = icmp eq i32 %t0, 0\n  br i1 %t1, label %L2, label %L1\nL1:\n  br label %L2\nL2:\n  %t2 = phi i32 [ 1, %L1 ], [ 0, %L0 ]\n  ret i32 %t2\n}\n"@
}

/// Emits the builtin module: definitions of `eq_int`, `sgt_int`, `slt_int`,
/// `and_int` and `or_int`, each `(i32, i32) -> i32` with a 0-or-1 result:
/// 1 exactly when the comparison holds, both operands are nonzero, or
/// either operand is nonzero.
pub fn emit_builtin() -> (r: String)
    ensures
        r@ == builtin_module_text(),
{
    String::from_str(
        "define i32 @eq_int(i32 %a0, i32 %a1) {\nL0:\n  %t0 = icmp eq i32 %a0, %a1\n  br i1 %t0, label %L2, label %L1\nL1:\n  br label %L2\nL2:\n  %t1 = phi i32 [ 0, %L1 ], [ 1, %L0 ]\n  ret i32 %t1\n}\ndefine i32 @sgt_int(i32 %a0, i32 %a1) {\nL0:\n  %t0 = icmp sgt i32 %a0, %a1\n  br i1 %t0, label %L2, label %L1\nL1:\n  br label %L2\nL2:\n  %t1 = phi i32 [ 0, %L1 ], [ 1, %L0 ]\n  ret i32 %t1\n}\ndefine i32 @slt_int(i32 %a0, i32 %a1) {\nL0:\n  %t0 = icmp slt i32 %a0, %a1\n  br i1 %t0, label %L2, label %L1\nL1:\n  br label %L2\nL2:\n  %t1 = phi i32 [ 0, %L1 ], [ 1, %L0 ]\n  ret i32 %t1\n}\ndefine i32 @and_int(i32 %a0, i32 %a1) {\nL0:\n  %t0 = icmp ne i32 %a0, 0\n  %t1 = icmp ne i32 %a1, 0\n  %t2 = and i1 %t0, %t1\n  br i1 %t2, label %L2, label %L1\nL1:\n  br label %L2\nL2:\n  %t3 = phi i32 [ 0, %L1 ], [ 1, %L0 ]\n  ret i32 %t3\n}\ndefine i32 @or_int(i32 %a0, i32 %a1) {\nL0:\n  %t0 = or i32 %a0, %a1\n  %t1 = icmp eq i32 %t0, 0\n  br i1 %t1, label %L2, label %L1\nL1:\n  br label %L2\nL2:\n  %t2 = phi i32 [ 1, %L1 ], [ 0, %L0 ]\n  ret i32 %t2\n}\n",
    )
}

} // verus!
