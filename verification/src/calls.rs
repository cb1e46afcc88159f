//! Calls: the check of the arguments against the callee's parameters, the
//! binding of the result to a fresh slot, and overflow-checked arithmetic,
//! which is a call of a builtin.

use crate::builder::Builder;
use crate::context::CodegenCx;
use crate::ir::{Block, Function, Node, RValue, SlotName, Statement, Type};
use crate::kinds::{Builtin, LowerError, OverflowOp, TyKind};
use crate::model::CxView;
use vstd::prelude::*;

verus! {

impl Builder {
    /// Whether argument `i` is within the declared parameters and of
    /// another type than the parameter at its position.
    pub open spec fn mismatch(cx: CxView, expected: Seq<Type>, args: Seq<RValue>, i: int) -> bool {
        0 <= i < args.len() && i < expected.len() && cx.type_of(args[i]) != expected[i]
    }

    /// The context after the first `n` arguments are checked: one
    /// reinterpretation node for each mismatched argument among them, in
    /// the order of the arguments.
    pub open spec fn checked_args(
        cx: CxView,
        expected: Seq<Type>,
        args: Seq<RValue>,
        n: int,
    ) -> CxView
        decreases n,
    {
        if n <= 0 {
            cx
        } else {
            let c = Builder::checked_args(cx, expected, args, n - 1);
            if Builder::mismatch(cx, expected, args, n - 1) {
                c.with_node(Node::Bitcast { value: args[n - 1] }, expected[n - 1])
            } else {
                c
            }
        }
    }

    /// What is passed for argument `i`: its reinterpretation where it
    /// mismatches, else the argument itself.
    pub open spec fn checked_arg(
        cx: CxView,
        expected: Seq<Type>,
        args: Seq<RValue>,
        i: int,
    ) -> RValue {
        if Builder::mismatch(cx, expected, args, i) {
            Builder::checked_args(cx, expected, args, i).next_value()
        } else {
            args[i]
        }
    }

    /// The argument list that is passed: as long as the one given.
    pub open spec fn checked_list(
        cx: CxView,
        expected: Seq<Type>,
        args: Seq<RValue>,
    ) -> Seq<RValue> {
        Seq::new(args.len(), |i: int| Builder::checked_arg(cx, expected, args, i))
    }

    fn check_args(cx: &mut CodegenCx, expected: &Vec<Type>, args: &Vec<RValue>) -> (r: Vec<RValue>)
        requires
            old(cx).wf(),
            old(cx)@.valid_rvalues(args@),
            forall|k: int| 0 <= k < expected@.len() ==> old(cx)@.valid_type(#[trigger] expected@[k]),
        ensures
            final(cx).wf(),
            final(cx)@ == Builder::checked_args(old(cx)@, expected@, args@, args@.len() as int),
            r@ == Builder::checked_list(old(cx)@, expected@, args@),
            final(cx)@.valid_rvalues(r@),
            final(cx)@ == (CxView { values: final(cx)@.values, ..old(cx)@ }),
            old(cx)@.grows_to(final(cx)@),
    {
        let ghost pre = cx@;
        let mut out: Vec<RValue> = Vec::new();
        let mut i: usize = 0;
        while i < args.len()
            invariant
                i <= args@.len(),
                cx.wf(),
                pre.wf(),
                pre.valid_rvalues(args@),
                forall|k: int| 0 <= k < expected@.len() ==> pre.valid_type(#[trigger] expected@[k]),
                cx@ == Builder::checked_args(pre, expected@, args@, i as int),
                out@ == Seq::new(i as nat, |k: int| Builder::checked_arg(pre, expected@, args@, k)),
                cx@.valid_rvalues(out@),
                cx@ == (CxView { values: cx@.values, ..pre }),
                pre.grows_to(cx@),
            decreases args@.len() - i,
        {
            let arg = args[i];
            proof {
                assert(pre.valid_rvalue(args@[i as int]));
                assert(cx@.values[arg.id as int] == pre.values[arg.id as int]);
            }
            let ghost before = out@;
            let passed = if i < expected.len() && cx.val_ty(arg) != expected[i] {
                cx.new_bitcast(arg, expected[i])
            } else {
                arg
            };
            out.push(passed);
            proof {
                assert(passed == Builder::checked_arg(pre, expected@, args@, i as int));
                assert(out@ =~= Seq::new(
                    (i + 1) as nat,
                    |k: int| Builder::checked_arg(pre, expected@, args@, k),
                ));
                assert forall|k: int| 0 <= k < out@.len() implies (#[trigger] out@[k]).id
                    < cx@.values.len() by {
                    if k < i {
                        assert(out@[k] == before[k]);
                    }
                }
            }
            i += 1;
        }
        out
    }

    /// The arguments to pass to a function: each argument within the
    /// function's declared parameters whose type is not the parameter's is
    /// replaced by its bits read as the parameter's type; every other
    /// argument, and every argument beyond the declared parameters, is
    /// passed as it is.
    pub fn check_call(&mut self, cx: &mut CodegenCx, func: Function, args: &Vec<RValue>) -> (r: Vec<
        RValue,
    >)
        requires
            old(cx).wf(),
            old(cx)@.defined(func),
            old(cx)@.valid_rvalues(args@),
        ensures
            final(cx).wf(),
            final(cx)@ == Builder::checked_args(
                old(cx)@,
                old(cx)@.functions[func->id as int].params,
                args@,
                args@.len() as int,
            ),
            r@ == Builder::checked_list(old(cx)@, old(cx)@.functions[func->id as int].params, args@),
            final(cx)@.valid_rvalues(r@),
            final(cx)@ == (CxView { values: final(cx)@.values, ..old(cx)@ }),
            *final(self) == *old(self),
            old(cx)@.grows_to(final(cx)@),
    {
        let mut param_types: Vec<Type> = Vec::new();
        let param_count = cx.get_param_count(func);
        let mut index: usize = 0;
        while index < param_count
            invariant
                index <= param_count,
                cx.wf(),
                cx@.defined(func),
                param_count == cx@.functions[func->id as int].params.len(),
                param_types@ == cx@.functions[func->id as int].params.take(index as int),
                forall|k: int| 0 <= k < param_types@.len() ==> cx@.valid_type(#[trigger] param_types@[k]),
            decreases param_count - index,
        {
            let param = cx.get_param_type(func, index);
            param_types.push(param);
            proof {
                assert(param_types@ =~= cx@.functions[func->id as int].params.take(index + 1));
            }
            index += 1;
        }
        proof {
            assert(param_types@ =~= cx@.functions[func->id as int].params);
        }
        Builder::check_args(cx, &param_types, args)
    }

    /// The arguments to pass through a function pointer: as for a function,
    /// by the parameter types of the pointer's signature.
    pub fn check_ptr_call(&mut self, cx: &mut CodegenCx, func_ptr: RValue, args: &Vec<RValue>) -> (r:
        Vec<RValue>)
        requires
            old(cx).wf(),
            old(cx)@.valid_rvalue(func_ptr),
            old(cx)@.is_function_ptr(old(cx)@.type_of(func_ptr)),
            old(cx)@.valid_rvalues(args@),
        ensures
            final(cx).wf(),
            final(cx)@ == Builder::checked_args(
                old(cx)@,
                old(cx)@.ptr_params(old(cx)@.type_of(func_ptr)),
                args@,
                args@.len() as int,
            ),
            r@ == Builder::checked_list(
                old(cx)@,
                old(cx)@.ptr_params(old(cx)@.type_of(func_ptr)),
                args@,
            ),
            final(cx)@.valid_rvalues(r@),
            final(cx)@ == (CxView { values: final(cx)@.values, ..old(cx)@ }),
            *final(self) == *old(self),
            old(cx)@.grows_to(final(cx)@),
    {
        let ty = cx.val_ty(func_ptr);
        let mut param_types: Vec<Type> = Vec::new();
        let param_count = cx.types[ty.id].members.len();
        let mut index: usize = 0;
        proof {
            reveal(CxView::types_wf);
            assert(cx@.type_ok(cx@.types[ty.id as int], ty.id as int));
        }
        while index < param_count
            invariant
                index <= param_count,
                cx.wf(),
                cx@.valid_type(ty),
                param_count == cx@.types[ty.id as int].members.len(),
                param_types@ == cx@.types[ty.id as int].members.take(index as int),
                forall|k: int| 0 <= k < param_types@.len() ==> cx@.valid_type(#[trigger] param_types@[k]),
            decreases param_count - index,
        {
            let param = cx.types[ty.id].members[index];
            proof {
                reveal(CxView::types_wf);
            assert(cx@.type_ok(cx@.types[ty.id as int], ty.id as int));
                assert(cx@.types[ty.id as int].members[index as int].id < ty.id);
            }
            param_types.push(param);
            proof {
                assert(param_types@ =~= cx@.types[ty.id as int].members.take(index + 1));
            }
            index += 1;
        }
        proof {
            assert(param_types@ =~= cx@.types[ty.id as int].members);
        }
        Builder::check_args(cx, &param_types, args)
    }

    /// A call whose result is bound to a fresh slot: the slot, of type
    /// `ret` and of the function that owns `block`, under the next number
    /// of the counter; the call; the assignment of the call to the slot in
    /// `block`.
    pub open spec fn into_slot(
        cx: CxView,
        block: Block,
        callee: Node,
        ret: Type,
        args: Seq<RValue>,
    ) -> CxView {
        let c1 = cx.with_fresh_local(cx.owner(block)->id, ret, false);
        let c2 = c1.push_value(crate::ir::ValueView { node: callee, ty: ret, args });
        c2.emit(block, Statement::Assign { place: cx.next_place(), value: c1.next_value() })
    }

    /// A call that is evaluated for its effects: the call, its evaluation
    /// in `block`, and a zero of the signed pointer-sized type to stand for
    /// the result that there is not.
    pub open spec fn for_effect(
        cx: CxView,
        block: Block,
        callee: Node,
        ret: Type,
        args: Seq<RValue>,
    ) -> CxView {
        let c1 = cx.push_value(crate::ir::ValueView { node: callee, ty: ret, args });
        let c2 = c1.emit(block, Statement::Eval { value: cx.next_value() });
        c2.with_node(Node::Int { value: 0 }, Type { id: 12 })
    }

    /// A call made where the context's cursor stands: bound to a fresh slot
    /// where it returns a value, evaluated for its effects where its return
    /// type is void.
    pub open spec fn materialized(
        cx: CxView,
        callee: Node,
        ret: Type,
        args: Seq<RValue>,
    ) -> CxView {
        let block = cx.current_block->0;
        if ret != (Type { id: 0 }) {
            Builder::into_slot(cx, block, callee, ret, args)
        } else {
            Builder::for_effect(cx, block, callee, ret, args)
        }
    }

    /// The handle that a materialised call gives: the slot, or the
    /// placeholder.
    pub open spec fn materialized_result(cx: CxView, ret: Type) -> RValue {
        if ret != (Type { id: 0 }) {
            cx.next_value()
        } else {
            RValue { id: (cx.values.len() + 1) as usize }
        }
    }

    pub(crate) fn call_into_slot(
        cx: &mut CodegenCx,
        block: Block,
        callee: Node,
        ret: Type,
        args: Vec<RValue>,
    ) -> (r: RValue)
        requires
            old(cx).wf(),
            old(cx)@.open_block(block),
            old(cx)@.valid_type(ret),
            old(cx)@.valid_rvalues(args@),
            match callee {
                Node::Call { func } => old(cx)@.valid_function(func),
                Node::CallThroughPtr { ptr } => old(cx)@.valid_rvalue(ptr),
                _ => false,
            },
        ensures
            final(cx).wf(),
            final(cx)@ == Builder::into_slot(old(cx)@, block, callee, ret, args@),
            r == old(cx)@.next_value(),
            final(cx)@.valid_rvalue(r),
            final(cx)@.type_of(r) == ret,
            final(cx)@.fresh == old(cx)@.fresh + 1,
            final(cx)@.open_block(block),
            old(cx)@.grows_to(final(cx)@),
    {
        let current_func = cx.get_function(block);
        let result = cx.new_fresh_local(current_func, ret, false);
        let call = cx.new_value(callee, ret, args);
        cx.add_assignment(block, result, call);
        result.to_rvalue()
    }

    pub(crate) fn materialize(
        cx: &mut CodegenCx,
        callee: Node,
        ret: Type,
        args: Vec<RValue>,
    ) -> (r: RValue)
        requires
            old(cx).wf(),
            old(cx)@.cursor_open(),
            old(cx)@.valid_type(ret),
            old(cx)@.valid_rvalues(args@),
            match callee {
                Node::Call { func } => old(cx)@.valid_function(func),
                Node::CallThroughPtr { ptr } => old(cx)@.valid_rvalue(ptr),
                _ => false,
            },
        ensures
            final(cx).wf(),
            final(cx)@ == Builder::materialized(old(cx)@, callee, ret, args@),
            r == Builder::materialized_result(old(cx)@, ret),
            final(cx)@.valid_rvalue(r),
            final(cx)@.cursor_open(),
            ret == (Type { id: 0 }) ==> final(cx)@.node(r) == (Node::Int { value: 0 })
                && !final(cx)@.is_pointer(final(cx)@.type_of(r)),
            old(cx)@.grows_to(final(cx)@),
    {
        let current_block = match cx.current_block {
            Some(b) => b,
            None => Block { id: 0 },
        };
        let void_type = cx.type_void();
        if ret != void_type {
            Builder::call_into_slot(cx, current_block, callee, ret, args)
        } else {
            let call = cx.new_value(callee, ret, args);
            cx.add_eval(current_block, call);
            let isize_type = cx.type_isize();
            cx.new_rvalue_from_long(isize_type, 0)
        }
    }

    /// A call of a function of the context: the checked arguments, then the
    /// materialised call.
    pub open spec fn spec_function_call(cx: CxView, f: Function, args: Seq<RValue>) -> CxView {
        let params = cx.functions[f->id as int].params;
        Builder::materialized(
            Builder::checked_args(cx, params, args, args.len() as int),
            Node::Call { func: f },
            cx.return_type(f),
            Builder::checked_list(cx, params, args),
        )
    }

    fn function_call(&mut self, cx: &mut CodegenCx, func: RValue, args: &Vec<RValue>) -> (r: RValue)
        requires
            old(cx).wf(),
            old(cx)@.cursor_open(),
            old(cx)@.valid_rvalue(func),
            old(cx)@.node(func) matches Node::FunctionRef { func: f } && f is Defined,
            old(cx)@.valid_rvalues(args@),
        ensures
            final(cx).wf(),
            final(cx)@ == Builder::spec_function_call(
                old(cx)@,
                old(cx)@.node(func)->FunctionRef_func,
                args@,
            ),
            r == Builder::call_result(old(cx)@, func, args@),
            final(cx)@.valid_rvalue(r),
            Builder::callee_return(old(cx)@, func) == (Type { id: 0 }) ==> final(cx)@.node(r) == (
            Node::Int { value: 0 }) && !final(cx)@.is_pointer(final(cx)@.type_of(r)),
            final(cx)@.cursor_open(),
            *final(self) == *old(self),
            old(cx)@.grows_to(final(cx)@),
    {
        let f = match cx.rvalue_as_function(func) {
            Some(f) => f,
            None => Function::Defined { id: 0 },
        };
        let return_type = cx.get_return_type(f);
        let args = self.check_call(cx, f, args);
        Builder::materialize(cx, Node::Call { func: f }, return_type, args)
    }

    /// A call through a function pointer: the arguments checked against
    /// the pointer's signature, then the materialised call.
    pub open spec fn spec_function_ptr_call(
        cx: CxView,
        func_ptr: RValue,
        args: Seq<RValue>,
    ) -> CxView {
        let ty = cx.type_of(func_ptr);
        Builder::materialized(
            Builder::checked_args(cx, cx.ptr_params(ty), args, args.len() as int),
            Node::CallThroughPtr { ptr: func_ptr },
            cx.ptr_return(ty),
            Builder::checked_list(cx, cx.ptr_params(ty), args),
        )
    }

    fn function_ptr_call(&mut self, cx: &mut CodegenCx, func_ptr: RValue, args: &Vec<RValue>) -> (r:
        RValue)
        requires
            old(cx).wf(),
            old(cx)@.cursor_open(),
            old(cx)@.valid_rvalue(func_ptr),
            old(cx)@.is_function_ptr(old(cx)@.type_of(func_ptr)),
            old(cx)@.valid_rvalues(args@),
        ensures
            final(cx).wf(),
            final(cx)@ == Builder::spec_function_ptr_call(old(cx)@, func_ptr, args@),
            !(old(cx)@.node(func_ptr) matches Node::FunctionRef { func: f } && f is Defined) ==> r
                == Builder::call_result(old(cx)@, func_ptr, args@),
            final(cx)@.valid_rvalue(r),
            old(cx)@.ptr_return(old(cx)@.type_of(func_ptr)) == (Type { id: 0 }) ==> final(cx)@.node(
                r,
            ) == (Node::Int { value: 0 }) && !final(cx)@.is_pointer(final(cx)@.type_of(r)),
            final(cx)@.cursor_open(),
            *final(self) == *old(self),
            old(cx)@.grows_to(final(cx)@),
    {
        let ty = cx.val_ty(func_ptr);
        proof {
            reveal(CxView::types_wf);
            assert(cx@.type_ok(cx@.types[ty.id as int], ty.id as int));
        }
        let return_type = match cx.kind(ty) {
            crate::ir::TypeKind::FunctionPtr { ret, .. } => ret,
            _ => Type { id: 0 },
        };
        let args = self.check_ptr_call(cx, func_ptr, args);
        Builder::materialize(cx, Node::CallThroughPtr { ptr: func_ptr }, return_type, args)
    }

    /// The return type of what a value calls: that of the function that it
    /// stands for, or that of its function-pointer type.
    pub open spec fn callee_return(cx: CxView, func: RValue) -> Type {
        if cx.node(func) matches Node::FunctionRef { func: f } && f is Defined {
            cx.return_type(cx.node(func)->FunctionRef_func)
        } else {
            cx.ptr_return(cx.type_of(func))
        }
    }

    /// The handle that a call gives: the slot that holds the result, or the
    /// placeholder, counted from the nodes that the check of the arguments
    /// has left.
    pub open spec fn call_result(cx: CxView, func: RValue, args: Seq<RValue>) -> RValue {
        let expected = if cx.node(func) matches Node::FunctionRef { func: f } && f is Defined {
            cx.functions[cx.node(func)->FunctionRef_func->id as int].params
        } else {
            cx.ptr_params(cx.type_of(func))
        };
        Builder::materialized_result(
            Builder::checked_args(cx, expected, args, args.len() as int),
            Builder::callee_return(cx, func),
        )
    }

    /// How a value is called: as a function of the context where it stands
    /// for one, through the pointer where its type is a function pointer's,
    /// and not at all otherwise.
    pub open spec fn spec_call(cx: CxView, func: RValue, args: Seq<RValue>) -> Option<CxView> {
        if cx.node(func) matches Node::FunctionRef { func: f } && f is Defined {
            Some(Builder::spec_function_call(cx, cx.node(func)->FunctionRef_func, args))
        } else if cx.is_function_ptr(cx.type_of(func)) {
            Some(Builder::spec_function_ptr_call(cx, func, args))
        } else {
            None
        }
    }

    /// Calls a value with arguments, where the context's cursor stands.
    /// The result is the slot that holds what the call returned, or, for a
    /// call that returns nothing, an integer zero that stands for nothing
    /// and is no pointer. `Err(UnexpectedType)`, with nothing changed,
    /// exactly for a value that cannot be called.
    pub fn call(&mut self, cx: &mut CodegenCx, func: RValue, args: &Vec<RValue>) -> (r: Result<
        RValue,
        LowerError,
    >)
        requires
            old(cx).wf(),
            old(cx)@.cursor_open(),
            old(cx)@.valid_rvalue(func),
            old(cx)@.valid_rvalues(args@),
        ensures
            final(cx).wf(),
            match Builder::spec_call(old(cx)@, func, args@) {
                Some(c) => final(cx)@ == c && r == Ok::<RValue, LowerError>(
                    Builder::call_result(old(cx)@, func, args@),
                ),
                None => final(cx)@ == old(cx)@ && r == Err::<RValue, LowerError>(
                    LowerError::UnexpectedType,
                ),
            },
            r matches Ok(v) ==> final(cx)@.valid_rvalue(v),
            r is Ok && Builder::callee_return(old(cx)@, func) == (Type { id: 0 }) ==> {
                &&& final(cx)@.node(r->Ok_0) == (Node::Int { value: 0 })
                &&& !final(cx)@.is_pointer(final(cx)@.type_of(r->Ok_0))
            },
            final(cx)@.cursor_open(),
            *final(self) == *old(self),
            old(cx)@.grows_to(final(cx)@),
    {
        let is_function = match cx.rvalue_as_function(func) {
            Some(Function::Defined { .. }) => true,
            _ => false,
        };
        if is_function {
            Ok(self.function_call(cx, func, args))
        } else {
            let ty = cx.val_ty(func);
            match cx.kind(ty) {
                crate::ir::TypeKind::FunctionPtr { .. } => Ok(self.function_ptr_call(cx, func, args)),
                _ => Err(LowerError::UnexpectedType),
            }
        }
    }

    /// Calls an overflow-checking function where the context's cursor
    /// stands. The boolean that it returns is bound to a fresh slot, which
    /// is the result. The arguments are passed as they are.
    pub fn overflow_call(&mut self, cx: &mut CodegenCx, func: Function, args: &Vec<RValue>) -> (r:
        RValue)
        requires
            old(cx).wf(),
            old(cx)@.cursor_open(),
            old(cx)@.valid_function(func),
            old(cx)@.valid_rvalues(args@),
        ensures
            final(cx).wf(),
            final(cx)@ == Builder::into_slot(
                old(cx)@,
                old(cx)@.current_block->0,
                Node::Call { func },
                Type { id: 1 },
                args@,
            ),
            r == old(cx)@.next_value(),
            final(cx)@.valid_rvalue(r),
            final(cx)@.cursor_open(),
            *final(self) == *old(self),
            old(cx)@.grows_to(final(cx)@),
    {
        let return_type = cx.type_bool();
        let current_block = match cx.current_block {
            Some(b) => b,
            None => Block { id: 0 },
        };
        let mut passed: Vec<RValue> = Vec::new();
        let mut i: usize = 0;
        while i < args.len()
            invariant
                i <= args@.len(),
                passed@ == args@.take(i as int),
            decreases args@.len() - i,
        {
            passed.push(args[i]);
            proof {
                assert(passed@ =~= args@.take(i + 1));
            }
            i += 1;
        }
        proof {
            assert(passed@ =~= args@);
        }
        Builder::call_into_slot(cx, current_block, Node::Call { func }, return_type, passed)
    }

    /// An overflow-checked operation through builtin `which`: a slot of the
    /// type of `rhs` named `binopResult`, its address, the call of the
    /// builtin on the two operands and that address, bound to a fresh slot
    /// where the context's cursor stands, and the location behind the
    /// address.
    pub open spec fn spec_checked_binop(
        cx: CxView,
        at: Block,
        which: Builtin,
        lhs: RValue,
        rhs: RValue,
    ) -> CxView {
        let c1 = cx.with_local(cx.owner(at)->id, cx.type_of(rhs), SlotName::BinopResult);
        let c2 = c1.with_address(cx.next_place());
        let res = c1.next_value();
        let c3 = Builder::into_slot(
            c2,
            cx.current_block->0,
            Node::Call { func: Function::Builtin { which } },
            Type { id: 1 },
            seq![lhs, rhs, res],
        );
        c3.with_deref(res)
    }

    /// An operation with overflow detection. The result is the pair of the
    /// wrapped value, read from the output slot, and the overflow flag,
    /// which is what the builtin returns. `Err(UnexpectedType)`, with
    /// nothing changed, exactly for a type that is not an integer.
    pub fn checked_binop(
        &mut self,
        cx: &mut CodegenCx,
        oop: OverflowOp,
        typ: TyKind,
        lhs: RValue,
        rhs: RValue,
    ) -> (r: Result<(RValue, RValue), LowerError>)
        requires
            old(cx).wf(),
            old(self).ready(old(cx)@),
            old(cx)@.cursor_open(),
            old(cx)@.valid_rvalue(lhs),
            old(cx)@.valid_rvalue(rhs),
        ensures
            final(cx).wf(),
            match typ.spec_overflow_builtin(oop, old(cx)@.ptr_width) {
                Some(which) => {
                    &&& final(cx)@ == Builder::spec_checked_binop(
                        old(cx)@,
                        old(self).at(),
                        which,
                        lhs,
                        rhs,
                    )
                    &&& r matches Ok(pair)
                    &&& pair.0.id == old(cx)@.values.len() + 4
                    &&& pair.1.id == old(cx)@.values.len() + 2
                },
                None => final(cx)@ == old(cx)@ && r == Err::<(RValue, RValue), LowerError>(
                    LowerError::UnexpectedType,
                ),
            },
            r matches Ok(pair) ==> final(cx)@.valid_rvalue(pair.0) && final(cx)@.valid_rvalue(
                pair.1,
            ),
            *final(self) == *old(self),
            old(cx)@.grows_to(final(cx)@),
    {
        let name = match typ.overflow_builtin(oop, cx.ptr_width) {
            Ok(name) => name,
            Err(e) => {
                return Err(e);
            },
        };
        let intrinsic = Function::Builtin { which: name };
        let func = self.current_func(cx);
        let ty = cx.val_ty(rhs);
        let local = cx.new_local(func, ty, SlotName::BinopResult);
        let res = cx.get_address(local);
        let args = vec![lhs, rhs, res];
        let overflow = self.overflow_call(cx, intrinsic, &args);
        proof {
            assert(args@ =~= seq![lhs, rhs, res]);
        }
        let value = cx.dereference(res).to_rvalue();
        Ok((value, overflow))
    }
}

} // verus!
