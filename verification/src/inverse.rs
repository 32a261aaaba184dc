//! The condition under which an assertion fails: the logical complement of
//! the asserted expression, formed on the syntax.
use crate::generate::FunSpecGenerator;
use crate::item::{macro_of_chain, MacroCall};
use crate::syntax::{
    clone_exp, exp_view_unfolds, item_view_unfolds, sequence_view_unfolds, views, BinOp, BinOp_,
    Exp, ExpModel, Exp_, Function, FunctionBodyModel, FunctionBody_, FunctionModel,
    SequenceItemModel, SequenceItem_, SequenceModel, Spanned, UnaryOp, UnaryOp_,
};
use vstd::prelude::*;

verus! {

/// The complement of a relational operator: `==` and `!=`, `<` and `>=`,
/// `>` and `<=` are complements of each other. Other operators have none.
pub open spec fn inverse_binop_of(op: BinOp_) -> Option<BinOp_> {
    match op {
        BinOp_::Eq => Some(BinOp_::Neq),
        BinOp_::Neq => Some(BinOp_::Eq),
        BinOp_::Lt => Some(BinOp_::Ge),
        BinOp_::Gt => Some(BinOp_::Le),
        BinOp_::Le => Some(BinOp_::Gt),
        BinOp_::Ge => Some(BinOp_::Lt),
        _ => None,
    }
}

/// The complement of a relational operator, if it has one.
pub fn inverse_binop(op: BinOp_) -> (r: Option<BinOp_>)
    ensures
        r == inverse_binop_of(op),
{
    match op {
        BinOp_::Eq => Some(BinOp_::Neq),
        BinOp_::Neq => Some(BinOp_::Eq),
        BinOp_::Lt => Some(BinOp_::Ge),
        BinOp_::Gt => Some(BinOp_::Le),
        BinOp_::Le => Some(BinOp_::Gt),
        BinOp_::Ge => Some(BinOp_::Lt),
        _ => None,
    }
}

/// `!e`, at the place of `e`.
pub open spec fn negated(e: Spanned<ExpModel>) -> Spanned<ExpModel> {
    Spanned {
        loc: e.loc,
        value: ExpModel::UnaryExp(Spanned { loc: e.loc, value: UnaryOp_::Not }, Box::new(e)),
    }
}

/// The complement of an expression, where one is defined.
///
/// - A comparison becomes the comparison with the complementary operator,
///   with the same operands and places.
/// - `!e` becomes `e`.
/// - A name without type arguments, a call, a dereference, a field access
///   and an indexing `e` become `!e`.
/// - Every other expression has no complement.
pub open spec fn inverse(e: Spanned<ExpModel>) -> Option<Spanned<ExpModel>> {
    match e.value {
        ExpModel::Name(_, tys) => if tys is None {
            Some(negated(e))
        } else {
            None
        },
        ExpModel::Call(_, _, _, _) => Some(negated(e)),
        ExpModel::Dereference(_) => Some(negated(e)),
        ExpModel::UnaryExp(_, x) => Some(*x),
        ExpModel::BinopExp(l, op, r) => match inverse_binop_of(op.value) {
            Some(x) => Some(
                Spanned {
                    loc: e.loc,
                    value: ExpModel::BinopExp(l, Spanned { loc: op.loc, value: x }, r),
                },
            ),
            None => None,
        },
        ExpModel::Dot(_, _) => Some(negated(e)),
        ExpModel::Index(_, _) => Some(negated(e)),
        _ => None,
    }
}

impl FunSpecGenerator {
    /// The complement of an expression, or an error where none is defined.
    pub fn inverse_expression(e: &Exp) -> (r: Result<Exp, ()>)
        ensures
            match r {
                Ok(x) => inverse(e@) == Some(x@),
                Err(_) => inverse(e@) is None,
            },
    {
        proof {
            exp_view_unfolds(e.value);
        }
        match &e.value {
            Exp_::Name(_, x) => {
                if x.is_none() {
                    Ok(Self::not_of(e))
                } else {
                    Err(())
                }
            },
            Exp_::Call(_, _, _, _) => Ok(Self::not_of(e)),
            Exp_::Dereference(_) => Ok(Self::not_of(e)),
            Exp_::UnaryExp(_, x) => Ok(clone_exp(x)),
            Exp_::BinopExp(l, op, r) => {
                match inverse_binop(op.value) {
                    Some(x) => {
                        let value = Exp_::BinopExp(
                            Box::new(clone_exp(l)),
                            Spanned { loc: op.loc, value: x },
                            Box::new(clone_exp(r)),
                        );
                        proof {
                            exp_view_unfolds(value);
                        }
                        Ok(Spanned { loc: e.loc, value })
                    },
                    None => Err(()),
                }
            },
            Exp_::Dot(_, _) => Ok(Self::not_of(e)),
            Exp_::Index(_, _) => Ok(Self::not_of(e)),
            _ => Err(()),
        }
    }

    /// `!e`, at the place of `e`.
    pub fn not_of(e: &Exp) -> (r: Exp)
        ensures
            r@ == negated(e@),
    {
        let value = Exp_::UnaryExp(
            Spanned { loc: e.loc, value: UnaryOp_::Not },
            Box::new(clone_exp(e)),
        );
        proof {
            exp_view_unfolds(value);
        }
        Spanned { loc: e.loc, value }
    }
}

/// `a == b` and `a != b` are complements of each other, and so are `a < b`
/// and `a >= b`, and `a > b` and `a <= b`: the complement of a comparison is
/// the comparison of the same operands with the complementary operator.
pub proof fn comparison_inverts_to_its_complement(
    e: Spanned<ExpModel>,
    l: Spanned<ExpModel>,
    op: BinOp,
    r: Spanned<ExpModel>,
)
    requires
        e.value == ExpModel::BinopExp(Box::new(l), op, Box::new(r)),
    ensures
        op.value == BinOp_::Eq ==> inverse(e) == Some(
            Spanned {
                loc: e.loc,
                value: ExpModel::BinopExp(
                    Box::new(l),
                    Spanned { loc: op.loc, value: BinOp_::Neq },
                    Box::new(r),
                ),
            },
        ),
        op.value == BinOp_::Neq ==> inverse(e) == Some(
            Spanned {
                loc: e.loc,
                value: ExpModel::BinopExp(
                    Box::new(l),
                    Spanned { loc: op.loc, value: BinOp_::Eq },
                    Box::new(r),
                ),
            },
        ),
        op.value == BinOp_::Lt ==> inverse(e) == Some(
            Spanned {
                loc: e.loc,
                value: ExpModel::BinopExp(
                    Box::new(l),
                    Spanned { loc: op.loc, value: BinOp_::Ge },
                    Box::new(r),
                ),
            },
        ),
        op.value == BinOp_::Ge ==> inverse(e) == Some(
            Spanned {
                loc: e.loc,
                value: ExpModel::BinopExp(
                    Box::new(l),
                    Spanned { loc: op.loc, value: BinOp_::Lt },
                    Box::new(r),
                ),
            },
        ),
        op.value == BinOp_::Gt ==> inverse(e) == Some(
            Spanned {
                loc: e.loc,
                value: ExpModel::BinopExp(
                    Box::new(l),
                    Spanned { loc: op.loc, value: BinOp_::Le },
                    Box::new(r),
                ),
            },
        ),
        op.value == BinOp_::Le ==> inverse(e) == Some(
            Spanned {
                loc: e.loc,
                value: ExpModel::BinopExp(
                    Box::new(l),
                    Spanned { loc: op.loc, value: BinOp_::Gt },
                    Box::new(r),
                ),
            },
        ),
{
}

/// Inverting a comparison twice gives the comparison back.
pub proof fn comparison_inverts_twice_to_itself(e: Spanned<ExpModel>)
    requires
        e.value is BinopExp,
        inverse(e) is Some,
    ensures
        inverse(inverse(e).unwrap()) == Some(e),
{
}

/// The complement of `!e` is `e`.
pub proof fn negation_inverts_to_its_operand(e: Spanned<ExpModel>, op: UnaryOp, x: Spanned<ExpModel>)
    requires
        e.value == ExpModel::UnaryExp(op, Box::new(x)),
    ensures
        inverse(e) == Some(x),
{
}

/// Struct literals, vectors, literals, moves and copies, control flow,
/// blocks, lambdas, quantifiers, assignments, borrows, casts, annotations,
/// specification blocks and malformed nodes have no complement.
pub proof fn no_complement(e: Spanned<ExpModel>)
    requires
        e.value is Pack || e.value is Vector || e.value is Value || e.value is Move
            || e.value is Copy || e.value is IfElse || e.value is While || e.value is Loop
            || e.value is Block || e.value is Lambda || e.value is Quant || e.value is ExpList
            || e.value is Unit || e.value is Assign || e.value is Return || e.value is Abort
            || e.value is Break || e.value is Continue || e.value is Borrow || e.value is Cast
            || e.value is Annotate || e.value is Spec || e.value is UnresolvedError,
    ensures
        inverse(e) is None,
{
}

/// The condition under which a statement aborts, if the statement is a call
/// of a recognized assertion macro, written as a macro call, without type
/// arguments and with exactly one argument whose complement is defined: that
/// complement.
pub open spec fn abort_condition(e: Spanned<ExpModel>) -> Option<Spanned<ExpModel>> {
    match e.value {
        ExpModel::Call(call, is_macro, type_args, es) => if macro_of_chain(call.value) is Some
            && is_macro && type_args is None && es.value.len() == 1 {
            inverse(es.value[0])
        } else {
            None
        },
        _ => None,
    }
}

/// The abort conditions of the first `n` statements of a block, in order.
/// Only statements that are expressions can have one.
pub open spec fn item_conditions(items: Seq<Spanned<SequenceItemModel>>, n: int) -> Seq<
    Spanned<ExpModel>,
>
    decreases n,
{
    if n <= 0 || n > items.len() {
        Seq::empty()
    } else {
        let before = item_conditions(items, n - 1);
        match items[n - 1].value {
            SequenceItemModel::Expr(e) => match abort_condition(*e) {
                Some(c) => before.push(c),
                None => before,
            },
            _ => before,
        }
    }
}

/// The abort conditions of a block: those of its statements, in order, and
/// then that of its final expression.
pub open spec fn block_conditions(b: SequenceModel) -> Seq<Spanned<ExpModel>> {
    let before = item_conditions(b.items, b.items.len() as int);
    match b.tail {
        Some(e) => match abort_condition(*e) {
            Some(c) => before.push(c),
            None => before,
        },
        None => before,
    }
}

/// The abort conditions of a function: those of its body. A native function
/// has none.
pub open spec fn function_conditions(f: FunctionModel) -> Seq<Spanned<ExpModel>> {
    match f.body.value {
        FunctionBodyModel::Defined(b) => block_conditions(b),
        FunctionBodyModel::Native => Seq::empty(),
    }
}

impl FunSpecGenerator {
    /// The condition under which a statement aborts, if it is an assertion whose
    /// complement is defined.
    pub fn get_abort_condition(e: &Exp) -> (r: Option<Exp>)
        ensures
            crate::syntax::opt_view(r) == abort_condition(e@),
    {
        proof {
            exp_view_unfolds(e.value);
        }
        match &e.value {
            Exp_::Call(call, is_macro, should_be_none, es) => {
                if MacroCall::is_macro_chain(call) && *is_macro && should_be_none.is_none()
                    && es.value.len() == 1 {
                    match Self::inverse_expression(&es.value[0]) {
                        Ok(x) => Some(x),
                        Err(_) => None,
                    }
                } else {
                    None
                }
            },
            _ => None,
        }
    }

    /// The abort conditions of a function, in source order.
    pub fn abort_conditions(f: &Function) -> (r: Vec<Exp>)
        ensures
            views(r@) == function_conditions(f@),
    {
        let mut result: Vec<Exp> = Vec::new();
        assert(views(result@) =~= Seq::empty());
        let body = match &f.body.value {
            FunctionBody_::Defined(x) => x,
            FunctionBody_::Native => {
                return result;
            },
        };
        proof {
            sequence_view_unfolds(*body);
        }
        let mut i: usize = 0;
        while i < body.items.len()
            invariant
                i <= body.items.len(),
                views(result@) == item_conditions(views(body.items@), i as int),
            decreases body.items.len() - i,
        {
            proof {
                item_view_unfolds(body.items[i as int].value);
            }
            let ghost before = views(result@);
            match &body.items[i].value {
                SequenceItem_::Expr(e) => {
                    match Self::get_abort_condition(e) {
                        Some(c) => {
                            result.push(c);
                            assert(views(result@) =~= before.push(
                                abort_condition((**e)@).unwrap(),
                            ));
                        },
                        None => {},
                    }
                },
                _ => {},
            }
            i += 1;
        }
        let ghost before = views(result@);
        match &body.tail {
            Some(e) => {
                match Self::get_abort_condition(e) {
                    Some(c) => {
                        result.push(c);
                        assert(views(result@) =~= before.push(abort_condition((**e)@).unwrap()));
                    },
                    None => {},
                }
            },
            None => {},
        }
        result
    }
}

} // verus!
