//! The type of an expression, as far as it can be told by looking names up:
//! what is not known comes out as the unknown type.
use crate::algebra::{
    build_in, element_of, field_of, infer, infer_type_on_expression, is_err, ref_at, substitute,
    unit_at, unknown_at, Substitution,
};
use crate::item::{macro_of_chain, MacroCall};
use crate::modules::Modules;
use crate::resolve::{each_resolved, resolve};
use crate::scopes::{chain_type, var_type, Scopes, ScopesModel};
use crate::syntax::{
    exp_view_unfolds, views, Ability, BinOp_, Exp, ExpModel, Exp_, Loc, Name, NameModel,
    NumericalAddress, Spanned, StructTypeParameter, StructTypeParameterModel, ValueModel, Value_,
};
use crate::types::{
    resolved_view_unfolds, BuildInType, Resolved, ResolvedType, ResolvedTypeModel, ResolvedType_,
};
use vstd::prelude::*;

verus! {

/// The bindings after giving each of the first `n` names the type at the
/// same place, from left to right.
pub open spec fn bind_arguments(
    m: Map<Seq<char>, Resolved>,
    names: Seq<Seq<char>>,
    args: Seq<Resolved>,
    n: int,
) -> Map<Seq<char>, Resolved>
    decreases n,
{
    if n <= 0 || n > names.len() || n > args.len() {
        m
    } else {
        bind_arguments(m, names, args, n - 1).insert(names[n - 1], args[n - 1])
    }
}

/// The bindings that explicit type arguments give to type parameters: place
/// by place, as far as both lists reach.
pub open spec fn explicit_bindings(names: Seq<Seq<char>>, args: Seq<Resolved>) -> Map<
    Seq<char>,
    Resolved,
> {
    bind_arguments(
        Map::empty(),
        names,
        args,
        if names.len() <= args.len() {
            names.len() as int
        } else {
            args.len() as int
        },
    )
}

/// The names of the type parameters of a function type.
pub open spec fn parameter_names(ps: Seq<(NameModel, Seq<Ability>)>) -> Seq<Seq<char>> {
    Seq::new(ps.len(), |i: int| ps[i].0.value)
}

/// The names of the type parameters of a struct type.
pub open spec fn struct_parameter_names(ps: Seq<StructTypeParameterModel>) -> Seq<Seq<char>> {
    Seq::new(ps.len(), |i: int| ps[i].name.value)
}

/// The type of a call of something of type `f`. For a function type the
/// type parameters are bound by the explicit type arguments if there are
/// any, and else inferred from the types of the arguments, and the result is
/// the return type after substitution. Everything else, and a function type
/// that refuses the substitution, gives the unknown type.
pub open spec fn call_type(f: Resolved, explicit: Option<Seq<Resolved>>, args: Seq<Resolved>) -> Resolved {
    match f.value {
        ResolvedTypeModel::Fun(tps, ps, _) => {
            let types = match explicit {
                Some(ts) => explicit_bindings(parameter_names(tps), ts),
                None => if tps.len() > 0 {
                    infer(Map::empty(), ps, args)
                } else {
                    Map::empty()
                },
            };
            match substitute(f, types) {
                Some(t) => match t.value {
                    ResolvedTypeModel::Fun(_, _, ret) => *ret,
                    _ => unknown_at(Loc::unknown()),
                },
                None => unknown_at(Loc::unknown()),
            }
        },
        _ => unknown_at(Loc::unknown()),
    }
}

/// The type of a struct literal whose name denotes `st`. For a struct type
/// the type parameters are bound by the explicit type arguments, and the
/// result is the struct type after substitution. Everything else, and a
/// struct type that refuses the substitution, gives the unknown type.
pub open spec fn pack_type(st: Resolved, explicit: Option<Seq<Resolved>>) -> Resolved {
    match st.value {
        ResolvedTypeModel::Struct(_, tps, _) => {
            let types = match explicit {
                Some(ts) => explicit_bindings(struct_parameter_names(tps), ts),
                None => Map::empty(),
            };
            match substitute(st, types) {
                Some(t) => t,
                None => unknown_at(Loc::unknown()),
            }
        },
        _ => unknown_at(Loc::unknown()),
    }
}

/// The type of a literal.
pub open spec fn value_type(v: ValueModel) -> Resolved {
    match v {
        ValueModel::Address(_) => build_in(BuildInType::Address),
        ValueModel::Num(_) => build_in(BuildInType::NumType),
        ValueModel::Bool(_) => build_in(BuildInType::Bool),
        ValueModel::HexString(_) => build_in(BuildInType::String),
        ValueModel::ByteString(_) => build_in(BuildInType::String),
    }
}

/// How the type of a binary operation comes from its operator.
pub enum BinOpKind {
    /// Arithmetic and bitwise: the type of the left operand, or that of the
    /// right one where the left one is erroneous.
    Operand,
    /// Comparison: `bool`.
    Comparison,
    /// No rule: the unknown type.
    Unsupported,
}

/// How the type of a binary operation comes from its operator.
pub open spec fn bin_op_kind(op: BinOp_) -> BinOpKind {
    match op {
        BinOp_::Add | BinOp_::Sub | BinOp_::Mul | BinOp_::Mod | BinOp_::Div | BinOp_::BitOr
        | BinOp_::BitAnd | BinOp_::Xor | BinOp_::Shl | BinOp_::Shr => BinOpKind::Operand,
        BinOp_::Eq | BinOp_::Neq | BinOp_::Lt | BinOp_::Gt | BinOp_::Le | BinOp_::Ge => {
            BinOpKind::Comparison
        },
        BinOp_::Range | BinOp_::Implies | BinOp_::Iff | BinOp_::And | BinOp_::Or => {
            BinOpKind::Unsupported
        },
    }
}

/// The type of an expression.
///
/// - A literal has its primitive type; `move x` and `copy x` have the type
///   of the parameter `x`; a bare name is unknown.
/// - A call of a recognized macro is unit, at the place of the name; of
///   another macro, unknown. Any other call is typed by [`call_type`] from
///   the type that the callee's name denotes.
/// - A struct literal is typed by [`pack_type`].
/// - A vector literal has the type of its first type argument where that is
///   not erroneous; else the type of its first element whose type is not
///   unknown; else the erroneous annotation, or unknown at the place of
///   `vector`.
/// - A conditional has the type of its first branch, or that of its second
///   branch where the first is erroneous and there is a second.
/// - Loops, the unit value, assignment, `return`, `abort`, `break` and
///   `continue` are unit.
/// - Dereference takes one reference off; a unary operator keeps the type of
///   its operand; borrow adds a reference.
/// - Field access has the type of the field where the operand is a struct
///   that has it, and else the type of the operand. Indexing has the element
///   type where the operand is a vector, and else the type of the operand.
/// - Cast and annotation have the type that is written.
/// - A block, a lambda, a quantifier, an expression list, a specification
///   block and the operators `..`, `==>`, `<==>`, `&&`, `||` have no rule:
///   they are unknown, at the place of the expression.
pub open spec fn expr_type(
    named: Map<Seq<char>, NumericalAddress>,
    s: ScopesModel,
    e: Spanned<ExpModel>,
) -> Resolved
    decreases e, 0int,
{
    match e.value {
        ExpModel::Value(v) => value_type(v.value),
        ExpModel::Move(x) => var_type(s, x.value),
        ExpModel::Copy(x) => var_type(s, x.value),
        ExpModel::Name(_, _) => unknown_at(Loc::unknown()),
        ExpModel::Call(name, is_macro, type_args, exprs) => if is_macro {
            match macro_of_chain(name.value) {
                Some(MacroCall::Assert) => unit_at(name.loc),
                None => unknown_at(Loc::unknown()),
            }
        } else {
            call_type(
                chain_type(s, named, name),
                match type_args {
                    Some(ts) => Some(each_resolved(s, ts)),
                    None => None,
                },
                expr_types(named, s, exprs.value),
            )
        },
        ExpModel::Pack(name, type_args, _) => pack_type(
            chain_type(s, named, name),
            match type_args {
                Some(ts) => Some(each_resolved(s, ts)),
                None => None,
            },
        ),
        ExpModel::Vector(loc, ty, exprs) => {
            let annotation = match ty {
                Some(ts) => if ts.len() > 0 {
                    Some(resolve(s, ts[0]))
                } else {
                    None
                },
                None => None,
            };
            if annotation matches Some(t) && !is_err(t) {
                annotation.unwrap()
            } else {
                match first_known(named, s, exprs.value, 0) {
                    Some(t) => t,
                    None => match annotation {
                        Some(t) => t,
                        None => unknown_at(loc),
                    },
                }
            }
        },
        ExpModel::IfElse(_, then, else_) => {
            let ty = expr_type(named, s, *then);
            if is_err(ty) {
                match else_ {
                    Some(x) => expr_type(named, s, *x),
                    None => ty,
                }
            } else {
                ty
            }
        },
        ExpModel::While(_, _) => unit_at(e.loc),
        ExpModel::Loop(_) => unit_at(e.loc),
        ExpModel::Block(_) => unknown_at(e.loc),
        ExpModel::Lambda(_) => unknown_at(e.loc),
        ExpModel::Quant(_) => unknown_at(e.loc),
        ExpModel::ExpList(_) => unknown_at(e.loc),
        ExpModel::Unit => unit_at(e.loc),
        ExpModel::Assign(_, _) => unit_at(e.loc),
        ExpModel::Return(_) => unit_at(e.loc),
        ExpModel::Abort(_) => unit_at(e.loc),
        ExpModel::Break => unit_at(e.loc),
        ExpModel::Continue => unit_at(e.loc),
        ExpModel::Dereference(x) => {
            let ty = expr_type(named, s, *x);
            match ty.value {
                ResolvedTypeModel::Ref(_, t) => *t,
                _ => ty,
            }
        },
        ExpModel::UnaryExp(_, x) => expr_type(named, s, *x),
        ExpModel::BinopExp(left, op, right) => {
            let left_ty = expr_type(named, s, *left);
            let right_ty = expr_type(named, s, *right);
            match bin_op_kind(op.value) {
                BinOpKind::Operand => if !is_err(left_ty) {
                    left_ty
                } else {
                    right_ty
                },
                BinOpKind::Comparison => build_in(BuildInType::Bool),
                BinOpKind::Unsupported => unknown_at(e.loc),
            }
        },
        ExpModel::Borrow(is_mut, x) => ref_at(e.loc, is_mut, expr_type(named, s, *x)),
        ExpModel::Dot(x, name) => {
            let ty = expr_type(named, s, *x);
            match field_of(ty, name.value) {
                Some(field) => field.1,
                None => ty,
            }
        },
        ExpModel::Index(x, _) => {
            let ty = expr_type(named, s, *x);
            match element_of(ty) {
                Some(v) => v,
                None => ty,
            }
        },
        ExpModel::Cast(_, ty) => resolve(s, ty),
        ExpModel::Annotate(_, ty) => resolve(s, ty),
        ExpModel::Spec(_) => unknown_at(e.loc),
        ExpModel::UnresolvedError => unknown_at(e.loc),
    }
}

pub open spec fn expr_types(
    named: Map<Seq<char>, NumericalAddress>,
    s: ScopesModel,
    es: Seq<Spanned<ExpModel>>,
) -> Seq<Resolved>
    decreases es, 0int,
{
    if es.len() == 0 {
        Seq::empty()
    } else {
        expr_types(named, s, es.drop_last()).push(expr_type(named, s, es.last()))
    }
}

/// The type of the first expression, from position `from` on, whose type is
/// not unknown.
pub open spec fn first_known(
    named: Map<Seq<char>, NumericalAddress>,
    s: ScopesModel,
    es: Seq<Spanned<ExpModel>>,
    from: int,
) -> Option<Resolved>
    decreases es, es.len() - from,
{
    if from < 0 || from >= es.len() {
        None
    } else if !(expr_type(named, s, es[from]).value is UnKnown) {
        Some(expr_type(named, s, es[from]))
    } else {
        first_known(named, s, es, from + 1)
    }
}

/// The types of the expressions of a list.
pub open spec fn each_expr_type(
    named: Map<Seq<char>, NumericalAddress>,
    s: ScopesModel,
    es: Seq<Spanned<ExpModel>>,
) -> Seq<Resolved> {
    Seq::new(es.len(), |i: int| expr_type(named, s, es[i]))
}

/// The types of a list of expressions are the types of each.
pub proof fn expr_types_is_pointwise(
    named: Map<Seq<char>, NumericalAddress>,
    s: ScopesModel,
    es: Seq<Spanned<ExpModel>>,
)
    ensures
        expr_types(named, s, es) == each_expr_type(named, s, es),
    decreases es.len(),
{
    if es.len() > 0 {
        expr_types_is_pointwise(named, s, es.drop_last());
        assert(each_expr_type(named, s, es.drop_last()).push(expr_type(named, s, es.last()))
            =~= each_expr_type(named, s, es));
    } else {
        assert(each_expr_type(named, s, es) =~= Seq::empty());
    }
}

/// The bindings that explicit type arguments give to the type parameters of
/// a function type.
fn bind_function_arguments(type_parameters: &Vec<(Name, Vec<Ability>)>, args: &Vec<ResolvedType>) -> (types:
    Substitution)
    ensures
        types.wf(),
        types.views() == explicit_bindings(parameter_names(views(type_parameters@)), views(args@)),
{
    let mut types: Substitution = Substitution::new();
    let n: usize = if type_parameters.len() <= args.len() {
        type_parameters.len()
    } else {
        args.len()
    };
    assert(types.views() =~= Map::<Seq<char>, Resolved>::empty());
    let mut i: usize = 0;
    while i < n
        invariant
            i <= n,
            n <= type_parameters.len(),
            n <= args.len(),
            types.wf(),
            types.views() == bind_arguments(
                Map::empty(),
                parameter_names(views(type_parameters@)),
                views(args@),
                i as int,
            ),
        decreases n - i,
    {
        let ghost before = types.views();
        types.insert(type_parameters[i].0.value.clone(), args[i].clone());
        assert(types.views() =~= before.insert(type_parameters[i as int].0.value@, args[i as int]@));
        i += 1;
    }
    types
}

/// The bindings that explicit type arguments give to the type parameters of
/// a struct type.
fn bind_struct_arguments(type_parameters: &Vec<StructTypeParameter>, args: &Vec<ResolvedType>) -> (types:
    Substitution)
    ensures
        types.wf(),
        types.views() == explicit_bindings(
            struct_parameter_names(views(type_parameters@)),
            views(args@),
        ),
{
    let mut types: Substitution = Substitution::new();
    let n: usize = if type_parameters.len() <= args.len() {
        type_parameters.len()
    } else {
        args.len()
    };
    assert(types.views() =~= Map::<Seq<char>, Resolved>::empty());
    let mut i: usize = 0;
    while i < n
        invariant
            i <= n,
            n <= type_parameters.len(),
            n <= args.len(),
            types.wf(),
            types.views() == bind_arguments(
                Map::empty(),
                struct_parameter_names(views(type_parameters@)),
                views(args@),
                i as int,
            ),
        decreases n - i,
    {
        let ghost before = types.views();
        types.insert(type_parameters[i].name.value.clone(), args[i].clone());
        assert(types.views() =~= before.insert(type_parameters[i as int].name.value@, args[i as int]@));
        i += 1;
    }
    types
}

/// The type of a call of something of type `fun_type`, given the explicit
/// type arguments, if any, and the types of the arguments.
pub fn get_call_type(
    fun_type: &ResolvedType,
    type_args: Option<&Vec<ResolvedType>>,
    exprs_types: &Vec<ResolvedType>,
) -> (r: ResolvedType)
    ensures
        r@ == call_type(
            fun_type@,
            match type_args {
                Some(ts) => Some(views(ts@)),
                None => None,
            },
            views(exprs_types@),
        ),
{
    proof {
        resolved_view_unfolds(fun_type.0.value);
    }
    match &fun_type.0.value {
        ResolvedType_::Fun(type_parameters, parameters, _) => {
            let types = match type_args {
                Some(ts) => bind_function_arguments(type_parameters, ts),
                None => {
                    let mut types: Substitution = Substitution::new();
                    assert(types.views() =~= Map::<Seq<char>, Resolved>::empty());
                    if type_parameters.len() > 0 {
                        infer_type_on_expression(
                            &mut types,
                            type_parameters,
                            parameters,
                            exprs_types,
                        );
                    }
                    types
                },
            };
            match fun_type.substituted(&types) {
                Some(t) => {
                    proof {
                        resolved_view_unfolds(t.0.value);
                    }
                    match t.0.value {
                    ResolvedType_::Fun(_, _, ret) => *ret,
                    _ => ResolvedType::new_unknown(Loc::unknown()),
                    }
                },
                None => ResolvedType::new_unknown(Loc::unknown()),
            }
        },
        _ => ResolvedType::new_unknown(Loc::unknown()),
    }
}

/// The type of a struct literal whose name denotes `struct_ty`, given the
/// explicit type arguments, if any.
pub fn get_pack_type(struct_ty: &ResolvedType, type_args: Option<&Vec<ResolvedType>>) -> (r:
    ResolvedType)
    ensures
        r@ == pack_type(
            struct_ty@,
            match type_args {
                Some(ts) => Some(views(ts@)),
                None => None,
            },
        ),
{
    proof {
        resolved_view_unfolds(struct_ty.0.value);
    }
    match &struct_ty.0.value {
        ResolvedType_::Struct(_, type_parameters, _) => {
            let types = match type_args {
                Some(ts) => bind_struct_arguments(type_parameters, ts),
                None => {
                    let types: Substitution = Substitution::new();
                    assert(types.views() =~= Map::<Seq<char>, Resolved>::empty());
                    types
                },
            };
            match struct_ty.substituted(&types) {
                Some(t) => t,
                None => ResolvedType::new_unknown(Loc::unknown()),
            }
        },
        _ => ResolvedType::new_unknown(Loc::unknown()),
    }
}

impl Modules {
    /// The type of an expression, as far as it can be told.
    pub fn get_expr_type(&self, expr: &Exp, scopes: &Scopes) -> (r: ResolvedType)
        requires
            self.wf(),
            scopes.wf(),
        ensures
            r@ == expr_type(self.named(), scopes@, expr@),
        decreases expr,
    {
        proof {
            exp_view_unfolds(expr.value);
        }
        match &expr.value {
            Exp_::Value(x) => match &x.value {
                Value_::Address(_) => ResolvedType::new_build_in(BuildInType::Address),
                Value_::Num(_) => ResolvedType::new_build_in(BuildInType::NumType),
                Value_::Bool(_) => ResolvedType::new_build_in(BuildInType::Bool),
                Value_::HexString(_) => ResolvedType::new_build_in(BuildInType::String),
                Value_::ByteString(_) => ResolvedType::new_build_in(BuildInType::String),
            },
            Exp_::Move(x) => scopes.find_var_type(&x.value),
            Exp_::Copy(x) => scopes.find_var_type(&x.value),
            Exp_::Name(_, _) => ResolvedType::new_unknown(Loc::unknown()),
            Exp_::Call(name, is_macro, type_args, exprs) => {
                if *is_macro {
                    if MacroCall::is_macro_chain(name) {
                        match MacroCall::from_chain(name) {
                            MacroCall::Assert => ResolvedType::new_unit(name.loc),
                        }
                    } else {
                        ResolvedType::new_unknown(Loc::unknown())
                    }
                } else {
                    let fun_type = scopes.find_name_access_chain_type(
                        name,
                        &self.named_to_addresses,
                    );
                    let exprs_types = self.get_expr_types(&exprs.value, scopes);
                    proof {
                        expr_types_is_pointwise(self.named(), scopes@, views(exprs.value@));
                    }
                    match type_args {
                        Some(ts) => {
                            let resolved = scopes.resolve_types(ts);
                            get_call_type(&fun_type, Some(&resolved), &exprs_types)
                        },
                        None => get_call_type(&fun_type, None, &exprs_types),
                    }
                }
            },
            Exp_::Pack(name, type_args, _) => {
                let struct_ty = scopes.find_name_access_chain_type(name, &self.named_to_addresses);
                match type_args {
                    Some(ts) => {
                        let resolved = scopes.resolve_types(ts);
                        get_pack_type(&struct_ty, Some(&resolved))
                    },
                    None => get_pack_type(&struct_ty, None),
                }
            },
            Exp_::Vector(loc, ty, exprs) => {
                let annotation = match ty {
                    Some(ts) => if ts.len() > 0 {
                        Some(scopes.resolve_type(&ts[0]))
                    } else {
                        None
                    },
                    None => None,
                };
                if crate::algebra::option_ty_is_valid(&annotation) {
                    return annotation.unwrap();
                }
                let elements = &exprs.value;
                let mut i: usize = 0;
                while i < elements.len()
                    invariant
                        i <= elements.len(),
                        self.wf(),
                        scopes.wf(),
                        expr.value is Vector,
                        expr.value->Vector_2.value == *elements,
                        expr_type(self.named(), scopes@, expr@) == (match first_known(
                            self.named(),
                            scopes@,
                            views(elements@),
                            0,
                        ) {
                            Some(t) => t,
                            None => match crate::syntax::opt_view(annotation) {
                                Some(t) => t,
                                None => unknown_at(*loc),
                            },
                        }),
                        first_known(self.named(), scopes@, views(elements@), 0) == first_known(
                            self.named(),
                            scopes@,
                            views(elements@),
                            i as int,
                        ),
                    decreases elements.len() - i,
                {
                    let ty2 = self.get_expr_type(&elements[i], scopes);
                    if !ty2.is_unknown() {
                        return ty2;
                    }
                    i += 1;
                }
                match annotation {
                    Some(t) => t,
                    None => ResolvedType::new_unknown(*loc),
                }
            },
            Exp_::IfElse(_, then, else_) => {
                let ty = self.get_expr_type(then, scopes);
                if ty.is_err() {
                    match else_ {
                        Some(x) => self.get_expr_type(x, scopes),
                        None => ty,
                    }
                } else {
                    ty
                }
            },
            Exp_::While(_, _) => ResolvedType::new_unit(expr.loc),
            Exp_::Loop(_) => ResolvedType::new_unit(expr.loc),
            Exp_::Block(_) => ResolvedType::new_unknown(expr.loc),
            Exp_::Lambda(_) => ResolvedType::new_unknown(expr.loc),
            Exp_::Quant(_) => ResolvedType::new_unknown(expr.loc),
            Exp_::ExpList(_) => ResolvedType::new_unknown(expr.loc),
            Exp_::Unit => ResolvedType::new_unit(expr.loc),
            Exp_::Assign(_, _) => ResolvedType::new_unit(expr.loc),
            Exp_::Return(_) => ResolvedType::new_unit(expr.loc),
            Exp_::Abort(_) => ResolvedType::new_unit(expr.loc),
            Exp_::Break => ResolvedType::new_unit(expr.loc),
            Exp_::Continue => ResolvedType::new_unit(expr.loc),
            Exp_::Dereference(e) => {
                let ty = self.get_expr_type(e, scopes);
                proof {
                    resolved_view_unfolds(ty.0.value);
                }
                match ty.0.value {
                    ResolvedType_::Ref(_, t) => *t,
                    value => ResolvedType(Spanned { loc: ty.0.loc, value }),
                }
            },
            Exp_::UnaryExp(_, e) => self.get_expr_type(e, scopes),
            Exp_::BinopExp(left, op, right) => {
                let left_ty = self.get_expr_type(left, scopes);
                let right_ty = self.get_expr_type(right, scopes);
                match op.value {
                    BinOp_::Add | BinOp_::Sub | BinOp_::Mul | BinOp_::Mod | BinOp_::Div
                    | BinOp_::BitOr | BinOp_::BitAnd | BinOp_::Xor | BinOp_::Shl | BinOp_::Shr => {
                        if !left_ty.is_err() {
                            left_ty
                        } else {
                            right_ty
                        }
                    },
                    BinOp_::Range | BinOp_::Implies | BinOp_::Iff | BinOp_::And | BinOp_::Or => {
                        ResolvedType::new_unknown(expr.loc)
                    },
                    BinOp_::Eq | BinOp_::Neq | BinOp_::Lt | BinOp_::Gt | BinOp_::Le | BinOp_::Ge => {
                        ResolvedType::new_build_in(BuildInType::Bool)
                    },
                }
            },
            Exp_::Borrow(is_mut, e) => {
                let ty = self.get_expr_type(e, scopes);
                ResolvedType::new_ref(expr.loc, *is_mut, ty)
            },
            Exp_::Dot(e, name) => {
                let ty = self.get_expr_type(e, scopes);
                match ty.find_filed_by_name(&name.value) {
                    Some(field) => field.1.clone(),
                    None => ty,
                }
            },
            Exp_::Index(e, _) => {
                let ty = self.get_expr_type(e, scopes);
                match ty.is_vector() {
                    Some(v) => v.clone(),
                    None => ty,
                }
            },
            Exp_::Cast(_, ty) => scopes.resolve_type(ty),
            Exp_::Annotate(_, ty) => scopes.resolve_type(ty),
            Exp_::Spec(_) => ResolvedType::new_unknown(expr.loc),
            Exp_::UnresolvedError => ResolvedType::new_unknown(expr.loc),
        }
    }

    /// The types of the expressions of a list.
    pub fn get_expr_types(&self, exprs: &Vec<Exp>, scopes: &Scopes) -> (r: Vec<ResolvedType>)
        requires
            self.wf(),
            scopes.wf(),
        ensures
            views(r@) == each_expr_type(self.named(), scopes@, views(exprs@)),
        decreases exprs,
    {
        let mut out: Vec<ResolvedType> = Vec::new();
        let mut i: usize = 0;
        while i < exprs.len()
            invariant
                i <= exprs.len(),
                out.len() == i,
                self.wf(),
                scopes.wf(),
                forall|j: int|
                    0 <= j < i ==> out[j]@ == expr_type(self.named(), scopes@, exprs[j]@),
            decreases exprs.len() - i,
        {
            out.push(self.get_expr_type(&exprs[i], scopes));
            i += 1;
        }
        assert(views(out@) =~= each_expr_type(self.named(), scopes@, views(exprs@)));
        out
    }
}

} // verus!
