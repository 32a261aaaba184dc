//! The text of specification blocks: `spec f(..) { aborts_if c; }` for a
//! function and `spec S { }` for a struct, to be put beside the
//! declaration.
//!
//! Types and conditions are rendered by a pretty-printer that is not part of
//! this library. A caller renders them — the parameter types, the return
//! type and the conditions that [`FunSpecGenerator::abort_conditions`]
//! gives — and hands the texts in as a [`FunctionText`].
use crate::syntax::{
    bind_list_view, bind_view_unfolds, item_view_unfolds, sequence_view_unfolds, views, Bind,
    BindList, BindModel, Bind_, Function, FunctionBodyModel, FunctionBody_, FunctionModel,
    NameModel, SequenceItemModel, SequenceItem_, Spanned, StructDefinition, StructDefinitionModel,
    Symbol, TypeModel, Type_,
};
use vstd::prelude::*;

verus! {

/// `num` times four spaces.
pub open spec fn indent_text(num: nat) -> Seq<char>
    decreases num,
{
    if num == 0 {
        Seq::empty()
    } else {
        indent_text((num - 1) as nat) + "    "@
    }
}

/// `num` times four spaces.
pub fn indent(num: usize) -> (r: String)
    ensures
        r@ == indent_text(num as nat),
{
    let mut r = String::new();
    let mut i: usize = 0;
    while i < num
        invariant
            i <= num,
            r@ == indent_text(i as nat),
        decreases num - i,
    {
        r.append("    ");
        i += 1;
    }
    r
}

/// The texts of a list of strings.
pub open spec fn texts(v: Seq<String>) -> Seq<Seq<char>> {
    v.map_values(|s: String| s@)
}

/// What the pretty-printer gives for the parts of a function that its
/// specification block shows: the type of each parameter, the return type,
/// and each abort condition.
#[derive(Clone, Debug, PartialEq, Eq)]
pub struct FunctionText {
    pub parameter_types: Vec<String>,
    pub return_type: String,
    pub conditions: Vec<String>,
}

pub struct FunctionTextModel {
    pub parameter_types: Seq<Seq<char>>,
    pub return_type: Seq<char>,
    pub conditions: Seq<Seq<char>>,
}

impl View for FunctionText {
    type V = FunctionTextModel;

    open spec fn view(&self) -> FunctionTextModel {
        FunctionTextModel {
            parameter_types: texts(self.parameter_types@),
            return_type: self.return_type@,
            conditions: texts(self.conditions@),
        }
    }
}

/// The first `n` parameters as `name: type`, separated by `, `.
pub open spec fn parameters_text(
    ps: Seq<(NameModel, Spanned<TypeModel>)>,
    types: Seq<Seq<char>>,
    n: int,
) -> Seq<char>
    decreases n,
{
    if n <= 0 || n > ps.len() || n > types.len() {
        Seq::empty()
    } else {
        parameters_text(ps, types, n - 1) + (if n > 1 {
            ", "@
        } else {
            Seq::empty()
        }) + ps[n - 1].0.value + ": "@ + types[n - 1]
    }
}

/// The first `n` conditions, each as a line `aborts_if c;` at the second
/// level of indentation.
pub open spec fn clauses_text(conditions: Seq<Seq<char>>, n: int) -> Seq<char>
    decreases n,
{
    if n <= 0 || n > conditions.len() {
        Seq::empty()
    } else {
        clauses_text(conditions, n - 1) + indent_text(2) + "aborts_if "@ + conditions[n - 1]
            + ";\n"@
    }
}

/// The specification block of a function: at the first level of
/// indentation `spec`, the name, the parameters in parentheses, the return
/// type after `: ` unless it is unit, an opening brace, an empty line, the
/// clauses, and a closing brace.
pub open spec fn fun_spec_text(f: FunctionModel, t: FunctionTextModel) -> Seq<char> {
    indent_text(1) + "spec "@ + f.name.value + "("@ + parameters_text(
        f.signature.parameters,
        t.parameter_types,
        f.signature.parameters.len() as int,
    ) + ")"@ + (if f.signature.return_type.value is Unit {
        Seq::empty()
    } else {
        ": "@ + t.return_type
    }) + "{\n"@ + "\n"@ + clauses_text(t.conditions, t.conditions.len() as int) + indent_text(1)
        + "}\n"@
}

/// The specification block of a struct: at the first level of indentation
/// `spec`, the name, an opening brace, an empty line, and a closing brace.
pub open spec fn struct_spec_text(s: StructDefinitionModel) -> Seq<char> {
    indent_text(1) + "spec "@ + s.name.value + "{\n"@ + "\n"@ + indent_text(1) + "}\n"@
}

/// Writes the specification blocks of structs.
#[derive(Debug)]
pub struct StructSpecGenerator {
    result: String,
}

impl StructSpecGenerator {
    /// The text written so far.
    pub closed spec fn text(&self) -> Seq<char> {
        self.result@
    }

    /// A generator that has written nothing.
    pub fn new() -> (g: Self)
        ensures
            g.text() == Seq::<char>::empty(),
    {
        StructSpecGenerator { result: String::new() }
    }

    /// The text written so far.
    pub fn to_string(self) -> (r: String)
        ensures
            r@ == self.text(),
    {
        self.result
    }

    /// Writes the specification block of a struct after what was written.
    pub fn generate(&mut self, x: &StructDefinition)
        ensures
            final(self).text() == old(self).text() + struct_spec_text(x@),
    {
        let ghost before = self.result@;
        self.result.append(indent(1).as_str());
        self.result.append("spec ");
        self.result.append(x.name.value.as_str());
        self.result.append("{\n");
        self.result.append("\n");
        self.result.append(indent(1).as_str());
        self.result.append("}\n");
        assert(self.result@ =~= before + struct_spec_text(x@));
    }
}

/// The specification block of a struct.
pub fn genrate_struct_spec(s: &StructDefinition) -> (r: String)
    ensures
        r@ == struct_spec_text(s@),
{
    let mut g = StructSpecGenerator::new();
    g.generate(s);
    let r = g.to_string();
    assert(r@ =~= struct_spec_text(s@));
    r
}

/// Writes the specification blocks of functions.
#[derive(Debug)]
pub struct FunSpecGenerator {
    result: String,
}

impl FunSpecGenerator {
    /// The text written so far.
    pub closed spec fn text(&self) -> Seq<char> {
        self.result@
    }

    /// A generator that has written nothing.
    pub fn new() -> (g: Self)
        ensures
            g.text() == Seq::<char>::empty(),
    {
        FunSpecGenerator { result: String::new() }
    }

    /// The text written so far.
    pub fn to_string(self) -> (r: String)
        ensures
            r@ == self.text(),
    {
        self.result
    }

    /// Writes the specification block of a function after what was written,
    /// if there is one rendered type for each parameter. Otherwise writes
    /// nothing and says so.
    pub fn generate(&mut self, f: &Function, text: &FunctionText) -> (written: bool)
        ensures
            written == (text@.parameter_types.len() == f@.signature.parameters.len()),
            final(self).text() == (if written {
                old(self).text() + fun_spec_text(f@, text@)
            } else {
                old(self).text()
            }),
    {
        let para_len = f.signature.parameters.len();
        if text.parameter_types.len() != para_len {
            return false;
        }
        let ghost before = self.result@;
        self.result.append(indent(1).as_str());
        self.result.append("spec ");
        self.result.append(f.name.value.as_str());
        self.result.append("(");
        let ghost head = self.result@;
        let mut index: usize = 0;
        while index < para_len
            invariant
                index <= para_len,
                para_len == f.signature.parameters.len(),
                para_len == text.parameter_types.len(),
                self.result@ == head + parameters_text(
                    views(f.signature.parameters@),
                    texts(text.parameter_types@),
                    index as int,
                ),
            decreases para_len - index,
        {
            if index > 0 {
                self.result.append(", ");
            }
            self.result.append(f.signature.parameters[index].0.value.as_str());
            self.result.append(": ");
            self.result.append(text.parameter_types[index].as_str());
            assert(self.result@ =~= head + parameters_text(
                views(f.signature.parameters@),
                texts(text.parameter_types@),
                index + 1,
            ));
            index += 1;
        }
        self.result.append(")");
        proof {
            crate::syntax::type_view_unfolds(f.signature.return_type.value);
        }
        match &f.signature.return_type.value {
            Type_::Unit => {},
            _ => {
                self.result.append(": ");
                self.result.append(text.return_type.as_str());
            },
        }
        self.result.append("{\n");
        self.result.append("\n");
        let clauses = Self::generate_assert(&text.conditions);
        self.result.append(clauses.as_str());
        self.result.append(indent(1).as_str());
        self.result.append("}\n");
        assert(self.result@ =~= before + fun_spec_text(f@, text@));
        true
    }

    /// The clauses: one line `aborts_if c;` for each rendered condition.
    pub fn generate_assert(conditions: &Vec<String>) -> (result: String)
        ensures
            result@ == clauses_text(texts(conditions@), conditions.len() as int),
    {
        let mut result = String::new();
        let mut i: usize = 0;
        while i < conditions.len()
            invariant
                i <= conditions.len(),
                result@ == clauses_text(texts(conditions@), i as int),
            decreases conditions.len() - i,
        {
            result.append(indent(2).as_str());
            result.append("aborts_if ");
            result.append(conditions[i].as_str());
            result.append(";\n");
            assert(result@ =~= clauses_text(texts(conditions@), i + 1));
            i += 1;
        }
        result
    }
}

/// The specification block of a function, if there is one rendered type for
/// each parameter, and else nothing.
pub fn generate_fun_spec(f: &Function, text: &FunctionText) -> (r: Option<String>)
    ensures
        r is Some <==> text@.parameter_types.len() == f@.signature.parameters.len(),
        r matches Some(s) ==> s@ == fun_spec_text(f@, text@),
{
    let mut g = FunSpecGenerator::new();
    if g.generate(f, text) {
        let r = g.to_string();
        assert(r@ =~= fun_spec_text(f@, text@));
        Some(r)
    } else {
        None
    }
}

/// The names that a pattern binds, in order; `_` binds nothing.
pub open spec fn bind_names(b: Spanned<BindModel>) -> Seq<Seq<char>>
    decreases b, 0int,
{
    match b.value {
        BindModel::Var(var) => if var.value != "_"@ {
            seq![var.value]
        } else {
            Seq::empty()
        },
        BindModel::Unpack(_, _, fs) => field_bind_names(fs, fs.len() as int),
    }
}

/// The names that the patterns of the first `n` fields bind, in order.
pub open spec fn field_bind_names(fs: Seq<(NameModel, Spanned<BindModel>)>, n: int) -> Seq<Seq<char>>
    decreases fs, n,
{
    if n <= 0 || n > fs.len() {
        Seq::empty()
    } else {
        field_bind_names(fs, n - 1) + bind_names(fs[n - 1].1)
    }
}

/// The names that the first `n` patterns of a list bind, in order.
pub open spec fn bind_list_names(bs: Seq<Spanned<BindModel>>, n: int) -> Seq<Seq<char>>
    decreases n,
{
    if n <= 0 || n > bs.len() {
        Seq::empty()
    } else {
        bind_list_names(bs, n - 1) + bind_names(bs[n - 1])
    }
}

/// The names that the first `n` statements of a block declare, in order.
pub open spec fn item_names(items: Seq<Spanned<SequenceItemModel>>, n: int) -> Seq<Seq<char>>
    decreases n,
{
    if n <= 0 || n > items.len() {
        Seq::empty()
    } else {
        item_names(items, n - 1) + (match items[n - 1].value {
            SequenceItemModel::Declare(b, _) => bind_list_names(b.value, b.value.len() as int),
            SequenceItemModel::Bind(b, _, _) => bind_list_names(b.value, b.value.len() as int),
            SequenceItemModel::Expr(_) => Seq::empty(),
        })
    }
}

/// The names that the statements of a function's body declare, in order. A
/// name that is declared twice is listed twice.
pub open spec fn declared_names(f: FunctionModel) -> Seq<Seq<char>> {
    match f.body.value {
        FunctionBodyModel::Defined(b) => item_names(b.items, b.items.len() as int),
        FunctionBodyModel::Native => Seq::empty(),
    }
}

/// Adds the names that a pattern binds.
pub fn insert_bind(r: &mut Vec<Symbol>, bind: &Bind)
    ensures
        views(final(r)@) == views(old(r)@) + bind_names(bind@),
    decreases bind,
{
    proof {
        bind_view_unfolds(bind.value);
    }
    match &bind.value {
        Bind_::Var(var) => {
            if !var.value.is("_") {
                r.push(var.value.clone());
                assert(views(r@) =~= views(old(r)@) + seq![var.value@]);
            } else {
                assert(views(r@) =~= views(old(r)@) + Seq::<Seq<char>>::empty());
            }
        },
        Bind_::Unpack(_, _, xs) => {
            let mut i: usize = 0;
            assert(views(r@) =~= views(old(r)@) + Seq::<Seq<char>>::empty());
            while i < xs.len()
                invariant
                    i <= xs.len(),
                    bind.value is Unpack,
                    bind.value->Unpack_2 == *xs,
                    views(r@) == views(old(r)@) + field_bind_names(views(xs@), i as int),
                decreases xs.len() - i,
            {
                insert_bind(r, &xs[i].1);
                assert(views(r@) =~= views(old(r)@) + field_bind_names(views(xs@), i + 1));
                i += 1;
            }
        },
    }
}

/// Adds the names that the patterns of a list bind.
pub fn insert_bind_list(r: &mut Vec<Symbol>, bind: &BindList)
    ensures
        views(final(r)@) == views(old(r)@) + bind_list_names(
            bind_list_view(*bind).value,
            bind.value.len() as int,
        ),
{
    let mut i: usize = 0;
    assert(views(r@) =~= views(old(r)@) + Seq::<Seq<char>>::empty());
    while i < bind.value.len()
        invariant
            i <= bind.value.len(),
            views(r@) == views(old(r)@) + bind_list_names(bind_list_view(*bind).value, i as int),
        decreases bind.value.len() - i,
    {
        insert_bind(r, &bind.value[i]);
        assert(views(r@) =~= views(old(r)@) + bind_list_names(bind_list_view(*bind).value, i + 1));
        i += 1;
    }
}

impl FunSpecGenerator {
    /// The names that the statements of a function's body declare, in
    /// order. No clause depends on them yet.
    pub fn declared_names(f: &Function) -> (r: Vec<Symbol>)
        ensures
            views(r@) == declared_names(f@),
    {
        let mut shadow: Vec<Symbol> = Vec::new();
        assert(views(shadow@) =~= Seq::<Seq<char>>::empty());
        let body = match &f.body.value {
            FunctionBody_::Defined(x) => x,
            FunctionBody_::Native => {
                return shadow;
            },
        };
        proof {
            sequence_view_unfolds(*body);
        }
        let mut i: usize = 0;
        while i < body.items.len()
            invariant
                i <= body.items.len(),
                views(shadow@) == item_names(views(body.items@), i as int),
            decreases body.items.len() - i,
        {
            proof {
                item_view_unfolds(body.items[i as int].value);
            }
            let ghost before = views(shadow@);
            match &body.items[i].value {
                SequenceItem_::Declare(b, _) => {
                    insert_bind_list(&mut shadow, b);
                },
                SequenceItem_::Bind(b, _, _) => {
                    insert_bind_list(&mut shadow, b);
                },
                SequenceItem_::Expr(_) => {
                    assert(views(shadow@) =~= before + Seq::<Seq<char>>::empty());
                },
            }
            i += 1;
        }
        shadow
    }
}

} // verus!
