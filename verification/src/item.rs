//! What a name can stand for, and what the walk reports.
use crate::syntax::{
    clone_abilities, clone_chain, clone_module_ident, clone_name, clone_struct_type_parameters,
    clone_type, views, Ability, Field, LeadingNameAccessModel, LeadingNameAccess_, Loc, ModuleIdent,
    ModuleIdentModel, Name, NameAccessChain, NameAccessChainModel, NameAccessChain_, NameModel,
    NumericalAddress, Spanned, StructTypeParameter, StructTypeParameterModel, Symbol, Type,
    TypeModel, UseDecl, UseModel, Value, ValueModel, Value_, Var,
};
use crate::types::{
    clone_resolved_fields, BuildInType, Resolved, ResolvedType, ResolvedTypeModel, ResolvedType_,
};
use vstd::prelude::*;

verus! {

broadcast use {crate::syntax::syntax_views, crate::types::resolved_view_unfolds};

/// The calls that are recognized by name rather than resolved.
#[derive(Clone, Copy, Debug, PartialEq, Eq)]
pub enum MacroCall {
    Assert,
}

/// The macro that a text names, if it names one.
pub open spec fn macro_of(text: Seq<char>) -> Option<MacroCall> {
    if text == "assert"@ {
        Some(MacroCall::Assert)
    } else {
        None
    }
}

/// The macro that a qualified name stands for: only a bare name can stand for
/// one.
pub open spec fn macro_of_chain(chain: NameAccessChainModel) -> Option<MacroCall> {
    match chain {
        NameAccessChainModel::One(name) => macro_of(name.value),
        _ => None,
    }
}

impl MacroCall {
    /// Whether a qualified name stands for a macro: a caller that does not
    /// know asks this before [`MacroCall::from_chain`].
    pub fn is_macro_chain(chain: &NameAccessChain) -> (b: bool)
        ensures
            b == (macro_of_chain(chain@.value) is Some),
    {
        match &chain.value {
            NameAccessChain_::One(name) => Self::is_macro_symbol(&name.value),
            NameAccessChain_::Two(_, _) => false,
            NameAccessChain_::Three(_, _) => false,
        }
    }

    /// Whether a text names a macro: a caller that does not know asks this
    /// before [`MacroCall::from_symbol`].
    pub fn is_macro_symbol(s: &Symbol) -> (b: bool)
        ensures
            b == (macro_of(s@) is Some),
    {
        s.is("assert")
    }

    /// The macro that a qualified name stands for. Only the bare name of a
    /// macro is taken: the recognizer is for calls that are known to be
    /// macro calls.
    pub fn from_chain(chain: &NameAccessChain) -> (r: Self)
        requires
            macro_of_chain(chain@.value) is Some,
        ensures
            macro_of_chain(chain@.value) == Some(r),
    {
        match &chain.value {
            NameAccessChain_::One(name) => Self::from_symbol(&name.value),
            NameAccessChain_::Two(_, _) => vstd::pervasive::unreached(),
            NameAccessChain_::Three(_, _) => vstd::pervasive::unreached(),
        }
    }

    /// The macro that a text names. Only the name of a macro is taken.
    pub fn from_symbol(s: &Symbol) -> (r: Self)
        requires
            macro_of(s@) is Some,
        ensures
            macro_of(s@) == Some(r),
    {
        if s.is("assert") {
            MacroCall::Assert
        } else {
            vstd::pervasive::unreached()
        }
    }
}

/// What a name is bound to in a scope, or what the walk reports of a node.
#[derive(Debug, PartialEq, Eq)]
pub enum Item {
    /// A function parameter with its type.
    Parameter(Var, ResolvedType),
    /// A module brought in by `use`, with the address under which its
    /// members are found in the table of all modules.
    ImportedUseModule(ModuleIdent, NumericalAddress),
    /// A member of a module brought in by `use`.
    ImportUse(Box<Item>),
    /// A struct declaration: name, type parameters, typed fields.
    Struct(Name, Vec<StructTypeParameter>, Vec<(Field, ResolvedType)>),
    BuildInType(BuildInType),
    /// A type parameter with its constraints.
    TParam(Name, Vec<Ability>),
    /// A place where a type is written.
    ApplyType(Type),
    /// A `use` declaration.
    Use(UseDecl),
    /// A variable that is declared, moved or copied.
    ExprVar(Var),
    /// A qualified name in an expression.
    NameAccessChain(NameAccessChain),
    /// A named address written as a value.
    ExprAddressName(Name),
    /// A field of a struct literal, with the type of the field.
    FieldInitialization(Field, ResolvedType),
    /// A field that is read, with the type of the field.
    AccessFiled(Field, ResolvedType),
    KeyWords(&'static str),
    MacroCall(MacroCall),
}

pub enum ItemModel {
    Parameter(NameModel, Resolved),
    ImportedUseModule(Spanned<ModuleIdentModel>, NumericalAddress),
    ImportUse(Box<ItemModel>),
    Struct(NameModel, Seq<StructTypeParameterModel>, Seq<(NameModel, Resolved)>),
    BuildInType(BuildInType),
    TParam(NameModel, Seq<Ability>),
    ApplyType(Spanned<TypeModel>),
    Use(UseModel),
    ExprVar(NameModel),
    NameAccessChain(Spanned<NameAccessChainModel>),
    ExprAddressName(NameModel),
    FieldInitialization(NameModel, Resolved),
    AccessFiled(NameModel, Resolved),
    KeyWords(Seq<char>),
    MacroCall(MacroCall),
}

impl Item {
    pub open spec fn model(self) -> ItemModel
        decreases self,
    {
        match self {
            Item::Parameter(v, t) => ItemModel::Parameter(v@, t@),
            Item::ImportedUseModule(m, a) => ItemModel::ImportedUseModule(m@, a),
            Item::ImportUse(i) => ItemModel::ImportUse(Box::new(i.model())),
            Item::Struct(n, ps, fs) => ItemModel::Struct(n@, views(ps@), views(fs@)),
            Item::BuildInType(b) => ItemModel::BuildInType(b),
            Item::TParam(n, abs) => ItemModel::TParam(n@, abs@),
            Item::ApplyType(t) => ItemModel::ApplyType(t@),
            Item::Use(u) => ItemModel::Use(u@),
            Item::ExprVar(v) => ItemModel::ExprVar(v@),
            Item::NameAccessChain(c) => ItemModel::NameAccessChain(c@),
            Item::ExprAddressName(n) => ItemModel::ExprAddressName(n@),
            Item::FieldInitialization(f, t) => ItemModel::FieldInitialization(f@, t@),
            Item::AccessFiled(f, t) => ItemModel::AccessFiled(f@, t@),
            Item::KeyWords(k) => ItemModel::KeyWords(k@),
            Item::MacroCall(m) => ItemModel::MacroCall(m),
        }
    }
}

impl View for Item {
    type V = ItemModel;

    open spec fn view(&self) -> ItemModel {
        self.model()
    }
}

impl Clone for Item {
    fn clone(&self) -> (r: Self)
        ensures
            r@ == self@,
        decreases self,
    {
        match self {
            Item::Parameter(v, t) => Item::Parameter(clone_name(v), t.clone()),
            Item::ImportedUseModule(m, a) => Item::ImportedUseModule(clone_module_ident(m), *a),
            Item::ImportUse(i) => Item::ImportUse(Box::new((**i).clone())),
            Item::Struct(n, ps, fs) => Item::Struct(
                clone_name(n),
                clone_struct_type_parameters(ps),
                clone_resolved_fields(fs),
            ),
            Item::BuildInType(b) => Item::BuildInType(*b),
            Item::TParam(n, abs) => Item::TParam(clone_name(n), clone_abilities(abs)),
            Item::ApplyType(t) => Item::ApplyType(clone_type(t)),
            Item::Use(u) => Item::Use(u.clone()),
            Item::ExprVar(v) => Item::ExprVar(clone_name(v)),
            Item::NameAccessChain(c) => Item::NameAccessChain(clone_chain(c)),
            Item::ExprAddressName(n) => Item::ExprAddressName(clone_name(n)),
            Item::FieldInitialization(f, t) => Item::FieldInitialization(clone_name(f), t.clone()),
            Item::AccessFiled(f, t) => Item::AccessFiled(clone_name(f), t.clone()),
            Item::KeyWords(k) => Item::KeyWords(*k),
            Item::MacroCall(m) => Item::MacroCall(*m),
        }
    }
}

/// The type that an item denotes: a type parameter, a struct and a primitive
/// type denote one, every other item denotes none.
pub open spec fn item_type(i: ItemModel) -> Option<Resolved> {
    match i {
        ItemModel::TParam(name, ab) => Some(
            Spanned { loc: name.loc, value: ResolvedTypeModel::TParam(name, ab) },
        ),
        ItemModel::Struct(name, types, fields) => Some(
            Spanned { loc: name.loc, value: ResolvedTypeModel::Struct(name, types, fields) },
        ),
        ItemModel::BuildInType(b) => Some(
            Spanned { loc: Loc::unknown(), value: ResolvedTypeModel::BuildInType(b) },
        ),
        _ => None,
    }
}

impl Item {
    /// The type that the item denotes, if it denotes one.
    pub fn to_type(&self) -> (r: Option<ResolvedType>)
        ensures
            crate::syntax::opt_view(r) == item_type(self@),
    {
        match self {
            Item::TParam(name, ab) => Some(
                ResolvedType(
                    Spanned {
                        loc: name.loc,
                        value: ResolvedType_::TParam(clone_name(name), clone_abilities(ab)),
                    },
                ),
            ),
            Item::Struct(name, types, fields) => Some(
                ResolvedType(
                    Spanned {
                        loc: name.loc,
                        value: ResolvedType_::Struct(
                            clone_name(name),
                            clone_struct_type_parameters(types),
                            clone_resolved_fields(fields),
                        ),
                    },
                ),
            ),
            Item::BuildInType(b) => Some(ResolvedType::new_build_in(*b)),
            _ => None,
        }
    }
}

/// The name in a value that is a named address.
pub open spec fn name_of_value(v: ValueModel) -> Option<NameModel> {
    match v {
        ValueModel::Address(a) => match a.value {
            LeadingNameAccessModel::Name(name) => Some(name),
            LeadingNameAccessModel::AnonymousAddress(_) => None,
        },
        _ => None,
    }
}

/// The name in a value that is a named address; nothing for a numeric
/// address or another literal.
pub fn get_name_from_value(v: &Value) -> (r: Option<&Name>)
    ensures
        crate::syntax::opt_view(r) == name_of_value(v@.value),
{
    match &v.value {
        Value_::Address(x) => match &x.value {
            LeadingNameAccess_::AnonymousAddress(_) => None,
            LeadingNameAccess_::Name(name) => Some(name),
        },
        _ => None,
    }
}

} // verus!
