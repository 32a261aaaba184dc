//! The syntax tree that the analysis works on, and its mathematical model.
//!
//! Every node type has a view (`@`): the same tree with each `String`
//! replaced by its characters and each `Vec` by a `Seq`. Contracts across the
//! crate are stated over these views. `Clone` is implemented by hand so that
//! verified code knows that a clone has the view of its source.
use vstd::prelude::*;

verus! {

/// The views of the elements of a sequence, in order.
pub open spec fn views<T: View>(s: Seq<T>) -> Seq<T::V> {
    s.map_values(|x: T| x@)
}

/// The views of the elements of an optional list.
pub open spec fn opt_views<T: View>(o: Option<Vec<T>>) -> Option<Seq<T::V>> {
    match o {
        Some(v) => Some(views(v@)),
        None => None,
    }
}

/// The view of an optional value.
pub open spec fn opt_view<T: View>(o: Option<T>) -> Option<T::V> {
    match o {
        Some(x) => Some(x@),
        None => None,
    }
}

/// Lists whose elements have the same views, place by place, have the same
/// views.
pub proof fn views_pointwise<T: View>(a: Seq<T>, b: Seq<T>)
    requires
        a.len() == b.len(),
        forall|j: int| 0 <= j < a.len() ==> a[j]@ == b[j]@,
    ensures
        views(a) == views(b),
{
    assert(views(a) =~= views(b));
}

/// An identifier. Two symbols are the same name when their texts are equal.
#[derive(Debug, PartialEq, Eq)]
pub struct Symbol {
    text: String,
}

impl View for Symbol {
    type V = Seq<char>;

    closed spec fn view(&self) -> Seq<char> {
        self.text@
    }
}

impl Clone for Symbol {
    fn clone(&self) -> (r: Self)
        ensures
            r@ == self@,
    {
        Symbol { text: self.text.clone() }
    }
}

impl Symbol {
    /// The symbol with the given text.
    pub fn from(text: &str) -> (r: Self)
        ensures
            r@ == text@,
    {
        Symbol { text: text.to_owned() }
    }

    /// The text of the symbol.
    pub fn as_str(&self) -> (r: &str)
        ensures
            r@ == self@,
    {
        self.text.as_str()
    }

    /// Whether the symbol's text is `text`.
    pub fn is(&self, text: &str) -> (b: bool)
        ensures
            b == (self@ == text@),
    {
        let other = text.to_owned();
        self.text == other
    }

    /// Whether two symbols are the same name.
    pub fn same(&self, other: &Symbol) -> (b: bool)
        ensures
            b == (self@ == other@),
    {
        self.text == other.text
    }
}

/// The 256-bit digest that identifies a source file, as its upper and lower
/// halves.
#[derive(Clone, Copy, Debug, PartialEq, Eq)]
pub struct FileHash {
    pub high: u128,
    pub low: u128,
}

/// A span of bytes in a source file.
#[derive(Clone, Copy, Debug, PartialEq, Eq)]
pub struct Loc {
    pub file_hash: FileHash,
    pub start: u32,
    pub end: u32,
}

impl FileHash {
    /// The digest that stands for no file: all bits zero.
    pub open spec fn spec_empty() -> FileHash {
        FileHash { high: 0, low: 0 }
    }

    /// The digest that stands for no file: all bits zero.
    #[verifier::when_used_as_spec(spec_empty)]
    pub fn empty() -> (h: FileHash)
        ensures
            h == FileHash::spec_empty(),
    {
        FileHash { high: 0, low: 0 }
    }
}

impl Loc {
    /// The place that stands for no place: no file, from 0 to 0.
    pub open spec fn spec_unknown() -> Loc {
        Loc { file_hash: FileHash::spec_empty(), start: 0, end: 0 }
    }

    /// The place that stands for no place: no file, from 0 to 0.
    #[verifier::when_used_as_spec(spec_unknown)]
    pub fn unknown() -> (l: Loc)
        ensures
            l == Loc::spec_unknown(),
    {
        Loc { file_hash: FileHash::empty(), start: 0, end: 0 }
    }

    /// The file that the span lies in.
    pub fn file_hash(&self) -> (h: FileHash)
        ensures
            h == self.file_hash,
    {
        self.file_hash
    }
}

/// A value together with the place in the source where it was written.
#[derive(Clone, Copy, Debug, PartialEq, Eq)]
pub struct Spanned<T> {
    pub loc: Loc,
    pub value: T,
}

impl<T: View> View for Spanned<T> {
    type V = Spanned<T::V>;

    open spec fn view(&self) -> Spanned<T::V> {
        Spanned { loc: self.loc, value: self.value@ }
    }
}

pub type Name = Spanned<Symbol>;

pub type Var = Name;

pub type Field = Name;

pub type ModuleName = Name;

pub type FunctionName = Name;

pub type StructName = Name;

/// The view of a name: its place and its characters.
pub type NameModel = Spanned<Seq<char>>;

/// A copy of a name.
pub fn clone_name(n: &Name) -> (r: Name)
    ensures
        r@ == n@,
{
    Spanned { loc: n.loc, value: n.value.clone() }
}

#[derive(Clone, Copy, Debug, PartialEq, Eq)]
pub enum Ability_ {
    Copy,
    Drop,
    Store,
    Key,
}

pub type Ability = Spanned<Ability_>;

/// A copy of a list of abilities.
pub fn clone_abilities(v: &Vec<Ability>) -> (r: Vec<Ability>)
    ensures
        r@ == v@,
{
    let mut out: Vec<Ability> = Vec::new();
    let mut i: usize = 0;
    while i < v.len()
        invariant
            i <= v.len(),
            out@ == v@.take(i as int),
        decreases v.len() - i,
    {
        out.push(v[i]);
        assert(v@.take(i + 1) =~= v@.take(i as int).push(v@[i as int]));
        i += 1;
    }
    assert(v@.take(v.len() as int) =~= v@);
    out
}

/// An account address in numeric form.
#[derive(Clone, Copy, Debug, PartialEq, Eq)]
pub struct NumericalAddress {
    pub value: u128,
}

/// The first part of a qualified name: an address, written out or named.
#[derive(Debug, PartialEq, Eq)]
pub enum LeadingNameAccess_ {
    AnonymousAddress(NumericalAddress),
    Name(Name),
}

pub type LeadingNameAccess = Spanned<LeadingNameAccess_>;

pub enum LeadingNameAccessModel {
    AnonymousAddress(NumericalAddress),
    Name(NameModel),
}

impl View for LeadingNameAccess_ {
    type V = LeadingNameAccessModel;

    open spec fn view(&self) -> LeadingNameAccessModel {
        match self {
            LeadingNameAccess_::AnonymousAddress(a) => LeadingNameAccessModel::AnonymousAddress(*a),
            LeadingNameAccess_::Name(n) => LeadingNameAccessModel::Name(n@),
        }
    }
}

impl Clone for LeadingNameAccess_ {
    fn clone(&self) -> (r: Self)
        ensures
            r@ == self@,
    {
        match self {
            LeadingNameAccess_::AnonymousAddress(a) => LeadingNameAccess_::AnonymousAddress(*a),
            LeadingNameAccess_::Name(n) => LeadingNameAccess_::Name(clone_name(n)),
        }
    }
}

/// A possibly qualified name: `x`, `m::x` or `a::m::x`.
#[derive(Debug, PartialEq, Eq)]
pub enum NameAccessChain_ {
    One(Name),
    Two(LeadingNameAccess, Name),
    Three(Spanned<(LeadingNameAccess, Name)>, Name),
}

pub type NameAccessChain = Spanned<NameAccessChain_>;

pub enum NameAccessChainModel {
    One(NameModel),
    Two(Spanned<LeadingNameAccessModel>, NameModel),
    Three(Spanned<(Spanned<LeadingNameAccessModel>, NameModel)>, NameModel),
}

impl View for NameAccessChain_ {
    type V = NameAccessChainModel;

    open spec fn view(&self) -> NameAccessChainModel {
        match self {
            NameAccessChain_::One(n) => NameAccessChainModel::One(n@),
            NameAccessChain_::Two(l, n) => NameAccessChainModel::Two(l@, n@),
            NameAccessChain_::Three(p, n) => NameAccessChainModel::Three(
                Spanned { loc: p.loc, value: (p.value.0@, p.value.1@) },
                n@,
            ),
        }
    }
}

impl Clone for NameAccessChain_ {
    fn clone(&self) -> (r: Self)
        ensures
            r@ == self@,
    {
        match self {
            NameAccessChain_::One(n) => NameAccessChain_::One(clone_name(n)),
            NameAccessChain_::Two(l, n) => NameAccessChain_::Two(
                Spanned { loc: l.loc, value: l.value.clone() },
                clone_name(n),
            ),
            NameAccessChain_::Three(p, n) => NameAccessChain_::Three(
                Spanned {
                    loc: p.loc,
                    value: (
                        Spanned { loc: p.value.0.loc, value: p.value.0.value.clone() },
                        clone_name(&p.value.1),
                    ),
                },
                clone_name(n),
            ),
        }
    }
}

/// A copy of a qualified name.
pub fn clone_chain(c: &NameAccessChain) -> (r: NameAccessChain)
    ensures
        r@ == c@,
{
    Spanned { loc: c.loc, value: c.value.clone() }
}

/// A type as it is written in the source.
#[derive(Debug, PartialEq, Eq)]
pub enum Type_ {
    /// A name, possibly applied to type arguments.
    Apply(Box<NameAccessChain>, Vec<Type>),
    /// `&t` or `&mut t`.
    Ref(bool, Box<Type>),
    /// `|t1, ..| t`.
    Fun(Vec<Type>, Box<Type>),
    /// `()`.
    Unit,
    /// `(t1, .., tn)`.
    Multiple(Vec<Type>),
}

pub type Type = Spanned<Type_>;

pub enum TypeModel {
    Apply(Box<Spanned<NameAccessChainModel>>, Seq<Spanned<TypeModel>>),
    Ref(bool, Box<Spanned<TypeModel>>),
    Fun(Seq<Spanned<TypeModel>>, Box<Spanned<TypeModel>>),
    Unit,
    Multiple(Seq<Spanned<TypeModel>>),
}

impl Type_ {
    pub open spec fn model(self) -> TypeModel
        decreases self,
    {
        match self {
            Type_::Apply(c, ts) => TypeModel::Apply(Box::new((*c)@), type_models(ts@)),
            Type_::Ref(m, t) => TypeModel::Ref(
                m,
                Box::new(Spanned { loc: t.loc, value: t.value.model() }),
            ),
            Type_::Fun(ts, t) => TypeModel::Fun(
                type_models(ts@),
                Box::new(Spanned { loc: t.loc, value: t.value.model() }),
            ),
            Type_::Unit => TypeModel::Unit,
            Type_::Multiple(ts) => TypeModel::Multiple(type_models(ts@)),
        }
    }
}

pub open spec fn type_models(ts: Seq<Type>) -> Seq<Spanned<TypeModel>>
    decreases ts,
{
    if ts.len() == 0 {
        Seq::empty()
    } else {
        type_models(ts.drop_last()).push(
            Spanned { loc: ts.last().loc, value: ts.last().value.model() },
        )
    }
}

impl View for Type_ {
    type V = TypeModel;

    open spec fn view(&self) -> TypeModel {
        self.model()
    }
}

/// The model of a list of types is the list of their views.
pub proof fn type_models_are_views(ts: Seq<Type>)
    ensures
        type_models(ts) == views(ts),
    decreases ts.len(),
{
    if ts.len() > 0 {
        type_models_are_views(ts.drop_last());
        assert(views(ts.drop_last()).len() == ts.len() - 1);
        assert forall|i: int| 0 <= i < ts.len() implies type_models(ts)[i] == views(ts)[i] by {
            if i < ts.len() - 1 {
                assert(views(ts.drop_last())[i] == ts.drop_last()[i]@);
            }
        }
    }
    assert(type_models(ts) =~= views(ts));
}

/// The view of a type, one level down, in terms of the views of its parts.
pub broadcast proof fn type_view_unfolds(t: Type_)
    ensures
        #[trigger] t.model() == (match t {
            Type_::Apply(c, ts) => TypeModel::Apply(Box::new((*c)@), views(ts@)),
            Type_::Ref(m, t) => TypeModel::Ref(m, Box::new((*t)@)),
            Type_::Fun(ts, t) => TypeModel::Fun(views(ts@), Box::new((*t)@)),
            Type_::Unit => TypeModel::Unit,
            Type_::Multiple(ts) => TypeModel::Multiple(views(ts@)),
        }),
{
    match t {
        Type_::Apply(c, ts) => type_models_are_views(ts@),
        Type_::Fun(ts, t) => type_models_are_views(ts@),
        Type_::Multiple(ts) => type_models_are_views(ts@),
        _ => {},
    }
}

impl Clone for Type_ {
    fn clone(&self) -> (r: Self)
        ensures
            r@ == self@,
        decreases self,
    {
        broadcast use type_view_unfolds;

        match self {
            Type_::Apply(c, ts) => Type_::Apply(Box::new(clone_chain(c)), clone_types(ts)),
            Type_::Ref(m, t) => Type_::Ref(*m, Box::new(clone_type(t))),
            Type_::Fun(ts, t) => Type_::Fun(clone_types(ts), Box::new(clone_type(t))),
            Type_::Unit => Type_::Unit,
            Type_::Multiple(ts) => Type_::Multiple(clone_types(ts)),
        }
    }
}

/// A copy of a type.
pub fn clone_type(t: &Type) -> (r: Type)
    ensures
        r@ == t@,
    decreases t,
{
    Spanned { loc: t.loc, value: t.value.clone() }
}

/// A copy of a list of types.
pub fn clone_types(ts: &Vec<Type>) -> (r: Vec<Type>)
    ensures
        views(r@) == views(ts@),
    decreases ts,
{
    let mut out: Vec<Type> = Vec::new();
    let mut i: usize = 0;
    while i < ts.len()
        invariant
            i <= ts.len(),
            out.len() == i,
            forall|j: int| 0 <= j < i ==> out[j]@ == ts[j]@,
        decreases ts.len() - i,
    {
        out.push(clone_type(&ts[i]));
        i += 1;
    }
    proof {
        views_pointwise(out@, ts@);
    }
    out
}

/// A copy of an optional list of types.
pub fn clone_opt_types(ts: &Option<Vec<Type>>) -> (r: Option<Vec<Type>>)
    ensures
        opt_views(r) == opt_views(*ts),
{
    match ts {
        Some(v) => Some(clone_types(v)),
        None => None,
    }
}

/// A literal.
#[derive(Debug, PartialEq, Eq)]
pub enum Value_ {
    Address(LeadingNameAccess),
    Num(Symbol),
    Bool(bool),
    HexString(Symbol),
    ByteString(Symbol),
}

pub type Value = Spanned<Value_>;

pub enum ValueModel {
    Address(Spanned<LeadingNameAccessModel>),
    Num(Seq<char>),
    Bool(bool),
    HexString(Seq<char>),
    ByteString(Seq<char>),
}

impl View for Value_ {
    type V = ValueModel;

    open spec fn view(&self) -> ValueModel {
        match self {
            Value_::Address(a) => ValueModel::Address(a@),
            Value_::Num(s) => ValueModel::Num(s@),
            Value_::Bool(b) => ValueModel::Bool(*b),
            Value_::HexString(s) => ValueModel::HexString(s@),
            Value_::ByteString(s) => ValueModel::ByteString(s@),
        }
    }
}

impl Clone for Value_ {
    fn clone(&self) -> (r: Self)
        ensures
            r@ == self@,
    {
        match self {
            Value_::Address(a) => Value_::Address(Spanned { loc: a.loc, value: a.value.clone() }),
            Value_::Num(s) => Value_::Num(s.clone()),
            Value_::Bool(b) => Value_::Bool(*b),
            Value_::HexString(s) => Value_::HexString(s.clone()),
            Value_::ByteString(s) => Value_::ByteString(s.clone()),
        }
    }
}

/// The left side of a `let`: a variable, or a struct pattern.
#[derive(Debug, PartialEq, Eq)]
pub enum Bind_ {
    Var(Var),
    Unpack(Box<NameAccessChain>, Option<Vec<Type>>, Vec<(Field, Bind)>),
}

pub type Bind = Spanned<Bind_>;

pub type BindList = Spanned<Vec<Bind>>;

pub enum BindModel {
    Var(NameModel),
    Unpack(
        Box<Spanned<NameAccessChainModel>>,
        Option<Seq<Spanned<TypeModel>>>,
        Seq<(NameModel, Spanned<BindModel>)>,
    ),
}

impl Bind_ {
    pub open spec fn model(self) -> BindModel
        decreases self,
    {
        match self {
            Bind_::Var(v) => BindModel::Var(v@),
            Bind_::Unpack(c, ts, fs) => BindModel::Unpack(
                Box::new((*c)@),
                opt_views(ts),
                field_bind_models(fs@),
            ),
        }
    }
}

pub open spec fn field_bind_models(fs: Seq<(Field, Bind)>) -> Seq<(NameModel, Spanned<BindModel>)>
    decreases fs,
{
    if fs.len() == 0 {
        Seq::empty()
    } else {
        field_bind_models(fs.drop_last()).push(
            (fs.last().0@, Spanned { loc: fs.last().1.loc, value: fs.last().1.value.model() }),
        )
    }
}

impl View for Bind_ {
    type V = BindModel;

    open spec fn view(&self) -> BindModel {
        self.model()
    }
}

/// The model of a list of field patterns is the list of their views.
pub proof fn field_bind_models_are_views(fs: Seq<(Field, Bind)>)
    ensures
        field_bind_models(fs) == views(fs),
    decreases fs.len(),
{
    if fs.len() > 0 {
        field_bind_models_are_views(fs.drop_last());
        assert(views(fs.drop_last()).len() == fs.len() - 1);
        assert forall|i: int| 0 <= i < fs.len() implies field_bind_models(fs)[i] == views(fs)[i] by {
            if i < fs.len() - 1 {
                assert(views(fs.drop_last())[i] == fs.drop_last()[i]@);
            }
        }
    }
    assert(field_bind_models(fs) =~= views(fs));
}

/// The view of a pattern, one level down, in terms of the views of its parts.
pub broadcast proof fn bind_view_unfolds(b: Bind_)
    ensures
        #[trigger] b.model() == (match b {
            Bind_::Var(v) => BindModel::Var(v@),
            Bind_::Unpack(c, ts, fs) => BindModel::Unpack(Box::new((*c)@), opt_views(ts), views(fs@)),
        }),
{
    match b {
        Bind_::Unpack(c, ts, fs) => field_bind_models_are_views(fs@),
        _ => {},
    }
}

impl Clone for Bind_ {
    fn clone(&self) -> (r: Self)
        ensures
            r@ == self@,
        decreases self,
    {
        broadcast use bind_view_unfolds;

        match self {
            Bind_::Var(v) => Bind_::Var(clone_name(v)),
            Bind_::Unpack(c, ts, fs) => {
                let mut out: Vec<(Field, Bind)> = Vec::new();
                let mut i: usize = 0;
                while i < fs.len()
                    invariant
                        i <= fs.len(),
                        out.len() == i,
                        forall|j: int| 0 <= j < i ==> out[j]@ == fs[j]@,
                        *self is Unpack,
                        self->Unpack_2 == *fs,
                    decreases fs.len() - i,
                {
                    let f = clone_name(&fs[i].0);
                    let b = Spanned { loc: fs[i].1.loc, value: fs[i].1.value.clone() };
                    out.push((f, b));
                    i += 1;
                }
                proof {
                    views_pointwise(out@, fs@);
                }
                Bind_::Unpack(Box::new(clone_chain(c)), clone_opt_types(ts), out)
            },
        }
    }
}

/// A copy of a pattern.
pub fn clone_bind(b: &Bind) -> (r: Bind)
    ensures
        r@ == b@,
{
    Spanned { loc: b.loc, value: b.value.clone() }
}

/// The view of a list of patterns.
pub open spec fn bind_list_view(l: BindList) -> Spanned<Seq<Spanned<BindModel>>> {
    Spanned { loc: l.loc, value: views(l.value@) }
}

/// A copy of a list of patterns.
pub fn clone_bind_list(l: &BindList) -> (r: BindList)
    ensures
        bind_list_view(r) == bind_list_view(*l),
{
    let mut out: Vec<Bind> = Vec::new();
    let mut i: usize = 0;
    while i < l.value.len()
        invariant
            i <= l.value.len(),
            out.len() == i,
            forall|j: int| 0 <= j < i ==> out[j]@ == l.value[j]@,
        decreases l.value.len() - i,
    {
        out.push(clone_bind(&l.value[i]));
        i += 1;
    }
    proof {
        views_pointwise(out@, l.value@);
    }
    Spanned { loc: l.loc, value: out }
}

/// The module that a `use` names: its address and its name.
#[derive(Debug, PartialEq, Eq)]
pub struct ModuleIdent_ {
    pub address: LeadingNameAccess,
    pub module: ModuleName,
}

pub type ModuleIdent = Spanned<ModuleIdent_>;

pub struct ModuleIdentModel {
    pub address: Spanned<LeadingNameAccessModel>,
    pub module: NameModel,
}

impl View for ModuleIdent_ {
    type V = ModuleIdentModel;

    open spec fn view(&self) -> ModuleIdentModel {
        ModuleIdentModel { address: self.address@, module: self.module@ }
    }
}

impl Clone for ModuleIdent_ {
    fn clone(&self) -> (r: Self)
        ensures
            r@ == self@,
    {
        ModuleIdent_ {
            address: Spanned { loc: self.address.loc, value: self.address.value.clone() },
            module: clone_name(&self.module),
        }
    }
}

/// A copy of a module identifier.
pub fn clone_module_ident(m: &ModuleIdent) -> (r: ModuleIdent)
    ensures
        r@ == m@,
{
    Spanned { loc: m.loc, value: m.value.clone() }
}

/// What a `use` declaration brings in: a module, under its own name or an
/// alias, or members of a module, each under its own name or an alias.
#[derive(Debug, PartialEq, Eq)]
pub enum Use {
    Module(ModuleIdent, Option<ModuleName>),
    Members(ModuleIdent, Vec<(Name, Option<Name>)>),
}

pub enum UseModel {
    Module(Spanned<ModuleIdentModel>, Option<NameModel>),
    Members(Spanned<ModuleIdentModel>, Seq<(NameModel, Option<NameModel>)>),
}

/// The view of one imported member and its alias.
pub open spec fn member_view(m: (Name, Option<Name>)) -> (NameModel, Option<NameModel>) {
    (m.0@, opt_view(m.1))
}

impl View for Use {
    type V = UseModel;

    open spec fn view(&self) -> UseModel {
        match self {
            Use::Module(m, a) => UseModel::Module(m@, opt_view(*a)),
            Use::Members(m, ms) => UseModel::Members(
                m@,
                ms@.map_values(|x: (Name, Option<Name>)| member_view(x)),
            ),
        }
    }
}

/// A copy of an optional name.
pub fn clone_opt_name(n: &Option<Name>) -> (r: Option<Name>)
    ensures
        opt_view(r) == opt_view(*n),
{
    match n {
        Some(x) => Some(clone_name(x)),
        None => None,
    }
}

impl Clone for Use {
    fn clone(&self) -> (r: Self)
        ensures
            r@ == self@,
    {
        match self {
            Use::Module(m, a) => Use::Module(clone_module_ident(m), clone_opt_name(a)),
            Use::Members(m, ms) => {
                let mut out: Vec<(Name, Option<Name>)> = Vec::new();
                let mut i: usize = 0;
                while i < ms.len()
                    invariant
                        i <= ms.len(),
                        out.len() == i,
                        forall|j: int| 0 <= j < i ==> member_view(out[j]) == member_view(ms[j]),
                    decreases ms.len() - i,
                {
                    out.push((clone_name(&ms[i].0), clone_opt_name(&ms[i].1)));
                    i += 1;
                }
                assert(out@.map_values(|x: (Name, Option<Name>)| member_view(x))
                    =~= ms@.map_values(|x: (Name, Option<Name>)| member_view(x)));
                Use::Members(clone_module_ident(m), out)
            },
        }
    }
}

/// A `use` declaration. Attributes are not carried: no rule reads them.
#[derive(Debug, PartialEq, Eq)]
pub struct UseDecl {
    pub use_: Use,
}

impl View for UseDecl {
    type V = UseModel;

    open spec fn view(&self) -> UseModel {
        self.use_@
    }
}

impl Clone for UseDecl {
    fn clone(&self) -> (r: Self)
        ensures
            r@ == self@,
    {
        UseDecl { use_: self.use_.clone() }
    }
}

#[derive(Clone, Copy, Debug, PartialEq, Eq)]
pub enum UnaryOp_ {
    Not,
}

pub type UnaryOp = Spanned<UnaryOp_>;

#[derive(Clone, Copy, Debug, PartialEq, Eq)]
pub enum BinOp_ {
    Add,
    Sub,
    Mul,
    Mod,
    Div,
    BitOr,
    BitAnd,
    Xor,
    Shl,
    Shr,
    Range,
    Implies,
    Iff,
    And,
    Or,
    Eq,
    Neq,
    Lt,
    Gt,
    Le,
    Ge,
}

pub type BinOp = Spanned<BinOp_>;

/// A node that is kept outside this tree: a lambda, a quantifier or a
/// specification block. No rule looks inside one; the number finds it again
/// where the tree came from.
#[derive(Clone, Copy, Debug, PartialEq, Eq)]
pub struct ExternalNode {
    pub id: u64,
}

/// An expression.
#[derive(Debug, PartialEq, Eq)]
pub enum Exp_ {
    Value(Value),
    /// `move x`
    Move(Var),
    /// `copy x`
    Copy(Var),
    /// A name with optional type arguments.
    Name(NameAccessChain, Option<Vec<Type>>),
    /// A call; the flag says that it was written as a macro call (`f!(..)`).
    Call(NameAccessChain, bool, Option<Vec<Type>>, Spanned<Vec<Exp>>),
    /// A struct literal.
    Pack(NameAccessChain, Option<Vec<Type>>, Vec<(Field, Exp)>),
    /// A vector literal: the place of `vector`, type arguments, elements.
    Vector(Loc, Option<Vec<Type>>, Spanned<Vec<Exp>>),
    IfElse(Box<Exp>, Box<Exp>, Option<Box<Exp>>),
    While(Box<Exp>, Box<Exp>),
    Loop(Box<Exp>),
    Block(Sequence),
    Lambda(ExternalNode),
    Quant(ExternalNode),
    ExpList(Vec<Exp>),
    Unit,
    Assign(Box<Exp>, Box<Exp>),
    Return(Option<Box<Exp>>),
    Abort(Box<Exp>),
    Break,
    Continue,
    Dereference(Box<Exp>),
    UnaryExp(UnaryOp, Box<Exp>),
    BinopExp(Box<Exp>, BinOp, Box<Exp>),
    /// `&e` or `&mut e`.
    Borrow(bool, Box<Exp>),
    Dot(Box<Exp>, Name),
    Index(Box<Exp>, Box<Exp>),
    Cast(Box<Exp>, Type),
    Annotate(Box<Exp>, Type),
    Spec(ExternalNode),
    UnresolvedError,
}

pub type Exp = Spanned<Exp_>;

/// One statement of a block.
#[derive(Debug, PartialEq, Eq)]
pub enum SequenceItem_ {
    /// `e;`
    Expr(Box<Exp>),
    /// `let b: t;`
    Declare(BindList, Option<Type>),
    /// `let b: t = e;`
    Bind(BindList, Option<Type>, Box<Exp>),
}

pub type SequenceItem = Spanned<SequenceItem_>;

/// A block: its `use` declarations, its statements, the place of the last
/// semicolon if there is one, and the expression it ends in, if any.
#[derive(Debug, PartialEq, Eq)]
pub struct Sequence {
    pub uses: Vec<UseDecl>,
    pub items: Vec<SequenceItem>,
    pub semicolon: Option<Loc>,
    pub tail: Option<Box<Exp>>,
}

pub enum ExpModel {
    Value(Spanned<ValueModel>),
    Move(NameModel),
    Copy(NameModel),
    Name(Spanned<NameAccessChainModel>, Option<Seq<Spanned<TypeModel>>>),
    Call(
        Spanned<NameAccessChainModel>,
        bool,
        Option<Seq<Spanned<TypeModel>>>,
        Spanned<Seq<Spanned<ExpModel>>>,
    ),
    Pack(
        Spanned<NameAccessChainModel>,
        Option<Seq<Spanned<TypeModel>>>,
        Seq<(NameModel, Spanned<ExpModel>)>,
    ),
    Vector(Loc, Option<Seq<Spanned<TypeModel>>>, Spanned<Seq<Spanned<ExpModel>>>),
    IfElse(Box<Spanned<ExpModel>>, Box<Spanned<ExpModel>>, Option<Box<Spanned<ExpModel>>>),
    While(Box<Spanned<ExpModel>>, Box<Spanned<ExpModel>>),
    Loop(Box<Spanned<ExpModel>>),
    Block(SequenceModel),
    Lambda(ExternalNode),
    Quant(ExternalNode),
    ExpList(Seq<Spanned<ExpModel>>),
    Unit,
    Assign(Box<Spanned<ExpModel>>, Box<Spanned<ExpModel>>),
    Return(Option<Box<Spanned<ExpModel>>>),
    Abort(Box<Spanned<ExpModel>>),
    Break,
    Continue,
    Dereference(Box<Spanned<ExpModel>>),
    UnaryExp(UnaryOp, Box<Spanned<ExpModel>>),
    BinopExp(Box<Spanned<ExpModel>>, BinOp, Box<Spanned<ExpModel>>),
    Borrow(bool, Box<Spanned<ExpModel>>),
    Dot(Box<Spanned<ExpModel>>, NameModel),
    Index(Box<Spanned<ExpModel>>, Box<Spanned<ExpModel>>),
    Cast(Box<Spanned<ExpModel>>, Spanned<TypeModel>),
    Annotate(Box<Spanned<ExpModel>>, Spanned<TypeModel>),
    Spec(ExternalNode),
    UnresolvedError,
}

pub enum SequenceItemModel {
    Expr(Box<Spanned<ExpModel>>),
    Declare(Spanned<Seq<Spanned<BindModel>>>, Option<Spanned<TypeModel>>),
    Bind(Spanned<Seq<Spanned<BindModel>>>, Option<Spanned<TypeModel>>, Box<Spanned<ExpModel>>),
}

pub struct SequenceModel {
    pub uses: Seq<UseModel>,
    pub items: Seq<Spanned<SequenceItemModel>>,
    pub semicolon: Option<Loc>,
    pub tail: Option<Box<Spanned<ExpModel>>>,
}

impl Exp_ {
    pub open spec fn model(self) -> ExpModel
        decreases self,
    {
        match self {
            Exp_::Value(v) => ExpModel::Value(v@),
            Exp_::Move(v) => ExpModel::Move(v@),
            Exp_::Copy(v) => ExpModel::Copy(v@),
            Exp_::Name(c, ts) => ExpModel::Name(c@, opt_views(ts)),
            Exp_::Call(c, m, ts, es) => ExpModel::Call(
                c@,
                m,
                opt_views(ts),
                Spanned { loc: es.loc, value: exp_models(es.value@) },
            ),
            Exp_::Pack(c, ts, fs) => ExpModel::Pack(c@, opt_views(ts), field_exp_models(fs@)),
            Exp_::Vector(l, ts, es) => ExpModel::Vector(
                l,
                opt_views(ts),
                Spanned { loc: es.loc, value: exp_models(es.value@) },
            ),
            Exp_::IfElse(c, t, e) => ExpModel::IfElse(
                Box::new(Spanned { loc: c.loc, value: c.value.model() }),
                Box::new(Spanned { loc: t.loc, value: t.value.model() }),
                match e {
                    Some(x) => Some(Box::new(Spanned { loc: x.loc, value: x.value.model() })),
                    None => None,
                },
            ),
            Exp_::While(c, b) => ExpModel::While(
                Box::new(Spanned { loc: c.loc, value: c.value.model() }),
                Box::new(Spanned { loc: b.loc, value: b.value.model() }),
            ),
            Exp_::Loop(b) => ExpModel::Loop(Box::new(Spanned { loc: b.loc, value: b.value.model() })),
            Exp_::Block(s) => ExpModel::Block(s.model()),
            Exp_::Lambda(n) => ExpModel::Lambda(n),
            Exp_::Quant(n) => ExpModel::Quant(n),
            Exp_::ExpList(es) => ExpModel::ExpList(exp_models(es@)),
            Exp_::Unit => ExpModel::Unit,
            Exp_::Assign(l, r) => ExpModel::Assign(
                Box::new(Spanned { loc: l.loc, value: l.value.model() }),
                Box::new(Spanned { loc: r.loc, value: r.value.model() }),
            ),
            Exp_::Return(e) => ExpModel::Return(
                match e {
                    Some(x) => Some(Box::new(Spanned { loc: x.loc, value: x.value.model() })),
                    None => None,
                },
            ),
            Exp_::Abort(e) => ExpModel::Abort(Box::new(Spanned { loc: e.loc, value: e.value.model() })),
            Exp_::Break => ExpModel::Break,
            Exp_::Continue => ExpModel::Continue,
            Exp_::Dereference(e) => ExpModel::Dereference(
                Box::new(Spanned { loc: e.loc, value: e.value.model() }),
            ),
            Exp_::UnaryExp(op, e) => ExpModel::UnaryExp(
                op,
                Box::new(Spanned { loc: e.loc, value: e.value.model() }),
            ),
            Exp_::BinopExp(l, op, r) => ExpModel::BinopExp(
                Box::new(Spanned { loc: l.loc, value: l.value.model() }),
                op,
                Box::new(Spanned { loc: r.loc, value: r.value.model() }),
            ),
            Exp_::Borrow(m, e) => ExpModel::Borrow(
                m,
                Box::new(Spanned { loc: e.loc, value: e.value.model() }),
            ),
            Exp_::Dot(e, n) => ExpModel::Dot(Box::new(Spanned { loc: e.loc, value: e.value.model() }), n@),
            Exp_::Index(e, i) => ExpModel::Index(
                Box::new(Spanned { loc: e.loc, value: e.value.model() }),
                Box::new(Spanned { loc: i.loc, value: i.value.model() }),
            ),
            Exp_::Cast(e, t) => ExpModel::Cast(Box::new(Spanned { loc: e.loc, value: e.value.model() }), t@),
            Exp_::Annotate(e, t) => ExpModel::Annotate(
                Box::new(Spanned { loc: e.loc, value: e.value.model() }),
                t@,
            ),
            Exp_::Spec(n) => ExpModel::Spec(n),
            Exp_::UnresolvedError => ExpModel::UnresolvedError,
        }
    }
}

pub open spec fn exp_models(es: Seq<Exp>) -> Seq<Spanned<ExpModel>>
    decreases es,
{
    if es.len() == 0 {
        Seq::empty()
    } else {
        exp_models(es.drop_last()).push(Spanned { loc: es.last().loc, value: es.last().value.model() })
    }
}

pub open spec fn field_exp_models(fs: Seq<(Field, Exp)>) -> Seq<(NameModel, Spanned<ExpModel>)>
    decreases fs,
{
    if fs.len() == 0 {
        Seq::empty()
    } else {
        field_exp_models(fs.drop_last()).push(
            (fs.last().0@, Spanned { loc: fs.last().1.loc, value: fs.last().1.value.model() }),
        )
    }
}

impl SequenceItem_ {
    pub open spec fn model(self) -> SequenceItemModel
        decreases self,
    {
        match self {
            SequenceItem_::Expr(e) => SequenceItemModel::Expr(
                Box::new(Spanned { loc: e.loc, value: e.value.model() }),
            ),
            SequenceItem_::Declare(b, t) => SequenceItemModel::Declare(bind_list_view(b), opt_view(t)),
            SequenceItem_::Bind(b, t, e) => SequenceItemModel::Bind(
                bind_list_view(b),
                opt_view(t),
                Box::new(Spanned { loc: e.loc, value: e.value.model() }),
            ),
        }
    }
}

pub open spec fn item_models(items: Seq<SequenceItem>) -> Seq<Spanned<SequenceItemModel>>
    decreases items,
{
    if items.len() == 0 {
        Seq::empty()
    } else {
        item_models(items.drop_last()).push(
            Spanned { loc: items.last().loc, value: items.last().value.model() },
        )
    }
}

impl Sequence {
    pub open spec fn model(self) -> SequenceModel
        decreases self,
    {
        SequenceModel {
            uses: views(self.uses@),
            items: item_models(self.items@),
            semicolon: self.semicolon,
            tail: match self.tail {
                Some(x) => Some(Box::new(Spanned { loc: x.loc, value: x.value.model() })),
                None => None,
            },
        }
    }
}

impl View for Exp_ {
    type V = ExpModel;

    open spec fn view(&self) -> ExpModel {
        self.model()
    }
}

impl View for SequenceItem_ {
    type V = SequenceItemModel;

    open spec fn view(&self) -> SequenceItemModel {
        self.model()
    }
}

impl View for Sequence {
    type V = SequenceModel;

    open spec fn view(&self) -> SequenceModel {
        self.model()
    }
}

/// The view of an optional boxed expression.
pub open spec fn opt_exp_view(e: Option<Box<Exp>>) -> Option<Box<Spanned<ExpModel>>> {
    match e {
        Some(x) => Some(Box::new((*x)@)),
        None => None,
    }
}

/// The model of a list of expressions is the list of their views.
pub proof fn exp_models_are_views(es: Seq<Exp>)
    ensures
        exp_models(es) == views(es),
    decreases es.len(),
{
    if es.len() > 0 {
        exp_models_are_views(es.drop_last());
        assert(views(es.drop_last()).len() == es.len() - 1);
        assert forall|i: int| 0 <= i < es.len() implies exp_models(es)[i] == views(es)[i] by {
            if i < es.len() - 1 {
                assert(views(es.drop_last())[i] == es.drop_last()[i]@);
            }
        }
    }
    assert(exp_models(es) =~= views(es));
}

/// The model of a list of field initializers is the list of their views.
pub proof fn field_exp_models_are_views(fs: Seq<(Field, Exp)>)
    ensures
        field_exp_models(fs) == views(fs),
    decreases fs.len(),
{
    if fs.len() > 0 {
        field_exp_models_are_views(fs.drop_last());
        assert(views(fs.drop_last()).len() == fs.len() - 1);
        assert forall|i: int| 0 <= i < fs.len() implies field_exp_models(fs)[i] == views(fs)[i] by {
            if i < fs.len() - 1 {
                assert(views(fs.drop_last())[i] == fs.drop_last()[i]@);
            }
        }
    }
    assert(field_exp_models(fs) =~= views(fs));
}

/// The model of a list of statements is the list of their views.
pub proof fn item_models_are_views(items: Seq<SequenceItem>)
    ensures
        item_models(items) == views(items),
    decreases items.len(),
{
    if items.len() > 0 {
        item_models_are_views(items.drop_last());
        assert(views(items.drop_last()).len() == items.len() - 1);
        assert forall|i: int| 0 <= i < items.len() implies item_models(items)[i] == views(items)[i] by {
            if i < items.len() - 1 {
                assert(views(items.drop_last())[i] == items.drop_last()[i]@);
            }
        }
    }
    assert(item_models(items) =~= views(items));
}

/// The view of an expression, one level down, in terms of the views of its
/// parts.
pub broadcast proof fn exp_view_unfolds(e: Exp_)
    ensures
        #[trigger] e.model() == (match e {
            Exp_::Value(v) => ExpModel::Value(v@),
            Exp_::Move(v) => ExpModel::Move(v@),
            Exp_::Copy(v) => ExpModel::Copy(v@),
            Exp_::Name(c, ts) => ExpModel::Name(c@, opt_views(ts)),
            Exp_::Call(c, m, ts, es) => ExpModel::Call(
                c@,
                m,
                opt_views(ts),
                Spanned { loc: es.loc, value: views(es.value@) },
            ),
            Exp_::Pack(c, ts, fs) => ExpModel::Pack(c@, opt_views(ts), views(fs@)),
            Exp_::Vector(l, ts, es) => ExpModel::Vector(
                l,
                opt_views(ts),
                Spanned { loc: es.loc, value: views(es.value@) },
            ),
            Exp_::IfElse(c, t, e) => ExpModel::IfElse(Box::new((*c)@), Box::new((*t)@), opt_exp_view(e)),
            Exp_::While(c, b) => ExpModel::While(Box::new((*c)@), Box::new((*b)@)),
            Exp_::Loop(b) => ExpModel::Loop(Box::new((*b)@)),
            Exp_::Block(s) => ExpModel::Block(s@),
            Exp_::Lambda(n) => ExpModel::Lambda(n),
            Exp_::Quant(n) => ExpModel::Quant(n),
            Exp_::ExpList(es) => ExpModel::ExpList(views(es@)),
            Exp_::Unit => ExpModel::Unit,
            Exp_::Assign(l, r) => ExpModel::Assign(Box::new((*l)@), Box::new((*r)@)),
            Exp_::Return(e) => ExpModel::Return(opt_exp_view(e)),
            Exp_::Abort(e) => ExpModel::Abort(Box::new((*e)@)),
            Exp_::Break => ExpModel::Break,
            Exp_::Continue => ExpModel::Continue,
            Exp_::Dereference(e) => ExpModel::Dereference(Box::new((*e)@)),
            Exp_::UnaryExp(op, e) => ExpModel::UnaryExp(op, Box::new((*e)@)),
            Exp_::BinopExp(l, op, r) => ExpModel::BinopExp(Box::new((*l)@), op, Box::new((*r)@)),
            Exp_::Borrow(m, e) => ExpModel::Borrow(m, Box::new((*e)@)),
            Exp_::Dot(e, n) => ExpModel::Dot(Box::new((*e)@), n@),
            Exp_::Index(e, i) => ExpModel::Index(Box::new((*e)@), Box::new((*i)@)),
            Exp_::Cast(e, t) => ExpModel::Cast(Box::new((*e)@), t@),
            Exp_::Annotate(e, t) => ExpModel::Annotate(Box::new((*e)@), t@),
            Exp_::Spec(n) => ExpModel::Spec(n),
            Exp_::UnresolvedError => ExpModel::UnresolvedError,
        }),
{
    match e {
        Exp_::Call(c, m, ts, es) => exp_models_are_views(es.value@),
        Exp_::Pack(c, ts, fs) => field_exp_models_are_views(fs@),
        Exp_::Vector(l, ts, es) => exp_models_are_views(es.value@),
        Exp_::ExpList(es) => exp_models_are_views(es@),
        _ => {},
    }
}

/// The view of a statement, one level down.
pub broadcast proof fn item_view_unfolds(i: SequenceItem_)
    ensures
        #[trigger] i.model() == (match i {
            SequenceItem_::Expr(e) => SequenceItemModel::Expr(Box::new((*e)@)),
            SequenceItem_::Declare(b, t) => SequenceItemModel::Declare(bind_list_view(b), opt_view(t)),
            SequenceItem_::Bind(b, t, e) => SequenceItemModel::Bind(
                bind_list_view(b),
                opt_view(t),
                Box::new((*e)@),
            ),
        }),
{
}

/// The view of a block, one level down.
pub broadcast proof fn sequence_view_unfolds(s: Sequence)
    ensures
        #[trigger] s.model() == (SequenceModel {
            uses: views(s.uses@),
            items: views(s.items@),
            semicolon: s.semicolon,
            tail: opt_exp_view(s.tail),
        }),
{
    item_models_are_views(s.items@);
}

pub broadcast group syntax_views {
    type_view_unfolds,
    bind_view_unfolds,
    exp_view_unfolds,
    item_view_unfolds,
    sequence_view_unfolds,
}

/// A copy of an expression.
pub fn clone_exp(e: &Exp) -> (r: Exp)
    ensures
        r@ == e@,
    decreases e,
{
    Spanned { loc: e.loc, value: e.value.clone() }
}

/// A copy of an optional boxed expression.
pub fn clone_opt_exp(e: &Option<Box<Exp>>) -> (r: Option<Box<Exp>>)
    ensures
        opt_exp_view(r) == opt_exp_view(*e),
    decreases e,
{
    match e {
        Some(x) => Some(Box::new(clone_exp(x))),
        None => None,
    }
}

/// A copy of a list of expressions.
pub fn clone_exps(es: &Vec<Exp>) -> (r: Vec<Exp>)
    ensures
        views(r@) == views(es@),
    decreases es,
{
    let mut out: Vec<Exp> = Vec::new();
    let mut i: usize = 0;
    while i < es.len()
        invariant
            i <= es.len(),
            out.len() == i,
            forall|j: int| 0 <= j < i ==> out[j]@ == es[j]@,
        decreases es.len() - i,
    {
        out.push(clone_exp(&es[i]));
        i += 1;
    }
    proof {
        views_pointwise(out@, es@);
    }
    out
}

/// A copy of a list of field initializers.
pub fn clone_field_exps(fs: &Vec<(Field, Exp)>) -> (r: Vec<(Field, Exp)>)
    ensures
        views(r@) == views(fs@),
    decreases fs,
{
    let mut out: Vec<(Field, Exp)> = Vec::new();
    let mut i: usize = 0;
    while i < fs.len()
        invariant
            i <= fs.len(),
            out.len() == i,
            forall|j: int| 0 <= j < i ==> out[j]@ == fs[j]@,
        decreases fs.len() - i,
    {
        let f = clone_name(&fs[i].0);
        let e = clone_exp(&fs[i].1);
        out.push((f, e));
        i += 1;
    }
    proof {
        views_pointwise(out@, fs@);
    }
    out
}

/// A copy of an optional type.
pub fn clone_opt_type(t: &Option<Type>) -> (r: Option<Type>)
    ensures
        opt_view(r) == opt_view(*t),
{
    match t {
        Some(x) => Some(clone_type(x)),
        None => None,
    }
}

/// A copy of a list of `use` declarations.
pub fn clone_uses(us: &Vec<UseDecl>) -> (r: Vec<UseDecl>)
    ensures
        views(r@) == views(us@),
{
    let mut out: Vec<UseDecl> = Vec::new();
    let mut i: usize = 0;
    while i < us.len()
        invariant
            i <= us.len(),
            out.len() == i,
            forall|j: int| 0 <= j < i ==> out[j]@ == us[j]@,
        decreases us.len() - i,
    {
        out.push(us[i].clone());
        i += 1;
    }
    proof {
        views_pointwise(out@, us@);
    }
    out
}

/// A copy of a list of statements.
pub fn clone_items(items: &Vec<SequenceItem>) -> (r: Vec<SequenceItem>)
    ensures
        views(r@) == views(items@),
    decreases items,
{
    let mut out: Vec<SequenceItem> = Vec::new();
    let mut i: usize = 0;
    while i < items.len()
        invariant
            i <= items.len(),
            out.len() == i,
            forall|j: int| 0 <= j < i ==> out[j]@ == items[j]@,
        decreases items.len() - i,
    {
        out.push(Spanned { loc: items[i].loc, value: items[i].value.clone() });
        i += 1;
    }
    proof {
        views_pointwise(out@, items@);
    }
    out
}

impl Clone for Exp_ {
    fn clone(&self) -> (r: Self)
        ensures
            r@ == self@,
        decreases self,
    {
        broadcast use exp_view_unfolds;

        match self {
            Exp_::Value(v) => Exp_::Value(Spanned { loc: v.loc, value: v.value.clone() }),
            Exp_::Move(v) => Exp_::Move(clone_name(v)),
            Exp_::Copy(v) => Exp_::Copy(clone_name(v)),
            Exp_::Name(c, ts) => Exp_::Name(clone_chain(c), clone_opt_types(ts)),
            Exp_::Call(c, m, ts, es) => Exp_::Call(
                clone_chain(c),
                *m,
                clone_opt_types(ts),
                Spanned { loc: es.loc, value: clone_exps(&es.value) },
            ),
            Exp_::Pack(c, ts, fs) => Exp_::Pack(
                clone_chain(c),
                clone_opt_types(ts),
                clone_field_exps(fs),
            ),
            Exp_::Vector(l, ts, es) => Exp_::Vector(
                *l,
                clone_opt_types(ts),
                Spanned { loc: es.loc, value: clone_exps(&es.value) },
            ),
            Exp_::IfElse(c, t, e) => Exp_::IfElse(
                Box::new(clone_exp(c)),
                Box::new(clone_exp(t)),
                clone_opt_exp(e),
            ),
            Exp_::While(c, b) => Exp_::While(Box::new(clone_exp(c)), Box::new(clone_exp(b))),
            Exp_::Loop(b) => Exp_::Loop(Box::new(clone_exp(b))),
            Exp_::Block(s) => Exp_::Block(s.clone()),
            Exp_::Lambda(n) => Exp_::Lambda(*n),
            Exp_::Quant(n) => Exp_::Quant(*n),
            Exp_::ExpList(es) => Exp_::ExpList(clone_exps(es)),
            Exp_::Unit => Exp_::Unit,
            Exp_::Assign(l, r) => Exp_::Assign(Box::new(clone_exp(l)), Box::new(clone_exp(r))),
            Exp_::Return(e) => Exp_::Return(clone_opt_exp(e)),
            Exp_::Abort(e) => Exp_::Abort(Box::new(clone_exp(e))),
            Exp_::Break => Exp_::Break,
            Exp_::Continue => Exp_::Continue,
            Exp_::Dereference(e) => Exp_::Dereference(Box::new(clone_exp(e))),
            Exp_::UnaryExp(op, e) => Exp_::UnaryExp(*op, Box::new(clone_exp(e))),
            Exp_::BinopExp(l, op, r) => Exp_::BinopExp(
                Box::new(clone_exp(l)),
                *op,
                Box::new(clone_exp(r)),
            ),
            Exp_::Borrow(m, e) => Exp_::Borrow(*m, Box::new(clone_exp(e))),
            Exp_::Dot(e, n) => Exp_::Dot(Box::new(clone_exp(e)), clone_name(n)),
            Exp_::Index(e, i) => Exp_::Index(Box::new(clone_exp(e)), Box::new(clone_exp(i))),
            Exp_::Cast(e, t) => Exp_::Cast(Box::new(clone_exp(e)), clone_type(t)),
            Exp_::Annotate(e, t) => Exp_::Annotate(Box::new(clone_exp(e)), clone_type(t)),
            Exp_::Spec(n) => Exp_::Spec(*n),
            Exp_::UnresolvedError => Exp_::UnresolvedError,
        }
    }
}

impl Clone for SequenceItem_ {
    fn clone(&self) -> (r: Self)
        ensures
            r@ == self@,
        decreases self,
    {
        broadcast use item_view_unfolds;

        match self {
            SequenceItem_::Expr(e) => SequenceItem_::Expr(Box::new(clone_exp(e))),
            SequenceItem_::Declare(b, t) => SequenceItem_::Declare(
                clone_bind_list(b),
                clone_opt_type(t),
            ),
            SequenceItem_::Bind(b, t, e) => SequenceItem_::Bind(
                clone_bind_list(b),
                clone_opt_type(t),
                Box::new(clone_exp(e)),
            ),
        }
    }
}

impl Clone for Sequence {
    fn clone(&self) -> (r: Self)
        ensures
            r@ == self@,
        decreases self,
    {
        broadcast use sequence_view_unfolds;

        Sequence {
            uses: clone_uses(&self.uses),
            items: clone_items(&self.items),
            semicolon: self.semicolon,
            tail: clone_opt_exp(&self.tail),
        }
    }
}

/// A type parameter of a struct.
#[derive(Debug, PartialEq, Eq)]
pub struct StructTypeParameter {
    pub is_phantom: bool,
    pub name: Name,
    pub constraints: Vec<Ability>,
}

pub struct StructTypeParameterModel {
    pub is_phantom: bool,
    pub name: NameModel,
    pub constraints: Seq<Ability>,
}

impl View for StructTypeParameter {
    type V = StructTypeParameterModel;

    open spec fn view(&self) -> StructTypeParameterModel {
        StructTypeParameterModel {
            is_phantom: self.is_phantom,
            name: self.name@,
            constraints: self.constraints@,
        }
    }
}

impl Clone for StructTypeParameter {
    fn clone(&self) -> (r: Self)
        ensures
            r@ == self@,
    {
        StructTypeParameter {
            is_phantom: self.is_phantom,
            name: clone_name(&self.name),
            constraints: clone_abilities(&self.constraints),
        }
    }
}

/// A copy of a list of struct type parameters.
pub fn clone_struct_type_parameters(ps: &Vec<StructTypeParameter>) -> (r: Vec<StructTypeParameter>)
    ensures
        views(r@) == views(ps@),
{
    let mut out: Vec<StructTypeParameter> = Vec::new();
    let mut i: usize = 0;
    while i < ps.len()
        invariant
            i <= ps.len(),
            out.len() == i,
            forall|j: int| 0 <= j < i ==> out[j]@ == ps[j]@,
        decreases ps.len() - i,
    {
        out.push(ps[i].clone());
        i += 1;
    }
    proof {
        views_pointwise(out@, ps@);
    }
    out
}

/// A copy of a list of type parameters, each with its constraints.
pub fn clone_type_parameters(ps: &Vec<(Name, Vec<Ability>)>) -> (r: Vec<(Name, Vec<Ability>)>)
    ensures
        views(r@) == views(ps@),
{
    let mut out: Vec<(Name, Vec<Ability>)> = Vec::new();
    let mut i: usize = 0;
    while i < ps.len()
        invariant
            i <= ps.len(),
            out.len() == i,
            forall|j: int| 0 <= j < i ==> out[j]@ == ps[j]@,
        decreases ps.len() - i,
    {
        out.push((clone_name(&ps[i].0), clone_abilities(&ps[i].1)));
        i += 1;
    }
    proof {
        views_pointwise(out@, ps@);
    }
    out
}

/// The fields of a struct, or the place where it is declared native.
#[derive(Debug, PartialEq, Eq)]
pub enum StructFields {
    Defined(Vec<(Field, Type)>),
    Native(Loc),
}

pub enum StructFieldsModel {
    Defined(Seq<(NameModel, Spanned<TypeModel>)>),
    Native(Loc),
}

impl View for StructFields {
    type V = StructFieldsModel;

    open spec fn view(&self) -> StructFieldsModel {
        match self {
            StructFields::Defined(fs) => StructFieldsModel::Defined(views(fs@)),
            StructFields::Native(l) => StructFieldsModel::Native(*l),
        }
    }
}

/// A struct declaration.
#[derive(Debug, PartialEq, Eq)]
pub struct StructDefinition {
    pub loc: Loc,
    pub name: StructName,
    pub type_parameters: Vec<StructTypeParameter>,
    pub fields: StructFields,
}

pub struct StructDefinitionModel {
    pub loc: Loc,
    pub name: NameModel,
    pub type_parameters: Seq<StructTypeParameterModel>,
    pub fields: StructFieldsModel,
}

impl View for StructDefinition {
    type V = StructDefinitionModel;

    open spec fn view(&self) -> StructDefinitionModel {
        StructDefinitionModel {
            loc: self.loc,
            name: self.name@,
            type_parameters: views(self.type_parameters@),
            fields: self.fields@,
        }
    }
}

/// The header of a function: type parameters with their constraints,
/// parameters with their types, and the return type.
#[derive(Debug, PartialEq, Eq)]
pub struct FunctionSignature {
    pub type_parameters: Vec<(Name, Vec<Ability>)>,
    pub parameters: Vec<(Var, Type)>,
    pub return_type: Type,
}

pub struct FunctionSignatureModel {
    pub type_parameters: Seq<(NameModel, Seq<Ability>)>,
    pub parameters: Seq<(NameModel, Spanned<TypeModel>)>,
    pub return_type: Spanned<TypeModel>,
}

impl View for FunctionSignature {
    type V = FunctionSignatureModel;

    open spec fn view(&self) -> FunctionSignatureModel {
        FunctionSignatureModel {
            type_parameters: views(self.type_parameters@),
            parameters: views(self.parameters@),
            return_type: self.return_type@,
        }
    }
}

#[derive(Debug, PartialEq, Eq)]
pub enum FunctionBody_ {
    Defined(Sequence),
    Native,
}

pub type FunctionBody = Spanned<FunctionBody_>;

pub enum FunctionBodyModel {
    Defined(SequenceModel),
    Native,
}

impl View for FunctionBody_ {
    type V = FunctionBodyModel;

    open spec fn view(&self) -> FunctionBodyModel {
        match self {
            FunctionBody_::Defined(s) => FunctionBodyModel::Defined(s@),
            FunctionBody_::Native => FunctionBodyModel::Native,
        }
    }
}

/// A function declaration. Attributes, visibility and the `acquires` list
/// are not carried: no rule reads them.
#[derive(Debug, PartialEq, Eq)]
pub struct Function {
    pub loc: Loc,
    pub signature: FunctionSignature,
    pub name: FunctionName,
    pub body: FunctionBody,
}

pub struct FunctionModel {
    pub loc: Loc,
    pub signature: FunctionSignatureModel,
    pub name: NameModel,
    pub body: Spanned<FunctionBodyModel>,
}

impl View for Function {
    type V = FunctionModel;

    open spec fn view(&self) -> FunctionModel {
        FunctionModel {
            loc: self.loc,
            signature: self.signature@,
            name: self.name@,
            body: self.body@,
        }
    }
}

/// A member of a module that the analysis looks at.
#[derive(Debug, PartialEq, Eq)]
pub enum ModuleMember {
    Function(Function),
    Struct(StructDefinition),
}

pub enum ModuleMemberModel {
    Function(FunctionModel),
    Struct(StructDefinitionModel),
}

impl View for ModuleMember {
    type V = ModuleMemberModel;

    open spec fn view(&self) -> ModuleMemberModel {
        match self {
            ModuleMember::Function(f) => ModuleMemberModel::Function(f@),
            ModuleMember::Struct(s) => ModuleMemberModel::Struct(s@),
        }
    }
}

/// A module declaration. The address is there when the module is written as
/// `module a::m`, and absent inside an `address a { .. }` block.
#[derive(Debug, PartialEq, Eq)]
pub struct ModuleDefinition {
    pub loc: Loc,
    pub address: Option<LeadingNameAccess>,
    pub name: ModuleName,
    pub members: Vec<ModuleMember>,
}

pub struct ModuleDefinitionModel {
    pub loc: Loc,
    pub address: Option<Spanned<LeadingNameAccessModel>>,
    pub name: NameModel,
    pub members: Seq<ModuleMemberModel>,
}

impl View for ModuleDefinition {
    type V = ModuleDefinitionModel;

    open spec fn view(&self) -> ModuleDefinitionModel {
        ModuleDefinitionModel {
            loc: self.loc,
            address: opt_view(self.address),
            name: self.name@,
            members: views(self.members@),
        }
    }
}

/// An `address a { .. }` block with its modules.
#[derive(Debug, PartialEq, Eq)]
pub struct AddressDefinition {
    pub loc: Loc,
    pub addr: LeadingNameAccess,
    pub modules: Vec<ModuleDefinition>,
}

pub struct AddressDefinitionModel {
    pub loc: Loc,
    pub addr: Spanned<LeadingNameAccessModel>,
    pub modules: Seq<ModuleDefinitionModel>,
}

impl View for AddressDefinition {
    type V = AddressDefinitionModel;

    open spec fn view(&self) -> AddressDefinitionModel {
        AddressDefinitionModel { loc: self.loc, addr: self.addr@, modules: views(self.modules@) }
    }
}

/// A script: one function.
#[derive(Debug, PartialEq, Eq)]
pub struct Script {
    pub loc: Loc,
    pub function: Function,
}

pub struct ScriptModel {
    pub loc: Loc,
    pub function: FunctionModel,
}

impl View for Script {
    type V = ScriptModel;

    open spec fn view(&self) -> ScriptModel {
        ScriptModel { loc: self.loc, function: self.function@ }
    }
}

/// What one source file declares at its top level.
#[derive(Debug, PartialEq, Eq)]
pub enum Definition {
    Module(ModuleDefinition),
    Address(AddressDefinition),
    Script(Script),
}

pub enum DefinitionModel {
    Module(ModuleDefinitionModel),
    Address(AddressDefinitionModel),
    Script(ScriptModel),
}

impl View for Definition {
    type V = DefinitionModel;

    open spec fn view(&self) -> DefinitionModel {
        match self {
            Definition::Module(m) => DefinitionModel::Module(m@),
            Definition::Address(a) => DefinitionModel::Address(a@),
            Definition::Script(s) => DefinitionModel::Script(s@),
        }
    }
}

} // verus!
