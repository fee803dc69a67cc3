use vstd::prelude::*;
use crate::token::Tok;

verus! {

/// The three receiver disciplines a method may declare.
#[derive(Clone, Copy, PartialEq, Eq, Structural, Debug)]
pub enum Receiver {
    /// The receiver is taken by value and consumed.
    Owned,
    /// The receiver is taken by exclusive, mutable reference.
    MutRef,
    /// The receiver is taken by shared, read-only reference.
    Ref,
}

/// The input-shape violations the pipeline reports.  Every one of them is
/// detected before any output is produced and halts the whole expansion.
#[derive(Clone, Copy, PartialEq, Eq, Structural, Debug)]
pub enum Error {
    /// The annotated item is not an implementation block of the expected
    /// overall shape.
    Malformed,
    /// The block targets a type path more complex than a bare identifier.
    BadType,
    /// The block is trait-qualified rather than a bare implementation.
    ExpectedBareImpl,
    /// A member's first parameter is not a standard self-receiver, or a
    /// method has no receiver at all.
    ExpectedMethod,
}

/// One non-receiver parameter: its bound pattern and its declared type,
/// both carried verbatim.
pub struct Param {
    pub pat: Vec<Tok>,
    pub ty: Vec<Tok>,
}

/// The value of a parameter.
#[verifier::ext_equal]
pub struct ParamV {
    pub pat: Seq<Tok>,
    pub ty: Seq<Tok>,
}

impl View for Param {
    type V = ParamV;

    open spec fn view(&self) -> ParamV {
        ParamV { pat: self.pat@, ty: self.ty@ }
    }
}

/// The values, element by element, of a parameter sequence.
pub open spec fn params_v(ps: Seq<Param>) -> Seq<ParamV> {
    Seq::new(ps.len(), |i: int| ps[i]@)
}

/// The values, element by element, of a member sequence.
pub open spec fn members_v(ms: Seq<Member>) -> Seq<MemberV> {
    Seq::new(ms.len(), |i: int| ms[i]@)
}

/// One method definition, as the classifier extracts it.
pub struct MethodItem {
    /// Leading attributes, verbatim.
    pub attrs: Vec<Tok>,
    /// Visibility tokens, verbatim.
    pub vis: Vec<Tok>,
    /// The method's name.
    pub name: String,
    /// The receiver discipline.
    pub receiver: Receiver,
    /// The receiver fragment, verbatim.
    pub recv: Vec<Tok>,
    /// The non-receiver parameters, in declaration order.
    pub params: Vec<Param>,
    /// The return type; the unit tokens when no annotation was written.
    pub ret: Vec<Tok>,
    /// Whether the return type was written explicitly.
    pub explicit_ret: bool,
    /// The tokens of the method body, verbatim.
    pub body: Vec<Tok>,
}

/// The value of a method definition.
#[verifier::ext_equal]
pub struct MethodV {
    pub attrs: Seq<Tok>,
    pub vis: Seq<Tok>,
    pub name: Seq<char>,
    pub receiver: Receiver,
    pub recv: Seq<Tok>,
    pub params: Seq<ParamV>,
    pub ret: Seq<Tok>,
    pub explicit_ret: bool,
    pub body: Seq<Tok>,
}

impl View for MethodItem {
    type V = MethodV;

    open spec fn view(&self) -> MethodV {
        MethodV {
            attrs: self.attrs@,
            vis: self.vis@,
            name: self.name@,
            receiver: self.receiver,
            recv: self.recv@,
            params: params_v(self.params@),
            ret: self.ret@,
            explicit_ret: self.explicit_ret,
            body: self.body@,
        }
    }
}

/// One member of the block: a method, or any other associated item,
/// carried verbatim.
pub enum Member {
    Method(MethodItem),
    Other(Vec<Tok>),
}

/// The value of a member.
#[verifier::ext_equal]
pub enum MemberV {
    Method(MethodV),
    Other(Seq<Tok>),
}

impl View for Member {
    type V = MemberV;

    open spec fn view(&self) -> MemberV {
        match self {
            Member::Method(m) => MemberV::Method(m@),
            Member::Other(t) => MemberV::Other(t@),
        }
    }
}

/// The three reusable fragments of the block's generics: the
/// declaration-site list (with bounds), the use-site arguments (bare
/// names), and the where-clause (with its keyword), all verbatim.
pub struct Generics {
    pub decl: Vec<Tok>,
    pub use_args: Vec<Tok>,
    pub where_toks: Vec<Tok>,
}

/// The value of the generics fragments.
#[verifier::ext_equal]
pub struct GenericsV {
    pub decl: Seq<Tok>,
    pub use_args: Seq<Tok>,
    pub where_toks: Seq<Tok>,
}

impl View for Generics {
    type V = GenericsV;

    open spec fn view(&self) -> GenericsV {
        GenericsV {
            decl: self.decl@,
            use_args: self.use_args@,
            where_toks: self.where_toks@,
        }
    }
}

/// The parsed implementation block.
pub struct ImplBlock {
    /// Attributes standing before the block, verbatim.
    pub attrs: Vec<Tok>,
    /// The name of the target type (a bare identifier).
    pub ty_name: String,
    /// The block's generics fragments.
    pub generics: Generics,
    /// The members, in declaration order.
    pub members: Vec<Member>,
}

/// The value of an implementation block.
#[verifier::ext_equal]
pub struct BlockV {
    pub attrs: Seq<Tok>,
    pub ty_name: Seq<char>,
    pub generics: GenericsV,
    pub members: Seq<MemberV>,
}

impl View for ImplBlock {
    type V = BlockV;

    open spec fn view(&self) -> BlockV {
        BlockV {
            attrs: self.attrs@,
            ty_name: self.ty_name@,
            generics: self.generics@,
            members: members_v(self.members@),
        }
    }
}

} // verus!
