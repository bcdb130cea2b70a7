//! The structured tree that the transform works on.
//!
//! An external parser delivers one [`Item`] — an interface declaration or an
//! implementation block — and an external renderer turns the mutated item
//! (together with the generated top-level aliases) back into token form.
//! Everything the transform itself never inspects is carried through as
//! opaque token text.

use vstd::prelude::*;

verus! {

/// A type expression, as far as the transform distinguishes one.
#[derive(Debug, PartialEq, Eq)]
pub enum TypeExpr {
    /// An arbitrary type expression, carried through as opaque token text.
    Tokens(String),
    /// A reference, qualified by `Self`, to a generated associated type.
    SelfAssoc(String),
    /// A direct reference to a generated top-level alias.
    Named(String),
}

/// A method's declared return type: either none (unit) or a type expression.
#[derive(Debug, PartialEq, Eq)]
pub enum ReturnKind {
    Default,
    Declared(TypeExpr),
}

/// A method signature: the fields the transform reads and rewrites.
#[derive(Debug, PartialEq, Eq)]
pub struct Signature {
    pub name: String,
    /// Token text of each generic parameter, in declaration order.
    pub generics: Vec<String>,
    pub is_async: bool,
    pub output: ReturnKind,
}

/// A method body. The transform never looks inside a body; it only wraps one
/// into a block that builds a single-shot future instead of running eagerly.
#[derive(Debug, PartialEq, Eq)]
pub enum Body {
    /// Original statements, as opaque token text.
    Source(String),
    /// A block whose single expression constructs a future around the inner
    /// body's logic; invoking the method yields the future without running it.
    FutureBlock(Box<Body>),
}

/// A method of an interface declaration, with an optional default body.
#[derive(Debug, PartialEq, Eq)]
pub struct TraitMethod {
    pub sig: Signature,
    pub default: Option<Body>,
}

/// An abstract associated-type declaration inside an interface:
/// `type Name: Future<Output = T>;` (`T` absent means unit).
#[derive(Debug, PartialEq, Eq)]
pub struct TraitAssocType {
    pub name: String,
    pub output: Option<TypeExpr>,
}

/// A member of an interface declaration.
#[derive(Debug, PartialEq, Eq)]
pub enum TraitMember {
    Method(TraitMethod),
    AssocType(TraitAssocType),
    /// Any other member, carried through untouched as opaque token text.
    Other(String),
}

/// A method of an implementation block, with its mandatory body.
#[derive(Debug, PartialEq, Eq)]
pub struct ImplMethod {
    pub sig: Signature,
    pub body: Body,
}

/// A concrete associated-type binding inside an implementation block:
/// `type Name = impl Future<Output = T>;` (`T` absent means unit).
#[derive(Debug, PartialEq, Eq)]
pub struct ImplAssocType {
    pub name: String,
    pub output: Option<TypeExpr>,
}

/// A member of an implementation block.
#[derive(Debug, PartialEq, Eq)]
pub enum ImplMember {
    Method(ImplMethod),
    AssocType(ImplAssocType),
    /// Any other member, carried through untouched as opaque token text.
    Other(String),
}

/// A concrete top-level alias emitted alongside an interface declaration:
/// `type Name = impl Future<Output = T>;` (`T` absent means unit).
#[derive(Debug, PartialEq, Eq)]
pub struct TypeAlias {
    pub name: String,
    pub output: Option<TypeExpr>,
}

/// An interface (trait-like) declaration: its name and its members.
#[derive(Debug, PartialEq, Eq)]
pub struct InterfaceDecl {
    pub name: String,
    pub members: Vec<TraitMember>,
}

/// An implementation block: its members.
#[derive(Debug, PartialEq, Eq)]
pub struct ImplBlock {
    pub members: Vec<ImplMember>,
}

/// The one declaration handed to the transform.
#[derive(Debug, PartialEq, Eq)]
pub enum Item {
    Trait(InterfaceDecl),
    Impl(ImplBlock),
}

// ----------------------------------------------------------------------------
// Mathematical views: each tree type is modelled by a ghost value over
// `Seq<char>`, so that contracts speak of the text the tree denotes rather
// than of particular `String` allocations.
// ----------------------------------------------------------------------------

pub ghost enum TypeExprView {
    Tokens(Seq<char>),
    SelfAssoc(Seq<char>),
    Named(Seq<char>),
}

pub ghost enum ReturnKindView {
    Default,
    Declared(TypeExprView),
}

pub ghost struct SignatureView {
    pub name: Seq<char>,
    pub generics: Seq<Seq<char>>,
    pub is_async: bool,
    pub output: ReturnKindView,
}

pub ghost enum BodyView {
    Source(Seq<char>),
    FutureBlock(Box<BodyView>),
}

pub ghost struct TraitMethodView {
    pub sig: SignatureView,
    pub default: Option<BodyView>,
}

pub ghost struct AssocTypeView {
    pub name: Seq<char>,
    pub output: Option<TypeExprView>,
}

pub ghost enum TraitMemberView {
    Method(TraitMethodView),
    AssocType(AssocTypeView),
    Other(Seq<char>),
}

pub ghost struct ImplMethodView {
    pub sig: SignatureView,
    pub body: BodyView,
}

pub ghost enum ImplMemberView {
    Method(ImplMethodView),
    AssocType(AssocTypeView),
    Other(Seq<char>),
}

pub ghost struct InterfaceDeclView {
    pub name: Seq<char>,
    pub members: Seq<TraitMemberView>,
}

pub ghost struct ImplBlockView {
    pub members: Seq<ImplMemberView>,
}

pub ghost enum ItemView {
    Trait(InterfaceDeclView),
    Impl(ImplBlockView),
}

impl View for TypeExpr {
    type V = TypeExprView;

    open spec fn view(&self) -> TypeExprView {
        match self {
            TypeExpr::Tokens(s) => TypeExprView::Tokens(s@),
            TypeExpr::SelfAssoc(s) => TypeExprView::SelfAssoc(s@),
            TypeExpr::Named(s) => TypeExprView::Named(s@),
        }
    }
}

impl View for ReturnKind {
    type V = ReturnKindView;

    open spec fn view(&self) -> ReturnKindView {
        match self {
            ReturnKind::Default => ReturnKindView::Default,
            ReturnKind::Declared(t) => ReturnKindView::Declared(t@),
        }
    }
}

impl View for Signature {
    type V = SignatureView;

    open spec fn view(&self) -> SignatureView {
        SignatureView {
            name: self.name@,
            generics: self.generics.deep_view(),
            is_async: self.is_async,
            output: self.output@,
        }
    }
}

pub open spec fn body_view(b: Body) -> BodyView
    decreases b,
{
    match b {
        Body::Source(s) => BodyView::Source(s@),
        Body::FutureBlock(inner) => BodyView::FutureBlock(Box::new(body_view(*inner))),
    }
}

impl View for Body {
    type V = BodyView;

    open spec fn view(&self) -> BodyView {
        body_view(*self)
    }
}

impl View for TraitMethod {
    type V = TraitMethodView;

    open spec fn view(&self) -> TraitMethodView {
        TraitMethodView {
            sig: self.sig@,
            default: match self.default {
                Option::None => Option::None,
                Option::Some(b) => Option::Some(body_view(b)),
            },
        }
    }
}

impl View for TraitAssocType {
    type V = AssocTypeView;

    open spec fn view(&self) -> AssocTypeView {
        AssocTypeView {
            name: self.name@,
            output: match self.output {
                Option::None => Option::None,
                Option::Some(t) => Option::Some(t@),
            },
        }
    }
}

impl View for TraitMember {
    type V = TraitMemberView;

    open spec fn view(&self) -> TraitMemberView {
        match self {
            TraitMember::Method(m) => TraitMemberView::Method(m@),
            TraitMember::AssocType(t) => TraitMemberView::AssocType(t@),
            TraitMember::Other(s) => TraitMemberView::Other(s@),
        }
    }
}

impl DeepView for TraitMember {
    type V = TraitMemberView;

    open spec fn deep_view(&self) -> TraitMemberView {
        self.view()
    }
}

impl View for ImplMethod {
    type V = ImplMethodView;

    open spec fn view(&self) -> ImplMethodView {
        ImplMethodView { sig: self.sig@, body: self.body@ }
    }
}

impl View for ImplAssocType {
    type V = AssocTypeView;

    open spec fn view(&self) -> AssocTypeView {
        AssocTypeView {
            name: self.name@,
            output: match self.output {
                Option::None => Option::None,
                Option::Some(t) => Option::Some(t@),
            },
        }
    }
}

impl View for ImplMember {
    type V = ImplMemberView;

    open spec fn view(&self) -> ImplMemberView {
        match self {
            ImplMember::Method(m) => ImplMemberView::Method(m@),
            ImplMember::AssocType(t) => ImplMemberView::AssocType(t@),
            ImplMember::Other(s) => ImplMemberView::Other(s@),
        }
    }
}

impl DeepView for ImplMember {
    type V = ImplMemberView;

    open spec fn deep_view(&self) -> ImplMemberView {
        self.view()
    }
}

impl View for TypeAlias {
    type V = AssocTypeView;

    open spec fn view(&self) -> AssocTypeView {
        AssocTypeView {
            name: self.name@,
            output: match self.output {
                Option::None => Option::None,
                Option::Some(t) => Option::Some(t@),
            },
        }
    }
}

impl DeepView for TypeAlias {
    type V = AssocTypeView;

    open spec fn deep_view(&self) -> AssocTypeView {
        self.view()
    }
}

impl View for InterfaceDecl {
    type V = InterfaceDeclView;

    open spec fn view(&self) -> InterfaceDeclView {
        InterfaceDeclView { name: self.name@, members: self.members.deep_view() }
    }
}

impl View for ImplBlock {
    type V = ImplBlockView;

    open spec fn view(&self) -> ImplBlockView {
        ImplBlockView { members: self.members.deep_view() }
    }
}

impl View for Item {
    type V = ItemView;

    open spec fn view(&self) -> ItemView {
        match self {
            Item::Trait(t) => ItemView::Trait(t@),
            Item::Impl(i) => ItemView::Impl(i@),
        }
    }
}

} // verus!
