//! The signature rewriters and the body wrapper.
//!
//! Three policies share one shape: compute the generated type name, build the
//! generated declaration from the method's declared return type, append one
//! fresh lifetime parameter, and point the return type at the generated name.
//! They differ in where the generated declaration lives (abstract associated
//! type, concrete associated type, top-level alias) and in how the name is
//! derived (from the method name alone, or combined with the enclosing
//! interface's name).

use vstd::prelude::*;
use vstd::string::StringExecFns;
use crate::ast::{
    AssocTypeView, Body, BodyView, ImplAssocType, ReturnKind, ReturnKindView, Signature,
    SignatureView, TraitAssocType, TypeAlias, TypeExpr, TypeExprView,
};
use crate::name::{generated_name, segments_nonempty, underline2camel};

verus! {

/// The one lifetime parameter appended to every rewritten signature.
pub open spec fn lifetime_param() -> Seq<char> {
    "'async_trait"@
}

/// The output type of a generated declaration: whatever the method declared,
/// or nothing (unit) if it declared none.
pub open spec fn declared_output(o: ReturnKindView) -> Option<TypeExprView> {
    match o {
        ReturnKindView::Default => Option::None,
        ReturnKindView::Declared(t) => Option::Some(t),
    }
}

/// A signature with the lifetime parameter appended and its return type
/// pointing at `target`; nothing else moves.
pub open spec fn sig_retargeted(s: SignatureView, target: TypeExprView) -> SignatureView {
    SignatureView {
        name: s.name,
        generics: s.generics.push(lifetime_param()),
        is_async: s.is_async,
        output: ReturnKindView::Declared(target),
    }
}

/// The interface policy: the return type names the implementer's binding of
/// the generated associated type.
pub open spec fn trait_sig_rewritten(s: SignatureView) -> SignatureView {
    sig_retargeted(s, TypeExprView::SelfAssoc(generated_name(s.name)))
}

/// The implementation policy retargets the same way as the interface policy.
pub open spec fn impl_sig_rewritten(s: SignatureView) -> SignatureView {
    sig_retargeted(s, TypeExprView::SelfAssoc(generated_name(s.name)))
}

/// The default-body policy: the return type names the top-level alias, whose
/// name combines the method's and the enclosing interface's names.
pub open spec fn default_sig_rewritten(s: SignatureView, iface: Seq<char>) -> SignatureView {
    sig_retargeted(s, TypeExprView::Named(generated_name(s.name + iface)))
}

/// The generated declaration for a signature under the interface or the
/// implementation policy.
pub open spec fn assoc_for(s: SignatureView) -> AssocTypeView {
    AssocTypeView { name: generated_name(s.name), output: declared_output(s.output) }
}

/// The generated top-level alias for a default-bodied method of the
/// interface named `iface`.
pub open spec fn default_alias_for(s: SignatureView, iface: Seq<char>) -> AssocTypeView {
    AssocTypeView { name: generated_name(s.name + iface), output: declared_output(s.output) }
}

/// A body wrapped so that invoking the method builds the future instead of
/// running the inner body.
pub open spec fn wrapped_body(b: BodyView) -> BodyView {
    BodyView::FutureBlock(Box::new(b))
}

/// An exact copy of a type expression.
fn clone_type_expr(t: &TypeExpr) -> (r: TypeExpr)
    ensures
        r@ == t@,
{
    match t {
        TypeExpr::Tokens(s) => TypeExpr::Tokens(s.clone()),
        TypeExpr::SelfAssoc(s) => TypeExpr::SelfAssoc(s.clone()),
        TypeExpr::Named(s) => TypeExpr::Named(s.clone()),
    }
}

/// The declared return type of `output`, copied for the generated
/// declaration.
fn copy_declared_output(output: &ReturnKind) -> (r: Option<TypeExpr>)
    ensures
        match r {
            Option::None => declared_output(output@) is None,
            Option::Some(t) => declared_output(output@) == Option::Some(t@),
        },
{
    match output {
        ReturnKind::Default => Option::None,
        ReturnKind::Declared(t) => Option::Some(clone_type_expr(t)),
    }
}

/// The lifetime parameter, as token text.
fn lifetime_string() -> (r: String)
    ensures
        r@ == lifetime_param(),
{
    String::from_str("'async_trait")
}

/// Wraps a method body: the new body's single expression builds a future
/// around the original block's logic rather than running it to completion.
/// The future is single-shot and move-captures its inputs; driving it to
/// completion is the caller's business, not this transform's.
pub fn get_async_block(_sig: &Signature, block: Body) -> (r: Body)
    ensures
        r@ == wrapped_body(block@),
{
    Body::FutureBlock(Box::new(block))
}

/// The interface policy on one signature: builds the abstract associated
/// type, appends the lifetime parameter, and retargets the return type.
/// The asynchronous marker is left for the caller to clear.
pub fn generate_signature_for_trait(sig: &mut Signature) -> (t: TraitAssocType)
    requires
        segments_nonempty(old(sig).name@),
    ensures
        final(sig)@ == trait_sig_rewritten(old(sig)@),
        t@ == assoc_for(old(sig)@),
{
    let camel_name = underline2camel(&sig.name);
    let output = copy_declared_output(&sig.output);
    let true_type = TraitAssocType { name: camel_name.clone(), output };
    let lt = lifetime_string();
    sig.generics.push(lt);
    sig.output = ReturnKind::Declared(TypeExpr::SelfAssoc(camel_name));
    proof {
        assert(final(sig).generics.deep_view() =~= old(sig).generics.deep_view().push(
            lifetime_param(),
        ));
        assert(final(sig)@ == trait_sig_rewritten(old(sig)@));
    }
    true_type
}

/// The implementation policy on one signature: as the interface policy, but
/// the generated declaration will be bound concretely by the caller.
pub fn generate_signature_for_impl(sig: &mut Signature) -> (t: ImplAssocType)
    requires
        segments_nonempty(old(sig).name@),
    ensures
        final(sig)@ == impl_sig_rewritten(old(sig)@),
        t@ == assoc_for(old(sig)@),
{
    let camel_name = underline2camel(&sig.name);
    let output = copy_declared_output(&sig.output);
    let true_type = ImplAssocType { name: camel_name.clone(), output };
    let lt = lifetime_string();
    sig.generics.push(lt);
    sig.output = ReturnKind::Declared(TypeExpr::SelfAssoc(camel_name));
    proof {
        assert(final(sig).generics.deep_view() =~= old(sig).generics.deep_view().push(
            lifetime_param(),
        ));
        assert(final(sig)@ == impl_sig_rewritten(old(sig)@));
    }
    true_type
}

/// The default-body policy on one signature: builds the top-level alias named
/// after the method and the interface `trait_prefix`, appends the lifetime
/// parameter, and retargets the return type at the alias directly.
pub fn generate_signature_for_default(trait_prefix: &String, sig: &mut Signature) -> (t: TypeAlias)
    requires
        segments_nonempty(old(sig).name@ + trait_prefix@),
    ensures
        final(sig)@ == default_sig_rewritten(old(sig)@, trait_prefix@),
        t@ == default_alias_for(old(sig)@, trait_prefix@),
{
    let combined = sig.name.clone().concat(trait_prefix.as_str());
    let camel_name = underline2camel(&combined);
    let output = copy_declared_output(&sig.output);
    let true_type = TypeAlias { name: camel_name.clone(), output };
    let lt = lifetime_string();
    sig.generics.push(lt);
    sig.output = ReturnKind::Declared(TypeExpr::Named(camel_name));
    proof {
        assert(final(sig).generics.deep_view() =~= old(sig).generics.deep_view().push(
            lifetime_param(),
        ));
        assert(final(sig)@ == default_sig_rewritten(old(sig)@, trait_prefix@));
    }
    true_type
}

} // verus!
