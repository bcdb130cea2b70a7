//! The orchestrator: dispatches on the declaration kind, runs the right
//! rewriter policy over every member in declaration order, and appends the
//! generated declarations after all original members (two-phase: the scan
//! collects them aside, one append follows it, so the list being read is
//! never the list being grown).
//!
//! Running the transform on its own output is not meaningful: rewritten
//! signatures no longer carry the asynchronous marker, so no rewriter policy
//! matches them again.

use vstd::prelude::*;
use crate::ast::{
    AssocTypeView, ImplBlock, ImplBlockView, ImplMember, ImplMemberView, ImplMethodView,
    ImplMethod, InterfaceDecl, InterfaceDeclView, Item, ItemView, SignatureView, TraitMember,
    TraitMemberView, TraitMethod, TraitMethodView, TypeAlias,
};
use crate::name::segments_nonempty;
use crate::rewrite::{
    assoc_for, default_alias_for, default_sig_rewritten, generate_signature_for_default,
    generate_signature_for_impl, generate_signature_for_trait, get_async_block, impl_sig_rewritten,
    trait_sig_rewritten, wrapped_body,
};

verus! {

/// One interface member after its rewrite: an asynchronous method without a
/// default body goes through the interface policy, one with a default body
/// through the default-body policy (body wrapped, alias-targeted return
/// type); in either case the asynchronous marker is cleared.  Every other
/// member is untouched.
pub open spec fn trait_member_rewritten(m: TraitMemberView, iface: Seq<char>) -> TraitMemberView {
    match m {
        TraitMemberView::Method(tm) => match tm.default {
            Option::None => if tm.sig.is_async {
                TraitMemberView::Method(
                    TraitMethodView {
                        sig: SignatureView { is_async: false, ..trait_sig_rewritten(tm.sig) },
                        default: Option::None,
                    },
                )
            } else {
                m
            },
            Option::Some(b) => if tm.sig.is_async {
                TraitMemberView::Method(
                    TraitMethodView {
                        sig: SignatureView {
                            is_async: false,
                            ..default_sig_rewritten(tm.sig, iface)
                        },
                        default: Option::Some(wrapped_body(b)),
                    },
                )
            } else {
                m
            },
        },
        _ => m,
    }
}

/// The associated types one interface member gives rise to: exactly one for
/// an asynchronous method without a default body, none otherwise.
pub open spec fn gen_of_trait_member(m: TraitMemberView) -> Seq<TraitMemberView> {
    match m {
        TraitMemberView::Method(tm) => match tm.default {
            Option::None => if tm.sig.is_async {
                seq![TraitMemberView::AssocType(assoc_for(tm.sig))]
            } else {
                Seq::<TraitMemberView>::empty()
            },
            Option::Some(_) => Seq::<TraitMemberView>::empty(),
        },
        _ => Seq::<TraitMemberView>::empty(),
    }
}

/// The top-level aliases one interface member gives rise to: exactly one for
/// an asynchronous method with a default body, none otherwise.
pub open spec fn alias_of_trait_member(m: TraitMemberView, iface: Seq<char>) -> Seq<AssocTypeView> {
    match m {
        TraitMemberView::Method(tm) => match tm.default {
            Option::None => Seq::<AssocTypeView>::empty(),
            Option::Some(_) => if tm.sig.is_async {
                seq![default_alias_for(tm.sig, iface)]
            } else {
                Seq::<AssocTypeView>::empty()
            },
        },
        _ => Seq::<AssocTypeView>::empty(),
    }
}

/// The members of an interface declaration after the rewrite pass, before
/// the generated associated types are appended.
pub open spec fn trait_members_rewritten(ms: Seq<TraitMemberView>, iface: Seq<char>) -> Seq<
    TraitMemberView,
> {
    ms.map_values(|m: TraitMemberView| trait_member_rewritten(m, iface))
}

/// The associated types generated by a scan of `ms`, in declaration order.
pub open spec fn trait_generated(ms: Seq<TraitMemberView>) -> Seq<TraitMemberView>
    decreases ms.len(),
{
    if ms.len() == 0 {
        Seq::<TraitMemberView>::empty()
    } else {
        trait_generated(ms.drop_last()) + gen_of_trait_member(ms.last())
    }
}

/// The top-level aliases generated by a scan of `ms`, in declaration order.
pub open spec fn trait_aliases(ms: Seq<TraitMemberView>, iface: Seq<char>) -> Seq<AssocTypeView>
    decreases ms.len(),
{
    if ms.len() == 0 {
        Seq::<AssocTypeView>::empty()
    } else {
        trait_aliases(ms.drop_last(), iface) + alias_of_trait_member(ms.last(), iface)
    }
}

/// One implementation member after its rewrite: every method — asynchronous
/// or not — has its body wrapped, the lifetime parameter appended, its return
/// type pointed at the generated associated type, and the asynchronous marker
/// cleared.  Every other member is untouched.
pub open spec fn impl_member_rewritten(m: ImplMemberView) -> ImplMemberView {
    match m {
        ImplMemberView::Method(im) => ImplMemberView::Method(
            ImplMethodView {
                sig: SignatureView { is_async: false, ..impl_sig_rewritten(im.sig) },
                body: wrapped_body(im.body),
            },
        ),
        _ => m,
    }
}

/// The associated types one implementation member gives rise to: exactly one
/// for every method, none for anything else.
pub open spec fn gen_of_impl_member(m: ImplMemberView) -> Seq<ImplMemberView> {
    match m {
        ImplMemberView::Method(im) => seq![ImplMemberView::AssocType(assoc_for(im.sig))],
        _ => Seq::<ImplMemberView>::empty(),
    }
}

/// The members of an implementation block after the rewrite pass, before the
/// generated associated types are appended.
pub open spec fn impl_members_rewritten(ms: Seq<ImplMemberView>) -> Seq<ImplMemberView> {
    ms.map_values(|m: ImplMemberView| impl_member_rewritten(m))
}

/// The associated types generated by a scan of `ms`, in declaration order.
pub open spec fn impl_generated(ms: Seq<ImplMemberView>) -> Seq<ImplMemberView>
    decreases ms.len(),
{
    if ms.len() == 0 {
        Seq::<ImplMemberView>::empty()
    } else {
        impl_generated(ms.drop_last()) + gen_of_impl_member(ms.last())
    }
}

/// The whole item after the transform: rewritten members first, generated
/// associated types appended after all of them.
pub open spec fn item_expanded(it: ItemView) -> ItemView {
    match it {
        ItemView::Trait(t) => ItemView::Trait(
            InterfaceDeclView {
                name: t.name,
                members: trait_members_rewritten(t.members, t.name) + trait_generated(t.members),
            },
        ),
        ItemView::Impl(b) => ItemView::Impl(
            ImplBlockView { members: impl_members_rewritten(b.members) + impl_generated(b.members) },
        ),
    }
}

/// The top-level aliases the transform emits alongside the item, in
/// generation order.  Only default-bodied asynchronous interface methods
/// produce any.
pub open spec fn item_aliases(it: ItemView) -> Seq<AssocTypeView> {
    match it {
        ItemView::Trait(t) => trait_aliases(t.members, t.name),
        ItemView::Impl(_) => Seq::<AssocTypeView>::empty(),
    }
}

/// An interface member that is an asynchronous method without a default body.
pub open spec fn is_async_without_default(m: TraitMemberView) -> bool {
    match m {
        TraitMemberView::Method(tm) => tm.sig.is_async && match tm.default {
            Option::None => true,
            Option::Some(_) => false,
        },
        _ => false,
    }
}

/// An interface member that is an asynchronous method with a default body.
pub open spec fn is_async_with_default(m: TraitMemberView) -> bool {
    match m {
        TraitMemberView::Method(tm) => tm.sig.is_async && match tm.default {
            Option::None => false,
            Option::Some(_) => true,
        },
        _ => false,
    }
}

/// How many members of `ms` are asynchronous methods without a default body.
pub open spec fn count_async_without_default(ms: Seq<TraitMemberView>) -> nat
    decreases ms.len(),
{
    if ms.len() == 0 {
        0nat
    } else {
        count_async_without_default(ms.drop_last()) + if is_async_without_default(ms.last()) {
            1nat
        } else {
            0nat
        }
    }
}

/// How many members of `ms` are asynchronous methods with a default body.
pub open spec fn count_async_with_default(ms: Seq<TraitMemberView>) -> nat
    decreases ms.len(),
{
    if ms.len() == 0 {
        0nat
    } else {
        count_async_with_default(ms.drop_last()) + if is_async_with_default(ms.last()) {
            1nat
        } else {
            0nat
        }
    }
}

/// An implementation member that is a method, asynchronous or not.
pub open spec fn is_method(m: ImplMemberView) -> bool {
    match m {
        ImplMemberView::Method(_) => true,
        _ => false,
    }
}

/// How many members of `ms` are methods.
pub open spec fn count_methods(ms: Seq<ImplMemberView>) -> nat
    decreases ms.len(),
{
    if ms.len() == 0 {
        0nat
    } else {
        count_methods(ms.drop_last()) + if is_method(ms.last()) {
            1nat
        } else {
            0nat
        }
    }
}

/// The name-generation precondition for one interface member: the name fed
/// to the identifier formatter has no empty segment.
pub open spec fn trait_member_wf(m: TraitMemberView, iface: Seq<char>) -> bool {
    match m {
        TraitMemberView::Method(tm) => match tm.default {
            Option::None => tm.sig.is_async ==> segments_nonempty(tm.sig.name),
            Option::Some(_) => tm.sig.is_async ==> segments_nonempty(tm.sig.name + iface),
        },
        _ => true,
    }
}

/// The name-generation precondition for one implementation member.
pub open spec fn impl_member_wf(m: ImplMemberView) -> bool {
    match m {
        ImplMemberView::Method(im) => segments_nonempty(im.sig.name),
        _ => true,
    }
}

/// Every name the transform would feed to the identifier formatter has no
/// empty segment; an item violating this is outside the transform's domain.
pub open spec fn item_wf(it: ItemView) -> bool {
    match it {
        ItemView::Trait(t) => forall|i: int|
            0 <= i < t.members.len() ==> trait_member_wf(#[trigger] t.members[i], t.name),
        ItemView::Impl(b) => forall|i: int|
            0 <= i < b.members.len() ==> impl_member_wf(#[trigger] b.members[i]),
    }
}

#[verifier::loop_isolation(false)]
fn expand_trait(decl: InterfaceDecl) -> (res: (InterfaceDecl, Vec<TypeAlias>))
    requires
        forall|i: int|
            0 <= i < decl@.members.len() ==> trait_member_wf(
                #[trigger] decl@.members[i],
                decl@.name,
            ),
    ensures
        res.0@.name == decl@.name,
        res.0@.members == trait_members_rewritten(decl@.members, decl@.name) + trait_generated(
            decl@.members,
        ),
        res.1.deep_view() == trait_aliases(decl@.members, decl@.name),
{
    let ghost orig = decl@.members;
    let ghost iface = decl@.name;
    let InterfaceDecl { name, mut members } = decl;
    let ghost orig_vec = members@;
    let orig_len = members.len();
    let mut rewritten: Vec<TraitMember> = Vec::new();
    let mut generated: Vec<TraitMember> = Vec::new();
    let mut aliases: Vec<TypeAlias> = Vec::new();
    let mut i: usize = 0;
    proof {
        assert(orig.len() == orig_vec.len());
        assert(forall|j: int|
            0 <= j < orig_vec.len() ==> orig[j] == (#[trigger] orig_vec[j]).deep_view());
        assert(members@ =~= orig_vec.skip(0));
        assert(orig.take(0) =~= Seq::<TraitMemberView>::empty());
        assert(rewritten.deep_view() =~= trait_members_rewritten(orig.take(0), iface));
        assert(generated.deep_view() =~= trait_generated(orig.take(0)));
        assert(aliases.deep_view() =~= trait_aliases(orig.take(0), iface));
    }
    while members.len() > 0
        invariant
            orig_vec.len() == orig_len,
            i + members.len() == orig_vec.len(),
            members@ == orig_vec.skip(i as int),
            rewritten.deep_view() == trait_members_rewritten(orig.take(i as int), iface),
            generated.deep_view() == trait_generated(orig.take(i as int)),
            aliases.deep_view() == trait_aliases(orig.take(i as int), iface),
        decreases members.len(),
    {
        let m = members.remove(0);
        let ghost m0 = orig[i as int];
        proof {
            assert(m == orig_vec[i as int]);
            assert(members@ =~= orig_vec.skip(i + 1 as int));
            assert(m.deep_view() == m0);
            assert(trait_member_wf(m0, iface));
        }
        match m {
            TraitMember::Method(method) => {
                let TraitMethod { mut sig, default } = method;
                let ghost s0 = sig@;
                match default {
                    Option::None => {
                        if sig.is_async {
                            let assoc = generate_signature_for_trait(&mut sig);
                            sig.is_async = false;
                            generated.push(TraitMember::AssocType(assoc));
                            rewritten.push(
                                TraitMember::Method(TraitMethod { sig, default: Option::None }),
                            );
                            proof {
                                assert(trait_member_rewritten(m0, iface)
                                    == TraitMemberView::Method(
                                    TraitMethodView {
                                        sig: SignatureView {
                                            is_async: false,
                                            ..trait_sig_rewritten(s0)
                                        },
                                        default: Option::None,
                                    },
                                ));
                                assert(gen_of_trait_member(m0) =~= seq![
                                    TraitMemberView::AssocType(assoc_for(s0)),
                                ]);
                            }
                        } else {
                            rewritten.push(
                                TraitMember::Method(TraitMethod { sig, default: Option::None }),
                            );
                            proof {
                                assert(trait_member_rewritten(m0, iface) == m0);
                                assert(gen_of_trait_member(m0) =~= Seq::<TraitMemberView>::empty());
                            }
                        }
                    },
                    Option::Some(b) => {
                        if sig.is_async {
                            let ghost b0 = b@;
                            let wrapped = get_async_block(&sig, b);
                            let alias = generate_signature_for_default(&name, &mut sig);
                            sig.is_async = false;
                            aliases.push(alias);
                            rewritten.push(
                                TraitMember::Method(
                                    TraitMethod { sig, default: Option::Some(wrapped) },
                                ),
                            );
                            proof {
                                assert(trait_member_rewritten(m0, iface)
                                    == TraitMemberView::Method(
                                    TraitMethodView {
                                        sig: SignatureView {
                                            is_async: false,
                                            ..default_sig_rewritten(s0, iface)
                                        },
                                        default: Option::Some(wrapped_body(b0)),
                                    },
                                ));
                                assert(alias_of_trait_member(m0, iface) =~= seq![
                                    default_alias_for(s0, iface),
                                ]);
                            }
                        } else {
                            rewritten.push(
                                TraitMember::Method(TraitMethod { sig, default: Option::Some(b) }),
                            );
                            proof {
                                assert(trait_member_rewritten(m0, iface) == m0);
                            }
                        }
                    },
                }
            },
            TraitMember::AssocType(t) => {
                rewritten.push(TraitMember::AssocType(t));
                proof {
                    assert(trait_member_rewritten(m0, iface) == m0);
                }
            },
            TraitMember::Other(s) => {
                rewritten.push(TraitMember::Other(s));
                proof {
                    assert(trait_member_rewritten(m0, iface) == m0);
                }
            },
        }
        proof {
            assert(orig.take(i + 1 as int).drop_last() =~= orig.take(i as int));
            assert(orig.take(i + 1 as int).last() == m0);
            assert(trait_generated(orig.take(i + 1 as int)) == trait_generated(orig.take(i as int))
                + gen_of_trait_member(m0));
            assert(trait_aliases(orig.take(i + 1 as int), iface) == trait_aliases(
                orig.take(i as int),
                iface,
            ) + alias_of_trait_member(m0, iface));
            assert(trait_members_rewritten(orig.take(i + 1 as int), iface)
                =~= trait_members_rewritten(orig.take(i as int), iface).push(
                trait_member_rewritten(m0, iface),
            ));
            assert(rewritten.deep_view() =~= trait_members_rewritten(orig.take(i + 1 as int), iface));
            assert(generated.deep_view() =~= trait_generated(orig.take(i + 1 as int)));
            assert(aliases.deep_view() =~= trait_aliases(orig.take(i + 1 as int), iface));
        }
        i = i + 1;
    }
    proof {
        assert(orig.take(i as int) =~= orig);
    }
    let mut out_members = rewritten;
    out_members.append(&mut generated);
    proof {
        assert(out_members.deep_view() =~= trait_members_rewritten(orig, iface) + trait_generated(
            orig,
        ));
    }
    (InterfaceDecl { name, members: out_members }, aliases)
}

#[verifier::loop_isolation(false)]
fn expand_impl(block: ImplBlock) -> (res: ImplBlock)
    requires
        forall|i: int| 0 <= i < block@.members.len() ==> impl_member_wf(#[trigger] block@.members[i]),
    ensures
        res@.members == impl_members_rewritten(block@.members) + impl_generated(block@.members),
{
    let ghost orig = block@.members;
    let ImplBlock { mut members } = block;
    let ghost orig_vec = members@;
    let orig_len = members.len();
    let mut rewritten: Vec<ImplMember> = Vec::new();
    let mut generated: Vec<ImplMember> = Vec::new();
    let mut i: usize = 0;
    proof {
        assert(orig.len() == orig_vec.len());
        assert(forall|j: int|
            0 <= j < orig_vec.len() ==> orig[j] == (#[trigger] orig_vec[j]).deep_view());
        assert(members@ =~= orig_vec.skip(0));
        assert(orig.take(0) =~= Seq::<ImplMemberView>::empty());
        assert(rewritten.deep_view() =~= impl_members_rewritten(orig.take(0)));
        assert(generated.deep_view() =~= impl_generated(orig.take(0)));
    }
    while members.len() > 0
        invariant
            orig_vec.len() == orig_len,
            i + members.len() == orig_vec.len(),
            members@ == orig_vec.skip(i as int),
            rewritten.deep_view() == impl_members_rewritten(orig.take(i as int)),
            generated.deep_view() == impl_generated(orig.take(i as int)),
        decreases members.len(),
    {
        let m = members.remove(0);
        let ghost m0 = orig[i as int];
        proof {
            assert(m == orig_vec[i as int]);
            assert(members@ =~= orig_vec.skip(i + 1 as int));
            assert(m.deep_view() == m0);
            assert(impl_member_wf(m0));
        }
        match m {
            ImplMember::Method(method) => {
                let ImplMethod { mut sig, body } = method;
                let ghost s0 = sig@;
                let ghost b0 = body@;
                let wrapped = get_async_block(&sig, body);
                let assoc = generate_signature_for_impl(&mut sig);
                sig.is_async = false;
                generated.push(ImplMember::AssocType(assoc));
                rewritten.push(ImplMember::Method(ImplMethod { sig, body: wrapped }));
                proof {
                    assert(impl_member_rewritten(m0) == ImplMemberView::Method(
                        ImplMethodView {
                            sig: SignatureView { is_async: false, ..impl_sig_rewritten(s0) },
                            body: wrapped_body(b0),
                        },
                    ));
                    assert(gen_of_impl_member(m0) =~= seq![
                        ImplMemberView::AssocType(assoc_for(s0)),
                    ]);
                }
            },
            ImplMember::AssocType(t) => {
                rewritten.push(ImplMember::AssocType(t));
                proof {
                    assert(impl_member_rewritten(m0) == m0);
                }
            },
            ImplMember::Other(s) => {
                rewritten.push(ImplMember::Other(s));
                proof {
                    assert(impl_member_rewritten(m0) == m0);
                }
            },
        }
        proof {
            assert(orig.take(i + 1 as int).drop_last() =~= orig.take(i as int));
            assert(orig.take(i + 1 as int).last() == m0);
            assert(impl_generated(orig.take(i + 1 as int)) == impl_generated(orig.take(i as int))
                + gen_of_impl_member(m0));
            assert(impl_members_rewritten(orig.take(i + 1 as int)) =~= impl_members_rewritten(
                orig.take(i as int),
            ).push(impl_member_rewritten(m0)));
            assert(rewritten.deep_view() =~= impl_members_rewritten(orig.take(i + 1 as int)));
            assert(generated.deep_view() =~= impl_generated(orig.take(i + 1 as int)));
        }
        i = i + 1;
    }
    proof {
        assert(orig.take(i as int) =~= orig);
    }
    let mut out_members = rewritten;
    out_members.append(&mut generated);
    proof {
        assert(out_members.deep_view() =~= impl_members_rewritten(orig) + impl_generated(orig));
    }
    ImplBlock { members: out_members }
}

/// The transform.  The one item handed in is mutated in place — an interface
/// declaration or an implementation block, rewritten member by member with
/// the generated associated types appended after all original members — and
/// the generated top-level aliases come back, in generation order, for the
/// caller to emit ahead of the item.
pub fn expand(input: &mut Item) -> (aliases: Vec<TypeAlias>)
    requires
        item_wf(old(input)@),
    ensures
        final(input)@ == item_expanded(old(input)@),
        aliases.deep_view() == item_aliases(old(input)@),
{
    let mut taken = Item::Impl(ImplBlock { members: Vec::new() });
    core::mem::swap(input, &mut taken);
    match taken {
        Item::Trait(decl) => {
            let (out, aliases) = expand_trait(decl);
            *input = Item::Trait(out);
            aliases
        },
        Item::Impl(block) => {
            let out = expand_impl(block);
            *input = Item::Impl(out);
            let aliases: Vec<TypeAlias> = Vec::new();
            proof {
                assert(aliases.deep_view() =~= Seq::<AssocTypeView>::empty());
            }
            aliases
        },
    }
}

} // verus!
