//! Laws of the transform, stated over the same spec functions its contracts
//! use: how many declarations each pass generates, and that the identifier
//! formatter never maps two distinct strictly snake-case names to one
//! generated name.

use vstd::prelude::*;
use crate::ast::{ImplMemberView, ItemView, TraitMemberView};
use crate::expand::{
    count_async_with_default, count_async_without_default, count_methods, impl_generated,
    impl_members_rewritten, item_aliases, trait_aliases, trait_generated, trait_members_rewritten,
};
use crate::name::{
    camel_chars, generated_name, lemma_camel_chars_split, lemma_split_at_least_one, name_prefix,
    segments_nonempty, split_segments, tail_segments_nonempty, to_upper,
};

verus! {

/// Exactly one associated type is generated per asynchronous method without
/// a default body in an interface declaration — and none for any other
/// member — and exactly one top-level alias per asynchronous method with a
/// default body, and none for any other member.  Rewriting itself never
/// changes how many members the declaration has.
pub proof fn lemma_interface_counts(ms: Seq<TraitMemberView>, iface: Seq<char>)
    ensures
        trait_members_rewritten(ms, iface).len() == ms.len(),
        trait_generated(ms).len() == count_async_without_default(ms),
        trait_aliases(ms, iface).len() == count_async_with_default(ms),
    decreases ms.len(),
{
    if ms.len() == 0 {
    } else {
        lemma_interface_counts(ms.drop_last(), iface);
    }
}

/// An interface declaration whose asynchronous methods all lack default
/// bodies emits no top-level alias at all.
pub proof fn lemma_no_default_no_aliases(t: crate::ast::InterfaceDeclView)
    requires
        count_async_with_default(t.members) == 0,
    ensures
        item_aliases(ItemView::Trait(t)) =~= Seq::<crate::ast::AssocTypeView>::empty(),
{
    lemma_interface_counts(t.members, t.name);
}

/// Exactly one associated type is generated per method of an implementation
/// block — whether or not the method was asynchronous — and none for any
/// other member.  Rewriting itself never changes how many members the block
/// has.
pub proof fn lemma_impl_counts(ms: Seq<ImplMemberView>)
    ensures
        impl_members_rewritten(ms).len() == ms.len(),
        impl_generated(ms).len() == count_methods(ms),
    decreases ms.len(),
{
    if ms.len() == 0 {
    } else {
        lemma_impl_counts(ms.drop_last());
    }
}

/// Holds unless the member is a method still carrying the asynchronous
/// marker.
pub open spec fn trait_marker_cleared(m: TraitMemberView) -> bool {
    match m {
        TraitMemberView::Method(tm) => !tm.sig.is_async,
        _ => true,
    }
}

/// Holds unless the member is a method still carrying the asynchronous
/// marker.
pub open spec fn impl_marker_cleared(m: ImplMemberView) -> bool {
    match m {
        ImplMemberView::Method(im) => !im.sig.is_async,
        _ => true,
    }
}

/// After the interface pass no method signature retains the asynchronous
/// marker, and everything the scan generated is an associated type.
pub proof fn lemma_interface_markers_cleared(ms: Seq<TraitMemberView>, iface: Seq<char>)
    ensures
        forall|i: int|
            0 <= i < trait_members_rewritten(ms, iface).len() ==> trait_marker_cleared(
                #[trigger] trait_members_rewritten(ms, iface)[i],
            ),
        forall|i: int|
            0 <= i < trait_generated(ms).len() ==> (#[trigger] trait_generated(ms)[i])
                is AssocType,
    decreases ms.len(),
{
    if ms.len() > 0 {
        lemma_interface_markers_cleared(ms.drop_last(), iface);
    }
}

/// After the implementation pass no method signature retains the
/// asynchronous marker, and everything the scan generated is an associated
/// type.
pub proof fn lemma_impl_markers_cleared(ms: Seq<ImplMemberView>)
    ensures
        forall|i: int|
            0 <= i < impl_members_rewritten(ms).len() ==> impl_marker_cleared(
                #[trigger] impl_members_rewritten(ms)[i],
            ),
        forall|i: int|
            0 <= i < impl_generated(ms).len() ==> (#[trigger] impl_generated(ms)[i]) is AssocType,
    decreases ms.len(),
{
    if ms.len() > 0 {
        lemma_impl_markers_cleared(ms.drop_last());
    }
}

// ----------------------------------------------------------------------------
// Injectivity of the identifier formatter on strictly snake-case names.
// ----------------------------------------------------------------------------

pub open spec fn is_ascii_lower(c: char) -> bool {
    97 <= c as u32 && c as u32 <= 122
}

pub open spec fn is_ascii_upper(c: char) -> bool {
    65 <= c as u32 && c as u32 <= 90
}

pub open spec fn is_ascii_digit(c: char) -> bool {
    48 <= c as u32 && c as u32 <= 57
}

/// Lower-cases an ASCII upper-case letter; every other character is kept.
pub open spec fn to_lower(c: char) -> char {
    if is_ascii_upper(c) {
        ((c as u32) + 32) as char
    } else {
        c
    }
}

/// Strictly snake-case from a position: each segment non-empty, opening with
/// an ASCII lower-case letter and continuing with ASCII lower-case letters
/// or digits.  `at_start` says the position opens a segment.
pub open spec fn strict_snake_from(s: Seq<char>, at_start: bool) -> bool
    decreases s.len(),
{
    if s.len() == 0 {
        !at_start
    } else if at_start {
        is_ascii_lower(s[0]) && strict_snake_from(s.skip(1), false)
    } else if s[0] == '_' {
        strict_snake_from(s.skip(1), true)
    } else {
        (is_ascii_lower(s[0]) || is_ascii_digit(s[0])) && strict_snake_from(s.skip(1), false)
    }
}

/// A strictly snake-case identifier: non-empty segments of ASCII lower-case
/// letters and digits, each opening with a letter.
pub open spec fn strict_snake(s: Seq<char>) -> bool {
    strict_snake_from(s, true)
}

/// Recovers a snake-case name from its camel-cased form: an upper-case
/// letter opens a segment (an underscore before it, except at the very
/// start), everything else is kept.
pub open spec fn unsnake(c: Seq<char>, first: bool) -> Seq<char>
    decreases c.len(),
{
    if c.len() == 0 {
        Seq::<char>::empty()
    } else if is_ascii_upper(c[0]) {
        (if first {
            Seq::<char>::empty()
        } else {
            seq!['_']
        }) + seq![to_lower(c[0])] + unsnake(c.skip(1), false)
    } else {
        seq![c[0]] + unsnake(c.skip(1), false)
    }
}

/// A strictly snake-case name has no empty segment.
proof fn lemma_strict_segments(s: Seq<char>, at_start: bool)
    requires
        strict_snake_from(s, at_start),
    ensures
        at_start ==> segments_nonempty(s),
        !at_start ==> tail_segments_nonempty(s),
    decreases s.len(),
{
    lemma_split_at_least_one(s);
    if s.len() == 0 {
    } else if at_start {
        lemma_strict_segments(s.skip(1), false);
        lemma_split_at_least_one(s.skip(1));
        let rest = split_segments(s.skip(1));
        assert(s[0] != '_');
        assert(split_segments(s) == rest.update(0, seq![s[0]] + rest[0]));
        assert forall|i: int| 0 <= i < split_segments(s).len() implies (#[trigger] split_segments(
            s,
        )[i]).len() > 0 by {
            if i == 0 {
                assert(split_segments(s)[0] == seq![s[0]] + rest[0]);
            } else {
                assert(split_segments(s)[i] == rest[i]);
            }
        }
    } else if s[0] == '_' {
        lemma_strict_segments(s.skip(1), true);
        lemma_split_at_least_one(s.skip(1));
        let rest = split_segments(s.skip(1));
        assert(split_segments(s) == seq![Seq::<char>::empty()] + rest);
        assert forall|i: int| 1 <= i < split_segments(s).len() implies (#[trigger] split_segments(
            s,
        )[i]).len() > 0 by {
            assert(split_segments(s)[i] == rest[i - 1]);
        }
    } else {
        lemma_strict_segments(s.skip(1), false);
        lemma_split_at_least_one(s.skip(1));
        let rest = split_segments(s.skip(1));
        assert(split_segments(s) == rest.update(0, seq![s[0]] + rest[0]));
        assert forall|i: int| 1 <= i < split_segments(s).len() implies (#[trigger] split_segments(
            s,
        )[i]).len() > 0 by {
            assert(split_segments(s)[i] == rest[i]);
        }
    }
}

/// `unsnake` inverts the camel-casing pass on strictly snake-case input.
proof fn lemma_unsnake_inverts(s: Seq<char>, at_start: bool)
    requires
        strict_snake_from(s, at_start),
    ensures
        unsnake(camel_chars(s, at_start), at_start) == s,
    decreases s.len(),
{
    if s.len() == 0 {
        assert(camel_chars(s, at_start) =~= Seq::<char>::empty());
        assert(unsnake(Seq::<char>::empty(), at_start) =~= s);
    } else if s[0] == '_' {
        assert(!at_start);
        let tail = s.skip(1);
        assert(strict_snake_from(tail, true));
        lemma_unsnake_inverts(tail, true);
        let ct = camel_chars(tail, true);
        assert(camel_chars(s, false) == ct);
        if tail.len() == 0 {
            assert(!strict_snake_from(tail, true));
            assert(false);
        }
        assert(is_ascii_lower(tail[0]));
        assert(ct == seq![to_upper(tail[0])] + camel_chars(tail.skip(1), false));
        assert(ct[0] == to_upper(tail[0]));
        assert(ct[0] as u32 == tail[0] as u32 - 32);
        assert(is_ascii_upper(ct[0]));
        assert(unsnake(ct, false) =~= seq!['_'] + unsnake(ct, true));
        assert(seq!['_'] + unsnake(ct, true) =~= seq!['_'] + tail);
        assert(seq!['_'] + tail =~= s);
    } else if at_start {
        assert(is_ascii_lower(s[0]));
        lemma_unsnake_inverts(s.skip(1), false);
        let ct = camel_chars(s, true);
        assert(ct == seq![to_upper(s[0])] + camel_chars(s.skip(1), false));
        assert(ct[0] == to_upper(s[0]));
        assert(ct[0] as u32 == s[0] as u32 - 32);
        assert(is_ascii_upper(ct[0]));
        assert(to_lower(ct[0]) == ((s[0] as u32) as char));
        vstd::utf8::char_u32_cast(s[0], s[0] as u32);
        assert(((s[0] as u32) as char) == s[0]);
        assert(ct.skip(1) =~= camel_chars(s.skip(1), false));
        assert(unsnake(ct, true) =~= seq![s[0]] + unsnake(camel_chars(s.skip(1), false), false));
        assert(unsnake(ct, true) =~= s);
    } else {
        assert(is_ascii_lower(s[0]) || is_ascii_digit(s[0]));
        lemma_unsnake_inverts(s.skip(1), false);
        let ct = camel_chars(s, false);
        assert(ct == seq![s[0]] + camel_chars(s.skip(1), false));
        assert(ct[0] == s[0]);
        assert(!is_ascii_upper(ct[0]));
        assert(ct.skip(1) =~= camel_chars(s.skip(1), false));
        assert(unsnake(ct, false) =~= seq![s[0]] + unsnake(camel_chars(s.skip(1), false), false));
        assert(unsnake(ct, false) =~= s);
    }
}

/// The identifier formatter is injective on strictly snake-case names: two
/// distinct such names never share a generated type name.  (It is not
/// injective beyond them — a digit may open a segment of a valid name, and
/// then the segment boundary is lost.)
pub proof fn lemma_formatter_injective(s1: Seq<char>, s2: Seq<char>)
    requires
        strict_snake(s1),
        strict_snake(s2),
        generated_name(s1) == generated_name(s2),
    ensures
        s1 == s2,
{
    lemma_strict_segments(s1, true);
    lemma_strict_segments(s2, true);
    lemma_camel_chars_split(s1, true);
    lemma_camel_chars_split(s2, true);
    let p = name_prefix();
    assert(p + camel_chars(s1, true) == p + camel_chars(s2, true));
    assert(camel_chars(s1, true) =~= (p + camel_chars(s1, true)).skip(p.len() as int));
    assert(camel_chars(s2, true) =~= (p + camel_chars(s2, true)).skip(p.len() as int));
    assert(camel_chars(s1, true) == camel_chars(s2, true));
    lemma_unsnake_inverts(s1, true);
    lemma_unsnake_inverts(s2, true);
}

} // verus!
