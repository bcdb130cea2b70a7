//! The identifier formatter: a snake-case method name becomes the name of the
//! generated future-returning type, `"FutureReturnType"` followed by each
//! underscore-separated segment with its first character upper-cased.

use vstd::prelude::*;
use vstd::string::{StrSliceExecFns, StringExecFns};

verus! {

/// The fixed prefix of every generated type name.
pub open spec fn name_prefix() -> Seq<char> {
    "FutureReturnType"@
}

/// Upper-cases an ASCII lower-case letter; every other character is kept.
pub open spec fn to_upper(c: char) -> char {
    if 97 <= c as u32 && c as u32 <= 122 {
        ((c as u32) - 32) as char
    } else {
        c
    }
}

/// The underscore-separated segments of `s`, separators removed.  An empty
/// sequence has one empty segment; `n` separators give `n + 1` segments.
pub open spec fn split_segments(s: Seq<char>) -> Seq<Seq<char>>
    decreases s.len(),
{
    if s.len() == 0 {
        seq![Seq::<char>::empty()]
    } else if s[0] == '_' {
        seq![Seq::<char>::empty()] + split_segments(s.skip(1))
    } else {
        let rest = split_segments(s.skip(1));
        rest.update(0, seq![s[0]] + rest[0])
    }
}

/// Every underscore-separated segment of `s` is non-empty: `s` neither is
/// empty, nor starts or ends with an underscore, nor holds two in a row.
pub open spec fn segments_nonempty(s: Seq<char>) -> bool {
    forall|i: int|
        0 <= i < split_segments(s).len() ==> (#[trigger] split_segments(s)[i]).len() > 0
}

/// Every segment but the first is non-empty.
pub open spec fn tail_segments_nonempty(s: Seq<char>) -> bool {
    forall|i: int|
        1 <= i < split_segments(s).len() ==> (#[trigger] split_segments(s)[i]).len() > 0
}

/// A segment with its first character upper-cased and the rest unchanged.
pub open spec fn capitalize(seg: Seq<char>) -> Seq<char> {
    seq![to_upper(seg[0])] + seg.skip(1)
}

/// The concatenation of the capitalized segments.
pub open spec fn camel_concat(segs: Seq<Seq<char>>) -> Seq<char>
    decreases segs.len(),
{
    if segs.len() == 0 {
        Seq::<char>::empty()
    } else {
        capitalize(segs[0]) + camel_concat(segs.skip(1))
    }
}

/// The generated type name for the method name `name`.
pub open spec fn generated_name(name: Seq<char>) -> Seq<char> {
    name_prefix() + camel_concat(split_segments(name))
}

/// The same character-by-character: upper-case a character standing at the
/// start of a segment, drop separators, keep everything else.
pub open spec fn camel_chars(s: Seq<char>, at_start: bool) -> Seq<char>
    decreases s.len(),
{
    if s.len() == 0 {
        Seq::<char>::empty()
    } else if s[0] == '_' {
        camel_chars(s.skip(1), true)
    } else if at_start {
        seq![to_upper(s[0])] + camel_chars(s.skip(1), false)
    } else {
        seq![s[0]] + camel_chars(s.skip(1), false)
    }
}

/// There is always at least one segment.
pub proof fn lemma_split_at_least_one(s: Seq<char>)
    ensures
        split_segments(s).len() >= 1,
    decreases s.len(),
{
    if s.len() == 0 {
    } else if s[0] == '_' {
        lemma_split_at_least_one(s.skip(1));
    } else {
        lemma_split_at_least_one(s.skip(1));
    }
}

/// The character-by-character pass agrees with the segment-based definition:
/// started at a segment boundary it capitalizes every segment; started inside
/// a segment it keeps the first segment's remainder unchanged.
pub proof fn lemma_camel_chars_split(s: Seq<char>, at_start: bool)
    requires
        at_start ==> segments_nonempty(s),
        !at_start ==> tail_segments_nonempty(s),
    ensures
        at_start ==> camel_chars(s, true) == camel_concat(split_segments(s)),
        !at_start ==> camel_chars(s, false) == split_segments(s)[0] + camel_concat(
            split_segments(s).skip(1),
        ),
    decreases s.len(),
{
    lemma_split_at_least_one(s);
    if s.len() == 0 {
        if at_start {
            assert(split_segments(s)[0].len() > 0);
            assert(false);
        } else {
            assert(split_segments(s) == seq![Seq::<char>::empty()]);
            assert(split_segments(s).skip(1) =~= Seq::<Seq<char>>::empty());
            assert(camel_chars(s, false) =~= split_segments(s)[0] + camel_concat(
                split_segments(s).skip(1),
            ));
        }
    } else if s[0] == '_' {
        let rest = split_segments(s.skip(1));
        assert(split_segments(s) == seq![Seq::<char>::empty()] + rest);
        if at_start {
            assert(split_segments(s)[0].len() > 0);
            assert(false);
        } else {
            // every segment of the tail is a later segment here
            assert forall|i: int| 0 <= i < rest.len() implies (#[trigger] rest[i]).len() > 0 by {
                assert(rest[i] == split_segments(s)[i + 1]);
            }
            lemma_camel_chars_split(s.skip(1), true);
            assert(split_segments(s)[0] =~= Seq::<char>::empty());
            assert(split_segments(s).skip(1) =~= rest);
            assert(camel_chars(s, false) == camel_chars(s.skip(1), true));
            assert(camel_chars(s, false) =~= split_segments(s)[0] + camel_concat(
                split_segments(s).skip(1),
            ));
        }
    } else {
        let rest = split_segments(s.skip(1));
        lemma_split_at_least_one(s.skip(1));
        assert(split_segments(s) == rest.update(0, seq![s[0]] + rest[0]));
        assert(split_segments(s).len() == rest.len());
        assert forall|i: int| 1 <= i < rest.len() implies (#[trigger] rest[i]).len() > 0 by {
            assert(rest[i] == split_segments(s)[i]);
        }
        lemma_camel_chars_split(s.skip(1), false);
        assert(split_segments(s).skip(1) =~= rest.skip(1));
        if at_start {
            assert(split_segments(s)[0] == seq![s[0]] + rest[0]);
            assert(capitalize(seq![s[0]] + rest[0]) =~= seq![to_upper(s[0])] + rest[0]) by {
                assert((seq![s[0]] + rest[0])[0] == s[0]);
                assert((seq![s[0]] + rest[0]).skip(1) =~= rest[0]);
            }
            assert(camel_chars(s, true) == seq![to_upper(s[0])] + camel_chars(s.skip(1), false));
            assert(camel_concat(split_segments(s)) == capitalize(seq![s[0]] + rest[0])
                + camel_concat(rest.skip(1)));
            assert(camel_chars(s, true) =~= camel_concat(split_segments(s)));
        } else {
            assert(split_segments(s)[0] == seq![s[0]] + rest[0]);
            assert(camel_chars(s, false) == seq![s[0]] + camel_chars(s.skip(1), false));
            assert(camel_chars(s, false) =~= split_segments(s)[0] + camel_concat(
                split_segments(s).skip(1),
            ));
        }
    }
}

/// The characters of `s`, in order.
fn string_to_chars(s: &str) -> (v: Vec<char>)
    ensures
        v@ == s@,
{
    let n = s.unicode_len();
    let mut v: Vec<char> = Vec::new();
    let mut i: usize = 0;
    while i < n
        invariant
            n == s@.len(),
            0 <= i <= n,
            v@ == s@.take(i as int),
        decreases n - i,
    {
        let c = s.get_char(i);
        v.push(c);
        proof {
            assert(v@ =~= s@.take(i + 1 as int));
        }
        i = i + 1;
    }
    proof {
        assert(v@ =~= s@);
    }
    v
}

/// Relies on `String`'s `FromIterator<char>` implementation: collecting
/// characters yields a string holding exactly those characters in order.
#[verifier::external_body]
fn chars_to_string(v: &Vec<char>) -> (r: String)
    ensures
        r@ == v@,
{
    v.iter().collect()
}

/// Upper-cases an ASCII lower-case letter; returns any other character as is.
fn upper_char(c: char) -> (r: char)
    ensures
        r == to_upper(c),
{
    let u = c as u32;
    if 97 <= u && u <= 122 {
        let up = (u - 32) as u8;
        up as char
    } else {
        c
    }
}

/// The generated type name for the snake-case method name `ident`:
/// `"FutureReturnType"` followed by each underscore-separated segment with
/// its first character upper-cased, separators removed.
///
/// Every segment must be non-empty; an identifier with a leading, trailing or
/// doubled underscore is outside this function's domain.
pub fn underline2camel(ident: &String) -> (r: String)
    requires
        segments_nonempty(ident@),
    ensures
        r@ == generated_name(ident@),
{
    let chars = string_to_chars(ident.as_str());
    let n = chars.len();
    let mut out: Vec<char> = Vec::new();
    let mut at_start = true;
    let mut i: usize = 0;
    proof {
        assert(ident@.skip(0) =~= ident@);
        assert(out@ + camel_chars(ident@, true) =~= camel_chars(ident@, true));
    }
    while i < n
        invariant
            n == chars.len(),
            chars@ == ident@,
            0 <= i <= n,
            camel_chars(ident@, true) == out@ + camel_chars(ident@.skip(i as int), at_start),
        decreases n - i,
    {
        let ghost pre_out = out@;
        let ghost pre_start = at_start;
        let c = chars[i];
        if c == '_' {
            at_start = true;
        } else if at_start {
            let up = upper_char(c);
            out.push(up);
            at_start = false;
        } else {
            out.push(c);
        }
        proof {
            let tail = ident@.skip(i as int);
            assert(tail[0] == ident@[i as int]);
            assert(tail.skip(1) =~= ident@.skip(i + 1 as int));
            if ident@[i as int] == '_' {
                assert(camel_chars(tail, pre_start) == camel_chars(ident@.skip(i + 1 as int), true));
            } else if pre_start {
                assert(camel_chars(tail, true) == seq![to_upper(tail[0])] + camel_chars(
                    ident@.skip(i + 1 as int),
                    false,
                ));
                assert(pre_out + camel_chars(tail, true) =~= out@ + camel_chars(
                    ident@.skip(i + 1 as int),
                    false,
                ));
            } else {
                assert(camel_chars(tail, false) == seq![tail[0]] + camel_chars(
                    ident@.skip(i + 1 as int),
                    false,
                ));
                assert(pre_out + camel_chars(tail, false) =~= out@ + camel_chars(
                    ident@.skip(i + 1 as int),
                    false,
                ));
            }
        }
        i = i + 1;
    }
    proof {
        assert(ident@.skip(n as int) =~= Seq::<char>::empty());
        assert(camel_chars(ident@, true) =~= out@);
        lemma_camel_chars_split(ident@, true);
    }
    let camel = chars_to_string(&out);
    let prefix: String = String::from_str("FutureReturnType");
    let r = prefix.concat(camel.as_str());
    proof {
        assert(r@ == generated_name(ident@));
    }
    r
}

} // verus!
