//! The framing of a compact JWS: three base64url segments with dots between
//! them.

use vstd::prelude::*;

use crate::text::{
    find_from, join3, lemma_find_from, split, split_all, split_at_first, views,
};

verus! {

/// Why a text is no compact JWS.
#[derive(Debug, Clone, Copy, PartialEq, Eq, Structural)]
pub enum SegmentError {
    MissingPayload,
    MissingSignature,
    ExtraSegments,
}

/// The three segments of a compact JWS, or what is wrong with it.
pub open spec fn jws_segments(s: Seq<char>) -> Result<
    (Seq<char>, Seq<char>, Seq<char>),
    SegmentError,
> {
    let parts = split_all(s, '.');
    if parts.len() <= 1 {
        Err(SegmentError::MissingPayload)
    } else if parts.len() == 2 {
        Err(SegmentError::MissingSignature)
    } else if parts.len() == 3 {
        Ok((parts[0], parts[1], parts[2]))
    } else {
        Err(SegmentError::ExtraSegments)
    }
}

/// The three segments of a compact JWS.
pub(crate) fn segments<'a>(compact: &'a str) -> (r: Result<
    (&'a str, &'a str, &'a str),
    SegmentError,
>)
    ensures
        match r {
            Ok((h, p, s)) => jws_segments(compact@) matches Ok(t) && t == (h@, p@, s@),
            Err(e) => jws_segments(compact@) matches Err(x) && x == e,
        },
{
    let parts = split(compact, '.');
    assert(views(parts@).len() == parts@.len());
    if parts.len() == 1 {
        Err(SegmentError::MissingPayload)
    } else if parts.len() == 2 {
        Err(SegmentError::MissingSignature)
    } else if parts.len() == 3 {
        assert(views(parts@)[0] == parts@[0]@);
        assert(views(parts@)[1] == parts@[1]@);
        assert(views(parts@)[2] == parts@[2]@);
        Ok((parts[0], parts[1], parts[2]))
    } else {
        Err(SegmentError::ExtraSegments)
    }
}

/// What is signed: the first two segments with a dot between them.
pub open spec fn signing_text(header: Seq<char>, payload: Seq<char>) -> Seq<char> {
    header + "."@ + payload
}

/// The compact form of three segments.
pub open spec fn compact_text(header: Seq<char>, payload: Seq<char>, signature: Seq<char>) -> Seq<
    char,
> {
    signing_text(header, payload) + "."@ + signature
}

/// What is signed: the first two segments with a dot between them.
pub(crate) fn signing_input(header: &str, payload: &str) -> (r: String)
    ensures
        r@ == signing_text(header@, payload@),
{
    join3(header, ".", payload)
}

/// Whether no dot is in the text.
pub open spec fn dotless(s: Seq<char>) -> bool {
    forall|i: int| 0 <= i < s.len() ==> #[trigger] s[i] != '.'
}

proof fn lemma_split_dotless(s: Seq<char>)
    requires
        dotless(s),
    ensures
        split_all(s, '.') == seq![s],
{
    lemma_find_from(s, '.', 0);
}

proof fn lemma_split_first(a: Seq<char>, b: Seq<char>)
    requires
        dotless(a),
    ensures
        split_all(a + seq!['.'] + b, '.') == seq![a] + split_all(b, '.'),
{
    let s = a + seq!['.'] + b;
    assert(s[a.len() as int] == '.');
    lemma_find_from(s, '.', 0);
    let i = find_from(s, '.', 0)->0;
    assert(i == a.len()) by {
        if i < a.len() {
            assert(s[i] == a[i]);
        }
    }
    assert(s.take(i) =~= a);
    assert(s.skip(i + 1) =~= b);
    assert(split_at_first(s, '.') == Some((a, b)));
}

/// Three segments without dots are what the framing takes apart again.
pub proof fn law_segments_of_compact(h: Seq<char>, p: Seq<char>, s: Seq<char>)
    requires
        dotless(h),
        dotless(p),
        dotless(s),
    ensures
        jws_segments(compact_text(h, p, s)) == Ok::<_, SegmentError>((h, p, s)),
{
    reveal_strlit(".");
    assert("."@ =~= seq!['.']);
    assert(compact_text(h, p, s) =~= h + seq!['.'] + (p + seq!['.'] + s));
    lemma_split_first(h, p + seq!['.'] + s);
    lemma_split_first(p, s);
    lemma_split_dotless(s);
    let parts = split_all(compact_text(h, p, s), '.');
    assert(parts =~= seq![h, p, s]);
}

} // verus!
