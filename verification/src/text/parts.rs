use crate::text::chars::chars_of;
use vstd::prelude::*;

verus! {

/// The parts in order, with `sep` between each two neighbours.
pub open spec fn join(parts: Seq<Seq<char>>, sep: Seq<char>) -> Seq<char>
    decreases parts.len(),
{
    if parts.len() == 0 {
        Seq::empty()
    } else if parts.len() == 1 {
        parts[0]
    } else {
        join(parts.drop_last(), sep) + sep + parts.last()
    }
}

/// The first `count` of `parts`, or all of them where there are fewer.
pub open spec fn first_parts(parts: Seq<Seq<char>>, count: nat) -> Seq<Seq<char>> {
    if count < parts.len() {
        parts.take(count as int)
    } else {
        parts
    }
}

/// Joins the first `count` of `parts`, or all of them where there are fewer, with
/// `sep` between neighbours.
pub fn join_first(parts: &Vec<String>, count: usize, sep: &str) -> (t: String)
    ensures
        t@ == join(first_parts(parts.deep_view(), count as nat), sep@),
{
    let stop = if count < parts.len() {
        count
    } else {
        parts.len()
    };
    let mut t = String::new();
    let mut i: usize = 0;
    while i < stop
        invariant
            i <= stop <= parts.len(),
            t@ == join(parts.deep_view().take(i as int), sep@),
        decreases stop - i,
    {
        if i > 0 {
            t.append(sep);
        }
        t.append(parts[i].as_str());
        proof {
            let all = parts.deep_view();
            assert(all.take(i + 1).drop_last() =~= all.take(i as int));
            assert(all.take(i + 1).last() == parts[i as int]@);
        }
        i += 1;
    }
    proof {
        if stop == parts.len() {
            assert(parts.deep_view().take(stop as int) =~= parts.deep_view());
        }
    }
    t
}

/// Joins `parts` with `sep` between neighbours.
pub fn join_text(parts: &Vec<String>, sep: &str) -> (t: String)
    ensures
        t@ == join(parts.deep_view(), sep@),
{
    join_first(parts, parts.len(), sep)
}

/// Joining is the same whether the last part is added before or after the others were
/// joined to a first part.
proof fn lemma_join_with_head(head: Seq<char>, rest: Seq<Seq<char>>, sep: Seq<char>)
    requires
        rest.len() > 0,
    ensures
        join(seq![head] + rest, sep) == head + sep + join(rest, sep),
    decreases rest.len(),
{
    let all = seq![head] + rest;
    assert(all.last() == rest.last());
    if rest.len() == 1 {
        assert(all.drop_last() =~= seq![head]);
        assert(join(seq![head], sep) == head);
        assert(join(rest, sep) == rest[0]);
        assert(join(all, sep) =~= head + sep + join(rest, sep));
    } else {
        assert(all.drop_last() =~= seq![head] + rest.drop_last());
        lemma_join_with_head(head, rest.drop_last(), sep);
        assert(join(all, sep) =~= head + sep + join(rest, sep));
    }
}

/// Whether `pat` stands in `s` at position `i`.
pub open spec fn occurs_at(s: Seq<char>, pat: Seq<char>, i: int) -> bool {
    &&& 0 <= i
    &&& i + pat.len() <= s.len()
    &&& s.subrange(i, i + pat.len()) == pat
}

/// The pieces of `s` that a scan from `pos` finds, the piece in progress having begun at
/// `start`: each occurrence of `sep` met on the way closes a piece, and the scan goes on
/// behind it.
pub open spec fn pieces_scan(s: Seq<char>, sep: Seq<char>, start: int, pos: int) -> Seq<Seq<char>>
    decreases s.len() - pos,
{
    if sep.len() == 0 || pos + sep.len() > s.len() {
        seq![s.subrange(start, s.len() as int)]
    } else if occurs_at(s, sep, pos) {
        seq![s.subrange(start, pos)] + pieces_scan(s, sep, pos + sep.len(), pos + sep.len())
    } else {
        pieces_scan(s, sep, start, pos + 1)
    }
}

/// The pieces into which the occurrences of `sep` cut `s`, found from the left and not
/// overlapping. An empty `sep` cuts nothing.
pub open spec fn pieces(s: Seq<char>, sep: Seq<char>) -> Seq<Seq<char>> {
    pieces_scan(s, sep, 0, 0)
}

/// Tells whether `pat` stands in `text` at `pos`.
fn matches_at(text: &Vec<char>, pat: &Vec<char>, pos: usize) -> (found: bool)
    requires
        pos + pat.len() <= text.len(),
    ensures
        found == occurs_at(text@, pat@, pos as int),
{
    let mut k: usize = 0;
    while k < pat.len()
        invariant
            k <= pat.len(),
            pos + pat.len() <= text.len(),
            forall|j: int| 0 <= j < k ==> text@[pos + j] == pat@[j],
        decreases pat.len() - k,
    {
        if text[pos + k] != pat[k] {
            proof {
                let window = text@.subrange(pos as int, pos + pat.len());
                assert(window[k as int] == text@[pos + k]);
            }
            return false;
        }
        k += 1;
    }
    assert(text@.subrange(pos as int, pos + pat.len()) =~= pat@);
    true
}

/// Cuts `s` at the occurrences of `sep`.
pub fn pieces_text(s: &str, sep: &str) -> (parts: Vec<String>)
    ensures
        parts.deep_view() == pieces(s@, sep@),
{
    let text = chars_of(s);
    let pat = chars_of(sep);
    let mut parts: Vec<String> = Vec::new();
    let mut start: usize = 0;
    let mut pos: usize = 0;
    while pat.len() > 0 && pat.len() <= text.len() - pos
        invariant
            text@ == s@,
            pat@ == sep@,
            start <= pos <= text.len(),
            pieces(s@, sep@) == parts.deep_view() + pieces_scan(
                s@,
                sep@,
                start as int,
                pos as int,
            ),
        decreases text.len() - pos,
    {
        if matches_at(&text, &pat, pos) {
            let ghost before = parts.deep_view();
            let piece = s.substring_char(start, pos);
            parts.push(String::from_str(piece));
            assert(parts.deep_view() =~= before.push(piece@));
            pos = pos + pat.len();
            start = pos;
        } else {
            pos = pos + 1;
        }
    }
    let ghost before = parts.deep_view();
    let piece = s.substring_char(start, text.len());
    parts.push(String::from_str(piece));
    assert(parts.deep_view() =~= before.push(piece@));
    parts
}

/// A scan always yields at least the piece in progress.
pub proof fn lemma_pieces_scan_nonempty(s: Seq<char>, sep: Seq<char>, start: int, pos: int)
    ensures
        pieces_scan(s, sep, start, pos).len() >= 1,
    decreases s.len() - pos,
{
    if sep.len() == 0 || pos + sep.len() > s.len() {
    } else if occurs_at(s, sep, pos) {
        lemma_pieces_scan_nonempty(s, sep, pos + sep.len(), pos + sep.len());
    } else {
        lemma_pieces_scan_nonempty(s, sep, start, pos + 1);
    }
}

/// The part of `s` before the first occurrence of `sep`; all of `s` where there is none.
pub fn first_piece_text(s: &str, sep: &str) -> (piece: String)
    ensures
        piece@ == pieces(s@, sep@)[0],
{
    proof {
        lemma_pieces_scan_nonempty(s@, sep@, 0, 0);
    }
    let parts = pieces_text(s, sep);
    parts[0].clone()
}

/// The pieces that a scan finds, joined by the separator, are the text from where the
/// piece in progress began.
proof fn lemma_join_of_pieces_scan(s: Seq<char>, sep: Seq<char>, start: int, pos: int)
    requires
        0 <= start <= pos <= s.len(),
    ensures
        join(pieces_scan(s, sep, start, pos), sep) == s.subrange(start, s.len() as int),
    decreases s.len() - pos,
{
    if sep.len() == 0 || pos + sep.len() > s.len() {
    } else if occurs_at(s, sep, pos) {
        let after = pos + sep.len();
        let rest = pieces_scan(s, sep, after, after);
        lemma_pieces_scan_nonempty(s, sep, after, after);
        lemma_join_of_pieces_scan(s, sep, after, after);
        lemma_join_with_head(s.subrange(start, pos), rest, sep);
        assert(s.subrange(start, pos) + sep + s.subrange(after, s.len() as int) =~= s.subrange(
            start,
            s.len() as int,
        ));
    } else {
        lemma_join_of_pieces_scan(s, sep, start, pos + 1);
    }
}

/// Cutting a text at a separator and joining the pieces with the same separator gives
/// the text back.
pub proof fn lemma_join_of_pieces(s: Seq<char>, sep: Seq<char>)
    ensures
        join(pieces(s, sep), sep) == s,
{
    lemma_join_of_pieces_scan(s, sep, 0, 0);
    assert(s.subrange(0, s.len() as int) =~= s);
}

} // verus!
