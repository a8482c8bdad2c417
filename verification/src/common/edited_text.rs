//! The bytes of a file after a list of recorded edits: positional edits in the order of their
//! positions in the text as read (edits at one position in the order recorded), appended texts
//! last.
use vstd::prelude::*;

use crate::common::file_overwriting::{edit_views, FileEdit, FileEditView};

verus! {

/// A positional edit: the bytes from `start` to `end` of the text as read give way to the
/// bytes of `content`.
pub struct Splice {
    pub start: usize,
    pub end: usize,
    pub content: Seq<u8>,
}

/// The bytes that an edit puts into the text: its content, after a newline where it asks for
/// one.
pub open spec fn spec_edit_bytes(e: FileEditView) -> Seq<u8> {
    match e {
        FileEditView::Replace { content, .. } => vstd::utf8::encode_utf8(content),
        FileEditView::InsertAt { content, .. } => vstd::utf8::encode_utf8(content),
        FileEditView::InsertWithPreviousNewlineAt { content, .. } => seq![10u8] + vstd::utf8::encode_utf8(content),
        FileEditView::Append { content } => vstd::utf8::encode_utf8(content),
        FileEditView::AppendWithPreviousNewline { content } => seq![10u8] + vstd::utf8::encode_utf8(content),
    }
}

/// The positional edits among `edits`, in the order recorded.
pub open spec fn spec_splices(edits: Seq<FileEditView>) -> Seq<Splice>
    decreases edits.len(),
{
    if edits.len() == 0 {
        Seq::empty()
    } else {
        let e = edits.last();
        spec_splices(edits.drop_last()) + match e {
            FileEditView::Replace { start, end, .. } => seq![Splice { start, end, content: spec_edit_bytes(e) }],
            FileEditView::InsertAt { at, .. } => seq![Splice { start: at, end: at, content: spec_edit_bytes(e) }],
            FileEditView::InsertWithPreviousNewlineAt { at, .. } => seq![
                Splice { start: at, end: at, content: spec_edit_bytes(e) },
            ],
            _ => Seq::empty(),
        }
    }
}

/// The bytes that the appending edits among `edits` add at the end, in the order recorded.
pub open spec fn spec_appended(edits: Seq<FileEditView>) -> Seq<u8>
    decreases edits.len(),
{
    if edits.len() == 0 {
        Seq::empty()
    } else {
        let e = edits.last();
        spec_appended(edits.drop_last()) + match e {
            FileEditView::Append { .. } => spec_edit_bytes(e),
            FileEditView::AppendWithPreviousNewline { .. } => spec_edit_bytes(e),
            _ => Seq::empty(),
        }
    }
}

/// `sorted` with `x` added after every splice that starts no later than `x`, and before the
/// rest.
pub open spec fn spec_insert_by_start(sorted: Seq<Splice>, x: Splice) -> Seq<Splice>
    decreases sorted.len(),
{
    if sorted.len() == 0 {
        seq![x]
    } else if sorted.last().start <= x.start {
        sorted.push(x)
    } else {
        spec_insert_by_start(sorted.drop_last(), x).push(sorted.last())
    }
}

/// The splices in the order of their starts; splices with the same start keep their order.
pub open spec fn spec_sorted_by_start(splices: Seq<Splice>) -> Seq<Splice>
    decreases splices.len(),
{
    if splices.len() == 0 {
        Seq::empty()
    } else {
        spec_insert_by_start(spec_sorted_by_start(splices.drop_last()), splices.last())
    }
}

/// A position of `text`, taken back to its end when it lies past it.
pub open spec fn spec_clamp(p: usize, text: Seq<u8>) -> int {
    if p <= text.len() {
        p as int
    } else {
        text.len() as int
    }
}

/// The text from `cursor` on after the splices `splices`, taken in order: a splice that starts
/// at or after the cursor keeps the text up to its start, puts in its content and moves the
/// cursor past its end; one that starts before the cursor only puts in its content.
pub open spec fn spec_apply_from(text: Seq<u8>, splices: Seq<Splice>, cursor: int) -> Seq<u8>
    decreases splices.len(),
{
    if splices.len() == 0 {
        text.subrange(cursor, text.len() as int)
    } else {
        let s = splices[0];
        let start = spec_clamp(s.start, text);
        let end = if spec_clamp(s.end, text) < start {
            start
        } else {
            spec_clamp(s.end, text)
        };
        if start >= cursor {
            text.subrange(cursor, start) + s.content + spec_apply_from(text, splices.drop_first(), end)
        } else {
            s.content + spec_apply_from(text, splices.drop_first(), cursor)
        }
    }
}

/// The bytes of a file whose text as read is `text` after the edits `edits`.
pub open spec fn spec_edited_bytes(text: Seq<u8>, edits: Seq<FileEditView>) -> Seq<u8> {
    spec_apply_from(text, spec_sorted_by_start(spec_splices(edits)), 0) + spec_appended(edits)
}

/// With no edits, a file keeps its text.
pub proof fn law_no_edits_keep_text(text: Seq<u8>)
    ensures
        spec_edited_bytes(text, Seq::empty()) == text,
{
    assert(spec_sorted_by_start(spec_splices(Seq::<FileEditView>::empty())) =~= Seq::<Splice>::empty());
    assert(text.subrange(0, text.len() as int) =~= text);
    assert(spec_edited_bytes(text, Seq::empty()) =~= text);
}

/// Appends the bytes of `b` to `out`.
fn push_all(out: &mut Vec<u8>, b: &[u8])
    ensures
        final(out)@ == old(out)@ + b@,
{
    let ghost start = out@;
    let mut i: usize = 0;
    while i < b.len()
        invariant
            i <= b.len(),
            out@ == start + b@.take(i as int),
        decreases b.len() - i,
    {
        out.push(b[i]);
        assert(b@.take(i + 1) =~= b@.take(i as int).push(b@[i as int]));
        i = i + 1;
    }
    assert(b@.take(b.len() as int) =~= b@);
}

/// Appends the bytes of `text` from `from` to `to` to `out`.
fn push_range(out: &mut Vec<u8>, text: &[u8], from: usize, to: usize)
    requires
        from <= to <= text@.len(),
    ensures
        final(out)@ == old(out)@ + text@.subrange(from as int, to as int),
{
    let ghost start = out@;
    let mut i: usize = from;
    while i < to
        invariant
            from <= i <= to,
            to <= text@.len(),
            out@ == start + text@.subrange(from as int, i as int),
        decreases to - i,
    {
        out.push(text[i]);
        assert(text@.subrange(from as int, i + 1) =~= text@.subrange(from as int, i as int).push(
            text@[i as int],
        ));
        i = i + 1;
    }
}

/// The bytes that an edit puts into the text.
fn edit_bytes(e: &FileEdit) -> (r: Vec<u8>)
    ensures
        r@ == spec_edit_bytes(e@),
{
    let mut r: Vec<u8> = Vec::new();
    match e {
        FileEdit::Replace { content, .. } => push_all(&mut r, content.as_str().as_bytes()),
        FileEdit::InsertAt { content, .. } => push_all(&mut r, content.as_str().as_bytes()),
        FileEdit::InsertWithPreviousNewlineAt { content, .. } => {
            r.push(10u8);
            push_all(&mut r, content.as_str().as_bytes());
        },
        FileEdit::Append { content } => push_all(&mut r, content.as_str().as_bytes()),
        FileEdit::AppendWithPreviousNewline { content } => {
            r.push(10u8);
            push_all(&mut r, content.as_str().as_bytes());
        },
    }
    assert(r@ =~= spec_edit_bytes(e@));
    r
}

/// Where `x` goes into `sorted` when no splice from position `j` on starts at or before it
/// and the one before `j`, if any, does.
proof fn lemma_insert_by_start_at(sorted: Seq<Splice>, x: Splice, j: int)
    requires
        0 <= j <= sorted.len(),
        forall|k: int| j <= k < sorted.len() ==> #[trigger] sorted[k].start > x.start,
        j == 0 || sorted[j - 1].start <= x.start,
    ensures
        spec_insert_by_start(sorted, x) == sorted.take(j).push(x) + sorted.skip(j),
    decreases sorted.len(),
{
    if sorted.len() == 0 {
        assert(sorted.take(j).push(x) + sorted.skip(j) =~= seq![x]);
    } else if j == sorted.len() {
        assert(sorted.take(j).push(x) + sorted.skip(j) =~= sorted.push(x));
    } else {
        let init = sorted.drop_last();
        assert(sorted[sorted.len() - 1].start > x.start);
        assert forall|k: int| j <= k < init.len() implies #[trigger] init[k].start > x.start by {
            assert(init[k] == sorted[k]);
        }
        if j > 0 {
            assert(init[j - 1] == sorted[j - 1]);
        }
        lemma_insert_by_start_at(init, x, j);
        assert(init.take(j) =~= sorted.take(j));
        assert((init.take(j).push(x) + init.skip(j)).push(sorted.last()) =~= sorted.take(j).push(x)
            + sorted.skip(j));
    }
}

/// The bytes of a file whose text as read is `text` after the edits `edits` (see
/// `spec_edited_bytes`).
pub fn edited_bytes(text: &[u8], edits: &Vec<FileEdit>) -> (r: Vec<u8>)
    ensures
        r@ == spec_edited_bytes(text@, edit_views(edits@)),
{
    let ghost views = edit_views(edits@);
    let mut starts: Vec<usize> = Vec::new();
    let mut ends: Vec<usize> = Vec::new();
    let mut contents: Vec<Vec<u8>> = Vec::new();
    let mut appended: Vec<u8> = Vec::new();
    let ghost mut sorted: Seq<Splice> = Seq::empty();
    let mut i: usize = 0;
    while i < edits.len()
        invariant
            i <= edits.len(),
            views == edit_views(edits@),
            starts@.len() == sorted.len(),
            ends@.len() == sorted.len(),
            contents@.len() == sorted.len(),
            forall|k: int|
                0 <= k < sorted.len() ==> #[trigger] sorted[k] == (Splice {
                    start: starts@[k],
                    end: ends@[k],
                    content: contents@[k]@,
                }),
            sorted == spec_sorted_by_start(spec_splices(views.take(i as int))),
            appended@ == spec_appended(views.take(i as int)),
        decreases edits.len() - i,
    {
        let e = &edits[i];
        let bytes = edit_bytes(e);
        let ghost ev = views[i as int];
        proof {
            assert(views.take(i + 1).drop_last() =~= views.take(i as int));
            assert(views.take(i + 1).last() == ev);
            assert(ev == e@);
        }
        let (pos, end, positional) = match e {
            FileEdit::Replace { start, end, .. } => (*start, *end, true),
            FileEdit::InsertAt { at, .. } => (*at, *at, true),
            FileEdit::InsertWithPreviousNewlineAt { at, .. } => (*at, *at, true),
            _ => (0, 0, false),
        };
        if positional {
            let ghost x = Splice { start: pos, end, content: bytes@ };
            let mut j: usize = starts.len();
            let mut found = false;
            while j > 0 && !found
                invariant
                    j <= starts@.len(),
                    starts@.len() == sorted.len(),
                    forall|k: int| 0 <= k < sorted.len() ==> #[trigger] sorted[k].start == starts@[k],
                    forall|k: int| j <= k < sorted.len() ==> #[trigger] sorted[k].start > pos,
                    found ==> j > 0 && sorted[j - 1].start <= pos,
                decreases j, if found { 0int } else { 1int },
            {
                assert(sorted[j - 1].start == starts@[j - 1]);
                if starts[j - 1] <= pos {
                    found = true;
                } else {
                    j = j - 1;
                }
            }
            proof {
                lemma_insert_by_start_at(sorted, x, j as int);
                let before = spec_splices(views.take(i as int));
                assert(spec_splices(views.take(i + 1)) =~= before.push(x));
                assert(before.push(x).drop_last() =~= before);
                assert(spec_sorted_by_start(before.push(x)) == spec_insert_by_start(
                    spec_sorted_by_start(before),
                    x,
                ));
                assert(spec_appended(views.take(i + 1)) =~= spec_appended(views.take(i as int)));
            }
            starts.insert(j, pos);
            ends.insert(j, end);
            contents.insert(j, bytes);
            proof {
                let old_sorted = sorted;
                sorted = sorted.take(j as int).push(x) + sorted.skip(j as int);
                assert forall|k: int| 0 <= k < sorted.len() implies #[trigger] sorted[k] == (Splice {
                    start: starts@[k],
                    end: ends@[k],
                    content: contents@[k]@,
                }) by {
                    if k < j {
                        assert(sorted[k] == old_sorted[k]);
                    } else if k > j {
                        assert(sorted[k] == old_sorted[k - 1]);
                    }
                }
            }
        } else {
            push_all(&mut appended, bytes.as_slice());
            proof {
                assert(spec_splices(views.take(i + 1)) =~= spec_splices(views.take(i as int)));
                assert(spec_appended(views.take(i + 1)) =~= spec_appended(views.take(i as int)) + bytes@);
            }
        }
        i = i + 1;
    }
    proof {
        assert(views.take(edits.len() as int) =~= views);
    }
    let mut out: Vec<u8> = Vec::new();
    let mut cursor: usize = 0;
    let mut k: usize = 0;
    let n = text.len();
    proof {
        assert(sorted.skip(0) =~= sorted);
        assert(out@ =~= Seq::<u8>::empty());
    }
    while k < starts.len()
        invariant
            k <= starts@.len(),
            n == text@.len(),
            cursor <= n,
            starts@.len() == sorted.len(),
            ends@.len() == sorted.len(),
            contents@.len() == sorted.len(),
            forall|m: int|
                0 <= m < sorted.len() ==> #[trigger] sorted[m] == (Splice {
                    start: starts@[m],
                    end: ends@[m],
                    content: contents@[m]@,
                }),
            out@ + spec_apply_from(text@, sorted.skip(k as int), cursor as int) == spec_apply_from(
                text@,
                sorted,
                0,
            ),
        decreases starts@.len() - k,
    {
        let ghost rest = sorted.skip(k as int);
        assert(rest[0] == sorted[k as int]);
        assert(rest.drop_first() =~= sorted.skip(k + 1));
        let s = starts[k];
        let start = if s <= n {
            s
        } else {
            n
        };
        let e = if ends[k] <= n {
            ends[k]
        } else {
            n
        };
        let end = if e < start {
            start
        } else {
            e
        };
        let ghost before = out@;
        if start >= cursor {
            push_range(&mut out, text, cursor, start);
            push_all(&mut out, contents[k].as_slice());
            cursor = end;
        } else {
            push_all(&mut out, contents[k].as_slice());
        }
        assert(out@ + spec_apply_from(text@, sorted.skip(k + 1), cursor as int) =~= spec_apply_from(
            text@,
            sorted,
            0,
        ));
        k = k + 1;
    }
    let ghost before = out@;
    push_range(&mut out, text, cursor, n);
    push_all(&mut out, appended.as_slice());
    proof {
        assert(sorted.skip(k as int) =~= Seq::<Splice>::empty());
        assert(out@ =~= spec_apply_from(text@, sorted, 0) + spec_appended(views));
    }
    out
}

} // verus!
