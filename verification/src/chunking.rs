//! Splitting a document's paragraphs into translation chunks and writing a
//! translated chunk back into the paragraphs.

use vstd::prelude::*;

use crate::text::{
    chars_of, is_whitespace, join, push_decimal, push_str, spec_is_whitespace, split_trim,
    split_trimmed, trim, trim_str, decimal, views_of, lemma_split_join, lemma_trim_idempotent,
    lemma_trim_free_of, free_of, overlap_free, shift_disagrees, split,
};

verus! {

/// Marker placed between paragraphs of one chunk; the model must keep it.
pub const PARAGRAPH_SEPARATOR: &'static str = "[[__PARAGRAPH_BREAK__]]";

/// Most paragraphs in one chunk.
pub const CHUNK_MAX_PARAGRAPHS: usize = 20;

/// Most equivalent words in one chunk, in tenths of a word (700 words).
pub const CHUNK_MAX_EQUIVALENT_TENTHS: u128 = 7000;

/// A CJK unified ideograph (U+4E00–U+9FFF), which counts as 0.7 words.
pub open spec fn is_cjk(c: char) -> bool {
    0x4E00 <= (c as u32) && (c as u32) <= 0x9FFF
}

/// Running count of equivalent words in tenths over `s`, and whether `s`
/// ends inside a word that has not been counted yet.
pub open spec fn word_state(s: Seq<char>) -> (nat, bool)
    decreases s.len(),
{
    if s.len() == 0 {
        (0, false)
    } else {
        let (count, in_word) = word_state(s.drop_last());
        let c = s.last();
        let closed = if in_word { count + 10 } else { count };
        if spec_is_whitespace(c) {
            (closed, false)
        } else if is_cjk(c) {
            (closed + 7, false)
        } else {
            (count, true)
        }
    }
}

/// Length of `text` in equivalent words, in tenths: each run of characters
/// that are neither whitespace nor CJK ideographs is one word (10), each CJK
/// ideograph is 0.7 words (7).
pub open spec fn equivalent_words_tenths(text: Seq<char>) -> nat {
    let (count, in_word) = word_state(text);
    if in_word {
        count + 10
    } else {
        count
    }
}

/// Counts the equivalent words of `text`, in tenths of a word.
pub fn calculate_equivalent_words(text: &str) -> (res: u128)
    ensures
        res == equivalent_words_tenths(text@),
        res <= 10 * text@.len(),
        res <= 10 * (usize::MAX as u128),
{
    let v = chars_of(text);
    let mut count: u128 = 0;
    let mut in_word = false;
    let mut i: usize = 0;
    while i < v.len()
        invariant
            i <= v.len(),
            v@ == text@,
            (count as nat, in_word) == word_state(v@.subrange(0, i as int)),
            count <= 10 * i,
            in_word ==> count + 10 <= 10 * i,
        decreases v.len() - i,
    {
        let c = v[i];
        proof {
            assert(v@.subrange(0, i + 1).drop_last() =~= v@.subrange(0, i as int));
        }
        if is_whitespace(c) {
            if in_word {
                count = count + 10;
            }
            in_word = false;
        } else if 0x4E00 <= (c as u32) && (c as u32) <= 0x9FFF {
            if in_word {
                count = count + 10;
            }
            count = count + 7;
            in_word = false;
        } else {
            in_word = true;
        }
        i = i + 1;
    }
    assert(v@.subrange(0, v@.len() as int) =~= v@);
    if in_word {
        count = count + 10;
    }
    count
}

/// Weight of a paragraph for chunking: `None` for a blank paragraph,
/// otherwise the equivalent words (in tenths) of its trimmed text.
pub open spec fn paragraph_weight(p: Seq<char>) -> Option<nat> {
    if trim(p).len() == 0 {
        None
    } else {
        Some(equivalent_words_tenths(trim(p)))
    }
}

/// Chunks closed so far, the chunk being filled, and its weight.
pub struct PlanState {
    pub chunks: Seq<Seq<int>>,
    pub current: Seq<int>,
    pub weight: nat,
}

/// The state after closing the chunk being filled, if any.
pub open spec fn flush(st: PlanState) -> PlanState {
    if st.current.len() > 0 {
        PlanState { chunks: st.chunks.push(st.current), current: Seq::empty(), weight: 0 }
    } else {
        st
    }
}

/// One step of the greedy plan for paragraph `i`: a blank paragraph closes
/// the current chunk; a paragraph that would make the current chunk exceed
/// 20 paragraphs or 700 equivalent words closes it first; then the paragraph
/// joins the current chunk.
pub open spec fn plan_step(st: PlanState, i: int, w: Option<nat>) -> PlanState {
    match w {
        None => flush(st),
        Some(pw) => {
            let st2 = if st.current.len() > 0 && (st.current.len() >= CHUNK_MAX_PARAGRAPHS
                || st.weight + pw > CHUNK_MAX_EQUIVALENT_TENTHS) {
                flush(st)
            } else {
                st
            };
            PlanState { chunks: st2.chunks, current: st2.current.push(i), weight: st2.weight + pw }
        },
    }
}

/// The plan state after the first `n` paragraphs.
pub open spec fn plan_prefix(paragraphs: Seq<Seq<char>>, n: int) -> PlanState
    decreases n,
{
    if n <= 0 {
        PlanState { chunks: Seq::empty(), current: Seq::empty(), weight: 0 }
    } else {
        plan_step(plan_prefix(paragraphs, n - 1), n - 1, paragraph_weight(paragraphs[n - 1]))
    }
}

/// The paragraph indices of each chunk for a whole document.
pub open spec fn planned_chunks(paragraphs: Seq<Seq<char>>) -> Seq<Seq<int>> {
    flush(plan_prefix(paragraphs, paragraphs.len() as int)).chunks
}

/// The views of a list of strings.
pub open spec fn string_views(v: Seq<String>) -> Seq<Seq<char>> {
    v.map_values(|s: String| s@)
}

/// The text sent for a chunk: its trimmed paragraphs joined by the separator.
pub open spec fn chunk_text(paragraphs: Seq<Seq<char>>, indices: Seq<int>) -> Seq<char> {
    join(indices.map_values(|i: int| trim(paragraphs[i])), PARAGRAPH_SEPARATOR@)
}

/// A group of consecutive non-blank paragraphs translated in one request.
#[derive(Debug, Clone)]
pub struct TranslationChunk {
    pub id: usize,
    pub paragraph_indices: Vec<usize>,
    pub source_text: String,
}

/// The indices as integers.
pub open spec fn index_view(v: Seq<usize>) -> Seq<int> {
    v.map_values(|i: usize| i as int)
}

/// Builds the chunk text for `indices` from the trimmed paragraphs.
fn build_chunk_text(trimmed: &Vec<String>, indices: &Vec<usize>) -> (res: String)
    requires
        forall|k: int| 0 <= k < indices@.len() ==> #[trigger] indices@[k] < trimmed@.len(),
    ensures
        res@ == join(index_view(indices@).map_values(|i: int| trimmed@[i]@), PARAGRAPH_SEPARATOR@),
{
    let ghost parts = index_view(indices@).map_values(|i: int| trimmed@[i]@);
    let mut out = String::new();
    let mut k: usize = 0;
    while k < indices.len()
        invariant
            k <= indices.len(),
            forall|j: int| 0 <= j < indices@.len() ==> #[trigger] indices@[j] < trimmed@.len(),
            parts == index_view(indices@).map_values(|i: int| trimmed@[i]@),
            out@ == join(parts.subrange(0, k as int), PARAGRAPH_SEPARATOR@),
        decreases indices.len() - k,
    {
        let ghost before = parts.subrange(0, k as int);
        let ghost after = parts.subrange(0, k + 1);
        assert(after.drop_last() =~= before);
        if k > 0 {
            push_str(&mut out, PARAGRAPH_SEPARATOR);
        }
        push_str(&mut out, trimmed[indices[k]].as_str());
        k = k + 1;
        proof {
            if k == 1 {
                assert(out@ =~= after[0]);
            } else {
                assert(out@ =~= join(before, PARAGRAPH_SEPARATOR@) + PARAGRAPH_SEPARATOR@ + after.last());
            }
        }
    }
    assert(parts.subrange(0, indices@.len() as int) =~= parts);
    out
}


/// The chunk record for closed chunk number `id`.
fn make_chunk(trimmed: &Vec<String>, id: usize, indices: Vec<usize>) -> (res: TranslationChunk)
    requires
        forall|k: int| 0 <= k < indices@.len() ==> #[trigger] indices@[k] < trimmed@.len(),
    ensures
        res.id == id,
        res.paragraph_indices@ == indices@,
        res.source_text@ == join(index_view(indices@).map_values(|i: int| trimmed@[i]@), PARAGRAPH_SEPARATOR@),
{
    let source_text = build_chunk_text(trimmed, &indices);
    TranslationChunk { id, paragraph_indices: indices, source_text }
}

/// The chunk matches planned chunk `indices` of the document.
pub open spec fn chunk_matches(chunk: TranslationChunk, k: int, paragraphs: Seq<Seq<char>>, indices: Seq<int>) -> bool {
    &&& chunk.id == k
    &&& index_view(chunk.paragraph_indices@) == indices
    &&& chunk.source_text@ == chunk_text(paragraphs, indices)
}

proof fn lemma_chunk_text_from_trimmed(paragraphs: Seq<Seq<char>>, trimmed: Seq<String>, indices: Seq<usize>)
    requires
        trimmed.len() == paragraphs.len(),
        forall|j: int| 0 <= j < trimmed.len() ==> #[trigger] trimmed[j]@ == trim(paragraphs[j]),
        forall|k: int| 0 <= k < indices.len() ==> #[trigger] indices[k] < trimmed.len(),
    ensures
        index_view(indices).map_values(|i: int| trimmed[i]@) == index_view(indices).map_values(
            |i: int| trim(paragraphs[i]),
        ),
{
    assert(index_view(indices).map_values(|i: int| trimmed[i]@) =~= index_view(indices).map_values(
        |i: int| trim(paragraphs[i]),
    ));
}

/// Splits the paragraphs into translation chunks: blank paragraphs end a
/// chunk and are not translated; a chunk holds at most 20 paragraphs and,
/// unless it is a single paragraph, at most 700 equivalent words.
pub fn plan_translation_chunks(paragraphs: &[String]) -> (res: Vec<TranslationChunk>)
    ensures
        res@.len() == planned_chunks(string_views(paragraphs@)).len(),
        forall|k: int|
            0 <= k < res@.len() ==> chunk_matches(
                #[trigger] res@[k],
                k,
                string_views(paragraphs@),
                planned_chunks(string_views(paragraphs@))[k],
            ),
{
    let ghost views = string_views(paragraphs@);
    let mut trimmed: Vec<String> = Vec::new();
    let mut weights: Vec<u128> = Vec::new();
    let mut t: usize = 0;
    while t < paragraphs.len()
        invariant
            t <= paragraphs@.len(),
            views == string_views(paragraphs@),
            trimmed@.len() == t,
            weights@.len() == t,
            forall|j: int| 0 <= j < t ==> #[trigger] trimmed@[j]@ == trim(views[j]),
            forall|j: int| 0 <= j < t ==> #[trigger] weights@[j] == equivalent_words_tenths(trim(views[j])),
            forall|j: int| 0 <= j < t ==> #[trigger] weights@[j] <= 10 * (usize::MAX as u128),
        decreases paragraphs.len() - t,
    {
        let tp = trim_str(paragraphs[t].as_str());
        let w = calculate_equivalent_words(tp.as_str());
        trimmed.push(tp);
        weights.push(w);
        t = t + 1;
    }
    let mut chunks: Vec<TranslationChunk> = Vec::new();
    let mut current: Vec<usize> = Vec::new();
    let mut weight: u128 = 0;
    let mut i: usize = 0;
    while i < paragraphs.len()
        invariant
            i <= paragraphs@.len(),
            views == string_views(paragraphs@),
            trimmed@.len() == paragraphs@.len(),
            weights@.len() == paragraphs@.len(),
            forall|j: int| 0 <= j < trimmed@.len() ==> #[trigger] trimmed@[j]@ == trim(views[j]),
            forall|j: int| 0 <= j < weights@.len() ==> #[trigger] weights@[j] == equivalent_words_tenths(trim(views[j])),
            forall|j: int| 0 <= j < weights@.len() ==> #[trigger] weights@[j] <= 10 * (usize::MAX as u128),
            chunks@.len() == plan_prefix(views, i as int).chunks.len(),
            forall|k: int|
                0 <= k < chunks@.len() ==> chunk_matches(#[trigger] chunks@[k], k, views, plan_prefix(views, i as int).chunks[k]),
            index_view(current@) == plan_prefix(views, i as int).current,
            weight == plan_prefix(views, i as int).weight,
            current@.len() == 0 ==> weight == 0,
            weight <= 7000 + 10 * (usize::MAX as u128),
            forall|k: int| 0 <= k < current@.len() ==> #[trigger] current@[k] < i,
            chunks@.len() + (if current@.len() > 0 { 1int } else { 0int }) <= i,
        decreases paragraphs.len() - i,
    {
        let ghost before = plan_prefix(views, i as int);
        proof {
            assert(views[i as int] == paragraphs@[i as int]@);
        }
        if trimmed[i].as_str().is_empty() {
            if current.len() > 0 {
                let indices = current;
                current = Vec::new();
                proof {
                    lemma_chunk_text_from_trimmed(views, trimmed@, indices@);
                }
                let chunk = make_chunk(&trimmed, chunks.len(), indices);
                chunks.push(chunk);
                weight = 0;
            }
        } else {
            let pw = weights[i];
            if current.len() > 0 && (current.len() >= CHUNK_MAX_PARAGRAPHS || weight + pw > CHUNK_MAX_EQUIVALENT_TENTHS) {
                let indices = current;
                current = Vec::new();
                proof {
                    lemma_chunk_text_from_trimmed(views, trimmed@, indices@);
                }
                let chunk = make_chunk(&trimmed, chunks.len(), indices);
                chunks.push(chunk);
                weight = 0;
            }
            current.push(i);
            weight = weight + pw;
        }
        i = i + 1;
        proof {
            assert(index_view(current@) =~= plan_prefix(views, i as int).current);
        }
    }
    if current.len() > 0 {
        let indices = current;
                current = Vec::new();
        proof {
            lemma_chunk_text_from_trimmed(views, trimmed@, indices@);
        }
        let chunk = make_chunk(&trimmed, chunks.len(), indices);
        chunks.push(chunk);
    }
    chunks
}


/// The chunks laid end to end.
pub open spec fn flatten(chunks: Seq<Seq<int>>) -> Seq<int>
    decreases chunks.len(),
{
    if chunks.len() == 0 {
        Seq::empty()
    } else {
        flatten(chunks.drop_last()) + chunks.last()
    }
}

/// The indices of the non-blank paragraphs among the first `n`, in order.
pub open spec fn nonblank_indices(paragraphs: Seq<Seq<char>>, n: int) -> Seq<int>
    decreases n,
{
    if n <= 0 {
        Seq::empty()
    } else if trim(paragraphs[n - 1]).len() == 0 {
        nonblank_indices(paragraphs, n - 1)
    } else {
        nonblank_indices(paragraphs, n - 1).push(n - 1)
    }
}

/// The equivalent words, in tenths, of the paragraphs at `indices`.
pub open spec fn indices_weight(paragraphs: Seq<Seq<char>>, indices: Seq<int>) -> nat
    decreases indices.len(),
{
    if indices.len() == 0 {
        0
    } else {
        indices_weight(paragraphs, indices.drop_last()) + equivalent_words_tenths(trim(paragraphs[indices.last()]))
    }
}

/// A chunk within the limits: not empty, at most 20 paragraphs, at most
/// 700 equivalent words unless it is a single paragraph, and only indices
/// of paragraphs of the document.
pub open spec fn chunk_within_limits(paragraphs: Seq<Seq<char>>, chunk: Seq<int>) -> bool {
    &&& chunk.len() > 0
    &&& chunk.len() <= CHUNK_MAX_PARAGRAPHS
    &&& (chunk.len() == 1 || indices_weight(paragraphs, chunk) <= CHUNK_MAX_EQUIVALENT_TENTHS)
    &&& forall|j: int| 0 <= j < chunk.len() ==> 0 <= #[trigger] chunk[j] < paragraphs.len()
}

/// What holds of the plan after each paragraph.
pub open spec fn plan_invariant(paragraphs: Seq<Seq<char>>, n: int, st: PlanState) -> bool {
    &&& flatten(st.chunks) + st.current == nonblank_indices(paragraphs, n)
    &&& forall|k: int| 0 <= k < st.chunks.len() ==> chunk_within_limits(paragraphs, #[trigger] st.chunks[k])
    &&& st.current.len() <= CHUNK_MAX_PARAGRAPHS
    &&& st.weight == indices_weight(paragraphs, st.current)
    &&& (st.current.len() >= 2 ==> st.weight <= CHUNK_MAX_EQUIVALENT_TENTHS)
    &&& forall|j: int| 0 <= j < st.current.len() ==> 0 <= #[trigger] st.current[j] < paragraphs.len()
}

proof fn lemma_flush_keeps(paragraphs: Seq<Seq<char>>, n: int, st: PlanState)
    requires
        plan_invariant(paragraphs, n, st),
    ensures
        plan_invariant(paragraphs, n, flush(st)),
        flush(st).current.len() == 0,
{
    if st.current.len() > 0 {
        let f = flush(st);
        assert(f.chunks.drop_last() =~= st.chunks);
        assert(flatten(f.chunks) + f.current =~= flatten(st.chunks) + st.current);
        assert forall|k: int| 0 <= k < f.chunks.len() implies chunk_within_limits(paragraphs, #[trigger] f.chunks[k]) by {
            if k < st.chunks.len() {
                assert(f.chunks[k] == st.chunks[k]);
            }
        }
    }
}

proof fn lemma_plan_prefix_invariant(paragraphs: Seq<Seq<char>>, n: int)
    requires
        0 <= n <= paragraphs.len(),
    ensures
        plan_invariant(paragraphs, n, plan_prefix(paragraphs, n)),
    decreases n,
{
    if n == 0 {
        assert(flatten(Seq::<Seq<int>>::empty()) + Seq::<int>::empty() =~= Seq::<int>::empty());
    } else {
        lemma_plan_prefix_invariant(paragraphs, n - 1);
        let st = plan_prefix(paragraphs, n - 1);
        let i = n - 1;
        let w = paragraph_weight(paragraphs[i]);
        lemma_flush_keeps(paragraphs, n - 1, st);
        match w {
            None => {
                assert(nonblank_indices(paragraphs, n) == nonblank_indices(paragraphs, n - 1));
            },
            Some(pw) => {
                let st2 = if st.current.len() > 0 && (st.current.len() >= CHUNK_MAX_PARAGRAPHS || st.weight + pw
                    > CHUNK_MAX_EQUIVALENT_TENTHS) {
                    flush(st)
                } else {
                    st
                };
                assert(plan_invariant(paragraphs, n - 1, st2));
                let next = plan_prefix(paragraphs, n);
                assert(next.current == st2.current.push(i));
                assert(next.current.drop_last() =~= st2.current);
                assert(flatten(next.chunks) + next.current =~= (flatten(st2.chunks) + st2.current).push(i));
                assert(pw == equivalent_words_tenths(trim(paragraphs[i])));
                assert(next.weight == indices_weight(paragraphs, next.current));
            },
        }
    }
}

/// The chunks of the plan hold every non-blank paragraph exactly once, in
/// document order, and no blank one.
pub proof fn lemma_plan_covers_nonblank(paragraphs: Seq<Seq<char>>)
    ensures
        flatten(planned_chunks(paragraphs)) == nonblank_indices(paragraphs, paragraphs.len() as int),
{
    lemma_plan_prefix_invariant(paragraphs, paragraphs.len() as int);
    let st = plan_prefix(paragraphs, paragraphs.len() as int);
    lemma_flush_keeps(paragraphs, paragraphs.len() as int, st);
    assert(flatten(flush(st).chunks) + flush(st).current =~= flatten(flush(st).chunks));
}

/// Every planned chunk is within the limits: 1 to 20 paragraphs, at most
/// 700 equivalent words unless it is a single paragraph, and indices of
/// paragraphs of the document.
pub proof fn lemma_plan_chunks_within_limits(paragraphs: Seq<Seq<char>>, k: int)
    requires
        0 <= k < planned_chunks(paragraphs).len(),
    ensures
        chunk_within_limits(paragraphs, planned_chunks(paragraphs)[k]),
{
    lemma_plan_prefix_invariant(paragraphs, paragraphs.len() as int);
    let st = plan_prefix(paragraphs, paragraphs.len() as int);
    lemma_flush_keeps(paragraphs, paragraphs.len() as int, st);
}

/// The indices of a planned chunk are indices of paragraphs.
pub proof fn lemma_planned_indices_in_range(paragraphs: Seq<Seq<char>>, k: int)
    requires
        0 <= k < planned_chunks(paragraphs).len(),
    ensures
        forall|j: int|
            0 <= j < planned_chunks(paragraphs)[k].len() ==> 0 <= #[trigger] planned_chunks(paragraphs)[k][j]
                < paragraphs.len(),
{
    lemma_plan_chunks_within_limits(paragraphs, k);
}

/// The trimmed paragraphs at `indices`.
pub open spec fn trimmed_at(paragraphs: Seq<Seq<char>>, indices: Seq<int>) -> Seq<Seq<char>> {
    indices.map_values(|i: int| trim(paragraphs[i]))
}

/// Two occurrences of the paragraph separator never overlap.
pub proof fn lemma_separator_overlap_free()
    ensures
        overlap_free(PARAGRAPH_SEPARATOR@),
{
    reveal_strlit("[[__PARAGRAPH_BREAK__]]");
    let sep = PARAGRAPH_SEPARATOR@;
    assert forall|l: int| 0 < l < sep.len() implies #[trigger] shift_disagrees(sep, l) by {
        if l == 1 {
            assert(sep[l + 1] != sep[1]);
        } else {
            assert(sep[l + 0] != sep[0]);
        }
    }
}

/// A reply that repeats a chunk's text gives back, segment by segment, the
/// chunk's trimmed paragraphs, provided none of the paragraphs holds the
/// separator.
pub proof fn lemma_echoed_chunk_restores(paragraphs: Seq<Seq<char>>, indices: Seq<int>)
    requires
        indices.len() >= 1,
        forall|k: int| 0 <= k < indices.len() ==> free_of(#[trigger] paragraphs[indices[k]], PARAGRAPH_SEPARATOR@),
    ensures
        split_trim(chunk_text(paragraphs, indices), PARAGRAPH_SEPARATOR@) == trimmed_at(paragraphs, indices),
{
    reveal_strlit("[[__PARAGRAPH_BREAK__]]");
    let parts = trimmed_at(paragraphs, indices);
    lemma_separator_overlap_free();
    assert forall|k: int| 0 <= k < parts.len() implies free_of(#[trigger] parts[k], PARAGRAPH_SEPARATOR@) by {
        lemma_trim_free_of(paragraphs[indices[k]], PARAGRAPH_SEPARATOR@);
    }
    lemma_split_join(parts, PARAGRAPH_SEPARATOR@);
    assert(chunk_text(paragraphs, indices) == join(parts, PARAGRAPH_SEPARATOR@));
    assert forall|j: int| 0 <= j < parts.len() implies #[trigger] trim(parts[j]) == parts[j] by {
        lemma_trim_idempotent(paragraphs[indices[j]]);
    }
    assert(split(join(parts, PARAGRAPH_SEPARATOR@), PARAGRAPH_SEPARATOR@).map_values(|p: Seq<char>| trim(p)) =~= parts);
}

/// A translated chunk whose number of segments differs from its paragraphs.
#[derive(Debug, Clone, Copy, PartialEq, Eq)]
pub struct ChunkMismatch {
    pub returned: usize,
    pub expected: usize,
}

impl ChunkMismatch {
    pub open spec fn spec_message(&self) -> Seq<char> {
        "translation returned "@ + decimal(self.returned as nat) + " segments but "@ + decimal(
            self.expected as nat,
        ) + " were expected"@
    }

    pub fn message(&self) -> (res: String)
        ensures
            res@ == self.spec_message(),
    {
        let mut out = String::new();
        push_str(&mut out, "translation returned ");
        push_decimal(&mut out, self.returned as u64);
        push_str(&mut out, " segments but ");
        push_decimal(&mut out, self.expected as u64);
        push_str(&mut out, " were expected");
        assert(out@ =~= self.spec_message());
        out
    }
}

/// The paragraphs after writing `parts[k]` to paragraph `indices[k]`, for
/// the first `n` positions in order.
pub open spec fn write_segments(paragraphs: Seq<Seq<char>>, indices: Seq<int>, parts: Seq<Seq<char>>, n: int) -> Seq<Seq<char>>
    decreases n,
{
    if n <= 0 {
        paragraphs
    } else {
        write_segments(paragraphs, indices, parts, n - 1).update(indices[n - 1], parts[n - 1])
    }
}

/// Writes a translated chunk back: the translation is split at the
/// paragraph separator and each trimmed segment replaces its paragraph; a
/// translation with another number of segments changes nothing.
pub fn apply_chunk_translation(
    paragraphs: &mut Vec<String>,
    chunk: &TranslationChunk,
    translated: &str,
) -> (res: Result<(), ChunkMismatch>)
    requires
        forall|k: int|
            0 <= k < chunk.paragraph_indices@.len() ==> #[trigger] chunk.paragraph_indices@[k] < old(
                paragraphs,
            )@.len(),
    ensures
        final(paragraphs)@.len() == old(paragraphs)@.len(),
        ({
            let parts = split_trim(translated@, PARAGRAPH_SEPARATOR@);
            let indices = index_view(chunk.paragraph_indices@);
            if parts.len() != indices.len() {
                &&& res == Err::<(), ChunkMismatch>(
                    ChunkMismatch { returned: parts.len() as usize, expected: indices.len() as usize },
                )
                &&& final(paragraphs)@ == old(paragraphs)@
            } else {
                &&& res is Ok
                &&& views_of(final(paragraphs)@) == write_segments(
                    views_of(old(paragraphs)@),
                    indices,
                    parts,
                    indices.len() as int,
                )
            }
        }),
{
    proof {
        reveal_strlit("[[__PARAGRAPH_BREAK__]]");
    }
    let parts = split_trimmed(translated, PARAGRAPH_SEPARATOR);
    let indices = &chunk.paragraph_indices;
    if parts.len() != indices.len() {
        return Err(ChunkMismatch { returned: parts.len(), expected: indices.len() });
    }
    let ghost start = views_of(paragraphs@);
    let mut k: usize = 0;
    while k < indices.len()
        invariant
            k <= indices.len(),
            parts@.len() == indices@.len(),
            forall|j: int| 0 <= j < indices@.len() ==> #[trigger] indices@[j] < start.len(),
            views_of(paragraphs@) == write_segments(start, index_view(indices@), views_of(parts@), k as int),
            paragraphs@.len() == start.len(),
        decreases indices.len() - k,
    {
        let target = indices[k];
        let value = parts[k].clone();
        paragraphs.set(target, value);
        k = k + 1;
        proof {
            assert(views_of(paragraphs@) =~= write_segments(start, index_view(indices@), views_of(parts@), k as int));
        }
    }
    Ok(())
}

} // verus!
