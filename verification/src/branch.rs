//! Branch tables: the `br_table` instruction's immediate, decoded lazily.
//!
//! Construction reads only the label count and the default label, and retains
//! the raw byte span of the labels; the labels themselves are decoded on
//! demand by [`BrTable::targets`]. Equality between two tables is structural
//! over the count, the default label and the remaining raw bytes — it is not
//! semantic label-sequence equality beyond what identical bytes imply.

use vstd::prelude::*;
use crate::error::{BinaryReaderError, Result};
use crate::reader::{BinaryReader, spec_var_u32};

verus! {

/// A `br_table` entries representation: the label count, the default label,
/// and the raw, not yet decoded bytes of the labels.
#[derive(Clone, Debug)]
pub struct BrTable<'a> {
    pub(crate) span: &'a [u8],
    pub(crate) span_offset: usize,
    pub(crate) cnt: u32,
    pub(crate) default: u32,
}

// ---------------------------------------------------------------------------
// Spec-level decoding.
// ---------------------------------------------------------------------------

/// The position just past `n` consecutive 32-bit variable-length labels.
pub open spec fn spec_skip_labels(s: Seq<u8>, pos: int, n: nat) -> Option<int>
    decreases n,
{
    if n == 0 {
        Some(pos)
    } else {
        match spec_var_u32(s, pos) {
            None => None,
            Some((_, p1)) => spec_skip_labels(s, p1, (n - 1) as nat),
        }
    }
}

/// `n` consecutive 32-bit variable-length labels.
pub open spec fn spec_labels(s: Seq<u8>, pos: int, n: nat) -> Option<(Seq<u32>, int)>
    decreases n,
{
    if n == 0 {
        Some((Seq::empty(), pos))
    } else {
        match spec_var_u32(s, pos) {
            None => None,
            Some((l, p1)) => match spec_labels(s, p1, (n - 1) as nat) {
                None => None,
                Some((rest, end)) => Some((seq![l] + rest, end)),
            },
        }
    }
}

/// A branch-table immediate: a label count, that many labels (kept as a raw
/// span), then the default label. The result gives the count, the default,
/// and the start and end of the label span, then the final position.
pub open spec fn spec_br_table(s: Seq<u8>, pos: int) -> Option<((u32, u32, int, int), int)> {
    match spec_var_u32(s, pos) {
        None => None,
        Some((cnt, p1)) => match spec_skip_labels(s, p1, cnt as nat) {
            None => None,
            Some(p2) => match spec_var_u32(s, p2) {
                None => None,
                Some((default, end)) => Some(((cnt, default, p1, p2), end)),
            },
        },
    }
}

/// A decoded label sequence consumes at least one byte per label and stays
/// in range.
pub proof fn lemma_spec_labels_bound(s: Seq<u8>, pos: int, n: nat)
    requires
        0 <= pos <= s.len(),
    ensures
        spec_labels(s, pos, n) matches Some(ve) ==> {
            &&& ve.0.len() == n
            &&& pos <= ve.1 <= s.len()
        },
    decreases n,
{
    if n > 0 {
        match spec_var_u32(s, pos) {
            None => {},
            Some((_, p1)) => {
                crate::reader::lemma_spec_leb_bound(s, pos, 5);
                lemma_spec_labels_bound(s, p1, (n - 1) as nat);
            },
        }
    }
}

/// Skipping labels and decoding them walk the same bytes: both succeed on
/// the same inputs and stop at the same position.
pub proof fn lemma_skip_labels_agree(s: Seq<u8>, pos: int, n: nat)
    ensures
        spec_skip_labels(s, pos, n) is Some <==> spec_labels(s, pos, n) is Some,
        spec_skip_labels(s, pos, n) matches Some(p) ==> spec_labels(s, pos, n)->Some_0.1 == p,
    decreases n,
{
    if n > 0 {
        match spec_var_u32(s, pos) {
            None => {},
            Some((_, p1)) => {
                lemma_skip_labels_agree(s, p1, (n - 1) as nat);
            },
        }
    }
}

/// A label-sequence decode depends only on the bytes it consumes: decoding
/// the same byte window at another position of another sequence gives the
/// same labels and consumes the same number of bytes.
pub proof fn lemma_labels_transport(s: Seq<u8>, pos: int, t: Seq<u8>, q: int, n: nat)
    requires
        0 <= pos <= s.len(),
        0 <= q,
        spec_labels(s, pos, n) is Some,
        q + (spec_labels(s, pos, n)->Some_0.1 - pos) <= t.len(),
        forall|i: int|
            0 <= i < spec_labels(s, pos, n)->Some_0.1 - pos ==> s[pos + i] == #[trigger] t[q + i],
    ensures
        spec_labels(t, q, n) == Some(
            (spec_labels(s, pos, n)->Some_0.0, q + (spec_labels(s, pos, n)->Some_0.1 - pos)),
        ),
    decreases n,
{
    if n > 0 {
        let end = spec_labels(s, pos, n)->Some_0.1;
        let (l, p1) = spec_var_u32(s, pos)->Some_0;
        crate::reader::lemma_spec_leb_bound(s, pos, 5);
        lemma_spec_labels_bound(s, p1, (n - 1) as nat);
        crate::reader::lemma_var_u32_transport(s, pos, t, q);
        let q1 = q + (p1 - pos);
        assert forall|i: int| 0 <= i < end - p1 implies s[p1 + i] == #[trigger] t[q1 + i] by {
            assert(s[pos + (i + (p1 - pos))] == t[q + (i + (p1 - pos))]);
        }
        lemma_labels_transport(s, p1, t, q1, (n - 1) as nat);
    }
}

/// Branch-table laziness is lossless: whenever a branch-table immediate
/// decodes, the raw label span retained at construction decodes, on demand,
/// to exactly the label sequence sitting in the original byte stream, while
/// the count and the default label are available without that decode.
pub proof fn lemma_br_table_span_decodes_to_skipped_labels(s: Seq<u8>, pos: int)
    requires
        0 <= pos <= s.len(),
        spec_br_table(s, pos) is Some,
    ensures
        ({
            let t = spec_br_table(s, pos)->Some_0.0;
            let span = s.subrange(t.2, t.3);
            &&& spec_labels(s, t.2, t.0 as nat) is Some
            &&& spec_labels(span, 0, t.0 as nat) == Some(
                (spec_labels(s, t.2, t.0 as nat)->Some_0.0, span.len() as int),
            )
        }),
{
    let t = spec_br_table(s, pos)->Some_0.0;
    let cnt = t.0;
    let p1 = t.2;
    let p2 = t.3;
    crate::reader::lemma_spec_leb_bound(s, pos, 5);
    lemma_skip_labels_agree(s, p1, cnt as nat);
    lemma_spec_labels_bound(s, p1, cnt as nat);
    let span = s.subrange(p1, p2);
    assert forall|i: int| 0 <= i < p2 - p1 implies s[p1 + i] == #[trigger] span[0 + i] by {
        assert(span[i] == s[p1 + i]);
    }
    lemma_labels_transport(s, p1, span, 0, cnt as nat);
}

impl<'a> BrTable<'a> {
    /// The label count.
    pub closed spec fn spec_cnt(&self) -> u32 {
        self.cnt
    }

    /// The default label.
    pub closed spec fn spec_default(&self) -> u32 {
        self.default
    }

    /// The raw bytes of the not yet decoded labels.
    pub closed spec fn spec_span(&self) -> Seq<u8> {
        self.span@
    }

    /// The absolute offset of the first label byte.
    pub closed spec fn spec_span_offset(&self) -> int {
        self.span_offset as int
    }

    /// Well-formedness: absolute offsets within the span fit in `usize`.
    pub open spec fn wf(&self) -> bool {
        self.spec_span_offset() + self.spec_span().len() <= usize::MAX as int
    }

    /// The number of labels in the table, the default label not included;
    /// known from construction without decoding any label.
    pub fn len(&self) -> (r: u32)
        ensures
            r == self.spec_cnt(),
    {
        self.cnt
    }

    /// The default label, known from construction without decoding the
    /// other labels.
    pub fn default(&self) -> (r: u32)
        ensures
            r == self.spec_default(),
    {
        self.default
    }

    /// Decodes the full label sequence from the retained raw span, not
    /// including the default label. Fails iff any label in the span is
    /// malformed.
    pub fn targets(&self) -> (r: Result<Vec<u32>>)
        requires
            self.wf(),
        ensures
            match spec_labels(self.spec_span(), 0, self.spec_cnt() as nat) {
                Some(ve) => r matches Ok(v) && v@ == ve.0,
                None => r is Err,
            },
    {
        let mut rd: BinaryReader = BinaryReader::new(self.span, self.span_offset);
        let ghost s = self.span@;
        let mut labels: Vec<u32> = Vec::new();
        let mut i: u32 = 0;
        #[verifier::loop_isolation(false)]
        while i < self.cnt
            invariant
                rd.wf(),
                rd.spec_data() == s,
                i <= self.cnt,
                spec_labels(s, 0, self.spec_cnt() as nat) == (
                    match spec_labels(s, rd.spec_pos(), (self.spec_cnt() - i) as nat) {
                        Some(suf) => Some((labels@ + suf.0, suf.1)),
                        None => None::<(Seq<u32>, int)>,
                    }
                ),
            decreases self.cnt - i,
        {
            let ghost cur = rd.spec_pos();
            let ghost acc = labels@;
            let l: u32 = match rd.read_var_u32() {
                Ok(l) => l,
                Err(e) => {
                    proof {
                        assert(spec_labels(s, cur, (self.spec_cnt() - i) as nat) is None);
                    }
                    return Err(e);
                },
            };
            labels.push(l);
            i = i + 1;
            proof {
                match spec_labels(s, rd.spec_pos(), (self.spec_cnt() - i) as nat) {
                    Some(suf2) => {
                        assert(acc + (seq![l] + suf2.0) =~= (acc + seq![l]) + suf2.0);
                        assert(labels@ =~= acc + seq![l]);
                    },
                    None => {},
                }
            }
        }
        Ok(labels)
    }
}

/// Byte-for-byte equality of two slices.
fn slice_eq(a: &[u8], b: &[u8]) -> (r: bool)
    ensures
        r == (a@ == b@),
{
    if a.len() != b.len() {
        proof {
            assert(a@ != b@);
        }
        return false;
    }
    let n: usize = a.len();
    let mut i: usize = 0;
    #[verifier::loop_isolation(false)]
    while i < n
        invariant
            i <= n,
            forall|j: int| 0 <= j < i ==> a@[j] == b@[j],
        decreases n - i,
    {
        let x: u8 = *vstd::slice::slice_index_get(a, i);
        let y: u8 = *vstd::slice::slice_index_get(b, i);
        if x != y {
            proof {
                assert(a@ != b@);
            }
            return false;
        }
        i = i + 1;
    }
    proof {
        assert(a@ =~= b@);
    }
    true
}

impl<'a> PartialEq for BrTable<'a> {
    /// Structural equality over the count, the default label and the raw
    /// remaining label bytes; two tables over different buffers are equal
    /// whenever those agree.
    fn eq(&self, other: &Self) -> (r: bool) {
        self.cnt == other.cnt && self.default == other.default
            && slice_eq(self.span, other.span)
    }
}

impl<'a> vstd::std_specs::cmp::PartialEqSpecImpl for BrTable<'a> {
    open spec fn obeys_eq_spec() -> bool {
        true
    }

    open spec fn eq_spec(&self, other: &BrTable<'a>) -> bool {
        self.spec_cnt() == other.spec_cnt() && self.spec_default() == other.spec_default()
            && self.spec_span() == other.spec_span()
    }
}

impl<'a> Eq for BrTable<'a> {}

impl<'a> BinaryReader<'a> {
    /// Reads a branch-table immediate: the label count, a skip over that
    /// many labels retaining their raw span, then the default label. No
    /// label is decoded and nothing proportional to the count is allocated.
    #[verifier::loop_isolation(false)]
    pub fn read_br_table(&mut self) -> (r: Result<BrTable<'a>>)
        requires
            old(self).wf(),
        ensures
            final(self).wf(),
            final(self).spec_data() == old(self).spec_data(),
            final(self).spec_offset() == old(self).spec_offset(),
            final(self).spec_pos() >= old(self).spec_pos(),
            match spec_br_table(old(self).spec_data(), old(self).spec_pos()) {
                Some(ve) => r matches Ok(t) && t.spec_cnt() == ve.0.0
                    && t.spec_default() == ve.0.1
                    && t.spec_span() == old(self).spec_data().subrange(ve.0.2, ve.0.3)
                    && t.spec_span_offset() == old(self).spec_offset() + ve.0.2
                    && t.wf()
                    && final(self).spec_pos() == ve.1,
                None => r is Err,
            },
    {
        let ghost s = old(self).spec_data();
        let cnt: u32 = match self.read_var_u32() {
            Ok(v) => v,
            Err(e) => return Err(e),
        };
        let span_start: usize = self.pos_index();
        let span_offset: usize = self.original_position();
        let mut i: u32 = 0;
        while i < cnt
            invariant
                self.wf(),
                self.spec_data() == s,
                self.spec_offset() == old(self).spec_offset(),
                self.spec_pos() >= span_start as int,
                i <= cnt,
                spec_skip_labels(s, span_start as int, cnt as nat) == spec_skip_labels(
                    s,
                    self.spec_pos(),
                    (cnt - i) as nat,
                ),
            decreases cnt - i,
        {
            let ghost cur = self.spec_pos();
            match self.read_var_u32() {
                Ok(_) => {},
                Err(e) => {
                    proof {
                        assert(spec_skip_labels(s, cur, (cnt - i) as nat) is None);
                    }
                    return Err(e);
                },
            };
            i = i + 1;
        }
        let span_end: usize = self.pos_index();
        let default: u32 = match self.read_var_u32() {
            Ok(v) => v,
            Err(e) => return Err(e),
        };
        let span: &'a [u8] = self.subslice(span_start, span_end);
        Ok(BrTable { span, span_offset, cnt, default })
    }
}

} // verus!
