use vstd::prelude::*;

verus! {

/// Size in pixels of the composited video, as the compositor negotiated it.
#[derive(Clone, Copy, Debug, PartialEq, Eq, Structural)]
pub struct StreamSize {
    width: i32,
    height: i32,
}

impl View for StreamSize {
    type V = (int, int);

    closed spec fn view(&self) -> (int, int) {
        (self.width as int, self.height as int)
    }
}

impl StreamSize {
    pub fn new(width: i32, height: i32) -> (size: Self)
        ensures
            size@ == (width as int, height as int),
    {
        StreamSize { width, height }
    }

    pub fn width(self) -> (width: i32)
        ensures
            width == self@.0,
    {
        self.width
    }

    pub fn height(self) -> (height: i32)
        ensures
            height == self@.1,
    {
        self.height
    }
}

/// Width a stream contributes to the layout: its width when it has a size.
pub open spec fn width_of(width: Option<i32>) -> int {
    match width {
        Some(w) => w as int,
        None => 0,
    }
}

/// Sum of the widths of the first `k` streams.
pub open spec fn width_before(widths: Seq<Option<i32>>, k: int) -> int
    decreases k,
{
    if k <= 0 {
        0
    } else {
        width_before(widths, k - 1) + width_of(widths[k - 1])
    }
}

/// Whether each of the first `k` streams has a size.
pub open spec fn sized_up_to(widths: Seq<Option<i32>>, k: int) -> bool {
    forall|j: int| 0 <= j < k ==> (#[trigger] widths[j]) is Some
}

/// Whether every running total of widths that placing the streams computes
/// fits in an `i32`: the totals after each stream of the leading run of
/// streams that have a size.
pub open spec fn offsets_fit_spec(widths: Seq<Option<i32>>) -> bool {
    forall|k: int|
        0 <= k <= widths.len() && #[trigger] sized_up_to(widths, k) ==> i32::MIN <= width_before(
            widths,
            k,
        ) <= i32::MAX
}

/// Horizontal placement of captured streams in the composited picture.
///
/// Streams are laid out left to right in the order given. Placement stops at
/// the first stream whose size is unknown: that stream still gets its
/// offset, and `missing_size` names it.
pub struct StreamLayout {
    /// `offsets[i]` is the x position of stream `i`.
    pub offsets: Vec<i32>,
    /// Index of the first stream without a size, if any.
    pub missing_size: Option<usize>,
}

/// Whether `offsets` and `missing_size` are the layout of streams whose
/// widths are `widths` (`None` for a stream without a size).
pub open spec fn is_layout_of(
    offsets: Seq<i32>,
    missing_size: Option<usize>,
    widths: Seq<Option<i32>>,
) -> bool {
    &&& match missing_size {
        None => {
            &&& sized_up_to(widths, widths.len() as int)
            &&& offsets.len() == widths.len()
        },
        Some(k) => {
            &&& k < widths.len()
            &&& widths[k as int] is None
            &&& sized_up_to(widths, k as int)
            &&& offsets.len() == k + 1
        },
    }
    &&& forall|i: int| 0 <= i < offsets.len() ==> #[trigger] offsets[i] == width_before(widths, i)
}

/// Whether the running totals of `widths` fit in an `i32`, so that
/// `stream_offsets` can place them.
pub fn offsets_fit(widths: &Vec<Option<i32>>) -> (fit: bool)
    ensures
        fit == offsets_fit_spec(widths@),
        fit == (forall|k: int|
            0 <= k <= widths@.len() && (forall|j: int| 0 <= j < k ==> (#[trigger] widths@[j]) is Some)
                ==> i32::MIN <= #[trigger] width_before(widths@, k) <= i32::MAX),
{
    proof {
        lemma_offsets_fit_meaning(widths@);
    }
    let n = widths.len();
    let mut total: i64 = 0;
    let mut k: usize = 0;
    while k < n
        invariant
            n == widths@.len(),
            k <= n,
            sized_up_to(widths@, k as int),
            total == width_before(widths@, k as int),
            forall|j: int|
                0 <= j <= k && #[trigger] sized_up_to(widths@, j) ==> i32::MIN <= width_before(
                    widths@,
                    j,
                ) <= i32::MAX,
        decreases n - k,
    {
        match widths[k] {
            None => {
                assert forall|j: int|
                    0 <= j <= widths@.len() && #[trigger] sized_up_to(widths@, j) implies i32::MIN
                    <= width_before(widths@, j) <= i32::MAX by {
                    if j > k {
                        assert(widths@[k as int] is Some);
                    }
                }
                proof {
                    lemma_offsets_fit_meaning(widths@);
                }
                return true;
            },
            Some(w) => {
                total = total + w as i64;
                k = k + 1;
                if total < i32::MIN as i64 || total > i32::MAX as i64 {
                    assert(sized_up_to(widths@, k as int));
                    proof {
                        lemma_offsets_fit_meaning(widths@);
                    }
                    return false;
                }
            },
        }
    }
    true
}

/// Lays out streams left to right: stream `i` is placed at the sum of the
/// widths of the streams before it. Placement stops at the first stream
/// without a size, which still gets its offset.
pub fn stream_offsets(widths: &Vec<Option<i32>>) -> (layout: StreamLayout)
    requires
        offsets_fit_spec(widths@),
    ensures
        is_layout_of(layout.offsets@, layout.missing_size, widths@),
{
    let n = widths.len();
    let mut offsets: Vec<i32> = Vec::new();
    let mut last_pos: i32 = 0;
    let mut i: usize = 0;
    while i < n
        invariant
            n == widths@.len(),
            i <= n,
            offsets_fit_spec(widths@),
            sized_up_to(widths@, i as int),
            offsets@.len() == i,
            last_pos == width_before(widths@, i as int),
            forall|j: int| 0 <= j < i ==> #[trigger] offsets@[j] == width_before(widths@, j),
        decreases n - i,
    {
        offsets.push(last_pos);
        match widths[i] {
            None => {
                return StreamLayout { offsets, missing_size: Some(i) };
            },
            Some(stream_width) => {
                assert(sized_up_to(widths@, i + 1));
                assert(i32::MIN <= width_before(widths@, i + 1) <= i32::MAX);
                last_pos = last_pos + stream_width;
                i = i + 1;
            },
        }
    }
    StreamLayout { offsets, missing_size: None }
}

/// The running total of widths starts at zero and grows by each stream's
/// width, which is the width it reports when it has a size.
pub proof fn lemma_width_before_steps(widths: Seq<Option<i32>>, k: int, w: i32)
    ensures
        width_before(widths, 0) == 0,
        0 <= k ==> width_before(widths, k + 1) == width_before(widths, k) + width_of(widths[k]),
        width_of(Some(w)) == w,
        width_of(None) == 0,
{
}

/// The widths fit exactly when every running total over the leading run of
/// streams that have a size lies within `i32`, for any number of streams.
pub proof fn lemma_offsets_fit_meaning(widths: Seq<Option<i32>>)
    ensures
        offsets_fit_spec(widths) <==> (forall|k: int|
            0 <= k <= widths.len() && (forall|j: int| 0 <= j < k ==> (#[trigger] widths[j]) is Some)
                ==> i32::MIN <= #[trigger] width_before(widths, k) <= i32::MAX),
{
    if offsets_fit_spec(widths) {
        assert forall|k: int|
            0 <= k <= widths.len() && (forall|j: int| 0 <= j < k ==> (#[trigger] widths[j]) is Some)
            implies i32::MIN <= #[trigger] width_before(widths, k) <= i32::MAX by {
            assert(sized_up_to(widths, k));
        }
    }
    if forall|k: int|
        0 <= k <= widths.len() && (forall|j: int| 0 <= j < k ==> (#[trigger] widths[j]) is Some)
            ==> i32::MIN <= #[trigger] width_before(widths, k) <= i32::MAX {
        assert forall|k: int|
            0 <= k <= widths.len() && #[trigger] sized_up_to(widths, k) implies i32::MIN
            <= width_before(widths, k) <= i32::MAX by {
            assert(forall|j: int| 0 <= j < k ==> (#[trigger] widths[j]) is Some);
            assert(i32::MIN <= width_before(widths, k) <= i32::MAX);
        }
    }
}

/// Running totals of widths that are not negative never decrease.
pub proof fn lemma_width_before_monotone(widths: Seq<Option<i32>>, i: int, j: int)
    requires
        0 <= i <= j <= widths.len(),
        forall|k: int| 0 <= k < widths.len() ==> width_of(#[trigger] widths[k]) >= 0,
    ensures
        0 <= width_before(widths, i) <= width_before(widths, j),
    decreases j,
{
    if j > 0 {
        if i < j {
            lemma_width_before_monotone(widths, i, j - 1);
        } else {
            lemma_width_before_monotone(widths, i - 1, j - 1);
        }
    }
}

/// Any number of streams with widths that are not negative fit when their
/// full total fits in an `i32`; for example four 1920-pixel screens fit.
pub proof fn lemma_nonnegative_widths_fit(widths: Seq<Option<i32>>)
    requires
        forall|k: int| 0 <= k < widths.len() ==> width_of(#[trigger] widths[k]) >= 0,
        width_before(widths, widths.len() as int) <= i32::MAX,
    ensures
        offsets_fit_spec(widths),
{
    assert forall|k: int|
        0 <= k <= widths.len() && #[trigger] sized_up_to(widths, k) implies i32::MIN
        <= width_before(widths, k) <= i32::MAX by {
        lemma_width_before_monotone(widths, k, widths.len() as int);
    }
}

/// Placed streams sit side by side without overlapping: when no width is
/// negative, each placed stream ends at or before the offset of every later
/// placed stream, and the first one starts at the left edge.
pub proof fn lemma_placed_streams_do_not_overlap(
    offsets: Seq<i32>,
    missing_size: Option<usize>,
    widths: Seq<Option<i32>>,
    i: int,
    j: int,
)
    requires
        is_layout_of(offsets, missing_size, widths),
        forall|k: int| 0 <= k < widths.len() ==> width_of(#[trigger] widths[k]) >= 0,
        0 <= i < j < offsets.len(),
    ensures
        offsets[0] == 0,
        offsets[i] + width_of(widths[i]) <= offsets[j],
    decreases j - i,
{
    assert(offsets[0] == width_before(widths, 0));
    assert(offsets[i] == width_before(widths, i));
    assert(offsets[j] == width_before(widths, j));
    if j > i + 1 {
        lemma_placed_streams_do_not_overlap(offsets, missing_size, widths, i, j - 1);
        assert(offsets[j - 1] == width_before(widths, j - 1));
        assert(width_of(widths[j - 1]) >= 0);
    }
}

} // verus!
