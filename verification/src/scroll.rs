use vstd::prelude::*;

verus! {

/// `a + b`, held to the range of `i32`.
pub open spec fn saturating_sum(a: int, b: int) -> int {
    if a + b > i32::MAX {
        i32::MAX as int
    } else if a + b < i32::MIN {
        i32::MIN as int
    } else {
        a + b
    }
}

/// The sum that a batch holds after `first` and then each amount of `rest`
/// was added to it, saturating at each addition.
pub open spec fn batch_total(first: int, rest: Seq<i32>) -> int
    decreases rest.len(),
{
    if rest.len() == 0 {
        first
    } else {
        saturating_sum(batch_total(first, rest.drop_last()), rest.last() as int)
    }
}

/// `first` plus every amount of `rest`, without bounds.
pub open spec fn exact_total(first: int, rest: Seq<i32>) -> int
    decreases rest.len(),
{
    if rest.len() == 0 {
        first
    } else {
        exact_total(first, rest.drop_last()) + rest.last() as int
    }
}

/// Saturation only bites at the bounds: as long as every running sum of a
/// window's amounts fits an `i32`, the batch scrolls by their exact sum.
pub proof fn lemma_batch_exact_within_bounds(first: i32, rest: Seq<i32>)
    requires
        forall|k: int|
            0 <= k <= rest.len() ==> i32::MIN <= #[trigger] exact_total(first as int, rest.take(k))
                <= i32::MAX,
    ensures
        batch_total(first as int, rest) == exact_total(first as int, rest),
    decreases rest.len(),
{
    assert(rest.take(rest.len() as int) =~= rest);
    if rest.len() > 0 {
        let shorter = rest.drop_last();
        assert forall|k: int| 0 <= k <= shorter.len() implies i32::MIN <= #[trigger] exact_total(
            first as int,
            shorter.take(k),
        ) <= i32::MAX by {
            assert(shorter.take(k) =~= rest.take(k));
        }
        lemma_batch_exact_within_bounds(first, shorter);
        assert(exact_total(first as int, rest.take(rest.len() as int)) == exact_total(
            first as int,
            rest,
        ));
    }
}

/// The sum of a sequence of amounts.
pub open spec fn seq_sum(s: Seq<i32>) -> int
    decreases s.len(),
{
    if s.len() == 0 {
        0
    } else {
        seq_sum(s.drop_last()) + s.last() as int
    }
}

/// What a window of amounts sums to, as a batch opened by its first amount
/// adds them up.
pub open spec fn window_total(w: Seq<i32>) -> int {
    batch_total(w[0] as int, w.drop_first())
}

/// The amounts scrolled for a stream of amounts that the throttle cut into
/// these windows, in order: each window's batch total, where it is not zero.
pub open spec fn sent_amounts(windows: Seq<Seq<i32>>) -> Seq<int>
    decreases windows.len(),
{
    if windows.len() == 0 {
        Seq::empty()
    } else {
        let before = sent_amounts(windows.drop_last());
        let t = window_total(windows.last());
        if t != 0 {
            before.push(t)
        } else {
            before
        }
    }
}

/// The sum of a sequence of integers.
pub open spec fn int_sum(s: Seq<int>) -> int
    decreases s.len(),
{
    if s.len() == 0 {
        0
    } else {
        int_sum(s.drop_last()) + s.last()
    }
}

/// The sum of all amounts in all windows.
pub open spec fn stream_sum(windows: Seq<Seq<i32>>) -> int
    decreases windows.len(),
{
    if windows.len() == 0 {
        0
    } else {
        stream_sum(windows.drop_last()) + seq_sum(windows.last())
    }
}

/// No running sum within the window leaves the range of `i32`.
pub open spec fn window_unsaturated(w: Seq<i32>) -> bool {
    forall|k: int|
        0 <= k <= w.len() - 1 ==> i32::MIN <= #[trigger] exact_total(
            w[0] as int,
            w.drop_first().take(k),
        ) <= i32::MAX
}

/// A batch opened by the first amount of a window and given the rest adds
/// up, without bounds, to the window's sum.
proof fn lemma_exact_total_is_sum(w: Seq<i32>)
    requires
        w.len() > 0,
    ensures
        exact_total(w[0] as int, w.drop_first()) == seq_sum(w),
    decreases w.len(),
{
    if w.len() == 1 {
        assert(w.drop_first() =~= Seq::<i32>::empty());
        assert(w.drop_last() =~= Seq::<i32>::empty());
        assert(seq_sum(w.drop_last()) == 0);
        assert(exact_total(w[0] as int, w.drop_first()) == w[0]);
    } else {
        let shorter = w.drop_last();
        lemma_exact_total_is_sum(shorter);
        assert(shorter[0] == w[0]);
        assert(w.drop_first().drop_last() =~= shorter.drop_first());
        assert(w.drop_first().last() == w.last());
        assert(w.drop_first().len() > 0);
        assert(exact_total(w[0] as int, w.drop_first()) == exact_total(
            w[0] as int,
            w.drop_first().drop_last(),
        ) + w.drop_first().last());
    }
}

/// However the throttle cuts a stream of amounts into windows, the amounts
/// scrolled are never zero and, as long as no window's running sum leaves
/// the range of `i32`, they add up to the sum of the whole stream.
pub proof fn lemma_stream_scrolls_its_sum(windows: Seq<Seq<i32>>)
    requires
        forall|i: int| 0 <= i < windows.len() ==> (#[trigger] windows[i]).len() > 0,
        forall|i: int| 0 <= i < windows.len() ==> window_unsaturated(#[trigger] windows[i]),
    ensures
        forall|j: int| 0 <= j < sent_amounts(windows).len() ==> sent_amounts(windows)[j] != 0,
        int_sum(sent_amounts(windows)) == stream_sum(windows),
    decreases windows.len(),
{
    if windows.len() > 0 {
        let shorter = windows.drop_last();
        assert forall|i: int| 0 <= i < shorter.len() implies (#[trigger] shorter[i]).len() > 0
            && window_unsaturated(shorter[i]) by {
            assert(shorter[i] == windows[i]);
        }
        lemma_stream_scrolls_its_sum(shorter);
        let w = windows.last();
        assert(w == windows[windows.len() - 1]);
        assert(window_unsaturated(w));
        lemma_batch_exact_within_bounds(w[0], w.drop_first());
        lemma_exact_total_is_sum(w);
        let before = sent_amounts(shorter);
        if window_total(w) != 0 {
            assert(before.push(window_total(w)).drop_last() =~= before);
        }
    }
}

/// Adding to a batch sums exactly while the sum fits an `i32`, and holds at
/// the nearer bound otherwise.
pub proof fn lemma_saturating_sum(a: int, b: int)
    ensures
        -2147483648 <= a + b <= 2147483647 ==> saturating_sum(a, b) == a + b,
        a + b > 2147483647 ==> saturating_sum(a, b) == 2147483647,
        a + b < -2147483648 ==> saturating_sum(a, b) == -2147483648,
{
}

/// The scroll amounts that arrive within one throttle window, summed.
pub struct ScrollBatch {
    acc: i32,
}

impl ScrollBatch {
    /// The sum so far.
    pub closed spec fn total(self) -> int {
        self.acc as int
    }

    /// A window opened by the amount `first`.
    pub fn start(first: i32) -> (b: ScrollBatch)
        ensures
            b.total() == first,
    {
        ScrollBatch { acc: first }
    }

    /// Adds an amount that arrived within the window; the sum saturates at
    /// the bounds of `i32`.
    pub fn add(&mut self, amount: i32)
        ensures
            final(self).total() == saturating_sum(old(self).total(), amount as int),
    {
        let s: i64 = self.acc as i64 + amount as i64;
        self.acc = if s > i32::MAX as i64 {
            i32::MAX
        } else if s < i32::MIN as i64 {
            i32::MIN
        } else {
            s as i32
        };
    }

    /// The amount to scroll once the window closes: none when the amounts
    /// cancelled out.
    pub fn amount(&self) -> (r: Option<i32>)
        ensures
            r == (if self.total() == 0 {
                None
            } else {
                Some(self.total() as i32)
            }),
    {
        if self.acc == 0 {
            None
        } else {
            Some(self.acc)
        }
    }
}

/// The views of a list of string slices.
pub open spec fn views<'a>(args: Seq<&'a str>) -> Seq<Seq<char>> {
    args.map_values(|a: &'a str| a@)
}

/// The arguments of `ydotool` that click as `value` names it.
pub fn click_args<'a>(value: &'a str) -> (args: Vec<&'a str>)
    ensures
        views(args@) == seq!["click"@, value@],
{
    let mut args: Vec<&'a str> = Vec::new();
    args.push("click");
    args.push(value);
    assert(views(args@) =~= seq!["click"@, value@]);
    args
}

/// The arguments of `ydotool` that scroll the wheel vertically by the amount
/// that `value` writes out.
pub fn scroll_args<'a>(value: &'a str) -> (args: Vec<&'a str>)
    ensures
        views(args@) == seq!["mousemove"@, "-w"@, "--"@, "0"@, value@],
{
    let mut args: Vec<&'a str> = Vec::new();
    args.push("mousemove");
    args.push("-w");
    args.push("--");
    args.push("0");
    args.push(value);
    assert(views(args@) =~= seq!["mousemove"@, "-w"@, "--"@, "0"@, value@]);
    args
}

} // verus!
