use vstd::prelude::*;
use vstd::slice::slice_index_get;
use vstd::slice::slice_subrange;

verus! {

/// Where a matched boundary element is placed: `Before` opens the next run
/// with it, `After` closes the current run with it.
pub enum Mode {
    Before,
    After,
}

/// Holds when `b` is a result that the matcher's contract allows for the
/// element `x`. A call of the matcher on `x` that returned `b` establishes
/// it; for a matcher whose contract fixes its result, it pins `b` down.
pub open spec fn matcher_returns<T, F: Fn(&T) -> bool>(f: F, x: T, b: bool) -> bool {
    call_ensures(f, (&x,), b)
}

/// Holds when the matcher may be called on every element reference.
pub open spec fn matcher_callable<T, F: Fn(&T) -> bool>(f: F) -> bool {
    forall|x: &T| #[trigger] call_requires(f, (x,))
}

/// One pull of a run producer over `data`: from cursor `pre` it either
/// signals exhaustion (only at the end of `data`, leaving the cursor in
/// place) or produces the contiguous, non-empty run `[pre, post)` and moves
/// the cursor to `post`.
pub open spec fn pull_result<T>(data: Seq<T>, pre: int, post: int, produced: Option<Seq<T>>) -> bool {
    if pre == data.len() {
        &&& post == pre
        &&& produced is None
    } else {
        &&& 0 <= pre < post <= data.len()
        &&& produced == Some(data.subrange(pre, post))
    }
}

/// The produced run as a mathematical value.
pub open spec fn produced_view<T>(r: Option<&[T]>) -> Option<Seq<T>> {
    match r {
        Some(run) => Some(run@),
        None => None,
    }
}

/// What the matcher decided during a `Before`-mode pull that moved the
/// cursor from `start` to `end`: the boundary element `data[end]` matched,
/// and no element strictly between `start` and the boundary did. A match at
/// `start` itself is absorbed into the run and leaves no trace here. When
/// the run reaches the end of `data`, nothing after `start` matched (unless
/// `start` was already the last position, where either decision produces
/// the same final run).
pub open spec fn before_step_matches<T, F: Fn(&T) -> bool>(
    f: F,
    data: Seq<T>,
    start: int,
    end: int,
) -> bool {
    &&& end < data.len() ==> {
        &&& matcher_returns(f, data[end], true)
        &&& forall|j: int| start < j < end ==> matcher_returns(f, data[j], false)
    }
    &&& end == data.len() && start < data.len() - 1 ==> forall|j: int|
        start < j < data.len() ==> matcher_returns(f, data[j], false)
}

/// What the matcher decided during an `After`-mode pull that moved the
/// cursor from `start` to `end`: the run's last element `data[end - 1]`
/// matched, and no earlier element of the run did. When the run reaches the
/// end of `data`, no element before the last matched (the last element's
/// decision cannot be observed: either way the run ends there).
pub open spec fn after_step_matches<T, F: Fn(&T) -> bool>(
    f: F,
    data: Seq<T>,
    start: int,
    end: int,
) -> bool {
    &&& end < data.len() ==> {
        &&& matcher_returns(f, data[end - 1], true)
        &&& forall|j: int| start <= j < end - 1 ==> matcher_returns(f, data[j], false)
    }
    &&& end == data.len() ==> forall|j: int|
        start <= j < data.len() - 1 ==> matcher_returns(f, data[j], false)
}

/// A lazy producer of contiguous runs over a borrowed slice. It holds only
/// a cursor beyond the borrowed data, the predicate and the mode; produced
/// runs borrow from the slice, not from the producer. Meant for a single
/// consumer pulling runs in sequence with `next`.
pub struct SplitInc<'a, T, F> {
    index: usize,
    data: &'a [T],
    matcher: F,
    mode: Mode,
}

impl<'a, T, F: Fn(&T) -> bool> SplitInc<'a, T, F> {
    /// The source sequence being split.
    pub closed spec fn src(self) -> Seq<T> {
        self.data@
    }

    /// The cursor: the start of the next unproduced run, or the length of
    /// the source once exhausted.
    pub closed spec fn cursor(self) -> int {
        self.index as int
    }

    /// The placement mode fixed at construction.
    pub closed spec fn mode(self) -> Mode {
        self.mode
    }

    /// The boundary predicate fixed at construction.
    pub closed spec fn pred(self) -> F {
        self.matcher
    }

    /// The cursor never runs past the source, and the predicate accepts
    /// every element reference.
    pub open spec fn wf(self) -> bool {
        &&& self.cursor() <= self.src().len()
        &&& matcher_callable(self.pred())
    }

    /// Creates a `Before`-mode splitter over `data`: a matched element opens
    /// the following run. Construction never calls the matcher.
    pub fn split_before(data: &'a [T], matcher: F) -> (r: Self)
        requires
            matcher_callable(matcher),
        ensures
            r.wf(),
            r.src() == data@,
            r.cursor() == 0,
            r.mode() == Mode::Before,
            r.pred() == matcher,
    {
        SplitInc { index: 0, data, matcher, mode: Mode::Before }
    }

    /// Creates an `After`-mode splitter over `data`: a matched element closes
    /// the current run. Construction never calls the matcher.
    pub fn split_after(data: &'a [T], matcher: F) -> (r: Self)
        requires
            matcher_callable(matcher),
        ensures
            r.wf(),
            r.src() == data@,
            r.cursor() == 0,
            r.mode() == Mode::After,
            r.pred() == matcher,
    {
        SplitInc { index: 0, data, matcher, mode: Mode::After }
    }

    /// One `Before`-mode pull: scans forward from the cursor and emits the
    /// run that ends just before the next boundary element, absorbing a
    /// boundary at the cursor itself so that no run is empty.
    #[verifier::loop_isolation(false)]
    fn iter_before(&mut self) -> (r: Option<&'a [T]>)
        requires
            old(self).wf(),
        ensures
            final(self).wf(),
            final(self).src() == old(self).src(),
            final(self).mode() == old(self).mode(),
            final(self).pred() == old(self).pred(),
            pull_result(
                final(self).src(),
                old(self).cursor(),
                final(self).cursor(),
                produced_view(r),
            ),
            before_step_matches(
                final(self).pred(),
                final(self).src(),
                old(self).cursor(),
                final(self).cursor(),
            ),
    {
        // Short circuit on completion
        if self.index == self.data.len() {
            return None;
        }

        // Select search range
        let index = self.index;

        let mut i = index;
        while i < self.data.len()
            invariant
                *self == *old(self),
                index == self.index,
                index <= i < self.data@.len(),
                forall|j: int|
                    index < j < i ==> matcher_returns(self.matcher, self.data@[j], false),
            decreases self.data@.len() - i,
        {
            if (self.matcher)(slice_index_get(self.data, i)) {
                // If our match is in the first position, and we're not at the
                // end, continue searching
                if i == index && i < self.data.len() - 1 {
                    i = i + 1;
                    continue;
                } else if i == index {
                    // If our match is in the first position, and we are at
                    // the end, return the last entry
                    self.index = self.data.len();
                    return Some(slice_subrange(self.data, index, self.data.len()));
                }
                // When a match is found, update the cursor and return the
                // preceding data
                self.index = i;
                return Some(slice_subrange(self.data, index, i));
            }
            // When we're out of data, return anything left
            if i == self.data.len() - 1 {
                self.index = self.data.len();
                return Some(slice_subrange(self.data, index, self.data.len()));
            }
            i = i + 1;
        }
        None
    }

    /// One `After`-mode pull: scans forward from the cursor and emits the
    /// run that ends with the next boundary element.
    #[verifier::loop_isolation(false)]
    fn iter_after(&mut self) -> (r: Option<&'a [T]>)
        requires
            old(self).wf(),
        ensures
            final(self).wf(),
            final(self).src() == old(self).src(),
            final(self).mode() == old(self).mode(),
            final(self).pred() == old(self).pred(),
            pull_result(
                final(self).src(),
                old(self).cursor(),
                final(self).cursor(),
                produced_view(r),
            ),
            after_step_matches(
                final(self).pred(),
                final(self).src(),
                old(self).cursor(),
                final(self).cursor(),
            ),
    {
        // Short circuit on completion
        if self.index == self.data.len() {
            return None;
        }

        // Select search range
        let index = self.index;

        let mut i = index;
        while i < self.data.len()
            invariant
                *self == *old(self),
                index == self.index,
                index <= i < self.data@.len(),
                forall|j: int|
                    index <= j < i ==> matcher_returns(self.matcher, self.data@[j], false),
            decreases self.data@.len() - i,
        {
            // When a match is found, update the cursor and return the data
            // through the matched element
            if (self.matcher)(slice_index_get(self.data, i)) {
                self.index = i + 1;
                return Some(slice_subrange(self.data, index, i + 1));
            }
            // When we're out of data, return anything left
            if i == self.data.len() - 1 {
                self.index = self.data.len();
                return Some(slice_subrange(self.data, index, self.data.len()));
            }
            i = i + 1;
        }
        None
    }

    /// Produces the next run, or signals exhaustion. Exhaustion is terminal:
    /// once the cursor reaches the end of the source it never moves again.
    pub fn next(&mut self) -> (r: Option<&'a [T]>)
        requires
            old(self).wf(),
        ensures
            final(self).wf(),
            final(self).src() == old(self).src(),
            final(self).mode() == old(self).mode(),
            final(self).pred() == old(self).pred(),
            pull_result(
                final(self).src(),
                old(self).cursor(),
                final(self).cursor(),
                produced_view(r),
            ),
            final(self).mode() == Mode::Before ==> before_step_matches(
                final(self).pred(),
                final(self).src(),
                old(self).cursor(),
                final(self).cursor(),
            ),
            final(self).mode() == Mode::After ==> after_step_matches(
                final(self).pred(),
                final(self).src(),
                old(self).cursor(),
                final(self).cursor(),
            ),
    {
        match self.mode {
            Mode::Before => self.iter_before(),
            Mode::After => self.iter_after(),
        }
    }
}

/// Splitting a slice before each boundary element: the matched element is
/// placed at the start of the next run (when one follows).
pub trait SplitBefore<'a, T: 'a, P: Fn(&T) -> bool> {
    /// The sequence that the produced splitter partitions.
    spec fn source(&self) -> Seq<T>;

    /// Creates a `Before`-mode splitter over `self`.
    fn split_before(&self, predicate: P) -> (r: SplitInc<'a, T, P>)
        requires
            matcher_callable(predicate),
        ensures
            r.wf(),
            r.src() == self.source(),
            r.cursor() == 0,
            r.mode() == Mode::Before,
            r.pred() == predicate,
    ;
}

impl<'a, T: 'a, P: Fn(&T) -> bool> SplitBefore<'a, T, P> for &'a [T] {
    open spec fn source(&self) -> Seq<T> {
        self@
    }

    fn split_before(&self, predicate: P) -> (r: SplitInc<'a, T, P>) {
        SplitInc::split_before(*self, predicate)
    }
}

/// Splitting a slice after each boundary element: the matched element is
/// placed at the end of the current run.
pub trait SplitAfter<'a, T: 'a, P: Fn(&T) -> bool> {
    /// The sequence that the produced splitter partitions.
    spec fn source(&self) -> Seq<T>;

    /// Creates an `After`-mode splitter over `self`.
    fn split_after(&self, predicate: P) -> (r: SplitInc<'a, T, P>)
        requires
            matcher_callable(predicate),
        ensures
            r.wf(),
            r.src() == self.source(),
            r.cursor() == 0,
            r.mode() == Mode::After,
            r.pred() == predicate,
    ;
}

impl<'a, T: 'a, P: Fn(&T) -> bool> SplitAfter<'a, T, P> for &'a [T] {
    open spec fn source(&self) -> Seq<T> {
        self@
    }

    fn split_after(&self, predicate: P) -> (r: SplitInc<'a, T, P>) {
        SplitInc::split_after(*self, predicate)
    }
}

} // verus!
