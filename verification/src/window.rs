//! Queue-window arithmetic: choosing which contiguous slice of the rendered
//! queue is visible, keeping the currently playing row centered whenever
//! possible.

use vstd::prelude::*;

verus! {

/// The head index of the visible window: `display` rows shown out of
/// `total`, centered on `curr` when room permits, flush against a boundary
/// otherwise, and 0 when everything fits.
pub open spec fn spec_centered_index(display: int, total: int, curr: int) -> int {
    if total <= display {
        0
    } else if display == 0 {
        0
    } else {
        let half = (display - 1) / 2;
        let head = curr - half;
        let tail = if display % 2 == 0 {
            curr + half + 1
        } else {
            curr + half
        };
        if head < 0 {
            0
        } else if tail >= total {
            total - display
        } else {
            head
        }
    }
}

/// The head never goes past the point where the window would run off the
/// end of the list.
pub proof fn lemma_centered_index_bound(display: int, total: int, curr: int)
    requires
        0 <= display,
        0 <= total,
        0 <= curr,
    ensures
        0 <= spec_centered_index(display, total, curr),
        total <= display ==> spec_centered_index(display, total, curr) == 0,
        total > display ==> spec_centered_index(display, total, curr) <= total - display,
{
}

/// The window always covers the focused row, is flush against the start
/// when the focus is within half a window of it, and flush against the end
/// likewise; everything fits without scrolling when the list is short.
pub proof fn lemma_centered_index_window(display: int, total: int, curr: int)
    requires
        1 <= display,
        0 <= curr < total,
    ensures
        0 <= spec_centered_index(display, total, curr),
        spec_centered_index(display, total, curr) <= (if total - display >= 0 {
            total - display
        } else {
            0
        }),
        total <= display ==> spec_centered_index(display, total, curr) == 0,
        display < total ==> spec_centered_index(display, total, curr) <= curr
            < spec_centered_index(display, total, curr) + display,
        display < total && curr < (display - 1) / 2 ==> spec_centered_index(display, total, curr)
            == 0,
        display < total && curr >= (display - 1) / 2 && (if display % 2 == 0 {
            curr + (display - 1) / 2 + 1
        } else {
            curr + (display - 1) / 2
        }) >= total ==> spec_centered_index(display, total, curr) == total - display,
{
    lemma_centered_index_bound(display, total, curr);
    if display < total {
        let half = (display - 1) / 2;
        assert(2 * half <= display - 1);
        let head = curr - half;
        let tail = if display % 2 == 0 {
            curr + half + 1
        } else {
            curr + half
        };
        if head >= 0 && tail >= total {
            assert(curr >= total - display) by {
                assert(tail <= curr + half + 1);
                assert(curr >= total - half - 1);
                assert(half + 1 <= display);
            }
        }
    }
}

/// Head of the window of `display` rows over `total` rows focused on `curr`.
pub fn get_centered_index(display: u32, total: u32, curr: u32) -> (head: u32)
    ensures
        head == spec_centered_index(display as int, total as int, curr as int),
        total <= display ==> head == 0,
        total > display ==> head <= total - display,
{
    proof {
        lemma_centered_index_bound(display as int, total as int, curr as int);
    }
    if total <= display {
        return 0;
    }
    if display == 0 {
        return 0;
    }
    let half = (display - 1) / 2;
    let tail: u64 = if display % 2 == 0 {
        curr as u64 + half as u64 + 1
    } else {
        curr as u64 + half as u64
    };
    if curr < half {
        0
    } else if tail >= total as u64 {
        total - display
    } else {
        curr - half
    }
}

/// The same computation over machine-sized indices, used on wrapped rows.
pub fn centered_index_usize(display: usize, total: usize, curr: usize) -> (head: usize)
    ensures
        head == spec_centered_index(display as int, total as int, curr as int),
        total <= display ==> head == 0,
        total > display ==> head <= total - display,
{
    proof {
        lemma_centered_index_bound(display as int, total as int, curr as int);
    }
    if total <= display {
        return 0;
    }
    if display == 0 {
        return 0;
    }
    let half = (display - 1) / 2;
    let tail: u128 = if display % 2 == 0 {
        curr as u128 + half as u128 + 1
    } else {
        curr as u128 + half as u128
    };
    if curr < half {
        0
    } else if tail >= total as u128 {
        total - display
    } else {
        curr - half
    }
}

/// The visible slice: rows `head` to `tail` of the rendered queue, where
/// `head` centers the focused row and `tail` stops at the window height,
/// the claimed queue size, and the real row count, whichever is least.
pub open spec fn spec_filter_queue(
    lines: Seq<Seq<char>>,
    queue_height: int,
    queue_size: int,
    song_pos: int,
) -> Seq<Seq<char>> {
    let head = spec_centered_index(queue_height, queue_size, song_pos);
    let tail0 = if head + queue_height < queue_size {
        head + queue_height
    } else {
        queue_size
    };
    let tail = if lines.len() < tail0 {
        lines.len() as int
    } else {
        tail0
    };
    if head <= tail {
        lines.subrange(head, tail)
    } else {
        Seq::empty()
    }
}

/// Crops the rendered queue to the visible window.
pub fn filter_queue(
    queue: &Vec<String>,
    queue_height: usize,
    queue_size: usize,
    song_pos: usize,
) -> (r: Vec<String>)
    ensures
        r.deep_view() == spec_filter_queue(
            queue.deep_view(),
            queue_height as int,
            queue_size as int,
            song_pos as int,
        ),
        r@.len() <= queue_height,
{
    let head = centered_index_usize(queue_height, queue_size, song_pos);
    let tail0 = if queue_size - head > queue_height {
        head + queue_height
    } else {
        queue_size
    };
    let tail = if queue.len() < tail0 {
        queue.len()
    } else {
        tail0
    };
    let mut r: Vec<String> = Vec::new();
    if head >= tail {
        proof {
            if head as int <= (if queue.deep_view().len() < tail0 as int {
                queue.deep_view().len() as int
            } else {
                tail0 as int
            }) {
                assert(r.deep_view() =~= spec_filter_queue(
                    queue.deep_view(),
                    queue_height as int,
                    queue_size as int,
                    song_pos as int,
                ));
            } else {
                assert(r.deep_view() =~= Seq::<Seq<char>>::empty());
            }
        }
        return r;
    }
    let mut i: usize = head;
    while i < tail
        invariant
            head <= i <= tail,
            tail <= queue.len(),
            tail <= queue_size,
            tail - head <= queue_height,
            r@ =~= queue@.subrange(head as int, i as int),
        decreases tail - i,
    {
        r.push(queue[i].clone());
        proof {
            assert(r@ =~= queue@.subrange(head as int, i + 1 as int));
        }
        i += 1;
    }
    proof {
        let dv = queue.deep_view();
        assert forall|k: int| 0 <= k < r@.len() implies r.deep_view()[k] == dv.subrange(
            head as int,
            tail as int,
        )[k] by {
            assert(r@[k] == queue@[head + k]);
        }
        assert(r.deep_view() =~= dv.subrange(head as int, tail as int));
        assert(r.deep_view() =~= spec_filter_queue(
            dv,
            queue_height as int,
            queue_size as int,
            song_pos as int,
        ));
    }
    r
}

} // verus!
