//! Position arithmetic shared by every redirected asset: an asset is a byte
//! range `[0, size)` with a cursor `pos` that reads advance and seeks move.

use vstd::prelude::*;

verus! {

/// `libc::SEEK_SET`, the whence value of an absolute seek.
/// The contract claims the value libc defines for unix targets: 0.
#[verifier::external_body]
pub fn whence_set() -> (w: i32)
    ensures
        w == 0,
{
    libc::SEEK_SET
}

/// `libc::SEEK_CUR`, the whence value of a seek relative to the cursor.
/// The contract claims the value libc defines for unix targets: 1.
#[verifier::external_body]
pub fn whence_cur() -> (w: i32)
    ensures
        w == 1,
{
    libc::SEEK_CUR
}

/// `libc::SEEK_END`, the whence value of a seek relative to the end.
/// The contract claims the value libc defines for unix targets: 2.
#[verifier::external_body]
pub fn whence_end() -> (w: i32)
    ensures
        w == 2,
{
    libc::SEEK_END
}

/// The magnitude of a seek offset as the cursor type holds it
/// (`|offset|` narrowed to the width of `usize`).
pub open spec fn offset_magnitude(offset: i64) -> usize {
    (if offset < 0 {
        (-offset) as u64
    } else {
        offset as u64
    }) as usize
}

/// Where a seek leaves the cursor, or `None` when the seek is refused
/// (negative absolute target, a cursor that would leave `0..=usize::MAX`,
/// a relative-to-end offset past the end or pointing beyond it, or an
/// unknown whence).
pub open spec fn seek_target(size: usize, pos: usize, offset: i64, whence: i32) -> Option<usize> {
    if whence == 0 {
        if offset < 0 {
            None
        } else {
            Some(offset as usize)
        }
    } else if whence == 1 {
        let m = offset_magnitude(offset);
        if offset > 0 {
            if pos + m <= usize::MAX {
                Some((pos + m) as usize)
            } else {
                None
            }
        } else {
            if m <= pos {
                Some((pos - m) as usize)
            } else {
                None
            }
        }
    } else if whence == 2 {
        if offset > 0 {
            None
        } else {
            let m = offset_magnitude(offset);
            if m <= size {
                Some((size - m) as usize)
            } else {
                None
            }
        }
    } else {
        None
    }
}

/// The seeks whose offset has no magnitude in `i64` (`i64::MIN` taken
/// relative to the cursor or to the end): computing it overflows.
pub open spec fn seek_overflows(offset: i64, whence: i32) -> bool {
    (whence == 1 || (whence == 2 && offset <= 0)) && offset == i64::MIN
}

/// What a seek answers: the new cursor as a file offset, or -1 when refused.
pub open spec fn seek_answer(size: usize, pos: usize, offset: i64, whence: i32) -> i64 {
    match seek_target(size, pos, offset, whence) {
        Some(p) => p as i64,
        None => -1i64,
    }
}

/// How many bytes a read of `count` bytes delivers from `pos`:
/// what is asked for, but no more than what is left.
pub open spec fn read_len(size: usize, pos: usize, count: usize) -> usize
    recommends
        pos <= size,
{
    if count > size - pos {
        (size - pos) as usize
    } else {
        count
    }
}

fn magnitude(offset: i64) -> (m: usize)
    requires
        offset != i64::MIN,
    ensures
        m == offset_magnitude(offset),
{
    let u: u64 = if offset < 0 {
        (-offset) as u64
    } else {
        offset as u64
    };
    u as usize
}

/// The cursor after a seek, or `None` when the seek is refused.
pub fn seek_position(size: usize, pos: usize, offset: i64, whence: i32) -> (r: Option<usize>)
    requires
        !seek_overflows(offset, whence),
    ensures
        r == seek_target(size, pos, offset, whence),
{
    if whence == whence_set() {
        if offset < 0 {
            return None;
        }
        Some(offset as usize)
    } else if whence == whence_cur() {
        let m = magnitude(offset);
        if offset > 0 {
            pos.checked_add(m)
        } else {
            pos.checked_sub(m)
        }
    } else if whence == whence_end() {
        if offset > 0 {
            return None;
        }
        let m = magnitude(offset);
        size.checked_sub(m)
    } else {
        None
    }
}

/// The number of bytes a read of `count` bytes delivers from `pos`.
pub fn read_length(size: usize, pos: usize, count: usize) -> (n: usize)
    requires
        pos <= size,
    ensures
        n == read_len(size, pos, count),
        n <= count,
        pos + n <= size,
{
    let rem = size - pos;
    if rem == 0 {
        return 0;
    }
    if count > rem {
        rem
    } else {
        count
    }
}

/// Two reads in a row deliver what one read of both counts delivers:
/// the first read of `a` bytes and the following read of `b` bytes
/// together take `read_len(size, pos, a + b)` bytes.
pub proof fn lemma_reads_concatenate(size: usize, pos: usize, a: usize, b: usize)
    requires
        pos <= size,
        a + b <= usize::MAX,
    ensures
        ({
            let first = read_len(size, pos, a);
            let second = read_len(size, (pos + first) as usize, b);
            &&& pos + first <= size
            &&& first + second == read_len(size, pos, (a + b) as usize)
        }),
{
}

/// The sum of read counts.
pub open spec fn count_sum(counts: Seq<usize>) -> int
    decreases counts.len(),
{
    if counts.len() == 0 {
        0
    } else {
        count_sum(counts.drop_last()) + counts.last()
    }
}

/// The cursor after reads of `counts[0]`, `counts[1]`, ... bytes, one
/// after the other, starting at `pos`: each read starts where the one
/// before it ended.
pub open spec fn cursor_after_reads(size: usize, pos: usize, counts: Seq<usize>) -> usize
    decreases counts.len(),
{
    if counts.len() == 0 {
        pos
    } else {
        let c = cursor_after_reads(size, pos, counts.drop_last());
        (c + read_len(size, c, counts.last())) as usize
    }
}

/// Successive reads hand out consecutive bytes of the asset: read `i`
/// takes `read_len(size, c_i, counts[i])` bytes from `c_i`, the cursor after
/// the reads before it, and the next read starts where it ended. Together
/// the reads take `min(sum of counts, size - pos)` bytes from `pos`; once
/// the cursor reaches the end every further read takes nothing.
pub proof fn lemma_successive_reads(size: usize, pos: usize, counts: Seq<usize>)
    requires
        pos <= size,
    ensures
        pos <= cursor_after_reads(size, pos, counts) <= size,
        cursor_after_reads(size, pos, counts) - pos == if count_sum(counts) < size - pos {
            count_sum(counts)
        } else {
            size - pos
        },
        forall|i: int|
            0 <= i < counts.len() ==> {
                let c = #[trigger] cursor_after_reads(size, pos, counts.take(i));
                &&& pos <= c <= size
                &&& cursor_after_reads(size, pos, counts.take(i + 1)) == c + read_len(size, c, counts[i])
            },
        cursor_after_reads(size, pos, counts) == size ==> forall|n: usize| read_len(size, size, n) == 0,
    decreases counts.len(),
{
    if counts.len() > 0 {
        let prev = counts.drop_last();
        lemma_successive_reads(size, pos, prev);
        assert forall|i: int|
            0 <= i < counts.len() implies {
                let c = #[trigger] cursor_after_reads(size, pos, counts.take(i));
                &&& pos <= c <= size
                &&& cursor_after_reads(size, pos, counts.take(i + 1)) == c + read_len(size, c, counts[i])
            } by {
            if i < prev.len() {
                assert(counts.take(i) =~= prev.take(i));
                assert(counts.take(i + 1) =~= prev.take(i + 1));
                assert(prev[i] == counts[i]);
            } else {
                assert(counts.take(i) =~= prev);
                assert(counts.take(i + 1) =~= counts);
                assert(counts.take(i + 1).drop_last() =~= prev);
            }
        }
    }
}

/// Reads never pass the end: what a read delivers fits in what is left,
/// and a read from the end delivers nothing.
pub proof fn lemma_read_stays_within(size: usize, pos: usize, count: usize)
    requires
        pos <= size,
    ensures
        pos + read_len(size, pos, count) <= size,
        read_len(size, pos, count) <= count,
        pos == size ==> read_len(size, pos, count) == 0,
        count <= size - pos ==> read_len(size, pos, count) == count,
{
}

/// An absolute seek to a non-negative offset puts the cursor there.
pub proof fn lemma_seek_set_goes_there(size: usize, pos: usize, offset: i64)
    requires
        offset >= 0,
    ensures
        seek_target(size, pos, offset, 0) == Some(offset as usize),
{
}

/// A relative seek by 0 leaves the cursor where it is, and a seek to the
/// end by 0 puts it at the size.
pub proof fn lemma_seek_zero(size: usize, pos: usize)
    ensures
        seek_target(size, pos, 0, 1) == Some(pos),
        seek_target(size, pos, 0, 2) == Some(size),
{
}

/// A relative seek forward and the same seek backward bring the cursor back.
pub proof fn lemma_seek_forward_back(size: usize, pos: usize, offset: i64)
    requires
        offset > 0,
        pos + offset <= usize::MAX,
        offset <= usize::MAX,
    ensures
        seek_target(size, pos, offset, 1) == Some((pos + offset) as usize),
        seek_target(size, (pos + offset) as usize, -offset as i64, 1) == Some(pos),
{
}

/// A seek answers the cursor it leaves: an accepted seek answers the new
/// cursor (as a file offset), a refused one answers -1; and what an accepted
/// seek answers is what a relative seek by 0 made right after it answers.
pub proof fn lemma_seek_answers_cursor(size: usize, pos: usize, offset: i64, whence: i32)
    ensures
        match seek_target(size, pos, offset, whence) {
            Some(p) => {
                &&& seek_answer(size, pos, offset, whence) == p as i64
                &&& p <= i64::MAX ==> seek_answer(size, pos, offset, whence) as int == p as int
                &&& seek_answer(size, p, 0, 1) == seek_answer(size, pos, offset, whence)
            },
            None => seek_answer(size, pos, offset, whence) == -1,
        },
        whence == 0 && offset >= 0 && offset <= usize::MAX ==> seek_answer(size, pos, offset, whence)
            == offset,
{
}

} // verus!
