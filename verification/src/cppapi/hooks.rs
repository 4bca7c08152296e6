//! The redirected assets of the internal asset manager and the answers of
//! the hooks installed in their method tables.

use vstd::prelude::*;
use std::collections::HashMap;
use crate::cppapi::asset::Asset;
use crate::stream::{cursor_after_reads, read_len, read_length, seek_answer, seek_overflows, seek_position, seek_target};

verus! {

broadcast use vstd::std_specs::hash::group_hash_axioms;

/// The handle of an internal asset: its address.
#[derive(Clone, Copy, Debug, PartialEq, Eq, Structural)]
pub struct AssetHolder {
    pub asset: usize,
}

/// A redirected internal asset: its address, the size of the replacement,
/// the read cursor, the address of its original method table, and the
/// address of the replacement's mapping.
#[derive(Clone, Copy, Debug, PartialEq, Eq, Structural)]
pub struct JAsset {
    pub asset: usize,
    pub size: usize,
    pub pos: usize,
    pub ovt: usize,
    pub buffer: usize,
}

/// The bytes a read hands out: `len` bytes of the replacement, from `offset`.
#[derive(Clone, Copy, Debug, PartialEq, Eq, Structural)]
pub struct ReadSpan {
    pub offset: usize,
    pub len: usize,
}

/// `j` with its cursor at `pos`.
pub open spec fn with_pos(j: JAsset, pos: usize) -> JAsset {
    JAsset { asset: j.asset, size: j.size, pos, ovt: j.ovt, buffer: j.buffer }
}

/// What the read hook answers: the number of bytes handed out, or -1 for an
/// asset that is not redirected.
pub open spec fn read_answer(span: Option<ReadSpan>) -> isize {
    match span {
        Some(s) => s.len as isize,
        None => -1isize,
    }
}

/// The read hook's answer for what a read handed out.
pub fn read_result(span: Option<ReadSpan>) -> (r: isize)
    ensures
        r == read_answer(span),
{
    match span {
        Some(s) => s.len as isize,
        None => -1,
    }
}

/// The redirected internal assets, by address.
pub struct HookMap {
    map: HashMap<usize, JAsset>,
}

impl View for HookMap {
    type V = Map<usize, JAsset>;

    closed spec fn view(&self) -> Map<usize, JAsset> {
        self.map@
    }
}

impl HookMap {
    /// No asset is redirected.
    pub fn new() -> (r: HookMap)
        ensures
            r@ == Map::<usize, JAsset>::empty(),
    {
        HookMap { map: HashMap::new() }
    }

    /// Redirects `holder` to a replacement of `size` bytes, read from its
    /// start, remembering `ovt`, its original method table, and `buffer`,
    /// where the replacement is mapped.
    pub fn hook(&mut self, holder: AssetHolder, size: usize, ovt: usize, buffer: usize)
        ensures
            final(self)@ == old(self)@.insert(
                holder.asset,
                JAsset { asset: holder.asset, size, pos: 0, ovt, buffer },
            ),
    {
        self.map.insert(holder.asset, JAsset { asset: holder.asset, size, pos: 0, ovt, buffer });
    }

    /// The buffer hook: the address of the replacement's mapping, 0 (null)
    /// for an asset that is not redirected.
    pub fn buffer(&self, holder: AssetHolder) -> (r: usize)
        ensures
            r == (if self@.contains_key(holder.asset) {
                self@[holder.asset].buffer
            } else {
                0usize
            }),
    {
        match self.map.get(&holder.asset) {
            Some(j) => j.buffer,
            None => 0,
        }
    }

    /// Ends the redirect of `holder`, handing back what it was.
    pub fn unhook(&mut self, holder: AssetHolder) -> (r: Option<JAsset>)
        ensures
            final(self)@ == old(self)@.remove(holder.asset),
            r == (if old(self)@.contains_key(holder.asset) {
                Some(old(self)@[holder.asset])
            } else {
                None
            }),
    {
        self.map.remove(&holder.asset)
    }

    /// The redirect of `holder`, if any.
    pub fn lookup(&self, holder: AssetHolder) -> (r: Option<JAsset>)
        ensures
            r == (if self@.contains_key(holder.asset) {
                Some(self@[holder.asset])
            } else {
                None
            }),
    {
        match self.map.get(&holder.asset) {
            Some(j) => Some(*j),
            None => None,
        }
    }

    /// Whether `holder` is redirected.
    pub fn is_hooked(&self, holder: AssetHolder) -> (r: bool)
        ensures
            r == self@.contains_key(holder.asset),
    {
        self.map.contains_key(&holder.asset)
    }

    /// The length hook: the replacement's size, 0 for an asset that is not
    /// redirected.
    pub fn length(&self, holder: AssetHolder) -> (r: i64)
        ensures
            r == (if self@.contains_key(holder.asset) {
                self@[holder.asset].size as i64
            } else {
                0i64
            }),
    {
        match self.map.get(&holder.asset) {
            Some(j) => j.size as i64,
            None => 0,
        }
    }

    /// The remaining-length hook: what is left after the cursor, 0 for an
    /// asset that is not redirected. A cursor past the end has no remaining
    /// length.
    pub fn remaining_length(&self, holder: AssetHolder) -> (r: i64)
        requires
            self@.contains_key(holder.asset) ==> self@[holder.asset].pos <= self@[holder.asset].size,
        ensures
            r == (if self@.contains_key(holder.asset) {
                (self@[holder.asset].size - self@[holder.asset].pos) as i64
            } else {
                0i64
            }),
    {
        match self.map.get(&holder.asset) {
            Some(j) => (j.size - j.pos) as i64,
            None => 0,
        }
    }

    /// The read hook: hands out at most `count` bytes from the cursor, never
    /// past the end, and advances the cursor by as many. A cursor past the
    /// end cannot be read from.
    pub fn read(&mut self, holder: AssetHolder, count: usize) -> (r: Option<ReadSpan>)
        requires
            old(self)@.contains_key(holder.asset) ==> old(self)@[holder.asset].pos <= old(
                self,
            )@[holder.asset].size,
        ensures
            !old(self)@.contains_key(holder.asset) ==> r is None && final(self)@ == old(self)@,
            old(self)@.contains_key(holder.asset) ==> {
                let j = old(self)@[holder.asset];
                let n = read_len(j.size, j.pos, count);
                &&& r == Some(ReadSpan { offset: j.pos, len: n })
                &&& final(self)@ == old(self)@.insert(holder.asset, with_pos(j, (j.pos + n) as usize))
            },
    {
        let j = match self.map.get(&holder.asset) {
            Some(j) => *j,
            None => return None,
        };
        let n = read_length(j.size, j.pos, count);
        if n == 0 {
            assert(old(self)@.insert(holder.asset, with_pos(j, (j.pos + n) as usize)) =~= old(self)@);
            return Some(ReadSpan { offset: j.pos, len: 0 });
        }
        self.map.insert(
            holder.asset,
            JAsset { asset: j.asset, size: j.size, pos: j.pos + n, ovt: j.ovt, buffer: j.buffer },
        );
        Some(ReadSpan { offset: j.pos, len: n })
    }

    /// The seek hook: moves the cursor and answers its new place; answers -1
    /// for a refused seek (cursor unchanged) and for an asset that is not
    /// redirected.
    pub fn seek(&mut self, holder: AssetHolder, offset: i64, whence: i32) -> (r: i64)
        requires
            old(self)@.contains_key(holder.asset) ==> !seek_overflows(offset, whence),
        ensures
            !old(self)@.contains_key(holder.asset) ==> r == -1 && final(self)@ == old(self)@,
            old(self)@.contains_key(holder.asset) ==> {
                let j = old(self)@[holder.asset];
                &&& r == seek_answer(j.size, j.pos, offset, whence)
                &&& final(self)@ == match seek_target(j.size, j.pos, offset, whence) {
                    Some(p) => old(self)@.insert(holder.asset, with_pos(j, p)),
                    None => old(self)@,
                }
            },
    {
        let j = match self.map.get(&holder.asset) {
            Some(j) => *j,
            None => return -1,
        };
        match seek_position(j.size, j.pos, offset, whence) {
            Some(p) => {
                self.map.insert(holder.asset, JAsset { asset: j.asset, size: j.size, pos: p, ovt: j.ovt, buffer: j.buffer });
                p as i64
            },
            None => -1,
        }
    }

    /// The close hook: ends the redirect and puts the original method table
    /// back into the asset. Returns whether the asset was redirected (only
    /// then does the original close follow).
    pub fn close(&mut self, holder: AssetHolder, asset: &mut Asset) -> (closed: bool)
        ensures
            final(self)@ == old(self)@.remove(holder.asset),
            closed == old(self)@.contains_key(holder.asset),
            closed ==> final(asset).vtable == old(self)@[holder.asset].ovt,
            !closed ==> final(asset).vtable == old(asset).vtable,
    {
        match self.map.remove(&holder.asset) {
            Some(j) => {
                asset.vtable = j.ovt;
                true
            },
            None => false,
        }
    }
}

/// The allocation hook of a redirected internal asset: the replacement is
/// not allocated.
pub fn is_allocated(_holder: AssetHolder) -> (r: bool)
    ensures
        !r,
{
    false
}

/// The file-descriptor hook of a redirected internal asset: refused (-1).
pub fn open_file_descriptor(_holder: AssetHolder) -> (r: i32)
    ensures
        r == -1,
{
    -1
}

/// One step of finding the start of the complete object that `object`
/// belongs to, given the offset-to-top entry of its method table: `None`
/// when the offset is 0 (`object` is the start), else the address to look
/// at next.
pub fn top_step(object: usize, offset_to_top: isize) -> (r: Option<usize>)
    requires
        offset_to_top != 0 ==> 0 <= object + offset_to_top <= usize::MAX,
    ensures
        offset_to_top == 0 ==> r is None,
        offset_to_top != 0 ==> r == Some((object + offset_to_top) as usize),
{
    if offset_to_top == 0 {
        None
    } else if offset_to_top > 0 {
        Some(object + (offset_to_top as usize))
    } else {
        let back: usize = if offset_to_top == isize::MIN {
            (isize::MAX as usize) + 1
        } else {
            (-offset_to_top) as usize
        };
        Some(object - back)
    }
}

/// The redirected asset `j` after reads of `counts[0]`, `counts[1]`, ...
/// bytes, one after the other.
pub open spec fn after_reads(j: JAsset, counts: Seq<usize>) -> JAsset {
    with_pos(j, cursor_after_reads(j.size, j.pos, counts))
}

/// Successive reads of a redirected asset follow the cursor: a read of `c`
/// bytes made on the asset as `counts` left it hands out the span that
/// starts at that cursor, and leaves the asset as `counts` followed by `c`
/// does. With `stream::lemma_successive_reads`, the spans of k reads are
/// consecutive from the cursor, cover `min(sum of counts, size - pos)`
/// bytes, and end in reads of nothing once the end is reached.
pub proof fn lemma_read_follows_cursor(j: JAsset, counts: Seq<usize>, c: usize)
    requires
        j.pos <= j.size,
    ensures
        ({
            let a = after_reads(j, counts);
            &&& a.size == j.size
            &&& a.pos <= a.size
            &&& with_pos(a, (a.pos + read_len(a.size, a.pos, c)) as usize) == after_reads(j, counts.push(c))
        }),
{
    crate::stream::lemma_successive_reads(j.size, j.pos, counts);
    assert(counts.push(c).drop_last() =~= counts);
}

/// The walk to the start of the complete object that `p` belongs to, where
/// `offset_of(q)` is the offset-to-top entry of the method table of the
/// object at `q`: stop where the entry is 0, else go on at `q + entry`.
/// `None` when no start is reached within `steps` steps, or an entry leads
/// out of the address space.
pub open spec fn walk_to_top(offset_of: spec_fn(usize) -> isize, p: usize, steps: nat) -> Option<usize>
    decreases steps,
{
    if offset_of(p) == 0 {
        Some(p)
    } else if steps == 0 {
        None
    } else {
        let q = p + offset_of(p);
        if 0 <= q <= usize::MAX {
            walk_to_top(offset_of, q as usize, (steps - 1) as nat)
        } else {
            None
        }
    }
}

/// Each [`top_step`] is one step of [`walk_to_top`]: at an entry of 0 the
/// walk ends where it is, otherwise it goes on from the address the step
/// gives.
pub proof fn lemma_top_step_walks(offset_of: spec_fn(usize) -> isize, p: usize, steps: nat)
    requires
        offset_of(p) != 0 ==> 0 <= p + offset_of(p) <= usize::MAX,
    ensures
        offset_of(p) == 0 ==> walk_to_top(offset_of, p, steps) == Some(p),
        offset_of(p) != 0 ==> walk_to_top(offset_of, p, steps + 1) == walk_to_top(
            offset_of,
            (p + offset_of(p)) as usize,
            steps,
        ),
{
    if offset_of(p) != 0 {
        assert((steps + 1 - 1) as nat == steps);
    }
}

/// Walking to the top of the top stays there: the walk ends at an object
/// whose entry is 0, and a walk from there ends at once, where it started.
pub proof fn lemma_top_of_top(offset_of: spec_fn(usize) -> isize, p: usize, steps: nat, more: nat)
    requires
        walk_to_top(offset_of, p, steps) is Some,
    ensures
        offset_of(walk_to_top(offset_of, p, steps)->0) == 0,
        walk_to_top(offset_of, walk_to_top(offset_of, p, steps)->0, more) == walk_to_top(
            offset_of,
            p,
            steps,
        ),
    decreases steps,
{
    if offset_of(p) != 0 {
        let q = p + offset_of(p);
        lemma_top_of_top(offset_of, q as usize, (steps - 1) as nat, more);
    }
}

/// The read hook answers the number of bytes it handed out: for every span,
/// the answer is the span's length (as a signed size), and -1 only when the
/// asset is not redirected. For a read of a redirected asset the answer is
/// how far the read moved the cursor, and it takes that much off what
/// remains.
pub proof fn lemma_read_answer_counts_bytes(s: ReadSpan, j: JAsset, count: usize)
    requires
        j.pos <= j.size,
    ensures
        read_answer(Some(s)) == s.len as isize,
        s.len <= isize::MAX ==> read_answer(Some(s)) as int == s.len as int,
        read_answer(None) == -1,
        ({
            let n = read_len(j.size, j.pos, count);
            let after = with_pos(j, (j.pos + n) as usize);
            &&& read_answer(Some(ReadSpan { offset: j.pos, len: n })) == (after.pos - j.pos) as isize
            &&& (after.pos - j.pos) <= isize::MAX ==> read_answer(
                Some(ReadSpan { offset: j.pos, len: n }),
            ) + (after.size - after.pos) == j.size - j.pos
        }),
{
}

} // verus!
