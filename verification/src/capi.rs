//! The redirected assets of the public asset API (`AAsset_*`): a table
//! from asset handle to the replacement's size and read cursor, and the
//! answer each intercepted call gives for a redirected asset.

use vstd::prelude::*;
use std::collections::HashMap;
use crate::stream::{cursor_after_reads, read_len, read_length, seek_answer, seek_overflows, seek_position, seek_target};

verus! {

broadcast use vstd::std_specs::hash::group_hash_axioms;

/// The asset manager of the public asset API (opaque to the library).
pub struct AAssetManager {}

/// An asset of the public asset API (opaque to the library).
pub struct AAsset {}

/// The handle of an asset of the public asset API: its address.
#[derive(Clone, Copy, Debug, PartialEq, Eq, Structural)]
pub struct AAssetHolder {
    pub asset: usize,
}

/// A redirected asset: its handle, the size of the replacement, the read
/// cursor, and the address of the replacement's mapping.
#[derive(Clone, Copy, Debug, PartialEq, Eq, Structural)]
pub struct JAsset {
    pub asset: usize,
    pub size: usize,
    pub pos: usize,
    pub buffer: usize,
}

/// The bytes a read hands out: `len` bytes of the replacement, from `offset`.
#[derive(Clone, Copy, Debug, PartialEq, Eq, Structural)]
pub struct ReadSpan {
    pub offset: usize,
    pub len: usize,
}

/// `j` with its cursor at `pos`.
pub open spec fn with_pos(j: JAsset, pos: usize) -> JAsset {
    JAsset { asset: j.asset, size: j.size, pos, buffer: j.buffer }
}

/// The redirected assets, by handle address.
pub struct HookMap {
    map: HashMap<usize, JAsset>,
}

impl View for HookMap {
    type V = Map<usize, JAsset>;

    closed spec fn view(&self) -> Map<usize, JAsset> {
        self.map@
    }
}

impl HookMap {
    /// No asset is redirected.
    pub fn new() -> (r: HookMap)
        ensures
            r@ == Map::<usize, JAsset>::empty(),
    {
        HookMap { map: HashMap::new() }
    }

    /// Redirects `holder` to a replacement of `size` bytes mapped at
    /// `buffer`, read from its start; an earlier redirect of the same handle
    /// is replaced.
    pub fn hook(&mut self, holder: AAssetHolder, size: usize, buffer: usize)
        ensures
            final(self)@ == old(self)@.insert(
                holder.asset,
                JAsset { asset: holder.asset, size, pos: 0, buffer },
            ),
    {
        self.map.insert(holder.asset, JAsset { asset: holder.asset, size, pos: 0, buffer });
    }

    /// `AAsset_getBuffer` of a redirected asset: the address of the
    /// replacement's mapping.
    pub fn buffer(&self, holder: AAssetHolder) -> (r: Option<usize>)
        ensures
            r == (if self@.contains_key(holder.asset) {
                Some(self@[holder.asset].buffer)
            } else {
                None
            }),
    {
        match self.map.get(&holder.asset) {
            Some(j) => Some(j.buffer),
            None => None,
        }
    }

    /// Ends the redirect of `holder`, handing back what it was.
    pub fn unhook(&mut self, holder: AAssetHolder) -> (r: Option<JAsset>)
        ensures
            final(self)@ == old(self)@.remove(holder.asset),
            r == (if old(self)@.contains_key(holder.asset) {
                Some(old(self)@[holder.asset])
            } else {
                None
            }),
    {
        self.map.remove(&holder.asset)
    }

    /// The redirect of `holder`, if any.
    pub fn lookup(&self, holder: AAssetHolder) -> (r: Option<JAsset>)
        ensures
            r == (if self@.contains_key(holder.asset) {
                Some(self@[holder.asset])
            } else {
                None
            }),
    {
        match self.map.get(&holder.asset) {
            Some(j) => Some(*j),
            None => None,
        }
    }

    /// Whether `holder` is redirected.
    pub fn is_hooked(&self, holder: AAssetHolder) -> (r: bool)
        ensures
            r == self@.contains_key(holder.asset),
    {
        self.map.contains_key(&holder.asset)
    }

    /// `AAsset_getLength64` of a redirected asset: the replacement's size.
    pub fn length(&self, holder: AAssetHolder) -> (r: Option<i64>)
        ensures
            r == (if self@.contains_key(holder.asset) {
                Some(self@[holder.asset].size as i64)
            } else {
                None
            }),
    {
        match self.map.get(&holder.asset) {
            Some(j) => Some(j.size as i64),
            None => None,
        }
    }

    /// `AAsset_getRemainingLength64` of a redirected asset: what is left
    /// after the cursor. A cursor past the end has no remaining length.
    pub fn remaining_length(&self, holder: AAssetHolder) -> (r: Option<i64>)
        requires
            self@.contains_key(holder.asset) ==> self@[holder.asset].pos <= self@[holder.asset].size,
        ensures
            r == (if self@.contains_key(holder.asset) {
                Some((self@[holder.asset].size - self@[holder.asset].pos) as i64)
            } else {
                None
            }),
    {
        match self.map.get(&holder.asset) {
            Some(j) => Some((j.size - j.pos) as i64),
            None => None,
        }
    }

    /// `AAsset_read` of a redirected asset: hands out at most `count` bytes
    /// from the cursor, never past the end, and advances the cursor by as
    /// many. A cursor past the end cannot be read from.
    pub fn read(&mut self, holder: AAssetHolder, count: usize) -> (r: Option<ReadSpan>)
        requires
            old(self)@.contains_key(holder.asset) ==> old(self)@[holder.asset].pos <= old(
                self,
            )@[holder.asset].size,
        ensures
            !old(self)@.contains_key(holder.asset) ==> r is None && final(self)@ == old(self)@,
            old(self)@.contains_key(holder.asset) ==> {
                let j = old(self)@[holder.asset];
                let n = read_len(j.size, j.pos, count);
                &&& r == Some(ReadSpan { offset: j.pos, len: n })
                &&& final(self)@ == old(self)@.insert(holder.asset, with_pos(j, (j.pos + n) as usize))
            },
    {
        let j = match self.map.get(&holder.asset) {
            Some(j) => *j,
            None => return None,
        };
        let n = read_length(j.size, j.pos, count);
        if n == 0 {
            assert(old(self)@.insert(holder.asset, with_pos(j, (j.pos + n) as usize)) =~= old(self)@);
            return Some(ReadSpan { offset: j.pos, len: 0 });
        }
        self.map.insert(holder.asset, JAsset { asset: j.asset, size: j.size, pos: j.pos + n, buffer: j.buffer });
        Some(ReadSpan { offset: j.pos, len: n })
    }

    /// `AAsset_seek64` of a redirected asset: moves the cursor and answers
    /// its new place, or answers -1 and leaves it where it was.
    pub fn seek(&mut self, holder: AAssetHolder, offset: i64, whence: i32) -> (r: Option<i64>)
        requires
            old(self)@.contains_key(holder.asset) ==> !seek_overflows(offset, whence),
        ensures
            !old(self)@.contains_key(holder.asset) ==> r is None && final(self)@ == old(self)@,
            old(self)@.contains_key(holder.asset) ==> {
                let j = old(self)@[holder.asset];
                &&& r == Some(seek_answer(j.size, j.pos, offset, whence))
                &&& final(self)@ == match seek_target(j.size, j.pos, offset, whence) {
                    Some(p) => old(self)@.insert(holder.asset, with_pos(j, p)),
                    None => old(self)@,
                }
            },
    {
        let j = match self.map.get(&holder.asset) {
            Some(j) => *j,
            None => return None,
        };
        match seek_position(j.size, j.pos, offset, whence) {
            Some(p) => {
                self.map.insert(holder.asset, JAsset { asset: j.asset, size: j.size, pos: p, buffer: j.buffer });
                Some(p as i64)
            },
            None => Some(-1),
        }
    }

    /// `AAsset_isAllocated` of a redirected asset: the replacement is not
    /// allocated (0).
    pub fn is_allocated(&self, holder: AAssetHolder) -> (r: Option<i32>)
        ensures
            r == (if self@.contains_key(holder.asset) {
                Some(0i32)
            } else {
                None
            }),
    {
        if self.map.contains_key(&holder.asset) {
            Some(0)
        } else {
            None
        }
    }

    /// `AAsset_openFileDescriptor` of a redirected asset: refused (-1).
    pub fn open_file_descriptor(&self, holder: AAssetHolder) -> (r: Option<i32>)
        ensures
            r == (if self@.contains_key(holder.asset) {
                Some(-1i32)
            } else {
                None
            }),
    {
        if self.map.contains_key(&holder.asset) {
            Some(-1)
        } else {
            None
        }
    }
}

/// A freshly redirected asset answers with the replacement: its length is
/// the replacement's size, all of it remains, and a read hands out the
/// first bytes of the replacement.
pub proof fn lemma_hooked_asset_starts_at_zero(
    m: Map<usize, JAsset>,
    k: usize,
    size: usize,
    buffer: usize,
    count: usize,
)
    ensures
        ({
            let h = m.insert(k, JAsset { asset: k, size, pos: 0, buffer });
            &&& h.contains_key(k)
            &&& h[k].size == size
            &&& h[k].size - h[k].pos == size
            &&& read_len(h[k].size, h[k].pos, count) == if count > size {
                size
            } else {
                count
            }
        }),
{
}

/// Redirecting or unredirecting one asset leaves every other asset as it was.
pub proof fn lemma_other_assets_untouched(
    m: Map<usize, JAsset>,
    k: usize,
    other: usize,
    j: JAsset,
)
    requires
        other != k,
    ensures
        m.insert(k, j).contains_key(other) == m.contains_key(other),
        m.remove(k).contains_key(other) == m.contains_key(other),
        m.contains_key(other) ==> m.insert(k, j)[other] == m[other] && m.remove(k)[other]
            == m[other],
{
}

/// After the redirect of an asset ends, the asset is no longer redirected:
/// every call on it goes to the original again.
pub proof fn lemma_unhooked_asset_passes_through(m: Map<usize, JAsset>, k: usize)
    ensures
        !m.remove(k).contains_key(k),
{
}

/// Reads and seeks move only the cursor: the asset, its length and its
/// mapping stay.
pub proof fn lemma_cursor_moves_alone(j: JAsset, pos: usize)
    ensures
        with_pos(j, pos).size == j.size,
        with_pos(j, pos).buffer == j.buffer,
        with_pos(j, pos).asset == j.asset,
        with_pos(j, pos).pos == pos,
{
}

/// The redirected asset `j` after reads of `counts[0]`, `counts[1]`, ...
/// bytes, one after the other.
pub open spec fn after_reads(j: JAsset, counts: Seq<usize>) -> JAsset {
    with_pos(j, cursor_after_reads(j.size, j.pos, counts))
}

/// Successive reads of a redirected asset follow the cursor: a read of `c`
/// bytes made on the asset as `counts` left it hands out the span that
/// starts at that cursor, and leaves the asset as `counts` followed by `c`
/// does. With `stream::lemma_successive_reads`, the spans of k reads are
/// consecutive from the cursor, cover `min(sum of counts, size - pos)`
/// bytes, and end in reads of nothing once the end is reached.
pub proof fn lemma_read_follows_cursor(j: JAsset, counts: Seq<usize>, c: usize)
    requires
        j.pos <= j.size,
    ensures
        ({
            let a = after_reads(j, counts);
            &&& a.size == j.size
            &&& a.pos <= a.size
            &&& with_pos(a, (a.pos + read_len(a.size, a.pos, c)) as usize) == after_reads(j, counts.push(c))
        }),
{
    crate::stream::lemma_successive_reads(j.size, j.pos, counts);
    assert(counts.push(c).drop_last() =~= counts);
}

} // verus!
