//! The internal asset objects as the library sees them: addresses and the
//! slots of the virtual method table.

use vstd::prelude::*;

verus! {

broadcast use vstd::layout::layout_of_primitives;

/// The internal asset manager (opaque to the library).
pub struct AssetManager {}

/// The public wrapper of an internal asset: the address of the asset.
pub struct AAsset {
    pub mAsset: usize,
}

/// An internal asset: the address of its virtual method table.
pub struct Asset {
    pub vtable: usize,
}

/// The asset path record of the asset manager: the path of the package
/// file (APK) it reads from, its kind, the address of its idmap path, and
/// whether it is a system overlay.
pub struct asset_path {
    pub string8_path: String,
    pub typ: i32,
    pub string8_idmap: usize,
    pub isSystemOverlay: bool,
}

/// The virtual method table of an asset: twenty method slots, followed by
/// twenty more words that are copied along with it.
#[derive(Clone, Copy)]
pub struct AssetVTable {
    pub elements: [usize; 20],
    pub elements2: [usize; 20],
}

/// For each intercepted method: the slot it occupies in the virtual method
/// table (0xff until probed) and the address of its hook.
#[derive(Clone, Copy)]
pub struct AssetVTableHooks {
    pub getLength: (usize, usize),
    pub getRemainingLength: (usize, usize),
    pub isAllocated: (usize, usize),
    pub openFileDescriptor: (usize, usize),
    pub read: (usize, usize),
    pub seek: (usize, usize),
    pub getBuffer: (usize, usize),
    pub close: (usize, usize),
}

/// The slot that means "not probed yet".
pub open spec fn unprobed_slot() -> usize {
    0xff
}

impl AssetVTableHooks {
    /// The hooks at the given addresses, none of them probed yet.
    pub fn new(
        get_length: usize,
        get_remaining_length: usize,
        is_allocated: usize,
        open_file_descriptor: usize,
        read: usize,
        seek: usize,
        get_buffer: usize,
        close: usize,
    ) -> (r: AssetVTableHooks)
        ensures
            r.getLength == (unprobed_slot(), get_length),
            r.getRemainingLength == (unprobed_slot(), get_remaining_length),
            r.isAllocated == (unprobed_slot(), is_allocated),
            r.openFileDescriptor == (unprobed_slot(), open_file_descriptor),
            r.read == (unprobed_slot(), read),
            r.seek == (unprobed_slot(), seek),
            r.getBuffer == (unprobed_slot(), get_buffer),
            r.close == (unprobed_slot(), close),
    {
        AssetVTableHooks {
            getLength: (0xff, get_length),
            getRemainingLength: (0xff, get_remaining_length),
            isAllocated: (0xff, is_allocated),
            openFileDescriptor: (0xff, open_file_descriptor),
            read: (0xff, read),
            seek: (0xff, seek),
            getBuffer: (0xff, get_buffer),
            close: (0xff, close),
        }
    }

    /// Every method that gets installed has a slot inside the table.
    pub open spec fn slots_in_table(&self) -> bool {
        &&& self.getLength.0 < 20
        &&& self.getRemainingLength.0 < 20
        &&& self.isAllocated.0 < 20
        &&& self.openFileDescriptor.0 < 20
        &&& self.read.0 < 20
        &&& self.seek.0 < 20
        &&& self.close.0 < 20
    }

    /// The method slots of `v` after the hooks are written into them, one
    /// method after the other (so of two methods probed into the same slot,
    /// the later one wins). The buffer accessor is not installed.
    pub open spec fn installed(&self, v: Seq<usize>) -> Seq<usize> {
        v.update(self.getLength.0 as int, self.getLength.1)
            .update(self.getRemainingLength.0 as int, self.getRemainingLength.1)
            .update(self.isAllocated.0 as int, self.isAllocated.1)
            .update(self.openFileDescriptor.0 as int, self.openFileDescriptor.1)
            .update(self.read.0 as int, self.read.1)
            .update(self.seek.0 as int, self.seek.1)
            .update(self.close.0 as int, self.close.1)
    }
}

impl AssetVTable {
    /// Writes the hooks into their slots.
    pub fn install_hooks(&mut self, hooks: &AssetVTableHooks)
        requires
            hooks.slots_in_table(),
        ensures
            final(self).elements@ == hooks.installed(old(self).elements@),
            final(self).elements2 == old(self).elements2,
    {
        self.elements[hooks.getLength.0] = hooks.getLength.1;
        self.elements[hooks.getRemainingLength.0] = hooks.getRemainingLength.1;
        self.elements[hooks.isAllocated.0] = hooks.isAllocated.1;
        self.elements[hooks.openFileDescriptor.0] = hooks.openFileDescriptor.1;
        self.elements[hooks.read.0] = hooks.read.1;
        self.elements[hooks.seek.0] = hooks.seek.1;
        self.elements[hooks.close.0] = hooks.close.1;
    }
}

/// A private copy of a virtual method table, with the two words that
/// precede the table in memory (offset to top and type information): the
/// copied bytes and where the table starts among them.
pub struct VTBlockHolder {
    pub block: Vec<u8>,
    pub gap: usize,
}

/// Whether the patched table still has to be made: it is made from the
/// first redirected asset, and every later one shares that copy (the first
/// copy in `copies`).
pub fn needs_table_copy(copies: &Vec<VTBlockHolder>) -> (r: bool)
    ensures
        r == (copies@.len() == 0),
{
    copies.len() == 0
}

impl VTBlockHolder {
    /// Room for a copy of the table at `vtable_addr`: a zeroed block of two
    /// words plus the table, and the address the copy starts from (two
    /// words before the table).
    pub fn allocate(vtable_addr: usize) -> (r: (VTBlockHolder, usize))
        requires
            vtable_addr >= 2 * vstd::layout::size_of::<usize>(),
            2 * vstd::layout::size_of::<usize>() + vstd::layout::size_of::<AssetVTable>() <= usize::MAX,
        ensures
            r.0.gap == 2 * vstd::layout::size_of::<usize>(),
            r.0.block@.len() == r.0.gap + vstd::layout::size_of::<AssetVTable>(),
            forall|i: int| 0 <= i < r.0.block@.len() ==> r.0.block@[i] == 0u8,
            r.1 == vtable_addr - r.0.gap,
    {
        let word = core::mem::size_of::<usize>();
        let table = core::mem::size_of::<AssetVTable>();
        vstd::layout::layout_for_type_is_valid::<AssetVTable>();
        let gap = 2 * word;
        let vhead = vtable_addr - gap;
        let block: Vec<u8> = vec![0u8; gap + table];
        (VTBlockHolder { block, gap }, vhead)
    }
}

} // verus!
