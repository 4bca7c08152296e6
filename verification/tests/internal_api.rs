use assethook::cppapi::asset::{needs_table_copy, Asset, AssetVTable, AssetVTableHooks, VTBlockHolder};
use assethook::cppapi::fakeasset::{
    call0, call1, call10, call11, call12, call13, call14, call15, call16, call17, call18, call19,
    call2, call3, call4, call5, call6, call7, call8, call9, AssetMethod, FakeAAsset, FakeAsset,
    LastCalled, SlotProbe,
};
use assethook::cppapi::hooks::{
    is_allocated, open_file_descriptor, read_result, top_step, AssetHolder, HookMap, JAsset, ReadSpan,
};

fn h(a: usize) -> AssetHolder {
    AssetHolder { asset: a }
}

#[test]
fn internal_hooks_defaults_when_unhooked() {
    let mut m = HookMap::new();
    assert_eq!(m.length(h(5)), 0);
    assert_eq!(m.remaining_length(h(5)), 0);
    assert_eq!(read_result(m.read(h(5), 3)), -1);
    assert_eq!(m.seek(h(5), 0, 0), -1);
    assert_eq!(m.buffer(h(5)), 0);
    let mut a = Asset { vtable: 99 };
    assert!(!m.close(h(5), &mut a));
    assert_eq!(a.vtable, 99);
}

#[test]
fn internal_hooks_on_redirected_asset() {
    let mut m = HookMap::new();
    m.hook(h(5), 12, 0xabc, 0xc000);
    assert_eq!(m.buffer(h(5)), 0xc000);
    assert_eq!(m.length(h(5)), 12);
    let span = m.read(h(5), 5);
    assert_eq!(span, Some(ReadSpan { offset: 0, len: 5 }));
    assert_eq!(read_result(span), 5);
    assert_eq!(m.remaining_length(h(5)), 7);
    assert_eq!(m.seek(h(5), -2, 1), 3);
    assert_eq!(m.seek(h(5), -13, 2), -1);
    assert_eq!(m.lookup(h(5)), Some(JAsset { asset: 5, size: 12, pos: 3, ovt: 0xabc, buffer: 0xc000 }));
    let mut a = Asset { vtable: 0x777 };
    assert!(m.close(h(5), &mut a));
    assert_eq!(a.vtable, 0xabc);
    assert!(!m.is_hooked(h(5)));
}

#[test]
fn recorders_record_their_slot() {
    let mut last = LastCalled::new();
    assert_eq!(last.slot, 0xff);
    let calls: [fn(&mut LastCalled) -> usize; 20] = [
        call0, call1, call2, call3, call4, call5, call6, call7, call8, call9, call10, call11,
        call12, call13, call14, call15, call16, call17, call18, call19,
    ];
    for (i, f) in calls.iter().enumerate() {
        assert_eq!(f(&mut last), 0);
        assert_eq!(last.slot, i);
    }
}

#[test]
fn fake_asset_setup() {
    let fa = FakeAsset::new(0x4000);
    assert_eq!(fa.vtable, 0x4000);
    assert!(fa.fakedata.iter().all(|w| *w == 0));
    assert_eq!(FakeAAsset::new(0x5000).mAsset, 0x5000);
}

fn hooks() -> AssetVTableHooks {
    AssetVTableHooks::new(101, 102, 103, 104, 105, 106, 107, 108)
}

#[test]
fn probe_records_slots_in_order() {
    let (mut p, first) = SlotProbe::start(hooks());
    assert!(first == AssetMethod::GetLength);
    let observed = [3usize, 4, 7, 9, 10, 11, 12, 2];
    let order = [
        AssetMethod::GetRemainingLength,
        AssetMethod::IsAllocated,
        AssetMethod::OpenFileDescriptor,
        AssetMethod::Read,
        AssetMethod::Seek,
        AssetMethod::GetBuffer,
        AssetMethod::Close,
    ];
    for i in 0..8 {
        let next = p.record(observed[i]);
        if i < 7 {
            assert!(next == Some(order[i]));
        } else {
            assert!(next.is_none());
        }
    }
    assert_eq!(p.hooks.getLength, (3, 101));
    assert_eq!(p.hooks.getRemainingLength, (4, 102));
    assert_eq!(p.hooks.isAllocated, (7, 103));
    assert_eq!(p.hooks.openFileDescriptor, (9, 104));
    assert_eq!(p.hooks.read, (10, 105));
    assert_eq!(p.hooks.seek, (11, 106));
    assert_eq!(p.hooks.getBuffer, (12, 107));
    assert_eq!(p.hooks.close, (2, 108));
}

#[test]
fn install_writes_hooks_into_probed_slots() {
    let mut hk = hooks();
    hk.getLength.0 = 3;
    hk.getRemainingLength.0 = 4;
    hk.isAllocated.0 = 7;
    hk.openFileDescriptor.0 = 9;
    hk.read.0 = 10;
    hk.seek.0 = 11;
    hk.getBuffer.0 = 12;
    hk.close.0 = 2;
    let mut vt = AssetVTable { elements: [1000; 20], elements2: [2000; 20] };
    vt.install_hooks(&hk);
    let mut expected = [1000usize; 20];
    expected[3] = 101;
    expected[4] = 102;
    expected[7] = 103;
    expected[9] = 104;
    expected[10] = 105;
    expected[11] = 106;
    expected[2] = 108;
    assert_eq!(vt.elements, expected);
    assert_eq!(vt.elements[12], 1000);
    assert_eq!(vt.elements2, [2000; 20]);
}

#[test]
fn install_later_method_wins_shared_slot() {
    let mut hk = hooks();
    hk.getLength.0 = 5;
    hk.getRemainingLength.0 = 5;
    hk.isAllocated.0 = 0;
    hk.openFileDescriptor.0 = 1;
    hk.read.0 = 2;
    hk.seek.0 = 3;
    hk.close.0 = 4;
    let mut vt = AssetVTable { elements: [0; 20], elements2: [0; 20] };
    vt.install_hooks(&hk);
    assert_eq!(vt.elements[5], 102);
}

#[test]
fn block_for_vtable_copy() {
    let w = std::mem::size_of::<usize>();
    let (b, head) = VTBlockHolder::allocate(0x10000);
    assert_eq!(b.gap, 2 * w);
    assert_eq!(head, 0x10000 - 2 * w);
    assert_eq!(b.block.len(), 2 * w + std::mem::size_of::<AssetVTable>());
    assert_eq!(std::mem::size_of::<AssetVTable>(), 40 * w);
    assert!(b.block.iter().all(|x| *x == 0));
}

#[test]
fn top_of_object_steps() {
    assert_eq!(top_step(0x1000, 0), None);
    assert_eq!(top_step(0x1000, -16), Some(0x1000 - 16));
    assert_eq!(top_step(0x1000, 32), Some(0x1020));
}

#[test]
fn internal_fixed_answers() {
    assert!(!is_allocated(h(1)));
    assert_eq!(open_file_descriptor(h(1)), -1);
}

#[test]
fn table_copied_once() {
    let mut copies: Vec<VTBlockHolder> = Vec::new();
    assert!(needs_table_copy(&copies));
    copies.push(VTBlockHolder::allocate(0x10000).0);
    assert!(!needs_table_copy(&copies));
}
