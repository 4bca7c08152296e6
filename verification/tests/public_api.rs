use assethook::capi::{AAssetHolder, HookMap, JAsset, ReadSpan};

fn h(a: usize) -> AAssetHolder {
    AAssetHolder { asset: a }
}

#[test]
fn unhooked_assets_pass_through() {
    let mut m = HookMap::new();
    assert!(!m.is_hooked(h(1)));
    assert_eq!(m.length(h(1)), None);
    assert_eq!(m.remaining_length(h(1)), None);
    assert_eq!(m.read(h(1), 10), None);
    assert_eq!(m.seek(h(1), 0, 0), None);
    assert_eq!(m.is_allocated(h(1)), None);
    assert_eq!(m.open_file_descriptor(h(1)), None);
    assert_eq!(m.buffer(h(1)), None);
    assert_eq!(m.lookup(h(1)), None);
}

#[test]
fn hooked_asset_reads_replacement() {
    let mut m = HookMap::new();
    m.hook(h(7), 10, 0xb000);
    assert_eq!(m.length(h(7)), Some(10));
    assert_eq!(m.remaining_length(h(7)), Some(10));
    assert_eq!(m.read(h(7), 4), Some(ReadSpan { offset: 0, len: 4 }));
    assert_eq!(m.remaining_length(h(7)), Some(6));
    assert_eq!(m.read(h(7), 100), Some(ReadSpan { offset: 4, len: 6 }));
    assert_eq!(m.read(h(7), 100), Some(ReadSpan { offset: 10, len: 0 }));
    assert_eq!(m.length(h(7)), Some(10));
    assert_eq!(m.is_allocated(h(7)), Some(0));
    assert_eq!(m.open_file_descriptor(h(7)), Some(-1));
    assert_eq!(m.buffer(h(7)), Some(0xb000));
}

#[test]
fn seeks_on_hooked_asset() {
    let mut m = HookMap::new();
    m.hook(h(3), 10, 0xb000);
    assert_eq!(m.seek(h(3), 4, 0), Some(4));
    assert_eq!(m.seek(h(3), 2, 1), Some(6));
    assert_eq!(m.seek(h(3), -7, 1), Some(-1));
    assert_eq!(m.lookup(h(3)), Some(JAsset { asset: 3, size: 10, pos: 6, buffer: 0xb000 }));
    assert_eq!(m.seek(h(3), -3, 2), Some(7));
    assert_eq!(m.read(h(3), 10), Some(ReadSpan { offset: 7, len: 3 }));
    assert_eq!(m.seek(h(3), 1, 2), Some(-1));
    assert_eq!(m.seek(h(3), 0, 9), Some(-1));
    assert_eq!(m.seek(h(3), -1, 0), Some(-1));
    assert_eq!(m.seek(h(3), 0, 2), Some(10));
    assert_eq!(m.remaining_length(h(3)), Some(0));
}

#[test]
fn close_forgets_only_that_asset() {
    let mut m = HookMap::new();
    m.hook(h(1), 5, 0xb000);
    m.hook(h(2), 6, 0xb000);
    assert_eq!(m.unhook(h(1)), Some(JAsset { asset: 1, size: 5, pos: 0, buffer: 0xb000 }));
    assert!(!m.is_hooked(h(1)));
    assert_eq!(m.length(h(2)), Some(6));
    assert_eq!(m.unhook(h(1)), None);
}

#[test]
fn rehooking_restarts_asset() {
    let mut m = HookMap::new();
    m.hook(h(1), 5, 0xb000);
    m.read(h(1), 3);
    m.hook(h(1), 8, 0xb000);
    assert_eq!(m.lookup(h(1)), Some(JAsset { asset: 1, size: 8, pos: 0, buffer: 0xb000 }));
}

#[test]
fn successive_reads_hand_out_consecutive_spans() {
    let mut m = HookMap::new();
    m.hook(h(9), 10, 0xb000);
    let counts = [3usize, 1, 4, 5, 2];
    let mut next = 0usize;
    let mut total = 0usize;
    for c in counts.iter() {
        let span = m.read(h(9), *c).unwrap();
        assert_eq!(span.offset, next);
        next = span.offset + span.len;
        total += span.len;
    }
    assert_eq!(total, 10);
    assert_eq!(m.read(h(9), 7), Some(ReadSpan { offset: 10, len: 0 }));
}
