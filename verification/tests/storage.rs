//! Tests for the capability slot, the storage accessors and the typed
//! decoder.

use runtime_support::Externalities;
use runtime_support::MemoryExternalities;
use runtime_support::ScopedContextSlot;
use runtime_support::chain_id;
use runtime_support::read_storage;
use runtime_support::set_storage;
use runtime_support::storage;
use runtime_support::storage_into;
use runtime_support::with_externalities;

#[test]
fn storage_works() {
    let mut slot: ScopedContextSlot<MemoryExternalities> = ScopedContextSlot::empty();
    let t = MemoryExternalities::new(42);
    let (ok, mut used) = with_externalities(&mut slot, t, |mut s| {
        assert_eq!(storage(&s, b"hello"), b"".to_vec());
        set_storage(&mut s, b"hello", b"world");
        assert_eq!(storage(&s, b"hello"), b"world".to_vec());
        assert_eq!(storage(&s, b"foo"), b"".to_vec());
        set_storage(&mut s, b"foo", &[1, 2, 3][..]);
        assert_eq!(storage_into::<[u8; 3], _>(&s, b"foo"), Some([1, 2, 3]));
        assert_eq!(storage_into::<[u8; 3], _>(&s, b"hello"), None);
        (true, s)
    });
    assert!(ok);
    assert!(used.uninstall().is_some());

    let mut t = MemoryExternalities::new(42);
    t.set_storage(b"foo".to_vec(), b"bar".to_vec());

    let (ok, _) = with_externalities(&mut slot, t, |s| {
        assert_eq!(storage(&s, b"hello"), b"".to_vec());
        assert_eq!(storage(&s, b"foo"), b"bar".to_vec());
        (false, s)
    });
    assert!(!ok);
}

#[test]
fn no_scope_gives_defaults() {
    let mut slot: ScopedContextSlot<MemoryExternalities> = ScopedContextSlot::empty();
    assert_eq!(storage(&slot, b"key"), b"".to_vec());
    assert_eq!(chain_id(&slot), 0);
    set_storage(&mut slot, b"key", b"value");
    assert_eq!(storage(&slot, b"key"), b"".to_vec());
    let mut buf = [9u8; 4];
    assert_eq!(read_storage(&slot, b"key", &mut buf), 0);
    assert_eq!(buf, [9u8; 4]);
    assert_eq!(storage_into::<[u8; 0], _>(&slot, b"key"), None);
    assert_eq!(storage_into::<u32, _>(&slot, b"key"), None);
}

#[test]
fn set_then_get_round_trip() {
    let mut slot: ScopedContextSlot<MemoryExternalities> = ScopedContextSlot::empty();
    let prev = slot.install(MemoryExternalities::new(0));
    assert!(prev.is_none());
    set_storage(&mut slot, b"alpha", b"one");
    set_storage(&mut slot, b"beta", b"two");
    assert_eq!(storage(&slot, b"alpha"), b"one".to_vec());
    assert_eq!(storage(&slot, b"beta"), b"two".to_vec());
    set_storage(&mut slot, b"alpha", b"three");
    assert_eq!(storage(&slot, b"alpha"), b"three".to_vec());
    assert_eq!(storage(&slot, b"beta"), b"two".to_vec());
    assert_eq!(storage(&slot, b"gamma"), b"".to_vec());
}

#[test]
fn read_storage_reports_full_length() {
    let mut slot: ScopedContextSlot<MemoryExternalities> = ScopedContextSlot::empty();
    slot.install(MemoryExternalities::new(0));
    set_storage(&mut slot, b"k", b"hello");

    let mut small = [0xaau8; 3];
    assert_eq!(read_storage(&slot, b"k", &mut small), 5);
    assert_eq!(small, [b'h', b'e', b'l']);

    let mut large = [0xaau8; 8];
    assert_eq!(read_storage(&slot, b"k", &mut large), 5);
    assert_eq!(large, [b'h', b'e', b'l', b'l', b'o', 0xaa, 0xaa, 0xaa]);

    let mut other = [0xaau8; 4];
    assert_eq!(read_storage(&slot, b"absent", &mut other), 0);
    assert_eq!(other, [0xaau8; 4]);
}

#[test]
fn storage_into_requires_exact_size() {
    let mut slot: ScopedContextSlot<MemoryExternalities> = ScopedContextSlot::empty();
    slot.install(MemoryExternalities::new(0));
    set_storage(&mut slot, b"k", &[1, 2, 3]);
    assert_eq!(storage_into::<[u8; 3], _>(&slot, b"k"), Some([1, 2, 3]));
    assert_eq!(storage_into::<[u8; 4], _>(&slot, b"k"), None);
    assert_eq!(storage_into::<[u8; 2], _>(&slot, b"k"), None);
    assert_eq!(storage_into::<u32, _>(&slot, b"k"), None);

    set_storage(&mut slot, b"w", &[0x78, 0x56, 0x34, 0x12]);
    assert_eq!(storage_into::<u32, _>(&slot, b"w"), Some(0x12345678));
    assert_eq!(storage_into::<u64, _>(&slot, b"w"), None);

    set_storage(&mut slot, b"d", &[1, 0, 0, 0, 0, 0, 0, 0x80]);
    assert_eq!(storage_into::<u64, _>(&slot, b"d"), Some(0x8000000000000001));
}

#[test]
fn nested_scopes_restore_the_outer_capability() {
    let mut slot: ScopedContextSlot<MemoryExternalities> = ScopedContextSlot::empty();
    let outer = MemoryExternalities::new(1);
    let inner = MemoryExternalities::new(2);

    let ((), _) = with_externalities(&mut slot, outer, |mut s| {
        assert_eq!(chain_id(&s), 1);
        set_storage(&mut s, b"k", b"outer");

        let (seen, mut b_slot) = with_externalities(&mut s, inner, |mut sb| {
            assert_eq!(storage(&sb, b"k"), b"".to_vec());
            set_storage(&mut sb, b"k", b"inner");
            assert_eq!(storage(&sb, b"k"), b"inner".to_vec());
            (chain_id(&sb), sb)
        });
        assert_eq!(seen, 2);
        assert_eq!(chain_id(&b_slot), 2);
        assert!(b_slot.uninstall().is_some());

        assert_eq!(chain_id(&s), 1);
        assert_eq!(storage(&s, b"k"), b"outer".to_vec());
        ((), s)
    });
    assert_eq!(chain_id(&slot), 0);
    assert!(!slot.is_installed());
}

#[test]
fn install_and_restore_swap_the_slot_content() {
    let mut slot: ScopedContextSlot<MemoryExternalities> = ScopedContextSlot::empty();
    assert!(slot.current().is_none());

    let prev = slot.install(MemoryExternalities::new(7));
    assert!(prev.is_none());
    assert!(slot.is_installed());
    assert_eq!(slot.current().map(|e| e.chain_id()), Some(7));

    let prev = slot.install(MemoryExternalities::new(8));
    assert_eq!(prev.as_ref().map(|e| e.chain_id()), Some(7));
    assert_eq!(chain_id(&slot), 8);

    slot.restore(prev);
    assert_eq!(chain_id(&slot), 7);

    let taken = slot.uninstall();
    assert_eq!(taken.map(|e| e.chain_id()), Some(7));
    assert!(!slot.is_installed());
}
