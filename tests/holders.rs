use locklet::{Error, Holders};

#[test]
fn new_lock_is_free() {
    let h = Holders::new();
    assert_eq!(h, Holders { readers: 0, writer: false });
    assert!(h.can_read());
    assert!(h.can_write());
}

#[test]
fn writer_refuses_everyone_until_released() {
    let mut h = Holders::new();
    assert_eq!(h.try_write(), Ok(()));
    assert_eq!(h, Holders { readers: 0, writer: true });
    assert_eq!(h.try_read(), Err(Error));
    assert_eq!(h.try_write(), Err(Error));
    assert_eq!(h, Holders { readers: 0, writer: true });
    h.release_write();
    assert_eq!(h.try_write(), Ok(()));
}

#[test]
fn readers_share_and_refuse_writer() {
    let mut h = Holders::new();
    for _ in 0..3 {
        assert_eq!(h.try_read(), Ok(()));
    }
    assert_eq!(h, Holders { readers: 3, writer: false });
    assert_eq!(h.try_write(), Err(Error));
    h.release_read();
    h.release_read();
    assert_eq!(h.try_write(), Err(Error));
    h.release_read();
    assert_eq!(h.try_write(), Ok(()));
}

#[test]
fn read_then_release_restores() {
    let mut h = Holders::new();
    assert_eq!(h.try_read(), Ok(()));
    h.release_read();
    assert_eq!(h, Holders::new());
    assert!(h.can_write());
    assert_eq!(h.try_write(), Ok(()));
    h.release_write();
    assert_eq!(h, Holders::new());
    assert!(h.can_read());
}

#[test]
fn reader_count_at_largest_refuses_read() {
    let mut h = Holders { readers: u64::MAX, writer: false };
    assert!(!h.can_read());
    assert_eq!(h.try_read(), Err(Error));
    assert_eq!(h.readers, u64::MAX);
    let mut g = Holders { readers: u64::MAX - 1, writer: false };
    assert_eq!(g.try_read(), Ok(()));
    assert_eq!(g.readers, u64::MAX);
}
