use locklet::{HBoxAny, HBoxError, HBoxFuture, HFuture, HSend, HSendSync, HSync, Hrc, Lock};

fn needs_send_sync<T: HSendSync>(_: &T) {}

fn needs_send<T: HSend>(_: &T) {}

fn needs_sync<T: HSync>(_: &T) {}

fn needs_future<F: HFuture>(_: &F) {}

#[test]
fn thread_safe_types_have_the_markers() {
    let shared: Hrc<Lock<u32>> = Hrc::new(Lock::new(4));
    needs_send_sync(&shared);
    needs_send(&7u8);
    needs_sync(&String::from("x"));
    needs_future(&std::future::ready(1u8));
}

#[test]
fn boxed_aliases_hold_values() {
    let any: HBoxAny<'static> = Box::new(9u16);
    assert_eq!(any.downcast_ref::<u16>(), Some(&9u16));
    let err: HBoxError<'static> = Box::new(std::fmt::Error);
    assert!(!err.to_string().is_empty());
    let fut: HBoxFuture<'static, u8> = Box::pin(std::future::ready(3u8));
    needs_send(&fut);
}
