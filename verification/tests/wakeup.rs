use gpui_libghostty::NativeWakeup;

#[test]
fn native_wakeup_coalesces_duplicate_signals() {
    let wakeup = NativeWakeup::new();
    wakeup.signal();
    wakeup.signal();

    assert_eq!(wakeup.receiver.try_recv(), Ok(()));
    assert_eq!(
        wakeup.receiver.try_recv(),
        Err(async_channel::TryRecvError::Empty)
    );
}

#[test]
fn cloned_wakeups_share_one_signal() {
    let wakeup = NativeWakeup::new();
    let other = wakeup.clone();
    other.signal();
    wakeup.signal();
    assert_eq!(wakeup.receiver.try_recv(), Ok(()));
    assert!(other.receiver.try_recv().is_err());
}

#[test]
fn wakeup_channel_holds_one_signal() {
    let wakeup = NativeWakeup::new();
    assert_eq!(wakeup.receiver.capacity(), Some(1));
    assert_eq!(wakeup.sender.capacity(), Some(1));
}

#[test]
fn sender_and_receiver_share_the_channel() {
    let wakeup = NativeWakeup::new();
    assert_eq!(wakeup.sender.receiver_count(), 1);
    assert_eq!(wakeup.receiver.sender_count(), 1);
    wakeup.sender.try_send(()).unwrap();
    assert_eq!(wakeup.receiver.try_recv(), Ok(()));
}
