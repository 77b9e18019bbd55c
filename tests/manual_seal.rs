use futures::channel::mpsc;
use manual_seal_rpc::engine::{seal_command, seal_reply, EngineCommand, ManualSeal, ServerError, SHUTDOWN_ERROR_CODE};

fn assert_shutdown(r: Result<(), ServerError>) {
    match r {
        Ok(()) => panic!("expected the shutdown error"),
        Err(e) => {
            assert_eq!(e.code, 500);
            assert_eq!(e.code, SHUTDOWN_ERROR_CODE);
            assert_eq!(e.message, "Server is shutting down");
        }
    }
}

fn next_seal(rx: &mut mpsc::UnboundedReceiver<EngineCommand<u64>>) -> (bool, Option<u64>) {
    match rx.try_recv() {
        Ok(EngineCommand::SealNewBlock { create_empty, parent_hash }) => (create_empty, parent_hash),
        Err(_) => panic!("expected a queued command"),
    }
}

#[test]
fn create_block_while_running_queues_one_command() {
    let (tx, mut rx) = mpsc::unbounded::<EngineCommand<u64>>();
    let seal = ManualSeal::new(tx);
    assert!(seal.create_block(true, None).is_ok());
    assert_eq!(next_seal(&mut rx), (true, None));
    assert!(rx.try_recv().is_err());
}

#[test]
fn create_block_after_close_reports_shutdown() {
    let (tx, mut rx) = mpsc::unbounded::<EngineCommand<String>>();
    let seal = ManualSeal::new(tx);
    rx.close();
    assert_shutdown(seal.create_block(false, Some("0xdead".to_string())));
}

#[test]
fn create_block_after_receiver_dropped_reports_shutdown() {
    let (tx, rx) = mpsc::unbounded::<EngineCommand<u64>>();
    let seal = ManualSeal::new(tx);
    drop(rx);
    assert_shutdown(seal.create_block(true, Some(1)));
}

#[test]
fn commands_arrive_in_order_sent() {
    let (tx, mut rx) = mpsc::unbounded::<EngineCommand<u64>>();
    let seal = ManualSeal::new(tx);
    for n in 0..10u64 {
        assert!(seal.create_block(n % 2 == 0, Some(n)).is_ok());
    }
    for n in 0..10u64 {
        assert_eq!(next_seal(&mut rx), (n % 2 == 0, Some(n)));
    }
    assert!(rx.try_recv().is_err());
}

#[test]
fn every_caller_gets_its_own_command() {
    let (tx, mut rx) = mpsc::unbounded::<EngineCommand<u64>>();
    let callers: Vec<ManualSeal<u64>> = (0..5).map(|_| ManualSeal::new(tx.clone())).collect();
    for (k, caller) in callers.iter().enumerate() {
        assert!(caller.create_block(false, Some(7)).is_ok());
        assert!(caller.create_block(true, Some(k as u64)).is_ok());
    }
    let mut received = Vec::new();
    while let Ok(EngineCommand::SealNewBlock { create_empty, parent_hash }) = rx.try_recv() {
        received.push((create_empty, parent_hash));
    }
    assert_eq!(received.len(), 10);
    assert_eq!(received.iter().filter(|c| **c == (false, Some(7))).count(), 5);
    for k in 0..5u64 {
        assert_eq!(received.iter().filter(|c| **c == (true, Some(k))).count(), 1);
    }
}

#[test]
fn closed_channel_stays_closed() {
    let (tx, mut rx) = mpsc::unbounded::<EngineCommand<u64>>();
    let seal = ManualSeal::new(tx);
    assert!(seal.create_block(true, None).is_ok());
    rx.close();
    for _ in 0..5 {
        assert_shutdown(seal.create_block(true, None));
        assert_shutdown(seal.create_block(false, Some(3)));
    }
    assert_eq!(next_seal(&mut rx), (true, None));
}

#[test]
fn seal_reply_maps_outcomes() {
    assert!(seal_reply::<u64>(Ok(())).is_ok());
    let back = EngineCommand::SealNewBlock { create_empty: true, parent_hash: Some(9u64) };
    assert_shutdown(seal_reply(Err(back)));
}

#[test]
fn shutdown_error_fields() {
    let e = ServerError::shutdown();
    assert_shutdown(Err(e));
}

#[test]
fn seal_command_carries_its_arguments() {
    match seal_command(false, Some(42u64)) {
        EngineCommand::SealNewBlock { create_empty, parent_hash } => {
            assert!(!create_empty);
            assert_eq!(parent_hash, Some(42));
        }
    }
    match seal_command::<u64>(true, None) {
        EngineCommand::SealNewBlock { create_empty, parent_hash } => {
            assert!(create_empty);
            assert_eq!(parent_hash, None);
        }
    }
}
