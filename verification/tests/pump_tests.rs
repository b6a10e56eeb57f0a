use std::sync::{Arc, Mutex};
use std::time::Duration;

use rust_tdlib::errors::RTDError;
use rust_tdlib::worker::{after_channel_send, PumpStep, SendOutcome, Worker};

#[test]
fn full_channel_send_timeout_fails_the_pump_within_bounded_time() {
    let rt = tokio::runtime::Builder::new_current_thread()
        .enable_time()
        .build()
        .unwrap();
    rt.block_on(async {
        let (tx, _rx) = tokio::sync::mpsc::channel::<u32>(1);
        tx.send(1).await.unwrap();
        // the channel is full and nobody reads: an unreachably small send
        // timeout must expire rather than hang
        let started = std::time::Instant::now();
        let sent = tx.send_timeout(2, Duration::from_millis(1)).await;
        assert!(started.elapsed() < Duration::from_secs(5));
        let outcome = match sent {
            Ok(()) => SendOutcome::Delivered,
            Err(tokio::sync::mpsc::error::SendTimeoutError::Timeout(_)) => SendOutcome::TimedOut,
            Err(tokio::sync::mpsc::error::SendTimeoutError::Closed(_)) => {
                SendOutcome::ChannelClosed
            }
        };
        assert_eq!(outcome, SendOutcome::TimedOut);
        // the owning pump turns the expired send into its own failure
        let verdict = after_channel_send(outcome);
        assert_eq!(
            verdict,
            Err(RTDError::SendTimeout("channel send timed out".to_string()))
        );
    });
}

#[test]
fn stop_between_receives_exits_the_pump_within_one_interval() {
    let rt = tokio::runtime::Builder::new_multi_thread()
        .worker_threads(2)
        .enable_time()
        .build()
        .unwrap();
    rt.block_on(async {
        let receive_timeout_ms: u64 = 50;
        let worker = Arc::new(Mutex::new(
            Worker::builder()
                .with_read_updates_timeout(receive_timeout_ms)
                .build()
                .unwrap(),
        ));
        let pump_worker = worker.clone();
        let pump = tokio::spawn(async move {
            loop {
                // the stop flag is observed at the top of each iteration;
                // the sleep stands for one blocking receive interval
                let step = pump_worker.lock().unwrap().updates_pump_step(None);
                if step == PumpStep::Exit {
                    break;
                }
                tokio::time::sleep(Duration::from_millis(receive_timeout_ms)).await;
            }
        });
        tokio::time::sleep(Duration::from_millis(10)).await;
        worker.lock().unwrap().stop();
        // one receive interval bounds the exit latency; allow generous slack
        let joined = tokio::time::timeout(Duration::from_secs(5), pump).await;
        assert!(joined.is_ok());
    });
}
