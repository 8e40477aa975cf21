use std::sync::mpsc::{channel, TryRecvError};
use std::task::Poll;
use urbanite::generation::{SimplexGenerator, TerrainTexture};
use urbanite::task::{host_action, ChannelEvent, GenerationTask, HostAction, PollOutcome, PollStep};

fn flat(_i: u32, _j: u32) -> u32 {
    0.5f32.to_bits()
}

#[test]
fn new_task_has_not_spawned() {
    let task: GenerationTask<u32> = GenerationTask::new(7);
    assert!(!task.has_spawned());
    assert_eq!(*task.generator(), 7);
}

#[test]
fn first_poll_on_empty_channel_spawns_and_stays_pending() {
    let mut task: GenerationTask<u32> = GenerationTask::new(7);
    let step: PollStep<u8> = task.poll(ChannelEvent::Empty);
    assert!(step.spawn);
    assert!(matches!(step.outcome, PollOutcome::Pending));
    assert!(task.has_spawned());
    assert_eq!(*task.generator(), 7);
}

#[test]
fn later_polls_on_empty_channel_do_not_respawn() {
    let mut task: GenerationTask<u32> = GenerationTask::new(7);
    let mut spawned: u32 = 0;
    for _ in 0..10 {
        let step: PollStep<u8> = task.poll(ChannelEvent::Empty);
        if step.spawn {
            spawned += 1;
        }
        assert!(matches!(step.outcome, PollOutcome::Pending));
    }
    assert_eq!(spawned, 1);
    assert!(task.has_spawned());
}

#[test]
fn received_result_resolves_the_task_with_it() {
    let mut task: GenerationTask<u32> = GenerationTask::new(7);
    let first: PollStep<u8> = task.poll(ChannelEvent::Empty);
    assert!(first.spawn);
    let second: PollStep<u8> = task.poll(ChannelEvent::Received(42));
    assert!(!second.spawn);
    assert!(matches!(second.outcome, PollOutcome::Ready(Some(42))));
}

#[test]
fn closed_channel_resolves_the_task_with_nothing() {
    let mut task: GenerationTask<u32> = GenerationTask::new(7);
    let first: PollStep<u8> = task.poll(ChannelEvent::Empty);
    assert!(first.spawn);
    let second: PollStep<u8> = task.poll(ChannelEvent::Disconnected);
    assert!(!second.spawn);
    assert!(matches!(second.outcome, PollOutcome::Ready(None)));
    assert!(task.has_spawned());
}

#[test]
fn task_resolves_with_a_texture_of_the_generators_size() {
    let generator: SimplexGenerator = SimplexGenerator::new(40, 30, 1234);
    let mut task: GenerationTask<SimplexGenerator> = GenerationTask::new(generator);
    let mut sent: Option<TerrainTexture> = None;
    let mut resolved: Option<TerrainTexture> = None;
    let mut polls: u32 = 0;
    while resolved.is_none() {
        polls += 1;
        assert!(polls < 10);
        let event: ChannelEvent<TerrainTexture> = match sent.take() {
            Some(texture) => ChannelEvent::Received(texture),
            None => ChannelEvent::Empty,
        };
        let step: PollStep<TerrainTexture> = task.poll(event);
        if step.spawn {
            sent = Some(task.generator().get_elevation_map(flat));
        }
        if let PollOutcome::Ready(result) = step.outcome {
            resolved = result;
            assert!(resolved.is_some());
        }
    }
    let texture: TerrainTexture = resolved.unwrap();
    assert_eq!(texture.size(), (40, 30));
    assert_eq!(texture.data().len(), 40 * 30 * 4);
}

#[test]
fn poll_after_resolution_does_not_respawn() {
    let mut task: GenerationTask<u32> = GenerationTask::new(7);
    let mut spawned: u32 = 0;
    let events: Vec<ChannelEvent<u8>> = vec![
        ChannelEvent::Empty,
        ChannelEvent::Empty,
        ChannelEvent::Received(9),
        ChannelEvent::Empty,
        ChannelEvent::Disconnected,
        ChannelEvent::Empty,
    ];
    for event in events {
        let step: PollStep<u8> = task.poll(event);
        if step.spawn {
            spawned += 1;
        }
    }
    assert_eq!(spawned, 1);
    assert!(task.has_spawned());
}

#[test]
fn poll_does_not_resend_a_result() {
    let mut task: GenerationTask<u32> = GenerationTask::new(7);
    let _first: PollStep<u8> = task.poll(ChannelEvent::Empty);
    let second: PollStep<u8> = task.poll(ChannelEvent::Received(9));
    assert!(matches!(second.outcome, PollOutcome::Ready(Some(9))));
    let third: PollStep<u8> = task.poll(ChannelEvent::Empty);
    assert!(matches!(third.outcome, PollOutcome::Pending));
    assert!(!third.spawn);
}

#[test]
fn result_before_any_empty_poll_needs_no_worker() {
    let mut task: GenerationTask<u32> = GenerationTask::new(7);
    let step: PollStep<u8> = task.poll(ChannelEvent::Received(3));
    assert!(!step.spawn);
    assert!(!task.has_spawned());
    assert!(matches!(step.outcome, PollOutcome::Ready(Some(3))));
}

#[test]
fn host_installs_a_result() {
    let action: HostAction<u8> = host_action(PollOutcome::Ready(Some(5)));
    assert!(matches!(action, HostAction::Install(5)));
}

#[test]
fn host_reports_a_failure() {
    let action: HostAction<u8> = host_action(PollOutcome::Ready(None));
    assert!(matches!(action, HostAction::ReportFailure));
}

#[test]
fn host_keeps_polling_a_pending_task() {
    let action: HostAction<u8> = host_action(PollOutcome::Pending);
    assert!(matches!(action, HostAction::KeepPolling));
}

#[test]
fn task_driven_as_a_future_resolves_once_the_worker_has_sent() {
    let generator: SimplexGenerator = SimplexGenerator::new(16, 8, 77);
    let mut task: GenerationTask<SimplexGenerator> = GenerationTask::new(generator);
    let (tx, rx) = channel::<TerrainTexture>();
    let mut spawned: u32 = 0;
    let mut polls: u32 = 0;
    let result: Option<TerrainTexture> =
        futures_lite::future::block_on(futures_lite::future::poll_fn(|ctx| {
            polls += 1;
            let event: ChannelEvent<TerrainTexture> = match rx.try_recv() {
                Ok(texture) => ChannelEvent::Received(texture),
                Err(TryRecvError::Empty) => ChannelEvent::Empty,
                Err(TryRecvError::Disconnected) => ChannelEvent::Disconnected,
            };
            let step: PollStep<TerrainTexture> = task.poll(event);
            if step.spawn {
                spawned += 1;
                tx.send(task.generator().get_elevation_map(flat))
                    .expect("Failed to send elevation map");
                ctx.waker().wake_by_ref();
            }
            match step.outcome {
                PollOutcome::Pending => Poll::Pending,
                PollOutcome::Ready(result) => Poll::Ready(result),
            }
        }));
    let texture: TerrainTexture = result.expect("a texture");
    assert_eq!(texture.size(), (16, 8));
    assert_eq!(spawned, 1);
    assert_eq!(polls, 2);
}

#[test]
fn task_driven_as_a_future_fails_closed_when_the_worker_is_lost() {
    let mut task: GenerationTask<u32> = GenerationTask::new(7);
    let (tx, rx) = channel::<u8>();
    let mut sender = Some(tx);
    let result: Option<u8> = futures_lite::future::block_on(futures_lite::future::poll_fn(|ctx| {
        let event: ChannelEvent<u8> = match rx.try_recv() {
            Ok(value) => ChannelEvent::Received(value),
            Err(TryRecvError::Empty) => ChannelEvent::Empty,
            Err(TryRecvError::Disconnected) => ChannelEvent::Disconnected,
        };
        let step: PollStep<u8> = task.poll(event);
        if step.spawn {
            drop(sender.take());
            ctx.waker().wake_by_ref();
        }
        match step.outcome {
            PollOutcome::Pending => Poll::Pending,
            PollOutcome::Ready(result) => Poll::Ready(result),
        }
    }));
    assert!(result.is_none());
    assert!(task.has_spawned());
}
