use lyre::detector::PluckDetector;
use lyre::engine::Engine;
use lyre::pending::PendingQueue;
use lyre::voice::{LiveVoice, Ramp, VoiceCommand};

fn command(pitch_cents: i32, duration: u64) -> VoiceCommand {
    VoiceCommand { pitch_cents, seed: 7, start_offset: 0, duration, fade_in: 0, fade_out: 0 }
}

#[test]
fn pluck_command_values() {
    let c = VoiceCommand::pluck(7200, 42, 48_000);
    assert_eq!(
        c,
        VoiceCommand {
            pitch_cents: 7200,
            seed: 42,
            start_offset: 0,
            duration: 240_000,
            fade_in: 960,
            fade_out: 9_600,
        }
    );
    let c = VoiceCommand::pluck(6900, 1, 44_100);
    assert_eq!((c.duration, c.fade_in, c.fade_out), (220_500, 882, 8_820));
}

#[test]
fn full_queue_drops_and_counts() {
    let mut q = PendingQueue::new(2);
    assert!(q.trigger(7200, 1, 48_000));
    assert!(q.trigger(7300, 2, 48_000));
    assert!(!q.trigger(7400, 3, 48_000));
    assert!(!q.push(command(7500, 10)));
    assert_eq!(q.len(), 2);
    assert_eq!(q.dropped(), 2);
    assert_eq!(q.capacity(), 2);
    assert_eq!(q.command(0).pitch_cents, 7200);
    assert_eq!(q.command(1).seed, 2);
    q.clear();
    assert!(q.is_empty());
    assert_eq!(q.dropped(), 2);
}

#[test]
fn cap_evicts_oldest_first() {
    let mut e = Engine::new(3);
    let mut evicted = Vec::new();
    for p in 0..5 {
        if let Some(v) = e.add_voice(command(p, 100)) {
            evicted.push(v.command.pitch_cents);
        }
    }
    assert_eq!(e.len(), 3);
    let pitches: Vec<i32> = e.voices().iter().map(|v| v.command.pitch_cents).collect();
    assert_eq!(pitches, vec![2, 3, 4]);
    let ids: Vec<u64> = e.voices().iter().map(|v| v.id).collect();
    assert_eq!(ids, vec![2, 3, 4]);
    assert_eq!(evicted, vec![0, 1]);
    assert_eq!(e.next_id(), 5);
    assert_eq!(e.cap(), 3);
}

#[test]
fn pending_commands_enter_in_order_under_cap() {
    let mut q = PendingQueue::new(8);
    for p in 0..6 {
        assert!(q.push(command(p, 50)));
    }
    let mut e = Engine::new(4);
    e.add_voice(command(100, 50));
    e.admit_pending(&mut q);
    assert!(q.is_empty());
    let pitches: Vec<i32> = e.voices().iter().map(|v| v.command.pitch_cents).collect();
    assert_eq!(pitches, vec![2, 3, 4, 5]);
    assert_eq!(e.next_id(), 7);
}

#[test]
fn voice_removed_when_duration_reached() {
    let mut e = Engine::new(4);
    e.add_voice(command(1, 3));
    e.add_voice(command(2, 1));
    e.tick();
    assert_eq!(e.len(), 1);
    assert_eq!(e.voices()[0].elapsed, 1);
    e.tick();
    assert_eq!(e.len(), 1);
    assert_eq!(e.voices()[0].elapsed, 2);
    e.tick();
    assert!(e.is_empty());
    e.tick();
    assert!(e.is_empty());
}

#[test]
fn tick_keeps_order_of_survivors() {
    let mut e = Engine::new(8);
    for (p, d) in [(1, 5), (2, 1), (3, 4), (4, 1), (5, 9)] {
        e.add_voice(command(p, d));
    }
    e.tick();
    let left: Vec<(i32, u64)> = e.voices().iter().map(|v| (v.command.pitch_cents, v.elapsed)).collect();
    assert_eq!(left, vec![(1, 1), (3, 1), (5, 1)]);
}

#[test]
fn start_offset_is_silent() {
    let c = VoiceCommand { pitch_cents: 0, seed: 0, start_offset: 10, duration: 100, fade_in: 4, fade_out: 20 };
    let v = LiveVoice { id: 0, command: c, elapsed: 9 };
    assert!(!v.is_started());
    assert_eq!(v.fade_in_ramp(), Ramp { pos: 0, len: 4 });
    let v = LiveVoice { elapsed: 12, ..v };
    assert!(v.is_started());
    assert_eq!(v.fade_in_ramp(), Ramp { pos: 2, len: 4 });
    let v = LiveVoice { elapsed: 50, ..v };
    assert_eq!(v.fade_in_ramp(), Ramp { pos: 4, len: 4 });
    assert_eq!(v.fade_out_ramp(), Ramp { pos: 20, len: 20 });
    let v = LiveVoice { elapsed: 95, ..v };
    assert_eq!(v.fade_out_ramp(), Ramp { pos: 5, len: 20 });
    let v = LiveVoice { elapsed: 100, ..v };
    assert_eq!(v.fade_out_ramp(), Ramp { pos: 0, len: 20 });
}

#[test]
fn pluck_lifecycle_end_to_end() {
    let rate: u32 = 48_000;
    let mut q = PendingQueue::new(16);
    assert!(q.trigger(7200, 12345, rate));
    let mut e = Engine::new(32);
    e.admit_pending(&mut q);
    assert_eq!(e.len(), 1);

    let v = e.voices()[0];
    assert!(v.is_started());
    assert_eq!(v.fade_in_ramp(), Ramp { pos: 0, len: 960 });

    let mut last = 0;
    for _ in 0..960 {
        e.tick();
        let pos = e.voices()[0].fade_in_ramp().pos;
        assert!(pos > last);
        last = pos;
    }
    assert_eq!(last, 960);

    let total: u64 = 5 * rate as u64;
    for _ in 960..total - 1 {
        e.tick();
    }
    assert_eq!(e.len(), 1);
    assert_eq!(e.voices()[0].fade_out_ramp(), Ramp { pos: 1, len: 9_600 });
    e.tick();
    assert!(e.is_empty());
}

#[test]
fn detector_hysteresis() {
    let mut d = PluckDetector::new();
    assert!(!d.plucking());
    assert!(!d.update(400));
    assert!(d.update(399));
    assert!(d.plucking());
    assert!(!d.update(10));
    assert!(!d.update(900));
    assert!(d.plucking());
    assert!(!d.update(901));
    assert!(!d.plucking());
    assert!(!d.update(500));
    assert!(d.update(0));
}
