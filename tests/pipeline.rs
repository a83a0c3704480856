use crossbeam::sync::SegQueue;
use reconstruction::{
    AudioAction, AudioController, AudioHandlerEvent, CaptureStats, Coordinator, DeviceConfig, DeviceSetting,
    DictionaryHandlerEvent, Error, GuiHandlerEvent, ResynthAction, Resynthesizer, StreamState, BLOCK_SIZE,
    DEFAULT_DEPTH, DEFAULT_THRESHOLD,
};

type Block = [f32; BLOCK_SIZE];
type Feed = Vec<Block>;

fn drain(q: &SegQueue<f64>) -> Vec<f64> {
    let mut out = Vec::new();
    while let Some(s) = q.try_pop() {
        out.push(s);
    }
    out
}

/// Handles a `Play` and puts what it hands over on the playback queue.
fn play(r: &mut Resynthesizer<Feed, f64>, q: &SegQueue<f64>) -> ResynthAction {
    let mut out = Vec::new();
    let action = r.handle(DictionaryHandlerEvent::Play, &mut out);
    assert_eq!(reconstruction::enqueue_all(q, &out), out.len());
    action
}

/// Handles any other command, which must hand nothing over for playback.
fn command(r: &mut Resynthesizer<Feed, f64>, cmd: DictionaryHandlerEvent<Feed>) -> ResynthAction {
    let mut out = vec![9.0];
    let action = r.handle(cmd, &mut out);
    assert_eq!(out, vec![9.0]);
    action
}

fn controller() -> AudioController {
    AudioController::new(vec![0, 1, 2, 3], 0, 1)
}

#[test]
fn full_queue_drop_is_counted_once() {
    let capacity: usize = 8;
    let mut stats = CaptureStats::new();
    for i in 0..capacity {
        let handed_back: Option<Block> = None;
        assert!(!stats.record(&handed_back), "block {} was taken", i);
    }
    let newest: Option<Block> = Some([0.5; BLOCK_SIZE]);
    assert!(stats.record(&newest));
    assert_eq!(stats.delivered, capacity as u64);
    assert_eq!(stats.dropped, 1);
}

#[test]
fn drop_counter_saturates() {
    let mut stats = CaptureStats { delivered: 0, dropped: u64::MAX };
    let back: Option<u8> = Some(1);
    assert!(stats.record(&back));
    assert_eq!(stats.dropped, u64::MAX);
    assert_eq!(stats.delivered, 0);
}

#[test]
fn play_before_any_refresh_enqueues_nothing() {
    let q = SegQueue::new();
    let mut r: Resynthesizer<Feed, f64> = Resynthesizer::new();
    assert_eq!(play(&mut r, &q), ResynthAction::Played(0));
    assert!(drain(&q).is_empty());
}

#[test]
fn refresh_then_play_enqueues_the_synthesis() {
    let q = SegQueue::new();
    let mut r: Resynthesizer<Feed, f64> = Resynthesizer::new();
    let action = command(&mut r, DictionaryHandlerEvent::Refresh);
    assert_eq!(action, ResynthAction::Partition { threshold: DEFAULT_THRESHOLD, depth: DEFAULT_DEPTH });
    assert_eq!(r.complete_refresh(Some(vec![0.25, -0.5, 1.0])), Ok(()));
    assert_eq!(play(&mut r, &q), ResynthAction::Played(3));
    assert_eq!(drain(&q), vec![0.25, -0.5, 1.0]);
    // a second play enqueues the same samples again
    assert_eq!(play(&mut r, &q), ResynthAction::Played(3));
    assert_eq!(drain(&q).len(), 3);
}

#[test]
fn parameters_apply_to_the_next_refresh_only() {
    let mut r: Resynthesizer<Feed, f64> = Resynthesizer::new();
    let first = command(&mut r, DictionaryHandlerEvent::Refresh);
    assert_eq!(command(&mut r, DictionaryHandlerEvent::SetThreshold(9)), ResynthAction::Continue);
    assert_eq!(command(&mut r, DictionaryHandlerEvent::SetDepth(2)), ResynthAction::Continue);
    assert_eq!(command(&mut r, DictionaryHandlerEvent::SetThreshold(11)), ResynthAction::Continue);
    let second = command(&mut r, DictionaryHandlerEvent::Refresh);
    assert_eq!(first, ResynthAction::Partition { threshold: 5, depth: 4 });
    assert_eq!(second, ResynthAction::Partition { threshold: 11, depth: 2 });
    assert_eq!(r.threshold(), 11);
    assert_eq!(r.depth(), 2);
}

#[test]
fn resynthesizer_ignores_commands_after_quit() {
    let q = SegQueue::new();
    let mut r: Resynthesizer<Feed, f64> = Resynthesizer::new();
    assert_eq!(r.complete_refresh(Some(vec![1.0, 2.0])), Ok(()));
    assert_eq!(command(&mut r, DictionaryHandlerEvent::Quit), ResynthAction::Exit);
    assert!(r.is_terminated());
    assert_eq!(command(&mut r, DictionaryHandlerEvent::SetThreshold(1)), ResynthAction::Ignored);
    assert_eq!(command(&mut r, DictionaryHandlerEvent::InputBuffer(Some(vec![]))), ResynthAction::Ignored);
    assert_eq!(command(&mut r, DictionaryHandlerEvent::Refresh), ResynthAction::Ignored);
    assert_eq!(play(&mut r, &q), ResynthAction::Ignored);
    assert_eq!(command(&mut r, DictionaryHandlerEvent::Quit), ResynthAction::Ignored);
    assert_eq!(r.threshold(), DEFAULT_THRESHOLD);
    assert!(r.feed().is_none());
    assert!(drain(&q).is_empty());
}

#[test]
fn audio_controller_ignores_commands_after_quit() {
    let mut a = controller();
    assert_eq!(a.handle(AudioHandlerEvent::Start), Ok(AudioAction::Open(DeviceConfig { input: 0, output: 1 })));
    assert_eq!(a.handle(AudioHandlerEvent::Quit), Ok(AudioAction::Close));
    assert_eq!(a.state(), StreamState::Terminated);
    assert_eq!(a.handle(AudioHandlerEvent::Start), Ok(AudioAction::Nothing));
    assert_eq!(a.handle(AudioHandlerEvent::Setting(DeviceSetting::SetInDevice(99))), Ok(AudioAction::Nothing));
    assert_eq!(a.handle(AudioHandlerEvent::Stop), Ok(AudioAction::Nothing));
    assert_eq!(a.state(), StreamState::Terminated);
}

#[test]
fn quit_without_stream_exits() {
    let mut a = controller();
    assert_eq!(a.handle(AudioHandlerEvent::Stop), Ok(AudioAction::Nothing));
    assert_eq!(a.handle(AudioHandlerEvent::Quit), Ok(AudioAction::Exit));
}

#[test]
fn capture_refresh_and_play_scenario() {
    let frame_queue_capacity: usize = 65536;
    let mut audio = controller();
    let q = SegQueue::new();
    let mut r: Resynthesizer<Feed, f64> = Resynthesizer::new();

    assert_eq!(audio.handle(AudioHandlerEvent::Start), Ok(AudioAction::Open(DeviceConfig { input: 0, output: 1 })));
    assert_eq!(command(&mut r, DictionaryHandlerEvent::InputBuffer(Some(Vec::new()))), ResynthAction::Continue);

    let mut stats = CaptureStats::new();
    let mut live: Vec<f64> = Vec::new();
    for i in 0..1000 {
        let block: Block = [(i % 7) as f32 * 0.1; BLOCK_SIZE];
        let handed_back: Option<Block> = if live.len() / BLOCK_SIZE < frame_queue_capacity { None } else { Some(block) };
        assert!(!stats.record(&handed_back));
        let drained: Vec<f64> = block.iter().map(|s| *s as f64).collect();
        r.capture(&drained);
        live.extend(drained);
    }
    assert_eq!(r.live(), &live);
    assert_eq!(stats.delivered, 1000);
    assert_eq!(stats.dropped, 0);
    assert_eq!(live.len(), 64_000);

    assert_eq!(command(&mut r, DictionaryHandlerEvent::SetThreshold(5)), ResynthAction::Continue);
    assert_eq!(command(&mut r, DictionaryHandlerEvent::SetDepth(4)), ResynthAction::Continue);
    assert_eq!(command(&mut r, DictionaryHandlerEvent::Refresh), ResynthAction::Partition { threshold: 5, depth: 4 });
    // the partitioner found splits; the target sequence rebuilt from them is
    // as long as the canonical rendition, not as the live buffer
    let canonical_len = 22_050;
    let synthesized: Vec<f64> = (0..canonical_len).map(|i| live[i % live.len()]).collect();
    assert_eq!(r.complete_refresh(Some(synthesized)), Ok(()));
    assert_eq!(play(&mut r, &q), ResynthAction::Played(canonical_len));
    let played = drain(&q);
    assert!(!played.is_empty());
    assert_eq!(played.len(), canonical_len);
    assert_ne!(played.len(), live.len());
}

#[test]
fn empty_partition_keeps_previous_synthesis() {
    let q = SegQueue::new();
    let mut r: Resynthesizer<Feed, f64> = Resynthesizer::new();
    assert_eq!(r.complete_refresh(Some(vec![0.1, 0.2, 0.3, 0.4])), Ok(()));
    assert_eq!(command(&mut r, DictionaryHandlerEvent::Refresh), ResynthAction::Partition { threshold: 5, depth: 4 });
    // silence: the partitioner found no split point
    assert_eq!(r.complete_refresh(None), Err(Error::EmptyPartition));
    assert_eq!(r.synthesized(), Some(&vec![0.1, 0.2, 0.3, 0.4]));
    assert_eq!(play(&mut r, &q), ResynthAction::Played(4));
    assert_eq!(drain(&q), vec![0.1, 0.2, 0.3, 0.4]);
}

#[test]
fn empty_partition_before_any_synthesis_plays_nothing() {
    let q = SegQueue::new();
    let mut r: Resynthesizer<Feed, f64> = Resynthesizer::new();
    assert_eq!(r.complete_refresh(None), Err(Error::EmptyPartition));
    assert!(r.synthesized().is_none());
    assert_eq!(play(&mut r, &q), ResynthAction::Played(0));
    assert!(drain(&q).is_empty());
}

#[test]
fn device_switch_waits_for_restart() {
    let mut a = controller();
    assert_eq!(a.handle(AudioHandlerEvent::Start), Ok(AudioAction::Open(DeviceConfig { input: 0, output: 1 })));
    assert_eq!(a.handle(AudioHandlerEvent::Setting(DeviceSetting::SetInDevice(2))), Ok(AudioAction::Nothing));
    assert_eq!(a.state(), StreamState::Active);
    assert_eq!(a.config(), DeviceConfig { input: 0, output: 1 });
    assert_eq!(a.handle(AudioHandlerEvent::Start), Ok(AudioAction::Nothing));
    assert_eq!(a.handle(AudioHandlerEvent::Stop), Ok(AudioAction::Pause));
    assert_eq!(a.config(), DeviceConfig { input: 2, output: 1 });
    assert_eq!(a.handle(AudioHandlerEvent::Start), Ok(AudioAction::Reopen(DeviceConfig { input: 2, output: 1 })));
    assert_eq!(a.state(), StreamState::Active);
}

#[test]
fn restart_without_change_resumes() {
    let mut a = controller();
    a.handle(AudioHandlerEvent::Start).unwrap();
    assert_eq!(a.handle(AudioHandlerEvent::Stop), Ok(AudioAction::Pause));
    assert_eq!(a.state(), StreamState::Stopped);
    assert_eq!(a.handle(AudioHandlerEvent::Stop), Ok(AudioAction::Nothing));
    assert_eq!(a.handle(AudioHandlerEvent::Start), Ok(AudioAction::Resume));
    assert_eq!(a.state(), StreamState::Active);
}

#[test]
fn device_chosen_then_restored_while_running_resumes() {
    let mut a = controller();
    a.handle(AudioHandlerEvent::Start).unwrap();
    a.handle(AudioHandlerEvent::Setting(DeviceSetting::SetInDevice(3))).unwrap();
    a.handle(AudioHandlerEvent::Setting(DeviceSetting::SetInDevice(0))).unwrap();
    assert_eq!(a.handle(AudioHandlerEvent::Stop), Ok(AudioAction::Pause));
    assert_eq!(a.handle(AudioHandlerEvent::Start), Ok(AudioAction::Resume));
}

#[test]
fn pause_revokes_feed_and_resume_restores_it() {
    let mut r: Resynthesizer<Feed, f64> = Resynthesizer::new();
    let feed_a: Feed = vec![[1.0; BLOCK_SIZE]];
    assert_eq!(command(&mut r, DictionaryHandlerEvent::InputBuffer(Some(feed_a.clone()))), ResynthAction::Continue);
    assert_eq!(r.feed(), Some(&feed_a));
    assert_eq!(command(&mut r, DictionaryHandlerEvent::InputBuffer(None)), ResynthAction::Continue);
    assert!(r.feed().is_none());
    assert_eq!(command(&mut r, DictionaryHandlerEvent::RestoreInput), ResynthAction::Continue);
    assert_eq!(r.feed(), Some(&feed_a));
}

#[test]
fn new_feed_replaces_the_revoked_one() {
    let mut r: Resynthesizer<Feed, f64> = Resynthesizer::new();
    let feed_a: Feed = vec![[1.0; BLOCK_SIZE]];
    let feed_b: Feed = vec![[2.0; BLOCK_SIZE], [3.0; BLOCK_SIZE]];
    command(&mut r, DictionaryHandlerEvent::InputBuffer(Some(feed_a)));
    command(&mut r, DictionaryHandlerEvent::InputBuffer(None));
    command(&mut r, DictionaryHandlerEvent::InputBuffer(Some(feed_b.clone())));
    assert_eq!(command(&mut r, DictionaryHandlerEvent::RestoreInput), ResynthAction::Continue);
    assert_eq!(r.feed(), Some(&feed_b));
}

#[test]
fn drained_audio_comes_before_the_command() {
    let mut r: Resynthesizer<Feed, f64> = Resynthesizer::new();
    r.capture(&vec![0.1, 0.2]);
    let mut out = Vec::new();
    let action = r.step(&vec![0.3], DictionaryHandlerEvent::Refresh, &mut out);
    assert_eq!(action, ResynthAction::Partition { threshold: 5, depth: 4 });
    assert_eq!(r.live(), &vec![0.1, 0.2, 0.3]);
    assert!(out.is_empty());
    assert_eq!(r.step(&vec![], DictionaryHandlerEvent::Quit, &mut out), ResynthAction::Exit);
    r.capture(&vec![0.9]);
    assert_eq!(r.live(), &vec![0.1, 0.2, 0.3]);
}

#[test]
fn stop_without_stream_does_nothing() {
    let mut a = controller();
    assert_eq!(a.handle(AudioHandlerEvent::Stop), Ok(AudioAction::Nothing));
    assert_eq!(a.state(), StreamState::Idle);
}

#[test]
fn device_positions() {
    let a = AudioController::new(vec![4, 7, 9], 7, 9);
    assert_eq!(a.device_position(7), Some(1));
    assert_eq!(a.device_position(9), Some(2));
    assert_eq!(a.device_position(5), None);
}

#[test]
fn play_hands_over_samples_in_order() {
    let mut r: Resynthesizer<Feed, f64> = Resynthesizer::new();
    let mut out = vec![7.0];
    assert_eq!(r.handle(DictionaryHandlerEvent::Play, &mut out), ResynthAction::Played(0));
    assert_eq!(out, vec![7.0]);
    assert_eq!(r.complete_refresh(Some(vec![0.5, -0.25])), Ok(()));
    assert_eq!(r.handle(DictionaryHandlerEvent::Play, &mut out), ResynthAction::Played(2));
    assert_eq!(out, vec![7.0, 0.5, -0.25]);
}

#[test]
fn parameter_changes_keep_the_synthesis() {
    let q = SegQueue::new();
    let mut r: Resynthesizer<Feed, f64> = Resynthesizer::new();
    assert_eq!(command(&mut r, DictionaryHandlerEvent::Refresh), ResynthAction::Partition { threshold: 5, depth: 4 });
    assert_eq!(r.complete_refresh(Some(vec![0.3, 0.6])), Ok(()));
    assert_eq!(command(&mut r, DictionaryHandlerEvent::SetThreshold(2)), ResynthAction::Continue);
    assert_eq!(command(&mut r, DictionaryHandlerEvent::SetDepth(8)), ResynthAction::Continue);
    assert_eq!(play(&mut r, &q), ResynthAction::Played(2));
    assert_eq!(drain(&q), vec![0.3, 0.6]);
}

#[test]
fn setting_while_stopped_applies_at_once() {
    let mut a = controller();
    a.handle(AudioHandlerEvent::Start).unwrap();
    a.handle(AudioHandlerEvent::Stop).unwrap();
    assert_eq!(a.handle(AudioHandlerEvent::Setting(DeviceSetting::SetOutDevice(3))), Ok(AudioAction::Nothing));
    assert_eq!(a.config(), DeviceConfig { input: 0, output: 3 });
    assert_eq!(a.handle(AudioHandlerEvent::Start), Ok(AudioAction::Reopen(DeviceConfig { input: 0, output: 3 })));
}

#[test]
fn setting_while_idle_applies_to_first_open() {
    let mut a = controller();
    assert_eq!(a.handle(AudioHandlerEvent::Setting(DeviceSetting::SetInDevice(3))), Ok(AudioAction::Nothing));
    assert_eq!(a.handle(AudioHandlerEvent::Start), Ok(AudioAction::Open(DeviceConfig { input: 3, output: 1 })));
}

#[test]
fn unknown_device_is_rejected() {
    let mut a = controller();
    assert_eq!(a.handle(AudioHandlerEvent::Setting(DeviceSetting::SetInDevice(7))), Err(Error::Device(7)));
    assert_eq!(a.handle(AudioHandlerEvent::Setting(DeviceSetting::SetOutDevice(4))), Err(Error::Device(4)));
    assert_eq!(a.config(), DeviceConfig { input: 0, output: 1 });
    assert!(a.knows_device(3));
    assert!(!a.knows_device(4));
}

#[test]
fn stream_failure_terminates() {
    let mut a = controller();
    a.handle(AudioHandlerEvent::Start).unwrap();
    a.stream_failed();
    assert_eq!(a.state(), StreamState::Terminated);
    assert_eq!(a.handle(AudioHandlerEvent::Start), Ok(AudioAction::Nothing));
}

#[test]
fn error_descriptions() {
    assert_eq!(Error::Device(3).description(), "invalid or unavailable device");
    assert_eq!(Error::EmptyPartition.description(), "no possible partitions found");
}

#[test]
fn coordinator_maps_intents_to_commands() {
    let c = Coordinator::new();
    assert!(matches!(c.request_refresh::<Feed>(), DictionaryHandlerEvent::Refresh));
    assert!(matches!(c.request_play::<Feed>(), DictionaryHandlerEvent::Play));
    assert!(matches!(c.set_threshold::<Feed>(8), DictionaryHandlerEvent::SetThreshold(8)));
    assert!(matches!(c.set_depth::<Feed>(3), DictionaryHandlerEvent::SetDepth(3)));
    assert_eq!(c.start_capture(), AudioHandlerEvent::Start);
    assert_eq!(c.stop_capture(), AudioHandlerEvent::Stop);
    let (audio, dict) = c.quit_all::<Feed>();
    assert_eq!(audio, AudioHandlerEvent::Quit);
    assert!(matches!(dict, DictionaryHandlerEvent::Quit));
}

#[test]
fn coordinator_tracks_status() {
    let mut c = Coordinator::new();
    assert!(c.devices().is_none());
    assert_eq!(c.select_input_device(0), None);
    c.apply_status(GuiHandlerEvent::InDevice(1));
    c.apply_status(GuiHandlerEvent::OutDevice(2));
    c.apply_status(GuiHandlerEvent::Devices(vec![(10, "mic".to_string()), (11, "line".to_string()), (12, "out".to_string())]));
    assert_eq!(c.in_device(), Some(1));
    assert_eq!(c.out_device(), Some(2));
    assert_eq!(c.devices().map(|d| d.len()), Some(3));
    assert_eq!(c.device_id(1), Some(11));
    assert_eq!(c.select_input_device(0), Some(AudioHandlerEvent::Setting(DeviceSetting::SetInDevice(10))));
    assert_eq!(c.in_device(), Some(0));
    assert_eq!(c.select_output_device(2), Some(AudioHandlerEvent::Setting(DeviceSetting::SetOutDevice(12))));
    assert_eq!(c.out_device(), Some(2));
    assert_eq!(c.select_output_device(3), None);
    assert_eq!(c.out_device(), Some(2));
    assert!(!c.stream_failed());
    c.apply_status(GuiHandlerEvent::StreamFailed);
    assert!(c.stream_failed());
}

#[test]
fn threshold_text_is_parsed_on_submit() {
    let mut c = Coordinator::new();
    c.edit_threshold_text("12".to_string());
    assert_eq!(c.threshold_text(), "12");
    assert!(matches!(c.submit_threshold::<Feed>(), Some(DictionaryHandlerEvent::SetThreshold(12))));
    c.edit_threshold_text("+7".to_string());
    assert!(matches!(c.submit_threshold::<Feed>(), Some(DictionaryHandlerEvent::SetThreshold(7))));
    for bad in ["", "+", "-1", "1a", " 3", "3 ", "1_000", "99999999999999999999999"] {
        c.edit_threshold_text(bad.to_string());
        assert!(c.submit_threshold::<Feed>().is_none(), "{:?} was accepted", bad);
    }
}

#[test]
fn depth_text_is_parsed_on_submit() {
    let mut c = Coordinator::new();
    assert!(c.submit_depth::<Feed>().is_none());
    c.edit_depth_text("0004".to_string());
    assert_eq!(c.depth_text(), "0004");
    assert!(matches!(c.submit_depth::<Feed>(), Some(DictionaryHandlerEvent::SetDepth(4))));
    c.edit_depth_text("four".to_string());
    assert!(c.submit_depth::<Feed>().is_none());
}

#[test]
fn enqueue_all_keeps_order() {
    let q = SegQueue::new();
    assert_eq!(reconstruction::enqueue_all(&q, &vec![3.0, 1.0, 2.0]), 3);
    assert_eq!(drain(&q), vec![3.0, 1.0, 2.0]);
    assert_eq!(reconstruction::enqueue_all(&q, &Vec::new()), 0);
    assert!(drain(&q).is_empty());
}
