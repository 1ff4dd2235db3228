use ppm_decode::{
    pulse_width, ParserConfig, PpmParser, PpmTime, MAX_CHAN_VAL, MAX_PPM_CHANNELS, MID_CHAN_VAL,
    MIN_CHAN_VAL, MIN_PPM_CHANNELS, MIN_SYNC_WIDTH,
};

#[test]
fn process_pulses() {
    const TEST_CHAN_COUNT: u8 = 16;
    const TEST_RESYNC_WIDTH: PpmTime = 2500;
    let mut parser = PpmParser::new();
    parser
        .set_channel_limits(800, 2200)
        .set_sync_width(TEST_RESYNC_WIDTH - 10);

    let mut cur_time: PpmTime = 100;
    //start with a garbage pulse from prior frame
    parser.handle_pulse_start(cur_time);
    let frame = parser.next_frame();
    assert!(frame.is_none(), "there should be no frame yet");

    //send a full frame
    //this effectively starts a new frame:
    cur_time += TEST_RESYNC_WIDTH;
    for _ in 0..TEST_CHAN_COUNT + 1 {
        parser.handle_pulse_start(cur_time);
        let frame = parser.next_frame();
        assert!(frame.is_none(), "frame should be incomplete");
        cur_time += MID_CHAN_VAL;
    }

    //send the next sync
    cur_time += TEST_RESYNC_WIDTH;
    parser.handle_pulse_start(cur_time);
    //should now have a complete frame available
    let frame_opt = parser.next_frame();
    assert!(frame_opt.is_some(), "frame should be complete");

    if let Some(frame) = frame_opt {
        let valid_chans = frame.chan_count;
        assert_eq!(valid_chans, TEST_CHAN_COUNT, "wrong number of channels");
        for i in 0..valid_chans as usize {
            let val = frame.chan_values[i];
            assert_eq!(val, MID_CHAN_VAL)
        }
    }
}

#[test]
fn overflow_timer() {
    const TEST_CHAN_COUNT: u8 = 3;
    let mut parser = PpmParser::new();
    parser.set_minimum_channels(TEST_CHAN_COUNT);

    // for this test all the channel pulses are separated by the same gap (same channel value)
    const PULSE_GAP_TIME: PpmTime = MID_CHAN_VAL;

    // Send a pulse train that looks like this:
    // |______|___|___|___|______
    // where the third pulse arrives after PpmTime overflow
    // This calculated start time is for the first pulse:
    let mut cur_time: PpmTime = PpmTime::max_value() - PULSE_GAP_TIME - MIN_SYNC_WIDTH + 10;
    //start with a garbage pulse from prior frame
    parser.handle_pulse_start(cur_time);
    let frame = parser.next_frame();
    assert!(frame.is_none(), "there should be no complete frame yet");

    //this effectively starts a new frame:
    cur_time += MIN_SYNC_WIDTH;
    for _ in 0..TEST_CHAN_COUNT + 1 {
        parser.handle_pulse_start(cur_time);
        let frame = parser.next_frame();
        assert!(frame.is_none(), "frame should be incomplete");
        // this should overflow at the third pulse:
        cur_time = cur_time.wrapping_add(MID_CHAN_VAL);
    }

    //send the next sync
    cur_time += MIN_SYNC_WIDTH;
    parser.handle_pulse_start(cur_time);
    //should now have a complete frame available
    let frame_opt = parser.next_frame();
    assert!(frame_opt.is_some(), "frame should be complete");

    if let Some(frame) = frame_opt {
        let valid_chans = frame.chan_count;
        assert_eq!(valid_chans, TEST_CHAN_COUNT, "wrong number of channels");
        for i in 0..valid_chans as usize {
            let val = frame.chan_values[i];
            assert_eq!(val, MID_CHAN_VAL)
        }
    }
}

/// Sends edges separated by each of `gaps`, starting after `start`; returns
/// the time of the last edge.
fn send_gaps(parser: &mut PpmParser, start: PpmTime, gaps: &[PpmTime]) -> PpmTime {
    let mut t = start;
    for g in gaps {
        t = t.wrapping_add(*g);
        parser.handle_pulse_start(t);
    }
    t
}

fn channels_of(parser: &mut PpmParser) -> Option<Vec<PpmTime>> {
    parser
        .next_frame()
        .map(|f| f.chan_values[..f.chan_count as usize].to_vec())
}

#[test]
fn default_config_values() {
    let c = ParserConfig::default();
    assert_eq!(c.min_chan_value, MIN_CHAN_VAL);
    assert_eq!(c.max_chan_value, MAX_CHAN_VAL);
    assert_eq!(c.min_sync_width, MIN_SYNC_WIDTH);
    assert_eq!(c.min_channels, MIN_PPM_CHANNELS);
    assert_eq!(c.max_ppm_time, 0xFFFF_FFFF);
    assert_eq!(MID_CHAN_VAL, 1500);
}

#[test]
fn scanning_ignores_gaps_until_first_sync() {
    let mut parser = PpmParser::new();
    // short gaps while scanning, including valid-looking channel values
    let t = send_gaps(&mut parser, 0, &[100, 1500, 1500, 1500, 1500, 1500, 1500, 3999]);
    assert!(parser.next_frame().is_none());
    // first sync: the frame starts empty
    let t = send_gaps(&mut parser, t, &[4000]);
    let t = send_gaps(&mut parser, t, &[1000, 1100, 1200, 1300, 1400]);
    send_gaps(&mut parser, t, &[5000]);
    assert_eq!(channels_of(&mut parser), Some(vec![1000, 1100, 1200, 1300, 1400]));
}

#[test]
fn channel_values_kept_in_order() {
    let mut parser = PpmParser::new();
    let t = send_gaps(&mut parser, 0, &[10, 4500]);
    let gaps = [800, 2200, 1234, 2000, 999, 1500];
    let t = send_gaps(&mut parser, t, &gaps);
    assert!(parser.next_frame().is_none());
    send_gaps(&mut parser, t, &[4000]);
    assert_eq!(channels_of(&mut parser), Some(gaps.to_vec()));
}

#[test]
fn short_frame_rejected() {
    let mut parser = PpmParser::new();
    let t = send_gaps(&mut parser, 0, &[10, 4500]);
    let t = send_gaps(&mut parser, t, &[1500, 1500, 1500, 1500]);
    send_gaps(&mut parser, t, &[4500]);
    assert_eq!(channels_of(&mut parser), None);
}

#[test]
fn short_frame_drops_untaken_frame() {
    let mut parser = PpmParser::new();
    let t = send_gaps(&mut parser, 0, &[10, 4500]);
    let t = send_gaps(&mut parser, t, &[1500; 5]);
    let t = send_gaps(&mut parser, t, &[4500]);
    // a complete frame is pending; a short one follows before it is taken
    let t = send_gaps(&mut parser, t, &[1500; 2]);
    send_gaps(&mut parser, t, &[4500]);
    assert_eq!(channels_of(&mut parser), None);
}

#[test]
fn newer_frame_replaces_untaken_one() {
    let mut parser = PpmParser::new();
    let t = send_gaps(&mut parser, 0, &[10, 4500]);
    let t = send_gaps(&mut parser, t, &[1000; 5]);
    let t = send_gaps(&mut parser, t, &[4500]);
    let t = send_gaps(&mut parser, t, &[2000; 6]);
    send_gaps(&mut parser, t, &[4500]);
    assert_eq!(channels_of(&mut parser), Some(vec![2000; 6]));
    assert_eq!(channels_of(&mut parser), None);
}

#[test]
fn corrupt_gap_forces_resync() {
    for bad in [799, 2201, 3999] {
        let mut parser = PpmParser::new();
        let t = send_gaps(&mut parser, 0, &[10, 4500]);
        let t = send_gaps(&mut parser, t, &[1500, 1500, 1500]);
        let t = send_gaps(&mut parser, t, &[bad]);
        // back to scanning: these gaps are discarded, the sync only resyncs
        let t = send_gaps(&mut parser, t, &[1500, 1500, 1500]);
        let t = send_gaps(&mut parser, t, &[4500]);
        assert_eq!(channels_of(&mut parser), None, "gap {}", bad);
        let t = send_gaps(&mut parser, t, &[1600; 5]);
        send_gaps(&mut parser, t, &[4500]);
        assert_eq!(channels_of(&mut parser), Some(vec![1600; 5]), "gap {}", bad);
    }
}

#[test]
fn wrapping_gap_width() {
    let m: u64 = 1 << 32;
    let last = (m - 5) as PpmTime;
    assert_eq!(pulse_width(last, 10, 0xFFFF_FFFF), 15);
    assert_eq!(pulse_width(1000, 1015, 0xFFFF_FFFF), 15);
    // a 16-bit timer
    assert_eq!(pulse_width(0xFFFF - 4, 10, 0xFFFF), 15);
    assert_eq!(pulse_width(7, 7, 0xFFFF), 0);
    assert_eq!(pulse_width(7, 3000, 0xFFFF), 2993);
}

#[test]
fn sixteen_bit_timer_wraps() {
    let mut parser = PpmParser::new();
    parser.set_max_ppm_time(0xFFFF).set_minimum_channels(3);
    let mut t: PpmTime = 0xFFFF - 6000;
    parser.handle_pulse_start(t);
    t += 5000;
    parser.handle_pulse_start(t);
    for _ in 0..3 {
        t = (t + 1500) & 0xFFFF;
        parser.handle_pulse_start(t);
    }
    t = (t + 5000) & 0xFFFF;
    parser.handle_pulse_start(t);
    assert_eq!(channels_of(&mut parser), Some(vec![1500, 1500, 1500]));
}

#[test]
fn end_to_end_sixteen_channels() {
    let mut parser = PpmParser::new();
    parser.set_channel_limits(800, 2200).set_sync_width(2490);
    let mut t: PpmTime = 100;
    parser.handle_pulse_start(t);
    t += 2500;
    parser.handle_pulse_start(t);
    for _ in 0..16 {
        t += 1500;
        parser.handle_pulse_start(t);
        assert!(parser.next_frame().is_none());
    }
    t += 2500;
    parser.handle_pulse_start(t);
    let frame = parser.next_frame().expect("frame should be complete");
    assert_eq!(frame.chan_count, 16);
    assert!(frame.chan_values[..16].iter().all(|v| *v == 1500));
    assert!(parser.next_frame().is_none());
}

#[test]
fn pull_twice_returns_frame_once() {
    let mut parser = PpmParser::new();
    let t = send_gaps(&mut parser, 0, &[10, 4500]);
    let t = send_gaps(&mut parser, t, &[1700; 5]);
    send_gaps(&mut parser, t, &[4500]);
    assert_eq!(channels_of(&mut parser), Some(vec![1700; 5]));
    assert_eq!(channels_of(&mut parser), None);
}

#[test]
fn excess_channels_ignored() {
    let mut parser = PpmParser::new();
    let t = send_gaps(&mut parser, 0, &[10, 4500]);
    let mut gaps: Vec<PpmTime> = Vec::new();
    for i in 0..25u32 {
        gaps.push(1000 + 10 * i);
    }
    let t = send_gaps(&mut parser, t, &gaps);
    send_gaps(&mut parser, t, &[4500]);
    let got = channels_of(&mut parser).expect("frame should be complete");
    assert_eq!(got.len(), MAX_PPM_CHANNELS);
    assert_eq!(got, gaps[..MAX_PPM_CHANNELS].to_vec());
}

#[test]
fn zero_minimum_publishes_empty_frame() {
    let mut parser = PpmParser::new();
    parser.set_minimum_channels(0);
    send_gaps(&mut parser, 0, &[10, 4500, 4500]);
    assert_eq!(channels_of(&mut parser), Some(vec![]));
}

#[test]
fn configured_sync_width_closes_frame() {
    let mut parser = PpmParser::new();
    parser.set_sync_width(3000);
    let t = send_gaps(&mut parser, 0, &[10, 3000]);
    let t = send_gaps(&mut parser, t, &[1500; 5]);
    send_gaps(&mut parser, t, &[3000]);
    assert_eq!(channels_of(&mut parser), Some(vec![1500; 5]));
}
