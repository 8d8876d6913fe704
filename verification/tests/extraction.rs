use bitrate_chart::extract::{extract_series, Extractor, PacketOutcome, PacketRecord};

fn frame(stream_index: usize, packet_size: u64, width: u32, height: u32) -> PacketRecord {
    PacketRecord { stream_index, outcome: PacketOutcome::Frame { packet_size, width, height } }
}

#[test]
fn three_frames_are_recorded_in_order() {
    // The logic-level counterpart of decoding a 3-frame test clip at 320x180:
    // one completed frame per packet, sizes as the demuxer reports them.
    let recs = vec![frame(0, 5068, 320, 180), frame(0, 206, 320, 180), frame(0, 174, 320, 180)];
    let series = extract_series(0, &recs);
    assert!(series.width == 320 && series.height == 180);
    assert_eq!(series.values, vec![5068, 206, 174]);
}

#[test]
fn other_streams_are_skipped() {
    // Audio or subtitle packets interleaved with the video packets contribute
    // nothing, whatever their outcome would have been.
    let recs = vec![
        frame(1, 999, 640, 480),
        frame(0, 100, 320, 180),
        PacketRecord { stream_index: 2, outcome: PacketOutcome::Failed },
        frame(0, 200, 320, 180),
    ];
    let series = extract_series(0, &recs);
    assert_eq!(series.values, vec![100, 200]);
    assert!(series.width == 320 && series.height == 180);
}

#[test]
fn pending_packets_record_no_sample() {
    let recs = vec![
        PacketRecord { stream_index: 0, outcome: PacketOutcome::Pending },
        frame(0, 150, 320, 180),
        PacketRecord { stream_index: 0, outcome: PacketOutcome::Pending },
    ];
    let series = extract_series(0, &recs);
    assert_eq!(series.values, vec![150]);
}

#[test]
fn corrupt_packet_mid_stream_does_not_abort() {
    // One corrupt packet among four video packets: the series has fewer than
    // four samples, but extraction completes and the later packets are still
    // recorded.
    let recs = vec![
        frame(0, 100, 320, 180),
        frame(0, 200, 320, 180),
        PacketRecord { stream_index: 0, outcome: PacketOutcome::Failed },
        frame(0, 300, 320, 180),
    ];
    let series = extract_series(0, &recs);
    assert_eq!(series.values, vec![100, 200, 300]);
    assert!(series.values.len() < 4);
    assert!(series.width == 320 && series.height == 180);
}

#[test]
fn empty_stream_yields_empty_series_and_zero_dimensions() {
    let recs: Vec<PacketRecord> = Vec::new();
    let series = extract_series(0, &recs);
    assert!(series.values.is_empty());
    assert!(series.width == 0 && series.height == 0);
}

#[test]
fn only_failures_yield_empty_series_and_zero_dimensions() {
    let recs = vec![
        PacketRecord { stream_index: 0, outcome: PacketOutcome::Failed },
        PacketRecord { stream_index: 0, outcome: PacketOutcome::Failed },
    ];
    let series = extract_series(0, &recs);
    assert!(series.values.is_empty());
    assert!(series.width == 0 && series.height == 0);
}

#[test]
fn incremental_extraction_matches_the_folded_form() {
    // The step-by-step interface the decode driver uses: ask which packets to
    // decode, then report each outcome.
    let mut ex = Extractor::new(3);
    assert!(ex.selects(3));
    assert!(!ex.selects(0));
    ex.observe(PacketOutcome::Pending);
    ex.observe(PacketOutcome::Frame { packet_size: 42, width: 320, height: 180 });
    ex.observe(PacketOutcome::Failed);
    ex.observe(PacketOutcome::Frame { packet_size: 7, width: 320, height: 180 });
    let series = ex.finish();
    assert_eq!(series.values, vec![42, 7]);
    assert!(series.width == 320 && series.height == 180);
}

#[test]
fn dimensions_come_from_the_first_decoded_frame() {
    // A later frame with different dimensions does not overwrite the capture.
    let recs = vec![frame(0, 100, 320, 180), frame(0, 200, 1920, 1080)];
    let series = extract_series(0, &recs);
    assert!(series.width == 320 && series.height == 180);
    assert_eq!(series.values, vec![100, 200]);
}
