use encoding_session::{
    clamp_region, ensure_even, ensure_even_size, Command, Compositor, CopyRegion, EncodedSample,
    FrameInfo, Generated, GeneratorState, SampleGenerator, SampleWriter, SessionError, SessionState, Size,
    VideoEncodingSession, WriterError, WriterState,
};

fn frame(width: i32, height: i32, buffer_width: u32, buffer_height: u32, timestamp: i64) -> FrameInfo {
    FrameInfo {
        content_size: Size { width, height },
        buffer_width,
        buffer_height,
        timestamp,
    }
}

fn region(right: u32, bottom: u32) -> CopyRegion {
    CopyRegion { left: 0, top: 0, front: 0, right, bottom, back: 1 }
}

fn stamp(g: Generated) -> i64 {
    match g {
        Generated::Sample(plan) => plan.timestamp,
        other => panic!("expected a sample, got {:?}", other),
    }
}

fn apply(commands: &[Command], writer: &mut SampleWriter, finalized: &mut u32) {
    for c in commands {
        match c {
            Command::ArmWriter => writer.start().unwrap(),
            Command::FinalizeWriter => {
                writer.stop().unwrap();
                *finalized += 1;
            }
            _ => {}
        }
    }
}

#[test]
fn ensure_even_rounds_odd_up() {
    assert_eq!(ensure_even(0), 0);
    assert_eq!(ensure_even(1), 2);
    assert_eq!(ensure_even(1080), 1080);
    assert_eq!(ensure_even(-3), -2);
    assert_eq!(ensure_even(i32::MAX - 1), i32::MAX - 1);
}

#[test]
fn even_align_is_even_and_keeps_even_sizes() {
    for (w, h) in [(1920, 1080), (101, 51), (0, 1), (7, 8), (-5, -4)] {
        let a = ensure_even_size(Size { width: w, height: h });
        assert_eq!(a.width % 2, 0);
        assert_eq!(a.height % 2, 0);
        assert_eq!(ensure_even_size(a), a);
    }
    let even = Size { width: 1920, height: 1080 };
    assert_eq!(ensure_even_size(even), even);
}

#[test]
fn odd_resolution_is_aligned_before_allocation() {
    let aligned = ensure_even_size(Size { width: 101, height: 51 });
    assert_eq!(aligned, Size { width: 102, height: 52 });
    let s = VideoEncodingSession::new(
        Size { width: 101, height: 51 },
        Size { width: 101, height: 51 },
        8_000_000,
        60,
    )
    .unwrap();
    assert_eq!(s.input_size(), Size { width: 102, height: 52 });
    assert_eq!(s.output_size(), Size { width: 102, height: 52 });
    let g = s.sample_generator();
    assert_eq!(g.input_size(), Size { width: 102, height: 52 });
    assert_eq!(g.output_size(), Size { width: 102, height: 52 });
}

#[test]
fn session_keeps_settings() {
    let s = VideoEncodingSession::new(
        Size { width: 1920, height: 1080 },
        Size { width: 1280, height: 720 },
        9_000_000,
        30,
    )
    .unwrap();
    assert_eq!(s.state(), SessionState::Idle);
    assert_eq!(s.input_size(), Size { width: 1920, height: 1080 });
    assert_eq!(s.output_size(), Size { width: 1280, height: 720 });
    assert_eq!(s.bit_rate(), 9_000_000);
    assert_eq!(s.frame_rate(), 30);
}

#[test]
fn unalignable_size_is_config_error() {
    let r = VideoEncodingSession::new(
        Size { width: i32::MAX, height: 2 },
        Size { width: 2, height: 2 },
        1,
        1,
    );
    assert_eq!(r.err(), Some(SessionError::ConfigError));
    let r = VideoEncodingSession::new(
        Size { width: 2, height: 2 },
        Size { width: 2, height: i32::MAX },
        1,
        1,
    );
    assert_eq!(r.err(), Some(SessionError::ConfigError));
}

#[test]
fn clamp_cuts_oversized_content_to_buffer() {
    assert_eq!(clamp_region(Size { width: 2000, height: 2000 }, 1920, 1080), region(1920, 1080));
    assert_eq!(clamp_region(Size { width: 800, height: 600 }, 1920, 1080), region(800, 600));
    assert_eq!(clamp_region(Size { width: -4, height: 600 }, 1920, 1080), region(0, 600));
    assert_eq!(clamp_region(Size { width: 0, height: 0 }, 0, 0), region(0, 0));
}

#[test]
fn clamp_never_leaves_buffer() {
    for (w, h) in [(2000, 2000), (1921, 1079), (i32::MAX, i32::MIN), (5, 5)] {
        let r = clamp_region(Size { width: w, height: h }, 1920, 1080);
        assert!(r.right <= 1920 && r.bottom <= 1080);
        assert_eq!((r.left, r.top, r.front, r.back), (0, 0, 0, 1));
    }
}

#[test]
fn compositor_clamps_to_surface_and_buffer() {
    let c = Compositor::new(Size { width: 1920, height: 1080 });
    assert_eq!(c.surface(), Size { width: 1920, height: 1080 });
    assert_eq!(c.region_for(Size { width: 2000, height: 2000 }, 2000, 2000), region(1920, 1080));
    assert_eq!(c.region_for(Size { width: 2000, height: 2000 }, 1600, 900), region(1600, 900));
    assert_eq!(c.region_for(Size { width: 640, height: 480 }, 1920, 1080), region(640, 480));
}

#[test]
fn oversized_frame_is_clamped_to_surface_without_error() {
    let mut g = SampleGenerator::new(Size { width: 1920, height: 1080 }, Size { width: 1920, height: 1080 });
    match g.generate(Some(frame(2000, 2000, 1920, 1080, 7))) {
        Generated::Sample(plan) => {
            assert_eq!(plan.region, region(1920, 1080));
            assert_eq!(plan.timestamp, 0);
        }
        other => panic!("expected a sample, got {:?}", other),
    }
    assert!(g.may_pull());
}

#[test]
fn stamps_relative_to_first_frame() {
    let mut s = VideoEncodingSession::new(
        Size { width: 1920, height: 1080 },
        Size { width: 1920, height: 1080 },
        8_000_000,
        60,
    )
    .unwrap();
    let mut writer = SampleWriter::new();
    let mut finalized = 0;
    let cmds = s.start().unwrap();
    assert_eq!(cmds, vec![Command::ArmWriter, Command::StartCapture, Command::StartEncoder]);
    apply(&cmds, &mut writer, &mut finalized);
    let mut g = s.sample_generator();
    let stamps: Vec<i64> = [1000, 1500, 2200]
        .iter()
        .map(|&t| stamp(g.generate(Some(frame(1920, 1080, 1920, 1080, t)))))
        .collect();
    assert_eq!(stamps, vec![0, 500, 1200]);
}

#[test]
fn stamps_start_at_zero_and_never_decrease() {
    let mut g = SampleGenerator::new(Size { width: 64, height: 64 }, Size { width: 64, height: 64 });
    let source = [-50, -50, 0, 3, 3, 1_000_000];
    let mut last = 0;
    for (i, &t) in source.iter().enumerate() {
        let s = stamp(g.generate(Some(frame(64, 64, 64, 64, t))));
        if i == 0 {
            assert_eq!(s, 0);
        }
        assert!(s >= 0);
        assert!(s >= last);
        assert_eq!(s, t - source[0]);
        last = s;
    }
}

#[test]
fn zero_source_timestamp_is_a_valid_baseline() {
    let mut g = SampleGenerator::new(Size { width: 2, height: 2 }, Size { width: 2, height: 2 });
    assert_eq!(stamp(g.generate(Some(frame(2, 2, 2, 2, 0)))), 0);
    assert_eq!(stamp(g.generate(Some(frame(2, 2, 2, 2, 40)))), 40);
}

#[test]
fn unrepresentable_stamp_ends_stream() {
    let mut g = SampleGenerator::new(Size { width: 2, height: 2 }, Size { width: 2, height: 2 });
    assert_eq!(stamp(g.generate(Some(frame(2, 2, 2, 2, i64::MIN)))), 0);
    assert_eq!(g.generate(Some(frame(2, 2, 2, 2, i64::MAX))), Generated::EndOfStream);
    assert!(!g.may_pull());
    assert_eq!(g.generate(None), Generated::Finished);
}

#[test]
fn exhaustion_ends_stream_once() {
    let mut g = SampleGenerator::new(Size { width: 8, height: 8 }, Size { width: 8, height: 8 });
    assert!(g.may_pull());
    assert_eq!(g.generate(None), Generated::EndOfStream);
    assert!(!g.may_pull());
    assert_eq!(g.generate(None), Generated::Finished);
    assert_eq!(g.generate(Some(frame(8, 8, 8, 8, 5))), Generated::Finished);
    assert!(!g.may_pull());
}

#[test]
fn render_failure_ends_stream_once() {
    let mut g = SampleGenerator::new(Size { width: 8, height: 8 }, Size { width: 8, height: 8 });
    assert_eq!(stamp(g.generate(Some(frame(8, 8, 8, 8, 5)))), 0);
    assert_eq!(g.fail(), Generated::EndOfStream);
    assert!(!g.may_pull());
    assert_eq!(g.fail(), Generated::Finished);
    assert_eq!(g.generate(None), Generated::Finished);
}

#[test]
fn two_frames_then_exhaustion_finalizes_once() {
    let mut s = VideoEncodingSession::new(
        Size { width: 640, height: 480 },
        Size { width: 640, height: 480 },
        1_000_000,
        30,
    )
    .unwrap();
    let mut writer = SampleWriter::new();
    let mut finalized = 0;
    let cmds = s.start().unwrap();
    apply(&cmds, &mut writer, &mut finalized);
    assert_eq!(s.state(), SessionState::Running);
    let mut g = s.sample_generator();
    let mut samples = 0;
    let source = [Some(100), Some(133), None];
    for t in source {
        if !g.may_pull() {
            break;
        }
        match g.generate(t.map(|t| frame(640, 480, 640, 480, t))) {
            Generated::Sample(plan) => {
                samples += 1;
                writer.write(&EncodedSample { timestamp: plan.timestamp, duration: 33 }).unwrap();
            }
            Generated::EndOfStream => {}
            Generated::Finished => panic!("finished twice"),
        }
    }
    assert_eq!(samples, 2);
    assert_eq!(g.generate(None), Generated::Finished);
    let first = s.stop();
    assert_eq!(first, vec![Command::StopEncoder, Command::FinalizeWriter]);
    apply(&first, &mut writer, &mut finalized);
    let second = s.stop();
    assert!(second.is_empty());
    apply(&second, &mut writer, &mut finalized);
    assert_eq!(finalized, 1);
    assert_eq!(s.state(), SessionState::Stopped);
    assert_eq!(writer.state(), WriterState::Finalized);
}

#[test]
fn start_only_from_idle() {
    let mut s = VideoEncodingSession::new(Size { width: 2, height: 2 }, Size { width: 2, height: 2 }, 1, 1).unwrap();
    assert!(s.start().is_ok());
    assert_eq!(s.start(), Err(SessionError::InvalidState));
    assert_eq!(s.state(), SessionState::Running);
    s.stop();
    assert_eq!(s.start(), Err(SessionError::InvalidState));
    assert_eq!(s.state(), SessionState::Stopped);
}

#[test]
fn failed_start_can_still_stop() {
    let mut s = VideoEncodingSession::new(Size { width: 2, height: 2 }, Size { width: 2, height: 2 }, 1, 1).unwrap();
    s.start().unwrap();
    assert!(s.report_start_step(true));
    assert!(!s.report_start_step(false));
    assert_eq!(s.state(), SessionState::Failed);
    assert!(!s.report_start_step(true));
    assert_eq!(s.state(), SessionState::Failed);
    assert_eq!(s.stop(), vec![Command::StopEncoder, Command::FinalizeWriter]);
    assert_eq!(s.state(), SessionState::Stopped);
}

#[test]
fn start_failure_outside_running_changes_nothing() {
    let mut s = VideoEncodingSession::new(Size { width: 2, height: 2 }, Size { width: 2, height: 2 }, 1, 1).unwrap();
    assert!(!s.report_start_step(false));
    assert!(!s.report_start_step(true));
    assert_eq!(s.state(), SessionState::Idle);
}

#[test]
fn stop_from_idle_tears_down_nothing() {
    let mut s = VideoEncodingSession::new(Size { width: 2, height: 2 }, Size { width: 2, height: 2 }, 1, 1).unwrap();
    assert!(s.stop().is_empty());
    assert_eq!(s.state(), SessionState::Stopped);
    assert!(s.stop().is_empty());
}

#[test]
fn writer_lifecycle() {
    let mut w = SampleWriter::new();
    assert_eq!(w.state(), WriterState::Created);
    let sample = EncodedSample { timestamp: 0, duration: 10 };
    assert_eq!(w.write(&sample), Err(WriterError::NotStarted));
    assert_eq!(w.state(), WriterState::Created);
    assert_eq!(w.start(), Ok(()));
    assert_eq!(w.start(), Err(WriterError::AlreadyStarted));
    assert_eq!(w.write(&sample), Ok(()));
    assert_eq!(w.write(&EncodedSample { timestamp: 10, duration: 10 }), Ok(()));
    assert_eq!(w.stop(), Ok(()));
    assert_eq!(w.state(), WriterState::Finalized);
}

#[test]
fn write_after_stop_is_use_after_finalize() {
    let mut w = SampleWriter::new();
    w.start().unwrap();
    w.stop().unwrap();
    assert_eq!(w.write(&EncodedSample { timestamp: 5, duration: 1 }), Err(WriterError::UseAfterFinalize));
    assert_eq!(w.stop(), Err(WriterError::UseAfterFinalize));
    assert_eq!(w.start(), Err(WriterError::UseAfterFinalize));
    assert_eq!(w.state(), WriterState::Finalized);
}

#[test]
fn generator_state_follows_lifecycle() {
    let mut g = SampleGenerator::new(Size { width: 4, height: 4 }, Size { width: 4, height: 4 });
    assert_eq!(g.state(), GeneratorState::AwaitingFirstFrame);
    assert_eq!(stamp(g.generate(Some(frame(4, 4, 4, 4, 12)))), 0);
    assert_eq!(g.state(), GeneratorState::Streaming);
    assert_eq!(g.generate(None), Generated::EndOfStream);
    assert_eq!(g.state(), GeneratorState::Stopped);
}

#[test]
fn stop_before_start_closes_writer() {
    let mut w = SampleWriter::new();
    assert_eq!(w.stop(), Err(WriterError::NotStarted));
    assert_eq!(w.state(), WriterState::Finalized);
    assert_eq!(w.write(&EncodedSample { timestamp: 0, duration: 1 }), Err(WriterError::UseAfterFinalize));
    assert_eq!(w.start(), Err(WriterError::UseAfterFinalize));
    assert_eq!(w.write(&EncodedSample { timestamp: 1, duration: 1 }), Err(WriterError::UseAfterFinalize));
}

#[test]
fn non_positive_size_is_config_error() {
    let good = Size { width: 640, height: 480 };
    for bad in [
        Size { width: 0, height: 480 },
        Size { width: 640, height: 0 },
        Size { width: -2, height: 480 },
        Size { width: 640, height: -1 },
    ] {
        assert_eq!(VideoEncodingSession::new(bad, good, 1, 1).err(), Some(SessionError::ConfigError));
        assert_eq!(VideoEncodingSession::new(good, bad, 1, 1).err(), Some(SessionError::ConfigError));
    }
    assert!(VideoEncodingSession::new(Size { width: 1, height: 1 }, good, 1, 1).is_ok());
}

#[test]
fn start_steps_go_on_while_they_succeed() {
    let mut s = VideoEncodingSession::new(Size { width: 2, height: 2 }, Size { width: 2, height: 2 }, 5, 24).unwrap();
    let cmds = s.start().unwrap();
    for _ in &cmds {
        assert!(s.report_start_step(true));
    }
    assert_eq!(s.state(), SessionState::Running);
    assert_eq!(s.bit_rate(), 5);
    assert_eq!(s.frame_rate(), 24);
}

#[test]
fn writes_keep_delivery_order() {
    let mut w = SampleWriter::new();
    w.start().unwrap();
    for t in [30, 10, 20, 20] {
        assert_eq!(w.write(&EncodedSample { timestamp: t, duration: 10 }), Ok(()));
    }
    assert_eq!(w.stop(), Ok(()));
    assert_eq!(w.write(&EncodedSample { timestamp: 40, duration: 10 }), Err(WriterError::UseAfterFinalize));
}
