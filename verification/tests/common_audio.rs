use minui::common::audio::{AudioFrame, AudioRingBuffer, Resampler};

#[test]
fn audio_frame_fields_match_c_snd_frame() {
    let frame = AudioFrame {
        left: 100,
        right: -50,
    };
    assert_eq!(frame.left, 100);
    assert_eq!(frame.right, -50);
}

#[test]
fn audio_frame_can_be_constructed_with_named_fields() {
    let frame = AudioFrame { left: 0, right: 0 };
    assert_eq!(frame.left, 0);
    assert_eq!(frame.right, 0);
}

#[test]
fn ring_buffer_new_has_correct_capacity_and_empty() {
    let buf = AudioRingBuffer::new(3675);
    assert_eq!(buf.capacity(), 3675);
    assert_eq!(buf.len(), 0);
}

#[test]
fn ring_buffer_push_returns_count() {
    let mut buf = AudioRingBuffer::new(10);
    let frames = [
        AudioFrame { left: 1, right: 2 },
        AudioFrame { left: 3, right: 4 },
    ];
    let written = buf.push(&frames);
    assert_eq!(written, 2);
    assert_eq!(buf.len(), 2);
}

#[test]
fn ring_buffer_push_full_returns_zero() {
    let mut buf = AudioRingBuffer::new(3);
    buf.push(&[
        AudioFrame { left: 1, right: 1 },
        AudioFrame { left: 2, right: 2 },
        AudioFrame { left: 3, right: 3 },
    ]);
    assert_eq!(buf.len(), 3);
    let written = buf.push(&[AudioFrame { left: 4, right: 4 }]);
    assert_eq!(written, 0);
    assert_eq!(buf.len(), 3);
}

#[test]
fn ring_buffer_pop_returns_data_in_order() {
    let mut buf = AudioRingBuffer::new(10);
    buf.push(&[
        AudioFrame {
            left: 10,
            right: 20,
        },
        AudioFrame {
            left: 30,
            right: 40,
        },
    ]);

    let mut out = [AudioFrame { left: 0, right: 0 }; 2];
    let read = buf.pop(&mut out);
    assert_eq!(read, 2);
    assert_eq!(out[0].left, 10);
    assert_eq!(out[0].right, 20);
    assert_eq!(out[1].left, 30);
    assert_eq!(out[1].right, 40);
}

#[test]
fn ring_buffer_pop_empty_returns_zero() {
    let mut buf = AudioRingBuffer::new(10);
    let mut out = [AudioFrame { left: 0, right: 0 }; 1];
    let read = buf.pop(&mut out);
    assert_eq!(read, 0);
    assert_eq!(out[0].left, 0);
    assert_eq!(out[0].right, 0);
}

#[test]
fn ring_buffer_wraps_around_correctly() {
    let mut buf = AudioRingBuffer::new(5);
    buf.push(&[
        AudioFrame { left: 1, right: 1 },
        AudioFrame { left: 2, right: 2 },
        AudioFrame { left: 3, right: 3 },
    ]);
    let mut out = [AudioFrame { left: 0, right: 0 }; 3];
    buf.pop(&mut out);
    assert_eq!(buf.len(), 0);

    let frames: Vec<_> = (0..5)
        .map(|i| AudioFrame {
            left: (10 + i) as i16,
            right: (20 + i) as i16,
        })
        .collect();
    let written = buf.push(&frames);
    assert_eq!(written, 5);
    assert_eq!(buf.len(), 5);

    let mut out2 = [AudioFrame { left: 0, right: 0 }; 5];
    let read = buf.pop(&mut out2);
    assert_eq!(read, 5);
    for (i, item) in out2.iter().enumerate() {
        assert_eq!(item.left, (10 + i) as i16);
        assert_eq!(item.right, (20 + i) as i16);
    }
}

#[test]
fn ring_buffer_partial_pop_reads_whats_available() {
    let mut buf = AudioRingBuffer::new(10);
    buf.push(&[AudioFrame {
        left: 42,
        right: 99,
    }]);

    let mut out = [AudioFrame { left: 0, right: 0 }; 3];
    let read = buf.pop(&mut out);
    assert_eq!(read, 1);
    assert_eq!(out[0].left, 42);
    assert_eq!(out[0].right, 99);
    assert_eq!(out[1].left, 0);
    assert_eq!(out[2].left, 0);
}

#[test]
fn ring_buffer_is_empty_returns_true_when_empty() {
    let buf = AudioRingBuffer::new(10);
    assert!(buf.is_empty());
    let mut buf = AudioRingBuffer::new(10);
    buf.push(&[AudioFrame { left: 1, right: 1 }]);
    assert!(!buf.is_empty());
}

#[test]
fn ring_buffer_no_internal_mutex() {
    let buf = AudioRingBuffer::new(10);
    let _ = buf.capacity();
}

#[test]
fn resampler_same_rate_creates_passthrough() {
    let r = Resampler::new(44100, 44100);
    assert!(matches!(r, Resampler::Passthrough));
}

#[test]
fn resampler_different_rate_creates_nearest() {
    let r = Resampler::new(44100, 48000);
    assert!(matches!(r, Resampler::Nearest { .. }));
}

#[test]
fn resampler_passthrough_always_writes_and_advances() {
    let mut r = Resampler::new(44100, 44100);
    for _ in 0..100 {
        let result = r.process(AudioFrame {
            left: 100,
            right: 200,
        });
        assert!(result.write_output);
        assert!(result.advance_input);
    }
}

#[test]
fn resampler_upsample_44100_to_48000_output_not_less_than_input() {
    let mut r = Resampler::new(44100, 48000);
    let input_count = 44100u32;
    let mut output_count = 0u32;
    let mut i = 0u32;

    while i < input_count {
        let result = r.process(AudioFrame { left: 0, right: 0 });
        if result.write_output {
            output_count += 1;
        }
        if result.advance_input {
            i += 1;
        }
    }
    assert!(output_count >= input_count);
}

#[test]
fn resampler_downsample_48000_to_44100_output_not_more_than_input() {
    let mut r = Resampler::new(48000, 44100);
    let input_count = 48000u32;
    let mut output_count = 0u32;
    let mut i = 0u32;

    while i < input_count {
        let result = r.process(AudioFrame { left: 0, right: 0 });
        if result.write_output {
            output_count += 1;
        }
        if result.advance_input {
            i += 1;
        }
    }
    assert!(output_count <= input_count);
}

#[test]
fn resampler_upsample_can_process_same_frame_twice() {
    let mut r = Resampler::new(44100, 48000);
    let frame = AudioFrame {
        left: 42,
        right: 99,
    };

    let mut wrote = false;
    loop {
        let result = r.process(frame);
        if result.write_output {
            wrote = true;
        }
        if result.advance_input {
            break;
        }
    }
    assert!(wrote, "frame should have been output at least once");
}

#[test]
fn resampler_has_no_platform_dependencies() {
    let mut r = Resampler::new(44100, 48000);
    let result = r.process(AudioFrame { left: 1, right: 2 });
    let _ = result;
}

fn run_counts(rate_in: u32, rate_out: u32, calls: usize) -> (i64, i64) {
    let mut r = Resampler::new(rate_in, rate_out);
    let (mut w, mut a) = (0i64, 0i64);
    for _ in 0..calls {
        let res = r.process(AudioFrame { left: 0, right: 0 });
        assert!(res.write_output || res.advance_input);
        if res.write_output {
            w += 1;
        }
        if res.advance_input {
            a += 1;
        }
        let d = w * rate_in as i64 - a * rate_out as i64;
        assert!(d >= 0 && d < rate_in.max(rate_out) as i64);
    }
    (w, a)
}

#[test]
fn resampler_run_follows_the_rate_ratio() {
    assert_eq!(run_counts(3, 5, 10), (10, 6));
    assert_eq!(run_counts(5, 3, 10), (6, 10));
    let (w, a) = run_counts(32000, 48000, 3000);
    assert_eq!(w, 3000);
    assert_eq!(a, 2000);
}
