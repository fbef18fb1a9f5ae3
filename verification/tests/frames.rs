use esp_display::frames::{FrameCursor, FRAME_SIZE};

fn numbered_buffer(frames: usize, extra: usize) -> Vec<u8> {
    let mut v = Vec::new();
    for f in 0..frames {
        for i in 0..FRAME_SIZE {
            v.push((f as u8).wrapping_mul(31).wrapping_add(i as u8));
        }
    }
    for _ in 0..extra {
        v.push(0xEE);
    }
    v
}

#[test]
fn frames_in_order_then_loop() {
    let buf = numbered_buffer(3, 0);
    let mut c = FrameCursor::new(buf.clone());
    for k in 0..7 {
        let f = c.next_frame();
        let start = (k % 3) * FRAME_SIZE;
        assert_eq!(&f.0[..], &buf[start..start + FRAME_SIZE], "frame {k}");
    }
}

#[test]
fn trailing_partial_frame_is_skipped() {
    let buf = numbered_buffer(2, 100);
    let mut c = FrameCursor::new(buf.clone());
    let f0 = c.next_frame();
    let f1 = c.next_frame();
    let f2 = c.next_frame();
    assert_eq!(&f0.0[..], &buf[0..256]);
    assert_eq!(&f1.0[..], &buf[256..512]);
    assert_eq!(&f2.0[..], &buf[0..256]);
}

#[test]
fn single_frame_repeats() {
    let buf = numbered_buffer(1, 255);
    let mut c = FrameCursor::new(buf.clone());
    for _ in 0..4 {
        assert_eq!(&c.next_frame().0[..], &buf[0..256]);
    }
}
