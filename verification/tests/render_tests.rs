use text_bitmap::convert::pixels_to_rgba;
use text_bitmap::render::{
    make_text_bitmap, HostEvent, Phase, RasterError, RenderAction, RenderState, BLANK_PIXEL,
};

fn state_awaiting_width() -> RenderState {
    let (state, action) = make_text_bitmap(RenderState::new(), HostEvent::Begin);
    assert_eq!(action, RenderAction::MeasureWidth);
    state
}

fn state_awaiting_height(width: usize) -> RenderState {
    let (state, action) = make_text_bitmap(state_awaiting_width(), HostEvent::Width(width));
    assert_eq!(action, RenderAction::MeasureHeight);
    state
}

fn state_awaiting_draw(width: usize, height: usize) -> (RenderState, Vec<u32>) {
    let state = state_awaiting_height(width);
    assert!(state.accepts(&HostEvent::Height(height)));
    let (state, action) = make_text_bitmap(state, HostEvent::Height(height));
    match action {
        RenderAction::Draw { pixels, width: w, height: h } => {
            assert_eq!((w, h), (width, height));
            (state, pixels)
        }
        other => panic!("no canvas: {:?}", other),
    }
}

#[test]
fn fill_value_is_white_with_alpha_zero() {
    assert_eq!(BLANK_PIXEL, 0x00FF_FFFF);
}

#[test]
fn new_state_is_idle() {
    assert_eq!(RenderState::new().phase(), Phase::Idle);
}

#[test]
fn begin_asks_for_the_width() {
    let (state, action) = make_text_bitmap(RenderState::new(), HostEvent::Begin);
    assert_eq!(action, RenderAction::MeasureWidth);
    assert_eq!(state.phase(), Phase::AwaitingWidth);
}

#[test]
fn positive_width_asks_for_the_height() {
    let (state, action) = make_text_bitmap(state_awaiting_width(), HostEvent::Width(7));
    assert_eq!(action, RenderAction::MeasureHeight);
    assert_eq!(state.phase(), Phase::AwaitingHeight);
}

#[test]
fn zero_width_fails_and_hands_out_no_canvas() {
    let (state, action) = make_text_bitmap(state_awaiting_width(), HostEvent::Width(0));
    assert_eq!(action, RenderAction::Fail(RasterError::ZeroWidth));
    assert_eq!(state.phase(), Phase::Done);
    let (state, action) = make_text_bitmap(state, HostEvent::Height(16));
    assert_eq!(action, RenderAction::Fail(RasterError::UnexpectedEvent));
    assert_eq!(state.phase(), Phase::Done);
}

#[test]
fn height_hands_out_a_blank_canvas() {
    let (state, action) = make_text_bitmap(state_awaiting_height(3), HostEvent::Height(2));
    assert_eq!(
        action,
        RenderAction::Draw { pixels: vec![0x00FF_FFFF; 6], width: 3, height: 2 }
    );
    assert_eq!(state.phase(), Phase::AwaitingDraw);
}

#[test]
fn one_by_one_bitmap_has_r_g_b_a_order() {
    let (state, mut pixels) = state_awaiting_draw(1, 1);
    pixels[0] = 0x1234_5678;
    let (state, action) = make_text_bitmap(state, HostEvent::Drawn(pixels));
    assert_eq!(
        action,
        RenderAction::Finish { bytes: vec![0x34, 0x56, 0x78, 0x12], width: 1, height: 1 }
    );
    assert_eq!(state.phase(), Phase::Done);
}

#[test]
fn undrawn_canvas_gives_white_with_alpha_zero() {
    let (state, pixels) = state_awaiting_draw(4, 3);
    let (_, action) = make_text_bitmap(state, HostEvent::Drawn(pixels));
    match action {
        RenderAction::Finish { bytes, width, height } => {
            assert_eq!((width, height), (4, 3));
            assert_eq!(bytes.len(), 48);
            for px in bytes.chunks(4) {
                assert_eq!(px, [0xFF, 0xFF, 0xFF, 0x00]);
            }
        }
        other => panic!("no bitmap: {:?}", other),
    }
}

#[test]
fn bitmap_has_four_bytes_per_pixel() {
    for (w, h) in [(1usize, 1usize), (2, 5), (17, 16), (640, 18)] {
        let (state, mut pixels) = state_awaiting_draw(w, h);
        assert_eq!(pixels.len(), w * h);
        for (i, p) in pixels.iter_mut().enumerate() {
            *p = (i as u32).wrapping_mul(0x0101_0101) ^ 0xA5A5_5A5A;
        }
        let want = pixels_to_rgba(&pixels);
        let (_, action) = make_text_bitmap(state, HostEvent::Drawn(pixels));
        match action {
            RenderAction::Finish { bytes, width, height } => {
                assert!(width > 0 && height > 0);
                assert_eq!((width, height), (w, h));
                assert_eq!(bytes.len(), 4 * width * height);
                assert_eq!(bytes, want);
            }
            other => panic!("no bitmap: {:?}", other),
        }
    }
}

#[test]
fn partly_drawn_canvas_keeps_the_fill_elsewhere() {
    let (state, mut pixels) = state_awaiting_draw(2, 2);
    pixels[1] = 0xFF00_0000;
    pixels[2] = 0x80FF_8040;
    let (_, action) = make_text_bitmap(state, HostEvent::Drawn(pixels));
    assert_eq!(
        action,
        RenderAction::Finish {
            bytes: vec![
                0xFF, 0xFF, 0xFF, 0x00, 0x00, 0x00, 0x00, 0xFF, 0xFF, 0x80, 0x40, 0x80, 0xFF,
                0xFF, 0xFF, 0x00,
            ],
            width: 2,
            height: 2,
        }
    );
}

#[test]
fn zero_height_gives_an_empty_bitmap() {
    let (state, pixels) = state_awaiting_draw(5, 0);
    assert!(pixels.is_empty());
    let (_, action) = make_text_bitmap(state, HostEvent::Drawn(pixels));
    assert_eq!(action, RenderAction::Finish { bytes: Vec::new(), width: 5, height: 0 });
}

#[test]
fn canvas_of_another_size_is_refused() {
    let (state, mut pixels) = state_awaiting_draw(3, 2);
    pixels.pop();
    let (state, action) = make_text_bitmap(state, HostEvent::Drawn(pixels));
    assert_eq!(action, RenderAction::Fail(RasterError::UnexpectedEvent));
    assert_eq!(state.phase(), Phase::Done);

    let (state, mut pixels) = state_awaiting_draw(3, 2);
    pixels.push(0);
    let (_, action) = make_text_bitmap(state, HostEvent::Drawn(pixels));
    assert_eq!(action, RenderAction::Fail(RasterError::UnexpectedEvent));
}

#[test]
fn events_out_of_turn_are_refused() {
    let unexpected = RenderAction::Fail(RasterError::UnexpectedEvent);

    for event in [HostEvent::Width(1), HostEvent::Height(1), HostEvent::Drawn(vec![0])] {
        let (state, action) = make_text_bitmap(RenderState::new(), event);
        assert_eq!(action, unexpected);
        assert_eq!(state.phase(), Phase::Done);
    }
    for event in [HostEvent::Begin, HostEvent::Height(1), HostEvent::Drawn(vec![0])] {
        let (state, action) = make_text_bitmap(state_awaiting_width(), event);
        assert_eq!(action, unexpected);
        assert_eq!(state.phase(), Phase::Done);
    }
    for event in [HostEvent::Begin, HostEvent::Width(1), HostEvent::Drawn(vec![0])] {
        let (state, action) = make_text_bitmap(state_awaiting_height(1), event);
        assert_eq!(action, unexpected);
        assert_eq!(state.phase(), Phase::Done);
    }
    for event in [HostEvent::Begin, HostEvent::Width(1), HostEvent::Height(1)] {
        let (state, _) = state_awaiting_draw(1, 1);
        let (state, action) = make_text_bitmap(state, event);
        assert_eq!(action, unexpected);
        assert_eq!(state.phase(), Phase::Done);
    }
}

#[test]
fn nothing_follows_the_end() {
    let (state, pixels) = state_awaiting_draw(1, 1);
    let (mut state, _) = make_text_bitmap(state, HostEvent::Drawn(pixels));
    for event in [
        HostEvent::Begin,
        HostEvent::Width(1),
        HostEvent::Height(1),
        HostEvent::Drawn(vec![0]),
    ] {
        let (next, action) = make_text_bitmap(state, event);
        assert_eq!(action, RenderAction::Fail(RasterError::UnexpectedEvent));
        assert_eq!(next.phase(), Phase::Done);
        state = next;
    }
}

#[test]
fn accepts_refuses_only_a_canvas_too_large_to_count() {
    let state = state_awaiting_height(usize::MAX);
    assert!(state.accepts(&HostEvent::Height(0)));
    assert!(state.accepts(&HostEvent::Height(1)));
    assert!(!state.accepts(&HostEvent::Height(2)));
    assert!(state.accepts(&HostEvent::Begin));
    assert!(state.accepts(&HostEvent::Width(usize::MAX)));

    let state = state_awaiting_height(usize::MAX / 2 + 1);
    assert!(state.accepts(&HostEvent::Height(1)));
    assert!(!state.accepts(&HostEvent::Height(2)));

    assert!(RenderState::new().accepts(&HostEvent::Height(usize::MAX)));
    assert!(state_awaiting_width().accepts(&HostEvent::Height(usize::MAX)));
    let (state, _) = state_awaiting_draw(2, 2);
    assert!(state.accepts(&HostEvent::Height(usize::MAX)));
}

#[test]
fn same_events_give_the_same_bitmap() {
    let mut results = Vec::new();
    for _ in 0..3 {
        let (state, mut pixels) = state_awaiting_draw(9, 4);
        for (i, p) in pixels.iter_mut().enumerate() {
            if i % 3 == 0 {
                *p = 0xFF10_2030 + i as u32;
            }
        }
        let (_, action) = make_text_bitmap(state, HostEvent::Drawn(pixels));
        results.push(action);
    }
    assert_eq!(results[0], results[1]);
    assert_eq!(results[1], results[2]);
}

#[test]
fn errors_describe_themselves() {
    assert_eq!(RasterError::ZeroWidth.message(), "empty or unmeasurable text");
    assert_eq!(
        RasterError::UnexpectedEvent.message(),
        "event does not answer the last action"
    );
    assert_ne!(RasterError::ZeroWidth, RasterError::UnexpectedEvent);
}
