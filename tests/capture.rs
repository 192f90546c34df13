use workout_buddy::capture::{
    encode_frame, frame_from_png, png_to_data_uri, BurstStep, CaptureBurst, CaptureError,
    BURST_SPACING_MS,
};

#[test]
fn burst_takes_three_frames_a_second_apart() {
    let mut burst = CaptureBurst::new();
    assert_eq!(burst.next_step(), BurstStep::Capture { start_latency_clock: false });
    burst.record_frame("a".to_string());
    assert_eq!(burst.next_step(), BurstStep::Pause(BURST_SPACING_MS));
    assert_eq!(BURST_SPACING_MS, 1000);
    burst.record_pause();
    assert_eq!(burst.next_step(), BurstStep::Capture { start_latency_clock: false });
    burst.record_frame("b".to_string());
    assert_eq!(burst.next_step(), BurstStep::Pause(1000));
    burst.record_pause();
    assert_eq!(burst.next_step(), BurstStep::Capture { start_latency_clock: true });
    burst.record_frame("c".to_string());
    assert_eq!(burst.next_step(), BurstStep::Submit);
    assert_eq!(burst.into_frames(), vec!["a".to_string(), "b".to_string(), "c".to_string()]);
}

#[test]
fn data_uri_of_known_bytes() {
    assert_eq!(png_to_data_uri(&[0x89, b'P', b'N', b'G']), "data:image/png;base64,iVBORw==");
    assert_eq!(png_to_data_uri(&[]), "data:image/png;base64,");
    assert_eq!(png_to_data_uri(b"hello"), "data:image/png;base64,aGVsbG8=");
}

#[test]
fn encoded_frame_is_a_png_data_uri() {
    let pixels: Vec<u8> = vec![255, 0, 0, 255, 0, 255, 0, 255];
    let uri = match encode_frame(&pixels, 2, 1) {
        Ok(u) => u,
        Err(_) => panic!("encoding a 2x1 frame failed"),
    };
    // base64 of the PNG signature
    assert!(uri.starts_with("data:image/png;base64,iVBORw0KGgo"));
    assert!(uri.len() > "data:image/png;base64,iVBORw0KGgo".len());
}

#[test]
fn wrong_pixel_count_is_refused() {
    let pixels: Vec<u8> = vec![0; 7];
    assert!(matches!(encode_frame(&pixels, 2, 1), Err(CaptureError::PixelCountMismatch)));
    assert!(matches!(encode_frame(&[], 1, 1), Err(CaptureError::PixelCountMismatch)));
}

#[test]
fn zero_sized_frame_is_an_encoder_error() {
    assert!(matches!(encode_frame(&[], 0, 5), Err(CaptureError::Encode(_))));
    assert!(matches!(encode_frame(&[], 3, 0), Err(CaptureError::Encode(_))));
}

#[test]
fn encoder_outcome_maps_to_frame_outcome() {
    assert_eq!(
        frame_from_png(Ok(vec![0x89, b'P', b'N', b'G'])).ok().as_deref(),
        Some("data:image/png;base64,iVBORw==")
    );
    let err = image::ImageError::Limits(image::error::LimitError::from_kind(
        image::error::LimitErrorKind::InsufficientMemory,
    ));
    match frame_from_png(Err(err)) {
        Err(CaptureError::Encode(image::ImageError::Limits(_))) => {}
        _ => panic!("the encoder error must come through unchanged"),
    }
}

#[test]
fn data_uri_text_is_padded_base64() {
    let prefix = "data:image/png;base64,";
    for n in 0..10usize {
        let bytes: Vec<u8> = (0..n).map(|i| (i * 37 + 250) as u8).collect();
        let uri = png_to_data_uri(&bytes);
        assert!(uri.starts_with(prefix));
        let text = &uri[prefix.len()..];
        assert_eq!(text.len(), 4 * ((n + 2) / 3));
        assert!(text.chars().all(|c| c.is_ascii_alphanumeric() || c == '+' || c == '/' || c == '='));
    }
}
