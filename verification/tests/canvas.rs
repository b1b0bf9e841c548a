use imagetext_py::canvas::Canvas;
use imagetext_py::error::InvalidInput;
use imagetext_py::objects::Color;

#[test]
fn new_canvas_is_filled_with_the_color() {
    let canvas = Canvas::new(2, 3, Color([1, 2, 3, 4]));
    assert_eq!(canvas.dimensions(), (2, 3));
    let bytes = canvas.to_buffer();
    assert_eq!(bytes.len(), 24);
    for (i, b) in bytes.iter().enumerate() {
        assert_eq!(*b as usize, i % 4 + 1);
    }
}

#[test]
fn new_canvas_of_the_plain_draw_scenario_is_transparent() {
    let canvas = Canvas::new(200, 60, Color([0, 0, 0, 0]));
    let ((w, h), bytes) = canvas.to_bytes();
    assert_eq!((w, h), (200, 60));
    assert_eq!(bytes.len(), 4 * 200 * 60);
    assert!(bytes.iter().all(|b| *b == 0));
}

#[test]
fn pixel_reads_inside_and_refuses_outside() {
    let canvas = Canvas::from_image(
        "RGBA",
        2,
        2,
        vec![1, 2, 3, 4, 5, 6, 7, 8, 9, 10, 11, 12, 13, 14, 15, 16],
    )
    .unwrap();
    assert_eq!(canvas.pixel(0, 0), Some(Color([1, 2, 3, 4])));
    assert_eq!(canvas.pixel(1, 0), Some(Color([5, 6, 7, 8])));
    assert_eq!(canvas.pixel(0, 1), Some(Color([9, 10, 11, 12])));
    assert_eq!(canvas.pixel(1, 1), Some(Color([13, 14, 15, 16])));
    assert_eq!(canvas.pixel(2, 0), None);
    assert_eq!(canvas.pixel(0, 2), None);
}

#[test]
fn from_image_keeps_the_buffer() {
    let data = vec![9u8, 8, 7, 6, 5, 4, 3, 2];
    let canvas = Canvas::from_image("RGBA", 2, 1, data.clone()).unwrap();
    assert_eq!(canvas.dimensions(), (2, 1));
    assert_eq!(canvas.to_buffer(), data);
    let ((w, h), bytes) = canvas.to_bytes();
    assert_eq!((w, h), (2, 1));
    assert_eq!(bytes, data);
}

#[test]
fn from_image_refuses_other_modes() {
    let r = Canvas::from_image("RGB", 1, 1, vec![0, 0, 0, 0]);
    assert_eq!(r.err(), Some(InvalidInput::UnsupportedMode));
    let r = Canvas::from_image("rgba", 1, 1, vec![0, 0, 0, 0]);
    assert_eq!(r.err(), Some(InvalidInput::UnsupportedMode));
    let r = Canvas::from_image("", 1, 1, vec![0, 0, 0, 0]);
    assert_eq!(r.err(), Some(InvalidInput::UnsupportedMode));
}

#[test]
fn from_image_refuses_a_buffer_of_another_length() {
    let short = Canvas::from_image("RGBA", 2, 2, vec![0; 15]);
    assert_eq!(short.err(), Some(InvalidInput::BufferSize));
    let long = Canvas::from_image("RGBA", 2, 2, vec![0; 17]);
    assert_eq!(long.err(), Some(InvalidInput::BufferSize));
    let huge = Canvas::from_image("RGBA", u32::MAX, u32::MAX, vec![0; 4]);
    assert_eq!(huge.err(), Some(InvalidInput::BufferSize));
}

#[test]
fn from_image_reports_the_mode_before_the_length() {
    let r = Canvas::from_image("L", 2, 2, vec![0; 3]);
    assert_eq!(r.err(), Some(InvalidInput::UnsupportedMode));
}

#[test]
fn needs_conversion_for_every_mode_but_rgba() {
    assert!(!Canvas::needs_conversion("RGBA"));
    assert!(Canvas::needs_conversion("RGB"));
    assert!(Canvas::needs_conversion("L"));
    assert!(Canvas::needs_conversion("RGBAX"));
    assert!(Canvas::needs_conversion(""));
}

#[test]
fn into_parts_gives_back_what_from_image_took() {
    let data = vec![1u8, 2, 3, 4, 5, 6, 7, 8, 9, 10, 11, 12];
    let canvas = Canvas::from_image("RGBA", 1, 3, data.clone()).unwrap();
    let (w, h, buffer) = canvas.into_parts();
    assert_eq!((w, h), (1, 3));
    assert_eq!(buffer, data);
}

#[test]
fn canvas_without_width_or_height_is_empty() {
    assert!(Canvas::new(0, 5, Color([1, 1, 1, 1])).is_empty());
    assert!(Canvas::new(5, 0, Color([1, 1, 1, 1])).is_empty());
    assert!(!Canvas::new(1, 1, Color([1, 1, 1, 1])).is_empty());
    assert_eq!(Canvas::new(0, 5, Color([1, 1, 1, 1])).to_buffer().len(), 0);
    let empty = Canvas::from_image("RGBA", 0, 0, vec![]).unwrap();
    assert!(empty.is_empty());
    assert_eq!(empty.pixel(0, 0), None);
}

#[test]
fn fits_tells_which_sizes_can_be_made() {
    assert!(Canvas::fits(0, 0));
    assert!(Canvas::fits(200, 60));
    assert!(Canvas::fits(u32::MAX, 0));
    assert_eq!(
        Canvas::fits(u32::MAX, u32::MAX),
        4u128 * (u32::MAX as u128) * (u32::MAX as u128) <= isize::MAX as u128
    );
    assert_eq!(
        Canvas::fits(1 << 31, 1 << 30),
        (1u128 << 63) <= isize::MAX as u128
    );
}
