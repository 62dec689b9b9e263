use embassy_stm32f469i_disco::framebuffer::{check_framebuffer, AreaFill};
use embassy_stm32f469i_disco::{
    Argb8888, DisplayFormat, DisplayInitError, FramebufferView, Rgb565, Rgb565Color, Rgb888Color,
    RgbColor,
};

#[test]
fn check_framebuffer_accepts_exact_region() {
    assert_eq!(check_framebuffer::<Argb8888>(384_000 * 4, 0xC000_0000, 384_000), Ok(()));
    assert_eq!(check_framebuffer::<Rgb565>(384_000 * 2, 0xC000_0002, 384_000), Ok(()));
}

#[test]
fn check_framebuffer_too_small() {
    assert_eq!(
        check_framebuffer::<Argb8888>(100, 0xC000_0000, 384_000),
        Err(DisplayInitError::FramebufferTooSmall {
            provided_bytes: 100,
            required_bytes: 1_536_000
        })
    );
}

#[test]
fn check_framebuffer_misaligned() {
    let align = core::mem::align_of::<u32>();
    assert_eq!(
        check_framebuffer::<Argb8888>(1_536_000, 0xC000_0002, 384_000),
        Err(DisplayInitError::FramebufferMisaligned {
            ptr_addr: 0xC000_0002,
            required_align: align
        })
    );
    assert_eq!(
        check_framebuffer::<Rgb565>(768_000, 0xC000_0001, 384_000),
        Err(DisplayInitError::FramebufferMisaligned {
            ptr_addr: 0xC000_0001,
            required_align: core::mem::align_of::<u16>()
        })
    );
}

#[test]
fn check_framebuffer_size_overflow() {
    assert_eq!(
        check_framebuffer::<Argb8888>(usize::MAX, 0, usize::MAX / 2),
        Err(DisplayInitError::FramebufferSizeOverflow)
    );
}

#[test]
fn view_clear_fills_every_pixel() {
    let mut buf = vec![0u32; 12];
    {
        let mut view = FramebufferView::<Argb8888>::new(&mut buf, 4, 3);
        assert_eq!(view.size(), (4, 3));
        view.clear(Rgb888Color::new(1, 2, 3));
    }
    assert!(buf.iter().all(|&p| p == 0xFF01_0203));
}

#[test]
fn view_draw_pixel_in_and_out_of_bounds() {
    let mut buf = vec![0u16; 6];
    {
        let mut view = FramebufferView::<Rgb565>::new(&mut buf, 3, 2);
        view.draw_pixel(2, 1, Rgb565Color::red());
        view.draw_pixel(-1, 0, Rgb565Color::red());
        view.draw_pixel(3, 0, Rgb565Color::red());
        view.draw_pixel(0, 2, Rgb565Color::red());
        view.draw_pixel(0, -5, Rgb565Color::red());
    }
    assert_eq!(buf, vec![0, 0, 0, 0, 0, 0xF800]);
}

#[test]
fn view_fill_contiguous_clips_and_defaults() {
    let mut buf = vec![7u16; 9];
    let colors = [Rgb565Color::new(0, 0, 1), Rgb565Color::new(0, 0, 2), Rgb565Color::new(0, 0, 3)];
    {
        let mut view = FramebufferView::<Rgb565>::new(&mut buf, 3, 3);
        // A 2x2 area at (-1, 1): (-1,1)->c0 skipped, (0,1)->c1, (-1,2)->c2 skipped, (0,2)->default.
        view.fill_contiguous(-1, 1, 2, 2, &colors);
    }
    assert_eq!(buf, vec![7, 7, 7, 2, 7, 7, 0, 7, 7]);
}

#[test]
fn view_fill_contiguous_empty_area_changes_nothing() {
    let mut buf = vec![5u32; 4];
    {
        let mut view = FramebufferView::<Argb8888>::new(&mut buf, 2, 2);
        view.fill_contiguous(0, 0, 0, 2, &[]);
        view.fill_contiguous(0, 0, 2, -1, &[]);
    }
    assert_eq!(buf, vec![5; 4]);
}

#[test]
fn view_verify_quarter_fill() {
    let mut buf = vec![0u32; 2 * 9];
    let mismatches = {
        let mut view = FramebufferView::<Argb8888>::new(&mut buf, 2, 9);
        view.verify_quarter_fill()
    };
    assert_eq!(mismatches, 0);
    // height 9 -> quarter height 2 -> 4 pixels per quarter, yellow takes the rest.
    let red = Argb8888::encode(Rgb888Color::red());
    let green = Argb8888::encode(Rgb888Color::green());
    let blue = Argb8888::encode(Rgb888Color::blue());
    let yellow = Argb8888::encode(Rgb888Color::yellow());
    let mut expected = vec![red; 4];
    expected.extend(vec![green; 4]);
    expected.extend(vec![blue; 4]);
    expected.extend(vec![yellow; 6]);
    assert_eq!(buf, expected);
}

#[test]
fn area_fill_streams_like_fill_contiguous() {
    let colors = [Rgb565Color::new(0, 0, 1), Rgb565Color::new(0, 0, 2), Rgb565Color::new(0, 0, 3)];
    let mut streamed = vec![7u16; 9];
    {
        let mut view = FramebufferView::<Rgb565>::new(&mut streamed, 3, 3);
        let mut fill = AreaFill::new(-1, 1, 2, 2);
        for c in colors {
            assert!(!fill.is_finished());
            fill.put(&mut view, c);
        }
        assert!(!fill.is_finished());
        fill.finish(&mut view);
        assert!(fill.is_finished());
    }
    let mut batch = vec![7u16; 9];
    {
        let mut view = FramebufferView::<Rgb565>::new(&mut batch, 3, 3);
        view.fill_contiguous(-1, 1, 2, 2, &colors);
    }
    assert_eq!(streamed, batch);
    assert_eq!(streamed, vec![7, 7, 7, 2, 7, 7, 0, 7, 7]);
}

#[test]
fn area_fill_empty_area_is_finished() {
    let mut buf = vec![5u32; 4];
    {
        let mut view = FramebufferView::<Argb8888>::new(&mut buf, 2, 2);
        let mut fill = AreaFill::new(0, 0, 0, 2);
        assert!(fill.is_finished());
        fill.finish(&mut view);
    }
    assert_eq!(buf, vec![5; 4]);
}
