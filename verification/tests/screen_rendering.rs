use embedded_graphics::geometry::{Dimensions, Point as PixelPoint, Size};
use embedded_graphics::mock_display::MockDisplay;
use embedded_graphics::mono_font::ascii::FONT_6X10;
use embedded_graphics::mono_font::{MonoTextStyle, MonoTextStyleBuilder};
use embedded_graphics::pixelcolor::BinaryColor;
use embedded_graphics::primitives::{Primitive, PrimitiveStyle, Rectangle};
use embedded_graphics::text::{Baseline, Text};
use embedded_graphics::draw_target::DrawTarget;
use embedded_graphics::Drawable;
use embedded_hal::blocking::i2c::Write;
use fan_controller::control::{Action, ControlLoop, Event, LoopConfig};
use fan_controller::display::{
    label_origin, label_region, readout_region, text_extent, DisplayError, DisplayOp, Region,
    GLYPH_HEIGHT, GLYPH_WIDTH, LABEL,
};
use fan_controller::pwm::{PwmMode, PwmRegisters};
use ssd1306::mode::DisplayConfig;
use ssd1306::rotation::DisplayRotation;
use ssd1306::size::DisplaySize128x32;
use ssd1306::test_helpers::I2cStub;
use ssd1306::{I2CDisplayInterface, Ssd1306};

fn text_style() -> MonoTextStyle<'static, BinaryColor> {
    MonoTextStyleBuilder::new().font(&FONT_6X10).text_color(BinaryColor::On).build()
}

fn rectangle(region: Region) -> Rectangle {
    Rectangle::new(
        PixelPoint::new(region.top_left.x, region.top_left.y),
        Size::new(region.width, region.height),
    )
}

/// Performs a drawing operation on `target`; a commit is left to the caller.
fn draw<D>(target: &mut D, op: DisplayOp) -> Result<(), D::Error>
where
    D: DrawTarget<Color = BinaryColor>,
{
    match op {
        DisplayOp::ClearRegion(region) => rectangle(region)
            .into_styled(PrimitiveStyle::with_fill(BinaryColor::Off))
            .draw(target),
        DisplayOp::DrawText { text, top_left } => Text::with_baseline(
            std::str::from_utf8(&text).unwrap(),
            PixelPoint::new(top_left.x, top_left.y),
            text_style(),
            Baseline::Top,
        )
        .draw(target)
        .map(|_| ()),
        DisplayOp::Flush => Ok(()),
    }
}

fn draw_label(screen: &mut MockDisplay<BinaryColor>) {
    let origin = label_origin();
    Text::with_baseline(LABEL, PixelPoint::new(origin.x, origin.y), text_style(), Baseline::Top)
        .draw(screen)
        .unwrap();
}

fn fresh_screen() -> MockDisplay<BinaryColor> {
    let mut screen = MockDisplay::new();
    screen.set_allow_overdraw(true);
    screen
}

/// Runs one iteration of the loop against `screen`.
fn show(control: &mut ControlLoop, screen: &mut MockDisplay<BinaryColor>, sample: u16) {
    assert_eq!(control.next_action(), Action::ReadSample);
    control.on_event(Event::Sample(sample));
    loop {
        match control.next_action() {
            Action::ReadSample => return,
            Action::Display(op) => draw(screen, op).unwrap(),
            Action::Halt(error) => panic!("halted: {:?}", error),
            _ => {}
        }
        control.on_event(Event::Done);
    }
}

fn lit(screen: &MockDisplay<BinaryColor>, x: i32, y: i32) -> bool {
    screen.get_pixel(PixelPoint::new(x, y)) == Some(BinaryColor::On)
}

#[test]
fn font_metrics_match_the_layout() {
    assert_eq!(FONT_6X10.character_size, Size::new(GLYPH_WIDTH, GLYPH_HEIGHT));
    assert_eq!(FONT_6X10.character_spacing, 0);
}

#[test]
fn label_region_is_the_bounding_box_of_the_label() {
    let origin = label_origin();
    let label =
        Text::with_baseline(LABEL, PixelPoint::new(origin.x, origin.y), text_style(), Baseline::Top);
    assert_eq!(label.bounding_box(), rectangle(label_region()));
}

#[test]
fn text_extent_is_the_bounding_box_of_the_digits() {
    let corner = readout_region().top_left;
    for text in ["0  ", "83 ", "100"] {
        let drawn = Text::with_baseline(
            text,
            PixelPoint::new(corner.x, corner.y),
            text_style(),
            Baseline::Top,
        );
        assert_eq!(drawn.bounding_box(), rectangle(text_extent(corner, 3)));
    }
}

#[test]
fn regions_do_not_intersect_on_the_screen() {
    let shared = rectangle(label_region()).intersection(&rectangle(readout_region()));
    assert!(shared.is_zero_sized());
}

#[test]
fn rendering_leaves_the_label_alone() {
    let mut label_only = fresh_screen();
    draw_label(&mut label_only);

    let mut screen = fresh_screen();
    draw_label(&mut screen);
    let mut control = ControlLoop::new(LoopConfig::default()).unwrap();
    for sample in [730u16, 0, 606, 146] {
        show(&mut control, &mut screen, sample);
        let label = label_region();
        for y in 0..label.height as i32 {
            for x in 0..label.width as i32 {
                assert_eq!(
                    screen.get_pixel(PixelPoint::new(x, y)),
                    label_only.get_pixel(PixelPoint::new(x, y))
                );
            }
        }
    }
}

#[test]
fn readout_shows_the_digits_of_the_duty() {
    let mut control = ControlLoop::new(LoopConfig::default()).unwrap();
    for (sample, text) in [(0u16, "0"), (146, "20"), (606, "83"), (730, "100")] {
        let mut screen = fresh_screen();
        show(&mut control, &mut screen, sample);

        let mut expected = fresh_screen();
        Text::with_baseline(text, PixelPoint::new(0, 16), text_style(), Baseline::Top)
            .draw(&mut expected)
            .unwrap();

        let region = readout_region();
        for y in region.top_left.y..region.top_left.y + region.height as i32 {
            for x in region.top_left.x..region.top_left.x + region.width as i32 {
                assert_eq!(lit(&screen, x, y), lit(&expected, x, y), "at ({}, {})", x, y);
            }
        }
    }
}

#[test]
fn new_readout_leaves_no_stale_pixel() {
    let mut control = ControlLoop::new(LoopConfig::default()).unwrap();
    let mut screen = fresh_screen();
    show(&mut control, &mut screen, 730);
    show(&mut control, &mut screen, 0);

    let mut other = ControlLoop::new(LoopConfig::default()).unwrap();
    let mut only_zero = fresh_screen();
    show(&mut other, &mut only_zero, 0);

    for y in 0..64 {
        for x in 0..64 {
            assert_eq!(lit(&screen, x, y), lit(&only_zero, x, y), "at ({}, {})", x, y);
        }
    }
}

/// A bus that takes a number of writes and then fails.
struct FailingBus {
    writes_left: usize,
}

impl Write for FailingBus {
    type Error = ();

    fn write(&mut self, _address: u8, _bytes: &[u8]) -> Result<(), ()> {
        if self.writes_left == 0 {
            Err(())
        } else {
            self.writes_left -= 1;
            Ok(())
        }
    }
}

/// Runs iterations of the loop against an SSD1306 on `bus` until the loop
/// halts or `iterations` are over; gives the registers written and the error
/// of the halt.
fn run_on_driver<B: Write>(bus: B, iterations: usize) -> (Vec<PwmRegisters>, Option<DisplayError>) {
    let interface = I2CDisplayInterface::new(bus);
    let mut display = Ssd1306::new(interface, DisplaySize128x32, DisplayRotation::Rotate0)
        .into_buffered_graphics_mode();
    display.init().unwrap();

    let mut control = ControlLoop::new(LoopConfig::default()).unwrap();
    let mut written = Vec::new();
    let mut samples = 0;
    loop {
        let event = match control.next_action() {
            Action::ReadSample => {
                if samples == iterations {
                    return (written, None);
                }
                samples += 1;
                Event::Sample(365)
            }
            Action::Display(DisplayOp::Flush) => match display.flush() {
                Ok(()) => Event::Done,
                Err(_) => Event::DisplayFailed,
            },
            Action::Display(op) => match draw(&mut display, op) {
                Ok(()) => Event::Done,
                Err(_) => Event::DisplayFailed,
            },
            Action::WritePwm(registers) => {
                written.push(registers);
                Event::Done
            }
            Action::ToggleIndicator | Action::Delay(_) => Event::Done,
            Action::Halt(error) => return (written, Some(error)),
        };
        control.on_event(event);
    }
}

#[test]
fn loop_runs_on_the_driver() {
    let (written, halted) = run_on_driver(I2cStub, 3);
    assert_eq!(halted, None);
    assert_eq!(written, vec![PwmRegisters { compare: 127, mode: PwmMode::Active }; 3]);
}

#[test]
fn failed_commit_on_the_driver_halts_the_loop() {
    // enough writes for the set-up of the display, none for the first frame
    let mut needed = 0;
    loop {
        let interface = I2CDisplayInterface::new(FailingBus { writes_left: needed });
        let mut display = Ssd1306::new(interface, DisplaySize128x32, DisplayRotation::Rotate0)
            .into_buffered_graphics_mode();
        if display.init().is_ok() {
            break;
        }
        needed += 1;
        assert!(needed < 10_000);
    }
    let (written, halted) = run_on_driver(FailingBus { writes_left: needed }, 3);
    assert_eq!(halted, Some(DisplayError::FlushFailed));
    assert_eq!(written, vec![]);
}
