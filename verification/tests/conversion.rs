use std::cell::RefCell;

use ndotter::error::NdotterError;
use ndotter::geometry::{map_pixel, DotGeometry, Length};
use ndotter::grid::PixelGrid;
use ndotter::pipeline::{convert, ndot, progress_percent, ConversionConfig};
use ndotter::pixel::{is_included, luminance_of, rgba_to_bw, BrightnessClass, PixelSample};

const WHITE: PixelSample = PixelSample { red: 255, green: 255, blue: 255, alpha: 255 };
const BLACK: PixelSample = PixelSample { red: 0, green: 0, blue: 0, alpha: 255 };

fn sample(red: u8, green: u8, blue: u8) -> PixelSample {
    PixelSample { red, green, blue, alpha: 255 }
}

fn as_real(length: Length) -> f64 {
    length.whole as f64 + if length.half { 0.5 } else { 0.0 }
}

fn quiet(_percent: u32) {}

#[test]
fn single_white_pixel_yields_one_dot() {
    let grid = PixelGrid::new(1, 1, vec![WHITE]).unwrap();
    let document = ndot(&grid, false, 4, quiet).unwrap();
    assert_eq!(document.canvas_width(), 4);
    assert_eq!(document.canvas_height(), 4);
    assert_eq!(document.dots().len(), 1);
    let dot = document.dots()[0];
    assert_eq!(as_real(dot.center_x), 2.0);
    assert_eq!(as_real(dot.center_y), 2.0);
    assert_eq!(as_real(dot.radius), 2.0);
}

#[test]
fn single_black_pixel_yields_a_dot_only_when_inverted() {
    let grid = PixelGrid::new(1, 1, vec![BLACK]).unwrap();
    let plain = ndot(&grid, false, 10, quiet).unwrap();
    assert_eq!(plain.dots().len(), 0);
    let inverted = ndot(&grid, true, 10, quiet).unwrap();
    assert_eq!(inverted.dots().len(), 1);
    assert_eq!(as_real(inverted.dots()[0].center_x), 5.0);
    assert_eq!(as_real(inverted.dots()[0].center_y), 5.0);
    assert_eq!(as_real(inverted.dots()[0].radius), 5.0);
}

#[test]
fn luminance_at_the_midpoint_is_dark() {
    let midpoint = sample(128, 128, 128);
    assert_eq!(luminance_of(midpoint), 128_000);
    assert_eq!(rgba_to_bw(midpoint), BrightnessClass::Dark);
    let grid = PixelGrid::new(1, 1, vec![midpoint]).unwrap();
    assert_eq!(ndot(&grid, false, 2, quiet).unwrap().dots().len(), 0);
    assert_eq!(ndot(&grid, true, 2, quiet).unwrap().dots().len(), 1);
}

#[test]
fn luminance_just_above_the_midpoint_is_light() {
    assert_eq!(luminance_of(sample(128, 128, 129)), 128_114);
    assert_eq!(rgba_to_bw(sample(128, 128, 129)), BrightnessClass::Light);
    assert_eq!(luminance_of(sample(128, 128, 127)), 127_886);
    assert_eq!(rgba_to_bw(sample(128, 128, 127)), BrightnessClass::Dark);
}

#[test]
fn luminance_weighs_the_channels() {
    assert_eq!(luminance_of(sample(255, 0, 0)), 76_245);
    assert_eq!(luminance_of(sample(0, 255, 0)), 149_685);
    assert_eq!(luminance_of(sample(0, 0, 255)), 29_070);
    assert_eq!(luminance_of(WHITE), 255_000);
    assert_eq!(rgba_to_bw(sample(255, 0, 0)), BrightnessClass::Dark);
    assert_eq!(rgba_to_bw(sample(0, 255, 0)), BrightnessClass::Light);
    assert_eq!(rgba_to_bw(sample(0, 0, 255)), BrightnessClass::Dark);
}

#[test]
fn alpha_takes_no_part_in_the_class() {
    for alpha in [0u8, 1, 127, 255] {
        let light = PixelSample { red: 200, green: 200, blue: 200, alpha };
        let dark = PixelSample { red: 20, green: 20, blue: 20, alpha };
        assert_eq!(rgba_to_bw(light), BrightnessClass::Light);
        assert_eq!(rgba_to_bw(dark), BrightnessClass::Dark);
    }
}

#[test]
fn inclusion_policy_selects_one_class() {
    assert!(is_included(BrightnessClass::Light, false));
    assert!(!is_included(BrightnessClass::Dark, false));
    assert!(!is_included(BrightnessClass::Light, true));
    assert!(is_included(BrightnessClass::Dark, true));
}

#[test]
fn zero_dot_size_is_refused() {
    let grid = PixelGrid::new(2, 1, vec![WHITE, BLACK]).unwrap();
    let calls = RefCell::new(0u32);
    let outcome = ndot(&grid, false, 0, |_percent: u32| *calls.borrow_mut() += 1);
    assert_eq!(outcome, Err(NdotterError::ZeroDotSize));
    assert_eq!(*calls.borrow(), 0);
    assert_eq!(ndot(&grid, true, 0, quiet), Err(NdotterError::ZeroDotSize));
    let config = ConversionConfig { dot_size: 0, inverted: false, source_dimensions: (2, 1) };
    assert_eq!(convert(&grid, &config), Err(NdotterError::ZeroDotSize));
}

#[test]
fn configuration_is_validated_when_made() {
    assert_eq!(ConversionConfig::new(0, true, (3, 4)), Err(NdotterError::ZeroDotSize));
    assert_eq!(
        ConversionConfig::new(1, true, (3, 4)),
        Ok(ConversionConfig { dot_size: 1, inverted: true, source_dimensions: (3, 4) })
    );
}

#[test]
fn canvas_is_the_source_scaled_by_the_dot_size() {
    let grid = PixelGrid::new(3, 2, vec![BLACK; 6]).unwrap();
    let document = ndot(&grid, false, 5, quiet).unwrap();
    assert_eq!((document.canvas_width(), document.canvas_height()), (15, 10));
    let config = ConversionConfig::new(7, false, (3, 2)).unwrap();
    let document = convert(&grid, &config).unwrap();
    assert_eq!((document.canvas_width(), document.canvas_height()), (21, 14));
}

#[test]
fn canvas_of_the_widest_source_does_not_overflow() {
    let grid = PixelGrid::new(u32::MAX, 0, Vec::new()).unwrap();
    let document = ndot(&grid, false, u32::MAX, quiet).unwrap();
    assert_eq!(document.canvas_width(), 18_446_744_065_119_617_025);
    assert_eq!(document.canvas_height(), 0);
    assert_eq!(document.dots().len(), 0);
}

#[test]
fn empty_source_yields_an_empty_document() {
    let grid = PixelGrid::new(0, 0, Vec::new()).unwrap();
    let document = ndot(&grid, true, 3, quiet).unwrap();
    assert_eq!((document.canvas_width(), document.canvas_height()), (0, 0));
    assert!(document.dots().is_empty());
}

#[test]
fn dots_stand_in_row_major_order() {
    // W B W
    // B W W
    let grid = PixelGrid::new(3, 2, vec![WHITE, BLACK, WHITE, BLACK, WHITE, WHITE]).unwrap();
    let document = ndot(&grid, false, 2, quiet).unwrap();
    let centers: Vec<(f64, f64)> = document
        .dots()
        .iter()
        .map(|dot| (as_real(dot.center_x), as_real(dot.center_y)))
        .collect();
    assert_eq!(centers, vec![(1.0, 1.0), (5.0, 1.0), (3.0, 3.0), (5.0, 3.0)]);
    let inverted = ndot(&grid, true, 2, quiet).unwrap();
    let centers: Vec<(f64, f64)> = inverted
        .dots()
        .iter()
        .map(|dot| (as_real(dot.center_x), as_real(dot.center_y)))
        .collect();
    assert_eq!(centers, vec![(3.0, 1.0), (1.0, 3.0)]);
}

#[test]
fn inverting_gives_the_complement() {
    let pixels: Vec<PixelSample> = (0..=255u8).map(|level| sample(level, level, level)).collect();
    let grid = PixelGrid::new(16, 16, pixels).unwrap();
    let plain = ndot(&grid, false, 3, quiet).unwrap();
    let inverted = ndot(&grid, true, 3, quiet).unwrap();
    assert_eq!(plain.dots().len(), 127);
    assert_eq!(inverted.dots().len(), 129);
    assert_eq!(plain.dots().len() + inverted.dots().len(), 16 * 16);
    for dot in plain.dots() {
        assert!(!inverted.dots().contains(dot));
    }
}

#[test]
fn conversion_is_repeatable() {
    let grid = PixelGrid::new(2, 2, vec![WHITE, BLACK, BLACK, WHITE]).unwrap();
    let first = ndot(&grid, false, 9, quiet);
    let second = ndot(&grid, false, 9, quiet);
    assert_eq!(first, second);
    let config = ConversionConfig::new(9, false, (2, 2)).unwrap();
    assert_eq!(convert(&grid, &config), first);
}

#[test]
fn dot_of_size_one_has_half_a_unit_of_radius() {
    let dot = map_pixel(0, 0, 1);
    assert_eq!(
        dot,
        DotGeometry {
            center_x: Length { whole: 0, half: true },
            center_y: Length { whole: 0, half: true },
            radius: Length { whole: 0, half: true },
        }
    );
    assert_eq!(as_real(dot.radius), 0.5);
    let dot = map_pixel(7, 2, 1);
    assert_eq!((as_real(dot.center_x), as_real(dot.center_y)), (7.5, 2.5));
}

#[test]
fn dot_geometry_follows_the_formula() {
    let dot = map_pixel(2, 5, 3);
    assert_eq!(
        (as_real(dot.center_x), as_real(dot.center_y), as_real(dot.radius)),
        (7.5, 16.5, 1.5)
    );
    let dot = map_pixel(2, 5, 10);
    assert_eq!(
        (as_real(dot.center_x), as_real(dot.center_y), as_real(dot.radius)),
        (25.0, 55.0, 5.0)
    );
    let dot = map_pixel(u32::MAX, 0, u32::MAX);
    assert_eq!(dot.center_x, Length { whole: 18_446_744_067_267_100_672, half: true });
    assert_eq!(dot.radius, Length { whole: 2_147_483_647, half: true });
}

#[test]
fn progress_is_reported_after_every_pixel() {
    let grid = PixelGrid::new(2, 2, vec![WHITE, BLACK, BLACK, WHITE]).unwrap();
    let seen = RefCell::new(Vec::new());
    let document = ndot(&grid, false, 4, |percent: u32| seen.borrow_mut().push(percent)).unwrap();
    assert_eq!(*seen.borrow(), vec![0, 25, 50, 75]);
    assert_eq!(Ok(document), ndot(&grid, false, 4, quiet));
}

#[test]
fn progress_is_rounded_up() {
    assert_eq!(progress_percent(0, 3), 0);
    assert_eq!(progress_percent(1, 3), 34);
    assert_eq!(progress_percent(2, 3), 67);
    assert_eq!(progress_percent(0, 1), 0);
    assert_eq!(progress_percent(199, 200), 100);
    assert_eq!(progress_percent(usize::MAX - 1, usize::MAX), 100);
}

#[test]
fn grid_needs_one_sample_per_position() {
    assert!(PixelGrid::new(2, 2, vec![WHITE; 3]).is_none());
    assert!(PixelGrid::new(2, 2, vec![WHITE; 5]).is_none());
    assert!(PixelGrid::new(0, 5, vec![WHITE]).is_none());
    let pixels = vec![WHITE, BLACK, BLACK, BLACK, BLACK, sample(1, 2, 3)];
    let grid = PixelGrid::new(2, 3, pixels).unwrap();
    assert_eq!((grid.width(), grid.height(), grid.len()), (2, 3, 6));
    assert_eq!(grid.pixel(0, 0), Some(WHITE));
    assert_eq!(grid.pixel(1, 2), Some(sample(1, 2, 3)));
    assert_eq!(grid.pixel(2, 0), None);
    assert_eq!(grid.pixel(0, 3), None);
    assert_eq!(grid.get(5), Some(sample(1, 2, 3)));
    assert_eq!(grid.get(6), None);
}

#[test]
fn errors_say_what_failed_and_how_badly() {
    assert_eq!(NdotterError::ZeroDotSize.message(), "Dot size must not be 0");
    assert!(NdotterError::ZeroDotSize.is_fatal());
    assert_eq!(NdotterError::ZeroDotSize.detail(), None);
    let decode = NdotterError::ImageDecodeError("bad header".to_string());
    assert_eq!(decode.message(), "Cannot load image");
    assert!(decode.is_fatal());
    assert_eq!(decode.detail(), Some(&"bad header".to_string()));
    let write = NdotterError::DocumentWriteError("disk full".to_string());
    assert_eq!(write.message(), "Cannot write document");
    assert!(write.is_fatal());
    let open = NdotterError::PostProcessError("no viewer".to_string());
    assert_eq!(open.message(), "Cannot open document");
    assert!(!open.is_fatal());
    assert_eq!(open.detail(), Some(&"no viewer".to_string()));
}
