use rakugaki::{
    bitmap_to_ascii, compute_raster_size, encode, font_or_error, line_to_string, map_intensity,
    render, render_char, render_char_with_aspect_ratio, render_char_with_mode, render_lines,
    sample, AspectRatio, CharacterSet, ColorMode, DisplayCell, Foreground, RasterSize,
    RenderError, RenderMode,
};

const RAMP: &str = " .'`^\",:;Il!i><~+_-?][}{1)(|\\/tfjrxnuvczXYUJCLQ0OZmwqpdbkhao*#MW&8%B@$";

fn ratio(numer: u64, denom: u64) -> AspectRatio {
    AspectRatio::new(numer, denom).unwrap()
}

fn all_modes() -> Vec<RenderMode> {
    let mut modes = Vec::new();
    for charset in [CharacterSet::Density, CharacterSet::Blocks] {
        for colors in [ColorMode::Plain, ColorMode::Ansi256, ColorMode::AnsiTruecolor] {
            modes.push(RenderMode::new(charset, colors));
        }
    }
    modes
}

fn parse(data: &[u8]) -> Result<fontdue::Font, RenderError> {
    font_or_error(fontdue::Font::from_bytes(data, fontdue::FontSettings::default()))
}

fn diagonal() -> Vec<u8> {
    vec![255, 0, 0, 255]
}

#[test]
fn test_bitmap_to_ascii_empty() {
    let result = bitmap_to_ascii(&[], 0, 0, 5, 3, ratio(2, 1)).unwrap();
    assert_eq!(result.len(), 3);
    assert_eq!(result[0], "     ");
}

#[test]
fn test_bitmap_to_ascii_simple() {
    // 2x2 bitmap with a simple pattern (assuming square cells for simplicity)
    let bitmap = vec![255, 0, 0, 255];
    let result = bitmap_to_ascii(&bitmap, 2, 2, 2, 2, ratio(1, 1)).unwrap();
    assert_eq!(result.len(), 2);
    assert_eq!(result[0], "# ");
    assert_eq!(result[1], " #");
}

#[test]
fn bitmap_to_ascii_serves_an_empty_grid() {
    assert_eq!(bitmap_to_ascii(&diagonal(), 2, 2, 3, 0, ratio(2, 1)), Ok(vec![]));
    assert_eq!(
        bitmap_to_ascii(&diagonal(), 2, 2, 0, 2, ratio(2, 1)),
        Ok(vec![String::new(), String::new()])
    );
}

#[test]
fn grid_has_the_requested_dimensions() {
    let bitmap: Vec<u8> = (0..35u32).map(|i| (i * 7 % 256) as u8).collect();
    for (width, height) in [(1usize, 1usize), (5, 3), (7, 5), (30, 30), (2, 41)] {
        for aspect in [ratio(1, 1), ratio(2, 1), ratio(167, 100), ratio(1, 3)] {
            for mode in all_modes() {
                let grid = render(&bitmap, 7, 5, width, height, aspect, mode).unwrap();
                assert_eq!(grid.len(), height);
                for line in &grid {
                    assert_eq!(line.len(), width);
                }
            }
            let samples = sample(&bitmap, 7, 5, width, height, aspect);
            assert_eq!(samples.len(), height);
            assert!(samples.iter().all(|line| line.len() == width));
            let lines = render_char_with_aspect_ratio(&bitmap, 7, 5, width, height, aspect)
                .unwrap();
            assert_eq!(lines.len(), height);
            assert!(lines.iter().all(|line| line.chars().count() == width));
        }
    }
}

#[test]
fn empty_bitmap_renders_blank_cells() {
    for mode in all_modes() {
        let grid = render(&[], 0, 0, 4, 2, ratio(2, 1), mode).unwrap();
        let color = match mode.colors {
            ColorMode::Plain => None,
            ColorMode::Ansi256 => Some(Foreground::Palette(232)),
            ColorMode::AnsiTruecolor => Some(Foreground::Rgb(0, 0, 0)),
        };
        assert_eq!(grid.len(), 2);
        for line in &grid {
            assert_eq!(line, &vec![DisplayCell { ch: ' ', color }; 4]);
        }
    }
}

#[test]
fn bitmap_without_rows_or_columns_is_blank() {
    let pixels = vec![255u8; 4];
    assert_eq!(sample(&pixels, 0, 2, 2, 2, ratio(1, 1)), vec![vec![0, 0], vec![0, 0]]);
    assert_eq!(sample(&pixels, 2, 0, 2, 2, ratio(1, 1)), vec![vec![0, 0], vec![0, 0]]);
}

#[test]
fn empty_bitmap_five_by_three_is_three_blank_lines() {
    let blank = vec!["     ".to_string(); 3];
    assert_eq!(render_char(&[], 0, 0, 5, 3), Ok(blank.clone()));
    assert_eq!(bitmap_to_ascii(&[], 0, 0, 5, 3, ratio(2, 1)), Ok(blank.clone()));
    let blocks = RenderMode::new(CharacterSet::Blocks, ColorMode::Plain);
    assert_eq!(render_lines(&[], 0, 0, 5, 3, ratio(2, 1), blocks), Ok(blank.clone()));
    assert_eq!(render_char_with_mode(&[], 0, 0, 5, 3, RenderMode::default()), Ok(blank));
}

#[test]
fn ramp_index_never_decreases() {
    let position = |intensity: u8| {
        let ch = map_intensity(intensity, CharacterSet::Density);
        RAMP.chars().position(|c| c == ch).unwrap()
    };
    for low in 0..=255u8 {
        assert_eq!(position(low), low as usize * 69 / 255);
        for high in low..=255u8 {
            assert!(position(low) <= position(high));
        }
    }
}

#[test]
fn ramp_has_seventy_distinct_entries() {
    assert_eq!(RAMP.chars().count(), 70);
    for (i, a) in RAMP.chars().enumerate() {
        assert!(RAMP.chars().skip(i + 1).all(|b| a != b));
    }
}

#[test]
fn density_maps_the_extremes_to_the_ends_of_the_ramp() {
    assert_eq!(map_intensity(0, CharacterSet::Density), ' ');
    assert_eq!(map_intensity(255, CharacterSet::Density), '$');
    assert_eq!(map_intensity(3, CharacterSet::Density), ' ');
    assert_eq!(map_intensity(4, CharacterSet::Density), '.');
    assert_eq!(map_intensity(128, CharacterSet::Density), 'x');
    assert_eq!(map_intensity(254, CharacterSet::Density), '@');
}

#[test]
fn blocks_threshold_is_strict() {
    assert_eq!(map_intensity(0, CharacterSet::Blocks), ' ');
    assert_eq!(map_intensity(128, CharacterSet::Blocks), ' ');
    assert_eq!(map_intensity(129, CharacterSet::Blocks), '#');
    assert_eq!(map_intensity(255, CharacterSet::Blocks), '#');
}

#[test]
fn encode_derives_the_colour_from_the_intensity() {
    assert_eq!(encode('x', 77, ColorMode::Plain), DisplayCell { ch: 'x', color: None });
    let palette = |intensity: u8| encode('x', intensity, ColorMode::Ansi256).color;
    assert_eq!(palette(0), Some(Foreground::Palette(232)));
    assert_eq!(palette(11), Some(Foreground::Palette(232)));
    assert_eq!(palette(12), Some(Foreground::Palette(233)));
    assert_eq!(palette(128), Some(Foreground::Palette(243)));
    assert_eq!(palette(254), Some(Foreground::Palette(254)));
    assert_eq!(palette(255), Some(Foreground::Palette(255)));
    assert_eq!(
        encode('x', 77, ColorMode::AnsiTruecolor),
        DisplayCell { ch: 'x', color: Some(Foreground::Rgb(77, 77, 77)) }
    );
}

#[test]
fn colour_never_changes_the_character() {
    let bitmap: Vec<u8> = (0..=255u8).collect();
    for charset in [CharacterSet::Density, CharacterSet::Blocks] {
        let plain = render(&bitmap, 16, 16, 9, 6, ratio(2, 1), RenderMode::new(charset, ColorMode::Plain))
            .unwrap();
        for colors in [ColorMode::Ansi256, ColorMode::AnsiTruecolor] {
            let tinted = render(&bitmap, 16, 16, 9, 6, ratio(2, 1), RenderMode::new(charset, colors))
                .unwrap();
            for (a, b) in plain.iter().flatten().zip(tinted.iter().flatten()) {
                assert_eq!(a.ch, b.ch);
                assert!(b.color.is_some());
            }
        }
    }
    for intensity in 0..=255u8 {
        for colors in [ColorMode::Plain, ColorMode::Ansi256, ColorMode::AnsiTruecolor] {
            assert_eq!(encode('q', intensity, colors).ch, 'q');
        }
    }
}

#[test]
fn identical_inputs_give_identical_output() {
    let bitmap: Vec<u8> = (0..48u32).map(|i| (i * 37 % 256) as u8).collect();
    for mode in all_modes() {
        let first = render_lines(&bitmap, 8, 6, 11, 7, ratio(167, 100), mode);
        let second = render_lines(&bitmap, 8, 6, 11, 7, ratio(167, 100), mode);
        assert_eq!(first, second);
        assert_eq!(
            render(&bitmap, 8, 6, 11, 7, ratio(167, 100), mode),
            render(&bitmap, 8, 6, 11, 7, ratio(167, 100), mode)
        );
    }
}

#[test]
fn diagonal_survives_under_blocks() {
    let mode = RenderMode::new(CharacterSet::Blocks, ColorMode::Plain);
    let lines = render_lines(&diagonal(), 2, 2, 2, 2, ratio(1, 1), mode).unwrap();
    assert_eq!(lines, vec!["# ".to_string(), " #".to_string()]);
}

#[test]
fn diagonal_under_density_uses_both_ends_of_the_ramp() {
    let lines = render_char_with_aspect_ratio(&diagonal(), 2, 2, 2, 2, ratio(1, 1)).unwrap();
    assert_eq!(lines, vec!["$ ".to_string(), " $".to_string()]);
    assert_eq!(RAMP.chars().last(), Some('$'));
    assert_eq!(RAMP.chars().next(), Some(' '));
    assert_eq!(render_char(&diagonal(), 2, 2, 2, 2).unwrap(), lines);
}

#[test]
fn raster_size_differs_between_aspect_ratios() {
    let modern = compute_raster_size(30, 30, ratio(167, 100)).unwrap();
    let classic = compute_raster_size(30, 30, ratio(2, 1)).unwrap();
    assert_eq!(modern, RasterSize { numer: 5010, denom: 100 });
    assert_eq!(classic, RasterSize { numer: 60, denom: 1 });
    let modern = modern.numer as f64 / modern.denom as f64;
    let classic = classic.numer as f64 / classic.denom as f64;
    assert!((modern - 50.1).abs() < 1e-9);
    assert_eq!(classic, 60.0);
    assert_ne!(modern, classic);
}

#[test]
fn raster_size_is_the_larger_physical_dimension() {
    assert_eq!(
        compute_raster_size(100, 10, ratio(2, 1)),
        Ok(RasterSize { numer: 100, denom: 1 })
    );
    assert_eq!(compute_raster_size(20, 10, ratio(2, 1)), Ok(RasterSize { numer: 20, denom: 1 }));
    assert_eq!(compute_raster_size(10, 10, ratio(5, 4)), Ok(RasterSize { numer: 50, denom: 4 }));
    assert_eq!(compute_raster_size(10, 4, ratio(1, 2)), Ok(RasterSize { numer: 20, denom: 2 }));
    assert_eq!(
        compute_raster_size(usize::MAX, 1, ratio(1, u64::MAX)),
        Ok(RasterSize { numer: usize::MAX as u128 * u64::MAX as u128, denom: u64::MAX })
    );
}

#[test]
fn dimensions_that_are_not_positive_are_refused() {
    assert_eq!(compute_raster_size(0, 5, ratio(2, 1)), Err(RenderError::InvalidDimension));
    assert_eq!(compute_raster_size(5, 0, ratio(2, 1)), Err(RenderError::InvalidDimension));
    assert_eq!(AspectRatio::new(0, 1), Err(RenderError::InvalidDimension));
    assert_eq!(AspectRatio::new(1, 0), Err(RenderError::InvalidDimension));
    let mode = RenderMode::default();
    assert_eq!(render(&diagonal(), 2, 2, 0, 2, ratio(2, 1), mode), Err(RenderError::InvalidDimension));
    assert_eq!(render(&diagonal(), 2, 2, 2, 0, ratio(2, 1), mode), Err(RenderError::InvalidDimension));
    assert_eq!(render_lines(&[], 0, 0, 0, 0, ratio(2, 1), mode), Err(RenderError::InvalidDimension));
    assert_eq!(render_char(&diagonal(), 2, 2, 0, 3), Err(RenderError::InvalidDimension));
    assert_eq!(
        render_char_with_aspect_ratio(&diagonal(), 2, 2, 3, 0, ratio(1, 1)),
        Err(RenderError::InvalidDimension)
    );
    assert_eq!(render_char_with_mode(&diagonal(), 2, 2, 0, 0, mode), Err(RenderError::InvalidDimension));
}

#[test]
fn aspect_ratio_keeps_its_parts() {
    let aspect = ratio(167, 100);
    assert_eq!(aspect.numer(), 167);
    assert_eq!(aspect.denom(), 100);
    assert_eq!(AspectRatio::standard(), ratio(2, 1));
    assert_eq!(AspectRatio::default(), AspectRatio::standard());
    assert_eq!(RenderMode::default(), RenderMode::new(CharacterSet::Density, ColorMode::Plain));
}

#[test]
fn sampling_picks_the_nearest_pixel_above_and_left() {
    let bitmap: Vec<u8> = (0..16u8).collect();
    assert_eq!(sample(&bitmap, 4, 4, 2, 2, ratio(2, 1)), vec![vec![0, 2], vec![8, 10]]);
    assert_eq!(
        sample(&bitmap, 4, 4, 3, 3, ratio(1, 1)),
        vec![vec![0, 1, 2], vec![4, 5, 6], vec![8, 9, 10]]
    );
    assert_eq!(
        sample(&bitmap, 4, 4, 8, 1, ratio(2, 1)),
        vec![vec![0, 0, 1, 1, 2, 2, 3, 3]]
    );
}

#[test]
fn sampled_rows_do_not_depend_on_the_ratio() {
    let bitmap: Vec<u8> = (0..=255u8).collect();
    let square = sample(&bitmap, 16, 16, 7, 5, ratio(1, 1));
    for aspect in [ratio(2, 1), ratio(167, 100), ratio(1, 7), ratio(u64::MAX, 3)] {
        assert_eq!(sample(&bitmap, 16, 16, 7, 5, aspect), square);
    }
    assert_eq!(square[3], vec![144, 146, 148, 150, 153, 155, 157]);
}

#[test]
fn pixels_outside_the_buffer_read_as_zero() {
    let short = vec![200u8, 201];
    assert_eq!(sample(&short, 2, 2, 2, 2, ratio(1, 1)), vec![vec![200, 201], vec![0, 0]]);
    assert_eq!(
        sample(&short, usize::MAX, usize::MAX, 2, 2, ratio(1, 1)),
        vec![vec![200, 0], vec![0, 0]]
    );
}

#[test]
fn coloured_cells_are_wrapped_in_escape_sequences() {
    let cells = vec![
        DisplayCell { ch: '#', color: Some(Foreground::Palette(243)) },
        DisplayCell { ch: ' ', color: None },
        DisplayCell { ch: 'X', color: Some(Foreground::Rgb(7, 42, 255)) },
        DisplayCell { ch: 'o', color: Some(Foreground::Palette(0)) },
        DisplayCell { ch: 'あ', color: Some(Foreground::Rgb(100, 10, 0)) },
    ];
    assert_eq!(
        line_to_string(&cells),
        "\x1b[38;5;243m#\x1b[0m \x1b[38;2;7;42;255mX\x1b[0m\x1b[38;5;0mo\x1b[0m\x1b[38;2;100;10;0mあ\x1b[0m"
    );
    assert_eq!(line_to_string(&Vec::new()), "");
}

#[test]
fn rendered_lines_carry_the_colour_of_each_cell() {
    let gray = RenderMode::new(CharacterSet::Blocks, ColorMode::Ansi256);
    assert_eq!(
        render_lines(&diagonal(), 2, 2, 2, 2, ratio(1, 1), gray),
        Ok(vec![
            "\x1b[38;5;255m#\x1b[0m\x1b[38;5;232m \x1b[0m".to_string(),
            "\x1b[38;5;232m \x1b[0m\x1b[38;5;255m#\x1b[0m".to_string(),
        ])
    );
    let full = RenderMode::new(CharacterSet::Density, ColorMode::AnsiTruecolor);
    assert_eq!(
        render_char_with_mode(&[128], 1, 1, 1, 1, full),
        Ok(vec!["\x1b[38;2;128;128;128mx\x1b[0m".to_string()])
    );
}

#[test]
fn malformed_font_data_is_a_parse_error() {
    for data in [&[][..], &b"not a font"[..], &[0u8; 64][..]] {
        match parse(data) {
            Err(RenderError::Parse(message)) => {
                assert!(message.starts_with("Failed to parse font: "));
                assert!(message.len() > "Failed to parse font: ".len());
            }
            other => panic!("expected a parse error, got {:?}", other.map(|_| "a font")),
        }
    }
    assert_eq!(
        font_or_error(Err("no glyphs")).err(),
        Some(RenderError::Parse("Failed to parse font: no glyphs".to_string()))
    );
}

#[test]
fn errors_have_a_message() {
    assert_eq!(
        RenderError::InvalidDimension.message(),
        "width, height and aspect ratio must be positive"
    );
    assert_eq!(RenderError::Io("Failed to read font: gone".to_string()).message(), "Failed to read font: gone");
    assert_eq!(RenderError::Parse("Failed to parse font: bad".to_string()).message(), "Failed to parse font: bad");
}

#[test]
fn parser_reason_is_carried_in_the_message() {
    let unknown = "Failed to parse font: Face data must start with 0x00010000, 0x74727565, 0x4F54544F or 0x74746366.";
    assert_eq!(parse(b"not a font").err(), Some(RenderError::Parse(unknown.to_string())));
    assert_eq!(parse(&[]).err(), Some(RenderError::Parse(unknown.to_string())));
    let truncated = "Failed to parse font: An attempt to read out of bounds detected.";
    assert_eq!(
        parse(&[0x00, 0x01, 0x00, 0x00]).err(),
        Some(RenderError::Parse(truncated.to_string()))
    );
}

#[test]
fn plain_entry_points_render_in_the_default_mode() {
    let bitmap: Vec<u8> = (0..=255u8).collect();
    let mode = RenderMode::default();
    assert_eq!(
        render_char_with_aspect_ratio(&bitmap, 16, 16, 9, 6, ratio(5, 4)),
        render_lines(&bitmap, 16, 16, 9, 6, ratio(5, 4), mode)
    );
    assert_eq!(
        render_char(&bitmap, 16, 16, 9, 6),
        render_lines(&bitmap, 16, 16, 9, 6, AspectRatio::standard(), mode)
    );
}

#[test]
fn bitmap_at_its_own_size_is_drawn_pixel_by_pixel() {
    let bitmap: Vec<u8> = (0..12u32).map(|i| (i * 23) as u8).collect();
    assert_eq!(
        sample(&bitmap, 4, 3, 4, 3, ratio(167, 100)),
        vec![bitmap[0..4].to_vec(), bitmap[4..8].to_vec(), bitmap[8..12].to_vec()]
    );
    let lines = render_char_with_aspect_ratio(&bitmap, 4, 3, 4, 3, ratio(167, 100)).unwrap();
    for (row, line) in lines.iter().enumerate() {
        for (col, ch) in line.chars().enumerate() {
            assert_eq!(ch, map_intensity(bitmap[row * 4 + col], CharacterSet::Density));
        }
    }
}
