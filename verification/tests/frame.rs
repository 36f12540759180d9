use waveform::frame::draw_frame;
use waveform::geometry::{CanvasDimensions, Dyadic, PixelPoint, Ratio};
use waveform::projector::project;
use waveform::renderer::{render, Color, DrawCommand};
use waveform::sampler::{FrameSampler, SampleError};

fn capture_of(values: &[f32]) -> Vec<u32> {
    values.iter().map(|value| value.to_bits()).collect()
}

fn place(command: &DrawCommand) -> Option<(f64, f64)> {
    match command {
        DrawCommand::MoveTo(point) | DrawCommand::LineTo(point) => Some((
            point.x.numerator as f64 / point.x.denominator as f64,
            point.y.mantissa as f64 * 2f64.powi(point.y.exponent),
        )),
        _ => None,
    }
}

#[test]
fn frame_of_four_samples() {
    let mut sampler = FrameSampler::new(4).unwrap();
    let dims = CanvasDimensions { width: 400, height: 100 };
    let commands = draw_frame(&mut sampler, &capture_of(&[0.0, 64.0, -64.0, 0.0]), dims).unwrap();
    assert_eq!(commands.len(), 9);
    assert_eq!(
        commands[0],
        DrawCommand::Fill { color: Color { red: 200, green: 200, blue: 200 }, width: 400, height: 100 }
    );
    assert_eq!(
        commands[1],
        DrawCommand::SetStroke { width: 2, color: Color { red: 0, green: 0, blue: 0 } }
    );
    assert_eq!(commands[2], DrawCommand::BeginPath);
    assert!(matches!(commands[3], DrawCommand::MoveTo(_)));
    for command in &commands[4..8] {
        assert!(matches!(command, DrawCommand::LineTo(_)));
    }
    assert_eq!(commands[8], DrawCommand::Stroke);
    let places: Vec<(f64, f64)> = commands.iter().filter_map(place).collect();
    assert_eq!(
        places,
        vec![(0.0, 0.0), (100.0, 25.0), (200.0, -25.0), (300.0, 0.0), (400.0, 50.0)]
    );
    assert_eq!(
        commands[4],
        DrawCommand::LineTo(PixelPoint {
            x: Ratio { numerator: 400, denominator: 4 },
            y: Dyadic { mantissa: 0x80_0000 * 100, exponent: -25 },
        })
    );
}

#[test]
fn frame_is_sample_then_project_then_render() {
    let capture = capture_of(&[0.5, -0.5, 0.25, -0.25, 1.0, -1.0, 0.0, 0.125]);
    let dims = CanvasDimensions { width: 1920, height: 1080 };
    let mut sampler = FrameSampler::new(8).unwrap();
    let commands = draw_frame(&mut sampler, &capture, dims).unwrap();
    let mut other = FrameSampler::new(8).unwrap();
    other.sample(&capture).unwrap();
    assert_eq!(sampler.buffer(), other.buffer());
    assert_eq!(commands, render(&project(other.buffer(), dims), dims));
}

#[test]
fn same_capture_gives_the_same_frame() {
    let capture = capture_of(&[0.5, -0.5, 0.25, -0.25]);
    let dims = CanvasDimensions { width: 300, height: 150 };
    let mut sampler = FrameSampler::new(4).unwrap();
    let first = draw_frame(&mut sampler, &capture, dims).unwrap();
    let second = draw_frame(&mut sampler, &capture, dims).unwrap();
    assert_eq!(first, second);
}

#[test]
fn canvas_may_change_between_frames() {
    let capture = capture_of(&[64.0, 64.0]);
    let mut sampler = FrameSampler::new(2).unwrap();
    let small = draw_frame(&mut sampler, &capture, CanvasDimensions { width: 10, height: 10 });
    let large = draw_frame(&mut sampler, &capture, CanvasDimensions { width: 20, height: 40 });
    let small: Vec<(f64, f64)> = small.unwrap().iter().filter_map(place).collect();
    let large: Vec<(f64, f64)> = large.unwrap().iter().filter_map(place).collect();
    assert_eq!(small, vec![(0.0, 2.5), (5.0, 2.5), (10.0, 5.0)]);
    assert_eq!(large, vec![(0.0, 10.0), (10.0, 10.0), (20.0, 20.0)]);
}

#[test]
fn rejected_capture_draws_nothing() {
    let mut sampler = FrameSampler::new(3).unwrap();
    let dims = CanvasDimensions { width: 30, height: 30 };
    draw_frame(&mut sampler, &capture_of(&[1.0, 2.0, 3.0]), dims).unwrap();
    let before = sampler.buffer().clone();
    assert_eq!(
        draw_frame(&mut sampler, &capture_of(&[1.0, f32::NAN, 3.0]), dims),
        Err(SampleError::NotFinite { index: 1 })
    );
    assert_eq!(
        draw_frame(&mut sampler, &capture_of(&[1.0]), dims),
        Err(SampleError::LengthMismatch { expected: 3, actual: 1 })
    );
    assert_eq!(*sampler.buffer(), before);
}

#[test]
fn frame_on_a_canvas_without_width() {
    let mut sampler = FrameSampler::new(4).unwrap();
    let dims = CanvasDimensions { width: 0, height: 100 };
    let commands = draw_frame(&mut sampler, &capture_of(&[0.0, 64.0, -64.0, 0.0]), dims).unwrap();
    let places: Vec<(f64, f64)> = commands.iter().filter_map(place).collect();
    assert_eq!(places, vec![(0.0, 0.0), (0.0, 25.0), (0.0, -25.0), (0.0, 0.0), (0.0, 50.0)]);
    for (x, y) in places {
        assert!(x.is_finite() && y.is_finite());
    }
}
