use waveform::projector::project;
use waveform::geometry::CanvasDimensions;
use waveform::sample::Sample;
use waveform::sampler::{FrameSampler, SampleError};

fn words_of(values: &[f32]) -> Vec<u32> {
    values.iter().map(|value| value.to_bits()).collect()
}

#[test]
fn no_window_of_no_samples() {
    assert!(FrameSampler::new(0).is_none());
}

#[test]
fn new_window_is_silent() {
    let sampler = FrameSampler::new(1024).unwrap();
    assert_eq!(sampler.len(), 1024);
    assert_eq!(sampler.buffer().len(), 1024);
    for sample in sampler.buffer() {
        assert_eq!(*sample, Sample { mantissa: 0, exponent: -149 });
    }
}

#[test]
fn sampling_overwrites_the_window() {
    let mut sampler = FrameSampler::new(4).unwrap();
    assert_eq!(sampler.sample(&words_of(&[0.0, 64.0, -64.0, 0.5])), Ok(()));
    assert_eq!(
        *sampler.buffer(),
        vec![
            Sample { mantissa: 0, exponent: -149 },
            Sample { mantissa: 0x80_0000, exponent: -17 },
            Sample { mantissa: -0x80_0000, exponent: -17 },
            Sample { mantissa: 0x80_0000, exponent: -24 },
        ]
    );
    assert_eq!(sampler.sample(&words_of(&[1.0, 1.0, 1.0, 1.0])), Ok(()));
    assert_eq!(*sampler.buffer(), vec![Sample { mantissa: 0x80_0000, exponent: -23 }; 4]);
    assert_eq!(sampler.len(), 4);
}

#[test]
fn wrong_length_is_reported_and_changes_nothing() {
    let mut sampler = FrameSampler::new(4).unwrap();
    sampler.sample(&words_of(&[1.0, 2.0, 3.0, 4.0])).unwrap();
    let before = sampler.buffer().clone();
    assert_eq!(
        sampler.sample(&words_of(&[5.0, 6.0, 7.0])),
        Err(SampleError::LengthMismatch { expected: 4, actual: 3 })
    );
    assert_eq!(
        sampler.sample(&words_of(&[5.0, 6.0, 7.0, 8.0, 9.0])),
        Err(SampleError::LengthMismatch { expected: 4, actual: 5 })
    );
    assert_eq!(
        sampler.sample(&Vec::new()),
        Err(SampleError::LengthMismatch { expected: 4, actual: 0 })
    );
    assert_eq!(*sampler.buffer(), before);
}

#[test]
fn wrong_length_comes_before_words() {
    let mut sampler = FrameSampler::new(2).unwrap();
    assert_eq!(
        sampler.sample(&words_of(&[f32::NAN, 1.0, 2.0])),
        Err(SampleError::LengthMismatch { expected: 2, actual: 3 })
    );
}

#[test]
fn first_word_that_is_not_finite_is_reported() {
    let mut sampler = FrameSampler::new(5).unwrap();
    sampler.sample(&words_of(&[1.0, 2.0, 3.0, 4.0, 5.0])).unwrap();
    let before = sampler.buffer().clone();
    assert_eq!(
        sampler.sample(&words_of(&[9.0, 9.0, f32::INFINITY, 9.0, f32::NAN])),
        Err(SampleError::NotFinite { index: 2 })
    );
    assert_eq!(*sampler.buffer(), before);
    assert_eq!(
        sampler.sample(&words_of(&[f32::NEG_INFINITY, 9.0, 9.0, 9.0, 9.0])),
        Err(SampleError::NotFinite { index: 0 })
    );
    assert_eq!(
        sampler.sample(&words_of(&[9.0, 9.0, 9.0, 9.0, f32::NAN])),
        Err(SampleError::NotFinite { index: 4 })
    );
    assert_eq!(*sampler.buffer(), before);
}

#[test]
fn sampling_twice_projects_alike() {
    let capture = words_of(&[0.25, -0.5, 0.75, -1.0, 0.0, 0.1, 0.2, 0.3]);
    let dims = CanvasDimensions { width: 640, height: 200 };
    let mut sampler = FrameSampler::new(8).unwrap();
    sampler.sample(&capture).unwrap();
    let first_window = sampler.buffer().clone();
    let first = project(sampler.buffer(), dims);
    sampler.sample(&capture).unwrap();
    let second = project(sampler.buffer(), dims);
    assert_eq!(*sampler.buffer(), first_window);
    assert_eq!(first, second);
    let mut other = FrameSampler::new(8).unwrap();
    other.sample(&words_of(&[7.0; 8])).unwrap();
    other.sample(&capture).unwrap();
    assert_eq!(project(other.buffer(), dims), first);
}
