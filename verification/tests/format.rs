use soxr::binary::{Binary32, Binary64};
use soxr::buffer::{PlanarBuf, PlanarMut};
use soxr::format::{
    interleaved, planar, Datatype, Interleaved, IoFormat, Mono, Planar, Sample, SampleFormat,
    Stereo, PLANAR_CODE_OFFSET,
};

#[test]
fn sample_types_report_their_formats() {
    assert_eq!(<i16 as Sample>::format(), SampleFormat::Int16);
    assert_eq!(<i32 as Sample>::format(), SampleFormat::Int32);
    assert_eq!(<Binary32 as Sample>::format(), SampleFormat::Float32);
    assert_eq!(<Binary64 as Sample>::format(), SampleFormat::Float64);
}

#[test]
fn datatype_codes_are_those_of_the_engine() {
    assert_eq!(Datatype::Float32Interleaved.code(), 0);
    assert_eq!(Datatype::Float64Interleaved.code(), 1);
    assert_eq!(Datatype::Int32Interleaved.code(), 2);
    assert_eq!(Datatype::Int16Interleaved.code(), 3);
    assert_eq!(Datatype::Float32Planar.code(), 4);
    assert_eq!(Datatype::Float64Planar.code(), 5);
    assert_eq!(Datatype::Int32Planar.code(), 6);
    assert_eq!(Datatype::Int16Planar.code(), 7);
}

#[test]
fn interleaved_datatype_of_each_sample_type() {
    assert_eq!(interleaved::<i16>(), Datatype::Int16Interleaved);
    assert_eq!(interleaved::<i32>(), Datatype::Int32Interleaved);
    assert_eq!(interleaved::<Binary32>(), Datatype::Float32Interleaved);
    assert_eq!(interleaved::<Binary64>(), Datatype::Float64Interleaved);
}

#[test]
fn planar_datatype_of_each_sample_type() {
    assert_eq!(planar::<i16>(), Datatype::Int16Planar);
    assert_eq!(planar::<i32>(), Datatype::Int32Planar);
    assert_eq!(planar::<Binary32>(), Datatype::Float32Planar);
    assert_eq!(planar::<Binary64>(), Datatype::Float64Planar);
}

#[test]
fn float_samples_are_tagged_as_floats() {
    assert_eq!(interleaved::<Binary32>().code(), 0);
    assert_eq!(interleaved::<Binary64>().code(), 1);
    assert_ne!(interleaved::<Binary32>(), interleaved::<i16>());
    assert_ne!(interleaved::<Binary64>(), interleaved::<i16>());
    assert_ne!(planar::<Binary32>(), planar::<i16>());
    assert_ne!(planar::<Binary64>(), planar::<i16>());
}

#[test]
fn planar_code_is_interleaved_code_plus_offset() {
    assert_eq!(PLANAR_CODE_OFFSET, 4);
    assert_eq!(planar::<i16>().code(), interleaved::<i16>().code() + PLANAR_CODE_OFFSET);
    assert_eq!(planar::<i32>().code(), interleaved::<i32>().code() + PLANAR_CODE_OFFSET);
    assert_eq!(
        planar::<Binary32>().code(),
        interleaved::<Binary32>().code() + PLANAR_CODE_OFFSET
    );
    assert_eq!(
        planar::<Binary64>().code(),
        interleaved::<Binary64>().code() + PLANAR_CODE_OFFSET
    );
}

#[test]
fn datatype_codes_are_all_different() {
    let all = [
        Datatype::Float32Interleaved,
        Datatype::Float64Interleaved,
        Datatype::Int32Interleaved,
        Datatype::Int16Interleaved,
        Datatype::Float32Planar,
        Datatype::Float64Planar,
        Datatype::Int32Planar,
        Datatype::Int16Planar,
    ];
    for (i, a) in all.iter().enumerate() {
        assert!(a.code() < 8);
        for (j, b) in all.iter().enumerate() {
            assert_eq!(a.code() == b.code(), i == j);
        }
    }
}

#[test]
fn layouts_report_their_channels() {
    assert_eq!(<Mono<i16> as IoFormat>::channels(), 1);
    assert_eq!(<Stereo<i32> as IoFormat>::channels(), 2);
    assert_eq!(<Interleaved<Binary32, 6> as IoFormat>::channels(), 6);
    assert_eq!(<Planar<Binary64, 3> as IoFormat>::channels(), 3);
    assert_eq!(<Interleaved<i16, 0> as IoFormat>::channels(), 0);
    assert_eq!(<Planar<i16, 4294967296> as IoFormat>::channels(), 4294967296);
}

#[test]
fn layouts_report_their_datatypes() {
    assert_eq!(<Mono<i16> as IoFormat>::datatype(), Datatype::Int16Interleaved);
    assert_eq!(<Mono<Binary32> as IoFormat>::datatype(), Datatype::Float32Interleaved);
    assert_eq!(<Stereo<i32> as IoFormat>::datatype(), Datatype::Int32Interleaved);
    assert_eq!(<Stereo<Binary64> as IoFormat>::datatype(), Datatype::Float64Interleaved);
    assert_eq!(<Interleaved<Binary32, 6> as IoFormat>::datatype(), Datatype::Float32Interleaved);
    assert_eq!(<Interleaved<i16, 5> as IoFormat>::datatype(), Datatype::Int16Interleaved);
    assert_eq!(<Planar<Binary64, 3> as IoFormat>::datatype(), Datatype::Float64Planar);
    assert_eq!(<Planar<i16, 2> as IoFormat>::datatype(), Datatype::Int16Planar);
    assert_eq!(<Planar<i32, 2> as IoFormat>::datatype(), Datatype::Int32Planar);
    assert_eq!(<Planar<Binary32, 2> as IoFormat>::datatype(), Datatype::Float32Planar);
}

#[test]
fn mono_counts_samples_as_frames() {
    let input: [i16; 5] = [1, 2, 3, 4, 5];
    let output: [i16; 9] = [0; 9];
    assert_eq!(<Mono<i16> as IoFormat>::input_len(&input[..]), 5);
    assert_eq!(<Mono<i16> as IoFormat>::output_len(&output[..]), 9);
    assert_eq!(<Mono<i16> as IoFormat>::input_len(&input[..0]), 0);
}

#[test]
fn stereo_counts_pairs_as_frames() {
    let input: [[i32; 2]; 4] = [[1, 2], [3, 4], [5, 6], [7, 8]];
    let output: [[i32; 2]; 3] = [[0; 2]; 3];
    assert_eq!(<Stereo<i32> as IoFormat>::input_len(&input[..]), 4);
    assert_eq!(<Stereo<i32> as IoFormat>::output_len(&output[..]), 3);
}

#[test]
fn interleaved_counts_whole_frames() {
    let one = Binary32::from_bits(1.0f32.to_bits());
    let input: Vec<[Binary32; 6]> = vec![[one; 6]; 7];
    let output: Vec<[Binary32; 6]> = vec![[one; 6]; 11];
    assert_eq!(<Interleaved<Binary32, 6> as IoFormat>::input_len(&input), 7);
    assert_eq!(<Interleaved<Binary32, 6> as IoFormat>::output_len(&output), 11);
    let none: Vec<[Binary32; 6]> = Vec::new();
    assert_eq!(<Interleaved<Binary32, 6> as IoFormat>::input_len(&none), 0);
}

#[test]
fn planar_counts_the_common_plane_length() {
    let zero = Binary64::from_bits(0);
    let left = [zero; 12];
    let right = [zero; 12];
    let centre = [zero; 12];
    let input = PlanarBuf::<Binary64, 3>::new([&left, &right, &centre]);
    assert_eq!(<Planar<Binary64, 3> as IoFormat>::input_len(&input), 12);

    let mut a = [zero; 20];
    let mut b = [zero; 20];
    let mut c = [zero; 20];
    let output = PlanarMut::<Binary64, 3>::new([&mut a, &mut b, &mut c]);
    assert_eq!(<Planar<Binary64, 3> as IoFormat>::output_len(&output), 20);
}
