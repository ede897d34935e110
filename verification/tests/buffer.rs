use soxr::binary::Binary32;
use soxr::buffer::{PlanarBuf, PlanarMut, PlaneMismatch};

#[test]
fn equal_planes_make_a_buffer() {
    let a = [1i16, 2, 3];
    let b = [4i16, 5, 6];
    let buffer = PlanarBuf::<i16, 2>::new([&a, &b]);
    assert_eq!(buffer.frames(), 3);
    assert_eq!(buffer.plane(0), &[1, 2, 3]);
    assert_eq!(buffer.plane(1), &[4, 5, 6]);
}

#[test]
fn equal_planes_are_accepted_when_checked() {
    let a = [1i32, 2, 3, 4];
    let b = [5i32, 6, 7, 8];
    let c = [9i32, 10, 11, 12];
    let buffer = PlanarBuf::<i32, 3>::try_new([&a, &b, &c]).ok().unwrap();
    assert_eq!(buffer.frames(), 4);
    assert_eq!(buffer.plane(2), &[9, 10, 11, 12]);
}

#[test]
fn a_shorter_plane_is_refused() {
    let a = [1i16, 2, 3];
    let b = [4i16, 5];
    let refused = PlanarBuf::<i16, 2>::try_new([&a, &b]).err();
    assert_eq!(refused, Some(PlaneMismatch { index: 1, length: 2, expected: 3 }));
}

#[test]
fn a_longer_plane_is_refused() {
    let a = [1i16, 2, 3];
    let b = [4i16, 5, 6, 7];
    let refused = PlanarBuf::<i16, 2>::try_new([&a, &b]).err();
    assert_eq!(refused, Some(PlaneMismatch { index: 1, length: 4, expected: 3 }));
}

#[test]
fn the_first_differing_plane_is_reported() {
    let a = [0i16; 8];
    let b = [0i16; 8];
    let c = [0i16; 5];
    let d = [0i16; 2];
    let refused = PlanarBuf::<i16, 4>::try_new([&a, &b, &c, &d]).err();
    assert_eq!(refused, Some(PlaneMismatch { index: 2, length: 5, expected: 8 }));
}

#[test]
fn plane_zero_sets_the_expected_length() {
    let a = [0i16; 1];
    let b = [0i16; 6];
    let c = [0i16; 6];
    let refused = PlanarBuf::<i16, 3>::try_new([&a, &b, &c]).err();
    assert_eq!(refused, Some(PlaneMismatch { index: 1, length: 6, expected: 1 }));
}

#[test]
fn an_empty_plane_among_others_is_refused() {
    let a = [0i16; 3];
    let b: [i16; 0] = [];
    let refused = PlanarBuf::<i16, 2>::try_new([&a, &b]).err();
    assert_eq!(refused, Some(PlaneMismatch { index: 1, length: 0, expected: 3 }));
}

#[test]
fn no_planes_hold_no_frames() {
    let buffer = PlanarBuf::<i16, 0>::new([]);
    assert_eq!(buffer.frames(), 0);
    assert!(PlanarBuf::<i16, 0>::try_new([]).is_ok());
    let writable = PlanarMut::<i16, 0>::new([]);
    assert_eq!(writable.frames(), 0);
    assert!(PlanarMut::<i16, 0>::try_new([]).is_ok());
}

#[test]
fn a_single_plane_is_always_uniform() {
    let a = [7i32; 13];
    let buffer = PlanarBuf::<i32, 1>::try_new([&a]).ok().unwrap();
    assert_eq!(buffer.frames(), 13);
    let empty: [i32; 0] = [];
    let buffer = PlanarBuf::<i32, 1>::try_new([&empty]).ok().unwrap();
    assert_eq!(buffer.frames(), 0);
}

#[test]
fn empty_planes_hold_no_frames() {
    let a: [i16; 0] = [];
    let b: [i16; 0] = [];
    let buffer = PlanarBuf::<i16, 2>::try_new([&a, &b]).ok().unwrap();
    assert_eq!(buffer.frames(), 0);
}

#[test]
fn equal_writable_planes_make_a_buffer() {
    let mut a = [0i16; 5];
    let mut b = [0i16; 5];
    let buffer = PlanarMut::<i16, 2>::new([&mut a, &mut b]);
    assert_eq!(buffer.frames(), 5);
}

#[test]
fn ragged_writable_planes_are_refused() {
    let mut a = [0i16; 5];
    let mut b = [0i16; 5];
    let mut c = [0i16; 4];
    let refused = PlanarMut::<i16, 3>::try_new([&mut a, &mut b, &mut c]).err();
    assert_eq!(refused, Some(PlaneMismatch { index: 2, length: 4, expected: 5 }));
}

#[test]
fn writable_planes_come_back_as_they_went_in() {
    let mut a = [Binary32::from_bits(0); 3];
    let mut b = [Binary32::from_bits(0); 3];
    {
        let buffer = PlanarMut::<Binary32, 2>::try_new([&mut a, &mut b]).ok().unwrap();
        assert_eq!(buffer.frames(), 3);
        let [first, second] = buffer.into_planes();
        assert_eq!(first.len(), 3);
        assert_eq!(second.len(), 3);
        first[0] = Binary32::from_bits(1.5f32.to_bits());
        second[2] = Binary32::from_bits(2.5f32.to_bits());
    }
    assert_eq!(f32::from_bits(a[0].to_bits()), 1.5);
    assert_eq!(f32::from_bits(b[2].to_bits()), 2.5);
    assert_eq!(a[1].to_bits(), 0);
}

#[test]
fn float_planes_of_all_sample_types_are_counted() {
    let a = [Binary32::from_bits(0); 9];
    let b = [Binary32::from_bits(0); 9];
    let buffer = PlanarBuf::<Binary32, 2>::try_new([&a, &b]).ok().unwrap();
    assert_eq!(buffer.frames(), 9);
}
