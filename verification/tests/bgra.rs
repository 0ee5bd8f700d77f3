use rgb::alt::BGR;
use rgb::alt::BGRA;
use rgb::channel::ByteOrder;
use rgb::pixel::ComponentBytes;
use rgb::pixel::ComponentMap;
use rgb::pixel::ComponentSlice;

#[test]
fn bgra_test() {
    let neg = BGRA { r: 1, g: 2, b: 3i32, a: 1000 }.map(|x| -x);
    assert_eq!(neg.r, -1);
    assert_eq!(neg.rgb().r, -1);
    assert_eq!(neg.g, -2);
    assert_eq!(neg.rgb().g, -2);
    assert_eq!(neg.b, -3);
    assert_eq!(neg.rgb().b, -3);
    assert_eq!(neg.a, -1000);
    assert_eq!(&[-3, -2, -1, -1000][..], &neg.as_slice()[..]);
    assert!(neg < BGRA { r: 0, g: 0, b: 0, a: 0 });

    let neg = BGRA { r: 1u8, g: 2u8, b: 3u8, a: 4u8 }.map_rgb(|c| -(c as i16));
    assert_eq!(-1i16, neg.r);
    assert_eq!(4i16, neg.a);

    let mut px = BGRA { r: 1, g: 2, b: 3, a: 4 };
    *px.component_mut(3) = 100;
    assert_eq!(1, *px.rgb_mut().r);
    assert_eq!(2, *px.rgb_mut().g);
    *px.rgb_mut().b = 4;
    assert_eq!(4, *px.rgb_mut().b);
    assert_eq!(100, px.a);

    let v = vec![BGRA { b: 1u8, g: 2, r: 3, a: 4 }, BGRA { b: 5, g: 6, r: 7, a: 8 }];
    assert_eq!(&[1, 2, 3, 4, 5, 6, 7, 8][..], &v.as_bytes()[..]);
}

#[test]
fn bgra_round_trip_through_flat_channels() {
    let px = BGRA { b: 7u8, g: 0, r: 255, a: 13 };
    let flat = px.as_slice();
    assert_eq!(flat, vec![7u8, 0, 255, 13]);
    assert_eq!(BGRA::from_iter(&flat), px);
    assert_eq!(px.iter(), flat);
}

#[test]
fn bgra_from_iter_takes_blue_first() {
    let px = BGRA::from_iter(&[1u8, 2, 3, 4, 5]);
    assert_eq!(px, BGRA { b: 1, g: 2, r: 3, a: 4 });
}

#[test]
fn bgra_map_is_channel_wise() {
    let px = BGRA { b: 1u8, g: 2, r: 3, a: 4 }.map(|c| u16::from(c) * 100);
    assert_eq!(px, BGRA { b: 100u16, g: 200, r: 300, a: 400 });
}

#[test]
fn bgra_rgb_does_not_depend_on_alpha() {
    let opaque: BGRA<u8, u16> = BGRA { r: 1, g: 2, b: 3, a: 65535 };
    let clear: BGRA<u8, u16> = BGRA { r: 1, g: 2, b: 3, a: 0 };
    assert_eq!(opaque.rgb(), BGR { r: 1, g: 2, b: 3 });
    assert_eq!(clear.rgb(), BGR { r: 1, g: 2, b: 3 });
}

#[test]
fn bgra_rgb_mut_writes_the_parent_and_keeps_alpha() {
    let mut px: BGRA<u8, u16> = BGRA { r: 1, g: 2, b: 3, a: 500 };
    let c = px.rgb_mut();
    *c.r = 10;
    *c.g = 20;
    *c.b = 30;
    assert_eq!(px, BGRA { r: 10, g: 20, b: 30, a: 500 });
}

#[test]
fn bgra_component_mut_reaches_each_channel() {
    let mut px = BGRA { b: 0u8, g: 0, r: 0, a: 0 };
    *px.component_mut(0) = 1;
    *px.component_mut(1) = 2;
    *px.component_mut(2) = 3;
    *px.component_mut(3) = 4;
    assert_eq!(px, BGRA { b: 1, g: 2, r: 3, a: 4 });
}

#[test]
fn bgra_run_flattens_row_major() {
    let run = vec![BGRA { b: 1i16, g: 2, r: 3, a: 4 }, BGRA { b: -5, g: -6, r: -7, a: -8 }];
    let flat = ComponentSlice::as_slice(&run[..]);
    assert_eq!(flat, vec![1i16, 2, 3, 4, -5, -6, -7, -8]);
}

#[test]
fn bgra_run_component_mut_changes_one_channel() {
    let mut run = vec![BGRA { b: 1u8, g: 2, r: 3, a: 4 }, BGRA { b: 5, g: 6, r: 7, a: 8 }];
    *run[..].component_mut(6) = 70;
    assert_eq!(run, vec![BGRA { b: 1u8, g: 2, r: 3, a: 4 }, BGRA { b: 5, g: 6, r: 70, a: 8 }]);
}

#[test]
fn bgra_bytes_of_signed_channels() {
    let run = vec![BGRA { b: -1i8, g: 0, r: 1, a: -128 }];
    assert_eq!(run.as_bytes(), vec![255u8, 0, 1, 128]);
}

#[test]
fn bgra_bytes_of_two_byte_channels() {
    let run = vec![BGRA { b: 0x0102u16, g: 0x0304, r: 0xffff, a: 0 }];
    let bytes = run.as_bytes();
    let little = vec![2u8, 1, 4, 3, 255, 255, 0, 0];
    let big = vec![1u8, 2, 3, 4, 255, 255, 0, 0];
    assert!(bytes == little || bytes == big);
}

#[test]
fn bgra_order_looks_at_blue_first() {
    assert!(BGRA { b: 0u8, g: 0, r: 9, a: 9 } < BGRA { b: 1u8, g: 0, r: 0, a: 0 });
    assert!(!(BGRA { b: 1i32, g: 2, r: 3, a: 1000 } < BGRA { b: 0, g: 0, r: 0, a: 0 }));
    assert!(BGRA { b: 1u8, g: 1, r: 0, a: 9 } < BGRA { b: 1u8, g: 1, r: 1, a: 0 });
    assert!(BGRA { b: 1u8, g: 1, r: 1, a: 0 } < BGRA { b: 1u8, g: 1, r: 1, a: 1 });
    assert_eq!(
        BGRA { b: 2u8, g: 0, r: 0, a: 0 }.cmp(&BGRA { b: 1u8, g: 9, r: 9, a: 9 }),
        std::cmp::Ordering::Greater
    );
}

#[test]
fn bgr_order_looks_at_blue_first() {
    assert!(BGR { b: 0u8, g: 9, r: 9 } < BGR { b: 1u8, g: 0, r: 0 });
    assert!(BGR { b: 1u8, g: 0, r: 9 } < BGR { b: 1u8, g: 1, r: 0 });
}

#[test]
fn bgra_map_rgb_alpha_does_not_depend_on_f() {
    let px: BGRA<u8, u8> = BGRA { r: 1, g: 2, b: 3, a: 200 };
    let doubled: BGRA<u16, u32> = px.map_rgb(|c| u16::from(c) * 2);
    let zeroed: BGRA<i64, u32> = px.map_rgb(|_| 0i64);
    assert_eq!(doubled, BGRA { r: 2, g: 4, b: 6, a: 200u32 });
    assert_eq!(zeroed, BGRA { r: 0, g: 0, b: 0, a: 200u32 });
}

#[test]
fn bgr_new_alpha_keeps_the_colour() {
    let px = BGR { r: 1u8, g: 2, b: 3 }.new_alpha(9u16);
    assert_eq!(px, BGRA { r: 1u8, g: 2, b: 3, a: 9u16 });
}

#[test]
fn bgr_map_is_channel_wise() {
    let c = BGR { r: 1u8, g: 2, b: 3 }.map(|c| -(c as i16));
    assert_eq!(c, BGR { r: -1i16, g: -2, b: -3 });
}

#[test]
fn bgr_round_trip_through_flat_channels() {
    let px = BGR { b: 7u8, g: 0, r: 255 };
    let flat = px.as_slice();
    assert_eq!(flat, vec![7u8, 0, 255]);
    assert_eq!(BGR::from_iter(&flat), px);
    assert_eq!(px.iter(), flat);
}

#[test]
fn bgr_component_mut_reaches_each_channel() {
    let mut px = BGR { b: 0u8, g: 0, r: 0 };
    *px.component_mut(0) = 1;
    *px.component_mut(1) = 2;
    *px.component_mut(2) = 3;
    assert_eq!(px, BGR { b: 1, g: 2, r: 3 });
}

#[test]
fn bgr_run_flattens_row_major() {
    let mut run = vec![BGR { b: 1u8, g: 2, r: 3 }, BGR { b: 4, g: 5, r: 6 }];
    assert_eq!(ComponentSlice::as_slice(&run[..]), vec![1u8, 2, 3, 4, 5, 6]);
    assert_eq!(run.as_bytes(), vec![1u8, 2, 3, 4, 5, 6]);
    *run[..].component_mut(5) = 60;
    assert_eq!(run, vec![BGR { b: 1u8, g: 2, r: 3 }, BGR { b: 4, g: 5, r: 60 }]);
}

#[test]
fn bgra_bytes_in_either_order() {
    let run = vec![BGRA { b: 0x0102u16, g: 0x0304, r: 0xffff, a: 0 }];
    assert_eq!(run.as_bytes_in(ByteOrder::LittleEndian), vec![2u8, 1, 4, 3, 255, 255, 0, 0]);
    assert_eq!(run.as_bytes_in(ByteOrder::BigEndian), vec![1u8, 2, 3, 4, 255, 255, 0, 0]);
}
