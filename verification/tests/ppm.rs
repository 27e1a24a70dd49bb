use rt::ppm::{push_decimal, write_ppm_p3};

#[test]
fn decimal_digits() {
    let mut v: Vec<u8> = Vec::new();
    push_decimal(&mut v, 0);
    assert_eq!(v, b"0".to_vec());
    let mut v: Vec<u8> = b"x".to_vec();
    push_decimal(&mut v, 9);
    push_decimal(&mut v, 10);
    push_decimal(&mut v, 4294967295);
    assert_eq!(v, b"x9104294967295".to_vec());
}

#[test]
fn ppm_two_pixels() {
    let mut out: Vec<u8> = Vec::new();
    write_ppm_p3(&mut out, &[[255, 0, 7], [10, 200, 0]], 2, 1);
    assert_eq!(String::from_utf8(out).unwrap(), "P3\n2 1\n255\n255 0 7\n10 200 0\n");
}

#[test]
fn ppm_appends_to_existing_output() {
    let mut out: Vec<u8> = b"# ".to_vec();
    write_ppm_p3(&mut out, &[], 0, 0);
    assert_eq!(String::from_utf8(out).unwrap(), "# P3\n0 0\n255\n");
}

#[test]
fn ppm_one_line_per_pixel_and_ascii() {
    let pixels: Vec<[u8; 3]> = (0..12u32).map(|i| [(i * 20) as u8, (i * 7) as u8, 255 - i as u8]).collect();
    let mut out: Vec<u8> = Vec::new();
    write_ppm_p3(&mut out, &pixels, 4, 3);
    assert_eq!(out.iter().filter(|b| **b == b'\n').count(), 3 + pixels.len());
    assert!(out.iter().all(|b| *b < 128));
    let text = String::from_utf8(out).unwrap();
    let lines: Vec<&str> = text.lines().collect();
    assert_eq!(lines[1], "4 3");
    assert_eq!(lines[3 + 11], "220 77 244");
}

#[test]
fn ppm_pixel_count_not_checked() {
    let mut out: Vec<u8> = Vec::new();
    write_ppm_p3(&mut out, &[[1, 2, 3]], 5, 5);
    assert_eq!(String::from_utf8(out).unwrap(), "P3\n5 5\n255\n1 2 3\n");
}
