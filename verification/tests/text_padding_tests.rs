use browsy_cli::text_padding::TextPadding;

#[test]
fn text_padding_padding_left_4() {
    let want = "    lorem";
    let have = "lorem".pad_left(" ", 4);
    assert_eq!(want, have)
}

#[test]
fn text_padding_padding_left_2() {
    let want = "  lorem";
    let have = "lorem".pad_left(" ", 2);
    assert_eq!(want, have)
}

#[test]
fn text_padding_padding_left_1() {
    let want = " lorem";
    let have = "lorem".pad_left(" ", 1);
    assert_eq!(want, have)
}

#[test]
fn text_padding_padding_right_1() {
    let want = "lorem ";
    let have = "lorem".pad_right(" ", 1);
    assert_eq!(want, have)
}

#[test]
fn text_padding_padding_right_2() {
    let want = "lorem  ";
    let have = "lorem".pad_right(" ", 2);
    assert_eq!(want, have)
}

#[test]
fn text_padding_padding_right_4() {
    let want = "lorem    ";
    let have = "lorem".pad_right(" ", 4);
    assert_eq!(want, have)
}

#[test]
fn text_padding_pad_both_sides_4() {
    let want = "    lorem    ";
    let have = "lorem".pad(" ", 4);
    assert_eq!(want, have)
}

#[test]
fn text_padding_pad_both_sides_2() {
    let want = "  lorem  ";
    let have = "lorem".pad(" ", 2);
    assert_eq!(want, have)
}

#[test]
fn text_padding_pad_both_sides_1() {
    let want = " lorem ";
    let have = "lorem".pad(" ", 1);
    assert_eq!(want, have)
}

#[test]
fn macro_pad_both_1() {
    let want = " lorem ";
    let have = "lorem".pad(" ", 1);
    assert_eq!(want, have)
}

#[test]
fn padding_a_string_value() {
    let want = "  lorem  ";
    let have = "lorem".to_string().pad(" ", 2);
    assert_eq!(want, have)
}
