use chip8::text::{hex_digit_of, push_hex, push_prefixed_hex};

#[test]
fn hexadecimal_digits_are_upper_case() {
    let digits: String = (0..16).map(hex_digit_of).collect();
    assert_eq!(digits, "0123456789ABCDEF");
}

#[test]
fn a_number_is_written_with_leading_zeros() {
    for n in [0x0000u16, 0x0001, 0x000F, 0x0010, 0x00AB, 0x0ABC, 0x1000, 0xBEEF, 0xFFFF] {
        for width in 0..=6u8 {
            let mut text = String::from("<");
            push_hex(&mut text, n, width);
            let all = format!("{:06X}", n);
            assert_eq!(text, format!("<{}", &all[6 - width as usize..]));
        }
    }
    let mut text = String::new();
    push_hex(&mut text, 0x2F, 4);
    assert_eq!(text, "002F");
}

#[test]
fn a_prefixed_number_has_no_leading_zeros() {
    for n in [0x0000u16, 0x0001, 0x000F, 0x0010, 0x00FF, 0x0100, 0x0ABC, 0x0FFF, 0x1000, 0xFFFF] {
        let mut text = String::from("<");
        push_prefixed_hex(&mut text, n, 0);
        assert_eq!(text, format!("<{:#X}", n));
    }
}

#[test]
fn a_prefixed_number_is_padded_on_the_right() {
    for n in [0x0000u16, 0x00FF, 0x0ABC, 0xFFFF] {
        for width in 0..=10u8 {
            let mut text = String::from("<");
            push_prefixed_hex(&mut text, n, width);
            text.push('>');
            assert_eq!(text, format!("<{:<#width$X}>", n, width = width as usize));
        }
    }
    let mut text = String::new();
    push_prefixed_hex(&mut text, 0x1D, 8);
    assert_eq!(text, "0x1D    ");
}
