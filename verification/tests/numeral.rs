use serverize::numeral::{listen_addr, u16_decimal};

#[test]
fn zero_renders_as_single_digit() {
    assert_eq!(u16_decimal(0), "0");
}

#[test]
fn single_digit_renders_as_itself() {
    assert_eq!(u16_decimal(7), "7");
}

#[test]
fn ten_renders_with_two_digits() {
    assert_eq!(u16_decimal(10), "10");
}

#[test]
fn default_port_renders_exactly() {
    assert_eq!(u16_decimal(4567), "4567");
}

#[test]
fn listener_ports_render_exactly() {
    assert_eq!(u16_decimal(9001), "9001");
    assert_eq!(u16_decimal(9002), "9002");
}

#[test]
fn largest_port_renders_exactly() {
    assert_eq!(u16_decimal(65535), "65535");
}

#[test]
fn listen_addr_names_all_interfaces() {
    assert_eq!(listen_addr(4567), "[::]:4567");
}

#[test]
fn listen_addr_for_ephemeral_port() {
    assert_eq!(listen_addr(0), "[::]:0");
}

#[test]
fn round_number_keeps_inner_zeros() {
    assert_eq!(u16_decimal(8080), "8080");
    assert_eq!(u16_decimal(10000), "10000");
}
