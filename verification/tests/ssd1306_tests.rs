use phr_rpcem::io::i2c::i2cpio::i2c_frame_words;
use phr_rpcem::io::i2c::ssd1306::{
    SSD1306Addr, SSD1306MemoryAddressMode, SSD1306RenderArea, SSD1306VcomhDeselectLevel, FONT,
    SSD1306, SSD1306_BUF_LEN,
};

fn cmd(bytes: &[u8]) -> Vec<u32> {
    let mut payload = vec![0x80u8];
    payload.extend_from_slice(bytes);
    i2c_frame_words(0x3C, &payload)
}

#[test]
fn render_area_new_covers_display() {
    let area = SSD1306RenderArea::new();
    assert_eq!(area.start_col(), 0);
    assert_eq!(area.end_col(), 127);
    assert_eq!(area.start_page(), 0);
    assert_eq!(area.end_page(), 3);
    assert_eq!(area.buflen(), SSD1306_BUF_LEN);
    assert_eq!(area.buflen(), 512);
}

#[test]
fn render_area_buflen_formula() {
    assert_eq!(SSD1306RenderArea::calc_render_area_buflen(0, 127, 0, 3), 512);
    assert_eq!(SSD1306RenderArea::calc_render_area_buflen(10, 19, 1, 2), 20);
    assert_eq!(SSD1306RenderArea::calc_render_area_buflen(5, 5, 7, 7), 1);
    assert_eq!(SSD1306RenderArea::calc_render_area_buflen(0, 254, 0, 254), 255 * 255);
}

#[test]
fn ssd1306_addresses() {
    assert_eq!(SSD1306::new(SSD1306Addr::Default).dev_addr(), 0x3C);
    assert_eq!(SSD1306::new(SSD1306Addr::Secondary).dev_addr(), 0x3D);
}

#[test]
fn ssd1306_contrast_frame_exact() {
    let d = SSD1306::new(SSD1306Addr::Default);
    assert_eq!(d.set_contrast(0x7f), vec![0x478, 0x80817f00]);
    assert_eq!(d.set_display_on(), vec![0x378, 0x80af0000]);
    let d2 = SSD1306::new(SSD1306Addr::Secondary);
    assert_eq!(d2.send_data(&[1, 2, 3, 4, 5]), vec![0x77a, 0x40010203, 0x04050000]);
}

#[test]
fn ssd1306_simple_commands() {
    let d = SSD1306::new(SSD1306Addr::Default);
    assert_eq!(d.disable_entire_on(), cmd(&[0xA4]));
    assert_eq!(d.enable_entire_on_all(), cmd(&[0xA5]));
    assert_eq!(d.set_display_normal(), cmd(&[0xA6]));
    assert_eq!(d.set_display_inverted(), cmd(&[0xA7]));
    assert_eq!(d.set_display_off(), cmd(&[0xAE]));
    assert_eq!(d.disable_horizontal_scrolling(), cmd(&[0x2E]));
    assert_eq!(d.enable_horizontal_scrolling(), cmd(&[0x2F]));
    assert_eq!(d.disable_charge_pump(), cmd(&[0x8D, 0x04]));
    assert_eq!(d.enable_charge_pump(), cmd(&[0x8D, 0x14]));
}

#[test]
fn ssd1306_clamped_commands() {
    let d = SSD1306::new(SSD1306Addr::Default);
    let mut expected = cmd(&[0x0f]);
    expected.extend(cmd(&[0x1f]));
    assert_eq!(d.set_column_start_addr_for_page_mode(200, 16), expected);
    let mut expected = cmd(&[0x03]);
    expected.extend(cmd(&[0x15]));
    assert_eq!(d.set_column_start_addr_for_page_mode(3, 5), expected);
    assert_eq!(d.set_page_addr_start_for_page_mode(9), cmd(&[0xB7]));
    assert_eq!(d.set_page_addr_start_for_page_mode(2), cmd(&[0xB2]));
    assert_eq!(d.set_column_addr(0, 200), cmd(&[0x21, 0, 127]));
    assert_eq!(d.set_page_addr(1, 9), cmd(&[0x22, 1, 7]));
    assert_eq!(d.set_display_start_line(100), cmd(&[0x40]));
    assert_eq!(d.set_display_start_line(5), cmd(&[0x45]));
    assert_eq!(d.set_display_offset(0x50), cmd(&[0xD3, 0x3f]));
}

#[test]
fn ssd1306_configuration_commands() {
    let d = SSD1306::new(SSD1306Addr::Default);
    assert_eq!(d.cmd_set_mem_addr_mode(SSD1306MemoryAddressMode::Horizontal), cmd(&[0x20, 0]));
    assert_eq!(d.cmd_set_mem_addr_mode(SSD1306MemoryAddressMode::Vertical), cmd(&[0x20, 1]));
    assert_eq!(d.cmd_set_mem_addr_mode(SSD1306MemoryAddressMode::Page), cmd(&[0x20, 2]));
    assert_eq!(d.set_segment_remap(true), cmd(&[0xA1]));
    assert_eq!(d.set_segment_remap(false), cmd(&[0xA0]));
    assert_eq!(d.set_com_out_scan_dir(true), cmd(&[0xC8]));
    assert_eq!(d.set_com_out_scan_dir(false), cmd(&[0xC0]));
    assert_eq!(d.set_com_pin_cfg(false, false), cmd(&[0xDA, 0x02]));
    assert_eq!(d.set_com_pin_cfg(true, false), cmd(&[0xDA, 0x12]));
    assert_eq!(d.set_com_pin_cfg(false, true), cmd(&[0xDA, 0x22]));
    assert_eq!(d.set_com_pin_cfg(true, true), cmd(&[0xDA, 0x32]));
    assert_eq!(d.set_vcomh_deselect_level(SSD1306VcomhDeselectLevel::V065), cmd(&[0xDB, 0x00]));
    assert_eq!(d.set_vcomh_deselect_level(SSD1306VcomhDeselectLevel::V077), cmd(&[0xDB, 0x20]));
    assert_eq!(d.set_vcomh_deselect_level(SSD1306VcomhDeselectLevel::V083), cmd(&[0xDB, 0x30]));
    assert_eq!(d.set_vcomh_deselect_level(SSD1306VcomhDeselectLevel::Auto), cmd(&[0xDB, 0x40]));
}

#[test]
fn ssd1306_mux_ratio_out_of_range_becomes_minimum() {
    let d = SSD1306::new(SSD1306Addr::Default);
    assert_eq!(d.set_mux_ratio(31), cmd(&[0xA8, 31]));
    assert_eq!(d.set_mux_ratio(3), cmd(&[0xA8, 15]));
    assert_eq!(d.set_mux_ratio(64), cmd(&[0xA8, 15]));
    assert_eq!(d.set_mux_ratio(63), cmd(&[0xA8, 63]));
}

#[test]
fn ssd1306_timing_commands() {
    let d = SSD1306::new(SSD1306Addr::Default);
    assert_eq!(d.set_disp_clk_div(0x08, 0x00), cmd(&[0xD5, 0x80]));
    assert_eq!(d.set_disp_clk_div(0xf3, 0x1c), cmd(&[0xD5, 0x3c]));
    assert_eq!(d.set_precharge(0x02, 0x02), cmd(&[0xD9, 0x22]));
    assert_eq!(d.set_precharge(0x00, 0x10), cmd(&[0xD9, 0x11]));
    assert_eq!(d.set_precharge(0x1f, 0x0e), cmd(&[0xD9, 0xef]));
}

#[test]
fn ssd1306_init_sequence() {
    let d = SSD1306::new(SSD1306Addr::Default);
    let mut expected = Vec::new();
    for c in [
        &[0xA8u8, 31][..],
        &[0xD3, 0],
        &[0x40],
        &[0xA1],
        &[0xC8],
        &[0xDA, 0x02],
        &[0x81, 0x7f],
        &[0xA4],
        &[0xA6],
        &[0xD5, 0x80],
        &[0x20, 0],
        &[0x2E],
        &[0x8D, 0x14],
        &[0xAF],
    ] {
        expected.extend(cmd(c));
    }
    assert_eq!(d.init(), expected);
    assert_eq!(d.init()[0], 0x478);
    assert_eq!(d.init()[1], 0x80a81f00);
}

#[test]
fn ssd1306_render_small_area() {
    let d = SSD1306::new(SSD1306Addr::Default);
    let area = SSD1306RenderArea::new();
    let mut expected = cmd(&[0x21, 0, 127]);
    expected.extend(cmd(&[0x22, 0, 3]));
    expected.extend(i2c_frame_words(0x3C, &[0x40, 9, 8, 7]));
    assert_eq!(d.render(&[9, 8, 7], &area), expected);
}

#[test]
fn set_pixel_sets_and_clears_one_bit() {
    let mut buf = [0u8; SSD1306_BUF_LEN];
    SSD1306::set_pixel(&mut buf, 3, 10, true);
    assert_eq!(buf[128 + 3], 0b0000_0100);
    SSD1306::set_pixel(&mut buf, 3, 9, true);
    assert_eq!(buf[128 + 3], 0b0000_0110);
    SSD1306::set_pixel(&mut buf, 3, 10, false);
    assert_eq!(buf[128 + 3], 0b0000_0010);
    assert_eq!(buf.iter().filter(|b| **b != 0).count(), 1);
}

#[test]
fn set_pixel_clamps_coordinates() {
    let mut buf = [0u8; SSD1306_BUF_LEN];
    // x is clamped to 128, which lands on the first column of the next page
    SSD1306::set_pixel(&mut buf, 200, 3, true);
    assert_eq!(buf[128], 0b0000_1000);
    assert_eq!(buf.iter().filter(|b| **b != 0).count(), 1);
}

#[test]
fn draw_line_horizontal() {
    let mut buf = [0u8; SSD1306_BUF_LEN];
    SSD1306::draw_line(&mut buf, 0, 0, 127, 0, true);
    for x in 0..128 {
        assert_eq!(buf[x], 1);
    }
    assert!(buf[128..].iter().all(|b| *b == 0));
}

#[test]
fn draw_line_right_to_left_and_clear() {
    let mut buf = [0xffu8; SSD1306_BUF_LEN];
    SSD1306::draw_line(&mut buf, 10, 9, 3, 9, false);
    for x in 0..128usize {
        let expected = if (3..=10).contains(&x) { 0xfd } else { 0xff };
        assert_eq!(buf[128 + x], expected);
    }
    assert_eq!(buf[2], 0xff);
}

#[test]
fn draw_line_single_point() {
    let mut buf = [0u8; SSD1306_BUF_LEN];
    SSD1306::draw_line(&mut buf, 5, 31, 5, 31, true);
    assert_eq!(buf[3 * 128 + 5], 0x80);
    assert_eq!(buf.iter().filter(|b| **b != 0).count(), 1);
}

#[test]
fn font_index_mapping() {
    assert_eq!(SSD1306::get_font_index(b'A'), 1);
    assert_eq!(SSD1306::get_font_index(b'Z'), 26);
    assert_eq!(SSD1306::get_font_index(b'0'), 27);
    assert_eq!(SSD1306::get_font_index(b'9'), 36);
    assert_eq!(SSD1306::get_font_index(b'a'), 0);
    assert_eq!(SSD1306::get_font_index(b' '), 0);
    assert_eq!(SSD1306::get_font_index(255), 0);
}

#[test]
fn write_char_draws_glyph() {
    let mut buf = [0u8; SSD1306_BUF_LEN];
    SSD1306::write_char(&mut buf, 4, 0, b'A');
    assert_eq!(&buf[4..12], &[0x78, 0x14, 0x12, 0x11, 0x12, 0x14, 0x78, 0x00]);
    // lower case is drawn as upper case, on the page of y
    SSD1306::write_char(&mut buf, 0, 15, b'a');
    assert_eq!(&buf[128..136], &FONT[8..16]);
    SSD1306::write_char(&mut buf, 20, 8, b'5');
    assert_eq!(&buf[148..156], &FONT[32 * 8..33 * 8]);
}

#[test]
fn write_char_out_of_bounds_is_ignored() {
    let mut buf = [0u8; SSD1306_BUF_LEN];
    SSD1306::write_char(&mut buf, 121, 0, b'A');
    SSD1306::write_char(&mut buf, 0, 25, b'A');
    assert!(buf.iter().all(|b| *b == 0));
}

#[test]
fn write_string_draws_each_character() {
    let mut buf = [0u8; SSD1306_BUF_LEN];
    SSD1306::write_string(&mut buf, 8, 8, "Ab 9");
    assert_eq!(&buf[128 + 8..128 + 16], &FONT[8..16]);
    assert_eq!(&buf[128 + 16..128 + 24], &FONT[16..24]);
    assert_eq!(&buf[128 + 24..128 + 32], &FONT[0..8]);
    assert_eq!(&buf[128 + 32..128 + 40], &FONT[36 * 8..37 * 8]);
    assert!(buf[..128].iter().all(|b| *b == 0));
}

#[test]
fn write_string_clips_at_right_edge() {
    let mut buf = [0u8; SSD1306_BUF_LEN];
    SSD1306::write_string(&mut buf, 112, 0, "ABC");
    assert_eq!(&buf[112..120], &FONT[8..16]);
    assert_eq!(&buf[120..128], &FONT[16..24]);
    assert!(buf[128..].iter().all(|b| *b == 0));
}

#[test]
fn write_string_out_of_bounds_is_ignored() {
    let mut buf = [0u8; SSD1306_BUF_LEN];
    SSD1306::write_string(&mut buf, 8, 30, "ABC");
    assert!(buf.iter().all(|b| *b == 0));
}
