//! SSD1306 OLED display: command encoding, render areas and drawing into
//! the frame buffer.

use vstd::prelude::*;

use super::i2cpio::{i2c_frame, i2c_frame_words, MAX_WRITE_BYTES};

verus! {

/// Display height in pixels.
pub const SSD1306_HEIGHT: u8 = 32;
/// Display width in pixels.
pub const SSD1306_WIDTH: u8 = 128;

/// Default 7-bit I2C address.
pub const SSD1306_I2C_ADDR_DEFAULT: u8 = 0x3C;
/// Secondary 7-bit I2C address (default plus one).
pub const SSD1306_I2C_ADDR_SECONDARY: u8 = 0x3D;

/// Control byte announcing a command.
pub const SSD1306_CONTROL_COMMAND: u8 = 0x80;
/// Control byte announcing display data.
pub const SSD1306_CONTROL_DATA: u8 = 0x40;

pub const SSD1306_SET_HIGH_COL_START_ADDR: u8 = 0x10;
pub const SSD1306_SET_MEM_MODE: u8 = 0x20;
pub const SSD1306_SET_COL_ADDR: u8 = 0x21;
pub const SSD1306_SET_PAGE_ADDR: u8 = 0x22;
pub const SSD1306_SET_HORIZ_SCROLL: u8 = 0x26;
pub const SSD1306_SET_SCROLL_DISABLE: u8 = 0x2E;
pub const SSD1306_SET_SCROLL_ENABLE: u8 = 0x2F;
pub const SSD1306_SET_DISP_START_LINE: u8 = 0x40;
pub const SSD1306_SET_CONTRAST: u8 = 0x81;
pub const SSD1306_SET_CHARGE_PUMP: u8 = 0x8D;
pub const SSD1306_SET_SEG_REMAP: u8 = 0xA0;
pub const SSD1306_SET_ENTIRE_ON_RAM: u8 = 0xA4;
pub const SSD1306_SET_ENTIRE_ON_ALL: u8 = 0xA5;
pub const SSD1306_SET_DISP_NORM: u8 = 0xA6;
pub const SSD1306_SET_DISP_INV: u8 = 0xA7;
pub const SSD1306_SET_MUX_RATIO: u8 = 0xA8;
pub const SSD1306_SET_DISP_OFF: u8 = 0xAE;
pub const SSD1306_SET_DISP_ON: u8 = 0xAF;
pub const SSD1306_SET_PAGE_ADDR_START_PAGE_MODE: u8 = 0xB0;
pub const SSD1306_SET_COM_OUT_SCAN_DIR_NORMAL: u8 = 0xC0;
pub const SSD1306_SET_COM_OUT_SCAN_DIR_REMAPPED: u8 = 0xC8;
pub const SSD1306_SET_DISP_OFFSET: u8 = 0xD3;
pub const SSD1306_SET_DISP_CLK_DIV: u8 = 0xD5;
pub const SSD1306_SET_PRECHARGE: u8 = 0xD9;
pub const SSD1306_SET_COM_PIN_CFG: u8 = 0xDA;
pub const SSD1306_SET_VCOM_DESEL: u8 = 0xDB;

/// Height of one display page in pixels.
pub const SSD1306_PAGE_HEIGHT: u8 = 8;
/// Number of pages (height / page height).
pub const SSD1306_NUM_PAGES: u8 = 4;
/// Length of the frame buffer: one byte per column and page.
pub const SSD1306_BUF_LEN: usize = 512;

pub const COM_PIN_CFG_SEQ_NO_LR_REMAP: u8 = 0x02;
pub const COM_PIN_CFG_ALT_NO_LR_REMAP: u8 = 0x12;
pub const COM_PIN_CFG_SEQ_WITH_LR_REMAP: u8 = 0x22;
pub const COM_PIN_CFG_ALT_WITH_LR_REMAP: u8 = 0x32;
pub const CHARGE_PUMP_DISABLE: u8 = 0x04;
pub const CHARGE_PUMP_ENABLE: u8 = 0x14;
pub const ADDR_COLUMN_MAX: u8 = 0x7f;
pub const ADDR_COLUMN_MAX_PAGE_MODE: u8 = 0x0f;
pub const ADDR_PAGE_MAX: u8 = 0x07;
pub const CONTRAST_DEFAULT: u8 = 0x7f;
pub const DISPLAY_OFFSET_MAX: u8 = 0x3f;
pub const DIVIDE_RATIO_DEFAULT: u8 = 0x00;
pub const OSCILLATOR_FREQUENCY_DEFAULT: u8 = 0x08;
pub const MEMORY_ADDRESS_MODE_HORIZONTAL: u8 = 0;
pub const MEMORY_ADDRESS_MODE_VERTICAL: u8 = 1;
pub const MEMORY_ADDRESS_MODE_PAGE: u8 = 2;
pub const MUX_RATIO_MIN: u8 = 15;
pub const MUX_RATIO_MAX: u8 = 63;
pub const PHASE1_DEFAULT: u8 = 0x02;
pub const PHASE2_DEFAULT: u8 = 0x02;
pub const START_LINE_MAX: u8 = 64;
pub const VCOMH_LEVEL_V065: u8 = 0x00;
pub const VCOMH_LEVEL_V077: u8 = 0x20;
pub const VCOMH_LEVEL_V083: u8 = 0x30;
pub const VCOMH_LEVEL_AUTO: u8 = 0x40;

pub const ASCII_A: u8 = 65;
pub const ASCII_Z: u8 = 90;
pub const ASCII_0: u8 = 48;
pub const ASCII_9: u8 = 57;
pub const ASCII_A_LOWER: u8 = 97;
pub const ASCII_Z_LOWER: u8 = 122;

/// 8x8 glyphs, one byte per column: blank, `A`..`Z`, `0`..`9`.
pub const FONT: [u8; 296] = [
    0x00, 0x00, 0x00, 0x00, 0x00, 0x00, 0x00, 0x00,
    0x78, 0x14, 0x12, 0x11, 0x12, 0x14, 0x78, 0x00,
    0x7f, 0x49, 0x49, 0x49, 0x49, 0x49, 0x7f, 0x00,
    0x7e, 0x41, 0x41, 0x41, 0x41, 0x41, 0x41, 0x00,
    0x7f, 0x41, 0x41, 0x41, 0x41, 0x41, 0x7e, 0x00,
    0x7f, 0x49, 0x49, 0x49, 0x49, 0x49, 0x49, 0x00,
    0x7f, 0x09, 0x09, 0x09, 0x09, 0x01, 0x01, 0x00,
    0x7f, 0x41, 0x41, 0x41, 0x51, 0x51, 0x73, 0x00,
    0x7f, 0x08, 0x08, 0x08, 0x08, 0x08, 0x7f, 0x00,
    0x00, 0x00, 0x00, 0x7f, 0x00, 0x00, 0x00, 0x00,
    0x21, 0x41, 0x41, 0x3f, 0x01, 0x01, 0x01, 0x00,
    0x00, 0x7f, 0x08, 0x08, 0x14, 0x22, 0x41, 0x00,
    0x7f, 0x40, 0x40, 0x40, 0x40, 0x40, 0x40, 0x00,
    0x7f, 0x02, 0x04, 0x08, 0x04, 0x02, 0x7f, 0x00,
    0x7f, 0x02, 0x04, 0x08, 0x10, 0x20, 0x7f, 0x00,
    0x3e, 0x41, 0x41, 0x41, 0x41, 0x41, 0x3e, 0x00,
    0x7f, 0x11, 0x11, 0x11, 0x11, 0x11, 0x0e, 0x00,
    0x3e, 0x41, 0x41, 0x49, 0x51, 0x61, 0x7e, 0x00,
    0x7f, 0x11, 0x11, 0x11, 0x31, 0x51, 0x0e, 0x00,
    0x46, 0x49, 0x49, 0x49, 0x49, 0x30, 0x00, 0x00,
    0x01, 0x01, 0x01, 0x7f, 0x01, 0x01, 0x01, 0x00,
    0x3f, 0x40, 0x40, 0x40, 0x40, 0x40, 0x3f, 0x00,
    0x0f, 0x10, 0x20, 0x40, 0x20, 0x10, 0x0f, 0x00,
    0x7f, 0x20, 0x10, 0x08, 0x10, 0x20, 0x7f, 0x00,
    0x00, 0x41, 0x22, 0x14, 0x14, 0x22, 0x41, 0x00,
    0x01, 0x02, 0x04, 0x78, 0x04, 0x02, 0x01, 0x00,
    0x41, 0x61, 0x59, 0x45, 0x43, 0x41, 0x00, 0x00,
    0x3e, 0x41, 0x41, 0x49, 0x41, 0x41, 0x3e, 0x00,
    0x00, 0x00, 0x42, 0x7f, 0x40, 0x00, 0x00, 0x00,
    0x30, 0x49, 0x49, 0x49, 0x49, 0x46, 0x00, 0x00,
    0x49, 0x49, 0x49, 0x49, 0x49, 0x49, 0x36, 0x00,
    0x3f, 0x20, 0x20, 0x78, 0x20, 0x20, 0x00, 0x00,
    0x4f, 0x49, 0x49, 0x49, 0x49, 0x30, 0x00, 0x00,
    0x3f, 0x48, 0x48, 0x48, 0x48, 0x48, 0x30, 0x00,
    0x01, 0x01, 0x01, 0x61, 0x31, 0x0d, 0x03, 0x00,
    0x36, 0x49, 0x49, 0x49, 0x49, 0x49, 0x36, 0x00,
    0x06, 0x09, 0x09, 0x09, 0x09, 0x09, 0x7f, 0x00,
];

/// Smaller of two bytes.
pub open spec fn min_u8(a: u8, b: u8) -> u8 {
    if a < b { a } else { b }
}

fn min_u8_exec(a: u8, b: u8) -> (r: u8)
    ensures
        r == min_u8(a, b),
{
    if a < b { a } else { b }
}

// ---------------------------------------------------------------------------
// frame buffer drawing
// ---------------------------------------------------------------------------

/// Frame-buffer byte of pixel `(x, y)` once both are clamped to the
/// display size (horizontal addressing: 8 vertical pixels per byte).
pub open spec fn pixel_index(x: u8, y: u8) -> int {
    (min_u8(y, SSD1306_HEIGHT) / 8) as int * SSD1306_WIDTH as int + min_u8(x, SSD1306_WIDTH) as int
}

/// A byte with the bit of row `y` set (`on`) or cleared.
pub open spec fn with_pixel(byte: u8, y: u8, on: bool) -> u8 {
    let bit: u8 = (1u8 << (min_u8(y, SSD1306_HEIGHT) % 8));
    if on {
        byte | bit
    } else {
        byte & !bit
    }
}

/// Whether the bit of row `y` (clamped to the display) is set in a
/// frame-buffer byte.
pub open spec fn pixel_bit(byte: u8, y: u8) -> bool {
    byte & (1u8 << (min_u8(y, SSD1306_HEIGHT) % 8)) != 0
}

/// Drawing a pixel is read back: its bit then holds `on`, the bits of the
/// other rows of the byte are unchanged, and drawing it again changes
/// nothing.
pub proof fn lemma_with_pixel_reads_back(byte: u8, y: u8, on: bool, other: u8)
    ensures
        pixel_bit(with_pixel(byte, y, on), y) == on,
        min_u8(other, SSD1306_HEIGHT) % 8 != min_u8(y, SSD1306_HEIGHT) % 8 ==> pixel_bit(
            with_pixel(byte, y, on),
            other,
        ) == pixel_bit(byte, other),
        with_pixel(with_pixel(byte, y, on), y, on) == with_pixel(byte, y, on),
{
    let k: u8 = min_u8(y, SSD1306_HEIGHT) % 8;
    let j: u8 = min_u8(other, SSD1306_HEIGHT) % 8;
    assert(k < 8 && j < 8);
    assert((byte | (1u8 << k)) & (1u8 << k) != 0) by (bit_vector)
        requires
            k < 8,
    ;
    assert((byte & !(1u8 << k)) & (1u8 << k) == 0) by (bit_vector)
        requires
            k < 8,
    ;
    let set: u8 = byte | (1u8 << k);
    let cleared: u8 = byte & !(1u8 << k);
    assert(j != k ==> (set & (1u8 << j) != 0) == (byte & (1u8 << j) != 0)) by (bit_vector)
        requires
            k < 8,
            j < 8,
            set == byte | (1u8 << k),
    ;
    assert(j != k ==> (cleared & (1u8 << j) != 0) == (byte & (1u8 << j) != 0)) by (bit_vector)
        requires
            k < 8,
            j < 8,
            cleared == byte & !(1u8 << k),
    ;
    lemma_with_pixel_idempotent(byte, y, on);
}

proof fn lemma_with_pixel_idempotent(byte: u8, y: u8, on: bool)
    ensures
        with_pixel(with_pixel(byte, y, on), y, on) == with_pixel(byte, y, on),
{
    let k: u8 = min_u8(y, SSD1306_HEIGHT) % 8;
    assert(k < 8);
    assert((byte | (1u8 << k)) | (1u8 << k) == byte | (1u8 << k)) by (bit_vector);
    assert((byte & !(1u8 << k)) & !(1u8 << k) == byte & !(1u8 << k)) by (bit_vector);
}

/// Larger of two bytes.
pub open spec fn max_u8(a: u8, b: u8) -> u8 {
    if a < b { b } else { a }
}

fn max_u8_exec(a: u8, b: u8) -> (r: u8)
    ensures
        r == max_u8(a, b),
{
    if a < b { b } else { a }
}

/// Memory addressing mode enumeration.
pub enum SSD1306MemoryAddressMode {
    Horizontal,
    Vertical,
    Page,
}

/// VCOMH deselect level (x Vcc).
pub enum SSD1306VcomhDeselectLevel {
    V065,
    V077,
    V083,
    Auto,
}

/// Argument byte of the memory addressing mode command.
pub open spec fn mem_mode_byte(mode: SSD1306MemoryAddressMode) -> u8 {
    match mode {
        SSD1306MemoryAddressMode::Horizontal => MEMORY_ADDRESS_MODE_HORIZONTAL,
        SSD1306MemoryAddressMode::Vertical => MEMORY_ADDRESS_MODE_VERTICAL,
        SSD1306MemoryAddressMode::Page => MEMORY_ADDRESS_MODE_PAGE,
    }
}

/// Argument byte of the VCOMH deselect level command.
pub open spec fn vcomh_byte(level: SSD1306VcomhDeselectLevel) -> u8 {
    match level {
        SSD1306VcomhDeselectLevel::V065 => VCOMH_LEVEL_V065,
        SSD1306VcomhDeselectLevel::V077 => VCOMH_LEVEL_V077,
        SSD1306VcomhDeselectLevel::V083 => VCOMH_LEVEL_V083,
        SSD1306VcomhDeselectLevel::Auto => VCOMH_LEVEL_AUTO,
    }
}

/// Argument byte of the COM pins configuration command.
pub open spec fn com_pin_cfg_byte(alternative_com_pin: bool, com_left_right_remap: bool) -> u8 {
    if alternative_com_pin {
        if com_left_right_remap { COM_PIN_CFG_ALT_WITH_LR_REMAP } else { COM_PIN_CFG_ALT_NO_LR_REMAP }
    } else {
        if com_left_right_remap { COM_PIN_CFG_SEQ_WITH_LR_REMAP } else { COM_PIN_CFG_SEQ_NO_LR_REMAP }
    }
}

/// Multiplex ratio sent for a requested ratio: out-of-range ratios
/// (below 15 or above 63) become 15.
pub open spec fn mux_ratio_value(ratio: u8) -> u8 {
    if ratio < MUX_RATIO_MIN {
        MUX_RATIO_MIN
    } else if ratio > MUX_RATIO_MAX {
        MUX_RATIO_MIN
    } else {
        ratio
    }
}

/// Argument byte of the display clock command.
pub open spec fn clk_div_value(oscillator_frequency: u8, divide_ratio: u8) -> u8 {
    ((oscillator_frequency & 0xf) << 4u8) | (divide_ratio & 0xf)
}

/// Argument byte of the pre-charge period command.
pub open spec fn precharge_value(phase1: u8, phase2: u8) -> u8 {
    (max_u8(1, phase2 & 0xf) << 4u8) | (max_u8(1, phase1 & 0xf) & 0xf)
}

/// `b` followed by `rest`.
fn prefixed(b: u8, rest: &[u8]) -> (r: Vec<u8>)
    ensures
        r@ == seq![b] + rest@,
{
    let mut r: Vec<u8> = Vec::new();
    r.push(b);
    for i in 0..rest.len()
        invariant
            r@ == seq![b] + rest@.subrange(0, i as int),
    {
        r.push(rest[i]);
        assert(rest@.subrange(0, i + 1) =~= rest@.subrange(0, i as int).push(rest@[i as int]));
    }
    assert(rest@.subrange(0, rest@.len() as int) =~= rest@);
    r
}

/// A rectangle of columns and pages of the display.
pub struct SSD1306RenderArea {
    start_col: u8,
    end_col: u8,
    start_page: u8,
    end_page: u8,
    buflen: usize,
}

/// Number of bytes in the flattened buffer of a render area.
pub open spec fn render_area_buflen(start_col: u8, end_col: u8, start_page: u8, end_page: u8) -> int {
    (end_col - start_col + 1) * (end_page - start_page + 1)
}

impl SSD1306RenderArea {
    pub closed spec fn start_col_spec(&self) -> u8 {
        self.start_col
    }

    pub closed spec fn end_col_spec(&self) -> u8 {
        self.end_col
    }

    pub closed spec fn start_page_spec(&self) -> u8 {
        self.start_page
    }

    pub closed spec fn end_page_spec(&self) -> u8 {
        self.end_page
    }

    pub closed spec fn buflen_spec(&self) -> usize {
        self.buflen
    }

    /// The whole display: all columns and all pages.
    pub fn new() -> (r: Self)
        ensures
            r.start_col_spec() == 0,
            r.end_col_spec() == SSD1306_WIDTH - 1,
            r.start_page_spec() == 0,
            r.end_page_spec() == SSD1306_NUM_PAGES - 1,
            r.buflen_spec() == render_area_buflen(0, (SSD1306_WIDTH - 1) as u8, 0, (SSD1306_NUM_PAGES - 1) as u8),
            r.buflen_spec() == SSD1306_BUF_LEN,
    {
        let start_col: u8 = 0;
        let end_col: u8 = SSD1306_WIDTH - 1;
        let start_page: u8 = 0;
        let end_page: u8 = SSD1306_NUM_PAGES - 1;
        let buflen = Self::calc_render_area_buflen(start_col, end_col, start_page, end_page);
        Self { start_col, end_col, start_page, end_page, buflen }
    }

    /// How long the flattened buffer of a render area is: columns times pages.
    pub fn calc_render_area_buflen(start_col: u8, end_col: u8, start_page: u8, end_page: u8) -> (r: usize)
        requires
            start_col <= end_col,
            end_col - start_col < 255,
            start_page <= end_page,
            end_page - start_page < 255,
        ensures
            r == render_area_buflen(start_col, end_col, start_page, end_page),
    {
        let cols = (end_col - start_col + 1) as usize;
        let pages = (end_page - start_page + 1) as usize;
        assert(cols * pages <= 255 * 255) by (nonlinear_arith)
            requires
                cols <= 255,
                pages <= 255,
        ;
        cols * pages
    }

    /// First column.
    pub fn start_col(&self) -> (r: u8)
        ensures
            r == self.start_col_spec(),
    {
        self.start_col
    }

    /// Last column.
    pub fn end_col(&self) -> (r: u8)
        ensures
            r == self.end_col_spec(),
    {
        self.end_col
    }

    /// First page.
    pub fn start_page(&self) -> (r: u8)
        ensures
            r == self.start_page_spec(),
    {
        self.start_page
    }

    /// Last page.
    pub fn end_page(&self) -> (r: u8)
        ensures
            r == self.end_page_spec(),
    {
        self.end_page
    }

    /// Length of the area's flattened buffer.
    pub fn buflen(&self) -> (r: usize)
        ensures
            r == self.buflen_spec(),
    {
        self.buflen
    }
}

/// 7-bit I2C address of the display.
pub enum SSD1306Addr {
    Default,
    Secondary,
}

/// SSD1306 display on the PIO I2C bus.
///
/// The display's methods encode each request as the TX FIFO words of one
/// I2C write transfer (see `i2c_frame`); pushing them to the bus is left to
/// the caller.
pub struct SSD1306 {
    dev_addr: u8,
}

/// Every byte at which some pixel of row `y` between columns `lo` and `hi`
/// lies carries that pixel; all other bytes are as in `old`.
pub open spec fn hline_drawn(old: Seq<u8>, new: Seq<u8>, lo: int, hi: int, y: u8, on: bool) -> bool {
    &&& new.len() == old.len()
    &&& forall|x: u8|
        lo <= x <= hi ==> #[trigger] new[pixel_index(x, y)] == with_pixel(
            old[pixel_index(x, y)],
            y,
            on,
        )
    &&& forall|j: int|
        0 <= j < old.len() && (forall|x: u8| lo <= x <= hi ==> #[trigger] pixel_index(x, y) != j)
            ==> new[j] == old[j]
}

impl SSD1306 {
    /// The display's 7-bit I2C address.
    pub closed spec fn addr(&self) -> u8 {
        self.dev_addr
    }

    /// The transfer of a command: the command control byte, then `cmd`.
    pub open spec fn command_frame(&self, cmd: Seq<u8>) -> Seq<u32> {
        i2c_frame(self.addr(), seq![SSD1306_CONTROL_COMMAND] + cmd)
    }

    /// The transfer of display data: the data control byte, then `data`.
    pub open spec fn data_frame(&self, data: Seq<u8>) -> Seq<u32> {
        i2c_frame(self.addr(), seq![SSD1306_CONTROL_DATA] + data)
    }

    /// A display at the given address.
    pub fn new(addr: SSD1306Addr) -> (r: Self)
        ensures
            r.addr() == match addr {
                SSD1306Addr::Default => SSD1306_I2C_ADDR_DEFAULT,
                SSD1306Addr::Secondary => SSD1306_I2C_ADDR_SECONDARY,
            },
    {
        let dev_addr = match addr {
            SSD1306Addr::Default => SSD1306_I2C_ADDR_DEFAULT,
            SSD1306Addr::Secondary => SSD1306_I2C_ADDR_SECONDARY,
        };
        Self { dev_addr }
    }

    /// The display's 7-bit I2C address.
    pub fn dev_addr(&self) -> (r: u8)
        ensures
            r == self.addr(),
    {
        self.dev_addr
    }

    /// The transfer of a command (or of a command followed by its
    /// arguments): control byte `0x80` (Co = 1, D/C = 0), then `cmd`.
    pub fn send_cmd(&self, cmd: &[u8]) -> (r: Vec<u32>)
        requires
            cmd@.len() < MAX_WRITE_BYTES,
        ensures
            r@ == self.command_frame(cmd@),
    {
        let payload = prefixed(SSD1306_CONTROL_COMMAND, cmd);
        i2c_frame_words(self.dev_addr, payload.as_slice())
    }

    /// The transfer of display data: control byte `0x40`, then `data`. In
    /// horizontal addressing mode the column pointer wraps to the next
    /// page, so consecutive bytes fill the area row by row.
    pub fn send_data(&self, data: &[u8]) -> (r: Vec<u32>)
        requires
            data@.len() < MAX_WRITE_BYTES,
        ensures
            r@ == self.data_frame(data@),
    {
        let payload = prefixed(SSD1306_CONTROL_DATA, data);
        i2c_frame_words(self.dev_addr, payload.as_slice())
    }

    // -- fundamental commands

    /// Contrast: 256 steps, 0x7f after reset.
    pub fn set_contrast(&self, contrast: u8) -> (r: Vec<u32>)
        ensures
            r@ == self.command_frame(seq![SSD1306_SET_CONTRAST, contrast]),
    {
        self.send_cmd(&[SSD1306_SET_CONTRAST, contrast])
    }

    /// Display follows the RAM content (entire display on off).
    pub fn disable_entire_on(&self) -> (r: Vec<u32>)
        ensures
            r@ == self.command_frame(seq![SSD1306_SET_ENTIRE_ON_RAM]),
    {
        self.send_cmd(&[SSD1306_SET_ENTIRE_ON_RAM])
    }

    /// All pixels on, whatever the RAM holds.
    pub fn enable_entire_on_all(&self) -> (r: Vec<u32>)
        ensures
            r@ == self.command_frame(seq![SSD1306_SET_ENTIRE_ON_ALL]),
    {
        self.send_cmd(&[SSD1306_SET_ENTIRE_ON_ALL])
    }

    /// Normal (non-inverted) display.
    pub fn set_display_normal(&self) -> (r: Vec<u32>)
        ensures
            r@ == self.command_frame(seq![SSD1306_SET_DISP_NORM]),
    {
        self.send_cmd(&[SSD1306_SET_DISP_NORM])
    }

    /// Inverted display.
    pub fn set_display_inverted(&self) -> (r: Vec<u32>)
        ensures
            r@ == self.command_frame(seq![SSD1306_SET_DISP_INV]),
    {
        self.send_cmd(&[SSD1306_SET_DISP_INV])
    }

    /// Display off (sleep).
    pub fn set_display_off(&self) -> (r: Vec<u32>)
        ensures
            r@ == self.command_frame(seq![SSD1306_SET_DISP_OFF]),
    {
        self.send_cmd(&[SSD1306_SET_DISP_OFF])
    }

    /// Display on.
    pub fn set_display_on(&self) -> (r: Vec<u32>)
        ensures
            r@ == self.command_frame(seq![SSD1306_SET_DISP_ON]),
    {
        self.send_cmd(&[SSD1306_SET_DISP_ON])
    }

    // -- scrolling commands

    /// Stop scrolling.
    pub fn disable_horizontal_scrolling(&self) -> (r: Vec<u32>)
        ensures
            r@ == self.command_frame(seq![SSD1306_SET_SCROLL_DISABLE]),
    {
        self.send_cmd(&[SSD1306_SET_SCROLL_DISABLE])
    }

    /// Start scrolling.
    pub fn enable_horizontal_scrolling(&self) -> (r: Vec<u32>)
        ensures
            r@ == self.command_frame(seq![SSD1306_SET_SCROLL_ENABLE]),
    {
        self.send_cmd(&[SSD1306_SET_SCROLL_ENABLE])
    }

    // -- address setting commands

    /// Column start address for page addressing mode, as two commands:
    /// the lower nibble, then `0x10` with the higher nibble (each clamped
    /// to 0x0f).
    pub fn set_column_start_addr_for_page_mode(&self, lower_start_addr: u8, higher_start_addr: u8) -> (r: Vec<u32>)
        ensures
            r@ == self.command_frame(seq![min_u8(lower_start_addr, ADDR_COLUMN_MAX_PAGE_MODE)])
                + self.command_frame(
                seq![(SSD1306_SET_HIGH_COL_START_ADDR | min_u8(higher_start_addr, ADDR_COLUMN_MAX_PAGE_MODE))],
            ),
    {
        let lower_start_addr = min_u8_exec(lower_start_addr, ADDR_COLUMN_MAX_PAGE_MODE);
        let mut r = self.send_cmd(&[lower_start_addr]);
        let higher_start_addr = min_u8_exec(higher_start_addr, ADDR_COLUMN_MAX_PAGE_MODE);
        let mut second = self.send_cmd(&[SSD1306_SET_HIGH_COL_START_ADDR | higher_start_addr]);
        r.append(&mut second);
        r
    }

    /// Page start address for page addressing mode (clamped to 7).
    pub fn set_page_addr_start_for_page_mode(&self, start_addr: u8) -> (r: Vec<u32>)
        ensures
            r@ == self.command_frame(seq![(SSD1306_SET_PAGE_ADDR_START_PAGE_MODE | min_u8(start_addr, ADDR_PAGE_MAX))]),
    {
        let start_addr = min_u8_exec(start_addr, ADDR_PAGE_MAX);
        self.send_cmd(&[SSD1306_SET_PAGE_ADDR_START_PAGE_MODE | start_addr])
    }

    /// Memory addressing mode: 0 horizontal, 1 vertical, 2 page.
    pub fn cmd_set_mem_addr_mode(&self, mode: SSD1306MemoryAddressMode) -> (r: Vec<u32>)
        ensures
            r@ == self.command_frame(seq![SSD1306_SET_MEM_MODE, mem_mode_byte(mode)]),
    {
        let mode = match mode {
            SSD1306MemoryAddressMode::Horizontal => MEMORY_ADDRESS_MODE_HORIZONTAL,
            SSD1306MemoryAddressMode::Vertical => MEMORY_ADDRESS_MODE_VERTICAL,
            SSD1306MemoryAddressMode::Page => MEMORY_ADDRESS_MODE_PAGE,
        };
        self.send_cmd(&[SSD1306_SET_MEM_MODE, mode])
    }

    /// Column start and end address (each clamped to 127).
    pub fn set_column_addr(&self, start_addr: u8, end_addr: u8) -> (r: Vec<u32>)
        ensures
            r@ == self.command_frame(seq![SSD1306_SET_COL_ADDR, min_u8(start_addr, ADDR_COLUMN_MAX), min_u8(end_addr, ADDR_COLUMN_MAX)]),
    {
        let start_addr = min_u8_exec(start_addr, ADDR_COLUMN_MAX);
        let end_addr = min_u8_exec(end_addr, ADDR_COLUMN_MAX);
        self.send_cmd(&[SSD1306_SET_COL_ADDR, start_addr, end_addr])
    }

    /// Page start and end address (each clamped to 7).
    pub fn set_page_addr(&self, start_addr: u8, end_addr: u8) -> (r: Vec<u32>)
        ensures
            r@ == self.command_frame(seq![SSD1306_SET_PAGE_ADDR, min_u8(start_addr, ADDR_PAGE_MAX), min_u8(end_addr, ADDR_PAGE_MAX)]),
    {
        let start_addr = min_u8_exec(start_addr, ADDR_PAGE_MAX);
        let end_addr = min_u8_exec(end_addr, ADDR_PAGE_MAX);
        self.send_cmd(&[SSD1306_SET_PAGE_ADDR, start_addr, end_addr])
    }

    // -- hardware configuration

    /// Display start line (clamped to 64).
    pub fn set_display_start_line(&self, start_line: u8) -> (r: Vec<u32>)
        ensures
            r@ == self.command_frame(seq![(SSD1306_SET_DISP_START_LINE | min_u8(start_line, START_LINE_MAX))]),
    {
        let start_line = min_u8_exec(start_line, START_LINE_MAX);
        self.send_cmd(&[SSD1306_SET_DISP_START_LINE | start_line])
    }

    /// Segment re-map: with `remap`, column address 127 is mapped to SEG0.
    pub fn set_segment_remap(&self, remap: bool) -> (r: Vec<u32>)
        ensures
            r@ == self.command_frame(seq![(SSD1306_SET_SEG_REMAP | (if remap { 1u8 } else { 0u8 }))]),
    {
        let remap: u8 = if remap { 1 } else { 0 };
        self.send_cmd(&[SSD1306_SET_SEG_REMAP | remap])
    }

    /// Multiplex ratio; a ratio below 15 or above 63 is replaced by 15.
    pub fn set_mux_ratio(&self, ratio: u8) -> (r: Vec<u32>)
        ensures
            r@ == self.command_frame(seq![SSD1306_SET_MUX_RATIO, mux_ratio_value(ratio)]),
    {
        let ratio = if ratio < MUX_RATIO_MIN {
            MUX_RATIO_MIN
        } else if ratio > MUX_RATIO_MAX {
            MUX_RATIO_MIN
        } else {
            ratio
        };
        self.send_cmd(&[SSD1306_SET_MUX_RATIO, ratio])
    }

    /// COM output scan direction: remapped (0xC8) or normal (0xC0).
    pub fn set_com_out_scan_dir(&self, remap: bool) -> (r: Vec<u32>)
        ensures
            r@ == self.command_frame(
                seq![if remap { SSD1306_SET_COM_OUT_SCAN_DIR_REMAPPED } else { SSD1306_SET_COM_OUT_SCAN_DIR_NORMAL }],
            ),
    {
        if remap {
            self.send_cmd(&[SSD1306_SET_COM_OUT_SCAN_DIR_REMAPPED])
        } else {
            self.send_cmd(&[SSD1306_SET_COM_OUT_SCAN_DIR_NORMAL])
        }
    }

    /// Display offset (clamped to 0x3f).
    pub fn set_display_offset(&self, offset: u8) -> (r: Vec<u32>)
        ensures
            r@ == self.command_frame(seq![SSD1306_SET_DISP_OFFSET, min_u8(offset, DISPLAY_OFFSET_MAX)]),
    {
        let offset = min_u8_exec(offset, DISPLAY_OFFSET_MAX);
        self.send_cmd(&[SSD1306_SET_DISP_OFFSET, offset])
    }

    /// COM pins hardware configuration.
    pub fn set_com_pin_cfg(&self, alternative_com_pin: bool, com_left_right_remap: bool) -> (r: Vec<u32>)
        ensures
            r@ == self.command_frame(seq![SSD1306_SET_COM_PIN_CFG, com_pin_cfg_byte(alternative_com_pin, com_left_right_remap)]),
    {
        let pin_cfg = if alternative_com_pin {
            if com_left_right_remap {
                COM_PIN_CFG_ALT_WITH_LR_REMAP
            } else {
                COM_PIN_CFG_ALT_NO_LR_REMAP
            }
        } else {
            if com_left_right_remap {
                COM_PIN_CFG_SEQ_WITH_LR_REMAP
            } else {
                COM_PIN_CFG_SEQ_NO_LR_REMAP
            }
        };
        self.send_cmd(&[SSD1306_SET_COM_PIN_CFG, pin_cfg])
    }

    // -- timing & driving scheme

    /// Display clock: oscillator frequency in the high nibble, divide ratio in the low one.
    pub fn set_disp_clk_div(&self, oscillator_frequency: u8, divide_ratio: u8) -> (r: Vec<u32>)
        ensures
            r@ == self.command_frame(seq![SSD1306_SET_DISP_CLK_DIV, clk_div_value(oscillator_frequency, divide_ratio)]),
    {
        let value = ((oscillator_frequency & 0xf) << 4u8) | (divide_ratio & 0xf);
        self.send_cmd(&[SSD1306_SET_DISP_CLK_DIV, value])
    }

    /// Pre-charge periods: phase 2 in the high nibble, phase 1 in the low one, each at least 1.
    pub fn set_precharge(&self, phase1: u8, phase2: u8) -> (r: Vec<u32>)
        ensures
            r@ == self.command_frame(seq![SSD1306_SET_PRECHARGE, precharge_value(phase1, phase2)]),
    {
        let phase1 = max_u8_exec(1, phase1 & 0xf);
        let phase2 = max_u8_exec(1, phase2 & 0xf);
        let value = (phase2 << 4u8) | (phase1 & 0xf);
        self.send_cmd(&[SSD1306_SET_PRECHARGE, value])
    }

    /// VCOMH deselect level.
    pub fn set_vcomh_deselect_level(&self, level: SSD1306VcomhDeselectLevel) -> (r: Vec<u32>)
        ensures
            r@ == self.command_frame(seq![SSD1306_SET_VCOM_DESEL, vcomh_byte(level)]),
    {
        let level = match level {
            SSD1306VcomhDeselectLevel::V065 => VCOMH_LEVEL_V065,
            SSD1306VcomhDeselectLevel::V077 => VCOMH_LEVEL_V077,
            SSD1306VcomhDeselectLevel::V083 => VCOMH_LEVEL_V083,
            SSD1306VcomhDeselectLevel::Auto => VCOMH_LEVEL_AUTO,
        };
        self.send_cmd(&[SSD1306_SET_VCOM_DESEL, level])
    }

    /// Charge pump off.
    pub fn disable_charge_pump(&self) -> (r: Vec<u32>)
        ensures
            r@ == self.command_frame(seq![SSD1306_SET_CHARGE_PUMP, CHARGE_PUMP_DISABLE]),
    {
        self.send_cmd(&[SSD1306_SET_CHARGE_PUMP, CHARGE_PUMP_DISABLE])
    }

    /// Charge pump on.
    pub fn enable_charge_pump(&self) -> (r: Vec<u32>)
        ensures
            r@ == self.command_frame(seq![SSD1306_SET_CHARGE_PUMP, CHARGE_PUMP_ENABLE]),
    {
        self.send_cmd(&[SSD1306_SET_CHARGE_PUMP, CHARGE_PUMP_ENABLE])
    }

    /// The initialization sequence: multiplex ratio for the display height,
    /// no offset, start line 0, segment re-map, remapped COM scan, sequential
    /// COM pins, default contrast, RAM content shown, normal display, default
    /// clock, horizontal addressing, no scrolling, charge pump on, display on.
    pub fn init(&self) -> (r: Vec<u32>)
        ensures
            r@ == self.command_frame(seq![SSD1306_SET_MUX_RATIO, (SSD1306_HEIGHT - 1) as u8])
                + self.command_frame(seq![SSD1306_SET_DISP_OFFSET, 0u8])
                + self.command_frame(seq![SSD1306_SET_DISP_START_LINE])
                + self.command_frame(seq![(SSD1306_SET_SEG_REMAP | 1u8)])
                + self.command_frame(seq![SSD1306_SET_COM_OUT_SCAN_DIR_REMAPPED])
                + self.command_frame(seq![SSD1306_SET_COM_PIN_CFG, COM_PIN_CFG_SEQ_NO_LR_REMAP])
                + self.command_frame(seq![SSD1306_SET_CONTRAST, CONTRAST_DEFAULT])
                + self.command_frame(seq![SSD1306_SET_ENTIRE_ON_RAM])
                + self.command_frame(seq![SSD1306_SET_DISP_NORM])
                + self.command_frame(seq![SSD1306_SET_DISP_CLK_DIV, 0x80u8])
                + self.command_frame(seq![SSD1306_SET_MEM_MODE, MEMORY_ADDRESS_MODE_HORIZONTAL])
                + self.command_frame(seq![SSD1306_SET_SCROLL_DISABLE])
                + self.command_frame(seq![SSD1306_SET_CHARGE_PUMP, CHARGE_PUMP_ENABLE])
                + self.command_frame(seq![SSD1306_SET_DISP_ON]),
    {
        let mut r = self.set_mux_ratio(SSD1306_HEIGHT - 1);
        let mut next = self.set_display_offset(0);
        r.append(&mut next);
        let mut next = self.set_display_start_line(0);
        assert((SSD1306_SET_DISP_START_LINE | min_u8(0, START_LINE_MAX)) == SSD1306_SET_DISP_START_LINE) by (bit_vector);
        r.append(&mut next);
        let mut next = self.set_segment_remap(true);
        r.append(&mut next);
        let mut next = self.set_com_out_scan_dir(true);
        r.append(&mut next);
        let mut next = self.set_com_pin_cfg(false, false);
        r.append(&mut next);
        let mut next = self.set_contrast(CONTRAST_DEFAULT);
        r.append(&mut next);
        let mut next = self.disable_entire_on();
        r.append(&mut next);
        let mut next = self.set_display_normal();
        r.append(&mut next);
        let mut next = self.set_disp_clk_div(OSCILLATOR_FREQUENCY_DEFAULT, DIVIDE_RATIO_DEFAULT);
        assert(clk_div_value(OSCILLATOR_FREQUENCY_DEFAULT, DIVIDE_RATIO_DEFAULT) == 0x80u8) by (bit_vector);
        r.append(&mut next);
        let mut next = self.cmd_set_mem_addr_mode(SSD1306MemoryAddressMode::Horizontal);
        r.append(&mut next);
        let mut next = self.disable_horizontal_scrolling();
        r.append(&mut next);
        let mut next = self.enable_charge_pump();
        r.append(&mut next);
        let mut next = self.set_display_on();
        r.append(&mut next);
        r
    }

    /// Update a portion of the display: column range, page range, then
    /// the data of the area.
    pub fn render(&self, data: &[u8], area: &SSD1306RenderArea) -> (r: Vec<u32>)
        requires
            data@.len() < MAX_WRITE_BYTES,
        ensures
            r@ == self.command_frame(
                seq![
                    SSD1306_SET_COL_ADDR,
                    min_u8(area.start_col_spec(), ADDR_COLUMN_MAX),
                    min_u8(area.end_col_spec(), ADDR_COLUMN_MAX),
                ],
            ) + self.command_frame(
                seq![
                    SSD1306_SET_PAGE_ADDR,
                    min_u8(area.start_page_spec(), ADDR_PAGE_MAX),
                    min_u8(area.end_page_spec(), ADDR_PAGE_MAX),
                ],
            ) + self.data_frame(data@),
    {
        let mut r = self.set_column_addr(area.start_col, area.end_col);
        let mut next = self.set_page_addr(area.start_page, area.end_page);
        r.append(&mut next);
        let mut next = self.send_data(data);
        r.append(&mut next);
        r
    }

    /// Set (`on`) or clear one pixel of the frame buffer; coordinates are
    /// clamped to the display size first.
    pub fn set_pixel(buf: &mut [u8; SSD1306_BUF_LEN], x: u8, y: u8, on: bool)
        requires
            pixel_index(x, y) < SSD1306_BUF_LEN,
        ensures
            final(buf)@ == old(buf)@.update(
                pixel_index(x, y),
                with_pixel(old(buf)@[pixel_index(x, y)], y, on),
            ),
    {
        let x = min_u8_exec(x, SSD1306_WIDTH);
        let y = min_u8_exec(y, SSD1306_HEIGHT);
        let bytes_per_row = SSD1306_WIDTH as usize;
        let byte_idx = (y as usize / 8) * bytes_per_row + x as usize;
        let mut byte = buf[byte_idx];
        if on {
            byte |= 1u8 << (y % 8);
        } else {
            byte &= !(1u8 << (y % 8));
        }
        buf[byte_idx] = byte;
    }

    /// Basic Bresenham line.
    ///
    /// Only lines within one row, at most 127 columns long, are drawn
    /// without arithmetic overflow: the row difference is taken as an
    /// unsigned byte and twice the error must fit one.
    pub fn draw_line(buf: &mut [u8; SSD1306_BUF_LEN], x0: u8, y0: u8, x1: u8, y1: u8, on: bool)
        requires
            y0 == y1,
            x0 <= x1 ==> x1 - x0 <= 127,
            x1 <= x0 ==> x0 - x1 <= 127,
            forall|x: u8|
                (x0 <= x <= x1 || x1 <= x <= x0) ==> #[trigger] pixel_index(x, y0) < SSD1306_BUF_LEN,
        ensures
            hline_drawn(
                old(buf)@,
                final(buf)@,
                min_u8(x0, x1) as int,
                if x0 < x1 { x1 as int } else { x0 as int },
                y0,
                on,
            ),
    {
        let ghost orig = buf@;
        let ghost xs = x0;
        let ghost xe = x1;
        let ghost ys = y0;
        let sx: i16 = if x0 < x1 { 1 } else { -1 };
        let dx: u8 = if sx > 0 { x1 - x0 } else { x0 - x1 };
        let sy: i16 = if y0 < y1 { 1 } else { -1 };
        let dy: u8 = if sy > 0 { y0 - y1 } else { y1 - y0 };
        let mut x0: i16 = x0 as i16;
        let mut y0: i16 = y0 as i16;
        let x1: i16 = x1 as i16;
        let y1: i16 = y1 as i16;
        let mut err: u8 = dx + dy;
        let mut e2: u8;
        // the columns drawn so far lie between `xs` and `x0`, excluding `x0`
        loop
            invariant_except_break
                dy == 0,
                err == dx,
                x1 == xe as i16,
                y0 == ys as i16,
                dx <= 127,
                y0 == y1,
                0 <= y0 < 256,
                0 <= x1 < 256,
                sx == 1 ==> xs <= x0 <= x1,
                sx == -1 ==> x1 <= x0 <= xs,
                sx == 1 || sx == -1,
                sx == 1 <==> xs < x1,
                dx == (if sx == 1 { x1 - xs } else { xs - x1 }),
                forall|x: u8| (xs <= x <= x1 || x1 <= x <= xs) ==> #[trigger] pixel_index(x, y0 as u8) < SSD1306_BUF_LEN,
                buf@.len() == orig.len(),
                forall|x: u8|
                    (if sx == 1 { xs <= x < x0 } else { x0 < x <= xs }) ==> #[trigger] buf@[pixel_index(x, y0 as u8)]
                        == with_pixel(orig[pixel_index(x, y0 as u8)], y0 as u8, on),
                forall|j: int|
                    0 <= j < orig.len() && (forall|x: u8|
                        (if sx == 1 { xs <= x < x0 } else { x0 < x <= xs }) ==> #[trigger] pixel_index(x, y0 as u8) != j)
                        ==> buf@[j] == orig[j],
            ensures
                hline_drawn(orig, buf@, min_u8(xs, xe) as int, if xs < xe { xe as int } else { xs as int }, ys, on),
            decreases (if sx == 1 { x1 - x0 } else { x0 - x1 }),
        {
            let ghost before = buf@;
            let ghost cx = x0 as u8;
            Self::set_pixel(buf, x0 as u8, y0 as u8, on);
            proof {
                let yy = y0 as u8;
                let pc = pixel_index(cx, yy);
                assert forall|x: u8|
                    (if sx == 1 { xs <= x <= cx } else { cx <= x <= xs }) implies #[trigger] buf@[pixel_index(x, yy)]
                        == with_pixel(orig[pixel_index(x, yy)], yy, on) by {
                    let p = pixel_index(x, yy);
                    if p == pc {
                        if exists|z: u8| (if sx == 1 { xs <= z < cx } else { cx < z <= xs }) && #[trigger] pixel_index(z, yy) == p {
                            let z = choose|z: u8| (if sx == 1 { xs <= z < cx } else { cx < z <= xs }) && #[trigger] pixel_index(z, yy) == p;
                            assert(before[pixel_index(z, yy)] == with_pixel(orig[pixel_index(z, yy)], yy, on));
                            lemma_with_pixel_idempotent(orig[p], yy, on);
                        } else {
                            assert(before[p] == orig[p]);
                        }
                    } else {
                        assert(x != cx);
                    }
                }
                assert forall|j: int|
                    0 <= j < orig.len() && (forall|x: u8|
                        (if sx == 1 { xs <= x <= cx } else { cx <= x <= xs }) ==> #[trigger] pixel_index(x, yy) != j)
                        implies buf@[j] == orig[j] by {
                    assert(pixel_index(cx, yy) != j);
                }
            }
            if x0 == x1 && y0 == y1 {
                break;
            }
            e2 = 2 * err;
            if e2 >= dy {
                err += dy;
                x0 += sx;
            }
            if e2 <= dx {
                err += dx;
                y0 += sy;
            }
        }
    }

    /// Font table index of a character: 1..=26 for `A`..`Z`, 27..=36 for
    /// `0`..`9`, and 0 (blank) for anything else.
    pub fn get_font_index(ch: u8) -> (r: usize)
        ensures
            r == font_index_spec(ch),
            r < 37,
    {
        if ch >= ASCII_A && ch <= ASCII_Z {
            return (ch - ASCII_A + 1) as usize;
        } else if ch >= ASCII_0 && ch <= ASCII_9 {
            return (ch - ASCII_0 + 27) as usize;
        }
        0
    }

    /// Draw one 8x8 character with its top-left corner at `(x, y)`.
    ///
    /// Lower-case letters are drawn as upper case. Characters that would
    /// not fit the display are not drawn; `y` is rounded down to a page.
    /// The byte offset of the character is computed in an unsigned byte,
    /// so characters are drawn on the upper two pages only.
    pub fn write_char(buf: &mut [u8; SSD1306_BUF_LEN], x: u8, y: u8, ch: u8)
        requires
            !char_fits(x as int, y) || y < 16,
        ensures
            final(buf)@ == char_drawn(old(buf)@, x as int, y, ch),
            !(x <= 120 && y <= 24) ==> final(buf)@ == old(buf)@,
            x <= 120 && y <= 24 ==> forall|k: int|
                0 <= k < 8 ==> #[trigger] final(buf)@[(y / 8) as int * 128 + x + k] == FONT@[font_index_spec(
                    to_upper_spec(ch),
                ) * 8 + k],
            x <= 120 && y <= 24 && !(65 <= ch <= 90 || 97 <= ch <= 122 || 48 <= ch <= 57) ==> forall|k: int|
                0 <= k < 8 ==> #[trigger] final(buf)@[(y / 8) as int * 128 + x + k] == 0,
            forall|j: int|
                0 <= j < SSD1306_BUF_LEN && !((y / 8) as int * 128 + x <= j < (y / 8) as int * 128 + x + 8)
                    ==> #[trigger] final(buf)@[j] == old(buf)@[j],
    {
        proof {
            lemma_char_drawn_glyph(buf@, x as int, y, ch);
        }
        // -- check bounds
        if x > SSD1306_WIDTH - 8 || y > SSD1306_HEIGHT - 8 {
            return;
        }
        // -- only write on page boundaries (every 8 vertical pixels)
        let y = y / 8;
        // -- toupper
        let ch = if ch >= ASCII_A_LOWER && ch <= ASCII_Z_LOWER {
            ch - (ASCII_A_LOWER - ASCII_A)
        } else {
            ch
        };
        let idx = Self::get_font_index(ch);
        let mut fb_idx = (y * 128 + x) as usize;
        let ghost orig = buf@;
        let ghost fb0 = fb_idx as int;
        for i in 0..8usize
            invariant
                fb_idx == fb0 + i,
                fb0 + 8 <= SSD1306_BUF_LEN,
                idx < 37,
                buf@.len() == orig.len(),
                forall|j: int|
                    0 <= j < orig.len() ==> #[trigger] buf@[j] == (if fb0 <= j < fb0 + i {
                        FONT@[idx * 8 + (j - fb0)]
                    } else {
                        orig[j]
                    }),
        {
            buf[fb_idx] = FONT[idx * 8 + i];
            fb_idx += 1;
        }
        assert(buf@ =~= glyph_drawn(orig, fb0, idx as int));
    }

    /// Draw a string of 8x8 characters from `(x, y)` rightwards; each
    /// character is drawn as by `write_char` (taking its code point's low
    /// byte). Nothing is drawn when the start does not fit the display.
    ///
    /// The column advances in an unsigned byte, which must not overflow.
    pub fn write_string(buf: &mut [u8; SSD1306_BUF_LEN], x: u8, y: u8, val: &str)
        requires
            !char_fits(x as int, y) || ((val@.len() == 0 || y < 16) && x + 8 * val@.len() <= 255),
        ensures
            final(buf)@ == (if char_fits(x as int, y) {
                string_drawn(old(buf)@, x as int, y, val@)
            } else {
                old(buf)@
            }),
    {
        // -- check bounds
        if x > SSD1306_WIDTH - 8 || y > SSD1306_HEIGHT - 8 {
            return;
        }
        let ghost orig = buf@;
        let ghost x_start = x as int;
        let n = val.unicode_len();
        let mut x = x;
        let mut i: usize = 0;
        while i < n
            invariant
                n == val@.len(),
                i <= n,
                x == x_start + 8 * i,
                x_start + 8 * n <= 255,
                n == 0 || y < 16,
                buf@ == string_drawn(orig, x_start, y, val@.subrange(0, i as int)),
            decreases n - i,
        {
            let c = val.get_char(i);
            let ch = c as u8;
            Self::write_char(buf, x, y, ch);
            proof {
                let t = val@.subrange(0, i + 1);
                assert(t.drop_last() =~= val@.subrange(0, i as int));
                assert(t.last() == c);
            }
            x += 8;
            i += 1;
        }
        assert(val@.subrange(0, n as int) =~= val@);
    }
}

/// Font table index of a character code.
pub open spec fn font_index_spec(ch: u8) -> int {
    if ASCII_A <= ch <= ASCII_Z {
        ch - ASCII_A + 1
    } else if ASCII_0 <= ch <= ASCII_9 {
        ch - ASCII_0 + 27
    } else {
        0
    }
}

/// Upper-case version of an ASCII letter; other codes are unchanged.
pub open spec fn to_upper_spec(ch: u8) -> u8 {
    if ASCII_A_LOWER <= ch <= ASCII_Z_LOWER {
        (ch - 32) as u8
    } else {
        ch
    }
}

/// Whether an 8x8 character at `(x, y)` fits the display.
pub open spec fn char_fits(x: int, y: u8) -> bool {
    x <= SSD1306_WIDTH - 8 && y <= SSD1306_HEIGHT - 8
}

/// The frame buffer with glyph `idx` written to the eight bytes from `fb`.
pub open spec fn glyph_drawn(old: Seq<u8>, fb: int, idx: int) -> Seq<u8> {
    Seq::new(old.len(), |j: int| if fb <= j < fb + 8 { FONT@[idx * 8 + (j - fb)] } else { old[j] })
}

/// The frame buffer after drawing character `ch` at `(x, y)`.
pub open spec fn char_drawn(old: Seq<u8>, x: int, y: u8, ch: u8) -> Seq<u8> {
    if char_fits(x, y) {
        glyph_drawn(old, (y / 8) as int * 128 + x, font_index_spec(to_upper_spec(ch)))
    } else {
        old
    }
}

/// Drawing a character that fits the display writes exactly the eight
/// bytes at its position, with the glyph of its font index; a character
/// outside the font (not a letter or digit) writes the blank glyph, so it
/// erases what was there. A character that does not fit draws nothing.
pub proof fn lemma_char_drawn_glyph(old: Seq<u8>, x: int, y: u8, ch: u8)
    requires
        old.len() == SSD1306_BUF_LEN,
        0 <= x,
    ensures
        char_drawn(old, x, y, ch).len() == old.len(),
        !(x <= 120 && y <= 24) ==> char_drawn(old, x, y, ch) == old,
        x <= 120 && y <= 24 ==> forall|k: int|
            0 <= k < 8 ==> #[trigger] char_drawn(old, x, y, ch)[(y / 8) as int * 128 + x + k] == FONT@[
                font_index_spec(to_upper_spec(ch)) * 8 + k],
        x <= 120 && y <= 24 && !(65 <= ch <= 90 || 97 <= ch <= 122 || 48 <= ch <= 57) ==> forall|k: int|
            0 <= k < 8 ==> #[trigger] char_drawn(old, x, y, ch)[(y / 8) as int * 128 + x + k] == 0,
        forall|j: int|
            0 <= j < old.len() && !((y / 8) as int * 128 + x <= j < (y / 8) as int * 128 + x + 8)
                ==> #[trigger] char_drawn(old, x, y, ch)[j] == old[j],
{
    assert(FONT@[0] == 0 && FONT@[1] == 0 && FONT@[2] == 0 && FONT@[3] == 0 && FONT@[4] == 0 && FONT@[5]
        == 0 && FONT@[6] == 0 && FONT@[7] == 0);
    if x <= 120 && y <= 24 {
        assert((y / 8) as int * 128 + x + 8 <= old.len());
    }
}

/// The frame buffer after drawing the characters of `s` from `(x, y)`,
/// eight columns apart.
pub open spec fn string_drawn(old: Seq<u8>, x: int, y: u8, s: Seq<char>) -> Seq<u8>
    decreases s.len(),
{
    if s.len() == 0 {
        old
    } else {
        char_drawn(string_drawn(old, x, y, s.drop_last()), x + 8 * (s.len() - 1), y, s.last() as u8)
    }
}

} // verus!
