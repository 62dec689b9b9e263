//! FT6X06 capacitive touch controller: register layout, decoding of register
//! reads, and phantom-touch filtering.
//!
//! The FT6X06 is connected via I2C1 at address 0x38 (PB8=SCL, PB9=SDA). It is
//! powered from the display module — SDRAM and display must be initialized
//! before touch works.
//!
//! # Phantom touches
//!
//! The FT6X06 reports phantom touches at screen edges (x=0, y=445, x=479, y=767)
//! due to electrical noise. Consumers should filter edge touches, e.g. with
//! [`EdgeFilter::default_ft6x06`], which rejects `x < 3 || x > 476 || y < 3 || y > 796`.

use vstd::prelude::*;

verus! {

/// I2C address of the FT6X06.
pub const FT6X06_ADDR: u8 = 0x38;

/// Touch detect status register.
pub const REG_TD_STATUS: u8 = 0x02;

/// First register of the first touch point (X high byte).
pub const REG_TOUCH1_XH: u8 = 0x03;

/// Vendor ID register.
pub const REG_VENDOR_ID: u8 = 0xA8;

/// Chip model register.
pub const REG_CHIP_MODEL: u8 = 0xA3;

/// Vendor ID reported by all FocalTech FT62XX family chips.
pub const FT6X06_VENDOR_ID: u8 = 0x11;

/// Error type for FT6X06 touch controller operations.
#[derive(Clone, Copy, PartialEq, Eq, Debug)]
pub enum TouchError<E> {
    /// I2C bus error (NACK, timeout, bus error, etc.).
    I2c(E),
    /// I2C read succeeded but the response was unexpected (e.g. invalid vendor ID).
    InvalidResponse,
}

impl<E> From<E> for TouchError<E> {
    fn from(e: E) -> (r: Self)
        ensures
            r == TouchError::<E>::I2c(e),
    {
        TouchError::I2c(e)
    }
}

impl<E> vstd::std_specs::convert::FromSpecImpl<E> for TouchError<E> {
    open spec fn obeys_from_spec() -> bool {
        true
    }

    open spec fn from_spec(e: E) -> Self {
        TouchError::I2c(e)
    }
}

/// A single touch coordinate from the FT6X06.
///
/// X ranges 0..479, Y ranges 0..799. Phantom touches may appear at edges —
/// filter with a 3px margin using [`EdgeFilter::default_ft6x06()`].
#[derive(Clone, Copy, PartialEq, Eq, Debug, Default, Structural)]
pub struct TouchPoint {
    /// X coordinate of the touch event (0..479).
    pub x: u16,
    /// Y coordinate of the touch event (0..799).
    pub y: u16,
}

/// Filter for rejecting phantom touch events at screen edges.
///
/// Use [`EdgeFilter::default_ft6x06()`] for the recommended filter values.
#[derive(Clone, Copy, Debug, PartialEq, Eq, Structural)]
pub struct EdgeFilter {
    /// Minimum valid X coordinate (reject touches left of this value).
    pub left: u16,
    /// Maximum valid X coordinate (reject touches right of this value).
    pub right: u16,
    /// Minimum valid Y coordinate (reject touches above this value).
    pub top: u16,
    /// Maximum valid Y coordinate (reject touches below this value).
    pub bottom: u16,
}

impl EdgeFilter {
    /// Create a custom edge filter.
    pub fn new(left: u16, right: u16, top: u16, bottom: u16) -> (f: Self)
        ensures
            f == (EdgeFilter { left, right, top, bottom }),
    {
        EdgeFilter { left, right, top, bottom }
    }

    /// Default filter values for the FT6X06 on STM32F469I-Discovery.
    ///
    /// Rejects touches within 3 pixels of any edge, which eliminates the
    /// phantom touches at x=0, y=445, x=479, y=767.
    pub fn default_ft6x06() -> (f: Self)
        ensures
            f == (EdgeFilter { left: 3, right: 476, top: 3, bottom: 796 }),
    {
        EdgeFilter { left: 3, right: 476, top: 3, bottom: 796 }
    }

    /// Whether a point lies within the filter's bounds (inclusive).
    pub open spec fn spec_accepts(self, point: TouchPoint) -> bool {
        self.left <= point.x <= self.right && self.top <= point.y <= self.bottom
    }

    /// Whether a touch point is kept: it must not lie left of `left`, right of
    /// `right`, above `top` or below `bottom`.
    pub fn accepts(&self, point: TouchPoint) -> (r: bool)
        ensures
            r == self.spec_accepts(point),
    {
        !(point.x < self.left || point.x > self.right || point.y < self.top || point.y
            > self.bottom)
    }
}

impl Default for EdgeFilter {
    /// Returns the recommended FT6X06 edge filter (3px margin on all sides).
    fn default() -> (f: Self)
        ensures
            f == (EdgeFilter { left: 3, right: 476, top: 3, bottom: 796 }),
    {
        Self::default_ft6x06()
    }
}

/// Number of touch points currently detected: the lower 4 bits of the
/// touch detect status register (0x02).
pub fn touch_count(td_status_reg: u8) -> (n: u8)
    ensures
        n == td_status_reg & 0x0F,
        n as int == td_status_reg as int % 16,
        n <= 15,
{
    assert(td_status_reg & 0x0F == td_status_reg % 16 && td_status_reg & 0x0F <= 15) by (bit_vector);
    td_status_reg & 0x0F
}

/// 12-bit coordinate from a high register (lower nibble used) and a low register.
pub open spec fn spec_coordinate(high: u8, low: u8) -> u16 {
    ((high as int % 16) * 256 + low as int) as u16
}

/// Decodes the first touch point from registers 0x03..0x06: X and Y each take
/// the low nibble of their high register as bits 8..12 and their low register
/// as bits 0..8.
pub fn decode_touch_point(regs: [u8; 4]) -> (p: TouchPoint)
    ensures
        p.x == spec_coordinate(regs[0], regs[1]),
        p.y == spec_coordinate(regs[2], regs[3]),
        p.x < 4096,
        p.y < 4096,
{
    let b0 = regs[0];
    let b1 = regs[1];
    let b2 = regs[2];
    let b3 = regs[3];
    let x = (((b0 & 0x0F) as u16) << 8u16) | (b1 as u16);
    let y = (((b2 & 0x0F) as u16) << 8u16) | (b3 as u16);
    assert(((((b0 & 0x0F) as u16) << 8u16) | (b1 as u16)) as int == (b0 as int % 16) * 256
        + b1 as int) by (bit_vector);
    assert(((((b2 & 0x0F) as u16) << 8u16) | (b3 as u16)) as int == (b2 as int % 16) * 256
        + b3 as int) by (bit_vector);
    TouchPoint { x, y }
}

/// The touch reported to the caller: the point, unless a filter is set and
/// rejects it.
pub open spec fn spec_filter_touch(point: TouchPoint, filter: Option<EdgeFilter>) -> Option<
    TouchPoint,
> {
    match filter {
        Some(f) => if f.spec_accepts(point) {
            Some(point)
        } else {
            None
        },
        None => Some(point),
    }
}

/// An edge filter judges a point's X only against `left`/`right` and its Y
/// only against `top`/`bottom`, bounds included: a point is kept exactly when
/// `left <= x <= right` and `top <= y <= bottom`, for any filter, so that moving
/// the top or bottom bound never changes the verdict on a point's X, and moving
/// the left or right bound never changes the verdict on its Y.
pub proof fn lemma_edge_filter_bounds(f: EdgeFilter, point: TouchPoint)
    ensures
        f.spec_accepts(point) <==> (f.left <= point.x && point.x <= f.right && f.top <= point.y
            && point.y <= f.bottom),
        forall|g: EdgeFilter|
            g.left == f.left && g.right == f.right && g.top <= point.y <= g.bottom && f.top
                <= point.y <= f.bottom ==> (#[trigger] g.spec_accepts(point) == f.spec_accepts(
                point)),
        forall|g: EdgeFilter|
            g.top == f.top && g.bottom == f.bottom && g.left <= point.x <= g.right && f.left
                <= point.x <= f.right ==> (#[trigger] g.spec_accepts(point) == f.spec_accepts(
                point)),
{
}

/// Filtering never alters a touch point: it hands back the decoded point
/// itself or nothing. Without a filter the point is always kept; with one, it is
/// kept exactly when it lies within the filter's bounds.
pub proof fn lemma_filter_keeps_or_drops(point: TouchPoint, filter: Option<EdgeFilter>)
    ensures
        spec_filter_touch(point, filter) is Some ==> spec_filter_touch(point, filter) == Some(
            point,
        ),
        filter is None ==> spec_filter_touch(point, filter) == Some(point),
        filter matches Some(f) ==> (spec_filter_touch(point, filter) is Some <==> (f.left
            <= point.x && point.x <= f.right && f.top <= point.y && point.y <= f.bottom)),
{
}

/// A decoded coordinate takes its low byte from the low register and its bits
/// 8..12 from the low nibble of the high register; the high nibble of the high
/// register is ignored.
pub proof fn lemma_coordinate_bits(high: u8, low: u8)
    ensures
        spec_coordinate(high, low) & 0xFF == low as u16,
        spec_coordinate(high, low) >> 8u16 == (high & 0x0F) as u16,
        spec_coordinate(high, low) == spec_coordinate(high & 0x0F, low),
{
    let c = spec_coordinate(high, low);
    assert(c as int == (high as int % 16) * 256 + low as int);
    assert(high & 0x0F == high % 16) by (bit_vector);
    let v: u16 = c;
    assert(v & 0xFF == low as u16 && v >> 8u16 == (high & 0x0F) as u16) by (bit_vector)
        requires
            v == ((high & 0x0F) as u16) * 256u16 + low as u16,
    ;
    assert((high & 0x0F) % 16 == high % 16) by (bit_vector);
}

/// Applies an optional edge filter to a decoded touch point.
pub fn filter_touch(point: TouchPoint, filter: Option<EdgeFilter>) -> (r: Option<TouchPoint>)
    ensures
        r == spec_filter_touch(point, filter),
{
    match filter {
        Some(f) => {
            if f.accepts(point) {
                Some(point)
            } else {
                None
            }
        },
        None => Some(point),
    }
}

/// Whether a chip model ID is a known FT6X06 family member.
pub open spec fn spec_known_chip_model(model: u8) -> bool {
    model == 0x06 || model == 0x36 || model == 0x64
}

/// Whether a chip model ID is a known FT6X06 family member: FT6206 (0x06),
/// FT6236 (0x36), FT6236U/FT6336U (0x64).
pub fn is_known_chip_model(model: u8) -> (r: bool)
    ensures
        r == spec_known_chip_model(model),
{
    model == 0x06 || model == 0x36 || model == 0x64
}

/// Whether the first touch point is to be read after the touch detect status
/// reported `count` touches: only when at least one touch is detected.
pub fn needs_point_read(count: u8) -> (r: bool)
    ensures
        r == (count != 0),
{
    count != 0
}

/// The character of a decimal digit `d` (0..=9).
pub open spec fn digit_char(d: int) -> char {
    if d == 0 {
        '0'
    } else if d == 1 {
        '1'
    } else if d == 2 {
        '2'
    } else if d == 3 {
        '3'
    } else if d == 4 {
        '4'
    } else if d == 5 {
        '5'
    } else if d == 6 {
        '6'
    } else if d == 7 {
        '7'
    } else if d == 8 {
        '8'
    } else {
        '9'
    }
}

/// Decimal text of `v`, most significant digit first (`"0"` for zero).
pub open spec fn decimal_text(v: nat) -> Seq<char>
    decreases v,
{
    if v < 10 {
        seq![digit_char(v as int)]
    } else {
        decimal_text(v / 10).push(digit_char(v as int % 10))
    }
}

/// The number that a string of decimal digit characters spells, most
/// significant digit first.
pub open spec fn text_value(text: Seq<char>) -> int
    decreases text.len(),
{
    if text.len() == 0 {
        0
    } else {
        text_value(text.drop_last()) * 10 + (text.last() as int - '0' as int)
    }
}

/// The decimal text of `v` spells `v`: every character is a digit `0`..`9`,
/// there is at least one, and the first is `0` only for zero itself.
pub proof fn lemma_decimal_text_spells_value(v: nat)
    ensures
        text_value(decimal_text(v)) == v,
        decimal_text(v).len() > 0,
        forall|i: int|
            0 <= i < decimal_text(v).len() ==> '0' <= #[trigger] decimal_text(v)[i] <= '9',
        decimal_text(v)[0] == '0' ==> v == 0,
    decreases v,
{
    let t = decimal_text(v);
    if v < 10 {
        assert(t.drop_last().len() == 0);
        assert(text_value(t.drop_last()) == 0);
        assert(digit_char(v as int) as int == '0' as int + v);
        assert(text_value(t) == text_value(t.drop_last()) * 10 + (t.last() as int - '0' as int));
    } else {
        lemma_decimal_text_spells_value(v / 10);
        let prev = decimal_text(v / 10);
        let d = v as int % 10;
        assert(t == prev.push(digit_char(d)));
        assert(t.drop_last() == prev);
        assert(digit_char(d) as int == '0' as int + d);
        assert forall|i: int| 0 <= i < t.len() implies '0' <= #[trigger] t[i] <= '9' by {
            if i < prev.len() {
                assert(t[i] == prev[i]);
            }
        }
        assert(t[0] == prev[0]);
        assert(text_value(t) == text_value(prev) * 10 + (t.last() as int - '0' as int));
        assert((v / 10) * 10 + v % 10 == v);
    }
}

/// The text of a touch point shows its X then its Y in decimal, between
/// `(` and `)` and separated by `, `.
pub proof fn lemma_point_text_shows_coordinates(point: TouchPoint)
    ensures
        ({
            let t = point.spec_text();
            let xs = decimal_text(point.x as nat);
            let ys = decimal_text(point.y as nat);
            &&& t.len() == xs.len() + ys.len() + 4
            &&& t[0] == '('
            &&& t.subrange(1, 1 + xs.len() as int) == xs
            &&& text_value(t.subrange(1, 1 + xs.len() as int)) == point.x
            &&& t[1 + xs.len() as int] == ','
            &&& t[2 + xs.len() as int] == ' '
            &&& text_value(t.subrange(3 + xs.len() as int, t.len() - 1)) == point.y
            &&& t.last() == ')'
        }),
{
    lemma_decimal_text_spells_value(point.x as nat);
    lemma_decimal_text_spells_value(point.y as nat);
    let t = point.spec_text();
    let xs = decimal_text(point.x as nat);
    let ys = decimal_text(point.y as nat);
    assert(t.subrange(1, 1 + xs.len() as int) =~= xs);
    assert(t.subrange(3 + xs.len() as int, t.len() - 1) =~= ys);
}

/// One decimal digit as text.
fn digit_str(d: u16) -> (s: &'static str)
    requires
        d < 10,
    ensures
        s@ == seq![digit_char(d as int)],
{
    let s = if d == 0 {
        "0"
    } else if d == 1 {
        "1"
    } else if d == 2 {
        "2"
    } else if d == 3 {
        "3"
    } else if d == 4 {
        "4"
    } else if d == 5 {
        "5"
    } else if d == 6 {
        "6"
    } else if d == 7 {
        "7"
    } else if d == 8 {
        "8"
    } else {
        "9"
    };
    proof {
        reveal_strlit("0");
        reveal_strlit("1");
        reveal_strlit("2");
        reveal_strlit("3");
        reveal_strlit("4");
        reveal_strlit("5");
        reveal_strlit("6");
        reveal_strlit("7");
        reveal_strlit("8");
        reveal_strlit("9");
        assert(s@ =~= seq![digit_char(d as int)]);
    }
    s
}

/// Appends the decimal text of `v` to `out`.
fn append_decimal(out: &mut String, v: u16)
    ensures
        final(out)@ == old(out)@ + decimal_text(v as nat),
    decreases v,
{
    if v >= 10 {
        append_decimal(out, v / 10);
    }
    out.append(digit_str(v % 10));
    proof {
        assert(final(out)@ =~= old(out)@ + decimal_text(v as nat));
    }
}

impl TouchPoint {
    /// The point as text: `(x, y)` in decimal.
    pub open spec fn spec_text(self) -> Seq<char> {
        seq!['('] + decimal_text(self.x as nat) + seq![',', ' '] + decimal_text(self.y as nat)
            + seq![')']
    }

    /// The point as text, `(x, y)` in decimal, e.g. `(240, 400)`.
    pub fn display_string(&self) -> (s: String)
        ensures
            s@ == self.spec_text(),
    {
        let mut s = String::new();
        s.append("(");
        append_decimal(&mut s, self.x);
        s.append(", ");
        append_decimal(&mut s, self.y);
        s.append(")");
        proof {
            reveal_strlit("(");
            reveal_strlit(", ");
            reveal_strlit(")");
            assert(s@ =~= self.spec_text());
        }
        s
    }
}

impl<E> TouchError<E> {
    /// The error as text: `I2C error: ` followed by `bus_detail` (the bus
    /// error's debug text) for a bus error, `invalid response from FT6X06`
    /// otherwise.
    pub fn display_string(&self, bus_detail: &str) -> (s: String)
        ensures
            self is I2c ==> s@ == "I2C error: "@ + bus_detail@,
            self is InvalidResponse ==> s@ == "invalid response from FT6X06"@,
    {
        match self {
            TouchError::I2c(_) => {
                let mut s = String::from_str("I2C error: ");
                s.append(bus_detail);
                s
            },
            TouchError::InvalidResponse => String::from_str("invalid response from FT6X06"),
        }
    }
}

/// The known FT6X06 family members are exactly the FT6206 (0x06), the FT6236
/// (0x36) and the FT6236U/FT6336U (0x64).
pub proof fn lemma_known_chip_models(model: u8)
    ensures
        spec_known_chip_model(model) <==> set![0x06u8, 0x36u8, 0x64u8].contains(model),
{
}

} // verus!
