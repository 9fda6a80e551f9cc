//! The arithmetic behind the screen's digits and gauges: which digits to
//! draw, where each digit sits in the digit sprite sheet, and which gauge
//! image shows a volume or a battery level.
use vstd::prelude::*;

verus! {

/// Width, in pixels, of one cell of the digit sprite sheet.
pub const DIGIT_CELL_WIDTH: u32 = 14;

/// Height, in pixels, of one row of the digit sprite sheet.
pub const DIGIT_CELL_HEIGHT: u64 = 18;

/// Digits per row of the digit sprite sheet.
pub const DIGITS_PER_ROW: u32 = 5;

/// Index of the last volume gauge image (the images show 0%, 10%, ... 100%).
pub const VOLUME_GAUGE_MAX: usize = 10;

/// Index of the last battery gauge image (the images show sixths of a charge).
pub const BATTERY_GAUGE_MAX: usize = 6;

/// The decimal digits of `n`, most significant first, without leading zeros.
pub open spec fn decimal_digits(n: u32) -> Seq<u32>
    decreases n,
{
    if n < 10 {
        seq![n]
    } else {
        decimal_digits(n / 10).push(n % 10)
    }
}

/// The digits a two-digit field shows for `n`: a leading zero before a
/// single digit, otherwise all of `n`'s digits.
pub open spec fn padded_decimal_digits(n: u32) -> Seq<u32> {
    if n < 10 {
        seq![0u32, n]
    } else {
        decimal_digits(n)
    }
}

/// The number that a sequence of decimal digits, most significant first,
/// stands for.
pub open spec fn digits_value(digits: Seq<u32>) -> int
    decreases digits.len(),
{
    if digits.len() == 0 {
        0
    } else {
        digits_value(digits.drop_last()) * 10 + digits.last()
    }
}

/// The top-left corner, in pixels, of digit `num`'s cell in the sprite
/// sheet: five digits per row, 14 pixels wide and 18 high.
pub open spec fn sprite_origin(num: u32) -> (u32, u64) {
    (
        (DIGIT_CELL_WIDTH * (num % DIGITS_PER_ROW)) as u32,
        (DIGIT_CELL_HEIGHT * (num / DIGITS_PER_ROW)) as u64,
    )
}

/// The volume gauge image for a volume: the volume in tenths, rounded half
/// up, at most `VOLUME_GAUGE_MAX`.
pub open spec fn volume_gauge(volume_percent: u8) -> usize {
    let tenths = (volume_percent + 5) / 10;
    if tenths > VOLUME_GAUGE_MAX {
        VOLUME_GAUGE_MAX
    } else {
        tenths as usize
    }
}

/// The battery gauge image for a charge: the charge in sixths, rounded half
/// up, at most `BATTERY_GAUGE_MAX`.
pub open spec fn battery_gauge(battery_percent: u32) -> usize {
    let sixths = (battery_percent * 6 + 50) / 100;
    if sixths > BATTERY_GAUGE_MAX {
        BATTERY_GAUGE_MAX
    } else {
        sixths as usize
    }
}

/// The digits of the battery readout: a leading one for a full charge,
/// then the tens and the ones of the percentage.
#[derive(Clone, Copy, Debug, PartialEq, Eq, Structural)]
pub struct BatteryDigits {
    pub leading_one: bool,
    pub tens: u32,
    pub ones: u32,
}

pub open spec fn battery_readout(battery_percent: u32) -> BatteryDigits {
    BatteryDigits {
        leading_one: battery_percent >= 100,
        tens: (battery_percent % 100) / 10,
        ones: battery_percent % 10,
    }
}

fn push_decimal_digits(n: u32, out: &mut Vec<u32>)
    ensures
        final(out)@ == old(out)@ + decimal_digits(n),
    decreases n,
{
    if n >= 10 {
        push_decimal_digits(n / 10, out);
    }
    out.push(n % 10);
    proof {
        if n >= 10 {
            assert(old(out)@ + decimal_digits(n) =~= old(out)@ + decimal_digits(n / 10) + seq![n % 10]);
        }
    }
}

/// The digits drawn for a clock field showing `num`: at least two, a single
/// digit being preceded by a zero.
pub fn padded_digits(num: u32) -> (digits: Vec<u32>)
    ensures
        digits@ == padded_decimal_digits(num),
{
    let mut digits: Vec<u32> = Vec::new();
    if num < 10 {
        digits.push(0);
    }
    push_decimal_digits(num, &mut digits);
    proof {
        if num < 10 {
            assert(digits@ =~= seq![0u32, num]);
        } else {
            assert(digits@ =~= decimal_digits(num));
        }
    }
    digits
}

/// Where the cell of digit `num` starts in the digit sprite sheet.
pub fn digit_sprite_origin(num: u32) -> (origin: (u32, u64))
    ensures
        origin == sprite_origin(num),
{
    let column = num % DIGITS_PER_ROW;
    let row = (num / DIGITS_PER_ROW) as u64;
    (DIGIT_CELL_WIDTH * column, DIGIT_CELL_HEIGHT * row)
}

/// Which volume gauge image shows `volume_percent`.
pub fn volume_gauge_index(volume_percent: u8) -> (index: usize)
    ensures
        index == volume_gauge(volume_percent),
{
    let tenths = (volume_percent as usize + 5) / 10;
    if tenths > VOLUME_GAUGE_MAX {
        VOLUME_GAUGE_MAX
    } else {
        tenths
    }
}

/// Which battery gauge image shows `battery_percent`.
pub fn battery_gauge_index(battery_percent: u32) -> (index: usize)
    ensures
        index == battery_gauge(battery_percent),
{
    let sixths = (battery_percent as u64 * 6 + 50) / 100;
    if sixths > BATTERY_GAUGE_MAX as u64 {
        BATTERY_GAUGE_MAX
    } else {
        sixths as usize
    }
}

/// The digits of the battery readout for `battery_percent`.
pub fn battery_digits(battery_percent: u32) -> (digits: BatteryDigits)
    ensures
        digits == battery_readout(battery_percent),
{
    BatteryDigits {
        leading_one: battery_percent >= 100,
        tens: (battery_percent % 100) / 10,
        ones: battery_percent % 10,
    }
}

/// The digits of `n` are decimal digits, without a leading zero, and read
/// back as `n`.
pub proof fn law_decimal_digits_read_back(n: u32)
    ensures
        decimal_digits(n).len() >= 1,
        forall|i: int| 0 <= i < decimal_digits(n).len() ==> #[trigger] decimal_digits(n)[i] < 10,
        n >= 10 ==> decimal_digits(n)[0] != 0,
        digits_value(decimal_digits(n)) == n,
    decreases n,
{
    if n >= 10 {
        law_decimal_digits_read_back(n / 10);
        let d = decimal_digits(n);
        assert(d == decimal_digits(n / 10).push(n % 10));
        assert(d.drop_last() =~= decimal_digits(n / 10));
        assert forall|i: int| 0 <= i < d.len() implies #[trigger] d[i] < 10 by {
            if i < d.len() - 1 {
                assert(d[i] == decimal_digits(n / 10)[i]);
            }
        }
        if n / 10 < 10 {
            assert(decimal_digits(n / 10) == seq![n / 10]);
        }
        assert(d[0] == decimal_digits(n / 10)[0]);
        assert(d.last() == n % 10);
        assert(digits_value(d) == digits_value(decimal_digits(n / 10)) * 10 + n % 10);
        assert((n / 10) * 10 + n % 10 == n);
    } else {
        assert(seq![n].drop_last() =~= Seq::<u32>::empty());
        assert(digits_value(Seq::<u32>::empty()) == 0);
        assert(decimal_digits(n) == seq![n]);
        assert(digits_value(seq![n]) == digits_value(Seq::<u32>::empty()) * 10 + n);
    }
}

/// A clock field shows at least two decimal digits that read back as the
/// number, exactly two for numbers below one hundred (hours and minutes).
pub proof fn law_padded_digits_read_back(n: u32)
    ensures
        padded_decimal_digits(n).len() >= 2,
        n < 100 ==> padded_decimal_digits(n).len() == 2,
        forall|i: int|
            0 <= i < padded_decimal_digits(n).len() ==> #[trigger] padded_decimal_digits(n)[i] < 10,
        digits_value(padded_decimal_digits(n)) == n,
        n < 10 ==> padded_decimal_digits(n)[0] == 0,
        n >= 10 ==> padded_decimal_digits(n)[0] != 0,
{
    law_decimal_digits_read_back(n);
    if n < 10 {
        let p = seq![0u32, n];
        assert(p.drop_last() =~= seq![0u32]);
        assert(seq![0u32].drop_last() =~= Seq::<u32>::empty());
        assert(digits_value(Seq::<u32>::empty()) == 0);
        assert(digits_value(seq![0u32]) == digits_value(Seq::<u32>::empty()) * 10 + 0);
        assert(digits_value(p) == digits_value(seq![0u32]) * 10 + n);
    } else {
        assert(decimal_digits(n) == decimal_digits(n / 10).push(n % 10));
        law_decimal_digits_read_back(n / 10);
        if n < 100 {
            assert(decimal_digits(n / 10) == seq![n / 10]);
        }
    }
}

/// The ten digits sit in ten different cells, all inside the two rows of
/// the sprite sheet.
pub proof fn law_digit_cells_distinct(a: u32, b: u32)
    requires
        a < 10,
        b < 10,
    ensures
        sprite_origin(a).0 < DIGIT_CELL_WIDTH * DIGITS_PER_ROW,
        sprite_origin(a).1 < 2 * DIGIT_CELL_HEIGHT,
        a != b ==> sprite_origin(a) != sprite_origin(b),
{
}

/// The gauges grow with the level they show; silence shows the first image
/// and full volume or charge the last.
pub proof fn law_gauges_monotone(v1: u8, v2: u8, b1: u32, b2: u32)
    ensures
        v1 <= v2 ==> volume_gauge(v1) <= volume_gauge(v2),
        b1 <= b2 ==> battery_gauge(b1) <= battery_gauge(b2),
        volume_gauge(0) == 0,
        volume_gauge(100) == VOLUME_GAUGE_MAX,
        battery_gauge(0) == 0,
        battery_gauge(100) == BATTERY_GAUGE_MAX,
{
    assert(b1 <= b2 ==> b1 * 6 <= b2 * 6) by (nonlinear_arith);
}

/// The battery readout reads back as the percentage, for any charge up to
/// 199 percent.
pub proof fn law_battery_readout_reads_back(battery_percent: u32)
    requires
        battery_percent < 200,
    ensures
        (if battery_readout(battery_percent).leading_one {
            100int
        } else {
            0int
        }) + battery_readout(battery_percent).tens * 10 + battery_readout(battery_percent).ones
            == battery_percent,
        battery_readout(battery_percent).tens < 10,
        battery_readout(battery_percent).ones < 10,
{
}

/// The readout shows a leading one exactly from a full charge on, and its
/// tens and ones are the last two decimal digits of the percentage.
pub proof fn law_battery_readout_digits(battery_percent: u32)
    ensures
        battery_readout(battery_percent).leading_one == (battery_percent >= 100),
        battery_readout(battery_percent).tens < 10,
        battery_readout(battery_percent).ones < 10,
        battery_readout(battery_percent).tens * 10 + battery_readout(battery_percent).ones
            == battery_percent % 100,
{
}

/// The volume gauge shows the volume in tenths, rounded to the nearest
/// (halves up); from 95 percent on it shows the full gauge.
pub proof fn law_volume_gauge_rounds(v: u8)
    ensures
        v <= 100 ==> 10 * volume_gauge(v) <= v + 5 && v < 10 * volume_gauge(v) + 5,
        v >= 95 ==> volume_gauge(v) == VOLUME_GAUGE_MAX,
{
}

/// The battery gauge shows the charge in sixths, rounded to the nearest
/// (halves up); from a full charge on it shows the full gauge.
pub proof fn law_battery_gauge_rounds(b: u32)
    ensures
        b <= 100 ==> 100 * battery_gauge(b) <= 6 * b + 50 && 6 * b + 50 < 100 * battery_gauge(b)
            + 100,
        b >= 100 ==> battery_gauge(b) == BATTERY_GAUGE_MAX,
{
}

/// Digits 0 to 4 sit left to right in the first row of the sprite sheet,
/// 14 pixels apart; digits 5 to 9 likewise in the second row, 18 pixels
/// down.
pub proof fn law_digit_cell_position(d: u32)
    ensures
        d < 5 ==> sprite_origin(d).0 == 14 * d && sprite_origin(d).1 == 0,
        5 <= d < 10 ==> sprite_origin(d).0 == 14 * (d - 5) && sprite_origin(d).1 == 18,
{
}

/// Five digits further on, the cell is in the same column one row (18
/// pixels) further down.
pub proof fn law_digit_cell_next_row(num: u32)
    requires
        num + 5 <= u32::MAX,
    ensures
        sprite_origin((num + 5) as u32).0 == sprite_origin(num).0,
        sprite_origin((num + 5) as u32).1 == sprite_origin(num).1 + 18,
{
}

} // verus!
