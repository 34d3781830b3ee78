//! The telemetry encoder: turns a configuration and a raw sensor byte into
//! the contents of an outbound wire packet.
//!
//! [`OscOut::configure`] prebuilds the packet: the NUL-terminated destination
//! path padded to a four-byte boundary, then the two-character type tag and
//! six zero bytes, of which the last four are the slot for the argument. On
//! every reading, [`OscOut::flex_value`] maps the sensor byte onto the output
//! range as an exact rational, and [`OscOut::patch_value`] rewrites the
//! trailing slot with the caller's four-byte rendering of that value. Opening
//! the socket, rendering the rational as a wire float and transmitting the
//! buffer are the caller's work: the library owns the packet bytes and the
//! mapping.
//!
//! The mapping is two linear segments that meet at the configured center
//! with the midpoint of the output range: readings below the center move the
//! output up from the midpoint at one slope, readings above move it down at
//! the other, the result is clamped into the normalized output range, a
//! reading of exactly zero yields the idle output, and the center itself
//! yields the midpoint exactly.

use vstd::prelude::*;

use crate::messages::Configuration;
use crate::ratio::{clamp_ratio, int_ratio, lemma_clamp_bounds, lemma_clamp_monotone, Ratio};
use vstd::utf8::encode_utf8;

verus! {

/// `n` zero bytes.
pub open spec fn zero_bytes(n: nat) -> Seq<u8> {
    Seq::new(n, |i: int| 0u8)
}

/// How many zero bytes follow an `n`-byte path: the terminating NUL plus
/// padding to the next four-byte boundary, between one and four bytes.
pub open spec fn osc_pad(n: nat) -> nat {
    (4 - n % 4) as nat
}

/// The prebuilt packet for a destination path: the path bytes, NUL
/// termination padded to a four-byte boundary, the type tag `,f` padded to a
/// four-byte boundary, and four zero bytes reserving the argument slot.
pub open spec fn osc_packet(path: Seq<u8>) -> Seq<u8> {
    path + zero_bytes(osc_pad(path.len())) + seq![0x2cu8, 0x66u8] + zero_bytes(6)
}

/// `a - b` on bytes, wrapped modulo 256.
pub open spec fn wrap_sub_spec(a: u8, b: u8) -> u8 {
    if a >= b {
        (a - b) as u8
    } else {
        (a - b + 256) as u8
    }
}

/// `a - b` on bytes, wrapped modulo 256.
fn wrap_sub(a: u8, b: u8) -> (r: u8)
    ensures
        r == wrap_sub_spec(a, b),
{
    if a >= b {
        a - b
    } else {
        (((a as u16) + 256) - (b as u16)) as u8
    }
}

/// `|x * y| <= bx * by` whenever `|x| <= bx` and `|y| <= by`.
proof fn lemma_mul_bound(x: int, y: int, bx: int, by: int)
    requires
        0 <= bx,
        0 <= by,
        -bx <= x <= bx,
        -by <= y <= by,
    ensures
        -(bx * by) <= x * y <= bx * by,
{
    assert(-(bx * by) <= x * y <= bx * by) by (nonlinear_arith)
        requires
            0 <= bx,
            0 <= by,
            -bx <= x <= bx,
            -by <= y <= by,
    ;
}

/// The telemetry encoder. All fields are derived from the most recently
/// applied [`Configuration`]; until one has been applied, `buffer` is empty
/// and the encoder produces nothing.
pub struct OscOut {
    /// The prebuilt packet; its last four bytes are the argument slot.
    pub buffer: Vec<u8>,
    /// Textual destination address recorded from the configuration.
    pub target: String,
    /// The configured center reading.
    pub mid_in: u8,
    /// Output range start, as supplied (possibly larger than `out_end`).
    pub out_start: i64,
    /// Output range end, as supplied.
    pub out_end: i64,
    /// Output for a reading of exactly zero.
    pub idle_out: i64,
    /// Reading distance from the center to the top of the input range,
    /// wrapped modulo 256; the divisor of the slope below the center.
    pub div_low: u8,
    /// Reading distance from the bottom of the input range to the center,
    /// wrapped modulo 256; the divisor of the slope above the center.
    pub div_high: u8,
}

impl OscOut {
    /// A configuration has been applied once a packet has been built.
    pub open spec fn is_configured(self) -> bool {
        self.buffer@.len() > 0
    }

    /// The scalar fields an application of `config` leaves behind.
    pub open spec fn derives_from(self, config: Configuration) -> bool {
        &&& self.mid_in == config.in_center
        &&& self.out_start == config.out_range.start
        &&& self.out_end == config.out_range.end
        &&& self.idle_out == config.out_idle
        &&& self.div_low == wrap_sub_spec(config.in_range.end, config.in_center)
        &&& self.div_high == wrap_sub_spec(config.in_center, config.in_range.start)
    }

    /// Lower bound of the normalized output range.
    pub open spec fn out_min(self) -> int {
        if self.out_start <= self.out_end {
            self.out_start as int
        } else {
            self.out_end as int
        }
    }

    /// Upper bound of the normalized output range.
    pub open spec fn out_max(self) -> int {
        if self.out_start <= self.out_end {
            self.out_end as int
        } else {
            self.out_start as int
        }
    }

    /// Midpoint of the output range, where the two segments of the mapping
    /// meet.
    pub open spec fn mid_ratio(self) -> Ratio {
        Ratio { num: (self.out_start + self.out_end) as i128, den: 2 }
    }

    /// Unclamped value of the lower segment at reading `flex`; meaningful
    /// for `flex <= mid_in` and a nonzero `div_low`.
    pub open spec fn low_raw(self, flex: u8) -> Ratio {
        Ratio {
            num: ((self.out_start + self.out_end) * self.div_low + (self.mid_in - flex) * (
            self.out_end - self.out_start)) as i128,
            den: (2 * self.div_low) as i128,
        }
    }

    /// Unclamped value of the upper segment at reading `flex`; meaningful
    /// for `flex >= mid_in` and a nonzero `div_high`.
    pub open spec fn high_raw(self, flex: u8) -> Ratio {
        Ratio {
            num: ((self.out_start + self.out_end) * self.div_high - (flex - self.mid_in) * (
            self.out_end - self.out_start)) as i128,
            den: (2 * self.div_high) as i128,
        }
    }

    /// The full mapping from a raw sensor byte to an output value.
    ///
    /// A reading of zero means "no physical contact" and yields the idle
    /// output unclamped. The center yields the midpoint exactly. Every other
    /// reading takes its segment's line and is clamped into the normalized
    /// output range; a segment whose divisor is zero (the center sits on
    /// that edge of the input range) has an infinite slope, and any reading
    /// on that side saturates at the value the clamp would give.
    pub open spec fn flex_value_spec(self, flex: u8) -> Ratio {
        if flex == 0 {
            int_ratio(self.idle_out as int)
        } else if flex == self.mid_in {
            self.mid_ratio()
        } else if flex < self.mid_in {
            if self.div_low == 0 {
                int_ratio(self.out_end as int)
            } else {
                clamp_ratio(self.low_raw(flex), self.out_min(), self.out_max())
            }
        } else {
            if self.div_high == 0 {
                int_ratio(self.out_start as int)
            } else {
                clamp_ratio(self.high_raw(flex), self.out_min(), self.out_max())
            }
        }
    }

    /// A fresh, unconfigured encoder.
    pub fn new() -> (enc: OscOut)
        ensures
            !enc.is_configured(),
            enc.buffer@.len() == 0,
            enc.target@.len() == 0,
            enc.mid_in == 0,
            enc.out_start == 0,
            enc.out_end == 0,
            enc.idle_out == 0,
            enc.div_low == 0,
            enc.div_high == 0,
    {
        OscOut {
            buffer: Vec::new(),
            target: String::new(),
            mid_in: 0,
            out_start: 0,
            out_end: 0,
            idle_out: 0,
            div_low: 0,
            div_high: 0,
        }
    }

    /// Whether a configuration has been applied.
    pub fn configured(&self) -> (b: bool)
        ensures
            b == self.is_configured(),
    {
        self.buffer.len() > 0
    }

    /// Applies a configuration: prebuilds the packet for its destination
    /// path and derives the scalars of the mapping.
    pub fn configure(&mut self, config: &Configuration)
        ensures
            final(self).buffer@ == osc_packet(encode_utf8(config.osc_address@)),
            final(self).is_configured(),
            final(self).target == config.udp_address,
            final(self).derives_from(*config),
    {
        self.target = config.udp_address.clone();

        let bytes: &[u8] = config.osc_address.as_str().as_bytes();
        let ghost path: Seq<u8> = encode_utf8(config.osc_address@);
        assert(bytes@ == path);

        let mut buf: Vec<u8> = Vec::new();
        buf.extend_from_slice(bytes);
        buf.push(0);
        assert(buf@ =~= path + zero_bytes(1));

        while buf.len() % 4 != 0
            invariant
                path.len() + 1 <= buf@.len(),
                buf@.len() <= path.len() + osc_pad(path.len()),
                buf@ == path + zero_bytes((buf@.len() - path.len()) as nat),
            decreases path.len() + 4 - buf@.len(),
        {
            buf.push(0);
            assert(buf@ =~= path + zero_bytes((buf@.len() - path.len()) as nat));
        }
        assert(buf@.len() == path.len() + osc_pad(path.len()));

        buf.push(0x2c);
        buf.push(0x66);
        buf.push(0);
        buf.push(0);
        buf.push(0);
        buf.push(0);
        buf.push(0);
        buf.push(0);
        assert(buf@ =~= osc_packet(path));

        self.buffer = buf;
        self.mid_in = config.in_center;
        self.out_start = config.out_range.start;
        self.out_end = config.out_range.end;
        self.idle_out = config.out_idle;
        self.div_low = wrap_sub(config.in_range.end, config.in_center);
        self.div_high = wrap_sub(config.in_center, config.in_range.start);
    }

    /// Maps a raw sensor byte to its exact output value, or `None` while no
    /// configuration has been applied.
    pub fn flex_value(&self, flex: u8) -> (r: Option<Ratio>)
        ensures
            r is Some <==> self.is_configured(),
            self.is_configured() ==> r == Some(self.flex_value_spec(flex)),
            self.is_configured() ==> r->Some_0.wf(),
    {
        proof {
            lemma_value_wf(*self, flex);
        }
        if self.buffer.len() == 0 {
            return None;
        }
        if flex == 0 {
            return Some(Ratio::from_i64(self.idle_out));
        }
        if flex == self.mid_in {
            let num: i128 = self.out_start as i128 + self.out_end as i128;
            return Some(Ratio { num, den: 2 });
        }

        let s: i128 = self.out_start as i128;
        let e: i128 = self.out_end as i128;
        let lo: i64 = if self.out_start <= self.out_end {
            self.out_start
        } else {
            self.out_end
        };
        let hi: i64 = if self.out_start <= self.out_end {
            self.out_end
        } else {
            self.out_start
        };

        if flex < self.mid_in {
            if self.div_low == 0 {
                return Some(Ratio::from_i64(self.out_end));
            }
            let q: i128 = self.div_low as i128;
            let d: i128 = (self.mid_in - flex) as i128;
            proof {
                lemma_mul_bound(s + e, q as int, 0x20000000000000000, 255);
                lemma_mul_bound(d as int, e - s, 255, 0x20000000000000000);
            }
            let num: i128 = (s + e) * q + d * (e - s);
            let den: i128 = 2 * q;
            let v = Ratio { num, den };
            assert(v == self.low_raw(flex));
            Some(clamp_to(v, lo, hi))
        } else {
            if self.div_high == 0 {
                return Some(Ratio::from_i64(self.out_start));
            }
            let q: i128 = self.div_high as i128;
            let d: i128 = (flex - self.mid_in) as i128;
            proof {
                lemma_mul_bound(s + e, q as int, 0x20000000000000000, 255);
                lemma_mul_bound(d as int, e - s, 255, 0x20000000000000000);
            }
            let num: i128 = (s + e) * q - d * (e - s);
            let den: i128 = 2 * q;
            let v = Ratio { num, den };
            assert(v == self.high_raw(flex));
            Some(clamp_to(v, lo, hi))
        }
    }

    /// Rewrites the trailing four-byte argument slot of the prebuilt packet.
    /// Everything else about the encoder is untouched.
    pub fn patch_value(&mut self, value: [u8; 4])
        requires
            old(self).buffer@.len() >= 4,
        ensures
            final(self).buffer@ == old(self).buffer@.subrange(
                0,
                old(self).buffer@.len() - 4,
            ) + value@,
            final(self).buffer@.len() == old(self).buffer@.len(),
            *final(self) == (OscOut { buffer: final(self).buffer, ..*old(self) }),
    {
        let n: usize = self.buffer.len();
        self.buffer.truncate(n - 4);
        self.buffer.push(value[0]);
        self.buffer.push(value[1]);
        self.buffer.push(value[2]);
        self.buffer.push(value[3]);
        assert(self.buffer@ =~= old(self).buffer@.subrange(0, old(self).buffer@.len() - 4)
            + value@);
    }
}

/// The fields of the lower segment's raw value, with its arithmetic known to
/// stay inside `i128`.
proof fn lemma_low_raw_fields(enc: OscOut, flex: u8)
    requires
        enc.div_low > 0,
    ensures
        enc.low_raw(flex).num == (enc.out_start + enc.out_end) * enc.div_low + (enc.mid_in
            - flex) * (enc.out_end - enc.out_start),
        enc.low_raw(flex).den == 2 * enc.div_low,
        enc.low_raw(flex).wf(),
{
    lemma_mul_bound(
        enc.out_start + enc.out_end,
        enc.div_low as int,
        0x20000000000000000,
        255,
    );
    lemma_mul_bound(
        enc.mid_in - flex,
        enc.out_end - enc.out_start,
        255,
        0x20000000000000000,
    );
}

/// The fields of the upper segment's raw value, with its arithmetic known to
/// stay inside `i128`.
proof fn lemma_high_raw_fields(enc: OscOut, flex: u8)
    requires
        enc.div_high > 0,
    ensures
        enc.high_raw(flex).num == (enc.out_start + enc.out_end) * enc.div_high - (flex
            - enc.mid_in) * (enc.out_end - enc.out_start),
        enc.high_raw(flex).den == 2 * enc.div_high,
        enc.high_raw(flex).wf(),
{
    lemma_mul_bound(
        enc.out_start + enc.out_end,
        enc.div_high as int,
        0x20000000000000000,
        255,
    );
    lemma_mul_bound(
        flex - enc.mid_in,
        enc.out_end - enc.out_start,
        255,
        0x20000000000000000,
    );
}

/// The midpoint lies inside the normalized output range, so clamping leaves
/// it alone.
proof fn lemma_mid_unclamped(enc: OscOut)
    ensures
        enc.mid_ratio().wf(),
        clamp_ratio(enc.mid_ratio(), enc.out_min(), enc.out_max()) == enc.mid_ratio(),
        int_ratio(enc.out_min()).le(enc.mid_ratio()),
        enc.mid_ratio().le(int_ratio(enc.out_max())),
{
}

/// Every output of the mapping is a well-formed ratio.
pub proof fn lemma_value_wf(enc: OscOut, flex: u8)
    ensures
        enc.flex_value_spec(flex).wf(),
{
    if flex != 0 && flex != enc.mid_in && flex < enc.mid_in && enc.div_low > 0 {
        lemma_low_raw_fields(enc, flex);
        lemma_clamp_bounds(enc.low_raw(flex), enc.out_min(), enc.out_max());
    }
    if flex != 0 && flex != enc.mid_in && flex > enc.mid_in && enc.div_high > 0 {
        lemma_high_raw_fields(enc, flex);
        lemma_clamp_bounds(enc.high_raw(flex), enc.out_min(), enc.out_max());
    }
}

/// The mapping is continuous at the center: the center reading yields the
/// midpoint of the output range exactly, and both segments' lines pass
/// through that same value there, so the two halves of the mapping meet.
pub proof fn lemma_center_value(enc: OscOut, flex: u8)
    requires
        flex == enc.mid_in,
        flex != 0,
    ensures
        enc.flex_value_spec(flex) == enc.mid_ratio(),
        enc.div_low > 0 ==> enc.low_raw(flex).eq_value(enc.mid_ratio()),
        enc.div_high > 0 ==> enc.high_raw(flex).eq_value(enc.mid_ratio()),
{
    if enc.div_low > 0 {
        lemma_low_raw_fields(enc, flex);
        assert(((enc.out_start + enc.out_end) * enc.div_low) * 2 == (enc.out_start
            + enc.out_end) * (2 * enc.div_low)) by (nonlinear_arith);
    }
    if enc.div_high > 0 {
        lemma_high_raw_fields(enc, flex);
        assert(((enc.out_start + enc.out_end) * enc.div_high) * 2 == (enc.out_start
            + enc.out_end) * (2 * enc.div_high)) by (nonlinear_arith);
    }
}

/// Every reading but the idle zero maps into the normalized output range,
/// bounds included.
pub proof fn lemma_output_within_range(enc: OscOut, flex: u8)
    requires
        flex != 0,
    ensures
        int_ratio(enc.out_min()).le(enc.flex_value_spec(flex)),
        enc.flex_value_spec(flex).le(int_ratio(enc.out_max())),
{
    if flex == enc.mid_in {
        lemma_mid_unclamped(enc);
    } else if flex < enc.mid_in {
        if enc.div_low > 0 {
            lemma_low_raw_fields(enc, flex);
            lemma_clamp_bounds(enc.low_raw(flex), enc.out_min(), enc.out_max());
        }
    } else {
        if enc.div_high > 0 {
            lemma_high_raw_fields(enc, flex);
            lemma_clamp_bounds(enc.high_raw(flex), enc.out_min(), enc.out_max());
        }
    }
}

/// Below the center the mapping is monotone: with the output range given in
/// ascending order, a reading closer to the center yields a value no larger
/// (the value falls toward the midpoint); with the range given descending,
/// the comparison reverses. The center itself is included as the endpoint
/// the segment falls to.
pub proof fn lemma_monotone_low(enc: OscOut, f1: u8, f2: u8)
    requires
        0 < f1 <= f2 <= enc.mid_in,
    ensures
        enc.out_start <= enc.out_end ==> enc.flex_value_spec(f2).le(enc.flex_value_spec(f1)),
        enc.out_end <= enc.out_start ==> enc.flex_value_spec(f1).le(enc.flex_value_spec(f2)),
{
    let s = enc.out_start as int;
    let e = enc.out_end as int;
    let q = enc.div_low as int;
    let d1 = enc.mid_in - f1;
    let d2 = enc.mid_in - f2;
    lemma_mid_unclamped(enc);
    if f1 == f2 {
    } else if enc.div_low == 0 {
        // Infinite slope: every reading below the center saturates at the
        // same value, and that value lies on the far side of the midpoint.
        if f2 == enc.mid_in {
            assert(int_ratio(e).wf());
        }
    } else {
        lemma_low_raw_fields(enc, f1);
        lemma_low_raw_fields(enc, f2);
        if f2 == enc.mid_in {
            assert(enc.low_raw(f2).eq_value(enc.mid_ratio())) by {
                lemma_center_value(enc, f2);
            }
            if s <= e {
                assert(((s + e) * q) * 2 <= ((s + e) * q + d1 * (e - s)) * 2) by (nonlinear_arith)
                    requires
                        d1 >= 0,
                        e - s >= 0,
                ;
                assert((s + e) * (2 * q) == ((s + e) * q) * 2) by (nonlinear_arith);
                assert(enc.mid_ratio().le(enc.low_raw(f1)));
                lemma_clamp_monotone(enc.mid_ratio(), enc.low_raw(f1), enc.out_min(), enc.out_max());
            }
            if e <= s {
                assert(((s + e) * q + d1 * (e - s)) * 2 <= ((s + e) * q) * 2) by (nonlinear_arith)
                    requires
                        d1 >= 0,
                        e - s <= 0,
                ;
                assert((s + e) * (2 * q) == ((s + e) * q) * 2) by (nonlinear_arith);
                assert(enc.low_raw(f1).le(enc.mid_ratio()));
                lemma_clamp_monotone(enc.low_raw(f1), enc.mid_ratio(), enc.out_min(), enc.out_max());
            }
        } else {
            if s <= e {
                assert(((s + e) * q + d2 * (e - s)) * (2 * q) <= ((s + e) * q + d1 * (e - s)) * (2
                    * q)) by (nonlinear_arith)
                    requires
                        q >= 1,
                        d2 <= d1,
                        e - s >= 0,
                ;
                assert(enc.low_raw(f2).le(enc.low_raw(f1)));
                lemma_clamp_monotone(enc.low_raw(f2), enc.low_raw(f1), enc.out_min(), enc.out_max());
            }
            if e <= s {
                assert(((s + e) * q + d1 * (e - s)) * (2 * q) <= ((s + e) * q + d2 * (e - s)) * (2
                    * q)) by (nonlinear_arith)
                    requires
                        q >= 1,
                        d2 <= d1,
                        e - s <= 0,
                ;
                assert(enc.low_raw(f1).le(enc.low_raw(f2)));
                lemma_clamp_monotone(enc.low_raw(f1), enc.low_raw(f2), enc.out_min(), enc.out_max());
            }
        }
    }
}

/// Above the center the mapping is monotone: with the output range given in
/// ascending order, a reading farther above the center yields a value no
/// larger (the value falls away from the midpoint); with the range given
/// descending, the comparison reverses. The center itself is included as the
/// endpoint the segment falls from.
pub proof fn lemma_monotone_high(enc: OscOut, f1: u8, f2: u8)
    requires
        0 < f1,
        enc.mid_in <= f1 <= f2,
    ensures
        enc.out_start <= enc.out_end ==> enc.flex_value_spec(f2).le(enc.flex_value_spec(f1)),
        enc.out_end <= enc.out_start ==> enc.flex_value_spec(f1).le(enc.flex_value_spec(f2)),
{
    let s = enc.out_start as int;
    let e = enc.out_end as int;
    let q = enc.div_high as int;
    let d1 = f1 - enc.mid_in;
    let d2 = f2 - enc.mid_in;
    lemma_mid_unclamped(enc);
    if f1 == f2 {
    } else if enc.div_high == 0 {
        if f1 == enc.mid_in {
            assert(int_ratio(s).wf());
        }
    } else {
        lemma_high_raw_fields(enc, f1);
        lemma_high_raw_fields(enc, f2);
        if f1 == enc.mid_in {
            if s <= e {
                assert(((s + e) * q - d2 * (e - s)) * 2 <= ((s + e) * q) * 2) by (nonlinear_arith)
                    requires
                        d2 >= 0,
                        e - s >= 0,
                ;
                assert((s + e) * (2 * q) == ((s + e) * q) * 2) by (nonlinear_arith);
                assert(enc.high_raw(f2).le(enc.mid_ratio()));
                lemma_clamp_monotone(enc.high_raw(f2), enc.mid_ratio(), enc.out_min(), enc.out_max());
            }
            if e <= s {
                assert(((s + e) * q) * 2 <= ((s + e) * q - d2 * (e - s)) * 2) by (nonlinear_arith)
                    requires
                        d2 >= 0,
                        e - s <= 0,
                ;
                assert((s + e) * (2 * q) == ((s + e) * q) * 2) by (nonlinear_arith);
                assert(enc.mid_ratio().le(enc.high_raw(f2)));
                lemma_clamp_monotone(enc.mid_ratio(), enc.high_raw(f2), enc.out_min(), enc.out_max());
            }
        } else {
            if s <= e {
                assert(((s + e) * q - d2 * (e - s)) * (2 * q) <= ((s + e) * q - d1 * (e - s)) * (2
                    * q)) by (nonlinear_arith)
                    requires
                        q >= 1,
                        d1 <= d2,
                        e - s >= 0,
                ;
                assert(enc.high_raw(f2).le(enc.high_raw(f1)));
                lemma_clamp_monotone(enc.high_raw(f2), enc.high_raw(f1), enc.out_min(), enc.out_max());
            }
            if e <= s {
                assert(((s + e) * q - d1 * (e - s)) * (2 * q) <= ((s + e) * q - d2 * (e - s)) * (2
                    * q)) by (nonlinear_arith)
                    requires
                        q >= 1,
                        d1 <= d2,
                        e - s <= 0,
                ;
                assert(enc.high_raw(f1).le(enc.high_raw(f2)));
                lemma_clamp_monotone(enc.high_raw(f1), enc.high_raw(f2), enc.out_min(), enc.out_max());
            }
        }
    }
}

/// `v` clamped into `[lo, hi]`. The denominator bound keeps the comparison
/// products far from overflow.
fn clamp_to(v: Ratio, lo: i64, hi: i64) -> (r: Ratio)
    requires
        v.wf(),
        lo <= hi,
        v.den <= 0x10000,
    ensures
        r == clamp_ratio(v, lo as int, hi as int),
{
    proof {
        lemma_mul_bound(lo as int, v.den as int, 0x8000000000000000, 0x10000);
        lemma_mul_bound(hi as int, v.den as int, 0x8000000000000000, 0x10000);
    }
    let lod: i128 = (lo as i128) * v.den;
    if v.num < lod {
        Ratio::from_i64(lo)
    } else {
        let hid: i128 = (hi as i128) * v.den;
        if v.num > hid {
            Ratio::from_i64(hi)
        } else {
            v
        }
    }
}

} // verus!
