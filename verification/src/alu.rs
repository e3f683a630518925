use vstd::prelude::*;

verus! {

/// The four condition flags of the LR35902, kept as booleans so that the
/// low nibble of the F register is zero by construction.
#[derive(Clone, Copy, PartialEq, Eq, Structural, Debug)]
pub struct Flags {
    /// Set when the 8-bit result of the last flag-affecting operation was zero.
    pub z: bool,
    /// Set when the last flag-affecting operation was a subtraction.
    pub n: bool,
    /// Half-carry: carry out of bit 3 on adds, borrow from bit 4 on subtracts.
    pub h: bool,
    /// Carry out of bit 7 (8-bit) or bit 15 (16-bit).
    pub c: bool,
}

/// The value of a carry-in flag as an integer.
pub open spec fn carry_val(c: bool) -> int {
    if c { 1 } else { 0 }
}

/// 8-bit add with optional carry-in: result, Z, N=0, H, C as the
/// LR35902 defines them.
pub fn alu_add(a: u8, b: u8, cin: bool) -> (r: (u8, Flags))
    ensures
        r.0 == (a + b + carry_val(cin)) % 256,
        r.1.z <==> (a + b + carry_val(cin)) % 256 == 0,
        !r.1.n,
        r.1.h <==> a % 16 + b % 16 + carry_val(cin) > 15,
        r.1.c <==> a + b + carry_val(cin) > 255,
{
    let cv: u16 = if cin { 1 } else { 0 };
    let sum: u16 = a as u16 + b as u16 + cv;
    let v: u8 = (sum % 256) as u8;
    let fl = Flags {
        z: v == 0,
        n: false,
        h: a as u16 % 16 + b as u16 % 16 + cv > 15,
        c: sum > 255,
    };
    (v, fl)
}

/// 8-bit subtract with optional borrow-in: result, Z, N=1, H, C as the
/// LR35902 defines them.  The result wraps modulo 256.
pub fn alu_sub(a: u8, b: u8, cin: bool) -> (r: (u8, Flags))
    ensures
        r.0 == (a - b - carry_val(cin)) % 256,
        r.1.z <==> (a - b - carry_val(cin)) % 256 == 0,
        r.1.n,
        r.1.h <==> a % 16 < b % 16 + carry_val(cin),
        r.1.c <==> a < b + carry_val(cin),
{
    let cv: u16 = if cin { 1 } else { 0 };
    let diff: u16 = 512 + a as u16 - b as u16 - cv;
    let v: u8 = (diff % 256) as u8;
    assert(v == (a - b - carry_val(cin)) % 256) by {
        let d: int = a - b - carry_val(cin);
        assert((d + 512) % 256 == d % 256) by (nonlinear_arith);
    };
    let fl = Flags {
        z: v == 0,
        n: true,
        h: (a as u16) % 16 < (b as u16) % 16 + cv,
        c: (a as u16) < b as u16 + cv,
    };
    (v, fl)
}

/// Bitwise AND of the accumulator: H is set, C cleared.
pub fn alu_and(a: u8, b: u8) -> (r: (u8, Flags))
    ensures
        r.0 == (a & b),
        r.1.z <==> (a & b) == 0,
        !r.1.n,
        r.1.h,
        !r.1.c,
{
    let v: u8 = a & b;
    (v, Flags { z: v == 0, n: false, h: true, c: false })
}

/// Bitwise OR of the accumulator: H and C cleared.
pub fn alu_or(a: u8, b: u8) -> (r: (u8, Flags))
    ensures
        r.0 == (a | b),
        r.1.z <==> (a | b) == 0,
        !r.1.n,
        !r.1.h,
        !r.1.c,
{
    let v: u8 = a | b;
    (v, Flags { z: v == 0, n: false, h: false, c: false })
}

/// Bitwise XOR of the accumulator: H and C cleared.
pub fn alu_xor(a: u8, b: u8) -> (r: (u8, Flags))
    ensures
        r.0 == (a ^ b),
        r.1.z <==> (a ^ b) == 0,
        !r.1.n,
        !r.1.h,
        !r.1.c,
{
    let v: u8 = a ^ b;
    (v, Flags { z: v == 0, n: false, h: false, c: false })
}

/// 8-bit increment: wraps, leaves C to the caller.
/// Returns (value, Z, H).
pub fn alu_inc(a: u8) -> (r: (u8, bool, bool))
    ensures
        r.0 == (a + 1) % 256,
        r.1 <==> (a + 1) % 256 == 0,
        r.2 <==> a % 16 == 15,
{
    let v: u8 = ((a as u16 + 1) % 256) as u8;
    (v, v == 0, a % 16 == 15)
}

/// 8-bit decrement: wraps, leaves C to the caller.
/// Returns (value, Z, H).
pub fn alu_dec(a: u8) -> (r: (u8, bool, bool))
    ensures
        r.0 == (a - 1) % 256,
        r.1 <==> (a - 1) % 256 == 0,
        r.2 <==> a % 16 == 0,
{
    let v: u8 = ((a as u16 + 255) % 256) as u8;
    assert(v == (a - 1) % 256) by {
        let d: int = a - 1;
        assert((d + 256) % 256 == d % 256) by (nonlinear_arith);
    };
    (v, v == 0, a % 16 == 0)
}

/// Rotate left circular: bit 7 moves to both the carry and bit 0.
/// Returns (value, C).
pub fn rot_rlc(v: u8) -> (r: (u8, bool))
    ensures
        r.0 == (v * 2) % 256 + v / 128,
        r.1 <==> v >= 128,
{
    let w: u16 = v as u16;
    (((w * 2) % 256 + w / 128) as u8, v >= 128)
}

/// Rotate right circular: bit 0 moves to both the carry and bit 7.
/// Returns (value, C).
pub fn rot_rrc(v: u8) -> (r: (u8, bool))
    ensures
        r.0 == v / 2 + (v % 2) * 128,
        r.1 <==> v % 2 == 1,
{
    (v / 2 + (v % 2) * 128, v % 2 == 1)
}

/// Rotate left through carry: the old carry enters at bit 0.
/// Returns (value, C).
pub fn rot_rl(v: u8, cin: bool) -> (r: (u8, bool))
    ensures
        r.0 == (v * 2) % 256 + carry_val(cin),
        r.1 <==> v >= 128,
{
    let cv: u16 = if cin { 1 } else { 0 };
    ((((v as u16) * 2) % 256 + cv) as u8, v >= 128)
}

/// Rotate right through carry: the old carry enters at bit 7.
/// Returns (value, C).
pub fn rot_rr(v: u8, cin: bool) -> (r: (u8, bool))
    ensures
        r.0 == v / 2 + carry_val(cin) * 128,
        r.1 <==> v % 2 == 1,
{
    let cv: u8 = if cin { 128 } else { 0 };
    (v / 2 + cv, v % 2 == 1)
}

/// Arithmetic shift left: bit 7 goes to the carry, bit 0 becomes zero.
/// Returns (value, C).
pub fn rot_sla(v: u8) -> (r: (u8, bool))
    ensures
        r.0 == (v * 2) % 256,
        r.1 <==> v >= 128,
{
    ((((v as u16) * 2) % 256) as u8, v >= 128)
}

/// Arithmetic shift right: bit 7 is kept, bit 0 goes to the carry.
/// Returns (value, C).
pub fn rot_sra(v: u8) -> (r: (u8, bool))
    ensures
        r.0 == v / 2 + (v / 128) * 128,
        r.1 <==> v % 2 == 1,
{
    (v / 2 + (v / 128) * 128, v % 2 == 1)
}

/// Logical shift right: bit 7 becomes zero, bit 0 goes to the carry.
/// Returns (value, C).
pub fn rot_srl(v: u8) -> (r: (u8, bool))
    ensures
        r.0 == v / 2,
        r.1 <==> v % 2 == 1,
{
    (v / 2, v % 2 == 1)
}

/// Swap the two nibbles of a byte.
pub fn nib_swap(v: u8) -> (r: u8)
    ensures
        r == (v % 16) * 16 + v / 16,
{
    (v % 16) * 16 + v / 16
}

/// The decimal-adjust step applied to the accumulator after an add
/// (N clear): value and carry out.
pub open spec fn daa_add_spec(a: u8, h: bool, c: bool) -> (u8, bool) {
    let hi_fix: bool = c || a > 0x99;
    let a1: int = if hi_fix { (a + 0x60) % 256 } else { a as int };
    let lo_fix: bool = h || a1 % 16 > 9;
    let a2: int = if lo_fix { (a1 + 6) % 256 } else { a1 };
    (a2 as u8, hi_fix)
}

/// The decimal-adjust step applied to the accumulator after a subtract
/// (N set): value and carry out.
pub open spec fn daa_sub_spec(a: u8, h: bool, c: bool) -> (u8, bool) {
    let a1: int = if c { (a - 0x60) % 256 } else { a as int };
    let a2: int = if h { (a1 - 6) % 256 } else { a1 };
    (a2 as u8, c)
}

/// DAA: adjust the accumulator to packed BCD after an 8-bit add or
/// subtract, using the N, H and C flags the operation left behind.
/// Z tracks the adjusted value, H is cleared, C reports the BCD carry.
pub fn alu_daa(a: u8, fl: Flags) -> (r: (u8, Flags))
    ensures
        !fl.n ==> (r.0, r.1.c) == daa_add_spec(a, fl.h, fl.c),
        fl.n ==> (r.0, r.1.c) == daa_sub_spec(a, fl.h, fl.c),
        r.1.z <==> r.0 == 0,
        r.1.n == fl.n,
        !r.1.h,
{
    let mut v: u16 = a as u16;
    let mut carry: bool = fl.c;
    if !fl.n {
        if fl.c || v > 0x99 {
            v = (v + 0x60) % 256;
            carry = true;
        }
        if fl.h || v % 16 > 9 {
            v = (v + 6) % 256;
        }
    } else {
        if fl.c {
            v = (v + 512 - 0x60) % 256;
            assert(v == (a - 0x60) % 256) by {
                let d: int = a - 0x60;
                assert((d + 512) % 256 == d % 256) by (nonlinear_arith);
            };
        }
        if fl.h {
            let w = v;
            v = (v + 512 - 6) % 256;
            assert(v == (w - 6) % 256) by {
                let d: int = w - 6;
                assert((d + 512) % 256 == d % 256) by (nonlinear_arith);
            };
        }
    }
    let res: u8 = v as u8;
    (res, Flags { z: res == 0, n: fl.n, h: false, c: carry })
}

/// The decimal value a packed-BCD byte encodes.
pub open spec fn bcd_val(x: u8) -> int {
    (x / 16) * 10 + x % 16
}

/// Whether both nibbles of a byte are decimal digits.
pub open spec fn is_bcd(x: u8) -> bool {
    x / 16 <= 9 && x % 16 <= 9
}

/// DAA after the ADD of two packed-BCD bytes yields the packed-BCD
/// sum modulo 100, with the carry out reporting overflow past 99.
pub proof fn lemma_daa_bcd_add(a: u8, b: u8)
    requires
        is_bcd(a),
        is_bcd(b),
    ensures
        ({
            let r = ((a + b) % 256) as u8;
            let adj = daa_add_spec(r, a % 16 + b % 16 > 15, a + b > 255);
            &&& is_bcd(adj.0)
            &&& bcd_val(adj.0) == (bcd_val(a) + bcd_val(b)) % 100
            &&& (adj.1 <==> bcd_val(a) + bcd_val(b) >= 100)
        }),
{
    assert({
        let r = (a + b) % 256;
        let hi = (a + b > 255) || r > 0x99;
        let a1 = if hi {
            (r + 0x60) % 256
        } else {
            r
        };
        let lo = (a % 16 + b % 16 > 15) || a1 % 16 > 9;
        let v = if lo {
            (a1 + 6) % 256
        } else {
            a1
        };
        let total = (a / 16) * 10 + a % 16 + (b / 16) * 10 + b % 16;
        v / 16 <= 9 && v % 16 <= 9 && (v / 16) * 10 + v % 16 == total % 100 && (hi <==> total
            >= 100)
    }) by (bit_vector)
        requires
            a / 16 <= 9,
            a % 16 <= 9,
            b / 16 <= 9,
            b % 16 <= 9,
    ;
}

/// DAA after the SUB of two packed-BCD bytes yields the packed-BCD
/// difference modulo 100, with the carry reporting the borrow.
pub proof fn lemma_daa_bcd_sub(a: u8, b: u8)
    requires
        is_bcd(a),
        is_bcd(b),
    ensures
        ({
            let r = ((a - b) % 256) as u8;
            let adj = daa_sub_spec(r, a % 16 < b % 16, a < b);
            &&& is_bcd(adj.0)
            &&& bcd_val(adj.0) == (bcd_val(a) - bcd_val(b)) % 100
            &&& (adj.1 <==> a < b)
        }),
{
    assert({
        let r = (a + 256 - b) % 256;
        let a1 = if a < b {
            (r + 0xa0) % 256
        } else {
            r
        };
        let v = if a % 16 < b % 16 {
            (a1 + 0xfa) % 256
        } else {
            a1
        };
        let total = (100 + (a / 16) * 10 + a % 16 - ((b / 16) * 10 + b % 16)) % 100;
        v / 16 <= 9 && v % 16 <= 9 && (v / 16) * 10 + v % 16 == total
    }) by (bit_vector)
        requires
            a / 16 <= 9,
            a % 16 <= 9,
            b / 16 <= 9,
            b % 16 <= 9,
    ;
    let r: int = (a - b) % 256;
    assert(r == (a + 256 - b) % 256) by {
        let d: int = a - b;
        assert((d + 256) % 256 == d % 256) by (nonlinear_arith);
    };
    let a1: int = if a < b {
        (r - 0x60) % 256
    } else {
        r
    };
    assert(a1 == (if a < b {
        ((a + 256 - b) % 256 + 0xa0) % 256
    } else {
        (a + 256 - b) % 256
    })) by {
        if a < b {
            let d: int = r - 0x60;
            assert((d + 256) % 256 == d % 256) by (nonlinear_arith);
        }
    };
    let v: int = if a % 16 < b % 16 {
        (a1 - 6) % 256
    } else {
        a1
    };
    assert(v == (if a % 16 < b % 16 {
        (a1 + 0xfa) % 256
    } else {
        a1
    })) by {
        if a % 16 < b % 16 {
            let d: int = a1 - 6;
            assert((d + 256) % 256 == d % 256) by (nonlinear_arith);
        }
    };
    assert(bcd_val(a) - bcd_val(b) < 100);
    assert((bcd_val(a) - bcd_val(b)) % 100 == (100 + bcd_val(a) - bcd_val(b)) % 100)
        by (nonlinear_arith)
        requires
            -100 <= bcd_val(a) - bcd_val(b) < 100,
    ;
}

/// 16-bit add used by `ADD HL,rr`: H is the carry out of bit 11,
/// C the carry out of bit 15, Z is untouched by the caller.
pub fn alu_add16(a: u16, b: u16) -> (r: (u16, bool, bool))
    ensures
        r.0 == (a + b) % 65536,
        r.1 <==> a % 4096 + b % 4096 > 4095,
        r.2 <==> a + b > 65535,
{
    let sum: u32 = a as u32 + b as u32;
    (
        (sum % 65536) as u16,
        a as u32 % 4096 + b as u32 % 4096 > 4095,
        sum > 65535,
    )
}

/// The value of an 8-bit immediate taken as a signed displacement.
pub open spec fn signed_val(v: u8) -> int {
    if v < 128 { v as int } else { v - 256 }
}

/// 16-bit base plus signed 8-bit displacement, wrapping modulo 65536.
pub fn add_signed16(base: u16, off: u8) -> (r: u16)
    ensures
        r == (base + signed_val(off)) % 65536,
{
    let big: u32 = if off < 128 {
        base as u32 + off as u32
    } else {
        base as u32 + off as u32 + 65280
    };
    let v: u32 = big % 65536;
    assert(v == (base + signed_val(off)) % 65536) by {
        let d: int = base + signed_val(off);
        assert((d + 65536) % 65536 == d % 65536) by (nonlinear_arith);
    };
    v as u16
}

/// Flags of `ADD SP,r8` and `LD HL,SP+r8`: Z and N clear, H and C from
/// the unsigned add of the displacement byte to the low byte of SP.
pub fn sp_offset_flags(sp: u16, off: u8) -> (r: Flags)
    ensures
        !r.z,
        !r.n,
        r.h <==> sp % 16 + off % 16 > 15,
        r.c <==> sp % 256 + off > 255,
{
    Flags {
        z: false,
        n: false,
        h: sp % 16 + (off as u16) % 16 > 15,
        c: sp % 256 + off as u16 > 255,
    }
}

} // verus!
