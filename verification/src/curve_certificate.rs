//! A certificate that four is a square in the prime field of the curve:
//! raised to half the order of the multiplicative group it gives one. The
//! power is computed by squaring, one binary digit of the exponent at a
//! time, and every product is checked on its own. With it the search for a
//! point of the curve is known to end at a point.

use crate::ct_helpers::{abscissa_from, field_modulus, is_abscissa};
use vstd::arithmetic::div_mod::{lemma_mul_mod_noop, lemma_small_mod, lemma_mod_self_0, lemma_add_mod_noop};
use vstd::arithmetic::power::{lemma1_pow, lemma_pow1, lemma_pow_adds, lemma_pow_mod_noop, pow};
use vstd::prelude::*;

verus! {

/// The number of four digits of 64 bits, the most significant first.
pub open spec fn limbs(a: int, b: int, c: int, d: int) -> int {
    ((a * 0x1_0000_0000_0000_0000 + b) * 0x1_0000_0000_0000_0000 + c) * 0x1_0000_0000_0000_0000 + d
}

/// The order of the field in four digits.
pub open spec fn modulus_limbs() -> int {
    limbs(0x30644e72e131a029, 0xb85045b68181585d, 0x97816a916871ca8d, 0x3c208c16d87cfd47)
}

/// The four digits are those of the order of the field.
pub proof fn lemma_modulus_limbs()
    ensures
        modulus_limbs() == field_modulus(),
        modulus_limbs() > 4,
{
    reveal(field_modulus);
}

/// One step of squaring: from four to the power `e` to four to the power
/// `2 * e` or `2 * e + 1`, all taken in the field.
pub proof fn lemma_power_step(e: nat, r: int, odd: bool, next: int)
    requires
        pow(4, e) % modulus_limbs() == r,
        (r * r * (if odd {
            4int
        } else {
            1int
        })) % modulus_limbs() == next,
    ensures
        pow(4, 2 * e + (if odd {
            1nat
        } else {
            0nat
        })) % modulus_limbs() == next,
{
    let p = modulus_limbs();
    let x = pow(4, e);
    lemma_modulus_limbs();
    lemma_pow_adds(4, e, e);
    assert(e + e == 2 * e);
    lemma_mul_mod_noop(x, x, p);
    assert((x * x) % p == (r * r) % p);
    if odd {
        lemma_pow_adds(4, 2 * e, 1);
        lemma_pow1(4);
        lemma_mul_mod_noop(x * x, 4, p);
        lemma_mul_mod_noop(r * r, 4, p);
    } else {
        assert(r * r * 1 == r * r) by (nonlinear_arith);
    }
}

/// Digits 1 to 16 of the exponent.
proof fn lemma_power_part_1()
    ensures
        pow(4, limbs(0x0, 0x0, 0x0, 0xc191) as nat) % modulus_limbs() == limbs(0x178ce610eda02c2c, 0x2571df5d699ca140, 0xaad42db40d1bfa5b, 0xbd2b3997a86642bd),
{
    let e0: nat = 0;
    lemma_modulus_limbs();
    assert(pow(4, 0) == 1) by {
        reveal_with_fuel(pow, 1);
    }
    lemma_small_mod(1, modulus_limbs() as nat);
    assert((limbs(0x0, 0x0, 0x0, 0x1) * limbs(0x0, 0x0, 0x0, 0x1) * 4) % modulus_limbs() == limbs(0x0, 0x0, 0x0, 0x4)) by (nonlinear_arith);
    lemma_power_step(e0, limbs(0x0, 0x0, 0x0, 0x1), true, limbs(0x0, 0x0, 0x0, 0x4));
    let e1: nat = 2 * e0 + 1;
    assert((limbs(0x0, 0x0, 0x0, 0x4) * limbs(0x0, 0x0, 0x0, 0x4) * 4) % modulus_limbs() == limbs(0x0, 0x0, 0x0, 0x40)) by (nonlinear_arith);
    lemma_power_step(e1, limbs(0x0, 0x0, 0x0, 0x4), true, limbs(0x0, 0x0, 0x0, 0x40));
    let e2: nat = 2 * e1 + 1;
    assert((limbs(0x0, 0x0, 0x0, 0x40) * limbs(0x0, 0x0, 0x0, 0x40) * 1) % modulus_limbs() == limbs(0x0, 0x0, 0x0, 0x1000)) by (nonlinear_arith);
    lemma_power_step(e2, limbs(0x0, 0x0, 0x0, 0x40), false, limbs(0x0, 0x0, 0x0, 0x1000));
    let e3: nat = 2 * e2 + 0;
    assert((limbs(0x0, 0x0, 0x0, 0x1000) * limbs(0x0, 0x0, 0x0, 0x1000) * 1) % modulus_limbs() == limbs(0x0, 0x0, 0x0, 0x1000000)) by (nonlinear_arith);
    lemma_power_step(e3, limbs(0x0, 0x0, 0x0, 0x1000), false, limbs(0x0, 0x0, 0x0, 0x1000000));
    let e4: nat = 2 * e3 + 0;
    assert((limbs(0x0, 0x0, 0x0, 0x1000000) * limbs(0x0, 0x0, 0x0, 0x1000000) * 1) % modulus_limbs() == limbs(0x0, 0x0, 0x0, 0x1000000000000)) by (nonlinear_arith);
    lemma_power_step(e4, limbs(0x0, 0x0, 0x0, 0x1000000), false, limbs(0x0, 0x0, 0x0, 0x1000000000000));
    let e5: nat = 2 * e4 + 0;
    assert((limbs(0x0, 0x0, 0x0, 0x1000000000000) * limbs(0x0, 0x0, 0x0, 0x1000000000000) * 1) % modulus_limbs() == limbs(0x0, 0x0, 0x100000000, 0x0)) by (nonlinear_arith);
    lemma_power_step(e5, limbs(0x0, 0x0, 0x0, 0x1000000000000), false, limbs(0x0, 0x0, 0x100000000, 0x0));
    let e6: nat = 2 * e5 + 0;
    assert((limbs(0x0, 0x0, 0x100000000, 0x0) * limbs(0x0, 0x0, 0x100000000, 0x0) * 1) % modulus_limbs() == limbs(0x1, 0x0, 0x0, 0x0)) by (nonlinear_arith);
    lemma_power_step(e6, limbs(0x0, 0x0, 0x100000000, 0x0), false, limbs(0x1, 0x0, 0x0, 0x0));
    let e7: nat = 2 * e6 + 0;
    assert((limbs(0x1, 0x0, 0x0, 0x0) * limbs(0x1, 0x0, 0x0, 0x0) * 4) % modulus_limbs() == limbs(0x1f4d4b07a0aee642, 0x8cf4516aea28f0ea, 0xbd0bdf5927aa8062, 0xe8ab7d835ba63d3)) by (nonlinear_arith);
    lemma_power_step(e7, limbs(0x1, 0x0, 0x0, 0x0), true, limbs(0x1f4d4b07a0aee642, 0x8cf4516aea28f0ea, 0xbd0bdf5927aa8062, 0xe8ab7d835ba63d3));
    let e8: nat = 2 * e7 + 1;
    assert((limbs(0x1f4d4b07a0aee642, 0x8cf4516aea28f0ea, 0xbd0bdf5927aa8062, 0xe8ab7d835ba63d3) * limbs(0x1f4d4b07a0aee642, 0x8cf4516aea28f0ea, 0xbd0bdf5927aa8062, 0xe8ab7d835ba63d3) * 4) % modulus_limbs() == limbs(0x1e8276bf82f36a39, 0xea470d5af5c8e720, 0x49c7533d3ef267f3, 0x59e3e420284dacd3)) by (nonlinear_arith);
    lemma_power_step(e8, limbs(0x1f4d4b07a0aee642, 0x8cf4516aea28f0ea, 0xbd0bdf5927aa8062, 0xe8ab7d835ba63d3), true, limbs(0x1e8276bf82f36a39, 0xea470d5af5c8e720, 0x49c7533d3ef267f3, 0x59e3e420284dacd3));
    let e9: nat = 2 * e8 + 1;
    assert((limbs(0x1e8276bf82f36a39, 0xea470d5af5c8e720, 0x49c7533d3ef267f3, 0x59e3e420284dacd3) * limbs(0x1e8276bf82f36a39, 0xea470d5af5c8e720, 0x49c7533d3ef267f3, 0x59e3e420284dacd3) * 1) % modulus_limbs() == limbs(0xded62baec0f3fc0, 0xf482838f3abcff7c, 0xaf8b28254f74cf8c, 0xced58aa290d60a11)) by (nonlinear_arith);
    lemma_power_step(e9, limbs(0x1e8276bf82f36a39, 0xea470d5af5c8e720, 0x49c7533d3ef267f3, 0x59e3e420284dacd3), false, limbs(0xded62baec0f3fc0, 0xf482838f3abcff7c, 0xaf8b28254f74cf8c, 0xced58aa290d60a11));
    let e10: nat = 2 * e9 + 0;
    assert((limbs(0xded62baec0f3fc0, 0xf482838f3abcff7c, 0xaf8b28254f74cf8c, 0xced58aa290d60a11) * limbs(0xded62baec0f3fc0, 0xf482838f3abcff7c, 0xaf8b28254f74cf8c, 0xced58aa290d60a11) * 1) % modulus_limbs() == limbs(0x2fafcc3bab0b4518, 0xdaa7e861e698e95f, 0x383978cb14bd8ed1, 0xec9a61255fb75d60)) by (nonlinear_arith);
    lemma_power_step(e10, limbs(0xded62baec0f3fc0, 0xf482838f3abcff7c, 0xaf8b28254f74cf8c, 0xced58aa290d60a11), false, limbs(0x2fafcc3bab0b4518, 0xdaa7e861e698e95f, 0x383978cb14bd8ed1, 0xec9a61255fb75d60));
    let e11: nat = 2 * e10 + 0;
    assert((limbs(0x2fafcc3bab0b4518, 0xdaa7e861e698e95f, 0x383978cb14bd8ed1, 0xec9a61255fb75d60) * limbs(0x2fafcc3bab0b4518, 0xdaa7e861e698e95f, 0x383978cb14bd8ed1, 0xec9a61255fb75d60) * 4) % modulus_limbs() == limbs(0x1d229a83df7f5ba, 0xbf97d33ad6e11188, 0x1771bd34dbe8fbb8, 0x643bb66b07530a0f)) by (nonlinear_arith);
    lemma_power_step(e11, limbs(0x2fafcc3bab0b4518, 0xdaa7e861e698e95f, 0x383978cb14bd8ed1, 0xec9a61255fb75d60), true, limbs(0x1d229a83df7f5ba, 0xbf97d33ad6e11188, 0x1771bd34dbe8fbb8, 0x643bb66b07530a0f));
    let e12: nat = 2 * e11 + 1;
    assert((limbs(0x1d229a83df7f5ba, 0xbf97d33ad6e11188, 0x1771bd34dbe8fbb8, 0x643bb66b07530a0f) * limbs(0x1d229a83df7f5ba, 0xbf97d33ad6e11188, 0x1771bd34dbe8fbb8, 0x643bb66b07530a0f) * 1) % modulus_limbs() == limbs(0x177e00525f733d9d, 0x18cd8251c1ad463c, 0x5cc8965ef9f315e, 0xbcccc0d0e0df0c87)) by (nonlinear_arith);
    lemma_power_step(e12, limbs(0x1d229a83df7f5ba, 0xbf97d33ad6e11188, 0x1771bd34dbe8fbb8, 0x643bb66b07530a0f), false, limbs(0x177e00525f733d9d, 0x18cd8251c1ad463c, 0x5cc8965ef9f315e, 0xbcccc0d0e0df0c87));
    let e13: nat = 2 * e12 + 0;
    assert((limbs(0x177e00525f733d9d, 0x18cd8251c1ad463c, 0x5cc8965ef9f315e, 0xbcccc0d0e0df0c87) * limbs(0x177e00525f733d9d, 0x18cd8251c1ad463c, 0x5cc8965ef9f315e, 0xbcccc0d0e0df0c87) * 1) % modulus_limbs() == limbs(0x26def7961970ae52, 0x1a5118817dbfb976, 0x57926b0794631131, 0xe6909bb7804f0d8e)) by (nonlinear_arith);
    lemma_power_step(e13, limbs(0x177e00525f733d9d, 0x18cd8251c1ad463c, 0x5cc8965ef9f315e, 0xbcccc0d0e0df0c87), false, limbs(0x26def7961970ae52, 0x1a5118817dbfb976, 0x57926b0794631131, 0xe6909bb7804f0d8e));
    let e14: nat = 2 * e13 + 0;
    assert((limbs(0x26def7961970ae52, 0x1a5118817dbfb976, 0x57926b0794631131, 0xe6909bb7804f0d8e) * limbs(0x26def7961970ae52, 0x1a5118817dbfb976, 0x57926b0794631131, 0xe6909bb7804f0d8e) * 1) % modulus_limbs() == limbs(0x2fe1bab58f4d1123, 0xd14895ceed8f9e71, 0xb4c100fcc5fc1a9d, 0xc8e2f9d784bbb073)) by (nonlinear_arith);
    lemma_power_step(e14, limbs(0x26def7961970ae52, 0x1a5118817dbfb976, 0x57926b0794631131, 0xe6909bb7804f0d8e), false, limbs(0x2fe1bab58f4d1123, 0xd14895ceed8f9e71, 0xb4c100fcc5fc1a9d, 0xc8e2f9d784bbb073));
    let e15: nat = 2 * e14 + 0;
    assert((limbs(0x2fe1bab58f4d1123, 0xd14895ceed8f9e71, 0xb4c100fcc5fc1a9d, 0xc8e2f9d784bbb073) * limbs(0x2fe1bab58f4d1123, 0xd14895ceed8f9e71, 0xb4c100fcc5fc1a9d, 0xc8e2f9d784bbb073) * 4) % modulus_limbs() == limbs(0x178ce610eda02c2c, 0x2571df5d699ca140, 0xaad42db40d1bfa5b, 0xbd2b3997a86642bd)) by (nonlinear_arith);
    lemma_power_step(e15, limbs(0x2fe1bab58f4d1123, 0xd14895ceed8f9e71, 0xb4c100fcc5fc1a9d, 0xc8e2f9d784bbb073), true, limbs(0x178ce610eda02c2c, 0x2571df5d699ca140, 0xaad42db40d1bfa5b, 0xbd2b3997a86642bd));
    let e16: nat = 2 * e15 + 1;
    assert(e16 == limbs(0x0, 0x0, 0x0, 0xc191));
}

/// Digits 17 to 32 of the exponent.
proof fn lemma_power_part_2()
    ensures
        pow(4, limbs(0x0, 0x0, 0x0, 0xc19139cb) as nat) % modulus_limbs() == limbs(0x2b3c759a824ba36f, 0x998d743b242f0977, 0x181869b587a7fb5d, 0x94c4463b346e47f5),
{
    lemma_power_part_1();
    let e0: nat = limbs(0x0, 0x0, 0x0, 0xc191) as nat;
    assert((limbs(0x178ce610eda02c2c, 0x2571df5d699ca140, 0xaad42db40d1bfa5b, 0xbd2b3997a86642bd) * limbs(0x178ce610eda02c2c, 0x2571df5d699ca140, 0xaad42db40d1bfa5b, 0xbd2b3997a86642bd) * 1) % modulus_limbs() == limbs(0x180a405bba2144fc, 0x963b92fa86f7990d, 0xce1ca9a8a477044, 0x9913f1c8549924f8)) by (nonlinear_arith);
    lemma_power_step(e0, limbs(0x178ce610eda02c2c, 0x2571df5d699ca140, 0xaad42db40d1bfa5b, 0xbd2b3997a86642bd), false, limbs(0x180a405bba2144fc, 0x963b92fa86f7990d, 0xce1ca9a8a477044, 0x9913f1c8549924f8));
    let e1: nat = 2 * e0 + 0;
    assert((limbs(0x180a405bba2144fc, 0x963b92fa86f7990d, 0xce1ca9a8a477044, 0x9913f1c8549924f8) * limbs(0x180a405bba2144fc, 0x963b92fa86f7990d, 0xce1ca9a8a477044, 0x9913f1c8549924f8) * 1) % modulus_limbs() == limbs(0x4720e7345838b25, 0xae0474aeb784e3c5, 0x23cfd4e446ba2ccf, 0x1b3690e492344b13)) by (nonlinear_arith);
    lemma_power_step(e1, limbs(0x180a405bba2144fc, 0x963b92fa86f7990d, 0xce1ca9a8a477044, 0x9913f1c8549924f8), false, limbs(0x4720e7345838b25, 0xae0474aeb784e3c5, 0x23cfd4e446ba2ccf, 0x1b3690e492344b13));
    let e2: nat = 2 * e1 + 0;
    assert((limbs(0x4720e7345838b25, 0xae0474aeb784e3c5, 0x23cfd4e446ba2ccf, 0x1b3690e492344b13) * limbs(0x4720e7345838b25, 0xae0474aeb784e3c5, 0x23cfd4e446ba2ccf, 0x1b3690e492344b13) * 4) % modulus_limbs() == limbs(0x2812a6dd10df7b9a, 0x27dbabb8e603e4a6, 0xec8d5423b5bf3a02, 0x8c28619caea63dc0)) by (nonlinear_arith);
    lemma_power_step(e2, limbs(0x4720e7345838b25, 0xae0474aeb784e3c5, 0x23cfd4e446ba2ccf, 0x1b3690e492344b13), true, limbs(0x2812a6dd10df7b9a, 0x27dbabb8e603e4a6, 0xec8d5423b5bf3a02, 0x8c28619caea63dc0));
    let e3: nat = 2 * e2 + 1;
    assert((limbs(0x2812a6dd10df7b9a, 0x27dbabb8e603e4a6, 0xec8d5423b5bf3a02, 0x8c28619caea63dc0) * limbs(0x2812a6dd10df7b9a, 0x27dbabb8e603e4a6, 0xec8d5423b5bf3a02, 0x8c28619caea63dc0) * 4) % modulus_limbs() == limbs(0x1e4fd2864b9aaba4, 0x23ed5526661c3994, 0xb63a460fd907400, 0x180e157ed1cba954)) by (nonlinear_arith);
    lemma_power_step(e3, limbs(0x2812a6dd10df7b9a, 0x27dbabb8e603e4a6, 0xec8d5423b5bf3a02, 0x8c28619caea63dc0), true, limbs(0x1e4fd2864b9aaba4, 0x23ed5526661c3994, 0xb63a460fd907400, 0x180e157ed1cba954));
    let e4: nat = 2 * e3 + 1;
    assert((limbs(0x1e4fd2864b9aaba4, 0x23ed5526661c3994, 0xb63a460fd907400, 0x180e157ed1cba954) * limbs(0x1e4fd2864b9aaba4, 0x23ed5526661c3994, 0xb63a460fd907400, 0x180e157ed1cba954) * 4) % modulus_limbs() == limbs(0x1621399edcd3fa4c, 0x1f5f24b5bc45ad1c, 0xfa7e020041a19b14, 0x1f258ff8dd1dbf9b)) by (nonlinear_arith);
    lemma_power_step(e4, limbs(0x1e4fd2864b9aaba4, 0x23ed5526661c3994, 0xb63a460fd907400, 0x180e157ed1cba954), true, limbs(0x1621399edcd3fa4c, 0x1f5f24b5bc45ad1c, 0xfa7e020041a19b14, 0x1f258ff8dd1dbf9b));
    let e5: nat = 2 * e4 + 1;
    assert((limbs(0x1621399edcd3fa4c, 0x1f5f24b5bc45ad1c, 0xfa7e020041a19b14, 0x1f258ff8dd1dbf9b) * limbs(0x1621399edcd3fa4c, 0x1f5f24b5bc45ad1c, 0xfa7e020041a19b14, 0x1f258ff8dd1dbf9b) * 1) % modulus_limbs() == limbs(0x181abaa2b6502446, 0x97ec61e7755c2ac1, 0xc1874ab2bc581f4f, 0x4dbbe503f7c05cb4)) by (nonlinear_arith);
    lemma_power_step(e5, limbs(0x1621399edcd3fa4c, 0x1f5f24b5bc45ad1c, 0xfa7e020041a19b14, 0x1f258ff8dd1dbf9b), false, limbs(0x181abaa2b6502446, 0x97ec61e7755c2ac1, 0xc1874ab2bc581f4f, 0x4dbbe503f7c05cb4));
    let e6: nat = 2 * e5 + 0;
    assert((limbs(0x181abaa2b6502446, 0x97ec61e7755c2ac1, 0xc1874ab2bc581f4f, 0x4dbbe503f7c05cb4) * limbs(0x181abaa2b6502446, 0x97ec61e7755c2ac1, 0xc1874ab2bc581f4f, 0x4dbbe503f7c05cb4) * 1) % modulus_limbs() == limbs(0x58d7336ac16e6a1, 0xf1447134db4aa390, 0x2d8348a2fc7167d5, 0x94b7409fecc3ad55)) by (nonlinear_arith);
    lemma_power_step(e6, limbs(0x181abaa2b6502446, 0x97ec61e7755c2ac1, 0xc1874ab2bc581f4f, 0x4dbbe503f7c05cb4), false, limbs(0x58d7336ac16e6a1, 0xf1447134db4aa390, 0x2d8348a2fc7167d5, 0x94b7409fecc3ad55));
    let e7: nat = 2 * e6 + 0;
    assert((limbs(0x58d7336ac16e6a1, 0xf1447134db4aa390, 0x2d8348a2fc7167d5, 0x94b7409fecc3ad55) * limbs(0x58d7336ac16e6a1, 0xf1447134db4aa390, 0x2d8348a2fc7167d5, 0x94b7409fecc3ad55) * 4) % modulus_limbs() == limbs(0x1f41996fc7ed0798, 0xc1a0979702a98538, 0x99c145ae1dd5e544, 0xacd09373a9f6c17c)) by (nonlinear_arith);
    lemma_power_step(e7, limbs(0x58d7336ac16e6a1, 0xf1447134db4aa390, 0x2d8348a2fc7167d5, 0x94b7409fecc3ad55), true, limbs(0x1f41996fc7ed0798, 0xc1a0979702a98538, 0x99c145ae1dd5e544, 0xacd09373a9f6c17c));
    let e8: nat = 2 * e7 + 1;
    assert((limbs(0x1f41996fc7ed0798, 0xc1a0979702a98538, 0x99c145ae1dd5e544, 0xacd09373a9f6c17c) * limbs(0x1f41996fc7ed0798, 0xc1a0979702a98538, 0x99c145ae1dd5e544, 0xacd09373a9f6c17c) * 4) % modulus_limbs() == limbs(0x290da53031ba603b, 0x5cad16f4a47acaa4, 0xc1bdffadeec0a776, 0xdcd85e89772ea1d9)) by (nonlinear_arith);
    lemma_power_step(e8, limbs(0x1f41996fc7ed0798, 0xc1a0979702a98538, 0x99c145ae1dd5e544, 0xacd09373a9f6c17c), true, limbs(0x290da53031ba603b, 0x5cad16f4a47acaa4, 0xc1bdffadeec0a776, 0xdcd85e89772ea1d9));
    let e9: nat = 2 * e8 + 1;
    assert((limbs(0x290da53031ba603b, 0x5cad16f4a47acaa4, 0xc1bdffadeec0a776, 0xdcd85e89772ea1d9) * limbs(0x290da53031ba603b, 0x5cad16f4a47acaa4, 0xc1bdffadeec0a776, 0xdcd85e89772ea1d9) * 4) % modulus_limbs() == limbs(0x5704ac52fb80395, 0x48caac75a997cd69, 0x2a9633aa786598bc, 0xf3cba6d7a86265cf)) by (nonlinear_arith);
    lemma_power_step(e9, limbs(0x290da53031ba603b, 0x5cad16f4a47acaa4, 0xc1bdffadeec0a776, 0xdcd85e89772ea1d9), true, limbs(0x5704ac52fb80395, 0x48caac75a997cd69, 0x2a9633aa786598bc, 0xf3cba6d7a86265cf));
    let e10: nat = 2 * e9 + 1;
    assert((limbs(0x5704ac52fb80395, 0x48caac75a997cd69, 0x2a9633aa786598bc, 0xf3cba6d7a86265cf) * limbs(0x5704ac52fb80395, 0x48caac75a997cd69, 0x2a9633aa786598bc, 0xf3cba6d7a86265cf) * 1) % modulus_limbs() == limbs(0xe72f238a858da35, 0x178bb804288a1011, 0x742cb09b68df6efd, 0x1a0ed42a2fedae3)) by (nonlinear_arith);
    lemma_power_step(e10, limbs(0x5704ac52fb80395, 0x48caac75a997cd69, 0x2a9633aa786598bc, 0xf3cba6d7a86265cf), false, limbs(0xe72f238a858da35, 0x178bb804288a1011, 0x742cb09b68df6efd, 0x1a0ed42a2fedae3));
    let e11: nat = 2 * e10 + 0;
    assert((limbs(0xe72f238a858da35, 0x178bb804288a1011, 0x742cb09b68df6efd, 0x1a0ed42a2fedae3) * limbs(0xe72f238a858da35, 0x178bb804288a1011, 0x742cb09b68df6efd, 0x1a0ed42a2fedae3) * 1) % modulus_limbs() == limbs(0xe221fa713c2440f, 0x11a69083ab3422fb, 0x6290ab6280ea882b, 0x8b74206a5e1eb1c6)) by (nonlinear_arith);
    lemma_power_step(e11, limbs(0xe72f238a858da35, 0x178bb804288a1011, 0x742cb09b68df6efd, 0x1a0ed42a2fedae3), false, limbs(0xe221fa713c2440f, 0x11a69083ab3422fb, 0x6290ab6280ea882b, 0x8b74206a5e1eb1c6));
    let e12: nat = 2 * e11 + 0;
    assert((limbs(0xe221fa713c2440f, 0x11a69083ab3422fb, 0x6290ab6280ea882b, 0x8b74206a5e1eb1c6) * limbs(0xe221fa713c2440f, 0x11a69083ab3422fb, 0x6290ab6280ea882b, 0x8b74206a5e1eb1c6) * 4) % modulus_limbs() == limbs(0x1a75dc03b81a838f, 0x62fbbb743e542796, 0xd8e302cb80c8fdad, 0x3c5463d8a9fe5fd3)) by (nonlinear_arith);
    lemma_power_step(e12, limbs(0xe221fa713c2440f, 0x11a69083ab3422fb, 0x6290ab6280ea882b, 0x8b74206a5e1eb1c6), true, limbs(0x1a75dc03b81a838f, 0x62fbbb743e542796, 0xd8e302cb80c8fdad, 0x3c5463d8a9fe5fd3));
    let e13: nat = 2 * e12 + 1;
    assert((limbs(0x1a75dc03b81a838f, 0x62fbbb743e542796, 0xd8e302cb80c8fdad, 0x3c5463d8a9fe5fd3) * limbs(0x1a75dc03b81a838f, 0x62fbbb743e542796, 0xd8e302cb80c8fdad, 0x3c5463d8a9fe5fd3) * 1) % modulus_limbs() == limbs(0x7bdcb71e6619905, 0xf813adde2ee22249, 0xe0553483640f7107, 0xe6f9a62c22f827ac)) by (nonlinear_arith);
    lemma_power_step(e13, limbs(0x1a75dc03b81a838f, 0x62fbbb743e542796, 0xd8e302cb80c8fdad, 0x3c5463d8a9fe5fd3), false, limbs(0x7bdcb71e6619905, 0xf813adde2ee22249, 0xe0553483640f7107, 0xe6f9a62c22f827ac));
    let e14: nat = 2 * e13 + 0;
    assert((limbs(0x7bdcb71e6619905, 0xf813adde2ee22249, 0xe0553483640f7107, 0xe6f9a62c22f827ac) * limbs(0x7bdcb71e6619905, 0xf813adde2ee22249, 0xe0553483640f7107, 0xe6f9a62c22f827ac) * 4) % modulus_limbs() == limbs(0x7c75bc14feaf57f, 0x567f17d7ecfe1ce5, 0xd7a8a016c973b29a, 0x34d80d53b893dc73)) by (nonlinear_arith);
    lemma_power_step(e14, limbs(0x7bdcb71e6619905, 0xf813adde2ee22249, 0xe0553483640f7107, 0xe6f9a62c22f827ac), true, limbs(0x7c75bc14feaf57f, 0x567f17d7ecfe1ce5, 0xd7a8a016c973b29a, 0x34d80d53b893dc73));
    let e15: nat = 2 * e14 + 1;
    assert((limbs(0x7c75bc14feaf57f, 0x567f17d7ecfe1ce5, 0xd7a8a016c973b29a, 0x34d80d53b893dc73) * limbs(0x7c75bc14feaf57f, 0x567f17d7ecfe1ce5, 0xd7a8a016c973b29a, 0x34d80d53b893dc73) * 4) % modulus_limbs() == limbs(0x2b3c759a824ba36f, 0x998d743b242f0977, 0x181869b587a7fb5d, 0x94c4463b346e47f5)) by (nonlinear_arith);
    lemma_power_step(e15, limbs(0x7c75bc14feaf57f, 0x567f17d7ecfe1ce5, 0xd7a8a016c973b29a, 0x34d80d53b893dc73), true, limbs(0x2b3c759a824ba36f, 0x998d743b242f0977, 0x181869b587a7fb5d, 0x94c4463b346e47f5));
    let e16: nat = 2 * e15 + 1;
    assert(e16 == limbs(0x0, 0x0, 0x0, 0xc19139cb));
}

/// Digits 33 to 48 of the exponent.
proof fn lemma_power_part_3()
    ensures
        pow(4, limbs(0x0, 0x0, 0x0, 0xc19139cb84c6) as nat) % modulus_limbs() == limbs(0x16c8f4b272aca499, 0xee9472c11c29c9b8, 0x8f2e77bfcad2d6a8, 0x3a98e3c90fde3c42),
{
    lemma_power_part_2();
    let e0: nat = limbs(0x0, 0x0, 0x0, 0xc19139cb) as nat;
    assert((limbs(0x2b3c759a824ba36f, 0x998d743b242f0977, 0x181869b587a7fb5d, 0x94c4463b346e47f5) * limbs(0x2b3c759a824ba36f, 0x998d743b242f0977, 0x181869b587a7fb5d, 0x94c4463b346e47f5) * 4) % modulus_limbs() == limbs(0x1ef95696cdb133ef, 0xb30663295c03e101, 0xba296cf5abfcd871, 0x87f56878ca924689)) by (nonlinear_arith);
    lemma_power_step(e0, limbs(0x2b3c759a824ba36f, 0x998d743b242f0977, 0x181869b587a7fb5d, 0x94c4463b346e47f5), true, limbs(0x1ef95696cdb133ef, 0xb30663295c03e101, 0xba296cf5abfcd871, 0x87f56878ca924689));
    let e1: nat = 2 * e0 + 1;
    assert((limbs(0x1ef95696cdb133ef, 0xb30663295c03e101, 0xba296cf5abfcd871, 0x87f56878ca924689) * limbs(0x1ef95696cdb133ef, 0xb30663295c03e101, 0xba296cf5abfcd871, 0x87f56878ca924689) * 1) % modulus_limbs() == limbs(0x18ea8c83422d270, 0x3077a56faad00658, 0x14e4f99509ad9589, 0x8ddc3871fd0c59fe)) by (nonlinear_arith);
    lemma_power_step(e1, limbs(0x1ef95696cdb133ef, 0xb30663295c03e101, 0xba296cf5abfcd871, 0x87f56878ca924689), false, limbs(0x18ea8c83422d270, 0x3077a56faad00658, 0x14e4f99509ad9589, 0x8ddc3871fd0c59fe));
    let e2: nat = 2 * e1 + 0;
    assert((limbs(0x18ea8c83422d270, 0x3077a56faad00658, 0x14e4f99509ad9589, 0x8ddc3871fd0c59fe) * limbs(0x18ea8c83422d270, 0x3077a56faad00658, 0x14e4f99509ad9589, 0x8ddc3871fd0c59fe) * 1) % modulus_limbs() == limbs(0xcaff6d86db29bf4, 0xdb5797b8a59a6b25, 0x75ace8f4ba77532b, 0xdd8104b33b9e4f83)) by (nonlinear_arith);
    lemma_power_step(e2, limbs(0x18ea8c83422d270, 0x3077a56faad00658, 0x14e4f99509ad9589, 0x8ddc3871fd0c59fe), false, limbs(0xcaff6d86db29bf4, 0xdb5797b8a59a6b25, 0x75ace8f4ba77532b, 0xdd8104b33b9e4f83));
    let e3: nat = 2 * e2 + 0;
    assert((limbs(0xcaff6d86db29bf4, 0xdb5797b8a59a6b25, 0x75ace8f4ba77532b, 0xdd8104b33b9e4f83) * limbs(0xcaff6d86db29bf4, 0xdb5797b8a59a6b25, 0x75ace8f4ba77532b, 0xdd8104b33b9e4f83) * 1) % modulus_limbs() == limbs(0x103848275997a0c7, 0x4003fdc8f73ec5b2, 0x3eab90b06ce86da7, 0x227472c732847b47)) by (nonlinear_arith);
    lemma_power_step(e3, limbs(0xcaff6d86db29bf4, 0xdb5797b8a59a6b25, 0x75ace8f4ba77532b, 0xdd8104b33b9e4f83), false, limbs(0x103848275997a0c7, 0x4003fdc8f73ec5b2, 0x3eab90b06ce86da7, 0x227472c732847b47));
    let e4: nat = 2 * e3 + 0;
    assert((limbs(0x103848275997a0c7, 0x4003fdc8f73ec5b2, 0x3eab90b06ce86da7, 0x227472c732847b47) * limbs(0x103848275997a0c7, 0x4003fdc8f73ec5b2, 0x3eab90b06ce86da7, 0x227472c732847b47) * 1) % modulus_limbs() == limbs(0x77eca46fe0395f6, 0x66c9dc6cd8db8185, 0xfe59f90239ba5456, 0x53cf022eb307738f)) by (nonlinear_arith);
    lemma_power_step(e4, limbs(0x103848275997a0c7, 0x4003fdc8f73ec5b2, 0x3eab90b06ce86da7, 0x227472c732847b47), false, limbs(0x77eca46fe0395f6, 0x66c9dc6cd8db8185, 0xfe59f90239ba5456, 0x53cf022eb307738f));
    let e5: nat = 2 * e4 + 0;
    assert((limbs(0x77eca46fe0395f6, 0x66c9dc6cd8db8185, 0xfe59f90239ba5456, 0x53cf022eb307738f) * limbs(0x77eca46fe0395f6, 0x66c9dc6cd8db8185, 0xfe59f90239ba5456, 0x53cf022eb307738f) * 4) % modulus_limbs() == limbs(0xeb8c71be2c939fd, 0xb787800b3284c94d, 0xd7e61d9702fc70a1, 0x62ddbaa26f2d82d9)) by (nonlinear_arith);
    lemma_power_step(e5, limbs(0x77eca46fe0395f6, 0x66c9dc6cd8db8185, 0xfe59f90239ba5456, 0x53cf022eb307738f), true, limbs(0xeb8c71be2c939fd, 0xb787800b3284c94d, 0xd7e61d9702fc70a1, 0x62ddbaa26f2d82d9));
    let e6: nat = 2 * e5 + 1;
    assert((limbs(0xeb8c71be2c939fd, 0xb787800b3284c94d, 0xd7e61d9702fc70a1, 0x62ddbaa26f2d82d9) * limbs(0xeb8c71be2c939fd, 0xb787800b3284c94d, 0xd7e61d9702fc70a1, 0x62ddbaa26f2d82d9) * 1) % modulus_limbs() == limbs(0x14ab2cfda727f4a3, 0x5a1e2fd7c528088c, 0xc0d1615449cecf4f, 0x2376d0572b035ae4)) by (nonlinear_arith);
    lemma_power_step(e6, limbs(0xeb8c71be2c939fd, 0xb787800b3284c94d, 0xd7e61d9702fc70a1, 0x62ddbaa26f2d82d9), false, limbs(0x14ab2cfda727f4a3, 0x5a1e2fd7c528088c, 0xc0d1615449cecf4f, 0x2376d0572b035ae4));
    let e7: nat = 2 * e6 + 0;
    assert((limbs(0x14ab2cfda727f4a3, 0x5a1e2fd7c528088c, 0xc0d1615449cecf4f, 0x2376d0572b035ae4) * limbs(0x14ab2cfda727f4a3, 0x5a1e2fd7c528088c, 0xc0d1615449cecf4f, 0x2376d0572b035ae4) * 1) % modulus_limbs() == limbs(0x10d36f5182fe9422, 0x2b37e821ff34d7a8, 0x86cda087f1054887, 0x3feaa5361b19662f)) by (nonlinear_arith);
    lemma_power_step(e7, limbs(0x14ab2cfda727f4a3, 0x5a1e2fd7c528088c, 0xc0d1615449cecf4f, 0x2376d0572b035ae4), false, limbs(0x10d36f5182fe9422, 0x2b37e821ff34d7a8, 0x86cda087f1054887, 0x3feaa5361b19662f));
    let e8: nat = 2 * e7 + 0;
    assert((limbs(0x10d36f5182fe9422, 0x2b37e821ff34d7a8, 0x86cda087f1054887, 0x3feaa5361b19662f) * limbs(0x10d36f5182fe9422, 0x2b37e821ff34d7a8, 0x86cda087f1054887, 0x3feaa5361b19662f) * 4) % modulus_limbs() == limbs(0xad0aa4b37d295d8, 0x7c98f37045a1273c, 0x71e79b9546fdc477, 0xf0a250e7689fd138)) by (nonlinear_arith);
    lemma_power_step(e8, limbs(0x10d36f5182fe9422, 0x2b37e821ff34d7a8, 0x86cda087f1054887, 0x3feaa5361b19662f), true, limbs(0xad0aa4b37d295d8, 0x7c98f37045a1273c, 0x71e79b9546fdc477, 0xf0a250e7689fd138));
    let e9: nat = 2 * e8 + 1;
    assert((limbs(0xad0aa4b37d295d8, 0x7c98f37045a1273c, 0x71e79b9546fdc477, 0xf0a250e7689fd138) * limbs(0xad0aa4b37d295d8, 0x7c98f37045a1273c, 0x71e79b9546fdc477, 0xf0a250e7689fd138) * 4) % modulus_limbs() == limbs(0x1c1308d9da2ef34b, 0xc97ff0318d9ac38e, 0x8b236655bf3d197e, 0x9e0cd498c8d38b3c)) by (nonlinear_arith);
    lemma_power_step(e9, limbs(0xad0aa4b37d295d8, 0x7c98f37045a1273c, 0x71e79b9546fdc477, 0xf0a250e7689fd138), true, limbs(0x1c1308d9da2ef34b, 0xc97ff0318d9ac38e, 0x8b236655bf3d197e, 0x9e0cd498c8d38b3c));
    let e10: nat = 2 * e9 + 1;
    assert((limbs(0x1c1308d9da2ef34b, 0xc97ff0318d9ac38e, 0x8b236655bf3d197e, 0x9e0cd498c8d38b3c) * limbs(0x1c1308d9da2ef34b, 0xc97ff0318d9ac38e, 0x8b236655bf3d197e, 0x9e0cd498c8d38b3c) * 1) % modulus_limbs() == limbs(0x1ddd1ef191662d82, 0xac7704f15f778905, 0x11c0c7f834bfd982, 0x31d16b7d5eda6149)) by (nonlinear_arith);
    lemma_power_step(e10, limbs(0x1c1308d9da2ef34b, 0xc97ff0318d9ac38e, 0x8b236655bf3d197e, 0x9e0cd498c8d38b3c), false, limbs(0x1ddd1ef191662d82, 0xac7704f15f778905, 0x11c0c7f834bfd982, 0x31d16b7d5eda6149));
    let e11: nat = 2 * e10 + 0;
    assert((limbs(0x1ddd1ef191662d82, 0xac7704f15f778905, 0x11c0c7f834bfd982, 0x31d16b7d5eda6149) * limbs(0x1ddd1ef191662d82, 0xac7704f15f778905, 0x11c0c7f834bfd982, 0x31d16b7d5eda6149) * 1) % modulus_limbs() == limbs(0x17a37a5b6fd3abc4, 0xcafeb623fca9da27, 0xa2a8f15b3b2b42cb, 0x9f22f5f660d3078e)) by (nonlinear_arith);
    lemma_power_step(e11, limbs(0x1ddd1ef191662d82, 0xac7704f15f778905, 0x11c0c7f834bfd982, 0x31d16b7d5eda6149), false, limbs(0x17a37a5b6fd3abc4, 0xcafeb623fca9da27, 0xa2a8f15b3b2b42cb, 0x9f22f5f660d3078e));
    let e12: nat = 2 * e11 + 0;
    assert((limbs(0x17a37a5b6fd3abc4, 0xcafeb623fca9da27, 0xa2a8f15b3b2b42cb, 0x9f22f5f660d3078e) * limbs(0x17a37a5b6fd3abc4, 0xcafeb623fca9da27, 0xa2a8f15b3b2b42cb, 0x9f22f5f660d3078e) * 1) % modulus_limbs() == limbs(0x4ddef478ed9083d, 0xa7d79a511cf5da6e, 0x86275a21a4225b62, 0x8cf61ee437ab78a1)) by (nonlinear_arith);
    lemma_power_step(e12, limbs(0x17a37a5b6fd3abc4, 0xcafeb623fca9da27, 0xa2a8f15b3b2b42cb, 0x9f22f5f660d3078e), false, limbs(0x4ddef478ed9083d, 0xa7d79a511cf5da6e, 0x86275a21a4225b62, 0x8cf61ee437ab78a1));
    let e13: nat = 2 * e12 + 0;
    assert((limbs(0x4ddef478ed9083d, 0xa7d79a511cf5da6e, 0x86275a21a4225b62, 0x8cf61ee437ab78a1) * limbs(0x4ddef478ed9083d, 0xa7d79a511cf5da6e, 0x86275a21a4225b62, 0x8cf61ee437ab78a1) * 4) % modulus_limbs() == limbs(0x2c04aff08647f313, 0x56d9595078b652ee, 0x970ec7602adc57b8, 0xd89e8cc787ba52cb)) by (nonlinear_arith);
    lemma_power_step(e13, limbs(0x4ddef478ed9083d, 0xa7d79a511cf5da6e, 0x86275a21a4225b62, 0x8cf61ee437ab78a1), true, limbs(0x2c04aff08647f313, 0x56d9595078b652ee, 0x970ec7602adc57b8, 0xd89e8cc787ba52cb));
    let e14: nat = 2 * e13 + 1;
    assert((limbs(0x2c04aff08647f313, 0x56d9595078b652ee, 0x970ec7602adc57b8, 0xd89e8cc787ba52cb) * limbs(0x2c04aff08647f313, 0x56d9595078b652ee, 0x970ec7602adc57b8, 0xd89e8cc787ba52cb) * 4) % modulus_limbs() == limbs(0xc5ac8a365491cc4, 0xbe8eaa0e37f6bd77, 0x47aca15c68b30c9e, 0x985eb66e84c2db21)) by (nonlinear_arith);
    lemma_power_step(e14, limbs(0x2c04aff08647f313, 0x56d9595078b652ee, 0x970ec7602adc57b8, 0xd89e8cc787ba52cb), true, limbs(0xc5ac8a365491cc4, 0xbe8eaa0e37f6bd77, 0x47aca15c68b30c9e, 0x985eb66e84c2db21));
    let e15: nat = 2 * e14 + 1;
    assert((limbs(0xc5ac8a365491cc4, 0xbe8eaa0e37f6bd77, 0x47aca15c68b30c9e, 0x985eb66e84c2db21) * limbs(0xc5ac8a365491cc4, 0xbe8eaa0e37f6bd77, 0x47aca15c68b30c9e, 0x985eb66e84c2db21) * 1) % modulus_limbs() == limbs(0x16c8f4b272aca499, 0xee9472c11c29c9b8, 0x8f2e77bfcad2d6a8, 0x3a98e3c90fde3c42)) by (nonlinear_arith);
    lemma_power_step(e15, limbs(0xc5ac8a365491cc4, 0xbe8eaa0e37f6bd77, 0x47aca15c68b30c9e, 0x985eb66e84c2db21), false, limbs(0x16c8f4b272aca499, 0xee9472c11c29c9b8, 0x8f2e77bfcad2d6a8, 0x3a98e3c90fde3c42));
    let e16: nat = 2 * e15 + 0;
    assert(e16 == limbs(0x0, 0x0, 0x0, 0xc19139cb84c6));
}

/// Digits 49 to 64 of the exponent.
proof fn lemma_power_part_4()
    ensures
        pow(4, limbs(0x0, 0x0, 0x0, 0xc19139cb84c680a6) as nat) % modulus_limbs() == limbs(0x17235c9c311c107a, 0x6b6837510639f3bc, 0xe4d40e787001d673, 0x4451ea607d454792),
{
    lemma_power_part_3();
    let e0: nat = limbs(0x0, 0x0, 0x0, 0xc19139cb84c6) as nat;
    assert((limbs(0x16c8f4b272aca499, 0xee9472c11c29c9b8, 0x8f2e77bfcad2d6a8, 0x3a98e3c90fde3c42) * limbs(0x16c8f4b272aca499, 0xee9472c11c29c9b8, 0x8f2e77bfcad2d6a8, 0x3a98e3c90fde3c42) * 4) % modulus_limbs() == limbs(0x247ee74672555fca, 0xadbf30cdc4756b48, 0x3b5ccbe366a03fb8, 0x136c8d5f95601dd)) by (nonlinear_arith);
    lemma_power_step(e0, limbs(0x16c8f4b272aca499, 0xee9472c11c29c9b8, 0x8f2e77bfcad2d6a8, 0x3a98e3c90fde3c42), true, limbs(0x247ee74672555fca, 0xadbf30cdc4756b48, 0x3b5ccbe366a03fb8, 0x136c8d5f95601dd));
    let e1: nat = 2 * e0 + 1;
    assert((limbs(0x247ee74672555fca, 0xadbf30cdc4756b48, 0x3b5ccbe366a03fb8, 0x136c8d5f95601dd) * limbs(0x247ee74672555fca, 0xadbf30cdc4756b48, 0x3b5ccbe366a03fb8, 0x136c8d5f95601dd) * 1) % modulus_limbs() == limbs(0x164ecd737d9ae343, 0x13d982ea56bd7fc5, 0xae7a192cdea5395a, 0x4e1414ef3ea8653f)) by (nonlinear_arith);
    lemma_power_step(e1, limbs(0x247ee74672555fca, 0xadbf30cdc4756b48, 0x3b5ccbe366a03fb8, 0x136c8d5f95601dd), false, limbs(0x164ecd737d9ae343, 0x13d982ea56bd7fc5, 0xae7a192cdea5395a, 0x4e1414ef3ea8653f));
    let e2: nat = 2 * e1 + 0;
    assert((limbs(0x164ecd737d9ae343, 0x13d982ea56bd7fc5, 0xae7a192cdea5395a, 0x4e1414ef3ea8653f) * limbs(0x164ecd737d9ae343, 0x13d982ea56bd7fc5, 0xae7a192cdea5395a, 0x4e1414ef3ea8653f) * 1) % modulus_limbs() == limbs(0xa1dec27ec0b8970, 0x9f6b4ded023f0c5, 0xcf9502dead38742b, 0x62ca48b2410c47c2)) by (nonlinear_arith);
    lemma_power_step(e2, limbs(0x164ecd737d9ae343, 0x13d982ea56bd7fc5, 0xae7a192cdea5395a, 0x4e1414ef3ea8653f), false, limbs(0xa1dec27ec0b8970, 0x9f6b4ded023f0c5, 0xcf9502dead38742b, 0x62ca48b2410c47c2));
    let e3: nat = 2 * e2 + 0;
    assert((limbs(0xa1dec27ec0b8970, 0x9f6b4ded023f0c5, 0xcf9502dead38742b, 0x62ca48b2410c47c2) * limbs(0xa1dec27ec0b8970, 0x9f6b4ded023f0c5, 0xcf9502dead38742b, 0x62ca48b2410c47c2) * 1) % modulus_limbs() == limbs(0x4083ee14e6d7b22, 0x5e53680e37156af, 0x8c3ab0afd292b4e6, 0xf7f5b41f3a542dc6)) by (nonlinear_arith);
    lemma_power_step(e3, limbs(0xa1dec27ec0b8970, 0x9f6b4ded023f0c5, 0xcf9502dead38742b, 0x62ca48b2410c47c2), false, limbs(0x4083ee14e6d7b22, 0x5e53680e37156af, 0x8c3ab0afd292b4e6, 0xf7f5b41f3a542dc6));
    let e4: nat = 2 * e3 + 0;
    assert((limbs(0x4083ee14e6d7b22, 0x5e53680e37156af, 0x8c3ab0afd292b4e6, 0xf7f5b41f3a542dc6) * limbs(0x4083ee14e6d7b22, 0x5e53680e37156af, 0x8c3ab0afd292b4e6, 0xf7f5b41f3a542dc6) * 1) % modulus_limbs() == limbs(0x23132c18e8fd98e1, 0xd161a4bf6299323c, 0x7fe3d5c759ac98a8, 0x7c5d316ae5339970)) by (nonlinear_arith);
    lemma_power_step(e4, limbs(0x4083ee14e6d7b22, 0x5e53680e37156af, 0x8c3ab0afd292b4e6, 0xf7f5b41f3a542dc6), false, limbs(0x23132c18e8fd98e1, 0xd161a4bf6299323c, 0x7fe3d5c759ac98a8, 0x7c5d316ae5339970));
    let e5: nat = 2 * e4 + 0;
    assert((limbs(0x23132c18e8fd98e1, 0xd161a4bf6299323c, 0x7fe3d5c759ac98a8, 0x7c5d316ae5339970) * limbs(0x23132c18e8fd98e1, 0xd161a4bf6299323c, 0x7fe3d5c759ac98a8, 0x7c5d316ae5339970) * 1) % modulus_limbs() == limbs(0x16d82f2f1e31dca7, 0x9fcf3d6feeea78f4, 0x21e9bc0b4db513a1, 0x92d34900717c4316)) by (nonlinear_arith);
    lemma_power_step(e5, limbs(0x23132c18e8fd98e1, 0xd161a4bf6299323c, 0x7fe3d5c759ac98a8, 0x7c5d316ae5339970), false, limbs(0x16d82f2f1e31dca7, 0x9fcf3d6feeea78f4, 0x21e9bc0b4db513a1, 0x92d34900717c4316));
    let e6: nat = 2 * e5 + 0;
    assert((limbs(0x16d82f2f1e31dca7, 0x9fcf3d6feeea78f4, 0x21e9bc0b4db513a1, 0x92d34900717c4316) * limbs(0x16d82f2f1e31dca7, 0x9fcf3d6feeea78f4, 0x21e9bc0b4db513a1, 0x92d34900717c4316) * 1) % modulus_limbs() == limbs(0xf7369a131e20369, 0xa934b1375f188b71, 0x47eeec5eb3a8ef04, 0xa642410982ff92e1)) by (nonlinear_arith);
    lemma_power_step(e6, limbs(0x16d82f2f1e31dca7, 0x9fcf3d6feeea78f4, 0x21e9bc0b4db513a1, 0x92d34900717c4316), false, limbs(0xf7369a131e20369, 0xa934b1375f188b71, 0x47eeec5eb3a8ef04, 0xa642410982ff92e1));
    let e7: nat = 2 * e6 + 0;
    assert((limbs(0xf7369a131e20369, 0xa934b1375f188b71, 0x47eeec5eb3a8ef04, 0xa642410982ff92e1) * limbs(0xf7369a131e20369, 0xa934b1375f188b71, 0x47eeec5eb3a8ef04, 0xa642410982ff92e1) * 1) % modulus_limbs() == limbs(0x23c5bbb9881b4d61, 0x8a53b2612d8f1466, 0xe1f154ba5648a9e5, 0xe5c9b6f76743d0c1)) by (nonlinear_arith);
    lemma_power_step(e7, limbs(0xf7369a131e20369, 0xa934b1375f188b71, 0x47eeec5eb3a8ef04, 0xa642410982ff92e1), false, limbs(0x23c5bbb9881b4d61, 0x8a53b2612d8f1466, 0xe1f154ba5648a9e5, 0xe5c9b6f76743d0c1));
    let e8: nat = 2 * e7 + 0;
    assert((limbs(0x23c5bbb9881b4d61, 0x8a53b2612d8f1466, 0xe1f154ba5648a9e5, 0xe5c9b6f76743d0c1) * limbs(0x23c5bbb9881b4d61, 0x8a53b2612d8f1466, 0xe1f154ba5648a9e5, 0xe5c9b6f76743d0c1) * 4) % modulus_limbs() == limbs(0x175c6bf99cd73938, 0xc250cb0edfdfb877, 0x18ac81cec223e0e5, 0x54c749b266f68f9c)) by (nonlinear_arith);
    lemma_power_step(e8, limbs(0x23c5bbb9881b4d61, 0x8a53b2612d8f1466, 0xe1f154ba5648a9e5, 0xe5c9b6f76743d0c1), true, limbs(0x175c6bf99cd73938, 0xc250cb0edfdfb877, 0x18ac81cec223e0e5, 0x54c749b266f68f9c));
    let e9: nat = 2 * e8 + 1;
    assert((limbs(0x175c6bf99cd73938, 0xc250cb0edfdfb877, 0x18ac81cec223e0e5, 0x54c749b266f68f9c) * limbs(0x175c6bf99cd73938, 0xc250cb0edfdfb877, 0x18ac81cec223e0e5, 0x54c749b266f68f9c) * 1) % modulus_limbs() == limbs(0x2b048ebc73e0fb76, 0x7148f2a8e3d55bf5, 0x58d43600115d656b, 0xd46c11bfe7a7a58)) by (nonlinear_arith);
    lemma_power_step(e9, limbs(0x175c6bf99cd73938, 0xc250cb0edfdfb877, 0x18ac81cec223e0e5, 0x54c749b266f68f9c), false, limbs(0x2b048ebc73e0fb76, 0x7148f2a8e3d55bf5, 0x58d43600115d656b, 0xd46c11bfe7a7a58));
    let e10: nat = 2 * e9 + 0;
    assert((limbs(0x2b048ebc73e0fb76, 0x7148f2a8e3d55bf5, 0x58d43600115d656b, 0xd46c11bfe7a7a58) * limbs(0x2b048ebc73e0fb76, 0x7148f2a8e3d55bf5, 0x58d43600115d656b, 0xd46c11bfe7a7a58) * 4) % modulus_limbs() == limbs(0x2c63139a14bea4b7, 0xa19fb9466887f9a8, 0xdb94473d46380847, 0x85197727a1686bfd)) by (nonlinear_arith);
    lemma_power_step(e10, limbs(0x2b048ebc73e0fb76, 0x7148f2a8e3d55bf5, 0x58d43600115d656b, 0xd46c11bfe7a7a58), true, limbs(0x2c63139a14bea4b7, 0xa19fb9466887f9a8, 0xdb94473d46380847, 0x85197727a1686bfd));
    let e11: nat = 2 * e10 + 1;
    assert((limbs(0x2c63139a14bea4b7, 0xa19fb9466887f9a8, 0xdb94473d46380847, 0x85197727a1686bfd) * limbs(0x2c63139a14bea4b7, 0xa19fb9466887f9a8, 0xdb94473d46380847, 0x85197727a1686bfd) * 1) % modulus_limbs() == limbs(0xf93f6adc7e48b82, 0x353106ab6cb4fb0, 0x6aa0e4b2312982, 0x9f35da1cbefce086)) by (nonlinear_arith);
    lemma_power_step(e11, limbs(0x2c63139a14bea4b7, 0xa19fb9466887f9a8, 0xdb94473d46380847, 0x85197727a1686bfd), false, limbs(0xf93f6adc7e48b82, 0x353106ab6cb4fb0, 0x6aa0e4b2312982, 0x9f35da1cbefce086));
    let e12: nat = 2 * e11 + 0;
    assert((limbs(0xf93f6adc7e48b82, 0x353106ab6cb4fb0, 0x6aa0e4b2312982, 0x9f35da1cbefce086) * limbs(0xf93f6adc7e48b82, 0x353106ab6cb4fb0, 0x6aa0e4b2312982, 0x9f35da1cbefce086) * 1) % modulus_limbs() == limbs(0xde4b3568129113d, 0xa0ca51172505d0d7, 0x66aa88ccc1ea2236, 0xaf178ec99274d56f)) by (nonlinear_arith);
    lemma_power_step(e12, limbs(0xf93f6adc7e48b82, 0x353106ab6cb4fb0, 0x6aa0e4b2312982, 0x9f35da1cbefce086), false, limbs(0xde4b3568129113d, 0xa0ca51172505d0d7, 0x66aa88ccc1ea2236, 0xaf178ec99274d56f));
    let e13: nat = 2 * e12 + 0;
    assert((limbs(0xde4b3568129113d, 0xa0ca51172505d0d7, 0x66aa88ccc1ea2236, 0xaf178ec99274d56f) * limbs(0xde4b3568129113d, 0xa0ca51172505d0d7, 0x66aa88ccc1ea2236, 0xaf178ec99274d56f) * 4) % modulus_limbs() == limbs(0x21e2d783ec3491c7, 0x232ccf7332719d48, 0x4900d0e89b3c5cc7, 0x95debe17c0a0de02)) by (nonlinear_arith);
    lemma_power_step(e13, limbs(0xde4b3568129113d, 0xa0ca51172505d0d7, 0x66aa88ccc1ea2236, 0xaf178ec99274d56f), true, limbs(0x21e2d783ec3491c7, 0x232ccf7332719d48, 0x4900d0e89b3c5cc7, 0x95debe17c0a0de02));
    let e14: nat = 2 * e13 + 1;
    assert((limbs(0x21e2d783ec3491c7, 0x232ccf7332719d48, 0x4900d0e89b3c5cc7, 0x95debe17c0a0de02) * limbs(0x21e2d783ec3491c7, 0x232ccf7332719d48, 0x4900d0e89b3c5cc7, 0x95debe17c0a0de02) * 4) % modulus_limbs() == limbs(0x17008e0942c5e934, 0x45c47a94740d2503, 0xf5988d67b746e849, 0x8d184c2800c08804)) by (nonlinear_arith);
    lemma_power_step(e14, limbs(0x21e2d783ec3491c7, 0x232ccf7332719d48, 0x4900d0e89b3c5cc7, 0x95debe17c0a0de02), true, limbs(0x17008e0942c5e934, 0x45c47a94740d2503, 0xf5988d67b746e849, 0x8d184c2800c08804));
    let e15: nat = 2 * e14 + 1;
    assert((limbs(0x17008e0942c5e934, 0x45c47a94740d2503, 0xf5988d67b746e849, 0x8d184c2800c08804) * limbs(0x17008e0942c5e934, 0x45c47a94740d2503, 0xf5988d67b746e849, 0x8d184c2800c08804) * 1) % modulus_limbs() == limbs(0x17235c9c311c107a, 0x6b6837510639f3bc, 0xe4d40e787001d673, 0x4451ea607d454792)) by (nonlinear_arith);
    lemma_power_step(e15, limbs(0x17008e0942c5e934, 0x45c47a94740d2503, 0xf5988d67b746e849, 0x8d184c2800c08804), false, limbs(0x17235c9c311c107a, 0x6b6837510639f3bc, 0xe4d40e787001d673, 0x4451ea607d454792));
    let e16: nat = 2 * e15 + 0;
    assert(e16 == limbs(0x0, 0x0, 0x0, 0xc19139cb84c680a6));
}

/// Digits 65 to 80 of the exponent.
proof fn lemma_power_part_5()
    ensures
        pow(4, limbs(0x0, 0x0, 0xc191, 0x39cb84c680a6e141) as nat) % modulus_limbs() == limbs(0x14d2cc6fb2e37bb9, 0x26916041e2c87f24, 0xdce960ac672c971f, 0x9d0b2f300a669ea0),
{
    lemma_power_part_4();
    let e0: nat = limbs(0x0, 0x0, 0x0, 0xc19139cb84c680a6) as nat;
    assert((limbs(0x17235c9c311c107a, 0x6b6837510639f3bc, 0xe4d40e787001d673, 0x4451ea607d454792) * limbs(0x17235c9c311c107a, 0x6b6837510639f3bc, 0xe4d40e787001d673, 0x4451ea607d454792) * 4) % modulus_limbs() == limbs(0xb139b636fdcd7c0, 0x282deb2e7e0d40b4, 0x392f29c7658fd794, 0xf8eed089a6d82334)) by (nonlinear_arith);
    lemma_power_step(e0, limbs(0x17235c9c311c107a, 0x6b6837510639f3bc, 0xe4d40e787001d673, 0x4451ea607d454792), true, limbs(0xb139b636fdcd7c0, 0x282deb2e7e0d40b4, 0x392f29c7658fd794, 0xf8eed089a6d82334));
    let e1: nat = 2 * e0 + 1;
    assert((limbs(0xb139b636fdcd7c0, 0x282deb2e7e0d40b4, 0x392f29c7658fd794, 0xf8eed089a6d82334) * limbs(0xb139b636fdcd7c0, 0x282deb2e7e0d40b4, 0x392f29c7658fd794, 0xf8eed089a6d82334) * 4) % modulus_limbs() == limbs(0x1dda763ac789d663, 0x3bc941b0f1015582, 0xedbcf870ecf65e3f, 0xffc2f176b92ebd91)) by (nonlinear_arith);
    lemma_power_step(e1, limbs(0xb139b636fdcd7c0, 0x282deb2e7e0d40b4, 0x392f29c7658fd794, 0xf8eed089a6d82334), true, limbs(0x1dda763ac789d663, 0x3bc941b0f1015582, 0xedbcf870ecf65e3f, 0xffc2f176b92ebd91));
    let e2: nat = 2 * e1 + 1;
    assert((limbs(0x1dda763ac789d663, 0x3bc941b0f1015582, 0xedbcf870ecf65e3f, 0xffc2f176b92ebd91) * limbs(0x1dda763ac789d663, 0x3bc941b0f1015582, 0xedbcf870ecf65e3f, 0xffc2f176b92ebd91) * 4) % modulus_limbs() == limbs(0x1bf19976a2468e64, 0xbc43cec7a18e6608, 0xff4c5ebaa332f920, 0x5aaa7ab7d9506267)) by (nonlinear_arith);
    lemma_power_step(e2, limbs(0x1dda763ac789d663, 0x3bc941b0f1015582, 0xedbcf870ecf65e3f, 0xffc2f176b92ebd91), true, limbs(0x1bf19976a2468e64, 0xbc43cec7a18e6608, 0xff4c5ebaa332f920, 0x5aaa7ab7d9506267));
    let e3: nat = 2 * e2 + 1;
    assert((limbs(0x1bf19976a2468e64, 0xbc43cec7a18e6608, 0xff4c5ebaa332f920, 0x5aaa7ab7d9506267) * limbs(0x1bf19976a2468e64, 0xbc43cec7a18e6608, 0xff4c5ebaa332f920, 0x5aaa7ab7d9506267) * 1) % modulus_limbs() == limbs(0xf0b4475af8637c8, 0x9469a8e52493c006, 0x209ba000ffbff589, 0x86f9b4ffea83e84b)) by (nonlinear_arith);
    lemma_power_step(e3, limbs(0x1bf19976a2468e64, 0xbc43cec7a18e6608, 0xff4c5ebaa332f920, 0x5aaa7ab7d9506267), false, limbs(0xf0b4475af8637c8, 0x9469a8e52493c006, 0x209ba000ffbff589, 0x86f9b4ffea83e84b));
    let e4: nat = 2 * e3 + 0;
    assert((limbs(0xf0b4475af8637c8, 0x9469a8e52493c006, 0x209ba000ffbff589, 0x86f9b4ffea83e84b) * limbs(0xf0b4475af8637c8, 0x9469a8e52493c006, 0x209ba000ffbff589, 0x86f9b4ffea83e84b) * 1) % modulus_limbs() == limbs(0x125639fd0eb743fa, 0xfb00e81a945718f5, 0x9ac9cfc5dbe4c28a, 0x763409d42c2e32ab)) by (nonlinear_arith);
    lemma_power_step(e4, limbs(0xf0b4475af8637c8, 0x9469a8e52493c006, 0x209ba000ffbff589, 0x86f9b4ffea83e84b), false, limbs(0x125639fd0eb743fa, 0xfb00e81a945718f5, 0x9ac9cfc5dbe4c28a, 0x763409d42c2e32ab));
    let e5: nat = 2 * e4 + 0;
    assert((limbs(0x125639fd0eb743fa, 0xfb00e81a945718f5, 0x9ac9cfc5dbe4c28a, 0x763409d42c2e32ab) * limbs(0x125639fd0eb743fa, 0xfb00e81a945718f5, 0x9ac9cfc5dbe4c28a, 0x763409d42c2e32ab) * 1) % modulus_limbs() == limbs(0x1802e7cd1f812225, 0xb11f282a02129ab2, 0xf1f07759affee1b5, 0xc0ee4f347820da12)) by (nonlinear_arith);
    lemma_power_step(e5, limbs(0x125639fd0eb743fa, 0xfb00e81a945718f5, 0x9ac9cfc5dbe4c28a, 0x763409d42c2e32ab), false, limbs(0x1802e7cd1f812225, 0xb11f282a02129ab2, 0xf1f07759affee1b5, 0xc0ee4f347820da12));
    let e6: nat = 2 * e5 + 0;
    assert((limbs(0x1802e7cd1f812225, 0xb11f282a02129ab2, 0xf1f07759affee1b5, 0xc0ee4f347820da12) * limbs(0x1802e7cd1f812225, 0xb11f282a02129ab2, 0xf1f07759affee1b5, 0xc0ee4f347820da12) * 1) % modulus_limbs() == limbs(0x10d840b8189d9c7b, 0xa90d2922740c72b6, 0x4605eb80719851a2, 0x403262df79adf8ff)) by (nonlinear_arith);
    lemma_power_step(e6, limbs(0x1802e7cd1f812225, 0xb11f282a02129ab2, 0xf1f07759affee1b5, 0xc0ee4f347820da12), false, limbs(0x10d840b8189d9c7b, 0xa90d2922740c72b6, 0x4605eb80719851a2, 0x403262df79adf8ff));
    let e7: nat = 2 * e6 + 0;
    assert((limbs(0x10d840b8189d9c7b, 0xa90d2922740c72b6, 0x4605eb80719851a2, 0x403262df79adf8ff) * limbs(0x10d840b8189d9c7b, 0xa90d2922740c72b6, 0x4605eb80719851a2, 0x403262df79adf8ff) * 4) % modulus_limbs() == limbs(0x1ba436f983a69ecd, 0x5c28e83ed32d710b, 0xb009434af2dae8ff, 0xa96abf17a261106e)) by (nonlinear_arith);
    lemma_power_step(e7, limbs(0x10d840b8189d9c7b, 0xa90d2922740c72b6, 0x4605eb80719851a2, 0x403262df79adf8ff), true, limbs(0x1ba436f983a69ecd, 0x5c28e83ed32d710b, 0xb009434af2dae8ff, 0xa96abf17a261106e));
    let e8: nat = 2 * e7 + 1;
    assert((limbs(0x1ba436f983a69ecd, 0x5c28e83ed32d710b, 0xb009434af2dae8ff, 0xa96abf17a261106e) * limbs(0x1ba436f983a69ecd, 0x5c28e83ed32d710b, 0xb009434af2dae8ff, 0xa96abf17a261106e) * 1) % modulus_limbs() == limbs(0x2d947dce08825369, 0xdca3c76dc93ece2e, 0x13fcf54daa174303, 0x7f581495ba19c5d1)) by (nonlinear_arith);
    lemma_power_step(e8, limbs(0x1ba436f983a69ecd, 0x5c28e83ed32d710b, 0xb009434af2dae8ff, 0xa96abf17a261106e), false, limbs(0x2d947dce08825369, 0xdca3c76dc93ece2e, 0x13fcf54daa174303, 0x7f581495ba19c5d1));
    let e9: nat = 2 * e8 + 0;
    assert((limbs(0x2d947dce08825369, 0xdca3c76dc93ece2e, 0x13fcf54daa174303, 0x7f581495ba19c5d1) * limbs(0x2d947dce08825369, 0xdca3c76dc93ece2e, 0x13fcf54daa174303, 0x7f581495ba19c5d1) * 4) % modulus_limbs() == limbs(0x16b2779cb5b7f832, 0x26dccf482c885d97, 0x3fdefb40d3d11601, 0x6bbfc47b49a7f5fb)) by (nonlinear_arith);
    lemma_power_step(e9, limbs(0x2d947dce08825369, 0xdca3c76dc93ece2e, 0x13fcf54daa174303, 0x7f581495ba19c5d1), true, limbs(0x16b2779cb5b7f832, 0x26dccf482c885d97, 0x3fdefb40d3d11601, 0x6bbfc47b49a7f5fb));
    let e10: nat = 2 * e9 + 1;
    assert((limbs(0x16b2779cb5b7f832, 0x26dccf482c885d97, 0x3fdefb40d3d11601, 0x6bbfc47b49a7f5fb) * limbs(0x16b2779cb5b7f832, 0x26dccf482c885d97, 0x3fdefb40d3d11601, 0x6bbfc47b49a7f5fb) * 1) % modulus_limbs() == limbs(0x20a5e06c6bdbdb05, 0x95888c70e51be3b6, 0x91b28cc83616a13, 0x688b6832466c6527)) by (nonlinear_arith);
    lemma_power_step(e10, limbs(0x16b2779cb5b7f832, 0x26dccf482c885d97, 0x3fdefb40d3d11601, 0x6bbfc47b49a7f5fb), false, limbs(0x20a5e06c6bdbdb05, 0x95888c70e51be3b6, 0x91b28cc83616a13, 0x688b6832466c6527));
    let e11: nat = 2 * e10 + 0;
    assert((limbs(0x20a5e06c6bdbdb05, 0x95888c70e51be3b6, 0x91b28cc83616a13, 0x688b6832466c6527) * limbs(0x20a5e06c6bdbdb05, 0x95888c70e51be3b6, 0x91b28cc83616a13, 0x688b6832466c6527) * 1) % modulus_limbs() == limbs(0x29904e4f81d876b7, 0x8f9986f38bc1112c, 0x3617742b9250b948, 0xf6be9ccd124a6d5a)) by (nonlinear_arith);
    lemma_power_step(e11, limbs(0x20a5e06c6bdbdb05, 0x95888c70e51be3b6, 0x91b28cc83616a13, 0x688b6832466c6527), false, limbs(0x29904e4f81d876b7, 0x8f9986f38bc1112c, 0x3617742b9250b948, 0xf6be9ccd124a6d5a));
    let e12: nat = 2 * e11 + 0;
    assert((limbs(0x29904e4f81d876b7, 0x8f9986f38bc1112c, 0x3617742b9250b948, 0xf6be9ccd124a6d5a) * limbs(0x29904e4f81d876b7, 0x8f9986f38bc1112c, 0x3617742b9250b948, 0xf6be9ccd124a6d5a) * 1) % modulus_limbs() == limbs(0x29ccc9cb7c0fb7f6, 0x471b404c781903f6, 0x6c9320123d7c3646, 0xa6ae27e6ce492a21)) by (nonlinear_arith);
    lemma_power_step(e12, limbs(0x29904e4f81d876b7, 0x8f9986f38bc1112c, 0x3617742b9250b948, 0xf6be9ccd124a6d5a), false, limbs(0x29ccc9cb7c0fb7f6, 0x471b404c781903f6, 0x6c9320123d7c3646, 0xa6ae27e6ce492a21));
    let e13: nat = 2 * e12 + 0;
    assert((limbs(0x29ccc9cb7c0fb7f6, 0x471b404c781903f6, 0x6c9320123d7c3646, 0xa6ae27e6ce492a21) * limbs(0x29ccc9cb7c0fb7f6, 0x471b404c781903f6, 0x6c9320123d7c3646, 0xa6ae27e6ce492a21) * 1) % modulus_limbs() == limbs(0x2a2cd2df3ce71167, 0xf116b380849e0bbf, 0x762cca0cfc4a28c0, 0x4eafa92cb621cf84)) by (nonlinear_arith);
    lemma_power_step(e13, limbs(0x29ccc9cb7c0fb7f6, 0x471b404c781903f6, 0x6c9320123d7c3646, 0xa6ae27e6ce492a21), false, limbs(0x2a2cd2df3ce71167, 0xf116b380849e0bbf, 0x762cca0cfc4a28c0, 0x4eafa92cb621cf84));
    let e14: nat = 2 * e13 + 0;
    assert((limbs(0x2a2cd2df3ce71167, 0xf116b380849e0bbf, 0x762cca0cfc4a28c0, 0x4eafa92cb621cf84) * limbs(0x2a2cd2df3ce71167, 0xf116b380849e0bbf, 0x762cca0cfc4a28c0, 0x4eafa92cb621cf84) * 1) % modulus_limbs() == limbs(0x1902903ae32fec11, 0xfbcf796c4080c39d, 0xdba5a92a491e1436, 0x11e61fc8c13d6e90)) by (nonlinear_arith);
    lemma_power_step(e14, limbs(0x2a2cd2df3ce71167, 0xf116b380849e0bbf, 0x762cca0cfc4a28c0, 0x4eafa92cb621cf84), false, limbs(0x1902903ae32fec11, 0xfbcf796c4080c39d, 0xdba5a92a491e1436, 0x11e61fc8c13d6e90));
    let e15: nat = 2 * e14 + 0;
    assert((limbs(0x1902903ae32fec11, 0xfbcf796c4080c39d, 0xdba5a92a491e1436, 0x11e61fc8c13d6e90) * limbs(0x1902903ae32fec11, 0xfbcf796c4080c39d, 0xdba5a92a491e1436, 0x11e61fc8c13d6e90) * 4) % modulus_limbs() == limbs(0x14d2cc6fb2e37bb9, 0x26916041e2c87f24, 0xdce960ac672c971f, 0x9d0b2f300a669ea0)) by (nonlinear_arith);
    lemma_power_step(e15, limbs(0x1902903ae32fec11, 0xfbcf796c4080c39d, 0xdba5a92a491e1436, 0x11e61fc8c13d6e90), true, limbs(0x14d2cc6fb2e37bb9, 0x26916041e2c87f24, 0xdce960ac672c971f, 0x9d0b2f300a669ea0));
    let e16: nat = 2 * e15 + 1;
    assert(e16 == limbs(0x0, 0x0, 0xc191, 0x39cb84c680a6e141));
}

/// Digits 81 to 96 of the exponent.
proof fn lemma_power_part_6()
    ensures
        pow(4, limbs(0x0, 0x0, 0xc19139cb, 0x84c680a6e14116da) as nat) % modulus_limbs() == limbs(0xa5d99ebfbdaa8be, 0x830e3a562c4b6074, 0xe865d40ef7db595f, 0xfc12c2b9b7ec267a),
{
    lemma_power_part_5();
    let e0: nat = limbs(0x0, 0x0, 0xc191, 0x39cb84c680a6e141) as nat;
    assert((limbs(0x14d2cc6fb2e37bb9, 0x26916041e2c87f24, 0xdce960ac672c971f, 0x9d0b2f300a669ea0) * limbs(0x14d2cc6fb2e37bb9, 0x26916041e2c87f24, 0xdce960ac672c971f, 0x9d0b2f300a669ea0) * 1) % modulus_limbs() == limbs(0x51d4360727f458, 0x33c5250e623f4f1f, 0x1f0f57fc98c1537d, 0x18f2cf8ae56c5272)) by (nonlinear_arith);
    lemma_power_step(e0, limbs(0x14d2cc6fb2e37bb9, 0x26916041e2c87f24, 0xdce960ac672c971f, 0x9d0b2f300a669ea0), false, limbs(0x51d4360727f458, 0x33c5250e623f4f1f, 0x1f0f57fc98c1537d, 0x18f2cf8ae56c5272));
    let e1: nat = 2 * e0 + 0;
    assert((limbs(0x51d4360727f458, 0x33c5250e623f4f1f, 0x1f0f57fc98c1537d, 0x18f2cf8ae56c5272) * limbs(0x51d4360727f458, 0x33c5250e623f4f1f, 0x1f0f57fc98c1537d, 0x18f2cf8ae56c5272) * 1) % modulus_limbs() == limbs(0x1821855791f4595a, 0x42331a822b9f5c58, 0xf4144ec13222f2d3, 0xeafcd0fe6ae83d3b)) by (nonlinear_arith);
    lemma_power_step(e1, limbs(0x51d4360727f458, 0x33c5250e623f4f1f, 0x1f0f57fc98c1537d, 0x18f2cf8ae56c5272), false, limbs(0x1821855791f4595a, 0x42331a822b9f5c58, 0xf4144ec13222f2d3, 0xeafcd0fe6ae83d3b));
    let e2: nat = 2 * e1 + 0;
    assert((limbs(0x1821855791f4595a, 0x42331a822b9f5c58, 0xf4144ec13222f2d3, 0xeafcd0fe6ae83d3b) * limbs(0x1821855791f4595a, 0x42331a822b9f5c58, 0xf4144ec13222f2d3, 0xeafcd0fe6ae83d3b) * 1) % modulus_limbs() == limbs(0xdf70567179aa9ef, 0x9a456595e6551f92, 0xc24faf5cc79ab0b6, 0x69022c28b66c1931)) by (nonlinear_arith);
    lemma_power_step(e2, limbs(0x1821855791f4595a, 0x42331a822b9f5c58, 0xf4144ec13222f2d3, 0xeafcd0fe6ae83d3b), false, limbs(0xdf70567179aa9ef, 0x9a456595e6551f92, 0xc24faf5cc79ab0b6, 0x69022c28b66c1931));
    let e3: nat = 2 * e2 + 0;
    assert((limbs(0xdf70567179aa9ef, 0x9a456595e6551f92, 0xc24faf5cc79ab0b6, 0x69022c28b66c1931) * limbs(0xdf70567179aa9ef, 0x9a456595e6551f92, 0xc24faf5cc79ab0b6, 0x69022c28b66c1931) * 4) % modulus_limbs() == limbs(0x14bfdd3a9b6534f2, 0x56bf189302588afd, 0x8072e50598097dfc, 0x4ca4f93415c0ada3)) by (nonlinear_arith);
    lemma_power_step(e3, limbs(0xdf70567179aa9ef, 0x9a456595e6551f92, 0xc24faf5cc79ab0b6, 0x69022c28b66c1931), true, limbs(0x14bfdd3a9b6534f2, 0x56bf189302588afd, 0x8072e50598097dfc, 0x4ca4f93415c0ada3));
    let e4: nat = 2 * e3 + 1;
    assert((limbs(0x14bfdd3a9b6534f2, 0x56bf189302588afd, 0x8072e50598097dfc, 0x4ca4f93415c0ada3) * limbs(0x14bfdd3a9b6534f2, 0x56bf189302588afd, 0x8072e50598097dfc, 0x4ca4f93415c0ada3) * 1) % modulus_limbs() == limbs(0x1bc4f4f7b7c2706b, 0xdc94931fffa3b4ab, 0x8bba2de1bf9b0149, 0xdf7ed2f0f875e9e2)) by (nonlinear_arith);
    lemma_power_step(e4, limbs(0x14bfdd3a9b6534f2, 0x56bf189302588afd, 0x8072e50598097dfc, 0x4ca4f93415c0ada3), false, limbs(0x1bc4f4f7b7c2706b, 0xdc94931fffa3b4ab, 0x8bba2de1bf9b0149, 0xdf7ed2f0f875e9e2));
    let e5: nat = 2 * e4 + 0;
    assert((limbs(0x1bc4f4f7b7c2706b, 0xdc94931fffa3b4ab, 0x8bba2de1bf9b0149, 0xdf7ed2f0f875e9e2) * limbs(0x1bc4f4f7b7c2706b, 0xdc94931fffa3b4ab, 0x8bba2de1bf9b0149, 0xdf7ed2f0f875e9e2) * 4) % modulus_limbs() == limbs(0x2d66e4a54a3d759e, 0x6f0c75335d863df2, 0x4002ca858fa2f1a5, 0xa1ff6ca862879cd5)) by (nonlinear_arith);
    lemma_power_step(e5, limbs(0x1bc4f4f7b7c2706b, 0xdc94931fffa3b4ab, 0x8bba2de1bf9b0149, 0xdf7ed2f0f875e9e2), true, limbs(0x2d66e4a54a3d759e, 0x6f0c75335d863df2, 0x4002ca858fa2f1a5, 0xa1ff6ca862879cd5));
    let e6: nat = 2 * e5 + 1;
    assert((limbs(0x2d66e4a54a3d759e, 0x6f0c75335d863df2, 0x4002ca858fa2f1a5, 0xa1ff6ca862879cd5) * limbs(0x2d66e4a54a3d759e, 0x6f0c75335d863df2, 0x4002ca858fa2f1a5, 0xa1ff6ca862879cd5) * 4) % modulus_limbs() == limbs(0xd56e068b5d774a1, 0x896f634fe2bd8686, 0x99233e401f0a0b0d, 0x961f4ba2645ed098)) by (nonlinear_arith);
    lemma_power_step(e6, limbs(0x2d66e4a54a3d759e, 0x6f0c75335d863df2, 0x4002ca858fa2f1a5, 0xa1ff6ca862879cd5), true, limbs(0xd56e068b5d774a1, 0x896f634fe2bd8686, 0x99233e401f0a0b0d, 0x961f4ba2645ed098));
    let e7: nat = 2 * e6 + 1;
    assert((limbs(0xd56e068b5d774a1, 0x896f634fe2bd8686, 0x99233e401f0a0b0d, 0x961f4ba2645ed098) * limbs(0xd56e068b5d774a1, 0x896f634fe2bd8686, 0x99233e401f0a0b0d, 0x961f4ba2645ed098) * 1) % modulus_limbs() == limbs(0x10fe959606756b2c, 0xdc1d453b8efb9b5f, 0xf6a04796ac4a67a, 0x569615545bc4188)) by (nonlinear_arith);
    lemma_power_step(e7, limbs(0xd56e068b5d774a1, 0x896f634fe2bd8686, 0x99233e401f0a0b0d, 0x961f4ba2645ed098), false, limbs(0x10fe959606756b2c, 0xdc1d453b8efb9b5f, 0xf6a04796ac4a67a, 0x569615545bc4188));
    let e8: nat = 2 * e7 + 0;
    assert((limbs(0x10fe959606756b2c, 0xdc1d453b8efb9b5f, 0xf6a04796ac4a67a, 0x569615545bc4188) * limbs(0x10fe959606756b2c, 0xdc1d453b8efb9b5f, 0xf6a04796ac4a67a, 0x569615545bc4188) * 4) % modulus_limbs() == limbs(0x2b14c42ded94e4e0, 0x969c570e7d6fa79f, 0xb2f65946e93a11ce, 0x9464a12b2b7b5a47)) by (nonlinear_arith);
    lemma_power_step(e8, limbs(0x10fe959606756b2c, 0xdc1d453b8efb9b5f, 0xf6a04796ac4a67a, 0x569615545bc4188), true, limbs(0x2b14c42ded94e4e0, 0x969c570e7d6fa79f, 0xb2f65946e93a11ce, 0x9464a12b2b7b5a47));
    let e9: nat = 2 * e8 + 1;
    assert((limbs(0x2b14c42ded94e4e0, 0x969c570e7d6fa79f, 0xb2f65946e93a11ce, 0x9464a12b2b7b5a47) * limbs(0x2b14c42ded94e4e0, 0x969c570e7d6fa79f, 0xb2f65946e93a11ce, 0x9464a12b2b7b5a47) * 4) % modulus_limbs() == limbs(0x2710c527f7aafff4, 0x9e569e524d1aa5b0, 0xf55ed7f395fa3ceb, 0x424bd5395f1fcadb)) by (nonlinear_arith);
    lemma_power_step(e9, limbs(0x2b14c42ded94e4e0, 0x969c570e7d6fa79f, 0xb2f65946e93a11ce, 0x9464a12b2b7b5a47), true, limbs(0x2710c527f7aafff4, 0x9e569e524d1aa5b0, 0xf55ed7f395fa3ceb, 0x424bd5395f1fcadb));
    let e10: nat = 2 * e9 + 1;
    assert((limbs(0x2710c527f7aafff4, 0x9e569e524d1aa5b0, 0xf55ed7f395fa3ceb, 0x424bd5395f1fcadb) * limbs(0x2710c527f7aafff4, 0x9e569e524d1aa5b0, 0xf55ed7f395fa3ceb, 0x424bd5395f1fcadb) * 1) % modulus_limbs() == limbs(0x1cac72e2d682dbad, 0x848b9ba9335c4a9c, 0xada1db03ac2fa338, 0xca5d026bd593f3b1)) by (nonlinear_arith);
    lemma_power_step(e10, limbs(0x2710c527f7aafff4, 0x9e569e524d1aa5b0, 0xf55ed7f395fa3ceb, 0x424bd5395f1fcadb), false, limbs(0x1cac72e2d682dbad, 0x848b9ba9335c4a9c, 0xada1db03ac2fa338, 0xca5d026bd593f3b1));
    let e11: nat = 2 * e10 + 0;
    assert((limbs(0x1cac72e2d682dbad, 0x848b9ba9335c4a9c, 0xada1db03ac2fa338, 0xca5d026bd593f3b1) * limbs(0x1cac72e2d682dbad, 0x848b9ba9335c4a9c, 0xada1db03ac2fa338, 0xca5d026bd593f3b1) * 4) % modulus_limbs() == limbs(0x1ad3040e42afbcae, 0x84161b3a0948de2b, 0x966cb66e81938a36, 0xea9aae3167718f4)) by (nonlinear_arith);
    lemma_power_step(e11, limbs(0x1cac72e2d682dbad, 0x848b9ba9335c4a9c, 0xada1db03ac2fa338, 0xca5d026bd593f3b1), true, limbs(0x1ad3040e42afbcae, 0x84161b3a0948de2b, 0x966cb66e81938a36, 0xea9aae3167718f4));
    let e12: nat = 2 * e11 + 1;
    assert((limbs(0x1ad3040e42afbcae, 0x84161b3a0948de2b, 0x966cb66e81938a36, 0xea9aae3167718f4) * limbs(0x1ad3040e42afbcae, 0x84161b3a0948de2b, 0x966cb66e81938a36, 0xea9aae3167718f4) * 4) % modulus_limbs() == limbs(0x1c35ea3300ce160b, 0x2b1a0bcb52418047, 0xf2fc23c4ce1e2528, 0x76142372922a500c)) by (nonlinear_arith);
    lemma_power_step(e12, limbs(0x1ad3040e42afbcae, 0x84161b3a0948de2b, 0x966cb66e81938a36, 0xea9aae3167718f4), true, limbs(0x1c35ea3300ce160b, 0x2b1a0bcb52418047, 0xf2fc23c4ce1e2528, 0x76142372922a500c));
    let e13: nat = 2 * e12 + 1;
    assert((limbs(0x1c35ea3300ce160b, 0x2b1a0bcb52418047, 0xf2fc23c4ce1e2528, 0x76142372922a500c) * limbs(0x1c35ea3300ce160b, 0x2b1a0bcb52418047, 0xf2fc23c4ce1e2528, 0x76142372922a500c) * 1) % modulus_limbs() == limbs(0x177152b14680cd45, 0xb0167c4fc40d49f4, 0xddf8197a9883b62, 0x6930534d2cd4f77e)) by (nonlinear_arith);
    lemma_power_step(e13, limbs(0x1c35ea3300ce160b, 0x2b1a0bcb52418047, 0xf2fc23c4ce1e2528, 0x76142372922a500c), false, limbs(0x177152b14680cd45, 0xb0167c4fc40d49f4, 0xddf8197a9883b62, 0x6930534d2cd4f77e));
    let e14: nat = 2 * e13 + 0;
    assert((limbs(0x177152b14680cd45, 0xb0167c4fc40d49f4, 0xddf8197a9883b62, 0x6930534d2cd4f77e) * limbs(0x177152b14680cd45, 0xb0167c4fc40d49f4, 0xddf8197a9883b62, 0x6930534d2cd4f77e) * 4) % modulus_limbs() == limbs(0x2fb105100bad7bec, 0x600d81f3b8a06213, 0x37f1a366226e408f, 0x681e3ffee63bfee7)) by (nonlinear_arith);
    lemma_power_step(e14, limbs(0x177152b14680cd45, 0xb0167c4fc40d49f4, 0xddf8197a9883b62, 0x6930534d2cd4f77e), true, limbs(0x2fb105100bad7bec, 0x600d81f3b8a06213, 0x37f1a366226e408f, 0x681e3ffee63bfee7));
    let e15: nat = 2 * e14 + 1;
    assert((limbs(0x2fb105100bad7bec, 0x600d81f3b8a06213, 0x37f1a366226e408f, 0x681e3ffee63bfee7) * limbs(0x2fb105100bad7bec, 0x600d81f3b8a06213, 0x37f1a366226e408f, 0x681e3ffee63bfee7) * 1) % modulus_limbs() == limbs(0xa5d99ebfbdaa8be, 0x830e3a562c4b6074, 0xe865d40ef7db595f, 0xfc12c2b9b7ec267a)) by (nonlinear_arith);
    lemma_power_step(e15, limbs(0x2fb105100bad7bec, 0x600d81f3b8a06213, 0x37f1a366226e408f, 0x681e3ffee63bfee7), false, limbs(0xa5d99ebfbdaa8be, 0x830e3a562c4b6074, 0xe865d40ef7db595f, 0xfc12c2b9b7ec267a));
    let e16: nat = 2 * e15 + 0;
    assert(e16 == limbs(0x0, 0x0, 0xc19139cb, 0x84c680a6e14116da));
}

/// Digits 97 to 112 of the exponent.
proof fn lemma_power_part_7()
    ensures
        pow(4, limbs(0x0, 0x0, 0xc19139cb84c6, 0x80a6e14116da0605) as nat) % modulus_limbs() == limbs(0x49fe131a9815ec0, 0xfe21a90a0041ded6, 0x58ef58f031d56839, 0xc6204e5238b34139),
{
    lemma_power_part_6();
    let e0: nat = limbs(0x0, 0x0, 0xc19139cb, 0x84c680a6e14116da) as nat;
    assert((limbs(0xa5d99ebfbdaa8be, 0x830e3a562c4b6074, 0xe865d40ef7db595f, 0xfc12c2b9b7ec267a) * limbs(0xa5d99ebfbdaa8be, 0x830e3a562c4b6074, 0xe865d40ef7db595f, 0xfc12c2b9b7ec267a) * 1) % modulus_limbs() == limbs(0x725314515b08a4, 0x98fc090d27793c4f, 0xd4902a61b2cd878f, 0xa09c7d6bd6889ff7)) by (nonlinear_arith);
    lemma_power_step(e0, limbs(0xa5d99ebfbdaa8be, 0x830e3a562c4b6074, 0xe865d40ef7db595f, 0xfc12c2b9b7ec267a), false, limbs(0x725314515b08a4, 0x98fc090d27793c4f, 0xd4902a61b2cd878f, 0xa09c7d6bd6889ff7));
    let e1: nat = 2 * e0 + 0;
    assert((limbs(0x725314515b08a4, 0x98fc090d27793c4f, 0xd4902a61b2cd878f, 0xa09c7d6bd6889ff7) * limbs(0x725314515b08a4, 0x98fc090d27793c4f, 0xd4902a61b2cd878f, 0xa09c7d6bd6889ff7) * 1) % modulus_limbs() == limbs(0x2aa4e2279b03c866, 0x28a4608b11c5f3ae, 0x3011195522afe878, 0x1b9d01f169e77f6f)) by (nonlinear_arith);
    lemma_power_step(e1, limbs(0x725314515b08a4, 0x98fc090d27793c4f, 0xd4902a61b2cd878f, 0xa09c7d6bd6889ff7), false, limbs(0x2aa4e2279b03c866, 0x28a4608b11c5f3ae, 0x3011195522afe878, 0x1b9d01f169e77f6f));
    let e2: nat = 2 * e1 + 0;
    assert((limbs(0x2aa4e2279b03c866, 0x28a4608b11c5f3ae, 0x3011195522afe878, 0x1b9d01f169e77f6f) * limbs(0x2aa4e2279b03c866, 0x28a4608b11c5f3ae, 0x3011195522afe878, 0x1b9d01f169e77f6f) * 1) % modulus_limbs() == limbs(0x6d671b8f9936fe4, 0xeb5bbd76051f25f7, 0x9ca35ff82fbcb856, 0x4992f2e40e7ad6da)) by (nonlinear_arith);
    lemma_power_step(e2, limbs(0x2aa4e2279b03c866, 0x28a4608b11c5f3ae, 0x3011195522afe878, 0x1b9d01f169e77f6f), false, limbs(0x6d671b8f9936fe4, 0xeb5bbd76051f25f7, 0x9ca35ff82fbcb856, 0x4992f2e40e7ad6da));
    let e3: nat = 2 * e2 + 0;
    assert((limbs(0x6d671b8f9936fe4, 0xeb5bbd76051f25f7, 0x9ca35ff82fbcb856, 0x4992f2e40e7ad6da) * limbs(0x6d671b8f9936fe4, 0xeb5bbd76051f25f7, 0x9ca35ff82fbcb856, 0x4992f2e40e7ad6da) * 1) % modulus_limbs() == limbs(0x168f840b2b55a7d, 0xc2d0b49f1a2d17d1, 0xfd384e57ac795c8e, 0x389881a9bee25370)) by (nonlinear_arith);
    lemma_power_step(e3, limbs(0x6d671b8f9936fe4, 0xeb5bbd76051f25f7, 0x9ca35ff82fbcb856, 0x4992f2e40e7ad6da), false, limbs(0x168f840b2b55a7d, 0xc2d0b49f1a2d17d1, 0xfd384e57ac795c8e, 0x389881a9bee25370));
    let e4: nat = 2 * e3 + 0;
    assert((limbs(0x168f840b2b55a7d, 0xc2d0b49f1a2d17d1, 0xfd384e57ac795c8e, 0x389881a9bee25370) * limbs(0x168f840b2b55a7d, 0xc2d0b49f1a2d17d1, 0xfd384e57ac795c8e, 0x389881a9bee25370) * 1) % modulus_limbs() == limbs(0x1194447604ab9377, 0x8ae474993ccc0177, 0x4a1605ce5855866b, 0xb0d38c5a7fde1298)) by (nonlinear_arith);
    lemma_power_step(e4, limbs(0x168f840b2b55a7d, 0xc2d0b49f1a2d17d1, 0xfd384e57ac795c8e, 0x389881a9bee25370), false, limbs(0x1194447604ab9377, 0x8ae474993ccc0177, 0x4a1605ce5855866b, 0xb0d38c5a7fde1298));
    let e5: nat = 2 * e4 + 0;
    assert((limbs(0x1194447604ab9377, 0x8ae474993ccc0177, 0x4a1605ce5855866b, 0xb0d38c5a7fde1298) * limbs(0x1194447604ab9377, 0x8ae474993ccc0177, 0x4a1605ce5855866b, 0xb0d38c5a7fde1298) * 4) % modulus_limbs() == limbs(0x798a83b0a426a02, 0x77aff5794b5c098a, 0x48c505245c7540a7, 0x888ef22d66e35ca)) by (nonlinear_arith);
    lemma_power_step(e5, limbs(0x1194447604ab9377, 0x8ae474993ccc0177, 0x4a1605ce5855866b, 0xb0d38c5a7fde1298), true, limbs(0x798a83b0a426a02, 0x77aff5794b5c098a, 0x48c505245c7540a7, 0x888ef22d66e35ca));
    let e6: nat = 2 * e5 + 1;
    assert((limbs(0x798a83b0a426a02, 0x77aff5794b5c098a, 0x48c505245c7540a7, 0x888ef22d66e35ca) * limbs(0x798a83b0a426a02, 0x77aff5794b5c098a, 0x48c505245c7540a7, 0x888ef22d66e35ca) * 4) % modulus_limbs() == limbs(0x692f5024817b072, 0x3fa5eb9a85bc437d, 0x861b30e70203fab3, 0xb3c60c10626fb34c)) by (nonlinear_arith);
    lemma_power_step(e6, limbs(0x798a83b0a426a02, 0x77aff5794b5c098a, 0x48c505245c7540a7, 0x888ef22d66e35ca), true, limbs(0x692f5024817b072, 0x3fa5eb9a85bc437d, 0x861b30e70203fab3, 0xb3c60c10626fb34c));
    let e7: nat = 2 * e6 + 1;
    assert((limbs(0x692f5024817b072, 0x3fa5eb9a85bc437d, 0x861b30e70203fab3, 0xb3c60c10626fb34c) * limbs(0x692f5024817b072, 0x3fa5eb9a85bc437d, 0x861b30e70203fab3, 0xb3c60c10626fb34c) * 1) % modulus_limbs() == limbs(0x123a41859549d04c, 0xc3d52a189c60eeeb, 0xba81e2216e9983ef, 0xcc892fb4fb9bfe28)) by (nonlinear_arith);
    lemma_power_step(e7, limbs(0x692f5024817b072, 0x3fa5eb9a85bc437d, 0x861b30e70203fab3, 0xb3c60c10626fb34c), false, limbs(0x123a41859549d04c, 0xc3d52a189c60eeeb, 0xba81e2216e9983ef, 0xcc892fb4fb9bfe28));
    let e8: nat = 2 * e7 + 0;
    assert((limbs(0x123a41859549d04c, 0xc3d52a189c60eeeb, 0xba81e2216e9983ef, 0xcc892fb4fb9bfe28) * limbs(0x123a41859549d04c, 0xc3d52a189c60eeeb, 0xba81e2216e9983ef, 0xcc892fb4fb9bfe28) * 1) % modulus_limbs() == limbs(0x3f47ec1cfd3cb7d, 0xbd4ed0895fd8af58, 0x48b3d7172a1f7ea3, 0x7534b6eb9f8aa9cc)) by (nonlinear_arith);
    lemma_power_step(e8, limbs(0x123a41859549d04c, 0xc3d52a189c60eeeb, 0xba81e2216e9983ef, 0xcc892fb4fb9bfe28), false, limbs(0x3f47ec1cfd3cb7d, 0xbd4ed0895fd8af58, 0x48b3d7172a1f7ea3, 0x7534b6eb9f8aa9cc));
    let e9: nat = 2 * e8 + 0;
    assert((limbs(0x3f47ec1cfd3cb7d, 0xbd4ed0895fd8af58, 0x48b3d7172a1f7ea3, 0x7534b6eb9f8aa9cc) * limbs(0x3f47ec1cfd3cb7d, 0xbd4ed0895fd8af58, 0x48b3d7172a1f7ea3, 0x7534b6eb9f8aa9cc) * 1) % modulus_limbs() == limbs(0x205d04cdcdbcc083, 0x1e1232c8e6f949f1, 0x892b6a2546ff187b, 0x8dbd082d20621e7c)) by (nonlinear_arith);
    lemma_power_step(e9, limbs(0x3f47ec1cfd3cb7d, 0xbd4ed0895fd8af58, 0x48b3d7172a1f7ea3, 0x7534b6eb9f8aa9cc), false, limbs(0x205d04cdcdbcc083, 0x1e1232c8e6f949f1, 0x892b6a2546ff187b, 0x8dbd082d20621e7c));
    let e10: nat = 2 * e9 + 0;
    assert((limbs(0x205d04cdcdbcc083, 0x1e1232c8e6f949f1, 0x892b6a2546ff187b, 0x8dbd082d20621e7c) * limbs(0x205d04cdcdbcc083, 0x1e1232c8e6f949f1, 0x892b6a2546ff187b, 0x8dbd082d20621e7c) * 1) % modulus_limbs() == limbs(0x13ed1d7bebf7a5b2, 0xa92acf5c56d4a2f2, 0x98fe612f7b37b761, 0xd7d6217b34be32ab)) by (nonlinear_arith);
    lemma_power_step(e10, limbs(0x205d04cdcdbcc083, 0x1e1232c8e6f949f1, 0x892b6a2546ff187b, 0x8dbd082d20621e7c), false, limbs(0x13ed1d7bebf7a5b2, 0xa92acf5c56d4a2f2, 0x98fe612f7b37b761, 0xd7d6217b34be32ab));
    let e11: nat = 2 * e10 + 0;
    assert((limbs(0x13ed1d7bebf7a5b2, 0xa92acf5c56d4a2f2, 0x98fe612f7b37b761, 0xd7d6217b34be32ab) * limbs(0x13ed1d7bebf7a5b2, 0xa92acf5c56d4a2f2, 0x98fe612f7b37b761, 0xd7d6217b34be32ab) * 1) % modulus_limbs() == limbs(0xc08d49eabe9ce9, 0xd138d3e55d2f68b6, 0x28432be9e1272202, 0x83fa8760fa921f10)) by (nonlinear_arith);
    lemma_power_step(e11, limbs(0x13ed1d7bebf7a5b2, 0xa92acf5c56d4a2f2, 0x98fe612f7b37b761, 0xd7d6217b34be32ab), false, limbs(0xc08d49eabe9ce9, 0xd138d3e55d2f68b6, 0x28432be9e1272202, 0x83fa8760fa921f10));
    let e12: nat = 2 * e11 + 0;
    assert((limbs(0xc08d49eabe9ce9, 0xd138d3e55d2f68b6, 0x28432be9e1272202, 0x83fa8760fa921f10) * limbs(0xc08d49eabe9ce9, 0xd138d3e55d2f68b6, 0x28432be9e1272202, 0x83fa8760fa921f10) * 1) % modulus_limbs() == limbs(0x18be639a41d7e894, 0x911df3c2c88513cf, 0xedd48c00fddc0c89, 0xa32ee7e589367b1e)) by (nonlinear_arith);
    lemma_power_step(e12, limbs(0xc08d49eabe9ce9, 0xd138d3e55d2f68b6, 0x28432be9e1272202, 0x83fa8760fa921f10), false, limbs(0x18be639a41d7e894, 0x911df3c2c88513cf, 0xedd48c00fddc0c89, 0xa32ee7e589367b1e));
    let e13: nat = 2 * e12 + 0;
    assert((limbs(0x18be639a41d7e894, 0x911df3c2c88513cf, 0xedd48c00fddc0c89, 0xa32ee7e589367b1e) * limbs(0x18be639a41d7e894, 0x911df3c2c88513cf, 0xedd48c00fddc0c89, 0xa32ee7e589367b1e) * 4) % modulus_limbs() == limbs(0x11d18da8b4d9bf4f, 0xdb14156a1624b2c9, 0x389f2d18b4019212, 0xac1f60d87776014a)) by (nonlinear_arith);
    lemma_power_step(e13, limbs(0x18be639a41d7e894, 0x911df3c2c88513cf, 0xedd48c00fddc0c89, 0xa32ee7e589367b1e), true, limbs(0x11d18da8b4d9bf4f, 0xdb14156a1624b2c9, 0x389f2d18b4019212, 0xac1f60d87776014a));
    let e14: nat = 2 * e13 + 1;
    assert((limbs(0x11d18da8b4d9bf4f, 0xdb14156a1624b2c9, 0x389f2d18b4019212, 0xac1f60d87776014a) * limbs(0x11d18da8b4d9bf4f, 0xdb14156a1624b2c9, 0x389f2d18b4019212, 0xac1f60d87776014a) * 1) % modulus_limbs() == limbs(0xc43732e3f495b1, 0xb740aec544cd1df0, 0xd0f7588a11c7c588, 0xad7cac4c417c60a8)) by (nonlinear_arith);
    lemma_power_step(e14, limbs(0x11d18da8b4d9bf4f, 0xdb14156a1624b2c9, 0x389f2d18b4019212, 0xac1f60d87776014a), false, limbs(0xc43732e3f495b1, 0xb740aec544cd1df0, 0xd0f7588a11c7c588, 0xad7cac4c417c60a8));
    let e15: nat = 2 * e14 + 0;
    assert((limbs(0xc43732e3f495b1, 0xb740aec544cd1df0, 0xd0f7588a11c7c588, 0xad7cac4c417c60a8) * limbs(0xc43732e3f495b1, 0xb740aec544cd1df0, 0xd0f7588a11c7c588, 0xad7cac4c417c60a8) * 4) % modulus_limbs() == limbs(0x49fe131a9815ec0, 0xfe21a90a0041ded6, 0x58ef58f031d56839, 0xc6204e5238b34139)) by (nonlinear_arith);
    lemma_power_step(e15, limbs(0xc43732e3f495b1, 0xb740aec544cd1df0, 0xd0f7588a11c7c588, 0xad7cac4c417c60a8), true, limbs(0x49fe131a9815ec0, 0xfe21a90a0041ded6, 0x58ef58f031d56839, 0xc6204e5238b34139));
    let e16: nat = 2 * e15 + 1;
    assert(e16 == limbs(0x0, 0x0, 0xc19139cb84c6, 0x80a6e14116da0605));
}

/// Digits 113 to 128 of the exponent.
proof fn lemma_power_part_8()
    ensures
        pow(4, limbs(0x0, 0x0, 0xc19139cb84c680a6, 0xe14116da06056176) as nat) % modulus_limbs() == limbs(0x2302f37c434d2f93, 0xf9ee4cde0395ca94, 0xb4f054185aa8e7c3, 0xbb94de29b18a8f44),
{
    lemma_power_part_7();
    let e0: nat = limbs(0x0, 0x0, 0xc19139cb84c6, 0x80a6e14116da0605) as nat;
    assert((limbs(0x49fe131a9815ec0, 0xfe21a90a0041ded6, 0x58ef58f031d56839, 0xc6204e5238b34139) * limbs(0x49fe131a9815ec0, 0xfe21a90a0041ded6, 0x58ef58f031d56839, 0xc6204e5238b34139) * 1) % modulus_limbs() == limbs(0x649b970a0530d10, 0xcff9eee660678daa, 0x75c9b048c622b519, 0x3b1b957c1593a5ce)) by (nonlinear_arith);
    lemma_power_step(e0, limbs(0x49fe131a9815ec0, 0xfe21a90a0041ded6, 0x58ef58f031d56839, 0xc6204e5238b34139), false, limbs(0x649b970a0530d10, 0xcff9eee660678daa, 0x75c9b048c622b519, 0x3b1b957c1593a5ce));
    let e1: nat = 2 * e0 + 0;
    assert((limbs(0x649b970a0530d10, 0xcff9eee660678daa, 0x75c9b048c622b519, 0x3b1b957c1593a5ce) * limbs(0x649b970a0530d10, 0xcff9eee660678daa, 0x75c9b048c622b519, 0x3b1b957c1593a5ce) * 4) % modulus_limbs() == limbs(0x2aefa275fe1a270, 0x6aedf88925c1cc16, 0xba054bb20302e902, 0xdfdc1c8cb37aecf8)) by (nonlinear_arith);
    lemma_power_step(e1, limbs(0x649b970a0530d10, 0xcff9eee660678daa, 0x75c9b048c622b519, 0x3b1b957c1593a5ce), true, limbs(0x2aefa275fe1a270, 0x6aedf88925c1cc16, 0xba054bb20302e902, 0xdfdc1c8cb37aecf8));
    let e2: nat = 2 * e1 + 1;
    assert((limbs(0x2aefa275fe1a270, 0x6aedf88925c1cc16, 0xba054bb20302e902, 0xdfdc1c8cb37aecf8) * limbs(0x2aefa275fe1a270, 0x6aedf88925c1cc16, 0xba054bb20302e902, 0xdfdc1c8cb37aecf8) * 4) % modulus_limbs() == limbs(0x12561bb2620f1421, 0xd4c99ceca8d66786, 0x96777c6684a99d58, 0xb44b6a7cd32610aa)) by (nonlinear_arith);
    lemma_power_step(e2, limbs(0x2aefa275fe1a270, 0x6aedf88925c1cc16, 0xba054bb20302e902, 0xdfdc1c8cb37aecf8), true, limbs(0x12561bb2620f1421, 0xd4c99ceca8d66786, 0x96777c6684a99d58, 0xb44b6a7cd32610aa));
    let e3: nat = 2 * e2 + 1;
    assert((limbs(0x12561bb2620f1421, 0xd4c99ceca8d66786, 0x96777c6684a99d58, 0xb44b6a7cd32610aa) * limbs(0x12561bb2620f1421, 0xd4c99ceca8d66786, 0x96777c6684a99d58, 0xb44b6a7cd32610aa) * 1) % modulus_limbs() == limbs(0x244f3afe4aba993a, 0x230c4e7183b8c41, 0xa951097eb9b29867, 0x9b8ecf443fe39763)) by (nonlinear_arith);
    lemma_power_step(e3, limbs(0x12561bb2620f1421, 0xd4c99ceca8d66786, 0x96777c6684a99d58, 0xb44b6a7cd32610aa), false, limbs(0x244f3afe4aba993a, 0x230c4e7183b8c41, 0xa951097eb9b29867, 0x9b8ecf443fe39763));
    let e4: nat = 2 * e3 + 0;
    assert((limbs(0x244f3afe4aba993a, 0x230c4e7183b8c41, 0xa951097eb9b29867, 0x9b8ecf443fe39763) * limbs(0x244f3afe4aba993a, 0x230c4e7183b8c41, 0xa951097eb9b29867, 0x9b8ecf443fe39763) * 1) % modulus_limbs() == limbs(0x242112e5239d7a3b, 0x4358e9c89c471a86, 0x9c744e99eb97cc62, 0xfc16bef2975d3342)) by (nonlinear_arith);
    lemma_power_step(e4, limbs(0x244f3afe4aba993a, 0x230c4e7183b8c41, 0xa951097eb9b29867, 0x9b8ecf443fe39763), false, limbs(0x242112e5239d7a3b, 0x4358e9c89c471a86, 0x9c744e99eb97cc62, 0xfc16bef2975d3342));
    let e5: nat = 2 * e4 + 0;
    assert((limbs(0x242112e5239d7a3b, 0x4358e9c89c471a86, 0x9c744e99eb97cc62, 0xfc16bef2975d3342) * limbs(0x242112e5239d7a3b, 0x4358e9c89c471a86, 0x9c744e99eb97cc62, 0xfc16bef2975d3342) * 1) % modulus_limbs() == limbs(0x163f5c82ef07d50d, 0x6479403196b4ff67, 0x66ca71e28d58df9, 0x18e78b3dcb6ef485)) by (nonlinear_arith);
    lemma_power_step(e5, limbs(0x242112e5239d7a3b, 0x4358e9c89c471a86, 0x9c744e99eb97cc62, 0xfc16bef2975d3342), false, limbs(0x163f5c82ef07d50d, 0x6479403196b4ff67, 0x66ca71e28d58df9, 0x18e78b3dcb6ef485));
    let e6: nat = 2 * e5 + 0;
    assert((limbs(0x163f5c82ef07d50d, 0x6479403196b4ff67, 0x66ca71e28d58df9, 0x18e78b3dcb6ef485) * limbs(0x163f5c82ef07d50d, 0x6479403196b4ff67, 0x66ca71e28d58df9, 0x18e78b3dcb6ef485) * 1) % modulus_limbs() == limbs(0xb5c3eb6e44ee3ab, 0x38e7f8c93630ecb6, 0x3a6531a4921874c0, 0x87f19a5bddff9ee2)) by (nonlinear_arith);
    lemma_power_step(e6, limbs(0x163f5c82ef07d50d, 0x6479403196b4ff67, 0x66ca71e28d58df9, 0x18e78b3dcb6ef485), false, limbs(0xb5c3eb6e44ee3ab, 0x38e7f8c93630ecb6, 0x3a6531a4921874c0, 0x87f19a5bddff9ee2));
    let e7: nat = 2 * e6 + 0;
    assert((limbs(0xb5c3eb6e44ee3ab, 0x38e7f8c93630ecb6, 0x3a6531a4921874c0, 0x87f19a5bddff9ee2) * limbs(0xb5c3eb6e44ee3ab, 0x38e7f8c93630ecb6, 0x3a6531a4921874c0, 0x87f19a5bddff9ee2) * 4) % modulus_limbs() == limbs(0x268b8eb8c115f46, 0xe7380d1bd23942d9, 0x995c30b4566a4980, 0xe9b9d46862323e58)) by (nonlinear_arith);
    lemma_power_step(e7, limbs(0xb5c3eb6e44ee3ab, 0x38e7f8c93630ecb6, 0x3a6531a4921874c0, 0x87f19a5bddff9ee2), true, limbs(0x268b8eb8c115f46, 0xe7380d1bd23942d9, 0x995c30b4566a4980, 0xe9b9d46862323e58));
    let e8: nat = 2 * e7 + 1;
    assert((limbs(0x268b8eb8c115f46, 0xe7380d1bd23942d9, 0x995c30b4566a4980, 0xe9b9d46862323e58) * limbs(0x268b8eb8c115f46, 0xe7380d1bd23942d9, 0x995c30b4566a4980, 0xe9b9d46862323e58) * 1) % modulus_limbs() == limbs(0x17d37276cd64ee74, 0xd29b992569632e47, 0x84ba375f098ada9a, 0xe624f04419346d23)) by (nonlinear_arith);
    lemma_power_step(e8, limbs(0x268b8eb8c115f46, 0xe7380d1bd23942d9, 0x995c30b4566a4980, 0xe9b9d46862323e58), false, limbs(0x17d37276cd64ee74, 0xd29b992569632e47, 0x84ba375f098ada9a, 0xe624f04419346d23));
    let e9: nat = 2 * e8 + 0;
    assert((limbs(0x17d37276cd64ee74, 0xd29b992569632e47, 0x84ba375f098ada9a, 0xe624f04419346d23) * limbs(0x17d37276cd64ee74, 0xd29b992569632e47, 0x84ba375f098ada9a, 0xe624f04419346d23) * 4) % modulus_limbs() == limbs(0x247bf5dc0be63e3e, 0x20a5b19afdc28e9e, 0xac56f8a6790d155c, 0x33a1d748589e12f8)) by (nonlinear_arith);
    lemma_power_step(e9, limbs(0x17d37276cd64ee74, 0xd29b992569632e47, 0x84ba375f098ada9a, 0xe624f04419346d23), true, limbs(0x247bf5dc0be63e3e, 0x20a5b19afdc28e9e, 0xac56f8a6790d155c, 0x33a1d748589e12f8));
    let e10: nat = 2 * e9 + 1;
    assert((limbs(0x247bf5dc0be63e3e, 0x20a5b19afdc28e9e, 0xac56f8a6790d155c, 0x33a1d748589e12f8) * limbs(0x247bf5dc0be63e3e, 0x20a5b19afdc28e9e, 0xac56f8a6790d155c, 0x33a1d748589e12f8) * 4) % modulus_limbs() == limbs(0x94c40e804bd4794, 0xa1c406205852b44e, 0xefefd49d751ecfe1, 0xc4e5208a2e8d7228)) by (nonlinear_arith);
    lemma_power_step(e10, limbs(0x247bf5dc0be63e3e, 0x20a5b19afdc28e9e, 0xac56f8a6790d155c, 0x33a1d748589e12f8), true, limbs(0x94c40e804bd4794, 0xa1c406205852b44e, 0xefefd49d751ecfe1, 0xc4e5208a2e8d7228));
    let e11: nat = 2 * e10 + 1;
    assert((limbs(0x94c40e804bd4794, 0xa1c406205852b44e, 0xefefd49d751ecfe1, 0xc4e5208a2e8d7228) * limbs(0x94c40e804bd4794, 0xa1c406205852b44e, 0xefefd49d751ecfe1, 0xc4e5208a2e8d7228) * 4) % modulus_limbs() == limbs(0x28abde0e552974b, 0x7a66b84259eb8665, 0xc4f1aa37c444d956, 0x86cbc6c8673f6296)) by (nonlinear_arith);
    lemma_power_step(e11, limbs(0x94c40e804bd4794, 0xa1c406205852b44e, 0xefefd49d751ecfe1, 0xc4e5208a2e8d7228), true, limbs(0x28abde0e552974b, 0x7a66b84259eb8665, 0xc4f1aa37c444d956, 0x86cbc6c8673f6296));
    let e12: nat = 2 * e11 + 1;
    assert((limbs(0x28abde0e552974b, 0x7a66b84259eb8665, 0xc4f1aa37c444d956, 0x86cbc6c8673f6296) * limbs(0x28abde0e552974b, 0x7a66b84259eb8665, 0xc4f1aa37c444d956, 0x86cbc6c8673f6296) * 1) % modulus_limbs() == limbs(0x293c3cf71b594bc, 0xc1f510ac480ce12b, 0x8905710fe7d46bb0, 0x74cfa12e2c6b8200)) by (nonlinear_arith);
    lemma_power_step(e12, limbs(0x28abde0e552974b, 0x7a66b84259eb8665, 0xc4f1aa37c444d956, 0x86cbc6c8673f6296), false, limbs(0x293c3cf71b594bc, 0xc1f510ac480ce12b, 0x8905710fe7d46bb0, 0x74cfa12e2c6b8200));
    let e13: nat = 2 * e12 + 0;
    assert((limbs(0x293c3cf71b594bc, 0xc1f510ac480ce12b, 0x8905710fe7d46bb0, 0x74cfa12e2c6b8200) * limbs(0x293c3cf71b594bc, 0xc1f510ac480ce12b, 0x8905710fe7d46bb0, 0x74cfa12e2c6b8200) * 4) % modulus_limbs() == limbs(0x18004db6478d0bf5, 0x55d24610d943274a, 0x80df34a0cc8a812e, 0x66e179552658e4ab)) by (nonlinear_arith);
    lemma_power_step(e13, limbs(0x293c3cf71b594bc, 0xc1f510ac480ce12b, 0x8905710fe7d46bb0, 0x74cfa12e2c6b8200), true, limbs(0x18004db6478d0bf5, 0x55d24610d943274a, 0x80df34a0cc8a812e, 0x66e179552658e4ab));
    let e14: nat = 2 * e13 + 1;
    assert((limbs(0x18004db6478d0bf5, 0x55d24610d943274a, 0x80df34a0cc8a812e, 0x66e179552658e4ab) * limbs(0x18004db6478d0bf5, 0x55d24610d943274a, 0x80df34a0cc8a812e, 0x66e179552658e4ab) * 4) % modulus_limbs() == limbs(0x18cc14ef5a7a19ad, 0x4ac8e3a0aa3dafc8, 0xaf52464269b8fab0, 0xa090cb4491b15848)) by (nonlinear_arith);
    lemma_power_step(e14, limbs(0x18004db6478d0bf5, 0x55d24610d943274a, 0x80df34a0cc8a812e, 0x66e179552658e4ab), true, limbs(0x18cc14ef5a7a19ad, 0x4ac8e3a0aa3dafc8, 0xaf52464269b8fab0, 0xa090cb4491b15848));
    let e15: nat = 2 * e14 + 1;
    assert((limbs(0x18cc14ef5a7a19ad, 0x4ac8e3a0aa3dafc8, 0xaf52464269b8fab0, 0xa090cb4491b15848) * limbs(0x18cc14ef5a7a19ad, 0x4ac8e3a0aa3dafc8, 0xaf52464269b8fab0, 0xa090cb4491b15848) * 1) % modulus_limbs() == limbs(0x2302f37c434d2f93, 0xf9ee4cde0395ca94, 0xb4f054185aa8e7c3, 0xbb94de29b18a8f44)) by (nonlinear_arith);
    lemma_power_step(e15, limbs(0x18cc14ef5a7a19ad, 0x4ac8e3a0aa3dafc8, 0xaf52464269b8fab0, 0xa090cb4491b15848), false, limbs(0x2302f37c434d2f93, 0xf9ee4cde0395ca94, 0xb4f054185aa8e7c3, 0xbb94de29b18a8f44));
    let e16: nat = 2 * e15 + 0;
    assert(e16 == limbs(0x0, 0x0, 0xc19139cb84c680a6, 0xe14116da06056176));
}

/// Digits 129 to 144 of the exponent.
proof fn lemma_power_part_9()
    ensures
        pow(4, limbs(0x0, 0xc191, 0x39cb84c680a6e141, 0x16da060561765e05) as nat) % modulus_limbs() == limbs(0x122081b3692e8952, 0x7b933bb70e9bb678, 0xd43e9e760b927bd6, 0xeaa2fbc94f334b91),
{
    lemma_power_part_8();
    let e0: nat = limbs(0x0, 0x0, 0xc19139cb84c680a6, 0xe14116da06056176) as nat;
    assert((limbs(0x2302f37c434d2f93, 0xf9ee4cde0395ca94, 0xb4f054185aa8e7c3, 0xbb94de29b18a8f44) * limbs(0x2302f37c434d2f93, 0xf9ee4cde0395ca94, 0xb4f054185aa8e7c3, 0xbb94de29b18a8f44) * 1) % modulus_limbs() == limbs(0x48f4a42baff570, 0x9937f48a825c03bf, 0xc879f815c6d555c6, 0x11b52c8ca842e01a)) by (nonlinear_arith);
    lemma_power_step(e0, limbs(0x2302f37c434d2f93, 0xf9ee4cde0395ca94, 0xb4f054185aa8e7c3, 0xbb94de29b18a8f44), false, limbs(0x48f4a42baff570, 0x9937f48a825c03bf, 0xc879f815c6d555c6, 0x11b52c8ca842e01a));
    let e1: nat = 2 * e0 + 0;
    assert((limbs(0x48f4a42baff570, 0x9937f48a825c03bf, 0xc879f815c6d555c6, 0x11b52c8ca842e01a) * limbs(0x48f4a42baff570, 0x9937f48a825c03bf, 0xc879f815c6d555c6, 0x11b52c8ca842e01a) * 4) % modulus_limbs() == limbs(0x1f10cbf36c32144b, 0x7c8f7e133bcd6bd2, 0x9a555a29bacb0efe, 0xd4d924e6c14a1f5c)) by (nonlinear_arith);
    lemma_power_step(e1, limbs(0x48f4a42baff570, 0x9937f48a825c03bf, 0xc879f815c6d555c6, 0x11b52c8ca842e01a), true, limbs(0x1f10cbf36c32144b, 0x7c8f7e133bcd6bd2, 0x9a555a29bacb0efe, 0xd4d924e6c14a1f5c));
    let e2: nat = 2 * e1 + 1;
    assert((limbs(0x1f10cbf36c32144b, 0x7c8f7e133bcd6bd2, 0x9a555a29bacb0efe, 0xd4d924e6c14a1f5c) * limbs(0x1f10cbf36c32144b, 0x7c8f7e133bcd6bd2, 0x9a555a29bacb0efe, 0xd4d924e6c14a1f5c) * 1) % modulus_limbs() == limbs(0x243f8913ef13f9e0, 0xa1181a48c282e61d, 0x6c6ac6bfbdd74992, 0x57487a4a772619af)) by (nonlinear_arith);
    lemma_power_step(e2, limbs(0x1f10cbf36c32144b, 0x7c8f7e133bcd6bd2, 0x9a555a29bacb0efe, 0xd4d924e6c14a1f5c), false, limbs(0x243f8913ef13f9e0, 0xa1181a48c282e61d, 0x6c6ac6bfbdd74992, 0x57487a4a772619af));
    let e3: nat = 2 * e2 + 0;
    assert((limbs(0x243f8913ef13f9e0, 0xa1181a48c282e61d, 0x6c6ac6bfbdd74992, 0x57487a4a772619af) * limbs(0x243f8913ef13f9e0, 0xa1181a48c282e61d, 0x6c6ac6bfbdd74992, 0x57487a4a772619af) * 4) % modulus_limbs() == limbs(0x1fadb011b5830f63, 0x7df8c1c66417d73c, 0xd5b5bc567d52c0c7, 0x966b344e1ce8bf4)) by (nonlinear_arith);
    lemma_power_step(e3, limbs(0x243f8913ef13f9e0, 0xa1181a48c282e61d, 0x6c6ac6bfbdd74992, 0x57487a4a772619af), true, limbs(0x1fadb011b5830f63, 0x7df8c1c66417d73c, 0xd5b5bc567d52c0c7, 0x966b344e1ce8bf4));
    let e4: nat = 2 * e3 + 1;
    assert((limbs(0x1fadb011b5830f63, 0x7df8c1c66417d73c, 0xd5b5bc567d52c0c7, 0x966b344e1ce8bf4) * limbs(0x1fadb011b5830f63, 0x7df8c1c66417d73c, 0xd5b5bc567d52c0c7, 0x966b344e1ce8bf4) * 4) % modulus_limbs() == limbs(0x25e4d61cf451b9fb, 0xd534be8b577b626a, 0xc56b0bdf714d6584, 0xfe5917e3a4756c7)) by (nonlinear_arith);
    lemma_power_step(e4, limbs(0x1fadb011b5830f63, 0x7df8c1c66417d73c, 0xd5b5bc567d52c0c7, 0x966b344e1ce8bf4), true, limbs(0x25e4d61cf451b9fb, 0xd534be8b577b626a, 0xc56b0bdf714d6584, 0xfe5917e3a4756c7));
    let e5: nat = 2 * e4 + 1;
    assert((limbs(0x25e4d61cf451b9fb, 0xd534be8b577b626a, 0xc56b0bdf714d6584, 0xfe5917e3a4756c7) * limbs(0x25e4d61cf451b9fb, 0xd534be8b577b626a, 0xc56b0bdf714d6584, 0xfe5917e3a4756c7) * 4) % modulus_limbs() == limbs(0x30eae09800d217e, 0x6012d7b7f9b51588, 0xb9db992b2e9e414f, 0x26513848e75407e5)) by (nonlinear_arith);
    lemma_power_step(e5, limbs(0x25e4d61cf451b9fb, 0xd534be8b577b626a, 0xc56b0bdf714d6584, 0xfe5917e3a4756c7), true, limbs(0x30eae09800d217e, 0x6012d7b7f9b51588, 0xb9db992b2e9e414f, 0x26513848e75407e5));
    let e6: nat = 2 * e5 + 1;
    assert((limbs(0x30eae09800d217e, 0x6012d7b7f9b51588, 0xb9db992b2e9e414f, 0x26513848e75407e5) * limbs(0x30eae09800d217e, 0x6012d7b7f9b51588, 0xb9db992b2e9e414f, 0x26513848e75407e5) * 4) % modulus_limbs() == limbs(0x13e3904c3b139deb, 0x7294ab157dbf4b9a, 0x92de4bcd9c757ee5, 0x401f782e65ee5f6)) by (nonlinear_arith);
    lemma_power_step(e6, limbs(0x30eae09800d217e, 0x6012d7b7f9b51588, 0xb9db992b2e9e414f, 0x26513848e75407e5), true, limbs(0x13e3904c3b139deb, 0x7294ab157dbf4b9a, 0x92de4bcd9c757ee5, 0x401f782e65ee5f6));
    let e7: nat = 2 * e6 + 1;
    assert((limbs(0x13e3904c3b139deb, 0x7294ab157dbf4b9a, 0x92de4bcd9c757ee5, 0x401f782e65ee5f6) * limbs(0x13e3904c3b139deb, 0x7294ab157dbf4b9a, 0x92de4bcd9c757ee5, 0x401f782e65ee5f6) * 1) % modulus_limbs() == limbs(0x8e4205644e2356b, 0x82de8176554c2759, 0xbebd23d26dd23af3, 0xf6905654cbdcaeb3)) by (nonlinear_arith);
    lemma_power_step(e7, limbs(0x13e3904c3b139deb, 0x7294ab157dbf4b9a, 0x92de4bcd9c757ee5, 0x401f782e65ee5f6), false, limbs(0x8e4205644e2356b, 0x82de8176554c2759, 0xbebd23d26dd23af3, 0xf6905654cbdcaeb3));
    let e8: nat = 2 * e7 + 0;
    assert((limbs(0x8e4205644e2356b, 0x82de8176554c2759, 0xbebd23d26dd23af3, 0xf6905654cbdcaeb3) * limbs(0x8e4205644e2356b, 0x82de8176554c2759, 0xbebd23d26dd23af3, 0xf6905654cbdcaeb3) * 1) % modulus_limbs() == limbs(0x166bdbf60a656e80, 0x7d8c643fd15fc821, 0xc5eb83437bda813d, 0x2f0392714036406a)) by (nonlinear_arith);
    lemma_power_step(e8, limbs(0x8e4205644e2356b, 0x82de8176554c2759, 0xbebd23d26dd23af3, 0xf6905654cbdcaeb3), false, limbs(0x166bdbf60a656e80, 0x7d8c643fd15fc821, 0xc5eb83437bda813d, 0x2f0392714036406a));
    let e9: nat = 2 * e8 + 0;
    assert((limbs(0x166bdbf60a656e80, 0x7d8c643fd15fc821, 0xc5eb83437bda813d, 0x2f0392714036406a) * limbs(0x166bdbf60a656e80, 0x7d8c643fd15fc821, 0xc5eb83437bda813d, 0x2f0392714036406a) * 1) % modulus_limbs() == limbs(0x77ff8da1e12cce4, 0xb5aaa5b8f7606f55, 0x33932a681ac49805, 0x16948930f86aa321)) by (nonlinear_arith);
    lemma_power_step(e9, limbs(0x166bdbf60a656e80, 0x7d8c643fd15fc821, 0xc5eb83437bda813d, 0x2f0392714036406a), false, limbs(0x77ff8da1e12cce4, 0xb5aaa5b8f7606f55, 0x33932a681ac49805, 0x16948930f86aa321));
    let e10: nat = 2 * e9 + 0;
    assert((limbs(0x77ff8da1e12cce4, 0xb5aaa5b8f7606f55, 0x33932a681ac49805, 0x16948930f86aa321) * limbs(0x77ff8da1e12cce4, 0xb5aaa5b8f7606f55, 0x33932a681ac49805, 0x16948930f86aa321) * 1) % modulus_limbs() == limbs(0x1ba1ba78a31dfb64, 0x2004dd51aaae4f28, 0x3cc84963383a069e, 0x54bb07012442965d)) by (nonlinear_arith);
    lemma_power_step(e10, limbs(0x77ff8da1e12cce4, 0xb5aaa5b8f7606f55, 0x33932a681ac49805, 0x16948930f86aa321), false, limbs(0x1ba1ba78a31dfb64, 0x2004dd51aaae4f28, 0x3cc84963383a069e, 0x54bb07012442965d));
    let e11: nat = 2 * e10 + 0;
    assert((limbs(0x1ba1ba78a31dfb64, 0x2004dd51aaae4f28, 0x3cc84963383a069e, 0x54bb07012442965d) * limbs(0x1ba1ba78a31dfb64, 0x2004dd51aaae4f28, 0x3cc84963383a069e, 0x54bb07012442965d) * 1) % modulus_limbs() == limbs(0xec47d8ac1d256d1, 0xe1172f301f34c069, 0x42bbbc18bafbb4b, 0x1f3224b34e241375)) by (nonlinear_arith);
    lemma_power_step(e11, limbs(0x1ba1ba78a31dfb64, 0x2004dd51aaae4f28, 0x3cc84963383a069e, 0x54bb07012442965d), false, limbs(0xec47d8ac1d256d1, 0xe1172f301f34c069, 0x42bbbc18bafbb4b, 0x1f3224b34e241375));
    let e12: nat = 2 * e11 + 0;
    assert((limbs(0xec47d8ac1d256d1, 0xe1172f301f34c069, 0x42bbbc18bafbb4b, 0x1f3224b34e241375) * limbs(0xec47d8ac1d256d1, 0xe1172f301f34c069, 0x42bbbc18bafbb4b, 0x1f3224b34e241375) * 1) % modulus_limbs() == limbs(0x1305f89cc162d81c, 0x5533c935f953f9fb, 0x1353c5d179d7665c, 0xcaf3b534a75a6448)) by (nonlinear_arith);
    lemma_power_step(e12, limbs(0xec47d8ac1d256d1, 0xe1172f301f34c069, 0x42bbbc18bafbb4b, 0x1f3224b34e241375), false, limbs(0x1305f89cc162d81c, 0x5533c935f953f9fb, 0x1353c5d179d7665c, 0xcaf3b534a75a6448));
    let e13: nat = 2 * e12 + 0;
    assert((limbs(0x1305f89cc162d81c, 0x5533c935f953f9fb, 0x1353c5d179d7665c, 0xcaf3b534a75a6448) * limbs(0x1305f89cc162d81c, 0x5533c935f953f9fb, 0x1353c5d179d7665c, 0xcaf3b534a75a6448) * 4) % modulus_limbs() == limbs(0x4966b5dd68e7dcc, 0xecddbb4aeb6aa275, 0x1db90617467c0522, 0x3e43c5a0965879eb)) by (nonlinear_arith);
    lemma_power_step(e13, limbs(0x1305f89cc162d81c, 0x5533c935f953f9fb, 0x1353c5d179d7665c, 0xcaf3b534a75a6448), true, limbs(0x4966b5dd68e7dcc, 0xecddbb4aeb6aa275, 0x1db90617467c0522, 0x3e43c5a0965879eb));
    let e14: nat = 2 * e13 + 1;
    assert((limbs(0x4966b5dd68e7dcc, 0xecddbb4aeb6aa275, 0x1db90617467c0522, 0x3e43c5a0965879eb) * limbs(0x4966b5dd68e7dcc, 0xecddbb4aeb6aa275, 0x1db90617467c0522, 0x3e43c5a0965879eb) * 1) % modulus_limbs() == limbs(0x6bdd67936d8cc9b, 0xf99d6087faa5c4b5, 0xc087a3df369dd975, 0x9758dbf891d614a)) by (nonlinear_arith);
    lemma_power_step(e14, limbs(0x4966b5dd68e7dcc, 0xecddbb4aeb6aa275, 0x1db90617467c0522, 0x3e43c5a0965879eb), false, limbs(0x6bdd67936d8cc9b, 0xf99d6087faa5c4b5, 0xc087a3df369dd975, 0x9758dbf891d614a));
    let e15: nat = 2 * e14 + 0;
    assert((limbs(0x6bdd67936d8cc9b, 0xf99d6087faa5c4b5, 0xc087a3df369dd975, 0x9758dbf891d614a) * limbs(0x6bdd67936d8cc9b, 0xf99d6087faa5c4b5, 0xc087a3df369dd975, 0x9758dbf891d614a) * 4) % modulus_limbs() == limbs(0x122081b3692e8952, 0x7b933bb70e9bb678, 0xd43e9e760b927bd6, 0xeaa2fbc94f334b91)) by (nonlinear_arith);
    lemma_power_step(e15, limbs(0x6bdd67936d8cc9b, 0xf99d6087faa5c4b5, 0xc087a3df369dd975, 0x9758dbf891d614a), true, limbs(0x122081b3692e8952, 0x7b933bb70e9bb678, 0xd43e9e760b927bd6, 0xeaa2fbc94f334b91));
    let e16: nat = 2 * e15 + 1;
    assert(e16 == limbs(0x0, 0xc191, 0x39cb84c680a6e141, 0x16da060561765e05));
}

/// Digits 145 to 160 of the exponent.
proof fn lemma_power_part_10()
    ensures
        pow(4, limbs(0x0, 0xc19139cb, 0x84c680a6e14116da, 0x60561765e05aa45) as nat) % modulus_limbs() == limbs(0x29093cf8bf1d84a, 0x5362554ecf86ba64, 0x92b6e6b13ced00b7, 0x476d43ba2842444a),
{
    lemma_power_part_9();
    let e0: nat = limbs(0x0, 0xc191, 0x39cb84c680a6e141, 0x16da060561765e05) as nat;
    assert((limbs(0x122081b3692e8952, 0x7b933bb70e9bb678, 0xd43e9e760b927bd6, 0xeaa2fbc94f334b91) * limbs(0x122081b3692e8952, 0x7b933bb70e9bb678, 0xd43e9e760b927bd6, 0xeaa2fbc94f334b91) * 4) % modulus_limbs() == limbs(0x15db9cfbc522a878, 0xac9ea0e80821d1b4, 0x96b41bb69a97e72, 0x423c94915de60cbe)) by (nonlinear_arith);
    lemma_power_step(e0, limbs(0x122081b3692e8952, 0x7b933bb70e9bb678, 0xd43e9e760b927bd6, 0xeaa2fbc94f334b91), true, limbs(0x15db9cfbc522a878, 0xac9ea0e80821d1b4, 0x96b41bb69a97e72, 0x423c94915de60cbe));
    let e1: nat = 2 * e0 + 1;
    assert((limbs(0x15db9cfbc522a878, 0xac9ea0e80821d1b4, 0x96b41bb69a97e72, 0x423c94915de60cbe) * limbs(0x15db9cfbc522a878, 0xac9ea0e80821d1b4, 0x96b41bb69a97e72, 0x423c94915de60cbe) * 1) % modulus_limbs() == limbs(0x2297c0c020f0d655, 0x34eb9f0d47c8ccde, 0xa331b4ca396ed4a8, 0x7bd88e9a139e5454)) by (nonlinear_arith);
    lemma_power_step(e1, limbs(0x15db9cfbc522a878, 0xac9ea0e80821d1b4, 0x96b41bb69a97e72, 0x423c94915de60cbe), false, limbs(0x2297c0c020f0d655, 0x34eb9f0d47c8ccde, 0xa331b4ca396ed4a8, 0x7bd88e9a139e5454));
    let e2: nat = 2 * e1 + 0;
    assert((limbs(0x2297c0c020f0d655, 0x34eb9f0d47c8ccde, 0xa331b4ca396ed4a8, 0x7bd88e9a139e5454) * limbs(0x2297c0c020f0d655, 0x34eb9f0d47c8ccde, 0xa331b4ca396ed4a8, 0x7bd88e9a139e5454) * 4) % modulus_limbs() == limbs(0x1343e487170b33d, 0x25a6892aac466355, 0x60ad44582ab0240b, 0xa95eba19e9bc0be3)) by (nonlinear_arith);
    lemma_power_step(e2, limbs(0x2297c0c020f0d655, 0x34eb9f0d47c8ccde, 0xa331b4ca396ed4a8, 0x7bd88e9a139e5454), true, limbs(0x1343e487170b33d, 0x25a6892aac466355, 0x60ad44582ab0240b, 0xa95eba19e9bc0be3));
    let e3: nat = 2 * e2 + 1;
    assert((limbs(0x1343e487170b33d, 0x25a6892aac466355, 0x60ad44582ab0240b, 0xa95eba19e9bc0be3) * limbs(0x1343e487170b33d, 0x25a6892aac466355, 0x60ad44582ab0240b, 0xa95eba19e9bc0be3) * 1) % modulus_limbs() == limbs(0x1a0163ff439d386d, 0x67962271760c33ba, 0x7899dc7ae831b5b7, 0xd738f63c13b114c)) by (nonlinear_arith);
    lemma_power_step(e3, limbs(0x1343e487170b33d, 0x25a6892aac466355, 0x60ad44582ab0240b, 0xa95eba19e9bc0be3), false, limbs(0x1a0163ff439d386d, 0x67962271760c33ba, 0x7899dc7ae831b5b7, 0xd738f63c13b114c));
    let e4: nat = 2 * e3 + 0;
    assert((limbs(0x1a0163ff439d386d, 0x67962271760c33ba, 0x7899dc7ae831b5b7, 0xd738f63c13b114c) * limbs(0x1a0163ff439d386d, 0x67962271760c33ba, 0x7899dc7ae831b5b7, 0xd738f63c13b114c) * 4) % modulus_limbs() == limbs(0x1196ebe6ed7a5995, 0x8d5500b3e23eb383, 0xca9bb9a445409257, 0x71044d04a8b8335)) by (nonlinear_arith);
    lemma_power_step(e4, limbs(0x1a0163ff439d386d, 0x67962271760c33ba, 0x7899dc7ae831b5b7, 0xd738f63c13b114c), true, limbs(0x1196ebe6ed7a5995, 0x8d5500b3e23eb383, 0xca9bb9a445409257, 0x71044d04a8b8335));
    let e5: nat = 2 * e4 + 1;
    assert((limbs(0x1196ebe6ed7a5995, 0x8d5500b3e23eb383, 0xca9bb9a445409257, 0x71044d04a8b8335) * limbs(0x1196ebe6ed7a5995, 0x8d5500b3e23eb383, 0xca9bb9a445409257, 0x71044d04a8b8335) * 1) % modulus_limbs() == limbs(0x301777e4f6caf0ba, 0x6c481953f400a695, 0x9b2dc7c7bef99cdc, 0xa1ed21c830df7dd0)) by (nonlinear_arith);
    lemma_power_step(e5, limbs(0x1196ebe6ed7a5995, 0x8d5500b3e23eb383, 0xca9bb9a445409257, 0x71044d04a8b8335), false, limbs(0x301777e4f6caf0ba, 0x6c481953f400a695, 0x9b2dc7c7bef99cdc, 0xa1ed21c830df7dd0));
    let e6: nat = 2 * e5 + 0;
    assert((limbs(0x301777e4f6caf0ba, 0x6c481953f400a695, 0x9b2dc7c7bef99cdc, 0xa1ed21c830df7dd0) * limbs(0x301777e4f6caf0ba, 0x6c481953f400a695, 0x9b2dc7c7bef99cdc, 0xa1ed21c830df7dd0) * 4) % modulus_limbs() == limbs(0x60c4a09ae9bc5f3, 0xfeda8c4fce660786, 0x470d568ed54cf92d, 0x1fd0fd706972378)) by (nonlinear_arith);
    lemma_power_step(e6, limbs(0x301777e4f6caf0ba, 0x6c481953f400a695, 0x9b2dc7c7bef99cdc, 0xa1ed21c830df7dd0), true, limbs(0x60c4a09ae9bc5f3, 0xfeda8c4fce660786, 0x470d568ed54cf92d, 0x1fd0fd706972378));
    let e7: nat = 2 * e6 + 1;
    assert((limbs(0x60c4a09ae9bc5f3, 0xfeda8c4fce660786, 0x470d568ed54cf92d, 0x1fd0fd706972378) * limbs(0x60c4a09ae9bc5f3, 0xfeda8c4fce660786, 0x470d568ed54cf92d, 0x1fd0fd706972378) * 1) % modulus_limbs() == limbs(0x758eeb17866788f, 0xcd190632e289861b, 0xa421ee42319a08e3, 0xf7979a5b4ab9ff20)) by (nonlinear_arith);
    lemma_power_step(e7, limbs(0x60c4a09ae9bc5f3, 0xfeda8c4fce660786, 0x470d568ed54cf92d, 0x1fd0fd706972378), false, limbs(0x758eeb17866788f, 0xcd190632e289861b, 0xa421ee42319a08e3, 0xf7979a5b4ab9ff20));
    let e8: nat = 2 * e7 + 0;
    assert((limbs(0x758eeb17866788f, 0xcd190632e289861b, 0xa421ee42319a08e3, 0xf7979a5b4ab9ff20) * limbs(0x758eeb17866788f, 0xcd190632e289861b, 0xa421ee42319a08e3, 0xf7979a5b4ab9ff20) * 1) % modulus_limbs() == limbs(0x264983dfb5762cd6, 0x770fa3dedcda3f4, 0x508b6759f98c85d4, 0x818d4bd31434b935)) by (nonlinear_arith);
    lemma_power_step(e8, limbs(0x758eeb17866788f, 0xcd190632e289861b, 0xa421ee42319a08e3, 0xf7979a5b4ab9ff20), false, limbs(0x264983dfb5762cd6, 0x770fa3dedcda3f4, 0x508b6759f98c85d4, 0x818d4bd31434b935));
    let e9: nat = 2 * e8 + 0;
    assert((limbs(0x264983dfb5762cd6, 0x770fa3dedcda3f4, 0x508b6759f98c85d4, 0x818d4bd31434b935) * limbs(0x264983dfb5762cd6, 0x770fa3dedcda3f4, 0x508b6759f98c85d4, 0x818d4bd31434b935) * 4) % modulus_limbs() == limbs(0x234185eedc75a67f, 0x12fd3351302f78f0, 0xb82cacfafaf2006, 0x31126a7bd6bea4af)) by (nonlinear_arith);
    lemma_power_step(e9, limbs(0x264983dfb5762cd6, 0x770fa3dedcda3f4, 0x508b6759f98c85d4, 0x818d4bd31434b935), true, limbs(0x234185eedc75a67f, 0x12fd3351302f78f0, 0xb82cacfafaf2006, 0x31126a7bd6bea4af));
    let e10: nat = 2 * e9 + 1;
    assert((limbs(0x234185eedc75a67f, 0x12fd3351302f78f0, 0xb82cacfafaf2006, 0x31126a7bd6bea4af) * limbs(0x234185eedc75a67f, 0x12fd3351302f78f0, 0xb82cacfafaf2006, 0x31126a7bd6bea4af) * 1) % modulus_limbs() == limbs(0x1200a80f0979904c, 0x8b0d59259187018d, 0xd1f7c536fafb12a2, 0x5ed276dd2149396f)) by (nonlinear_arith);
    lemma_power_step(e10, limbs(0x234185eedc75a67f, 0x12fd3351302f78f0, 0xb82cacfafaf2006, 0x31126a7bd6bea4af), false, limbs(0x1200a80f0979904c, 0x8b0d59259187018d, 0xd1f7c536fafb12a2, 0x5ed276dd2149396f));
    let e11: nat = 2 * e10 + 0;
    assert((limbs(0x1200a80f0979904c, 0x8b0d59259187018d, 0xd1f7c536fafb12a2, 0x5ed276dd2149396f) * limbs(0x1200a80f0979904c, 0x8b0d59259187018d, 0xd1f7c536fafb12a2, 0x5ed276dd2149396f) * 1) % modulus_limbs() == limbs(0x2ac6abc34a4f8824, 0xc00e43c81756a559, 0x80657691524d2f4c, 0xae2931abb897e6f1)) by (nonlinear_arith);
    lemma_power_step(e11, limbs(0x1200a80f0979904c, 0x8b0d59259187018d, 0xd1f7c536fafb12a2, 0x5ed276dd2149396f), false, limbs(0x2ac6abc34a4f8824, 0xc00e43c81756a559, 0x80657691524d2f4c, 0xae2931abb897e6f1));
    let e12: nat = 2 * e11 + 0;
    assert((limbs(0x2ac6abc34a4f8824, 0xc00e43c81756a559, 0x80657691524d2f4c, 0xae2931abb897e6f1) * limbs(0x2ac6abc34a4f8824, 0xc00e43c81756a559, 0x80657691524d2f4c, 0xae2931abb897e6f1) * 1) % modulus_limbs() == limbs(0x1bb315e239f48108, 0x5d8f97ddd06a9fc4, 0x264e8d7381b7c43a, 0x96026d922d12fd21)) by (nonlinear_arith);
    lemma_power_step(e12, limbs(0x2ac6abc34a4f8824, 0xc00e43c81756a559, 0x80657691524d2f4c, 0xae2931abb897e6f1), false, limbs(0x1bb315e239f48108, 0x5d8f97ddd06a9fc4, 0x264e8d7381b7c43a, 0x96026d922d12fd21));
    let e13: nat = 2 * e12 + 0;
    assert((limbs(0x1bb315e239f48108, 0x5d8f97ddd06a9fc4, 0x264e8d7381b7c43a, 0x96026d922d12fd21) * limbs(0x1bb315e239f48108, 0x5d8f97ddd06a9fc4, 0x264e8d7381b7c43a, 0x96026d922d12fd21) * 4) % modulus_limbs() == limbs(0x8dd01d9ea451939, 0x30d83fc76bd10366, 0x16ed85a44f217f99, 0xa6ded4936ac35e5c)) by (nonlinear_arith);
    lemma_power_step(e13, limbs(0x1bb315e239f48108, 0x5d8f97ddd06a9fc4, 0x264e8d7381b7c43a, 0x96026d922d12fd21), true, limbs(0x8dd01d9ea451939, 0x30d83fc76bd10366, 0x16ed85a44f217f99, 0xa6ded4936ac35e5c));
    let e14: nat = 2 * e13 + 1;
    assert((limbs(0x8dd01d9ea451939, 0x30d83fc76bd10366, 0x16ed85a44f217f99, 0xa6ded4936ac35e5c) * limbs(0x8dd01d9ea451939, 0x30d83fc76bd10366, 0x16ed85a44f217f99, 0xa6ded4936ac35e5c) * 1) % modulus_limbs() == limbs(0x8f8fa302e7aec4a, 0xdb9f4a41baa426a2, 0xbff60d565b93a5fc, 0xe53aab0777955eca)) by (nonlinear_arith);
    lemma_power_step(e14, limbs(0x8dd01d9ea451939, 0x30d83fc76bd10366, 0x16ed85a44f217f99, 0xa6ded4936ac35e5c), false, limbs(0x8f8fa302e7aec4a, 0xdb9f4a41baa426a2, 0xbff60d565b93a5fc, 0xe53aab0777955eca));
    let e15: nat = 2 * e14 + 0;
    assert((limbs(0x8f8fa302e7aec4a, 0xdb9f4a41baa426a2, 0xbff60d565b93a5fc, 0xe53aab0777955eca) * limbs(0x8f8fa302e7aec4a, 0xdb9f4a41baa426a2, 0xbff60d565b93a5fc, 0xe53aab0777955eca) * 4) % modulus_limbs() == limbs(0x29093cf8bf1d84a, 0x5362554ecf86ba64, 0x92b6e6b13ced00b7, 0x476d43ba2842444a)) by (nonlinear_arith);
    lemma_power_step(e15, limbs(0x8f8fa302e7aec4a, 0xdb9f4a41baa426a2, 0xbff60d565b93a5fc, 0xe53aab0777955eca), true, limbs(0x29093cf8bf1d84a, 0x5362554ecf86ba64, 0x92b6e6b13ced00b7, 0x476d43ba2842444a));
    let e16: nat = 2 * e15 + 1;
    assert(e16 == limbs(0x0, 0xc19139cb, 0x84c680a6e14116da, 0x60561765e05aa45));
}

/// Digits 161 to 176 of the exponent.
proof fn lemma_power_part_11()
    ensures
        pow(4, limbs(0x0, 0xc19139cb84c6, 0x80a6e14116da0605, 0x61765e05aa45a1c7) as nat) % modulus_limbs() == limbs(0x2e95861d3d41267a, 0x85574c0d7aabc615, 0x64f5e1c822340fed, 0x226281444061dc3),
{
    lemma_power_part_10();
    let e0: nat = limbs(0x0, 0xc19139cb, 0x84c680a6e14116da, 0x60561765e05aa45) as nat;
    assert((limbs(0x29093cf8bf1d84a, 0x5362554ecf86ba64, 0x92b6e6b13ced00b7, 0x476d43ba2842444a) * limbs(0x29093cf8bf1d84a, 0x5362554ecf86ba64, 0x92b6e6b13ced00b7, 0x476d43ba2842444a) * 4) % modulus_limbs() == limbs(0x234f4238189853c1, 0x6ad312e8b788ac51, 0xd83eafe0ff60923d, 0xe5842263e7bc7d66)) by (nonlinear_arith);
    lemma_power_step(e0, limbs(0x29093cf8bf1d84a, 0x5362554ecf86ba64, 0x92b6e6b13ced00b7, 0x476d43ba2842444a), true, limbs(0x234f4238189853c1, 0x6ad312e8b788ac51, 0xd83eafe0ff60923d, 0xe5842263e7bc7d66));
    let e1: nat = 2 * e0 + 1;
    assert((limbs(0x234f4238189853c1, 0x6ad312e8b788ac51, 0xd83eafe0ff60923d, 0xe5842263e7bc7d66) * limbs(0x234f4238189853c1, 0x6ad312e8b788ac51, 0xd83eafe0ff60923d, 0xe5842263e7bc7d66) * 1) % modulus_limbs() == limbs(0x2d6ea1fa430acaee, 0x7caef55afb9b47f2, 0x9ef44bcca64e95ac, 0x76209af5330921a)) by (nonlinear_arith);
    lemma_power_step(e1, limbs(0x234f4238189853c1, 0x6ad312e8b788ac51, 0xd83eafe0ff60923d, 0xe5842263e7bc7d66), false, limbs(0x2d6ea1fa430acaee, 0x7caef55afb9b47f2, 0x9ef44bcca64e95ac, 0x76209af5330921a));
    let e2: nat = 2 * e1 + 0;
    assert((limbs(0x2d6ea1fa430acaee, 0x7caef55afb9b47f2, 0x9ef44bcca64e95ac, 0x76209af5330921a) * limbs(0x2d6ea1fa430acaee, 0x7caef55afb9b47f2, 0x9ef44bcca64e95ac, 0x76209af5330921a) * 4) % modulus_limbs() == limbs(0x2bd8cc0db2f9fc20, 0x5db94d548f86e028, 0xe6967bca647b3e71, 0xfb30ae268add6c6c)) by (nonlinear_arith);
    lemma_power_step(e2, limbs(0x2d6ea1fa430acaee, 0x7caef55afb9b47f2, 0x9ef44bcca64e95ac, 0x76209af5330921a), true, limbs(0x2bd8cc0db2f9fc20, 0x5db94d548f86e028, 0xe6967bca647b3e71, 0xfb30ae268add6c6c));
    let e3: nat = 2 * e2 + 1;
    assert((limbs(0x2bd8cc0db2f9fc20, 0x5db94d548f86e028, 0xe6967bca647b3e71, 0xfb30ae268add6c6c) * limbs(0x2bd8cc0db2f9fc20, 0x5db94d548f86e028, 0xe6967bca647b3e71, 0xfb30ae268add6c6c) * 1) % modulus_limbs() == limbs(0xed36bde3dd9708b, 0x7cbb52a9a50e307b, 0x1eda1f6bb59b2b6e, 0x732eb0b9ba3c1165)) by (nonlinear_arith);
    lemma_power_step(e3, limbs(0x2bd8cc0db2f9fc20, 0x5db94d548f86e028, 0xe6967bca647b3e71, 0xfb30ae268add6c6c), false, limbs(0xed36bde3dd9708b, 0x7cbb52a9a50e307b, 0x1eda1f6bb59b2b6e, 0x732eb0b9ba3c1165));
    let e4: nat = 2 * e3 + 0;
    assert((limbs(0xed36bde3dd9708b, 0x7cbb52a9a50e307b, 0x1eda1f6bb59b2b6e, 0x732eb0b9ba3c1165) * limbs(0xed36bde3dd9708b, 0x7cbb52a9a50e307b, 0x1eda1f6bb59b2b6e, 0x732eb0b9ba3c1165) * 1) % modulus_limbs() == limbs(0xa231e36e06630e0, 0x8f317f64c39cf8ba, 0x14e5e0fb95095c87, 0x7c473cd02298a34e)) by (nonlinear_arith);
    lemma_power_step(e4, limbs(0xed36bde3dd9708b, 0x7cbb52a9a50e307b, 0x1eda1f6bb59b2b6e, 0x732eb0b9ba3c1165), false, limbs(0xa231e36e06630e0, 0x8f317f64c39cf8ba, 0x14e5e0fb95095c87, 0x7c473cd02298a34e));
    let e5: nat = 2 * e4 + 0;
    assert((limbs(0xa231e36e06630e0, 0x8f317f64c39cf8ba, 0x14e5e0fb95095c87, 0x7c473cd02298a34e) * limbs(0xa231e36e06630e0, 0x8f317f64c39cf8ba, 0x14e5e0fb95095c87, 0x7c473cd02298a34e) * 1) % modulus_limbs() == limbs(0x1ff24d1a8d7bbf81, 0xb6ff1c21b3f24773, 0x3b64c40295d8cd66, 0xe3016498a0a8b6c)) by (nonlinear_arith);
    lemma_power_step(e5, limbs(0xa231e36e06630e0, 0x8f317f64c39cf8ba, 0x14e5e0fb95095c87, 0x7c473cd02298a34e), false, limbs(0x1ff24d1a8d7bbf81, 0xb6ff1c21b3f24773, 0x3b64c40295d8cd66, 0xe3016498a0a8b6c));
    let e6: nat = 2 * e5 + 0;
    assert((limbs(0x1ff24d1a8d7bbf81, 0xb6ff1c21b3f24773, 0x3b64c40295d8cd66, 0xe3016498a0a8b6c) * limbs(0x1ff24d1a8d7bbf81, 0xb6ff1c21b3f24773, 0x3b64c40295d8cd66, 0xe3016498a0a8b6c) * 1) % modulus_limbs() == limbs(0x1ab1d423d6c8662c, 0x8558e9054e647b59, 0x946ba1b49709dc88, 0xa422880e428f7dcd)) by (nonlinear_arith);
    lemma_power_step(e6, limbs(0x1ff24d1a8d7bbf81, 0xb6ff1c21b3f24773, 0x3b64c40295d8cd66, 0xe3016498a0a8b6c), false, limbs(0x1ab1d423d6c8662c, 0x8558e9054e647b59, 0x946ba1b49709dc88, 0xa422880e428f7dcd));
    let e7: nat = 2 * e6 + 0;
    assert((limbs(0x1ab1d423d6c8662c, 0x8558e9054e647b59, 0x946ba1b49709dc88, 0xa422880e428f7dcd) * limbs(0x1ab1d423d6c8662c, 0x8558e9054e647b59, 0x946ba1b49709dc88, 0xa422880e428f7dcd) * 4) % modulus_limbs() == limbs(0x94cea2c25eab88, 0x58154663207f7e9d, 0x806ce3bfc1b3055b, 0xf53a87f73128ec93)) by (nonlinear_arith);
    lemma_power_step(e7, limbs(0x1ab1d423d6c8662c, 0x8558e9054e647b59, 0x946ba1b49709dc88, 0xa422880e428f7dcd), true, limbs(0x94cea2c25eab88, 0x58154663207f7e9d, 0x806ce3bfc1b3055b, 0xf53a87f73128ec93));
    let e8: nat = 2 * e7 + 1;
    assert((limbs(0x94cea2c25eab88, 0x58154663207f7e9d, 0x806ce3bfc1b3055b, 0xf53a87f73128ec93) * limbs(0x94cea2c25eab88, 0x58154663207f7e9d, 0x806ce3bfc1b3055b, 0xf53a87f73128ec93) * 4) % modulus_limbs() == limbs(0x1b79a2ec3f9074b0, 0xaf5522472c77eab0, 0x5f759939cba73849, 0x7e559357fac21417)) by (nonlinear_arith);
    lemma_power_step(e8, limbs(0x94cea2c25eab88, 0x58154663207f7e9d, 0x806ce3bfc1b3055b, 0xf53a87f73128ec93), true, limbs(0x1b79a2ec3f9074b0, 0xaf5522472c77eab0, 0x5f759939cba73849, 0x7e559357fac21417));
    let e9: nat = 2 * e8 + 1;
    assert((limbs(0x1b79a2ec3f9074b0, 0xaf5522472c77eab0, 0x5f759939cba73849, 0x7e559357fac21417) * limbs(0x1b79a2ec3f9074b0, 0xaf5522472c77eab0, 0x5f759939cba73849, 0x7e559357fac21417) * 4) % modulus_limbs() == limbs(0x1953638f20d80b96, 0xf52993b125377cde, 0xe9785b5b4bcde963, 0x63e1c38c7bd2f8b5)) by (nonlinear_arith);
    lemma_power_step(e9, limbs(0x1b79a2ec3f9074b0, 0xaf5522472c77eab0, 0x5f759939cba73849, 0x7e559357fac21417), true, limbs(0x1953638f20d80b96, 0xf52993b125377cde, 0xe9785b5b4bcde963, 0x63e1c38c7bd2f8b5));
    let e10: nat = 2 * e9 + 1;
    assert((limbs(0x1953638f20d80b96, 0xf52993b125377cde, 0xe9785b5b4bcde963, 0x63e1c38c7bd2f8b5) * limbs(0x1953638f20d80b96, 0xf52993b125377cde, 0xe9785b5b4bcde963, 0x63e1c38c7bd2f8b5) * 1) % modulus_limbs() == limbs(0x24cac97ded5d5081, 0xc9e71e5fbe0ae9a0, 0xc7061b3ae1089878, 0x8a2f33405ccd19db)) by (nonlinear_arith);
    lemma_power_step(e10, limbs(0x1953638f20d80b96, 0xf52993b125377cde, 0xe9785b5b4bcde963, 0x63e1c38c7bd2f8b5), false, limbs(0x24cac97ded5d5081, 0xc9e71e5fbe0ae9a0, 0xc7061b3ae1089878, 0x8a2f33405ccd19db));
    let e11: nat = 2 * e10 + 0;
    assert((limbs(0x24cac97ded5d5081, 0xc9e71e5fbe0ae9a0, 0xc7061b3ae1089878, 0x8a2f33405ccd19db) * limbs(0x24cac97ded5d5081, 0xc9e71e5fbe0ae9a0, 0xc7061b3ae1089878, 0x8a2f33405ccd19db) * 1) % modulus_limbs() == limbs(0x2df64f3f1b442bf4, 0xc0f2ce86223ac87f, 0x70130996804b5c5c, 0x8070fdb431bf5ab3)) by (nonlinear_arith);
    lemma_power_step(e11, limbs(0x24cac97ded5d5081, 0xc9e71e5fbe0ae9a0, 0xc7061b3ae1089878, 0x8a2f33405ccd19db), false, limbs(0x2df64f3f1b442bf4, 0xc0f2ce86223ac87f, 0x70130996804b5c5c, 0x8070fdb431bf5ab3));
    let e12: nat = 2 * e11 + 0;
    assert((limbs(0x2df64f3f1b442bf4, 0xc0f2ce86223ac87f, 0x70130996804b5c5c, 0x8070fdb431bf5ab3) * limbs(0x2df64f3f1b442bf4, 0xc0f2ce86223ac87f, 0x70130996804b5c5c, 0x8070fdb431bf5ab3) * 1) % modulus_limbs() == limbs(0x2139482f2055ee6d, 0x1140f20a353b4b4, 0x7349dcdcc1178a0a, 0xf06d8b44fce717cd)) by (nonlinear_arith);
    lemma_power_step(e12, limbs(0x2df64f3f1b442bf4, 0xc0f2ce86223ac87f, 0x70130996804b5c5c, 0x8070fdb431bf5ab3), false, limbs(0x2139482f2055ee6d, 0x1140f20a353b4b4, 0x7349dcdcc1178a0a, 0xf06d8b44fce717cd));
    let e13: nat = 2 * e12 + 0;
    assert((limbs(0x2139482f2055ee6d, 0x1140f20a353b4b4, 0x7349dcdcc1178a0a, 0xf06d8b44fce717cd) * limbs(0x2139482f2055ee6d, 0x1140f20a353b4b4, 0x7349dcdcc1178a0a, 0xf06d8b44fce717cd) * 4) % modulus_limbs() == limbs(0x25c0b06fc803edb3, 0xff011b82e74b786e, 0xc6e8a12452585f6e, 0x117cff14a861519e)) by (nonlinear_arith);
    lemma_power_step(e13, limbs(0x2139482f2055ee6d, 0x1140f20a353b4b4, 0x7349dcdcc1178a0a, 0xf06d8b44fce717cd), true, limbs(0x25c0b06fc803edb3, 0xff011b82e74b786e, 0xc6e8a12452585f6e, 0x117cff14a861519e));
    let e14: nat = 2 * e13 + 1;
    assert((limbs(0x25c0b06fc803edb3, 0xff011b82e74b786e, 0xc6e8a12452585f6e, 0x117cff14a861519e) * limbs(0x25c0b06fc803edb3, 0xff011b82e74b786e, 0xc6e8a12452585f6e, 0x117cff14a861519e) * 4) % modulus_limbs() == limbs(0xd1c7173b2d8e9cf, 0xac7072c956b1ec05, 0x342d6afcb259373e, 0xec9366d4d4efbfd4)) by (nonlinear_arith);
    lemma_power_step(e14, limbs(0x25c0b06fc803edb3, 0xff011b82e74b786e, 0xc6e8a12452585f6e, 0x117cff14a861519e), true, limbs(0xd1c7173b2d8e9cf, 0xac7072c956b1ec05, 0x342d6afcb259373e, 0xec9366d4d4efbfd4));
    let e15: nat = 2 * e14 + 1;
    assert((limbs(0xd1c7173b2d8e9cf, 0xac7072c956b1ec05, 0x342d6afcb259373e, 0xec9366d4d4efbfd4) * limbs(0xd1c7173b2d8e9cf, 0xac7072c956b1ec05, 0x342d6afcb259373e, 0xec9366d4d4efbfd4) * 4) % modulus_limbs() == limbs(0x2e95861d3d41267a, 0x85574c0d7aabc615, 0x64f5e1c822340fed, 0x226281444061dc3)) by (nonlinear_arith);
    lemma_power_step(e15, limbs(0xd1c7173b2d8e9cf, 0xac7072c956b1ec05, 0x342d6afcb259373e, 0xec9366d4d4efbfd4), true, limbs(0x2e95861d3d41267a, 0x85574c0d7aabc615, 0x64f5e1c822340fed, 0x226281444061dc3));
    let e16: nat = 2 * e15 + 1;
    assert(e16 == limbs(0x0, 0xc19139cb84c6, 0x80a6e14116da0605, 0x61765e05aa45a1c7));
}

/// Digits 177 to 192 of the exponent.
proof fn lemma_power_part_12()
    ensures
        pow(4, limbs(0x0, 0xc19139cb84c680a6, 0xe14116da06056176, 0x5e05aa45a1c72a34) as nat) % modulus_limbs() == limbs(0x2a80ed46502ae351, 0x4e31a33c40661ca6, 0xceccf12247a6ddc7, 0x2584db229a35fd70),
{
    lemma_power_part_11();
    let e0: nat = limbs(0x0, 0xc19139cb84c6, 0x80a6e14116da0605, 0x61765e05aa45a1c7) as nat;
    assert((limbs(0x2e95861d3d41267a, 0x85574c0d7aabc615, 0x64f5e1c822340fed, 0x226281444061dc3) * limbs(0x2e95861d3d41267a, 0x85574c0d7aabc615, 0x64f5e1c822340fed, 0x226281444061dc3) * 1) % modulus_limbs() == limbs(0x13422ff9861ec5f5, 0x2b9e0cf8b1769d1b, 0x9cc48c23ddb7453, 0x62a10d5198f555c7)) by (nonlinear_arith);
    lemma_power_step(e0, limbs(0x2e95861d3d41267a, 0x85574c0d7aabc615, 0x64f5e1c822340fed, 0x226281444061dc3), false, limbs(0x13422ff9861ec5f5, 0x2b9e0cf8b1769d1b, 0x9cc48c23ddb7453, 0x62a10d5198f555c7));
    let e1: nat = 2 * e0 + 0;
    assert((limbs(0x13422ff9861ec5f5, 0x2b9e0cf8b1769d1b, 0x9cc48c23ddb7453, 0x62a10d5198f555c7) * limbs(0x13422ff9861ec5f5, 0x2b9e0cf8b1769d1b, 0x9cc48c23ddb7453, 0x62a10d5198f555c7) * 1) % modulus_limbs() == limbs(0x161cb45b72603c39, 0x4673972bf0ef23c2, 0xce768fc38589a949, 0xc443aecdddc7a385)) by (nonlinear_arith);
    lemma_power_step(e1, limbs(0x13422ff9861ec5f5, 0x2b9e0cf8b1769d1b, 0x9cc48c23ddb7453, 0x62a10d5198f555c7), false, limbs(0x161cb45b72603c39, 0x4673972bf0ef23c2, 0xce768fc38589a949, 0xc443aecdddc7a385));
    let e2: nat = 2 * e1 + 0;
    assert((limbs(0x161cb45b72603c39, 0x4673972bf0ef23c2, 0xce768fc38589a949, 0xc443aecdddc7a385) * limbs(0x161cb45b72603c39, 0x4673972bf0ef23c2, 0xce768fc38589a949, 0xc443aecdddc7a385) * 4) % modulus_limbs() == limbs(0x1844cf3dd3711c71, 0x5647f2e4daa06a78, 0x82d88857a1dd02a9, 0xd669aa593b26816e)) by (nonlinear_arith);
    lemma_power_step(e2, limbs(0x161cb45b72603c39, 0x4673972bf0ef23c2, 0xce768fc38589a949, 0xc443aecdddc7a385), true, limbs(0x1844cf3dd3711c71, 0x5647f2e4daa06a78, 0x82d88857a1dd02a9, 0xd669aa593b26816e));
    let e3: nat = 2 * e2 + 1;
    assert((limbs(0x1844cf3dd3711c71, 0x5647f2e4daa06a78, 0x82d88857a1dd02a9, 0xd669aa593b26816e) * limbs(0x1844cf3dd3711c71, 0x5647f2e4daa06a78, 0x82d88857a1dd02a9, 0xd669aa593b26816e) * 1) % modulus_limbs() == limbs(0x1716b16394896d26, 0x1a6c0ec6cbfa59ba, 0xb99a4882ed737f46, 0x56ef1fc82858287b)) by (nonlinear_arith);
    lemma_power_step(e3, limbs(0x1844cf3dd3711c71, 0x5647f2e4daa06a78, 0x82d88857a1dd02a9, 0xd669aa593b26816e), false, limbs(0x1716b16394896d26, 0x1a6c0ec6cbfa59ba, 0xb99a4882ed737f46, 0x56ef1fc82858287b));
    let e4: nat = 2 * e3 + 0;
    assert((limbs(0x1716b16394896d26, 0x1a6c0ec6cbfa59ba, 0xb99a4882ed737f46, 0x56ef1fc82858287b) * limbs(0x1716b16394896d26, 0x1a6c0ec6cbfa59ba, 0xb99a4882ed737f46, 0x56ef1fc82858287b) * 4) % modulus_limbs() == limbs(0x1f614a4d435ba136, 0xbe1c190feece0652, 0xc505a4e0587651e2, 0xf87af364e42ba583)) by (nonlinear_arith);
    lemma_power_step(e4, limbs(0x1716b16394896d26, 0x1a6c0ec6cbfa59ba, 0xb99a4882ed737f46, 0x56ef1fc82858287b), true, limbs(0x1f614a4d435ba136, 0xbe1c190feece0652, 0xc505a4e0587651e2, 0xf87af364e42ba583));
    let e5: nat = 2 * e4 + 1;
    assert((limbs(0x1f614a4d435ba136, 0xbe1c190feece0652, 0xc505a4e0587651e2, 0xf87af364e42ba583) * limbs(0x1f614a4d435ba136, 0xbe1c190feece0652, 0xc505a4e0587651e2, 0xf87af364e42ba583) * 1) % modulus_limbs() == limbs(0x1f1ac8f223d653b9, 0x1c963d57a7858a3a, 0xbe348dfebdcf977d, 0xc692a3a077ca313d)) by (nonlinear_arith);
    lemma_power_step(e5, limbs(0x1f614a4d435ba136, 0xbe1c190feece0652, 0xc505a4e0587651e2, 0xf87af364e42ba583), false, limbs(0x1f1ac8f223d653b9, 0x1c963d57a7858a3a, 0xbe348dfebdcf977d, 0xc692a3a077ca313d));
    let e6: nat = 2 * e5 + 0;
    assert((limbs(0x1f1ac8f223d653b9, 0x1c963d57a7858a3a, 0xbe348dfebdcf977d, 0xc692a3a077ca313d) * limbs(0x1f1ac8f223d653b9, 0x1c963d57a7858a3a, 0xbe348dfebdcf977d, 0xc692a3a077ca313d) * 4) % modulus_limbs() == limbs(0x2a55a2db51dacf75, 0x6f0f7f0d02eb7e95, 0x2d446175724c6701, 0xf46d7e8560d0fd71)) by (nonlinear_arith);
    lemma_power_step(e6, limbs(0x1f1ac8f223d653b9, 0x1c963d57a7858a3a, 0xbe348dfebdcf977d, 0xc692a3a077ca313d), true, limbs(0x2a55a2db51dacf75, 0x6f0f7f0d02eb7e95, 0x2d446175724c6701, 0xf46d7e8560d0fd71));
    let e7: nat = 2 * e6 + 1;
    assert((limbs(0x2a55a2db51dacf75, 0x6f0f7f0d02eb7e95, 0x2d446175724c6701, 0xf46d7e8560d0fd71) * limbs(0x2a55a2db51dacf75, 0x6f0f7f0d02eb7e95, 0x2d446175724c6701, 0xf46d7e8560d0fd71) * 1) % modulus_limbs() == limbs(0x10a556c147cfe59c, 0xbd777a21c3b3b6bd, 0xf0455429e951f5b9, 0x90cf005ad17b576e)) by (nonlinear_arith);
    lemma_power_step(e7, limbs(0x2a55a2db51dacf75, 0x6f0f7f0d02eb7e95, 0x2d446175724c6701, 0xf46d7e8560d0fd71), false, limbs(0x10a556c147cfe59c, 0xbd777a21c3b3b6bd, 0xf0455429e951f5b9, 0x90cf005ad17b576e));
    let e8: nat = 2 * e7 + 0;
    assert((limbs(0x10a556c147cfe59c, 0xbd777a21c3b3b6bd, 0xf0455429e951f5b9, 0x90cf005ad17b576e) * limbs(0x10a556c147cfe59c, 0xbd777a21c3b3b6bd, 0xf0455429e951f5b9, 0x90cf005ad17b576e) * 1) % modulus_limbs() == limbs(0x2ae3cf0abcfb457f, 0xad36b705a30d542b, 0x4bf9bfa0faff86d3, 0xfebe42e1a25471f)) by (nonlinear_arith);
    lemma_power_step(e8, limbs(0x10a556c147cfe59c, 0xbd777a21c3b3b6bd, 0xf0455429e951f5b9, 0x90cf005ad17b576e), false, limbs(0x2ae3cf0abcfb457f, 0xad36b705a30d542b, 0x4bf9bfa0faff86d3, 0xfebe42e1a25471f));
    let e9: nat = 2 * e8 + 0;
    assert((limbs(0x2ae3cf0abcfb457f, 0xad36b705a30d542b, 0x4bf9bfa0faff86d3, 0xfebe42e1a25471f) * limbs(0x2ae3cf0abcfb457f, 0xad36b705a30d542b, 0x4bf9bfa0faff86d3, 0xfebe42e1a25471f) * 1) % modulus_limbs() == limbs(0x27b3c8ed24cbf885, 0x475af13fd8a386b, 0x530065132a08acd5, 0x200358766689e745)) by (nonlinear_arith);
    lemma_power_step(e9, limbs(0x2ae3cf0abcfb457f, 0xad36b705a30d542b, 0x4bf9bfa0faff86d3, 0xfebe42e1a25471f), false, limbs(0x27b3c8ed24cbf885, 0x475af13fd8a386b, 0x530065132a08acd5, 0x200358766689e745));
    let e10: nat = 2 * e9 + 0;
    assert((limbs(0x27b3c8ed24cbf885, 0x475af13fd8a386b, 0x530065132a08acd5, 0x200358766689e745) * limbs(0x27b3c8ed24cbf885, 0x475af13fd8a386b, 0x530065132a08acd5, 0x200358766689e745) * 4) % modulus_limbs() == limbs(0xe857348aa8915c, 0xc7093328d70723a3, 0x90262f153ed0d036, 0x6fb786218454820f)) by (nonlinear_arith);
    lemma_power_step(e10, limbs(0x27b3c8ed24cbf885, 0x475af13fd8a386b, 0x530065132a08acd5, 0x200358766689e745), true, limbs(0xe857348aa8915c, 0xc7093328d70723a3, 0x90262f153ed0d036, 0x6fb786218454820f));
    let e11: nat = 2 * e10 + 1;
    assert((limbs(0xe857348aa8915c, 0xc7093328d70723a3, 0x90262f153ed0d036, 0x6fb786218454820f) * limbs(0xe857348aa8915c, 0xc7093328d70723a3, 0x90262f153ed0d036, 0x6fb786218454820f) * 4) % modulus_limbs() == limbs(0xab2cc536119ae9, 0xd5212e4117658de2, 0x574d2955dd69a619, 0x818e0c885c5c163c)) by (nonlinear_arith);
    lemma_power_step(e11, limbs(0xe857348aa8915c, 0xc7093328d70723a3, 0x90262f153ed0d036, 0x6fb786218454820f), true, limbs(0xab2cc536119ae9, 0xd5212e4117658de2, 0x574d2955dd69a619, 0x818e0c885c5c163c));
    let e12: nat = 2 * e11 + 1;
    assert((limbs(0xab2cc536119ae9, 0xd5212e4117658de2, 0x574d2955dd69a619, 0x818e0c885c5c163c) * limbs(0xab2cc536119ae9, 0xd5212e4117658de2, 0x574d2955dd69a619, 0x818e0c885c5c163c) * 1) % modulus_limbs() == limbs(0x7e93df01c982c8a, 0x55972612adb7ecb6, 0xb81ca95ace8fb7e8, 0xab7ab115e6239a4c)) by (nonlinear_arith);
    lemma_power_step(e12, limbs(0xab2cc536119ae9, 0xd5212e4117658de2, 0x574d2955dd69a619, 0x818e0c885c5c163c), false, limbs(0x7e93df01c982c8a, 0x55972612adb7ecb6, 0xb81ca95ace8fb7e8, 0xab7ab115e6239a4c));
    let e13: nat = 2 * e12 + 0;
    assert((limbs(0x7e93df01c982c8a, 0x55972612adb7ecb6, 0xb81ca95ace8fb7e8, 0xab7ab115e6239a4c) * limbs(0x7e93df01c982c8a, 0x55972612adb7ecb6, 0xb81ca95ace8fb7e8, 0xab7ab115e6239a4c) * 4) % modulus_limbs() == limbs(0x1d59a43646197c00, 0x33bbec6dc75c01f0, 0x93fd3aea15100ba8, 0xcfb968fa658a43a2)) by (nonlinear_arith);
    lemma_power_step(e13, limbs(0x7e93df01c982c8a, 0x55972612adb7ecb6, 0xb81ca95ace8fb7e8, 0xab7ab115e6239a4c), true, limbs(0x1d59a43646197c00, 0x33bbec6dc75c01f0, 0x93fd3aea15100ba8, 0xcfb968fa658a43a2));
    let e14: nat = 2 * e13 + 1;
    assert((limbs(0x1d59a43646197c00, 0x33bbec6dc75c01f0, 0x93fd3aea15100ba8, 0xcfb968fa658a43a2) * limbs(0x1d59a43646197c00, 0x33bbec6dc75c01f0, 0x93fd3aea15100ba8, 0xcfb968fa658a43a2) * 1) % modulus_limbs() == limbs(0x1e5ab29bd9ab649e, 0xb8206fe414555742, 0x6a91980ee4198c0a, 0xeffc99db1a04130f)) by (nonlinear_arith);
    lemma_power_step(e14, limbs(0x1d59a43646197c00, 0x33bbec6dc75c01f0, 0x93fd3aea15100ba8, 0xcfb968fa658a43a2), false, limbs(0x1e5ab29bd9ab649e, 0xb8206fe414555742, 0x6a91980ee4198c0a, 0xeffc99db1a04130f));
    let e15: nat = 2 * e14 + 0;
    assert((limbs(0x1e5ab29bd9ab649e, 0xb8206fe414555742, 0x6a91980ee4198c0a, 0xeffc99db1a04130f) * limbs(0x1e5ab29bd9ab649e, 0xb8206fe414555742, 0x6a91980ee4198c0a, 0xeffc99db1a04130f) * 1) % modulus_limbs() == limbs(0x2a80ed46502ae351, 0x4e31a33c40661ca6, 0xceccf12247a6ddc7, 0x2584db229a35fd70)) by (nonlinear_arith);
    lemma_power_step(e15, limbs(0x1e5ab29bd9ab649e, 0xb8206fe414555742, 0x6a91980ee4198c0a, 0xeffc99db1a04130f), false, limbs(0x2a80ed46502ae351, 0x4e31a33c40661ca6, 0xceccf12247a6ddc7, 0x2584db229a35fd70));
    let e16: nat = 2 * e15 + 0;
    assert(e16 == limbs(0x0, 0xc19139cb84c680a6, 0xe14116da06056176, 0x5e05aa45a1c72a34));
}

/// Digits 193 to 208 of the exponent.
proof fn lemma_power_part_13()
    ensures
        pow(4, limbs(0xc191, 0x39cb84c680a6e141, 0x16da060561765e05, 0xaa45a1c72a34f082) as nat) % modulus_limbs() == limbs(0x54689a106f0eb72, 0x1aa46c7ff38644d, 0x5a9e174bcd62edbf, 0xfac2c8bcb224b4a5),
{
    lemma_power_part_12();
    let e0: nat = limbs(0x0, 0xc19139cb84c680a6, 0xe14116da06056176, 0x5e05aa45a1c72a34) as nat;
    assert((limbs(0x2a80ed46502ae351, 0x4e31a33c40661ca6, 0xceccf12247a6ddc7, 0x2584db229a35fd70) * limbs(0x2a80ed46502ae351, 0x4e31a33c40661ca6, 0xceccf12247a6ddc7, 0x2584db229a35fd70) * 4) % modulus_limbs() == limbs(0xa87e0dcf2fb1601, 0x398949d98410d2be, 0x13296fb45a11fe54, 0x88d6a2b385f2d786)) by (nonlinear_arith);
    lemma_power_step(e0, limbs(0x2a80ed46502ae351, 0x4e31a33c40661ca6, 0xceccf12247a6ddc7, 0x2584db229a35fd70), true, limbs(0xa87e0dcf2fb1601, 0x398949d98410d2be, 0x13296fb45a11fe54, 0x88d6a2b385f2d786));
    let e1: nat = 2 * e0 + 1;
    assert((limbs(0xa87e0dcf2fb1601, 0x398949d98410d2be, 0x13296fb45a11fe54, 0x88d6a2b385f2d786) * limbs(0xa87e0dcf2fb1601, 0x398949d98410d2be, 0x13296fb45a11fe54, 0x88d6a2b385f2d786) * 4) % modulus_limbs() == limbs(0x1c5b1f4ca18d70bb, 0x702ca56eb718e168, 0xa383708fece885a3, 0xf3ef86ee622a1b81)) by (nonlinear_arith);
    lemma_power_step(e1, limbs(0xa87e0dcf2fb1601, 0x398949d98410d2be, 0x13296fb45a11fe54, 0x88d6a2b385f2d786), true, limbs(0x1c5b1f4ca18d70bb, 0x702ca56eb718e168, 0xa383708fece885a3, 0xf3ef86ee622a1b81));
    let e2: nat = 2 * e1 + 1;
    assert((limbs(0x1c5b1f4ca18d70bb, 0x702ca56eb718e168, 0xa383708fece885a3, 0xf3ef86ee622a1b81) * limbs(0x1c5b1f4ca18d70bb, 0x702ca56eb718e168, 0xa383708fece885a3, 0xf3ef86ee622a1b81) * 4) % modulus_limbs() == limbs(0x8da7ce9932b722a, 0xb1681a2e91423b73, 0xdd08c12b978734b4, 0xe3da1948ed44c876)) by (nonlinear_arith);
    lemma_power_step(e2, limbs(0x1c5b1f4ca18d70bb, 0x702ca56eb718e168, 0xa383708fece885a3, 0xf3ef86ee622a1b81), true, limbs(0x8da7ce9932b722a, 0xb1681a2e91423b73, 0xdd08c12b978734b4, 0xe3da1948ed44c876));
    let e3: nat = 2 * e2 + 1;
    assert((limbs(0x8da7ce9932b722a, 0xb1681a2e91423b73, 0xdd08c12b978734b4, 0xe3da1948ed44c876) * limbs(0x8da7ce9932b722a, 0xb1681a2e91423b73, 0xdd08c12b978734b4, 0xe3da1948ed44c876) * 4) % modulus_limbs() == limbs(0xe3b2699df132c54, 0x5f2e2dfc60615e3, 0xe4073280c44a73c3, 0xd4c0b194f1ee2591)) by (nonlinear_arith);
    lemma_power_step(e3, limbs(0x8da7ce9932b722a, 0xb1681a2e91423b73, 0xdd08c12b978734b4, 0xe3da1948ed44c876), true, limbs(0xe3b2699df132c54, 0x5f2e2dfc60615e3, 0xe4073280c44a73c3, 0xd4c0b194f1ee2591));
    let e4: nat = 2 * e3 + 1;
    assert((limbs(0xe3b2699df132c54, 0x5f2e2dfc60615e3, 0xe4073280c44a73c3, 0xd4c0b194f1ee2591) * limbs(0xe3b2699df132c54, 0x5f2e2dfc60615e3, 0xe4073280c44a73c3, 0xd4c0b194f1ee2591) * 1) % modulus_limbs() == limbs(0x78fb589fbed8ee6, 0x9ad5ce564dfb20a4, 0x90f5794680dffbed, 0xb9ff21306f324cb3)) by (nonlinear_arith);
    lemma_power_step(e4, limbs(0xe3b2699df132c54, 0x5f2e2dfc60615e3, 0xe4073280c44a73c3, 0xd4c0b194f1ee2591), false, limbs(0x78fb589fbed8ee6, 0x9ad5ce564dfb20a4, 0x90f5794680dffbed, 0xb9ff21306f324cb3));
    let e5: nat = 2 * e4 + 0;
    assert((limbs(0x78fb589fbed8ee6, 0x9ad5ce564dfb20a4, 0x90f5794680dffbed, 0xb9ff21306f324cb3) * limbs(0x78fb589fbed8ee6, 0x9ad5ce564dfb20a4, 0x90f5794680dffbed, 0xb9ff21306f324cb3) * 1) % modulus_limbs() == limbs(0x1c38f8f5ea89ae9b, 0x39608b673e97f2a3, 0xddad6181292e4efe, 0x1c7221f9191059ee)) by (nonlinear_arith);
    lemma_power_step(e5, limbs(0x78fb589fbed8ee6, 0x9ad5ce564dfb20a4, 0x90f5794680dffbed, 0xb9ff21306f324cb3), false, limbs(0x1c38f8f5ea89ae9b, 0x39608b673e97f2a3, 0xddad6181292e4efe, 0x1c7221f9191059ee));
    let e6: nat = 2 * e5 + 0;
    assert((limbs(0x1c38f8f5ea89ae9b, 0x39608b673e97f2a3, 0xddad6181292e4efe, 0x1c7221f9191059ee) * limbs(0x1c38f8f5ea89ae9b, 0x39608b673e97f2a3, 0xddad6181292e4efe, 0x1c7221f9191059ee) * 1) % modulus_limbs() == limbs(0x222a722521ed0fa8, 0x39f18e452fa2cd70, 0xbf4e764c135ee4cb, 0x4b8f53ce20c9efd)) by (nonlinear_arith);
    lemma_power_step(e6, limbs(0x1c38f8f5ea89ae9b, 0x39608b673e97f2a3, 0xddad6181292e4efe, 0x1c7221f9191059ee), false, limbs(0x222a722521ed0fa8, 0x39f18e452fa2cd70, 0xbf4e764c135ee4cb, 0x4b8f53ce20c9efd));
    let e7: nat = 2 * e6 + 0;
    assert((limbs(0x222a722521ed0fa8, 0x39f18e452fa2cd70, 0xbf4e764c135ee4cb, 0x4b8f53ce20c9efd) * limbs(0x222a722521ed0fa8, 0x39f18e452fa2cd70, 0xbf4e764c135ee4cb, 0x4b8f53ce20c9efd) * 1) % modulus_limbs() == limbs(0x1846c67d13717fc1, 0x30f04400b012c27e, 0x9e4830190bd2ddac, 0xb1a1c2a4a7f1754)) by (nonlinear_arith);
    lemma_power_step(e7, limbs(0x222a722521ed0fa8, 0x39f18e452fa2cd70, 0xbf4e764c135ee4cb, 0x4b8f53ce20c9efd), false, limbs(0x1846c67d13717fc1, 0x30f04400b012c27e, 0x9e4830190bd2ddac, 0xb1a1c2a4a7f1754));
    let e8: nat = 2 * e7 + 0;
    assert((limbs(0x1846c67d13717fc1, 0x30f04400b012c27e, 0x9e4830190bd2ddac, 0xb1a1c2a4a7f1754) * limbs(0x1846c67d13717fc1, 0x30f04400b012c27e, 0x9e4830190bd2ddac, 0xb1a1c2a4a7f1754) * 4) % modulus_limbs() == limbs(0x1825dad1605fb443, 0x961f0a173f030566, 0xf6fce6b8c0b253, 0x322ba36bc0772d38)) by (nonlinear_arith);
    lemma_power_step(e8, limbs(0x1846c67d13717fc1, 0x30f04400b012c27e, 0x9e4830190bd2ddac, 0xb1a1c2a4a7f1754), true, limbs(0x1825dad1605fb443, 0x961f0a173f030566, 0xf6fce6b8c0b253, 0x322ba36bc0772d38));
    let e9: nat = 2 * e8 + 1;
    assert((limbs(0x1825dad1605fb443, 0x961f0a173f030566, 0xf6fce6b8c0b253, 0x322ba36bc0772d38) * limbs(0x1825dad1605fb443, 0x961f0a173f030566, 0xf6fce6b8c0b253, 0x322ba36bc0772d38) * 1) % modulus_limbs() == limbs(0xc033efbcc0da001, 0x57c6bb841a5514b8, 0xbe82eac12fc2bac3, 0x12a4c5790a0235c4)) by (nonlinear_arith);
    lemma_power_step(e9, limbs(0x1825dad1605fb443, 0x961f0a173f030566, 0xf6fce6b8c0b253, 0x322ba36bc0772d38), false, limbs(0xc033efbcc0da001, 0x57c6bb841a5514b8, 0xbe82eac12fc2bac3, 0x12a4c5790a0235c4));
    let e10: nat = 2 * e9 + 0;
    assert((limbs(0xc033efbcc0da001, 0x57c6bb841a5514b8, 0xbe82eac12fc2bac3, 0x12a4c5790a0235c4) * limbs(0xc033efbcc0da001, 0x57c6bb841a5514b8, 0xbe82eac12fc2bac3, 0x12a4c5790a0235c4) * 1) % modulus_limbs() == limbs(0x315a16ed86a161c, 0x6536179b5adfe6e9, 0xfb717417d1dcc21, 0x23b2015a163cc618)) by (nonlinear_arith);
    lemma_power_step(e10, limbs(0xc033efbcc0da001, 0x57c6bb841a5514b8, 0xbe82eac12fc2bac3, 0x12a4c5790a0235c4), false, limbs(0x315a16ed86a161c, 0x6536179b5adfe6e9, 0xfb717417d1dcc21, 0x23b2015a163cc618));
    let e11: nat = 2 * e10 + 0;
    assert((limbs(0x315a16ed86a161c, 0x6536179b5adfe6e9, 0xfb717417d1dcc21, 0x23b2015a163cc618) * limbs(0x315a16ed86a161c, 0x6536179b5adfe6e9, 0xfb717417d1dcc21, 0x23b2015a163cc618) * 1) % modulus_limbs() == limbs(0x116ef1dfdbb447ed, 0xaf3b3992f4889805, 0x8e6c924e1058d036, 0x81a739a2baa9f30f)) by (nonlinear_arith);
    lemma_power_step(e11, limbs(0x315a16ed86a161c, 0x6536179b5adfe6e9, 0xfb717417d1dcc21, 0x23b2015a163cc618), false, limbs(0x116ef1dfdbb447ed, 0xaf3b3992f4889805, 0x8e6c924e1058d036, 0x81a739a2baa9f30f));
    let e12: nat = 2 * e11 + 0;
    assert((limbs(0x116ef1dfdbb447ed, 0xaf3b3992f4889805, 0x8e6c924e1058d036, 0x81a739a2baa9f30f) * limbs(0x116ef1dfdbb447ed, 0xaf3b3992f4889805, 0x8e6c924e1058d036, 0x81a739a2baa9f30f) * 1) % modulus_limbs() == limbs(0x211ac33fdeb9bbf1, 0xe4d23e8a76e64e55, 0x1699a12f199b5681, 0xf675e45a0d2dbd89)) by (nonlinear_arith);
    lemma_power_step(e12, limbs(0x116ef1dfdbb447ed, 0xaf3b3992f4889805, 0x8e6c924e1058d036, 0x81a739a2baa9f30f), false, limbs(0x211ac33fdeb9bbf1, 0xe4d23e8a76e64e55, 0x1699a12f199b5681, 0xf675e45a0d2dbd89));
    let e13: nat = 2 * e12 + 0;
    assert((limbs(0x211ac33fdeb9bbf1, 0xe4d23e8a76e64e55, 0x1699a12f199b5681, 0xf675e45a0d2dbd89) * limbs(0x211ac33fdeb9bbf1, 0xe4d23e8a76e64e55, 0x1699a12f199b5681, 0xf675e45a0d2dbd89) * 1) % modulus_limbs() == limbs(0x1281215dae073fd8, 0x306a73cd5fe1baa0, 0x5fbcf25fd2470889, 0xc52c0155b83799d4)) by (nonlinear_arith);
    lemma_power_step(e13, limbs(0x211ac33fdeb9bbf1, 0xe4d23e8a76e64e55, 0x1699a12f199b5681, 0xf675e45a0d2dbd89), false, limbs(0x1281215dae073fd8, 0x306a73cd5fe1baa0, 0x5fbcf25fd2470889, 0xc52c0155b83799d4));
    let e14: nat = 2 * e13 + 0;
    assert((limbs(0x1281215dae073fd8, 0x306a73cd5fe1baa0, 0x5fbcf25fd2470889, 0xc52c0155b83799d4) * limbs(0x1281215dae073fd8, 0x306a73cd5fe1baa0, 0x5fbcf25fd2470889, 0xc52c0155b83799d4) * 4) % modulus_limbs() == limbs(0x4fe7c021b73d74b, 0x708d80f2f82f920f, 0x3d55229255941066, 0xe78c57fcfd16408d)) by (nonlinear_arith);
    lemma_power_step(e14, limbs(0x1281215dae073fd8, 0x306a73cd5fe1baa0, 0x5fbcf25fd2470889, 0xc52c0155b83799d4), true, limbs(0x4fe7c021b73d74b, 0x708d80f2f82f920f, 0x3d55229255941066, 0xe78c57fcfd16408d));
    let e15: nat = 2 * e14 + 1;
    assert((limbs(0x4fe7c021b73d74b, 0x708d80f2f82f920f, 0x3d55229255941066, 0xe78c57fcfd16408d) * limbs(0x4fe7c021b73d74b, 0x708d80f2f82f920f, 0x3d55229255941066, 0xe78c57fcfd16408d) * 1) % modulus_limbs() == limbs(0x54689a106f0eb72, 0x1aa46c7ff38644d, 0x5a9e174bcd62edbf, 0xfac2c8bcb224b4a5)) by (nonlinear_arith);
    lemma_power_step(e15, limbs(0x4fe7c021b73d74b, 0x708d80f2f82f920f, 0x3d55229255941066, 0xe78c57fcfd16408d), false, limbs(0x54689a106f0eb72, 0x1aa46c7ff38644d, 0x5a9e174bcd62edbf, 0xfac2c8bcb224b4a5));
    let e16: nat = 2 * e15 + 0;
    assert(e16 == limbs(0xc191, 0x39cb84c680a6e141, 0x16da060561765e05, 0xaa45a1c72a34f082));
}

/// Digits 209 to 224 of the exponent.
proof fn lemma_power_part_14()
    ensures
        pow(4, limbs(0xc19139cb, 0x84c680a6e14116da, 0x60561765e05aa45, 0xa1c72a34f082305b) as nat) % modulus_limbs() == limbs(0xc34fa5604a3bd69, 0xf7cbe5bec57e6352, 0xa4c32b09f2e87cee, 0x765401d24bede1e1),
{
    lemma_power_part_13();
    let e0: nat = limbs(0xc191, 0x39cb84c680a6e141, 0x16da060561765e05, 0xaa45a1c72a34f082) as nat;
    assert((limbs(0x54689a106f0eb72, 0x1aa46c7ff38644d, 0x5a9e174bcd62edbf, 0xfac2c8bcb224b4a5) * limbs(0x54689a106f0eb72, 0x1aa46c7ff38644d, 0x5a9e174bcd62edbf, 0xfac2c8bcb224b4a5) * 1) % modulus_limbs() == limbs(0x2b5b310f4bc14075, 0x1492190f138ad0d6, 0xc63eaafe38b343a7, 0x638ed0fe4b3fa64f)) by (nonlinear_arith);
    lemma_power_step(e0, limbs(0x54689a106f0eb72, 0x1aa46c7ff38644d, 0x5a9e174bcd62edbf, 0xfac2c8bcb224b4a5), false, limbs(0x2b5b310f4bc14075, 0x1492190f138ad0d6, 0xc63eaafe38b343a7, 0x638ed0fe4b3fa64f));
    let e1: nat = 2 * e0 + 0;
    assert((limbs(0x2b5b310f4bc14075, 0x1492190f138ad0d6, 0xc63eaafe38b343a7, 0x638ed0fe4b3fa64f) * limbs(0x2b5b310f4bc14075, 0x1492190f138ad0d6, 0xc63eaafe38b343a7, 0x638ed0fe4b3fa64f) * 1) % modulus_limbs() == limbs(0xc2840163b6260ab, 0x5b670f39dd5fc5f4, 0x76561ba348b757fe, 0xac0296d7d41f5df7)) by (nonlinear_arith);
    lemma_power_step(e1, limbs(0x2b5b310f4bc14075, 0x1492190f138ad0d6, 0xc63eaafe38b343a7, 0x638ed0fe4b3fa64f), false, limbs(0xc2840163b6260ab, 0x5b670f39dd5fc5f4, 0x76561ba348b757fe, 0xac0296d7d41f5df7));
    let e2: nat = 2 * e1 + 0;
    assert((limbs(0xc2840163b6260ab, 0x5b670f39dd5fc5f4, 0x76561ba348b757fe, 0xac0296d7d41f5df7) * limbs(0xc2840163b6260ab, 0x5b670f39dd5fc5f4, 0x76561ba348b757fe, 0xac0296d7d41f5df7) * 4) % modulus_limbs() == limbs(0x16b2986b4968d1e3, 0xe9e60e36f61d0df0, 0x69aa99d76ff4f51f, 0x5c11b179c01e1409)) by (nonlinear_arith);
    lemma_power_step(e2, limbs(0xc2840163b6260ab, 0x5b670f39dd5fc5f4, 0x76561ba348b757fe, 0xac0296d7d41f5df7), true, limbs(0x16b2986b4968d1e3, 0xe9e60e36f61d0df0, 0x69aa99d76ff4f51f, 0x5c11b179c01e1409));
    let e3: nat = 2 * e2 + 1;
    assert((limbs(0x16b2986b4968d1e3, 0xe9e60e36f61d0df0, 0x69aa99d76ff4f51f, 0x5c11b179c01e1409) * limbs(0x16b2986b4968d1e3, 0xe9e60e36f61d0df0, 0x69aa99d76ff4f51f, 0x5c11b179c01e1409) * 4) % modulus_limbs() == limbs(0x1baa67178d1d8bb8, 0xd1eb04d9d8562087, 0xa20519ed51b3fea8, 0x166b96bb89c3152f)) by (nonlinear_arith);
    lemma_power_step(e3, limbs(0x16b2986b4968d1e3, 0xe9e60e36f61d0df0, 0x69aa99d76ff4f51f, 0x5c11b179c01e1409), true, limbs(0x1baa67178d1d8bb8, 0xd1eb04d9d8562087, 0xa20519ed51b3fea8, 0x166b96bb89c3152f));
    let e4: nat = 2 * e3 + 1;
    assert((limbs(0x1baa67178d1d8bb8, 0xd1eb04d9d8562087, 0xa20519ed51b3fea8, 0x166b96bb89c3152f) * limbs(0x1baa67178d1d8bb8, 0xd1eb04d9d8562087, 0xa20519ed51b3fea8, 0x166b96bb89c3152f) * 1) % modulus_limbs() == limbs(0x38ad6ebed0fae56, 0xabc1a78c16f8e820, 0x80f51868636da6fd, 0x5ff0e185097a9dae)) by (nonlinear_arith);
    lemma_power_step(e4, limbs(0x1baa67178d1d8bb8, 0xd1eb04d9d8562087, 0xa20519ed51b3fea8, 0x166b96bb89c3152f), false, limbs(0x38ad6ebed0fae56, 0xabc1a78c16f8e820, 0x80f51868636da6fd, 0x5ff0e185097a9dae));
    let e5: nat = 2 * e4 + 0;
    assert((limbs(0x38ad6ebed0fae56, 0xabc1a78c16f8e820, 0x80f51868636da6fd, 0x5ff0e185097a9dae) * limbs(0x38ad6ebed0fae56, 0xabc1a78c16f8e820, 0x80f51868636da6fd, 0x5ff0e185097a9dae) * 1) % modulus_limbs() == limbs(0x303e0b77118565c8, 0x80271f6efa861c1b, 0xeabfe92a14a00a6e, 0xdcf311def5e9ef8b)) by (nonlinear_arith);
    lemma_power_step(e5, limbs(0x38ad6ebed0fae56, 0xabc1a78c16f8e820, 0x80f51868636da6fd, 0x5ff0e185097a9dae), false, limbs(0x303e0b77118565c8, 0x80271f6efa861c1b, 0xeabfe92a14a00a6e, 0xdcf311def5e9ef8b));
    let e6: nat = 2 * e5 + 0;
    assert((limbs(0x303e0b77118565c8, 0x80271f6efa861c1b, 0xeabfe92a14a00a6e, 0xdcf311def5e9ef8b) * limbs(0x303e0b77118565c8, 0x80271f6efa861c1b, 0xeabfe92a14a00a6e, 0xdcf311def5e9ef8b) * 1) % modulus_limbs() == limbs(0x14ca4b63d3991d66, 0xe3ecf258bbb875f9, 0x728e87c70d10f321, 0xf1a66e07507c23f2)) by (nonlinear_arith);
    lemma_power_step(e6, limbs(0x303e0b77118565c8, 0x80271f6efa861c1b, 0xeabfe92a14a00a6e, 0xdcf311def5e9ef8b), false, limbs(0x14ca4b63d3991d66, 0xe3ecf258bbb875f9, 0x728e87c70d10f321, 0xf1a66e07507c23f2));
    let e7: nat = 2 * e6 + 0;
    assert((limbs(0x14ca4b63d3991d66, 0xe3ecf258bbb875f9, 0x728e87c70d10f321, 0xf1a66e07507c23f2) * limbs(0x14ca4b63d3991d66, 0xe3ecf258bbb875f9, 0x728e87c70d10f321, 0xf1a66e07507c23f2) * 1) % modulus_limbs() == limbs(0x9c3101ed388d720, 0x81c172585fffaf6, 0x6a510b7f1216b658, 0xbe45ff847ef431f4)) by (nonlinear_arith);
    lemma_power_step(e7, limbs(0x14ca4b63d3991d66, 0xe3ecf258bbb875f9, 0x728e87c70d10f321, 0xf1a66e07507c23f2), false, limbs(0x9c3101ed388d720, 0x81c172585fffaf6, 0x6a510b7f1216b658, 0xbe45ff847ef431f4));
    let e8: nat = 2 * e7 + 0;
    assert((limbs(0x9c3101ed388d720, 0x81c172585fffaf6, 0x6a510b7f1216b658, 0xbe45ff847ef431f4) * limbs(0x9c3101ed388d720, 0x81c172585fffaf6, 0x6a510b7f1216b658, 0xbe45ff847ef431f4) * 1) % modulus_limbs() == limbs(0x143590e3b45b0845, 0xcbd0b729609de99, 0x71ab911ef3c614f7, 0xa384b13c8729cfab)) by (nonlinear_arith);
    lemma_power_step(e8, limbs(0x9c3101ed388d720, 0x81c172585fffaf6, 0x6a510b7f1216b658, 0xbe45ff847ef431f4), false, limbs(0x143590e3b45b0845, 0xcbd0b729609de99, 0x71ab911ef3c614f7, 0xa384b13c8729cfab));
    let e9: nat = 2 * e8 + 0;
    assert((limbs(0x143590e3b45b0845, 0xcbd0b729609de99, 0x71ab911ef3c614f7, 0xa384b13c8729cfab) * limbs(0x143590e3b45b0845, 0xcbd0b729609de99, 0x71ab911ef3c614f7, 0xa384b13c8729cfab) * 4) % modulus_limbs() == limbs(0xf746104f4257c3d, 0x458c8dba4a3f6ef8, 0xa83d95439680c8ff, 0x2ae0f518ffa9a603)) by (nonlinear_arith);
    lemma_power_step(e9, limbs(0x143590e3b45b0845, 0xcbd0b729609de99, 0x71ab911ef3c614f7, 0xa384b13c8729cfab), true, limbs(0xf746104f4257c3d, 0x458c8dba4a3f6ef8, 0xa83d95439680c8ff, 0x2ae0f518ffa9a603));
    let e10: nat = 2 * e9 + 1;
    assert((limbs(0xf746104f4257c3d, 0x458c8dba4a3f6ef8, 0xa83d95439680c8ff, 0x2ae0f518ffa9a603) * limbs(0xf746104f4257c3d, 0x458c8dba4a3f6ef8, 0xa83d95439680c8ff, 0x2ae0f518ffa9a603) * 1) % modulus_limbs() == limbs(0x1ad33781ba260f1, 0x92833f58add978c2, 0x7965334c14474a5d, 0x88f6adaa35d3bbf0)) by (nonlinear_arith);
    lemma_power_step(e10, limbs(0xf746104f4257c3d, 0x458c8dba4a3f6ef8, 0xa83d95439680c8ff, 0x2ae0f518ffa9a603), false, limbs(0x1ad33781ba260f1, 0x92833f58add978c2, 0x7965334c14474a5d, 0x88f6adaa35d3bbf0));
    let e11: nat = 2 * e10 + 0;
    assert((limbs(0x1ad33781ba260f1, 0x92833f58add978c2, 0x7965334c14474a5d, 0x88f6adaa35d3bbf0) * limbs(0x1ad33781ba260f1, 0x92833f58add978c2, 0x7965334c14474a5d, 0x88f6adaa35d3bbf0) * 4) % modulus_limbs() == limbs(0x1e0341b90dadddef, 0xab899a140d575cff, 0xaaf370f6d0f52549, 0x35df00761e19847e)) by (nonlinear_arith);
    lemma_power_step(e11, limbs(0x1ad33781ba260f1, 0x92833f58add978c2, 0x7965334c14474a5d, 0x88f6adaa35d3bbf0), true, limbs(0x1e0341b90dadddef, 0xab899a140d575cff, 0xaaf370f6d0f52549, 0x35df00761e19847e));
    let e12: nat = 2 * e11 + 1;
    assert((limbs(0x1e0341b90dadddef, 0xab899a140d575cff, 0xaaf370f6d0f52549, 0x35df00761e19847e) * limbs(0x1e0341b90dadddef, 0xab899a140d575cff, 0xaaf370f6d0f52549, 0x35df00761e19847e) * 4) % modulus_limbs() == limbs(0x1144d29b0ff1fe95, 0x84d3422b6934ac42, 0x9d401b2af1b82669, 0x3e1197b023331f89)) by (nonlinear_arith);
    lemma_power_step(e12, limbs(0x1e0341b90dadddef, 0xab899a140d575cff, 0xaaf370f6d0f52549, 0x35df00761e19847e), true, limbs(0x1144d29b0ff1fe95, 0x84d3422b6934ac42, 0x9d401b2af1b82669, 0x3e1197b023331f89));
    let e13: nat = 2 * e12 + 1;
    assert((limbs(0x1144d29b0ff1fe95, 0x84d3422b6934ac42, 0x9d401b2af1b82669, 0x3e1197b023331f89) * limbs(0x1144d29b0ff1fe95, 0x84d3422b6934ac42, 0x9d401b2af1b82669, 0x3e1197b023331f89) * 1) % modulus_limbs() == limbs(0x7d39df3a5b09048, 0x6072f20948d916fd, 0xf957bbff90a1101f, 0xed83d12f457bd993)) by (nonlinear_arith);
    lemma_power_step(e13, limbs(0x1144d29b0ff1fe95, 0x84d3422b6934ac42, 0x9d401b2af1b82669, 0x3e1197b023331f89), false, limbs(0x7d39df3a5b09048, 0x6072f20948d916fd, 0xf957bbff90a1101f, 0xed83d12f457bd993));
    let e14: nat = 2 * e13 + 0;
    assert((limbs(0x7d39df3a5b09048, 0x6072f20948d916fd, 0xf957bbff90a1101f, 0xed83d12f457bd993) * limbs(0x7d39df3a5b09048, 0x6072f20948d916fd, 0xf957bbff90a1101f, 0xed83d12f457bd993) * 4) % modulus_limbs() == limbs(0xd401dfb883b9d8c, 0xa0cbee0181dff195, 0xf14b5dccc7e5101b, 0xf9f205812a556a34)) by (nonlinear_arith);
    lemma_power_step(e14, limbs(0x7d39df3a5b09048, 0x6072f20948d916fd, 0xf957bbff90a1101f, 0xed83d12f457bd993), true, limbs(0xd401dfb883b9d8c, 0xa0cbee0181dff195, 0xf14b5dccc7e5101b, 0xf9f205812a556a34));
    let e15: nat = 2 * e14 + 1;
    assert((limbs(0xd401dfb883b9d8c, 0xa0cbee0181dff195, 0xf14b5dccc7e5101b, 0xf9f205812a556a34) * limbs(0xd401dfb883b9d8c, 0xa0cbee0181dff195, 0xf14b5dccc7e5101b, 0xf9f205812a556a34) * 4) % modulus_limbs() == limbs(0xc34fa5604a3bd69, 0xf7cbe5bec57e6352, 0xa4c32b09f2e87cee, 0x765401d24bede1e1)) by (nonlinear_arith);
    lemma_power_step(e15, limbs(0xd401dfb883b9d8c, 0xa0cbee0181dff195, 0xf14b5dccc7e5101b, 0xf9f205812a556a34), true, limbs(0xc34fa5604a3bd69, 0xf7cbe5bec57e6352, 0xa4c32b09f2e87cee, 0x765401d24bede1e1));
    let e16: nat = 2 * e15 + 1;
    assert(e16 == limbs(0xc19139cb, 0x84c680a6e14116da, 0x60561765e05aa45, 0xa1c72a34f082305b));
}

/// Digits 225 to 240 of the exponent.
proof fn lemma_power_part_15()
    ensures
        pow(4, limbs(0xc19139cb84c6, 0x80a6e14116da0605, 0x61765e05aa45a1c7, 0x2a34f082305b61f3) as nat) % modulus_limbs() == limbs(0x2e83e2ff8a2a0443, 0xe7f8f160eef21c39, 0x398e81a1d07b3231, 0x81dea9181766ddb2),
{
    lemma_power_part_14();
    let e0: nat = limbs(0xc19139cb, 0x84c680a6e14116da, 0x60561765e05aa45, 0xa1c72a34f082305b) as nat;
    assert((limbs(0xc34fa5604a3bd69, 0xf7cbe5bec57e6352, 0xa4c32b09f2e87cee, 0x765401d24bede1e1) * limbs(0xc34fa5604a3bd69, 0xf7cbe5bec57e6352, 0xa4c32b09f2e87cee, 0x765401d24bede1e1) * 1) % modulus_limbs() == limbs(0x1aead70a53cc5cea, 0x5f3bffc9a051ffe3, 0xa72fb15b5ebccfd7, 0x330ad2680f9ff51b)) by (nonlinear_arith);
    lemma_power_step(e0, limbs(0xc34fa5604a3bd69, 0xf7cbe5bec57e6352, 0xa4c32b09f2e87cee, 0x765401d24bede1e1), false, limbs(0x1aead70a53cc5cea, 0x5f3bffc9a051ffe3, 0xa72fb15b5ebccfd7, 0x330ad2680f9ff51b));
    let e1: nat = 2 * e0 + 0;
    assert((limbs(0x1aead70a53cc5cea, 0x5f3bffc9a051ffe3, 0xa72fb15b5ebccfd7, 0x330ad2680f9ff51b) * limbs(0x1aead70a53cc5cea, 0x5f3bffc9a051ffe3, 0xa72fb15b5ebccfd7, 0x330ad2680f9ff51b) * 4) % modulus_limbs() == limbs(0x93727df4a766af4, 0x431d9ed40b6e7325, 0xa81141043c89f170, 0xf96e1bee838a50ca)) by (nonlinear_arith);
    lemma_power_step(e1, limbs(0x1aead70a53cc5cea, 0x5f3bffc9a051ffe3, 0xa72fb15b5ebccfd7, 0x330ad2680f9ff51b), true, limbs(0x93727df4a766af4, 0x431d9ed40b6e7325, 0xa81141043c89f170, 0xf96e1bee838a50ca));
    let e2: nat = 2 * e1 + 1;
    assert((limbs(0x93727df4a766af4, 0x431d9ed40b6e7325, 0xa81141043c89f170, 0xf96e1bee838a50ca) * limbs(0x93727df4a766af4, 0x431d9ed40b6e7325, 0xa81141043c89f170, 0xf96e1bee838a50ca) * 4) % modulus_limbs() == limbs(0x8fca48c6b6dbac2, 0x98d608b9aaad1859, 0x31fbf9a780630015, 0x7537f8da407652f6)) by (nonlinear_arith);
    lemma_power_step(e2, limbs(0x93727df4a766af4, 0x431d9ed40b6e7325, 0xa81141043c89f170, 0xf96e1bee838a50ca), true, limbs(0x8fca48c6b6dbac2, 0x98d608b9aaad1859, 0x31fbf9a780630015, 0x7537f8da407652f6));
    let e3: nat = 2 * e2 + 1;
    assert((limbs(0x8fca48c6b6dbac2, 0x98d608b9aaad1859, 0x31fbf9a780630015, 0x7537f8da407652f6) * limbs(0x8fca48c6b6dbac2, 0x98d608b9aaad1859, 0x31fbf9a780630015, 0x7537f8da407652f6) * 1) % modulus_limbs() == limbs(0x1296489f1bf84508, 0xaeffaf770c59bf44, 0x44bf0e61c017f837, 0x7f016cd31484e892)) by (nonlinear_arith);
    lemma_power_step(e3, limbs(0x8fca48c6b6dbac2, 0x98d608b9aaad1859, 0x31fbf9a780630015, 0x7537f8da407652f6), false, limbs(0x1296489f1bf84508, 0xaeffaf770c59bf44, 0x44bf0e61c017f837, 0x7f016cd31484e892));
    let e4: nat = 2 * e3 + 0;
    assert((limbs(0x1296489f1bf84508, 0xaeffaf770c59bf44, 0x44bf0e61c017f837, 0x7f016cd31484e892) * limbs(0x1296489f1bf84508, 0xaeffaf770c59bf44, 0x44bf0e61c017f837, 0x7f016cd31484e892) * 1) % modulus_limbs() == limbs(0xb31f5cc326e5d07, 0x5cf1f7bdc849b320, 0xd9021d0fb8414c71, 0x8e0208622e223b23)) by (nonlinear_arith);
    lemma_power_step(e4, limbs(0x1296489f1bf84508, 0xaeffaf770c59bf44, 0x44bf0e61c017f837, 0x7f016cd31484e892), false, limbs(0xb31f5cc326e5d07, 0x5cf1f7bdc849b320, 0xd9021d0fb8414c71, 0x8e0208622e223b23));
    let e5: nat = 2 * e4 + 0;
    assert((limbs(0xb31f5cc326e5d07, 0x5cf1f7bdc849b320, 0xd9021d0fb8414c71, 0x8e0208622e223b23) * limbs(0xb31f5cc326e5d07, 0x5cf1f7bdc849b320, 0xd9021d0fb8414c71, 0x8e0208622e223b23) * 1) % modulus_limbs() == limbs(0x2e5a47e6a22ce659, 0x989b118d34fa2757, 0x7cd72c74c755c4a5, 0x4313caf915c9e33e)) by (nonlinear_arith);
    lemma_power_step(e5, limbs(0xb31f5cc326e5d07, 0x5cf1f7bdc849b320, 0xd9021d0fb8414c71, 0x8e0208622e223b23), false, limbs(0x2e5a47e6a22ce659, 0x989b118d34fa2757, 0x7cd72c74c755c4a5, 0x4313caf915c9e33e));
    let e6: nat = 2 * e5 + 0;
    assert((limbs(0x2e5a47e6a22ce659, 0x989b118d34fa2757, 0x7cd72c74c755c4a5, 0x4313caf915c9e33e) * limbs(0x2e5a47e6a22ce659, 0x989b118d34fa2757, 0x7cd72c74c755c4a5, 0x4313caf915c9e33e) * 1) % modulus_limbs() == limbs(0x1e1ef4ff231464fc, 0x9ae2d8ff5105fdf1, 0x1ca4429de0fd6ecb, 0xa5751d91f848d7d9)) by (nonlinear_arith);
    lemma_power_step(e6, limbs(0x2e5a47e6a22ce659, 0x989b118d34fa2757, 0x7cd72c74c755c4a5, 0x4313caf915c9e33e), false, limbs(0x1e1ef4ff231464fc, 0x9ae2d8ff5105fdf1, 0x1ca4429de0fd6ecb, 0xa5751d91f848d7d9));
    let e7: nat = 2 * e6 + 0;
    assert((limbs(0x1e1ef4ff231464fc, 0x9ae2d8ff5105fdf1, 0x1ca4429de0fd6ecb, 0xa5751d91f848d7d9) * limbs(0x1e1ef4ff231464fc, 0x9ae2d8ff5105fdf1, 0x1ca4429de0fd6ecb, 0xa5751d91f848d7d9) * 4) % modulus_limbs() == limbs(0xf7506aa27080d7b, 0x7e11318a8a3529dc, 0x4400fa47b82f286d, 0x932fc504caae4ba4)) by (nonlinear_arith);
    lemma_power_step(e7, limbs(0x1e1ef4ff231464fc, 0x9ae2d8ff5105fdf1, 0x1ca4429de0fd6ecb, 0xa5751d91f848d7d9), true, limbs(0xf7506aa27080d7b, 0x7e11318a8a3529dc, 0x4400fa47b82f286d, 0x932fc504caae4ba4));
    let e8: nat = 2 * e7 + 1;
    assert((limbs(0xf7506aa27080d7b, 0x7e11318a8a3529dc, 0x4400fa47b82f286d, 0x932fc504caae4ba4) * limbs(0xf7506aa27080d7b, 0x7e11318a8a3529dc, 0x4400fa47b82f286d, 0x932fc504caae4ba4) * 4) % modulus_limbs() == limbs(0xc10f87a1161804a, 0xd57c7e9238bd919, 0x1dd7462403f7d413, 0x3d4fa8add75bdd22)) by (nonlinear_arith);
    lemma_power_step(e8, limbs(0xf7506aa27080d7b, 0x7e11318a8a3529dc, 0x4400fa47b82f286d, 0x932fc504caae4ba4), true, limbs(0xc10f87a1161804a, 0xd57c7e9238bd919, 0x1dd7462403f7d413, 0x3d4fa8add75bdd22));
    let e9: nat = 2 * e8 + 1;
    assert((limbs(0xc10f87a1161804a, 0xd57c7e9238bd919, 0x1dd7462403f7d413, 0x3d4fa8add75bdd22) * limbs(0xc10f87a1161804a, 0xd57c7e9238bd919, 0x1dd7462403f7d413, 0x3d4fa8add75bdd22) * 4) % modulus_limbs() == limbs(0x691c121ea3734f3, 0xf25a974bad901e40, 0x6ba0f4fed87e4f62, 0x8792ed8ae2869dff)) by (nonlinear_arith);
    lemma_power_step(e9, limbs(0xc10f87a1161804a, 0xd57c7e9238bd919, 0x1dd7462403f7d413, 0x3d4fa8add75bdd22), true, limbs(0x691c121ea3734f3, 0xf25a974bad901e40, 0x6ba0f4fed87e4f62, 0x8792ed8ae2869dff));
    let e10: nat = 2 * e9 + 1;
    assert((limbs(0x691c121ea3734f3, 0xf25a974bad901e40, 0x6ba0f4fed87e4f62, 0x8792ed8ae2869dff) * limbs(0x691c121ea3734f3, 0xf25a974bad901e40, 0x6ba0f4fed87e4f62, 0x8792ed8ae2869dff) * 4) % modulus_limbs() == limbs(0xd0810c4ba503d25, 0x430729188ee5afb4, 0xeeaf63fa1daa8eac, 0xb95a435b48160d1d)) by (nonlinear_arith);
    lemma_power_step(e10, limbs(0x691c121ea3734f3, 0xf25a974bad901e40, 0x6ba0f4fed87e4f62, 0x8792ed8ae2869dff), true, limbs(0xd0810c4ba503d25, 0x430729188ee5afb4, 0xeeaf63fa1daa8eac, 0xb95a435b48160d1d));
    let e11: nat = 2 * e10 + 1;
    assert((limbs(0xd0810c4ba503d25, 0x430729188ee5afb4, 0xeeaf63fa1daa8eac, 0xb95a435b48160d1d) * limbs(0xd0810c4ba503d25, 0x430729188ee5afb4, 0xeeaf63fa1daa8eac, 0xb95a435b48160d1d) * 4) % modulus_limbs() == limbs(0xc5ec73096c4561, 0xc005dcadc2ca4c01, 0xd2d8f3d9bb5bdf3a, 0xa8e38e6eba0b1d21)) by (nonlinear_arith);
    lemma_power_step(e11, limbs(0xd0810c4ba503d25, 0x430729188ee5afb4, 0xeeaf63fa1daa8eac, 0xb95a435b48160d1d), true, limbs(0xc5ec73096c4561, 0xc005dcadc2ca4c01, 0xd2d8f3d9bb5bdf3a, 0xa8e38e6eba0b1d21));
    let e12: nat = 2 * e11 + 1;
    assert((limbs(0xc5ec73096c4561, 0xc005dcadc2ca4c01, 0xd2d8f3d9bb5bdf3a, 0xa8e38e6eba0b1d21) * limbs(0xc5ec73096c4561, 0xc005dcadc2ca4c01, 0xd2d8f3d9bb5bdf3a, 0xa8e38e6eba0b1d21) * 1) % modulus_limbs() == limbs(0x88a3ceb4d849b9, 0x1219d8cc9e569b97, 0x7b0c9212542f9141, 0x1870401927edcc74)) by (nonlinear_arith);
    lemma_power_step(e12, limbs(0xc5ec73096c4561, 0xc005dcadc2ca4c01, 0xd2d8f3d9bb5bdf3a, 0xa8e38e6eba0b1d21), false, limbs(0x88a3ceb4d849b9, 0x1219d8cc9e569b97, 0x7b0c9212542f9141, 0x1870401927edcc74));
    let e13: nat = 2 * e12 + 0;
    assert((limbs(0x88a3ceb4d849b9, 0x1219d8cc9e569b97, 0x7b0c9212542f9141, 0x1870401927edcc74) * limbs(0x88a3ceb4d849b9, 0x1219d8cc9e569b97, 0x7b0c9212542f9141, 0x1870401927edcc74) * 1) % modulus_limbs() == limbs(0x2e8a0576e9dc53a7, 0xd71e1a4d86a8bd42, 0xaecd8bafc481ef79, 0x888fc74b5c892797)) by (nonlinear_arith);
    lemma_power_step(e13, limbs(0x88a3ceb4d849b9, 0x1219d8cc9e569b97, 0x7b0c9212542f9141, 0x1870401927edcc74), false, limbs(0x2e8a0576e9dc53a7, 0xd71e1a4d86a8bd42, 0xaecd8bafc481ef79, 0x888fc74b5c892797));
    let e14: nat = 2 * e13 + 0;
    assert((limbs(0x2e8a0576e9dc53a7, 0xd71e1a4d86a8bd42, 0xaecd8bafc481ef79, 0x888fc74b5c892797) * limbs(0x2e8a0576e9dc53a7, 0xd71e1a4d86a8bd42, 0xaecd8bafc481ef79, 0x888fc74b5c892797) * 4) % modulus_limbs() == limbs(0x15112cda8393b5b8, 0xa73f8b8594c2aec0, 0xee5ee3699d3bb3bf, 0x89bbd694df1e7ad0)) by (nonlinear_arith);
    lemma_power_step(e14, limbs(0x2e8a0576e9dc53a7, 0xd71e1a4d86a8bd42, 0xaecd8bafc481ef79, 0x888fc74b5c892797), true, limbs(0x15112cda8393b5b8, 0xa73f8b8594c2aec0, 0xee5ee3699d3bb3bf, 0x89bbd694df1e7ad0));
    let e15: nat = 2 * e14 + 1;
    assert((limbs(0x15112cda8393b5b8, 0xa73f8b8594c2aec0, 0xee5ee3699d3bb3bf, 0x89bbd694df1e7ad0) * limbs(0x15112cda8393b5b8, 0xa73f8b8594c2aec0, 0xee5ee3699d3bb3bf, 0x89bbd694df1e7ad0) * 4) % modulus_limbs() == limbs(0x2e83e2ff8a2a0443, 0xe7f8f160eef21c39, 0x398e81a1d07b3231, 0x81dea9181766ddb2)) by (nonlinear_arith);
    lemma_power_step(e15, limbs(0x15112cda8393b5b8, 0xa73f8b8594c2aec0, 0xee5ee3699d3bb3bf, 0x89bbd694df1e7ad0), true, limbs(0x2e83e2ff8a2a0443, 0xe7f8f160eef21c39, 0x398e81a1d07b3231, 0x81dea9181766ddb2));
    let e16: nat = 2 * e15 + 1;
    assert(e16 == limbs(0xc19139cb84c6, 0x80a6e14116da0605, 0x61765e05aa45a1c7, 0x2a34f082305b61f3));
}

/// Digits 241 to 253 of the exponent.
proof fn lemma_power_part_16()
    ensures
        pow(4, limbs(0x183227397098d014, 0xdc2822db40c0ac2e, 0xcbc0b548b438e546, 0x9e10460b6c3e7ea3) as nat) % modulus_limbs() == limbs(0x0, 0x0, 0x0, 0x1),
{
    lemma_power_part_15();
    let e0: nat = limbs(0xc19139cb84c6, 0x80a6e14116da0605, 0x61765e05aa45a1c7, 0x2a34f082305b61f3) as nat;
    assert((limbs(0x2e83e2ff8a2a0443, 0xe7f8f160eef21c39, 0x398e81a1d07b3231, 0x81dea9181766ddb2) * limbs(0x2e83e2ff8a2a0443, 0xe7f8f160eef21c39, 0x398e81a1d07b3231, 0x81dea9181766ddb2) * 4) % modulus_limbs() == limbs(0x26546594915852ab, 0x5f3e5806d18ef0ef, 0x4c38f599e40f167, 0xc8efd7aecc428edf)) by (nonlinear_arith);
    lemma_power_step(e0, limbs(0x2e83e2ff8a2a0443, 0xe7f8f160eef21c39, 0x398e81a1d07b3231, 0x81dea9181766ddb2), true, limbs(0x26546594915852ab, 0x5f3e5806d18ef0ef, 0x4c38f599e40f167, 0xc8efd7aecc428edf));
    let e1: nat = 2 * e0 + 1;
    assert((limbs(0x26546594915852ab, 0x5f3e5806d18ef0ef, 0x4c38f599e40f167, 0xc8efd7aecc428edf) * limbs(0x26546594915852ab, 0x5f3e5806d18ef0ef, 0x4c38f599e40f167, 0xc8efd7aecc428edf) * 4) % modulus_limbs() == limbs(0xfc4aa106d580648, 0xaff2a487506b34cb, 0xcf6d0a7a86e34ec5, 0x17e52f0106f5fcf9)) by (nonlinear_arith);
    lemma_power_step(e1, limbs(0x26546594915852ab, 0x5f3e5806d18ef0ef, 0x4c38f599e40f167, 0xc8efd7aecc428edf), true, limbs(0xfc4aa106d580648, 0xaff2a487506b34cb, 0xcf6d0a7a86e34ec5, 0x17e52f0106f5fcf9));
    let e2: nat = 2 * e1 + 1;
    assert((limbs(0xfc4aa106d580648, 0xaff2a487506b34cb, 0xcf6d0a7a86e34ec5, 0x17e52f0106f5fcf9) * limbs(0xfc4aa106d580648, 0xaff2a487506b34cb, 0xcf6d0a7a86e34ec5, 0x17e52f0106f5fcf9) * 4) % modulus_limbs() == limbs(0x7d191e15e9a82f6, 0x7287d353efa367c3, 0x6917a44f669cc735, 0x82d29dbe1a3bc740)) by (nonlinear_arith);
    lemma_power_step(e2, limbs(0xfc4aa106d580648, 0xaff2a487506b34cb, 0xcf6d0a7a86e34ec5, 0x17e52f0106f5fcf9), true, limbs(0x7d191e15e9a82f6, 0x7287d353efa367c3, 0x6917a44f669cc735, 0x82d29dbe1a3bc740));
    let e3: nat = 2 * e2 + 1;
    assert((limbs(0x7d191e15e9a82f6, 0x7287d353efa367c3, 0x6917a44f669cc735, 0x82d29dbe1a3bc740) * limbs(0x7d191e15e9a82f6, 0x7287d353efa367c3, 0x6917a44f669cc735, 0x82d29dbe1a3bc740) * 4) % modulus_limbs() == limbs(0x3fe17dbd1fef834, 0xd6c48fc772d40e0f, 0x856fe070e32d6161, 0x1a72e958a1a3ae85)) by (nonlinear_arith);
    lemma_power_step(e3, limbs(0x7d191e15e9a82f6, 0x7287d353efa367c3, 0x6917a44f669cc735, 0x82d29dbe1a3bc740), true, limbs(0x3fe17dbd1fef834, 0xd6c48fc772d40e0f, 0x856fe070e32d6161, 0x1a72e958a1a3ae85));
    let e4: nat = 2 * e3 + 1;
    assert((limbs(0x3fe17dbd1fef834, 0xd6c48fc772d40e0f, 0x856fe070e32d6161, 0x1a72e958a1a3ae85) * limbs(0x3fe17dbd1fef834, 0xd6c48fc772d40e0f, 0x856fe070e32d6161, 0x1a72e958a1a3ae85) * 1) % modulus_limbs() == limbs(0x2b33473626f63ba1, 0xb317e78d9ee1f710, 0x2f70f9ea59dbdd2c, 0x45ed75d9fe9cde8b)) by (nonlinear_arith);
    lemma_power_step(e4, limbs(0x3fe17dbd1fef834, 0xd6c48fc772d40e0f, 0x856fe070e32d6161, 0x1a72e958a1a3ae85), false, limbs(0x2b33473626f63ba1, 0xb317e78d9ee1f710, 0x2f70f9ea59dbdd2c, 0x45ed75d9fe9cde8b));
    let e5: nat = 2 * e4 + 0;
    assert((limbs(0x2b33473626f63ba1, 0xb317e78d9ee1f710, 0x2f70f9ea59dbdd2c, 0x45ed75d9fe9cde8b) * limbs(0x2b33473626f63ba1, 0xb317e78d9ee1f710, 0x2f70f9ea59dbdd2c, 0x45ed75d9fe9cde8b) * 4) % modulus_limbs() == limbs(0x25b30c36d73ba1d2, 0x680b160ca189cd9d, 0x8160160371e4d6c1, 0x6d19f96d6f14b664)) by (nonlinear_arith);
    lemma_power_step(e5, limbs(0x2b33473626f63ba1, 0xb317e78d9ee1f710, 0x2f70f9ea59dbdd2c, 0x45ed75d9fe9cde8b), true, limbs(0x25b30c36d73ba1d2, 0x680b160ca189cd9d, 0x8160160371e4d6c1, 0x6d19f96d6f14b664));
    let e6: nat = 2 * e5 + 1;
    assert((limbs(0x25b30c36d73ba1d2, 0x680b160ca189cd9d, 0x8160160371e4d6c1, 0x6d19f96d6f14b664) * limbs(0x25b30c36d73ba1d2, 0x680b160ca189cd9d, 0x8160160371e4d6c1, 0x6d19f96d6f14b664) * 1) % modulus_limbs() == limbs(0x10965cd8d1f44a9e, 0xed40914fb33b00bd, 0xce0f9d3bd6368752, 0x876b07c81ce684d5)) by (nonlinear_arith);
    lemma_power_step(e6, limbs(0x25b30c36d73ba1d2, 0x680b160ca189cd9d, 0x8160160371e4d6c1, 0x6d19f96d6f14b664), false, limbs(0x10965cd8d1f44a9e, 0xed40914fb33b00bd, 0xce0f9d3bd6368752, 0x876b07c81ce684d5));
    let e7: nat = 2 * e6 + 0;
    assert((limbs(0x10965cd8d1f44a9e, 0xed40914fb33b00bd, 0xce0f9d3bd6368752, 0x876b07c81ce684d5) * limbs(0x10965cd8d1f44a9e, 0xed40914fb33b00bd, 0xce0f9d3bd6368752, 0x876b07c81ce684d5) * 4) % modulus_limbs() == limbs(0x61a81bea44b6c65, 0xb785452cae2284c2, 0x35d844c9645cf202, 0xe2ced688c3b24547)) by (nonlinear_arith);
    lemma_power_step(e7, limbs(0x10965cd8d1f44a9e, 0xed40914fb33b00bd, 0xce0f9d3bd6368752, 0x876b07c81ce684d5), true, limbs(0x61a81bea44b6c65, 0xb785452cae2284c2, 0x35d844c9645cf202, 0xe2ced688c3b24547));
    let e8: nat = 2 * e7 + 1;
    assert((limbs(0x61a81bea44b6c65, 0xb785452cae2284c2, 0x35d844c9645cf202, 0xe2ced688c3b24547) * limbs(0x61a81bea44b6c65, 0xb785452cae2284c2, 0x35d844c9645cf202, 0xe2ced688c3b24547) * 1) % modulus_limbs() == limbs(0x2cb82075dc30f4d3, 0x1cd235db14a45394, 0x7a040582bf3e48c8, 0x60673e8800bdb588)) by (nonlinear_arith);
    lemma_power_step(e8, limbs(0x61a81bea44b6c65, 0xb785452cae2284c2, 0x35d844c9645cf202, 0xe2ced688c3b24547), false, limbs(0x2cb82075dc30f4d3, 0x1cd235db14a45394, 0x7a040582bf3e48c8, 0x60673e8800bdb588));
    let e9: nat = 2 * e8 + 0;
    assert((limbs(0x2cb82075dc30f4d3, 0x1cd235db14a45394, 0x7a040582bf3e48c8, 0x60673e8800bdb588) * limbs(0x2cb82075dc30f4d3, 0x1cd235db14a45394, 0x7a040582bf3e48c8, 0x60673e8800bdb588) * 1) % modulus_limbs() == limbs(0x4c8b683e9e78be2, 0xb744b1e491c64111, 0x6b5a1ed1831ccc0a, 0x187318f7f3609c55)) by (nonlinear_arith);
    lemma_power_step(e9, limbs(0x2cb82075dc30f4d3, 0x1cd235db14a45394, 0x7a040582bf3e48c8, 0x60673e8800bdb588), false, limbs(0x4c8b683e9e78be2, 0xb744b1e491c64111, 0x6b5a1ed1831ccc0a, 0x187318f7f3609c55));
    let e10: nat = 2 * e9 + 0;
    assert((limbs(0x4c8b683e9e78be2, 0xb744b1e491c64111, 0x6b5a1ed1831ccc0a, 0x187318f7f3609c55) * limbs(0x4c8b683e9e78be2, 0xb744b1e491c64111, 0x6b5a1ed1831ccc0a, 0x187318f7f3609c55) * 1) % modulus_limbs() == limbs(0x2e3299c761467108, 0xaa141de9fb641dc3, 0xdec239e984fdcf82, 0x1062039bb5575445)) by (nonlinear_arith);
    lemma_power_step(e10, limbs(0x4c8b683e9e78be2, 0xb744b1e491c64111, 0x6b5a1ed1831ccc0a, 0x187318f7f3609c55), false, limbs(0x2e3299c761467108, 0xaa141de9fb641dc3, 0xdec239e984fdcf82, 0x1062039bb5575445));
    let e11: nat = 2 * e10 + 0;
    assert((limbs(0x2e3299c761467108, 0xaa141de9fb641dc3, 0xdec239e984fdcf82, 0x1062039bb5575445) * limbs(0x2e3299c761467108, 0xaa141de9fb641dc3, 0xdec239e984fdcf82, 0x1062039bb5575445) * 4) % modulus_limbs() == limbs(0x183227397098d014, 0xdc2822db40c0ac2e, 0xcbc0b548b438e546, 0x9e10460b6c3e7ea4)) by (nonlinear_arith);
    lemma_power_step(e11, limbs(0x2e3299c761467108, 0xaa141de9fb641dc3, 0xdec239e984fdcf82, 0x1062039bb5575445), true, limbs(0x183227397098d014, 0xdc2822db40c0ac2e, 0xcbc0b548b438e546, 0x9e10460b6c3e7ea4));
    let e12: nat = 2 * e11 + 1;
    assert((limbs(0x183227397098d014, 0xdc2822db40c0ac2e, 0xcbc0b548b438e546, 0x9e10460b6c3e7ea4) * limbs(0x183227397098d014, 0xdc2822db40c0ac2e, 0xcbc0b548b438e546, 0x9e10460b6c3e7ea4) * 4) % modulus_limbs() == limbs(0x0, 0x0, 0x0, 0x1)) by (nonlinear_arith);
    lemma_power_step(e12, limbs(0x183227397098d014, 0xdc2822db40c0ac2e, 0xcbc0b548b438e546, 0x9e10460b6c3e7ea4), true, limbs(0x0, 0x0, 0x0, 0x1));
    let e13: nat = 2 * e12 + 1;
    assert(e13 == limbs(0x183227397098d014, 0xdc2822db40c0ac2e, 0xcbc0b548b438e546, 0x9e10460b6c3e7ea3));
}

/// Four raised to half the order of the multiplicative group is one.
pub proof fn lemma_four_is_a_square()
    ensures
        pow(4, ((field_modulus() - 1) / 2) as nat) % (field_modulus() as int) == 1,
{
    lemma_power_part_16();
    lemma_modulus_limbs();
    reveal(field_modulus);
    assert(limbs(0x183227397098d014, 0xdc2822db40c0ac2e, 0xcbc0b548b438e546, 0x9e10460b6c3e7ea3) == (field_modulus() - 1) / 2);
}

/// The number one above the order of the field is the abscissa of a point:
/// there `x^3 + 3` is four.
pub proof fn lemma_above_modulus_is_abscissa()
    ensures
        is_abscissa(field_modulus() + 1),
{
    let p = field_modulus() as int;
    lemma_modulus_limbs();
    lemma_four_is_a_square();
    lemma_pow_mod_noop(p + 1, 3, p);
    lemma_mod_self_0(p);
    lemma_add_mod_noop(p, 1, p);
    lemma_small_mod(1, p as nat);
    assert((p + 1) % p == 1);
    lemma1_pow(3);
    lemma_small_mod(4, p as nat);
}

/// The search for a point ends at a point, and passes over none: what it
/// gives is the first abscissa of a point at or above its start.
pub proof fn lemma_abscissa_found(a: nat)
    requires
        a <= field_modulus() + 1,
    ensures
        is_abscissa(abscissa_from(a)),
        a <= abscissa_from(a) <= field_modulus() + 1,
        forall|b: nat| a <= b < abscissa_from(a) ==> !is_abscissa(b),
    decreases field_modulus() + 1 - a,
{
    lemma_above_modulus_is_abscissa();
    if !(a > field_modulus() || is_abscissa(a)) {
        lemma_abscissa_found(a + 1);
    }
}

} // verus!
