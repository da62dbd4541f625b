//! Boundary-value checks for the sample conversion engine: each
//! format's minimum, midpoint and maximum converted to every other
//! fixed-point format.

use catalina_engine::sample::conv::{
    i16_to_i24, i16_to_i32, i16_to_i48, i16_to_i64, i16_to_i8, i16_to_u16, i16_to_u24, i16_to_u32,
    i16_to_u48, i16_to_u64, i16_to_u8, i24_to_i16, i24_to_i32, i24_to_i48, i24_to_i64, i24_to_i8,
    i24_to_u16, i24_to_u24, i24_to_u32, i24_to_u48, i24_to_u64, i24_to_u8, i32_to_i16, i32_to_i24,
    i32_to_i48, i32_to_i64, i32_to_i8, i32_to_u16, i32_to_u24, i32_to_u32, i32_to_u48, i32_to_u64,
    i32_to_u8, i48_to_i16, i48_to_i24, i48_to_i32, i48_to_i64, i48_to_i8, i48_to_u16, i48_to_u24,
    i48_to_u32, i48_to_u48, i48_to_u64, i48_to_u8, i64_to_i16, i64_to_i24, i64_to_i32, i64_to_i48,
    i64_to_i8, i64_to_u16, i64_to_u24, i64_to_u32, i64_to_u48, i64_to_u64, i64_to_u8, i8_to_i16,
    i8_to_i24, i8_to_i32, i8_to_i48, i8_to_i64, i8_to_u16, i8_to_u24, i8_to_u32, i8_to_u48,
    i8_to_u64, i8_to_u8, u16_to_i16, u16_to_i24, u16_to_i32, u16_to_i48, u16_to_i64, u16_to_i8,
    u16_to_u24, u16_to_u32, u16_to_u48, u16_to_u64, u16_to_u8, u24_to_i16, u24_to_i24, u24_to_i32,
    u24_to_i48, u24_to_i64, u24_to_i8, u24_to_u16, u24_to_u32, u24_to_u48, u24_to_u64, u24_to_u8,
    u32_to_i16, u32_to_i24, u32_to_i32, u32_to_i48, u32_to_i64, u32_to_i8, u32_to_u16, u32_to_u24,
    u32_to_u48, u32_to_u64, u32_to_u8, u48_to_i16, u48_to_i24, u48_to_i32, u48_to_i48, u48_to_i64,
    u48_to_i8, u48_to_u16, u48_to_u24, u48_to_u32, u48_to_u64, u48_to_u8, u64_to_i16, u64_to_i24,
    u64_to_i32, u64_to_i48, u64_to_i64, u64_to_i8, u64_to_u16, u64_to_u24, u64_to_u32, u64_to_u48,
    u64_to_u8, u8_to_i16, u8_to_i24, u8_to_i32, u8_to_i48, u8_to_i64, u8_to_i8, u8_to_u16,
    u8_to_u24, u8_to_u32, u8_to_u48, u8_to_u64, Duplex, FromSample, ToSample,
};
use catalina_engine::sample::types::{I24, I48, U24, U48};

#[test]
fn conv_i8_boundaries() {
    assert_eq!(i8_to_i16(-128), -32_768);
    assert_eq!(i8_to_i24(-128), I24::new_unchecked(-8_388_608));
    assert_eq!(i8_to_i32(-128), -2_147_483_648);
    assert_eq!(i8_to_i48(-128), I48::new_unchecked(-140_737_488_355_328));
    assert_eq!(i8_to_i64(-128), i64::MIN);
    assert_eq!(i8_to_u8(-128), 0);
    assert_eq!(i8_to_u16(-128), 0);
    assert_eq!(i8_to_u24(-128), U24::new_unchecked(0));
    assert_eq!(i8_to_u32(-128), 0);
    assert_eq!(i8_to_u48(-128), U48::new_unchecked(0));
    assert_eq!(i8_to_u64(-128), 0u64);
    assert_eq!(i8_to_i16(0), 0);
    assert_eq!(i8_to_i24(0), I24::new_unchecked(0));
    assert_eq!(i8_to_i32(0), 0);
    assert_eq!(i8_to_i48(0), I48::new_unchecked(0));
    assert_eq!(i8_to_i64(0), 0);
    assert_eq!(i8_to_u8(0), 128);
    assert_eq!(i8_to_u16(0), 32_768);
    assert_eq!(i8_to_u24(0), U24::new_unchecked(8_388_608));
    assert_eq!(i8_to_u32(0), 2_147_483_648);
    assert_eq!(i8_to_u48(0), U48::new_unchecked(140_737_488_355_328));
    assert_eq!(i8_to_u64(0), 9_223_372_036_854_775_808u64);
    assert_eq!(i8_to_i16(127), 32_512);
    assert_eq!(i8_to_i24(127), I24::new_unchecked(8_323_072));
    assert_eq!(i8_to_i32(127), 2_130_706_432);
    assert_eq!(i8_to_i48(127), I48::new_unchecked(139_637_976_727_552));
    assert_eq!(i8_to_i64(127), 9_151_314_442_816_847_872);
    assert_eq!(i8_to_u8(127), 255);
    assert_eq!(i8_to_u16(127), 65_280);
    assert_eq!(i8_to_u24(127), U24::new_unchecked(16_711_680));
    assert_eq!(i8_to_u32(127), 4_278_190_080);
    assert_eq!(i8_to_u48(127), U48::new_unchecked(280_375_465_082_880));
    assert_eq!(i8_to_u64(127), 18_374_686_479_671_623_680u64);
}

#[test]
fn conv_i16_boundaries() {
    assert_eq!(i16_to_i8(-32_768), -128);
    assert_eq!(i16_to_i24(-32_768), I24::new_unchecked(-8_388_608));
    assert_eq!(i16_to_i32(-32_768), -2_147_483_648);
    assert_eq!(i16_to_i48(-32_768), I48::new_unchecked(-140_737_488_355_328));
    assert_eq!(i16_to_i64(-32_768), i64::MIN);
    assert_eq!(i16_to_u8(-32_768), 0);
    assert_eq!(i16_to_u16(-32_768), 0);
    assert_eq!(i16_to_u24(-32_768), U24::new_unchecked(0));
    assert_eq!(i16_to_u32(-32_768), 0);
    assert_eq!(i16_to_u48(-32_768), U48::new_unchecked(0));
    assert_eq!(i16_to_u64(-32_768), 0u64);
    assert_eq!(i16_to_i8(0), 0);
    assert_eq!(i16_to_i24(0), I24::new_unchecked(0));
    assert_eq!(i16_to_i32(0), 0);
    assert_eq!(i16_to_i48(0), I48::new_unchecked(0));
    assert_eq!(i16_to_i64(0), 0);
    assert_eq!(i16_to_u8(0), 128);
    assert_eq!(i16_to_u16(0), 32_768);
    assert_eq!(i16_to_u24(0), U24::new_unchecked(8_388_608));
    assert_eq!(i16_to_u32(0), 2_147_483_648);
    assert_eq!(i16_to_u48(0), U48::new_unchecked(140_737_488_355_328));
    assert_eq!(i16_to_u64(0), 9_223_372_036_854_775_808u64);
    assert_eq!(i16_to_i8(32_767), 127);
    assert_eq!(i16_to_i24(32_767), I24::new_unchecked(8_388_352));
    assert_eq!(i16_to_i32(32_767), 2_147_418_112);
    assert_eq!(i16_to_i48(32_767), I48::new_unchecked(140_733_193_388_032));
    assert_eq!(i16_to_i64(32_767), 9_223_090_561_878_065_152);
    assert_eq!(i16_to_u8(32_767), 255);
    assert_eq!(i16_to_u16(32_767), 65_535);
    assert_eq!(i16_to_u24(32_767), U24::new_unchecked(16_776_960));
    assert_eq!(i16_to_u32(32_767), 4_294_901_760);
    assert_eq!(i16_to_u48(32_767), U48::new_unchecked(281_470_681_743_360));
    assert_eq!(i16_to_u64(32_767), 18_446_462_598_732_840_960u64);
}

#[test]
fn conv_i24_boundaries() {
    assert_eq!(i24_to_i8(I24::new_unchecked(-8_388_608)), -128);
    assert_eq!(i24_to_i16(I24::new_unchecked(-8_388_608)), -32_768);
    assert_eq!(i24_to_i32(I24::new_unchecked(-8_388_608)), -2_147_483_648);
    assert_eq!(i24_to_i48(I24::new_unchecked(-8_388_608)), I48::new_unchecked(-140_737_488_355_328));
    assert_eq!(i24_to_i64(I24::new_unchecked(-8_388_608)), i64::MIN);
    assert_eq!(i24_to_u8(I24::new_unchecked(-8_388_608)), 0);
    assert_eq!(i24_to_u16(I24::new_unchecked(-8_388_608)), 0);
    assert_eq!(i24_to_u24(I24::new_unchecked(-8_388_608)), U24::new_unchecked(0));
    assert_eq!(i24_to_u32(I24::new_unchecked(-8_388_608)), 0);
    assert_eq!(i24_to_u48(I24::new_unchecked(-8_388_608)), U48::new_unchecked(0));
    assert_eq!(i24_to_u64(I24::new_unchecked(-8_388_608)), 0u64);
    assert_eq!(i24_to_i8(I24::new_unchecked(0)), 0);
    assert_eq!(i24_to_i16(I24::new_unchecked(0)), 0);
    assert_eq!(i24_to_i32(I24::new_unchecked(0)), 0);
    assert_eq!(i24_to_i48(I24::new_unchecked(0)), I48::new_unchecked(0));
    assert_eq!(i24_to_i64(I24::new_unchecked(0)), 0);
    assert_eq!(i24_to_u8(I24::new_unchecked(0)), 128);
    assert_eq!(i24_to_u16(I24::new_unchecked(0)), 32_768);
    assert_eq!(i24_to_u24(I24::new_unchecked(0)), U24::new_unchecked(8_388_608));
    assert_eq!(i24_to_u32(I24::new_unchecked(0)), 2_147_483_648);
    assert_eq!(i24_to_u48(I24::new_unchecked(0)), U48::new_unchecked(140_737_488_355_328));
    assert_eq!(i24_to_u64(I24::new_unchecked(0)), 9_223_372_036_854_775_808u64);
    assert_eq!(i24_to_i8(I24::new_unchecked(8_388_607)), 127);
    assert_eq!(i24_to_i16(I24::new_unchecked(8_388_607)), 32_767);
    assert_eq!(i24_to_i32(I24::new_unchecked(8_388_607)), 2_147_483_392);
    assert_eq!(i24_to_i48(I24::new_unchecked(8_388_607)), I48::new_unchecked(140_737_471_578_112));
    assert_eq!(i24_to_i64(I24::new_unchecked(8_388_607)), 9_223_370_937_343_148_032);
    assert_eq!(i24_to_u8(I24::new_unchecked(8_388_607)), 255);
    assert_eq!(i24_to_u16(I24::new_unchecked(8_388_607)), 65_535);
    assert_eq!(i24_to_u24(I24::new_unchecked(8_388_607)), U24::new_unchecked(16_777_215));
    assert_eq!(i24_to_u32(I24::new_unchecked(8_388_607)), 4_294_967_040);
    assert_eq!(i24_to_u48(I24::new_unchecked(8_388_607)), U48::new_unchecked(281_474_959_933_440));
    assert_eq!(i24_to_u64(I24::new_unchecked(8_388_607)), 18_446_742_974_197_923_840u64);
}

#[test]
fn conv_i32_boundaries() {
    assert_eq!(i32_to_i8(-2_147_483_648), -128);
    assert_eq!(i32_to_i16(-2_147_483_648), -32_768);
    assert_eq!(i32_to_i24(-2_147_483_648), I24::new_unchecked(-8_388_608));
    assert_eq!(i32_to_i48(-2_147_483_648), I48::new_unchecked(-140_737_488_355_328));
    assert_eq!(i32_to_i64(-2_147_483_648), i64::MIN);
    assert_eq!(i32_to_u8(-2_147_483_648), 0);
    assert_eq!(i32_to_u16(-2_147_483_648), 0);
    assert_eq!(i32_to_u24(-2_147_483_648), U24::new_unchecked(0));
    assert_eq!(i32_to_u32(-2_147_483_648), 0);
    assert_eq!(i32_to_u48(-2_147_483_648), U48::new_unchecked(0));
    assert_eq!(i32_to_u64(-2_147_483_648), 0u64);
    assert_eq!(i32_to_i8(0), 0);
    assert_eq!(i32_to_i16(0), 0);
    assert_eq!(i32_to_i24(0), I24::new_unchecked(0));
    assert_eq!(i32_to_i48(0), I48::new_unchecked(0));
    assert_eq!(i32_to_i64(0), 0);
    assert_eq!(i32_to_u8(0), 128);
    assert_eq!(i32_to_u16(0), 32_768);
    assert_eq!(i32_to_u24(0), U24::new_unchecked(8_388_608));
    assert_eq!(i32_to_u32(0), 2_147_483_648);
    assert_eq!(i32_to_u48(0), U48::new_unchecked(140_737_488_355_328));
    assert_eq!(i32_to_u64(0), 9_223_372_036_854_775_808u64);
    assert_eq!(i32_to_i8(2_147_483_647), 127);
    assert_eq!(i32_to_i16(2_147_483_647), 32_767);
    assert_eq!(i32_to_i24(2_147_483_647), I24::new_unchecked(8_388_607));
    assert_eq!(i32_to_i48(2_147_483_647), I48::new_unchecked(140_737_488_289_792));
    assert_eq!(i32_to_i64(2_147_483_647), 9_223_372_032_559_808_512);
    assert_eq!(i32_to_u8(2_147_483_647), 255);
    assert_eq!(i32_to_u16(2_147_483_647), 65_535);
    assert_eq!(i32_to_u24(2_147_483_647), U24::new_unchecked(16_777_215));
    assert_eq!(i32_to_u32(2_147_483_647), 4_294_967_295);
    assert_eq!(i32_to_u48(2_147_483_647), U48::new_unchecked(281_474_976_645_120));
    assert_eq!(i32_to_u64(2_147_483_647), 18_446_744_069_414_584_320u64);
}

#[test]
fn conv_i48_boundaries() {
    assert_eq!(i48_to_i8(I48::new_unchecked(-140_737_488_355_328)), -128);
    assert_eq!(i48_to_i16(I48::new_unchecked(-140_737_488_355_328)), -32_768);
    assert_eq!(i48_to_i24(I48::new_unchecked(-140_737_488_355_328)), I24::new_unchecked(-8_388_608));
    assert_eq!(i48_to_i32(I48::new_unchecked(-140_737_488_355_328)), -2_147_483_648);
    assert_eq!(i48_to_i64(I48::new_unchecked(-140_737_488_355_328)), i64::MIN);
    assert_eq!(i48_to_u8(I48::new_unchecked(-140_737_488_355_328)), 0);
    assert_eq!(i48_to_u16(I48::new_unchecked(-140_737_488_355_328)), 0);
    assert_eq!(i48_to_u24(I48::new_unchecked(-140_737_488_355_328)), U24::new_unchecked(0));
    assert_eq!(i48_to_u32(I48::new_unchecked(-140_737_488_355_328)), 0);
    assert_eq!(i48_to_u48(I48::new_unchecked(-140_737_488_355_328)), U48::new_unchecked(0));
    assert_eq!(i48_to_u64(I48::new_unchecked(-140_737_488_355_328)), 0u64);
    assert_eq!(i48_to_i8(I48::new_unchecked(0)), 0);
    assert_eq!(i48_to_i16(I48::new_unchecked(0)), 0);
    assert_eq!(i48_to_i24(I48::new_unchecked(0)), I24::new_unchecked(0));
    assert_eq!(i48_to_i32(I48::new_unchecked(0)), 0);
    assert_eq!(i48_to_i64(I48::new_unchecked(0)), 0);
    assert_eq!(i48_to_u8(I48::new_unchecked(0)), 128);
    assert_eq!(i48_to_u16(I48::new_unchecked(0)), 32_768);
    assert_eq!(i48_to_u24(I48::new_unchecked(0)), U24::new_unchecked(8_388_608));
    assert_eq!(i48_to_u32(I48::new_unchecked(0)), 2_147_483_648);
    assert_eq!(i48_to_u48(I48::new_unchecked(0)), U48::new_unchecked(140_737_488_355_328));
    assert_eq!(i48_to_u64(I48::new_unchecked(0)), 9_223_372_036_854_775_808u64);
    assert_eq!(i48_to_i8(I48::new_unchecked(140_737_488_355_327)), 127);
    assert_eq!(i48_to_i16(I48::new_unchecked(140_737_488_355_327)), 32_767);
    assert_eq!(i48_to_i24(I48::new_unchecked(140_737_488_355_327)), I24::new_unchecked(8_388_607));
    assert_eq!(i48_to_i32(I48::new_unchecked(140_737_488_355_327)), 2_147_483_647);
    assert_eq!(i48_to_i64(I48::new_unchecked(140_737_488_355_327)), 9_223_372_036_854_710_272);
    assert_eq!(i48_to_u8(I48::new_unchecked(140_737_488_355_327)), 255);
    assert_eq!(i48_to_u16(I48::new_unchecked(140_737_488_355_327)), 65_535);
    assert_eq!(i48_to_u24(I48::new_unchecked(140_737_488_355_327)), U24::new_unchecked(16_777_215));
    assert_eq!(i48_to_u32(I48::new_unchecked(140_737_488_355_327)), 4_294_967_295);
    assert_eq!(i48_to_u48(I48::new_unchecked(140_737_488_355_327)), U48::new_unchecked(281_474_976_710_655));
    assert_eq!(i48_to_u64(I48::new_unchecked(140_737_488_355_327)), 18_446_744_073_709_486_080u64);
}

#[test]
fn conv_i64_boundaries() {
    assert_eq!(i64_to_i8(i64::MIN), -128);
    assert_eq!(i64_to_i16(i64::MIN), -32_768);
    assert_eq!(i64_to_i24(i64::MIN), I24::new_unchecked(-8_388_608));
    assert_eq!(i64_to_i32(i64::MIN), -2_147_483_648);
    assert_eq!(i64_to_i48(i64::MIN), I48::new_unchecked(-140_737_488_355_328));
    assert_eq!(i64_to_u8(i64::MIN), 0);
    assert_eq!(i64_to_u16(i64::MIN), 0);
    assert_eq!(i64_to_u24(i64::MIN), U24::new_unchecked(0));
    assert_eq!(i64_to_u32(i64::MIN), 0);
    assert_eq!(i64_to_u48(i64::MIN), U48::new_unchecked(0));
    assert_eq!(i64_to_u64(i64::MIN), 0u64);
    assert_eq!(i64_to_i8(0), 0);
    assert_eq!(i64_to_i16(0), 0);
    assert_eq!(i64_to_i24(0), I24::new_unchecked(0));
    assert_eq!(i64_to_i32(0), 0);
    assert_eq!(i64_to_i48(0), I48::new_unchecked(0));
    assert_eq!(i64_to_u8(0), 128);
    assert_eq!(i64_to_u16(0), 32_768);
    assert_eq!(i64_to_u24(0), U24::new_unchecked(8_388_608));
    assert_eq!(i64_to_u32(0), 2_147_483_648);
    assert_eq!(i64_to_u48(0), U48::new_unchecked(140_737_488_355_328));
    assert_eq!(i64_to_u64(0), 9_223_372_036_854_775_808u64);
    assert_eq!(i64_to_i8(9_223_372_036_854_775_807), 127);
    assert_eq!(i64_to_i16(9_223_372_036_854_775_807), 32_767);
    assert_eq!(i64_to_i24(9_223_372_036_854_775_807), I24::new_unchecked(8_388_607));
    assert_eq!(i64_to_i32(9_223_372_036_854_775_807), 2_147_483_647);
    assert_eq!(i64_to_i48(9_223_372_036_854_775_807), I48::new_unchecked(140_737_488_355_327));
    assert_eq!(i64_to_u8(9_223_372_036_854_775_807), 255);
    assert_eq!(i64_to_u16(9_223_372_036_854_775_807), 65_535);
    assert_eq!(i64_to_u24(9_223_372_036_854_775_807), U24::new_unchecked(16_777_215));
    assert_eq!(i64_to_u32(9_223_372_036_854_775_807), 4_294_967_295);
    assert_eq!(i64_to_u48(9_223_372_036_854_775_807), U48::new_unchecked(281_474_976_710_655));
    assert_eq!(i64_to_u64(9_223_372_036_854_775_807), 18_446_744_073_709_551_615u64);
}

#[test]
fn conv_u8_boundaries() {
    assert_eq!(u8_to_i8(0), -128);
    assert_eq!(u8_to_i16(0), -32_768);
    assert_eq!(u8_to_i24(0), I24::new_unchecked(-8_388_608));
    assert_eq!(u8_to_i32(0), -2_147_483_648);
    assert_eq!(u8_to_i48(0), I48::new_unchecked(-140_737_488_355_328));
    assert_eq!(u8_to_i64(0), i64::MIN);
    assert_eq!(u8_to_u16(0), 0);
    assert_eq!(u8_to_u24(0), U24::new_unchecked(0));
    assert_eq!(u8_to_u32(0), 0);
    assert_eq!(u8_to_u48(0), U48::new_unchecked(0));
    assert_eq!(u8_to_u64(0), 0u64);
    assert_eq!(u8_to_i8(128), 0);
    assert_eq!(u8_to_i16(128), 0);
    assert_eq!(u8_to_i24(128), I24::new_unchecked(0));
    assert_eq!(u8_to_i32(128), 0);
    assert_eq!(u8_to_i48(128), I48::new_unchecked(0));
    assert_eq!(u8_to_i64(128), 0);
    assert_eq!(u8_to_u16(128), 32_768);
    assert_eq!(u8_to_u24(128), U24::new_unchecked(8_388_608));
    assert_eq!(u8_to_u32(128), 2_147_483_648);
    assert_eq!(u8_to_u48(128), U48::new_unchecked(140_737_488_355_328));
    assert_eq!(u8_to_u64(128), 9_223_372_036_854_775_808u64);
    assert_eq!(u8_to_i8(255), 127);
    assert_eq!(u8_to_i16(255), 32_512);
    assert_eq!(u8_to_i24(255), I24::new_unchecked(8_323_072));
    assert_eq!(u8_to_i32(255), 2_130_706_432);
    assert_eq!(u8_to_i48(255), I48::new_unchecked(139_637_976_727_552));
    assert_eq!(u8_to_i64(255), 9_151_314_442_816_847_872);
    assert_eq!(u8_to_u16(255), 65_280);
    assert_eq!(u8_to_u24(255), U24::new_unchecked(16_711_680));
    assert_eq!(u8_to_u32(255), 4_278_190_080);
    assert_eq!(u8_to_u48(255), U48::new_unchecked(280_375_465_082_880));
    assert_eq!(u8_to_u64(255), 18_374_686_479_671_623_680u64);
}

#[test]
fn conv_u16_boundaries() {
    assert_eq!(u16_to_i8(0), -128);
    assert_eq!(u16_to_i16(0), -32_768);
    assert_eq!(u16_to_i24(0), I24::new_unchecked(-8_388_608));
    assert_eq!(u16_to_i32(0), -2_147_483_648);
    assert_eq!(u16_to_i48(0), I48::new_unchecked(-140_737_488_355_328));
    assert_eq!(u16_to_i64(0), i64::MIN);
    assert_eq!(u16_to_u8(0), 0);
    assert_eq!(u16_to_u24(0), U24::new_unchecked(0));
    assert_eq!(u16_to_u32(0), 0);
    assert_eq!(u16_to_u48(0), U48::new_unchecked(0));
    assert_eq!(u16_to_u64(0), 0u64);
    assert_eq!(u16_to_i8(32_768), 0);
    assert_eq!(u16_to_i16(32_768), 0);
    assert_eq!(u16_to_i24(32_768), I24::new_unchecked(0));
    assert_eq!(u16_to_i32(32_768), 0);
    assert_eq!(u16_to_i48(32_768), I48::new_unchecked(0));
    assert_eq!(u16_to_i64(32_768), 0);
    assert_eq!(u16_to_u8(32_768), 128);
    assert_eq!(u16_to_u24(32_768), U24::new_unchecked(8_388_608));
    assert_eq!(u16_to_u32(32_768), 2_147_483_648);
    assert_eq!(u16_to_u48(32_768), U48::new_unchecked(140_737_488_355_328));
    assert_eq!(u16_to_u64(32_768), 9_223_372_036_854_775_808u64);
    assert_eq!(u16_to_i8(65_535), 127);
    assert_eq!(u16_to_i16(65_535), 32_767);
    assert_eq!(u16_to_i24(65_535), I24::new_unchecked(8_388_352));
    assert_eq!(u16_to_i32(65_535), 2_147_418_112);
    assert_eq!(u16_to_i48(65_535), I48::new_unchecked(140_733_193_388_032));
    assert_eq!(u16_to_i64(65_535), 9_223_090_561_878_065_152);
    assert_eq!(u16_to_u8(65_535), 255);
    assert_eq!(u16_to_u24(65_535), U24::new_unchecked(16_776_960));
    assert_eq!(u16_to_u32(65_535), 4_294_901_760);
    assert_eq!(u16_to_u48(65_535), U48::new_unchecked(281_470_681_743_360));
    assert_eq!(u16_to_u64(65_535), 18_446_462_598_732_840_960u64);
}

#[test]
fn conv_u24_boundaries() {
    assert_eq!(u24_to_i8(U24::new_unchecked(0)), -128);
    assert_eq!(u24_to_i16(U24::new_unchecked(0)), -32_768);
    assert_eq!(u24_to_i24(U24::new_unchecked(0)), I24::new_unchecked(-8_388_608));
    assert_eq!(u24_to_i32(U24::new_unchecked(0)), -2_147_483_648);
    assert_eq!(u24_to_i48(U24::new_unchecked(0)), I48::new_unchecked(-140_737_488_355_328));
    assert_eq!(u24_to_i64(U24::new_unchecked(0)), i64::MIN);
    assert_eq!(u24_to_u8(U24::new_unchecked(0)), 0);
    assert_eq!(u24_to_u16(U24::new_unchecked(0)), 0);
    assert_eq!(u24_to_u32(U24::new_unchecked(0)), 0);
    assert_eq!(u24_to_u48(U24::new_unchecked(0)), U48::new_unchecked(0));
    assert_eq!(u24_to_u64(U24::new_unchecked(0)), 0u64);
    assert_eq!(u24_to_i8(U24::new_unchecked(8_388_608)), 0);
    assert_eq!(u24_to_i16(U24::new_unchecked(8_388_608)), 0);
    assert_eq!(u24_to_i24(U24::new_unchecked(8_388_608)), I24::new_unchecked(0));
    assert_eq!(u24_to_i32(U24::new_unchecked(8_388_608)), 0);
    assert_eq!(u24_to_i48(U24::new_unchecked(8_388_608)), I48::new_unchecked(0));
    assert_eq!(u24_to_i64(U24::new_unchecked(8_388_608)), 0);
    assert_eq!(u24_to_u8(U24::new_unchecked(8_388_608)), 128);
    assert_eq!(u24_to_u16(U24::new_unchecked(8_388_608)), 32_768);
    assert_eq!(u24_to_u32(U24::new_unchecked(8_388_608)), 2_147_483_648);
    assert_eq!(u24_to_u48(U24::new_unchecked(8_388_608)), U48::new_unchecked(140_737_488_355_328));
    assert_eq!(u24_to_u64(U24::new_unchecked(8_388_608)), 9_223_372_036_854_775_808u64);
    assert_eq!(u24_to_i8(U24::new_unchecked(16_777_215)), 127);
    assert_eq!(u24_to_i16(U24::new_unchecked(16_777_215)), 32_767);
    assert_eq!(u24_to_i24(U24::new_unchecked(16_777_215)), I24::new_unchecked(8_388_607));
    assert_eq!(u24_to_i32(U24::new_unchecked(16_777_215)), 2_147_483_392);
    assert_eq!(u24_to_i48(U24::new_unchecked(16_777_215)), I48::new_unchecked(140_737_471_578_112));
    assert_eq!(u24_to_i64(U24::new_unchecked(16_777_215)), 9_223_370_937_343_148_032);
    assert_eq!(u24_to_u8(U24::new_unchecked(16_777_215)), 255);
    assert_eq!(u24_to_u16(U24::new_unchecked(16_777_215)), 65_535);
    assert_eq!(u24_to_u32(U24::new_unchecked(16_777_215)), 4_294_967_040);
    assert_eq!(u24_to_u48(U24::new_unchecked(16_777_215)), U48::new_unchecked(281_474_959_933_440));
    assert_eq!(u24_to_u64(U24::new_unchecked(16_777_215)), 18_446_742_974_197_923_840u64);
}

#[test]
fn conv_u32_boundaries() {
    assert_eq!(u32_to_i8(0), -128);
    assert_eq!(u32_to_i16(0), -32_768);
    assert_eq!(u32_to_i24(0), I24::new_unchecked(-8_388_608));
    assert_eq!(u32_to_i32(0), -2_147_483_648);
    assert_eq!(u32_to_i48(0), I48::new_unchecked(-140_737_488_355_328));
    assert_eq!(u32_to_i64(0), i64::MIN);
    assert_eq!(u32_to_u8(0), 0);
    assert_eq!(u32_to_u16(0), 0);
    assert_eq!(u32_to_u24(0), U24::new_unchecked(0));
    assert_eq!(u32_to_u48(0), U48::new_unchecked(0));
    assert_eq!(u32_to_u64(0), 0u64);
    assert_eq!(u32_to_i8(2_147_483_648), 0);
    assert_eq!(u32_to_i16(2_147_483_648), 0);
    assert_eq!(u32_to_i24(2_147_483_648), I24::new_unchecked(0));
    assert_eq!(u32_to_i32(2_147_483_648), 0);
    assert_eq!(u32_to_i48(2_147_483_648), I48::new_unchecked(0));
    assert_eq!(u32_to_i64(2_147_483_648), 0);
    assert_eq!(u32_to_u8(2_147_483_648), 128);
    assert_eq!(u32_to_u16(2_147_483_648), 32_768);
    assert_eq!(u32_to_u24(2_147_483_648), U24::new_unchecked(8_388_608));
    assert_eq!(u32_to_u48(2_147_483_648), U48::new_unchecked(140_737_488_355_328));
    assert_eq!(u32_to_u64(2_147_483_648), 9_223_372_036_854_775_808u64);
    assert_eq!(u32_to_i8(4_294_967_295), 127);
    assert_eq!(u32_to_i16(4_294_967_295), 32_767);
    assert_eq!(u32_to_i24(4_294_967_295), I24::new_unchecked(8_388_607));
    assert_eq!(u32_to_i32(4_294_967_295), 2_147_483_647);
    assert_eq!(u32_to_i48(4_294_967_295), I48::new_unchecked(140_737_488_289_792));
    assert_eq!(u32_to_i64(4_294_967_295), 9_223_372_032_559_808_512);
    assert_eq!(u32_to_u8(4_294_967_295), 255);
    assert_eq!(u32_to_u16(4_294_967_295), 65_535);
    assert_eq!(u32_to_u24(4_294_967_295), U24::new_unchecked(16_777_215));
    assert_eq!(u32_to_u48(4_294_967_295), U48::new_unchecked(281_474_976_645_120));
    assert_eq!(u32_to_u64(4_294_967_295), 18_446_744_069_414_584_320u64);
}

#[test]
fn conv_u48_boundaries() {
    assert_eq!(u48_to_i8(U48::new_unchecked(0)), -128);
    assert_eq!(u48_to_i16(U48::new_unchecked(0)), -32_768);
    assert_eq!(u48_to_i24(U48::new_unchecked(0)), I24::new_unchecked(-8_388_608));
    assert_eq!(u48_to_i32(U48::new_unchecked(0)), -2_147_483_648);
    assert_eq!(u48_to_i48(U48::new_unchecked(0)), I48::new_unchecked(-140_737_488_355_328));
    assert_eq!(u48_to_i64(U48::new_unchecked(0)), i64::MIN);
    assert_eq!(u48_to_u8(U48::new_unchecked(0)), 0);
    assert_eq!(u48_to_u16(U48::new_unchecked(0)), 0);
    assert_eq!(u48_to_u24(U48::new_unchecked(0)), U24::new_unchecked(0));
    assert_eq!(u48_to_u32(U48::new_unchecked(0)), 0);
    assert_eq!(u48_to_u64(U48::new_unchecked(0)), 0u64);
    assert_eq!(u48_to_i8(U48::new_unchecked(140_737_488_355_328)), 0);
    assert_eq!(u48_to_i16(U48::new_unchecked(140_737_488_355_328)), 0);
    assert_eq!(u48_to_i24(U48::new_unchecked(140_737_488_355_328)), I24::new_unchecked(0));
    assert_eq!(u48_to_i32(U48::new_unchecked(140_737_488_355_328)), 0);
    assert_eq!(u48_to_i48(U48::new_unchecked(140_737_488_355_328)), I48::new_unchecked(0));
    assert_eq!(u48_to_i64(U48::new_unchecked(140_737_488_355_328)), 0);
    assert_eq!(u48_to_u8(U48::new_unchecked(140_737_488_355_328)), 128);
    assert_eq!(u48_to_u16(U48::new_unchecked(140_737_488_355_328)), 32_768);
    assert_eq!(u48_to_u24(U48::new_unchecked(140_737_488_355_328)), U24::new_unchecked(8_388_608));
    assert_eq!(u48_to_u32(U48::new_unchecked(140_737_488_355_328)), 2_147_483_648);
    assert_eq!(u48_to_u64(U48::new_unchecked(140_737_488_355_328)), 9_223_372_036_854_775_808u64);
    assert_eq!(u48_to_i8(U48::new_unchecked(281_474_976_710_655)), 127);
    assert_eq!(u48_to_i16(U48::new_unchecked(281_474_976_710_655)), 32_767);
    assert_eq!(u48_to_i24(U48::new_unchecked(281_474_976_710_655)), I24::new_unchecked(8_388_607));
    assert_eq!(u48_to_i32(U48::new_unchecked(281_474_976_710_655)), 2_147_483_647);
    assert_eq!(u48_to_i48(U48::new_unchecked(281_474_976_710_655)), I48::new_unchecked(140_737_488_355_327));
    assert_eq!(u48_to_i64(U48::new_unchecked(281_474_976_710_655)), 9_223_372_036_854_710_272);
    assert_eq!(u48_to_u8(U48::new_unchecked(281_474_976_710_655)), 255);
    assert_eq!(u48_to_u16(U48::new_unchecked(281_474_976_710_655)), 65_535);
    assert_eq!(u48_to_u24(U48::new_unchecked(281_474_976_710_655)), U24::new_unchecked(16_777_215));
    assert_eq!(u48_to_u32(U48::new_unchecked(281_474_976_710_655)), 4_294_967_295);
    assert_eq!(u48_to_u64(U48::new_unchecked(281_474_976_710_655)), 18_446_744_073_709_486_080u64);
}

#[test]
fn conv_u64_boundaries() {
    assert_eq!(u64_to_i8(0u64), -128);
    assert_eq!(u64_to_i16(0u64), -32_768);
    assert_eq!(u64_to_i24(0u64), I24::new_unchecked(-8_388_608));
    assert_eq!(u64_to_i32(0u64), -2_147_483_648);
    assert_eq!(u64_to_i48(0u64), I48::new_unchecked(-140_737_488_355_328));
    assert_eq!(u64_to_i64(0u64), i64::MIN);
    assert_eq!(u64_to_u8(0u64), 0);
    assert_eq!(u64_to_u16(0u64), 0);
    assert_eq!(u64_to_u24(0u64), U24::new_unchecked(0));
    assert_eq!(u64_to_u32(0u64), 0);
    assert_eq!(u64_to_u48(0u64), U48::new_unchecked(0));
    assert_eq!(u64_to_i8(9_223_372_036_854_775_808u64), 0);
    assert_eq!(u64_to_i16(9_223_372_036_854_775_808u64), 0);
    assert_eq!(u64_to_i24(9_223_372_036_854_775_808u64), I24::new_unchecked(0));
    assert_eq!(u64_to_i32(9_223_372_036_854_775_808u64), 0);
    assert_eq!(u64_to_i48(9_223_372_036_854_775_808u64), I48::new_unchecked(0));
    assert_eq!(u64_to_i64(9_223_372_036_854_775_808u64), 0);
    assert_eq!(u64_to_u8(9_223_372_036_854_775_808u64), 128);
    assert_eq!(u64_to_u16(9_223_372_036_854_775_808u64), 32_768);
    assert_eq!(u64_to_u24(9_223_372_036_854_775_808u64), U24::new_unchecked(8_388_608));
    assert_eq!(u64_to_u32(9_223_372_036_854_775_808u64), 2_147_483_648);
    assert_eq!(u64_to_u48(9_223_372_036_854_775_808u64), U48::new_unchecked(140_737_488_355_328));
    assert_eq!(u64_to_i8(18_446_744_073_709_551_615u64), 127);
    assert_eq!(u64_to_i16(18_446_744_073_709_551_615u64), 32_767);
    assert_eq!(u64_to_i24(18_446_744_073_709_551_615u64), I24::new_unchecked(8_388_607));
    assert_eq!(u64_to_i32(18_446_744_073_709_551_615u64), 2_147_483_647);
    assert_eq!(u64_to_i48(18_446_744_073_709_551_615u64), I48::new_unchecked(140_737_488_355_327));
    assert_eq!(u64_to_i64(18_446_744_073_709_551_615u64), 9_223_372_036_854_775_807);
    assert_eq!(u64_to_u8(18_446_744_073_709_551_615u64), 255);
    assert_eq!(u64_to_u16(18_446_744_073_709_551_615u64), 65_535);
    assert_eq!(u64_to_u24(18_446_744_073_709_551_615u64), U24::new_unchecked(16_777_215));
    assert_eq!(u64_to_u32(18_446_744_073_709_551_615u64), 4_294_967_295);
    assert_eq!(u64_to_u48(18_446_744_073_709_551_615u64), U48::new_unchecked(281_474_976_710_655));
}

#[test]
fn conv_roundtrip_widen_is_identity() {
    for v in i8::MIN..=i8::MAX {
        assert_eq!(i16_to_i8(i8_to_i16(v)), v);
        assert_eq!(i32_to_i8(i8_to_i32(v)), v);
        assert_eq!(i64_to_i8(i8_to_i64(v)), v);
        assert_eq!(u8_to_i8(i8_to_u8(v)), v);
        assert_eq!(u16_to_i8(i8_to_u16(v)), v);
        assert_eq!(u64_to_i8(i8_to_u64(v)), v);
        assert_eq!(i24_to_i8(i8_to_i24(v)), v);
        assert_eq!(u48_to_i8(i8_to_u48(v)), v);
    }
    for v in [i16::MIN, -12_345, -1, 0, 1, 255, 256, 12_345, i16::MAX] {
        assert_eq!(i32_to_i16(i16_to_i32(v)), v);
        assert_eq!(u16_to_i16(i16_to_u16(v)), v);
        assert_eq!(i48_to_i16(i16_to_i48(v)), v);
        assert_eq!(u64_to_i16(i16_to_u64(v)), v);
    }
}

#[test]
fn conv_narrowing_is_idempotent() {
    for v in [i16::MIN, -32_767, -257, -256, -255, -1, 0, 1, 255, 256, 257, i16::MAX] {
        let narrowed = i16_to_i8(v);
        assert_eq!(i16_to_i8(i8_to_i16(narrowed)), narrowed);
        let narrowed = i16_to_u8(v);
        assert_eq!(i16_to_u8(u8_to_i16(narrowed)), narrowed);
    }
    for v in [0u64, 1, 0xffff, 0x1_0000, 0xdead_beef_dead_beef, u64::MAX] {
        let narrowed = u64_to_i24(v);
        assert_eq!(u64_to_i24(i24_to_u64(narrowed)), narrowed);
        let narrowed = u64_to_u16(v);
        assert_eq!(u64_to_u16(u16_to_u64(narrowed)), narrowed);
    }
}

#[test]
fn conv_narrowing_truncates_low_bits() {
    // 16-bit to 8-bit drops the low byte: lossy by design.
    assert_eq!(i16_to_i8(0x1234), 0x12);
    assert_eq!(i16_to_i8(0x12ff), 0x12);
    assert_eq!(u16_to_u8(0xabcd), 0xab);
    // Negative values floor toward the format minimum.
    assert_eq!(i16_to_i8(-1), -1);
    assert_eq!(i16_to_i8(-256), -1);
    assert_eq!(i16_to_i8(-257), -2);
}

fn narrow_to_i16<T: Duplex<i16>>(t: T) -> i16 {
    t.to_sample_()
}

#[test]
fn duplex_bound_is_usable() {
    assert_eq!(narrow_to_i16(-128i8), -32_768);
    assert_eq!(narrow_to_i16(0u8), -32_768);
    assert_eq!(narrow_to_i16(32_767i16), 32_767);
}

#[test]
fn conv_trait_calls_match_free_functions() {
    let a: i16 = i16::from_sample_(-128i8);
    assert_eq!(a, -32_768);
    let b: u8 = (-32_768i16).to_sample_();
    assert_eq!(b, 0);
    let c: I24 = 127i8.to_sample_();
    assert_eq!(c, i8_to_i24(127));
    let d: i8 = i8::from_sample_(-100i8);
    assert_eq!(d, -100);
    let e: U48 = u64::MAX.to_sample_();
    assert_eq!(e, U48::new_unchecked(281_474_976_710_655));
}

