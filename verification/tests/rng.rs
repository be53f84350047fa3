use rng128::Rng;

#[test]
fn it_works() {
    let mut rng = Rng::with_seed(Default::default());

    assert_ne!(rng.gen_u64(), 0);
    assert_eq!(rng.gen_u64(), 4075977849992214257);
}

#[test]
fn always_unique() {
    let mut rng1 = Rng::new();
    let mut rng2 = Rng::new();

    assert_ne!(
        rng1.state(),
        rng2.state(),
        "initial states must always be unique"
    );
    assert_ne!(
        rng1.gen_u64(),
        rng2.gen_u64(),
        "unique states produce different number sequences"
    );
}

#[test]
fn deterministic_clone() {
    let mut rng1 = Rng::with_seed(Default::default());
    rng1.gen_u64();

    let mut rng2 = Rng::with_seed(Default::default());
    rng2.gen_u64();

    let mut cloned1 = rng1.duplicate();
    let mut cloned2 = rng2.duplicate();

    assert_eq!(cloned1.gen_u64(), rng1.gen_u64());
    assert_eq!(cloned2.gen_u64(), rng2.gen_u64());
    assert_eq!(cloned1.gen_u64(), cloned2.gen_u64());
}

#[test]
fn fixed_seed_is_deterministic() {
    let mut a = Rng::with_seed(0x1234_5678_9abc_def0);
    let mut b = Rng::with_seed(0x1234_5678_9abc_def0);
    for _ in 0..16 {
        assert_eq!(a.u64(), b.u64());
    }
    let mut c = Rng::with_seed(0);
    assert_eq!(c.u64(), 0x12e1_5e35_b500_f16e);
    assert_eq!(c.u64(), 4075977849992214257);
}

#[test]
fn state_is_always_odd() {
    let mut auto = Rng::new();
    assert_eq!(auto.state() % 2, 1);
    for _ in 0..8 {
        auto.u64();
        assert_eq!(auto.state() % 2, 1);
    }

    let seeds: [u128; 4] = [0, 2, u128::MAX, 0xdead_beef];
    for seed in seeds {
        let mut r = Rng::with_seed(seed);
        assert_eq!(r.state() % 2, 1);
        for _ in 0..8 {
            r.u32();
            assert_eq!(r.state() % 2, 1);
        }
    }
}

#[test]
fn seed_normalization() {
    // The all-zero seed is normalized to state one.
    let zero = Rng::with_seed(0);
    assert_eq!(zero.state(), 1);

    // The all-ones seed keeps every bit set after the shift-and-or.
    let ones = Rng::with_seed(u128::MAX);
    assert_eq!(ones.state(), u128::MAX);

    // The seed's top bit is shifted out: seeds differing only there collide.
    let mut low = Rng::with_seed(0);
    let mut high = Rng::with_seed(1u128 << 127);
    assert_eq!(low.state(), high.state());
    assert_eq!(low.u64(), high.u64());

    // The seed's low bit is kept, moved up one place.
    let shifted = Rng::with_seed(0b101);
    assert_eq!(shifted.state(), 0b1011);
}

#[test]
fn folding_matches_wider_draws() {
    let seeds: [u128; 3] = [0, 7, 0xffff_ffff_ffff_ffff];
    for seed in seeds {
        let mut w64 = Rng::with_seed(seed);
        let mut w32 = Rng::with_seed(seed);
        let mut w16 = Rng::with_seed(seed);
        let mut w8 = Rng::with_seed(seed);
        for _ in 0..8 {
            let g: u64 = w64.u64();
            let folded: u32 = ((g >> 32) as u32) ^ (g as u32);
            assert_eq!(w32.u32(), folded);
            assert_eq!(w16.u16(), (folded >> 16) as u16);
            assert_eq!(w8.u8(), (folded >> 24) as u8);
        }
    }
}

#[test]
fn signed_draws_share_bit_patterns() {
    let seeds: [u128; 3] = [0, 42, u128::MAX];
    for seed in seeds {
        let mut unsigned = Rng::with_seed(seed);
        let mut signed = Rng::with_seed(seed);
        for _ in 0..8 {
            assert_eq!(signed.i64() as u64, unsigned.u64());
        }
        let mut unsigned = Rng::with_seed(seed);
        let mut signed = Rng::with_seed(seed);
        for _ in 0..8 {
            assert_eq!(signed.i32() as u32, unsigned.u32());
        }
        let mut unsigned = Rng::with_seed(seed);
        let mut signed = Rng::with_seed(seed);
        for _ in 0..8 {
            assert_eq!(signed.i16() as u16, unsigned.u16());
        }
        let mut unsigned = Rng::with_seed(seed);
        let mut signed = Rng::with_seed(seed);
        for _ in 0..8 {
            assert_eq!(signed.i8() as u8, unsigned.u8());
        }
    }
}

#[test]
fn every_draw_advances_state_once() {
    let mut drawn = Rng::with_seed(99);
    let mut stepped = Rng::with_seed(99);

    drawn.u64();
    drawn.u32();
    drawn.u16();
    drawn.u8();
    drawn.i64();
    drawn.i32();
    drawn.i16();
    drawn.i8();

    for _ in 0..8 {
        stepped.next_state();
    }
    assert_eq!(drawn.state(), stepped.state());
    assert_eq!(drawn.u64(), stepped.u64());
}

#[test]
fn duplication_consumes_one_draw() {
    let mut source = Rng::with_seed(7);
    let before: u128 = source.state();

    let mut copy = source.duplicate();

    // The source advanced exactly once and the duplicate holds that state.
    let mut stepped = Rng::with_seed(7);
    stepped.next_state();
    assert_eq!(source.state(), stepped.state());
    assert_ne!(source.state(), before);
    assert_eq!(copy.state(), source.state());

    // From here on the two produce the same sequence.
    for _ in 0..8 {
        assert_eq!(copy.u64(), source.u64());
    }
}

#[test]
fn default_is_auto_seeded() {
    let mut a: Rng = Default::default();
    let mut b: Rng = Default::default();
    assert_eq!(a.state() % 2, 1);
    assert_ne!(a.u64(), b.u64());
}
