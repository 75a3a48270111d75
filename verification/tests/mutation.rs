use evolution_sim::gene::Gene;
use evolution_sim::mutation::{
    cross_period, flip_period_bit, hand_on_gene, hand_on_period, mutate_gene, mutate_period, MutR,
    MILLIONTHS_PER_PERCENT, MUTATION_SCALE,
};

#[test]
fn rate_is_counted_in_millionths() {
    assert_eq!(MUTATION_SCALE, 1_000_000);
    assert_eq!(MILLIONTHS_PER_PERCENT, 10_000);
    assert_eq!(MutR::from_percent(0).unwrap().get_millionths(), 0);
    assert_eq!(MutR::from_percent(1).unwrap().get_millionths(), 10_000);
    assert_eq!(MutR::from_percent(100).unwrap().get_millionths(), 1_000_000);
    assert_eq!(MutR::from_millionths(5_000).unwrap().get_millionths(), 5_000);
    assert_eq!(MutR::from_millionths(1_000_000).unwrap().get_millionths(), 1_000_000);
}

#[test]
fn rate_above_certainty_is_refused() {
    assert!(MutR::from_percent(101).is_none());
    assert!(MutR::from_percent(u32::MAX).is_none());
    assert!(MutR::from_millionths(1_000_001).is_none());
    assert!(MutR::from_millionths(u32::MAX).is_none());
}

#[test]
fn rolls_below_the_rate_hit() {
    let rate = MutR::from_percent(25).unwrap();
    assert!(rate.hits(0));
    assert!(rate.hits(249_999));
    assert!(!rate.hits(250_000));
    assert!(!rate.hits(999_999));
    let never = MutR::from_percent(0).unwrap();
    assert!(!never.hits(0));
    let always = MutR::from_percent(100).unwrap();
    assert!(always.hits(0));
    assert!(always.hits(999_999));
}

#[test]
fn period_bit_is_flipped() {
    assert_eq!(flip_period_bit(0, 0), 1);
    assert_eq!(flip_period_bit(5, 0), 4);
    assert_eq!(flip_period_bit(5, 1), 7);
    assert_eq!(flip_period_bit(0, 31), 1usize << 31);
    assert_eq!(flip_period_bit(0, 32), 1);
    for bit in 0..32 {
        assert_eq!(flip_period_bit(flip_period_bit(12345, bit), bit), 12345);
        assert_eq!((flip_period_bit(12345, bit) ^ 12345).count_ones(), 1);
    }
}

#[test]
fn nothing_mutates_at_rate_zero() {
    let never = MutR::from_percent(0).unwrap();
    for bits in [0u32, 1, 0xdead_beef, u32::MAX] {
        for _ in 0..50 {
            assert_eq!(mutate_gene(Gene { bits }, never), Gene { bits });
        }
    }
    for period in [0usize, 7, 99, usize::MAX] {
        for _ in 0..50 {
            assert_eq!(mutate_period(period, never), period);
        }
    }
}

#[test]
fn everything_mutates_by_one_bit_at_full_rate() {
    let always = MutR::from_percent(100).unwrap();
    for bits in [0u32, 1, 0xdead_beef, u32::MAX] {
        for _ in 0..200 {
            let child = mutate_gene(Gene { bits }, always);
            assert_eq!((child.bits ^ bits).count_ones(), 1);
        }
    }
    for period in [0usize, 7, 99] {
        for _ in 0..200 {
            let child = mutate_period(period, always);
            assert_eq!((child ^ period).count_ones(), 1);
            assert!(child ^ period < (1usize << 32));
        }
    }
}

#[test]
fn mutation_flips_at_most_one_bit() {
    let half = MutR::from_percent(50).unwrap();
    let mut changed = 0;
    let mut kept = 0;
    for _ in 0..2000 {
        let child = mutate_gene(Gene { bits: 0x0f0f_0f0f }, half);
        match (child.bits ^ 0x0f0f_0f0f).count_ones() {
            0 => kept += 1,
            1 => changed += 1,
            n => panic!("{} bits flipped", n),
        }
    }
    assert!(changed > 0);
    assert!(kept > 0);
}

#[test]
fn every_bit_of_a_gene_can_mutate() {
    let always = MutR::from_percent(100).unwrap();
    let mut seen = 0u32;
    for _ in 0..20_000 {
        seen |= mutate_gene(Gene { bits: 0 }, always).bits;
    }
    assert_eq!(seen, u32::MAX);
}

#[test]
fn gene_is_handed_on_as_the_draws_say() {
    let rate = MutR::from_percent(25).unwrap();
    let gene = Gene { bits: 0b1010 };
    assert_eq!(hand_on_gene(gene, rate, 0, 0).bits, 0b1011);
    assert_eq!(hand_on_gene(gene, rate, 249_999, 3).bits, 0b0010);
    assert_eq!(hand_on_gene(gene, rate, 249_999, 31).bits, 0x8000_000a);
    assert_eq!(hand_on_gene(gene, rate, 249_999, 35).bits, 0b0010);
    assert_eq!(hand_on_gene(gene, rate, 250_000, 3), gene);
    assert_eq!(hand_on_gene(gene, rate, 999_999, 0), gene);
    let never = MutR::from_percent(0).unwrap();
    assert_eq!(hand_on_gene(gene, never, 0, 7), gene);
    let always = MutR::from_percent(100).unwrap();
    assert_eq!(hand_on_gene(gene, always, 999_999, 7).bits, 0b1000_1010);
}

#[test]
fn period_is_handed_on_as_the_draws_say() {
    let rate = MutR::from_millionths(1).unwrap();
    assert_eq!(hand_on_period(40, rate, 0, 3), 32);
    assert_eq!(hand_on_period(40, rate, 0, 0), 41);
    assert_eq!(hand_on_period(40, rate, 1, 0), 40);
    let always = MutR::from_percent(100).unwrap();
    assert_eq!(hand_on_period(0, always, 500_000, 31), 1usize << 31);
    let never = MutR::from_percent(0).unwrap();
    assert_eq!(hand_on_period(40, never, 0, 3), 40);
}

#[test]
fn crossing_takes_the_period_that_the_coin_names() {
    assert_eq!(cross_period(true, 5, 9), 5);
    assert_eq!(cross_period(false, 5, 9), 9);
    assert_eq!(cross_period(false, 0, usize::MAX), usize::MAX);
}
