use soroban_playground::options::{isqrt_scaled, normal_cdf, normal_pdf};
use soroban_playground::perpetuals::{Error, Perpetuals, VammConfig};

#[test]
fn isqrt_of_scaled_values() {
    assert_eq!(isqrt_scaled(1_000_000, 1_000_000), 1_000_000);
    assert_eq!(isqrt_scaled(4_000_000, 1_000_000), 2_000_000);
    assert_eq!(isqrt_scaled(250_000, 1_000_000), 500_000);
    assert_eq!(isqrt_scaled(0, 1_000_000), 0);
    assert_eq!(isqrt_scaled(-5, 1_000_000), 0);
    assert_eq!(isqrt_scaled(4, 1), 2);
    assert_eq!(isqrt_scaled(10, 10), 10);
    assert_eq!(isqrt_scaled(5, 0), 0);
    assert_eq!(isqrt_scaled(5, -3), 0);
}

#[test]
fn normal_density_peaks_at_zero_and_vanishes_in_the_tails() {
    assert_eq!(normal_pdf(0), 398_942);
    assert_eq!(normal_pdf(1_000_000), 241_970);
    assert_eq!(normal_pdf(1_960_000), 58_376);
    assert_eq!(normal_pdf(1_000_000), normal_pdf(-1_000_000));
    assert_eq!(normal_pdf(7_000_000), 0);
}

#[test]
fn normal_distribution_is_symmetric_and_monotone() {
    let half = normal_cdf(0);
    assert_eq!(half, 500_000);
    for x in [250_000i128, 1_000_000, 1_960_000, 3_000_000] {
        assert_eq!(normal_cdf(x) + normal_cdf(-x), 1_000_000);
        assert!(normal_cdf(x) >= half);
    }
    assert_eq!(normal_cdf(1), 500_001);
    assert_eq!(normal_cdf(250_000), 598_709);
    assert_eq!(normal_cdf(1_000_000), 841_346);
    assert_eq!(normal_cdf(1_960_000), 975_030);
    assert_eq!(normal_cdf(3_000_000), 999_686);
    assert_eq!(normal_cdf(20_000_000), 1_000_000);
    assert_eq!(normal_cdf(-20_000_000), 0);
}

#[test]
fn vamm_mark_price_and_trades() {
    let v = VammConfig { reserve_x: 1_000, reserve_y: 2_000, k: 2_000_000 };
    assert_eq!(Perpetuals::vamm_mark_price_from(&v), Ok(20_000_000));
    let empty = VammConfig { reserve_x: 0, reserve_y: 1, k: 0 };
    assert_eq!(Perpetuals::vamm_mark_price_from(&empty), Err(Error::InvalidVammReserves));
    let mut long = v;
    Perpetuals::apply_vamm_trade(&mut long, true, 200).unwrap();
    assert_eq!(long, VammConfig { reserve_x: 800, reserve_y: 2_500, k: 2_000_000 });
    let mut short = v;
    Perpetuals::apply_vamm_trade(&mut short, false, 600).unwrap();
    assert_eq!(short, VammConfig { reserve_x: 1_600, reserve_y: 1_250, k: 2_000_000 });
    let mut too_big = v;
    assert_eq!(Perpetuals::apply_vamm_trade(&mut too_big, true, 1_000), Err(Error::InvalidVammReserves));
    assert_eq!(too_big, v);
}

#[test]
fn funding_rate_is_the_clamped_premium() {
    assert_eq!(Perpetuals::compute_rate_bps(101, 100), 100);
    assert_eq!(Perpetuals::compute_rate_bps(99, 100), -100);
    assert_eq!(Perpetuals::compute_rate_bps(200, 100), 500);
    assert_eq!(Perpetuals::compute_rate_bps(1, 100), -500);
    assert_eq!(Perpetuals::compute_rate_bps(5, 0), 0);
}

#[test]
fn normal_distribution_is_close_to_the_true_values() {
    // Phi at 0, ±0.5, ±1, 1.5, 2, 2.5, 3 (scaled by 10^6)
    let table = [
        (0i128, 500_000i128),
        (500_000, 691_462),
        (-500_000, 308_538),
        (1_000_000, 841_345),
        (-1_000_000, 158_655),
        (1_500_000, 933_193),
        (2_000_000, 977_250),
        (2_500_000, 993_790),
        (3_000_000, 998_650),
    ];
    for (x, phi) in table {
        assert!((normal_cdf(x) - phi).abs() <= 10_000, "N({x}) too far from {phi}");
    }
}
