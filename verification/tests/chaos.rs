use rand::{Rng, SeedableRng};
use rand_chacha::ChaCha8Rng;
use xdr::chaos::{ChaosConfig, ChaosEngine, RATE_SCALE};

fn config(seed: u64) -> ChaosConfig {
    ChaosConfig {
        enabled: true,
        seed,
        global_failure_rate: 0,
        payment_failure_rate: 0,
        rug_rate: 0,
        min_latency_ms: 0,
        max_latency_ms: 0,
    }
}

#[test]
fn default_config_is_quiet() {
    let cfg = ChaosConfig::default();
    assert!(!cfg.enabled);
    assert_eq!(cfg.seed, 0);
    assert_eq!(cfg.global_failure_rate, 0);
    assert_eq!(cfg.payment_failure_rate, 0);
    assert_eq!(cfg.rug_rate, 0);
    assert_eq!(cfg.min_latency_ms, 0);
    assert_eq!(cfg.max_latency_ms, 0);
    assert!(cfg.is_valid());
    assert_eq!(ChaosEngine::new().get_config(), cfg);
    assert_eq!(ChaosEngine::default().get_config(), cfg);
}

#[test]
fn validity_bounds_rates_and_latency() {
    let mut cfg = config(1);
    assert!(cfg.is_valid());
    cfg.global_failure_rate = RATE_SCALE;
    assert!(cfg.is_valid());
    cfg.global_failure_rate = RATE_SCALE + 1;
    assert!(!cfg.is_valid());
    cfg.global_failure_rate = 0;
    cfg.rug_rate = RATE_SCALE + 1;
    assert!(!cfg.is_valid());
    cfg.rug_rate = 0;
    cfg.payment_failure_rate = RATE_SCALE + 1;
    assert!(!cfg.is_valid());
    cfg.payment_failure_rate = 0;
    cfg.min_latency_ms = 5;
    assert!(cfg.is_valid());
    cfg.max_latency_ms = 4;
    assert!(!cfg.is_valid());
    cfg.enabled = false;
    assert!(cfg.is_valid());
    cfg.enabled = true;
    cfg.max_latency_ms = 5;
    assert!(cfg.is_valid());
}

#[test]
fn set_config_installs_the_config() {
    let mut engine = ChaosEngine::new();
    let mut cfg = config(9);
    cfg.rug_rate = 12;
    engine.set_config(cfg);
    assert_eq!(engine.get_config(), cfg);
}

#[test]
fn disabled_engine_injects_nothing() {
    let mut engine = ChaosEngine::new();
    let mut cfg = config(3);
    cfg.enabled = false;
    cfg.global_failure_rate = RATE_SCALE;
    cfg.payment_failure_rate = RATE_SCALE;
    cfg.rug_rate = RATE_SCALE;
    cfg.min_latency_ms = 10;
    cfg.max_latency_ms = 20;
    engine.set_config(cfg);
    for _ in 0..20 {
        assert_eq!(engine.roll_network_failure(), None);
        assert!(!engine.roll_payment_failure());
        assert!(!engine.roll_rug_pull());
        assert_eq!(engine.inject_latency(), 0);
    }
}

#[test]
fn disabled_engine_takes_an_empty_latency_range() {
    let mut engine = ChaosEngine::new();
    let mut cfg = config(3);
    cfg.enabled = false;
    cfg.min_latency_ms = 50;
    cfg.max_latency_ms = 10;
    assert!(cfg.is_valid());
    engine.set_config(cfg);
    assert_eq!(engine.inject_latency(), 0);
    assert_eq!(engine.get_config(), cfg);
}

#[test]
fn rate_zero_never_fails() {
    let mut engine = ChaosEngine::new();
    engine.set_config(config(5));
    for _ in 0..200 {
        assert_eq!(engine.roll_network_failure(), None);
        assert!(!engine.roll_payment_failure());
        assert!(!engine.roll_rug_pull());
    }
}

#[test]
fn rate_one_always_fails_with_a_listed_code() {
    let mut engine = ChaosEngine::new();
    let mut cfg = config(5);
    cfg.global_failure_rate = RATE_SCALE;
    cfg.payment_failure_rate = RATE_SCALE;
    cfg.rug_rate = RATE_SCALE;
    engine.set_config(cfg);
    let mut seen = Vec::new();
    for _ in 0..200 {
        let code = engine.roll_network_failure().unwrap();
        assert!(code == 503 || code == 429 || code == 504);
        if !seen.contains(&code) {
            seen.push(code);
        }
        assert!(engine.roll_payment_failure());
        assert!(engine.roll_rug_pull());
    }
    assert_eq!(seen.len(), 3);
}

#[test]
fn zero_upper_latency_never_suspends() {
    let mut engine = ChaosEngine::new();
    let mut cfg = config(5);
    cfg.min_latency_ms = 0;
    cfg.max_latency_ms = 0;
    engine.set_config(cfg);
    for _ in 0..50 {
        assert_eq!(engine.inject_latency(), 0);
    }
    cfg.min_latency_ms = 30;
    engine.set_config(cfg);
    assert_eq!(engine.inject_latency(), 0);
}

#[test]
fn latency_stays_in_its_range() {
    let mut engine = ChaosEngine::new();
    let mut cfg = config(11);
    cfg.min_latency_ms = 200;
    cfg.max_latency_ms = 250;
    engine.set_config(cfg);
    let mut distinct = Vec::new();
    for _ in 0..300 {
        let delay = engine.inject_latency();
        assert!((200..=250).contains(&delay));
        if !distinct.contains(&delay) {
            distinct.push(delay);
        }
    }
    assert!(distinct.len() > 10);
    cfg.min_latency_ms = 77;
    cfg.max_latency_ms = 77;
    engine.set_config(cfg);
    assert_eq!(engine.inject_latency(), 77);
}

#[test]
fn same_seed_gives_the_same_rolls() {
    let mut cfg = config(42);
    cfg.global_failure_rate = 400_000;
    cfg.payment_failure_rate = 500_000;
    cfg.rug_rate = 250_000;
    cfg.min_latency_ms = 1;
    cfg.max_latency_ms = 1_000;
    let mut first = ChaosEngine::new();
    first.set_config(cfg);
    let mut second = ChaosEngine::new();
    second.roll_network_failure();
    second.set_config(config(17));
    second.roll_rug_pull();
    second.set_config(cfg);
    let mut hits = 0;
    for _ in 0..200 {
        let a = (first.inject_latency(), first.roll_network_failure(), first.roll_payment_failure(), first.roll_rug_pull());
        let b = (
            second.inject_latency(),
            second.roll_network_failure(),
            second.roll_payment_failure(),
            second.roll_rug_pull(),
        );
        assert_eq!(a, b);
        if a.1.is_some() {
            hits += 1;
        }
    }
    assert!(hits > 40 && hits < 160);
}

#[test]
fn reseeding_replays_from_the_start() {
    let mut cfg = config(42);
    cfg.global_failure_rate = RATE_SCALE;
    let mut engine = ChaosEngine::new();
    engine.set_config(cfg);
    let first: Vec<Option<u16>> = (0..3).map(|_| engine.roll_network_failure()).collect();
    engine.set_config(cfg);
    let second: Vec<Option<u16>> = (0..3).map(|_| engine.roll_network_failure()).collect();
    assert_eq!(first, second);
}

#[test]
fn other_seed_gives_other_rolls() {
    let mut cfg = config(1);
    cfg.min_latency_ms = 0;
    cfg.max_latency_ms = 1_000_000_000;
    let mut first = ChaosEngine::new();
    first.set_config(cfg);
    cfg.seed = 2;
    let mut second = ChaosEngine::new();
    second.set_config(cfg);
    let a: Vec<u64> = (0..8).map(|_| first.inject_latency()).collect();
    let b: Vec<u64> = (0..8).map(|_| second.inject_latency()).collect();
    assert_ne!(a, b);
}

#[test]
fn rolls_follow_one_chacha8_stream() {
    let mut cfg = config(42);
    cfg.global_failure_rate = 300_000;
    cfg.payment_failure_rate = 500_000;
    cfg.rug_rate = 125_000;
    cfg.min_latency_ms = 5;
    cfg.max_latency_ms = 900;
    let mut engine = ChaosEngine::new();
    engine.set_config(cfg);
    let mut rng = ChaCha8Rng::seed_from_u64(42);
    let errors = [503u16, 429, 504];
    for _ in 0..300 {
        let delay: u64 = rng.gen_range(5u64..=900);
        assert_eq!(engine.inject_latency(), delay);
        let failure = if rng.gen_bool(0.3) {
            let idx = rng.gen_range(0..errors.len());
            Some(errors[idx])
        } else {
            None
        };
        assert_eq!(engine.roll_network_failure(), failure);
        assert_eq!(engine.roll_payment_failure(), rng.gen_bool(0.5));
        assert_eq!(engine.roll_rug_pull(), rng.gen_bool(0.125));
    }
}

#[test]
fn certain_failure_picks_codes_as_the_stream_does() {
    let mut cfg = config(42);
    cfg.global_failure_rate = RATE_SCALE;
    let mut engine = ChaosEngine::new();
    engine.set_config(cfg);
    let mut rng = ChaCha8Rng::seed_from_u64(42);
    let errors = [503u16, 429, 504];
    for _ in 0..50 {
        assert!(rng.gen_bool(1.0));
        let idx = rng.gen_range(0..errors.len());
        assert_eq!(engine.roll_network_failure(), Some(errors[idx]));
    }
}
