use pibox::load::{generate_hints, sample_load};
use pibox::protocol::LoadHint;

#[test]
fn test_hints_normal_load() {
    let hints = generate_hints(5000, 500);
    assert!(hints.is_empty());
}

#[test]
fn test_hints_high_cpu() {
    let hints = generate_hints(8500, 500);
    assert!(hints.contains(&LoadHint::ThrottleTransfers));
    assert!(hints.contains(&LoadHint::GenerateThumbnailsLocally));
}

#[test]
fn test_hints_critical_load() {
    let hints = generate_hints(9600, 40);
    assert!(hints.contains(&LoadHint::Recovering));
}

#[test]
fn critical_load_hints_in_order_without_repeats() {
    assert_eq!(
        generate_hints(9600, 40),
        vec![
            LoadHint::ThrottleTransfers,
            LoadHint::GenerateThumbnailsLocally,
            LoadHint::SearchLocally,
            LoadHint::Recovering
        ]
    );
}

#[test]
fn hint_table_rows() {
    assert_eq!(generate_hints(8000, 500), vec![LoadHint::ThrottleTransfers, LoadHint::GenerateThumbnailsLocally]);
    assert_eq!(generate_hints(7999, 500), vec![]);
    assert_eq!(generate_hints(9500, 500).len(), 4);
    assert_eq!(generate_hints(1000, 50), vec![LoadHint::ThrottleTransfers, LoadHint::Recovering]);
    assert_eq!(generate_hints(1000, 51), vec![LoadHint::SearchLocally]);
    assert_eq!(generate_hints(1000, 100), vec![LoadHint::SearchLocally]);
    assert_eq!(generate_hints(1000, 101), vec![]);
    assert_eq!(
        generate_hints(8500, 80),
        vec![LoadHint::ThrottleTransfers, LoadHint::GenerateThumbnailsLocally, LoadHint::SearchLocally]
    );
}

#[test]
fn more_cpu_keeps_hints() {
    for ram in [10u64, 50, 60, 100, 500] {
        let mut prev = generate_hints(0, ram);
        for cpu in (0..=10000u32).step_by(250) {
            let now = generate_hints(cpu, ram);
            assert!(prev.iter().all(|h| now.contains(h)), "cpu {} ram {}", cpu, ram);
            prev = now;
        }
    }
}

#[test]
fn less_ram_keeps_hints_except_leaving_low_band() {
    let cpu = 9600;
    let mut prev = generate_hints(cpu, 500);
    for ram in (0..=500u64).rev() {
        let now = generate_hints(cpu, ram);
        assert!(prev.iter().all(|h| now.contains(h)));
        prev = now;
    }
    assert_eq!(generate_hints(5000, 60), vec![LoadHint::SearchLocally]);
    assert!(!generate_hints(5000, 40).contains(&LoadHint::SearchLocally));
}

#[test]
fn load_sample_report() {
    let l = sample_load(8001, 300 * 1024 * 1024 + 5);
    assert_eq!(l.cpu_hundredths, 8001);
    assert_eq!(l.ram_free_mb, 300);
    assert!(l.io_busy);
    assert!(!sample_load(8000, 0).io_busy);
    assert_eq!(sample_load(8000, 0).hints.len(), 3);
}
