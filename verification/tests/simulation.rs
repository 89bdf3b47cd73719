//! Long-running simulations checking the global guarantees on concrete
//! traces: non-negativity of all stocks, the happiness bounds, and the
//! monotonic day counter.

use colony_sim::colony::{Colony, event_for_roll};
use colony_sim::types::MAX_CENTI;

fn check_bounds(c: &Colony) {
    for r in c.resources.iter() {
        assert!(r.amount <= MAX_CENTI);
        assert!(r.production_rate <= MAX_CENTI);
        assert!(r.consumption_rate <= MAX_CENTI);
    }
    assert!(c.population <= MAX_CENTI);
    assert!(c.tech_points <= MAX_CENTI);
}

#[test]
fn long_run_keeps_all_quantities_bounded() {
    let mut c = Colony::new();
    for step in 0u64..300 {
        c.tick();
        // after every tick happiness sits in the percentage range
        assert!(c.happiness >= 0 && c.happiness <= 10_000);
        check_bounds(&c);
        if step % 7 == 3 {
            let _ = c.build("Farm");
            check_bounds(&c);
        }
        if step % 11 == 5 {
            let _ = c.research("Efficient Solar Cells");
            check_bounds(&c);
        }
        let msg = c.apply_event(event_for_roll(step));
        assert!(!msg.is_empty());
        check_bounds(&c);
    }
    assert_eq!(c.day, 301);
}

#[test]
fn day_counter_is_monotonic() {
    let mut c = Colony::new();
    let mut last = c.day;
    for _ in 0..50 {
        c.tick();
        assert!(c.day > last);
        last = c.day;
    }
}

#[test]
fn starvation_drains_food_and_happiness() {
    let mut c = Colony::new();
    // the population eats far more than the farms produce, so the food
    // and water stocks run dry within a few dozen days
    for _ in 0..40 {
        c.tick();
    }
    // stocks are clamped at zero, never negative
    assert_eq!(c.resources[0].amount, 0);
    assert_eq!(c.resources[3].amount, 0);
    // short rations shrink the population and drag happiness down
    assert!(c.population < 10_000);
    assert!(c.happiness < 10_000);
    assert!(c.happiness >= 0);
}
