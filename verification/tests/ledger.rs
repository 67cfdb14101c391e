use starbase_core::events::{GameEvent, Notification};
use starbase_core::geom::Vec2i;
use starbase_core::mining::deliver_resources;
use starbase_core::resources::{Resources, STARTING_DELIVERED};

#[test]
fn fresh_ledger_has_starting_stock() {
    let r = Resources::new();
    assert_eq!(r.gathered, 0);
    assert_eq!(r.delivered, STARTING_DELIVERED);
}

#[test]
fn mine_tick_accumulates_and_never_decreases() {
    let mut r = Resources::new();
    let mut last = r.gathered;
    for amount in [1, 0, 5, 2] {
        r.mine_tick(amount);
        assert!(r.gathered >= last);
        last = r.gathered;
    }
    assert_eq!(r.gathered, 8);
    assert_eq!(r.delivered, STARTING_DELIVERED);
}

#[test]
fn deliver_moves_everything_gathered() {
    let mut r = Resources { gathered: 7, delivered: 3 };
    r.deliver();
    assert_eq!(r.gathered, 0);
    assert_eq!(r.delivered, 10);
}

#[test]
fn spend_rejected_leaves_delivered_untouched() {
    // Fifteen delivered, a twenty-cost attempt: rejected, nothing debited.
    let mut r = Resources { gathered: 0, delivered: 15 };
    let ok = r.spend(20);
    assert!(!ok);
    assert_eq!(r.delivered, 15);
    assert_eq!(r.gathered, 0);
}

#[test]
fn spend_debits_exactly_the_cost() {
    let mut r = Resources { gathered: 2, delivered: 15 };
    let ok = r.spend(12);
    assert!(ok);
    assert_eq!(r.delivered, 3);
    assert_eq!(r.gathered, 2);
}

#[test]
fn spend_succeeds_at_exact_cost() {
    let mut r = Resources { gathered: 0, delivered: 12 };
    assert!(r.spend(12));
    assert_eq!(r.delivered, 0);
}

#[test]
fn refund_returns_the_cost() {
    let mut r = Resources { gathered: 0, delivered: 3 };
    r.refund(12);
    assert_eq!(r.delivered, 15);
}

#[test]
fn three_ticks_far_from_base_then_delivery() {
    // Mining far from the station banks gathered resources only; coming
    // within the delivery radius moves all of them into delivered.
    let mut r = Resources { gathered: 0, delivered: 4 };
    let far = Vec2i { x: 90_000, y: 0 };
    let mut events: Vec<GameEvent> = Vec::new();
    r.mine_tick(1);
    deliver_resources(&mut r, far, &mut events);
    r.mine_tick(1);
    deliver_resources(&mut r, far, &mut events);
    r.mine_tick(1);
    deliver_resources(&mut r, far, &mut events);
    assert_eq!(r.gathered, 3);
    assert_eq!(r.delivered, 4);
    assert!(events.is_empty());

    let near = Vec2i { x: 10_000, y: 5_000 };
    deliver_resources(&mut r, near, &mut events);
    assert_eq!(r.gathered, 0);
    assert_eq!(r.delivered, 7);
    assert_eq!(
        events[0],
        GameEvent::Notify { note: Notification::Delivered { amount: 3 } }
    );
}

#[test]
fn delivery_radius_boundary() {
    // Exactly at the squared radius no delivery happens (strictly inside
    // only): 25 units is 25_000 milli-units from the origin.
    let mut r = Resources { gathered: 5, delivered: 0 };
    let mut events: Vec<GameEvent> = Vec::new();
    deliver_resources(&mut r, Vec2i { x: 25_000, y: 0 }, &mut events);
    assert_eq!(r.gathered, 5);
    deliver_resources(&mut r, Vec2i { x: 24_999, y: 0 }, &mut events);
    assert_eq!(r.gathered, 0);
    assert_eq!(r.delivered, 5);
}
