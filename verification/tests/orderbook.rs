use poly_market_maker::errors::SyncError;
use poly_market_maker::ids::{same_id, IdSet};
use poly_market_maker::lifecycle::{Lifecycle, LifecycleAction, LifecycleEvent};
use poly_market_maker::order::{Order, Side};
use poly_market_maker::orderbook::{CancelAllStep, OrderBookManager};
use poly_market_maker::strategies::amm::AMMConfig;
use poly_market_maker::strategy::{Strategy, StrategyConfig, StrategyManager};
use poly_market_maker::token::{Balances, Token};

fn o(id: Option<&str>, price: i64) -> Order {
    Order::new(2000, price, Side::Buy, Token::A, id.map(|s| s.to_string()))
}

fn balances() -> Balances {
    Balances { collateral: 10_000, token_a: 5000, token_b: 5000 }
}

fn ids(orders: &[Order]) -> Vec<Option<String>> {
    orders.iter().map(|o| o.id.clone()).collect()
}

fn some(ids: &[&str]) -> Vec<Option<String>> {
    ids.iter().map(|s| Some(s.to_string())).collect()
}

fn live(manager: &OrderBookManager) -> Vec<Option<String>> {
    ids(&manager.get_order_book().unwrap().orders)
}

#[test]
fn id_set_holds_each_id_once() {
    let mut set = IdSet::new();
    assert!(set.is_empty());
    set.insert("a".to_string());
    set.insert("b".to_string());
    set.insert("a".to_string());
    assert!(set.contains(&"a".to_string()));
    assert!(set.contains(&"b".to_string()));
    assert!(!set.contains(&"c".to_string()));
    set.remove(&"a".to_string());
    assert!(!set.contains(&"a".to_string()));
    assert!(set.contains(&"b".to_string()));
    set.remove(&"zzz".to_string());
    set.remove(&"b".to_string());
    assert!(set.is_empty());
}

#[test]
fn same_id_compares_presence_and_text() {
    let a = Some("a".to_string());
    let b = Some("b".to_string());
    assert!(same_id(&a, &a.clone()));
    assert!(!same_id(&a, &b));
    assert!(!same_id(&a, &None));
    assert!(!same_id(&None, &b));
    assert!(same_id(&None, &None));
}

#[test]
fn cold_start_has_no_book_until_the_first_sample() {
    let mut manager = OrderBookManager::new(5);
    assert_eq!(manager.refresh_frequency(), 5);
    assert!(manager.get_order_book().is_none());
    assert!(!manager.wait_for_stable_order_book());

    manager.refresh(
        Some(vec![]),
        Some(Balances { collateral: 10_000, token_a: 0, token_b: 0 }),
    );
    let book = manager.get_order_book().unwrap();
    assert!(book.orders.is_empty());
    assert_eq!(book.balances, Balances { collateral: 10_000, token_a: 0, token_b: 0 });
    assert!(!book.orders_being_placed);
    assert!(!book.orders_being_cancelled);
    assert!(manager.wait_for_stable_order_book());

    let config =
        AMMConfig { p_min: 5, p_max: 95, spread: 1, delta: 1, depth: 10, max_collateral: 20_000 };
    let strategy = StrategyManager::new(Strategy::AMM, StrategyConfig::Amm(config)).unwrap();
    let r = strategy.synchronize(&book, 500_000);
    assert!(matches!(r, Err(SyncError::ZeroBalances)));
    assert_eq!(SyncError::ZeroBalances.message(), "zero balances");
}

#[test]
fn a_failed_pass_keeps_the_last_sample() {
    let mut manager = OrderBookManager::new(5);
    manager.refresh(None, Some(balances()));
    assert!(manager.get_order_book().is_none());
    manager.refresh(Some(vec![o(Some("r1"), 40)]), None);
    assert!(manager.get_order_book().is_none());
    manager.refresh(Some(vec![o(Some("r1"), 40)]), Some(balances()));
    assert_eq!(live(&manager), some(&["r1"]));

    let other = Balances { collateral: 1, token_a: 2, token_b: 3 };
    manager.refresh(None, Some(other));
    manager.refresh(Some(vec![]), None);
    manager.refresh(None, None);
    let book = manager.get_order_book().unwrap();
    assert_eq!(ids(&book.orders), some(&["r1"]));
    assert_eq!(book.balances, balances());

    manager.refresh(Some(vec![]), Some(other));
    let book = manager.get_order_book().unwrap();
    assert!(book.orders.is_empty());
    assert_eq!(book.balances, other);
}

#[test]
fn placed_orders_show_before_the_remote_sample_has_them() {
    let mut manager = OrderBookManager::new(5);
    manager.refresh(Some(vec![o(Some("r1"), 40)]), Some(balances()));

    let intent = o(None, 45);
    manager.place_orders(&[intent.clone()]);
    let book = manager.get_order_book().unwrap();
    assert!(book.orders_being_placed);
    assert_eq!(ids(&book.orders), some(&["r1"]));
    assert!(!manager.wait_for_stable_order_book());

    manager.order_placed(Some(o(Some("p1"), 45)));
    let book = manager.get_order_book().unwrap();
    assert!(!book.orders_being_placed);
    assert_eq!(ids(&book.orders), some(&["r1", "p1"]));
    assert_eq!(book.orders[1].price, 45);
    assert!(manager.wait_for_stable_order_book());

    // once the remote sample shows it, it is still there once
    manager.refresh(Some(vec![o(Some("p1"), 45), o(Some("r1"), 40)]), Some(balances()));
    assert_eq!(live(&manager), some(&["p1", "r1"]));
}

#[test]
fn cancelled_orders_are_hidden_before_the_remote_sample_drops_them() {
    let mut manager = OrderBookManager::new(5);
    manager.refresh(Some(vec![]), Some(balances()));
    manager.place_orders(&[o(None, 45)]);
    manager.order_placed(Some(o(Some("p1"), 45)));
    assert_eq!(live(&manager), some(&["p1"]));

    let asked = manager.cancel_orders(&[o(Some("p1"), 45), o(None, 46), o(Some("q"), 47)]);
    assert_eq!(asked, vec!["p1".to_string(), "q".to_string()]);
    manager.order_cancelled(&Some("q".to_string()), false);
    let book = manager.get_order_book().unwrap();
    assert!(book.orders.is_empty());
    assert!(book.orders_being_cancelled);
    assert!(!manager.wait_for_stable_order_book());

    manager.order_cancelled(&Some("p1".to_string()), true);
    let book = manager.get_order_book().unwrap();
    assert!(book.orders.is_empty());
    assert!(!book.orders_being_cancelled);

    // a stale sample that still lists the order does not bring it back
    manager.refresh(Some(vec![o(Some("p1"), 45)]), Some(balances()));
    assert!(manager.get_order_book().unwrap().orders.is_empty());
}

#[test]
fn a_failed_cancellation_leaves_the_order_live() {
    let mut manager = OrderBookManager::new(5);
    manager.refresh(Some(vec![o(Some("r1"), 40)]), Some(balances()));
    manager.cancel_orders(&[o(Some("r1"), 40)]);
    assert!(manager.get_order_book().unwrap().orders.is_empty());
    manager.order_cancelled(&Some("r1".to_string()), false);
    let book = manager.get_order_book().unwrap();
    assert_eq!(ids(&book.orders), some(&["r1"]));
    assert!(!book.orders_being_cancelled);
}

#[test]
fn orders_without_an_id_are_not_cancelled() {
    let mut manager = OrderBookManager::new(5);
    manager.refresh(Some(vec![o(None, 40), o(Some("r1"), 41)]), Some(balances()));
    assert!(manager.cancel_orders(&[o(None, 40)]).is_empty());
    let book = manager.get_order_book().unwrap();
    assert!(!book.orders_being_cancelled);
    assert_eq!(ids(&book.orders), vec![None, Some("r1".to_string())]);
    manager.order_cancelled(&None, true);
    assert_eq!(live(&manager).len(), 2);
}

#[test]
fn a_cancelled_id_is_not_staged_again() {
    let mut manager = OrderBookManager::new(5);
    manager.refresh(Some(vec![o(Some("r1"), 40)]), Some(balances()));
    manager.cancel_orders(&[o(Some("r1"), 40)]);
    manager.order_cancelled(&Some("r1".to_string()), true);
    manager.cancel_orders(&[o(Some("r1"), 40)]);
    let book = manager.get_order_book().unwrap();
    assert!(!book.orders_being_cancelled);
    assert!(book.orders.is_empty());
}

#[test]
fn snapshot_has_each_id_once_and_none_that_is_masked() {
    let mut manager = OrderBookManager::new(5);
    manager.refresh(
        Some(vec![o(Some("a"), 40), o(Some("b"), 41), o(Some("c"), 42), o(None, 43)]),
        Some(balances()),
    );
    manager.place_orders(&[o(None, 1), o(None, 2), o(None, 3), o(None, 4)]);
    manager.order_placed(Some(o(Some("b"), 41)));
    manager.order_placed(Some(o(Some("d"), 44)));
    manager.order_placed(Some(o(Some("d"), 44)));
    manager.order_placed(None);
    manager.cancel_orders(&[o(Some("a"), 40)]);
    manager.cancel_orders(&[o(Some("c"), 42)]);
    manager.order_cancelled(&Some("c".to_string()), true);

    let book = manager.get_order_book().unwrap();
    assert_eq!(
        ids(&book.orders),
        vec![Some("b".to_string()), None, Some("d".to_string())]
    );
    assert!(book.orders_being_cancelled);
    assert!(!book.orders_being_placed);
}

#[test]
fn placements_are_counted_until_their_outcome() {
    let mut manager = OrderBookManager::new(5);
    manager.refresh(Some(vec![]), Some(balances()));
    manager.place_orders(&[o(None, 1), o(None, 2)]);
    manager.place_orders(&[]);
    assert!(manager.get_order_book().unwrap().orders_being_placed);
    manager.order_placed(None);
    assert!(manager.get_order_book().unwrap().orders_being_placed);
    manager.order_placed(Some(o(Some("x"), 2)));
    let book = manager.get_order_book().unwrap();
    assert!(!book.orders_being_placed);
    assert_eq!(ids(&book.orders), some(&["x"]));
}

#[test]
fn cancel_all_waits_for_the_first_sample() {
    let mut manager = OrderBookManager::new(5);
    assert!(matches!(manager.cancel_all_orders(), CancelAllStep::NotReady));
    manager.refresh(Some(vec![]), Some(balances()));
    assert!(matches!(manager.cancel_all_orders(), CancelAllStep::Done));
}

#[test]
fn graceful_shutdown_cancels_until_the_book_is_empty() {
    let mut lifecycle = Lifecycle::new();
    lifecycle.every(30);
    lifecycle.on_shutdown();
    let mut manager = OrderBookManager::new(5);
    manager.refresh(
        Some(vec![o(Some("a"), 40), o(Some("b"), 41), o(Some("c"), 42)]),
        Some(balances()),
    );
    assert_eq!(lifecycle.run(LifecycleEvent::Done), LifecycleAction::RunTick);
    assert_eq!(lifecycle.run(LifecycleEvent::Terminate), LifecycleAction::RunShutdown);

    // the first bulk cancel fails: the loop does not end
    let staged = match manager.cancel_all_orders() {
        CancelAllStep::Cancel(ids) => ids,
        _ => panic!("three orders are live"),
    };
    assert_eq!(staged, vec!["a".to_string(), "b".to_string(), "c".to_string()]);
    assert!(manager.get_order_book().unwrap().orders.is_empty());
    assert!(!manager.wait_for_stable_order_book());
    manager.all_orders_cancelled(&staged, false);
    assert!(manager.wait_for_stable_order_book());
    assert_eq!(live(&manager), some(&["a", "b", "c"]));

    // the next step takes them up anew, and the exchange confirms
    let staged = match manager.cancel_all_orders() {
        CancelAllStep::Cancel(ids) => ids,
        _ => panic!("three orders are live again"),
    };
    assert_eq!(staged, vec!["a".to_string(), "b".to_string(), "c".to_string()]);
    manager.all_orders_cancelled(&staged, true);
    assert!(manager.wait_for_stable_order_book());
    assert!(matches!(manager.cancel_all_orders(), CancelAllStep::Done));
    assert!(manager.get_order_book().unwrap().orders.is_empty());
    assert_eq!(lifecycle.run(LifecycleEvent::Done), LifecycleAction::Exit);

    // a late sample that still lists them changes nothing
    manager.refresh(Some(vec![o(Some("a"), 40), o(Some("b"), 41)]), Some(balances()));
    assert!(matches!(manager.cancel_all_orders(), CancelAllStep::Done));
}

#[test]
fn cancel_all_takes_in_orders_placed_meanwhile() {
    let mut manager = OrderBookManager::new(5);
    manager.refresh(Some(vec![o(Some("a"), 40)]), Some(balances()));
    let staged = match manager.cancel_all_orders() {
        CancelAllStep::Cancel(ids) => ids,
        _ => panic!("one order is live"),
    };
    manager.all_orders_cancelled(&staged, true);
    manager.place_orders(&[o(None, 41)]);
    manager.order_placed(Some(o(Some("late"), 41)));
    let staged = match manager.cancel_all_orders() {
        CancelAllStep::Cancel(ids) => ids,
        _ => panic!("the late order is live"),
    };
    assert_eq!(staged, vec!["late".to_string()]);
    manager.all_orders_cancelled(&staged, true);
    assert!(matches!(manager.cancel_all_orders(), CancelAllStep::Done));
}
