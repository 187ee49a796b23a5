use rbp_core::budget_group::{BudgetGroup, InvalidIndex};
use rbp_core::budget_item::{BudgetItem, Period};

#[test]
fn new() {
    let group = BudgetGroup::new("foo");
    assert_eq!("foo", group.name());
}

#[test]
fn add() {
    let mut item_group = BudgetGroup::new("foo");
    assert_eq!(0, item_group.enumerate().len());

    let item = BudgetItem::with_income("bar", 10, Period::Every1Month);
    item_group.add(item);

    assert_eq!(1, item_group.enumerate().len())
}

#[test]
fn list_is_ordered() {
    let mut item_group = BudgetGroup::new("foo");

    let item1 = BudgetItem::with_income("qq", 10, Period::Every1Month);
    let item2 = BudgetItem::with_income("ab", 10, Period::Every1Month);
    let expected_first = item2.clone();
    item_group.add(item1);
    item_group.add(item2);

    assert_eq!(&expected_first, item_group.enumerate()[0].1, "Unexpected first budget item")
}

#[test]
fn remove() {
    let mut item_group = BudgetGroup::new("foo");
    let item = BudgetItem::with_income("bar", 10, Period::Every1Month);
    item_group.add(item);

    let removed = item_group.remove(0);
    assert!(removed.is_ok());
    assert_eq!(0, item_group.enumerate().len())
}

#[test]
fn lifecycle_add_then_remove() {
    let mut group = BudgetGroup::new("foo");
    assert_eq!(0, group.enumerate().len());
    group.add(BudgetItem::with_income("salary", 100, Period::Every1Month));
    assert_eq!(1, group.enumerate().len());
    assert_eq!(Ok(()), group.remove(0));
    assert_eq!(0, group.enumerate().len());
}

#[test]
fn remove_at_length_is_rejected() {
    let mut group = BudgetGroup::new("foo");
    group.add(BudgetItem::with_income("bar", 10, Period::Every1Month));
    assert_eq!(Err(InvalidIndex {}), group.remove(1));
    assert_eq!(1, group.enumerate().len());
    assert_eq!(Ok(()), group.remove(0));
    assert_eq!(0, group.enumerate().len());
}

#[test]
fn remove_from_empty_is_rejected() {
    let mut group = BudgetGroup::new("empty");
    assert_eq!(Err(InvalidIndex {}), group.remove(0));
    assert_eq!(0, group.enumerate().len());
}

#[test]
fn remove_keeps_others_in_order() {
    let mut group = BudgetGroup::new("g");
    group.add(BudgetItem::with_income("c", 1, Period::Every1Month));
    group.add(BudgetItem::with_income("a", 1, Period::Every1Month));
    group.add(BudgetItem::with_income("b", 1, Period::Every1Month));
    assert_eq!(Ok(()), group.remove(1));
    let items = group.enumerate();
    assert_eq!(2, items.len());
    assert_eq!(&BudgetItem::with_income("a", 1, Period::Every1Month), items[0].1);
    assert_eq!(&BudgetItem::with_income("c", 1, Period::Every1Month), items[1].1);
}

#[test]
fn enumeration_is_sorted_after_every_add() {
    let mut group = BudgetGroup::new("g");
    let items = vec![
        BudgetItem::with_expense("rent", 900, Period::Every1Month),
        BudgetItem::with_income("rent", 50, Period::Every1Month),
        BudgetItem::with_income("bonus", 1200, Period::Every12Months),
        BudgetItem::with_expense("insurance", 300, Period::Every6Months),
        BudgetItem::with_income("rent", 50, Period::Every3Months),
        BudgetItem::with_income("bonus", 1200, Period::Every12Months),
    ];
    for item in items {
        group.add(item);
        let listed = group.enumerate();
        for (pos, pair) in listed.iter().enumerate() {
            assert_eq!(pos, pair.0);
        }
        for w in listed.windows(2) {
            assert!(w[0].1 <= w[1].1);
        }
    }
    let listed = group.enumerate();
    assert_eq!(6, listed.len());
    assert_eq!(&BudgetItem::with_income("bonus", 1, Period::Every12Months), listed[0].1);
    assert_eq!(&BudgetItem::with_expense("insurance", 1, Period::Every6Months), listed[2].1);
    assert_eq!(&BudgetItem::with_income("rent", 1, Period::Every1Month), listed[3].1);
    assert_eq!(&BudgetItem::with_expense("rent", 1, Period::Every1Month), listed[4].1);
    assert_eq!(&BudgetItem::with_income("rent", 1, Period::Every3Months), listed[5].1);
}

#[test]
fn duplicates_are_kept() {
    let mut group = BudgetGroup::new("g");
    group.add(BudgetItem::with_income("x", 10, Period::Every1Month));
    group.add(BudgetItem::with_income("x", 20, Period::Every1Month));
    assert_eq!(2, group.enumerate().len());
}
