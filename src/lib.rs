//! Core model of a simple budget planner: budget items with a recurring period and an
//! amount, and named groups that keep their items in order.

/// Budget items: a name, a recurring period, a kind (income or expense) and an amount.
pub mod budget_item;

/// Named groups that keep their budget items sorted.
pub mod budget_group;
