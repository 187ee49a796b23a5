use vstd::prelude::*;
use vstd::string::*;
use core::cmp::Ordering;
use vstd::std_specs::cmp::{PartialEqSpec, PartialOrdSpec};

verus! {

/// The repeating period of a budget item, e.g. `Every3Months` means an item whose amount is
/// repeated every 3 months.
#[derive(PartialEq, Eq, Structural, Debug, Clone, Copy)]
pub enum Period {
    /// The amount of the budget item is based on a 1-month recurring period.
    Every1Month,
    /// The amount of the budget item is based on a 2-month recurring period.
    Every2Months,
    /// The amount of the budget item is based on a 3-month recurring period.
    Every3Months,
    /// The amount of the budget item is based on a 6-month recurring period.
    Every6Months,
    /// The amount of the budget item is based on a 12-month recurring period.
    Every12Months,
}

/// Length of a period in months.
pub open spec fn period_months(p: Period) -> nat {
    match p {
        Period::Every1Month => 1,
        Period::Every2Months => 2,
        Period::Every3Months => 3,
        Period::Every6Months => 6,
        Period::Every12Months => 12,
    }
}

impl Period {
    /// The number of months in this period.
    pub fn months(&self) -> (r: u8)
        ensures
            r as nat == period_months(*self),
    {
        match self {
            Period::Every1Month => 1,
            Period::Every2Months => 2,
            Period::Every3Months => 3,
            Period::Every6Months => 6,
            Period::Every12Months => 12,
        }
    }
}

/// Whether a budget item adds to (income) or takes from (expense) a budget.
#[derive(PartialEq, Eq, Structural, Debug, Clone, Copy)]
pub enum ItemKind {
    /// A positive contribution.
    Income,
    /// A negative contribution.
    Expense,
}

/// Position of a period in the order of periods: shorter periods come first.
pub open spec fn period_rank(p: Period) -> nat {
    period_months(p)
}

/// Position of a kind in the order of kinds: incomes come before expenses.
pub open spec fn kind_rank(k: ItemKind) -> nat {
    match k {
        ItemKind::Income => 0,
        ItemKind::Expense => 1,
    }
}

/// `a` is lexicographically smaller than `b`, given that both agree before index `i`.
pub open spec fn chars_lt_from(a: Seq<char>, b: Seq<char>, i: int) -> bool
    decreases a.len() - i,
{
    if i < 0 || i >= a.len() {
        0 <= i < b.len()
    } else if i >= b.len() {
        false
    } else if a[i] != b[i] {
        a[i] < b[i]
    } else {
        chars_lt_from(a, b, i + 1)
    }
}

/// Lexicographic (code point) order on names.
pub open spec fn chars_lt(a: Seq<char>, b: Seq<char>) -> bool {
    chars_lt_from(a, b, 0)
}

/// Of two names that agree before index `i`, at most one comes first, and when neither does
/// they are equal.
proof fn lemma_chars_lt_from_trichotomy(a: Seq<char>, b: Seq<char>, i: int)
    requires
        0 <= i <= a.len(),
        i <= b.len(),
        forall|j: int| 0 <= j < i ==> a[j] == b[j],
    ensures
        !(chars_lt_from(a, b, i) && chars_lt_from(b, a, i)),
        !chars_lt_from(a, b, i) && !chars_lt_from(b, a, i) ==> a == b,
    decreases a.len() - i,
{
    if i < a.len() && i < b.len() && a[i] == b[i] {
        lemma_chars_lt_from_trichotomy(a, b, i + 1);
    } else if i == a.len() && i == b.len() {
        assert(a =~= b);
    }
}

/// The lexicographic order on names is transitive.
proof fn lemma_chars_lt_from_transitive(a: Seq<char>, b: Seq<char>, c: Seq<char>, i: int)
    requires
        0 <= i <= a.len(),
        i <= b.len(),
        i <= c.len(),
        chars_lt_from(a, b, i),
        chars_lt_from(b, c, i),
    ensures
        chars_lt_from(a, c, i),
    decreases a.len() - i,
{
    if i < a.len() && i < b.len() && i < c.len() && a[i] == b[i] && b[i] == c[i] {
        lemma_chars_lt_from_transitive(a, b, c, i + 1);
    }
}

/// Of two items, exactly one holds: the first comes before the second, they have the same
/// identity, or the second comes before the first. The three-way comparison says which.
pub proof fn lemma_item_trichotomy(a: ItemView, b: ItemView)
    ensures
        item_lt(a, b) || same_key(a, b) || item_lt(b, a),
        !(item_lt(a, b) && same_key(a, b)),
        !(item_lt(a, b) && item_lt(b, a)),
        !(same_key(a, b) && item_lt(b, a)),
        item_cmp(a, b) == Ordering::Less <==> item_lt(a, b),
        item_cmp(a, b) == Ordering::Equal <==> same_key(a, b),
        item_cmp(a, b) == Ordering::Greater <==> item_lt(b, a),
{
    lemma_chars_lt_from_trichotomy(a.name, b.name, 0);
}

/// The order on items is transitive, both strictly and with equal identities allowed.
pub proof fn lemma_item_order_transitive(a: ItemView, b: ItemView, c: ItemView)
    ensures
        item_lt(a, b) && item_lt(b, c) ==> item_lt(a, c),
        item_le(a, b) && item_le(b, c) ==> item_le(a, c),
{
    if chars_lt(a.name, b.name) && chars_lt(b.name, c.name) {
        lemma_chars_lt_from_transitive(a.name, b.name, c.name, 0);
    }
}

/// Equality and order leave the amount out: two items that differ in amount alone are equal,
/// compare as equal, and stand in the same place relative to every other item.
pub proof fn lemma_amount_not_in_identity(a: BudgetItem, b: BudgetItem, c: ItemView)
    requires
        a@.name == b@.name,
        a@.period == b@.period,
        a@.kind == b@.kind,
    ensures
        a.eq_spec(&b),
        a.partial_cmp_spec(&b) == Some(Ordering::Equal),
        item_lt(a@, c) == item_lt(b@, c),
        item_lt(c, a@) == item_lt(c, b@),
{
    lemma_item_trichotomy(a@, b@);
}

/// Compare two names character by character (code point order).
fn compare_names(a: &String, b: &String) -> (r: Ordering)
    ensures
        r == Ordering::Less <==> chars_lt(a@, b@),
        r == Ordering::Equal <==> a@ == b@,
        r == Ordering::Greater <==> chars_lt(b@, a@),
{
    proof {
        lemma_chars_lt_from_trichotomy(a@, b@, 0);
    }
    let sa = a.as_str();
    let sb = b.as_str();
    let la = sa.unicode_len();
    let lb = sb.unicode_len();
    let mut i: usize = 0;
    while i < la && i < lb
        invariant
            i <= la,
            i <= lb,
            la == a@.len(),
            lb == b@.len(),
            sa@ == a@,
            sb@ == b@,
            forall|j: int| 0 <= j < i ==> a@[j] == b@[j],
            chars_lt(a@, b@) == chars_lt_from(a@, b@, i as int),
            chars_lt(b@, a@) == chars_lt_from(b@, a@, i as int),
        decreases la - i,
    {
        let ca = sa.get_char(i);
        let cb = sb.get_char(i);
        if ca != cb {
            if ca < cb {
                return Ordering::Less;
            } else {
                return Ordering::Greater;
            }
        }
        i = i + 1;
    }
    if la < lb {
        Ordering::Less
    } else if lb < la {
        Ordering::Greater
    } else {
        proof {
            assert(a@ =~= b@);
        }
        Ordering::Equal
    }
}

/// The mathematical value of a budget item.
pub struct ItemView {
    pub name: Seq<char>,
    pub period: Period,
    pub kind: ItemKind,
    /// The nominal amount per period, in the currency's smallest unit.
    pub amount: int,
}

/// Two items have the same identity: name, period and kind agree (the amount does not count).
pub open spec fn same_key(a: ItemView, b: ItemView) -> bool {
    a.name == b.name && a.period == b.period && a.kind == b.kind
}

/// `a` comes strictly before `b`: by name, then by period, then by kind.
pub open spec fn item_lt(a: ItemView, b: ItemView) -> bool {
    chars_lt(a.name, b.name) || (a.name == b.name && (period_rank(a.period) < period_rank(
        b.period,
    ) || (a.period == b.period && kind_rank(a.kind) < kind_rank(b.kind))))
}

/// `a` comes before `b` or has the same identity.
pub open spec fn item_le(a: ItemView, b: ItemView) -> bool {
    item_lt(a, b) || same_key(a, b)
}

/// The three-way comparison of two items.
pub open spec fn item_cmp(a: ItemView, b: ItemView) -> Ordering {
    if item_lt(a, b) {
        Ordering::Less
    } else if same_key(a, b) {
        Ordering::Equal
    } else {
        Ordering::Greater
    }
}

/// The amount with the sign of the item's kind.
pub open spec fn signed_amount(v: ItemView) -> int {
    match v.kind {
        ItemKind::Income => v.amount,
        ItemKind::Expense => -v.amount,
    }
}

/// A singular entry in a budget: a name, a recurring period, a kind and a positive amount.
///
/// The amount is a whole number of the currency's smallest unit (cents, for instance) and is
/// always positive; whether the item adds to or takes from a budget is given by its kind.
#[derive(Debug)]
pub struct BudgetItem {
    name: String,
    period: Period,
    kind: ItemKind,
    amount: i64,
}

impl View for BudgetItem {
    type V = ItemView;

    closed spec fn view(&self) -> ItemView {
        ItemView {
            name: self.name@,
            period: self.period,
            kind: self.kind,
            amount: self.amount as int,
        }
    }
}

impl BudgetItem {
    #[verifier::type_invariant]
    spec fn amount_is_positive(&self) -> bool {
        self.amount > 0
    }

    /// Three-way comparison by name, then period, then kind; the amount does not count.
    pub fn compare(&self, other: &Self) -> (r: Ordering)
        ensures
            r == item_cmp(self@, other@),
    {
        proof {
            lemma_item_trichotomy(self@, other@);
        }
        let by_name = compare_names(&self.name, &other.name);
        match by_name {
            Ordering::Equal => {},
            _ => {
                return by_name;
            },
        }
        let pa = self.period.months();
        let pb = other.period.months();
        if pa < pb {
            return Ordering::Less;
        } else if pb < pa {
            return Ordering::Greater;
        }
        proof {
            assert(self.period == other.period);
        }
        match (self.kind, other.kind) {
            (ItemKind::Income, ItemKind::Expense) => Ordering::Less,
            (ItemKind::Expense, ItemKind::Income) => Ordering::Greater,
            _ => Ordering::Equal,
        }
    }

    /// Create an income item, which contributes positively to a budget.
    pub fn with_income(name: &str, amount: i64, period: Period) -> (r: BudgetItem)
        requires
            amount > 0,
        ensures
            r@ == (ItemView { name: name@, period, kind: ItemKind::Income, amount: amount as int }),
    {
        BudgetItem { name: name.to_owned(), period, kind: ItemKind::Income, amount }
    }

    /// Create an expense item, which contributes negatively to a budget.
    pub fn with_expense(name: &str, amount: i64, period: Period) -> (r: BudgetItem)
        requires
            amount > 0,
        ensures
            r@ == (ItemView { name: name@, period, kind: ItemKind::Expense, amount: amount as int }),
    {
        BudgetItem { name: name.to_owned(), period, kind: ItemKind::Expense, amount }
    }

    /// Create an income item, or nothing when the amount is not positive.
    pub fn try_with_income(name: &str, amount: i64, period: Period) -> (r: Option<BudgetItem>)
        ensures
            r is None <==> amount <= 0,
            r matches Some(item) ==> item@ == (ItemView {
                name: name@,
                period,
                kind: ItemKind::Income,
                amount: amount as int,
            }),
    {
        if amount > 0 {
            Some(Self::with_income(name, amount, period))
        } else {
            None
        }
    }

    /// Create an expense item, or nothing when the amount is not positive.
    pub fn try_with_expense(name: &str, amount: i64, period: Period) -> (r: Option<BudgetItem>)
        ensures
            r is None <==> amount <= 0,
            r matches Some(item) ==> item@ == (ItemView {
                name: name@,
                period,
                kind: ItemKind::Expense,
                amount: amount as int,
            }),
    {
        if amount > 0 {
            Some(Self::with_expense(name, amount, period))
        } else {
            None
        }
    }

    /// The monthly contribution of this item, in twelfths of the amount's unit.
    ///
    /// A month's share of the amount is `amount / months`; as every period divides a year,
    /// that share is a whole number of twelfths. Expenses contribute negatively.
    pub fn monthly_contribution(&self) -> (r: i128)
        ensures
            r * period_months(self@.period) == 12 * signed_amount(self@),
            self@.kind == ItemKind::Income ==> r > 0,
            self@.kind == ItemKind::Expense ==> r < 0,
    {
        proof {
            use_type_invariant(self);
        }
        let twelfths_per_month: i128 = match self.period {
            Period::Every1Month => 12,
            Period::Every2Months => 6,
            Period::Every3Months => 4,
            Period::Every6Months => 2,
            Period::Every12Months => 1,
        };
        let share = self.amount as i128 * twelfths_per_month;
        proof {
            let m = period_months(self.period) as int;
            assert(twelfths_per_month * m == 12);
            assert(share * m == self.amount * 12) by (nonlinear_arith)
                requires
                    share == self.amount * twelfths_per_month,
                    twelfths_per_month * m == 12,
            ;
        }
        match self.kind {
            ItemKind::Income => share,
            ItemKind::Expense => -share,
        }
    }
}

impl PartialEq for BudgetItem {
    fn eq(&self, other: &Self) -> (r: bool) {
        self.name == other.name && self.period == other.period && self.kind == other.kind
    }
}

impl vstd::std_specs::cmp::PartialEqSpecImpl for BudgetItem {
    open spec fn obeys_eq_spec() -> bool {
        true
    }

    open spec fn eq_spec(&self, other: &BudgetItem) -> bool {
        same_key(self@, other@)
    }
}

impl Eq for BudgetItem {

}

impl PartialOrd for BudgetItem {
    fn partial_cmp(&self, other: &Self) -> (r: Option<Ordering>) {
        Some(self.compare(other))
    }
}

impl vstd::std_specs::cmp::PartialOrdSpecImpl for BudgetItem {
    open spec fn obeys_partial_cmp_spec() -> bool {
        true
    }

    open spec fn partial_cmp_spec(&self, other: &BudgetItem) -> Option<Ordering> {
        Some(item_cmp(self@, other@))
    }
}

impl Clone for BudgetItem {
    fn clone(&self) -> (r: Self)
        ensures
            r@ == self@,
    {
        proof {
            use_type_invariant(self);
        }
        BudgetItem { name: self.name.clone(), period: self.period, kind: self.kind, amount: self.amount }
    }
}

} // verus!
