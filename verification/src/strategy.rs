use vstd::prelude::*;
use crate::data_loading::{DatedStockData, Metadata};
use crate::order::Order;
use crate::portfolio::Portfolio;

verus! {

/// The signed sum of the closes of a window of bars.
pub open spec fn sum_closes(s: Seq<DatedStockData>) -> int
    decreases s.len(),
{
    if s.len() == 0 {
        0
    } else {
        sum_closes(s.drop_last()) + s.last().close
    }
}

/// The moving-average crossover rule. With fewer bars than the window
/// (or a zero-length window) there is no decision; otherwise the last
/// close is compared against the arithmetic mean of the last `window`
/// closes — by cross-multiplication, so the comparison is exact:
/// buy `long_quantity` on a close above the mean while not net-long,
/// sell `short_quantity` on a close below the mean while not net-short,
/// and do nothing on a tie.
pub open spec fn ma_decision(
    window: nat,
    long_quantity: i64,
    short_quantity: i64,
    data: Seq<DatedStockData>,
    position: int,
) -> Option<i64> {
    if window == 0 || data.len() < window {
        None
    } else {
        let sum = sum_closes(data.skip(data.len() - window));
        let last = data.last().close as int;
        if last * window > sum && position <= 0 {
            Some(long_quantity)
        } else if last * window < sum && position >= 0 {
            Some(short_quantity)
        } else {
            None
        }
    }
}

/// A decision component: given the bars visible so far, the instrument
/// and a read-only view of the portfolio, it emits at most one order
/// intent. The decision is a pure function of those inputs — `on_data`
/// must return exactly what the `decision` spec says, so a strategy is
/// deterministic by contract.
pub trait Strategy: Sized {
    /// What the strategy decides: `None` for no action, or the signed
    /// quantity to order.
    spec fn decision(&self, data: Seq<DatedStockData>, metadata: Metadata, portfolio: Portfolio) ->
        Option<i64>;

    fn on_data(&self, data: Vec<DatedStockData>, metadata: &Metadata, portfolio: &Portfolio) -> (r:
        Option<Order>)
        ensures
            (r is Some <==> self.decision(data@, *metadata, *portfolio) is Some),
            r is Some ==> r->0.quantity == self.decision(data@, *metadata, *portfolio)->0
                && r->0.ticker == metadata.symbol,
    ;
}

/// The reference strategy: a moving-average crossover over the last
/// `window` closes.
#[derive(Clone, Copy, Debug)]
pub struct MACrossoverStrategy {
    pub window: u32,
    pub long_quantity: i64,
    pub short_quantity: i64,
}

impl MACrossoverStrategy {
    pub fn new(window: u32, long_quantity: i64, short_quantity: i64) -> (r: MACrossoverStrategy)
        ensures
            r == (MACrossoverStrategy { window, long_quantity, short_quantity }),
    {
        MACrossoverStrategy { window, long_quantity, short_quantity }
    }
}

impl Strategy for MACrossoverStrategy {
    open spec fn decision(&self, data: Seq<DatedStockData>, metadata: Metadata, portfolio: Portfolio)
        -> Option<i64> {
        ma_decision(
            self.window as nat,
            self.long_quantity,
            self.short_quantity,
            data,
            portfolio.position as int,
        )
    }

    fn on_data(&self, data: Vec<DatedStockData>, metadata: &Metadata, portfolio: &Portfolio) -> (r:
        Option<Order>) {
        let n = data.len();
        let w = self.window as usize;
        if w == 0 || n < w {
            return None;
        }
        let start = n - w;
        let mut sum: i128 = 0;
        let mut j = start;
        while j < n
            invariant
                start <= j <= n,
                n == data@.len(),
                start == n - w,
                1 <= w <= u32::MAX,
                sum == sum_closes(data@.subrange(start as int, j as int)),
                -((j - start) as int) * 9223372036854775808int <= sum as int <= ((j - start) as int)
                    * 9223372036854775807int,
            decreases n - j,
        {
            let c = data[j].close;
            proof {
                let sub1 = data@.subrange(start as int, (j + 1) as int);
                assert(sub1.drop_last() =~= data@.subrange(start as int, j as int));
                assert(sub1.last() == data@[j as int]);
            }
            sum = sum + c as i128;
            j += 1;
        }
        proof {
            assert(data@.subrange(start as int, n as int) =~= data@.skip(start as int));
        }
        let last = data[n - 1].close;
        proof {
            assert((last as int) * (w as int) <= 39614081257132168796771975168int && (last as int)
                * (w as int) >= -39614081257132168796771975168int) by (nonlinear_arith)
                requires
                    -9223372036854775808int <= last as int <= 9223372036854775807int,
                    1 <= w as int <= 4294967295int,
            ;
        }
        let lhs: i128 = (last as i128) * (w as i128);
        if lhs > sum && portfolio.is_not_long() {
            Some(Order::new(metadata.symbol.clone(), self.long_quantity))
        } else if lhs < sum && portfolio.is_not_short() {
            Some(Order::new(metadata.symbol.clone(), self.short_quantity))
        } else {
            None
        }
    }
}

/// The sum of a window whose closes are all `v` is `len * v`.
proof fn lemma_sum_constant_closes(s: Seq<DatedStockData>, v: int)
    requires
        forall|i: int| 0 <= i < s.len() ==> s[i].close == v,
    ensures
        sum_closes(s) == s.len() * v,
    decreases s.len(),
{
    if s.len() == 0 {
    } else {
        lemma_sum_constant_closes(s.drop_last(), v);
        assert(((s.len() - 1) as int) * v + v == (s.len() as int) * v) by (nonlinear_arith);
    }
}

/// A tie is a no-op: on a window whose last `window` closes are all
/// equal, the moving-average strategy emits no order — the mean equals
/// the last price, so neither crossover condition holds.
pub proof fn lemma_tie_no_op(
    window: nat,
    long_quantity: i64,
    short_quantity: i64,
    data: Seq<DatedStockData>,
    position: int,
)
    requires
        window > 0,
        data.len() >= window,
        forall|i: int| data.len() - window <= i < data.len() ==> (#[trigger] data[i]).close
            == data[data.len() - 1].close,
    ensures
        ma_decision(window, long_quantity, short_quantity, data, position) is None,
{
    let tail = data.skip(data.len() - window);
    let v = data.last().close as int;
    assert(forall|i: int| 0 <= i < tail.len() ==> (#[trigger] tail[i]).close == v);
    lemma_sum_constant_closes(tail, v);
    assert(tail.len() == window);
    assert(sum_closes(tail) == (window as int) * v);
    assert((data.last().close as int) * (window as int) == (window as int) * v);
}

/// The decision logic is deterministic: the strategy contract pins the
/// emitted action, so any two results it admits for the same window,
/// metadata and portfolio state carry the same action.
pub proof fn lemma_decision_deterministic<S: Strategy>(
    strategy: &S,
    data: Seq<DatedStockData>,
    metadata: Metadata,
    portfolio: Portfolio,
    r1: Option<Order>,
    r2: Option<Order>,
)
    requires
        r1 is Some <==> strategy.decision(data, metadata, portfolio) is Some,
        r1 is Some ==> r1->0.quantity == strategy.decision(data, metadata, portfolio)->0,
        r2 is Some <==> strategy.decision(data, metadata, portfolio) is Some,
        r2 is Some ==> r2->0.quantity == strategy.decision(data, metadata, portfolio)->0,
    ensures
        r1 is Some <==> r2 is Some,
        r1 is Some ==> r1->0.quantity == r2->0.quantity,
{
}

/// Which registered constructor a registry entry stands for.
#[derive(Clone, Copy, Debug, PartialEq, Eq, Structural)]
pub enum StrategyKind {
    MACrossover,
}

/// A strategy any registry entry can instantiate, dispatching the
/// `Strategy` capability to the concrete variant.
#[derive(Clone, Copy, Debug)]
pub enum AnyStrategy {
    MACrossover(MACrossoverStrategy),
}

impl Strategy for AnyStrategy {
    open spec fn decision(&self, data: Seq<DatedStockData>, metadata: Metadata, portfolio: Portfolio)
        -> Option<i64> {
        match self {
            AnyStrategy::MACrossover(s) => s.decision(data, metadata, portfolio),
        }
    }

    fn on_data(&self, data: Vec<DatedStockData>, metadata: &Metadata, portfolio: &Portfolio) -> (r:
        Option<Order>) {
        match self {
            AnyStrategy::MACrossover(s) => s.on_data(data, metadata, portfolio),
        }
    }
}

/// One name-to-constructor binding of the registry.
#[derive(Debug)]
pub struct RegistryEntry {
    pub name: String,
    pub kind: StrategyKind,
}

/// What a registry maps a name to: the most recent binding wins.
pub open spec fn spec_lookup(s: Seq<RegistryEntry>, name: Seq<char>) -> Option<StrategyKind>
    decreases s.len(),
{
    if s.len() == 0 {
        None
    } else if s.last().name@ == name {
        Some(s.last().kind)
    } else {
        spec_lookup(s.drop_last(), name)
    }
}

/// The strategy a registry entry constructs for the given parameters.
pub open spec fn instantiate(
    kind: StrategyKind,
    window: u32,
    long_quantity: i64,
    short_quantity: i64,
) -> AnyStrategy {
    match kind {
        StrategyKind::MACrossover => AnyStrategy::MACrossover(
            MACrossoverStrategy { window, long_quantity, short_quantity },
        ),
    }
}

/// A registry from strategy name to constructor, built once at startup
/// and passed by reference to whatever selects strategies at run time.
#[derive(Debug)]
pub struct StrategyFactory {
    entries: Vec<RegistryEntry>,
}

impl StrategyFactory {
    /// The constructor registered under a name, if any.
    pub closed spec fn lookup(&self, name: Seq<char>) -> Option<StrategyKind> {
        spec_lookup(self.entries@, name)
    }

    /// A fresh registry holding the built-in strategies: the
    /// moving-average crossover under "ma_crossover".
    pub fn new() -> (r: StrategyFactory)
        ensures
            forall|n: Seq<char>| #![auto] r.lookup(n) == if n == "ma_crossover"@ {
                Some(StrategyKind::MACrossover)
            } else {
                None::<StrategyKind>
            },
    {
        let mut entries: Vec<RegistryEntry> = Vec::new();
        entries.push(
            RegistryEntry { name: "ma_crossover".to_owned(), kind: StrategyKind::MACrossover },
        );
        let r = StrategyFactory { entries };
        proof {
            assert forall|n: Seq<char>| #![auto] r.lookup(n) == if n == "ma_crossover"@ {
                Some(StrategyKind::MACrossover)
            } else {
                None::<StrategyKind>
            } by {
                let e = r.entries@;
                assert(e.last().name@ == "ma_crossover"@);
                assert(e.drop_last().len() == 0);
                assert(spec_lookup(e.drop_last(), n) is None);
                if n == "ma_crossover"@ {
                    assert(r.lookup(n) == Some(StrategyKind::MACrossover));
                } else {
                    assert(r.lookup(n) == spec_lookup(e.drop_last(), n));
                }
            }
        }
        r
    }

    /// Inserts or overwrites the binding for `name`.
    pub fn register(&mut self, name: &str, kind: StrategyKind)
        ensures
            final(self).lookup(name@) == Some(kind),
            forall|n: Seq<char>| n != name@ ==> #[trigger] final(self).lookup(n) == old(
                self,
            ).lookup(n),
    {
        let entry = RegistryEntry { name: name.to_owned(), kind };
        self.entries.push(entry);
        proof {
            assert(self.entries@.drop_last() =~= old(self).entries@);
        }
    }

    /// Looks the name up and instantiates the bound strategy with the
    /// given parameters; absent exactly when the name is unregistered.
    pub fn create(&self, name: &str, window: u32, long_qty: i64, short_qty: i64) -> (r: Option<
        AnyStrategy,
    >)
        ensures
            match self.lookup(name@) {
                Option::None => r is None,
                Option::Some(kind) => r == Some(instantiate(kind, window, long_qty, short_qty)),
            },
    {
        let key: String = name.to_owned();
        proof {
            assert(self.entries@.take(self.entries@.len() as int) =~= self.entries@);
        }
        let mut idx = self.entries.len();
        while idx > 0
            invariant
                idx <= self.entries@.len(),
                key@ == name@,
                spec_lookup(self.entries@, name@) == spec_lookup(
                    self.entries@.take(idx as int),
                    name@,
                ),
            decreases idx,
        {
            idx = idx - 1;
            proof {
                let taken = self.entries@.take((idx + 1) as int);
                assert(taken.last() == self.entries@[idx as int]);
                assert(taken.drop_last() =~= self.entries@.take(idx as int));
            }
            if self.entries[idx].name == key {
                let kind = self.entries[idx].kind;
                match kind {
                    StrategyKind::MACrossover => {
                        return Some(
                            AnyStrategy::MACrossover(
                                MACrossoverStrategy {
                                    window,
                                    long_quantity: long_qty,
                                    short_quantity: short_qty,
                                },
                            ),
                        );
                    },
                }
            }
        }
        proof {
            assert(self.entries@.take(0) =~= Seq::<RegistryEntry>::empty());
        }
        None
    }
}

} // verus!
