//! The durable scheduler's settings: how often it ticks, how many claimed
//! schedules it dispatches at once, and how long one dispatch may run — and
//! what a dispatch that ran out of time records.
//!
//! The database pool, the flow registry, the runner and the clock are opaque
//! here: the type parameters `P`, `R`, `N` and `C`. Durations are whole
//! milliseconds.

use vstd::prelude::*;
use vstd::string::*;

use crate::decimal::{decimal, digit_char, format_u64};
use crate::text::push_char;

verus! {

/// Default tick cadence: one minute.
pub const DEFAULT_TICK_INTERVAL_MS: u64 = 60_000u64;

/// Default cap on dispatches in flight within one tick.
pub const DEFAULT_MAX_CONCURRENT_DISPATCH: usize = 16usize;

/// Default budget of one dispatch: thirty seconds.
pub const DEFAULT_DISPATCH_TIMEOUT_MS: u64 = 30_000u64;

/// The durable scheduler around a pool, a registry, a runner and a clock.
pub struct FlowAsService<P, R, N, C> {
    pool: P,
    registry: R,
    runner: N,
    clock: C,
    tick_interval_ms: u64,
    max_concurrent_dispatch: usize,
    dispatch_timeout_ms: u64,
}

impl<P, R, N, C> FlowAsService<P, R, N, C> {
    #[verifier::type_invariant]
    closed spec fn well_formed(self) -> bool {
        self.max_concurrent_dispatch >= 1
    }

    /// The pool.
    pub closed spec fn spec_pool(self) -> P {
        self.pool
    }

    /// The registry.
    pub closed spec fn spec_registry(self) -> R {
        self.registry
    }

    /// The runner.
    pub closed spec fn spec_runner(self) -> N {
        self.runner
    }

    /// The clock.
    pub closed spec fn spec_clock(self) -> C {
        self.clock
    }

    /// The tick cadence.
    pub closed spec fn spec_tick_interval_ms(self) -> u64 {
        self.tick_interval_ms
    }

    /// The dispatch concurrency cap.
    pub closed spec fn spec_max_concurrent_dispatch(self) -> usize {
        self.max_concurrent_dispatch
    }

    /// The dispatch budget.
    pub closed spec fn spec_dispatch_timeout_ms(self) -> u64 {
        self.dispatch_timeout_ms
    }

    /// A scheduler with the default cadence, cap and budget.
    pub fn new(pool: P, registry: R, runner: N, clock: C) -> (s: Self)
        ensures
            s.spec_pool() == pool,
            s.spec_registry() == registry,
            s.spec_runner() == runner,
            s.spec_clock() == clock,
            s.spec_tick_interval_ms() == DEFAULT_TICK_INTERVAL_MS,
            s.spec_max_concurrent_dispatch() == DEFAULT_MAX_CONCURRENT_DISPATCH,
            s.spec_dispatch_timeout_ms() == DEFAULT_DISPATCH_TIMEOUT_MS,
    {
        FlowAsService {
            pool,
            registry,
            runner,
            clock,
            tick_interval_ms: DEFAULT_TICK_INTERVAL_MS,
            max_concurrent_dispatch: DEFAULT_MAX_CONCURRENT_DISPATCH,
            dispatch_timeout_ms: DEFAULT_DISPATCH_TIMEOUT_MS,
        }
    }

    /// The same scheduler ticking every `interval_ms`.
    pub fn with_tick_interval(self, interval_ms: u64) -> (s: Self)
        ensures
            s.spec_tick_interval_ms() == interval_ms,
            s.spec_max_concurrent_dispatch() == self.spec_max_concurrent_dispatch(),
            s.spec_dispatch_timeout_ms() == self.spec_dispatch_timeout_ms(),
            s.spec_pool() == self.spec_pool() && s.spec_registry() == self.spec_registry()
                && s.spec_runner() == self.spec_runner() && s.spec_clock() == self.spec_clock(),
    {
        proof {
            use_type_invariant(&self);
        }
        FlowAsService { tick_interval_ms: interval_ms, ..self }
    }

    /// The same scheduler with at most `max` dispatches in flight; `0` is
    /// taken as `1` so dispatch always makes progress.
    pub fn with_max_concurrent_dispatch(self, max: usize) -> (s: Self)
        ensures
            s.spec_max_concurrent_dispatch() == if max == 0 {
                1
            } else {
                max
            },
            s.spec_tick_interval_ms() == self.spec_tick_interval_ms(),
            s.spec_dispatch_timeout_ms() == self.spec_dispatch_timeout_ms(),
            s.spec_pool() == self.spec_pool() && s.spec_registry() == self.spec_registry()
                && s.spec_runner() == self.spec_runner() && s.spec_clock() == self.spec_clock(),
    {
        let m: usize = if max == 0 {
            1
        } else {
            max
        };
        FlowAsService { max_concurrent_dispatch: m, ..self }
    }

    /// The same scheduler giving each dispatch `timeout_ms`.
    pub fn with_dispatch_timeout(self, timeout_ms: u64) -> (s: Self)
        ensures
            s.spec_dispatch_timeout_ms() == timeout_ms,
            s.spec_tick_interval_ms() == self.spec_tick_interval_ms(),
            s.spec_max_concurrent_dispatch() == self.spec_max_concurrent_dispatch(),
            s.spec_pool() == self.spec_pool() && s.spec_registry() == self.spec_registry()
                && s.spec_runner() == self.spec_runner() && s.spec_clock() == self.spec_clock(),
    {
        proof {
            use_type_invariant(&self);
        }
        FlowAsService { dispatch_timeout_ms: timeout_ms, ..self }
    }

    /// The same scheduler reading `clock`.
    pub fn with_clock<D>(self, clock: D) -> (s: FlowAsService<P, R, N, D>)
        ensures
            s.spec_clock() == clock,
            s.spec_tick_interval_ms() == self.spec_tick_interval_ms(),
            s.spec_max_concurrent_dispatch() == self.spec_max_concurrent_dispatch(),
            s.spec_dispatch_timeout_ms() == self.spec_dispatch_timeout_ms(),
            s.spec_pool() == self.spec_pool() && s.spec_registry() == self.spec_registry()
                && s.spec_runner() == self.spec_runner(),
    {
        proof {
            use_type_invariant(&self);
        }
        FlowAsService {
            pool: self.pool,
            registry: self.registry,
            runner: self.runner,
            clock,
            tick_interval_ms: self.tick_interval_ms,
            max_concurrent_dispatch: self.max_concurrent_dispatch,
            dispatch_timeout_ms: self.dispatch_timeout_ms,
        }
    }

    /// The pool.
    pub fn pool(&self) -> (r: &P)
        ensures
            *r == self.spec_pool(),
    {
        &self.pool
    }

    /// The registry.
    pub fn registry(&self) -> (r: &R)
        ensures
            *r == self.spec_registry(),
    {
        &self.registry
    }

    /// The runner.
    pub fn runner(&self) -> (r: &N)
        ensures
            *r == self.spec_runner(),
    {
        &self.runner
    }

    /// The clock.
    pub fn clock(&self) -> (r: &C)
        ensures
            *r == self.spec_clock(),
    {
        &self.clock
    }

    /// The tick cadence, in milliseconds.
    pub fn tick_interval_ms(&self) -> (r: u64)
        ensures
            r == self.spec_tick_interval_ms(),
    {
        self.tick_interval_ms
    }

    /// The dispatch concurrency cap, never 0.
    pub fn max_concurrent_dispatch(&self) -> (r: usize)
        ensures
            r == self.spec_max_concurrent_dispatch(),
            r >= 1,
    {
        proof {
            use_type_invariant(self);
        }
        self.max_concurrent_dispatch
    }

    /// The dispatch budget, in milliseconds.
    pub fn dispatch_timeout_ms(&self) -> (r: u64)
        ensures
            r == self.spec_dispatch_timeout_ms(),
    {
        self.dispatch_timeout_ms
    }
}

/// The fractional part of `r / 1000` as `{:?}` of a duration writes it:
/// nothing when `r` is 0, else a point and the digits, trailing zeros
/// dropped.
pub open spec fn millis_fraction(r: nat) -> Seq<char> {
    let d1 = r / 100;
    let d2 = (r / 10) % 10;
    let d3 = r % 10;
    if r == 0 {
        Seq::empty()
    } else if d3 != 0 {
        seq!['.', digit_char(d1), digit_char(d2), digit_char(d3)]
    } else if d2 != 0 {
        seq!['.', digit_char(d1), digit_char(d2)]
    } else {
        seq!['.', digit_char(d1)]
    }
}

/// How `{:?}` writes a duration of `ms` whole milliseconds: `0ns`, `250ms`,
/// `30s`, `1.5s`.
pub open spec fn millis_debug(ms: nat) -> Seq<char> {
    if ms == 0 {
        "0ns"@
    } else if ms < 1000 {
        decimal(ms) + "ms"@
    } else {
        decimal(ms / 1000) + millis_fraction(ms % 1000) + "s"@
    }
}

fn digit(d: u64) -> (c: char)
    requires
        d < 10,
    ensures
        c == digit_char(d as nat),
{
    if d == 0 {
        '0'
    } else if d == 1 {
        '1'
    } else if d == 2 {
        '2'
    } else if d == 3 {
        '3'
    } else if d == 4 {
        '4'
    } else if d == 5 {
        '5'
    } else if d == 6 {
        '6'
    } else if d == 7 {
        '7'
    } else if d == 8 {
        '8'
    } else {
        '9'
    }
}

/// `{:?}` of a duration of `ms` whole milliseconds.
pub fn format_millis_debug(ms: u64) -> (r: String)
    ensures
        r@ == millis_debug(ms as nat),
{
    if ms == 0 {
        return String::from_str("0ns");
    }
    if ms < 1000 {
        return format_u64(ms).concat("ms");
    }
    let mut out = format_u64(ms / 1000);
    let rem = ms % 1000;
    let ghost head = out@;
    if rem != 0 {
        let d1 = rem / 100;
        let d2 = (rem / 10) % 10;
        let d3 = rem % 10;
        push_char(&mut out, '.');
        push_char(&mut out, digit(d1));
        if d3 != 0 {
            push_char(&mut out, digit(d2));
            push_char(&mut out, digit(d3));
        } else if d2 != 0 {
            push_char(&mut out, digit(d2));
        }
    }
    assert(out@ =~= head + millis_fraction(rem as nat));
    let r = out.concat("s");
    r
}

/// What a dispatch that ran past its budget records as its failure.
pub fn dispatch_timeout_message(timeout_ms: u64) -> (m: String)
    ensures
        m@ == "flow dispatch exceeded "@ + millis_debug(timeout_ms as nat) + " budget"@,
{
    let m = String::from_str("flow dispatch exceeded ").concat(format_millis_debug(timeout_ms).as_str());
    m.concat(" budget")
}

} // verus!
