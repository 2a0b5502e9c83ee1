//! The Runner: generates a random buffer once, then performs a fixed number
//! of hash invocations on windows drawn from it. In static mode the buffer
//! is one window and every invocation hashes the same bytes; in sliding mode
//! the buffer is four windows long and the window advances one byte per
//! invocation, wrapping to the start once it would escape the buffer.

use vstd::prelude::*;
use vstd::arithmetic::div_mod::{
    lemma_fundamental_div_mod, lemma_fundamental_div_mod_converse, lemma_mod_bound,
};
use vstd::arithmetic::mul::lemma_mul_inequality;
use vstd::slice::slice_subrange;
use crate::dispatch::ConfigError;
use crate::hasher::Hasher;
use crate::rng::generate_random_blob;

verus! {

/// How the Runner draws windows from its buffer.
#[derive(Clone, Copy, PartialEq, Eq, Structural)]
pub enum Mode {
    /// The buffer is exactly one window; every iteration hashes it whole.
    Static,
    /// The buffer is four windows long; the window slides one byte per
    /// iteration and wraps to the start.
    Sliding,
}

impl Mode {
    /// How many windows long the buffer is in this mode.
    pub open spec fn multiplier_spec(self) -> nat {
        match self {
            Mode::Static => 1,
            Mode::Sliding => 4,
        }
    }

    /// The buffer length multiplier for this mode.
    pub fn multiplier(&self) -> (m: usize)
        ensures
            m as nat == self.multiplier_spec(),
    {
        match self {
            Mode::Static => 1,
            Mode::Sliding => 4,
        }
    }
}

/// The offset after one window transition: advance by one byte if the next
/// window still fits, else wrap to the start of the buffer.
pub open spec fn next_offset(offset: int, window_size: int, buf_len: int) -> int {
    if offset + 1 + window_size <= buf_len {
        offset + 1
    } else {
        0
    }
}

/// The offset after `n` transitions, starting from offset 0.
pub open spec fn offset_after(n: nat, window_size: int, buf_len: int) -> int
    decreases n,
{
    if n == 0 {
        0
    } else {
        next_offset(offset_after((n - 1) as nat, window_size, buf_len), window_size, buf_len)
    }
}

/// How many of the first `n` transitions wrapped the offset back to 0.
pub open spec fn wraps_after(n: nat, window_size: int, buf_len: int) -> int
    decreases n,
{
    if n == 0 {
        0
    } else {
        wraps_after((n - 1) as nat, window_size, buf_len) + if offset_after(
            (n - 1) as nat,
            window_size,
            buf_len,
        ) + 1 + window_size <= buf_len {
            0int
        } else {
            1int
        }
    }
}

/// How many transitions a full pass over the buffer takes: one per distinct
/// window position.
pub open spec fn cycle_len(window_size: int, buf_len: int) -> int {
    buf_len - window_size + 1
}

/// Closed form of the transition system: after `n` transitions from offset
/// 0 the offset is `n` modulo the cycle length, and the window has wrapped
/// `n` divided by it times.
pub proof fn lemma_offset_closed_form(n: nat, window_size: int, buf_len: int)
    requires
        1 <= window_size <= buf_len,
    ensures
        offset_after(n, window_size, buf_len) == n as int % cycle_len(window_size, buf_len),
        wraps_after(n, window_size, buf_len) == n as int / cycle_len(window_size, buf_len),
    decreases n,
{
    let c = cycle_len(window_size, buf_len);
    if n == 0 {
        lemma_fundamental_div_mod_converse(0, c, 0, 0);
    } else {
        let m = (n - 1) as nat;
        lemma_offset_closed_form(m, window_size, buf_len);
        lemma_fundamental_div_mod(m as int, c);
        lemma_mod_bound(m as int, c);
        let q = m as int / c;
        let r = m as int % c;
        if r + 1 < c {
            lemma_fundamental_div_mod_converse(n as int, c, q, r + 1);
        } else {
            assert(m as int == c * q + r);
            assert(n as int == (q + 1) * c + 0) by (nonlinear_arith)
                requires
                    m as int == c * q + r,
                    r == c - 1,
                    n == m + 1,
            ;
            lemma_fundamental_div_mod_converse(n as int, c, q + 1, 0);
        }
    }
}

/// The sliding-window invariant: with a buffer of four windows, the offset
/// stays within the legal window range after any number of transitions, and
/// after exactly one full cycle of transitions from offset 0 it is 0 again.
pub proof fn lemma_sliding_window_invariant(n: nat, window_size: int, buf_len: int)
    requires
        1 <= window_size,
        buf_len == 4 * window_size,
    ensures
        0 <= offset_after(n, window_size, buf_len) <= buf_len - window_size,
        offset_after((buf_len - window_size + 1) as nat, window_size, buf_len) == 0,
{
    let c = cycle_len(window_size, buf_len);
    lemma_offset_closed_form(n, window_size, buf_len);
    lemma_mod_bound(n as int, c);
    lemma_offset_closed_form(c as nat, window_size, buf_len);
    lemma_fundamental_div_mod_converse(c, c, 1, 0);
}

/// The window of `buf` that starts at `offset`.
pub open spec fn window_at(buf: Seq<u8>, offset: int, window_size: int) -> Seq<u8> {
    buf.subrange(offset, offset + window_size)
}

/// What one run did: how many hash invocations ran, how often the window
/// wrapped back to offset 0, the offset after the last transition, and the
/// digest of the last window hashed (empty when no iteration ran).
pub struct RunReport {
    pub iterations: usize,
    pub wrap_count: usize,
    pub final_offset: usize,
    pub last_digest: Vec<u8>,
}

/// The benchmark driver: a window size, an iteration count, and a mode.
pub struct Runner {
    pub window_size: usize,
    pub iteration_count: usize,
    pub mode: Mode,
}

impl Runner {
    /// The length of the buffer this runner draws windows from.
    pub open spec fn buf_len_spec(self) -> nat {
        (self.window_size * self.mode.multiplier_spec()) as nat
    }

    /// A runner is well formed when its window is at least one byte and its
    /// buffer length fits the machine.
    pub open spec fn wf(self) -> bool {
        1 <= self.window_size && self.buf_len_spec() <= usize::MAX
    }

    /// Builds a runner, rejecting a zero window size and a window whose
    /// buffer would not fit the machine.
    pub fn new(window_size: usize, iteration_count: usize, mode: Mode) -> (r: Result<
        Runner,
        ConfigError,
    >)
        ensures
            r is Ok <==> (1 <= window_size && window_size * mode.multiplier_spec()
                <= usize::MAX),
            r is Ok ==> r == Ok::<Runner, ConfigError>(Runner { window_size, iteration_count, mode })
                && r->Ok_0.wf(),
            window_size == 0 ==> r == Err::<Runner, ConfigError>(ConfigError::ZeroWindowSize),
            (window_size >= 1 && window_size * mode.multiplier_spec() > usize::MAX) ==> r
                == Err::<Runner, ConfigError>(ConfigError::WindowTooLarge),
    {
        if window_size == 0 {
            return Err(ConfigError::ZeroWindowSize);
        }
        let mult = mode.multiplier();
        let limit = usize::MAX / mult;
        proof {
            lemma_fundamental_div_mod(usize::MAX as int, mult as int);
            lemma_mod_bound(usize::MAX as int, mult as int);
            if window_size <= limit {
                lemma_mul_inequality(window_size as int, limit as int, mult as int);
            } else {
                lemma_mul_inequality(limit as int + 1, window_size as int, mult as int);
            }
        }
        if window_size > limit {
            return Err(ConfigError::WindowTooLarge);
        }
        Ok(Runner { window_size, iteration_count, mode })
    }

    /// Runs the full iteration count against windows of `buf`, advancing
    /// the window one byte per iteration and wrapping when it would escape
    /// the buffer. The report's wrap count and final offset follow the
    /// closed form of the transition system, and the last digest is the
    /// hasher's digest of the window visited last.
    pub fn run_on_buffer(&self, hasher: &Hasher, buf: &Vec<u8>) -> (report: RunReport)
        requires
            1 <= self.window_size,
            buf@.len() == self.buf_len_spec(),
        ensures
            report.iterations == self.iteration_count,
            report.wrap_count as int == wraps_after(
                self.iteration_count as nat,
                self.window_size as int,
                buf@.len() as int,
            ),
            report.final_offset as int == offset_after(
                self.iteration_count as nat,
                self.window_size as int,
                buf@.len() as int,
            ),
            self.iteration_count > 0 ==> report.last_digest@ == hasher.digest_spec(
                window_at(
                    buf@,
                    offset_after(
                        (self.iteration_count - 1) as nat,
                        self.window_size as int,
                        buf@.len() as int,
                    ),
                    self.window_size as int,
                ),
            ),
            self.iteration_count > 0 ==> report.last_digest@.len() == hasher.output_size_spec(),
            self.iteration_count == 0 ==> report.last_digest@.len() == 0,
    {
        let window_size = self.window_size;
        let buf_len = buf.len();
        proof {
            assert(window_size as int <= buf_len as int) by {
                lemma_mul_inequality(1, self.mode.multiplier_spec() as int, window_size as int);
            }
        }
        let osize = hasher.output_size();
        let mut out = zeroed(osize);
        let mut offset: usize = 0;
        let mut wraps: usize = 0;
        let mut it: usize = 0;
        while it < self.iteration_count
            invariant
                it <= self.iteration_count,
                1 <= window_size as int <= buf_len as int,
                buf_len == buf@.len(),
                offset as int == offset_after(it as nat, window_size as int, buf_len as int),
                wraps as int == wraps_after(it as nat, window_size as int, buf_len as int),
                wraps <= it,
                offset as int <= buf_len - window_size,
                out@.len() == hasher.output_size_spec(),
                it > 0 ==> out@ == hasher.digest_spec(
                    window_at(
                        buf@,
                        offset_after((it - 1) as nat, window_size as int, buf_len as int),
                        window_size as int,
                    ),
                ),
            decreases self.iteration_count - it,
        {
            let window = slice_subrange(buf.as_slice(), offset, offset + window_size);
            proof {
                assert(window@ == window_at(buf@, offset as int, window_size as int));
            }
            hasher.hash(window, &mut out);
            if offset + 1 <= buf_len - window_size {
                offset = offset + 1;
            } else {
                offset = 0;
                wraps = wraps + 1;
            }
            it = it + 1;
            proof {
                assert(offset_after(it as nat, window_size as int, buf_len as int) == next_offset(
                    offset_after((it - 1) as nat, window_size as int, buf_len as int),
                    window_size as int,
                    buf_len as int,
                ));
            }
        }
        let last_digest = if self.iteration_count > 0 {
            out
        } else {
            Vec::new()
        };
        RunReport { iterations: it, wrap_count: wraps, final_offset: offset, last_digest }
    }

    /// Generates the run's random buffer, then performs the full iteration
    /// count against it. The window bookkeeping is pinned down exactly; the
    /// digests depend on the random buffer and are only bounded in length.
    pub fn run(&self, hasher: &Hasher) -> (report: RunReport)
        requires
            self.wf(),
        ensures
            report.iterations == self.iteration_count,
            report.wrap_count as int == wraps_after(
                self.iteration_count as nat,
                self.window_size as int,
                self.buf_len_spec() as int,
            ),
            report.final_offset as int == offset_after(
                self.iteration_count as nat,
                self.window_size as int,
                self.buf_len_spec() as int,
            ),
            self.iteration_count > 0 ==> report.last_digest@.len() == hasher.output_size_spec(),
    {
        let mult = self.mode.multiplier();
        let buf_len = self.window_size * mult;
        let buf = generate_random_blob(buf_len);
        self.run_on_buffer(hasher, &buf)
    }
}

/// One externally timed benchmark entry for embeddings without a command
/// line: a sliding-mode run of 10000 iterations over 4096-byte windows.
pub fn default_benchmark(hasher: &Hasher) -> (report: RunReport)
    ensures
        report.iterations == 10000,
        report.wrap_count as int == wraps_after(10000nat, 4096int, 16384int),
        report.final_offset as int == offset_after(10000nat, 4096int, 16384int),
{
    let runner = match Runner::new(4096, 10000, Mode::Sliding) {
        Ok(runner) => runner,
        Err(_) => {
            proof {
                assert(false);
            }
            unreached()
        },
    };
    runner.run(hasher)
}

/// A vector of `len` zero bytes.
fn zeroed(len: usize) -> (v: Vec<u8>)
    ensures
        v@.len() == len,
        forall|k: int| 0 <= k < len ==> v@[k] == 0u8,
{
    let mut v: Vec<u8> = Vec::new();
    let mut i: usize = 0;
    while i < len
        invariant
            i <= len,
            v@.len() == i,
            forall|k: int| 0 <= k < i ==> v@[k] == 0u8,
        decreases len - i,
    {
        v.push(0u8);
        i += 1;
    }
    v
}

} // verus!
