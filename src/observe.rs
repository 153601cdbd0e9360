//! Observation polling: tick monotonicity, and the state hash that falls back
//! on a digest of the latest observation.

use vstd::prelude::*;

use crate::error::GameRLError;

verus! {

/// Keeps the last tick seen by one reader. An observation is new only when
/// its tick is strictly greater; an equal or smaller tick means "nothing new
/// yet" and is no error.
pub struct TickTracker {
    last_tick: u64,
}

/// Whether an observation at `tick` is new after `last`.
pub open spec fn is_new(last: u64, tick: u64) -> bool {
    tick > last
}

/// The last tick after an observation at `tick`.
pub open spec fn after(last: u64, tick: u64) -> u64 {
    if tick > last {
        tick
    } else {
        last
    }
}

/// What a reader starting at `last` makes of the ticks, in order: `true`
/// for each one it reports as new.
pub open spec fn observe_run(last: u64, ticks: Seq<u64>) -> Seq<bool>
    decreases ticks.len(),
{
    if ticks.len() == 0 {
        Seq::empty()
    } else {
        seq![is_new(last, ticks[0])] + observe_run(after(last, ticks[0]), ticks.drop_first())
    }
}

/// The largest of `start` and the ticks.
pub open spec fn high_water(start: u64, ticks: Seq<u64>) -> u64
    decreases ticks.len(),
{
    if ticks.len() == 0 {
        start
    } else {
        after(high_water(start, ticks.drop_last()), ticks.last())
    }
}

impl TickTracker {
    /// The last tick reported as new, or the starting tick.
    pub closed spec fn last(&self) -> u64 {
        self.last_tick
    }

    /// A reader that has seen nothing: every tick above 0 is new.
    pub fn new() -> (r: TickTracker)
        ensures
            r.last() == 0,
    {
        TickTracker { last_tick: 0 }
    }

    /// The last tick reported as new.
    pub fn last_tick(&self) -> (r: u64)
        ensures
            r == self.last(),
    {
        self.last_tick
    }

    /// Takes an observation at `tick`: `true` when it is new, which then
    /// becomes the last tick.
    pub fn observe(&mut self, tick: u64) -> (r: bool)
        ensures
            r == is_new(old(self).last(), tick),
            final(self).last() == after(old(self).last(), tick),
    {
        if tick > self.last_tick {
            self.last_tick = tick;
            true
        } else {
            false
        }
    }
}

/// Ticks are reported in strictly increasing order: a reader starting at
/// `start` reports a tick as new exactly when it exceeds the starting tick
/// and every tick before it; repeats and regressions are passed over.
pub proof fn lemma_tick_monotone(start: u64, ticks: Seq<u64>)
    ensures
        observe_run(start, ticks).len() == ticks.len(),
        forall|i: int|
            0 <= i < ticks.len() ==> observe_run(start, ticks)[i] == (ticks[i] > high_water(
                start,
                ticks.subrange(0, i),
            )),
    decreases ticks.len(),
{
    if ticks.len() > 0 {
        let t0 = ticks[0];
        let rest = ticks.drop_first();
        let s1 = after(start, t0);
        lemma_tick_monotone(s1, rest);
        assert forall|i: int| 0 <= i < ticks.len() implies observe_run(start, ticks)[i] == (
        ticks[i] > high_water(start, ticks.subrange(0, i))) by {
            if i > 0 {
                assert(observe_run(start, ticks)[i] == observe_run(s1, rest)[i - 1]);
                assert(rest[i - 1] == ticks[i]);
                lemma_high_water_shift(start, ticks, i);
            } else {
                assert(ticks.subrange(0, 0).len() == 0);
            }
        }
    }
}

proof fn lemma_high_water_shift(start: u64, ticks: Seq<u64>, i: int)
    requires
        0 < i <= ticks.len(),
    ensures
        high_water(start, ticks.subrange(0, i)) == high_water(
            after(start, ticks[0]),
            ticks.drop_first().subrange(0, i - 1),
        ),
    decreases i,
{
    let a = ticks.subrange(0, i);
    let b = ticks.drop_first().subrange(0, i - 1);
    if i == 1 {
        assert(a.drop_last() =~= Seq::<u64>::empty());
        assert(b =~= Seq::<u64>::empty());
        assert(a.last() == ticks[0]);
        assert(high_water(start, a.drop_last()) == start);
        assert(high_water(start, a) == after(start, ticks[0]));
    } else {
        lemma_high_water_shift(start, ticks, i - 1);
        assert(a.drop_last() =~= ticks.subrange(0, i - 1));
        assert(b.drop_last() =~= ticks.drop_first().subrange(0, i - 2));
        assert(a.last() == b.last());
        assert(high_water(start, a) == after(high_water(start, a.drop_last()), a.last()));
        assert(high_water(after(start, ticks[0]), b) == after(
            high_water(after(start, ticks[0]), b.drop_last()),
            b.last(),
        ));
    }
}

/// What SHA-256 makes of the data.
pub uninterp spec fn sha256_of(data: Seq<u8>) -> Seq<u8>;

/// Relies on `sha2::Sha256::digest`: the 32-byte SHA-256 digest of the data.
#[verifier::external_body]
fn sha256(data: &[u8]) -> (r: Vec<u8>)
    ensures
        r@ == sha256_of(data@),
        r@.len() == 32,
{
    <sha2::Sha256 as sha2::Digest>::digest(data).to_vec()
}

/// The lowercase hexadecimal digit of a value below 16.
pub open spec fn hex_digit(n: int) -> char {
    "0123456789abcdef"@[n]
}

/// Two lowercase hexadecimal digits per byte, high nibble first.
pub open spec fn hex_spec(b: Seq<u8>) -> Seq<char>
    decreases b.len(),
{
    if b.len() == 0 {
        Seq::empty()
    } else {
        hex_spec(b.drop_last()) + seq![hex_digit(b.last() as int / 16), hex_digit(b.last() as int % 16)]
    }
}

/// Relies on `hex::encode`: two lowercase digits per byte, high nibble
/// first, as its table `0123456789abcdef` gives them.
#[verifier::external_body]
fn to_hex(b: &[u8]) -> (r: String)
    ensures
        r@ == hex_spec(b@),
{
    hex::encode(b)
}

/// The text of a state digest.
pub fn digest_hex(digest: &[u8]) -> (r: String)
    ensures
        r@ == hex_spec(digest@),
{
    to_hex(digest)
}

/// Whether a character has the Unicode `White_Space` property.
pub open spec fn is_white_space(c: char) -> bool {
    let u = c as u32;
    ||| 0x9 <= u <= 0xd
    ||| u == 0x20
    ||| u == 0x85
    ||| u == 0xa0
    ||| u == 0x1680
    ||| 0x2000 <= u <= 0x200a
    ||| u == 0x2028
    ||| u == 0x2029
    ||| u == 0x202f
    ||| u == 0x205f
    ||| u == 0x3000
}

/// The text without its leading white space.
pub open spec fn trim_start_spec(s: Seq<char>) -> Seq<char>
    decreases s.len(),
{
    if s.len() > 0 && is_white_space(s[0]) {
        trim_start_spec(s.drop_first())
    } else {
        s
    }
}

/// The text without its trailing white space.
pub open spec fn trim_end_spec(s: Seq<char>) -> Seq<char>
    decreases s.len(),
{
    if s.len() > 0 && is_white_space(s.last()) {
        trim_end_spec(s.drop_last())
    } else {
        s
    }
}

/// The text without leading and trailing white space.
pub open spec fn trim_spec(s: Seq<char>) -> Seq<char> {
    trim_end_spec(trim_start_spec(s))
}

/// Relies on `str::trim`: the text without leading and trailing white
/// space, white space being the characters of the Unicode `White_Space`
/// property, as its documentation says.
#[verifier::external_body]
fn trimmed(s: &str) -> (r: String)
    ensures
        r@ == trim_spec(s@),
{
    s.trim().to_string()
}

/// The state hash: the peer's answer when it gave one, trimmed; otherwise
/// the hexadecimal SHA-256 digest of the newest observation's encoding, when
/// there is a new one; otherwise a game error.
pub fn resolve_state_hash(response: &str, observation: Option<&[u8]>) -> (r: Result<
    String,
    GameRLError,
>)
    ensures
        response@.len() > 0 ==> (r matches Ok(h) && h@ == trim_spec(response@)),
        response@.len() == 0 && observation is Some ==> (r matches Ok(h) && h@ == hex_spec(
            sha256_of(observation->Some_0@),
        )),
        response@.len() == 0 && observation is None ==> (r matches Err(e) && e is GameError),
{
    if !response.is_empty() {
        return Ok(trimmed(response));
    }
    match observation {
        Some(data) => {
            let digest = sha256(data);
            Ok(digest_hex(digest.as_slice()))
        },
        None => Err(GameRLError::GameError("No state available".to_string())),
    }
}

/// Result of the last action, as the game reports it.
#[derive(Debug, Clone)]
pub struct ActionResult {
    /// Whether the action succeeded.
    pub success: bool,
    /// Error message if the action failed.
    pub error: Option<String>,
    /// The action type that was attempted.
    pub action_type: Option<String>,
}

} // verus!
