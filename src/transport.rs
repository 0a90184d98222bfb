//! Host transport: byte alignment by checksum evidence, then endless two-byte
//! exchanges of telemetry out and commands in.
use vstd::prelude::*;
use crate::encoder::{checksum_matches, checksum_ok, Command, DShotVariant};
use crate::relay::DoubleBuffer;
use crate::telemetry::le16;

verus! {

/// Alignment with the host.
#[derive(Debug, Clone, Copy, PartialEq, Eq, Structural)]
pub enum SyncState {
    /// Consecutive two-byte windows whose checksum matched so far.
    Seeking { matches: u8 },
    Synced,
}

/// What the transport does after a window while seeking.
#[derive(Debug, Clone, Copy, PartialEq, Eq, Structural)]
pub enum SyncAction {
    /// Read the next two-byte window.
    ReadNext,
    /// Drop one byte to shift the alignment, then read the next window.
    DiscardByte,
    /// Alignment found: start the exchanges.
    Start,
}

/// Whether a two-byte window, read little-endian, carries a valid standard checksum.
pub open spec fn window_ok(window: [u8; 2]) -> bool {
    checksum_ok(DShotVariant::Standard, le16(window[0], window[1]))
}

/// The state after a window whose checksum did (`ok`) or did not match.
pub open spec fn sync_next(state: SyncState, ok: bool, threshold: u8) -> SyncState {
    match state {
        SyncState::Synced => SyncState::Synced,
        SyncState::Seeking { matches } => if !ok {
            SyncState::Seeking { matches: 0 }
        } else if matches + 1 >= threshold {
            SyncState::Synced
        } else {
            SyncState::Seeking { matches: (matches + 1) as u8 }
        },
    }
}

/// The state after a sequence of window outcomes.
pub open spec fn sync_run(state: SyncState, outcomes: Seq<bool>, threshold: u8) -> SyncState
    decreases outcomes.len(),
{
    if outcomes.len() == 0 {
        state
    } else {
        sync_next(sync_run(state, outcomes.drop_last(), threshold), outcomes.last(), threshold)
    }
}

/// The action that goes with a transition.
pub open spec fn sync_action(next: SyncState, ok: bool) -> SyncAction {
    if next is Synced {
        SyncAction::Start
    } else if ok {
        SyncAction::ReadNext
    } else {
        SyncAction::DiscardByte
    }
}

pub fn read_le16(window: [u8; 2]) -> (r: u16)
    ensures
        r == le16(window[0], window[1]),
{
    let r = (window[0] as u16) | ((window[1] as u16) << 8u16);
    let (lo, hi) = (window[0], window[1]);
    assert(r == (lo as int + 256 * hi as int) as u16) by (bit_vector)
        requires
            r == (lo as u16) | ((hi as u16) << 8u16),
    ;
    r
}

impl SyncState {
    /// Seeking, with no match yet.
    pub fn new() -> (r: Self)
        ensures
            r == (SyncState::Seeking { matches: 0 }),
    {
        SyncState::Seeking { matches: 0 }
    }

    /// Feeds one two-byte window: `threshold` consecutive matches reach `Synced`;
    /// a mismatch resets the count and drops a byte.
    pub fn step(self, window: [u8; 2], threshold: u8) -> (r: (SyncState, SyncAction))
        requires
            self matches SyncState::Seeking { matches } ==> matches < threshold,
        ensures
            r.0 == sync_next(self, window_ok(window), threshold),
            r.1 == sync_action(r.0, window_ok(window)),
            r.0 matches SyncState::Seeking { matches } ==> matches < threshold,
    {
        match self {
            SyncState::Synced => (SyncState::Synced, SyncAction::Start),
            SyncState::Seeking { matches } => {
                if !checksum_matches(DShotVariant::Standard, read_le16(window)) {
                    (SyncState::Seeking { matches: 0 }, SyncAction::DiscardByte)
                } else if matches as u16 + 1 >= threshold as u16 {
                    (SyncState::Synced, SyncAction::Start)
                } else {
                    (SyncState::Seeking { matches: matches + 1 }, SyncAction::ReadNext)
                }
            },
        }
    }
}

/// The number of `true`s that end a sequence.
pub open spec fn trailing_matches(outcomes: Seq<bool>) -> nat
    decreases outcomes.len(),
{
    if outcomes.len() == 0 || !outcomes.last() {
        0
    } else {
        trailing_matches(outcomes.drop_last()) + 1
    }
}

/// Whether `n` consecutive `true`s end the prefix of length `k`.
pub open spec fn run_ends_at(outcomes: Seq<bool>, k: int, n: int) -> bool {
    n <= k <= outcomes.len() && forall|j: int| k - n <= j < k ==> #[trigger] outcomes[j]
}

/// Starting unaligned, the transport is synced exactly when somewhere in the
/// outcomes `threshold` consecutive windows matched; until then its count is the
/// number of matches since the last mismatch.
pub proof fn lemma_sync_needs_consecutive_matches(outcomes: Seq<bool>, threshold: u8)
    requires
        threshold >= 1,
    ensures
        (sync_run(SyncState::Seeking { matches: 0 }, outcomes, threshold) is Synced) <==> exists|k: int|
            #[trigger] run_ends_at(outcomes, k, threshold as int),
        sync_run(SyncState::Seeking { matches: 0 }, outcomes, threshold) matches SyncState::Seeking { matches }
            ==> matches == trailing_matches(outcomes),
    decreases outcomes.len(),
{
    let start = SyncState::Seeking { matches: 0 };
    let n = threshold as int;
    if outcomes.len() == 0 {
        assert forall|k: int| !run_ends_at(outcomes, k, n) by {}
    } else {
        let prev = outcomes.drop_last();
        lemma_sync_needs_consecutive_matches(prev, threshold);
        lemma_trailing_run(outcomes, n);
        assert forall|k: int| #[trigger] run_ends_at(prev, k, n) implies run_ends_at(outcomes, k, n) by {
            assert forall|j: int| k - n <= j < k implies #[trigger] outcomes[j] by {
                assert(prev[j] == outcomes[j]);
            }
        }
        assert forall|k: int| #[trigger] run_ends_at(outcomes, k, n) && k < outcomes.len() implies run_ends_at(prev, k, n) by {
            assert forall|j: int| k - n <= j < k implies #[trigger] prev[j] by {
                assert(prev[j] == outcomes[j]);
            }
        }
        match sync_run(start, prev, threshold) {
            SyncState::Synced => {
                let k = choose|k: int| #[trigger] run_ends_at(prev, k, n);
                assert(run_ends_at(outcomes, k, n));
            },
            SyncState::Seeking { matches } => {
                assert(matches < n) by {
                    if matches >= n {
                        lemma_trailing_run(prev, n);
                        assert(run_ends_at(prev, prev.len() as int, n));
                    }
                }
                if run_ends_at(outcomes, outcomes.len() as int, n) {
                } else {
                    assert forall|k: int| !#[trigger] run_ends_at(outcomes, k, n) by {
                        if k < outcomes.len() && run_ends_at(outcomes, k, n) {
                            assert(run_ends_at(prev, k, n));
                        }
                    }
                }
            },
        }
    }
}

/// A prefix ends in `n` consecutive `true`s exactly when its trailing run is at
/// least `n` long.
proof fn lemma_trailing_run(outcomes: Seq<bool>, n: int)
    requires
        n >= 1,
    ensures
        run_ends_at(outcomes, outcomes.len() as int, n) <==> trailing_matches(outcomes) >= n,
    decreases outcomes.len(),
{
    let len = outcomes.len() as int;
    if len == 0 {
    } else if !outcomes.last() {
        assert(!run_ends_at(outcomes, len, n) || !outcomes[len - 1]);
    } else {
        let prev = outcomes.drop_last();
        if n == 1 {
            assert(run_ends_at(outcomes, len, 1)) by {
                assert forall|j: int| len - 1 <= j < len implies #[trigger] outcomes[j] by {}
            }
        } else {
            lemma_trailing_run(prev, n - 1);
            if run_ends_at(outcomes, len, n) {
                assert forall|j: int| len - 1 - (n - 1) <= j < len - 1 implies #[trigger] prev[j] by {
                    assert(outcomes[j]);
                }
                assert(run_ends_at(prev, len - 1, n - 1));
            }
            if trailing_matches(outcomes) >= n {
                assert(run_ends_at(prev, len - 1, n - 1));
                assert forall|j: int| len - n <= j < len implies #[trigger] outcomes[j] by {
                    if j < len - 1 {
                        assert(prev[j]);
                    }
                }
            }
        }
    }
}

} // verus!

verus! {

/// A command received from the host.
#[derive(Debug, Clone, Copy, PartialEq, Eq, Structural)]
pub enum HostCommand {
    /// The first byte is a command code: broadcast the command.
    Command(Command),
    /// Anything else: a little-endian throttle value, not yet range-checked.
    Throttle(u16),
}

/// How a received window is classified, once its checksum matched.
pub open spec fn classify(window: [u8; 2]) -> HostCommand {
    if Command::is_code(window[0]) {
        HostCommand::Command(choose|c: Command| c.spec_code() == window[0])
    } else {
        HostCommand::Throttle(le16(window[0], window[1]))
    }
}

/// Decodes a received window: `None` when its checksum does not match (the
/// command is skipped, alignment is kept).
pub fn decode_host_window(window: [u8; 2]) -> (r: Option<HostCommand>)
    ensures
        r.is_some() <==> window_ok(window),
        r matches Some(c) ==> c == classify(window),
{
    if !checksum_matches(DShotVariant::Standard, read_le16(window)) {
        return None;
    }
    match Command::from_code(window[0]) {
        Some(command) => {
            proof {
                lemma_code_unique(command);
            }
            Some(HostCommand::Command(command))
        },
        None => Some(HostCommand::Throttle(read_le16(window))),
    }
}

/// A command is the only one with its code.
proof fn lemma_code_unique(command: Command)
    ensures
        (choose|c: Command| c.spec_code() == command.spec_code()) == command,
{
    let c = choose|c: Command| c.spec_code() == command.spec_code();
    assert(c.spec_code() == command.spec_code());
    assert(c == command) by {
        match c { _ => {} }
        match command { _ => {} }
    }
}

/// The synced side of the transport: the telemetry snapshot being sent, two
/// bytes per exchange, renewed from the relay every five exchanges.
pub struct Exchange {
    snapshot: [u8; 10],
    next: usize,
}

impl Exchange {
    pub closed spec fn spec_snapshot(self) -> Seq<u8> {
        self.snapshot@
    }

    /// Offset of the next two bytes to send.
    pub closed spec fn offset(self) -> int {
        self.next as int
    }

    pub closed spec fn wf(self) -> bool {
        self.next <= 10 && self.next % 2 == 0
    }

    /// Starts with `snapshot`, sending from its first byte.
    pub fn new(snapshot: [u8; 10]) -> (r: Self)
        ensures
            r.wf(),
            r.spec_snapshot() == snapshot@,
            r.offset() == 0,
    {
        Exchange { snapshot, next: 0 }
    }

    /// The two bytes to send in this exchange. Once the whole snapshot is sent, a
    /// new one is read from the relay first.
    pub fn next_word(&mut self, relay: &DoubleBuffer) -> (r: [u8; 2])
        requires
            old(self).wf(),
            relay.wf(),
        ensures
            final(self).wf(),
            old(self).offset() < 10 ==> final(self).spec_snapshot() == old(self).spec_snapshot()
                && final(self).offset() == old(self).offset() + 2,
            old(self).offset() == 10 ==> final(self).spec_snapshot() == relay.published()
                && final(self).offset() == 2,
            r@ == final(self).spec_snapshot().subrange(final(self).offset() - 2, final(self).offset()),
    {
        if self.next == 10 {
            relay.read(&mut self.snapshot);
            self.next = 0;
        }
        let word = [self.snapshot[self.next], self.snapshot[self.next + 1]];
        self.next = self.next + 2;
        assert(word@ =~= self.snapshot@.subrange(self.next - 2, self.next as int));
        word
    }
}

} // verus!

verus! {

/// Whether the two bytes at `i` form a word with a valid standard checksum.
pub open spec fn window_valid_at(stream: Seq<u8>, i: int) -> bool {
    checksum_ok(DShotVariant::Standard, le16(stream[i], stream[i + 1]))
}

/// The state that seeking reaches on `stream` from byte `pos`: each window is
/// fed to the state machine; a matching window consumes two bytes, a failing one
/// three (the window and the dropped byte). Seeking stops once synced or when
/// fewer than two bytes are left.
pub open spec fn seek(stream: Seq<u8>, pos: int, state: SyncState, threshold: u8) -> SyncState
    decreases stream.len() + 3 - pos,
{
    if pos < 0 || pos + 2 > stream.len() || state is Synced {
        state
    } else {
        let ok = window_valid_at(stream, pos);
        let next = sync_next(state, ok, threshold);
        if next is Synced {
            next
        } else {
            seek(stream, if ok { pos + 2 } else { pos + 3 }, next, threshold)
        }
    }
}

/// `n` consecutive valid windows, two bytes apart, starting at byte `q`.
pub open spec fn aligned_run(stream: Seq<u8>, q: int, n: int) -> bool {
    0 <= q && q + 2 * n <= stream.len() && forall|j: int| 0 <= j < n ==> #[trigger] window_valid_at(stream, q + 2 * j)
}

proof fn lemma_seek_needs_run(stream: Seq<u8>, pos: int, matches: u8, threshold: u8)
    requires
        threshold >= 1,
        matches < threshold,
        pos >= 2 * matches,
        aligned_run(stream, pos - 2 * matches, matches as int),
    ensures
        seek(stream, pos, SyncState::Seeking { matches }, threshold) is Synced ==> exists|q: int|
            aligned_run(stream, q, threshold as int),
    decreases stream.len() + 3 - pos,
{
    let state = SyncState::Seeking { matches };
    if pos < 0 || pos + 2 > stream.len() {
    } else {
        let ok = window_valid_at(stream, pos);
        let q = pos - 2 * matches;
        if ok && matches + 1 >= threshold {
            assert(aligned_run(stream, q, threshold as int)) by {
                assert forall|j: int| 0 <= j < threshold implies #[trigger] window_valid_at(stream, q + 2 * j) by {
                    if j < matches {
                    } else {
                        assert(q + 2 * j == pos);
                    }
                }
            }
        } else if ok {
            let m1 = (matches + 1) as u8;
            assert(aligned_run(stream, pos + 2 - 2 * m1, m1 as int)) by {
                assert forall|j: int| 0 <= j < m1 implies #[trigger] window_valid_at(stream, q + 2 * j) by {
                    if j < matches {
                    } else {
                        assert(q + 2 * j == pos);
                    }
                }
            }
            lemma_seek_needs_run(stream, pos + 2, m1, threshold);
        } else if pos + 3 <= stream.len() {
            assert(aligned_run(stream, pos + 3, 0));
            lemma_seek_needs_run(stream, pos + 3, 0, threshold);
        } else {
            assert(seek(stream, pos + 3, SyncState::Seeking { matches: 0 }, threshold) == (SyncState::Seeking {
                matches: 0,
            }));
        }
    }
}

proof fn lemma_run_syncs(stream: Seq<u8>, pos: int, matches: u8, threshold: u8)
    requires
        threshold >= 1,
        matches < threshold,
        aligned_run(stream, pos, threshold - matches),
    ensures
        seek(stream, pos, SyncState::Seeking { matches }, threshold) is Synced,
    decreases threshold - matches,
{
    assert(window_valid_at(stream, pos + 2 * 0));
    if matches + 1 < threshold {
        let m1 = (matches + 1) as u8;
        assert(aligned_run(stream, pos + 2, threshold - m1)) by {
            assert forall|j: int| 0 <= j < threshold - m1 implies #[trigger] window_valid_at(stream, pos + 2 + 2 * j) by {
                assert(window_valid_at(stream, pos + 2 * (j + 1)));
                assert(pos + 2 * (j + 1) == pos + 2 + 2 * j);
            }
        }
        lemma_run_syncs(stream, pos + 2, m1, threshold);
    }
}

/// Seeking over a byte stream reaches `Synced` only if the stream holds
/// `threshold` consecutive valid windows, two bytes apart; and seeking that reads
/// its first window at the start of such a run reaches `Synced` at the run's
/// last window.
pub proof fn lemma_stream_sync(stream: Seq<u8>, pos: int, threshold: u8)
    requires
        threshold >= 1,
        0 <= pos,
    ensures
        seek(stream, 0, SyncState::Seeking { matches: 0 }, threshold) is Synced ==> exists|q: int|
            aligned_run(stream, q, threshold as int),
        aligned_run(stream, pos, threshold as int) ==> seek(
            stream,
            pos,
            SyncState::Seeking { matches: 0 },
            threshold,
        ) is Synced,
{
    assert(aligned_run(stream, 0, 0));
    lemma_seek_needs_run(stream, 0, 0, threshold);
    if aligned_run(stream, pos, threshold as int) {
        lemma_run_syncs(stream, pos, 0, threshold);
    }
}

} // verus!
