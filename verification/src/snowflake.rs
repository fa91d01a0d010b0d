//! A snowflake-style generator of 64-bit unique identifiers.
//!
//! An identifier packs, from high to low bits: one reserved zero bit, a
//! 41-bit count of milliseconds since a fixed custom epoch, a 5-bit
//! datacenter id, a 5-bit worker id and a 12-bit in-millisecond sequence.

use vstd::prelude::*;

verus! {

pub const WORKER_ID_BITS: u64 = 5;

pub const DATACENTER_ID_BITS: u64 = 5;

pub const SEQUENCE_BITS: u64 = 12;

pub const MAX_WORKER_ID: u64 = 31;

pub const MAX_DATACENTER_ID: u64 = 31;

pub const WORKER_ID_SHIFT: u64 = 12;

pub const DATACENTER_ID_SHIFT: u64 = 17;

pub const TIMESTAMP_SHIFT: u64 = 22;

pub const SEQUENCE_MASK: u64 = 4095;

/// Milliseconds of 2020-01-01T00:00:00Z since the Unix epoch: timestamps in
/// identifiers are measured from this instant.
pub const CUSTOM_EPOCH: u64 = 1577836800000;

/// Largest millisecond offset that fits the 41-bit timestamp field.
pub const MAX_TIMESTAMP_OFFSET: u64 = 0x1FF_FFFF_FFFF;

/// How a millisecond offset, datacenter id, worker id and sequence are packed
/// into one 64-bit identifier.
pub open spec fn pack_id(ts: u64, datacenter_id: u64, worker_id: u64, sequence: u64) -> u64 {
    (ts << TIMESTAMP_SHIFT) | (datacenter_id << DATACENTER_ID_SHIFT) | (worker_id
        << WORKER_ID_SHIFT) | sequence
}

/// Errors of the identifier generator.
#[derive(Clone, Copy, Debug, PartialEq, Eq, Structural)]
pub enum IdError {
    /// A worker or datacenter id above 31 was given at construction.
    ConfigError,
    /// The clock read less than the timestamp of the last identifier.
    ClockRegression,
    /// The in-millisecond sequence is used up; a later clock reading is needed.
    SequenceExhausted,
    /// The clock read a value outside the 41-bit window after the custom epoch.
    ClockOutOfRange,
}

impl IdError {
    /// The diagnostic string of this error.
    pub fn message(&self) -> (r: &'static str)
        ensures
            *self is ConfigError ==> r@ == "Worker ID and Datacenter ID must be between 0 and 31"@,
            *self is ClockRegression ==> r@ == "Clock moved backwards. Refusing to generate id."@,
            *self is SequenceExhausted ==> r@ == "Sequence exhausted for the current millisecond"@,
            *self is ClockOutOfRange ==> r@ == "Clock outside the representable timestamp range"@,
    {
        match self {
            IdError::ConfigError => "Worker ID and Datacenter ID must be between 0 and 31",
            IdError::ClockRegression => "Clock moved backwards. Refusing to generate id.",
            IdError::SequenceExhausted => "Sequence exhausted for the current millisecond",
            IdError::ClockOutOfRange => "Clock outside the representable timestamp range",
        }
    }
}

/// The identifier generator: two fixed field values and the mutable pair of
/// the last timestamp used and the sequence within it.
pub struct Snowflake {
    pub worker_id: u64,
    pub datacenter_id: u64,
    pub last_timestamp: u64,
    pub sequence: u64,
}

impl Snowflake {
    /// The invariant of a generator: both fixed fields fit 5 bits and the
    /// sequence fits 12.
    pub open spec fn wf(self) -> bool {
        &&& self.worker_id <= MAX_WORKER_ID
        &&& self.datacenter_id <= MAX_DATACENTER_ID
        &&& self.sequence <= SEQUENCE_MASK
    }

    /// Creates a generator, rejecting a worker or datacenter id above 31.
    pub fn new(worker_id: u64, datacenter_id: u64) -> (r: Result<Snowflake, IdError>)
        ensures
            r is Ok <==> (worker_id <= MAX_WORKER_ID && datacenter_id <= MAX_DATACENTER_ID),
            r matches Ok(s) ==> s == (Snowflake {
                worker_id,
                datacenter_id,
                last_timestamp: 0,
                sequence: 0,
            }) && s.wf(),
            r matches Err(e) ==> e == IdError::ConfigError,
    {
        if worker_id > MAX_WORKER_ID || datacenter_id > MAX_DATACENTER_ID {
            return Err(IdError::ConfigError);
        }
        Ok(Snowflake { worker_id, datacenter_id, last_timestamp: 0, sequence: 0 })
    }

    /// Relies on std::time::SystemTime::now and its duration_since: the
    /// milliseconds of the system clock since the Unix epoch, or 0 if the
    /// clock reads before it. Nothing is promised of the value: the clock can
    /// move backwards between two calls.
    #[verifier::external_body]
    pub fn get_time_ms() -> u64 {
        match std::time::SystemTime::now().duration_since(std::time::UNIX_EPOCH) {
            Ok(d) => d.as_millis() as u64,
            Err(_) => 0,
        }
    }

    /// Mints one identifier from a caller-supplied clock reading, in
    /// milliseconds since the Unix epoch. The reading must lie in the 41-bit
    /// window after the custom epoch; everything else is decided here and
    /// stated exactly.
    pub fn next_id_at(&mut self, now: u64) -> (r: Result<u64, IdError>)
        requires
            old(self).wf(),
            CUSTOM_EPOCH <= now <= CUSTOM_EPOCH + MAX_TIMESTAMP_OFFSET,
        ensures
            final(self).wf(),
            final(self).worker_id == old(self).worker_id,
            final(self).datacenter_id == old(self).datacenter_id,
            final(self).last_timestamp >= old(self).last_timestamp,
            r is Ok <==> (now > old(self).last_timestamp || (now == old(self).last_timestamp
                && old(self).sequence < SEQUENCE_MASK)),
            r matches Ok(id) ==> minted(*old(self), *final(self), now, id),
            r matches Ok(id) ==> id >> TIMESTAMP_SHIFT == now - CUSTOM_EPOCH && (id
                >> DATACENTER_ID_SHIFT) & 0x1F == old(self).datacenter_id && (id
                >> WORKER_ID_SHIFT) & 0x1F == old(self).worker_id && id & SEQUENCE_MASK == final(
            self).sequence && id < 0x8000_0000_0000_0000,
            r is Err ==> *final(self) == *old(self),
            r matches Err(e) ==> (e == IdError::ClockRegression || e == IdError::SequenceExhausted)
                && (e == IdError::ClockRegression <==> now < old(self).last_timestamp),
    {
        if now < self.last_timestamp {
            return Err(IdError::ClockRegression);
        }
        if now == self.last_timestamp {
            if self.sequence == SEQUENCE_MASK {
                return Err(IdError::SequenceExhausted);
            }
            self.sequence = self.sequence + 1;
        } else {
            self.sequence = 0;
        }
        self.last_timestamp = now;
        let ts: u64 = now - CUSTOM_EPOCH;
        proof {
            lemma_pack_fields(ts, self.datacenter_id, self.worker_id, self.sequence);
        }
        let id: u64 = (ts << TIMESTAMP_SHIFT) | (self.datacenter_id << DATACENTER_ID_SHIFT) | (
        self.worker_id << WORKER_ID_SHIFT) | self.sequence;
        Ok(id)
    }

    /// Reads the clock until it passes the given millisecond. Gives up with
    /// `None` only if the clock refuses to advance over an enormous number of
    /// readings.
    fn til_next_millis(&self, last_timestamp: u64) -> (r: Option<u64>)
        ensures
            r matches Some(t) ==> t > last_timestamp,
    {
        let mut timestamp = Self::get_time_ms();
        let mut fuel: u64 = u64::MAX;
        while timestamp <= last_timestamp
            decreases fuel,
        {
            if fuel == 0 {
                return None;
            }
            fuel = fuel - 1;
            timestamp = Self::get_time_ms();
        }
        Some(timestamp)
    }

    /// Mints one identifier from the system clock. When the in-millisecond
    /// sequence is used up the call waits for the next millisecond. The clock
    /// decides between success and failure; what holds of the state and the
    /// identifier in every outcome is stated here, and the exact relation to
    /// the clock reading in `next_id_at`.
    pub fn next_id(&mut self) -> (r: Result<u64, IdError>)
        requires
            old(self).wf(),
        ensures
            final(self).wf(),
            final(self).worker_id == old(self).worker_id,
            final(self).datacenter_id == old(self).datacenter_id,
            final(self).last_timestamp >= old(self).last_timestamp,
            r matches Ok(id) ==> minted(*old(self), *final(self), final(self).last_timestamp, id),
            r is Err ==> *final(self) == *old(self),
            r matches Err(e) ==> e == IdError::ClockRegression || e == IdError::ClockOutOfRange,
    {
        let now = Self::get_time_ms();
        if now < CUSTOM_EPOCH || now - CUSTOM_EPOCH > MAX_TIMESTAMP_OFFSET {
            return Err(IdError::ClockOutOfRange);
        }
        let first = self.next_id_at(now);
        match first {
            Err(IdError::SequenceExhausted) => {
                let next_ms = match self.til_next_millis(self.last_timestamp) {
                    Some(t) => t,
                    None => {
                        return Err(IdError::ClockRegression);
                    },
                };
                if next_ms - CUSTOM_EPOCH > MAX_TIMESTAMP_OFFSET {
                    return Err(IdError::ClockOutOfRange);
                }
                let second = self.next_id_at(next_ms);
                match second {
                    Ok(id) => Ok(id),
                    Err(e) => {
                        proof {
                            assert(false);
                        }
                        Err(e)
                    },
                }
            },
            other => other,
        }
    }
}

/// One successful minting step: from the state `pre` and the clock reading
/// `now`, the generator moved to `post` and returned `id`. This is the exact
/// content of a successful `next_id_at(now)` call.
pub open spec fn minted(pre: Snowflake, post: Snowflake, now: u64, id: u64) -> bool {
    &&& pre.wf()
    &&& CUSTOM_EPOCH <= now <= CUSTOM_EPOCH + MAX_TIMESTAMP_OFFSET
    &&& now >= pre.last_timestamp
    &&& (now == pre.last_timestamp ==> pre.sequence < SEQUENCE_MASK)
    &&& post.worker_id == pre.worker_id
    &&& post.datacenter_id == pre.datacenter_id
    &&& post.last_timestamp == now
    &&& post.sequence == (if now == pre.last_timestamp {
        (pre.sequence + 1) as u64
    } else {
        0u64
    })
    &&& id == pack_id((now - CUSTOM_EPOCH) as u64, pre.datacenter_id, pre.worker_id, post.sequence)
}

/// Packing is lossless: each field of an identifier reads back as the value
/// packed into it, and the reserved top bit stays zero.
pub proof fn lemma_pack_fields(ts: u64, dc: u64, w: u64, q: u64)
    requires
        ts <= MAX_TIMESTAMP_OFFSET,
        dc <= MAX_DATACENTER_ID,
        w <= MAX_WORKER_ID,
        q <= SEQUENCE_MASK,
    ensures
        pack_id(ts, dc, w, q) >> TIMESTAMP_SHIFT == ts,
        (pack_id(ts, dc, w, q) >> DATACENTER_ID_SHIFT) & 0x1F == dc,
        (pack_id(ts, dc, w, q) >> WORKER_ID_SHIFT) & 0x1F == w,
        pack_id(ts, dc, w, q) & SEQUENCE_MASK == q,
        pack_id(ts, dc, w, q) < 0x8000_0000_0000_0000,
{
    assert(((ts << 22) | (dc << 17) | (w << 12) | q) >> 22 == ts && ((((ts << 22) | (dc << 17) | (w
        << 12) | q) >> 17) & 0x1F) == dc && ((((ts << 22) | (dc << 17) | (w << 12) | q) >> 12)
        & 0x1F) == w && (((ts << 22) | (dc << 17) | (w << 12) | q) & 4095) == q && ((ts << 22) | (
    dc << 17) | (w << 12) | q) < 0x8000_0000_0000_0000) by (bit_vector)
        requires
            ts <= 0x1FF_FFFF_FFFF,
            dc <= 31,
            w <= 31,
            q <= 4095,
    ;
}

/// Packing is strictly monotonic in the pair (timestamp, sequence), the
/// fixed fields being equal.
pub proof fn lemma_pack_increases(ts1: u64, ts2: u64, dc: u64, w: u64, q1: u64, q2: u64)
    requires
        ts1 <= MAX_TIMESTAMP_OFFSET,
        ts2 <= MAX_TIMESTAMP_OFFSET,
        dc <= MAX_DATACENTER_ID,
        w <= MAX_WORKER_ID,
        q1 <= SEQUENCE_MASK,
        q2 <= SEQUENCE_MASK,
        ts1 < ts2 || (ts1 == ts2 && q1 < q2),
    ensures
        pack_id(ts1, dc, w, q1) < pack_id(ts2, dc, w, q2),
{
    assert(((ts1 << 22) | (dc << 17) | (w << 12) | q1) < ((ts2 << 22) | (dc << 17) | (w << 12)
        | q2)) by (bit_vector)
        requires
            ts1 <= 0x1FF_FFFF_FFFF,
            ts2 <= 0x1FF_FFFF_FFFF,
            dc <= 31,
            w <= 31,
            q1 <= 4095,
            q2 <= 4095,
            ts1 < ts2 || (ts1 == ts2 && q1 < q2),
    ;
}

/// Every identifier of a minting step decodes back to the generator's
/// fields: the clock offset in the top bits, then the datacenter id, the
/// worker id and the sequence, with the reserved top bit zero.
pub proof fn lemma_minted_fields(pre: Snowflake, post: Snowflake, now: u64, id: u64)
    requires
        minted(pre, post, now, id),
    ensures
        id >> TIMESTAMP_SHIFT == now - CUSTOM_EPOCH,
        (id >> DATACENTER_ID_SHIFT) & 0x1F == pre.datacenter_id,
        (id >> WORKER_ID_SHIFT) & 0x1F == pre.worker_id,
        id & SEQUENCE_MASK == post.sequence,
        id < 0x8000_0000_0000_0000,
{
    lemma_pack_fields((now - CUSTOM_EPOCH) as u64, pre.datacenter_id, pre.worker_id, post.sequence);
}

/// Two consecutive identifiers carrying the same millisecond carry
/// consecutive sequence values: within one millisecond the sequence steps by
/// exactly one.
pub proof fn lemma_same_millisecond_sequence(
    s0: Snowflake,
    s1: Snowflake,
    s2: Snowflake,
    n1: u64,
    n2: u64,
    a: u64,
    b: u64,
)
    requires
        minted(s0, s1, n1, a),
        minted(s1, s2, n2, b),
        a >> TIMESTAMP_SHIFT == b >> TIMESTAMP_SHIFT,
    ensures
        b & SEQUENCE_MASK == (a & SEQUENCE_MASK) + 1,
{
    lemma_minted_fields(s0, s1, n1, a);
    lemma_minted_fields(s1, s2, n2, b);
}

/// Two consecutive identifiers of one generator are strictly increasing, and
/// so in particular distinct: a later identifier carries either a later
/// timestamp or, within one millisecond, the next sequence value.
pub proof fn lemma_consecutive_ids_increase(
    s0: Snowflake,
    s1: Snowflake,
    s2: Snowflake,
    n1: u64,
    n2: u64,
    a: u64,
    b: u64,
)
    requires
        minted(s0, s1, n1, a),
        minted(s1, s2, n2, b),
    ensures
        a < b,
{
    let t1 = (n1 - CUSTOM_EPOCH) as u64;
    let t2 = (n2 - CUSTOM_EPOCH) as u64;
    lemma_pack_increases(t1, t2, s0.datacenter_id, s0.worker_id, s1.sequence, s2.sequence);
}

/// Any two identifiers of one uninterrupted run of minting steps are ordered
/// by their position, hence pairwise distinct, however many steps the run
/// has. The step `i` of the run turns `states[i]` into `states[i + 1]` at the
/// clock reading `nows[i]` and returns `ids[i]`.
pub proof fn lemma_id_run_strictly_increasing(states: Seq<Snowflake>, nows: Seq<u64>, ids: Seq<u64>)
    requires
        states.len() == ids.len() + 1,
        nows.len() == ids.len(),
        forall|i: int|
            0 <= i < ids.len() ==> minted(
                #[trigger] states[i],
                states[i + 1],
                nows[i],
                ids[i],
            ),
    ensures
        forall|i: int, j: int| 0 <= i < j < ids.len() ==> ids[i] < ids[j],
{
    assert forall|i: int, j: int| 0 <= i < j < ids.len() implies ids[i] < ids[j] by {
        lemma_id_run_ordered_pair(states, nows, ids, i, j);
    }
}

proof fn lemma_id_run_ordered_pair(
    states: Seq<Snowflake>,
    nows: Seq<u64>,
    ids: Seq<u64>,
    i: int,
    j: int,
)
    requires
        states.len() == ids.len() + 1,
        nows.len() == ids.len(),
        forall|k: int|
            0 <= k < ids.len() ==> minted(
                #[trigger] states[k],
                states[k + 1],
                nows[k],
                ids[k],
            ),
        0 <= i < j < ids.len(),
    ensures
        ids[i] < ids[j],
    decreases j - i,
{
    if j == i + 1 {
        assert(minted(states[i], states[i + 1], nows[i], ids[i]));
        assert(minted(states[j], states[j + 1], nows[j], ids[j]));
        lemma_consecutive_ids_increase(
            states[i],
            states[i + 1],
            states[j + 1],
            nows[i],
            nows[j],
            ids[i],
            ids[j],
        );
    } else {
        lemma_id_run_ordered_pair(states, nows, ids, i, j - 1);
        lemma_id_run_ordered_pair(states, nows, ids, j - 1, j);
    }
}

} // verus!
