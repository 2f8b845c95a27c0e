use vstd::prelude::*;

verus! {

/// Where a buffer's map request stands.
#[derive(Clone, Copy, Debug, PartialEq, Eq, Structural)]
pub enum MapState {
    /// No request outstanding; the buffer may be mapped.
    Idle,
    /// A request is outstanding and the device has not signalled it.
    Pending,
    /// The device signalled the request; the host may read until it releases the view.
    Mapped,
}

/// A readback that cannot go ahead.
#[derive(Clone, Copy, Debug, PartialEq, Eq, Structural)]
pub enum MapError {
    /// A request on this buffer is already outstanding.
    AlreadyPending,
    /// The buffer is still mapped; its view must be released first.
    StillMapped,
    /// A completion arrived with no request outstanding.
    NoRequest,
    /// The device reported that the mapping failed; the pending result is discarded.
    Failed,
    /// The buffer is not mapped, so there is nothing to read or release.
    NotMapped,
}

pub open spec fn request_result(s: MapState) -> Result<(), MapError> {
    match s {
        MapState::Idle => Ok(()),
        MapState::Pending => Err(MapError::AlreadyPending),
        MapState::Mapped => Err(MapError::StillMapped),
    }
}

pub open spec fn after_request(s: MapState) -> MapState {
    if s == MapState::Idle {
        MapState::Pending
    } else {
        s
    }
}

pub open spec fn complete_result(s: MapState, succeeded: bool) -> Result<(), MapError> {
    if s != MapState::Pending {
        Err(MapError::NoRequest)
    } else if succeeded {
        Ok(())
    } else {
        Err(MapError::Failed)
    }
}

pub open spec fn after_complete(s: MapState, succeeded: bool) -> MapState {
    if s != MapState::Pending {
        s
    } else if succeeded {
        MapState::Mapped
    } else {
        MapState::Idle
    }
}

pub open spec fn after_release(s: MapState) -> MapState {
    if s == MapState::Mapped {
        MapState::Idle
    } else {
        s
    }
}

/// The `u16` samples that little-endian `bytes` hold; an odd last byte is no sample.
pub open spec fn samples_of(bytes: Seq<u8>) -> Seq<u16> {
    Seq::new(bytes.len() / 2, |i: int| (bytes[2 * i] + 256 * bytes[2 * i + 1]) as u16)
}

/// Decodes little-endian `u16` samples, the byte order of every buffer the device hands back.
pub fn decode_samples(bytes: &Vec<u8>) -> (r: Vec<u16>)
    ensures
        r@ == samples_of(bytes@),
{
    let len = bytes.len();
    let n = len / 2;
    let mut out: Vec<u16> = Vec::new();
    let mut i: usize = 0;
    while i < n
        invariant
            len == bytes@.len(),
            n == len / 2,
            i <= n,
            out@ == samples_of(bytes@).take(i as int),
        decreases n - i,
    {
        assert(2 * i + 1 < bytes@.len());
        let lo = bytes[2 * i] as u16;
        let hi = bytes[2 * i + 1] as u16;
        out.push(lo + 256 * hi);
        i = i + 1;
        assert(out@ =~= samples_of(bytes@).take(i as int));
    }
    assert(samples_of(bytes@).take(n as int) =~= samples_of(bytes@));
    out
}

/// Tracks the one map request that a buffer may have outstanding, so that nothing is read
/// before the device signals it and nothing is remapped before the view is released.
pub struct ReadbackChannel {
    pub state: MapState,
}

impl ReadbackChannel {
    pub fn new() -> (r: ReadbackChannel)
        ensures
            r.state == MapState::Idle,
    {
        ReadbackChannel { state: MapState::Idle }
    }

    /// Starts a map request. Fails with `AlreadyPending` while one is outstanding, and with
    /// `StillMapped` until the previous view is released.
    pub fn request_map(&mut self) -> (r: Result<(), MapError>)
        ensures
            r == request_result(old(self).state),
            final(self).state == after_request(old(self).state),
    {
        match self.state {
            MapState::Idle => {
                self.state = MapState::Pending;
                Ok(())
            },
            MapState::Pending => Err(MapError::AlreadyPending),
            MapState::Mapped => Err(MapError::StillMapped),
        }
    }

    /// Takes the device's completion signal for the outstanding request.
    pub fn complete(&mut self, succeeded: bool) -> (r: Result<(), MapError>)
        ensures
            r == complete_result(old(self).state, succeeded),
            final(self).state == after_complete(old(self).state, succeeded),
    {
        if self.state != MapState::Pending {
            Err(MapError::NoRequest)
        } else if succeeded {
            self.state = MapState::Mapped;
            Ok(())
        } else {
            self.state = MapState::Idle;
            Err(MapError::Failed)
        }
    }

    /// Reads the mapped bytes as samples; refused with `NotMapped` before the device signals.
    pub fn read_samples(&self, bytes: &Vec<u8>) -> (r: Result<Vec<u16>, MapError>)
        ensures
            self.state == MapState::Mapped ==> (r matches Ok(v) && v@ == samples_of(bytes@)),
            self.state != MapState::Mapped ==> r == Err::<Vec<u16>, MapError>(MapError::NotMapped),
    {
        if self.state == MapState::Mapped {
            Ok(decode_samples(bytes))
        } else {
            Err(MapError::NotMapped)
        }
    }

    /// Releases the view, after which the buffer may be mapped again.
    pub fn release(&mut self) -> (r: Result<(), MapError>)
        ensures
            old(self).state == MapState::Mapped ==> r is Ok,
            old(self).state != MapState::Mapped ==> r == Err::<(), MapError>(MapError::NotMapped),
            final(self).state == after_release(old(self).state),
    {
        if self.state == MapState::Mapped {
            self.state = MapState::Idle;
            Ok(())
        } else {
            Err(MapError::NotMapped)
        }
    }
}

/// A request made while another is outstanding fails with `AlreadyPending` and changes
/// nothing; once that request completes and its view is released, a new request succeeds.
pub proof fn lemma_one_request_at_a_time(s: MapState)
    requires
        s == MapState::Pending,
    ensures
        request_result(s) == Err::<(), MapError>(MapError::AlreadyPending),
        after_request(s) == s,
        request_result(after_release(after_complete(s, true))) == Ok::<(), MapError>(()),
        request_result(after_complete(s, false)) == Ok::<(), MapError>(()),
{
}

} // verus!
