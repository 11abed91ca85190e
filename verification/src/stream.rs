//! Streams as the adapter sees them: the raw accepted transport stream and
//! the typed I/O handle it fallibly converts into, together with the
//! spec-level record of what a handler is eventually given.

use vstd::prelude::*;

use crate::pool::PoolRef;

verus! {

/// What one dispatched connection looks like to the wrapped handler: the
/// stream's identity, the diagnostic tag attached to it (if any) and the
/// memory pool it was attached to (if any).
#[verifier::ext_equal]
pub struct DispatchRec {
    pub id: u64,
    pub tag: Option<Seq<char>>,
    pub pool: Option<u32>,
}

/// A raw accepted transport stream, not yet validated. `convertible` models
/// whether turning it into the typed I/O handle will succeed; the conversion
/// itself belongs to the external I/O layer.
#[derive(Clone, Copy)]
pub struct RawStream {
    pub id: u64,
    pub convertible: bool,
}

/// The typed asynchronous I/O handle a connection handler consumes. Freshly
/// converted handles carry no tag and no pool; the adapter attaches both
/// before dispatch.
pub struct IoStream {
    pub id: u64,
    pub tag: Option<&'static str>,
    pub pool: Option<u32>,
}

impl View for IoStream {
    type V = DispatchRec;

    open spec fn view(&self) -> DispatchRec {
        DispatchRec {
            id: self.id,
            tag: match self.tag {
                Option::Some(t) => Option::Some(t@),
                Option::None => Option::None,
            },
            pool: self.pool,
        }
    }
}

impl RawStream {
    /// Fallible conversion into the typed I/O handle. Succeeds exactly when
    /// the stream is convertible; a fresh handle is untagged and unattached.
    pub fn try_convert(self) -> (r: Result<IoStream, ()>)
        ensures
            self.convertible ==> (r matches Ok(io) && io@ == (DispatchRec {
                id: self.id,
                tag: Option::None,
                pool: Option::None,
            })),
            !self.convertible ==> r is Err,
    {
        if self.convertible {
            Ok(IoStream { id: self.id, tag: None, pool: None })
        } else {
            Err(())
        }
    }
}

impl IoStream {
    /// Attach a diagnostic tag for downstream logging and display.
    pub fn set_tag(&mut self, tag: &'static str)
        ensures
            final(self)@ == (DispatchRec { tag: Option::Some(tag@), ..old(self)@ }),
    {
        self.tag = Some(tag);
    }

    /// Charge all further allocation by or through this stream against the
    /// referenced pool's budget.
    pub fn set_memory_pool(&mut self, pool_ref: PoolRef)
        ensures
            final(self)@ == (DispatchRec { pool: Option::Some(pool_ref.id), ..old(self)@ }),
    {
        self.pool = Some(pool_ref.id);
    }
}

} // verus!
