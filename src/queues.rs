//! One snapshot of all downloads, gathered from the daemon's three queues.
use vstd::prelude::*;

use crate::rpc::ClientError;
use crate::status::{describes, DownloadInfo, RawStatus};

verus! {

/// What fetching one queue gave: the queue's failure, or for each of its
/// entries the status record or the failure to fetch it.
pub type QueueFetch = Result<Vec<Result<RawStatus, ClientError>>, ClientError>;

/// The records that were fetched, in order, leaving out those that failed.
pub open spec fn fetched_records(items: Seq<Result<RawStatus, ClientError>>) -> Seq<RawStatus>
    decreases items.len(),
{
    if items.len() == 0 {
        Seq::empty()
    } else {
        let rest = fetched_records(items.drop_last());
        match items.last() {
            Ok(raw) => rest.push(raw),
            Err(_) => rest,
        }
    }
}

/// The records one queue contributes: none where the queue could not be fetched.
pub open spec fn queue_records(q: QueueFetch) -> Seq<RawStatus> {
    match q {
        Ok(items) => fetched_records(items@),
        Err(_) => Seq::empty(),
    }
}

/// Each info describes the record at the same place.
pub open spec fn describes_all(infos: Seq<DownloadInfo>, raws: Seq<RawStatus>) -> bool {
    &&& infos.len() == raws.len()
    &&& forall|i: int| 0 <= i < infos.len() ==> describes(#[trigger] infos[i], raws[i])
}

/// Adds the downloads of one queue, in the queue's order, to `out`.
pub fn append_queue(out: &mut Vec<DownloadInfo>, q: &QueueFetch)
    ensures
        final(out)@.take(old(out)@.len() as int) == old(out)@,
        final(out)@.len() == old(out)@.len() + queue_records(*q).len(),
        describes_all(final(out)@.skip(old(out)@.len() as int), queue_records(*q)),
{
    let ghost start = out@;
    match q {
        Ok(items) => {
            let mut i: usize = 0;
            while i < items.len()
                invariant
                    i <= items@.len(),
                    out@.take(start.len() as int) == start,
                    out@.len() == start.len() + fetched_records(items@.take(i as int)).len(),
                    describes_all(out@.skip(start.len() as int), fetched_records(items@.take(i as int))),
                decreases items@.len() - i,
            {
                let ghost before = out@;
                assert(items@.take(i + 1).drop_last() =~= items@.take(i as int));
                match &items[i] {
                    Ok(raw) => {
                        let info = DownloadInfo::from_status(raw);
                        out.push(info);
                        assert(out@.take(start.len() as int) =~= before.take(start.len() as int));
                        assert(out@.skip(start.len() as int) =~= before.skip(start.len() as int).push(info));
                    },
                    Err(_) => {},
                }
                i = i + 1;
            }
            assert(items@.take(items@.len() as int) =~= items@);
        },
        Err(_) => {
            assert(out@.skip(start.len() as int) =~= Seq::<DownloadInfo>::empty());
        },
    }
}

/// A snapshot of every download: the active queue, then the waiting one, then
/// the stopped one. A queue that could not be fetched adds nothing, and an
/// entry whose record could not be fetched is left out; the snapshot itself
/// never fails.
pub fn get_all_downloads(active: &QueueFetch, waiting: &QueueFetch, stopped: &QueueFetch) -> (r: Vec<DownloadInfo>)
    ensures
        describes_all(r@, queue_records(*active) + queue_records(*waiting) + queue_records(*stopped)),
{
    let mut out: Vec<DownloadInfo> = Vec::new();
    append_queue(&mut out, active);
    let ghost a = out@;
    append_queue(&mut out, waiting);
    let ghost aw = out@;
    append_queue(&mut out, stopped);
    proof {
        let ra = queue_records(*active);
        let rw = queue_records(*waiting);
        let rs = queue_records(*stopped);
        assert(a =~= a.skip(0));
        assert(aw =~= a + aw.skip(a.len() as int));
        assert(out@ =~= aw + out@.skip(aw.len() as int));
        let all = ra + rw + rs;
        assert forall|i: int| 0 <= i < out@.len() implies describes(#[trigger] out@[i], all[i]) by {
            if i < a.len() {
                assert(out@[i] == a.skip(0)[i]);
            } else if i < aw.len() {
                assert(out@[i] == aw.skip(a.len() as int)[i - a.len()]);
            } else {
                assert(out@[i] == out@.skip(aw.len() as int)[i - aw.len()]);
            }
        }
    }
    out
}

} // verus!
