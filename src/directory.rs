//! Which of the paths found under a root are candidates for reporting.
use crate::mimetype::{image_or_video, probe_is_media, Probe};
use vstd::prelude::*;

verus! {

/// A path found while walking a directory tree, with what examining it gave
/// where it was examined.
#[derive(Clone, Debug)]
pub struct WalkedEntry {
    pub path: String,
    pub probe: Option<Probe>,
}

/// The entry is reported: every entry when type checking is skipped, else
/// only those examined and found to be an image or a video.
pub open spec fn is_candidate(skip_type_checking: bool, e: WalkedEntry) -> bool {
    skip_type_checking || (e.probe matches Some(p) && probe_is_media(p))
}

/// The paths of the candidates among `es`, in order.
pub open spec fn candidates(skip_type_checking: bool, es: Seq<WalkedEntry>) -> Seq<Seq<char>>
    decreases es.len(),
{
    if es.len() == 0 {
        Seq::empty()
    } else {
        let rest = candidates(skip_type_checking, es.drop_last());
        if is_candidate(skip_type_checking, es.last()) {
            rest.push(es.last().path@)
        } else {
            rest
        }
    }
}

/// The paths of the entries that are candidates, in the order walked.
pub fn get_file_iter(entries: &Vec<WalkedEntry>, skip_type_checking: bool) -> (r: Vec<String>)
    ensures
        r@.map_values(|s: String| s@) == candidates(skip_type_checking, entries@),
{
    let mut out: Vec<String> = Vec::new();
    let mut i: usize = 0;
    while i < entries.len()
        invariant
            i <= entries.len(),
            out@.map_values(|s: String| s@) == candidates(skip_type_checking, entries@.take(i as int)),
        decreases entries.len() - i,
    {
        let e = &entries[i];
        let keep = if skip_type_checking {
            true
        } else {
            match &e.probe {
                Some(p) => match image_or_video(p) {
                    Ok(b) => b,
                    Err(_) => false,
                },
                None => false,
            }
        };
        proof {
            assert(entries@.take(i + 1).drop_last() == entries@.take(i as int));
            assert(entries@.take(i + 1).last() == entries@[i as int]);
        }
        if keep {
            let ghost before = out@;
            out.push(e.path.clone());
            proof {
                assert(out@.map_values(|s: String| s@) == before.map_values(|s: String| s@).push(
                    e.path@,
                ));
            }
        }
        i += 1;
    }
    proof {
        assert(entries@.take(entries@.len() as int) == entries@);
    }
    out
}

} // verus!
