//! The event drain pass.
//!
//! On each polling tick the drain loop empties the ring channel without
//! blocking: it takes records until the channel reports empty, decodes each
//! one, and turns it into a log line. A record of the wrong length is
//! skipped — never fatal — and an empty channel is the expected steady
//! state, not an error. Because consuming a record removes it from the
//! channel, a pass converts each record to exactly one line and a repeated
//! pass re-emits nothing.

use vstd::prelude::*;
use crate::channel::RingChannel;
use crate::codec::{decode_record, spec_decode_record, RECORD_SIZE};
use crate::render::{render_log_line, spec_log_line};

verus! {

/// The log lines a sequence of raw records yields, in order: one line per
/// record of the fixed record size, none for a record of any other length.
pub open spec fn spec_drain_lines(recs: Seq<Seq<u8>>) -> Seq<Seq<char>>
    decreases recs.len(),
{
    if recs.len() == 0 {
        Seq::empty()
    } else {
        let rest = spec_drain_lines(recs.drop_first());
        if recs[0].len() == RECORD_SIZE {
            seq![spec_log_line(spec_decode_record(recs[0]))] + rest
        } else {
            rest
        }
    }
}

/// The character sequences of a sequence of strings.
pub open spec fn spec_line_views(lines: Seq<String>) -> Seq<Seq<char>> {
    lines.map(|i: int, s: String| s@)
}

/// One drain pass: empty the channel and return one log line per
/// well-sized record, in production order. Records of the wrong length
/// are dropped. The channel is left empty, so no record is reported twice
/// by later passes.
pub fn drain_channel(ch: &mut RingChannel) -> (lines: Vec<String>)
    ensures
        final(ch)@.len() == 0,
        final(ch).spec_capacity() == old(ch).spec_capacity(),
        spec_line_views(lines@) == spec_drain_lines(old(ch)@),
{
    let mut lines: Vec<String> = Vec::new();
    let mut done = false;
    proof {
        assert(spec_line_views(lines@) =~= Seq::<Seq<char>>::empty());
    }
    while !done
        invariant
            ch.spec_capacity() == old(ch).spec_capacity(),
            done ==> ch@.len() == 0,
            spec_drain_lines(old(ch)@) == spec_line_views(lines@) + spec_drain_lines(ch@),
        decreases ch@.len() + (if done { 0int } else { 1int }),
    {
        let ghost pre = ch@;
        let ghost pre_lines = lines@;
        match ch.next_record() {
            None => {
                done = true;
            },
            Some(rec) => {
                match decode_record(rec.as_slice()) {
                    Ok(plog) => {
                        let line = render_log_line(&plog);
                        lines.push(line);
                        proof {
                            assert(spec_line_views(lines@) =~= spec_line_views(pre_lines) + seq![
                                spec_log_line(spec_decode_record(pre[0])),
                            ]);
                            assert(spec_line_views(lines@) + spec_drain_lines(ch@)
                                =~= spec_line_views(pre_lines) + spec_drain_lines(pre));
                        }
                    },
                    Err(_) => {
                        proof {
                            assert(spec_drain_lines(pre) == spec_drain_lines(ch@));
                        }
                    },
                }
            },
        }
    }
    proof {
        assert(spec_drain_lines(ch@) =~= Seq::<Seq<char>>::empty());
        assert(spec_line_views(lines@) =~= spec_line_views(lines@) + Seq::<Seq<char>>::empty());
    }
    lines
}

/// How many of the records have the fixed record size.
pub open spec fn spec_well_sized_count(recs: Seq<Seq<u8>>) -> int
    decreases recs.len(),
{
    if recs.len() == 0 {
        0
    } else {
        (if recs[0].len() == RECORD_SIZE {
            1int
        } else {
            0int
        }) + spec_well_sized_count(recs.drop_first())
    }
}

/// Each drained record is converted to exactly one log line: a pass over
/// any record sequence yields as many lines as it has well-sized records,
/// no more and no fewer.
pub proof fn lemma_one_line_per_record(recs: Seq<Seq<u8>>)
    ensures
        spec_drain_lines(recs).len() == spec_well_sized_count(recs),
    decreases recs.len(),
{
    if recs.len() > 0 {
        lemma_one_line_per_record(recs.drop_first());
    }
}

/// Draining is idempotent per record: a pass leaves the channel empty,
/// and a pass over an empty channel yields no lines at all, so nothing
/// already drained is ever re-emitted.
pub proof fn lemma_second_pass_empty()
    ensures
        spec_drain_lines(Seq::<Seq<u8>>::empty()) == Seq::<Seq<char>>::empty(),
{
}

} // verus!
