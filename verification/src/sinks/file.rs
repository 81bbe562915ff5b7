//! The file sink appends each batch as JSON lines: one serialized event per
//! line, each line ended by a newline.

use vstd::prelude::*;

verus! {

/// The bytes of a batch of records, each followed by a newline.
pub open spec fn json_lines(records: Seq<Seq<u8>>) -> Seq<u8>
    decreases records.len(),
{
    if records.len() == 0 {
        Seq::empty()
    } else {
        json_lines(records.drop_last()) + records.last().push(10u8)
    }
}

/// How many bytes a batch of records takes as JSON lines: each record's
/// bytes and one newline.
pub open spec fn framed_len(records: Seq<Seq<u8>>) -> nat
    decreases records.len(),
{
    if records.len() == 0 {
        0
    } else {
        framed_len(records.drop_last()) + records.last().len() + 1
    }
}

/// The framed bytes are the records, each unchanged and in order, each
/// followed by a newline byte, and nothing else: record `k` starts after
/// the lines of the records before it.
pub proof fn lemma_json_lines_layout(records: Seq<Seq<u8>>)
    ensures
        json_lines(records).len() == framed_len(records),
        forall|k: int| 0 <= k < records.len() ==> {
            let start = framed_len(#[trigger] records.take(k)) as int;
            &&& start + records[k].len() < framed_len(records)
            &&& json_lines(records).subrange(start, start + records[k].len()) == records[k]
            &&& json_lines(records)[start + records[k].len()] == 10u8
        },
    decreases records.len(),
{
    if records.len() > 0 {
        let n = records.len() as int;
        let prev = records.drop_last();
        let r = records.last();
        let j = json_lines(prev);
        lemma_json_lines_layout(prev);
        let all = j + r.push(10u8);
        assert(json_lines(records) == all);
        assert forall|k: int| 0 <= k < records.len() implies {
            let start = framed_len(#[trigger] records.take(k)) as int;
            &&& start + records[k].len() < framed_len(records)
            &&& all.subrange(start, start + records[k].len()) == records[k]
            &&& all[start + records[k].len()] == 10u8
        } by {
            if k < n - 1 {
                assert(records.take(k) =~= prev.take(k));
                assert(records[k] == prev[k]);
                let start = framed_len(prev.take(k)) as int;
                assert(all.subrange(start, start + prev[k].len()) =~= j.subrange(start, start + prev[k].len()));
                assert(all[start + prev[k].len()] == j[start + prev[k].len()]);
            } else {
                assert(records.take(k) =~= prev);
                assert(all.subrange(j.len() as int, j.len() + r.len() as int) =~= r);
                assert(all[j.len() + r.len() as int] == 10u8);
            }
        }
    }
}

/// The bytes of each record.
pub open spec fn record_bytes(records: Seq<Vec<u8>>) -> Seq<Seq<u8>> {
    records.map_values(|r: Vec<u8>| r@)
}

/// The bytes that writing a batch appends to the file, given the serialized
/// text of each of its events, in order.
pub fn frame_batch(records: &Vec<Vec<u8>>) -> (bytes: Vec<u8>)
    ensures
        bytes@ == json_lines(record_bytes(records@)),
        bytes@.len() == framed_len(record_bytes(records@)),
        forall|k: int| 0 <= k < records@.len() ==> {
            let start = framed_len(#[trigger] record_bytes(records@).take(k)) as int;
            &&& bytes@.subrange(start, start + records@[k]@.len()) == records@[k]@
            &&& bytes@[start + records@[k]@.len()] == 10u8
        },
{
    let mut bytes: Vec<u8> = Vec::new();
    let mut i: usize = 0;
    while i < records.len()
        invariant
            i <= records@.len(),
            bytes@ == json_lines(record_bytes(records@).take(i as int)),
        decreases records@.len() - i,
    {
        let record = &records[i];
        let ghost before = bytes@;
        let mut j: usize = 0;
        while j < record.len()
            invariant
                j <= record@.len(),
                bytes@ == before + record@.take(j as int),
            decreases record@.len() - j,
        {
            bytes.push(record[j]);
            assert(record@.take(j + 1) =~= record@.take(j as int).push(record@[j as int]));
            j = j + 1;
        }
        bytes.push(10u8);
        proof {
            let all = record_bytes(records@);
            assert(all.take(i + 1).drop_last() =~= all.take(i as int));
            assert(record@.take(j as int) =~= record@);
        }
        i = i + 1;
    }
    proof {
        let all = record_bytes(records@);
        assert(all.take(i as int) =~= all);
        lemma_json_lines_layout(all);
        assert forall|k: int| 0 <= k < records@.len() implies all[k] == records@[k]@ by {}
    }
    bytes
}

} // verus!
