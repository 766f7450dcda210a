//! Control-channel sniffing over raw stream chunks. A chunk is scanned as a
//! concatenation of structured records; a record carrying the control marker
//! makes the whole chunk non-forwardable, and its optional room field is
//! surfaced. A chunk with no control record is forwarded untouched.

use vstd::prelude::*;

verus! {

/// One record scanned out of a raw chunk: whether it carries the control
/// marker key, and the record's optional room string.
pub struct ControlRecord {
    pub internal: bool,
    pub room: Option<String>,
}

impl View for ControlRecord {
    type V = (bool, Option<Seq<char>>);

    open spec fn view(&self) -> (bool, Option<Seq<char>>) {
        (
            self.internal,
            match self.room {
                Some(s) => Some(s@),
                None => None,
            },
        )
    }
}

/// The view of a scanned record sequence.
pub open spec fn records_view(s: Seq<ControlRecord>) -> Seq<(bool, Option<Seq<char>>)> {
    s.map_values(|c: ControlRecord| c@)
}

/// The records found in a chunk: for each member of the longest prefix of
/// the chunk that parses as concatenated JSON values, whether the value has
/// the `marker` key, and the string under its `room_key` key if any. This is
/// a function of the bytes and the two keys alone.
pub uninterp spec fn json_records(chunk: Seq<u8>, marker: Seq<char>, room_key: Seq<char>) -> Seq<
    (bool, Option<Seq<char>>),
>;

/// Relies on serde_json: `Deserializer::from_slice(..).into_iter::<Value>()`
/// yields `Ok` for each value of the longest prefix of the input that parses
/// as concatenated JSON values and stops at the first position where none
/// begins; `Value::get` tells whether a key is present in an object, and
/// `Value::as_str` reads a string value. All of it depends on the input
/// bytes and the keys alone, which `json_records` names.
#[verifier::external_body]
fn scan_records(chunk: &[u8], marker: &str, room_key: &str) -> (r: Vec<ControlRecord>)
    ensures
        records_view(r@) == json_records(chunk@, marker@, room_key@),
{
    let mut out = Vec::new();
    for item in serde_json::Deserializer::from_slice(chunk).into_iter::<serde_json::Value>() {
        match item {
            Ok(v) => out.push(ControlRecord {
                internal: v.get(marker).is_some(),
                room: v.get(room_key).and_then(|x| x.as_str()).map(str::to_owned),
            }),
            Err(_) => break,
        }
    }
    out
}

/// Whether a scanned chunk may be forwarded: true exactly when no record of
/// it carries the control marker.
pub open spec fn spec_forward(recs: Seq<(bool, Option<Seq<char>>)>) -> bool {
    forall|i: int| 0 <= i < recs.len() ==> !recs[i].0
}

/// The room codes a scanned chunk surfaces: the room fields of its
/// marker-carrying records, in record order.
pub open spec fn spec_rooms(recs: Seq<(bool, Option<Seq<char>>)>) -> Seq<Seq<char>>
    decreases recs.len(),
{
    if recs.len() == 0 {
        Seq::empty()
    } else {
        spec_rooms(recs.drop_last()) + (if recs.last().0 && recs.last().1 is Some {
            seq![recs.last().1->Some_0]
        } else {
            Seq::<Seq<char>>::empty()
        })
    }
}

/// The view of an extracted room-code list.
pub open spec fn strings_view(s: Seq<String>) -> Seq<Seq<char>> {
    s.map_values(|x: String| x@)
}

/// The decision for one whole chunk: forward it untouched, or suppress it
/// and surface these room codes.
pub struct ChunkDecision {
    pub forward: bool,
    pub rooms: Vec<String>,
}

/// Fold the scanned records of one chunk into its decision: the chunk is
/// forwardable exactly when no record carries the control marker, and the
/// room codes are those of the marker-carrying records, in order.
pub fn assess_records(recs: &Vec<ControlRecord>) -> (v: ChunkDecision)
    ensures
        v.forward == spec_forward(records_view(recs@)),
        strings_view(v.rooms@) == spec_rooms(records_view(recs@)),
{
    let ghost all = records_view(recs@);
    let mut forward = true;
    let mut rooms: Vec<String> = Vec::new();
    let mut i: usize = 0;
    while i < recs.len()
        invariant
            0 <= i <= recs@.len(),
            all == records_view(recs@),
            all.len() == recs@.len(),
            forward == spec_forward(all.take(i as int)),
            strings_view(rooms@) == spec_rooms(all.take(i as int)),
        decreases recs@.len() - i,
    {
        proof {
            assert(all.take(i + 1).drop_last() =~= all.take(i as int));
            assert(all.take(i + 1).last() == all[i as int]);
            assert(all[i as int] == recs@[i as int]@);
        }
        if recs[i].internal {
            forward = false;
            if let Some(code) = &recs[i].room {
                rooms.push(code.clone());
                proof {
                    assert(strings_view(rooms@) =~= spec_rooms(all.take(i + 1)));
                }
            }
            proof {
                assert(!spec_forward(all.take(i + 1)));
            }
        } else {
            proof {
                assert(forward == spec_forward(all.take(i + 1))) by {
                    if forward {
                        assert(forall|j: int|
                            0 <= j < i + 1 ==> !#[trigger] all.take(i + 1)[j].0);
                    } else {
                        let k = choose|j: int| 0 <= j < i && #[trigger] all.take(i as int)[j].0;
                        assert(all.take(i + 1)[k].0);
                    }
                }
            }
        }
        proof {
            assert(strings_view(rooms@) =~= spec_rooms(all.take(i + 1)));
        }
        i += 1;
    }
    proof {
        assert(all.take(recs@.len() as int) =~= all);
    }
    ChunkDecision { forward, rooms }
}

/// Scan one raw chunk as read from the stream transport and decide its fate:
/// forward it untouched exactly when none of its parsed records carries the
/// `"internal"` marker, and surface the `"room"` codes of the marker-carrying
/// records, in order. Unparseable trailing bytes are ignored.
pub fn sniff_chunk(chunk: &Vec<u8>) -> (v: ChunkDecision)
    ensures
        v.forward == spec_forward(json_records(chunk@, "internal"@, "room"@)),
        strings_view(v.rooms@) == spec_rooms(json_records(chunk@, "internal"@, "room"@)),
{
    let recs = scan_records(chunk.as_slice(), "internal", "room");
    assess_records(&recs)
}

} // verus!
