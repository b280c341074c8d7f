use vstd::prelude::*;
use crate::json::{
    json_array, json_bool, json_i64, json_map_insert, json_map_new, json_number, json_object,
    json_string, json_u64, num_rep, obj_rep, reps_of, value_rep,
};
use crate::requests::{Request, RequestArguments};
use crate::types::ConversionError;
use crate::types::Priority;
use crate::wire::WireValue;

verus! {

/// A property override held by the builder, already in wire representation.
///
/// A floating value enters as a `serde_json::Number`, the wire form that the
/// JSON library only ever builds from a finite double; the builder itself
/// therefore never holds a value the protocol cannot carry.
#[derive(Clone)]
pub enum PropValue {
    Bool(bool),
    Text(String),
    Int(i64),
    UInt(u64),
    Floating(serde_json::Number),
}

impl PropValue {
    /// The wire value this override denotes.
    pub open spec fn wire(self) -> WireValue {
        match self {
            PropValue::Bool(b) => WireValue::Bool(b),
            PropValue::Text(s) => WireValue::Str(s@),
            PropValue::Int(i) => WireValue::Num(i as int),
            PropValue::UInt(u) => WireValue::Num(u as int),
            PropValue::Floating(n) => num_rep(n),
        }
    }
}

/// Abstract state of a property-update request: the target identifiers, in
/// order, and the final value of each property override, keyed by wire name.
#[verifier::ext_equal]
pub struct TorrentSetState {
    pub ids: Seq<u64>,
    pub fields: Map<Seq<char>, WireValue>,
}

/// The override map that a sequence of writes leaves behind: each later
/// write to a key replaces the earlier value under that key.
pub open spec fn written_fields(entries: Seq<(String, PropValue)>) -> Map<Seq<char>, WireValue>
    decreases entries.len(),
{
    if entries.len() == 0 {
        Map::empty()
    } else {
        written_fields(entries.drop_last()).insert(
            entries.last().0@,
            entries.last().1.wire(),
        )
    }
}

/// Builder for a property-update request: accumulates target identifiers and
/// property overrides through chained calls, then serializes into a wire
/// argument object. Every value is converted at the setter, so serialization
/// itself cannot fail.
#[derive(Clone)]
pub struct TorrentSet {
    ids: Vec<u64>,
    fields: Vec<(String, PropValue)>,
}

impl View for TorrentSet {
    type V = TorrentSetState;

    closed spec fn view(&self) -> TorrentSetState {
        TorrentSetState { ids: self.ids@, fields: written_fields(self.fields@) }
    }
}

impl TorrentSet {
    /// Creates a builder with no target identifiers and no overrides.
    pub fn new() -> (r: TorrentSet)
        ensures
            r@.ids == Seq::<u64>::empty(),
            r@.fields == Map::<Seq<char>, WireValue>::empty(),
    {
        TorrentSet { ids: Vec::new(), fields: Vec::new() }
    }

    /// Appends one target identifier; everything else stays as it was.
    pub fn id(self, id: u64) -> (r: TorrentSet)
        ensures
            r@.ids == self@.ids.push(id),
            r@.fields == self@.fields,
    {
        let mut ids = self.ids;
        ids.push(id);
        TorrentSet { ids, fields: self.fields }
    }

    /// Replaces the whole target identifier sequence; overrides stay as they
    /// were.
    pub fn ids(self, ids: Vec<u64>) -> (r: TorrentSet)
        ensures
            r@.ids == ids@,
            r@.fields == self@.fields,
    {
        TorrentSet { ids, fields: self.fields }
    }

    /// Records one property override: afterwards the key maps to the given
    /// value, whatever was written under it before.
    fn set_field(self, key: &str, value: PropValue) -> (r: TorrentSet)
        ensures
            r@.ids == self@.ids,
            r@.fields == self@.fields.insert(key@, value.wire()),
    {
        let mut fields = self.fields;
        let owned: String = key.to_owned();
        fields.push((owned, value));
        proof {
            assert(fields@.drop_last() =~= self.fields@);
            assert(written_fields(fields@) =~= written_fields(self.fields@).insert(
                key@,
                value.wire(),
            ));
        }
        TorrentSet { ids: self.ids, fields }
    }

    /// Sets the transfer priority; it reaches the wire as a signed integer.
    pub fn set_bandwidth_priority(self, p: Priority) -> (r: TorrentSet)
        ensures
            r@.ids == self@.ids,
            r@.fields == self@.fields.insert("bandwidthPriority"@, WireValue::Num(p.wire_int())),
    {
        let v = p.wire_value();
        self.set_field("bandwidthPriority", PropValue::Int(v))
    }

    /// Sets the download limit; it reaches the wire as an unsigned integer.
    pub fn set_download_limit(self, p: u32) -> (r: TorrentSet)
        ensures
            r@.ids == self@.ids,
            r@.fields == self@.fields.insert("downloadLimit"@, WireValue::Num(p as int)),
    {
        self.set_field("downloadLimit", PropValue::UInt(p as u64))
    }

    /// Sets whether the download limit is honored.
    pub fn set_download_limited(self, p: bool) -> (r: TorrentSet)
        ensures
            r@.ids == self@.ids,
            r@.fields == self@.fields.insert("downloadLimited"@, WireValue::Bool(p)),
    {
        self.set_field("downloadLimited", PropValue::Bool(p))
    }

    /// Sets whether session-wide limits are honored.
    pub fn set_honors_session_limits(self, p: bool) -> (r: TorrentSet)
        ensures
            r@.ids == self@.ids,
            r@.fields == self@.fields.insert("honorsSessionLimits"@, WireValue::Bool(p)),
    {
        self.set_field("honorsSessionLimits", PropValue::Bool(p))
    }

    /// Sets the download directory.
    pub fn set_location(self, p: String) -> (r: TorrentSet)
        ensures
            r@.ids == self@.ids,
            r@.fields == self@.fields.insert("location"@, WireValue::Str(p@)),
    {
        self.set_field("location", PropValue::Text(p))
    }

    /// Sets the peer limit; it reaches the wire as an unsigned integer.
    pub fn set_peer_limit(self, p: u32) -> (r: TorrentSet)
        ensures
            r@.ids == self@.ids,
            r@.fields == self@.fields.insert("peer-limit"@, WireValue::Num(p as int)),
    {
        self.set_field("peer-limit", PropValue::UInt(p as u64))
    }

    /// Sets the position in the download queue.
    pub fn set_queue_position(self, p: u32) -> (r: TorrentSet)
        ensures
            r@.ids == self@.ids,
            r@.fields == self@.fields.insert("queuePosition"@, WireValue::Num(p as int)),
    {
        self.set_field("queuePosition", PropValue::UInt(p as u64))
    }

    /// Sets the idle limit, in minutes, after which seeding stops.
    pub fn set_seed_idle_limit(self, p: u32) -> (r: TorrentSet)
        ensures
            r@.ids == self@.ids,
            r@.fields == self@.fields.insert("seedIdleLimit"@, WireValue::Num(p as int)),
    {
        self.set_field("seedIdleLimit", PropValue::UInt(p as u64))
    }

    /// Sets the ratio limit after which seeding stops.
    ///
    /// The caller hands in the outcome of converting its double to a wire
    /// number (`serde_json::Number::from_f64`); that conversion yields `None`
    /// exactly on a NaN or infinite input, which the protocol cannot carry.
    /// On `None` the call fails and nothing is stored; on `Some` the given
    /// number is recorded unchanged.
    pub fn set_seed_ratio_limit(self, ratio: Option<serde_json::Number>) -> (r: Result<
        TorrentSet,
        ConversionError,
    >)
        ensures
            (ratio matches Some(n) ==> r matches Ok(b) && b@.ids == self@.ids && b@.fields
                == self@.fields.insert("seedRatioLimit"@, num_rep(n))),
            (ratio is None ==> r == Err::<TorrentSet, ConversionError>(
                ConversionError::NonFinite,
            )),
    {
        match ratio {
            Some(n) => Ok(self.set_field("seedRatioLimit", PropValue::Floating(n))),
            None => Err(ConversionError::NonFinite),
        }
    }

    /// Sets the upload limit; it reaches the wire as an unsigned integer.
    pub fn set_upload_limit(self, p: u32) -> (r: TorrentSet)
        ensures
            r@.ids == self@.ids,
            r@.fields == self@.fields.insert("uploadLimit"@, WireValue::Num(p as int)),
    {
        self.set_field("uploadLimit", PropValue::UInt(p as u64))
    }

    /// Sets whether the upload limit is honored.
    pub fn set_upload_limited(self, p: bool) -> (r: TorrentSet)
        ensures
            r@.ids == self@.ids,
            r@.fields == self@.fields.insert("uploadLimited"@, WireValue::Bool(p)),
    {
        self.set_field("uploadLimited", PropValue::Bool(p))
    }
}

/// The wire values of a sequence of target identifiers, in order.
pub open spec fn ids_as_wire(ids: Seq<u64>) -> Seq<WireValue> {
    ids.map_values(|x: u64| WireValue::Num(x as int))
}

/// Converts one stored override to its JSON value.
fn prop_to_json(v: &PropValue) -> (r: serde_json::Value)
    ensures
        value_rep(r) == v.wire(),
{
    match v {
        PropValue::Bool(b) => json_bool(*b),
        PropValue::Text(s) => json_string(s.clone()),
        PropValue::Int(i) => json_i64(*i),
        PropValue::UInt(u) => json_u64(*u),
        PropValue::Floating(n) => json_number(n),
    }
}

/// Acknowledgment of a property-update request: a successfully deserialized
/// instance says the daemon accepted the request; it carries nothing else.
#[derive(Clone, Copy, Debug, PartialEq, Eq, Structural)]
pub struct TorrentSetResponse;

impl Request for TorrentSet {
    type Response = TorrentSetResponse;

    open spec fn spec_method_name() -> Seq<char> {
        "torrent-set"@
    }

    fn method_name(&self) -> (r: &'static str) {
        "torrent-set"
    }
}

impl RequestArguments for TorrentSet {
    open spec fn spec_arguments(&self) -> WireValue {
        WireValue::Obj(self@.fields.insert("ids"@, WireValue::Arr(ids_as_wire(self@.ids))))
    }

    fn arguments(&self) -> (r: serde_json::Value) {
        let mut obj = json_map_new();
        let mut i: usize = 0;
        while i < self.fields.len()
            invariant
                i <= self.fields.len(),
                obj_rep(obj) == written_fields(self.fields@.take(i as int)),
            decreases self.fields.len() - i,
        {
            let key: String = self.fields[i].0.clone();
            let val = prop_to_json(&self.fields[i].1);
            json_map_insert(&mut obj, key, val);
            proof {
                let done = self.fields@.take(i + 1 as int);
                assert(done.drop_last() =~= self.fields@.take(i as int));
                assert(obj_rep(obj) =~= written_fields(done));
            }
            i = i + 1;
        }
        proof {
            assert(self.fields@.take(self.fields@.len() as int) =~= self.fields@);
        }
        let mut items: Vec<serde_json::Value> = Vec::new();
        let mut j: usize = 0;
        while j < self.ids.len()
            invariant
                j <= self.ids.len(),
                reps_of(items@) == ids_as_wire(self.ids@.take(j as int)),
            decreases self.ids.len() - j,
        {
            let item = json_u64(self.ids[j]);
            let ghost pre = items@;
            items.push(item);
            proof {
                let l = j as int;
                let full = self.ids@.take(l + 1);
                assert(reps_of(pre).len() == pre.len());
                assert(ids_as_wire(self.ids@.take(l)).len() == l);
                assert(pre.len() == l);
                assert forall|k: int| 0 <= k < items@.len() implies #[trigger] reps_of(items@)[k]
                    == ids_as_wire(full)[k] by {
                    if k < l {
                        assert(items@[k] == pre[k]);
                        assert(reps_of(pre)[k] == ids_as_wire(self.ids@.take(l))[k]);
                    } else {
                        assert(items@[k] == item);
                    }
                }
                assert(reps_of(items@) =~= ids_as_wire(full));
            }
            j = j + 1;
        }
        proof {
            assert(self.ids@.take(self.ids@.len() as int) =~= self.ids@);
        }
        let ids_value = json_array(items);
        json_map_insert(&mut obj, "ids".to_owned(), ids_value);
        json_object(obj)
    }
}

/// Law: a builder that holds no property overrides serializes to an object
/// with the single key "ids", mapped to its identifier sequence; no other
/// key appears.
pub proof fn lemma_ids_only_object(b: TorrentSet)
    requires
        b@.fields == Map::<Seq<char>, WireValue>::empty(),
    ensures
        b.spec_arguments() == WireValue::Obj(
            Map::<Seq<char>, WireValue>::empty().insert("ids"@, WireValue::Arr(ids_as_wire(b@.ids))),
        ),
{
}

/// Law: for one property key, the write that comes last decides the value
/// that serializes, whatever was written under that key before.
pub proof fn lemma_last_write_wins(
    fields: Map<Seq<char>, WireValue>,
    key: Seq<char>,
    first: WireValue,
    last: WireValue,
)
    ensures
        fields.insert(key, first).insert(key, last) == fields.insert(key, last),
{
    assert(fields.insert(key, first).insert(key, last) =~= fields.insert(key, last));
}

/// Law: writes under distinct property keys land independently; interleaving
/// them in either order leaves the same override map behind.
pub proof fn lemma_distinct_writes_commute(
    fields: Map<Seq<char>, WireValue>,
    key_a: Seq<char>,
    val_a: WireValue,
    key_b: Seq<char>,
    val_b: WireValue,
)
    requires
        key_a != key_b,
    ensures
        fields.insert(key_a, val_a).insert(key_b, val_b) == fields.insert(key_b, val_b).insert(
            key_a,
            val_a,
        ),
{
    assert(fields.insert(key_a, val_a).insert(key_b, val_b) =~= fields.insert(key_b, val_b).insert(
        key_a,
        val_a,
    ));
}

/// The builder state after appending the given identifiers one at a time,
/// each through one `id` call.
pub open spec fn after_id_calls(s: TorrentSetState, l: Seq<u64>) -> TorrentSetState
    decreases l.len(),
{
    if l.len() == 0 {
        s
    } else {
        let prev = after_id_calls(s, l.drop_last());
        TorrentSetState { ids: prev.ids.push(l.last()), fields: prev.fields }
    }
}

/// Law: appending identifiers one at a time, starting from an empty
/// identifier sequence, leaves the builder in the same state as installing
/// the whole sequence at once.
pub proof fn lemma_id_chain_matches_ids(s: TorrentSetState, l: Seq<u64>)
    requires
        s.ids == Seq::<u64>::empty(),
    ensures
        after_id_calls(s, l) == (TorrentSetState { ids: l, fields: s.fields }),
    decreases l.len(),
{
    if l.len() == 0 {
        assert(l =~= Seq::<u64>::empty());
        assert(s =~= (TorrentSetState { ids: l, fields: s.fields }));
    } else {
        lemma_id_chain_matches_ids(s, l.drop_last());
        assert(l.drop_last().push(l.last()) =~= l);
    }
}

/// Law: the method name is a constant of the request kind. Its
/// specification takes no request value at all, so no builder state, fresh
/// or mutated, can influence what `method_name` returns.
pub proof fn lemma_method_name_constant()
    ensures
        TorrentSet::spec_method_name() == "torrent-set"@,
{
}

/// Law: a freshly created, never-mutated builder serializes to the object
/// holding exactly the key "ids", mapped to the empty array.
pub proof fn lemma_fresh_builder_object(b: TorrentSet)
    requires
        b@.ids == Seq::<u64>::empty(),
        b@.fields == Map::<Seq<char>, WireValue>::empty(),
    ensures
        b.spec_arguments() == WireValue::Obj(
            Map::<Seq<char>, WireValue>::empty().insert(
                "ids"@,
                WireValue::Arr(Seq::<WireValue>::empty()),
            ),
        ),
{
    assert(ids_as_wire(Seq::<u64>::empty()) =~= Seq::<WireValue>::empty());
}

} // verus!

