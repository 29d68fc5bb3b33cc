//! Typed read and write helpers over the JSON codec.
//!
//! Each read helper takes the raw cell(s) a GET or MGET round trip fetched —
//! `None` for an absent key, the stored text otherwise — decodes through the
//! codec, and classifies failures: absence is distinguished from corrupt text,
//! and store-level failures keep their own kind. The write helper encodes a
//! value and appends exactly one SET operation of that encoding to a batch.

use vstd::prelude::*;

use crate::codec::decode_value;
use crate::codec::encode_value;
use crate::codec::json_decoded;
use crate::codec::json_encoded;
use crate::store::pipe_atomic;
use crate::store::pipe_ops;
use crate::store::push_set;

verus! {

/// The ways writing a JSON value can fail: the value did not encode, or the
/// store reported an error.
#[derive(Debug)]
pub enum JsonSetError {
    Serialization(serde_json::Error),
    DbError(redis::RedisError),
}

/// The ways reading a JSON value can fail: the key was absent (distinct from
/// corrupt text, so callers can branch on missing vs corrupt), the stored
/// text did not decode, or the store reported an error.
#[derive(Debug)]
pub enum JsonGetError {
    NotFound,
    Serialization(serde_json::Error),
    DbError(redis::RedisError),
}

impl From<redis::RedisError> for JsonSetError {
    fn from(err: redis::RedisError) -> (r: Self) {
        JsonSetError::DbError(err)
    }
}

impl vstd::std_specs::convert::FromSpecImpl<redis::RedisError> for JsonSetError {
    open spec fn obeys_from_spec() -> bool {
        true
    }

    open spec fn from_spec(err: redis::RedisError) -> Self {
        JsonSetError::DbError(err)
    }
}

impl From<serde_json::Error> for JsonSetError {
    fn from(err: serde_json::Error) -> (r: Self) {
        JsonSetError::Serialization(err)
    }
}

impl vstd::std_specs::convert::FromSpecImpl<serde_json::Error> for JsonSetError {
    open spec fn obeys_from_spec() -> bool {
        true
    }

    open spec fn from_spec(err: serde_json::Error) -> Self {
        JsonSetError::Serialization(err)
    }
}

impl From<redis::RedisError> for JsonGetError {
    fn from(err: redis::RedisError) -> (r: Self) {
        JsonGetError::DbError(err)
    }
}

impl vstd::std_specs::convert::FromSpecImpl<redis::RedisError> for JsonGetError {
    open spec fn obeys_from_spec() -> bool {
        true
    }

    open spec fn from_spec(err: redis::RedisError) -> Self {
        JsonGetError::DbError(err)
    }
}

impl From<serde_json::Error> for JsonGetError {
    fn from(err: serde_json::Error) -> (r: Self) {
        JsonGetError::Serialization(err)
    }
}

impl vstd::std_specs::convert::FromSpecImpl<serde_json::Error> for JsonGetError {
    open spec fn obeys_from_spec() -> bool {
        true
    }

    open spec fn from_spec(err: serde_json::Error) -> Self {
        JsonGetError::Serialization(err)
    }
}

/// The characters of a fetched cell, or nothing for an absent key.
pub open spec fn opt_view(raw: Option<String>) -> Option<Seq<char>> {
    match raw {
        Option::None => Option::None,
        Option::Some(s) => Option::Some(s@),
    }
}

/// The value one fetched cell holds: nothing when the key is absent or the
/// stored text does not decode.
pub open spec fn read_one_value(raw: Option<Seq<char>>) -> Option<serde_json::Value> {
    match raw {
        Option::None => Option::None,
        Option::Some(text) => json_decoded(text),
    }
}

/// Reads one value: absence is `NotFound`, text that does not decode is
/// `Serialization`; a store failure never arises here (the fetch already
/// happened).
pub fn json_get_from_raw(raw: Option<String>) -> (r: Result<serde_json::Value, JsonGetError>)
    ensures
        r is Ok <==> read_one_value(opt_view(raw)) is Some,
        r matches Ok(v) ==> read_one_value(opt_view(raw)) == Some(v),
        raw is None <==> r == Err::<serde_json::Value, JsonGetError>(JsonGetError::NotFound),
        (r matches Err(e) && e is Serialization) <==> (opt_view(raw) matches Some(text)
            && json_decoded(text) is None),
        r matches Err(e) ==> !(e is DbError),
{
    match raw {
        Option::None => Err(JsonGetError::NotFound),
        Option::Some(s) => match decode_value(s.as_str()) {
            Ok(v) => Ok(v),
            Err(e) => Err(JsonGetError::Serialization(e)),
        },
    }
}

/// Reads one value that may be absent: an absent key is `Ok(None)` rather
/// than a failure; text that does not decode is still `Serialization`.
pub fn maybe_json_get_from_raw(raw: Option<String>) -> (r: Result<
    Option<serde_json::Value>,
    JsonGetError,
>)
    ensures
        r matches Ok(v) ==> v == read_one_value(opt_view(raw)),
        r is Ok <==> !(opt_view(raw) matches Some(text) && json_decoded(text) is None),
        r matches Err(e) ==> e is Serialization,
{
    match raw {
        Option::None => Ok(Option::None),
        Option::Some(s) => match decode_value(s.as_str()) {
            Ok(v) => Ok(Option::Some(v)),
            Err(e) => Err(JsonGetError::Serialization(e)),
        },
    }
}

/// The fetched cells, as characters.
pub open spec fn opts_view(raws: Seq<Option<String>>) -> Seq<Option<Seq<char>>> {
    raws.map_values(|raw: Option<String>| opt_view(raw))
}

/// The value a present, decodable cell holds.
pub open spec fn entry_value(raw: Option<Seq<char>>) -> serde_json::Value {
    match read_one_value(raw) {
        Option::Some(v) => v,
        Option::None => arbitrary(),
    }
}

/// The multi-key read fails on absence: with several keys requested, every
/// cell must be present (there is no per-element optionality there).
pub open spec fn mget_missing(raws: Seq<Option<Seq<char>>>) -> bool {
    raws.len() != 1 && exists|i: int| 0 <= i < raws.len() && (#[trigger] raws[i]) is None
}

/// What the multi-get returns. A single requested key keeps the optional
/// semantics of [`maybe_json_get_from_raw`]: an absent cell yields no row.
/// Several requested keys map positionally: every cell must be present and
/// decode, and each yields one row.
pub open spec fn mget_rows(raws: Seq<Option<Seq<char>>>) -> Option<Seq<serde_json::Value>> {
    if raws.len() == 1 {
        match raws[0] {
            Option::None => Option::Some(Seq::<serde_json::Value>::empty()),
            Option::Some(text) => match json_decoded(text) {
                Option::Some(v) => Option::Some(seq![v]),
                Option::None => Option::None,
            },
        }
    } else if mget_missing(raws) {
        Option::None
    } else if exists|i: int| 0 <= i < raws.len() && read_one_value(#[trigger] raws[i]) is None {
        Option::None
    } else {
        Option::Some(Seq::new(raws.len(), |i: int| entry_value(raws[i])))
    }
}

/// Reads several values at once, one fetched cell per requested key.
///
/// With one requested key this is [`maybe_json_get_from_raw`] flattened into
/// zero or one rows. With several, each cell must be present — an absent one
/// is `NotFound` for the whole call — and the rows are the cells' values in
/// position; the first cell that does not decode is `Serialization`.
pub fn json_mget_from_raw(raws: Vec<Option<String>>) -> (r: Result<
    Vec<serde_json::Value>,
    JsonGetError,
>)
    ensures
        r is Ok <==> mget_rows(opts_view(raws@)) is Some,
        r matches Ok(rows) ==> Some(rows@) == mget_rows(opts_view(raws@)),
        r == Err::<Vec<serde_json::Value>, JsonGetError>(JsonGetError::NotFound) <==> mget_missing(
            opts_view(raws@),
        ),
        r matches Err(e) ==> !(e is DbError),
{
    let ghost cells = opts_view(raws@);
    if raws.len() == 1 {
        let mut raws = raws;
        let raw = raws.pop().unwrap();
        proof {
            assert(cells[0] == opt_view(raw));
        }
        match maybe_json_get_from_raw(raw) {
            Ok(Option::None) => {
                let rows: Vec<serde_json::Value> = Vec::new();
                proof {
                    assert(Some(rows@) == mget_rows(cells));
                }
                Ok(rows)
            },
            Ok(Option::Some(v)) => {
                let ghost gv = v;
                let mut rows: Vec<serde_json::Value> = Vec::new();
                rows.push(v);
                proof {
                    assert(rows@ =~= seq![gv]);
                }
                Ok(rows)
            },
            Err(e) => Err(e),
        }
    } else {
        let mut i: usize = 0;
        while i < raws.len()
            invariant
                cells == opts_view(raws@),
                cells.len() != 1,
                i <= raws.len(),
                forall|j: int| 0 <= j < i ==> cells[j] is Some,
            decreases raws.len() - i,
        {
            if raws[i].is_none() {
                proof {
                    assert(cells.len() == raws@.len());
                    assert(cells[i as int] is None);
                    assert(mget_missing(cells)) by {
                        assert((i as int) < cells.len() && cells[i as int] is None);
                    }
                    assert(mget_rows(cells) is None);
                }
                return Err(JsonGetError::NotFound);
            }
            i = i + 1;
        }
        let mut rows: Vec<serde_json::Value> = Vec::new();
        let mut k: usize = 0;
        while k < raws.len()
            invariant
                cells == opts_view(raws@),
                cells.len() != 1,
                k <= raws.len(),
                rows@.len() == k,
                forall|j: int| 0 <= j < cells.len() ==> cells[j] is Some,
                forall|j: int| 0 <= j < k ==> read_one_value(#[trigger] cells[j]) is Some,
                forall|j: int| 0 <= j < k ==> rows@[j] == entry_value(cells[j]),
            decreases raws.len() - k,
        {
            let text = match &raws[k] {
                Option::Some(s) => s,
                Option::None => unreached(),
            };
            match decode_value(text.as_str()) {
                Ok(v) => {
                    rows.push(v);
                },
                Err(e) => {
                    proof {
                        assert(read_one_value(cells[k as int]) is None);
                        assert(mget_rows(cells) is None);
                    }
                    return Err(JsonGetError::Serialization(e));
                },
            }
            k = k + 1;
        }
        proof {
            assert(rows@ =~= Seq::new(cells.len(), |i: int| entry_value(cells[i])));
            assert(!mget_missing(cells));
            assert(forall|i: int| 0 <= i < cells.len()
                ==> !(read_one_value(#[trigger] cells[i]) is None));
            assert(Some(rows@) == mget_rows(cells));
        }
        Ok(rows)
    }
}

/// Encodes a value and appends one SET of it at the end of the batch,
/// leaving the earlier operations and the atomic flag untouched. Encoding a
/// JSON value itself cannot fail, so the result is always success; the
/// `Result` shape stands for batch construction from caller types, whose
/// encoding can fail before a value is ever formed.
pub fn json_set(pipe: &mut redis::Pipeline, key: &str, value: &serde_json::Value) -> (r: Result<
    (),
    JsonSetError,
>)
    ensures
        r is Ok,
        pipe_atomic(*final(pipe)) == pipe_atomic(*old(pipe)),
        pipe_ops(*final(pipe)) == pipe_ops(*old(pipe)).push((key@, json_encoded(*value))),
        json_decoded(json_encoded(*value)) == Some(*value),
{
    match encode_value(value) {
        Ok(text) => {
            push_set(pipe, key, text.as_str());
            Ok(())
        },
        Err(e) => Err(JsonSetError::Serialization(e)),
    }
}

/// Round trip of the codec-backed helpers: a value whose encoding `json_set`
/// appended under a key is read back intact when a later read fetches that
/// stored text, whatever the value was.
pub proof fn lemma_set_then_read_round_trip(value: serde_json::Value, text: Seq<char>)
    requires
        json_decoded(text) == Some(value),
    ensures
        read_one_value(Some(text)) == Some(value),
{
}

/// The single-key and the multi-key paths of the multi-get agree on what a
/// stored text decodes to: requested once, the cell yields its value as the
/// only row; requested twice over, the same cell yields that same value in
/// both positions.
pub proof fn lemma_mget_single_multi_consistent(text: Seq<char>, value: serde_json::Value)
    requires
        json_decoded(text) == Some(value),
    ensures
        mget_rows(seq![Some(text)]) == Some(seq![value]),
        mget_rows(seq![Some(text), Some(text)]) == Some(seq![value, value]),
{
    let single = seq![Some(text)];
    let twice = seq![Some(text), Some(text)];
    assert(mget_rows(single) == Some(seq![value]));
    assert(!mget_missing(twice));
    assert(forall|i: int| 0 <= i < twice.len() ==> read_one_value(#[trigger] twice[i]) is Some);
    assert(Seq::new(twice.len(), |i: int| entry_value(twice[i])) =~= seq![value, value]);
}

} // verus!
