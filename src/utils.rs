use vstd::prelude::*;

verus! {

/// Scans `data`, from position `idx`, as a sequence of
/// `[key_len][key][value_len][value]` records and gives the bounds of the value
/// of the first record whose key is `attribute`. A zero key length is padding:
/// it is skipped and no value follows it. A record cut short by the end of the
/// data ends the scan with nothing found.
pub open spec fn attribute_value_bounds(data: Seq<u8>, attribute: Seq<u8>, idx: int) -> Option<(int, int)>
    decreases data.len() - idx,
{
    if idx < 0 || idx >= data.len() {
        None
    } else {
        let key_len = data[idx] as int;
        if key_len == 0 {
            attribute_value_bounds(data, attribute, idx + 1)
        } else {
            let key_start = idx + 1;
            let key_end = key_start + key_len;
            if key_end >= data.len() {
                None
            } else {
                let value_start = key_end + 1;
                let value_end = value_start + data[key_end] as int;
                if value_end > data.len() {
                    None
                } else if data.subrange(key_start, key_end) == attribute {
                    Some((value_start, value_end))
                } else {
                    attribute_value_bounds(data, attribute, value_end)
                }
            }
        }
    }
}

/// The value of the first record of `data` keyed by `attribute`.
pub open spec fn attribute_value(data: Seq<u8>, attribute: Seq<u8>) -> Option<Seq<u8>> {
    match attribute_value_bounds(data, attribute, 0) {
        Some((start, end)) => Some(data.subrange(start, end)),
        None => None,
    }
}

/// Whether two byte strings are equal.
pub(crate) fn bytes_equal(a: &[u8], b: &[u8]) -> (r: bool)
    ensures
        r == (a@ == b@),
{
    if a.len() != b.len() {
        return false;
    }
    let mut i: usize = 0;
    while i < a.len()
        invariant
            i <= a@.len() == b@.len(),
            a@.subrange(0, i as int) == b@.subrange(0, i as int),
        decreases a@.len() - i,
    {
        if a[i] != b[i] {
            assert(a@[i as int] != b@[i as int]);
            return false;
        }
        assert(a@.subrange(0, i + 1) == a@.subrange(0, i as int).push(a@[i as int]));
        assert(b@.subrange(0, i + 1) == b@.subrange(0, i as int).push(b@[i as int]));
        i = i + 1;
    }
    assert(a@ == a@.subrange(0, a@.len() as int));
    assert(b@ == b@.subrange(0, b@.len() as int));
    true
}

/// Looks up `attribute` among the key/value records of a product's attribute
/// data and returns its value.
pub fn read_pyth_product_attribute<'d>(data: &'d [u8], attribute: &[u8]) -> (r: Option<&'d [u8]>)
    ensures
        r matches Some(v) ==> attribute_value(data@, attribute@) == Some(v@),
        r is None ==> attribute_value(data@, attribute@) is None,
{
    let mut idx: usize = 0;
    while idx < data.len()
        invariant
            idx <= data@.len(),
            attribute_value_bounds(data@, attribute@, idx as int) == attribute_value_bounds(
                data@,
                attribute@,
                0,
            ),
        decreases data@.len() - idx,
    {
        let key_len = data[idx] as usize;
        if key_len == 0 {
            idx = idx + 1;
        } else {
            let key_start = idx + 1;
            if key_len >= data.len() - key_start {
                return None;
            }
            let key_end = key_start + key_len;
            let value_start = key_end + 1;
            let value_len = data[key_end] as usize;
            if value_len > data.len() - value_start {
                return None;
            }
            let value_end = value_start + value_len;
            if bytes_equal(&data[key_start..key_end], attribute) {
                return Some(&data[value_start..value_end]);
            }
            idx = value_end;
        }
    }
    None
}

} // verus!
