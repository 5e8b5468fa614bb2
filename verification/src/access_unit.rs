//! Cutting an H.264 byte stream into access units.

use vstd::prelude::*;

verus! {

/// One NAL unit header found in a byte stream.
pub struct Nal {
    /// Position of the first byte of its start code.
    pub pos: int,
    /// The five-bit `nal_unit_type`.
    pub kind: u8,
}

/// A four-byte start code stands at `i`.
pub open spec fn long_start_code(data: Seq<u8>, i: int) -> bool {
    &&& i + 4 <= data.len()
    &&& data[i] == 0 && data[i + 1] == 0 && data[i + 2] == 0 && data[i + 3] == 1
}

/// A three-byte start code stands at `i`.
pub open spec fn short_start_code(data: Seq<u8>, i: int) -> bool {
    &&& i + 3 <= data.len()
    &&& data[i] == 0 && data[i + 1] == 0 && data[i + 2] == 1
}

/// The NAL units whose start code lies at `i` or later, in stream order.
///
/// A start code is taken with four bytes where four match. The byte behind it gives the type, and
/// the search goes on behind that byte. A start code whose type byte has not arrived yet ends the
/// search.
pub open spec fn nals_from(data: Seq<u8>, i: int) -> Seq<Nal>
    decreases data.len() - i,
{
    if i + 3 >= data.len() {
        Seq::empty()
    } else if long_start_code(data, i) {
        if i + 4 >= data.len() {
            Seq::empty()
        } else {
            seq![Nal { pos: i, kind: data[i + 4] & 0x1F }] + nals_from(data, i + 5)
        }
    } else if short_start_code(data, i) {
        seq![Nal { pos: i, kind: data[i + 3] & 0x1F }] + nals_from(data, i + 4)
    } else {
        nals_from(data, i + 1)
    }
}

/// An access unit delimiter (type 9) or a slice (types 1 and 5).
pub open spec fn decides_policy(kind: u8) -> bool {
    kind == 1 || kind == 5 || kind == 9
}

/// Whether access unit delimiters alone separate the units: decided by the first delimiter or slice.
pub open spec fn delimited_by_aud(nals: Seq<Nal>) -> Option<bool>
    decreases nals.len(),
{
    if nals.len() == 0 {
        None
    } else if decides_policy(nals[0].kind) {
        Some(nals[0].kind == 9)
    } else {
        delimited_by_aud(nals.drop_first())
    }
}

/// A NAL unit of this type opens an access unit. Behind a delimiter only delimiters do; while none
/// has come, slices do too.
pub open spec fn opens_unit(aud: bool, kind: u8) -> bool {
    if aud {
        kind == 9
    } else {
        kind == 1 || kind == 5 || kind == 9
    }
}

/// Positions of the NAL units that open an access unit.
pub open spec fn openings(nals: Seq<Nal>, aud: bool) -> Seq<int>
    decreases nals.len(),
{
    if nals.len() == 0 {
        Seq::empty()
    } else if opens_unit(aud, nals[0].kind) {
        seq![nals[0].pos] + openings(nals.drop_first(), aud)
    } else {
        openings(nals.drop_first(), aud)
    }
}

/// Where the access units of `data` open.
pub open spec fn unit_openings(data: Seq<u8>) -> Seq<int> {
    let nals = nals_from(data, 0);
    match delimited_by_aud(nals) {
        Some(aud) => openings(nals, aud),
        None => Seq::empty(),
    }
}

/// Where the first complete access unit of `data` ends: where the second one opens.
pub open spec fn au_split(data: Seq<u8>) -> Option<int> {
    let at = unit_openings(data);
    if at.len() >= 2 {
        Some(at[1])
    } else {
        None
    }
}

/// Finds where the first complete access unit of `data` ends.
///
/// Access unit delimiters (type 9) separate units where they are present, otherwise slices (types 1
/// and 5) do. A delimiter behind slices opens the next unit. `None` means that no second unit has
/// opened yet.
pub fn find_au_split(data: &[u8]) -> (split: Option<usize>)
    ensures
        split is Some <==> au_split(data@) is Some,
        split matches Some(at) ==> at == au_split(data@)->0 && 0 < at < data@.len(),
{
    let mut split_on_aud: Option<bool> = None;
    let mut found_first: bool = false;
    let mut i: usize = 0;
    let ghost nals = nals_from(data@, 0);
    let ghost mut first: int = 0;
    while i < data.len() && 3 < data.len() - i
        invariant
            i <= data@.len(),
            nals == nals_from(data@, 0),
            match split_on_aud {
                Some(aud) => {
                    &&& delimited_by_aud(nals) == Some(aud)
                    &&& openings(nals, aud) == (if found_first {
                        seq![first]
                    } else {
                        Seq::<int>::empty()
                    }) + openings(nals_from(data@, i as int), aud)
                },
                None => {
                    &&& !found_first
                    &&& delimited_by_aud(nals) == delimited_by_aud(nals_from(data@, i as int))
                    &&& forall|aud: bool| #[trigger]
                        openings(nals, aud) == openings(nals_from(data@, i as int), aud)
                },
            },
            found_first ==> 0 <= first < i,
        ensures
            nals_from(data@, i as int) == Seq::<Nal>::empty(),
        decreases data@.len() - i,
    {
        let ghost at = i as int;
        let ghost here = nals_from(data@, at);
        let long: bool = data[i] == 0 && data[i + 1] == 0 && data[i + 2] == 0 && data[i + 3] == 1;
        let short: bool = data[i] == 0 && data[i + 1] == 0 && data[i + 2] == 1;
        let sc_len: usize;
        let nal_type: u8;
        if long {
            if data.len() - i == 4 {
                break;
            }
            sc_len = 4;
            nal_type = data[i + 4] & 0x1F;
        } else if short {
            sc_len = 3;
            nal_type = data[i + 3] & 0x1F;
        } else {
            i = i + 1;
            continue;
        }
        proof {
            let rest = nals_from(data@, at + sc_len + 1);
            assert(here =~= seq![Nal { pos: at, kind: nal_type }] + rest);
            assert(here.drop_first() =~= rest);
        }
        if split_on_aud.is_none() && (nal_type == 1 || nal_type == 5 || nal_type == 9) {
            split_on_aud = Some(nal_type == 9);
        }
        let is_boundary: bool = match split_on_aud {
            Some(true) => nal_type == 9,
            Some(false) => nal_type == 1 || nal_type == 5 || nal_type == 9,
            None => false,
        };
        if is_boundary {
            if found_first {
                proof {
                    assert(openings(nals, split_on_aud->0)[1] == at);
                }
                return Some(i);
            }
            found_first = true;
            proof {
                first = at;
            }
        }
        i = i + sc_len + 1;
    }
    None
}

/// The complete access units at the front of `data`, in order.
pub open spec fn units(data: Seq<u8>) -> Seq<Seq<u8>>
    decreases data.len(),
{
    match au_split(data) {
        Some(at) if 0 < at < data.len() => seq![data.take(at)] + units(data.skip(at)),
        _ => Seq::empty(),
    }
}

/// What is left of `data` once its complete access units are taken off.
pub open spec fn remainder(data: Seq<u8>) -> Seq<u8>
    decreases data.len(),
{
    match au_split(data) {
        Some(at) if 0 < at < data.len() => remainder(data.skip(at)),
        _ => data,
    }
}

/// Pieces put together, in order.
pub open spec fn joined(pieces: Seq<Seq<u8>>) -> Seq<u8>
    decreases pieces.len(),
{
    if pieces.len() == 0 {
        Seq::empty()
    } else {
        pieces[0] + joined(pieces.drop_first())
    }
}

/// One more piece at the end comes behind the others.
pub proof fn joined_push(pieces: Seq<Seq<u8>>, last: Seq<u8>)
    ensures
        joined(pieces.push(last)) == joined(pieces) + last,
    decreases pieces.len(),
{
    if pieces.len() > 0 {
        joined_push(pieces.drop_first(), last);
        assert(pieces.push(last).drop_first() =~= pieces.drop_first().push(last));
        assert(joined(pieces.push(last)) =~= joined(pieces) + last);
    } else {
        assert(pieces.push(last).drop_first() =~= pieces);
        assert(joined(pieces) =~= Seq::empty());
        assert(joined(pieces.push(last)) == last + joined(pieces));
        assert(last + joined(pieces) =~= joined(pieces) + last);
    }
}

/// Positions lie in `lo..hi` and ascend.
spec fn ascending(nals: Seq<Nal>, lo: int, hi: int) -> bool {
    &&& forall|k: int| 0 <= k < nals.len() ==> lo <= (#[trigger] nals[k]).pos < hi
    &&& forall|k: int, m: int|
        0 <= k < m < nals.len() ==> (#[trigger] nals[k]).pos < (#[trigger] nals[m]).pos
}

/// NAL units lie at or behind the position where the search began, in ascending order.
proof fn lemma_positions(data: Seq<u8>, i: int)
    requires
        0 <= i,
    ensures
        ascending(nals_from(data, i), i, data.len() as int),
    decreases data.len() - i,
{
    let nals = nals_from(data, i);
    if i + 3 >= data.len() {
    } else if long_start_code(data, i) {
        if i + 4 < data.len() {
            lemma_positions(data, i + 5);
            let rest = nals_from(data, i + 5);
            assert(forall|k: int| 1 <= k < nals.len() ==> #[trigger] nals[k] == rest[k - 1]);
        }
    } else if short_start_code(data, i) {
        lemma_positions(data, i + 4);
        let rest = nals_from(data, i + 4);
        assert(forall|k: int| 1 <= k < nals.len() ==> #[trigger] nals[k] == rest[k - 1]);
    } else {
        lemma_positions(data, i + 1);
    }
}

/// Each opening is the position of a NAL unit, and the order is kept: opening number `n` is at
/// index `opening_index(nals, aud, n)` among the NAL units.
spec fn opening_index(nals: Seq<Nal>, aud: bool, n: int) -> int
    decreases nals.len(),
{
    if nals.len() == 0 {
        0
    } else if opens_unit(aud, nals[0].kind) {
        if n == 0 {
            0
        } else {
            1 + opening_index(nals.drop_first(), aud, n - 1)
        }
    } else {
        1 + opening_index(nals.drop_first(), aud, n)
    }
}

/// An opening is a NAL unit of an opening type, and before it stand as many openings as its number.
proof fn lemma_opening_index(nals: Seq<Nal>, aud: bool, n: int)
    requires
        0 <= n < openings(nals, aud).len(),
    ensures
        n <= opening_index(nals, aud, n) < nals.len(),
        nals[opening_index(nals, aud, n)].pos == openings(nals, aud)[n],
        openings(nals.take(opening_index(nals, aud, n)), aud) == openings(nals, aud).take(n),
    decreases nals.len(),
{
    let k = opening_index(nals, aud, n);
    let rest = nals.drop_first();
    if opens_unit(aud, nals[0].kind) {
        if n > 0 {
            lemma_opening_index(rest, aud, n - 1);
            assert(nals.take(k).drop_first() =~= rest.take(k - 1));
            assert(openings(nals, aud).take(n) =~= seq![nals[0].pos] + openings(rest, aud).take(
                n - 1,
            ));
        } else {
            assert(nals.take(k) =~= Seq::empty());
            assert(openings(nals, aud).take(n) =~= Seq::empty());
        }
    } else {
        lemma_opening_index(rest, aud, n);
        assert(nals.take(k).drop_first() =~= rest.take(k - 1));
    }
}

/// A NAL unit list with an opening under the policy that it decides keeps that policy when cut
/// behind the opening.
proof fn lemma_policy_of_prefix(nals: Seq<Nal>, k: int)
    requires
        0 <= k <= nals.len(),
        delimited_by_aud(nals.take(k)) is Some,
    ensures
        delimited_by_aud(nals) == delimited_by_aud(nals.take(k)),
    decreases nals.len(),
{
    if k > 0 && !decides_policy(nals[0].kind) {
        assert(nals.take(k).drop_first() =~= nals.drop_first().take(k - 1));
        lemma_policy_of_prefix(nals.drop_first(), k - 1);
    }
}

/// Where an opening stands, the policy is decided.
proof fn lemma_opening_decides(nals: Seq<Nal>, aud: bool)
    requires
        openings(nals, aud).len() > 0,
    ensures
        delimited_by_aud(nals) is Some,
    decreases nals.len(),
{
    if !decides_policy(nals[0].kind) {
        lemma_opening_decides(nals.drop_first(), aud);
    }
}

proof fn lemma_openings_join(a: Seq<Nal>, b: Seq<Nal>, aud: bool)
    ensures
        openings(a + b, aud) == openings(a, aud) + openings(b, aud),
    decreases a.len(),
{
    if a.len() == 0 {
        assert(a + b =~= b);
    } else {
        assert((a + b).drop_first() =~= a.drop_first() + b);
        lemma_openings_join(a.drop_first(), b, aud);
    }
}

/// More data behind the end adds NAL units behind those already found.
proof fn lemma_nals_grow(data: Seq<u8>, more: Seq<u8>, i: int)
    requires
        0 <= i,
    ensures
        nals_from(data, i).len() <= nals_from(data + more, i).len(),
        nals_from(data + more, i).take(nals_from(data, i).len() as int) == nals_from(data, i),
    decreases data.len() - i,
{
    let all = data + more;
    let n = nals_from(data, i).len() as int;
    if i + 3 >= data.len() {
    } else if long_start_code(data, i) {
        assert(long_start_code(all, i));
        if i + 4 < data.len() {
            lemma_nals_grow(data, more, i + 5);
            assert(nals_from(all, i).take(n) =~= nals_from(data, i));
        }
    } else if short_start_code(data, i) {
        assert(short_start_code(all, i) && !long_start_code(all, i));
        lemma_nals_grow(data, more, i + 4);
        assert(nals_from(all, i).take(n) =~= nals_from(data, i));
    } else {
        assert(!short_start_code(all, i) && !long_start_code(all, i));
        lemma_nals_grow(data, more, i + 1);
    }
    if n == 0 {
        assert(nals_from(all, i).take(0) =~= nals_from(data, i));
    }
}

/// Cut at the start code of NAL unit number `k`, the data holds the NAL units before it.
proof fn lemma_nals_cut(data: Seq<u8>, i: int, k: int)
    requires
        0 <= i,
        0 <= k < nals_from(data, i).len(),
    ensures
        nals_from(data.take(nals_from(data, i)[k].pos), i) == nals_from(data, i).take(k),
    decreases data.len() - i,
{
    let nals = nals_from(data, i);
    let cut = nals[k].pos;
    lemma_positions(data, i);
    let front = data.take(cut);
    if long_start_code(data, i) {
        let rest = nals_from(data, i + 5);
        if k > 0 {
            lemma_positions(data, i + 5);
            assert(nals[k] == rest[k - 1]);
            lemma_nals_cut(data, i + 5, k - 1);
            assert(long_start_code(front, i));
            assert(nals.take(k) =~= seq![nals[0]] + rest.take(k - 1));
        } else {
            assert(nals.take(0) =~= Seq::empty());
        }
    } else if short_start_code(data, i) {
        let rest = nals_from(data, i + 4);
        if k > 0 {
            lemma_positions(data, i + 4);
            assert(nals[k] == rest[k - 1]);
            lemma_nals_cut(data, i + 4, k - 1);
            assert(short_start_code(front, i) && !long_start_code(front, i));
            assert(nals.take(k) =~= seq![nals[0]] + rest.take(k - 1));
        } else {
            assert(nals.take(0) =~= Seq::empty());
        }
    } else {
        lemma_nals_cut(data, i + 1, k);
        lemma_positions(data, i + 1);
        assert(!short_start_code(front, i) && !long_start_code(front, i));
        if i + 3 >= front.len() {
            assert(nals_from(front, i + 1) =~= Seq::empty());
        }
    }
}

/// A split lies strictly inside the data: the unit in front of it is not empty, and neither is
/// what follows.
pub proof fn split_is_inside(data: Seq<u8>)
    requires
        au_split(data) is Some,
    ensures
        0 < au_split(data)->0 < data.len(),
{
    let nals = nals_from(data, 0);
    let aud = delimited_by_aud(nals)->0;
    lemma_positions(data, 0);
    lemma_opening_index(nals, aud, 0);
    lemma_opening_index(nals, aud, 1);
    let k0 = opening_index(nals, aud, 0);
    let k1 = opening_index(nals, aud, 1);
    assert(k0 < k1) by {
        if k1 <= k0 {
            let head = nals.take(k0);
            lemma_openings_join(nals.take(k1), nals.subrange(k1, k0), aud);
            assert(head =~= nals.take(k1) + nals.subrange(k1, k0));
            assert(openings(head, aud).len() == 0);
            assert(openings(nals.take(k1), aud).len() == 1);
        }
    }
}

/// A split stays where it is when more data arrives.
pub proof fn split_is_stable(data: Seq<u8>, more: Seq<u8>)
    requires
        au_split(data) is Some,
    ensures
        au_split(data + more) == au_split(data),
{
    let nals = nals_from(data, 0);
    let all = nals_from(data + more, 0);
    let n = nals.len() as int;
    lemma_nals_grow(data, more, 0);
    lemma_policy_of_prefix(all, n);
    let aud = delimited_by_aud(nals)->0;
    lemma_openings_join(nals, all.skip(n), aud);
    assert(all =~= nals + all.skip(n));
}

/// The unit cut off at a split is one complete access unit: it holds no split itself.
pub proof fn unit_is_single(data: Seq<u8>)
    requires
        au_split(data) is Some,
    ensures
        au_split(data.take(au_split(data)->0)) is None,
{
    let nals = nals_from(data, 0);
    let aud = delimited_by_aud(nals)->0;
    lemma_opening_index(nals, aud, 1);
    let k = opening_index(nals, aud, 1);
    lemma_nals_cut(data, 0, k);
    lemma_opening_decides(nals.take(k), aud);
    lemma_policy_of_prefix(nals, k);
}

proof fn lemma_opening_is_listed(nals: Seq<Nal>, aud: bool, m: int)
    requires
        0 <= m < nals.len(),
        opens_unit(aud, nals[m].kind),
    ensures
        openings(nals, aud).contains(nals[m].pos),
    decreases nals.len(),
{
    let all = openings(nals, aud);
    let rest = openings(nals.drop_first(), aud);
    if m == 0 {
        assert(all[0] == nals[0].pos);
    } else {
        lemma_opening_is_listed(nals.drop_first(), aud, m - 1);
        let at = choose|at: int| 0 <= at < rest.len() && rest[at] == nals[m].pos;
        if opens_unit(aud, nals[0].kind) {
            assert(all[at + 1] == rest[at]);
        } else {
            assert(all[at] == rest[at]);
        }
    }
}

/// Access unit delimiters delimit units wherever they are present: a delimiter in a unit is what the
/// unit opens with. None is left in the middle or at the end of a unit.
pub proof fn delimiters_open_units(data: Seq<u8>, m: int)
    requires
        au_split(data) is Some,
        0 <= m < nals_from(data.take(au_split(data)->0), 0).len(),
        nals_from(data.take(au_split(data)->0), 0)[m].kind == 9,
    ensures
        nals_from(data.take(au_split(data)->0), 0)[m].pos == unit_openings(data)[0],
{
    let nals = nals_from(data, 0);
    let aud = delimited_by_aud(nals)->0;
    lemma_opening_index(nals, aud, 1);
    let k = opening_index(nals, aud, 1);
    lemma_nals_cut(data, 0, k);
    lemma_opening_is_listed(nals.take(k), aud, m);
    assert(openings(nals.take(k), aud) == unit_openings(data).take(1));
}

/// The complete units and the remainder make up the data: nothing is lost, repeated or reordered.
pub proof fn units_make_up_the_data(data: Seq<u8>)
    ensures
        joined(units(data)) + remainder(data) == data,
    decreases data.len(),
{
    match au_split(data) {
        Some(at) if 0 < at < data.len() => {
            let rest = data.skip(at);
            units_make_up_the_data(rest);
            assert(units(data).drop_first() =~= units(rest));
            assert(data =~= data.take(at) + rest);
            assert(joined(units(data)) + remainder(data) =~= data.take(at) + (joined(units(rest))
                + remainder(rest)));
        },
        _ => {
            assert(joined(units(data)) + remainder(data) =~= data);
        },
    }
}

/// Every complete unit is non-empty and holds no split, and neither does the remainder.
pub proof fn units_are_single(data: Seq<u8>)
    ensures
        forall|k: int|
            0 <= k < units(data).len() ==> (#[trigger] units(data)[k]).len() > 0 && au_split(
                units(data)[k],
            ) is None,
        au_split(remainder(data)) is None,
    decreases data.len(),
{
    match au_split(data) {
        Some(at) => {
            split_is_inside(data);
            unit_is_single(data);
            units_are_single(data.skip(at));
        },
        None => {},
    }
}

/// The units do not depend on how the stream is cut into reads: taking the units of what has
/// arrived, and then those of the remainder with what arrives next, gives the units of the whole.
pub proof fn units_ignore_read_sizes(data: Seq<u8>, more: Seq<u8>)
    ensures
        units(data + more) == units(data) + units(remainder(data) + more),
        remainder(data + more) == remainder(remainder(data) + more),
    decreases data.len(),
{
    match au_split(data) {
        Some(at) => {
            split_is_inside(data);
            split_is_stable(data, more);
            assert((data + more).take(at) =~= data.take(at));
            assert((data + more).skip(at) =~= data.skip(at) + more);
            units_ignore_read_sizes(data.skip(at), more);
            assert(units(data + more) =~= units(data) + units(remainder(data) + more));
        },
        None => {
            assert(units(data + more) =~= units(data) + units(remainder(data) + more));
        },
    }
}

/// Length of the start code of a NAL unit at `pos`, with the type byte behind it.
spec fn header_len(data: Seq<u8>, pos: int) -> int {
    if data[pos + 2] == 0 {
        5
    } else {
        4
    }
}

proof fn lemma_scan(data: Seq<u8>, i: int)
    requires
        0 <= i,
    ensures
        ({
            let nals = nals_from(data, i);
            &&& forall|k: int| #![trigger nals[k]]
                0 <= k < nals.len() ==> {
                    let p = nals[k].pos;
                    &&& i <= p
                    &&& p + header_len(data, p) <= data.len()
                    &&& data[p] == 0 && data[p + 1] == 0
                    &&& data[p + header_len(data, p) - 2] == 1
                    &&& nals[k].kind == data[p + header_len(data, p) - 1] % 32
                }
            &&& forall|k: int, m: int| #![trigger nals[k], nals[m]]
                0 <= k < m < nals.len() ==> nals[k].pos + header_len(data, nals[k].pos)
                    <= nals[m].pos
            &&& forall|k: int| #![trigger nals[k]]
                0 <= k < nals.len() && i < nals[k].pos && data[nals[k].pos + 2] == 1
                    && data[nals[k].pos - 1] == 0 ==> k > 0 && nals[k - 1].pos + header_len(
                    data,
                    nals[k - 1].pos,
                ) == nals[k].pos
            &&& forall|j: int|
                #![trigger data[j]]
                i <= j && j + 3 < data.len() && data[j] == 0 && data[j + 1] == 0 && data[j + 2] == 1
                    ==> exists|k: int|
                    #![trigger nals[k]]
                    0 <= k < nals.len() && nals[k].pos <= j < nals[k].pos + header_len(
                        data,
                        nals[k].pos,
                    )
        }),
    decreases data.len() - i,
{
    let nals = nals_from(data, i);
    if i + 3 >= data.len() {
    } else if long_start_code(data, i) {
        if i + 4 < data.len() {
            let byte = data[i + 4];
            assert(byte & 0x1F == byte % 32) by (bit_vector);
            lemma_scan(data, i + 5);
            assert(nals.drop_first() =~= nals_from(data, i + 5));
            assert(forall|k: int|
                1 <= k < nals.len() ==> #[trigger] nals[k] == nals_from(data, i + 5)[k - 1]);
            lemma_scan_step(data, i, 5);
        }
    } else if short_start_code(data, i) {
        let byte = data[i + 3];
        assert(byte & 0x1F == byte % 32) by (bit_vector);
        lemma_scan(data, i + 4);
        assert(nals.drop_first() =~= nals_from(data, i + 4));
        assert(forall|k: int|
            1 <= k < nals.len() ==> #[trigger] nals[k] == nals_from(data, i + 4)[k - 1]);
        lemma_scan_step(data, i, 4);
    } else {
        lemma_scan(data, i + 1);
        assert forall|k: int| #![trigger nals[k]]
            0 <= k < nals.len() && i < nals[k].pos && data[nals[k].pos + 2] == 1
                && data[nals[k].pos - 1] == 0 implies k > 0 && nals[k - 1].pos + header_len(
            data,
            nals[k - 1].pos,
        ) == nals[k].pos by {
            assert(nals == nals_from(data, i + 1));
            if nals[k].pos == i + 1 {
                assert(data[i + 1] == 0 && data[i + 2] == 0 && data[i + 3] == 1);
                assert(long_start_code(data, i));
            }
        }
    }
}

/// A NAL unit in front of those that were found behind it keeps what [`lemma_scan`] says.
proof fn lemma_scan_step(data: Seq<u8>, i: int, len: int)
    requires
        0 <= i,
        len == 4 || len == 5,
        nals_from(data, i).len() > 0,
        nals_from(data, i)[0].pos == i,
        nals_from(data, i).drop_first() == nals_from(data, i + len),
        len == header_len(data, i),
        forall|j: int|
            #![trigger data[j]]
            i + len <= j && j + 3 < data.len() && data[j] == 0 && data[j + 1] == 0 && data[j + 2]
                == 1 ==> exists|k: int|
                #![trigger nals_from(data, i + len)[k]]
                0 <= k < nals_from(data, i + len).len() && nals_from(data, i + len)[k].pos <= j
                    < nals_from(data, i + len)[k].pos + header_len(
                    data,
                    nals_from(data, i + len)[k].pos,
                ),
        forall|k: int|
            #![trigger nals_from(data, i + len)[k]]
            0 <= k < nals_from(data, i + len).len() && i + len < nals_from(data, i + len)[k].pos
                && data[nals_from(data, i + len)[k].pos + 2] == 1 && data[nals_from(
                data,
                i + len,
            )[k].pos - 1] == 0 ==> k > 0 && nals_from(data, i + len)[k - 1].pos + header_len(
                data,
                nals_from(data, i + len)[k - 1].pos,
            ) == nals_from(data, i + len)[k].pos,
        forall|k: int|
            #![trigger nals_from(data, i + len)[k]]
            0 <= k < nals_from(data, i + len).len() ==> i + len <= nals_from(data, i + len)[k].pos,
        forall|k: int, m: int|
            #![trigger nals_from(data, i + len)[k], nals_from(data, i + len)[m]]
            0 <= k < m < nals_from(data, i + len).len() ==> nals_from(data, i + len)[k].pos < nals_from(data, i + len)[m].pos,
    ensures
        forall|k: int|
            #![trigger nals_from(data, i)[k]]
            0 <= k < nals_from(data, i).len() && i < nals_from(data, i)[k].pos && data[nals_from(
                data,
                i,
            )[k].pos + 2] == 1 && data[nals_from(data, i)[k].pos - 1] == 0 ==> k > 0 && nals_from(
                data,
                i,
            )[k - 1].pos + header_len(data, nals_from(data, i)[k - 1].pos) == nals_from(
                data,
                i,
            )[k].pos,
        forall|j: int|
            #![trigger data[j]]
            i <= j && j + 3 < data.len() && data[j] == 0 && data[j + 1] == 0 && data[j + 2] == 1
                ==> exists|k: int|
                #![trigger nals_from(data, i)[k]]
                0 <= k < nals_from(data, i).len() && nals_from(data, i)[k].pos <= j < nals_from(
                    data,
                    i,
                )[k].pos + header_len(data, nals_from(data, i)[k].pos),
{
    let nals = nals_from(data, i);
    let rest = nals_from(data, i + len);
    assert forall|k: int|
        #![trigger nals[k]]
        0 <= k < nals.len() && i < nals[k].pos && data[nals[k].pos + 2] == 1 && data[nals[k].pos
            - 1] == 0 implies k > 0 && nals[k - 1].pos + header_len(data, nals[k - 1].pos)
        == nals[k].pos by {
        assert(nals[k] == rest[k - 1]);
        if rest[k - 1].pos > i + len {
            assert(nals[k - 1] == rest[k - 2]);
        } else {
            assert(k == 1) by {
                if k > 1 {
                    assert(rest[k - 2].pos < rest[k - 1].pos);
                }
            }
        }
    }
    assert forall|j: int|
        #![trigger data[j]]
        i <= j && j + 3 < data.len() && data[j] == 0 && data[j + 1] == 0 && data[j + 2]
            == 1 implies exists|k: int|
        #![trigger nals[k]]
        0 <= k < nals.len() && nals[k].pos <= j < nals[k].pos + header_len(data, nals[k].pos) by {
        if j < i + len {
            assert(nals[0].pos <= j < nals[0].pos + header_len(data, nals[0].pos));
        } else {
            let k = choose|k: int|
                #![trigger rest[k]]
                0 <= k < rest.len() && rest[k].pos <= j < rest[k].pos + header_len(
                    data,
                    rest[k].pos,
                );
            assert(nals[k + 1] == rest[k]);
        }
    }
}

/// A NAL unit is found where a start code of three bytes `0 0 1`, or of four bytes
/// `0 0 0 1`, stands with a byte behind it, and its type is the low five bits of that byte. No two of
/// them share a byte. A start code that a zero byte precedes takes that byte in, unless it is the type
/// byte of the NAL unit before. None is left out: each `0 0 1` with a byte behind it belongs to a NAL
/// unit that was found.
pub proof fn nal_units_are_the_start_codes(data: Seq<u8>)
    ensures
        ({
            let nals = nals_from(data, 0);
            let len = |p: int| if data[p + 2] == 0 { 5int } else { 4int };
            &&& forall|k: int|
                #![trigger nals[k]]
                0 <= k < nals.len() ==> {
                    let p = nals[k].pos;
                    &&& 0 <= p && p + len(p) <= data.len()
                    &&& data[p] == 0 && data[p + 1] == 0
                    &&& data[p + len(p) - 2] == 1
                    &&& nals[k].kind == data[p + len(p) - 1] % 32
                    &&& (0 < p && data[p + 2] == 1 && data[p - 1] == 0 ==> k > 0 && nals[k
                        - 1].pos + len(nals[k - 1].pos) == p)
                }
            &&& forall|k: int, m: int|
                #![trigger nals[k], nals[m]]
                0 <= k < m < nals.len() ==> nals[k].pos + len(nals[k].pos) <= nals[m].pos
            &&& forall|j: int|
                #![trigger data[j]]
                0 <= j && j + 3 < data.len() && data[j] == 0 && data[j + 1] == 0 && data[j + 2] == 1
                    ==> exists|k: int|
                    #![trigger nals[k]]
                    0 <= k < nals.len() && nals[k].pos <= j < nals[k].pos + len(nals[k].pos)
        }),
{
    lemma_scan(data, 0);
    let nals = nals_from(data, 0);
    let len = |p: int| if data[p + 2] == 0 { 5int } else { 4int };
    assert forall|j: int|
        #![trigger data[j]]
        0 <= j && j + 3 < data.len() && data[j] == 0 && data[j + 1] == 0 && data[j + 2]
            == 1 implies exists|k: int|
        #![trigger nals[k]]
        0 <= k < nals.len() && nals[k].pos <= j < nals[k].pos + len(nals[k].pos) by {
        let k = choose|k: int|
            #![trigger nals[k]]
            0 <= k < nals.len() && nals[k].pos <= j < nals[k].pos + header_len(data, nals[k].pos);
        assert(nals[k].pos <= j < nals[k].pos + len(nals[k].pos));
    }
}

/// The first delimiter or slice decides the policy.
proof fn lemma_policy_at(nals: Seq<Nal>, a: int)
    requires
        0 <= a < nals.len(),
        nals[a].kind == 1 || nals[a].kind == 5 || nals[a].kind == 9,
        forall|k: int|
            0 <= k < a ==> (#[trigger] nals[k]).kind != 1 && nals[k].kind != 5 && nals[k].kind != 9,
    ensures
        delimited_by_aud(nals) == Some(nals[a].kind == 9),
    decreases a,
{
    if a > 0 {
        let rest = nals.drop_first();
        assert(forall|k: int| 0 <= k < rest.len() ==> #[trigger] rest[k] == nals[k + 1]);
        lemma_policy_at(rest, a - 1);
    }
}

/// Without a delimiter or slice there is no policy.
proof fn lemma_no_policy(nals: Seq<Nal>)
    requires
        forall|k: int|
            0 <= k < nals.len() ==> (#[trigger] nals[k]).kind != 1 && nals[k].kind != 5
                && nals[k].kind != 9,
    ensures
        delimited_by_aud(nals) is None,
    decreases nals.len(),
{
    if nals.len() > 0 {
        let rest = nals.drop_first();
        assert(forall|k: int| 0 <= k < rest.len() ==> #[trigger] rest[k] == nals[k + 1]);
        lemma_no_policy(rest);
    }
}

/// Without an opening type there is no opening.
proof fn lemma_no_openings(nals: Seq<Nal>, aud: bool)
    requires
        forall|k: int|
            0 <= k < nals.len() ==> (#[trigger] nals[k]).kind != 9 && (aud || (nals[k].kind != 1
                && nals[k].kind != 5)),
    ensures
        openings(nals, aud) == Seq::<int>::empty(),
    decreases nals.len(),
{
    if nals.len() > 0 {
        let rest = nals.drop_first();
        assert(forall|k: int| 0 <= k < rest.len() ==> #[trigger] rest[k] == nals[k + 1]);
        lemma_no_openings(rest, aud);
    }
}

/// With nothing but one opening between them, the openings at `a` and `b` are the first two.
proof fn lemma_first_openings(nals: Seq<Nal>, aud: bool, a: int, b: int)
    requires
        0 <= a < b <= nals.len(),
        forall|k: int|
            0 <= k < b && k != a ==> (#[trigger] nals[k]).kind != 9 && (aud || (nals[k].kind != 1
                && nals[k].kind != 5)),
        nals[a].kind == 9 || (!aud && (nals[a].kind == 1 || nals[a].kind == 5)),
        b < nals.len() ==> nals[b].kind == 9 || (!aud && (nals[b].kind == 1 || nals[b].kind == 5)),
    ensures
        b == nals.len() ==> openings(nals, aud).len() == 1,
        b < nals.len() ==> openings(nals, aud).len() >= 2 && openings(nals, aud)[1] == nals[b].pos,
{
    let front = nals.take(a);
    let between = nals.subrange(a + 1, b);
    lemma_no_openings(front, aud);
    lemma_no_openings(between, aud);
    let one = seq![nals[a]];
    assert(one.drop_first() =~= Seq::empty());
    assert(openings(Seq::<Nal>::empty(), aud) =~= Seq::empty());
    assert(openings(one, aud) =~= seq![nals[a].pos]);
    assert(nals =~= front + (one + (between + nals.skip(b))));
    lemma_openings_join(front, one + (between + nals.skip(b)), aud);
    lemma_openings_join(one, between + nals.skip(b), aud);
    lemma_openings_join(between, nals.skip(b), aud);
    assert(Seq::<int>::empty() + (seq![nals[a].pos] + (Seq::<int>::empty() + openings(
        nals.skip(b),
        aud,
    ))) =~= seq![nals[a].pos] + openings(nals.skip(b), aud));
    if b == nals.len() {
        assert(nals.skip(b) =~= Seq::empty());
    } else {
        assert(nals.skip(b)[0] == nals[b]);
    }
}

/// Where no access unit delimiter (type 9) is in the data, slices (types 1 and 5) are counted: the
/// split is where the second slice starts, and there is none before a second slice has come. So a NAL
/// unit of another type is never where the data is split.
pub proof fn second_slice_splits(data: Seq<u8>)
    requires
        forall|k: int|
            0 <= k < nals_from(data, 0).len() ==> (#[trigger] nals_from(data, 0)[k]).kind != 9,
    ensures
        ({
            let nals = nals_from(data, 0);
            let slice = |k: int| nals[k].kind == 1 || nals[k].kind == 5;
            &&& forall|a: int, b: int|
                #![trigger nals[a], nals[b]]
                0 <= a < b < nals.len() && slice(a) && slice(b) && (forall|k: int|
                    #![trigger nals[k]]
                    0 <= k < b && k != a ==> !slice(k)) ==> au_split(data) == Some(nals[b].pos)
            &&& au_split(data) is Some ==> exists|a: int, b: int|
                #![trigger nals[a], nals[b]]
                0 <= a < b < nals.len() && slice(a) && slice(b) && au_split(data) == Some(
                    nals[b].pos,
                ) && (forall|k: int| #![trigger nals[k]] 0 <= k < b && k != a ==> !slice(k))
        }),
{
    let nals = nals_from(data, 0);
    let slice = |k: int| nals[k].kind == 1 || nals[k].kind == 5;
    assert forall|a: int, b: int|
        #![trigger nals[a], nals[b]]
        0 <= a < b < nals.len() && slice(a) && slice(b) && (forall|k: int|
            #![trigger nals[k]]
            0 <= k < b && k != a ==> !slice(k)) implies au_split(data) == Some(nals[b].pos) by {
        assert forall|k: int| 0 <= k < a implies (#[trigger] nals[k]).kind != 1 && nals[k].kind
            != 5 && nals[k].kind != 9 by {
            assert(!slice(k));
        }
        assert forall|k: int| 0 <= k < b && k != a implies (#[trigger] nals[k]).kind != 9
            && nals[k].kind != 1 && nals[k].kind != 5 by {
            assert(!slice(k));
        }
        lemma_policy_at(nals, a);
        lemma_first_openings(nals, false, a, b);
    }
    if au_split(data) is Some {
        if forall|k: int| #![trigger nals[k]] 0 <= k < nals.len() ==> !slice(k) {
            assert forall|k: int| 0 <= k < nals.len() implies (#[trigger] nals[k]).kind != 1
                && nals[k].kind != 5 && nals[k].kind != 9 by {
                assert(!slice(k));
            }
            lemma_no_policy(nals);
        } else {
            let any = choose|k: int| #![trigger nals[k]] 0 <= k < nals.len() && slice(k);
            let a = lemma_first_slice(nals, 0, any);
            assert forall|k: int| 0 <= k < a implies (#[trigger] nals[k]).kind != 1 && nals[k].kind
                != 5 && nals[k].kind != 9 by {}
            lemma_policy_at(nals, a);
            if forall|k: int| #![trigger nals[k]] a < k < nals.len() ==> !slice(k) {
                assert forall|k: int| 0 <= k < nals.len() && k != a implies (
                #[trigger] nals[k]).kind != 9 && nals[k].kind != 1 && nals[k].kind != 5 by {
                    if k > a {
                        assert(!slice(k));
                    }
                }
                lemma_first_openings(nals, false, a, nals.len() as int);
            } else {
                let other = choose|k: int| #![trigger nals[k]] a < k < nals.len() && slice(k);
                let b = lemma_first_slice(nals, a + 1, other);
                assert forall|k: int| 0 <= k < b && k != a implies (#[trigger] nals[k]).kind != 9
                    && nals[k].kind != 1 && nals[k].kind != 5 by {}
                lemma_first_openings(nals, false, a, b);
                assert(slice(a) && slice(b));
                assert forall|k: int| #![trigger nals[k]] 0 <= k < b && k != a implies !slice(k) by {}
            }
        }
    }
}

/// The first slice at or behind `from`.
proof fn lemma_first_slice(nals: Seq<Nal>, from: int, at: int) -> (first: int)
    requires
        0 <= from <= at < nals.len(),
        nals[at].kind == 1 || nals[at].kind == 5,
    ensures
        from <= first <= at,
        nals[first].kind == 1 || nals[first].kind == 5,
        forall|k: int| from <= k < first ==> (#[trigger] nals[k]).kind != 1 && nals[k].kind != 5,
    decreases at - from,
{
    if nals[from].kind == 1 || nals[from].kind == 5 {
        from
    } else {
        lemma_first_slice(nals, from + 1, at)
    }
}

/// Where no access unit delimiter is in the data, each unit that is cut off holds exactly one slice:
/// no unit goes without a picture, and none holds two.
pub proof fn unit_holds_one_slice(data: Seq<u8>)
    requires
        au_split(data) is Some,
        forall|k: int|
            0 <= k < nals_from(data, 0).len() ==> (#[trigger] nals_from(data, 0)[k]).kind != 9,
    ensures
        ({
            let unit = nals_from(data.take(au_split(data)->0), 0);
            exists|a: int|
                #![trigger unit[a]]
                0 <= a < unit.len() && (unit[a].kind == 1 || unit[a].kind == 5) && forall|k: int|
                    #![trigger unit[k]]
                    0 <= k < unit.len() && k != a ==> unit[k].kind != 1 && unit[k].kind != 5
        }),
{
    let nals = nals_from(data, 0);
    second_slice_splits(data);
    let slice = |k: int| nals[k].kind == 1 || nals[k].kind == 5;
    let (a, b) = choose|a: int, b: int|
        #![trigger nals[a], nals[b]]
        0 <= a < b < nals.len() && slice(a) && slice(b) && au_split(data) == Some(nals[b].pos) && (
        forall|k: int| #![trigger nals[k]] 0 <= k < b && k != a ==> !slice(k));
    lemma_nals_cut(data, 0, b);
    let unit = nals_from(data.take(au_split(data)->0), 0);
    assert(unit[a] == nals[a]);
    assert forall|k: int| #![trigger unit[k]] 0 <= k < unit.len() && k != a implies unit[k].kind
        != 1 && unit[k].kind != 5 by {
        assert(unit[k] == nals[k]);
        assert(!slice(k));
    }
}

/// Where the first delimiter or slice is a delimiter, delimiters alone count: the split is where the
/// second delimiter starts, however many slices stand between. There is none before it has come.
pub proof fn second_delimiter_splits(data: Seq<u8>, a: int)
    requires
        0 <= a < nals_from(data, 0).len(),
        nals_from(data, 0)[a].kind == 9,
        forall|k: int|
            0 <= k < a ==> (#[trigger] nals_from(data, 0)[k]).kind != 1 && nals_from(
                data,
                0,
            )[k].kind != 5 && nals_from(data, 0)[k].kind != 9,
    ensures
        ({
            let nals = nals_from(data, 0);
            &&& forall|b: int|
                #![trigger nals[b]]
                a < b < nals.len() && nals[b].kind == 9 && (forall|k: int|
                    a < k < b ==> (#[trigger] nals[k]).kind != 9) ==> au_split(data) == Some(
                    nals[b].pos,
                )
            &&& (forall|k: int| a < k < nals.len() ==> (#[trigger] nals[k]).kind != 9)
                ==> au_split(data) is None
        }),
{
    let nals = nals_from(data, 0);
    lemma_policy_at(nals, a);
    assert forall|b: int|
        #![trigger nals[b]]
        a < b < nals.len() && nals[b].kind == 9 && (forall|k: int|
            a < k < b ==> (#[trigger] nals[k]).kind != 9) implies au_split(data) == Some(
        nals[b].pos,
    ) by {
        lemma_first_openings(nals, true, a, b);
    }
    if forall|k: int| a < k < nals.len() ==> (#[trigger] nals[k]).kind != 9 {
        lemma_first_openings(nals, true, a, nals.len() as int);
    }
}

/// Where the first delimiter or slice is a slice, the split is where the next slice or delimiter
/// starts, whichever comes first.
pub proof fn slice_ends_at_the_next_opening(data: Seq<u8>, a: int)
    requires
        0 <= a < nals_from(data, 0).len(),
        nals_from(data, 0)[a].kind == 1 || nals_from(data, 0)[a].kind == 5,
        forall|k: int|
            0 <= k < a ==> (#[trigger] nals_from(data, 0)[k]).kind != 1 && nals_from(
                data,
                0,
            )[k].kind != 5 && nals_from(data, 0)[k].kind != 9,
    ensures
        ({
            let nals = nals_from(data, 0);
            let other = |k: int| nals[k].kind != 1 && nals[k].kind != 5 && nals[k].kind != 9;
            &&& forall|b: int|
                #![trigger nals[b]]
                a < b < nals.len() && !other(b) && (forall|k: int|
                    #![trigger nals[k]]
                    a < k < b ==> other(k)) ==> au_split(data) == Some(nals[b].pos)
            &&& (forall|k: int| #![trigger nals[k]] a < k < nals.len() ==> other(k)) ==> au_split(
                data,
            ) is None
        }),
{
    let nals = nals_from(data, 0);
    let other = |k: int| nals[k].kind != 1 && nals[k].kind != 5 && nals[k].kind != 9;
    lemma_policy_at(nals, a);
    assert forall|b: int|
        #![trigger nals[b]]
        a < b < nals.len() && !other(b) && (forall|k: int|
            #![trigger nals[k]]
            a < k < b ==> other(k)) implies au_split(data) == Some(nals[b].pos) by {
        assert forall|k: int| 0 <= k < b && k != a implies (#[trigger] nals[k]).kind != 9
            && nals[k].kind != 1 && nals[k].kind != 5 by {
            if a < k {
                assert(other(k));
            }
        }
        lemma_first_openings(nals, false, a, b);
    }
    if forall|k: int| #![trigger nals[k]] a < k < nals.len() ==> other(k) {
        assert forall|k: int| 0 <= k < nals.len() && k != a implies (#[trigger] nals[k]).kind != 9
            && nals[k].kind != 1 && nals[k].kind != 5 by {
            if a < k {
                assert(other(k));
            }
        }
        lemma_first_openings(nals, false, a, nals.len() as int);
    }
}

/// Data without a delimiter and without a slice is not split.
pub proof fn data_without_slices_is_not_split(data: Seq<u8>)
    requires
        forall|k: int|
            0 <= k < nals_from(data, 0).len() ==> (#[trigger] nals_from(data, 0)[k]).kind != 1
                && nals_from(data, 0)[k].kind != 5 && nals_from(data, 0)[k].kind != 9,
    ensures
        au_split(data) is None,
{
    lemma_no_policy(nals_from(data, 0));
}

} // verus!
