use vstd::prelude::*;
use crate::order::{pair_lt, pair_lt_exec, strictly_sorted, lemma_sorted_insert};
use crate::text::{push_char, str_eq};
use crate::types::{ControllerDef, ControllerInfo, ModeDef};

verus! {

/// The lower-case hexadecimal digits.
pub open spec fn hex_digits() -> Seq<char> {
    seq!['0', '1', '2', '3', '4', '5', '6', '7', '8', '9', 'a', 'b', 'c', 'd', 'e', 'f']
}

/// A USB id written as four lower-case hex digits (`format!("{:04x}", id)`).
pub open spec fn hex4(id: u16) -> Seq<char> {
    seq![
        hex_digits()[(id / 4096) as int],
        hex_digits()[((id / 256) % 16) as int],
        hex_digits()[((id / 16) % 16) as int],
        hex_digits()[(id % 16) as int],
    ]
}

/// Distinct ids are written differently, so a declared pair names at most
/// one vendor id and one product id.
pub proof fn lemma_hex4_injective(a: u16, b: u16)
    ensures
        hex4(a) == hex4(b) ==> a == b,
{
    if hex4(a) == hex4(b) {
        assert(hex4(a)[0] == hex4(b)[0]);
        assert(hex4(a)[1] == hex4(b)[1]);
        assert(hex4(a)[2] == hex4(b)[2]);
        assert(hex4(a)[3] == hex4(b)[3]);
        assert(a / 4096 == b / 4096);
        assert((a / 256) % 16 == (b / 256) % 16);
        assert((a / 16) % 16 == (b / 16) % 16);
        assert(a % 16 == b % 16);
        assert(a == b) by (bit_vector)
            requires
                a / 4096 == b / 4096,
                (a / 256) % 16 == (b / 256) % 16,
                (a / 16) % 16 == (b / 16) % 16,
                a % 16 == b % 16,
        ;
    }
}

/// The value of a lower-case hexadecimal digit character: `0`-`9` are 0
/// to 9 and `a`-`f` are 10 to 15 (by their code points); any other
/// character has none.
pub open spec fn hex_digit_value(c: char) -> Option<int> {
    if '0' <= c && c <= '9' {
        Some(c as int - '0' as int)
    } else if 'a' <= c && c <= 'f' {
        Some(c as int - 'a' as int + 10)
    } else {
        None
    }
}

/// The four-character form of an id is its base-16 numeral: four
/// lower-case hex digits, most significant first, whose values give back
/// the id.
pub proof fn lemma_hex4_is_base16(id: u16)
    ensures
        hex4(id).len() == 4,
        forall|p: int| 0 <= p < 4 ==> (#[trigger] hex_digit_value(hex4(id)[p])) is Some,
        hex_digit_value(hex4(id)[0]).unwrap() * 4096 + hex_digit_value(hex4(id)[1]).unwrap() * 256
            + hex_digit_value(hex4(id)[2]).unwrap() * 16 + hex_digit_value(hex4(id)[3]).unwrap()
            == id,
{
    lemma_digit_values();
    let a = id / 4096;
    let b = (id / 256) % 16;
    let c = (id / 16) % 16;
    let e = id % 16;
    assert(a < 16 && b < 16 && c < 16 && e < 16) by (nonlinear_arith)
        requires
            a == id / 4096,
            b == (id / 256) % 16,
            c == (id / 16) % 16,
            e == id % 16,
            id < 65536,
    ;
    assert(hex4(id)[0] == hex_digits()[a as int]);
    assert(hex4(id)[1] == hex_digits()[b as int]);
    assert(hex4(id)[2] == hex_digits()[c as int]);
    assert(hex4(id)[3] == hex_digits()[e as int]);
    assert(a * 4096 + b * 256 + c * 16 + e == id) by (nonlinear_arith)
        requires
            a == id / 4096,
            b == (id / 256) % 16,
            c == (id / 16) % 16,
            e == id % 16,
            id < 65536,
    ;
}

/// Each entry of the digit table is the digit of its position.
proof fn lemma_digit_values()
    ensures
        forall|d: int| 0 <= d < 16 ==> #[trigger] hex_digit_value(hex_digits()[d]) == Some(d),
{
    assert forall|d: int| 0 <= d < 16 implies #[trigger] hex_digit_value(hex_digits()[d]) == Some(d) by {
        if d == 0 { assert(hex_digits()[0] == '0'); }
        else if d == 1 { assert(hex_digits()[1] == '1'); }
        else if d == 2 { assert(hex_digits()[2] == '2'); }
        else if d == 3 { assert(hex_digits()[3] == '3'); }
        else if d == 4 { assert(hex_digits()[4] == '4'); }
        else if d == 5 { assert(hex_digits()[5] == '5'); }
        else if d == 6 { assert(hex_digits()[6] == '6'); }
        else if d == 7 { assert(hex_digits()[7] == '7'); }
        else if d == 8 { assert(hex_digits()[8] == '8'); }
        else if d == 9 { assert(hex_digits()[9] == '9'); }
        else if d == 10 { assert(hex_digits()[10] == 'a'); }
        else if d == 11 { assert(hex_digits()[11] == 'b'); }
        else if d == 12 { assert(hex_digits()[12] == 'c'); }
        else if d == 13 { assert(hex_digits()[13] == 'd'); }
        else if d == 14 { assert(hex_digits()[14] == 'e'); }
        else { assert(hex_digits()[15] == 'f'); }
    }
}

fn hex_digit(d: u16) -> (c: char)
    requires
        d < 16,
    ensures
        c == hex_digits()[d as int],
{
    if d == 0 { '0' }
    else if d == 1 { '1' }
    else if d == 2 { '2' }
    else if d == 3 { '3' }
    else if d == 4 { '4' }
    else if d == 5 { '5' }
    else if d == 6 { '6' }
    else if d == 7 { '7' }
    else if d == 8 { '8' }
    else if d == 9 { '9' }
    else if d == 10 { 'a' }
    else if d == 11 { 'b' }
    else if d == 12 { 'c' }
    else if d == 13 { 'd' }
    else if d == 14 { 'e' }
    else { 'f' }
}

/// Formats a USB vendor or product id as four lower-case hex digits.
pub fn format_id(id: u16) -> (r: String)
    ensures
        r@ == hex4(id),
{
    let mut s = String::new();
    push_char(&mut s, hex_digit(id / 4096));
    push_char(&mut s, hex_digit((id / 256) % 16));
    push_char(&mut s, hex_digit((id / 16) % 16));
    push_char(&mut s, hex_digit(id % 16));
    assert(s@ =~= hex4(id));
    s
}

/// Whether a declared (vendor, product) pair names the device with the given
/// ids. The declared strings must be the lower-case four-digit hex forms.
pub fn match_id(vendor: &str, product: &str, vid: u16, pid: u16) -> (r: bool)
    ensures
        r == (vendor@ == hex4(vid) && product@ == hex4(pid)),
{
    let v = format_id(vid);
    if !str_eq(vendor, v.as_str()) {
        return false;
    }
    let p = format_id(pid);
    str_eq(product, p.as_str())
}

/// Whether a mode declares the device with the given ids.
pub open spec fn mode_matches(m: ModeDef, vendor: u16, product: u16) -> bool {
    &&& m.vendor is Some
    &&& m.product is Some
    &&& m.vendor.unwrap()@ == hex4(vendor)
    &&& m.product.unwrap()@ == hex4(product)
}

/// The name of the first mode of the profile that declares the connected
/// device's vendor and product id, if any does.
pub fn detect_mode(def: &ControllerDef, vendor: u16, product: u16) -> (r: Option<String>)
    ensures
        r matches Some(name) ==> exists|i: int|
            0 <= i < def.modes@.len() && mode_matches(#[trigger] def.modes@[i], vendor, product)
                && name@ == def.modes@[i].name@ && forall|k: int|
                0 <= k < i ==> !mode_matches(#[trigger] def.modes@[k], vendor, product),
        r is None ==> forall|i: int|
            0 <= i < def.modes@.len() ==> !mode_matches(#[trigger] def.modes@[i], vendor, product),
{
    let vendor_hex = format_id(vendor);
    let product_hex = format_id(product);
    let mut i: usize = 0;
    while i < def.modes.len()
        invariant
            i <= def.modes@.len(),
            vendor_hex@ == hex4(vendor),
            product_hex@ == hex4(product),
            forall|k: int| 0 <= k < i ==> !mode_matches(#[trigger] def.modes@[k], vendor, product),
        decreases def.modes@.len() - i,
    {
        let m = &def.modes[i];
        match (&m.vendor, &m.product) {
            (Some(v), Some(p)) => {
                if *v == vendor_hex && *p == product_hex {
                    let name = m.name.clone();
                    assert(mode_matches(def.modes@[i as int], vendor, product));
                    return Some(name);
                }
            },
            _ => {},
        }
        i = i + 1;
    }
    None
}

/// The characters of a pair of strings.
pub open spec fn pair_view(p: (String, String)) -> (Seq<char>, Seq<char>) {
    (p.0@, p.1@)
}

/// Whether a mode declares both a vendor and a product id, and they are `pair`.
pub open spec fn mode_declares(m: ModeDef, pair: (Seq<char>, Seq<char>)) -> bool {
    &&& m.vendor is Some
    &&& m.product is Some
    &&& m.vendor.unwrap()@ == pair.0
    &&& m.product.unwrap()@ == pair.1
}

/// Whether some mode declares `pair`.
pub open spec fn declared_by_modes(modes: Seq<ModeDef>, pair: (Seq<char>, Seq<char>)) -> bool {
    exists|i: int| 0 <= i < modes.len() && mode_declares(#[trigger] modes[i], pair)
}

/// Whether a profile declares the hardware `pair`: `[controller]` gives
/// both ids and they are `pair`, or one of its modes does.
pub open spec fn profile_declares(
    info: ControllerInfo,
    modes: Seq<ModeDef>,
    pair: (Seq<char>, Seq<char>),
) -> bool {
    ||| (info.vendor is Some && info.product is Some && pair == (
        info.vendor.unwrap()@,
        info.product.unwrap()@,
    ))
    ||| declared_by_modes(modes, pair)
}

/// Whether some entry of `out` is the pair `x`.
pub open spec fn holds_pair(out: Seq<(String, String)>, x: (Seq<char>, Seq<char>)) -> bool {
    exists|k: int| 0 <= k < out.len() && #[trigger] pair_view(out[k]) == x
}

/// Adds the pair `(v, p)` to a strictly ascending list unless it is there,
/// keeping the list strictly ascending.
fn insert_pair_sorted(out: &mut Vec<(String, String)>, v: &String, p: &String)
    requires
        strictly_sorted(old(out)@.map_values(|q: (String, String)| pair_view(q))),
    ensures
        strictly_sorted(final(out)@.map_values(|q: (String, String)| pair_view(q))),
        holds_pair(final(out)@, (v@, p@)),
        forall|x: (Seq<char>, Seq<char>)|
            holds_pair(old(out)@, x) ==> #[trigger] holds_pair(final(out)@, x),
        forall|k: int|
            0 <= k < final(out)@.len() ==> pair_view(#[trigger] final(out)@[k]) == (v@, p@)
                || holds_pair(old(out)@, pair_view(final(out)@[k])),
{
    let ghost keys = out@.map_values(|q: (String, String)| pair_view(q));
    let ghost x = (v@, p@);
    let mut pos: usize = 0;
    while pos < out.len() && pair_lt_exec(out[pos].0.as_str(), out[pos].1.as_str(), v.as_str(), p.as_str())
        invariant
            pos <= out@.len(),
            keys == out@.map_values(|q: (String, String)| pair_view(q)),
            x == (v@, p@),
            forall|a: int| 0 <= a < pos ==> pair_lt(#[trigger] keys[a], x),
        decreases out@.len() - pos,
    {
        pos = pos + 1;
    }
    let dup = pos < out.len() && out[pos].0 == *v && out[pos].1 == *p;
    if dup {
        assert(pair_view(out@[pos as int]) == x);
        return;
    }
    proof {
        lemma_sorted_insert(keys, x, pos as int);
    }
    let ghost old_out = out@;
    out.insert(pos, (v.clone(), p.clone()));
    proof {
        assert(out@.map_values(|q: (String, String)| pair_view(q)) =~= keys.insert(pos as int, x));
        assert(pair_view(out@[pos as int]) == x);
        assert forall|y: (Seq<char>, Seq<char>)| holds_pair(old_out, y) implies #[trigger] holds_pair(
            out@,
            y,
        ) by {
            let k0 = choose|k: int| 0 <= k < old_out.len() && #[trigger] pair_view(old_out[k]) == y;
            if k0 < pos {
                assert(out@[k0] == old_out[k0]);
            } else {
                assert(out@[k0 + 1] == old_out[k0]);
            }
        }
        assert forall|k: int| 0 <= k < out@.len() implies pair_view(#[trigger] out@[k]) == x
            || holds_pair(old_out, pair_view(out@[k])) by {
            if k < pos {
                assert(out@[k] == old_out[k]);
            } else if k > pos {
                assert(out@[k] == old_out[k - 1]);
            }
        }
    }
}

/// The (vendor, product) pairs that a profile binds itself to: every pair
/// it declares, at `[controller]` level (when both ids are given) or in a
/// mode (that gives both), in ascending order, each once.
pub fn hardware_id_pairs(info: &ControllerInfo, modes: &Vec<ModeDef>) -> (r: Vec<(String, String)>)
    ensures
        strictly_sorted(r@.map_values(|p: (String, String)| pair_view(p))),
        forall|k: int| 0 <= k < r@.len() ==> profile_declares(*info, modes@, #[trigger] pair_view(r@[k])),
        (info.vendor is Some && info.product is Some) ==> holds_pair(
            r@,
            (info.vendor.unwrap()@, info.product.unwrap()@),
        ),
        forall|i: int|
            0 <= i < modes@.len() && (#[trigger] modes@[i]).vendor is Some
                && modes@[i].product is Some ==> holds_pair(
                r@,
                (modes@[i].vendor.unwrap()@, modes@[i].product.unwrap()@),
            ),
{
    let mut out: Vec<(String, String)> = Vec::new();
    match (&info.vendor, &info.product) {
        (Some(v), Some(p)) => {
            assert(out@.map_values(|q: (String, String)| pair_view(q)) =~= Seq::empty());
            insert_pair_sorted(&mut out, v, p);
        },
        _ => {},
    }
    assert(forall|k: int| 0 <= k < out@.len() ==> profile_declares(*info, modes@, #[trigger] pair_view(out@[k])));
    let mut i: usize = 0;
    while i < modes.len()
        invariant
            i <= modes@.len(),
            strictly_sorted(out@.map_values(|q: (String, String)| pair_view(q))),
            forall|k: int|
                0 <= k < out@.len() ==> profile_declares(*info, modes@, #[trigger] pair_view(out@[k])),
            (info.vendor is Some && info.product is Some) ==> holds_pair(
                out@,
                (info.vendor.unwrap()@, info.product.unwrap()@),
            ),
            forall|m: int|
                0 <= m < i && (#[trigger] modes@[m]).vendor is Some && modes@[m].product is Some
                    ==> holds_pair(out@, (modes@[m].vendor.unwrap()@, modes@[m].product.unwrap()@)),
        decreases modes@.len() - i,
    {
        match (&modes[i].vendor, &modes[i].product) {
            (Some(v), Some(p)) => {
                let ghost before = out@;
                insert_pair_sorted(&mut out, v, p);
                proof {
                    assert(mode_declares(modes@[i as int], (v@, p@)));
                    assert forall|k: int| 0 <= k < out@.len() implies profile_declares(
                        *info,
                        modes@,
                        #[trigger] pair_view(out@[k]),
                    ) by {
                        if pair_view(out@[k]) != (v@, p@) {
                            let j = choose|j: int|
                                0 <= j < before.len() && #[trigger] pair_view(before[j])
                                    == pair_view(out@[k]);
                            assert(profile_declares(*info, modes@, pair_view(before[j])));
                        }
                    }
                    if info.vendor is Some && info.product is Some {
                        assert(holds_pair(before, (info.vendor.unwrap()@, info.product.unwrap()@)));
                    }
                    assert forall|m: int|
                        0 <= m < i + 1 && (#[trigger] modes@[m]).vendor is Some
                            && modes@[m].product is Some implies holds_pair(
                        out@,
                        (modes@[m].vendor.unwrap()@, modes@[m].product.unwrap()@),
                    ) by {
                        if m < i {
                            assert(holds_pair(before, (modes@[m].vendor.unwrap()@, modes@[m].product.unwrap()@)));
                        }
                    }
                }
            },
            _ => {},
        }
        i = i + 1;
    }
    out
}

} // verus!
