use vstd::prelude::*;
use crate::types::{
    opt_view, ButtonDef, ButtonDefaults, ButtonView, ControllerDef, InputDef, InputView,
    RawButtonDef, RawControllerDef,
};

verus! {

/// A button as its own entry and the profile's `[defaults]` make it:
/// `image` defaults to "", `input` to none, `travel`, `paint` and
/// `transparency` to `[defaults]`; every other field is taken as written.
pub open spec fn apply_defaults(b: RawButtonDef, d: ButtonDefaults) -> ButtonView {
    ButtonView {
        id: b.id@,
        image: match b.image {
            Some(s) => s@,
            None => Seq::empty(),
        },
        image_up: opt_view(b.image_up),
        image_down: opt_view(b.image_down),
        input: match b.input {
            Some(i) => i@,
            None => InputView::Unbound,
        },
        travel: match b.travel {
            Some(t) => t,
            None => d.travel,
        },
        paint: match b.paint {
            Some(p) => p@,
            None => d.paint@,
        },
        transparency: match b.transparency {
            Some(t) => t,
            None => d.transparency,
        },
        capsense: b.capsense,
        reference: opt_view(b.reference),
        pad_size_x: b.pad_size_x,
        pad_size_y: b.pad_size_y,
        pad_angle: b.pad_angle,
        pad_shape: opt_view(b.pad_shape),
        pad_center_x: b.pad_center_x,
        pad_center_y: b.pad_center_y,
        pad_sensitivity: b.pad_sensitivity,
    }
}

/// The position of the last of the first `n` buttons whose id is `id`.
pub open spec fn last_index_with_id(raws: Seq<RawButtonDef>, id: Seq<char>, n: int) -> Option<int>
    decreases n,
{
    if n <= 0 {
        None
    } else if raws[n - 1].id@ == id {
        Some(n - 1)
    } else {
        last_index_with_id(raws, id, n - 1)
    }
}

/// The button that button `i` refers to: the last button whose id equals
/// its `reference`, if there is one.
pub open spec fn reference_target(raws: Seq<RawButtonDef>, i: int) -> Option<int> {
    match raws[i].reference {
        Some(r) => last_index_with_id(raws, r@, raws.len() as int),
        None => None,
    }
}

/// Button `btn` (written as `raw`) after inheriting from `src`: each of
/// image, image_up, image_down, input, travel, pad_size_x, pad_size_y,
/// pad_angle, pad_shape and pad_sensitivity that `raw` leaves out is taken
/// from `src`; everything else stays.
pub open spec fn inherit(btn: ButtonView, raw: RawButtonDef, src: ButtonView) -> ButtonView {
    ButtonView {
        image: if raw.image is None { src.image } else { btn.image },
        image_up: if raw.image_up is None { src.image_up } else { btn.image_up },
        image_down: if raw.image_down is None { src.image_down } else { btn.image_down },
        input: if raw.input is None { src.input } else { btn.input },
        travel: if raw.travel is None { src.travel } else { btn.travel },
        pad_size_x: if raw.pad_size_x is None { src.pad_size_x } else { btn.pad_size_x },
        pad_size_y: if raw.pad_size_y is None { src.pad_size_y } else { btn.pad_size_y },
        pad_angle: if raw.pad_angle is None { src.pad_angle } else { btn.pad_angle },
        pad_shape: if raw.pad_shape is None { src.pad_shape } else { btn.pad_shape },
        pad_sensitivity: if raw.pad_sensitivity is None {
            src.pad_sensitivity
        } else {
            btn.pad_sensitivity
        },
        ..btn
    }
}

/// The buttons after references have been followed for the first `k`
/// buttons, in order: each step reads the referenced button as it stands
/// at that moment, so a reference to an earlier button sees that button's
/// own inheritance, and a reference to a later one does not.
pub open spec fn resolved_buttons(raws: Seq<RawButtonDef>, d: ButtonDefaults, k: nat) -> Seq<
    ButtonView,
>
    decreases k,
{
    if k == 0 {
        raws.map_values(|b: RawButtonDef| apply_defaults(b, d))
    } else {
        let s = resolved_buttons(raws, d, (k - 1) as nat);
        let i = k - 1;
        match reference_target(raws, i) {
            Some(j) => s.update(i, inherit(s[i], raws[i], s[j])),
            None => s,
        }
    }
}

pub proof fn lemma_last_index_in_range(raws: Seq<RawButtonDef>, id: Seq<char>, n: int)
    requires
        n <= raws.len(),
    ensures
        last_index_with_id(raws, id, n) matches Some(j) ==> 0 <= j < n && raws[j].id@ == id,
    decreases n,
{
    if n > 0 && raws[n - 1].id@ != id {
        lemma_last_index_in_range(raws, id, n - 1);
    }
}

pub proof fn lemma_resolved_len(raws: Seq<RawButtonDef>, d: ButtonDefaults, k: nat)
    requires
        k <= raws.len(),
    ensures
        resolved_buttons(raws, d, k).len() == raws.len(),
    decreases k,
{
    if k > 0 {
        lemma_resolved_len(raws, d, (k - 1) as nat);
        lemma_last_index_in_range(raws, opt_view(raws[k - 1].reference).unwrap(), raws.len() as int);
    }
}

/// Entry `m` changes only at step `m`: before it, it is the button with its
/// defaults; after it, it keeps the value that step gave it.
pub proof fn lemma_resolved_entry(raws: Seq<RawButtonDef>, d: ButtonDefaults, k: nat, m: int)
    requires
        k <= raws.len(),
        0 <= m < raws.len(),
    ensures
        m >= k ==> resolved_buttons(raws, d, k)[m] == apply_defaults(raws[m], d),
        m < k ==> resolved_buttons(raws, d, k)[m] == resolved_buttons(raws, d, (m + 1) as nat)[m],
    decreases k,
{
    lemma_resolved_len(raws, d, k);
    if k > 0 {
        lemma_resolved_entry(raws, d, (k - 1) as nat, m);
        lemma_resolved_len(raws, d, (k - 1) as nat);
    }
}

/// What reference resolution keeps and what it takes.
///
/// In a loaded profile, every button keeps each field that its own entry
/// writes; its id, paint, transparency, capsense, reference and touchpad
/// centre are never inherited; a button whose `reference` names no button
/// (or that has none) is exactly its own entry with `[defaults]`; and a
/// button that refers to a button without a reference of its own takes each
/// inheritable field it leaves out from that button's entry with
/// `[defaults]`.
pub proof fn lemma_reference_resolution(raws: Seq<RawButtonDef>, d: ButtonDefaults, i: int)
    requires
        0 <= i < raws.len(),
    ensures
        ({
            let r = resolved_buttons(raws, d, raws.len() as nat)[i];
            let base = apply_defaults(raws[i], d);
            &&& r.id == base.id
            &&& r.paint == base.paint
            &&& r.transparency == base.transparency
            &&& r.capsense == base.capsense
            &&& r.reference == base.reference
            &&& r.pad_center_x == base.pad_center_x
            &&& r.pad_center_y == base.pad_center_y
            &&& raws[i].image is Some ==> r.image == base.image
            &&& raws[i].image_up is Some ==> r.image_up == base.image_up
            &&& raws[i].image_down is Some ==> r.image_down == base.image_down
            &&& raws[i].input is Some ==> r.input == base.input
            &&& raws[i].travel is Some ==> r.travel == base.travel
            &&& raws[i].pad_size_x is Some ==> r.pad_size_x == base.pad_size_x
            &&& raws[i].pad_size_y is Some ==> r.pad_size_y == base.pad_size_y
            &&& raws[i].pad_angle is Some ==> r.pad_angle == base.pad_angle
            &&& raws[i].pad_shape is Some ==> r.pad_shape == base.pad_shape
            &&& raws[i].pad_sensitivity is Some ==> r.pad_sensitivity == base.pad_sensitivity
            &&& reference_target(raws, i) is None ==> r == base
            &&& reference_target(raws, i) matches Some(j) ==> (reference_target(raws, j) is None
                ==> r == inherit(base, raws[i], apply_defaults(raws[j], d)))
        }),
{
    let n = raws.len() as nat;
    lemma_resolved_entry(raws, d, n, i);
    lemma_resolved_entry(raws, d, i as nat, i);
    lemma_resolved_len(raws, d, i as nat);
    match reference_target(raws, i) {
        Some(j) => {
            lemma_last_index_in_range(raws, opt_view(raws[i].reference).unwrap(), raws.len() as int);
            lemma_resolved_entry(raws, d, i as nat, j);
            if j < i {
                lemma_resolved_entry(raws, d, j as nat, j);
                lemma_resolved_len(raws, d, j as nat);
            }
        },
        None => {},
    }
}

/// `j` is the last of `raws` whose id is `id`.
pub open spec fn is_last_with_id(raws: Seq<RawButtonDef>, id: Seq<char>, j: int) -> bool {
    &&& 0 <= j < raws.len()
    &&& raws[j].id@ == id
    &&& forall|k: int| j < k < raws.len() ==> (#[trigger] raws[k]).id@ != id
}

proof fn lemma_last_index_is_last(raws: Seq<RawButtonDef>, id: Seq<char>, j: int, n: int)
    requires
        is_last_with_id(raws, id, j),
        j < n <= raws.len(),
    ensures
        last_index_with_id(raws, id, n) == Some(j),
    decreases n,
{
    if n - 1 > j {
        assert(raws[n - 1].id@ != id);
        lemma_last_index_is_last(raws, id, j, n - 1);
    }
}

proof fn lemma_no_index_with_id(raws: Seq<RawButtonDef>, id: Seq<char>, n: int)
    requires
        n <= raws.len(),
        forall|k: int| 0 <= k < raws.len() ==> (#[trigger] raws[k]).id@ != id,
    ensures
        last_index_with_id(raws, id, n) is None,
    decreases n,
{
    if n > 0 {
        assert(raws[n - 1].id@ != id);
        lemma_no_index_with_id(raws, id, n - 1);
    }
}

/// What a loaded button keeps of its own entry, field by field: its id,
/// paint and opacity (or `[defaults]`'), capsense, reference and touchpad
/// centre are its own; and every field that its entry writes keeps exactly
/// the written value. A button with no reference, or whose reference names
/// no button, is its entry alone: each field it leaves out is empty, none,
/// or `[defaults]`' travel.
pub proof fn lemma_loaded_button_own_fields(raws: Seq<RawButtonDef>, d: ButtonDefaults, i: int)
    requires
        0 <= i < raws.len(),
    ensures
        ({
            let r = resolved_buttons(raws, d, raws.len() as nat)[i];
            let b = raws[i];
            &&& r.id == b.id@
            &&& r.paint == (match b.paint { Some(p) => p@, None => d.paint@ })
            &&& r.transparency == (match b.transparency { Some(t) => t, None => d.transparency })
            &&& r.capsense == b.capsense
            &&& (match b.reference { Some(s) => r.reference == Some(s@), None => r.reference is None })
            &&& r.pad_center_x == b.pad_center_x
            &&& r.pad_center_y == b.pad_center_y
            &&& (b.image matches Some(s) ==> r.image == s@)
            &&& (b.image_up matches Some(s) ==> r.image_up == Some(s@))
            &&& (b.image_down matches Some(s) ==> r.image_down == Some(s@))
            &&& (b.input matches Some(x) ==> r.input == x@)
            &&& (b.travel matches Some(t) ==> r.travel == t)
            &&& (b.pad_size_x matches Some(v) ==> r.pad_size_x == Some(v))
            &&& (b.pad_size_y matches Some(v) ==> r.pad_size_y == Some(v))
            &&& (b.pad_angle matches Some(v) ==> r.pad_angle == Some(v))
            &&& (b.pad_shape matches Some(s) ==> r.pad_shape == Some(s@))
            &&& (b.pad_sensitivity matches Some(v) ==> r.pad_sensitivity == Some(v))
        }),
        (raws[i].reference is None || forall|k: int|
            0 <= k < raws.len() ==> (#[trigger] raws[k]).id@ != raws[i].reference.unwrap()@) ==> ({
            let r = resolved_buttons(raws, d, raws.len() as nat)[i];
            let b = raws[i];
            &&& (b.image is None ==> r.image == Seq::<char>::empty())
            &&& (b.image_up is None ==> r.image_up is None)
            &&& (b.image_down is None ==> r.image_down is None)
            &&& (b.input is None ==> r.input == InputView::Unbound)
            &&& (b.travel is None ==> r.travel == d.travel)
            &&& (b.pad_size_x is None ==> r.pad_size_x is None)
            &&& (b.pad_size_y is None ==> r.pad_size_y is None)
            &&& (b.pad_angle is None ==> r.pad_angle is None)
            &&& (b.pad_shape is None ==> r.pad_shape is None)
            &&& (b.pad_sensitivity is None ==> r.pad_sensitivity is None)
        }),
{
    lemma_reference_resolution(raws, d, i);
    if raws[i].reference is Some && forall|k: int|
        0 <= k < raws.len() ==> (#[trigger] raws[k]).id@ != raws[i].reference.unwrap()@ {
        lemma_no_index_with_id(raws, raws[i].reference.unwrap()@, raws.len() as int);
    }
}

/// What a loaded button takes from the button it refers to, field by field:
/// when its `reference` names button `j` (the last with that id) and `j`
/// has no reference of its own, each of image, image_up, image_down, input,
/// travel, pad_size_x, pad_size_y, pad_angle, pad_shape and pad_sensitivity
/// that the button leaves out is `j`'s written value (or, where `j` leaves
/// it out too, empty, none, or `[defaults]`' travel).
pub proof fn lemma_loaded_button_inherits(raws: Seq<RawButtonDef>, d: ButtonDefaults, i: int, j: int)
    requires
        0 <= i < raws.len(),
        raws[i].reference is Some,
        is_last_with_id(raws, raws[i].reference.unwrap()@, j),
        raws[j].reference is None,
    ensures
        ({
            let r = resolved_buttons(raws, d, raws.len() as nat)[i];
            let b = raws[i];
            let s = raws[j];
            &&& (b.image is None ==> r.image == (match s.image { Some(x) => x@, None => Seq::<char>::empty() }))
            &&& (b.image_up is None ==> r.image_up == (match s.image_up { Some(x) => Some(x@), None => None }))
            &&& (b.image_down is None ==> r.image_down == (match s.image_down { Some(x) => Some(x@), None => None }))
            &&& (b.input is None ==> r.input == (match s.input { Some(x) => x@, None => InputView::Unbound }))
            &&& (b.travel is None ==> r.travel == (match s.travel { Some(t) => t, None => d.travel }))
            &&& (b.pad_size_x is None ==> r.pad_size_x == s.pad_size_x)
            &&& (b.pad_size_y is None ==> r.pad_size_y == s.pad_size_y)
            &&& (b.pad_angle is None ==> r.pad_angle == s.pad_angle)
            &&& (b.pad_shape is None ==> r.pad_shape == (match s.pad_shape { Some(x) => Some(x@), None => None }))
            &&& (b.pad_sensitivity is None ==> r.pad_sensitivity == s.pad_sensitivity)
        }),
{
    lemma_last_index_is_last(raws, raws[i].reference.unwrap()@, j, raws.len() as int);
    assert(reference_target(raws, i) == Some(j));
    assert(reference_target(raws, j) is None);
    lemma_reference_resolution(raws, d, i);
}

/// Clones an optional string.
fn clone_opt(o: &Option<String>) -> (r: Option<String>)
    ensures
        r == *o,
{
    match o {
        Some(s) => Some(s.clone()),
        None => None,
    }
}

/// The button with its own entry and `[defaults]` applied.
fn button_with_defaults(b: &RawButtonDef, d: &ButtonDefaults) -> (r: ButtonDef)
    ensures
        r@ == apply_defaults(*b, *d),
{
    ButtonDef {
        id: b.id.clone(),
        image: match &b.image {
            Some(s) => s.clone(),
            None => String::new(),
        },
        image_up: clone_opt(&b.image_up),
        image_down: clone_opt(&b.image_down),
        input: match &b.input {
            Some(i) => i.clone(),
            None => InputDef::Unbound,
        },
        travel: match b.travel {
            Some(t) => t,
            None => d.travel,
        },
        paint: match &b.paint {
            Some(p) => p.clone(),
            None => d.paint.clone(),
        },
        transparency: match b.transparency {
            Some(t) => t,
            None => d.transparency,
        },
        capsense: b.capsense,
        reference: clone_opt(&b.reference),
        pad_size_x: b.pad_size_x,
        pad_size_y: b.pad_size_y,
        pad_angle: b.pad_angle,
        pad_shape: clone_opt(&b.pad_shape),
        pad_center_x: b.pad_center_x,
        pad_center_y: b.pad_center_y,
        pad_sensitivity: b.pad_sensitivity,
    }
}

/// The position of the last button whose id is `id`.
fn find_last_with_id(raws: &Vec<RawButtonDef>, id: &String) -> (r: Option<usize>)
    ensures
        r matches Some(j) ==> last_index_with_id(raws@, id@, raws@.len() as int) == Some(j as int),
        r is None ==> last_index_with_id(raws@, id@, raws@.len() as int) is None,
{
    let mut found: Option<usize> = None;
    let mut k: usize = 0;
    while k < raws.len()
        invariant
            k <= raws@.len(),
            found matches Some(j) ==> last_index_with_id(raws@, id@, k as int) == Some(j as int),
            found is None ==> last_index_with_id(raws@, id@, k as int) is None,
        decreases raws@.len() - k,
    {
        if raws[k].id == *id {
            found = Some(k);
        }
        k = k + 1;
    }
    found
}

/// Button `cur` after inheriting, as `raw` allows, from `src`.
fn inherited(cur: &ButtonDef, raw: &RawButtonDef, src: &ButtonDef) -> (r: ButtonDef)
    ensures
        r@ == inherit(cur@, *raw, src@),
{
    ButtonDef {
        id: cur.id.clone(),
        image: if raw.image.is_none() { src.image.clone() } else { cur.image.clone() },
        image_up: if raw.image_up.is_none() { clone_opt(&src.image_up) } else { clone_opt(&cur.image_up) },
        image_down: if raw.image_down.is_none() {
            clone_opt(&src.image_down)
        } else {
            clone_opt(&cur.image_down)
        },
        input: if raw.input.is_none() { src.input.clone() } else { cur.input.clone() },
        travel: if raw.travel.is_none() { src.travel } else { cur.travel },
        paint: cur.paint.clone(),
        transparency: cur.transparency,
        capsense: cur.capsense,
        reference: clone_opt(&cur.reference),
        pad_size_x: if raw.pad_size_x.is_none() { src.pad_size_x } else { cur.pad_size_x },
        pad_size_y: if raw.pad_size_y.is_none() { src.pad_size_y } else { cur.pad_size_y },
        pad_angle: if raw.pad_angle.is_none() { src.pad_angle } else { cur.pad_angle },
        pad_shape: if raw.pad_shape.is_none() { clone_opt(&src.pad_shape) } else { clone_opt(&cur.pad_shape) },
        pad_center_x: cur.pad_center_x,
        pad_center_y: cur.pad_center_y,
        pad_sensitivity: if raw.pad_sensitivity.is_none() {
            src.pad_sensitivity
        } else {
            cur.pad_sensitivity
        },
    }
}

/// Builds a loaded profile from the parsed file: each button gets its
/// defaults, then, button by button in file order, follows its `reference`.
pub fn resolve_controller_def(raw: RawControllerDef) -> (r: ControllerDef)
    ensures
        r.buttons@.len() == raw.buttons@.len(),
        forall|k: int|
            0 <= k < r.buttons@.len() ==> #[trigger] r.buttons@[k]@ == resolved_buttons(
                raw.buttons@,
                raw.defaults,
                raw.buttons@.len() as nat,
            )[k],
        r.controller == raw.controller,
        r.defaults == raw.defaults,
        r.modes == raw.modes,
        r.mode_overrides == raw.mode_overrides,
{
    let n = raw.buttons.len();
    let ghost raws = raw.buttons@;
    let ghost d = raw.defaults;
    let mut buttons: Vec<ButtonDef> = Vec::new();
    let mut k: usize = 0;
    while k < n
        invariant
            n == raws.len(),
            raws == raw.buttons@,
            d == raw.defaults,
            k <= n,
            buttons@.len() == k,
            forall|m: int| 0 <= m < k ==> #[trigger] buttons@[m]@ == apply_defaults(raws[m], d),
        decreases n - k,
    {
        buttons.push(button_with_defaults(&raw.buttons[k], &raw.defaults));
        k = k + 1;
    }
    proof {
        assert forall|m: int| 0 <= m < n implies #[trigger] buttons@[m]@ == resolved_buttons(
            raws,
            d,
            0,
        )[m] by {}
    }
    let mut i: usize = 0;
    while i < n
        invariant
            n == raws.len(),
            raws == raw.buttons@,
            d == raw.defaults,
            i <= n,
            buttons@.len() == n,
            forall|m: int|
                0 <= m < n ==> #[trigger] buttons@[m]@ == resolved_buttons(raws, d, i as nat)[m],
        decreases n - i,
    {
        proof {
            lemma_resolved_len(raws, d, i as nat);
            lemma_resolved_len(raws, d, (i + 1) as nat);
        }
        let target = match &raw.buttons[i].reference {
            Some(r) => find_last_with_id(&raw.buttons, r),
            None => None,
        };
        match target {
            Some(j) => {
                proof {
                    lemma_last_index_in_range(
                        raws,
                        opt_view(raws[i as int].reference).unwrap(),
                        n as int,
                    );
                }
                let updated = inherited(&buttons[i], &raw.buttons[i], &buttons[j]);
                buttons.set(i, updated);
            },
            None => {},
        }
        i = i + 1;
    }
    ControllerDef {
        controller: raw.controller,
        defaults: raw.defaults,
        buttons,
        modes: raw.modes,
        mode_overrides: raw.mode_overrides,
    }
}

} // verus!
