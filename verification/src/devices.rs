use vstd::prelude::*;
use crate::modes::{hex4, match_id, pair_view, profile_declares};
use crate::types::{ControllerInfo, ModeDef};

verus! {

/// One joystick device that SDL reports, as the debug tool lists it.
#[derive(Debug, Clone)]
pub struct GamepadDeviceInfo {
    pub instance_id: i32,
    pub name: String,
    pub vendor: u16,
    pub product: u16,
    pub is_gamepad: bool,
}

/// Whether device `d` is the hardware that `pair` declares (and, when only
/// gamepads are wanted, is a gamepad).
pub open spec fn device_matches(
    d: GamepadDeviceInfo,
    pair: (Seq<char>, Seq<char>),
    gamepads_only: bool,
) -> bool {
    &&& (!gamepads_only || d.is_gamepad)
    &&& pair.0 == hex4(d.vendor)
    &&& pair.1 == hex4(d.product)
}

/// The instance ids, in device order, of the first `n` devices that match `pair`.
pub open spec fn matching_ids(
    devices: Seq<GamepadDeviceInfo>,
    n: int,
    pair: (Seq<char>, Seq<char>),
    gamepads_only: bool,
) -> Seq<i32>
    decreases n,
{
    if n <= 0 {
        Seq::empty()
    } else {
        let rest = matching_ids(devices, n - 1, pair, gamepads_only);
        if device_matches(devices[n - 1], pair, gamepads_only) {
            rest.push(devices[n - 1].instance_id)
        } else {
            rest
        }
    }
}

/// The devices to try to open, in order, for the first `m` declared pairs:
/// for each pair in turn, every device that matches it, in device order.
pub open spec fn candidates(
    devices: Seq<GamepadDeviceInfo>,
    pairs: Seq<(Seq<char>, Seq<char>)>,
    m: int,
    gamepads_only: bool,
) -> Seq<i32>
    decreases m,
{
    if m <= 0 {
        Seq::empty()
    } else {
        candidates(devices, pairs, m - 1, gamepads_only) + matching_ids(
            devices,
            devices.len() as int,
            pairs[m - 1],
            gamepads_only,
        )
    }
}

/// The instance ids of the devices to try to open for a profile bound to
/// the hardware `pairs`, in the order to try them: opening stops at the
/// first that succeeds. With `gamepads_only`, only gamepads count.
pub fn connection_candidates(
    devices: &Vec<GamepadDeviceInfo>,
    pairs: &Vec<(String, String)>,
    gamepads_only: bool,
) -> (r: Vec<i32>)
    ensures
        r@ == candidates(
            devices@,
            pairs@.map_values(|p: (String, String)| pair_view(p)),
            pairs@.len() as int,
            gamepads_only,
        ),
{
    let ghost pv = pairs@.map_values(|p: (String, String)| pair_view(p));
    let mut out: Vec<i32> = Vec::new();
    let mut m: usize = 0;
    while m < pairs.len()
        invariant
            m <= pairs@.len(),
            pv == pairs@.map_values(|p: (String, String)| pair_view(p)),
            out@ == candidates(devices@, pv, m as int, gamepads_only),
        decreases pairs@.len() - m,
    {
        let ghost before = out@;
        let mut k: usize = 0;
        while k < devices.len()
            invariant
                m < pairs@.len(),
                k <= devices@.len(),
                pv == pairs@.map_values(|p: (String, String)| pair_view(p)),
                out@ == before + matching_ids(devices@, k as int, pv[m as int], gamepads_only),
            decreases devices@.len() - k,
        {
            let d = &devices[k];
            if (!gamepads_only || d.is_gamepad) && match_id(
                pairs[m].0.as_str(),
                pairs[m].1.as_str(),
                d.vendor,
                d.product,
            ) {
                out.push(d.instance_id);
            }
            k = k + 1;
        }
        m = m + 1;
    }
    out
}

/// The first device of the kind wanted (a gamepad, or any joystick), as a
/// list of at most one instance id.
pub open spec fn first_of_kind(devices: Seq<GamepadDeviceInfo>, n: int, gamepads_only: bool) -> Seq<i32>
    decreases n,
{
    if n <= 0 {
        Seq::empty()
    } else {
        let earlier = first_of_kind(devices, n - 1, gamepads_only);
        if earlier.len() == 0 && (!gamepads_only || devices[n - 1].is_gamepad) {
            seq![devices[n - 1].instance_id]
        } else {
            earlier
        }
    }
}

/// The devices to try to open, in order, for the current profile: with
/// declared hardware pairs, exactly the devices that match them (see
/// `connection_candidates`); without any, only the first device of the kind
/// wanted.
pub fn devices_to_try(
    devices: &Vec<GamepadDeviceInfo>,
    pairs: &Vec<(String, String)>,
    gamepads_only: bool,
) -> (r: Vec<i32>)
    ensures
        pairs@.len() > 0 ==> r@ == candidates(
            devices@,
            pairs@.map_values(|p: (String, String)| pair_view(p)),
            pairs@.len() as int,
            gamepads_only,
        ),
        pairs@.len() == 0 ==> r@ == first_of_kind(devices@, devices@.len() as int, gamepads_only),
{
    if pairs.len() > 0 {
        return connection_candidates(devices, pairs, gamepads_only);
    }
    let mut out: Vec<i32> = Vec::new();
    let mut k: usize = 0;
    while k < devices.len()
        invariant
            k <= devices@.len(),
            out@ == first_of_kind(devices@, k as int, gamepads_only),
        decreases devices@.len() - k,
    {
        if out.len() == 0 && (!gamepads_only || devices[k].is_gamepad) {
            out.push(devices[k].instance_id);
        }
        k = k + 1;
    }
    out
}

/// Whether `ids` (vendor, product), written as four hex digits each, are one
/// of `pairs`.
pub open spec fn ids_declared(pairs: Seq<(Seq<char>, Seq<char>)>, ids: (u16, u16)) -> bool {
    exists|q: int| 0 <= q < pairs.len() && #[trigger] pairs[q] == (hex4(ids.0), hex4(ids.1))
}

/// Whether some device of `devices` has instance id `id` and the
/// (vendor, product) `hw`.
pub open spec fn from_device(devices: Seq<GamepadDeviceInfo>, id: i32, hw: (u16, u16)) -> bool {
    exists|d: int|
        0 <= d < devices.len() && (#[trigger] devices[d]).instance_id == id && devices[d].vendor
            == hw.0 && devices[d].product == hw.1
}

/// The devices to try to open for a profile, handed out one at a time: the
/// app tries to open each in turn and stops at the first that opens. With
/// declared hardware pairs, every device handed out is one of them.
pub struct OpenAttempts {
    /// (instance id, vendor, product) of each device to try, in order.
    candidates: Vec<(i32, u16, u16)>,
    /// How many have been handed out.
    tried: usize,
    pairs: Ghost<Seq<(Seq<char>, Seq<char>)>>,
}

impl OpenAttempts {
    #[verifier::type_invariant]
    spec fn inv(self) -> bool {
        &&& self.tried <= self.candidates@.len()
        &&& self.pairs@.len() > 0 ==> forall|k: int|
            0 <= k < self.candidates@.len() ==> ids_declared(
                self.pairs@,
                (#[trigger] self.candidates@[k].1, self.candidates@[k].2),
            )
    }

    /// The hardware pairs the attempts were made for.
    pub closed spec fn pairs(self) -> Seq<(Seq<char>, Seq<char>)> {
        self.pairs@
    }

    /// The instance ids of the devices to try, in order.
    pub closed spec fn ids(self) -> Seq<i32> {
        self.candidates@.map_values(|c: (i32, u16, u16)| c.0)
    }

    /// The (vendor, product) of each device to try, in the order of `ids`.
    pub closed spec fn hw_ids(self) -> Seq<(u16, u16)> {
        self.candidates@.map_values(|c: (i32, u16, u16)| (c.1, c.2))
    }

    /// How many devices have been handed out.
    pub closed spec fn tried(self) -> nat {
        self.tried as nat
    }

    /// The (vendor, product) of the device handed out last, if any.
    pub closed spec fn last_ids(self) -> Option<(u16, u16)> {
        if self.tried == 0 || self.tried > self.candidates@.len() {
            None
        } else {
            Some((self.candidates@[self.tried - 1].1, self.candidates@[self.tried - 1].2))
        }
    }

    /// The attempts for a profile bound to `pairs`: the devices that
    /// `devices_to_try` names, in its order (the same list), none handed out
    /// yet.
    pub fn new(devices: &Vec<GamepadDeviceInfo>, pairs: &Vec<(String, String)>, gamepads_only: bool) -> (r: Self)
        ensures
            r.pairs() == pairs@.map_values(|p: (String, String)| pair_view(p)),
            r.ids() == (if pairs@.len() > 0 {
                candidates(
                    devices@,
                    pairs@.map_values(|p: (String, String)| pair_view(p)),
                    pairs@.len() as int,
                    gamepads_only,
                )
            } else {
                first_of_kind(devices@, devices@.len() as int, gamepads_only)
            }),
            r.tried() == 0,
            r.hw_ids().len() == r.ids().len(),
            forall|k: int|
                0 <= k < r.ids().len() ==> #[trigger] from_device(devices@, r.ids()[k], r.hw_ids()[k]),
    {
        let ghost pv = pairs@.map_values(|p: (String, String)| pair_view(p));
        let mut out: Vec<(i32, u16, u16)> = Vec::new();
        if pairs.len() > 0 {
            let mut m: usize = 0;
            while m < pairs.len()
                invariant
                    m <= pairs@.len(),
                    pv == pairs@.map_values(|p: (String, String)| pair_view(p)),
                    out@.map_values(|c: (i32, u16, u16)| c.0) == candidates(
                        devices@,
                        pv,
                        m as int,
                        gamepads_only,
                    ),
                    forall|k: int|
                        0 <= k < out@.len() ==> ids_declared(pv, (#[trigger] out@[k].1, out@[k].2)),
                    forall|k: int|
                        0 <= k < out@.len() ==> from_device(devices@, (#[trigger] out@[k]).0, (out@[k].1, out@[k].2)),
                decreases pairs@.len() - m,
            {
                let ghost before = out@;
                let mut k: usize = 0;
                while k < devices.len()
                    invariant
                        m < pairs@.len(),
                        k <= devices@.len(),
                        pv == pairs@.map_values(|p: (String, String)| pair_view(p)),
                        out@.map_values(|c: (i32, u16, u16)| c.0) == before.map_values(
                            |c: (i32, u16, u16)| c.0,
                        ) + matching_ids(devices@, k as int, pv[m as int], gamepads_only),
                        forall|j: int|
                            0 <= j < out@.len() ==> ids_declared(pv, (#[trigger] out@[j].1, out@[j].2)),
                        forall|j: int|
                            0 <= j < out@.len() ==> from_device(devices@, (#[trigger] out@[j]).0, (out@[j].1, out@[j].2)),
                    decreases devices@.len() - k,
                {
                    let d = &devices[k];
                    if (!gamepads_only || d.is_gamepad) && match_id(
                        pairs[m].0.as_str(),
                        pairs[m].1.as_str(),
                        d.vendor,
                        d.product,
                    ) {
                        let ghost prev = out@;
                        out.push((d.instance_id, d.vendor, d.product));
                        proof {
                            assert(pv[m as int] == (hex4(d.vendor), hex4(d.product)));
                            assert(out@.map_values(|c: (i32, u16, u16)| c.0) =~= prev.map_values(
                                |c: (i32, u16, u16)| c.0,
                            ).push(d.instance_id));
                            assert forall|j: int| 0 <= j < out@.len() implies ids_declared(
                                pv,
                                (#[trigger] out@[j].1, out@[j].2),
                            ) by {
                                if j < prev.len() {
                                    assert(out@[j] == prev[j]);
                                } else {
                                    assert(pv[m as int] == (hex4(out@[j].1), hex4(out@[j].2)));
                                }
                            }
                            assert forall|j: int| 0 <= j < out@.len() implies from_device(
                                devices@,
                                (#[trigger] out@[j]).0,
                                (out@[j].1, out@[j].2),
                            ) by {
                                if j < prev.len() {
                                    assert(out@[j] == prev[j]);
                                } else {
                                    assert(devices@[k as int].instance_id == out@[j].0);
                                }
                            }
                        }
                    }
                    k = k + 1;
                }
                m = m + 1;
            }
        } else {
            let mut k: usize = 0;
            while k < devices.len()
                invariant
                    k <= devices@.len(),
                    pairs@.len() == 0,
                    out@.map_values(|c: (i32, u16, u16)| c.0) == first_of_kind(
                        devices@,
                        k as int,
                        gamepads_only,
                    ),
                    forall|j: int|
                        0 <= j < out@.len() ==> from_device(devices@, (#[trigger] out@[j]).0, (out@[j].1, out@[j].2)),
                decreases devices@.len() - k,
            {
                if out.len() == 0 && (!gamepads_only || devices[k].is_gamepad) {
                    let d = &devices[k];
                    out.push((d.instance_id, d.vendor, d.product));
                    assert(out@.map_values(|c: (i32, u16, u16)| c.0) =~= seq![d.instance_id]);
                    assert(devices@[k as int].instance_id == out@[0].0);
                }
                k = k + 1;
            }
        }
        let r = OpenAttempts { candidates: out, tried: 0, pairs: Ghost(pv) };
        proof {
            assert forall|k: int| 0 <= k < r.ids().len() implies #[trigger] from_device(
                devices@,
                r.ids()[k],
                r.hw_ids()[k],
            ) by {
                assert(from_device(devices@, out@[k].0, (out@[k].1, out@[k].2)));
            }
        }
        r
    }

    /// The next device to try, or `None` when all have been handed out.
    pub fn next(&mut self) -> (r: Option<i32>)
        ensures
            final(self).pairs() == old(self).pairs(),
            final(self).ids() == old(self).ids(),
            final(self).hw_ids() == old(self).hw_ids(),
            r is Some ==> final(self).last_ids() == Some(old(self).hw_ids()[old(self).tried() as int]),
            old(self).tried() < old(self).ids().len() ==> r == Some(old(self).ids()[old(self).tried() as int])
                && final(self).tried() == old(self).tried() + 1,
            old(self).tried() >= old(self).ids().len() ==> r is None && final(self).tried()
                == old(self).tried(),
    {
        proof {
            use_type_invariant(&*self);
        }
        if self.tried < self.candidates.len() {
            let id = self.candidates[self.tried].0;
            self.tried = self.tried + 1;
            Some(id)
        } else {
            None
        }
    }

    /// The (vendor, product) of the device handed out last; with declared
    /// pairs, they are one of them.
    pub fn last_device_ids(&self) -> (r: Option<(u16, u16)>)
        ensures
            r == self.last_ids(),
            self.pairs().len() > 0 && r is Some ==> ids_declared(self.pairs(), r.unwrap()),
    {
        proof {
            use_type_invariant(self);
            if self.tried > 0 {
                let k = self.tried - 1;
                assert(self.pairs@.len() > 0 ==> ids_declared(
                    self.pairs@,
                    (self.candidates@[k as int].1, self.candidates@[k as int].2),
                ));
            }
        }
        if self.tried == 0 {
            None
        } else {
            Some((self.candidates[self.tried - 1].1, self.candidates[self.tried - 1].2))
        }
    }
}

/// Strict hardware matching: every device that is tried for a profile is
/// one whose vendor and product id are, as four hex digits, one of the
/// profile's declared pairs (and a gamepad, when only gamepads are wanted).
/// A profile never falls through to another controller.
pub proof fn lemma_candidates_are_declared(
    devices: Seq<GamepadDeviceInfo>,
    pairs: Seq<(Seq<char>, Seq<char>)>,
    m: int,
    gamepads_only: bool,
    k: int,
)
    requires
        0 <= m <= pairs.len(),
        0 <= k < candidates(devices, pairs, m, gamepads_only).len(),
    ensures
        exists|d: int, q: int|
            0 <= d < devices.len() && 0 <= q < m && device_matches(
                #[trigger] devices[d],
                #[trigger] pairs[q],
                gamepads_only,
            ) && devices[d].instance_id == candidates(devices, pairs, m, gamepads_only)[k],
    decreases m,
{
    let prev = candidates(devices, pairs, m - 1, gamepads_only);
    if k < prev.len() {
        lemma_candidates_are_declared(devices, pairs, m - 1, gamepads_only, k);
        let (d, q) = choose|d: int, q: int|
            0 <= d < devices.len() && 0 <= q < m - 1 && device_matches(
                #[trigger] devices[d],
                #[trigger] pairs[q],
                gamepads_only,
            ) && devices[d].instance_id == prev[k];
        assert(device_matches(devices[d], pairs[q], gamepads_only));
    } else {
        lemma_matching_ids_match(devices, devices.len() as int, pairs[m - 1], gamepads_only, k - prev.len());
        let d = choose|d: int|
            0 <= d < devices.len() && device_matches(#[trigger] devices[d], pairs[m - 1], gamepads_only)
                && devices[d].instance_id == matching_ids(
                devices,
                devices.len() as int,
                pairs[m - 1],
                gamepads_only,
            )[k - prev.len()];
        assert(device_matches(devices[d], pairs[m - 1], gamepads_only));
    }
}

/// Strict hardware matching for a profile: when the pairs tried are the
/// profile's own (as `hardware_id_pairs` gives them), every device tried is
/// one whose vendor and product id form a pair that the profile declares,
/// at `[controller]` level or in one of its modes. Loading
/// a profile never reads from a controller that it does not name.
pub proof fn lemma_profile_reads_only_declared_hardware(
    info: ControllerInfo,
    modes: Seq<ModeDef>,
    pairs: Seq<(Seq<char>, Seq<char>)>,
    devices: Seq<GamepadDeviceInfo>,
    gamepads_only: bool,
    k: int,
)
    requires
        forall|q: int| 0 <= q < pairs.len() ==> profile_declares(info, modes, #[trigger] pairs[q]),
        0 <= k < candidates(devices, pairs, pairs.len() as int, gamepads_only).len(),
    ensures
        exists|d: int|
            0 <= d < devices.len() && devices[d].instance_id == candidates(
                devices,
                pairs,
                pairs.len() as int,
                gamepads_only,
            )[k] && (!gamepads_only || devices[d].is_gamepad) && profile_declares(
                info,
                modes,
                (hex4(#[trigger] devices[d].vendor), hex4(devices[d].product)),
            ),
{
    lemma_candidates_are_declared(devices, pairs, pairs.len() as int, gamepads_only, k);
    let (d, q) = choose|d: int, q: int|
        0 <= d < devices.len() && 0 <= q < pairs.len() && device_matches(
            #[trigger] devices[d],
            #[trigger] pairs[q],
            gamepads_only,
        ) && devices[d].instance_id == candidates(devices, pairs, pairs.len() as int, gamepads_only)[k];
    assert(profile_declares(info, modes, pairs[q]));
    assert(pairs[q] == (hex4(devices[d].vendor), hex4(devices[d].product)));
}

proof fn lemma_matching_ids_match(
    devices: Seq<GamepadDeviceInfo>,
    n: int,
    pair: (Seq<char>, Seq<char>),
    gamepads_only: bool,
    k: int,
)
    requires
        0 <= n <= devices.len(),
        0 <= k < matching_ids(devices, n, pair, gamepads_only).len(),
    ensures
        exists|d: int|
            0 <= d < n && device_matches(#[trigger] devices[d], pair, gamepads_only)
                && devices[d].instance_id == matching_ids(devices, n, pair, gamepads_only)[k],
    decreases n,
{
    let rest = matching_ids(devices, n - 1, pair, gamepads_only);
    if k < rest.len() {
        lemma_matching_ids_match(devices, n - 1, pair, gamepads_only, k);
        let d = choose|d: int|
            0 <= d < n - 1 && device_matches(#[trigger] devices[d], pair, gamepads_only)
                && devices[d].instance_id == rest[k];
        assert(device_matches(devices[d], pair, gamepads_only));
    } else {
        assert(device_matches(devices[n - 1], pair, gamepads_only));
    }
}

} // verus!
