use vstd::prelude::*;

verus! {

/// What `str::to_lowercase` returns for a string.
pub uninterp spec fn lower_of(s: Seq<char>) -> Seq<char>;

/// Relies on `str::to_lowercase`: its result depends on the characters alone.
#[verifier::external_body]
fn lowercase(s: &str) -> (r: String)
    ensures
        r@ == lower_of(s@),
{
    s.to_lowercase()
}

/// Name fragments (in lower case) by which the desk controllers advertise themselves.
pub const DESK_KEYWORD: &'static str = "desk";

/// See [`DESK_KEYWORD`].
pub const GATEWAY_KEYWORD: &'static str = "dpg";

/// See [`DESK_KEYWORD`].
pub const VENDOR_KEYWORD: &'static str = "linak";

/// A device seen during a scan.
#[derive(Debug, Clone)]
pub struct ObservedDevice {
    /// The device's hardware address.
    pub address: String,
    /// The name the device advertises, if it advertises a usable one.
    pub name: Option<String>,
}

/// `pat` occurs in `s` starting at position `i`.
pub open spec fn occurs_at(s: Seq<char>, pat: Seq<char>, i: int) -> bool {
    0 <= i && i + pat.len() <= s.len() && s.subrange(i, i + pat.len()) == pat
}

/// `pat` occurs somewhere in `s`.
pub open spec fn occurs_in(s: Seq<char>, pat: Seq<char>) -> bool {
    exists|i: int| #[trigger] occurs_at(s, pat, i)
}

/// A lower-case name holds one of the desk keywords.
pub open spec fn has_desk_keyword(lowered: Seq<char>) -> bool {
    occurs_in(lowered, DESK_KEYWORD@) || occurs_in(lowered, GATEWAY_KEYWORD@) || occurs_in(
        lowered,
        VENDOR_KEYWORD@,
    )
}

/// A name holds one of the desk keywords, compared without regard to case.
pub open spec fn desk_name(name: Seq<char>) -> bool {
    has_desk_keyword(lower_of(name))
}

/// An observed device is a desk candidate: it advertises a name that holds a
/// desk keyword.
pub open spec fn is_candidate(d: ObservedDevice) -> bool {
    match d.name {
        Some(n) => desk_name(n@),
        None => false,
    }
}

/// A device is a candidate and, when a target address is given, has that address.
pub open spec fn is_match(d: ObservedDevice, target: Option<Seq<char>>) -> bool {
    is_candidate(d) && match target {
        Some(t) => d.address@ == t,
        None => true,
    }
}

/// The first position at or after `i` whose device matches `target`.
pub open spec fn first_match_from(
    devs: Seq<ObservedDevice>,
    target: Option<Seq<char>>,
    i: nat,
) -> Option<nat>
    decreases devs.len() - i,
{
    if i >= devs.len() {
        None
    } else if is_match(devs[i as int], target) {
        Some(i)
    } else {
        first_match_from(devs, target, i + 1)
    }
}

/// The device that a connection picks: the first candidate with the target
/// address, or the first candidate when no target is given.
pub open spec fn selected(devs: Seq<ObservedDevice>, target: Option<Seq<char>>) -> Option<nat> {
    first_match_from(devs, target, 0)
}

/// The target address as a sequence of characters.
pub open spec fn target_view(target: Option<String>) -> Option<Seq<char>> {
    match target {
        Some(t) => Some(t@),
        None => None,
    }
}

/// Whether `pat` occurs in `s` at position `i`.
fn occurs_at_exec(s: &str, pat: &str, i: usize) -> (r: bool)
    requires
        i + pat@.len() <= s@.len(),
        s@.len() <= usize::MAX,
    ensures
        r == occurs_at(s@, pat@, i as int),
{
    let m = pat.unicode_len();
    let mut j: usize = 0;
    while j < m
        invariant
            m == pat@.len(),
            i + m <= s@.len(),
            s@.len() <= usize::MAX,
            j <= m,
            forall|k: int| 0 <= k < j ==> s@[i + k] == pat@[k],
        decreases m - j,
    {
        if s.get_char(i + j) != pat.get_char(j) {
            assert(s@.subrange(i as int, i + m)[j as int] != pat@[j as int]);
            return false;
        }
        j = j + 1;
    }
    assert(s@.subrange(i as int, i + m) =~= pat@);
    true
}

/// Whether `pat` occurs anywhere in `s`.
fn occurs_in_exec(s: &str, pat: &str) -> (r: bool)
    ensures
        r == occurs_in(s@, pat@),
{
    let n = s.unicode_len();
    let m = pat.unicode_len();
    if m > n {
        assert(forall|i: int| !#[trigger] occurs_at(s@, pat@, i));
        return false;
    }
    if m == 0 {
        assert(s@.subrange(0, 0) =~= pat@);
        assert(occurs_at(s@, pat@, 0));
        return true;
    }
    let mut i: usize = 0;
    while i <= n - m
        invariant
            n == s@.len(),
            m == pat@.len(),
            0 < m <= n,
            i <= n - m + 1,
            forall|k: int| 0 <= k < i ==> !#[trigger] occurs_at(s@, pat@, k),
        decreases n - m + 1 - i,
    {
        if occurs_at_exec(s, pat, i) {
            return true;
        }
        i = i + 1;
    }
    assert(forall|k: int| !#[trigger] occurs_at(s@, pat@, k));
    false
}

/// Whether an already lower-cased name holds one of the desk keywords.
pub fn matches_desk_keyword(lowered: &str) -> (r: bool)
    ensures
        r == has_desk_keyword(lowered@),
{
    occurs_in_exec(lowered, DESK_KEYWORD) || occurs_in_exec(lowered, GATEWAY_KEYWORD)
        || occurs_in_exec(lowered, VENDOR_KEYWORD)
}

/// Whether a name holds one of the desk keywords, without regard to case.
pub fn is_desk_name(name: &str) -> (r: bool)
    ensures
        r == desk_name(name@),
{
    let lowered = lowercase(name);
    matches_desk_keyword(lowered.as_str())
}

/// Whether an observed device is a desk candidate.
pub fn is_desk_candidate(device: &ObservedDevice) -> (r: bool)
    ensures
        r == is_candidate(*device),
{
    match &device.name {
        Some(n) => is_desk_name(n.as_str()),
        None => false,
    }
}

/// The desk candidates among the devices seen in a scan, as positions in
/// `devices`, in the order in which they were seen.
pub fn filter_desks(devices: &Vec<ObservedDevice>) -> (r: Vec<usize>)
    ensures
        forall|k: int| 0 <= k < r@.len() ==> r@[k] < devices@.len() && is_candidate(devices@[r@[k] as int]),
        forall|k1: int, k2: int| 0 <= k1 < k2 < r@.len() ==> r@[k1] < r@[k2],
        forall|i: int| 0 <= i < devices@.len() && is_candidate(#[trigger] devices@[i]) ==> r@.contains(i as usize),
{
    let mut r: Vec<usize> = Vec::new();
    let mut i: usize = 0;
    while i < devices.len()
        invariant
            i <= devices@.len(),
            forall|k: int| 0 <= k < r@.len() ==> r@[k] < i && is_candidate(devices@[r@[k] as int]),
            forall|k1: int, k2: int| 0 <= k1 < k2 < r@.len() ==> r@[k1] < r@[k2],
            forall|j: int| 0 <= j < i && is_candidate(#[trigger] devices@[j]) ==> r@.contains(j as usize),
        decreases devices@.len() - i,
    {
        if is_desk_candidate(&devices[i]) {
            let ghost old_r = r@;
            r.push(i);
            proof {
                assert(r@[r@.len() - 1] == i);
                assert forall|j: int|
                    0 <= j < i && is_candidate(#[trigger] devices@[j]) implies r@.contains(
                    j as usize,
                ) by {
                    let k = choose|k: int| 0 <= k < old_r.len() && old_r[k] == j as usize;
                    assert(r@[k] == old_r[k]);
                }
            }
        }
        i = i + 1;
    }
    r
}

/// The position of the device to connect to: the first candidate whose address
/// is `target`, or the first candidate when `target` is `None`.
pub fn select_candidate(devices: &Vec<ObservedDevice>, target: &Option<String>) -> (r: Option<usize>)
    ensures
        r == (match selected(devices@, target_view(*target)) {
            Some(i) => Some(i as usize),
            None => None,
        }),
{
    let mut i: usize = 0;
    while i < devices.len()
        invariant
            i <= devices@.len(),
            selected(devices@, target_view(*target)) == first_match_from(
                devices@,
                target_view(*target),
                i as nat,
            ),
        decreases devices@.len() - i,
    {
        let d = &devices[i];
        let hit = is_desk_candidate(d) && match target {
            Some(t) => d.address == *t,
            None => true,
        };
        if hit {
            return Some(i);
        }
        i = i + 1;
    }
    None
}

} // verus!
