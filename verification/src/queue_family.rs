//! Queue family lookup: which queue family of a physical device serves a
//! given kind of work.
use vstd::prelude::*;
use crate::error::{AppError, AppErrorView};

verus! {

/// The queue family chosen for each kind of work the application submits.
#[derive(Debug, Clone, Copy, PartialEq, Eq)]
pub struct QueueFamilyIndices {
    pub graphics: u32,
    pub compute: u32,
    pub transfer: u32,
    pub sparsebind: u32,
}

/// A queue family whose flags are `family` supports every bit of `flag`
/// (the body of `QueueFlags::contains`).
pub open spec fn family_supports(family: u32, flag: u32) -> bool {
    family & flag == flag
}

/// Some queue family in `families` supports `flag`.
pub open spec fn has_supporting(families: Seq<u32>, flag: u32) -> bool {
    exists|i: int| 0 <= i < families.len() && family_supports(#[trigger] families[i], flag)
}

/// `i` is the first position in `families` of a family that supports `flag`.
pub open spec fn is_first_supporting(families: Seq<u32>, flag: u32, i: int) -> bool {
    &&& 0 <= i < families.len()
    &&& family_supports(families[i], flag)
    &&& forall|j: int| 0 <= j < i ==> !family_supports(#[trigger] families[j], flag)
}

/// The first position in `families` of a family that supports `flag`
/// (meaningful when [`has_supporting`] holds).
pub open spec fn first_supporting(families: Seq<u32>, flag: u32) -> int {
    choose|i: int| is_first_supporting(families, flag, i)
}

/// The binary digits of `n`, most significant first, without leading zeros.
pub open spec fn binary_digits(n: nat) -> Seq<char>
    decreases n,
{
    if n < 2 {
        seq![if n == 0 { '0' } else { '1' }]
    } else {
        binary_digits(n / 2).push(if n % 2 == 0 { '0' } else { '1' })
    }
}

/// The message reported when no queue family supports `flag`; the flag is
/// written the way `{:#b}` writes it.
pub open spec fn missing_queue_family_message(flag: u32, name: Seq<char>) -> Seq<char> {
    "doesn't support required queue family: "@ + "0b"@ + binary_digits(flag as nat) + " ("@ + name
        + ")"@
}

/// What [`get_flag`] returns for `families`, `flag` and `name`.
pub open spec fn spec_get_flag(families: Seq<u32>, flag: u32, name: Seq<char>) -> Result<
    u32,
    AppErrorView,
> {
    if has_supporting(families, flag) {
        Ok(first_supporting(families, flag) as u32)
    } else {
        Err(AppErrorView::Hardware(missing_queue_family_message(flag, name)))
    }
}

/// Two first positions of the same flag coincide.
proof fn lemma_first_supporting_unique(families: Seq<u32>, flag: u32, i: int, k: int)
    requires
        is_first_supporting(families, flag, i),
        is_first_supporting(families, flag, k),
    ensures
        i == k,
{
    if i < k {
        assert(!family_supports(families[i], flag));
    } else if k < i {
        assert(!family_supports(families[k], flag));
    }
}

/// Once a first supporting position exists, [`first_supporting`] names it.
pub proof fn lemma_first_supporting_is(families: Seq<u32>, flag: u32, i: int)
    requires
        is_first_supporting(families, flag, i),
    ensures
        first_supporting(families, flag) == i,
        has_supporting(families, flag),
{
    let k = first_supporting(families, flag);
    lemma_first_supporting_unique(families, flag, i, k);
    assert(family_supports(families[i], flag));
}

/// When some family supports `flag`, a first one does, and
/// [`first_supporting`] names it.
pub proof fn lemma_first_supporting_exists(families: Seq<u32>, flag: u32)
    requires
        has_supporting(families, flag),
    ensures
        is_first_supporting(families, flag, first_supporting(families, flag)),
{
    let k = choose|k: int| 0 <= k < families.len() && family_supports(#[trigger] families[k], flag);
    lemma_first_below(families, flag, k);
}

/// Below any supporting position there is a first one.
proof fn lemma_first_below(families: Seq<u32>, flag: u32, k: int)
    requires
        0 <= k < families.len(),
        family_supports(families[k], flag),
    ensures
        is_first_supporting(families, flag, first_supporting(families, flag)),
    decreases k,
{
    if forall|j: int| 0 <= j < k ==> !family_supports(#[trigger] families[j], flag) {
        lemma_first_supporting_is(families, flag, k);
    } else {
        let j = choose|j: int| 0 <= j < k && family_supports(#[trigger] families[j], flag);
        lemma_first_below(families, flag, j);
    }
}

/// Appending queue families never changes a found index: when `v` has a
/// family that supports `flag`, the lookup in `v + w` gives what the lookup
/// in `v` gives. When `v` has none, the lookup in `v + w` finds a family
/// exactly when the lookup in `w` does, at its position shifted by the length
/// of `v`, and otherwise reports the same error as the lookup in `w`.
pub proof fn lemma_get_flag_append(v: Seq<u32>, w: Seq<u32>, flag: u32, name: Seq<char>)
    ensures
        has_supporting(v, flag) ==> spec_get_flag(v + w, flag, name) == spec_get_flag(v, flag, name),
        !has_supporting(v, flag) ==> (has_supporting(v + w, flag) <==> has_supporting(w, flag)),
        !has_supporting(v, flag) && has_supporting(w, flag) ==> first_supporting(v + w, flag)
            == v.len() + first_supporting(w, flag),
        !has_supporting(v, flag) && has_supporting(w, flag) && v.len() + w.len() <= u32::MAX
            ==> spec_get_flag(v + w, flag, name) == Ok::<u32, AppErrorView>(
            (first_supporting(w, flag) as u32 + v.len() as u32) as u32,
        ),
        !has_supporting(v, flag) && !has_supporting(w, flag) ==> spec_get_flag(v + w, flag, name)
            == spec_get_flag(w, flag, name),
{
    let u = v + w;
    if has_supporting(v, flag) {
        lemma_first_supporting_exists(v, flag);
        let i = first_supporting(v, flag);
        assert(u[i] == v[i]);
        assert forall|j: int| 0 <= j < i implies !family_supports(#[trigger] u[j], flag) by {
            assert(u[j] == v[j]);
        }
        lemma_first_supporting_is(u, flag, i);
    } else {
        if has_supporting(w, flag) {
            lemma_first_supporting_exists(w, flag);
            let j = first_supporting(w, flag);
            let k = v.len() + j;
            assert(u[k] == w[j]);
            assert forall|m: int| 0 <= m < k implies !family_supports(#[trigger] u[m], flag) by {
                if m < v.len() {
                    assert(u[m] == v[m]);
                } else {
                    assert(u[m] == w[m - v.len()]);
                }
            }
            lemma_first_supporting_is(u, flag, k);
        }
        if has_supporting(u, flag) {
            let m = choose|m: int| 0 <= m < u.len() && family_supports(#[trigger] u[m], flag);
            if m < v.len() {
                assert(u[m] == v[m]);
            } else {
                assert(u[m] == w[m - v.len()]);
                assert(family_supports(w[m - v.len()], flag));
            }
        }
    }
}

/// The lookup finds a family exactly when some family supports the flag, and
/// the index it gives is the first family whose flags contain every bit of
/// the flag (on lists whose positions fit in a `u32`); both message styles
/// agree on this.
pub proof fn lemma_get_flag_finds_first(families: Seq<u32>, flag: u32, name: Seq<char>)
    requires
        families.len() <= u32::MAX,
    ensures
        spec_get_flag(families, flag, name) is Ok <==> has_supporting(families, flag),
        spec_get_flag(families, flag, name) matches Ok(i) ==> is_first_supporting(
            families,
            flag,
            i as int,
        ),
        spec_get_flag_brief(families, flag) is Ok <==> has_supporting(families, flag),
        spec_get_flag_brief(families, flag) matches Ok(i) ==> is_first_supporting(
            families,
            flag,
            i as int,
        ),
        spec_get_flag(families, flag, name) is Err ==> forall|j: int|
            0 <= j < families.len() ==> !family_supports(#[trigger] families[j], flag),
{
    if has_supporting(families, flag) {
        lemma_first_supporting_exists(families, flag);
        let k = first_supporting(families, flag);
        assert(0 <= k < families.len());
        assert((k as u32) as int == k);
    }
}

/// The number that binary digits stand for.
pub open spec fn binary_value(digits: Seq<char>) -> nat
    decreases digits.len(),
{
    if digits.len() == 0 {
        0
    } else {
        2 * binary_value(digits.drop_last()) + if digits.last() == '1' { 1nat } else { 0nat }
    }
}

/// The binary digits of `n` are only `0` and `1`, stand for `n`, and begin
/// with `1` unless `n` is zero (then they are the single digit `0`).
pub proof fn lemma_binary_digits_meaning(n: nat)
    ensures
        binary_value(binary_digits(n)) == n,
        binary_digits(n).len() >= 1,
        forall|i: int|
            0 <= i < binary_digits(n).len() ==> #[trigger] binary_digits(n)[i] == '0'
                || binary_digits(n)[i] == '1',
        n == 0 <==> binary_digits(n) == seq!['0'],
        n > 0 ==> binary_digits(n)[0] == '1',
    decreases n,
{
    let d = binary_digits(n);
    if n >= 2 {
        lemma_binary_digits_meaning(n / 2);
        let prefix = binary_digits(n / 2);
        let c = if n % 2 == 0 { '0' } else { '1' };
        assert(d == prefix.push(c));
        assert(d.drop_last() =~= prefix);
        assert(d.last() == c);
        assert(binary_value(d) == 2 * binary_value(prefix) + if c == '1' { 1nat } else { 0nat });
        assert(d[0] == prefix[0]);
        assert forall|i: int| 0 <= i < d.len() implies #[trigger] d[i] == '0' || d[i] == '1' by {
            if i < prefix.len() {
                assert(d[i] == prefix[i]);
            }
        }
        assert(d != seq!['0']) by {
            assert(d.len() >= 2);
        }
    } else {
        assert(d.drop_last() =~= Seq::<char>::empty());
        assert(binary_value(d.drop_last()) == 0);
    }
}

/// The binary digits of `n`, as `{:b}` writes them.
pub fn binary_digits_string(n: u32) -> (s: String)
    ensures
        s@ == binary_digits(n as nat),
        binary_value(s@) == n,
    decreases n,
{
    proof {
        lemma_binary_digits_meaning(n as nat);
    }
    if n < 2 {
        if n == 0 {
            let s = String::from_str("0");
            proof {
                reveal_strlit("0");
            }
            s
        } else {
            let s = String::from_str("1");
            proof {
                reveal_strlit("1");
            }
            s
        }
    } else {
        let mut s = binary_digits_string(n / 2);
        if n % 2 == 0 {
            s.append("0");
            proof {
                reveal_strlit("0");
            }
        } else {
            s.append("1");
            proof {
                reveal_strlit("1");
            }
        }
        s
    }
}

/// The message reported when no queue family supports `flag`.
pub fn missing_queue_family_error(flag: u32, name: &str) -> (e: AppError)
    ensures
        e@ == AppErrorView::Hardware(missing_queue_family_message(flag, name@)),
{
    let mut m = String::from_str("doesn't support required queue family: ");
    m.append("0b");
    let digits = binary_digits_string(flag);
    m.append(digits.as_str());
    m.append(" (");
    m.append(name);
    m.append(")");
    AppError::Hardware(m)
}

/// The position, as a `u32`, of the first queue family in `families` whose
/// flags contain every bit of `flag`, if there is one.
pub fn find_queue_family(families: &Vec<u32>, flag: u32) -> (r: Option<u32>)
    ensures
        r == (if has_supporting(families@, flag) {
            Some(first_supporting(families@, flag) as u32)
        } else {
            None
        }),
{
    let mut i: usize = 0;
    while i < families.len()
        invariant
            i <= families.len(),
            forall|j: int| 0 <= j < i ==> !family_supports(#[trigger] families@[j], flag),
        decreases families.len() - i,
    {
        if (families[i] & flag) == flag {
            proof {
                lemma_first_supporting_is(families@, flag, i as int);
            }
            return Some(i as u32);
        }
        i += 1;
    }
    None
}

/// The index of the first queue family in `families` whose flags contain
/// every bit of `flag`; `name` names the flag in the error reported when no
/// family does.
pub fn get_flag(families: &Vec<u32>, flag: u32, name: &str) -> (r: Result<u32, AppError>)
    ensures
        crate::error::result_view(r) == spec_get_flag(families@, flag, name@),
        r is Ok <==> has_supporting(families@, flag),
        families@.len() <= u32::MAX ==> (r matches Ok(i) ==> is_first_supporting(
            families@,
            flag,
            i as int,
        )),
{
    proof {
        if families@.len() <= u32::MAX {
            lemma_get_flag_finds_first(families@, flag, name@);
        }
    }
    match find_queue_family(families, flag) {
        Some(i) => Ok(i),
        None => Err(missing_queue_family_error(flag, name)),
    }
}

/// The message reported by [`get_flag_brief`] when no queue family supports
/// a flag written `flag_text`.
pub open spec fn missing_queue_families_message(flag_text: Seq<char>) -> Seq<char> {
    "Does not support required queue families: "@ + flag_text
}

/// What [`get_flag_brief`] returns for `families` and `flag`.
pub open spec fn spec_get_flag_brief(families: Seq<u32>, flag: u32) -> Result<u32, AppErrorView> {
    if has_supporting(families, flag) {
        Ok(first_supporting(families, flag) as u32)
    } else {
        Err(
            AppErrorView::Hardware(
                missing_queue_families_message(crate::vkfacts::queue_flags_debug_text(flag)),
            ),
        )
    }
}

/// The error reported by [`get_flag_brief`] for a flag written `flag_text`.
pub fn missing_queue_families_error(flag_text: &str) -> (e: AppError)
    ensures
        e@ == AppErrorView::Hardware(missing_queue_families_message(flag_text@)),
{
    let mut m = String::from_str("Does not support required queue families: ");
    m.append(flag_text);
    AppError::Hardware(m)
}

/// The index of the first queue family in `families` whose flags contain
/// every bit of `flag`; the error names the flag as its `Debug` text.
pub fn get_flag_brief(families: &Vec<u32>, flag: u32) -> (r: Result<u32, AppError>)
    ensures
        crate::error::result_view(r) == spec_get_flag_brief(families@, flag),
{
    match find_queue_family(families, flag) {
        Some(i) => Ok(i),
        None => {
            let text = crate::vkfacts::format_queue_flags(flag);
            Err(missing_queue_families_error(text.as_str()))
        },
    }
}

} // verus!
