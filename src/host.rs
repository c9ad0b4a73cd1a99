//! The decisions of the host callback object that the plugin calls back into:
//! how its reference count moves, when its state is freed, and the name it
//! reports.
//!
//! The count itself lives in an atomic cell outside this module; each update
//! is one compare-and-swap loop whose new value comes from
//! [`count_after_add_ref`] or [`count_after_release`], so the updates of all
//! threads form one sequence of the steps below.
use vstd::prelude::*;
use crate::text::{encode_utf16, utf16_units_of};

verus! {

/// The most UTF-16 code units a host name buffer holds, terminator included.
pub const NAME_CAPACITY: usize = 128;

/// The count after an `addRef` that sees `current`. A count of zero means the
/// object is gone and is never raised again; the largest count is never passed.
pub open spec fn add_ref_step(current: u32) -> Option<u32> {
    if current == 0 || current == u32::MAX {
        None
    } else {
        Some((current + 1) as u32)
    }
}

/// The count after a `release` that sees `current`; a count of zero is never lowered.
pub open spec fn release_step(current: u32) -> Option<u32> {
    if current == 0 {
        None
    } else {
        Some((current - 1) as u32)
    }
}

pub fn count_after_add_ref(current: u32) -> (r: Option<u32>)
    ensures
        r == add_ref_step(current),
{
    if current == 0 || current == u32::MAX {
        None
    } else {
        Some(current + 1)
    }
}

pub fn count_after_release(current: u32) -> (r: Option<u32>)
    ensures
        r == release_step(current),
{
    if current == 0 {
        None
    } else {
        Some(current - 1)
    }
}

/// What `addRef` returns, given what the atomic update gave back: the count
/// it saw and raised, or the count it saw and left alone.
pub fn add_ref_result(update: Result<u32, u32>) -> (r: u32)
    ensures
        r == match update {
            Ok(c) => match add_ref_step(c) {
                Some(n) => n,
                None => c,
            },
            Err(c) => c,
        },
{
    match update {
        Ok(c) => match count_after_add_ref(c) {
            Some(n) => n,
            None => c,
        },
        Err(c) => c,
    }
}

/// What a `release` leads to.
#[derive(Debug, Clone, Copy, PartialEq, Eq, Structural)]
pub struct ReleaseOutcome {
    /// The count that `release` returns.
    pub remaining: u32,
    /// The object's state is to be freed now.
    pub free: bool,
}

/// The outcome of a `release`, given what the atomic update gave back: the
/// count it saw and lowered, or the count it saw and left alone. The state is
/// freed exactly when the count went from one to zero.
pub open spec fn outcome_of_release(update: Result<u32, u32>) -> ReleaseOutcome {
    match update {
        Ok(c) => match release_step(c) {
            Some(n) => ReleaseOutcome { remaining: n, free: c == 1 },
            None => ReleaseOutcome { remaining: c, free: false },
        },
        Err(c) => ReleaseOutcome { remaining: c, free: false },
    }
}

pub fn release_outcome(update: Result<u32, u32>) -> (r: ReleaseOutcome)
    ensures
        r == outcome_of_release(update),
{
    match update {
        Ok(c) => match count_after_release(c) {
            Some(n) => ReleaseOutcome { remaining: n, free: c == 1 },
            None => ReleaseOutcome { remaining: c, free: false },
        },
        Err(c) => ReleaseOutcome { remaining: c, free: false },
    }
}

/// The outcomes of `n` releases that take effect one after another on an
/// object whose count is `count`, each seeing the count the one before left.
pub open spec fn outcomes_of_releases(count: u32, n: nat) -> Seq<ReleaseOutcome>
    decreases n,
{
    if n == 0 {
        Seq::empty()
    } else {
        let o = outcome_of_release(Ok(count));
        seq![o] + outcomes_of_releases(o.remaining, (n - 1) as nat)
    }
}

/// However the threads that make them interleave, `k` releases of an object
/// whose count is `k` take effect one after another through the atomic
/// update, and return `k - 1`, `k - 2`, ..., `0` in that order: each value
/// once. Only the last of them, the one that returns zero, frees the state.
pub proof fn lemma_releases_count_down(k: u32)
    ensures
        outcomes_of_releases(k, k as nat).len() == k,
        forall|i: int|
            0 <= i < k ==> (#[trigger] outcomes_of_releases(k, k as nat)[i]).remaining == k - 1 - i
                && outcomes_of_releases(k, k as nat)[i].free == (i == k - 1),
    decreases k,
{
    if k > 0 {
        let rest = outcomes_of_releases((k - 1) as u32, (k - 1) as nat);
        lemma_releases_count_down((k - 1) as u32);
        assert(outcomes_of_releases(k, k as nat) == seq![outcome_of_release(Ok(k))] + rest);
        assert forall|i: int| 0 <= i < k implies (#[trigger] outcomes_of_releases(k, k as nat)[i]).remaining
            == k - 1 - i && outcomes_of_releases(k, k as nat)[i].free == (i == k - 1) by {
            if i > 0 {
                assert(outcomes_of_releases(k, k as nat)[i] == rest[i - 1]);
            }
        }
    }
}

/// A call the plugin makes on the object's count.
#[derive(Debug, Clone, Copy, PartialEq, Eq, Structural)]
pub enum RefCall {
    AddRef,
    Release,
}

/// The count after a sequence of calls on an object created with a count of one.
pub open spec fn count_after(calls: Seq<RefCall>) -> u32
    decreases calls.len(),
{
    if calls.len() == 0 {
        1
    } else {
        let before = count_after(calls.drop_last());
        let step = match calls.last() {
            RefCall::AddRef => add_ref_step(before),
            RefCall::Release => release_step(before),
        };
        match step {
            Some(c) => c,
            None => before,
        }
    }
}

/// How many of the calls freed the object's state.
pub open spec fn frees_in(calls: Seq<RefCall>) -> nat
    decreases calls.len(),
{
    if calls.len() == 0 {
        0
    } else {
        let before = count_after(calls.drop_last());
        frees_in(calls.drop_last()) + if calls.last() == RefCall::Release && before == 1 {
            1nat
        } else {
            0nat
        }
    }
}

pub open spec fn add_refs(calls: Seq<RefCall>) -> int {
    calls.filter(|c: RefCall| c == RefCall::AddRef).len() as int
}

pub open spec fn releases(calls: Seq<RefCall>) -> int {
    calls.filter(|c: RefCall| c == RefCall::Release).len() as int
}

/// The calls never release more references than were taken: after every
/// proper prefix, one more than the `addRef` calls exceeds the `release` calls.
pub open spec fn stays_held(calls: Seq<RefCall>) -> bool {
    forall|n: int| 0 <= n < calls.len() ==> releases(#[trigger] calls.take(n)) < 1 + add_refs(calls.take(n))
}

/// Over any sequence of calls the object's state is freed at most once, and
/// it has been freed exactly when the count is zero. Where the calls never
/// release more than was taken and the count stays in range, the count is one
/// more than the `addRef` calls less the `release` calls, and never negative.
pub proof fn lemma_reference_count(calls: Seq<RefCall>)
    ensures
        frees_in(calls) <= 1,
        frees_in(calls) == 1 <==> count_after(calls) == 0,
        stays_held(calls) && 1 + add_refs(calls) <= u32::MAX ==> count_after(calls) as int == 1
            + add_refs(calls) - releases(calls) && 1 + add_refs(calls) - releases(calls) >= 0,
    decreases calls.len(),
{
    if calls.len() > 0 {
        let init = calls.drop_last();
        lemma_reference_count(init);
        assert(calls == init.push(calls.last()));
        init.lemma_filter_push(calls.last(), |c: RefCall| c == RefCall::AddRef);
        init.lemma_filter_push(calls.last(), |c: RefCall| c == RefCall::Release);
        if stays_held(calls) {
            assert forall|n: int| 0 <= n < init.len() implies releases(#[trigger] init.take(n)) < 1
                + add_refs(init.take(n)) by {
                assert(init.take(n) == calls.take(n));
            }
            assert(calls.take(init.len() as int) == init);
        }
    }
}

/// The units written into a name buffer: the name's code units and a
/// terminating nul, cut at the buffer's capacity.
pub open spec fn name_buffer_units(units: Seq<u16>) -> Seq<u16> {
    let all = units.push(0u16);
    if all.len() <= NAME_CAPACITY {
        all
    } else {
        all.take(NAME_CAPACITY as int)
    }
}

/// The name the host reports.
pub open spec fn host_name() -> Seq<char> {
    "RustHost"@
}

/// The host name's buffer units: "RustHost" in UTF-16, then a nul.
pub proof fn lemma_host_name_units()
    ensures
        name_buffer_units(utf16_units_of(host_name())) == seq![
            82u16,
            117u16,
            115u16,
            116u16,
            72u16,
            111u16,
            115u16,
            116u16,
            0u16,
        ],
{
    reveal_strlit("RustHost");
    reveal_with_fuel(utf16_units_of, 9);
    let s = host_name();
    assert(s.len() == 8);
    assert(utf16_units_of(s) =~= seq![82u16, 117u16, 115u16, 116u16, 72u16, 111u16, 115u16, 116u16]) by {
        assert(s.drop_last().drop_last().drop_last().drop_last().drop_last().drop_last().drop_last().drop_last().len() == 0);
    }
    assert(name_buffer_units(utf16_units_of(s)) =~= seq![
        82u16,
        117u16,
        115u16,
        116u16,
        72u16,
        111u16,
        115u16,
        116u16,
        0u16,
    ]);
}

/// The units that `getName` writes into the plugin's buffer.
pub fn host_name_buffer() -> (r: Vec<u16>)
    ensures
        r@ == name_buffer_units(utf16_units_of(host_name())),
        r@.len() <= NAME_CAPACITY,
{
    let units = encode_utf16("RustHost");
    let mut out: Vec<u16> = Vec::new();
    let mut i: usize = 0;
    while i < units.len() && i < NAME_CAPACITY
        invariant
            i <= units@.len(),
            i <= NAME_CAPACITY,
            out@ == units@.take(i as int),
        decreases units@.len() - i,
    {
        out.push(units[i]);
        i = i + 1;
        assert(out@ =~= units@.take(i as int));
    }
    if out.len() < NAME_CAPACITY {
        out.push(0);
    }
    assert(out@ =~= name_buffer_units(units@));
    out
}

} // verus!
