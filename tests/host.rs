use vst3info::host::{
    add_ref_result, count_after_add_ref, count_after_release, host_name_buffer, release_outcome,
    ReleaseOutcome,
};

#[test]
fn reference_count_sequence_frees_once() {
    let mut count: u32 = 1;
    let mut frees = 0;
    let calls = [true, true, false, false, true, false, false, false, false];
    for add in calls {
        if add {
            match count_after_add_ref(count) {
                Some(n) => count = n,
                None => {}
            }
        } else {
            let update = match count_after_release(count) {
                Some(n) => {
                    let seen = count;
                    count = n;
                    Ok(seen)
                }
                None => Err(count),
            };
            if release_outcome(update).free {
                frees += 1;
            }
        }
    }
    assert_eq!(count, 0);
    assert_eq!(frees, 1);
}

#[test]
fn release_outcomes() {
    assert_eq!(release_outcome(Ok(1)), ReleaseOutcome { remaining: 0, free: true });
    assert_eq!(release_outcome(Ok(3)), ReleaseOutcome { remaining: 2, free: false });
    assert_eq!(release_outcome(Err(0)), ReleaseOutcome { remaining: 0, free: false });
    assert_eq!(release_outcome(Ok(0)), ReleaseOutcome { remaining: 0, free: false });
}

#[test]
fn add_ref_results() {
    assert_eq!(add_ref_result(Ok(1)), 2);
    assert_eq!(add_ref_result(Err(0)), 0);
    assert_eq!(add_ref_result(Ok(u32::MAX)), u32::MAX);
    assert_eq!(count_after_add_ref(0), None);
    assert_eq!(count_after_add_ref(u32::MAX), None);
    assert_eq!(count_after_release(0), None);
}

#[test]
fn host_name_is_terminated_utf16() {
    let expected: Vec<u16> = "RustHost".encode_utf16().chain(std::iter::once(0)).collect();
    assert_eq!(host_name_buffer(), expected);
}

#[test]
fn releases_from_k_return_each_lower_count_once() {
    let k: u32 = 4;
    let mut count = k;
    let mut returned = Vec::new();
    let mut frees = 0;
    for _ in 0..k {
        let update = match count_after_release(count) {
            Some(n) => {
                let seen = count;
                count = n;
                Ok(seen)
            }
            None => Err(count),
        };
        let outcome = release_outcome(update);
        returned.push(outcome.remaining);
        if outcome.free {
            frees += 1;
        }
    }
    assert_eq!(returned, vec![3, 2, 1, 0]);
    assert_eq!(frees, 1);
}
