//! Round-robin selection: cyclic order, fairness, and draw uniqueness under
//! concurrent draws from an atomic audit counter.
use rrproxy::RoundRobin;
use rrproxy::rr_index;
use std::sync::Arc;
use std::sync::atomic::AtomicUsize;
use std::sync::atomic::Ordering;

#[test]
fn rr_index_reduces_modulo_pool_len() {
    assert_eq!(rr_index(0, 3), 0);
    assert_eq!(rr_index(1, 3), 1);
    assert_eq!(rr_index(2, 3), 2);
    assert_eq!(rr_index(3, 3), 0);
    assert_eq!(rr_index(7, 3), 1);
    assert_eq!(rr_index(5, 1), 0);
}

#[test]
fn cursor_cycles_in_order_from_zero() {
    let mut rr = RoundRobin::new();
    let mut seen = Vec::new();
    for _ in 0..6 {
        seen.push(rr.next(3));
    }
    assert_eq!(seen, vec![0, 1, 2, 0, 1, 2]);
}

#[test]
fn fairness_each_index_selected_m_over_n_times() {
    // Pool of size 3, 12 sequential draws: each index exactly 12 / 3 times.
    let mut rr = RoundRobin::new();
    let mut counts = [0usize; 3];
    for _ in 0..12 {
        counts[rr.next(3)] += 1;
    }
    assert_eq!(counts, [4, 4, 4]);
}

#[test]
fn concurrent_draws_are_unique_and_unskipped() {
    // 32 concurrent forward calls against a pool of 4: exactly 32 draws,
    // no duplicate and no skipped sequence position, audited by an atomic
    // counter; each index is assigned 32 / 4 times.
    let runtime = tokio::runtime::Builder::new_multi_thread()
        .worker_threads(4)
        .build()
        .unwrap();
    let counter = Arc::new(AtomicUsize::new(0));
    let draws = runtime.block_on(async {
        let mut handles = Vec::new();
        for _ in 0..32 {
            let counter = Arc::clone(&counter);
            handles.push(tokio::spawn(async move {
                let draw = counter.fetch_add(1, Ordering::SeqCst);
                (draw, rr_index(draw, 4))
            }));
        }
        let mut draws = Vec::new();
        for h in handles {
            draws.push(h.await.unwrap());
        }
        draws
    });
    assert_eq!(draws.len(), 32);
    let mut seen = [false; 32];
    let mut counts = [0usize; 4];
    for (draw, idx) in draws {
        assert!(draw < 32, "a sequence position was skipped or invented");
        assert!(!seen[draw], "two calls observed the same draw");
        seen[draw] = true;
        assert_eq!(idx, draw % 4);
        counts[idx] += 1;
    }
    assert!(seen.iter().all(|s| *s));
    assert_eq!(counts, [8, 8, 8, 8]);
}
