use githubfetch::stars::page_star_sum;
use githubfetch::stars::StarAggregation;

#[test]
fn page_sum_is_exact() {
    assert_eq!(page_star_sum(&vec![5, 10, 20]), 35);
    assert_eq!(page_star_sum(&Vec::new()), 0);
}

#[test]
fn page_sum_saturates_at_the_maximum() {
    assert_eq!(page_star_sum(&vec![u64::MAX, 1]), u64::MAX);
    assert_eq!(page_star_sum(&vec![u64::MAX - 1, 1]), u64::MAX);
}

#[test]
fn three_pages_sum_after_exactly_three_requests() {
    let mut page1 = vec![1u64; 99];
    page1.push(51);
    assert_eq!(page1.len(), 100);
    let mut page2 = vec![0u64; 99];
    page2.push(100);
    assert_eq!(page2.len(), 100);
    let page3: Vec<u64> = Vec::new();
    let pages = vec![page1, page2, page3];

    let mut agg = StarAggregation::new();
    assert_eq!(agg.next_page, 1);
    let mut requests: u32 = 0;
    while !agg.done {
        let page = &pages[(agg.next_page - 1) as usize];
        requests += 1;
        agg.consume_page(page);
    }
    assert_eq!(requests, 3);
    assert_eq!(agg.total, 250);
    assert_eq!(agg.next_page, 3);
}

#[test]
fn empty_first_page_ends_the_walk_at_once() {
    let mut agg = StarAggregation::new();
    agg.consume_page(&Vec::new());
    assert!(agg.done);
    assert_eq!(agg.total, 0);
    assert_eq!(agg.next_page, 1);
}

#[test]
fn running_total_saturates() {
    let mut agg = StarAggregation::new();
    agg.consume_page(&vec![u64::MAX]);
    agg.consume_page(&vec![7]);
    assert_eq!(agg.total, u64::MAX);
    assert!(!agg.done);
    assert_eq!(agg.next_page, 3);
}
