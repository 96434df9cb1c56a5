use gyazo::{Lister, Step};

fn page(first: usize, len: usize) -> Vec<usize> {
    (first..first + len).collect()
}

fn fetch(lister: &mut Lister<usize>) -> u64 {
    match lister.next() {
        Step::Fetch(page) => page,
        Step::Yield(_) => panic!("an entity was handed out where a page was due"),
        Step::Done => panic!("the listing ended where a page was due"),
    }
}

fn drain(lister: &mut Lister<usize>, into: &mut Vec<usize>) {
    while !lister.awaits_page() {
        match lister.next() {
            Step::Yield(item) => into.push(item),
            Step::Done => break,
            Step::Fetch(_) => panic!("a page was asked for while entities were pending"),
        }
    }
}

#[test]
fn a_listing_starts_with_the_first_page() {
    let mut lister: Lister<usize> = Lister::new();
    assert_eq!(lister.page(), 1);
    assert_eq!(lister.received(), 0);
    assert!(lister.awaits_page());
    assert_eq!(fetch(&mut lister), 1);
    assert_eq!(fetch(&mut lister), 1);
}

#[test]
fn listing_250_entities_takes_3_pages() {
    let mut lister: Lister<usize> = Lister::new();
    let mut fetched = Vec::new();
    let mut yielded = Vec::new();
    let served = [page(0, 100), page(100, 100), page(200, 50)];
    let mut done = false;
    for _ in 0..1000 {
        match lister.next() {
            Step::Fetch(number) => {
                fetched.push(number);
                lister.page_received(served[number as usize - 1].clone(), 250);
            }
            Step::Yield(item) => yielded.push(item),
            Step::Done => {
                done = true;
                break;
            }
        }
    }
    assert!(done);
    assert_eq!(fetched, vec![1, 2, 3]);
    assert_eq!(yielded, page(0, 250));
    assert_eq!(lister.received(), 250);
    assert!(matches!(lister.next(), Step::Done));
}

#[test]
fn stopping_early_asks_for_no_second_page() {
    let mut lister: Lister<usize> = Lister::new();
    assert_eq!(fetch(&mut lister), 1);
    lister.page_received(page(0, 100), 250);
    let mut taken = Vec::new();
    for _ in 0..5 {
        match lister.next() {
            Step::Yield(item) => taken.push(item),
            _ => panic!("expected an entity"),
        }
    }
    assert_eq!(taken, vec![0, 1, 2, 3, 4]);
    assert!(!lister.awaits_page());
}

#[test]
fn the_next_page_is_due_only_after_the_last_entity() {
    let mut lister: Lister<usize> = Lister::new();
    fetch(&mut lister);
    lister.page_received(page(0, 3), 10);
    assert!(matches!(lister.next(), Step::Yield(0)));
    assert!(matches!(lister.next(), Step::Yield(1)));
    assert!(matches!(lister.next(), Step::Yield(2)));
    assert!(matches!(lister.next(), Step::Fetch(2)));
}

#[test]
fn a_total_of_zero_ends_after_one_page() {
    let mut lister: Lister<usize> = Lister::new();
    assert_eq!(fetch(&mut lister), 1);
    lister.page_received(Vec::new(), 0);
    assert!(matches!(lister.next(), Step::Done));
    assert_eq!(lister.page(), 1);
}

#[test]
fn an_exact_multiple_needs_no_extra_page() {
    let mut lister: Lister<usize> = Lister::new();
    let mut all = Vec::new();
    assert_eq!(fetch(&mut lister), 1);
    lister.page_received(page(0, 100), 200);
    drain(&mut lister, &mut all);
    assert_eq!(fetch(&mut lister), 2);
    lister.page_received(page(100, 100), 200);
    drain(&mut lister, &mut all);
    assert!(matches!(lister.next(), Step::Done));
    assert_eq!(all, page(0, 200));
}

#[test]
fn more_entities_than_the_total_end_the_listing() {
    let mut lister: Lister<usize> = Lister::new();
    fetch(&mut lister);
    lister.page_received(page(0, 100), 40);
    let mut all = Vec::new();
    drain(&mut lister, &mut all);
    assert_eq!(all.len(), 100);
    assert!(matches!(lister.next(), Step::Done));
}

#[test]
fn an_internal_listing_ends_with_an_empty_page() {
    let mut lister: Lister<usize> = Lister::new();
    let mut all = Vec::new();
    assert_eq!(fetch(&mut lister), 1);
    lister.internal_page_received(page(0, 100));
    drain(&mut lister, &mut all);
    assert_eq!(fetch(&mut lister), 2);
    lister.internal_page_received(page(100, 20));
    drain(&mut lister, &mut all);
    assert_eq!(fetch(&mut lister), 3);
    lister.internal_page_received(Vec::new());
    assert!(matches!(lister.next(), Step::Done));
    assert_eq!(all, page(0, 120));
    assert_eq!(lister.received(), 120);
}
