use solana_rpc_minimal::port_search::{PortSearch, SearchStep};

fn run(search: &mut PortSearch, outcomes: &[bool]) -> Vec<SearchStep> {
    let mut steps = Vec::new();
    for &bound in outcomes {
        steps.push(search.advance(bound));
    }
    steps
}

#[test]
fn first_port_that_binds_is_the_result() {
    let mut search = PortSearch::new((10000, 10010), 10004);
    assert_eq!(search.port(), 10004);
    assert_eq!(search.advance(true), SearchStep::Found(10004));
    // a bound port ends the search where it stands
    assert_eq!(search.port(), 10004);
    assert_eq!(search.advance(true), SearchStep::Found(10004));
}

#[test]
fn refused_ports_walk_up_and_wrap_around() {
    let mut search = PortSearch::new((10, 13), 11);
    let steps = run(&mut search, &[false, false, false, false]);
    assert_eq!(
        steps,
        vec![
            SearchStep::Retry(12),
            SearchStep::Retry(10),
            SearchStep::Retry(11),
            SearchStep::Exhausted,
        ]
    );
    // once exhausted, the search stays exhausted
    assert_eq!(search.advance(false), SearchStep::Exhausted);
}

#[test]
fn search_from_last_port_wraps_at_once() {
    let mut search = PortSearch::new((10, 13), 12);
    assert_eq!(search.advance(false), SearchStep::Retry(10));
    assert_eq!(search.advance(false), SearchStep::Retry(11));
    assert_eq!(search.advance(true), SearchStep::Found(11));
}

#[test]
fn every_port_is_tried_before_giving_up() {
    let (start, end) = (20000u16, 20050u16);
    let first = 20017u16;
    let mut search = PortSearch::new((start, end), first);
    let mut tried = vec![search.port()];
    loop {
        match search.advance(false) {
            SearchStep::Retry(p) => tried.push(p),
            SearchStep::Exhausted => break,
            SearchStep::Found(_) => panic!("no port bound"),
        }
    }
    // span + 1 attempts, the first port being tried again at the end
    assert_eq!(tried.len(), (end - start) as usize + 1);
    assert_eq!(*tried.last().unwrap(), first);
    let mut distinct = tried[..tried.len() - 1].to_vec();
    distinct.sort();
    let all: Vec<u16> = (start..end).collect();
    assert_eq!(distinct, all);
}

#[test]
fn range_of_one_port() {
    let mut search = PortSearch::new((5, 6), 5);
    assert_eq!(search.advance(false), SearchStep::Retry(5));
    assert_eq!(search.advance(false), SearchStep::Exhausted);
}

#[test]
fn whole_port_range_wraps_below_u16_max() {
    let mut search = PortSearch::new((10000, 65535), 65534);
    assert_eq!(search.advance(false), SearchStep::Retry(10000));
}

#[test]
fn random_start_lies_in_range() {
    for _ in 0..500 {
        let search = PortSearch::random((10000, 10003));
        let p = search.port();
        assert!((10000..10003).contains(&p));
    }
    let search = PortSearch::random((7, 8));
    assert_eq!(search.port(), 7);
}

#[test]
fn random_start_is_drawn_not_fixed() {
    let mut seen_other = false;
    for _ in 0..200 {
        if PortSearch::random((1000, 2000)).port() != 1000 {
            seen_other = true;
        }
    }
    assert!(seen_other);
}
