use std::cell::RefCell;
use std::rc::Rc;

use awaur::paginator::{FetchPoll, PaginatedStream, PaginationDelegate, StreamPoll};

/// A pagination source over fixed pages, recording every offset it is told.
struct PagedSource {
    pages: Vec<Vec<u32>>,
    fetched: usize,
    offset: usize,
    total: Option<usize>,
    fail_at: Option<usize>,
    clamp_page_size: Option<usize>,
    observed: Rc<RefCell<Vec<usize>>>,
}

impl PagedSource {
    fn new(pages: Vec<Vec<u32>>, total: Option<usize>) -> (Self, Rc<RefCell<Vec<usize>>>) {
        let observed = Rc::new(RefCell::new(Vec::new()));
        let source = PagedSource {
            pages,
            fetched: 0,
            offset: 0,
            total,
            fail_at: None,
            clamp_page_size: None,
            observed: Rc::clone(&observed),
        };
        (source, observed)
    }
}

impl PaginationDelegate for PagedSource {
    type Item = u32;
    type Error = String;

    // The ghost model of the source: never called at run time.
    fn offset_spec(&self) -> usize {
        self.offset
    }

    fn total_spec(&self) -> Option<usize> {
        self.total
    }

    fn stores_exact_offset() -> bool {
        false
    }

    fn next_page(&mut self) -> Result<Vec<u32>, String> {
        if Some(self.fetched) == self.fail_at {
            self.fetched += 1;
            return Err("fetch failed".to_string());
        }
        if self.fetched >= self.pages.len() {
            self.fetched += 1;
            return Err("past the end".to_string());
        }
        let page = self.pages[self.fetched].clone();
        self.fetched += 1;
        Ok(page)
    }

    fn offset(&self) -> usize {
        self.offset
    }

    fn set_offset(&mut self, value: usize) {
        self.observed.borrow_mut().push(value);
        self.offset = match self.clamp_page_size {
            Some(size) if value % size != 0 => usize::MAX,
            _ => value,
        };
    }

    fn total_items(&self) -> Option<usize> {
        self.total
    }
}

/// Drives the stream for one item, issuing and resolving page requests the
/// way a synchronous consumer would. The checks before the resolving call
/// mirror where the engine would have panicked had it made them itself.
fn pull(stream: &mut PaginatedStream<PagedSource>) -> Option<Result<u32, String>> {
    loop {
        match stream.poll_next(FetchPoll::Pending) {
            StreamPoll::Fetch(mut source) => {
                let result = source.next_page();
                if let Ok(items) = &result {
                    assert!(!items.is_empty(), "a resolved page must hold items");
                    assert!(items.len() <= usize::MAX - source.offset());
                }
                match stream.poll_next(FetchPoll::Ready(source, result)) {
                    StreamPoll::Item(item) => return Some(Ok(item)),
                    StreamPoll::Failed(error) => return Some(Err(error)),
                    StreamPoll::Done => return None,
                    _ => unreachable!(),
                }
            }
            StreamPoll::NotReady => continue,
            StreamPoll::Item(item) => return Some(Ok(item)),
            StreamPoll::Failed(error) => return Some(Err(error)),
            StreamPoll::Done => return None,
        }
    }
}

// Page size 10, total 25, pages of sizes [10, 10, 5]: exactly 25 items,
// completion on the 26th pull, offsets observed 0 -> 10 -> 20 -> 25, and no
// fourth fetch.
#[test]
fn scenario_three_pages_of_twenty_five() {
    let pages: Vec<Vec<u32>> = vec![
        (0..10).collect(),
        (10..20).collect(),
        (20..25).collect(),
    ];
    let (source, observed) = PagedSource::new(pages, Some(25));
    assert_eq!(source.offset(), 0);
    let mut stream = PaginatedStream::from(source);

    let mut yielded = Vec::new();
    for _ in 0..25 {
        match pull(&mut stream) {
            Some(Ok(item)) => yielded.push(item),
            other => panic!("expected an item, got {:?}", other.map(|r| r.map(|_| ()))),
        }
    }
    assert_eq!(yielded, (0..25).collect::<Vec<u32>>());
    // The 26th pull completes the sequence.
    assert!(pull(&mut stream).is_none());
    assert_eq!(*observed.borrow(), vec![10, 20, 25]);
}

// Order preservation: pulling until completion yields the pages
// concatenated in their exact order.
#[test]
fn order_preserved_across_pages() {
    let (source, _) = PagedSource::new(vec![vec![1, 2, 3], vec![4, 5]], Some(5));
    let mut stream = PaginatedStream::from(source);
    let mut yielded = Vec::new();
    while let Some(result) = pull(&mut stream) {
        yielded.push(result.expect("no fetch should fail"));
    }
    assert_eq!(yielded, vec![1, 2, 3, 4, 5]);
}

// Offset advance: after a page of three items resolves, the source has been
// told offset 3, although only one item has been pulled so far.
#[test]
fn offset_advances_by_page_size_at_fetch() {
    let (source, observed) = PagedSource::new(vec![vec![1, 2, 3]], Some(3));
    let mut stream = PaginatedStream::from(source);
    assert_eq!(pull(&mut stream), Some(Ok(1)));
    assert_eq!(*observed.borrow(), vec![3]);
}

// Error terminality: the error is yielded exactly once, and every pull
// after it completes, with no further fetch.
#[test]
fn error_is_terminal() {
    let (mut source, observed) = PagedSource::new(vec![vec![1, 2]], None);
    source.fail_at = Some(1);
    let mut stream = PaginatedStream::from(source);
    assert_eq!(pull(&mut stream), Some(Ok(1)));
    assert_eq!(pull(&mut stream), Some(Ok(2)));
    assert_eq!(pull(&mut stream), Some(Err("fetch failed".to_string())));
    for _ in 0..10 {
        assert!(pull(&mut stream).is_none());
    }
    // Only the successful first fetch set an offset.
    assert_eq!(*observed.borrow(), vec![2]);
}

// Idempotent completion: a completed stream completes again on every pull,
// with no observable side effect on the source.
#[test]
fn completion_is_idempotent() {
    let (source, observed) = PagedSource::new(vec![vec![1]], Some(1));
    let mut stream = PaginatedStream::from(source);
    assert_eq!(pull(&mut stream), Some(Ok(1)));
    for _ in 0..10 {
        assert!(pull(&mut stream).is_none());
    }
    assert_eq!(*observed.borrow(), vec![1]);
}

// Termination by short page: a page shorter than the full page size makes
// the source clamp its offset to a past-the-end sentinel, so the sequence
// completes instead of fetching again.
#[test]
fn short_page_terminates_without_another_fetch() {
    let (mut source, observed) = PagedSource::new(vec![(0..7).collect()], Some(100));
    source.clamp_page_size = Some(10);
    let mut stream = PaginatedStream::from(source);
    let mut yielded = Vec::new();
    while let Some(result) = pull(&mut stream) {
        yielded.push(result.expect("the only fetch succeeds"));
    }
    assert_eq!(yielded, (0..7).collect::<Vec<u32>>());
    // set_offset saw 7 once; had a second fetch happened, it would have
    // failed and the error would have surfaced above.
    assert_eq!(*observed.borrow(), vec![7]);
}

// An unresolved fetch leaves the stream pending and not ready.
#[test]
fn unresolved_fetch_reports_not_ready() {
    let (source, _) = PagedSource::new(vec![vec![1]], Some(1));
    let mut stream = PaginatedStream::from(source);
    let source = match stream.poll_next(FetchPoll::Pending) {
        StreamPoll::Fetch(source) => source,
        _ => panic!("a fresh stream asks for a fetch"),
    };
    assert!(matches!(
        stream.poll_next(FetchPoll::Pending),
        StreamPoll::NotReady
    ));
    assert!(matches!(
        stream.poll_next(FetchPoll::Pending),
        StreamPoll::NotReady
    ));
    drop(source);
}

// The upper-bound size estimate is the advisory total while the stream
// holds the delegate, and unknown otherwise.
#[test]
fn size_hint_follows_state() {
    let (source, _) = PagedSource::new(vec![vec![1, 2]], Some(2));
    let mut stream = PaginatedStream::from(source);
    assert_eq!(stream.size_hint(), (0, Some(2)));
    let source = match stream.poll_next(FetchPoll::Pending) {
        StreamPoll::Fetch(source) => source,
        _ => panic!("a fresh stream asks for a fetch"),
    };
    // The delegate is away with the request: no estimate.
    assert_eq!(stream.size_hint(), (0, None));
    let result = {
        let mut source = source;
        let result = source.next_page();
        stream.poll_next(FetchPoll::Ready(source, result))
    };
    assert!(matches!(result, StreamPoll::Item(1)));
    assert_eq!(stream.size_hint(), (0, Some(2)));
    assert!(matches!(stream.poll_next(FetchPoll::Pending), StreamPoll::Item(2)));
    assert!(matches!(stream.poll_next(FetchPoll::Pending), StreamPoll::Done));
    // Closed: no estimate.
    assert_eq!(stream.size_hint(), (0, None));
}
